//! The randomness capability: opaque alphanumeric fragments that make each
//! synthesized token look unique. Nothing about their content is promised
//! beyond length and character set.
use vstd::prelude::*;

use rand::Rng;

verus! {

/// `c` is an ASCII letter or digit.
pub open spec fn is_alnum(c: char) -> bool {
    (48 <= c as u32 && c as u32 <= 57) || (65 <= c as u32 && c as u32 <= 90) || (97 <= c as u32
        && c as u32 <= 122)
}

/// `c` is a digit or a lowercase ASCII letter.
pub open spec fn is_lower_alnum(c: char) -> bool {
    (48 <= c as u32 && c as u32 <= 57) || (97 <= c as u32 && c as u32 <= 122)
}

/// ASCII lowercasing of one character: `A`..`Z` shift down by 32, every
/// other character is unchanged.
pub open spec fn lower_char(c: char) -> char {
    if 65 <= c as u32 && c as u32 <= 90 {
        ((c as u32) + 32) as char
    } else {
        c
    }
}

/// Relies on `rand`'s `Alphanumeric` distribution sampled from `thread_rng`:
/// every sample is an ASCII letter or digit. Which ones come out is not
/// promised; two calls may differ.
#[verifier::external_body]
fn random_alphanumeric(n: usize) -> (r: String)
    ensures
        r@.len() == n,
        forall|i: int| 0 <= i < r@.len() ==> is_alnum(#[trigger] r@[i]),
{
    rand::thread_rng().sample_iter(&rand::distributions::Alphanumeric).take(n).map(
        char::from,
    ).collect()
}

/// Relies on `str::to_ascii_lowercase`: ASCII uppercase letters are mapped
/// to lowercase, all other characters are unchanged.
#[verifier::external_body]
fn ascii_lowercase(s: &str) -> (r: String)
    ensures
        r@ == s@.map_values(|c: char| lower_char(c)),
{
    s.to_ascii_lowercase()
}

/// A fresh opaque fragment: `n` digits or lowercase ASCII letters.
pub fn random_lower_alphanumeric(n: usize) -> (r: String)
    ensures
        r@.len() == n,
        forall|i: int| 0 <= i < r@.len() ==> is_lower_alnum(#[trigger] r@[i]),
{
    let s = random_alphanumeric(n);
    let r = ascii_lowercase(s.as_str());
    proof {
        assert forall|i: int| 0 <= i < r@.len() implies is_lower_alnum(r@[i]) by {
            assert(r@[i] == lower_char(s@[i]));
            assert(is_alnum(s@[i]));
        }
    }
    r
}

} // verus!
