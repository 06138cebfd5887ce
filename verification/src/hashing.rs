//! The metadata binding: a digest of the metadata document, rendered as
//! lowercase hex, that ties a callback URL to the metadata it was derived
//! from.
use vstd::prelude::*;

use crate::numeric::digit_char;

verus! {

/// The 256-bit digest of the UTF-8 encoding of `s`. The digest is a function
/// of the characters alone; its value is only fixed by the hash
/// implementation behind `sha256_digest`.
pub uninterp spec fn sha256_of(s: Seq<char>) -> Seq<u8>;

/// Relies on `bitcoin::hashes::sha256::Hash::hash`: a SHA-256 digest of the
/// input bytes, always 32 bytes long and a function of the input alone.
#[verifier::external_body]
fn sha256_digest(s: &str) -> (r: Vec<u8>)
    ensures
        r@ == sha256_of(s@),
        r@.len() == 32,
{
    let h = <bitcoin::hashes::sha256::Hash as bitcoin::hashes::Hash>::hash(s.as_bytes());
    <bitcoin::hashes::sha256::Hash as bitcoin::hashes::Hash>::to_byte_array(h).to_vec()
}

/// The lowercase hex character for `d < 16`.
pub open spec fn hex_digit_char(d: nat) -> char {
    if d < 10 {
        digit_char(d)
    } else if d == 10 {
        'a'
    } else if d == 11 {
        'b'
    } else if d == 12 {
        'c'
    } else if d == 13 {
        'd'
    } else if d == 14 {
        'e'
    } else {
        'f'
    }
}

/// Lowercase hex encoding of `b`: two digits per byte, high nibble first.
pub open spec fn hex_of(b: Seq<u8>) -> Seq<char>
    decreases b.len(),
{
    if b.len() == 0 {
        Seq::<char>::empty()
    } else {
        seq![
            hex_digit_char((b.first() / 16) as nat),
            hex_digit_char((b.first() % 16) as nat),
        ] + hex_of(b.drop_first())
    }
}

/// Relies on `hex::encode`: lowercase hex, exactly two digits per input byte,
/// high nibble first.
#[verifier::external_body]
fn hex_lower(bytes: &[u8]) -> (r: String)
    ensures
        r@ == hex_of(bytes@),
{
    hex::encode(bytes)
}

/// Derives the callback-binding hash of a metadata document: the lowercase
/// hex digest of its bytes. Total over every input string.
pub fn bind(metadata: &str) -> (r: String)
    ensures
        r@ == hex_of(sha256_of(metadata@)),
{
    let digest = sha256_digest(metadata);
    hex_lower(digest.as_slice())
}

/// Law: the binding is deterministic. Two metadata documents with the same
/// characters always yield the same hex digest, across any two calls of
/// `bind`.
pub proof fn lemma_bind_deterministic(m1: Seq<char>, m2: Seq<char>)
    requires
        m1 == m2,
    ensures
        hex_of(sha256_of(m1)) == hex_of(sha256_of(m2)),
{
}

} // verus!
