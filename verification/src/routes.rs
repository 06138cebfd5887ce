//! The three protocol handlers: pay-parameter resolution for an identifier,
//! invoice-token synthesis for a chosen amount, and the fixed "unsettled"
//! verification answer.
use vstd::prelude::*;

use vstd::string::StrSliceExecFns;
use vstd::string::StringExecFns;

use crate::State;
use crate::hashing::bind;
use crate::hashing::hex_of;
use crate::hashing::sha256_of;
use crate::numeric::dec_digits;
use crate::numeric::dec_value;
use crate::numeric::is_numeric;
use crate::numeric::parse_u64_decimal;
use crate::numeric::u64_to_decimal;
use crate::rng::is_lower_alnum;
use crate::rng::random_lower_alphanumeric;

verus! {

/// Protocol-level failures: every one is answered with an HTTP 400 by the
/// transport layer.
#[derive(Clone, Copy, Debug, PartialEq, Eq)]
pub enum LnurlError {
    /// The requested identifier was empty.
    InvalidIdentifier,
    /// The amount query parameter was absent or not a plain base-10 integer.
    MissingAmount,
}

impl LnurlError {
    /// The `reason` string reported in the error body.
    pub fn reason(&self) -> (r: String)
        ensures
            *self == LnurlError::InvalidIdentifier ==> r@ == "Name parameter is required"@,
            *self == LnurlError::MissingAmount ==> r@ == "Missing amount parameter"@,
    {
        match self {
            LnurlError::InvalidIdentifier => String::from_str("Name parameter is required"),
            LnurlError::MissingAmount => String::from_str("Missing amount parameter"),
        }
    }
}

/// One pay-parameter response: the requested identifier, the resolved
/// sendable bounds in millisatoshi, the metadata document, and the callback
/// URL carrying the metadata's digest.
#[derive(Debug)]
pub struct PayRequestDescriptor {
    pub identifier: String,
    pub min_sendable: u64,
    pub max_sendable: u64,
    pub metadata: String,
    pub callback_url: String,
}

/// One synthesized, never-payable invoice: the token string and the URL a
/// client may poll for settlement.
#[derive(Debug)]
pub struct InvoiceToken {
    pub token_string: String,
    pub verify_url: String,
}

/// The settlement answer: always unsettled, never a preimage or an invoice.
#[derive(Debug)]
pub struct VerificationResult {
    pub settled: bool,
    pub preimage: Option<String>,
    pub invoice: Option<String>,
}

/// The metadata document for an identifier: a fixed two-entry JSON array
/// whose exact bytes are the wire contract hashed into the callback URL.
pub open spec fn metadata_spec(name: Seq<char>, domain: Seq<char>) -> Seq<char> {
    "[[\"text/identifier\",\""@ + name + "@"@ + domain + "\"],[\"text/plain\",\"Sats for "@
        + name + "\"]]"@
}

/// The callback URL up to the digest segment.
pub open spec fn callback_prefix(domain: Seq<char>) -> Seq<char> {
    "https://"@ + domain + "/get-invoice/"@
}

/// The callback URL: prefix plus the lowercase hex digest of the metadata.
pub open spec fn callback_url_spec(domain: Seq<char>, metadata: Seq<char>) -> Seq<char> {
    callback_prefix(domain) + hex_of(sha256_of(metadata))
}

/// The invoice-like token: fixed prefix, satoshi amount, a marker, the first
/// eight characters of the binding hash, and an opaque suffix.
pub open spec fn token_spec(amount_msats: nat, hash: Seq<char>, suffix: Seq<char>) -> Seq<char> {
    "lnbc"@ + dec_digits(amount_msats / 1000) + "n1p"@ + hash.subrange(0, 8) + suffix
}

/// The verify URL handed out beside a token.
pub open spec fn verify_url_spec(domain: Seq<char>, hash: Seq<char>, payment_hash: Seq<char>) -> Seq<
    char,
> {
    "https://"@ + domain + "/verify/"@ + hash + "/"@ + payment_hash
}

/// The identifier names an amount: a nonempty digit run whose value fits
/// in 64 bits (anything larger falls back to the configured defaults).
pub open spec fn numeric_identifier(name: Seq<char>) -> bool {
    is_numeric(name) && dec_value(name) <= u64::MAX
}

/// Computes the metadata string for a given name and domain.
pub fn calc_metadata(name: &str, domain: &str) -> (r: String)
    ensures
        r@ == metadata_spec(name@, domain@),
{
    let mut s = String::from_str("[[\"text/identifier\",\"");
    s.append(name);
    s.append("@");
    s.append(domain);
    s.append("\"],[\"text/plain\",\"Sats for ");
    s.append(name);
    s.append("\"]]");
    proof {
        assert(s@ =~= metadata_spec(name@, domain@));
    }
    s
}

/// Resolves the pay parameters for a requested identifier.
///
/// An empty identifier is rejected. A purely numeric identifier names an
/// exact satoshi amount: both bounds become that amount in millisatoshi.
/// Any other identifier gets the configured default bounds. The metadata
/// document is built from the identifier and domain, and the callback URL
/// carries the lowercase hex digest of exactly that document.
pub fn get_lnurl_pay(name: &str, state: &State) -> (r: Result<PayRequestDescriptor, LnurlError>)
    requires
        state.wf(),
        numeric_identifier(name@) ==> dec_value(name@) * 1000 <= u64::MAX,
    ensures
        r is Err <==> name@.len() == 0,
        r matches Err(e) ==> e == LnurlError::InvalidIdentifier,
        r matches Ok(d) ==> {
            &&& d.identifier@ == name@
            &&& d.metadata@ == metadata_spec(name@, state.domain@)
            &&& d.callback_url@ == callback_url_spec(
                state.domain@,
                metadata_spec(name@, state.domain@),
            )
            &&& numeric_identifier(name@) ==> d.min_sendable == dec_value(name@) * 1000
                && d.max_sendable == dec_value(name@) * 1000
            &&& !numeric_identifier(name@) ==> d.min_sendable == state.min_sendable
                && d.max_sendable == state.max_sendable
            &&& d.min_sendable <= d.max_sendable
        },
{
    if name.is_empty() {
        return Err(LnurlError::InvalidIdentifier);
    }
    let (min_sendable, max_sendable) = match parse_u64_decimal(name) {
        Some(sats) => {
            let msats = sats * 1000;
            (msats, msats)
        },
        None => (state.min_sendable, state.max_sendable),
    };
    let metadata = calc_metadata(name, state.domain.as_str());
    let hash_hex = bind(metadata.as_str());
    let mut callback = String::from_str("https://");
    callback.append(state.domain.as_str());
    callback.append("/get-invoice/");
    callback.append(hash_hex.as_str());
    proof {
        assert(callback@ =~= callback_url_spec(
            state.domain@,
            metadata_spec(name@, state.domain@),
        ));
    }
    Ok(
        PayRequestDescriptor {
            identifier: String::from_str(name),
            min_sendable,
            max_sendable,
            metadata,
            callback_url: callback,
        },
    )
}

/// Builds the dummy invoice token: it passes naive structural checks (prefix,
/// embedded satoshi amount, opaque tail) but is never payable. The opaque
/// suffix is injected so callers control the entropy.
pub fn generate_dummy_invoice(amount_msats: u64, hash: &str, suffix: &str) -> (r: String)
    requires
        hash.is_ascii(),
        hash@.len() >= 8,
    ensures
        r@ == token_spec(amount_msats as nat, hash@, suffix@),
{
    let amount_sats = amount_msats / 1000;
    let mut s = String::from_str("lnbc");
    let dec = u64_to_decimal(amount_sats);
    s.append(dec.as_str());
    s.append("n1p");
    s.append(hash.substring_ascii(0, 8));
    s.append(suffix);
    proof {
        assert(s@ =~= token_spec(amount_msats as nat, hash@, suffix@));
    }
    s
}

/// Synthesizes the full invoice response for an amount: the token string and
/// the verify URL. Deterministic in its arguments; randomness is injected
/// through `suffix` and `payment_hash`.
pub fn synthesize(
    amount_msats: u64,
    hash: &str,
    suffix: &str,
    payment_hash: &str,
    domain: &str,
) -> (r: InvoiceToken)
    requires
        hash.is_ascii(),
        hash@.len() >= 8,
    ensures
        r.token_string@ == token_spec(amount_msats as nat, hash@, suffix@),
        r.verify_url@ == verify_url_spec(domain@, hash@, payment_hash@),
{
    let token_string = generate_dummy_invoice(amount_msats, hash, suffix);
    let mut v = String::from_str("https://");
    v.append(domain);
    v.append("/verify/");
    v.append(hash);
    v.append("/");
    v.append(payment_hash);
    proof {
        assert(v@ =~= verify_url_spec(domain@, hash@, payment_hash@));
    }
    InvoiceToken { token_string, verify_url: v }
}

/// The amount query parameter is present and a plain base-10 integer that
/// fits in 64 bits.
pub open spec fn well_formed_amount(amount: Option<&str>) -> bool {
    match amount {
        Some(a) => is_numeric(a@) && dec_value(a@) <= u64::MAX,
        None => false,
    }
}

/// The millisatoshi value of a well-formed amount parameter.
pub open spec fn amount_msats(amount: Option<&str>) -> nat {
    match amount {
        Some(a) => dec_value(a@),
        None => 0,
    }
}

/// An opaque fragment of length `n`: digits and lowercase ASCII letters.
pub open spec fn opaque_fragment(s: Seq<char>, n: nat) -> bool {
    s.len() == n && forall|i: int| 0 <= i < s.len() ==> is_lower_alnum(#[trigger] s[i])
}

/// Handles an invoice request for a binding hash: rejects an absent or
/// malformed amount, and otherwise synthesizes a token embedding the
/// requested amount and a verify URL with a fresh payment hash. The opaque
/// fragments are freshly drawn on every call and nothing ties them to the
/// inputs.
pub fn get_invoice(hash: &str, amount: Option<&str>, state: &State) -> (r: Result<
    InvoiceToken,
    LnurlError,
>)
    requires
        hash.is_ascii(),
        hash@.len() >= 8,
    ensures
        r is Err <==> !well_formed_amount(amount),
        r matches Err(e) ==> e == LnurlError::MissingAmount,
        r matches Ok(t) ==> exists|sfx: Seq<char>, ph: Seq<char>|
            {
                &&& #[trigger] opaque_fragment(sfx, 50)
                &&& #[trigger] opaque_fragment(ph, 64)
                &&& t.token_string@ == token_spec(amount_msats(amount), hash@, sfx)
                &&& t.verify_url@ == verify_url_spec(state.domain@, hash@, ph)
            },
{
    let msats: u64 = match amount {
        None => {
            return Err(LnurlError::MissingAmount);
        },
        Some(a) => match parse_u64_decimal(a) {
            None => {
                return Err(LnurlError::MissingAmount);
            },
            Some(v) => v,
        },
    };
    let suffix = random_lower_alphanumeric(50);
    let payment_hash = random_lower_alphanumeric(64);
    let t = synthesize(msats, hash, suffix.as_str(), payment_hash.as_str(), state.domain.as_str());
    proof {
        assert(opaque_fragment(suffix@, 50));
        assert(opaque_fragment(payment_hash@, 64));
    }
    Ok(t)
}

/// Answers a settlement query: always unsettled, with no preimage and no
/// invoice payload, whatever the two path segments hold.
pub fn verify(_desc_hash: &str, _pay_hash: &str) -> (r: VerificationResult)
    ensures
        r.settled == false,
        r.preimage is None,
        r.invoice is None,
{
    VerificationResult { settled: false, preimage: None, invoice: None }
}

/// Law: every callback URL ends with the lowercase hex digest of exactly the
/// metadata document returned beside it in the same response.
pub proof fn lemma_callback_contains_metadata_digest(name: Seq<char>, domain: Seq<char>)
    ensures
        ({
            let md = metadata_spec(name, domain);
            let cb = callback_url_spec(domain, md);
            let digest = hex_of(sha256_of(md));
            cb.len() >= digest.len() && cb.subrange(
                cb.len() - digest.len(),
                cb.len() as int,
            ) == digest
        }),
{
    let md = metadata_spec(name, domain);
    let cb = callback_url_spec(domain, md);
    let digest = hex_of(sha256_of(md));
    assert(cb.subrange(cb.len() - digest.len(), cb.len() as int) =~= digest);
}

/// Law: repeated invoice requests are not memoized. For one amount and one
/// binding hash, distinct opaque suffixes give distinct token strings, and
/// distinct payment hashes give distinct verify URLs.
pub proof fn lemma_distinct_fragments_distinct_outputs(
    amount_msats: nat,
    hash: Seq<char>,
    domain: Seq<char>,
    s1: Seq<char>,
    s2: Seq<char>,
    p1: Seq<char>,
    p2: Seq<char>,
)
    requires
        s1 != s2,
        p1 != p2,
    ensures
        token_spec(amount_msats, hash, s1) != token_spec(amount_msats, hash, s2),
        verify_url_spec(domain, hash, p1) != verify_url_spec(domain, hash, p2),
{
    let head = "lnbc"@ + dec_digits(amount_msats / 1000) + "n1p"@ + hash.subrange(0, 8);
    assert(token_spec(amount_msats, hash, s1) == head + s1);
    assert(token_spec(amount_msats, hash, s2) == head + s2);
    if head + s1 == head + s2 {
        assert((head + s1).len() == head.len() + s1.len());
        assert((head + s2).len() == head.len() + s2.len());
        assert(s1 =~= s2) by {
            assert forall|i: int| 0 <= i < s1.len() implies s1[i] == s2[i] by {
                assert((head + s1)[head.len() + i] == s1[i]);
                assert((head + s2)[head.len() + i] == s2[i]);
            }
        }
    }
    let vhead = "https://"@ + domain + "/verify/"@ + hash + "/"@;
    assert(verify_url_spec(domain, hash, p1) == vhead + p1);
    assert(verify_url_spec(domain, hash, p2) == vhead + p2);
    if vhead + p1 == vhead + p2 {
        assert((vhead + p1).len() == vhead.len() + p1.len());
        assert((vhead + p2).len() == vhead.len() + p2.len());
        assert(p1 =~= p2) by {
            assert forall|i: int| 0 <= i < p1.len() implies p1[i] == p2[i] by {
                assert((vhead + p1)[vhead.len() + i] == p1[i]);
                assert((vhead + p2)[vhead.len() + i] == p2[i]);
            }
        }
    }
}

} // verus!
