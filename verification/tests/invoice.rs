//! Invoice synthesis and the settlement answer.
use lnurl_dummy::State;
use lnurl_dummy::numeric::u64_to_decimal;
use lnurl_dummy::routes::LnurlError;
use lnurl_dummy::routes::get_invoice;
use lnurl_dummy::routes::synthesize;
use lnurl_dummy::routes::verify;

const HASH: &str = "9f86d081884c7d659a2feaa0c55ad015a3bf4f1b2b0b822cd15d6c15b0f00a08";

fn test_state() -> State {
    State {
        domain: String::from("example.com"),
        min_sendable: 1_000,
        max_sendable: 11_000_000_000,
    }
}

#[test]
fn missing_amount_is_rejected() {
    let st = test_state();
    let e = get_invoice(HASH, None, &st).unwrap_err();
    assert_eq!(e, LnurlError::MissingAmount);
    assert_eq!(e.reason(), "Missing amount parameter");
}

#[test]
fn malformed_amounts_are_rejected() {
    let st = test_state();
    for a in ["", "abc", "-5", "5.0", "+7", "12a", "18446744073709551616"] {
        let e = get_invoice(HASH, Some(a), &st).unwrap_err();
        assert_eq!(e, LnurlError::MissingAmount, "{a}");
    }
}

#[test]
fn amount_5000_embeds_five_sats() {
    let st = test_state();
    let t = get_invoice(HASH, Some("5000"), &st).unwrap();
    assert!(t.token_string.starts_with("lnbc5n1p"));
}

#[test]
fn token_shape_prefix_hash_and_suffix() {
    let st = test_state();
    let t = get_invoice(HASH, Some("123456"), &st).unwrap();
    // 123456 msat -> 123 sat, remainder discarded.
    let head = format!("lnbc123n1p{}", &HASH[..8]);
    assert!(t.token_string.starts_with(&head));
    let suffix = &t.token_string[head.len()..];
    assert_eq!(suffix.len(), 50);
    assert!(suffix
        .chars()
        .all(|c| c.is_ascii_digit() || c.is_ascii_lowercase()));
}

#[test]
fn verify_url_shape_and_payment_hash() {
    let st = test_state();
    let t = get_invoice(HASH, Some("1000"), &st).unwrap();
    let head = format!("https://example.com/verify/{}/", HASH);
    assert!(t.verify_url.starts_with(&head));
    let ph = &t.verify_url[head.len()..];
    assert_eq!(ph.len(), 64);
    assert!(ph
        .chars()
        .all(|c| c.is_ascii_digit() || c.is_ascii_lowercase()));
}

#[test]
fn zero_amount_is_accepted() {
    let st = test_state();
    let t = get_invoice(HASH, Some("0"), &st).unwrap();
    assert!(t.token_string.starts_with("lnbc0n1p"));
}

#[test]
fn repeated_calls_are_not_memoized() {
    let st = test_state();
    let t1 = get_invoice(HASH, Some("5000"), &st).unwrap();
    let t2 = get_invoice(HASH, Some("5000"), &st).unwrap();
    assert_ne!(t1.token_string, t2.token_string);
    assert_ne!(t1.verify_url, t2.verify_url);
}

#[test]
fn synthesize_is_deterministic_in_injected_randomness() {
    let suffix = "abcdefghijklmnopqrstuvwxyz012345678901234567890123";
    let ph = "0123456789abcdef0123456789abcdef0123456789abcdef0123456789abcdef";
    let t = synthesize(5_000, HASH, &suffix[..50], ph, "example.com");
    assert_eq!(
        t.token_string,
        format!("lnbc5n1p{}{}", &HASH[..8], &suffix[..50])
    );
    assert_eq!(
        t.verify_url,
        format!("https://example.com/verify/{}/{}", HASH, ph)
    );
    let u = synthesize(5_000, HASH, &suffix[..50], ph, "example.com");
    assert_eq!(t.token_string, u.token_string);
    assert_eq!(t.verify_url, u.verify_url);
}

#[test]
fn verify_is_always_unsettled() {
    for (a, b) in [("x", "y"), ("", ""), ("ZZ!!", "not-hex"), (HASH, HASH)] {
        let r = verify(a, b);
        assert!(!r.settled);
        assert!(r.preimage.is_none());
        assert!(r.invoice.is_none());
    }
}

#[test]
fn decimal_rendering_matches_std() {
    for n in [0u64, 1, 9, 10, 42, 999, 1_000, 123_456_789, u64::MAX] {
        assert_eq!(u64_to_decimal(n), n.to_string());
    }
}
