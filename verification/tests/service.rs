//! Service-level pieces: health response and startup configuration.
use lnurl_dummy::HealthResponse;
use lnurl_dummy::config::Config;

#[test]
fn health_response_is_pass() {
    let h = HealthResponse::new_ok();
    assert_eq!(h.status, "pass");
    assert_eq!(h.version, "0");
}

#[test]
fn config_orders_default_bounds() {
    let ok = Config {
        bind: String::from("0.0.0.0"),
        port: 3000,
        domain: String::from("example.com"),
        min_sendable: 1_000,
        max_sendable: 11_000_000_000,
    };
    assert!(ok.is_well_formed());
    let bad = Config {
        min_sendable: 2,
        max_sendable: 1,
        ..ok
    };
    assert!(!bad.is_well_formed());
}

#[test]
fn config_projects_to_state() {
    let c = Config {
        bind: String::from("127.0.0.1"),
        port: 8080,
        domain: String::from("pay.test"),
        min_sendable: 5,
        max_sendable: 50,
    };
    let s = c.to_state();
    assert_eq!(s.domain, "pay.test");
    assert_eq!(s.min_sendable, 5);
    assert_eq!(s.max_sendable, 50);
}
