//! Core logic of a dummy LNURL-pay service: it derives pay parameters and the
//! metadata/hash binding for a requested identifier, synthesizes structurally
//! invoice-like (but never payable) token strings, and answers settlement
//! queries with a fixed "unsettled" result.
use vstd::prelude::*;

pub mod config;
pub mod hashing;
pub mod numeric;
pub mod rng;
pub mod routes;

use vstd::string::StringExecFns;

verus! {

/// Process-wide immutable settings shared by every handler: the externally
/// visible domain and the default sendable bounds in millisatoshi.
pub struct State {
    pub domain: String,
    pub min_sendable: u64,
    pub max_sendable: u64,
}

impl State {
    /// The default bounds must be ordered; configuration that violates this
    /// is rejected at startup rather than propagated.
    pub open spec fn wf(&self) -> bool {
        self.min_sendable <= self.max_sendable
    }

    pub fn is_well_formed(&self) -> (r: bool)
        ensures
            r == self.wf(),
    {
        self.min_sendable <= self.max_sendable
    }
}

/// Body of the health-check endpoint.
pub struct HealthResponse {
    pub status: String,
    pub version: String,
}

impl HealthResponse {
    pub fn new_ok() -> (r: Self)
        ensures
            r.status@ == "pass"@,
            r.version@ == "0"@,
    {
        HealthResponse { status: String::from_str("pass"), version: String::from_str("0") }
    }
}

} // verus!
