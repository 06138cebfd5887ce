//! Startup configuration for the service.
use vstd::prelude::*;

use crate::State;

verus! {

/// Settings read once at process start. `bind` and `port` only matter to the
/// transport layer; `domain` and the sendable bounds feed every handler.
pub struct Config {
    pub bind: String,
    pub port: u16,
    pub domain: String,
    pub min_sendable: u64,
    pub max_sendable: u64,
}

impl Config {
    /// The default bounds must be ordered (`min_sendable <= max_sendable`);
    /// anything else is rejected at startup.
    pub open spec fn wf(&self) -> bool {
        self.min_sendable <= self.max_sendable
    }

    pub fn is_well_formed(&self) -> (r: bool)
        ensures
            r == self.wf(),
    {
        self.min_sendable <= self.max_sendable
    }

    /// The handler-facing part of the configuration.
    pub fn to_state(&self) -> (r: State)
        ensures
            r.domain@ == self.domain@,
            r.min_sendable == self.min_sendable,
            r.max_sendable == self.max_sendable,
            self.wf() ==> r.wf(),
    {
        State {
            domain: self.domain.clone(),
            min_sendable: self.min_sendable,
            max_sendable: self.max_sendable,
        }
    }
}

} // verus!
