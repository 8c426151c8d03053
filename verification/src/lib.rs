//! Orchestration engine for integration tests of a ticket reservation service.
//!
//! The crate holds the decisions of the harness: how a response of the service
//! is classified, how a simulated customer tracks the backend it is pinned to,
//! how soft failures add up to the outcome of a test case, and how the life of
//! a launched process is bounded. Everything that touches the network or a
//! process is left to the caller, which hands plain values in and acts on the
//! plain values it gets back.

use vstd::prelude::*;

pub mod api;
pub mod context;
pub mod correlation;
pub mod error;
pub mod logger;
pub mod registry;
pub mod rocket;
pub mod text;

verus! {

/// What the harness is started with.
#[derive(Clone, Debug, PartialEq, Eq)]
pub struct Arguments {
    /// The `.jar` file.
    pub jar: String,
    /// Whether to use the bonus implementation.
    pub bonus: Option<bool>,
}

impl Arguments {
    /// Whether the bonus implementation is tested: only if that was asked
    /// for.
    pub fn bonus(&self) -> (bonus: bool)
        ensures
            bonus == (self.bonus == Some(true)),
    {
        match self.bonus {
            Some(bonus) => bonus,
            None => false,
        }
    }
}

} // verus!
