//! The settings that govern outbound connections.
use vstd::prelude::*;

verus! {

/// The settings that govern outbound connections.
#[derive(Clone, Copy, Debug, PartialEq, Eq, Structural)]
pub struct Settings {
    /// How often a manual connection is tried; 0 means without end.
    pub manual_attempt_limit: usize,
    /// Seconds to wait between two attempts.
    pub outbound_connect_timeout: u64,
}

} // verus!
