//! The ways in which an exchange with the authority or with the cache fails.

use vstd::prelude::*;

verus! {

/// Why an exchange with the authority, or with the local cache, failed. None of
/// these stops the agent.
#[derive(Debug, Clone, Copy, PartialEq, Eq, Structural)]
pub enum AgentError {
    /// The request did not reach the authority, or no answer came back.
    Network,
    /// The authority answered with a status that is not a success.
    Auth { status: u16 },
    /// An answer or the cache file did not hold what was expected.
    Parse,
    /// The cache file could not be read or written.
    Storage,
}

} // verus!
