//! Shared verdict and error types of the consensus layer.

use vstd::prelude::*;

verus! {

/// Outcome of verifying a single block proposal: a protocol verdict,
/// expected and non-fatal.
#[derive(Debug, Clone)]
pub enum VerificationResult {
    /// The proposal passed every check.
    Valid,
    /// The proposal was rejected; the reason names the failing check.
    Invalid(String),
}

/// Operational failure of a consensus operation.
#[derive(Debug, Clone)]
pub enum ConsensusError {
    /// A shared component could not be reached; surfaced by callers
    /// that guard the consensus state with locks.
    InternalError(String),
    /// A vote arrived from an id the validator directory does not know.
    InvalidProposer(String),
    /// A protocol violation, such as a second vote for the same block.
    ValidationFailed(String),
}

} // verus!
