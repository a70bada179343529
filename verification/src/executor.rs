//! The local executor path: completeness accounting.
//!
//! An envelope aimed at this same engine is executed locally rather than
//! shipped. Partial execution — some instructions ran, later ones did not —
//! is a distinct failure from "did not start", and both surface as a hard
//! error: there is no remote event channel to report through.

use vstd::prelude::*;
use crate::dispatch::Error;

verus! {

/// What the execution engine reports after replaying an envelope locally.
pub enum ExecutionOutcome {
    /// Every instruction ran; `weight_used` was consumed.
    Complete { weight_used: u64 },
    /// Execution started and stopped early: `weight_used` was consumed
    /// before the engine gave up for `reason`.
    Incomplete { weight_used: u64, reason: Vec<u8> },
    /// Execution never started.
    Error { reason: Vec<u8> },
}

/// Checks an outcome for completeness: `Ok` exactly on [`ExecutionOutcome::Complete`].
/// Partial execution is never silently treated as success.
pub fn ensure_complete(outcome: &ExecutionOutcome) -> (r: Result<u64, Error>)
    ensures
        r is Ok <==> outcome is Complete,
        ((*outcome) matches ExecutionOutcome::Complete { weight_used } ==> r == Ok::<u64, Error>(
            weight_used,
        )),
        r is Err ==> r == Err::<u64, Error>(Error::XcmExecutionFailed),
{
    match outcome {
        ExecutionOutcome::Complete { weight_used } => Ok(*weight_used),
        ExecutionOutcome::Incomplete { .. } => Err(Error::XcmExecutionFailed),
        ExecutionOutcome::Error { .. } => Err(Error::XcmExecutionFailed),
    }
}

} // verus!
