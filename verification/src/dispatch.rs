//! Interpreting the transport's verdict on a dispatched envelope.
//!
//! Dispatch failure is observability-only: it raises an error event and the
//! calling operation still completes successfully. Only the local executor
//! path (see [`crate::executor`]) escalates failure to the caller.

use vstd::prelude::*;
use crate::envelope::Envelope;
use crate::envelope::Location;

verus! {

/// An opaque transport failure reason, surfaced verbatim in events.
pub struct SendError {
    pub reason: Vec<u8>,
}

impl View for SendError {
    type V = Seq<u8>;

    open spec fn view(&self) -> Seq<u8> {
        self.reason@
    }
}

/// What the caller of an operation observes.
pub enum Event {
    /// An envelope was handed to the transport; carries the caller-chosen
    /// label of the logical operation.
    CallSent(Vec<u8>),
    /// The transport rejected an envelope: the reason, the destination
    /// chain, and the label.
    ErrorSendingCall(SendError, u32, Vec<u8>),
}

/// Errors an operation surfaces to its caller.
#[derive(Clone, Copy, PartialEq, Eq, Structural, Debug)]
pub enum Error {
    /// Local envelope execution did not run to completion.
    XcmExecutionFailed,
    /// A refund beneficiary could not be derived from a location.
    InvalidRefundAddress,
}

/// The immediate accept/reject verdict on a dispatched envelope.
pub enum SendOutcome {
    Sent,
    SendFailed { reason: SendError, destination: u32, label: Vec<u8> },
}

/// A fully built envelope, ready to hand to the transport, together with
/// its destination and the caller-chosen audit label.
pub struct SendPlan {
    pub destination: Location,
    pub destination_para_id: u32,
    pub envelope: Envelope,
    pub label: Vec<u8>,
}

/// Folds the transport's result into a [`SendOutcome`].
pub fn send_outcome_of(result: Result<(), SendError>, destination: u32, label: Vec<u8>) -> (r:
    SendOutcome)
    ensures
        result is Ok ==> r == SendOutcome::Sent,
        (result matches Err(se) ==> r == (SendOutcome::SendFailed {
            reason: se,
            destination,
            label,
        })),
{
    match result {
        Ok(()) => SendOutcome::Sent,
        Err(se) => SendOutcome::SendFailed { reason: se, destination, label },
    }
}

/// Interprets the transport's result at the operation level: exactly one
/// event is raised, and the operation's own result is success either way —
/// a transport rejection is reported, never escalated.
pub fn after_transport(result: Result<(), SendError>, destination: u32, label: Vec<u8>) -> (r: (
    Event,
    Result<(), Error>,
))
    ensures
        r.1 is Ok,
        result is Ok ==> r.0 == Event::CallSent(label),
        (result matches Err(se) ==> r.0 == Event::ErrorSendingCall(se, destination, label)),
{
    match result {
        Ok(()) => (Event::CallSent(label), Ok(())),
        Err(se) => (Event::ErrorSendingCall(se, destination, label), Ok(())),
    }
}

} // verus!
