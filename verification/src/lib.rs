//! Construction, encoding and weight negotiation of cross-chain
//! remote-procedure envelopes.
//!
//! An envelope is an ordered sequence of protocol instructions that a remote
//! execution engine replays atomically: pay an execution fee out of a
//! pre-funded account, invoke one remote operation whose payload is a
//! byte-exact encoded call, and refund the unused fee to a beneficiary.
//! This crate proves the byte layout of the encoded calls, the shape of the
//! envelopes, and the two-pass weight negotiation that sizes the fee.

pub mod builder;
pub mod call;
pub mod codec;
pub mod dispatch;
pub mod envelope;
pub mod executor;
pub mod negotiate;
pub mod records;
pub mod scale;
pub mod schedule;
pub mod tokens;
