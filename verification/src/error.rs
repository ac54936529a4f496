//! Failures that end the handling of one event and leave the run going.

use vstd::prelude::*;

verus! {

/// Why one detected instruction produced no notification. Each of these is
/// local to the event it concerns.
#[derive(Clone, Copy, Debug, PartialEq, Eq, Structural)]
pub enum EventError {
    /// The signature text is not the base58 form of 64 bytes.
    InvalidSignature,
    /// The transaction or account could not be retrieved when it was asked
    /// for. The chain may not hold it yet at the requested commitment.
    NotFound,
    /// What was retrieved does not have the expected shape.
    DecodeError,
}

} // verus!
