//! From what a blocking caller received to the result it returns.

use vstd::prelude::*;
use crate::error::ErrorCode;
use crate::payload::{IndyHandle, Outcome, Payload, ResultShape};

verus! {

/// How the wait of a blocking caller ended.
#[derive(Clone, Debug, PartialEq, Eq)]
pub enum Received {
    /// The completion arrived in time.
    Delivered(Outcome),
    /// The deadline passed first. The operation goes on, and its completion
    /// will find nobody listening.
    Expired,
}

impl Received {
    /// The caller's result: on expiry the timeout status, else what the
    /// outcome says.
    pub open spec fn as_result(self) -> Result<Payload, ErrorCode> {
        match self {
            Received::Delivered(outcome) => outcome.as_result(),
            Received::Expired => Err(ErrorCode::TimeoutExpired),
        }
    }

    /// Whether a caller that expects `shape` can take this.
    pub open spec fn fits(self, shape: ResultShape) -> bool {
        self matches Received::Delivered(outcome) ==> outcome.fits(shape)
    }

    /// Exec form of [`Received::fits`].
    pub fn carries(&self, shape: ResultShape) -> (yes: bool)
        ensures
            yes == self.fits(shape),
    {
        match self {
            Received::Delivered(outcome) => outcome.carries(shape),
            Received::Expired => true,
        }
    }

    /// The caller's result, with the values still in their common type.
    pub fn into_result(self) -> (r: Result<Payload, ErrorCode>)
        ensures
            r == self.as_result(),
    {
        match self {
            Received::Delivered(outcome) => outcome.into_result(),
            Received::Expired => Err(ErrorCode::TimeoutExpired),
        }
    }
}

/// Turns what a blocking caller received into its typed result, one
/// function per result shape.
///
/// A result of another shape than the operation's is a broken contract, not
/// an input: each function asks for the shape it converts.
pub struct ResultHandler {}

impl ResultHandler {
    /// For operations without a result value.
    pub fn empty(received: Received) -> (r: Result<(), ErrorCode>)
        requires
            received.fits(ResultShape::Empty),
        ensures
            r == (match received.as_result() {
                Ok(_) => Ok::<(), ErrorCode>(()),
                Err(status) => Err(status),
            }),
    {
        match received.into_result() {
            Ok(_) => Ok(()),
            Err(status) => Err(status),
        }
    }

    /// For operations that return one handle.
    pub fn handle(received: Received) -> (r: Result<IndyHandle, ErrorCode>)
        requires
            received.fits(ResultShape::Handle),
        ensures
            received.as_result() == (match r {
                Ok(value) => Ok::<Payload, ErrorCode>(Payload::Handle(value)),
                Err(status) => Err(status),
            }),
    {
        match received.into_result() {
            Ok(Payload::Handle(value)) => Ok(value),
            Ok(_) => unreached(),
            Err(status) => Err(status),
        }
    }

    /// For operations that return one string.
    pub fn text(received: Received) -> (r: Result<String, ErrorCode>)
        requires
            received.fits(ResultShape::Text),
        ensures
            received.as_result() == (match r {
                Ok(value) => Ok::<Payload, ErrorCode>(Payload::Text(value)),
                Err(status) => Err(status),
            }),
    {
        match received.into_result() {
            Ok(Payload::Text(value)) => Ok(value),
            Ok(_) => unreached(),
            Err(status) => Err(status),
        }
    }

    /// For operations that return one binary blob.
    pub fn bytes(received: Received) -> (r: Result<Vec<u8>, ErrorCode>)
        requires
            received.fits(ResultShape::Bytes),
        ensures
            received.as_result() == (match r {
                Ok(value) => Ok::<Payload, ErrorCode>(Payload::Bytes(value)),
                Err(status) => Err(status),
            }),
    {
        match received.into_result() {
            Ok(Payload::Bytes(value)) => Ok(value),
            Ok(_) => unreached(),
            Err(status) => Err(status),
        }
    }
}

} // verus!
