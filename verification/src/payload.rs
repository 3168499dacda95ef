//! The values that a completion carries, and the closed set of their shapes.

use vstd::prelude::*;
use crate::error::ErrorCode;

verus! {

/// A correlation token: it pairs an outbound native call with the one
/// completion that may answer it.
pub type IndyHandle = i32;

/// The shape of the result values of one native operation. It is fixed per
/// operation, and each shape has its own dispatch adapter.
#[derive(Clone, Copy, Debug, PartialEq, Eq, Structural)]
pub enum ResultShape {
    /// No value: the completion is a status alone.
    Empty,
    /// One integer handle.
    Handle,
    /// One string.
    Text,
    /// One binary blob.
    Bytes,
}

/// The result values of one completion.
#[derive(Clone, Debug, PartialEq, Eq)]
pub enum Payload {
    Empty,
    Handle(IndyHandle),
    Text(String),
    Bytes(Vec<u8>),
}

impl Payload {
    pub open spec fn spec_shape(self) -> ResultShape {
        match self {
            Payload::Empty => ResultShape::Empty,
            Payload::Handle(_) => ResultShape::Handle,
            Payload::Text(_) => ResultShape::Text,
            Payload::Bytes(_) => ResultShape::Bytes,
        }
    }

    /// The shape of these values.
    pub fn shape(&self) -> (shape: ResultShape)
        ensures
            shape == self.spec_shape(),
    {
        match self {
            Payload::Empty => ResultShape::Empty,
            Payload::Handle(_) => ResultShape::Handle,
            Payload::Text(_) => ResultShape::Text,
            Payload::Bytes(_) => ResultShape::Bytes,
        }
    }
}

/// What one completion delivers to the owner of a pending call: the status
/// and the result values, both as the native side handed them over. A late
/// failure differs from a success by its status alone.
#[derive(Clone, Debug, PartialEq, Eq)]
pub struct Outcome {
    pub status: ErrorCode,
    pub payload: Option<Payload>,
}

impl Outcome {
    /// The outcome of a completion that arrived with the native status `raw`
    /// and the values `payload`: both are handed on as they came, whatever
    /// the status is.
    pub open spec fn of_completion(raw: i32, payload: Payload) -> Outcome {
        Outcome { status: ErrorCode::of_native(raw), payload: Some(payload) }
    }

    /// The values that this outcome carries; an outcome without a payload
    /// carries no value.
    pub open spec fn values(self) -> Payload {
        match self.payload {
            Some(p) => p,
            None => Payload::Empty,
        }
    }

    /// Whether a caller that expects a result of `shape` can take this
    /// outcome: a success must carry values of that shape; of a failure the
    /// caller's result takes the status alone.
    pub open spec fn fits(self, shape: ResultShape) -> bool {
        self.status == ErrorCode::Success ==> self.values().spec_shape() == shape
    }

    /// What a blocking caller gets from this outcome: the values on success,
    /// the status alone on a failure.
    pub open spec fn as_result(self) -> Result<Payload, ErrorCode> {
        if self.status == ErrorCode::Success {
            Ok(self.values())
        } else {
            Err(self.status)
        }
    }

    /// Builds the outcome of a completion from what the native side handed
    /// to the dispatch adapter.
    pub fn from_completion(raw: i32, payload: Payload) -> (outcome: Outcome)
        ensures
            outcome == Self::of_completion(raw, payload),
            outcome.status.wf(),
            outcome.fits(payload.spec_shape()),
    {
        Outcome { status: ErrorCode::from_code(raw), payload: Some(payload) }
    }

    /// Exec form of [`Outcome::fits`].
    pub fn carries(&self, shape: ResultShape) -> (yes: bool)
        ensures
            yes == self.fits(shape),
    {
        if self.status.is_success() {
            match &self.payload {
                Some(p) => p.shape() == shape,
                None => shape == ResultShape::Empty,
            }
        } else {
            true
        }
    }

    /// Converts a delivered outcome into the caller's result: the values on
    /// success, the status itself on any failure.
    pub fn into_result(self) -> (r: Result<Payload, ErrorCode>)
        ensures
            r == self.as_result(),
    {
        if self.status.is_success() {
            match self.payload {
                Some(p) => Ok(p),
                None => Ok(Payload::Empty),
            }
        } else {
            Err(self.status)
        }
    }
}

} // verus!
