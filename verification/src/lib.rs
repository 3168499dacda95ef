//! A verified callback-correlation bridge for a native ledger library.
//!
//! Every native operation follows one convention: the caller hands over a
//! correlation token and a callback, the native side answers at once with a
//! status, and, where that status is success, calls back exactly once later
//! with the token, a status and the result values. This crate holds the
//! decisions of that protocol as a sequential state machine whose every
//! transition is proved against a mathematical model; the foreign calls, the
//! blocking and the locking belong to the caller.

pub mod error;
pub mod payload;
pub mod allocator;
pub mod registry;
pub mod model;
pub mod bridge;
pub mod waiter;
pub mod results;
pub mod native;
pub mod pool;
pub mod laws;

pub use crate::error::ErrorCode;
pub use crate::payload::{IndyHandle, Outcome, Payload, ResultShape};
