//! The three calling styles, and what a caller does once the native
//! function has returned.

use vstd::prelude::*;
use crate::bridge::Bridge;
use crate::error::ErrorCode;
use crate::payload::IndyHandle;

verus! {

/// The way in which a caller wants the result of a native operation.
#[derive(Clone, Copy, Debug, PartialEq, Eq, Structural)]
pub enum CallStyle {
    /// Block the calling thread until the completion arrives.
    Blocking,
    /// Block for at most this many nanoseconds, then give up; the operation
    /// itself goes on.
    BlockingWithTimeout { nanos: i128 },
    /// Do not block: a continuation is called when the completion arrives.
    Closure,
}

/// How long a blocking caller waits on its receiver.
#[derive(Clone, Copy, Debug, PartialEq, Eq, Structural)]
pub enum Wait {
    Indefinitely,
    /// At most this many nanoseconds, more than zero.
    AtMost { nanos: i128 },
}

/// What a caller does after the native function has returned.
#[derive(Clone, Copy, Debug, PartialEq, Eq, Structural)]
pub enum Next {
    /// Return this status now, without waiting.
    Return(ErrorCode),
    /// Block on the receiver.
    Wait(Wait),
}

/// Nanoseconds in one second.
pub const NANOS_PER_SEC: i128 = 1_000_000_000;

impl Wait {
    /// The limit of this wait as whole seconds and the nanoseconds beyond
    /// them, or `None` where it has no limit. A limit of more seconds than
    /// the pair can hold is cut to the longest that it can hold.
    pub open spec fn limit_of(self) -> Option<(u64, u32)> {
        match self {
            Wait::Indefinitely => None,
            Wait::AtMost { nanos } => if nanos <= 0 {
                Some((0u64, 0u32))
            } else if nanos as int / NANOS_PER_SEC as int > u64::MAX {
                Some((u64::MAX, 999_999_999u32))
            } else {
                Some(
                    (
                        (nanos as int / NANOS_PER_SEC as int) as u64,
                        (nanos as int % NANOS_PER_SEC as int) as u32,
                    ),
                )
            },
        }
    }

    /// Exec form of [`Wait::limit_of`].
    pub fn limit(&self) -> (limit: Option<(u64, u32)>)
        ensures
            limit == self.limit_of(),
            limit matches Some((_, subsec)) ==> subsec < NANOS_PER_SEC,
    {
        match self {
            Wait::Indefinitely => None,
            Wait::AtMost { nanos } => {
                let nanos: i128 = *nanos;
                if nanos <= 0 {
                    Some((0, 0))
                } else {
                    let secs: i128 = nanos / NANOS_PER_SEC;
                    let subsec: i128 = nanos % NANOS_PER_SEC;
                    if secs > u64::MAX as i128 {
                        Some((u64::MAX, 999_999_999))
                    } else {
                        Some((secs as u64, subsec as u32))
                    }
                }
            },
        }
    }
}

/// A limit that the pair of seconds and nanoseconds can hold is kept to the
/// nanosecond: the two parts add up to it again.
pub proof fn lemma_limit_is_exact(nanos: i128)
    requires
        0 < nanos,
        nanos as int / NANOS_PER_SEC as int <= u64::MAX,
    ensures
        (Wait::AtMost { nanos }).limit_of() matches Some((secs, subsec)) && secs * NANOS_PER_SEC
            + subsec == nanos && subsec < NANOS_PER_SEC,
{
}

impl CallStyle {
    /// The step that follows the immediate status `raw` of the native
    /// function, for a caller of this style.
    ///
    /// A failure is returned as it is, whatever the style. After a success a
    /// closure caller returns at once, and a blocking caller waits, unless
    /// its deadline is not in the future: then it has expired already.
    pub open spec fn next_after(self, raw: i32) -> Next {
        let status = ErrorCode::of_native(raw);
        if status != ErrorCode::Success {
            Next::Return(status)
        } else {
            match self {
                CallStyle::Closure => Next::Return(ErrorCode::Success),
                CallStyle::Blocking => Next::Wait(Wait::Indefinitely),
                CallStyle::BlockingWithTimeout { nanos } => if nanos <= 0 {
                    Next::Return(ErrorCode::TimeoutExpired)
                } else {
                    Next::Wait(Wait::AtMost { nanos })
                },
            }
        }
    }
}

impl<S, F> Bridge<S, F> {
    /// Takes the immediate status `raw` of the native function that was
    /// invoked for `token`, and decides what the caller does next.
    ///
    /// On a failure the call's entry is discarded, since no completion will
    /// follow, and the failure is returned. On a success the entry stays in
    /// the registry until its completion takes it, whatever the caller does:
    /// also where the caller's deadline has passed already, or passes later.
    pub fn settle(&mut self, token: IndyHandle, style: CallStyle, raw: i32) -> (next: Next)
        requires
            old(self).wf(),
        ensures
            final(self).wf(),
            final(self)@ == old(self)@.settle(token, raw),
            next == style.next_after(raw),
    {
        let status = ErrorCode::from_code(raw);
        if !status.is_success() {
            self.discard(token);
            Next::Return(status)
        } else {
            match style {
                CallStyle::Closure => Next::Return(ErrorCode::Success),
                CallStyle::Blocking => Next::Wait(Wait::Indefinitely),
                CallStyle::BlockingWithTimeout { nanos } => {
                    if nanos <= 0 {
                        Next::Return(ErrorCode::TimeoutExpired)
                    } else {
                        Next::Wait(Wait::AtMost { nanos })
                    }
                },
            }
        }
    }
}

} // verus!
