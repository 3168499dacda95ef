//! The outbound side: which native function a caller is to invoke, with
//! which token and which dispatch adapter.

use vstd::prelude::*;
use crate::bridge::Bridge;
use crate::model::BridgeState;
use crate::payload::{IndyHandle, ResultShape};
use crate::registry::PendingCall;
use crate::waiter::CallStyle;

verus! {

/// A native pool operation with its arguments.
#[derive(Clone, Copy, Debug, PartialEq, Eq)]
pub enum Operation<'a> {
    CreateLedgerConfig { pool_name: &'a str, pool_config: &'a str },
    OpenLedger { pool_name: &'a str, config: Option<&'a str> },
    Refresh { pool_handle: IndyHandle },
    List,
    Close { pool_handle: IndyHandle },
    Delete { pool_name: &'a str },
    SetProtocolVersion { protocol_version: usize },
}

impl<'a> Operation<'a> {
    /// The shape of what the operation returns: opening a ledger gives its
    /// handle, listing gives a string, everything else gives no value.
    pub open spec fn result_shape(self) -> ResultShape {
        match self {
            Operation::OpenLedger { .. } => ResultShape::Handle,
            Operation::List => ResultShape::Text,
            _ => ResultShape::Empty,
        }
    }

    /// Exec form of [`Operation::result_shape`].
    pub fn shape(&self) -> (shape: ResultShape)
        ensures
            shape == self.result_shape(),
    {
        match self {
            Operation::OpenLedger { .. } => ResultShape::Handle,
            Operation::List => ResultShape::Text,
            _ => ResultShape::Empty,
        }
    }
}

/// One native call that is ready to be made: its continuation is in the
/// registry already.
///
/// The caller invokes the native function of `operation` with `token` and
/// the dispatch adapter for `adapter`, and hands the status that comes back
/// to [`Bridge::settle`], together with `token` and `style`.
#[derive(Clone, Copy, Debug, PartialEq, Eq)]
pub struct NativeCall<'a> {
    pub token: IndyHandle,
    pub operation: Operation<'a>,
    pub adapter: ResultShape,
    pub style: CallStyle,
}

impl<'a> NativeCall<'a> {
    /// The call that is made for `operation` in `state`: under the token
    /// that is issued next, with the adapter of the operation's shape. Where
    /// no token is left, no call is made.
    pub open spec fn describe<S, F>(
        state: BridgeState<S, F>,
        operation: Operation<'a>,
        style: CallStyle,
    ) -> Option<NativeCall<'a>> {
        match state.issued_by_register() {
            Some(token) => Some(
                NativeCall { token, operation, adapter: operation.result_shape(), style },
            ),
            None => None,
        }
    }

    /// Registers `pending` and describes the call to make for it.
    fn prepare<S, F>(
        bridge: &mut Bridge<S, F>,
        operation: Operation<'a>,
        style: CallStyle,
        pending: PendingCall<S, F>,
    ) -> (call: Option<NativeCall<'a>>)
        requires
            old(bridge).wf(),
            pending.spec_shape() == operation.result_shape(),
        ensures
            final(bridge).wf(),
            call == Self::describe(old(bridge)@, operation, style),
            final(bridge)@ == old(bridge)@.register(pending),
    {
        let adapter = operation.shape();
        match bridge.register(pending) {
            Some(token) => Some(NativeCall { token, operation, adapter, style }),
            None => None,
        }
    }

    /// Prepares a call whose caller blocks on the receiving end of `sender`
    /// until the completion arrives. Returns `None`, with nothing
    /// registered, once every token has been issued.
    pub fn blocking<S, F>(bridge: &mut Bridge<S, F>, operation: Operation<'a>, sender: S) -> (call:
        Option<NativeCall<'a>>)
        requires
            old(bridge).wf(),
        ensures
            final(bridge).wf(),
            call == Self::describe(old(bridge)@, operation, CallStyle::Blocking),
            final(bridge)@ == old(bridge)@.register(
                PendingCall::BlockingChannel { sender, shape: operation.result_shape() },
            ),
    {
        let shape = operation.shape();
        Self::prepare(
            bridge,
            operation,
            CallStyle::Blocking,
            PendingCall::BlockingChannel { sender, shape },
        )
    }

    /// Prepares a call whose caller blocks on the receiving end of `sender`
    /// for at most `timeout_nanos` nanoseconds. A timeout of zero or less
    /// has expired before the wait begins. Returns `None`, with nothing
    /// registered, once every token has been issued.
    pub fn blocking_with_timeout<S, F>(
        bridge: &mut Bridge<S, F>,
        operation: Operation<'a>,
        timeout_nanos: i128,
        sender: S,
    ) -> (call: Option<NativeCall<'a>>)
        requires
            old(bridge).wf(),
        ensures
            final(bridge).wf(),
            call == Self::describe(
                old(bridge)@,
                operation,
                CallStyle::BlockingWithTimeout { nanos: timeout_nanos },
            ),
            final(bridge)@ == old(bridge)@.register(
                PendingCall::BlockingChannel { sender, shape: operation.result_shape() },
            ),
    {
        let shape = operation.shape();
        Self::prepare(
            bridge,
            operation,
            CallStyle::BlockingWithTimeout { nanos: timeout_nanos },
            PendingCall::BlockingChannel { sender, shape },
        )
    }

    /// Prepares a call whose caller does not block: `continuation` is called
    /// with the outcome when the completion arrives, and never if the native
    /// function fails at once. Returns `None`, with nothing registered, once
    /// every token has been issued.
    pub fn closure<S, F>(bridge: &mut Bridge<S, F>, operation: Operation<'a>, continuation: F) -> (call:
        Option<NativeCall<'a>>)
        requires
            old(bridge).wf(),
        ensures
            final(bridge).wf(),
            call == Self::describe(old(bridge)@, operation, CallStyle::Closure),
            final(bridge)@ == old(bridge)@.register(
                PendingCall::UserClosure { continuation, shape: operation.result_shape() },
            ),
    {
        let shape = operation.shape();
        Self::prepare(
            bridge,
            operation,
            CallStyle::Closure,
            PendingCall::UserClosure { continuation, shape },
        )
    }
}

} // verus!
