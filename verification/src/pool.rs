//! The pool operations of the native library, each in three calling styles.

use vstd::prelude::*;
use crate::bridge::Bridge;
use crate::native::{NativeCall, Operation};
use crate::payload::{IndyHandle, ResultShape};
use crate::registry::PendingCall;
use crate::waiter::CallStyle;

verus! {

/// The pool operations.
///
/// Every function here is the first half of one operation: it issues a
/// token, puts the caller's continuation into the registry of `bridge`, and
/// returns the native call to make. The caller makes that call and goes on
/// with [`Bridge::settle`]. Once every token has been issued, a function
/// registers nothing and returns `None`; the continuation is then dropped
/// unused. The plain functions are for a caller that blocks
/// until the completion arrives, the `_timeout` functions for one that blocks
/// up to a deadline, the `_async` functions for one that hands in a
/// continuation and does not block.
pub struct Pool {}

impl Pool {
    /// Creates a new local pool ledger configuration, which can be used later to
    /// connect to the nodes of a pool.
    ///
    /// The caller blocks on the receiving end of `sender`.
    ///
    /// * `pool_name` - name of the pool ledger configuration
    /// * `pool_config` - pool configuration as JSON; its `genesis_txn` member, which is
    ///   required, is the path of the genesis transaction file
    pub fn create_ledger_config<'a, S, F>(
        bridge: &mut Bridge<S, F>,
        pool_name: &'a str,
        pool_config: &'a str,
        sender: S,
    ) -> (call: Option<NativeCall<'a>>)
        requires
            old(bridge).wf(),
        ensures
            final(bridge).wf(),
            call == NativeCall::describe(
                old(bridge)@,
                Operation::CreateLedgerConfig { pool_name, pool_config },
                CallStyle::Blocking,
            ),
            call matches Some(c) ==> c.adapter == ResultShape::Empty,
            final(bridge)@ == old(bridge)@.register(
                PendingCall::BlockingChannel { sender, shape: ResultShape::Empty },
            ),
    {
        NativeCall::blocking(bridge, Operation::CreateLedgerConfig { pool_name, pool_config }, sender)
    }

    /// Creates a new local pool ledger configuration, which can be used later to
    /// connect to the nodes of a pool.
    ///
    /// The caller blocks on the receiving end of `sender` for at most
    /// `timeout_nanos` nanoseconds; the operation goes on after that.
    ///
    /// * `pool_name` - name of the pool ledger configuration
    /// * `pool_config` - pool configuration as JSON; its `genesis_txn` member, which is
    ///   required, is the path of the genesis transaction file
    pub fn create_ledger_config_timeout<'a, S, F>(
        bridge: &mut Bridge<S, F>,
        pool_name: &'a str,
        pool_config: &'a str,
        timeout_nanos: i128,
        sender: S,
    ) -> (call: Option<NativeCall<'a>>)
        requires
            old(bridge).wf(),
        ensures
            final(bridge).wf(),
            call == NativeCall::describe(
                old(bridge)@,
                Operation::CreateLedgerConfig { pool_name, pool_config },
                CallStyle::BlockingWithTimeout { nanos: timeout_nanos },
            ),
            call matches Some(c) ==> c.adapter == ResultShape::Empty,
            final(bridge)@ == old(bridge)@.register(
                PendingCall::BlockingChannel { sender, shape: ResultShape::Empty },
            ),
    {
        NativeCall::blocking_with_timeout(bridge, Operation::CreateLedgerConfig { pool_name, pool_config }, timeout_nanos, sender)
    }

    /// Creates a new local pool ledger configuration, which can be used later to
    /// connect to the nodes of a pool.
    ///
    /// The caller does not block: `closure` is called with the outcome, unless
    /// the native function fails at once.
    ///
    /// * `pool_name` - name of the pool ledger configuration
    /// * `pool_config` - pool configuration as JSON; its `genesis_txn` member, which is
    ///   required, is the path of the genesis transaction file
    pub fn create_ledger_config_async<'a, S, F>(
        bridge: &mut Bridge<S, F>,
        pool_name: &'a str,
        pool_config: &'a str,
        closure: F,
    ) -> (call: Option<NativeCall<'a>>)
        requires
            old(bridge).wf(),
        ensures
            final(bridge).wf(),
            call == NativeCall::describe(
                old(bridge)@,
                Operation::CreateLedgerConfig { pool_name, pool_config },
                CallStyle::Closure,
            ),
            call matches Some(c) ==> c.adapter == ResultShape::Empty,
            final(bridge)@ == old(bridge)@.register(
                PendingCall::UserClosure { continuation: closure, shape: ResultShape::Empty },
            ),
    {
        NativeCall::closure(bridge, Operation::CreateLedgerConfig { pool_name, pool_config }, closure)
    }

    /// Opens a pool ledger and connects to the nodes of the pool. A
    /// configuration of that name must have been created before, and a pool can
    /// be open only once at a time. The completion carries the handle of the
    /// opened pool.
    ///
    /// The caller blocks on the receiving end of `sender`.
    ///
    /// * `pool_name` - name of the pool ledger configuration
    /// * `config` - runtime configuration as JSON, or `None` for the defaults; its
    ///   optional members are `refresh_on_open`, `auto_refresh_time` (minutes)
    ///   and `network_timeout` (milliseconds)
    pub fn open_ledger<'a, S, F>(
        bridge: &mut Bridge<S, F>,
        pool_name: &'a str,
        config: Option<&'a str>,
        sender: S,
    ) -> (call: Option<NativeCall<'a>>)
        requires
            old(bridge).wf(),
        ensures
            final(bridge).wf(),
            call == NativeCall::describe(
                old(bridge)@,
                Operation::OpenLedger { pool_name, config },
                CallStyle::Blocking,
            ),
            call matches Some(c) ==> c.adapter == ResultShape::Handle,
            final(bridge)@ == old(bridge)@.register(
                PendingCall::BlockingChannel { sender, shape: ResultShape::Handle },
            ),
    {
        NativeCall::blocking(bridge, Operation::OpenLedger { pool_name, config }, sender)
    }

    /// Opens a pool ledger and connects to the nodes of the pool. A
    /// configuration of that name must have been created before, and a pool can
    /// be open only once at a time. The completion carries the handle of the
    /// opened pool.
    ///
    /// The caller blocks on the receiving end of `sender` for at most
    /// `timeout_nanos` nanoseconds; the operation goes on after that.
    ///
    /// * `pool_name` - name of the pool ledger configuration
    /// * `config` - runtime configuration as JSON, or `None` for the defaults; its
    ///   optional members are `refresh_on_open`, `auto_refresh_time` (minutes)
    ///   and `network_timeout` (milliseconds)
    pub fn open_ledger_timeout<'a, S, F>(
        bridge: &mut Bridge<S, F>,
        pool_name: &'a str,
        config: Option<&'a str>,
        timeout_nanos: i128,
        sender: S,
    ) -> (call: Option<NativeCall<'a>>)
        requires
            old(bridge).wf(),
        ensures
            final(bridge).wf(),
            call == NativeCall::describe(
                old(bridge)@,
                Operation::OpenLedger { pool_name, config },
                CallStyle::BlockingWithTimeout { nanos: timeout_nanos },
            ),
            call matches Some(c) ==> c.adapter == ResultShape::Handle,
            final(bridge)@ == old(bridge)@.register(
                PendingCall::BlockingChannel { sender, shape: ResultShape::Handle },
            ),
    {
        NativeCall::blocking_with_timeout(bridge, Operation::OpenLedger { pool_name, config }, timeout_nanos, sender)
    }

    /// Opens a pool ledger and connects to the nodes of the pool. A
    /// configuration of that name must have been created before, and a pool can
    /// be open only once at a time. The completion carries the handle of the
    /// opened pool.
    ///
    /// The caller does not block: `closure` is called with the outcome, unless
    /// the native function fails at once.
    ///
    /// * `pool_name` - name of the pool ledger configuration
    /// * `config` - runtime configuration as JSON, or `None` for the defaults; its
    ///   optional members are `refresh_on_open`, `auto_refresh_time` (minutes)
    ///   and `network_timeout` (milliseconds)
    pub fn open_ledger_async<'a, S, F>(
        bridge: &mut Bridge<S, F>,
        pool_name: &'a str,
        config: Option<&'a str>,
        closure: F,
    ) -> (call: Option<NativeCall<'a>>)
        requires
            old(bridge).wf(),
        ensures
            final(bridge).wf(),
            call == NativeCall::describe(
                old(bridge)@,
                Operation::OpenLedger { pool_name, config },
                CallStyle::Closure,
            ),
            call matches Some(c) ==> c.adapter == ResultShape::Handle,
            final(bridge)@ == old(bridge)@.register(
                PendingCall::UserClosure { continuation: closure, shape: ResultShape::Handle },
            ),
    {
        NativeCall::closure(bridge, Operation::OpenLedger { pool_name, config }, closure)
    }

    /// Refreshes the local copy of a pool ledger and updates the connections to
    /// the nodes of the pool.
    ///
    /// The caller blocks on the receiving end of `sender`.
    ///
    /// * `pool_handle` - handle of an opened pool
    pub fn refresh<'a, S, F>(
        bridge: &mut Bridge<S, F>,
        pool_handle: IndyHandle,
        sender: S,
    ) -> (call: Option<NativeCall<'a>>)
        requires
            old(bridge).wf(),
        ensures
            final(bridge).wf(),
            call == NativeCall::describe(
                old(bridge)@,
                Operation::Refresh { pool_handle },
                CallStyle::Blocking,
            ),
            call matches Some(c) ==> c.adapter == ResultShape::Empty,
            final(bridge)@ == old(bridge)@.register(
                PendingCall::BlockingChannel { sender, shape: ResultShape::Empty },
            ),
    {
        NativeCall::blocking(bridge, Operation::Refresh { pool_handle }, sender)
    }

    /// Refreshes the local copy of a pool ledger and updates the connections to
    /// the nodes of the pool.
    ///
    /// The caller blocks on the receiving end of `sender` for at most
    /// `timeout_nanos` nanoseconds; the operation goes on after that.
    ///
    /// * `pool_handle` - handle of an opened pool
    pub fn refresh_timeout<'a, S, F>(
        bridge: &mut Bridge<S, F>,
        pool_handle: IndyHandle,
        timeout_nanos: i128,
        sender: S,
    ) -> (call: Option<NativeCall<'a>>)
        requires
            old(bridge).wf(),
        ensures
            final(bridge).wf(),
            call == NativeCall::describe(
                old(bridge)@,
                Operation::Refresh { pool_handle },
                CallStyle::BlockingWithTimeout { nanos: timeout_nanos },
            ),
            call matches Some(c) ==> c.adapter == ResultShape::Empty,
            final(bridge)@ == old(bridge)@.register(
                PendingCall::BlockingChannel { sender, shape: ResultShape::Empty },
            ),
    {
        NativeCall::blocking_with_timeout(bridge, Operation::Refresh { pool_handle }, timeout_nanos, sender)
    }

    /// Refreshes the local copy of a pool ledger and updates the connections to
    /// the nodes of the pool.
    ///
    /// The caller does not block: `closure` is called with the outcome, unless
    /// the native function fails at once.
    ///
    /// * `pool_handle` - handle of an opened pool
    pub fn refresh_async<'a, S, F>(
        bridge: &mut Bridge<S, F>,
        pool_handle: IndyHandle,
        closure: F,
    ) -> (call: Option<NativeCall<'a>>)
        requires
            old(bridge).wf(),
        ensures
            final(bridge).wf(),
            call == NativeCall::describe(
                old(bridge)@,
                Operation::Refresh { pool_handle },
                CallStyle::Closure,
            ),
            call matches Some(c) ==> c.adapter == ResultShape::Empty,
            final(bridge)@ == old(bridge)@.register(
                PendingCall::UserClosure { continuation: closure, shape: ResultShape::Empty },
            ),
    {
        NativeCall::closure(bridge, Operation::Refresh { pool_handle }, closure)
    }

    /// Lists the names of the pool ledger configurations that exist. The
    /// completion carries them as one string.
    ///
    /// The caller blocks on the receiving end of `sender`.
    pub fn list<'a, S, F>(
        bridge: &mut Bridge<S, F>,
        sender: S,
    ) -> (call: Option<NativeCall<'a>>)
        requires
            old(bridge).wf(),
        ensures
            final(bridge).wf(),
            call == NativeCall::describe(
                old(bridge)@,
                Operation::List,
                CallStyle::Blocking,
            ),
            call matches Some(c) ==> c.adapter == ResultShape::Text,
            final(bridge)@ == old(bridge)@.register(
                PendingCall::BlockingChannel { sender, shape: ResultShape::Text },
            ),
    {
        NativeCall::blocking(bridge, Operation::List, sender)
    }

    /// Lists the names of the pool ledger configurations that exist. The
    /// completion carries them as one string.
    ///
    /// The caller blocks on the receiving end of `sender` for at most
    /// `timeout_nanos` nanoseconds; the operation goes on after that.
    ///
    pub fn list_timeout<'a, S, F>(
        bridge: &mut Bridge<S, F>,
        timeout_nanos: i128,
        sender: S,
    ) -> (call: Option<NativeCall<'a>>)
        requires
            old(bridge).wf(),
        ensures
            final(bridge).wf(),
            call == NativeCall::describe(
                old(bridge)@,
                Operation::List,
                CallStyle::BlockingWithTimeout { nanos: timeout_nanos },
            ),
            call matches Some(c) ==> c.adapter == ResultShape::Text,
            final(bridge)@ == old(bridge)@.register(
                PendingCall::BlockingChannel { sender, shape: ResultShape::Text },
            ),
    {
        NativeCall::blocking_with_timeout(bridge, Operation::List, timeout_nanos, sender)
    }

    /// Lists the names of the pool ledger configurations that exist. The
    /// completion carries them as one string.
    ///
    /// The caller does not block: `closure` is called with the outcome, unless
    /// the native function fails at once.
    ///
    pub fn list_async<'a, S, F>(
        bridge: &mut Bridge<S, F>,
        closure: F,
    ) -> (call: Option<NativeCall<'a>>)
        requires
            old(bridge).wf(),
        ensures
            final(bridge).wf(),
            call == NativeCall::describe(
                old(bridge)@,
                Operation::List,
                CallStyle::Closure,
            ),
            call matches Some(c) ==> c.adapter == ResultShape::Text,
            final(bridge)@ == old(bridge)@.register(
                PendingCall::UserClosure { continuation: closure, shape: ResultShape::Text },
            ),
    {
        NativeCall::closure(bridge, Operation::List, closure)
    }

    /// Closes an opened pool ledger with its connections, and frees what it
    /// held.
    ///
    /// The caller blocks on the receiving end of `sender`.
    ///
    /// * `pool_handle` - handle of an opened pool
    pub fn close<'a, S, F>(
        bridge: &mut Bridge<S, F>,
        pool_handle: IndyHandle,
        sender: S,
    ) -> (call: Option<NativeCall<'a>>)
        requires
            old(bridge).wf(),
        ensures
            final(bridge).wf(),
            call == NativeCall::describe(
                old(bridge)@,
                Operation::Close { pool_handle },
                CallStyle::Blocking,
            ),
            call matches Some(c) ==> c.adapter == ResultShape::Empty,
            final(bridge)@ == old(bridge)@.register(
                PendingCall::BlockingChannel { sender, shape: ResultShape::Empty },
            ),
    {
        NativeCall::blocking(bridge, Operation::Close { pool_handle }, sender)
    }

    /// Closes an opened pool ledger with its connections, and frees what it
    /// held.
    ///
    /// The caller blocks on the receiving end of `sender` for at most
    /// `timeout_nanos` nanoseconds; the operation goes on after that.
    ///
    /// * `pool_handle` - handle of an opened pool
    pub fn close_timeout<'a, S, F>(
        bridge: &mut Bridge<S, F>,
        pool_handle: IndyHandle,
        timeout_nanos: i128,
        sender: S,
    ) -> (call: Option<NativeCall<'a>>)
        requires
            old(bridge).wf(),
        ensures
            final(bridge).wf(),
            call == NativeCall::describe(
                old(bridge)@,
                Operation::Close { pool_handle },
                CallStyle::BlockingWithTimeout { nanos: timeout_nanos },
            ),
            call matches Some(c) ==> c.adapter == ResultShape::Empty,
            final(bridge)@ == old(bridge)@.register(
                PendingCall::BlockingChannel { sender, shape: ResultShape::Empty },
            ),
    {
        NativeCall::blocking_with_timeout(bridge, Operation::Close { pool_handle }, timeout_nanos, sender)
    }

    /// Closes an opened pool ledger with its connections, and frees what it
    /// held.
    ///
    /// The caller does not block: `closure` is called with the outcome, unless
    /// the native function fails at once.
    ///
    /// * `pool_handle` - handle of an opened pool
    pub fn close_async<'a, S, F>(
        bridge: &mut Bridge<S, F>,
        pool_handle: IndyHandle,
        closure: F,
    ) -> (call: Option<NativeCall<'a>>)
        requires
            old(bridge).wf(),
        ensures
            final(bridge).wf(),
            call == NativeCall::describe(
                old(bridge)@,
                Operation::Close { pool_handle },
                CallStyle::Closure,
            ),
            call matches Some(c) ==> c.adapter == ResultShape::Empty,
            final(bridge)@ == old(bridge)@.register(
                PendingCall::UserClosure { continuation: closure, shape: ResultShape::Empty },
            ),
    {
        NativeCall::closure(bridge, Operation::Close { pool_handle }, closure)
    }

    /// Deletes a pool ledger configuration.
    ///
    /// The caller blocks on the receiving end of `sender`.
    ///
    /// * `pool_name` - name of the pool ledger configuration to delete
    pub fn delete<'a, S, F>(
        bridge: &mut Bridge<S, F>,
        pool_name: &'a str,
        sender: S,
    ) -> (call: Option<NativeCall<'a>>)
        requires
            old(bridge).wf(),
        ensures
            final(bridge).wf(),
            call == NativeCall::describe(
                old(bridge)@,
                Operation::Delete { pool_name },
                CallStyle::Blocking,
            ),
            call matches Some(c) ==> c.adapter == ResultShape::Empty,
            final(bridge)@ == old(bridge)@.register(
                PendingCall::BlockingChannel { sender, shape: ResultShape::Empty },
            ),
    {
        NativeCall::blocking(bridge, Operation::Delete { pool_name }, sender)
    }

    /// Deletes a pool ledger configuration.
    ///
    /// The caller blocks on the receiving end of `sender` for at most
    /// `timeout_nanos` nanoseconds; the operation goes on after that.
    ///
    /// * `pool_name` - name of the pool ledger configuration to delete
    pub fn delete_timeout<'a, S, F>(
        bridge: &mut Bridge<S, F>,
        pool_name: &'a str,
        timeout_nanos: i128,
        sender: S,
    ) -> (call: Option<NativeCall<'a>>)
        requires
            old(bridge).wf(),
        ensures
            final(bridge).wf(),
            call == NativeCall::describe(
                old(bridge)@,
                Operation::Delete { pool_name },
                CallStyle::BlockingWithTimeout { nanos: timeout_nanos },
            ),
            call matches Some(c) ==> c.adapter == ResultShape::Empty,
            final(bridge)@ == old(bridge)@.register(
                PendingCall::BlockingChannel { sender, shape: ResultShape::Empty },
            ),
    {
        NativeCall::blocking_with_timeout(bridge, Operation::Delete { pool_name }, timeout_nanos, sender)
    }

    /// Deletes a pool ledger configuration.
    ///
    /// The caller does not block: `closure` is called with the outcome, unless
    /// the native function fails at once.
    ///
    /// * `pool_name` - name of the pool ledger configuration to delete
    pub fn delete_async<'a, S, F>(
        bridge: &mut Bridge<S, F>,
        pool_name: &'a str,
        closure: F,
    ) -> (call: Option<NativeCall<'a>>)
        requires
            old(bridge).wf(),
        ensures
            final(bridge).wf(),
            call == NativeCall::describe(
                old(bridge)@,
                Operation::Delete { pool_name },
                CallStyle::Closure,
            ),
            call matches Some(c) ==> c.adapter == ResultShape::Empty,
            final(bridge)@ == old(bridge)@.register(
                PendingCall::UserClosure { continuation: closure, shape: ResultShape::Empty },
            ),
    {
        NativeCall::closure(bridge, Operation::Delete { pool_name }, closure)
    }

    /// Sets the protocol version that every later request to a pool uses: 1 for
    /// nodes of version 1.3, 2 for nodes of version 1.4. It is 1 at the start.
    ///
    /// The caller blocks on the receiving end of `sender`.
    ///
    /// * `protocol_version` - the protocol version to use
    pub fn set_protocol_version<'a, S, F>(
        bridge: &mut Bridge<S, F>,
        protocol_version: usize,
        sender: S,
    ) -> (call: Option<NativeCall<'a>>)
        requires
            old(bridge).wf(),
        ensures
            final(bridge).wf(),
            call == NativeCall::describe(
                old(bridge)@,
                Operation::SetProtocolVersion { protocol_version },
                CallStyle::Blocking,
            ),
            call matches Some(c) ==> c.adapter == ResultShape::Empty,
            final(bridge)@ == old(bridge)@.register(
                PendingCall::BlockingChannel { sender, shape: ResultShape::Empty },
            ),
    {
        NativeCall::blocking(bridge, Operation::SetProtocolVersion { protocol_version }, sender)
    }

    /// Sets the protocol version that every later request to a pool uses: 1 for
    /// nodes of version 1.3, 2 for nodes of version 1.4. It is 1 at the start.
    ///
    /// The caller blocks on the receiving end of `sender` for at most
    /// `timeout_nanos` nanoseconds; the operation goes on after that.
    ///
    /// * `protocol_version` - the protocol version to use
    pub fn set_protocol_version_timeout<'a, S, F>(
        bridge: &mut Bridge<S, F>,
        protocol_version: usize,
        timeout_nanos: i128,
        sender: S,
    ) -> (call: Option<NativeCall<'a>>)
        requires
            old(bridge).wf(),
        ensures
            final(bridge).wf(),
            call == NativeCall::describe(
                old(bridge)@,
                Operation::SetProtocolVersion { protocol_version },
                CallStyle::BlockingWithTimeout { nanos: timeout_nanos },
            ),
            call matches Some(c) ==> c.adapter == ResultShape::Empty,
            final(bridge)@ == old(bridge)@.register(
                PendingCall::BlockingChannel { sender, shape: ResultShape::Empty },
            ),
    {
        NativeCall::blocking_with_timeout(bridge, Operation::SetProtocolVersion { protocol_version }, timeout_nanos, sender)
    }

    /// Sets the protocol version that every later request to a pool uses: 1 for
    /// nodes of version 1.3, 2 for nodes of version 1.4. It is 1 at the start.
    ///
    /// The caller does not block: `closure` is called with the outcome, unless
    /// the native function fails at once.
    ///
    /// * `protocol_version` - the protocol version to use
    pub fn set_protocol_version_async<'a, S, F>(
        bridge: &mut Bridge<S, F>,
        protocol_version: usize,
        closure: F,
    ) -> (call: Option<NativeCall<'a>>)
        requires
            old(bridge).wf(),
        ensures
            final(bridge).wf(),
            call == NativeCall::describe(
                old(bridge)@,
                Operation::SetProtocolVersion { protocol_version },
                CallStyle::Closure,
            ),
            call matches Some(c) ==> c.adapter == ResultShape::Empty,
            final(bridge)@ == old(bridge)@.register(
                PendingCall::UserClosure { continuation: closure, shape: ResultShape::Empty },
            ),
    {
        NativeCall::closure(bridge, Operation::SetProtocolVersion { protocol_version }, closure)
    }
}

} // verus!
