//! The bridge itself: the allocator and the registry behind one state, and
//! the dispatch adapters that route a native completion to its owner.

use vstd::prelude::*;
use crate::allocator::HandleAllocator;
use crate::model::{BridgeState, Delivery};
use crate::payload::{IndyHandle, Outcome, Payload, ResultShape};
use crate::registry::{PendingCall, Registry};

verus! {

/// The way in which a completion broke the protocol. Either one means that
/// an invariant of the bridge or of the native library is gone; the caller
/// of the dispatch adapter treats it as fatal.
#[derive(Clone, Copy, Debug, PartialEq, Eq, Structural)]
pub enum ProtocolViolation {
    /// No call is pending under the token: the native side answered a call
    /// that was never made, or answered one twice.
    UnknownToken,
    /// The call pending under the token expects another shape of result than
    /// the adapter that was fired delivers.
    ShapeMismatch,
}

/// What is to be done with one completion.
#[derive(Debug)]
pub enum Dispatch<S, F> {
    /// Send `outcome` on `sender`. A send that fails because the receiver is
    /// gone is no error: the caller stopped waiting.
    Send { sender: S, outcome: Outcome },
    /// Call `continuation` with `outcome`, on the current thread, and let no
    /// panic of it pass.
    Invoke { continuation: F, outcome: Outcome },
    /// Deliver nothing, and fail loudly.
    Violation(ProtocolViolation),
}

impl<S, F> Dispatch<S, F> {
    /// Whether this dispatch hands over exactly `delivery`: the outcome of
    /// the delivery, to the sender or the continuation of the call that the
    /// delivery names, and nothing where there is no delivery.
    pub open spec fn performs(self, delivery: Option<Delivery<S, F>>) -> bool {
        match self {
            Dispatch::Send { sender, outcome } => {
                &&& delivery matches Some(d)
                &&& d.outcome == outcome
                &&& d.to matches PendingCall::BlockingChannel { sender: s, .. }
                &&& s == sender
            },
            Dispatch::Invoke { continuation, outcome } => {
                &&& delivery matches Some(d)
                &&& d.outcome == outcome
                &&& d.to matches PendingCall::UserClosure { continuation: c, .. }
                &&& c == continuation
            },
            Dispatch::Violation(_) => delivery is None,
        }
    }
}

/// The handle allocator and the pending call registry, kept together so
/// that no token is issued while it is pending.
pub struct Bridge<S, F> {
    allocator: HandleAllocator,
    registry: Registry<S, F>,
}

impl<S, F> View for Bridge<S, F> {
    type V = BridgeState<S, F>;

    closed spec fn view(&self) -> BridgeState<S, F> {
        BridgeState { next: self.allocator.upcoming(), pending: self.registry@ }
    }
}

impl<S, F> Bridge<S, F> {
    /// The allocator is sound and every pending token has been issued.
    pub closed spec fn wf(self) -> bool {
        &&& self.allocator.wf()
        &&& self@.wf()
    }

    /// What the completion `(token, raw, payload)` leads to in `state`.
    pub open spec fn dispatch_of(
        state: BridgeState<S, F>,
        token: IndyHandle,
        raw: i32,
        payload: Payload,
    ) -> Dispatch<S, F> {
        if !state.pending.contains_key(token) {
            Dispatch::Violation(ProtocolViolation::UnknownToken)
        } else if state.pending[token].spec_shape() != payload.spec_shape() {
            Dispatch::Violation(ProtocolViolation::ShapeMismatch)
        } else {
            match state.pending[token] {
                PendingCall::BlockingChannel { sender, .. } => Dispatch::Send {
                    sender,
                    outcome: Outcome::of_completion(raw, payload),
                },
                PendingCall::UserClosure { continuation, .. } => Dispatch::Invoke {
                    continuation,
                    outcome: Outcome::of_completion(raw, payload),
                },
            }
        }
    }

    /// What the bridge decides for a completion is what the model delivers:
    /// the outcome goes to the sender or the continuation of the pending
    /// call, and a violation delivers nothing.
    pub proof fn lemma_dispatch_performs_delivery(
        state: BridgeState<S, F>,
        token: IndyHandle,
        raw: i32,
        payload: Payload,
    )
        ensures
            Self::dispatch_of(state, token, raw, payload).performs(
                state.delivery(token, raw, payload),
            ),
            Self::dispatch_of(state, token, raw, payload) is Violation <==> state.delivery(
                token,
                raw,
                payload,
            ) is None,
    {
    }

    /// A bridge that has issued no token and holds no call.
    pub fn new() -> (bridge: Bridge<S, F>)
        ensures
            bridge.wf(),
            bridge@ == BridgeState::<S, F>::init(),
    {
        let bridge = Bridge { allocator: HandleAllocator::new(), registry: Registry::new() };
        proof {
            bridge.allocator.lemma_upcoming_positive();
        }
        bridge
    }

    /// A bridge whose first token is `first` and that holds no call.
    pub fn starting_at(first: IndyHandle) -> (bridge: Bridge<S, F>)
        requires
            1 <= first,
        ensures
            bridge.wf(),
            bridge@ == (BridgeState::<S, F> { next: first as int, pending: Map::empty() }),
    {
        let bridge = Bridge {
            allocator: HandleAllocator::starting_at(first),
            registry: Registry::new(),
        };
        proof {
            bridge.allocator.lemma_upcoming_positive();
        }
        bridge
    }

    /// A well-formed bridge has a well-formed state.
    pub proof fn lemma_wf_view(self)
        requires
            self.wf(),
        ensures
            self@.wf(),
    {
    }

    /// Whether every token has been issued, so that no call can be
    /// registered any more.
    pub fn is_exhausted(&self) -> (yes: bool)
        ensures
            yes == !self@.can_issue(),
    {
        self.allocator.is_exhausted()
    }

    /// Issues a fresh token and stores `call` under it. This is done before
    /// the native function is invoked, so that the completion finds the
    /// entry whenever it comes. Once every token has been issued, nothing is
    /// stored and `None` is returned: `call` is dropped and will never be
    /// used.
    pub fn register(&mut self, call: PendingCall<S, F>) -> (token: Option<IndyHandle>)
        requires
            old(self).wf(),
        ensures
            final(self).wf(),
            final(self)@ == old(self)@.register(call),
            token == old(self)@.issued_by_register(),
            token matches Some(t) ==> !old(self)@.pending.contains_key(t),
    {
        match self.allocator.next() {
            Some(token) => {
                proof {
                    if self.registry@.contains_key(token) {
                        assert(old(self)@.pending.contains_key(token));
                    }
                }
                self.registry.register(token, call);
                proof {
                    assert(final(self)@.pending =~= old(self)@.pending.insert(token, call));
                }
                Some(token)
            },
            None => None,
        }
    }

    /// Takes the entry for `token` out of the registry, if there is one.
    fn take(&mut self, token: IndyHandle) -> (taken: Option<PendingCall<S, F>>)
        requires
            old(self).wf(),
        ensures
            final(self).wf(),
            final(self)@ == old(self)@.discard(token),
            taken == (if old(self)@.pending.contains_key(token) {
                Some(old(self)@.pending[token])
            } else {
                None
            }),
    {
        let taken = self.registry.take(token);
        proof {
            assert forall|t: IndyHandle| #[trigger]
                final(self)@.pending.contains_key(t) implies 1 <= t < final(self)@.next by {
                assert(old(self)@.pending.contains_key(t));
            }
        }
        taken
    }

    /// Removes the entry for `token` without delivering anything, and says
    /// whether there was one. This is the cleanup after a native call that
    /// failed at once: its completion will never come.
    pub fn discard(&mut self, token: IndyHandle) -> (removed: bool)
        requires
            old(self).wf(),
        ensures
            final(self).wf(),
            final(self)@ == old(self)@.discard(token),
            removed == old(self)@.pending.contains_key(token),
    {
        self.take(token).is_some()
    }

    /// Whether a call is pending under `token`.
    pub fn is_pending(&self, token: IndyHandle) -> (yes: bool)
        ensures
            yes == self@.pending.contains_key(token),
    {
        self.registry.contains(token)
    }

    /// The number of pending calls.
    pub fn pending_count(&self) -> (n: usize)
        ensures
            n == self@.pending.len(),
    {
        self.registry.len()
    }

    /// Whether no call is pending. Only an idle bridge may be torn down.
    pub fn is_idle(&self) -> (yes: bool)
        ensures
            yes == (self@.pending == Map::<IndyHandle, PendingCall<S, F>>::empty()),
    {
        self.registry.is_empty()
    }

    /// Routes one completion: takes the entry for `token` out of the
    /// registry and says what is to be done with it. Whatever the result, no
    /// call is pending under `token` afterwards, and every other entry is as
    /// it was.
    pub fn dispatch(&mut self, token: IndyHandle, raw: i32, payload: Payload) -> (todo: Dispatch<
        S,
        F,
    >)
        requires
            old(self).wf(),
        ensures
            final(self).wf(),
            final(self)@ == old(self)@.discard(token),
            todo == Self::dispatch_of(old(self)@, token, raw, payload),
            todo.performs(old(self)@.delivery(token, raw, payload)),
    {
        match self.take(token) {
            None => Dispatch::Violation(ProtocolViolation::UnknownToken),
            Some(call) => {
                if call.shape() != payload.shape() {
                    Dispatch::Violation(ProtocolViolation::ShapeMismatch)
                } else {
                    let outcome = Outcome::from_completion(raw, payload);
                    match call {
                        PendingCall::BlockingChannel { sender, .. } => Dispatch::Send {
                            sender,
                            outcome,
                        },
                        PendingCall::UserClosure { continuation, .. } => Dispatch::Invoke {
                            continuation,
                            outcome,
                        },
                    }
                }
            },
        }
    }

    /// The dispatch adapter for operations without a result value.
    pub fn dispatch_empty(&mut self, token: IndyHandle, raw: i32) -> (todo: Dispatch<S, F>)
        requires
            old(self).wf(),
        ensures
            final(self).wf(),
            final(self)@ == old(self)@.discard(token),
            todo == Self::dispatch_of(old(self)@, token, raw, Payload::Empty),
            todo.performs(old(self)@.delivery(token, raw, Payload::Empty)),
    {
        self.dispatch(token, raw, Payload::Empty)
    }

    /// The dispatch adapter for operations that return one handle.
    pub fn dispatch_handle(&mut self, token: IndyHandle, raw: i32, value: IndyHandle) -> (todo:
        Dispatch<S, F>)
        requires
            old(self).wf(),
        ensures
            final(self).wf(),
            final(self)@ == old(self)@.discard(token),
            todo == Self::dispatch_of(old(self)@, token, raw, Payload::Handle(value)),
            todo.performs(old(self)@.delivery(token, raw, Payload::Handle(value))),
    {
        self.dispatch(token, raw, Payload::Handle(value))
    }

    /// The dispatch adapter for operations that return one string.
    pub fn dispatch_text(&mut self, token: IndyHandle, raw: i32, value: String) -> (todo: Dispatch<
        S,
        F,
    >)
        requires
            old(self).wf(),
        ensures
            final(self).wf(),
            final(self)@ == old(self)@.discard(token),
            todo == Self::dispatch_of(old(self)@, token, raw, Payload::Text(value)),
            todo.performs(old(self)@.delivery(token, raw, Payload::Text(value))),
    {
        self.dispatch(token, raw, Payload::Text(value))
    }

    /// The dispatch adapter for operations that return one binary blob.
    pub fn dispatch_bytes(&mut self, token: IndyHandle, raw: i32, value: Vec<u8>) -> (todo:
        Dispatch<S, F>)
        requires
            old(self).wf(),
        ensures
            final(self).wf(),
            final(self)@ == old(self)@.discard(token),
            todo == Self::dispatch_of(old(self)@, token, raw, Payload::Bytes(value)),
            todo.performs(old(self)@.delivery(token, raw, Payload::Bytes(value))),
    {
        self.dispatch(token, raw, Payload::Bytes(value))
    }
}

} // verus!
