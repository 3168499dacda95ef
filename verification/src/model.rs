//! The mathematical model of the bridge: its state, the events that change
//! it, and what each event delivers.

use vstd::prelude::*;
use crate::error::ErrorCode;
use crate::payload::{IndyHandle, Outcome, Payload};
use crate::registry::PendingCall;

verus! {

/// The state of the bridge: the token that is issued next, and the calls
/// that are pending.
pub struct BridgeState<S, F> {
    pub next: int,
    pub pending: Map<IndyHandle, PendingCall<S, F>>,
}

/// One thing that happens to the bridge.
pub enum Event<S, F> {
    /// A caller registers `call`, before it invokes the native function.
    Register { call: PendingCall<S, F> },
    /// The native function invoked for `token` returned the status `raw`.
    Settle { token: IndyHandle, raw: i32 },
    /// The native side fired the dispatch adapter of the shape of `payload`
    /// for `token`.
    Complete { token: IndyHandle, raw: i32, payload: Payload },
}

/// One completion handed to the owner of a pending call.
pub struct Delivery<S, F> {
    pub token: IndyHandle,
    pub to: PendingCall<S, F>,
    pub outcome: Outcome,
}

impl<S, F> BridgeState<S, F> {
    /// The state before any call: token 1 comes first, nothing is pending.
    pub open spec fn init() -> Self {
        BridgeState { next: 1, pending: Map::empty() }
    }

    /// Every pending token has been issued, and tokens are issued from 1 on.
    pub open spec fn wf(self) -> bool {
        &&& 1 <= self.next <= IndyHandle::MAX + 1
        &&& forall|t: IndyHandle| #[trigger] self.pending.contains_key(t) ==> 1 <= t < self.next
    }

    /// Whether a token is left to issue.
    pub open spec fn can_issue(self) -> bool {
        self.next <= IndyHandle::MAX
    }

    /// Whether `token` has been issued and is pending no more, or can never
    /// be issued: no call will ever be pending under it again.
    pub open spec fn retired(self, token: IndyHandle) -> bool {
        token < self.next && !self.pending.contains_key(token)
    }

    /// `call` is stored under the next token; where no token is left,
    /// nothing changes.
    pub open spec fn register(self, call: PendingCall<S, F>) -> Self {
        if self.can_issue() {
            BridgeState {
                next: self.next + 1,
                pending: self.pending.insert(self.next as IndyHandle, call),
            }
        } else {
            self
        }
    }

    /// The token under which [`BridgeState::register`] stores a call, or
    /// `None` where it stores nothing because no token is left.
    pub open spec fn issued_by_register(self) -> Option<IndyHandle> {
        if self.can_issue() {
            Some(self.next as IndyHandle)
        } else {
            None
        }
    }

    /// The entry for `token` is removed, if there is one.
    pub open spec fn discard(self, token: IndyHandle) -> Self {
        BridgeState { next: self.next, pending: self.pending.remove(token) }
    }

    /// After the native function returned `raw` for `token`: a failure means
    /// that no completion will follow, so the entry goes; a success leaves
    /// the entry to the completion.
    pub open spec fn settle(self, token: IndyHandle, raw: i32) -> Self {
        if ErrorCode::of_native(raw) == ErrorCode::Success {
            self
        } else {
            self.discard(token)
        }
    }

    /// What a completion for `token` delivers: the outcome goes to the call
    /// pending under `token`, if there is one and it expects this shape.
    pub open spec fn delivery(self, token: IndyHandle, raw: i32, payload: Payload) -> Option<
        Delivery<S, F>,
    > {
        if self.pending.contains_key(token) && self.pending[token].spec_shape()
            == payload.spec_shape() {
            Some(
                Delivery {
                    token,
                    to: self.pending[token],
                    outcome: Outcome::of_completion(raw, payload),
                },
            )
        } else {
            None
        }
    }

    /// The state after one event.
    pub open spec fn step(self, event: Event<S, F>) -> Self {
        match event {
            Event::Register { call } => self.register(call),
            Event::Settle { token, raw } => self.settle(token, raw),
            Event::Complete { token, .. } => self.discard(token),
        }
    }

    /// What one event delivers.
    pub open spec fn delivered(self, event: Event<S, F>) -> Option<Delivery<S, F>> {
        match event {
            Event::Complete { token, raw, payload } => self.delivery(token, raw, payload),
            _ => None,
        }
    }

    /// The state after the events of `events`, in order.
    pub open spec fn run(self, events: Seq<Event<S, F>>) -> Self
        decreases events.len(),
    {
        if events.len() == 0 {
            self
        } else {
            self.step(events[0]).run(events.drop_first())
        }
    }

    /// Everything that the events of `events` deliver for `token`, in order.
    pub open spec fn deliveries(self, events: Seq<Event<S, F>>, token: IndyHandle) -> Seq<
        Delivery<S, F>,
    >
        decreases events.len(),
    {
        if events.len() == 0 {
            Seq::empty()
        } else {
            let rest = self.step(events[0]).deliveries(events.drop_first(), token);
            match self.delivered(events[0]) {
                Some(d) if d.token == token => seq![d] + rest,
                _ => rest,
            }
        }
    }
}

impl<S, F> Event<S, F> {
    /// Whether this event can remove or deliver the call pending under
    /// `token`: a settlement with a failure, or a completion, for that token.
    pub open spec fn concerns(self, token: IndyHandle) -> bool {
        match self {
            Event::Register { .. } => false,
            Event::Settle { token: t, raw } => t == token && ErrorCode::of_native(raw)
                != ErrorCode::Success,
            Event::Complete { token: t, .. } => t == token,
        }
    }
}

} // verus!
