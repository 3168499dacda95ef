//! The pending call registry: the one owner of every stored continuation.

use vstd::prelude::*;
use std::collections::HashMap;
use crate::payload::{IndyHandle, ResultShape};

verus! {

broadcast use vstd::std_specs::hash::group_hash_axioms;

/// The continuation stored for one outstanding call, with the shape of the
/// result it expects.
///
/// `S` is the sending end of a one-shot channel on whose receiving end a
/// caller blocks; `F` is a continuation supplied by a caller that does not
/// block. The registry moves both and looks into neither.
#[derive(Debug)]
pub enum PendingCall<S, F> {
    BlockingChannel { sender: S, shape: ResultShape },
    UserClosure { continuation: F, shape: ResultShape },
}

impl<S, F> PendingCall<S, F> {
    pub open spec fn spec_shape(self) -> ResultShape {
        match self {
            PendingCall::BlockingChannel { shape, .. } => shape,
            PendingCall::UserClosure { shape, .. } => shape,
        }
    }

    /// The shape of the result that this call expects.
    pub fn shape(&self) -> (shape: ResultShape)
        ensures
            shape == self.spec_shape(),
    {
        match self {
            PendingCall::BlockingChannel { shape, .. } => *shape,
            PendingCall::UserClosure { shape, .. } => *shape,
        }
    }
}

/// A table from correlation tokens to pending calls. Its view is the map
/// itself.
pub struct Registry<S, F> {
    entries: HashMap<IndyHandle, PendingCall<S, F>>,
}

impl<S, F> View for Registry<S, F> {
    type V = Map<IndyHandle, PendingCall<S, F>>;

    closed spec fn view(&self) -> Map<IndyHandle, PendingCall<S, F>> {
        self.entries@
    }
}

impl<S, F> Registry<S, F> {
    pub fn new() -> (registry: Registry<S, F>)
        ensures
            registry@ == Map::<IndyHandle, PendingCall<S, F>>::empty(),
    {
        Registry { entries: HashMap::new() }
    }

    /// Stores `call` under `token`. A token that is already present is a
    /// programming error, which the precondition rules out.
    pub fn register(&mut self, token: IndyHandle, call: PendingCall<S, F>)
        requires
            !old(self)@.contains_key(token),
        ensures
            final(self)@ == old(self)@.insert(token, call),
    {
        self.entries.insert(token, call);
    }

    /// Removes the entry for `token` and returns it, or returns `None` where
    /// there is none. No other entry changes, so of any number of takes for
    /// one token at most one gets the entry.
    pub fn take(&mut self, token: IndyHandle) -> (taken: Option<PendingCall<S, F>>)
        ensures
            final(self)@ == old(self)@.remove(token),
            taken == (if old(self)@.contains_key(token) {
                Some(old(self)@[token])
            } else {
                None
            }),
    {
        self.entries.remove(&token)
    }

    /// Whether a call is pending under `token`.
    pub fn contains(&self, token: IndyHandle) -> (yes: bool)
        ensures
            yes == self@.contains_key(token),
    {
        self.entries.contains_key(&token)
    }

    /// The number of pending calls.
    pub fn len(&self) -> (n: usize)
        ensures
            n == self@.len(),
            self@.dom().finite(),
    {
        self.entries.len()
    }

    /// Whether no call is pending, as must hold before the registry is torn
    /// down.
    pub fn is_empty(&self) -> (yes: bool)
        ensures
            yes == (self@ == Map::<IndyHandle, PendingCall<S, F>>::empty()),
    {
        let n: usize = self.entries.len();
        proof {
            if n == 0 {
                assert(self@.dom().finite());
                assert(self@.len() == 0);
                self@.dom().lemma_len0_is_empty();
                assert(self@ =~= Map::<IndyHandle, PendingCall<S, F>>::empty());
            } else {
                assert(self@.len() != 0);
            }
        }
        n == 0
    }
}

} // verus!
