//! The handle allocator: the source of correlation tokens.

use vstd::prelude::*;
use crate::payload::IndyHandle;

verus! {

/// Issues correlation tokens in increasing order, starting at 1, so that no
/// token is ever issued twice.
pub struct HandleAllocator {
    last: IndyHandle,
}

impl HandleAllocator {
    /// The token that the next call of [`HandleAllocator::next`] returns.
    pub closed spec fn upcoming(self) -> int {
        self.last + 1
    }

    /// The allocator has issued exactly the tokens from 1 up to, and without,
    /// `upcoming()`.
    pub closed spec fn wf(self) -> bool {
        0 <= self.last
    }

    /// Whether a token is left to issue.
    pub open spec fn can_issue(self) -> bool {
        self.upcoming() <= IndyHandle::MAX
    }

    pub fn new() -> (allocator: HandleAllocator)
        ensures
            allocator.wf(),
            allocator.upcoming() == 1,
    {
        HandleAllocator { last: 0 }
    }

    /// An allocator whose first token is `first`, for a process that takes
    /// up a numbering where another left it.
    pub fn starting_at(first: IndyHandle) -> (allocator: HandleAllocator)
        requires
            1 <= first,
        ensures
            allocator.wf(),
            allocator.upcoming() == first,
    {
        HandleAllocator { last: first - 1 }
    }

    /// Exec form of the negation of [`HandleAllocator::can_issue`].
    pub fn is_exhausted(&self) -> (yes: bool)
        ensures
            yes == !self.can_issue(),
    {
        self.last == IndyHandle::MAX
    }

    /// Issues the next token, which is larger than every token issued
    /// before; or `None`, and no change, once the last token is out.
    pub fn next(&mut self) -> (token: Option<IndyHandle>)
        requires
            old(self).wf(),
        ensures
            final(self).wf(),
            old(self).can_issue() ==> token == Some(old(self).upcoming() as IndyHandle)
                && final(self).upcoming() == old(self).upcoming() + 1,
            !old(self).can_issue() ==> token is None && final(self).upcoming() == old(
                self,
            ).upcoming(),
    {
        if self.last == IndyHandle::MAX {
            None
        } else {
            self.last = self.last + 1;
            Some(self.last)
        }
    }

    /// A well-formed allocator has issued no token below 1.
    pub proof fn lemma_upcoming_positive(self)
        requires
            self.wf(),
        ensures
            1 <= self.upcoming() <= IndyHandle::MAX + 1,
    {
    }
}

} // verus!
