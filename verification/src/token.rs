//! Session token allocation.  The allocator hands out strictly increasing
//! integers starting at 0 and never reuses a value while it lives; the
//! registry, not the allocator, tracks which sessions are still alive.

use vstd::prelude::*;

verus! {

/// Issues unique session tokens.  `issued` records, in issuance order, every
/// token handed out so far; it exists only for reasoning.
pub struct TokenAllocator {
    pub counter: u64,
    pub issued: Ghost<Seq<u64>>,
}

impl TokenAllocator {
    /// The tokens handed out so far, in issuance order.
    pub open spec fn issued(self) -> Seq<u64> {
        self.issued@
    }

    /// The value the next call of `next` will return.
    pub open spec fn counter(self) -> u64 {
        self.counter
    }

    /// The `i`-th token issued is `i`: the counter starts at 0 and each
    /// issuance increments it by exactly one.
    pub open spec fn wf(self) -> bool {
        &&& self.issued@.len() == self.counter
        &&& forall|i: int| 0 <= i < self.issued@.len() ==> self.issued@[i] == i as u64
    }

    /// A fresh allocator whose first token will be 0.
    pub fn new() -> (r: TokenAllocator)
        ensures
            r.wf(),
            r.counter() == 0,
            r.issued() == Seq::<u64>::empty(),
    {
        TokenAllocator { counter: 0, issued: Ghost(Seq::empty()) }
    }

    /// Issues the next token: the current counter value, after which the
    /// counter is one larger.  No two calls ever return the same value.
    pub fn next(&mut self) -> (t: u64)
        requires
            old(self).wf(),
            old(self).counter() < u64::MAX,
        ensures
            final(self).wf(),
            t == old(self).counter(),
            final(self).counter() == old(self).counter() + 1,
            final(self).issued() == old(self).issued().push(t),
    {
        let t = self.counter;
        self.counter = self.counter + 1;
        self.issued = Ghost(self.issued@.push(t));
        t
    }
}

/// Token monotonicity: across any run of sequential accepts, the issued
/// tokens are pairwise distinct and appear in strictly increasing order.
pub proof fn lemma_token_monotonic(a: TokenAllocator, i: int, j: int)
    requires
        a.wf(),
        0 <= i < j < a.issued().len(),
    ensures
        a.issued()[i] < a.issued()[j],
        a.issued()[i] != a.issued()[j],
{
}

} // verus!
