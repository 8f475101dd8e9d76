//! Sequence allocator: strictly increasing identifiers for tables and
//! orders.
//!
//! One allocator stands behind each counter.  Exclusive access is what the
//! `&mut` receiver demands; the caller holds the allocator behind a lock and
//! keeps it for a whole multi-identifier assignment, so unrelated creation
//! requests serialize against each other.  Counters are process-lifetime:
//! they start at zero and are never reconciled with identifiers already in
//! the store.

use vstd::prelude::*;

verus! {

/// An exclusive-access counter handing out identifiers `1, 2, 3, ...`.
#[derive(Clone, Copy, Debug, PartialEq)]
pub struct SequenceAllocator {
    pub counter: i64,
}

/// The identifiers `k` consecutive allocations hand out from a counter that
/// stood at `base`: `base + 1` through `base + k`.
pub open spec fn spec_issued(base: int, k: nat) -> Seq<int> {
    Seq::new(k, |i: int| base + 1 + i)
}

impl SequenceAllocator {
    /// A fresh counter; the first identifier it hands out is `1`.
    pub fn new() -> (r: SequenceAllocator)
        ensures
            r.counter == 0,
    {
        SequenceAllocator { counter: 0 }
    }

    /// Increments and returns the new value: the next identifier.
    pub fn next(&mut self) -> (id: i64)
        requires
            old(self).counter < i64::MAX,
        ensures
            final(self).counter == old(self).counter + 1,
            id == final(self).counter,
    {
        self.counter = self.counter + 1;
        self.counter
    }

    /// The identifiers of the next `k` allocations, without committing them.
    /// Creation flows assign identifiers this way and commit only once the
    /// store accepted the write.
    pub fn peek_block(&self, k: usize) -> (ids: Vec<i64>)
        requires
            0 <= self.counter,
            self.counter + k <= i64::MAX,
        ensures
            ids@.len() == k,
            forall|i: int| 0 <= i < k ==> ids@[i] == self.counter + 1 + i,
    {
        let mut ids: Vec<i64> = Vec::new();
        for j in 0..k
            invariant
                0 <= self.counter,
                self.counter + k <= i64::MAX,
                ids@.len() == j,
                forall|i: int| 0 <= i < j ==> ids@[i] == self.counter + 1 + i,
        {
            ids.push(self.counter + 1 + j as i64);
        }
        ids
    }

    /// Commits `k` previously peeked allocations.
    pub fn commit(&mut self, k: usize)
        requires
            0 <= old(self).counter,
            old(self).counter + k <= i64::MAX,
        ensures
            final(self).counter == old(self).counter + k,
    {
        self.counter = self.counter + k as i64;
    }
}

/// Uniqueness law of the allocator: `k` consecutive allocations against a
/// counter at `base` yield `k` identifiers that are strictly increasing in
/// allocation order and form the contiguous range `base + 1 ..= base + k`;
/// from a fresh counter (`base == 0`) that is exactly `1 ..= k`, with no
/// duplicates and no gaps.
pub proof fn lemma_allocation_unique(base: int, k: nat)
    ensures
        spec_issued(base, k).len() == k,
        forall|i: int| 0 <= i < k ==> #[trigger] spec_issued(base, k)[i] == base + 1 + i,
        forall|i: int, j: int|
            0 <= i < j < k ==> #[trigger] spec_issued(base, k)[i] < #[trigger] spec_issued(
                base,
                k,
            )[j],
{
}

/// Disjointness law of committed blocks: once one block of `k1`
/// identifiers is committed, a later block issued from the advanced
/// counter shares none of them.  The lock serializes concurrent
/// allocating requests into exactly this back-to-back pattern, so their
/// blocks never overlap.
pub proof fn lemma_blocks_disjoint(base: int, k1: nat, k2: nat)
    ensures
        forall|i: int, j: int|
            0 <= i < k1 && 0 <= j < k2 ==> #[trigger] spec_issued(base, k1)[i] != #[trigger] spec_issued(
                base + k1,
                k2,
            )[j],
{
}

} // verus!
