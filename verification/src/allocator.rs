//! The identifier allocator: a monotone counter that hands out one fresh
//! identifier per genome.

use vstd::prelude::*;

verus! {

/// A monotonically increasing counter of issued genome identifiers.
///
/// `count` is the number of identifiers issued so far; the next identifier
/// drawn equals it, so a fresh allocator issues 0, 1, 2, ... in order.
pub struct IdAllocator {
    /// How many identifiers have been issued.
    pub count: u32,
}

impl IdAllocator {
    /// A fresh allocator that has issued no identifier yet.
    pub fn new() -> (r: IdAllocator)
        ensures
            r.count == 0,
    {
        IdAllocator { count: 0 }
    }

    /// Reads how many identifiers have been issued, without issuing one.
    pub fn get_counter(&self) -> (r: u32)
        ensures
            r == self.count,
    {
        self.count
    }

    /// Advances the counter by one.
    pub fn bump_counter(&mut self)
        requires
            old(self).count < u32::MAX,
        ensures
            final(self).count == old(self).count + 1,
    {
        self.count = self.count + 1;
    }

    /// Issues the next identifier: returns the current count and advances it,
    /// so successive draws return strictly increasing, gapless values.
    pub fn draw_counter(&mut self) -> (r: u32)
        requires
            old(self).count < u32::MAX,
        ensures
            r == old(self).count,
            final(self).count == old(self).count + 1,
    {
        let id: u32 = self.count;
        self.bump_counter();
        id
    }
}

/// Identifiers drawn in one run are pairwise distinct: when the i-th draw
/// from an allocator whose count started at `start` returned `start + i`
/// (as `draw_counter` ensures), no identifier repeats.
pub proof fn lemma_drawn_ids_distinct(start: u32, ids: Seq<u32>)
    requires
        forall|i: int| 0 <= i < ids.len() ==> #[trigger] ids[i] == start + i,
    ensures
        forall|i: int, j: int|
            0 <= i < ids.len() && 0 <= j < ids.len() && i != j ==> ids[i] != ids[j],
{
}

} // verus!
