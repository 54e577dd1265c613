//! The durable counter that ids come from.

use crate::stable::{
    counter_get, counter_init, counter_region, counter_set, counter_value, region_number,
    region_opens, region_pages, Region, StableCounter,
};
use vstd::prelude::*;

verus! {

/// Hands out the ids of one collection: 1, 2, 3 and so on, each once.
pub struct IdAllocator {
    counter: StableCounter,
}

impl IdAllocator {
    /// The id handed out last; 0 before the first.
    pub closed spec fn last(self) -> u64 {
        counter_value(self.counter)
    }

    /// The number of the region that the counter is kept in.
    pub closed spec fn region(self) -> u8 {
        counter_region(self.counter)
    }

    /// The allocator stored in `region`, or a new one that has handed out
    /// nothing where the region holds none: on first use the counter is 0.
    /// It takes the region for its own. Of a region that was written to,
    /// what the allocator has handed out so far is what the region held. The
    /// region must be one that can be opened.
    pub fn init(region: Region) -> (allocator: IdAllocator)
        requires
            region_opens(region),
        ensures
            allocator.region() == region_number(region),
            region_pages(region) == 0 ==> allocator.last() == 0,
    {
        IdAllocator { counter: counter_init(region, 0) }
    }

    /// The id handed out last.
    pub fn current(&self) -> (id: u64)
        ensures
            id == self.last(),
    {
        counter_get(&self.counter)
    }

    /// Hands out the next id and records that it is taken.
    pub fn allocate(&mut self) -> (id: u64)
        requires
            old(self).last() < u64::MAX,
        ensures
            id == old(self).last() + 1,
            final(self).last() == id,
            final(self).region() == old(self).region(),
    {
        let id: u64 = counter_get(&self.counter) + 1;
        counter_set(&mut self.counter, id);
        id
    }
}

} // verus!
