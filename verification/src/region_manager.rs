//! The division of one memory pool into numbered regions, each handed out
//! once.

use crate::stable::{
    memory_opens, pool_handed, pool_init, pool_opens, pool_region, region_number, region_opens,
    region_pages, region_size, MemoryPool, Region,
};
use ic_stable_structures::memory_manager::MemoryId;
use ic_stable_structures::DefaultMemoryImpl;
use vstd::prelude::*;

verus! {

/// The region number that the pool keeps for itself.
pub const RESERVED_REGION: u8 = 255;

/// A memory pool and the numbers of the regions that were handed out of it.
/// Two stores never share a region: a number is handed out once, and the
/// structure that is made from a region takes it for good.
pub struct RegionManager {
    pool: MemoryPool,
    claimed: Vec<u8>,
}

/// Whether nothing was ever written to the region: it has no pages. A
/// counter that is opened on such a region starts at its default, and a store
/// is empty.
pub fn is_unused(region: &Region) -> (unused: bool)
    ensures
        unused == (region_pages(*region) == 0),
{
    region_size(region) == 0
}

impl RegionManager {
    /// The numbers of the regions handed out so far.
    pub closed spec fn claimed(self) -> Set<u8> {
        self.claimed@.to_set()
    }

    /// The manager's record of the regions handed out is the pool's, and
    /// the pool lies over a memory that can be opened.
    pub closed spec fn wf(self) -> bool {
        &&& self.claimed@.to_set() == pool_handed(self.pool)
        &&& pool_opens(self.pool)
    }

    /// Lays a pool over `memory`, or takes up the pool that `memory` holds.
    /// No region of it is handed out yet. The memory must be one that can
    /// be opened. While the manager or anything made from its regions is in
    /// use, nothing else may write to `memory`.
    pub fn init(memory: DefaultMemoryImpl) -> (manager: RegionManager)
        requires
            memory_opens(memory),
        ensures
            manager.wf(),
            manager.claimed() == Set::<u8>::empty(),
    {
        let manager = RegionManager { pool: pool_init(memory), claimed: Vec::new() };
        assert(manager.claimed@.to_set() =~= Set::<u8>::empty());
        manager
    }

    /// Whether region `id` was handed out.
    pub fn is_claimed(&self, id: u8) -> (claimed: bool)
        ensures
            claimed == self.claimed().contains(id),
    {
        let mut i: usize = 0;
        while i < self.claimed.len()
            invariant
                0 <= i <= self.claimed@.len(),
                forall|j: int| 0 <= j < i ==> self.claimed@[j] != id,
            decreases self.claimed@.len() - i,
        {
            if self.claimed[i] == id {
                return true;
            }
            i += 1;
        }
        false
    }

    /// Hands out region `id`, unless it is the reserved one or was handed
    /// out before.
    pub fn claim(&mut self, id: u8) -> (region: Option<Region>)
        requires
            old(self).wf(),
        ensures
            final(self).wf(),
            region is Some <==> id != RESERVED_REGION && !old(self).claimed().contains(id),
            region matches Some(handed) ==> region_number(handed) == id && region_opens(handed),
            region is Some ==> final(self).claimed() == old(self).claimed().insert(id),
            region is None ==> final(self).claimed() == old(self).claimed(),
    {
        if id == RESERVED_REGION || self.is_claimed(id) {
            return None;
        }
        let region = pool_region(&mut self.pool, MemoryId::new(id));
        self.claimed.push(id);
        proof {
            assert forall|other: u8|
                self.claimed@.to_set().contains(other) <==> old(self).claimed@.to_set().insert(
                    id,
                ).contains(other) by {
                if old(self).claimed@.contains(other) {
                    let at = choose|j: int|
                        0 <= j < old(self).claimed@.len() && old(self).claimed@[j] == other;
                    assert(self.claimed@[at] == other);
                }
                if other == id {
                    assert(self.claimed@[old(self).claimed@.len() as int] == id);
                }
            }
            assert(self.claimed@.to_set() =~= old(self).claimed@.to_set().insert(id));
        }
        Some(region)
    }
}

} // verus!
