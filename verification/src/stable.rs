//! The durable building blocks, as `ic_stable_structures` provides them.
//!
//! Everything in this module is trusted: the types hide a structure of that
//! crate, and each function is a single call into it whose contract is taken
//! from the crate's source rather than proved. The rest of the library is
//! verified against these contracts. They hold as long as the memory under a
//! structure is written through that structure only, and as long as the
//! memory can grow: the crate panics when it cannot.
//!
//! What a memory holds decides what opening it gives, and nothing here
//! speaks of that, with one exception: `memory_opens` stands for the memories
//! on which the crate does not panic when it opens them. It is a premise
//! that is handed on to the pool and its regions and from which nothing else
//! follows. A pool hands each region out once, so that the handle of a
//! region is the only one, and the region has the pages that its handle
//! finds until a structure is opened on it.

use ic_stable_structures::memory_manager::{MemoryId, MemoryManager, VirtualMemory};
use ic_stable_structures::{Cell, DefaultMemoryImpl, Memory, StableBTreeMap};
use vstd::prelude::*;

verus! {

/// `std::cell::RefCell`, which the in-process implementation of
/// `DefaultMemoryImpl` is built from. Opaque: it is only passed through.
#[verifier::external_type_specification]
#[verifier::external_body]
#[verifier::reject_recursive_types(T)]
pub struct ExRefCell<T: ?Sized>(std::cell::RefCell<T>);

/// `ic_stable_structures::memory_manager::MemoryId`: the number of a region.
#[verifier::external_type_specification]
#[verifier::external_body]
pub struct ExMemoryId(MemoryId);

/// One memory pool divided into numbered regions: a
/// `MemoryManager<DefaultMemoryImpl>`.
#[verifier::external_body]
pub struct MemoryPool {
    manager: MemoryManager<DefaultMemoryImpl>,
}

/// One region of a pool: a `VirtualMemory<DefaultMemoryImpl>`.
#[verifier::external_body]
pub struct Region {
    memory: VirtualMemory<DefaultMemoryImpl>,
}

/// A single durable `u64`: a `Cell<u64, VirtualMemory<DefaultMemoryImpl>>`.
#[verifier::external_body]
pub struct StableCounter {
    cell: Cell<u64, VirtualMemory<DefaultMemoryImpl>>,
}

/// A durable ordered map from `u64` keys to byte strings: a
/// `StableBTreeMap<u64, Vec<u8>, VirtualMemory<DefaultMemoryImpl>>`.
#[verifier::external_body]
pub struct StableMap {
    tree: StableBTreeMap<u64, Vec<u8>, VirtualMemory<DefaultMemoryImpl>>,
}

/// Whether the crate opens what the memory holds without panicking. It
/// panics
/// - on a pool whose layout version is not the one it writes;
/// - on a pool whose record of buckets lies beyond the end of the memory;
/// - in a region that a counter is opened on: on a cell whose layout version
///   is not the one it writes, and on a cell whose stored value is not the
///   eight bytes of a `u64` or lies beyond the end of the region;
/// - in a region that a map is opened on: on a map header of a layout
///   version that it does not know, and on a map whose allocator header does
///   not carry the allocator's mark and layout version.
/// A memory without pages, and one that holds no pool, always opens. No
/// code can test the premise; it only leaves out what the crate panics on.
pub uninterp spec fn memory_opens(memory: DefaultMemoryImpl) -> bool;

/// Whether the pool was laid over a memory that the crate opens: the premise
/// `memory_opens`, handed on.
pub uninterp spec fn pool_opens(pool: MemoryPool) -> bool;

/// The numbers of the regions that the pool has handed out: a record that
/// the calls of `pool_region` keep.
pub uninterp spec fn pool_handed(pool: MemoryPool) -> Set<u8>;

/// The number of pages that the region has, as its handle finds it: none
/// before anything was written to the region.
pub uninterp spec fn region_pages(region: Region) -> u64;

/// Whether the crate opens a cell or a map on what the region holds: the
/// premise `memory_opens`, handed on.
pub uninterp spec fn region_opens(region: Region) -> bool;

/// No region.
pub open spec fn no_regions() -> Set<u8> {
    Set::empty()
}

/// No entry.
pub open spec fn no_entries() -> Map<u64, Seq<u8>> {
    Map::empty()
}

/// The number that a `MemoryId` was made of.
pub uninterp spec fn memory_id_number(id: MemoryId) -> u8;

/// The number of the region that a handle stands for: the crate keeps the
/// `MemoryId` that the handle was asked for by.
pub uninterp spec fn region_number(region: Region) -> u8;

/// The number that a counter cell currently holds.
pub uninterp spec fn counter_value(counter: StableCounter) -> u64;

/// The number of the region that a counter cell lives in: the cell keeps the
/// memory that it was made on.
pub uninterp spec fn counter_region(counter: StableCounter) -> u8;

/// The entries that a map currently holds.
pub uninterp spec fn map_entries(map: StableMap) -> Map<u64, Seq<u8>>;

/// The number of the region that a map lives in: the map keeps the memory
/// that it was made on.
pub uninterp spec fn map_region(map: StableMap) -> u8;

/// `MemoryId::new`: the id of the region with the given number. The crate
/// reserves 255 to mark unallocated buckets and panics on it, so that number
/// is excluded.
pub assume_specification[ MemoryId::new ](id: u8) -> (region: MemoryId)
    requires
        id != 255,
    ensures
        memory_id_number(region) == id,
;

/// `MemoryManager::init`: lays a new pool over a memory without pages, or
/// over one that holds no pool, and loads the pool that `memory` holds
/// otherwise. Nothing is claimed of what the pool holds: it depends on what
/// the memory held. The memories on which the crate panics are excluded. The
/// pool has handed out no region yet.
#[verifier::external_body]
pub(crate) fn pool_init(memory: DefaultMemoryImpl) -> (pool: MemoryPool)
    requires
        memory_opens(memory),
    ensures
        pool_opens(pool) == memory_opens(memory),
        pool_handed(pool) == no_regions(),
{
    MemoryPool { manager: MemoryManager::init(memory) }
}

/// `MemoryManager::get`: the region of `pool` with the given number. Regions
/// with different numbers do not overlap; two handles for one number would
/// share their bytes, so a number is handed out once.
#[verifier::external_body]
pub(crate) fn pool_region(pool: &mut MemoryPool, id: MemoryId) -> (region: Region)
    requires
        !pool_handed(*old(pool)).contains(memory_id_number(id)),
    ensures
        region_number(region) == memory_id_number(id),
        pool_handed(*final(pool)) == pool_handed(*old(pool)).insert(memory_id_number(id)),
        pool_opens(*final(pool)) == pool_opens(*old(pool)),
        pool_opens(*old(pool)) ==> region_opens(region),
{
    Region { memory: pool.manager.get(id) }
}

/// `Memory::size` of a region: the number of pages that the region has.
#[verifier::external_body]
pub(crate) fn region_size(region: &Region) -> (pages: u64)
    ensures
        pages == region_pages(*region),
{
    region.memory.size()
}

/// `Cell::init`: the cell stored in `region`, or a new cell holding
/// `default_value` where the region holds none, as a region without pages
/// does. The cell lives in `region`. Of a region with pages nothing is
/// claimed of the value: it depends on what the region held. The regions on
/// which the crate panics are excluded.
#[verifier::external_body]
pub(crate) fn counter_init(region: Region, default_value: u64) -> (counter: StableCounter)
    requires
        region_opens(region),
    ensures
        counter_region(counter) == region_number(region),
        region_pages(region) == 0 ==> counter_value(counter) == default_value,
{
    StableCounter { cell: Cell::init(region.memory, default_value) }
}

/// `Cell::get`: the value that the cell holds.
#[verifier::external_body]
pub(crate) fn counter_get(counter: &StableCounter) -> (value: u64)
    ensures
        value == counter_value(*counter),
{
    *counter.cell.get()
}

/// `Cell::set`: writes `value` through to the cell's region and returns the
/// value that the cell held before.
#[verifier::external_body]
pub(crate) fn counter_set(counter: &mut StableCounter, value: u64) -> (previous: u64)
    ensures
        previous == counter_value(*old(counter)),
        counter_value(*final(counter)) == value,
        counter_region(*final(counter)) == counter_region(*old(counter)),
{
    counter.cell.set(value)
}

/// `StableBTreeMap::init`: the map stored in `region`, or a new empty map
/// where the region holds none, as a region without pages does. The map
/// lives in `region`. Of a region with pages nothing is claimed of the
/// entries: they depend on what the region held. The regions on which the
/// crate panics are excluded.
#[verifier::external_body]
pub(crate) fn map_init(region: Region) -> (map: StableMap)
    requires
        region_opens(region),
    ensures
        map_region(map) == region_number(region),
        region_pages(region) == 0 ==> map_entries(map) == no_entries(),
{
    StableMap { tree: StableBTreeMap::init(region.memory) }
}

/// `StableBTreeMap::get`: the value stored under `key`, if there is one.
#[verifier::external_body]
pub(crate) fn map_get(map: &StableMap, key: u64) -> (value: Option<Vec<u8>>)
    ensures
        match value {
            Some(bytes) => map_entries(*map).contains_key(key) && map_entries(*map)[key] == bytes@,
            None => !map_entries(*map).contains_key(key),
        },
{
    map.tree.get(&key)
}

/// `StableBTreeMap::insert`: stores `value` under `key` in the map's region,
/// replacing and returning what was stored there. The crate records a value's length in 32
/// bits, so longer values are excluded.
#[verifier::external_body]
pub(crate) fn map_insert(map: &mut StableMap, key: u64, value: Vec<u8>) -> (previous: Option<
    Vec<u8>,
>)
    requires
        value@.len() <= u32::MAX,
    ensures
        map_entries(*final(map)) == map_entries(*old(map)).insert(key, value@),
        map_region(*final(map)) == map_region(*old(map)),
        match previous {
            Some(bytes) => map_entries(*old(map)).contains_key(key) && map_entries(*old(map))[key]
                == bytes@,
            None => !map_entries(*old(map)).contains_key(key),
        },
{
    map.tree.insert(key, value)
}

/// `StableBTreeMap::remove`: deletes the entry under `key` in the map's
/// region and returns its value, if there was one.
#[verifier::external_body]
pub(crate) fn map_remove(map: &mut StableMap, key: u64) -> (removed: Option<Vec<u8>>)
    ensures
        map_entries(*final(map)) == map_entries(*old(map)).remove(key),
        map_region(*final(map)) == map_region(*old(map)),
        match removed {
            Some(bytes) => map_entries(*old(map)).contains_key(key) && map_entries(*old(map))[key]
                == bytes@,
            None => !map_entries(*old(map)).contains_key(key),
        },
{
    map.tree.remove(&key)
}

/// `StableBTreeMap::iter`, read to its end: every entry of the map exactly
/// once, in ascending order of the keys.
#[verifier::external_body]
pub(crate) fn map_iter(map: &StableMap) -> (entries: Vec<(u64, Vec<u8>)>)
    ensures
        forall|i: int, j: int| 0 <= i < j < entries@.len() ==> entries@[i].0 < entries@[j].0,
        forall|i: int|
            0 <= i < entries@.len() ==> map_entries(*map).contains_key(#[trigger] entries@[i].0)
                && map_entries(*map)[entries@[i].0] == entries@[i].1@,
        forall|key: u64| #[trigger]
            map_entries(*map).contains_key(key) ==> exists|i: int|
                0 <= i < entries@.len() && #[trigger] entries@[i].0 == key,
{
    map.tree.iter().map(|entry| entry.into_pair()).collect()
}

} // verus!
