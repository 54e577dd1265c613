//! The durable state: one memory pool, and in it an id allocator and a record
//! store for each collection, each in a region of its own.
//!
//! A `Database` that this module hands out is well formed: every stored form
//! is that of a record, stored under the record's id, within the size limit,
//! and no id in use is beyond the one that the allocator gave out last. The
//! functions here are the only ones that touch the stores, and each keeps the
//! database well formed.

use crate::error::{Error, ErrorView};
use crate::id_allocator::IdAllocator;
use crate::listing::{lemma_listed_set_is_finite, lists};
use crate::marinespecie::{MarineSpecie, MarineSpecieView};
use crate::model::{
    marinespecie_views, taxonomy_views, DatabaseView, MarineSpecieCollection, TaxonomyCollection,
};
use crate::record_store::{RecordStore, MAX_RECORD_SIZE};
use crate::stable::memory_opens;
use crate::region_manager::RegionManager;
use crate::taxonomy::{Taxonomy, TaxonomyView};
use ic_stable_structures::DefaultMemoryImpl;
use vstd::prelude::*;

verus! {

/// The region that holds the counter of the taxonomy ids.
pub const TAXONOMY_ID_REGION: u8 = 0;

/// The region that holds the counter of the marine species ids.
pub const MARINESPECIE_ID_REGION: u8 = 1;

/// The region that holds the taxonomies.
pub const TAXONOMY_REGION: u8 = 2;

/// The region that holds the marine species.
pub const MARINESPECIE_REGION: u8 = 3;

/// The taxonomies that the stored forms in `entries` stand for.
pub open spec fn decoded_taxonomies(entries: Map<u64, Seq<u8>>) -> Map<u64, TaxonomyView> {
    Map::new(
        |id: u64| entries.contains_key(id),
        |id: u64| TaxonomyView::parse(entries[id]).unwrap(),
    )
}

/// The marine species that the stored forms in `entries` stand for.
pub open spec fn decoded_marinespecies(entries: Map<u64, Seq<u8>>) -> Map<u64, MarineSpecieView> {
    Map::new(
        |id: u64| entries.contains_key(id),
        |id: u64| MarineSpecieView::parse(entries[id]).unwrap(),
    )
}

/// Whether `bytes` can stand under `id` in the taxonomy store of an
/// allocator that gave out `last_id` last.
pub open spec fn taxonomy_entry_coherent(last_id: u64, id: u64, bytes: Seq<u8>) -> bool {
    &&& bytes.len() <= MAX_RECORD_SIZE
    &&& TaxonomyView::parse(bytes) is Some
    &&& TaxonomyView::parse(bytes).unwrap().id == id
    &&& id <= last_id
}

/// Whether `bytes` can stand under `id` in the marine species store of an
/// allocator that gave out `last_id` last.
pub open spec fn marinespecie_entry_coherent(last_id: u64, id: u64, bytes: Seq<u8>) -> bool {
    &&& bytes.len() <= MAX_RECORD_SIZE
    &&& MarineSpecieView::parse(bytes) is Some
    &&& MarineSpecieView::parse(bytes).unwrap().id == id
    &&& id <= last_id
}

/// Whether a taxonomy store and its allocator fit together.
pub open spec fn taxonomies_coherent(last_id: u64, entries: Map<u64, Seq<u8>>) -> bool {
    forall|id: u64| #[trigger]
        entries.contains_key(id) ==> taxonomy_entry_coherent(last_id, id, entries[id])
}

/// Whether a marine species store and its allocator fit together.
pub open spec fn marinespecies_coherent(last_id: u64, entries: Map<u64, Seq<u8>>) -> bool {
    forall|id: u64| #[trigger]
        entries.contains_key(id) ==> marinespecie_entry_coherent(last_id, id, entries[id])
}

/// Storing the stored form of a taxonomy stores the taxonomy: the decoded
/// records gain it under its id, and store and allocator still fit together.
pub proof fn lemma_taxonomy_stored(last_id: u64, entries: Map<u64, Seq<u8>>, record: TaxonomyView)
    requires
        taxonomies_coherent(last_id, entries),
        record.fits(),
        record.bytes().len() <= MAX_RECORD_SIZE,
        record.id <= last_id,
    ensures
        taxonomies_coherent(last_id, entries.insert(record.id, record.bytes())),
        decoded_taxonomies(entries.insert(record.id, record.bytes())) == decoded_taxonomies(
            entries,
        ).insert(record.id, record),
{
    record.lemma_parse_bytes();
    let stored = entries.insert(record.id, record.bytes());
    assert forall|id: u64| #[trigger] stored.contains_key(id) implies taxonomy_entry_coherent(
        last_id,
        id,
        stored[id],
    ) by {
        if id != record.id {
            assert(entries.contains_key(id));
        }
    }
    assert(decoded_taxonomies(stored) =~= decoded_taxonomies(entries).insert(record.id, record));
}

/// Storing the stored form of a marine species stores the marine species:
/// the decoded records gain it under its id, and store and allocator still
/// fit together.
pub proof fn lemma_marinespecie_stored(
    last_id: u64,
    entries: Map<u64, Seq<u8>>,
    record: MarineSpecieView,
)
    requires
        marinespecies_coherent(last_id, entries),
        record.fits(),
        record.bytes().len() <= MAX_RECORD_SIZE,
        record.id <= last_id,
    ensures
        marinespecies_coherent(last_id, entries.insert(record.id, record.bytes())),
        decoded_marinespecies(entries.insert(record.id, record.bytes())) == decoded_marinespecies(
            entries,
        ).insert(record.id, record),
{
    record.lemma_parse_bytes();
    let stored = entries.insert(record.id, record.bytes());
    assert forall|id: u64| #[trigger] stored.contains_key(id) implies marinespecie_entry_coherent(
        last_id,
        id,
        stored[id],
    ) by {
        if id != record.id {
            assert(entries.contains_key(id));
        }
    }
    assert(decoded_marinespecies(stored) =~= decoded_marinespecies(entries).insert(
        record.id,
        record,
    ));
}

/// The numbers of the regions that the four parts of a database live in.
pub struct DatabaseRegions {
    pub taxonomy_ids: u8,
    pub marinespecie_ids: u8,
    pub taxonomies: u8,
    pub marinespecies: u8,
}

/// The regions that `Database::open` gives to the parts: four different
/// ones.
pub open spec fn own_regions() -> DatabaseRegions {
    DatabaseRegions {
        taxonomy_ids: TAXONOMY_ID_REGION,
        marinespecie_ids: MARINESPECIE_ID_REGION,
        taxonomies: TAXONOMY_REGION,
        marinespecies: MARINESPECIE_REGION,
    }
}

/// The whole durable state.
pub struct Database {
    taxonomy_ids: IdAllocator,
    marinespecie_ids: IdAllocator,
    taxonomies: RecordStore,
    marinespecies: RecordStore,
}

impl View for Database {
    type V = DatabaseView;

    closed spec fn view(&self) -> DatabaseView {
        DatabaseView {
            taxonomies: TaxonomyCollection {
                last_id: self.taxonomy_ids.last(),
                records: decoded_taxonomies(self.taxonomies.entries()),
            },
            marinespecies: MarineSpecieCollection {
                last_id: self.marinespecie_ids.last(),
                records: decoded_marinespecies(self.marinespecies.entries()),
            },
        }
    }
}

impl Database {
    /// The regions that the parts of the database live in. No operation
    /// moves a part.
    pub closed spec fn regions(self) -> DatabaseRegions {
        DatabaseRegions {
            taxonomy_ids: self.taxonomy_ids.region(),
            marinespecie_ids: self.marinespecie_ids.region(),
            taxonomies: self.taxonomies.region(),
            marinespecies: self.marinespecies.region(),
        }
    }

    /// What holds of every database that this module hands out.
    pub closed spec fn wf(self) -> bool {
        &&& self.taxonomies.entries().dom().finite()
        &&& self.marinespecies.entries().dom().finite()
        &&& taxonomies_coherent(self.taxonomy_ids.last(), self.taxonomies.entries())
        &&& marinespecies_coherent(self.marinespecie_ids.last(), self.marinespecies.entries())
    }

    /// In a well-formed database each collection has finitely many records,
    /// every record stands under its own id, and no id in use is beyond the
    /// one given out last.
    pub proof fn lemma_view_wf(self)
        requires
            self.wf(),
        ensures
            self@.wf(),
    {
        assert(self@.taxonomies.records.dom() =~= self.taxonomies.entries().dom());
        assert(self@.marinespecies.records.dom() =~= self.marinespecies.entries().dom());
    }

    /// Opens the database kept in `memory`, or a new empty one, with both
    /// counters at 0, where the memory holds nothing. The counters and the
    /// stores each get a region of their own, the four of `own_regions`.
    /// What the memory holds decides what is returned, so only what holds of
    /// every outcome is promised here: `None` is returned where the memory
    /// holds no well-formed database, `assemble` states which parts make a
    /// database, and which, and `is_fresh` tells whether the database is a
    /// new one. The memory must be one that can be opened. While the
    /// database is in use, nothing else may write to `memory`.
    pub fn open(memory: DefaultMemoryImpl) -> (database: Option<Database>)
        requires
            memory_opens(memory),
        ensures
            database matches Some(db) ==> db.wf() && db.regions() == own_regions(),
    {
        let mut regions = RegionManager::init(memory);
        let taxonomy_ids = match regions.claim(TAXONOMY_ID_REGION) {
            Some(region) => IdAllocator::init(region),
            None => { return None; },
        };
        let marinespecie_ids = match regions.claim(MARINESPECIE_ID_REGION) {
            Some(region) => IdAllocator::init(region),
            None => { return None; },
        };
        let taxonomies = match regions.claim(TAXONOMY_REGION) {
            Some(region) => RecordStore::init(region),
            None => { return None; },
        };
        let marinespecies = match regions.claim(MARINESPECIE_REGION) {
            Some(region) => RecordStore::init(region),
            None => { return None; },
        };
        Database::assemble(taxonomy_ids, marinespecie_ids, taxonomies, marinespecies)
    }

    /// Makes a database of two allocators and two stores, if they fit
    /// together: if every stored form is that of a record with the id it is
    /// stored under, is within the size limit, and has an id that its
    /// allocator has given out.
    pub fn assemble(
        taxonomy_ids: IdAllocator,
        marinespecie_ids: IdAllocator,
        taxonomies: RecordStore,
        marinespecies: RecordStore,
    ) -> (database: Option<Database>)
        ensures
            database is Some <==> taxonomies_coherent(taxonomy_ids.last(), taxonomies.entries())
                && marinespecies_coherent(marinespecie_ids.last(), marinespecies.entries()),
            database matches Some(db) ==> db.wf() && db@ == (DatabaseView {
                taxonomies: TaxonomyCollection {
                    last_id: taxonomy_ids.last(),
                    records: decoded_taxonomies(taxonomies.entries()),
                },
                marinespecies: MarineSpecieCollection {
                    last_id: marinespecie_ids.last(),
                    records: decoded_marinespecies(marinespecies.entries()),
                },
            }) && db.regions() == (DatabaseRegions {
                taxonomy_ids: taxonomy_ids.region(),
                marinespecie_ids: marinespecie_ids.region(),
                taxonomies: taxonomies.region(),
                marinespecies: marinespecies.region(),
            }),
    {
        if !check_taxonomies(taxonomy_ids.current(), &taxonomies) {
            return None;
        }
        if !check_marinespecies(marinespecie_ids.current(), &marinespecies) {
            return None;
        }
        Some(Database { taxonomy_ids, marinespecie_ids, taxonomies, marinespecies })
    }

    /// Whether the database is a new one: no id was ever given out, and
    /// there is no record.
    pub fn is_fresh(&self) -> (fresh: bool)
        requires
            self.wf(),
        ensures
            fresh == (self@.taxonomies.last_id == 0 && self@.marinespecies.last_id == 0
                && self@.taxonomies.is_empty() && self@.marinespecies.is_empty()),
    {
        if self.taxonomy_ids.current() != 0 || self.marinespecie_ids.current() != 0 {
            return false;
        }
        let taxonomy = self.taxonomies.get(0);
        let marinespecie = self.marinespecies.get(0);
        proof {
            if taxonomy is None {
                assert forall|id: u64| !self@.taxonomies.records.contains_key(id) by {
                    if self.taxonomies.entries().contains_key(id) {
                        assert(taxonomy_entry_coherent(0, id, self.taxonomies.entries()[id]));
                    }
                }
            } else {
                assert(self@.taxonomies.records.contains_key(0));
            }
            if marinespecie is None {
                assert forall|id: u64| !self@.marinespecies.records.contains_key(id) by {
                    if self.marinespecies.entries().contains_key(id) {
                        assert(marinespecie_entry_coherent(
                            0,
                            id,
                            self.marinespecies.entries()[id],
                        ));
                    }
                }
            } else {
                assert(self@.marinespecies.records.contains_key(0));
            }
        }
        taxonomy.is_none() && marinespecie.is_none()
    }

    /// The taxonomy id given out last; 0 before the first.
    pub fn last_taxonomy_id(&self) -> (id: u64)
        ensures
            id == self@.taxonomies.last_id,
    {
        self.taxonomy_ids.current()
    }

    /// The marine species id given out last; 0 before the first.
    pub fn last_marinespecie_id(&self) -> (id: u64)
        ensures
            id == self@.marinespecies.last_id,
    {
        self.marinespecie_ids.current()
    }
}

/// Whether a taxonomy store fits an allocator that gave out `last_id` last.
fn check_taxonomies(last_id: u64, store: &RecordStore) -> (coherent: bool)
    ensures
        coherent == taxonomies_coherent(last_id, store.entries()),
        store.entries().dom().finite(),
{
    let listed = store.iterate();
    let ghost keys = listed@.map_values(|entry: (u64, Vec<u8>)| entry.0);
    proof {
        lemma_listed_set_is_finite(keys, store.entries().dom());
    }
    let mut i: usize = 0;
    while i < listed.len()
        invariant
            0 <= i <= listed@.len(),
            keys == listed@.map_values(|entry: (u64, Vec<u8>)| entry.0),
            lists(keys, store.entries().dom()),
            store.entries().dom().finite(),
            forall|j: int|
                0 <= j < listed@.len() ==> store.entries().contains_key(#[trigger] listed@[j].0)
                    && store.entries()[listed@[j].0] == listed@[j].1@,
            forall|j: int|
                0 <= j < i ==> taxonomy_entry_coherent(
                    last_id,
                    #[trigger] listed@[j].0,
                    listed@[j].1@,
                ),
        decreases listed@.len() - i,
    {
        let entry = &listed[i];
        let fits = entry.1.len() <= MAX_RECORD_SIZE && entry.0 <= last_id;
        let decoded = Taxonomy::decode(entry.1.as_slice());
        let coherent = match decoded {
            Some(record) => fits && record.id == entry.0,
            None => false,
        };
        if !coherent {
            assert(store.entries().contains_key(listed@[i as int].0));
            return false;
        }
        i += 1;
    }
    proof {
        assert forall|id: u64| #[trigger] store.entries().contains_key(id) implies
            taxonomy_entry_coherent(last_id, id, store.entries()[id]) by {
            assert(store.entries().dom().contains(id));
            let at = choose|j: int| 0 <= j < keys.len() && #[trigger] keys[j] == id;
            assert(listed@[at].0 == id);
        }
    }
    true
}

/// Whether a marine species store fits an allocator that gave out `last_id`
/// last.
fn check_marinespecies(last_id: u64, store: &RecordStore) -> (coherent: bool)
    ensures
        coherent == marinespecies_coherent(last_id, store.entries()),
        store.entries().dom().finite(),
{
    let listed = store.iterate();
    let ghost keys = listed@.map_values(|entry: (u64, Vec<u8>)| entry.0);
    proof {
        lemma_listed_set_is_finite(keys, store.entries().dom());
    }
    let mut i: usize = 0;
    while i < listed.len()
        invariant
            0 <= i <= listed@.len(),
            keys == listed@.map_values(|entry: (u64, Vec<u8>)| entry.0),
            lists(keys, store.entries().dom()),
            store.entries().dom().finite(),
            forall|j: int|
                0 <= j < listed@.len() ==> store.entries().contains_key(#[trigger] listed@[j].0)
                    && store.entries()[listed@[j].0] == listed@[j].1@,
            forall|j: int|
                0 <= j < i ==> marinespecie_entry_coherent(
                    last_id,
                    #[trigger] listed@[j].0,
                    listed@[j].1@,
                ),
        decreases listed@.len() - i,
    {
        let entry = &listed[i];
        let fits = entry.1.len() <= MAX_RECORD_SIZE && entry.0 <= last_id;
        let decoded = MarineSpecie::decode(entry.1.as_slice());
        let coherent = match decoded {
            Some(record) => fits && record.id == entry.0,
            None => false,
        };
        if !coherent {
            assert(store.entries().contains_key(listed@[i as int].0));
            return false;
        }
        i += 1;
    }
    proof {
        assert forall|id: u64| #[trigger] store.entries().contains_key(id) implies
            marinespecie_entry_coherent(last_id, id, store.entries()[id]) by {
            assert(store.entries().dom().contains(id));
            let at = choose|j: int| 0 <= j < keys.len() && #[trigger] keys[j] == id;
            assert(listed@[at].0 == id);
        }
    }
    true
}

/// The taxonomy stored under `id`, if there is one.
pub fn _get_taxonomy(db: &Database, id: &u64) -> (found: Option<Taxonomy>)
    requires
        db.wf(),
    ensures
        match found {
            Some(taxonomy) => db@.taxonomies.get(*id) == Ok::<TaxonomyView, ErrorView>(taxonomy@),
            None => db@.taxonomies.get(*id) is Err,
        },
{
    match db.taxonomies.get(*id) {
        Some(bytes) => Taxonomy::decode(bytes.as_slice()),
        None => None,
    }
}

/// The marine species stored under `id`, if there is one.
pub fn _get_marinespecie(db: &Database, id: &u64) -> (found: Option<MarineSpecie>)
    requires
        db.wf(),
    ensures
        match found {
            Some(marinespecie) => db@.marinespecies.get(*id) == Ok::<MarineSpecieView, ErrorView>(
                marinespecie@,
            ),
            None => db@.marinespecies.get(*id) is Err,
        },
{
    match db.marinespecies.get(*id) {
        Some(bytes) => MarineSpecie::decode(bytes.as_slice()),
        None => None,
    }
}

/// Stores `taxonomy` under its id, in place of what was stored there. The id
/// must be one that the allocator has given out. Fails with `EncodingError`,
/// and changes nothing, where the record's stored form is longer than
/// `MAX_RECORD_SIZE`.
pub fn do_insert_taxonomy(db: &mut Database, taxonomy: &Taxonomy) -> (stored: Result<(), Error>)
    requires
        old(db).wf(),
        taxonomy.id <= old(db)@.taxonomies.last_id,
    ensures
        final(db).wf(),
        final(db).regions() == old(db).regions(),
        match stored {
            Ok(_) => taxonomy@.bytes().len() <= MAX_RECORD_SIZE && final(db)@ == (DatabaseView {
                taxonomies: TaxonomyCollection {
                    last_id: old(db)@.taxonomies.last_id,
                    records: old(db)@.taxonomies.records.insert(taxonomy.id, taxonomy@),
                },
                marinespecies: old(db)@.marinespecies,
            }),
            Err(error) => taxonomy@.bytes().len() > MAX_RECORD_SIZE && *final(db) == *old(db)
                && error@ == (ErrorView::EncodingError {
                size: taxonomy@.bytes().len() as usize,
                max_size: MAX_RECORD_SIZE,
            }),
        },
{
    let bytes = taxonomy.encode();
    let stored = db.taxonomies.insert(taxonomy.id, bytes);
    proof {
        if stored is Ok {
            lemma_taxonomy_stored(
                old(db).taxonomy_ids.last(),
                old(db).taxonomies.entries(),
                taxonomy@,
            );
        }
    }
    stored
}

/// Stores `marinespecie` under its id, in place of what was stored there.
/// The id must be one that the allocator has given out. Fails with
/// `EncodingError`, and changes nothing, where the record's stored form is
/// longer than `MAX_RECORD_SIZE`.
pub fn do_insert_marinespecie(db: &mut Database, marinespecie: &MarineSpecie) -> (stored: Result<
    (),
    Error,
>)
    requires
        old(db).wf(),
        marinespecie.id <= old(db)@.marinespecies.last_id,
    ensures
        final(db).wf(),
        final(db).regions() == old(db).regions(),
        match stored {
            Ok(_) => marinespecie@.bytes().len() <= MAX_RECORD_SIZE && final(db)@ == (DatabaseView {
                taxonomies: old(db)@.taxonomies,
                marinespecies: MarineSpecieCollection {
                    last_id: old(db)@.marinespecies.last_id,
                    records: old(db)@.marinespecies.records.insert(marinespecie.id, marinespecie@),
                },
            }),
            Err(error) => marinespecie@.bytes().len() > MAX_RECORD_SIZE && *final(db) == *old(db)
                && error@ == (ErrorView::EncodingError {
                size: marinespecie@.bytes().len() as usize,
                max_size: MAX_RECORD_SIZE,
            }),
        },
{
    let bytes = marinespecie.encode();
    let stored = db.marinespecies.insert(marinespecie.id, bytes);
    proof {
        if stored is Ok {
            lemma_marinespecie_stored(
                old(db).marinespecie_ids.last(),
                old(db).marinespecies.entries(),
                marinespecie@,
            );
        }
    }
    stored
}

/// Gives out the next taxonomy id.
pub(crate) fn next_taxonomy_id(db: &mut Database) -> (id: u64)
    requires
        old(db).wf(),
        old(db)@.taxonomies.last_id < u64::MAX,
    ensures
        final(db).wf(),
        final(db).regions() == old(db).regions(),
        id == old(db)@.taxonomies.last_id + 1,
        final(db)@ == (DatabaseView {
            taxonomies: TaxonomyCollection {
                last_id: id,
                records: old(db)@.taxonomies.records,
            },
            marinespecies: old(db)@.marinespecies,
        }),
{
    db.taxonomy_ids.allocate()
}

/// Gives out the next marine species id.
pub(crate) fn next_marinespecie_id(db: &mut Database) -> (id: u64)
    requires
        old(db).wf(),
        old(db)@.marinespecies.last_id < u64::MAX,
    ensures
        final(db).wf(),
        final(db).regions() == old(db).regions(),
        id == old(db)@.marinespecies.last_id + 1,
        final(db)@ == (DatabaseView {
            taxonomies: old(db)@.taxonomies,
            marinespecies: MarineSpecieCollection {
                last_id: id,
                records: old(db)@.marinespecies.records,
            },
        }),
{
    db.marinespecie_ids.allocate()
}

/// Removes the taxonomy stored under `id`, if there is one.
pub(crate) fn remove_taxonomy(db: &mut Database, id: u64)
    requires
        old(db).wf(),
    ensures
        final(db).wf(),
        final(db).regions() == old(db).regions(),
        final(db)@ == (DatabaseView {
            taxonomies: TaxonomyCollection {
                last_id: old(db)@.taxonomies.last_id,
                records: old(db)@.taxonomies.records.remove(id),
            },
            marinespecies: old(db)@.marinespecies,
        }),
{
    db.taxonomies.remove(id);
    assert(db@.taxonomies.records =~= old(db)@.taxonomies.records.remove(id));
}

/// Removes the marine species stored under `id`, if there is one.
pub(crate) fn remove_marinespecie(db: &mut Database, id: u64)
    requires
        old(db).wf(),
    ensures
        final(db).wf(),
        final(db).regions() == old(db).regions(),
        final(db)@ == (DatabaseView {
            taxonomies: old(db)@.taxonomies,
            marinespecies: MarineSpecieCollection {
                last_id: old(db)@.marinespecies.last_id,
                records: old(db)@.marinespecies.records.remove(id),
            },
        }),
{
    db.marinespecies.remove(id);
    assert(db@.marinespecies.records =~= old(db)@.marinespecies.records.remove(id));
}

/// Every taxonomy, by ascending id.
pub(crate) fn list_taxonomies(db: &Database) -> (listed: Vec<Taxonomy>)
    requires
        db.wf(),
    ensures
        taxonomy_views(listed@) == db@.taxonomies.listing(),
        listed@.len() == 0 <==> db@.taxonomies.is_empty(),
{
    let entries = db.taxonomies.iterate();
    let ghost keys = entries@.map_values(|entry: (u64, Vec<u8>)| entry.0);
    let ghost records = db@.taxonomies.records;
    assert(records.dom() =~= db.taxonomies.entries().dom());
    let mut listed: Vec<Taxonomy> = Vec::new();
    let mut i: usize = 0;
    while i < entries.len()
        invariant
            0 <= i <= entries@.len(),
            db.wf(),
            records == db@.taxonomies.records,
            keys == entries@.map_values(|entry: (u64, Vec<u8>)| entry.0),
            forall|j: int|
                0 <= j < entries@.len() ==> db.taxonomies.entries().contains_key(
                    #[trigger] entries@[j].0,
                ) && db.taxonomies.entries()[entries@[j].0] == entries@[j].1@,
            listed@.len() == i,
            forall|j: int| 0 <= j < i ==> (#[trigger] listed@[j])@ == records[keys[j]],
        decreases entries@.len() - i,
    {
        let entry = &entries[i];
        assert(db.taxonomies.entries().contains_key(entries@[i as int].0));
        match Taxonomy::decode(entry.1.as_slice()) {
            Some(record) => {
                listed.push(record);
            },
            None => {
                assert(false);
            },
        }
        i += 1;
    }
    proof {
        assert(taxonomy_views(listed@) =~= db@.taxonomies.listing());
        if listed@.len() > 0 {
            assert(records.contains_key(keys[0]));
        }
        if !db@.taxonomies.is_empty() {
            let id = choose|id: u64| records.contains_key(id);
            assert(records.dom().contains(id));
        }
    }
    listed
}

/// Every marine species, by ascending id.
pub(crate) fn list_marinespecies(db: &Database) -> (listed: Vec<MarineSpecie>)
    requires
        db.wf(),
    ensures
        marinespecie_views(listed@) == db@.marinespecies.listing(),
        listed@.len() == 0 <==> db@.marinespecies.is_empty(),
{
    let entries = db.marinespecies.iterate();
    let ghost keys = entries@.map_values(|entry: (u64, Vec<u8>)| entry.0);
    let ghost records = db@.marinespecies.records;
    assert(records.dom() =~= db.marinespecies.entries().dom());
    let mut listed: Vec<MarineSpecie> = Vec::new();
    let mut i: usize = 0;
    while i < entries.len()
        invariant
            0 <= i <= entries@.len(),
            db.wf(),
            records == db@.marinespecies.records,
            keys == entries@.map_values(|entry: (u64, Vec<u8>)| entry.0),
            forall|j: int|
                0 <= j < entries@.len() ==> db.marinespecies.entries().contains_key(
                    #[trigger] entries@[j].0,
                ) && db.marinespecies.entries()[entries@[j].0] == entries@[j].1@,
            listed@.len() == i,
            forall|j: int| 0 <= j < i ==> (#[trigger] listed@[j])@ == records[keys[j]],
        decreases entries@.len() - i,
    {
        let entry = &entries[i];
        assert(db.marinespecies.entries().contains_key(entries@[i as int].0));
        match MarineSpecie::decode(entry.1.as_slice()) {
            Some(record) => {
                listed.push(record);
            },
            None => {
                assert(false);
            },
        }
        i += 1;
    }
    proof {
        assert(marinespecie_views(listed@) =~= db@.marinespecies.listing());
        if listed@.len() > 0 {
            assert(records.contains_key(keys[0]));
        }
        if !db@.marinespecies.is_empty() {
            let id = choose|id: u64| records.contains_key(id);
            assert(records.dom().contains(id));
        }
    }
    listed
}

} // verus!
