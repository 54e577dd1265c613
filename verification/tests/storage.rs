use ic_stable_structures::DefaultMemoryImpl;
use marine_species_database_backend::database::{
    Database, MARINESPECIE_ID_REGION, MARINESPECIE_REGION, TAXONOMY_ID_REGION, TAXONOMY_REGION,
};
use marine_species_database_backend::error::Error;
use marine_species_database_backend::id_allocator::IdAllocator;
use marine_species_database_backend::marinespecie::{MarineSpecie, MarineSpecieInput};
use marine_species_database_backend::marinespecie_service::{add_marinespecie, get_marinespecie};
use marine_species_database_backend::record_store::{RecordStore, MAX_RECORD_SIZE};
use marine_species_database_backend::region_manager::{is_unused, RegionManager, RESERVED_REGION};
use marine_species_database_backend::taxonomy::{Taxonomy, TaxonomyInput};
use marine_species_database_backend::taxonomy_service::{
    add_taxonomy, delete_taxonomy, get_all_taxonomy, get_taxonomy,
};

fn taxonomy(id: u64) -> Taxonomy {
    Taxonomy {
        id,
        researcher: "alice".to_string(),
        kingdom: "Animalia".to_string(),
        phylum: "Chordata".to_string(),
        class: "Mammalia".to_string(),
        order: "Carnivora".to_string(),
        family: "Mustelidae".to_string(),
        genus: "Enhydra".to_string(),
        species: "lutris".to_string(),
        created_at: 77,
        updated_at: Some(78),
    }
}

fn otter_input() -> TaxonomyInput {
    TaxonomyInput {
        kingdom: "Animalia".to_string(),
        phylum: "Chordata".to_string(),
        class: "Mammalia".to_string(),
        order: "Carnivora".to_string(),
        family: "Mustelidae".to_string(),
        genus: "Enhydra".to_string(),
        species: "lutris".to_string(),
    }
}

fn marinespecie(id: u64) -> MarineSpecie {
    MarineSpecie {
        id,
        researcher: "alice".to_string(),
        name: "Sea Otter".to_string(),
        habitat: "Kelp forest".to_string(),
        taxonomy_id: 1,
        conservation_status: "Endangered".to_string(),
        created_at: 5,
        updated_at: None,
    }
}

#[test]
fn region_is_handed_out_once() {
    let mut regions = RegionManager::init(DefaultMemoryImpl::default());
    assert!(!regions.is_claimed(0));
    assert!(regions.claim(0).is_some());
    assert!(regions.is_claimed(0));
    assert!(regions.claim(0).is_none());
    assert!(regions.claim(1).is_some());
    assert!(regions.claim(254).is_some());
    assert!(regions.claim(1).is_none());
    assert!(regions.is_claimed(254));
    assert!(!regions.is_claimed(2));
}

#[test]
fn reserved_region_is_never_handed_out() {
    let mut regions = RegionManager::init(DefaultMemoryImpl::default());
    assert_eq!(RESERVED_REGION, 255);
    assert!(regions.claim(RESERVED_REGION).is_none());
    assert!(!regions.is_claimed(RESERVED_REGION));
}

#[test]
fn database_regions_are_four_different_ones() {
    let mut used = vec![TAXONOMY_ID_REGION, MARINESPECIE_ID_REGION, TAXONOMY_REGION, MARINESPECIE_REGION];
    assert_eq!(used, vec![0, 1, 2, 3]);
    used.dedup();
    assert_eq!(used.len(), 4);
}

#[test]
fn allocator_starts_at_zero_and_counts_up() {
    let mut regions = RegionManager::init(DefaultMemoryImpl::default());
    let mut ids = IdAllocator::init(regions.claim(0).unwrap());
    assert_eq!(ids.current(), 0);
    assert_eq!(ids.allocate(), 1);
    assert_eq!(ids.current(), 1);
    assert_eq!(ids.allocate(), 2);
    assert_eq!(ids.allocate(), 3);
    assert_eq!(ids.current(), 3);
}

#[test]
fn allocators_in_different_regions_count_apart() {
    let mut regions = RegionManager::init(DefaultMemoryImpl::default());
    let mut first = IdAllocator::init(regions.claim(0).unwrap());
    let mut second = IdAllocator::init(regions.claim(1).unwrap());
    assert_eq!(first.allocate(), 1);
    assert_eq!(first.allocate(), 2);
    assert_eq!(second.allocate(), 1);
    assert_eq!(first.current(), 2);
    assert_eq!(second.current(), 1);
}

#[test]
fn allocator_goes_on_where_it_stopped_when_its_memory_is_opened_again() {
    let memory = DefaultMemoryImpl::default();
    {
        let mut regions = RegionManager::init(memory.clone());
        let mut ids = IdAllocator::init(regions.claim(0).unwrap());
        assert_eq!(ids.allocate(), 1);
        assert_eq!(ids.allocate(), 2);
    }
    let mut regions = RegionManager::init(memory);
    let mut ids = IdAllocator::init(regions.claim(0).unwrap());
    assert_eq!(ids.current(), 2);
    assert_eq!(ids.allocate(), 3);
}

#[test]
fn store_gets_what_was_inserted_and_nothing_else() {
    let mut regions = RegionManager::init(DefaultMemoryImpl::default());
    let mut store = RecordStore::init(regions.claim(2).unwrap());
    assert_eq!(store.get(1), None);
    assert_eq!(store.insert(1, vec![10, 11]), Ok(()));
    assert_eq!(store.insert(2, vec![]), Ok(()));
    assert_eq!(store.get(1), Some(vec![10, 11]));
    assert_eq!(store.get(2), Some(vec![]));
    assert_eq!(store.get(3), None);
}

#[test]
fn store_insert_overwrites_and_is_idempotent() {
    let mut regions = RegionManager::init(DefaultMemoryImpl::default());
    let mut store = RecordStore::init(regions.claim(2).unwrap());
    store.insert(1, vec![1]).unwrap();
    store.insert(1, vec![2, 2]).unwrap();
    assert_eq!(store.iterate(), vec![(1, vec![2, 2])]);
    store.insert(1, vec![2, 2]).unwrap();
    assert_eq!(store.iterate(), vec![(1, vec![2, 2])]);
}

#[test]
fn store_remove_returns_the_entry_once() {
    let mut regions = RegionManager::init(DefaultMemoryImpl::default());
    let mut store = RecordStore::init(regions.claim(2).unwrap());
    store.insert(4, vec![4, 4]).unwrap();
    store.insert(5, vec![5]).unwrap();
    assert_eq!(store.remove(4), Some(vec![4, 4]));
    assert_eq!(store.remove(4), None);
    assert_eq!(store.get(4), None);
    assert_eq!(store.iterate(), vec![(5, vec![5])]);
}

#[test]
fn store_iterates_by_ascending_key_and_can_be_iterated_again() {
    let mut regions = RegionManager::init(DefaultMemoryImpl::default());
    let mut store = RecordStore::init(regions.claim(2).unwrap());
    assert_eq!(store.iterate(), vec![]);
    for key in [300u64, 2, u64::MAX, 256, 0, 1, 65_536, 255] {
        store.insert(key, key.to_le_bytes().to_vec()).unwrap();
    }
    let keys: Vec<u64> = store.iterate().into_iter().map(|entry| entry.0).collect();
    assert_eq!(keys, vec![0, 1, 2, 255, 256, 300, 65_536, u64::MAX]);
    let again = store.iterate();
    assert_eq!(again.len(), 8);
    assert_eq!(again[3], (255, 255u64.to_le_bytes().to_vec()));
}

#[test]
fn store_refuses_a_value_beyond_the_size_limit() {
    let mut regions = RegionManager::init(DefaultMemoryImpl::default());
    let mut store = RecordStore::init(regions.claim(2).unwrap());
    assert_eq!(store.insert(1, vec![7; MAX_RECORD_SIZE]), Ok(()));
    assert_eq!(
        store.insert(2, vec![7; MAX_RECORD_SIZE + 1]),
        Err(Error::EncodingError { size: 1025, max_size: 1024 })
    );
    assert_eq!(
        store.insert(1, vec![7; 5_000]),
        Err(Error::EncodingError { size: 5_000, max_size: 1024 })
    );
    assert_eq!(store.get(2), None);
    assert_eq!(store.get(1), Some(vec![7; MAX_RECORD_SIZE]));
}

#[test]
fn stores_in_different_regions_do_not_see_each_other() {
    let mut regions = RegionManager::init(DefaultMemoryImpl::default());
    let mut first = RecordStore::init(regions.claim(2).unwrap());
    let mut second = RecordStore::init(regions.claim(3).unwrap());
    first.insert(1, vec![1]).unwrap();
    second.insert(1, vec![2]).unwrap();
    second.insert(9, vec![9]).unwrap();
    assert_eq!(first.get(1), Some(vec![1]));
    assert_eq!(first.get(9), None);
    assert_eq!(second.get(1), Some(vec![2]));
}

#[test]
fn new_memory_opens_as_an_empty_database() {
    let db = Database::open(DefaultMemoryImpl::default()).unwrap();
    assert_eq!(db.last_taxonomy_id(), 0);
    assert_eq!(db.last_marinespecie_id(), 0);
    assert_eq!(get_all_taxonomy(&db), Err(Error::NotFound { id: None }));
}

#[test]
fn database_is_found_again_when_its_memory_is_opened_again() {
    let memory = DefaultMemoryImpl::default();
    let alice = "alice".to_string();
    let (first, third, otter) = {
        let mut db = Database::open(memory.clone()).unwrap();
        let first = add_taxonomy(&mut db, otter_input(), &alice, 1).unwrap();
        let second = add_taxonomy(&mut db, otter_input(), &alice, 2).unwrap();
        let third = add_taxonomy(&mut db, otter_input(), &alice, 3).unwrap();
        delete_taxonomy(&mut db, second.id, &alice).unwrap();
        delete_taxonomy(&mut db, third.id, &alice).unwrap();
        let third = add_taxonomy(&mut db, otter_input(), &alice, 4).unwrap();
        let otter = add_marinespecie(
            &mut db,
            MarineSpecieInput {
                name: "Sea Otter".to_string(),
                habitat: "Kelp forest".to_string(),
                taxonomy_id: first.id,
                conservation_status: "Endangered".to_string(),
            },
            &alice,
            5,
        )
        .unwrap();
        (first, third, otter)
    };
    let mut db = Database::open(memory).unwrap();
    assert_eq!(get_all_taxonomy(&db), Ok(vec![first, third]));
    assert_eq!(get_marinespecie(&db, 1), Ok(otter));
    assert_eq!(db.last_taxonomy_id(), 4);
    assert_eq!(add_taxonomy(&mut db, otter_input(), &alice, 6).unwrap().id, 5);
    assert_eq!(get_taxonomy(&db, 3), Err(Error::NotFound { id: Some(3) }));
}

fn parts(memory: DefaultMemoryImpl) -> (IdAllocator, IdAllocator, RecordStore, RecordStore) {
    let mut regions = RegionManager::init(memory);
    let taxonomy_ids = IdAllocator::init(regions.claim(TAXONOMY_ID_REGION).unwrap());
    let marinespecie_ids = IdAllocator::init(regions.claim(MARINESPECIE_ID_REGION).unwrap());
    let taxonomies = RecordStore::init(regions.claim(TAXONOMY_REGION).unwrap());
    let marinespecies = RecordStore::init(regions.claim(MARINESPECIE_REGION).unwrap());
    (taxonomy_ids, marinespecie_ids, taxonomies, marinespecies)
}

#[test]
fn parts_that_fit_together_assemble() {
    let (mut taxonomy_ids, mut marinespecie_ids, mut taxonomies, mut marinespecies) =
        parts(DefaultMemoryImpl::default());
    taxonomy_ids.allocate();
    taxonomy_ids.allocate();
    marinespecie_ids.allocate();
    taxonomies.insert(2, taxonomy(2).encode()).unwrap();
    marinespecies.insert(1, marinespecie(1).encode()).unwrap();
    let db = Database::assemble(taxonomy_ids, marinespecie_ids, taxonomies, marinespecies).unwrap();
    assert_eq!(get_taxonomy(&db, 2), Ok(taxonomy(2)));
    assert_eq!(get_marinespecie(&db, 1), Ok(marinespecie(1)));
    assert_eq!(db.last_taxonomy_id(), 2);
}

#[test]
fn stored_form_that_is_no_record_does_not_assemble() {
    let (mut taxonomy_ids, marinespecie_ids, mut taxonomies, marinespecies) =
        parts(DefaultMemoryImpl::default());
    taxonomy_ids.allocate();
    taxonomies.insert(1, vec![1, 2, 3]).unwrap();
    assert!(Database::assemble(taxonomy_ids, marinespecie_ids, taxonomies, marinespecies).is_none());
}

#[test]
fn record_under_another_id_does_not_assemble() {
    let (mut taxonomy_ids, marinespecie_ids, mut taxonomies, marinespecies) =
        parts(DefaultMemoryImpl::default());
    taxonomy_ids.allocate();
    taxonomy_ids.allocate();
    taxonomies.insert(1, taxonomy(2).encode()).unwrap();
    assert!(Database::assemble(taxonomy_ids, marinespecie_ids, taxonomies, marinespecies).is_none());
}

#[test]
fn record_with_an_id_that_was_never_given_out_does_not_assemble() {
    let (mut taxonomy_ids, marinespecie_ids, mut taxonomies, marinespecies) =
        parts(DefaultMemoryImpl::default());
    taxonomy_ids.allocate();
    taxonomies.insert(1, taxonomy(1).encode()).unwrap();
    taxonomies.insert(2, taxonomy(2).encode()).unwrap();
    assert!(Database::assemble(taxonomy_ids, marinespecie_ids, taxonomies, marinespecies).is_none());
}

#[test]
fn marinespecie_store_is_checked_like_the_taxonomy_store() {
    let (taxonomy_ids, mut marinespecie_ids, taxonomies, mut marinespecies) =
        parts(DefaultMemoryImpl::default());
    marinespecie_ids.allocate();
    marinespecies.insert(1, taxonomy(1).encode()).unwrap();
    assert!(Database::assemble(taxonomy_ids, marinespecie_ids, taxonomies, marinespecies).is_none());
}

#[test]
fn memory_with_a_damaged_store_does_not_open() {
    let memory = DefaultMemoryImpl::default();
    {
        let (mut taxonomy_ids, _, mut taxonomies, _) = parts(memory.clone());
        taxonomy_ids.allocate();
        taxonomies.insert(1, vec![0; 40]).unwrap();
    }
    assert!(Database::open(memory).is_none());
}

#[test]
fn region_is_unused_until_a_structure_was_opened_on_it() {
    let memory = DefaultMemoryImpl::default();
    {
        let mut regions = RegionManager::init(memory.clone());
        let counter_region = regions.claim(0).unwrap();
        let store_region = regions.claim(2).unwrap();
        assert!(is_unused(&counter_region));
        assert!(is_unused(&store_region));
        let ids = IdAllocator::init(counter_region);
        assert_eq!(ids.current(), 0);
        let store = RecordStore::init(store_region);
        assert_eq!(store.iterate(), vec![]);
        assert!(is_unused(&regions.claim(1).unwrap()));
    }
    let mut regions = RegionManager::init(memory);
    assert!(!is_unused(&regions.claim(0).unwrap()));
    assert!(!is_unused(&regions.claim(2).unwrap()));
    assert!(is_unused(&regions.claim(3).unwrap()));
}

#[test]
fn database_is_fresh_until_an_id_is_given_out() {
    let memory = DefaultMemoryImpl::default();
    let alice = "alice".to_string();
    {
        let mut db = Database::open(memory.clone()).unwrap();
        assert!(db.is_fresh());
        let mut invalid = otter_input();
        invalid.genus.clear();
        assert!(add_taxonomy(&mut db, invalid, &alice, 1).is_err());
        assert!(db.is_fresh());
        add_taxonomy(&mut db, otter_input(), &alice, 2).unwrap();
        assert!(!db.is_fresh());
        delete_taxonomy(&mut db, 1, &alice).unwrap();
        assert!(!db.is_fresh());
    }
    assert!(!Database::open(memory).unwrap().is_fresh());
}

#[test]
fn database_with_a_marinespecie_only_is_not_fresh() {
    let mut db = Database::open(DefaultMemoryImpl::default()).unwrap();
    add_marinespecie(
        &mut db,
        MarineSpecieInput {
            name: "Sea Otter".to_string(),
            habitat: "Kelp forest".to_string(),
            taxonomy_id: 1,
            conservation_status: "Endangered".to_string(),
        },
        &"alice".to_string(),
        5,
    )
    .unwrap();
    assert!(!db.is_fresh());
}

#[test]
fn assembled_database_with_a_record_under_id_zero_is_not_fresh() {
    let (taxonomy_ids, marinespecie_ids, mut taxonomies, marinespecies) =
        parts(DefaultMemoryImpl::default());
    taxonomies.insert(0, taxonomy(0).encode()).unwrap();
    let db = Database::assemble(taxonomy_ids, marinespecie_ids, taxonomies, marinespecies).unwrap();
    assert_eq!(db.last_taxonomy_id(), 0);
    assert!(!db.is_fresh());
}
