use ic_stable_structures::DefaultMemoryImpl;
use marine_species_database_backend::database::Database;
use marine_species_database_backend::marinespecie::MarineSpecieInput;
use marine_species_database_backend::marinespecie_service::{add_marinespecie, get_marinespecie};
use marine_species_database_backend::taxonomy::TaxonomyInput;
use marine_species_database_backend::taxonomy_service::{add_taxonomy, delete_taxonomy};

fn blue_whale_taxonomy() -> TaxonomyInput {
    TaxonomyInput {
        kingdom: "Animalia".to_string(),
        phylum: "Chordata".to_string(),
        class: "Mammalia".to_string(),
        order: "Cetacea".to_string(),
        family: "Balaenopteridae".to_string(),
        genus: "Balaenoptera".to_string(),
        species: "musculus".to_string(),
    }
}

#[test]
fn deleting_a_taxonomy_leaves_the_species_that_refers_to_it() {
    let mut db = Database::open(DefaultMemoryImpl::default()).unwrap();
    let alice = "alice".to_string();
    let taxonomy = add_taxonomy(&mut db, blue_whale_taxonomy(), &alice, 10).unwrap();
    assert_eq!(taxonomy.id, 1);
    let whale = add_marinespecie(
        &mut db,
        MarineSpecieInput {
            name: "Blue Whale".to_string(),
            habitat: "Ocean".to_string(),
            taxonomy_id: 1,
            conservation_status: "Endangered".to_string(),
        },
        &alice,
        11,
    )
    .unwrap();
    assert_eq!(whale.id, 1);
    assert_eq!(whale.taxonomy_id, 1);
    let deleted = delete_taxonomy(&mut db, 1, &alice).unwrap();
    assert_eq!(deleted, taxonomy);
    let read = get_marinespecie(&db, 1).unwrap();
    assert_eq!(read.taxonomy_id, 1);
    assert_eq!(read, whale);
}
