use ic_stable_structures::DefaultMemoryImpl;
use marine_species_database_backend::database::{
    Database, _get_marinespecie, do_insert_marinespecie,
};
use marine_species_database_backend::error::{Error, FieldViolation};
use marine_species_database_backend::marinespecie::{MarineSpecie, MarineSpecieInput};
use marine_species_database_backend::marinespecie_service::{
    add_marinespecie, delete_marinespecie, get_all_marinespecie, get_marinespecie,
    get_marinespecie_by_conservation_status, select_by_lowered_status, update_marinespecie,
};

fn species(name: &str, status: &str) -> MarineSpecieInput {
    MarineSpecieInput {
        name: name.to_string(),
        habitat: "Ocean".to_string(),
        taxonomy_id: 1,
        conservation_status: status.to_string(),
    }
}

fn new_database() -> Database {
    Database::open(DefaultMemoryImpl::default()).unwrap()
}

fn missing(field: &str) -> FieldViolation {
    FieldViolation { field: field.to_string(), message: "must not be empty".to_string() }
}

#[test]
fn created_marinespecie_is_read_back_with_the_payload_fields() {
    let mut db = new_database();
    let alice = "alice".to_string();
    let created =
        add_marinespecie(&mut db, species("Blue Whale", "Endangered"), &alice, 500).unwrap();
    let expected = MarineSpecie {
        id: 1,
        researcher: "alice".to_string(),
        name: "Blue Whale".to_string(),
        habitat: "Ocean".to_string(),
        taxonomy_id: 1,
        conservation_status: "Endangered".to_string(),
        created_at: 500,
        updated_at: None,
    };
    assert_eq!(created, expected);
    assert_eq!(get_marinespecie(&db, 1), Ok(expected.clone()));
    assert_eq!(_get_marinespecie(&db, &1), Some(expected));
    assert_eq!(db.last_marinespecie_id(), 1);
    assert_eq!(db.last_taxonomy_id(), 0);
}

#[test]
fn marinespecie_may_refer_to_a_taxonomy_that_does_not_exist() {
    let mut db = new_database();
    let alice = "alice".to_string();
    let mut input = species("Ghost Shark", "Vulnerable");
    input.taxonomy_id = 0;
    assert_eq!(add_marinespecie(&mut db, input.clone(), &alice, 1).unwrap().taxonomy_id, 0);
    input.taxonomy_id = u64::MAX;
    assert_eq!(add_marinespecie(&mut db, input, &alice, 2).unwrap().taxonomy_id, u64::MAX);
}

#[test]
fn marinespecie_ids_are_not_reused_after_a_deletion() {
    let mut db = new_database();
    let alice = "alice".to_string();
    let first = add_marinespecie(&mut db, species("Blue Whale", "Endangered"), &alice, 1).unwrap();
    delete_marinespecie(&mut db, first.id, &alice).unwrap();
    let second = add_marinespecie(&mut db, species("Sea Otter", "Endangered"), &alice, 2).unwrap();
    let third = add_marinespecie(&mut db, species("Orca", "Data Deficient"), &alice, 3).unwrap();
    assert_eq!((first.id, second.id, third.id), (1, 2, 3));
}

#[test]
fn reading_a_missing_marinespecie_is_not_found() {
    let db = new_database();
    assert_eq!(get_marinespecie(&db, 3), Err(Error::NotFound { id: Some(3) }));
    assert_eq!(_get_marinespecie(&db, &3), None);
}

#[test]
fn listing_no_marinespecies_is_not_found() {
    let db = new_database();
    assert_eq!(get_all_marinespecie(&db), Err(Error::NotFound { id: None }));
}

#[test]
fn marinespecies_are_listed_by_ascending_id() {
    let mut db = new_database();
    let alice = "alice".to_string();
    let mut created = Vec::new();
    for i in 0..30u64 {
        created.push(add_marinespecie(&mut db, species("Krill", "Least Concern"), &alice, i).unwrap());
    }
    let listed = get_all_marinespecie(&db).unwrap();
    assert_eq!(listed.len(), 30);
    assert_eq!(listed, created);
    assert_eq!(listed[29].id, 30);
}

#[test]
fn filter_by_status_ignores_letter_case() {
    let mut db = new_database();
    let alice = "alice".to_string();
    let whale = add_marinespecie(&mut db, species("Blue Whale", "Endangered"), &alice, 1).unwrap();
    let krill = add_marinespecie(&mut db, species("Krill", "Least Concern"), &alice, 2).unwrap();
    let otter = add_marinespecie(&mut db, species("Sea Otter", "ENDANGERED"), &alice, 3).unwrap();
    let both = Ok(vec![whale, otter]);
    assert_eq!(get_marinespecie_by_conservation_status(&db, "endangered".to_string()), both);
    assert_eq!(get_marinespecie_by_conservation_status(&db, "ENDANGERED".to_string()), both);
    assert_eq!(get_marinespecie_by_conservation_status(&db, "Endangered".to_string()), both);
    assert_eq!(get_marinespecie_by_conservation_status(&db, "eNdAnGeReD".to_string()), both);
    assert_eq!(
        get_marinespecie_by_conservation_status(&db, "least concern".to_string()),
        Ok(vec![krill])
    );
}

#[test]
fn filter_by_status_compares_the_whole_status() {
    let mut db = new_database();
    let alice = "alice".to_string();
    add_marinespecie(&mut db, species("Blue Whale", "Endangered"), &alice, 1).unwrap();
    let none = Err(Error::NotFound { id: None });
    assert_eq!(get_marinespecie_by_conservation_status(&db, "endanger".to_string()), none);
    assert_eq!(get_marinespecie_by_conservation_status(&db, "endangered ".to_string()), none);
    assert_eq!(get_marinespecie_by_conservation_status(&db, String::new()), none);
}

#[test]
fn filter_by_status_on_an_empty_collection_is_not_found() {
    let db = new_database();
    assert_eq!(
        get_marinespecie_by_conservation_status(&db, "Endangered".to_string()),
        Err(Error::NotFound { id: None })
    );
}

#[test]
fn filter_by_status_folds_letters_beyond_ascii() {
    let mut db = new_database();
    let alice = "alice".to_string();
    let created = add_marinespecie(&mut db, species("Vaquita", "GEFÄHRDET"), &alice, 1).unwrap();
    assert_eq!(
        get_marinespecie_by_conservation_status(&db, "gefährdet".to_string()),
        Ok(vec![created])
    );
}

#[test]
fn invalid_marinespecie_payload_lists_every_empty_field() {
    let mut db = new_database();
    let alice = "alice".to_string();
    let refused = add_marinespecie(&mut db, MarineSpecieInput::default(), &alice, 1);
    assert_eq!(
        refused,
        Err(Error::ValidationFailed {
            violations: vec![missing("name"), missing("habitat"), missing("conservation_status")],
        })
    );
    assert_eq!(db.last_marinespecie_id(), 0);
    assert_eq!(get_all_marinespecie(&db), Err(Error::NotFound { id: None }));
}

#[test]
fn owner_updates_a_marinespecie() {
    let mut db = new_database();
    let alice = "alice".to_string();
    add_marinespecie(&mut db, species("Blue Whale", "Endangered"), &alice, 10).unwrap();
    let mut change = species("Blue Whale", "Critically Endangered");
    change.habitat = "Open ocean".to_string();
    change.taxonomy_id = 42;
    let updated = update_marinespecie(&mut db, 1, change, &alice, 25).unwrap();
    let expected = MarineSpecie {
        id: 1,
        researcher: "alice".to_string(),
        name: "Blue Whale".to_string(),
        habitat: "Open ocean".to_string(),
        taxonomy_id: 42,
        conservation_status: "Critically Endangered".to_string(),
        created_at: 10,
        updated_at: Some(25),
    };
    assert_eq!(updated, expected);
    assert_eq!(get_marinespecie(&db, 1), Ok(expected));
}

#[test]
fn stranger_cannot_update_a_marinespecie() {
    let mut db = new_database();
    let alice = "alice".to_string();
    let mallory = "mallory".to_string();
    let created =
        add_marinespecie(&mut db, species("Blue Whale", "Endangered"), &alice, 10).unwrap();
    assert_eq!(
        update_marinespecie(&mut db, 1, species("Blue Whale", "Extinct"), &mallory, 20),
        Err(Error::NotAuthorized { record_id: 1 })
    );
    assert_eq!(get_marinespecie(&db, 1), Ok(created));
}

#[test]
fn marinespecie_update_checks_payload_then_existence_then_owner() {
    let mut db = new_database();
    let alice = "alice".to_string();
    let mallory = "mallory".to_string();
    add_marinespecie(&mut db, species("Blue Whale", "Endangered"), &alice, 10).unwrap();
    assert_eq!(
        update_marinespecie(&mut db, 9, species("", "Extinct"), &mallory, 20),
        Err(Error::ValidationFailed { violations: vec![missing("name")] })
    );
    assert_eq!(
        update_marinespecie(&mut db, 9, species("Dodo", "Extinct"), &mallory, 20),
        Err(Error::NotFound { id: Some(9) })
    );
    assert_eq!(
        update_marinespecie(&mut db, 1, species("Dodo", "Extinct"), &mallory, 20),
        Err(Error::NotAuthorized { record_id: 1 })
    );
}

#[test]
fn owner_deletes_a_marinespecie_and_it_is_gone() {
    let mut db = new_database();
    let alice = "alice".to_string();
    let created =
        add_marinespecie(&mut db, species("Blue Whale", "Endangered"), &alice, 10).unwrap();
    assert_eq!(delete_marinespecie(&mut db, 1, &alice), Ok(created));
    assert_eq!(get_marinespecie(&db, 1), Err(Error::NotFound { id: Some(1) }));
    assert_eq!(delete_marinespecie(&mut db, 1, &alice), Err(Error::NotFound { id: Some(1) }));
}

#[test]
fn stranger_cannot_delete_a_marinespecie() {
    let mut db = new_database();
    let alice = "alice".to_string();
    let mallory = "".to_string();
    let created =
        add_marinespecie(&mut db, species("Blue Whale", "Endangered"), &alice, 10).unwrap();
    assert_eq!(
        delete_marinespecie(&mut db, 1, &mallory),
        Err(Error::NotAuthorized { record_id: 1 })
    );
    assert_eq!(get_marinespecie(&db, 1), Ok(created));
}

#[test]
fn oversized_marinespecie_is_an_encoding_error_and_takes_no_id() {
    let mut db = new_database();
    let alice = "alice".to_string();
    let mut input = species("Blue Whale", "Endangered");
    input.habitat = "é".repeat(600);
    let size = 8 + 4 * 8 + 8 + 8 + 1 + 5 + 10 + 1_200 + 10;
    assert_eq!(
        add_marinespecie(&mut db, input, &alice, 1),
        Err(Error::EncodingError { size, max_size: 1024 })
    );
    assert_eq!(db.last_marinespecie_id(), 0);
}

#[test]
fn do_insert_marinespecie_overwrites_under_the_records_id() {
    let mut db = new_database();
    let alice = "alice".to_string();
    let created =
        add_marinespecie(&mut db, species("Blue Whale", "Endangered"), &alice, 10).unwrap();
    let mut changed = created.clone();
    changed.habitat = "Antarctic".to_string();
    assert_eq!(do_insert_marinespecie(&mut db, &changed), Ok(()));
    assert_eq!(_get_marinespecie(&db, &1), Some(changed));
}

#[test]
fn the_two_collections_count_their_ids_apart() {
    let mut db = new_database();
    let alice = "alice".to_string();
    add_marinespecie(&mut db, species("Blue Whale", "Endangered"), &alice, 1).unwrap();
    add_marinespecie(&mut db, species("Orca", "Data Deficient"), &alice, 2).unwrap();
    assert_eq!(db.last_marinespecie_id(), 2);
    assert_eq!(db.last_taxonomy_id(), 0);
}

fn record(id: u64, status: &str) -> MarineSpecie {
    MarineSpecie {
        id,
        researcher: "alice".to_string(),
        name: "Krill".to_string(),
        habitat: "Ocean".to_string(),
        taxonomy_id: 1,
        conservation_status: status.to_string(),
        created_at: id,
        updated_at: None,
    }
}

#[test]
fn records_are_selected_by_the_lowered_statuses_given() {
    let records = vec![record(1, "Endangered"), record(2, "Safe"), record(3, "ENDANGERED")];
    let lowered =
        vec!["endangered".to_string(), "safe".to_string(), "endangered".to_string()];
    assert_eq!(
        select_by_lowered_status(&records, &lowered, &"endangered".to_string()),
        Ok(vec![record(1, "Endangered"), record(3, "ENDANGERED")])
    );
    assert_eq!(
        select_by_lowered_status(&records, &lowered, &"safe".to_string()),
        Ok(vec![record(2, "Safe")])
    );
    assert_eq!(
        select_by_lowered_status(&records, &lowered, &"Safe".to_string()),
        Err(Error::NotFound { id: None })
    );
    assert_eq!(
        select_by_lowered_status(&Vec::new(), &Vec::new(), &"safe".to_string()),
        Err(Error::NotFound { id: None })
    );
}

#[test]
fn selection_goes_by_the_lowered_status_not_by_the_record() {
    let records = vec![record(1, "Endangered"), record(2, "Safe")];
    let lowered = vec!["x".to_string(), "y".to_string()];
    assert_eq!(
        select_by_lowered_status(&records, &lowered, &"y".to_string()),
        Ok(vec![record(2, "Safe")])
    );
}
