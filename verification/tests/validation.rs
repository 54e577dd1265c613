use marine_species_database_backend::authorization::authorize;
use marine_species_database_backend::error::{Error, FieldViolation};
use marine_species_database_backend::marinespecie::MarineSpecieInput;
use marine_species_database_backend::taxonomy::TaxonomyInput;
use marine_species_database_backend::validation::{
    required_violation, validate_marinespecie, validate_taxonomy,
};

fn filled() -> TaxonomyInput {
    TaxonomyInput {
        kingdom: "a".to_string(),
        phylum: "b".to_string(),
        class: "c".to_string(),
        order: "d".to_string(),
        family: "e".to_string(),
        genus: "f".to_string(),
        species: "g".to_string(),
    }
}

fn blank(field: &str) -> FieldViolation {
    FieldViolation { field: field.to_string(), message: "must not be empty".to_string() }
}

#[test]
fn payload_with_one_character_in_each_field_is_valid() {
    assert_eq!(validate_taxonomy(&filled()), Ok(()));
}

#[test]
fn each_empty_taxonomy_field_is_reported_under_its_name() {
    let names = ["kingdom", "phylum", "class", "order", "family", "genus", "species"];
    for (position, name) in names.iter().enumerate() {
        let mut input = filled();
        let field = match position {
            0 => &mut input.kingdom,
            1 => &mut input.phylum,
            2 => &mut input.class,
            3 => &mut input.order,
            4 => &mut input.family,
            5 => &mut input.genus,
            _ => &mut input.species,
        };
        field.clear();
        assert_eq!(
            validate_taxonomy(&input),
            Err(Error::ValidationFailed { violations: vec![blank(name)] })
        );
    }
}

#[test]
fn first_and_last_empty_fields_are_both_reported() {
    let mut input = filled();
    input.kingdom.clear();
    input.species.clear();
    assert_eq!(
        validate_taxonomy(&input),
        Err(Error::ValidationFailed { violations: vec![blank("kingdom"), blank("species")] })
    );
}

#[test]
fn field_of_white_space_only_is_blank() {
    for text in [" ", "\t", "\n", "\r\n", " \t \n ", "\u{a0}", "\u{2003}\u{3000}"] {
        let mut input = filled();
        input.class = text.to_string();
        assert_eq!(
            validate_taxonomy(&input),
            Err(Error::ValidationFailed { violations: vec![blank("class")] })
        );
    }
}

#[test]
fn field_with_one_visible_character_among_white_space_is_not_blank() {
    for text in [" x", "x ", " x ", "\t.\n", "\u{200b}", "é", "  多  "] {
        let mut input = filled();
        input.class = text.to_string();
        assert_eq!(validate_taxonomy(&input), Ok(()));
    }
}

#[test]
fn marinespecie_payload_is_checked_field_by_field() {
    let valid = MarineSpecieInput {
        name: "Orca".to_string(),
        habitat: "Ocean".to_string(),
        taxonomy_id: 0,
        conservation_status: "Data Deficient".to_string(),
    };
    assert_eq!(validate_marinespecie(&valid), Ok(()));
    let mut input = valid.clone();
    input.habitat = "   ".to_string();
    assert_eq!(
        validate_marinespecie(&input),
        Err(Error::ValidationFailed { violations: vec![blank("habitat")] })
    );
    input.name.clear();
    input.conservation_status.clear();
    assert_eq!(
        validate_marinespecie(&input),
        Err(Error::ValidationFailed {
            violations: vec![blank("name"), blank("habitat"), blank("conservation_status")],
        })
    );
}

#[test]
fn every_taxonomy_reference_is_non_negative() {
    for taxonomy_id in [0, 1, 255, u64::MAX] {
        let input = MarineSpecieInput {
            name: "Orca".to_string(),
            habitat: "Ocean".to_string(),
            taxonomy_id,
            conservation_status: "Data Deficient".to_string(),
        };
        assert_eq!(validate_marinespecie(&input), Ok(()));
    }
}

#[test]
fn only_the_owner_is_authorized() {
    let owner = "2vxsx-fae".to_string();
    assert_eq!(authorize(&owner, &"2vxsx-fae".to_string(), 4), Ok(()));
    assert_eq!(
        authorize(&owner, &"2VXSX-FAE".to_string(), 4),
        Err(Error::NotAuthorized { record_id: 4 })
    );
    assert_eq!(
        authorize(&owner, &"2vxsx-fae ".to_string(), 9),
        Err(Error::NotAuthorized { record_id: 9 })
    );
    assert_eq!(authorize(&owner, &String::new(), 0), Err(Error::NotAuthorized { record_id: 0 }));
}

#[test]
fn each_white_space_character_alone_makes_a_blank_field() {
    let white_space = [
        0x0009, 0x000A, 0x000B, 0x000C, 0x000D, 0x0020, 0x0085, 0x00A0, 0x1680, 0x2000, 0x2001,
        0x2002, 0x2003, 0x2004, 0x2005, 0x2006, 0x2007, 0x2008, 0x2009, 0x200A, 0x2028, 0x2029,
        0x202F, 0x205F, 0x3000,
    ];
    assert_eq!(white_space.len(), 25);
    for code in white_space {
        let mut input = filled();
        input.genus = char::from_u32(code).unwrap().to_string();
        assert_eq!(
            validate_taxonomy(&input),
            Err(Error::ValidationFailed { violations: vec![blank("genus")] })
        );
    }
}

#[test]
fn characters_next_to_the_white_space_ranges_do_not_make_a_blank_field() {
    let others = [
        0x0000, 0x0008, 0x000E, 0x001C, 0x001F, 0x0021, 0x0084, 0x0086, 0x009F, 0x00A1, 0x167F,
        0x1681, 0x180E, 0x1FFF, 0x200B, 0x200C, 0x2027, 0x202A, 0x202E, 0x2030, 0x205E, 0x2060,
        0x2FFF, 0x3001, 0xFEFF,
    ];
    for code in others {
        let mut input = filled();
        input.genus = char::from_u32(code).unwrap().to_string();
        assert_eq!(validate_taxonomy(&input), Ok(()));
    }
}

#[test]
fn required_field_is_reported_when_nothing_is_left_of_it() {
    assert_eq!(required_violation("genus", ""), Some(blank("genus")));
    assert_eq!(required_violation("genus", "x"), None);
    assert_eq!(required_violation("name", " "), None);
    assert_eq!(required_violation("name", "é"), None);
}
