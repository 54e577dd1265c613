use marine_species_database_backend::codec::{read_optional, read_text, read_u64};
use marine_species_database_backend::error::Error;
use marine_species_database_backend::marinespecie::{MarineSpecie, MarineSpecieInput};
use marine_species_database_backend::taxonomy::{Taxonomy, TaxonomyInput};

fn tiny_taxonomy() -> Taxonomy {
    Taxonomy {
        id: 258,
        researcher: "r".to_string(),
        kingdom: "k".to_string(),
        phylum: "p".to_string(),
        class: "c".to_string(),
        order: "o".to_string(),
        family: "f".to_string(),
        genus: "g".to_string(),
        species: "é".to_string(),
        created_at: 1,
        updated_at: Some(3),
    }
}

fn tiny_marinespecie() -> MarineSpecie {
    MarineSpecie {
        id: 1,
        researcher: String::new(),
        name: "n".to_string(),
        habitat: "海".to_string(),
        taxonomy_id: 513,
        conservation_status: "s".to_string(),
        created_at: u64::MAX,
        updated_at: None,
    }
}

fn text(bytes: &[u8]) -> Vec<u8> {
    let mut out = (bytes.len() as u64).to_le_bytes().to_vec();
    out.extend_from_slice(bytes);
    out
}

#[test]
fn taxonomy_is_stored_field_by_field() {
    let mut expected = vec![2, 1, 0, 0, 0, 0, 0, 0];
    for field in ["r", "k", "p", "c", "o", "f", "g"] {
        expected.extend(text(field.as_bytes()));
    }
    expected.extend(text(&[0xc3, 0xa9]));
    expected.extend([1, 0, 0, 0, 0, 0, 0, 0]);
    expected.extend([1, 3, 0, 0, 0, 0, 0, 0, 0]);
    assert_eq!(tiny_taxonomy().encode(), expected);
    assert_eq!(expected.len(), 8 + 7 * 9 + 10 + 8 + 9);
}

#[test]
fn marinespecie_is_stored_field_by_field() {
    let mut expected = vec![1, 0, 0, 0, 0, 0, 0, 0];
    expected.extend(text(b""));
    expected.extend(text(b"n"));
    expected.extend(text("海".as_bytes()));
    expected.extend([1, 2, 0, 0, 0, 0, 0, 0]);
    expected.extend(text(b"s"));
    expected.extend([255; 8]);
    expected.push(0);
    assert_eq!(tiny_marinespecie().encode(), expected);
}

#[test]
fn decoding_gives_back_what_was_encoded() {
    assert_eq!(Taxonomy::decode(&tiny_taxonomy().encode()), Some(tiny_taxonomy()));
    assert_eq!(MarineSpecie::decode(&tiny_marinespecie().encode()), Some(tiny_marinespecie()));
    let mut never_updated = tiny_taxonomy();
    never_updated.updated_at = None;
    never_updated.kingdom = "王国 \u{1F40B} Königreich".to_string();
    assert_eq!(Taxonomy::decode(&never_updated.encode()), Some(never_updated));
}

#[test]
fn truncated_or_extended_stored_form_is_no_record() {
    let bytes = tiny_taxonomy().encode();
    for length in 0..bytes.len() {
        assert_eq!(Taxonomy::decode(&bytes[..length]), None);
    }
    let mut longer = bytes.clone();
    longer.push(0);
    assert_eq!(Taxonomy::decode(&longer), None);
    let bytes = tiny_marinespecie().encode();
    for length in 0..bytes.len() {
        assert_eq!(MarineSpecie::decode(&bytes[..length]), None);
    }
}

#[test]
fn stored_form_with_a_text_that_is_not_utf8_is_no_record() {
    let mut bytes = tiny_taxonomy().encode();
    let position = bytes.iter().position(|byte| *byte == 0xc3).unwrap();
    bytes[position + 1] = 0x28;
    assert_eq!(Taxonomy::decode(&bytes), None);
}

#[test]
fn stored_form_with_an_unknown_option_tag_is_no_record() {
    let mut bytes = tiny_marinespecie().encode();
    let last = bytes.len() - 1;
    bytes[last] = 2;
    assert_eq!(MarineSpecie::decode(&bytes), None);
}

#[test]
fn one_kind_of_record_is_not_read_as_the_other() {
    assert_eq!(MarineSpecie::decode(&tiny_taxonomy().encode()), None);
    assert_eq!(Taxonomy::decode(&tiny_marinespecie().encode()), None);
}

#[test]
fn u64_is_read_little_end_first() {
    let input = [9, 1, 2, 0, 0, 0, 0, 0, 0, 7];
    assert_eq!(read_u64(&input, 1), Some((513, 9)));
    assert_eq!(read_u64(&input, 2), Some((2 + (7 << 56), 10)));
    assert_eq!(read_u64(&input, 3), None);
    assert_eq!(read_u64(&input, 10), None);
}

#[test]
fn optional_u64_is_read_by_its_tag() {
    assert_eq!(read_optional(&[0], 0), Some((None, 1)));
    assert_eq!(read_optional(&[5, 0, 9], 1), Some((None, 2)));
    assert_eq!(read_optional(&[1, 4, 0, 0, 0, 0, 0, 0, 0], 0), Some((Some(4), 9)));
    assert_eq!(read_optional(&[1, 4, 0, 0, 0, 0, 0, 0], 0), None);
    assert_eq!(read_optional(&[2, 4, 0, 0, 0, 0, 0, 0, 0], 0), None);
    assert_eq!(read_optional(&[], 0), None);
}

#[test]
fn text_is_read_by_its_length() {
    let mut input = text("añb".as_bytes());
    input.push(b'!');
    assert_eq!(read_text(&input, 0), Some(("añb".to_string(), 12)));
    assert_eq!(read_text(&text(b""), 0), Some((String::new(), 8)));
    assert_eq!(read_text(&input[..11], 0), None);
    assert_eq!(read_text(&[255, 255, 255, 255, 255, 255, 255, 255, 1], 0), None);
    assert_eq!(read_text(&text(&[0xff]), 0), None);
}

#[test]
fn record_builders_take_the_payload_fields() {
    let input = TaxonomyInput {
        kingdom: "k".to_string(),
        phylum: "p".to_string(),
        class: "c".to_string(),
        order: "o".to_string(),
        family: "f".to_string(),
        genus: "g".to_string(),
        species: "é".to_string(),
    };
    let mut expected = tiny_taxonomy();
    expected.updated_at = None;
    let created = Taxonomy::created(258, &"r".to_string(), input.clone(), 1);
    assert_eq!(created, expected);
    assert_eq!(created.copy(), expected);
    let updated = created.updated(
        TaxonomyInput { kingdom: "K".to_string(), ..input },
        9,
    );
    expected.kingdom = "K".to_string();
    expected.updated_at = Some(9);
    assert_eq!(updated, expected);
    let input = MarineSpecieInput {
        name: "n".to_string(),
        habitat: "海".to_string(),
        taxonomy_id: 513,
        conservation_status: "s".to_string(),
    };
    let created = MarineSpecie::created(1, &String::new(), input.clone(), u64::MAX);
    assert_eq!(created, tiny_marinespecie());
    assert_eq!(created.copy(), tiny_marinespecie());
    let updated = created.updated(MarineSpecieInput { taxonomy_id: 0, ..input }, 2);
    assert_eq!(updated.taxonomy_id, 0);
    assert_eq!(updated.updated_at, Some(2));
    assert_eq!(updated.created_at, u64::MAX);
}

#[test]
fn size_check_measures_the_stored_form() {
    assert_eq!(tiny_taxonomy().check_size(), Ok(()));
    let mut large = tiny_marinespecie();
    large.name = "n".repeat(1_000);
    assert_eq!(
        large.check_size(),
        Err(Error::EncodingError { size: large.encode().len(), max_size: 1024 })
    );
    assert_eq!(large.encode().len(), 8 + 8 + 8 + 1_000 + 8 + 3 + 8 + 8 + 1 + 8 + 1);
}
