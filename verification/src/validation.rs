//! The constraints on payloads, and the check that reports every violated one.

use crate::error::{Error, ErrorView, FieldViolation, FieldViolationView};
use crate::marinespecie::{MarineSpecieInput, MarineSpecieInputView};
use crate::taxonomy::{TaxonomyInput, TaxonomyInputView};
use crate::text::trimmed;
use validator::{ValidateLength, ValidateRange};
use vstd::prelude::*;

verus! {

/// `ValidateLength::validate_length` of the validator crate on a string, with
/// a minimum and neither maximum nor exact length: whether the string has at
/// least `min` characters.
#[verifier::external_body]
fn length_at_least(value: &str, min: u64) -> (ok: bool)
    ensures
        ok == (value@.len() >= min),
{
    value.validate_length(Some(min), None, None)
}

/// `ValidateRange::validate_range` of the validator crate on a `u64`, with an
/// inclusive minimum and no other bound: whether `value` is at least `min`.
#[verifier::external_body]
fn range_at_least(value: u64, min: u64) -> (ok: bool)
    ensures
        ok == (value >= min),
{
    value.validate_range(Some(min), None, None, None)
}

/// What is reported of a required text that is empty once trimmed.
pub open spec fn empty_message() -> Seq<char> {
    "must not be empty"@
}

/// What is reported of a number below its minimum.
pub open spec fn negative_message() -> Seq<char> {
    "must not be negative"@
}

/// A text is blank when nothing is left of it once it is trimmed.
pub open spec fn is_blank(value: Seq<char>) -> bool {
    trimmed(value).len() < 1
}

/// The violations of a required text field: one if it is blank, else none.
pub open spec fn required(field: Seq<char>, value: Seq<char>) -> Seq<FieldViolationView> {
    if is_blank(value) {
        seq![FieldViolationView { field, message: empty_message() }]
    } else {
        Seq::empty()
    }
}

/// The violations of a reference to another record: one if it is below
/// zero, which no `u64` is.
pub open spec fn non_negative(field: Seq<char>, value: u64) -> Seq<FieldViolationView> {
    if value >= 0 {
        Seq::empty()
    } else {
        seq![FieldViolationView { field, message: negative_message() }]
    }
}

/// Every violated constraint of a taxonomy payload, in the order of its fields.
pub open spec fn taxonomy_violations(input: TaxonomyInputView) -> Seq<FieldViolationView> {
    required("kingdom"@, input.kingdom) + required("phylum"@, input.phylum) + required(
        "class"@,
        input.class,
    ) + required("order"@, input.order) + required("family"@, input.family) + required(
        "genus"@,
        input.genus,
    ) + required("species"@, input.species)
}

/// Every violated constraint of a marine species payload, in the order of its
/// fields.
pub open spec fn marinespecie_violations(input: MarineSpecieInputView) -> Seq<FieldViolationView> {
    required("name"@, input.name) + required("habitat"@, input.habitat) + non_negative(
        "taxonomy_id"@,
        input.taxonomy_id,
    ) + required("conservation_status"@, input.conservation_status)
}

/// The views of the violations collected so far.
pub open spec fn violation_views(violations: Seq<FieldViolation>) -> Seq<FieldViolationView> {
    violations.map_values(|v: FieldViolation| v@)
}

/// What is to be reported of a required field whose text, once trimmed,
/// is `trimmed`: the violation if nothing is left of the text, else nothing.
pub fn required_violation(field: &str, trimmed: &str) -> (violation: Option<FieldViolation>)
    ensures
        match violation {
            Some(found) => trimmed@.len() < 1 && found@ == (FieldViolationView {
                field: field@,
                message: empty_message(),
            }),
            None => trimmed@.len() >= 1,
        },
{
    if length_at_least(trimmed, 1) {
        None
    } else {
        Some(FieldViolation { field: field.to_owned(), message: "must not be empty".to_owned() })
    }
}

/// Appends to `violations` what `required` finds of `value`.
fn check_required(violations: &mut Vec<FieldViolation>, field: &str, value: &String)
    ensures
        violation_views(final(violations)@) == violation_views(old(violations)@) + required(
            field@,
            value@,
        ),
{
    match required_violation(field, value.as_str().trim()) {
        Some(violation) => {
            violations.push(violation);
        },
        None => {},
    }
    assert(violation_views(violations@) =~= violation_views(old(violations)@) + required(
        field@,
        value@,
    ));
}

/// Appends to `violations` what `non_negative` finds of `value`.
fn check_non_negative(violations: &mut Vec<FieldViolation>, field: &str, value: u64)
    ensures
        violation_views(final(violations)@) == violation_views(old(violations)@) + non_negative(
            field@,
            value,
        ),
{
    if !range_at_least(value, 0) {
        violations.push(
            FieldViolation { field: field.to_owned(), message: "must not be negative".to_owned() },
        );
    }
    assert(violation_views(violations@) =~= violation_views(old(violations)@) + non_negative(
        field@,
        value,
    ));
}

/// Checks a taxonomy payload against all of its constraints. Fails with
/// `ValidationFailed`, listing every violation, unless there is none.
pub fn validate_taxonomy(input: &TaxonomyInput) -> (checked: Result<(), Error>)
    ensures
        match checked {
            Ok(_) => taxonomy_violations(input@).len() == 0,
            Err(error) => taxonomy_violations(input@).len() > 0 && error@
                == (ErrorView::ValidationFailed { violations: taxonomy_violations(input@) }),
        },
{
    let mut violations: Vec<FieldViolation> = Vec::new();
    check_required(&mut violations, "kingdom", &input.kingdom);
    check_required(&mut violations, "phylum", &input.phylum);
    check_required(&mut violations, "class", &input.class);
    check_required(&mut violations, "order", &input.order);
    check_required(&mut violations, "family", &input.family);
    check_required(&mut violations, "genus", &input.genus);
    check_required(&mut violations, "species", &input.species);
    if violations.len() == 0 {
        Ok(())
    } else {
        Err(Error::ValidationFailed { violations })
    }
}

/// Checks a marine species payload against all of its constraints. Fails
/// with `ValidationFailed`, listing every violation, unless there is none.
pub fn validate_marinespecie(input: &MarineSpecieInput) -> (checked: Result<(), Error>)
    ensures
        match checked {
            Ok(_) => marinespecie_violations(input@).len() == 0,
            Err(error) => marinespecie_violations(input@).len() > 0 && error@
                == (ErrorView::ValidationFailed { violations: marinespecie_violations(input@) }),
        },
{
    let mut violations: Vec<FieldViolation> = Vec::new();
    check_required(&mut violations, "name", &input.name);
    check_required(&mut violations, "habitat", &input.habitat);
    check_non_negative(&mut violations, "taxonomy_id", input.taxonomy_id);
    check_required(&mut violations, "conservation_status", &input.conservation_status);
    if violations.len() == 0 {
        Ok(())
    } else {
        Err(Error::ValidationFailed { violations })
    }
}

} // verus!
