//! The errors that the operations return, and their mathematical views.

use vstd::prelude::*;

verus! {

/// One violated constraint of a payload: the field and what is wrong with it.
#[derive(Clone, Debug, PartialEq, Eq)]
pub struct FieldViolation {
    pub field: String,
    pub message: String,
}

pub struct FieldViolationView {
    pub field: Seq<char>,
    pub message: Seq<char>,
}

impl View for FieldViolation {
    type V = FieldViolationView;

    open spec fn view(&self) -> FieldViolationView {
        FieldViolationView { field: self.field@, message: self.message@ }
    }
}

/// Why an operation did not take effect.
#[derive(Clone, Debug, PartialEq, Eq)]
pub enum Error {
    /// No record is stored under `id`; with `None`, a listing or a filter
    /// found no record at all.
    NotFound { id: Option<u64> },
    /// The payload violates the listed constraints, all of them reported.
    ValidationFailed { violations: Vec<FieldViolation> },
    /// The caller does not own the record stored under `record_id`.
    NotAuthorized { record_id: u64 },
    /// The record's serialized form takes `size` bytes, more than the
    /// `max_size` that its collection allows.
    EncodingError { size: usize, max_size: usize },
}

pub enum ErrorView {
    NotFound { id: Option<u64> },
    ValidationFailed { violations: Seq<FieldViolationView> },
    NotAuthorized { record_id: u64 },
    EncodingError { size: usize, max_size: usize },
}

impl View for Error {
    type V = ErrorView;

    open spec fn view(&self) -> ErrorView {
        match *self {
            Error::NotFound { id } => ErrorView::NotFound { id },
            Error::ValidationFailed { violations } => ErrorView::ValidationFailed {
                violations: violations@.map_values(|v: FieldViolation| v@),
            },
            Error::NotAuthorized { record_id } => ErrorView::NotAuthorized { record_id },
            Error::EncodingError { size, max_size } => ErrorView::EncodingError { size, max_size },
        }
    }
}

} // verus!
