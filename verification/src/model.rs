//! What the database is, mathematically: two collections, each an id counter
//! and a map from ids to records, and the operations as functions from a
//! state to the next state and the outcome.
//!
//! The executable operations are specified by these functions.

use crate::authorization::is_owner;
use crate::error::{Error, ErrorView};
use crate::listing::ascending_keys;
use crate::marinespecie::{MarineSpecie, MarineSpecieInputView, MarineSpecieView};
use crate::record_store::MAX_RECORD_SIZE;
use crate::taxonomy::{Taxonomy, TaxonomyInputView, TaxonomyView};
use crate::text::lowercase;
use crate::validation::{marinespecie_violations, taxonomy_violations};
use vstd::prelude::*;

verus! {

/// The view of what an operation returns.
pub open spec fn outcome<T: View>(returned: Result<T, Error>) -> Result<T::V, ErrorView> {
    match returned {
        Ok(value) => Ok(value@),
        Err(error) => Err(error@),
    }
}

/// The views of the taxonomies in a list.
pub open spec fn taxonomy_views(records: Seq<Taxonomy>) -> Seq<TaxonomyView> {
    records.map_values(|record: Taxonomy| record@)
}

/// The views of the marine species in a list.
pub open spec fn marinespecie_views(records: Seq<MarineSpecie>) -> Seq<MarineSpecieView> {
    records.map_values(|record: MarineSpecie| record@)
}

/// The view of what a listing of taxonomies returns.
pub open spec fn taxonomy_list_outcome(returned: Result<Vec<Taxonomy>, Error>) -> Result<
    Seq<TaxonomyView>,
    ErrorView,
> {
    match returned {
        Ok(records) => Ok(taxonomy_views(records@)),
        Err(error) => Err(error@),
    }
}

/// The view of what a listing of marine species returns.
pub open spec fn marinespecie_list_outcome(returned: Result<Vec<MarineSpecie>, Error>) -> Result<
    Seq<MarineSpecieView>,
    ErrorView,
> {
    match returned {
        Ok(records) => Ok(marinespecie_views(records@)),
        Err(error) => Err(error@),
    }
}

/// The taxonomies: the id given out last, and the records by id.
pub struct TaxonomyCollection {
    pub last_id: u64,
    pub records: Map<u64, TaxonomyView>,
}

/// The marine species: the id given out last, and the records by id.
pub struct MarineSpecieCollection {
    pub last_id: u64,
    pub records: Map<u64, MarineSpecieView>,
}

/// The whole database.
pub struct DatabaseView {
    pub taxonomies: TaxonomyCollection,
    pub marinespecies: MarineSpecieCollection,
}

/// Whether a marine species has the conservation status asked for, letter
/// case set aside.
pub open spec fn has_status(record: MarineSpecieView, status: Seq<char>) -> bool {
    lowercase(record.conservation_status) == lowercase(status)
}

/// The test that a filter by conservation status applies to each record.
pub open spec fn status_filter(status: Seq<char>) -> spec_fn(MarineSpecieView) -> bool {
    |record: MarineSpecieView| has_status(record, status)
}

/// The views of the texts in a list.
pub open spec fn text_views(texts: Seq<String>) -> Seq<Seq<char>> {
    texts.map_values(|text: String| text@)
}

/// Of `records`, those whose lowercase status is `wanted`, in their order:
/// `lowered` holds the lowercase status of each record, one for one.
pub open spec fn with_lowered_status(
    records: Seq<MarineSpecieView>,
    lowered: Seq<Seq<char>>,
    wanted: Seq<char>,
) -> Seq<MarineSpecieView>
    decreases records.len(),
{
    if records.len() == 0 || lowered.len() != records.len() {
        Seq::empty()
    } else {
        let earlier = with_lowered_status(records.drop_last(), lowered.drop_last(), wanted);
        if lowered.last() == wanted {
            earlier.push(records.last())
        } else {
            earlier
        }
    }
}

/// Selecting by lowercase statuses is filtering by status, where the
/// lowercase statuses are those of the records and of the status asked for.
pub proof fn lemma_with_lowered_status_is_filter(
    records: Seq<MarineSpecieView>,
    lowered: Seq<Seq<char>>,
    status: Seq<char>,
)
    requires
        lowered.len() == records.len(),
        forall|i: int|
            0 <= i < records.len() ==> lowered[i] == lowercase(
                #[trigger] records[i].conservation_status,
            ),
    ensures
        with_lowered_status(records, lowered, lowercase(status)) == records.filter(
            status_filter(status),
        ),
    decreases records.len(),
{
    reveal(Seq::filter);
    if records.len() > 0 {
        lemma_with_lowered_status_is_filter(records.drop_last(), lowered.drop_last(), status);
        assert(lowered.last() == lowercase(records.last().conservation_status));
    }
}

impl TaxonomyCollection {
    /// There are finitely many records, every record is stored under its own
    /// id, and no id in use is beyond the one given out last.
    pub open spec fn wf(self) -> bool {
        &&& self.records.dom().finite()
        &&& forall|id: u64| #[trigger]
            self.records.contains_key(id) ==> self.records[id].id == id && id <= self.last_id
    }

    pub open spec fn is_empty(self) -> bool {
        forall|id: u64| !self.records.contains_key(id)
    }

    /// All records, by ascending id.
    pub open spec fn listing(self) -> Seq<TaxonomyView> {
        ascending_keys(self.records.dom()).map_values(|id: u64| self.records[id])
    }

    /// ReadOne: the record under `id`.
    pub open spec fn get(self, id: u64) -> Result<TaxonomyView, ErrorView> {
        if self.records.contains_key(id) {
            Ok(self.records[id])
        } else {
            Err(ErrorView::NotFound { id: Some(id) })
        }
    }

    /// ReadAll: every record by ascending id, and an error for an empty
    /// collection.
    pub open spec fn get_all(self) -> Result<Seq<TaxonomyView>, ErrorView> {
        if self.is_empty() {
            Err(ErrorView::NotFound { id: None })
        } else {
            Ok(self.listing())
        }
    }

    /// The record that a creation would store.
    pub open spec fn new_record(
        self,
        input: TaxonomyInputView,
        caller: Seq<char>,
        now: u64,
    ) -> TaxonomyView {
        TaxonomyView::created((self.last_id + 1) as u64, caller, input, now)
    }

    /// Create: validates, then stores the payload under the next id as a
    /// record of the caller's.
    pub open spec fn add(self, input: TaxonomyInputView, caller: Seq<char>, now: u64) -> (
        TaxonomyCollection,
        Result<TaxonomyView, ErrorView>,
    ) {
        let record = self.new_record(input, caller, now);
        if taxonomy_violations(input).len() > 0 {
            (self, Err(ErrorView::ValidationFailed { violations: taxonomy_violations(input) }))
        } else if record.bytes().len() > MAX_RECORD_SIZE {
            (
                self,
                Err(
                    ErrorView::EncodingError {
                        size: record.bytes().len() as usize,
                        max_size: MAX_RECORD_SIZE,
                    },
                ),
            )
        } else {
            (
                TaxonomyCollection {
                    last_id: record.id,
                    records: self.records.insert(record.id, record),
                },
                Ok(record),
            )
        }
    }

    /// Update: validates, looks the record up, checks that the caller owns
    /// it, and then replaces the payload's fields and dates the update.
    pub open spec fn update(
        self,
        id: u64,
        input: TaxonomyInputView,
        caller: Seq<char>,
        now: u64,
    ) -> (TaxonomyCollection, Result<TaxonomyView, ErrorView>) {
        if taxonomy_violations(input).len() > 0 {
            (self, Err(ErrorView::ValidationFailed { violations: taxonomy_violations(input) }))
        } else if !self.records.contains_key(id) {
            (self, Err(ErrorView::NotFound { id: Some(id) }))
        } else if !is_owner(self.records[id].researcher, caller) {
            (self, Err(ErrorView::NotAuthorized { record_id: id }))
        } else {
            let record = self.records[id].updated(input, now);
            if record.bytes().len() > MAX_RECORD_SIZE {
                (
                    self,
                    Err(
                        ErrorView::EncodingError {
                            size: record.bytes().len() as usize,
                            max_size: MAX_RECORD_SIZE,
                        },
                    ),
                )
            } else {
                (
                    TaxonomyCollection {
                        last_id: self.last_id,
                        records: self.records.insert(id, record),
                    },
                    Ok(record),
                )
            }
        }
    }

    /// Delete: looks the record up, checks that the caller owns it, and then
    /// removes it.
    pub open spec fn delete(self, id: u64, caller: Seq<char>) -> (
        TaxonomyCollection,
        Result<TaxonomyView, ErrorView>,
    ) {
        if !self.records.contains_key(id) {
            (self, Err(ErrorView::NotFound { id: Some(id) }))
        } else if !is_owner(self.records[id].researcher, caller) {
            (self, Err(ErrorView::NotAuthorized { record_id: id }))
        } else {
            (
                TaxonomyCollection { last_id: self.last_id, records: self.records.remove(id) },
                Ok(self.records[id]),
            )
        }
    }
}

impl MarineSpecieCollection {
    /// There are finitely many records, every record is stored under its own
    /// id, and no id in use is beyond the one given out last.
    pub open spec fn wf(self) -> bool {
        &&& self.records.dom().finite()
        &&& forall|id: u64| #[trigger]
            self.records.contains_key(id) ==> self.records[id].id == id && id <= self.last_id
    }

    pub open spec fn is_empty(self) -> bool {
        forall|id: u64| !self.records.contains_key(id)
    }

    /// All records, by ascending id.
    pub open spec fn listing(self) -> Seq<MarineSpecieView> {
        ascending_keys(self.records.dom()).map_values(|id: u64| self.records[id])
    }

    /// ReadOne: the record under `id`.
    pub open spec fn get(self, id: u64) -> Result<MarineSpecieView, ErrorView> {
        if self.records.contains_key(id) {
            Ok(self.records[id])
        } else {
            Err(ErrorView::NotFound { id: Some(id) })
        }
    }

    /// ReadAll: every record by ascending id, and an error for an empty
    /// collection.
    pub open spec fn get_all(self) -> Result<Seq<MarineSpecieView>, ErrorView> {
        if self.is_empty() {
            Err(ErrorView::NotFound { id: None })
        } else {
            Ok(self.listing())
        }
    }

    /// The records with the conservation status asked for, by ascending id.
    pub open spec fn with_status(self, status: Seq<char>) -> Seq<MarineSpecieView> {
        self.listing().filter(status_filter(status))
    }

    /// FilterByStatus: the records with the status asked for, and an error
    /// where there is none.
    pub open spec fn get_by_conservation_status(self, status: Seq<char>) -> Result<
        Seq<MarineSpecieView>,
        ErrorView,
    > {
        if self.with_status(status).len() > 0 {
            Ok(self.with_status(status))
        } else {
            Err(ErrorView::NotFound { id: None })
        }
    }

    /// The record that a creation would store.
    pub open spec fn new_record(
        self,
        input: MarineSpecieInputView,
        caller: Seq<char>,
        now: u64,
    ) -> MarineSpecieView {
        MarineSpecieView::created((self.last_id + 1) as u64, caller, input, now)
    }

    /// Create: validates, then stores the payload under the next id as a
    /// record of the caller's.
    pub open spec fn add(self, input: MarineSpecieInputView, caller: Seq<char>, now: u64) -> (
        MarineSpecieCollection,
        Result<MarineSpecieView, ErrorView>,
    ) {
        let record = self.new_record(input, caller, now);
        if marinespecie_violations(input).len() > 0 {
            (self, Err(ErrorView::ValidationFailed { violations: marinespecie_violations(input) }))
        } else if record.bytes().len() > MAX_RECORD_SIZE {
            (
                self,
                Err(
                    ErrorView::EncodingError {
                        size: record.bytes().len() as usize,
                        max_size: MAX_RECORD_SIZE,
                    },
                ),
            )
        } else {
            (
                MarineSpecieCollection {
                    last_id: record.id,
                    records: self.records.insert(record.id, record),
                },
                Ok(record),
            )
        }
    }

    /// Update: validates, looks the record up, checks that the caller owns
    /// it, and then replaces the payload's fields and dates the update.
    pub open spec fn update(
        self,
        id: u64,
        input: MarineSpecieInputView,
        caller: Seq<char>,
        now: u64,
    ) -> (MarineSpecieCollection, Result<MarineSpecieView, ErrorView>) {
        if marinespecie_violations(input).len() > 0 {
            (self, Err(ErrorView::ValidationFailed { violations: marinespecie_violations(input) }))
        } else if !self.records.contains_key(id) {
            (self, Err(ErrorView::NotFound { id: Some(id) }))
        } else if !is_owner(self.records[id].researcher, caller) {
            (self, Err(ErrorView::NotAuthorized { record_id: id }))
        } else {
            let record = self.records[id].updated(input, now);
            if record.bytes().len() > MAX_RECORD_SIZE {
                (
                    self,
                    Err(
                        ErrorView::EncodingError {
                            size: record.bytes().len() as usize,
                            max_size: MAX_RECORD_SIZE,
                        },
                    ),
                )
            } else {
                (
                    MarineSpecieCollection {
                        last_id: self.last_id,
                        records: self.records.insert(id, record),
                    },
                    Ok(record),
                )
            }
        }
    }

    /// Delete: looks the record up, checks that the caller owns it, and then
    /// removes it.
    pub open spec fn delete(self, id: u64, caller: Seq<char>) -> (
        MarineSpecieCollection,
        Result<MarineSpecieView, ErrorView>,
    ) {
        if !self.records.contains_key(id) {
            (self, Err(ErrorView::NotFound { id: Some(id) }))
        } else if !is_owner(self.records[id].researcher, caller) {
            (self, Err(ErrorView::NotAuthorized { record_id: id }))
        } else {
            (
                MarineSpecieCollection { last_id: self.last_id, records: self.records.remove(id) },
                Ok(self.records[id]),
            )
        }
    }
}

impl DatabaseView {
    pub open spec fn wf(self) -> bool {
        self.taxonomies.wf() && self.marinespecies.wf()
    }
}

} // verus!
