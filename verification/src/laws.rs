//! What holds of the operations, whatever the state and the arguments.
//!
//! The laws speak of the collections of `model`, by which the executable
//! operations are specified. Where a law needs `last_id` to be below
//! `u64::MAX`, that is the room that a creation needs to give out an id.

use crate::authorization::is_owner;
use crate::database::{
    MARINESPECIE_ID_REGION, MARINESPECIE_REGION, TAXONOMY_ID_REGION, TAXONOMY_REGION,
};
use crate::error::{ErrorView, FieldViolationView};
use crate::listing::{ascending_keys, lemma_finite_set_is_listed};
use crate::marinespecie::{MarineSpecieInputView, MarineSpecieView};
use crate::model::{status_filter, MarineSpecieCollection, TaxonomyCollection};
use crate::record_store::MAX_RECORD_SIZE;
use crate::taxonomy::{TaxonomyInputView, TaxonomyView};
use crate::text::lowercase;
use crate::validation::{
    empty_message, is_blank, marinespecie_violations, non_negative, required, taxonomy_violations,
};
use vstd::prelude::*;

verus! {

/// One mutating operation on the taxonomies, with its arguments.
pub enum TaxonomyOperation {
    Add { input: TaxonomyInputView, caller: Seq<char>, now: u64 },
    Update { id: u64, input: TaxonomyInputView, caller: Seq<char>, now: u64 },
    Delete { id: u64, caller: Seq<char> },
}

/// One mutating operation on the marine species, with its arguments.
pub enum MarineSpecieOperation {
    Add { input: MarineSpecieInputView, caller: Seq<char>, now: u64 },
    Update { id: u64, input: MarineSpecieInputView, caller: Seq<char>, now: u64 },
    Delete { id: u64, caller: Seq<char> },
}

impl TaxonomyCollection {
    /// The state and the outcome after one operation.
    pub open spec fn apply(self, operation: TaxonomyOperation) -> (
        TaxonomyCollection,
        Result<TaxonomyView, ErrorView>,
    ) {
        match operation {
            TaxonomyOperation::Add { input, caller, now } => self.add(input, caller, now),
            TaxonomyOperation::Update { id, input, caller, now } => self.update(
                id,
                input,
                caller,
                now,
            ),
            TaxonomyOperation::Delete { id, caller } => self.delete(id, caller),
        }
    }

    /// The state after a run of operations, the first applied first.
    pub open spec fn after(self, operations: Seq<TaxonomyOperation>) -> TaxonomyCollection
        decreases operations.len(),
    {
        if operations.len() == 0 {
            self
        } else {
            self.after(operations.drop_last()).apply(operations.last()).0
        }
    }

    /// The id that the operation at `position` of a run gives to a new
    /// record: `Some` for a creation that succeeds, `None` otherwise.
    pub open spec fn created_id(self, operations: Seq<TaxonomyOperation>, position: int) -> Option<
        u64,
    > {
        let outcome = self.after(operations.take(position)).apply(operations[position]).1;
        if operations[position] is Add && outcome is Ok {
            Some(outcome->Ok_0.id)
        } else {
            None
        }
    }
}

impl MarineSpecieCollection {
    /// The state and the outcome after one operation.
    pub open spec fn apply(self, operation: MarineSpecieOperation) -> (
        MarineSpecieCollection,
        Result<MarineSpecieView, ErrorView>,
    ) {
        match operation {
            MarineSpecieOperation::Add { input, caller, now } => self.add(input, caller, now),
            MarineSpecieOperation::Update { id, input, caller, now } => self.update(
                id,
                input,
                caller,
                now,
            ),
            MarineSpecieOperation::Delete { id, caller } => self.delete(id, caller),
        }
    }

    /// The state after a run of operations, the first applied first.
    pub open spec fn after(self, operations: Seq<MarineSpecieOperation>) -> MarineSpecieCollection
        decreases operations.len(),
    {
        if operations.len() == 0 {
            self
        } else {
            self.after(operations.drop_last()).apply(operations.last()).0
        }
    }

    /// The id that the operation at `position` of a run gives to a new
    /// record: `Some` for a creation that succeeds, `None` otherwise.
    pub open spec fn created_id(
        self,
        operations: Seq<MarineSpecieOperation>,
        position: int,
    ) -> Option<u64> {
        let outcome = self.after(operations.take(position)).apply(operations[position]).1;
        if operations[position] is Add && outcome is Ok {
            Some(outcome->Ok_0.id)
        } else {
            None
        }
    }
}

/// A taxonomy that was created is read back under the id it was given, with
/// the fields of the payload, the creating caller as its owner, and no update
/// time. The payload must be valid and the record small enough to be stored.
pub proof fn law_taxonomy_create_then_read(
    before: TaxonomyCollection,
    input: TaxonomyInputView,
    caller: Seq<char>,
    now: u64,
)
    requires
        before.last_id < u64::MAX,
        taxonomy_violations(input).len() == 0,
        before.new_record(input, caller, now).bytes().len() <= MAX_RECORD_SIZE,
    ensures
        ({
            let (after, created) = before.add(input, caller, now);
            &&& created is Ok
            &&& after.get(created->Ok_0.id) == created
            &&& created->Ok_0 == TaxonomyView::created(
                (before.last_id + 1) as u64,
                caller,
                input,
                now,
            )
            &&& created->Ok_0.kingdom == input.kingdom
            &&& created->Ok_0.phylum == input.phylum
            &&& created->Ok_0.class == input.class
            &&& created->Ok_0.order == input.order
            &&& created->Ok_0.family == input.family
            &&& created->Ok_0.genus == input.genus
            &&& created->Ok_0.species == input.species
            &&& created->Ok_0.researcher == caller
            &&& created->Ok_0.updated_at is None
        }),
{
}

/// A marine species that was created is read back under the id it was given,
/// with the fields of the payload, the creating caller as its owner, and no
/// update time. The payload must be valid and the record small enough to be
/// stored.
pub proof fn law_marinespecie_create_then_read(
    before: MarineSpecieCollection,
    input: MarineSpecieInputView,
    caller: Seq<char>,
    now: u64,
)
    requires
        before.last_id < u64::MAX,
        marinespecie_violations(input).len() == 0,
        before.new_record(input, caller, now).bytes().len() <= MAX_RECORD_SIZE,
    ensures
        ({
            let (after, created) = before.add(input, caller, now);
            &&& created is Ok
            &&& after.get(created->Ok_0.id) == created
            &&& created->Ok_0 == MarineSpecieView::created(
                (before.last_id + 1) as u64,
                caller,
                input,
                now,
            )
            &&& created->Ok_0.name == input.name
            &&& created->Ok_0.habitat == input.habitat
            &&& created->Ok_0.taxonomy_id == input.taxonomy_id
            &&& created->Ok_0.conservation_status == input.conservation_status
            &&& created->Ok_0.researcher == caller
            &&& created->Ok_0.updated_at is None
        }),
{
}

/// A creation gives out the id after the last one, which no record has, and
/// stores under it without touching another record.
pub proof fn law_taxonomy_created_id_is_new(
    before: TaxonomyCollection,
    input: TaxonomyInputView,
    caller: Seq<char>,
    now: u64,
)
    requires
        before.wf(),
        before.last_id < u64::MAX,
        before.add(input, caller, now).1 is Ok,
    ensures
        ({
            let (after, created) = before.add(input, caller, now);
            &&& created->Ok_0.id == before.last_id + 1
            &&& after.last_id == created->Ok_0.id
            &&& !before.records.contains_key(created->Ok_0.id)
            &&& forall|id: u64| #[trigger]
                before.records.contains_key(id) ==> after.get(id) == before.get(id)
        }),
{
}

/// A creation gives out the id after the last one, which no record has, and
/// stores under it without touching another record.
pub proof fn law_marinespecie_created_id_is_new(
    before: MarineSpecieCollection,
    input: MarineSpecieInputView,
    caller: Seq<char>,
    now: u64,
)
    requires
        before.wf(),
        before.last_id < u64::MAX,
        before.add(input, caller, now).1 is Ok,
    ensures
        ({
            let (after, created) = before.add(input, caller, now);
            &&& created->Ok_0.id == before.last_id + 1
            &&& after.last_id == created->Ok_0.id
            &&& !before.records.contains_key(created->Ok_0.id)
            &&& forall|id: u64| #[trigger]
                before.records.contains_key(id) ==> after.get(id) == before.get(id)
        }),
{
}

/// No operation lowers the id given out last, and each raises it by one at
/// most. Every operation keeps the collection well formed.
pub proof fn law_taxonomy_step(before: TaxonomyCollection, operation: TaxonomyOperation)
    requires
        before.last_id < u64::MAX,
    ensures
        before.last_id <= before.apply(operation).0.last_id <= before.last_id + 1,
        before.wf() ==> before.apply(operation).0.wf(),
        operation is Add && before.apply(operation).1 is Ok ==> before.apply(operation).1->Ok_0.id
            == before.last_id + 1 && before.apply(operation).0.last_id == before.last_id + 1,
{
}

/// No operation lowers the id given out last, and each raises it by one at
/// most. Every operation keeps the collection well formed.
pub proof fn law_marinespecie_step(before: MarineSpecieCollection, operation: MarineSpecieOperation)
    requires
        before.last_id < u64::MAX,
    ensures
        before.last_id <= before.apply(operation).0.last_id <= before.last_id + 1,
        before.wf() ==> before.apply(operation).0.wf(),
        operation is Add && before.apply(operation).1 is Ok ==> before.apply(operation).1->Ok_0.id
            == before.last_id + 1 && before.apply(operation).0.last_id == before.last_id + 1,
{
}

/// Over a run of operations the id given out last never falls: it is the
/// same or higher after a longer part of the run.
pub proof fn law_taxonomy_counter_never_falls(
    start: TaxonomyCollection,
    operations: Seq<TaxonomyOperation>,
    shorter: int,
    longer: int,
)
    requires
        start.last_id + operations.len() <= u64::MAX,
        0 <= shorter <= longer <= operations.len(),
    ensures
        start.last_id <= start.after(operations.take(shorter)).last_id <= start.after(
            operations.take(longer),
        ).last_id <= start.last_id + longer,
    decreases longer,
{
    if longer > 0 {
        let part = operations.take(longer);
        assert(part.drop_last() =~= operations.take(longer - 1));
        if shorter == longer {
            law_taxonomy_counter_never_falls(start, operations, longer - 1, longer - 1);
        } else {
            law_taxonomy_counter_never_falls(start, operations, shorter, longer - 1);
        }
        law_taxonomy_step(start.after(operations.take(longer - 1)), part.last());
    }
}

/// Over a run of operations the id given out last never falls: it is the
/// same or higher after a longer part of the run.
pub proof fn law_marinespecie_counter_never_falls(
    start: MarineSpecieCollection,
    operations: Seq<MarineSpecieOperation>,
    shorter: int,
    longer: int,
)
    requires
        start.last_id + operations.len() <= u64::MAX,
        0 <= shorter <= longer <= operations.len(),
    ensures
        start.last_id <= start.after(operations.take(shorter)).last_id <= start.after(
            operations.take(longer),
        ).last_id <= start.last_id + longer,
    decreases longer,
{
    if longer > 0 {
        let part = operations.take(longer);
        assert(part.drop_last() =~= operations.take(longer - 1));
        if shorter == longer {
            law_marinespecie_counter_never_falls(start, operations, longer - 1, longer - 1);
        } else {
            law_marinespecie_counter_never_falls(start, operations, shorter, longer - 1);
        }
        law_marinespecie_step(start.after(operations.take(longer - 1)), part.last());
    }
}

/// Of two creations in one run, the later one gives out the higher id,
/// whatever updates and deletions lie between them.
pub proof fn law_taxonomy_ids_increase(
    start: TaxonomyCollection,
    operations: Seq<TaxonomyOperation>,
    earlier: int,
    later: int,
)
    requires
        start.last_id + operations.len() <= u64::MAX,
        0 <= earlier < later < operations.len(),
        start.created_id(operations, earlier) is Some,
        start.created_id(operations, later) is Some,
    ensures
        start.created_id(operations, earlier).unwrap() < start.created_id(
            operations,
            later,
        ).unwrap(),
{
    law_taxonomy_counter_never_falls(start, operations, earlier, earlier);
    law_taxonomy_counter_never_falls(start, operations, earlier + 1, later);
    law_taxonomy_step(start.after(operations.take(earlier)), operations[earlier]);
    law_taxonomy_step(start.after(operations.take(later)), operations[later]);
    let next = operations.take(earlier + 1);
    assert(next.drop_last() =~= operations.take(earlier));
}

/// Of two creations in one run, the later one gives out the higher id,
/// whatever updates and deletions lie between them.
pub proof fn law_marinespecie_ids_increase(
    start: MarineSpecieCollection,
    operations: Seq<MarineSpecieOperation>,
    earlier: int,
    later: int,
)
    requires
        start.last_id + operations.len() <= u64::MAX,
        0 <= earlier < later < operations.len(),
        start.created_id(operations, earlier) is Some,
        start.created_id(operations, later) is Some,
    ensures
        start.created_id(operations, earlier).unwrap() < start.created_id(
            operations,
            later,
        ).unwrap(),
{
    law_marinespecie_counter_never_falls(start, operations, earlier, earlier);
    law_marinespecie_counter_never_falls(start, operations, earlier + 1, later);
    law_marinespecie_step(start.after(operations.take(earlier)), operations[earlier]);
    law_marinespecie_step(start.after(operations.take(later)), operations[later]);
    let next = operations.take(earlier + 1);
    assert(next.drop_last() =~= operations.take(earlier));
}

impl TaxonomyOperation {
    /// Whether the operation is an update or a deletion of the record `id`.
    pub open spec fn touches(self, id: u64) -> bool {
        match self {
            TaxonomyOperation::Add { .. } => false,
            TaxonomyOperation::Update { id: target, .. } => target == id,
            TaxonomyOperation::Delete { id: target, .. } => target == id,
        }
    }
}

/// A record stays as it is over a run of operations of which none updates
/// or deletes it: creations, and updates and deletions of other records,
/// by whomever, leave it readable and unchanged.
pub proof fn law_taxonomy_record_stays(
    start: TaxonomyCollection,
    operations: Seq<TaxonomyOperation>,
    id: u64,
)
    requires
        start.wf(),
        start.records.contains_key(id),
        start.last_id + operations.len() <= u64::MAX,
        forall|i: int| 0 <= i < operations.len() ==> !(#[trigger] operations[i]).touches(id),
    ensures
        start.after(operations).wf(),
        start.after(operations).get(id) == start.get(id),
        start.last_id <= start.after(operations).last_id <= start.last_id + operations.len(),
    decreases operations.len(),
{
    if operations.len() > 0 {
        let earlier = operations.drop_last();
        law_taxonomy_record_stays(start, earlier, id);
        law_taxonomy_step(start.after(earlier), operations.last());
        assert(!operations[operations.len() - 1].touches(id));
    }
}

/// An id that no record has, and that is not beyond the id given out last,
/// stays without a record over every run of operations: no creation gives
/// it out again.
pub proof fn law_taxonomy_free_id_stays_free(
    start: TaxonomyCollection,
    operations: Seq<TaxonomyOperation>,
    id: u64,
)
    requires
        start.wf(),
        !start.records.contains_key(id),
        id <= start.last_id,
        start.last_id + operations.len() <= u64::MAX,
    ensures
        start.after(operations).wf(),
        start.after(operations).get(id) == Err::<TaxonomyView, ErrorView>(
            ErrorView::NotFound { id: Some(id) },
        ),
        start.last_id <= start.after(operations).last_id <= start.last_id + operations.len(),
    decreases operations.len(),
{
    if operations.len() > 0 {
        let earlier = operations.drop_last();
        law_taxonomy_free_id_stays_free(start, earlier, id);
        law_taxonomy_step(start.after(earlier), operations.last());
    }
}

/// A record that was created is read back with the payload's fields, the
/// creating caller as its owner, its creation time and no update time, after
/// any run of operations of which none updates or deletes it.
pub proof fn law_taxonomy_created_record_stays(
    before: TaxonomyCollection,
    input: TaxonomyInputView,
    caller: Seq<char>,
    now: u64,
    operations: Seq<TaxonomyOperation>,
)
    requires
        before.wf(),
        before.last_id + 1 + operations.len() <= u64::MAX,
        before.add(input, caller, now).1 is Ok,
        forall|i: int|
            0 <= i < operations.len() ==> !(#[trigger] operations[i]).touches(
                (before.last_id + 1) as u64,
            ),
    ensures
        before.add(input, caller, now).0.after(operations).get((before.last_id + 1) as u64) == Ok::<
            TaxonomyView,
            ErrorView,
        >(TaxonomyView::created((before.last_id + 1) as u64, caller, input, now)),
{
    law_taxonomy_step(before, TaxonomyOperation::Add { input, caller, now });
    law_taxonomy_record_stays(
        before.add(input, caller, now).0,
        operations,
        (before.last_id + 1) as u64,
    );
}

/// After its owner has deleted a record, reading it fails with `NotFound`
/// whatever operations follow: no later creation brings the id back.
pub proof fn law_taxonomy_deleted_record_stays_gone(
    before: TaxonomyCollection,
    id: u64,
    caller: Seq<char>,
    operations: Seq<TaxonomyOperation>,
)
    requires
        before.wf(),
        before.records.contains_key(id),
        is_owner(before.records[id].researcher, caller),
        before.last_id + operations.len() <= u64::MAX,
    ensures
        before.delete(id, caller).0.after(operations).get(id) == Err::<TaxonomyView, ErrorView>(
            ErrorView::NotFound { id: Some(id) },
        ),
{
    law_taxonomy_free_id_stays_free(before.delete(id, caller).0, operations, id);
}

impl MarineSpecieOperation {
    /// Whether the operation is an update or a deletion of the record `id`.
    pub open spec fn touches(self, id: u64) -> bool {
        match self {
            MarineSpecieOperation::Add { .. } => false,
            MarineSpecieOperation::Update { id: target, .. } => target == id,
            MarineSpecieOperation::Delete { id: target, .. } => target == id,
        }
    }
}

/// A record stays as it is over a run of operations of which none updates
/// or deletes it: creations, and updates and deletions of other records,
/// by whomever, leave it readable and unchanged.
pub proof fn law_marinespecie_record_stays(
    start: MarineSpecieCollection,
    operations: Seq<MarineSpecieOperation>,
    id: u64,
)
    requires
        start.wf(),
        start.records.contains_key(id),
        start.last_id + operations.len() <= u64::MAX,
        forall|i: int| 0 <= i < operations.len() ==> !(#[trigger] operations[i]).touches(id),
    ensures
        start.after(operations).wf(),
        start.after(operations).get(id) == start.get(id),
        start.last_id <= start.after(operations).last_id <= start.last_id + operations.len(),
    decreases operations.len(),
{
    if operations.len() > 0 {
        let earlier = operations.drop_last();
        law_marinespecie_record_stays(start, earlier, id);
        law_marinespecie_step(start.after(earlier), operations.last());
        assert(!operations[operations.len() - 1].touches(id));
    }
}

/// An id that no record has, and that is not beyond the id given out last,
/// stays without a record over every run of operations: no creation gives
/// it out again.
pub proof fn law_marinespecie_free_id_stays_free(
    start: MarineSpecieCollection,
    operations: Seq<MarineSpecieOperation>,
    id: u64,
)
    requires
        start.wf(),
        !start.records.contains_key(id),
        id <= start.last_id,
        start.last_id + operations.len() <= u64::MAX,
    ensures
        start.after(operations).wf(),
        start.after(operations).get(id) == Err::<MarineSpecieView, ErrorView>(
            ErrorView::NotFound { id: Some(id) },
        ),
        start.last_id <= start.after(operations).last_id <= start.last_id + operations.len(),
    decreases operations.len(),
{
    if operations.len() > 0 {
        let earlier = operations.drop_last();
        law_marinespecie_free_id_stays_free(start, earlier, id);
        law_marinespecie_step(start.after(earlier), operations.last());
    }
}

/// A record that was created is read back with the payload's fields, the
/// creating caller as its owner, its creation time and no update time, after
/// any run of operations of which none updates or deletes it.
pub proof fn law_marinespecie_created_record_stays(
    before: MarineSpecieCollection,
    input: MarineSpecieInputView,
    caller: Seq<char>,
    now: u64,
    operations: Seq<MarineSpecieOperation>,
)
    requires
        before.wf(),
        before.last_id + 1 + operations.len() <= u64::MAX,
        before.add(input, caller, now).1 is Ok,
        forall|i: int|
            0 <= i < operations.len() ==> !(#[trigger] operations[i]).touches(
                (before.last_id + 1) as u64,
            ),
    ensures
        before.add(input, caller, now).0.after(operations).get((before.last_id + 1) as u64) == Ok::<
            MarineSpecieView,
            ErrorView,
        >(MarineSpecieView::created((before.last_id + 1) as u64, caller, input, now)),
{
    law_marinespecie_step(before, MarineSpecieOperation::Add { input, caller, now });
    law_marinespecie_record_stays(
        before.add(input, caller, now).0,
        operations,
        (before.last_id + 1) as u64,
    );
}

/// After its owner has deleted a record, reading it fails with `NotFound`
/// whatever operations follow: no later creation brings the id back.
pub proof fn law_marinespecie_deleted_record_stays_gone(
    before: MarineSpecieCollection,
    id: u64,
    caller: Seq<char>,
    operations: Seq<MarineSpecieOperation>,
)
    requires
        before.wf(),
        before.records.contains_key(id),
        is_owner(before.records[id].researcher, caller),
        before.last_id + operations.len() <= u64::MAX,
    ensures
        before.delete(id, caller).0.after(operations).get(id) == Err::<MarineSpecieView, ErrorView>(
            ErrorView::NotFound { id: Some(id) },
        ),
{
    law_marinespecie_free_id_stays_free(before.delete(id, caller).0, operations, id);
}

/// An update by anyone but the owner fails with `NotAuthorized` and changes
/// nothing. The payload must be valid: an invalid one is reported first.
pub proof fn law_taxonomy_update_by_stranger(
    before: TaxonomyCollection,
    id: u64,
    input: TaxonomyInputView,
    caller: Seq<char>,
    now: u64,
)
    requires
        before.records.contains_key(id),
        before.records[id].researcher != caller,
        taxonomy_violations(input).len() == 0,
    ensures
        before.update(id, input, caller, now) == (
            before,
            Err::<TaxonomyView, ErrorView>(ErrorView::NotAuthorized { record_id: id }),
        ),
{
}

/// An update by anyone but the owner fails with `NotAuthorized` and changes
/// nothing. The payload must be valid: an invalid one is reported first.
pub proof fn law_marinespecie_update_by_stranger(
    before: MarineSpecieCollection,
    id: u64,
    input: MarineSpecieInputView,
    caller: Seq<char>,
    now: u64,
)
    requires
        before.records.contains_key(id),
        before.records[id].researcher != caller,
        marinespecie_violations(input).len() == 0,
    ensures
        before.update(id, input, caller, now) == (
            before,
            Err::<MarineSpecieView, ErrorView>(ErrorView::NotAuthorized { record_id: id }),
        ),
{
}

/// A deletion by anyone but the owner fails with `NotAuthorized` and changes
/// nothing.
pub proof fn law_taxonomy_delete_by_stranger(before: TaxonomyCollection, id: u64, caller: Seq<char>)
    requires
        before.records.contains_key(id),
        before.records[id].researcher != caller,
    ensures
        before.delete(id, caller) == (
            before,
            Err::<TaxonomyView, ErrorView>(ErrorView::NotAuthorized { record_id: id }),
        ),
{
}

/// A deletion by anyone but the owner fails with `NotAuthorized` and changes
/// nothing.
pub proof fn law_marinespecie_delete_by_stranger(
    before: MarineSpecieCollection,
    id: u64,
    caller: Seq<char>,
)
    requires
        before.records.contains_key(id),
        before.records[id].researcher != caller,
    ensures
        before.delete(id, caller) == (
            before,
            Err::<MarineSpecieView, ErrorView>(ErrorView::NotAuthorized { record_id: id }),
        ),
{
}

/// After its owner has deleted a record, reading it fails with `NotFound`;
/// the deletion returns the record and leaves the others as they were.
pub proof fn law_taxonomy_delete_then_read(before: TaxonomyCollection, id: u64, caller: Seq<char>)
    requires
        before.records.contains_key(id),
        is_owner(before.records[id].researcher, caller),
    ensures
        ({
            let (after, deleted) = before.delete(id, caller);
            &&& deleted == Ok::<TaxonomyView, ErrorView>(before.records[id])
            &&& after.get(id) == Err::<TaxonomyView, ErrorView>(
                ErrorView::NotFound { id: Some(id) },
            )
            &&& forall|other: u64| other != id ==> after.get(other) == before.get(other)
        }),
{
}

/// After its owner has deleted a record, reading it fails with `NotFound`;
/// the deletion returns the record and leaves the others as they were.
pub proof fn law_marinespecie_delete_then_read(
    before: MarineSpecieCollection,
    id: u64,
    caller: Seq<char>,
)
    requires
        before.records.contains_key(id),
        is_owner(before.records[id].researcher, caller),
    ensures
        ({
            let (after, deleted) = before.delete(id, caller);
            &&& deleted == Ok::<MarineSpecieView, ErrorView>(before.records[id])
            &&& after.get(id) == Err::<MarineSpecieView, ErrorView>(
                ErrorView::NotFound { id: Some(id) },
            )
            &&& forall|other: u64| other != id ==> after.get(other) == before.get(other)
        }),
{
}

/// An update that succeeds keeps the record's id, owner and creation time,
/// takes the other fields from the payload, and sets the update time.
pub proof fn law_taxonomy_update_keeps_identity(
    before: TaxonomyCollection,
    id: u64,
    input: TaxonomyInputView,
    caller: Seq<char>,
    now: u64,
)
    requires
        before.wf(),
        before.update(id, input, caller, now).1 is Ok,
    ensures
        ({
            let (after, updated) = before.update(id, input, caller, now);
            let record = updated->Ok_0;
            &&& after.get(id) == updated
            &&& record.id == id
            &&& record.researcher == before.records[id].researcher
            &&& record.researcher == caller
            &&& record.created_at == before.records[id].created_at
            &&& record.updated_at == Some(now)
            &&& after.last_id == before.last_id
        }),
{
}

/// An update that succeeds keeps the record's id, owner and creation time,
/// takes the other fields from the payload, and sets the update time.
pub proof fn law_marinespecie_update_keeps_identity(
    before: MarineSpecieCollection,
    id: u64,
    input: MarineSpecieInputView,
    caller: Seq<char>,
    now: u64,
)
    requires
        before.wf(),
        before.update(id, input, caller, now).1 is Ok,
    ensures
        ({
            let (after, updated) = before.update(id, input, caller, now);
            let record = updated->Ok_0;
            &&& after.get(id) == updated
            &&& record.id == id
            &&& record.researcher == before.records[id].researcher
            &&& record.researcher == caller
            &&& record.created_at == before.records[id].created_at
            &&& record.updated_at == Some(now)
            &&& after.last_id == before.last_id
        }),
{
}

/// The listing of the taxonomies holds every record once, by ascending id,
/// and nothing else; it is empty for an empty collection only.
pub proof fn law_taxonomy_listing(collection: TaxonomyCollection)
    requires
        collection.wf(),
    ensures
        forall|i: int, j: int|
            0 <= i < j < collection.listing().len() ==> collection.listing()[i].id
                < collection.listing()[j].id,
        forall|i: int|
            0 <= i < collection.listing().len() ==> collection.get(
                (#[trigger] collection.listing()[i]).id,
            ) == Ok::<TaxonomyView, ErrorView>(collection.listing()[i]),
        forall|id: u64| #[trigger]
            collection.records.contains_key(id) ==> collection.listing().contains(
                collection.records[id],
            ),
        collection.is_empty() <==> collection.listing().len() == 0,
{
    let domain = collection.records.dom();
    let keys = ascending_keys(domain);
    lemma_finite_set_is_listed(domain);
    assert forall|id: u64| #[trigger] collection.records.contains_key(id) implies
        collection.listing().contains(collection.records[id]) by {
        assert(domain.contains(id));
        let at = choose|i: int| 0 <= i < keys.len() && #[trigger] keys[i] == id;
        assert(collection.listing()[at] == collection.records[id]);
    }
    assert forall|i: int| 0 <= i < collection.listing().len() implies collection.get(
        (#[trigger] collection.listing()[i]).id,
    ) == Ok::<TaxonomyView, ErrorView>(collection.listing()[i]) by {
        assert(domain.contains(keys[i]));
    }
    assert forall|i: int, j: int| 0 <= i < j < collection.listing().len() implies
        collection.listing()[i].id < collection.listing()[j].id by {
        assert(domain.contains(keys[i]));
        assert(domain.contains(keys[j]));
    }
    if collection.listing().len() > 0 {
        assert(domain.contains(keys[0]));
    }
}

/// The listing of the marine species holds every record once, by ascending
/// id, and nothing else; it is empty for an empty collection only.
pub proof fn law_marinespecie_listing(collection: MarineSpecieCollection)
    requires
        collection.wf(),
    ensures
        forall|i: int, j: int|
            0 <= i < j < collection.listing().len() ==> collection.listing()[i].id
                < collection.listing()[j].id,
        forall|i: int|
            0 <= i < collection.listing().len() ==> collection.get(
                (#[trigger] collection.listing()[i]).id,
            ) == Ok::<MarineSpecieView, ErrorView>(collection.listing()[i]),
        forall|id: u64| #[trigger]
            collection.records.contains_key(id) ==> collection.listing().contains(
                collection.records[id],
            ),
        collection.is_empty() <==> collection.listing().len() == 0,
{
    let domain = collection.records.dom();
    let keys = ascending_keys(domain);
    lemma_finite_set_is_listed(domain);
    assert forall|id: u64| #[trigger] collection.records.contains_key(id) implies
        collection.listing().contains(collection.records[id]) by {
        assert(domain.contains(id));
        let at = choose|i: int| 0 <= i < keys.len() && #[trigger] keys[i] == id;
        assert(collection.listing()[at] == collection.records[id]);
    }
    assert forall|i: int| 0 <= i < collection.listing().len() implies collection.get(
        (#[trigger] collection.listing()[i]).id,
    ) == Ok::<MarineSpecieView, ErrorView>(collection.listing()[i]) by {
        assert(domain.contains(keys[i]));
    }
    assert forall|i: int, j: int| 0 <= i < j < collection.listing().len() implies
        collection.listing()[i].id < collection.listing()[j].id by {
        assert(domain.contains(keys[i]));
        assert(domain.contains(keys[j]));
    }
    if collection.listing().len() > 0 {
        assert(domain.contains(keys[0]));
    }
}

/// A filter by conservation status does not tell upper case from lower:
/// two statuses with one lowercase form select the same records.
pub proof fn law_filter_ignores_case(
    collection: MarineSpecieCollection,
    status: Seq<char>,
    other: Seq<char>,
)
    requires
        lowercase(status) == lowercase(other),
    ensures
        collection.get_by_conservation_status(status) == collection.get_by_conservation_status(
            other,
        ),
{
    assert(status_filter(status) =~= status_filter(other));
}

/// A filter by conservation status returns each record of the listing whose
/// status has the lowercase form asked for, and no other record.
pub proof fn law_filter_selects_by_status(
    collection: MarineSpecieCollection,
    status: Seq<char>,
    record: MarineSpecieView,
)
    ensures
        collection.with_status(status).contains(record) <==> collection.listing().contains(record)
            && lowercase(record.conservation_status) == lowercase(status),
{
    let listing = collection.listing();
    let test = status_filter(status);
    if listing.filter(test).contains(record) {
        listing.lemma_filter_contains_rev(test, record);
    }
    if listing.contains(record) && test(record) {
        let at = choose|i: int| 0 <= i < listing.len() && listing[i] == record;
        listing.lemma_filter_contains(test, at);
    }
}

/// An empty text is blank, and so is reported where it is required.
pub proof fn law_empty_text_is_reported(field: Seq<char>, value: Seq<char>)
    requires
        value.len() == 0,
    ensures
        is_blank(value),
        required(field, value) == seq![FieldViolationView { field, message: empty_message() }],
{
}

/// Validation reports every empty field of a taxonomy payload, not only the
/// first: each empty field appears among the violations under its name.
pub proof fn law_taxonomy_every_empty_field_is_reported(input: TaxonomyInputView)
    ensures
        input.kingdom.len() == 0 ==> taxonomy_violations(input).contains(
            FieldViolationView { field: "kingdom"@, message: empty_message() },
        ),
        input.phylum.len() == 0 ==> taxonomy_violations(input).contains(
            FieldViolationView { field: "phylum"@, message: empty_message() },
        ),
        input.class.len() == 0 ==> taxonomy_violations(input).contains(
            FieldViolationView { field: "class"@, message: empty_message() },
        ),
        input.order.len() == 0 ==> taxonomy_violations(input).contains(
            FieldViolationView { field: "order"@, message: empty_message() },
        ),
        input.family.len() == 0 ==> taxonomy_violations(input).contains(
            FieldViolationView { field: "family"@, message: empty_message() },
        ),
        input.genus.len() == 0 ==> taxonomy_violations(input).contains(
            FieldViolationView { field: "genus"@, message: empty_message() },
        ),
        input.species.len() == 0 ==> taxonomy_violations(input).contains(
            FieldViolationView { field: "species"@, message: empty_message() },
        ),
{
    let kingdom = required("kingdom"@, input.kingdom);
    let phylum = required("phylum"@, input.phylum);
    let class = required("class"@, input.class);
    let order = required("order"@, input.order);
    let family = required("family"@, input.family);
    let genus = required("genus"@, input.genus);
    let species = required("species"@, input.species);
    let all = taxonomy_violations(input);
    if input.kingdom.len() == 0 {
        law_empty_text_is_reported("kingdom"@, input.kingdom);
        assert(all[0] == kingdom[0]);
    }
    if input.phylum.len() == 0 {
        law_empty_text_is_reported("phylum"@, input.phylum);
        assert(all[kingdom.len() as int] == phylum[0]);
    }
    if input.class.len() == 0 {
        law_empty_text_is_reported("class"@, input.class);
        assert(all[(kingdom.len() + phylum.len()) as int] == class[0]);
    }
    if input.order.len() == 0 {
        law_empty_text_is_reported("order"@, input.order);
        assert(all[(kingdom.len() + phylum.len() + class.len()) as int] == order[0]);
    }
    if input.family.len() == 0 {
        law_empty_text_is_reported("family"@, input.family);
        assert(all[(kingdom.len() + phylum.len() + class.len() + order.len()) as int] == family[0]);
    }
    if input.genus.len() == 0 {
        law_empty_text_is_reported("genus"@, input.genus);
        assert(all[(kingdom.len() + phylum.len() + class.len() + order.len() + family.len()) as int]
            == genus[0]);
    }
    if input.species.len() == 0 {
        law_empty_text_is_reported("species"@, input.species);
        assert(all[(kingdom.len() + phylum.len() + class.len() + order.len() + family.len()
            + genus.len()) as int] == species[0]);
    }
}

/// Validation reports every empty field of a marine species payload, not
/// only the first: each empty field appears among the violations under its
/// name.
pub proof fn law_marinespecie_every_empty_field_is_reported(input: MarineSpecieInputView)
    ensures
        input.name.len() == 0 ==> marinespecie_violations(input).contains(
            FieldViolationView { field: "name"@, message: empty_message() },
        ),
        input.habitat.len() == 0 ==> marinespecie_violations(input).contains(
            FieldViolationView { field: "habitat"@, message: empty_message() },
        ),
        input.conservation_status.len() == 0 ==> marinespecie_violations(input).contains(
            FieldViolationView { field: "conservation_status"@, message: empty_message() },
        ),
{
    let name = required("name"@, input.name);
    let habitat = required("habitat"@, input.habitat);
    let status = required("conservation_status"@, input.conservation_status);
    let all = marinespecie_violations(input);
    if input.name.len() == 0 {
        law_empty_text_is_reported("name"@, input.name);
        assert(all[0] == name[0]);
    }
    if input.habitat.len() == 0 {
        law_empty_text_is_reported("habitat"@, input.habitat);
        assert(all[name.len() as int] == habitat[0]);
    }
    if input.conservation_status.len() == 0 {
        law_empty_text_is_reported("conservation_status"@, input.conservation_status);
        assert(all[(name.len() + habitat.len()) as int] == status[0]);
    }
}

/// A taxonomy payload is valid exactly if none of its fields is blank.
pub proof fn law_taxonomy_valid_payload(input: TaxonomyInputView)
    ensures
        taxonomy_violations(input).len() == 0 <==> !is_blank(input.kingdom) && !is_blank(
            input.phylum,
        ) && !is_blank(input.class) && !is_blank(input.order) && !is_blank(input.family)
            && !is_blank(input.genus) && !is_blank(input.species),
{
}

/// A marine species payload is valid exactly if none of its texts is blank,
/// whatever taxonomy it refers to.
pub proof fn law_marinespecie_valid_payload(input: MarineSpecieInputView)
    ensures
        marinespecie_violations(input).len() == 0 <==> !is_blank(input.name) && !is_blank(
            input.habitat,
        ) && !is_blank(input.conservation_status),
{
}

/// The names of the fields that a list of violations reports.
pub open spec fn reported_fields(violations: Seq<FieldViolationView>) -> Set<Seq<char>> {
    Set::new(
        |name: Seq<char>|
            exists|i: int| 0 <= i < violations.len() && (#[trigger] violations[i]).field == name,
    )
}

/// The names of the blank fields of a taxonomy payload.
pub open spec fn taxonomy_blank_fields(input: TaxonomyInputView) -> Set<Seq<char>> {
    Set::new(
        |name: Seq<char>|
            {
                ||| name == "kingdom"@ && is_blank(input.kingdom)
                ||| name == "phylum"@ && is_blank(input.phylum)
                ||| name == "class"@ && is_blank(input.class)
                ||| name == "order"@ && is_blank(input.order)
                ||| name == "family"@ && is_blank(input.family)
                ||| name == "genus"@ && is_blank(input.genus)
                ||| name == "species"@ && is_blank(input.species)
            },
    )
}

/// The names of the blank texts of a marine species payload.
pub open spec fn marinespecie_blank_fields(input: MarineSpecieInputView) -> Set<Seq<char>> {
    Set::new(
        |name: Seq<char>|
            {
                ||| name == "name"@ && is_blank(input.name)
                ||| name == "habitat"@ && is_blank(input.habitat)
                ||| name == "conservation_status"@ && is_blank(input.conservation_status)
            },
    )
}

/// Two lists of violations in a row report the fields of both.
proof fn lemma_reported_fields_of_both(a: Seq<FieldViolationView>, b: Seq<FieldViolationView>)
    ensures
        reported_fields(a + b) == reported_fields(a).union(reported_fields(b)),
{
    let both = a + b;
    assert forall|name: Seq<char>|
        reported_fields(both).contains(name) <==> reported_fields(a).union(
            reported_fields(b),
        ).contains(name) by {
        if reported_fields(both).contains(name) {
            let i = choose|i: int| 0 <= i < both.len() && (#[trigger] both[i]).field == name;
            if i < a.len() {
                assert(a[i].field == name);
            } else {
                assert(b[i - a.len()].field == name);
            }
        }
        if reported_fields(a).contains(name) {
            let i = choose|i: int| 0 <= i < a.len() && (#[trigger] a[i]).field == name;
            assert(both[i].field == name);
        }
        if reported_fields(b).contains(name) {
            let i = choose|i: int| 0 <= i < b.len() && (#[trigger] b[i]).field == name;
            assert(both[a.len() + i].field == name);
        }
    }
    assert(reported_fields(both) =~= reported_fields(a).union(reported_fields(b)));
}

/// A required field is reported under its name exactly if it is blank.
proof fn lemma_reported_fields_of_required(field: Seq<char>, value: Seq<char>, name: Seq<char>)
    ensures
        reported_fields(required(field, value)).contains(name) <==> name == field && is_blank(
            value,
        ),
{
    if is_blank(value) {
        assert(required(field, value)[0].field == field);
    }
}

/// Validation of a taxonomy payload reports exactly the blank fields, each
/// under its name and as empty: every field that is blank once trimmed, and
/// no other.
pub proof fn law_taxonomy_exactly_the_blank_fields_are_reported(input: TaxonomyInputView)
    ensures
        reported_fields(taxonomy_violations(input)) == taxonomy_blank_fields(input),
        forall|i: int|
            0 <= i < taxonomy_violations(input).len() ==> (#[trigger] taxonomy_violations(
                input,
            )[i]).message == empty_message(),
{
    let kingdom = required("kingdom"@, input.kingdom);
    let phylum = required("phylum"@, input.phylum);
    let class = required("class"@, input.class);
    let order = required("order"@, input.order);
    let family = required("family"@, input.family);
    let genus = required("genus"@, input.genus);
    let species = required("species"@, input.species);
    lemma_reported_fields_of_both(kingdom, phylum);
    lemma_reported_fields_of_both(kingdom + phylum, class);
    lemma_reported_fields_of_both(kingdom + phylum + class, order);
    lemma_reported_fields_of_both(kingdom + phylum + class + order, family);
    lemma_reported_fields_of_both(kingdom + phylum + class + order + family, genus);
    lemma_reported_fields_of_both(kingdom + phylum + class + order + family + genus, species);
    assert forall|name: Seq<char>|
        reported_fields(taxonomy_violations(input)).contains(name) <==> taxonomy_blank_fields(
            input,
        ).contains(name) by {
        lemma_reported_fields_of_required("kingdom"@, input.kingdom, name);
        lemma_reported_fields_of_required("phylum"@, input.phylum, name);
        lemma_reported_fields_of_required("class"@, input.class, name);
        lemma_reported_fields_of_required("order"@, input.order, name);
        lemma_reported_fields_of_required("family"@, input.family, name);
        lemma_reported_fields_of_required("genus"@, input.genus, name);
        lemma_reported_fields_of_required("species"@, input.species, name);
    }
    assert(reported_fields(taxonomy_violations(input)) =~= taxonomy_blank_fields(input));
}

/// Validation of a marine species payload reports exactly the blank texts,
/// each under its name and as empty, and never the reference to a taxonomy.
pub proof fn law_marinespecie_exactly_the_blank_fields_are_reported(input: MarineSpecieInputView)
    ensures
        reported_fields(marinespecie_violations(input)) == marinespecie_blank_fields(input),
        !reported_fields(marinespecie_violations(input)).contains("taxonomy_id"@),
        forall|i: int|
            0 <= i < marinespecie_violations(input).len() ==> (#[trigger] marinespecie_violations(
                input,
            )[i]).message == empty_message(),
{
    let name = required("name"@, input.name);
    let habitat = required("habitat"@, input.habitat);
    let reference = non_negative("taxonomy_id"@, input.taxonomy_id);
    let status = required("conservation_status"@, input.conservation_status);
    lemma_reported_fields_of_both(name, habitat);
    lemma_reported_fields_of_both(name + habitat, reference);
    lemma_reported_fields_of_both(name + habitat + reference, status);
    assert forall|field: Seq<char>|
        reported_fields(marinespecie_violations(input)).contains(field)
            <==> marinespecie_blank_fields(input).contains(field) by {
        lemma_reported_fields_of_required("name"@, input.name, field);
        lemma_reported_fields_of_required("habitat"@, input.habitat, field);
        lemma_reported_fields_of_required(
            "conservation_status"@,
            input.conservation_status,
            field,
        );
    }
    assert(reported_fields(marinespecie_violations(input)) =~= marinespecie_blank_fields(input));
    assert(!marinespecie_blank_fields(input).contains("taxonomy_id"@)) by {
        reveal_strlit("taxonomy_id");
        reveal_strlit("name");
        reveal_strlit("habitat");
        reveal_strlit("conservation_status");
        assert("taxonomy_id"@.len() == 11);
        assert("name"@.len() == 4);
        assert("habitat"@.len() == 7);
        assert("conservation_status"@.len() == 19);
    }
}

/// A payload with a violation is refused, by creation and by update alike,
/// with every violation listed, before anything is looked up or changed: no
/// id is given out and no record is touched.
pub proof fn law_taxonomy_invalid_payload_changes_nothing(
    before: TaxonomyCollection,
    id: u64,
    input: TaxonomyInputView,
    caller: Seq<char>,
    now: u64,
)
    requires
        taxonomy_violations(input).len() > 0,
    ensures
        before.add(input, caller, now) == (
            before,
            Err::<TaxonomyView, ErrorView>(
                ErrorView::ValidationFailed { violations: taxonomy_violations(input) },
            ),
        ),
        before.update(id, input, caller, now) == before.add(input, caller, now),
{
}

/// A payload with a violation is refused, by creation and by update alike,
/// with every violation listed, before anything is looked up or changed: no
/// id is given out and no record is touched.
pub proof fn law_marinespecie_invalid_payload_changes_nothing(
    before: MarineSpecieCollection,
    id: u64,
    input: MarineSpecieInputView,
    caller: Seq<char>,
    now: u64,
)
    requires
        marinespecie_violations(input).len() > 0,
    ensures
        before.add(input, caller, now) == (
            before,
            Err::<MarineSpecieView, ErrorView>(
                ErrorView::ValidationFailed { violations: marinespecie_violations(input) },
            ),
        ),
        before.update(id, input, caller, now) == before.add(input, caller, now),
{
}

/// Storing a value twice under one key is storing it once.
pub proof fn law_insert_is_idempotent(entries: Map<u64, Seq<u8>>, key: u64, value: Seq<u8>)
    ensures
        entries.insert(key, value).insert(key, value) == entries.insert(key, value),
        entries.insert(key, value)[key] == value,
{
}

/// The four regions of a database are four different ones, and none is the
/// number that the memory pool keeps for itself.
pub proof fn law_regions_are_distinct()
    ensures
        TAXONOMY_ID_REGION != MARINESPECIE_ID_REGION,
        TAXONOMY_ID_REGION != TAXONOMY_REGION,
        TAXONOMY_ID_REGION != MARINESPECIE_REGION,
        MARINESPECIE_ID_REGION != TAXONOMY_REGION,
        MARINESPECIE_ID_REGION != MARINESPECIE_REGION,
        TAXONOMY_REGION != MARINESPECIE_REGION,
        TAXONOMY_ID_REGION != 255 && MARINESPECIE_ID_REGION != 255 && TAXONOMY_REGION != 255
            && MARINESPECIE_REGION != 255,
{
}

} // verus!
