//! The operations on marine species.
//!
//! Each operation is one step: it either takes effect completely or returns
//! an error and leaves the database as it was. What it does is stated by the
//! function of the same name on `MarineSpecieCollection`. A marine species
//! names its taxonomy by id only; that the taxonomy exists is never checked.

use crate::authorization::authorize;
use crate::database::{
    _get_marinespecie, do_insert_marinespecie, list_marinespecies, next_marinespecie_id,
    remove_marinespecie, Database,
};
use crate::error::Error;
use crate::marinespecie::{MarineSpecie, MarineSpecieInput};
use crate::error::ErrorView;
use crate::marinespecie::MarineSpecieView;
use crate::model::{
    lemma_with_lowered_status_is_filter, marinespecie_list_outcome, marinespecie_views, outcome,
    text_views, with_lowered_status,
};
use crate::text::lowercase;
use crate::validation::validate_marinespecie;
use vstd::prelude::*;

verus! {

/// ReadAll: every marine species, by ascending id. An empty collection is
/// reported as `NotFound`.
pub fn get_all_marinespecie(db: &Database) -> (found: Result<Vec<MarineSpecie>, Error>)
    requires
        db.wf(),
    ensures
        marinespecie_list_outcome(found) == db@.marinespecies.get_all(),
{
    let marinespecies = list_marinespecies(db);
    if marinespecies.len() > 0 {
        Ok(marinespecies)
    } else {
        Err(Error::NotFound { id: None })
    }
}

/// ReadOne: the marine species stored under `id`.
pub fn get_marinespecie(db: &Database, id: u64) -> (found: Result<MarineSpecie, Error>)
    requires
        db.wf(),
    ensures
        outcome(found) == db@.marinespecies.get(id),
{
    match _get_marinespecie(db, &id) {
        Some(marinespecie) => Ok(marinespecie),
        None => Err(Error::NotFound { id: Some(id) }),
    }
}

/// Of `records`, copies of those whose lowercase status is `wanted`, in
/// their order; `NotFound` where there is none. `lowered` holds the
/// lowercase status of each record, one for one.
pub fn select_by_lowered_status(
    records: &Vec<MarineSpecie>,
    lowered: &Vec<String>,
    wanted: &String,
) -> (found: Result<Vec<MarineSpecie>, Error>)
    requires
        lowered@.len() == records@.len(),
    ensures
        marinespecie_list_outcome(found) == (if with_lowered_status(
            marinespecie_views(records@),
            text_views(lowered@),
            wanted@,
        ).len() > 0 {
            Ok::<Seq<MarineSpecieView>, ErrorView>(
                with_lowered_status(marinespecie_views(records@), text_views(lowered@), wanted@),
            )
        } else {
            Err::<Seq<MarineSpecieView>, ErrorView>(ErrorView::NotFound { id: None })
        }),
{
    let ghost views = marinespecie_views(records@);
    let ghost statuses = text_views(lowered@);
    let mut matching: Vec<MarineSpecie> = Vec::new();
    let mut i: usize = 0;
    while i < records.len()
        invariant
            0 <= i <= records@.len(),
            lowered@.len() == records@.len(),
            views == marinespecie_views(records@),
            statuses == text_views(lowered@),
            marinespecie_views(matching@) == with_lowered_status(
                views.take(i as int),
                statuses.take(i as int),
                wanted@,
            ),
        decreases records@.len() - i,
    {
        if lowered[i] == *wanted {
            matching.push(records[i].copy());
        }
        proof {
            assert(views.take(i + 1).drop_last() =~= views.take(i as int));
            assert(statuses.take(i + 1).drop_last() =~= statuses.take(i as int));
        }
        i += 1;
    }
    proof {
        assert(views.take(records@.len() as int) =~= views);
        assert(statuses.take(records@.len() as int) =~= statuses);
    }
    if matching.len() > 0 {
        Ok(matching)
    } else {
        Err(Error::NotFound { id: None })
    }
}

/// FilterByStatus: the marine species whose conservation status is the one
/// asked for, letter case set aside, by ascending id. Reports `NotFound`
/// where there is none.
pub fn get_marinespecie_by_conservation_status(db: &Database, conservation_status: String) -> (found:
    Result<Vec<MarineSpecie>, Error>)
    requires
        db.wf(),
    ensures
        marinespecie_list_outcome(found) == db@.marinespecies.get_by_conservation_status(
            conservation_status@,
        ),
{
    let all = list_marinespecies(db);
    let wanted = conservation_status.as_str().to_lowercase();
    let mut lowered: Vec<String> = Vec::new();
    let mut i: usize = 0;
    while i < all.len()
        invariant
            0 <= i <= all@.len(),
            lowered@.len() == i,
            forall|j: int|
                0 <= j < i ==> (#[trigger] lowered@[j])@ == lowercase(
                    all@[j]@.conservation_status,
                ),
        decreases all@.len() - i,
    {
        lowered.push(all[i].conservation_status.as_str().to_lowercase());
        i += 1;
    }
    proof {
        lemma_with_lowered_status_is_filter(
            marinespecie_views(all@),
            text_views(lowered@),
            conservation_status@,
        );
    }
    select_by_lowered_status(&all, &lowered, &wanted)
}

/// Create: stores the payload as a new marine species of `caller`'s, created
/// at `now`, under the next id. The payload is validated and measured before
/// an id is taken, so a refused payload uses up no id. There must be an id
/// left to give out.
pub fn add_marinespecie(
    db: &mut Database,
    marinespecie_input: MarineSpecieInput,
    caller: &String,
    now: u64,
) -> (added: Result<MarineSpecie, Error>)
    requires
        old(db).wf(),
        old(db)@.marinespecies.last_id < u64::MAX,
    ensures
        final(db).wf(),
        final(db).regions() == old(db).regions(),
        (final(db)@.marinespecies, outcome(added)) == old(db)@.marinespecies.add(
            marinespecie_input@,
            caller@,
            now,
        ),
        final(db)@.taxonomies == old(db)@.taxonomies,
        added is Err ==> *final(db) == *old(db),
{
    match validate_marinespecie(&marinespecie_input) {
        Ok(_) => {},
        Err(error) => { return Err(error); },
    }
    let id: u64 = db.last_marinespecie_id() + 1;
    let marinespecie = MarineSpecie::created(id, caller, marinespecie_input, now);
    match marinespecie.check_size() {
        Ok(_) => {},
        Err(error) => { return Err(error); },
    }
    next_marinespecie_id(db);
    match do_insert_marinespecie(db, &marinespecie) {
        Ok(_) => Ok(marinespecie),
        Err(error) => Err(error),
    }
}

/// Update: replaces the payload's fields of the marine species stored under
/// `id` and dates the update `now`, if `caller` owns the record. The payload
/// is validated first, then the record is looked up, then ownership is
/// checked.
pub fn update_marinespecie(
    db: &mut Database,
    id: u64,
    marinespecie_input: MarineSpecieInput,
    caller: &String,
    now: u64,
) -> (updated: Result<MarineSpecie, Error>)
    requires
        old(db).wf(),
    ensures
        final(db).wf(),
        final(db).regions() == old(db).regions(),
        (final(db)@.marinespecies, outcome(updated)) == old(db)@.marinespecies.update(
            id,
            marinespecie_input@,
            caller@,
            now,
        ),
        final(db)@.taxonomies == old(db)@.taxonomies,
        updated is Err ==> *final(db) == *old(db),
{
    match validate_marinespecie(&marinespecie_input) {
        Ok(_) => {},
        Err(error) => { return Err(error); },
    }
    let stored = match _get_marinespecie(db, &id) {
        Some(marinespecie) => marinespecie,
        None => { return Err(Error::NotFound { id: Some(id) }); },
    };
    match authorize(&stored.researcher, caller, id) {
        Ok(_) => {},
        Err(error) => { return Err(error); },
    }
    proof {
        db.lemma_view_wf();
    }
    let marinespecie = stored.updated(marinespecie_input, now);
    match do_insert_marinespecie(db, &marinespecie) {
        Ok(_) => Ok(marinespecie),
        Err(error) => Err(error),
    }
}

/// Delete: removes the marine species stored under `id` and returns it, if
/// `caller` owns it.
pub fn delete_marinespecie(db: &mut Database, id: u64, caller: &String) -> (deleted: Result<
    MarineSpecie,
    Error,
>)
    requires
        old(db).wf(),
    ensures
        final(db).wf(),
        final(db).regions() == old(db).regions(),
        (final(db)@.marinespecies, outcome(deleted)) == old(db)@.marinespecies.delete(id, caller@),
        final(db)@.taxonomies == old(db)@.taxonomies,
        deleted is Err ==> *final(db) == *old(db),
{
    let stored = match _get_marinespecie(db, &id) {
        Some(marinespecie) => marinespecie,
        None => { return Err(Error::NotFound { id: Some(id) }); },
    };
    match authorize(&stored.researcher, caller, id) {
        Ok(_) => {},
        Err(error) => { return Err(error); },
    }
    remove_marinespecie(db, id);
    Ok(stored)
}

} // verus!
