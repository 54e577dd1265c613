//! The operations on taxonomies.
//!
//! Each operation is one step: it either takes effect completely or returns
//! an error and leaves the database as it was. What it does is stated by the
//! function of the same name on `TaxonomyCollection`.

use crate::authorization::authorize;
use crate::database::{
    _get_taxonomy, do_insert_taxonomy, list_taxonomies, next_taxonomy_id, remove_taxonomy, Database,
};
use crate::error::Error;
use crate::model::{outcome, taxonomy_list_outcome};
use crate::taxonomy::{Taxonomy, TaxonomyInput};
use crate::validation::validate_taxonomy;
use vstd::prelude::*;

verus! {

/// ReadAll: every taxonomy, by ascending id. An empty collection is
/// reported as `NotFound`.
pub fn get_all_taxonomy(db: &Database) -> (found: Result<Vec<Taxonomy>, Error>)
    requires
        db.wf(),
    ensures
        taxonomy_list_outcome(found) == db@.taxonomies.get_all(),
{
    let taxonomies = list_taxonomies(db);
    if taxonomies.len() > 0 {
        Ok(taxonomies)
    } else {
        Err(Error::NotFound { id: None })
    }
}

/// ReadOne: the taxonomy stored under `id`.
pub fn get_taxonomy(db: &Database, id: u64) -> (found: Result<Taxonomy, Error>)
    requires
        db.wf(),
    ensures
        outcome(found) == db@.taxonomies.get(id),
{
    match _get_taxonomy(db, &id) {
        Some(taxonomy) => Ok(taxonomy),
        None => Err(Error::NotFound { id: Some(id) }),
    }
}

/// Create: stores the payload as a new taxonomy of `caller`'s, created at
/// `now`, under the next id. The payload is validated and measured before an
/// id is taken, so a refused payload uses up no id. There must be an id left
/// to give out.
pub fn add_taxonomy(db: &mut Database, taxonomy_input: TaxonomyInput, caller: &String, now: u64) -> (added:
    Result<Taxonomy, Error>)
    requires
        old(db).wf(),
        old(db)@.taxonomies.last_id < u64::MAX,
    ensures
        final(db).wf(),
        final(db).regions() == old(db).regions(),
        (final(db)@.taxonomies, outcome(added)) == old(db)@.taxonomies.add(
            taxonomy_input@,
            caller@,
            now,
        ),
        final(db)@.marinespecies == old(db)@.marinespecies,
        added is Err ==> *final(db) == *old(db),
{
    match validate_taxonomy(&taxonomy_input) {
        Ok(_) => {},
        Err(error) => { return Err(error); },
    }
    let id: u64 = db.last_taxonomy_id() + 1;
    let taxonomy = Taxonomy::created(id, caller, taxonomy_input, now);
    match taxonomy.check_size() {
        Ok(_) => {},
        Err(error) => { return Err(error); },
    }
    next_taxonomy_id(db);
    match do_insert_taxonomy(db, &taxonomy) {
        Ok(_) => Ok(taxonomy),
        Err(error) => Err(error),
    }
}

/// Update: replaces the payload's fields of the taxonomy stored under `id`
/// and dates the update `now`, if `caller` owns the record. The payload is
/// validated first, then the record is looked up, then ownership is checked.
pub fn update_taxonomy(
    db: &mut Database,
    id: u64,
    taxonomy_input: TaxonomyInput,
    caller: &String,
    now: u64,
) -> (updated: Result<Taxonomy, Error>)
    requires
        old(db).wf(),
    ensures
        final(db).wf(),
        final(db).regions() == old(db).regions(),
        (final(db)@.taxonomies, outcome(updated)) == old(db)@.taxonomies.update(
            id,
            taxonomy_input@,
            caller@,
            now,
        ),
        final(db)@.marinespecies == old(db)@.marinespecies,
        updated is Err ==> *final(db) == *old(db),
{
    match validate_taxonomy(&taxonomy_input) {
        Ok(_) => {},
        Err(error) => { return Err(error); },
    }
    let stored = match _get_taxonomy(db, &id) {
        Some(taxonomy) => taxonomy,
        None => { return Err(Error::NotFound { id: Some(id) }); },
    };
    match authorize(&stored.researcher, caller, id) {
        Ok(_) => {},
        Err(error) => { return Err(error); },
    }
    proof {
        db.lemma_view_wf();
    }
    let taxonomy = stored.updated(taxonomy_input, now);
    match do_insert_taxonomy(db, &taxonomy) {
        Ok(_) => Ok(taxonomy),
        Err(error) => Err(error),
    }
}

/// Delete: removes the taxonomy stored under `id` and returns it, if
/// `caller` owns it. Marine species that refer to it are left as they are.
pub fn delete_taxonomy(db: &mut Database, id: u64, caller: &String) -> (deleted: Result<
    Taxonomy,
    Error,
>)
    requires
        old(db).wf(),
    ensures
        final(db).wf(),
        final(db).regions() == old(db).regions(),
        (final(db)@.taxonomies, outcome(deleted)) == old(db)@.taxonomies.delete(id, caller@),
        final(db)@.marinespecies == old(db)@.marinespecies,
        deleted is Err ==> *final(db) == *old(db),
{
    let stored = match _get_taxonomy(db, &id) {
        Some(taxonomy) => taxonomy,
        None => { return Err(Error::NotFound { id: Some(id) }); },
    };
    match authorize(&stored.researcher, caller, id) {
        Ok(_) => {},
        Err(error) => { return Err(error); },
    }
    remove_taxonomy(db, id);
    Ok(stored)
}

} // verus!
