//! Who may change a record: the researcher who created it, and nobody else.

use crate::error::{Error, ErrorView};
use vstd::prelude::*;

verus! {

/// Whether `caller` may change a record that `researcher` owns.
pub open spec fn is_owner(researcher: Seq<char>, caller: Seq<char>) -> bool {
    researcher == caller
}

/// Lets the owner of record `record_id` pass and fails with `NotAuthorized`
/// for every other caller.
pub fn authorize(researcher: &String, caller: &String, record_id: u64) -> (checked: Result<
    (),
    Error,
>)
    ensures
        match checked {
            Ok(_) => is_owner(researcher@, caller@),
            Err(error) => !is_owner(researcher@, caller@) && error@ == (ErrorView::NotAuthorized {
                record_id,
            }),
        },
{
    if *researcher == *caller {
        Ok(())
    } else {
        Err(Error::NotAuthorized { record_id })
    }
}

} // verus!
