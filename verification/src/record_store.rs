//! The durable ordered map that the records of one collection are kept in.

use crate::error::{Error, ErrorView};
use crate::listing::{ascending_keys, lemma_lists_is_ascending_keys, lists};
use crate::stable::{
    map_entries, map_get, map_init, map_insert, map_iter, map_region, map_remove, no_entries,
    region_number, region_opens, region_pages, Region, StableMap,
};
use vstd::prelude::*;

verus! {

/// The most bytes that the stored form of one record may take.
pub const MAX_RECORD_SIZE: usize = 1024;

/// Records in their stored form, by id.
pub struct RecordStore {
    map: StableMap,
}

impl RecordStore {
    /// The stored form of every record, by id.
    pub closed spec fn entries(self) -> Map<u64, Seq<u8>> {
        map_entries(self.map)
    }

    /// The number of the region that the records are kept in.
    pub closed spec fn region(self) -> u8 {
        map_region(self.map)
    }

    /// The store kept in `region`, or a new empty one where the region
    /// holds none: on first use the store is empty. It takes the region for
    /// its own. Of a region that was written to, the entries are what the
    /// region held. The region must be one that can be opened.
    pub fn init(region: Region) -> (store: RecordStore)
        requires
            region_opens(region),
        ensures
            store.region() == region_number(region),
            region_pages(region) == 0 ==> store.entries() == no_entries(),
    {
        RecordStore { map: map_init(region) }
    }

    /// The stored form under `key`, if there is one.
    pub fn get(&self, key: u64) -> (value: Option<Vec<u8>>)
        ensures
            match value {
                Some(bytes) => self.entries().contains_key(key) && self.entries()[key] == bytes@,
                None => !self.entries().contains_key(key),
            },
    {
        map_get(&self.map, key)
    }

    /// Stores `value` under `key`, in place of what was stored there. Fails
    /// with `EncodingError`, and stores nothing, where `value` is longer than
    /// `MAX_RECORD_SIZE`.
    pub fn insert(&mut self, key: u64, value: Vec<u8>) -> (stored: Result<(), Error>)
        ensures
            final(self).region() == old(self).region(),
            match stored {
                Ok(_) => value@.len() <= MAX_RECORD_SIZE && final(self).entries() == old(
                    self,
                ).entries().insert(key, value@),
                Err(error) => value@.len() > MAX_RECORD_SIZE && *final(self) == *old(self)
                    && error@ == (ErrorView::EncodingError {
                    size: value@.len() as usize,
                    max_size: MAX_RECORD_SIZE,
                }),
            },
    {
        let size: usize = value.len();
        if size > MAX_RECORD_SIZE {
            return Err(Error::EncodingError { size, max_size: MAX_RECORD_SIZE });
        }
        map_insert(&mut self.map, key, value);
        Ok(())
    }

    /// Deletes the entry under `key` and returns its stored form, if there
    /// was one.
    pub fn remove(&mut self, key: u64) -> (removed: Option<Vec<u8>>)
        ensures
            final(self).entries() == old(self).entries().remove(key),
            final(self).region() == old(self).region(),
            match removed {
                Some(bytes) => old(self).entries().contains_key(key) && old(self).entries()[key]
                    == bytes@,
                None => !old(self).entries().contains_key(key),
            },
    {
        map_remove(&mut self.map, key)
    }

    /// Every entry, in ascending order of the keys.
    pub fn iterate(&self) -> (listed: Vec<(u64, Vec<u8>)>)
        ensures
            lists(listed@.map_values(|entry: (u64, Vec<u8>)| entry.0), self.entries().dom()),
            listed@.map_values(|entry: (u64, Vec<u8>)| entry.0) == ascending_keys(
                self.entries().dom(),
            ),
            forall|i: int|
                0 <= i < listed@.len() ==> self.entries().contains_key(#[trigger] listed@[i].0)
                    && self.entries()[listed@[i].0] == listed@[i].1@,
    {
        let listed = map_iter(&self.map);
        proof {
            let keys = listed@.map_values(|entry: (u64, Vec<u8>)| entry.0);
            assert forall|key: u64| #[trigger]
                self.entries().dom().contains(key) implies exists|i: int|
                0 <= i < keys.len() && #[trigger] keys[i] == key by {
                let at = choose|i: int| 0 <= i < listed@.len() && #[trigger] listed@[i].0 == key;
                assert(keys[at] == key);
            }
            lemma_lists_is_ascending_keys(keys, self.entries().dom());
        }
        listed
    }
}

} // verus!
