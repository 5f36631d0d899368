//! A per-year handle over the snapshot store and the extractor. Fetching a
//! rendered page is the caller's collaborator; every function here takes the
//! store, or an already rendered document, as a plain value.

use vstd::prelude::*;

use crate::errors::{ParseError, StorageError};
use crate::holiday::Holiday;
use crate::parse::{extract_raw_rows, parsed_records, rows_to_holidays};
use crate::store::SnapshotStore;

verus! {

/// The handle for one year's snapshot and its records.
pub struct HScraper {
    pub year: u32,
}

impl HScraper {
    pub fn new(year: u32) -> (s: Self)
        ensures
            s.year == year,
    {
        HScraper { year }
    }

    /// Whether a snapshot is held for this year: a pure check, no side effect.
    pub fn snapshot_exists(&self, store: &SnapshotStore) -> (r: bool)
        requires
            store.wf(),
        ensures
            r == store@.contains_key(self.year),
    {
        store.has_snapshot(self.year)
    }

    /// The stored document for this year; `NotFound` when none is held.
    pub fn load_snapshot(&self, store: &SnapshotStore) -> (r: Result<String, StorageError>)
        requires
            store.wf(),
        ensures
            store@.contains_key(self.year) ==> r is Ok && r->Ok_0@ == store@[self.year],
            !store@.contains_key(self.year) ==> r == Result::<String, StorageError>::Err(
                StorageError::NotFound,
            ),
    {
        store.read(self.year)
    }

    /// Persists a rendered document as this year's snapshot, overwriting
    /// unconditionally, and hands the document back. The caller enforces
    /// conflict semantics before calling.
    pub fn save_snapshot(&self, store: &mut SnapshotStore, html: String) -> (r: Result<
        String,
        StorageError,
    >)
        requires
            old(store).wf(),
        ensures
            final(store).wf(),
            final(store)@ == old(store)@.insert(self.year, html@),
            r is Ok && r->Ok_0@ == html@,
    {
        let kept = html.clone();
        let _ = store.write(self.year, html);
        Ok(kept)
    }

    /// Removes this year's snapshot; `NotFound` when none is held.
    pub fn delete_snapshot(&self, store: &mut SnapshotStore) -> (r: Result<(), StorageError>)
        requires
            old(store).wf(),
        ensures
            final(store).wf(),
            old(store)@.contains_key(self.year) ==> r is Ok && final(store)@ == old(
                store,
            )@.remove(self.year),
            !old(store)@.contains_key(self.year) ==> r == Result::<(), StorageError>::Err(
                StorageError::NotFound,
            ) && final(store)@ == old(store)@,
    {
        store.delete(self.year)
    }

    /// Extracts the holiday records from a document text. Total over any
    /// text: a missing sub-element defaults per field, and a row without an
    /// event label yields no record.
    pub fn parse_holidays_from_html(&self, html: &str) -> (r: Result<Vec<Holiday>, ParseError>)
        ensures
            r is Ok,
            r->Ok_0.deep_view() == parsed_records(html@),
    {
        let rows = extract_raw_rows(html);
        Ok(rows_to_holidays(&rows))
    }

    /// The holidays of an already rendered page. One extraction path serves
    /// the live page and the stored document alike.
    pub fn get_holidays(&self, html: &str) -> (r: Result<Vec<Holiday>, ParseError>)
        ensures
            r is Ok,
            r->Ok_0.deep_view() == parsed_records(html@),
    {
        self.parse_holidays_from_html(html)
    }
}

} // verus!
