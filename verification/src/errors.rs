//! The failure taxonomy of the library: storage faults, fetch faults, and
//! extractor configuration faults.

use vstd::prelude::*;

verus! {

/// A fault of the snapshot store.
#[derive(Clone, Copy, Debug, PartialEq, Eq, Structural)]
pub enum StorageError {
    /// No snapshot is held for the requested year.
    NotFound,
    /// The backing medium failed while reading, writing or deleting.
    Io,
}

/// A fault of the page-fetching collaborator, carrying its description.
#[derive(Debug)]
pub struct FetchError {
    pub message: String,
}

/// A fault of the extractor's own configuration. Extraction is total over
/// any document text, so this only covers a malformed selector, which a
/// fixed selector set never produces.
#[derive(Clone, Copy, Debug, PartialEq, Eq, Structural)]
pub enum ParseError {
    InvalidSelector,
}

} // verus!
