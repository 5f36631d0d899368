//! A holiday-calendar snapshot library: a keyed store of raw page documents,
//! a deterministic extractor of holiday records from a stored document, and
//! the lifecycle rules (create, read, replace, delete) over the store.

pub mod errors;
pub mod holiday;
pub mod hscraper;
pub mod parse;
pub mod server;
pub mod store;
pub mod text;
