//! Retrieval, cleaning, cataloguing and keyword search of package documentation
//! pages. Pages are fetched elsewhere; this library takes their markup, isolates
//! the content region, strips presentation noise, converts it to markdown,
//! parses "all items" listings into a catalog and ranks catalog entries
//! against a keyword with a throwaway full-text index.

use vstd::prelude::*;

pub mod docs;
pub mod entity;
pub mod error;
pub mod html;
pub mod resource;
pub mod sanitize;
pub mod search;
pub mod text;
pub mod tool;

verus! {

/// Number of entries that one catalog search returns at most.
pub const SEARCH_LIMIT: usize = 10;

/// Number of package summaries requested from the registry.
pub const REGISTRY_PAGE_SIZE: u64 = 10;

} // verus!
