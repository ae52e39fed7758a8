//! A verified resource registry for a document-compilation engine.
//!
//! The library keeps the process-wide compilation context that a host
//! runtime builds up incrementally: decoded fonts paired with their
//! metadata index, a keyed store of virtual files whose slots are
//! populated exactly once (or overwritten explicitly for caller-authored
//! sources), and the immutable environment of named string inputs.  The
//! compiler itself and the export routines are outside collaborators;
//! this crate provides them a consistent, read-only view.

use vstd::prelude::*;

pub mod env;
pub mod fonts;
pub mod ids;
pub mod laws;
pub mod registry;
pub mod store;

verus! {

/// True exactly when `page` is a valid zero-based index into a document
/// of `count` pages.  Export routines must check this before indexing.
pub fn page_in_bounds(page: usize, count: usize) -> (r: bool)
    ensures
        r == (page < count),
{
    page < count
}

} // verus!
