//! A catalog of blog posts scanned from a directory tree and cached for a
//! time to live. `meta` holds a post's data, `catalog` the posts keyed by id
//! and the assembly of a scan, `cache` the decisions on when to scan again,
//! and `error` the ways a query fails.
use vstd::prelude::*;

pub mod cache;
pub mod catalog;
pub mod error;
pub mod meta;

verus! {

} // verus!
