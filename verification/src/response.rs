//! Plain mirror of the upstream catalog document's shape.
//!
//! The transport layer decodes the catalog document into these shapes and
//! converts them into [`crate::api::Catalog`] before the matcher runs.

use vstd::prelude::*;

verus! {

/// Top-level object in the catalog document: one page and its threads.
pub struct APIPage {
    pub page: i32,
    pub threads: Vec<APIThread>,
}

/// Partial schema for each thread summary in the catalog document.
pub struct APIThread {
    pub no: i32,
    pub sub: String,
    pub bumplimit: bool,
}

} // verus!
