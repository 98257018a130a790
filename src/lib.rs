//! Bulk ingestion of tab-separated movie data into a relational store, and
//! the queries served over it. Records are decoded, turned into
//! insert-if-absent writes and gathered into batches; queries are composed
//! from optional filters into parameterized statements; a movie is assembled
//! from its title, crew and principals.

use vstd::prelude::*;

pub mod error;
pub mod record;
pub mod store;
pub mod names;
pub mod titles;
pub mod episodes;
pub mod principals;
pub mod crew;
pub mod ingest;
pub mod query;
pub mod movie;
pub mod client;
pub mod api;

pub use client::init_tables;
pub use error::DBError;

verus! {

} // verus!
