//! A SQL dialect-adaptation layer for an embedded relational database engine
//! that exchanges dynamically typed scalar values.
//!
//! The crate bridges a statically typed query-building framework and an
//! engine whose wire values are integers, reals, text, blobs, or null: it
//! renders dialect-correct SQL text, collects bind parameters in placeholder
//! order, rewrites batch inserts, and materializes returned rows into
//! name-indexed accessors.

use vstd::prelude::*;

pub mod ast_walk;
pub mod backend;
pub mod batch_insert;
pub mod bind_collector;
pub mod connection;
pub mod limit_offset;
pub mod query_builder;
pub mod row;
pub mod text;
pub mod types;
pub mod value;

verus! {

/// Uniform database error carrying the engine's original message.
pub struct TursoError {
    pub message: String,
}

} // verus!
