//! The dialect-capability descriptor.
//!
//! The backend is a closed set of markers, not a computation: it declares
//! which rendering path each SQL clause kind takes (no RETURNING support, a
//! Postgres-style ON CONFLICT clause, a custom batch-insert strategy), and
//! it maps every supported SQL type to the engine type that carries it.

use vstd::prelude::*;

verus! {

/// The SQLite-flavoured backend targeted by this crate.
#[derive(Debug, Copy, Clone, Hash, PartialEq, Eq, Default)]
pub struct TursoBackend;

/// Determines how a bind parameter is handed to the engine.
///
/// The query framework treats serialized parameters as opaque, while the
/// engine expects one of four concrete shapes. The variant chosen for a
/// parameter is independent of the tag of the accompanying scalar: a boolean
/// is declared `Integer` and carried as an integer 0 or 1.
#[derive(Debug, Hash, PartialEq, Eq, Clone, Copy, Structural)]
pub enum TursoType {
    Binary,
    Text,
    Double,
    Integer,
}

/// Marker: the backend accepts a Postgres-like ON CONFLICT clause.
#[derive(Debug, Copy, Clone)]
pub struct SqliteOnConflictClause;

/// Marker: the backend uses its own batch-insert rewriting strategy.
#[derive(Debug, Copy, Clone)]
pub struct SqliteBatchInsert;

/// Marker for a RETURNING clause shape. The dialect itself does not support
/// RETURNING: a query that needs one is rejected when the statement is
/// assembled, never at render time.
#[derive(Debug, Copy, Clone)]
pub struct SqliteReturningClause;

/// The SQL types this backend accepts from the query framework.
#[derive(Debug, Hash, PartialEq, Eq, Clone, Copy, Structural)]
pub enum SqlType {
    Bool,
    SmallInt,
    Integer,
    BigInt,
    Float,
    Double,
    Text,
    Binary,
    Date,
    Time,
    Timestamp,
}

/// The engine type that carries each SQL type: every integer-like type is an
/// engine integer, floats are engine doubles, and the date-and-time types
/// travel as text.
pub open spec fn metadata_spec(sql_type: SqlType) -> TursoType {
    match sql_type {
        SqlType::Bool => TursoType::Integer,
        SqlType::SmallInt => TursoType::Integer,
        SqlType::Integer => TursoType::Integer,
        SqlType::BigInt => TursoType::Integer,
        SqlType::Float => TursoType::Double,
        SqlType::Double => TursoType::Double,
        SqlType::Text => TursoType::Text,
        SqlType::Binary => TursoType::Binary,
        SqlType::Date => TursoType::Text,
        SqlType::Time => TursoType::Text,
        SqlType::Timestamp => TursoType::Text,
    }
}

impl TursoBackend {
    /// The declared engine type for a bind parameter of the given SQL type.
    pub fn metadata(sql_type: SqlType) -> (t: TursoType)
        ensures
            t == metadata_spec(sql_type),
    {
        match sql_type {
            SqlType::Bool => TursoType::Integer,
            SqlType::SmallInt => TursoType::Integer,
            SqlType::Integer => TursoType::Integer,
            SqlType::BigInt => TursoType::Integer,
            SqlType::Float => TursoType::Double,
            SqlType::Double => TursoType::Double,
            SqlType::Text => TursoType::Text,
            SqlType::Binary => TursoType::Binary,
            SqlType::Date => TursoType::Text,
            SqlType::Time => TursoType::Text,
            SqlType::Timestamp => TursoType::Text,
        }
    }
}

} // verus!
