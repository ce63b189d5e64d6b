//! The error taxonomy of the store layer.
//!
//! The boundary that consumes these operations is solely responsible for
//! translating an error kind into a transport status; the store layer never
//! formats responses itself.

use vstd::prelude::*;

verus! {

/// A row-mapping failure: the stored data could not be translated into the
/// in-memory representation.  This indicates a data-integrity problem in the
/// store, distinct from a backend failure.
#[derive(Clone, Copy, PartialEq, Eq, Structural, Debug)]
pub enum MappingError {
    /// A `created_at` column was present but its text was not a well-formed
    /// timestamp.
    TimestampParseFailed,
}

/// Every way an operation of the store layer can fail.
#[derive(Clone, Copy, PartialEq, Eq, Structural, Debug)]
pub enum TodoError {
    /// Bad or missing input (a client error): an empty title, or a
    /// non-numeric id.
    Validation,
    /// No row matches the requested id (a client error).
    NotFound,
    /// The connection pool is exhausted or the backend is unavailable
    /// (a server error).
    Pool,
    /// A statement failed at the backend (a server error).
    Store,
    /// Stored data could not be mapped to the in-memory representation
    /// (a server error).
    Mapping(MappingError),
}

impl TodoError {
    /// A short stable name for the error kind, for logging at the boundary.
    pub fn kind_name(&self) -> &'static str {
        match self {
            TodoError::Validation => "validation error",
            TodoError::NotFound => "not found",
            TodoError::Pool => "pool error",
            TodoError::Store => "store error",
            TodoError::Mapping(_) => "mapping error",
        }
    }
}

} // verus!
