//! Viewport-aware access to metric-point Parquet data.

pub mod query;

use vstd::prelude::*;

verus! {

/// Failures returned by metric-point data inspection and querying.
#[allow(inconsistent_fields)]
#[derive(Debug, PartialEq)]
pub enum DataError {
    EmptySource,
    InvalidIdentity,
    InvalidViewport,
    InvalidQueryBudget,
    MissingColumn { name: &'static str },
    DuplicateColumn { name: String },
    IncompatibleColumnType { name: &'static str, expected: &'static str, actual: String },
    IncompatibleAdditiveColumn { name: String },
    DuckDb { message: String },
}

} // verus!
