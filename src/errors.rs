//! Failures that the store reports.
use vstd::prelude::*;

verus! {

/// A failed store operation, with a human-readable detail.
#[derive(Debug)]
pub enum DataStoreError {
    /// A write was refused: a constraint failed or no id was left.
    InsertError(String),
    /// A read or an aggregate failed.
    QueryError(String),
}

impl DataStoreError {
    /// The human-readable detail carried by the error.
    pub fn message(&self) -> (r: String)
        ensures
            r@ == match self {
                DataStoreError::InsertError(d) => d@,
                DataStoreError::QueryError(d) => d@,
            },
    {
        match self {
            DataStoreError::InsertError(d) => d.clone(),
            DataStoreError::QueryError(d) => d.clone(),
        }
    }
}

} // verus!
