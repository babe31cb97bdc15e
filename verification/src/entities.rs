//! The stored records, as the database layer hands them over, and the
//! outcomes of its queries.

use vstd::prelude::*;

pub mod example;

verus! {

/// A column value of a record that is being written: assigned a new value,
/// kept at the stored value, or not given.
#[derive(Clone, Debug, PartialEq, Eq)]
pub enum ActiveValue<T> {
    Assigned(T),
    Unchanged(T),
    NotSet,
}

/// One page of records, and how many pages there are at this page size.
#[derive(Clone, Debug, PartialEq, Eq)]
pub struct Page<T> {
    pub records: Vec<T>,
    pub total_pages: u64,
}

/// An error of the database layer: no record to act on, or any other
/// failure (described by its message).
#[derive(Clone, Debug, PartialEq, Eq)]
pub enum DbErr {
    RecordNotFound(String),
    Other(String),
}

} // verus!
