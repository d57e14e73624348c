//! The ways an operation on the store can fail.

use vstd::prelude::*;

verus! {

/// An expected failure of a store operation. Neither leaves any trace in
/// the table.
#[derive(Debug)]
pub enum StoreError {
    /// A student with this email address is already stored.
    DuplicateEmail(String),
    /// No record has the identifier that was asked for.
    NotFound,
}

} // verus!
