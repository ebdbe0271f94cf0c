//! What can go wrong between a request and the store.

use vstd::prelude::*;

verus! {

/// The failures that the store and the repository report.
#[derive(Clone, Copy, Debug, PartialEq, Eq, Structural)]
pub enum TodoError {
    /// No todo has the identifier that was asked for.
    NotFound,
    /// A stored row, or what a client sent, is not a well-formed todo.
    Validation,
    /// The store refused or failed the operation.
    Persistence,
}

} // verus!
