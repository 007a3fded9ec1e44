//! Failures of store operations.

use vstd::prelude::*;

verus! {

/// The classes of failure a store operation can end in.
#[derive(Debug, Clone, Copy, PartialEq, Eq, Structural)]
pub enum ErrorKind {
    /// The storage root could not be reached.
    Connection,
    /// Vectors of differing length, or a table or batch of the wrong layout.
    Schema,
    /// The operation targets a table that does not exist.
    NotFound,
    /// The query vector was unusable or the search itself failed.
    Query,
    /// Any other failure to read, write or drop.
    Io,
}

/// A failed operation: its class, and a message that names the step that
/// failed and the cause.
#[derive(Debug, Clone)]
pub struct StoreError {
    pub kind: ErrorKind,
    pub message: String,
}

/// A `StoreError` as a mathematical value.
pub ghost struct StoreErrorView {
    pub kind: ErrorKind,
    pub message: Seq<char>,
}

impl View for StoreError {
    type V = StoreErrorView;

    open spec fn view(&self) -> StoreErrorView {
        StoreErrorView { kind: self.kind, message: self.message@ }
    }
}

impl StoreError {
    /// The description handed to callers that only take text.
    pub fn to_message(&self) -> (r: String)
        ensures
            r@ == self.message@,
    {
        self.message.clone()
    }
}

} // verus!
