//! The failure taxonomy of the document model. Every failure is local and
//! recoverable: no operation leaves partial state behind, and no operation
//! panics on caller-supplied invalid input.

use vstd::prelude::*;

verus! {

/// Why an operation on a [`crate::Layer`] or [`crate::Drawing`] was refused.
#[derive(Clone, Copy, Debug, PartialEq, Eq, Structural)]
pub enum Error {
    /// A stroke instruction carried fewer than two points.
    ValidationError,
    /// `add_layer` was called with a name that is already registered.
    DuplicateNameError,
    /// An operation referenced a layer name that does not exist.
    NotFoundError,
    /// Undo or redo was requested past the available history range.
    HistoryBoundaryError,
    /// A layer reorder targeted an index outside the order list.
    OrderingError,
}

impl Error {
    /// A human-readable description of the failure, for callers that would
    /// otherwise reach for a `Display` implementation.
    pub fn message(&self) -> (r: String)
        ensures
            self is ValidationError ==> r@ == "Stroke must have at least 2 points."@,
            self is DuplicateNameError ==> r@ == "Layer already exists."@,
            self is NotFoundError ==> r@ == "Layer not found."@,
            self is HistoryBoundaryError ==> r@ == "History boundary reached."@,
            self is OrderingError ==> r@ == "Layer cannot be moved there."@,
    {
        match self {
            Error::ValidationError => String::from_str("Stroke must have at least 2 points."),
            Error::DuplicateNameError => String::from_str("Layer already exists."),
            Error::NotFoundError => String::from_str("Layer not found."),
            Error::HistoryBoundaryError => String::from_str("History boundary reached."),
            Error::OrderingError => String::from_str("Layer cannot be moved there."),
        }
    }
}

} // verus!
