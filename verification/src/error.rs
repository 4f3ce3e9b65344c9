//! Typed errors for shape violations found while reading a document.

use vstd::prelude::*;

use crate::node::NodeKind;

verus! {

/// The shape a schema field declares for its value.
#[derive(Debug, Clone, Copy, PartialEq, Eq, Structural)]
pub enum Shape {
    /// A primitive string.
    Str,
    /// A primitive boolean.
    Bool,
    /// An enumerated string from a closed tag set.
    Code,
    /// A single nested entity (a mapping).
    Entity,
    /// An ordered sequence of nested entities.
    EntityList,
}

/// Mathematical model of an [`ErrorKind`].
pub enum ErrorKindView {
    SchemaTypeMismatch { field: Seq<char>, expected: Shape, actual: NodeKind },
    UnrecognizedEnumValue { field: Seq<char>, value: Seq<char> },
}

/// A recoverable violation found while reading a document. A missing field
/// is not an error: accessors model absence as `None`.
#[derive(Debug, Clone, PartialEq)]
pub enum ErrorKind {
    /// Field `field` holds a value whose type tag `actual` does not match
    /// the declared shape `expected`.
    SchemaTypeMismatch { field: String, expected: Shape, actual: NodeKind },
    /// Field `field` holds the string `value`, which is not in the field's
    /// closed set of allowed tags.
    UnrecognizedEnumValue { field: String, value: String },
}

impl View for ErrorKind {
    type V = ErrorKindView;

    open spec fn view(&self) -> ErrorKindView {
        match self {
            ErrorKind::SchemaTypeMismatch { field, expected, actual } => (
            ErrorKindView::SchemaTypeMismatch {
                field: field@,
                expected: *expected,
                actual: *actual,
            }),
            ErrorKind::UnrecognizedEnumValue { field, value } => (
            ErrorKindView::UnrecognizedEnumValue { field: field@, value: value@ }),
        }
    }
}

impl DeepView for ErrorKind {
    type V = ErrorKindView;

    open spec fn deep_view(&self) -> ErrorKindView {
        self.view()
    }
}

/// Shorthand for a shape-mismatch error model.
pub open spec fn mismatch(field: Seq<char>, expected: Shape, actual: NodeKind) -> ErrorKindView {
    ErrorKindView::SchemaTypeMismatch { field, expected, actual }
}

/// Shorthand for an unrecognized-enum-value error model.
pub open spec fn unrecognized(field: Seq<char>, value: Seq<char>) -> ErrorKindView {
    ErrorKindView::UnrecognizedEnumValue { field, value }
}

} // verus!
