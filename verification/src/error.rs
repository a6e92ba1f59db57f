//! The one way a decode fails: a single typed reason, located by path.

use crate::json::JsonKind;
use vstd::prelude::*;

verus! {

/// Why a text was rejected. Every failure is terminal for the call that met
/// it, and no partial value comes with it.
#[derive(Debug, PartialEq, Eq)]
pub enum DecodeError {
    /// The parser rejects the text. Carries the parser's message.
    MalformedJson(String),
    /// The text is JSON, but its top level is not an object.
    SchemaMismatch,
    /// A required field is absent. Carries the path of the field.
    MissingField(String),
    /// A field is present with the wrong kind of value. Carries the path of
    /// the field, the kind that the schema expects and the kind found.
    TypeMismatch(String, JsonKind, JsonKind),
}

/// A [`DecodeError`] with its texts as sequences of characters.
pub enum DecodeErrorView {
    MalformedJson(Seq<char>),
    SchemaMismatch,
    MissingField(Seq<char>),
    TypeMismatch(Seq<char>, JsonKind, JsonKind),
}

impl View for DecodeError {
    type V = DecodeErrorView;

    open spec fn view(&self) -> DecodeErrorView {
        match *self {
            DecodeError::MalformedJson(message) => DecodeErrorView::MalformedJson(message@),
            DecodeError::SchemaMismatch => DecodeErrorView::SchemaMismatch,
            DecodeError::MissingField(path) => DecodeErrorView::MissingField(path@),
            DecodeError::TypeMismatch(path, expected, actual) => DecodeErrorView::TypeMismatch(
                path@,
                expected,
                actual,
            ),
        }
    }
}

impl DecodeErrorView {
    /// Whether the error names a place at or below the path `at`.
    pub open spec fn located_within(self, at: Seq<char>) -> bool {
        match self {
            DecodeErrorView::MissingField(path) => at.is_prefix_of(path),
            DecodeErrorView::TypeMismatch(path, _, _) => at.is_prefix_of(path),
            _ => false,
        }
    }
}

/// The outcome of a decode, seen through the views of its two sides.
pub open spec fn outcome<T: View>(r: Result<T, DecodeError>) -> Result<T::V, DecodeErrorView> {
    match r {
        Ok(value) => Ok(value@),
        Err(error) => Err(error@),
    }
}

} // verus!
