//! Why a decode failed.

use vstd::prelude::*;

verus! {

/// A decode failure, naming what was wrong.
#[derive(Debug, PartialEq, Eq)]
pub enum DecodeError {
    /// A required field is absent; holds the field's name.
    MissingField(String),
    /// A field is present with the wrong shape; holds the field's name and
    /// the expected shape.
    TypeMismatch(String, String),
    /// A non-empty string failed its type's parse; holds the field's name,
    /// the string, and the expected type's name.
    InvalidScalarValue(String, String, String),
    /// The content payload failed to decode; holds the content type's name
    /// and the cause.
    ContentDecodeError(String, Box<DecodeError>),
}

/// The mathematical value of a `DecodeError`.
pub enum DecodeErrorView {
    MissingField(Seq<char>),
    TypeMismatch(Seq<char>, Seq<char>),
    InvalidScalarValue(Seq<char>, Seq<char>, Seq<char>),
    ContentDecodeError(Seq<char>, Box<DecodeErrorView>),
}

impl View for DecodeError {
    type V = DecodeErrorView;

    open spec fn view(&self) -> DecodeErrorView
        decreases self,
    {
        match self {
            DecodeError::MissingField(f) => DecodeErrorView::MissingField(f@),
            DecodeError::TypeMismatch(f, e) => DecodeErrorView::TypeMismatch(f@, e@),
            DecodeError::InvalidScalarValue(f, s, t) => DecodeErrorView::InvalidScalarValue(
                f@,
                s@,
                t@,
            ),
            DecodeError::ContentDecodeError(t, c) => DecodeErrorView::ContentDecodeError(
                t@,
                Box::new((**c).view()),
            ),
        }
    }
}

/// A decode result with its error replaced by the error's view.
pub open spec fn outcome<T>(r: Result<T, DecodeError>) -> Result<T, DecodeErrorView> {
    match r {
        Ok(v) => Ok(v),
        Err(e) => Err(e@),
    }
}

/// The shape names used in `TypeMismatch`.
pub open spec fn shape_string() -> Seq<char> {
    "string"@
}

pub open spec fn shape_integer() -> Seq<char> {
    "integer"@
}

pub open spec fn shape_object() -> Seq<char> {
    "object"@
}

/// The error for a required field that is absent.
pub fn missing_field(field: &str) -> (r: DecodeError)
    ensures
        r@ == DecodeErrorView::MissingField(field@),
{
    DecodeError::MissingField(field.to_owned())
}

/// The error for a field of the wrong shape.
pub fn type_mismatch(field: &str, expected: &str) -> (r: DecodeError)
    ensures
        r@ == DecodeErrorView::TypeMismatch(field@, expected@),
{
    DecodeError::TypeMismatch(field.to_owned(), expected.to_owned())
}

} // verus!
