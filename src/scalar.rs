//! Lenient decoding of optional scalar fields: an absent field, an explicit
//! null and an empty string all decode to "not set"; any other string goes
//! through the scalar type's own parse.

use vstd::prelude::*;
use crate::error::{outcome, shape_string, type_mismatch, DecodeError, DecodeErrorView};
use crate::wire::WireValue;

verus! {

/// A scalar type carried on the wire as a string.
pub trait ScalarKind {
    type Value;

    /// The value that a non-empty string parses to, if it is valid.
    spec fn parse_spec(s: String) -> Option<Self::Value>;

    /// The string a value is written as.
    spec fn text_spec(v: Self::Value) -> String;

    /// The values that parsing a non-empty string can give.
    spec fn valid(v: Self::Value) -> bool;

    /// The type's name, for diagnostics.
    spec fn kind_name_spec() -> Seq<char>;

    fn parse(s: String) -> (r: Option<Self::Value>)
        ensures
            r == Self::parse_spec(s),
    ;

    fn text(v: Self::Value) -> (r: String)
        ensures
            r == Self::text_spec(v),
    ;

    fn kind_name() -> (r: String)
        ensures
            r@ == Self::kind_name_spec(),
    ;

    /// What a non-empty string parses to is valid.
    proof fn lemma_parsed_valid(s: String)
        requires
            s@.len() > 0,
            Self::parse_spec(s) is Some,
        ensures
            Self::valid(Self::parse_spec(s)->0),
    ;

    /// A valid value is written as a non-empty string that parses back to it.
    proof fn lemma_text_parses_back(v: Self::Value)
        requires
            Self::valid(v),
        ensures
            Self::text_spec(v)@.len() > 0,
            Self::parse_spec(Self::text_spec(v)) == Some(v),
    ;
}

/// What decoding the optional scalar field `field`, whose wire value is
/// `value` (`None` when absent), gives.
pub open spec fn optional_scalar_spec<K: ScalarKind>(field: Seq<char>, value: Option<WireValue>) -> Result<
    Option<K::Value>,
    DecodeErrorView,
> {
    match value {
        None => Ok(None),
        Some(WireValue::Null) => Ok(None),
        Some(WireValue::Str(s)) => if s@.len() == 0 {
            Ok(None)
        } else {
            match K::parse_spec(s) {
                Some(v) => Ok(Some(v)),
                None => Err(DecodeErrorView::InvalidScalarValue(field, s@, K::kind_name_spec())),
            }
        },
        Some(_) => Err(DecodeErrorView::TypeMismatch(field, shape_string())),
    }
}

/// The wire value that an optional scalar is written as: `None` for an
/// absent field.
pub open spec fn optional_scalar_wire<K: ScalarKind>(v: Option<K::Value>) -> Option<WireValue> {
    match v {
        None => None,
        Some(x) => Some(WireValue::Str(K::text_spec(x))),
    }
}

/// Decodes the optional scalar field `field` from its wire value (`None`
/// when the field is absent).
pub fn decode_optional_scalar<K: ScalarKind>(field: &str, value: Option<WireValue>) -> (r: Result<
    Option<K::Value>,
    DecodeError,
>)
    ensures
        outcome(r) == optional_scalar_spec::<K>(field@, value),
{
    match value {
        None => Ok(None),
        Some(WireValue::Null) => Ok(None),
        Some(WireValue::Str(s)) => {
            if s.as_str().is_empty() {
                Ok(None)
            } else {
                let raw = s.clone();
                match K::parse(s) {
                    Some(v) => Ok(Some(v)),
                    None => Err(
                        DecodeError::InvalidScalarValue(field.to_owned(), raw, K::kind_name()),
                    ),
                }
            }
        },
        Some(_) => Err(type_mismatch(field, "string")),
    }
}

/// Encodes an optional scalar: `None` becomes an absent field.
pub fn encode_optional_scalar<K: ScalarKind>(v: Option<K::Value>) -> (r: Option<WireValue>)
    ensures
        r == optional_scalar_wire::<K>(v),
{
    match v {
        None => None,
        Some(x) => Some(WireValue::Str(K::text(x))),
    }
}

/// A decoded optional scalar is `None` or valid.
pub proof fn lemma_decoded_scalar_valid<K: ScalarKind>(field: Seq<char>, value: Option<WireValue>)
    requires
        optional_scalar_spec::<K>(field, value) is Ok,
    ensures
        optional_scalar_spec::<K>(field, value)->Ok_0 matches Some(v) ==> K::valid(v),
{
    if let Some(WireValue::Str(s)) = value {
        if s@.len() > 0 && K::parse_spec(s) is Some {
            K::lemma_parsed_valid(s);
        }
    }
}

/// Encoding a valid optional scalar and decoding it again gives it back.
pub proof fn lemma_scalar_round_trip<K: ScalarKind>(field: Seq<char>, v: Option<K::Value>)
    requires
        v matches Some(x) ==> K::valid(x),
    ensures
        optional_scalar_spec::<K>(field, optional_scalar_wire::<K>(v)) == Ok::<_, DecodeErrorView>(v),
{
    if let Some(x) = v {
        K::lemma_text_parses_back(x);
    }
}

/// An absent field, an explicit null and an empty string decode to one
/// and the same value: `None`.
pub proof fn law_unset_forms_agree<K: ScalarKind>(field: Seq<char>, empty: String)
    requires
        empty@.len() == 0,
    ensures
        optional_scalar_spec::<K>(field, None) == Ok::<_, DecodeErrorView>(None::<K::Value>),
        optional_scalar_spec::<K>(field, Some(WireValue::Null)) == Ok::<_, DecodeErrorView>(None::<K::Value>),
        optional_scalar_spec::<K>(field, Some(WireValue::Str(empty))) == Ok::<_, DecodeErrorView>(None::<K::Value>),
{
}

/// A non-empty string that parses decodes to what it parses to, and that
/// value is written back as a string that decodes to it again.
pub proof fn law_valid_string_decodes<K: ScalarKind>(field: Seq<char>, s: String)
    requires
        s@.len() > 0,
        K::parse_spec(s) is Some,
    ensures
        optional_scalar_spec::<K>(field, Some(WireValue::Str(s))) == Ok::<_, DecodeErrorView>(Some(K::parse_spec(s)->0)),
        optional_scalar_wire::<K>(Some(K::parse_spec(s)->0)) == Some(
            WireValue::Str(K::text_spec(K::parse_spec(s)->0)),
        ),
        optional_scalar_spec::<K>(field, optional_scalar_wire::<K>(Some(K::parse_spec(s)->0)))
            == Ok::<_, DecodeErrorView>(Some(K::parse_spec(s)->0)),
{
    K::lemma_parsed_valid(s);
    lemma_scalar_round_trip::<K>(field, Some(K::parse_spec(s)->0));
}

/// A non-empty string that does not parse is an `InvalidScalarValue` error
/// naming the field, the string and the type.
pub proof fn law_invalid_string_fails<K: ScalarKind>(field: Seq<char>, s: String)
    requires
        s@.len() > 0,
        K::parse_spec(s) is None,
    ensures
        optional_scalar_spec::<K>(field, Some(WireValue::Str(s))) == Err::<Option<K::Value>, _>(
            DecodeErrorView::InvalidScalarValue(field, s@, K::kind_name_spec()),
        ),
{
}

} // verus!
