//! The members of one object: whether a field is there, and whether its value
//! is of the kind that the schema expects.
//!
//! A required field must be present with a value of the expected kind. An
//! optional field may be absent; where it is present, its value must be of
//! the expected kind, as that of a required field must. `null` is a kind of
//! its own, so a field that holds `null` is present with the wrong kind of
//! value, be it required or optional. Fields that the schema does not name
//! are never looked at.

use crate::error::{DecodeError, DecodeErrorView};
use crate::json::{json_of, kind_of, member, Json, JsonKind};
use crate::path::{member_path, member_path_text};
use crate::schema::view_of_option;
use serde_json::Value;
use vstd::prelude::*;
use vstd::string::StringExecFns;

verus! {

/// The value at `at`, provided it is of the expected kind.
pub open spec fn of_kind(j: Json, at: Seq<char>, kind: JsonKind) -> Result<Json, DecodeErrorView> {
    if j.kind() == kind {
        Ok(j)
    } else {
        Err(DecodeErrorView::TypeMismatch(at, kind, j.kind()))
    }
}

/// The value of the field `name` of the object at `at`, whatever its kind.
pub open spec fn present(fields: Map<Seq<char>, Json>, at: Seq<char>, name: Seq<char>) -> Result<
    Json,
    DecodeErrorView,
> {
    if fields.contains_key(name) {
        Ok(fields[name])
    } else {
        Err(DecodeErrorView::MissingField(member_path(at, name)))
    }
}

/// The value of a required field.
pub open spec fn required(
    fields: Map<Seq<char>, Json>,
    at: Seq<char>,
    name: Seq<char>,
    kind: JsonKind,
) -> Result<Json, DecodeErrorView> {
    match present(fields, at, name) {
        Ok(j) => of_kind(j, member_path(at, name), kind),
        Err(e) => Err(e),
    }
}

/// The value of an optional field, `None` where the object has no such
/// field.
pub open spec fn optional(
    fields: Map<Seq<char>, Json>,
    at: Seq<char>,
    name: Seq<char>,
    kind: JsonKind,
) -> Result<Option<Json>, DecodeErrorView> {
    if !fields.contains_key(name) {
        Ok(None)
    } else {
        match of_kind(fields[name], member_path(at, name), kind) {
            Ok(j) => Ok(Some(j)),
            Err(e) => Err(e),
        }
    }
}

/// The text of an optional string.
pub open spec fn text_of_option(j: Option<Json>) -> Option<Seq<char>> {
    match j {
        Some(value) => Some(value->String_0),
        None => None,
    }
}

/// The truth value of an optional boolean.
pub open spec fn flag_of_option(j: Option<Json>) -> Option<bool> {
    match j {
        Some(value) => Some(value->Bool_0),
        None => None,
    }
}

/// What a lookup found, as a document.
pub open spec fn found(r: Result<&Value, DecodeError>) -> Result<Json, DecodeErrorView> {
    match r {
        Ok(v) => Ok(json_of(*v)),
        Err(e) => Err(e@),
    }
}

/// What a lookup of an optional field found, as a document.
pub open spec fn found_option(r: Result<Option<&Value>, DecodeError>) -> Result<
    Option<Json>,
    DecodeErrorView,
> {
    match r {
        Ok(Some(v)) => Ok(Some(json_of(*v))),
        Ok(None) => Ok(None),
        Err(e) => Err(e@),
    }
}

/// Checks that a value is of the expected kind.
pub fn check_kind<'a>(v: &'a Value, at: &str, kind: JsonKind) -> (r: Result<
    &'a Value,
    DecodeError,
>)
    ensures
        found(r) == of_kind(json_of(*v), at@, kind),
        r matches Ok(x) ==> x == v,
{
    let actual = kind_of(v);
    if actual == kind {
        Ok(v)
    } else {
        Err(DecodeError::TypeMismatch(String::from_str(at), kind, actual))
    }
}

/// Looks up a field that must be there, whatever its kind.
pub fn get_present<'a>(v: &'a Value, at: &str, name: &str) -> (r: Result<&'a Value, DecodeError>)
    ensures
        found(r) == present(json_of(*v).fields(), at@, name@),
{
    match member(v, name) {
        Some(x) => Ok(x),
        None => Err(DecodeError::MissingField(member_path_text(at, name))),
    }
}

/// Looks up a required field.
pub fn get_required<'a>(v: &'a Value, at: &str, name: &str, kind: JsonKind) -> (r: Result<
    &'a Value,
    DecodeError,
>)
    ensures
        found(r) == required(json_of(*v).fields(), at@, name@, kind),
{
    match member(v, name) {
        Some(x) => {
            let actual = kind_of(x);
            if actual == kind {
                Ok(x)
            } else {
                Err(DecodeError::TypeMismatch(member_path_text(at, name), kind, actual))
            }
        },
        None => Err(DecodeError::MissingField(member_path_text(at, name))),
    }
}

/// Looks up an optional field.
pub fn get_optional<'a>(v: &'a Value, at: &str, name: &str, kind: JsonKind) -> (r: Result<
    Option<&'a Value>,
    DecodeError,
>)
    ensures
        found_option(r) == optional(json_of(*v).fields(), at@, name@, kind),
{
    match member(v, name) {
        Some(x) => {
            let actual = kind_of(x);
            if actual == kind {
                Ok(Some(x))
            } else {
                Err(DecodeError::TypeMismatch(member_path_text(at, name), kind, actual))
            }
        },
        None => Ok(None),
    }
}

/// Copies the text out of a value known to be a string.
pub(crate) fn text_of(v: &Value) -> (r: String)
    requires
        json_of(*v) is String,
    ensures
        r@ == json_of(*v)->String_0,
{
    String::from_str(v.as_str().unwrap())
}

/// Copies the text out of an optional value known to be a string.
pub(crate) fn optional_text_of(v: Option<&Value>) -> (r: Option<String>)
    requires
        v matches Some(x) ==> json_of(*x) is String,
    ensures
        view_of_option(r) == text_of_option(
            match v {
                Some(x) => Some(json_of(*x)),
                None => None,
            },
        ),
{
    match v {
        Some(x) => Some(text_of(x)),
        None => None,
    }
}

/// Reads the truth value out of an optional value known to be a boolean.
pub(crate) fn optional_flag_of(v: Option<&Value>) -> (r: Option<bool>)
    requires
        v matches Some(x) ==> json_of(*x) is Bool,
    ensures
        r == flag_of_option(
            match v {
                Some(x) => Some(json_of(*x)),
                None => None,
            },
        ),
{
    match v {
        Some(x) => Some(x.as_bool().unwrap()),
        None => None,
    }
}

} // verus!
