//! The boundary to `serde_json`: a mathematical model of a JSON document and
//! the few operations of `serde_json::Value` that the decoder reads it with.
//!
//! Everything in this file that carries a contract without a proof is a
//! statement about `serde_json`; the rest of the crate is proved from these
//! statements.

use serde_json::Value;
use vstd::prelude::*;

verus! {

/// `serde_json::Value`, an opaque tree as far as proofs are concerned. What it
/// holds is given by [`json_of`].
#[verifier::external_type_specification]
#[verifier::external_body]
pub struct ExValue(serde_json::Value);

/// `serde_json::Number`. Nothing in this crate looks inside a number.
#[verifier::external_type_specification]
#[verifier::external_body]
pub struct ExNumber(serde_json::Number);

/// `serde_json::Error`, the parser's own error. Its text is [`error_text`].
#[verifier::external_type_specification]
#[verifier::external_body]
pub struct ExError(serde_json::Error);

/// The six kinds of JSON value.
#[derive(Clone, Copy, Debug, PartialEq, Eq, Structural)]
pub enum JsonKind {
    Null,
    Boolean,
    Number,
    String,
    Array,
    Object,
}

/// A JSON document as a mathematical value.
pub enum Json {
    Null,
    Bool(bool),
    Number(serde_json::Number),
    String(Seq<char>),
    Array(Seq<Json>),
    Object(Map<Seq<char>, Json>),
}

impl Json {
    /// Which of the six kinds this value is.
    pub open spec fn kind(self) -> JsonKind {
        match self {
            Json::Null => JsonKind::Null,
            Json::Bool(_) => JsonKind::Boolean,
            Json::Number(_) => JsonKind::Number,
            Json::String(_) => JsonKind::String,
            Json::Array(_) => JsonKind::Array,
            Json::Object(_) => JsonKind::Object,
        }
    }

    /// The fields of an object. A value of any other kind has none.
    pub open spec fn fields(self) -> Map<Seq<char>, Json> {
        match self {
            Json::Object(fields) => fields,
            _ => Map::empty(),
        }
    }
}

/// The document that a `serde_json::Value` holds.
pub uninterp spec fn json_of(v: Value) -> Json;

/// What `serde_json::from_str::<Value>` makes of a text: the document it
/// describes, or the parser's message where the parser rejects the text.
pub uninterp spec fn parsed(text: Seq<char>) -> Result<Json, Seq<char>>;

/// The text that a `serde_json::Error` displays.
pub uninterp spec fn error_text(e: serde_json::Error) -> Seq<char>;

/// The documents held by a sequence of values, in order.
pub open spec fn jsons_of(items: Seq<Value>) -> Seq<Json> {
    items.map_values(|v: Value| json_of(v))
}

/// `serde_json::from_str::<Value>`: parses a text as one JSON document. The
/// contract claims only that the outcome is a function of the text, which
/// [`parsed`] names: on success the value holds that document, on failure the
/// error displays that message.
#[verifier::external_body]
pub(crate) fn parse_value(text: &str) -> (r: Result<Value, serde_json::Error>)
    ensures
        match r {
            Ok(v) => parsed(text@) == Ok::<Json, Seq<char>>(json_of(v)),
            Err(e) => parsed(text@) == Err::<Json, Seq<char>>(error_text(e)),
        },
{
    serde_json::from_str::<Value>(text)
}

/// `<serde_json::Error as Display>`, through `to_string`: the message of a
/// parse error, with its line and column.
#[verifier::external_body]
pub(crate) fn error_message(e: &serde_json::Error) -> (r: String)
    ensures
        r@ == error_text(*e),
{
    e.to_string()
}

/// Tells the variants of `serde_json::Value` apart. The contract claims that
/// the model has the kind of the variant.
#[verifier::external_body]
pub(crate) fn kind_of(v: &Value) -> (k: JsonKind)
    ensures
        k == json_of(*v).kind(),
{
    match v {
        Value::Null => JsonKind::Null,
        Value::Bool(_) => JsonKind::Boolean,
        Value::Number(_) => JsonKind::Number,
        Value::String(_) => JsonKind::String,
        Value::Array(_) => JsonKind::Array,
        Value::Object(_) => JsonKind::Object,
    }
}

/// `Value::get` with a string index: the member of an object under a key.
/// `None` where the value is no object or the object has no such key.
#[verifier::external_body]
pub(crate) fn member<'a>(v: &'a Value, key: &str) -> (r: Option<&'a Value>)
    ensures
        match r {
            Some(x) => json_of(*v).fields().contains_key(key@) && json_of(*v).fields()[key@]
                == json_of(*x),
            None => !json_of(*v).fields().contains_key(key@),
        },
{
    v.get(key)
}

/// `Value::as_str`: the text of a string value, `None` for any other kind.
pub assume_specification[ Value::as_str ](v: &Value) -> (r: Option<&str>)
    ensures
        match r {
            Some(s) => json_of(*v) == Json::String(s@),
            None => !(json_of(*v) is String),
        },
;

/// `Value::as_bool`: the truth value of a boolean, `None` for any other kind.
pub assume_specification[ Value::as_bool ](v: &Value) -> (r: Option<bool>)
    ensures
        match r {
            Some(b) => json_of(*v) == Json::Bool(b),
            None => !(json_of(*v) is Bool),
        },
;

/// `Value::as_array`: the elements of an array, `None` for any other kind.
pub assume_specification[ Value::as_array ](v: &Value) -> (r: Option<&Vec<Value>>)
    ensures
        match r {
            Some(items) => json_of(*v) == Json::Array(jsons_of(items@)),
            None => !(json_of(*v) is Array),
        },
;

/// `<Value as Clone>::clone`: the copy holds the same document.
pub assume_specification[ <Value as Clone>::clone ](v: &Value) -> (r: Value)
    ensures
        json_of(r) == json_of(*v),
;

} // verus!
