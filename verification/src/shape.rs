//! Which documents an entity accepts, and what it reads from them.
//!
//! Decoding is defined as a search for the first defect. This file says the
//! same thing from the other side: a document is accepted when it has every
//! required field with the right kind of value, no optional field with a wrong
//! one, and nested values that are accepted in turn; the entity read from it
//! holds exactly the values of its fields. Each entity comes with a proof that
//! the two descriptions agree, and that an error, when there is one, names a
//! place at or below the path at which the entity was found.

use crate::decode::{decoded_items, decoded_optional, decoded_optional_items, decoded_prefix, Decode};
use crate::error::DecodeErrorView;
use crate::field::{flag_of_option, optional, present, required, text_of_option};
use crate::json::{Json, JsonKind};
use crate::path::{
    element_path, lemma_element_path_extends, lemma_member_path_extends, lemma_prefix_chain,
    member_path,
};
use crate::schema::{
    Function, FunctionCall, FunctionCallView, FunctionParameter, FunctionParameterView,
    FunctionView, Message, MessageView, Parameter, ParameterView,
};
use vstd::prelude::*;

verus! {

/// Whether the object has the field with a value of the given kind.
pub open spec fn has(fields: Map<Seq<char>, Json>, name: Seq<char>, kind: JsonKind) -> bool {
    fields.contains_key(name) && fields[name].kind() == kind
}

/// Whether the object lacks the field, or has it with a value of the given
/// kind.
pub open spec fn may_have(fields: Map<Seq<char>, Json>, name: Seq<char>, kind: JsonKind) -> bool {
    !fields.contains_key(name) || fields[name].kind() == kind
}

/// The value of an optional field, `None` where the object has no such
/// field.
pub open spec fn value_if_any(fields: Map<Seq<char>, Json>, name: Seq<char>) -> Option<Json> {
    if fields.contains_key(name) {
        Some(fields[name])
    } else {
        None
    }
}

/// An entity with a description of the documents it accepts.
pub trait Accept: Decode {
    /// Whether the document has the shape of this entity.
    spec fn accepts(j: Json) -> bool;

    /// The entity that an accepted document describes.
    spec fn value_of(j: Json) -> Self::V;

    /// Decoding succeeds on the accepted documents and on no others, yields
    /// what they describe wherever they are found, and fails only with an
    /// error that names a place at or below the path given.
    proof fn lemma_accepted(j: Json, at: Seq<char>)
        ensures
            Self::decoded(j, at) is Ok <==> Self::accepts(j),
            Self::accepts(j) ==> Self::decoded(j, at) == Ok::<Self::V, DecodeErrorView>(
                Self::value_of(j),
            ),
            Self::decoded(j, at) matches Err(e) ==> e.located_within(at),
    ;
}

/// Whether every element of an array is accepted.
pub open spec fn all_accepted<T: Accept>(items: Seq<Json>) -> bool {
    forall|i: int| 0 <= i < items.len() ==> T::accepts(#[trigger] items[i])
}

/// The entities that the elements of an array describe, in order.
pub open spec fn values_of<T: Accept>(items: Seq<Json>) -> Seq<T::V> {
    Seq::new(items.len(), |i: int| T::value_of(items[i]))
}

/// Whether an optional array is absent or holds accepted elements only.
pub open spec fn all_accepted_if_any<T: Accept>(items: Option<Json>) -> bool {
    items matches Some(j) ==> all_accepted::<T>(j->Array_0)
}

/// The entities that the elements of an optional array describe.
pub open spec fn values_if_any<T: Accept>(items: Option<Json>) -> Option<Seq<T::V>> {
    match items {
        Some(j) => Some(values_of::<T>(j->Array_0)),
        None => None,
    }
}

/// Whether an optional value is absent or accepted.
pub open spec fn accepted_if_any<T: Accept>(item: Option<Json>) -> bool {
    item matches Some(j) ==> T::accepts(j)
}

/// The entity that an optional value describes.
pub open spec fn entity_if_any<T: Accept>(item: Option<Json>) -> Option<T::V> {
    match item {
        Some(j) => Some(T::value_of(j)),
        None => None,
    }
}

/// A required field is found exactly when the object has it with the right
/// kind; an error names the field.
pub proof fn lemma_required(
    fields: Map<Seq<char>, Json>,
    at: Seq<char>,
    name: Seq<char>,
    kind: JsonKind,
)
    ensures
        required(fields, at, name, kind) is Ok <==> has(fields, name, kind),
        has(fields, name, kind) ==> required(fields, at, name, kind) == Ok::<
            Json,
            DecodeErrorView,
        >(fields[name]),
        required(fields, at, name, kind) matches Err(e) ==> e.located_within(at),
{
    lemma_member_path_extends(at, name);
}

/// An optional field passes exactly when the object lacks it or has it with
/// the right kind; an error names the field.
pub proof fn lemma_optional(
    fields: Map<Seq<char>, Json>,
    at: Seq<char>,
    name: Seq<char>,
    kind: JsonKind,
)
    ensures
        optional(fields, at, name, kind) is Ok <==> may_have(fields, name, kind),
        may_have(fields, name, kind) ==> optional(fields, at, name, kind) == Ok::<
            Option<Json>,
            DecodeErrorView,
        >(value_if_any(fields, name)),
        optional(fields, at, name, kind) matches Err(e) ==> e.located_within(at),
{
    lemma_member_path_extends(at, name);
}

/// A required field of any kind is found exactly when the object has it.
pub proof fn lemma_present(fields: Map<Seq<char>, Json>, at: Seq<char>, name: Seq<char>)
    ensures
        present(fields, at, name) is Ok <==> fields.contains_key(name),
        present(fields, at, name) matches Err(e) ==> e.located_within(at),
{
    lemma_member_path_extends(at, name);
}

/// An error located within a member is located within its object.
pub proof fn lemma_located_in_member(e: DecodeErrorView, at: Seq<char>, name: Seq<char>)
    requires
        e.located_within(member_path(at, name)),
    ensures
        e.located_within(at),
{
    lemma_member_path_extends(at, name);
    match e {
        DecodeErrorView::MissingField(path) => lemma_prefix_chain(
            at,
            member_path(at, name),
            path,
        ),
        DecodeErrorView::TypeMismatch(path, _, _) => lemma_prefix_chain(
            at,
            member_path(at, name),
            path,
        ),
        _ => {},
    }
}

/// An error located within an element is located within its array.
pub proof fn lemma_located_in_element(e: DecodeErrorView, at: Seq<char>, index: nat)
    requires
        e.located_within(element_path(at, index)),
    ensures
        e.located_within(at),
{
    lemma_element_path_extends(at, index);
    match e {
        DecodeErrorView::MissingField(path) => lemma_prefix_chain(
            at,
            element_path(at, index),
            path,
        ),
        DecodeErrorView::TypeMismatch(path, _, _) => lemma_prefix_chain(
            at,
            element_path(at, index),
            path,
        ),
        _ => {},
    }
}

/// Whether the element at `index` is the earliest that is not accepted.
pub open spec fn first_rejected<T: Accept>(items: Seq<Json>, index: int) -> bool {
    &&& 0 <= index < items.len()
    &&& !T::accepts(items[index])
    &&& forall|i: int| 0 <= i < index ==> T::accepts(#[trigger] items[i])
}

/// Whether `e` is the error that the earliest element that is not accepted
/// gives at its own path.
pub open spec fn error_of_first_rejected<T: Accept>(
    items: Seq<Json>,
    at: Seq<char>,
    e: DecodeErrorView,
) -> bool {
    exists|i: int|
        first_rejected::<T>(items, i) && #[trigger] T::decoded(items[i], element_path(at, i as nat))
            == Err::<T::V, DecodeErrorView>(e)
}

/// The first `n` elements of an array decode exactly when each of them is
/// accepted, to what they describe; the error, when there is one, is that of
/// the earliest element that is not accepted.
pub proof fn lemma_prefix_accepted<T: Accept>(items: Seq<Json>, at: Seq<char>, n: nat)
    requires
        n <= items.len(),
    ensures
        decoded_prefix::<T>(items, at, n) is Ok <==> forall|i: int|
            0 <= i < n ==> T::accepts(#[trigger] items[i]),
        decoded_prefix::<T>(items, at, n) matches Ok(values) ==> values == values_of::<T>(
            items,
        ).take(n as int),
        decoded_prefix::<T>(items, at, n) matches Err(e) ==> e.located_within(at)
            && error_of_first_rejected::<T>(items, at, e),
    decreases n,
{
    if n == 0 {
        assert(values_of::<T>(items).take(0) =~= Seq::<T::V>::empty());
    } else {
        let k = (n - 1) as nat;
        lemma_prefix_accepted::<T>(items, at, k);
        T::lemma_accepted(items[k as int], element_path(at, k));
        match decoded_prefix::<T>(items, at, k) {
            Ok(front) => {
                match T::decoded(items[k as int], element_path(at, k)) {
                    Ok(last) => {
                        assert(front.push(last) =~= values_of::<T>(items).take(n as int));
                    },
                    Err(e) => {
                        lemma_located_in_element(e, at, k);
                        assert(first_rejected::<T>(items, k as int));
                    },
                }
            },
            Err(e) => {},
        }
    }
}

/// An array decodes exactly when every element is accepted, to the entities
/// that the elements describe, in order. Otherwise the error is the one that
/// the earliest element that is not accepted gives at its own path.
pub proof fn lemma_items_accepted<T: Accept>(items: Seq<Json>, at: Seq<char>)
    ensures
        decoded_items::<T>(items, at) is Ok <==> all_accepted::<T>(items),
        all_accepted::<T>(items) ==> decoded_items::<T>(items, at) == Ok::<
            Seq<T::V>,
            DecodeErrorView,
        >(values_of::<T>(items)),
        decoded_items::<T>(items, at) matches Err(e) ==> e.located_within(at)
            && error_of_first_rejected::<T>(items, at, e),
{
    lemma_prefix_accepted::<T>(items, at, items.len());
    assert(values_of::<T>(items).take(items.len() as int) =~= values_of::<T>(items));
}

/// An optional array decodes exactly when it is absent or every element is
/// accepted.
pub proof fn lemma_optional_items_accepted<T: Accept>(items: Option<Json>, at: Seq<char>)
    ensures
        decoded_optional_items::<T>(items, at) is Ok <==> all_accepted_if_any::<T>(items),
        all_accepted_if_any::<T>(items) ==> decoded_optional_items::<T>(items, at) == Ok::<
            Option<Seq<T::V>>,
            DecodeErrorView,
        >(values_if_any::<T>(items)),
        decoded_optional_items::<T>(items, at) matches Err(e) ==> e.located_within(at),
{
    if let Some(j) = items {
        lemma_items_accepted::<T>(j->Array_0, at);
    }
}

/// An optional entity decodes exactly when it is absent or accepted.
pub proof fn lemma_optional_accepted<T: Accept>(item: Option<Json>, at: Seq<char>)
    ensures
        decoded_optional::<T>(item, at) is Ok <==> accepted_if_any::<T>(item),
        accepted_if_any::<T>(item) ==> decoded_optional::<T>(item, at) == Ok::<
            Option<T::V>,
            DecodeErrorView,
        >(entity_if_any::<T>(item)),
        decoded_optional::<T>(item, at) matches Err(e) ==> e.located_within(at),
{
    if let Some(j) = item {
        T::lemma_accepted(j, at);
    }
}

impl Accept for String {
    open spec fn accepts(j: Json) -> bool {
        j is String
    }

    open spec fn value_of(j: Json) -> Seq<char> {
        j->String_0
    }

    proof fn lemma_accepted(j: Json, at: Seq<char>) {
    }
}

impl Accept for FunctionCall {
    open spec fn accepts(j: Json) -> bool {
        &&& j is Object
        &&& has(j->Object_0, "name"@, JsonKind::String)
        &&& has(j->Object_0, "arguments"@, JsonKind::String)
    }

    open spec fn value_of(j: Json) -> FunctionCallView {
        FunctionCallView {
            name: j->Object_0["name"@]->String_0,
            arguments: j->Object_0["arguments"@]->String_0,
        }
    }

    proof fn lemma_accepted(j: Json, at: Seq<char>) {
        if j is Object {
            let fields = j->Object_0;
            lemma_required(fields, at, "name"@, JsonKind::String);
            lemma_required(fields, at, "arguments"@, JsonKind::String);
        }
    }
}

impl Accept for FunctionParameter {
    open spec fn accepts(j: Json) -> bool {
        &&& j is Object
        &&& has(j->Object_0, "name"@, JsonKind::String)
        &&& has(j->Object_0, "type"@, JsonKind::String)
        &&& may_have(j->Object_0, "required"@, JsonKind::Boolean)
        &&& may_have(j->Object_0, "description"@, JsonKind::String)
        &&& may_have(j->Object_0, "enums"@, JsonKind::Array)
        &&& all_accepted_if_any::<String>(value_if_any(j->Object_0, "enums"@))
    }

    open spec fn value_of(j: Json) -> FunctionParameterView {
        FunctionParameterView {
            name: j->Object_0["name"@]->String_0,
            parameter_type: j->Object_0["type"@]->String_0,
            required: flag_of_option(value_if_any(j->Object_0, "required"@)),
            description: text_of_option(value_if_any(j->Object_0, "description"@)),
            enums: values_if_any::<String>(value_if_any(j->Object_0, "enums"@)),
        }
    }

    proof fn lemma_accepted(j: Json, at: Seq<char>) {
        if j is Object {
            let fields = j->Object_0;
            lemma_required(fields, at, "name"@, JsonKind::String);
            lemma_required(fields, at, "type"@, JsonKind::String);
            lemma_optional(fields, at, "required"@, JsonKind::Boolean);
            lemma_optional(fields, at, "description"@, JsonKind::String);
            lemma_optional(fields, at, "enums"@, JsonKind::Array);
            let enums = optional(fields, at, "enums"@, JsonKind::Array);
            if enums is Ok {
                let inner = member_path(at, "enums"@);
                lemma_optional_items_accepted::<String>(enums->Ok_0, inner);
                if let Err(e) = decoded_optional_items::<String>(enums->Ok_0, inner) {
                    lemma_located_in_member(e, at, "enums"@);
                }
            }
        }
    }
}

impl Accept for Function {
    open spec fn accepts(j: Json) -> bool {
        &&& j is Object
        &&& has(j->Object_0, "name"@, JsonKind::String)
        &&& has(j->Object_0, "parameters"@, JsonKind::Array)
        &&& may_have(j->Object_0, "description"@, JsonKind::String)
        &&& all_accepted::<FunctionParameter>(j->Object_0["parameters"@]->Array_0)
    }

    open spec fn value_of(j: Json) -> FunctionView {
        FunctionView {
            name: j->Object_0["name"@]->String_0,
            description: text_of_option(value_if_any(j->Object_0, "description"@)),
            parameters: values_of::<FunctionParameter>(j->Object_0["parameters"@]->Array_0),
        }
    }

    proof fn lemma_accepted(j: Json, at: Seq<char>) {
        if j is Object {
            let fields = j->Object_0;
            lemma_required(fields, at, "name"@, JsonKind::String);
            lemma_required(fields, at, "parameters"@, JsonKind::Array);
            lemma_optional(fields, at, "description"@, JsonKind::String);
            let parameters = required(fields, at, "parameters"@, JsonKind::Array);
            if parameters is Ok {
                let inner = member_path(at, "parameters"@);
                let items = parameters->Ok_0->Array_0;
                lemma_items_accepted::<FunctionParameter>(items, inner);
                if let Err(e) = decoded_items::<FunctionParameter>(items, inner) {
                    lemma_located_in_member(e, at, "parameters"@);
                }
            }
        }
    }
}

impl Accept for Message {
    open spec fn accepts(j: Json) -> bool {
        &&& j is Object
        &&& has(j->Object_0, "role"@, JsonKind::String)
        &&& may_have(j->Object_0, "name"@, JsonKind::String)
        &&& may_have(j->Object_0, "content"@, JsonKind::String)
        &&& accepted_if_any::<FunctionCall>(value_if_any(j->Object_0, "function_call"@))
    }

    open spec fn value_of(j: Json) -> MessageView {
        MessageView {
            role: j->Object_0["role"@]->String_0,
            name: text_of_option(value_if_any(j->Object_0, "name"@)),
            content: text_of_option(value_if_any(j->Object_0, "content"@)),
            function_call: entity_if_any::<FunctionCall>(
                value_if_any(j->Object_0, "function_call"@),
            ),
        }
    }

    proof fn lemma_accepted(j: Json, at: Seq<char>) {
        if j is Object {
            let fields = j->Object_0;
            lemma_required(fields, at, "role"@, JsonKind::String);
            lemma_optional(fields, at, "name"@, JsonKind::String);
            lemma_optional(fields, at, "content"@, JsonKind::String);
            lemma_optional(fields, at, "function_call"@, JsonKind::Object);
            let call = optional(fields, at, "function_call"@, JsonKind::Object);
            if call is Ok {
                let inner = member_path(at, "function_call"@);
                lemma_optional_accepted::<FunctionCall>(call->Ok_0, inner);
                if let Err(e) = decoded_optional::<FunctionCall>(call->Ok_0, inner) {
                    lemma_located_in_member(e, at, "function_call"@);
                }
            }
        }
    }
}

impl Accept for Parameter {
    open spec fn accepts(j: Json) -> bool {
        &&& j is Object
        &&& has(j->Object_0, "name"@, JsonKind::String)
        &&& j->Object_0.contains_key("value"@)
    }

    open spec fn value_of(j: Json) -> ParameterView {
        ParameterView {
            name: j->Object_0["name"@]->String_0,
            value: j->Object_0["value"@],
        }
    }

    proof fn lemma_accepted(j: Json, at: Seq<char>) {
        if j is Object {
            let fields = j->Object_0;
            lemma_required(fields, at, "name"@, JsonKind::String);
            lemma_present(fields, at, "value"@);
        }
    }
}

} // verus!
