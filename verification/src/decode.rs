//! Decoding of one entity from one value, and of a sequence of entities from
//! an array.
//!
//! Decoding stops at the first defect. Within an array the elements are taken
//! in order, so the defect reported is the one in the earliest element that
//! has any.

use crate::error::{outcome, DecodeError, DecodeErrorView};
use crate::json::{json_of, jsons_of, Json};
use crate::path::{element_path, element_path_text, member_path, member_path_text};
use crate::schema::views;
use serde_json::Value;
use vstd::prelude::*;

verus! {

/// An entity that can be read from a JSON value found at some path.
pub trait Decode: View + Sized {
    /// What the document `j`, found at the path `at`, decodes to.
    spec fn decoded(j: Json, at: Seq<char>) -> Result<Self::V, DecodeErrorView>;

    /// Decodes the value `v`, found at the path `at`.
    fn decode(v: &Value, at: &str) -> (r: Result<Self, DecodeError>)
        ensures
            outcome(r) == Self::decoded(json_of(*v), at@),
    ;
}

/// What the first `n` elements of the array at `at` decode to: the entities in
/// order, or the error of the earliest element that fails.
pub open spec fn decoded_prefix<T: Decode>(items: Seq<Json>, at: Seq<char>, n: nat) -> Result<
    Seq<T::V>,
    DecodeErrorView,
>
    decreases n,
{
    if n == 0 {
        Ok(Seq::empty())
    } else {
        match decoded_prefix::<T>(items, at, (n - 1) as nat) {
            Ok(front) => match T::decoded(items[n - 1], element_path(at, (n - 1) as nat)) {
                Ok(last) => Ok(front.push(last)),
                Err(e) => Err(e),
            },
            Err(e) => Err(e),
        }
    }
}

/// What the array at `at` decodes to.
pub open spec fn decoded_items<T: Decode>(items: Seq<Json>, at: Seq<char>) -> Result<
    Seq<T::V>,
    DecodeErrorView,
> {
    decoded_prefix::<T>(items, at, items.len())
}

/// What an optional array at `at` decodes to.
pub open spec fn decoded_optional_items<T: Decode>(items: Option<Json>, at: Seq<char>) -> Result<
    Option<Seq<T::V>>,
    DecodeErrorView,
> {
    match items {
        Some(j) => match decoded_items::<T>(j->Array_0, at) {
            Ok(values) => Ok(Some(values)),
            Err(e) => Err(e),
        },
        None => Ok(None),
    }
}

/// What an optional entity at `at` decodes to.
pub open spec fn decoded_optional<T: Decode>(item: Option<Json>, at: Seq<char>) -> Result<
    Option<T::V>,
    DecodeErrorView,
> {
    match item {
        Some(j) => match T::decoded(j, at) {
            Ok(value) => Ok(Some(value)),
            Err(e) => Err(e),
        },
        None => Ok(None),
    }
}

/// The outcome of decoding a sequence, seen through views.
pub open spec fn outcome_of_items<T: View>(r: Result<Vec<T>, DecodeError>) -> Result<
    Seq<T::V>,
    DecodeErrorView,
> {
    match r {
        Ok(values) => Ok(views(values@)),
        Err(e) => Err(e@),
    }
}

/// The outcome of decoding an optional sequence, seen through views.
pub open spec fn outcome_of_optional_items<T: View>(
    r: Result<Option<Vec<T>>, DecodeError>,
) -> Result<Option<Seq<T::V>>, DecodeErrorView> {
    match r {
        Ok(Some(values)) => Ok(Some(views(values@))),
        Ok(None) => Ok(None),
        Err(e) => Err(e@),
    }
}

/// The outcome of decoding an optional entity, seen through views.
pub open spec fn outcome_of_optional<T: View>(r: Result<Option<T>, DecodeError>) -> Result<
    Option<T::V>,
    DecodeErrorView,
> {
    match r {
        Ok(Some(value)) => Ok(Some(value@)),
        Ok(None) => Ok(None),
        Err(e) => Err(e@),
    }
}

/// Once a prefix of an array has failed, every longer prefix fails with the
/// same error.
pub proof fn lemma_failure_stays<T: Decode>(items: Seq<Json>, at: Seq<char>, n: nat, m: nat)
    requires
        n <= m,
        decoded_prefix::<T>(items, at, n) is Err,
    ensures
        decoded_prefix::<T>(items, at, m) == decoded_prefix::<T>(items, at, n),
    decreases m,
{
    if n < m {
        lemma_failure_stays::<T>(items, at, n, (m - 1) as nat);
    }
}

/// Decodes the elements of an array in order.
pub fn decode_items<T: Decode>(items: &Vec<Value>, at: &str) -> (r: Result<Vec<T>, DecodeError>)
    ensures
        outcome_of_items(r) == decoded_items::<T>(jsons_of(items@), at@),
{
    let ghost docs = jsons_of(items@);
    let mut out: Vec<T> = Vec::new();
    let mut i: usize = 0;
    assert(views(out@) =~= Seq::<T::V>::empty());
    while i < items.len()
        invariant
            i <= items.len(),
            docs == jsons_of(items@),
            decoded_prefix::<T>(docs, at@, i as nat) == Ok::<Seq<T::V>, DecodeErrorView>(
                views(out@),
            ),
        decreases items.len() - i,
    {
        let here: String = element_path_text(at, i);
        match T::decode(&items[i], here.as_str()) {
            Ok(item) => {
                let ghost before = views(out@);
                out.push(item);
                assert(views(out@) =~= before.push(item@));
            },
            Err(e) => {
                proof {
                    assert(decoded_prefix::<T>(docs, at@, (i + 1) as nat) == Err::<
                        Seq<T::V>,
                        DecodeErrorView,
                    >(e@));
                    lemma_failure_stays::<T>(docs, at@, (i + 1) as nat, docs.len());
                }
                return Err(e);
            },
        }
        i = i + 1;
    }
    Ok(out)
}

/// Decodes the elements of a value known to be an array, the field `name` of
/// the object at `at`.
pub(crate) fn decode_array<T: Decode>(v: &Value, at: &str, name: &str) -> (r: Result<
    Vec<T>,
    DecodeError,
>)
    requires
        json_of(*v) is Array,
    ensures
        outcome_of_items(r) == decoded_items::<T>(
            json_of(*v)->Array_0,
            member_path(at@, name@),
        ),
{
    let here: String = member_path_text(at, name);
    decode_items::<T>(v.as_array().unwrap(), here.as_str())
}

/// Decodes the elements of an optional value known to be an array, the field
/// `name` of the object at `at`.
pub(crate) fn decode_optional_array<T: Decode>(v: Option<&Value>, at: &str, name: &str) -> (r: Result<
    Option<Vec<T>>,
    DecodeError,
>)
    requires
        v matches Some(x) ==> json_of(*x) is Array,
    ensures
        outcome_of_optional_items(r) == decoded_optional_items::<T>(
            match v {
                Some(x) => Some(json_of(*x)),
                None => None,
            },
            member_path(at@, name@),
        ),
{
    match v {
        Some(x) => match decode_array::<T>(x, at, name) {
            Ok(values) => Ok(Some(values)),
            Err(e) => Err(e),
        },
        None => Ok(None),
    }
}

/// Decodes an optional entity that is the field `name` of the object at `at`.
pub fn decode_optional<T: Decode>(v: Option<&Value>, at: &str, name: &str) -> (r: Result<
    Option<T>,
    DecodeError,
>)
    ensures
        outcome_of_optional(r) == decoded_optional::<T>(
            match v {
                Some(x) => Some(json_of(*x)),
                None => None,
            },
            member_path(at@, name@),
        ),
{
    match v {
        Some(x) => {
            let here: String = member_path_text(at, name);
            match T::decode(x, here.as_str()) {
                Ok(value) => Ok(Some(value)),
                Err(e) => Err(e),
            }
        },
        None => Ok(None),
    }
}

} // verus!
