//! JSON text, read and written by `serde_json`.
//!
//! Nothing in this module is proved of `serde_json` itself: the four functions
//! marked `external_body` state what its source shows, and [`parse`] and
//! [`render`] are proved from them.

use crate::json::{opt_view, Json, JsonTree};
use serde_json::{Number, Value};
use vstd::prelude::*;

verus! {

/// `serde_json::Value`, made known so that it can be handed from one call to
/// the next. Nothing is known of what is inside one but what `value_tree`
/// names.
#[verifier::external_type_specification]
#[verifier::external_body]
pub struct ExValue(serde_json::Value);

/// The tree that a `serde_json::Value` holds: its variant, and below it the
/// items of an array in order and the entries of an object in the order in
/// which its map hands them out. An integer number stands as `Int`, any other
/// as `Real` with the text that `Number` writes for it.
pub uninterp spec fn value_tree(v: serde_json::Value) -> JsonTree;

/// What `serde_json::from_slice` reads from a text: the tree of the value, or
/// nothing where it reports an error.
pub uninterp spec fn parsed_tree(text: Seq<u8>) -> Option<JsonTree>;

/// The tree of the `serde_json::Value` that is built from a tree, or nothing
/// where none can be built: `serde_json::Number` holds the integers from
/// `i64::MIN` to `u64::MAX` and what `serde_json::from_str` reads as a number,
/// and no other. An object's entries go through `serde_json::Map`, which
/// keeps one entry for each key.
pub uninterp spec fn stored_tree(tree: JsonTree) -> Option<JsonTree>;

/// The text that `serde_json::to_vec` writes for a value that holds this tree,
/// or nothing where it reports an error.
pub uninterp spec fn printed_tree(tree: JsonTree) -> Option<Seq<u8>>;

/// The text that stands for a tree, or nothing where no value can be built
/// from the tree or none can be written.
pub open spec fn rendered(tree: JsonTree) -> Option<Seq<u8>> {
    match stored_tree(tree) {
        Some(stored) => printed_tree(stored),
        None => None,
    }
}

/// Calls `serde_json::from_slice` for a `serde_json::Value`. The call reads
/// nothing but `text`, so the same text always gives the same outcome:
/// `parsed_tree` is its name. An error is handed back as `None`.
#[verifier::external_body]
fn read_value(text: &[u8]) -> (r: Option<serde_json::Value>)
    ensures
        match r {
            Some(v) => parsed_tree(text@) == Some(value_tree(v)),
            None => parsed_tree(text@) is None,
        },
{
    serde_json::from_slice::<serde_json::Value>(text).ok()
}

/// Calls `serde_json::to_vec` on a `serde_json::Value`. What is written
/// depends on the value's tree alone: `printed_tree` is its name. An error is
/// handed back as `None`.
#[verifier::external_body]
fn write_value(v: &serde_json::Value) -> (r: Option<Vec<u8>>)
    ensures
        opt_view(r) == printed_tree(value_tree(*v)),
{
    serde_json::to_vec(v).ok()
}

/// Takes a `serde_json::Value` apart, variant by variant, into a [`Json`] with
/// the same tree. A number goes through `Number::as_i128` and, where that
/// gives nothing, is written out with `to_string`; the entries of an object
/// come in the order of `Map::into_iter`.
#[verifier::external_body]
fn lift(v: serde_json::Value) -> (r: Json)
    ensures
        r@ == value_tree(v),
{
    match v {
        Value::Null => Json::Null,
        Value::Bool(b) => Json::Bool(b),
        Value::Number(n) => match n.as_i128() {
            Some(i) => Json::Int(i),
            None => Json::Real(n.to_string()),
        },
        Value::String(s) => Json::Text(s),
        Value::Array(a) => Json::Array(a.into_iter().map(lift).collect()),
        Value::Object(m) => Json::Object(m.into_iter().map(|(k, x)| (k, lift(x))).collect()),
    }
}

/// Builds the `serde_json::Value` for a [`Json`], variant by variant. An
/// integer goes through `Number::from_i128` and the text of any other number
/// through `serde_json::from_str`, read as a `Number`; where either gives no
/// `Number`, for this value or for one inside it, the result is `None`.
/// The members of an object are collected into a `serde_json::Map`.
/// `stored_tree` names the tree of the value that comes out.
#[verifier::external_body]
fn lower(j: &Json) -> (r: Option<serde_json::Value>)
    ensures
        match r {
            Some(v) => stored_tree(j@) == Some(value_tree(v)),
            None => stored_tree(j@) is None,
        },
{
    match j {
        Json::Null => Some(Value::Null),
        Json::Bool(b) => Some(Value::Bool(*b)),
        Json::Int(i) => Number::from_i128(*i).map(Value::Number),
        Json::Real(s) => serde_json::from_str(s).ok().map(Value::Number),
        Json::Text(s) => Some(Value::String(s.clone())),
        Json::Array(items) => items.iter().map(lower).collect::<Option<_>>().map(Value::Array),
        Json::Object(members) => members.iter().map(|(k, x)| lower(x).map(|v| (k.clone(), v))).collect::<Option<_>>().map(Value::Object),
    }
}

/// Reads a JSON text. `None` where the text is not one JSON value.
pub fn parse(text: &[u8]) -> (r: Option<Json>)
    ensures
        opt_view(r) == parsed_tree(text@),
{
    match read_value(text) {
        Some(v) => Some(lift(v)),
        None => None,
    }
}

/// Writes a value as JSON text. `None` where it cannot be written: a value
/// that holds a number which JSON text cannot hold is not written as
/// something else.
pub fn render(value: &Json) -> (r: Option<Vec<u8>>)
    ensures
        opt_view(r) == rendered(value@),
{
    match lower(value) {
        Some(v) => write_value(&v),
        None => None,
    }
}

} // verus!
