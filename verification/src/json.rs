//! JSON documents as `serde_json` holds them, and the calls into that crate.
//!
//! Verified code never looks inside a `serde_json::Value`. It reasons about the
//! mathematical document `json_of(v)` that the value stands for, and every call
//! into the crate is a small trusted function whose contract is stated over that
//! document.

use vstd::prelude::*;
use crate::text::optional_str;

verus! {

/// A JSON document as a mathematical value.
pub enum Json {
    Null,
    Bool(bool),
    /// A number that `serde_json` holds as an integer.
    Integer(int),
    /// A number that `serde_json` holds as a binary float, by its bit pattern.
    Real(u64),
    Text(Seq<char>),
    Array(Seq<Json>),
    Object(Map<Seq<char>, Json>),
}

/// The member of an object under a key; `None` where the document is no object
/// or has no such member.
pub open spec fn member_at(document: Json, key: Seq<char>) -> Option<Json> {
    match document {
        Json::Object(members) => if members.contains_key(key) {
            Some(members[key])
        } else {
            None
        },
        _ => None,
    }
}

/// The document as a string, where it is one.
pub open spec fn text_in(document: Json) -> Option<Seq<char>> {
    match document {
        Json::Text(text) => Some(text),
        _ => None,
    }
}

/// The document as a 64-bit signed integer, where it is an integer in that
/// range.
pub open spec fn int64_in(document: Json) -> Option<i64> {
    match document {
        Json::Integer(n) => if i64::MIN <= n <= i64::MAX {
            Some(n as i64)
        } else {
            None
        },
        _ => None,
    }
}

/// The elements of the document in order, where it is an array.
pub open spec fn elements_in(document: Json) -> Option<Seq<Json>> {
    match document {
        Json::Array(elements) => Some(elements),
        _ => None,
    }
}

/// The documents that a sequence of `serde_json::Value`s stand for.
pub open spec fn documents_of(values: Seq<serde_json::Value>) -> Seq<Json> {
    values.map_values(|value: serde_json::Value| json_of(value))
}

#[verifier::external_type_specification]
#[verifier::external_body]
pub struct ExValue(serde_json::Value);

#[verifier::external_type_specification]
#[verifier::external_body]
pub struct ExJsonError(serde_json::Error);

#[verifier::external_type_specification]
#[verifier::external_body]
#[verifier::reject_recursive_types(K)]
#[verifier::reject_recursive_types(V)]
pub struct ExJsonMap<K, V>(serde_json::Map<K, V>);

/// A JSON object under construction, as `serde_json` holds it.
pub type JsonObject = serde_json::Map<String, serde_json::Value>;

/// The document that a `serde_json::Value` stands for.
pub uninterp spec fn json_of(value: serde_json::Value) -> Json;

/// The members that a `serde_json::Map` holds, by key.
pub uninterp spec fn members_of(object: JsonObject) -> Map<Seq<char>, Json>;

/// The members of an object that has none.
pub open spec fn no_members() -> Map<Seq<char>, Json> {
    Map::empty()
}

/// The document that `serde_json::from_str` reads from a text, `None` where it
/// reports an error.
pub uninterp spec fn json_parse(text: Seq<char>) -> Option<Json>;

/// The text that `serde_json::to_string` writes for a document, `None` where
/// it reports an error.
pub uninterp spec fn json_text(document: Json) -> Option<Seq<char>>;

/// `serde_json::from_str` at type `Value`. Trusted: the value returned stands
/// for the document `json_parse` names for this text, and an error is returned
/// exactly where `json_parse` names none.
#[verifier::external_body]
pub(crate) fn parse(text: &str) -> (r: Result<serde_json::Value, serde_json::Error>)
    ensures
        match r {
            Ok(value) => json_parse(text@) == Some(json_of(value)),
            Err(_) => json_parse(text@) is None,
        },
{
    serde_json::from_str::<serde_json::Value>(text)
}

/// `Value::get` with a string index. Trusted: the member under `key` where the
/// value is an object that has one, `None` otherwise.
#[verifier::external_body]
pub(crate) fn member<'a>(value: &'a serde_json::Value, key: &str) -> (r: Option<&'a serde_json::Value>)
    ensures
        match r {
            Some(found) => member_at(json_of(*value), key@) == Some(json_of(*found)),
            None => member_at(json_of(*value), key@) is None,
        },
{
    value.get(key)
}

/// `Value::as_str`. Trusted: the string where the value is one, `None` otherwise.
#[verifier::external_body]
pub(crate) fn as_text<'a>(value: &'a serde_json::Value) -> (r: Option<&'a str>)
    ensures
        optional_str(r) == text_in(json_of(*value)),
{
    value.as_str()
}

/// `Value::as_i64`. Trusted: the number where the value is an integer that an
/// `i64` can hold, `None` otherwise.
#[verifier::external_body]
pub(crate) fn as_integer(value: &serde_json::Value) -> (r: Option<i64>)
    ensures
        r == int64_in(json_of(*value)),
{
    value.as_i64()
}

/// `Value::as_array`. Trusted: the elements in order where the value is an
/// array, `None` otherwise.
#[verifier::external_body]
pub(crate) fn as_array<'a>(value: &'a serde_json::Value) -> (r: Option<&'a Vec<serde_json::Value>>)
    ensures
        match r {
            Some(items) => elements_in(json_of(*value)) == Some(documents_of(items@)),
            None => elements_in(json_of(*value)) is None,
        },
{
    value.as_array()
}

/// `Map::new`. Trusted: the map returned holds no member.
#[verifier::external_body]
pub(crate) fn new_object() -> (r: JsonObject)
    ensures
        members_of(r) == no_members(),
{
    serde_json::Map::new()
}

/// `Map::insert`. Trusted: afterwards the map holds `value` under `key` and is
/// otherwise unchanged; the value that `key` had before is returned, `None`
/// where it had none.
#[verifier::external_body]
pub(crate) fn insert_member(
    object: &mut JsonObject,
    key: String,
    value: serde_json::Value,
) -> (r: Option<serde_json::Value>)
    ensures
        members_of(*final(object)) == members_of(*old(object)).insert(key@, json_of(value)),
        match r {
            Some(previous) => members_of(*old(object)).contains_key(key@)
                && json_of(previous) == members_of(*old(object))[key@],
            None => !members_of(*old(object)).contains_key(key@),
        },
{
    object.insert(key, value)
}

/// `Value::Object`. Trusted: the value stands for the object with the map's
/// members.
#[verifier::external_body]
pub(crate) fn object_value(object: JsonObject) -> (r: serde_json::Value)
    ensures
        json_of(r) == Json::Object(members_of(object)),
{
    serde_json::Value::Object(object)
}

/// `Value::String`. Trusted: the value stands for the string `text`.
#[verifier::external_body]
pub(crate) fn text_value(text: String) -> (r: serde_json::Value)
    ensures
        json_of(r) == Json::Text(text@),
{
    serde_json::Value::String(text)
}

/// `Value::from` on an `i64`. Trusted: the value stands for the integer `n`.
#[verifier::external_body]
pub(crate) fn integer_value(n: i64) -> (r: serde_json::Value)
    ensures
        json_of(r) == Json::Integer(n as int),
{
    serde_json::Value::from(n)
}

/// `serde_json::to_string` on a `Value`. Trusted: the text returned is the one
/// `json_text` names for the document, and an error is returned exactly where
/// `json_text` names none.
#[verifier::external_body]
pub(crate) fn render(value: &serde_json::Value) -> (r: Result<String, serde_json::Error>)
    ensures
        match r {
            Ok(text) => json_text(json_of(*value)) == Some(text@),
            Err(_) => json_text(json_of(*value)) is None,
        },
{
    serde_json::to_string(value)
}

} // verus!
