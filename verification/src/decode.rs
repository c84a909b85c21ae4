//! Reading typed members out of JSON documents.

use vstd::prelude::*;
use vstd::string::*;
use crate::json::{as_integer, as_text, json_of, member, member_at, text_in, Json};
use crate::text::optional_text;

verus! {

/// The document as a 32-bit signed integer, where it is an integer in that
/// range.
pub open spec fn int32_in(document: Json) -> Option<i32> {
    match document {
        Json::Integer(n) => if i32::MIN <= n <= i32::MAX {
            Some(n as i32)
        } else {
            None
        },
        _ => None,
    }
}

/// The string member under a key; `None` where there is no such member or it
/// is no string.
pub open spec fn text_at(document: Json, key: Seq<char>) -> Option<Seq<char>> {
    match member_at(document, key) {
        Some(found) => text_in(found),
        None => None,
    }
}

/// The integer member under a key; `None` where there is no such member or it
/// is no integer that 32 bits can hold.
pub open spec fn int32_at(document: Json, key: Seq<char>) -> Option<i32> {
    match member_at(document, key) {
        Some(found) => int32_in(found),
        None => None,
    }
}

/// Reads the string member under `key`.
pub fn text_member(value: &serde_json::Value, key: &str) -> (r: Option<String>)
    ensures
        optional_text(r) == text_at(json_of(*value), key@),
{
    match member(value, key) {
        Some(found) => match as_text(found) {
            Some(text) => Some(String::from_str(text)),
            None => None,
        },
        None => None,
    }
}

/// Reads the integer member under `key`.
pub fn int32_member(value: &serde_json::Value, key: &str) -> (r: Option<i32>)
    ensures
        r == int32_at(json_of(*value), key@),
{
    match member(value, key) {
        Some(found) => match as_integer(found) {
            Some(n) => if -2147483648 <= n && n <= 2147483647 {
                Some(n as i32)
            } else {
                None
            },
            None => None,
        },
        None => None,
    }
}

} // verus!
