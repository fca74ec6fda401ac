//! JSON documents, read through `serde_json`.
//!
//! A document stays a `serde_json::Value`. Contracts speak of what it holds
//! through `JsonData`, a tree of plain values, and the few calls into
//! `serde_json` that the library makes are stated over that tree.

use vstd::prelude::*;

verus! {

#[verifier::external_type_specification]
#[verifier::external_body]
pub struct ExJsonValue(serde_json::Value);

/// What a JSON value holds. Of a number only this is kept: its value where it
/// is an integer from 0 to `u64::MAX`, nothing otherwise.
pub enum JsonData {
    Null,
    Bool(bool),
    Number(Option<u64>),
    Text(Seq<char>),
    Array(Seq<JsonData>),
    Object(Map<Seq<char>, JsonData>),
}

impl JsonData {
    /// The member under `key` of an object that has one, else `Null`.
    pub open spec fn member(self, key: Seq<char>) -> JsonData {
        match self {
            JsonData::Object(members) => if members.contains_key(key) {
                members[key]
            } else {
                JsonData::Null
            },
            _ => JsonData::Null,
        }
    }

    /// The element at `index` of an array that is long enough, else `Null`.
    pub open spec fn element(self, index: int) -> JsonData {
        match self {
            JsonData::Array(elements) => if 0 <= index < elements.len() {
                elements[index]
            } else {
                JsonData::Null
            },
            _ => JsonData::Null,
        }
    }

    /// The characters of a string, nothing of any other value.
    pub open spec fn as_text(self) -> Option<Seq<char>> {
        match self {
            JsonData::Text(t) => Some(t),
            _ => None,
        }
    }

    /// The number of elements of an array, nothing of any other value.
    pub open spec fn array_len(self) -> Option<nat> {
        match self {
            JsonData::Array(elements) => Some(elements.len()),
            _ => None,
        }
    }

    /// The value of a number that is an integer from 0 to `u64::MAX`, nothing
    /// of any other value.
    pub open spec fn as_u64(self) -> Option<u64> {
        match self {
            JsonData::Number(n) => n,
            _ => None,
        }
    }
}

/// What `value` holds.
pub uninterp spec fn json_data(value: serde_json::Value) -> JsonData;

/// What `serde_json` makes of `text`: the document that it parses to, or the
/// message of the error that it reports.
pub uninterp spec fn json_parsed(text: Seq<char>) -> Result<JsonData, Seq<char>>;

/// Calls `serde_json::from_str` for a `Value`. The result is that of parsing
/// `text`: the document, or the error's message as its `Display` gives it.
/// Both depend on `text` alone.
#[verifier::external_body]
pub(crate) fn json_from_str(text: &str) -> (r: Result<serde_json::Value, String>)
    ensures
        match r {
            Ok(value) => json_parsed(text@) == Ok::<JsonData, Seq<char>>(json_data(value)),
            Err(message) => json_parsed(text@) == Err::<JsonData, Seq<char>>(message@),
        },
{
    match serde_json::from_str::<serde_json::Value>(text) {
        Ok(value) => Ok(value),
        Err(error) => Err(error.to_string()),
    }
}

/// Indexes `value` by a string, as `value[key]` does: the member of that name
/// if `value` is an object that has it, else a null value.
#[verifier::external_body]
pub(crate) fn json_member<'a>(value: &'a serde_json::Value, key: &str) -> (r: &'a serde_json::Value)
    ensures
        json_data(*r) == json_data(*value).member(key@),
{
    &value[key]
}

/// Indexes `value` by a position, as `value[index]` does: the element there
/// if `value` is an array that long, else a null value.
#[verifier::external_body]
pub(crate) fn json_element<'a>(value: &'a serde_json::Value, index: usize) -> (r:
    &'a serde_json::Value)
    ensures
        json_data(*r) == json_data(*value).element(index as int),
{
    &value[index]
}

/// Calls `Value::as_str`: the text of a string, nothing of any other value.
#[verifier::external_body]
pub(crate) fn json_as_str<'a>(value: &'a serde_json::Value) -> (r: Option<&'a str>)
    ensures
        r is Some <==> json_data(*value).as_text() is Some,
        r is Some ==> r->0@ == json_data(*value).as_text()->0,
{
    value.as_str()
}

/// Calls `Value::as_u64`: the value of a number that is an integer and fits
/// `u64`, nothing of any other value.
#[verifier::external_body]
pub(crate) fn json_as_u64(value: &serde_json::Value) -> (r: Option<u64>)
    ensures
        r == json_data(*value).as_u64(),
{
    value.as_u64()
}

/// Calls `Value::as_array` for the length: the number of elements of an
/// array, nothing of any other value.
#[verifier::external_body]
pub(crate) fn json_array_len(value: &serde_json::Value) -> (r: Option<usize>)
    ensures
        r is Some <==> json_data(*value).array_len() is Some,
        r is Some ==> r->0 == json_data(*value).array_len()->0,
{
    match value.as_array() {
        Some(elements) => Some(elements.len()),
        None => None,
    }
}

/// Calls `Value::is_object`: whether the value is an object.
#[verifier::external_body]
pub(crate) fn json_is_object(value: &serde_json::Value) -> (r: bool)
    ensures
        r == (json_data(*value) is Object),
{
    value.is_object()
}

} // verus!
