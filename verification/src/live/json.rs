//! JSON documents as `serde_json` holds them: a mathematical model of what a
//! document contains, and what the library assumes of the `serde_json`
//! operations that it calls.

use vstd::prelude::*;

verus! {

/// The content of a JSON number. `serde_json` keeps a number as an unsigned
/// integer, as a negative integer, or as a floating point number; the last
/// stands here as the integer of its bit pattern.
pub enum JsonNumber {
    PosInt(u64),
    NegInt(i64),
    Float(int),
}

/// The content of a JSON document.
pub enum JsonModel {
    Null,
    Bool(bool),
    Number(JsonNumber),
    String(Seq<char>),
    Array(Seq<JsonModel>),
    Object(Map<Seq<char>, JsonModel>),
}

impl JsonModel {
    /// The value under `key` where the document is an object that has the
    /// key; null in every other case.
    pub open spec fn member(self, key: Seq<char>) -> JsonModel {
        match self {
            JsonModel::Object(entries) => if entries.contains_key(key) {
                entries[key]
            } else {
                JsonModel::Null
            },
            _ => JsonModel::Null,
        }
    }

    /// The value at `index` where the document is an array that long; null
    /// in every other case.
    pub open spec fn element(self, index: int) -> JsonModel {
        match self {
            JsonModel::Array(items) => if 0 <= index < items.len() {
                items[index]
            } else {
                JsonModel::Null
            },
            _ => JsonModel::Null,
        }
    }

    /// The document as an unsigned integer, where it is one.
    pub open spec fn as_u64(self) -> Option<u64> {
        match self {
            JsonModel::Number(JsonNumber::PosInt(n)) => Some(n),
            _ => None,
        }
    }

    /// The document as a signed integer, where it is an integer in range.
    pub open spec fn as_i64(self) -> Option<i64> {
        match self {
            JsonModel::Number(JsonNumber::PosInt(n)) => if n <= i64::MAX {
                Some(n as i64)
            } else {
                None
            },
            JsonModel::Number(JsonNumber::NegInt(n)) => Some(n),
            _ => None,
        }
    }

    /// The document as text, where it is a string.
    pub open spec fn as_str(self) -> Option<Seq<char>> {
        match self {
            JsonModel::String(text) => Some(text),
            _ => None,
        }
    }

    /// Whether the document is null.
    pub open spec fn is_null(self) -> bool {
        self is Null
    }
}

#[verifier::external_type_specification]
#[verifier::external_body]
pub struct ExValue(serde_json::Value);

#[verifier::external_type_specification]
#[verifier::external_body]
pub struct ExJsonError(serde_json::Error);

/// What a `serde_json::Value` holds.
pub uninterp spec fn json_model(value: serde_json::Value) -> JsonModel;

/// The document that `serde_json::from_str` reads from a text, where it
/// accepts the text.
pub uninterp spec fn json_parsed(text: Seq<char>) -> Option<JsonModel>;

/// The compact text that `serde_json::to_string` writes for a document, where
/// it writes one.
pub uninterp spec fn json_text(document: JsonModel) -> Option<Seq<char>>;

/// The indented text that `serde_json::to_string_pretty` writes for a
/// document, where it writes one.
pub uninterp spec fn json_pretty_text(document: JsonModel) -> Option<Seq<char>>;

/// `Value::as_u64` gives the number where the value is a non-negative
/// integer, and nothing for every other value.
pub assume_specification[ serde_json::Value::as_u64 ](value: &serde_json::Value) -> (r: Option<u64>)
    ensures
        r == json_model(*value).as_u64(),
;

/// `Value::as_i64` gives the number where the value is an integer that fits
/// `i64`, and nothing for every other value.
pub assume_specification[ serde_json::Value::as_i64 ](value: &serde_json::Value) -> (r: Option<i64>)
    ensures
        r == json_model(*value).as_i64(),
;

/// `Value::as_str` gives the text where the value is a string, and nothing
/// for every other value.
pub assume_specification<'a>[ serde_json::Value::as_str ](value: &'a serde_json::Value) -> (r: Option<&'a str>)
    ensures
        r is Some <==> json_model(*value).as_str() is Some,
        r is Some ==> r->Some_0@ == json_model(*value).as_str()->Some_0,
;

/// `Value::is_null` tells whether the value is null.
pub assume_specification[ serde_json::Value::is_null ](value: &serde_json::Value) -> (r: bool)
    ensures
        r == json_model(*value).is_null(),
;

/// Indexing a `Value` by a string: the member under that key of an object
/// that has it, and a null value otherwise. It never panics.
#[verifier::external_body]
pub(crate) fn member<'a>(value: &'a serde_json::Value, key: &str) -> (r: &'a serde_json::Value)
    ensures
        json_model(*r) == json_model(*value).member(key@),
{
    &value[key]
}

/// Indexing a `Value` by a position: the element there of an array that
/// long, and a null value otherwise. It never panics.
#[verifier::external_body]
pub(crate) fn element<'a>(value: &'a serde_json::Value, index: usize) -> (r: &'a serde_json::Value)
    ensures
        json_model(*r) == json_model(*value).element(index as int),
{
    &value[index]
}

/// `serde_json::from_str` for a `Value`: the document that the whole text
/// spells, or the error of a text that is no JSON document.
#[verifier::external_body]
pub(crate) fn parse(text: &str) -> (r: Result<serde_json::Value, serde_json::Error>)
    ensures
        r is Ok <==> json_parsed(text@) is Some,
        r is Ok ==> json_model(r->Ok_0) == json_parsed(text@)->Some_0,
{
    serde_json::from_str::<serde_json::Value>(text)
}

/// `serde_json::to_string` on a `Value`: its compact text, which depends on
/// what the value holds and on nothing else.
#[verifier::external_body]
pub(crate) fn to_text(value: &serde_json::Value) -> (r: Result<String, serde_json::Error>)
    ensures
        r is Ok <==> json_text(json_model(*value)) is Some,
        r is Ok ==> r->Ok_0@ == json_text(json_model(*value))->Some_0,
{
    serde_json::to_string(value)
}

/// `serde_json::to_string_pretty` on a `Value`: its text over several
/// indented lines, which depends on what the value holds and on nothing else.
#[verifier::external_body]
pub(crate) fn to_pretty_text(value: &serde_json::Value) -> (r: Result<String, serde_json::Error>)
    ensures
        r is Ok <==> json_pretty_text(json_model(*value)) is Some,
        r is Ok ==> r->Ok_0@ == json_pretty_text(json_model(*value))->Some_0,
{
    serde_json::to_string_pretty(value)
}

} // verus!
