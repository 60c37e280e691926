//! JSON documents as `serde_json` holds them, and what verified code may
//! know about one.

use vstd::prelude::*;

verus! {

/// `serde_json::Value`, a JSON document in memory. Verified code sees
/// nothing inside one; what it holds is told by [`json_model`].
#[verifier::external_type_specification]
#[verifier::external_body]
pub struct ExValue(serde_json::Value);

/// `serde_json::Error`, the reason why a text was rejected. It is only
/// handed on.
#[verifier::external_type_specification]
#[verifier::external_body]
pub struct ExJsonError(serde_json::Error);

/// The content of a JSON document.
///
/// `Integer` is a number that `serde_json` holds as an integer, which it
/// can from -2^63 up to 2^64 - 1. Every other number appears as
/// `Fraction`, whatever its size: the library never reads it. An object is
/// a map from its keys to its members.
pub enum Json {
    Null,
    Bool(bool),
    Integer(int),
    Fraction,
    Text(Seq<char>),
    Array(Seq<Json>),
    Object(Map<Seq<char>, Json>),
}

/// What a `serde_json::Value` holds.
pub uninterp spec fn json_model(value: serde_json::Value) -> Json;

/// What `serde_json::from_str` reads from a text: the document that the
/// text denotes, or `None` where it rejects the text.
pub uninterp spec fn json_parse(text: Seq<char>) -> Option<Json>;

impl Json {
    /// The member of an object under a key; `Null` where there is none.
    pub open spec fn member(self, key: Seq<char>) -> Json {
        match self {
            Json::Object(members) if members.dom().contains(key) => members[key],
            _ => Json::Null,
        }
    }

    /// The items of an array.
    pub open spec fn items(self) -> Option<Seq<Json>> {
        match self {
            Json::Array(items) => Some(items),
            _ => None,
        }
    }

    /// The characters of a string.
    pub open spec fn text(self) -> Option<Seq<char>> {
        match self {
            Json::Text(text) => Some(text),
            _ => None,
        }
    }

    /// An integer that fits in 64 signed bits.
    pub open spec fn as_i64(self) -> Option<i64> {
        match self {
            Json::Integer(n) if i64::MIN <= n <= i64::MAX => Some(n as i64),
            _ => None,
        }
    }
}

/// The contents of each document of a sequence.
pub open spec fn json_models(values: Seq<serde_json::Value>) -> Seq<Json> {
    values.map_values(|value: serde_json::Value| json_model(value))
}

/// `serde_json::from_str` at the type `Value`. Its outcome depends on the
/// text alone: either the document that [`json_parse`] names for the text,
/// or an error where it names none.
#[verifier::external_body]
pub(crate) fn parse_document(text: &str) -> (parsed: Result<serde_json::Value, serde_json::Error>)
    ensures
        match parsed {
            Ok(value) => json_parse(text@) == Some(json_model(value)),
            Err(_) => json_parse(text@) is None,
        },
{
    serde_json::from_str::<serde_json::Value>(text)
}

/// Indexing a `serde_json::Value` by a string, as in `value["key"]`: the
/// member of an object under that key, and a `Null` for a missing key or
/// for a value that is no object. It never panics.
#[verifier::external_body]
pub(crate) fn member_of<'a>(value: &'a serde_json::Value, key: &str) -> (found: &'a serde_json::Value)
    ensures
        json_model(*found) == json_model(*value).member(key@),
{
    &value[key]
}

/// `serde_json::Value::as_array`: the vector of the items of an array, and
/// `None` for any other value.
pub assume_specification[ serde_json::Value::as_array ](value: &serde_json::Value) -> (items: Option<&Vec<serde_json::Value>>)
    ensures
        match items {
            Some(vector) => json_model(*value).items() == Some(json_models(vector@)),
            None => json_model(*value).items() is None,
        },
;

/// `serde_json::Value::as_str`: the text of a string, and `None` for any
/// other value.
pub assume_specification[ serde_json::Value::as_str ](value: &serde_json::Value) -> (text: Option<&str>)
    ensures
        match text {
            Some(slice) => json_model(*value).text() == Some(slice@),
            None => json_model(*value).text() is None,
        },
;

/// `serde_json::Value::as_i64`: an integer that fits in an `i64`, and
/// `None` for a larger integer, for any other number, and for a value that
/// is no number.
pub assume_specification[ serde_json::Value::as_i64 ](value: &serde_json::Value) -> (number: Option<i64>)
    ensures
        number == json_model(*value).as_i64(),
;

} // verus!
