//! JSON documents, read and written by serde_json.
//!
//! A document is a `serde_json::Value`. The contracts speak of what a
//! document holds through `Json`, a tree of plain values, and `json_of`
//! names the tree that a given document holds. Each function of serde_json
//! that the library calls has one wrapper here; nothing in this file is
//! proved.

use vstd::prelude::*;

use crate::number::RealBits;
use crate::text::decimal;

verus! {

/// `Value` of serde_json, opaque: the contracts see what a document holds
/// through `json_of` alone.
#[verifier::external_type_specification]
#[verifier::external_body]
pub struct ExValue(serde_json::Value);

/// `Error` of serde_json, opaque: only its message is ever taken from it.
#[verifier::external_type_specification]
#[verifier::external_body]
pub struct ExJsonError(serde_json::Error);

/// A JSON number: a non-negative integer, a negative integer, or a finite
/// real.
pub enum JsonNumber {
    Unsigned(u64),
    Negative(i64),
    Fraction(RealBits),
}

/// What a JSON document holds.
pub enum Json {
    Null,
    Bool(bool),
    Number(JsonNumber),
    Text(Seq<char>),
    Array(Seq<Json>),
    Object(Map<Seq<char>, Json>),
}

impl Json {
    /// The member `key` of an object; `Null` where there is no such member
    /// and where this is no object.
    pub open spec fn member(self, key: Seq<char>) -> Json {
        match self {
            Json::Object(members) => if members.contains_key(key) {
                members[key]
            } else {
                Json::Null
            },
            _ => Json::Null,
        }
    }

    /// The characters of a string; `None` for anything else.
    pub open spec fn text(self) -> Option<Seq<char>> {
        match self {
            Json::Text(s) => Some(s),
            _ => None,
        }
    }

    /// The value of an integer that fits 64 signed bits; `None` for any
    /// other number and for anything that is no number.
    pub open spec fn integer(self) -> Option<i64> {
        match self {
            Json::Number(JsonNumber::Unsigned(n)) => if n <= i64::MAX {
                Some(n as i64)
            } else {
                None
            },
            Json::Number(JsonNumber::Negative(n)) => Some(n),
            _ => None,
        }
    }

    /// A number as a real: a real is itself, an integer is the real that
    /// `real_of` names for it, and anything else is none.
    pub open spec fn number(self) -> Option<RealBits> {
        match self {
            Json::Number(JsonNumber::Fraction(x)) => Some(x),
            Json::Number(_) => real_of(self),
            _ => None,
        }
    }

    /// The items of an array; `None` for anything else.
    pub open spec fn items(self) -> Option<Seq<Json>> {
        match self {
            Json::Array(items) => Some(items),
            _ => None,
        }
    }
}

/// What the document `v` holds.
pub uninterp spec fn json_of(v: serde_json::Value) -> Json;

/// What serde_json reads from `bytes`: the document, or `None` where the
/// bytes are no JSON text.
pub uninterp spec fn json_document(bytes: Seq<u8>) -> Option<Json>;

/// A number as a real: the real itself, and for an integer the nearest
/// real, as the conversion of the integer gives it. `None` for anything
/// that is no number.
pub uninterp spec fn real_of(j: Json) -> Option<RealBits>;

/// The JSON text that serde_json writes for a document, without any
/// whitespace between its parts.
pub uninterp spec fn rendered(j: Json) -> Seq<char>;

/// The JSON text of a document with the plain cases spelled out: `null`,
/// `true` and `false` for those three; an integer in decimal, with `-`
/// before a negative one; and for a real, a string, an array or an object
/// what `rendered` names.
pub open spec fn written(j: Json) -> Seq<char> {
    match j {
        Json::Null => "null"@,
        Json::Bool(b) => if b {
            "true"@
        } else {
            "false"@
        },
        Json::Number(JsonNumber::Unsigned(n)) => decimal(n as int),
        Json::Number(JsonNumber::Negative(n)) => decimal(n as int),
        _ => rendered(j),
    }
}

/// The documents of a list, each as what it holds.
pub open spec fn json_items(items: Seq<serde_json::Value>) -> Seq<Json> {
    items.map_values(|v: serde_json::Value| json_of(v))
}

/// `serde_json::from_slice` for a `Value`: reads one JSON document from
/// `bytes`. Claims that the outcome is a function of the bytes alone.
#[verifier::external_body]
pub(crate) fn parse_document(bytes: &[u8]) -> (r: Result<serde_json::Value, serde_json::Error>)
    ensures
        match r {
            Ok(v) => json_document(bytes@) == Some(json_of(v)),
            Err(_) => json_document(bytes@) is None,
        },
{
    serde_json::from_slice(bytes)
}

/// `Display` of `serde_json::Error`: the message of a failed read. Nothing
/// is claimed of the message.
#[verifier::external_body]
pub(crate) fn error_text(e: &serde_json::Error) -> String {
    e.to_string()
}

/// Indexing a `Value` by a string, `v[key]`: the member of that name, and
/// `Null` where `v` is no object or has no such member.
#[verifier::external_body]
pub(crate) fn member<'a>(v: &'a serde_json::Value, key: &str) -> (r: &'a serde_json::Value)
    ensures
        json_of(*r) == json_of(*v).member(key@),
{
    &v[key]
}

/// `Value::as_str`: the string, where `v` is one.
#[verifier::external_body]
pub(crate) fn text_of(v: &serde_json::Value) -> (r: Option<&str>)
    ensures
        match r {
            Some(s) => json_of(*v).text() == Some(s@),
            None => json_of(*v).text() is None,
        },
{
    v.as_str()
}

/// `Value::as_i64`: the integer, where `v` is one that fits 64 signed bits.
#[verifier::external_body]
pub(crate) fn integer_of(v: &serde_json::Value) -> (r: Option<i64>)
    ensures
        r == json_of(*v).integer(),
{
    v.as_i64()
}

/// `Value::as_f64`, the result as its bit pattern, which `real_of` names:
/// present exactly where `v` is a number, and the real itself where `v` is
/// one.
#[verifier::external_body]
pub(crate) fn number_of(v: &serde_json::Value) -> (r: Option<RealBits>)
    ensures
        r == real_of(json_of(*v)),
        r == json_of(*v).number(),
        r is Some <==> json_of(*v) is Number,
{
    v.as_f64().map(|x| RealBits { bits: x.to_bits() })
}

/// `Value::as_array`: the items, where `v` is an array.
#[verifier::external_body]
pub(crate) fn items_of(v: &serde_json::Value) -> (r: Option<&Vec<serde_json::Value>>)
    ensures
        match r {
            Some(items) => json_of(*v).items() == Some(json_items(items@)),
            None => json_of(*v).items() is None,
        },
{
    v.as_array()
}

/// `Value::is_object`: whether `v` is an object.
#[verifier::external_body]
pub(crate) fn is_object(v: &serde_json::Value) -> (r: bool)
    ensures
        r == (json_of(*v) is Object),
{
    v.is_object()
}

/// `Display` of `Value`: the document as compact JSON text, which
/// `rendered` names. Claims in full the text of `null`, of the booleans and
/// of the integers, which serde_json writes in decimal.
#[verifier::external_body]
pub(crate) fn render(v: &serde_json::Value) -> (r: String)
    ensures
        r@ == rendered(json_of(*v)),
        r@ == written(json_of(*v)),
{
    v.to_string()
}

/// `Value::from` for a string: the document that holds just that string.
#[verifier::external_body]
pub(crate) fn text_document(s: &str) -> (r: serde_json::Value)
    ensures
        json_of(r) == Json::Text(s@),
{
    serde_json::Value::from(s)
}

} // verus!
