//! The JSON reader that the structured status report goes through.
//!
//! Parsing is done by `serde_json`. Nothing in this file is proved: each
//! item states what the library relies on.

use serde_json::Value;
use vstd::prelude::*;

verus! {

/// `serde_json::Value`: a JSON document or a part of one. The library
/// looks into one through the functions below only.
#[verifier::external_type_specification]
#[verifier::external_body]
pub struct ExJsonValue(serde_json::Value);

/// `serde_json::Error`: why a text is no JSON document. The library asks
/// nothing of it.
#[verifier::external_type_specification]
#[verifier::external_body]
pub struct ExJsonError(serde_json::Error);

/// What a JSON value holds, as far as this library looks into one.
pub enum Json {
    Null,
    /// A number written as a non-negative integer that fits 64 bits.
    Unsigned(u64),
    Text(Seq<char>),
    Object(Map<Seq<char>, Json>),
    /// A boolean, an array, or a number that is negative or has a fraction
    /// or an exponent.
    Other,
}

/// What a `serde_json::Value` holds.
pub uninterp spec fn json_content(v: serde_json::Value) -> Json;

/// What `serde_json::from_str` reads from a text: the document, or `None`
/// where the text is not one JSON value.
pub uninterp spec fn json_decoded(text: Seq<char>) -> Option<Json>;

/// The member of an object under a key.
pub open spec fn spec_member(j: Json, key: Seq<char>) -> Option<Json> {
    match j {
        Json::Object(fields) => if fields.contains_key(key) {
            Some(fields[key])
        } else {
            None
        },
        _ => None,
    }
}

/// `serde_json::from_str::<Value>`: the same text always reads as the same
/// document, and an error means that it reads as none.
#[verifier::external_body]
pub(crate) fn parse_json(s: &str) -> (r: Result<Value, serde_json::Error>)
    ensures
        match r {
            Ok(v) => json_decoded(s@) == Some(json_content(v)),
            Err(_) => json_decoded(s@) is None,
        },
{
    serde_json::from_str::<Value>(s)
}

/// `Value::get` with a string index: the member under that key where the
/// value is an object that has one, else `None`.
#[verifier::external_body]
pub(crate) fn json_get<'a>(v: &'a Value, key: &str) -> (r: Option<&'a Value>)
    ensures
        match r {
            Some(m) => spec_member(json_content(*v), key@) == Some(json_content(*m)),
            None => spec_member(json_content(*v), key@) is None,
        },
{
    v.get(key)
}

/// `Value::is_null`.
#[verifier::external_body]
pub(crate) fn json_is_null(v: &Value) -> (r: bool)
    ensures
        r == (json_content(*v) is Null),
{
    v.is_null()
}

/// `Value::is_object`.
#[verifier::external_body]
pub(crate) fn json_is_object(v: &Value) -> (r: bool)
    ensures
        r == (json_content(*v) is Object),
{
    v.is_object()
}

/// `Value::as_u64`: the number where the value is a non-negative integer
/// that fits 64 bits, else `None`.
#[verifier::external_body]
pub(crate) fn json_as_u64(v: &Value) -> (r: Option<u64>)
    ensures
        match r {
            Some(n) => json_content(*v) == Json::Unsigned(n),
            None => !(json_content(*v) is Unsigned),
        },
{
    v.as_u64()
}

/// `Value::as_str`: the text where the value is a string, else `None`.
#[verifier::external_body]
pub(crate) fn json_as_str<'a>(v: &'a Value) -> (r: Option<&'a str>)
    ensures
        match r {
            Some(t) => json_content(*v) == Json::Text(t@),
            None => !(json_content(*v) is Text),
        },
{
    v.as_str()
}

} // verus!
