//! The JSON values that envelopes carry, as `serde_json` holds them.
//!
//! A `serde_json::Value` is opaque to the verifier. What the library needs to
//! know of one is given a name here, and each function below states, without
//! proof, that one `serde_json` call returns what the name stands for.

use vstd::prelude::*;
use serde_json::Value;

verus! {

#[verifier::external_type_specification]
#[verifier::external_body]
pub struct ExJsonValue(serde_json::Value);

#[verifier::external_type_specification]
#[verifier::external_body]
pub struct ExJsonError(serde_json::Error);

/// The value that `serde_json::from_str` reads from `text`, if it is JSON.
pub uninterp spec fn json_parse(text: Seq<char>) -> Option<Value>;

/// Whether `v` is a JSON object.
pub uninterp spec fn json_is_object(v: Value) -> bool;

/// The member of the object `v` under `key`; `None` where `v` is no object or
/// has no such member.
pub uninterp spec fn json_member(v: Value, key: Seq<char>) -> Option<Value>;

/// Whether `v` is JSON `null`.
pub uninterp spec fn json_is_null(v: Value) -> bool;

/// The characters of `v`, where `v` is a JSON string.
pub uninterp spec fn json_str(v: Value) -> Option<Seq<char>>;

/// The number `v` as an unsigned integer, where `v` is a non-negative integer
/// that fits 64 bits.
pub uninterp spec fn json_u64(v: Value) -> Option<u64>;

/// The truth value `v`, where `v` is a JSON boolean.
pub uninterp spec fn json_bool(v: Value) -> Option<bool>;

/// The object whose one member is the boolean `flag` under `key`.
pub uninterp spec fn json_flag_object(key: Seq<char>, flag: bool) -> Value;

/// The compact JSON text of `v`.
pub uninterp spec fn json_text(v: Value) -> Seq<char>;

/// The JSON string whose characters are `s`.
pub uninterp spec fn json_string(s: Seq<char>) -> Value;

/// The JSON text of the string `s`: quoted, with its characters escaped.
pub open spec fn json_quoted(s: Seq<char>) -> Seq<char> {
    json_text(json_string(s))
}

/// Calls `serde_json::from_str` for a `Value`. Trusted: the call succeeds
/// exactly on the texts that `json_parse` knows, with that value.
#[verifier::external_body]
pub(crate) fn parse(text: &str) -> (r: Result<Value, serde_json::Error>)
    ensures
        match r {
            Ok(v) => json_parse(text@) == Some(v),
            Err(_) => json_parse(text@) is None,
        },
{
    serde_json::from_str::<Value>(text)
}

/// Calls `Value::is_object`. Trusted: the result is `json_is_object`.
#[verifier::external_body]
pub(crate) fn is_object(v: &Value) -> (r: bool)
    ensures
        r == json_is_object(*v),
{
    v.is_object()
}

/// Calls `Value::get` with a string key. Trusted: the result is the member
/// that `json_member` names.
#[verifier::external_body]
pub(crate) fn member<'a>(v: &'a Value, key: &str) -> (r: Option<&'a Value>)
    ensures
        match r {
            Some(m) => json_member(*v, key@) == Some(*m),
            None => json_member(*v, key@) is None,
        },
{
    v.get(key)
}

/// Calls `Value::is_null`. Trusted: the result is `json_is_null`.
#[verifier::external_body]
pub(crate) fn is_null(v: &Value) -> (r: bool)
    ensures
        r == json_is_null(*v),
{
    v.is_null()
}

/// Calls `Value::as_str`. Trusted: the result is `json_str`.
#[verifier::external_body]
pub(crate) fn as_str<'a>(v: &'a Value) -> (r: Option<&'a str>)
    ensures
        match r {
            Some(s) => json_str(*v) == Some(s@),
            None => json_str(*v) is None,
        },
{
    v.as_str()
}

/// Calls `Value::as_u64`. Trusted: the result is `json_u64`.
#[verifier::external_body]
pub(crate) fn as_u64(v: &Value) -> (r: Option<u64>)
    ensures
        r == json_u64(*v),
{
    v.as_u64()
}

/// Calls `Value::as_bool`. Trusted: the result is `json_bool`.
#[verifier::external_body]
pub(crate) fn as_bool(v: &Value) -> (r: Option<bool>)
    ensures
        r == json_bool(*v),
{
    v.as_bool()
}

/// Calls `Value::clone`. Trusted: the copy is the value itself.
#[verifier::external_body]
pub(crate) fn duplicate(v: &Value) -> (r: Value)
    ensures
        r == *v,
{
    v.clone()
}

/// Calls `to_string` on a `Value`, which writes it in compact form. Trusted:
/// the result is `json_text`.
#[verifier::external_body]
pub(crate) fn text_of(v: &Value) -> (r: String)
    ensures
        r@ == json_text(*v),
{
    v.to_string()
}

/// Calls `Value::from` on a string slice, which makes a `Value::String` of
/// it. Trusted: the result is the value that `json_string` names, a string
/// with the characters of `s`.
#[verifier::external_body]
pub(crate) fn string_value(s: &str) -> (r: Value)
    ensures
        r == json_string(s@),
        json_str(r) == Some(s@),
{
    Value::from(s)
}

/// Builds a `Value::Object` over a `serde_json::Map` into which one member was
/// inserted: `Value::Bool(flag)` under `key`. Trusted: the result is the value
/// that `json_flag_object` names, an object in which `key` leads to that
/// boolean.
#[verifier::external_body]
pub(crate) fn flag_object(key: &str, flag: bool) -> (r: Value)
    ensures
        r == json_flag_object(key@, flag),
        json_is_object(r),
        match json_member(r, key@) {
            Some(m) => json_bool(m) == Some(flag),
            None => false,
        },
{
    let mut members = serde_json::Map::new();
    members.insert(key.to_owned(), Value::Bool(flag));
    Value::Object(members)
}

} // verus!
