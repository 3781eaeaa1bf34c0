//! Trusted field lookups in JSON text. Parsing JSON is left to serde_json;
//! its results are named by uninterpreted functions that the verified logic
//! builds on.

use vstd::prelude::*;

verus! {

/// The string field `key` of the JSON object written in `s`: `Some` exactly
/// when `s` is a JSON document whose top-level object has a string at `key`.
pub uninterp spec fn json_str_field(s: Seq<char>, key: Seq<char>) -> Option<Seq<char>>;

/// The unsigned-integer field `key` of the JSON object written in `s`.
pub uninterp spec fn json_u64_field(s: Seq<char>, key: Seq<char>) -> Option<u64>;

/// Relies on serde_json (`from_str`, `Value::get`, `Value::as_str`): parses
/// `s` and looks up the string field `key` of the top-level object.
#[verifier::external_body]
pub fn get_json_str_field(s: &str, key: &str) -> (r: Option<String>)
    ensures
        r is Some <==> json_str_field(s@, key@) is Some,
        r matches Some(v) ==> v@ == json_str_field(s@, key@)->0,
{
    let value: serde_json::Value = serde_json::from_str(s).ok()?;
    Some(value.get(key)?.as_str()?.to_owned())
}

/// The string field `inner` of the object at `outer` inside the JSON object
/// written in `s`.
pub uninterp spec fn json_nested_str_field(s: Seq<char>, outer: Seq<char>, inner: Seq<char>) -> Option<
    Seq<char>,
>;

/// Relies on serde_json (`from_str`, `Value::get`, `Value::as_str`): parses
/// `s` and looks up the string field `inner` of the object at `outer`.
#[verifier::external_body]
pub fn get_json_nested_str_field(s: &str, outer: &str, inner: &str) -> (r: Option<String>)
    ensures
        r is Some <==> json_nested_str_field(s@, outer@, inner@) is Some,
        r matches Some(v) ==> v@ == json_nested_str_field(s@, outer@, inner@)->0,
{
    let value: serde_json::Value = serde_json::from_str(s).ok()?;
    Some(value.get(outer)?.get(inner)?.as_str()?.to_owned())
}

/// Relies on serde_json (`from_str`, `Value::get`, `Value::as_u64`): parses
/// `s` and looks up the unsigned-integer field `key` of the top-level object.
#[verifier::external_body]
pub fn get_json_u64_field(s: &str, key: &str) -> (r: Option<u64>)
    ensures
        r == json_u64_field(s@, key@),
{
    let value: serde_json::Value = serde_json::from_str(s).ok()?;
    value.get(key)?.as_u64()
}

} // verus!
