//! JSON values, as `serde_json` reads and writes them.
//!
//! The values themselves stay inside `serde_json::Value`. What a value holds
//! is described by [`Json`], and the few calls that the library makes into
//! `serde_json` are the functions of this module, whose contracts are taken
//! on trust.

use vstd::prelude::*;

verus! {

/// What a JSON value holds.
pub enum Json {
    Null,
    Bool(bool),
    /// A number written without fraction or exponent.
    Int(int),
    /// Any other number, by the bits of the 64-bit binary number that holds it.
    Inexact(u64),
    Str(Seq<char>),
    Array(Seq<Json>),
    Object(Map<Seq<char>, Json>),
}

#[verifier::external_type_specification]
#[verifier::external_body]
pub struct ExValue(serde_json::Value);

/// What `v` holds.
pub uninterp spec fn json_view(v: serde_json::Value) -> Json;

/// What `serde_json` makes of `bytes`: either the value that they spell, or
/// the message with which it refuses them.
pub uninterp spec fn json_parse(bytes: Seq<u8>) -> Result<Json, Seq<char>>;

/// The bytes that `serde_json` writes for a value that holds `j`, where it
/// writes any: compact JSON, the members of each object in the order of
/// their keys.
pub uninterp spec fn json_text(j: Json) -> Option<Seq<u8>>;

/// `serde_json::from_slice`, read as a value of any shape. The result is
/// `json_parse` of the bytes; an error is handed on as the text that
/// `serde_json` displays for it.
#[verifier::external_body]
pub(crate) fn parse(bytes: &[u8]) -> (r: Result<serde_json::Value, String>)
    ensures
        match r {
            Ok(v) => json_parse(bytes@) == Ok::<Json, Seq<char>>(json_view(v)),
            Err(e) => json_parse(bytes@) == Err::<Json, Seq<char>>(e@),
        },
{
    match serde_json::from_slice::<serde_json::Value>(bytes) {
        Ok(v) => Ok(v),
        Err(e) => Err(e.to_string()),
    }
}

/// `serde_json::Value::get` with a string: the member `key` of an object,
/// and nothing for any other value or a key that the object lacks.
#[verifier::external_body]
pub(crate) fn member<'a>(v: &'a serde_json::Value, key: &str) -> (r: Option<&'a serde_json::Value>)
    ensures
        match r {
            Some(m) => json_view(*v) matches Json::Object(o) && o.contains_key(key@) && o[key@]
                == json_view(*m),
            None => !(json_view(*v) matches Json::Object(o) && o.contains_key(key@)),
        },
{
    v.get(key)
}

/// `serde_json::Value::as_i64`: the number, where the value is an integer
/// that an `i64` can hold.
#[verifier::external_body]
pub(crate) fn as_i64(v: &serde_json::Value) -> (r: Option<i64>)
    ensures
        match r {
            Some(n) => json_view(*v) == Json::Int(n as int),
            None => !(json_view(*v) matches Json::Int(n) && i64::MIN <= n <= i64::MAX),
        },
{
    v.as_i64()
}

/// `serde_json::Value::as_u64`: the number, where the value is an integer
/// that a `u64` can hold.
#[verifier::external_body]
pub(crate) fn as_u64(v: &serde_json::Value) -> (r: Option<u64>)
    ensures
        match r {
            Some(n) => json_view(*v) == Json::Int(n as int),
            None => !(json_view(*v) matches Json::Int(n) && 0 <= n <= u64::MAX),
        },
{
    v.as_u64()
}

/// `serde_json::Value::as_bool`.
#[verifier::external_body]
pub(crate) fn as_bool(v: &serde_json::Value) -> (r: Option<bool>)
    ensures
        match r {
            Some(b) => json_view(*v) == Json::Bool(b),
            None => !(json_view(*v) is Bool),
        },
{
    v.as_bool()
}

/// `serde_json::Value::as_str`, copied into a `String`.
#[verifier::external_body]
pub(crate) fn as_string(v: &serde_json::Value) -> (r: Option<String>)
    ensures
        match r {
            Some(s) => json_view(*v) == Json::Str(s@),
            None => !(json_view(*v) is Str),
        },
{
    v.as_str().map(|s| s.to_owned())
}

/// `serde_json::Value::as_array`: the items of an array, in their order.
#[verifier::external_body]
pub(crate) fn as_array<'a>(v: &'a serde_json::Value) -> (r: Option<&'a Vec<serde_json::Value>>)
    ensures
        match r {
            Some(items) => json_view(*v) matches Json::Array(a) && a.len() == items@.len()
                && forall|i: int| 0 <= i < a.len() ==> a[i] == json_view(#[trigger] items@[i]),
            None => !(json_view(*v) is Array),
        },
{
    v.as_array()
}

/// `serde_json::Value::from` of a string slice: a JSON string.
#[verifier::external_body]
pub(crate) fn string_value(s: &str) -> (v: serde_json::Value)
    ensures
        json_view(v) == Json::Str(s@),
{
    serde_json::Value::from(s)
}

/// `serde_json::Value::from` of a `u64`: a JSON integer.
#[verifier::external_body]
pub(crate) fn uint_value(n: u64) -> (v: serde_json::Value)
    ensures
        json_view(v) == Json::Int(n as int),
{
    serde_json::Value::from(n)
}

/// `serde_json::Map::new`, as a value: an object without members.
#[verifier::external_body]
pub(crate) fn empty_object() -> (v: serde_json::Value)
    ensures
        json_view(v) == Json::Object(Map::<Seq<char>, Json>::empty()),
{
    serde_json::Value::Object(serde_json::Map::new())
}

/// `serde_json::Map::insert` on the members of an object: `key` is set to
/// `value`, whether the object had that key or not.
#[verifier::external_body]
pub(crate) fn set_member(object: &mut serde_json::Value, key: &str, value: serde_json::Value)
    requires
        json_view(*old(object)) is Object,
    ensures
        json_view(*final(object)) == Json::Object(
            json_view(*old(object))->Object_0.insert(key@, json_view(value)),
        ),
{
    if let serde_json::Value::Object(members) = object {
        members.insert(key.to_owned(), value);
    }
}

/// `serde_json::to_vec` of a value: its JSON text, or nothing where
/// `serde_json` reports an error. The members of an object are written in
/// the order of their keys, so the text depends on nothing but what the
/// value holds.
#[verifier::external_body]
pub(crate) fn to_bytes(v: &serde_json::Value) -> (r: Option<Vec<u8>>)
    ensures
        match r {
            Some(bytes) => json_text(json_view(*v)) == Some(bytes@),
            None => json_text(json_view(*v)) is None,
        },
{
    serde_json::to_vec(v).ok()
}

} // verus!
