//! A mathematical model of JSON documents, and trusted access to
//! `serde_json` for parsing and for reading a parsed document.
//!
//! `serde_json::Value` is opaque to the verifier, so the contents of a
//! parsed document are named by the uninterpreted function [`json_model`],
//! and every reading method is specified against that name. The verified
//! schema walks elsewhere in the crate are stated over [`JsonV`] alone.

use vstd::prelude::*;

verus! {

/// The mathematical shape of a JSON document.
///
/// Numbers are split into the non-negative integers that `u64` reading
/// observes and all remaining numbers, which this crate never reads.
pub enum JsonV {
    Null,
    Bool(bool),
    UInt(u64),
    OtherNum,
    Str(Seq<char>),
    Arr(Seq<JsonV>),
    Obj(Map<Seq<char>, JsonV>),
}

#[verifier::external_type_specification]
#[verifier::external_body]
pub struct ExValue(serde_json::Value);

/// The document that parsing a text yields, if the text is valid JSON.
/// Parsing depends on the text alone.
pub uninterp spec fn json_of(s: Seq<char>) -> Option<JsonV>;

/// The contents of a parsed `serde_json::Value` tree.
pub uninterp spec fn json_model(v: serde_json::Value) -> JsonV;

/// Relies on `serde_json::from_str::<serde_json::Value>`: it returns `Ok`
/// exactly on valid JSON text, and the returned tree is the parse of that
/// text.
#[verifier::external_body]
pub(crate) fn parse_json(s: &str) -> (r: Option<serde_json::Value>)
    ensures
        r is Some <==> json_of(s@) is Some,
        r is Some ==> json_model(r->0) == json_of(s@)->0,
{
    serde_json::from_str::<serde_json::Value>(s).ok()
}

/// Relies on `serde_json::Value::get` with a string key: on an object it
/// looks the key up in the underlying map, on every other value it
/// returns `None`.
#[verifier::external_body]
pub(crate) fn json_get<'a>(v: &'a serde_json::Value, key: &str) -> (r: Option<&'a serde_json::Value>)
    ensures
        match json_model(*v) {
            JsonV::Obj(m) => {
                &&& r is Some <==> m.contains_key(key@)
                &&& r is Some ==> json_model(*r->0) == m[key@]
            },
            _ => r is None,
        },
{
    v.get(key)
}

/// Relies on `serde_json::Value::as_str`: it returns the characters of a
/// string value and `None` for every other value.
#[verifier::external_body]
pub(crate) fn json_as_str<'a>(v: &'a serde_json::Value) -> (r: Option<&'a str>)
    ensures
        r is Some <==> json_model(*v) is Str,
        r is Some ==> r->0@ == json_model(*v)->Str_0,
{
    v.as_str()
}

/// Relies on `serde_json::Value::as_u64`: it returns the value of a number
/// representable as `u64` and `None` for every other value.
#[verifier::external_body]
pub(crate) fn json_as_u64(v: &serde_json::Value) -> (r: Option<u64>)
    ensures
        r is Some <==> json_model(*v) is UInt,
        r is Some ==> r->0 == json_model(*v)->UInt_0,
{
    v.as_u64()
}

/// Relies on `serde_json::Value::as_array`: it returns the elements of an
/// array value and `None` for every other value.
#[verifier::external_body]
pub(crate) fn json_as_array<'a>(v: &'a serde_json::Value) -> (r: Option<&'a Vec<serde_json::Value>>)
    ensures
        r is Some <==> json_model(*v) is Arr,
        r is Some ==> {
            &&& r->0@.len() == json_model(*v)->Arr_0.len()
            &&& forall|i: int|
                0 <= i < r->0@.len() ==> json_model(#[trigger] r->0@[i]) == json_model(*v)->Arr_0[i]
        },
{
    v.as_array()
}

/// Relies on `serde_json::Value::is_object`: it tells an object apart
/// from every other value.
#[verifier::external_body]
pub(crate) fn json_is_object(v: &serde_json::Value) -> (r: bool)
    ensures
        r == (json_model(*v) is Obj),
{
    v.is_object()
}

/// Relies on `serde_json::Value::is_null`: it tells the null value apart
/// from every other value.
#[verifier::external_body]
pub(crate) fn json_is_null(v: &serde_json::Value) -> (r: bool)
    ensures
        r == (json_model(*v) is Null),
{
    v.is_null()
}

} // verus!
