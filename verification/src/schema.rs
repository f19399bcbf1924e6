//! Field readers shared by the wire-schema walks: required and optional
//! fields of a JSON object, and the wire spelling of message roles.

use vstd::prelude::*;
use crate::json::{JsonV, json_as_str, json_as_u64, json_get, json_is_null, json_model};
use crate::request::Role;
use crate::text;

verus! {

pub open spec fn spec_field(m: Map<Seq<char>, JsonV>, k: Seq<char>) -> Option<JsonV> {
    if m.contains_key(k) {
        Some(m[k])
    } else {
        None
    }
}

/// A required `u64` field: anything else refuses the document.
pub open spec fn spec_u64_field(m: Map<Seq<char>, JsonV>, k: Seq<char>) -> Option<u64> {
    match spec_field(m, k) {
        Some(JsonV::UInt(u)) => Some(u),
        _ => None,
    }
}

/// A required string field: anything else refuses the document.
pub open spec fn spec_str_field(m: Map<Seq<char>, JsonV>, k: Seq<char>) -> Option<Seq<char>> {
    match spec_field(m, k) {
        Some(JsonV::Str(s)) => Some(s),
        _ => None,
    }
}

/// An optional string field: absent or null reads as `Some(None)`, a
/// string as `Some(Some(..))`; any other value refuses the document.
pub open spec fn spec_opt_str_field(m: Map<Seq<char>, JsonV>, k: Seq<char>) -> Option<
    Option<Seq<char>>,
> {
    match spec_field(m, k) {
        None => Some(None),
        Some(JsonV::Null) => Some(None),
        Some(JsonV::Str(s)) => Some(Some(s)),
        Some(_) => None,
    }
}

pub(crate) fn u64_field(v: &serde_json::Value, key: &str) -> (r: Option<u64>)
    requires
        json_model(*v) is Obj,
    ensures
        r == spec_u64_field(json_model(*v)->Obj_0, key@),
{
    match json_get(v, key) {
        Some(f) => json_as_u64(f),
        None => None,
    }
}

pub(crate) fn str_field(v: &serde_json::Value, key: &str) -> (r: Option<String>)
    requires
        json_model(*v) is Obj,
    ensures
        r.deep_view() == spec_str_field(json_model(*v)->Obj_0, key@),
{
    match json_get(v, key) {
        Some(f) => match json_as_str(f) {
            Some(s) => Some(String::from_str(s)),
            None => None,
        },
        None => None,
    }
}

pub(crate) fn opt_str_field(v: &serde_json::Value, key: &str) -> (r: Option<Option<String>>)
    requires
        json_model(*v) is Obj,
    ensures
        match spec_opt_str_field(json_model(*v)->Obj_0, key@) {
            Some(o) => (r matches Some(ro) && ro.deep_view() == o),
            None => r is None,
        },
{
    match json_get(v, key) {
        None => Some(None),
        Some(f) => {
            if json_is_null(f) {
                Some(None)
            } else {
                match json_as_str(f) {
                    Some(s) => Some(Some(String::from_str(s))),
                    None => None,
                }
            }
        },
    }
}

/// The wire spelling of a role.
pub open spec fn spec_role_of(s: Seq<char>) -> Option<Role> {
    if s == "system"@ {
        Some(Role::System)
    } else if s == "user"@ {
        Some(Role::User)
    } else if s == "assistant"@ {
        Some(Role::Assistant)
    } else if s == "tool"@ {
        Some(Role::Tool)
    } else {
        None
    }
}

pub(crate) fn role_of(s: &str) -> (r: Option<Role>)
    ensures
        r == spec_role_of(s@),
{
    if text::str_eq(s, "system") {
        Some(Role::System)
    } else if text::str_eq(s, "user") {
        Some(Role::User)
    } else if text::str_eq(s, "assistant") {
        Some(Role::Assistant)
    } else if text::str_eq(s, "tool") {
        Some(Role::Tool)
    } else {
        None
    }
}

} // verus!
