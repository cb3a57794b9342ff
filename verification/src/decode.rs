//! Typed reading of the fields of a JSON object.
//!
//! Each reader tells a missing or `null` field, a field of the right type and a
//! field of another type apart.

use vstd::prelude::*;

use crate::json::{Json, JsonV};
use crate::text::{opt_text, owned};

verus! {

/// A required string field.
pub open spec fn need_str(v: JsonV, key: Seq<char>) -> Option<Seq<char>> {
    v.str_at(key)
}

/// An optional string field: `None` if it is of another type.
pub open spec fn maybe_str(v: JsonV, key: Seq<char>) -> Option<Option<Seq<char>>> {
    match v.get(key) {
        None => Some(None),
        Some(JsonV::Null) => Some(None),
        Some(JsonV::Str(s)) => Some(Some(s)),
        _ => None,
    }
}

/// A required integer field that fits `i64`.
pub open spec fn need_i64(v: JsonV, key: Seq<char>) -> Option<int> {
    match v.get(key) {
        Some(f) => f.as_i64(),
        None => None,
    }
}

/// An optional integer field that fits `i64`: `None` if it is of another type.
pub open spec fn maybe_i64(v: JsonV, key: Seq<char>) -> Option<Option<int>> {
    match v.get(key) {
        None => Some(None),
        Some(JsonV::Null) => Some(None),
        Some(f) => match f.as_i64() {
            Some(i) => Some(Some(i)),
            None => None,
        },
    }
}

/// An optional integer field that fits `u64`: `None` if it is of another type.
pub open spec fn maybe_u64(v: JsonV, key: Seq<char>) -> Option<Option<int>> {
    match v.get(key) {
        None => Some(None),
        Some(JsonV::Null) => Some(None),
        Some(f) => match f.as_u64() {
            Some(i) => Some(Some(i)),
            None => None,
        },
    }
}

/// A string field that is empty where it is missing: `None` if it is of another
/// type, `null` included.
pub open spec fn default_str(v: JsonV, key: Seq<char>) -> Option<Seq<char>> {
    match v.get(key) {
        None => Some(seq![]),
        Some(JsonV::Str(s)) => Some(s),
        _ => None,
    }
}

/// An array field that is empty where it is missing: `None` if it is of another
/// type, `null` included.
pub open spec fn default_array(v: JsonV, key: Seq<char>) -> Option<Seq<JsonV>> {
    match v.get(key) {
        None => Some(seq![]),
        Some(JsonV::Arr(a)) => Some(a),
        _ => None,
    }
}

/// Reads a required string field.
pub fn read_str(v: &Json, key: &str) -> (r: Option<String>)
    ensures
        opt_text(r) == need_str(v.view(), key@),
{
    match v.str_at(key) {
        Some(s) => Some(owned(s)),
        None => None,
    }
}

/// Reads an optional string field.
pub fn read_maybe_str(v: &Json, key: &str) -> (r: Option<Option<String>>)
    ensures
        match r {
            Some(s) => maybe_str(v.view(), key@) == Some(opt_text(s)),
            None => maybe_str(v.view(), key@) is None,
        },
{
    match v.get(key) {
        None => Some(None),
        Some(f) => if f.is_null() {
            Some(None)
        } else {
            match f.as_str() {
                Some(s) => Some(Some(owned(s))),
                None => None,
            }
        },
    }
}

/// Reads a required integer field.
pub fn read_i64(v: &Json, key: &str) -> (r: Option<i64>)
    ensures
        match r {
            Some(i) => need_i64(v.view(), key@) == Some(i as int),
            None => need_i64(v.view(), key@) is None,
        },
{
    match v.get(key) {
        Some(f) => f.as_i64(),
        None => None,
    }
}

/// Reads an optional integer field.
pub fn read_maybe_i64(v: &Json, key: &str) -> (r: Option<Option<i64>>)
    ensures
        match r {
            Some(Some(i)) => maybe_i64(v.view(), key@) == Some(Some(i as int)),
            Some(None) => maybe_i64(v.view(), key@) == Some(None::<int>),
            None => maybe_i64(v.view(), key@) is None,
        },
{
    match v.get(key) {
        None => Some(None),
        Some(f) => if f.is_null() {
            Some(None)
        } else {
            match f.as_i64() {
                Some(i) => Some(Some(i)),
                None => None,
            }
        },
    }
}

/// Reads an optional unsigned integer field.
pub fn read_maybe_u64(v: &Json, key: &str) -> (r: Option<Option<u64>>)
    ensures
        match r {
            Some(Some(i)) => maybe_u64(v.view(), key@) == Some(Some(i as int)),
            Some(None) => maybe_u64(v.view(), key@) == Some(None::<int>),
            None => maybe_u64(v.view(), key@) is None,
        },
{
    match v.get(key) {
        None => Some(None),
        Some(f) => if f.is_null() {
            Some(None)
        } else {
            match f.as_u64() {
                Some(i) => Some(Some(i)),
                None => None,
            }
        },
    }
}

/// Reads a string field that is empty where it is missing.
pub fn read_default_str(v: &Json, key: &str) -> (r: Option<String>)
    ensures
        opt_text(r) == default_str(v.view(), key@),
{
    match v.get(key) {
        None => {
            let s = String::new();
            assert(s@ =~= seq![]);
            Some(s)
        },
        Some(f) => match f.as_str() {
            Some(s) => Some(owned(s)),
            None => None,
        },
    }
}

/// Reads an array field that is empty where it is missing.
pub fn read_default_array(v: &Json, key: &str) -> (r: Option<Vec<Json>>)
    ensures
        match r {
            Some(a) => default_array(v.view(), key@) == Some(crate::json::jsons(a@)),
            None => default_array(v.view(), key@) is None,
        },
{
    match v.get(key) {
        None => {
            let a: Vec<Json> = Vec::new();
            assert(crate::json::jsons(a@) =~= seq![]);
            Some(a)
        },
        Some(f) => match f.as_array() {
            Some(a) => Some(crate::json::copy_all(a)),
            None => None,
        },
    }
}

} // verus!
