//! JSON texts: reading and writing them with `serde_json`.
//!
//! What a text means, and how a value is written, is `serde_json`'s business; the
//! functions here carry its values into [`Json`] and back, one for one.

use vstd::prelude::*;

use crate::text::{blank, unbroken};
use crate::json::{
    Json, JsonV, fields, integer_in, jsons, lemma_array_view, lemma_fields_push, number_as_i64,
    number_as_u64, number_json,
};

verus! {

/// An opaque `serde_json` value.
#[verifier::external_type_specification]
#[verifier::external_body]
pub struct ExValue(serde_json::Value);

/// The error of a text that is not JSON.
#[verifier::external_type_specification]
#[verifier::external_body]
pub struct ExError(serde_json::Error);

/// What a `serde_json` value holds.
pub uninterp spec fn json_of(v: serde_json::Value) -> JsonV;

/// The value that a JSON text stands for, if it is one.
pub uninterp spec fn parsed(text: Seq<char>) -> Option<JsonV>;

/// The compact JSON text of a value.
pub uninterp spec fn rendered(v: JsonV) -> Seq<char>;

/// One level of a `serde_json` value.
pub enum ValueShape {
    Null,
    Bool(bool),
    Number(serde_json::Number),
    Str(String),
    Array(Vec<serde_json::Value>),
    Object(Vec<(String, serde_json::Value)>),
}

/// The members of an object as a map; a later member of the same name wins.
pub open spec fn members(s: Seq<(String, serde_json::Value)>) -> Map<Seq<char>, JsonV>
    decreases s.len(),
{
    if s.len() == 0 {
        Map::empty()
    } else {
        members(s.drop_last()).insert(s.last().0@, json_of(s.last().1))
    }
}

/// What one level holds.
pub open spec fn shape_json(s: ValueShape) -> JsonV {
    match s {
        ValueShape::Null => JsonV::Null,
        ValueShape::Bool(b) => JsonV::Bool(b),
        ValueShape::Number(n) => number_json(n),
        ValueShape::Str(t) => JsonV::Str(t@),
        ValueShape::Array(a) => JsonV::Arr(Seq::new(a@.len(), |i: int| json_of(a@[i]))),
        ValueShape::Object(e) => JsonV::Obj(members(e@)),
    }
}

/// `serde_json::from_str` for `serde_json::Value`: whether it succeeds, and
/// with which value, depends on the text alone.
#[verifier::external_body]
fn parse_value(text: &str) -> (r: Result<serde_json::Value, serde_json::Error>)
    ensures
        match r {
            Ok(v) => parsed(text@) == Some(json_of(v)),
            Err(_) => parsed(text@) is None,
        },
{
    serde_json::from_str::<serde_json::Value>(text)
}

/// Takes a `serde_json::Value` apart by its variants. The names of an object
/// differ from each other.
#[verifier::external_body]
fn open_value(v: serde_json::Value) -> (r: ValueShape)
    ensures
        shape_json(r) == json_of(v),
        r matches ValueShape::Object(e) ==> forall|i: int, j: int|
            0 <= i < j < e@.len() ==> (#[trigger] e@[i]).0@ != (#[trigger] e@[j]).0@,
{
    match v {
        serde_json::Value::Null => ValueShape::Null,
        serde_json::Value::Bool(b) => ValueShape::Bool(b),
        serde_json::Value::Number(n) => ValueShape::Number(n),
        serde_json::Value::String(s) => ValueShape::Str(s),
        serde_json::Value::Array(a) => ValueShape::Array(a),
        serde_json::Value::Object(m) => ValueShape::Object(m.into_iter().collect()),
    }
}

/// Puts a `serde_json::Value` together from one of its variants.
#[verifier::external_body]
fn build_value(s: ValueShape) -> (r: serde_json::Value)
    ensures
        json_of(r) == shape_json(s),
{
    match s {
        ValueShape::Null => serde_json::Value::Null,
        ValueShape::Bool(b) => serde_json::Value::Bool(b),
        ValueShape::Number(n) => serde_json::Value::Number(n),
        ValueShape::Str(s) => serde_json::Value::String(s),
        ValueShape::Array(a) => serde_json::Value::Array(a),
        ValueShape::Object(e) => serde_json::Value::Object(e.into_iter().collect()),
    }
}

/// `serde_json::Number::from` on an `i64` holds that integer.
#[verifier::external_body]
fn number_from_i64(i: i64) -> (r: serde_json::Number)
    ensures
        integer_in(r) == Some(i as int),
{
    serde_json::Number::from(i)
}

/// `serde_json::Number::from` on a `u64` holds that integer.
#[verifier::external_body]
fn number_from_u64(i: u64) -> (r: serde_json::Number)
    ensures
        integer_in(r) == Some(i as int),
{
    serde_json::Number::from(i)
}

/// Values that a JSON text carries without loss: nested at most `n` deep, with
/// integers in the range of the two 64-bit types and no other numbers.
pub open spec fn storable(v: JsonV, n: nat) -> bool
    decreases n,
{
    match v {
        JsonV::Int(i) => i64::MIN <= i <= u64::MAX,
        JsonV::Float(_) => false,
        JsonV::Arr(a) => n > 0 && forall|i: int|
            0 <= i < a.len() ==> storable(#[trigger] a[i], (n - 1) as nat),
        JsonV::Obj(m) => n > 0 && forall|k: Seq<char>| #[trigger]
            m.dom().contains(k) ==> storable(m[k], (n - 1) as nat),
        _ => true,
    }
}

/// How deep `serde_json` reads nested arrays and objects.
pub const DEPTH: usize = 127;

/// `serde_json::Value::to_string`: the compact text depends on what the value
/// holds, is one line that is not blank, and reading the text of a storable value gives
/// that value back.
#[verifier::external_body]
fn value_text(v: &serde_json::Value) -> (r: String)
    ensures
        r@ == rendered(json_of(*v)),
        !blank(r@),
        unbroken(r@),
        storable(json_of(*v), DEPTH as nat) ==> parsed(r@) == Some(json_of(*v)),
{
    v.to_string()
}

/// The indented JSON text of a value.
pub uninterp spec fn rendered_pretty(v: JsonV) -> Seq<char>;

/// `serde_json::Value` shown with `{:#}`: the indented text depends on what the
/// value holds, is not blank, and reading the text of a storable value gives that value back.
#[verifier::external_body]
fn value_pretty_text(v: &serde_json::Value) -> (r: String)
    ensures
        r@ == rendered_pretty(json_of(*v)),
        !blank(r@),
        storable(json_of(*v), DEPTH as nat) ==> parsed(r@) == Some(json_of(*v)),
{
    format!("{v:#}")
}

proof fn lemma_members_at(s: Seq<(String, serde_json::Value)>, i: int)
    requires
        0 <= i < s.len(),
        forall|a: int, b: int|
            0 <= a < b < s.len() ==> (#[trigger] s[a]).0@ != (#[trigger] s[b]).0@,
    ensures
        members(s).dom().finite(),
        members(s).dom().contains(s[i].0@),
        members(s)[s[i].0@] == json_of(s[i].1),
    decreases s.len(),
{
    if s.len() > 1 {
        let t = s.drop_last();
        lemma_members_at(t, if i < t.len() { i } else { 0 });
    }
    if i < s.len() - 1 {
        assert(s[i].0@ != s[s.len() - 1].0@);
    }
    if s.len() == 1 {
        assert(members(s.drop_last()) =~= Map::empty());
    }
}

proof fn lemma_member_decreases(v: JsonV, k: Seq<char>)
    requires
        v is Obj,
        v->Obj_0.dom().finite(),
        v->Obj_0.dom().contains(k),
    ensures
        decreases_to!(v => v->Obj_0[k]),
{
    assert(decreases_to!(v => v->Obj_0));
    assert(decreases_to!(v->Obj_0 => v->Obj_0[k]));
}

/// Carries a `serde_json` value over.
fn to_json(v: serde_json::Value) -> (r: Json)
    ensures
        r.view() == json_of(v),
    decreases json_of(v),
{
    broadcast use lemma_array_view;

    let ghost whole = json_of(v);
    match open_value(v) {
        ValueShape::Null => Json::Null,
        ValueShape::Bool(b) => Json::Bool(b),
        ValueShape::Number(n) => match number_as_i64(&n) {
            Some(i) => Json::Int(i),
            None => match number_as_u64(&n) {
                Some(u) => Json::Uint(u),
                None => Json::Number(n),
            },
        },
        ValueShape::Str(s) => Json::Str(s),
        ValueShape::Array(items) => {
            let mut out: Vec<Json> = Vec::new();
            let ghost all = items@;
            let ghost models = Seq::new(all.len(), |i: int| json_of(all[i]));
            assert(whole == JsonV::Arr(models));
            for x in it: items
                invariant
                    it.seq() == all,
                    whole == json_of(v),
                    whole == JsonV::Arr(models),
                    models == Seq::new(all.len(), |i: int| json_of(all[i])),
                    out@.len() == it.index(),
                    forall|j: int| 0 <= j < out@.len() ==> (#[trigger] out@[j]).view() == models[j],
            {
                assert(x == all[it.index() as int]);
                assert(json_of(x) == models[it.index() as int]);
                assert(decreases_to!(whole => whole->Arr_0));
                assert(decreases_to!(whole->Arr_0 => whole->Arr_0[it.index() as int]));
                out.push(to_json(x));
            }
            assert(jsons(out@) =~= models);
            Json::Array(out)
        },
        ValueShape::Object(entries) => {
            let mut out: Vec<(String, Json)> = Vec::new();
            let ghost all = entries@;
            for x in it: entries
                invariant
                    it.seq() == all,
                    whole == json_of(v),
                    whole == JsonV::Obj(members(all)),
                    fields(out@) == members(all.take(it.index() as int)),
                    forall|i: int, j: int|
                        0 <= i < j < all.len() ==> (#[trigger] all[i]).0@ != (#[trigger] all[j]).0@,
            {
                let ghost k = it.index() as int;
                assert(x == all[k]);
                proof {
                    lemma_members_at(all, k);
                    lemma_member_decreases(whole, all[k].0@);
                }
                let e = (x.0, to_json(x.1));
                proof {
                    lemma_fields_push(out@, e);
                    assert(all.take(k + 1).drop_last() == all.take(k));
                    assert(all.take(k + 1).last() == all[k]);
                }
                out.push(e);
            }
            assert(all.take(all.len() as int) == all);
            Json::Object(out)
        },
    }
}

/// Carries a value into `serde_json`.
pub(crate) fn from_json(j: &Json) -> (r: serde_json::Value)
    ensures
        json_of(r) == j.view(),
    decreases j,
{
    broadcast use lemma_array_view;

    match j {
        Json::Null => build_value(ValueShape::Null),
        Json::Bool(b) => build_value(ValueShape::Bool(*b)),
        Json::Int(i) => build_value(ValueShape::Number(number_from_i64(*i))),
        Json::Uint(u) => build_value(ValueShape::Number(number_from_u64(*u))),
        Json::Number(n) => build_value(ValueShape::Number(n.clone())),
        Json::Str(s) => build_value(ValueShape::Str(s.clone())),
        Json::Array(v) => {
            let mut out: Vec<serde_json::Value> = Vec::new();
            let mut i: usize = 0;
            while i < v.len()
                invariant
                    i <= v@.len(),
                    out@.len() == i,
                    *j == Json::Array(*v),
                    forall|k: int| 0 <= k < i ==> json_of(#[trigger] out@[k]) == v@[k].view(),
                decreases v@.len() - i,
            {
                assert(decreases_to!(*j => j->Array_0));
                assert(decreases_to!(j->Array_0 => j->Array_0@));
                assert(decreases_to!(v@ => v@[i as int]));
                out.push(from_json(&v[i]));
                i += 1;
            }
            assert(j.view() == Json::Array(*v).view());
            assert(Seq::new(out@.len(), |k: int| json_of(out@[k])) =~= jsons(v@));
            build_value(ValueShape::Array(out))
        },
        Json::Object(v) => {
            let mut out: Vec<(String, serde_json::Value)> = Vec::new();
            let mut i: usize = 0;
            assert(members(out@) =~= Map::empty());
            while i < v.len()
                invariant
                    i <= v@.len(),
                    *j == Json::Object(*v),
                    members(out@) == fields(v@.take(i as int)),
                decreases v@.len() - i,
            {
                assert(decreases_to!(*j => j->Object_0));
                assert(decreases_to!(j->Object_0 => j->Object_0@));
                assert(decreases_to!(v@ => v@[i as int]));
                assert(decreases_to!(v@[i as int] => v@[i as int].1));
                let e = (v[i].0.clone(), from_json(&v[i].1));
                let ghost before = out@;
                out.push(e);
                proof {
                    assert(out@.drop_last() == before);
                    assert(v@.take(i + 1) == v@.take(i as int).push(v@[i as int]));
                    lemma_fields_push(v@.take(i as int), v@[i as int]);
                }
                i += 1;
            }
            assert(v@.take(v@.len() as int) == v@);
            build_value(ValueShape::Object(out))
        },
    }
}

/// Reads a JSON text.
pub fn parse(text: &str) -> (r: Option<Json>)
    ensures
        match r {
            Some(j) => parsed(text@) == Some(j.view()),
            None => parsed(text@) is None,
        },
{
    match parse_value(text) {
        Ok(v) => Some(to_json(v)),
        Err(_) => None,
    }
}

/// Writes a value as compact JSON text, on one line. Reading the text of a storable value
/// gives the value back.
pub fn render(j: &Json) -> (r: String)
    ensures
        r@ == rendered(j.view()),
        !blank(r@),
        unbroken(r@),
        storable(j.view(), DEPTH as nat) ==> parsed(r@) == Some(j.view()),
{
    value_text(&from_json(j))
}

/// Writes a value as indented JSON text. Reading the text of a storable value
/// gives the value back.
pub fn render_pretty(j: &Json) -> (r: String)
    ensures
        r@ == rendered_pretty(j.view()),
        !blank(r@),
        storable(j.view(), DEPTH as nat) ==> parsed(r@) == Some(j.view()),
{
    value_pretty_text(&from_json(j))
}

} // verus!
