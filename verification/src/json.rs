//! JSON values and their mathematical model.
//!
//! A [`Json`] holds what a JSON text holds; its view is a [`JsonV`], in which
//! objects are maps from names to values and integers are unbounded.

use vstd::prelude::*;

use crate::text::{opt_text, owned, same};

verus! {

/// An opaque JSON number.
#[verifier::external_type_specification]
#[verifier::external_body]
pub struct ExNumber(serde_json::Number);

/// `serde_json::Number::clone` gives back an equal number.
pub assume_specification[ <serde_json::Number as Clone>::clone ](n: &serde_json::Number) -> (r:
    serde_json::Number)
    ensures
        r == *n,
;

/// The model of a JSON value.
#[verifier::ext_equal]
pub enum JsonV {
    Null,
    Bool(bool),
    Int(int),
    Float(serde_json::Number),
    Str(Seq<char>),
    Arr(Seq<JsonV>),
    Obj(Map<Seq<char>, JsonV>),
}

/// The integer that a `serde_json` number holds, if it holds one.
pub uninterp spec fn integer_in(n: serde_json::Number) -> Option<int>;

/// What a `serde_json` number holds: an integer, or itself where it is none.
pub open spec fn number_json(n: serde_json::Number) -> JsonV {
    match integer_in(n) {
        Some(i) => JsonV::Int(i),
        None => JsonV::Float(n),
    }
}

/// `serde_json::Number::as_i64`: the integer, where the number is one that
/// fits. No number holds an integer below that range.
#[verifier::external_body]
pub(crate) fn number_as_i64(n: &serde_json::Number) -> (r: Option<i64>)
    ensures
        match r {
            Some(i) => integer_in(*n) == Some(i as int),
            None => integer_in(*n) matches Some(i) ==> i > i64::MAX,
        },
{
    n.as_i64()
}

/// `serde_json::Number::as_u64`: the integer, where the number is one that
/// fits. No number holds an integer above that range.
#[verifier::external_body]
pub(crate) fn number_as_u64(n: &serde_json::Number) -> (r: Option<u64>)
    ensures
        match r {
            Some(i) => integer_in(*n) == Some(i as int),
            None => integer_in(*n) matches Some(i) ==> i < 0,
        },
{
    n.as_u64()
}

/// A JSON value.
#[derive(Debug, PartialEq)]
pub enum Json {
    Null,
    Bool(bool),
    Int(i64),
    /// An integer above `i64::MAX`, or any other unsigned one.
    Uint(u64),
    /// A number as `serde_json` keeps it.
    Number(serde_json::Number),
    Str(String),
    Array(Vec<Json>),
    /// The fields in the order in which they were set, each name once.
    Object(Vec<(String, Json)>),
}

impl JsonV {
    /// The empty object.
    pub open spec fn object() -> JsonV {
        JsonV::Obj(Map::empty())
    }

    /// The field `key` of an object.
    pub open spec fn get(self, key: Seq<char>) -> Option<JsonV> {
        match self {
            JsonV::Obj(m) => if m.dom().contains(key) {
                Some(m[key])
            } else {
                None
            },
            _ => None,
        }
    }

    /// The object with `key` set to `value`; other values are left alone.
    pub open spec fn with(self, key: Seq<char>, value: JsonV) -> JsonV {
        match self {
            JsonV::Obj(m) => JsonV::Obj(m.insert(key, value)),
            _ => self,
        }
    }

    /// The text of a string value.
    pub open spec fn as_str(self) -> Option<Seq<char>> {
        match self {
            JsonV::Str(s) => Some(s),
            _ => None,
        }
    }

    /// The truth value of a boolean.
    pub open spec fn as_bool(self) -> Option<bool> {
        match self {
            JsonV::Bool(b) => Some(b),
            _ => None,
        }
    }

    /// The elements of an array.
    pub open spec fn as_array(self) -> Option<Seq<JsonV>> {
        match self {
            JsonV::Arr(a) => Some(a),
            _ => None,
        }
    }

    /// The value of an integer that fits `i64`.
    pub open spec fn as_i64(self) -> Option<int> {
        match self {
            JsonV::Int(i) => if i64::MIN <= i <= i64::MAX {
                Some(i)
            } else {
                None
            },
            _ => None,
        }
    }

    /// The value of a non-negative integer that fits `u64`.
    pub open spec fn as_u64(self) -> Option<int> {
        match self {
            JsonV::Int(i) => if 0 <= i <= u64::MAX {
                Some(i)
            } else {
                None
            },
            _ => None,
        }
    }

    /// The text of the string field `key`.
    pub open spec fn str_at(self, key: Seq<char>) -> Option<Seq<char>> {
        match self.get(key) {
            Some(v) => v.as_str(),
            None => None,
        }
    }

    /// The value of the boolean field `key`.
    pub open spec fn bool_at(self, key: Seq<char>) -> Option<bool> {
        match self.get(key) {
            Some(v) => v.as_bool(),
            None => None,
        }
    }

    /// The elements of the array field `key`.
    pub open spec fn array_at(self, key: Seq<char>) -> Option<Seq<JsonV>> {
        match self.get(key) {
            Some(v) => v.as_array(),
            None => None,
        }
    }

    /// The field `inner` of the object field `outer`.
    pub open spec fn get2(self, outer: Seq<char>, inner: Seq<char>) -> Option<JsonV> {
        match self.get(outer) {
            Some(v) => v.get(inner),
            None => None,
        }
    }

    /// The text of the string field `inner` of the object field `outer`.
    pub open spec fn str_at2(self, outer: Seq<char>, inner: Seq<char>) -> Option<Seq<char>> {
        match self.get(outer) {
            Some(v) => v.str_at(inner),
            None => None,
        }
    }
}

/// A text as a JSON value; a missing one is `null`.
pub open spec fn opt_str(s: Option<Seq<char>>) -> JsonV {
    match s {
        Some(t) => JsonV::Str(t),
        None => JsonV::Null,
    }
}

/// An integer as a JSON value; a missing one is `null`.
pub open spec fn opt_int(n: Option<int>) -> JsonV {
    match n {
        Some(i) => JsonV::Int(i),
        None => JsonV::Null,
    }
}

/// The fields of an object as a map; a later field of the same name wins.
pub open spec fn fields(s: Seq<(String, Json)>) -> Map<Seq<char>, JsonV>
    decreases s,
{
    if s.len() == 0 {
        Map::empty()
    } else {
        fields(s.drop_last()).insert(s.last().0@, s.last().1.view())
    }
}

/// The models of a list of values.
pub open spec fn jsons(s: Seq<Json>) -> Seq<JsonV> {
    Seq::new(s.len(), |i: int| s[i].view())
}

impl Json {
    /// The model of this value.
    pub open spec fn view(&self) -> JsonV
        decreases self,
    {
        match self {
            Json::Null => JsonV::Null,
            Json::Bool(b) => JsonV::Bool(*b),
            Json::Int(i) => JsonV::Int(*i as int),
            Json::Uint(i) => JsonV::Int(*i as int),
            Json::Number(n) => number_json(*n),
            Json::Str(s) => JsonV::Str(s@),
            Json::Array(v) => JsonV::Arr(
                Seq::new(
                    v@.len(),
                    |i: int|
                        if 0 <= i < v@.len() {
                            v@[i].view()
                        } else {
                            JsonV::Null
                        },
                ),
            ),
            Json::Object(v) => JsonV::Obj(fields(v@)),
        }
    }
}

/// The view of an array is the list of its elements' views.
pub broadcast proof fn lemma_array_view(v: Vec<Json>)
    ensures
        (#[trigger] Json::Array(v).view()) == JsonV::Arr(jsons(v@)),
{
    assert(Json::Array(v).view()->Arr_0 =~= jsons(v@));
}

/// The fields of an object with one more field.
pub proof fn lemma_fields_push(s: Seq<(String, Json)>, e: (String, Json))
    ensures
        fields(s.push(e)) == fields(s).insert(e.0@, e.1.view()),
{
    assert(s.push(e).drop_last() == s);
    assert(s.push(e).last() == e);
}

/// A field is looked up at its last occurrence.
pub proof fn lemma_fields_at(s: Seq<(String, Json)>, i: int)
    requires
        0 <= i < s.len(),
        forall|j: int| i < j < s.len() ==> #[trigger] s[j].0@ != s[i].0@,
    ensures
        fields(s).dom().contains(s[i].0@),
        fields(s)[s[i].0@] == s[i].1.view(),
    decreases s.len(),
{
    if i < s.len() - 1 {
        assert(s[s.len() - 1].0@ != s[i].0@);
        assert forall|j: int| i < j < s.drop_last().len() implies #[trigger] s.drop_last()[j].0@
            != s.drop_last()[i].0@ by {
            assert(s[j].0@ != s[i].0@);
        }
        lemma_fields_at(s.drop_last(), i);
    }
}

/// A name that no field has is not in the map.
pub proof fn lemma_fields_absent(s: Seq<(String, Json)>, key: Seq<char>)
    requires
        forall|j: int| 0 <= j < s.len() ==> #[trigger] s[j].0@ != key,
    ensures
        !fields(s).dom().contains(key),
    decreases s.len(),
{
    if s.len() > 0 {
        assert(s[s.len() - 1].0@ != key);
        assert forall|j: int| 0 <= j < s.drop_last().len() implies #[trigger] s.drop_last()[j].0@
            != key by {
            assert(s[j].0@ != key);
        }
        lemma_fields_absent(s.drop_last(), key);
    }
}

/// The fields of an object are finitely many.
pub proof fn lemma_fields_finite(s: Seq<(String, Json)>)
    ensures
        fields(s).dom().finite(),
    decreases s.len(),
{
    if s.len() > 0 {
        lemma_fields_finite(s.drop_last());
    }
}

/// Replacing the value of the last field of a name sets that name in the map.
pub proof fn lemma_fields_update(s: Seq<(String, Json)>, i: int, e: (String, Json))
    requires
        0 <= i < s.len(),
        s[i].0@ == e.0@,
        forall|j: int| i < j < s.len() ==> #[trigger] s[j].0@ != e.0@,
    ensures
        fields(s.update(i, e)) == fields(s).insert(e.0@, e.1.view()),
    decreases s.len(),
{
    let u = s.update(i, e);
    if i == s.len() - 1 {
        assert(u.drop_last() == s.drop_last());
        assert(u.last() == e);
        assert(fields(u) =~= fields(s).insert(e.0@, e.1.view()));
    } else {
        assert(u.drop_last() == s.drop_last().update(i, e));
        assert(u.last() == s.last());
        assert(s[s.len() - 1].0@ != e.0@);
        assert forall|j: int| i < j < s.drop_last().len() implies #[trigger] s.drop_last()[j].0@
            != e.0@ by {
            assert(s[j].0@ != e.0@);
        }
        lemma_fields_update(s.drop_last(), i, e);
        assert(fields(u) =~= fields(s).insert(e.0@, e.1.view()));
    }
}

/// A field that no later field of the same name shadows.
pub open spec fn live(s: Seq<(String, Json)>, i: int) -> bool {
    0 <= i < s.len() && forall|j: int| i < j < s.len() ==> #[trigger] s[j].0@ != s[i].0@
}

/// Every name in the map is the name of a field that is not shadowed.
pub proof fn lemma_fields_live(s: Seq<(String, Json)>, key: Seq<char>) -> (i: int)
    requires
        fields(s).dom().contains(key),
    ensures
        live(s, i),
        s[i].0@ == key,
        fields(s)[key] == s[i].1.view(),
    decreases s.len(),
{
    if s.last().0@ == key {
        lemma_fields_at(s, s.len() - 1);
        s.len() - 1
    } else {
        let i = lemma_fields_live(s.drop_last(), key);
        assert(live(s, i)) by {
            assert forall|j: int| i < j < s.len() implies #[trigger] s[j].0@ != s[i].0@ by {
                if j < s.len() - 1 {
                    assert(s.drop_last()[j].0@ != s.drop_last()[i].0@);
                }
            }
        }
        lemma_fields_at(s, i);
        i
    }
}

/// Whether no later field of the same name shadows a field.
pub fn is_live(v: &Vec<(String, Json)>, i: usize) -> (r: bool)
    requires
        i < v@.len(),
    ensures
        r == live(v@, i as int),
{
    let n: usize = v.len();
    let mut j: usize = i + 1;
    while j < n
        invariant
            n == v@.len(),
            i < j <= n,
            forall|k: int| i < k < j ==> #[trigger] v@[k].0@ != v@[i as int].0@,
        decreases n - j,
    {
        if same(v[j].0.as_str(), v[i].0.as_str()) {
            return false;
        }
        j += 1;
    }
    true
}

/// The position of the last field named `key`, or the number of fields.
fn last_field(v: &Vec<(String, Json)>, key: &str) -> (r: usize)
    ensures
        r <= v@.len(),
        r < v@.len() ==> v@[r as int].0@ == key@ && forall|j: int|
            r < j < v@.len() ==> #[trigger] v@[j].0@ != key@,
        r == v@.len() ==> forall|j: int| 0 <= j < v@.len() ==> #[trigger] v@[j].0@ != key@,
{
    let mut i: usize = v.len();
    while i > 0
        invariant
            i <= v@.len(),
            forall|j: int| i <= j < v@.len() ==> #[trigger] v@[j].0@ != key@,
        decreases i,
    {
        i -= 1;
        if same(v[i].0.as_str(), key) {
            return i;
        }
    }
    v.len()
}

impl Json {
    /// The string value `s`.
    pub fn text(s: &str) -> (r: Json)
        ensures
            r.view() == JsonV::Str(s@),
    {
        Json::Str(owned(s))
    }

    /// The string value `s`, or `null`.
    pub fn opt_str(s: &Option<String>) -> (r: Json)
        ensures
            r.view() == opt_str(opt_text(*s)),
    {
        match s {
            Some(t) => Json::Str(t.clone()),
            None => Json::Null,
        }
    }

    /// The integer `n`, or `null`.
    pub fn opt_int(n: Option<i64>) -> (r: Json)
        ensures
            r.view() == opt_int(
                match n {
                    Some(i) => Some(i as int),
                    None => None,
                },
            ),
    {
        match n {
            Some(i) => Json::Int(i),
            None => Json::Null,
        }
    }

    /// The array of some values.
    pub fn array(v: Vec<Json>) -> (r: Json)
        ensures
            r.view() == JsonV::Arr(jsons(v@)),
    {
        broadcast use lemma_array_view;

        Json::Array(v)
    }

    /// The array of one value.
    pub fn array1(x: Json) -> (r: Json)
        ensures
            r.view() == JsonV::Arr(seq![x.view()]),
    {
        let mut v: Vec<Json> = Vec::new();
        v.push(x);
        assert(jsons(v@) =~= seq![x.view()]);
        Json::array(v)
    }

    /// The empty array.
    pub fn empty_array() -> (r: Json)
        ensures
            r.view() == JsonV::Arr(seq![]),
    {
        broadcast use lemma_array_view;

        let r = Json::Array(Vec::new());
        assert(r.view()->Arr_0 =~= seq![]);
        r
    }

    /// The empty object.
    pub fn object() -> (r: Json)
        ensures
            r.view() == JsonV::object(),
    {
        let v: Vec<(String, Json)> = Vec::new();
        assert(fields(v@) =~= Map::empty());
        Json::Object(v)
    }

    /// This object with `key` set to `value`; any other value is left alone.
    pub fn with(self, key: &str, value: Json) -> (r: Json)
        ensures
            r.view() == self.view().with(key@, value.view()),
    {
        match self {
            Json::Object(mut v) => {
                let k: usize = last_field(&v, key);
                let ghost before = v@;
                let e = (owned(key), value);
                let ghost ge = e;
                if k < v.len() {
                    proof {
                        lemma_fields_update(before, k as int, ge);
                    }
                    v.set(k, e);
                } else {
                    proof {
                        lemma_fields_push(before, ge);
                    }
                    v.push(e);
                }
                Json::Object(v)
            },
            other => other,
        }
    }

    /// The field `key` of an object.
    pub fn get(&self, key: &str) -> (r: Option<&Json>)
        ensures
            match r {
                Some(j) => self.view().get(key@) == Some(j.view()),
                None => self.view().get(key@) is None,
            },
    {
        match self {
            Json::Object(v) => {
                let k: usize = last_field(v, key);
                if k < v.len() {
                    proof {
                        lemma_fields_at(v@, k as int);
                    }
                    Some(&v[k].1)
                } else {
                    proof {
                        lemma_fields_absent(v@, key@);
                    }
                    None
                }
            },
            _ => None,
        }
    }

    /// The text of a string value.
    pub fn as_str(&self) -> (r: Option<&str>)
        ensures
            match r {
                Some(s) => self.view().as_str() == Some(s@),
                None => self.view().as_str() is None,
            },
    {
        match self {
            Json::Str(s) => Some(s.as_str()),
            _ => None,
        }
    }

    /// The truth value of a boolean.
    pub fn as_bool(&self) -> (r: Option<bool>)
        ensures
            r == self.view().as_bool(),
    {
        match self {
            Json::Bool(b) => Some(*b),
            _ => None,
        }
    }

    /// The value of an integer that fits `i64`.
    pub fn as_i64(&self) -> (r: Option<i64>)
        ensures
            match r {
                Some(i) => self.view().as_i64() == Some(i as int),
                None => self.view().as_i64() is None,
            },
    {
        match self {
            Json::Int(i) => Some(*i),
            Json::Uint(u) => if *u <= i64::MAX as u64 {
                Some(*u as i64)
            } else {
                None
            },
            Json::Number(n) => number_as_i64(n),
            _ => None,
        }
    }

    /// The value of a non-negative integer that fits `u64`.
    pub fn as_u64(&self) -> (r: Option<u64>)
        ensures
            match r {
                Some(i) => self.view().as_u64() == Some(i as int),
                None => self.view().as_u64() is None,
            },
    {
        match self {
            Json::Int(i) => if *i >= 0 {
                Some(*i as u64)
            } else {
                None
            },
            Json::Uint(u) => Some(*u),
            Json::Number(n) => number_as_u64(n),
            _ => None,
        }
    }

    /// The elements of an array.
    pub fn as_array(&self) -> (r: Option<&Vec<Json>>)
        ensures
            match r {
                Some(v) => self.view().as_array() == Some(jsons(v@)),
                None => self.view().as_array() is None,
            },
    {
        broadcast use lemma_array_view;

        match self {
            Json::Array(v) => {
                assert(self.view() == Json::Array(*v).view());
                Some(v)
            },
            _ => None,
        }
    }

    /// Whether this is `null`.
    pub fn is_null(&self) -> (r: bool)
        ensures
            r == (self.view() is Null),
    {
        match self {
            Json::Null => true,
            _ => false,
        }
    }

    /// Whether this is an array.
    pub fn is_array(&self) -> (r: bool)
        ensures
            r == (self.view() is Arr),
    {
        match self {
            Json::Array(_) => true,
            _ => false,
        }
    }

    /// Whether this is an object.
    pub fn is_object(&self) -> (r: bool)
        ensures
            r == (self.view() is Obj),
    {
        match self {
            Json::Object(_) => true,
            _ => false,
        }
    }

    /// The text of the string field `key`.
    pub fn str_at(&self, key: &str) -> (r: Option<&str>)
        ensures
            match r {
                Some(s) => self.view().str_at(key@) == Some(s@),
                None => self.view().str_at(key@) is None,
            },
    {
        match self.get(key) {
            Some(v) => v.as_str(),
            None => None,
        }
    }

    /// The value of the boolean field `key`.
    pub fn bool_at(&self, key: &str) -> (r: Option<bool>)
        ensures
            r == self.view().bool_at(key@),
    {
        match self.get(key) {
            Some(v) => v.as_bool(),
            None => None,
        }
    }

    /// The elements of the array field `key`.
    pub fn array_at(&self, key: &str) -> (r: Option<&Vec<Json>>)
        ensures
            match r {
                Some(v) => self.view().array_at(key@) == Some(jsons(v@)),
                None => self.view().array_at(key@) is None,
            },
    {
        match self.get(key) {
            Some(v) => v.as_array(),
            None => None,
        }
    }

    /// The field `inner` of the object field `outer`.
    pub fn get2(&self, outer: &str, inner: &str) -> (r: Option<&Json>)
        ensures
            match r {
                Some(j) => self.view().get2(outer@, inner@) == Some(j.view()),
                None => self.view().get2(outer@, inner@) is None,
            },
    {
        match self.get(outer) {
            Some(v) => v.get(inner),
            None => None,
        }
    }

    /// The text of the string field `inner` of the object field `outer`.
    pub fn str_at2(&self, outer: &str, inner: &str) -> (r: Option<&str>)
        ensures
            match r {
                Some(s) => self.view().str_at2(outer@, inner@) == Some(s@),
                None => self.view().str_at2(outer@, inner@) is None,
            },
    {
        match self.get(outer) {
            Some(v) => v.str_at(inner),
            None => None,
        }
    }

    /// A copy of this value.
    pub fn copy(&self) -> (r: Json)
        ensures
            r.view() == self.view(),
        decreases self,
    {
        broadcast use lemma_array_view;

        match self {
            Json::Null => Json::Null,
            Json::Bool(b) => Json::Bool(*b),
            Json::Int(i) => Json::Int(*i),
            Json::Uint(u) => Json::Uint(*u),
            Json::Number(n) => Json::Number(n.clone()),
            Json::Str(s) => Json::Str(s.clone()),
            Json::Array(v) => {
                let mut out: Vec<Json> = Vec::new();
                let mut i: usize = 0;
                while i < v.len()
                    invariant
                        i <= v@.len(),
                        out@.len() == i,
                        *self == Json::Array(*v),
                        forall|j: int| 0 <= j < i ==> (#[trigger] out@[j]).view() == v@[j].view(),
                    decreases v@.len() - i,
                {
                    assert(decreases_to!(*self => self->Array_0));
                    assert(decreases_to!(self->Array_0 => self->Array_0@));
                    assert(decreases_to!(v@ => v@[i as int]));
                    out.push(v[i].copy());
                    i += 1;
                }
                assert(jsons(out@) =~= jsons(v@));
                assert(self.view() == Json::Array(*v).view());
                Json::Array(out)
            },
            Json::Object(v) => {
                let mut out: Vec<(String, Json)> = Vec::new();
                let mut i: usize = 0;
                while i < v.len()
                    invariant
                        i <= v@.len(),
                        out@.len() == i,
                        *self == Json::Object(*v),
                        fields(out@) == fields(v@.take(i as int)),
                    decreases v@.len() - i,
                {
                    assert(decreases_to!(*self => self->Object_0));
                    assert(decreases_to!(self->Object_0 => self->Object_0@));
                    assert(decreases_to!(v@ => v@[i as int]));
                    assert(decreases_to!(v@[i as int] => v@[i as int].1));
                    let e = (v[i].0.clone(), v[i].1.copy());
                    proof {
                        lemma_fields_push(out@, e);
                        assert(v@.take(i + 1) == v@.take(i as int).push(v@[i as int]));
                        lemma_fields_push(v@.take(i as int), v@[i as int]);
                    }
                    out.push(e);
                    i += 1;
                }
                assert(v@.take(v@.len() as int) == v@);
                Json::Object(out)
            },
        }
    }
}

/// A copy of a list of values.
pub fn copy_all(v: &Vec<Json>) -> (r: Vec<Json>)
    ensures
        jsons(r@) == jsons(v@),
{
    let mut out: Vec<Json> = Vec::new();
    let mut i: usize = 0;
    while i < v.len()
        invariant
            i <= v@.len(),
            out@.len() == i,
            forall|j: int| 0 <= j < i ==> (#[trigger] out@[j]).view() == v@[j].view(),
        decreases v@.len() - i,
    {
        out.push(v[i].copy());
        i += 1;
    }
    assert(jsons(out@) =~= jsons(v@));
    out
}

impl Clone for Json {
    fn clone(&self) -> (r: Self)
        ensures
            r.view() == self.view(),
    {
        self.copy()
    }
}

/// A type with a wire form.
pub trait ToJson {
    /// The wire form.
    spec fn json(&self) -> JsonV;

    /// Writes the wire form.
    fn to_json(&self) -> (j: Json)
        ensures
            j.view() == self.json(),
    ;
}

/// The wire form of a list.
pub open spec fn list_model<T: ToJson>(s: Seq<T>) -> JsonV {
    JsonV::Arr(s.map_values(|x: T| x.json()))
}

/// Writes the wire form of a list.
pub fn list_to_json<T: ToJson>(v: &Vec<T>) -> (j: Json)
    ensures
        j.view() == list_model(v@),
{
    broadcast use lemma_array_view;

    let mut out: Vec<Json> = Vec::new();
    let mut i: usize = 0;
    while i < v.len()
        invariant
            i <= v@.len(),
            out@.len() == i,
            forall|k: int| 0 <= k < i ==> (#[trigger] out@[k]).view() == v@[k].json(),
        decreases v@.len() - i,
    {
        out.push(v[i].to_json());
        i += 1;
    }
    assert(jsons(out@) =~= v@.map_values(|x: T| x.json()));
    Json::Array(out)
}

/// The wire form of a list of texts.
pub open spec fn texts_json(s: Seq<String>) -> JsonV {
    JsonV::Arr(s.map_values(|x: String| JsonV::Str(x@)))
}

/// Writes the wire form of a list of texts.
pub fn texts_to_json(v: &Vec<String>) -> (j: Json)
    ensures
        j.view() == texts_json(v@),
{
    broadcast use lemma_array_view;

    let mut out: Vec<Json> = Vec::new();
    let mut i: usize = 0;
    while i < v.len()
        invariant
            i <= v@.len(),
            out@.len() == i,
            forall|k: int| 0 <= k < i ==> (#[trigger] out@[k]).view() == JsonV::Str(v@[k]@),
        decreases v@.len() - i,
    {
        out.push(Json::text(v[i].as_str()));
        i += 1;
    }
    assert(jsons(out@) =~= v@.map_values(|x: String| JsonV::Str(x@)));
    Json::Array(out)
}

} // verus!
