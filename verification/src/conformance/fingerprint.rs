//! Which keys a frame fills.

use vstd::prelude::*;

use super::transcript::{Frame, FrameKind, FrameV};
use crate::json::{
    Json, JsonV, fields, is_live, jsons, lemma_array_view, lemma_fields_at, lemma_fields_live, live,
};
use crate::text::{join2, join3, owned};
use crate::text_set::TextSet;

verus! {

/// The path of the member `key` of the value at `prefix`.
pub open spec fn member_path(prefix: Seq<char>, key: Seq<char>) -> Seq<char> {
    if prefix.len() == 0 {
        key
    } else {
        prefix + "."@ + key
    }
}

/// The path of the elements of the array at `prefix`.
pub open spec fn element_path(prefix: Seq<char>) -> Seq<char> {
    prefix + "[]"@
}

/// Whether a value at `prefix` fills the path `p`. Members and elements that are
/// `null` count as missing; all elements of an array share one path.
pub open spec fn fills(v: JsonV, prefix: Seq<char>, p: Seq<char>) -> bool
    decreases v,
{
    match v {
        JsonV::Obj(m) => exists|k: Seq<char>| #[trigger]
            m.dom().contains(k) && m[k] != JsonV::Null && (p == member_path(prefix, k) || fills(
                m[k],
                member_path(prefix, k),
                p,
            )),
        JsonV::Arr(a) => exists|i: int|
            0 <= i < a.len() && #[trigger] a[i] != JsonV::Null && (p == element_path(prefix)
                || fills(a[i], element_path(prefix), p)),
        _ => false,
    }
}

fn collect(v: &Json, prefix: &str, out: &mut TextSet)
    ensures
        forall|p: Seq<char>| #[trigger]
            final(out).set().contains(p) <==> old(out).set().contains(p) || fills(
                v.view(),
                prefix@,
                p,
            ),
    decreases v,
{
    broadcast use lemma_array_view;

    match v {
        Json::Array(a) => {
            let path = join2(prefix, "[]");
            let n: usize = a.len();
            let mut i: usize = 0;
            let ghost start = out.set();
            while i < n
                invariant
                    i <= n,
                    n == a@.len(),
                    *v == Json::Array(*a),
                    v.view() == JsonV::Arr(jsons(a@)),
                    path@ == element_path(prefix@),
                    forall|p: Seq<char>| #[trigger]
                        out.set().contains(p) <==> start.contains(p) || exists|k: int|
                            0 <= k < i && #[trigger] jsons(a@)[k] != JsonV::Null && (p == path@
                                || fills(jsons(a@)[k], path@, p)),
                decreases n - i,
            {
                assert(decreases_to!(*v => v->Array_0));
                assert(decreases_to!(v->Array_0 => v->Array_0@));
                assert(decreases_to!(a@ => a@[i as int]));
                let ghost was = out.set();
                let x = &a[i];
                assert(jsons(a@)[i as int] == x.view());
                if !x.is_null() {
                    out.insert(path.as_str());
                    collect(x, path.as_str(), out);
                }
                i += 1;
            }
        },
        Json::Object(fs) => {
            let n: usize = fs.len();
            let mut i: usize = 0;
            let ghost start = out.set();
            while i < n
                invariant
                    i <= n,
                    n == fs@.len(),
                    *v == Json::Object(*fs),
                    v.view() == JsonV::Obj(fields(fs@)),
                    forall|p: Seq<char>| #[trigger]
                        out.set().contains(p) <==> start.contains(p) || exists|k: int|
                            0 <= k < i && #[trigger] field_fills(fs@, k, prefix@, p),
                decreases n - i,
            {
                assert(decreases_to!(*v => v->Object_0));
                assert(decreases_to!(v->Object_0 => v->Object_0@));
                assert(decreases_to!(fs@ => fs@[i as int]));
                assert(decreases_to!(fs@[i as int] => fs@[i as int].1));
                let ghost was = out.set();
                let x = &fs[i].1;
                let path = if prefix.is_empty() {
                    owned(fs[i].0.as_str())
                } else {
                    join3(prefix, ".", fs[i].0.as_str())
                };
                assert(path@ == member_path(prefix@, fs@[i as int].0@));
                if is_live(fs, i) && !x.is_null() {
                    out.insert(path.as_str());
                    collect(x, path.as_str(), out);
                }
                assert forall|p: Seq<char>| #[trigger]
                    out.set().contains(p) <==> start.contains(p) || exists|k: int|
                        0 <= k < i + 1 && #[trigger] field_fills(fs@, k, prefix@, p) by {
                    assert(out.set().contains(p) <==> was.contains(p) || field_fills(
                        fs@,
                        i as int,
                        prefix@,
                        p,
                    ));
                    if was.contains(p) && !start.contains(p) {
                        let k = choose|k: int|
                            0 <= k < i && #[trigger] field_fills(fs@, k, prefix@, p);
                        assert(0 <= k < i + 1 && field_fills(fs@, k, prefix@, p));
                    }
                }
                i += 1;
            }
            proof {
                let m = fields(fs@);
                assert forall|p: Seq<char>| fills(v.view(), prefix@, p) <==> (exists|k: int|
                    0 <= k < n && #[trigger] field_fills(fs@, k, prefix@, p)) by {
                    if fills(v.view(), prefix@, p) {
                        let key = choose|key: Seq<char>| #[trigger]
                            m.dom().contains(key) && m[key] != JsonV::Null && (p == member_path(
                                prefix@,
                                key,
                            ) || fills(m[key], member_path(prefix@, key), p));
                        let k = lemma_fields_live(fs@, key);
                        assert(field_fills(fs@, k, prefix@, p));
                    }
                    if exists|k: int| 0 <= k < n && #[trigger] field_fills(fs@, k, prefix@, p) {
                        let k = choose|k: int|
                            0 <= k < n && #[trigger] field_fills(fs@, k, prefix@, p);
                        lemma_fields_at(fs@, k);
                        assert(m.dom().contains(fs@[k].0@));
                    }
                }
            }
        },
        _ => {},
    }
}

spec fn field_fills(s: Seq<(String, Json)>, k: int, prefix: Seq<char>, p: Seq<char>) -> bool {
    live(s, k) && s[k].1.view() != JsonV::Null && (p == member_path(prefix, s[k].0@) || fills(
        s[k].1.view(),
        member_path(prefix, s[k].0@),
        p,
    ))
}

/// What a frame says: the result of a response, the parameters of a notification.
pub open spec fn payload(f: FrameV) -> Option<JsonV> {
    match f.kind {
        FrameKind::Response => f.raw.get("result"@),
        FrameKind::Notification => f.raw.get("params"@),
    }
}

/// Whether a frame fills the path `p`.
pub open spec fn frame_fills(f: FrameV, p: Seq<char>) -> bool {
    match payload(f) {
        Some(v) => fills(v, seq![], p),
        None => false,
    }
}

/// What a frame says, if it says anything.
pub fn extract_payload(frame: &Frame) -> (r: Option<&Json>)
    ensures
        match r {
            Some(v) => payload(frame.view()) == Some(v.view()),
            None => payload(frame.view()) is None,
        },
{
    match frame.kind {
        FrameKind::Response => frame.raw.get("result"),
        FrameKind::Notification => frame.raw.get("params"),
    }
}

/// Adds the paths that a frame fills to a set.
pub fn add_fingerprint(frame: &Frame, out: &mut TextSet)
    ensures
        forall|p: Seq<char>| #[trigger]
            final(out).set().contains(p) <==> old(out).set().contains(p) || frame_fills(
                frame.view(),
                p,
            ),
{
    match extract_payload(frame) {
        Some(v) => {
            let root = String::new();
            assert(root@ =~= seq![]);
            collect(v, root.as_str(), out);
        },
        None => {},
    }
}

/// The paths that a frame fills.
pub fn fingerprint(frame: &Frame) -> (r: TextSet)
    ensures
        r.set() == Set::new(|p: Seq<char>| frame_fills(frame.view(), p)),
{
    let mut out = TextSet::new();
    assert(out.set() =~= Set::empty());
    add_fingerprint(frame, &mut out);
    assert(out.set() =~= Set::new(|p: Seq<char>| frame_fills(frame.view(), p)));
    out
}

} // verus!
