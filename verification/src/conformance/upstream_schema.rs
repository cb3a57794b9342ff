//! Frames against the JSON schemas that codex publishes.
//!
//! The response of `thread/read` is described in `ThreadReadResponse.json`, the
//! notification `item/completed` in `ItemCompletedNotification.json`, and so on.

use vstd::prelude::*;

use super::fingerprint::{extract_payload, payload};
use super::transcript::{Frame, FrameKind, FrameV, TargetId};
use crate::json::{Json, JsonV};
use crate::json_text::{from_json, json_of};
use crate::text::{
    chars_of, contains, has_text, index_of, index_or_end, join, join2, join3, joined,
    lemma_index_or_end, owned, same, text_of, texts, to_uppercase, upper, uppercase,
};

verus! {

// ---------------------------------------------------------------------------
// Where the schemas are
// ---------------------------------------------------------------------------
/// Variable that names the directory of the schemas.
pub const ENV_OVERRIDE: &'static str = "BRIDGE_CONFORMANCE_CODEX_SCHEMA_DIR";

/// Variable that switches the check off.
pub const ENV_SKIP: &'static str = "BRIDGE_CONFORMANCE_SKIP_UPSTREAM_SCHEMA";

/// Directory of the schemas below the home directory.
pub const DEFAULT_REL: &'static str =
    "dev/codex/codex-rs/app-server-protocol/schema/json/v2";

/// Why frames are not held against the schemas.
#[derive(Debug, Clone, Copy, PartialEq, Eq, Structural)]
pub enum SchemaSkipReason {
    ExplicitSkip,
}

/// A directory that may hold the schemas.
pub struct Candidate {
    pub path: String,
    pub is_dir: bool,
}

/// Where the schemas are.
pub enum SchemaDir {
    /// In a directory.
    Found(String),
    /// Nobody wants to know.
    Skipped(SchemaSkipReason),
    /// They are missing, which is an error.
    Missing(Option<String>),
}

/// Decides where the schemas are. Only an explicit `1` switches the check off; a
/// directory that is named has to exist, and so has the default one otherwise.
pub fn schema_dir(
    skip: Option<&str>,
    custom: Option<Candidate>,
    default: Option<Candidate>,
) -> (r: SchemaDir)
    ensures
        ({
            let off = skip matches Some(s) && s@ == "1"@;
            let choice = if custom is Some {
                custom
            } else {
                default
            };
            match r {
                SchemaDir::Skipped(_) => off,
                SchemaDir::Found(path) => !off && (choice matches Some(c) && c.is_dir && path
                    == c.path),
                SchemaDir::Missing(path) => !off && match choice {
                    Some(c) => !c.is_dir && path == Some(c.path),
                    None => path is None,
                },
            }
        }),
{
    if let Some(s) = skip {
        if same(s, "1") {
            return SchemaDir::Skipped(SchemaSkipReason::ExplicitSkip);
        }
    }
    let choice = match custom {
        Some(c) => Some(c),
        None => default,
    };
    match choice {
        Some(c) => if c.is_dir {
            SchemaDir::Found(c.path)
        } else {
            SchemaDir::Missing(Some(c.path))
        },
        None => SchemaDir::Missing(None),
    }
}

/// What to tell when the schemas are missing: where they were looked for, and where
/// they are by default.
pub fn missing_message(checked: &Option<String>, home_default: &Option<String>) -> (r: String)
    ensures
        r@ == "upstream codex JSON schemas are required for bridge conformance\nchecked: "@
            + (match *checked {
            Some(p) => p@,
            None => "(HOME is unset)"@,
        }) + "\nset "@ + ENV_OVERRIDE@
            + "=<schema-dir> to point at app-server-protocol/schema/json/v2\ndefault path: "@
            + (match *home_default {
            Some(p) => p@,
            None => "$HOME/"@ + DEFAULT_REL@,
        }) + "\nset "@ + ENV_SKIP@
            + "=1 only when this validation is intentionally disabled"@,
{
    let mut out = owned(
        "upstream codex JSON schemas are required for bridge conformance\nchecked: ",
    );
    match checked {
        Some(p) => out.append(p.as_str()),
        None => out.append("(HOME is unset)"),
    }
    out.append("\nset ");
    out.append(ENV_OVERRIDE);
    out.append("=<schema-dir> to point at app-server-protocol/schema/json/v2\ndefault path: ");
    match home_default {
        Some(p) => out.append(p.as_str()),
        None => out.append(join2("$HOME/", DEFAULT_REL).as_str()),
    }
    out.append("\nset ");
    out.append(ENV_SKIP);
    out.append("=1 only when this validation is intentionally disabled");
    out
}

// ---------------------------------------------------------------------------
// Names of schemas
// ---------------------------------------------------------------------------
/// A part of a method with its first character in upper case.
pub open spec fn capitalized(s: Seq<char>) -> Seq<char> {
    if s.len() == 0 {
        seq![]
    } else {
        upper(s[0]) + s.skip(1)
    }
}

/// A method as the schemas write it: its parts between slashes, each capitalized.
pub open spec fn pascal(method: Seq<char>) -> Seq<char>
    decreases method.len(),
{
    let i = index_or_end(method, '/');
    if 0 <= i < method.len() {
        capitalized(method.take(i)) + pascal(method.skip(i + 1))
    } else {
        capitalized(method)
    }
}

fn capitalize(v: &Vec<char>, lo: usize, hi: usize) -> (r: String)
    requires
        lo <= hi <= v@.len(),
    ensures
        r@ == capitalized(v@.subrange(lo as int, hi as int)),
        !v@.subrange(lo as int, hi as int).contains('/') ==> !r@.contains('/'),
{
    let ghost s = v@.subrange(lo as int, hi as int);
    if lo < hi {
        let mut out = to_uppercase(v[lo]);
        out.append(text_of(v.as_slice(), lo + 1, hi).as_str());
        assert(s.skip(1) =~= v@.subrange(lo + 1, hi as int));
        proof {
            if !s.contains('/') {
                let first = out@.take(out@.len() - (hi - lo - 1));
                assert(s[0] == v@[lo as int]);
                assert forall|i: int| 0 <= i < out@.len() implies out@[i] != '/' by {
                    if i < first.len() {
                        assert(first =~= uppercase(s[0]));
                        assert(uppercase(s[0]).contains(uppercase(s[0])[i]));
                    } else {
                        assert(out@[i] == s[i - first.len() + 1]);
                        assert(s.contains(s[i - first.len() + 1]));
                    }
                }
            }
        }
        out
    } else {
        let out = String::new();
        assert(out@ =~= seq![]);
        out
    }
}

/// A method as the schemas write it.
pub fn method_to_pascal(method: &str) -> (r: String)
    ensures
        r@ == pascal(method@),
        !r@.contains('/'),
{
    let v = chars_of(method);
    let mut out = String::new();
    let mut i: usize = 0;
    assert(method@.skip(0) =~= method@);
    assert(out@ + pascal(method@) =~= pascal(method@));
    loop
        invariant_except_break
            i <= v@.len(),
            v@ == method@,
            out@ + pascal(method@.skip(i as int)) == pascal(method@),
            !out@.contains('/'),
        ensures
            out@ == pascal(method@),
            !out@.contains('/'),
        decreases v@.len() - i,
    {
        let ghost rest = method@.skip(i as int);
        let ghost was = out@;
        let end: usize = index_of(v.as_slice(), '/', i);
        proof {
            lemma_index_or_end(rest, '/');
            assert(end == i + index_or_end(rest, '/'));
        }
        let piece = capitalize(&v, i, end);
        out.append(piece.as_str());
        assert forall|j: int| 0 <= j < out@.len() implies out@[j] != '/' by {
            if j < was.len() {
                assert(was.contains(was[j]));
            } else {
                assert(piece@.contains(piece@[j - was.len()]));
            }
        }
        if end < v.len() {
            assert(v@.subrange(i as int, end as int) =~= rest.take(end - i));
            assert(rest.skip(end - i + 1) =~= method@.skip(end + 1));
            assert(out@ + pascal(method@.skip(end + 1)) =~= was + pascal(rest));
            i = end + 1;
        } else {
            assert(v@.subrange(i as int, end as int) =~= rest);
            assert(out@ =~= was + pascal(rest));
            break;
        }
    }
    out
}

/// The parts of a method are capitalized one by one, and put together without slashes.
pub proof fn law_pascal_goes_by_parts(a: Seq<char>, b: Seq<char>)
    ensures
        pascal(a + "/"@ + b) == pascal(a) + pascal(b),
    decreases a.len(),
{
    reveal_strlit("/");
    let all = a + "/"@ + b;
    lemma_index_or_end(all, '/');
    lemma_index_or_end(a, '/');
    let k = index_or_end(all, '/');
    let j = index_or_end(a, '/');
    assert(all[a.len() as int] == '/');
    assert forall|i: int| 0 <= i < a.len() implies all[i] == a[i] by {}
    if j < a.len() {
        assert(all[j] == '/');
        if k < j {
            assert(a[k] == '/');
        }
        assert(k == j);
        assert(all.take(k) =~= a.take(k));
        assert(all.skip(k + 1) =~= a.skip(k + 1) + "/"@ + b);
        law_pascal_goes_by_parts(a.skip(k + 1), b);
        assert(pascal(all) =~= pascal(a) + pascal(b));
    } else {
        if k < a.len() {
            assert(a[k] == '/');
        }
        assert(k == a.len());
        assert(all.take(k) =~= a);
        assert(all.skip(k + 1) =~= b);
    }
}

/// In a part of a method only the first character changes; an empty part gives nothing.
pub proof fn law_pascal_keeps_the_rest(part: Seq<char>)
    requires
        !part.contains('/'),
    ensures
        part.len() == 0 ==> pascal(part) == Seq::<char>::empty(),
        part.len() > 0 ==> pascal(part) == upper(part[0]) + part.skip(1),
{
    lemma_index_or_end(part, '/');
    let k = index_or_end(part, '/');
    if k < part.len() {
        assert(part[k] == '/');
    }
}

/// The file that describes a frame.
pub open spec fn schema_name(method: Seq<char>, kind: FrameKind) -> Seq<char> {
    pascal(method) + (match kind {
        FrameKind::Response => "Response"@,
        FrameKind::Notification => "Notification"@,
    }) + ".json"@
}

/// The file that describes a frame.
pub fn schema_file(frame: &Frame) -> (r: String)
    ensures
        r@ == schema_name(frame.method@, frame.kind),
{
    let stem = method_to_pascal(frame.method.as_str());
    match frame.kind {
        FrameKind::Response => join3(stem.as_str(), "Response", ".json"),
        FrameKind::Notification => join3(stem.as_str(), "Notification", ".json"),
    }
}

// ---------------------------------------------------------------------------
// Validation
// ---------------------------------------------------------------------------
/// What a Draft 7 schema finds wrong with a value, in the order of the validator, each
/// entry as the place in the value and the message; none if the schema is no schema.
pub uninterp spec fn found_wrong(schema: JsonV, instance: JsonV) -> Option<
    Seq<(Seq<char>, Seq<char>)>,
>;

/// `jsonschema::draft7::new` compiles a schema, and `Validator::iter_errors` lists
/// what is wrong with a value, each entry as the place in the value and the message.
/// Whether there is a list, and what it holds in which order, depends on what the schema
/// and the value hold: the validator walks the members of both in order, looks names up
/// in its tables, and fetches nothing.
#[verifier::external_body]
fn schema_errors(schema: &serde_json::Value, instance: &serde_json::Value) -> (r: Option<
    Vec<(String, String)>,
>)
    ensures
        match r {
            Some(errors) => found_wrong(json_of(*schema), json_of(*instance)) == Some(
                complaints(errors@),
            ),
            None => found_wrong(json_of(*schema), json_of(*instance)) is None,
        },
{
    let validator = jsonschema::draft7::new(schema).ok()?;
    let errors = validator.iter_errors(instance);
    Some(errors.map(|e| (e.instance_path().to_string(), e.to_string())).collect())
}

/// The model of a list of complaints: places in a value, and messages.
pub open spec fn complaints(s: Seq<(String, String)>) -> Seq<(Seq<char>, Seq<char>)> {
    s.map_values(|e: (String, String)| (e.0@, e.1@))
}

/// A complaint with its place in front.
pub open spec fn complaint(e: (Seq<char>, Seq<char>)) -> Seq<char> {
    e.0 + ": "@ + e.1
}

/// Complaints, each with its place in front.
pub open spec fn written(s: Seq<(Seq<char>, Seq<char>)>) -> Seq<Seq<char>> {
    s.map_values(|e: (Seq<char>, Seq<char>)| complaint(e))
}

/// Writes complaints down, each with its place in front.
pub fn show_complaints(errors: &Vec<(String, String)>) -> (r: Vec<String>)
    ensures
        texts(r@) == written(complaints(errors@)),
{
    let mut out: Vec<String> = Vec::new();
    let mut i: usize = 0;
    while i < errors.len()
        invariant
            i <= errors@.len(),
            out@.len() == i,
            forall|k: int|
                0 <= k < i ==> (#[trigger] out@[k])@ == complaint(complaints(errors@)[k]),
        decreases errors@.len() - i,
    {
        let (place, message) = &errors[i];
        out.push(join3(place.as_str(), ": ", message.as_str()));
        i += 1;
    }
    assert(texts(out@) =~= written(complaints(errors@)));
    out
}

/// Complaints about the one value that codex sends and its older schemas do not
/// know: the service tier `priority`.
pub open spec fn stale_schema(target: TargetId, kind: FrameKind, errors: Seq<Seq<char>>) -> bool {
    target == TargetId::Codex && kind == FrameKind::Response && forall|i: int|
        0 <= i < errors.len() ==> has_text(#[trigger] errors[i], "/serviceTier:"@) && has_text(
            errors[i],
            "\"priority\" is not valid"@,
        )
}

/// What to make of the complaints of the validator.
pub fn judge(target: TargetId, kind: FrameKind, errors: &Vec<String>) -> (r: Result<(), String>)
    ensures
        r is Ok <==> errors@.len() == 0 || stale_schema(target, kind, texts(errors@)),
        r matches Err(message) ==> message@ == joined(texts(errors@), "; "@),
{
    let ghost all = texts(errors@);
    let mut stale = target == TargetId::Codex && kind == FrameKind::Response;
    let mut i: usize = 0;
    while i < errors.len()
        invariant
            i <= errors@.len(),
            all == texts(errors@),
            stale == (target == TargetId::Codex && kind == FrameKind::Response && forall|k: int|
                0 <= k < i ==> has_text(#[trigger] all[k], "/serviceTier:"@) && has_text(
                    all[k],
                    "\"priority\" is not valid"@,
                )),
        decreases errors@.len() - i,
    {
        assert(all[i as int] == errors@[i as int]@);
        let e = errors[i].as_str();
        if !contains(e, "/serviceTier:") || !contains(e, "\"priority\" is not valid") {
            stale = false;
        }
        i += 1;
    }
    if errors.len() == 0 || stale {
        Ok(())
    } else {
        Err(join(errors, "; "))
    }
}

/// What a frame is held against its schema by; a frame that says nothing counts as
/// `null`.
pub open spec fn payload_or_null(f: FrameV) -> JsonV {
    match payload(f) {
        Some(v) => v,
        None => JsonV::Null,
    }
}

/// Holds a frame against its schema: what is wrong with it, if anything is that counts. A
/// frame without a schema, and one whose schema is no schema, passes.
pub fn validate(frame: &Frame, target: TargetId, schema: Option<&Json>) -> (r: Result<(), String>)
    ensures
        match schema {
            Some(s) => match found_wrong(s.view(), payload_or_null(frame.view())) {
                Some(w) => {
                    &&& r is Ok <==> w.len() == 0 || stale_schema(target, frame.kind, written(w))
                    &&& r matches Err(message) ==> message@ == joined(written(w), "; "@)
                },
                None => r is Ok,
            },
            None => r is Ok,
        },
{
    let s = match schema {
        Some(s) => s,
        None => {
            return Ok(());
        },
    };
    let null = Json::Null;
    let instance = match extract_payload(frame) {
        Some(p) => p,
        None => &null,
    };
    match schema_errors(&from_json(s), &from_json(instance)) {
        Some(errors) => {
            let shown = show_complaints(&errors);
            assert(texts(shown@).len() == shown@.len());
            judge(target, frame.kind, &shown)
        },
        None => Ok(()),
    }
}

// ---------------------------------------------------------------------------
// Laws
// ---------------------------------------------------------------------------
/// A response and a notification of one method have schemas of different names.
pub proof fn law_kinds_have_their_own_schemas(method: Seq<char>)
    ensures
        schema_name(method, FrameKind::Response) != schema_name(method, FrameKind::Notification),
{
    reveal_strlit("Response");
    reveal_strlit("Notification");
    reveal_strlit(".json");
    assert(schema_name(method, FrameKind::Response).len() == pascal(method).len() + 13);
    assert(schema_name(method, FrameKind::Notification).len() == pascal(method).len() + 17);
}

} // verus!
