//! Checks of what the frames of the scenario hold.
//!
//! A response may be well formed and have the right keys, and still hold nothing of
//! use. These checks look at the places where empty is wrong.

use vstd::prelude::*;

use super::divergence::{DivergenceV, KnownDivergence, divergence_of, relaxed};
use super::finding::{Finding, FindingV, findings, lemma_findings_push};
use super::transcript::{Frame, FrameKind, FrameV, Transcript, frames};
use crate::json::{
    Json, JsonV, fields, is_live, jsons, lemma_array_view, lemma_fields_at, lemma_fields_live, live,
};
use crate::text::{
    contains, debugged, decimal, decimal_i64, decimal_int, decimal_u64, has_text, join2, join3,
    opt_same, opt_text, owned, quote, same,
};

verus! {

/// What a run of the scenario expects to see again.
#[derive(Debug)]
pub struct SemanticContext {
    pub thread_id: Option<String>,
    pub disposable_thread_id: Option<String>,
    pub forked_thread_id: Option<String>,
    pub interrupted_turn_id: Option<String>,
    pub rollback_before_turns: Option<usize>,
    pub marker_token: String,
    pub simple_prompt: String,
    pub expected_simple_reply: String,
    pub expected_command_stdout: String,
    pub streaming_process_id: Option<String>,
}

/// The model of [`SemanticContext`].
pub struct ContextV {
    pub thread_id: Option<Seq<char>>,
    pub disposable_thread_id: Option<Seq<char>>,
    pub forked_thread_id: Option<Seq<char>>,
    pub interrupted_turn_id: Option<Seq<char>>,
    pub rollback_before_turns: Option<usize>,
    pub marker_token: Seq<char>,
    pub simple_prompt: Seq<char>,
    pub expected_simple_reply: Seq<char>,
    pub expected_command_stdout: Seq<char>,
    pub streaming_process_id: Option<Seq<char>>,
}

/// What a run expects before it has begun.
pub open spec fn fresh_context(marker: Seq<char>, prompt: Seq<char>) -> ContextV {
    ContextV {
        thread_id: None,
        disposable_thread_id: None,
        forked_thread_id: None,
        interrupted_turn_id: None,
        rollback_before_turns: None,
        marker_token: marker,
        simple_prompt: prompt,
        expected_simple_reply: "OK"@,
        expected_command_stdout: "hello"@,
        streaming_process_id: None,
    }
}

impl SemanticContext {
    /// The model of this context.
    pub open spec fn view(&self) -> ContextV {
        ContextV {
            thread_id: opt_text(self.thread_id),
            disposable_thread_id: opt_text(self.disposable_thread_id),
            forked_thread_id: opt_text(self.forked_thread_id),
            interrupted_turn_id: opt_text(self.interrupted_turn_id),
            rollback_before_turns: self.rollback_before_turns,
            marker_token: self.marker_token@,
            simple_prompt: self.simple_prompt@,
            expected_simple_reply: self.expected_simple_reply@,
            expected_command_stdout: self.expected_command_stdout@,
            streaming_process_id: opt_text(self.streaming_process_id),
        }
    }

    /// What a run expects before it has begun.
    pub fn new(marker_token: String, simple_prompt: String) -> (r: SemanticContext)
        ensures
            r.view() == fresh_context(marker_token@, simple_prompt@),
    {
        SemanticContext {
            thread_id: None,
            disposable_thread_id: None,
            forked_thread_id: None,
            interrupted_turn_id: None,
            rollback_before_turns: None,
            marker_token,
            simple_prompt,
            expected_simple_reply: owned("OK"),
            expected_command_stdout: owned("hello"),
            streaming_process_id: None,
        }
    }
}

// ---------------------------------------------------------------------------
// Looking into values
// ---------------------------------------------------------------------------
/// Whether some text in a value has `needle` in it. Nothing has the empty text in it.
pub open spec fn mentions(v: JsonV, needle: Seq<char>) -> bool
    decreases v,
{
    needle.len() > 0 && match v {
        JsonV::Str(s) => has_text(s, needle),
        JsonV::Arr(a) => exists|i: int| 0 <= i < a.len() && mentions(#[trigger] a[i], needle),
        JsonV::Obj(m) => exists|k: Seq<char>| #[trigger]
            m.dom().contains(k) && mentions(m[k], needle),
        _ => false,
    }
}

/// Whether some text in a value has `needle` in it.
pub fn contains_text(v: &Json, needle: &str) -> (r: bool)
    ensures
        r == mentions(v.view(), needle@),
    decreases v,
{
    broadcast use lemma_array_view;

    if needle.is_empty() {
        return false;
    }
    match v {
        Json::Str(s) => contains(s.as_str(), needle),
        Json::Array(a) => {
            let n: usize = a.len();
            let mut i: usize = 0;
            while i < n
                invariant
                    i <= n,
                    n == a@.len(),
                    needle@.len() > 0,
                    *v == Json::Array(*a),
                    v.view() == JsonV::Arr(jsons(a@)),
                    forall|k: int| 0 <= k < i ==> !mentions(#[trigger] jsons(a@)[k], needle@),
                decreases n - i,
            {
                assert(decreases_to!(*v => v->Array_0));
                assert(decreases_to!(v->Array_0 => v->Array_0@));
                assert(decreases_to!(a@ => a@[i as int]));
                assert(jsons(a@)[i as int] == a@[i as int].view());
                if contains_text(&a[i], needle) {
                    proof {
                        law_element_is_mentioned(jsons(a@), i as int, needle@);
                    }
                    return true;
                }
                i += 1;
            }
            false
        },
        Json::Object(fs) => {
            let n: usize = fs.len();
            let mut i: usize = 0;
            while i < n
                invariant
                    i <= n,
                    n == fs@.len(),
                    needle@.len() > 0,
                    *v == Json::Object(*fs),
                    v.view() == JsonV::Obj(fields(fs@)),
                    forall|k: int|
                        0 <= k < i && #[trigger] live(fs@, k) ==> !mentions(
                            fs@[k].1.view(),
                            needle@,
                        ),
                decreases n - i,
            {
                assert(decreases_to!(*v => v->Object_0));
                assert(decreases_to!(v->Object_0 => v->Object_0@));
                assert(decreases_to!(fs@ => fs@[i as int]));
                assert(decreases_to!(fs@[i as int] => fs@[i as int].1));
                if is_live(fs, i) && contains_text(&fs[i].1, needle) {
                    proof {
                        lemma_fields_at(fs@, i as int);
                        law_member_is_mentioned(fields(fs@), fs@[i as int].0@, needle@);
                    }
                    return true;
                }
                i += 1;
            }
            proof {
                let m = fields(fs@);
                assert forall|k: Seq<char>| #[trigger] m.dom().contains(k) implies !mentions(
                    m[k],
                    needle@,
                ) by {
                    let j = lemma_fields_live(fs@, k);
                    assert(live(fs@, j));
                }
            }
            false
        },
        _ => false,
    }
}

/// A value that is there and is a text with something in it.
pub open spec fn filled_text(v: Option<JsonV>) -> bool {
    match v {
        Some(v) => match v.as_str() {
            Some(s) => s.len() > 0,
            None => false,
        },
        None => false,
    }
}

fn non_empty_string(v: Option<&Json>) -> (r: bool)
    ensures
        r == filled_text(
            match v {
                Some(j) => Some(j.view()),
                None => None,
            },
        ),
{
    match v {
        Some(j) => match j.as_str() {
            Some(s) => !s.is_empty(),
            None => false,
        },
        None => false,
    }
}

/// A member of the result of a response.
pub open spec fn result_member(f: FrameV, key: Seq<char>) -> Option<JsonV> {
    f.raw.get2("result"@, key)
}

/// The list that a response gives.
pub open spec fn result_data(f: FrameV) -> Option<Seq<JsonV>> {
    match result_member(f, "data"@) {
        Some(d) => d.as_array(),
        None => None,
    }
}

fn data_of(frame: &Frame) -> (r: Option<&Vec<Json>>)
    ensures
        match r {
            Some(v) => result_data(frame.view()) == Some(jsons(v@)),
            None => result_data(frame.view()) is None,
        },
{
    match frame.raw.get2("result", "data") {
        Some(d) => d.as_array(),
        None => None,
    }
}

/// The id of the thread that a response gives.
pub open spec fn thread_id(f: FrameV) -> Option<Seq<char>> {
    match result_member(f, "thread"@) {
        Some(t) => t.str_at("id"@),
        None => None,
    }
}

fn thread_id_of(frame: &Frame) -> (r: Option<&str>)
    ensures
        match r {
            Some(s) => thread_id(frame.view()) == Some(s@),
            None => thread_id(frame.view()) is None,
        },
{
    match frame.raw.get2("result", "thread") {
        Some(t) => t.str_at("id"),
        None => None,
    }
}

/// The turns of the thread that a response gives.
pub open spec fn turns(f: FrameV) -> Option<Seq<JsonV>> {
    match result_member(f, "thread"@) {
        Some(t) => t.array_at("turns"@),
        None => None,
    }
}

fn turns_of(frame: &Frame) -> (r: Option<&Vec<Json>>)
    ensures
        match r {
            Some(v) => turns(frame.view()) == Some(jsons(v@)),
            None => turns(frame.view()) is None,
        },
{
    match frame.raw.get2("result", "thread") {
        Some(t) => t.array_at("turns"),
        None => None,
    }
}

/// Whether an item is of a type; every type is allowed where none is asked for.
pub open spec fn of_type(item: JsonV, wanted: Option<Seq<char>>) -> bool {
    match wanted {
        Some(w) => item.str_at("type"@) == Some(w),
        None => true,
    }
}

/// Whether an item of some type in some turn mentions a text.
pub open spec fn item_mentions(
    turns: Seq<JsonV>,
    wanted: Option<Seq<char>>,
    needle: Seq<char>,
) -> bool {
    exists|i: int, j: int|
        0 <= i < turns.len() && turns[i].array_at("items"@) is Some && 0 <= j
            < turns[i].array_at("items"@)->Some_0.len() && of_type(
            #[trigger] turns[i].array_at("items"@)->Some_0[j],
            wanted,
        ) && mentions(turns[i].array_at("items"@)->Some_0[j], needle)
}

fn any_item_mentions(v: &Vec<Json>, wanted: Option<&str>, needle: &str) -> (r: bool)
    ensures
        r == item_mentions(
            jsons(v@),
            match wanted {
                Some(w) => Some(w@),
                None => None,
            },
            needle@,
        ),
{
    let ghost want = match wanted {
        Some(w) => Some(w@),
        None => None,
    };
    let ghost all = jsons(v@);
    let n: usize = v.len();
    let mut i: usize = 0;
    while i < n
        invariant
            i <= n,
            n == v@.len(),
            all == jsons(v@),
            want == (match wanted {
                Some(w) => Some(w@),
                None => None,
            }),
            forall|k: int, j: int|
                0 <= k < i && all[k].array_at("items"@) is Some && 0 <= j < all[k].array_at(
                    "items"@,
                )->Some_0.len() ==> !(of_type(
                    #[trigger] all[k].array_at("items"@)->Some_0[j],
                    want,
                ) && mentions(all[k].array_at("items"@)->Some_0[j], needle@)),
        decreases n - i,
    {
        assert(all[i as int] == v@[i as int].view());
        if let Some(items) = v[i].array_at("items") {
            let m: usize = items.len();
            let ghost its = jsons(items@);
            let mut j: usize = 0;
            while j < m
                invariant
                    j <= m,
                    m == items@.len(),
                    i < n,
                    n == v@.len(),
                    all == jsons(v@),
                    its == jsons(items@),
                    all[i as int].array_at("items"@) == Some(its),
                    want == (match wanted {
                        Some(w) => Some(w@),
                        None => None,
                    }),
                    forall|q: int|
                        0 <= q < j ==> !(of_type(#[trigger] its[q], want) && mentions(
                            its[q],
                            needle@,
                        )),
                decreases m - j,
            {
                assert(its[j as int] == items@[j as int].view());
                let fits = match wanted {
                    Some(w) => opt_same(items[j].str_at("type"), w),
                    None => true,
                };
                if fits && contains_text(&items[j], needle) {
                    assert(of_type(all[i as int].array_at("items"@)->Some_0[j as int], want));
                    return true;
                }
                j += 1;
            }
        }
        i += 1;
    }
    false
}

fn any_mentions(v: &Vec<Json>, needle: &str) -> (r: bool)
    ensures
        r == exists|i: int| 0 <= i < v@.len() && mentions(#[trigger] jsons(v@)[i], needle@),
{
    let n: usize = v.len();
    let mut i: usize = 0;
    while i < n
        invariant
            i <= n,
            n == v@.len(),
            forall|k: int| 0 <= k < i ==> !mentions(#[trigger] jsons(v@)[k], needle@),
        decreases n - i,
    {
        assert(jsons(v@)[i as int] == v@[i as int].view());
        if contains_text(&v[i], needle) {
            return true;
        }
        i += 1;
    }
    false
}

// ---------------------------------------------------------------------------
// Responses
// ---------------------------------------------------------------------------
/// A broken rule of a method, found in a frame.
pub open spec fn violation(
    f: FrameV,
    method: Seq<char>,
    contract: Seq<char>,
    detail: Seq<char>,
) -> FindingV {
    FindingV::SemanticViolation { step: f.step, method, contract, detail }
}

/// The one finding, or none.
pub open spec fn unless(ok: bool, f: FindingV) -> Seq<FindingV> {
    if ok {
        seq![]
    } else {
        seq![f]
    }
}

/// An optional text as `{:?}` shows it.
pub open spec fn shown_option(s: Option<Seq<char>>) -> Seq<char> {
    match s {
        Some(t) => "Some("@ + debugged(t) + ")"@,
        None => "None"@,
    }
}

/// An optional integer as `{:?}` shows it.
pub open spec fn shown_integer(n: Option<int>) -> Seq<char> {
    match n {
        Some(i) => "Some("@ + decimal_int(i) + ")"@,
        None => "None"@,
    }
}

fn show_option(s: Option<&str>) -> (r: String)
    ensures
        r@ == shown_option(
            match s {
                Some(t) => Some(t@),
                None => None,
            },
        ),
{
    match s {
        Some(t) => join3("Some(", quote(t).as_str(), ")"),
        None => owned("None"),
    }
}

fn show_integer(n: Option<i64>) -> (r: String)
    ensures
        r@ == shown_integer(
            match n {
                Some(i) => Some(i as int),
                None => None,
            },
        ),
{
    match n {
        Some(i) => join3("Some(", decimal_i64(i).as_str(), ")"),
        None => owned("None"),
    }
}

/// The server has to say who and where it is.
pub open spec fn initialize_findings(f: FrameV) -> Seq<FindingV> {
    unless(
        filled_text(result_member(f, "userAgent"@)),
        violation(
            f,
            "initialize"@,
            "non_empty_server_info"@,
            "result."@ + "userAgent"@ + " must be a non-empty string"@,
        ),
    ) + unless(
        filled_text(result_member(f, "codexHome"@)),
        violation(
            f,
            "initialize"@,
            "non_empty_server_info"@,
            "result."@ + "codexHome"@ + " must be a non-empty string"@,
        ),
    ) + unless(
        filled_text(result_member(f, "platformOs"@)),
        violation(
            f,
            "initialize"@,
            "non_empty_server_info"@,
            "result."@ + "platformOs"@ + " must be a non-empty string"@,
        ),
    )
}

/// Every model of the catalog has to have an id and a name.
pub open spec fn catalog_findings(f: FrameV, data: Seq<JsonV>) -> Seq<FindingV>
    decreases data.len(),
{
    if data.len() == 0 {
        seq![]
    } else {
        catalog_findings(f, data.drop_last()) + unless(
            filled_text(data.last().get("id"@)) && filled_text(data.last().get("displayName"@)),
            violation(
                f,
                "model/list"@,
                "populated_catalog"@,
                "result.data["@ + decimal((data.len() - 1) as nat)
                    + "] must have non-empty id and displayName"@,
            ),
        )
    }
}

/// There has to be a model, and each has to have an id and a name.
pub open spec fn model_list_findings(f: FrameV) -> Seq<FindingV> {
    match result_data(f) {
        Some(data) => if data.len() == 0 {
            seq![
                violation(
                    f,
                    "model/list"@,
                    "populated_catalog"@,
                    "result.data must contain at least one model"@,
                ),
            ]
        } else {
            catalog_findings(f, data)
        },
        None => seq![
            violation(f, "model/list"@, "populated_catalog"@, "result.data must be an array"@),
        ],
    }
}

/// Whether a list of threads has one with an id.
pub open spec fn lists_thread(data: Seq<JsonV>, id: Seq<char>) -> bool {
    exists|i: int| 0 <= i < data.len() && (#[trigger] data[i]).str_at("id"@) == Some(id)
}

/// The thread that is asked for has to be in the list.
pub open spec fn listed_findings(
    f: FrameV,
    method: Seq<char>,
    wanted: Option<Seq<char>>,
) -> Seq<FindingV> {
    match wanted {
        Some(id) => unless(
            result_data(f) is Some && lists_thread(result_data(f)->Some_0, id),
            violation(
                f,
                method,
                "thread/list.contains_thread"@,
                "result.data[].id must include "@ + id,
            ),
        ),
        None => seq![],
    }
}

/// A started thread has to have an id.
pub open spec fn attach_findings(f: FrameV) -> Seq<FindingV> {
    unless(
        thread_id(f) is Some && thread_id(f)->Some_0.len() > 0,
        violation(f, "thread/start"@, "attaches"@, "result.thread.id must be non-empty"@),
    )
}

/// A resumed thread has to keep its id.
pub open spec fn resume_findings(f: FrameV, wanted: Option<Seq<char>>) -> Seq<FindingV> {
    match wanted {
        Some(id) => unless(
            thread_id(f) == Some(id),
            violation(
                f,
                "thread/resume"@,
                "echoes_thread_id"@,
                "result.thread.id was "@ + shown_option(thread_id(f)) + ", expected "@ + debugged(
                    id,
                ),
            ),
        ),
        None => seq![],
    }
}

/// The history has to show the prompt or the reply.
pub open spec fn history_findings(f: FrameV, ctx: ContextV) -> Seq<FindingV> {
    match turns(f) {
        Some(t) => if t.len() == 0 {
            seq![
                violation(
                    f,
                    "thread/read"@,
                    "echoes_turns"@,
                    "result.thread.turns must contain at least one turn"@,
                ),
            ]
        } else {
            unless(
                (exists|i: int| 0 <= i < t.len() && mentions(#[trigger] t[i], ctx.simple_prompt))
                    || item_mentions(t, Some("agentMessage"@), ctx.expected_simple_reply),
                violation(
                    f,
                    "thread/read"@,
                    "echoes_input_or_reply"@,
                    "thread history must include the simple prompt or an OK agent reply"@,
                ),
            )
        },
        None => seq![
            violation(
                f,
                "thread/read"@,
                "echoes_turns"@,
                "result.thread.turns must be an array"@,
            ),
        ],
    }
}

/// The history has to have both turns, and to show the marker.
pub open spec fn tool_history_findings(f: FrameV, ctx: ContextV) -> Seq<FindingV> {
    match turns(f) {
        Some(t) => unless(
            t.len() >= 2,
            violation(
                f,
                "thread/read"@,
                "afterTool.turns"@,
                "result.thread.turns must contain at least two turns"@,
            ),
        ) + unless(
            item_mentions(t, None, ctx.marker_token),
            violation(
                f,
                "thread/read"@,
                "afterTool.marker_visible"@,
                "thread history must include an item containing the marker token"@,
            ),
        ),
        None => seq![
            violation(
                f,
                "thread/read"@,
                "afterTool.turns"@,
                "result.thread.turns must be an array"@,
            ),
        ],
    }
}

/// A forked thread has to have an id of its own.
pub open spec fn fork_findings(f: FrameV, ctx: ContextV) -> Seq<FindingV> {
    unless(
        thread_id(f) is Some && thread_id(f)->Some_0.len() > 0,
        violation(f, "thread/fork"@, "new_id"@, "result.thread.id must be non-empty"@),
    ) + unless(
        thread_id(f) is None || thread_id(f) != ctx.disposable_thread_id,
        violation(
            f,
            "thread/fork"@,
            "new_id"@,
            "forked thread id must differ from disposable thread id"@,
        ),
    )
}

/// How many turns a response gives.
pub open spec fn turn_count(f: FrameV) -> nat {
    match turns(f) {
        Some(t) => t.len(),
        None => 0,
    }
}

/// A rollback has to leave fewer turns.
pub open spec fn rollback_findings(f: FrameV, ctx: ContextV) -> Seq<FindingV> {
    match ctx.rollback_before_turns {
        Some(n) => unless(
            turn_count(f) < n,
            violation(
                f,
                "thread/rollback"@,
                "drops_turns"@,
                "rollback response has "@ + decimal(turn_count(f)) + " turns; expected fewer than "@
                    + decimal(n as nat),
            ),
        ),
        None => seq![],
    }
}

/// How many entries a response lists.
pub open spec fn data_count(f: FrameV) -> nat {
    match result_data(f) {
        Some(d) => d.len(),
        None => 0,
    }
}

/// The list of turns has to have one.
pub open spec fn page_findings(f: FrameV) -> Seq<FindingV> {
    unless(
        data_count(f) >= 1,
        violation(
            f,
            "thread/turns/list"@,
            "paginates"@,
            "result.data length was "@ + decimal(data_count(f)) + "; expected at least "@
                + decimal(1),
        ),
    )
}

/// The exit code that a response gives.
pub open spec fn exit_code(f: FrameV) -> Option<int> {
    match result_member(f, "exitCode"@) {
        Some(c) => c.as_i64(),
        None => None,
    }
}

/// The output that a response gives.
pub open spec fn stdout_text(f: FrameV) -> Seq<char> {
    match result_member(f, "stdout"@) {
        Some(v) => match v.as_str() {
            Some(s) => s,
            None => seq![],
        },
        None => seq![],
    }
}

/// The command has to succeed with the output that it is known to have.
pub open spec fn exec_findings(f: FrameV, ctx: ContextV) -> Seq<FindingV> {
    if f.raw.get("result"@) is None {
        seq![violation(f, "command/exec"@, "stdout_matches"@, "missing result"@)]
    } else {
        unless(
            exit_code(f) == Some(0int) && stdout_text(f) == ctx.expected_command_stdout,
            violation(
                f,
                "command/exec"@,
                "stdout_matches"@,
                "exitCode="@ + shown_integer(exit_code(f)) + ", stdout="@ + debugged(stdout_text(f))
                    + "; expected exitCode=0 and stdout="@ + debugged(ctx.expected_command_stdout),
            ),
        )
    }
}

/// The command that was terminated has to have failed.
pub open spec fn terminated_findings(f: FrameV) -> Seq<FindingV> {
    unless(
        exit_code(f) is Some && exit_code(f) != Some(0int),
        violation(
            f,
            "command/exec/terminate"@,
            "terminates_process"@,
            "terminated companion command exitCode was "@ + shown_integer(exit_code(f))
                + "; expected non-zero"@,
        ),
    )
}

/// What is found in a response: which rules hold depends on the step. An error
/// response breaks none.
pub open spec fn response_findings(f: FrameV, ctx: ContextV) -> Seq<FindingV> {
    if f.kind != FrameKind::Response || f.raw.get("error"@) is Some {
        seq![]
    } else if f.step == "initialize"@ {
        initialize_findings(f)
    } else if f.step == "model/list"@ {
        model_list_findings(f)
    } else if f.step == "thread/list"@ {
        unless(
            result_data(f) is Some,
            violation(f, "thread/list"@, "array_shape"@, "result.data must be an array"@),
        )
    } else if f.step == "thread/list.disposable"@ {
        listed_findings(f, f.method, ctx.disposable_thread_id)
    } else if f.step == "thread/list.archived"@ {
        listed_findings(f, "thread/archive"@, ctx.disposable_thread_id)
    } else if f.step == "thread/list.unarchived"@ {
        listed_findings(f, "thread/unarchive"@, ctx.disposable_thread_id)
    } else if f.step == "thread/start"@ || f.step == "thread/start.disposable"@ {
        attach_findings(f)
    } else if f.step == "thread/resume"@ {
        resume_findings(f, ctx.thread_id)
    } else if f.step == "thread/read"@ {
        history_findings(f, ctx)
    } else if f.step == "thread/read.afterTool"@ {
        tool_history_findings(f, ctx)
    } else if f.step == "thread/fork"@ {
        fork_findings(f, ctx)
    } else if f.step == "thread/rollback"@ {
        rollback_findings(f, ctx)
    } else if f.step == "thread/turns/list"@ {
        page_findings(f)
    } else if f.step == "thread/loaded/list"@ {
        unless(
            result_data(f) is Some,
            violation(f, "thread/loaded/list"@, "array"@, "result.data must be an array"@),
        )
    } else if f.step == "command/exec"@ {
        exec_findings(f, ctx)
    } else if f.step == "command/exec.streaming"@ {
        terminated_findings(f)
    } else {
        seq![]
    }
}

/// What is found in a list of responses.
pub open spec fn responses_findings(s: Seq<FrameV>, ctx: ContextV) -> Seq<FindingV>
    decreases s.len(),
{
    if s.len() == 0 {
        seq![]
    } else {
        responses_findings(s.drop_last(), ctx) + response_findings(s.last(), ctx)
    }
}

fn breach(frame: &Frame, method: &str, contract: &str, detail: &str) -> (r: Finding)
    ensures
        r.view() == violation(frame.view(), method@, contract@, detail@),
{
    Finding::SemanticViolation {
        step: frame.step.clone(),
        method: owned(method),
        contract: owned(contract),
        detail: owned(detail),
    }
}

fn note_unless(out: &mut Vec<Finding>, ok: bool, f: Finding)
    ensures
        findings(final(out)@) == findings(old(out)@) + unless(ok, f.view()),
{
    if !ok {
        proof {
            lemma_findings_push(out@, f);
        }
        out.push(f);
    }
    assert(findings(out@) =~= findings(old(out)@) + unless(ok, f.view()));
}

fn check_initialize(frame: &Frame, out: &mut Vec<Finding>)
    ensures
        findings(final(out)@) == findings(old(out)@) + initialize_findings(frame.view()),
{
    note_unless(
        out,
        non_empty_string(frame.raw.get2("result", "userAgent")),
        breach(
            frame,
            "initialize",
            "non_empty_server_info",
            join3("result.", "userAgent", " must be a non-empty string").as_str(),
        ),
    );
    note_unless(
        out,
        non_empty_string(frame.raw.get2("result", "codexHome")),
        breach(
            frame,
            "initialize",
            "non_empty_server_info",
            join3("result.", "codexHome", " must be a non-empty string").as_str(),
        ),
    );
    note_unless(
        out,
        non_empty_string(frame.raw.get2("result", "platformOs")),
        breach(
            frame,
            "initialize",
            "non_empty_server_info",
            join3("result.", "platformOs", " must be a non-empty string").as_str(),
        ),
    );
    assert(findings(out@) =~= findings(old(out)@) + initialize_findings(frame.view()));
}

fn check_model_list(frame: &Frame, out: &mut Vec<Finding>)
    ensures
        findings(final(out)@) == findings(old(out)@) + model_list_findings(frame.view()),
{
    let ghost start = findings(out@);
    let data = match data_of(frame) {
        Some(data) => data,
        None => {
            note_unless(
                out,
                false,
                breach(frame, "model/list", "populated_catalog", "result.data must be an array"),
            );
            assert(findings(out@) =~= start + model_list_findings(frame.view()));
            return;
        },
    };
    if data.len() == 0 {
        note_unless(
            out,
            false,
            breach(
                frame,
                "model/list",
                "populated_catalog",
                "result.data must contain at least one model",
            ),
        );
        assert(findings(out@) =~= start + model_list_findings(frame.view()));
        return;
    }
    let ghost all = jsons(data@);
    let mut i: usize = 0;
    assert(start + catalog_findings(frame.view(), all.take(0)) =~= start);
    while i < data.len()
        invariant
            i <= data@.len(),
            all == jsons(data@),
            findings(out@) == start + catalog_findings(frame.view(), all.take(i as int)),
        decreases data@.len() - i,
    {
        assert(all.take(i + 1).drop_last() =~= all.take(i as int));
        assert(all.take(i + 1).last() == data@[i as int].view());
        let ok = non_empty_string(data[i].get("id")) && non_empty_string(
            data[i].get("displayName"),
        );
        let detail = join3(
            "result.data[",
            decimal_u64(i as u64).as_str(),
            "] must have non-empty id and displayName",
        );
        note_unless(out, ok, breach(frame, "model/list", "populated_catalog", detail.as_str()));
        assert(findings(out@) =~= start + catalog_findings(frame.view(), all.take(i + 1)));
        i += 1;
    }
    assert(all.take(i as int) =~= all);
}

fn check_thread_list_contains_as(
    frame: &Frame,
    method: &str,
    wanted: &Option<String>,
    out: &mut Vec<Finding>,
)
    ensures
        findings(final(out)@) == findings(old(out)@) + listed_findings(
            frame.view(),
            method@,
            opt_text(*wanted),
        ),
{
    let id = match wanted {
        Some(id) => id,
        None => {
            assert(findings(out@) =~= findings(old(out)@) + seq![]);
            return;
        },
    };
    let mut found = false;
    if let Some(data) = data_of(frame) {
        let ghost all = jsons(data@);
        let mut i: usize = 0;
        while i < data.len()
            invariant
                i <= data@.len(),
                all == jsons(data@),
                found == exists|k: int|
                    0 <= k < i && (#[trigger] all[k]).str_at("id"@) == Some(id@),
            decreases data@.len() - i,
        {
            assert(all[i as int] == data@[i as int].view());
            if opt_same(data[i].str_at("id"), id.as_str()) {
                found = true;
            }
            i += 1;
        }
    }
    let detail = join2("result.data[].id must include ", id.as_str());
    note_unless(out, found, breach(frame, method, "thread/list.contains_thread", detail.as_str()));
}

fn check_thread_read_simple(frame: &Frame, ctx: &SemanticContext, out: &mut Vec<Finding>)
    ensures
        findings(final(out)@) == findings(old(out)@) + history_findings(frame.view(), ctx.view()),
{
    let t = match turns_of(frame) {
        Some(t) => t,
        None => {
            note_unless(
                out,
                false,
                breach(
                    frame,
                    "thread/read",
                    "echoes_turns",
                    "result.thread.turns must be an array",
                ),
            );
            return;
        },
    };
    if t.len() == 0 {
        note_unless(
            out,
            false,
            breach(
                frame,
                "thread/read",
                "echoes_turns",
                "result.thread.turns must contain at least one turn",
            ),
        );
        return;
    }
    let saw = any_mentions(t, ctx.simple_prompt.as_str()) || any_item_mentions(
        t,
        Some("agentMessage"),
        ctx.expected_simple_reply.as_str(),
    );
    note_unless(
        out,
        saw,
        breach(
            frame,
            "thread/read",
            "echoes_input_or_reply",
            "thread history must include the simple prompt or an OK agent reply",
        ),
    );
}

fn check_thread_read_after_tool(frame: &Frame, ctx: &SemanticContext, out: &mut Vec<Finding>)
    ensures
        findings(final(out)@) == findings(old(out)@) + tool_history_findings(
            frame.view(),
            ctx.view(),
        ),
{
    let t = match turns_of(frame) {
        Some(t) => t,
        None => {
            note_unless(
                out,
                false,
                breach(
                    frame,
                    "thread/read",
                    "afterTool.turns",
                    "result.thread.turns must be an array",
                ),
            );
            return;
        },
    };
    note_unless(
        out,
        t.len() >= 2,
        breach(
            frame,
            "thread/read",
            "afterTool.turns",
            "result.thread.turns must contain at least two turns",
        ),
    );
    note_unless(
        out,
        any_item_mentions(t, None, ctx.marker_token.as_str()),
        breach(
            frame,
            "thread/read",
            "afterTool.marker_visible",
            "thread history must include an item containing the marker token",
        ),
    );
    assert(findings(out@) =~= findings(old(out)@) + tool_history_findings(
        frame.view(),
        ctx.view(),
    ));
}

fn check_thread_fork(frame: &Frame, ctx: &SemanticContext, out: &mut Vec<Finding>)
    ensures
        findings(final(out)@) == findings(old(out)@) + fork_findings(frame.view(), ctx.view()),
{
    let got = thread_id_of(frame);
    let named = match got {
        Some(id) => !id.is_empty(),
        None => false,
    };
    note_unless(
        out,
        named,
        breach(frame, "thread/fork", "new_id", "result.thread.id must be non-empty"),
    );
    let apart = match got {
        Some(id) => match &ctx.disposable_thread_id {
            Some(d) => !same(id, d.as_str()),
            None => true,
        },
        None => true,
    };
    note_unless(
        out,
        apart,
        breach(
            frame,
            "thread/fork",
            "new_id",
            "forked thread id must differ from disposable thread id",
        ),
    );
    assert(findings(out@) =~= findings(old(out)@) + fork_findings(frame.view(), ctx.view()));
}

fn check_thread_rollback(frame: &Frame, ctx: &SemanticContext, out: &mut Vec<Finding>)
    ensures
        findings(final(out)@) == findings(old(out)@) + rollback_findings(frame.view(), ctx.view()),
{
    let limit: usize = match ctx.rollback_before_turns {
        Some(n) => n,
        None => {
            assert(findings(out@) =~= findings(old(out)@) + seq![]);
            return;
        },
    };
    let after: usize = match turns_of(frame) {
        Some(t) => t.len(),
        None => 0,
    };
    let mut detail = join3(
        "rollback response has ",
        decimal_u64(after as u64).as_str(),
        " turns; expected fewer than ",
    );
    detail.append(decimal_u64(limit as u64).as_str());
    note_unless(out, after < limit, breach(frame, "thread/rollback", "drops_turns", detail.as_str()));
}

fn check_data_len_at_least_one(frame: &Frame, out: &mut Vec<Finding>)
    ensures
        findings(final(out)@) == findings(old(out)@) + page_findings(frame.view()),
{
    let len: usize = match data_of(frame) {
        Some(d) => d.len(),
        None => 0,
    };
    let mut detail = join3(
        "result.data length was ",
        decimal_u64(len as u64).as_str(),
        "; expected at least ",
    );
    detail.append(decimal_u64(1).as_str());
    note_unless(out, len >= 1, breach(frame, "thread/turns/list", "paginates", detail.as_str()));
}

fn exit_code_of(frame: &Frame) -> (r: Option<i64>)
    ensures
        match r {
            Some(c) => exit_code(frame.view()) == Some(c as int),
            None => exit_code(frame.view()) is None,
        },
{
    match frame.raw.get2("result", "exitCode") {
        Some(c) => c.as_i64(),
        None => None,
    }
}

fn check_command_exec(frame: &Frame, ctx: &SemanticContext, out: &mut Vec<Finding>)
    ensures
        findings(final(out)@) == findings(old(out)@) + exec_findings(frame.view(), ctx.view()),
{
    if frame.raw.get("result").is_none() {
        note_unless(out, false, breach(frame, "command/exec", "stdout_matches", "missing result"));
        return;
    }
    let code = exit_code_of(frame);
    let none = String::new();
    assert(none@ =~= seq![]);
    let stdout = match frame.raw.get2("result", "stdout") {
        Some(v) => match v.as_str() {
            Some(s) => s,
            None => none.as_str(),
        },
        None => none.as_str(),
    };
    let succeeded = match code {
        Some(c) => c == 0,
        None => false,
    };
    let mut detail = join3("exitCode=", show_integer(code).as_str(), ", stdout=");
    detail.append(quote(stdout).as_str());
    detail.append("; expected exitCode=0 and stdout=");
    detail.append(quote(ctx.expected_command_stdout.as_str()).as_str());
    note_unless(
        out,
        succeeded && same(stdout, ctx.expected_command_stdout.as_str()),
        breach(frame, "command/exec", "stdout_matches", detail.as_str()),
    );
}

fn check_command_exec_terminated(frame: &Frame, out: &mut Vec<Finding>)
    ensures
        findings(final(out)@) == findings(old(out)@) + terminated_findings(frame.view()),
{
    let code = exit_code_of(frame);
    let failed = match code {
        Some(c) => c != 0,
        None => false,
    };
    let detail = join3(
        "terminated companion command exitCode was ",
        show_integer(code).as_str(),
        "; expected non-zero",
    );
    note_unless(
        out,
        failed,
        breach(frame, "command/exec/terminate", "terminates_process", detail.as_str()),
    );
}

fn check_response(frame: &Frame, ctx: &SemanticContext, out: &mut Vec<Finding>)
    ensures
        findings(final(out)@) == findings(old(out)@) + response_findings(frame.view(), ctx.view()),
{
    let ghost start = findings(out@);
    assert(start + seq![] =~= start);
    if frame.kind != FrameKind::Response || frame.raw.get("error").is_some() {
        return;
    }
    let step = frame.step.as_str();
    if same(step, "initialize") {
        check_initialize(frame, out);
    } else if same(step, "model/list") {
        check_model_list(frame, out);
    } else if same(step, "thread/list") {
        let ok = data_of(frame).is_some();
        note_unless(
            out,
            ok,
            breach(frame, "thread/list", "array_shape", "result.data must be an array"),
        );
    } else if same(step, "thread/list.disposable") {
        check_thread_list_contains_as(
            frame,
            frame.method.as_str(),
            &ctx.disposable_thread_id,
            out,
        );
    } else if same(step, "thread/list.archived") {
        check_thread_list_contains_as(frame, "thread/archive", &ctx.disposable_thread_id, out);
    } else if same(step, "thread/list.unarchived") {
        check_thread_list_contains_as(frame, "thread/unarchive", &ctx.disposable_thread_id, out);
    } else if same(step, "thread/start") || same(step, "thread/start.disposable") {
        let ok = match thread_id_of(frame) {
            Some(id) => !id.is_empty(),
            None => false,
        };
        note_unless(
            out,
            ok,
            breach(frame, "thread/start", "attaches", "result.thread.id must be non-empty"),
        );
    } else if same(step, "thread/resume") {
        if let Some(wanted) = &ctx.thread_id {
            let got = thread_id_of(frame);
            let mut detail = join3("result.thread.id was ", show_option(got).as_str(), ", expected ");
            detail.append(quote(wanted.as_str()).as_str());
            note_unless(
                out,
                opt_same(got, wanted.as_str()),
                breach(frame, "thread/resume", "echoes_thread_id", detail.as_str()),
            );
        }
    } else if same(step, "thread/read") {
        check_thread_read_simple(frame, ctx, out);
    } else if same(step, "thread/read.afterTool") {
        check_thread_read_after_tool(frame, ctx, out);
    } else if same(step, "thread/fork") {
        check_thread_fork(frame, ctx, out);
    } else if same(step, "thread/rollback") {
        check_thread_rollback(frame, ctx, out);
    } else if same(step, "thread/turns/list") {
        check_data_len_at_least_one(frame, out);
    } else if same(step, "thread/loaded/list") {
        let ok = data_of(frame).is_some();
        note_unless(
            out,
            ok,
            breach(frame, "thread/loaded/list", "array", "result.data must be an array"),
        );
    } else if same(step, "command/exec") {
        check_command_exec(frame, ctx, out);
    } else if same(step, "command/exec.streaming") {
        check_command_exec_terminated(frame, out);
    }
}

// ---------------------------------------------------------------------------
// Turns
// ---------------------------------------------------------------------------
/// A notification of some method in some step.
pub open spec fn notifies(f: FrameV, step: Seq<char>, method: Seq<char>) -> bool {
    f.kind == FrameKind::Notification && f.step == step && f.method == method
}

/// The item that a notification is about.
pub open spec fn noted_item(f: FrameV) -> Option<JsonV> {
    f.raw.get2("params"@, "item"@)
}

/// The id of the message that starts or ends with a notification.
pub open spec fn message_id(f: FrameV, method: Seq<char>) -> Option<Seq<char>> {
    if notifies(f, "turn/start"@, method) {
        match noted_item(f) {
            Some(item) => if item.str_at("type"@) == Some("agentMessage"@) {
                item.str_at("id"@)
            } else {
                None
            },
            None => None,
        }
    } else {
        None
    }
}

/// The id of the message that grows with a notification.
pub open spec fn delta_id(f: FrameV) -> Option<Seq<char>> {
    if notifies(f, "turn/start"@, "item/agentMessage/delta"@) {
        f.raw.str_at2("params"@, "itemId"@)
    } else {
        None
    }
}

/// Whether a notification ends the message `id` with the reply in it.
pub open spec fn ends_with_reply(f: FrameV, id: Seq<char>, reply: Seq<char>) -> bool {
    message_id(f, "item/completed"@) == Some(id) && mentions(noted_item(f)->Some_0, reply)
}

/// Whether some message starts, grows and ends with the reply.
pub open spec fn streams_reply(s: Seq<FrameV>, reply: Seq<char>) -> bool {
    exists|i: int, j: int, k: int|
        #![trigger s[i], s[j], s[k]]
        0 <= i < s.len() && 0 <= j < s.len() && 0 <= k < s.len() && message_id(
            s[i],
            "item/started"@,
        ) is Some && delta_id(s[j]) == message_id(s[i], "item/started"@) && ends_with_reply(
            s[k],
            message_id(s[i], "item/started"@)->Some_0,
            reply,
        )
}

/// Whether some command ran in the tool turn and showed the marker.
pub open spec fn ran_tool(s: Seq<FrameV>, marker: Seq<char>) -> bool {
    exists|i: int|
        0 <= i < s.len() && notifies(#[trigger] s[i], "turn/start.tool"@, "item/completed"@)
            && noted_item(s[i]) is Some && noted_item(s[i])->Some_0.str_at("type"@) == Some(
            "commandExecution"@,
        ) && mentions(noted_item(s[i])->Some_0, marker)
}

/// Whether an interruption was answered, without the turn coming to its end.
pub open spec fn ignored_interrupt(s: Seq<FrameV>) -> bool {
    &&& exists|i: int|
        0 <= i < s.len() && (#[trigger] s[i]).kind == FrameKind::Response && s[i].step
            == "turn/interrupt"@
    &&& forall|i: int|
        0 <= i < s.len() ==> !notifies(#[trigger] s[i], "turn/interrupt"@, "turn/completed"@)
}

/// What is found of the turns of the scenario.
pub open spec fn turn_findings(s: Seq<FrameV>, ctx: ContextV) -> Seq<FindingV> {
    unless(
        streams_reply(s, ctx.expected_simple_reply),
        FindingV::SemanticViolation {
            step: "turn/start"@,
            method: "turn/start"@,
            contract: "turn/start.streamed_reply"@,
            detail:
                "expected item/started -> item/agentMessage/delta -> item/completed containing OK"@,
        },
    ) + unless(
        ran_tool(s, ctx.marker_token),
        FindingV::SemanticViolation {
            step: "turn/start.tool"@,
            method: "turn/start"@,
            contract: "turn/start.tool_invoked"@,
            detail:
                "expected a completed commandExecution item whose output contains the marker token"@,
        },
    ) + unless(
        !ignored_interrupt(s),
        FindingV::SemanticViolation {
            step: "turn/interrupt"@,
            method: "turn/interrupt"@,
            contract: "turn/interrupt.terminates_turn"@,
            detail: "expected a turn/completed notification after interrupt"@,
        },
    )
}

fn is_note(f: &Frame, step: &str, method: &str) -> (r: bool)
    ensures
        r == notifies(f.view(), step@, method@),
{
    f.kind == FrameKind::Notification && same(f.step.as_str(), step) && same(
        f.method.as_str(),
        method,
    )
}

fn message_id_of<'a>(f: &'a Frame, method: &str) -> (r: Option<&'a str>)
    ensures
        match r {
            Some(id) => message_id(f.view(), method@) == Some(id@),
            None => message_id(f.view(), method@) is None,
        },
{
    if is_note(f, "turn/start", method) {
        match f.raw.get2("params", "item") {
            Some(item) => if opt_same(item.str_at("type"), "agentMessage") {
                item.str_at("id")
            } else {
                None
            },
            None => None,
        }
    } else {
        None
    }
}

fn grows(v: &Vec<Frame>, id: &str) -> (r: Option<usize>)
    ensures
        match r {
            Some(j) => j < v@.len() && delta_id(v@[j as int].view()) == Some(id@),
            None => forall|j: int|
                0 <= j < v@.len() ==> delta_id((#[trigger] v@[j]).view()) != Some(id@),
        },
{
    let mut j: usize = 0;
    while j < v.len()
        invariant
            j <= v@.len(),
            forall|k: int| 0 <= k < j ==> delta_id((#[trigger] v@[k]).view()) != Some(id@),
        decreases v@.len() - j,
    {
        if is_note(&v[j], "turn/start", "item/agentMessage/delta") && opt_same(
            v[j].raw.str_at2("params", "itemId"),
            id,
        ) {
            return Some(j);
        }
        j += 1;
    }
    None
}

fn ends(v: &Vec<Frame>, id: &str, reply: &str) -> (r: Option<usize>)
    ensures
        match r {
            Some(j) => j < v@.len() && ends_with_reply(v@[j as int].view(), id@, reply@),
            None => forall|j: int|
                0 <= j < v@.len() ==> !ends_with_reply((#[trigger] v@[j]).view(), id@, reply@),
        },
{
    let mut j: usize = 0;
    while j < v.len()
        invariant
            j <= v@.len(),
            forall|k: int|
                0 <= k < j ==> !ends_with_reply((#[trigger] v@[k]).view(), id@, reply@),
        decreases v@.len() - j,
    {
        if opt_same(message_id_of(&v[j], "item/completed"), id) {
            if let Some(item) = v[j].raw.get2("params", "item") {
                if contains_text(item, reply) {
                    return Some(j);
                }
            }
        }
        j += 1;
    }
    None
}

fn reply_is_streamed(v: &Vec<Frame>, reply: &str) -> (r: bool)
    ensures
        r == streams_reply(frames(v@), reply@),
{
    let ghost s = frames(v@);
    let mut i: usize = 0;
    while i < v.len()
        invariant
            i <= v@.len(),
            s == frames(v@),
            forall|a: int, b: int, c: int|
                #![trigger s[a], s[b], s[c]]
                0 <= a < i && 0 <= b < s.len() && 0 <= c < s.len() ==> !(message_id(
                    s[a],
                    "item/started"@,
                ) is Some && delta_id(s[b]) == message_id(s[a], "item/started"@)
                    && ends_with_reply(
                    s[c],
                    message_id(s[a], "item/started"@)->Some_0,
                    reply@,
                )),
        decreases v@.len() - i,
    {
        assert(s[i as int] == v@[i as int].view());
        if let Some(id) = message_id_of(&v[i], "item/started") {
            let g = grows(v, id);
            let e = ends(v, id, reply);
            if let Some(b) = g {
                if let Some(c) = e {
                    assert(s[b as int] == v@[b as int].view());
                    assert(s[c as int] == v@[c as int].view());
                    return true;
                }
            }
            assert forall|b: int, c: int|
                #![trigger s[b], s[c]]
                0 <= b < s.len() && 0 <= c < s.len() implies !(delta_id(s[b]) == message_id(
                s[i as int],
                "item/started"@,
            ) && ends_with_reply(
                s[c],
                message_id(s[i as int], "item/started"@)->Some_0,
                reply@,
            )) by {
                assert(s[b] == v@[b].view());
                assert(s[c] == v@[c].view());
            }
        }
        i += 1;
    }
    false
}

fn tool_was_run(v: &Vec<Frame>, marker: &str) -> (r: bool)
    ensures
        r == ran_tool(frames(v@), marker@),
{
    let ghost s = frames(v@);
    let mut i: usize = 0;
    while i < v.len()
        invariant
            i <= v@.len(),
            s == frames(v@),
            forall|k: int|
                0 <= k < i ==> !(notifies(#[trigger] s[k], "turn/start.tool"@, "item/completed"@)
                    && noted_item(s[k]) is Some && noted_item(s[k])->Some_0.str_at("type"@)
                    == Some("commandExecution"@) && mentions(noted_item(s[k])->Some_0, marker@)),
        decreases v@.len() - i,
    {
        assert(s[i as int] == v@[i as int].view());
        if is_note(&v[i], "turn/start.tool", "item/completed") {
            if let Some(item) = v[i].raw.get2("params", "item") {
                if opt_same(item.str_at("type"), "commandExecution") && contains_text(
                    item,
                    marker,
                ) {
                    return true;
                }
            }
        }
        i += 1;
    }
    false
}

fn interrupt_was_ignored(v: &Vec<Frame>) -> (r: bool)
    ensures
        r == ignored_interrupt(frames(v@)),
{
    let ghost s = frames(v@);
    let mut answered = false;
    let mut ended = false;
    let mut i: usize = 0;
    while i < v.len()
        invariant
            i <= v@.len(),
            s == frames(v@),
            answered == exists|k: int|
                0 <= k < i && (#[trigger] s[k]).kind == FrameKind::Response && s[k].step
                    == "turn/interrupt"@,
            ended == exists|k: int|
                0 <= k < i && notifies(#[trigger] s[k], "turn/interrupt"@, "turn/completed"@),
        decreases v@.len() - i,
    {
        assert(s[i as int] == v@[i as int].view());
        if v[i].kind == FrameKind::Response && same(v[i].step.as_str(), "turn/interrupt") {
            answered = true;
        }
        if is_note(&v[i], "turn/interrupt", "turn/completed") {
            ended = true;
        }
        i += 1;
    }
    answered && !ended
}

fn check_turns(v: &Vec<Frame>, ctx: &SemanticContext, out: &mut Vec<Finding>)
    ensures
        findings(final(out)@) == findings(old(out)@) + turn_findings(frames(v@), ctx.view()),
{
    note_unless(
        out,
        reply_is_streamed(v, ctx.expected_simple_reply.as_str()),
        Finding::SemanticViolation {
            step: owned("turn/start"),
            method: owned("turn/start"),
            contract: owned("turn/start.streamed_reply"),
            detail: owned(
                "expected item/started -> item/agentMessage/delta -> item/completed containing OK",
            ),
        },
    );
    note_unless(
        out,
        tool_was_run(v, ctx.marker_token.as_str()),
        Finding::SemanticViolation {
            step: owned("turn/start.tool"),
            method: owned("turn/start"),
            contract: owned("turn/start.tool_invoked"),
            detail: owned(
                "expected a completed commandExecution item whose output contains the marker token",
            ),
        },
    );
    note_unless(
        out,
        !interrupt_was_ignored(v),
        Finding::SemanticViolation {
            step: owned("turn/interrupt"),
            method: owned("turn/interrupt"),
            contract: owned("turn/interrupt.terminates_turn"),
            detail: owned("expected a turn/completed notification after interrupt"),
        },
    );
    assert(findings(out@) =~= findings(old(out)@) + turn_findings(frames(v@), ctx.view()));
}

// ---------------------------------------------------------------------------
// All checks
// ---------------------------------------------------------------------------
/// A finding that is let pass.
pub open spec fn let_pass(f: FindingV, d: DivergenceV) -> bool {
    d.skipped_methods.contains(f.method()) || d.skipped_steps.contains(f.step()) || relaxed(
        f,
        d.semantic_relaxed_methods,
    )
}

/// The findings that are not let pass.
pub open spec fn upheld(s: Seq<FindingV>, d: DivergenceV) -> Seq<FindingV>
    decreases s.len(),
{
    if s.len() == 0 {
        seq![]
    } else if let_pass(s.last(), d) {
        upheld(s.drop_last(), d)
    } else {
        upheld(s.drop_last(), d).push(s.last())
    }
}

/// Checks what the frames of a transcript hold. A transcript without a context is
/// not checked; what is known to differ is let pass.
pub fn check_all(transcript: &Transcript) -> (r: Vec<Finding>)
    ensures
        findings(r@) == (match transcript.semantic_ctx {
            Some(ctx) => upheld(
                responses_findings(frames(transcript.frames@), ctx.view()) + turn_findings(
                    frames(transcript.frames@),
                    ctx.view(),
                ),
                divergence_of(transcript.target),
            ),
            None => seq![],
        }),
{
    let ctx = match &transcript.semantic_ctx {
        Some(ctx) => ctx,
        None => {
            let none: Vec<Finding> = Vec::new();
            assert(findings(none@) =~= seq![]);
            return none;
        },
    };
    let ghost all = frames(transcript.frames@);
    let mut out: Vec<Finding> = Vec::new();
    assert(findings(out@) =~= responses_findings(all.take(0), ctx.view()));
    let mut i: usize = 0;
    while i < transcript.frames.len()
        invariant
            i <= transcript.frames@.len(),
            all == frames(transcript.frames@),
            findings(out@) == responses_findings(all.take(i as int), ctx.view()),
        decreases transcript.frames@.len() - i,
    {
        assert(all.take(i + 1).drop_last() =~= all.take(i as int));
        assert(all.take(i + 1).last() == transcript.frames@[i as int].view());
        check_response(&transcript.frames[i], ctx, &mut out);
        i += 1;
    }
    assert(all.take(i as int) =~= all);
    check_turns(&transcript.frames, ctx, &mut out);
    let known = KnownDivergence::for_target(transcript.target);
    let ghost raw = out@;
    let ghost found = findings(raw);
    let mut kept: Vec<Finding> = Vec::new();
    assert(findings(kept@) =~= upheld(found.take(0), known.view()));
    for f in it: out
        invariant
            it.seq() == raw,
            found == findings(raw),
            findings(kept@) == upheld(found.take(it.index() as int), known.view()),
    {
        proof {
            let k = it.index() as int;
            assert(found.take(k + 1).drop_last() =~= found.take(k));
            assert(found.take(k + 1).last() == f.view());
        }
        if !known.skips_method(f.method()) && !known.skips_step(f.step())
            && !known.relaxes_semantic(&f) {
            proof {
                lemma_findings_push(kept@, f);
            }
            kept.push(f);
        }
    }
    assert(found.take(raw.len() as int) =~= found);
    kept
}

// ---------------------------------------------------------------------------
// Laws
// ---------------------------------------------------------------------------
/// A value mentions what one of its members mentions.
pub proof fn law_member_is_mentioned(m: Map<Seq<char>, JsonV>, key: Seq<char>, needle: Seq<char>)
    requires
        m.dom().contains(key),
        mentions(m[key], needle),
    ensures
        mentions(JsonV::Obj(m), needle),
{
    assert(needle.len() > 0);
    assert(exists|k: Seq<char>| #[trigger] m.dom().contains(k) && mentions(m[k], needle));
    let v = JsonV::Obj(m);
    assert(v is Obj);
    assert(v->Obj_0 == m);
    assert(mentions(v, needle));
}

/// A list mentions what one of its elements mentions.
pub proof fn law_element_is_mentioned(a: Seq<JsonV>, i: int, needle: Seq<char>)
    requires
        0 <= i < a.len(),
        mentions(a[i], needle),
    ensures
        mentions(JsonV::Arr(a), needle),
{
    assert(needle.len() > 0);
    assert(exists|k: int| 0 <= k < a.len() && mentions(#[trigger] a[k], needle));
    let v = JsonV::Arr(a);
    assert(v is Arr);
    assert(v->Arr_0 == a);
    assert(mentions(v, needle));
}

/// What is known to differ is never reported.
pub proof fn law_known_gaps_are_quiet(s: Seq<FindingV>, d: DivergenceV, i: int)
    requires
        0 <= i < upheld(s, d).len(),
    ensures
        !let_pass(upheld(s, d)[i], d),
        s.contains(upheld(s, d)[i]),
    decreases s.len(),
{
    if s.len() > 0 {
        let t = upheld(s.drop_last(), d);
        if i < t.len() {
            law_known_gaps_are_quiet(s.drop_last(), d, i);
            let k = choose|k: int| 0 <= k < s.drop_last().len() && s.drop_last()[k] == t[i];
            assert(s[k] == t[i]);
        } else {
            assert(s[s.len() - 1] == upheld(s, d)[i]);
        }
    }
}

/// A scenario whose first turn streams its reply, whose tool turn shows the marker
/// and whose interruption, if any, ends the turn, has no finding of its turns.
pub proof fn law_useful_turns_are_clean(s: Seq<FrameV>, ctx: ContextV)
    requires
        streams_reply(s, ctx.expected_simple_reply),
        ran_tool(s, ctx.marker_token),
        !ignored_interrupt(s),
    ensures
        turn_findings(s, ctx).len() == 0,
{
}

} // verus!
