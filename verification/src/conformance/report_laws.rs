//! Laws of what surrounds the comparison: which targets are run, which methods none of them
//! may fail, and what a report says.

use vstd::prelude::*;

use super::divergence::{
    ACP_METHODS, AMP_METHODS, AMP_STEPS, CLAUDE_METHODS, DROID_METHODS, HERMES_METHODS,
    NO_STREAMING_EXEC_STEPS, OPENCODE_METHODS, PI_METHODS, SHAPE_DIVERGENT_RESPONSES, TURN_STEER_STEP,
    divergence_of,
};
use super::finding::{
    ConformanceReport, Finding, FindingV, about, detail_text, details_text, findings,
    method_details, methods_of, report_text,
};
use super::method_surface::surface_finding;
use super::prereq::{
    EnvPath, ProbeEnd, Probed, Survey, first_usable, hermes_complaint, named_file, obstacle,
    pi_complaint,
};
use super::transcript::{FrameKind, FrameV, TargetId};
use super::transport::{frame_id, notification_json, request_json, response_at};
use super::upstream_schema::{complaint, schema_name, stale_schema, written};
use crate::json::JsonV;
use crate::text::{begins, blank, ends, has_text, stands_at, strs, tag, trimmed};
use crate::text_set::lemma_sorted_set;

verus! {

// ---------------------------------------------------------------------------
// Methods that have to work everywhere
// ---------------------------------------------------------------------------
/// Length, first and last character of a text; texts with different outlines differ.
spec fn outline(s: Seq<char>) -> (nat, char, char) {
    (s.len(), s[0], s.last())
}

/// The methods without which there is no bridge: a thread is started, listed, read and
/// named, and a turn is started.
pub open spec fn essential(method: Seq<char>) -> bool {
    method == "initialize"@ || method == "thread/start"@ || method == "thread/list"@ || method
        == "thread/read"@ || method == "turn/start"@ || method == "thread/name/set"@
}

proof fn lemma_essential(method: Seq<char>)
    requires
        essential(method),
    ensures
        outline(method) == (10nat, 'i', 'e')
            || outline(method) == (12nat, 't', 't')
            || outline(method) == (11nat, 't', 't')
            || outline(method) == (11nat, 't', 'd')
            || outline(method) == (10nat, 't', 't')
            || outline(method) == (15nat, 't', 't'),
{
    reveal_strlit("initialize");
    reveal_strlit("thread/start");
    reveal_strlit("thread/list");
    reveal_strlit("thread/read");
    reveal_strlit("turn/start");
    reveal_strlit("thread/name/set");
}

proof fn lemma_shape_divergent_responses(method: Seq<char>)
    requires
        essential(method),
    ensures
        !strs(SHAPE_DIVERGENT_RESPONSES@).contains(method),
{
    lemma_essential(method);
    reveal_strlit("collaborationMode/list");
    reveal_strlit("experimentalFeature/list");
    reveal_strlit("mcpServerStatus/list");
    reveal_strlit("config/read");
    reveal_strlit("skills/list");
    let all = strs(SHAPE_DIVERGENT_RESPONSES@);
    assert forall|i: int| 0 <= i < all.len() implies all[i] != method by {
        if i == 0 {
            assert(outline(all[i]) == (22nat, 'c', 't'));
        }
        if i == 1 {
            assert(outline(all[i]) == (24nat, 'e', 't'));
        }
        if i == 2 {
            assert(outline(all[i]) == (20nat, 'm', 't'));
        }
        if i == 3 {
            assert(outline(all[i]) == (11nat, 'c', 'd'));
        }
        if i == 4 {
            assert(outline(all[i]) == (11nat, 's', 't'));
        }
    }
}

proof fn lemma_pi_methods(method: Seq<char>)
    requires
        essential(method),
    ensures
        !strs(PI_METHODS@).contains(method),
{
    lemma_essential(method);
    reveal_strlit("review/start");
    reveal_strlit("command/exec/write");
    reveal_strlit("command/exec/resize");
    let all = strs(PI_METHODS@);
    assert forall|i: int| 0 <= i < all.len() implies all[i] != method by {
        if i == 0 {
            assert(outline(all[i]) == (12nat, 'r', 't'));
        }
        if i == 1 {
            assert(outline(all[i]) == (18nat, 'c', 'e'));
        }
        if i == 2 {
            assert(outline(all[i]) == (19nat, 'c', 'e'));
        }
    }
}

proof fn lemma_amp_methods(method: Seq<char>)
    requires
        essential(method),
    ensures
        !strs(AMP_METHODS@).contains(method),
{
    lemma_essential(method);
    reveal_strlit("thread/fork");
    reveal_strlit("thread/rollback");
    reveal_strlit("mcpServer/oauth/login");
    reveal_strlit("turn/interrupt");
    reveal_strlit("review/start");
    reveal_strlit("command/exec/write");
    reveal_strlit("command/exec/resize");
    let all = strs(AMP_METHODS@);
    assert forall|i: int| 0 <= i < all.len() implies all[i] != method by {
        if i == 0 {
            assert(outline(all[i]) == (11nat, 't', 'k'));
        }
        if i == 1 {
            assert(outline(all[i]) == (15nat, 't', 'k'));
        }
        if i == 2 {
            assert(outline(all[i]) == (21nat, 'm', 'n'));
        }
        if i == 3 {
            assert(outline(all[i]) == (14nat, 't', 't'));
        }
        if i == 4 {
            assert(outline(all[i]) == (12nat, 'r', 't'));
        }
        if i == 5 {
            assert(outline(all[i]) == (18nat, 'c', 'e'));
        }
        if i == 6 {
            assert(outline(all[i]) == (19nat, 'c', 'e'));
        }
    }
}

proof fn lemma_claude_methods(method: Seq<char>)
    requires
        essential(method),
    ensures
        !strs(CLAUDE_METHODS@).contains(method),
{
    lemma_essential(method);
    reveal_strlit("review/start");
    reveal_strlit("thread/rollback");
    reveal_strlit("command/exec/write");
    reveal_strlit("command/exec/resize");
    let all = strs(CLAUDE_METHODS@);
    assert forall|i: int| 0 <= i < all.len() implies all[i] != method by {
        if i == 0 {
            assert(outline(all[i]) == (12nat, 'r', 't'));
        }
        if i == 1 {
            assert(outline(all[i]) == (15nat, 't', 'k'));
        }
        if i == 2 {
            assert(outline(all[i]) == (18nat, 'c', 'e'));
        }
        if i == 3 {
            assert(outline(all[i]) == (19nat, 'c', 'e'));
        }
    }
}

proof fn lemma_opencode_methods(method: Seq<char>)
    requires
        essential(method),
    ensures
        !strs(OPENCODE_METHODS@).contains(method),
{
    lemma_essential(method);
    reveal_strlit("account/login/start");
    reveal_strlit("account/login/cancel");
    reveal_strlit("account/logout");
    reveal_strlit("mcpServer/oauth/login");
    reveal_strlit("skills/config/write");
    reveal_strlit("configRequirements/read");
    reveal_strlit("thread/turns/list");
    reveal_strlit("review/start");
    let all = strs(OPENCODE_METHODS@);
    assert forall|i: int| 0 <= i < all.len() implies all[i] != method by {
        if i == 0 {
            assert(outline(all[i]) == (19nat, 'a', 't'));
        }
        if i == 1 {
            assert(outline(all[i]) == (20nat, 'a', 'l'));
        }
        if i == 2 {
            assert(outline(all[i]) == (14nat, 'a', 't'));
        }
        if i == 3 {
            assert(outline(all[i]) == (21nat, 'm', 'n'));
        }
        if i == 4 {
            assert(outline(all[i]) == (19nat, 's', 'e'));
        }
        if i == 5 {
            assert(outline(all[i]) == (23nat, 'c', 'd'));
        }
        if i == 6 {
            assert(outline(all[i]) == (17nat, 't', 't'));
        }
        if i == 7 {
            assert(outline(all[i]) == (12nat, 'r', 't'));
        }
    }
}

proof fn lemma_droid_methods(method: Seq<char>)
    requires
        essential(method),
    ensures
        !strs(DROID_METHODS@).contains(method),
{
    lemma_essential(method);
    reveal_strlit("mcpServer/oauth/login");
    reveal_strlit("thread/fork");
    reveal_strlit("thread/archive");
    reveal_strlit("thread/unarchive");
    reveal_strlit("thread/rollback");
    reveal_strlit("review/start");
    reveal_strlit("command/exec/write");
    reveal_strlit("command/exec/resize");
    let all = strs(DROID_METHODS@);
    assert forall|i: int| 0 <= i < all.len() implies all[i] != method by {
        if i == 0 {
            assert(outline(all[i]) == (21nat, 'm', 'n'));
        }
        if i == 1 {
            assert(outline(all[i]) == (11nat, 't', 'k'));
        }
        if i == 2 {
            assert(outline(all[i]) == (14nat, 't', 'e'));
        }
        if i == 3 {
            assert(outline(all[i]) == (16nat, 't', 'e'));
        }
        if i == 4 {
            assert(outline(all[i]) == (15nat, 't', 'k'));
        }
        if i == 5 {
            assert(outline(all[i]) == (12nat, 'r', 't'));
        }
        if i == 6 {
            assert(outline(all[i]) == (18nat, 'c', 'e'));
        }
        if i == 7 {
            assert(outline(all[i]) == (19nat, 'c', 'e'));
        }
    }
}

proof fn lemma_hermes_methods(method: Seq<char>)
    requires
        essential(method),
    ensures
        !strs(HERMES_METHODS@).contains(method),
{
    lemma_essential(method);
    reveal_strlit("account/login/start");
    reveal_strlit("account/login/cancel");
    reveal_strlit("account/logout");
    reveal_strlit("mcpServer/oauth/login");
    reveal_strlit("skills/config/write");
    reveal_strlit("thread/fork");
    reveal_strlit("thread/compact/start");
    reveal_strlit("thread/rollback");
    reveal_strlit("review/start");
    let all = strs(HERMES_METHODS@);
    assert forall|i: int| 0 <= i < all.len() implies all[i] != method by {
        if i == 0 {
            assert(outline(all[i]) == (19nat, 'a', 't'));
        }
        if i == 1 {
            assert(outline(all[i]) == (20nat, 'a', 'l'));
        }
        if i == 2 {
            assert(outline(all[i]) == (14nat, 'a', 't'));
        }
        if i == 3 {
            assert(outline(all[i]) == (21nat, 'm', 'n'));
        }
        if i == 4 {
            assert(outline(all[i]) == (19nat, 's', 'e'));
        }
        if i == 5 {
            assert(outline(all[i]) == (11nat, 't', 'k'));
        }
        if i == 6 {
            assert(outline(all[i]) == (20nat, 't', 't'));
        }
        if i == 7 {
            assert(outline(all[i]) == (15nat, 't', 'k'));
        }
        if i == 8 {
            assert(outline(all[i]) == (12nat, 'r', 't'));
        }
    }
}

proof fn lemma_acp_methods(method: Seq<char>)
    requires
        essential(method),
    ensures
        !strs(ACP_METHODS@).contains(method),
{
    lemma_essential(method);
    reveal_strlit("account/login/start");
    reveal_strlit("account/login/cancel");
    reveal_strlit("account/logout");
    reveal_strlit("feedback/upload");
    reveal_strlit("mcpServer/oauth/login");
    reveal_strlit("config/value/write");
    reveal_strlit("config/batchWrite");
    reveal_strlit("config/mcpServer/reload");
    reveal_strlit("mock/experimentalMethod");
    reveal_strlit("skills/remote/list");
    reveal_strlit("skills/remote/export");
    reveal_strlit("skills/config/write");
    reveal_strlit("thread/resume");
    reveal_strlit("thread/compact/start");
    reveal_strlit("thread/rollback");
    reveal_strlit("thread/archive");
    reveal_strlit("thread/unarchive");
    reveal_strlit("thread/turns/list");
    reveal_strlit("thread/loaded/list");
    reveal_strlit("thread/backgroundTerminals/clean");
    reveal_strlit("review/start");
    reveal_strlit("command/exec");
    reveal_strlit("command/exec/write");
    reveal_strlit("command/exec/resize");
    reveal_strlit("turn/steer");
    let all = strs(ACP_METHODS@);
    assert forall|i: int| 0 <= i < all.len() implies all[i] != method by {
        if i == 0 {
            assert(outline(all[i]) == (19nat, 'a', 't'));
        }
        if i == 1 {
            assert(outline(all[i]) == (20nat, 'a', 'l'));
        }
        if i == 2 {
            assert(outline(all[i]) == (14nat, 'a', 't'));
        }
        if i == 3 {
            assert(outline(all[i]) == (15nat, 'f', 'd'));
        }
        if i == 4 {
            assert(outline(all[i]) == (21nat, 'm', 'n'));
        }
        if i == 5 {
            assert(outline(all[i]) == (18nat, 'c', 'e'));
        }
        if i == 6 {
            assert(outline(all[i]) == (17nat, 'c', 'e'));
        }
        if i == 7 {
            assert(outline(all[i]) == (23nat, 'c', 'd'));
        }
        if i == 8 {
            assert(outline(all[i]) == (23nat, 'm', 'd'));
        }
        if i == 9 {
            assert(outline(all[i]) == (18nat, 's', 't'));
        }
        if i == 10 {
            assert(outline(all[i]) == (20nat, 's', 't'));
        }
        if i == 11 {
            assert(outline(all[i]) == (19nat, 's', 'e'));
        }
        if i == 12 {
            assert(outline(all[i]) == (13nat, 't', 'e'));
        }
        if i == 13 {
            assert(outline(all[i]) == (20nat, 't', 't'));
        }
        if i == 14 {
            assert(outline(all[i]) == (15nat, 't', 'k'));
        }
        if i == 15 {
            assert(outline(all[i]) == (14nat, 't', 'e'));
        }
        if i == 16 {
            assert(outline(all[i]) == (16nat, 't', 'e'));
        }
        if i == 17 {
            assert(outline(all[i]) == (17nat, 't', 't'));
        }
        if i == 18 {
            assert(outline(all[i]) == (18nat, 't', 't'));
        }
        if i == 19 {
            assert(outline(all[i]) == (32nat, 't', 'n'));
        }
        if i == 20 {
            assert(outline(all[i]) == (12nat, 'r', 't'));
        }
        if i == 21 {
            assert(outline(all[i]) == (12nat, 'c', 'c'));
        }
        if i == 22 {
            assert(outline(all[i]) == (18nat, 'c', 'e'));
        }
        if i == 23 {
            assert(outline(all[i]) == (19nat, 'c', 'e'));
        }
        if i == 24 {
            assert(outline(all[i]) == (10nat, 't', 'r'));
        }
    }
}

proof fn lemma_no_streaming_exec_steps(method: Seq<char>)
    requires
        essential(method),
    ensures
        !strs(NO_STREAMING_EXEC_STEPS@).contains(method),
{
    lemma_essential(method);
    reveal_strlit("command/exec.streaming");
    reveal_strlit("command/exec/write");
    reveal_strlit("command/exec/resize");
    let all = strs(NO_STREAMING_EXEC_STEPS@);
    assert forall|i: int| 0 <= i < all.len() implies all[i] != method by {
        if i == 0 {
            assert(outline(all[i]) == (22nat, 'c', 'g'));
        }
        if i == 1 {
            assert(outline(all[i]) == (18nat, 'c', 'e'));
        }
        if i == 2 {
            assert(outline(all[i]) == (19nat, 'c', 'e'));
        }
    }
}

proof fn lemma_turn_steer_step(method: Seq<char>)
    requires
        essential(method),
    ensures
        !strs(TURN_STEER_STEP@).contains(method),
{
    lemma_essential(method);
    reveal_strlit("turn/steer");
    let all = strs(TURN_STEER_STEP@);
    assert forall|i: int| 0 <= i < all.len() implies all[i] != method by {
        if i == 0 {
            assert(outline(all[i]) == (10nat, 't', 'r'));
        }
    }
}

proof fn lemma_amp_steps(method: Seq<char>)
    requires
        essential(method),
    ensures
        !strs(AMP_STEPS@).contains(method),
{
    lemma_essential(method);
    reveal_strlit("turn/start.tool");
    reveal_strlit("turn/start.interruptible");
    let all = strs(AMP_STEPS@);
    assert forall|i: int| 0 <= i < all.len() implies all[i] != method by {
        if i == 0 {
            assert(outline(all[i]) == (15nat, 't', 'l'));
        }
        if i == 1 {
            assert(outline(all[i]) == (24nat, 't', 'e'));
        }
    }
}

/// No target is excused from what makes a bridge: where such a method fails, it is found.
pub proof fn law_essential_methods_are_never_excused(target: TargetId, method: Seq<char>)
    requires
        essential(method),
    ensures
        !divergence_of(target).skipped_methods.contains(method),
        !divergence_of(target).skipped_steps.contains(method),
{
    lemma_shape_divergent_responses(method);
    lemma_pi_methods(method);
    lemma_amp_methods(method);
    lemma_claude_methods(method);
    lemma_opencode_methods(method);
    lemma_droid_methods(method);
    lemma_hermes_methods(method);
    lemma_acp_methods(method);
    lemma_no_streaming_exec_steps(method);
    lemma_turn_steer_step(method);
    lemma_amp_steps(method);
    let methods = divergence_of(target).skipped_methods;
    if methods.contains(method) {
        let i = choose|i: int| 0 <= i < methods.len() && methods[i] == method;
        let shared = strs(SHAPE_DIVERGENT_RESPONSES@);
        if i >= methods.len() - shared.len() {
            assert(shared[i - (methods.len() - shared.len())] == method);
        } else {
            let own = match target {
                TargetId::Codex => Seq::empty(),
                TargetId::Pi => strs(PI_METHODS@),
                TargetId::Amp => strs(AMP_METHODS@),
                TargetId::Claude => strs(CLAUDE_METHODS@),
                TargetId::Opencode => strs(OPENCODE_METHODS@),
                TargetId::Droid => strs(DROID_METHODS@),
                TargetId::Hermes => strs(HERMES_METHODS@),
                TargetId::Acp => strs(ACP_METHODS@),
            };
            assert(own[i] == method);
        }
    }
    let steps = divergence_of(target).skipped_steps;
    if steps.contains(method) {
        let i = choose|i: int| 0 <= i < steps.len() && steps[i] == method;
        let a = strs(NO_STREAMING_EXEC_STEPS@);
        let b = strs(TURN_STEER_STEP@);
        let c = strs(AMP_STEPS@);
        if target == TargetId::Opencode {
            assert(b[i] == method);
        } else if i < a.len() {
            assert(a[i] == method);
        } else if i < a.len() + b.len() {
            assert(b[i - a.len()] == method);
        } else {
            assert(c[i - a.len() - b.len()] == method);
        }
    }
}

/// The answer to a standard request is found wanting exactly if it is a refusal and the
/// method is not known to fail on the target.
pub proof fn law_refused_standard_requests(
    f: FrameV,
    target: TargetId,
    error: JsonV,
    code: i64,
    message: Seq<char>,
)
    ensures
        f.raw.get("error"@) is None ==> surface_finding(f, target) is None,
        divergence_of(target).skipped_methods.contains(f.method) ==> surface_finding(f, target)
            is None,
        f.raw.get("error"@) == Some(error) && error.get("code"@) == Some(JsonV::Int(code as int))
            && error.get("message"@) == Some(JsonV::Str(message)) && !divergence_of(
            target,
        ).skipped_methods.contains(f.method) ==> surface_finding(f, target) == Some(
            FindingV::UnexpectedError { step: f.step, method: f.method, code, message },
        ),
{
}

// ---------------------------------------------------------------------------
// Targets that can be run
// ---------------------------------------------------------------------------
/// No target is run without its program, and those that need credentials not without
/// them; codex and the coding assistant need nothing else.
pub proof fn law_programs_are_needed(target: TargetId, s: Survey, assistant: Seq<char>)
    ensures
        s.bin is None ==> obstacle(target, s, assistant) is Some,
        s.bin is Some && (target is Amp || target is Droid) ==> (obstacle(target, s, assistant)
            is Some <==> !s.auth),
        s.bin is Some && (target is Codex || target is Claude || target is Opencode || target
            is Acp) ==> obstacle(target, s, assistant) is None,
        s.bin is Some && (target is Pi || target is Hermes) && s.probe is None ==> obstacle(
            target,
            s,
            assistant,
        ) is None,
        s.bin is Some && target is Pi ==> (s.probe matches Some(e) ==> obstacle(
            target,
            s,
            assistant,
        ) == pi_complaint(e)),
        s.bin is Some && target is Hermes ==> (s.probe matches Some(e) ==> obstacle(
            target,
            s,
            assistant,
        ) == hermes_complaint(e)),
{
}

/// A probe is passed only by a program that ended well in time: Pi has to answer with the
/// one word that it is asked for, and Hermes with anything.
pub proof fn law_probes_are_passed(e: ProbeEnd)
    ensures
        pi_complaint(e) is None <==> (e matches ProbeEnd::Exited { success, stdout, .. } && success
            && trimmed(stdout@) == "OK"@),
        hermes_complaint(e) is None <==> (e matches ProbeEnd::Exited { success, stdout, .. }
            && success && !blank(stdout@)),
{
}

/// The first candidate that passes is the one that is used.
pub proof fn law_first_usable_candidate(s: Seq<Probed>, i: int)
    requires
        0 <= i < s.len(),
        pi_complaint(s[i].end) is None,
        forall|j: int| 0 <= j < i ==> pi_complaint((#[trigger] s[j]).end) is Some,
    ensures
        first_usable(s) == Some(s[i].bin),
    decreases s.len(),
{
    let t = s.drop_last();
    if i < t.len() {
        assert forall|j: int| 0 <= j < i implies pi_complaint((#[trigger] t[j]).end) is Some by {
            assert(pi_complaint(s[j].end) is Some);
        }
        assert(t[i] == s[i]);
        law_first_usable_candidate(t, i);
    } else {
        assert forall|j: int| 0 <= j < t.len() implies pi_complaint((#[trigger] t[j]).end)
            is Some by {
            assert(pi_complaint(s[j].end) is Some);
        }
        law_no_usable_candidate(t);
    }
}

/// Without a candidate that passes there is none.
pub proof fn law_no_usable_candidate(s: Seq<Probed>)
    requires
        forall|j: int| 0 <= j < s.len() ==> pi_complaint((#[trigger] s[j]).end) is Some,
    ensures
        first_usable(s) is None,
    decreases s.len(),
{
    if s.len() > 0 {
        let t = s.drop_last();
        assert forall|j: int| 0 <= j < t.len() implies pi_complaint((#[trigger] t[j]).end)
            is Some by {
            assert(pi_complaint(s[j].end) is Some);
        }
        law_no_usable_candidate(t);
        assert(pi_complaint(s[s.len() - 1].end) is Some);
    }
}

/// A variable names a file only if it is not empty and the file is there.
pub proof fn law_named_files_exist(p: EnvPath)
    ensures
        named_file(Some(p)) is Some <==> p.path@.len() > 0 && p.exists,
        named_file(Some(p)) matches Some(x) ==> x == p.path,
        named_file(None) is None,
{
}

// ---------------------------------------------------------------------------
// Published schemas
// ---------------------------------------------------------------------------
/// No complaint about a bridge is passed over, and none about a notification; of codex
/// only complaints about the one tier that older schemas do not know, all of them.
pub proof fn law_complaints_count(
    target: TargetId,
    kind: FrameKind,
    errors: Seq<Seq<char>>,
    i: int,
)
    ensures
        target != TargetId::Codex ==> !stale_schema(target, kind, errors),
        kind == FrameKind::Notification ==> !stale_schema(target, kind, errors),
        0 <= i < errors.len() && !has_text(errors[i], "/serviceTier:"@) ==> !stale_schema(
            target,
            kind,
            errors,
        ),
        0 <= i < errors.len() && !has_text(errors[i], "\"priority\" is not valid"@)
            ==> !stale_schema(target, kind, errors),
{
    if 0 <= i < errors.len() {
        let e = errors[i];
        assert(e == errors[i]);
    }
}

/// A complaint is written with its place in front and its message behind, one for each.
pub proof fn law_complaints_are_written(s: Seq<(Seq<char>, Seq<char>)>, i: int)
    requires
        0 <= i < s.len(),
    ensures
        written(s).len() == s.len(),
        written(s)[i] == complaint(s[i]),
        begins(complaint(s[i]), s[i].0),
        ends(complaint(s[i]), s[i].1),
{
    let c = complaint(s[i]);
    assert(c.take(s[i].0.len() as int) =~= s[i].0);
    assert(c.skip(c.len() - s[i].1.len()) =~= s[i].1);
}

/// The schema of a response is another file than that of a notification, and both are
/// named after the method.
pub proof fn law_schema_names(method: Seq<char>, kind: FrameKind)
    ensures
        begins(schema_name(method, kind), super::upstream_schema::pascal(method)),
        ends(schema_name(method, kind), ".json"@),
        kind == FrameKind::Response ==> ends(schema_name(method, kind), "Response"@ + ".json"@),
        kind == FrameKind::Notification ==> ends(
            schema_name(method, kind),
            "Notification"@ + ".json"@,
        ),
{
    let stem = super::upstream_schema::pascal(method);
    let name = schema_name(method, kind);
    assert(name.take(stem.len() as int) =~= stem);
    assert(name.skip(name.len() - ".json"@.len()) =~= ".json"@);
    let tail = (match kind {
        FrameKind::Response => "Response"@,
        FrameKind::Notification => "Notification"@,
    }) + ".json"@;
    assert(name.skip(name.len() - tail.len()) =~= tail);
}

// ---------------------------------------------------------------------------
// The wire
// ---------------------------------------------------------------------------
/// A request carries its id, its method and its parameters, and is found again by its id;
/// a notification carries no id.
pub proof fn law_requests_carry_their_id(id: i64, method: Seq<char>, params: JsonV)
    ensures
        request_json(id as int, method, params).get("id"@) == Some(JsonV::Int(id as int)),
        request_json(id as int, method, params).get("method"@) == Some(JsonV::Str(method)),
        request_json(id as int, method, params).get("params"@) == Some(params),
        frame_id(request_json(id as int, method, params)) == Some(id as int),
        notification_json(method, Some(params)).get("method"@) == Some(JsonV::Str(method)),
        notification_json(method, Some(params)).get("params"@) == Some(params),
        notification_json(method, Some(params)).get("id"@) is None,
        notification_json(method, None).get("params"@) is None,
{
    reveal_strlit("jsonrpc");
    reveal_strlit("id");
    reveal_strlit("method");
    reveal_strlit("params");
    assert(tag("jsonrpc"@) == (7nat, 'j', 's') && tag("id"@) == (2nat, 'i', 'd'));
    assert(tag("method"@) == (6nat, 'm', 'e') && tag("params"@) == (6nat, 'p', 'a'));
}

/// Of the responses that were kept, the first with the id is the one.
pub proof fn law_first_response_counts(s: Seq<JsonV>, id: int, i: int)
    requires
        0 <= i <= s.len(),
        forall|j: int| 0 <= j < i ==> frame_id(#[trigger] s[j]) != Some(id),
        i < s.len() ==> frame_id(s[i]) == Some(id),
    ensures
        response_at(s, id) == i,
    decreases s.len(),
{
    if s.len() > 0 && i > 0 {
        assert(frame_id(s[0]) != Some(id));
        let t = s.skip(1);
        assert forall|j: int| 0 <= j < i - 1 implies frame_id(#[trigger] t[j]) != Some(id) by {
            assert(frame_id(s[j + 1]) != Some(id));
        }
        law_first_response_counts(t, id, i - 1);
    }
}

// ---------------------------------------------------------------------------
// Reports
// ---------------------------------------------------------------------------
/// Findings are counted by their method.
pub proof fn law_findings_are_counted(a: Seq<Finding>, f: Finding, method: Seq<char>)
    ensures
        f.view().method() == method ==> about(a.push(f), method) == about(a, method) + 1,
        f.view().method() != method ==> about(a.push(f), method) == about(a, method),
        about(Seq::empty(), method) == 0,
{
    assert(a.push(f).drop_last() =~= a);
    assert(a.push(f).last() == f);
}

proof fn lemma_within(part: Seq<char>, s: Seq<char>, head: Seq<char>, tail: Seq<char>)
    requires
        has_text(s, part),
    ensures
        has_text(head + s + tail, part),
{
    let i = choose|i: int| #[trigger] stands_at(s, part, i);
    let all = head + s + tail;
    let k = head.len() + i;
    assert(all.subrange(k, k + part.len()) =~= s.subrange(i, i + part.len()));
    assert(stands_at(all, part, k));
}

proof fn lemma_whole(s: Seq<char>)
    ensures
        has_text(s, s),
{
    assert(s.subrange(0, s.len() as int) =~= s);
    assert(stands_at(s, s, 0));
}

proof fn lemma_in_method_details(s: Seq<Finding>, i: int)
    requires
        0 <= i < s.len(),
    ensures
        has_text(method_details(s, s[i].view().method()), detail_text(s[i])),
    decreases s.len(),
{
    let method = s[i].view().method();
    let t = s.drop_last();
    let own = detail_text(s[i]);
    if i == s.len() - 1 {
        lemma_whole(own);
        let head = method_details(t, method) + "  #"@ + crate::text::decimal(about(t, method))
            + ": "@;
        lemma_within(own, own, head, Seq::empty());
        assert(head + own + Seq::<char>::empty() =~= method_details(s, method));
    } else {
        assert(t[i] == s[i]);
        lemma_in_method_details(t, i);
        let before = method_details(t, method);
        if s.last().view().method() == method {
            let tail = "  #"@ + crate::text::decimal(about(t, method)) + ": "@ + detail_text(
                s.last(),
            );
            lemma_within(own, before, Seq::empty(), tail);
            assert(Seq::<char>::empty() + before + tail =~= method_details(s, method));
        }
    }
}

proof fn lemma_in_details(s: Seq<Finding>, methods: Seq<Seq<char>>, method: Seq<char>, part: Seq<char>)
    requires
        methods.contains(method),
        has_text(method_details(s, method), part),
    ensures
        has_text(details_text(s, methods), part),
    decreases methods.len(),
{
    let k = choose|k: int| 0 <= k < methods.len() && methods[k] == method;
    let before = details_text(s, methods.drop_last());
    let all = details_text(s, methods);
    if k == methods.len() - 1 {
        let head = before + "\n"@ + method + "\n"@;
        let own = method_details(s, method);
        lemma_within(part, own, head, Seq::empty());
        assert(head + own + Seq::<char>::empty() =~= all);
    } else {
        assert(methods.drop_last()[k] == method);
        lemma_in_details(s, methods.drop_last(), method, part);
        let tail = "\n"@ + methods.last() + "\n"@ + method_details(s, methods.last());
        lemma_within(part, before, Seq::empty(), tail);
        assert(Seq::<char>::empty() + before + tail =~= all);
    }
}

/// Every finding is told in the report, and a report without findings says that all
/// passed.
pub proof fn law_reports_tell_everything(r: ConformanceReport, assistant: Seq<char>, i: int)
    ensures
        0 <= i < r.findings@.len() ==> has_text(
            report_text(r, assistant),
            detail_text(r.findings@[i]),
        ),
        r.findings@.len() == 0 ==> ends(report_text(r, assistant), "(all) | PASS | 0\n"@),
        has_text(
            report_text(r, assistant),
            super::transcript::target_label(r.target, assistant),
        ),
{
    let s = r.findings@;
    let methods = methods_of(findings(s));
    let label = super::transcript::target_label(r.target, assistant);
    let head = "[conformance:"@ + label + "] "@ + crate::text::decimal(s.len())
        + " finding(s)\n"@ + "\nmethod | status | findings\n"@ + "--- | --- | ---\n"@;
    let text = report_text(r, assistant);
    let lead = "[conformance:"@;
    assert(text.subrange(lead.len() as int, (lead.len() + label.len()) as int) =~= label);
    assert(stands_at(text, label, lead.len() as int));
    if s.len() == 0 {
        let pass = "(all) | PASS | 0\n"@;
        assert(text =~= head + pass);
        assert(text.skip(text.len() - pass.len()) =~= pass);
    }
    if 0 <= i < s.len() {
        let method = s[i].view().method();
        let names = findings(s).map_values(|f: FindingV| f.method());
        lemma_sorted_set(names);
        assert(names[i] == method);
        assert(names.contains(method));
        assert(methods.contains(method));
        lemma_in_method_details(s, i);
        lemma_in_details(s, methods, method, detail_text(s[i]));
        let front = head + (super::finding::table_text(s, methods) + "\ndetailed findings\n"@);
        let details = details_text(s, methods);
        lemma_within(detail_text(s[i]), details, front, Seq::empty());
        assert(front + details + Seq::<char>::empty() =~= text);
    }
}

/// What a report tells of a finding names its method and its step.
pub proof fn law_details_name_method_and_step(f: Finding)
    ensures
        has_text(detail_text(f), f.view().method()),
        has_text(detail_text(f), f.view().step()),
{
    let text = detail_text(f);
    let m = f.view().method();
    let st = f.view().step();
    let at = match f {
        Finding::SchemaError { kind, .. } => ("schema error in "@
            + super::transcript::kind_name(kind) + " "@).len() as int,
        Finding::UpstreamSchemaError { kind, .. } => ("upstream-schema violation in "@
            + super::transcript::kind_name(kind) + " "@).len() as int,
        Finding::SemanticViolation { .. } => "semantic violation for "@.len() as int,
        Finding::UnexpectedError { .. } => "unexpected error response for "@.len() as int,
        Finding::MissingNotification { .. } => "missing notification "@.len() as int,
        Finding::ExtraNotification { .. } => "unexpected extra notification "@.len() as int,
        Finding::KeyDifference { kind, .. } => ("key fingerprint diff for "@
            + super::transcript::kind_name(kind) + " "@).len() as int,
    };
    let gap = match f {
        Finding::SemanticViolation { contract, .. } => ("."@ + contract@ + " (step="@).len() as int,
        Finding::MissingNotification { .. } => " in step "@.len() as int,
        Finding::ExtraNotification { .. } => " in step "@.len() as int,
        _ => " (step="@.len() as int,
    };
    assert(text.subrange(at, at + m.len()) =~= m);
    assert(stands_at(text, m, at));
    let then = at + m.len() + gap;
    assert(text.subrange(then, then + st.len()) =~= st);
    assert(stands_at(text, st, then));
}

} // verus!
