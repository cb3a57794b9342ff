//! Laws of what the comparison finds: everything that is there to be found, and
//! nothing else.

use vstd::prelude::*;

use super::diff::{
    FrameVerdict, all_methods, beyond, compared, extra_in, frame_findings, key_findings,
    kind_methods, methods_findings, missing_in, notification_findings, only_in, run_fills,
    run_sends, single_findings, step_findings, step_names, step_run, steps_findings, tail_run,
    verdict_at,
};
use super::divergence::{DivergenceV, divergence_of, path_allowed};
use super::finding::FindingV;
use super::fingerprint::{fills, frame_fills, member_path};
use super::transcript::{FrameKind, FrameV, TargetId};
use crate::json::JsonV;
use crate::text_set::{lemma_sorted_set, sorted_set};

verus! {

// ---------------------------------------------------------------------------
// Single frames
// ---------------------------------------------------------------------------
proof fn lemma_single_has(
    s: Seq<FrameV>,
    verdicts: Seq<FrameVerdict>,
    d: DivergenceV,
    i: int,
    f: FindingV,
)
    requires
        0 <= i < s.len(),
        frame_findings(s[i], verdict_at(verdicts, i), d).contains(f),
    ensures
        single_findings(s, verdicts, d).contains(f),
    decreases s.len(),
{
    let all = single_findings(s, verdicts, d);
    let before = single_findings(s.drop_last(), verdicts, d);
    if i == s.len() - 1 {
        let own = frame_findings(s[i], verdict_at(verdicts, i), d);
        let k = choose|k: int| 0 <= k < own.len() && own[k] == f;
        assert(all[before.len() + k] == f);
    } else {
        assert(s.drop_last()[i] == s[i]);
        lemma_single_has(s.drop_last(), verdicts, d, i, f);
        let k = choose|k: int| 0 <= k < before.len() && before[k] == f;
        assert(all[k] == f);
    }
}

proof fn lemma_single_from(
    s: Seq<FrameV>,
    verdicts: Seq<FrameVerdict>,
    d: DivergenceV,
    f: FindingV,
) -> (i: int)
    requires
        single_findings(s, verdicts, d).contains(f),
    ensures
        0 <= i < s.len(),
        frame_findings(s[i], verdict_at(verdicts, i), d).contains(f),
    decreases s.len(),
{
    let all = single_findings(s, verdicts, d);
    let k = choose|k: int| 0 <= k < all.len() && all[k] == f;
    let before = single_findings(s.drop_last(), verdicts, d);
    if k < before.len() {
        assert(before[k] == f);
        let i = lemma_single_from(s.drop_last(), verdicts, d, f);
        assert(s.drop_last()[i] == s[i]);
        i
    } else {
        let own = frame_findings(s.last(), verdict_at(verdicts, s.len() - 1), d);
        assert(own[k - before.len()] == f);
        s.len() - 1
    }
}

proof fn lemma_compared_has_single(
    reference: Seq<FrameV>,
    s: Seq<FrameV>,
    verdicts: Seq<FrameVerdict>,
    d: DivergenceV,
    f: FindingV,
)
    requires
        single_findings(s, verdicts, d).contains(f),
    ensures
        compared(reference, s, verdicts, d).contains(f),
{
    let a = single_findings(s, verdicts, d);
    let k = choose|k: int| 0 <= k < a.len() && a[k] == f;
    assert(compared(reference, s, verdicts, d)[k] == f);
}

/// A method that the target refuses is found, with the code and the words of the
/// refusal, unless its method or its step is known to differ: by the comparison, and by
/// the check of single frames alone.
pub proof fn law_refused_methods_are_found(
    reference: Seq<FrameV>,
    s: Seq<FrameV>,
    verdicts: Seq<FrameVerdict>,
    target: TargetId,
    i: int,
    error: JsonV,
    code: i64,
    message: Seq<char>,
)
    requires
        0 <= i < s.len(),
        s[i].kind == FrameKind::Response,
        s[i].raw.get("error"@) == Some(error),
        error.get("code"@) == Some(JsonV::Int(code as int)),
        error.get("message"@) == Some(JsonV::Str(message)),
        !divergence_of(target).skipped_methods.contains(s[i].method),
        !divergence_of(target).skipped_steps.contains(s[i].step),
    ensures
        compared(reference, s, verdicts, divergence_of(target)).contains(
            FindingV::UnexpectedError { step: s[i].step, method: s[i].method, code, message },
        ),
        single_findings(s, verdicts, divergence_of(target)).contains(
            FindingV::UnexpectedError { step: s[i].step, method: s[i].method, code, message },
        ),
{
    let d = divergence_of(target);
    let f = FindingV::UnexpectedError { step: s[i].step, method: s[i].method, code, message };
    let own = frame_findings(s[i], verdict_at(verdicts, i), d);
    assert(own.last() == f);
    assert(own[own.len() - 1] == f);
    lemma_single_has(s, verdicts, d, i, f);
    lemma_compared_has_single(reference, s, verdicts, d, f);
}

/// A frame that does not pass the published schema is found, unless it is an error,
/// for which nothing is published.
pub proof fn law_unpublished_shapes_are_found(
    reference: Seq<FrameV>,
    s: Seq<FrameV>,
    verdicts: Seq<FrameVerdict>,
    target: TargetId,
    i: int,
    message: String,
)
    requires
        0 <= i < s.len(),
        i < verdicts.len(),
        verdicts[i].upstream_error == Some(message),
        s[i].raw.get("error"@) is None,
    ensures
        compared(reference, s, verdicts, divergence_of(target)).contains(
            FindingV::UpstreamSchemaError {
                step: s[i].step,
                method: s[i].method,
                kind: s[i].kind,
                message: message@,
            },
        ),
        single_findings(s, verdicts, divergence_of(target)).contains(
            FindingV::UpstreamSchemaError {
                step: s[i].step,
                method: s[i].method,
                kind: s[i].kind,
                message: message@,
            },
        ),
{
    let d = divergence_of(target);
    let f = FindingV::UpstreamSchemaError {
        step: s[i].step,
        method: s[i].method,
        kind: s[i].kind,
        message: message@,
    };
    let own = frame_findings(s[i], verdict_at(verdicts, i), d);
    assert(own.last() == f);
    assert(own[own.len() - 1] == f);
    lemma_single_has(s, verdicts, d, i, f);
    lemma_compared_has_single(reference, s, verdicts, d, f);
}

/// A frame that does not decode is found, with what the decoder said of it.
pub proof fn law_undecoded_frames_are_found(
    reference: Seq<FrameV>,
    s: Seq<FrameV>,
    verdicts: Seq<FrameVerdict>,
    target: TargetId,
    i: int,
    message: String,
)
    requires
        0 <= i < s.len(),
        i < verdicts.len(),
        verdicts[i].deserialize_error == Some(message),
    ensures
        compared(reference, s, verdicts, divergence_of(target)).contains(
            FindingV::SchemaError {
                step: s[i].step,
                method: s[i].method,
                kind: s[i].kind,
                message: message@,
            },
        ),
        single_findings(s, verdicts, divergence_of(target)).contains(
            FindingV::SchemaError {
                step: s[i].step,
                method: s[i].method,
                kind: s[i].kind,
                message: message@,
            },
        ),
{
    let d = divergence_of(target);
    let f = FindingV::SchemaError {
        step: s[i].step,
        method: s[i].method,
        kind: s[i].kind,
        message: message@,
    };
    let own = frame_findings(s[i], verdict_at(verdicts, i), d);
    assert(own[0] == f);
    lemma_single_has(s, verdicts, d, i, f);
    lemma_compared_has_single(reference, s, verdicts, d, f);
}

/// What is found in single frames is in them: a refusal is a response with that code
/// and those words whose method and step are not known to differ, and a frame of the
/// wrong shape is one that the decoder or the published schema turned down.
pub proof fn law_single_findings_are_true(
    s: Seq<FrameV>,
    verdicts: Seq<FrameVerdict>,
    target: TargetId,
    f: FindingV,
) -> (i: int)
    requires
        single_findings(s, verdicts, divergence_of(target)).contains(f),
    ensures
        0 <= i < s.len(),
        f.step() == s[i].step,
        f.method() == s[i].method,
        match f {
            FindingV::UnexpectedError { code, message, .. } => {
                &&& s[i].kind == FrameKind::Response
                &&& s[i].raw.get("error"@) is Some
                &&& s[i].raw.get("error"@)->Some_0.get("code"@) == Some(JsonV::Int(code as int))
                &&& s[i].raw.get("error"@)->Some_0.get("message"@) == Some(JsonV::Str(message))
                &&& !divergence_of(target).skipped_methods.contains(s[i].method)
                &&& !divergence_of(target).skipped_steps.contains(s[i].step)
            },
            FindingV::SchemaError { kind, message, .. } => {
                &&& kind == s[i].kind
                &&& i < verdicts.len()
                &&& verdicts[i].deserialize_error is Some
                &&& verdicts[i].deserialize_error->Some_0@ == message
            },
            FindingV::UpstreamSchemaError { kind, message, .. } => {
                &&& kind == s[i].kind
                &&& i < verdicts.len()
                &&& verdicts[i].upstream_error is Some
                &&& verdicts[i].upstream_error->Some_0@ == message
            },
            _ => false,
        },
{
    let d = divergence_of(target);
    let i = lemma_single_from(s, verdicts, d, f);
    let own = frame_findings(s[i], verdict_at(verdicts, i), d);
    let k = choose|k: int| 0 <= k < own.len() && own[k] == f;
    assert(own[k] == f);
    i
}

// ---------------------------------------------------------------------------
// Steps
// ---------------------------------------------------------------------------
/// Whether a frame stands among the last frames in a row of its step: a frame of the
/// step that comes later is reached through frames of the step.
pub open spec fn in_last_run(s: Seq<FrameV>, i: int) -> bool {
    forall|j: int, k: int|
        #![trigger s[j], s[k]]
        i <= k <= j < s.len() && s[j].step == s[i].step ==> s[k].step == s[i].step
}

/// Whether a step holds, among its last frames in a row, a frame of some method and
/// kind.
pub open spec fn step_sends(
    s: Seq<FrameV>,
    step: Seq<char>,
    method: Seq<char>,
    kind: FrameKind,
) -> bool {
    exists|i: int|
        0 <= i < s.len() && (#[trigger] s[i]).step == step && s[i].method == method && s[i].kind
            == kind && in_last_run(s, i)
}

/// Whether a step holds, among its last frames in a row, a frame of some method and
/// kind that fills a path.
pub open spec fn step_fills(
    s: Seq<FrameV>,
    step: Seq<char>,
    method: Seq<char>,
    kind: FrameKind,
    p: Seq<char>,
) -> bool {
    exists|i: int|
        0 <= i < s.len() && (#[trigger] s[i]).step == step && s[i].method == method && s[i].kind
            == kind && in_last_run(s, i) && frame_fills(s[i], p)
}

proof fn lemma_tail_run_has(s: Seq<FrameV>, i: int)
    requires
        0 <= i < s.len(),
        forall|k: int| i <= k < s.len() ==> (#[trigger] s[k]).step == s[i].step,
    ensures
        tail_run(s, s[i].step).contains(s[i]),
    decreases s.len(),
{
    let run = tail_run(s, s[i].step);
    assert(s[s.len() - 1].step == s[i].step);
    if i == s.len() - 1 {
        assert(run[run.len() - 1] == s[i]);
    } else {
        let t = s.drop_last();
        assert forall|k: int| i <= k < t.len() implies (#[trigger] t[k]).step == t[i].step by {
            assert(s[k].step == s[i].step);
        }
        lemma_tail_run_has(t, i);
        let before = tail_run(t, s[i].step);
        let k = choose|k: int| 0 <= k < before.len() && before[k] == s[i];
        assert(run[k] == s[i]);
    }
}

proof fn lemma_tail_run_from(s: Seq<FrameV>, step: Seq<char>, f: FrameV) -> (i: int)
    requires
        tail_run(s, step).contains(f),
    ensures
        0 <= i < s.len(),
        s[i] == f,
        forall|k: int| i <= k < s.len() ==> (#[trigger] s[k]).step == step,
    decreases s.len(),
{
    let run = tail_run(s, step);
    let k = choose|k: int| 0 <= k < run.len() && run[k] == f;
    if k == run.len() - 1 {
        s.len() - 1
    } else {
        let t = s.drop_last();
        assert(tail_run(t, step)[k] == f);
        let i = lemma_tail_run_from(t, step, f);
        assert forall|k: int| i <= k < s.len() implies (#[trigger] s[k]).step == step by {
            if k < t.len() {
                assert(t[k].step == step);
            }
        }
        i
    }
}

proof fn lemma_step_run_has(s: Seq<FrameV>, i: int)
    requires
        0 <= i < s.len(),
        in_last_run(s, i),
    ensures
        step_run(s, s[i].step).contains(s[i]),
    decreases s.len(),
{
    if s.last().step == s[i].step {
        assert forall|k: int| i <= k < s.len() implies (#[trigger] s[k]).step == s[i].step by {
            assert(s[s.len() - 1].step == s[i].step);
        }
        lemma_tail_run_has(s, i);
    } else {
        let t = s.drop_last();
        assert(t[i] == s[i]);
        assert forall|j: int, k: int|
            #![trigger t[j], t[k]]
            i <= k <= j < t.len() && t[j].step == t[i].step implies t[k].step == t[i].step by {
            assert(s[j].step == s[i].step && s[k] == t[k]);
        }
        lemma_step_run_has(t, i);
    }
}

proof fn lemma_step_run_from(s: Seq<FrameV>, step: Seq<char>, f: FrameV) -> (i: int)
    requires
        step_run(s, step).contains(f),
    ensures
        0 <= i < s.len(),
        s[i] == f,
        f.step == step,
        in_last_run(s, i),
    decreases s.len(),
{
    if s.last().step == step {
        let i = lemma_tail_run_from(s, step, f);
        assert(s[i].step == step);
        i
    } else {
        let t = s.drop_last();
        let i = lemma_step_run_from(t, step, f);
        assert forall|j: int, k: int|
            #![trigger s[j], s[k]]
            i <= k <= j < s.len() && s[j].step == s[i].step implies s[k].step == s[i].step by {
            assert(t[j].step == t[i].step && t[k] == s[k]);
        }
        i
    }
}

proof fn lemma_run_sends(s: Seq<FrameV>, step: Seq<char>, method: Seq<char>, kind: FrameKind)
    ensures
        run_sends(step_run(s, step), method, kind) <==> step_sends(s, step, method, kind),
{
    let run = step_run(s, step);
    if run_sends(run, method, kind) {
        let k = choose|k: int|
            0 <= k < run.len() && (#[trigger] run[k]).method == method && run[k].kind == kind;
        assert(run.contains(run[k]));
        let i = lemma_step_run_from(s, step, run[k]);
        assert(s[i].step == step);
    }
    if step_sends(s, step, method, kind) {
        let i = choose|i: int|
            0 <= i < s.len() && (#[trigger] s[i]).step == step && s[i].method == method
                && s[i].kind == kind && in_last_run(s, i);
        lemma_step_run_has(s, i);
        let k = choose|k: int| 0 <= k < run.len() && run[k] == s[i];
        assert(run[k].method == method);
    }
}

proof fn lemma_run_fills(
    s: Seq<FrameV>,
    step: Seq<char>,
    method: Seq<char>,
    kind: FrameKind,
    p: Seq<char>,
)
    ensures
        run_fills(step_run(s, step), method, kind, p) <==> step_fills(s, step, method, kind, p),
{
    let run = step_run(s, step);
    if run_fills(run, method, kind, p) {
        let k = choose|k: int|
            0 <= k < run.len() && (#[trigger] run[k]).method == method && run[k].kind == kind
                && frame_fills(run[k], p);
        assert(run.contains(run[k]));
        let i = lemma_step_run_from(s, step, run[k]);
        assert(s[i].step == step);
    }
    if step_fills(s, step, method, kind, p) {
        let i = choose|i: int|
            0 <= i < s.len() && (#[trigger] s[i]).step == step && s[i].method == method
                && s[i].kind == kind && in_last_run(s, i) && frame_fills(s[i], p);
        lemma_step_run_has(s, i);
        let k = choose|k: int| 0 <= k < run.len() && run[k] == s[i];
        assert(run[k].method == method);
    }
}

proof fn lemma_step_names(s: Seq<FrameV>, step: Seq<char>)
    ensures
        step_names(s).contains(step) <==> step.len() > 0 && exists|i: int|
            0 <= i < s.len() && (#[trigger] s[i]).step == step,
    decreases s.len(),
{
    let names = step_names(s);
    if s.len() > 0 {
        let t = s.drop_last();
        let before = step_names(t);
        lemma_step_names(t, step);
        if names.contains(step) {
            let k = choose|k: int| 0 <= k < names.len() && names[k] == step;
            if k < before.len() {
                assert(before[k] == step);
                let i = choose|i: int| 0 <= i < t.len() && (#[trigger] t[i]).step == step;
                assert(s[i].step == step);
            } else {
                assert(s[s.len() - 1].step == step);
            }
        }
        if step.len() > 0 && exists|i: int| 0 <= i < s.len() && (#[trigger] s[i]).step == step {
            let i = choose|i: int| 0 <= i < s.len() && (#[trigger] s[i]).step == step;
            if i < t.len() {
                assert(t[i].step == step);
                let k = choose|k: int| 0 <= k < before.len() && before[k] == step;
                assert(names[k] == step);
            } else {
                assert(names[names.len() - 1] == step);
            }
        }
    }
}

proof fn lemma_kind_methods(s: Seq<FrameV>, kind: FrameKind, method: Seq<char>)
    ensures
        kind_methods(s, kind).contains(method) <==> run_sends(s, method, kind),
    decreases s.len(),
{
    let all = kind_methods(s, kind);
    if s.len() > 0 {
        let t = s.drop_last();
        let before = kind_methods(t, kind);
        lemma_kind_methods(t, kind, method);
        if all.contains(method) {
            let k = choose|k: int| 0 <= k < all.len() && all[k] == method;
            if k < before.len() {
                assert(before[k] == method);
                let i = choose|i: int|
                    0 <= i < t.len() && (#[trigger] t[i]).method == method && t[i].kind == kind;
                assert(s[i].method == method);
            } else {
                assert(s[s.len() - 1].method == method);
            }
        }
        if run_sends(s, method, kind) {
            let i = choose|i: int|
                0 <= i < s.len() && (#[trigger] s[i]).method == method && s[i].kind == kind;
            if i < t.len() {
                assert(t[i].method == method);
                let k = choose|k: int| 0 <= k < before.len() && before[k] == method;
                assert(all[k] == method);
            } else {
                assert(all[all.len() - 1] == method);
            }
        }
    }
}

proof fn lemma_beyond(a: Seq<Seq<char>>, b: Seq<Seq<char>>, skipped: Seq<Seq<char>>, x: Seq<char>)
    ensures
        beyond(a, b, skipped).contains(x) <==> a.contains(x) && !b.contains(x)
            && !skipped.contains(x),
    decreases a.len(),
{
    let all = beyond(a, b, skipped);
    if a.len() > 0 {
        let t = a.drop_last();
        let before = beyond(t, b, skipped);
        lemma_beyond(t, b, skipped, x);
        if all.contains(x) {
            let k = choose|k: int| 0 <= k < all.len() && all[k] == x;
            if k < before.len() {
                assert(before[k] == x);
                let i = choose|i: int| 0 <= i < t.len() && t[i] == x;
                assert(a[i] == x);
            } else {
                assert(a[a.len() - 1] == x);
            }
        }
        if a.contains(x) && !b.contains(x) && !skipped.contains(x) {
            let i = choose|i: int| 0 <= i < a.len() && a[i] == x;
            if i < t.len() {
                assert(t[i] == x);
                let k = choose|k: int| 0 <= k < before.len() && before[k] == x;
                assert(all[k] == x);
            } else {
                assert(all[all.len() - 1] == x);
            }
        }
    }
}

proof fn lemma_steps_have(
    steps: Seq<Seq<char>>,
    reference: Seq<FrameV>,
    target: Seq<FrameV>,
    d: DivergenceV,
    step: Seq<char>,
    f: FindingV,
)
    requires
        steps.contains(step),
        step_findings(step, step_run(reference, step), step_run(target, step), d).contains(f),
    ensures
        steps_findings(steps, reference, target, d).contains(f),
    decreases steps.len(),
{
    let all = steps_findings(steps, reference, target, d);
    let before = steps_findings(steps.drop_last(), reference, target, d);
    let i = choose|i: int| 0 <= i < steps.len() && steps[i] == step;
    if i == steps.len() - 1 {
        let own = step_findings(step, step_run(reference, step), step_run(target, step), d);
        let k = choose|k: int| 0 <= k < own.len() && own[k] == f;
        assert(all[before.len() + k] == f);
    } else {
        assert(steps.drop_last()[i] == step);
        lemma_steps_have(steps.drop_last(), reference, target, d, step, f);
        let k = choose|k: int| 0 <= k < before.len() && before[k] == f;
        assert(all[k] == f);
    }
}

proof fn lemma_steps_from(
    steps: Seq<Seq<char>>,
    reference: Seq<FrameV>,
    target: Seq<FrameV>,
    d: DivergenceV,
    f: FindingV,
) -> (step: Seq<char>)
    requires
        steps_findings(steps, reference, target, d).contains(f),
    ensures
        steps.contains(step),
        step_findings(step, step_run(reference, step), step_run(target, step), d).contains(f),
    decreases steps.len(),
{
    let all = steps_findings(steps, reference, target, d);
    let k = choose|k: int| 0 <= k < all.len() && all[k] == f;
    let before = steps_findings(steps.drop_last(), reference, target, d);
    if k < before.len() {
        assert(before[k] == f);
        let step = lemma_steps_from(steps.drop_last(), reference, target, d, f);
        let i = choose|i: int| 0 <= i < steps.drop_last().len() && steps.drop_last()[i] == step;
        assert(steps[i] == step);
        step
    } else {
        let step = steps.last();
        let own = step_findings(step, step_run(reference, step), step_run(target, step), d);
        assert(own[k - before.len()] == f);
        assert(steps[steps.len() - 1] == step);
        step
    }
}

proof fn lemma_compared_has_step(
    reference: Seq<FrameV>,
    s: Seq<FrameV>,
    verdicts: Seq<FrameVerdict>,
    d: DivergenceV,
    step: Seq<char>,
    f: FindingV,
)
    requires
        step_names(reference).contains(step) || step_names(s).contains(step),
        step_findings(step, step_run(reference, step), step_run(s, step), d).contains(f),
    ensures
        compared(reference, s, verdicts, d).contains(f),
{
    let names = step_names(reference) + step_names(s);
    if step_names(reference).contains(step) {
        let k = choose|k: int| 0 <= k < step_names(reference).len() && step_names(reference)[k]
            == step;
        assert(names[k] == step);
    } else {
        let k = choose|k: int| 0 <= k < step_names(s).len() && step_names(s)[k] == step;
        assert(names[step_names(reference).len() + k] == step);
    }
    lemma_sorted_set(names);
    assert(sorted_set(names).contains(step));
    lemma_steps_have(sorted_set(names), reference, s, d, step, f);
    let a = single_findings(s, verdicts, d);
    let b = steps_findings(sorted_set(names), reference, s, d);
    let k = choose|k: int| 0 <= k < b.len() && b[k] == f;
    assert(compared(reference, s, verdicts, d)[a.len() + k] == f);
}

proof fn lemma_notifications_have(
    step: Seq<char>,
    a: Seq<FrameV>,
    b: Seq<FrameV>,
    d: DivergenceV,
    method: Seq<char>,
)
    requires
        !d.skipped_steps.contains(step),
        !d.skipped_notifications.contains(method),
    ensures
        run_sends(a, method, FrameKind::Notification) && !run_sends(
            b,
            method,
            FrameKind::Notification,
        ) ==> step_findings(step, a, b, d).contains(
            FindingV::MissingNotification { step, method },
        ),
        run_sends(b, method, FrameKind::Notification) && !run_sends(
            a,
            method,
            FrameKind::Notification,
        ) ==> step_findings(step, a, b, d).contains(FindingV::ExtraNotification { step, method }),
{
    let skipped = d.skipped_notifications;
    let am = kind_methods(a, FrameKind::Notification);
    let bm = kind_methods(b, FrameKind::Notification);
    lemma_kind_methods(a, FrameKind::Notification, method);
    lemma_kind_methods(b, FrameKind::Notification, method);
    lemma_sorted_set(am);
    lemma_sorted_set(bm);
    assert(sorted_set(am).contains(method) <==> am.contains(method));
    assert(sorted_set(bm).contains(method) <==> bm.contains(method));
    let lost = beyond(sorted_set(am), sorted_set(bm), skipped);
    let more = beyond(sorted_set(bm), sorted_set(am), skipped);
    lemma_beyond(sorted_set(am), sorted_set(bm), skipped, method);
    lemma_beyond(sorted_set(bm), sorted_set(am), skipped, method);
    let all = step_findings(step, a, b, d);
    if lost.contains(method) {
        let k = choose|k: int| 0 <= k < lost.len() && lost[k] == method;
        assert(missing_in(step, lost)[k] == FindingV::MissingNotification { step, method });
        assert(all[k] == FindingV::MissingNotification { step, method });
    }
    if more.contains(method) {
        let k = choose|k: int| 0 <= k < more.len() && more[k] == method;
        assert(extra_in(step, more)[k] == FindingV::ExtraNotification { step, method });
        assert(all[missing_in(step, lost).len() + k] == FindingV::ExtraNotification {
            step,
            method,
        });
    }
}

/// A notification that codex sends in a step and the target does not is found missing,
/// and one that only the target sends is found extra, unless the step or the
/// notification is known to differ.
pub proof fn law_one_sided_notifications_are_found(
    reference: Seq<FrameV>,
    s: Seq<FrameV>,
    verdicts: Seq<FrameVerdict>,
    target: TargetId,
    step: Seq<char>,
    method: Seq<char>,
)
    requires
        step.len() > 0,
        !divergence_of(target).skipped_steps.contains(step),
        !divergence_of(target).skipped_notifications.contains(method),
    ensures
        step_sends(reference, step, method, FrameKind::Notification) && !step_sends(
            s,
            step,
            method,
            FrameKind::Notification,
        ) ==> compared(reference, s, verdicts, divergence_of(target)).contains(
            FindingV::MissingNotification { step, method },
        ),
        step_sends(s, step, method, FrameKind::Notification) && !step_sends(
            reference,
            step,
            method,
            FrameKind::Notification,
        ) ==> compared(reference, s, verdicts, divergence_of(target)).contains(
            FindingV::ExtraNotification { step, method },
        ),
{
    let d = divergence_of(target);
    let kind = FrameKind::Notification;
    lemma_run_sends(reference, step, method, kind);
    lemma_run_sends(s, step, method, kind);
    lemma_step_names(reference, step);
    lemma_step_names(s, step);
    lemma_notifications_have(step, step_run(reference, step), step_run(s, step), d, method);
    if step_sends(reference, step, method, kind) && !step_sends(s, step, method, kind) {
        lemma_compared_has_step(
            reference,
            s,
            verdicts,
            d,
            step,
            FindingV::MissingNotification { step, method },
        );
    }
    if step_sends(s, step, method, kind) && !step_sends(reference, step, method, kind) {
        lemma_compared_has_step(
            reference,
            s,
            verdicts,
            d,
            step,
            FindingV::ExtraNotification { step, method },
        );
    }
}

proof fn lemma_methods_have(
    step: Seq<char>,
    a: Seq<FrameV>,
    b: Seq<FrameV>,
    methods: Seq<Seq<char>>,
    d: DivergenceV,
    method: Seq<char>,
    kind: FrameKind,
    f: FindingV,
)
    requires
        methods.contains(method),
        key_findings(step, a, b, method, kind, d) == seq![f],
    ensures
        methods_findings(step, a, b, methods, d).contains(f),
    decreases methods.len(),
{
    let all = methods_findings(step, a, b, methods, d);
    let before = methods_findings(step, a, b, methods.drop_last(), d);
    let i = choose|i: int| 0 <= i < methods.len() && methods[i] == method;
    if i == methods.len() - 1 {
        let r = key_findings(step, a, b, method, FrameKind::Response, d);
        let n = key_findings(step, a, b, method, FrameKind::Notification, d);
        match kind {
            FrameKind::Response => {
                assert(r[0] == f);
                assert(all[before.len() as int] == f);
            },
            FrameKind::Notification => {
                assert(n[0] == f);
                assert(all[(before.len() + r.len()) as int] == f);
            },
        }
    } else {
        assert(methods.drop_last()[i] == method);
        lemma_methods_have(step, a, b, methods.drop_last(), d, method, kind, f);
        let k = choose|k: int| 0 <= k < before.len() && before[k] == f;
        assert(all[k] == f);
    }
}

proof fn lemma_methods_from(
    step: Seq<char>,
    a: Seq<FrameV>,
    b: Seq<FrameV>,
    methods: Seq<Seq<char>>,
    d: DivergenceV,
    f: FindingV,
) -> (r: (Seq<char>, FrameKind))
    requires
        methods_findings(step, a, b, methods, d).contains(f),
    ensures
        key_findings(step, a, b, r.0, r.1, d).contains(f),
    decreases methods.len(),
{
    let all = methods_findings(step, a, b, methods, d);
    let i = choose|i: int| 0 <= i < all.len() && all[i] == f;
    let t = methods_findings(step, a, b, methods.drop_last(), d);
    let r = key_findings(step, a, b, methods.last(), FrameKind::Response, d);
    let n = key_findings(step, a, b, methods.last(), FrameKind::Notification, d);
    if i < t.len() {
        assert(t[i] == f);
        lemma_methods_from(step, a, b, methods.drop_last(), d, f)
    } else if i < t.len() + r.len() {
        assert(r[i - t.len()] == f);
        (methods.last(), FrameKind::Response)
    } else {
        assert(n[i - t.len() - r.len()] == f);
        (methods.last(), FrameKind::Notification)
    }
}

/// Whether the keys of a method and kind may differ.
pub open spec fn keys_may_differ(target: TargetId, method: Seq<char>, kind: FrameKind) -> bool {
    ||| kind == FrameKind::Response && divergence_of(target).skipped_methods.contains(method)
    ||| kind == FrameKind::Notification && divergence_of(target).skipped_notifications.contains(
        method,
    )
}

/// Whether a key of a method is known to differ.
pub open spec fn key_may_differ(target: TargetId, method: Seq<char>, p: Seq<char>) -> bool {
    exists|paths: Seq<Seq<char>>| #[trigger]
        divergence_of(target).fields.contains((method, paths)) && paths.contains(p)
}

proof fn lemma_key_may_differ(target: TargetId, method: Seq<char>, p: Seq<char>)
    ensures
        path_allowed(divergence_of(target).fields, method, p) <==> key_may_differ(
            target,
            method,
            p,
        ),
{
    let fields = divergence_of(target).fields;
    if path_allowed(fields, method, p) {
        let i = choose|i: int|
            0 <= i < fields.len() && (#[trigger] fields[i]).0 == method && fields[i].1.contains(p);
        assert(fields[i] == (method, fields[i].1));
        assert(fields.contains((method, fields[i].1)));
    }
    if key_may_differ(target, method, p) {
        let paths = choose|paths: Seq<Seq<char>>| #[trigger]
            fields.contains((method, paths)) && paths.contains(p);
        let i = choose|i: int| 0 <= i < fields.len() && fields[i] == (method, paths);
        assert(fields[i].0 == method);
    }
}

proof fn lemma_all_methods(a: Seq<FrameV>, b: Seq<FrameV>, method: Seq<char>, kind: FrameKind)
    requires
        run_sends(a, method, kind),
    ensures
        sorted_set(all_methods(a) + all_methods(b)).contains(method),
{
    let i = choose|i: int| 0 <= i < a.len() && (#[trigger] a[i]).method == method && a[i].kind == kind;
    let all = all_methods(a) + all_methods(b);
    assert(all[i] == method);
    lemma_sorted_set(all);
    assert(all.contains(method));
}

/// Where both send a frame of a method in a step, a key that only one of them fills is
/// found, on the side that it is on, unless the step, the method or the key is known to
/// differ.
pub proof fn law_one_sided_keys_are_found(
    reference: Seq<FrameV>,
    s: Seq<FrameV>,
    verdicts: Seq<FrameVerdict>,
    target: TargetId,
    step: Seq<char>,
    method: Seq<char>,
    kind: FrameKind,
    p: Seq<char>,
)
    requires
        step.len() > 0,
        !divergence_of(target).skipped_steps.contains(step),
        !keys_may_differ(target, method, kind),
        !key_may_differ(target, method, p),
        step_sends(reference, step, method, kind),
        step_sends(s, step, method, kind),
        step_fills(reference, step, method, kind, p) != step_fills(s, step, method, kind, p),
    ensures
        exists|missing: Set<Seq<char>>, extra: Set<Seq<char>>| #[trigger]
            compared(reference, s, verdicts, divergence_of(target)).contains(
                FindingV::KeyDifference { step, method, kind, missing, extra },
            ) && missing.contains(p) == step_fills(reference, step, method, kind, p)
                && extra.contains(p) == step_fills(s, step, method, kind, p),
{
    let d = divergence_of(target);
    let a = step_run(reference, step);
    let b = step_run(s, step);
    lemma_run_sends(reference, step, method, kind);
    lemma_run_sends(s, step, method, kind);
    lemma_run_fills(reference, step, method, kind, p);
    lemma_run_fills(s, step, method, kind, p);
    lemma_key_may_differ(target, method, p);
    let missing = only_in(a, b, method, kind, d);
    let extra = only_in(b, a, method, kind, d);
    assert(missing.contains(p) || extra.contains(p));
    let f = FindingV::KeyDifference { step, method, kind, missing, extra };
    assert(missing != Set::<Seq<char>>::empty() || extra != Set::<Seq<char>>::empty());
    lemma_all_methods(a, b, method, kind);
    let methods = sorted_set(all_methods(a) + all_methods(b));
    lemma_methods_have(step, a, b, methods, d, method, kind, f);
    let n = notification_findings(step, a, b, d.skipped_notifications);
    let m = methods_findings(step, a, b, methods, d);
    let k = choose|k: int| 0 <= k < m.len() && m[k] == f;
    assert(step_findings(step, a, b, d)[n.len() + k] == f);
    lemma_step_names(reference, step);
    lemma_compared_has_step(reference, s, verdicts, d, step, f);
}

proof fn lemma_step_from(step: Seq<char>, a: Seq<FrameV>, b: Seq<FrameV>, d: DivergenceV, f: FindingV)
    requires
        step_findings(step, a, b, d).contains(f),
    ensures
        !d.skipped_steps.contains(step),
        f.step() == step,
        match f {
            FindingV::MissingNotification { method, .. } => {
                &&& run_sends(a, method, FrameKind::Notification)
                &&& !run_sends(b, method, FrameKind::Notification)
                &&& !d.skipped_notifications.contains(method)
            },
            FindingV::ExtraNotification { method, .. } => {
                &&& run_sends(b, method, FrameKind::Notification)
                &&& !run_sends(a, method, FrameKind::Notification)
                &&& !d.skipped_notifications.contains(method)
            },
            FindingV::KeyDifference { method, kind, .. } => key_findings(
                step,
                a,
                b,
                method,
                kind,
                d,
            ).contains(f),
            _ => false,
        },
{
    let skipped = d.skipped_notifications;
    let am = kind_methods(a, FrameKind::Notification);
    let bm = kind_methods(b, FrameKind::Notification);
    lemma_sorted_set(am);
    lemma_sorted_set(bm);
    let lost = beyond(sorted_set(am), sorted_set(bm), skipped);
    let more = beyond(sorted_set(bm), sorted_set(am), skipped);
    let methods = sorted_set(all_methods(a) + all_methods(b));
    let n = notification_findings(step, a, b, skipped);
    let m = methods_findings(step, a, b, methods, d);
    let all = step_findings(step, a, b, d);
    let k = choose|k: int| 0 <= k < all.len() && all[k] == f;
    if k < lost.len() {
        let x = lost[k];
        assert(missing_in(step, lost)[k] == f);
        assert(lost.contains(x));
        lemma_beyond(sorted_set(am), sorted_set(bm), skipped, x);
        lemma_kind_methods(a, FrameKind::Notification, x);
        lemma_kind_methods(b, FrameKind::Notification, x);
        assert(sorted_set(am).contains(x) <==> am.contains(x));
        assert(sorted_set(bm).contains(x) <==> bm.contains(x));
    } else if k < n.len() {
        let x = more[k - lost.len()];
        assert(extra_in(step, more)[k - lost.len()] == f);
        assert(more.contains(x));
        lemma_beyond(sorted_set(bm), sorted_set(am), skipped, x);
        lemma_kind_methods(a, FrameKind::Notification, x);
        lemma_kind_methods(b, FrameKind::Notification, x);
        assert(sorted_set(am).contains(x) <==> am.contains(x));
        assert(sorted_set(bm).contains(x) <==> bm.contains(x));
    } else {
        assert(m[k - n.len()] == f);
        let r = lemma_methods_from(step, a, b, methods, d, f);
    }
}

/// What is found in steps is there: a notification is missing or extra only where one
/// side sends it and the other does not, and keys differ only where both send the
/// frame, by exactly the keys that one side alone fills and that are not known to
/// differ. A finding of any other kind is about a single frame of the target.
pub proof fn law_step_findings_are_true(
    reference: Seq<FrameV>,
    s: Seq<FrameV>,
    verdicts: Seq<FrameVerdict>,
    target: TargetId,
    f: FindingV,
)
    requires
        compared(reference, s, verdicts, divergence_of(target)).contains(f),
    ensures
        match f {
            FindingV::MissingNotification { step, method } => {
                &&& step_sends(reference, step, method, FrameKind::Notification)
                &&& !step_sends(s, step, method, FrameKind::Notification)
                &&& !divergence_of(target).skipped_steps.contains(step)
                &&& !divergence_of(target).skipped_notifications.contains(method)
            },
            FindingV::ExtraNotification { step, method } => {
                &&& step_sends(s, step, method, FrameKind::Notification)
                &&& !step_sends(reference, step, method, FrameKind::Notification)
                &&& !divergence_of(target).skipped_steps.contains(step)
                &&& !divergence_of(target).skipped_notifications.contains(method)
            },
            FindingV::KeyDifference { step, method, kind, missing, extra } => {
                &&& step_sends(reference, step, method, kind)
                &&& step_sends(s, step, method, kind)
                &&& !divergence_of(target).skipped_steps.contains(step)
                &&& !keys_may_differ(target, method, kind)
                &&& exists|p: Seq<char>| missing.contains(p) || extra.contains(p)
                &&& forall|p: Seq<char>| #[trigger]
                    missing.contains(p) <==> step_fills(reference, step, method, kind, p)
                        && !step_fills(s, step, method, kind, p) && !key_may_differ(
                        target,
                        method,
                        p,
                    )
                &&& forall|p: Seq<char>| #[trigger]
                    extra.contains(p) <==> step_fills(s, step, method, kind, p) && !step_fills(
                        reference,
                        step,
                        method,
                        kind,
                        p,
                    ) && !key_may_differ(target, method, p)
            },
            _ => single_findings(s, verdicts, divergence_of(target)).contains(f),
        },
{
    let d = divergence_of(target);
    let names = sorted_set(step_names(reference) + step_names(s));
    let single = single_findings(s, verdicts, d);
    let steps = steps_findings(names, reference, s, d);
    let all = compared(reference, s, verdicts, d);
    let k = choose|k: int| 0 <= k < all.len() && all[k] == f;
    if k < single.len() {
        assert(single[k] == f);
        let i = law_single_findings_are_true(s, verdicts, target, f);
    } else {
        assert(steps[k - single.len()] == f);
        let step = lemma_steps_from(names, reference, s, d, f);
        let a = step_run(reference, step);
        let b = step_run(s, step);
        lemma_step_from(step, a, b, d, f);
        match f {
            FindingV::MissingNotification { method, .. } => {
                lemma_run_sends(reference, step, method, FrameKind::Notification);
                lemma_run_sends(s, step, method, FrameKind::Notification);
            },
            FindingV::ExtraNotification { method, .. } => {
                lemma_run_sends(reference, step, method, FrameKind::Notification);
                lemma_run_sends(s, step, method, FrameKind::Notification);
            },
            FindingV::KeyDifference { method, kind, missing, extra, .. } => {
                lemma_run_sends(reference, step, method, kind);
                lemma_run_sends(s, step, method, kind);
                assert(key_findings(step, a, b, method, kind, d)[0] == f);
                assert forall|p: Seq<char>| #[trigger]
                    missing.contains(p) <==> step_fills(reference, step, method, kind, p)
                        && !step_fills(s, step, method, kind, p) && !key_may_differ(
                        target,
                        method,
                        p,
                    ) by {
                    lemma_run_fills(reference, step, method, kind, p);
                    lemma_run_fills(s, step, method, kind, p);
                    lemma_key_may_differ(target, method, p);
                }
                assert forall|p: Seq<char>| #[trigger]
                    extra.contains(p) <==> step_fills(s, step, method, kind, p) && !step_fills(
                        reference,
                        step,
                        method,
                        kind,
                        p,
                    ) && !key_may_differ(target, method, p) by {
                    lemma_run_fills(reference, step, method, kind, p);
                    lemma_run_fills(s, step, method, kind, p);
                    lemma_key_may_differ(target, method, p);
                }
                if !(exists|p: Seq<char>| missing.contains(p) || extra.contains(p)) {
                    assert(missing =~= Set::empty());
                    assert(extra =~= Set::empty());
                }
            },
            _ => {},
        }
    }
}

// ---------------------------------------------------------------------------
// Keys
// ---------------------------------------------------------------------------
/// A response fills the keys of its result, and a notification those of its parameters;
/// a key that is `null` is not filled. What a response says elsewhere fills nothing.
pub proof fn law_keys_of_a_frame(f: FrameV, m: Map<Seq<char>, JsonV>, key: Seq<char>)
    requires
        f.kind == FrameKind::Response ==> f.raw.get("result"@) == Some(JsonV::Obj(m)),
        f.kind == FrameKind::Notification ==> f.raw.get("params"@) == Some(JsonV::Obj(m)),
    ensures
        m.dom().contains(key) && m[key] != JsonV::Null ==> frame_fills(f, key),
        (forall|k: Seq<char>| #[trigger] m.dom().contains(k) ==> m[k] == JsonV::Null)
            ==> forall|p: Seq<char>| !frame_fills(f, p),
{
    assert(fills(JsonV::Obj(m), seq![], key) <==> exists|k: Seq<char>| #[trigger]
        m.dom().contains(k) && m[k] != JsonV::Null && (key == member_path(seq![], k) || fills(
            m[k],
            member_path(seq![], k),
            key,
        )));
}

/// A response without a result and a notification without parameters fill nothing.
pub proof fn law_empty_frames_fill_nothing(f: FrameV, p: Seq<char>)
    requires
        f.kind == FrameKind::Response ==> f.raw.get("result"@) is None,
        f.kind == FrameKind::Notification ==> f.raw.get("params"@) is None,
    ensures
        !frame_fills(f, p),
{
}

/// Keys inside a member are filled under its path and a dot, and keys inside an element
/// under the path of the array and a pair of brackets, whichever element it is.
pub proof fn law_keys_are_nested(
    m: Map<Seq<char>, JsonV>,
    a: Seq<JsonV>,
    i: int,
    prefix: Seq<char>,
    outer: Seq<char>,
    inner: Seq<char>,
)
    requires
        m.dom().contains(inner),
        m[inner] != JsonV::Null,
        0 <= i < a.len(),
        a[i] == JsonV::Obj(m),
        prefix.len() > 0,
    ensures
        fills(JsonV::object().with(outer, JsonV::Obj(m)), prefix, prefix + "."@ + outer),
        fills(
            JsonV::object().with(outer, JsonV::Obj(m)),
            prefix,
            prefix + "."@ + outer + "."@ + inner,
        ),
        fills(JsonV::Arr(a), prefix, prefix + "[]"@),
        fills(JsonV::Arr(a), prefix, prefix + "[]"@ + "."@ + inner),
{
    let whole = JsonV::object().with(outer, JsonV::Obj(m));
    let w = whole->Obj_0;
    assert(w.dom().contains(outer) && w[outer] == JsonV::Obj(m));
    let path = prefix + "."@ + outer;
    assert(member_path(prefix, outer) == path);
    assert(member_path(path, inner) == path + "."@ + inner);
    assert(fills(JsonV::Obj(m), path, path + "."@ + inner));
    assert(fills(w[outer], path, path + "."@ + inner));
    let elements = prefix + "[]"@;
    assert(member_path(elements, inner) == elements + "."@ + inner);
    assert(fills(JsonV::Obj(m), elements, elements + "."@ + inner));
    assert(fills(a[i], elements, elements + "."@ + inner));
}

} // verus!
