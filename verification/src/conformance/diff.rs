//! Comparison of a target's transcript with the reference.
//!
//! Three layers: every frame has to be well formed, methods that work on codex have
//! to work on the target, and step by step the target has to send the same kinds of
//! notifications and fill the same keys. What is known to differ is let pass.

use vstd::prelude::*;

use super::divergence::{
    DivergenceV, KnownDivergence, divergence_of, path_allowed, response_skipped,
};
use super::finding::{ConformanceReport, Finding, FindingV, findings, lemma_findings_push};
use super::fingerprint::{add_fingerprint, frame_fills};
use super::transcript::{Frame, FrameKind, FrameV, Transcript, frames};
use crate::json::JsonV;
use crate::text::{opt_text, owned, same, texts};
use crate::text_set::{TextSet, set_of, sorted_set};

verus! {

/// What the checks of single frames outside this library found.
pub struct FrameVerdict {
    /// Why the frame does not decode into the type of its method.
    pub deserialize_error: Option<String>,
    /// Why the frame does not pass the published JSON schema.
    pub upstream_error: Option<String>,
}

/// The model of [`FrameVerdict`].
pub struct VerdictV {
    pub deserialize_error: Option<Seq<char>>,
    pub upstream_error: Option<Seq<char>>,
}

impl FrameVerdict {
    /// The model of this verdict.
    pub open spec fn view(&self) -> VerdictV {
        VerdictV {
            deserialize_error: opt_text(self.deserialize_error),
            upstream_error: opt_text(self.upstream_error),
        }
    }
}

/// The verdict on the frame at `i`; a frame without one passed.
pub open spec fn verdict_at(s: Seq<FrameVerdict>, i: int) -> VerdictV {
    if 0 <= i < s.len() {
        s[i].view()
    } else {
        VerdictV { deserialize_error: None, upstream_error: None }
    }
}

// ---------------------------------------------------------------------------
// Single frames
// ---------------------------------------------------------------------------
/// The code of an error response.
pub open spec fn error_code(raw: JsonV) -> Option<int> {
    match raw.get("error"@) {
        Some(e) => match e.get("code"@) {
            Some(c) => c.as_i64(),
            None => None,
        },
        None => None,
    }
}

/// The message of an error response.
pub open spec fn error_message(raw: JsonV) -> Option<Seq<char>> {
    match raw.get("error"@) {
        Some(e) => e.str_at("message"@),
        None => None,
    }
}

/// What is found in a frame by itself. A frame that does not decode is always a
/// finding. An error response is not held against the published schema, and is a
/// finding unless it is known to come.
pub open spec fn frame_findings(f: FrameV, v: VerdictV, d: DivergenceV) -> Seq<FindingV> {
    let decoded = match v.deserialize_error {
        Some(message) => seq![
            FindingV::SchemaError { step: f.step, method: f.method, kind: f.kind, message },
        ],
        None => seq![],
    };
    let published = match v.upstream_error {
        Some(message) => if error_code(f.raw) is None {
            seq![
                FindingV::UpstreamSchemaError {
                    step: f.step,
                    method: f.method,
                    kind: f.kind,
                    message,
                },
            ]
        } else {
            seq![]
        },
        None => seq![],
    };
    let failed = match (error_code(f.raw), error_message(f.raw)) {
        (Some(code), Some(message)) => if f.kind == FrameKind::Response && !response_skipped(d, f) {
            seq![
                FindingV::UnexpectedError {
                    step: f.step,
                    method: f.method,
                    code: code as i64,
                    message,
                },
            ]
        } else {
            seq![]
        },
        _ => seq![],
    };
    decoded + published + failed
}

/// What is found in the frames one by one.
pub open spec fn single_findings(
    s: Seq<FrameV>,
    v: Seq<FrameVerdict>,
    d: DivergenceV,
) -> Seq<FindingV>
    decreases s.len(),
{
    if s.len() == 0 {
        seq![]
    } else {
        single_findings(s.drop_last(), v, d) + frame_findings(
            s.last(),
            verdict_at(v, s.len() - 1),
            d,
        )
    }
}

fn push(out: &mut Vec<Finding>, f: Finding)
    ensures
        final(out)@ == old(out)@.push(f),
        findings(final(out)@) == findings(old(out)@).push(f.view()),
{
    proof {
        lemma_findings_push(out@, f);
    }
    out.push(f);
}

fn check_frame(frame: &Frame, verdict: Option<&FrameVerdict>, d: &KnownDivergence, out: &mut Vec<Finding>)
    ensures
        findings(final(out)@) == findings(old(out)@) + frame_findings(
            frame.view(),
            match verdict {
                Some(v) => v.view(),
                None => VerdictV { deserialize_error: None, upstream_error: None },
            },
            d.view(),
        ),
{
    let error = frame.raw.get("error");
    let code = match error {
        Some(e) => match e.get("code") {
            Some(c) => c.as_i64(),
            None => None,
        },
        None => None,
    };
    let message = match error {
        Some(e) => e.str_at("message"),
        None => None,
    };
    if let Some(v) = verdict {
        if let Some(e) = &v.deserialize_error {
            push(
                out,
                Finding::SchemaError {
                    step: frame.step.clone(),
                    method: frame.method.clone(),
                    kind: frame.kind,
                    message: e.clone(),
                },
            );
        }
        if let Some(e) = &v.upstream_error {
            if code.is_none() {
                push(
                    out,
                    Finding::UpstreamSchemaError {
                        step: frame.step.clone(),
                        method: frame.method.clone(),
                        kind: frame.kind,
                        message: e.clone(),
                    },
                );
            }
        }
    }
    if let Some(code) = code {
        if let Some(message) = message {
            if frame.kind == FrameKind::Response && !d.skips_response(frame) {
                push(
                    out,
                    Finding::UnexpectedError {
                        step: frame.step.clone(),
                        method: frame.method.clone(),
                        code,
                        message: owned(message),
                    },
                );
            }
        }
    }
    assert(findings(out@) =~= findings(old(out)@) + frame_findings(
        frame.view(),
        match verdict {
            Some(v) => v.view(),
            None => VerdictV { deserialize_error: None, upstream_error: None },
        },
        d.view(),
    ));
}

fn check_frames(t: &Transcript, verdicts: &Vec<FrameVerdict>, d: &KnownDivergence) -> (r: Vec<Finding>)
    ensures
        findings(r@) == single_findings(frames(t.frames@), verdicts@, d.view()),
{
    let mut out: Vec<Finding> = Vec::new();
    assert(findings(out@) =~= seq![]);
    let ghost all = frames(t.frames@);
    let mut i: usize = 0;
    while i < t.frames.len()
        invariant
            i <= t.frames@.len(),
            all == frames(t.frames@),
            findings(out@) == single_findings(all.take(i as int), verdicts@, d.view()),
        decreases t.frames@.len() - i,
    {
        assert(all.take(i + 1).drop_last() =~= all.take(i as int));
        assert(all.take(i + 1).last() == t.frames@[i as int].view());
        let v = if i < verdicts.len() {
            Some(&verdicts[i])
        } else {
            None
        };
        check_frame(&t.frames[i], v, d, &mut out);
        i += 1;
    }
    assert(all.take(i as int) =~= all);
    out
}

/// What is found in a transcript without a reference.
pub fn schema_only(transcript: &Transcript, verdicts: &Vec<FrameVerdict>) -> (r: Vec<Finding>)
    ensures
        findings(r@) == single_findings(
            frames(transcript.frames@),
            verdicts@,
            divergence_of(transcript.target),
        ),
{
    let d = KnownDivergence::for_target(transcript.target);
    check_frames(transcript, verdicts, &d)
}

// ---------------------------------------------------------------------------
// Steps
// ---------------------------------------------------------------------------
/// The run of frames of the same step at the end of a list.
pub open spec fn tail_run(s: Seq<FrameV>, step: Seq<char>) -> Seq<FrameV>
    decreases s.len(),
{
    if s.len() == 0 || s.last().step != step {
        seq![]
    } else {
        tail_run(s.drop_last(), step).push(s.last())
    }
}

/// The frames of a step: the last run of frames in a row that belong to it.
pub open spec fn step_run(s: Seq<FrameV>, step: Seq<char>) -> Seq<FrameV>
    decreases s.len(),
{
    if s.len() == 0 {
        seq![]
    } else if s.last().step == step {
        tail_run(s, step)
    } else {
        step_run(s.drop_last(), step)
    }
}

/// The steps of a list of frames; a frame without a step belongs to none.
pub open spec fn step_names(s: Seq<FrameV>) -> Seq<Seq<char>>
    decreases s.len(),
{
    if s.len() == 0 {
        seq![]
    } else if s.last().step.len() == 0 {
        step_names(s.drop_last())
    } else {
        step_names(s.drop_last()).push(s.last().step)
    }
}

/// The part of a list of frames from `lo` to before `hi`.
pub open spec fn part(s: Seq<Frame>, lo: int, hi: int) -> Seq<FrameV> {
    frames(s).subrange(lo, hi)
}

/// The frames of a step as a range.
fn group_by_step(v: &Vec<Frame>, step: &str) -> (r: (usize, usize))
    ensures
        r.0 <= r.1 <= v@.len(),
        part(v@, r.0 as int, r.1 as int) == step_run(frames(v@), step@),
{
    let ghost all = frames(v@);
    let mut hi: usize = v.len();
    assert(all.take(hi as int) =~= all);
    while hi > 0 && !same(v[hi - 1].step.as_str(), step)
        invariant
            hi <= v@.len(),
            all == frames(v@),
            step_run(all, step@) == step_run(all.take(hi as int), step@),
        decreases hi,
    {
        assert(all.take(hi as int).drop_last() =~= all.take(hi - 1));
        assert(all.take(hi as int).last() == v@[hi - 1].view());
        hi -= 1;
    }
    let mut lo: usize = hi;
    proof {
        if hi > 0 {
            assert(all.take(hi as int).last() == v@[hi - 1].view());
            assert(step_run(all, step@) == tail_run(all.take(hi as int), step@));
        } else {
            assert(step_run(all, step@) =~= seq![]);
            assert(tail_run(all.take(0), step@) =~= seq![]);
        }
        assert(all.subrange(lo as int, hi as int) =~= seq![]);
        assert(tail_run(all.take(lo as int), step@) + all.subrange(lo as int, hi as int)
            =~= step_run(all, step@));
    }
    while lo > 0 && same(v[lo - 1].step.as_str(), step)
        invariant
            lo <= hi <= v@.len(),
            all == frames(v@),
            tail_run(all.take(lo as int), step@) + all.subrange(lo as int, hi as int) == step_run(
                all,
                step@,
            ),
        decreases lo,
    {
        let ghost t = all.take(lo as int);
        assert(t.drop_last() =~= all.take(lo - 1));
        assert(t.last() == v@[lo - 1].view());
        assert(tail_run(t, step@) + all.subrange(lo as int, hi as int) =~= tail_run(
            all.take(lo - 1),
            step@,
        ) + all.subrange(lo - 1, hi as int));
        lo -= 1;
    }
    proof {
        let t = all.take(lo as int);
        if lo > 0 {
            assert(t.last() == v@[lo - 1].view());
        }
        assert(tail_run(t, step@) =~= seq![]);
        assert(all.subrange(lo as int, hi as int) =~= step_run(all, step@));
    }
    (lo, hi)
}

fn add_steps(v: &Vec<Frame>, out: &mut Vec<String>)
    ensures
        texts(final(out)@) == texts(old(out)@) + step_names(frames(v@)),
{
    let ghost all = frames(v@);
    let ghost start = texts(out@);
    let mut i: usize = 0;
    assert(start + step_names(all.take(0)) =~= start);
    while i < v.len()
        invariant
            i <= v@.len(),
            all == frames(v@),
            texts(out@) == start + step_names(all.take(i as int)),
        decreases v@.len() - i,
    {
        let ghost was = out@;
        assert(all.take(i + 1).drop_last() =~= all.take(i as int));
        assert(all.take(i + 1).last() == v@[i as int].view());
        if !v[i].step.as_str().is_empty() {
            out.push(v[i].step.clone());
            assert(texts(out@) =~= texts(was).push(v@[i as int].step@));
            assert(texts(out@) =~= start + step_names(all.take(i + 1)));
        }
        i += 1;
    }
    assert(all.take(i as int) =~= all);
}

// ---------------------------------------------------------------------------
// Notifications of a step
// ---------------------------------------------------------------------------
/// The methods of the frames of one kind.
pub open spec fn kind_methods(s: Seq<FrameV>, kind: FrameKind) -> Seq<Seq<char>>
    decreases s.len(),
{
    if s.len() == 0 {
        seq![]
    } else if s.last().kind == kind {
        kind_methods(s.drop_last(), kind).push(s.last().method)
    } else {
        kind_methods(s.drop_last(), kind)
    }
}

/// The methods in `a` that are not in `b` and not on a list.
pub open spec fn beyond(
    a: Seq<Seq<char>>,
    b: Seq<Seq<char>>,
    skipped: Seq<Seq<char>>,
) -> Seq<Seq<char>>
    decreases a.len(),
{
    if a.len() == 0 {
        seq![]
    } else if b.contains(a.last()) || skipped.contains(a.last()) {
        beyond(a.drop_last(), b, skipped)
    } else {
        beyond(a.drop_last(), b, skipped).push(a.last())
    }
}

/// The findings that the target lacks notifications.
pub open spec fn missing_in(step: Seq<char>, methods: Seq<Seq<char>>) -> Seq<FindingV> {
    methods.map_values(|m: Seq<char>| FindingV::MissingNotification { step, method: m })
}

/// The findings that the target sends notifications of its own.
pub open spec fn extra_in(step: Seq<char>, methods: Seq<Seq<char>>) -> Seq<FindingV> {
    methods.map_values(|m: Seq<char>| FindingV::ExtraNotification { step, method: m })
}

/// What is found of the kinds of notifications in a step.
pub open spec fn notification_findings(
    step: Seq<char>,
    reference: Seq<FrameV>,
    target: Seq<FrameV>,
    skipped: Seq<Seq<char>>,
) -> Seq<FindingV> {
    let r = sorted_set(kind_methods(reference, FrameKind::Notification));
    let t = sorted_set(kind_methods(target, FrameKind::Notification));
    missing_in(step, beyond(r, t, skipped)) + extra_in(step, beyond(t, r, skipped))
}

fn methods_in(v: &Vec<Frame>, lo: usize, hi: usize, kind: FrameKind) -> (r: TextSet)
    requires
        lo <= hi <= v@.len(),
    ensures
        r@ == sorted_set(kind_methods(part(v@, lo as int, hi as int), kind)),
{
    let ghost run = part(v@, lo as int, hi as int);
    let mut names: Vec<String> = Vec::new();
    assert(texts(names@) =~= seq![]);
    let mut i: usize = lo;
    while i < hi
        invariant
            lo <= i <= hi <= v@.len(),
            run == part(v@, lo as int, hi as int),
            texts(names@) == kind_methods(run.take(i - lo), kind),
        decreases hi - i,
    {
        let ghost was = names@;
        assert(run.take(i + 1 - lo).drop_last() =~= run.take(i - lo));
        assert(run.take(i + 1 - lo).last() == v@[i as int].view());
        if v[i].kind == kind {
            names.push(v[i].method.clone());
            assert(texts(names@) =~= texts(was).push(v@[i as int].method@));
        }
        i += 1;
    }
    assert(run.take(hi - lo) =~= run);
    set_of(&names)
}

fn names_beyond(a: &TextSet, b: &TextSet, d: &KnownDivergence) -> (r: Vec<String>)
    ensures
        texts(r@) == beyond(a@, b@, d.view().skipped_notifications),
{
    let mut out: Vec<String> = Vec::new();
    let ghost skipped = d.view().skipped_notifications;
    assert(texts(out@) =~= seq![]);
    let n: usize = a.len();
    let mut i: usize = 0;
    while i < n
        invariant
            i <= n,
            n == a@.len(),
            skipped == d.view().skipped_notifications,
            texts(out@) == beyond(a@.take(i as int), b@, skipped),
        decreases n - i,
    {
        let ghost was = out@;
        assert(a@.take(i + 1).drop_last() =~= a@.take(i as int));
        assert(a@.take(i + 1).last() == a@[i as int]);
        let m = a.at(i);
        if !b.contains(m) && !d.skips_notification(m) {
            out.push(owned(m));
            assert(texts(out@) =~= texts(was).push(m@));
        }
        i += 1;
    }
    assert(a@.take(n as int) =~= a@);
    out
}

fn note_missing(step: &str, methods: &Vec<String>, out: &mut Vec<Finding>)
    ensures
        findings(final(out)@) == findings(old(out)@) + missing_in(step@, texts(methods@)),
{
    let ghost start = findings(out@);
    let ghost all = missing_in(step@, texts(methods@));
    let mut i: usize = 0;
    assert(start + all.take(0) =~= start);
    while i < methods.len()
        invariant
            i <= methods@.len(),
            all == missing_in(step@, texts(methods@)),
            findings(out@) == start + all.take(i as int),
        decreases methods@.len() - i,
    {
        push(out, Finding::MissingNotification { step: owned(step), method: methods[i].clone() });
        assert(all.take(i + 1) =~= all.take(i as int).push(all[i as int]));
        assert(findings(out@) =~= start + all.take(i + 1));
        i += 1;
    }
    assert(all.take(i as int) =~= all);
}

fn note_extra(step: &str, methods: &Vec<String>, out: &mut Vec<Finding>)
    ensures
        findings(final(out)@) == findings(old(out)@) + extra_in(step@, texts(methods@)),
{
    let ghost start = findings(out@);
    let ghost all = extra_in(step@, texts(methods@));
    let mut i: usize = 0;
    assert(start + all.take(0) =~= start);
    while i < methods.len()
        invariant
            i <= methods@.len(),
            all == extra_in(step@, texts(methods@)),
            findings(out@) == start + all.take(i as int),
        decreases methods@.len() - i,
    {
        push(out, Finding::ExtraNotification { step: owned(step), method: methods[i].clone() });
        assert(all.take(i + 1) =~= all.take(i as int).push(all[i as int]));
        assert(findings(out@) =~= start + all.take(i + 1));
        i += 1;
    }
    assert(all.take(i as int) =~= all);
}

fn compare_notifications(
    step: &str,
    a: &Vec<Frame>,
    ra: (usize, usize),
    b: &Vec<Frame>,
    rb: (usize, usize),
    d: &KnownDivergence,
    out: &mut Vec<Finding>,
)
    requires
        ra.0 <= ra.1 <= a@.len(),
        rb.0 <= rb.1 <= b@.len(),
    ensures
        findings(final(out)@) == findings(old(out)@) + notification_findings(
            step@,
            part(a@, ra.0 as int, ra.1 as int),
            part(b@, rb.0 as int, rb.1 as int),
            d.view().skipped_notifications,
        ),
{
    let r = methods_in(a, ra.0, ra.1, FrameKind::Notification);
    let t = methods_in(b, rb.0, rb.1, FrameKind::Notification);
    let missing = names_beyond(&r, &t, d);
    let extra = names_beyond(&t, &r, d);
    let ghost start = findings(out@);
    note_missing(step, &missing, out);
    note_extra(step, &extra, out);
    assert(start + missing_in(step@, texts(missing@)) + extra_in(step@, texts(extra@)) =~= start + (
    missing_in(step@, texts(missing@)) + extra_in(step@, texts(extra@))));
}

// ---------------------------------------------------------------------------
// Keys of a step
// ---------------------------------------------------------------------------
/// Whether a frame of some method and kind in a list fills the path `p`.
pub open spec fn run_fills(
    s: Seq<FrameV>,
    method: Seq<char>,
    kind: FrameKind,
    p: Seq<char>,
) -> bool {
    exists|i: int|
        0 <= i < s.len() && (#[trigger] s[i]).method == method && s[i].kind == kind && frame_fills(
            s[i],
            p,
        )
}

/// The paths that frames of some method and kind fill on one side only, but for
/// those that are known to differ.
pub open spec fn only_in(
    a: Seq<FrameV>,
    b: Seq<FrameV>,
    method: Seq<char>,
    kind: FrameKind,
    d: DivergenceV,
) -> Set<Seq<char>> {
    Set::new(
        |p: Seq<char>|
            run_fills(a, method, kind, p) && !run_fills(b, method, kind, p) && !path_allowed(
                d.fields,
                method,
                p,
            ),
    )
}

/// Whether the keys of some method and kind are not compared.
pub open spec fn keys_skipped(method: Seq<char>, kind: FrameKind, d: DivergenceV) -> bool {
    match kind {
        FrameKind::Response => d.skipped_methods.contains(method),
        FrameKind::Notification => d.skipped_notifications.contains(method),
    }
}

/// Whether a list holds a frame of some method and kind.
pub open spec fn run_sends(s: Seq<FrameV>, method: Seq<char>, kind: FrameKind) -> bool {
    exists|i: int| 0 <= i < s.len() && (#[trigger] s[i]).method == method && s[i].kind == kind
}

/// What is found of the keys of some method and kind in a step: only where both sides
/// sent such a frame.
pub open spec fn key_findings(
    step: Seq<char>,
    a: Seq<FrameV>,
    b: Seq<FrameV>,
    method: Seq<char>,
    kind: FrameKind,
    d: DivergenceV,
) -> Seq<FindingV> {
    let missing = only_in(a, b, method, kind, d);
    let extra = only_in(b, a, method, kind, d);
    if keys_skipped(method, kind, d) || !run_sends(a, method, kind) || !run_sends(b, method, kind)
        || (missing == Set::<Seq<char>>::empty() && extra == Set::<
        Seq<char>,
    >::empty()) {
        seq![]
    } else {
        seq![FindingV::KeyDifference { step, method, kind, missing, extra }]
    }
}

/// The methods of a list of frames.
pub open spec fn all_methods(s: Seq<FrameV>) -> Seq<Seq<char>> {
    s.map_values(|f: FrameV| f.method)
}

/// What is found of the keys of a list of methods: for each one its response, then
/// its notification.
pub open spec fn methods_findings(
    step: Seq<char>,
    a: Seq<FrameV>,
    b: Seq<FrameV>,
    methods: Seq<Seq<char>>,
    d: DivergenceV,
) -> Seq<FindingV>
    decreases methods.len(),
{
    if methods.len() == 0 {
        seq![]
    } else {
        methods_findings(step, a, b, methods.drop_last(), d) + key_findings(
            step,
            a,
            b,
            methods.last(),
            FrameKind::Response,
            d,
        ) + key_findings(step, a, b, methods.last(), FrameKind::Notification, d)
    }
}

/// What is found in a step.
pub open spec fn step_findings(
    step: Seq<char>,
    a: Seq<FrameV>,
    b: Seq<FrameV>,
    d: DivergenceV,
) -> Seq<FindingV> {
    if d.skipped_steps.contains(step) {
        seq![]
    } else {
        notification_findings(step, a, b, d.skipped_notifications) + methods_findings(
            step,
            a,
            b,
            sorted_set(all_methods(a) + all_methods(b)),
            d,
        )
    }
}

/// The union of what the frames of some method and kind fill.
fn group_fingerprints(
    v: &Vec<Frame>,
    r: (usize, usize),
    method: &str,
    kind: FrameKind,
) -> (out: TextSet)
    requires
        r.0 <= r.1 <= v@.len(),
    ensures
        forall|p: Seq<char>| #[trigger]
            out.set().contains(p) <==> run_fills(
                part(v@, r.0 as int, r.1 as int),
                method@,
                kind,
                p,
            ),
{
    let mut out = TextSet::new();
    assert(out.set() =~= Set::empty());
    let ghost run = part(v@, r.0 as int, r.1 as int);
    let mut i: usize = r.0;
    while i < r.1
        invariant
            r.0 <= i <= r.1 <= v@.len(),
            run == part(v@, r.0 as int, r.1 as int),
            forall|p: Seq<char>| #[trigger]
                out.set().contains(p) <==> run_fills(run.take(i - r.0), method@, kind, p),
        decreases r.1 - i,
    {
        let ghost t = run.take(i - r.0);
        let ghost u = run.take(i + 1 - r.0);
        let ghost f = v@[i as int].view();
        proof {
            assert(u =~= t.push(f));
            assert forall|p: Seq<char>| #[trigger]
                run_fills(u, method@, kind, p) <==> run_fills(t, method@, kind, p) || (f.method
                    == method@ && f.kind == kind && frame_fills(f, p)) by {
                if run_fills(t, method@, kind, p) {
                    let k = choose|k: int|
                        0 <= k < t.len() && (#[trigger] t[k]).method == method@ && t[k].kind
                            == kind && frame_fills(t[k], p);
                    assert(u[k] == t[k]);
                }
                if run_fills(u, method@, kind, p) {
                    let k = choose|k: int|
                        0 <= k < u.len() && (#[trigger] u[k]).method == method@ && u[k].kind
                            == kind && frame_fills(u[k], p);
                    if k < t.len() {
                        assert(u[k] == t[k]);
                    }
                }
                assert(u[t.len() as int] == f);
            }
        }
        if v[i].kind == kind && same(v[i].method.as_str(), method) {
            add_fingerprint(&v[i], &mut out);
        }
        i += 1;
    }
    assert(run.take(r.1 - r.0) =~= run);
    out
}

fn reportable(a: &TextSet, b: &TextSet, method: &str, d: &KnownDivergence) -> (r: TextSet)
    ensures
        forall|p: Seq<char>| #[trigger]
            r.set().contains(p) <==> a.set().contains(p) && !b.set().contains(p) && !path_allowed(
                d.view().fields,
                method@,
                p,
            ),
{
    let diff = a.without(b);
    let mut out = TextSet::new();
    assert(out.set() =~= Set::empty());
    let n: usize = diff.len();
    let mut i: usize = 0;
    while i < n
        invariant
            i <= n,
            n == diff@.len(),
            forall|p: Seq<char>| #[trigger]
                out.set().contains(p) <==> diff@.take(i as int).contains(p) && !path_allowed(
                    d.view().fields,
                    method@,
                    p,
                ),
        decreases n - i,
    {
        let ghost t = diff@.take(i as int);
        let ghost u = diff@.take(i + 1);
        proof {
            assert(u =~= t.push(diff@[i as int]));
            assert forall|x: Seq<char>| #[trigger] u.contains(x) <==> t.contains(x) || x
                == diff@[i as int] by {
                if t.contains(x) {
                    let k = choose|k: int| 0 <= k < t.len() && t[k] == x;
                    assert(u[k] == x);
                }
                assert(u[i as int] == diff@[i as int]);
                if u.contains(x) {
                    let k = choose|k: int| 0 <= k < u.len() && u[k] == x;
                    if k < i {
                        assert(t[k] == x);
                    }
                }
            }
        }
        let p = diff.at(i);
        if !d.allows_path(method, p) {
            out.insert(p);
        }
        i += 1;
    }
    assert(diff@.take(n as int) =~= diff@);
    assert forall|p: Seq<char>| diff@.contains(p) <==> a.set().contains(p) && !b.set().contains(
        p,
    ) by {
        assert(diff.set().contains(p) <==> diff@.contains(p));
    }
    out
}

fn sends(v: &Vec<Frame>, r: (usize, usize), method: &str, kind: FrameKind) -> (out: bool)
    requires
        r.0 <= r.1 <= v@.len(),
    ensures
        out == run_sends(part(v@, r.0 as int, r.1 as int), method@, kind),
{
    let ghost run = part(v@, r.0 as int, r.1 as int);
    let mut i: usize = r.0;
    while i < r.1
        invariant
            r.0 <= i <= r.1 <= v@.len(),
            run == part(v@, r.0 as int, r.1 as int),
            forall|k: int|
                0 <= k < i - r.0 ==> !((#[trigger] run[k]).method == method@ && run[k].kind == kind),
        decreases r.1 - i,
    {
        assert(run[i - r.0] == v@[i as int].view());
        if v[i].kind == kind && same(v[i].method.as_str(), method) {
            return true;
        }
        i += 1;
    }
    false
}

fn compare_keys(
    step: &str,
    a: &Vec<Frame>,
    ra: (usize, usize),
    b: &Vec<Frame>,
    rb: (usize, usize),
    method: &str,
    kind: FrameKind,
    d: &KnownDivergence,
    out: &mut Vec<Finding>,
)
    requires
        ra.0 <= ra.1 <= a@.len(),
        rb.0 <= rb.1 <= b@.len(),
    ensures
        findings(final(out)@) == findings(old(out)@) + key_findings(
            step@,
            part(a@, ra.0 as int, ra.1 as int),
            part(b@, rb.0 as int, rb.1 as int),
            method@,
            kind,
            d.view(),
        ),
{
    let ghost sa = part(a@, ra.0 as int, ra.1 as int);
    let ghost sb = part(b@, rb.0 as int, rb.1 as int);
    let skip = match kind {
        FrameKind::Response => d.skips_method(method),
        FrameKind::Notification => d.skips_notification(method),
    };
    if !skip && sends(a, ra, method, kind) && sends(b, rb, method, kind) {
        let fa = group_fingerprints(a, ra, method, kind);
        let fb = group_fingerprints(b, rb, method, kind);
        let missing = reportable(&fa, &fb, method, d);
        let extra = reportable(&fb, &fa, method, d);
        assert(missing.set() =~= only_in(sa, sb, method@, kind, d.view()));
        assert(extra.set() =~= only_in(sb, sa, method@, kind, d.view()));
        if !missing.is_empty() || !extra.is_empty() {
            push(
                out,
                Finding::KeyDifference {
                    step: owned(step),
                    method: owned(method),
                    kind,
                    missing,
                    extra,
                },
            );
        } else {
            assert(missing.set() =~= Set::empty());
            assert(extra.set() =~= Set::empty());
        }
    }
    assert(findings(out@) =~= findings(old(out)@) + key_findings(
        step@,
        sa,
        sb,
        method@,
        kind,
        d.view(),
    ));
}

fn compare_step(
    step: &str,
    reference: &Vec<Frame>,
    target: &Vec<Frame>,
    d: &KnownDivergence,
    out: &mut Vec<Finding>,
)
    ensures
        findings(final(out)@) == findings(old(out)@) + step_findings(
            step@,
            step_run(frames(reference@), step@),
            step_run(frames(target@), step@),
            d.view(),
        ),
{
    if d.skips_step(step) {
        assert(findings(out@) =~= findings(old(out)@) + step_findings(
            step@,
            step_run(frames(reference@), step@),
            step_run(frames(target@), step@),
            d.view(),
        ));
        return;
    }
    let ra = group_by_step(reference, step);
    let rb = group_by_step(target, step);
    let ghost sa = part(reference@, ra.0 as int, ra.1 as int);
    let ghost sb = part(target@, rb.0 as int, rb.1 as int);
    compare_notifications(step, reference, ra, target, rb, d, out);
    let mut names: Vec<String> = Vec::new();
    let mut i: usize = ra.0;
    assert(texts(names@) =~= all_methods(sa.take(0)));
    while i < ra.1
        invariant
            ra.0 <= i <= ra.1 <= reference@.len(),
            sa == part(reference@, ra.0 as int, ra.1 as int),
            texts(names@) == all_methods(sa.take(i - ra.0)),
        decreases ra.1 - i,
    {
        let ghost was = names@;
        names.push(reference[i].method.clone());
        assert(sa.take(i + 1 - ra.0) =~= sa.take(i - ra.0).push(reference@[i as int].view()));
        assert(texts(names@) =~= texts(was).push(reference@[i as int].method@));
        assert(all_methods(sa.take(i + 1 - ra.0)) =~= all_methods(sa.take(i - ra.0)).push(
            reference@[i as int].method@,
        ));
        i += 1;
    }
    assert(sa.take(ra.1 - ra.0) =~= sa);
    let mut j: usize = rb.0;
    assert(texts(names@) =~= all_methods(sa) + all_methods(sb.take(0)));
    while j < rb.1
        invariant
            rb.0 <= j <= rb.1 <= target@.len(),
            sb == part(target@, rb.0 as int, rb.1 as int),
            texts(names@) == all_methods(sa) + all_methods(sb.take(j - rb.0)),
        decreases rb.1 - j,
    {
        let ghost was = names@;
        names.push(target[j].method.clone());
        assert(sb.take(j + 1 - rb.0) =~= sb.take(j - rb.0).push(target@[j as int].view()));
        assert(texts(names@) =~= texts(was).push(target@[j as int].method@));
        assert(all_methods(sb.take(j + 1 - rb.0)) =~= all_methods(sb.take(j - rb.0)).push(
            target@[j as int].method@,
        ));
        assert(texts(names@) =~= all_methods(sa) + all_methods(sb.take(j + 1 - rb.0)));
        j += 1;
    }
    assert(sb.take(rb.1 - rb.0) =~= sb);
    let methods = set_of(&names);
    let ghost start = findings(out@);
    let n: usize = methods.len();
    let mut k: usize = 0;
    assert(start + methods_findings(step@, sa, sb, methods@.take(0), d.view()) =~= start);
    while k < n
        invariant
            k <= n,
            n == methods@.len(),
            ra.0 <= ra.1 <= reference@.len(),
            rb.0 <= rb.1 <= target@.len(),
            sa == part(reference@, ra.0 as int, ra.1 as int),
            sb == part(target@, rb.0 as int, rb.1 as int),
            findings(out@) == start + methods_findings(
                step@,
                sa,
                sb,
                methods@.take(k as int),
                d.view(),
            ),
        decreases n - k,
    {
        assert(methods@.take(k + 1).drop_last() =~= methods@.take(k as int));
        assert(methods@.take(k + 1).last() == methods@[k as int]);
        let m = methods.at(k);
        compare_keys(step, reference, ra, target, rb, m, FrameKind::Response, d, out);
        compare_keys(step, reference, ra, target, rb, m, FrameKind::Notification, d, out);
        assert(findings(out@) =~= start + methods_findings(
            step@,
            sa,
            sb,
            methods@.take(k + 1),
            d.view(),
        ));
        k += 1;
    }
    assert(methods@.take(n as int) =~= methods@);
    assert(findings(out@) =~= findings(old(out)@) + step_findings(step@, sa, sb, d.view()));
}

// ---------------------------------------------------------------------------
// The whole comparison
// ---------------------------------------------------------------------------
/// What is found in a list of steps.
pub open spec fn steps_findings(
    steps: Seq<Seq<char>>,
    reference: Seq<FrameV>,
    target: Seq<FrameV>,
    d: DivergenceV,
) -> Seq<FindingV>
    decreases steps.len(),
{
    if steps.len() == 0 {
        seq![]
    } else {
        steps_findings(steps.drop_last(), reference, target, d) + step_findings(
            steps.last(),
            step_run(reference, steps.last()),
            step_run(target, steps.last()),
            d,
        )
    }
}

/// What is found when a transcript is compared with the reference.
pub open spec fn compared(
    reference: Seq<FrameV>,
    target: Seq<FrameV>,
    verdicts: Seq<FrameVerdict>,
    d: DivergenceV,
) -> Seq<FindingV> {
    single_findings(target, verdicts, d) + steps_findings(
        sorted_set(step_names(reference) + step_names(target)),
        reference,
        target,
        d,
    )
}

/// Compares the transcript of a target with the reference.
pub fn compare(
    reference: &Transcript,
    target: &Transcript,
    verdicts: &Vec<FrameVerdict>,
) -> (r: ConformanceReport)
    ensures
        r.target == target.target,
        findings(r.findings@) == compared(
            frames(reference.frames@),
            frames(target.frames@),
            verdicts@,
            divergence_of(target.target),
        ),
{
    let d = KnownDivergence::for_target(target.target);
    let mut out = check_frames(target, verdicts, &d);
    let mut names: Vec<String> = Vec::new();
    add_steps(&reference.frames, &mut names);
    add_steps(&target.frames, &mut names);
    let ghost fa = frames(reference.frames@);
    let ghost fb = frames(target.frames@);
    assert(texts(names@) =~= step_names(fa) + step_names(fb));
    let steps = set_of(&names);
    let ghost start = findings(out@);
    let n: usize = steps.len();
    let mut i: usize = 0;
    assert(start + steps_findings(steps@.take(0), fa, fb, d.view()) =~= start);
    while i < n
        invariant
            i <= n,
            n == steps@.len(),
            fa == frames(reference.frames@),
            fb == frames(target.frames@),
            findings(out@) == start + steps_findings(steps@.take(i as int), fa, fb, d.view()),
        decreases n - i,
    {
        assert(steps@.take(i + 1).drop_last() =~= steps@.take(i as int));
        assert(steps@.take(i + 1).last() == steps@[i as int]);
        compare_step(steps.at(i), &reference.frames, &target.frames, &d, &mut out);
        assert(findings(out@) =~= start + steps_findings(steps@.take(i + 1), fa, fb, d.view()));
        i += 1;
    }
    assert(steps@.take(n as int) =~= steps@);
    ConformanceReport { target: target.target, findings: out }
}

} // verus!
