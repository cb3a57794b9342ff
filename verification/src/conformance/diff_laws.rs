//! Laws of the comparison.

use vstd::prelude::*;

use super::diff::{
    FrameVerdict, all_methods, beyond, compared, error_code, error_message, frame_findings,
    key_findings, keys_skipped, kind_methods, methods_findings, notification_findings, only_in,
    run_sends, single_findings, step_findings, step_names, step_run, steps_findings, verdict_at,
};
use super::divergence::{DivergenceV, divergence_of};
use super::finding::FindingV;
use super::transcript::{FrameKind, FrameV, TargetId};
use crate::text_set::sorted_set;

verus! {

/// A frame with nothing wrong in it: it decodes, passes the published schema, and is
/// no error.
pub open spec fn sound_frame(f: FrameV, verdicts: Seq<FrameVerdict>, i: int) -> bool {
    &&& verdict_at(verdicts, i).deserialize_error is None
    &&& verdict_at(verdicts, i).upstream_error is None
    &&& error_code(f.raw) is None || error_message(f.raw) is None
}

proof fn lemma_beyond_itself(a: Seq<Seq<char>>, b: Seq<Seq<char>>, skipped: Seq<Seq<char>>)
    requires
        forall|i: int| 0 <= i < a.len() ==> b.contains(#[trigger] a[i]),
    ensures
        beyond(a, b, skipped) == Seq::<Seq<char>>::empty(),
    decreases a.len(),
{
    if a.len() > 0 {
        assert(b.contains(a[a.len() - 1]));
        assert forall|i: int| 0 <= i < a.drop_last().len() implies b.contains(
            #[trigger] a.drop_last()[i],
        ) by {
            assert(b.contains(a[i]));
        }
        lemma_beyond_itself(a.drop_last(), b, skipped);
    }
}

proof fn lemma_step_with_itself(step: Seq<char>, run: Seq<FrameV>, d: DivergenceV)
    ensures
        step_findings(step, run, run, d) == Seq::<FindingV>::empty(),
{
    let r = sorted_set(kind_methods(run, FrameKind::Notification));
    assert forall|i: int| 0 <= i < r.len() implies r.contains(#[trigger] r[i]) by {}
    lemma_beyond_itself(r, r, d.skipped_notifications);
    assert(notification_findings(step, run, run, d.skipped_notifications) =~= Seq::empty());
    lemma_methods_with_themselves(
        step,
        run,
        sorted_set(all_methods(run) + all_methods(run)),
        d,
    );
    assert(step_findings(step, run, run, d) =~= Seq::empty());
}

proof fn lemma_methods_with_themselves(
    step: Seq<char>,
    run: Seq<FrameV>,
    methods: Seq<Seq<char>>,
    d: DivergenceV,
)
    ensures
        methods_findings(step, run, run, methods, d) == Seq::<FindingV>::empty(),
    decreases methods.len(),
{
    if methods.len() > 0 {
        lemma_methods_with_themselves(step, run, methods.drop_last(), d);
        assert(only_in(run, run, methods.last(), FrameKind::Response, d) =~= Set::empty());
        assert(only_in(run, run, methods.last(), FrameKind::Notification, d) =~= Set::empty());
        assert(methods_findings(step, run, run, methods, d) =~= Seq::empty());
    }
}

proof fn lemma_steps_with_themselves(steps: Seq<Seq<char>>, s: Seq<FrameV>, d: DivergenceV)
    ensures
        steps_findings(steps, s, s, d) == Seq::<FindingV>::empty(),
    decreases steps.len(),
{
    if steps.len() > 0 {
        lemma_steps_with_themselves(steps.drop_last(), s, d);
        lemma_step_with_itself(steps.last(), step_run(s, steps.last()), d);
        assert(steps_findings(steps, s, s, d) =~= Seq::empty());
    }
}

proof fn lemma_sound_frames(s: Seq<FrameV>, verdicts: Seq<FrameVerdict>, d: DivergenceV)
    requires
        forall|i: int| 0 <= i < s.len() ==> sound_frame(#[trigger] s[i], verdicts, i),
    ensures
        single_findings(s, verdicts, d) == Seq::<FindingV>::empty(),
    decreases s.len(),
{
    if s.len() > 0 {
        let t = s.drop_last();
        assert forall|i: int| 0 <= i < t.len() implies sound_frame(#[trigger] t[i], verdicts, i) by {
            assert(sound_frame(s[i], verdicts, i));
        }
        lemma_sound_frames(t, verdicts, d);
        assert(sound_frame(s[s.len() - 1], verdicts, s.len() - 1));
        assert(frame_findings(s.last(), verdict_at(verdicts, s.len() - 1), d) =~= Seq::empty());
        assert(single_findings(s, verdicts, d) =~= Seq::empty());
    }
}

/// A target that sends what the reference sends has no finding of the comparison:
/// what remains is what is wrong with single frames.
pub proof fn law_same_frames_agree(
    s: Seq<FrameV>,
    verdicts: Seq<FrameVerdict>,
    target: TargetId,
)
    ensures
        compared(s, s, verdicts, divergence_of(target)) == single_findings(
            s,
            verdicts,
            divergence_of(target),
        ),
{
    let d = divergence_of(target);
    lemma_steps_with_themselves(sorted_set(step_names(s) + step_names(s)), s, d);
    assert(compared(s, s, verdicts, d) =~= single_findings(s, verdicts, d));
}

/// A target that sends what the reference sends, with nothing wrong in any frame,
/// is clean.
pub proof fn law_identical_sound_transcripts_are_clean(
    s: Seq<FrameV>,
    verdicts: Seq<FrameVerdict>,
    target: TargetId,
)
    requires
        forall|i: int| 0 <= i < s.len() ==> sound_frame(#[trigger] s[i], verdicts, i),
    ensures
        compared(s, s, verdicts, divergence_of(target)).len() == 0,
{
    law_same_frames_agree(s, verdicts, target);
    lemma_sound_frames(s, verdicts, divergence_of(target));
}

/// A frame that does not decode is a finding, whatever is known to differ.
pub proof fn law_decode_failures_are_always_found(
    reference: Seq<FrameV>,
    s: Seq<FrameV>,
    verdicts: Seq<FrameVerdict>,
    target: TargetId,
    i: int,
)
    requires
        0 <= i < s.len(),
        verdict_at(verdicts, i).deserialize_error is Some,
    ensures
        compared(reference, s, verdicts, divergence_of(target)).contains(
            FindingV::SchemaError {
                step: s[i].step,
                method: s[i].method,
                kind: s[i].kind,
                message: verdict_at(verdicts, i).deserialize_error->Some_0,
            },
        ),
{
    let d = divergence_of(target);
    let f = FindingV::SchemaError {
        step: s[i].step,
        method: s[i].method,
        kind: s[i].kind,
        message: verdict_at(verdicts, i).deserialize_error->Some_0,
    };
    lemma_decode_failure(s, verdicts, d, i);
    let a = single_findings(s, verdicts, d);
    let k = choose|k: int| 0 <= k < a.len() && a[k] == f;
    assert(compared(reference, s, verdicts, d)[k] == f);
}

proof fn lemma_decode_failure(
    s: Seq<FrameV>,
    verdicts: Seq<FrameVerdict>,
    d: DivergenceV,
    i: int,
)
    requires
        0 <= i < s.len(),
        verdict_at(verdicts, i).deserialize_error is Some,
    ensures
        single_findings(s, verdicts, d).contains(
            FindingV::SchemaError {
                step: s[i].step,
                method: s[i].method,
                kind: s[i].kind,
                message: verdict_at(verdicts, i).deserialize_error->Some_0,
            },
        ),
    decreases s.len(),
{
    let f = FindingV::SchemaError {
        step: s[i].step,
        method: s[i].method,
        kind: s[i].kind,
        message: verdict_at(verdicts, i).deserialize_error->Some_0,
    };
    let all = single_findings(s, verdicts, d);
    let before = single_findings(s.drop_last(), verdicts, d);
    if i == s.len() - 1 {
        let own = frame_findings(s.last(), verdict_at(verdicts, i), d);
        assert(own[0] == f);
        assert(all[before.len() as int] == f);
    } else {
        lemma_decode_failure(s.drop_last(), verdicts, d, i);
        let k = choose|k: int| 0 <= k < before.len() && before[k] == f;
        assert(all[k] == f);
    }
}

/// Whether a finding is about a step that may differ, a notification that may
/// differ, or keys that are not compared.
pub open spec fn excused(f: FindingV, d: DivergenceV) -> bool {
    match f {
        FindingV::MissingNotification { step, method } => d.skipped_steps.contains(step)
            || d.skipped_notifications.contains(method),
        FindingV::ExtraNotification { step, method } => d.skipped_steps.contains(step)
            || d.skipped_notifications.contains(method),
        FindingV::KeyDifference { step, method, kind, .. } => d.skipped_steps.contains(step)
            || keys_skipped(method, kind, d),
        _ => false,
    }
}

proof fn lemma_beyond_is_not_skipped(
    a: Seq<Seq<char>>,
    b: Seq<Seq<char>>,
    skipped: Seq<Seq<char>>,
    i: int,
)
    requires
        0 <= i < beyond(a, b, skipped).len(),
    ensures
        !skipped.contains(beyond(a, b, skipped)[i]),
    decreases a.len(),
{
    if a.len() > 0 {
        let t = beyond(a.drop_last(), b, skipped);
        if i < t.len() {
            lemma_beyond_is_not_skipped(a.drop_last(), b, skipped, i);
        }
    }
}

proof fn lemma_method_findings_not_excused(
    step: Seq<char>,
    a: Seq<FrameV>,
    b: Seq<FrameV>,
    methods: Seq<Seq<char>>,
    d: DivergenceV,
    i: int,
)
    requires
        !d.skipped_steps.contains(step),
        0 <= i < methods_findings(step, a, b, methods, d).len(),
    ensures
        !excused(methods_findings(step, a, b, methods, d)[i], d),
    decreases methods.len(),
{
    if methods.len() > 0 {
        let t = methods_findings(step, a, b, methods.drop_last(), d);
        let r = key_findings(step, a, b, methods.last(), FrameKind::Response, d);
        let n = key_findings(step, a, b, methods.last(), FrameKind::Notification, d);
        if i < t.len() {
            lemma_method_findings_not_excused(step, a, b, methods.drop_last(), d, i);
        } else if i < t.len() + r.len() {
            assert((t + r + n)[i] == r[i - t.len()]);
        } else {
            assert((t + r + n)[i] == n[i - t.len() - r.len()]);
        }
    }
}

/// Keys are compared only where both sides sent a frame of the method and kind in the step.
pub proof fn law_keys_need_both_sides(
    step: Seq<char>,
    a: Seq<FrameV>,
    b: Seq<FrameV>,
    methods: Seq<Seq<char>>,
    d: DivergenceV,
    i: int,
)
    requires
        0 <= i < methods_findings(step, a, b, methods, d).len(),
    ensures
        methods_findings(step, a, b, methods, d)[i] matches FindingV::KeyDifference {
            method,
            kind,
            ..
        } && run_sends(a, method, kind) && run_sends(b, method, kind),
    decreases methods.len(),
{
    if methods.len() > 0 {
        let t = methods_findings(step, a, b, methods.drop_last(), d);
        let r = key_findings(step, a, b, methods.last(), FrameKind::Response, d);
        let n = key_findings(step, a, b, methods.last(), FrameKind::Notification, d);
        if i < t.len() {
            law_keys_need_both_sides(step, a, b, methods.drop_last(), d, i);
        } else if i < t.len() + r.len() {
            assert((t + r + n)[i] == r[i - t.len()]);
        } else {
            assert((t + r + n)[i] == n[i - t.len() - r.len()]);
        }
    }
}

proof fn lemma_step_findings_not_excused(
    step: Seq<char>,
    a: Seq<FrameV>,
    b: Seq<FrameV>,
    d: DivergenceV,
    i: int,
)
    requires
        0 <= i < step_findings(step, a, b, d).len(),
    ensures
        !excused(step_findings(step, a, b, d)[i], d),
{
    let skipped = d.skipped_notifications;
    let r = sorted_set(kind_methods(a, FrameKind::Notification));
    let t = sorted_set(kind_methods(b, FrameKind::Notification));
    let lost = beyond(r, t, skipped);
    let more = beyond(t, r, skipped);
    let n = notification_findings(step, a, b, skipped);
    let k = methods_findings(step, a, b, sorted_set(all_methods(a) + all_methods(b)), d);
    assert(step_findings(step, a, b, d) == n + k);
    if i < n.len() {
        if i < lost.len() {
            lemma_beyond_is_not_skipped(r, t, skipped, i);
        } else {
            lemma_beyond_is_not_skipped(t, r, skipped, i - lost.len());
        }
    } else {
        lemma_method_findings_not_excused(
            step,
            a,
            b,
            sorted_set(all_methods(a) + all_methods(b)),
            d,
            i - n.len(),
        );
    }
}

proof fn lemma_steps_findings_not_excused(
    steps: Seq<Seq<char>>,
    a: Seq<FrameV>,
    b: Seq<FrameV>,
    d: DivergenceV,
    i: int,
)
    requires
        0 <= i < steps_findings(steps, a, b, d).len(),
    ensures
        !excused(steps_findings(steps, a, b, d)[i], d),
    decreases steps.len(),
{
    if steps.len() > 0 {
        let t = steps_findings(steps.drop_last(), a, b, d);
        if i < t.len() {
            lemma_steps_findings_not_excused(steps.drop_last(), a, b, d, i);
        } else {
            lemma_step_findings_not_excused(
                steps.last(),
                step_run(a, steps.last()),
                step_run(b, steps.last()),
                d,
                i - t.len(),
            );
        }
    }
}

proof fn lemma_single_findings_not_excused(
    s: Seq<FrameV>,
    verdicts: Seq<FrameVerdict>,
    d: DivergenceV,
    i: int,
)
    requires
        0 <= i < single_findings(s, verdicts, d).len(),
    ensures
        !excused(single_findings(s, verdicts, d)[i], d),
    decreases s.len(),
{
    if s.len() > 0 {
        let t = single_findings(s.drop_last(), verdicts, d);
        if i < t.len() {
            lemma_single_findings_not_excused(s.drop_last(), verdicts, d, i);
        }
    }
}

/// What is known to differ is never reported by the comparison of steps.
pub proof fn law_known_divergence_is_quiet(
    reference: Seq<FrameV>,
    s: Seq<FrameV>,
    verdicts: Seq<FrameVerdict>,
    target: TargetId,
    i: int,
)
    requires
        0 <= i < compared(reference, s, verdicts, divergence_of(target)).len(),
    ensures
        !excused(
            compared(reference, s, verdicts, divergence_of(target))[i],
            divergence_of(target),
        ),
{
    let d = divergence_of(target);
    let a = single_findings(s, verdicts, d);
    if i < a.len() {
        lemma_single_findings_not_excused(s, verdicts, d, i);
    } else {
        lemma_steps_findings_not_excused(
            sorted_set(step_names(reference) + step_names(s)),
            reference,
            s,
            d,
            i - a.len(),
        );
    }
}

} // verus!
