//! Laws of events: what a run waits for, and what it makes of what comes.

use vstd::prelude::*;

use super::prereq::{EnvPath, with_candidate};
use super::scenario::{
    Event, ScenarioConfig, ScenarioV, Stage, action_of, advanced, after_drain,
    after_failure, after_reply, expects_reply, moved_on,
};
use super::semantics::{item_mentions, mentions};
use super::transcript::{FrameKind, FrameV, TargetId, notification_names, of_kind};
use super::upstream_schema::stale_schema;
use crate::json::{JsonV, jsons};
use crate::launch::paths::has_path;
use crate::text::{has_text, opt_text};

verus! {

// ---------------------------------------------------------------------------
// Events
// ---------------------------------------------------------------------------
/// A run waits for a response exactly where it asked for one.
pub proof fn law_requests_wait_for_responses(st: ScenarioV, cfg: ScenarioConfig)
    requires
        !st.settling,
    ensures
        expects_reply(st.stage) <==> (action_of(st, cfg) is Request || action_of(st, cfg) is Await),
{
}

/// A response is taken where one is waited for, and only there.
pub proof fn law_responses_are_taken_where_awaited(
    st: ScenarioV,
    cfg: ScenarioConfig,
    e: Event,
)
    requires
        e is Reply,
    ensures
        !st.settling && (action_of(st, cfg) is Request || action_of(st, cfg) is Await) ==> (e
            matches Event::Reply { response, notifications } && advanced(st, cfg, e)
            == after_reply(st, cfg, response.view(), jsons(notifications@))),
        st.settling || !(action_of(st, cfg) is Request || action_of(st, cfg) is Await)
            ==> advanced(st, cfg, e) == st,
{
}

/// The thread of an earlier run is taken over exactly where it was asked for.
pub proof fn law_earlier_threads_are_taken_over(
    st: ScenarioV,
    cfg: ScenarioConfig,
    id: Option<String>,
)
    ensures
        st.stage == Stage::Load ==> advanced(st, cfg, Event::Loaded(id)).cached == opt_text(id),
        st.stage != Stage::Load ==> advanced(st, cfg, Event::Loaded(id)) == st,
{
}

/// What is drained is kept where something is drained, and the run goes on; elsewhere
/// nothing changes.
pub proof fn law_drains_are_kept(st: ScenarioV, cfg: ScenarioConfig, e: Event)
    requires
        e is Drained,
    ensures
        action_of(st, cfg) is DrainUntil || action_of(st, cfg) is DrainIdle ==> (e
            matches Event::Drained { notifications, ended_by } && advanced(st, cfg, e)
            == after_drain(st, cfg, jsons(notifications@), opt_text(ended_by))),
        !(action_of(st, cfg) is DrainUntil) && !(action_of(st, cfg) is DrainIdle) ==> advanced(
            st,
            cfg,
            e,
        ) == st,
{
}

/// What needs no answer is done when it is done: the run goes on.
pub proof fn law_done_goes_on(st: ScenarioV, cfg: ScenarioConfig)
    requires
        !st.settling,
    ensures
        action_of(st, cfg) is Notify || action_of(st, cfg) is Send || action_of(st, cfg) is Sleep
            || action_of(st, cfg) is SaveThread || action_of(st, cfg) is ClearThread || action_of(
            st,
            cfg,
        ) is Cleanup ==> advanced(st, cfg, Event::Done) == moved_on(st, cfg),
        action_of(st, cfg) is Request || action_of(st, cfg) is Await || action_of(st, cfg)
            is LoadThread || action_of(st, cfg) is DrainUntil ==> advanced(st, cfg, Event::Done)
            == st,
{
}

/// A failure counts as long as the run is not over.
pub proof fn law_failures_count_until_the_end(st: ScenarioV, cfg: ScenarioConfig)
    ensures
        st.stage is Finished || st.stage is Failed ==> advanced(st, cfg, Event::Failed) == st,
        !(st.stage is Finished) && !(st.stage is Failed) ==> advanced(st, cfg, Event::Failed)
            == after_failure(st),
{
}

// ---------------------------------------------------------------------------
// Schemas, candidates and frames
// ---------------------------------------------------------------------------
/// Complaints of codex's own responses about the one value that its older schemas do not
/// know are let pass, all of them together.
pub proof fn law_old_schemas_are_let_pass(errors: Seq<Seq<char>>)
    requires
        forall|i: int|
            0 <= i < errors.len() ==> has_text(#[trigger] errors[i], "/serviceTier:"@) && has_text(
                errors[i],
                "\"priority\" is not valid"@,
            ),
    ensures
        stale_schema(TargetId::Codex, FrameKind::Response, errors),
{
}

/// A candidate is added at the end if it is a file and is not there yet; what is there
/// stays.
pub proof fn law_candidates_are_files(s: Seq<Seq<char>>, c: Option<EnvPath>, windows: bool)
    ensures
        s.is_prefix_of(with_candidate(s, c, windows)),
        c is None ==> with_candidate(s, c, windows) == s,
        c matches Some(p) ==> {
            &&& !p.exists ==> with_candidate(s, c, windows) == s
            &&& has_path(s, p.path@, windows) ==> with_candidate(s, c, windows) == s
            &&& p.exists && !has_path(s, p.path@, windows) ==> with_candidate(s, c, windows)
                == s.push(p.path@)
        },
{
}

/// The frames of a kind are those of that kind, in the order of the wire.
pub proof fn law_frames_of_a_kind(s: Seq<FrameV>, f: FrameV, kind: FrameKind)
    ensures
        f.kind == kind ==> of_kind(s.push(f), kind) == of_kind(s, kind).push(f),
        f.kind != kind ==> of_kind(s.push(f), kind) == of_kind(s, kind),
        of_kind(Seq::empty(), kind).len() == 0,
{
    reveal(Seq::filter);
    assert(s.push(f).drop_last() =~= s);
}

/// The names of the notifications grow by one with each notification, and not with a
/// response.
pub proof fn law_names_of_notifications(s: Seq<FrameV>, f: FrameV)
    ensures
        f.kind == FrameKind::Notification ==> notification_names(s.push(f)) == notification_names(
            s,
        ).push(f.method),
        f.kind == FrameKind::Response ==> notification_names(s.push(f)) == notification_names(s),
{
    law_frames_of_a_kind(s, f, FrameKind::Notification);
    if f.kind == FrameKind::Notification {
        assert(notification_names(s.push(f)) =~= notification_names(s).push(f.method));
    }
}

/// An item of a turn that mentions a text is found, the first as well as the last.
pub proof fn law_mentions_are_found(
    turns: Seq<JsonV>,
    needle: Seq<char>,
    items: Seq<JsonV>,
    i: int,
    j: int,
)
    requires
        0 <= i < turns.len(),
        turns[i].get("items"@) == Some(JsonV::Arr(items)),
        0 <= j < items.len(),
        mentions(items[j], needle),
    ensures
        item_mentions(turns, None, needle),
{
    assert(turns[i].array_at("items"@)->Some_0[j] == items[j]);
}

} // verus!
