//! Laws of the scenario: what each stage asks for, in which order, and what is recorded.

use vstd::prelude::*;

use super::scenario::{
    ActionV, Event, ScenarioConfig, ScenarioV, Stage, action_of, advanced, after_failure,
    after_reply, error_in, first_stop, is_mutation, learned, method_of, moved_on, next_stage,
    note_frame, note_frames, params_of, prior_terminal, rank, result_id, result_turns, step_of,
    tail_of,
};
use super::transcript::{FrameKind, FrameV};
use crate::json::JsonV;
use crate::text::{begins, listed, tag};

verus! {

proof fn lemma_param_keys()
    ensures
        tag("threadId"@) == (8nat, 't', 'h'),
        tag("cwd"@) == (3nat, 'c', 'w'),
        tag("approvalPolicy"@) == (14nat, 'a', 'p'),
        tag("sandbox"@) == (7nat, 's', 'a'),
        tag("input"@) == (5nat, 'i', 'n'),
        tag("includeTurns"@) == (12nat, 'i', 'n'),
        tag("name"@) == (4nat, 'n', 'a'),
        tag("archived"@) == (8nat, 'a', 'r'),
        tag("expectedTurnId"@) == (14nat, 'e', 'x'),
        tag("turnId"@) == (6nat, 't', 'u'),
        tag("limit"@) == (5nat, 'l', 'i'),
        tag("numTurns"@) == (8nat, 'n', 'u'),
        tag("processId"@) == (9nat, 'p', 'r'),
        tag("command"@) == (7nat, 'c', 'o'),
        tag("tty"@) == (3nat, 't', 't'),
        tag("streamStdin"@) == (11nat, 's', 't'),
        tag("streamStdoutStderr"@) == (18nat, 's', 't'),
        tag("deltaBase64"@) == (11nat, 'd', 'e'),
        tag("closeStdin"@) == (10nat, 'c', 'l'),
        tag("size"@) == (4nat, 's', 'i'),
        tag("model"@) == (5nat, 'm', 'o'),
        tag("type"@) == (4nat, 't', 'y'),
        tag("text"@) == (4nat, 't', 'e'),
{
    reveal_strlit("threadId");
    reveal_strlit("cwd");
    reveal_strlit("approvalPolicy");
    reveal_strlit("sandbox");
    reveal_strlit("input");
    reveal_strlit("includeTurns");
    reveal_strlit("name");
    reveal_strlit("archived");
    reveal_strlit("expectedTurnId");
    reveal_strlit("turnId");
    reveal_strlit("limit");
    reveal_strlit("numTurns");
    reveal_strlit("processId");
    reveal_strlit("command");
    reveal_strlit("tty");
    reveal_strlit("streamStdin");
    reveal_strlit("streamStdoutStderr");
    reveal_strlit("deltaBase64");
    reveal_strlit("closeStdin");
    reveal_strlit("size");
    reveal_strlit("model");
    reveal_strlit("type");
    reveal_strlit("text");
}

// ---------------------------------------------------------------------------
// What is asked for
// ---------------------------------------------------------------------------
/// Whether a stage works on the thread of the scenario.
pub open spec fn on_the_thread(stage: Stage) -> bool {
    stage is Turn || stage is ReadThread || stage is ToolTurn || stage is ReadAfterTool || stage
        is Resume || stage is Rename
}

/// Whether a stage works on the thread that may be spoilt.
pub open spec fn on_the_disposable_thread(stage: Stage) -> bool {
    stage is SeedTurn || stage is Fork || stage is Interruptible || stage is Steer || stage
        is Interrupt || stage is TurnsList || stage is ReadBeforeRollback || stage is Rollback
        || stage is Compact || stage is Archive || stage is Unarchive
}

/// What spoils a thread is done to the thread that was made for it, never to the thread of
/// the scenario; the rest is done to the thread of the scenario.
pub proof fn law_threads_are_not_mixed_up(
    st: ScenarioV,
    cfg: ScenarioConfig,
    id: Seq<char>,
    spare: Seq<char>,
)
    requires
        st.ctx.thread_id == Some(id),
        st.ctx.disposable_thread_id == Some(spare),
    ensures
        on_the_thread(st.stage) ==> params_of(st, cfg).get("threadId"@) == Some(JsonV::Str(id)),
        on_the_disposable_thread(st.stage) ==> params_of(st, cfg).get("threadId"@) == Some(
            JsonV::Str(spare),
        ),
        on_the_disposable_thread(st.stage) ==> is_mutation(st.stage),
        on_the_thread(st.stage) ==> !is_mutation(st.stage),
        st.stage is ResumeCached ==> (st.cached matches Some(old_id) ==> params_of(st, cfg).get(
            "threadId"@,
        ) == Some(JsonV::Str(old_id))),
{
    lemma_param_keys();
}

/// Archived threads are asked for after the thread was archived and only then; every list
/// is of the directory of the run.
pub proof fn law_lists_ask_for_the_right_threads(st: ScenarioV, cfg: ScenarioConfig)
    requires
        st.stage is ThreadList || st.stage is ListDisposable || st.stage is ListArchived
            || st.stage is ListUnarchived,
    ensures
        params_of(st, cfg).get("archived"@) == Some(JsonV::Bool(st.stage is ListArchived)),
        params_of(st, cfg).get("cwd"@) == Some(JsonV::Str(cfg.cwd@)),
        method_of(st.stage) == "thread/list"@,
{
    lemma_param_keys();
}

/// The turn that is steered and interrupted is the one that was started for it.
pub proof fn law_the_started_turn_is_interrupted(
    st: ScenarioV,
    cfg: ScenarioConfig,
    turn: Seq<char>,
)
    requires
        st.ctx.interrupted_turn_id == Some(turn),
    ensures
        st.stage is Steer ==> params_of(st, cfg).get("expectedTurnId"@) == Some(JsonV::Str(turn)),
        st.stage is Interrupt ==> params_of(st, cfg).get("turnId"@) == Some(JsonV::Str(turn)),
{
    lemma_param_keys();
}

/// The text that a turn is started with.
pub open spec fn asked(st: ScenarioV, cfg: ScenarioConfig) -> Option<JsonV> {
    match params_of(st, cfg).get("input"@) {
        Some(JsonV::Arr(a)) => if a.len() == 1 {
            a[0].get("text"@)
        } else {
            None
        },
        _ => None,
    }
}

/// The first turn asks what the run is set up to ask, and the tool turn asks for the file
/// with the marker.
pub proof fn law_turns_ask_what_they_are_for(st: ScenarioV, cfg: ScenarioConfig)
    ensures
        st.stage is Turn ==> asked(st, cfg) == Some(JsonV::Str(cfg.prompt@)),
        st.stage is ToolTurn ==> asked(st, cfg) == Some(JsonV::Str(st.tool_prompt)),
{
    lemma_param_keys();
}

/// A model is asked for where a thread or a turn is started exactly if one is set.
pub proof fn law_the_set_model_is_asked_for(st: ScenarioV, cfg: ScenarioConfig)
    requires
        st.stage is StartThread || st.stage is Turn || st.stage is ToolTurn || st.stage
            is StartDisposable || st.stage is SeedTurn || st.stage is Fork || st.stage
            is Interruptible,
    ensures
        params_of(st, cfg).get("model"@) == (match cfg.model {
            Some(m) => Some(JsonV::Str(m@)),
            None => None,
        }),
        params_of(st, cfg).get("approvalPolicy"@) == Some(JsonV::Str("never"@)),
{
    lemma_param_keys();
}

/// The command that is written to, resized and terminated is the one that was started.
pub proof fn law_one_command_throughout(st: ScenarioV, cfg: ScenarioConfig)
    requires
        st.stage is ExecStart || st.stage is ExecWrite || st.stage is ExecResize || st.stage
            is ExecTerminate,
    ensures
        params_of(st, cfg).get("processId"@) == Some(JsonV::Str(st.process_id)),
{
    lemma_param_keys();
}

/// Turns get the time of a turn, and everything else the usual time.
pub proof fn law_turns_get_their_time(st: ScenarioV, cfg: ScenarioConfig)
    requires
        !st.settling,
    ensures
        st.stage is Turn || st.stage is ToolTurn || st.stage is SeedTurn || st.stage
            is Interruptible ==> (action_of(st, cfg) matches ActionV::Request {
            method,
            deadline_ms,
            ..
        } && method == "turn/start"@ && deadline_ms == cfg.turn_deadline_ms),
        st.stage is Initialize || st.stage is ThreadList || st.stage is Archive || st.stage is Exec
            || st.stage is Interrupt || st.stage is ReadThread ==> (action_of(
            st,
            cfg,
        ) matches ActionV::Request { deadline_ms, .. } && deadline_ms == cfg.default_deadline_ms),
        st.stage is Finished ==> action_of(st, cfg) == (ActionV::Stop { failed: false }),
        st.stage is Failed ==> action_of(st, cfg) == (ActionV::Stop { failed: true }),
        st.stage is Cleanup || st.stage is Abandon ==> (st.disposable matches Some(id)
            ==> action_of(st, cfg) == (ActionV::Cleanup { thread_id: id })),
        st.stage is Save ==> (st.ctx.thread_id matches Some(id) ==> action_of(st, cfg)
            == ActionV::SaveThread(id)),
{
}

// ---------------------------------------------------------------------------
// The order of the stages
// ---------------------------------------------------------------------------
/// No stage is left out: a stage that leads to one stage only leads to the next one.
pub proof fn law_no_stage_is_left_out(st: ScenarioV, cfg: ScenarioConfig)
    requires
        !(st.stage is ReadOnly) && !(st.stage is ThreadList) && !(st.stage is Load) && !(st.stage
            is ResumeCached) && !(st.stage is StartThread) && !(st.stage is Rename) && !(st.stage
            is StartDisposable) && !(st.stage is Interruptible) && !(st.stage is Pause) && !(
        st.stage is Exec) && !(st.stage is Abandon) && !(st.stage is Finished) && !(st.stage
            is Failed),
    ensures
        rank(next_stage(st, cfg)) == rank(st.stage) + 2,
{
}

/// Where a stage may lead to two, what was learned decides: the spare thread is worked on
/// if there is one and it is wanted, the turn is steered and interrupted if it has begun
/// to answer and is known, and the run goes on with the rest otherwise.
pub proof fn law_what_was_learned_decides(st: ScenarioV, cfg: ScenarioConfig)
    ensures
        st.stage is Rename ==> (next_stage(st, cfg) is StartDisposable <==> cfg.exercise_mutations),
        st.stage is Rename && !cfg.exercise_mutations ==> next_stage(st, cfg) is Exec,
        st.stage is StartDisposable ==> (next_stage(st, cfg) is SeedTurn <==> st.disposable
            is Some),
        st.stage is StartDisposable && st.disposable is None ==> next_stage(st, cfg) is Exec,
        st.stage is Interruptible ==> (next_stage(st, cfg) is Pause <==> st.ended_by == Some(
            "item/agentMessage/delta"@,
        )),
        st.stage is Interruptible && st.ended_by != Some("item/agentMessage/delta"@)
            ==> next_stage(st, cfg) is TurnsList,
        st.stage is Pause ==> (next_stage(st, cfg) is Steer <==> st.ctx.interrupted_turn_id
            is Some),
        st.stage is ThreadList ==> (next_stage(st, cfg) is Load <==> cfg.reuse_thread_cache),
        st.stage is Load ==> (next_stage(st, cfg) is ResumeCached <==> st.cached is Some),
        st.stage is Load && st.cached is None ==> next_stage(st, cfg) is StartThread,
        st.stage is Exec ==> next_stage(st, cfg) is Finished,
        st.stage is Abandon ==> next_stage(st, cfg) is Failed,
{
}

/// The thread that a run attaches to is the thread of its turns; a run that attaches to
/// none is over. It is remembered only where that is wanted and it is a new one.
pub proof fn law_the_attached_thread_is_used(st: ScenarioV, cfg: ScenarioConfig)
    requires
        st.stage is StartThread || st.stage is ResumeCached,
    ensures
        st.attached matches Some(id) ==> moved_on(st, cfg).ctx.thread_id == Some(id),
        st.attached is None ==> moved_on(st, cfg).stage is Finished,
        st.attached is Some ==> (moved_on(st, cfg).stage is Save <==> cfg.reuse_thread_cache
            && st.cached != st.attached),
        st.attached is Some ==> moved_on(st, cfg).stage is Save || moved_on(st, cfg).stage is Turn,
{
}

/// What a response teaches is what it says: the id of the thread, of the fork or of the
/// turn, and how many turns there were.
pub proof fn law_responses_teach(st: ScenarioV, response: JsonV, thing: JsonV, id: Seq<char>)
    requires
        thing.get("id"@) == Some(JsonV::Str(id)),
    ensures
        response.get2("result"@, "thread"@) == Some(thing) ==> {
            &&& st.stage is StartThread ==> learned(st, response).attached == Some(id)
            &&& st.stage is StartDisposable ==> learned(st, response).disposable == Some(id)
                && learned(st, response).ctx.disposable_thread_id == Some(id)
            &&& st.stage is Fork ==> learned(st, response).ctx.forked_thread_id == Some(id)
        },
        response.get2("result"@, "turn"@) == Some(thing) ==> (st.stage is Interruptible ==> learned(
            st,
            response,
        ).ctx.interrupted_turn_id == Some(id)),
        st.stage is ResumeCached ==> learned(st, response).attached == st.cached,
        response.get2("result"@, "thread"@) == Some(thing) ==> result_id(response, "thread"@)
            == Some(id),
        response.get2("result"@, "thread"@) == Some(thing) ==> (thing.get("turns"@) matches Some(
            JsonV::Arr(a),
        ) ==> result_turns(response) == Some(a.len())),
{
}

// ---------------------------------------------------------------------------
// What is recorded
// ---------------------------------------------------------------------------
/// A step is named after the method that it calls.
pub proof fn law_steps_are_named_after_their_method(stage: Stage)
    ensures
        begins(step_of(stage), method_of(stage)),
{
    reveal_strlit("initialize");
    reveal_strlit("thread/list");
    reveal_strlit("thread/resume");
    reveal_strlit("thread/start");
    reveal_strlit("turn/start");
    reveal_strlit("thread/read");
    reveal_strlit("turn/start.tool");
    reveal_strlit("thread/read.afterTool");
    reveal_strlit("thread/name/set");
    reveal_strlit("thread/start.disposable");
    reveal_strlit("turn/start.disposableSeed");
    reveal_strlit("thread/list.disposable");
    reveal_strlit("turn/start.interruptible");
    reveal_strlit("thread/read.beforeRollback");
    reveal_strlit("command/exec");
    reveal_strlit("command/exec.streaming");
    reveal_strlit("thread/list.archived");
    reveal_strlit("thread/list.unarchived");
    let s = step_of(stage);
    let m = method_of(stage);
    assert(s.take(m.len() as int) =~= m);
}

/// Notifications are recorded as they come, in order, under the step that they come in
/// and their own method.
pub proof fn law_notifications_are_recorded(step: Seq<char>, a: Seq<JsonV>, b: Seq<JsonV>, v: JsonV)
    ensures
        note_frames(step, a + b) == note_frames(step, a) + note_frames(step, b),
        note_frames(step, seq![v]) == seq![note_frame(step, v)],
        note_frame(step, v).step == step,
        note_frame(step, v).raw == v,
        note_frame(step, v).kind == FrameKind::Notification,
        v.get("method"@) matches Some(JsonV::Str(m)) ==> note_frame(step, v).method == m,
{
    assert(note_frames(step, a + b) =~= note_frames(step, a) + note_frames(step, b));
    assert(note_frames(step, seq![v]) =~= seq![note_frame(step, v)]);
}

/// A response is recorded before the notifications that came with it.
pub proof fn law_responses_come_first(
    st: ScenarioV,
    cfg: ScenarioConfig,
    response: JsonV,
    notes: Seq<JsonV>,
)
    requires
        !(st.stage is ResumeCached),
    ensures
        ({
            let t = after_reply(st, cfg, response, notes);
            let n = st.frames.len() as int;
            &&& t.frames.len() == n + 1 + notes.len()
            &&& t.frames[n] == (FrameV {
                step: step_of(st.stage),
                kind: FrameKind::Response,
                method: method_of(st.stage),
                raw: response,
            })
            &&& forall|i: int|
                0 <= i < notes.len() ==> #[trigger] t.frames[n + 1 + i] == note_frame(
                    step_of(st.stage),
                    notes[i],
                )
        }),
{
    let t = after_reply(st, cfg, response, notes);
    let n = st.frames.len() as int;
    assert forall|i: int| 0 <= i < notes.len() implies #[trigger] t.frames[n + 1 + i]
        == note_frame(step_of(st.stage), notes[i]) by {
        assert(note_frames(step_of(st.stage), notes)[i] == note_frame(
            step_of(st.stage),
            notes[i],
        ));
    }
}

/// A thread of earlier runs that is refused is forgotten, and nothing is recorded.
pub proof fn law_refused_resume_starts_over(
    st: ScenarioV,
    cfg: ScenarioConfig,
    response: JsonV,
    notes: Seq<JsonV>,
)
    requires
        st.stage is ResumeCached,
        response.get("error"@) is Some,
    ensures
        after_reply(st, cfg, response, notes).stage is Clear,
        after_reply(st, cfg, response, notes).frames == st.frames,
        action_of(
            ScenarioV { settling: false, ..after_reply(st, cfg, response, notes) },
            cfg,
        ) == ActionV::ClearThread,
{
}

/// Turns are waited for until they end, and the turn that is to be interrupted until it
/// begins to answer.
pub proof fn law_turns_are_waited_for(stage: Stage)
    ensures
        stage is Turn || stage is ToolTurn || stage is SeedTurn || stage is Interrupt ==> tail_of(
            stage,
        ) is UntilDone,
        stage is Interruptible <==> tail_of(stage) is UntilDelta,
        tail_of(stage) is UntilDone ==> stage is Turn || stage is ToolTurn || stage is SeedTurn
            || stage is Interrupt,
{
}

// ---------------------------------------------------------------------------
// Failures
// ---------------------------------------------------------------------------
/// A failure ends a run, but the spare thread is archived first if there is one; a thread
/// of earlier runs that cannot be resumed is forgotten instead.
pub proof fn law_failures_end_a_run(st: ScenarioV)
    ensures
        st.stage is ResumeCached && !st.settling ==> after_failure(st).stage is Clear,
        is_mutation(st.stage) && st.disposable is Some ==> after_failure(st).stage is Abandon,
        !is_mutation(st.stage) && !(st.stage is ResumeCached) ==> after_failure(st).stage
            is Failed,
        is_mutation(st.stage) && st.disposable is None ==> after_failure(st).stage is Failed,
        after_failure(st).frames == st.frames,
        !after_failure(st).settling,
{
}

/// A refusal is told by its code and its words.
pub proof fn law_refusals_are_read(response: JsonV, error: JsonV, code: i64, message: Seq<char>)
    requires
        response.get("error"@) == Some(error),
        error.get("code"@) == Some(JsonV::Int(code as int)),
        error.get("message"@) == Some(JsonV::Str(message)),
    ensures
        error_in(response) == Some((code as int, message)),
{
}

/// What came through is no refusal.
pub proof fn law_results_are_no_refusals(response: JsonV)
    requires
        response.get("error"@) is None,
    ensures
        error_in(response) is None,
{
}

/// The first notification of a list that ends a wait is what ended it.
pub proof fn law_the_first_stop_counts(
    a: Seq<JsonV>,
    b: Seq<JsonV>,
    stops: Seq<&'static str>,
    v: JsonV,
    m: Seq<char>,
)
    requires
        v.get("method"@) == Some(JsonV::Str(m)),
    ensures
        first_stop(a, stops) is Some ==> first_stop(a + b, stops) == first_stop(a, stops),
        first_stop(a, stops) is None ==> first_stop(a + b, stops) == first_stop(b, stops),
        listed(stops, m) ==> first_stop(seq![v], stops) == Some(m),
        !listed(stops, m) ==> first_stop(seq![v], stops) is None,
        first_stop(a, stops) is None && !listed(stops, "turn/completed"@) ==> prior_terminal(
            a,
            stops,
        ) is None,
    decreases a.len(),
{
    assert(seq![v].skip(1) =~= Seq::empty());
    assert(first_stop(seq![v].skip(1), stops) is None);
    if a.len() == 0 {
        assert(a + b =~= b);
    } else {
        assert((a + b)[0] == a[0]);
        assert((a + b).skip(1) =~= a.skip(1) + b);
        law_the_first_stop_counts(a.skip(1), b, stops, v, m);
    }
}

/// Events that come when a run is over change nothing.
pub proof fn law_a_run_that_is_over_stays_over(st: ScenarioV, cfg: ScenarioConfig, e: Event)
    requires
        st.stage is Finished || st.stage is Failed,
        !st.settling,
    ensures
        advanced(st, cfg, e).stage == st.stage,
        advanced(st, cfg, e).frames == st.frames,
{
}

} // verus!
