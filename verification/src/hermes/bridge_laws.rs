//! Laws of the bridge: how a turn opens and ends, what is asked of the gateway, and what
//! is answered at once.

use vstd::prelude::*;

use super::api_client::{
    ApprovalChoice, CreateRunRequest, created_run, run_url, without_slashes,
};
use super::bridge::{
    DEFAULT_COMMAND_TIMEOUT_MS, LONGEST_COMMAND_TIMEOUT_MS, TurnRoute, command_refusal,
    command_timeout, end_publication, fixed_answer, log_ended, log_item, route_of, runs_ended,
    shown_output, start_publications, starting_record, synthetic_publications,
};
use super::config::{HermesMode, key_in_line, key_in_lines};
use super::input::{preview_of, text_parts, truncated};
use super::run_state::{HermesTurnStatus, RunsV};
use crate::codex::command_exec::CommandExecParams;
use crate::codex::methods::Method;
use crate::codex::thread::{
    ItemV, TurnStatus, TurnV, UserInputV, fresh_turn, item_json, turn_model,
};
use crate::json::{JsonV, ToJson};
use crate::rpc::{METHOD_NOT_FOUND, ReplyV};
use crate::text::{begins, ends, lossy, tag, trimmed};

verus! {

// ---------------------------------------------------------------------------
// How a turn opens and ends
// ---------------------------------------------------------------------------
proof fn lemma_keys()
    ensures
        tag("threadId"@) == (8nat, 't', 'h'),
        tag("turnId"@) == (6nat, 't', 'u'),
        tag("itemId"@) == (6nat, 'i', 't'),
        tag("item"@) == (4nat, 'i', 't'),
        tag("turn"@) == (4nat, 't', 'u'),
        tag("delta"@) == (5nat, 'd', 'e'),
{
    reveal_strlit("threadId");
    reveal_strlit("turnId");
    reveal_strlit("itemId");
    reveal_strlit("item");
    reveal_strlit("turn");
    reveal_strlit("delta");
}

/// A turn opens with its start, in progress, and then the message of the user, which is
/// started before it is finished and is the same both times.
pub proof fn law_turns_open_in_order(thread: Seq<char>, turn: Seq<char>, item: ItemV, now: i64)
    ensures
        ({
            let all = start_publications(thread, turn, item, now);
            &&& all.len() == 3
            &&& all[0].method == "turn/started"@
            &&& all[0].params.get("threadId"@) == Some(JsonV::Str(thread))
            &&& all[0].params.get("turn"@) == Some(
                turn_model(fresh_turn(turn, TurnStatus::InProgress, Some(now))),
            )
            &&& all[1].method == "item/started"@
            &&& all[2].method == "item/completed"@
            &&& all[1].params.get("item"@) == Some(item_json(item))
            &&& all[1].params.get("threadId"@) == Some(JsonV::Str(thread))
            &&& all[1].params.get("turnId"@) == Some(JsonV::Str(turn))
            &&& all[2].params == all[1].params
        }),
{
    lemma_keys();
}

/// A turn ends as failed, with the reason, exactly if there is one.
pub proof fn law_ends_say_how(
    thread: Seq<char>,
    turn: Seq<char>,
    error: Option<Seq<char>>,
    now: i64,
)
    ensures
        ({
            let p = end_publication(thread, turn, error, now);
            &&& p.method == "turn/completed"@
            &&& p.params.get("threadId"@) == Some(JsonV::Str(thread))
            &&& exists|t: TurnV|
                {
                    &&& p.params.get("turn"@) == Some(#[trigger] turn_model(t))
                    &&& t.id == turn
                    &&& t.error == error
                    &&& t.completed_at == Some(now)
                    &&& error is Some <==> t.status == TurnStatus::Failed
                    &&& error is None <==> t.status == TurnStatus::Completed
                }
        }),
{
    lemma_keys();
    let status = if error is Some {
        TurnStatus::Failed
    } else {
        TurnStatus::Completed
    };
    let t = TurnV {
        error,
        completed_at: Some(now),
        ..fresh_turn(turn, status, Some(now))
    };
    assert(end_publication(thread, turn, error, now).params.get("turn"@) == Some(turn_model(t)));
}

/// A turn that is answered in one piece is told as if it had been streamed: the message
/// is started empty, gets the whole text, is complete with the whole text, and then the
/// turn ends well.
pub proof fn law_answers_in_one_piece(
    thread: Seq<char>,
    turn: Seq<char>,
    item: Seq<char>,
    text: Seq<char>,
    now: i64,
)
    ensures
        ({
            let all = synthetic_publications(thread, turn, item, text, now);
            &&& all.len() == 4
            &&& all[0].method == "item/started"@
            &&& all[0].params.get("item"@) == Some(
                item_json(ItemV::AgentMessage { id: item, text: Seq::empty() }),
            )
            &&& all[1].method == "item/agentMessage/delta"@
            &&& all[1].params.get("delta"@) == Some(JsonV::Str(text))
            &&& all[1].params.get("itemId"@) == Some(JsonV::Str(item))
            &&& all[2].method == "item/completed"@
            &&& all[2].params.get("item"@) == Some(
                item_json(ItemV::AgentMessage { id: item, text }),
            )
            &&& all[3] == end_publication(thread, turn, None, now)
            &&& forall|i: int|
                0 <= i < 4 ==> (#[trigger] all[i]).params.get("threadId"@) == Some(
                    JsonV::Str(thread),
                )
            &&& forall|i: int|
                0 <= i < 3 ==> (#[trigger] all[i]).params.get("turnId"@) == Some(JsonV::Str(turn))
        }),
{
    lemma_keys();
}

/// A turn that is about to be asked for is owed an outcome, has no run yet, and has said
/// nothing yet.
pub proof fn law_starting_turns_are_owed_an_outcome(
    thread: Seq<char>,
    turn: Seq<char>,
    session: Seq<char>,
    item: Seq<char>,
    now: i64,
)
    ensures
        ({
            let r = starting_record(thread, turn, session, item, now);
            &&& r.status == HermesTurnStatus::Starting
            &&& r.status.in_flight() && !r.status.terminal()
            &&& r.thread_id == thread && r.turn_id == turn && r.hermes_session_id == session
            &&& r.run_id is None && r.error is None && r.completed_at is None
            &&& r.agent_item_id == Some(item)
            &&& r.accumulated_text.len() == 0
            &&& r.created_at == now && r.updated_at == now
        }),
{
}

/// The end of a turn and an item of it concern the log of its thread alone.
pub proof fn law_logs_of_other_threads_stay(
    log: Map<Seq<char>, Seq<TurnV>>,
    thread: Seq<char>,
    turn: Seq<char>,
    error: Option<Seq<char>>,
    item: ItemV,
    now: i64,
    other: Seq<char>,
)
    requires
        other != thread,
    ensures
        log_ended(log, thread, turn, error, now).dom() == log.dom(),
        log_ended(log, thread, turn, error, now)[other] == log[other],
        log_item(log, thread, turn, item).dom() == log.dom(),
        log_item(log, thread, turn, item)[other] == log[other],
{
    assert(log_ended(log, thread, turn, error, now).dom() =~= log.dom());
    assert(log_item(log, thread, turn, item).dom() =~= log.dom());
}

/// The outcome of a turn concerns its own record alone, and the first one counts.
pub proof fn law_outcomes_are_local(
    s: RunsV,
    turn: Seq<char>,
    status: HermesTurnStatus,
    error: Option<Seq<char>>,
    text: Option<Seq<char>>,
    now: i64,
    other: Seq<char>,
)
    requires
        other != turn,
    ensures
        ({
            let after = runs_ended(s, turn, status, error, text, now);
            &&& after.by_turn.dom() == s.by_turn.dom()
            &&& after.by_turn[other] == s.by_turn[other]
            &&& after.by_run == s.by_run
            &&& s.by_turn.dom().contains(turn) && !s.by_turn[turn].status.terminal()
                ==> after.by_turn[turn].status == status && after.by_turn[turn].error == error
                && after.by_turn[turn].completed_at == Some(now)
            &&& s.by_turn.dom().contains(turn) && s.by_turn[turn].status.terminal()
                ==> after.by_turn[turn].status == s.by_turn[turn].status
                && after.by_turn[turn].error == s.by_turn[turn].error
        }),
{
    assert(runs_ended(s, turn, status, error, text, now).by_turn.dom() =~= s.by_turn.dom());
}

/// The gateway carries turns out in its own mode always, never in the mode of the
/// program, and in the automatic mode exactly while it is healthy.
pub proof fn law_who_carries_a_turn_out(mode: HermesMode, healthy: bool)
    ensures
        mode is Api ==> route_of(mode, healthy) == TurnRoute::Api,
        mode is Cli ==> route_of(mode, healthy) == TurnRoute::Cli,
        mode is Auto ==> (route_of(mode, healthy) == TurnRoute::Api <==> healthy),
        mode is Auto ==> (route_of(mode, healthy) == TurnRoute::Cli <==> !healthy),
{
}

// ---------------------------------------------------------------------------
// What is asked
// ---------------------------------------------------------------------------
/// The prompt is made of the texts of the input, in order; other parts leave nothing in
/// it.
pub proof fn law_texts_of_an_input(a: Seq<UserInputV>, b: Seq<UserInputV>, u: UserInputV)
    ensures
        text_parts(a + b) == text_parts(a) + text_parts(b),
        u matches UserInputV::Text { text, .. } ==> text_parts(seq![u]) == seq![text],
        u !is Text ==> text_parts(seq![u]) == Seq::<Seq<char>>::empty(),
    decreases b.len(),
{
    let one = seq![u];
    assert(one.drop_last() =~= Seq::empty());
    assert(one.last() == u);
    assert(text_parts(one.drop_last()) =~= Seq::empty());
    if u is Text {
        assert(text_parts(one) =~= seq![u->Text_text]);
    }
    if b.len() == 0 {
        assert(a + b =~= a);
        assert(text_parts(b) =~= Seq::empty());
        assert(text_parts(a) + text_parts(b) =~= text_parts(a));
    } else {
        law_texts_of_an_input(a, b.drop_last(), u);
        assert((a + b).drop_last() =~= a + b.drop_last());
        assert((a + b).last() == b.last());
        assert(text_parts(a + b) =~= text_parts(a) + text_parts(b));
    }
}

/// The preview of a prompt is its beginning without the blanks around it: all of it if it
/// is short. A blank prompt has none.
pub proof fn law_previews(text: Seq<char>)
    ensures
        preview_of(text) is None <==> trimmed(text).len() == 0,
        preview_of(text) matches Some(p) ==> begins(trimmed(text), p) && p.len() <= 120,
        preview_of(text) matches Some(p) ==> (trimmed(text).len() <= 120 ==> p == trimmed(text)),
        preview_of(text) matches Some(p) ==> (trimmed(text).len() > 120 ==> p.len() == 120),
{
    if let Some(p) = preview_of(text) {
        let t = trimmed(text);
        assert(t.take(p.len() as int) =~= p);
    }
}

/// A run is asked for with the prompt, and with a session, a directory and a model exactly
/// where they are given.
pub proof fn law_run_requests(r: CreateRunRequest)
    ensures
        r.json().get("input"@) == Some(JsonV::Str(r.input@)),
        r.json().get("session_id"@) == (match r.session_id {
            Some(x) => Some(JsonV::Str(x@)),
            None => None,
        }),
        r.json().get("cwd"@) == (match r.cwd {
            Some(x) => Some(JsonV::Str(x@)),
            None => None,
        }),
        r.json().get("model"@) == (match r.model {
            Some(x) => Some(JsonV::Str(x@)),
            None => None,
        }),
{
    reveal_strlit("input");
    reveal_strlit("session_id");
    reveal_strlit("cwd");
    reveal_strlit("model");
    assert("input"@[0] == 'i' && "model"@[0] == 'm' && "cwd"@.len() == 3);
    assert("session_id"@.len() == 10 && "input"@.len() == 5 && "model"@.len() == 5);
}

/// The id of a run is read under either of its names, but not if both are there; without
/// one there is no run.
pub proof fn law_created_runs_are_read(v: JsonV, run: Seq<char>)
    requires
        v.get("session_id"@) is None,
        v.get("sessionId"@) is None,
    ensures
        v.get("run_id"@) == Some(JsonV::Str(run)) && v.get("runId"@) is None ==> created_run(v)
            == Some((run, None::<Seq<char>>)),
        v.get("run_id"@) is None && v.get("runId"@) == Some(JsonV::Str(run)) ==> created_run(v)
            == Some((run, None::<Seq<char>>)),
        v.get("run_id"@) is None && v.get("runId"@) is None ==> created_run(v) is None,
        v.get("run_id"@) is Some && v.get("runId"@) is Some ==> created_run(v) is None,
{
}

/// The session of a run is read with it.
pub proof fn law_created_sessions_are_read(v: JsonV, run: Seq<char>, session: Seq<char>)
    requires
        v.get("run_id"@) == Some(JsonV::Str(run)),
        v.get("runId"@) is None,
    ensures
        v.get("session_id"@) == Some(JsonV::Str(session)) && v.get("sessionId"@) is None
            ==> created_run(v) == Some((run, Some(session))),
        v.get("session_id"@) is None && v.get("sessionId"@) == Some(JsonV::Str(session))
            ==> created_run(v) == Some((run, Some(session))),
{
}

/// Everything about a run stands below the address of the gateway and the name of the
/// run, and the address has no slash at its end however many it was given with.
pub proof fn law_addresses(base: Seq<char>, run: Seq<char>, tail: Seq<char>)
    ensures
        begins(run_url(base, run, tail), base + "/v1/runs/"@ + run),
        ends(run_url(base, run, tail), tail),
        without_slashes(base).len() > 0 ==> without_slashes(base).last() != '/',
        begins(base, without_slashes(base)),
        without_slashes(base.push('/')) == without_slashes(base),
        base.len() > 0 && base.last() != '/' ==> without_slashes(base) == base,
    decreases base.len(),
{
    let head = base + "/v1/runs/"@ + run;
    let url = run_url(base, run, tail);
    assert(url.take(head.len() as int) =~= head);
    assert(url.skip(head.len() as int) =~= tail);
    assert(base.push('/').drop_last() =~= base);
    if base.len() > 0 && base.last() == '/' {
        law_addresses(base.drop_last(), run, tail);
        let w = without_slashes(base);
        assert(base.take(w.len() as int) =~= base.drop_last().take(w.len() as int));
    } else {
        assert(base.take(base.len() as int) =~= base);
    }
}

/// The four answers to an approval request have the names that the gateway expects.
pub proof fn law_approval_names()
    ensures
        ApprovalChoice::Once.name() == "once"@,
        ApprovalChoice::Session.name() == "session"@,
        ApprovalChoice::Always.name() == "always"@,
        ApprovalChoice::Deny.name() == "deny"@,
{
}

/// The key of the gateway is that of the first line that gives one.
pub proof fn law_first_key_counts(a: Seq<Seq<char>>, b: Seq<Seq<char>>)
    ensures
        key_in_lines(a) is Some ==> key_in_lines(a + b) == key_in_lines(a),
        key_in_lines(a) is None ==> key_in_lines(a + b) == key_in_lines(b),
        a.len() > 0 && key_in_line(a[0]) is Some ==> key_in_lines(a) == key_in_line(a[0]),
    decreases a.len(),
{
    if a.len() == 0 {
        assert(a + b =~= b);
    } else {
        assert((a + b)[0] == a[0]);
        assert((a + b).skip(1) =~= a.skip(1) + b);
        law_first_key_counts(a.skip(1), b);
    }
}

/// A key is never empty, and a line that is blank, a comment, or about something else
/// gives none.
pub proof fn law_other_lines_give_no_key(line: Seq<char>)
    ensures
        key_in_line(line) matches Some(k) ==> k.len() > 0,
        trimmed(line).len() == 0 ==> key_in_line(line) is None,
        begins(trimmed(line), "#"@) ==> key_in_line(line) is None,
        !begins(trimmed(line), "API_SERVER_KEY="@) ==> key_in_line(line) is None,
{
}

// ---------------------------------------------------------------------------
// Commands
// ---------------------------------------------------------------------------
/// A command is executed exactly if there is one and nothing is asked for that needs a
/// terminal or a stream.
pub proof fn law_commands_are_refused(p: CommandExecParams)
    ensures
        p.command@.len() == 0 ==> command_refusal(p) is Some,
        p.tty ==> command_refusal(p) is Some,
        p.stream_stdin ==> command_refusal(p) is Some,
        p.stream_stdout_stderr ==> command_refusal(p) is Some,
        p.process_id is Some ==> command_refusal(p) is Some,
        p.command@.len() > 0 && !p.tty && !p.stream_stdin && !p.stream_stdout_stderr
            && p.process_id is None ==> command_refusal(p) is None,
{
}

/// A command gets the time that it is given, but at least a millisecond and at most five
/// minutes, and half a minute if nothing is said; only where limits are switched off it
/// has none.
pub proof fn law_commands_are_limited(p: CommandExecParams)
    ensures
        p.disable_timeout <==> command_timeout(p) is None,
        command_timeout(p) matches Some(t) ==> 1 <= t <= 300_000,
        !p.disable_timeout && p.timeout_ms is None ==> command_timeout(p) == Some(30_000int),
        !p.disable_timeout ==> (p.timeout_ms matches Some(t) ==> (1 <= t <= 300_000
            ==> command_timeout(p) == Some(t as int))),
        !p.disable_timeout ==> (p.timeout_ms matches Some(t) ==> (t > 300_000 ==> command_timeout(
            p,
        ) == Some(300_000int))),
        DEFAULT_COMMAND_TIMEOUT_MS <= LONGEST_COMMAND_TIMEOUT_MS,
{
}

/// Output is shown whole where it is not capped or fits, and else as its beginning with a
/// note.
pub proof fn law_output_is_capped(p: CommandExecParams, bytes: Seq<u8>, cap: usize)
    ensures
        p.disable_output_cap ==> shown_output(p, bytes) == lossy(bytes),
        !p.disable_output_cap && p.output_bytes_cap == Some(cap) ==> shown_output(p, bytes)
            == truncated(lossy(bytes), cap as nat),
        super::input::byte_len(lossy(bytes)) <= cap ==> truncated(lossy(bytes), cap as nat)
            == lossy(bytes),
        super::input::byte_len(lossy(bytes)) > cap ==> ends(
            truncated(lossy(bytes), cap as nat),
            "\n...[truncated]"@,
        ),
{
    let s = lossy(bytes);
    let note = "\n...[truncated]"@;
    let kept = s.take(super::input::fitting(s, cap as int));
    assert((kept + note).skip(kept.len() as int) =~= note);
}

// ---------------------------------------------------------------------------
// What is answered at once
// ---------------------------------------------------------------------------
/// What needs a thread, a turn or a command is never answered at once.
pub proof fn law_work_is_not_answered_at_once(m: Method, params: JsonV, now: i64)
    requires
        m is ThreadStart || m is ThreadResume || m is ThreadFork || m
            is ThreadList || m is ThreadLoadedList || m is ThreadRead || m is ThreadTurnsList || m
            is ThreadArchive || m is ThreadUnarchive || m is ThreadNameSet || m is TurnStart || m
            is TurnInterrupt || m is CommandExec,
    ensures
        fixed_answer(m, params, now) is None,
{
}

/// What is answered at once tells nobody and stores nothing; compaction, rollback and
/// review are refused as unknown, and whatever else is refused is one of these.
pub proof fn law_answers_at_once_change_nothing(m: Method, params: JsonV, now: i64)
    ensures
        fixed_answer(m, params, now) matches Some(h) ==> h.notify.len() == 0 && !h.persist,
        m is ThreadCompactStart || m is ThreadRollback || m is ReviewStart ==> (fixed_answer(
            m,
            params,
            now,
        ) matches Some(h) && (h.reply matches ReplyV::Refused(code, _) && code
            == METHOD_NOT_FOUND)),
        fixed_answer(m, params, now) matches Some(h) ==> (h.reply is Refused ==> m
            is ThreadCompactStart || m is ThreadRollback || m is ReviewStart),
{
}

} // verus!
