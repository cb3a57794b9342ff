//! Laws of how a run is carried to its outcome: what its events lead to, what polling
//! its status leads to, and what is recorded and told at the end.

use vstd::prelude::*;

use super::api_client::{ApprovalChoice, HermesEventV};
use super::event_store::next_number;
use super::run_manager::{
    NextV, OutcomeV, PollReply, RunIdsV, choice_in, event_noted, outcome_noted,
    poll_result, polled_text, recorded, resolve_all_in, started_publication,
    terminal_publications, translation,
};
use super::run_state::{HermesTurnStatus, RunsV};
use crate::codex::thread::{ItemV, TurnStatus, TurnV, item_json, turn_model};
use crate::json::JsonV;
use crate::rpc::PublicationV;
use crate::text::{ascii_lowered, begins, ends, trimmed};

verus! {

// ---------------------------------------------------------------------------
// Polling
// ---------------------------------------------------------------------------
/// A poll never makes a good end up: a run is completed only if the gateway says that it
/// is over and completed, and cancelled only if it says that it is over and cancelled.
pub proof fn law_good_ends_are_reported(
    reply: PollReply,
    time_is_up: bool,
    sse_error: Seq<char>,
    text: Seq<char>,
)
    ensures
        poll_result(reply, time_is_up, sse_error, text) matches Some(OutcomeV::Completed { .. })
            ==> (reply matches PollReply::Status { terminal, status, .. } && terminal && status@
            == "completed"@),
        poll_result(reply, time_is_up, sse_error, text) == Some(OutcomeV::Cancelled) ==> (
        reply matches PollReply::Status { terminal, status, .. } && terminal && status@
            == "cancelled"@),
{
    lemma_status_words();
}

proof fn lemma_status_words()
    ensures
        "completed"@ != "cancelled"@,
{
    reveal_strlit("completed");
    reveal_strlit("cancelled");
    assert("completed"@[1] == 'o' && "cancelled"@[1] == 'a');
}

/// A run that the gateway says is over has the outcome that the gateway says: it is
/// completed with the text that is known of it, cancelled, or, in any other status,
/// failed, with the error of the gateway where it gives one.
pub proof fn law_reported_ends_are_kept(
    reply: PollReply,
    time_is_up: bool,
    sse_error: Seq<char>,
    text: Seq<char>,
    status: String,
    output: Option<String>,
    error: Option<String>,
)
    requires
        reply == (PollReply::Status { terminal: true, status, output, error }),
    ensures
        status@ == "completed"@ ==> (poll_result(reply, time_is_up, sse_error, text) matches Some(
            OutcomeV::Completed { accumulated_text },
        ) && accumulated_text == polled_text(reply, text)),
        status@ == "cancelled"@ ==> poll_result(reply, time_is_up, sse_error, text) == Some(
            OutcomeV::Cancelled,
        ),
        status@ != "completed"@ && status@ != "cancelled"@ ==> poll_result(
            reply,
            time_is_up,
            sse_error,
            text,
        ) matches Some(OutcomeV::Failed { .. }),
        status@ != "completed"@ && status@ != "cancelled"@ && error is Some ==> poll_result(
            reply,
            time_is_up,
            sse_error,
            text,
        ) == Some(OutcomeV::Failed { error: error->0@ }),
        status@ != "completed"@ && status@ != "cancelled"@ && error is None ==> (poll_result(
            reply,
            time_is_up,
            sse_error,
            text,
        ) matches Some(OutcomeV::Failed { error: e }) && ends(e, status@)),
{
    lemma_status_words();
    if status@ != "completed"@ && status@ != "cancelled"@ && error is None {
        let lead = "Hermes run terminal status="@;
        assert((lead + status@).skip(lead.len() as int) =~= status@);
    }
}

/// A run that the gateway lost has failed, at once. One that is not over yet, or of which
/// nothing could be learned, has no outcome while there is time, and has failed when
/// there is none. Both failures begin with what went wrong in the first place.
pub proof fn law_unfinished_runs_wait(
    reply: PollReply,
    time_is_up: bool,
    sse_error: Seq<char>,
    text: Seq<char>,
)
    requires
        reply matches PollReply::Status { terminal, .. } ==> !terminal,
    ensures
        reply is Missing ==> (poll_result(reply, time_is_up, sse_error, text) matches Some(
            OutcomeV::Failed { error },
        ) && begins(error, sse_error)),
        reply !is Missing && !time_is_up ==> poll_result(reply, time_is_up, sse_error, text) is None,
        reply !is Missing && time_is_up ==> (poll_result(
            reply,
            time_is_up,
            sse_error,
            text,
        ) matches Some(OutcomeV::Failed { error }) && begins(error, sse_error)),
        polled_text(reply, text) == text,
{
    let lost = sse_error + "; gateway lost run record"@;
    let late = sse_error + "; status poll did not observe terminal state within 30s"@;
    assert(lost.take(sse_error.len() as int) =~= sse_error);
    assert(late.take(sse_error.len() as int) =~= sse_error);
}

/// Text that was streamed is never replaced; where there was none, the output of a run
/// that is over takes its place.
pub proof fn law_polling_keeps_the_text(
    reply: PollReply,
    text: Seq<char>,
)
    ensures
        text.len() > 0 ==> polled_text(reply, text) == text,
        text.len() == 0 ==> (reply matches PollReply::Status {
            terminal: true,
            output: Some(out),
            ..
        } ==> polled_text(reply, text) == out@),
        (reply matches PollReply::Status { terminal: false, .. }) ==> polled_text(reply, text)
            == text,
{
}

// ---------------------------------------------------------------------------
// Events
// ---------------------------------------------------------------------------
proof fn lemma_event_names()
    ensures
        "message.delta"@ != "run.completed"@,
        "message.delta"@ != "run.failed"@,
        "message.delta"@ != "run.cancelled"@,
        "message.delta"@ != "approval.request"@,
        "message.delta"@ != "approval.responded"@,
        "run.completed"@ != "run.failed"@,
        "run.completed"@ != "run.cancelled"@,
        "run.failed"@ != "run.cancelled"@,
        "approval.request"@ != "run.completed"@,
        "approval.request"@ != "run.failed"@,
        "approval.request"@ != "run.cancelled"@,
        "approval.request"@ != "approval.responded"@,
        "approval.responded"@ != "run.completed"@,
        "approval.responded"@ != "run.failed"@,
        "approval.responded"@ != "run.cancelled"@,
{
    reveal_strlit("message.delta");
    reveal_strlit("run.completed");
    reveal_strlit("run.failed");
    reveal_strlit("run.cancelled");
    reveal_strlit("approval.request");
    reveal_strlit("approval.responded");
    assert("message.delta"@[0] == 'm');
    assert("run.completed"@[0] == 'r' && "run.completed"@[5] == 'o');
    assert("run.failed"@.len() == 10);
    assert("run.cancelled"@[0] == 'r' && "run.cancelled"@[5] == 'a');
    assert("approval.request"@.len() == 16);
    assert("approval.responded"@.len() == 18);
}

proof fn lemma_publication_keys()
    ensures
        "threadId"@ != "turnId"@,
        "threadId"@ != "itemId"@,
        "threadId"@ != "delta"@,
        "turnId"@ != "itemId"@,
        "turnId"@ != "delta"@,
        "itemId"@ != "delta"@,
        "item"@ != "threadId"@,
        "item"@ != "turnId"@,
        "turn"@ != "threadId"@,
        "thread_id"@ != "turn_id"@,
        "thread_id"@ != "run_id"@,
        "thread_id"@ != "data"@,
        "thread_id"@ != "event"@,
        "turn_id"@ != "run_id"@,
        "turn_id"@ != "data"@,
        "turn_id"@ != "event"@,
        "run_id"@ != "data"@,
        "run_id"@ != "event"@,
        "event"@ != "data"@,
{
    reveal_strlit("threadId");
    reveal_strlit("turnId");
    reveal_strlit("itemId");
    reveal_strlit("delta");
    reveal_strlit("item");
    reveal_strlit("turn");
    reveal_strlit("thread_id");
    reveal_strlit("turn_id");
    reveal_strlit("run_id");
    reveal_strlit("data");
    reveal_strlit("event");
    assert("threadId"@.len() == 8 && "turnId"@.len() == 6 && "itemId"@.len() == 6);
    assert("turnId"@[0] == 't' && "itemId"@[0] == 'i' && "delta"@.len() == 5);
    assert("item"@.len() == 4 && "turn"@.len() == 4);
    assert("thread_id"@.len() == 9 && "turn_id"@.len() == 7 && "run_id"@.len() == 6);
    assert("data"@.len() == 4 && "event"@.len() == 5);
}

/// A piece of text is added at the end of the text so far, and told as it is, under the
/// thread, the turn and the message that it belongs to; the run goes on.
pub proof fn law_deltas_are_added_and_told(
    ids: RunIdsV,
    text: Seq<char>,
    auto_approve: bool,
    data: JsonV,
    d: Seq<char>,
)
    requires
        data.get("delta"@) == Some(JsonV::Str(d)) || (data.get("delta"@) is None && data.get(
            "text"@,
        ) == Some(JsonV::Str(d))),
    ensures
        ({
            let t = translation(
                ids,
                text,
                auto_approve,
                HermesEventV { event: "message.delta"@, data },
            );
            &&& t.text == text + d
            &&& t.next == NextV::Continue
            &&& t.publish.len() == 1
            &&& t.publish[0].method == "item/agentMessage/delta"@
            &&& t.publish[0].params.get("delta"@) == Some(JsonV::Str(d))
            &&& t.publish[0].params.get("threadId"@) == Some(JsonV::Str(ids.thread_id))
            &&& t.publish[0].params.get("turnId"@) == Some(JsonV::Str(ids.turn_id))
            &&& t.publish[0].params.get("itemId"@) == Some(JsonV::Str(ids.agent_item_id))
        }),
{
    lemma_publication_keys();
}

/// A completed run is a success with the output that it reports. Text that was streamed
/// stays; where there was none, the output is told and becomes the text.
pub proof fn law_completed_run_succeeds(
    ids: RunIdsV,
    text: Seq<char>,
    auto_approve: bool,
    data: JsonV,
)
    ensures
        ({
            let t = translation(
                ids,
                text,
                auto_approve,
                HermesEventV { event: "run.completed"@, data },
            );
            &&& t.next is TerminalSuccess
            &&& data.get("output"@) matches Some(JsonV::Str(out)) ==> t.next->text == out
            &&& text.len() > 0 ==> t.text == text && t.publish.len() == 0
            &&& text.len() == 0 ==> t.text == t.next->text
            &&& text.len() == 0 && t.next->text.len() > 0 ==> t.publish.len() == 1
                && t.publish[0].params.get("delta"@) == Some(JsonV::Str(t.next->text))
        }),
{
    lemma_event_names();
    lemma_publication_keys();
    let t = translation(ids, text, auto_approve, HermesEventV { event: "run.completed"@, data });
    if text.len() == 0 && t.next->text.len() == 0 {
        assert(t.text =~= t.next->text);
    }
}

/// A failed run is an error that says what the gateway says; the text so far stays and
/// nothing is told yet.
pub proof fn law_failed_run_fails(
    ids: RunIdsV,
    text: Seq<char>,
    auto_approve: bool,
    data: JsonV,
)
    ensures
        ({
            let t = translation(
                ids,
                text,
                auto_approve,
                HermesEventV { event: "run.failed"@, data },
            );
            &&& t.next is TerminalError
            &&& t.text == text
            &&& t.publish.len() == 0
            &&& data.get("message"@) matches Some(JsonV::Str(m)) ==> ends(t.next->message, m)
            &&& data.get("message"@) is None ==> (data.get("error"@) matches Some(JsonV::Str(m))
                ==> ends(t.next->message, m))
        }),
{
    lemma_event_names();
    let e = HermesEventV { event: "run.failed"@, data };
    let m = e.failure()->0;
    let lead = "Hermes API error: "@;
    assert((lead + m).skip(lead.len() as int) =~= m);
}

/// An approval is given without asking only where that is allowed; elsewhere the client
/// is asked, with all that the gateway says, and the run goes on.
pub proof fn law_approval_is_asked_for(ids: RunIdsV, text: Seq<char>, data: JsonV)
    ensures
        ({
            let e = HermesEventV { event: "approval.request"@, data };
            let allowed = translation(ids, text, true, e);
            let asked = translation(ids, text, false, e);
            &&& allowed.next == NextV::ResolveApproval
            &&& allowed.publish.len() == 0
            &&& asked.next == NextV::Continue
            &&& asked.publish.len() == 1
            &&& asked.publish[0].method == "hermes/approvalRequest"@
            &&& asked.publish[0].params.get("data"@) == Some(data)
            &&& asked.publish[0].params.get("run_id"@) == Some(JsonV::Str(ids.run_id))
            &&& asked.publish[0].params.get("turn_id"@) == Some(JsonV::Str(ids.turn_id))
            &&& asked.publish[0].params.get("thread_id"@) == Some(JsonV::Str(ids.thread_id))
            &&& allowed.text == text
            &&& asked.text == text
        }),
{
    lemma_event_names();
    lemma_publication_keys();
}

/// Only the gateway ends a run: a success, an error and a cancellation each come from
/// their own event, and approval is resolved only for a request of it, and only where
/// that is allowed.
pub proof fn law_ends_have_their_events(
    ids: RunIdsV,
    text: Seq<char>,
    auto_approve: bool,
    e: HermesEventV,
)
    ensures
        translation(ids, text, auto_approve, e).next is TerminalSuccess ==> e.event
            == "run.completed"@,
        translation(ids, text, auto_approve, e).next is TerminalError ==> e.event
            == "run.failed"@,
        translation(ids, text, auto_approve, e).next is TerminalCancelled ==> e.event
            == "run.cancelled"@,
        translation(ids, text, auto_approve, e).next is ResolveApproval ==> e.event
            == "approval.request"@ && auto_approve,
{
    lemma_event_names();
}

/// An event that clients do not know is handed on by its name with all that it says, and
/// changes nothing else.
pub proof fn law_unknown_events_are_handed_on(
    ids: RunIdsV,
    text: Seq<char>,
    auto_approve: bool,
    e: HermesEventV,
)
    requires
        e.event != "message.delta"@,
        e.event != "run.completed"@,
        e.event != "run.failed"@,
        e.event != "run.cancelled"@,
        e.event != "approval.request"@,
        e.event != "approval.responded"@,
    ensures
        ({
            let t = translation(ids, text, auto_approve, e);
            &&& t.text == text
            &&& t.next == NextV::Continue
            &&& t.publish.len() == 1
            &&& t.publish[0].method == "hermes/rawEvent"@
            &&& t.publish[0].params.get("event"@) == Some(JsonV::Str(e.event))
            &&& t.publish[0].params.get("data"@) == Some(e.data)
            &&& t.publish[0].params.get("run_id"@) == Some(JsonV::Str(ids.run_id))
        }),
{
    lemma_publication_keys();
}

// ---------------------------------------------------------------------------
// The end of a run
// ---------------------------------------------------------------------------
/// A run ends in the status of its outcome, and has an error exactly if it failed.
pub proof fn law_outcomes_have_their_status(o: OutcomeV)
    ensures
        o is Completed <==> o.status() == HermesTurnStatus::Completed,
        o is Failed <==> o.status() == HermesTurnStatus::Failed,
        o is Cancelled <==> o.status() == HermesTurnStatus::Cancelled,
        o is Failed <==> o.error_text() is Some,
        o matches OutcomeV::Failed { error } ==> o.error_text() == Some(error),
{
}

/// At the end clients hear first that the message is complete, with the whole text, and
/// then that the turn is. The turn is completed only if the run was: a failed run and a
/// cancelled one fail it.
pub proof fn law_ends_are_told(
    ids: RunIdsV,
    text: Seq<char>,
    o: OutcomeV,
    now: i64,
)
    ensures
        ({
            let all = terminal_publications(ids, text, o.status(), o.error_text(), now);
            &&& all.len() == 2
            &&& all[0].method == "item/completed"@
            &&& all[0].params.get("item"@) == Some(
                item_json(ItemV::AgentMessage { id: ids.agent_item_id, text }),
            )
            &&& all[0].params.get("threadId"@) == Some(JsonV::Str(ids.thread_id))
            &&& all[0].params.get("turnId"@) == Some(JsonV::Str(ids.turn_id))
            &&& all[1].method == "turn/completed"@
            &&& all[1].params.get("threadId"@) == Some(JsonV::Str(ids.thread_id))
            &&& exists|t: TurnV|
                {
                    &&& all[1].params.get("turn"@) == Some(#[trigger] turn_model(t))
                    &&& t.id == ids.turn_id
                    &&& t.status == TurnStatus::Completed <==> o is Completed
                    &&& t.status == TurnStatus::Failed <==> o !is Completed
                    &&& t.error == (match o {
                        OutcomeV::Failed { error } => Some(error),
                        _ => None,
                    })
                    &&& t.completed_at == Some(now)
                }
        }),
{
    lemma_publication_keys();
    let all = terminal_publications(ids, text, o.status(), o.error_text(), now);
    let t = TurnV {
        id: ids.turn_id,
        items: seq![],
        items_view: "full"@,
        status: if o is Completed {
            TurnStatus::Completed
        } else {
            TurnStatus::Failed
        },
        error: o.error_text(),
        started_at: Some(now),
        completed_at: Some(now),
        duration_ms: None,
    };
    assert(all[1].params.get("turn"@) == Some(turn_model(t)));
}

/// The message that a run opens is the one that it ends: same item, same turn, same
/// thread, and empty at first.
pub proof fn law_message_is_one_item(ids: RunIdsV, text: Seq<char>, o: OutcomeV, now: i64)
    ensures
        ({
            let start = started_publication(ids);
            let end = terminal_publications(ids, text, o.status(), o.error_text(), now)[0];
            &&& start.method == "item/started"@
            &&& start.params.get("item"@) == Some(
                item_json(ItemV::AgentMessage { id: ids.agent_item_id, text: Seq::empty() }),
            )
            &&& start.params.get("threadId"@) == end.params.get("threadId"@)
            &&& start.params.get("turnId"@) == end.params.get("turnId"@)
            &&& start.params.get("turnId"@) == Some(JsonV::Str(ids.turn_id))
        }),
{
    lemma_publication_keys();
}

/// A run that had no outcome gets the one that it ended with, its whole text and its
/// time; the records of other turns stay as they are.
pub proof fn law_outcome_is_recorded(
    s: RunsV,
    counters: Map<Seq<char>, u64>,
    ids: RunIdsV,
    text: Seq<char>,
    o: OutcomeV,
    now: i64,
    other: Seq<char>,
)
    requires
        s.by_turn.dom().contains(ids.turn_id),
        !s.by_turn[ids.turn_id].status.terminal(),
        other != ids.turn_id,
    ensures
        ({
            let after = outcome_noted(s, counters, ids, text, o, now);
            let r = after.by_turn[ids.turn_id];
            &&& o is Completed <==> r.status == HermesTurnStatus::Completed
            &&& o is Failed <==> r.status == HermesTurnStatus::Failed
            &&& o is Cancelled <==> r.status == HermesTurnStatus::Cancelled
            &&& r.accumulated_text == text
            &&& r.error == (match o {
                OutcomeV::Failed { error } => Some(error),
                _ => None,
            })
            &&& r.completed_at == Some(now)
            &&& r.updated_at == now
            &&& r.created_at == s.by_turn[ids.turn_id].created_at
            &&& r.run_id == s.by_turn[ids.turn_id].run_id
            &&& r.thread_id == s.by_turn[ids.turn_id].thread_id
            &&& r.user_items == s.by_turn[ids.turn_id].user_items
            &&& r.last_event_seq is Some
            &&& r.last_event_seq->0 >= next_number(counters, ids.run_id)
            &&& after.by_turn.dom() == s.by_turn.dom()
            &&& after.by_turn[other] == s.by_turn[other]
            &&& after.by_run == s.by_run
        }),
{
    let after = outcome_noted(s, counters, ids, text, o, now);
    assert(after.by_turn.dom() =~= s.by_turn.dom());
}

/// An event is recorded as it was told, under the ids of its run and its number, and a
/// turn without a record is given none.
pub proof fn law_events_are_recorded_as_told(
    s: RunsV,
    p: PublicationV,
    ids: RunIdsV,
    seq: u64,
    ts: i64,
    now: i64,
)
    ensures
        recorded(p, ids, seq, ts).method == p.method,
        recorded(p, ids, seq, ts).params == p.params,
        recorded(p, ids, seq, ts).seq == seq,
        recorded(p, ids, seq, ts).ts == ts,
        recorded(p, ids, seq, ts).run_id == ids.run_id,
        recorded(p, ids, seq, ts).turn_id == ids.turn_id,
        recorded(p, ids, seq, ts).thread_id == ids.thread_id,
        !s.by_turn.dom().contains(ids.turn_id) ==> event_noted(s, ids.turn_id, seq, now) == s,
        s.by_turn.dom().contains(ids.turn_id) ==> event_noted(
            s,
            ids.turn_id,
            seq,
            now,
        ).by_turn[ids.turn_id].last_event_seq is Some,
        s.by_turn.dom().contains(ids.turn_id) ==> event_noted(
            s,
            ids.turn_id,
            seq,
            now,
        ).by_turn[ids.turn_id].last_event_seq->0 >= seq,
{
}

// ---------------------------------------------------------------------------
// Approval
// ---------------------------------------------------------------------------
/// Nothing is allowed by accident: an answer allows a call only with one of the words
/// for that, and a word that refuses refuses. Blanks around a word and the case of its
/// letters do not count.
pub proof fn law_only_clear_words_allow(v: JsonV, raw: Seq<char>)
    requires
        v.get("choice"@) == Some(JsonV::Str(raw)),
    ensures
        ({
            let word = ascii_lowered(trimmed(raw));
            &&& choice_in(v) == Some(ApprovalChoice::Once) <==> (word == "once"@ || word
                == "approve"@ || word == "approved"@ || word == "allow"@)
            &&& choice_in(v) == Some(ApprovalChoice::Session) <==> word == "session"@
            &&& choice_in(v) == Some(ApprovalChoice::Always) <==> word == "always"@
            &&& choice_in(v) == Some(ApprovalChoice::Deny) <==> (word == "deny"@ || word
                == "reject"@ || word == "denied"@)
        }),
{
    reveal_strlit("once");
    reveal_strlit("approve");
    reveal_strlit("approved");
    reveal_strlit("allow");
    reveal_strlit("session");
    reveal_strlit("always");
    reveal_strlit("deny");
    reveal_strlit("reject");
    reveal_strlit("denied");
    assert("once"@[0] == 'o' && "approve"@[0] == 'a' && "approved"@[0] == 'a');
    assert("allow"@[0] == 'a' && "session"@[0] == 's' && "always"@[0] == 'a');
    assert("deny"@[0] == 'd' && "reject"@[0] == 'r' && "denied"@[0] == 'd');
    assert("approve"@.len() == 7 && "approved"@.len() == 8 && "allow"@.len() == 5);
    assert("always"@.len() == 6 && "deny"@.len() == 4 && "denied"@.len() == 6);
}

/// An answer without a word, or with something else in its place, is no choice.
pub proof fn law_no_word_is_no_choice(v: JsonV)
    requires
        v.get("choice"@) matches Some(x) ==> x !is Str,
    ensures
        choice_in(v) is None,
{
}

/// An answer is meant for all open requests only if it says so.
pub proof fn law_one_answer_for_one_request(v: JsonV)
    ensures
        resolve_all_in(v) ==> v.get("resolveAll"@) == Some(JsonV::Bool(true)) || (v.get(
            "resolveAll"@,
        ) is None && v.get("resolve_all"@) == Some(JsonV::Bool(true))),
        v.get("resolveAll"@) == Some(JsonV::Bool(true)) ==> resolve_all_in(v),
        v.get("resolveAll"@) is None && v.get("resolve_all"@) == Some(JsonV::Bool(true))
            ==> resolve_all_in(v),
{
}

} // verus!
