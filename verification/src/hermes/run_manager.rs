//! One pump per active run.
//!
//! The gateway lets one reader have the events of a run, and only once. The run
//! manager therefore owns the single reader of each run, turns what it reads into
//! bridge events, records every bridge event before it is handed on, and gives
//! the run its outcome. If the stream breaks before the outcome, the outcome is
//! polled.

use vstd::prelude::*;

use super::api_client::{ApprovalChoice, HermesApiClient, HermesEvent, HermesEventV};
use super::event_store::{EventStore, EventV, NormalizedHermesEvent, counted, next_number};
use super::run_state::{
    HermesRunRecord, HermesTurnStatus, RunStore, RunsV, marked_terminal, noted, rewritten, touched,
};
use crate::codex::notifications::{
    AgentMessageDeltaNotification, ItemCompletedNotification, ItemStartedNotification,
    TurnCompletedNotification,
};
use crate::codex::thread::{
    ItemV, ThreadItem, Turn, TurnError, TurnStatus, TurnV, fresh_turn, item_json, items, turn_model,
};
use crate::json::{Json, JsonV, ToJson};
use crate::rpc::{Publication, PublicationV, publications};
use crate::text::{
    ascii_lowered, blank, chars_of, find_from, has_text, is_blank, join2, opt_text, owned, same,
    stands_at, text_of, to_ascii_lowercase, trim, trimmed,
};
use crate::text_map::TextMap;

verus! {

/// Time between two polls of a run's status, in milliseconds.
pub const STATUS_POLL_INTERVAL_MS: u64 = 500;

/// Longest time that a run's status is polled, in milliseconds.
pub const STATUS_POLL_MAX_MS: u64 = 30_000;

/// How many events a slow subscriber may lag behind.
pub const BROADCAST_CAPACITY: usize = 256;

/// How a run ended.
#[derive(Debug, PartialEq)]
pub enum RunOutcome {
    Completed { accumulated_text: String },
    Failed { error: String },
    Cancelled,
}

/// The model of an outcome.
pub enum OutcomeV {
    Completed { accumulated_text: Seq<char> },
    Failed { error: Seq<char> },
    Cancelled,
}

impl RunOutcome {
    /// The model of this outcome.
    pub open spec fn view(&self) -> OutcomeV {
        match self {
            RunOutcome::Completed { accumulated_text } => OutcomeV::Completed {
                accumulated_text: accumulated_text@,
            },
            RunOutcome::Failed { error } => OutcomeV::Failed { error: error@ },
            RunOutcome::Cancelled => OutcomeV::Cancelled,
        }
    }

    /// The status that a run with this outcome ends in.
    pub fn status(&self) -> (r: HermesTurnStatus)
        ensures
            r == self.view().status(),
            r.terminal(),
    {
        match self {
            RunOutcome::Completed { .. } => HermesTurnStatus::Completed,
            RunOutcome::Failed { .. } => HermesTurnStatus::Failed,
            RunOutcome::Cancelled => HermesTurnStatus::Cancelled,
        }
    }

    /// What went wrong, if anything did.
    pub fn error(&self) -> (r: Option<String>)
        ensures
            opt_text(r) == self.view().error_text(),
    {
        match self {
            RunOutcome::Failed { error } => Some(error.clone()),
            _ => None,
        }
    }
}

impl OutcomeV {
    /// The status that a run with this outcome ends in.
    pub open spec fn status(self) -> HermesTurnStatus {
        match self {
            OutcomeV::Completed { .. } => HermesTurnStatus::Completed,
            OutcomeV::Failed { .. } => HermesTurnStatus::Failed,
            OutcomeV::Cancelled => HermesTurnStatus::Cancelled,
        }
    }

    /// What went wrong, if anything did.
    pub open spec fn error_text(self) -> Option<Seq<char>> {
        match self {
            OutcomeV::Failed { error } => Some(error),
            _ => None,
        }
    }
}

/// What a run belongs to.
pub struct RunIds {
    pub run_id: String,
    pub turn_id: String,
    pub thread_id: String,
    /// Item id of the agent message.
    pub agent_item_id: String,
}

/// The model of the ids.
pub struct RunIdsV {
    pub run_id: Seq<char>,
    pub turn_id: Seq<char>,
    pub thread_id: Seq<char>,
    pub agent_item_id: Seq<char>,
}

impl RunIds {
    /// The model of the ids.
    pub open spec fn view(&self) -> RunIdsV {
        RunIdsV {
            run_id: self.run_id@,
            turn_id: self.turn_id@,
            thread_id: self.thread_id@,
            agent_item_id: self.agent_item_id@,
        }
    }
}

// ---------------------------------------------------------------------------
// Bridge events
// ---------------------------------------------------------------------------
/// The start of the agent message.
pub open spec fn started_publication(ids: RunIdsV) -> PublicationV {
    PublicationV {
        method: "item/started"@,
        params: JsonV::object()
            .with("item"@, item_json(ItemV::AgentMessage { id: ids.agent_item_id, text: seq![] }))
            .with("threadId"@, JsonV::Str(ids.thread_id))
            .with("turnId"@, JsonV::Str(ids.turn_id)),
    }
}

/// More text of the agent message.
pub open spec fn delta_publication(ids: RunIdsV, delta: Seq<char>) -> PublicationV {
    PublicationV {
        method: "item/agentMessage/delta"@,
        params: JsonV::object()
            .with("threadId"@, JsonV::Str(ids.thread_id))
            .with("turnId"@, JsonV::Str(ids.turn_id))
            .with("itemId"@, JsonV::Str(ids.agent_item_id))
            .with("delta"@, JsonV::Str(delta)),
    }
}

/// An event that is handed on with the ids of its run.
pub open spec fn run_publication(ids: RunIdsV, method: Seq<char>, data: JsonV) -> PublicationV {
    PublicationV {
        method,
        params: JsonV::object()
            .with("thread_id"@, JsonV::Str(ids.thread_id))
            .with("turn_id"@, JsonV::Str(ids.turn_id))
            .with("run_id"@, JsonV::Str(ids.run_id))
            .with("data"@, data),
    }
}

/// An event of a kind that clients do not know.
pub open spec fn raw_publication(ids: RunIdsV, event: Seq<char>, data: JsonV) -> PublicationV {
    PublicationV {
        method: "hermes/rawEvent"@,
        params: JsonV::object()
            .with("thread_id"@, JsonV::Str(ids.thread_id))
            .with("turn_id"@, JsonV::Str(ids.turn_id))
            .with("run_id"@, JsonV::Str(ids.run_id))
            .with("event"@, JsonV::Str(event))
            .with("data"@, data),
    }
}

/// The status of a turn whose run ended in `status`.
pub open spec fn turn_status_of(status: HermesTurnStatus) -> TurnStatus {
    match status {
        HermesTurnStatus::Failed => TurnStatus::Failed,
        HermesTurnStatus::Cancelled => TurnStatus::Failed,
        _ => TurnStatus::Completed,
    }
}

/// The two events with which a run ends: its agent message is complete, then its
/// turn is.
pub open spec fn terminal_publications(
    ids: RunIdsV,
    text: Seq<char>,
    status: HermesTurnStatus,
    error: Option<Seq<char>>,
    now: i64,
) -> Seq<PublicationV> {
    seq![
        PublicationV {
            method: "item/completed"@,
            params: JsonV::object()
                .with("item"@, item_json(ItemV::AgentMessage { id: ids.agent_item_id, text }))
                .with("threadId"@, JsonV::Str(ids.thread_id))
                .with("turnId"@, JsonV::Str(ids.turn_id)),
        },
        PublicationV {
            method: "turn/completed"@,
            params: JsonV::object()
                .with("threadId"@, JsonV::Str(ids.thread_id))
                .with(
                    "turn"@,
                    turn_model(
                        TurnV {
                            error,
                            completed_at: Some(now),
                            ..fresh_turn(ids.turn_id, turn_status_of(status), Some(now))
                        },
                    ),
                ),
        },
    ]
}

/// Announces the agent message of a run.
pub fn agent_started(ids: &RunIds) -> (r: Publication)
    ensures
        r.view() == started_publication(ids.view()),
{
    let text = String::new();
    assert(text@ =~= seq![]);
    let n = ItemStartedNotification {
        item: ThreadItem::AgentMessage { id: ids.agent_item_id.clone(), text },
        thread_id: ids.thread_id.clone(),
        turn_id: ids.turn_id.clone(),
        parent_item_id: None,
    };
    Publication::new("item/started", n.to_json())
}

fn agent_delta(ids: &RunIds, delta: &str) -> (r: Publication)
    ensures
        r.view() == delta_publication(ids.view(), delta@),
{
    let n = AgentMessageDeltaNotification {
        thread_id: ids.thread_id.clone(),
        turn_id: ids.turn_id.clone(),
        item_id: ids.agent_item_id.clone(),
        delta: owned(delta),
        parent_item_id: None,
    };
    Publication::new("item/agentMessage/delta", n.to_json())
}

fn of_run(ids: &RunIds, method: &str, data: Json) -> (r: Publication)
    ensures
        r.view() == run_publication(ids.view(), method@, data.view()),
{
    let params = Json::object()
        .with("thread_id", Json::text(ids.thread_id.as_str()))
        .with("turn_id", Json::text(ids.turn_id.as_str()))
        .with("run_id", Json::text(ids.run_id.as_str()))
        .with("data", data);
    Publication::new(method, params)
}

fn raw_event(ids: &RunIds, event: &HermesEvent) -> (r: Publication)
    ensures
        r.view() == raw_publication(ids.view(), event.event@, event.data.view()),
{
    let params = Json::object()
        .with("thread_id", Json::text(ids.thread_id.as_str()))
        .with("turn_id", Json::text(ids.turn_id.as_str()))
        .with("run_id", Json::text(ids.run_id.as_str()))
        .with("event", Json::text(event.event.as_str()))
        .with("data", event.data.copy());
    Publication::new("hermes/rawEvent", params)
}

/// The events with which a run ends.
pub fn terminal_events(
    ids: &RunIds,
    full_text: &str,
    status: HermesTurnStatus,
    error: Option<String>,
    now: i64,
) -> (r: Vec<Publication>)
    ensures
        publications(r@) == terminal_publications(
            ids.view(),
            full_text@,
            status,
            opt_text(error),
            now,
        ),
{
    let done = ItemCompletedNotification {
        item: ThreadItem::AgentMessage { id: ids.agent_item_id.clone(), text: owned(full_text) },
        thread_id: ids.thread_id.clone(),
        turn_id: ids.turn_id.clone(),
        parent_item_id: None,
    };
    let turn_status = match status {
        HermesTurnStatus::Failed => TurnStatus::Failed,
        HermesTurnStatus::Cancelled => TurnStatus::Failed,
        _ => TurnStatus::Completed,
    };
    let none: Vec<ThreadItem> = Vec::new();
    assert(items(none@) =~= seq![]);
    let turn = Turn {
        id: ids.turn_id.clone(),
        items: none,
        items_view: owned("full"),
        status: turn_status,
        error: match error {
            Some(message) => Some(TurnError { message }),
            None => None,
        },
        started_at: Some(now),
        completed_at: Some(now),
        duration_ms: None,
    };
    let ended = TurnCompletedNotification { thread_id: ids.thread_id.clone(), turn };
    let a = Publication::new("item/completed", done.to_json());
    let b = Publication::new("turn/completed", ended.to_json());
    let ghost ga = a;
    let ghost gb = b;
    let mut out: Vec<Publication> = Vec::new();
    out.push(a);
    out.push(b);
    assert(publications(out@) =~= seq![ga.view(), gb.view()]);
    out
}

// ---------------------------------------------------------------------------
// One gateway event
// ---------------------------------------------------------------------------
/// What to do after an event.
#[derive(Debug, PartialEq)]
pub enum TranslationOutcome {
    /// Read on.
    Continue,
    /// The run came to a good end, with this output.
    TerminalSuccess { text: String },
    /// The run came to a bad end.
    TerminalError { message: String },
    /// The run was cancelled.
    TerminalCancelled,
    /// Allow the call that the run asks approval for, and tell how that went.
    ResolveApproval,
}

/// The model of what to do.
pub enum NextV {
    Continue,
    TerminalSuccess { text: Seq<char> },
    TerminalError { message: Seq<char> },
    TerminalCancelled,
    ResolveApproval,
}

impl TranslationOutcome {
    /// The model of what to do.
    pub open spec fn view(&self) -> NextV {
        match self {
            TranslationOutcome::Continue => NextV::Continue,
            TranslationOutcome::TerminalSuccess { text } => NextV::TerminalSuccess { text: text@ },
            TranslationOutcome::TerminalError { message } => NextV::TerminalError {
                message: message@,
            },
            TranslationOutcome::TerminalCancelled => NextV::TerminalCancelled,
            TranslationOutcome::ResolveApproval => NextV::ResolveApproval,
        }
    }
}

/// The text so far, what to publish and what to do after an event.
#[verifier::ext_equal]
pub struct TranslationV {
    pub text: Seq<char>,
    pub publish: Seq<PublicationV>,
    pub next: NextV,
}

/// The output that a completed run reports.
pub open spec fn output_of(data: JsonV) -> Seq<char> {
    match data.str_at("output"@) {
        Some(t) => t,
        None => seq![],
    }
}

/// What an event of a run leads to.
pub open spec fn translation(
    ids: RunIdsV,
    text: Seq<char>,
    auto_approve: bool,
    e: HermesEventV,
) -> TranslationV {
    match e.delta() {
        Some(d) => TranslationV {
            text: text + d,
            publish: seq![delta_publication(ids, d)],
            next: NextV::Continue,
        },
        None => match e.failure() {
            Some(err) => TranslationV {
                text,
                publish: seq![],
                next: if e.cancelled() {
                    NextV::TerminalCancelled
                } else {
                    NextV::TerminalError { message: "Hermes API error: "@ + err }
                },
            },
            None => if e.event == "approval.request"@ {
                if auto_approve {
                    TranslationV { text, publish: seq![], next: NextV::ResolveApproval }
                } else {
                    TranslationV {
                        text,
                        publish: seq![run_publication(ids, "hermes/approvalRequest"@, e.data)],
                        next: NextV::Continue,
                    }
                }
            } else if e.event == "approval.responded"@ {
                TranslationV {
                    text,
                    publish: seq![run_publication(ids, "hermes/approvalResponded"@, e.data)],
                    next: NextV::Continue,
                }
            } else if e.success() {
                let output = output_of(e.data);
                let next = NextV::TerminalSuccess { text: output };
                if text.len() == 0 && output.len() > 0 {
                    TranslationV { text: output, publish: seq![delta_publication(ids, output)], next }
                } else {
                    TranslationV { text, publish: seq![], next }
                }
            } else {
                TranslationV {
                    text,
                    publish: seq![raw_publication(ids, e.event, e.data)],
                    next: NextV::Continue,
                }
            },
        },
    }
}

/// What to publish and what to do after an event.
pub struct Translation {
    pub publish: Vec<Publication>,
    pub next: TranslationOutcome,
}

fn nothing(next: TranslationOutcome) -> (r: Translation)
    ensures
        publications(r.publish@) == Seq::<PublicationV>::empty(),
        r.next == next,
{
    let publish: Vec<Publication> = Vec::new();
    assert(publications(publish@) =~= seq![]);
    Translation { publish, next }
}

fn one(p: Publication, next: TranslationOutcome) -> (r: Translation)
    ensures
        publications(r.publish@) == seq![p.view()],
        r.next == next,
{
    let mut publish: Vec<Publication> = Vec::new();
    let ghost gp = p;
    publish.push(p);
    assert(publications(publish@) =~= seq![gp.view()]);
    Translation { publish, next }
}

/// Turns an event of a run into what the bridge makes of it, and keeps the text
/// so far up to date.
pub fn translate_event(
    ids: &RunIds,
    full_text: &mut String,
    auto_approve_once: bool,
    event: &HermesEvent,
) -> (r: Translation)
    ensures
        ({
            let t = translation(ids.view(), old(full_text)@, auto_approve_once, event.view());
            &&& final(full_text)@ == t.text
            &&& publications(r.publish@) == t.publish
            &&& r.next.view() == t.next
        }),
{
    match event.message_delta() {
        Some(delta) => {
            full_text.append(delta.as_str());
            return one(agent_delta(ids, delta.as_str()), TranslationOutcome::Continue);
        },
        None => {},
    }
    match event.terminal_error() {
        Some(err) => {
            if event.is_cancelled() {
                return nothing(TranslationOutcome::TerminalCancelled);
            }
            return nothing(
                TranslationOutcome::TerminalError {
                    message: join2("Hermes API error: ", err.as_str()),
                },
            );
        },
        None => {},
    }
    if same(event.event.as_str(), "approval.request") {
        if auto_approve_once {
            return nothing(TranslationOutcome::ResolveApproval);
        }
        return one(
            of_run(ids, "hermes/approvalRequest", event.data.copy()),
            TranslationOutcome::Continue,
        );
    }
    if same(event.event.as_str(), "approval.responded") {
        return one(
            of_run(ids, "hermes/approvalResponded", event.data.copy()),
            TranslationOutcome::Continue,
        );
    }
    if event.is_terminal_success() {
        let text = match event.data.str_at("output") {
            Some(output) => owned(output),
            None => {
                let empty = String::new();
                assert(empty@ =~= seq![]);
                empty
            },
        };
        if full_text.as_str().is_empty() && !text.as_str().is_empty() {
            full_text.append(text.as_str());
            assert(full_text@ =~= text@);
            return one(
                agent_delta(ids, text.as_str()),
                TranslationOutcome::TerminalSuccess { text },
            );
        }
        return nothing(TranslationOutcome::TerminalSuccess { text });
    }
    one(raw_event(ids, event), TranslationOutcome::Continue)
}

/// What the outcome of an automatic approval leads to.
pub fn approval_resolved(ids: &RunIds, error: Option<String>) -> (r: Translation)
    ensures
        match error {
            Some(err) => publications(r.publish@) == Seq::<PublicationV>::empty() && r.next.view()
                == (NextV::TerminalError { message: "Hermes approval error: "@ + err@ }),
            None => publications(r.publish@) == seq![
                run_publication(
                    ids.view(),
                    "hermes/approvalResponded"@,
                    JsonV::object()
                        .with("choice"@, JsonV::Str("once"@))
                        .with("autoApproved"@, JsonV::Bool(true)),
                ),
            ] && r.next.view() == NextV::Continue,
        },
{
    match error {
        Some(err) => nothing(
            TranslationOutcome::TerminalError {
                message: join2("Hermes approval error: ", err.as_str()),
            },
        ),
        None => one(
            of_run(
                ids,
                "hermes/approvalResponded",
                Json::object()
                    .with("choice", Json::text("once"))
                    .with("autoApproved", Json::Bool(true)),
            ),
            TranslationOutcome::Continue,
        ),
    }
}

// ---------------------------------------------------------------------------
// The stream
// ---------------------------------------------------------------------------
/// The end of the first complete frame in a text: just behind its empty line.
pub open spec fn frame_ends(body: Seq<char>, k: int) -> bool {
    k >= 2 && stands_at(body, "\n\n"@, k - 2) && forall|j: int|
        0 <= j < k - 2 ==> !#[trigger] stands_at(body, "\n\n"@, j)
}

/// Text of a stream that is not yet cut into frames.
pub struct FrameBuffer {
    pub body: String,
}

impl FrameBuffer {
    /// A buffer at the start of a stream.
    pub fn new() -> (r: FrameBuffer)
        ensures
            r.body@ == Seq::<char>::empty(),
    {
        FrameBuffer { body: String::new() }
    }

    /// Takes more of the stream in.
    pub fn push(&mut self, chunk: &str)
        ensures
            final(self).body@ == old(self).body@ + chunk@,
    {
        self.body.append(chunk);
    }

    /// Cuts the first complete frame off, if there is one.
    pub fn next_frame(&mut self) -> (r: Option<String>)
        ensures
            match r {
                Some(frame) => exists|k: int|
                    {
                        &&& #[trigger] frame_ends(old(self).body@, k)
                        &&& frame@ == old(self).body@.take(k)
                        &&& final(self).body@ == old(self).body@.skip(k)
                    },
                None => !has_text(old(self).body@, "\n\n"@) && final(self).body@
                    == old(self).body@,
            },
            r matches Some(frame) ==> frame@ + final(self).body@ == old(self).body@,
    {
        proof {
            reveal_strlit("\n\n");
        }
        let v = chars_of(self.body.as_str());
        let n: usize = v.len();
        let sep = chars_of("\n\n");
        match find_from(v.as_slice(), sep.as_slice(), 0) {
            Some(i) => {
                assert(i + 2 <= n);
                let frame = text_of(v.as_slice(), 0, i + 2);
                let rest = text_of(v.as_slice(), i + 2, n);
                assert(frame_ends(self.body@, i + 2));
                assert(frame@ == self.body@.take(i + 2));
                assert(rest@ == self.body@.skip(i + 2));
                assert(self.body@.take(i + 2) + self.body@.skip(i + 2) =~= self.body@);
                self.body = rest;
                Some(frame)
            },
            None => None,
        }
    }

    /// What is left at the end of the stream, if it is more than whitespace.
    pub fn trailing(&self) -> (r: Option<String>)
        ensures
            opt_text(r) == (if blank(self.body@) {
                None
            } else {
                Some(self.body@)
            }),
    {
        if is_blank(self.body.as_str()) {
            None
        } else {
            Some(self.body.clone())
        }
    }
}

/// What the end of the stream says about the run: its outcome, or nothing if no
/// event gave one. An output that no delta carried becomes the text.
pub fn stream_outcome(full_text: &mut String, last: &TranslationOutcome) -> (r: Option<RunOutcome>)
    ensures
        match *last {
            TranslationOutcome::TerminalError { message } => final(full_text)@ == old(full_text)@
                && r is Some && r->0.view() == (OutcomeV::Failed { error: message@ }),
            TranslationOutcome::TerminalCancelled => final(full_text)@ == old(full_text)@
                && r is Some && r->0.view() == OutcomeV::Cancelled,
            TranslationOutcome::TerminalSuccess { text } => {
                &&& final(full_text)@ == (if old(full_text)@.len() == 0 {
                    text@
                } else {
                    old(full_text)@
                })
                &&& r is Some
                &&& r->0.view() == (OutcomeV::Completed { accumulated_text: final(full_text)@ })
            },
            _ => r is None && final(full_text)@ == old(full_text)@,
        },
{
    match last {
        TranslationOutcome::TerminalError { message } => Some(
            RunOutcome::Failed { error: message.clone() },
        ),
        TranslationOutcome::TerminalCancelled => Some(RunOutcome::Cancelled),
        TranslationOutcome::TerminalSuccess { text } => {
            if full_text.as_str().is_empty() && !text.as_str().is_empty() {
                *full_text = text.clone();
            } else {
                assert(full_text@.len() == 0 ==> full_text@ =~= text@);
            }
            Some(RunOutcome::Completed { accumulated_text: full_text.clone() })
        },
        _ => None,
    }
}

// ---------------------------------------------------------------------------
// Polling
// ---------------------------------------------------------------------------
/// What a status request found.
pub enum PollReply {
    /// The gateway knows the run.
    Status { terminal: bool, status: String, output: Option<String>, error: Option<String> },
    /// The gateway does not know the run.
    Missing,
    /// The request failed.
    Unreachable,
}

/// The outcome of a run in a terminal status.
pub open spec fn polled_outcome(
    status: Seq<char>,
    error: Option<Seq<char>>,
    text: Seq<char>,
) -> OutcomeV {
    if status == "completed"@ {
        OutcomeV::Completed { accumulated_text: text }
    } else if status == "cancelled"@ {
        OutcomeV::Cancelled
    } else {
        OutcomeV::Failed {
            error: match error {
                Some(e) => e,
                None => "Hermes run terminal status="@ + status,
            },
        }
    }
}

/// The text after a poll: an output takes the place of text that was missed.
pub open spec fn polled_text(reply: PollReply, text: Seq<char>) -> Seq<char> {
    match reply {
        PollReply::Status { terminal, output, .. } => if terminal && text.len() == 0
            && output is Some {
            output->0@
        } else {
            text
        },
        _ => text,
    }
}

/// The outcome that a poll gives, if it gives one: that of a run in a terminal
/// status, failure if the gateway lost the run, failure once the time is up.
pub open spec fn poll_result(
    reply: PollReply,
    time_is_up: bool,
    sse_error: Seq<char>,
    text: Seq<char>,
) -> Option<OutcomeV> {
    match reply {
        PollReply::Missing => Some(
            OutcomeV::Failed { error: sse_error + "; gateway lost run record"@ },
        ),
        PollReply::Status { terminal, status, error, .. } if terminal => Some(
            polled_outcome(status@, opt_text(error), polled_text(reply, text)),
        ),
        _ => if time_is_up {
            Some(
                OutcomeV::Failed {
                    error: sse_error
                        + "; status poll did not observe terminal state within 30s"@,
                },
            )
        } else {
            None
        },
    }
}

/// Decides after a poll whether the run has an outcome.
pub fn poll_step(
    full_text: &mut String,
    reply: &PollReply,
    time_is_up: bool,
    sse_error: &str,
) -> (r: Option<RunOutcome>)
    ensures
        final(full_text)@ == polled_text(*reply, old(full_text)@),
        match r {
            Some(o) => poll_result(*reply, time_is_up, sse_error@, old(full_text)@) == Some(
                o.view(),
            ),
            None => poll_result(*reply, time_is_up, sse_error@, old(full_text)@) is None,
        },
{
    match reply {
        PollReply::Missing => {
            return Some(
                RunOutcome::Failed { error: join2(sse_error, "; gateway lost run record") },
            );
        },
        PollReply::Status { terminal, status, output, error } => {
            if *terminal {
                match output {
                    Some(out) => {
                        if full_text.as_str().is_empty() && !out.as_str().is_empty() {
                            *full_text = out.clone();
                        } else {
                            assert(full_text@.len() == 0 ==> full_text@ =~= out@);
                        }
                    },
                    None => {},
                }
                if same(status.as_str(), "completed") {
                    return Some(RunOutcome::Completed { accumulated_text: full_text.clone() });
                }
                if same(status.as_str(), "cancelled") {
                    return Some(RunOutcome::Cancelled);
                }
                return Some(
                    RunOutcome::Failed {
                        error: match error {
                            Some(e) => e.clone(),
                            None => join2("Hermes run terminal status=", status.as_str()),
                        },
                    },
                );
            }
        },
        PollReply::Unreachable => {},
    }
    if time_is_up {
        Some(
            RunOutcome::Failed {
                error: join2(sse_error, "; status poll did not observe terminal state within 30s"),
            },
        )
    } else {
        None
    }
}

// ---------------------------------------------------------------------------
// The manager
// ---------------------------------------------------------------------------
/// Keeps track of the active runs.
pub struct HermesRunManager {
    pub client: HermesApiClient,
    pub run_store: RunStore,
    pub event_store: EventStore,
    /// The turn of each active run.
    pub active: TextMap<String>,
}

/// A recorded publication.
pub open spec fn recorded(p: PublicationV, ids: RunIdsV, seq: u64, ts: i64) -> EventV {
    EventV {
        seq,
        ts,
        thread_id: ids.thread_id,
        turn_id: ids.turn_id,
        run_id: ids.run_id,
        method: p.method,
        params: p.params,
    }
}

/// The run store after event number `seq` of a turn.
pub open spec fn event_noted(s: RunsV, turn: Seq<char>, seq: u64, now: i64) -> RunsV {
    if s.by_turn.dom().contains(turn) {
        rewritten(s, turn, noted(s.by_turn[turn], seq, now))
    } else {
        s
    }
}

/// The run store after the outcome of a turn: its text, its last two events, its
/// status.
pub open spec fn outcome_noted(
    s: RunsV,
    counters: Map<Seq<char>, u64>,
    ids: RunIdsV,
    text: Seq<char>,
    outcome: OutcomeV,
    now: i64,
) -> RunsV {
    if s.by_turn.dom().contains(ids.turn_id) {
        let first = next_number(counters, ids.run_id);
        let second = next_number(counted(counters, ids.run_id), ids.run_id);
        let r = touched(s.by_turn[ids.turn_id], text, now);
        let r = noted(noted(r, first, now), second, now);
        rewritten(
            s,
            ids.turn_id,
            marked_terminal(r, outcome.status(), outcome.error_text(), Some(text), now),
        )
    } else {
        s
    }
}

impl HermesRunManager {
    /// A manager without active runs.
    pub fn new(client: HermesApiClient, run_store: RunStore, event_store: EventStore) -> (r:
        HermesRunManager)
        ensures
            r.client == client,
            r.run_store == run_store,
            r.event_store == event_store,
            r.active@ == Map::<Seq<char>, String>::empty(),
    {
        HermesRunManager { client, run_store, event_store, active: TextMap::new() }
    }

    /// Whether a run is active.
    pub fn is_active(&self, run_id: &str) -> (r: bool)
        ensures
            r == self.active@.dom().contains(run_id@),
    {
        self.active.contains_key(run_id)
    }

    /// How many runs are active.
    pub fn active_count(&self) -> (r: usize)
        ensures
            r == self.active@.dom().len(),
    {
        self.active.len()
    }

    /// Makes sure that a run has a pump: tells whether one has to be started. A
    /// run that is active already stays as it is.
    pub fn ensure_run(&mut self, record: &HermesRunRecord) -> (r: bool)
        requires
            record.run_id is Some,
        ensures
            r == !old(self).active@.dom().contains(record.run_id->0@),
            r ==> final(self).active@.dom() == old(self).active@.dom().insert(record.run_id->0@)
                && final(self).active@[record.run_id->0@]@ == record.turn_id@,
            !r ==> final(self).active == old(self).active,
            final(self).run_store == old(self).run_store,
            final(self).event_store == old(self).event_store,
            final(self).client == old(self).client,
    {
        match &record.run_id {
            Some(run_id) => {
                if self.active.contains_key(run_id.as_str()) {
                    return false;
                }
                self.active.insert(run_id.as_str(), record.turn_id.clone());
                assert(self.active@.dom() =~= old(self).active@.dom().insert(run_id@));
                true
            },
            None => false,
        }
    }

    /// Numbers and records a publication; the result is what subscribers get.
    pub fn persist_and_publish(
        &mut self,
        ids: &RunIds,
        publication: Publication,
        ts: i64,
        now: i64,
    ) -> (r: NormalizedHermesEvent)
        ensures
            r.view() == recorded(
                publication.view(),
                ids.view(),
                next_number(old(self).event_store.view(), ids.run_id@),
                ts,
            ),
            final(self).event_store.view() == counted(old(self).event_store.view(), ids.run_id@),
            final(self).run_store.view() == event_noted(
                old(self).run_store.view(),
                ids.turn_id@,
                r.seq,
                now,
            ),
            final(self).active == old(self).active,
            final(self).client == old(self).client,
    {
        let event = NormalizedHermesEvent {
            seq: 0,
            ts,
            thread_id: ids.thread_id.clone(),
            turn_id: ids.turn_id.clone(),
            run_id: ids.run_id.clone(),
            method: publication.method,
            params: publication.params,
        };
        let persisted = self.event_store.append(ids.run_id.as_str(), event);
        self.run_store.note_event_seq(ids.turn_id.as_str(), persisted.seq, now);
        persisted
    }

    /// Ends a run: its text and outcome are recorded, its last two events are
    /// published, and it is active no more.
    pub fn finish(&mut self, ids: &RunIds, full_text: &str, outcome: &RunOutcome, now: i64) -> (r:
        Vec<NormalizedHermesEvent>)
        ensures
            final(self).active@ == old(self).active@.remove(ids.run_id@),
            final(self).run_store.view() == outcome_noted(
                old(self).run_store.view(),
                old(self).event_store.view(),
                ids.view(),
                full_text@,
                outcome.view(),
                now,
            ),
            final(self).event_store.view() == counted(
                counted(old(self).event_store.view(), ids.run_id@),
                ids.run_id@,
            ),
            ({
                let p = terminal_publications(
                    ids.view(),
                    full_text@,
                    outcome.view().status(),
                    outcome.view().error_text(),
                    now,
                );
                let counters = old(self).event_store.view();
                &&& r@.len() == 2
                &&& r@[0].view() == recorded(
                    p[0],
                    ids.view(),
                    next_number(counters, ids.run_id@),
                    now,
                )
                &&& r@[1].view() == recorded(
                    p[1],
                    ids.view(),
                    next_number(counted(counters, ids.run_id@), ids.run_id@),
                    now,
                )
            }),
    {
        let ghost start = self.run_store.view();
        self.run_store.touch_text(ids.turn_id.as_str(), full_text, now);
        let status = outcome.status();
        let mut ends = terminal_events(ids, full_text, status, outcome.error(), now);
        let ghost p = publications(ends@);
        assert(ends@.len() == p.len());
        assert(ends@[0].view() == p[0] && ends@[1].view() == p[1]);
        let second = ends.pop().unwrap();
        let first = ends.pop().unwrap();
        let mut out: Vec<NormalizedHermesEvent> = Vec::new();
        out.push(self.persist_and_publish(ids, first, now, now));
        out.push(self.persist_and_publish(ids, second, now, now));
        self.run_store.mark_terminal(
            ids.turn_id.as_str(),
            status,
            outcome.error(),
            Some(owned(full_text)),
            now,
        );
        self.active.remove(ids.run_id.as_str());
        proof {
            let want = outcome_noted(
                start,
                old(self).event_store.view(),
                ids.view(),
                full_text@,
                outcome.view(),
                now,
            );
            assert(self.run_store.view().by_turn =~= want.by_turn);
            assert(self.run_store.view() == want);
        }
        out
    }
}

// ---------------------------------------------------------------------------
// Handing events on to a client
// ---------------------------------------------------------------------------
/// What to do with a live event.
#[derive(Clone, Copy, Debug, PartialEq, Eq, Structural)]
pub enum Forward {
    /// It was replayed already.
    Skip,
    /// Ask the client and wait for its answer.
    Prompt,
    /// Tell the client.
    Notify,
}

/// The highest number that a client has seen.
pub struct Translator {
    pub last_seq: u64,
}

impl Translator {
    /// A client that has seen nothing.
    pub fn new() -> (r: Translator)
        ensures
            r.last_seq == 0,
    {
        Translator { last_seq: 0 }
    }

    /// Takes note of a replayed event.
    pub fn on_replay(&mut self, seq: u64)
        ensures
            final(self).last_seq == (if old(self).last_seq < seq {
                seq
            } else {
                old(self).last_seq
            }),
    {
        if self.last_seq < seq {
            self.last_seq = seq;
        }
    }

    /// Decides what to do with a live event: one that was seen is skipped, and
    /// approval requests are put to the client.
    pub fn on_live(&mut self, event: &NormalizedHermesEvent) -> (r: Forward)
        ensures
            event.seq <= old(self).last_seq ==> r == Forward::Skip && final(self).last_seq
                == old(self).last_seq,
            event.seq > old(self).last_seq ==> final(self).last_seq == event.seq && r == (
            if event.method@ == "hermes/approvalRequest"@ {
                Forward::Prompt
            } else {
                Forward::Notify
            }),
    {
        if event.seq <= self.last_seq {
            return Forward::Skip;
        }
        self.last_seq = event.seq;
        if same(event.method.as_str(), "hermes/approvalRequest") {
            Forward::Prompt
        } else {
            Forward::Notify
        }
    }
}

/// The choice that a client's word stands for.
pub open spec fn choice_named(word: Seq<char>) -> Option<ApprovalChoice> {
    if word == "once"@ || word == "approve"@ || word == "approved"@ || word == "allow"@ {
        Some(ApprovalChoice::Once)
    } else if word == "session"@ {
        Some(ApprovalChoice::Session)
    } else if word == "always"@ {
        Some(ApprovalChoice::Always)
    } else if word == "deny"@ || word == "reject"@ || word == "denied"@ {
        Some(ApprovalChoice::Deny)
    } else {
        None
    }
}

/// The choice in a client's answer.
pub open spec fn choice_in(v: JsonV) -> Option<ApprovalChoice> {
    match v.str_at("choice"@) {
        Some(raw) => choice_named(ascii_lowered(trimmed(raw))),
        None => None,
    }
}

/// Reads the choice from a client's answer.
pub fn parse_approval_choice(value: &Json) -> (r: Option<ApprovalChoice>)
    ensures
        r == choice_in(value.view()),
{
    let raw = match value.str_at("choice") {
        Some(raw) => raw,
        None => {
            return None;
        },
    };
    let word = to_ascii_lowercase(trim(raw).as_str());
    let w = word.as_str();
    if same(w, "once") || same(w, "approve") || same(w, "approved") || same(w, "allow") {
        Some(ApprovalChoice::Once)
    } else if same(w, "session") {
        Some(ApprovalChoice::Session)
    } else if same(w, "always") {
        Some(ApprovalChoice::Always)
    } else if same(w, "deny") || same(w, "reject") || same(w, "denied") {
        Some(ApprovalChoice::Deny)
    } else {
        None
    }
}

/// Whether a client's answer is meant for all open requests.
pub open spec fn resolve_all_in(v: JsonV) -> bool {
    match v.get("resolveAll"@) {
        Some(x) => x.as_bool() == Some(true),
        None => v.bool_at("resolve_all"@) == Some(true),
    }
}

/// What to tell the gateway for a client's answer. No answer, or one that cannot
/// be read, refuses.
pub fn approval_decision(response: Option<&Json>) -> (r: (ApprovalChoice, bool))
    ensures
        match response {
            None => r == (ApprovalChoice::Deny, false),
            Some(v) => r.0 == (match choice_in(v.view()) {
                Some(c) => c,
                None => ApprovalChoice::Deny,
            }) && r.1 == resolve_all_in(v.view()),
        },
{
    match response {
        None => (ApprovalChoice::Deny, false),
        Some(v) => {
            let choice = match parse_approval_choice(v) {
                Some(c) => c,
                None => ApprovalChoice::Deny,
            };
            let all = match v.get("resolveAll") {
                Some(x) => match x.as_bool() {
                    Some(b) => b,
                    None => false,
                },
                None => match v.bool_at("resolve_all") {
                    Some(b) => b,
                    None => false,
                },
            };
            (choice, all)
        },
    }
}

/// A run that the gateway reports as cancelled ends as cancelled and without an error, and
/// its text stays.
pub proof fn law_cancelled_run_is_cancelled(
    ids: RunIdsV,
    text: Seq<char>,
    auto_approve: bool,
    data: JsonV,
)
    ensures
        ({
            let e = HermesEventV { event: "run.cancelled"@, data };
            let t = translation(ids, text, auto_approve, e);
            &&& t.next == NextV::TerminalCancelled
            &&& t.text == text
            &&& t.publish == Seq::<PublicationV>::empty()
        }),
{
    reveal_strlit("run.cancelled");
    reveal_strlit("message.delta");
    assert("run.cancelled"@[0] != "message.delta"@[0]);
}

// ---------------------------------------------------------------------------
// Laws
// ---------------------------------------------------------------------------
/// The text so far grows by exactly the deltas that clients get: every event
/// publishes the text it adds, or adds none.
pub proof fn law_text_is_what_was_sent(
    ids: RunIdsV,
    text: Seq<char>,
    auto_approve: bool,
    e: HermesEventV,
)
    ensures
        ({
            let t = translation(ids, text, auto_approve, e);
            ||| t.text == text
            ||| exists|d: Seq<char>|
                t.text == text + d && t.publish == seq![#[trigger] delta_publication(ids, d)]
        }),
{
    let t = translation(ids, text, auto_approve, e);
    if e.delta() is Some {
        assert(t.publish == seq![delta_publication(ids, e.delta()->0)]);
    } else if t.text != text {
        let output = output_of(e.data);
        assert(text + output =~= output);
        assert(t.publish == seq![delta_publication(ids, output)]);
    }
}

/// A run that ended is in a terminal status, whatever its outcome, and keeps an
/// outcome that it had before.
pub proof fn law_ended_run_is_terminal(
    s: RunsV,
    counters: Map<Seq<char>, u64>,
    ids: RunIdsV,
    text: Seq<char>,
    outcome: OutcomeV,
    now: i64,
)
    requires
        s.by_turn.dom().contains(ids.turn_id),
    ensures
        ({
            let after = outcome_noted(s, counters, ids, text, outcome, now);
            &&& after.by_turn[ids.turn_id].status.terminal()
            &&& s.by_turn[ids.turn_id].status.terminal() ==> after.by_turn[ids.turn_id].status
                == s.by_turn[ids.turn_id].status
        }),
{
}

} // verus!
