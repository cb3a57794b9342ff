//! Turns of the bridge.
//!
//! A thread has one turn at a time. While it lasts, everything that the program writes
//! is turned into notifications; the end of the program's turn, or of the program, ends
//! it.

use vstd::prelude::*;

use super::process::{
    ClaudeOutbound, ClaudeProcessError, OutboundV, RuntimeState, RuntimeV, process_error_text,
};
use crate::codex::models::ReasoningEffort;
use crate::codex::notifications::{
    ItemCompletedNotification, ItemStartedNotification, ServerNotification,
    TurnCompletedNotification, TurnStartedNotification,
};
use crate::codex::thread::{
    ItemV, ThreadItem, Turn, TurnStatus, TurnV, UserInput, copy_inputs, fresh_turn,
    in_progress_turn, inputs, item_json, items, turn_model,
};
use crate::json::{Json, JsonV, ToJson};
use crate::json_text::{render, rendered};
use crate::rpc::{
    INTERNAL_ERROR, INVALID_PARAMS, METHOD_NOT_FOUND, Publication, PublicationV, publications,
};
use crate::text::{debugged, join2, join3, opt_text, owned, quote, same, texts};
use crate::text_map::TextMap;

verus! {

/// Time that the program gets to take an interruption, in milliseconds.
pub const CONTROL_INTERRUPT_TIMEOUT_MS: u64 = 5_000;

/// Time that the program gets to take a setting, in milliseconds.
pub const CONTROL_SET_TIMEOUT_MS: u64 = 5_000;

/// The budget for thinking that an effort stands for.
pub open spec fn thinking_budget(effort: ReasoningEffort) -> u32 {
    match effort {
        ReasoningEffort::Off => 0,
        ReasoningEffort::Minimal => 1024,
        ReasoningEffort::Low => 4096,
        ReasoningEffort::Medium => 16_384,
        ReasoningEffort::High => 32_768,
        ReasoningEffort::XHigh => 32_768,
        ReasoningEffort::Max => 32_768,
    }
}

/// The budget for thinking that an effort stands for.
pub fn effort_to_thinking_tokens(effort: ReasoningEffort) -> (r: u32)
    ensures
        r == thinking_budget(effort),
{
    match effort {
        ReasoningEffort::Off => 0,
        ReasoningEffort::Minimal => 1024,
        ReasoningEffort::Low => 4096,
        ReasoningEffort::Medium => 16_384,
        ReasoningEffort::High => 32_768,
        ReasoningEffort::XHigh => 32_768,
        ReasoningEffort::Max => 32_768,
    }
}

/// What the program is to run with for a turn.
pub fn turn_overrides(model: Option<String>, effort: Option<ReasoningEffort>) -> (r: RuntimeState)
    ensures
        r.view() == (RuntimeV {
            model: opt_text(model),
            thinking_tokens: match effort {
                Some(e) => Some(thinking_budget(e)),
                None => None,
            },
            permission_mode: None,
        }),
{
    RuntimeState {
        model,
        thinking_tokens: match effort {
            Some(e) => Some(effort_to_thinking_tokens(e)),
            None => None,
        },
        permission_mode: None,
    }
}

// ---------------------------------------------------------------------------
// Errors
// ---------------------------------------------------------------------------
/// Why a request on turns is refused.
#[derive(Debug)]
pub enum TurnError {
    InvalidParams(String),
    ThreadNotLoaded(String),
    TurnIdMismatch { expected: String, actual: String },
    NoActiveTurn(String),
    InputTranslation(String),
    ClaudeRpc(String),
    ReviewUnsupported,
}

/// Why a request is refused, in words, where the program has that name.
pub open spec fn turn_error_text(e: TurnError, name: Seq<char>) -> Seq<char> {
    match e {
        TurnError::InvalidParams(m) => "invalid params: "@ + m@,
        TurnError::ThreadNotLoaded(t) => "thread `"@ + t@
            + "` is not loaded; call thread/start or thread/resume first"@,
        TurnError::TurnIdMismatch { expected, actual } => "expected_turn_id `"@ + expected@
            + ("` does not match active turn `"@ + actual@ + "`"@),
        TurnError::NoActiveTurn(t) => "no active turn for thread `"@ + t@ + "`"@,
        TurnError::InputTranslation(m) => "input translation failed: "@ + m@,
        TurnError::ClaudeRpc(m) => name + " rpc error: "@ + m@,
        TurnError::ReviewUnsupported => "review/start is not implemented in "@ + name
            + "-bridge v1"@,
    }
}

impl TurnError {
    /// The code on the wire.
    pub open spec fn code(&self) -> i64 {
        match self {
            TurnError::ReviewUnsupported => METHOD_NOT_FOUND,
            TurnError::ClaudeRpc(_) => INTERNAL_ERROR,
            _ => INVALID_PARAMS,
        }
    }

    /// The code on the wire.
    pub fn rpc_code(&self) -> (r: i64)
        ensures
            r == self.code(),
    {
        match self {
            TurnError::InvalidParams(_) => INVALID_PARAMS,
            TurnError::TurnIdMismatch { .. } => INVALID_PARAMS,
            TurnError::ThreadNotLoaded(_) => INVALID_PARAMS,
            TurnError::NoActiveTurn(_) => INVALID_PARAMS,
            TurnError::InputTranslation(_) => INVALID_PARAMS,
            TurnError::ReviewUnsupported => METHOD_NOT_FOUND,
            TurnError::ClaudeRpc(_) => INTERNAL_ERROR,
        }
    }

    /// Why the request is refused, in words, where the program has that name.
    pub fn message(&self, name: &str) -> (r: String)
        ensures
            r@ == turn_error_text(*self, name@),
    {
        match self {
            TurnError::InvalidParams(m) => join2("invalid params: ", m.as_str()),
            TurnError::ThreadNotLoaded(t) => join3(
                "thread `",
                t.as_str(),
                "` is not loaded; call thread/start or thread/resume first",
            ),
            TurnError::TurnIdMismatch { expected, actual } => join3(
                "expected_turn_id `",
                expected.as_str(),
                join3("` does not match active turn `", actual.as_str(), "`").as_str(),
            ),
            TurnError::NoActiveTurn(t) => join3("no active turn for thread `", t.as_str(), "`"),
            TurnError::InputTranslation(m) => join2("input translation failed: ", m.as_str()),
            TurnError::ClaudeRpc(m) => join3(name, " rpc error: ", m.as_str()),
            TurnError::ReviewUnsupported => join3(
                "review/start is not implemented in ",
                name,
                "-bridge v1",
            ),
        }
    }
}

/// The error of a turn whose settings the program of that name did not take.
pub fn overrides_failed(e: &ClaudeProcessError, name: &str) -> (r: TurnError)
    ensures
        r matches TurnError::ClaudeRpc(m) && m@ == "applying runtime overrides: "@
            + process_error_text(*e, name@),
{
    TurnError::ClaudeRpc(join2("applying runtime overrides: ", e.message(name).as_str()))
}

/// Refuses a review.
pub fn handle_review_start() -> (r: TurnError)
    ensures
        r == TurnError::ReviewUnsupported,
{
    TurnError::ReviewUnsupported
}

// ---------------------------------------------------------------------------
// Active turns
// ---------------------------------------------------------------------------
/// The turn that each thread has, if it has one.
pub struct ActiveTurns {
    turns: TextMap<String>,
}

impl ActiveTurns {
    /// The turn of each thread.
    pub closed spec fn view(&self) -> Map<Seq<char>, Seq<char>> {
        self.turns@.map_values(|s: String| s@)
    }

    /// No turns.
    pub fn new() -> (r: ActiveTurns)
        ensures
            r.view() == Map::<Seq<char>, Seq<char>>::empty(),
    {
        let r = ActiveTurns { turns: TextMap::new() };
        assert(r.view() =~= Map::empty());
        r
    }

    /// Gives a thread a turn.
    pub fn register_active_turn(&mut self, thread_id: &str, turn_id: &str)
        ensures
            final(self).view() == old(self).view().insert(thread_id@, turn_id@),
    {
        self.turns.insert(thread_id, owned(turn_id));
        assert(self.view() =~= old(self).view().insert(thread_id@, turn_id@));
    }

    /// The turn of a thread.
    pub fn active_turn(&self, thread_id: &str) -> (r: Option<String>)
        ensures
            match r {
                Some(t) => self.view().dom().contains(thread_id@) && t@ == self.view()[thread_id@],
                None => !self.view().dom().contains(thread_id@),
            },
    {
        match self.turns.get(thread_id) {
            Some(t) => Some(t.clone()),
            None => None,
        }
    }

    /// Takes the turn of a thread away.
    pub fn clear_active_turn(&mut self, thread_id: &str)
        ensures
            final(self).view() == old(self).view().remove(thread_id@),
    {
        self.turns.remove(thread_id);
        assert(self.view() =~= old(self).view().remove(thread_id@));
    }
}

// ---------------------------------------------------------------------------
// What clients want to hear
// ---------------------------------------------------------------------------
/// Whether a client wants to hear of a method.
pub open spec fn wanted(method: Seq<char>, opted_out: Seq<Seq<char>>) -> bool {
    !opted_out.contains(method)
}

/// Whether a client wants to hear of a method: it does unless it opted out.
pub fn should_emit(method: &str, opted_out: &Vec<String>) -> (r: bool)
    ensures
        r == wanted(method@, texts(opted_out@)),
{
    let ghost all = texts(opted_out@);
    let mut i: usize = 0;
    while i < opted_out.len()
        invariant
            i <= opted_out@.len(),
            all == texts(opted_out@),
            forall|k: int| 0 <= k < i ==> #[trigger] all[k] != method@,
        decreases opted_out@.len() - i,
    {
        if same(opted_out[i].as_str(), method) {
            assert(all[i as int] == method@);
            return false;
        }
        i += 1;
    }
    true
}

/// A notification as it is sent.
pub open spec fn frame_of(n: ServerNotification) -> PublicationV {
    PublicationV { method: n.name(), params: n.params_json() }
}

/// A notification as it is sent.
pub fn notification_frame(n: &ServerNotification) -> (r: Publication)
    ensures
        r.view() == frame_of(*n),
{
    Publication::new(n.method(), n.params())
}

/// The frames of those notifications that a client wants to hear.
pub open spec fn frames_of(s: Seq<ServerNotification>, opted_out: Seq<Seq<char>>) -> Seq<PublicationV>
    decreases s.len(),
{
    if s.len() == 0 {
        seq![]
    } else if wanted(s.last().name(), opted_out) {
        frames_of(s.drop_last(), opted_out).push(frame_of(s.last()))
    } else {
        frames_of(s.drop_last(), opted_out)
    }
}

/// The frames of those notifications that a client wants to hear.
pub fn wanted_frames(v: &Vec<ServerNotification>, opted_out: &Vec<String>) -> (r: Vec<Publication>)
    ensures
        publications(r@) == frames_of(v@, texts(opted_out@)),
{
    let mut out: Vec<Publication> = Vec::new();
    let mut i: usize = 0;
    assert(publications(out@) =~= frames_of(v@.take(0), texts(opted_out@)));
    while i < v.len()
        invariant
            i <= v@.len(),
            publications(out@) == frames_of(v@.take(i as int), texts(opted_out@)),
        decreases v@.len() - i,
    {
        let ghost was = out@;
        assert(v@.take(i + 1).drop_last() =~= v@.take(i as int));
        assert(v@.take(i + 1).last() == v@[i as int]);
        if should_emit(v[i].method(), opted_out) {
            out.push(notification_frame(&v[i]));
            assert(publications(out@) =~= publications(was).push(frame_of(v@[i as int])));
        }
        i += 1;
    }
    assert(v@.take(i as int) =~= v@);
    out
}

// ---------------------------------------------------------------------------
// Opening a turn
// ---------------------------------------------------------------------------
/// A turn that was opened.
pub struct OpenTurn {
    /// What the client is told.
    pub notify: Vec<Publication>,
    /// The message of the user, for the log of the thread.
    pub user_item: ThreadItem,
    /// What the request is answered.
    pub reply: Json,
}

/// What a client may be told when a turn opens: the turn, and the message of the user.
pub open spec fn opening_frames(
    thread_id: Seq<char>,
    turn_id: Seq<char>,
    item: ItemV,
    started_at: i64,
) -> Seq<PublicationV> {
    let item_params = JsonV::object()
        .with("item"@, item_json(item))
        .with("threadId"@, JsonV::Str(thread_id))
        .with("turnId"@, JsonV::Str(turn_id));
    seq![
        PublicationV {
            method: "turn/started"@,
            params: JsonV::object()
                .with("threadId"@, JsonV::Str(thread_id))
                .with(
                    "turn"@,
                    turn_model(fresh_turn(turn_id, TurnStatus::InProgress, Some(started_at))),
                ),
        },
        PublicationV { method: "item/started"@, params: item_params },
        PublicationV { method: "item/completed"@, params: item_params },
    ]
}

/// Those frames that a client wants to hear.
pub open spec fn heard_of(s: Seq<PublicationV>, opted_out: Seq<Seq<char>>) -> Seq<PublicationV> {
    s.filter(|p: PublicationV| wanted(p.method, opted_out))
}

fn push_wanted(out: &mut Vec<Publication>, p: Publication, opted_out: &Vec<String>)
    ensures
        publications(final(out)@) == (if wanted(p.view().method, texts(opted_out@)) {
            publications(old(out)@).push(p.view())
        } else {
            publications(old(out)@)
        }),
{
    if should_emit(p.method.as_str(), opted_out) {
        out.push(p);
        assert(publications(out@) =~= publications(old(out)@).push(p.view()));
    }
}

/// Opens a turn on a thread: the thread now has it. What the client hears tells when the
/// turn was started; what the request is answered does not.
pub fn open_turn(
    active: &mut ActiveTurns,
    thread_id: &str,
    input: &Vec<UserInput>,
    turn_id: &str,
    item_id: &str,
    started_at: i64,
    opted_out: &Vec<String>,
) -> (r: OpenTurn)
    ensures
        ({
            let item = ItemV::UserMessage { id: item_id@, content: inputs(input@) };
            &&& publications(r.notify@) == heard_of(
                opening_frames(thread_id@, turn_id@, item, started_at),
                texts(opted_out@),
            )
            &&& r.user_item.view() == item
            &&& r.reply.view() == JsonV::object().with(
                "turn"@,
                turn_model(fresh_turn(turn_id@, TurnStatus::InProgress, None)),
            )
            &&& final(active).view() == old(active).view().insert(thread_id@, turn_id@)
        }),
{
    active.register_active_turn(thread_id, turn_id);
    let item = ThreadItem::UserMessage { id: owned(item_id), content: copy_inputs(input) };
    let ghost v = item.view();
    let ghost out_of = texts(opted_out@);
    let turn = in_progress_turn(turn_id, started_at);
    let mut for_reply = in_progress_turn(turn_id, started_at);
    for_reply.started_at = None;
    let started = ServerNotification::TurnStarted(
        TurnStartedNotification { thread_id: owned(thread_id), turn },
    );
    let item_started = ServerNotification::ItemStarted(
        ItemStartedNotification {
            item: item.copy(),
            thread_id: owned(thread_id),
            turn_id: owned(turn_id),
            parent_item_id: None,
        },
    );
    let item_completed = ServerNotification::ItemCompleted(
        ItemCompletedNotification {
            item: item.copy(),
            thread_id: owned(thread_id),
            turn_id: owned(turn_id),
            parent_item_id: None,
        },
    );
    let a = notification_frame(&started);
    let b = notification_frame(&item_started);
    let c = notification_frame(&item_completed);
    let ghost all = opening_frames(thread_id@, turn_id@, v, started_at);
    proof {
        assert(a.view() == all[0]);
        assert(b.view() == all[1]);
        assert(c.view() == all[2]);
        let keep = |p: PublicationV| wanted(p.method, out_of);
        assert(all =~= seq![].push(all[0]).push(all[1]).push(all[2]));
        lemma_filter_push(Seq::<PublicationV>::empty(), all[0], keep);
        lemma_filter_push(seq![].push(all[0]), all[1], keep);
        lemma_filter_push(seq![].push(all[0]).push(all[1]), all[2], keep);
        assert(Seq::<PublicationV>::empty().filter(keep) =~= seq![]) by {
            reveal(Seq::filter);
        }
    }
    let mut notify: Vec<Publication> = Vec::new();
    assert(publications(notify@) =~= seq![]);
    push_wanted(&mut notify, a, opted_out);
    push_wanted(&mut notify, b, opted_out);
    push_wanted(&mut notify, c, opted_out);
    OpenTurn {
        notify,
        user_item: item,
        reply: Json::object().with("turn", for_reply.to_json()),
    }
}

proof fn lemma_filter_push(s: Seq<PublicationV>, x: PublicationV, keep: spec_fn(PublicationV) -> bool)
    ensures
        s.push(x).filter(keep) == (if keep(x) {
            s.filter(keep).push(x)
        } else {
            s.filter(keep)
        }),
{
    reveal(Seq::filter);
    assert(s.push(x).drop_last() =~= s);
}

/// What a request for a turn is refused with, before anything is tried: the thread has to
/// have a program, and the input has to make sense.
pub fn check_turn_start(thread_id: &str, loaded: bool, input_error: Option<&str>) -> (r: Option<
    TurnError,
>)
    ensures
        match r {
            None => loaded && input_error is None,
            Some(TurnError::ThreadNotLoaded(t)) => !loaded && t@ == thread_id@,
            Some(TurnError::InputTranslation(m)) => loaded && input_error is Some && m@
                == input_error->Some_0@,
            Some(_) => false,
        },
{
    if !loaded {
        return Some(TurnError::ThreadNotLoaded(owned(thread_id)));
    }
    match input_error {
        Some(e) => Some(TurnError::InputTranslation(owned(e))),
        None => None,
    }
}

/// Takes back a turn whose message the program could not get.
pub fn abandon_turn(active: &mut ActiveTurns, thread_id: &str, error: &str) -> (r: TurnError)
    ensures
        r matches TurnError::ClaudeRpc(m) && m@ == error@,
        final(active).view() == old(active).view().remove(thread_id@),
{
    active.clear_active_turn(thread_id);
    TurnError::ClaudeRpc(owned(error))
}

// ---------------------------------------------------------------------------
// Steering and interrupting
// ---------------------------------------------------------------------------
/// Whether a turn can be steered: its thread has to have a program and that turn. Gives
/// back the id of the turn.
pub fn check_turn_steer(
    active: &ActiveTurns,
    thread_id: &str,
    loaded: bool,
    expected_turn_id: &str,
) -> (r: Result<String, TurnError>)
    ensures
        ({
            let turns = active.view();
            if !loaded {
                r is Err && (r->Err_0 matches TurnError::ThreadNotLoaded(t) && t@ == thread_id@)
            } else if !turns.dom().contains(thread_id@) {
                r is Err && (r->Err_0 matches TurnError::NoActiveTurn(t) && t@ == thread_id@)
            } else if turns[thread_id@] != expected_turn_id@ {
                r is Err && (r->Err_0 matches TurnError::TurnIdMismatch { expected, actual }
                    && expected@ == expected_turn_id@ && actual@ == turns[thread_id@])
            } else {
                r is Ok && r->Ok_0@ == expected_turn_id@
            }
        }),
{
    if !loaded {
        return Err(TurnError::ThreadNotLoaded(owned(thread_id)));
    }
    match active.active_turn(thread_id) {
        None => Err(TurnError::NoActiveTurn(owned(thread_id))),
        Some(turn) => {
            if same(turn.as_str(), expected_turn_id) {
                Ok(turn)
            } else {
                Err(TurnError::TurnIdMismatch { expected: owned(expected_turn_id), actual: turn })
            }
        },
    }
}

/// Whether a turn can be interrupted: its thread has to have a program, and no other turn.
pub fn check_turn_interrupt(active: &ActiveTurns, thread_id: &str, loaded: bool, turn_id: &str) -> (r:
    Option<TurnError>)
    ensures
        ({
            let turns = active.view();
            if !loaded {
                r matches Some(TurnError::ThreadNotLoaded(t)) && t@ == thread_id@
            } else if turns.dom().contains(thread_id@) && turns[thread_id@] != turn_id@ {
                r matches Some(TurnError::TurnIdMismatch { expected, actual }) && expected@
                    == turn_id@ && actual@ == turns[thread_id@]
            } else {
                r is None
            }
        }),
{
    if !loaded {
        return Some(TurnError::ThreadNotLoaded(owned(thread_id)));
    }
    match active.active_turn(thread_id) {
        Some(turn) => {
            if same(turn.as_str(), turn_id) {
                None
            } else {
                Some(TurnError::TurnIdMismatch { expected: owned(turn_id), actual: turn })
            }
        },
        None => None,
    }
}

/// Whether the program has to be killed after it was asked to interrupt its turn: unless
/// it took the request.
pub fn must_kill(asked: &Result<Option<Json>, ClaudeProcessError>) -> (r: bool)
    ensures
        r == (*asked is Err),
{
    match asked {
        Ok(_) => false,
        Err(_) => true,
    }
}

// ---------------------------------------------------------------------------
// The event pump
// ---------------------------------------------------------------------------
/// What is done because of a message of the program, besides telling the client.
pub enum PumpEffect {
    Nothing,
    /// What the program says of itself is remembered.
    RefreshInit(Json),
    /// What it says of rate limits is remembered.
    RefreshRateLimits(Json),
    /// The client is asked whether a tool may run.
    AskPermission { request_id: String, request: Json },
    /// The program is told that nobody can answer.
    ReplyControlError { request_id: String, message: String },
}

/// The model of an effect.
pub enum EffectV {
    Nothing,
    RefreshInit(JsonV),
    RefreshRateLimits(JsonV),
    AskPermission { request_id: Seq<char>, request: JsonV },
    ReplyControlError { request_id: Seq<char>, message: Seq<char> },
}

impl PumpEffect {
    /// The model of this effect.
    pub open spec fn view(&self) -> EffectV {
        match self {
            PumpEffect::Nothing => EffectV::Nothing,
            PumpEffect::RefreshInit(j) => EffectV::RefreshInit(j.view()),
            PumpEffect::RefreshRateLimits(j) => EffectV::RefreshRateLimits(j.view()),
            PumpEffect::AskPermission { request_id, request } => EffectV::AskPermission {
                request_id: request_id@,
                request: request.view(),
            },
            PumpEffect::ReplyControlError { request_id, message } => EffectV::ReplyControlError {
                request_id: request_id@,
                message: message@,
            },
        }
    }
}

/// What a request of the program leads to: it may ask for permission; other requests that
/// name themselves are turned down so that it does not wait; the rest is passed over.
pub open spec fn request_effect(v: JsonV) -> EffectV {
    match v.str_at("request_id"@) {
        None => EffectV::Nothing,
        Some(id) => if v.str_at2("request"@, "subtype"@) == Some("can_use_tool"@) {
            EffectV::AskPermission { request_id: id, request: v }
        } else {
            EffectV::ReplyControlError {
                request_id: id,
                message: "bridge does not handle this control_request subtype yet"@,
            }
        },
    }
}

/// What a message of the program leads to, besides telling the client.
pub open spec fn side_effect(m: OutboundV) -> EffectV {
    match m {
        OutboundV::Init(j) => EffectV::RefreshInit(j),
        OutboundV::RateLimitEvent(j) => EffectV::RefreshRateLimits(
            match j.get("rate_limit_info"@) {
                Some(info) => info,
                None => JsonV::Null,
            },
        ),
        OutboundV::ControlRequest(v) => request_effect(v),
        _ => EffectV::Nothing,
    }
}

/// A text that may be absent, as it is shown for debugging.
pub open spec fn shown_reason(reason: Option<Seq<char>>) -> Seq<char> {
    match reason {
        Some(r) => "Some("@ + debugged(r) + ")"@,
        None => "None"@,
    }
}

/// Why a turn failed, if it did: what it says itself, or else how it ended.
pub open spec fn failure_of(
    name: Seq<char>,
    subtype: Seq<char>,
    is_error: bool,
    result: Option<Seq<char>>,
    reason: Option<Seq<char>>,
) -> Option<Seq<char>> {
    if is_error || subtype != "success"@ {
        match result {
            Some(r) => if r.len() > 0 {
                Some(r)
            } else {
                Some(ended_with(name, subtype, reason))
            },
            None => Some(ended_with(name, subtype, reason)),
        }
    } else {
        None
    }
}

/// How a turn of the program of that name ended that does not say why it failed.
pub open spec fn ended_with(
    name: Seq<char>,
    subtype: Seq<char>,
    reason: Option<Seq<char>>,
) -> Seq<char> {
    name + " turn ended with subtype "@ + subtype + (" (terminal_reason="@ + shown_reason(reason)
        + ")"@)
}

/// The items that are complete, as far as the client hears of them.
pub open spec fn recorded_items(s: Seq<ServerNotification>, opted_out: Seq<Seq<char>>) -> Seq<ItemV>
    decreases s.len(),
{
    if s.len() == 0 {
        seq![]
    } else {
        let rest = recorded_items(s.drop_last(), opted_out);
        match s.last() {
            ServerNotification::ItemCompleted(n) => if wanted(s.last().name(), opted_out) {
                rest.push(n.item.view())
            } else {
                rest
            },
            _ => rest,
        }
    }
}

/// What a step of the pump leads to.
pub struct PumpStep {
    pub effect: PumpEffect,
    /// Items for the log of the thread.
    pub record: Vec<ThreadItem>,
    /// What the client is told.
    pub notify: Vec<Publication>,
}

/// A turn that lasts.
pub struct EventPump {
    /// The name of the program.
    pub name: String,
    pub thread_id: String,
    pub turn_id: String,
    pub started_at: i64,
    pub error_message: Option<String>,
    pub over: bool,
}

/// The model of a turn that lasts.
#[verifier::ext_equal]
pub struct PumpV {
    pub name: Seq<char>,
    pub thread_id: Seq<char>,
    pub turn_id: Seq<char>,
    pub started_at: i64,
    pub error: Option<Seq<char>>,
    pub over: bool,
}

/// A turn after a message of the program.
pub open spec fn pumped(p: PumpV, m: OutboundV) -> PumpV {
    match m {
        OutboundV::Result { subtype, is_error, result, reason } => PumpV {
            error: match failure_of(p.name, subtype, is_error, result, reason) {
                Some(e) => Some(e),
                None => p.error,
            },
            over: true,
            ..p
        },
        _ => p,
    }
}

/// A turn when its program has ended.
pub open spec fn cut_off(p: PumpV) -> PumpV {
    PumpV { error: Some(p.name + " process exited unexpectedly"@), over: true, ..p }
}

/// Whether a turn failed.
pub open spec fn final_status(error: Option<Seq<char>>) -> TurnStatus {
    match error {
        Some(_) => TurnStatus::Failed,
        None => TurnStatus::Completed,
    }
}

/// How long a turn took, in milliseconds; a clock that went back does not make it
/// negative.
pub open spec fn turn_duration(started_at: int, completed_at: int) -> int {
    if completed_at > started_at {
        (completed_at - started_at) * 1000
    } else {
        0
    }
}

/// A turn at its end.
pub open spec fn ended_turn(p: PumpV, completed_at: i64) -> TurnV {
    TurnV {
        status: final_status(p.error),
        error: p.error,
        completed_at: Some(completed_at),
        duration_ms: Some(turn_duration(p.started_at as int, completed_at as int) as i64),
        ..fresh_turn(p.turn_id, TurnStatus::InProgress, Some(p.started_at))
    }
}

fn opt_owned_error(e: &Option<String>) -> (r: Option<crate::codex::thread::TurnError>)
    ensures
        crate::codex::thread::error_text(r) == opt_text(*e),
{
    match e {
        Some(m) => Some(crate::codex::thread::TurnError { message: m.clone() }),
        None => None,
    }
}

fn effect_of(m: &ClaudeOutbound) -> (r: PumpEffect)
    ensures
        r.view() == side_effect(m.view()),
{
    match m {
        ClaudeOutbound::Init(j) => PumpEffect::RefreshInit(j.copy()),
        ClaudeOutbound::RateLimitEvent(j) => PumpEffect::RefreshRateLimits(
            match j.get("rate_limit_info") {
                Some(info) => info.copy(),
                None => Json::Null,
            },
        ),
        ClaudeOutbound::ControlRequest(v) => match v.str_at("request_id") {
            None => PumpEffect::Nothing,
            Some(id) => {
                if crate::text::opt_same(v.str_at2("request", "subtype"), "can_use_tool") {
                    PumpEffect::AskPermission { request_id: owned(id), request: v.copy() }
                } else {
                    PumpEffect::ReplyControlError {
                        request_id: owned(id),
                        message: owned("bridge does not handle this control_request subtype yet"),
                    }
                }
            },
        },
        _ => PumpEffect::Nothing,
    }
}

fn items_to_record(v: &Vec<ServerNotification>, opted_out: &Vec<String>) -> (r: Vec<ThreadItem>)
    ensures
        items(r@) == recorded_items(v@, texts(opted_out@)),
{
    let mut out: Vec<ThreadItem> = Vec::new();
    let mut i: usize = 0;
    assert(items(out@) =~= recorded_items(v@.take(0), texts(opted_out@)));
    while i < v.len()
        invariant
            i <= v@.len(),
            items(out@) == recorded_items(v@.take(i as int), texts(opted_out@)),
        decreases v@.len() - i,
    {
        let ghost was = out@;
        assert(v@.take(i + 1).drop_last() =~= v@.take(i as int));
        assert(v@.take(i + 1).last() == v@[i as int]);
        if let ServerNotification::ItemCompleted(n) = &v[i] {
            if should_emit(v[i].method(), opted_out) {
                out.push(n.item.copy());
                assert(items(out@) =~= items(was).push(n.item.view()));
            }
        }
        i += 1;
    }
    assert(v@.take(i as int) =~= v@);
    out
}

impl EventPump {
    /// The model of this turn.
    pub open spec fn view(&self) -> PumpV {
        PumpV {
            name: self.name@,
            thread_id: self.thread_id@,
            turn_id: self.turn_id@,
            started_at: self.started_at,
            error: opt_text(self.error_message),
            over: self.over,
        }
    }

    /// A turn that was just opened with the program of that name.
    pub fn new(name: &str, thread_id: &str, turn_id: &str, started_at: i64) -> (r: EventPump)
        ensures
            r.view() == (PumpV {
                name: name@,
                thread_id: thread_id@,
                turn_id: turn_id@,
                started_at,
                error: None,
                over: false,
            }),
    {
        EventPump {
            name: owned(name),
            thread_id: owned(thread_id),
            turn_id: owned(turn_id),
            started_at,
            error_message: None,
            over: false,
        }
    }

    /// Takes a message of the program, together with the notifications that it stands
    /// for.
    pub fn step(
        &mut self,
        message: &ClaudeOutbound,
        translated: &Vec<ServerNotification>,
        opted_out: &Vec<String>,
    ) -> (r: PumpStep)
        ensures
            final(self).view() == pumped(old(self).view(), message.view()),
            r.effect.view() == side_effect(message.view()),
            items(r.record@) == recorded_items(translated@, texts(opted_out@)),
            publications(r.notify@) == frames_of(translated@, texts(opted_out@)),
    {
        if let ClaudeOutbound::Result(t) = message {
            if t.is_error || !same(t.subtype.as_str(), "success") {
                let reason = match &t.terminal_reason {
                    Some(x) => join3("Some(", quote(x.as_str()).as_str(), ")"),
                    None => owned("None"),
                };
                let ended = join2(self.name.as_str(), " turn ended with subtype ");
                let how = join3(
                    ended.as_str(),
                    t.subtype.as_str(),
                    join3(" (terminal_reason=", reason.as_str(), ")").as_str(),
                );
                let why = match &t.result {
                    Some(x) => if x.as_str().is_empty() {
                        how
                    } else {
                        x.clone()
                    },
                    None => how,
                };
                self.error_message = Some(why);
            }
            self.over = true;
        }
        PumpStep {
            effect: effect_of(message),
            record: items_to_record(translated, opted_out),
            notify: wanted_frames(translated, opted_out),
        }
    }

    /// Notes that the program has ended.
    pub fn closed(&mut self)
        ensures
            final(self).view() == cut_off(old(self).view()),
    {
        self.error_message = Some(
            join2(self.name.as_str(), " process exited unexpectedly"),
        );
        self.over = true;
    }

    /// Ends the turn: the thread has none any more, and the client is told if it wants to
    /// hear it.
    pub fn finish(&self, active: &mut ActiveTurns, completed_at: i64, opted_out: &Vec<String>) -> (r: (
        Turn,
        Option<Publication>,
    ))
        requires
            i64::MIN <= (completed_at - self.started_at) * 1000 <= i64::MAX,
        ensures
            r.0.view() == ended_turn(self.view(), completed_at),
            wanted("turn/completed"@, texts(opted_out@)) ==> r.1 is Some && r.1->Some_0.view()
                == (PublicationV {
                method: "turn/completed"@,
                params: JsonV::object()
                    .with("threadId"@, JsonV::Str(self.view().thread_id))
                    .with("turn"@, turn_model(ended_turn(self.view(), completed_at))),
            }),
            !wanted("turn/completed"@, texts(opted_out@)) ==> r.1 is None,
            final(active).view() == old(active).view().remove(self.view().thread_id),
    {
        let duration: i64 = if completed_at > self.started_at {
            (completed_at - self.started_at) * 1000
        } else {
            0
        };
        let mut turn = in_progress_turn(self.turn_id.as_str(), self.started_at);
        turn.status = match &self.error_message {
            Some(_) => TurnStatus::Failed,
            None => TurnStatus::Completed,
        };
        turn.error = opt_owned_error(&self.error_message);
        turn.completed_at = Some(completed_at);
        turn.duration_ms = Some(duration);
        active.clear_active_turn(self.thread_id.as_str());
        let frame = if should_emit("turn/completed", opted_out) {
            let n = ServerNotification::TurnCompleted(
                TurnCompletedNotification {
                    thread_id: self.thread_id.clone(),
                    turn: turn.copy(),
                },
            );
            Some(notification_frame(&n))
        } else {
            None
        };
        (turn, frame)
    }
}

// ---------------------------------------------------------------------------
// Questions to the user
// ---------------------------------------------------------------------------
/// The message that gives the program the outcome of a tool.
pub open spec fn tool_result(tool_use_id: Seq<char>, content: Seq<char>, is_error: bool) -> JsonV {
    JsonV::object()
        .with("type"@, JsonV::Str("user"@))
        .with(
            "message"@,
            JsonV::object()
                .with("role"@, JsonV::Str("user"@))
                .with(
                    "content"@,
                    JsonV::Arr(
                        seq![
                            JsonV::object()
                                .with("type"@, JsonV::Str("tool_result"@))
                                .with("tool_use_id"@, JsonV::Str(tool_use_id))
                                .with("content"@, JsonV::Str(content))
                                .with("is_error"@, JsonV::Bool(is_error)),
                        ],
                    ),
                ),
        )
}

/// The message that gives the program the outcome of a tool.
pub fn user_envelope_with_tool_result(tool_use_id: &str, content: String, is_error: bool) -> (j: Json)
    ensures
        j.view() == tool_result(tool_use_id@, content@, is_error),
{
    let part = Json::object()
        .with("type", Json::text("tool_result"))
        .with("tool_use_id", Json::text(tool_use_id))
        .with("content", Json::Str(content))
        .with("is_error", Json::Bool(is_error));
    Json::object()
        .with("type", Json::text("user"))
        .with(
            "message",
            Json::object().with("role", Json::text("user")).with("content", Json::array1(part)),
        )
}

/// The answers to one question: none, one, or a list.
pub open spec fn answer_json(s: Seq<Seq<char>>) -> JsonV {
    if s.len() == 0 {
        JsonV::Null
    } else if s.len() == 1 {
        JsonV::Str(s[0])
    } else {
        JsonV::Arr(s.map_values(|t: Seq<char>| JsonV::Str(t)))
    }
}

/// The answers to the questions, by question.
pub open spec fn answers_object(s: Seq<(String, Vec<String>)>) -> JsonV
    decreases s.len(),
{
    if s.len() == 0 {
        JsonV::object()
    } else {
        answers_object(s.drop_last()).with(s.last().0@, answer_json(texts(s.last().1@)))
    }
}

fn answer_value(v: &Vec<String>) -> (j: Json)
    ensures
        j.view() == answer_json(texts(v@)),
{
    assert(texts(v@).len() == v@.len());
    if v.len() == 0 {
        Json::Null
    } else if v.len() == 1 {
        assert(texts(v@)[0] == v@[0]@);
        Json::text(v[0].as_str())
    } else {
        assert(v@.map_values(|s: String| JsonV::Str(s@)) =~= texts(v@).map_values(
            |t: Seq<char>| JsonV::Str(t),
        ));
        crate::json::texts_to_json(v)
    }
}

/// The message that gives the program the answers of the user.
pub fn synthesize_user_input_tool_result(
    tool_use_id: &str,
    answers: &Vec<(String, Vec<String>)>,
    is_error: bool,
) -> (j: Json)
    ensures
        j.view() == tool_result(
            tool_use_id@,
            rendered(JsonV::object().with("answers"@, answers_object(answers@))),
            is_error,
        ),
{
    let mut fields = Json::object();
    let mut i: usize = 0;
    while i < answers.len()
        invariant
            i <= answers@.len(),
            fields.view() == answers_object(answers@.take(i as int)),
            fields.view() is Obj,
        decreases answers@.len() - i,
    {
        assert(answers@.take(i + 1).drop_last() =~= answers@.take(i as int));
        let (name, given) = &answers[i];
        fields = fields.with(name.as_str(), answer_value(given));
        i += 1;
    }
    assert(answers@.take(i as int) =~= answers@);
    let body = render(&Json::object().with("answers", fields));
    user_envelope_with_tool_result(tool_use_id, body, is_error)
}

/// The message that tells the program that the user could not be asked.
pub fn user_input_failed(tool_use_id: &str, error: &str) -> (j: Json)
    ensures
        j.view() == tool_result(
            tool_use_id@,
            rendered(
                JsonV::object().with(
                    "error"@,
                    JsonV::Str("bridge could not collect user answers: "@ + error@),
                ),
            ),
            true,
        ),
{
    let text = join2("bridge could not collect user answers: ", error);
    let body = render(&Json::object().with("error", Json::Str(text)));
    user_envelope_with_tool_result(tool_use_id, body, true)
}

// ---------------------------------------------------------------------------
// Laws
// ---------------------------------------------------------------------------
/// A turn that a thread was given is its turn until it is taken away, and other threads
/// keep theirs.
pub proof fn law_active_turn_round_trip(
    turns: Map<Seq<char>, Seq<char>>,
    thread: Seq<char>,
    turn: Seq<char>,
    other: Seq<char>,
)
    requires
        other != thread,
    ensures
        turns.insert(thread, turn).dom().contains(thread),
        turns.insert(thread, turn)[thread] == turn,
        !turns.insert(thread, turn).remove(thread).dom().contains(thread),
        turns.insert(thread, turn).remove(thread).dom().contains(other) == turns.dom().contains(
            other,
        ),
        turns.dom().contains(other) ==> turns.insert(thread, turn).remove(thread)[other]
            == turns[other],
{
}

/// More effort never means a smaller budget.
pub proof fn law_budget_grows_with_effort()
    ensures
        thinking_budget(ReasoningEffort::Off) <= thinking_budget(ReasoningEffort::Minimal),
        thinking_budget(ReasoningEffort::Minimal) <= thinking_budget(ReasoningEffort::Low),
        thinking_budget(ReasoningEffort::Low) <= thinking_budget(ReasoningEffort::Medium),
        thinking_budget(ReasoningEffort::Medium) <= thinking_budget(ReasoningEffort::High),
        thinking_budget(ReasoningEffort::High) <= thinking_budget(ReasoningEffort::XHigh),
        thinking_budget(ReasoningEffort::XHigh) <= thinking_budget(ReasoningEffort::Max),
{
}

/// Only the end of the program's turn ends a turn, and a turn that lasts has no error:
/// errors come with the end.
pub proof fn law_turn_ends_with_its_result(p: PumpV, m: OutboundV)
    requires
        !p.over,
        p.error is None,
    ensures
        pumped(p, m).over <==> m is Result,
        !pumped(p, m).over ==> pumped(p, m).error is None,
        cut_off(p).over,
        final_status(cut_off(p).error) == TurnStatus::Failed,
{
}

/// A turn is completed exactly if its result is a success without an error.
pub proof fn law_success_completes(p: PumpV, m: OutboundV)
    requires
        !p.over,
        p.error is None,
    ensures
        m matches OutboundV::Result { subtype, is_error, result, reason } ==> (final_status(
            pumped(p, m).error,
        ) == TurnStatus::Completed <==> subtype == "success"@ && !is_error),
{
}

/// A client that opted out of finished items finds none of them in the log; one that did
/// not finds them all.
pub proof fn law_log_follows_what_clients_hear(s: Seq<ServerNotification>, opted_out: Seq<Seq<char>>)
    ensures
        !wanted("item/completed"@, opted_out) ==> recorded_items(s, opted_out).len() == 0,
        wanted("item/completed"@, opted_out) ==> recorded_items(s, opted_out).len()
            == completed_count(s),
    decreases s.len(),
{
    if s.len() > 0 {
        law_log_follows_what_clients_hear(s.drop_last(), opted_out);
    }
}

/// How many notifications tell of a finished item.
pub open spec fn completed_count(s: Seq<ServerNotification>) -> nat
    decreases s.len(),
{
    if s.len() == 0 {
        0
    } else {
        completed_count(s.drop_last()) + (if s.last() is ItemCompleted {
            1nat
        } else {
            0
        })
    }
}

} // verus!
