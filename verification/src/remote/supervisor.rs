//! One connection to the app server, and what is made of it.
//!
//! A connection introduces itself, waits a little for the status of the remote control,
//! switches the remote control on if it is not healthy, and then keeps it so. What
//! arrives is handled at every stage. Sockets, clocks and files are outside: a
//! connection is told what happened, and says what to send.

use vstd::prelude::*;

use super::auth::{AuthRefreshResponse, AuthV, auth_json};
use super::jsonrpc::{
    IdV, InboundMessage, InboundV, error_frame, notification, notification_frame, opt_value,
    redacted, redacted_json, request, request_frame, response_error_frame, response_result_frame,
    result_frame,
};
use super::status::{
    CodexRemoteControlSnapshot, CodexRemoteControlState, SnapshotV, only_state, state_reason,
    status_told,
};
use crate::codex::notifications::{
    RemoteControlConnectionStatus, RemoteControlStatusChangedNotification, connection_status_named,
};
use crate::decode::{maybe_str, read_maybe_str};
use crate::json::{Json, JsonV, jsons};
use crate::json_text::rendered;
use crate::launch::paths::{is_same_path, same_path};
use crate::rpc::METHOD_NOT_FOUND;
use crate::text::{decimal_i64, decimal_int, join2, join3, opt_text, owned, same};

verus! {

// ---------------------------------------------------------------------------
// Configuration
// ---------------------------------------------------------------------------
/// How long things take; all times are in milliseconds.
#[derive(Debug, Clone, Copy, PartialEq, Eq, Structural)]
pub struct CodexRemoteControlTuning {
    /// Time between two looks at the status.
    pub interval_ms: u64,
    /// Age at which a status is too old.
    pub stale_after_ms: u64,
    /// How long a connection may be made.
    pub connecting_grace_ms: u64,
    /// How long the first status is waited for.
    pub initial_status_wait_ms: u64,
    /// How long a status is waited for after the remote control was switched on.
    pub post_enable_wait_ms: u64,
    /// Time between two connections.
    pub reconnect_delay_ms: u64,
    /// Time that a request gets.
    pub request_timeout_ms: u64,
}

impl Default for CodexRemoteControlTuning {
    fn default() -> (r: Self)
        ensures
            r == (CodexRemoteControlTuning {
                interval_ms: 30_000,
                stale_after_ms: 300_000,
                connecting_grace_ms: 120_000,
                initial_status_wait_ms: 3_000,
                post_enable_wait_ms: 3_000,
                reconnect_delay_ms: 5_000,
                request_timeout_ms: 30_000,
            }),
    {
        CodexRemoteControlTuning {
            interval_ms: 30_000,
            stale_after_ms: 300_000,
            connecting_grace_ms: 120_000,
            initial_status_wait_ms: 3_000,
            post_enable_wait_ms: 3_000,
            reconnect_delay_ms: 5_000,
            request_timeout_ms: 30_000,
        }
    }
}

/// What is supervised.
#[derive(Debug)]
pub struct CodexRemoteControlConfig {
    pub socket_path: String,
    pub auth_path: String,
    pub tuning: CodexRemoteControlTuning,
}

impl CodexRemoteControlConfig {
    /// Whether two configurations are the same.
    pub open spec fn agrees(&self, other: CodexRemoteControlConfig, windows: bool) -> bool {
        &&& same_path(self.socket_path@, other.socket_path@, windows)
        &&& same_path(self.auth_path@, other.auth_path@, windows)
        &&& self.tuning == other.tuning
    }

    /// Whether two configurations are the same.
    pub fn equals(&self, other: &CodexRemoteControlConfig, windows: bool) -> (r: bool)
        ensures
            r == self.agrees(*other, windows),
    {
        is_same_path(self.socket_path.as_str(), other.socket_path.as_str(), windows)
            && is_same_path(self.auth_path.as_str(), other.auth_path.as_str(), windows)
            && self.tuning == other.tuning
    }

    /// A copy.
    pub fn copy(&self) -> (r: CodexRemoteControlConfig)
        ensures
            r.socket_path@ == self.socket_path@,
            r.auth_path@ == self.auth_path@,
            r.tuning == self.tuning,
    {
        CodexRemoteControlConfig {
            socket_path: self.socket_path.clone(),
            auth_path: self.auth_path.clone(),
            tuning: self.tuning,
        }
    }
}

/// Code of the refusal to attest.
pub const ATTESTATION_REFUSED: i64 = -32000;

/// Time that the app server gets to introduce itself, in milliseconds.
pub const INITIALIZE_TIMEOUT_MS: u64 = 10_000;

// ---------------------------------------------------------------------------
// Health
// ---------------------------------------------------------------------------
/// The age of a time.
pub open spec fn age(now: u64, then: u64) -> int {
    if now >= then {
        now - then
    } else {
        0
    }
}

fn millis_since(now: u64, then: u64) -> (r: u64)
    ensures
        r == age(now, then),
{
    if now >= then {
        now - then
    } else {
        0
    }
}

/// Whether the remote control works, or is about to.
pub open spec fn healthy(s: SnapshotV, grace_ms: u64, now: u64) -> bool {
    match s.state {
        CodexRemoteControlState::Connected => true,
        CodexRemoteControlState::Connecting => match s.last_update_unix_ms {
            Some(t) => age(now, t) < grace_ms,
            None => false,
        },
        _ => false,
    }
}

/// Whether what is known is too old, or nothing is known.
pub open spec fn stale(s: SnapshotV, stale_after_ms: u64, now: u64) -> bool {
    match s.last_update_unix_ms {
        Some(t) => age(now, t) >= stale_after_ms,
        None => true,
    }
}

/// Why the remote control is switched on.
pub open spec fn reason_for(s: SnapshotV, is_old: bool) -> Seq<char> {
    if s.last_update_unix_ms is None {
        "missing-status"@
    } else if is_old {
        "stale-status:"@ + s.state.name()
    } else {
        "status:"@ + s.state.name()
    }
}

/// Whether the remote control works, or is about to.
pub fn is_healthy(snapshot: &CodexRemoteControlSnapshot, connecting_grace_ms: u64, now: u64) -> (r:
    bool)
    ensures
        r == healthy(snapshot.view(), connecting_grace_ms, now),
{
    match snapshot.state {
        CodexRemoteControlState::Connected => true,
        CodexRemoteControlState::Connecting => match snapshot.last_update_unix_ms {
            Some(t) => millis_since(now, t) < connecting_grace_ms,
            None => false,
        },
        _ => false,
    }
}

/// Whether what is known is too old, or nothing is known.
pub fn is_stale(snapshot: &CodexRemoteControlSnapshot, stale_after_ms: u64, now: u64) -> (r: bool)
    ensures
        r == stale(snapshot.view(), stale_after_ms, now),
{
    match snapshot.last_update_unix_ms {
        Some(t) => millis_since(now, t) >= stale_after_ms,
        None => true,
    }
}

/// Why the remote control is switched on.
pub fn unhealthy_reason(snapshot: &CodexRemoteControlSnapshot, is_old: bool) -> (r: String)
    ensures
        r@ == reason_for(snapshot.view(), is_old),
{
    if snapshot.last_update_unix_ms.is_none() {
        return owned("missing-status");
    }
    if is_old {
        return join2("stale-status:", state_reason(snapshot.state));
    }
    join2("status:", state_reason(snapshot.state))
}

/// Why the remote control has to be switched on, if it has to.
pub open spec fn enable_reason(s: SnapshotV, tuning: CodexRemoteControlTuning, now: u64) -> Option<
    Seq<char>,
> {
    let is_old = stale(s, tuning.stale_after_ms, now);
    if healthy(s, tuning.connecting_grace_ms, now) && !is_old {
        None
    } else {
        Some(reason_for(s, is_old))
    }
}

/// Why the remote control has to be switched on, if it has to.
pub fn reason_to_enable(
    snapshot: &CodexRemoteControlSnapshot,
    tuning: &CodexRemoteControlTuning,
    now: u64,
) -> (r: Option<String>)
    ensures
        opt_text(r) == enable_reason(snapshot.view(), *tuning, now),
{
    let is_old = is_stale(snapshot, tuning.stale_after_ms, now);
    if is_healthy(snapshot, tuning.connecting_grace_ms, now) && !is_old {
        None
    } else {
        Some(unhealthy_reason(snapshot, is_old))
    }
}

/// Takes the next id.
pub fn take_id(next_id: &mut i64) -> (r: i64)
    requires
        *old(next_id) < i64::MAX,
    ensures
        r == *old(next_id),
        *final(next_id) == *old(next_id) + 1,
{
    let id: i64 = *next_id;
    *next_id = id + 1;
    id
}

// ---------------------------------------------------------------------------
// Requests
// ---------------------------------------------------------------------------
/// How a connection introduces itself: as the desktop application, which is what remote
/// environments are listed for.
pub open spec fn initialize_params() -> JsonV {
    JsonV::object()
        .with(
            "clientInfo"@,
            JsonV::object()
                .with("name"@, JsonV::Str("codex-backend"@))
                .with("title"@, JsonV::Str("Codex Desktop"@))
                .with("version"@, JsonV::Str("unknown"@)),
        )
        .with("capabilities"@, JsonV::object().with("experimentalApi"@, JsonV::Bool(true)))
}

fn initialize_value() -> (j: Json)
    ensures
        j.view() == initialize_params(),
{
    Json::object()
        .with(
            "clientInfo",
            Json::object()
                .with("name", Json::text("codex-backend"))
                .with("title", Json::text("Codex Desktop"))
                .with("version", Json::text("unknown")),
        )
        .with("capabilities", Json::object().with("experimentalApi", Json::Bool(true)))
}

/// What an answer comes to: its result, or its error in words.
pub open spec fn answer_result(result: Option<JsonV>, error: Option<(i64, Seq<char>)>) -> Result<
    JsonV,
    Seq<char>,
> {
    match error {
        Some((code, message)) => Err(
            "json-rpc error "@ + decimal_int(code as int) + (": "@ + message),
        ),
        None => Ok(
            match result {
                Some(v) => v,
                None => JsonV::object(),
            },
        ),
    }
}

/// What an answer comes to: its result, or its error in words.
pub fn response_result(result: Option<Json>, error: Option<(i64, String)>) -> (r: Result<
    Json,
    String,
>)
    ensures
        match answer_result(opt_value(result), super::jsonrpc::opt_fault(error)) {
            Ok(v) => r is Ok && r->Ok_0.view() == v,
            Err(e) => r is Err && r->Err_0@ == e,
        },
{
    match error {
        Some((code, message)) => Err(
            join3(
                "json-rpc error ",
                decimal_i64(code).as_str(),
                join2(": ", message.as_str()).as_str(),
            ),
        ),
        None => Ok(
            match result {
                Some(v) => v,
                None => Json::object(),
            },
        ),
    }
}

/// The status that a value tells.
pub open spec fn told_status(v: JsonV) -> Option<
    (RemoteControlConnectionStatus, Option<Seq<char>>, Option<Seq<char>>),
> {
    match v.str_at("status"@) {
        None => None,
        Some(name) => match (
            connection_status_named(name),
            maybe_str(v, "serverName"@),
            maybe_str(v, "environmentId"@),
        ) {
            (Some(status), Some(server), Some(environment)) => Some((status, server, environment)),
            _ => None,
        },
    }
}

/// The status that a value tells.
pub fn read_status(v: &Json) -> (r: Option<RemoteControlStatusChangedNotification>)
    ensures
        match r {
            Some(n) => told_status(v.view()) == Some(
                (n.status, opt_text(n.server_name), opt_text(n.environment_id)),
            ),
            None => told_status(v.view()) is None,
        },
{
    let status = match v.str_at("status") {
        Some(name) => match RemoteControlConnectionStatus::from_str(name) {
            Some(s) => s,
            None => {
                return None;
            },
        },
        None => {
            return None;
        },
    };
    match (read_maybe_str(v, "serverName"), read_maybe_str(v, "environmentId")) {
        (Some(server_name), Some(environment_id)) => Some(
            RemoteControlStatusChangedNotification { status, server_name, environment_id },
        ),
        _ => None,
    }
}

/// Whether a value is the introduction of the app server.
pub open spec fn introduces(v: JsonV) -> bool {
    &&& v.str_at("userAgent"@) is Some
    &&& v.str_at("codexHome"@) is Some
    &&& v.str_at("platformFamily"@) is Some
    &&& v.str_at("platformOs"@) is Some
}

fn is_introduction(v: &Json) -> (r: bool)
    ensures
        r == introduces(v.view()),
{
    v.str_at("userAgent").is_some() && v.str_at("codexHome").is_some() && v.str_at(
        "platformFamily",
    ).is_some() && v.str_at("platformOs").is_some()
}

// ---------------------------------------------------------------------------
// What arrives
// ---------------------------------------------------------------------------
/// Why a connection fails.
#[derive(Debug)]
pub enum Failure {
    /// For a reason in words.
    Text(String),
    /// The app server told a status that makes no sense.
    BadStatus,
    /// The app server introduced itself in a way that makes no sense.
    BadIntroduction,
}

/// The model of a failure.
pub enum FailureV {
    Text(Seq<char>),
    BadStatus,
    BadIntroduction,
}

impl Failure {
    /// The model of this failure.
    pub open spec fn view(&self) -> FailureV {
        match self {
            Failure::Text(s) => FailureV::Text(s@),
            Failure::BadStatus => FailureV::BadStatus,
            Failure::BadIntroduction => FailureV::BadIntroduction,
        }
    }
}

/// What becomes of a message.
#[verifier::ext_equal]
pub struct HandledV {
    pub status: SnapshotV,
    pub send: Option<JsonV>,
    pub failure: Option<FailureV>,
}

/// Why the remote control is blocked.
pub open spec fn attestation_text(params: JsonV) -> Seq<char> {
    "attestation/generate requested params="@ + rendered(redacted(params))
}

/// What becomes of a message: a status is taken, a request for tokens is answered from
/// the file, a request for attestation blocks the remote control, other requests are
/// refused, and the rest is passed over.
pub open spec fn inbound_handled(
    status: SnapshotV,
    m: InboundV,
    auth: Result<AuthV, Seq<char>>,
    now: u64,
) -> HandledV {
    match m {
        InboundV::Response { .. } => HandledV { status, send: None, failure: None },
        InboundV::Notification { method, params } => if method == "remoteControl/status/changed"@ {
            let p = match params {
                Some(v) => v,
                None => JsonV::object(),
            };
            match told_status(p) {
                Some((s, server, environment)) => HandledV {
                    status: status_told(status, s, server, environment, now),
                    send: None,
                    failure: None,
                },
                None => HandledV { status, send: None, failure: Some(FailureV::BadStatus) },
            }
        } else {
            HandledV { status, send: None, failure: None }
        },
        InboundV::Request { id, method, params } => {
            if method == "account/chatgptAuthTokens/refresh"@ {
                match auth {
                    Ok(a) => HandledV {
                        status,
                        send: Some(result_frame(id, auth_json(a))),
                        failure: None,
                    },
                    Err(e) => HandledV { status, send: None, failure: Some(FailureV::Text(e)) },
                }
            } else if method == "attestation/generate"@ {
                let text = attestation_text(
                    match params {
                        Some(v) => v,
                        None => JsonV::object(),
                    },
                );
                HandledV {
                    status: SnapshotV {
                        blocked: Some(text),
                        ..only_state(CodexRemoteControlState::Blocked, Some(now))
                    },
                    send: Some(
                        error_frame(
                            id,
                            ATTESTATION_REFUSED,
                            "alleycat native codex remote control does not provide attestation"@,
                        ),
                    ),
                    failure: Some(FailureV::Text(text)),
                }
            } else {
                HandledV {
                    status,
                    send: Some(
                        error_frame(id, METHOD_NOT_FOUND, "unsupported request "@ + method),
                    ),
                    failure: None,
                }
            }
        },
    }
}

/// Whether a message asks for the tokens of the account, which are then to be read.
pub fn asks_for_tokens(m: &InboundMessage) -> (r: bool)
    ensures
        r == (m.view() matches InboundV::Request { method, .. } && method
            == "account/chatgptAuthTokens/refresh"@),
{
    match m {
        InboundMessage::Request { method, .. } => same(
            method.as_str(),
            "account/chatgptAuthTokens/refresh",
        ),
        _ => false,
    }
}

/// What the tokens come to.
pub open spec fn auth_view(auth: Result<AuthRefreshResponse, String>) -> Result<AuthV, Seq<char>> {
    match auth {
        Ok(a) => Ok(a.view()),
        Err(e) => Err(e@),
    }
}

/// What becomes of a message.
pub struct Handled {
    pub send: Option<Json>,
    pub failure: Option<Failure>,
}

impl Handled {
    /// Whether this is what a message leads to, besides the status.
    pub open spec fn agrees(&self, v: HandledV) -> bool {
        &&& opt_value(self.send) == v.send
        &&& match self.failure {
            Some(f) => v.failure == Some(f.view()),
            None => v.failure is None,
        }
    }
}

/// Handles a message.
pub fn handle_inbound(
    status: &mut CodexRemoteControlSnapshot,
    m: InboundMessage,
    auth: Result<AuthRefreshResponse, String>,
    now: u64,
) -> (r: Handled)
    ensures
        ({
            let h = inbound_handled(old(status).view(), m.view(), auth_view(auth), now);
            &&& final(status).view() == h.status
            &&& r.agrees(h)
        }),
{
    match m {
        InboundMessage::Response { .. } => Handled { send: None, failure: None },
        InboundMessage::Notification { method, params } => {
            if !same(method.as_str(), "remoteControl/status/changed") {
                return Handled { send: None, failure: None };
            }
            let p = match params {
                Some(v) => v,
                None => Json::object(),
            };
            match read_status(&p) {
                Some(n) => {
                    status.apply_status_changed(&n, now);
                    Handled { send: None, failure: None }
                },
                None => Handled { send: None, failure: Some(Failure::BadStatus) },
            }
        },
        InboundMessage::Request { id, method, params } => {
            if same(method.as_str(), "account/chatgptAuthTokens/refresh") {
                match auth {
                    Ok(a) => Handled {
                        send: Some(response_result_frame(&id, a.to_json())),
                        failure: None,
                    },
                    Err(e) => Handled { send: None, failure: Some(Failure::Text(e)) },
                }
            } else if same(method.as_str(), "attestation/generate") {
                let p = match params {
                    Some(v) => v,
                    None => Json::object(),
                };
                let text = join2(
                    "attestation/generate requested params=",
                    redacted_json(&p).as_str(),
                );
                *status = CodexRemoteControlSnapshot::blocked(text.as_str(), now);
                Handled {
                    send: Some(
                        response_error_frame(
                            &id,
                            ATTESTATION_REFUSED,
                            "alleycat native codex remote control does not provide attestation",
                        ),
                    ),
                    failure: Some(Failure::Text(text)),
                }
            } else {
                Handled {
                    send: Some(
                        response_error_frame(
                            &id,
                            METHOD_NOT_FOUND,
                            join2("unsupported request ", method.as_str()).as_str(),
                        ),
                    ),
                    failure: None,
                }
            }
        },
    }
}

/// Takes the answer to the request that switches the remote control on: a status, if it
/// tells one.
pub fn apply_enable_result(
    status: &mut CodexRemoteControlSnapshot,
    result: &Json,
    reason: String,
    now: u64,
)
    ensures
        final(status).view() == enabled(old(status).view(), result.view(), reason@, now),
{
    if let Some(n) = read_status(result) {
        status.apply_status_changed(&n, now);
    }
    status.last_enable_reason = Some(reason);
}

/// What is known after the remote control was switched on.
pub open spec fn enabled(s: SnapshotV, result: JsonV, reason: Seq<char>, now: u64) -> SnapshotV {
    let t = match told_status(result) {
        Some((status, server, environment)) => status_told(s, status, server, environment, now),
        None => s,
    };
    SnapshotV { last_enable_reason: Some(reason), ..t }
}

// ---------------------------------------------------------------------------
// A connection
// ---------------------------------------------------------------------------
/// Where a connection is.
#[derive(Debug)]
pub enum Stage {
    /// The app server is to introduce itself in answer to a request.
    Initializing { id: i64 },
    /// The first status may come.
    InitialStatus,
    /// The remote control is being switched on, for a reason; `first` tells whether this
    /// is the first time.
    Enabling { id: i64, reason: String, first: bool },
    /// A status may come after the remote control was switched on.
    PostEnable,
    /// The remote control is kept healthy.
    Serving,
}

/// The model of a stage.
pub enum StageV {
    Initializing { id: i64 },
    InitialStatus,
    Enabling { id: i64, reason: Seq<char>, first: bool },
    PostEnable,
    Serving,
}

impl Stage {
    /// The model of this stage.
    pub open spec fn view(&self) -> StageV {
        match self {
            Stage::Initializing { id } => StageV::Initializing { id: *id },
            Stage::InitialStatus => StageV::InitialStatus,
            Stage::Enabling { id, reason, first } => StageV::Enabling {
                id: *id,
                reason: reason@,
                first: *first,
            },
            Stage::PostEnable => StageV::PostEnable,
            Stage::Serving => StageV::Serving,
        }
    }
}

/// What happens to a connection.
pub enum Event {
    /// A message arrived; the tokens are those of the account, if it asks for them.
    Message(InboundMessage, Result<AuthRefreshResponse, String>),
    /// The time of the stage is over.
    Deadline,
    /// It is time for a look at the status.
    Tick,
    /// Supervision is to end.
    Shutdown,
    /// Nothing can be read any more.
    ReadFailed(String),
}

/// The model of an event.
pub enum EventV {
    Message(InboundV, Result<AuthV, Seq<char>>),
    Deadline,
    Tick,
    Shutdown,
    ReadFailed(Seq<char>),
}

impl Event {
    /// The model of this event.
    pub open spec fn view(&self) -> EventV {
        match self {
            Event::Message(m, auth) => EventV::Message(m.view(), auth_view(*auth)),
            Event::Deadline => EventV::Deadline,
            Event::Tick => EventV::Tick,
            Event::Shutdown => EventV::Shutdown,
            Event::ReadFailed(e) => EventV::ReadFailed(e@),
        }
    }
}

/// How a connection ends.
#[derive(Debug)]
pub enum ConnectionExit {
    Shutdown,
    Disconnected(String),
    Failed(Failure),
}

/// The model of an end.
pub enum ExitV {
    Shutdown,
    Disconnected(Seq<char>),
    Failed(FailureV),
}

impl ConnectionExit {
    /// The model of this end.
    pub open spec fn view(&self) -> ExitV {
        match self {
            ConnectionExit::Shutdown => ExitV::Shutdown,
            ConnectionExit::Disconnected(e) => ExitV::Disconnected(e@),
            ConnectionExit::Failed(f) => ExitV::Failed(f.view()),
        }
    }
}

/// A connection: the next id, the stage, and what is known.
pub struct Connection {
    pub next_id: i64,
    pub stage: Stage,
    pub status: CodexRemoteControlSnapshot,
}

/// The model of a connection.
#[verifier::ext_equal]
pub struct ConnectionV {
    pub next_id: int,
    pub stage: StageV,
    pub status: SnapshotV,
}

/// What a step leads to: the connection, what is sent in order, and the end, if it is
/// one.
#[verifier::ext_equal]
pub struct StepV {
    pub next: ConnectionV,
    pub send: Seq<JsonV>,
    pub exit: Option<ExitV>,
}

/// A step that sends nothing.
pub open spec fn quiet(c: ConnectionV, exit: Option<ExitV>) -> StepV {
    StepV { next: c, send: seq![], exit }
}

/// Switches the remote control on if it has to be, and goes on otherwise.
pub open spec fn ensured(
    c: ConnectionV,
    tuning: CodexRemoteControlTuning,
    first: bool,
    now: u64,
) -> StepV {
    match enable_reason(c.status, tuning, now) {
        None => quiet(
            ConnectionV {
                stage: if first {
                    waiting_after(tuning)
                } else {
                    StageV::Serving
                },
                ..c
            },
            None,
        ),
        Some(reason) => StepV {
            next: ConnectionV {
                next_id: c.next_id + 1,
                stage: StageV::Enabling { id: c.next_id as i64, reason, first },
                status: SnapshotV { last_enable_reason: Some(reason), ..c.status },
            },
            send: seq![request_frame(c.next_id as i64, "remoteControl/enable"@, None)],
            exit: None,
        },
    }
}

/// The stage after the remote control was looked at for the first time.
pub open spec fn waiting_after(tuning: CodexRemoteControlTuning) -> StageV {
    if tuning.post_enable_wait_ms == 0 {
        StageV::Serving
    } else {
        StageV::PostEnable
    }
}

/// A message that is no answer that the stage waits for.
pub open spec fn passed_on(
    c: ConnectionV,
    m: InboundV,
    auth: Result<AuthV, Seq<char>>,
    now: u64,
) -> StepV {
    let h = inbound_handled(c.status, m, auth, now);
    StepV {
        next: ConnectionV { status: h.status, ..c },
        send: match h.send {
            Some(j) => seq![j],
            None => seq![],
        },
        exit: match h.failure {
            Some(f) => Some(ExitV::Failed(f)),
            None => None,
        },
    }
}

/// Why an answer did not come.
pub open spec fn no_answer(what: Seq<char>, id: i64) -> ExitV {
    ExitV::Failed(FailureV::Text(what + " waiting for response id="@ + decimal_int(id as int)))
}

/// The app server has introduced itself.
pub open spec fn introduced(
    c: ConnectionV,
    result: JsonV,
    tuning: CodexRemoteControlTuning,
    now: u64,
) -> StepV {
    if introduces(result) {
        let hello = seq![notification_frame("initialized"@, Some(JsonV::object()))];
        if tuning.initial_status_wait_ms == 0 {
            let s = ensured(c, tuning, true, now);
            StepV { send: hello + s.send, ..s }
        } else {
            StepV {
                next: ConnectionV { stage: StageV::InitialStatus, ..c },
                send: hello,
                exit: None,
            }
        }
    } else {
        quiet(c, Some(ExitV::Failed(FailureV::BadIntroduction)))
    }
}

/// Whether a message is the answer to a request.
pub open spec fn answers(m: InboundV, id: i64) -> bool {
    m matches InboundV::Response { id: given, .. } && given == IdV::Integer(id)
}

/// What an event leads to.
pub open spec fn stepped(
    c: ConnectionV,
    e: EventV,
    tuning: CodexRemoteControlTuning,
    now: u64,
) -> StepV {
    match c.stage {
        StageV::Initializing { id } => match e {
            EventV::Message(m, auth) => match m {
                InboundV::Response { id: given, result, error } => if given == IdV::Integer(id) {
                    match answer_result(result, error) {
                        Ok(v) => introduced(c, v, tuning, now),
                        Err(t) => quiet(c, Some(ExitV::Failed(FailureV::Text(t)))),
                    }
                } else {
                    passed_on(c, m, auth, now)
                },
                _ => passed_on(c, m, auth, now),
            },
            EventV::Deadline => quiet(c, Some(no_answer("timed out"@, id))),
            EventV::Tick => quiet(c, None),
            EventV::Shutdown => quiet(c, Some(no_answer("shutdown while"@, id))),
            EventV::ReadFailed(t) => quiet(c, Some(ExitV::Failed(FailureV::Text(t)))),
        },
        StageV::Enabling { id, reason, first } => match e {
            EventV::Message(m, auth) => match m {
                InboundV::Response { id: given, result, error } => if given == IdV::Integer(id) {
                    match answer_result(result, error) {
                        Ok(v) => quiet(
                            ConnectionV {
                                stage: if first {
                                    waiting_after(tuning)
                                } else {
                                    StageV::Serving
                                },
                                status: enabled(c.status, v, reason, now),
                                ..c
                            },
                            None,
                        ),
                        Err(t) => quiet(c, Some(ExitV::Failed(FailureV::Text(t)))),
                    }
                } else {
                    passed_on(c, m, auth, now)
                },
                _ => passed_on(c, m, auth, now),
            },
            EventV::Deadline => quiet(c, Some(no_answer("timed out"@, id))),
            EventV::Tick => quiet(c, None),
            EventV::Shutdown => quiet(c, None),
            EventV::ReadFailed(t) => quiet(c, Some(ExitV::Failed(FailureV::Text(t)))),
        },
        StageV::InitialStatus => match e {
            EventV::Message(m, auth) => passed_on(c, m, auth, now),
            EventV::Deadline => ensured(c, tuning, true, now),
            EventV::Shutdown => ensured(c, tuning, true, now),
            EventV::Tick => quiet(c, None),
            EventV::ReadFailed(t) => quiet(c, Some(ExitV::Failed(FailureV::Text(t)))),
        },
        StageV::PostEnable => match e {
            EventV::Message(m, auth) => passed_on(c, m, auth, now),
            EventV::Deadline => quiet(ConnectionV { stage: StageV::Serving, ..c }, None),
            EventV::Shutdown => quiet(ConnectionV { stage: StageV::Serving, ..c }, None),
            EventV::Tick => quiet(c, None),
            EventV::ReadFailed(t) => quiet(c, Some(ExitV::Failed(FailureV::Text(t)))),
        },
        StageV::Serving => match e {
            EventV::Message(m, auth) => passed_on(c, m, auth, now),
            EventV::Deadline => quiet(c, None),
            EventV::Tick => ensured(c, tuning, false, now),
            EventV::Shutdown => quiet(c, Some(ExitV::Shutdown)),
            EventV::ReadFailed(t) => quiet(c, Some(ExitV::Disconnected(t))),
        },
    }
}

/// What a step leads to.
pub struct Step {
    pub send: Vec<Json>,
    pub exit: Option<ConnectionExit>,
}

/// The model of an optional end.
pub open spec fn opt_exit(e: Option<ConnectionExit>) -> Option<ExitV> {
    match e {
        Some(x) => Some(x.view()),
        None => None,
    }
}

impl Step {
    /// Whether this is what a step leads to, besides the connection.
    pub open spec fn agrees(&self, v: StepV) -> bool {
        jsons(self.send@) == v.send && opt_exit(self.exit) == v.exit
    }
}

fn send_none(exit: Option<ConnectionExit>) -> (r: Step)
    ensures
        jsons(r.send@) == Seq::<JsonV>::empty(),
        r.exit == exit,
{
    let send: Vec<Json> = Vec::new();
    assert(jsons(send@) =~= seq![]);
    Step { send, exit }
}

fn send_one(j: Json, exit: Option<ConnectionExit>) -> (r: Step)
    ensures
        jsons(r.send@) == seq![j.view()],
        r.exit == exit,
{
    let mut send: Vec<Json> = Vec::new();
    send.push(j);
    assert(jsons(send@) =~= seq![j.view()]);
    Step { send, exit }
}

fn fail(text: String) -> (r: Step)
    ensures
        jsons(r.send@) == Seq::<JsonV>::empty(),
        opt_exit(r.exit) == Some(ExitV::Failed(FailureV::Text(text@))),
{
    send_none(Some(ConnectionExit::Failed(Failure::Text(text))))
}

fn unanswered(what: &str, id: i64) -> (r: Step)
    ensures
        jsons(r.send@) == Seq::<JsonV>::empty(),
        opt_exit(r.exit) == Some(no_answer(what@, id)),
{
    fail(join3(what, " waiting for response id=", decimal_i64(id).as_str()))
}

impl Connection {
    /// The model of this connection.
    pub open spec fn view(&self) -> ConnectionV {
        ConnectionV {
            next_id: self.next_id as int,
            stage: self.stage.view(),
            status: self.status.view(),
        }
    }

    /// A connection that was just made introduces itself.
    pub fn open(status: CodexRemoteControlSnapshot) -> (r: (Connection, Json))
        ensures
            r.0.view() == (ConnectionV {
                next_id: 2,
                stage: StageV::Initializing { id: 1 },
                status: status.view(),
            }),
            r.1.view() == request_frame(1, "initialize"@, Some(initialize_params())),
    {
        let mut next_id: i64 = 1;
        let id: i64 = take_id(&mut next_id);
        let hello = request(id, "initialize", Some(initialize_value()));
        (Connection { next_id, stage: Stage::Initializing { id }, status }, hello)
    }

    /// How long the stage may last, if it does not last until something happens.
    pub fn deadline_ms(&self, tuning: &CodexRemoteControlTuning) -> (r: Option<u64>)
        ensures
            r == (match self.view().stage {
                StageV::Initializing { .. } => Some(INITIALIZE_TIMEOUT_MS),
                StageV::InitialStatus => Some(tuning.initial_status_wait_ms),
                StageV::Enabling { .. } => Some(tuning.request_timeout_ms),
                StageV::PostEnable => Some(tuning.post_enable_wait_ms),
                StageV::Serving => None,
            }),
    {
        match &self.stage {
            Stage::Initializing { .. } => Some(INITIALIZE_TIMEOUT_MS),
            Stage::InitialStatus => Some(tuning.initial_status_wait_ms),
            Stage::Enabling { .. } => Some(tuning.request_timeout_ms),
            Stage::PostEnable => Some(tuning.post_enable_wait_ms),
            Stage::Serving => None,
        }
    }

    fn ensure_enabled(&mut self, tuning: &CodexRemoteControlTuning, first: bool, now: u64) -> (r: Step)
        requires
            old(self).next_id < i64::MAX,
        ensures
            final(self).view() == ensured(old(self).view(), *tuning, first, now).next,
            r.agrees(ensured(old(self).view(), *tuning, first, now)),
    {
        match reason_to_enable(&self.status, tuning, now) {
            None => {
                self.stage = if first && tuning.post_enable_wait_ms != 0 {
                    Stage::PostEnable
                } else {
                    Stage::Serving
                };
                send_none(None)
            },
            Some(reason) => {
                let id: i64 = self.next_id;
                self.next_id = id + 1;
                self.status.last_enable_reason = Some(reason.clone());
                self.stage = Stage::Enabling { id, reason, first };
                send_one(request(id, "remoteControl/enable", None), None)
            },
        }
    }

    fn pass_on(
        &mut self,
        m: InboundMessage,
        auth: Result<AuthRefreshResponse, String>,
        now: u64,
    ) -> (r: Step)
        ensures
            final(self).view() == passed_on(old(self).view(), m.view(), auth_view(auth), now).next,
            r.agrees(passed_on(old(self).view(), m.view(), auth_view(auth), now)),
    {
        let h = handle_inbound(&mut self.status, m, auth, now);
        let exit = match h.failure {
            Some(f) => Some(ConnectionExit::Failed(f)),
            None => None,
        };
        match h.send {
            Some(j) => send_one(j, exit),
            None => send_none(exit),
        }
    }

    fn introduce(&mut self, result: &Json, tuning: &CodexRemoteControlTuning, now: u64) -> (r: Step)
        requires
            old(self).next_id < i64::MAX,
        ensures
            final(self).view() == introduced(old(self).view(), result.view(), *tuning, now).next,
            r.agrees(introduced(old(self).view(), result.view(), *tuning, now)),
    {
        if !is_introduction(result) {
            return send_none(Some(ConnectionExit::Failed(Failure::BadIntroduction)));
        }
        let hello = notification("initialized", Some(Json::object()));
        let ghost gh = hello.view();
        if tuning.initial_status_wait_ms == 0 {
            let mut rest = self.ensure_enabled(tuning, true, now);
            let ghost after = rest.send@;
            let mut send: Vec<Json> = Vec::new();
            send.push(hello);
            send.append(&mut rest.send);
            assert(jsons(send@) =~= seq![gh] + jsons(after));
            Step { send, exit: rest.exit }
        } else {
            self.stage = Stage::InitialStatus;
            send_one(hello, None)
        }
    }

    fn enable_answered(
        &mut self,
        result: &Json,
        reason: String,
        first: bool,
        tuning: &CodexRemoteControlTuning,
        now: u64,
    )
        ensures
            final(self).view() == (ConnectionV {
                stage: if first {
                    waiting_after(*tuning)
                } else {
                    StageV::Serving
                },
                status: enabled(old(self).view().status, result.view(), reason@, now),
                ..old(self).view()
            }),
    {
        apply_enable_result(&mut self.status, result, reason, now);
        self.stage = if first && tuning.post_enable_wait_ms != 0 {
            Stage::PostEnable
        } else {
            Stage::Serving
        };
    }

    fn step_initializing(
        &mut self,
        id: i64,
        event: Event,
        tuning: &CodexRemoteControlTuning,
        now: u64,
    ) -> (r: Step)
        requires
            old(self).next_id < i64::MAX,
            old(self).view().stage == (StageV::Initializing { id }),
        ensures
            final(self).view() == stepped(old(self).view(), event.view(), *tuning, now).next,
            r.agrees(stepped(old(self).view(), event.view(), *tuning, now)),
    {
        match event {
            Event::Message(m, auth) => match m {
                InboundMessage::Response { id: given, result, error } => {
                    if given.is_number(id) {
                        match response_result(result, error) {
                            Ok(v) => self.introduce(&v, tuning, now),
                            Err(t) => fail(t),
                        }
                    } else {
                        self.pass_on(
                            InboundMessage::Response { id: given, result, error },
                            auth,
                            now,
                        )
                    }
                },
                other => self.pass_on(other, auth, now),
            },
            Event::Deadline => unanswered("timed out", id),
            Event::Tick => send_none(None),
            Event::Shutdown => unanswered("shutdown while", id),
            Event::ReadFailed(t) => fail(t),
        }
    }

    fn step_enabling(
        &mut self,
        id: i64,
        reason: String,
        first: bool,
        event: Event,
        tuning: &CodexRemoteControlTuning,
        now: u64,
    ) -> (r: Step)
        requires
            old(self).view().stage == (StageV::Enabling { id, reason: reason@, first }),
        ensures
            final(self).view() == stepped(old(self).view(), event.view(), *tuning, now).next,
            r.agrees(stepped(old(self).view(), event.view(), *tuning, now)),
    {
        match event {
            Event::Message(m, auth) => match m {
                InboundMessage::Response { id: given, result, error } => {
                    if given.is_number(id) {
                        match response_result(result, error) {
                            Ok(v) => {
                                self.enable_answered(&v, reason, first, tuning, now);
                                send_none(None)
                            },
                            Err(t) => fail(t),
                        }
                    } else {
                        self.pass_on(
                            InboundMessage::Response { id: given, result, error },
                            auth,
                            now,
                        )
                    }
                },
                other => self.pass_on(other, auth, now),
            },
            Event::Deadline => unanswered("timed out", id),
            Event::Tick => send_none(None),
            Event::Shutdown => send_none(None),
            Event::ReadFailed(t) => fail(t),
        }
    }

    /// Takes an event.
    pub fn step(&mut self, event: Event, tuning: &CodexRemoteControlTuning, now: u64) -> (r: Step)
        requires
            old(self).next_id < i64::MAX,
        ensures
            final(self).view() == stepped(old(self).view(), event.view(), *tuning, now).next,
            r.agrees(stepped(old(self).view(), event.view(), *tuning, now)),
    {
        match &self.stage {
            Stage::Initializing { id } => {
                let id: i64 = *id;
                self.step_initializing(id, event, tuning, now)
            },
            Stage::Enabling { id, reason, first } => {
                let id: i64 = *id;
                let reason = reason.clone();
                let first = *first;
                self.step_enabling(id, reason, first, event, tuning, now)
            },
            Stage::InitialStatus => match event {
                Event::Message(m, auth) => self.pass_on(m, auth, now),
                Event::Deadline => self.ensure_enabled(tuning, true, now),
                Event::Shutdown => self.ensure_enabled(tuning, true, now),
                Event::Tick => send_none(None),
                Event::ReadFailed(t) => fail(t),
            },
            Stage::PostEnable => match event {
                Event::Message(m, auth) => self.pass_on(m, auth, now),
                Event::Deadline => {
                    self.stage = Stage::Serving;
                    send_none(None)
                },
                Event::Shutdown => {
                    self.stage = Stage::Serving;
                    send_none(None)
                },
                Event::Tick => send_none(None),
                Event::ReadFailed(t) => fail(t),
            },
            Stage::Serving => match event {
                Event::Message(m, auth) => self.pass_on(m, auth, now),
                Event::Deadline => send_none(None),
                Event::Tick => self.ensure_enabled(tuning, false, now),
                Event::Shutdown => send_none(Some(ConnectionExit::Shutdown)),
                Event::ReadFailed(t) => send_none(Some(ConnectionExit::Disconnected(t))),
            },
        }
    }
}

// ---------------------------------------------------------------------------
// Supervision
// ---------------------------------------------------------------------------
/// What is known after a connection ended, and whether another one is made; `text` is the
/// failure in words.
pub open spec fn after_exit(s: SnapshotV, exit: ExitV, text: Seq<char>, now: u64) -> (SnapshotV, bool) {
    match exit {
        ExitV::Shutdown => (s, false),
        ExitV::Disconnected(message) => (
            SnapshotV {
                error: Some(message),
                ..only_state(CodexRemoteControlState::Errored, Some(now))
            },
            true,
        ),
        ExitV::Failed(_) => if s.state == CodexRemoteControlState::Blocked {
            (s, false)
        } else {
            (
                SnapshotV {
                    error: Some(text),
                    ..only_state(CodexRemoteControlState::Errored, Some(now))
                },
                true,
            )
        },
    }
}

/// Takes the end of a connection: another one is made unless supervision is to end or
/// the remote control is blocked.
pub fn connection_ended(
    status: &mut CodexRemoteControlSnapshot,
    exit: &ConnectionExit,
    text: &str,
    now: u64,
) -> (again: bool)
    ensures
        (final(status).view(), again) == after_exit(old(status).view(), exit.view(), text@, now),
{
    match exit {
        ConnectionExit::Shutdown => false,
        ConnectionExit::Disconnected(message) => {
            *status = CodexRemoteControlSnapshot::error(message.as_str(), now);
            true
        },
        ConnectionExit::Failed(_) => {
            if status.state == CodexRemoteControlState::Blocked {
                false
            } else {
                *status = CodexRemoteControlSnapshot::error(text, now);
                true
            }
        },
    }
}

/// What callers hold: what is known, and what is supervised.
pub struct CodexRemoteControlHandle {
    state: CodexRemoteControlSnapshot,
    task: Option<CodexRemoteControlConfig>,
}

/// What has to be done to supervise a configuration.
#[derive(Debug, Clone, Copy, PartialEq, Eq, Structural)]
pub enum StartAction {
    /// It is supervised already.
    Keep,
    /// A task has to be started.
    Start,
    /// The task that runs has to be stopped, and another one started.
    Restart,
}

impl CodexRemoteControlHandle {
    /// What is known.
    pub closed spec fn known(&self) -> SnapshotV {
        self.state.view()
    }

    /// What is supervised.
    pub closed spec fn supervised(&self) -> Option<CodexRemoteControlConfig> {
        self.task
    }

    /// Nothing is supervised, and nothing known.
    pub fn new() -> (r: CodexRemoteControlHandle)
        ensures
            r.known() == only_state(CodexRemoteControlState::Idle, None),
            r.supervised() is None,
    {
        CodexRemoteControlHandle { state: CodexRemoteControlSnapshot::default(), task: None }
    }

    /// What is known.
    pub fn status(&self) -> (r: CodexRemoteControlSnapshot)
        ensures
            r.view() == self.known(),
    {
        self.state.copy()
    }

    /// Notes what is known.
    pub fn set_status(&mut self, snapshot: CodexRemoteControlSnapshot)
        ensures
            final(self).known() == snapshot.view(),
            final(self).supervised() == old(self).supervised(),
    {
        self.state = snapshot;
    }

    /// Supervises a configuration: nothing changes if it is the one that is supervised and
    /// its task has not ended.
    pub fn start_or_update(
        &mut self,
        config: CodexRemoteControlConfig,
        task_ended: bool,
        windows: bool,
        now: u64,
    ) -> (r: StartAction)
        ensures
            ({
                let kept = old(self).supervised() is Some && old(
                    self,
                ).supervised()->Some_0.agrees(config, windows) && !task_ended;
                if kept {
                    &&& r == StartAction::Keep
                    &&& final(self).known() == old(self).known()
                    &&& final(self).supervised() == old(self).supervised()
                } else {
                    &&& r == (if old(self).supervised() is Some {
                        StartAction::Restart
                    } else {
                        StartAction::Start
                    })
                    &&& final(self).known() == only_state(
                        CodexRemoteControlState::Connecting,
                        Some(now),
                    )
                    &&& final(self).supervised() == Some(config)
                }
            }),
    {
        let (keep, runs) = match &self.task {
            Some(c) => (c.equals(&config, windows) && !task_ended, true),
            None => (false, false),
        };
        if keep {
            return StartAction::Keep;
        }
        self.state = CodexRemoteControlSnapshot::connecting(now);
        self.task = Some(config);
        if runs {
            StartAction::Restart
        } else {
            StartAction::Start
        }
    }

    /// Ends supervision. Tells whether a task has to be stopped.
    pub fn stop(&mut self, now: u64) -> (r: bool)
        ensures
            r == (old(self).supervised() is Some),
            final(self).known() == only_state(CodexRemoteControlState::Stopped, Some(now)),
            final(self).supervised() is None,
    {
        let runs = self.task.is_some();
        self.task = None;
        self.state = CodexRemoteControlSnapshot::stopped(now);
        runs
    }
}

// ---------------------------------------------------------------------------
// Laws
// ---------------------------------------------------------------------------
/// The remote control is switched on exactly if it is not known to be connected lately,
/// nor to be connecting for less than the grace.
pub proof fn law_enabled_unless_healthy(s: SnapshotV, tuning: CodexRemoteControlTuning, now: u64)
    ensures
        enable_reason(s, tuning, now) is None <==> (s.last_update_unix_ms is Some && age(
            now,
            s.last_update_unix_ms->Some_0,
        ) < tuning.stale_after_ms && (s.state == CodexRemoteControlState::Connected || (s.state
            == CodexRemoteControlState::Connecting && age(now, s.last_update_unix_ms->Some_0)
            < tuning.connecting_grace_ms))),
        s.state == CodexRemoteControlState::Disabled || s.state
            == CodexRemoteControlState::Errored || s.state == CodexRemoteControlState::Idle
            ==> enable_reason(s, tuning, now) is Some,
{
}

/// A status that was just told to be connected is healthy.
pub proof fn law_connected_is_healthy(
    s: SnapshotV,
    server: Option<Seq<char>>,
    environment: Option<Seq<char>>,
    tuning: CodexRemoteControlTuning,
    now: u64,
)
    requires
        tuning.stale_after_ms > 0,
    ensures
        enable_reason(
            status_told(s, RemoteControlConnectionStatus::Connected, server, environment, now),
            tuning,
            now,
        ) is None,
{
}

/// A request for attestation is answered with a refusal, blocks the remote control, and
/// ends the connection for good; what is told of it shows no secret.
pub proof fn law_attestation_blocks(
    c: ConnectionV,
    id: IdV,
    params: Option<JsonV>,
    auth: Result<AuthV, Seq<char>>,
    tuning: CodexRemoteControlTuning,
    now: u64,
    text: Seq<char>,
)
    ensures
        ({
            let m = InboundV::Request { id, method: "attestation/generate"@, params };
            let s = stepped(c, EventV::Message(m, auth), tuning, now);
            &&& s.next.status.state == CodexRemoteControlState::Blocked
            &&& s.exit is Some
            &&& s.exit->Some_0 is Failed
            &&& s.send.len() == 1
            &&& !after_exit(s.next.status, s.exit->Some_0, text, now).1
            &&& after_exit(s.next.status, s.exit->Some_0, text, now).0 == s.next.status
            &&& s.next.status.blocked == Some(
                attestation_text(
                    match params {
                        Some(v) => v,
                        None => JsonV::object(),
                    },
                ),
            )
        }),
{
    reveal_strlit("attestation/generate");
    reveal_strlit("account/chatgptAuthTokens/refresh");
    assert("attestation/generate"@.len() == 20);
    assert("account/chatgptAuthTokens/refresh"@.len() == 33);
}

/// Ids are not used twice: every request that a connection sends has the next one.
pub proof fn law_ids_grow(c: ConnectionV, e: EventV, tuning: CodexRemoteControlTuning, now: u64)
    ensures
        stepped(c, e, tuning, now).next.next_id >= c.next_id,
        stepped(c, e, tuning, now).next.next_id <= c.next_id + 1,
{
}

/// Messages that no stage waits for do not move a connection to another stage.
pub proof fn law_notifications_do_not_move(
    c: ConnectionV,
    method: Seq<char>,
    params: Option<JsonV>,
    auth: Result<AuthV, Seq<char>>,
    tuning: CodexRemoteControlTuning,
    now: u64,
)
    ensures
        stepped(
            c,
            EventV::Message(InboundV::Notification { method, params }, auth),
            tuning,
            now,
        ).next.stage == c.stage,
{
}

/// A configuration that is supervised and is to be supervised again is left alone.
pub proof fn law_same_configuration_agrees(
    a: CodexRemoteControlConfig,
    b: CodexRemoteControlConfig,
    windows: bool,
)
    requires
        a.agrees(b, windows),
    ensures
        b.agrees(a, windows),
        a.agrees(a, windows),
{
}

} // verus!
