//! The program of the assistant: how it is started, configured and heard.
//!
//! The program reads one message per line and writes one message per line. Control
//! requests go both ways and carry an id that their answers name.

use vstd::prelude::*;

use crate::json::{Json, JsonV};
use crate::json_text::{parse, parsed, render, rendered};
use crate::launch::launcher::{ProcessRole, ProcessSpec, StdioMode};
use crate::text::{
    duration_text, join2, join3, opt_copy, opt_same, opt_text, owned, same, show_duration, texts,
    trim, trimmed,
};
use crate::text_map::TextMap;

verus! {

/// How many events a slow subscriber may lag behind.
pub const EVENT_CHANNEL_CAPACITY: usize = 1024;

/// Time that the program gets to introduce itself, in milliseconds.
pub const DEFAULT_INIT_TIMEOUT_MS: u64 = 30_000;

// ---------------------------------------------------------------------------
// Starting
// ---------------------------------------------------------------------------
/// What the program is started with.
#[derive(Debug)]
pub struct ClaudeSpawnConfig {
    /// Names the thread, and the session of the program.
    pub thread_id: String,
    pub cwd: String,
    pub claude_bin: String,
    pub model: Option<String>,
    pub append_system_prompt: Option<String>,
    /// Whether the session exists already.
    pub resume: bool,
    /// Whether tools run without permission.
    pub bypass_permissions: bool,
}

/// An option with its value, if there is one.
pub open spec fn flag(name: Seq<char>, value: Option<Seq<char>>) -> Seq<Seq<char>> {
    match value {
        Some(v) => seq![name, v],
        None => seq![],
    }
}

/// The arguments of the program.
pub open spec fn claude_args(
    thread_id: Seq<char>,
    cwd: Seq<char>,
    model: Option<Seq<char>>,
    prompt: Option<Seq<char>>,
    resume: bool,
    bypass: bool,
) -> Seq<Seq<char>> {
    seq![
        "-p"@,
        "--input-format"@,
        "stream-json"@,
        "--output-format"@,
        "stream-json"@,
        "--include-partial-messages"@,
        "--verbose"@,
    ] + (if bypass {
        seq!["--dangerously-skip-permissions"@]
    } else {
        seq!["--permission-prompt-tool"@, "stdio"@]
    }) + seq!["--add-dir"@, cwd] + (if resume {
        seq!["--resume"@, thread_id]
    } else {
        seq!["--session-id"@, thread_id]
    }) + flag("--model"@, model) + flag("--append-system-prompt"@, prompt)
}

fn push_text(v: &mut Vec<String>, s: &str)
    ensures
        texts(final(v)@) == texts(old(v)@).push(s@),
{
    v.push(owned(s));
    assert(texts(v@) =~= texts(old(v)@).push(s@));
}

/// How the program is started: in its working directory, with all streams piped.
pub fn spawn_spec(config: &ClaudeSpawnConfig) -> (r: ProcessSpec)
    ensures
        r.role == ProcessRole::Agent,
        r.program@ == config.claude_bin@,
        texts(r.args@) == claude_args(
            config.thread_id@,
            config.cwd@,
            opt_text(config.model),
            opt_text(config.append_system_prompt),
            config.resume,
            config.bypass_permissions,
        ),
        opt_text(r.cwd) == Some(config.cwd@),
        r.env@.len() == 0,
        !r.env_clear,
        r.stdin == StdioMode::Piped,
        r.stdout == StdioMode::Piped,
        r.stderr == StdioMode::Piped,
{
    let mut args: Vec<String> = Vec::new();
    assert(texts(args@) =~= seq![]);
    push_text(&mut args, "-p");
    push_text(&mut args, "--input-format");
    push_text(&mut args, "stream-json");
    push_text(&mut args, "--output-format");
    push_text(&mut args, "stream-json");
    push_text(&mut args, "--include-partial-messages");
    push_text(&mut args, "--verbose");
    if config.bypass_permissions {
        push_text(&mut args, "--dangerously-skip-permissions");
    } else {
        push_text(&mut args, "--permission-prompt-tool");
        push_text(&mut args, "stdio");
    }
    push_text(&mut args, "--add-dir");
    push_text(&mut args, config.cwd.as_str());
    if config.resume {
        push_text(&mut args, "--resume");
    } else {
        push_text(&mut args, "--session-id");
    }
    push_text(&mut args, config.thread_id.as_str());
    if let Some(m) = &config.model {
        push_text(&mut args, "--model");
        push_text(&mut args, m.as_str());
    }
    if let Some(p) = &config.append_system_prompt {
        push_text(&mut args, "--append-system-prompt");
        push_text(&mut args, p.as_str());
    }
    assert(texts(args@) =~= claude_args(
        config.thread_id@,
        config.cwd@,
        opt_text(config.model),
        opt_text(config.append_system_prompt),
        config.resume,
        config.bypass_permissions,
    ));
    let mut spec = ProcessSpec::new(config.claude_bin.as_str());
    spec.args = args;
    spec.cwd = Some(config.cwd.clone());
    spec
}

/// Why the program could not be started, with what is known of its surroundings.
pub fn spawn_failure(config: &ClaudeSpawnConfig, cwd_exists: bool, bin_exists: bool) -> (r: String)
    ensures
        r@ == "spawning "@ + config.claude_bin@ + (" (cwd="@ + config.cwd@ + (", cwd_exists="@
            + shown(cwd_exists) + (", claude_bin_exists="@ + shown(bin_exists) + ")"@))),
{
    let tail = join3(", claude_bin_exists=", show(bin_exists), ")");
    let middle = join3(", cwd_exists=", show(cwd_exists), tail.as_str());
    let rest = join3(" (cwd=", config.cwd.as_str(), middle.as_str());
    join3("spawning ", config.claude_bin.as_str(), rest.as_str())
}

/// A truth value in words.
pub open spec fn shown(b: bool) -> Seq<char> {
    if b {
        "true"@
    } else {
        "false"@
    }
}

fn show(b: bool) -> (r: &'static str)
    ensures
        r@ == shown(b),
{
    if b {
        "true"
    } else {
        "false"
    }
}

// ---------------------------------------------------------------------------
// Errors
// ---------------------------------------------------------------------------
/// What goes wrong with the program.
#[derive(Debug)]
pub enum ClaudeProcessError {
    InitTimeout,
    WriterClosed(String),
    ControlTimeout { request_id: String, elapsed_ms: u64 },
    ControlCancelled { request_id: String },
    ControlError { request_id: String, message: String },
}

/// What goes wrong with the program of that name, in words.
pub open spec fn process_error_text(e: ClaudeProcessError, name: Seq<char>) -> Seq<char> {
    match e {
        ClaudeProcessError::InitTimeout =>
            name + " process exited before publishing system/init"@,
        ClaudeProcessError::WriterClosed(why) =>
            "failed to write user envelope to "@ + name + " stdin: "@ + why@,
        ClaudeProcessError::ControlTimeout { request_id, elapsed_ms } => "control request `"@
            + request_id@ + ("` timed out after "@ + duration_text(elapsed_ms as nat)),
        ClaudeProcessError::ControlCancelled { request_id } => "control request `"@ + request_id@
            + "` was cancelled (process exited or response routed elsewhere)"@,
        ClaudeProcessError::ControlError { request_id, message } => "control request `"@
            + request_id@ + ("` failed: "@ + message@),
    }
}

impl ClaudeProcessError {
    /// What goes wrong with the program of that name, in words.
    pub fn message(&self, name: &str) -> (r: String)
        ensures
            r@ == process_error_text(*self, name@),
    {
        match self {
            ClaudeProcessError::InitTimeout => join2(
                name,
                " process exited before publishing system/init",
            ),
            ClaudeProcessError::WriterClosed(why) => {
                let place = join3("failed to write user envelope to ", name, " stdin: ");
                join2(place.as_str(), why.as_str())
            },
            ClaudeProcessError::ControlTimeout { request_id, elapsed_ms } => {
                let time = show_duration(*elapsed_ms);
                join3(
                    "control request `",
                    request_id.as_str(),
                    join2("` timed out after ", time.as_str()).as_str(),
                )
            },
            ClaudeProcessError::ControlCancelled { request_id } => join3(
                "control request `",
                request_id.as_str(),
                "` was cancelled (process exited or response routed elsewhere)",
            ),
            ClaudeProcessError::ControlError { request_id, message } => join3(
                "control request `",
                request_id.as_str(),
                join2("` failed: ", message.as_str()).as_str(),
            ),
        }
    }
}

// ---------------------------------------------------------------------------
// Control requests
// ---------------------------------------------------------------------------
/// What the program is told besides messages of the user.
#[derive(Debug)]
pub enum ControlRequestBody {
    Interrupt,
    SetModel { model: String },
    SetMaxThinkingTokens { tokens: u32 },
    SetPermissionMode { mode: String },
}

/// The model of a control request.
pub enum ControlV {
    Interrupt,
    SetModel { model: Seq<char> },
    SetMaxThinkingTokens { tokens: u32 },
    SetPermissionMode { mode: Seq<char> },
}

impl ControlRequestBody {
    /// The model of this request.
    pub open spec fn view(&self) -> ControlV {
        match self {
            ControlRequestBody::Interrupt => ControlV::Interrupt,
            ControlRequestBody::SetModel { model } => ControlV::SetModel { model: model@ },
            ControlRequestBody::SetMaxThinkingTokens { tokens } => ControlV::SetMaxThinkingTokens {
                tokens: *tokens,
            },
            ControlRequestBody::SetPermissionMode { mode } => ControlV::SetPermissionMode {
                mode: mode@,
            },
        }
    }
}

/// A control request on the wire.
pub open spec fn control_json(c: ControlV) -> JsonV {
    match c {
        ControlV::Interrupt => JsonV::object().with("subtype"@, JsonV::Str("interrupt"@)),
        ControlV::SetModel { model } => JsonV::object()
            .with("subtype"@, JsonV::Str("set_model"@))
            .with("model"@, JsonV::Str(model)),
        ControlV::SetMaxThinkingTokens { tokens } => JsonV::object()
            .with("subtype"@, JsonV::Str("set_max_thinking_tokens"@))
            .with("max_thinking_tokens"@, JsonV::Int(tokens as int)),
        ControlV::SetPermissionMode { mode } => JsonV::object()
            .with("subtype"@, JsonV::Str("set_permission_mode"@))
            .with("mode"@, JsonV::Str(mode)),
    }
}

/// A control request with its id, as the program reads it.
pub open spec fn control_envelope(id: Seq<char>, c: ControlV) -> JsonV {
    JsonV::object()
        .with("type"@, JsonV::Str("control_request"@))
        .with("request_id"@, JsonV::Str(id))
        .with("request"@, control_json(c))
}

fn control_value(c: &ControlRequestBody) -> (j: Json)
    ensures
        j.view() == control_json(c.view()),
{
    match c {
        ControlRequestBody::Interrupt => Json::object().with("subtype", Json::text("interrupt")),
        ControlRequestBody::SetModel { model } => Json::object()
            .with("subtype", Json::text("set_model"))
            .with("model", Json::text(model.as_str())),
        ControlRequestBody::SetMaxThinkingTokens { tokens } => Json::object()
            .with("subtype", Json::text("set_max_thinking_tokens"))
            .with("max_thinking_tokens", Json::Int(*tokens as i64)),
        ControlRequestBody::SetPermissionMode { mode } => Json::object()
            .with("subtype", Json::text("set_permission_mode"))
            .with("mode", Json::text(mode.as_str())),
    }
}

/// What the program answers to a control request.
#[derive(Debug)]
pub enum ControlResponseBody {
    Success { response: Option<Json> },
    Error { error: String },
}

// ---------------------------------------------------------------------------
// What the program writes
// ---------------------------------------------------------------------------
/// How a turn of the program ended.
#[derive(Debug)]
pub struct TurnResult {
    pub subtype: String,
    pub is_error: bool,
    pub result: Option<String>,
    pub terminal_reason: Option<String>,
}

/// A message of the program.
#[derive(Debug)]
pub enum ClaudeOutbound {
    /// It introduces itself.
    Init(Json),
    /// News of rate limits.
    RateLimitEvent(Json),
    /// It asks for something.
    ControlRequest(Json),
    /// It answers a control request.
    ControlResponse { request_id: String, body: ControlResponseBody },
    /// The turn is over.
    Result(TurnResult),
    /// Anything else.
    Other(Json),
}

/// A message that answers a control request: the id of the request, and what it says.
pub open spec fn answer_in(v: JsonV) -> Option<(Seq<char>, ControlResponseV)> {
    match v.get("response"@) {
        Some(inner) => match (inner.str_at("request_id"@), inner.str_at("subtype"@)) {
            (Some(id), Some(kind)) => if kind == "success"@ {
                Some((id, ControlResponseV::Success { response: inner.get("response"@) }))
            } else if kind == "error"@ {
                match inner.str_at("error"@) {
                    Some(e) => Some((id, ControlResponseV::Error { error: e })),
                    None => None,
                }
            } else {
                None
            },
            _ => None,
        },
        None => None,
    }
}

/// The model of an answer to a control request.
pub enum ControlResponseV {
    Success { response: Option<JsonV> },
    Error { error: Seq<char> },
}

impl ControlResponseBody {
    /// The model of this answer.
    pub open spec fn view(&self) -> ControlResponseV {
        match self {
            ControlResponseBody::Success { response } => ControlResponseV::Success {
                response: match response {
                    Some(j) => Some(j.view()),
                    None => None,
                },
            },
            ControlResponseBody::Error { error } => ControlResponseV::Error { error: error@ },
        }
    }
}

/// The model of a message.
pub enum OutboundV {
    Init(JsonV),
    RateLimitEvent(JsonV),
    ControlRequest(JsonV),
    ControlResponse { request_id: Seq<char>, body: ControlResponseV },
    Result { subtype: Seq<char>, is_error: bool, result: Option<Seq<char>>, reason: Option<Seq<char>> },
    Other(JsonV),
}

impl ClaudeOutbound {
    /// The model of this message.
    pub open spec fn view(&self) -> OutboundV {
        match self {
            ClaudeOutbound::Init(j) => OutboundV::Init(j.view()),
            ClaudeOutbound::RateLimitEvent(j) => OutboundV::RateLimitEvent(j.view()),
            ClaudeOutbound::ControlRequest(j) => OutboundV::ControlRequest(j.view()),
            ClaudeOutbound::ControlResponse { request_id, body } => OutboundV::ControlResponse {
                request_id: request_id@,
                body: body.view(),
            },
            ClaudeOutbound::Result(r) => OutboundV::Result {
                subtype: r.subtype@,
                is_error: r.is_error,
                result: opt_text(r.result),
                reason: opt_text(r.terminal_reason),
            },
            ClaudeOutbound::Other(j) => OutboundV::Other(j.view()),
        }
    }
}

/// What a message says. A message without a type says nothing, and neither does an
/// answer that names no request or the end of a turn without its kind.
pub open spec fn meaning(v: JsonV) -> Option<OutboundV> {
    match v.str_at("type"@) {
        None => None,
        Some(t) => if t == "system"@ && v.str_at("subtype"@) == Some("init"@) {
            Some(OutboundV::Init(v))
        } else if t == "rate_limit_event"@ {
            Some(OutboundV::RateLimitEvent(v))
        } else if t == "control_request"@ {
            Some(OutboundV::ControlRequest(v))
        } else if t == "control_response"@ {
            match answer_in(v) {
                Some((request_id, body)) => Some(OutboundV::ControlResponse { request_id, body }),
                None => None,
            }
        } else if t == "result"@ {
            match v.str_at("subtype"@) {
                Some(subtype) => Some(
                    OutboundV::Result {
                        subtype,
                        is_error: v.bool_at("is_error"@) == Some(true),
                        result: v.str_at("result"@),
                        reason: v.str_at("terminal_reason"@),
                    },
                ),
                None => None,
            }
        } else {
            Some(OutboundV::Other(v))
        },
    }
}

fn opt_owned(s: Option<&str>) -> (r: Option<String>)
    ensures
        opt_text(r) == (match s {
            Some(t) => Some(t@),
            None => None,
        }),
{
    match s {
        Some(t) => Some(owned(t)),
        None => None,
    }
}

fn read_answer(v: &Json) -> (r: Option<(String, ControlResponseBody)>)
    ensures
        match r {
            Some((id, body)) => answer_in(v.view()) == Some((id@, body.view())),
            None => answer_in(v.view()) is None,
        },
{
    match v.get("response") {
        Some(inner) => match (inner.str_at("request_id"), inner.str_at("subtype")) {
            (Some(id), Some(kind)) => {
                if same(kind, "success") {
                    let response = match inner.get("response") {
                        Some(j) => Some(j.copy()),
                        None => None,
                    };
                    Some((owned(id), ControlResponseBody::Success { response }))
                } else if same(kind, "error") {
                    match inner.str_at("error") {
                        Some(e) => Some((owned(id), ControlResponseBody::Error { error: owned(e) })),
                        None => None,
                    }
                } else {
                    None
                }
            },
            _ => None,
        },
        None => None,
    }
}

/// What a message says, if it says anything.
pub fn read_outbound(v: Json) -> (r: Option<ClaudeOutbound>)
    ensures
        match r {
            Some(m) => meaning(v.view()) == Some(m.view()),
            None => meaning(v.view()) is None,
        },
{
    let kind = match v.str_at("type") {
        Some(t) => owned(t),
        None => {
            return None;
        },
    };
    let t = kind.as_str();
    if same(t, "system") && opt_same(v.str_at("subtype"), "init") {
        Some(ClaudeOutbound::Init(v))
    } else if same(t, "rate_limit_event") {
        Some(ClaudeOutbound::RateLimitEvent(v))
    } else if same(t, "control_request") {
        Some(ClaudeOutbound::ControlRequest(v))
    } else if same(t, "control_response") {
        match read_answer(&v) {
            Some((request_id, body)) => Some(ClaudeOutbound::ControlResponse { request_id, body }),
            None => None,
        }
    } else if same(t, "result") {
        match v.str_at("subtype") {
            Some(s) => {
                let is_error = match v.bool_at("is_error") {
                    Some(b) => b,
                    None => false,
                };
                Some(
                    ClaudeOutbound::Result(
                        TurnResult {
                            subtype: owned(s),
                            is_error,
                            result: opt_owned(v.str_at("result")),
                            terminal_reason: opt_owned(v.str_at("terminal_reason")),
                        },
                    ),
                )
            },
            None => None,
        }
    } else {
        Some(ClaudeOutbound::Other(v))
    }
}

// ---------------------------------------------------------------------------
// The runtime configuration
// ---------------------------------------------------------------------------
/// What the program is known to run with. What is absent was never said.
#[derive(Debug)]
pub struct RuntimeState {
    pub model: Option<String>,
    pub thinking_tokens: Option<u32>,
    pub permission_mode: Option<String>,
}

/// The model of a runtime configuration, known or wanted.
#[verifier::ext_equal]
pub struct RuntimeV {
    pub model: Option<Seq<char>>,
    pub thinking_tokens: Option<u32>,
    pub permission_mode: Option<Seq<char>>,
}

impl RuntimeState {
    /// The model of this configuration.
    pub open spec fn view(&self) -> RuntimeV {
        RuntimeV {
            model: opt_text(self.model),
            thinking_tokens: self.thinking_tokens,
            permission_mode: opt_text(self.permission_mode),
        }
    }
}

/// What the program has to be told next, to run with what is wanted: the model first,
/// then the budget for thinking, then the mode of permissions.
pub open spec fn next_setter(have: RuntimeV, want: RuntimeV) -> Option<ControlV> {
    if want.model is Some && have.model != want.model {
        Some(ControlV::SetModel { model: want.model->Some_0 })
    } else if want.thinking_tokens is Some && have.thinking_tokens != want.thinking_tokens {
        Some(ControlV::SetMaxThinkingTokens { tokens: want.thinking_tokens->Some_0 })
    } else if want.permission_mode is Some && have.permission_mode != want.permission_mode {
        Some(ControlV::SetPermissionMode { mode: want.permission_mode->Some_0 })
    } else {
        None
    }
}

/// What the program is known to run with after it took a request.
pub open spec fn after_setter(have: RuntimeV, c: ControlV) -> RuntimeV {
    match c {
        ControlV::Interrupt => have,
        ControlV::SetModel { model } => RuntimeV { model: Some(model), ..have },
        ControlV::SetMaxThinkingTokens { tokens } => RuntimeV {
            thinking_tokens: Some(tokens),
            ..have
        },
        ControlV::SetPermissionMode { mode } => RuntimeV { permission_mode: Some(mode), ..have },
    }
}

/// A known configuration with what is wanted laid over it.
pub open spec fn overlaid(have: RuntimeV, want: RuntimeV) -> RuntimeV {
    RuntimeV {
        model: if want.model is Some {
            want.model
        } else {
            have.model
        },
        thinking_tokens: if want.thinking_tokens is Some {
            want.thinking_tokens
        } else {
            have.thinking_tokens
        },
        permission_mode: if want.permission_mode is Some {
            want.permission_mode
        } else {
            have.permission_mode
        },
    }
}

fn differs(have: &Option<String>, want: &str) -> (r: bool)
    ensures
        r == (opt_text(*have) != Some(want@)),
{
    match have {
        Some(h) => !same(h.as_str(), want),
        None => true,
    }
}

// ---------------------------------------------------------------------------
// A running program
// ---------------------------------------------------------------------------
/// A running program: what it was started with, what it said of itself, what it runs
/// with, and which control requests wait for their answers.
pub struct ClaudeProcessHandle {
    cwd: String,
    claude_bin: String,
    thread_id: String,
    pid: Option<u32>,
    init: Option<Json>,
    pending: TextMap<()>,
    runtime: RuntimeState,
}

/// The model of a running program.
#[verifier::ext_equal]
pub struct HandleV {
    pub cwd: Seq<char>,
    pub claude_bin: Seq<char>,
    pub thread_id: Seq<char>,
    pub pid: Option<u32>,
    pub init: Option<JsonV>,
    pub pending: Set<Seq<char>>,
    pub runtime: RuntimeV,
}

/// What comes of a line that the program wrote.
pub enum Heard {
    /// The line is empty or cannot be understood.
    Nothing,
    /// A message for the subscribers, and whether it answers a request that waits.
    Message { message: ClaudeOutbound, answers: bool },
}

/// The message that a line holds.
pub open spec fn message_in(line: Seq<char>) -> Option<OutboundV> {
    if trimmed(line).len() == 0 {
        None
    } else {
        match parsed(trimmed(line)) {
            Some(v) => meaning(v),
            None => None,
        }
    }
}

/// Whether a message answers a request that waits.
pub open spec fn is_answer(m: OutboundV, pending: Set<Seq<char>>) -> bool {
    m matches OutboundV::ControlResponse { request_id, body } && pending.contains(request_id)
}

/// A program after it wrote a message.
pub open spec fn after_message(h: HandleV, m: OutboundV) -> HandleV {
    match m {
        OutboundV::Init(j) => HandleV { init: Some(j), ..h },
        OutboundV::ControlResponse { request_id, .. } => HandleV {
            pending: h.pending.remove(request_id),
            ..h
        },
        _ => h,
    }
}

impl ClaudeProcessHandle {
    /// The model of this program.
    pub closed spec fn view(&self) -> HandleV {
        HandleV {
            cwd: self.cwd@,
            claude_bin: self.claude_bin@,
            thread_id: self.thread_id@,
            pid: self.pid,
            init: match self.init {
                Some(j) => Some(j.view()),
                None => None,
            },
            pending: self.pending@.dom(),
            runtime: self.runtime.view(),
        }
    }

    /// A program that was just started. It runs with the model that it was given.
    pub fn started(config: &ClaudeSpawnConfig, pid: Option<u32>) -> (r: ClaudeProcessHandle)
        ensures
            r.view() == (HandleV {
                cwd: config.cwd@,
                claude_bin: config.claude_bin@,
                thread_id: config.thread_id@,
                pid,
                init: None,
                pending: Set::empty(),
                runtime: RuntimeV {
                    model: opt_text(config.model),
                    thinking_tokens: None,
                    permission_mode: None,
                },
            }),
    {
        let r = ClaudeProcessHandle {
            cwd: config.cwd.clone(),
            claude_bin: config.claude_bin.clone(),
            thread_id: config.thread_id.clone(),
            pid,
            init: None,
            pending: TextMap::new(),
            runtime: RuntimeState {
                model: opt_copy(&config.model),
                thinking_tokens: None,
                permission_mode: None,
            },
        };
        assert(r.view().pending =~= Set::empty());
        r
    }

    /// The directory that it works in.
    pub fn cwd(&self) -> (r: &str)
        ensures
            r@ == self.view().cwd,
    {
        self.cwd.as_str()
    }

    /// The program.
    pub fn claude_bin(&self) -> (r: &str)
        ensures
            r@ == self.view().claude_bin,
    {
        self.claude_bin.as_str()
    }

    /// The thread that it serves.
    pub fn thread_id(&self) -> (r: &str)
        ensures
            r@ == self.view().thread_id,
    {
        self.thread_id.as_str()
    }

    /// The id of its process.
    pub fn pid(&self) -> (r: Option<u32>)
        ensures
            r == self.view().pid,
    {
        self.pid
    }

    /// What it said of itself, once it did.
    pub fn init(&self) -> (r: Option<&Json>)
        ensures
            match r {
                Some(j) => self.view().init == Some(j.view()),
                None => self.view().init is None,
            },
    {
        match &self.init {
            Some(j) => Some(j),
            None => None,
        }
    }

    /// What it said of itself, or that it did not in time.
    pub fn wait_for_init(&self) -> (r: Result<Json, ClaudeProcessError>)
        ensures
            match self.view().init {
                Some(v) => r is Ok && r->Ok_0.view() == v,
                None => r == Err::<Json, ClaudeProcessError>(ClaudeProcessError::InitTimeout),
            },
    {
        match &self.init {
            Some(j) => Ok(j.copy()),
            None => Err(ClaudeProcessError::InitTimeout),
        }
    }

    /// Whether any control request waits.
    pub fn has_pending(&self) -> (r: bool)
        ensures
            r == (self.view().pending.len() > 0),
    {
        self.pending.len() > 0
    }

    /// The line of a control request, which now waits.
    pub fn request_control(&mut self, request_id: &str, request: &ControlRequestBody) -> (r: String)
        ensures
            r@ == rendered(control_envelope(request_id@, request.view())),
            final(self).view() == (HandleV {
                pending: old(self).view().pending.insert(request_id@),
                ..old(self).view()
            }),
    {
        self.pending.insert(request_id, ());
        assert(self.view().pending =~= old(self).view().pending.insert(request_id@));
        let envelope = Json::object()
            .with("type", Json::text("control_request"))
            .with("request_id", Json::text(request_id))
            .with("request", control_value(request));
        render(&envelope)
    }

    /// Lets a control request wait no longer.
    pub fn forget(&mut self, request_id: &str)
        ensures
            final(self).view() == (HandleV {
                pending: old(self).view().pending.remove(request_id@),
                ..old(self).view()
            }),
    {
        self.pending.remove(request_id);
        assert(self.view().pending =~= old(self).view().pending.remove(request_id@));
    }

    /// Takes a line that the program wrote.
    pub fn hear(&mut self, line: &str) -> (r: Heard)
        ensures
            match message_in(line@) {
                None => r is Nothing && final(self).view() == old(self).view(),
                Some(m) => {
                    &&& r matches Heard::Message { message, answers }
                    &&& message.view() == m
                    &&& answers == is_answer(m, old(self).view().pending)
                    &&& final(self).view() == after_message(old(self).view(), m)
                },
            },
    {
        let text = trim(line);
        if text.as_str().is_empty() {
            return Heard::Nothing;
        }
        let value = match parse(text.as_str()) {
            Some(v) => v,
            None => {
                return Heard::Nothing;
            },
        };
        let message = match read_outbound(value) {
            Some(m) => m,
            None => {
                return Heard::Nothing;
            },
        };
        let mut answers = false;
        match &message {
            ClaudeOutbound::Init(j) => {
                self.init = Some(j.copy());
            },
            ClaudeOutbound::ControlResponse { request_id, .. } => {
                answers = self.pending.contains_key(request_id.as_str());
                self.pending.remove(request_id.as_str());
                assert(self.view().pending =~= old(self).view().pending.remove(request_id@));
            },
            _ => {},
        }
        Heard::Message { message, answers }
    }

    /// Notes that the program has ended: nothing waits any longer.
    pub fn ended(&mut self)
        ensures
            final(self).view() == (HandleV { pending: Set::empty(), ..old(self).view() }),
    {
        self.pending = TextMap::new();
        assert(self.view().pending =~= Set::empty());
    }

    /// What the program has to be told next, to run with what is wanted; nothing where it
    /// does already.
    pub fn next_override(&self, want: &RuntimeState) -> (r: Option<ControlRequestBody>)
        ensures
            match r {
                Some(c) => next_setter(self.view().runtime, want.view()) == Some(c.view()),
                None => next_setter(self.view().runtime, want.view()) is None,
            },
    {
        if let Some(m) = &want.model {
            if differs(&self.runtime.model, m.as_str()) {
                return Some(ControlRequestBody::SetModel { model: m.clone() });
            }
        }
        if let Some(t) = want.thinking_tokens {
            let known = match self.runtime.thinking_tokens {
                Some(k) => k == t,
                None => false,
            };
            if !known {
                return Some(ControlRequestBody::SetMaxThinkingTokens { tokens: t });
            }
        }
        if let Some(m) = &want.permission_mode {
            if differs(&self.runtime.permission_mode, m.as_str()) {
                return Some(ControlRequestBody::SetPermissionMode { mode: m.clone() });
            }
        }
        None
    }

    /// Notes that the program took a request.
    pub fn override_applied(&mut self, c: &ControlRequestBody)
        ensures
            final(self).view() == (HandleV {
                runtime: after_setter(old(self).view().runtime, c.view()),
                ..old(self).view()
            }),
    {
        match c {
            ControlRequestBody::Interrupt => {},
            ControlRequestBody::SetModel { model } => {
                self.runtime.model = Some(model.clone());
            },
            ControlRequestBody::SetMaxThinkingTokens { tokens } => {
                self.runtime.thinking_tokens = Some(*tokens);
            },
            ControlRequestBody::SetPermissionMode { mode } => {
                self.runtime.permission_mode = Some(mode.clone());
            },
        }
    }

    /// What the program is known to run with.
    pub fn runtime_snapshot(&self) -> (r: RuntimeState)
        ensures
            r.view() == self.view().runtime,
    {
        RuntimeState {
            model: opt_copy(&self.runtime.model),
            thinking_tokens: self.runtime.thinking_tokens,
            permission_mode: opt_copy(&self.runtime.permission_mode),
        }
    }
}

/// How the wait for the answer to a control request ended.
pub enum ControlEnd {
    /// The program answered.
    Answered(ControlResponseBody),
    /// The program ended first.
    Cancelled,
    /// The time ran out.
    TimedOut,
}

/// What a control request comes to.
pub fn control_result(request_id: &str, end: ControlEnd, deadline_ms: u64) -> (r: Result<
    Option<Json>,
    ClaudeProcessError,
>)
    ensures
        match end {
            ControlEnd::Answered(ControlResponseBody::Success { response }) => r == Ok::<
                Option<Json>,
                ClaudeProcessError,
            >(response),
            ControlEnd::Answered(ControlResponseBody::Error { error }) => {
                &&& r is Err
                &&& r->Err_0 matches ClaudeProcessError::ControlError { request_id: id, message }
                &&& id@ == request_id@
                &&& message == error
            },
            ControlEnd::Cancelled => {
                &&& r is Err
                &&& r->Err_0 matches ClaudeProcessError::ControlCancelled { request_id: id }
                &&& id@ == request_id@
            },
            ControlEnd::TimedOut => {
                &&& r is Err
                &&& r->Err_0 matches ClaudeProcessError::ControlTimeout { request_id: id, elapsed_ms }
                &&& id@ == request_id@
                &&& elapsed_ms == deadline_ms
            },
        },
{
    match end {
        ControlEnd::Answered(ControlResponseBody::Success { response }) => Ok(response),
        ControlEnd::Answered(ControlResponseBody::Error { error }) => Err(
            ClaudeProcessError::ControlError { request_id: owned(request_id), message: error },
        ),
        ControlEnd::Cancelled => Err(
            ClaudeProcessError::ControlCancelled { request_id: owned(request_id) },
        ),
        ControlEnd::TimedOut => Err(
            ClaudeProcessError::ControlTimeout {
                request_id: owned(request_id),
                elapsed_ms: deadline_ms,
            },
        ),
    }
}

// ---------------------------------------------------------------------------
// Laws
// ---------------------------------------------------------------------------
/// A session is either created or resumed, never both: the arguments before the model
/// hold exactly one of the two options, followed by the id of the thread.
pub proof fn law_session_is_created_or_resumed(
    thread_id: Seq<char>,
    cwd: Seq<char>,
    model: Option<Seq<char>>,
    prompt: Option<Seq<char>>,
    resume: bool,
    bypass: bool,
)
    ensures
        ({
            let args = claude_args(thread_id, cwd, model, prompt, resume, bypass);
            let at = if bypass {
                10int
            } else {
                11int
            };
            &&& args.len() >= at + 2
            &&& args[at] == (if resume {
                "--resume"@
            } else {
                "--session-id"@
            })
            &&& args[at + 1] == thread_id
            &&& forall|i: int|
                0 <= i < args.len() && i != at && args[i] == "--resume"@ ==> i == at - 1 || i > at
            &&& forall|i: int|
                0 <= i < args.len() && i != at && args[i] == "--session-id"@ ==> i == at - 1 || i
                    > at
        }),
{
    reveal_strlit("-p");
    reveal_strlit("--input-format");
    reveal_strlit("stream-json");
    reveal_strlit("--output-format");
    reveal_strlit("--include-partial-messages");
    reveal_strlit("--verbose");
    reveal_strlit("--dangerously-skip-permissions");
    reveal_strlit("--permission-prompt-tool");
    reveal_strlit("stdio");
    reveal_strlit("--add-dir");
    reveal_strlit("--resume");
    reveal_strlit("--session-id");
    assert("--resume"@.len() == 8);
    assert("--session-id"@.len() == 12);
}

/// A program that took everything that was wanted has to be told nothing more, and runs
/// with what is wanted laid over what it ran with.
pub proof fn law_overrides_settle(have: RuntimeV, want: RuntimeV)
    ensures
        next_setter(overlaid(have, want), want) is None,
        next_setter(have, want) is None ==> overlaid(have, want) == have,
        next_setter(have, want) matches Some(c) ==> overlaid(after_setter(have, c), want)
            == overlaid(have, want),
{
}

/// How many settings of a program differ from what is wanted.
pub open spec fn open_settings(have: RuntimeV, want: RuntimeV) -> nat {
    (if want.model is Some && have.model != want.model {
        1nat
    } else {
        0
    }) + (if want.thinking_tokens is Some && have.thinking_tokens != want.thinking_tokens {
        1nat
    } else {
        0
    }) + (if want.permission_mode is Some && have.permission_mode != want.permission_mode {
        1nat
    } else {
        0
    })
}

/// Each request that the program takes settles one setting, so there are at most three;
/// one that it refuses settles nothing and is asked again.
pub proof fn law_each_request_settles_one(have: RuntimeV, want: RuntimeV)
    ensures
        open_settings(have, want) <= 3,
        next_setter(have, want) is None <==> open_settings(have, want) == 0,
        next_setter(have, want) matches Some(c) ==> open_settings(after_setter(have, c), want) + 1
            == open_settings(have, want),
{
}

/// The first answer to a control request reaches it, and a second one reaches nobody.
pub proof fn law_control_answered_once(h: HandleV, id: Seq<char>, body: ControlResponseV)
    requires
        h.pending.contains(id),
    ensures
        ({
            let m = OutboundV::ControlResponse { request_id: id, body };
            &&& is_answer(m, h.pending)
            &&& !is_answer(m, after_message(h, m).pending)
        }),
{
}

} // verus!
