//! The standard requests of codex, and what a target has to say to each.

use vstd::prelude::*;

use super::divergence::{KnownDivergence, divergence_of};
use super::finding::{Finding, FindingV};
use super::transcript::{Frame, FrameKind, FrameV, TargetId};
use crate::json::{Json, JsonV, jsons};
use crate::text::{owned, same};

verus! {

/// The standard requests.
pub const STANDARD_REQUEST_METHODS: [&'static str; 42] = [
    "account/read",
    "account/rateLimits/read",
    "account/login/start",
    "account/login/cancel",
    "account/logout",
    "feedback/upload",
    "config/read",
    "config/value/write",
    "config/batchWrite",
    "configRequirements/read",
    "mcpServerStatus/list",
    "config/mcpServer/reload",
    "mcpServer/oauth/login",
    "mock/experimentalMethod",
    "experimentalFeature/list",
    "collaborationMode/list",
    "model/list",
    "skills/list",
    "skills/remote/list",
    "skills/remote/export",
    "skills/config/write",
    "command/exec",
    "command/exec/terminate",
    "command/exec/write",
    "command/exec/resize",
    "thread/start",
    "thread/resume",
    "thread/fork",
    "thread/archive",
    "thread/unarchive",
    "thread/name/set",
    "thread/compact/start",
    "thread/rollback",
    "thread/list",
    "thread/loaded/list",
    "thread/read",
    "thread/turns/list",
    "thread/backgroundTerminals/clean",
    "turn/start",
    "turn/steer",
    "turn/interrupt",
    "review/start",
];

/// What a probe knows of the target.
pub struct ProbeContext {
    pub thread_id: Option<String>,
    pub turn_id: Option<String>,
    pub cwd: Option<String>,
    pub process_id: Option<String>,
}

impl Default for ProbeContext {
    fn default() -> (r: Self)
        ensures
            r.thread_id is None,
            r.turn_id is None,
            r.cwd is None,
            r.process_id is None,
    {
        ProbeContext { thread_id: None, turn_id: None, cwd: None, process_id: None }
    }
}

/// A text, or what stands in for it.
pub open spec fn or_text(s: Option<String>, other: Seq<char>) -> Seq<char> {
    match s {
        Some(t) => t@,
        None => other,
    }
}

fn text_or<'a>(s: &'a Option<String>, other: &'a str) -> (r: &'a str)
    ensures
        r@ == or_text(*s, other@),
{
    match s {
        Some(t) => t.as_str(),
        None => other,
    }
}

/// The smallest parameters with which a request is well formed.
pub open spec fn probe_params(
    method: Seq<char>,
    thread_id: Seq<char>,
    turn_id: Seq<char>,
    process_id: Seq<char>,
    cwd: Seq<char>,
) -> JsonV {
    if method == "config/value/write"@ {
        JsonV::object()
            .with("keyPath"@, JsonV::Str("bridge_conformance.probe"@))
            .with("value"@, JsonV::Bool(true))
            .with("mergeStrategy"@, JsonV::Str("replace"@))
    } else if method == "config/batchWrite"@ {
        JsonV::object()
            .with(
                "edits"@,
                JsonV::Arr(seq![JsonV::object()
                    .with("keyPath"@, JsonV::Str("bridge_conformance.probe"@))
                    .with("value"@, JsonV::Bool(true))
                    .with("mergeStrategy"@, JsonV::Str("replace"@))]),
            )
    } else if method == "account/login/start"@ {
        JsonV::object()
            .with("type"@, JsonV::Str("apiKey"@))
            .with("apiKey"@, JsonV::Str("bridge-conformance-probe"@))
    } else if method == "account/login/cancel"@ {
        JsonV::object().with("loginId"@, JsonV::Str("bridge-conformance-login"@))
    } else if method == "feedback/upload"@ {
        JsonV::object().with("classification"@, JsonV::Str("other"@))
    } else if method == "mcpServer/oauth/login"@ {
        JsonV::object().with("name"@, JsonV::Str("bridge-conformance-mcp"@))
    } else if method == "skills/config/write"@ {
        JsonV::object().with("enabled"@, JsonV::Bool(true))
    } else if method == "command/exec"@ {
        JsonV::object()
            .with(
                "command"@,
                JsonV::Arr(seq![JsonV::Str("sh"@), JsonV::Str("-c"@), JsonV::Str("printf probe"@)]),
            )
    } else if method == "command/exec/terminate"@ {
        JsonV::object().with("processId"@, JsonV::Str(process_id))
    } else if method == "command/exec/write"@ {
        JsonV::object()
            .with("processId"@, JsonV::Str(process_id))
            .with("deltaBase64"@, JsonV::Str("cHJvYmU="@))
            .with("closeStdin"@, JsonV::Bool(false))
    } else if method == "command/exec/resize"@ {
        JsonV::object()
            .with("processId"@, JsonV::Str(process_id))
            .with(
                "size"@,
                JsonV::object().with("rows"@, JsonV::Int(24)).with("cols"@, JsonV::Int(80)),
            )
    } else if method == "thread/start"@ {
        JsonV::object()
            .with("cwd"@, JsonV::Str(cwd))
            .with("approvalPolicy"@, JsonV::Str("never"@))
            .with("sandbox"@, JsonV::Str("danger-full-access"@))
    } else if method == "thread/resume"@
        || method == "thread/archive"@
        || method == "thread/unarchive"@
        || method == "thread/compact/start"@
        || method == "thread/backgroundTerminals/clean"@ {
        JsonV::object().with("threadId"@, JsonV::Str(thread_id))
    } else if method == "thread/fork"@ {
        JsonV::object().with("threadId"@, JsonV::Str(thread_id)).with("cwd"@, JsonV::Str(cwd))
    } else if method == "thread/name/set"@ {
        JsonV::object()
            .with("threadId"@, JsonV::Str(thread_id))
            .with("name"@, JsonV::Str("conformance-probe"@))
    } else if method == "thread/rollback"@ {
        JsonV::object().with("threadId"@, JsonV::Str(thread_id)).with("numTurns"@, JsonV::Int(1))
    } else if method == "thread/list"@ {
        JsonV::object().with("archived"@, JsonV::Bool(false)).with("cwd"@, JsonV::Str(cwd))
    } else if method == "thread/read"@ {
        JsonV::object()
            .with("threadId"@, JsonV::Str(thread_id))
            .with("includeTurns"@, JsonV::Bool(true))
    } else if method == "thread/turns/list"@ {
        JsonV::object().with("threadId"@, JsonV::Str(thread_id)).with("limit"@, JsonV::Int(1))
    } else if method == "turn/start"@ {
        JsonV::object()
            .with("threadId"@, JsonV::Str(thread_id))
            .with(
                "input"@,
                JsonV::Arr(seq![JsonV::object()
                    .with("type"@, JsonV::Str("text"@))
                    .with("text"@, JsonV::Str("Reply OK."@))]),
            )
            .with("approvalPolicy"@, JsonV::Str("never"@))
            .with("sandbox"@, JsonV::Str("danger-full-access"@))
    } else if method == "turn/steer"@ {
        JsonV::object()
            .with("threadId"@, JsonV::Str(thread_id))
            .with("expectedTurnId"@, JsonV::Str(turn_id))
            .with(
                "input"@,
                JsonV::Arr(seq![JsonV::object()
                    .with("type"@, JsonV::Str("text"@))
                    .with("text"@, JsonV::Str("continue"@))]),
            )
    } else if method == "turn/interrupt"@ {
        JsonV::object()
            .with("threadId"@, JsonV::Str(thread_id))
            .with("turnId"@, JsonV::Str(turn_id))
    } else if method == "review/start"@ {
        JsonV::object()
            .with("threadId"@, JsonV::Str(thread_id))
            .with("target"@, JsonV::object().with("type"@, JsonV::Str("uncommittedChanges"@)))
    } else {
        JsonV::object()
    }
}

/// What stands in for a thread that is not known.
pub const ANY_THREAD: &'static str = "bridge-conformance-thread";

/// What stands in for a turn that is not known.
pub const ANY_TURN: &'static str = "bridge-conformance-turn";

/// What stands in for a process that is not known.
pub const ANY_PROCESS: &'static str = "bridge-conformance-process";

fn command_list() -> (r: Json)
    ensures
        r.view() == JsonV::Arr(
            seq![JsonV::Str("sh"@), JsonV::Str("-c"@), JsonV::Str("printf probe"@)],
        ),
{
    let mut v: Vec<Json> = Vec::new();
    v.push(Json::text("sh"));
    v.push(Json::text("-c"));
    v.push(Json::text("printf probe"));
    assert(jsons(v@) =~= seq![
        JsonV::Str("sh"@),
        JsonV::Str("-c"@),
        JsonV::Str("printf probe"@),
    ]);
    Json::array(v)
}

/// The smallest parameters of a request, without anything known of the target.
pub fn min_params_for(method: &str) -> (r: Json)
    ensures
        r.view() == probe_params(method@, ANY_THREAD@, ANY_TURN@, ANY_PROCESS@, "."@),
{
    min_params_for_with(method, &ProbeContext::default())
}

/// The smallest parameters of a request.
pub fn min_params_for_with(method: &str, ctx: &ProbeContext) -> (r: Json)
    ensures
        r.view() == probe_params(
            method@,
            or_text(ctx.thread_id, ANY_THREAD@),
            or_text(ctx.turn_id, ANY_TURN@),
            or_text(ctx.process_id, ANY_PROCESS@),
            or_text(ctx.cwd, "."@),
        ),
{
    let thread_id = text_or(&ctx.thread_id, ANY_THREAD);
    let turn_id = text_or(&ctx.turn_id, ANY_TURN);
    let process_id = text_or(&ctx.process_id, ANY_PROCESS);
    let cwd = text_or(&ctx.cwd, ".");
    if same(method, "config/value/write") {
        Json::object()
            .with("keyPath", Json::text("bridge_conformance.probe"))
            .with("value", Json::Bool(true))
            .with("mergeStrategy", Json::text("replace"))
    } else if same(method, "config/batchWrite") {
        Json::object()
            .with(
                "edits",
                Json::array1(
                    Json::object()
                        .with("keyPath", Json::text("bridge_conformance.probe"))
                        .with("value", Json::Bool(true))
                        .with("mergeStrategy", Json::text("replace")),
                ),
            )
    } else if same(method, "account/login/start") {
        Json::object()
            .with("type", Json::text("apiKey"))
            .with("apiKey", Json::text("bridge-conformance-probe"))
    } else if same(method, "account/login/cancel") {
        Json::object().with("loginId", Json::text("bridge-conformance-login"))
    } else if same(method, "feedback/upload") {
        Json::object().with("classification", Json::text("other"))
    } else if same(method, "mcpServer/oauth/login") {
        Json::object().with("name", Json::text("bridge-conformance-mcp"))
    } else if same(method, "skills/config/write") {
        Json::object().with("enabled", Json::Bool(true))
    } else if same(method, "command/exec") {
        Json::object().with("command", command_list())
    } else if same(method, "command/exec/terminate") {
        Json::object().with("processId", Json::text(process_id))
    } else if same(method, "command/exec/write") {
        Json::object()
            .with("processId", Json::text(process_id))
            .with("deltaBase64", Json::text("cHJvYmU="))
            .with("closeStdin", Json::Bool(false))
    } else if same(method, "command/exec/resize") {
        Json::object()
            .with("processId", Json::text(process_id))
            .with("size", Json::object().with("rows", Json::Int(24)).with("cols", Json::Int(80)))
    } else if same(method, "thread/start") {
        Json::object()
            .with("cwd", Json::text(cwd))
            .with("approvalPolicy", Json::text("never"))
            .with("sandbox", Json::text("danger-full-access"))
    } else if same(method, "thread/resume")
        || same(method, "thread/archive")
        || same(method, "thread/unarchive")
        || same(method, "thread/compact/start")
        || same(method, "thread/backgroundTerminals/clean") {
        Json::object().with("threadId", Json::text(thread_id))
    } else if same(method, "thread/fork") {
        Json::object().with("threadId", Json::text(thread_id)).with("cwd", Json::text(cwd))
    } else if same(method, "thread/name/set") {
        Json::object()
            .with("threadId", Json::text(thread_id))
            .with("name", Json::text("conformance-probe"))
    } else if same(method, "thread/rollback") {
        Json::object().with("threadId", Json::text(thread_id)).with("numTurns", Json::Int(1))
    } else if same(method, "thread/list") {
        Json::object().with("archived", Json::Bool(false)).with("cwd", Json::text(cwd))
    } else if same(method, "thread/read") {
        Json::object()
            .with("threadId", Json::text(thread_id))
            .with("includeTurns", Json::Bool(true))
    } else if same(method, "thread/turns/list") {
        Json::object().with("threadId", Json::text(thread_id)).with("limit", Json::Int(1))
    } else if same(method, "turn/start") {
        Json::object()
            .with("threadId", Json::text(thread_id))
            .with(
                "input",
                Json::array1(
                    Json::object()
                        .with("type", Json::text("text"))
                        .with("text", Json::text("Reply OK.")),
                ),
            )
            .with("approvalPolicy", Json::text("never"))
            .with("sandbox", Json::text("danger-full-access"))
    } else if same(method, "turn/steer") {
        Json::object()
            .with("threadId", Json::text(thread_id))
            .with("expectedTurnId", Json::text(turn_id))
            .with(
                "input",
                Json::array1(
                    Json::object()
                        .with("type", Json::text("text"))
                        .with("text", Json::text("continue")),
                ),
            )
    } else if same(method, "turn/interrupt") {
        Json::object().with("threadId", Json::text(thread_id)).with("turnId", Json::text(turn_id))
    } else if same(method, "review/start") {
        Json::object()
            .with("threadId", Json::text(thread_id))
            .with("target", Json::object().with("type", Json::text("uncommittedChanges")))
    } else {
        Json::object()
    }
}

/// What is found in the answer to a standard request: an error, unless the method is
/// known not to work on the target.
pub open spec fn surface_finding(f: FrameV, target: TargetId) -> Option<FindingV> {
    match f.raw.get("error"@) {
        Some(e) => if divergence_of(target).skipped_methods.contains(f.method) {
            None
        } else {
            Some(
                FindingV::UnexpectedError {
                    step: f.step,
                    method: f.method,
                    code: match e.get("code"@) {
                        Some(c) => match c.as_i64() {
                            Some(i) => i as i64,
                            None => 0,
                        },
                        None => 0,
                    },
                    message: match e.str_at("message"@) {
                        Some(m) => m,
                        None => "(no message)"@,
                    },
                },
            )
        },
        None => None,
    }
}

/// Checks the answer to a standard request.
pub fn assert_method_response(frame: &Frame, target: TargetId) -> (r: Option<Finding>)
    ensures
        match r {
            Some(f) => surface_finding(frame.view(), target) == Some(f.view()),
            None => surface_finding(frame.view(), target) is None,
        },
{
    let known = KnownDivergence::for_target(target);
    let error = match frame.raw.get("error") {
        Some(e) => e,
        None => {
            return None;
        },
    };
    if known.skips_method(frame.method.as_str()) {
        return None;
    }
    let code: i64 = match error.get("code") {
        Some(c) => match c.as_i64() {
            Some(i) => i,
            None => 0,
        },
        None => 0,
    };
    let message = match error.str_at("message") {
        Some(m) => owned(m),
        None => owned("(no message)"),
    };
    Some(
        Finding::UnexpectedError {
            step: frame.step.clone(),
            method: frame.method.clone(),
            code,
            message,
        },
    )
}

/// The frame of a response.
pub fn response_frame(step: &str, method: &str, raw: Json) -> (r: Frame)
    ensures
        r.view() == (FrameV {
            step: step@,
            kind: FrameKind::Response,
            method: method@,
            raw: raw.view(),
        }),
{
    Frame { step: owned(step), kind: FrameKind::Response, method: owned(method), raw }
}

} // verus!
