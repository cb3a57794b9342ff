//! Requests to the Hermes gateway and what comes back.
//!
//! * `GET /health` tells whether the gateway is alive,
//! * `POST /v1/runs` starts a run,
//! * `GET /v1/runs/{run_id}/events` streams its events,
//! * `POST /v1/runs/{run_id}/stop` interrupts it,
//! * `POST /v1/runs/{run_id}/approval` answers an approval request.

use vstd::prelude::*;

use crate::json::{Json, JsonV, ToJson};
use crate::text::{chars_of, join2, join3, opt_copy, opt_text, owned, same, text_of};

verus! {

/// Default gateway address (loopback only).
pub const DEFAULT_API_BASE: &'static str = "http://127.0.0.1:8642";

/// Environment variable that holds the gateway key. The key stays on the server
/// side.
pub const DEFAULT_API_KEY_ENV: &'static str = "HERMES_API_KEY";

/// Answer of `GET /health`.
#[derive(Debug)]
pub struct HealthResponse {
    pub status: String,
}

/// Body of `POST /v1/runs`.
#[derive(Debug)]
pub struct CreateRunRequest {
    /// The prompt.
    pub input: String,
    /// Session that the run continues.
    pub session_id: Option<String>,
    /// Working directory of the run.
    pub cwd: Option<String>,
    /// Model override.
    pub model: Option<String>,
}

impl ToJson for CreateRunRequest {
    open spec fn json(&self) -> JsonV {
        let v = JsonV::object().with("input"@, JsonV::Str(self.input@));
        let v = match self.session_id {
            Some(x) => v.with("session_id"@, JsonV::Str(x@)),
            None => v,
        };
        let v = match self.cwd {
            Some(x) => v.with("cwd"@, JsonV::Str(x@)),
            None => v,
        };
        match self.model {
            Some(x) => v.with("model"@, JsonV::Str(x@)),
            None => v,
        }
    }

    fn to_json(&self) -> (j: Json) {
        let j = Json::object().with("input", Json::text(self.input.as_str()));
        let j = match &self.session_id {
            Some(x) => j.with("session_id", Json::text(x.as_str())),
            None => j,
        };
        let j = match &self.cwd {
            Some(x) => j.with("cwd", Json::text(x.as_str())),
            None => j,
        };
        match &self.model {
            Some(x) => j.with("model", Json::text(x.as_str())),
            None => j,
        }
    }
}

/// Answer of `POST /v1/runs`.
#[derive(Debug)]
pub struct CreateRunResponse {
    pub run_id: String,
    pub session_id: Option<String>,
}

/// A field that goes by one of two names, but not by both.
pub open spec fn either(v: JsonV, a: Seq<char>, b: Seq<char>) -> Option<Option<JsonV>> {
    match (v.get(a), v.get(b)) {
        (Some(_), Some(_)) => None,
        (Some(x), None) => Some(Some(x)),
        (None, Some(x)) => Some(Some(x)),
        (None, None) => Some(None),
    }
}

/// The run and session ids in the answer of `POST /v1/runs`.
pub open spec fn created_run(v: JsonV) -> Option<(Seq<char>, Option<Seq<char>>)> {
    match (either(v, "run_id"@, "runId"@), either(v, "session_id"@, "sessionId"@)) {
        (Some(Some(JsonV::Str(run))), Some(None)) => Some((run, None)),
        (Some(Some(JsonV::Str(run))), Some(Some(JsonV::Null))) => Some((run, None)),
        (Some(Some(JsonV::Str(run))), Some(Some(JsonV::Str(s)))) => Some((run, Some(s))),
        _ => None,
    }
}

fn read_either<'a>(v: &'a Json, a: &str, b: &str) -> (r: Option<Option<&'a Json>>)
    ensures
        match r {
            Some(Some(x)) => either(v.view(), a@, b@) == Some(Some(x.view())),
            Some(None) => either(v.view(), a@, b@) == Some(None::<JsonV>),
            None => either(v.view(), a@, b@) is None,
        },
{
    match (v.get(a), v.get(b)) {
        (Some(_), Some(_)) => None,
        (Some(x), None) => Some(Some(x)),
        (None, Some(x)) => Some(Some(x)),
        (None, None) => Some(None),
    }
}

impl CreateRunResponse {
    /// Reads the answer of `POST /v1/runs`.
    pub fn from_json(v: &Json) -> (r: Option<CreateRunResponse>)
        ensures
            match r {
                Some(x) => created_run(v.view()) == Some((x.run_id@, opt_text(x.session_id))),
                None => created_run(v.view()) is None,
            },
    {
        let run = match read_either(v, "run_id", "runId") {
            Some(Some(x)) => match x.as_str() {
                Some(s) => owned(s),
                None => {
                    return None;
                },
            },
            _ => {
                return None;
            },
        };
        match read_either(v, "session_id", "sessionId") {
            Some(None) => Some(CreateRunResponse { run_id: run, session_id: None }),
            Some(Some(x)) => if x.is_null() {
                Some(CreateRunResponse { run_id: run, session_id: None })
            } else {
                match x.as_str() {
                    Some(s) => Some(CreateRunResponse { run_id: run, session_id: Some(owned(s)) }),
                    None => None,
                }
            },
            None => None,
        }
    }
}

/// Answer to an approval request.
#[derive(Clone, Copy, Debug, PartialEq, Eq, Structural)]
pub enum ApprovalChoice {
    /// Allow this one call.
    Once,
    /// Allow for the rest of the session.
    Session,
    /// Allow from now on.
    Always,
    /// Refuse.
    Deny,
}

impl ApprovalChoice {
    /// The name that the gateway expects.
    pub open spec fn name(self) -> Seq<char> {
        match self {
            ApprovalChoice::Once => "once"@,
            ApprovalChoice::Session => "session"@,
            ApprovalChoice::Always => "always"@,
            ApprovalChoice::Deny => "deny"@,
        }
    }

    /// The name that the gateway expects.
    pub fn as_str(&self) -> (r: &'static str)
        ensures
            r@ == self.name(),
    {
        match self {
            ApprovalChoice::Once => "once",
            ApprovalChoice::Session => "session",
            ApprovalChoice::Always => "always",
            ApprovalChoice::Deny => "deny",
        }
    }
}

/// One event of a run.
#[derive(Debug, PartialEq)]
pub struct HermesEvent {
    pub event: String,
    pub data: Json,
}

/// The model of an event.
pub struct HermesEventV {
    pub event: Seq<char>,
    pub data: JsonV,
}

/// The first of two fields that is there.
pub open spec fn first_of(v: JsonV, a: Seq<char>, b: Seq<char>) -> Option<JsonV> {
    match v.get(a) {
        Some(x) => Some(x),
        None => v.get(b),
    }
}

/// The text of the first of two fields that is there.
pub open spec fn first_text(v: JsonV, a: Seq<char>, b: Seq<char>) -> Option<Seq<char>> {
    match first_of(v, a, b) {
        Some(x) => x.as_str(),
        None => None,
    }
}

fn read_first_text<'a>(v: &'a Json, a: &str, b: &str) -> (r: Option<&'a str>)
    ensures
        match r {
            Some(s) => first_text(v.view(), a@, b@) == Some(s@),
            None => first_text(v.view(), a@, b@) is None,
        },
{
    match v.get(a) {
        Some(x) => x.as_str(),
        None => match v.get(b) {
            Some(x) => x.as_str(),
            None => None,
        },
    }
}

impl HermesEventV {
    /// The text that a message event adds.
    pub open spec fn delta(self) -> Option<Seq<char>> {
        if self.event == "message.delta"@ {
            first_text(self.data, "delta"@, "text"@)
        } else {
            None
        }
    }

    /// Whether the run came to a good end.
    pub open spec fn success(self) -> bool {
        self.event == "run.completed"@
    }

    /// Whether the run was cancelled.
    pub open spec fn cancelled(self) -> bool {
        self.event == "run.cancelled"@
    }

    /// What a run that came to a bad end reports; its event name if it reports
    /// nothing.
    pub open spec fn failure(self) -> Option<Seq<char>> {
        if self.event == "run.failed"@ || self.event == "run.cancelled"@ {
            match first_text(self.data, "message"@, "error"@) {
                Some(s) => Some(s),
                None => Some(self.event),
            }
        } else {
            None
        }
    }
}

impl HermesEvent {
    /// The model of this event.
    pub open spec fn view(&self) -> HermesEventV {
        HermesEventV { event: self.event@, data: self.data.view() }
    }

    /// The text that a message event adds.
    pub fn message_delta(&self) -> (r: Option<String>)
        ensures
            opt_text(r) == self.view().delta(),
    {
        if !same(self.event.as_str(), "message.delta") {
            return None;
        }
        match read_first_text(&self.data, "delta", "text") {
            Some(s) => Some(owned(s)),
            None => None,
        }
    }

    /// Whether the run came to a good end.
    pub fn is_terminal_success(&self) -> (r: bool)
        ensures
            r == self.view().success(),
    {
        same(self.event.as_str(), "run.completed")
    }

    /// Whether the run was cancelled.
    pub fn is_cancelled(&self) -> (r: bool)
        ensures
            r == self.view().cancelled(),
    {
        same(self.event.as_str(), "run.cancelled")
    }

    /// What a run that came to a bad end reports.
    pub fn terminal_error(&self) -> (r: Option<String>)
        ensures
            opt_text(r) == self.view().failure(),
    {
        if same(self.event.as_str(), "run.failed") || same(self.event.as_str(), "run.cancelled") {
            match read_first_text(&self.data, "message", "error") {
                Some(s) => Some(owned(s)),
                None => Some(self.event.clone()),
            }
        } else {
            None
        }
    }
}

// ---------------------------------------------------------------------------
// Requests
// ---------------------------------------------------------------------------
/// The verb of a request.
#[derive(Clone, Copy, Debug, PartialEq, Eq, Structural)]
pub enum HttpVerb {
    Get,
    Post,
}

/// A request as it is to be sent.
#[derive(Debug)]
pub struct HttpRequest {
    pub verb: HttpVerb,
    pub url: String,
    /// Bearer token.
    pub bearer: Option<String>,
    /// JSON body.
    pub body: Option<Json>,
}

/// The model of a request.
pub struct HttpRequestV {
    pub verb: HttpVerb,
    pub url: Seq<char>,
    pub bearer: Option<Seq<char>>,
    pub body: Option<JsonV>,
}

impl HttpRequest {
    /// The model of this request.
    pub open spec fn view(&self) -> HttpRequestV {
        HttpRequestV {
            verb: self.verb,
            url: self.url@,
            bearer: opt_text(self.bearer),
            body: match self.body {
                Some(j) => Some(j.view()),
                None => None,
            },
        }
    }
}

/// `s` without trailing slashes.
pub open spec fn without_slashes(s: Seq<char>) -> Seq<char>
    decreases s.len(),
{
    if s.len() > 0 && s.last() == '/' {
        without_slashes(s.drop_last())
    } else {
        s
    }
}

/// Knows the address and the key of a gateway.
pub struct HermesApiClient {
    pub base_url: String,
    pub api_key: Option<String>,
}

/// The address of something about a run.
pub open spec fn run_url(base: Seq<char>, run: Seq<char>, tail: Seq<char>) -> Seq<char> {
    base + "/v1/runs/"@ + run + tail
}

impl HermesApiClient {
    /// A client of the gateway at `base_url`.
    pub fn new(base_url: &str, api_key: Option<String>) -> (r: HermesApiClient)
        ensures
            r.base_url@ == without_slashes(base_url@),
            r.api_key == api_key,
    {
        let v = chars_of(base_url);
        let mut hi: usize = v.len();
        assert(base_url@.take(hi as int) == base_url@);
        while hi > 0 && v[hi - 1] == '/'
            invariant
                hi <= v@.len(),
                v@ == base_url@,
                without_slashes(base_url@) == without_slashes(base_url@.take(hi as int)),
            decreases hi,
        {
            assert(base_url@.take(hi as int).drop_last() == base_url@.take(hi - 1));
            assert(base_url@.take(hi as int).last() == base_url@[hi - 1]);
            hi -= 1;
        }
        assert(hi > 0 ==> base_url@.take(hi as int).last() == base_url@[hi - 1]);
        let base = text_of(v.as_slice(), 0, hi);
        assert(base@ == base_url@.take(hi as int));
        HermesApiClient { base_url: base, api_key }
    }

    fn request(&self, verb: HttpVerb, url: String, body: Option<Json>) -> (r: HttpRequest)
        ensures
            r.view() == (HttpRequestV {
                verb,
                url: url@,
                bearer: opt_text(self.api_key),
                body: match body {
                    Some(j) => Some(j.view()),
                    None => None,
                },
            }),
    {
        HttpRequest { verb, url, bearer: opt_copy(&self.api_key), body }
    }

    fn about_run(&self, run_id: &str, tail: &str) -> (r: String)
        ensures
            r@ == run_url(self.base_url@, run_id@, tail@),
    {
        join2(join3(self.base_url.as_str(), "/v1/runs/", run_id).as_str(), tail)
    }

    /// Asks whether the gateway is alive.
    pub fn health(&self) -> (r: HttpRequest)
        ensures
            r.view() == (HttpRequestV {
                verb: HttpVerb::Get,
                url: self.base_url@ + "/health"@,
                bearer: opt_text(self.api_key),
                body: None,
            }),
    {
        self.request(HttpVerb::Get, join2(self.base_url.as_str(), "/health"), None)
    }

    /// Starts a run.
    pub fn create_run(&self, req: &CreateRunRequest) -> (r: HttpRequest)
        ensures
            r.view() == (HttpRequestV {
                verb: HttpVerb::Post,
                url: self.base_url@ + "/v1/runs"@,
                bearer: opt_text(self.api_key),
                body: Some(req.json()),
            }),
    {
        self.request(
            HttpVerb::Post,
            join2(self.base_url.as_str(), "/v1/runs"),
            Some(req.to_json()),
        )
    }

    /// Opens the event stream of a run.
    pub fn events_stream(&self, run_id: &str) -> (r: HttpRequest)
        ensures
            r.view() == (HttpRequestV {
                verb: HttpVerb::Get,
                url: run_url(self.base_url@, run_id@, "/events"@),
                bearer: opt_text(self.api_key),
                body: None,
            }),
    {
        self.request(HttpVerb::Get, self.about_run(run_id, "/events"), None)
    }

    /// Asks for the status of a run.
    pub fn get_run_status(&self, run_id: &str) -> (r: HttpRequest)
        ensures
            r.view() == (HttpRequestV {
                verb: HttpVerb::Get,
                url: run_url(self.base_url@, run_id@, ""@),
                bearer: opt_text(self.api_key),
                body: None,
            }),
    {
        self.request(HttpVerb::Get, self.about_run(run_id, ""), None)
    }

    /// Interrupts a run.
    pub fn stop_run(&self, run_id: &str) -> (r: HttpRequest)
        ensures
            r.view() == (HttpRequestV {
                verb: HttpVerb::Post,
                url: run_url(self.base_url@, run_id@, "/stop"@),
                bearer: opt_text(self.api_key),
                body: None,
            }),
    {
        self.request(HttpVerb::Post, self.about_run(run_id, "/stop"), None)
    }

    /// Answers an approval request of a run, or all that are open.
    pub fn resolve_run_approval(
        &self,
        run_id: &str,
        choice: ApprovalChoice,
        resolve_all: bool,
    ) -> (r: HttpRequest)
        ensures
            r.view() == (HttpRequestV {
                verb: HttpVerb::Post,
                url: run_url(self.base_url@, run_id@, "/approval"@),
                bearer: opt_text(self.api_key),
                body: Some(
                    ({
                        let v = JsonV::object().with("choice"@, JsonV::Str(choice.name()));
                        if resolve_all {
                            v.with("resolve_all"@, JsonV::Bool(true))
                        } else {
                            v
                        }
                    }),
                ),
            }),
    {
        let body = Json::object().with("choice", Json::text(choice.as_str()));
        let body = if resolve_all {
            body.with("resolve_all", Json::Bool(true))
        } else {
            body
        };
        self.request(HttpVerb::Post, self.about_run(run_id, "/approval"), Some(body))
    }

    /// Allows the one call that a run asks approval for.
    pub fn approve_run_once(&self, run_id: &str) -> (r: HttpRequest)
        ensures
            r.view() == (HttpRequestV {
                verb: HttpVerb::Post,
                url: run_url(self.base_url@, run_id@, "/approval"@),
                bearer: opt_text(self.api_key),
                body: Some(JsonV::object().with("choice"@, JsonV::Str("once"@))),
            }),
    {
        self.resolve_run_approval(run_id, ApprovalChoice::Once, false)
    }
}

} // verus!
