//! The Droid program: how it is started, asked and heard.
//!
//! The program reads one request per line and writes one message per line. Answers
//! carry the id of their request; everything it writes is an event too.

use vstd::prelude::*;

use crate::json::{Json, JsonV};
use crate::json_text::{parse, parsed, render, rendered};
use crate::launch::launcher::{ProcessRole, ProcessSpec, StdioMode};
use crate::text::{join3, opt_same, opt_text, owned, texts, trim, trimmed};
use crate::text_map::TextMap;

verus! {

/// Version of the programming interface.
pub const FACTORY_API_VERSION: &'static str = "1.0.0";

/// Version of the protocol.
pub const FACTORY_PROTOCOL_VERSION: &'static str = "1.36.0";

/// How many events a slow subscriber may lag behind.
pub const EVENT_CHANNEL_CAPACITY: usize = 1024;

/// Time that a request gets, in milliseconds.
pub const REQUEST_TIMEOUT_MS: u64 = 120_000;

// ---------------------------------------------------------------------------
// Starting
// ---------------------------------------------------------------------------
/// What the program is started with.
#[derive(Debug)]
pub struct DroidSpawnConfig {
    pub thread_id: String,
    pub cwd: String,
    pub droid_bin: String,
    pub model: Option<String>,
    pub auto_level: String,
}

/// The arguments of the program.
pub open spec fn droid_args(auto_level: Seq<char>, cwd: Seq<char>, model: Option<Seq<char>>) -> Seq<
    Seq<char>,
> {
    seq![
        "exec"@,
        "--input-format"@,
        "stream-jsonrpc"@,
        "--output-format"@,
        "stream-jsonrpc"@,
        "--auto"@,
        auto_level,
        "--cwd"@,
        cwd,
    ] + (match model {
        Some(m) => seq!["--model"@, m],
        None => seq![],
    })
}

/// How the program is started: in its working directory, with all streams piped.
pub fn spawn_spec(config: &DroidSpawnConfig) -> (r: ProcessSpec)
    ensures
        r.role == ProcessRole::Agent,
        r.program@ == config.droid_bin@,
        texts(r.args@) == droid_args(config.auto_level@, config.cwd@, opt_text(config.model)),
        opt_text(r.cwd) == Some(config.cwd@),
        r.env@.len() == 0,
        !r.env_clear,
        r.stdin == StdioMode::Piped,
        r.stdout == StdioMode::Piped,
        r.stderr == StdioMode::Piped,
{
    let mut args: Vec<String> = Vec::new();
    args.push(owned("exec"));
    args.push(owned("--input-format"));
    args.push(owned("stream-jsonrpc"));
    args.push(owned("--output-format"));
    args.push(owned("stream-jsonrpc"));
    args.push(owned("--auto"));
    args.push(config.auto_level.clone());
    args.push(owned("--cwd"));
    args.push(config.cwd.clone());
    let ghost plain = texts(args@);
    if let Some(m) = &config.model {
        args.push(owned("--model"));
        args.push(m.clone());
        assert(texts(args@) =~= plain + seq!["--model"@, m@]);
    }
    assert(texts(args@) =~= droid_args(config.auto_level@, config.cwd@, opt_text(config.model)));
    let mut spec = ProcessSpec::new(config.droid_bin.as_str());
    spec.args = args;
    spec.cwd = Some(config.cwd.clone());
    spec
}

// ---------------------------------------------------------------------------
// Requests
// ---------------------------------------------------------------------------
/// A request as the program reads it.
pub open spec fn request_json(id: Seq<char>, method: Seq<char>, params: JsonV) -> JsonV {
    JsonV::object()
        .with("type"@, JsonV::Str("request"@))
        .with("jsonrpc"@, JsonV::Str("2.0"@))
        .with("factoryApiVersion"@, JsonV::Str(FACTORY_API_VERSION@))
        .with("factoryProtocolVersion"@, JsonV::Str(FACTORY_PROTOCOL_VERSION@))
        .with("id"@, JsonV::Str(id))
        .with("method"@, JsonV::Str(method))
        .with("params"@, params)
}

/// The id that a message names: a text as it is, and anything else as it is written.
pub open spec fn named_id(v: JsonV) -> Option<Seq<char>> {
    match v.get("id"@) {
        None => None,
        Some(JsonV::Null) => None,
        Some(JsonV::Str(s)) => Some(s),
        Some(other) => Some(rendered(other)),
    }
}

/// The id that a message names.
pub fn response_id(value: &Json) -> (r: Option<String>)
    ensures
        opt_text(r) == named_id(value.view()),
{
    match value.get("id") {
        None => None,
        Some(id) => {
            if id.is_null() {
                None
            } else {
                match id.as_str() {
                    Some(s) => Some(owned(s)),
                    None => Some(render(id)),
                }
            }
        },
    }
}

/// A line that the program wrote.
pub enum Heard {
    /// Nothing that could be understood.
    Nothing,
    /// A message for the subscribers, and the id of the request that it answers.
    Message { value: Json, answers: Option<String> },
}

/// The message that a line holds.
pub open spec fn message_in(line: Seq<char>) -> Option<JsonV> {
    if trimmed(line).len() == 0 {
        None
    } else {
        parsed(trimmed(line))
    }
}

/// The request that a message answers, among those that wait.
pub open spec fn answered_id(v: JsonV, waiting: Set<Seq<char>>) -> Option<Seq<char>> {
    if v.str_at("type"@) == Some("response"@) {
        match named_id(v) {
            Some(id) => if waiting.contains(id) {
                Some(id)
            } else {
                None
            },
            None => None,
        }
    } else {
        None
    }
}

/// The requests of a running program that wait for their answers.
pub struct DroidProcess {
    thread_id: String,
    cwd: String,
    pending: TextMap<()>,
}

impl DroidProcess {
    /// The ids of the requests that wait.
    pub closed spec fn waiting(&self) -> Set<Seq<char>> {
        self.pending@.dom()
    }

    /// The thread that the program serves.
    pub closed spec fn thread(&self) -> Seq<char> {
        self.thread_id@
    }

    /// The directory that the program works in.
    pub closed spec fn directory(&self) -> Seq<char> {
        self.cwd@
    }

    /// A program that was just started.
    pub fn started(config: &DroidSpawnConfig) -> (r: DroidProcess)
        ensures
            r.thread() == config.thread_id@,
            r.directory() == config.cwd@,
            r.waiting() == Set::<Seq<char>>::empty(),
    {
        let r = DroidProcess {
            thread_id: config.thread_id.clone(),
            cwd: config.cwd.clone(),
            pending: TextMap::new(),
        };
        assert(r.waiting() =~= Set::empty());
        r
    }

    /// The thread that the program serves.
    pub fn thread_id(&self) -> (r: &str)
        ensures
            r@ == self.thread(),
    {
        self.thread_id.as_str()
    }

    /// The directory that the program works in.
    pub fn cwd(&self) -> (r: &str)
        ensures
            r@ == self.directory(),
    {
        self.cwd.as_str()
    }

    /// The line that asks the program something; the request now waits.
    pub fn request(&mut self, id: &str, method: &str, params: Json) -> (r: String)
        ensures
            r@ == rendered(request_json(id@, method@, params.view())),
            final(self).waiting() == old(self).waiting().insert(id@),
            final(self).thread() == old(self).thread(),
            final(self).directory() == old(self).directory(),
    {
        let frame = Json::object()
            .with("type", Json::text("request"))
            .with("jsonrpc", Json::text("2.0"))
            .with("factoryApiVersion", Json::text(FACTORY_API_VERSION))
            .with("factoryProtocolVersion", Json::text(FACTORY_PROTOCOL_VERSION))
            .with("id", Json::text(id))
            .with("method", Json::text(method))
            .with("params", params);
        self.pending.insert(id, ());
        assert(self.waiting() =~= old(self).waiting().insert(id@));
        render(&frame)
    }

    /// Lets a request wait no longer.
    pub fn forget(&mut self, id: &str)
        ensures
            final(self).waiting() == old(self).waiting().remove(id@),
            final(self).thread() == old(self).thread(),
            final(self).directory() == old(self).directory(),
    {
        self.pending.remove(id);
        assert(self.waiting() =~= old(self).waiting().remove(id@));
    }

    /// Takes a line that the program wrote: an answer goes to its request, which then
    /// waits no longer.
    pub fn hear(&mut self, line: &str) -> (r: Heard)
        ensures
            match message_in(line@) {
                None => r is Nothing && final(self).waiting() == old(self).waiting(),
                Some(v) => {
                    let id = answered_id(v, old(self).waiting());
                    &&& r matches Heard::Message { value, answers }
                    &&& value.view() == v
                    &&& opt_text(answers) == id
                    &&& final(self).waiting() == (match id {
                        Some(x) => old(self).waiting().remove(x),
                        None => old(self).waiting(),
                    })
                },
            },
            final(self).thread() == old(self).thread(),
            final(self).directory() == old(self).directory(),
    {
        let text = trim(line);
        if text.as_str().is_empty() {
            return Heard::Nothing;
        }
        let value = match parse(text.as_str()) {
            Some(v) => v,
            None => {
                return Heard::Nothing;
            },
        };
        let mut answers: Option<String> = None;
        if opt_same(value.str_at("type"), "response") {
            if let Some(id) = response_id(&value) {
                if self.pending.contains_key(id.as_str()) {
                    self.pending.remove(id.as_str());
                    assert(self.waiting() =~= old(self).waiting().remove(id@));
                    answers = Some(id);
                }
            }
        }
        Heard::Message { value, answers }
    }
}

/// How the wait for an answer ended.
pub enum RequestEnd {
    /// The program answered.
    Answered(Json),
    /// The program ended first.
    Cancelled,
    /// The time ran out.
    TimedOut,
    /// The program could not be asked.
    WriterClosed,
}

/// What a request comes to.
pub open spec fn request_outcome(method: Seq<char>, end: RequestEnd) -> Result<JsonV, Seq<char>> {
    match end {
        RequestEnd::WriterClosed => Err("droid writer is closed"@),
        RequestEnd::Cancelled => Err("droid request `"@ + method + "` was cancelled"@),
        RequestEnd::TimedOut => Err("droid request `"@ + method + "` timed out"@),
        RequestEnd::Answered(j) => match j.view().get("error"@) {
            Some(e) => Err(
                "droid request `"@ + method + ("` failed: "@ + (match e.str_at("message"@) {
                    Some(m) => m,
                    None => "unknown error"@,
                })),
            ),
            None => Ok(
                match j.view().get("result"@) {
                    Some(v) => v,
                    None => JsonV::Null,
                },
            ),
        },
    }
}

/// What a request comes to: the result of the answer, or why there is none.
pub fn request_result(method: &str, end: RequestEnd) -> (r: Result<Json, String>)
    ensures
        match request_outcome(method@, end) {
            Ok(v) => r is Ok && r->Ok_0.view() == v,
            Err(e) => r is Err && r->Err_0@ == e,
        },
{
    match end {
        RequestEnd::WriterClosed => Err(owned("droid writer is closed")),
        RequestEnd::Cancelled => Err(join3("droid request `", method, "` was cancelled")),
        RequestEnd::TimedOut => Err(join3("droid request `", method, "` timed out")),
        RequestEnd::Answered(j) => match j.get("error") {
            Some(e) => {
                let why = match e.str_at("message") {
                    Some(m) => m,
                    None => "unknown error",
                };
                let tail = crate::text::join2("` failed: ", why);
                Err(join3("droid request `", method, tail.as_str()))
            },
            None => match j.get("result") {
                Some(v) => Ok(v.copy()),
                None => Ok(Json::Null),
            },
        },
    }
}

// ---------------------------------------------------------------------------
// Laws
// ---------------------------------------------------------------------------
/// The first answer to a request reaches it, whatever else waits, and a second one
/// reaches nobody.
pub proof fn law_answered_once(v: JsonV, id: Seq<char>, waiting: Set<Seq<char>>)
    requires
        v.str_at("type"@) == Some("response"@),
        v.get("id"@) == Some(JsonV::Str(id)),
        waiting.contains(id),
    ensures
        answered_id(v, waiting) == Some(id),
        answered_id(v, waiting.remove(id)) is None,
{
}

/// Messages that are no answers leave every request waiting.
pub proof fn law_events_answer_nothing(v: JsonV, waiting: Set<Seq<char>>)
    requires
        v.str_at("type"@) != Some("response"@),
    ensures
        answered_id(v, waiting) is None,
{
}

} // verus!
