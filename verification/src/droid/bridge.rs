//! Requests to the Droid bridge.
//!
//! The bridge keeps the threads that clients started or resumed, and knows which of
//! them have a running program. Programs, sessions on disk and the index of all threads
//! are outside: requests that need them are answered in steps.

use vstd::prelude::*;

use super::models::{ModelFamily, default_model, droid_models, offered_models};
use super::process::DroidSpawnConfig;
use super::threads::{
    CompletedTurn, IndexEntry, MODEL_PROVIDER, PREVIEW_CHARS, RecordV, ThreadRecord,
    ThreadResumeParams, after_turn, attached, entry_of, index_entry_from_record, input_to_text,
    last_text, last_text_preview, part_texts, record_from_entry, record_of, record_turn,
    thread_attach_response, thread_json, thread_of, turn_json, turn_value,
};
use crate::codex::answers::{
    config_written, config_written_json, empty_page, empty_page_json, key_account, key_account_json,
    key_login, key_login_json, no_login, no_login_json, no_rate_limits, no_rate_limits_json,
    skill_enabled, skill_enabled_json,
};
use crate::codex::methods::Method;
use crate::codex::models::Model;
use crate::codex::policy::{ApprovalV, AskForApproval};
use crate::codex::thread::{UserInput, inputs, thread_model};
use crate::json::{
    Json, JsonV, ToJson, copy_all, jsons, lemma_array_view, list_to_json, opt_str, texts_to_json,
};
use crate::launch::paths::{below, join_path};
use crate::rpc::{
    Answer, AnswerV, INTERNAL_ERROR, INVALID_PARAMS, JsonRpcError, METHOD_NOT_FOUND, invalid_params,
    replied, reply_with, tell, told, turn_down, turned_down,
};
use crate::text::{
    first_chars, join2, join3, joined, opt_copy, opt_text, owned, texts, trim, trimmed,
};
use crate::text_map::TextMap;

verus! {

/// The program if nothing else is said.
pub const DEFAULT_DROID_BIN: &'static str = "droid";

/// The name under which the bridge opens sessions.
pub const MACHINE_ID: &'static str = "alleycat-droid-bridge";

// ---------------------------------------------------------------------------
// Building
// ---------------------------------------------------------------------------
/// What a bridge is built from.
pub struct DroidBridgeBuilder {
    pub agent_bin: Option<String>,
    pub codex_home: Option<String>,
    pub factory_sessions_dir: Option<String>,
}

impl Default for DroidBridgeBuilder {
    fn default() -> (r: Self)
        ensures
            r.agent_bin is None,
            r.codex_home is None,
            r.factory_sessions_dir is None,
    {
        DroidBridgeBuilder { agent_bin: None, codex_home: None, factory_sessions_dir: None }
    }
}

/// A text that says something.
pub open spec fn said(s: Option<Seq<char>>) -> Option<Seq<char>> {
    match s {
        Some(t) => if t.len() > 0 {
            Some(t)
        } else {
            None
        },
        None => None,
    }
}

fn non_empty(s: Option<String>) -> (r: Option<String>)
    ensures
        opt_text(r) == said(opt_text(s)),
{
    match s {
        Some(t) => if t.as_str().is_empty() {
            None
        } else {
            Some(t)
        },
        None => None,
    }
}

/// The first of two that is there.
pub open spec fn either(a: Option<Seq<char>>, b: Option<Seq<char>>) -> Option<Seq<char>> {
    match a {
        Some(x) => Some(x),
        None => b,
    }
}

impl DroidBridgeBuilder {
    /// With this program.
    pub fn agent_bin(self, bin: &str) -> (r: DroidBridgeBuilder)
        ensures
            opt_text(r.agent_bin) == Some(bin@),
            r.codex_home == self.codex_home,
            r.factory_sessions_dir == self.factory_sessions_dir,
    {
        DroidBridgeBuilder { agent_bin: Some(owned(bin)), ..self }
    }

    /// With this directory for its data.
    pub fn codex_home(self, home: &str) -> (r: DroidBridgeBuilder)
        ensures
            opt_text(r.codex_home) == Some(home@),
            r.agent_bin == self.agent_bin,
            r.factory_sessions_dir == self.factory_sessions_dir,
    {
        DroidBridgeBuilder { codex_home: Some(owned(home)), ..self }
    }

    /// With this directory of sessions.
    pub fn factory_sessions_dir(self, dir: &str) -> (r: DroidBridgeBuilder)
        ensures
            opt_text(r.factory_sessions_dir) == Some(dir@),
            r.agent_bin == self.agent_bin,
            r.codex_home == self.codex_home,
    {
        DroidBridgeBuilder { factory_sessions_dir: Some(owned(dir)), ..self }
    }

    /// Fills in from the variables of the environment what was not said: the program
    /// from `DROID_BRIDGE_DROID_BIN` or else `DROID_BRIDGE_BIN`, the home from
    /// `CODEX_HOME` and the sessions from `DROID_BRIDGE_FACTORY_SESSIONS_DIR`. An empty
    /// directory counts as none.
    pub fn from_env(
        self,
        droid_bin: Option<String>,
        bridge_bin: Option<String>,
        codex_home: Option<String>,
        sessions_dir: Option<String>,
    ) -> (r: DroidBridgeBuilder)
        ensures
            opt_text(r.agent_bin) == either(
                opt_text(self.agent_bin),
                either(opt_text(droid_bin), opt_text(bridge_bin)),
            ),
            opt_text(r.codex_home) == either(opt_text(self.codex_home), said(opt_text(codex_home))),
            opt_text(r.factory_sessions_dir) == either(
                opt_text(self.factory_sessions_dir),
                said(opt_text(sessions_dir)),
            ),
    {
        DroidBridgeBuilder {
            agent_bin: match self.agent_bin {
                Some(b) => Some(b),
                None => match droid_bin {
                    Some(b) => Some(b),
                    None => bridge_bin,
                },
            },
            codex_home: match self.codex_home {
                Some(h) => Some(h),
                None => non_empty(codex_home),
            },
            factory_sessions_dir: match self.factory_sessions_dir {
                Some(d) => Some(d),
                None => non_empty(sessions_dir),
            },
        }
    }

    /// The bridge; `config_dir` is where this host keeps configurations, if it has such
    /// a place, and `family` the models that it offers first.
    pub fn build(self, config_dir: Option<&str>, windows: bool, family: ModelFamily) -> (r:
        DroidBridge)
        ensures
            r.family_id() == family.id@,
            r.family_title() == family.title@,
            r.bin() == (match self.agent_bin {
                Some(b) => b@,
                None => DEFAULT_DROID_BIN@,
            }),
            r.home() == (match self.codex_home {
                Some(h) => h@,
                None => default_home(
                    match config_dir {
                        Some(d) => Some(d@),
                        None => None,
                    },
                    windows,
                ),
            }),
            r.sessions() == opt_text(self.factory_sessions_dir),
            r.records() == Map::<Seq<char>, RecordV>::empty(),
            r.loaded() == Seq::<Seq<char>>::empty(),
    {
        let home = match self.codex_home {
            Some(h) => h,
            None => default_codex_home(config_dir, windows),
        };
        let bin = match self.agent_bin {
            Some(b) => b,
            None => owned(DEFAULT_DROID_BIN),
        };
        let r = DroidBridge {
            family,
            droid_bin: bin,
            codex_home: home,
            factory_sessions_dir: self.factory_sessions_dir,
            threads: TextMap::new(),
            processes: TextMap::new(),
        };
        assert(r.records() =~= Map::empty());
        assert(r.loaded() =~= Seq::empty());
        r
    }
}

/// The directory for the data of a bridge that was told none.
pub open spec fn default_home(config_dir: Option<Seq<char>>, windows: bool) -> Seq<char> {
    match config_dir {
        Some(d) => below(d, "droid-bridge"@, windows),
        None => ".codex/droid-bridge"@,
    }
}

/// The directory for the data of a bridge that was told none.
pub fn default_codex_home(config_dir: Option<&str>, windows: bool) -> (r: String)
    ensures
        r@ == default_home(
            match config_dir {
                Some(d) => Some(d@),
                None => None,
            },
            windows,
        ),
{
    match config_dir {
        Some(d) => join_path(d, "droid-bridge", windows),
        None => owned(".codex/droid-bridge"),
    }
}

/// The bridge.
pub struct DroidBridge {
    family: ModelFamily,
    droid_bin: String,
    codex_home: String,
    factory_sessions_dir: Option<String>,
    threads: TextMap<ThreadRecord>,
    processes: TextMap<()>,
}

impl DroidBridge {
    /// The identifier of the models that are offered first.
    pub closed spec fn family_id(&self) -> Seq<char> {
        self.family.id@
    }

    /// The title of the models that are offered first.
    pub closed spec fn family_title(&self) -> Seq<char> {
        self.family.title@
    }

    /// The program.
    pub closed spec fn bin(&self) -> Seq<char> {
        self.droid_bin@
    }

    /// The directory for its data.
    pub closed spec fn home(&self) -> Seq<char> {
        self.codex_home@
    }

    /// The directory of sessions.
    pub closed spec fn sessions(&self) -> Option<Seq<char>> {
        opt_text(self.factory_sessions_dir)
    }

    /// The threads that it keeps.
    pub closed spec fn records(&self) -> Map<Seq<char>, RecordV> {
        self.threads@.map_values(|r: ThreadRecord| r.view())
    }

    /// The threads that have a running program, in the order in which they got it.
    pub closed spec fn loaded(&self) -> Seq<Seq<char>> {
        self.processes.keys()
    }

    /// Whether a thread has a running program.
    pub closed spec fn running(&self, thread_id: Seq<char>) -> bool {
        self.processes@.dom().contains(thread_id)
    }

    /// A builder for a bridge.
    pub fn builder() -> (r: DroidBridgeBuilder)
        ensures
            r.agent_bin is None,
            r.codex_home is None,
            r.factory_sessions_dir is None,
    {
        DroidBridgeBuilder::default()
    }

    /// The model of threads that name none.
    pub fn usual_model(&self) -> (r: String)
        ensures
            r@ == default_model(self.family_id()),
    {
        self.family.default_model()
    }

    /// The directory of sessions.
    pub fn sessions_dir(&self) -> (r: Option<String>)
        ensures
            opt_text(r) == self.sessions(),
    {
        opt_copy(&self.factory_sessions_dir)
    }

    /// Whether a thread has a running program.
    pub fn is_loaded(&self, thread_id: &str) -> (r: bool)
        ensures
            r == self.running(thread_id@),
    {
        self.processes.contains_key(thread_id)
    }

    /// The record of a thread.
    pub fn record(&self, thread_id: &str) -> (r: Option<ThreadRecord>)
        ensures
            match r {
                Some(x) => self.records().dom().contains(thread_id@) && x.view()
                    == self.records()[thread_id@],
                None => !self.records().dom().contains(thread_id@),
            },
    {
        match self.threads.get(thread_id) {
            Some(r) => Some(r.copy()),
            None => None,
        }
    }

    fn keep(&mut self, thread_id: &str, record: ThreadRecord)
        ensures
            final(self).records() == old(self).records().insert(thread_id@, record.view()),
            final(self).same_but_records(*old(self)),
    {
        self.threads.insert(thread_id, record);
        assert(self.records() =~= old(self).records().insert(thread_id@, record.view()));
    }

    /// Whether all but the records is as in another bridge.
    pub open spec fn same_but_records(&self, other: DroidBridge) -> bool {
        &&& self.family_id() == other.family_id()
        &&& self.family_title() == other.family_title()
        &&& self.bin() == other.bin()
        &&& self.home() == other.home()
        &&& self.sessions() == other.sessions()
        &&& self.loaded() == other.loaded()
        &&& forall|t: Seq<char>| #[trigger] self.running(t) == other.running(t)
    }

    /// Whether all but the running programs is as in another bridge.
    pub open spec fn same_but_programs(&self, other: DroidBridge) -> bool {
        &&& self.family_id() == other.family_id()
        &&& self.family_title() == other.family_title()
        &&& self.bin() == other.bin()
        &&& self.home() == other.home()
        &&& self.sessions() == other.sessions()
        &&& self.records() == other.records()
    }
}

// ---------------------------------------------------------------------------
// Programs
// ---------------------------------------------------------------------------
/// How much Droid may do without asking.
pub open spec fn autonomy(policy: ApprovalV) -> Seq<char> {
    match policy {
        ApprovalV::Never => "high"@,
        ApprovalV::OnFailure => "medium"@,
        ApprovalV::OnRequest => "medium"@,
        ApprovalV::UnlessTrusted => "low"@,
        ApprovalV::Granular(_) => "low"@,
    }
}

/// How much Droid may do without asking.
pub fn autonomy_level(policy: &AskForApproval) -> (r: &'static str)
    ensures
        r@ == autonomy(policy.view()),
{
    match policy {
        AskForApproval::Never => "high",
        AskForApproval::OnFailure => "medium",
        AskForApproval::OnRequest => "medium",
        AskForApproval::UnlessTrusted => "low",
        AskForApproval::Granular(_) => "low",
    }
}

/// Whether a session is new to Droid.
#[derive(Debug, Clone, Copy, PartialEq, Eq, Structural)]
pub enum SessionOpenMode {
    Initialize,
    Load,
}

/// A program that is to be started, and what it is asked first.
pub struct OpenPlan {
    pub config: DroidSpawnConfig,
    pub method: String,
    pub params: Json,
}

/// What a program is asked first.
pub open spec fn opening(r: RecordV, mode: SessionOpenMode) -> (Seq<char>, JsonV) {
    match mode {
        SessionOpenMode::Initialize => (
            "droid.initialize_session"@,
            JsonV::object()
                .with("sessionId"@, JsonV::Str(r.id))
                .with("cwd"@, JsonV::Str(r.cwd))
                .with("machineId"@, JsonV::Str(MACHINE_ID@))
                .with("autonomyLevel"@, JsonV::Str(autonomy(r.approval_policy)))
                .with("modelId"@, JsonV::Str(r.model)),
        ),
        SessionOpenMode::Load => (
            "droid.load_session"@,
            JsonV::object().with("sessionId"@, JsonV::Str(r.id)),
        ),
    }
}

impl DroidBridge {
    /// The program that a thread needs; none where one runs already.
    pub fn plan_open(&self, record: &ThreadRecord, mode: SessionOpenMode) -> (r: Option<OpenPlan>)
        ensures
            r is None <==> self.running(record.view().id),
            r matches Some(plan) ==> {
                let v = record.view();
                &&& plan.config.thread_id@ == v.id
                &&& plan.config.cwd@ == v.cwd
                &&& plan.config.droid_bin@ == self.bin()
                &&& opt_text(plan.config.model) == Some(v.model)
                &&& plan.config.auto_level@ == autonomy(v.approval_policy)
                &&& plan.method@ == opening(v, mode).0
                &&& plan.params.view() == opening(v, mode).1
            },
    {
        if self.processes.contains_key(record.id.as_str()) {
            return None;
        }
        let level = autonomy_level(&record.approval_policy);
        let (method, params) = match mode {
            SessionOpenMode::Initialize => (
                "droid.initialize_session",
                Json::object()
                    .with("sessionId", Json::text(record.id.as_str()))
                    .with("cwd", Json::text(record.cwd.as_str()))
                    .with("machineId", Json::text(MACHINE_ID))
                    .with("autonomyLevel", Json::text(level))
                    .with("modelId", Json::text(record.model.as_str())),
            ),
            SessionOpenMode::Load => (
                "droid.load_session",
                Json::object().with("sessionId", Json::text(record.id.as_str())),
            ),
        };
        Some(
            OpenPlan {
                config: DroidSpawnConfig {
                    thread_id: record.id.clone(),
                    cwd: record.cwd.clone(),
                    droid_bin: self.droid_bin.clone(),
                    model: Some(record.model.clone()),
                    auto_level: owned(level),
                },
                method: owned(method),
                params,
            },
        )
    }

    /// Notes that the program of a thread runs and has opened its session.
    pub fn opened(&mut self, thread_id: &str)
        ensures
            final(self).running(thread_id@),
            forall|t: Seq<char>|
                t != thread_id@ ==> #[trigger] final(self).running(t) == old(self).running(t),
            final(self).loaded() == (if old(self).running(thread_id@) {
                old(self).loaded()
            } else {
                old(self).loaded().push(thread_id@)
            }),
            final(self).same_but_programs(*old(self)),
    {
        self.processes.insert(thread_id, ());
    }
}

/// Refuses a request because the program failed.
pub fn program_failed(error: &str) -> (r: Answer)
    ensures
        r.view() == turned_down(INTERNAL_ERROR, error@),
{
    turn_down(INTERNAL_ERROR, error)
}

// ---------------------------------------------------------------------------
// Threads
// ---------------------------------------------------------------------------
/// Why a thread cannot be served.
pub open spec fn no_thread(thread_id: Seq<char>) -> Seq<char> {
    "thread `"@ + thread_id + "` not found"@
}

fn not_found(thread_id: &str) -> (r: Answer)
    ensures
        r.view() == turned_down(INVALID_PARAMS, no_thread(thread_id@)),
{
    turn_down(INVALID_PARAMS, join3("thread `", thread_id, "` not found").as_str())
}

/// What a started thread leads to.
pub struct ThreadStarted {
    pub answer: Answer,
    /// What the index is told, if the session has a place.
    pub entry: Option<IndexEntry>,
}

impl DroidBridge {
    /// Ends the start of a thread whose program has opened its session.
    pub fn finish_thread_start(&mut self, record: ThreadRecord) -> (r: ThreadStarted)
        ensures
            r.answer.view() == told(
                "thread/started"@,
                JsonV::object().with("thread"@, thread_model(thread_of(record.view(), false))),
                attached(record.view()),
            ),
            match record.view().path {
                Some(path) => r.entry is Some && r.entry->Some_0.view() == entry_of(
                    record.view(),
                    path,
                ),
                None => r.entry is None,
            },
            final(self).records() == old(self).records().insert(record.view().id, record.view()),
            final(self).same_but_records(*old(self)),
    {
        let entry = match &record.path {
            Some(path) => Some(index_entry_from_record(&record, path.as_str())),
            None => None,
        };
        let answer = tell(
            "thread/started",
            Json::object().with("thread", thread_json(&record, false)),
            thread_attach_response(&record),
        );
        let id = record.id.clone();
        self.keep(id.as_str(), record);
        ThreadStarted { answer, entry }
    }

    /// The record that a client resumes: the one that the bridge keeps, or one made from
    /// the index.
    pub fn record_to_resume(
        &self,
        p: &ThreadResumeParams,
        entry: Option<&IndexEntry>,
        session_model: Option<String>,
    ) -> (r: Result<ThreadRecord, JsonRpcError>)
        ensures
            if self.records().dom().contains(p.thread_id@) {
                r is Ok && r->Ok_0.view() == self.records()[p.thread_id@]
            } else {
                match entry {
                    Some(e) => r is Ok && r->Ok_0.view() == record_of(
                        e.view(),
                        *p,
                        opt_text(session_model),
                        default_model(self.family_id()),
                    ),
                    None => r is Err && r->Err_0.code == INVALID_PARAMS && r->Err_0.message@
                        == no_thread(p.thread_id@),
                }
            },
    {
        if let Some(record) = self.record(p.thread_id.as_str()) {
            return Ok(record);
        }
        match entry {
            Some(e) => Ok(
                record_from_entry(e, p, session_model, self.usual_model().as_str()),
            ),
            None => Err(
                invalid_params(join3("thread `", p.thread_id.as_str(), "` not found").as_str()),
            ),
        }
    }

    /// Ends the resumption of a thread whose program has opened its session.
    pub fn finish_thread_resume(&mut self, record: ThreadRecord) -> (r: Answer)
        ensures
            r.view() == replied(attached(record.view())),
            final(self).records() == old(self).records().insert(record.view().id, record.view()),
            final(self).same_but_records(*old(self)),
    {
        let answer = reply_with(thread_attach_response(&record));
        let id = record.id.clone();
        self.keep(id.as_str(), record);
        answer
    }
}

/// The id of a thread on the wire.
pub open spec fn id_params(thread_id: Seq<char>) -> JsonV {
    JsonV::object().with("threadId"@, JsonV::Str(thread_id))
}

/// Answers that a thread was archived; `changed` tells whether the index had it.
pub fn handle_thread_archive(thread_id: &str, changed: bool) -> (r: Answer)
    ensures
        r.view() == (if changed {
            told("thread/archived"@, id_params(thread_id@), JsonV::object())
        } else {
            turned_down(INVALID_PARAMS, no_thread(thread_id@))
        }),
{
    if !changed {
        return not_found(thread_id);
    }
    tell(
        "thread/archived",
        Json::object().with("threadId", Json::text(thread_id)),
        Json::object(),
    )
}

/// Answers that a thread was taken out of the archive, with the thread as the index
/// knows it.
pub fn handle_thread_unarchive(thread_id: &str, changed: bool, thread: Option<Json>) -> (r: Answer)
    ensures
        r.view() == (if changed {
            match thread {
                Some(t) => told(
                    "thread/unarchived"@,
                    id_params(thread_id@),
                    JsonV::object().with("thread"@, t.view()),
                ),
                None => turned_down(INVALID_PARAMS, no_thread(thread_id@)),
            }
        } else {
            turned_down(INVALID_PARAMS, no_thread(thread_id@))
        }),
{
    if !changed {
        return not_found(thread_id);
    }
    match thread {
        Some(t) => tell(
            "thread/unarchived",
            Json::object().with("threadId", Json::text(thread_id)),
            Json::object().with("thread", t),
        ),
        None => not_found(thread_id),
    }
}

/// The name that is stored: without surrounding whitespace, and none if nothing is left.
pub open spec fn name_kept(name: Seq<char>) -> Option<Seq<char>> {
    said(Some(trimmed(name)))
}

/// The name that is stored.
pub fn stored_name(name: &str) -> (r: Option<String>)
    ensures
        opt_text(r) == name_kept(name@),
{
    non_empty(Some(trim(name)))
}

impl DroidBridge {
    /// What the program of a thread is asked when the thread gets a name, if one runs.
    pub fn rename_request(&self, thread_id: &str, name: &str) -> (r: Option<(String, Json)>)
        ensures
            r is Some <==> self.running(thread_id@),
            r matches Some(q) ==> q.0@ == "droid.rename_session"@ && q.1.view()
                == JsonV::object().with("title"@, JsonV::Str(trimmed(name@))),
    {
        if self.processes.contains_key(thread_id) {
            Some(
                (
                    owned("droid.rename_session"),
                    Json::object().with("title", Json::Str(trim(name))),
                ),
            )
        } else {
            None
        }
    }

    /// Gives a thread a name; `changed` tells whether the index had it.
    pub fn handle_thread_name_set(
        &mut self,
        thread_id: &str,
        name: &str,
        changed: bool,
        now: i64,
    ) -> (r: Answer)
        ensures
            r.view() == (if changed {
                told(
                    "thread/name/updated"@,
                    id_params(thread_id@).with("threadName"@, opt_str(name_kept(name@))),
                    JsonV::object(),
                )
            } else {
                turned_down(INVALID_PARAMS, no_thread(thread_id@))
            }),
            final(self).records() == (if changed && old(self).records().dom().contains(
                thread_id@,
            ) {
                old(self).records().insert(
                    thread_id@,
                    RecordV {
                        name: name_kept(name@),
                        updated_at: now,
                        ..old(self).records()[thread_id@]
                    },
                )
            } else {
                old(self).records()
            }),
            final(self).same_but_records(*old(self)),
    {
        if !changed {
            return not_found(thread_id);
        }
        let stored = stored_name(name);
        let told_name = Json::opt_str(&stored);
        if let Some(record) = self.record(thread_id) {
            let mut q = record;
            q.name = stored;
            q.updated_at = now;
            self.keep(thread_id, q);
        }
        tell(
            "thread/name/updated",
            Json::object().with("threadId", Json::text(thread_id)).with("threadName", told_name),
            Json::object(),
        )
    }
}

// ---------------------------------------------------------------------------
// Listing and reading
// ---------------------------------------------------------------------------
/// What threads are sorted by.
#[derive(Debug, Clone, Copy, PartialEq, Eq, Structural)]
pub enum ThreadSortKey {
    CreatedAt,
    UpdatedAt,
}

/// Which end of a list comes first.
#[derive(Debug, Clone, Copy, PartialEq, Eq, Structural)]
pub enum SortDirection {
    Asc,
    Desc,
}

/// The directories that a client wants threads of.
pub open spec fn wanted_cwds(value: Option<JsonV>) -> Option<Seq<Seq<char>>> {
    match value {
        Some(JsonV::Str(s)) => Some(seq![s]),
        Some(JsonV::Arr(a)) => Some(strings_in(a)),
        _ => None,
    }
}

/// The texts of a list, in order.
pub open spec fn strings_in(a: Seq<JsonV>) -> Seq<Seq<char>>
    decreases a.len(),
{
    if a.len() == 0 {
        seq![]
    } else {
        match a.last() {
            JsonV::Str(s) => strings_in(a.drop_last()).push(s),
            _ => strings_in(a.drop_last()),
        }
    }
}

fn strings_of(v: &Vec<Json>) -> (r: Vec<String>)
    ensures
        texts(r@) == strings_in(jsons(v@)),
{
    let ghost all = jsons(v@);
    let mut out: Vec<String> = Vec::new();
    let mut i: usize = 0;
    assert(texts(out@) =~= strings_in(all.take(0)));
    while i < v.len()
        invariant
            i <= v@.len(),
            all == jsons(v@),
            texts(out@) == strings_in(all.take(i as int)),
        decreases v@.len() - i,
    {
        let ghost was = out@;
        assert(all.take(i + 1).drop_last() =~= all.take(i as int));
        assert(all.take(i + 1).last() == v@[i as int].view());
        if let Some(s) = v[i].as_str() {
            out.push(owned(s));
            assert(texts(out@) =~= texts(was).push(s@));
        }
        i += 1;
    }
    assert(all.take(i as int) =~= all);
    out
}

/// The directories that a client wants threads of: one, or several, or all.
pub fn parse_cwd_filter(value: Option<&Json>) -> (r: Option<Vec<String>>)
    ensures
        match r {
            Some(v) => wanted_cwds(
                match value {
                    Some(j) => Some(j.view()),
                    None => None,
                },
            ) == Some(texts(v@)),
            None => wanted_cwds(
                match value {
                    Some(j) => Some(j.view()),
                    None => None,
                },
            ) is None,
        },
{
    match value {
        Some(j) => {
            if let Some(s) = j.as_str() {
                let mut one: Vec<String> = Vec::new();
                one.push(owned(s));
                assert(texts(one@) =~= seq![s@]);
                return Some(one);
            }
            match j.as_array() {
                Some(v) => Some(strings_of(v)),
                None => None,
            }
        },
        None => None,
    }
}

/// What a client wants listed.
pub struct ThreadListParams {
    pub archived: Option<bool>,
    pub cwd: Option<Json>,
    pub search_term: Option<String>,
    pub sort_key: Option<ThreadSortKey>,
    pub sort_direction: Option<SortDirection>,
}

/// What the index is asked.
pub struct ListQuery {
    pub archived: bool,
    pub cwds: Option<Vec<String>>,
    pub search_term: Option<String>,
    pub sort_key: ThreadSortKey,
    pub sort_direction: SortDirection,
}

/// What the index is asked: threads that are not archived, the youngest first, unless
/// the client says otherwise.
pub fn list_query(p: &ThreadListParams) -> (r: ListQuery)
    ensures
        r.archived == (p.archived == Some(true)),
        match r.cwds {
            Some(v) => wanted_cwds(
                match p.cwd {
                    Some(j) => Some(j.view()),
                    None => None,
                },
            ) == Some(texts(v@)),
            None => wanted_cwds(
                match p.cwd {
                    Some(j) => Some(j.view()),
                    None => None,
                },
            ) is None,
        },
        opt_text(r.search_term) == opt_text(p.search_term),
        r.sort_key == (match p.sort_key {
            Some(k) => k,
            None => ThreadSortKey::CreatedAt,
        }),
        r.sort_direction == (match p.sort_direction {
            Some(d) => d,
            None => SortDirection::Desc,
        }),
{
    ListQuery {
        archived: match p.archived {
            Some(a) => a,
            None => false,
        },
        cwds: match &p.cwd {
            Some(j) => parse_cwd_filter(Some(j)),
            None => parse_cwd_filter(None),
        },
        search_term: opt_copy(&p.search_term),
        sort_key: match p.sort_key {
            Some(k) => k,
            None => ThreadSortKey::CreatedAt,
        },
        sort_direction: match p.sort_direction {
            Some(d) => d,
            None => SortDirection::Desc,
        },
    }
}

/// A thread as the index lists it.
pub struct ListedThread {
    pub id: String,
    pub thread: Json,
}

impl DroidBridge {
    /// A listed thread as clients see it: idle if its program runs.
    pub open spec fn shown(&self, t: ListedThread) -> JsonV {
        if self.running(t.id@) {
            t.thread.view().with("status"@, JsonV::object().with("type"@, JsonV::Str("idle"@)))
        } else {
            t.thread.view()
        }
    }

    /// Answers with a page of threads.
    pub fn handle_thread_list(
        &self,
        page: Vec<ListedThread>,
        next_cursor: Option<String>,
        backwards_cursor: Option<String>,
    ) -> (r: Answer)
        requires
            forall|i: int| 0 <= i < page@.len() ==> (#[trigger] page@[i]).thread.view() is Obj,
        ensures
            r.view() == replied(
                JsonV::object()
                    .with("data"@, JsonV::Arr(page@.map_values(|t: ListedThread| self.shown(t))))
                    .with("nextCursor"@, opt_str(opt_text(next_cursor)))
                    .with("backwardsCursor"@, opt_str(opt_text(backwards_cursor))),
            ),
    {
        broadcast use lemma_array_view;

        let ghost given = page@;
        let mut data: Vec<Json> = Vec::new();
        for t in it: page
            invariant
                it.seq() == given,
                forall|i: int| 0 <= i < given.len() ==> (#[trigger] given[i]).thread.view() is Obj,
                data@.len() == it.index(),
                forall|k: int|
                    0 <= k < it.index() ==> (#[trigger] data@[k]).view() == self.shown(given[k]),
        {
            assert(t == given[it.index()]);
            if self.processes.contains_key(t.id.as_str()) {
                data.push(
                    t.thread.with("status", Json::object().with("type", Json::text("idle"))),
                );
            } else {
                data.push(t.thread);
            }
        }
        assert(jsons(data@) =~= given.map_values(|t: ListedThread| self.shown(t)));
        reply_with(
            Json::object()
                .with("data", Json::Array(data))
                .with("nextCursor", Json::opt_str(&next_cursor))
                .with("backwardsCursor", Json::opt_str(&backwards_cursor)),
        )
    }

    /// Answers with the threads that have a running program.
    pub fn handle_thread_loaded_list(&self) -> (r: Answer)
        ensures
            r.view() == replied(
                JsonV::object()
                    .with(
                        "data"@,
                        JsonV::Arr(self.loaded().map_values(|t: Seq<char>| JsonV::Str(t))),
                    )
                    .with("nextCursor"@, JsonV::Null),
            ),
    {
        let n: usize = self.processes.len();
        let mut ids: Vec<String> = Vec::new();
        let mut i: usize = 0;
        while i < n
            invariant
                i <= n,
                n == self.processes.size(),
                self.processes.enumerates(),
                ids@.len() == i,
                forall|k: int| 0 <= k < i ==> (#[trigger] ids@[k])@ == self.processes.key_at(k),
            decreases n - i,
        {
            let (id, _) = self.processes.entry(i);
            ids.push(id.clone());
            i += 1;
        }
        assert(ids@.map_values(|s: String| JsonV::Str(s@)) =~= self.loaded().map_values(
            |t: Seq<char>| JsonV::Str(t),
        )) by {
            assert forall|k: int| 0 <= k < n implies (#[trigger] ids@[k])@
                == self.loaded()[k] by {
                assert(self.processes.keys()[k] == self.processes.key_at(k));
            }
        }
        reply_with(
            Json::object().with("data", texts_to_json(&ids)).with("nextCursor", Json::Null),
        )
    }
}

/// The turns of a record: its own, or those of its session where it has none.
pub open spec fn turns_shown(r: RecordV, transcript: Seq<JsonV>) -> Seq<JsonV> {
    if r.turns.len() == 0 && r.path is Some {
        transcript
    } else {
        r.turns
    }
}

/// The turns of a record: its own, or those of its session where it has none.
pub fn turns_for_record(record: &ThreadRecord, transcript: Vec<Json>) -> (r: Vec<Json>)
    ensures
        jsons(r@) == turns_shown(record.view(), jsons(transcript@)),
{
    if record.turns.len() == 0 && record.path.is_some() {
        transcript
    } else {
        copy_all(&record.turns)
    }
}

impl DroidBridge {
    /// Answers with a thread: the one that the bridge keeps, or the one of the index.
    /// `transcript` holds the turns of its session.
    pub fn handle_thread_read(
        &self,
        thread_id: &str,
        include_turns: bool,
        indexed: Option<Json>,
        transcript: Vec<Json>,
    ) -> (r: Answer)
        requires
            indexed matches Some(t) ==> t.view() is Obj,
        ensures
            r.view() == (if self.records().dom().contains(thread_id@) {
                let record = self.records()[thread_id@];
                let bare = thread_model(thread_of(record, false));
                replied(
                    JsonV::object().with(
                        "thread"@,
                        if include_turns {
                            bare.with(
                                "turns"@,
                                JsonV::Arr(turns_shown(record, jsons(transcript@))),
                            )
                        } else {
                            bare
                        },
                    ),
                )
            } else {
                match indexed {
                    Some(t) => replied(
                        JsonV::object().with(
                            "thread"@,
                            if include_turns {
                                t.view().with("turns"@, JsonV::Arr(jsons(transcript@)))
                            } else {
                                t.view()
                            },
                        ),
                    ),
                    None => turned_down(INVALID_PARAMS, no_thread(thread_id@)),
                }
            }),
    {
        broadcast use lemma_array_view;

        if let Some(record) = self.record(thread_id) {
            let mut thread = thread_json(&record, false);
            if include_turns {
                thread = thread.with("turns", Json::Array(turns_for_record(&record, transcript)));
            }
            return reply_with(Json::object().with("thread", thread));
        }
        match indexed {
            Some(t) => {
                let thread = if include_turns {
                    t.with("turns", Json::Array(transcript))
                } else {
                    t
                };
                reply_with(Json::object().with("thread", thread))
            },
            None => not_found(thread_id),
        }
    }

    /// Answers with the turns of a thread, the last one first unless the client says
    /// otherwise, and no more than the client wants.
    pub fn handle_thread_turns_list(
        &self,
        thread_id: &str,
        direction: Option<SortDirection>,
        limit: Option<u32>,
        is_indexed: bool,
        transcript: Vec<Json>,
    ) -> (r: Answer)
        ensures
            r.view() == (if self.records().dom().contains(thread_id@) || is_indexed {
                let all = if self.records().dom().contains(thread_id@) {
                    turns_shown(self.records()[thread_id@], jsons(transcript@))
                } else {
                    jsons(transcript@)
                };
                replied(
                    JsonV::object()
                        .with("data"@, JsonV::Arr(turns_page(all, direction, limit)))
                        .with("nextCursor"@, JsonV::Null)
                        .with("backwardsCursor"@, JsonV::Null),
                )
            } else {
                turned_down(INVALID_PARAMS, no_thread(thread_id@))
            }),
    {
        broadcast use lemma_array_view;

        let all = match self.record(thread_id) {
            Some(record) => turns_for_record(&record, transcript),
            None => {
                if !is_indexed {
                    return not_found(thread_id);
                }
                transcript
            },
        };
        let forward = match direction {
            Some(SortDirection::Asc) => true,
            _ => false,
        };
        let n: usize = all.len();
        let count: usize = match limit {
            Some(l) => if (l as usize) < n {
                l as usize
            } else {
                n
            },
            None => n,
        };
        let mut data: Vec<Json> = Vec::new();
        let ghost ordered = if forward {
            jsons(all@)
        } else {
            jsons(all@).reverse()
        };
        let mut i: usize = 0;
        while i < count
            invariant
                i <= count <= n,
                n == all@.len(),
                ordered == (if forward {
                    jsons(all@)
                } else {
                    jsons(all@).reverse()
                }),
                data@.len() == i,
                forall|k: int| 0 <= k < i ==> (#[trigger] data@[k]).view() == ordered[k],
            decreases count - i,
        {
            if forward {
                data.push(all[i].copy());
            } else {
                data.push(all[n - 1 - i].copy());
            }
            i += 1;
        }
        assert(jsons(data@) =~= turns_page(jsons(all@), direction, limit));
        reply_with(
            Json::object()
                .with("data", Json::Array(data))
                .with("nextCursor", Json::Null)
                .with("backwardsCursor", Json::Null),
        )
    }
}

/// The turns that a client sees of all.
pub open spec fn turns_page(
    all: Seq<JsonV>,
    direction: Option<SortDirection>,
    limit: Option<u32>,
) -> Seq<JsonV> {
    let ordered = if direction == Some(SortDirection::Asc) {
        all
    } else {
        all.reverse()
    };
    match limit {
        Some(l) => if l < ordered.len() {
            ordered.take(l as int)
        } else {
            ordered
        },
        None => ordered,
    }
}

// ---------------------------------------------------------------------------
// Turns
// ---------------------------------------------------------------------------
/// What the program of a thread is asked for a turn.
pub open spec fn message_params(prompt: Seq<char>) -> JsonV {
    JsonV::object()
        .with("text"@, JsonV::Str(prompt))
        .with("images"@, JsonV::Arr(seq![]))
        .with("files"@, JsonV::Arr(seq![]))
}

/// A turn that was opened.
pub struct OpenTurn {
    /// What clients are told, and what the request is answered once the program has
    /// taken the message.
    pub answer: Answer,
    /// What the program is asked.
    pub method: String,
    pub params: Json,
    /// The directory of the thread.
    pub cwd: String,
}

/// Why a turn cannot be opened.
pub open spec fn turn_refusal(bridge: DroidBridge, thread_id: Seq<char>) -> Option<Seq<char>> {
    if !bridge.records().dom().contains(thread_id) {
        Some(no_thread(thread_id))
    } else if !bridge.running(thread_id) {
        Some("thread `"@ + thread_id + "` is not loaded"@)
    } else {
        None
    }
}

impl DroidBridge {
    /// Opens a turn on a thread that has a running program.
    pub fn handle_turn_start(
        &self,
        thread_id: &str,
        input: &Vec<UserInput>,
        turn_id: &str,
        started_at: i64,
    ) -> (r: Result<OpenTurn, Answer>)
        ensures
            match turn_refusal(*self, thread_id@) {
                Some(message) => r is Err && r->Err_0.view() == turned_down(
                    INVALID_PARAMS,
                    message,
                ),
                None => {
                    &&& r is Ok
                    &&& r->Ok_0.answer.view() == told(
                        "turn/started"@,
                        id_params(thread_id@).with(
                            "turn"@,
                            turn_value(
                                turn_id@,
                                seq![],
                                "inProgress"@,
                                Some(started_at as int),
                                None,
                                None,
                            ),
                        ),
                        JsonV::object().with(
                            "turn"@,
                            turn_value(turn_id@, seq![], "inProgress"@, None, None, None),
                        ),
                    )
                    &&& r->Ok_0.method@ == "droid.add_user_message"@
                    &&& r->Ok_0.params.view() == message_params(
                        joined(part_texts(inputs(input@)), "\n\n"@),
                    )
                    &&& r->Ok_0.cwd@ == self.records()[thread_id@].cwd
                },
            },
    {
        let record = match self.record(thread_id) {
            Some(record) => record,
            None => {
                return Err(not_found(thread_id));
            },
        };
        if !self.processes.contains_key(thread_id) {
            return Err(
                turn_down(
                    INVALID_PARAMS,
                    join3("thread `", thread_id, "` is not loaded").as_str(),
                ),
            );
        }
        let none: Vec<Json> = Vec::new();
        let none2: Vec<Json> = Vec::new();
        assert(jsons(none@) =~= seq![]);
        assert(jsons(none2@) =~= seq![]);
        let for_clients = turn_json(turn_id, none, "inProgress", Some(started_at), None, None);
        let for_reply = turn_json(turn_id, none2, "inProgress", None, None, None);
        let answer = tell(
            "turn/started",
            Json::object().with("threadId", Json::text(thread_id)).with("turn", for_clients),
            Json::object().with("turn", for_reply),
        );
        let params = Json::object()
            .with("text", Json::Str(input_to_text(input)))
            .with("images", Json::empty_array())
            .with("files", Json::empty_array());
        Ok(
            OpenTurn {
                answer,
                method: owned("droid.add_user_message"),
                params,
                cwd: record.cwd,
            },
        )
    }

    /// What the program of a thread is asked when a turn is interrupted, if one runs.
    pub fn interrupt_request(&self, thread_id: &str) -> (r: Option<(String, Json)>)
        ensures
            r is Some <==> self.running(thread_id@),
            r matches Some(q) ==> q.0@ == "droid.interrupt_session"@ && q.1.view()
                == JsonV::object(),
    {
        if self.processes.contains_key(thread_id) {
            Some((owned("droid.interrupt_session"), Json::object()))
        } else {
            None
        }
    }

    /// Writes a turn that is over into its thread, if the bridge keeps it. Gives back
    /// what the index is told: the preview, and when the thread changed.
    pub fn record_completed_turn(&mut self, thread_id: &str, done: CompletedTurn) -> (r: (
        String,
        i64,
    ))
        requires
            i64::MIN <= done.completed_at * 1000 <= i64::MAX,
        ensures
            r.0@ == first_chars(last_text(jsons(done.items@)), PREVIEW_CHARS as nat),
            r.1 == done.completed_at * 1000,
            final(self).records() == (if old(self).records().dom().contains(thread_id@) {
                old(self).records().insert(
                    thread_id@,
                    after_turn(
                        old(self).records()[thread_id@],
                        done.turn_id@,
                        jsons(done.items@),
                        done.completed_at as int,
                        done.duration_ms as int,
                    ),
                )
            } else {
                old(self).records()
            }),
            final(self).same_but_records(*old(self)),
    {
        let preview = last_text_preview(&done.items);
        let updated: i64 = done.completed_at * 1000;
        if let Some(record) = self.record(thread_id) {
            let q = record_turn(record, done);
            self.keep(thread_id, q);
        }
        (preview, updated)
    }
}

/// Ends the opening of a turn: the program may have refused the message.
pub fn finish_turn_start(answer: Answer, failure: Option<&str>) -> (r: Answer)
    ensures
        match failure {
            Some(e) => r.view() == turned_down(INTERNAL_ERROR, e@),
            None => r == answer,
        },
{
    match failure {
        Some(e) => turn_down(INTERNAL_ERROR, e),
        None => answer,
    }
}

/// Answers a steering message, which is a turn of its own, with the id of that turn.
pub fn handle_turn_steer(turn_id: &str) -> (r: Json)
    ensures
        r.view() == JsonV::object().with("turnId"@, JsonV::Str(turn_id@)),
{
    Json::object().with("turnId", Json::text(turn_id))
}

// ---------------------------------------------------------------------------
// Fixed answers
// ---------------------------------------------------------------------------
/// The name of a family of operating systems.
pub open spec fn family(windows: bool) -> Seq<char> {
    if windows {
        "windows"@
    } else {
        "unix"@
    }
}

/// The name of a family of operating systems.
pub fn platform_family(windows: bool) -> (r: &'static str)
    ensures
        r@ == family(windows),
{
    if windows {
        "windows"
    } else {
        "unix"
    }
}

/// What a method does with its parameters.
#[derive(Debug, Clone, Copy, PartialEq, Eq, Structural)]
pub enum ParamsRule {
    /// They do not matter.
    Ignored,
    /// They have to be of the right shape.
    Typed,
    /// They have to be of the right shape, or absent.
    TypedOrNull,
}

/// What a method does with its parameters.
pub open spec fn rule_of(m: Method) -> ParamsRule {
    match m {
        Method::AccountRateLimitsRead => ParamsRule::Ignored,
        Method::AccountLogout => ParamsRule::Ignored,
        Method::ConfigRequirementsRead => ParamsRule::Ignored,
        Method::ConfigMcpServerReload => ParamsRule::Ignored,
        Method::McpServerOauthLogin => ParamsRule::Ignored,
        Method::ExperimentalFeatureList => ParamsRule::Ignored,
        Method::CollaborationModeList => ParamsRule::Ignored,
        Method::SkillsRemoteList => ParamsRule::Ignored,
        Method::SkillsRemoteExport => ParamsRule::Ignored,
        Method::AccountRead => ParamsRule::TypedOrNull,
        Method::ConfigRead => ParamsRule::TypedOrNull,
        Method::McpServerStatusList => ParamsRule::TypedOrNull,
        Method::MockExperimentalMethod => ParamsRule::TypedOrNull,
        Method::ModelList => ParamsRule::TypedOrNull,
        Method::SkillsList => ParamsRule::TypedOrNull,
        Method::ThreadList => ParamsRule::TypedOrNull,
        Method::ThreadLoadedList => ParamsRule::TypedOrNull,
        _ => ParamsRule::Typed,
    }
}

/// Whether the shape of the parameters matters.
pub open spec fn shape_matters(m: Method, params: JsonV) -> bool {
    match rule_of(m) {
        ParamsRule::Ignored => false,
        ParamsRule::Typed => true,
        ParamsRule::TypedOrNull => params != JsonV::Null,
    }
}

/// Whether the shape of the parameters matters.
pub fn must_decode(m: Method, params: &Json) -> (r: bool)
    ensures
        r == shape_matters(m, params.view()),
{
    match m {
        Method::AccountRateLimitsRead => false,
        Method::AccountLogout => false,
        Method::ConfigRequirementsRead => false,
        Method::ConfigMcpServerReload => false,
        Method::McpServerOauthLogin => false,
        Method::ExperimentalFeatureList => false,
        Method::CollaborationModeList => false,
        Method::SkillsRemoteList => false,
        Method::SkillsRemoteExport => false,
        Method::AccountRead => !params.is_null(),
        Method::ConfigRead => !params.is_null(),
        Method::McpServerStatusList => !params.is_null(),
        Method::MockExperimentalMethod => !params.is_null(),
        Method::ModelList => !params.is_null(),
        Method::SkillsList => !params.is_null(),
        Method::ThreadList => !params.is_null(),
        Method::ThreadLoadedList => !params.is_null(),
        _ => true,
    }
}

/// The refusal of a method that the bridge does not offer.
pub open spec fn unsupported(method: Seq<char>) -> AnswerV {
    turned_down(METHOD_NOT_FOUND, "method `"@ + method + "` is not implemented"@)
}

fn not_offered(method: &str) -> (r: Answer)
    ensures
        r.view() == unsupported(method@),
{
    turn_down(METHOD_NOT_FOUND, join3("method `", method, "` is not implemented").as_str())
}

/// The configuration that clients read; `usual` is the model of threads that name none.
pub open spec fn config_shown(params: JsonV, usual: Seq<char>) -> JsonV {
    JsonV::object()
        .with(
            "config"@,
            JsonV::object()
                .with("model_provider"@, JsonV::Str(MODEL_PROVIDER@))
                .with("model"@, JsonV::Str(usual))
                .with("cwd"@, opt_str(params.str_at("cwd"@))),
        )
        .with("origins"@, JsonV::object())
        .with(
            "layers"@,
            if params.bool_at("includeLayers"@) == Some(true) {
                JsonV::Arr(seq![])
            } else {
                JsonV::Null
            },
        )
}

/// The skills of a directory: none.
pub open spec fn no_skills(cwd: Seq<char>) -> JsonV {
    JsonV::object()
        .with("cwd"@, JsonV::Str(cwd))
        .with("skills"@, JsonV::Arr(seq![]))
        .with("errors"@, JsonV::Arr(seq![]))
}

/// The skills of the directories that a client asks for.
pub open spec fn skills_shown(params: JsonV) -> JsonV {
    JsonV::object().with(
        "data"@,
        JsonV::Arr(
            match params.array_at("cwds"@) {
                Some(a) => strings_in(a).map_values(|c: Seq<char>| no_skills(c)),
                None => seq![],
            },
        ),
    )
}

/// A reply that holds nothing but an empty list.
pub open spec fn no_data() -> JsonV {
    JsonV::object().with("data"@, JsonV::Arr(seq![]))
}

/// What the bridge answers by itself, for methods that need no thread, turn or command.
pub open spec fn fixed_answer(
    m: Method,
    params: JsonV,
    home: Seq<char>,
    windows: bool,
    family: Seq<char>,
    title: Seq<char>,
) -> Option<AnswerV> {
    match m {
        Method::AccountRead => Some(replied(key_account())),
        Method::AccountRateLimitsRead => Some(replied(no_rate_limits())),
        Method::AccountLoginStart => Some(replied(key_login())),
        Method::AccountLoginCancel => Some(replied(no_login())),
        Method::AccountLogout => Some(replied(JsonV::object())),
        Method::FeedbackUpload => Some(replied(JsonV::object())),
        Method::ConfigRead => Some(replied(config_shown(params, default_model(family)))),
        Method::ConfigValueWrite => Some(
            replied(config_written("0"@, below(home, "config.toml"@, windows))),
        ),
        Method::ConfigBatchWrite => Some(
            replied(config_written("0"@, below(home, "config.toml"@, windows))),
        ),
        Method::ConfigRequirementsRead => Some(replied(JsonV::object())),
        Method::McpServerStatusList => Some(replied(empty_page())),
        Method::ConfigMcpServerReload => Some(replied(JsonV::object())),
        Method::McpServerOauthLogin => Some(unsupported("mcpServer/oauth/login"@)),
        Method::MockExperimentalMethod => Some(
            replied(JsonV::object().with("echoed"@, opt_str(params.str_at("value"@)))),
        ),
        Method::ExperimentalFeatureList => Some(replied(empty_page())),
        Method::CollaborationModeList => Some(replied(no_data())),
        Method::ModelList => Some(
            replied(
                JsonV::object()
                    .with("data"@, JsonV::Arr(offered_models(family, title)))
                    .with("nextCursor"@, JsonV::Null),
            ),
        ),
        Method::SkillsList => Some(replied(skills_shown(params))),
        Method::SkillsRemoteList => Some(replied(empty_page())),
        Method::SkillsRemoteExport => Some(replied(empty_page())),
        Method::SkillsConfigWrite => Some(
            replied(skill_enabled(params.bool_at("enabled"@) == Some(true))),
        ),
        Method::CommandExecTerminate => Some(replied(JsonV::object())),
        Method::CommandExecWrite => Some(unsupported("command/exec/write"@)),
        Method::CommandExecResize => Some(unsupported("command/exec/resize"@)),
        Method::ThreadFork => Some(unsupported("thread/fork"@)),
        Method::ThreadCompactStart => Some(replied(JsonV::object())),
        Method::ThreadRollback => Some(unsupported("thread/rollback"@)),
        Method::ThreadBackgroundTerminalsClean => Some(replied(JsonV::object())),
        Method::ReviewStart => Some(unsupported("review/start"@)),
        _ => None,
    }
}

fn config_read(params: &Json, usual: &str) -> (j: Json)
    ensures
        j.view() == config_shown(params.view(), usual@),
{
    let cwd = match params.str_at("cwd") {
        Some(c) => Json::text(c),
        None => Json::Null,
    };
    let layers = match params.bool_at("includeLayers") {
        Some(true) => Json::empty_array(),
        _ => Json::Null,
    };
    Json::object()
        .with(
            "config",
            Json::object()
                .with("model_provider", Json::text(MODEL_PROVIDER))
                .with("model", Json::text(usual))
                .with("cwd", cwd),
        )
        .with("origins", Json::object())
        .with("layers", layers)
}

fn skills_list(params: &Json) -> (j: Json)
    ensures
        j.view() == skills_shown(params.view()),
{
    broadcast use lemma_array_view;

    let mut data: Vec<Json> = Vec::new();
    if let Some(a) = params.array_at("cwds") {
        let cwds = strings_of(a);
        let ghost names = texts(cwds@);
        let mut i: usize = 0;
        while i < cwds.len()
            invariant
                i <= cwds@.len(),
                names == texts(cwds@),
                data@.len() == i,
                forall|k: int| 0 <= k < i ==> (#[trigger] data@[k]).view() == no_skills(names[k]),
            decreases cwds@.len() - i,
        {
            data.push(
                Json::object()
                    .with("cwd", Json::text(cwds[i].as_str()))
                    .with("skills", Json::empty_array())
                    .with("errors", Json::empty_array()),
            );
            i += 1;
        }
        assert(jsons(data@) =~= names.map_values(|c: Seq<char>| no_skills(c)));
    } else {
        assert(jsons(data@) =~= seq![]);
    }
    Json::object().with("data", Json::Array(data))
}

fn empty_data() -> (j: Json)
    ensures
        j.view() == no_data(),
{
    Json::object().with("data", Json::empty_array())
}

fn mock_echo(params: &Json) -> (j: Json)
    ensures
        j.view() == JsonV::object().with("echoed"@, opt_str(params.view().str_at("value"@))),
{
    let value = match params.str_at("value") {
        Some(v) => Json::text(v),
        None => Json::Null,
    };
    Json::object().with("echoed", value)
}

fn skill_switch(params: &Json) -> (j: Json)
    ensures
        j.view() == skill_enabled(params.view().bool_at("enabled"@) == Some(true)),
{
    let enabled = match params.bool_at("enabled") {
        Some(b) => b,
        None => false,
    };
    skill_enabled_json(enabled)
}

fn model_list(family: &ModelFamily) -> (j: Json)
    ensures
        j.view() == JsonV::object()
            .with("data"@, JsonV::Arr(offered_models(family.id@, family.title@)))
            .with("nextCursor"@, JsonV::Null),
{
    let models = droid_models(family);
    assert(models@.map_values(|x: Model| x.json()) =~= offered_models(family.id@, family.title@));
    Json::object().with("data", list_to_json(&models)).with("nextCursor", Json::Null)
}

fn config_write(home: &str, windows: bool) -> (r: Answer)
    ensures
        r.view() == replied(config_written("0"@, below(home@, "config.toml"@, windows))),
{
    reply_with(config_written_json("0", join_path(home, "config.toml", windows).as_str()))
}

/// Answers the methods that need no thread, turn or command.
pub fn answer_fixed(
    m: Method,
    params: &Json,
    home: &str,
    windows: bool,
    family: &ModelFamily,
) -> (r: Option<Answer>)
    ensures
        ({
            let owed = fixed_answer(m, params.view(), home@, windows, family.id@, family.title@);
            match r {
                Some(a) => owed == Some(a.view()),
                None => owed is None,
            }
        }),
{
    match m {
        Method::AccountRead => Some(reply_with(key_account_json())),
        Method::AccountRateLimitsRead => Some(reply_with(no_rate_limits_json())),
        Method::AccountLoginStart => Some(reply_with(key_login_json())),
        Method::AccountLoginCancel => Some(reply_with(no_login_json())),
        Method::AccountLogout => Some(reply_with(Json::object())),
        Method::FeedbackUpload => Some(reply_with(Json::object())),
        Method::ConfigRead => Some(
            reply_with(config_read(params, family.default_model().as_str())),
        ),
        Method::ConfigValueWrite => Some(config_write(home, windows)),
        Method::ConfigBatchWrite => Some(config_write(home, windows)),
        Method::ConfigRequirementsRead => Some(reply_with(Json::object())),
        Method::McpServerStatusList => Some(reply_with(empty_page_json())),
        Method::ConfigMcpServerReload => Some(reply_with(Json::object())),
        Method::McpServerOauthLogin => Some(not_offered("mcpServer/oauth/login")),
        Method::MockExperimentalMethod => Some(reply_with(mock_echo(params))),
        Method::ExperimentalFeatureList => Some(reply_with(empty_page_json())),
        Method::CollaborationModeList => Some(reply_with(empty_data())),
        Method::ModelList => Some(reply_with(model_list(family))),
        Method::SkillsList => Some(reply_with(skills_list(params))),
        Method::SkillsRemoteList => Some(reply_with(empty_page_json())),
        Method::SkillsRemoteExport => Some(reply_with(empty_page_json())),
        Method::SkillsConfigWrite => Some(reply_with(skill_switch(params))),
        Method::CommandExecTerminate => Some(reply_with(Json::object())),
        Method::CommandExecWrite => Some(not_offered("command/exec/write")),
        Method::CommandExecResize => Some(not_offered("command/exec/resize")),
        Method::ThreadFork => Some(not_offered("thread/fork")),
        Method::ThreadCompactStart => Some(reply_with(Json::object())),
        Method::ThreadRollback => Some(not_offered("thread/rollback")),
        Method::ThreadBackgroundTerminalsClean => Some(reply_with(Json::object())),
        Method::ReviewStart => Some(not_offered("review/start")),
        _ => None,
    }
}

/// Where a request goes.
pub enum Dispatch {
    /// It is answered.
    Done(Answer),
    /// It needs its thread, its turn or its command.
    Needs(Method),
}

/// What a request of a known method is answered at once, given why its parameters do
/// not have the right shape, if they do not.
pub open spec fn answered_at_once(
    m: Method,
    params: JsonV,
    misshapen: Option<Seq<char>>,
    home: Seq<char>,
    windows: bool,
    family: Seq<char>,
    title: Seq<char>,
) -> Option<AnswerV> {
    if shape_matters(m, params) && misshapen is Some {
        Some(turned_down(INVALID_PARAMS, "invalid params: "@ + misshapen->Some_0))
    } else {
        fixed_answer(m, params, home, windows, family, title)
    }
}

impl DroidBridge {
    /// Introduces the bridge to a client.
    pub fn initialize(&self, version: &str, windows: bool, os: &str) -> (r: Answer)
        ensures
            r.view() == replied(
                JsonV::object()
                    .with("userAgent"@, JsonV::Str("alleycat-droid-bridge/"@ + version@))
                    .with("codexHome"@, JsonV::Str(self.home()))
                    .with("platformFamily"@, JsonV::Str(family(windows)))
                    .with("platformOs"@, JsonV::Str(os@)),
            ),
    {
        reply_with(
            Json::object()
                .with("userAgent", Json::Str(join2("alleycat-droid-bridge/", version)))
                .with("codexHome", Json::text(self.codex_home.as_str()))
                .with("platformFamily", Json::text(platform_family(windows)))
                .with("platformOs", Json::text(os)),
        )
    }

    /// Finds out where a request goes. A method that nobody knows is refused, and so are
    /// parameters of the wrong shape where the shape matters.
    pub fn dispatch(
        &self,
        method: &str,
        params: &Json,
        misshapen: Option<&str>,
        windows: bool,
    ) -> (r: Dispatch)
        ensures
            ({
                let why = match misshapen {
                    Some(e) => Some(e@),
                    None => None,
                };
                match r {
                    Dispatch::Needs(m) => m.name() == method@ && answered_at_once(
                        m,
                        params.view(),
                        why,
                        self.home(),
                        windows,
                        self.family_id(),
                        self.family_title(),
                    ) is None,
                    Dispatch::Done(a) => {
                        ||| exists|m: Method| #[trigger]
                            m.name() == method@ && answered_at_once(
                                m,
                                params.view(),
                                why,
                                self.home(),
                                windows,
                                self.family_id(),
                                self.family_title(),
                            ) == Some(a.view())
                        ||| (forall|m: Method| #[trigger] m.name() != method@) && a.view()
                            == unsupported(method@)
                    },
                }
            }),
    {
        match Method::of(method) {
            Some(m) => {
                assert(m.name() == method@);
                if let Some(e) = misshapen {
                    if must_decode(m, params) {
                        return Dispatch::Done(
                            turn_down(INVALID_PARAMS, join2("invalid params: ", e).as_str()),
                        );
                    }
                }
                match answer_fixed(m, params, self.codex_home.as_str(), windows, &self.family) {
                    Some(a) => Dispatch::Done(a),
                    None => Dispatch::Needs(m),
                }
            },
            None => Dispatch::Done(not_offered(method)),
        }
    }
}

// ---------------------------------------------------------------------------
// Laws
// ---------------------------------------------------------------------------
/// The methods that need more than a fixed answer.
pub proof fn law_needs(
    m: Method,
    params: JsonV,
    home: Seq<char>,
    windows: bool,
    family: Seq<char>,
    title: Seq<char>,
)
    ensures
        fixed_answer(m, params, home, windows, family, title) is None <==> (m == Method::CommandExec || m
            == Method::ThreadStart || m == Method::ThreadResume || m == Method::ThreadArchive || m
            == Method::ThreadUnarchive || m == Method::ThreadNameSet || m == Method::ThreadList || m
            == Method::ThreadLoadedList || m == Method::ThreadRead || m == Method::ThreadTurnsList
            || m == Method::TurnStart || m == Method::TurnSteer || m == Method::TurnInterrupt),
{
}

/// A limited page of turns is the beginning of the whole page, and without a limit the
/// two directions show the same turns in opposite order.
pub proof fn law_turn_pages(all: Seq<JsonV>, direction: Option<SortDirection>, limit: u32)
    ensures
        turns_page(all, direction, Some(limit)).len() <= limit,
        turns_page(all, direction, Some(limit)).is_prefix_of(turns_page(all, direction, None)),
        turns_page(all, Some(SortDirection::Asc), None).reverse() == turns_page(
            all,
            Some(SortDirection::Desc),
            None,
        ),
{
}

} // verus!
