//! Threads of the Droid bridge, and what the index knows of them.

use vstd::prelude::*;

use super::models::{normalize_model, plain_model};
use crate::codex::policy::{
    ApprovalV, AskForApproval, Attachment, SandboxMode, attachment_json, opt_approval,
};
use crate::codex::thread::{Thread, ThreadV, UserInput, UserInputV, inputs, thread_model, widened};
use crate::json::{Json, JsonV, ToJson, copy_all, jsons, lemma_array_view, opt_int};
use crate::text::{
    first_chars, join, join3, joined, opt_copy, opt_text, owned, same, take_chars, texts,
};

verus! {

/// The provider that the bridge reports.
pub const MODEL_PROVIDER: &'static str = "droid";

// ---------------------------------------------------------------------------
// Records
// ---------------------------------------------------------------------------
/// A thread that the bridge has started or resumed. Times are in milliseconds.
pub struct ThreadRecord {
    pub id: String,
    pub cwd: String,
    pub name: Option<String>,
    pub preview: String,
    pub created_at: i64,
    pub updated_at: i64,
    /// Where Droid keeps the session.
    pub path: Option<String>,
    pub model: String,
    pub approval_policy: AskForApproval,
    pub sandbox: SandboxMode,
    pub turns: Vec<Json>,
}

/// The model of a record.
#[verifier::ext_equal]
pub struct RecordV {
    pub id: Seq<char>,
    pub cwd: Seq<char>,
    pub name: Option<Seq<char>>,
    pub preview: Seq<char>,
    pub created_at: i64,
    pub updated_at: i64,
    pub path: Option<Seq<char>>,
    pub model: Seq<char>,
    pub approval_policy: ApprovalV,
    pub sandbox: SandboxMode,
    pub turns: Seq<JsonV>,
}

impl ThreadRecord {
    /// The model of this record.
    pub open spec fn view(&self) -> RecordV {
        RecordV {
            id: self.id@,
            cwd: self.cwd@,
            name: opt_text(self.name),
            preview: self.preview@,
            created_at: self.created_at,
            updated_at: self.updated_at,
            path: opt_text(self.path),
            model: self.model@,
            approval_policy: self.approval_policy.view(),
            sandbox: self.sandbox,
            turns: jsons(self.turns@),
        }
    }

    /// A copy of this record.
    pub fn copy(&self) -> (r: ThreadRecord)
        ensures
            r.view() == self.view(),
    {
        ThreadRecord {
            id: self.id.clone(),
            cwd: self.cwd.clone(),
            name: opt_copy(&self.name),
            preview: self.preview.clone(),
            created_at: self.created_at,
            updated_at: self.updated_at,
            path: opt_copy(&self.path),
            model: self.model.clone(),
            approval_policy: self.approval_policy.copy(),
            sandbox: self.sandbox,
            turns: copy_all(&self.turns),
        }
    }
}

// ---------------------------------------------------------------------------
// Threads and turns on the wire
// ---------------------------------------------------------------------------
/// The thread of a record.
pub open spec fn thread_of(r: RecordV, include_turns: bool) -> ThreadV {
    ThreadV {
        id: r.id,
        session_id: r.id,
        forked_from_id: None,
        preview: r.preview,
        model_provider: MODEL_PROVIDER@,
        created_at: r.created_at,
        updated_at: r.updated_at,
        path: r.path,
        cwd: r.cwd,
        cli_version: ""@,
        agent_nickname: None,
        agent_role: None,
        name: r.name,
        turns: if include_turns {
            r.turns
        } else {
            seq![]
        },
    }
}

/// Writes the thread of a record, with its turns or without.
pub fn thread_json(record: &ThreadRecord, include_turns: bool) -> (j: Json)
    ensures
        j.view() == thread_model(thread_of(record.view(), include_turns)),
{
    let turns = if include_turns {
        copy_all(&record.turns)
    } else {
        let none: Vec<Json> = Vec::new();
        assert(jsons(none@) =~= seq![]);
        none
    };
    let thread = Thread {
        id: record.id.clone(),
        session_id: record.id.clone(),
        forked_from_id: None,
        preview: record.preview.clone(),
        model_provider: owned(MODEL_PROVIDER),
        created_at: record.created_at,
        updated_at: record.updated_at,
        path: opt_copy(&record.path),
        cwd: record.cwd.clone(),
        cli_version: owned(""),
        agent_nickname: None,
        agent_role: None,
        name: opt_copy(&record.name),
        turns,
    };
    assert(thread.view() =~= thread_of(record.view(), include_turns));
    thread.to_json()
}

/// What a client gets when it attaches to a thread.
pub open spec fn attached(r: RecordV) -> JsonV {
    attachment_json(
        thread_model(thread_of(r, true)),
        r.model,
        MODEL_PROVIDER@,
        r.cwd,
        r.approval_policy,
        JsonV::Str("user"@),
        r.sandbox,
        JsonV::object().with("type"@, JsonV::Str("disabled"@)),
        "high"@,
    )
}

/// Writes what a client gets when it attaches to a thread.
pub fn thread_attach_response(record: &ThreadRecord) -> (j: Json)
    ensures
        j.view() == attached(record.view()),
{
    let a = Attachment {
        thread: thread_json(record, true),
        model: record.model.clone(),
        model_provider: owned(MODEL_PROVIDER),
        cwd: record.cwd.clone(),
        approval_policy: record.approval_policy.copy(),
        approvals_reviewer: Json::text("user"),
        sandbox: record.sandbox,
        permission_profile: Json::object().with("type", Json::text("disabled")),
        reasoning_effort: owned("high"),
    };
    a.to_json()
}

/// A turn on the wire.
pub open spec fn turn_value(
    id: Seq<char>,
    items: Seq<JsonV>,
    status: Seq<char>,
    started_at: Option<int>,
    completed_at: Option<int>,
    duration_ms: Option<int>,
) -> JsonV {
    JsonV::object()
        .with("id"@, JsonV::Str(id))
        .with("items"@, JsonV::Arr(items))
        .with("itemsView"@, JsonV::Str("full"@))
        .with("status"@, JsonV::Str(status))
        .with("error"@, JsonV::Null)
        .with("startedAt"@, opt_int(started_at))
        .with("completedAt"@, opt_int(completed_at))
        .with("durationMs"@, opt_int(duration_ms))
}

/// Writes a turn.
pub fn turn_json(
    id: &str,
    items: Vec<Json>,
    status: &str,
    started_at: Option<i64>,
    completed_at: Option<i64>,
    duration_ms: Option<i64>,
) -> (j: Json)
    ensures
        j.view() == turn_value(
            id@,
            jsons(items@),
            status@,
            widened(started_at),
            widened(completed_at),
            widened(duration_ms),
        ),
{
    broadcast use lemma_array_view;

    Json::object()
        .with("id", Json::text(id))
        .with("items", Json::Array(items))
        .with("itemsView", Json::text("full"))
        .with("status", Json::text(status))
        .with("error", Json::Null)
        .with("startedAt", Json::opt_int(started_at))
        .with("completedAt", Json::opt_int(completed_at))
        .with("durationMs", Json::opt_int(duration_ms))
}

/// Writes a turn that is over.
pub fn completed_turn_json(
    id: &str,
    items: Vec<Json>,
    started_at: i64,
    completed_at: i64,
    duration_ms: i64,
) -> (j: Json)
    ensures
        j.view() == turn_value(
            id@,
            jsons(items@),
            "completed"@,
            Some(started_at as int),
            Some(completed_at as int),
            Some(duration_ms as int),
        ),
{
    turn_json(id, items, "completed", Some(started_at), Some(completed_at), Some(duration_ms))
}

// ---------------------------------------------------------------------------
// Input and preview
// ---------------------------------------------------------------------------
/// A piece of input as text.
pub open spec fn part_text(u: UserInputV) -> Seq<char> {
    match u {
        UserInputV::Text { text, .. } => text,
        UserInputV::Image { url } => "[image: "@ + url + "]"@,
        UserInputV::LocalImage { path } => "[local image: "@ + path + "]"@,
        UserInputV::Skill { name, path } => "[skill: "@ + name + (" at "@ + path + "]"@),
        UserInputV::Mention { name, path } => "[mention: "@ + name + (" at "@ + path + "]"@),
    }
}

/// A piece of input as text.
pub fn input_part(u: &UserInput) -> (r: String)
    ensures
        r@ == part_text(u.view()),
{
    match u {
        UserInput::Text { text, .. } => text.clone(),
        UserInput::Image { url } => join3("[image: ", url.as_str(), "]"),
        UserInput::LocalImage { path } => join3("[local image: ", path.as_str(), "]"),
        UserInput::Skill { name, path } => join3(
            "[skill: ",
            name.as_str(),
            join3(" at ", path.as_str(), "]").as_str(),
        ),
        UserInput::Mention { name, path } => join3(
            "[mention: ",
            name.as_str(),
            join3(" at ", path.as_str(), "]").as_str(),
        ),
    }
}

/// The pieces of input as texts.
pub open spec fn part_texts(s: Seq<UserInputV>) -> Seq<Seq<char>> {
    s.map_values(|u: UserInputV| part_text(u))
}

/// The prompt for some input: its pieces, with a blank line between them.
pub fn input_to_text(input: &Vec<UserInput>) -> (r: String)
    ensures
        r@ == joined(part_texts(inputs(input@)), "\n\n"@),
{
    let mut parts: Vec<String> = Vec::new();
    let mut i: usize = 0;
    while i < input.len()
        invariant
            i <= input@.len(),
            parts@.len() == i,
            forall|k: int| 0 <= k < i ==> (#[trigger] parts@[k])@ == part_text(input@[k].view()),
        decreases input@.len() - i,
    {
        parts.push(input_part(&input[i]));
        i += 1;
    }
    assert(texts(parts@) =~= part_texts(inputs(input@)));
    join(&parts, "\n\n")
}

/// How many characters of a preview are kept.
pub const PREVIEW_CHARS: usize = 240;

/// The text of the last item that has one.
pub open spec fn last_text(items: Seq<JsonV>) -> Seq<char>
    decreases items.len(),
{
    if items.len() == 0 {
        ""@
    } else {
        match items.last().str_at("text"@) {
            Some(t) => t,
            None => last_text(items.drop_last()),
        }
    }
}

/// The beginning of the text of the last item that has one.
pub fn last_text_preview(items: &Vec<Json>) -> (r: String)
    ensures
        r@ == first_chars(last_text(jsons(items@)), PREVIEW_CHARS as nat),
{
    let ghost all = jsons(items@);
    let mut i: usize = items.len();
    assert(all.take(i as int) =~= all);
    while i > 0
        invariant
            i <= items@.len(),
            all == jsons(items@),
            last_text(all) == last_text(all.take(i as int)),
        decreases i,
    {
        let ghost head = all.take(i as int);
        assert(head.last() == items@[i - 1].view());
        assert(head.drop_last() =~= all.take(i - 1));
        if let Some(t) = items[i - 1].str_at("text") {
            return take_chars(t, PREVIEW_CHARS);
        }
        i -= 1;
    }
    take_chars("", PREVIEW_CHARS)
}

// ---------------------------------------------------------------------------
// The index
// ---------------------------------------------------------------------------
/// Where Droid keeps a session.
#[derive(Debug)]
pub struct DroidSessionRef {
    pub droid_session_path: String,
    pub droid_session_id: String,
}

/// What the index knows of a thread. Times are in milliseconds.
#[derive(Debug)]
pub struct IndexEntry {
    pub thread_id: String,
    pub cwd: String,
    pub created_at: i64,
    pub updated_at: i64,
    pub archived: bool,
    pub name: Option<String>,
    pub preview: String,
    pub forked_from_id: Option<String>,
    pub model_provider: String,
    pub source: String,
    pub metadata: DroidSessionRef,
}

/// The model of an entry.
#[verifier::ext_equal]
pub struct EntryV {
    pub thread_id: Seq<char>,
    pub cwd: Seq<char>,
    pub created_at: i64,
    pub updated_at: i64,
    pub archived: bool,
    pub name: Option<Seq<char>>,
    pub preview: Seq<char>,
    pub forked_from_id: Option<Seq<char>>,
    pub model_provider: Seq<char>,
    pub source: Seq<char>,
    pub session_path: Seq<char>,
    pub session_id: Seq<char>,
}

fn same_opt(a: &Option<String>, b: &Option<String>) -> (r: bool)
    ensures
        r == (opt_text(*a) == opt_text(*b)),
{
    match (a, b) {
        (Some(x), Some(y)) => same(x.as_str(), y.as_str()),
        (None, None) => true,
        _ => false,
    }
}

impl IndexEntry {
    /// The model of this entry.
    pub open spec fn view(&self) -> EntryV {
        EntryV {
            thread_id: self.thread_id@,
            cwd: self.cwd@,
            created_at: self.created_at,
            updated_at: self.updated_at,
            archived: self.archived,
            name: opt_text(self.name),
            preview: self.preview@,
            forked_from_id: opt_text(self.forked_from_id),
            model_provider: self.model_provider@,
            source: self.source@,
            session_path: self.metadata.droid_session_path@,
            session_id: self.metadata.droid_session_id@,
        }
    }

    /// Whether two entries say the same.
    pub fn equals(&self, other: &IndexEntry) -> (r: bool)
        ensures
            r == (self.view() == other.view()),
    {
        same(self.thread_id.as_str(), other.thread_id.as_str())
            && same(self.cwd.as_str(), other.cwd.as_str())
            && self.created_at == other.created_at
            && self.updated_at == other.updated_at
            && self.archived == other.archived
            && same_opt(&self.name, &other.name)
            && same(self.preview.as_str(), other.preview.as_str())
            && same_opt(&self.forked_from_id, &other.forked_from_id)
            && same(self.model_provider.as_str(), other.model_provider.as_str())
            && same(self.source.as_str(), other.source.as_str())
            && same(
                self.metadata.droid_session_path.as_str(),
                other.metadata.droid_session_path.as_str(),
            )
            && same(
                self.metadata.droid_session_id.as_str(),
                other.metadata.droid_session_id.as_str(),
            )
    }
}

/// The entry of a thread that was just started.
pub open spec fn entry_of(r: RecordV, path: Seq<char>) -> EntryV {
    EntryV {
        thread_id: r.id,
        cwd: r.cwd,
        created_at: r.created_at,
        updated_at: r.updated_at,
        archived: false,
        name: r.name,
        preview: r.preview,
        forked_from_id: None,
        model_provider: MODEL_PROVIDER@,
        source: "appServer"@,
        session_path: path,
        session_id: r.id,
    }
}

/// The entry of a thread that was just started.
pub fn index_entry_from_record(record: &ThreadRecord, path: &str) -> (r: IndexEntry)
    ensures
        r.view() == entry_of(record.view(), path@),
{
    IndexEntry {
        thread_id: record.id.clone(),
        cwd: record.cwd.clone(),
        created_at: record.created_at,
        updated_at: record.updated_at,
        archived: false,
        name: opt_copy(&record.name),
        preview: record.preview.clone(),
        forked_from_id: None,
        model_provider: owned(MODEL_PROVIDER),
        source: owned("appServer"),
        metadata: DroidSessionRef {
            droid_session_path: owned(path),
            droid_session_id: record.id.clone(),
        },
    }
}

/// What a session on disk makes of the entry that is there: what clients decided stays,
/// and the rest is what the disk says.
pub open spec fn merged(existing: EntryV, scanned: EntryV) -> EntryV {
    EntryV {
        archived: existing.archived,
        name: match existing.name {
            Some(n) => Some(n),
            None => scanned.name,
        },
        forked_from_id: existing.forked_from_id,
        ..scanned
    }
}

/// The entry that is to be stored for a session on disk, unless it is there already.
pub fn refreshed_entry(existing: Option<&IndexEntry>, scanned: IndexEntry) -> (r: Option<IndexEntry>)
    ensures
        match existing {
            None => r is Some && r->Some_0.view() == scanned.view(),
            Some(e) => if merged(e.view(), scanned.view()) == e.view() {
                r is None
            } else {
                r is Some && r->Some_0.view() == merged(e.view(), scanned.view())
            },
        },
{
    match existing {
        None => Some(scanned),
        Some(e) => {
            let entry = IndexEntry {
                thread_id: scanned.thread_id,
                cwd: scanned.cwd,
                created_at: scanned.created_at,
                updated_at: scanned.updated_at,
                archived: e.archived,
                name: match &e.name {
                    Some(n) => Some(n.clone()),
                    None => scanned.name,
                },
                preview: scanned.preview,
                forked_from_id: opt_copy(&e.forked_from_id),
                model_provider: scanned.model_provider,
                source: scanned.source,
                metadata: scanned.metadata,
            };
            assert(entry.view() == merged(e.view(), scanned.view()));
            if e.equals(&entry) {
                None
            } else {
                Some(entry)
            }
        },
    }
}

// ---------------------------------------------------------------------------
// Making records
// ---------------------------------------------------------------------------
/// What a client says of a new thread.
pub struct ThreadStartParams {
    pub cwd: Option<String>,
    pub model: Option<String>,
    pub approval_policy: Option<AskForApproval>,
    pub sandbox: Option<SandboxMode>,
    pub service_name: Option<String>,
}

/// What a client says of a thread that it resumes.
pub struct ThreadResumeParams {
    pub thread_id: String,
    pub model: Option<String>,
    pub approval_policy: Option<AskForApproval>,
    pub sandbox: Option<SandboxMode>,
    pub exclude_turns: bool,
}

/// The sandbox that a client asks for, or the usual one.
pub open spec fn chosen_sandbox(mode: Option<SandboxMode>) -> SandboxMode {
    match mode {
        Some(m) => m,
        None => SandboxMode::WorkspaceWrite,
    }
}

/// The sandbox that a client asks for, or the usual one.
pub fn sandbox_value(mode: Option<SandboxMode>) -> (r: SandboxMode)
    ensures
        r == chosen_sandbox(mode),
{
    match mode {
        Some(m) => m,
        None => SandboxMode::WorkspaceWrite,
    }
}

/// The approval setting that a client asks for, or the usual one.
pub open spec fn chosen_approval(a: Option<ApprovalV>) -> ApprovalV {
    match a {
        Some(x) => x,
        None => ApprovalV::OnRequest,
    }
}

fn approval_value(a: &Option<AskForApproval>) -> (r: AskForApproval)
    ensures
        r.view() == chosen_approval(opt_approval(*a)),
{
    match a {
        Some(x) => x.copy(),
        None => AskForApproval::OnRequest,
    }
}

/// The directory that a client asks for, or the one that the bridge works in.
pub open spec fn chosen_cwd(value: Option<Seq<char>>, current: Seq<char>) -> Seq<char> {
    match value {
        Some(c) => if c.len() > 0 {
            c
        } else {
            current
        },
        None => current,
    }
}

/// The directory that a client asks for, or the one that the bridge works in.
pub fn resolve_cwd(value: Option<&str>, current: &str) -> (r: String)
    ensures
        r@ == chosen_cwd(
            match value {
                Some(c) => Some(c@),
                None => None,
            },
            current@,
        ),
{
    match value {
        Some(c) => if c.is_empty() {
            owned(current)
        } else {
            owned(c)
        },
        None => owned(current),
    }
}

/// The model that a client names, or another.
pub open spec fn chosen_model(model: Option<Seq<char>>, otherwise: Seq<char>) -> Seq<char> {
    match model {
        Some(m) => plain_model(m),
        None => otherwise,
    }
}

fn model_value(model: &Option<String>, otherwise: &str) -> (r: String)
    ensures
        r@ == chosen_model(opt_text(*model), otherwise@),
{
    let named = match model {
        Some(m) => normalize_model(Some(m.as_str())),
        None => normalize_model(None),
    };
    match named {
        Some(m) => m,
        None => owned(otherwise),
    }
}

/// The record of a new thread; `usual` is the model of threads that name none.
pub open spec fn new_record(
    p: ThreadStartParams,
    usual: Seq<char>,
    id: Seq<char>,
    cwd: Seq<char>,
    now: i64,
    path: Option<Seq<char>>,
) -> RecordV {
    RecordV {
        id,
        cwd,
        name: opt_text(p.service_name),
        preview: ""@,
        created_at: now,
        updated_at: now,
        path,
        model: chosen_model(opt_text(p.model), usual),
        approval_policy: chosen_approval(opt_approval(p.approval_policy)),
        sandbox: chosen_sandbox(p.sandbox),
        turns: seq![],
    }
}

/// The record of a new thread; `usual` is the model of threads that name none.
pub fn start_record(
    p: &ThreadStartParams,
    usual: &str,
    id: &str,
    current_dir: &str,
    now: i64,
    path: Option<String>,
) -> (r: ThreadRecord)
    ensures
        r.view() == new_record(
            *p,
            usual@,
            id@,
            chosen_cwd(opt_text(p.cwd), current_dir@),
            now,
            opt_text(path),
        ),
{
    let cwd = match &p.cwd {
        Some(c) => resolve_cwd(Some(c.as_str()), current_dir),
        None => resolve_cwd(None, current_dir),
    };
    let turns: Vec<Json> = Vec::new();
    assert(jsons(turns@) =~= seq![]);
    ThreadRecord {
        id: owned(id),
        cwd,
        name: opt_copy(&p.service_name),
        preview: owned(""),
        created_at: now,
        updated_at: now,
        path,
        model: model_value(&p.model, usual),
        approval_policy: approval_value(&p.approval_policy),
        sandbox: sandbox_value(p.sandbox),
        turns,
    }
}

/// The record of a thread that only the index knows.
pub open spec fn record_of(
    e: EntryV,
    p: ThreadResumeParams,
    session_model: Option<Seq<char>>,
    usual: Seq<char>,
) -> RecordV {
    RecordV {
        id: e.thread_id,
        cwd: e.cwd,
        name: e.name,
        preview: e.preview,
        created_at: e.created_at,
        updated_at: e.updated_at,
        path: Some(e.session_path),
        model: chosen_model(
            opt_text(p.model),
            match session_model {
                Some(m) => m,
                None => usual,
            },
        ),
        approval_policy: chosen_approval(opt_approval(p.approval_policy)),
        sandbox: chosen_sandbox(p.sandbox),
        turns: seq![],
    }
}

/// The record of a thread that only the index knows. The model is the one that the
/// client names, else the one of the session, else the usual one.
pub fn record_from_entry(
    e: &IndexEntry,
    p: &ThreadResumeParams,
    session_model: Option<String>,
    usual: &str,
) -> (r: ThreadRecord)
    ensures
        r.view() == record_of(e.view(), *p, opt_text(session_model), usual@),
{
    let otherwise = match session_model {
        Some(m) => m,
        None => owned(usual),
    };
    let turns: Vec<Json> = Vec::new();
    assert(jsons(turns@) =~= seq![]);
    ThreadRecord {
        id: e.thread_id.clone(),
        cwd: e.cwd.clone(),
        name: opt_copy(&e.name),
        preview: e.preview.clone(),
        created_at: e.created_at,
        updated_at: e.updated_at,
        path: Some(e.metadata.droid_session_path.clone()),
        model: model_value(&p.model, otherwise.as_str()),
        approval_policy: approval_value(&p.approval_policy),
        sandbox: sandbox_value(p.sandbox),
        turns,
    }
}

/// A record as a client resumes it.
pub open spec fn resumed(
    r: RecordV,
    p: ThreadResumeParams,
    transcript: Seq<JsonV>,
) -> RecordV {
    RecordV {
        model: chosen_model(opt_text(p.model), r.model),
        turns: if p.exclude_turns {
            seq![]
        } else if r.turns.len() == 0 && r.path is Some {
            transcript
        } else {
            r.turns
        },
        ..r
    }
}

/// Whether the turns of a record have to be read from its session.
pub fn needs_transcript(r: &ThreadRecord, exclude_turns: bool) -> (b: bool)
    ensures
        b == (!exclude_turns && r.view().turns.len() == 0 && r.view().path is Some),
{
    !exclude_turns && r.turns.len() == 0 && r.path.is_some()
}

/// A record as a client resumes it: with the model that the client names, and with its
/// turns, which are read from the session where the record has none, unless the client
/// does not want them.
pub fn resume_record(r: ThreadRecord, p: &ThreadResumeParams, transcript: Vec<Json>) -> (q:
    ThreadRecord)
    ensures
        q.view() == resumed(r.view(), *p, jsons(transcript@)),
{
    let mut q = r;
    q.model = model_value(&p.model, q.model.as_str());
    if p.exclude_turns {
        let none: Vec<Json> = Vec::new();
        assert(jsons(none@) =~= seq![]);
        q.turns = none;
    } else if q.turns.len() == 0 && q.path.is_some() {
        q.turns = transcript;
    }
    q
}

// ---------------------------------------------------------------------------
// Turns that end
// ---------------------------------------------------------------------------
/// A turn that is over. Times are in seconds, the duration in milliseconds.
pub struct CompletedTurn {
    pub turn_id: String,
    pub items: Vec<Json>,
    pub completed_at: i64,
    pub duration_ms: i64,
}

/// A duration in whole seconds, rounded towards zero.
pub open spec fn whole_seconds(ms: int) -> int {
    if ms >= 0 {
        ms / 1000
    } else {
        -((-ms) / 1000)
    }
}

fn seconds(ms: i64) -> (r: i64)
    ensures
        r == whole_seconds(ms as int),
{
    if ms >= 0 {
        ms / 1000
    } else {
        let m: i128 = -(ms as i128);
        -((m / 1000) as i64)
    }
}

/// The record of a thread after one of its turns.
pub open spec fn after_turn(
    r: RecordV,
    turn_id: Seq<char>,
    items: Seq<JsonV>,
    completed_at: int,
    duration_ms: int,
) -> RecordV {
    RecordV {
        preview: first_chars(last_text(items), PREVIEW_CHARS as nat),
        updated_at: (completed_at * 1000) as i64,
        turns: r.turns.push(
            turn_value(
                turn_id,
                items,
                "completed"@,
                Some(completed_at - whole_seconds(duration_ms)),
                Some(completed_at),
                Some(duration_ms),
            ),
        ),
        ..r
    }
}

/// Writes a turn that is over into the record of its thread.
pub fn record_turn(r: ThreadRecord, done: CompletedTurn) -> (q: ThreadRecord)
    requires
        i64::MIN <= done.completed_at * 1000 <= i64::MAX,
    ensures
        q.view() == after_turn(
            r.view(),
            done.turn_id@,
            jsons(done.items@),
            done.completed_at as int,
            done.duration_ms as int,
        ),
{
    let mut q = r;
    q.preview = last_text_preview(&done.items);
    q.updated_at = done.completed_at * 1000;
    let ghost was = q.turns@;
    let t = completed_turn_json(
        done.turn_id.as_str(),
        done.items,
        done.completed_at - seconds(done.duration_ms),
        done.completed_at,
        done.duration_ms,
    );
    let ghost gt = t;
    q.turns.push(t);
    assert(jsons(q.turns@) =~= jsons(was).push(gt.view()));
    q
}

// ---------------------------------------------------------------------------
// Laws
// ---------------------------------------------------------------------------
/// A session that was just taken into the index is not taken in again.
pub proof fn law_refresh_settles(existing: EntryV, scanned: EntryV)
    ensures
        merged(merged(existing, scanned), scanned) == merged(existing, scanned),
        merged(scanned, scanned) == scanned,
{
}

/// What clients decided of a thread survives what the disk says.
pub proof fn law_refresh_keeps_what_clients_decided(existing: EntryV, scanned: EntryV)
    ensures
        merged(existing, scanned).archived == existing.archived,
        existing.name is Some ==> merged(existing, scanned).name == existing.name,
        merged(existing, scanned).forked_from_id == existing.forked_from_id,
        merged(existing, scanned).preview == scanned.preview,
        merged(existing, scanned).updated_at == scanned.updated_at,
{
}

/// A turn that ended is the last one that clients see of its thread, and those before
/// it stay.
pub proof fn law_completed_turn_is_shown(
    r: RecordV,
    turn_id: Seq<char>,
    items: Seq<JsonV>,
    completed_at: int,
    duration_ms: int,
)
    ensures
        ({
            let q = after_turn(r, turn_id, items, completed_at, duration_ms);
            &&& thread_of(q, true).turns.len() == r.turns.len() + 1
            &&& thread_of(q, true).turns.drop_last() == r.turns
            &&& thread_of(q, true).turns.last() == turn_value(
                turn_id,
                items,
                "completed"@,
                Some(completed_at - whole_seconds(duration_ms)),
                Some(completed_at),
                Some(duration_ms),
            )
        }),
{
    let q = after_turn(r, turn_id, items, completed_at, duration_ms);
    assert(thread_of(q, true).turns.drop_last() =~= r.turns);
}

} // verus!
