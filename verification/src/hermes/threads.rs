//! Thread requests of the Hermes bridge.

use vstd::prelude::*;

use super::index::{BindingV, HermesBinding, ThreadIndex, or_else};
use crate::codex::policy::{ApprovalV, AskForApproval, Attachment, SandboxMode, attachment_json};
use crate::codex::thread::{Thread, ThreadV, thread_model};
use crate::json::{Json, JsonV, ToJson, jsons};
use crate::rpc::{
    INTERNAL_ERROR, INVALID_PARAMS, JsonRpcError, Publication, PublicationV, ReplyV, error_response,
    publications, reply,
};
use crate::text::{
    contains, has_text, join2, lowered, opt_copy, opt_text, owned, texts, to_lowercase,
};

verus! {

/// The provider and model name that the bridge reports.
pub const MODEL_PROVIDER: &'static str = "hermes-agent";

/// What the bridge knows of its surroundings.
pub struct Surroundings {
    /// Version of the bridge.
    pub version: String,
    /// Working directory where a thread has none.
    pub default_cwd: String,
}

/// What a request leads to: the index may have to be stored, then clients are
/// told, then the request is answered.
pub struct Handled {
    pub persist: bool,
    pub notify: Vec<Publication>,
    pub reply: Result<Json, JsonRpcError>,
}

/// The model of what a request leads to.
#[verifier::ext_equal]
pub struct HandledV {
    pub persist: bool,
    pub notify: Seq<PublicationV>,
    pub reply: ReplyV,
}

impl Handled {
    /// The model of what the request leads to.
    pub open spec fn view(&self) -> HandledV {
        HandledV {
            persist: self.persist,
            notify: publications(self.notify@),
            reply: reply(self.reply),
        }
    }
}

/// A request that is refused.
pub open spec fn refused(code: i64, message: Seq<char>) -> HandledV {
    HandledV { persist: false, notify: seq![], reply: ReplyV::Refused(code, message) }
}

/// A request that is answered without telling anyone.
pub open spec fn answered(v: JsonV) -> HandledV {
    HandledV { persist: false, notify: seq![], reply: ReplyV::Done(v) }
}

/// Refuses a request.
pub fn refuse(code: i64, message: &str) -> (r: Handled)
    ensures
        r.view() == refused(code, message@),
{
    let notify: Vec<Publication> = Vec::new();
    assert(publications(notify@) =~= seq![]);
    Handled { persist: false, notify, reply: error_response(code, message) }
}

/// Answers a request without telling anyone.
pub fn answer(j: Json) -> (r: Handled)
    ensures
        r.view() == answered(j.view()),
{
    let notify: Vec<Publication> = Vec::new();
    assert(publications(notify@) =~= seq![]);
    Handled { persist: false, notify, reply: Ok(j) }
}

fn announce(method: &str, params: Json, j: Json, persist: bool) -> (r: Handled)
    ensures
        r.view() == (HandledV {
            persist,
            notify: seq![PublicationV { method: method@, params: params.view() }],
            reply: ReplyV::Done(j.view()),
        }),
{
    let mut notify: Vec<Publication> = Vec::new();
    let p = Publication { method: owned(method), params };
    let ghost gp = p;
    notify.push(p);
    assert(publications(notify@) =~= seq![gp.view()]);
    Handled { persist, notify, reply: Ok(j) }
}

/// What is left of a request whose index could not be stored: nobody is told,
/// and the failure is the answer.
pub open spec fn settled(h: HandledV, failure: Option<Seq<char>>) -> HandledV {
    match failure {
        Some(e) => if h.persist {
            refused(INTERNAL_ERROR, "persist thread index: "@ + e)
        } else {
            h
        },
        None => h,
    }
}

/// Takes a failure to store the index into account.
pub fn settle(h: Handled, failure: Option<&str>) -> (r: Handled)
    ensures
        r.view() == settled(
            h.view(),
            match failure {
                Some(e) => Some(e@),
                None => None,
            },
        ),
{
    match failure {
        Some(e) => if h.persist {
            refuse(INTERNAL_ERROR, join2("persist thread index: ", e).as_str())
        } else {
            h
        },
        None => h,
    }
}

// ---------------------------------------------------------------------------
// Threads on the wire
// ---------------------------------------------------------------------------
/// The thread that a binding stands for.
pub open spec fn thread_of(
    b: BindingV,
    now: i64,
    default_cwd: Seq<char>,
    version: Seq<char>,
    turns: Seq<JsonV>,
) -> ThreadV {
    ThreadV {
        id: b.thread_id,
        session_id: b.hermes_session_id,
        forked_from_id: b.forked_from_id,
        preview: match b.preview {
            Some(p) => p,
            None => seq![],
        },
        model_provider: MODEL_PROVIDER@,
        created_at: b.created_at,
        updated_at: if b.updated_at == 0 {
            now
        } else {
            b.updated_at
        },
        path: None,
        cwd: match b.cwd {
            Some(c) => c,
            None => default_cwd,
        },
        cli_version: version,
        agent_nickname: Some("hermes"@),
        agent_role: Some("assistant"@),
        name: b.name,
        turns,
    }
}

/// The thread that a binding stands for.
pub fn binding_to_thread(b: &HermesBinding, now: i64, around: &Surroundings, turns: Vec<Json>) -> (r:
    Thread)
    ensures
        r.view() == thread_of(
            b.view(),
            now,
            around.default_cwd@,
            around.version@,
            jsons(turns@),
        ),
{
    let preview = match &b.preview {
        Some(p) => p.clone(),
        None => {
            let empty = String::new();
            assert(empty@ =~= seq![]);
            empty
        },
    };
    Thread {
        id: b.thread_id.clone(),
        session_id: b.hermes_session_id.clone(),
        forked_from_id: opt_copy(&b.forked_from_id),
        preview,
        model_provider: owned(MODEL_PROVIDER),
        created_at: b.created_at,
        updated_at: if b.updated_at == 0 {
            now
        } else {
            b.updated_at
        },
        path: None,
        cwd: match &b.cwd {
            Some(c) => c.clone(),
            None => around.default_cwd.clone(),
        },
        cli_version: around.version.clone(),
        agent_nickname: Some(owned("hermes")),
        agent_role: Some(owned("assistant")),
        name: opt_copy(&b.name),
        turns,
    }
}

fn no_turns() -> (r: Vec<Json>)
    ensures
        jsons(r@) == Seq::<JsonV>::empty(),
{
    let v: Vec<Json> = Vec::new();
    assert(jsons(v@) =~= Seq::empty());
    v
}

/// The parameters of a notification about a thread.
pub open spec fn thread_params(t: ThreadV) -> JsonV {
    JsonV::object().with("thread"@, thread_model(t))
}

/// The announcement of a thread.
pub open spec fn thread_started(t: ThreadV) -> PublicationV {
    PublicationV { method: "thread/started"@, params: thread_params(t) }
}

/// The answer to a client that attaches to a thread with the bridge's settings.
pub open spec fn attached(t: ThreadV, model: Option<Seq<char>>) -> JsonV {
    attachment_json(
        thread_model(t),
        match model {
            Some(m) => m,
            None => MODEL_PROVIDER@,
        },
        MODEL_PROVIDER@,
        t.cwd,
        ApprovalV::Never,
        JsonV::Str("user"@),
        SandboxMode::DangerFullAccess,
        JsonV::Null,
        "medium"@,
    )
}

/// Answers a client that attaches to a thread with the bridge's settings.
pub fn start_like_response(thread: &Thread, model: Option<String>) -> (j: Json)
    ensures
        j.view() == attached(thread.view(), opt_text(model)),
{
    let a = Attachment {
        thread: thread.to_json(),
        model: match model {
            Some(m) => m,
            None => owned(MODEL_PROVIDER),
        },
        model_provider: owned(MODEL_PROVIDER),
        cwd: thread.cwd.clone(),
        approval_policy: AskForApproval::Never,
        approvals_reviewer: Json::text("user"),
        sandbox: SandboxMode::DangerFullAccess,
        permission_profile: Json::Null,
        reasoning_effort: owned("medium"),
    };
    a.to_json()
}

// ---------------------------------------------------------------------------
// Requests
// ---------------------------------------------------------------------------
/// How a client wants a thread started.
pub struct ThreadStartParams {
    pub cwd: Option<String>,
    pub model: Option<String>,
    pub approval_policy: Option<AskForApproval>,
    pub approvals_reviewer: Option<Json>,
    pub sandbox: Option<SandboxMode>,
    pub permission_profile: Option<Json>,
}

/// The binding of a thread that is started.
pub open spec fn new_binding(
    thread_id: Seq<char>,
    session_id: Seq<char>,
    model: Option<Seq<char>>,
    cwd: Seq<char>,
    now: i64,
) -> BindingV {
    BindingV {
        thread_id,
        hermes_session_id: session_id,
        model,
        created_at: now,
        updated_at: now,
        preview: None,
        cwd: Some(cwd),
        name: None,
        forked_from_id: None,
        archived: false,
    }
}

/// Starts a thread: it is bound to a new session, announced, and the client's own
/// settings are confirmed.
pub fn handle_thread_start(
    index: &mut ThreadIndex,
    p: &ThreadStartParams,
    thread_id: &str,
    session_id: &str,
    now: i64,
    around: &Surroundings,
) -> (r: Handled)
    ensures
        ({
            let cwd = match p.cwd {
                Some(c) => c@,
                None => around.default_cwd@,
            };
            let b = new_binding(thread_id@, session_id@, opt_text(p.model), cwd, now);
            let t = thread_of(b, now, around.default_cwd@, around.version@, seq![]);
            &&& final(index).view() == old(index).view().insert(thread_id@, b)
            &&& final(index).order() == (if old(index).view().dom().contains(thread_id@) {
                old(index).order()
            } else {
                old(index).order().push(thread_id@)
            })
            &&& r.view() == (HandledV {
                persist: true,
                notify: seq![thread_started(t)],
                reply: ReplyV::Done(
                    attachment_json(
                        thread_model(t),
                        match p.model {
                            Some(m) => m@,
                            None => MODEL_PROVIDER@,
                        },
                        MODEL_PROVIDER@,
                        cwd,
                        match p.approval_policy {
                            Some(a) => a.view(),
                            None => ApprovalV::Never,
                        },
                        match p.approvals_reviewer {
                            Some(v) => v.view(),
                            None => JsonV::Str("user"@),
                        },
                        match p.sandbox {
                            Some(s) => s,
                            None => SandboxMode::DangerFullAccess,
                        },
                        match p.permission_profile {
                            Some(v) => v.view(),
                            None => JsonV::Null,
                        },
                        "medium"@,
                    ),
                ),
            })
        }),
{
    let cwd = match &p.cwd {
        Some(c) => c.clone(),
        None => around.default_cwd.clone(),
    };
    let binding = HermesBinding {
        thread_id: owned(thread_id),
        hermes_session_id: owned(session_id),
        model: opt_copy(&p.model),
        created_at: now,
        updated_at: now,
        preview: None,
        cwd: Some(cwd.clone()),
        name: None,
        forked_from_id: None,
        archived: false,
    };
    let thread = binding_to_thread(&binding, now, around, no_turns());
    index.upsert(binding);
    let a = Attachment {
        thread: thread.to_json(),
        model: match &p.model {
            Some(m) => m.clone(),
            None => owned(MODEL_PROVIDER),
        },
        model_provider: owned(MODEL_PROVIDER),
        cwd,
        approval_policy: match &p.approval_policy {
            Some(x) => x.copy(),
            None => AskForApproval::Never,
        },
        approvals_reviewer: match &p.approvals_reviewer {
            Some(v) => v.copy(),
            None => Json::text("user"),
        },
        sandbox: match p.sandbox {
            Some(s) => s,
            None => SandboxMode::DangerFullAccess,
        },
        permission_profile: match &p.permission_profile {
            Some(v) => v.copy(),
            None => Json::Null,
        },
        reasoning_effort: owned("medium"),
    };
    announce(
        "thread/started",
        Json::object().with("thread", thread.to_json()),
        a.to_json(),
        true,
    )
}

/// Which thread a client wants to attach to, and how.
pub struct ThreadResumeParams {
    pub thread_id: String,
    pub cwd: Option<String>,
    pub model: Option<String>,
    pub exclude_turns: bool,
}

/// Attaches a client to a thread: a new working directory is kept, and the turns
/// are shown unless the client does not want them.
pub fn handle_thread_resume(
    index: &mut ThreadIndex,
    p: &ThreadResumeParams,
    turns: Vec<Json>,
    now: i64,
    around: &Surroundings,
) -> (r: Handled)
    ensures
        ({
            let before = old(index).view();
            if before.dom().contains(p.thread_id@) {
                let b = match p.cwd {
                    Some(c) => BindingV {
                        cwd: Some(c@),
                        updated_at: now,
                        ..before[p.thread_id@]
                    },
                    None => before[p.thread_id@],
                };
                let shown = if p.exclude_turns {
                    seq![]
                } else {
                    jsons(turns@)
                };
                let t = thread_of(b, now, around.default_cwd@, around.version@, shown);
                &&& p.cwd is Some ==> final(index).view() == before.insert(b.thread_id, b)
                &&& p.cwd is None ==> final(index).view() == before
                &&& r.view() == (HandledV {
                    persist: p.cwd is Some,
                    notify: seq![thread_started(t)],
                    reply: ReplyV::Done(attached(t, or_else(opt_text(p.model), b.model))),
                })
            } else {
                final(index).view() == before && r.view() == refused(
                    INVALID_PARAMS,
                    "thread not found"@,
                )
            }
        }),
{
    let mut binding = match index.get_by_thread(p.thread_id.as_str()) {
        Some(b) => b,
        None => {
            return refuse(INVALID_PARAMS, "thread not found");
        },
    };
    let persist = p.cwd.is_some();
    match &p.cwd {
        Some(cwd) => {
            binding.cwd = Some(cwd.clone());
            binding.updated_at = now;
            index.upsert(binding.copy());
        },
        None => {},
    }
    let shown = if p.exclude_turns {
        no_turns()
    } else {
        turns
    };
    let thread = binding_to_thread(&binding, now, around, shown);
    let model = match &p.model {
        Some(m) => Some(m.clone()),
        None => opt_copy(&binding.model),
    };
    announce(
        "thread/started",
        Json::object().with("thread", thread.to_json()),
        start_like_response(&thread, model),
        persist,
    )
}

/// The binding of a fork: it shares the session of its parent.
pub open spec fn forked(
    parent: BindingV,
    thread_id: Seq<char>,
    model: Option<Seq<char>>,
    cwd: Option<Seq<char>>,
    now: i64,
) -> BindingV {
    BindingV {
        thread_id,
        hermes_session_id: parent.hermes_session_id,
        model: or_else(model, parent.model),
        created_at: now,
        updated_at: now,
        preview: parent.preview,
        cwd: or_else(cwd, parent.cwd),
        name: match parent.name {
            Some(n) => Some(n + " (fork)"@),
            None => None,
        },
        forked_from_id: Some(parent.thread_id),
        archived: false,
    }
}

/// Forks a thread.
pub fn handle_thread_fork(
    index: &mut ThreadIndex,
    parent_id: &str,
    model: Option<String>,
    cwd: Option<String>,
    thread_id: &str,
    now: i64,
    around: &Surroundings,
) -> (r: Handled)
    ensures
        ({
            let before = old(index).view();
            if before.dom().contains(parent_id@) {
                let b = forked(
                    before[parent_id@],
                    thread_id@,
                    opt_text(model),
                    opt_text(cwd),
                    now,
                );
                let t = thread_of(b, now, around.default_cwd@, around.version@, seq![]);
                &&& final(index).view() == before.insert(thread_id@, b)
                &&& r.view() == (HandledV {
                    persist: true,
                    notify: seq![thread_started(t)],
                    reply: ReplyV::Done(attached(t, b.model)),
                })
            } else {
                final(index).view() == before && r.view() == refused(
                    INVALID_PARAMS,
                    "thread not found"@,
                )
            }
        }),
{
    let parent = match index.get_by_thread(parent_id) {
        Some(b) => b,
        None => {
            return refuse(INVALID_PARAMS, "thread not found");
        },
    };
    let binding = HermesBinding {
        thread_id: owned(thread_id),
        hermes_session_id: parent.hermes_session_id.clone(),
        model: match model {
            Some(m) => Some(m),
            None => opt_copy(&parent.model),
        },
        created_at: now,
        updated_at: now,
        preview: opt_copy(&parent.preview),
        cwd: match cwd {
            Some(c) => Some(c),
            None => opt_copy(&parent.cwd),
        },
        name: match &parent.name {
            Some(n) => Some(join2(n.as_str(), " (fork)")),
            None => None,
        },
        forked_from_id: Some(parent.thread_id.clone()),
        archived: false,
    };
    let thread = binding_to_thread(&binding, now, around, no_turns());
    let shown = opt_copy(&binding.model);
    index.upsert(binding);
    announce(
        "thread/started",
        Json::object().with("thread", thread.to_json()),
        start_like_response(&thread, shown),
        true,
    )
}

/// The parameters of a notification that only names a thread.
pub open spec fn id_params(thread_id: Seq<char>) -> JsonV {
    JsonV::object().with("threadId"@, JsonV::Str(thread_id))
}

/// Archives a thread.
pub fn handle_thread_archive(index: &mut ThreadIndex, thread_id: &str, now: i64) -> (r: Handled)
    ensures
        ({
            let before = old(index).view();
            if before.dom().contains(thread_id@) {
                &&& final(index).view() == before.insert(
                    thread_id@,
                    BindingV { archived: true, updated_at: now, ..before[thread_id@] },
                )
                &&& r.view() == (HandledV {
                    persist: true,
                    notify: seq![
                        PublicationV {
                            method: "thread/archived"@,
                            params: id_params(thread_id@),
                        },
                    ],
                    reply: ReplyV::Done(JsonV::object()),
                })
            } else {
                final(index).view() == before && r.view() == refused(
                    INVALID_PARAMS,
                    "thread not found"@,
                )
            }
        }),
{
    match index.set_archived(thread_id, true, now) {
        Some(_) => announce(
            "thread/archived",
            Json::object().with("threadId", Json::text(thread_id)),
            Json::object(),
            true,
        ),
        None => refuse(INVALID_PARAMS, "thread not found"),
    }
}

/// Takes a thread out of the archive.
pub fn handle_thread_unarchive(
    index: &mut ThreadIndex,
    thread_id: &str,
    now: i64,
    around: &Surroundings,
) -> (r: Handled)
    ensures
        ({
            let before = old(index).view();
            if before.dom().contains(thread_id@) {
                let b = BindingV { archived: false, updated_at: now, ..before[thread_id@] };
                let t = thread_of(b, now, around.default_cwd@, around.version@, seq![]);
                &&& final(index).view() == before.insert(thread_id@, b)
                &&& r.view() == (HandledV {
                    persist: true,
                    notify: seq![
                        PublicationV {
                            method: "thread/unarchived"@,
                            params: id_params(thread_id@),
                        },
                    ],
                    reply: ReplyV::Done(thread_params(t)),
                })
            } else {
                final(index).view() == before && r.view() == refused(
                    INVALID_PARAMS,
                    "thread not found"@,
                )
            }
        }),
{
    match index.set_archived(thread_id, false, now) {
        Some(b) => {
            let thread = binding_to_thread(&b, now, around, no_turns());
            announce(
                "thread/unarchived",
                Json::object().with("threadId", Json::text(thread_id)),
                Json::object().with("thread", thread.to_json()),
                true,
            )
        },
        None => refuse(INVALID_PARAMS, "thread not found"),
    }
}

/// Names a thread.
pub fn handle_thread_name_set(index: &mut ThreadIndex, thread_id: &str, name: &str, now: i64) -> (r:
    Handled)
    ensures
        ({
            let before = old(index).view();
            if before.dom().contains(thread_id@) {
                &&& final(index).view() == before.insert(
                    thread_id@,
                    BindingV { name: Some(name@), updated_at: now, ..before[thread_id@] },
                )
                &&& r.view() == (HandledV {
                    persist: true,
                    notify: seq![
                        PublicationV {
                            method: "thread/name/updated"@,
                            params: id_params(thread_id@).with("threadName"@, JsonV::Str(name@)),
                        },
                    ],
                    reply: ReplyV::Done(JsonV::object()),
                })
            } else {
                final(index).view() == before && r.view() == refused(
                    INVALID_PARAMS,
                    "thread not found"@,
                )
            }
        }),
{
    match index.set_name(thread_id, Some(owned(name)), now) {
        Some(_) => announce(
            "thread/name/updated",
            Json::object().with("threadId", Json::text(thread_id)).with(
                "threadName",
                Json::text(name),
            ),
            Json::object(),
            true,
        ),
        None => refuse(INVALID_PARAMS, "thread not found"),
    }
}

// ---------------------------------------------------------------------------
// Lists
// ---------------------------------------------------------------------------
/// A text that may be missing, as searched.
pub open spec fn searched(t: Option<Seq<char>>) -> Seq<char> {
    lowered(
        match t {
            Some(x) => x,
            None => seq![],
        },
    )
}

/// Whether a thread is listed: archived threads only on request, others only
/// where they are not asked for; a search term must occur in preview or name,
/// whatever the case of the letters.
pub open spec fn listed(b: BindingV, archived: Option<bool>, term: Option<Seq<char>>) -> bool {
    &&& b.archived == (archived == Some(true))
    &&& match term {
        Some(t) => t.len() == 0 || has_text(searched(b.preview), lowered(t)) || has_text(
            searched(b.name),
            lowered(t),
        ),
        None => true,
    }
}

fn searched_text(t: &Option<String>) -> (r: String)
    ensures
        r@ == searched(opt_text(*t)),
{
    match t {
        Some(x) => to_lowercase(x.as_str()),
        None => {
            let empty = String::new();
            assert(empty@ =~= seq![]);
            to_lowercase(empty.as_str())
        },
    }
}

fn is_listed(b: &HermesBinding, archived: Option<bool>, term: Option<&str>) -> (r: bool)
    ensures
        r == listed(
            b.view(),
            archived,
            match term {
                Some(t) => Some(t@),
                None => None,
            },
        ),
{
    let wanted = match archived {
        Some(a) => a,
        None => false,
    };
    if b.archived != wanted {
        return false;
    }
    match term {
        Some(t) => {
            if t.is_empty() {
                return true;
            }
            let needle = to_lowercase(t);
            contains(searched_text(&b.preview).as_str(), needle.as_str()) || contains(
                searched_text(&b.name).as_str(),
                needle.as_str(),
            )
        },
        None => true,
    }
}

/// The bindings of an index, in the order in which their threads came in.
pub open spec fn bindings_of(index: Map<Seq<char>, BindingV>, order: Seq<Seq<char>>) -> Seq<
    BindingV,
> {
    order.map_values(|k: Seq<char>| index[k])
}

/// The answer to a thread list request: the listed threads in order, on one page.
pub open spec fn list_reply(
    all: Seq<BindingV>,
    archived: Option<bool>,
    term: Option<Seq<char>>,
    now: i64,
    default_cwd: Seq<char>,
    version: Seq<char>,
) -> JsonV {
    JsonV::object()
        .with(
            "data"@,
            JsonV::Arr(
                all.filter(|b: BindingV| listed(b, archived, term)).map_values(
                    |b: BindingV|
                        thread_model(thread_of(b, now, default_cwd, version, seq![])),
                ),
            ),
        )
        .with("nextCursor"@, JsonV::Null)
        .with("backwardsCursor"@, JsonV::Null)
}

/// Lists threads.
pub fn handle_thread_list(
    index: &ThreadIndex,
    archived: Option<bool>,
    term: Option<&str>,
    now: i64,
    around: &Surroundings,
) -> (r: Handled)
    ensures
        r.view() == answered(
            list_reply(
                bindings_of(index.view(), index.order()),
                archived,
                match term {
                    Some(t) => Some(t@),
                    None => None,
                },
                now,
                around.default_cwd@,
                around.version@,
            ),
        ),
{
    broadcast use crate::json::lemma_array_view;

    let all = index.all();
    let ghost views = bindings_of(index.view(), index.order());
    let ghost gterm = match term {
        Some(t) => Some(t@),
        None => None,
    };
    let ghost keep = |b: BindingV| listed(b, archived, gterm);
    let ghost show = |b: BindingV|
        thread_model(thread_of(b, now, around.default_cwd@, around.version@, seq![]));
    let mut out: Vec<Json> = Vec::new();
    let mut i: usize = 0;
    proof {
        reveal(Seq::filter);
        assert(jsons(out@) =~= views.take(0).filter(keep).map_values(show));
    }
    while i < all.len()
        invariant
            i <= all@.len(),
            all@.len() == views.len(),
            views == bindings_of(index.view(), index.order()),
            forall|j: int|
                0 <= j < all@.len() ==> (#[trigger] all@[j]).view() == index.view()[
                index.order()[j]],
            gterm == (match term {
                Some(t) => Some(t@),
                None => None,
            }),
            keep == (|b: BindingV| listed(b, archived, gterm)),
            show == (|b: BindingV|
                thread_model(thread_of(b, now, around.default_cwd@, around.version@, seq![]))),
            jsons(out@) == views.take(i as int).filter(keep).map_values(show),
        decreases all@.len() - i,
    {
        let ghost before = out@;
        proof {
            reveal(Seq::filter);
            assert(views.take(i + 1).drop_last() == views.take(i as int));
            assert(views.take(i + 1).last() == all@[i as int].view());
        }
        if is_listed(&all[i], archived, term) {
            let thread = binding_to_thread(&all[i], now, around, no_turns());
            let j = thread.to_json();
            let ghost gj = j.view();
            out.push(j);
            assert(jsons(out@) =~= jsons(before).push(gj));
            assert(views.take(i + 1).filter(keep).map_values(show) =~= views.take(i as int).filter(
                keep,
            ).map_values(show).push(gj));
        }
        i += 1;
    }
    assert(views.take(all@.len() as int) == views);
    answer(
        Json::object()
            .with("data", Json::Array(out))
            .with("nextCursor", Json::Null)
            .with("backwardsCursor", Json::Null),
    )
}

/// Lists the ids of all threads.
pub fn handle_thread_loaded_list(index: &ThreadIndex) -> (r: Handled)
    ensures
        r.view() == answered(
            JsonV::object()
                .with("data"@, JsonV::Arr(index.order().map_values(|k: Seq<char>| JsonV::Str(k))))
                .with("nextCursor"@, JsonV::Null),
        ),
{
    let ids = index.thread_ids();
    assert(ids@.map_values(|x: String| JsonV::Str(x@)) =~= index.order().map_values(
        |k: Seq<char>| JsonV::Str(k),
    )) by {
        assert(texts(ids@) == index.order());
        assert forall|i: int| 0 <= i < ids@.len() implies (#[trigger] ids@[i])@
            == index.order()[i] by {
            assert(texts(ids@)[i] == ids@[i]@);
        }
    }
    answer(
        Json::object()
            .with("data", crate::json::texts_to_json(&ids))
            .with("nextCursor", Json::Null),
    )
}

/// Shows a thread, with its turns where they are wanted.
pub fn handle_thread_read(
    index: &ThreadIndex,
    thread_id: &str,
    include_turns: bool,
    turns: Vec<Json>,
    now: i64,
    around: &Surroundings,
) -> (r: Handled)
    ensures
        r.view() == (if index.view().dom().contains(thread_id@) {
            answered(
                thread_params(
                    thread_of(
                        index.view()[thread_id@],
                        now,
                        around.default_cwd@,
                        around.version@,
                        if include_turns {
                            jsons(turns@)
                        } else {
                            seq![]
                        },
                    ),
                ),
            )
        } else {
            refused(INVALID_PARAMS, "thread not found"@)
        }),
{
    match index.get_by_thread(thread_id) {
        Some(b) => {
            let shown = if include_turns {
                turns
            } else {
                no_turns()
            };
            let thread = binding_to_thread(&b, now, around, shown);
            answer(Json::object().with("thread", thread.to_json()))
        },
        None => refuse(INVALID_PARAMS, "thread not found"),
    }
}

/// Shows the turns of a thread.
pub fn handle_thread_turns_list(index: &ThreadIndex, thread_id: &str, turns: Vec<Json>) -> (r:
    Handled)
    ensures
        r.view() == (if index.view().dom().contains(thread_id@) {
            answered(
                JsonV::object()
                    .with("data"@, JsonV::Arr(jsons(turns@)))
                    .with("nextCursor"@, JsonV::Null)
                    .with("backwardsCursor"@, JsonV::Null),
            )
        } else {
            refused(INVALID_PARAMS, "thread not found"@)
        }),
{
    broadcast use crate::json::lemma_array_view;

    match index.get_by_thread(thread_id) {
        Some(_) => answer(
            Json::object()
                .with("data", Json::Array(turns))
                .with("nextCursor", Json::Null)
                .with("backwardsCursor", Json::Null),
        ),
        None => refuse(INVALID_PARAMS, "thread not found"),
    }
}

/// Archiving a thread and taking it out again leaves everything but the time of
/// the last change as it was, if it was not archived.
pub proof fn law_archive_round_trip(b: BindingV, now: i64, later: i64)
    requires
        !b.archived,
    ensures
        ({
            let a = BindingV { archived: true, updated_at: now, ..b };
            (BindingV { archived: false, updated_at: later, ..a }) == (BindingV {
                updated_at: later,
                ..b
            })
        }),
        !listed(BindingV { archived: true, updated_at: now, ..b }, None, None),
        listed(b, None, None),
{
}

} // verus!
