//! Laws of requests to the bridge: how sessions open, what is listed, and what is answered
//! at once.

use vstd::prelude::*;

use super::bridge::{
    DroidBridge, ListedThread, ParamsRule, SessionOpenMode, SortDirection, answered_at_once,
    autonomy, config_shown, either, fixed_answer, message_params, name_kept, opening, rule_of, said,
    shape_matters, skills_shown, strings_in, turn_refusal, turns_page, turns_shown, unsupported,
    wanted_cwds,
};
use super::models::{default_model, offered_models};
use super::threads::RecordV;
use crate::codex::methods::Method;
use crate::codex::policy::ApprovalV;
use crate::json::JsonV;
use crate::rpc::{INVALID_PARAMS, METHOD_NOT_FOUND, ReplyV};
use crate::text::{tag, trimmed};

verus! {

// ---------------------------------------------------------------------------
// Sessions
// ---------------------------------------------------------------------------
/// A program that need never ask has the highest autonomy, one that asks of everything
/// untrusted the lowest.
pub proof fn law_autonomy_follows_approval(policy: ApprovalV)
    ensures
        autonomy(policy) == "high"@ <==> policy is Never,
        autonomy(policy) == "medium"@ <==> policy is OnFailure || policy is OnRequest,
        autonomy(policy) == "low"@ <==> policy is UnlessTrusted || policy is Granular,
{
    reveal_strlit("high");
    reveal_strlit("medium");
    reveal_strlit("low");
    assert("high"@.len() == 4 && "medium"@.len() == 6 && "low"@.len() == 3);
}

proof fn lemma_session_keys()
    ensures
        tag("sessionId"@) == (9nat, 's', 'e'),
        tag("cwd"@) == (3nat, 'c', 'w'),
        tag("machineId"@) == (9nat, 'm', 'a'),
        tag("autonomyLevel"@) == (13nat, 'a', 'u'),
        tag("modelId"@) == (7nat, 'm', 'o'),
{
    reveal_strlit("sessionId");
    reveal_strlit("cwd");
    reveal_strlit("machineId");
    reveal_strlit("autonomyLevel");
    reveal_strlit("modelId");
}

/// A new session is opened under the thread's id, in its directory, with its model and at
/// the autonomy of its policy; one that exists is loaded by its id.
pub proof fn law_sessions_open_as_recorded(r: RecordV)
    ensures
        ({
            let new = opening(r, SessionOpenMode::Initialize);
            &&& new.0 == "droid.initialize_session"@
            &&& new.1.str_at("sessionId"@) == Some(r.id)
            &&& new.1.str_at("cwd"@) == Some(r.cwd)
            &&& new.1.str_at("modelId"@) == Some(r.model)
            &&& new.1.str_at("machineId"@) == Some("alleycat-droid-bridge"@)
            &&& new.1.str_at("autonomyLevel"@) == Some(autonomy(r.approval_policy))
        }),
        ({
            let old_one = opening(r, SessionOpenMode::Load);
            &&& old_one.0 == "droid.load_session"@
            &&& old_one.1.str_at("sessionId"@) == Some(r.id)
            &&& old_one.1.get("cwd"@) is None
        }),
{
    lemma_session_keys();
}

/// An empty text says nothing, and the first of two texts is taken where it is there.
pub proof fn law_what_was_said(a: Option<Seq<char>>, b: Option<Seq<char>>, t: Seq<char>)
    ensures
        said(Some(t)) == Some(t) <==> t.len() > 0,
        said(Some(t)) is None <==> t.len() == 0,
        said(None) is None,
        a is Some ==> either(a, b) == a,
        a is None ==> either(a, b) == b,
{
}

/// A name is kept without the blanks around it; a blank one takes the name away.
pub proof fn law_names_are_kept_trimmed(name: Seq<char>)
    ensures
        trimmed(name).len() > 0 ==> name_kept(name) == Some(trimmed(name)),
        trimmed(name).len() == 0 ==> name_kept(name) is None,
{
}

proof fn lemma_message_keys()
    ensures
        tag("text"@) == (4nat, 't', 'e'),
        tag("images"@) == (6nat, 'i', 'm'),
        tag("files"@) == (5nat, 'f', 'i'),
{
    reveal_strlit("text");
    reveal_strlit("images");
    reveal_strlit("files");
}

/// A message to the program is the prompt, with nothing attached.
pub proof fn law_messages_hold_the_prompt(prompt: Seq<char>)
    ensures
        message_params(prompt).str_at("text"@) == Some(prompt),
        message_params(prompt).array_at("images"@) == Some(Seq::<JsonV>::empty()),
        message_params(prompt).array_at("files"@) == Some(Seq::<JsonV>::empty()),
{
    lemma_message_keys();
}

/// A turn is taken exactly if the bridge keeps the thread and its program runs, and a
/// thread that is not there is refused as such even if a program runs.
pub proof fn law_turns_need_a_running_thread(bridge: DroidBridge, thread_id: Seq<char>)
    ensures
        turn_refusal(bridge, thread_id) is None <==> bridge.records().dom().contains(thread_id)
            && bridge.running(thread_id),
        !bridge.records().dom().contains(thread_id) ==> turn_refusal(bridge, thread_id) == Some(
            "thread `"@ + thread_id + "` not found"@,
        ),
        bridge.records().dom().contains(thread_id) && !bridge.running(thread_id) ==> turn_refusal(
            bridge,
            thread_id,
        ) == Some("thread `"@ + thread_id + "` is not loaded"@),
{
}

// ---------------------------------------------------------------------------
// Lists
// ---------------------------------------------------------------------------
/// A client wants the threads of one directory, of several, or of all.
pub proof fn law_directories_asked_for(s: Seq<char>, a: Seq<JsonV>, v: JsonV)
    ensures
        wanted_cwds(Some(JsonV::Str(s))) == Some(seq![s]),
        wanted_cwds(Some(JsonV::Arr(a))) is Some,
        wanted_cwds(None) is None,
        !(v is Str) && !(v is Arr) ==> wanted_cwds(Some(v)) is None,
{
}

/// The texts of a list are all of them and keep their order; what is no text is left out.
pub proof fn law_texts_of_a_list(a: Seq<JsonV>, b: Seq<JsonV>)
    ensures
        strings_in(a + b) == strings_in(a) + strings_in(b),
    decreases b.len(),
{
    if b.len() == 0 {
        assert(a + b =~= a);
        assert(strings_in(a) + strings_in(b) =~= strings_in(a));
    } else {
        law_texts_of_a_list(a, b.drop_last());
        assert((a + b).drop_last() =~= a + b.drop_last());
        assert((a + b).last() == b.last());
        assert(strings_in(a + b) =~= strings_in(a) + strings_in(b));
    }
}

/// A text is one text of a list, and anything else is none.
pub proof fn law_one_text_of_a_list(v: JsonV, s: Seq<char>)
    ensures
        strings_in(seq![JsonV::Str(s)]) == seq![s],
        !(v is Str) ==> strings_in(seq![v]).len() == 0,
{
    let one = seq![JsonV::Str(s)];
    assert(one.drop_last() =~= Seq::empty());
    assert(strings_in(one.drop_last()).len() == 0);
    assert(seq![v].drop_last() =~= Seq::empty());
    assert(strings_in(seq![v].drop_last()).len() == 0);
    assert(strings_in(one) =~= seq![s]);
}

/// A listed thread whose program runs is idle; any other is shown as the index has it.
pub proof fn law_running_threads_are_idle(bridge: DroidBridge, t: ListedThread, key: Seq<char>)
    requires
        t.thread.view() is Obj,
    ensures
        !bridge.running(t.id@) ==> bridge.shown(t) == t.thread.view(),
        bridge.running(t.id@) ==> bridge.shown(t).str_at2("status"@, "type"@) == Some("idle"@),
        key != "status"@ ==> bridge.shown(t).get(key) == t.thread.view().get(key),
{
}

/// A thread shows the turns that it has; one without turns shows those of its session.
pub proof fn law_turns_that_are_shown(r: RecordV, transcript: Seq<JsonV>)
    ensures
        r.turns.len() > 0 ==> turns_shown(r, transcript) == r.turns,
        r.turns.len() == 0 && r.path is Some ==> turns_shown(r, transcript) == transcript,
        r.turns.len() == 0 && r.path is None ==> turns_shown(r, transcript).len() == 0,
{
}

/// A page starts with the last turn, or with the first where the client wants the oldest
/// first, and goes on turn by turn; it is as long as the client wants, where there are as
/// many turns.
pub proof fn law_pages_of_turns(
    all: Seq<JsonV>,
    direction: Option<SortDirection>,
    limit: Option<u32>,
    i: int,
)
    requires
        0 <= i < turns_page(all, direction, limit).len(),
    ensures
        direction == Some(SortDirection::Asc) ==> turns_page(all, direction, limit)[i] == all[i],
        direction != Some(SortDirection::Asc) ==> turns_page(all, direction, limit)[i] == all[
            all.len() - 1 - i
        ],
{
}

/// A page is as long as the client wants, where there are as many turns, and holds all of
/// them where the client names no limit.
pub proof fn law_length_of_a_page(
    all: Seq<JsonV>,
    direction: Option<SortDirection>,
    limit: u32,
)
    ensures
        turns_page(all, direction, None).len() == all.len(),
        limit <= all.len() ==> turns_page(all, direction, Some(limit)).len() == limit,
        limit > all.len() ==> turns_page(all, direction, Some(limit)).len() == all.len(),
{
}

// ---------------------------------------------------------------------------
// What is answered at once
// ---------------------------------------------------------------------------
/// Params of a wrong shape are refused wherever their shape matters, whatever the method.
pub proof fn law_wrong_shapes_are_refused(
    m: Method,
    params: JsonV,
    why: Seq<char>,
    home: Seq<char>,
    windows: bool,
    family: Seq<char>,
    title: Seq<char>,
)
    requires
        rule_of(m) == ParamsRule::Typed || (rule_of(m) == ParamsRule::TypedOrNull && params
            != JsonV::Null),
    ensures
        answered_at_once(m, params, Some(why), home, windows, family, title) matches Some(a)
            && a.reply == ReplyV::Refused(INVALID_PARAMS, "invalid params: "@ + why)
            && a.notify.len() == 0,
{
}

/// Where the shape does not matter, or is right, the answer is the same.
pub proof fn law_right_shapes_are_not_refused(
    m: Method,
    params: JsonV,
    misshapen: Option<Seq<char>>,
    home: Seq<char>,
    windows: bool,
    family: Seq<char>,
    title: Seq<char>,
)
    requires
        misshapen is None || rule_of(m) == ParamsRule::Ignored || (rule_of(m)
            == ParamsRule::TypedOrNull && params == JsonV::Null),
    ensures
        answered_at_once(m, params, misshapen, home, windows, family, title) == fixed_answer(
            m,
            params,
            home,
            windows,
            family,
            title,
        ),
        !(misshapen is Some && shape_matters(m, params)),
{
}

/// Requests that name a thread, a command or a setting need params.
pub proof fn law_requests_that_need_params(m: Method)
    requires
        m == Method::ThreadStart || m == Method::ThreadResume || m == Method::ThreadRead || m
            == Method::ThreadArchive || m == Method::ThreadUnarchive || m == Method::ThreadNameSet
            || m == Method::ThreadTurnsList || m == Method::TurnStart || m == Method::CommandExec
            || m == Method::ConfigValueWrite || m == Method::SkillsConfigWrite,
    ensures
        shape_matters(m, JsonV::Null),
{
}

/// Lists may be asked for without params.
pub proof fn law_lists_need_no_params(m: Method)
    requires
        m == Method::ThreadList || m == Method::ThreadLoadedList || m == Method::ModelList || m
            == Method::SkillsList || m == Method::McpServerStatusList || m == Method::ConfigRead,
    ensures
        !shape_matters(m, JsonV::Null),
        forall|params: JsonV| params != JsonV::Null ==> #[trigger] shape_matters(m, params),
{
}

/// What the program cannot do is refused as not implemented, under its name on the wire,
/// and nothing else is.
pub proof fn law_what_is_not_implemented(
    m: Method,
    params: JsonV,
    home: Seq<char>,
    windows: bool,
    family: Seq<char>,
    title: Seq<char>,
)
    ensures
        (fixed_answer(m, params, home, windows, family, title) matches Some(a) && a.reply
            is Refused) <==> (m == Method::McpServerOauthLogin || m == Method::CommandExecWrite || m
            == Method::CommandExecResize || m == Method::ThreadFork || m == Method::ThreadRollback
            || m == Method::ReviewStart),
        m == Method::McpServerOauthLogin ==> fixed_answer(
            m,
            params,
            home,
            windows,
            family,
            title,
        ) == Some(unsupported("mcpServer/oauth/login"@)),
        m == Method::CommandExecWrite ==> fixed_answer(m, params, home, windows, family, title)
            == Some(unsupported("command/exec/write"@)),
        m == Method::CommandExecResize ==> fixed_answer(m, params, home, windows, family, title)
            == Some(unsupported("command/exec/resize"@)),
        m == Method::ThreadFork ==> fixed_answer(m, params, home, windows, family, title) == Some(
            unsupported("thread/fork"@),
        ),
        m == Method::ThreadRollback ==> fixed_answer(m, params, home, windows, family, title)
            == Some(unsupported("thread/rollback"@)),
        m == Method::ReviewStart ==> fixed_answer(m, params, home, windows, family, title) == Some(
            unsupported("review/start"@),
        ),
{
}

/// A refusal names the method, tells no one else, and says that it is not implemented.
pub proof fn law_refusals_name_the_method(method: Seq<char>)
    ensures
        unsupported(method).reply == ReplyV::Refused(
            METHOD_NOT_FOUND,
            "method `"@ + method + "` is not implemented"@,
        ),
        unsupported(method).notify.len() == 0,
        METHOD_NOT_FOUND == -32601,
        INVALID_PARAMS == -32602,
{
}

proof fn lemma_answer_keys()
    ensures
        tag("config"@) == (6nat, 'c', 'o'),
        tag("origins"@) == (7nat, 'o', 'r'),
        tag("layers"@) == (6nat, 'l', 'a'),
        tag("model_provider"@) == (14nat, 'm', 'o'),
        tag("model"@) == (5nat, 'm', 'o'),
        tag("cwd"@) == (3nat, 'c', 'w'),
        tag("data"@) == (4nat, 'd', 'a'),
        tag("nextCursor"@) == (10nat, 'n', 'e'),
        tag("skills"@) == (6nat, 's', 'k'),
        tag("errors"@) == (6nat, 'e', 'r'),
        tag("effectiveEnabled"@) == (16nat, 'e', 'f'),
        tag("echoed"@) == (6nat, 'e', 'c'),
        tag("account"@) == (7nat, 'a', 'c'),
        tag("requiresOpenaiAuth"@) == (18nat, 'r', 'e'),
        tag("type"@) == (4nat, 't', 'y'),
{
    reveal_strlit("config");
    reveal_strlit("origins");
    reveal_strlit("layers");
    reveal_strlit("model_provider");
    reveal_strlit("model");
    reveal_strlit("cwd");
    reveal_strlit("data");
    reveal_strlit("nextCursor");
    reveal_strlit("skills");
    reveal_strlit("errors");
    reveal_strlit("effectiveEnabled");
    reveal_strlit("echoed");
    reveal_strlit("account");
    reveal_strlit("requiresOpenaiAuth");
    reveal_strlit("type");
}

/// The configuration shows the provider, the usual model and the directory that was asked
/// about; layers are shown only where they are wanted.
pub proof fn law_configuration_is_shown(params: JsonV, usual: Seq<char>, cwd: Seq<char>)
    ensures
        config_shown(params, usual).str_at2("config"@, "model_provider"@) == Some("droid"@),
        config_shown(params, usual).str_at2("config"@, "model"@) == Some(usual),
        params.get("cwd"@) == Some(JsonV::Str(cwd)) ==> config_shown(params, usual).str_at2(
            "config"@,
            "cwd"@,
        ) == Some(cwd),
        params.get("cwd"@) is None ==> config_shown(params, usual).get2("config"@, "cwd"@) == Some(
            JsonV::Null,
        ),
        params.get("includeLayers"@) == Some(JsonV::Bool(true)) ==> config_shown(
            params,
            usual,
        ).array_at("layers"@) == Some(Seq::<JsonV>::empty()),
        params.get("includeLayers"@) != Some(JsonV::Bool(true)) ==> config_shown(
            params,
            usual,
        ).get("layers"@) == Some(JsonV::Null),
{
    lemma_answer_keys();
}

/// Every directory that was asked about has an entry without skills, in the order in
/// which they were asked about.
pub proof fn law_no_directory_has_skills(params: JsonV, cwds: Seq<JsonV>, i: int)
    requires
        params.get("cwds"@) == Some(JsonV::Arr(cwds)),
        0 <= i < strings_in(cwds).len(),
    ensures
        skills_shown(params).array_at("data"@) matches Some(data) && {
            &&& data.len() == strings_in(cwds).len()
            &&& data[i].str_at("cwd"@) == Some(strings_in(cwds)[i])
            &&& data[i].array_at("skills"@) == Some(Seq::<JsonV>::empty())
            &&& data[i].array_at("errors"@) == Some(Seq::<JsonV>::empty())
        },
{
    lemma_answer_keys();
}

/// The models are those on offer, on one page.
pub proof fn law_models_are_listed(
    params: JsonV,
    home: Seq<char>,
    windows: bool,
    family: Seq<char>,
    title: Seq<char>,
)
    ensures
        fixed_answer(Method::ModelList, params, home, windows, family, title) matches Some(a)
            && a.reply matches ReplyV::Done(v) && v.array_at("data"@) == Some(
            offered_models(family, title),
        ) && v.get("nextCursor"@) == Some(JsonV::Null) && a.notify.len() == 0,
        fixed_answer(Method::ConfigRead, params, home, windows, family, title) matches Some(a)
            && a.reply matches ReplyV::Done(v) && v.str_at2("config"@, "model"@) == Some(
            default_model(family),
        ),
{
    lemma_answer_keys();
}

/// A skill is switched as the client says, and a value is echoed.
pub proof fn law_client_values_are_echoed(
    params: JsonV,
    on: bool,
    value: Seq<char>,
    home: Seq<char>,
    windows: bool,
    family: Seq<char>,
    title: Seq<char>,
)
    ensures
        params.get("enabled"@) == Some(JsonV::Bool(on)) ==> (fixed_answer(
            Method::SkillsConfigWrite,
            params,
            home,
            windows,
            family,
            title,
        ) matches Some(a) && a.reply matches ReplyV::Done(v) && v.bool_at("effectiveEnabled"@)
            == Some(on)),
        params.get("value"@) == Some(JsonV::Str(value)) ==> (fixed_answer(
            Method::MockExperimentalMethod,
            params,
            home,
            windows,
            family,
            title,
        ) matches Some(a) && a.reply matches ReplyV::Done(v) && v.str_at("echoed"@) == Some(value)),
{
    lemma_answer_keys();
}

} // verus!
