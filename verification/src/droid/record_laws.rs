//! Laws of commands, requests and records: what is refused, what is asked, and what a
//! thread remembers.

use vstd::prelude::*;

use super::commands::{
    capped, command_refusal, command_timeout, output_cap, set_vars,
};
use super::models::{droid_model, offered_models, plain_model};
use super::process::{
    RequestEnd, answered_id, droid_args, message_in, named_id, request_json,
    request_outcome,
};
use super::threads::{
    EntryV, RecordV, ThreadResumeParams, ThreadStartParams, after_turn,
    chosen_cwd, entry_of, last_text, new_record, part_text,
    part_texts, record_of, resumed, thread_of, turn_value, whole_seconds,
};
use crate::codex::command_exec::CommandExecParams;
use crate::codex::models::ReasoningEffort;
use crate::codex::policy::{ApprovalV, SandboxMode};
use crate::codex::thread::UserInputV;
use crate::json::{Json, JsonV};
use crate::json_text::{parsed, rendered};
use crate::text::{begins, tag, trimmed};

verus! {

// ---------------------------------------------------------------------------
// Commands
// ---------------------------------------------------------------------------
/// A command runs if it names a program, is not interactive, and asks for no limit that
/// it also switches off. Nothing else is refused.
pub proof fn law_commands_that_run(p: CommandExecParams)
    ensures
        command_refusal(p) is None <==> {
            &&& p.command@.len() > 0
            &&& !p.tty && !p.stream_stdin && !p.stream_stdout_stderr
            &&& p.output_bytes_cap is None || !p.disable_output_cap
            &&& p.timeout_ms is None || !p.disable_timeout
        },
{
}

/// A command may write as much as it asked for, and everything where it switched the
/// limit off; a limit of its own is never raised.
pub proof fn law_output_limits(p: CommandExecParams, cap: usize)
    ensures
        p.disable_output_cap ==> output_cap(p) == usize::MAX,
        !p.disable_output_cap && p.output_bytes_cap == Some(cap) ==> output_cap(p) == cap,
        !p.disable_output_cap && p.output_bytes_cap is None ==> output_cap(p) == 256 * 1024,
{
}

/// A command may take as long as it asked for; a negative time is none at all, no time is
/// a minute, and a switched off limit is no limit.
pub proof fn law_time_limits(p: CommandExecParams, ms: i64)
    ensures
        command_timeout(p) is None <==> p.disable_timeout,
        command_timeout(p) matches Some(t) ==> t >= 0,
        !p.disable_timeout && p.timeout_ms == Some(ms) && ms >= 0 ==> command_timeout(p) == Some(
            ms as int,
        ),
        !p.disable_timeout && p.timeout_ms == Some(ms) && ms < 0 ==> command_timeout(p) == Some(
            0int,
        ),
        !p.disable_timeout && p.timeout_ms is None ==> command_timeout(p) == Some(60 * 1000int),
{
}

/// The variables that a command sets are those with a value, in their order.
pub proof fn law_set_variables_keep_their_order(
    a: Seq<(String, Option<String>)>,
    b: Seq<(String, Option<String>)>,
)
    ensures
        set_vars(a + b) == set_vars(a) + set_vars(b),
    decreases b.len(),
{
    if b.len() == 0 {
        assert(a + b =~= a);
        assert(set_vars(a) + set_vars(b) =~= set_vars(a));
    } else {
        law_set_variables_keep_their_order(a, b.drop_last());
        assert((a + b).drop_last() =~= a + b.drop_last());
        assert((a + b).last() == b.last());
        assert(set_vars(a + b) =~= set_vars(a) + set_vars(b));
    }
}

/// A variable with a value is set to it, and one without is not set.
pub proof fn law_one_set_variable(name: String, value: Option<String>)
    ensures
        value matches Some(v) ==> set_vars(seq![(name, value)]) == seq![(name@, v@)],
        value is None ==> set_vars(seq![(name, value)]).len() == 0,
{
    let s = seq![(name, value)];
    assert(s.drop_last() =~= Seq::empty());
    assert(set_vars(s.drop_last()).len() == 0);
}

/// Output within the limit is all kept; of more, the beginning is kept up to the limit.
pub proof fn law_output_is_cut_at_its_limit(bytes: Seq<u8>, cap: nat)
    ensures
        capped(bytes, cap).is_prefix_of(bytes),
        capped(bytes, cap).len() <= cap,
        capped(bytes, cap).len() < cap ==> capped(bytes, cap) == bytes,
        bytes.len() <= cap ==> capped(bytes, cap) == bytes,
{
}

// ---------------------------------------------------------------------------
// Requests to the program
// ---------------------------------------------------------------------------
/// The program is started at its autonomy level, in its directory, with its model if it
/// has one, and speaks the same form in both directions.
pub proof fn law_program_is_started_as_configured(
    level: Seq<char>,
    cwd: Seq<char>,
    model: Option<Seq<char>>,
)
    ensures
        ({
            let args = droid_args(level, cwd, model);
            &&& args[0] == "exec"@
            &&& args[1] == "--input-format"@ && args[3] == "--output-format"@ && args[2] == args[4]
            &&& args[5] == "--auto"@ && args[6] == level
            &&& args[7] == "--cwd"@ && args[8] == cwd
            &&& model matches Some(m) ==> args.len() == 11 && args[9] == "--model"@ && args[10] == m
            &&& model is None ==> args.len() == 9
        }),
{
}

proof fn lemma_request_keys()
    ensures
        tag("type"@) == (4nat, 't', 'y'),
        tag("jsonrpc"@) == (7nat, 'j', 's'),
        tag("factoryApiVersion"@) == (17nat, 'f', 'a'),
        tag("factoryProtocolVersion"@) == (22nat, 'f', 'a'),
        tag("id"@) == (2nat, 'i', 'd'),
        tag("method"@) == (6nat, 'm', 'e'),
        tag("params"@) == (6nat, 'p', 'a'),
{
    reveal_strlit("type");
    reveal_strlit("jsonrpc");
    reveal_strlit("factoryApiVersion");
    reveal_strlit("factoryProtocolVersion");
    reveal_strlit("id");
    reveal_strlit("method");
    reveal_strlit("params");
}

/// A request to the program carries its id, its method and its params, and is named by
/// its id again.
pub proof fn law_requests_carry_what_is_asked(id: Seq<char>, method: Seq<char>, params: JsonV)
    ensures
        ({
            let j = request_json(id, method, params);
            &&& j.str_at("type"@) == Some("request"@)
            &&& j.str_at("jsonrpc"@) == Some("2.0"@)
            &&& j.str_at("factoryApiVersion"@) == Some("1.0.0"@)
            &&& j.str_at("factoryProtocolVersion"@) == Some("1.36.0"@)
            &&& j.str_at("id"@) == Some(id)
            &&& j.str_at("method"@) == Some(method)
            &&& j.get("params"@) == Some(params)
            &&& named_id(j) == Some(id)
        }),
{
    lemma_request_keys();
}

/// A message without an id names none; a number names its digits.
pub proof fn law_ids_that_are_no_text(v: JsonV, n: int)
    ensures
        v.get("id"@) is None ==> named_id(v) is None,
        v.get("id"@) == Some(JsonV::Null) ==> named_id(v) is None,
        v.get("id"@) == Some(JsonV::Int(n)) ==> named_id(v) == Some(rendered(JsonV::Int(n))),
{
}

/// Only requests that wait are answered.
pub proof fn law_only_waiting_requests_are_answered(v: JsonV, waiting: Set<Seq<char>>)
    ensures
        answered_id(v, waiting) matches Some(id) ==> waiting.contains(id) && named_id(v) == Some(
            id,
        ) && v.get("type"@) == Some(JsonV::Str("response"@)),
{
}

/// A line is read without the blanks around it, and a blank one says nothing.
pub proof fn law_lines_are_read(line: Seq<char>)
    ensures
        trimmed(line).len() == 0 ==> message_in(line) is None,
        trimmed(line).len() > 0 ==> message_in(line) == parsed(trimmed(line)),
{
}

/// A request succeeds exactly if it is answered without an error, with the answer's
/// result, and with nothing if there is none.
pub proof fn law_requests_succeed_without_error(method: Seq<char>, end: RequestEnd, j: Json)
    ensures
        request_outcome(method, end) is Ok <==> (end matches RequestEnd::Answered(a)
            && a.view().get("error"@) is None),
        j.view().get("error"@) is None ==> (j.view().get("result"@) matches Some(v)
            ==> request_outcome(method, RequestEnd::Answered(j)) == Ok::<JsonV, Seq<char>>(v)),
        j.view().get("error"@) is None && j.view().get("result"@) is None ==> request_outcome(
            method,
            RequestEnd::Answered(j),
        ) == Ok::<JsonV, Seq<char>>(JsonV::Null),
{
}

/// A failed request says which it was, except where nothing could be written, and what
/// the program said of it.
pub proof fn law_failures_name_the_request(method: Seq<char>, end: RequestEnd, said: Seq<char>)
    ensures
        end !is WriterClosed ==> (request_outcome(method, end) matches Err(e) ==> begins(
            e,
            "droid request `"@ + method,
        )),
        end matches RequestEnd::Answered(j) ==> (j.view().get("error"@) matches Some(
            err,
        ) ==> err.get("message"@) == Some(JsonV::Str(said)) ==> (request_outcome(method, end)
            matches Err(e) && e == "droid request `"@ + method + ("` failed: "@ + said))),
        end is TimedOut ==> request_outcome(method, end) == Err::<JsonV, Seq<char>>(
            "droid request `"@ + method + "` timed out"@,
        ),
        end is Cancelled ==> request_outcome(method, end) == Err::<JsonV, Seq<char>>(
            "droid request `"@ + method + "` was cancelled"@,
        ),
{
    let start = "droid request `"@ + method;
    if end is Answered {
        let j = end->Answered_0;
        if j.view().get("error"@) is Some {
            let e = request_outcome(method, end)->Err_0;
            assert(e.take(start.len() as int) =~= start);
        }
    } else if end is TimedOut || end is Cancelled {
        let e = request_outcome(method, end)->Err_0;
        assert(e.take(start.len() as int) =~= start);
    }
}

// ---------------------------------------------------------------------------
// Models
// ---------------------------------------------------------------------------
/// The name of a model is passed on without the bridge's own prefix and without blanks
/// around it.
pub proof fn law_model_prefix_is_taken_off(name: Seq<char>, plain: Seq<char>)
    ensures
        trimmed(name) == "droid/"@ + plain ==> plain_model(name) == plain,
        !begins(trimmed(name), "droid/"@) ==> plain_model(name) == trimmed(name),
{
    let t = trimmed(name);
    if t == "droid/"@ + plain {
        assert(t.take("droid/"@.len() as int) =~= "droid/"@);
        assert(t.skip("droid/"@.len() as int) =~= plain);
    }
}

proof fn lemma_model_keys()
    ensures
        tag("id"@) == (2nat, 'i', 'd'),
        tag("model"@) == (5nat, 'm', 'o'),
        tag("upgrade"@) == (7nat, 'u', 'p'),
        tag("upgradeInfo"@) == (11nat, 'u', 'p'),
        tag("availabilityNux"@) == (15nat, 'a', 'v'),
        tag("displayName"@) == (11nat, 'd', 'i'),
        tag("description"@) == (11nat, 'd', 'e'),
        tag("hidden"@) == (6nat, 'h', 'i'),
        tag("supportedReasoningEfforts"@) == (25nat, 's', 'u'),
        tag("defaultReasoningEffort"@) == (22nat, 'd', 'e'),
        tag("inputModalities"@) == (15nat, 'i', 'n'),
        tag("supportsPersonality"@) == (19nat, 's', 'u'),
        tag("additionalSpeedTiers"@) == (20nat, 'a', 'd'),
        tag("serviceTiers"@) == (12nat, 's', 'e'),
        tag("isDefault"@) == (9nat, 'i', 's'),
{
    reveal_strlit("id");
    reveal_strlit("model");
    reveal_strlit("upgrade");
    reveal_strlit("upgradeInfo");
    reveal_strlit("availabilityNux");
    reveal_strlit("displayName");
    reveal_strlit("description");
    reveal_strlit("hidden");
    reveal_strlit("supportedReasoningEfforts");
    reveal_strlit("defaultReasoningEffort");
    reveal_strlit("inputModalities");
    reveal_strlit("supportsPersonality");
    reveal_strlit("additionalSpeedTiers");
    reveal_strlit("serviceTiers");
    reveal_strlit("isDefault");
}

/// A model on offer goes by its id, is shown, and takes texts and images; whether it is the
/// default, and how much it thinks by default, is its own.
pub proof fn law_models_on_the_wire(
    id: Seq<char>,
    display: Seq<char>,
    is_default: bool,
    effort: ReasoningEffort,
)
    ensures
        ({
            let m = droid_model(id, display, is_default, effort);
            &&& m.str_at("id"@) == Some(id)
            &&& m.str_at("model"@) == Some(id)
            &&& m.str_at("displayName"@) == Some(display)
            &&& m.bool_at("isDefault"@) == Some(is_default)
            &&& m.bool_at("hidden"@) == Some(false)
            &&& m.bool_at("supportsPersonality"@) == Some(false)
            &&& m.str_at("defaultReasoningEffort"@) == Some(effort.name())
            &&& m.array_at("inputModalities"@) == Some(
                seq![JsonV::Str("text"@), JsonV::Str("image"@)],
            )
        }),
{
    lemma_model_keys();
}

/// The default model is of the family that the bridge is made with, and so are the three
/// that follow it; all models are shown by their family's title or by their own.
pub proof fn law_family_comes_first(family: Seq<char>, title: Seq<char>, i: int)
    requires
        0 <= i < 4,
    ensures
        offered_models(family, title)[i].str_at("id"@) matches Some(id) && begins(id, family),
        offered_models(family, title)[i].str_at("displayName"@) matches Some(d) && begins(d, title),
{
    lemma_model_keys();
    let m = offered_models(family, title)[i];
    let id = m.str_at("id"@)->Some_0;
    let d = m.str_at("displayName"@)->Some_0;
    assert(id.take(family.len() as int) =~= family);
    assert(d.take(title.len() as int) =~= title);
}

// ---------------------------------------------------------------------------
// Records of threads
// ---------------------------------------------------------------------------
/// A thread shows what its record holds; its turns only where they are wanted.
pub proof fn law_threads_show_their_record(r: RecordV, include_turns: bool)
    ensures
        ({
            let t = thread_of(r, include_turns);
            &&& t.id == r.id && t.session_id == r.id
            &&& t.cwd == r.cwd && t.name == r.name && t.preview == r.preview && t.path == r.path
            &&& t.created_at == r.created_at && t.updated_at == r.updated_at
            &&& t.model_provider == "droid"@
            &&& t.forked_from_id is None
            &&& include_turns ==> t.turns == r.turns
            &&& !include_turns ==> t.turns.len() == 0
        }),
{
}

/// The index hears of a thread what its record holds, and where its session lies.
pub proof fn law_index_hears_of_the_record(r: RecordV, path: Seq<char>)
    ensures
        ({
            let e = entry_of(r, path);
            &&& e.thread_id == r.id && e.session_id == r.id
            &&& e.cwd == r.cwd && e.name == r.name && e.preview == r.preview
            &&& e.created_at == r.created_at && e.updated_at == r.updated_at
            &&& e.session_path == path
            &&& !e.archived && e.forked_from_id is None
        }),
{
}

/// A new thread holds what the client chose, and the usual for the rest; it has no turns
/// and is as young as the clock says.
pub proof fn law_new_threads_hold_the_clients_choices(
    p: ThreadStartParams,
    usual: Seq<char>,
    id: Seq<char>,
    cwd: Seq<char>,
    now: i64,
    path: Option<Seq<char>>,
)
    ensures
        ({
            let r = new_record(p, usual, id, cwd, now, path);
            &&& r.id == id && r.cwd == cwd && r.path == path
            &&& r.created_at == now && r.updated_at == now
            &&& r.turns.len() == 0 && r.preview == ""@
            &&& p.model matches Some(m) ==> r.model == plain_model(m@)
            &&& p.model is None ==> r.model == usual
            &&& p.sandbox matches Some(m) ==> r.sandbox == m
            &&& p.sandbox is None ==> r.sandbox == SandboxMode::WorkspaceWrite
            &&& p.approval_policy is None ==> r.approval_policy == ApprovalV::OnRequest
            &&& p.approval_policy matches Some(a) ==> r.approval_policy == a.view()
            &&& p.service_name matches Some(n) ==> r.name == Some(n@)
            &&& p.service_name is None ==> r.name is None
        }),
{
}

/// A thread works in the directory that the client names; one that names none, or an
/// empty one, works where the bridge does.
pub proof fn law_directory_is_the_clients(value: Option<Seq<char>>, current: Seq<char>)
    ensures
        value matches Some(c) ==> c.len() > 0 ==> chosen_cwd(value, current) == c,
        value matches Some(c) ==> c.len() == 0 ==> chosen_cwd(value, current) == current,
        value is None ==> chosen_cwd(value, current) == current,
{
}

/// A thread that comes back from the index is the one of the index, with the model that
/// the client wants, else that of its session, else the usual.
pub proof fn law_indexed_threads_come_back(
    e: EntryV,
    p: ThreadResumeParams,
    session_model: Option<Seq<char>>,
    usual: Seq<char>,
)
    ensures
        ({
            let r = record_of(e, p, session_model, usual);
            &&& r.id == e.thread_id && r.cwd == e.cwd && r.name == e.name && r.preview == e.preview
            &&& r.created_at == e.created_at && r.updated_at == e.updated_at
            &&& r.path == Some(e.session_path)
            &&& p.model matches Some(m) ==> r.model == plain_model(m@)
            &&& p.model is None ==> (session_model matches Some(m) ==> r.model == m)
            &&& p.model is None && session_model is None ==> r.model == usual
            &&& p.sandbox matches Some(m) ==> r.sandbox == m
            &&& p.sandbox is None ==> r.sandbox == SandboxMode::WorkspaceWrite
            &&& p.approval_policy matches Some(a) ==> r.approval_policy == a.view()
            &&& p.approval_policy is None ==> r.approval_policy == ApprovalV::OnRequest
        }),
{
}

/// A thread put into the index comes back the same, but for its turns and what the client
/// chooses anew.
pub proof fn law_index_keeps_the_thread(
    r: RecordV,
    path: Seq<char>,
    p: ThreadResumeParams,
    usual: Seq<char>,
)
    requires
        p.model is None,
    ensures
        ({
            let q = record_of(entry_of(r, path), p, Some(r.model), usual);
            &&& q.id == r.id && q.cwd == r.cwd && q.name == r.name && q.preview == r.preview
            &&& q.created_at == r.created_at && q.updated_at == r.updated_at
            &&& q.model == r.model
            &&& q.path == Some(path)
        }),
{
}

/// A resumed thread stays the same thread; it shows no turns where the client wants none,
/// its own where it has some, and else those of its session.
pub proof fn law_resumed_threads_stay_themselves(
    r: RecordV,
    p: ThreadResumeParams,
    transcript: Seq<JsonV>,
)
    ensures
        ({
            let q = resumed(r, p, transcript);
            &&& q.id == r.id && q.cwd == r.cwd && q.name == r.name && q.preview == r.preview
            &&& q.created_at == r.created_at && q.updated_at == r.updated_at && q.path == r.path
            &&& q.approval_policy == r.approval_policy && q.sandbox == r.sandbox
            &&& p.model is None ==> q.model == r.model
            &&& p.model matches Some(m) ==> q.model == plain_model(m@)
            &&& p.exclude_turns ==> q.turns.len() == 0
            &&& !p.exclude_turns && r.turns.len() > 0 ==> q.turns == r.turns
            &&& !p.exclude_turns && r.turns.len() == 0 && r.path is Some ==> q.turns == transcript
            &&& !p.exclude_turns && r.turns.len() == 0 && r.path is None ==> q.turns.len() == 0
        }),
{
}

proof fn lemma_turn_keys()
    ensures
        tag("id"@) == (2nat, 'i', 'd'),
        tag("items"@) == (5nat, 'i', 't'),
        tag("itemsView"@) == (9nat, 'i', 't'),
        tag("status"@) == (6nat, 's', 't'),
        tag("error"@) == (5nat, 'e', 'r'),
        tag("startedAt"@) == (9nat, 's', 't'),
        tag("completedAt"@) == (11nat, 'c', 'o'),
        tag("durationMs"@) == (10nat, 'd', 'u'),
{
    reveal_strlit("id");
    reveal_strlit("items");
    reveal_strlit("itemsView");
    reveal_strlit("status");
    reveal_strlit("error");
    reveal_strlit("startedAt");
    reveal_strlit("completedAt");
    reveal_strlit("durationMs");
}

/// A turn on the wire shows its id, its items and how it stands; a time that is not known
/// is `null`.
pub proof fn law_turns_on_the_wire(
    id: Seq<char>,
    items: Seq<JsonV>,
    status: Seq<char>,
    started: Option<int>,
    completed: Option<int>,
    took: Option<int>,
)
    ensures
        ({
            let t = turn_value(id, items, status, started, completed, took);
            &&& t.str_at("id"@) == Some(id)
            &&& t.array_at("items"@) == Some(items)
            &&& t.str_at("status"@) == Some(status)
            &&& t.get("error"@) == Some(JsonV::Null)
            &&& started matches Some(n) ==> t.get("startedAt"@) == Some(JsonV::Int(n))
            &&& completed matches Some(n) ==> t.get("completedAt"@) == Some(JsonV::Int(n))
            &&& took matches Some(n) ==> t.get("durationMs"@) == Some(JsonV::Int(n))
            &&& started is None ==> t.get("startedAt"@) == Some(JsonV::Null)
            &&& completed is None ==> t.get("completedAt"@) == Some(JsonV::Null)
            &&& took is None ==> t.get("durationMs"@) == Some(JsonV::Null)
        }),
{
    lemma_turn_keys();
}

/// Milliseconds are cut down to whole seconds, towards nothing.
pub proof fn law_seconds_are_whole(ms: int)
    ensures
        ms >= 0 ==> whole_seconds(ms) * 1000 <= ms < whole_seconds(ms) * 1000 + 1000,
        ms <= 0 ==> whole_seconds(ms) == -whole_seconds(-ms),
{
}

/// A completed turn is the last of its thread, ends when it ended, began as long before
/// as it took, and shows all its items; the thread is as young as the turn's end, and
/// nothing else of it changes.
pub proof fn law_completed_turns_are_recorded(
    r: RecordV,
    turn_id: Seq<char>,
    items: Seq<JsonV>,
    completed_at: int,
    seconds: nat,
)
    requires
        i64::MIN <= completed_at * 1000 <= i64::MAX,
    ensures
        ({
            let q = after_turn(r, turn_id, items, completed_at, seconds * 1000int);
            let t = q.turns.last();
            &&& q.turns.len() == r.turns.len() + 1
            &&& q.turns.drop_last() == r.turns
            &&& t.str_at("id"@) == Some(turn_id)
            &&& t.array_at("items"@) == Some(items)
            &&& t.str_at("status"@) == Some("completed"@)
            &&& t.get("completedAt"@) == Some(JsonV::Int(completed_at))
            &&& t.get("startedAt"@) == Some(JsonV::Int(completed_at - seconds))
            &&& t.get("durationMs"@) == Some(JsonV::Int(seconds * 1000int))
            &&& q.updated_at == completed_at * 1000
            &&& q.preview.is_prefix_of(last_text(items)) && q.preview.len() <= 240
            &&& q.preview.len() < 240 ==> q.preview == last_text(items)
            &&& q.id == r.id && q.cwd == r.cwd && q.name == r.name && q.path == r.path
            &&& q.created_at == r.created_at && q.model == r.model
        }),
{
    lemma_turn_keys();
    let q = after_turn(r, turn_id, items, completed_at, seconds * 1000int);
    assert(q.turns.drop_last() =~= r.turns);
    assert(whole_seconds(seconds * 1000int) == seconds);
}

/// The last text of a turn is that of its last item that has one.
pub proof fn law_last_text_is_last(items: Seq<JsonV>, item: JsonV, text: Seq<char>)
    ensures
        item.get("text"@) == Some(JsonV::Str(text)) ==> last_text(items.push(item)) == text,
        item.get("text"@) is None ==> last_text(items.push(item)) == last_text(items),
        last_text(Seq::empty()) == ""@,
{
    assert(items.push(item).drop_last() =~= items);
}

/// A text is passed on as it is; everything else is named between brackets.
pub proof fn law_parts_are_told_as_text(u: UserInputV, parts: Seq<UserInputV>, i: int)
    ensures
        u matches UserInputV::Text { text, .. } ==> part_text(u) == text,
        u matches UserInputV::Image { url } ==> part_text(u) == "[image: "@ + url + "]"@,
        u matches UserInputV::LocalImage { path } ==> part_text(u) == "[local image: "@ + path
            + "]"@,
        u matches UserInputV::Skill { name, path } ==> part_text(u) == "[skill: "@ + name + (
        " at "@ + path + "]"@),
        u matches UserInputV::Mention { name, path } ==> part_text(u) == "[mention: "@ + name + (
        " at "@ + path + "]"@),
        part_texts(parts).len() == parts.len(),
        0 <= i < parts.len() ==> part_texts(parts)[i] == part_text(parts[i]),
{
}

} // verus!
