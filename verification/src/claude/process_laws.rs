//! Laws of the program behind the bridge: how it is started, what it is told, and what its
//! messages mean.

use vstd::prelude::*;

use super::process::{
    ControlResponseV, ControlV, HandleV, OutboundV, RuntimeV, after_message, after_setter,
    claude_args, control_envelope, is_answer, meaning, message_in, next_setter, overlaid,
};
use super::turn::thinking_budget;
use crate::codex::models::ReasoningEffort;
use crate::json::JsonV;
use crate::json_text::parsed;
use crate::text::{tag, trimmed};

verus! {

// ---------------------------------------------------------------------------
// How the program is started
// ---------------------------------------------------------------------------
/// Whether two arguments stand next to each other in a list.
pub open spec fn stands_with(args: Seq<Seq<char>>, name: Seq<char>, value: Seq<char>) -> bool {
    exists|i: int| 0 <= i < args.len() - 1 && #[trigger] args[i] == name && args[i + 1] == value
}

/// The program works in the directory of the thread, on its session, which is resumed
/// exactly if it exists, and with the model and the prompt that are set.
pub proof fn law_arguments_name_thread_and_directory(
    thread: Seq<char>,
    cwd: Seq<char>,
    model: Option<Seq<char>>,
    prompt: Option<Seq<char>>,
    resume: bool,
    bypass: bool,
)
    ensures
        ({
            let args = claude_args(thread, cwd, model, prompt, resume, bypass);
            &&& stands_with(args, "--add-dir"@, cwd)
            &&& resume ==> stands_with(args, "--resume"@, thread)
            &&& !resume ==> stands_with(args, "--session-id"@, thread)
            &&& model matches Some(m) ==> stands_with(args, "--model"@, m)
            &&& prompt matches Some(p) ==> stands_with(args, "--append-system-prompt"@, p)
            &&& bypass ==> args.contains("--dangerously-skip-permissions"@)
            &&& !bypass ==> stands_with(args, "--permission-prompt-tool"@, "stdio"@)
            &&& stands_with(args, "--input-format"@, "stream-json"@)
            &&& stands_with(args, "--output-format"@, "stream-json"@)
        }),
{
    let args = claude_args(thread, cwd, model, prompt, resume, bypass);
    let at = if bypass {
        8int
    } else {
        9int
    };
    assert(args[1] == "--input-format"@ && args[2] == "stream-json"@);
    assert(args[3] == "--output-format"@ && args[4] == "stream-json"@);
    if bypass {
        assert(args[7] == "--dangerously-skip-permissions"@);
    } else {
        assert(args[7] == "--permission-prompt-tool"@ && args[8] == "stdio"@);
    }
    assert(args[at] == "--add-dir"@ && args[at + 1] == cwd);
    assert(args[at + 2] == (if resume {
        "--resume"@
    } else {
        "--session-id"@
    }) && args[at + 3] == thread);
    let next = if model is Some {
        at + 6
    } else {
        at + 4
    };
    if model is Some {
        assert(args[at + 4] == "--model"@ && args[at + 5] == model->Some_0);
    }
    if prompt is Some {
        assert(args[next] == "--append-system-prompt"@ && args[next + 1] == prompt->Some_0);
    }
}

/// A program that asks for permission is never started to skip it.
pub proof fn law_permissions_are_not_skipped_by_accident(
    thread: Seq<char>,
    cwd: Seq<char>,
    resume: bool,
)
    requires
        thread != "--dangerously-skip-permissions"@,
        cwd != "--dangerously-skip-permissions"@,
    ensures
        !claude_args(thread, cwd, None, None, resume, false).contains(
            "--dangerously-skip-permissions"@,
        ),
{
    let args = claude_args(thread, cwd, None, None, resume, false);
    let bad = "--dangerously-skip-permissions"@;
    reveal_strlit("--dangerously-skip-permissions");
    reveal_strlit("-p");
    reveal_strlit("--input-format");
    reveal_strlit("stream-json");
    reveal_strlit("--output-format");
    reveal_strlit("--include-partial-messages");
    reveal_strlit("--verbose");
    reveal_strlit("--permission-prompt-tool");
    reveal_strlit("stdio");
    reveal_strlit("--add-dir");
    reveal_strlit("--resume");
    reveal_strlit("--session-id");
    assert(bad.len() == 30);
    if args.contains(bad) {
        let i = choose|i: int| 0 <= i < args.len() && args[i] == bad;
        assert(args.len() == 13);
        assert(args[i].len() == 30);
        assert(args[12] == thread && args[10] == cwd);
        assert(false);
    }
}

/// No effort is no budget, and every other effort has one.
pub proof fn law_effort_means_a_budget(e: ReasoningEffort)
    ensures
        thinking_budget(e) == 0 <==> e == ReasoningEffort::Off,
        e == ReasoningEffort::Medium ==> thinking_budget(e) == 4 * thinking_budget(
            ReasoningEffort::Low,
        ),
        e == ReasoningEffort::High ==> thinking_budget(e) == 2 * thinking_budget(
            ReasoningEffort::Medium,
        ),
{
}

// ---------------------------------------------------------------------------
// What the program is told
// ---------------------------------------------------------------------------
proof fn lemma_control_keys()
    ensures
        tag("type"@) == (4nat, 't', 'y'),
        tag("request_id"@) == (10nat, 'r', 'e'),
        tag("request"@) == (7nat, 'r', 'e'),
        tag("subtype"@) == (7nat, 's', 'u'),
        tag("model"@) == (5nat, 'm', 'o'),
        tag("max_thinking_tokens"@) == (19nat, 'm', 'a'),
        tag("mode"@) == (4nat, 'm', 'o'),
{
    reveal_strlit("type");
    reveal_strlit("request_id");
    reveal_strlit("request");
    reveal_strlit("subtype");
    reveal_strlit("model");
    reveal_strlit("max_thinking_tokens");
    reveal_strlit("mode");
}

/// A control request goes out under its id, says what kind it is, and carries its value.
pub proof fn law_control_requests_say_what_they_want(id: Seq<char>, c: ControlV)
    ensures
        ({
            let j = control_envelope(id, c);
            &&& j.str_at("type"@) == Some("control_request"@)
            &&& j.str_at("request_id"@) == Some(id)
            &&& c is Interrupt ==> j.str_at2("request"@, "subtype"@) == Some("interrupt"@)
            &&& c matches ControlV::SetModel { model } ==> j.str_at2("request"@, "subtype"@)
                == Some("set_model"@) && j.str_at2("request"@, "model"@) == Some(model)
            &&& c matches ControlV::SetMaxThinkingTokens { tokens } ==> j.str_at2(
                "request"@,
                "subtype"@,
            ) == Some("set_max_thinking_tokens"@) && j.get2("request"@, "max_thinking_tokens"@)
                == Some(JsonV::Int(tokens as int))
            &&& c matches ControlV::SetPermissionMode { mode } ==> j.str_at2(
                "request"@,
                "subtype"@,
            ) == Some("set_permission_mode"@) && j.str_at2("request"@, "mode"@) == Some(mode)
        }),
{
    lemma_control_keys();
}

/// The program is told only what is wanted and is not so yet, the model first.
pub proof fn law_only_changes_are_told(have: RuntimeV, want: RuntimeV)
    ensures
        next_setter(have, want) matches Some(ControlV::SetModel { model }) ==> want.model == Some(
            model,
        ) && have.model != Some(model),
        next_setter(have, want) matches Some(ControlV::SetMaxThinkingTokens { tokens })
            ==> want.thinking_tokens == Some(tokens) && have.thinking_tokens != Some(tokens),
        next_setter(have, want) matches Some(ControlV::SetPermissionMode { mode })
            ==> want.permission_mode == Some(mode) && have.permission_mode != Some(mode),
        next_setter(have, want) != Some(ControlV::Interrupt),
        want.model is Some && want.model != have.model ==> (next_setter(have, want) matches Some(
            ControlV::SetModel { .. },
        )),
        want.model is None && want.thinking_tokens is None && want.permission_mode is None
            ==> next_setter(have, want) is None,
{
}

/// What was wanted is what the program runs with in the end, and what was not is as before.
pub proof fn law_wants_are_laid_over(have: RuntimeV, want: RuntimeV)
    ensures
        want.model is Some ==> overlaid(have, want).model == want.model,
        want.model is None ==> overlaid(have, want).model == have.model,
        want.thinking_tokens is Some ==> overlaid(have, want).thinking_tokens
            == want.thinking_tokens,
        want.thinking_tokens is None ==> overlaid(have, want).thinking_tokens
            == have.thinking_tokens,
        want.permission_mode is Some ==> overlaid(have, want).permission_mode
            == want.permission_mode,
        want.permission_mode is None ==> overlaid(have, want).permission_mode
            == have.permission_mode,
        after_setter(have, ControlV::Interrupt) == have,
{
}

// ---------------------------------------------------------------------------
// What its messages mean
// ---------------------------------------------------------------------------
proof fn lemma_message_types()
    ensures
        tag("system"@) == (6nat, 's', 'y'),
        tag("rate_limit_event"@) == (16nat, 'r', 'a'),
        tag("control_request"@) == (15nat, 'c', 'o'),
        tag("control_response"@) == (16nat, 'c', 'o'),
        tag("result"@) == (6nat, 'r', 'e'),
        tag("success"@) == (7nat, 's', 'u'),
        tag("error"@) == (5nat, 'e', 'r'),
{
    reveal_strlit("system");
    reveal_strlit("rate_limit_event");
    reveal_strlit("control_request");
    reveal_strlit("control_response");
    reveal_strlit("result");
    reveal_strlit("success");
    reveal_strlit("error");
}

/// A message means what its type says: the end of a turn, a request, news of limits, or
/// an introduction. A message without a type means nothing, and one of another type is
/// passed on.
pub proof fn law_messages_mean_what_their_type_says(v: JsonV, t: Seq<char>)
    ensures
        v.get("type"@) is None ==> meaning(v) is None,
        v.get("type"@) == Some(JsonV::Str("rate_limit_event"@)) ==> meaning(v) == Some(
            OutboundV::RateLimitEvent(v),
        ),
        v.get("type"@) == Some(JsonV::Str("control_request"@)) ==> meaning(v) == Some(
            OutboundV::ControlRequest(v),
        ),
        v.get("type"@) == Some(JsonV::Str("system"@)) && v.get("subtype"@) == Some(
            JsonV::Str("init"@),
        ) ==> meaning(v) == Some(OutboundV::Init(v)),
        v.get("type"@) == Some(JsonV::Str("system"@)) && v.get("subtype"@) != Some(
            JsonV::Str("init"@),
        ) ==> meaning(v) == Some(OutboundV::Other(v)),
        v.get("type"@) == Some(JsonV::Str(t)) && t != "system"@ && t != "rate_limit_event"@ && t
            != "control_request"@ && t != "control_response"@ && t != "result"@ ==> meaning(v)
            == Some(OutboundV::Other(v)),
{
    lemma_message_types();
}

/// The end of a turn says how it went: its kind, its words, and that it was an error only
/// if it says so.
pub proof fn law_results_are_read(v: JsonV, subtype: Seq<char>)
    requires
        v.get("type"@) == Some(JsonV::Str("result"@)),
        v.get("subtype"@) == Some(JsonV::Str(subtype)),
    ensures
        meaning(v) matches Some(OutboundV::Result { subtype: kind, is_error, result, .. }) && {
            &&& kind == subtype
            &&& is_error <==> v.get("is_error"@) == Some(JsonV::Bool(true))
            &&& v.get("result"@) matches Some(JsonV::Str(r)) ==> result == Some(r)
            &&& v.get("result"@) is None ==> result is None
        },
{
    lemma_message_types();
}

/// An answer to a control request reaches it by its id: a success with what it brings, or
/// an error with its words.
pub proof fn law_control_answers_are_read(v: JsonV, inner: JsonV, id: Seq<char>)
    requires
        v.get("type"@) == Some(JsonV::Str("control_response"@)),
        v.get("response"@) == Some(inner),
        inner.get("request_id"@) == Some(JsonV::Str(id)),
    ensures
        inner.get("subtype"@) == Some(JsonV::Str("success"@)) ==> meaning(v) == Some(
            OutboundV::ControlResponse {
                request_id: id,
                body: ControlResponseV::Success { response: inner.get("response"@) },
            },
        ),
        inner.get("subtype"@) == Some(JsonV::Str("error"@)) ==> (inner.get("error"@) matches Some(
            JsonV::Str(e),
        ) ==> meaning(v) == Some(
            OutboundV::ControlResponse {
                request_id: id,
                body: ControlResponseV::Error { error: e },
            },
        )),
{
    lemma_message_types();
}

/// A line is read without the blanks around it; a blank line and one that is no JSON say
/// nothing.
pub proof fn law_lines_are_read(line: Seq<char>, v: JsonV)
    ensures
        trimmed(line).len() == 0 ==> message_in(line) is None,
        parsed(trimmed(line)) is None ==> message_in(line) is None,
        trimmed(line).len() > 0 && parsed(trimmed(line)) == Some(v) ==> message_in(line)
            == meaning(v),
{
}

/// Only answers to requests that wait are answers, and a message changes nothing else:
/// an introduction is remembered, an answer takes its own request out, and everything
/// else leaves the program as it is.
pub proof fn law_messages_change_little(h: HandleV, m: OutboundV, other: Seq<char>)
    ensures
        is_answer(m, h.pending) ==> m is ControlResponse,
        m matches OutboundV::ControlResponse { request_id, .. } ==> (is_answer(m, h.pending)
            <==> h.pending.contains(request_id)),
        m matches OutboundV::ControlResponse { request_id, .. } ==> (other != request_id ==> (
        after_message(h, m).pending.contains(other) <==> h.pending.contains(other))),
        m matches OutboundV::ControlResponse { request_id, .. } ==> !after_message(
            h,
            m,
        ).pending.contains(request_id),
        m matches OutboundV::Init(j) ==> after_message(h, m).init == Some(j),
        m !is Init ==> after_message(h, m).init == h.init,
        m !is ControlResponse ==> after_message(h, m).pending == h.pending,
        after_message(h, m).runtime == h.runtime,
        after_message(h, m).thread_id == h.thread_id,
        after_message(h, m).cwd == h.cwd,
{
}

} // verus!
