//! Laws of user input and fixed answers on the wire.

use vstd::prelude::*;

use super::answers::{
    config_written, empty_page, key_account, key_login, no_login, no_rate_limits, skill_enabled,
};
use super::command_exec::exec_json;
use super::notifications::{ToolRequestUserInputAnswer, answers_json};
use super::thread::{UserInputV, input_in, inputs_in, user_input_json};
use crate::json::{JsonV, ToJson};
use crate::text::tag;

verus! {

proof fn lemma_input_keys()
    ensures
        tag("type"@) == (4nat, 't', 'y'),
        tag("text"@) == (4nat, 't', 'e'),
        tag("text_elements"@) == (13nat, 't', 'e'),
        tag("url"@) == (3nat, 'u', 'r'),
        tag("path"@) == (4nat, 'p', 'a'),
        tag("name"@) == (4nat, 'n', 'a'),
{
    reveal_strlit("type");
    reveal_strlit("text");
    reveal_strlit("text_elements");
    reveal_strlit("url");
    reveal_strlit("path");
    reveal_strlit("name");
}

/// A piece of user input on the wire says what it is and holds each of its parts under
/// its own name; elements of a text are written only where there are some.
pub proof fn law_input_on_the_wire(u: UserInputV)
    ensures
        ({
            let j = user_input_json(u);
            &&& u matches UserInputV::Text { text, text_elements } ==> j.str_at("type"@) == Some(
                "text"@,
            ) && j.str_at("text"@) == Some(text) && (text_elements.len() > 0 ==> j.array_at(
                "text_elements"@,
            ) == Some(text_elements)) && (text_elements.len() == 0 ==> j.get("text_elements"@)
                is None)
            &&& u matches UserInputV::Image { url } ==> j.str_at("type"@) == Some("image"@)
                && j.str_at("url"@) == Some(url)
            &&& u matches UserInputV::LocalImage { path } ==> j.str_at("type"@) == Some(
                "localImage"@,
            ) && j.str_at("path"@) == Some(path)
            &&& u matches UserInputV::Skill { name, path } ==> j.str_at("type"@) == Some("skill"@)
                && j.str_at("name"@) == Some(name) && j.str_at("path"@) == Some(path)
            &&& u matches UserInputV::Mention { name, path } ==> j.str_at("type"@) == Some(
                "mention"@,
            ) && j.str_at("name"@) == Some(name) && j.str_at("path"@) == Some(path)
        }),
{
    lemma_input_keys();
}

/// Input is read piece by piece, in order, and not at all if one piece cannot be read.
pub proof fn law_input_is_read_whole(a: Seq<JsonV>, i: int)
    requires
        0 <= i < a.len(),
    ensures
        inputs_in(a) matches Some(s) ==> s.len() == a.len() && input_in(a[i]) == Some(s[i]),
        input_in(a[i]) is None ==> inputs_in(a) is None,
        (forall|j: int| 0 <= j < a.len() ==> input_in(#[trigger] a[j]) is Some) ==> inputs_in(a)
            is Some,
    decreases a.len(),
{
    let t = a.drop_last();
    if t.len() > 0 {
        let k = if i < t.len() {
            i
        } else {
            0
        };
        law_input_is_read_whole(t, k);
        assert(t[k] == a[k]);
        if forall|j: int| 0 <= j < a.len() ==> input_in(#[trigger] a[j]) is Some {
            assert forall|j: int| 0 <= j < t.len() implies input_in(#[trigger] t[j]) is Some by {
                assert(t[j] == a[j]);
            }
            assert(input_in(a[a.len() - 1]) is Some);
        }
    } else {
        assert(inputs_in(t) == Some(Seq::<UserInputV>::empty()));
        assert(a.last() == a[0]);
    }
}

proof fn lemma_answer_keys()
    ensures
        tag("data"@) == (4nat, 'd', 'a'),
        tag("nextCursor"@) == (10nat, 'n', 'e'),
        tag("account"@) == (7nat, 'a', 'c'),
        tag("type"@) == (4nat, 't', 'y'),
        tag("requiresOpenaiAuth"@) == (18nat, 'r', 'e'),
        tag("status"@) == (6nat, 's', 't'),
        tag("rateLimits"@) == (10nat, 'r', 'a'),
        tag("version"@) == (7nat, 'v', 'e'),
        tag("filePath"@) == (8nat, 'f', 'i'),
        tag("overriddenMetadata"@) == (18nat, 'o', 'v'),
        tag("effectiveEnabled"@) == (16nat, 'e', 'f'),
{
    reveal_strlit("data");
    reveal_strlit("nextCursor");
    reveal_strlit("account");
    reveal_strlit("type");
    reveal_strlit("requiresOpenaiAuth");
    reveal_strlit("status");
    reveal_strlit("rateLimits");
    reveal_strlit("version");
    reveal_strlit("filePath");
    reveal_strlit("overriddenMetadata");
    reveal_strlit("effectiveEnabled");
}

/// Fixed answers say what they say: a page without entries, an account with a key that
/// needs no other login, nothing to cancel, no limits, and a configuration that was
/// written where it was.
pub proof fn law_fixed_answers(version: Seq<char>, path: Seq<char>, enabled: bool)
    ensures
        empty_page().array_at("data"@) == Some(Seq::<JsonV>::empty()),
        empty_page().get("nextCursor"@) == Some(JsonV::Null),
        key_account().str_at2("account"@, "type"@) == Some("apiKey"@),
        key_account().bool_at("requiresOpenaiAuth"@) == Some(false),
        key_login().str_at("type"@) == Some("apiKey"@),
        no_login().str_at("status"@) == Some("notFound"@),
        no_rate_limits().get("rateLimits"@) == Some(JsonV::object()),
        config_written(version, path).str_at("status"@) == Some("ok"@),
        config_written(version, path).str_at("version"@) == Some(version),
        config_written(version, path).str_at("filePath"@) == Some(path),
        config_written(version, path).get("overriddenMetadata"@) == Some(JsonV::Null),
        skill_enabled(enabled).bool_at("effectiveEnabled"@) == Some(enabled),
{
    lemma_answer_keys();
}

/// The end of a command shows its code and what it wrote, each where it wrote it.
pub proof fn law_commands_show_their_output(code: int, out: Seq<char>, err: Seq<char>)
    ensures
        exec_json(code, out, err).get("exitCode"@) == Some(JsonV::Int(code)),
        exec_json(code, out, err).str_at("stdout"@) == Some(out),
        exec_json(code, out, err).str_at("stderr"@) == Some(err),
{
    reveal_strlit("exitCode");
    reveal_strlit("stdout");
    reveal_strlit("stderr");
    assert("exitCode"@.len() == 8 && "stdout"@.len() == 6 && "stderr"@.len() == 6);
    assert("stdout"@[3] == 'o' && "stderr"@[3] == 'e');
}

/// Every question has its answer under its id; of two answers the last counts.
pub proof fn law_questions_have_their_answers(
    s: Seq<(String, ToolRequestUserInputAnswer)>,
    q: (String, ToolRequestUserInputAnswer),
    other: Seq<char>,
)
    ensures
        answers_json(s) is Obj,
        answers_json(s.push(q)).get(q.0@) == Some(q.1.json()),
        other != q.0@ ==> answers_json(s.push(q)).get(other) == answers_json(s).get(other),
    decreases s.len(),
{
    assert(s.push(q).drop_last() =~= s);
    if s.len() > 0 {
        law_questions_have_their_answers(s.drop_last(), s.last(), other);
        assert(s.drop_last().push(s.last()) =~= s);
    }
}

} // verus!
