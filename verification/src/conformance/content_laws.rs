//! Laws of the checks of content: a rule of a method is found broken exactly where it is.

use vstd::prelude::*;

use super::divergence::{DivergenceV, step_method};
use super::finding::FindingV;
use super::semantics::{
    ContextV, catalog_findings, ignored_interrupt, item_mentions, mentions, ran_tool,
    response_findings, responses_findings, streams_reply, turn_findings, upheld,
};
use super::transcript::{FrameKind, FrameV};
use crate::json::JsonV;
use crate::text::has_text;

verus! {

// ---------------------------------------------------------------------------
// Responses
// ---------------------------------------------------------------------------
/// Length and eighth character of a text; texts with different marks differ.
spec fn mark(s: Seq<char>) -> (nat, char) {
    (s.len(), s[7])
}

proof fn lemma_step_names()
    ensures
        mark("initialize"@) == (10nat, 'i'),
        mark("model/list"@) == (10nat, 'i'),
        mark("thread/list"@) == (11nat, 'l'),
        mark("thread/list.disposable"@) == (22nat, 'l'),
        mark("thread/list.archived"@) == (20nat, 'l'),
        mark("thread/list.unarchived"@) == (22nat, 'l'),
        mark("thread/start"@) == (12nat, 's'),
        mark("thread/start.disposable"@) == (23nat, 's'),
        mark("thread/resume"@) == (13nat, 'r'),
        mark("thread/read"@) == (11nat, 'r'),
        mark("thread/read.afterTool"@) == (21nat, 'r'),
        mark("thread/fork"@) == (11nat, 'f'),
        mark("thread/rollback"@) == (15nat, 'r'),
        mark("thread/turns/list"@) == (17nat, 't'),
        mark("thread/loaded/list"@) == (18nat, 'l'),
        mark("command/exec"@) == (12nat, '/'),
        mark("command/exec.streaming"@) == (22nat, '/'),
        "thread/list.disposable"@ != "thread/list.unarchived"@,
        "initialize"@ != "model/list"@,
{
    reveal_strlit("initialize");
    reveal_strlit("model/list");
    reveal_strlit("thread/list");
    reveal_strlit("thread/list.disposable");
    reveal_strlit("thread/list.archived");
    reveal_strlit("thread/list.unarchived");
    reveal_strlit("thread/start");
    reveal_strlit("thread/start.disposable");
    reveal_strlit("thread/resume");
    reveal_strlit("thread/read");
    reveal_strlit("thread/read.afterTool");
    reveal_strlit("thread/fork");
    reveal_strlit("thread/rollback");
    reveal_strlit("thread/turns/list");
    reveal_strlit("thread/loaded/list");
    reveal_strlit("command/exec");
    reveal_strlit("command/exec.streaming");
    assert("initialize"@[0] == 'i' && "model/list"@[0] == 'm');
    assert("thread/list.disposable"@[12] == 'd');
    assert("thread/list.unarchived"@[12] == 'u');
}

/// A response of a step that came through.
pub open spec fn came_through(f: FrameV, step: Seq<char>, result: JsonV) -> bool {
    &&& f.kind == FrameKind::Response
    &&& f.step == step
    &&& f.raw.get("error"@) is None
    &&& f.raw.get("result"@) == Some(result)
}

/// A text with something in it stands under a name.
pub open spec fn says(v: JsonV, key: Seq<char>) -> bool {
    v.get(key) matches Some(JsonV::Str(s)) && s.len() > 0
}

/// Notifications and refusals break no rule of a method.
pub proof fn law_refusals_break_no_rule(f: FrameV, ctx: ContextV)
    requires
        f.kind == FrameKind::Notification || f.raw.get("error"@) is Some,
    ensures
        response_findings(f, ctx).len() == 0,
{
}

/// A server that introduces itself is found wanting exactly if it does not say its name,
/// its directory or its system.
pub proof fn law_introduction_rule(f: FrameV, ctx: ContextV, v: JsonV)
    requires
        came_through(f, "initialize"@, v),
    ensures
        response_findings(f, ctx).len() == 0 <==> says(v, "userAgent"@) && says(v, "codexHome"@)
            && says(v, "platformOs"@),
{
    lemma_step_names();
}

/// A catalog is found wanting exactly if it is none, is empty, or has a model without an
/// id or a name.
pub proof fn law_catalog_rule(f: FrameV, ctx: ContextV, v: JsonV)
    requires
        came_through(f, "model/list"@, v),
    ensures
        v.get("data"@) matches Some(JsonV::Arr(data)) ==> (response_findings(f, ctx).len() == 0
            <==> data.len() > 0 && forall|i: int|
            0 <= i < data.len() ==> says(#[trigger] data[i], "id"@) && says(
                data[i],
                "displayName"@,
            )),
        !(v.get("data"@) matches Some(JsonV::Arr(_))) ==> response_findings(f, ctx).len() > 0,
{
    lemma_step_names();
    if let Some(JsonV::Arr(data)) = v.get("data"@) {
        lemma_catalog(f, data);
    }
}

proof fn lemma_catalog(f: FrameV, data: Seq<JsonV>)
    ensures
        catalog_findings(f, data).len() == 0 <==> forall|i: int|
            0 <= i < data.len() ==> says(#[trigger] data[i], "id"@) && says(
                data[i],
                "displayName"@,
            ),
    decreases data.len(),
{
    if data.len() > 0 {
        let t = data.drop_last();
        lemma_catalog(f, t);
        let good = says(data.last(), "id"@) && says(data.last(), "displayName"@);
        if catalog_findings(f, data).len() == 0 {
            assert forall|i: int| 0 <= i < data.len() implies says(#[trigger] data[i], "id"@)
                && says(data[i], "displayName"@) by {
                if i < t.len() {
                    assert(says(t[i], "id"@));
                }
            }
        }
        if forall|i: int|
            0 <= i < data.len() ==> says(#[trigger] data[i], "id"@) && says(
                data[i],
                "displayName"@,
            ) {
            assert(says(data[data.len() - 1], "id"@));
            assert forall|i: int| 0 <= i < t.len() implies says(#[trigger] t[i], "id"@) && says(
                t[i],
                "displayName"@,
            ) by {
                assert(says(data[i], "id"@));
            }
        }
    }
}

/// A list has to be one.
pub proof fn law_list_rule(f: FrameV, ctx: ContextV, v: JsonV)
    requires
        came_through(f, "thread/list"@, v) || came_through(f, "thread/loaded/list"@, v),
    ensures
        response_findings(f, ctx).len() == 0 <==> v.get("data"@) matches Some(JsonV::Arr(_)),
{
    lemma_step_names();
}

/// The thread of the scenario has to be on the list, before it is archived, among the
/// archived ones, and after it was taken out again.
pub proof fn law_listed_rule(f: FrameV, ctx: ContextV, v: JsonV, id: Seq<char>)
    requires
        came_through(f, "thread/list.disposable"@, v) || came_through(
            f,
            "thread/list.archived"@,
            v,
        ) || came_through(f, "thread/list.unarchived"@, v),
        ctx.disposable_thread_id == Some(id),
    ensures
        v.get("data"@) matches Some(JsonV::Arr(data)) ==> (response_findings(f, ctx).len() == 0
            <==> exists|i: int|
            0 <= i < data.len() && (#[trigger] data[i]).get("id"@) == Some(JsonV::Str(id))),
        !(v.get("data"@) matches Some(JsonV::Arr(_))) ==> response_findings(f, ctx).len() > 0,
{
    lemma_step_names();
    if let Some(JsonV::Arr(data)) = v.get("data"@) {
        assert(super::semantics::result_data(f) == Some(data));
        assert(super::semantics::lists_thread(data, id) <==> exists|i: int|
            0 <= i < data.len() && (#[trigger] data[i]).get("id"@) == Some(JsonV::Str(id))) by {
            if super::semantics::lists_thread(data, id) {
                let i = choose|i: int|
                    0 <= i < data.len() && (#[trigger] data[i]).str_at("id"@) == Some(id);
                assert(data[i].get("id"@) == Some(JsonV::Str(id)));
            }
            if exists|i: int|
                0 <= i < data.len() && (#[trigger] data[i]).get("id"@) == Some(JsonV::Str(id)) {
                let i = choose|i: int|
                    0 <= i < data.len() && (#[trigger] data[i]).get("id"@) == Some(
                        JsonV::Str(id),
                    );
                assert(data[i].str_at("id"@) == Some(id));
            }
        }
    }
}

/// A thread that is started has to have an id, one that is resumed has to keep the one
/// that it had, and one that is forked has to have one of its own.
pub proof fn law_thread_id_rules(f: FrameV, ctx: ContextV, v: JsonV, t: JsonV)
    requires
        v.get("thread"@) == Some(t),
    ensures
        came_through(f, "thread/start"@, v) || came_through(f, "thread/start.disposable"@, v) ==> (
        response_findings(f, ctx).len() == 0 <==> says(t, "id"@)),
        came_through(f, "thread/resume"@, v) ==> (ctx.thread_id matches Some(id) ==> (
        response_findings(f, ctx).len() == 0 <==> t.get("id"@) == Some(JsonV::Str(id)))),
        came_through(f, "thread/fork"@, v) ==> (ctx.disposable_thread_id matches Some(id) ==> (
        response_findings(f, ctx).len() == 0 <==> says(t, "id"@) && t.get("id"@) != Some(
            JsonV::Str(id),
        ))),
{
    lemma_step_names();
}

/// A thread that is read back has to show its turns: after the first turn the prompt or
/// the reply, after the tool both turns and the marker.
pub proof fn law_history_rules(f: FrameV, ctx: ContextV, v: JsonV, t: JsonV, turns: Seq<JsonV>)
    requires
        v.get("thread"@) == Some(t),
        t.get("turns"@) == Some(JsonV::Arr(turns)),
    ensures
        came_through(f, "thread/read"@, v) ==> (response_findings(f, ctx).len() == 0 <==> turns.len()
            > 0 && ((exists|i: int|
            0 <= i < turns.len() && mentions(#[trigger] turns[i], ctx.simple_prompt))
            || item_mentions(turns, Some("agentMessage"@), ctx.expected_simple_reply))),
        came_through(f, "thread/read.afterTool"@, v) ==> (response_findings(f, ctx).len() == 0
            <==> turns.len() >= 2 && item_mentions(turns, None, ctx.marker_token)),
        came_through(f, "thread/rollback"@, v) ==> (ctx.rollback_before_turns matches Some(n) ==> (
        response_findings(f, ctx).len() == 0 <==> turns.len() < n)),
{
    lemma_step_names();
}

/// A page of turns has to have one.
pub proof fn law_page_rule(f: FrameV, ctx: ContextV, v: JsonV)
    requires
        came_through(f, "thread/turns/list"@, v),
    ensures
        response_findings(f, ctx).len() == 0 <==> (v.get("data"@) matches Some(JsonV::Arr(data))
            && data.len() > 0),
{
    lemma_step_names();
}

/// A command has to end well with the output that it is known to have, and one that was
/// terminated has to end badly.
pub proof fn law_command_rules(f: FrameV, ctx: ContextV, v: JsonV, code: int, out: Seq<char>)
    requires
        i64::MIN <= code <= i64::MAX,
        v.get("exitCode"@) == Some(JsonV::Int(code)),
        v.get("stdout"@) == Some(JsonV::Str(out)),
    ensures
        came_through(f, "command/exec"@, v) ==> (response_findings(f, ctx).len() == 0 <==> code == 0
            && out == ctx.expected_command_stdout),
        came_through(f, "command/exec.streaming"@, v) ==> (response_findings(f, ctx).len() == 0
            <==> code != 0),
{
    lemma_step_names();
}

/// What is found in a response is a broken rule, in the step of the response.
pub proof fn law_rules_are_broken_in_their_step(f: FrameV, ctx: ContextV, i: int)
    requires
        0 <= i < response_findings(f, ctx).len(),
    ensures
        response_findings(f, ctx)[i] is SemanticViolation,
        response_findings(f, ctx)[i].step() == f.step,
{
    lemma_step_names();
    if f.step == "model/list"@ && super::semantics::result_data(f) is Some {
        let data = super::semantics::result_data(f)->Some_0;
        if data.len() > 0 {
            lemma_catalog_step(f, data, i);
        }
    }
}

proof fn lemma_catalog_step(f: FrameV, data: Seq<JsonV>, i: int)
    requires
        0 <= i < catalog_findings(f, data).len(),
    ensures
        catalog_findings(f, data)[i] is SemanticViolation,
        catalog_findings(f, data)[i].step() == f.step,
    decreases data.len(),
{
    if data.len() > 0 {
        let t = catalog_findings(f, data.drop_last());
        if i < t.len() {
            lemma_catalog_step(f, data.drop_last(), i);
        }
    }
}

/// What is found in a list of frames is what is found in each, in order.
pub proof fn law_responses_are_checked_in_order(
    a: Seq<FrameV>,
    b: Seq<FrameV>,
    f: FrameV,
    ctx: ContextV,
)
    ensures
        responses_findings(a + b, ctx) == responses_findings(a, ctx) + responses_findings(b, ctx),
        responses_findings(seq![f], ctx) == response_findings(f, ctx),
    decreases b.len(),
{
    let one = seq![f];
    assert(one.drop_last() =~= Seq::empty());
    assert(one.last() == f);
    assert(responses_findings(one.drop_last(), ctx) =~= Seq::empty());
    assert(responses_findings(one, ctx) =~= response_findings(f, ctx));
    if b.len() == 0 {
        assert(a + b =~= a);
        assert(responses_findings(b, ctx) =~= Seq::empty());
        assert(responses_findings(a, ctx) + responses_findings(b, ctx) =~= responses_findings(
            a,
            ctx,
        ));
    } else {
        law_responses_are_checked_in_order(a, b.drop_last(), f, ctx);
        assert((a + b).drop_last() =~= a + b.drop_last());
        assert((a + b).last() == b.last());
        assert(responses_findings(a + b, ctx) =~= responses_findings(a, ctx) + responses_findings(
            b,
            ctx,
        ));
    }
}

/// Whether a rule is known to be broken: by its method, by its step, or by the method
/// that its step is named after.
pub open spec fn known_gap(f: FindingV, d: DivergenceV) -> bool {
    ||| d.skipped_methods.contains(f.method())
    ||| d.skipped_steps.contains(f.step())
    ||| d.semantic_relaxed_methods.contains(f.method())
    ||| d.semantic_relaxed_methods.contains(f.step())
    ||| d.semantic_relaxed_methods.contains(step_method(f.step()))
}

/// Exactly the known gaps are let pass, and what remains keeps its order.
pub proof fn law_only_known_gaps_are_let_pass(
    a: Seq<FindingV>,
    b: Seq<FindingV>,
    f: FindingV,
    d: DivergenceV,
)
    ensures
        upheld(a + b, d) == upheld(a, d) + upheld(b, d),
        known_gap(f, d) ==> upheld(seq![f], d) == Seq::<FindingV>::empty(),
        !known_gap(f, d) ==> upheld(seq![f], d) == seq![f],
    decreases b.len(),
{
    let one = seq![f];
    assert(one.drop_last() =~= Seq::empty());
    assert(one.last() == f);
    assert(upheld(one.drop_last(), d) =~= Seq::empty());
    if !known_gap(f, d) {
        assert(upheld(one, d) =~= seq![f]);
    }
    if b.len() == 0 {
        assert(a + b =~= a);
        assert(upheld(b, d) =~= Seq::empty());
        assert(upheld(a, d) + upheld(b, d) =~= upheld(a, d));
    } else {
        law_only_known_gaps_are_let_pass(a, b.drop_last(), f, d);
        assert((a + b).drop_last() =~= a + b.drop_last());
        assert((a + b).last() == b.last());
        assert(upheld(a + b, d) =~= upheld(a, d) + upheld(b, d));
    }
}

// ---------------------------------------------------------------------------
// Values
// ---------------------------------------------------------------------------
/// A text mentions what stands in it; numbers, truth values and nothing mention nothing,
/// and nothing mentions the empty text.
pub proof fn law_texts_mention_what_they_hold(s: Seq<char>, n: int, b: bool, needle: Seq<char>)
    ensures
        mentions(JsonV::Str(s), needle) <==> needle.len() > 0 && has_text(s, needle),
        !mentions(JsonV::Int(n), needle),
        !mentions(JsonV::Bool(b), needle),
        !mentions(JsonV::Null, needle),
{
}

/// A list mentions only what one of its elements mentions, and an object only what one of
/// its members mentions.
pub proof fn law_mentions_come_from_inside(
    a: Seq<JsonV>,
    m: Map<Seq<char>, JsonV>,
    needle: Seq<char>,
)
    ensures
        mentions(JsonV::Arr(a), needle) ==> exists|i: int|
            0 <= i < a.len() && mentions(#[trigger] a[i], needle),
        mentions(JsonV::Obj(m), needle) ==> exists|k: Seq<char>| #[trigger]
            m.dom().contains(k) && mentions(m[k], needle),
{
}

// ---------------------------------------------------------------------------
// Turns
// ---------------------------------------------------------------------------
/// A notification of a method in a step about a value.
pub open spec fn tells(f: FrameV, step: Seq<char>, method: Seq<char>, params: JsonV) -> bool {
    &&& f.kind == FrameKind::Notification
    &&& f.step == step
    &&& f.method == method
    &&& f.raw.get("params"@) == Some(params)
}

/// A message that is started, grows and ends with the reply in it, all under one id, is a
/// streamed reply.
pub proof fn law_streamed_reply_is_seen(
    s: Seq<FrameV>,
    ctx: ContextV,
    i: int,
    j: int,
    k: int,
    id: Seq<char>,
    start: JsonV,
    delta: JsonV,
    end: JsonV,
    first: JsonV,
    last: JsonV,
)
    requires
        0 <= i < s.len(),
        0 <= j < s.len(),
        0 <= k < s.len(),
        tells(s[i], "turn/start"@, "item/started"@, start),
        start.get("item"@) == Some(first),
        first.get("type"@) == Some(JsonV::Str("agentMessage"@)),
        first.get("id"@) == Some(JsonV::Str(id)),
        tells(s[j], "turn/start"@, "item/agentMessage/delta"@, delta),
        delta.get("itemId"@) == Some(JsonV::Str(id)),
        tells(s[k], "turn/start"@, "item/completed"@, end),
        end.get("item"@) == Some(last),
        last.get("type"@) == Some(JsonV::Str("agentMessage"@)),
        last.get("id"@) == Some(JsonV::Str(id)),
        mentions(last, ctx.expected_simple_reply),
    ensures
        streams_reply(s, ctx.expected_simple_reply),
        forall|n: int|
            0 <= n < turn_findings(s, ctx).len() ==> (#[trigger] turn_findings(s, ctx)[n]).step()
                != "turn/start"@,
{
    reveal_strlit("turn/start");
    reveal_strlit("turn/start.tool");
    reveal_strlit("turn/interrupt");
    assert("turn/start"@.len() == 10 && "turn/start.tool"@.len() == 15);
    assert("turn/interrupt"@.len() == 14);
    assert(super::semantics::message_id(s[i], "item/started"@) == Some(id));
    assert(super::semantics::delta_id(s[j]) == Some(id));
    assert(super::semantics::ends_with_reply(s[k], id, ctx.expected_simple_reply));
}

/// A first turn without a delta has no streamed reply, and neither has one whose messages
/// never mention the reply at their end; both are found.
pub proof fn law_missing_reply_is_found(s: Seq<FrameV>, ctx: ContextV)
    requires
        (forall|j: int|
            0 <= j < s.len() ==> !((#[trigger] s[j]).kind == FrameKind::Notification && s[j].step
                == "turn/start"@ && s[j].method == "item/agentMessage/delta"@)) || (forall|k: int|
            0 <= k < s.len() && (#[trigger] s[k]).method == "item/completed"@ ==> !mentions(
                s[k].raw.get2("params"@, "item"@)->Some_0,
                ctx.expected_simple_reply,
            )),
    ensures
        !streams_reply(s, ctx.expected_simple_reply),
        turn_findings(s, ctx).len() > 0,
        turn_findings(s, ctx)[0].step() == "turn/start"@,
{
    if streams_reply(s, ctx.expected_simple_reply) {
        let (i, j, k) = choose|i: int, j: int, k: int|
            #![trigger s[i], s[j], s[k]]
            0 <= i < s.len() && 0 <= j < s.len() && 0 <= k < s.len()
                && super::semantics::message_id(s[i], "item/started"@) is Some
                && super::semantics::delta_id(s[j]) == super::semantics::message_id(
                s[i],
                "item/started"@,
            ) && super::semantics::ends_with_reply(
                s[k],
                super::semantics::message_id(s[i], "item/started"@)->Some_0,
                ctx.expected_simple_reply,
            );
        assert(s[j].method == "item/agentMessage/delta"@);
        assert(s[k].method == "item/completed"@);
        assert(false);
    }
}

/// The tool turn is useful exactly if a command ended in it that shows the marker.
pub proof fn law_tool_use_is_seen(s: Seq<FrameV>, marker: Seq<char>)
    ensures
        ran_tool(s, marker) <==> exists|i: int|
            {
                &&& 0 <= i < s.len()
                &&& (#[trigger] s[i]).kind == FrameKind::Notification
                &&& s[i].step == "turn/start.tool"@
                &&& s[i].method == "item/completed"@
                &&& s[i].raw.get2("params"@, "item"@) matches Some(item) && item.str_at("type"@)
                    == Some("commandExecution"@) && mentions(item, marker)
            },
{
    if ran_tool(s, marker) {
        let i = choose|i: int|
            0 <= i < s.len() && super::semantics::notifies(
                #[trigger] s[i],
                "turn/start.tool"@,
                "item/completed"@,
            ) && super::semantics::noted_item(s[i]) is Some && super::semantics::noted_item(
                s[i],
            )->Some_0.str_at("type"@) == Some("commandExecution"@) && mentions(
                super::semantics::noted_item(s[i])->Some_0,
                marker,
            );
        assert(s[i].kind == FrameKind::Notification);
    }
    if exists|i: int|
        {
            &&& 0 <= i < s.len()
            &&& (#[trigger] s[i]).kind == FrameKind::Notification
            &&& s[i].step == "turn/start.tool"@
            &&& s[i].method == "item/completed"@
            &&& s[i].raw.get2("params"@, "item"@) matches Some(item) && item.str_at("type"@)
                == Some("commandExecution"@) && mentions(item, marker)
        } {
        let i = choose|i: int|
            {
                &&& 0 <= i < s.len()
                &&& (#[trigger] s[i]).kind == FrameKind::Notification
                &&& s[i].step == "turn/start.tool"@
                &&& s[i].method == "item/completed"@
                &&& s[i].raw.get2("params"@, "item"@) matches Some(item) && item.str_at("type"@)
                    == Some("commandExecution"@) && mentions(item, marker)
            };
        assert(super::semantics::notifies(s[i], "turn/start.tool"@, "item/completed"@));
    }
}

/// An interruption that is answered has to end the turn: it is found exactly if an answer
/// came and no end did.
pub proof fn law_interrupts_have_to_end_the_turn(s: Seq<FrameV>, ctx: ContextV, i: int, j: int)
    requires
        0 <= i < s.len(),
        s[i].kind == FrameKind::Response,
        s[i].step == "turn/interrupt"@,
    ensures
        0 <= j < s.len() && s[j].kind == FrameKind::Notification && s[j].step
            == "turn/interrupt"@ && s[j].method == "turn/completed"@ ==> !ignored_interrupt(s),
        (forall|k: int| 0 <= k < s.len() ==> (#[trigger] s[k]).method != "turn/completed"@)
            ==> ignored_interrupt(s) && turn_findings(s, ctx).len() > 0 && turn_findings(
            s,
            ctx,
        ).last().step() == "turn/interrupt"@,
{
    if 0 <= j < s.len() {
        assert(super::semantics::notifies(s[j], "turn/interrupt"@, "turn/completed"@) <==> s[j].kind
            == FrameKind::Notification && s[j].step == "turn/interrupt"@ && s[j].method
            == "turn/completed"@);
    }
}

/// Each of the three rules of turns is broken or not by itself.
pub proof fn law_turn_rules_are_independent(s: Seq<FrameV>, ctx: ContextV)
    ensures
        turn_findings(s, ctx).len() == (if streams_reply(s, ctx.expected_simple_reply) {
            0int
        } else {
            1
        }) + (if ran_tool(s, ctx.marker_token) {
            0int
        } else {
            1
        }) + (if ignored_interrupt(s) {
            1int
        } else {
            0
        }),
{
}

} // verus!
