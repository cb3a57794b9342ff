//! Laws of turns: what clients hear, what the log keeps, and how a turn ends.

use vstd::prelude::*;

use super::process::OutboundV;
use super::turn::{
    EffectV, PumpV, answers_object, cut_off, ended_turn, frames_of, heard_of,
    opening_frames, pumped, recorded_items, side_effect, tool_result, wanted,
};
use crate::codex::notifications::ServerNotification;
use crate::codex::thread::{ItemV, TurnStatus};
use crate::json::JsonV;
use crate::rpc::PublicationV;
use crate::text::texts;

verus! {

// ---------------------------------------------------------------------------
// What clients hear
// ---------------------------------------------------------------------------
/// A notification by itself: a client hears it, as it is, exactly if it did not opt out
/// of its method.
pub proof fn law_one_notification(n: ServerNotification, opted_out: Seq<Seq<char>>)
    ensures
        !opted_out.contains(n.name()) ==> frames_of(seq![n], opted_out) == seq![
            PublicationV { method: n.name(), params: n.params_json() },
        ],
        opted_out.contains(n.name()) ==> frames_of(seq![n], opted_out) == Seq::<
            PublicationV,
        >::empty(),
{
    let s = seq![n];
    assert(s.drop_last() =~= Seq::empty());
    assert(s.last() == n);
    assert(frames_of(s.drop_last(), opted_out) =~= Seq::empty());
    assert(frames_of(s, opted_out) =~= (if opted_out.contains(n.name()) {
        Seq::empty()
    } else {
        seq![PublicationV { method: n.name(), params: n.params_json() }]
    }));
}

/// What a client hears of two lists, one after the other, is what it hears of the first
/// and then what it hears of the second.
pub proof fn law_frames_keep_their_order(
    a: Seq<ServerNotification>,
    b: Seq<ServerNotification>,
    opted_out: Seq<Seq<char>>,
)
    ensures
        frames_of(a + b, opted_out) == frames_of(a, opted_out) + frames_of(b, opted_out),
    decreases b.len(),
{
    if b.len() == 0 {
        assert(a + b =~= a);
        assert(frames_of(b, opted_out) =~= Seq::empty());
        assert(frames_of(a, opted_out) + frames_of(b, opted_out) =~= frames_of(a, opted_out));
    } else {
        law_frames_keep_their_order(a, b.drop_last(), opted_out);
        assert((a + b).drop_last() =~= a + b.drop_last());
        assert((a + b).last() == b.last());
        assert(frames_of(a + b, opted_out) =~= frames_of(a, opted_out) + frames_of(b, opted_out));
    }
}

/// If one notification comes before another and a client wants to hear both, it hears
/// the first one first.
pub proof fn law_earlier_is_heard_first(
    s: Seq<ServerNotification>,
    opted_out: Seq<Seq<char>>,
    i: int,
    j: int,
) -> (r: (int, int))
    requires
        0 <= i < j < s.len(),
        !opted_out.contains(s[i].name()),
        !opted_out.contains(s[j].name()),
    ensures
        0 <= r.0 < r.1 < frames_of(s, opted_out).len(),
        frames_of(s, opted_out)[r.0] == (PublicationV {
            method: s[i].name(),
            params: s[i].params_json(),
        }),
        frames_of(s, opted_out)[r.1] == (PublicationV {
            method: s[j].name(),
            params: s[j].params_json(),
        }),
        r.0 == frames_of(s.take(i), opted_out).len(),
        r.1 == frames_of(s.take(j), opted_out).len(),
{
    let p = lemma_heard_at(s, opted_out, i);
    let q = lemma_heard_at(s, opted_out, j);
    let first = lemma_heard_at(s.take(j), opted_out, i);
    assert(s.take(j).take(i) =~= s.take(i));
    (p, q)
}

proof fn lemma_heard_at(s: Seq<ServerNotification>, opted_out: Seq<Seq<char>>, i: int) -> (p: int)
    requires
        0 <= i < s.len(),
        !opted_out.contains(s[i].name()),
    ensures
        p == frames_of(s.take(i), opted_out).len(),
        p < frames_of(s, opted_out).len(),
        frames_of(s, opted_out)[p] == (PublicationV {
            method: s[i].name(),
            params: s[i].params_json(),
        }),
{
    let a = s.take(i);
    let b = s.subrange(i, i + 1);
    let c = s.skip(i + 1);
    assert(s =~= (a + b) + c);
    assert(b =~= seq![s[i]]);
    law_frames_keep_their_order(a + b, c, opted_out);
    law_frames_keep_their_order(a, b, opted_out);
    law_one_notification(s[i], opted_out);
    frames_of(a, opted_out).len() as int
}

/// A client that opted out of a method never hears of it, and whatever it hears was
/// translated.
pub proof fn law_only_what_was_translated(
    s: Seq<ServerNotification>,
    opted_out: Seq<Seq<char>>,
    p: int,
) -> (i: int)
    requires
        0 <= p < frames_of(s, opted_out).len(),
    ensures
        0 <= i < s.len(),
        frames_of(s, opted_out)[p].method == s[i].name(),
        frames_of(s, opted_out)[p].params == s[i].params_json(),
        !opted_out.contains(frames_of(s, opted_out)[p].method),
    decreases s.len(),
{
    let before = frames_of(s.drop_last(), opted_out);
    if p < before.len() {
        law_only_what_was_translated(s.drop_last(), opted_out, p)
    } else {
        s.len() - 1
    }
}

/// A finished item by itself: the log keeps it exactly if the client hears of it; other
/// notifications leave nothing in the log.
pub proof fn law_one_finished_item(n: ServerNotification, opted_out: Seq<Seq<char>>)
    ensures
        n is ItemCompleted && !opted_out.contains("item/completed"@) ==> recorded_items(
            seq![n],
            opted_out,
        ) == seq![n->ItemCompleted_0.item.view()],
        n !is ItemCompleted || opted_out.contains("item/completed"@) ==> recorded_items(
            seq![n],
            opted_out,
        ) == Seq::<ItemV>::empty(),
{
    let s = seq![n];
    assert(s.drop_last() =~= Seq::empty());
    assert(s.last() == n);
    assert(recorded_items(s.drop_last(), opted_out) =~= Seq::empty());
    if n is ItemCompleted && !opted_out.contains("item/completed"@) {
        assert(recorded_items(s, opted_out) =~= seq![n->ItemCompleted_0.item.view()]);
    }
}

/// The log keeps finished items in the order in which they were finished.
pub proof fn law_items_keep_their_order(
    a: Seq<ServerNotification>,
    b: Seq<ServerNotification>,
    opted_out: Seq<Seq<char>>,
)
    ensures
        recorded_items(a + b, opted_out) == recorded_items(a, opted_out) + recorded_items(
            b,
            opted_out,
        ),
    decreases b.len(),
{
    if b.len() == 0 {
        assert(a + b =~= a);
        assert(recorded_items(b, opted_out) =~= Seq::empty());
        assert(recorded_items(a, opted_out) + recorded_items(b, opted_out) =~= recorded_items(
            a,
            opted_out,
        ));
    } else {
        law_items_keep_their_order(a, b.drop_last(), opted_out);
        assert((a + b).drop_last() =~= a + b.drop_last());
        assert((a + b).last() == b.last());
        assert(recorded_items(a + b, opted_out) =~= recorded_items(a, opted_out) + recorded_items(
            b,
            opted_out,
        ));
    }
}

/// A turn opens with its start and then the message of the user, which is started before
/// it is finished. All three name the thread, and a client hears those of them that it
/// did not opt out of.
pub proof fn law_turns_open_in_order(
    thread: Seq<char>,
    turn: Seq<char>,
    item: ItemV,
    started_at: i64,
    opted_out: Seq<Seq<char>>,
)
    ensures
        ({
            let all = opening_frames(thread, turn, item, started_at);
            &&& all.len() == 3
            &&& all[0].method == "turn/started"@
            &&& all[1].method == "item/started"@
            &&& all[2].method == "item/completed"@
            &&& forall|i: int|
                0 <= i < 3 ==> (#[trigger] all[i]).params.get("threadId"@) == Some(
                    JsonV::Str(thread),
                )
            &&& all[1].params.get("turnId"@) == Some(JsonV::Str(turn))
            &&& all[1].params == all[2].params
            &&& opted_out.len() == 0 ==> heard_of(all, opted_out) == all
            &&& forall|p: PublicationV| #[trigger]
                heard_of(all, opted_out).contains(p) <==> all.contains(p) && !opted_out.contains(
                    p.method,
                )
        }),
{
    let all = opening_frames(thread, turn, item, started_at);
    let keep = |p: PublicationV| wanted(p.method, opted_out);
    reveal_strlit("threadId");
    reveal_strlit("turnId");
    reveal_strlit("turn");
    reveal_strlit("item");
    assert("threadId"@.len() == 8 && "turnId"@.len() == 6 && "turn"@.len() == 4);
    assert("item"@[0] == 'i' && "turn"@[0] == 't');
    assert forall|p: PublicationV| #[trigger]
        heard_of(all, opted_out).contains(p) <==> all.contains(p) && !opted_out.contains(
            p.method,
        ) by {
        if heard_of(all, opted_out).contains(p) {
            all.lemma_filter_contains_rev(keep, p);
            let k = choose|k: int|
                0 <= k < heard_of(all, opted_out).len() && heard_of(all, opted_out)[k] == p;
            all.lemma_filter_pred(keep, k);
        }
        if all.contains(p) && !opted_out.contains(p.method) {
            let k = choose|k: int| 0 <= k < all.len() && all[k] == p;
            all.lemma_filter_contains(keep, k);
        }
    }
    if opted_out.len() == 0 {
        reveal_with_fuel(Seq::filter, 4);
        assert(all.drop_last().drop_last().drop_last() =~= Seq::empty());
        assert(all.filter(keep) =~= all);
    }
}

// ---------------------------------------------------------------------------
// What a message leads to
// ---------------------------------------------------------------------------
/// A request of the program that names itself is never left without an answer: the
/// client is asked if the program asks for permission, and any other request is turned
/// down under its own name.
pub proof fn law_requests_are_answered(v: JsonV, id: Seq<char>)
    requires
        v.get("request_id"@) == Some(JsonV::Str(id)),
    ensures
        v.str_at2("request"@, "subtype"@) == Some("can_use_tool"@) ==> side_effect(
            OutboundV::ControlRequest(v),
        ) == (EffectV::AskPermission { request_id: id, request: v }),
        v.str_at2("request"@, "subtype"@) != Some("can_use_tool"@) ==> (side_effect(
            OutboundV::ControlRequest(v),
        ) matches EffectV::ReplyControlError { request_id, .. } && request_id == id),
{
}

/// Nobody is asked and nothing is remembered but where the program says so: permission
/// is asked for requests only, what it says of itself is remembered from its first
/// message only, and rate limits from their own messages only.
pub proof fn law_effects_have_their_messages(m: OutboundV)
    ensures
        side_effect(m) is AskPermission ==> m is ControlRequest,
        side_effect(m) is ReplyControlError ==> m is ControlRequest,
        side_effect(m) is RefreshInit <==> m is Init,
        side_effect(m) is RefreshRateLimits <==> m is RateLimitEvent,
        m matches OutboundV::Init(j) ==> side_effect(m) == EffectV::RefreshInit(j),
        m matches OutboundV::RateLimitEvent(j) ==> (j.get("rate_limit_info"@) is Some
            ==> side_effect(m) == EffectV::RefreshRateLimits(
            j.get("rate_limit_info"@)->Some_0,
        )),
{
}

// ---------------------------------------------------------------------------
// How a turn ends
// ---------------------------------------------------------------------------
/// A turn whose program reports success is completed without an error; any other report
/// fails it, with the words of the report where it has some, and with words that name
/// the kind of report where it has none.
pub proof fn law_report_decides(
    p: PumpV,
    subtype: Seq<char>,
    is_error: bool,
    result: Option<Seq<char>>,
    reason: Option<Seq<char>>,
    now: i64,
)
    requires
        p.error is None,
    ensures
        ({
            let turn = ended_turn(
                pumped(p, OutboundV::Result { subtype, is_error, result, reason }),
                now,
            );
            &&& (subtype == "success"@ && !is_error) ==> turn.status == TurnStatus::Completed
                && turn.error is None
            &&& (subtype != "success"@ || is_error) ==> turn.status == TurnStatus::Failed
                && turn.error is Some
            &&& (subtype != "success"@ || is_error) && result is Some && result->Some_0.len() > 0
                ==> turn.error == result
            &&& (subtype != "success"@ || is_error) && (result is None || result->Some_0.len()
                == 0) ==> crate::text::has_text(turn.error->Some_0, subtype)
                && crate::text::begins(turn.error->Some_0, p.name)
            &&& pumped(p, OutboundV::Result { subtype, is_error, result, reason }).over
        }),
{
    let done = pumped(p, OutboundV::Result { subtype, is_error, result, reason });
    if (subtype != "success"@ || is_error) && (result is None || result->Some_0.len() == 0) {
        let lead = p.name + " turn ended with subtype "@;
        let why = done.error->Some_0;
        assert(why.subrange(0, p.name.len() as int) =~= p.name);
        assert(crate::text::begins(why, p.name)) by {
            assert(why.take(p.name.len() as int) =~= p.name);
        }
        assert(crate::text::stands_at(why, subtype, lead.len() as int)) by {
            assert(why.subrange(lead.len() as int, (lead.len() + subtype.len()) as int)
                =~= subtype);
        }
    }
}

/// A turn whose program ends without a report fails, whatever came before, and says so.
pub proof fn law_lost_program_fails_the_turn(p: PumpV, now: i64)
    ensures
        cut_off(p).over,
        ended_turn(cut_off(p), now).status == TurnStatus::Failed,
        ended_turn(cut_off(p), now).error == Some(p.name + " process exited unexpectedly"@),
        ended_turn(cut_off(p), now).id == p.turn_id,
{
}

/// Only a report ends a turn: any other message leaves it as it is, and nothing changes
/// the thread, the turn or its start.
pub proof fn law_other_messages_do_not_end_a_turn(p: PumpV, m: OutboundV)
    ensures
        m !is Result ==> pumped(p, m) == p,
        pumped(p, m).thread_id == p.thread_id,
        pumped(p, m).turn_id == p.turn_id,
        pumped(p, m).started_at == p.started_at,
        pumped(p, m).name == p.name,
{
}

/// The turn that is shown at the end is the one that was opened: same id, same start. It
/// ends when it was ended, and lasted as long as the clock says, in milliseconds.
pub proof fn law_ended_turn_is_the_opened_one(p: PumpV, now: i64)
    requires
        i64::MIN <= (now - p.started_at) * 1000 <= i64::MAX,
    ensures
        ended_turn(p, now).id == p.turn_id,
        ended_turn(p, now).started_at == Some(p.started_at),
        ended_turn(p, now).completed_at == Some(now),
        ended_turn(p, now).duration_ms is Some,
        now >= p.started_at ==> ended_turn(p, now).duration_ms->Some_0 == (now - p.started_at)
            * 1000,
        now < p.started_at ==> ended_turn(p, now).duration_ms->Some_0 == 0,
        ended_turn(p, now).status == TurnStatus::Failed <==> p.error is Some,
        ended_turn(p, now).status == TurnStatus::Completed <==> p.error is None,
        ended_turn(p, now).error == p.error,
{
}

// ---------------------------------------------------------------------------
// Answers of the user
// ---------------------------------------------------------------------------
/// The program gets the outcome of a tool under the name of the call that asked for it,
/// with the content as it is and marked as an error exactly if it is one.
pub proof fn law_tool_result_names_its_call(id: Seq<char>, content: Seq<char>, is_error: bool)
    ensures
        ({
            let j = tool_result(id, content, is_error);
            let parts = j.get2("message"@, "content"@)->Some_0->Arr_0;
            &&& j.str_at("type"@) == Some("user"@)
            &&& j.str_at2("message"@, "role"@) == Some("user"@)
            &&& j.get2("message"@, "content"@) is Some
            &&& j.get2("message"@, "content"@)->Some_0 is Arr
            &&& parts.len() == 1
            &&& parts[0].str_at("type"@) == Some("tool_result"@)
            &&& parts[0].str_at("tool_use_id"@) == Some(id)
            &&& parts[0].str_at("content"@) == Some(content)
            &&& parts[0].bool_at("is_error"@) == Some(is_error)
        }),
{
    reveal_strlit("type");
    reveal_strlit("message");
    reveal_strlit("role");
    reveal_strlit("content");
    reveal_strlit("tool_use_id");
    reveal_strlit("is_error");
    assert("type"@.len() == 4 && "role"@.len() == 4 && "message"@.len() == 7);
    assert("content"@.len() == 7 && "tool_use_id"@.len() == 11 && "is_error"@.len() == 8);
    assert("type"@[0] == 't' && "role"@[0] == 'r');
}

/// Each question gets its last answers: the text where there is one, all of them in
/// order where there are more, and `null` where there is none.
pub proof fn law_answers_go_to_their_questions(
    s: Seq<(String, Vec<String>)>,
    q: String,
    given: Vec<String>,
    other: Seq<char>,
)
    requires
        other != q@,
    ensures
        ({
            let all = answers_object(s.push((q, given)));
            let t = texts(given@);
            &&& t.len() == 0 ==> all.get(q@) == Some(JsonV::Null)
            &&& t.len() == 1 ==> all.get(q@) == Some(JsonV::Str(t[0]))
            &&& t.len() > 1 ==> all.get(q@) is Some && all.get(q@)->Some_0 is Arr && all.get(
                q@,
            )->Some_0->Arr_0.len() == t.len()
            &&& t.len() > 1 ==> forall|i: int|
                0 <= i < t.len() ==> #[trigger] all.get(q@)->Some_0->Arr_0[i] == JsonV::Str(t[i])
            &&& all.get(other) == answers_object(s).get(other)
        }),
{
    assert(s.push((q, given)).drop_last() =~= s);
    lemma_answers_are_an_object(s);
}

proof fn lemma_answers_are_an_object(s: Seq<(String, Vec<String>)>)
    ensures
        answers_object(s) is Obj,
    decreases s.len(),
{
    if s.len() > 0 {
        lemma_answers_are_an_object(s.drop_last());
    }
}

} // verus!
