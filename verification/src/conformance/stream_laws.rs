//! Laws of the checks across frames: an item starts, grows and ends under one id, and
//! whatever does otherwise is found.

use vstd::prelude::*;

use super::divergence::step_method;
use super::finding::FindingV;
use super::streaming::{
    ItemKind, ItemV, StreamV, after_frame, after_frames, all_text, closing, item_kind_name, strict,
    stream_findings,
};
use super::transcript::{FrameKind, FrameV};
use crate::json::JsonV;
use crate::text::has_text;

verus! {

proof fn lemma_method_names()
    ensures
        "item/started"@ != "item/completed"@,
        "item/started"@ != "item/agentMessage/delta"@,
        "item/started"@ != "item/reasoning/textDelta"@,
        "item/completed"@ != "item/agentMessage/delta"@,
        "item/completed"@ != "item/reasoning/textDelta"@,
        "item/agentMessage/delta"@ != "item/reasoning/textDelta"@,
        "agentMessage"@ != "reasoning"@,
{
    reveal_strlit("item/started");
    reveal_strlit("item/completed");
    reveal_strlit("item/agentMessage/delta");
    reveal_strlit("item/reasoning/textDelta");
    reveal_strlit("agentMessage");
    reveal_strlit("reasoning");
    assert("item/started"@.len() == 12 && "item/completed"@.len() == 14);
    assert("item/agentMessage/delta"@.len() == 23 && "item/reasoning/textDelta"@.len() == 24);
    assert("agentMessage"@.len() == 12 && "reasoning"@.len() == 9);
}

/// A notification of a method about an item of some type and id.
pub open spec fn about_item(f: FrameV, method: Seq<char>, item: JsonV, id: Seq<char>) -> bool {
    &&& f.kind == FrameKind::Notification
    &&& f.method == method
    &&& f.raw.get2("params"@, "item"@) == Some(item)
    &&& item.get("id"@) == Some(JsonV::Str(id))
}

/// A notification with a piece of the text of an item.
pub open spec fn adds_to(f: FrameV, method: Seq<char>, id: Seq<char>, delta: Seq<char>) -> bool {
    &&& f.kind == FrameKind::Notification
    &&& f.method == method
    &&& f.raw.get2("params"@, "itemId"@) == Some(JsonV::Str(id))
    &&& f.raw.get2("params"@, "delta"@) == Some(JsonV::Str(delta))
}

/// Responses, and notifications of other methods, change nothing and are never wrong
/// across frames.
pub proof fn law_other_frames_do_not_count(s: StreamV, f: FrameV)
    requires
        f.kind == FrameKind::Response || (f.method != "item/started"@ && f.method
            != "item/completed"@ && f.method != "item/agentMessage/delta"@ && f.method
            != "item/reasoning/textDelta"@),
    ensures
        after_frame(s, f) == s,
{
}

/// A message or a thought that starts is known from then on, in the step that it starts
/// in, empty and not ended; items of other types are not followed.
pub proof fn law_started_items_are_followed(s: StreamV, f: FrameV, item: JsonV, id: Seq<char>)
    requires
        about_item(f, "item/started"@, item, id),
    ensures
        item.get("type"@) == Some(JsonV::Str("agentMessage"@)) ==> after_frame(s, f).items.dom().contains(
            id,
        ) && after_frame(s, f).items[id] == (ItemV {
            step: f.step,
            kind: ItemKind::AgentMessage,
            text: Seq::empty(),
            completed: false,
        }),
        item.get("type"@) == Some(JsonV::Str("reasoning"@)) ==> after_frame(s, f).items.dom().contains(
            id,
        ) && after_frame(s, f).items[id].kind == ItemKind::Reasoning && !after_frame(
            s,
            f,
        ).items[id].completed && after_frame(s, f).items[id].text.len() == 0,
        item.get("type"@) != Some(JsonV::Str("agentMessage"@)) && item.get("type"@) != Some(
            JsonV::Str("reasoning"@),
        ) ==> after_frame(s, f) == s,
        after_frame(s, f).found == s.found,
{
    lemma_method_names();
}

/// A piece of text is added at the end of the text of its item, if the item has started
/// as one of that kind; other items stay as they are.
pub proof fn law_pieces_are_added_at_the_end(
    s: StreamV,
    f: FrameV,
    id: Seq<char>,
    delta: Seq<char>,
    other: Seq<char>,
)
    requires
        adds_to(f, "item/agentMessage/delta"@, id, delta) && s.items[id].kind
            == ItemKind::AgentMessage || adds_to(f, "item/reasoning/textDelta"@, id, delta)
            && s.items[id].kind == ItemKind::Reasoning,
        s.items.dom().contains(id),
        other != id,
    ensures
        after_frame(s, f).items[id].text == s.items[id].text + delta,
        after_frame(s, f).items[id].completed == s.items[id].completed,
        after_frame(s, f).items[id].kind == s.items[id].kind,
        after_frame(s, f).items[other] == s.items[other],
        !s.items[id].completed ==> after_frame(s, f).found == s.found,
        s.items[id].completed ==> after_frame(s, f).found.len() == s.found.len() + 1,
{
    lemma_method_names();
}

/// A piece of text for an item that has not started, or that has started as one of
/// another kind, is found and added nowhere.
pub proof fn law_misplaced_pieces_are_found(
    s: StreamV,
    f: FrameV,
    id: Seq<char>,
    delta: Seq<char>,
)
    requires
        adds_to(f, "item/agentMessage/delta"@, id, delta) && (!s.items.dom().contains(id)
            || s.items[id].kind == ItemKind::Reasoning) || adds_to(
            f,
            "item/reasoning/textDelta"@,
            id,
            delta,
        ) && (!s.items.dom().contains(id) || s.items[id].kind == ItemKind::AgentMessage),
    ensures
        after_frame(s, f).items == s.items,
        after_frame(s, f).found.len() == s.found.len() + 1,
        after_frame(s, f).found.last().step() == f.step,
        after_frame(s, f).found.last() is SchemaError,
{
    lemma_method_names();
}

/// A message ends well exactly if pieces of it came and make up its final text.
pub proof fn law_messages_end_with_their_text(
    s: StreamV,
    f: FrameV,
    item: JsonV,
    id: Seq<char>,
    text: Seq<char>,
)
    requires
        about_item(f, "item/completed"@, item, id),
        item.get("text"@) == Some(JsonV::Str(text)),
        s.items.dom().contains(id),
        s.items[id].kind == ItemKind::AgentMessage,
    ensures
        after_frame(s, f).items[id].completed,
        after_frame(s, f).items[id].text == s.items[id].text,
        after_frame(s, f).found == s.found <==> s.items[id].text.len() > 0 && text
            == s.items[id].text,
        s.found.len() <= after_frame(s, f).found.len(),
{
    lemma_method_names();
    if after_frame(s, f).found == s.found {
        assert(after_frame(s, f).found.len() == s.found.len());
    }
}

/// A thought ends well exactly if no pieces of it came, or they make up its final text.
pub proof fn law_thoughts_end_with_their_text(
    s: StreamV,
    f: FrameV,
    item: JsonV,
    id: Seq<char>,
    content: Seq<JsonV>,
)
    requires
        about_item(f, "item/completed"@, item, id),
        item.get("content"@) == Some(JsonV::Arr(content)),
        s.items.dom().contains(id),
        s.items[id].kind == ItemKind::Reasoning,
    ensures
        after_frame(s, f).items[id].completed,
        after_frame(s, f).found == s.found <==> s.items[id].text.len() == 0 || all_text(content)
            == s.items[id].text,
{
    lemma_method_names();
    if after_frame(s, f).found == s.found {
        assert(after_frame(s, f).found.len() == s.found.len());
    }
}

/// The text of a list is its texts, one after the other; what is no text adds nothing.
pub proof fn law_text_of_a_list(a: Seq<JsonV>, b: Seq<JsonV>, v: JsonV)
    ensures
        all_text(a + b) == all_text(a) + all_text(b),
        v matches JsonV::Str(t) ==> all_text(seq![v]) == t,
        v !is Str ==> all_text(seq![v]).len() == 0,
    decreases b.len(),
{
    let one = seq![v];
    assert(one.drop_last() =~= Seq::empty());
    assert(one.last() == v);
    assert(all_text(one.drop_last()) =~= Seq::empty());
    if v is Str {
        assert(all_text(one) =~= v->Str_0);
    }
    if b.len() == 0 {
        assert(a + b =~= a);
        assert(all_text(a) + all_text(b) =~= all_text(a));
    } else {
        law_text_of_a_list(a, b.drop_last(), v);
        assert((a + b).drop_last() =~= a + b.drop_last());
        assert((a + b).last() == b.last());
        assert(all_text(a + b) =~= all_text(a) + all_text(b));
    }
}

/// The end of a message or a thought that has not started is found.
pub proof fn law_unstarted_ends_are_found(s: StreamV, f: FrameV, item: JsonV, id: Seq<char>)
    requires
        about_item(f, "item/completed"@, item, id),
        item.get("type"@) == Some(JsonV::Str("agentMessage"@)) || item.get("type"@) == Some(
            JsonV::Str("reasoning"@),
        ),
        !s.items.dom().contains(id),
    ensures
        after_frame(s, f).found.len() == s.found.len() + 1,
        after_frame(s, f).found.last().step() == f.step,
        after_frame(s, f).found.last().method() == "item/completed"@,
        after_frame(s, f).items == s.items,
{
    lemma_method_names();
}

// ---------------------------------------------------------------------------
// Items that never end
// ---------------------------------------------------------------------------
proof fn lemma_order(s: Seq<FrameV>, id: Seq<char>)
    requires
        after_frames(s).items.dom().contains(id),
    ensures
        after_frames(s).order.contains(id),
    decreases s.len(),
{
    if s.len() > 0 {
        let before = after_frames(s.drop_last());
        let now = after_frames(s);
        if before.items.dom().contains(id) {
            lemma_order(s.drop_last(), id);
            let k = choose|k: int| 0 <= k < before.order.len() && before.order[k] == id;
            assert(now.order[k] == id);
        } else {
            assert(now.order[now.order.len() - 1] == id);
        }
    }
}

/// Whether a frame ends an item.
pub open spec fn ends_item(f: FrameV, id: Seq<char>) -> bool {
    &&& f.kind == FrameKind::Notification
    &&& f.method == "item/completed"@
    &&& f.raw.get2("params"@, "item"@) matches Some(item) && item.get("id"@) == Some(
        JsonV::Str(id),
    )
}

proof fn lemma_stays_open(s: Seq<FrameV>, i: int, item: JsonV, id: Seq<char>)
    requires
        0 <= i < s.len(),
        about_item(s[i], "item/started"@, item, id),
        item.get("type"@) == Some(JsonV::Str("agentMessage"@)) || item.get("type"@) == Some(
            JsonV::Str("reasoning"@),
        ),
        forall|k: int| i < k < s.len() ==> !ends_item(#[trigger] s[k], id),
    ensures
        after_frames(s).items.dom().contains(id),
        !after_frames(s).items[id].completed,
    decreases s.len(),
{
    lemma_method_names();
    if i < s.len() - 1 {
        let t = s.drop_last();
        assert(t[i] == s[i]);
        assert forall|k: int| i < k < t.len() implies !ends_item(#[trigger] t[k], id) by {
            assert(!ends_item(s[k], id));
        }
        lemma_stays_open(t, i, item, id);
        assert(!ends_item(s[s.len() - 1], id));
    }
}

proof fn lemma_closing(s: StreamV, ids: Seq<Seq<char>>, id: Seq<char>)
    requires
        ids.contains(id),
        !s.items[id].completed,
    ensures
        closing(s, ids).found.contains(
            FindingV::SchemaError {
                step: s.items[id].step,
                method: "item/started"@,
                kind: FrameKind::Notification,
                message: "item id="@ + id + " type="@ + item_kind_name(s.items[id].kind)
                    + " started but never `item/completed`"@,
            },
        ),
    decreases ids.len(),
{
    let f = FindingV::SchemaError {
        step: s.items[id].step,
        method: "item/started"@,
        kind: FrameKind::Notification,
        message: "item id="@ + id + " type="@ + item_kind_name(s.items[id].kind)
            + " started but never `item/completed`"@,
    };
    let k = choose|k: int| 0 <= k < ids.len() && ids[k] == id;
    let all = closing(s, ids).found;
    let before = closing(s, ids.drop_last()).found;
    if k == ids.len() - 1 {
        assert(all[all.len() - 1] == f);
    } else {
        assert(ids.drop_last()[k] == id);
        lemma_closing(s, ids.drop_last(), id);
        let n = choose|n: int| 0 <= n < before.len() && before[n] == f;
        assert(all[n] == f);
    }
}

/// A message or a thought that starts and does not end after that is found, by its id.
pub proof fn law_endless_items_are_found(s: Seq<FrameV>, i: int, item: JsonV, id: Seq<char>) -> (f:
    FindingV)
    requires
        0 <= i < s.len(),
        about_item(s[i], "item/started"@, item, id),
        item.get("type"@) == Some(JsonV::Str("agentMessage"@)) || item.get("type"@) == Some(
            JsonV::Str("reasoning"@),
        ),
        forall|k: int| i < k < s.len() ==> !ends_item(#[trigger] s[k], id),
    ensures
        stream_findings(s).contains(f),
        f.method() == "item/started"@,
        f matches FindingV::SchemaError { message, .. } && has_text(message, id),
{
    lemma_stays_open(s, i, item, id);
    lemma_order(s, id);
    let t = after_frames(s);
    lemma_closing(t, t.order, id);
    let message = "item id="@ + id + " type="@ + item_kind_name(t.items[id].kind)
        + " started but never `item/completed`"@;
    let lead = "item id="@;
    assert(message.subrange(lead.len() as int, (lead.len() + id.len()) as int) =~= id);
    assert(crate::text::stands_at(message, id, lead.len() as int));
    FindingV::SchemaError {
        step: t.items[id].step,
        method: "item/started"@,
        kind: FrameKind::Notification,
        message,
    }
}

/// No frames, no findings; and what is found in the beginning of a list stays found.
pub proof fn law_nothing_is_found_in_nothing(s: Seq<FrameV>, f: FrameV)
    ensures
        stream_findings(Seq::empty()).len() == 0,
        after_frames(s.push(f)) == after_frame(after_frames(s), f),
        after_frames(s.push(f)).found.take(after_frames(s).found.len() as int)
            == after_frames(s).found,
{
    let none = after_frames(Seq::<FrameV>::empty());
    assert(none.order.len() == 0);
    assert(s.push(f).drop_last() =~= s);
    assert(s.push(f).last() == f);
    super::streaming::law_findings_are_kept(after_frames(s), f);
}

/// Exactly the findings whose method or step is on the list are let pass, and what
/// remains keeps its order.
pub proof fn law_only_listed_findings_are_let_pass(
    a: Seq<FindingV>,
    b: Seq<FindingV>,
    f: FindingV,
    methods: Seq<Seq<char>>,
)
    ensures
        strict(a + b, methods) == strict(a, methods) + strict(b, methods),
        methods.contains(f.method()) || methods.contains(f.step()) || methods.contains(
            step_method(f.step()),
        ) ==> strict(seq![f], methods) == Seq::<FindingV>::empty(),
        !methods.contains(f.method()) && !methods.contains(f.step()) && !methods.contains(
            step_method(f.step()),
        ) ==> strict(seq![f], methods) == seq![f],
    decreases b.len(),
{
    let one = seq![f];
    assert(one.drop_last() =~= Seq::empty());
    assert(one.last() == f);
    assert(strict(one.drop_last(), methods) =~= Seq::empty());
    assert(strict(one, methods) =~= seq![f] || strict(one, methods) =~= Seq::empty());
    if b.len() == 0 {
        assert(a + b =~= a);
        assert(strict(b, methods) =~= Seq::empty());
        assert(strict(a, methods) + strict(b, methods) =~= strict(a, methods));
    } else {
        law_only_listed_findings_are_let_pass(a, b.drop_last(), f, methods);
        assert((a + b).drop_last() =~= a + b.drop_last());
        assert((a + b).last() == b.last());
        assert(strict(a + b, methods) =~= strict(a, methods) + strict(b, methods));
    }
}

/// A step is named after what stands before its first dot.
pub proof fn law_steps_are_named_after_methods(method: Seq<char>, rest: Seq<char>)
    requires
        !method.contains('.'),
    ensures
        step_method(method) == method,
        step_method(method.push('.') + rest) == method,
{
    lemma_no_dot(method, Seq::empty());
    assert(method + Seq::empty() =~= method);
    let step = method.push('.') + rest;
    lemma_no_dot(method, seq!['.'] + rest);
    assert(step =~= method + (seq!['.'] + rest));
    let tail = seq!['.'] + rest;
    assert(crate::text::index_or_end(tail, '.') == 0);
    assert(step.take(method.len() as int) =~= method);
    assert(method.take(method.len() as int) =~= method);
}

proof fn lemma_no_dot(head: Seq<char>, tail: Seq<char>)
    requires
        !head.contains('.'),
    ensures
        crate::text::index_or_end(head + tail, '.') == head.len() + crate::text::index_or_end(
            tail,
            '.',
        ),
    decreases head.len(),
{
    if head.len() == 0 {
        assert(head + tail =~= tail);
    } else {
        assert(head[0] != '.');
        assert((head + tail).skip(1) =~= head.skip(1) + tail);
        assert(!head.skip(1).contains('.')) by {
            if head.skip(1).contains('.') {
                let k = choose|k: int| 0 <= k < head.skip(1).len() && head.skip(1)[k] == '.';
                assert(head[k + 1] == '.');
            }
        }
        lemma_no_dot(head.skip(1), tail);
    }
}

} // verus!
