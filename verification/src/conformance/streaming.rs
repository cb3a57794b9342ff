//! Checks across the frames of a turn.
//!
//! An item that is streamed starts, grows by deltas that carry its id, and
//! completes with the text that the deltas made. Each frame may be well formed by
//! itself while the frames together are not.

use vstd::prelude::*;

use super::divergence::{KnownDivergence, divergence_of, relaxed};
use super::finding::{Finding, FindingV, findings, lemma_findings_push};
use super::transcript::{Frame, FrameKind, FrameV, Transcript, frames};
use crate::json::{Json, JsonV, jsons};
use crate::text::{debugged, join3, opt_same, owned, quote, same};
use crate::text_map::TextMap;

verus! {

/// The kinds of items that are streamed.
#[derive(Debug, Clone, Copy, PartialEq, Eq, Structural)]
pub enum ItemKind {
    AgentMessage,
    Reasoning,
}

/// The name of a kind.
pub open spec fn item_kind_name(k: ItemKind) -> Seq<char> {
    match k {
        ItemKind::AgentMessage => "AgentMessage"@,
        ItemKind::Reasoning => "Reasoning"@,
    }
}

impl ItemKind {
    /// The name of this kind.
    pub fn name(self) -> (r: &'static str)
        ensures
            r@ == item_kind_name(self),
    {
        match self {
            ItemKind::AgentMessage => "AgentMessage",
            ItemKind::Reasoning => "Reasoning",
        }
    }
}

/// An item that has started.
pub struct ItemState {
    pub step: String,
    pub kind: ItemKind,
    pub accumulated_text: String,
    pub completed: bool,
}

/// The model of [`ItemState`].
pub struct ItemV {
    pub step: Seq<char>,
    pub kind: ItemKind,
    pub text: Seq<char>,
    pub completed: bool,
}

impl ItemState {
    /// The model of this item.
    pub open spec fn view(&self) -> ItemV {
        ItemV {
            step: self.step@,
            kind: self.kind,
            text: self.accumulated_text@,
            completed: self.completed,
        }
    }
}

/// The items that have started, in order of their first start, and what was found.
#[verifier::ext_equal]
pub struct StreamV {
    pub order: Seq<Seq<char>>,
    pub items: Map<Seq<char>, ItemV>,
    pub found: Seq<FindingV>,
}

impl StreamV {
    /// Before any frame.
    pub open spec fn start() -> StreamV {
        StreamV { order: seq![], items: Map::empty(), found: seq![] }
    }

    /// With an item in a new state.
    pub open spec fn with_item(self, id: Seq<char>, item: ItemV) -> StreamV {
        StreamV {
            order: if self.items.dom().contains(id) {
                self.order
            } else {
                self.order.push(id)
            },
            items: self.items.insert(id, item),
            found: self.found,
        }
    }

    /// With one more finding.
    pub open spec fn noting(self, step: Seq<char>, method: Seq<char>, message: Seq<char>) -> StreamV {
        StreamV {
            order: self.order,
            items: self.items,
            found: self.found.push(
                FindingV::SchemaError { step, method, kind: FrameKind::Notification, message },
            ),
        }
    }
}

/// The streamed kind of an item.
pub open spec fn streamed_kind(item: JsonV) -> Option<ItemKind> {
    match item.str_at("type"@) {
        Some(t) => if t == "agentMessage"@ {
            Some(ItemKind::AgentMessage)
        } else if t == "reasoning"@ {
            Some(ItemKind::Reasoning)
        } else {
            None
        },
        None => None,
    }
}

/// The item that a notification is about.
pub open spec fn item_of(f: FrameV) -> Option<JsonV> {
    f.raw.get2("params"@, "item"@)
}

/// The texts of a list, one after the other; what is no text is left out.
pub open spec fn all_text(a: Seq<JsonV>) -> Seq<char>
    decreases a.len(),
{
    if a.len() == 0 {
        seq![]
    } else {
        all_text(a.drop_last()) + (match a.last().as_str() {
            Some(t) => t,
            None => seq![],
        })
    }
}

/// After the start of an item.
pub open spec fn after_start(s: StreamV, f: FrameV) -> StreamV {
    match item_of(f) {
        Some(item) => match (item.str_at("id"@), streamed_kind(item)) {
            (Some(id), Some(kind)) => s.with_item(
                id,
                ItemV { step: f.step, kind, text: seq![], completed: false },
            ),
            _ => s,
        },
        None => s,
    }
}

/// After the end of an item that has started: a message has to have had deltas, and
/// the final text has to be what the deltas made.
pub open spec fn after_end_of(s: StreamV, f: FrameV, id: Seq<char>, item: JsonV) -> StreamV {
    let st = s.items[id];
    let done = s.with_item(id, ItemV { completed: true, ..st });
    match st.kind {
        ItemKind::AgentMessage => match item.str_at("text"@) {
            Some(text) => {
                let a = if st.text.len() == 0 {
                    done.noting(
                        f.step,
                        "item/completed"@,
                        "agentMessage item="@ + id + " produced no deltas"@,
                    )
                } else {
                    done
                };
                if text != st.text {
                    a.noting(
                        f.step,
                        "item/completed"@,
                        "agentMessage final text "@ + debugged(text)
                            + " does not match concatenated deltas "@ + debugged(st.text),
                    )
                } else {
                    a
                }
            },
            None => done,
        },
        ItemKind::Reasoning => match item.array_at("content"@) {
            Some(content) => if st.text.len() > 0 && all_text(content) != st.text {
                done.noting(
                    f.step,
                    "item/completed"@,
                    "reasoning final content "@ + debugged(all_text(content))
                        + " does not match concatenated deltas "@ + debugged(st.text),
                )
            } else {
                done
            },
            None => done,
        },
    }
}

/// After the end of an item.
pub open spec fn after_end(s: StreamV, f: FrameV) -> StreamV {
    match item_of(f) {
        Some(item) => match item.str_at("id"@) {
            Some(id) => if s.items.dom().contains(id) {
                after_end_of(s, f, id, item)
            } else if streamed_kind(item) is Some {
                s.noting(
                    f.step,
                    "item/completed"@,
                    "item/completed for id="@ + id + " with no matching item/started"@,
                )
            } else {
                s
            },
            None => s,
        },
        None => s,
    }
}

/// What is wrong with a delta of an item that has ended.
pub open spec fn late_delta(id: Seq<char>) -> Seq<char> {
    "delta for itemId="@ + id + " arrived after item/completed"@
}

/// After a delta of an item of some kind: the item has to have started, as one of that
/// kind, and not to have ended.
pub open spec fn after_delta(s: StreamV, f: FrameV, label: Seq<char>, expected: ItemKind) -> StreamV {
    match f.raw.str_at2("params"@, "itemId"@) {
        Some(id) => {
            let delta = match f.raw.str_at2("params"@, "delta"@) {
                Some(d) => d,
                None => seq![],
            };
            let method = "item/"@ + label + "/delta"@;
            if !s.items.dom().contains(id) {
                s.noting(
                    f.step,
                    method,
                    "delta for itemId="@ + id + " arrived with no matching item/started"@,
                )
            } else if s.items[id].kind != expected {
                s.noting(
                    f.step,
                    method,
                    "delta for itemId="@ + id + " expected kind "@ + item_kind_name(expected)
                        + " but item/started recorded "@ + item_kind_name(s.items[id].kind),
                )
            } else {
                let grown = s.with_item(id, ItemV { text: s.items[id].text + delta, ..s.items[id] });
                if s.items[id].completed {
                    grown.noting(f.step, method, late_delta(id))
                } else {
                    grown
                }
            }
        },
        None => s,
    }
}

/// After a frame.
pub open spec fn after_frame(s: StreamV, f: FrameV) -> StreamV {
    if f.kind != FrameKind::Notification {
        s
    } else if f.method == "item/started"@ {
        after_start(s, f)
    } else if f.method == "item/completed"@ {
        after_end(s, f)
    } else if f.method == "item/agentMessage/delta"@ {
        after_delta(s, f, "agentMessage"@, ItemKind::AgentMessage)
    } else if f.method == "item/reasoning/textDelta"@ {
        after_delta(s, f, "reasoning.text"@, ItemKind::Reasoning)
    } else {
        s
    }
}

/// After a list of frames.
pub open spec fn after_frames(s: Seq<FrameV>) -> StreamV
    decreases s.len(),
{
    if s.len() == 0 {
        StreamV::start()
    } else {
        after_frame(after_frames(s.drop_last()), s.last())
    }
}

/// With a finding for each item of a list that has not completed.
pub open spec fn closing(s: StreamV, ids: Seq<Seq<char>>) -> StreamV
    decreases ids.len(),
{
    if ids.len() == 0 {
        s
    } else {
        let t = closing(s, ids.drop_last());
        let st = s.items[ids.last()];
        if st.completed {
            t
        } else {
            t.noting(
                st.step,
                "item/started"@,
                "item id="@ + ids.last() + " type="@ + item_kind_name(st.kind)
                    + " started but never `item/completed`"@,
            )
        }
    }
}

/// The findings that are not let pass.
pub open spec fn strict(s: Seq<FindingV>, methods: Seq<Seq<char>>) -> Seq<FindingV>
    decreases s.len(),
{
    if s.len() == 0 {
        seq![]
    } else if relaxed(s.last(), methods) {
        strict(s.drop_last(), methods)
    } else {
        strict(s.drop_last(), methods).push(s.last())
    }
}

/// What is found across a list of frames.
pub open spec fn stream_findings(s: Seq<FrameV>) -> Seq<FindingV> {
    let t = after_frames(s);
    closing(t, t.order).found
}

struct Stream {
    items: TextMap<ItemState>,
    found: Vec<Finding>,
    known: KnownDivergence,
}

impl Stream {
    spec fn models(&self, s: StreamV) -> bool {
        &&& self.items.keys() == s.order
        &&& self.items@.map_values(|i: ItemState| i.view()) == s.items
        &&& findings(self.found@) == strict(s.found, self.known.view().streaming_relaxed_methods)
    }

    fn note(&mut self, step: &str, method: &str, message: String, Ghost(s): Ghost<StreamV>)
        requires
            old(self).models(s),
        ensures
            final(self).models(s.noting(step@, method@, message@)),
            final(self).known == old(self).known,
            final(self).items == old(self).items,
    {
        let f = Finding::SchemaError {
            step: owned(step),
            method: owned(method),
            kind: FrameKind::Notification,
            message,
        };
        let ghost t = s.noting(step@, method@, message@);
        assert(t.found.drop_last() =~= s.found);
        assert(t.found.last() == f.view());
        if !self.known.relaxes_streaming(&f) {
            proof {
                lemma_findings_push(self.found@, f);
            }
            self.found.push(f);
        }
    }

    fn put(&mut self, id: &str, item: ItemState, Ghost(s): Ghost<StreamV>)
        requires
            old(self).models(s),
        ensures
            final(self).models(s.with_item(id@, item.view())),
            final(self).known == old(self).known,
    {
        self.items.insert(id, item);
        assert(self.items@.map_values(|i: ItemState| i.view()) =~= s.items.insert(
            id@,
            item.view(),
        ));
    }

    fn on_started(&mut self, frame: &Frame, Ghost(s): Ghost<StreamV>)
        requires
            old(self).models(s),
        ensures
            final(self).models(after_start(s, frame.view())),
            final(self).known == old(self).known,
    {
        let item = match frame.raw.get2("params", "item") {
            Some(item) => item,
            None => {
                return;
            },
        };
        let id = match item.str_at("id") {
            Some(id) => id,
            None => {
                return;
            },
        };
        let kind = match kind_of(item) {
            Some(kind) => kind,
            None => {
                return;
            },
        };
        let text = String::new();
        assert(text@ =~= seq![]);
        self.put(
            id,
            ItemState {
                step: frame.step.clone(),
                kind,
                accumulated_text: text,
                completed: false,
            },
            Ghost(s),
        );
    }

    fn on_completed(&mut self, frame: &Frame, Ghost(s): Ghost<StreamV>)
        requires
            old(self).models(s),
        ensures
            final(self).models(after_end(s, frame.view())),
            final(self).known == old(self).known,
    {
        let item = match frame.raw.get2("params", "item") {
            Some(item) => item,
            None => {
                return;
            },
        };
        let id = match item.str_at("id") {
            Some(id) => id,
            None => {
                return;
            },
        };
        let step = frame.step.as_str();
        assert(self.items@.dom() =~= s.items.dom());
        let (kind, text, first) = match self.items.get(id) {
            None => {
                if kind_of(item).is_some() {
                    self.note(
                        step,
                        "item/completed",
                        join3("item/completed for id=", id, " with no matching item/started"),
                        Ghost(s),
                    );
                }
                return;
            },
            Some(st) => {
                assert(s.items[id@] == st.view());
                (st.kind, st.accumulated_text.clone(), st.step.clone())
            },
        };
        let done = ItemState {
            step: first,
            kind,
            accumulated_text: text.clone(),
            completed: true,
        };
        let ghost mut now = s.with_item(id@, done.view());
        self.put(id, done, Ghost(s));
        match kind {
            ItemKind::AgentMessage => {
                if let Some(last) = item.str_at("text") {
                    if text.as_str().is_empty() {
                        self.note(
                            step,
                            "item/completed",
                            join3("agentMessage item=", id, " produced no deltas"),
                            Ghost(now),
                        );
                        proof {
                            now = now.noting(
                                step@,
                                "item/completed"@,
                                "agentMessage item="@ + id@ + " produced no deltas"@,
                            );
                        }
                    }
                    if !same(last, text.as_str()) {
                        let message = mismatch("agentMessage final text ", last, text.as_str());
                        self.note(step, "item/completed", message, Ghost(now));
                    }
                }
            },
            ItemKind::Reasoning => {
                if let Some(content) = item.array_at("content") {
                    let last = concat_texts(content);
                    if !text.as_str().is_empty() && !same(last.as_str(), text.as_str()) {
                        let message = mismatch(
                            "reasoning final content ",
                            last.as_str(),
                            text.as_str(),
                        );
                        self.note(step, "item/completed", message, Ghost(now));
                    }
                }
            },
        }
    }

    fn on_delta(
        &mut self,
        frame: &Frame,
        label: &str,
        expected: ItemKind,
        Ghost(s): Ghost<StreamV>,
    )
        requires
            old(self).models(s),
        ensures
            final(self).models(after_delta(s, frame.view(), label@, expected)),
            final(self).known == old(self).known,
    {
        let id = match frame.raw.str_at2("params", "itemId") {
            Some(id) => id,
            None => {
                return;
            },
        };
        let step = frame.step.as_str();
        let method = join3("item/", label, "/delta");
        assert(self.items@.dom() =~= s.items.dom());
        let (kind, mut text, first, completed) = match self.items.get(id) {
            None => {
                self.note(
                    step,
                    method.as_str(),
                    join3("delta for itemId=", id, " arrived with no matching item/started"),
                    Ghost(s),
                );
                return;
            },
            Some(st) => {
                assert(s.items[id@] == st.view());
                (st.kind, st.accumulated_text.clone(), st.step.clone(), st.completed)
            },
        };
        if kind != expected {
            let mut message = join3("delta for itemId=", id, " expected kind ");
            message.append(expected.name());
            message.append(" but item/started recorded ");
            message.append(kind.name());
            self.note(step, method.as_str(), message, Ghost(s));
            return;
        }
        if let Some(delta) = frame.raw.str_at2("params", "delta") {
            text.append(delta);
        }
        assert(text@ =~= s.items[id@].text + (match frame.view().raw.str_at2(
            "params"@,
            "delta"@,
        ) {
            Some(d) => d,
            None => seq![],
        }));
        let grown = ItemState { step: first, kind, accumulated_text: text, completed };
        let ghost now = s.with_item(id@, grown.view());
        self.put(id, grown, Ghost(s));
        if completed {
            self.note(
                step,
                method.as_str(),
                join3("delta for itemId=", id, " arrived after item/completed"),
                Ghost(now),
            );
        }
    }

    fn on_frame(&mut self, frame: &Frame, Ghost(s): Ghost<StreamV>)
        requires
            old(self).models(s),
        ensures
            final(self).models(after_frame(s, frame.view())),
            final(self).known == old(self).known,
    {
        if frame.kind != FrameKind::Notification {
            return;
        }
        let method = frame.method.as_str();
        if same(method, "item/started") {
            self.on_started(frame, Ghost(s));
        } else if same(method, "item/completed") {
            self.on_completed(frame, Ghost(s));
        } else if same(method, "item/agentMessage/delta") {
            self.on_delta(frame, "agentMessage", ItemKind::AgentMessage, Ghost(s));
        } else if same(method, "item/reasoning/textDelta") {
            self.on_delta(frame, "reasoning.text", ItemKind::Reasoning, Ghost(s));
        }
    }
}

fn mismatch(what: &str, last: &str, text: &str) -> (r: String)
    ensures
        r@ == what@ + debugged(last@) + " does not match concatenated deltas "@ + debugged(text@),
{
    let mut out = join3(
        what,
        quote(last).as_str(),
        " does not match concatenated deltas ",
    );
    out.append(quote(text).as_str());
    out
}

fn kind_of(item: &Json) -> (r: Option<ItemKind>)
    ensures
        r == streamed_kind(item.view()),
{
    let t = item.str_at("type");
    if opt_same(t, "agentMessage") {
        Some(ItemKind::AgentMessage)
    } else if opt_same(t, "reasoning") {
        Some(ItemKind::Reasoning)
    } else {
        None
    }
}

fn concat_texts(v: &Vec<Json>) -> (r: String)
    ensures
        r@ == all_text(jsons(v@)),
{
    let mut out = String::new();
    let ghost all = jsons(v@);
    assert(out@ =~= seq![]);
    let mut i: usize = 0;
    while i < v.len()
        invariant
            i <= v@.len(),
            all == jsons(v@),
            out@ == all_text(all.take(i as int)),
        decreases v@.len() - i,
    {
        assert(all.take(i + 1).drop_last() =~= all.take(i as int));
        assert(all.take(i + 1).last() == v@[i as int].view());
        if let Some(t) = v[i].as_str() {
            out.append(t);
        }
        assert(out@ =~= all_text(all.take(i + 1)));
        i += 1;
    }
    assert(all.take(i as int) =~= all);
    out
}

/// Checks the items of a transcript. What an interruption may leave open is let
/// pass.
pub fn check(transcript: &Transcript) -> (r: Vec<Finding>)
    ensures
        findings(r@) == strict(
            stream_findings(frames(transcript.frames@)),
            divergence_of(transcript.target).streaming_relaxed_methods,
        ),
{
    let ghost all = frames(transcript.frames@);
    let mut stream = Stream {
        items: TextMap::new(),
        found: Vec::new(),
        known: KnownDivergence::for_target(transcript.target),
    };
    proof {
        assert(stream.items@.map_values(|i: ItemState| i.view()) =~= Map::empty());
        assert(findings(stream.found@) =~= seq![]);
        assert(stream.models(after_frames(all.take(0))));
    }
    let mut i: usize = 0;
    while i < transcript.frames.len()
        invariant
            i <= transcript.frames@.len(),
            all == frames(transcript.frames@),
            stream.models(after_frames(all.take(i as int))),
            stream.known.view() == divergence_of(transcript.target),
        decreases transcript.frames@.len() - i,
    {
        assert(all.take(i + 1).drop_last() =~= all.take(i as int));
        assert(all.take(i + 1).last() == transcript.frames@[i as int].view());
        stream.on_frame(&transcript.frames[i], Ghost(after_frames(all.take(i as int))));
        i += 1;
    }
    assert(all.take(i as int) =~= all);
    let ghost end = after_frames(all);
    let n: usize = stream.items.len();
    let mut open: Vec<(String, String, ItemKind, bool)> = Vec::new();
    let mut j: usize = 0;
    while j < n
        invariant
            j <= n,
            n == stream.items.size(),
            stream.items.enumerates(),
            stream.models(end),
            open@.len() == j,
            forall|k: int|
                #![trigger open@[k]]
                0 <= k < j ==> open@[k].0@ == end.order[k] && end.items[end.order[k]].step
                    == open@[k].1@ && end.items[end.order[k]].kind == open@[k].2
                    && end.items[end.order[k]].completed == open@[k].3,
        decreases n - j,
    {
        let (id, st) = stream.items.entry(j);
        assert(stream.items.keys()[j as int] == stream.items.key_at(j as int));
        assert(end.items[id@] == st.view());
        open.push((id.clone(), st.step.clone(), st.kind, st.completed));
        j += 1;
    }
    let mut k: usize = 0;
    assert(closing(end, end.order.take(0)) == end);
    while k < open.len()
        invariant
            k <= open@.len(),
            open@.len() == end.order.len(),
            stream.models(closing(end, end.order.take(k as int))),
            stream.known.view() == divergence_of(transcript.target),
            forall|k: int|
                #![trigger open@[k]]
                0 <= k < open@.len() ==> open@[k].0@ == end.order[k]
                    && end.items[end.order[k]].step == open@[k].1@
                    && end.items[end.order[k]].kind == open@[k].2
                    && end.items[end.order[k]].completed == open@[k].3,
        decreases open@.len() - k,
    {
        assert(end.order.take(k + 1).drop_last() =~= end.order.take(k as int));
        assert(end.order.take(k + 1).last() == end.order[k as int]);
        let e = &open[k];
        if !e.3 {
            let mut message = join3("item id=", e.0.as_str(), " type=");
            message.append(e.2.name());
            message.append(" started but never `item/completed`");
            stream.note(
                e.1.as_str(),
                "item/started",
                message,
                Ghost(closing(end, end.order.take(k as int))),
            );
        }
        k += 1;
    }
    assert(end.order.take(end.order.len() as int) =~= end.order);
    stream.found
}

// ---------------------------------------------------------------------------
// Laws
// ---------------------------------------------------------------------------
/// The deltas of a list of frames, one after the other.
pub open spec fn deltas(s: Seq<FrameV>) -> Seq<char>
    decreases s.len(),
{
    if s.len() == 0 {
        seq![]
    } else {
        deltas(s.drop_last()) + (match s.last().raw.str_at2("params"@, "delta"@) {
            Some(d) => d,
            None => seq![],
        })
    }
}

/// A notification that starts the message `id`.
pub open spec fn starts_message(f: FrameV, id: Seq<char>) -> bool {
    &&& f.kind == FrameKind::Notification
    &&& f.method == "item/started"@
    &&& item_of(f) matches Some(item) && item.str_at("id"@) == Some(id) && streamed_kind(item)
        == Some(ItemKind::AgentMessage)
}

/// A notification with a delta of the message `id`.
pub open spec fn extends_message(f: FrameV, id: Seq<char>) -> bool {
    &&& f.kind == FrameKind::Notification
    &&& f.method == "item/agentMessage/delta"@
    &&& f.raw.str_at2("params"@, "itemId"@) == Some(id)
}

/// A notification that ends the message `id` with a text.
pub open spec fn ends_message(f: FrameV, id: Seq<char>, text: Seq<char>) -> bool {
    &&& f.kind == FrameKind::Notification
    &&& f.method == "item/completed"@
    &&& item_of(f) matches Some(item) && item.str_at("id"@) == Some(id) && item.str_at("text"@)
        == Some(text)
}

proof fn lemma_names_differ()
    ensures
        "item/started"@ != "item/completed"@,
        "item/agentMessage/delta"@ != "item/completed"@,
        "item/agentMessage/delta"@ != "item/started"@,
{
    reveal_strlit("item/started");
    reveal_strlit("item/completed");
    reveal_strlit("item/agentMessage/delta");
    assert("item/started"@.len() == 12);
    assert("item/completed"@.len() == 14);
    assert("item/agentMessage/delta"@.len() == 23);
}

proof fn lemma_growing(s: Seq<FrameV>, id: Seq<char>)
    requires
        s.len() > 0,
        starts_message(s[0], id),
        forall|i: int| 0 < i < s.len() ==> extends_message(#[trigger] s[i], id),
    ensures
        after_frames(s) == (StreamV {
            order: seq![id],
            items: Map::empty().insert(
                id,
                ItemV {
                    step: s[0].step,
                    kind: ItemKind::AgentMessage,
                    text: deltas(s.skip(1)),
                    completed: false,
                },
            ),
            found: seq![],
        }),
    decreases s.len(),
{
    lemma_names_differ();
    if s.len() == 1 {
        assert(s.drop_last() =~= seq![]);
        assert(after_frames(s.drop_last()) == StreamV::start());
        assert(s.skip(1) =~= seq![]);
        assert(after_frames(s) =~~= StreamV {
            order: seq![id],
            items: Map::empty().insert(
                id,
                ItemV {
                    step: s[0].step,
                    kind: ItemKind::AgentMessage,
                    text: seq![],
                    completed: false,
                },
            ),
            found: seq![],
        });
    } else {
        let t = s.drop_last();
        assert forall|i: int| 0 < i < t.len() implies extends_message(#[trigger] t[i], id) by {
            assert(extends_message(s[i], id));
        }
        lemma_growing(t, id);
        assert(extends_message(s[s.len() - 1], id));
        assert(s.skip(1).drop_last() =~= t.skip(1));
        assert(s.skip(1).last() == s.last());
        let grown = deltas(t.skip(1)) + (match s.last().raw.str_at2("params"@, "delta"@) {
            Some(d) => d,
            None => seq![],
        });
        assert(deltas(s.skip(1)) == grown);
        assert(after_frames(s) =~~= StreamV {
            order: seq![id],
            items: Map::empty().insert(
                id,
                ItemV {
                    step: s[0].step,
                    kind: ItemKind::AgentMessage,
                    text: grown,
                    completed: false,
                },
            ),
            found: seq![],
        });
    }
}

/// A message that starts, grows by deltas with its id, and ends with the text that
/// they made, is clean on every target.
pub proof fn law_streamed_message_is_clean(s: Seq<FrameV>, id: Seq<char>, text: Seq<char>)
    requires
        s.len() >= 2,
        starts_message(s[0], id),
        forall|i: int| 0 < i < s.len() - 1 ==> extends_message(#[trigger] s[i], id),
        ends_message(s.last(), id, text),
        text == deltas(s.subrange(1, s.len() - 1)),
        text.len() > 0,
    ensures
        stream_findings(s).len() == 0,
{
    lemma_names_differ();
    let t = s.drop_last();
    assert forall|i: int| 0 < i < t.len() implies extends_message(#[trigger] t[i], id) by {
        assert(extends_message(s[i], id));
    }
    lemma_growing(t, id);
    assert(t.skip(1) =~= s.subrange(1, s.len() - 1));
    let e = after_frames(s);
    assert(e.order =~= seq![id]);
    assert(e.found =~= seq![]);
    assert(e.items[id].completed);
    assert(e.order.drop_last() =~= seq![]);
    assert(closing(e, e.order.drop_last()) == e);
    assert(closing(e, e.order) == e);
}

/// A message that grows by deltas and ends with another text is found, whatever the
/// texts are.
pub proof fn law_final_text_mismatch_is_found(s: Seq<FrameV>, id: Seq<char>, text: Seq<char>)
    requires
        s.len() >= 2,
        starts_message(s[0], id),
        forall|i: int| 0 < i < s.len() - 1 ==> extends_message(#[trigger] s[i], id),
        ends_message(s.last(), id, text),
        text != deltas(s.subrange(1, s.len() - 1)),
    ensures
        stream_findings(s).contains(
            FindingV::SchemaError {
                step: s.last().step,
                method: "item/completed"@,
                kind: FrameKind::Notification,
                message: "agentMessage final text "@ + debugged(text)
                    + " does not match concatenated deltas "@ + debugged(
                    deltas(s.subrange(1, s.len() - 1)),
                ),
            },
        ),
{
    lemma_names_differ();
    let t = s.drop_last();
    assert forall|i: int| 0 < i < t.len() implies extends_message(#[trigger] t[i], id) by {
        assert(extends_message(s[i], id));
    }
    lemma_growing(t, id);
    assert(t.skip(1) =~= s.subrange(1, s.len() - 1));
    let e = after_frames(s);
    assert(e.order =~= seq![id]);
    assert(e.items[id].completed);
    assert(e.order.drop_last() =~= seq![]);
    assert(closing(e, e.order.drop_last()) == e);
    assert(closing(e, e.order) == e);
    assert(e.found[e.found.len() - 1] == stream_findings(s).last());
}

/// A delta for an item that has not started is found.
pub proof fn law_stray_delta_is_found(s: StreamV, f: FrameV, id: Seq<char>)
    requires
        extends_message(f, id),
        !s.items.dom().contains(id),
    ensures
        after_frame(s, f).found == s.found.push(
            FindingV::SchemaError {
                step: f.step,
                method: "item/"@ + "agentMessage"@ + "/delta"@,
                kind: FrameKind::Notification,
                message: "delta for itemId="@ + id + " arrived with no matching item/started"@,
            },
        ),
{
    lemma_names_differ();
}

/// A delta for a message that has ended is found.
pub proof fn law_late_delta_is_found(s: StreamV, f: FrameV, id: Seq<char>)
    requires
        extends_message(f, id),
        s.items.dom().contains(id),
        s.items[id].kind == ItemKind::AgentMessage,
        s.items[id].completed,
    ensures
        after_frame(s, f).found == s.found.push(
            FindingV::SchemaError {
                step: f.step,
                method: "item/"@ + "agentMessage"@ + "/delta"@,
                kind: FrameKind::Notification,
                message: late_delta(id),
            },
        ),
{
    lemma_names_differ();
}

/// What was found stays found.
pub proof fn law_findings_are_kept(s: StreamV, f: FrameV)
    ensures
        s.found.len() <= after_frame(s, f).found.len(),
        after_frame(s, f).found.take(s.found.len() as int) == s.found,
{
    assert(after_frame(s, f).found.take(s.found.len() as int) =~= s.found);
}

} // verus!
