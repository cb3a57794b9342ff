//! What was captured on the wire while a target went through the scenario.

use vstd::prelude::*;

use super::semantics::SemanticContext;
use crate::json::{Json, JsonV};
use crate::text::{owned, same, texts};

verus! {

/// An implementation that the harness can run against.
#[derive(Debug, Clone, Copy, PartialEq, Eq, Structural, Hash)]
pub enum TargetId {
    /// `codex app-server` itself, the reference.
    Codex,
    Pi,
    Amp,
    Claude,
    Opencode,
    Droid,
    Hermes,
    Acp,
}

/// All targets, the reference first.
pub const ALL_TARGETS: [TargetId; 8] = [
    TargetId::Codex,
    TargetId::Pi,
    TargetId::Amp,
    TargetId::Claude,
    TargetId::Opencode,
    TargetId::Droid,
    TargetId::Hermes,
    TargetId::Acp,
];

/// Whether a name is none of the short names that are fixed.
pub open spec fn is_free(name: Seq<char>) -> bool {
    name != "codex"@ && name != "pi"@ && name != "amp"@ && name != "opencode"@ && name
        != "droid"@ && name != "hermes"@ && name != "acp"@
}

/// The name under which the coding assistant is installed. It is not the short name of
/// another target.
pub struct AssistantName {
    name: String,
}

impl AssistantName {
    /// The name.
    pub closed spec fn view(&self) -> Seq<char> {
        self.name@
    }

    #[verifier::type_invariant]
    spec fn inv(self) -> bool {
        is_free(self.name@)
    }

    /// The assistant of that name; none if another target has it.
    pub fn new(name: &str) -> (r: Option<AssistantName>)
        ensures
            match r {
                Some(a) => is_free(name@) && a@ == name@,
                None => !is_free(name@),
            },
    {
        if same(name, "codex") || same(name, "pi") || same(name, "amp") || same(name, "opencode")
            || same(name, "droid") || same(name, "hermes") || same(name, "acp") {
            None
        } else {
            Some(AssistantName { name: owned(name) })
        }
    }

    /// The name.
    pub fn as_str(&self) -> (r: &str)
        ensures
            r@ == self@,
            is_free(self@),
    {
        proof {
            use_type_invariant(self);
        }
        self.name.as_str()
    }
}

/// The short name of a target; the coding assistant is known by the name under which it
/// is installed.
pub open spec fn target_label(t: TargetId, assistant: Seq<char>) -> Seq<char> {
    match t {
        TargetId::Codex => "codex"@,
        TargetId::Pi => "pi"@,
        TargetId::Amp => "amp"@,
        TargetId::Claude => assistant,
        TargetId::Opencode => "opencode"@,
        TargetId::Droid => "droid"@,
        TargetId::Hermes => "hermes"@,
        TargetId::Acp => "acp"@,
    }
}

impl TargetId {
    /// The short name of this target; the coding assistant is known by the name under
    /// which it is installed.
    pub fn label<'a>(self, assistant: &'a AssistantName) -> (r: &'a str)
        ensures
            r@ == target_label(self, assistant@),
            forall|t: TargetId| t != self ==> #[trigger] target_label(t, assistant@) != r@,
    {
        proof {
            use_type_invariant(assistant);
            assert forall|t: TargetId| t != self implies #[trigger] target_label(t, assistant@)
                != target_label(self, assistant@) by {
                law_labels_differ(t, self, assistant@);
            }
        }
        match self {
            TargetId::Codex => "codex",
            TargetId::Pi => "pi",
            TargetId::Amp => "amp",
            TargetId::Claude => assistant.as_str(),
            TargetId::Opencode => "opencode",
            TargetId::Droid => "droid",
            TargetId::Hermes => "hermes",
            TargetId::Acp => "acp",
        }
    }
}

/// Every target is in the list of all targets.
pub proof fn law_all_targets(t: TargetId)
    ensures
        exists|i: int| 0 <= i < ALL_TARGETS@.len() && #[trigger] ALL_TARGETS@[i] == t,
{
    let i: int = match t {
        TargetId::Codex => 0,
        TargetId::Pi => 1,
        TargetId::Amp => 2,
        TargetId::Claude => 3,
        TargetId::Opencode => 4,
        TargetId::Droid => 5,
        TargetId::Hermes => 6,
        TargetId::Acp => 7,
    };
    assert(ALL_TARGETS@[i] == t);
}

/// No two targets have the same short name, whatever name the coding assistant can have.
pub proof fn law_labels_differ(a: TargetId, b: TargetId, assistant: Seq<char>)
    requires
        a != b,
        is_free(assistant),
    ensures
        target_label(a, assistant) != target_label(b, assistant),
{
    reveal_strlit("codex");
    reveal_strlit("pi");
    reveal_strlit("amp");
    reveal_strlit("opencode");
    reveal_strlit("droid");
    reveal_strlit("hermes");
    reveal_strlit("acp");
    assert(crate::text::tag("codex"@) == (5nat, 'c', 'o'));
    assert(crate::text::tag("pi"@) == (2nat, 'p', 'i'));
    assert(crate::text::tag("amp"@) == (3nat, 'a', 'm'));
    assert(crate::text::tag("opencode"@) == (8nat, 'o', 'p'));
    assert(crate::text::tag("droid"@) == (5nat, 'd', 'r'));
    assert(crate::text::tag("hermes"@) == (6nat, 'h', 'e'));
    assert(crate::text::tag("acp"@) == (3nat, 'a', 'c'));
}

/// Whether a frame answers a request or came by itself.
#[derive(Debug, Clone, Copy, PartialEq, Eq, Structural, PartialOrd, Ord)]
pub enum FrameKind {
    Response,
    Notification,
}

/// The name of a kind.
pub open spec fn kind_name(k: FrameKind) -> Seq<char> {
    match k {
        FrameKind::Response => "Response"@,
        FrameKind::Notification => "Notification"@,
    }
}

impl FrameKind {
    /// The name of this kind.
    pub fn name(self) -> (r: &'static str)
        ensures
            r@ == kind_name(self),
    {
        match self {
            FrameKind::Response => "Response",
            FrameKind::Notification => "Notification",
        }
    }
}

/// A captured frame with the step of the scenario that it belongs to.
#[derive(Debug)]
pub struct Frame {
    pub step: String,
    pub kind: FrameKind,
    /// The method of a notification, or of the request that a response answers.
    pub method: String,
    /// The frame as it came off the wire.
    pub raw: Json,
}

/// The model of [`Frame`].
pub struct FrameV {
    pub step: Seq<char>,
    pub kind: FrameKind,
    pub method: Seq<char>,
    pub raw: JsonV,
}

impl Frame {
    /// The model of this frame.
    pub open spec fn view(&self) -> FrameV {
        FrameV {
            step: self.step@,
            kind: self.kind,
            method: self.method@,
            raw: self.raw.view(),
        }
    }
}

/// The models of a list of frames.
pub open spec fn frames(s: Seq<Frame>) -> Seq<FrameV> {
    s.map_values(|f: Frame| f.view())
}

/// What a target did in the scenario.
pub struct Transcript {
    pub target: TargetId,
    pub frames: Vec<Frame>,
    pub semantic_ctx: Option<SemanticContext>,
    pub disposable_thread_id: Option<String>,
}

/// The frames of one kind, in order.
pub open spec fn of_kind(s: Seq<FrameV>, kind: FrameKind) -> Seq<FrameV> {
    s.filter(|f: FrameV| f.kind == kind)
}

/// The methods of the notifications, in the order of the wire.
pub open spec fn notification_names(s: Seq<FrameV>) -> Seq<Seq<char>> {
    of_kind(s, FrameKind::Notification).map_values(|f: FrameV| f.method)
}

impl Transcript {
    /// A transcript without frames.
    pub fn new(target: TargetId) -> (r: Transcript)
        ensures
            r.target == target,
            frames(r.frames@) == Seq::<FrameV>::empty(),
            r.semantic_ctx is None,
            r.disposable_thread_id is None,
    {
        let r = Transcript {
            target,
            frames: Vec::new(),
            semantic_ctx: None,
            disposable_thread_id: None,
        };
        assert(frames(r.frames@) =~= Seq::empty());
        r
    }

    /// Adds a frame at the end.
    pub fn push(&mut self, frame: Frame)
        ensures
            final(self).frames@ == old(self).frames@.push(frame),
            frames(final(self).frames@) == frames(old(self).frames@).push(frame.view()),
            final(self).target == old(self).target,
            final(self).semantic_ctx == old(self).semantic_ctx,
            final(self).disposable_thread_id == old(self).disposable_thread_id,
    {
        self.frames.push(frame);
        assert(frames(self.frames@) =~= frames(old(self).frames@).push(frame.view()));
    }

    fn select(&self, kind: FrameKind) -> (r: Vec<&Frame>)
        ensures
            r@.map_values(|f: &Frame| f.view()) == of_kind(frames(self.frames@), kind),
    {
        let mut out: Vec<&Frame> = Vec::new();
        let ghost all = frames(self.frames@);
        let ghost keep = |f: FrameV| f.kind == kind;
        let mut i: usize = 0;
        proof {
            reveal(Seq::filter);
            assert(all.take(0).filter(keep) =~= Seq::empty());
            assert(out@.map_values(|f: &Frame| f.view()) =~= Seq::empty());
        }
        while i < self.frames.len()
            invariant
                i <= self.frames@.len(),
                all == frames(self.frames@),
                keep == (|f: FrameV| f.kind == kind),
                out@.map_values(|f: &Frame| f.view()) == all.take(i as int).filter(keep),
            decreases self.frames@.len() - i,
        {
            let ghost was = out@;
            proof {
                reveal(Seq::filter);
                assert(all.take(i + 1).drop_last() =~= all.take(i as int));
                assert(all.take(i + 1).last() == self.frames@[i as int].view());
            }
            if self.frames[i].kind == kind {
                out.push(&self.frames[i]);
                assert(out@.map_values(|f: &Frame| f.view()) =~= was.map_values(
                    |f: &Frame| f.view(),
                ).push(self.frames@[i as int].view()));
            }
            i += 1;
        }
        assert(all.take(i as int) =~= all);
        out
    }

    /// The responses, in order.
    pub fn responses(&self) -> (r: Vec<&Frame>)
        ensures
            r@.map_values(|f: &Frame| f.view()) == of_kind(
                frames(self.frames@),
                FrameKind::Response,
            ),
    {
        self.select(FrameKind::Response)
    }

    /// The notifications, in order.
    pub fn notifications(&self) -> (r: Vec<&Frame>)
        ensures
            r@.map_values(|f: &Frame| f.view()) == of_kind(
                frames(self.frames@),
                FrameKind::Notification,
            ),
    {
        self.select(FrameKind::Notification)
    }

    /// The methods of the notifications, in the order of the wire.
    pub fn notification_methods(&self) -> (r: Vec<String>)
        ensures
            texts(r@) == notification_names(frames(self.frames@)),
    {
        let picked = self.notifications();
        let mut out: Vec<String> = Vec::new();
        let mut i: usize = 0;
        while i < picked.len()
            invariant
                i <= picked@.len(),
                out@.len() == i,
                forall|j: int| 0 <= j < i ==> (#[trigger] out@[j])@ == picked@[j].method@,
            decreases picked@.len() - i,
        {
            out.push(owned(picked[i].method.as_str()));
            i += 1;
        }
        proof {
            let all = of_kind(frames(self.frames@), FrameKind::Notification);
            assert forall|j: int| 0 <= j < all.len() implies all[j] == (#[trigger] picked@[j]).view() by {
                assert(picked@.map_values(|f: &Frame| f.view())[j] == picked@[j].view());
            }
            assert(picked@.map_values(|f: &Frame| f.view()).len() == picked@.len());
            assert(texts(out@) =~= notification_names(frames(self.frames@)));
        }
        out
    }
}

} // verus!
