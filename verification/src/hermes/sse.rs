//! Server-sent events as the gateway writes them.
//!
//! A frame is a run of lines up to an empty line. Its `event:` line names the
//! event and its `data:` lines, joined by line feeds, are its JSON data.

use vstd::prelude::*;

use super::api_client::{HermesEvent, HermesEventV};
use crate::json::{Json, JsonV};
use crate::json_text::{parse, parsed};
use crate::text::{begins, join, joined, lines, lines_of, owned, strip_prefix, texts, trim, trimmed};

verus! {

/// What has been read of a frame, and the frames before it.
#[verifier::ext_equal]
pub struct FramesV {
    pub event: Option<Seq<char>>,
    pub data: Seq<Seq<char>>,
    pub done: Seq<HermesEventV>,
}

/// The value of a frame's data: the JSON value, or the text itself where it is
/// none.
pub open spec fn frame_data(text: Seq<char>) -> JsonV {
    match parsed(text) {
        Some(v) => v,
        None => JsonV::Str(text),
    }
}

/// Ends the frame, if anything was read of it.
pub open spec fn ended(s: FramesV) -> FramesV {
    if s.event is None && s.data.len() == 0 {
        s
    } else {
        FramesV {
            event: None,
            data: seq![],
            done: s.done.push(
                HermesEventV {
                    event: match s.event {
                        Some(e) => e,
                        None => "message"@,
                    },
                    data: frame_data(joined(s.data, "\n"@)),
                },
            ),
        }
    }
}

/// Reads one line.
pub open spec fn stepped(s: FramesV, line: Seq<char>) -> FramesV {
    if line.len() == 0 {
        ended(s)
    } else if begins(line, "event:"@) {
        FramesV { event: Some(trimmed(line.skip("event:"@.len() as int))), ..s }
    } else if begins(line, "data:"@) {
        FramesV { data: s.data.push(trimmed(line.skip("data:"@.len() as int))), ..s }
    } else {
        s
    }
}

/// Reads lines in order.
pub open spec fn walked(all: Seq<Seq<char>>) -> FramesV
    decreases all.len(),
{
    if all.len() == 0 {
        FramesV { event: None, data: seq![], done: seq![] }
    } else {
        stepped(walked(all.drop_last()), all.last())
    }
}

/// The events of a text; the last frame need not be ended by an empty line.
pub open spec fn frames_in(text: Seq<char>) -> Seq<HermesEventV> {
    ended(walked(lines_of(text))).done
}

/// The models of a list of events.
pub open spec fn hermes_events(s: Seq<HermesEvent>) -> Seq<HermesEventV> {
    s.map_values(|e: HermesEvent| e.view())
}

struct Frames {
    event: Option<String>,
    data: Vec<String>,
    done: Vec<HermesEvent>,
}

impl Frames {
    spec fn view(&self) -> FramesV {
        FramesV {
            event: crate::text::opt_text(self.event),
            data: texts(self.data@),
            done: hermes_events(self.done@),
        }
    }

    fn end(&mut self)
        ensures
            final(self).view() == ended(old(self).view()),
    {
        if self.event.is_none() && self.data.len() == 0 {
            return ;
        }
        let text = join(&self.data, "\n");
        let data = match parse(text.as_str()) {
            Some(v) => v,
            None => Json::Str(text),
        };
        let event = match &self.event {
            Some(e) => e.clone(),
            None => owned("message"),
        };
        let e = HermesEvent { event, data };
        let ghost before = self.done@;
        let ghost ge = e;
        self.done.push(e);
        assert(hermes_events(self.done@) =~= hermes_events(before).push(ge.view()));
        self.event = None;
        self.data = Vec::new();
        assert(texts(self.data@) =~= seq![]);
    }

    fn line(&mut self, line: &str)
        ensures
            final(self).view() == stepped(old(self).view(), line@),
    {
        if line.is_empty() {
            self.end();
            return ;
        }
        match strip_prefix(line, "event:") {
            Some(rest) => {
                self.event = Some(trim(rest.as_str()));
                return ;
            },
            None => {},
        }
        match strip_prefix(line, "data:") {
            Some(rest) => {
                let ghost before = self.data@;
                let t = trim(rest.as_str());
                let ghost gt = t@;
                self.data.push(t);
                assert(texts(self.data@) =~= texts(before).push(gt));
            },
            None => {},
        }
    }
}

/// Reads the events of a text.
pub fn parse_sse_frames(text: &str) -> (r: Vec<HermesEvent>)
    ensures
        hermes_events(r@) == frames_in(text@),
{
    let all = lines(text);
    let ghost views = texts(all@);
    let mut f = Frames { event: None, data: Vec::new(), done: Vec::new() };
    assert(texts(f.data@) =~= seq![]);
    assert(hermes_events(f.done@) =~= seq![]);
    let mut i: usize = 0;
    while i < all.len()
        invariant
            i <= all@.len(),
            views == texts(all@),
            f.view() == walked(views.take(i as int)),
        decreases all@.len() - i,
    {
        assert(views.take(i + 1).drop_last() == views.take(i as int));
        assert(views.take(i + 1).last() == all@[i as int]@);
        f.line(all[i].as_str());
        i += 1;
    }
    assert(views.take(all@.len() as int) == views);
    f.end();
    f.done
}

} // verus!
