//! Per-run event log.
//!
//! Every event of a run gets the next number of that run, from one on. The log of
//! a run is a text with one JSON object per line; it is the only source from
//! which events are replayed after a restart.

use vstd::prelude::*;

use crate::decode::{need_i64, need_str, read_i64, read_str};
use crate::json::{Json, JsonV};
use crate::json_text::{DEPTH, parse, parsed, render, rendered, storable};
use crate::text::{
    blank, ends_lines, is_blank, lemma_line_added, lines, lines_of, opt_text, strip_suffix, tag,
    texts, unbroken,
};
use crate::text_map::TextMap;

verus! {

/// A bridge event kept for replay.
pub struct NormalizedHermesEvent {
    /// Number within the run, from one on.
    pub seq: u64,
    /// Epoch milliseconds.
    pub ts: i64,
    pub thread_id: String,
    pub turn_id: String,
    pub run_id: String,
    /// Notification method.
    pub method: String,
    /// Notification parameters.
    pub params: Json,
}

/// The model of an event.
#[verifier::ext_equal]
pub struct EventV {
    pub seq: u64,
    pub ts: i64,
    pub thread_id: Seq<char>,
    pub turn_id: Seq<char>,
    pub run_id: Seq<char>,
    pub method: Seq<char>,
    pub params: JsonV,
}

impl NormalizedHermesEvent {
    /// The model of this event.
    pub open spec fn view(&self) -> EventV {
        EventV {
            seq: self.seq,
            ts: self.ts,
            thread_id: self.thread_id@,
            turn_id: self.turn_id@,
            run_id: self.run_id@,
            method: self.method@,
            params: self.params.view(),
        }
    }

    /// A copy of this event.
    pub fn copy(&self) -> (r: NormalizedHermesEvent)
        ensures
            r.view() == self.view(),
    {
        NormalizedHermesEvent {
            seq: self.seq,
            ts: self.ts,
            thread_id: self.thread_id.clone(),
            turn_id: self.turn_id.clone(),
            run_id: self.run_id.clone(),
            method: self.method.clone(),
            params: self.params.copy(),
        }
    }
}

/// The models of a list of events.
pub open spec fn event_views(s: Seq<NormalizedHermesEvent>) -> Seq<EventV> {
    s.map_values(|e: NormalizedHermesEvent| e.view())
}

// ---------------------------------------------------------------------------
// Numbering
// ---------------------------------------------------------------------------
/// The number that the next event of a run gets.
pub open spec fn next_number(counters: Map<Seq<char>, u64>, run: Seq<char>) -> u64 {
    if counters.dom().contains(run) && counters[run] > 1 {
        counters[run]
    } else {
        1
    }
}

/// The successor of a number; the last number is its own successor.
pub open spec fn successor(n: u64) -> u64 {
    if n < u64::MAX {
        (n + 1) as u64
    } else {
        n
    }
}

/// The counters after one more event of a run.
pub open spec fn counted(counters: Map<Seq<char>, u64>, run: Seq<char>) -> Map<Seq<char>, u64> {
    counters.insert(run, successor(next_number(counters, run)))
}

/// The highest number in a list of events, zero if there is none.
pub open spec fn highest(events: Seq<EventV>) -> u64
    decreases events.len(),
{
    if events.len() == 0 {
        0
    } else {
        let rest = highest(events.drop_last());
        if events.last().seq > rest {
            events.last().seq
        } else {
            rest
        }
    }
}

/// Numbers the events of every run.
pub struct EventStore {
    counters: TextMap<u64>,
}

impl EventStore {
    /// The next number of each run that has one.
    pub closed spec fn view(&self) -> Map<Seq<char>, u64> {
        self.counters@
    }

    /// A store that has seen no event.
    pub fn new_in_memory() -> (r: EventStore)
        ensures
            r.view() == Map::<Seq<char>, u64>::empty(),
    {
        EventStore { counters: TextMap::new() }
    }

    /// Takes the events of an existing log into account: numbering goes on after
    /// the highest number in it.
    pub fn resume(&mut self, run_id: &str, log: &str)
        ensures
            final(self).view() == old(self).view().insert(
                run_id@,
                successor(highest(events_in(lines_of(log@)))),
            ),
    {
        let events = read_log(log);
        let mut max: u64 = 0;
        let mut i: usize = 0;
        let ghost views = event_views(events@);
        while i < events.len()
            invariant
                i <= events@.len(),
                views == event_views(events@),
                max == highest(views.take(i as int)),
            decreases events@.len() - i,
        {
            assert(views.take(i + 1).drop_last() == views.take(i as int));
            if events[i].seq > max {
                max = events[i].seq;
            }
            i += 1;
        }
        assert(views.take(events@.len() as int) == views);
        let next: u64 = if max < u64::MAX {
            max + 1
        } else {
            max
        };
        self.counters.insert(run_id, next);
    }

    /// Gives an event of a run its number, whatever number it had, and counts it.
    pub fn append(&mut self, run_id: &str, event: NormalizedHermesEvent) -> (r:
        NormalizedHermesEvent)
        ensures
            r.view() == (EventV { seq: next_number(old(self).view(), run_id@), ..event.view() }),
            final(self).view() == counted(old(self).view(), run_id@),
    {
        let mut event = event;
        let n: u64 = match self.counters.get(run_id) {
            Some(n) => if *n > 1 {
                *n
            } else {
                1
            },
            None => 1,
        };
        let next: u64 = if n < u64::MAX {
            n + 1
        } else {
            n
        };
        self.counters.insert(run_id, next);
        event.seq = n;
        event
    }
}

// ---------------------------------------------------------------------------
// The log
// ---------------------------------------------------------------------------
/// An event as a JSON object.
pub open spec fn event_json(e: EventV) -> JsonV {
    JsonV::object()
        .with("seq"@, JsonV::Int(e.seq as int))
        .with("ts"@, JsonV::Int(e.ts as int))
        .with("threadId"@, JsonV::Str(e.thread_id))
        .with("turnId"@, JsonV::Str(e.turn_id))
        .with("runId"@, JsonV::Str(e.run_id))
        .with("method"@, JsonV::Str(e.method))
        .with("params"@, e.params)
}

/// The event that a JSON object stands for, if its fields have the right types.
pub open spec fn event_in(v: JsonV) -> Option<EventV> {
    match (
        v.get("seq"@),
        need_i64(v, "ts"@),
        need_str(v, "threadId"@),
        need_str(v, "turnId"@),
        need_str(v, "runId"@),
        need_str(v, "method"@),
        v.get("params"@),
    ) {
        (
            Some(seq),
            Some(ts),
            Some(thread_id),
            Some(turn_id),
            Some(run_id),
            Some(method),
            Some(params),
        ) => match seq.as_u64() {
            Some(n) => Some(
                EventV { seq: n as u64, ts: ts as i64, thread_id, turn_id, run_id, method, params },
            ),
            None => None,
        },
        _ => None,
    }
}

/// The events of a log: blank lines and lines that hold no event are skipped. Of a field
/// that a line gives more than once, the last counts, and an array of fields is no event.
pub open spec fn events_in(log: Seq<Seq<char>>) -> Seq<EventV>
    decreases log.len(),
{
    if log.len() == 0 {
        seq![]
    } else {
        let rest = events_in(log.drop_last());
        let line = log.last();
        if blank(line) {
            rest
        } else {
            match parsed(line) {
                Some(v) => match event_in(v) {
                    Some(e) => rest.push(e),
                    None => rest,
                },
                None => rest,
            }
        }
    }
}

/// A line that records an event.
pub open spec fn records_event(line: Seq<char>, e: EventV) -> bool {
    &&& unbroken(line)
    &&& !blank(line)
    &&& parsed(line) == Some(event_json(e))
}

/// The line that records an event. Without floating-point numbers, and nested no deeper
/// than what can be read, an event is recorded without loss.
pub fn event_line(e: &NormalizedHermesEvent) -> (r: String)
    ensures
        r@ == rendered(event_json(e.view())),
        !blank(r@),
        unbroken(r@),
        storable(e.params.view(), (DEPTH - 1) as nat) ==> records_event(r@, e.view()),
{
    let j = Json::object()
        .with("seq", Json::Uint(e.seq))
        .with("ts", Json::Int(e.ts))
        .with("threadId", Json::text(e.thread_id.as_str()))
        .with("turnId", Json::text(e.turn_id.as_str()))
        .with("runId", Json::text(e.run_id.as_str()))
        .with("method", Json::text(e.method.as_str()))
        .with("params", e.params.copy());
    proof {
        let v = event_json(e.view());
        if storable(e.params.view(), (DEPTH - 1) as nat) {
            assert forall|k: Seq<char>| #[trigger] v->Obj_0.dom().contains(k) implies storable(
                v->Obj_0[k],
                (DEPTH - 1) as nat,
            ) by {
                if k != "params"@ {
                    assert(!(v->Obj_0[k] is Arr));
                    assert(!(v->Obj_0[k] is Obj));
                }
            }
        }
    }
    render(&j)
}

/// Reads an event from a JSON object.
pub fn event_from_json(v: &Json) -> (r: Option<NormalizedHermesEvent>)
    ensures
        match r {
            Some(e) => event_in(v.view()) == Some(e.view()),
            None => event_in(v.view()) is None,
        },
{
    match (
        v.get("seq"),
        read_i64(v, "ts"),
        read_str(v, "threadId"),
        read_str(v, "turnId"),
        read_str(v, "runId"),
        read_str(v, "method"),
        v.get("params"),
    ) {
        (
            Some(seq),
            Some(ts),
            Some(thread_id),
            Some(turn_id),
            Some(run_id),
            Some(method),
            Some(params),
        ) => match seq.as_u64() {
            Some(n) => Some(
                NormalizedHermesEvent {
                    seq: n,
                    ts,
                    thread_id,
                    turn_id,
                    run_id,
                    method,
                    params: params.copy(),
                },
            ),
            None => None,
        },
        _ => None,
    }
}

/// All events of a log, in order.
pub fn read_log(log: &str) -> (r: Vec<NormalizedHermesEvent>)
    ensures
        event_views(r@) == events_in(lines_of(log@)),
{
    let all = lines(log);
    let ghost views = texts(all@);
    let mut out: Vec<NormalizedHermesEvent> = Vec::new();
    let mut i: usize = 0;
    assert(event_views(out@) =~= seq![]);
    while i < all.len()
        invariant
            i <= all@.len(),
            views == texts(all@),
            event_views(out@) == events_in(views.take(i as int)),
        decreases all@.len() - i,
    {
        assert(views.take(i + 1).drop_last() == views.take(i as int));
        assert(views.take(i + 1).last() == all@[i as int]@);
        let ghost before = out@;
        if !is_blank(all[i].as_str()) {
            match parse(all[i].as_str()) {
                Some(v) => {
                    match event_from_json(&v) {
                        Some(e) => {
                            let ghost ge = e;
                            out.push(e);
                            assert(event_views(out@) =~= event_views(before).push(ge.view()));
                        },
                        None => {},
                    }
                },
                None => {},
            }
        }
        i += 1;
    }
    assert(views.take(all@.len() as int) == views);
    out
}

/// The events after a given number.
pub open spec fn after(events: Seq<EventV>, seq: u64) -> Seq<EventV> {
    events.filter(|e: EventV| e.seq > seq)
}

/// The events that a run's log holds; a run without a log has none.
pub open spec fn logged(log: Option<&str>) -> Seq<EventV> {
    match log {
        Some(text) => events_in(lines_of(text@)),
        None => seq![],
    }
}

impl EventStore {
    /// All events of a run, in order.
    pub fn read_all(log: Option<&str>) -> (r: Vec<NormalizedHermesEvent>)
        ensures
            event_views(r@) == logged(log),
    {
        match log {
            Some(text) => read_log(text),
            None => {
                let none: Vec<NormalizedHermesEvent> = Vec::new();
                assert(event_views(none@) =~= seq![]);
                none
            },
        }
    }

    /// The events of a run whose number is above `after_seq`, in order.
    pub fn read_since(log: Option<&str>, after_seq: u64) -> (r: Vec<NormalizedHermesEvent>)
        ensures
            event_views(r@) == after(logged(log), after_seq),
    {
        events_after(&EventStore::read_all(log), after_seq)
    }
}

fn events_after(all: &Vec<NormalizedHermesEvent>, after_seq: u64) -> (r: Vec<NormalizedHermesEvent>)
    ensures
        event_views(r@) == after(event_views(all@), after_seq),
{
    let ghost views = event_views(all@);
    let mut out: Vec<NormalizedHermesEvent> = Vec::new();
    let mut i: usize = 0;
    let ghost keep = |e: EventV| e.seq > after_seq;
    proof {
        reveal(Seq::filter);
        assert(views.take(0).filter(keep) =~= seq![]);
        assert(event_views(out@) =~= seq![]);
    }
    while i < all.len()
        invariant
            i <= all@.len(),
            views == event_views(all@),
            keep == (|e: EventV| e.seq > after_seq),
            event_views(out@) == views.take(i as int).filter(keep),
        decreases all@.len() - i,
    {
        let ghost before = out@;
        proof {
            reveal(Seq::filter);
            assert(views.take(i + 1).drop_last() == views.take(i as int));
            assert(views.take(i + 1).last() == all@[i as int].view());
        }
        if all[i].seq > after_seq {
            let e = all[i].copy();
            let ghost ge = e;
            out.push(e);
            assert(event_views(out@) =~= event_views(before).push(ge.view()));
        }
        i += 1;
    }
    assert(views.take(all@.len() as int) == views);
    out
}

/// The run that a log file belongs to, told by its name.
pub fn run_of_log(file_name: &str) -> (r: Option<String>)
    ensures
        opt_text(r) == (if crate::text::ends(file_name@, ".jsonl"@) {
            Some(file_name@.take(file_name@.len() - ".jsonl"@.len()))
        } else {
            None
        }),
{
    strip_suffix(file_name, ".jsonl")
}

// ---------------------------------------------------------------------------
// Laws
// ---------------------------------------------------------------------------
proof fn lemma_event_keys()
    ensures
        tag("seq"@) == (3nat, 's', 'e'),
        tag("ts"@) == (2nat, 't', 's'),
        tag("threadId"@) == (8nat, 't', 'h'),
        tag("turnId"@) == (6nat, 't', 'u'),
        tag("runId"@) == (5nat, 'r', 'u'),
        tag("method"@) == (6nat, 'm', 'e'),
        tag("params"@) == (6nat, 'p', 'a'),
{
    reveal_strlit("seq");
    reveal_strlit("ts");
    reveal_strlit("threadId");
    reveal_strlit("turnId");
    reveal_strlit("runId");
    reveal_strlit("method");
    reveal_strlit("params");
}

/// An event is read back as it was written.
pub proof fn law_event_reads_back(e: EventV)
    ensures
        event_in(event_json(e)) == Some(e),
{
    lemma_event_keys();
    let v = event_json(e);
    assert(v.get("seq"@) == Some(JsonV::Int(e.seq as int)));
    assert(v.get("ts"@) == Some(JsonV::Int(e.ts as int)));
    assert(v.get("threadId"@) == Some(JsonV::Str(e.thread_id)));
    assert(v.get("turnId"@) == Some(JsonV::Str(e.turn_id)));
    assert(v.get("runId"@) == Some(JsonV::Str(e.run_id)));
    assert(v.get("method"@) == Some(JsonV::Str(e.method)));
    assert(v.get("params"@) == Some(e.params));
}

/// An event that is written behind whole lines of a log is read after all that the log
/// held before, whatever that was, and the log is whole lines again.
pub proof fn law_written_event_is_read(log: Seq<char>, line: Seq<char>, e: EventV)
    requires
        ends_lines(log),
        records_event(line, e),
    ensures
        events_in(lines_of(log + line + "\n"@)) == events_in(lines_of(log)).push(e),
        ends_lines(log + line + "\n"@),
{
    lemma_line_added(log, line);
    law_event_reads_back(e);
    let before = lines_of(log);
    assert(before.push(line).drop_last() =~= before);
    assert(before.push(line).last() == line);
}

/// The text of a log: each line with its end.
pub open spec fn log_text(lines: Seq<Seq<char>>) -> Seq<char>
    decreases lines.len(),
{
    if lines.len() == 0 {
        seq![]
    } else {
        log_text(lines.drop_last()) + lines.last() + "\n"@
    }
}

/// A log that was written event by event is read back as exactly those events, in order.
pub proof fn law_written_log_is_read(lines: Seq<Seq<char>>, events: Seq<EventV>)
    requires
        lines.len() == events.len(),
        forall|i: int|
            #![trigger lines[i]]
            0 <= i < lines.len() ==> records_event(lines[i], events[i]),
    ensures
        events_in(lines_of(log_text(lines))) == events,
        ends_lines(log_text(lines)),
    decreases lines.len(),
{
    if lines.len() > 0 {
        let l = lines.drop_last();
        let v = events.drop_last();
        assert forall|i: int| #![trigger l[i]] 0 <= i < l.len() implies records_event(
            l[i],
            v[i],
        ) by {
            assert(l[i] == lines[i]);
        }
        law_written_log_is_read(l, v);
        assert(lines[lines.len() - 1] == lines.last());
        law_written_event_is_read(log_text(l), lines.last(), events.last());
        assert(v.push(events.last()) =~= events);
    } else {
        assert(lines_of(log_text(lines)) =~= seq![]);
        assert(events =~= seq![]);
    }
}

/// A log whose lines record events replays exactly those events, in order.
pub proof fn law_log_replays(log: Seq<Seq<char>>, events: Seq<EventV>)
    requires
        log.len() == events.len(),
        forall|i: int|
            #![trigger log[i]]
            0 <= i < log.len() ==> !blank(log[i]) && parsed(log[i]) == Some(event_json(events[i])),
    ensures
        events_in(log) == events,
    decreases log.len(),
{
    if log.len() > 0 {
        assert forall|i: int| #![trigger log.drop_last()[i]] 0 <= i < log.drop_last().len() implies
            !blank(log.drop_last()[i]) && parsed(log.drop_last()[i]) == Some(
            event_json(events.drop_last()[i]),
        ) by {
            assert(log.drop_last()[i] == log[i]);
        }
        law_log_replays(log.drop_last(), events.drop_last());
        law_event_reads_back(events.last());
        assert(log[log.len() - 1] == log.last());
        assert(events.drop_last().push(events.last()) =~= events);
    } else {
        assert(events =~= seq![]);
    }
}

/// Numbers start at one and rise by one with every event of a run, as long as
/// there is a number left.
pub proof fn law_numbers_rise(counters: Map<Seq<char>, u64>, run: Seq<char>)
    ensures
        next_number(counters, run) >= 1,
        !counters.dom().contains(run) ==> next_number(counters, run) == 1,
        next_number(counters, run) < u64::MAX ==> next_number(counted(counters, run), run)
            == next_number(counters, run) + 1,
{
}

/// Runs are numbered independently of each other.
pub proof fn law_runs_are_independent(
    counters: Map<Seq<char>, u64>,
    run: Seq<char>,
    other: Seq<char>,
)
    requires
        run != other,
    ensures
        next_number(counted(counters, run), other) == next_number(counters, other),
{
}

/// After a restart numbering goes on above every number in the log, as long as
/// there is a number left.
pub proof fn law_resumed_numbers_are_new(
    counters: Map<Seq<char>, u64>,
    run: Seq<char>,
    events: Seq<EventV>,
    i: int,
)
    requires
        0 <= i < events.len(),
        highest(events) < u64::MAX,
    ensures
        next_number(counters.insert(run, successor(highest(events))), run) > events[i].seq,
    decreases events.len(),
{
    lemma_highest(events, i);
}

proof fn lemma_highest(events: Seq<EventV>, i: int)
    requires
        0 <= i < events.len(),
    ensures
        events[i].seq <= highest(events),
    decreases events.len(),
{
    if i < events.len() - 1 {
        lemma_highest(events.drop_last(), i);
    }
}

} // verus!
