//! The turns of each thread: those of this process, and those that the run store
//! and the event log remember.

use vstd::prelude::*;

use super::event_store::{EventV, NormalizedHermesEvent, event_views};
use super::run_state::{HermesRunRecord, HermesTurnStatus, RunV};
use crate::codex::thread::{
    ItemV, ThreadItem, Turn, TurnError, TurnStatus, TurnV, copy_turns, fresh_turn, in_progress_turn,
    item_from_json, item_in, items, turns,
};
use crate::text::{opt_text, owned, same};
use crate::text_map::TextMap;

verus! {

// ---------------------------------------------------------------------------
// Turns of this process
// ---------------------------------------------------------------------------
/// The turns with an item added to the last one of the given id.
pub open spec fn item_logged(s: Seq<TurnV>, id: Seq<char>, item: ItemV) -> Seq<TurnV>
    decreases s.len(),
{
    if s.len() == 0 {
        s
    } else if s.last().id == id {
        s.drop_last().push(TurnV { items: s.last().items.push(item), ..s.last() })
    } else {
        item_logged(s.drop_last(), id, item).push(s.last())
    }
}

/// A turn at its end.
pub open spec fn turn_done(t: TurnV, error: Option<Seq<char>>, now: i64) -> TurnV {
    TurnV {
        status: if error is Some {
            TurnStatus::Failed
        } else {
            TurnStatus::Completed
        },
        error,
        completed_at: Some(now),
        ..t
    }
}

/// The turns with the last one of the given id at its end.
pub open spec fn end_logged(
    s: Seq<TurnV>,
    id: Seq<char>,
    error: Option<Seq<char>>,
    now: i64,
) -> Seq<TurnV>
    decreases s.len(),
{
    if s.len() == 0 {
        s
    } else if s.last().id == id {
        s.drop_last().push(turn_done(s.last(), error, now))
    } else {
        end_logged(s.drop_last(), id, error, now).push(s.last())
    }
}

proof fn lemma_item_logged(s: Seq<TurnV>, id: Seq<char>, item: ItemV, p: int)
    requires
        0 <= p < s.len(),
        s[p].id == id,
        forall|j: int| p < j < s.len() ==> (#[trigger] s[j]).id != id,
    ensures
        item_logged(s, id, item) == s.update(
            p,
            TurnV { items: s[p].items.push(item), ..s[p] },
        ),
    decreases s.len(),
{
    let u = s.update(p, TurnV { items: s[p].items.push(item), ..s[p] });
    if p == s.len() - 1 {
        assert(item_logged(s, id, item) =~= u);
    } else {
        assert(s[s.len() - 1].id != id);
        assert forall|j: int| p < j < s.drop_last().len() implies (
        #[trigger] s.drop_last()[j]).id != id by {
            assert(s[j].id != id);
        }
        lemma_item_logged(s.drop_last(), id, item, p);
        assert(item_logged(s, id, item) =~= u);
    }
}

proof fn lemma_end_logged(
    s: Seq<TurnV>,
    id: Seq<char>,
    error: Option<Seq<char>>,
    now: i64,
    p: int,
)
    requires
        0 <= p < s.len(),
        s[p].id == id,
        forall|j: int| p < j < s.len() ==> (#[trigger] s[j]).id != id,
    ensures
        end_logged(s, id, error, now) == s.update(p, turn_done(s[p], error, now)),
    decreases s.len(),
{
    let u = s.update(p, turn_done(s[p], error, now));
    if p == s.len() - 1 {
        assert(end_logged(s, id, error, now) =~= u);
    } else {
        assert(s[s.len() - 1].id != id);
        assert forall|j: int| p < j < s.drop_last().len() implies (
        #[trigger] s.drop_last()[j]).id != id by {
            assert(s[j].id != id);
        }
        lemma_end_logged(s.drop_last(), id, error, now, p);
        assert(end_logged(s, id, error, now) =~= u);
    }
}

proof fn lemma_unlogged(s: Seq<TurnV>, id: Seq<char>, item: ItemV, error: Option<Seq<char>>, now: i64)
    requires
        forall|j: int| 0 <= j < s.len() ==> (#[trigger] s[j]).id != id,
    ensures
        item_logged(s, id, item) == s,
        end_logged(s, id, error, now) == s,
    decreases s.len(),
{
    if s.len() > 0 {
        assert(s[s.len() - 1].id != id);
        assert forall|j: int| 0 <= j < s.drop_last().len() implies (
        #[trigger] s.drop_last()[j]).id != id by {
            assert(s[j].id != id);
        }
        lemma_unlogged(s.drop_last(), id, item, error, now);
        assert(s.drop_last().push(s.last()) =~= s);
    }
}

fn last_turn(v: &Vec<Turn>, id: &str) -> (r: Option<usize>)
    ensures
        match r {
            Some(p) => p < v@.len() && turns(v@)[p as int].id == id@ && forall|j: int|
                p < j < v@.len() ==> (#[trigger] turns(v@)[j]).id != id@,
            None => forall|j: int| 0 <= j < v@.len() ==> (#[trigger] turns(v@)[j]).id != id@,
        },
{
    let mut i: usize = v.len();
    while i > 0
        invariant
            i <= v@.len(),
            forall|j: int| i <= j < v@.len() ==> (#[trigger] turns(v@)[j]).id != id@,
        decreases i,
    {
        i -= 1;
        if same(v[i].id.as_str(), id) {
            return Some(i);
        }
    }
    None
}

/// The turns of this process, by thread.
pub struct TurnLog {
    threads: TextMap<Vec<Turn>>,
}

/// The turns of a thread; none if it has no log.
pub open spec fn turns_of(log: Map<Seq<char>, Seq<TurnV>>, thread: Seq<char>) -> Seq<TurnV> {
    if log.dom().contains(thread) {
        log[thread]
    } else {
        seq![]
    }
}

impl TurnLog {
    /// The turns of each thread that has some.
    pub closed spec fn view(&self) -> Map<Seq<char>, Seq<TurnV>> {
        self.threads@.map_values(|v: Vec<Turn>| turns(v@))
    }

    /// A log without turns.
    pub fn new() -> (r: TurnLog)
        ensures
            r.view() == Map::<Seq<char>, Seq<TurnV>>::empty(),
    {
        let r = TurnLog { threads: TextMap::new() };
        assert(r.view() =~= Map::empty());
        r
    }

    fn put(&mut self, thread_id: &str, v: Vec<Turn>)
        ensures
            final(self).view() == old(self).view().insert(thread_id@, turns(v@)),
    {
        self.threads.insert(thread_id, v);
        assert(self.view() =~= old(self).view().insert(thread_id@, turns(v@)));
    }

    /// The turns of a thread.
    pub fn of_thread(&self, thread_id: &str) -> (r: Vec<Turn>)
        ensures
            turns(r@) == turns_of(self.view(), thread_id@),
    {
        match self.threads.get(thread_id) {
            Some(v) => copy_turns(v),
            None => {
                let none: Vec<Turn> = Vec::new();
                assert(turns(none@) =~= seq![]);
                none
            },
        }
    }

    /// Opens a turn.
    pub fn start_logged_turn(&mut self, thread_id: &str, turn_id: &str, now: i64)
        ensures
            final(self).view() == old(self).view().insert(
                thread_id@,
                turns_of(old(self).view(), thread_id@).push(
                    fresh_turn(turn_id@, TurnStatus::InProgress, Some(now)),
                ),
            ),
    {
        let mut v = self.of_thread(thread_id);
        let ghost before = v@;
        let t = in_progress_turn(turn_id, now);
        let ghost gt = t;
        v.push(t);
        assert(turns(v@) =~= turns(before).push(gt.view()));
        self.put(thread_id, v);
    }

    /// Adds an item to a turn; a turn that is not in the log gets none.
    pub fn push_logged_item(&mut self, thread_id: &str, turn_id: &str, item: ThreadItem)
        ensures
            final(self).view() == (if old(self).view().dom().contains(thread_id@) {
                old(self).view().insert(
                    thread_id@,
                    item_logged(old(self).view()[thread_id@], turn_id@, item.view()),
                )
            } else {
                old(self).view()
            }),
    {
        if !self.threads.contains_key(thread_id) {
            return ;
        }
        let mut v = self.of_thread(thread_id);
        let ghost s = turns(v@);
        let ghost gi = item.view();
        match last_turn(&v, turn_id) {
            Some(p) => {
                let mut t = v[p].copy();
                let ghost before = t.items@;
                t.items.push(item);
                assert(items(t.items@) =~= items(before).push(gi));
                let ghost gt = t;
                v.set(p, t);
                assert(turns(v@) =~= s.update(p as int, gt.view()));
                proof {
                    lemma_item_logged(s, turn_id@, gi, p as int);
                }
            },
            None => {
                proof {
                    lemma_unlogged(s, turn_id@, gi, None, 0);
                }
            },
        }
        self.put(thread_id, v);
    }

    /// Brings a turn to its end; a turn that is not in the log is left alone.
    pub fn complete_logged_turn(
        &mut self,
        thread_id: &str,
        turn_id: &str,
        error: Option<String>,
        now: i64,
    )
        ensures
            final(self).view() == (if old(self).view().dom().contains(thread_id@) {
                old(self).view().insert(
                    thread_id@,
                    end_logged(old(self).view()[thread_id@], turn_id@, opt_text(error), now),
                )
            } else {
                old(self).view()
            }),
    {
        if !self.threads.contains_key(thread_id) {
            return ;
        }
        let mut v = self.of_thread(thread_id);
        let ghost s = turns(v@);
        let ghost ge = opt_text(error);
        match last_turn(&v, turn_id) {
            Some(p) => {
                let mut t = v[p].copy();
                t.status = if error.is_some() {
                    TurnStatus::Failed
                } else {
                    TurnStatus::Completed
                };
                t.error = match error {
                    Some(message) => Some(TurnError { message }),
                    None => None,
                };
                t.completed_at = Some(now);
                let ghost gt = t;
                v.set(p, t);
                assert(turns(v@) =~= s.update(p as int, gt.view()));
                proof {
                    lemma_end_logged(s, turn_id@, ge, now, p as int);
                }
            },
            None => {
                proof {
                    lemma_unlogged(s, turn_id@, ItemV::AgentMessage { id: seq![], text: seq![] }, ge, now);
                }
            },
        }
        self.put(thread_id, v);
    }
}

// ---------------------------------------------------------------------------
// Turns that outlived their process
// ---------------------------------------------------------------------------
/// The items with `x` in place of an earlier item of the same id, or at the end.
pub open spec fn item_put(s: Seq<ItemV>, x: ItemV) -> Seq<ItemV>
    decreases s.len(),
{
    if s.len() == 0 {
        seq![x]
    } else if s[0].id() == x.id() {
        seq![x] + s.skip(1)
    } else {
        seq![s[0]] + item_put(s.skip(1), x)
    }
}

/// The item that an event carries, if it carries one.
pub open spec fn event_item(e: EventV) -> Option<ItemV> {
    if e.method == "item/started"@ || e.method == "item/completed"@ {
        match e.params.get("item"@) {
            Some(v) => item_in(v),
            None => None,
        }
    } else {
        None
    }
}

/// The items that events leave behind: the newest form of each.
pub open spec fn replayed_items(events: Seq<EventV>) -> Seq<ItemV>
    decreases events.len(),
{
    if events.len() == 0 {
        seq![]
    } else {
        let rest = replayed_items(events.drop_last());
        match event_item(events.last()) {
            Some(x) => item_put(rest, x),
            None => rest,
        }
    }
}

/// The status of a turn whose run is in `status`.
pub open spec fn shown_status(status: HermesTurnStatus) -> TurnStatus {
    match status {
        HermesTurnStatus::Completed => TurnStatus::Completed,
        HermesTurnStatus::Starting => TurnStatus::InProgress,
        HermesTurnStatus::Running => TurnStatus::InProgress,
        _ => TurnStatus::Failed,
    }
}

/// How long a run took; never less than nothing.
pub open spec fn run_duration(r: RunV) -> Option<i64> {
    match r.completed_at {
        Some(end) => Some(
            if end < r.created_at {
                0
            } else {
                (end - r.created_at) as i64
            },
        ),
        None => None,
    }
}

/// The turn that a run record and the events of its run stand for.
pub open spec fn turn_of_record(r: RunV, events: Seq<EventV>) -> TurnV {
    TurnV {
        id: r.turn_id,
        items: replayed_items(events),
        items_view: "full"@,
        status: shown_status(r.status),
        error: r.error,
        started_at: Some(r.created_at),
        completed_at: r.completed_at,
        duration_ms: run_duration(r),
    }
}

fn put_item(v: &mut Vec<ThreadItem>, x: ThreadItem)
    ensures
        items(final(v)@) == item_put(items(old(v)@), x.view()),
{
    let ghost start = items(v@);
    let ghost gx = x.view();
    let mut i: usize = 0;
    assert(start.skip(0) == start);
    assert(start.take(0) + item_put(start, gx) =~= item_put(start, gx));
    while i < v.len() && !same(v[i].id(), x.id())
        invariant
            i <= v@.len(),
            items(v@) == start,
            gx == x.view(),
            item_put(start, gx) == start.take(i as int) + item_put(start.skip(i as int), gx),
        decreases v@.len() - i,
    {
        assert(start[i as int] == v@[i as int].view());
        assert(start.skip(i as int)[0] == start[i as int]);
        assert(start.skip(i as int).skip(1) == start.skip(i + 1));
        assert(start.take(i as int) + (seq![start[i as int]] + item_put(start.skip(i + 1), gx))
            =~= start.take(i + 1) + item_put(start.skip(i + 1), gx));
        i += 1;
    }
    if i < v.len() {
        assert(start[i as int] == v@[i as int].view());
        assert(start.skip(i as int)[0] == start[i as int]);
        v.set(i, x);
        assert(items(v@) =~= start.take(i as int) + (seq![gx] + start.skip(i as int).skip(1)));
    } else {
        assert(start.skip(i as int).len() == 0);
        v.push(x);
        assert(items(v@) =~= start.take(i as int) + seq![gx]);
    }
}

/// Rebuilds the turn of a run from its record and the events of its run.
pub fn turn_from_run_record(record: &HermesRunRecord, events: &Vec<NormalizedHermesEvent>) -> (r:
    Turn)
    requires
        record.completed_at matches Some(end) ==> end - record.created_at <= i64::MAX,
    ensures
        r.view() == turn_of_record(record.view(), event_views(events@)),
{
    let ghost evs = event_views(events@);
    let mut out: Vec<ThreadItem> = Vec::new();
    let mut i: usize = 0;
    assert(items(out@) =~= seq![]);
    while i < events.len()
        invariant
            i <= events@.len(),
            evs == event_views(events@),
            items(out@) == replayed_items(evs.take(i as int)),
        decreases events@.len() - i,
    {
        assert(evs.take(i + 1).drop_last() == evs.take(i as int));
        assert(evs.take(i + 1).last() == events@[i as int].view());
        let e = &events[i];
        if same(e.method.as_str(), "item/started") || same(e.method.as_str(), "item/completed") {
            match e.params.get("item") {
                Some(item) => {
                    match item_from_json(item) {
                        Some(x) => {
                            put_item(&mut out, x);
                        },
                        None => {},
                    }
                },
                None => {},
            }
        }
        i += 1;
    }
    assert(evs.take(events@.len() as int) == evs);
    let status = match record.status {
        HermesTurnStatus::Completed => TurnStatus::Completed,
        HermesTurnStatus::Starting => TurnStatus::InProgress,
        HermesTurnStatus::Running => TurnStatus::InProgress,
        _ => TurnStatus::Failed,
    };
    Turn {
        id: record.turn_id.clone(),
        items: out,
        items_view: owned("full"),
        status,
        error: match &record.error {
            Some(message) => Some(TurnError { message: message.clone() }),
            None => None,
        },
        started_at: Some(record.created_at),
        completed_at: record.completed_at,
        duration_ms: match record.completed_at {
            Some(end) => Some(
                if end < record.created_at {
                    0
                } else {
                    end - record.created_at
                },
            ),
            None => None,
        },
    }
}

// ---------------------------------------------------------------------------
// Both together
// ---------------------------------------------------------------------------
/// The turns of this process by id; a later one of the same id wins.
pub open spec fn by_id(s: Seq<TurnV>) -> Map<Seq<char>, TurnV>
    decreases s.len(),
{
    if s.len() == 0 {
        Map::empty()
    } else {
        by_id(s.drop_last()).insert(s.last().id, s.last())
    }
}

/// The turns of this process and, where it has none of an id, the rebuilt ones.
pub open spec fn merged(live: Seq<TurnV>, rebuilt: Seq<TurnV>) -> Map<Seq<char>, TurnV>
    decreases rebuilt.len(),
{
    if rebuilt.len() == 0 {
        by_id(live)
    } else {
        let rest = merged(live, rebuilt.drop_last());
        let t = rebuilt.last();
        if rest.dom().contains(t.id) {
            rest
        } else {
            rest.insert(t.id, t)
        }
    }
}

/// When a turn was started, zero if it is not known.
pub open spec fn start_time(t: TurnV) -> i64 {
    match t.started_at {
        Some(s) => s,
        None => 0,
    }
}

/// Earlier turns come first.
pub open spec fn by_start(s: Seq<TurnV>) -> bool {
    forall|i: int, j: int|
        0 <= i < j < s.len() ==> start_time(#[trigger] s[i]) <= start_time(#[trigger] s[j])
}

/// `out` lists the turns of `m`, each once, earlier ones first.
pub open spec fn lists_turns(m: Map<Seq<char>, TurnV>, out: Seq<TurnV>) -> bool {
    &&& by_start(out)
    &&& forall|t: TurnV| #[trigger]
        out.to_multiset().count(t) == (if m.dom().contains(t.id) && m[t.id] == t {
            1nat
        } else {
            0nat
        })
}

fn started(t: &Turn) -> (r: i64)
    ensures
        r == start_time(t.view()),
{
    match t.started_at {
        Some(s) => s,
        None => 0,
    }
}

fn insert_by_start(out: &mut Vec<Turn>, y: Turn) -> (p: usize)
    requires
        by_start(turns(old(out)@)),
    ensures
        p <= old(out)@.len(),
        turns(final(out)@) == turns(old(out)@).insert(p as int, y.view()),
        by_start(turns(final(out)@)),
{
    let ghost before = turns(out@);
    let ghost gy = y.view();
    let mut p: usize = out.len();
    while p > 0 && started(&out[p - 1]) > started(&y)
        invariant
            p <= out@.len(),
            turns(out@) == before,
            forall|a: int|
                p <= a < before.len() ==> start_time(y.view()) < start_time(#[trigger] before[a]),
        decreases p,
    {
        assert(before[p - 1] == out@[p - 1].view());
        p -= 1;
    }
    assert(p > 0 ==> before[p - 1] == out@[p - 1].view());
    out.insert(p, y);
    assert(turns(out@) =~= before.insert(p as int, gy));
    let ghost after = turns(out@);
    assert forall|a: int, b: int| 0 <= a < b < after.len() implies start_time(#[trigger] after[a])
        <= start_time(#[trigger] after[b]) by {
        let a2 = if a < p { a } else { a - 1 };
        let b2 = if b < p { b } else { b - 1 };
        if a < p && b == p {
            assert(start_time(before[a]) <= start_time(before[p - 1]));
        } else if a != p && b != p {
            assert(start_time(before[a2]) <= start_time(before[b2]));
        }
    }
    p
}

/// All turns of a thread, earlier ones first: those of this process, and rebuilt
/// ones where this process knows none of that id.
pub fn logged_turns(live: Vec<Turn>, rebuilt: Vec<Turn>) -> (r: Vec<Turn>)
    ensures
        lists_turns(merged(turns(live@), turns(rebuilt@)), turns(r@)),
{
    broadcast use vstd::multiset::group_multiset_axioms;
    broadcast use vstd::seq_lib::group_to_multiset_ensures;

    let ghost lv = turns(live@);
    let ghost rv = turns(rebuilt@);
    let mut m: TextMap<Turn> = TextMap::new();
    let ghost model = |m: TextMap<Turn>| m@.map_values(|t: Turn| t.view());
    let mut i: usize = 0;
    assert(model(m) =~= by_id(lv.take(0)));
    while i < live.len()
        invariant
            i <= live@.len(),
            lv == turns(live@),
            model == (|m: TextMap<Turn>| m@.map_values(|t: Turn| t.view())),
            model(m) == by_id(lv.take(i as int)),
            forall|k: Seq<char>| #[trigger] m@.dom().contains(k) ==> m@[k].id@ == k,
        decreases live@.len() - i,
    {
        let ghost before = m;
        assert(lv.take(i + 1).drop_last() == lv.take(i as int));
        let t = live[i].copy();
        let ghost gt = t;
        let id = t.id.clone();
        m.insert(id.as_str(), t);
        assert(model(m) =~= model(before).insert(id@, gt.view()));
        i += 1;
    }
    assert(lv.take(live@.len() as int) == lv);
    let mut k: usize = 0;
    assert(rv.take(0).len() == 0);
    while k < rebuilt.len()
        invariant
            k <= rebuilt@.len(),
            rv == turns(rebuilt@),
            model == (|m: TextMap<Turn>| m@.map_values(|t: Turn| t.view())),
            model(m) == merged(lv, rv.take(k as int)),
            forall|k: Seq<char>| #[trigger] m@.dom().contains(k) ==> m@[k].id@ == k,
        decreases rebuilt@.len() - k,
    {
        let ghost before = m;
        assert(rv.take(k + 1).drop_last() == rv.take(k as int));
        assert(rv.take(k + 1).last() == rebuilt@[k as int].view());
        let id = rebuilt[k].id.clone();
        assert(model(m).dom().contains(id@) == m@.dom().contains(id@));
        if !m.contains_key(id.as_str()) {
            let t = rebuilt[k].copy();
            let ghost gt = t;
            m.insert(id.as_str(), t);
            assert(model(m) =~= model(before).insert(id@, gt.view()));
        }
        k += 1;
    }
    assert(rv.take(rebuilt@.len() as int) == rv);
    let ghost all = merged(lv, rv);
    let n: usize = m.len();
    let mut out: Vec<Turn> = Vec::new();
    let ghost mut seen = Set::<Seq<char>>::empty();
    let mut j: usize = 0;
    assert(turns(out@) =~= seq![]);
    while j < n
        invariant
            j <= n,
            n == m.size(),
            m.enumerates(),
            all == m@.map_values(|t: Turn| t.view()),
            forall|k: Seq<char>| #[trigger] m@.dom().contains(k) ==> m@[k].id@ == k,
            by_start(turns(out@)),
            forall|a: int| 0 <= a < n ==> (seen.contains(#[trigger] m.key_at(a)) <==> a < j),
            forall|t: TurnV| #[trigger]
                turns(out@).to_multiset().count(t) == (if all.dom().contains(t.id) && all[t.id]
                    == t && seen.contains(t.id) {
                    1nat
                } else {
                    0nat
                }),
        decreases n - j,
    {
        let ghost before = turns(out@);
        let (key, t) = m.entry(j);
        let y = t.copy();
        let ghost gy = y.view();
        let p: usize = insert_by_start(&mut out, y);
        proof {
            vstd::seq_lib::to_multiset_insert(before, p as int, gy);
            let earlier = seen;
            seen = seen.insert(key@);
            assert(!earlier.contains(m.key_at(j as int)));
            assert(all.dom().contains(key@) && all[key@] == gy);
            assert forall|t: TurnV| #[trigger]
                turns(out@).to_multiset().count(t) == (if all.dom().contains(t.id) && all[t.id]
                    == t && seen.contains(t.id) {
                    1nat
                } else {
                    0nat
                }) by {
                assert(before.to_multiset().count(t) == (if all.dom().contains(t.id) && all[t.id]
                    == t && earlier.contains(t.id) {
                    1nat
                } else {
                    0nat
                }));
            }
            assert forall|a: int| 0 <= a < n implies (seen.contains(#[trigger] m.key_at(a))
                <==> a < j + 1) by {
                if a < j {
                    assert(m.key_at(a) != m.key_at(j as int));
                } else if a > j {
                    assert(m.key_at(j as int) != m.key_at(a));
                }
            }
        }
        j += 1;
    }
    assert forall|k: Seq<char>| #[trigger] all.dom().contains(k) implies seen.contains(k) by {
        assert(m@.dom().contains(k));
        let a = choose|a: int| 0 <= a < m.size() && #[trigger] m.key_at(a) == k;
        assert(seen.contains(m.key_at(a)));
    }
    out
}

/// The log of this process wins over rebuilt turns of the same id.
pub proof fn law_live_turns_win(live: Seq<TurnV>, rebuilt: Seq<TurnV>, k: Seq<char>)
    requires
        by_id(live).dom().contains(k),
    ensures
        merged(live, rebuilt).dom().contains(k),
        merged(live, rebuilt)[k] == by_id(live)[k],
    decreases rebuilt.len(),
{
    if rebuilt.len() > 0 {
        law_live_turns_win(live, rebuilt.drop_last(), k);
    }
}

/// No turn that the records remember is lost.
pub proof fn law_rebuilt_turns_are_shown(live: Seq<TurnV>, rebuilt: Seq<TurnV>, i: int)
    requires
        0 <= i < rebuilt.len(),
    ensures
        merged(live, rebuilt).dom().contains(rebuilt[i].id),
    decreases rebuilt.len(),
{
    if i < rebuilt.len() - 1 {
        law_rebuilt_turns_are_shown(live, rebuilt.drop_last(), i);
    }
}

} // verus!
