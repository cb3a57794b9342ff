//! Durable Hermes run state.
//!
//! A [`HermesRunRecord`] tracks one gateway run (starting, running, then
//! completed, failed or cancelled). The [`RunStore`] keys records by turn and
//! keeps a second index from run to turn.

use vstd::prelude::*;

use crate::codex::thread::{ItemV, ThreadItem, copy_items, items};
use crate::text::{before, opt_copy, opt_text, owned, same};
use crate::text_map::TextMap;

verus! {

/// Lifecycle status of a Hermes run.
#[derive(Clone, Copy, Debug, PartialEq, Eq, Structural)]
pub enum HermesTurnStatus {
    /// Recorded, but the gateway has not accepted the run yet.
    Starting,
    /// The gateway accepted the run and its events are being read.
    Running,
    /// The run completed.
    Completed,
    /// The run failed, or the bridge could not carry it on.
    Failed,
    /// The run was cancelled: its turn was interrupted, or the gateway said
    /// `run.cancelled`.
    Cancelled,
    /// The record exists but its state is not known any more.
    Unknown,
}

impl HermesTurnStatus {
    /// A status that no later outcome replaces.
    pub open spec fn terminal(self) -> bool {
        self == HermesTurnStatus::Completed || self == HermesTurnStatus::Failed || self
            == HermesTurnStatus::Cancelled
    }

    /// A status in which a run is still owed an outcome by this process.
    pub open spec fn in_flight(self) -> bool {
        self == HermesTurnStatus::Starting || self == HermesTurnStatus::Running
    }

    /// Whether no later outcome replaces this status.
    pub fn is_terminal(&self) -> (r: bool)
        ensures
            r == self.terminal(),
    {
        match self {
            HermesTurnStatus::Completed => true,
            HermesTurnStatus::Failed => true,
            HermesTurnStatus::Cancelled => true,
            _ => false,
        }
    }

    /// The name of the status in stored records.
    pub open spec fn name(self) -> Seq<char> {
        match self {
            HermesTurnStatus::Starting => "starting"@,
            HermesTurnStatus::Running => "running"@,
            HermesTurnStatus::Completed => "completed"@,
            HermesTurnStatus::Failed => "failed"@,
            HermesTurnStatus::Cancelled => "cancelled"@,
            HermesTurnStatus::Unknown => "unknown"@,
        }
    }

    /// The status of a given name.
    pub open spec fn named(name: Seq<char>) -> Option<HermesTurnStatus> {
        if name == "starting"@ {
            Some(HermesTurnStatus::Starting)
        } else if name == "running"@ {
            Some(HermesTurnStatus::Running)
        } else if name == "completed"@ {
            Some(HermesTurnStatus::Completed)
        } else if name == "failed"@ {
            Some(HermesTurnStatus::Failed)
        } else if name == "cancelled"@ {
            Some(HermesTurnStatus::Cancelled)
        } else if name == "unknown"@ {
            Some(HermesTurnStatus::Unknown)
        } else {
            None
        }
    }

    /// The name of this status.
    pub fn as_str(&self) -> (r: &'static str)
        ensures
            r@ == self.name(),
    {
        match self {
            HermesTurnStatus::Starting => "starting",
            HermesTurnStatus::Running => "running",
            HermesTurnStatus::Completed => "completed",
            HermesTurnStatus::Failed => "failed",
            HermesTurnStatus::Cancelled => "cancelled",
            HermesTurnStatus::Unknown => "unknown",
        }
    }

    /// Finds a status by name.
    pub fn from_str(name: &str) -> (r: Option<HermesTurnStatus>)
        ensures
            r == HermesTurnStatus::named(name@),
    {
        if same(name, "starting") {
            Some(HermesTurnStatus::Starting)
        } else if same(name, "running") {
            Some(HermesTurnStatus::Running)
        } else if same(name, "completed") {
            Some(HermesTurnStatus::Completed)
        } else if same(name, "failed") {
            Some(HermesTurnStatus::Failed)
        } else if same(name, "cancelled") {
            Some(HermesTurnStatus::Cancelled)
        } else if same(name, "unknown") {
            Some(HermesTurnStatus::Unknown)
        } else {
            None
        }
    }
}

/// A status is found again by its name.
pub proof fn law_status_names(s: HermesTurnStatus)
    ensures
        HermesTurnStatus::named(s.name()) == Some(s),
{
    reveal_strlit("starting");
    reveal_strlit("running");
    reveal_strlit("completed");
    reveal_strlit("failed");
    reveal_strlit("cancelled");
    reveal_strlit("unknown");
    assert("starting"@[1] == 't');
    assert("running"@[1] == 'u');
    assert("completed"@[1] == 'o');
    assert("failed"@[1] == 'a');
    assert("cancelled"@[1] == 'a');
    assert("failed"@[0] == 'f');
    assert("cancelled"@[0] == 'c');
    assert("unknown"@[1] == 'n');
}

/// Durable per-run record.
pub struct HermesRunRecord {
    pub thread_id: String,
    pub turn_id: String,
    pub hermes_session_id: String,
    pub run_id: Option<String>,
    pub status: HermesTurnStatus,
    pub created_at: i64,
    pub updated_at: i64,
    pub completed_at: Option<i64>,
    pub error: Option<String>,
    pub accumulated_text: String,
    /// Highest event sequence number that the run has appended.
    pub last_event_seq: Option<u64>,
    /// Item id of the agent message, the same across reconnects.
    pub agent_item_id: Option<String>,
    /// User-authored input items, kept so that a turn can be shown again.
    pub user_items: Vec<ThreadItem>,
}

/// The model of a record.
#[verifier::ext_equal]
pub struct RunV {
    pub thread_id: Seq<char>,
    pub turn_id: Seq<char>,
    pub hermes_session_id: Seq<char>,
    pub run_id: Option<Seq<char>>,
    pub status: HermesTurnStatus,
    pub created_at: i64,
    pub updated_at: i64,
    pub completed_at: Option<i64>,
    pub error: Option<Seq<char>>,
    pub accumulated_text: Seq<char>,
    pub last_event_seq: Option<u64>,
    pub agent_item_id: Option<Seq<char>>,
    pub user_items: Seq<ItemV>,
}

impl HermesRunRecord {
    /// The model of this record.
    pub open spec fn view(&self) -> RunV {
        RunV {
            thread_id: self.thread_id@,
            turn_id: self.turn_id@,
            hermes_session_id: self.hermes_session_id@,
            run_id: opt_text(self.run_id),
            status: self.status,
            created_at: self.created_at,
            updated_at: self.updated_at,
            completed_at: self.completed_at,
            error: opt_text(self.error),
            accumulated_text: self.accumulated_text@,
            last_event_seq: self.last_event_seq,
            agent_item_id: opt_text(self.agent_item_id),
            user_items: items(self.user_items@),
        }
    }

    /// A copy of this record.
    pub fn copy(&self) -> (r: HermesRunRecord)
        ensures
            r.view() == self.view(),
    {
        HermesRunRecord {
            thread_id: self.thread_id.clone(),
            turn_id: self.turn_id.clone(),
            hermes_session_id: self.hermes_session_id.clone(),
            run_id: opt_copy(&self.run_id),
            status: self.status,
            created_at: self.created_at,
            updated_at: self.updated_at,
            completed_at: self.completed_at,
            error: opt_copy(&self.error),
            accumulated_text: self.accumulated_text.clone(),
            last_event_seq: self.last_event_seq,
            agent_item_id: opt_copy(&self.agent_item_id),
            user_items: copy_items(&self.user_items),
        }
    }
}

// ---------------------------------------------------------------------------
// What happens to one record
// ---------------------------------------------------------------------------
/// The record once the gateway has accepted the run.
pub open spec fn marked_running(r: RunV, run_id: Seq<char>, now: i64) -> RunV {
    RunV { run_id: Some(run_id), status: HermesTurnStatus::Running, updated_at: now, ..r }
}

/// The record after an outcome: the first outcome is kept, a later one only
/// moves the time of the last change.
pub open spec fn marked_terminal(
    r: RunV,
    status: HermesTurnStatus,
    error: Option<Seq<char>>,
    text: Option<Seq<char>>,
    now: i64,
) -> RunV {
    if r.status.terminal() {
        RunV { updated_at: now, ..r }
    } else {
        RunV {
            status,
            error,
            accumulated_text: match text {
                Some(t) => t,
                None => r.accumulated_text,
            },
            completed_at: Some(now),
            updated_at: now,
            ..r
        }
    }
}

/// The record with new accumulated text.
pub open spec fn touched(r: RunV, text: Seq<char>, now: i64) -> RunV {
    RunV { accumulated_text: text, updated_at: now, ..r }
}

/// The record after event number `seq`.
pub open spec fn noted(r: RunV, seq: u64, now: i64) -> RunV {
    RunV {
        last_event_seq: match r.last_event_seq {
            Some(s) => Some(if s < seq { seq } else { s }),
            None => Some(seq),
        },
        updated_at: now,
        ..r
    }
}

/// The record as a new process finds it: a run in flight is lost.
pub open spec fn orphaned(r: RunV, now: i64) -> RunV {
    if r.status.in_flight() {
        RunV { status: HermesTurnStatus::Unknown, updated_at: now, ..r }
    } else {
        r
    }
}

// ---------------------------------------------------------------------------
// The store
// ---------------------------------------------------------------------------
/// The model of the store.
#[verifier::ext_equal]
pub struct RunsV {
    pub by_turn: Map<Seq<char>, RunV>,
    pub by_run: Map<Seq<char>, Seq<char>>,
}

/// The store with `r` inserted or replaced by turn; a run id that the turn had
/// before leads to it no more.
pub open spec fn upserted(s: RunsV, r: RunV) -> RunsV {
    let cleared = if s.by_turn.dom().contains(r.turn_id) {
        match s.by_turn[r.turn_id].run_id {
            Some(p) => s.by_run.remove(p),
            None => s.by_run,
        }
    } else {
        s.by_run
    };
    RunsV {
        by_turn: s.by_turn.insert(r.turn_id, r),
        by_run: match r.run_id {
            Some(q) => cleared.insert(q, r.turn_id),
            None => cleared,
        },
    }
}

/// The store with a stored record read into it.
pub open spec fn restored(s: RunsV, r: RunV) -> RunsV {
    RunsV {
        by_turn: s.by_turn.insert(r.turn_id, r),
        by_run: match r.run_id {
            Some(q) => s.by_run.insert(q, r.turn_id),
            None => s.by_run,
        },
    }
}

/// The store with the record of `turn` changed to `r`, the run index aside.
pub open spec fn rewritten(s: RunsV, turn: Seq<char>, r: RunV) -> RunsV {
    RunsV { by_turn: s.by_turn.insert(turn, r), ..s }
}

/// The store after `mark_running`.
pub open spec fn run_started(s: RunsV, turn: Seq<char>, run: Seq<char>, now: i64) -> RunsV {
    if !s.by_turn.dom().contains(turn) {
        s
    } else {
        let cleared = match s.by_turn[turn].run_id {
            Some(p) => if p != run {
                s.by_run.remove(p)
            } else {
                s.by_run
            },
            None => s.by_run,
        };
        RunsV {
            by_turn: s.by_turn.insert(turn, marked_running(s.by_turn[turn], run, now)),
            by_run: cleared.insert(run, turn),
        }
    }
}

/// The store after `mark_orphans_unknown`.
pub open spec fn all_orphaned(s: RunsV, now: i64) -> RunsV {
    RunsV { by_turn: s.by_turn.map_values(|r: RunV| orphaned(r, now)), ..s }
}

/// The record that a run id leads to.
pub open spec fn of_run(s: RunsV, run: Seq<char>) -> Option<RunV> {
    if s.by_run.dom().contains(run) && s.by_turn.dom().contains(s.by_run[run]) {
        Some(s.by_turn[s.by_run[run]])
    } else {
        None
    }
}

/// Each record stands under its own turn id.
pub open spec fn keyed(s: RunsV) -> bool {
    forall|k: Seq<char>| #[trigger] s.by_turn.dom().contains(k) ==> s.by_turn[k].turn_id == k
}

/// A run id in the index leads to a record of that run.
pub open spec fn indexed(s: RunsV) -> bool {
    forall|k: Seq<char>| #[trigger]
        s.by_run.dom().contains(k) ==> s.by_turn.dom().contains(s.by_run[k])
            && s.by_turn[s.by_run[k]].run_id == Some(k)
}

struct RunTables {
    by_turn: TextMap<HermesRunRecord>,
    by_run: TextMap<String>,
}

impl RunTables {
    spec fn view(&self) -> RunsV {
        RunsV {
            by_turn: self.by_turn@.map_values(|r: HermesRunRecord| r.view()),
            by_run: self.by_run@.map_values(|s: String| s@),
        }
    }

    fn new() -> (r: RunTables)
        ensures
            r.view() == (RunsV { by_turn: Map::empty(), by_run: Map::empty() }),
    {
        let r = RunTables { by_turn: TextMap::new(), by_run: TextMap::new() };
        assert(r.view().by_turn =~= Map::empty());
        assert(r.view().by_run =~= Map::empty());
        r
    }

    fn put_turn(&mut self, turn: &str, r: HermesRunRecord)
        ensures
            final(self).view() == rewritten(old(self).view(), turn@, r.view()),
    {
        self.by_turn.insert(turn, r);
        assert(self.view().by_turn =~= old(self).view().by_turn.insert(turn@, r.view()));
    }

    fn put_run(&mut self, run: &str, turn: &str)
        ensures
            final(self).view() == (RunsV {
                by_run: old(self).view().by_run.insert(run@, turn@),
                ..old(self).view()
            }),
    {
        self.by_run.insert(run, owned(turn));
        assert(self.view().by_run =~= old(self).view().by_run.insert(run@, turn@));
    }

    fn drop_run(&mut self, run: &str)
        ensures
            final(self).view() == (RunsV {
                by_run: old(self).view().by_run.remove(run@),
                ..old(self).view()
            }),
    {
        self.by_run.remove(run);
        assert(self.view().by_run =~= old(self).view().by_run.remove(run@));
    }

    fn turn(&self, turn: &str) -> (r: Option<&HermesRunRecord>)
        ensures
            match r {
                Some(x) => self.view().by_turn.dom().contains(turn@) && x.view()
                    == self.view().by_turn[turn@],
                None => !self.view().by_turn.dom().contains(turn@),
            },
    {
        self.by_turn.get(turn)
    }
}

/// The models of a list of records.
pub open spec fn run_views(s: Seq<HermesRunRecord>) -> Seq<RunV> {
    s.map_values(|r: HermesRunRecord| r.view())
}

/// The store holds the record `r`.
pub open spec fn holds(s: RunsV, r: RunV) -> bool {
    s.by_turn.dom().contains(r.turn_id) && s.by_turn[r.turn_id] == r
}

/// The oldest record comes first.
pub open spec fn by_age(s: Seq<HermesRunRecord>) -> bool {
    forall|i: int, j: int|
        0 <= i < j < s.len() ==> (#[trigger] s[i]).created_at <= (#[trigger] s[j]).created_at
}

/// Inserts a record behind those that are not younger.
fn insert_by_age(out: &mut Vec<HermesRunRecord>, y: HermesRunRecord) -> (p: usize)
    requires
        by_age(old(out)@),
    ensures
        p <= old(out)@.len(),
        final(out)@ == old(out)@.insert(p as int, y),
        by_age(final(out)@),
{
    let ghost before = out@;
    let mut p: usize = out.len();
    while p > 0 && out[p - 1].created_at > y.created_at
        invariant
            p <= out@.len(),
            forall|a: int| p <= a < out@.len() ==> y.created_at < (#[trigger] out@[a]).created_at,
        decreases p,
    {
        p -= 1;
    }
    out.insert(p, y);
    assert forall|a: int, b: int| 0 <= a < b < out@.len() implies (#[trigger] out@[a]).created_at
        <= (#[trigger] out@[b]).created_at by {
        let a2 = if a < p { a } else { a - 1 };
        let b2 = if b < p { b } else { b - 1 };
        if a < p && b == p {
            assert(before[a].created_at <= before[p - 1].created_at);
        } else if a != p && b != p {
            assert(before[a2].created_at <= before[b2].created_at);
        }
    }
    p
}

/// Run records, keyed by turn and found by run.
pub struct RunStore {
    tables: RunTables,
}

impl RunStore {
    /// The model of the store.
    pub closed spec fn view(&self) -> RunsV {
        self.tables.view()
    }

    #[verifier::type_invariant]
    closed spec fn inv(self) -> bool {
        keyed(self.tables.view())
    }

    /// A store without records.
    pub fn new_in_memory() -> (r: RunStore)
        ensures
            r.view() == (RunsV { by_turn: Map::empty(), by_run: Map::empty() }),
    {
        RunStore { tables: RunTables::new() }
    }

    /// Inserts `record`, or replaces the record of its turn.
    pub fn upsert(&mut self, record: HermesRunRecord)
        ensures
            final(self).view() == upserted(old(self).view(), record.view()),
    {
        proof {
            use_type_invariant(&*self);
        }
        let mut t = RunTables::new();
        std::mem::swap(&mut t, &mut self.tables);
        let previous = match t.turn(record.turn_id.as_str()) {
            Some(prev) => opt_copy(&prev.run_id),
            None => None,
        };
        if let Some(p) = previous {
            t.drop_run(p.as_str());
        }
        let turn = record.turn_id.clone();
        match &record.run_id {
            Some(q) => {
                t.put_run(q.as_str(), turn.as_str());
            },
            None => {},
        }
        t.put_turn(turn.as_str(), record);
        self.tables = t;
    }

    /// Takes a stored record over, as it was written.
    pub fn restore(&mut self, record: HermesRunRecord)
        ensures
            final(self).view() == restored(old(self).view(), record.view()),
    {
        proof {
            use_type_invariant(&*self);
        }
        let mut t = RunTables::new();
        std::mem::swap(&mut t, &mut self.tables);
        let turn = record.turn_id.clone();
        match &record.run_id {
            Some(q) => {
                t.put_run(q.as_str(), turn.as_str());
            },
            None => {},
        }
        t.put_turn(turn.as_str(), record);
        self.tables = t;
    }

    /// The record of a turn.
    pub fn get_by_turn(&self, turn_id: &str) -> (r: Option<HermesRunRecord>)
        ensures
            match r {
                Some(x) => self.view().by_turn.dom().contains(turn_id@) && x.view()
                    == self.view().by_turn[turn_id@],
                None => !self.view().by_turn.dom().contains(turn_id@),
            },
    {
        match self.tables.turn(turn_id) {
            Some(x) => Some(x.copy()),
            None => None,
        }
    }

    /// The record that a run id leads to.
    pub fn get_by_run(&self, run_id: &str) -> (r: Option<HermesRunRecord>)
        ensures
            match r {
                Some(x) => of_run(self.view(), run_id@) == Some(x.view()),
                None => of_run(self.view(), run_id@) is None,
            },
    {
        match self.tables.by_run.get(run_id) {
            Some(turn) => {
                let turn: &String = turn;
                assert(self.view().by_run.dom().contains(run_id@));
                assert(self.view().by_run[run_id@] == turn@);
                self.get_by_turn(turn.as_str())
            },
            None => {
                assert(!self.view().by_run.dom().contains(run_id@));
                None
            },
        }
    }

    /// Records that a turn runs as `run_id`, and hands the record out. A turn
    /// without a record changes nothing.
    pub fn mark_running(&mut self, turn_id: &str, run_id: &str, now: i64) -> (r: Option<
        HermesRunRecord,
    >)
        ensures
            final(self).view() == run_started(old(self).view(), turn_id@, run_id@, now),
            match r {
                Some(x) => old(self).view().by_turn.dom().contains(turn_id@) && x.view()
                    == final(self).view().by_turn[turn_id@],
                None => !old(self).view().by_turn.dom().contains(turn_id@),
            },
    {
        proof {
            use_type_invariant(&*self);
        }
        let mut record = match self.tables.turn(turn_id) {
            Some(x) => x.copy(),
            None => {
                return None;
            },
        };
        let mut t = RunTables::new();
        std::mem::swap(&mut t, &mut self.tables);
        match &record.run_id {
            Some(p) => {
                if !same(p.as_str(), run_id) {
                    t.drop_run(p.as_str());
                }
            },
            None => {},
        }
        record.run_id = Some(owned(run_id));
        record.status = HermesTurnStatus::Running;
        record.updated_at = now;
        let out = record.copy();
        t.put_turn(turn_id, record);
        t.put_run(run_id, turn_id);
        self.tables = t;
        Some(out)
    }

    /// Records the outcome of a turn, and hands the record out. The first outcome
    /// wins; a turn without a record changes nothing.
    pub fn mark_terminal(
        &mut self,
        turn_id: &str,
        status: HermesTurnStatus,
        error: Option<String>,
        accumulated_text: Option<String>,
        now: i64,
    ) -> (r: Option<HermesRunRecord>)
        requires
            status.terminal(),
        ensures
            final(self).view() == (if old(self).view().by_turn.dom().contains(turn_id@) {
                rewritten(
                    old(self).view(),
                    turn_id@,
                    marked_terminal(
                        old(self).view().by_turn[turn_id@],
                        status,
                        opt_text(error),
                        opt_text(accumulated_text),
                        now,
                    ),
                )
            } else {
                old(self).view()
            }),
            match r {
                Some(x) => old(self).view().by_turn.dom().contains(turn_id@) && x.view()
                    == final(self).view().by_turn[turn_id@],
                None => !old(self).view().by_turn.dom().contains(turn_id@),
            },
    {
        proof {
            use_type_invariant(&*self);
        }
        let mut record = match self.tables.turn(turn_id) {
            Some(x) => x.copy(),
            None => {
                return None;
            },
        };
        if !record.status.is_terminal() {
            record.status = status;
            record.error = error;
            match accumulated_text {
                Some(text) => {
                    record.accumulated_text = text;
                },
                None => {},
            }
            record.completed_at = Some(now);
        }
        record.updated_at = now;
        let out = record.copy();
        let mut t = RunTables::new();
        std::mem::swap(&mut t, &mut self.tables);
        t.put_turn(turn_id, record);
        self.tables = t;
        Some(out)
    }

    /// Replaces the accumulated text of a turn.
    pub fn touch_text(&mut self, turn_id: &str, text: &str, now: i64)
        ensures
            final(self).view() == (if old(self).view().by_turn.dom().contains(turn_id@) {
                rewritten(
                    old(self).view(),
                    turn_id@,
                    touched(old(self).view().by_turn[turn_id@], text@, now),
                )
            } else {
                old(self).view()
            }),
    {
        proof {
            use_type_invariant(&*self);
        }
        let mut record = match self.tables.turn(turn_id) {
            Some(x) => x.copy(),
            None => {
                return ;
            },
        };
        record.accumulated_text = owned(text);
        record.updated_at = now;
        let mut t = RunTables::new();
        std::mem::swap(&mut t, &mut self.tables);
        t.put_turn(turn_id, record);
        self.tables = t;
    }

    /// Raises the highest event number of a turn to `seq`.
    pub fn note_event_seq(&mut self, turn_id: &str, seq: u64, now: i64)
        ensures
            final(self).view() == (if old(self).view().by_turn.dom().contains(turn_id@) {
                rewritten(
                    old(self).view(),
                    turn_id@,
                    noted(old(self).view().by_turn[turn_id@], seq, now),
                )
            } else {
                old(self).view()
            }),
    {
        proof {
            use_type_invariant(&*self);
        }
        let mut record = match self.tables.turn(turn_id) {
            Some(x) => x.copy(),
            None => {
                return ;
            },
        };
        record.last_event_seq = match record.last_event_seq {
            Some(s) => Some(
                if s < seq {
                    seq
                } else {
                    s
                },
            ),
            None => Some(seq),
        };
        record.updated_at = now;
        let mut t = RunTables::new();
        std::mem::swap(&mut t, &mut self.tables);
        t.put_turn(turn_id, record);
        self.tables = t;
    }

    /// `out` holds the records that satisfy `wanted`, each once.
    pub open spec fn collects(
        &self,
        out: Seq<HermesRunRecord>,
        wanted: spec_fn(RunV) -> bool,
    ) -> bool {
        forall|v: RunV| #[trigger]
            run_views(out).to_multiset().count(v) == (if holds(self.view(), v) && wanted(v) {
                1nat
            } else {
                0nat
            })
    }

    /// The most recently changed record of a thread that has no outcome yet.
    pub fn active_for_thread(&self, thread_id: &str) -> (r: Option<HermesRunRecord>)
        ensures
            match r {
                Some(x) => {
                    &&& self.view().by_turn.dom().contains(x.turn_id@)
                    &&& self.view().by_turn[x.turn_id@] == x.view()
                    &&& x.thread_id@ == thread_id@
                    &&& !x.status.terminal()
                    &&& forall|k: Seq<char>| #[trigger]
                        self.view().by_turn.dom().contains(k) && self.view().by_turn[k].thread_id
                            == thread_id@ && !self.view().by_turn[k].status.terminal()
                            ==> self.view().by_turn[k].updated_at <= x.updated_at
                },
                None => forall|k: Seq<char>| #[trigger]
                    self.view().by_turn.dom().contains(k) && self.view().by_turn[k].thread_id
                        == thread_id@ ==> self.view().by_turn[k].status.terminal(),
            },
    {
        proof {
            use_type_invariant(self);
        }
        let n: usize = self.tables.by_turn.len();
        let mut best: Option<usize> = None;
        let mut i: usize = 0;
        let ghost m = self.tables.by_turn;
        let ghost v = self.view();
        while i < n
            invariant
                i <= n,
                n == m.size(),
                m == self.tables.by_turn,
                m.enumerates(),
                v == self.view(),
                best matches Some(b) ==> b < i && m@[m.key_at(b as int)].thread_id@ == thread_id@
                    && !m@[m.key_at(b as int)].status.terminal() && forall|j: int|
                    0 <= j < i && m@[#[trigger] m.key_at(j)].thread_id@ == thread_id@
                        && !m@[m.key_at(j)].status.terminal() ==> m@[m.key_at(j)].updated_at
                        <= m@[m.key_at(b as int)].updated_at,
                best is None ==> forall|j: int|
                    0 <= j < i && m@[#[trigger] m.key_at(j)].thread_id@ == thread_id@
                        ==> m@[m.key_at(j)].status.terminal(),
            decreases n - i,
        {
            let (_, x) = self.tables.by_turn.entry(i);
            if same(x.thread_id.as_str(), thread_id) && !x.status.is_terminal() {
                match best {
                    Some(b) => {
                        let (_, y) = self.tables.by_turn.entry(b);
                        if y.updated_at <= x.updated_at {
                            best = Some(i);
                        }
                    },
                    None => {
                        best = Some(i);
                    },
                }
            }
            i += 1;
        }
        assert forall|k: Seq<char>| #[trigger] v.by_turn.dom().contains(k) implies exists|j: int|
            0 <= j < n && #[trigger] m.key_at(j) == k && v.by_turn[k] == m@[k].view() by {
            assert(m@.dom().contains(k));
            let j = choose|j: int| 0 <= j < m.size() && #[trigger] m.key_at(j) == k;
            assert(m.key_at(j) == k);
        }
        match best {
            Some(b) => {
                let (key, x) = self.tables.by_turn.entry(b);
                assert(v.by_turn.dom().contains(key@));
                Some(x.copy())
            },
            None => None,
        }
    }

    /// All records.
    pub fn records(&self) -> (r: Vec<HermesRunRecord>)
        ensures
            self.collects(r@, |x: RunV| true),
    {
        broadcast use {
            vstd::multiset::group_multiset_axioms,
            vstd::seq_lib::group_to_multiset_ensures,
        };

        proof {
            use_type_invariant(self);
        }
        let n: usize = self.tables.by_turn.len();
        let mut out: Vec<HermesRunRecord> = Vec::new();
        let mut i: usize = 0;
        let ghost m = self.tables.by_turn;
        let ghost v = self.view();
        let ghost mut seen = Set::<Seq<char>>::empty();
        assert(run_views(out@) =~= seq![]);
        while i < n
            invariant
                i <= n,
                n == m.size(),
                m == self.tables.by_turn,
                m.enumerates(),
                v == self.view(),
                keyed(v),
                forall|j: int| 0 <= j < n ==> (seen.contains(#[trigger] m.key_at(j)) <==> j < i),
                forall|x: RunV| #[trigger]
                    run_views(out@).to_multiset().count(x) == (if holds(v, x) && seen.contains(
                        x.turn_id,
                    ) {
                        1nat
                    } else {
                        0nat
                    }),
            decreases n - i,
        {
            let (key, x) = self.tables.by_turn.entry(i);
            let ghost before = out@;
            assert(v.by_turn.dom().contains(key@));
            let y = x.copy();
            let ghost gy = y;
            out.push(y);
            assert(run_views(out@) =~= run_views(before).push(gy.view()));
            proof {
                vstd::seq_lib::to_multiset_build(run_views(before), gy.view());
                let earlier = seen;
                seen = seen.insert(key@);
                assert(!earlier.contains(m.key_at(i as int)));
                assert forall|x: RunV| #[trigger]
                    run_views(out@).to_multiset().count(x) == (if holds(v, x) && seen.contains(
                        x.turn_id,
                    ) {
                        1nat
                    } else {
                        0nat
                    }) by {
                    assert(run_views(before).to_multiset().count(x) == (if holds(v, x)
                        && earlier.contains(x.turn_id) {
                        1nat
                    } else {
                        0nat
                    }));
                }
                assert forall|j: int| 0 <= j < n implies (seen.contains(#[trigger] m.key_at(j))
                    <==> j < i + 1) by {
                    if j < i {
                        assert(m.key_at(j) != m.key_at(i as int));
                    } else if j > i {
                        assert(m.key_at(i as int) != m.key_at(j));
                    }
                }
            }
            i += 1;
        }
        assert forall|k: Seq<char>| #[trigger] v.by_turn.dom().contains(k) implies seen.contains(
            k,
        ) by {
            assert(m@.dom().contains(k));
            let j = choose|j: int| 0 <= j < m.size() && #[trigger] m.key_at(j) == k;
            assert(seen.contains(m.key_at(j)));
        }
        out
    }

    /// All records of a thread, oldest first.
    pub fn list_for_thread(&self, thread_id: &str) -> (r: Vec<HermesRunRecord>)
        ensures
            self.collects(r@, |x: RunV| x.thread_id == thread_id@),
            by_age(r@),
    {
        broadcast use {
            vstd::multiset::group_multiset_axioms,
            vstd::seq_lib::group_to_multiset_ensures,
        };

        proof {
            use_type_invariant(self);
        }
        let n: usize = self.tables.by_turn.len();
        let mut out: Vec<HermesRunRecord> = Vec::new();
        let mut i: usize = 0;
        let ghost m = self.tables.by_turn;
        let ghost v = self.view();
        let ghost mut seen = Set::<Seq<char>>::empty();
        assert(run_views(out@) =~= seq![]);
        while i < n
            invariant
                i <= n,
                n == m.size(),
                m == self.tables.by_turn,
                m.enumerates(),
                v == self.view(),
                keyed(v),
                by_age(out@),
                forall|j: int| 0 <= j < n ==> (seen.contains(#[trigger] m.key_at(j)) <==> j < i),
                forall|x: RunV| #[trigger]
                    run_views(out@).to_multiset().count(x) == (if holds(v, x) && x.thread_id
                        == thread_id@ && seen.contains(x.turn_id) {
                        1nat
                    } else {
                        0nat
                    }),
            decreases n - i,
        {
            let (key, x) = self.tables.by_turn.entry(i);
            let ghost before = out@;
            assert(v.by_turn.dom().contains(key@));
            assert(v.by_turn[key@] == x.view());
            if same(x.thread_id.as_str(), thread_id) {
                let y = x.copy();
                let ghost gy = y;
                let p: usize = insert_by_age(&mut out, y);
                assert(run_views(out@) =~= run_views(before).insert(p as int, gy.view()));
                proof {
                    vstd::seq_lib::to_multiset_insert(run_views(before), p as int, gy.view());
                }
            }
            proof {
                let earlier = seen;
                seen = seen.insert(key@);
                assert(!earlier.contains(m.key_at(i as int)));
                assert forall|x: RunV| #[trigger]
                    run_views(out@).to_multiset().count(x) == (if holds(v, x) && x.thread_id
                        == thread_id@ && seen.contains(x.turn_id) {
                        1nat
                    } else {
                        0nat
                    }) by {
                    assert(run_views(before).to_multiset().count(x) == (if holds(v, x)
                        && x.thread_id == thread_id@ && earlier.contains(x.turn_id) {
                        1nat
                    } else {
                        0nat
                    }));
                }
                assert forall|j: int| 0 <= j < n implies (seen.contains(#[trigger] m.key_at(j))
                    <==> j < i + 1) by {
                    if j < i {
                        assert(m.key_at(j) != m.key_at(i as int));
                    } else if j > i {
                        assert(m.key_at(i as int) != m.key_at(j));
                    }
                }
            }
            i += 1;
        }
        assert forall|k: Seq<char>| #[trigger] v.by_turn.dom().contains(k) implies seen.contains(
            k,
        ) by {
            assert(m@.dom().contains(k));
            let j = choose|j: int| 0 <= j < m.size() && #[trigger] m.key_at(j) == k;
            assert(seen.contains(m.key_at(j)));
        }
        out
    }

    /// Marks every run in flight as unknown, and hands the changed records out.
    pub fn mark_orphans_unknown(&mut self, now: i64) -> (r: Vec<HermesRunRecord>)
        ensures
            final(self).view() == all_orphaned(old(self).view(), now),
            final(self).collects(
                r@,
                |x: RunV| old(self).view().by_turn[x.turn_id].status.in_flight(),
            ),
    {
        broadcast use {
            vstd::multiset::group_multiset_axioms,
            vstd::seq_lib::group_to_multiset_ensures,
        };

        proof {
            use_type_invariant(&*self);
        }
        let ghost start = self.view();
        let n: usize = self.tables.by_turn.len();
        let ghost m = self.tables.by_turn;
        let ghost after = all_orphaned(start, now);
        let mut fresh: TextMap<HermesRunRecord> = TextMap::new();
        let mut changed: Vec<HermesRunRecord> = Vec::new();
        let mut i: usize = 0;
        let ghost mut seen = Set::<Seq<char>>::empty();
        assert(run_views(changed@) =~= seq![]);
        while i < n
            invariant
                i <= n,
                n == m.size(),
                m == self.tables.by_turn,
                m.enumerates(),
                start == self.view(),
                after == all_orphaned(start, now),
                keyed(start),
                forall|j: int| 0 <= j < n ==> (seen.contains(#[trigger] m.key_at(j)) <==> j < i),
                forall|k: Seq<char>| #[trigger]
                    fresh@.dom().contains(k) <==> seen.contains(k) && start.by_turn.dom().contains(
                        k,
                    ),
                forall|k: Seq<char>| #[trigger]
                    fresh@.dom().contains(k) ==> fresh@[k].view() == after.by_turn[k],
                forall|x: RunV| #[trigger]
                    run_views(changed@).to_multiset().count(x) == (if holds(after, x)
                        && start.by_turn[x.turn_id].status.in_flight() && seen.contains(x.turn_id) {
                        1nat
                    } else {
                        0nat
                    }),
            decreases n - i,
        {
            let (key, x) = self.tables.by_turn.entry(i);
            let ghost before = changed@;
            assert(start.by_turn.dom().contains(key@));
            assert(start.by_turn[key@] == x.view());
            assert(after.by_turn.dom().contains(key@));
            let in_flight = match x.status {
                HermesTurnStatus::Starting => true,
                HermesTurnStatus::Running => true,
                _ => false,
            };
            let mut y = x.copy();
            if in_flight {
                y.status = HermesTurnStatus::Unknown;
                y.updated_at = now;
                let kept = y.copy();
                let ghost gk = kept;
                changed.push(kept);
                assert(run_views(changed@) =~= run_views(before).push(gk.view()));
                proof {
                    vstd::seq_lib::to_multiset_build(run_views(before), gk.view());
                }
            }
            fresh.insert(key.as_str(), y);
            proof {
                let earlier = seen;
                seen = seen.insert(key@);
                assert(!earlier.contains(m.key_at(i as int)));
                assert forall|x: RunV| #[trigger]
                    run_views(changed@).to_multiset().count(x) == (if holds(after, x)
                        && start.by_turn[x.turn_id].status.in_flight() && seen.contains(x.turn_id) {
                        1nat
                    } else {
                        0nat
                    }) by {
                    assert(run_views(before).to_multiset().count(x) == (if holds(after, x)
                        && start.by_turn[x.turn_id].status.in_flight() && earlier.contains(
                        x.turn_id,
                    ) {
                        1nat
                    } else {
                        0nat
                    }));
                }
                assert forall|j: int| 0 <= j < n implies (seen.contains(#[trigger] m.key_at(j))
                    <==> j < i + 1) by {
                    if j < i {
                        assert(m.key_at(j) != m.key_at(i as int));
                    } else if j > i {
                        assert(m.key_at(i as int) != m.key_at(j));
                    }
                }
            }
            i += 1;
        }
        assert forall|k: Seq<char>| #[trigger] start.by_turn.dom().contains(
            k,
        ) implies seen.contains(k) by {
            assert(m@.dom().contains(k));
            let j = choose|j: int| 0 <= j < m.size() && #[trigger] m.key_at(j) == k;
            assert(seen.contains(m.key_at(j)));
        }
        let mut t = RunTables::new();
        std::mem::swap(&mut t, &mut self.tables);
        t.by_turn = fresh;
        assert(t.view().by_turn =~= after.by_turn);
        assert(keyed(t.view()));
        self.tables = t;
        changed
    }
}

} // verus!
