//! What holds of run records and of the store across operations.

use vstd::prelude::*;

use super::run_state::{
    HermesTurnStatus, RunV, RunsV, all_orphaned, indexed, keyed, marked_running, marked_terminal,
    noted, of_run, orphaned, rewritten, run_started, touched, upserted,
};

verus! {

/// The first outcome of a run is kept: a second one changes nothing but the time
/// of the last change.
pub proof fn law_first_outcome_wins(
    r: RunV,
    first: (HermesTurnStatus, Option<Seq<char>>, Option<Seq<char>>, i64),
    second: (HermesTurnStatus, Option<Seq<char>>, Option<Seq<char>>, i64),
)
    requires
        first.0.terminal(),
    ensures
        ({
            let a = marked_terminal(r, first.0, first.1, first.2, first.3);
            marked_terminal(a, second.0, second.1, second.2, second.3) == (RunV {
                updated_at: second.3,
                ..a
            })
        }),
{
}

/// A run with an outcome keeps its status whatever else is recorded of it.
pub proof fn law_outcome_is_final(
    r: RunV,
    status: HermesTurnStatus,
    error: Option<Seq<char>>,
    text: Option<Seq<char>>,
    accumulated: Seq<char>,
    seq: u64,
    now: i64,
)
    requires
        r.status.terminal(),
    ensures
        marked_terminal(r, status, error, text, now).status == r.status,
        touched(r, accumulated, now).status == r.status,
        noted(r, seq, now).status == r.status,
        orphaned(r, now) == r,
{
}

/// The highest event number of a run never falls, and reaches every number noted.
pub proof fn law_event_numbers_rise(r: RunV, seq: u64, now: i64)
    ensures
        noted(r, seq, now).last_event_seq is Some,
        noted(r, seq, now).last_event_seq->0 >= seq,
        r.last_event_seq matches Some(s) ==> noted(r, seq, now).last_event_seq->0 >= s,
{
}

/// After a restart no run is in flight, runs that were not in flight are
/// untouched, and doing it again changes nothing.
pub proof fn law_orphans(s: RunsV, now: i64, later: i64)
    ensures
        forall|k: Seq<char>| #[trigger]
            all_orphaned(s, now).by_turn.dom().contains(k)
                ==> !all_orphaned(s, now).by_turn[k].status.in_flight(),
        forall|k: Seq<char>| #[trigger]
            s.by_turn.dom().contains(k) && !s.by_turn[k].status.in_flight() ==> all_orphaned(
                s,
                now,
            ).by_turn[k] == s.by_turn[k],
        all_orphaned(all_orphaned(s, now), later) == all_orphaned(s, now),
{
    assert(all_orphaned(all_orphaned(s, now), later).by_turn =~= all_orphaned(s, now).by_turn);
}

/// A run id never leads to a record of another run: every operation keeps the
/// index sound.
pub proof fn law_index_stays_sound(
    s: RunsV,
    r: RunV,
    turn: Seq<char>,
    run: Seq<char>,
    now: i64,
)
    requires
        keyed(s),
        indexed(s),
    ensures
        indexed(upserted(s, r)),
        indexed(run_started(s, turn, run, now)),
        indexed(all_orphaned(s, now)),
        s.by_turn.dom().contains(turn) && r.run_id == s.by_turn[turn].run_id ==> indexed(
            rewritten(s, turn, r),
        ),
{
}

/// Once a turn runs as `run`, that run id leads to its record, and an id that the
/// turn had before does not.
pub proof fn law_run_is_found(s: RunsV, turn: Seq<char>, run: Seq<char>, now: i64)
    requires
        keyed(s),
        indexed(s),
        s.by_turn.dom().contains(turn),
    ensures
        of_run(run_started(s, turn, run, now), run) == Some(
            marked_running(s.by_turn[turn], run, now),
        ),
        s.by_turn[turn].run_id matches Some(p) ==> p != run ==> of_run(
            run_started(s, turn, run, now),
            p,
        ) is None,
{
}

} // verus!
