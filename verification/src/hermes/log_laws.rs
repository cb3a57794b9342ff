//! Laws of the turns of a thread: those of this process, and those that outlived theirs.

use vstd::prelude::*;

use super::event_store::EventV;
use super::run_state::{HermesTurnStatus, RunV};
use super::turn_log::{
    by_id, end_logged, event_item, item_logged, item_put, merged, replayed_items,
    shown_status, start_time, turn_done, turn_of_record, turns_of,
};
use crate::codex::thread::{ItemV, TurnStatus, TurnV, item_in};
use crate::json::JsonV;

verus! {

// ---------------------------------------------------------------------------
// Turns of this process
// ---------------------------------------------------------------------------
/// An item goes to the end of the newest turn of its id; all other turns stay as they
/// are, and where there is no such turn nothing changes.
pub proof fn law_items_go_to_their_turn(s: Seq<TurnV>, id: Seq<char>, item: ItemV, p: int, q: int)
    requires
        0 <= q < s.len(),
        0 <= p < s.len() ==> s[p].id == id && forall|j: int|
            p < j < s.len() ==> (#[trigger] s[j]).id != id,
        !(0 <= p < s.len()) ==> forall|j: int| 0 <= j < s.len() ==> (#[trigger] s[j]).id != id,
    ensures
        item_logged(s, id, item).len() == s.len(),
        q == p ==> item_logged(s, id, item)[q].items == s[q].items.push(item),
        q == p ==> item_logged(s, id, item)[q].status == s[q].status,
        q == p ==> item_logged(s, id, item)[q].error == s[q].error,
        item_logged(s, id, item)[q].id == s[q].id,
        q != p ==> item_logged(s, id, item)[q] == s[q],
    decreases s.len(),
{
    if s.last().id != id {
        let t = s.drop_last();
        assert(s[s.len() - 1].id != id);
        if q < t.len() {
            if 0 <= p < s.len() {
                assert(p < t.len());
                assert(t[p].id == id);
                assert forall|j: int| p < j < t.len() implies (#[trigger] t[j]).id != id by {
                    assert(s[j].id != id);
                }
            } else {
                assert forall|j: int| 0 <= j < t.len() implies (#[trigger] t[j]).id != id by {
                    assert(s[j].id != id);
                }
            }
            law_items_go_to_their_turn(t, id, item, if 0 <= p < s.len() { p } else { -1 }, q);
        } else {
            lemma_item_logged_len(t, id, item);
        }
    } else {
        assert(s[s.len() - 1].id == id);
        assert(p == s.len() - 1) by {
            if 0 <= p < s.len() - 1 {
                assert(s[s.len() - 1].id != id);
            }
        }
    }
}

proof fn lemma_item_logged_len(s: Seq<TurnV>, id: Seq<char>, item: ItemV)
    ensures
        item_logged(s, id, item).len() == s.len(),
    decreases s.len(),
{
    if s.len() > 0 {
        lemma_item_logged_len(s.drop_last(), id, item);
    }
}

proof fn lemma_end_logged_len(s: Seq<TurnV>, id: Seq<char>, error: Option<Seq<char>>, now: i64)
    ensures
        end_logged(s, id, error, now).len() == s.len(),
    decreases s.len(),
{
    if s.len() > 0 {
        lemma_end_logged_len(s.drop_last(), id, error, now);
    }
}

/// The newest turn of an id ends as failed if something went wrong and as completed if
/// nothing did, with what went wrong and the time; its items and its start stay, and so
/// do all other turns.
pub proof fn law_ends_go_to_their_turn(
    s: Seq<TurnV>,
    id: Seq<char>,
    error: Option<Seq<char>>,
    now: i64,
    p: int,
    q: int,
)
    requires
        0 <= q < s.len(),
        0 <= p < s.len() ==> s[p].id == id && forall|j: int|
            p < j < s.len() ==> (#[trigger] s[j]).id != id,
        !(0 <= p < s.len()) ==> forall|j: int| 0 <= j < s.len() ==> (#[trigger] s[j]).id != id,
    ensures
        end_logged(s, id, error, now).len() == s.len(),
        q == p && error is Some ==> end_logged(s, id, error, now)[q].status == TurnStatus::Failed,
        q == p && error is None ==> end_logged(s, id, error, now)[q].status
            == TurnStatus::Completed,
        q == p ==> end_logged(s, id, error, now)[q].error == error,
        q == p ==> end_logged(s, id, error, now)[q].completed_at == Some(now),
        q == p ==> end_logged(s, id, error, now)[q].items == s[q].items,
        q == p ==> end_logged(s, id, error, now)[q].started_at == s[q].started_at,
        end_logged(s, id, error, now)[q].id == s[q].id,
        q != p ==> end_logged(s, id, error, now)[q] == s[q],
    decreases s.len(),
{
    if s.last().id != id {
        let t = s.drop_last();
        assert(s[s.len() - 1].id != id);
        if q < t.len() {
            if 0 <= p < s.len() {
                assert(p < t.len());
                assert(t[p].id == id);
                assert forall|j: int| p < j < t.len() implies (#[trigger] t[j]).id != id by {
                    assert(s[j].id != id);
                }
            } else {
                assert forall|j: int| 0 <= j < t.len() implies (#[trigger] t[j]).id != id by {
                    assert(s[j].id != id);
                }
            }
            law_ends_go_to_their_turn(
                t,
                id,
                error,
                now,
                if 0 <= p < s.len() {
                    p
                } else {
                    -1
                },
                q,
            );
        } else {
            lemma_end_logged_len(t, id, error, now);
        }
    } else {
        assert(s[s.len() - 1].id == id);
        assert(p == s.len() - 1) by {
            if 0 <= p < s.len() - 1 {
                assert(s[s.len() - 1].id != id);
            }
        }
    }
}

/// A turn fails exactly if something went wrong, and is completed exactly if nothing did.
pub proof fn law_errors_fail_a_turn(t: TurnV, error: Option<Seq<char>>, now: i64)
    ensures
        error is Some <==> turn_done(t, error, now).status == TurnStatus::Failed,
        error is None <==> turn_done(t, error, now).status == TurnStatus::Completed,
        turn_done(t, error, now).error == error,
        turn_done(t, error, now).completed_at == Some(now),
        turn_done(t, error, now).id == t.id,
        turn_done(t, error, now).items == t.items,
        turn_done(t, error, now).started_at == t.started_at,
{
}

/// A thread has the turns of its own log, and none if it has no log.
pub proof fn law_threads_have_their_own_turns(
    log: Map<Seq<char>, Seq<TurnV>>,
    thread: Seq<char>,
    other: Seq<char>,
    turns: Seq<TurnV>,
)
    requires
        thread != other,
    ensures
        turns_of(log.insert(thread, turns), thread) == turns,
        turns_of(log.insert(thread, turns), other) == turns_of(log, other),
        !log.dom().contains(thread) ==> turns_of(log, thread).len() == 0,
{
}

// ---------------------------------------------------------------------------
// Turns that outlived their process
// ---------------------------------------------------------------------------
/// Whether no two items have the same id.
pub open spec fn ids_differ(s: Seq<ItemV>) -> bool {
    forall|i: int, j: int| 0 <= i < j < s.len() ==> (#[trigger] s[i]).id() != (#[trigger] s[j]).id()
}

/// An item takes the place of the first one of its id, where that stands, or comes last
/// if there is none; all other items stay where they are.
pub proof fn law_items_keep_their_place(s: Seq<ItemV>, x: ItemV, p: int)
    requires
        0 <= p <= s.len(),
        forall|j: int| 0 <= j < p ==> (#[trigger] s[j]).id() != x.id(),
        p < s.len() ==> s[p].id() == x.id(),
    ensures
        p < s.len() ==> item_put(s, x) == s.update(p, x),
        p == s.len() ==> item_put(s, x) == s.push(x),
    decreases s.len(),
{
    if s.len() == 0 {
        assert(item_put(s, x) =~= s.push(x));
    } else if p == 0 {
        assert(item_put(s, x) =~= s.update(0, x));
    } else {
        let t = s.skip(1);
        assert(s[0].id() != x.id());
        assert forall|j: int| 0 <= j < p - 1 implies (#[trigger] t[j]).id() != x.id() by {
            assert(s[j + 1].id() != x.id());
        }
        law_items_keep_their_place(t, x, p - 1);
        if p < s.len() {
            assert(item_put(s, x) =~= s.update(p, x));
        } else {
            assert(item_put(s, x) =~= s.push(x));
        }
    }
}

proof fn lemma_first_of_id(s: Seq<ItemV>, id: Seq<char>) -> (p: int)
    ensures
        0 <= p <= s.len(),
        forall|j: int| 0 <= j < p ==> (#[trigger] s[j]).id() != id,
        p < s.len() ==> s[p].id() == id,
    decreases s.len(),
{
    if s.len() == 0 || s[0].id() == id {
        0
    } else {
        let q = lemma_first_of_id(s.skip(1), id);
        assert forall|j: int| 0 <= j < q + 1 implies (#[trigger] s[j]).id() != id by {
            if j > 0 {
                assert(s.skip(1)[j - 1].id() != id);
            }
        }
        q + 1
    }
}

/// Only the start and the end of an item carry one, and they carry the item that they
/// name.
pub proof fn law_events_carry_items(e: EventV, v: JsonV)
    requires
        e.params.get("item"@) == Some(v),
    ensures
        e.method == "item/started"@ ==> event_item(e) == item_in(v),
        e.method == "item/completed"@ ==> event_item(e) == item_in(v),
        e.method != "item/started"@ && e.method != "item/completed"@ ==> event_item(e) is None,
{
}

/// What is replayed holds each item once, in its newest form: the last event of an item
/// decides what it is.
pub proof fn law_newest_form_is_replayed(events: Seq<EventV>, e: EventV)
    ensures
        ids_differ(replayed_items(events)),
        event_item(e) matches Some(x) ==> replayed_items(events.push(e)).contains(x),
        event_item(e) is None ==> replayed_items(events.push(e)) == replayed_items(events),
        event_item(e) matches Some(x) ==> forall|y: ItemV|
            y.id() != x.id() ==> (#[trigger] replayed_items(events.push(e)).contains(y)
                <==> replayed_items(events).contains(y)),
    decreases events.len(),
{
    assert(events.push(e).drop_last() =~= events);
    assert(events.push(e).last() == e);
    if events.len() > 0 {
        let t = events.drop_last();
        law_newest_form_is_replayed(t, events.last());
        assert(t.push(events.last()) =~= events);
        if let Some(x) = event_item(events.last()) {
            let s = replayed_items(t);
            let p = lemma_first_of_id(s, x.id());
            law_items_keep_their_place(s, x, p);
            let r = replayed_items(events);
            assert forall|i: int, j: int| 0 <= i < j < r.len() implies (#[trigger] r[i]).id() != (
            #[trigger] r[j]).id() by {
                if p < s.len() {
                    assert(s[i].id() != s[j].id());
                } else if j < s.len() {
                    assert(s[i].id() != s[j].id());
                } else {
                    assert(s[i].id() != x.id());
                }
            }
        }
    }
    if let Some(x) = event_item(e) {
        let s = replayed_items(events);
        let p = lemma_first_of_id(s, x.id());
        law_items_keep_their_place(s, x, p);
        let r = replayed_items(events.push(e));
        assert(r[p] == x);
        assert forall|y: ItemV| y.id() != x.id() implies (#[trigger] r.contains(y) <==> s.contains(
            y,
        )) by {
            if r.contains(y) {
                let k = choose|k: int| 0 <= k < r.len() && r[k] == y;
                assert(s[k] == y);
            }
            if s.contains(y) {
                let k = choose|k: int| 0 <= k < s.len() && s[k] == y;
                assert(r[k] == y);
            }
        }
    }
}

/// A turn is shown as completed only if its run was, as going on only while its run is,
/// and as failed otherwise.
pub proof fn law_shown_status_follows_the_run(s: HermesTurnStatus)
    ensures
        shown_status(s) == TurnStatus::Completed <==> s is Completed,
        shown_status(s) == TurnStatus::InProgress <==> s is Starting || s is Running,
        shown_status(s) == TurnStatus::Failed <==> s is Failed || s is Cancelled || s is Unknown,
{
}

/// A turn that outlived its process is shown as its record says: same id, same times,
/// same error, and the time that it took; a clock that went back does not make it negative.
pub proof fn law_records_are_shown(r: RunV, events: Seq<EventV>)
    ensures
        ({
            let t = turn_of_record(r, events);
            &&& t.id == r.turn_id
            &&& t.error == r.error
            &&& t.started_at == Some(r.created_at)
            &&& t.completed_at == r.completed_at
            &&& t.items == replayed_items(events)
            &&& t.status == TurnStatus::Completed <==> r.status is Completed
            &&& t.status == TurnStatus::InProgress <==> r.status is Starting || r.status
                is Running
            &&& r.completed_at is None ==> t.duration_ms is None
            &&& r.completed_at matches Some(end) ==> (end < r.created_at ==> t.duration_ms
                == Some(0i64))
            &&& r.completed_at matches Some(end) ==> (0 <= end - r.created_at <= i64::MAX
                ==> t.duration_ms is Some && t.duration_ms->0 == end - r.created_at)
        }),
{
}

// ---------------------------------------------------------------------------
// Both together
// ---------------------------------------------------------------------------
/// Of the turns of this process the newest of each id counts, and no id is made up.
pub proof fn law_newest_turn_counts(s: Seq<TurnV>, i: int, k: Seq<char>)
    ensures
        by_id(s).dom().contains(k) <==> exists|j: int| 0 <= j < s.len() && (#[trigger] s[j]).id
            == k,
        0 <= i < s.len() && (forall|j: int| i < j < s.len() ==> (#[trigger] s[j]).id != s[i].id)
            ==> by_id(s)[s[i].id] == s[i],
    decreases s.len(),
{
    if s.len() > 0 {
        let t = s.drop_last();
        law_newest_turn_counts(t, i, k);
        if by_id(s).dom().contains(k) {
            if k == s.last().id {
                assert(s[s.len() - 1].id == k);
            } else {
                let j = choose|j: int| 0 <= j < t.len() && (#[trigger] t[j]).id == k;
                assert(s[j].id == k);
            }
        }
        if exists|j: int| 0 <= j < s.len() && (#[trigger] s[j]).id == k {
            let j = choose|j: int| 0 <= j < s.len() && (#[trigger] s[j]).id == k;
            if j < t.len() {
                assert(t[j].id == k);
            }
        }
        if 0 <= i < s.len() - 1 && (forall|j: int|
            i < j < s.len() ==> (#[trigger] s[j]).id != s[i].id) {
            assert(s[s.len() - 1].id != s[i].id);
            assert forall|j: int| i < j < t.len() implies (#[trigger] t[j]).id != t[i].id by {
                assert(s[j].id != s[i].id);
            }
        }
    }
}

/// A turn that only the records remember is shown as they remember it, and nothing else
/// is shown: every turn is one of this process or one of the records.
pub proof fn law_merged_turns_are_real(live: Seq<TurnV>, rebuilt: Seq<TurnV>, i: int, k: Seq<char>)
    ensures
        0 <= i < rebuilt.len() && !by_id(live).dom().contains(rebuilt[i].id) && (forall|j: int|
            0 <= j < i ==> (#[trigger] rebuilt[j]).id != rebuilt[i].id) ==> merged(
            live,
            rebuilt,
        ).dom().contains(rebuilt[i].id) && merged(live, rebuilt)[rebuilt[i].id] == rebuilt[i],
        merged(live, rebuilt).dom().contains(k) <==> by_id(live).dom().contains(k) || exists|j: int|
            0 <= j < rebuilt.len() && (#[trigger] rebuilt[j]).id == k,
        by_id(live).dom().contains(k) ==> merged(live, rebuilt)[k] == by_id(live)[k],
    decreases rebuilt.len(),
{
    if rebuilt.len() > 0 {
        let t = rebuilt.drop_last();
        let last = rebuilt.last();
        law_merged_turns_are_real(live, t, i, k);
        law_merged_turns_are_real(live, t, i, last.id);
        if merged(live, rebuilt).dom().contains(k) && !by_id(live).dom().contains(k) {
            if merged(live, t).dom().contains(k) {
                let j = choose|j: int| 0 <= j < t.len() && (#[trigger] t[j]).id == k;
                assert(rebuilt[j].id == k);
            } else {
                assert(rebuilt[rebuilt.len() - 1].id == k);
            }
        }
        if exists|j: int| 0 <= j < rebuilt.len() && (#[trigger] rebuilt[j]).id == k {
            let j = choose|j: int| 0 <= j < rebuilt.len() && (#[trigger] rebuilt[j]).id == k;
            if j < t.len() {
                assert(t[j].id == k);
            }
        }
        if 0 <= i < rebuilt.len() && !by_id(live).dom().contains(rebuilt[i].id) && (forall|j: int|
            0 <= j < i ==> (#[trigger] rebuilt[j]).id != rebuilt[i].id) {
            if i < t.len() {
                assert(t[i] == rebuilt[i]);
                assert forall|j: int| 0 <= j < i implies (#[trigger] t[j]).id != t[i].id by {
                    assert(rebuilt[j].id != rebuilt[i].id);
                }
            } else {
                if merged(live, t).dom().contains(last.id) {
                    let j = choose|j: int| 0 <= j < t.len() && (#[trigger] t[j]).id == last.id;
                    assert(rebuilt[j].id == last.id);
                }
            }
        }
    }
}

/// A turn whose start is not known comes before all that have one after the epoch.
pub proof fn law_start_times(t: TurnV)
    ensures
        t.started_at matches Some(s) ==> start_time(t) == s,
        t.started_at is None ==> start_time(t) == 0,
{
}

} // verus!
