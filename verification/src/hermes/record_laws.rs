//! Laws of what is recorded of a run, of its event log, and of the stream that it is read
//! from.

use vstd::prelude::*;

use super::event_store::{EventV, after, events_in, highest};
use super::run_state::{
    HermesTurnStatus, RunV, RunsV, all_orphaned, marked_running, marked_terminal, noted, of_run,
    orphaned, restored, run_started, touched, upserted,
};
use super::sse::{FramesV, ended, frame_data, stepped, walked};
use crate::json::JsonV;
use crate::json_text::parsed;
use crate::text::{begins, blank, trimmed};

verus! {

// ---------------------------------------------------------------------------
// One record
// ---------------------------------------------------------------------------
/// Each status is final, still owed an outcome, or not known any more.
pub proof fn law_statuses_are_told_apart(s: HermesTurnStatus)
    ensures
        s is Completed || s is Failed || s is Cancelled <==> s.terminal(),
        s is Starting || s is Running <==> s.in_flight(),
        s is Unknown <==> !s.terminal() && !s.in_flight(),
        !(s.terminal() && s.in_flight()),
{
}

/// A run that the gateway accepted is running under the id that the gateway gave it; what
/// is known of its turn stays.
pub proof fn law_accepted_runs_run(r: RunV, run: Seq<char>, now: i64)
    ensures
        ({
            let a = marked_running(r, run, now);
            &&& a.status == HermesTurnStatus::Running
            &&& a.run_id == Some(run)
            &&& a.updated_at == now
            &&& a.thread_id == r.thread_id && a.turn_id == r.turn_id
            &&& a.hermes_session_id == r.hermes_session_id
            &&& a.created_at == r.created_at && a.completed_at == r.completed_at
            &&& a.accumulated_text == r.accumulated_text
            &&& a.last_event_seq == r.last_event_seq
            &&& a.agent_item_id == r.agent_item_id
            &&& a.user_items == r.user_items
            &&& a.error == r.error
        }),
{
}

/// The first outcome of a run is taken as it comes: its status, its error, its time, and
/// its text where it brings one.
pub proof fn law_first_outcome_is_taken(
    r: RunV,
    status: HermesTurnStatus,
    error: Option<Seq<char>>,
    text: Option<Seq<char>>,
    now: i64,
)
    requires
        !(r.status is Completed) && !(r.status is Failed) && !(r.status is Cancelled),
    ensures
        ({
            let a = marked_terminal(r, status, error, text, now);
            &&& a.status == status
            &&& a.error == error
            &&& a.completed_at == Some(now)
            &&& a.updated_at == now
            &&& text matches Some(t) ==> a.accumulated_text == t
            &&& text is None ==> a.accumulated_text == r.accumulated_text
            &&& a.thread_id == r.thread_id && a.turn_id == r.turn_id
            &&& a.run_id == r.run_id && a.created_at == r.created_at
            &&& a.user_items == r.user_items && a.last_event_seq == r.last_event_seq
        }),
{
}

/// An outcome that comes after the first changes nothing but the time of the last change.
pub proof fn law_later_outcomes_are_passed_over(
    r: RunV,
    status: HermesTurnStatus,
    error: Option<Seq<char>>,
    text: Option<Seq<char>>,
    now: i64,
)
    requires
        r.status is Completed || r.status is Failed || r.status is Cancelled,
    ensures
        ({
            let a = marked_terminal(r, status, error, text, now);
            &&& a.status == r.status && a.error == r.error
            &&& a.accumulated_text == r.accumulated_text
            &&& a.completed_at == r.completed_at
            &&& a.updated_at == now
        }),
{
}

/// New text takes the place of the old, and nothing else changes but the time.
pub proof fn law_text_is_replaced(r: RunV, text: Seq<char>, now: i64)
    ensures
        touched(r, text, now).accumulated_text == text,
        touched(r, text, now).updated_at == now,
        touched(r, text, now).status == r.status,
        touched(r, text, now).error == r.error,
        touched(r, text, now).completed_at == r.completed_at,
        touched(r, text, now).run_id == r.run_id,
{
}

/// The highest event number of a run is the highest that was noted.
pub proof fn law_highest_number_is_kept(r: RunV, seq: u64, now: i64)
    ensures
        r.last_event_seq is None ==> noted(r, seq, now).last_event_seq == Some(seq),
        r.last_event_seq matches Some(s) ==> (seq >= s ==> noted(r, seq, now).last_event_seq
            == Some(seq)),
        r.last_event_seq matches Some(s) ==> (seq < s ==> noted(r, seq, now).last_event_seq
            == Some(s)),
        noted(r, seq, now).accumulated_text == r.accumulated_text,
        noted(r, seq, now).status == r.status,
{
}

/// A run that was in flight when its process ended is not known any more; its text, its
/// ids and its items stay. Other runs are left alone.
pub proof fn law_lost_runs_are_unknown(r: RunV, now: i64)
    ensures
        r.status is Starting || r.status is Running ==> orphaned(r, now).status
            == HermesTurnStatus::Unknown,
        !(r.status is Starting) && !(r.status is Running) ==> orphaned(r, now) == r,
        orphaned(r, now).accumulated_text == r.accumulated_text,
        orphaned(r, now).run_id == r.run_id,
        orphaned(r, now).turn_id == r.turn_id,
        orphaned(r, now).user_items == r.user_items,
        orphaned(r, now).completed_at == r.completed_at,
{
}

// ---------------------------------------------------------------------------
// The store
// ---------------------------------------------------------------------------
/// A record that is put in is found by its turn and by its run; the records of other
/// turns stay, and a run id that the turn had before leads nowhere.
pub proof fn law_records_are_found(s: RunsV, r: RunV, other: Seq<char>, old_run: Seq<char>)
    requires
        other != r.turn_id,
    ensures
        upserted(s, r).by_turn.dom().contains(r.turn_id),
        upserted(s, r).by_turn[r.turn_id] == r,
        upserted(s, r).by_turn.dom().contains(other) == s.by_turn.dom().contains(other),
        upserted(s, r).by_turn[other] == s.by_turn[other],
        r.run_id matches Some(q) ==> of_run(upserted(s, r), q) == Some(r),
        s.by_turn.dom().contains(r.turn_id) && s.by_turn[r.turn_id].run_id == Some(old_run)
            && r.run_id != Some(old_run) ==> of_run(upserted(s, r), old_run) is None,
        restored(s, r).by_turn[r.turn_id] == r,
        restored(s, r).by_turn.dom().contains(r.turn_id),
        restored(s, r).by_turn[other] == s.by_turn[other],
        r.run_id matches Some(q) ==> of_run(restored(s, r), q) == Some(r),
{
}

/// A run that starts changes the record of its own turn alone; a turn without a record is
/// given none.
pub proof fn law_starting_a_run_is_local(
    s: RunsV,
    turn: Seq<char>,
    run: Seq<char>,
    now: i64,
    other: Seq<char>,
)
    requires
        other != turn,
    ensures
        run_started(s, turn, run, now).by_turn.dom() == s.by_turn.dom(),
        run_started(s, turn, run, now).by_turn[other] == s.by_turn[other],
        !s.by_turn.dom().contains(turn) ==> run_started(s, turn, run, now) == s,
        s.by_turn.dom().contains(turn) ==> run_started(s, turn, run, now).by_turn[turn].status
            == HermesTurnStatus::Running && run_started(s, turn, run, now).by_turn[turn].run_id
            == Some(run) && of_run(run_started(s, turn, run, now), run) == Some(
            run_started(s, turn, run, now).by_turn[turn],
        ),
{
    assert(run_started(s, turn, run, now).by_turn.dom() =~= s.by_turn.dom());
}

/// After a restart every record is still there.
pub proof fn law_restart_loses_no_record(s: RunsV, now: i64, k: Seq<char>)
    requires
        s.by_turn.dom().contains(k),
    ensures
        all_orphaned(s, now).by_turn.dom() == s.by_turn.dom(),
        all_orphaned(s, now).by_turn[k].turn_id == s.by_turn[k].turn_id,
        all_orphaned(s, now).by_turn[k].accumulated_text == s.by_turn[k].accumulated_text,
        s.by_turn[k].status is Starting || s.by_turn[k].status is Running ==> all_orphaned(
            s,
            now,
        ).by_turn[k].status is Unknown,
        all_orphaned(s, now).by_run == s.by_run,
{
    assert(all_orphaned(s, now).by_turn.dom() =~= s.by_turn.dom());
}

// ---------------------------------------------------------------------------
// Events
// ---------------------------------------------------------------------------
/// A client that has seen everything up to a number is given exactly the events above it,
/// in the order of the log: no event above it is left out, and none at it or below it
/// comes again.
pub proof fn law_replay_goes_on_where_it_stopped(events: Seq<EventV>, seq: u64, e: EventV)
    ensures
        after(events, seq).contains(e) <==> events.contains(e) && e.seq > seq,
        e.seq > seq ==> after(events.push(e), seq) == after(events, seq).push(e),
        e.seq <= seq ==> after(events.push(e), seq) == after(events, seq),
        after(Seq::empty(), seq).len() == 0,
{
    let keep = |x: EventV| x.seq > seq;
    let kept = events.filter(keep);
    if kept.contains(e) {
        events.lemma_filter_contains_rev(keep, e);
        let k = choose|k: int| 0 <= k < kept.len() && kept[k] == e;
        events.lemma_filter_pred(keep, k);
    }
    if events.contains(e) && e.seq > seq {
        let k = choose|k: int| 0 <= k < events.len() && events[k] == e;
        events.lemma_filter_contains(keep, k);
    }
    events.lemma_filter_push(e, keep);
    Seq::<EventV>::empty().lemma_filter_len(keep);
}

/// Reading on from one number and then from a higher one is reading on from the higher.
pub proof fn law_replays_can_be_split(events: Seq<EventV>, a: u64, b: u64)
    requires
        a <= b,
    ensures
        after(after(events, a), b) == after(events, b),
    decreases events.len(),
{
    reveal(Seq::filter);
    if events.len() > 0 {
        let t = events.drop_last();
        let e = events.last();
        law_replays_can_be_split(t, a, b);
        assert(t.push(e) =~= events);
        law_replay_goes_on_where_it_stopped(t, a, e);
        law_replay_goes_on_where_it_stopped(t, b, e);
        law_replay_goes_on_where_it_stopped(after(t, a), b, e);
    } else {
        assert(events =~= Seq::empty());
        assert(after(events, a) =~= events);
    }
}

/// The highest number of a log is the number of one of its events, and no event has a
/// higher one; an empty log has none.
pub proof fn law_highest_number_is_reached(events: Seq<EventV>, i: int)
    ensures
        0 <= i < events.len() ==> events[i].seq <= highest(events),
        highest(events) > 0 ==> exists|k: int|
            0 <= k < events.len() && (#[trigger] events[k]).seq == highest(events),
        events.len() == 0 ==> highest(events) == 0,
    decreases events.len(),
{
    if events.len() > 0 {
        let t = events.drop_last();
        law_highest_number_is_reached(t, i);
        if 0 <= i < t.len() {
            assert(t[i] == events[i]);
        }
        if events.last().seq > highest(t) {
            assert(events[events.len() - 1].seq == highest(events));
        } else if highest(events) > 0 {
            let k = choose|k: int| 0 <= k < t.len() && (#[trigger] t[k]).seq == highest(t);
            assert(events[k].seq == highest(events));
        }
    }
}

/// A log is read line by line, in order, and blank lines do not count.
pub proof fn law_logs_are_read_in_order(a: Seq<Seq<char>>, b: Seq<Seq<char>>, line: Seq<char>)
    ensures
        events_in(a + b) == events_in(a) + events_in(b),
        blank(line) ==> events_in(a.push(line)) == events_in(a),
        parsed(line) is None ==> events_in(a.push(line)) == events_in(a),
        events_in(Seq::empty()).len() == 0,
    decreases b.len(),
{
    assert(a.push(line).drop_last() =~= a);
    if b.len() == 0 {
        assert(a + b =~= a);
        assert(events_in(b) =~= Seq::empty());
        assert(events_in(a) + events_in(b) =~= events_in(a));
    } else {
        law_logs_are_read_in_order(a, b.drop_last(), line);
        assert((a + b).drop_last() =~= a + b.drop_last());
        assert((a + b).last() == b.last());
        assert(events_in(a + b) =~= events_in(a) + events_in(b));
    }
}

// ---------------------------------------------------------------------------
// The stream
// ---------------------------------------------------------------------------
/// A frame of one event and one line of data is an event of that name with that data, and
/// leaves nothing behind for the next frame. The events before it stay.
pub proof fn law_a_frame_is_an_event(
    s: FramesV,
    name: Seq<char>,
    data: Seq<char>,
)
    requires
        s.event is None,
        s.data.len() == 0,
    ensures
        ({
            let t = stepped(
                stepped(stepped(s, "event:"@ + name), "data:"@ + data),
                Seq::empty(),
            );
            &&& t.done.len() == s.done.len() + 1
            &&& t.done.take(s.done.len() as int) == s.done
            &&& t.done.last().event == trimmed(name)
            &&& t.done.last().data == frame_data(trimmed(data))
            &&& t.event is None
            &&& t.data.len() == 0
        }),
{
    lemma_field_lines(name, data);
    let first = "event:"@ + name;
    let second = "data:"@ + data;
    let a = stepped(s, first);
    let b = stepped(a, second);
    assert(first.skip("event:"@.len() as int) =~= name);
    assert(second.skip("data:"@.len() as int) =~= data);
    assert(b.data =~= seq![trimmed(data)]);
    let t = stepped(b, Seq::empty());
    assert(t.done.take(s.done.len() as int) =~= s.done);
}

proof fn lemma_field_lines(name: Seq<char>, data: Seq<char>)
    ensures
        begins("event:"@ + name, "event:"@),
        begins("data:"@ + data, "data:"@),
        !begins("data:"@ + data, "event:"@),
        ("event:"@ + name).len() > 0,
        ("data:"@ + data).len() > 0,
{
    reveal_strlit("event:");
    reveal_strlit("data:");
    let e = "event:"@ + name;
    let d = "data:"@ + data;
    assert(e.take("event:"@.len() as int) =~= "event:"@);
    assert(d.take("data:"@.len() as int) =~= "data:"@);
    if begins(d, "event:"@) {
        assert(d.take("event:"@.len() as int)[0] == "event:"@[0]);
        assert(d[0] == "data:"@[0]);
    }
}

/// A frame without a name is a message, several lines of data are one text with line
/// breaks, and an empty line that ends no frame does nothing.
pub proof fn law_frames_without_a_name(s: FramesV, a: Seq<char>, b: Seq<char>)
    requires
        s.event is None,
        s.data.len() == 0,
    ensures
        ({
            let t = stepped(stepped(stepped(s, "data:"@ + a), "data:"@ + b), Seq::empty());
            &&& t.done.len() == s.done.len() + 1
            &&& t.done.last().event == "message"@
            &&& t.done.last().data == frame_data(trimmed(a) + "\n"@ + trimmed(b))
        }),
        stepped(s, Seq::empty()) == s,
{
    lemma_field_lines(a, a);
    lemma_field_lines(b, b);
    let first = "data:"@ + a;
    let second = "data:"@ + b;
    assert(first.skip("data:"@.len() as int) =~= a);
    assert(second.skip("data:"@.len() as int) =~= b);
    let one = stepped(s, first);
    assert(one.data =~= seq![trimmed(a)]);
    let two = stepped(one, second);
    assert(two.data =~= seq![trimmed(a), trimmed(b)]);
    assert(two.data.drop_last() =~= seq![trimmed(a)]);
    reveal_with_fuel(crate::text::joined, 3);
}

/// Data that is a JSON value is that value; other data is its text.
pub proof fn law_frame_data(text: Seq<char>, v: JsonV)
    ensures
        parsed(text) == Some(v) ==> frame_data(text) == v,
        parsed(text) is None ==> frame_data(text) == JsonV::Str(text),
{
}

/// A line that is neither an event, nor data, nor empty changes nothing; the end of the
/// text ends a frame that is open.
pub proof fn law_comments_are_passed_over(s: FramesV, line: Seq<char>)
    requires
        line.len() > 0,
        !begins(line, "event:"@),
        !begins(line, "data:"@),
    ensures
        stepped(s, line) == s,
        s.event is Some ==> ended(s).done.len() == s.done.len() + 1,
        s.event is Some ==> ended(s).done.last().event == s.event->Some_0,
        s.event is None && s.data.len() == 0 ==> ended(s) == s,
{
}

/// Frames come out in the order in which they went in: reading on keeps what was read.
pub proof fn law_frames_come_in_order(all: Seq<Seq<char>>, line: Seq<char>)
    ensures
        walked(all).done.len() <= walked(all.push(line)).done.len(),
        walked(all.push(line)).done.take(walked(all).done.len() as int) == walked(all).done,
        walked(all.push(line)) == stepped(walked(all), line),
{
    assert(all.push(line).drop_last() =~= all);
    assert(all.push(line).last() == line);
    let s = walked(all);
    assert(stepped(s, line).done.take(s.done.len() as int) =~= s.done);
}

} // verus!
