//! The text form of the run store.

use vstd::prelude::*;

use super::run_state::{
    HermesRunRecord, HermesTurnStatus, RunStore, RunV, RunsV, holds, indexed, keyed,
    law_status_names, of_run, restored, run_views,
};
use crate::codex::thread::{
    ItemV, ThreadItem, genuine, item_json, items, items_from_json, items_in, items_json,
    law_items_read_back,
};
use crate::decode::{
    default_array, default_str, maybe_i64, maybe_str, maybe_u64, need_i64, need_str,
    read_default_array, read_default_str, read_i64, read_maybe_i64, read_maybe_str, read_maybe_u64,
    read_str,
};
use crate::json::{Json, JsonV, ToJson, jsons, lemma_array_view, list_to_json, opt_int, opt_str};
use crate::json_text::{DEPTH, parse, parsed, render_pretty, rendered_pretty, storable};
use crate::text::{before, blank, is_before, is_blank, lemma_before_total, lemma_before_trans, tag};

verus! {

// ---------------------------------------------------------------------------
// One record
// ---------------------------------------------------------------------------
/// A record as a JSON object.
pub open spec fn run_json(r: RunV) -> JsonV {
    JsonV::object()
        .with("threadId"@, JsonV::Str(r.thread_id))
        .with("turnId"@, JsonV::Str(r.turn_id))
        .with("hermesSessionId"@, JsonV::Str(r.hermes_session_id))
        .with("runId"@, opt_str(r.run_id))
        .with("status"@, JsonV::Str(r.status.name()))
        .with("createdAt"@, JsonV::Int(r.created_at as int))
        .with("updatedAt"@, JsonV::Int(r.updated_at as int))
        .with(
            "completedAt"@,
            opt_int(
                match r.completed_at {
                    Some(i) => Some(i as int),
                    None => None,
                },
            ),
        )
        .with("error"@, opt_str(r.error))
        .with("accumulatedText"@, JsonV::Str(r.accumulated_text))
        .with(
            "lastEventSeq"@,
            opt_int(
                match r.last_event_seq {
                    Some(i) => Some(i as int),
                    None => None,
                },
            ),
        )
        .with("agentItemId"@, opt_str(r.agent_item_id))
        .with("userItems"@, JsonV::Arr(items_json(r.user_items)))
}

/// The status field of a record.
pub open spec fn status_in(v: JsonV) -> Option<HermesTurnStatus> {
    match need_str(v, "status"@) {
        Some(name) => HermesTurnStatus::named(name),
        None => None,
    }
}

/// The user items of a record: none where they are missing.
pub open spec fn user_items_in(v: JsonV) -> Option<Seq<ItemV>> {
    match default_array(v, "userItems"@) {
        Some(a) => items_in(a),
        None => None,
    }
}

fn read_user_items(v: &Json) -> (r: Option<Vec<ThreadItem>>)
    ensures
        match r {
            Some(x) => user_items_in(v.view()) == Some(items(x@)),
            None => user_items_in(v.view()) is None,
        },
{
    match read_default_array(v, "userItems") {
        Some(a) => items_from_json(&a),
        None => None,
    }
}

/// The record that a JSON object stands for, if its fields have the right types and its
/// user items are items.
pub open spec fn run_in(v: JsonV) -> Option<RunV> {
    match (
        need_str(v, "threadId"@),
        need_str(v, "turnId"@),
        need_str(v, "hermesSessionId"@),
        maybe_str(v, "runId"@),
        status_in(v),
        need_i64(v, "createdAt"@),
        need_i64(v, "updatedAt"@),
    ) {
        (
            Some(thread_id),
            Some(turn_id),
            Some(hermes_session_id),
            Some(run_id),
            Some(status),
            Some(created_at),
            Some(updated_at),
        ) => match (
            maybe_i64(v, "completedAt"@),
            maybe_str(v, "error"@),
            default_str(v, "accumulatedText"@),
            maybe_u64(v, "lastEventSeq"@),
            maybe_str(v, "agentItemId"@),
            user_items_in(v),
        ) {
            (
                Some(completed_at),
                Some(error),
                Some(accumulated_text),
                Some(last_event_seq),
                Some(agent_item_id),
                Some(user_items),
            ) => Some(
                RunV {
                    thread_id,
                    turn_id,
                    hermes_session_id,
                    run_id,
                    status,
                    created_at: created_at as i64,
                    updated_at: updated_at as i64,
                    completed_at: match completed_at {
                        Some(i) => Some(i as i64),
                        None => None,
                    },
                    error,
                    accumulated_text,
                    last_event_seq: match last_event_seq {
                        Some(i) => Some(i as u64),
                        None => None,
                    },
                    agent_item_id,
                    user_items,
                },
            ),
            _ => None,
        },
        _ => None,
    }
}

/// Writes a record as a JSON object.
pub fn run_to_json(r: &HermesRunRecord) -> (j: Json)
    ensures
        j.view() == run_json(r.view()),
{
    assert(r.user_items@.map_values(|x: ThreadItem| x.json()) =~= items_json(items(r.user_items@)));
    let seq = match r.last_event_seq {
        Some(u) => Json::Uint(u),
        None => Json::Null,
    };
    Json::object()
        .with("threadId", Json::text(r.thread_id.as_str()))
        .with("turnId", Json::text(r.turn_id.as_str()))
        .with("hermesSessionId", Json::text(r.hermes_session_id.as_str()))
        .with("runId", Json::opt_str(&r.run_id))
        .with("status", Json::text(r.status.as_str()))
        .with("createdAt", Json::Int(r.created_at))
        .with("updatedAt", Json::Int(r.updated_at))
        .with("completedAt", Json::opt_int(r.completed_at))
        .with("error", Json::opt_str(&r.error))
        .with("accumulatedText", Json::text(r.accumulated_text.as_str()))
        .with("lastEventSeq", seq)
        .with("agentItemId", Json::opt_str(&r.agent_item_id))
        .with("userItems", list_to_json(&r.user_items))
}

/// Reads a record from a JSON object.
pub fn run_from_json(v: &Json) -> (r: Option<HermesRunRecord>)
    ensures
        match r {
            Some(x) => run_in(v.view()) == Some(x.view()),
            None => run_in(v.view()) is None,
        },
{
    let status = match v.str_at("status") {
        Some(name) => HermesTurnStatus::from_str(name),
        None => None,
    };
    match (
        read_str(v, "threadId"),
        read_str(v, "turnId"),
        read_str(v, "hermesSessionId"),
        read_maybe_str(v, "runId"),
        status,
        read_i64(v, "createdAt"),
        read_i64(v, "updatedAt"),
    ) {
        (
            Some(thread_id),
            Some(turn_id),
            Some(hermes_session_id),
            Some(run_id),
            Some(status),
            Some(created_at),
            Some(updated_at),
        ) => match (
            read_maybe_i64(v, "completedAt"),
            read_maybe_str(v, "error"),
            read_default_str(v, "accumulatedText"),
            read_maybe_u64(v, "lastEventSeq"),
            read_maybe_str(v, "agentItemId"),
            read_user_items(v),
        ) {
            (
                Some(completed_at),
                Some(error),
                Some(accumulated_text),
                Some(last_event_seq),
                Some(agent_item_id),
                Some(user_items),
            ) => Some(
                HermesRunRecord {
                    thread_id,
                    turn_id,
                    hermes_session_id,
                    run_id,
                    status,
                    created_at,
                    updated_at,
                    completed_at,
                    error,
                    accumulated_text,
                    last_event_seq,
                    agent_item_id,
                    user_items,
                },
            ),
            _ => None,
        },
        _ => None,
    }
}

proof fn lemma_run_keys()
    ensures
        tag("threadId"@) == (8nat, 't', 'h'),
        tag("turnId"@) == (6nat, 't', 'u'),
        tag("hermesSessionId"@) == (15nat, 'h', 'e'),
        tag("runId"@) == (5nat, 'r', 'u'),
        tag("status"@) == (6nat, 's', 't'),
        tag("createdAt"@) == (9nat, 'c', 'r'),
        tag("updatedAt"@) == (9nat, 'u', 'p'),
        tag("completedAt"@) == (11nat, 'c', 'o'),
        tag("error"@) == (5nat, 'e', 'r'),
        tag("accumulatedText"@) == (15nat, 'a', 'c'),
        tag("lastEventSeq"@) == (12nat, 'l', 'a'),
        tag("agentItemId"@) == (11nat, 'a', 'g'),
        tag("userItems"@) == (9nat, 'u', 's'),
{
    reveal_strlit("threadId");
    reveal_strlit("turnId");
    reveal_strlit("hermesSessionId");
    reveal_strlit("runId");
    reveal_strlit("status");
    reveal_strlit("createdAt");
    reveal_strlit("updatedAt");
    reveal_strlit("completedAt");
    reveal_strlit("error");
    reveal_strlit("accumulatedText");
    reveal_strlit("lastEventSeq");
    reveal_strlit("agentItemId");
    reveal_strlit("userItems");
}

/// Whether the user items of a record are items by their JSON.
pub open spec fn items_genuine(r: RunV) -> bool {
    forall|i: int| 0 <= i < r.user_items.len() ==> genuine(#[trigger] r.user_items[i])
}

/// A record is read back as it was written.
pub proof fn law_record_reads_back(r: RunV)
    requires
        items_genuine(r),
    ensures
        run_in(run_json(r)) == Some(r),
{
    lemma_run_keys();
    law_items_read_back(r.user_items);
    law_status_names(r.status);
    let v = run_json(r);
    assert(v.get("threadId"@) == Some(JsonV::Str(r.thread_id)));
    assert(v.get("turnId"@) == Some(JsonV::Str(r.turn_id)));
    assert(v.get("hermesSessionId"@) == Some(JsonV::Str(r.hermes_session_id)));
    assert(v.get("runId"@) == Some(opt_str(r.run_id)));
    assert(v.get("status"@) == Some(JsonV::Str(r.status.name())));
    assert(v.get("createdAt"@) == Some(JsonV::Int(r.created_at as int)));
    assert(v.get("updatedAt"@) == Some(JsonV::Int(r.updated_at as int)));
    assert(v.get("error"@) == Some(opt_str(r.error)));
    assert(v.get("accumulatedText"@) == Some(JsonV::Str(r.accumulated_text)));
    assert(v.get("agentItemId"@) == Some(opt_str(r.agent_item_id)));
    assert(v.get("userItems"@) == Some(JsonV::Arr(items_json(r.user_items))));
    assert(run_in(v)->0 =~= r);
}

// ---------------------------------------------------------------------------
// The whole store
// ---------------------------------------------------------------------------
/// The turn ids rise strictly.
pub open spec fn rising(s: Seq<RunV>) -> bool {
    forall|i: int, j: int|
        0 <= i < j < s.len() ==> before((#[trigger] s[i]).turn_id, (#[trigger] s[j]).turn_id)
}

/// `order` lists the records of the store by turn id.
pub open spec fn lists(s: RunsV, order: Seq<RunV>) -> bool {
    &&& rising(order)
    &&& forall|v: RunV| #[trigger]
        order.to_multiset().count(v) == (if holds(s, v) {
            1nat
        } else {
            0nat
        })
}

/// Records in a given order as a JSON object.
pub open spec fn runs_json(order: Seq<RunV>) -> JsonV {
    JsonV::object().with("records"@, JsonV::Arr(order.map_values(|r: RunV| run_json(r))))
}

/// The records that a JSON array stands for, if each element is one.
pub open spec fn runs_in(a: Seq<JsonV>) -> Option<Seq<RunV>>
    decreases a.len(),
{
    if a.len() == 0 {
        Some(seq![])
    } else {
        match (runs_in(a.drop_last()), run_in(a.last())) {
            (Some(rs), Some(r)) => Some(rs.push(r)),
            _ => None,
        }
    }
}

/// The store that a list of records makes, read in order.
pub open spec fn store_of(rs: Seq<RunV>) -> RunsV
    decreases rs.len(),
{
    if rs.len() == 0 {
        RunsV { by_turn: Map::empty(), by_run: Map::empty() }
    } else {
        restored(store_of(rs.drop_last()), rs.last())
    }
}

/// The store that a stored text stands for: an absent or blank text is an empty
/// store, anything else must be an object with a list of records.
pub open spec fn loaded(text: Option<Seq<char>>) -> Option<RunsV> {
    match text {
        None => Some(store_of(seq![])),
        Some(t) => if blank(t) {
            Some(store_of(seq![]))
        } else {
            match parsed(t) {
                None => None,
                Some(v) => match v.array_at("records"@) {
                    None => None,
                    Some(a) => match runs_in(a) {
                        None => None,
                        Some(rs) => Some(store_of(rs)),
                    },
                },
            }
        },
    }
}

/// User items that the text form carries without loss.
pub open spec fn items_storable(order: Seq<RunV>) -> bool {
    forall|i: int, j: int|
        0 <= i < order.len() && 0 <= j < order[i].user_items.len() ==> storable(
            item_json(#[trigger] order[i].user_items[j]),
            (DEPTH - 4) as nat,
        )
}

fn insert_rising(out: &mut Vec<HermesRunRecord>, y: HermesRunRecord) -> (p: usize)
    requires
        rising(run_views(old(out)@)),
        forall|i: int| 0 <= i < old(out)@.len() ==> (#[trigger] old(out)@[i]).turn_id@ != y.turn_id@,
    ensures
        p <= old(out)@.len(),
        final(out)@ == old(out)@.insert(p as int, y),
        rising(run_views(final(out)@)),
{
    let ghost start = out@;
    let ghost sv = run_views(start);
    let mut p: usize = out.len();
    while p > 0 && is_before(y.turn_id.as_str(), out[p - 1].turn_id.as_str())
        invariant
            p <= out@.len(),
            out@ == start,
            forall|a: int|
                p <= a < start.len() ==> before(y.turn_id@, (#[trigger] start[a]).turn_id@),
        decreases p,
    {
        p -= 1;
    }
    let ghost gy = y;
    out.insert(p, y);
    proof {
        let nv = run_views(out@);
        assert(nv =~= sv.insert(p as int, gy.view()));
        assert forall|a: int, b: int| 0 <= a < b < nv.len() implies before(
            (#[trigger] nv[a]).turn_id,
            (#[trigger] nv[b]).turn_id,
        ) by {
            let a2 = if a < p { a } else { a - 1 };
            let b2 = if b < p { b } else { b - 1 };
            if b == p {
                assert(start[p - 1].turn_id@ != gy.turn_id@);
                lemma_before_total(gy.turn_id@, start[p - 1].turn_id@);
                if a < p - 1 {
                    assert(before(sv[a].turn_id, sv[p - 1].turn_id));
                    lemma_before_trans(sv[a].turn_id, sv[p - 1].turn_id, gy.turn_id@);
                }
            } else if a == p {
                assert(before(gy.turn_id@, start[b2].turn_id@));
            } else {
                assert(before(sv[a2].turn_id, sv[b2].turn_id));
            }
        }
    }
    p
}

proof fn lemma_listed(s: RunsV, order: Seq<RunV>, i: int)
    requires
        forall|v: RunV| #[trigger]
            order.to_multiset().count(v) == (if holds(s, v) {
                1nat
            } else {
                0nat
            }),
        0 <= i < order.len(),
    ensures
        holds(s, order[i]),
        forall|j: int| 0 <= j < order.len() && j != i ==> order[j] != order[i],
{
    broadcast use vstd::seq_lib::group_to_multiset_ensures;
    broadcast use vstd::multiset::group_multiset_axioms;

    assert(order.contains(order[i]));
    assert(order.to_multiset().count(order[i]) > 0);
    assert forall|j: int| 0 <= j < order.len() && j != i implies order[j] != order[i] by {
        if order[j] == order[i] {
            let rest = order.remove(i);
            vstd::seq_lib::to_multiset_remove(order, i);
            let k = if j < i { j } else { j - 1 };
            assert(rest[k] == order[i]);
            assert(rest.contains(order[i]));
            assert(rest.to_multiset().count(order[i]) > 0);
        }
    }
}

impl RunStore {
    /// All records, by turn id.
    pub fn records_by_turn(&self) -> (r: Vec<HermesRunRecord>)
        ensures
            lists(self.view(), run_views(r@)),
    {
        let all = self.records();
        let n: usize = all.len();
        let ghost av = run_views(all@);
        let mut out: Vec<HermesRunRecord> = Vec::new();
        let mut i: usize = 0;
        assert(run_views(out@) =~= av.take(0));
        while i < n
            invariant
                i <= n,
                n == all@.len(),
                av == run_views(all@),
                self.collects(all@, |x: RunV| true),
                rising(run_views(out@)),
                run_views(out@).to_multiset() == av.take(i as int).to_multiset(),
            decreases n - i,
        {
            let ghost start = run_views(out@);
            let y = all[i].copy();
            let ghost gy = y.view();
            proof {
                lemma_listed(self.view(), av, i as int);
                assert forall|a: int| 0 <= a < out@.len() implies (#[trigger] out@[a]).turn_id@
                    != y.turn_id@ by {
                    let x = start[a];
                    assert(start.contains(x));
                    vstd::seq_lib::to_multiset_contains(start, x);
                    vstd::seq_lib::to_multiset_contains(av.take(i as int), x);
                    let k = choose|k: int| 0 <= k < i && av.take(i as int)[k] == x;
                    assert(av[k] == x);
                    lemma_listed(self.view(), av, k);
                    assert(av[k] != av[i as int]);
                }
            }
            let p: usize = insert_rising(&mut out, y);
            proof {
                assert(run_views(out@) =~= start.insert(p as int, gy));
                vstd::seq_lib::to_multiset_insert(start, p as int, gy);
                assert(av.take(i + 1) =~= av.take(i as int).push(av[i as int]));
                vstd::seq_lib::to_multiset_build(av.take(i as int), av[i as int]);
            }
            i += 1;
        }
        assert(av.take(n as int) =~= av);
        out
    }

    /// The text form of the store. Where the user items can be stored without
    /// loss, the text reads back as the same list of records.
    pub fn persisted(&self) -> (r: String)
        ensures
            !blank(r@),
            exists|order: Seq<RunV>|
                {
                    &&& #[trigger] lists(self.view(), order)
                    &&& r@ == rendered_pretty(runs_json(order))
                    &&& items_storable(order) ==> parsed(r@) == Some(runs_json(order))
                },
    {
        broadcast use lemma_array_view;

        let records = self.records_by_turn();
        let ghost order = run_views(records@);
        let mut items: Vec<Json> = Vec::new();
        let mut i: usize = 0;
        while i < records.len()
            invariant
                i <= records@.len(),
                items@.len() == i,
                forall|j: int| 0 <= j < i ==> (#[trigger] items@[j]).view() == run_json(
                    records@[j].view(),
                ),
            decreases records@.len() - i,
        {
            items.push(run_to_json(&records[i]));
            i += 1;
        }
        assert(jsons(items@) =~= order.map_values(|r: RunV| run_json(r)));
        let j = Json::object().with("records", Json::Array(items));
        let text = render_pretty(&j);
        proof {
            assert(lists(self.view(), order));
            if items_storable(order) {
                lemma_runs_storable(order);
            }
        }
        text
    }

    /// Reads a store from its text form. Of a field that a record gives more than once, the
    /// last counts, and an array of fields is no record.
    pub fn load(text: Option<&str>) -> (r: Option<RunStore>)
        ensures
            match r {
                Some(s) => loaded(
                    match text {
                        Some(t) => Some(t@),
                        None => None,
                    },
                ) == Some(s.view()),
                None => loaded(
                    match text {
                        Some(t) => Some(t@),
                        None => None,
                    },
                ) is None,
            },
    {
        let mut store = RunStore::new_in_memory();
        assert(store.view() == store_of(seq![]));
        let t = match text {
            None => {
                return Some(store);
            },
            Some(t) => t,
        };
        if is_blank(t) {
            return Some(store);
        }
        let v = match parse(t) {
            None => {
                return None;
            },
            Some(v) => v,
        };
        let a = match v.array_at("records") {
            None => {
                return None;
            },
            Some(a) => a,
        };
        let ghost models = jsons(a@);
        let ghost mut rs: Seq<RunV> = seq![];
        let mut i: usize = 0;
        assert(models.take(0) =~= seq![]);
        while i < a.len()
            invariant
                i <= a@.len(),
                models == jsons(a@),
                text is Some,
                !blank(text->0@),
                parsed(text->0@) == Some(v.view()),
                v.view().array_at("records"@) == Some(models),
                runs_in(models.take(i as int)) == Some(rs),
                store.view() == store_of(rs),
            decreases a@.len() - i,
        {
            assert(models.take(i + 1).drop_last() =~= models.take(i as int));
            assert(models.take(i + 1).last() == a@[i as int].view());
            match run_from_json(&a[i]) {
                Some(r) => {
                    proof {
                        let next = rs.push(r.view());
                        assert(next.drop_last() =~= rs);
                        rs = next;
                    }
                    store.restore(r);
                },
                None => {
                    proof {
                        lemma_runs_in_prefix(models, i + 1);
                    }
                    return None;
                },
            }
            i += 1;
        }
        assert(models.take(a@.len() as int) =~= models);
        Some(store)
    }
}

proof fn lemma_runs_in_prefix(a: Seq<JsonV>, n: int)
    requires
        0 <= n <= a.len(),
        runs_in(a.take(n)) is None,
    ensures
        runs_in(a) is None,
    decreases a.len(),
{
    if n == a.len() {
        assert(a.take(n) =~= a);
    } else {
        assert(a.drop_last().take(n) =~= a.take(n));
        lemma_runs_in_prefix(a.drop_last(), n);
    }
}

proof fn lemma_run_storable(r: RunV)
    requires
        forall|j: int|
            0 <= j < r.user_items.len() ==> storable(
                item_json(#[trigger] r.user_items[j]),
                (DEPTH - 4) as nat,
            ),
    ensures
        storable(run_json(r), (DEPTH - 2) as nat),
{
    let v = run_json(r);
    let items = JsonV::Arr(items_json(r.user_items));
    assert(storable(items, (DEPTH - 3) as nat));
    assert forall|k: Seq<char>| #[trigger] v->Obj_0.dom().contains(k) implies storable(
        v->Obj_0[k],
        (DEPTH - 3) as nat,
    ) by {
        if k != "userItems"@ {
            assert(!(v->Obj_0[k] is Arr));
            assert(!(v->Obj_0[k] is Obj));
        }
    }
}

proof fn lemma_runs_storable(order: Seq<RunV>)
    requires
        items_storable(order),
    ensures
        storable(runs_json(order), DEPTH as nat),
{
    let list = order.map_values(|r: RunV| run_json(r));
    assert forall|i: int| 0 <= i < list.len() implies storable(
        #[trigger] list[i],
        (DEPTH - 2) as nat,
    ) by {
        lemma_run_storable(order[i]);
    }
    assert(storable(JsonV::Arr(list), (DEPTH - 1) as nat));
    let v = runs_json(order);
    assert forall|k: Seq<char>| #[trigger] v->Obj_0.dom().contains(k) implies storable(
        v->Obj_0[k],
        (DEPTH - 1) as nat,
    ) by {
        assert(k == "records"@);
    }
}

proof fn lemma_runs_read_back(order: Seq<RunV>)
    requires
        forall|i: int| 0 <= i < order.len() ==> items_genuine(#[trigger] order[i]),
    ensures
        runs_in(order.map_values(|r: RunV| run_json(r))) == Some(order),
    decreases order.len(),
{
    let list = order.map_values(|r: RunV| run_json(r));
    if order.len() == 0 {
        assert(order =~= seq![]);
    } else {
        assert(list.drop_last() =~= order.drop_last().map_values(|r: RunV| run_json(r)));
        lemma_runs_read_back(order.drop_last());
        law_record_reads_back(order.last());
        assert(order.drop_last().push(order.last()) =~= order);
    }
}

proof fn lemma_rising_prefix(rs: Seq<RunV>)
    requires
        rising(rs),
        rs.len() > 0,
    ensures
        rising(rs.drop_last()),
{
    let t = rs.drop_last();
    assert forall|i: int, j: int| 0 <= i < j < t.len() implies before(
        (#[trigger] t[i]).turn_id,
        (#[trigger] t[j]).turn_id,
    ) by {
        assert(before(rs[i].turn_id, rs[j].turn_id));
    }
}

proof fn lemma_rising_differ(rs: Seq<RunV>, i: int, j: int)
    requires
        rising(rs),
        0 <= i < j < rs.len(),
    ensures
        rs[i].turn_id != rs[j].turn_id,
{
    assert(before(rs[i].turn_id, rs[j].turn_id));
    lemma_before_total(rs[i].turn_id, rs[j].turn_id);
}

proof fn lemma_store_turn(rs: Seq<RunV>, i: int)
    requires
        rising(rs),
        0 <= i < rs.len(),
    ensures
        store_of(rs).by_turn.dom().contains(rs[i].turn_id),
        store_of(rs).by_turn[rs[i].turn_id] == rs[i],
    decreases rs.len(),
{
    if i < rs.len() - 1 {
        lemma_rising_prefix(rs);
        lemma_store_turn(rs.drop_last(), i);
        lemma_rising_differ(rs, i, rs.len() - 1);
    }
}

proof fn lemma_store_dom(rs: Seq<RunV>, k: Seq<char>) -> (i: int)
    requires
        store_of(rs).by_turn.dom().contains(k),
    ensures
        0 <= i < rs.len(),
        rs[i].turn_id == k,
    decreases rs.len(),
{
    if rs.len() == 0 {
        0
    } else if rs.last().turn_id == k {
        rs.len() - 1
    } else {
        lemma_store_dom(rs.drop_last(), k)
    }
}

proof fn lemma_store_indexed(rs: Seq<RunV>)
    requires
        rising(rs),
    ensures
        indexed(store_of(rs)),
    decreases rs.len(),
{
    if rs.len() > 0 {
        lemma_rising_prefix(rs);
        let t = rs.drop_last();
        lemma_store_indexed(t);
        if store_of(t).by_turn.dom().contains(rs.last().turn_id) {
            let i = lemma_store_dom(t, rs.last().turn_id);
            lemma_rising_differ(rs, i, rs.len() - 1);
        }
    }
}

proof fn lemma_store_run(rs: Seq<RunV>, i: int)
    requires
        0 <= i < rs.len(),
        rs[i].run_id is Some,
        forall|j: int| i < j < rs.len() ==> (#[trigger] rs[j]).run_id != rs[i].run_id,
    ensures
        store_of(rs).by_run.dom().contains(rs[i].run_id->0),
        store_of(rs).by_run[rs[i].run_id->0] == rs[i].turn_id,
    decreases rs.len(),
{
    if i < rs.len() - 1 {
        let t = rs.drop_last();
        assert(rs[rs.len() - 1].run_id != rs[i].run_id);
        assert forall|j: int| i < j < t.len() implies (#[trigger] t[j]).run_id != t[i].run_id by {
            assert(rs[j].run_id != rs[i].run_id);
        }
        lemma_store_run(t, i);
    }
}

proof fn lemma_position(s: RunsV, order: Seq<RunV>, k: Seq<char>) -> (i: int)
    requires
        keyed(s),
        forall|v: RunV| #[trigger]
            order.to_multiset().count(v) == (if holds(s, v) {
                1nat
            } else {
                0nat
            }),
        s.by_turn.dom().contains(k),
    ensures
        0 <= i < order.len(),
        order[i] == s.by_turn[k],
{
    let r = s.by_turn[k];
    assert(holds(s, r));
    vstd::seq_lib::to_multiset_contains(order, r);
    assert(order.to_multiset().count(r) == 1);
    choose|i: int| 0 <= i < order.len() && order[i] == r
}

/// What was persisted is what is loaded: a text that reads as the listing of a
/// store makes a store with the same records, in which the run id of each record
/// that shares it with no other leads to that record.
pub proof fn law_reload(s: RunsV, order: Seq<RunV>, text: Seq<char>)
    requires
        keyed(s),
        lists(s, order),
        forall|i: int| 0 <= i < order.len() ==> items_genuine(#[trigger] order[i]),
        !blank(text),
        parsed(text) == Some(runs_json(order)),
    ensures
        loaded(Some(text)) is Some,
        loaded(Some(text))->0.by_turn == s.by_turn,
        indexed(loaded(Some(text))->0),
        forall|k: Seq<char>| #[trigger]
            s.by_turn.dom().contains(k) && s.by_turn[k].run_id is Some && (forall|l: Seq<char>|
                #[trigger]
                s.by_turn.dom().contains(l) && l != k ==> s.by_turn[l].run_id
                    != s.by_turn[k].run_id) ==> of_run(
                loaded(Some(text))->0,
                s.by_turn[k].run_id->0,
            ) == Some(s.by_turn[k]),
{
    let v = runs_json(order);
    assert(v.array_at("records"@) == Some(order.map_values(|r: RunV| run_json(r))));
    lemma_runs_read_back(order);
    lemma_store_indexed(order);
    let out = store_of(order);
    assert(out.by_turn =~= s.by_turn) by {
        assert forall|k: Seq<char>| s.by_turn.dom().contains(k) <==> #[trigger]
            out.by_turn.dom().contains(k) by {
            if s.by_turn.dom().contains(k) {
                let i = lemma_position(s, order, k);
                lemma_store_turn(order, i);
            }
            if out.by_turn.dom().contains(k) {
                let i = lemma_store_dom(order, k);
                lemma_listed(s, order, i);
            }
        }
        assert forall|k: Seq<char>| #[trigger] out.by_turn.dom().contains(k) implies out.by_turn[k]
            == s.by_turn[k] by {
            let i = lemma_position(s, order, k);
            lemma_store_turn(order, i);
        }
    }
    assert forall|k: Seq<char>| #[trigger]
        s.by_turn.dom().contains(k) && s.by_turn[k].run_id is Some && (forall|l: Seq<char>|
            #[trigger]
            s.by_turn.dom().contains(l) && l != k ==> s.by_turn[l].run_id
                != s.by_turn[k].run_id) implies of_run(out, s.by_turn[k].run_id->0) == Some(
        s.by_turn[k],
    ) by {
        let i = lemma_position(s, order, k);
        assert forall|j: int| i < j < order.len() implies (#[trigger] order[j]).run_id
            != order[i].run_id by {
            lemma_listed(s, order, j);
            lemma_rising_differ(order, i, j);
            assert(s.by_turn.dom().contains(order[j].turn_id));
        }
        lemma_store_run(order, i);
    }
}

} // verus!
