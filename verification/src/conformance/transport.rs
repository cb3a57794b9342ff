//! A JSON-RPC client over lines of text, without the lines: which id a request
//! gets, and where each frame that comes in belongs.

use vstd::prelude::*;

use crate::json::{Json, JsonV, jsons};
use crate::json_text::{parse, parsed};
use crate::text::{
    blank, decimal_i64, decimal_int, is_blank, is_listed, join3, listed, owned, trim, trimmed,
};

verus! {

/// The client.
pub struct JsonRpcClient {
    /// The id of the next request.
    pub next_id: i64,
    /// Responses that came while another one was awaited.
    pub pending_responses: Vec<Json>,
}

/// What came in until a request was answered.
pub struct RequestOutcome {
    pub response: Json,
    pub notifications: Vec<Json>,
}

/// What came in until a drain ended.
pub struct DrainOutcome {
    pub notifications: Vec<Json>,
    /// The notification that ended it; none if time ran out or the stream closed.
    pub terminated_by: Option<String>,
}

/// A request as it is sent.
pub open spec fn request_json(id: int, method: Seq<char>, params: JsonV) -> JsonV {
    JsonV::object().with("jsonrpc"@, JsonV::Str("2.0"@)).with("id"@, JsonV::Int(id)).with(
        "method"@,
        JsonV::Str(method),
    ).with("params"@, params)
}

/// A notification as it is sent.
pub open spec fn notification_json(method: Seq<char>, params: Option<JsonV>) -> JsonV {
    let base = JsonV::object().with("jsonrpc"@, JsonV::Str("2.0"@)).with(
        "method"@,
        JsonV::Str(method),
    );
    match params {
        Some(p) => base.with("params"@, p),
        None => base,
    }
}

/// The id of a frame, where it is an integer.
pub open spec fn frame_id(v: JsonV) -> Option<int> {
    match v.get("id"@) {
        Some(i) => i.as_i64(),
        None => None,
    }
}

/// The position of the first response to a request in a list, or its length.
pub open spec fn response_at(s: Seq<JsonV>, id: int) -> int
    decreases s.len(),
{
    if s.len() == 0 || frame_id(s[0]) == Some(id) {
        0
    } else {
        1 + response_at(s.skip(1), id)
    }
}

/// The next id; after the largest one comes the smallest.
pub open spec fn id_after(id: i64) -> i64 {
    if id == i64::MAX {
        i64::MIN
    } else {
        (id + 1) as i64
    }
}

/// Where a frame belongs while the response to a request is awaited.
pub enum Awaited {
    /// It is the response.
    Response(Json),
    /// It was kept for another request.
    Kept,
    /// It came by itself.
    Notification(Json),
}

/// Where a frame belongs while notifications are drained.
pub enum Drained {
    /// It was kept for a request.
    Kept,
    /// It came by itself; with its method, if that ends the drain.
    Notification(Json, Option<String>),
}

impl JsonRpcClient {
    /// A client that has sent nothing.
    pub fn new() -> (r: JsonRpcClient)
        ensures
            r.next_id == 1,
            jsons(r.pending_responses@) == Seq::<JsonV>::empty(),
    {
        let r = JsonRpcClient { next_id: 1, pending_responses: Vec::new() };
        assert(jsons(r.pending_responses@) =~= Seq::empty());
        r
    }

    /// The frame of a request, and its id.
    pub fn send_request(&mut self, method: &str, params: Json) -> (r: (i64, Json))
        ensures
            r.0 == old(self).next_id,
            r.1.view() == request_json(r.0 as int, method@, params.view()),
            final(self).next_id == id_after(old(self).next_id),
            final(self).pending_responses == old(self).pending_responses,
    {
        let id: i64 = self.next_id;
        self.next_id = if id == i64::MAX {
            i64::MIN
        } else {
            id + 1
        };
        let frame = Json::object().with("jsonrpc", Json::text("2.0")).with("id", Json::Int(id)).with(
            "method",
            Json::text(method),
        ).with("params", params);
        (id, frame)
    }

    /// The frame of a notification.
    pub fn notify(method: &str, params: Option<Json>) -> (r: Json)
        ensures
            r.view() == notification_json(
                method@,
                match params {
                    Some(p) => Some(p.view()),
                    None => None,
                },
            ),
    {
        let base = Json::object().with("jsonrpc", Json::text("2.0")).with(
            "method",
            Json::text(method),
        );
        match params {
            Some(p) => base.with("params", p),
            None => base,
        }
    }

    /// Takes the response to a request out of those that were kept: the first one,
    /// if there are several.
    pub fn take_pending_response(&mut self, id: i64) -> (r: Option<Json>)
        ensures
            ({
                let s = jsons(old(self).pending_responses@);
                let i = response_at(s, id as int);
                match r {
                    Some(v) => 0 <= i < s.len() && v.view() == s[i] && jsons(
                        final(self).pending_responses@,
                    ) == s.remove(i),
                    None => i == s.len() && final(self).pending_responses
                        == old(self).pending_responses,
                }
            }),
            final(self).next_id == old(self).next_id,
    {
        let ghost s = jsons(self.pending_responses@);
        let n: usize = self.pending_responses.len();
        let mut i: usize = 0;
        assert(s.skip(0) =~= s);
        while i < n
            invariant
                i <= n,
                n == self.pending_responses@.len(),
                s == jsons(self.pending_responses@),
                self.pending_responses == old(self).pending_responses,
                self.next_id == old(self).next_id,
                response_at(s, id as int) == i + response_at(s.skip(i as int), id as int),
            decreases n - i,
        {
            assert(s[i as int] == self.pending_responses@[i as int].view());
            assert(s.skip(i as int)[0] == s[i as int]);
            let hit = match self.pending_responses[i].get("id") {
                Some(v) => match v.as_i64() {
                    Some(x) => x == id,
                    None => false,
                },
                None => false,
            };
            if hit {
                let v = self.pending_responses.remove(i);
                assert(jsons(self.pending_responses@) =~= s.remove(i as int));
                return Some(v);
            }
            assert(s.skip(i as int).skip(1) =~= s.skip(i + 1));
            i += 1;
        }
        None
    }

    fn keep(&mut self, v: Json)
        ensures
            jsons(final(self).pending_responses@) == jsons(old(self).pending_responses@).push(
                v.view(),
            ),
            final(self).next_id == old(self).next_id,
    {
        self.pending_responses.push(v);
        assert(jsons(self.pending_responses@) =~= jsons(old(self).pending_responses@).push(
            v.view(),
        ));
    }

    /// Finds out where a frame belongs while the response to a request is awaited. A
    /// frame with an id and a method is a request of the server, which counts as a
    /// notification.
    pub fn wait_for_response(&mut self, id: i64, v: Json) -> (r: Awaited)
        ensures
            final(self).next_id == old(self).next_id,
            ({
                let f = v.view();
                if frame_id(f) == Some(id as int) {
                    &&& r matches Awaited::Response(x) && x == v
                    &&& final(self).pending_responses == old(self).pending_responses
                } else if f.get("id"@) is Some && f.get("method"@) is None {
                    &&& r is Kept
                    &&& jsons(final(self).pending_responses@) == jsons(
                        old(self).pending_responses@,
                    ).push(f)
                } else {
                    &&& r matches Awaited::Notification(x) && x == v
                    &&& final(self).pending_responses == old(self).pending_responses
                }
            }),
    {
        let hit = match v.get("id") {
            Some(x) => match x.as_i64() {
                Some(n) => n == id,
                None => false,
            },
            None => false,
        };
        if hit {
            return Awaited::Response(v);
        }
        if v.get("id").is_some() && v.get("method").is_none() {
            self.keep(v);
            return Awaited::Kept;
        }
        Awaited::Notification(v)
    }

    /// Finds out where a frame belongs while notifications are drained until one of
    /// some methods.
    pub fn drain_notifications_until(&mut self, stops: &[&'static str], v: Json) -> (r: Drained)
        ensures
            final(self).next_id == old(self).next_id,
            match v.view().str_at("method"@) {
                Some(m) => {
                    &&& r matches Drained::Notification(x, by) && x == v && match by {
                        Some(t) => t@ == m && listed(stops@, m),
                        None => !listed(stops@, m),
                    }
                    &&& final(self).pending_responses == old(self).pending_responses
                },
                None => {
                    &&& r is Kept
                    &&& jsons(final(self).pending_responses@) == jsons(
                        old(self).pending_responses@,
                    ).push(v.view())
                },
            },
    {
        let by = match v.str_at("method") {
            Some(m) => if is_listed(stops, m) {
                Some(owned(m))
            } else {
                None
            },
            None => {
                self.keep(v);
                return Drained::Kept;
            },
        };
        Drained::Notification(v, by)
    }

    /// Finds out where a frame belongs while the line falls idle: one with a method
    /// came by itself.
    pub fn drain_idle(&mut self, v: Json) -> (r: Option<Json>)
        ensures
            final(self).next_id == old(self).next_id,
            if v.view().get("method"@) is Some {
                r == Some(v) && final(self).pending_responses == old(self).pending_responses
            } else {
                r is None && jsons(final(self).pending_responses@) == jsons(
                    old(self).pending_responses@,
                ).push(v.view())
            },
    {
        if v.get("method").is_some() {
            Some(v)
        } else {
            self.keep(v);
            None
        }
    }
}

/// What to tell when a request is not answered in time.
pub fn request_timeout(id: i64, method: &str) -> (r: String)
    ensures
        r@ == "timed out waiting for response id="@ + decimal_int(id as int) + " method="@
            + method@,
{
    let mut out = join3(
        "timed out waiting for response id=",
        decimal_i64(id).as_str(),
        " method=",
    );
    out.append(method);
    out
}

/// What a line holds.
pub enum WireLine {
    /// Nothing: it only keeps the line alive.
    Blank,
    /// A frame.
    Frame(Json),
    /// Something that is no JSON; its text without surrounding blanks.
    Bad(String),
}

/// Reads a line.
pub fn read_wire_one(line: &str) -> (r: WireLine)
    ensures
        match r {
            WireLine::Blank => blank(line@),
            WireLine::Frame(v) => !blank(line@) && parsed(trimmed(line@)) == Some(v.view()),
            WireLine::Bad(t) => !blank(line@) && t@ == trimmed(line@) && parsed(t@) is None,
        },
{
    if is_blank(line) {
        return WireLine::Blank;
    }
    let t = trim(line);
    match parse(t.as_str()) {
        Some(v) => WireLine::Frame(v),
        None => WireLine::Bad(t),
    }
}

// ---------------------------------------------------------------------------
// Laws
// ---------------------------------------------------------------------------
/// A response that was kept is there to be taken, and taking it leaves the others as
/// they were.
pub proof fn law_kept_response_is_found(s: Seq<JsonV>, v: JsonV, id: int)
    requires
        frame_id(v) == Some(id),
        forall|i: int| 0 <= i < s.len() ==> frame_id(#[trigger] s[i]) != Some(id),
    ensures
        response_at(s.push(v), id) == s.len(),
        s.push(v).remove(s.len() as int) == s,
    decreases s.len(),
{
    assert(s.push(v).remove(s.len() as int) =~= s);
    if s.len() > 0 {
        let t = s.skip(1);
        assert forall|i: int| 0 <= i < t.len() implies frame_id(#[trigger] t[i]) != Some(id) by {
            assert(frame_id(s[i + 1]) != Some(id));
        }
        law_kept_response_is_found(t, v, id);
        assert(s.push(v).skip(1) =~= t.push(v));
        assert(s.push(v)[0] == s[0]);
        assert(frame_id(s[0]) != Some(id));
    } else {
        assert(s.push(v)[0] == v);
    }
}

/// The ids of successive requests differ.
pub proof fn law_ids_differ(id: i64)
    ensures
        id_after(id) != id,
{
}

} // verus!
