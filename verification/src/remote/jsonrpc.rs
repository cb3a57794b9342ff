//! Frames of the control socket.

use vstd::prelude::*;

use crate::json::{Json, JsonV, fields, jsons, lemma_array_view, lemma_fields_push};
use crate::json_text::{render, rendered};
use crate::text::{ascii_lowered, contains, has_text, owned, to_ascii_lowercase};

verus! {

// ---------------------------------------------------------------------------
// Ids
// ---------------------------------------------------------------------------
/// What tells requests apart.
#[derive(Debug)]
pub enum RequestId {
    Integer(i64),
    Text(String),
}

/// The model of an id.
pub enum IdV {
    Integer(i64),
    Text(Seq<char>),
}

/// An id on the wire.
pub open spec fn id_json(id: IdV) -> JsonV {
    match id {
        IdV::Integer(n) => JsonV::Int(n as int),
        IdV::Text(s) => JsonV::Str(s),
    }
}

/// The id that a value stands for.
pub open spec fn id_of(v: JsonV) -> Option<IdV> {
    match v {
        JsonV::Str(s) => Some(IdV::Text(s)),
        _ => match v.as_i64() {
            Some(n) => Some(IdV::Integer(n as i64)),
            None => None,
        },
    }
}

impl RequestId {
    /// The model of this id.
    pub open spec fn view(&self) -> IdV {
        match self {
            RequestId::Integer(n) => IdV::Integer(*n),
            RequestId::Text(s) => IdV::Text(s@),
        }
    }

    /// A copy of this id.
    pub fn copy(&self) -> (r: RequestId)
        ensures
            r.view() == self.view(),
    {
        match self {
            RequestId::Integer(n) => RequestId::Integer(*n),
            RequestId::Text(s) => RequestId::Text(s.clone()),
        }
    }

    /// The id on the wire.
    pub fn to_json(&self) -> (j: Json)
        ensures
            j.view() == id_json(self.view()),
    {
        match self {
            RequestId::Integer(n) => Json::Int(*n),
            RequestId::Text(s) => Json::text(s.as_str()),
        }
    }

    /// The id that a value stands for.
    pub fn from_json(v: &Json) -> (r: Option<RequestId>)
        ensures
            match r {
                Some(id) => id_of(v.view()) == Some(id.view()),
                None => id_of(v.view()) is None,
            },
    {
        match v.as_str() {
            Some(s) => Some(RequestId::Text(owned(s))),
            None => match v.as_i64() {
                Some(n) => Some(RequestId::Integer(n)),
                None => None,
            },
        }
    }

    /// Whether this is the given number.
    pub fn is_number(&self, n: i64) -> (r: bool)
        ensures
            r == (self.view() == IdV::Integer(n)),
    {
        match self {
            RequestId::Integer(m) => *m == n,
            RequestId::Text(_) => false,
        }
    }
}

// ---------------------------------------------------------------------------
// What is sent
// ---------------------------------------------------------------------------
/// A value with a field, if there is something to put in it.
pub open spec fn with_some(v: JsonV, key: Seq<char>, x: Option<JsonV>) -> JsonV {
    match x {
        Some(y) => v.with(key, y),
        None => v,
    }
}

/// A request on the wire.
pub open spec fn request_frame(id: i64, method: Seq<char>, params: Option<JsonV>) -> JsonV {
    with_some(
        JsonV::object()
            .with("jsonrpc"@, JsonV::Str("2.0"@))
            .with("id"@, JsonV::Int(id as int))
            .with("method"@, JsonV::Str(method)),
        "params"@,
        params,
    )
}

/// A notification on the wire.
pub open spec fn notification_frame(method: Seq<char>, params: Option<JsonV>) -> JsonV {
    with_some(
        JsonV::object()
            .with("jsonrpc"@, JsonV::Str("2.0"@))
            .with("method"@, JsonV::Str(method)),
        "params"@,
        params,
    )
}

/// A successful answer on the wire.
pub open spec fn result_frame(id: IdV, result: JsonV) -> JsonV {
    JsonV::object()
        .with("jsonrpc"@, JsonV::Str("2.0"@))
        .with("id"@, id_json(id))
        .with("result"@, result)
}

/// A refusal on the wire.
pub open spec fn error_frame(id: IdV, code: i64, message: Seq<char>) -> JsonV {
    JsonV::object()
        .with("jsonrpc"@, JsonV::Str("2.0"@))
        .with("id"@, id_json(id))
        .with(
            "error"@,
            JsonV::object()
                .with("code"@, JsonV::Int(code as int))
                .with("message"@, JsonV::Str(message)),
        )
}

/// A request.
pub fn request(id: i64, method: &str, params: Option<Json>) -> (j: Json)
    ensures
        j.view() == request_frame(
            id,
            method@,
            match params {
                Some(p) => Some(p.view()),
                None => None,
            },
        ),
{
    let j = Json::object()
        .with("jsonrpc", Json::text("2.0"))
        .with("id", Json::Int(id))
        .with("method", Json::text(method));
    match params {
        Some(p) => j.with("params", p),
        None => j,
    }
}

/// A notification.
pub fn notification(method: &str, params: Option<Json>) -> (j: Json)
    ensures
        j.view() == notification_frame(
            method@,
            match params {
                Some(p) => Some(p.view()),
                None => None,
            },
        ),
{
    let j = Json::object().with("jsonrpc", Json::text("2.0")).with("method", Json::text(method));
    match params {
        Some(p) => j.with("params", p),
        None => j,
    }
}

/// A successful answer.
pub fn response_result_frame(id: &RequestId, result: Json) -> (j: Json)
    ensures
        j.view() == result_frame(id.view(), result.view()),
{
    Json::object()
        .with("jsonrpc", Json::text("2.0"))
        .with("id", id.to_json())
        .with("result", result)
}

/// A refusal.
pub fn response_error_frame(id: &RequestId, code: i64, message: &str) -> (j: Json)
    ensures
        j.view() == error_frame(id.view(), code, message@),
{
    Json::object()
        .with("jsonrpc", Json::text("2.0"))
        .with("id", id.to_json())
        .with(
            "error",
            Json::object().with("code", Json::Int(code)).with("message", Json::text(message)),
        )
}

// ---------------------------------------------------------------------------
// What is received
// ---------------------------------------------------------------------------
/// A frame that was received.
#[derive(Debug)]
pub enum InboundMessage {
    Request { id: RequestId, method: String, params: Option<Json> },
    Notification { method: String, params: Option<Json> },
    Response { id: RequestId, result: Option<Json>, error: Option<(i64, String)> },
}

/// The model of a frame that was received.
pub enum InboundV {
    Request { id: IdV, method: Seq<char>, params: Option<JsonV> },
    Notification { method: Seq<char>, params: Option<JsonV> },
    Response { id: IdV, result: Option<JsonV>, error: Option<(i64, Seq<char>)> },
}

/// The model of an optional value.
pub open spec fn opt_value(j: Option<Json>) -> Option<JsonV> {
    match j {
        Some(x) => Some(x.view()),
        None => None,
    }
}

/// The model of an optional error.
pub open spec fn opt_fault(e: Option<(i64, String)>) -> Option<(i64, Seq<char>)> {
    match e {
        Some((code, message)) => Some((code, message@)),
        None => None,
    }
}

impl InboundMessage {
    /// The model of this frame.
    pub open spec fn view(&self) -> InboundV {
        match self {
            InboundMessage::Request { id, method, params } => InboundV::Request {
                id: id.view(),
                method: method@,
                params: opt_value(*params),
            },
            InboundMessage::Notification { method, params } => InboundV::Notification {
                method: method@,
                params: opt_value(*params),
            },
            InboundMessage::Response { id, result, error } => InboundV::Response {
                id: id.view(),
                result: opt_value(*result),
                error: opt_fault(*error),
            },
        }
    }
}

/// A field that may be absent or `null`.
pub open spec fn some_field(v: JsonV, key: Seq<char>) -> Option<JsonV> {
    match v.get(key) {
        Some(JsonV::Null) => None,
        other => other,
    }
}

/// The error in a frame: `None` if there is something that is no error.
pub open spec fn fault_in(v: JsonV) -> Option<Option<(i64, Seq<char>)>> {
    match some_field(v, "error"@) {
        None => Some(None),
        Some(e) => match (e.get("code"@), e.str_at("message"@)) {
            (Some(c), Some(m)) => match c.as_i64() {
                Some(n) => Some(Some((n as i64, m))),
                None => None,
            },
            _ => None,
        },
    }
}

/// Why a frame cannot be used.
#[derive(Debug, Clone, Copy, PartialEq, Eq, Structural)]
pub enum FrameFault {
    /// It has neither an id nor a method.
    Neither,
    /// A field has the wrong type.
    Shape,
}

/// What a frame says.
pub open spec fn frame_meaning(v: JsonV) -> Result<InboundV, FrameFault> {
    let id = v.get("id"@);
    let method = v.get("method"@);
    if id is None && method is None {
        Err(FrameFault::Neither)
    } else if method is Some {
        match v.str_at("method"@) {
            None => Err(FrameFault::Shape),
            Some(name) => match id {
                None => Ok(
                    InboundV::Notification { method: name, params: some_field(v, "params"@) },
                ),
                Some(i) => match id_of(i) {
                    Some(x) => Ok(
                        InboundV::Request { id: x, method: name, params: some_field(v, "params"@) },
                    ),
                    None => Err(FrameFault::Shape),
                },
            },
        }
    } else {
        match (id_of(id->Some_0), fault_in(v)) {
            (Some(x), Some(error)) => Ok(
                InboundV::Response { id: x, result: some_field(v, "result"@), error },
            ),
            _ => Err(FrameFault::Shape),
        }
    }
}

fn read_field(v: &Json, key: &str) -> (r: Option<Json>)
    ensures
        opt_value(r) == some_field(v.view(), key@),
{
    match v.get(key) {
        Some(f) => if f.is_null() {
            None
        } else {
            Some(f.copy())
        },
        None => None,
    }
}

fn read_fault(v: &Json) -> (r: Option<Option<(i64, String)>>)
    ensures
        match r {
            Some(e) => fault_in(v.view()) == Some(opt_fault(e)),
            None => fault_in(v.view()) is None,
        },
{
    match read_field(v, "error") {
        None => Some(None),
        Some(e) => match (e.get("code"), e.str_at("message")) {
            (Some(c), Some(m)) => match c.as_i64() {
                Some(n) => Some(Some((n, owned(m)))),
                None => None,
            },
            _ => None,
        },
    }
}

impl InboundMessage {
    /// Reads a frame: with an id and a method it is a request, with a method alone a
    /// notification, with an id alone an answer.
    pub fn from_value(value: &Json) -> (r: Result<InboundMessage, FrameFault>)
        ensures
            match r {
                Ok(m) => frame_meaning(value.view()) == Ok::<InboundV, FrameFault>(m.view()),
                Err(e) => frame_meaning(value.view()) == Err::<InboundV, FrameFault>(e),
            },
    {
        let id = value.get("id");
        let method = value.get("method");
        if id.is_none() && method.is_none() {
            return Err(FrameFault::Neither);
        }
        if method.is_some() {
            let name = match value.str_at("method") {
                Some(n) => owned(n),
                None => {
                    return Err(FrameFault::Shape);
                },
            };
            let params = read_field(value, "params");
            match id {
                None => Ok(InboundMessage::Notification { method: name, params }),
                Some(i) => match RequestId::from_json(i) {
                    Some(x) => Ok(InboundMessage::Request { id: x, method: name, params }),
                    None => Err(FrameFault::Shape),
                },
            }
        } else {
            match id {
                Some(i) => match (RequestId::from_json(i), read_fault(value)) {
                    (Some(x), Some(error)) => Ok(
                        InboundMessage::Response { id: x, result: read_field(value, "result"), error },
                    ),
                    _ => Err(FrameFault::Shape),
                },
                None => Err(FrameFault::Neither),
            }
        }
    }
}

// ---------------------------------------------------------------------------
// Redaction
// ---------------------------------------------------------------------------
/// Whether the name of a field says that its value is secret.
pub open spec fn is_secret(name: Seq<char>) -> bool {
    let lower = ascii_lowered(name);
    has_text(lower, "token"@) || has_text(lower, "secret"@) || has_text(lower, "authorization"@)
}

/// Whether the name of a field says that its value is secret.
pub fn names_a_secret(name: &str) -> (r: bool)
    ensures
        r == is_secret(name@),
{
    let lower = to_ascii_lowercase(name);
    let s = lower.as_str();
    contains(s, "token") || contains(s, "secret") || contains(s, "authorization")
}

/// A value without its secrets, at every depth.
pub open spec fn redacted(v: JsonV) -> JsonV
    decreases v,
{
    match v {
        JsonV::Arr(a) => JsonV::Arr(
            Seq::new(
                a.len(),
                |i: int|
                    if 0 <= i < a.len() {
                        redacted(a[i])
                    } else {
                        JsonV::Null
                    },
            ),
        ),
        JsonV::Obj(m) => JsonV::Obj(
            Map::new(
                |k: Seq<char>| m.dom().contains(k),
                |k: Seq<char>|
                    if is_secret(k) {
                        JsonV::Str("<redacted>"@)
                    } else if m.dom().contains(k) {
                        redacted(m[k])
                    } else {
                        JsonV::Null
                    },
            ),
        ),
        other => other,
    }
}

/// The fields of an object without secrets.
pub open spec fn redacted_fields(m: Map<Seq<char>, JsonV>) -> Map<Seq<char>, JsonV> {
    redacted(JsonV::Obj(m))->Obj_0
}

proof fn lemma_redacted_insert(m: Map<Seq<char>, JsonV>, k: Seq<char>, x: JsonV)
    ensures
        redacted_fields(m.insert(k, x)) == redacted_fields(m).insert(
            k,
            if is_secret(k) {
                JsonV::Str("<redacted>"@)
            } else {
                redacted(x)
            },
        ),
{
    assert(redacted_fields(m.insert(k, x)) =~= redacted_fields(m).insert(
        k,
        if is_secret(k) {
            JsonV::Str("<redacted>"@)
        } else {
            redacted(x)
        },
    ));
}

/// A value without its secrets, at every depth.
pub fn redact(value: &Json) -> (r: Json)
    ensures
        r.view() == redacted(value.view()),
    decreases value,
{
    broadcast use lemma_array_view;

    match value {
        Json::Array(v) => {
            let mut out: Vec<Json> = Vec::new();
            let mut i: usize = 0;
            while i < v.len()
                invariant
                    i <= v@.len(),
                    out@.len() == i,
                    *value == Json::Array(*v),
                    forall|j: int|
                        0 <= j < i ==> (#[trigger] out@[j]).view() == redacted(v@[j].view()),
                decreases v@.len() - i,
            {
                assert(decreases_to!(*value => value->Array_0));
                assert(decreases_to!(value->Array_0 => value->Array_0@));
                assert(decreases_to!(v@ => v@[i as int]));
                out.push(redact(&v[i]));
                i += 1;
            }
            assert(value.view() == JsonV::Arr(jsons(v@)));
            assert(jsons(out@) =~= redacted(JsonV::Arr(jsons(v@)))->Arr_0);
            Json::Array(out)
        },
        Json::Object(v) => {
            let mut out: Vec<(String, Json)> = Vec::new();
            let mut i: usize = 0;
            assert(fields(out@) =~= redacted_fields(fields(v@.take(0))));
            while i < v.len()
                invariant
                    i <= v@.len(),
                    out@.len() == i,
                    *value == Json::Object(*v),
                    fields(out@) == redacted_fields(fields(v@.take(i as int))),
                decreases v@.len() - i,
            {
                assert(decreases_to!(*value => value->Object_0));
                assert(decreases_to!(value->Object_0 => value->Object_0@));
                assert(decreases_to!(v@ => v@[i as int]));
                assert(decreases_to!(v@[i as int] => v@[i as int].1));
                let x = if names_a_secret(v[i].0.as_str()) {
                    Json::text("<redacted>")
                } else {
                    redact(&v[i].1)
                };
                let e = (v[i].0.clone(), x);
                proof {
                    lemma_fields_push(out@, e);
                    assert(v@.take(i + 1) == v@.take(i as int).push(v@[i as int]));
                    lemma_fields_push(v@.take(i as int), v@[i as int]);
                    lemma_redacted_insert(
                        fields(v@.take(i as int)),
                        v@[i as int].0@,
                        v@[i as int].1.view(),
                    );
                }
                out.push(e);
                i += 1;
            }
            assert(v@.take(v@.len() as int) == v@);
            Json::Object(out)
        },
        Json::Number(n) => {
            assert(crate::json::number_json(*n) !is Arr && crate::json::number_json(*n) !is Obj);
            value.copy()
        },
        _ => value.copy(),
    }
}

/// The text of a value without its secrets, for logs and messages.
pub fn redacted_json(value: &Json) -> (r: String)
    ensures
        r@ == rendered(redacted(value.view())),
{
    render(&redact(value))
}

// ---------------------------------------------------------------------------
// Laws
// ---------------------------------------------------------------------------
/// Whether every field with a secret name holds nothing but the mark.
pub open spec fn without_secrets(v: JsonV) -> bool
    decreases v,
{
    match v {
        JsonV::Arr(a) => forall|i: int| 0 <= i < a.len() ==> without_secrets(#[trigger] a[i]),
        JsonV::Obj(m) => forall|k: Seq<char>| #[trigger]
            m.dom().contains(k) ==> (if is_secret(k) {
                m[k] == JsonV::Str("<redacted>"@)
            } else {
                without_secrets(m[k])
            }),
        _ => true,
    }
}

/// No secret is left in a redacted value, however deep.
pub proof fn law_redaction_leaves_no_secret(v: JsonV)
    ensures
        without_secrets(redacted(v)),
    decreases v,
{
    match v {
        JsonV::Arr(a) => {
            let r = redacted(v)->Arr_0;
            assert forall|i: int| 0 <= i < r.len() implies without_secrets(#[trigger] r[i]) by {
                law_redaction_leaves_no_secret(a[i]);
            }
        },
        JsonV::Obj(m) => {
            let r = redacted(v)->Obj_0;
            assert forall|k: Seq<char>| #[trigger] r.dom().contains(k) implies (if is_secret(k) {
                r[k] == JsonV::Str("<redacted>"@)
            } else {
                without_secrets(r[k])
            }) by {
                if !is_secret(k) {
                    assert(m.dom().contains(k));
                    law_redaction_leaves_no_secret(m[k]);
                }
            }
        },
        _ => {},
    }
}

/// Redacting again changes nothing.
pub proof fn law_redaction_settles(v: JsonV)
    ensures
        redacted(redacted(v)) == redacted(v),
    decreases v,
{
    match v {
        JsonV::Arr(a) => {
            let r = redacted(v)->Arr_0;
            assert forall|i: int| 0 <= i < r.len() implies redacted(#[trigger] r[i]) == r[i] by {
                law_redaction_settles(a[i]);
            }
            assert(redacted(JsonV::Arr(r))->Arr_0 =~= r);
        },
        JsonV::Obj(m) => {
            let r = redacted(v)->Obj_0;
            assert forall|k: Seq<char>| #[trigger] r.dom().contains(k) && !is_secret(k) implies redacted(
                r[k],
            ) == r[k] by {
                assert(m.dom().contains(k));
                law_redaction_settles(m[k]);
            }
            assert(redacted(JsonV::Obj(r))->Obj_0 =~= r);
        },
        _ => {},
    }
}

/// What is shown of a value does not depend on its secrets.
pub proof fn law_secrets_do_not_show(m: Map<Seq<char>, JsonV>, key: Seq<char>, other: JsonV)
    requires
        m.dom().contains(key),
        is_secret(key),
    ensures
        redacted(JsonV::Obj(m)) == redacted(JsonV::Obj(m.insert(key, other))),
{
    assert(redacted(JsonV::Obj(m))->Obj_0 =~= redacted(JsonV::Obj(m.insert(key, other)))->Obj_0);
}

/// An answer that is sent is read as the answer to the request that it names.
pub proof fn law_answer_is_read_back(id: IdV, result: JsonV, code: i64, message: Seq<char>)
    requires
        result != JsonV::Null,
    ensures
        frame_meaning(result_frame(id, result)) == Ok::<InboundV, FrameFault>(
            InboundV::Response { id, result: Some(result), error: None },
        ),
        frame_meaning(error_frame(id, code, message)) == Ok::<InboundV, FrameFault>(
            InboundV::Response { id, result: None, error: Some((code, message)) },
        ),
{
    lemma_keys_differ();
}

/// A request that is sent is read as that request, and a notification as that
/// notification.
pub proof fn law_request_is_read_back(id: i64, method: Seq<char>, params: Option<JsonV>)
    requires
        params != Some(JsonV::Null),
    ensures
        frame_meaning(request_frame(id, method, params)) == Ok::<InboundV, FrameFault>(
            InboundV::Request { id: IdV::Integer(id), method, params },
        ),
        frame_meaning(notification_frame(method, params)) == Ok::<InboundV, FrameFault>(
            InboundV::Notification { method, params },
        ),
{
    lemma_keys_differ();
}

proof fn lemma_keys_differ()
    ensures
        "jsonrpc"@.len() == 7,
        "id"@.len() == 2,
        "method"@.len() == 6,
        "params"@.len() == 6,
        "method"@ != "params"@,
        "method"@ != "result"@,
        "params"@ != "result"@,
        "result"@.len() == 6,
        "error"@.len() == 5,
        "code"@.len() == 4,
        "message"@.len() == 7,
{
    reveal_strlit("jsonrpc");
    reveal_strlit("id");
    reveal_strlit("method");
    reveal_strlit("params");
    reveal_strlit("result");
    reveal_strlit("error");
    reveal_strlit("code");
    reveal_strlit("message");
    assert("method"@[0] == 'm');
    assert("params"@[0] == 'p');
    assert("result"@[0] == 'r');
}

} // verus!
