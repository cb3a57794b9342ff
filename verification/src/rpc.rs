//! JSON-RPC errors and replies.

use vstd::prelude::*;

use crate::json::{Json, JsonV};
use crate::text::{join3, owned};

verus! {

/// Code of an unknown method.
pub const METHOD_NOT_FOUND: i64 = -32601;

/// Code of parameters that cannot be used.
pub const INVALID_PARAMS: i64 = -32602;

/// Code of a failure on the serving side.
pub const INTERNAL_ERROR: i64 = -32603;

/// The error of a request.
#[derive(Debug, PartialEq)]
pub struct JsonRpcError {
    pub code: i64,
    pub message: String,
}

/// The model of a reply.
pub enum ReplyV {
    Done(JsonV),
    Refused(i64, Seq<char>),
}

/// The model of a reply.
pub open spec fn reply(r: Result<Json, JsonRpcError>) -> ReplyV {
    match r {
        Ok(j) => ReplyV::Done(j.view()),
        Err(e) => ReplyV::Refused(e.code, e.message@),
    }
}

/// An error with a code and a message.
pub fn rpc_error(code: i64, message: &str) -> (r: JsonRpcError)
    ensures
        r.code == code,
        r.message@ == message@,
{
    JsonRpcError { code, message: owned(message) }
}

/// The reply that is an error.
pub fn error_response(code: i64, message: &str) -> (r: Result<Json, JsonRpcError>)
    ensures
        reply(r) == ReplyV::Refused(code, message@),
{
    Err(rpc_error(code, message))
}

/// Parameters that cannot be used.
pub fn invalid_params(message: &str) -> (r: JsonRpcError)
    ensures
        r.code == INVALID_PARAMS,
        r.message@ == message@,
{
    rpc_error(INVALID_PARAMS, message)
}

/// A failure on the serving side.
pub fn internal(message: &str) -> (r: JsonRpcError)
    ensures
        r.code == INTERNAL_ERROR,
        r.message@ == message@,
{
    rpc_error(INTERNAL_ERROR, message)
}

/// A method that this side does not offer.
pub fn method_not_found(method: &str) -> (r: JsonRpcError)
    ensures
        r.code == METHOD_NOT_FOUND,
        r.message@ == "method `"@ + method@ + "` is not implemented"@,
{
    JsonRpcError {
        code: METHOD_NOT_FOUND,
        message: join3("method `", method, "` is not implemented"),
    }
}

/// A bridge event that is to be recorded and handed on.
#[derive(Debug)]
pub struct Publication {
    pub method: String,
    pub params: Json,
}

/// The model of a publication.
#[verifier::ext_equal]
pub struct PublicationV {
    pub method: Seq<char>,
    pub params: JsonV,
}

impl Publication {
    /// The model of this publication.
    pub open spec fn view(&self) -> PublicationV {
        PublicationV { method: self.method@, params: self.params.view() }
    }

    /// A publication of a method with its parameters.
    pub fn new(method: &str, params: Json) -> (r: Publication)
        ensures
            r.view() == (PublicationV { method: method@, params: params.view() }),
    {
        Publication { method: owned(method), params }
    }
}

/// The models of a list of publications.
pub open spec fn publications(s: Seq<Publication>) -> Seq<PublicationV> {
    s.map_values(|p: Publication| p.view())
}

/// What a request leads to: clients are told, then the request is answered.
pub struct Answer {
    pub notify: Vec<Publication>,
    pub reply: Result<Json, JsonRpcError>,
}

/// The model of what a request leads to.
#[verifier::ext_equal]
pub struct AnswerV {
    pub notify: Seq<PublicationV>,
    pub reply: ReplyV,
}

impl Answer {
    /// The model of what the request leads to.
    pub open spec fn view(&self) -> AnswerV {
        AnswerV { notify: publications(self.notify@), reply: reply(self.reply) }
    }
}

/// A request that is refused.
pub open spec fn turned_down(code: i64, message: Seq<char>) -> AnswerV {
    AnswerV { notify: seq![], reply: ReplyV::Refused(code, message) }
}

/// A request that is answered without telling anyone.
pub open spec fn replied(v: JsonV) -> AnswerV {
    AnswerV { notify: seq![], reply: ReplyV::Done(v) }
}

/// A request that is answered after clients were told one thing.
pub open spec fn told(method: Seq<char>, params: JsonV, v: JsonV) -> AnswerV {
    AnswerV { notify: seq![PublicationV { method, params }], reply: ReplyV::Done(v) }
}

/// Refuses a request.
pub fn turn_down(code: i64, message: &str) -> (r: Answer)
    ensures
        r.view() == turned_down(code, message@),
{
    let notify: Vec<Publication> = Vec::new();
    assert(publications(notify@) =~= seq![]);
    Answer { notify, reply: error_response(code, message) }
}

/// Answers a request without telling anyone.
pub fn reply_with(j: Json) -> (r: Answer)
    ensures
        r.view() == replied(j.view()),
{
    let notify: Vec<Publication> = Vec::new();
    assert(publications(notify@) =~= seq![]);
    Answer { notify, reply: Ok(j) }
}

/// Tells clients one thing, then answers a request.
pub fn tell(method: &str, params: Json, j: Json) -> (r: Answer)
    ensures
        r.view() == told(method@, params.view(), j.view()),
{
    let mut notify: Vec<Publication> = Vec::new();
    let p = Publication::new(method, params);
    let ghost gp = p;
    notify.push(p);
    assert(publications(notify@) =~= seq![gp.view()]);
    Answer { notify, reply: Ok(j) }
}

} // verus!
