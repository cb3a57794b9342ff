//! Laws of the supervision: what is known is what was told, and a remote control that
//! does not work is switched on.

use vstd::prelude::*;

use super::auth::{AuthError, AuthV, auth_json, tokens_in};
use super::jsonrpc::{
    FrameFault, IdV, InboundV, error_frame, frame_meaning, id_json, id_of, notification_frame,
    request_frame, result_frame,
};
use super::status::{
    CodexRemoteControlState, SnapshotV, only_state, snapshot_json, state_of, status_told,
};
use super::supervisor::{
    CodexRemoteControlTuning, ConnectionV, EventV, ExitV, FailureV, StageV, after_exit,
    enable_reason, healthy, inbound_handled, stale, stepped,
};
use crate::codex::notifications::RemoteControlConnectionStatus;
use crate::json::JsonV;
use crate::text::{begins, ends};

verus! {

// ---------------------------------------------------------------------------
// What is told
// ---------------------------------------------------------------------------
/// The four words for the status of the connection.
pub open spec fn status_word(name: Seq<char>) -> bool {
    name == "disabled"@ || name == "connecting"@ || name == "connected"@ || name == "errored"@
}

/// Whether a value tells a status by its word, with a server and an environment or
/// without.
pub open spec fn tells(v: JsonV, name: Seq<char>, server: Option<Seq<char>>, environment: Option<
    Seq<char>,
>) -> bool {
    &&& v.get("status"@) == Some(JsonV::Str(name))
    &&& v.get("serverName"@) == (match server {
        Some(s) => Some(JsonV::Str(s)),
        None => None,
    })
    &&& v.get("environmentId"@) == (match environment {
        Some(s) => Some(JsonV::Str(s)),
        None => None,
    })
}

proof fn lemma_status_words()
    ensures
        "disabled"@ != "connecting"@,
        "disabled"@ != "connected"@,
        "disabled"@ != "errored"@,
        "connecting"@ != "connected"@,
        "connecting"@ != "errored"@,
        "connected"@ != "errored"@,
        "idle"@ != "connected"@,
        "blocked"@ != "connected"@,
        "stopped"@ != "connected"@,
        "idle"@ != "connecting"@,
        "blocked"@ != "connecting"@,
        "stopped"@ != "connecting"@,
{
    reveal_strlit("disabled");
    reveal_strlit("connecting");
    reveal_strlit("connected");
    reveal_strlit("errored");
    reveal_strlit("idle");
    reveal_strlit("blocked");
    reveal_strlit("stopped");
    assert("disabled"@.len() == 8 && "connecting"@.len() == 10 && "connected"@.len() == 9);
    assert("errored"@.len() == 7 && "idle"@.len() == 4 && "blocked"@.len() == 7);
    assert("stopped"@.len() == 7);
}

/// A status that the app server tells is taken at its word, whatever was known before:
/// the state that is kept has the name that was told, with the server and the
/// environment that were told, as of now, and without an error.
pub proof fn law_status_is_taken_at_its_word(
    s: SnapshotV,
    v: JsonV,
    name: Seq<char>,
    server: Option<Seq<char>>,
    environment: Option<Seq<char>>,
    auth: Result<AuthV, Seq<char>>,
    now: u64,
)
    requires
        status_word(name),
        tells(v, name, server, environment),
    ensures
        ({
            let h = inbound_handled(
                s,
                InboundV::Notification {
                    method: "remoteControl/status/changed"@,
                    params: Some(v),
                },
                auth,
                now,
            );
            &&& h.status.state.name() == name
            &&& h.status.server_name == server
            &&& h.status.environment_id == environment
            &&& h.status.last_update_unix_ms == Some(now)
            &&& h.status.last_enable_reason == s.last_enable_reason
            &&& h.status.error is None
            &&& h.status.blocked is None
            &&& h.send is None
            &&& h.failure is None
        }),
{
    lemma_status_words();
}

/// A status in other words ends the connection, and what was known stays.
pub proof fn law_unknown_status_fails(
    c: ConnectionV,
    v: JsonV,
    auth: Result<AuthV, Seq<char>>,
    tuning: CodexRemoteControlTuning,
    now: u64,
)
    requires
        v.get("status"@) matches Some(JsonV::Str(name)) ==> !status_word(name),
    ensures
        ({
            let m = InboundV::Notification {
                method: "remoteControl/status/changed"@,
                params: Some(v),
            };
            let step = stepped(c, EventV::Message(m, auth), tuning, now);
            &&& step.exit == Some(ExitV::Failed(FailureV::BadStatus))
            &&& step.next == c
            &&& step.send.len() == 0
        }),
{
}

/// A status told as errored or disabled is never healthy, and there is a reason to
/// switch the remote control on, at that time and ever after.
pub proof fn law_errored_is_not_healthy(
    s: SnapshotV,
    status: RemoteControlConnectionStatus,
    server: Option<Seq<char>>,
    environment: Option<Seq<char>>,
    tuning: CodexRemoteControlTuning,
    now: u64,
    later: u64,
)
    requires
        status == RemoteControlConnectionStatus::Errored || status
            == RemoteControlConnectionStatus::Disabled,
    ensures
        ({
            let t = status_told(s, status, server, environment, now);
            &&& !healthy(t, tuning.connecting_grace_ms, later)
            &&& enable_reason(t, tuning, later) is Some
            &&& status == RemoteControlConnectionStatus::Errored ==> t.state.name() == "errored"@
            &&& status == RemoteControlConnectionStatus::Disabled ==> t.state.name()
                == "disabled"@
        }),
{
}

/// A status told as connected needs nothing until it is too old; one told as connecting
/// needs nothing until it is too old or the grace is over. A clock that went back makes
/// nothing old.
pub proof fn law_good_news_last(
    s: SnapshotV,
    server: Option<Seq<char>>,
    environment: Option<Seq<char>>,
    tuning: CodexRemoteControlTuning,
    now: u64,
    later: u64,
)
    ensures
        ({
            let up = status_told(
                s,
                RemoteControlConnectionStatus::Connected,
                server,
                environment,
                now,
            );
            let coming = status_told(
                s,
                RemoteControlConnectionStatus::Connecting,
                server,
                environment,
                now,
            );
            &&& up.state.name() == "connected"@
            &&& coming.state.name() == "connecting"@
            &&& healthy(up, tuning.connecting_grace_ms, later)
            &&& later >= now ==> (enable_reason(up, tuning, later) is None <==> later - now
                < tuning.stale_after_ms)
            &&& later >= now ==> (healthy(coming, tuning.connecting_grace_ms, later) <==> later
                - now < tuning.connecting_grace_ms)
            &&& later >= now ==> (enable_reason(coming, tuning, later) is None <==> later - now
                < tuning.stale_after_ms && later - now < tuning.connecting_grace_ms)
            &&& later < now && tuning.stale_after_ms > 0 ==> enable_reason(up, tuning, later)
                is None
            &&& later >= now ==> (stale(up, tuning.stale_after_ms, later) <==> later - now
                >= tuning.stale_after_ms)
        }),
{
}

/// A remote control whose state has any name but the two good ones has to be switched on,
/// and so has one of which nothing was ever told. The reason ends with the name of the
/// state, if there is one.
pub proof fn law_every_other_state_needs_enabling(
    s: SnapshotV,
    tuning: CodexRemoteControlTuning,
    now: u64,
)
    ensures
        s.state.name() != "connected"@ && s.state.name() != "connecting"@ ==> enable_reason(
            s,
            tuning,
            now,
        ) is Some,
        s.last_update_unix_ms is None ==> enable_reason(s, tuning, now) == Some(
            "missing-status"@,
        ),
        s.last_update_unix_ms is Some && enable_reason(s, tuning, now) is Some ==> ends(
            enable_reason(s, tuning, now)->Some_0,
            s.state.name(),
        ),
        s.last_update_unix_ms is Some && enable_reason(s, tuning, now) is Some ==> (begins(
            enable_reason(s, tuning, now)->Some_0,
            "stale-status:"@,
        ) <==> stale(s, tuning.stale_after_ms, now)),
{
    lemma_status_words();
    let name = s.state.name();
    let old_lead = "stale-status:"@;
    let new_lead = "status:"@;
    assert((old_lead + name).skip(old_lead.len() as int) =~= name);
    assert((new_lead + name).skip(new_lead.len() as int) =~= name);
    assert((old_lead + name).take(old_lead.len() as int) =~= old_lead);
    reveal_strlit("stale-status:");
    reveal_strlit("status:");
    assert(old_lead[2] == 'a' && new_lead[2] == 'a' && old_lead[3] == 'l' && new_lead[3] == 't');
    let fresh = new_lead + name;
    if begins(fresh, old_lead) {
        assert(fresh.take(old_lead.len() as int)[3] == old_lead[3]);
        assert(fresh[3] == 't');
    }
}

// ---------------------------------------------------------------------------
// Keeping it on
// ---------------------------------------------------------------------------
/// A look at a remote control that does not work switches it on: one request goes out,
/// under the next id, and the connection waits for the answer to that id. A look at one
/// that works sends nothing.
pub proof fn law_a_look_switches_it_on(
    c: ConnectionV,
    tuning: CodexRemoteControlTuning,
    now: u64,
)
    requires
        c.stage is Serving,
        1 <= c.next_id < i64::MAX,
    ensures
        ({
            let step = stepped(c, EventV::Tick, tuning, now);
            let bad = c.status.state.name() != "connected"@ && c.status.state.name()
                != "connecting"@;
            let good = c.status.state.name() == "connected"@ && (
            c.status.last_update_unix_ms matches Some(t) && t <= now && now - t
                < tuning.stale_after_ms);
            &&& step.exit is None
            &&& bad || c.status.last_update_unix_ms is None ==> {
                &&& step.send == seq![
                    request_frame(c.next_id as i64, "remoteControl/enable"@, None),
                ]
                &&& step.next.stage matches StageV::Enabling { id, first, .. } && id == c.next_id
                    && !first
                &&& step.next.next_id == c.next_id + 1
                &&& step.next.status.last_enable_reason is Some
                &&& step.next.status.state == c.status.state
            }
            &&& good ==> step.send.len() == 0 && step.next == c
        }),
{
    lemma_status_words();
}

/// The answer to the request that switches the remote control on is taken at its word,
/// and the connection goes on; the reason for the request is kept.
pub proof fn law_enabling_is_answered(
    c: ConnectionV,
    id: i64,
    reason: Seq<char>,
    first: bool,
    v: JsonV,
    name: Seq<char>,
    server: Option<Seq<char>>,
    environment: Option<Seq<char>>,
    auth: Result<AuthV, Seq<char>>,
    tuning: CodexRemoteControlTuning,
    now: u64,
)
    requires
        c.stage == (StageV::Enabling { id, reason, first }),
        status_word(name),
        tells(v, name, server, environment),
    ensures
        ({
            let m = InboundV::Response { id: IdV::Integer(id), result: Some(v), error: None };
            let step = stepped(c, EventV::Message(m, auth), tuning, now);
            &&& step.exit is None
            &&& step.send.len() == 0
            &&& step.next.next_id == c.next_id
            &&& step.next.status.state.name() == name
            &&& step.next.status.server_name == server
            &&& step.next.status.environment_id == environment
            &&& step.next.status.last_update_unix_ms == Some(now)
            &&& step.next.status.last_enable_reason == Some(reason)
            &&& first && tuning.post_enable_wait_ms > 0 <==> step.next.stage is PostEnable
            &&& !first || tuning.post_enable_wait_ms == 0 <==> step.next.stage is Serving
        }),
{
    lemma_status_words();
}

/// A refusal of a request that the connection waits for ends it, with the words of the
/// refusal; an answer to another request does nothing.
pub proof fn law_refusals_end_a_connection(
    c: ConnectionV,
    waited: i64,
    given: IdV,
    result: Option<JsonV>,
    code: i64,
    message: Seq<char>,
    auth: Result<AuthV, Seq<char>>,
    tuning: CodexRemoteControlTuning,
    now: u64,
)
    requires
        c.stage is Initializing || c.stage is Enabling,
        c.stage matches StageV::Initializing { id } ==> id == waited,
        c.stage matches StageV::Enabling { id, .. } ==> id == waited,
    ensures
        ({
            let m = InboundV::Response { id: given, result, error: Some((code, message)) };
            let step = stepped(c, EventV::Message(m, auth), tuning, now);
            &&& given == IdV::Integer(waited) ==> (step.exit matches Some(
                ExitV::Failed(FailureV::Text(t)),
            ) && ends(t, message))
            &&& given != IdV::Integer(waited) ==> step.exit is None && step.next == c
            &&& step.send.len() == 0
        }),
{
    let lead = "json-rpc error "@ + crate::text::decimal_int(code as int);
    let why = lead + (": "@ + message);
    assert(why.skip((lead.len() + ": "@.len()) as int) =~= message);
    assert(ends(why, message)) by {
        assert(why.len() - message.len() == lead.len() + ": "@.len());
    }
}

/// A connection says that it is ready once the app server has introduced itself in full,
/// before anything else, and ends where it did not.
pub proof fn law_introductions_come_first(
    c: ConnectionV,
    id: i64,
    v: JsonV,
    auth: Result<AuthV, Seq<char>>,
    tuning: CodexRemoteControlTuning,
    now: u64,
)
    requires
        c.stage == (StageV::Initializing { id }),
    ensures
        ({
            let m = InboundV::Response { id: IdV::Integer(id), result: Some(v), error: None };
            let step = stepped(c, EventV::Message(m, auth), tuning, now);
            let whole = v.get("userAgent"@) matches Some(JsonV::Str(_)) && v.get(
                "codexHome"@,
            ) matches Some(JsonV::Str(_)) && v.get("platformFamily"@) matches Some(JsonV::Str(_))
                && v.get("platformOs"@) matches Some(JsonV::Str(_));
            &&& whole ==> step.send.len() > 0 && step.send[0] == notification_frame(
                "initialized"@,
                Some(JsonV::object()),
            ) && step.exit is None
            &&& whole && tuning.initial_status_wait_ms > 0 ==> step.next.stage is InitialStatus
                && step.send.len() == 1
            &&& !whole ==> step.send.len() == 0 && step.exit == Some(
                ExitV::Failed(FailureV::BadIntroduction),
            )
        }),
{
}

/// A request for the tokens of the account is answered, under its own id, with the tokens
/// of the account; where there are none the connection ends with the reason.
pub proof fn law_tokens_are_handed_out(
    c: ConnectionV,
    id: IdV,
    params: Option<JsonV>,
    auth: Result<AuthV, Seq<char>>,
    tuning: CodexRemoteControlTuning,
    now: u64,
)
    ensures
        ({
            let m = InboundV::Request {
                id,
                method: "account/chatgptAuthTokens/refresh"@,
                params,
            };
            let step = stepped(c, EventV::Message(m, auth), tuning, now);
            &&& auth matches Ok(a) ==> step.send == seq![result_frame(id, auth_json(a))]
                && step.exit is None
            &&& auth matches Err(e) ==> step.send.len() == 0 && step.exit == Some(
                ExitV::Failed(FailureV::Text(e)),
            )
            &&& step.next == c
        }),
{
}

/// Any other request is refused as unknown under its own id, and the connection goes on.
pub proof fn law_other_requests_are_refused(
    c: ConnectionV,
    id: IdV,
    method: Seq<char>,
    params: Option<JsonV>,
    auth: Result<AuthV, Seq<char>>,
    tuning: CodexRemoteControlTuning,
    now: u64,
)
    requires
        method != "account/chatgptAuthTokens/refresh"@,
        method != "attestation/generate"@,
    ensures
        ({
            let m = InboundV::Request { id, method, params };
            let step = stepped(c, EventV::Message(m, auth), tuning, now);
            &&& step.send == seq![
                error_frame(id, crate::rpc::METHOD_NOT_FOUND, "unsupported request "@ + method),
            ]
            &&& step.exit is None
            &&& step.next == c
        }),
{
}

// ---------------------------------------------------------------------------
// The end of a connection
// ---------------------------------------------------------------------------
/// A connection that is lost, or that fails for anything but a block, is made again, and
/// what is known says that it failed and why. One that was to end, or that is blocked, is
/// not made again, and what is known stays.
pub proof fn law_lost_connections_are_made_again(
    s: SnapshotV,
    exit: ExitV,
    text: Seq<char>,
    now: u64,
)
    ensures
        ({
            let (t, again) = after_exit(s, exit, text, now);
            &&& exit is Shutdown ==> !again && t == s
            &&& exit matches ExitV::Disconnected(m) ==> again && t.state.name() == "errored"@
                && t.error == Some(m) && t.last_update_unix_ms == Some(now)
            &&& exit is Failed && s.state.name() != "blocked"@ ==> again && t.state.name()
                == "errored"@ && t.error == Some(text) && t.last_update_unix_ms == Some(now)
            &&& exit is Failed && s.state == CodexRemoteControlState::Blocked ==> !again && t
                == s
        }),
{
}

/// A connection that serves ends when it is told to, and is lost when nothing can be read
/// any more; before it serves, neither a lost line nor silence is taken for an answer.
pub proof fn law_connections_end_for_a_reason(
    c: ConnectionV,
    why: Seq<char>,
    tuning: CodexRemoteControlTuning,
    now: u64,
)
    ensures
        c.stage is Serving ==> stepped(c, EventV::Shutdown, tuning, now).exit == Some(
            ExitV::Shutdown,
        ),
        c.stage is Serving ==> stepped(c, EventV::ReadFailed(why), tuning, now).exit == Some(
            ExitV::Disconnected(why),
        ),
        c.stage !is Serving ==> stepped(c, EventV::ReadFailed(why), tuning, now).exit == Some(
            ExitV::Failed(FailureV::Text(why)),
        ),
        c.stage is Initializing || c.stage is Enabling ==> stepped(
            c,
            EventV::Deadline,
            tuning,
            now,
        ).exit is Some,
        c.stage is Serving || c.stage is PostEnable || c.stage is InitialStatus ==> stepped(
            c,
            EventV::Deadline,
            tuning,
            now,
        ).exit is None,
        c.stage is PostEnable ==> stepped(c, EventV::Deadline, tuning, now).next.stage is Serving,
{
}

// ---------------------------------------------------------------------------
// On the wire
// ---------------------------------------------------------------------------
proof fn lemma_snapshot_keys()
    ensures
        "state"@ != "serverName"@,
        "state"@ != "environmentId"@,
        "state"@ != "lastUpdateUnixMs"@,
        "state"@ != "lastEnableReason"@,
        "state"@ != "error"@,
        "state"@ != "blocked"@,
        "serverName"@ != "environmentId"@,
        "serverName"@ != "lastUpdateUnixMs"@,
        "serverName"@ != "lastEnableReason"@,
        "serverName"@ != "error"@,
        "serverName"@ != "blocked"@,
        "environmentId"@ != "lastUpdateUnixMs"@,
        "environmentId"@ != "lastEnableReason"@,
        "environmentId"@ != "error"@,
        "environmentId"@ != "blocked"@,
        "lastUpdateUnixMs"@ != "lastEnableReason"@,
        "lastUpdateUnixMs"@ != "error"@,
        "lastUpdateUnixMs"@ != "blocked"@,
        "lastEnableReason"@ != "error"@,
        "lastEnableReason"@ != "blocked"@,
        "error"@ != "blocked"@,
{
    reveal_strlit("state");
    reveal_strlit("serverName");
    reveal_strlit("environmentId");
    reveal_strlit("lastUpdateUnixMs");
    reveal_strlit("lastEnableReason");
    reveal_strlit("error");
    reveal_strlit("blocked");
    assert("state"@[0] == 's' && "error"@[0] == 'e' && "blocked"@.len() == 7);
    assert("state"@.len() == 5 && "error"@.len() == 5 && "serverName"@.len() == 10);
    assert("environmentId"@.len() == 13 && "lastUpdateUnixMs"@.len() == 16);
    assert("lastEnableReason"@.len() == 16);
    assert("lastUpdateUnixMs"@[4] == 'U' && "lastEnableReason"@[4] == 'E');
}

/// What is known is shown field by field; what is not known is left out.
pub proof fn law_what_is_known_is_shown(s: SnapshotV)
    ensures
        snapshot_json(s).get("state"@) == Some(JsonV::Str(s.state.name())),
        snapshot_json(s).str_at("serverName"@) == s.server_name,
        snapshot_json(s).get("serverName"@) is Some <==> s.server_name is Some,
        snapshot_json(s).str_at("environmentId"@) == s.environment_id,
        snapshot_json(s).get("environmentId"@) is Some <==> s.environment_id is Some,
        snapshot_json(s).get("lastUpdateUnixMs"@) == (match s.last_update_unix_ms {
            Some(t) => Some(JsonV::Int(t as int)),
            None => None,
        }),
        snapshot_json(s).str_at("lastEnableReason"@) == s.last_enable_reason,
        snapshot_json(s).str_at("error"@) == s.error,
        snapshot_json(s).get("error"@) is Some <==> s.error is Some,
        snapshot_json(s).str_at("blocked"@) == s.blocked,
        snapshot_json(s).get("blocked"@) is Some <==> s.blocked is Some,
{
    lemma_snapshot_keys();
}

/// Different states have different names, and a fresh state knows nothing else.
pub proof fn law_states_have_names(
    a: CodexRemoteControlState,
    b: CodexRemoteControlState,
    now: Option<u64>,
)
    ensures
        a.name() == b.name() ==> a == b,
        only_state(a, now).state == a,
        only_state(a, now).last_update_unix_ms == now,
        only_state(a, now).error is None,
        only_state(a, now).blocked is None,
        only_state(a, now).server_name is None,
{
    reveal_strlit("disabled");
    reveal_strlit("connecting");
    reveal_strlit("connected");
    reveal_strlit("errored");
    reveal_strlit("idle");
    reveal_strlit("blocked");
    reveal_strlit("stopped");
    assert("disabled"@.len() == 8 && "connecting"@.len() == 10 && "connected"@.len() == 9);
    assert("errored"@.len() == 7 && "idle"@.len() == 4 && "blocked"@.len() == 7);
    assert("stopped"@.len() == 7);
    assert("errored"@[0] == 'e' && "blocked"@[0] == 'b' && "stopped"@[0] == 's');
}

/// The state of a status has the word of the status.
pub proof fn law_state_of_a_status(status: RemoteControlConnectionStatus)
    ensures
        state_of(status).name() == status.name(),
{
}

/// A frame with a method is a request if it has an id and a notification if it has none;
/// one with an id alone is an answer; one with neither is refused.
pub proof fn law_frames_are_told_apart(v: JsonV, method: Seq<char>, n: i64)
    ensures
        v.get("method"@) == Some(JsonV::Str(method)) && v.get("id"@) is None ==> (frame_meaning(
            v,
        ) matches Ok(InboundV::Notification { method: m, .. }) && m == method),
        v.get("method"@) == Some(JsonV::Str(method)) && v.get("id"@) == Some(JsonV::Int(n as int))
            ==> (frame_meaning(v) matches Ok(InboundV::Request { id, method: m, .. }) && m
            == method && id == IdV::Integer(n)),
        v.get("method"@) is None && v.get("id"@) == Some(JsonV::Int(n as int)) && v.get(
            "error"@,
        ) is None ==> (frame_meaning(v) matches Ok(InboundV::Response { id, error, .. }) && id
            == IdV::Integer(n) && error is None),
        v.get("method"@) is None && v.get("id"@) is None ==> frame_meaning(v) == Err::<
            InboundV,
            FrameFault,
        >(FrameFault::Neither),
{
}

/// An id is read back as it was written.
pub proof fn law_ids_are_read_back(id: IdV)
    ensures
        id_of(id_json(id)) == Some(id),
{
}

// ---------------------------------------------------------------------------
// Tokens
// ---------------------------------------------------------------------------
/// The tokens of the account are those under `tokens`: both have to be there, as texts.
pub proof fn law_tokens_are_read(
    m: Map<Seq<char>, JsonV>,
    t: JsonV,
    token: Seq<char>,
    account: Seq<char>,
)
    requires
        m.dom().contains("tokens"@),
        m["tokens"@] == t,
        t is Obj,
    ensures
        t.get("access_token"@) == Some(JsonV::Str(token)) && t.get("account_id"@) == Some(
            JsonV::Str(account),
        ) ==> (tokens_in(JsonV::Obj(m)) matches Ok(a) && a.access_token == token
            && a.chatgpt_account_id == account && a.chatgpt_plan_type is None),
        t.get("access_token"@) is None && t.get("account_id"@) is None ==> tokens_in(
            JsonV::Obj(m),
        ) == Err::<AuthV, AuthError>(AuthError::MissingTokenFields),
        tokens_in(JsonV::Obj(m)) matches Ok(a) ==> t.get("access_token"@) == Some(
            JsonV::Str(a.access_token),
        ) && t.get("account_id"@) == Some(JsonV::Str(a.chatgpt_account_id)),
{
}

/// What is handed out names the token and the account that were read.
pub proof fn law_tokens_are_shown_where_asked(a: AuthV)
    ensures
        auth_json(a).get("accessToken"@) == Some(JsonV::Str(a.access_token)),
        auth_json(a).get("chatgptAccountId"@) == Some(JsonV::Str(a.chatgpt_account_id)),
        auth_json(a).get("chatgptPlanType"@) == Some(crate::json::opt_str(a.chatgpt_plan_type)),
{
    reveal_strlit("accessToken");
    reveal_strlit("chatgptAccountId");
    reveal_strlit("chatgptPlanType");
    assert("accessToken"@.len() == 11 && "chatgptAccountId"@.len() == 16);
    assert("chatgptPlanType"@.len() == 15);
}

} // verus!
