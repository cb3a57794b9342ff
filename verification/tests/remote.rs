//! The remote control of the app server.

use alleycat::json::Json;
use alleycat::json_text::{parse, render};
use alleycat::remote::auth::{AuthError, AuthRefreshResponse, read_auth_refresh_response};
use alleycat::remote::jsonrpc::{
    FrameFault, InboundMessage, RequestId, names_a_secret, notification, redact, redacted_json, request,
    response_error_frame, response_result_frame,
};
use alleycat::remote::status::{CodexRemoteControlSnapshot, CodexRemoteControlState};
use alleycat::remote::supervisor::{
    CodexRemoteControlConfig, CodexRemoteControlHandle, CodexRemoteControlTuning, Connection,
    ConnectionExit, Event, Failure, StartAction, Step, asks_for_tokens, connection_ended, is_healthy,
    is_stale, reason_to_enable, take_id, unhealthy_reason,
};

fn j(text: &str) -> Json {
    parse(text).expect("json")
}

fn msg(text: &str) -> InboundMessage {
    InboundMessage::from_value(&j(text)).expect("frame")
}

fn no_auth() -> Result<AuthRefreshResponse, String> {
    Err("no tokens".to_string())
}

fn hear(c: &mut Connection, t: &CodexRemoteControlTuning, text: &str, now: u64) -> Step {
    c.step(Event::Message(msg(text), no_auth()), t, now)
}

#[test]
fn redacts_token_like_fields_recursively() {
    let rendered = redacted_json(&j(r#"{
        "accessToken": "secret-token",
        "nested": {"authorization": "Bearer secret", "ok": true},
        "items": [{"secretKey": "abc"}]
    }"#));

    assert!(rendered.contains("<redacted>"));
    assert!(!rendered.contains("secret-token"));
    assert!(!rendered.contains("Bearer secret"));
    assert!(!rendered.contains("abc"));
}

#[test]
fn redaction_keeps_the_rest_and_settles() {
    let v = j(r#"{"TOKEN":{"deep":[1]},"ok":[true,null,1.5,"x"]}"#);
    let once = redact(&v);
    assert_eq!(render(&once), r#"{"TOKEN":"<redacted>","ok":[true,null,1.5,"x"]}"#);
    assert_eq!(render(&redact(&once)), render(&once));
    let other = j(r#"{"TOKEN":"something else","ok":[true,null,1.5,"x"]}"#);
    assert_eq!(redacted_json(&other), redacted_json(&v));
    assert!(names_a_secret("X-Authorization"));
    assert!(!names_a_secret("nonce"));
}

fn snapshot(state: CodexRemoteControlState, now: u64, age_ms: u64) -> CodexRemoteControlSnapshot {
    CodexRemoteControlSnapshot {
        state,
        last_update_unix_ms: Some(now - age_ms),
        ..CodexRemoteControlSnapshot::default()
    }
}

#[test]
fn health_decision_requests_enable_for_missing_disabled_errored_and_stale() {
    let now: u64 = 1_000_000;
    let tuning = CodexRemoteControlTuning {
        stale_after_ms: 10,
        connecting_grace_ms: 10_000,
        ..CodexRemoteControlTuning::default()
    };
    let missing = CodexRemoteControlSnapshot::default();
    assert!(!is_healthy(&missing, tuning.connecting_grace_ms, now));
    assert!(is_stale(&missing, tuning.stale_after_ms, now));
    assert_eq!(unhealthy_reason(&missing, true), "missing-status");

    let disabled = snapshot(CodexRemoteControlState::Disabled, now, 0);
    assert!(!is_healthy(&disabled, tuning.connecting_grace_ms, now));
    assert_eq!(unhealthy_reason(&disabled, false), "status:disabled");

    let errored = snapshot(CodexRemoteControlState::Errored, now, 0);
    assert!(!is_healthy(&errored, tuning.connecting_grace_ms, now));
    assert_eq!(unhealthy_reason(&errored, false), "status:errored");

    let connected = snapshot(CodexRemoteControlState::Connected, now, 0);
    assert!(is_healthy(&connected, tuning.connecting_grace_ms, now));
    assert!(!is_stale(&connected, tuning.stale_after_ms, now));

    let stale = snapshot(CodexRemoteControlState::Connected, now, 50);
    assert!(is_healthy(&stale, tuning.connecting_grace_ms, now));
    assert!(is_stale(&stale, tuning.stale_after_ms, now));
    assert_eq!(unhealthy_reason(&stale, true), "stale-status:connected");
}

#[test]
fn a_connection_that_is_being_made_has_its_grace() {
    let tuning = CodexRemoteControlTuning::default();
    let s = CodexRemoteControlSnapshot::connecting(1_000);
    assert_eq!(reason_to_enable(&s, &tuning, 120_999), None);
    assert_eq!(reason_to_enable(&s, &tuning, 121_000), Some("status:connecting".to_string()));
    assert_eq!(
        reason_to_enable(&s, &tuning, 301_000),
        Some("stale-status:connecting".to_string())
    );
    // A clock that went back makes nothing old.
    assert_eq!(reason_to_enable(&s, &tuning, 0), None);
}

#[test]
fn reads_chatgpt_auth_tokens_without_debug_leaking_access_token() {
    let response = read_auth_refresh_response(
        br#"{"tokens":{"access_token":"secret-token","account_id":"acct_123"}}"#,
    )
    .unwrap();
    assert_eq!(response.chatgpt_account_id, "acct_123");
    assert_eq!(response.chatgpt_plan_type, None);
    let debug = response.shown();
    assert!(!debug.contains("secret-token"));
    assert!(debug.contains("<redacted>"));
    assert!(debug.contains("\"acct_123\""));
}

#[test]
fn missing_auth_fields_are_errors_without_token_material() {
    let error = match read_auth_refresh_response(br#"{"tokens":{"access_token":"secret-token"}}"#) {
        Ok(_) => panic!("tokens"),
        Err(e) => e,
    };
    let rendered = error.message("/auth.json", "");
    assert!(rendered.contains("lacks tokens.access_token or tokens.account_id"));
    assert!(!rendered.contains("secret-token"));
}

#[test]
fn files_that_hold_no_tokens_are_told_apart() {
    let fault = |bytes: &[u8]| read_auth_refresh_response(bytes).err();
    assert_eq!(fault(b"{}"), Some(AuthError::MissingTokenFields));
    assert_eq!(fault(b"nonsense"), Some(AuthError::Parse));
    assert_eq!(fault(b"\xff"), Some(AuthError::Parse));
    assert_eq!(fault(br#"{"tokens":null}"#), Some(AuthError::Parse));
    assert_eq!(fault(br#"{"tokens":{"access_token":7}}"#), Some(AuthError::Parse));
    assert_eq!(
        fault(br#"{"tokens":{"access_token":null,"account_id":"a"}}"#),
        Some(AuthError::MissingTokenFields)
    );
    assert_eq!(AuthError::Read.message("/a", "gone"), "reading /a: gone");
    assert_eq!(AuthError::Parse.message("/a", "bad"), "parsing /a: bad");
}

#[test]
fn frames_are_told_apart_by_id_and_method() {
    assert!(matches!(
        msg(r#"{"id":7,"method":"m","params":null}"#),
        InboundMessage::Request { id: RequestId::Integer(7), params: None, .. }
    ));
    assert!(matches!(
        msg(r#"{"method":"m","params":{"a":1}}"#),
        InboundMessage::Notification { params: Some(_), .. }
    ));
    assert!(matches!(
        msg(r#"{"id":"x","result":{}}"#),
        InboundMessage::Response { id: RequestId::Text(t), result: Some(_), error: None } if t == "x"
    ));
    assert!(matches!(
        msg(r#"{"id":1,"error":{"code":-5,"message":"no"}}"#),
        InboundMessage::Response { error: Some((-5, m)), .. } if m == "no"
    ));
    let fault = |t: &str| InboundMessage::from_value(&j(t)).err();
    assert_eq!(fault(r#"{"jsonrpc":"2.0"}"#), Some(FrameFault::Neither));
    assert_eq!(fault("[]"), Some(FrameFault::Neither));
    assert_eq!(fault(r#"{"id":null,"method":"m"}"#), Some(FrameFault::Shape));
    assert_eq!(fault(r#"{"method":7}"#), Some(FrameFault::Shape));
    assert_eq!(fault(r#"{"id":1,"error":"no"}"#), Some(FrameFault::Shape));
}

#[test]
fn frames_are_read_back_as_they_were_sent() {
    assert_eq!(
        render(&request(3, "remoteControl/enable", None)),
        r#"{"id":3,"jsonrpc":"2.0","method":"remoteControl/enable"}"#
    );
    let n = notification("initialized", Some(Json::object()));
    assert!(matches!(
        InboundMessage::from_value(&n),
        Ok(InboundMessage::Notification { method, .. }) if method == "initialized"
    ));
    let r = response_result_frame(&RequestId::Integer(4), Json::text("x"));
    assert!(matches!(
        InboundMessage::from_value(&r),
        Ok(InboundMessage::Response { id: RequestId::Integer(4), error: None, .. })
    ));
    let e = response_error_frame(&RequestId::Text("t".to_string()), -1, "no");
    assert_eq!(render(&e), r#"{"error":{"code":-1,"message":"no"},"id":"t","jsonrpc":"2.0"}"#);
}

const INTRODUCTION: &str = r#"{"jsonrpc":"2.0","id":1,"result":{"userAgent":"codex-test",
    "codexHome":"/tmp/codex","platformFamily":"unix","platformOs":"linux"}}"#;

#[test]
fn fake_server_observes_initialize_enable_and_auth_refresh() {
    let tuning = CodexRemoteControlTuning {
        initial_status_wait_ms: 100,
        post_enable_wait_ms: 300,
        interval_ms: 60_000,
        reconnect_delay_ms: 60_000,
        request_timeout_ms: 5_000,
        ..CodexRemoteControlTuning::default()
    };
    let mut observed: Vec<String> = Vec::new();
    let (mut c, init) = Connection::open(CodexRemoteControlSnapshot::connecting(1));
    observed.push(init.str_at("method").unwrap().to_string());
    let info = init.get2("params", "clientInfo").unwrap();
    assert_eq!(info.str_at("name"), Some("codex-backend"));
    assert_eq!(info.str_at("title"), Some("Codex Desktop"));
    assert_eq!(c.deadline_ms(&tuning), Some(10_000));

    let step = hear(&mut c, &tuning, INTRODUCTION, 2);
    assert_eq!(step.send.len(), 1);
    observed.push(step.send[0].str_at("method").unwrap().to_string());
    assert_eq!(c.deadline_ms(&tuning), Some(100));

    let step = hear(
        &mut c,
        &tuning,
        r#"{"jsonrpc":"2.0","method":"remoteControl/status/changed","params":{"status":"disabled",
            "serverName":"test-server","environmentId":"env-before"}}"#,
        3,
    );
    assert!(step.send.is_empty() && step.exit.is_none());
    assert_eq!(c.status.state, CodexRemoteControlState::Disabled);
    assert_eq!(c.status.environment_id.as_deref(), Some("env-before"));

    let step = c.step(Event::Deadline, &tuning, 4);
    assert_eq!(step.send.len(), 1);
    observed.push(step.send[0].str_at("method").unwrap().to_string());
    assert_eq!(c.status.last_enable_reason.as_deref(), Some("status:disabled"));

    let step = hear(
        &mut c,
        &tuning,
        r#"{"jsonrpc":"2.0","id":2,"result":{"status":"connected","serverName":"test-server",
            "environmentId":"env-after"}}"#,
        5,
    );
    assert!(step.exit.is_none());
    assert_eq!(c.status.state, CodexRemoteControlState::Connected);
    assert_eq!(c.status.environment_id.as_deref(), Some("env-after"));
    assert_eq!(c.status.last_enable_reason.as_deref(), Some("status:disabled"));
    assert_eq!(c.deadline_ms(&tuning), Some(300));

    let ask = msg(
        r#"{"jsonrpc":"2.0","id":99,"method":"account/chatgptAuthTokens/refresh",
            "params":{"reason":"test"}}"#,
    );
    assert!(asks_for_tokens(&ask));
    let auth = read_auth_refresh_response(
        br#"{"tokens":{"access_token":"secret-token","account_id":"acct_123"}}"#,
    )
    .map_err(|e| e.message("/auth.json", ""));
    let step = c.step(Event::Message(ask, auth), &tuning, 6);
    let reply = &step.send[0];
    assert_eq!(reply.get("id").unwrap().as_i64(), Some(99));
    let result = reply.get("result").unwrap();
    assert_eq!(result.str_at("accessToken"), Some("secret-token"));
    assert_eq!(result.str_at("chatgptAccountId"), Some("acct_123"));

    assert_eq!(observed, vec!["initialize", "initialized", "remoteControl/enable"]);
    let mut handle = CodexRemoteControlHandle::new();
    handle.stop(7);
    assert_eq!(handle.status().state, CodexRemoteControlState::Stopped);
}

#[test]
fn attestation_request_records_blocked_without_secret_leak() {
    let tuning = CodexRemoteControlTuning {
        initial_status_wait_ms: 300,
        reconnect_delay_ms: 60_000,
        request_timeout_ms: 5_000,
        ..CodexRemoteControlTuning::default()
    };
    let (mut c, _) = Connection::open(CodexRemoteControlSnapshot::connecting(1));
    hear(&mut c, &tuning, INTRODUCTION, 2);
    let step = hear(
        &mut c,
        &tuning,
        r#"{"jsonrpc":"2.0","id":77,"method":"attestation/generate",
            "params":{"accessToken":"secret-token","nonce":"abc"}}"#,
        3,
    );
    let response = &step.send[0];
    assert_eq!(response.get("id").unwrap().as_i64(), Some(77));
    assert_eq!(response.get2("error", "code").unwrap().as_i64(), Some(-32000));
    assert_eq!(c.status.state, CodexRemoteControlState::Blocked);
    let blocked = c.status.blocked.as_deref().unwrap();
    assert!(blocked.contains("attestation/generate"));
    assert!(blocked.contains("<redacted>"));
    assert!(!blocked.contains("secret-token"));
    let exit = step.exit.unwrap();
    assert!(matches!(&exit, ConnectionExit::Failed(Failure::Text(_))));
    assert!(!connection_ended(&mut c.status, &exit, "x", 4));
    assert_eq!(c.status.state, CodexRemoteControlState::Blocked);
}

#[test]
fn connections_fail_for_the_reason_that_came_first() {
    let t = CodexRemoteControlTuning::default();
    let open = || Connection::open(CodexRemoteControlSnapshot::connecting(1)).0;
    let text = |s: Step| match s.exit {
        Some(ConnectionExit::Failed(Failure::Text(m))) => m,
        other => panic!("{other:?}"),
    };
    assert_eq!(
        text(open().step(Event::Deadline, &t, 2)),
        "timed out waiting for response id=1"
    );
    assert_eq!(
        text(open().step(Event::Shutdown, &t, 2)),
        "shutdown while waiting for response id=1"
    );
    assert_eq!(
        text(hear(&mut open(), &t, r#"{"id":1,"error":{"code":-3,"message":"no"}}"#, 2)),
        "json-rpc error -3: no"
    );
    assert_eq!(text(open().step(Event::ReadFailed("gone".to_string()), &t, 2)), "gone");
    let s = hear(&mut open(), &t, r#"{"id":1,"result":{}}"#, 2);
    assert!(matches!(s.exit, Some(ConnectionExit::Failed(Failure::BadIntroduction))));
    let mut c = open();
    hear(&mut c, &t, INTRODUCTION, 2);
    let s = hear(&mut c, &t, r#"{"method":"remoteControl/status/changed"}"#, 3);
    assert!(matches!(s.exit, Some(ConnectionExit::Failed(Failure::BadStatus))));
    assert_eq!(
        text(c.step(
            Event::Message(
                msg(r#"{"id":5,"method":"account/chatgptAuthTokens/refresh"}"#),
                no_auth()
            ),
            &t,
            4
        )),
        "no tokens"
    );
}

#[test]
fn a_healthy_connection_is_left_alone() {
    let t = CodexRemoteControlTuning {
        initial_status_wait_ms: 0,
        post_enable_wait_ms: 0,
        ..CodexRemoteControlTuning::default()
    };
    let (mut c, _) = Connection::open(CodexRemoteControlSnapshot::connecting(1));
    let s = hear(&mut c, &t, INTRODUCTION, 2);
    assert_eq!(s.send.len(), 1);
    assert_eq!(c.deadline_ms(&t), None);
    assert!(c.step(Event::Tick, &t, 3).send.is_empty());
    let s = c.step(Event::Tick, &t, 400_000);
    assert_eq!(s.send[0].str_at("method"), Some("remoteControl/enable"));
    assert_eq!(s.send[0].get("id").unwrap().as_i64(), Some(2));
    // Nothing but its answer, a failure or its time ends the wait.
    assert!(c.step(Event::Shutdown, &t, 400_001).exit.is_none());
    assert!(c.step(Event::Tick, &t, 400_001).exit.is_none());
    let s = hear(&mut c, &t, r#"{"id":9,"method":"x/y"}"#, 400_002);
    assert_eq!(
        render(&s.send[0]),
        r#"{"error":{"code":-32601,"message":"unsupported request x/y"},"id":9,"jsonrpc":"2.0"}"#
    );
    hear(&mut c, &t, r#"{"id":2,"result":{}}"#, 400_003);
    assert_eq!(c.status.state, CodexRemoteControlState::Connecting);
    assert!(matches!(c.step(Event::Shutdown, &t, 400_004).exit, Some(ConnectionExit::Shutdown)));
    let s = c.step(Event::ReadFailed("closed".to_string()), &t, 400_005);
    assert!(matches!(s.exit, Some(ConnectionExit::Disconnected(m)) if m == "closed"));
}

#[test]
fn connections_are_made_again_unless_supervision_ends() {
    let mut s = CodexRemoteControlSnapshot::connecting(1);
    assert!(!connection_ended(&mut s, &ConnectionExit::Shutdown, "", 2));
    assert_eq!(s.state, CodexRemoteControlState::Connecting);
    assert!(connection_ended(&mut s, &ConnectionExit::Disconnected("gone".to_string()), "", 3));
    assert_eq!(s.error.as_deref(), Some("gone"));
    assert!(connection_ended(&mut s, &ConnectionExit::Failed(Failure::BadStatus), "bad", 4));
    assert_eq!(s.error.as_deref(), Some("bad"));
    assert_eq!(s.last_update_unix_ms, Some(4));
}

#[test]
fn the_same_configuration_is_supervised_once() {
    let config = |auth: &str| CodexRemoteControlConfig {
        socket_path: "/s".to_string(),
        auth_path: auth.to_string(),
        tuning: CodexRemoteControlTuning::default(),
    };
    let mut h = CodexRemoteControlHandle::new();
    assert_eq!(h.status().state, CodexRemoteControlState::Idle);
    assert_eq!(h.start_or_update(config("/a"), false, false, 1), StartAction::Start);
    assert_eq!(h.start_or_update(config("/a"), false, false, 2), StartAction::Keep);
    assert_eq!(h.start_or_update(config("//a/."), false, false, 2), StartAction::Keep);
    assert_eq!(h.status().last_update_unix_ms, Some(1));
    assert_eq!(h.start_or_update(config("/b"), false, false, 3), StartAction::Restart);
    assert_eq!(h.start_or_update(config("/b"), true, false, 4), StartAction::Restart);
    h.set_status(CodexRemoteControlSnapshot::error("x", 5));
    assert_eq!(h.status().error.as_deref(), Some("x"));
    assert!(h.stop(6));
    assert!(!h.stop(7));
}

#[test]
fn snapshots_leave_out_what_is_not_known() {
    assert_eq!(render(&CodexRemoteControlSnapshot::default().to_json()), r#"{"state":"idle"}"#);
    assert_eq!(
        render(&CodexRemoteControlSnapshot::blocked("why", 9).to_json()),
        r#"{"blocked":"why","lastUpdateUnixMs":9,"state":"blocked"}"#
    );
    let mut id: i64 = 4;
    assert_eq!(take_id(&mut id), 4);
    assert_eq!(id, 5);
}
