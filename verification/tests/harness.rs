//! The client of the conformance harness, its scenario, and what targets need.

use alleycat::conformance::prereq::{
    EnvPath, Prereq, ProbeEnd, Probed, SkipReason, Survey, check, check_hermes_oneshot, check_pi,
    check_pi_oneshot, env_file, has_amp_auth, has_factory_auth, push_candidate, which_or_env,
};
use alleycat::conformance::scenario::{
    Action, Event, Scenario, ScenarioConfig, Stage, cleanup_request, count_thread_turns, extract_thread_id,
    extract_turn_id, frame_is_error, fresh_marker, prior_terminal_method,
};
use alleycat::conformance::transcript::{AssistantName, TargetId};
use alleycat::conformance::transport::{
    Awaited, Drained, JsonRpcClient, WireLine, read_wire_one, request_timeout,
};
use alleycat::json::Json;
use alleycat::json_text::{parse, render};

fn j(text: &str) -> Json {
    parse(text).expect("json")
}

fn helper() -> AssistantName {
    AssistantName::new("helper").expect("a free name")
}

fn s(t: &str) -> String {
    t.to_string()
}

#[test]
fn responses_reach_the_request_that_they_answer() {
    let mut c = JsonRpcClient::new();
    let (first, frame) = c.send_request("a", j("{}"));
    let (second, _) = c.send_request("b", j("{}"));
    assert_ne!(first, second);
    assert_eq!(frame.get("id").unwrap().as_i64(), Some(first));
    assert_eq!(frame.str_at("jsonrpc"), Some("2.0"));
    let answer = |id: i64| j(&format!(r#"{{"id":{id},"result":null}}"#));
    assert!(matches!(c.wait_for_response(first, j(r#"{"method":"n"}"#)), Awaited::Notification(_)));
    assert!(matches!(c.wait_for_response(first, answer(second)), Awaited::Kept));
    assert!(matches!(c.wait_for_response(first, answer(first)), Awaited::Response(_)));
    assert!(c.take_pending_response(first).is_none());
    assert!(c.take_pending_response(second).is_some());
    assert!(c.take_pending_response(second).is_none());
}

#[test]
fn drains_end_with_the_methods_that_they_wait_for() {
    let mut c = JsonRpcClient::new();
    let stops = ["turn/completed"];
    let seen = c.drain_notifications_until(&stops, j(r#"{"method":"x"}"#));
    assert!(matches!(seen, Drained::Notification(_, None)));
    let seen = c.drain_notifications_until(&stops, j(r#"{"method":"turn/completed"}"#));
    assert!(matches!(seen, Drained::Notification(_, Some(m)) if m == "turn/completed"));
    let seen = c.drain_notifications_until(&stops, j(r#"{"id":5}"#));
    assert!(matches!(seen, Drained::Kept));
    assert!(c.drain_idle(j(r#"{"id":6}"#)).is_none());
    assert!(c.drain_idle(j(r#"{"method":"x"}"#)).is_some());
    assert!(c.take_pending_response(5).is_some());
    assert!(c.take_pending_response(6).is_some());
}

#[test]
fn lines_are_blank_frames_or_noise() {
    assert!(matches!(read_wire_one(" \t"), WireLine::Blank));
    assert!(matches!(read_wire_one(" {} "), WireLine::Frame(_)));
    assert!(matches!(read_wire_one(" oops "), WireLine::Bad(t) if t == "oops"));
    assert_eq!(request_timeout(-3, "m"), "timed out waiting for response id=-3 method=m");
    assert_eq!(
        render(&JsonRpcClient::notify("initialized", None)),
        r#"{"jsonrpc":"2.0","method":"initialized"}"#
    );
}

#[test]
fn responses_say_where_the_run_goes() {
    let r = j(r#"{"result":{"thread":{"id":"t","turns":[1,2]},"turn":{"id":"u"}}}"#);
    assert_eq!(extract_thread_id(&r).as_deref(), Some("t"));
    assert_eq!(extract_turn_id(&r).as_deref(), Some("u"));
    assert_eq!(count_thread_turns(&r), Some(2));
    assert!(frame_is_error(&r).is_none());
    let e = j(r#"{"error":{"code":-1,"message":"no"}}"#);
    assert_eq!(frame_is_error(&e), Some((-1, s("no"))));
    assert_eq!(extract_thread_id(&e), None);
    assert_eq!(
        prior_terminal_method(&vec![j(r#"{"method":"turn/completed"}"#)], &["turn/completed"])
            .as_deref(),
        Some("turn/completed")
    );
    assert_eq!(prior_terminal_method(&vec![], &["turn/completed"]), None);
    assert_eq!(fresh_marker(255), "alleycat-conformance-ff");
}

fn run(target: TargetId) -> Scenario {
    let cfg = ScenarioConfig::for_target(target, &helper(), s("/w"), "1.0", None, None);
    Scenario::new(cfg, target, s("marker"), "/w/marker", s("proc"))
}

#[test]
fn targets_are_configured() {
    let c = ScenarioConfig::for_target(TargetId::Acp, &helper(), s("/w"), "1.0", None, None);
    assert_eq!(c.turn_deadline_ms, 180_000);
    assert_eq!(c.client_name, "alleycat-bridge-conformance/acp");
    let c = ScenarioConfig::for_target(TargetId::Claude, &helper(), s("/w"), "1.0", None, None);
    assert_eq!(c.client_name, "alleycat-bridge-conformance/helper");
    assert_eq!(c.model, None);
    let c = ScenarioConfig::for_target(TargetId::Opencode, &helper(), s("/w"), "1.0", None, None);
    assert_eq!(c.model.as_deref(), Some("xai/grok-4.3"));
}

#[test]
fn a_run_without_a_thread_fails_and_keeps_its_frames() {
    let mut r = run(TargetId::Pi);
    match r.action() {
        Action::Request { method, params, .. } => {
            assert_eq!(method, "initialize");
            assert_eq!(
                params.str_at2("clientInfo", "name"),
                Some("alleycat-bridge-conformance/pi")
            );
        }
        _ => panic!("no request"),
    }
    // What nobody waits for changes nothing.
    r.advance(Event::Done);
    assert_eq!(r.stage, Stage::Initialize);
    r.advance(Event::Failed);
    assert_eq!(r.stage, Stage::Failed);
    assert!(matches!(r.action(), Action::Stop { failed: true }));
    assert_eq!(r.finish().target, TargetId::Pi);
}

#[test]
fn a_run_goes_through_to_its_end() {
    let mut r = run(TargetId::Pi);
    let mut steps = 0;
    let mut methods: Vec<&str> = Vec::new();
    loop {
        steps += 1;
        assert!(steps < 1_000);
        let event = match r.action() {
            Action::Stop { failed } => {
                assert!(!failed);
                break;
            }
            Action::Request { method, .. } | Action::Await { method, .. } => {
                methods.push(method);
                Event::Reply {
                    response: j(
                        r#"{"id":1,"result":{"thread":{"id":"t","turns":[{"id":"u"},{"id":"v"}]},"turn":{"id":"u"}}}"#,
                    ),
                    notifications: vec![j(r#"{"method":"turn/started","params":{}}"#)],
                }
            }
            Action::DrainIdle { .. } => Event::Drained { notifications: vec![], ended_by: None },
            Action::DrainUntil { stops, .. } => Event::Drained {
                notifications: vec![],
                ended_by: Some(stops[0].to_string()),
            },
            Action::LoadThread => Event::Loaded(None),
            Action::Send { method, .. } => {
                methods.push(method);
                Event::Done
            }
            _ => Event::Done,
        };
        r.advance(event);
    }
    assert!(methods.contains(&"thread/start"));
    assert!(methods.contains(&"turn/start"));
    assert!(methods.contains(&"thread/rollback"));
    assert!(methods.contains(&"command/exec"));
    let t = r.finish();
    assert!(t.frames.len() > methods.len());
    assert_eq!(t.semantic_ctx.unwrap().thread_id.as_deref(), Some("t"));
}

fn why(r: Result<Prereq, SkipReason>) -> String {
    match r {
        Ok(_) => panic!("usable"),
        Err(e) => e.as_str().to_string(),
    }
}

fn nothing() -> Survey {
    Survey { bin: None, auth: false, probe: None }
}

fn program() -> Survey {
    Survey { bin: Some(s("/b")), auth: false, probe: None }
}

#[test]
fn targets_are_left_out_for_a_reason() {
    assert_eq!(why(check(TargetId::Codex, nothing(), &helper())), "codex not on PATH");
    assert_eq!(why(check(TargetId::Claude, nothing(), &helper())), "helper not on PATH");
    assert_eq!(why(check(TargetId::Opencode, nothing(), &helper())), "opencode not on PATH");
    assert_eq!(
        why(check(TargetId::Amp, program(), &helper())),
        "amp auth unavailable: set AMP_API_KEY or run amp login"
    );
    assert_eq!(
        why(check(TargetId::Droid, program(), &helper())),
        "droid auth unavailable: set FACTORY_API_KEY or run droid login"
    );
    assert!(matches!(
        check(TargetId::Claude, program(), &helper()),
        Ok(Prereq::Claude { bin }) if bin == "/b"
    ));
    assert!(check(TargetId::Droid, Survey { auth: true, ..program() }, &helper()).is_ok());
    let timed_out = Survey { probe: Some(ProbeEnd::TimedOut), ..program() };
    assert_eq!(
        why(check(TargetId::Hermes, timed_out, &helper())),
        "hermes oneshot smoke probe timed out after 20s"
    );
}

fn exited(success: bool, stdout: &str) -> ProbeEnd {
    ProbeEnd::Exited { success, status: s("exit status: 1"), stdout: s(stdout), stderr: s(" bad\n") }
}

#[test]
fn a_cleanup_archives_the_thread() {
    let (method, params) = cleanup_request("t1");
    assert_eq!(method, "thread/archive");
    assert_eq!(render(&params), r#"{"threadId":"t1"}"#);
}

#[test]
fn probes_are_judged() {
    let pi = |e: ProbeEnd| check_pi_oneshot(&e).err().map(|r| r.as_str().to_string());
    assert_eq!(pi(exited(true, " OK\n")), None);
    assert_eq!(
        pi(exited(true, "no")).unwrap(),
        "pi smoke probe produced unexpected stdout: \"no\""
    );
    assert_eq!(pi(exited(false, "")).unwrap(), "pi smoke probe exited with exit status: 1: bad");
    assert_eq!(pi(ProbeEnd::SpawnFailed(s("e"))).unwrap(), "pi smoke probe failed to spawn: e");
    assert_eq!(pi(ProbeEnd::WaitFailed(s("e"))).unwrap(), "pi smoke probe failed: e");
    assert_eq!(
        pi(ProbeEnd::CollectFailed(s("e"))).unwrap(),
        "pi smoke probe failed to collect output: e"
    );
    assert_eq!(pi(ProbeEnd::TimedOut).unwrap(), "pi smoke probe timed out after 30s");
    assert!(check_hermes_oneshot(&exited(true, "anything")).is_ok());
    assert!(check_hermes_oneshot(&exited(true, " ")).is_err());
    assert!(check_hermes_oneshot(&exited(false, "x")).is_err());
    let tried = |ends: Vec<ProbeEnd>| {
        check_pi(&ends.into_iter().map(|end| Probed { bin: s("/p"), end }).collect())
    };
    assert!(tried(vec![ProbeEnd::TimedOut, exited(true, "OK")]).is_ok());
    assert_eq!(
        why(tried(vec![ProbeEnd::TimedOut])),
        "no usable Pi CLI found; tried /p: pi smoke probe timed out after 30s"
    );
    assert_eq!(
        why(tried(vec![])),
        "pi-coding-agent/pi not found; set PI_BRIDGE_PI_BIN to the Pi CLI"
    );
}

fn file(path: &str, exists: bool) -> Option<EnvPath> {
    Some(EnvPath { path: s(path), exists })
}

#[test]
fn programs_are_named_or_found() {
    assert_eq!(env_file(file("/a", true)).as_deref(), Some("/a"));
    assert_eq!(env_file(file("/a", false)), None);
    assert_eq!(env_file(file("", true)), None);
    assert_eq!(which_or_env(file("/a", true), Some(s("/b"))).as_deref(), Some("/a"));
    assert_eq!(which_or_env(file("/a", false), Some(s("/b"))).as_deref(), Some("/b"));
    let mut v = vec![s("/a")];
    push_candidate(&mut v, file("/a", true), false);
    push_candidate(&mut v, file("/b", true), false);
    push_candidate(&mut v, file("/c", false), false);
    push_candidate(&mut v, None, false);
    push_candidate(&mut v, file("//a", true), false);
    assert_eq!(v, vec![s("/a"), s("/b")]);
    assert!(has_factory_auth(false, true, false, true, true));
    assert!(!has_factory_auth(false, true, false, true, false));
    assert!(has_amp_auth(true, false, false, false, false));
    assert!(!has_amp_auth(false, false, true, true, true));
}

fn reply_to(method: &str, refuse: &str) -> Event {
    let response = if method == refuse {
        j(r#"{"id":1,"error":{"code":-32601,"message":"no"}}"#)
    } else {
        j(
            r#"{"id":1,"result":{"thread":{"id":"t","turns":[{"id":"u"},{"id":"v"}]},"turn":{"id":"u"}}}"#,
        )
    };
    Event::Reply { response, notifications: vec![] }
}

/// Takes a run to its end; at `fail_at` the line breaks, and `refuse` is refused.
fn drive(r: &mut Scenario, fail_at: Option<Stage>, refuse: &str) -> (bool, Vec<String>) {
    let mut cleaned = Vec::new();
    for _ in 0..1_000 {
        let at = r.stage;
        let action = r.action();
        if let Action::Stop { failed } = action {
            return (failed, cleaned);
        }
        if Some(at) == fail_at {
            r.advance(Event::Failed);
            continue;
        }
        let event = match action {
            Action::Request { method, .. } | Action::Await { method, .. } => reply_to(method, refuse),
            Action::DrainIdle { .. } => Event::Drained { notifications: vec![], ended_by: None },
            Action::DrainUntil { stops, .. } => Event::Drained {
                notifications: vec![],
                ended_by: Some(stops[0].to_string()),
            },
            Action::LoadThread => Event::Loaded(None),
            Action::Cleanup { thread_id } => {
                cleaned.push(thread_id);
                Event::Done
            }
            _ => Event::Done,
        };
        r.advance(event);
    }
    panic!("no end");
}

#[test]
fn spoilt_threads_are_archived_when_a_run_breaks() {
    let mut r = run(TargetId::Pi);
    let (failed, cleaned) = drive(&mut r, Some(Stage::Fork), "");
    assert!(failed);
    assert_eq!(cleaned, vec!["t"]);
    let mut r = run(TargetId::Pi);
    let (failed, cleaned) = drive(&mut r, Some(Stage::ThreadList), "");
    assert!(failed);
    assert!(cleaned.is_empty());
}

#[test]
fn refusals_are_recorded_like_answers() {
    let mut r = run(TargetId::Pi);
    let (failed, _) = drive(&mut r, None, "thread/compact/start");
    assert!(!failed);
    let t = r.finish();
    let refused = t.frames.iter().find(|f| f.method == "thread/compact/start").unwrap();
    assert!(frame_is_error(&refused.raw).is_some());
}
