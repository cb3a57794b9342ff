//! The bridge to an assistant that runs as a program.

use alleycat::claude::process::{
    ClaudeOutbound, ClaudeProcessError, ClaudeProcessHandle, ClaudeSpawnConfig, ControlEnd,
    ControlRequestBody, ControlResponseBody, Heard, RuntimeState, control_result, read_outbound,
    spawn_failure, spawn_spec,
};
use alleycat::claude::turn::{
    ActiveTurns, EventPump, PumpEffect, TurnError, abandon_turn, check_turn_interrupt,
    check_turn_start, check_turn_steer, effort_to_thinking_tokens, handle_review_start, must_kill,
    open_turn, overrides_failed, should_emit, synthesize_user_input_tool_result, turn_overrides,
    user_input_failed,
};
use alleycat::codex::models::ReasoningEffort;
use alleycat::codex::notifications::{
    AgentMessageDeltaNotification, ItemCompletedNotification, ServerNotification,
};
use alleycat::codex::thread::{ThreadItem, TurnStatus, UserInput};
use alleycat::json::Json;
use alleycat::json_text::{parse, render};
use alleycat::rpc::{INTERNAL_ERROR, INVALID_PARAMS, METHOD_NOT_FOUND};

fn j(text: &str) -> Json {
    parse(text).expect("json")
}

fn s(t: &str) -> String {
    t.to_string()
}

fn config() -> ClaudeSpawnConfig {
    ClaudeSpawnConfig {
        thread_id: s("th"),
        cwd: s("/tmp"),
        claude_bin: s("/dev/null"),
        model: None,
        append_system_prompt: None,
        resume: false,
        bypass_permissions: false,
    }
}

fn handle() -> ClaudeProcessHandle {
    ClaudeProcessHandle::started(&config(), None)
}

#[test]
fn turn_start_returns_thread_not_loaded_when_pool_empty() {
    let err = check_turn_start("missing", false, None).unwrap();
    assert!(matches!(err, TurnError::ThreadNotLoaded(_)));
}

#[test]
fn turn_steer_rejects_unknown_thread() {
    let err = check_turn_steer(&ActiveTurns::new(), "missing", false, "any").unwrap_err();
    assert!(matches!(err, TurnError::ThreadNotLoaded(_)));
}

#[test]
fn turn_interrupt_returns_thread_not_loaded_when_pool_empty() {
    let err = check_turn_interrupt(&ActiveTurns::new(), "missing", false, "tu").unwrap();
    assert!(matches!(err, TurnError::ThreadNotLoaded(_)));
}

#[test]
fn review_start_is_unsupported() {
    let err = handle_review_start();
    assert!(matches!(err, TurnError::ReviewUnsupported));
    assert_eq!(err.rpc_code(), METHOD_NOT_FOUND);
}

#[test]
fn active_turn_table_round_trip() {
    let mut turns = ActiveTurns::new();
    let thread_id = "test-thread";
    turns.register_active_turn(thread_id, "tu1");
    let active = turns.active_turn(thread_id).unwrap();
    assert_eq!(active, "tu1");
    turns.clear_active_turn(thread_id);
    assert!(turns.active_turn(thread_id).is_none());
}

#[test]
fn turn_error_rpc_codes() {
    assert_eq!(TurnError::InvalidParams(s("x")).rpc_code(), INVALID_PARAMS);
    assert_eq!(TurnError::ReviewUnsupported.rpc_code(), METHOD_NOT_FOUND);
    assert_eq!(TurnError::ClaudeRpc(s("oops")).rpc_code(), INTERNAL_ERROR);
}

#[test]
fn every_refusal_says_why() {
    assert_eq!(TurnError::InvalidParams(s("x")).message("helper"), "invalid params: x");
    assert_eq!(
        TurnError::ThreadNotLoaded(s("t")).message("helper"),
        "thread `t` is not loaded; call thread/start or thread/resume first"
    );
    let m = TurnError::TurnIdMismatch { expected: s("a"), actual: s("b") };
    assert_eq!(m.message("helper"), "expected_turn_id `a` does not match active turn `b`");
    assert_eq!(m.rpc_code(), INVALID_PARAMS);
    assert_eq!(TurnError::NoActiveTurn(s("t")).message("helper"), "no active turn for thread `t`");
    assert_eq!(TurnError::NoActiveTurn(s("t")).rpc_code(), INVALID_PARAMS);
    assert_eq!(TurnError::InputTranslation(s("i")).message("helper"), "input translation failed: i");
    assert_eq!(TurnError::InputTranslation(s("i")).rpc_code(), INVALID_PARAMS);
    assert_eq!(TurnError::ThreadNotLoaded(s("t")).rpc_code(), INVALID_PARAMS);
    assert_eq!(TurnError::ClaudeRpc(s("c")).message("helper"), "helper rpc error: c");
    assert_eq!(
        TurnError::ReviewUnsupported.message("helper"),
        "review/start is not implemented in helper-bridge v1"
    );
    let e = overrides_failed(&ClaudeProcessError::InitTimeout, "helper");
    assert_eq!(
        e.message("helper"),
        "helper rpc error: applying runtime overrides: helper process exited before publishing system/init"
    );
}

#[test]
fn turns_are_steered_only_by_their_own_id() {
    let mut turns = ActiveTurns::new();
    assert!(matches!(
        check_turn_steer(&turns, "t", true, "a"),
        Err(TurnError::NoActiveTurn(_))
    ));
    turns.register_active_turn("t", "a");
    assert_eq!(check_turn_steer(&turns, "t", true, "a").unwrap(), "a");
    assert!(matches!(
        check_turn_steer(&turns, "t", true, "b"),
        Err(TurnError::TurnIdMismatch { .. })
    ));
    assert!(check_turn_interrupt(&turns, "t", true, "a").is_none());
    assert!(matches!(
        check_turn_interrupt(&turns, "t", true, "b"),
        Some(TurnError::TurnIdMismatch { .. })
    ));
    assert!(check_turn_interrupt(&turns, "other", true, "b").is_none());
    assert!(matches!(
        check_turn_start("t", true, Some("bad image")),
        Some(TurnError::InputTranslation(m)) if m == "bad image"
    ));
    assert!(check_turn_start("t", true, None).is_none());
}

#[test]
fn efforts_have_budgets() {
    let all = [
        (ReasoningEffort::Off, 0),
        (ReasoningEffort::Minimal, 1024),
        (ReasoningEffort::Low, 4096),
        (ReasoningEffort::Medium, 16_384),
        (ReasoningEffort::High, 32_768),
        (ReasoningEffort::XHigh, 32_768),
        (ReasoningEffort::Max, 32_768),
    ];
    for (effort, tokens) in all {
        assert_eq!(effort_to_thinking_tokens(effort), tokens);
    }
    let want = turn_overrides(Some(s("opus")), Some(ReasoningEffort::Low));
    assert_eq!(want.thinking_tokens, Some(4096));
    assert_eq!(want.permission_mode, None);
}

#[test]
fn a_new_session_and_a_resumed_one_differ() {
    let spec = spawn_spec(&config());
    assert_eq!(
        spec.args,
        vec![
            "-p",
            "--input-format",
            "stream-json",
            "--output-format",
            "stream-json",
            "--include-partial-messages",
            "--verbose",
            "--permission-prompt-tool",
            "stdio",
            "--add-dir",
            "/tmp",
            "--session-id",
            "th",
        ]
    );
    let spec = spawn_spec(&ClaudeSpawnConfig {
        resume: true,
        bypass_permissions: true,
        model: Some(s("opus")),
        append_system_prompt: Some(s("be kind")),
        ..config()
    });
    assert!(spec.args.contains(&s("--resume")));
    assert!(!spec.args.contains(&s("--session-id")));
    assert!(spec.args.contains(&s("--dangerously-skip-permissions")));
    assert_eq!(
        spec.args[spec.args.len() - 4..].to_vec(),
        vec!["--model", "opus", "--append-system-prompt", "be kind"]
    );
    assert_eq!(spec.cwd.as_deref(), Some("/tmp"));
    assert_eq!(
        spawn_failure(&config(), true, false),
        "spawning /dev/null (cwd=/tmp, cwd_exists=true, claude_bin_exists=false)"
    );
}

#[test]
fn wait_for_init_returns_immediately_when_already_set() {
    let mut h = handle();
    h.hear(r#"{"type":"system","subtype":"init","session_id":"s1","cwd":"/tmp"}"#);
    let got = h.wait_for_init().unwrap();
    assert_eq!(got.str_at("session_id"), Some("s1"));
}

#[test]
fn wait_for_init_times_out_when_never_set() {
    let h = handle();
    assert!(matches!(h.wait_for_init(), Err(ClaudeProcessError::InitTimeout)));
    assert!(h.init().is_none());
}

#[test]
fn request_control_resolves_when_reader_routes_success() {
    let mut h = handle();
    let line = h.request_control("r1", &ControlRequestBody::Interrupt);
    let parsed = j(&line);
    assert_eq!(parsed.str_at("request_id"), Some("r1"));
    assert_eq!(parsed.str_at("type"), Some("control_request"));
    assert_eq!(parsed.str_at2("request", "subtype"), Some("interrupt"));
    assert!(h.has_pending());
    let heard = h.hear(
        r#"{"type":"control_response","response":{"subtype":"success","request_id":"r1"}}"#,
    );
    let Heard::Message { message: ClaudeOutbound::ControlResponse { body, .. }, answers: true } =
        heard
    else {
        panic!("no answer");
    };
    assert!(!h.has_pending());
    assert!(control_result("r1", ControlEnd::Answered(body), 2_000).unwrap().is_none());
    // A second answer reaches nobody.
    assert!(matches!(
        h.hear(r#"{"type":"control_response","response":{"subtype":"success","request_id":"r1"}}"#),
        Heard::Message { answers: false, .. }
    ));
}

#[test]
fn request_control_propagates_error_subtype() {
    let mut h = handle();
    h.request_control("r1", &ControlRequestBody::SetModel { model: s("ghost") });
    let heard = h.hear(
        r#"{"type":"control_response","response":{"subtype":"error","request_id":"r1",
            "error":"no such model: ghost"}}"#,
    );
    let Heard::Message { message: ClaudeOutbound::ControlResponse { body, .. }, .. } = heard else {
        panic!("no answer");
    };
    match control_result("r1", ControlEnd::Answered(body), 2_000).unwrap_err() {
        ClaudeProcessError::ControlError { message, .. } => {
            assert_eq!(message, "no such model: ghost")
        }
        other => panic!("expected ControlError, got {other:?}"),
    }
}

#[test]
fn request_control_times_out_and_reclaims_slot() {
    let mut h = handle();
    h.request_control("r1", &ControlRequestBody::Interrupt);
    let err = control_result("r1", ControlEnd::TimedOut, 60).unwrap_err();
    assert!(matches!(err, ClaudeProcessError::ControlTimeout { .. }));
    assert_eq!(err.message("helper"), "control request `r1` timed out after 60ms");
    h.forget("r1");
    assert!(!h.has_pending());
}

#[test]
fn process_errors_say_what_happened() {
    let timeout = |ms| {
        ClaudeProcessError::ControlTimeout { request_id: s("r"), elapsed_ms: ms }.message("helper")
    };
    assert_eq!(timeout(5_000), "control request `r` timed out after 5s");
    assert_eq!(timeout(1_500), "control request `r` timed out after 1.5s");
    assert_eq!(timeout(1_050), "control request `r` timed out after 1.05s");
    assert_eq!(timeout(1_234), "control request `r` timed out after 1.234s");
    assert_eq!(timeout(0), "control request `r` timed out after 0ns");
    assert_eq!(
        ClaudeProcessError::WriterClosed(s("gone")).message("helper"),
        "failed to write user envelope to helper stdin: gone"
    );
    let cancelled = control_result("r", ControlEnd::Cancelled, 1).unwrap_err();
    assert_eq!(
        cancelled.message("helper"),
        "control request `r` was cancelled (process exited or response routed elsewhere)"
    );
    assert!(must_kill(&Err(cancelled)));
    assert!(!must_kill(&Ok(None)));
    let refused = control_result(
        "r",
        ControlEnd::Answered(ControlResponseBody::Error { error: s("no") }),
        1,
    );
    assert_eq!(refused.unwrap_err().message("helper"), "control request `r` failed: no");
}

#[test]
fn the_end_of_the_program_lets_nobody_wait() {
    let mut h = handle();
    h.request_control("a", &ControlRequestBody::Interrupt);
    h.request_control("b", &ControlRequestBody::Interrupt);
    h.ended();
    assert!(!h.has_pending());
    assert_eq!(h.thread_id(), "th");
    assert_eq!(h.cwd(), "/tmp");
    assert_eq!(h.claude_bin(), "/dev/null");
    assert_eq!(h.pid(), None);
}

#[test]
fn lines_that_say_nothing_are_dropped() {
    let mut h = handle();
    for line in ["", "   \t ", "no json", "{}", "[1]", r#"{"type":"result"}"#] {
        assert!(matches!(h.hear(line), Heard::Nothing), "{line}");
    }
    assert!(matches!(
        h.hear("  {\"type\":\"assistant\"}  "),
        Heard::Message { message: ClaudeOutbound::Other(_), answers: false }
    ));
}

#[test]
fn settings_are_said_once() {
    let mut h = ClaudeProcessHandle::started(
        &ClaudeSpawnConfig { model: Some(s("opus")), ..config() },
        Some(7),
    );
    let want = RuntimeState {
        model: Some(s("opus")),
        thinking_tokens: Some(4096),
        permission_mode: Some(s("plan")),
    };
    // The model is known from the start.
    let first = h.next_override(&want).unwrap();
    assert!(matches!(first, ControlRequestBody::SetMaxThinkingTokens { tokens: 4096 }));
    // A setting that failed is asked for again.
    assert!(matches!(
        h.next_override(&want),
        Some(ControlRequestBody::SetMaxThinkingTokens { .. })
    ));
    h.override_applied(&first);
    let second = h.next_override(&want).unwrap();
    assert!(matches!(&second, ControlRequestBody::SetPermissionMode { mode } if mode == "plan"));
    h.override_applied(&second);
    assert!(h.next_override(&want).is_none());
    let now = h.runtime_snapshot();
    assert_eq!(now.model.as_deref(), Some("opus"));
    assert_eq!(now.thinking_tokens, Some(4096));
    let line = h.request_control("q", &ControlRequestBody::SetMaxThinkingTokens { tokens: 9 });
    assert_eq!(
        line,
        r#"{"request":{"max_thinking_tokens":9,"subtype":"set_max_thinking_tokens"},"request_id":"q","type":"control_request"}"#
    );
}

#[test]
fn a_turn_opens_with_the_message_of_the_user() {
    let mut turns = ActiveTurns::new();
    let input = vec![UserInput::Text { text: s("hi"), text_elements: vec![] }];
    let open = open_turn(&mut turns, "th", &input, "tu", "it", 42, &vec![]);
    let methods: Vec<&str> = open.notify.iter().map(|p| p.method.as_str()).collect();
    assert_eq!(methods, vec!["turn/started", "item/started", "item/completed"]);
    let told = open.notify[0].params.get("turn").unwrap();
    assert_eq!(told.get("startedAt").unwrap().as_i64(), Some(42));
    assert!(open.reply.get2("turn", "startedAt").unwrap().is_null());
    assert_eq!(open.reply.str_at2("turn", "id"), Some("tu"));
    assert_eq!(open.user_item.id(), "it");
    assert_eq!(turns.active_turn("th"), Some(s("tu")));

    let out = vec![s("item/started")];
    assert!(!should_emit("item/started", &out));
    assert!(should_emit("item/completed", &out));
    let open = open_turn(&mut turns, "th", &input, "tu2", "it2", 43, &out);
    assert_eq!(open.notify.len(), 2);
    assert_eq!(turns.active_turn("th"), Some(s("tu2")));
    let err = abandon_turn(&mut turns, "th", "closed");
    assert_eq!(err.message("helper"), "helper rpc error: closed");
    assert_eq!(turns.active_turn("th"), None);
}

fn out(text: &str) -> ClaudeOutbound {
    read_outbound(j(text)).expect("message")
}

#[test]
fn a_turn_ends_with_the_result_of_the_program() {
    let mut turns = ActiveTurns::new();
    turns.register_active_turn("th", "tu");
    let mut pump = EventPump::new("helper", "th", "tu", 100);
    let item = ThreadItem::AgentMessage { id: s("m"), text: s("hello") };
    let translated = vec![
        ServerNotification::AgentMessageDelta(AgentMessageDeltaNotification {
            thread_id: s("th"),
            turn_id: s("tu"),
            item_id: s("m"),
            delta: s("hello"),
            parent_item_id: None,
        }),
        ServerNotification::ItemCompleted(ItemCompletedNotification {
            item,
            thread_id: s("th"),
            turn_id: s("tu"),
            parent_item_id: None,
        }),
    ];
    let step = pump.step(&out(r#"{"type":"assistant"}"#), &translated, &vec![]);
    assert_eq!(step.notify.len(), 2);
    assert_eq!(step.record.len(), 1);
    assert!(!pump.over);
    // What a client opted out of is not recorded either.
    let step =
        pump.step(&out(r#"{"type":"assistant"}"#), &translated, &vec![s("item/completed")]);
    assert_eq!(step.notify.len(), 1);
    assert_eq!(step.record.len(), 0);

    pump.step(
        &out(r#"{"type":"result","subtype":"success","is_error":false,"result":"hello"}"#),
        &vec![],
        &vec![],
    );
    assert!(pump.over);
    let (turn, frame) = pump.finish(&mut turns, 103, &vec![]);
    assert_eq!(turn.status, TurnStatus::Completed);
    assert_eq!(turn.duration_ms, Some(3_000));
    assert!(turn.error.is_none());
    let frame = frame.unwrap();
    assert_eq!(frame.method, "turn/completed");
    assert_eq!(frame.params.str_at("threadId"), Some("th"));
    assert_eq!(turns.active_turn("th"), None);
    // The clock went back.
    let (turn, frame) = pump.finish(&mut turns, 90, &vec![s("turn/completed")]);
    assert_eq!(turn.duration_ms, Some(0));
    assert!(frame.is_none());
}

fn failure(result: &str) -> Option<String> {
    let mut pump = EventPump::new("helper", "th", "tu", 0);
    pump.step(&out(result), &vec![], &vec![]);
    pump.error_message
}

#[test]
fn failures_say_what_the_program_says_or_how_it_ended() {
    assert_eq!(
        failure(r#"{"type":"result","subtype":"error","result":"bad luck"}"#),
        Some(s("bad luck"))
    );
    assert_eq!(
        failure(r#"{"type":"result","subtype":"success","is_error":true,"result":""}"#),
        Some(s("helper turn ended with subtype success (terminal_reason=None)"))
    );
    assert_eq!(
        failure(r#"{"type":"result","subtype":"error_max_turns","terminal_reason":"a\"b"}"#),
        Some(s(r#"helper turn ended with subtype error_max_turns (terminal_reason=Some("a\"b"))"#))
    );
    assert_eq!(failure(r#"{"type":"result","subtype":"success"}"#), None);
    let mut pump = EventPump::new("helper", "th", "tu", 0);
    pump.closed();
    let (turn, _) = pump.finish(&mut ActiveTurns::new(), 1, &vec![]);
    assert_eq!(turn.status, TurnStatus::Failed);
    assert_eq!(turn.error.unwrap().message, "helper process exited unexpectedly");
}

#[test]
fn requests_of_the_program_are_bridged_or_turned_down() {
    let mut pump = EventPump::new("helper", "th", "tu", 0);
    let mut effect = |t: &str| pump.step(&out(t), &vec![], &vec![]).effect;
    assert!(matches!(
        effect(
            r#"{"type":"control_request","request_id":"q","request":{"subtype":"can_use_tool"}}"#
        ),
        PumpEffect::AskPermission { request_id, .. } if request_id == "q"
    ));
    assert!(matches!(
        effect(r#"{"type":"control_request","request_id":"q","request":{"subtype":"mcp"}}"#),
        PumpEffect::ReplyControlError { message, .. }
            if message == "bridge does not handle this control_request subtype yet"
    ));
    assert!(matches!(effect(r#"{"type":"control_request"}"#), PumpEffect::Nothing));
    assert!(matches!(
        effect(r#"{"type":"system","subtype":"init"}"#),
        PumpEffect::RefreshInit(_)
    ));
    assert!(matches!(
        effect(r#"{"type":"rate_limit_event","rate_limit_info":{"used":1}}"#),
        PumpEffect::RefreshRateLimits(v) if render(&v) == r#"{"used":1}"#
    ));
}

#[test]
fn answers_of_the_user_reach_the_program() {
    let answers = vec![
        (s("question-0"), vec![s("yes")]),
        (s("question-1"), vec![]),
        (s("question-2"), vec![s("a"), s("b")]),
    ];
    let v = synthesize_user_input_tool_result("tool-1", &answers, false);
    let content = v.get2("message", "content").unwrap().as_array().unwrap();
    assert_eq!(content[0].str_at("tool_use_id"), Some("tool-1"));
    assert_eq!(
        content[0].str_at("content"),
        Some(r#"{"answers":{"question-0":"yes","question-1":null,"question-2":["a","b"]}}"#)
    );
    assert_eq!(content[0].bool_at("is_error"), Some(false));
    let v = user_input_failed("tool-1", "gone");
    let content = v.get2("message", "content").unwrap().as_array().unwrap();
    assert_eq!(
        content[0].str_at("content"),
        Some(r#"{"error":"bridge could not collect user answers: gone"}"#)
    );
    assert_eq!(content[0].bool_at("is_error"), Some(true));
}
