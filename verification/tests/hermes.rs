//! The bridge to Hermes.

use alleycat::codex::command_exec::CommandExecParams;
use alleycat::codex::methods::Method;
use alleycat::codex::thread::{UserInput, item_from_json};
use alleycat::hermes::api_client::{
    ApprovalChoice, CreateRunRequest, CreateRunResponse, HermesApiClient, HttpVerb,
};
use alleycat::hermes::bridge::{
    CommandFailure, Dispatch, HermesBridge, TurnRoute, TurnStartParams, choose_route, command_answer,
    command_failed, dispatch, initialize, plan_command, turn_running,
};
use alleycat::hermes::config::{HermesBridgeConfig, HermesMode, choose_api_key, load_api_key_from_dotenv};
use alleycat::hermes::event_store::{EventStore, NormalizedHermesEvent, event_line, run_of_log};
use alleycat::hermes::health_cache::{HealthCache, Probe, probe_timeout_ms, snapshot_of};
use alleycat::hermes::index::{HermesBinding, ThreadIndex};
use alleycat::hermes::input::{preview_for, random_hex, to_hex, truncate_string, user_text};
use alleycat::hermes::run_manager::{
    Forward, FrameBuffer, HermesRunManager, PollReply, RunIds, RunOutcome, TranslationOutcome, Translator,
    approval_decision, parse_approval_choice, poll_step, stream_outcome, translate_event,
};
use alleycat::hermes::run_state::{HermesRunRecord, HermesTurnStatus, RunStore};
use alleycat::hermes::sse::parse_sse_frames;
use alleycat::hermes::threads::{
    Surroundings, ThreadResumeParams, ThreadStartParams, handle_thread_archive, handle_thread_fork,
    handle_thread_list, handle_thread_loaded_list, handle_thread_name_set, handle_thread_read,
    handle_thread_resume, handle_thread_start, handle_thread_turns_list, handle_thread_unarchive, settle,
};
use alleycat::hermes::turn_log::{TurnLog, logged_turns, turn_from_run_record};
use alleycat::json::{Json, ToJson};
use alleycat::json_text::{parse, render};
use alleycat::rpc::{INTERNAL_ERROR, INVALID_PARAMS, METHOD_NOT_FOUND};

fn j(text: &str) -> Json {
    parse(text).expect("json")
}

fn s(t: &str) -> String {
    t.to_string()
}

#[test]
fn create_run_request_uses_stock_input_field() {
    let req = CreateRunRequest {
        input: s("hello"),
        session_id: Some(s("thread-1")),
        cwd: Some(s("/tmp")),
        model: None,
    };
    let value = req.to_json();
    assert_eq!(value.str_at("input"), Some("hello"));
    assert!(value.get("prompt").is_none());
    assert_eq!(value.str_at("session_id"), Some("thread-1"));
    assert!(value.get("sessionId").is_none());
}

#[test]
fn requests_go_to_the_gateway() {
    let client = HermesApiClient::new("http://host:1///", Some(s("key")));
    let r = client.health();
    assert_eq!(r.verb, HttpVerb::Get);
    assert_eq!(r.url, "http://host:1/health");
    assert_eq!(r.bearer.as_deref(), Some("key"));
    let r = client.create_run(&CreateRunRequest {
        input: s("hello"),
        session_id: Some(s("session-1")),
        cwd: None,
        model: None,
    });
    assert_eq!(r.verb, HttpVerb::Post);
    assert_eq!(r.url, "http://host:1/v1/runs");
    let body = render(&r.body.unwrap());
    assert!(body.contains("\"input\":\"hello\""));
    assert!(!body.contains("\"prompt\""));
    assert_eq!(client.events_stream("run-1").url, "http://host:1/v1/runs/run-1/events");
    assert_eq!(client.stop_run("run-1").url, "http://host:1/v1/runs/run-1/stop");
    assert_eq!(client.get_run_status("run-1").url, "http://host:1/v1/runs/run-1");
    assert!(client.resolve_run_approval("r", ApprovalChoice::Deny, true).body.is_some());
    assert_eq!(client.approve_run_once("r").verb, HttpVerb::Post);
}

#[test]
fn runs_are_named_in_either_style() {
    let r = CreateRunResponse::from_json(&j(r#"{"run_id":"run-1","status":"running"}"#)).unwrap();
    assert_eq!(r.run_id, "run-1");
    let r = CreateRunResponse::from_json(&j(r#"{"runId":"x","sessionId":"y"}"#)).unwrap();
    assert_eq!(r.session_id.as_deref(), Some("y"));
    assert!(CreateRunResponse::from_json(&j("{}")).is_none());
}

#[test]
fn events_come_in_frames() {
    let body = "event: message.delta\ndata: {\"delta\":\"hi\"}\n\nevent: run.completed\ndata: {\"status\":\"completed\"}\n\n";
    let events = parse_sse_frames(body);
    assert_eq!(events.len(), 2);
    assert_eq!(events[0].message_delta().as_deref(), Some("hi"));
    assert!(events[1].is_terminal_success());
    assert!(events[1].terminal_error().is_none());
}

#[test]
fn frames_are_put_together_from_chunks() {
    let mut b = FrameBuffer::new();
    b.push("event: a\ndata");
    assert!(b.next_frame().is_none());
    b.push(": {}\n\nevent: b\ndata: {}");
    let first = b.next_frame().unwrap();
    assert!(first.contains("event: a"));
    assert!(b.next_frame().is_none());
    assert!(b.trailing().unwrap().contains("event: b"));
}

fn ev(method: &str) -> NormalizedHermesEvent {
    NormalizedHermesEvent {
        seq: 0,
        ts: 1,
        thread_id: s("t"),
        turn_id: s("tu"),
        run_id: s("run-1"),
        method: s(method),
        params: j(r#"{"hello":"world"}"#),
    }
}

#[test]
fn append_assigns_monotonic_seq_and_persists() {
    let mut log = String::new();
    let mut store = EventStore::new_in_memory();
    let e1 = store.append("run-1", ev("item/started"));
    log.push_str(&event_line(&e1));
    log.push('\n');
    let e2 = store.append("run-1", ev("item/agentMessage/delta"));
    log.push_str(&event_line(&e2));
    log.push('\n');
    assert_eq!(e1.seq, 1);
    assert_eq!(e2.seq, 2);
    let e_other = store.append("run-2", ev("item/started"));
    assert_eq!(e_other.seq, 1);
    let mut reloaded = EventStore::new_in_memory();
    reloaded.resume("run-1", &log);
    let all = EventStore::read_all(Some(&log));
    assert_eq!(all.len(), 2);
    assert_eq!(all[0].seq, 1);
    assert_eq!(render(&all[1].params), r#"{"hello":"world"}"#);
    let e3 = reloaded.append("run-1", ev("turn/completed"));
    assert_eq!(e3.seq, 3);
}

#[test]
fn read_since_filters_by_seq() {
    let mut log = String::new();
    let mut store = EventStore::new_in_memory();
    for i in 0..5 {
        let mut e = ev("item/agentMessage/delta");
        e.params = j(&format!(r#"{{"i": {i}}}"#));
        log.push_str(&event_line(&store.append("run-x", e)));
        log.push('\n');
    }
    let since = EventStore::read_since(Some(&log), 3);
    assert_eq!(since.len(), 2);
    assert_eq!(since[0].seq, 4);
    assert_eq!(since[1].seq, 5);
}

#[test]
fn read_unknown_run_returns_empty() {
    assert!(EventStore::read_all(None).is_empty());
    assert!(EventStore::read_since(None, 0).is_empty());
}

#[test]
fn logs_are_named_after_their_runs() {
    assert_eq!(run_of_log("run-1.jsonl").as_deref(), Some("run-1"));
    assert_eq!(run_of_log("notes.txt"), None);
}

#[test]
fn manager_can_be_constructed() {
    let client = HermesApiClient::new("http://127.0.0.1:1", None);
    let mgr = HermesRunManager::new(client, RunStore::new_in_memory(), EventStore::new_in_memory());
    assert_eq!(mgr.active_count(), 0);
    assert!(!mgr.is_active("run-x"));
}

fn record(thread_id: &str, turn_id: &str, status: HermesTurnStatus) -> HermesRunRecord {
    HermesRunRecord {
        thread_id: s(thread_id),
        turn_id: s(turn_id),
        hermes_session_id: format!("ses_{turn_id}"),
        run_id: None,
        status,
        created_at: 1,
        updated_at: 1,
        completed_at: None,
        error: None,
        accumulated_text: String::new(),
        last_event_seq: None,
        agent_item_id: None,
        user_items: Vec::new(),
    }
}

#[test]
fn runs_keep_the_items_of_their_users() {
    let item = r#"{"content":[{"text":"hi","type":"text"}],"id":"i","type":"userMessage"}"#;
    let mut store = RunStore::new_in_memory();
    let mut r = record("th", "tu", HermesTurnStatus::Completed);
    r.user_items = vec![item_from_json(&j(item)).unwrap()];
    store.upsert(r);
    let text = store.persisted();
    let reloaded = RunStore::load(Some(&text)).unwrap();
    let kept = reloaded.get_by_turn("tu").unwrap();
    assert_eq!(kept.user_items.len(), 1);
    assert_eq!(render(&kept.user_items[0].to_json()), item);
    let broken = text.replace("\"userMessage\"", "7");
    assert_ne!(broken, text);
    assert!(RunStore::load(Some(&broken)).is_none());
}

#[test]
fn a_written_log_is_read_back() {
    let mut store = EventStore::new_in_memory();
    let mut log = String::from("no event\r\n\n");
    for i in 0..3 {
        let e = ev(&format!("line\nbreak\r{i}"));
        let line = event_line(&store.append("run-l", e));
        assert!(!line.contains('\n') && !line.contains('\r'));
        log.push_str(&line);
        log.push('\n');
        let read = EventStore::read_all(Some(&log));
        assert_eq!(read.len(), i + 1);
        assert_eq!(read[i].method, format!("line\nbreak\r{i}"));
        assert_eq!(read[i].seq, i as u64 + 1);
    }
}

#[test]
fn roundtrip_persists_and_reloads() {
    let mut store = RunStore::load(None).unwrap();
    store.upsert(record("thread-1", "turn-1", HermesTurnStatus::Starting));
    store.mark_running("turn-1", "run_abc", 2);
    let reloaded = RunStore::load(Some(&store.persisted())).unwrap();
    let got = reloaded.get_by_turn("turn-1").unwrap();
    assert_eq!(got.status, HermesTurnStatus::Running);
    assert_eq!(got.run_id.as_deref(), Some("run_abc"));
    assert_eq!(got.updated_at, 2);
    let by_run = reloaded.get_by_run("run_abc").unwrap();
    assert_eq!(by_run.turn_id, "turn-1");
}

#[test]
fn a_file_that_is_no_table_is_refused() {
    assert!(RunStore::load(Some("nonsense")).is_none());
}

#[test]
fn mark_terminal_is_idempotent() {
    let mut store = RunStore::new_in_memory();
    store.upsert(record("t", "turn-x", HermesTurnStatus::Running));
    let first = store
        .mark_terminal("turn-x", HermesTurnStatus::Completed, None, Some(s("hello")), 10)
        .unwrap();
    let second = store
        .mark_terminal("turn-x", HermesTurnStatus::Failed, Some(s("late")), None, 11)
        .unwrap();
    assert_eq!(first.status, HermesTurnStatus::Completed);
    assert_eq!(second.status, HermesTurnStatus::Completed);
    assert_eq!(second.error, None);
    assert_eq!(second.accumulated_text, "hello");
    assert_eq!(second.updated_at, 11);
}

#[test]
fn orphans_become_unknown() {
    let mut store = RunStore::new_in_memory();
    store.upsert(record("t", "turn-1", HermesTurnStatus::Running));
    store.upsert(record("t", "turn-2", HermesTurnStatus::Completed));
    let affected = store.mark_orphans_unknown(99);
    assert_eq!(affected.len(), 1);
    assert_eq!(affected[0].turn_id, "turn-1");
    assert_eq!(store.get_by_turn("turn-1").unwrap().status, HermesTurnStatus::Unknown);
    assert_eq!(store.get_by_turn("turn-2").unwrap().status, HermesTurnStatus::Completed);
}

#[test]
fn active_for_thread_picks_most_recent_non_terminal() {
    let mut store = RunStore::new_in_memory();
    let mut a = record("th", "turn-a", HermesTurnStatus::Completed);
    a.updated_at = 100;
    let mut b = record("th", "turn-b", HermesTurnStatus::Running);
    b.updated_at = 50;
    let mut c = record("th", "turn-c", HermesTurnStatus::Starting);
    c.updated_at = 200;
    store.upsert(a);
    store.upsert(b);
    store.upsert(c);
    let active = store.active_for_thread("th").unwrap();
    assert_eq!(active.turn_id, "turn-c");
    assert_eq!(store.list_for_thread("th").len(), 3);
    assert!(store.list_for_thread("other").is_empty());
}

#[test]
fn a_turn_that_is_replaced_is_not_found_by_its_old_run() {
    let mut store = RunStore::new_in_memory();
    let mut a = record("th", "turn-a", HermesTurnStatus::Running);
    a.run_id = Some(s("old"));
    store.upsert(a);
    let mut b = record("th", "turn-a", HermesTurnStatus::Running);
    b.run_id = Some(s("new"));
    store.upsert(b);
    assert!(store.get_by_run("old").is_none());
    assert!(store.get_by_run("new").is_some());
    store.touch_text("turn-a", "partial", 5);
    store.note_event_seq("turn-a", 7, 6);
    let got = store.get_by_turn("turn-a").unwrap();
    assert_eq!(got.accumulated_text, "partial");
    assert_eq!(got.last_event_seq, Some(7));
    assert_eq!(store.records().len(), 1);
}

fn ids() -> RunIds {
    RunIds {
        run_id: s("run-1"),
        turn_id: s("tu"),
        thread_id: s("th"),
        agent_item_id: s("it"),
    }
}

#[test]
fn events_of_a_run_become_bridge_events() {
    let mut text = String::new();
    let events = parse_sse_frames(
        "event: message.delta\ndata: {\"delta\":\"hi\"}\n\nevent: run.completed\ndata: {\"status\":\"completed\",\"output\":\"hi\"}\n\n",
    );
    let t = translate_event(&ids(), &mut text, false, &events[0]);
    assert_eq!(t.publish.len(), 1);
    assert_eq!(t.publish[0].method, "item/agentMessage/delta");
    assert_eq!(text, "hi");
    let t = translate_event(&ids(), &mut text, false, &events[1]);
    assert!(matches!(&t.next, TranslationOutcome::TerminalSuccess { text } if text == "hi"));
    assert!(matches!(
        stream_outcome(&mut text, &t.next),
        Some(RunOutcome::Completed { accumulated_text }) if accumulated_text == "hi"
    ));
}

#[test]
fn a_cancelled_run_is_cancelled() {
    let mut text = s("so far");
    let events = parse_sse_frames(
        "event: run.cancelled\ndata: {\"message\":\"stopped\"}\n\nevent: run.failed\ndata: {\"error\":\"boom\"}\n\n",
    );
    let t = translate_event(&ids(), &mut text, false, &events[0]);
    assert!(t.publish.is_empty());
    assert_eq!(t.next, TranslationOutcome::TerminalCancelled);
    assert!(matches!(stream_outcome(&mut text, &t.next), Some(RunOutcome::Cancelled)));
    assert_eq!(text, "so far");
    let t = translate_event(&ids(), &mut text, false, &events[1]);
    assert!(matches!(
        stream_outcome(&mut text, &t.next),
        Some(RunOutcome::Failed { error }) if error == "Hermes API error: boom"
    ));
}

#[test]
fn runs_are_pumped_once() {
    let client = HermesApiClient::new("http://h", None);
    let mut mgr =
        HermesRunManager::new(client, RunStore::new_in_memory(), EventStore::new_in_memory());
    let mut r = record("th", "tu", HermesTurnStatus::Running);
    r.run_id = Some(s("run-1"));
    mgr.run_store.upsert(r.copy());
    assert!(mgr.ensure_run(&r));
    assert!(!mgr.ensure_run(&r));
    assert!(mgr.is_active("run-1"));
    let outcome = RunOutcome::Completed { accumulated_text: s("done") };
    let events = mgr.finish(&ids(), "done", &outcome, 9);
    assert!(events.iter().any(|e| e.method == "turn/completed"));
    assert_eq!(mgr.active_count(), 0);
    assert_eq!(mgr.run_store.get_by_turn("tu").unwrap().status, HermesTurnStatus::Completed);
}

#[test]
fn a_poll_ends_with_a_terminal_status_or_its_time() {
    let mut text = s("par");
    let running = PollReply::Status {
        terminal: false,
        status: s("running"),
        output: None,
        error: None,
    };
    assert!(poll_step(&mut text, &running, false, "broken").is_none());
    assert!(poll_step(&mut text, &running, true, "broken").is_some());
    let done = PollReply::Status {
        terminal: true,
        status: s("completed"),
        output: Some(s("all of it")),
        error: None,
    };
    assert!(matches!(
        poll_step(&mut text, &done, false, "broken"),
        Some(RunOutcome::Completed { .. })
    ));
}

#[test]
fn approvals_are_denied_unless_allowed() {
    assert_eq!(approval_decision(None).0, ApprovalChoice::Deny);
    let choice = |text: &str| parse_approval_choice(&j(text));
    assert_eq!(choice(r#"{"choice":" Approve "}"#), Some(ApprovalChoice::Once));
    assert_eq!(choice(r#"{"choice":"SESSION"}"#), Some(ApprovalChoice::Session));
    assert_eq!(choice(r#"{"choice":"always"}"#), Some(ApprovalChoice::Always));
    assert_eq!(choice(r#"{"choice":"denied"}"#), Some(ApprovalChoice::Deny));
    assert_eq!(choice(r#"{"choice":"maybe"}"#), None);
    assert_eq!(choice(r#"{"decision":"accept"}"#), None);
    assert_eq!(ApprovalChoice::Session.as_str(), "session");
}

#[test]
fn subscribers_see_events_once() {
    let mut t = Translator::new();
    t.on_replay(3);
    let mut e = ev("item/started");
    e.seq = 3;
    assert!(matches!(t.on_live(&e), Forward::Skip));
    e.seq = 4;
    assert!(matches!(t.on_live(&e), Forward::Notify));
}

#[test]
fn health_is_believed_for_a_while() {
    let mut cache = HealthCache::new(10);
    assert!(cache.peek(0).is_none());
    let snap = snapshot_of(&Probe::Answered(s("ok")), 500);
    assert!(snap.healthy);
    cache.insert(snap, 1_000_000);
    assert!(cache.peek(11_000_000).is_some());
    assert!(cache.peek(11_000_001).is_none());
    cache.invalidate();
    assert!(cache.peek(1_000_001).is_none());
    assert!(!snapshot_of(&Probe::TimedOut, 500).healthy);
    assert!(!snapshot_of(&Probe::Failed(s("refused")), 500).healthy);
    assert_eq!(probe_timeout_ms(1), 50);
    assert_eq!(probe_timeout_ms(700), 700);
}

#[test]
fn keys_come_from_the_environment_or_a_file() {
    assert_eq!(load_api_key_from_dotenv("# x\nAPI_SERVER_KEY=abc\n").as_deref(), Some("abc"));
    assert_eq!(choose_api_key(Some(s("a")), Some(s("b")), None).as_deref(), Some("a"));
    assert_eq!(choose_api_key(None, Some(s("b")), None).as_deref(), Some("b"));
    assert_eq!(choose_api_key(None, None, None), None);
}

#[test]
fn texts_are_cut_between_characters() {
    let mut t = s("a\u{e4}b");
    truncate_string(&mut t, 2);
    assert_eq!(t, "a\n...[truncated]");
    let mut t = s("abc");
    truncate_string(&mut t, 3);
    assert_eq!(t, "abc");
    assert_eq!(preview_for("  ").as_deref(), None);
    assert_eq!(preview_for("hello").as_deref(), Some("hello"));
    assert_eq!(to_hex(&vec![0, 255, 16]), "00ff10");
    let a = random_hex(16);
    assert_eq!(a.len(), 32);
    assert!(a.chars().all(|c| c.is_ascii_hexdigit()));
    assert_ne!(a, random_hex(16));
    assert_eq!(
        user_text(&vec![
            UserInput::Text { text: s("a"), text_elements: vec![] },
            UserInput::Image { url: s("u") },
            UserInput::Text { text: s("b"), text_elements: vec![] },
        ]),
        "a\nb"
    );
}

fn around() -> Surroundings {
    Surroundings { version: s("1"), default_cwd: s("/w") }
}

fn start(index: &mut ThreadIndex, id: &str, cwd: &str) {
    let p = ThreadStartParams {
        cwd: Some(s(cwd)),
        model: None,
        approval_policy: None,
        approvals_reviewer: None,
        sandbox: None,
        permission_profile: None,
    };
    let h = handle_thread_start(index, &p, id, "ses", 5, &around());
    assert!(h.persist);
    assert_eq!(h.notify[0].method, "thread/started");
    let reply = h.reply.unwrap();
    assert_eq!(reply.str_at2("thread", "id"), Some(id));
}

#[test]
fn threads_are_started_listed_and_archived() {
    let mut index = ThreadIndex::new_in_memory();
    start(&mut index, "th-1", "/a");
    start(&mut index, "th-2", "/b");
    let loaded = handle_thread_loaded_list(&index).reply.unwrap();
    assert_eq!(loaded.array_at("data").unwrap().len(), 2);
    let h = handle_thread_archive(&mut index, "th-1", 6);
    assert_eq!(h.notify[0].method, "thread/archived");
    let list = handle_thread_list(&index, None, None, 7, &around()).reply.unwrap();
    let names: Vec<&str> =
        list.array_at("data").unwrap().iter().map(|t| t.str_at("id").unwrap()).collect();
    assert!(names.contains(&"th-2"));
    let h = handle_thread_unarchive(&mut index, "th-1", 8, &around());
    assert!(h.reply.is_ok());
    let h = handle_thread_archive(&mut index, "nope", 9);
    assert!(h.reply.is_err());
    let h = handle_thread_name_set(&mut index, "th-1", "A Name", 10);
    assert!(h.reply.is_ok());
    assert_eq!(index.get_by_thread("th-1").unwrap().name.as_deref(), Some("A Name"));
    let found = handle_thread_list(&index, None, Some("a nAME"), 11, &around()).reply.unwrap();
    assert_eq!(found.array_at("data").unwrap().len(), 1);
    let h = handle_thread_fork(&mut index, "th-1", None, None, "th-3", 12, &around());
    assert_eq!(h.reply.unwrap().get2("thread", "forkedFromId").unwrap().as_str(), Some("th-1"));
    let h = handle_thread_read(&index, "th-1", true, vec![j("{}")], 13, &around());
    let thread = h.reply.unwrap();
    assert_eq!(thread.get2("thread", "turns").unwrap().as_array().unwrap().len(), 1);
    let h = handle_thread_turns_list(&index, "th-1", vec![j("1"), j("2")]);
    assert_eq!(h.reply.unwrap().array_at("data").unwrap().len(), 2);
    let p = ThreadResumeParams {
        thread_id: s("th-2"),
        cwd: None,
        model: Some(s("m")),
        exclude_turns: true,
    };
    let h = handle_thread_resume(&mut index, &p, vec![], 14, &around());
    assert_eq!(h.reply.unwrap().str_at("model"), Some("m"));
}

#[test]
fn an_index_that_cannot_be_stored_is_the_answer() {
    let mut index = ThreadIndex::new_in_memory();
    start(&mut index, "th-1", "/a");
    let h = settle(handle_thread_archive(&mut index, "th-1", 6), Some("disk full"));
    let e = h.reply.unwrap_err();
    assert_eq!(e.code, INTERNAL_ERROR);
    assert_eq!(e.message, "persist thread index: disk full");
    assert!(h.notify.is_empty());
}

fn bridge(mode: HermesMode) -> HermesBridge {
    let config = HermesBridgeConfig { mode, ..HermesBridgeConfig::default() };
    let mut index = ThreadIndex::new_in_memory();
    index.upsert(HermesBinding {
        thread_id: s("th"),
        hermes_session_id: s("ses"),
        model: None,
        created_at: 1,
        updated_at: 1,
        preview: None,
        cwd: Some(s("/w")),
        name: None,
        forked_from_id: None,
        archived: false,
    });
    HermesBridge::new(
        config,
        index,
        RunStore::new_in_memory(),
        EventStore::new_in_memory(),
        None,
        2,
    )
}

fn turn_params() -> TurnStartParams {
    TurnStartParams {
        thread_id: s("th"),
        input: vec![UserInput::Text { text: s("hello"), text_elements: vec![] }],
        cwd: None,
        model: None,
        approval_policy: None,
    }
}

#[test]
fn turns_are_opened_and_interrupted() {
    let mut b = bridge(HermesMode::Api { api_base: s("http://h") });
    let open = b.handle_turn_start(&turn_params(), "tu", "ui", 3);
    assert!(open.is_ok());
    b.record_starting("th", "tu", "ses", "ai", 3);
    let req = b.run_request(&turn_params(), "ses");
    assert_eq!(req.input, "hello");
    assert_eq!(req.cwd.as_deref(), Some("/w"));
    let r = b.run_accepted("th", "tu", "ses", "ai", "run-9", 4);
    assert_eq!(r.run_id.as_deref(), Some("run-9"));
    assert_eq!(turn_running("tu", 4).reply.unwrap().str_at2("turn", "id"), Some("tu"));
    assert_eq!(b.handle_turn_interrupt("th").as_deref(), Some("run-9"));
    assert_eq!(b.handle_turn_interrupt("th"), None);
    let h = b.turn_failed("th", "tu", TurnRoute::Api, "boom", 5);
    assert_eq!(h.reply.unwrap_err().message, "Hermes API error: boom");
}

#[test]
fn the_program_answers_in_one_piece() {
    let mut b = bridge(HermesMode::Cli { bin: None });
    b.handle_turn_start(&turn_params(), "tu", "ui", 3).ok().unwrap();
    b.record_starting("th", "tu", "ses", "ai", 3);
    let call = b.cli_call(&turn_params());
    assert_eq!(call.bin, "hermes");
    assert_eq!(call.session_id.as_deref(), Some("ses"));
    assert_eq!(call.text, "hello");
    let h = b.cli_answered("th", "tu", "it", "the answer", 6);
    let methods: Vec<&str> = h.notify.iter().map(|p| p.method.as_str()).collect();
    assert_eq!(
        methods,
        vec!["item/started", "item/agentMessage/delta", "item/completed", "turn/completed"]
    );
    assert_eq!(h.reply.unwrap().str_at2("turn", "status"), Some("completed"));
}

#[test]
fn the_route_depends_on_health_only_in_auto_mode() {
    let auto = HermesMode::Auto { api_base: s("http://h"), bin: None };
    assert_eq!(choose_route(&auto, true), TurnRoute::Api);
    assert_eq!(choose_route(&auto, false), TurnRoute::Cli);
    assert_eq!(choose_route(&HermesMode::Api { api_base: s("x") }, false), TurnRoute::Api);
    assert_eq!(choose_route(&HermesMode::Cli { bin: None }, true), TurnRoute::Cli);
}

fn exec(command: &[&str]) -> CommandExecParams {
    CommandExecParams {
        command: command.iter().map(|c| s(c)).collect(),
        cwd: None,
        env: None,
        process_id: None,
        tty: false,
        stream_stdin: false,
        stream_stdout_stderr: false,
        disable_output_cap: false,
        output_bytes_cap: None,
        disable_timeout: false,
        timeout_ms: None,
    }
}

#[test]
fn commands_are_planned_and_answered() {
    assert_eq!(plan_command(&exec(&["ls"])).unwrap(), Some(30_000));
    assert_eq!(plan_command(&exec(&[])).unwrap_err().code, INVALID_PARAMS);
    assert!(plan_command(&CommandExecParams { tty: true, ..exec(&["ls"]) }).is_err());
    let long = CommandExecParams { timeout_ms: Some(1_000_000), ..exec(&["ls"]) };
    assert_eq!(plan_command(&long).unwrap(), Some(300_000));
    let short = CommandExecParams { output_bytes_cap: Some(2), ..exec(&["ls"]) };
    let h = command_answer(&short, Some(3), b"abcd", b"");
    let v = h.reply.unwrap();
    assert_eq!(v.str_at("stdout"), Some("ab\n...[truncated]"));
    assert_eq!(v.get("exitCode").unwrap().as_i64(), Some(3));
    assert_eq!(
        command_failed(&CommandFailure::TimedOut).reply.unwrap_err().message,
        "command/exec timed out"
    );
    assert_eq!(
        command_failed(&CommandFailure::NotStarted(s("no"))).reply.unwrap_err().message,
        "command/exec failed to spawn: no"
    );
}

#[test]
fn methods_are_answered_passed_on_or_refused() {
    assert!(matches!(
        dispatch("turn/start", &Json::Null, 0),
        Dispatch::Needs(Method::TurnStart)
    ));
    match dispatch("no/such", &Json::Null, 0) {
        Dispatch::Done(h) => {
            let e = h.reply.unwrap_err();
            assert_eq!(e.code, METHOD_NOT_FOUND);
            assert_eq!(e.message, "Method not found: no/such");
        }
        Dispatch::Needs(_) => panic!("needs"),
    }
    match dispatch("model/list", &Json::Null, 0) {
        Dispatch::Done(h) => {
            let v = h.reply.unwrap();
            assert_eq!(v.array_at("data").unwrap()[0].str_at("id"), Some("hermes-agent"));
        }
        Dispatch::Needs(_) => panic!("needs"),
    }
    let hello = initialize("9", "/h", "linux").reply.unwrap();
    assert_eq!(hello.str_at("userAgent"), Some("hermes-bridge/9"));
}

#[test]
fn archiving_is_undone() {
    let mut index = ThreadIndex::new_in_memory();
    start(&mut index, "th", "/a");
    let before = index.get_by_thread("th").unwrap();
    handle_thread_archive(&mut index, "th", 6);
    assert!(index.get_by_thread("th").unwrap().archived);
    handle_thread_unarchive(&mut index, "th", 7, &around());
    let after = index.get_by_thread("th").unwrap();
    assert!(!after.archived);
    assert_eq!(after.updated_at, 7);
    assert_eq!(after.name, before.name);
    assert_eq!(after.cwd, before.cwd);
    assert_eq!(after.created_at, before.created_at);
}

#[test]
fn turns_are_logged_live_and_rebuilt() {
    let mut log = TurnLog::new();
    log.start_logged_turn("th", "live", 5_000);
    log.push_logged_item(
        "th",
        "live",
        item_from_json(&j(r#"{"type":"agentMessage","id":"i","text":"hello"}"#)).unwrap(),
    );
    log.complete_logged_turn("th", "live", None, 9_000);
    assert_eq!(log.of_thread("th").len(), 1);
    assert!(log.of_thread("other").is_empty());
    let mut r = record("th", "old", HermesTurnStatus::Completed);
    r.accumulated_text = s("earlier");
    r.completed_at = Some(3);
    let rebuilt = vec![
        turn_from_run_record(&r, &vec![]),
        turn_from_run_record(&record("th", "live", HermesTurnStatus::Unknown), &vec![]),
    ];
    let all = logged_turns(log.of_thread("th"), rebuilt);
    let ids: Vec<&str> = all.iter().map(|t| t.id.as_str()).collect();
    assert_eq!(ids, vec!["old", "live"]);
    assert_eq!(all[1].items.len(), 1);
    assert_eq!(all[1].to_json().str_at("status"), Some("completed"));
}

#[test]
fn what_follows_an_outcome_does_not_change_it() {
    let mut store = RunStore::new_in_memory();
    store.upsert(record("t", "tu", HermesTurnStatus::Running));
    store.mark_terminal("tu", HermesTurnStatus::Failed, Some(s("why")), None, 3);
    store.touch_text("tu", "late text", 4);
    store.note_event_seq("tu", 9, 5);
    store.note_event_seq("tu", 4, 6);
    let got = store.get_by_turn("tu").unwrap();
    assert_eq!(got.status, HermesTurnStatus::Failed);
    assert_eq!(got.last_event_seq, Some(9));
    assert_eq!(store.mark_orphans_unknown(7).len(), 0);
    assert_eq!(HermesTurnStatus::from_str("failed"), Some(HermesTurnStatus::Failed));
    assert_eq!(HermesTurnStatus::Unknown.as_str(), "unknown");
}
