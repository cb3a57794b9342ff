//! Runs of the Hermes gateway, from the first event to the stored turn.

use alleycat::codex::policy::AskForApproval;
use alleycat::codex::thread::UserInput;
use alleycat::hermes::api_client::{ApprovalChoice, CreateRunResponse};
use alleycat::hermes::bridge::{HermesBridge, TurnStartParams};
use alleycat::hermes::config::{HermesBridgeConfig, HermesMode};
use alleycat::hermes::event_store::{EventStore, NormalizedHermesEvent, event_line};
use alleycat::hermes::index::ThreadIndex;
use alleycat::hermes::run_manager::{
    Forward, FrameBuffer, PollReply, RunIds, RunOutcome, Translator, agent_started,
    approval_decision, poll_step, stream_outcome, translate_event,
};
use alleycat::hermes::run_state::{HermesTurnStatus, RunStore};
use alleycat::hermes::sse::parse_sse_frames;
use alleycat::hermes::threads::{
    Surroundings, ThreadStartParams, handle_thread_read, handle_thread_start,
};
use alleycat::hermes::turn_log::{logged_turns, turn_from_run_record};
use alleycat::json::{Json, ToJson};
use alleycat::json_text::parse;

fn j(text: &str) -> Json {
    parse(text).expect("json")
}

fn s(t: &str) -> String {
    t.to_string()
}

fn around() -> Surroundings {
    Surroundings { version: s("1"), default_cwd: s("/w") }
}

fn make_bridge() -> HermesBridge {
    let config = HermesBridgeConfig {
        mode: HermesMode::Api { api_base: s("http://127.0.0.1:1") },
        state_dir: None,
        health_timeout_ms: 1000,
        health_cache_ttl_ms: 0,
    };
    let mut bridge = HermesBridge::new(
        config,
        ThreadIndex::new_in_memory(),
        RunStore::new_in_memory(),
        EventStore::new_in_memory(),
        None,
        1,
    );
    let p = ThreadStartParams {
        cwd: Some(s("/tmp")),
        model: None,
        approval_policy: Some(AskForApproval::Never),
        approvals_reviewer: None,
        sandbox: None,
        permission_profile: None,
    };
    handle_thread_start(&mut bridge.index, &p, "th", "ses", 1, &around());
    bridge
}

fn ids() -> RunIds {
    RunIds {
        run_id: s("run-test"),
        turn_id: s("tu"),
        thread_id: s("th"),
        agent_item_id: s("item"),
    }
}

fn start_turn(bridge: &mut HermesBridge, policy: AskForApproval) -> bool {
    let p = TurnStartParams {
        thread_id: s("th"),
        input: vec![UserInput::Text { text: s("hi"), text_elements: vec![] }],
        cwd: None,
        model: None,
        approval_policy: Some(policy),
    };
    let open = bridge.handle_turn_start(&p, "tu", "user", 2).ok().unwrap();
    bridge.record_starting("th", "tu", &open.session_id, "item", 2);
    let run =
        CreateRunResponse::from_json(&j(r#"{"run_id":"run-test","status":"started"}"#)).unwrap();
    bridge.session_given(&p, &run, 3);
    let record = bridge.run_accepted("th", "tu", &open.session_id, "item", &run.run_id, 3);
    assert!(bridge.run_manager.ensure_run(&record));
    HermesBridge::auto_approves(&p)
}

/// What came of a run: the events in order, the log, and the choice that the gateway got.
struct Ran {
    events: Vec<NormalizedHermesEvent>,
    log: String,
    choices: Vec<ApprovalChoice>,
}

impl Ran {
    fn keep(&mut self, event: NormalizedHermesEvent) {
        self.log.push_str(&event_line(&event));
        self.log.push('\n');
        self.events.push(event);
    }

    fn completed(&self) -> &Json {
        let done = self.events.iter().find(|e| e.method == "turn/completed");
        done.expect("turn/completed must arrive").params.get("turn").unwrap()
    }
}

/// Streams a run in chunks of a few characters.
fn pump(bridge: &mut HermesBridge, auto: bool, body: &str) -> Ran {
    let ids = ids();
    let mut ran = Ran { events: Vec::new(), log: String::new(), choices: Vec::new() };
    let mut client = Translator::new();
    ran.keep(bridge.run_manager.persist_and_publish(&ids, agent_started(&ids), 4, 4));
    client.on_replay(1);
    let mut frames = FrameBuffer::new();
    let mut text = String::new();
    let mut outcome: Option<RunOutcome> = None;
    let chars: Vec<char> = body.chars().collect();
    let mut pending: Vec<String> = Vec::new();
    for chunk in chars.chunks(7) {
        frames.push(&chunk.iter().collect::<String>());
        while let Some(frame) = frames.next_frame() {
            pending.push(frame);
        }
    }
    pending.extend(frames.trailing());
    for frame in pending {
        for event in parse_sse_frames(&frame) {
            if outcome.is_some() {
                continue;
            }
            let t = translate_event(&ids, &mut text, auto, &event);
            for p in t.publish {
                let e = bridge.run_manager.persist_and_publish(&ids, p, 5, 5);
                if matches!(client.on_live(&e), Forward::Prompt) {
                    ran.choices.push(approval_decision(Some(&j(r#"{"choice":"once"}"#))).0);
                }
                ran.keep(e);
            }
            outcome = stream_outcome(&mut text, &t.next);
        }
    }
    let outcome = match outcome {
        Some(outcome) => outcome,
        None => {
            let lost = PollReply::Missing;
            poll_step(&mut text, &lost, false, "Hermes SSE stream ended without terminal event")
                .unwrap()
        }
    };
    for e in bridge.run_manager.finish(&ids, &text, &outcome, 6) {
        ran.keep(e);
    }
    ran
}

fn sse(event: &str, data: &str) -> String {
    format!("event: {event}\ndata: {data}\n\n")
}

fn happy_path() -> String {
    [
        sse("message.delta", r#"{"delta":"Hel"}"#),
        sse("message.delta", r#"{"delta":"lo"}"#),
        sse("message.delta", r#"{"delta":"!"}"#),
        sse("run.completed", r#"{"output":"Hello!"}"#),
    ]
    .concat()
}

#[test]
fn happy_path_streams_and_finalizes() {
    let mut bridge = make_bridge();
    let auto = start_turn(&mut bridge, AskForApproval::Never);
    let ran = pump(&mut bridge, auto, &happy_path());
    assert_eq!(ran.completed().str_at("status"), Some("completed"));
    let record = bridge.run_manager.run_store.get_by_turn("tu").unwrap();
    assert_eq!(record.accumulated_text, "Hello!");
    assert_eq!(bridge.run_manager.active_count(), 0);
}

#[test]
fn failure_propagates_with_error() {
    let mut bridge = make_bridge();
    let auto = start_turn(&mut bridge, AskForApproval::Never);
    let body = [
        sse("message.delta", r#"{"delta":"oops"}"#),
        sse("run.failed", r#"{"message":"boom"}"#),
    ]
    .concat();
    let ran = pump(&mut bridge, auto, &body);
    assert_eq!(ran.completed().str_at("status"), Some("failed"));
    assert!(ran.completed().str_at2("error", "message").unwrap().contains("boom"));
}

#[test]
fn terminal_in_trailing_chunk_still_completes() {
    let mut bridge = make_bridge();
    let auto = start_turn(&mut bridge, AskForApproval::Never);
    let mut body = sse("message.delta", r#"{"delta":"part1"}"#);
    body.push_str("event: run.completed\ndata: {\"output\":\"part1\"}\n");
    let ran = pump(&mut bridge, auto, &body);
    assert_eq!(ran.completed().str_at("status"), Some("completed"));
}

#[test]
fn approval_request_bridges_to_client() {
    let mut bridge = make_bridge();
    let auto = start_turn(&mut bridge, AskForApproval::UnlessTrusted);
    let body = [
        sse("message.delta", r#"{"delta":"start"}"#),
        sse(
            "approval.request",
            r#"{"choices":["once","session","always","deny"],"tool":"terminal"}"#,
        ),
        sse("approval.responded", r#"{"choice":"once"}"#),
        sse("message.delta", r#"{"delta":"-end"}"#),
        sse("run.completed", r#"{"output":"start-end"}"#),
    ]
    .concat();
    let ran = pump(&mut bridge, auto, &body);
    assert_eq!(ran.completed().str_at("status"), Some("completed"));
    assert_eq!(ran.choices, vec![ApprovalChoice::Once]);
}

#[test]
fn item_started_replays_to_late_subscriber() {
    let mut bridge = make_bridge();
    let auto = start_turn(&mut bridge, AskForApproval::Never);
    let ran = pump(&mut bridge, auto, &happy_path());
    let replay = EventStore::read_since(Some(&ran.log), 0);
    let started = replay.iter().find(|e| e.method == "item/started").unwrap();
    assert_eq!(started.params.str_at("threadId"), Some("th"));
    assert_eq!(replay.len(), ran.events.len());
}

#[test]
fn thread_read_recovers_turns_from_persistence_after_drop() {
    let mut bridge = make_bridge();
    let auto = start_turn(&mut bridge, AskForApproval::Never);
    let ran = pump(&mut bridge, auto, &happy_path());
    let runs = bridge.run_manager.run_store.persisted();
    let index = bridge.index;

    let store = RunStore::load(Some(&runs)).unwrap();
    let rebuilt = store
        .list_for_thread("th")
        .iter()
        .map(|r| turn_from_run_record(r, &EventStore::read_all(Some(&ran.log))))
        .collect();
    let turns: Vec<Json> = logged_turns(vec![], rebuilt).iter().map(|t| t.to_json()).collect();
    let read = handle_thread_read(&index, "th", true, turns, 9, &around()).reply.unwrap();
    let turns = read.get2("thread", "turns").unwrap().as_array().unwrap();
    assert!(!turns.is_empty());
    assert_eq!(turns.last().unwrap().str_at("status"), Some("completed"));
}

#[test]
fn a_run_that_the_gateway_lost_fails() {
    let mut bridge = make_bridge();
    let auto = start_turn(&mut bridge, AskForApproval::Never);
    pump(&mut bridge, auto, &sse("message.delta", r#"{"delta":"half"}"#));
    let record = bridge.run_manager.run_store.get_by_turn("tu").unwrap();
    assert_eq!(record.status, HermesTurnStatus::Failed);
    assert_eq!(
        record.error.as_deref(),
        Some("Hermes SSE stream ended without terminal event; gateway lost run record")
    );
}
