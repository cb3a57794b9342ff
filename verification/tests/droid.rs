//! The bridge to Droid.

use alleycat::codex::command_exec::CommandExecParams;
use alleycat::codex::methods::Method;
use alleycat::codex::policy::{AskForApproval, SandboxMode};
use alleycat::codex::thread::UserInput;
use alleycat::droid::bridge::{
    Dispatch, DroidBridge, ListedThread, SessionOpenMode, SortDirection, ThreadListParams, ThreadSortKey,
    autonomy_level, default_codex_home, finish_turn_start, handle_thread_archive,
    handle_thread_unarchive, handle_turn_steer, list_query, parse_cwd_filter, platform_family,
    program_failed, stored_name,
};
use alleycat::droid::commands::{
    CappedOutput, CommandFailure, command_answer, command_failed, plan_command,
};
use alleycat::droid::models::{ModelFamily, droid_models, normalize_model};
use alleycat::droid::process::{
    DroidProcess, DroidSpawnConfig, Heard, RequestEnd, request_result, response_id, spawn_spec,
};
use alleycat::droid::threads::{
    CompletedTurn, DroidSessionRef, IndexEntry, ThreadRecord, ThreadResumeParams, ThreadStartParams,
    input_to_text, last_text_preview, needs_transcript, refreshed_entry, resume_record, start_record,
};
use alleycat::json::{Json, ToJson};
use alleycat::json_text::{parse, render};
use alleycat::launch::launcher::{ProcessRole, StdioMode};
use alleycat::rpc::{Answer, INTERNAL_ERROR, INVALID_PARAMS, METHOD_NOT_FOUND};

fn j(text: &str) -> Json {
    parse(text).expect("json")
}

fn s(t: &str) -> String {
    t.to_string()
}

fn family() -> ModelFamily {
    ModelFamily { id: s("helper"), title: s("Helper") }
}

fn bridge() -> DroidBridge {
    DroidBridge::builder().codex_home("/home/codex").build(None, false, family())
}

fn start_params() -> ThreadStartParams {
    ThreadStartParams {
        cwd: Some(s("/proj")),
        model: Some(s(" droid/gpt-5.5 ")),
        approval_policy: None,
        sandbox: None,
        service_name: None,
    }
}

fn record(id: &str) -> ThreadRecord {
    start_record(&start_params(), "usual", id, "/cwd", 1_000, Some(s("/sessions/x.jsonl")))
}

fn refusal(a: Answer) -> (i64, String) {
    let e = a.reply.err().expect("refusal");
    (e.code, e.message)
}

#[test]
fn a_thread_is_started_with_its_program() {
    let mut b = bridge();
    let r = record("th");
    assert_eq!(r.model, "gpt-5.5");
    let plan = b.plan_open(&r, SessionOpenMode::Initialize).unwrap();
    assert_eq!(plan.method, "droid.initialize_session");
    assert_eq!(
        render(&plan.params),
        r#"{"autonomyLevel":"medium","cwd":"/proj","machineId":"alleycat-droid-bridge","modelId":"gpt-5.5","sessionId":"th"}"#
    );
    assert_eq!(plan.config.droid_bin, "droid");
    assert!(!b.is_loaded("th"));
    b.opened("th");
    assert!(b.is_loaded("th"));
    assert!(b.plan_open(&r, SessionOpenMode::Load).is_none());
    let done = b.finish_thread_start(r);
    assert_eq!(done.answer.notify[0].method, "thread/started");
    let reply = done.answer.reply.unwrap();
    assert_eq!(reply.str_at("model"), Some("gpt-5.5"));
    assert_eq!(reply.str_at("modelProvider"), Some("droid"));
    assert_eq!(reply.str_at("approvalPolicy"), Some("on-request"));
    assert_eq!(reply.str_at2("sandbox", "type"), Some("workspaceWrite"));
    assert_eq!(reply.str_at2("thread", "cwd"), Some("/proj"));
    let entry = done.entry.unwrap();
    assert_eq!(entry.metadata.droid_session_path, "/sessions/x.jsonl");
    assert!(!entry.archived);
    assert_eq!(
        render(&b.handle_thread_loaded_list().reply.unwrap()),
        r#"{"data":["th"],"nextCursor":null}"#
    );
}

#[test]
fn an_empty_directory_is_the_one_of_the_bridge() {
    let p = ThreadStartParams { cwd: Some(s("")), model: None, ..start_params() };
    let r = start_record(&p, bridge().usual_model().as_str(), "th", "/cwd", 1, None);
    assert_eq!(r.cwd, "/cwd");
    assert_eq!(r.model, "helper-sonnet-4-5-20250929");
    assert_eq!(r.path, None);
    let done = bridge().finish_thread_start(r);
    assert!(done.entry.is_none());
    assert_eq!(refusal(program_failed("boom")), (INTERNAL_ERROR, s("boom")));
}

fn entry(id: &str) -> IndexEntry {
    IndexEntry {
        thread_id: s(id),
        cwd: s("/proj"),
        created_at: 1,
        updated_at: 2,
        archived: false,
        name: None,
        preview: s("pre"),
        forked_from_id: None,
        model_provider: s("droid"),
        source: s("appServer"),
        metadata: DroidSessionRef {
            droid_session_path: s("/p.jsonl"),
            droid_session_id: s(id),
        },
    }
}

fn resume_params(id: &str) -> ThreadResumeParams {
    ThreadResumeParams {
        thread_id: s(id),
        model: None,
        approval_policy: Some(AskForApproval::Never),
        sandbox: Some(SandboxMode::ReadOnly),
        exclude_turns: false,
    }
}

#[test]
fn threads_are_resumed_from_the_bridge_or_the_index() {
    let mut b = bridge();
    let p = resume_params("th");
    let err = match b.record_to_resume(&p, None, None) {
        Ok(_) => panic!("found"),
        Err(e) => e,
    };
    assert_eq!(err.message, "thread `th` not found");
    let r = b.record_to_resume(&p, Some(&entry("th")), Some(s("kimi-k2.6"))).ok().unwrap();
    assert_eq!(r.model, "kimi-k2.6");
    assert!(needs_transcript(&r, false));
    assert!(!needs_transcript(&r, true));
    let r = resume_record(r, &p, vec![j(r#"{"id":"t1"}"#)]);
    assert_eq!(r.turns.len(), 1);
    let plan = b.plan_open(&r, SessionOpenMode::Load).unwrap();
    assert_eq!(plan.method, "droid.load_session");
    assert_eq!(plan.config.auto_level, "high");
    let reply = b.finish_thread_resume(r).reply.unwrap();
    assert_eq!(reply.str_at2("sandbox", "type"), Some("readOnly"));
    assert_eq!(reply.get2("thread", "turns").unwrap().as_array().unwrap().len(), 1);
    let again = b.record_to_resume(&p, None, None).ok().unwrap();
    let q = ThreadResumeParams { exclude_turns: true, model: Some(s("droid/x")), ..resume_params("th") };
    let again = resume_record(again, &q, vec![]);
    assert!(again.turns.is_empty());
    assert_eq!(again.model, "x");
}

#[test]
fn archive_and_names_need_a_thread_in_the_index() {
    assert_eq!(handle_thread_archive("th", true).notify[0].method, "thread/archived");
    assert_eq!(
        refusal(handle_thread_archive("th", false)),
        (INVALID_PARAMS, s("thread `th` not found"))
    );
    let a = handle_thread_unarchive("th", true, Some(j(r#"{"id":"th"}"#)));
    assert_eq!(a.notify[0].method, "thread/unarchived");
    assert_eq!(a.reply.unwrap().str_at2("thread", "id"), Some("th"));
    assert_eq!(refusal(handle_thread_unarchive("th", true, None)).0, INVALID_PARAMS);
    assert_eq!(refusal(handle_thread_unarchive("th", false, None)).0, INVALID_PARAMS);

    let mut b = bridge();
    b.finish_thread_start(record("th"));
    assert!(b.rename_request("th", " New ").is_none());
    b.opened("th");
    let (method, params) = b.rename_request("th", " New ").unwrap();
    assert_eq!(method, "droid.rename_session");
    assert_eq!(render(&params), r#"{"title":"New"}"#);
    let a = b.handle_thread_name_set("th", " New ", true, 77);
    assert_eq!(render(&a.notify[0].params), r#"{"threadId":"th","threadName":"New"}"#);
    let r = b.record("th").unwrap();
    assert_eq!(r.name.as_deref(), Some("New"));
    assert_eq!(r.updated_at, 77);
    b.handle_thread_name_set("th", "  ", true, 78);
    assert_eq!(b.record("th").unwrap().name, None);
    assert!(b.handle_thread_name_set("th", "x", false, 79).reply.is_err());
    assert_eq!(b.record("th").unwrap().updated_at, 78);
    assert_eq!(stored_name("\t a \n").as_deref(), Some("a"));
}

#[test]
fn turns_need_a_thread_and_its_program() {
    let mut b = bridge();
    let input = vec![
        UserInput::Text { text: s("look"), text_elements: vec![] },
        UserInput::Image { url: s("http://i") },
        UserInput::LocalImage { path: s("/i.png") },
        UserInput::Skill { name: s("sk"), path: s("/sk") },
        UserInput::Mention { name: s("me"), path: s("/me") },
    ];
    assert_eq!(
        input_to_text(&input),
        "look\n\n[image: http://i]\n\n[local image: /i.png]\n\n[skill: sk at /sk]\n\n[mention: me at /me]"
    );
    assert_eq!(input_to_text(&vec![]), "");
    let Err(a) = b.handle_turn_start("th", &input, "tu", 9) else { panic!("opened") };
    assert_eq!(refusal(a).1, "thread `th` not found");
    b.finish_thread_start(record("th"));
    let Err(a) = b.handle_turn_start("th", &input, "tu", 9) else { panic!("opened") };
    assert_eq!(refusal(a), (INVALID_PARAMS, s("thread `th` is not loaded")));
    assert!(b.interrupt_request("th").is_none());
    b.opened("th");
    assert_eq!(b.interrupt_request("th").unwrap().0, "droid.interrupt_session");
    let open = b.handle_turn_start("th", &input[..1].to_vec_inputs(), "tu", 9).ok().unwrap();
    assert_eq!(open.method, "droid.add_user_message");
    assert_eq!(render(&open.params), r#"{"files":[],"images":[],"text":"look"}"#);
    assert_eq!(open.cwd, "/proj");
    let told = open.answer.notify[0].params.get("turn").unwrap();
    assert_eq!(told.get("startedAt").unwrap().as_i64(), Some(9));
    let reply = open.answer.reply.as_ref().unwrap();
    assert!(reply.get2("turn", "startedAt").unwrap().is_null());
    assert_eq!(reply.str_at2("turn", "status"), Some("inProgress"));
    assert_eq!(refusal(finish_turn_start(open.answer, Some("dead"))).1, "dead");
    assert_eq!(handle_turn_steer("tu").str_at("turnId"), Some("tu"));
}

trait ToInputs {
    fn to_vec_inputs(&self) -> Vec<UserInput>;
}

impl ToInputs for [UserInput] {
    fn to_vec_inputs(&self) -> Vec<UserInput> {
        self.iter().map(|u| u.copy()).collect()
    }
}

#[test]
fn completed_turns_are_written_into_their_thread() {
    let mut b = bridge();
    b.finish_thread_start(record("th"));
    let done = |n: &str| CompletedTurn {
        turn_id: s(n),
        items: vec![j(r#"{"text":"first"}"#), j(r#"{"text":"the end"}"#), j(r#"{"x":1}"#)],
        completed_at: 100,
        duration_ms: 2_500,
    };
    let (preview, updated) = b.record_completed_turn("th", done("t1"));
    assert_eq!(preview, "the end");
    assert_eq!(updated, 100_000);
    b.record_completed_turn("th", done("t2"));
    let r = b.record("th").unwrap();
    assert_eq!(r.turns.len(), 2);
    assert_eq!(r.preview, "the end");
    assert_eq!(r.updated_at, 100_000);
    assert_eq!(r.turns[0].get("startedAt").unwrap().as_i64(), Some(98));
    assert_eq!(r.turns[0].str_at("status"), Some("completed"));
    let (preview, _) = b.record_completed_turn("unknown", done("t3"));
    assert_eq!(preview, "the end");
    assert!(b.record("unknown").is_none());

    let page = |direction, limit| {
        let a = b.handle_thread_turns_list("th", direction, limit, false, vec![]);
        let v = a.reply.unwrap();
        v.array_at("data")
            .unwrap()
            .iter()
            .map(|t| t.str_at("id").unwrap().to_string())
            .collect::<Vec<_>>()
    };
    assert_eq!(page(None, None), vec!["t2", "t1"]);
    assert_eq!(page(Some(SortDirection::Asc), None), vec!["t1", "t2"]);
    assert_eq!(page(None, Some(1)), vec!["t2"]);
    assert_eq!(page(None, Some(9)), vec!["t2", "t1"]);
    let a = b.handle_thread_turns_list("gone", None, None, true, vec![j(r#"{"id":"d"}"#)]);
    assert!(a.reply.is_ok());
    let a = b.handle_thread_turns_list("gone", None, None, false, vec![]);
    assert_eq!(refusal(a).1, "thread `gone` not found");
    let v = b.handle_thread_read("th", true, None, vec![]).reply.unwrap();
    assert_eq!(v.get2("thread", "turns").unwrap().as_array().unwrap().len(), 2);
    let v = b.handle_thread_read("th", false, None, vec![]).reply.unwrap();
    assert_eq!(v.get2("thread", "turns").unwrap().as_array().unwrap().len(), 0);
    let v = b
        .handle_thread_read("gone", true, Some(j(r#"{"id":"gone"}"#)), vec![j("{}")])
        .reply
        .unwrap();
    assert_eq!(v.get2("thread", "turns").unwrap().as_array().unwrap().len(), 1);
    assert!(b.handle_thread_read("gone", true, None, vec![]).reply.is_err());
}

#[test]
fn previews_are_cut() {
    let long = "x".repeat(300);
    let items = vec![j(&format!(r#"{{"text":"{long}"}}"#))];
    assert_eq!(last_text_preview(&items).len(), 240);
    assert_eq!(last_text_preview(&vec![]), "");
}

#[test]
fn what_clients_decided_survives_the_disk() {
    let mut known = entry("th");
    known.archived = true;
    known.name = Some(s("mine"));
    let mut scanned = entry("th");
    scanned.name = Some(s("theirs"));
    scanned.preview = s("newer");
    let merged = refreshed_entry(Some(&known), scanned).unwrap();
    assert!(merged.archived);
    assert_eq!(merged.name.as_deref(), Some("mine"));
    assert_eq!(merged.preview, "newer");
    let mut again = entry("th");
    again.preview = s("newer");
    assert!(refreshed_entry(Some(&merged), again).is_none());
    assert!(refreshed_entry(None, entry("th")).is_some());
}

#[test]
fn lists_are_asked_for_as_clients_want() {
    let p = ThreadListParams {
        archived: None,
        cwd: Some(j(r#"["/a",7,"/b"]"#)),
        search_term: None,
        sort_key: None,
        sort_direction: None,
    };
    let q = list_query(&p);
    assert!(!q.archived);
    assert_eq!(q.cwds, Some(vec![s("/a"), s("/b")]));
    assert_eq!(q.sort_key, ThreadSortKey::CreatedAt);
    assert_eq!(q.sort_direction, SortDirection::Desc);
    assert_eq!(parse_cwd_filter(Some(&j("\"/a\""))), Some(vec![s("/a")]));
    assert_eq!(parse_cwd_filter(Some(&j("7"))), None);
    assert_eq!(parse_cwd_filter(None), None);
    let mut b = bridge();
    b.opened("a");
    let page = vec![
        ListedThread { id: s("a"), thread: j(r#"{"id":"a","status":{"type":"notLoaded"}}"#) },
        ListedThread { id: s("b"), thread: j(r#"{"id":"b","status":{"type":"notLoaded"}}"#) },
    ];
    let v = b.handle_thread_list(page, None, Some(s("cur"))).reply.unwrap();
    assert_eq!(
        render(&v),
        r#"{"backwardsCursor":"cur","data":[{"id":"a","status":{"type":"idle"}},{"id":"b","status":{"type":"notLoaded"}}],"nextCursor":null}"#
    );
}

fn exec(command: &[&str]) -> CommandExecParams {
    CommandExecParams {
        command: command.iter().map(|c| s(c)).collect(),
        cwd: Some(s("/w")),
        env: Some(vec![(s("A"), Some(s("1"))), (s("B"), None)]),
        process_id: None,
        tty: false,
        stream_stdin: false,
        stream_stdout_stderr: false,
        disable_output_cap: false,
        output_bytes_cap: None,
        disable_timeout: false,
        timeout_ms: None,
    }
}

fn plan_error(p: CommandExecParams) -> String {
    match plan_command(&p) {
        Ok(_) => panic!("planned"),
        Err(e) => {
            assert_eq!(e.code, INVALID_PARAMS);
            e.message
        }
    }
}

#[test]
fn commands_are_planned() {
    let plan = plan_command(&exec(&["ls", "-l", "x"])).ok().unwrap();
    assert_eq!(plan.spec.role, ProcessRole::ToolCommand);
    assert_eq!(plan.spec.program, "ls");
    assert_eq!(plan.spec.args, vec![s("-l"), s("x")]);
    assert_eq!(plan.spec.env, vec![(s("A"), s("1"))]);
    assert_eq!(plan.spec.stdin, StdioMode::Null);
    assert_eq!(plan.cap, 256 * 1024);
    assert_eq!(plan.timeout_ms, Some(60_000));
    let p = CommandExecParams {
        disable_output_cap: true,
        disable_timeout: true,
        env: None,
        ..exec(&["ls"])
    };
    let plan = plan_command(&p).ok().unwrap();
    assert_eq!(plan.cap, usize::MAX);
    assert_eq!(plan.timeout_ms, None);
    let p = CommandExecParams { timeout_ms: Some(-5), ..exec(&["ls"]) };
    assert_eq!(plan_command(&p).ok().unwrap().timeout_ms, Some(0));
    assert_eq!(plan_error(exec(&[])), "empty command argv");
    assert_eq!(
        plan_error(CommandExecParams { tty: true, ..exec(&["ls"]) }),
        "droid-bridge command/exec supports buffered non-tty exec only"
    );
    assert_eq!(
        plan_error(CommandExecParams {
            disable_output_cap: true,
            output_bytes_cap: Some(1),
            ..exec(&["ls"])
        }),
        "disableOutputCap cannot be combined with outputBytesCap"
    );
    assert_eq!(
        plan_error(CommandExecParams {
            disable_timeout: true,
            timeout_ms: Some(1),
            ..exec(&["ls"])
        }),
        "disableTimeout cannot be combined with timeoutMs"
    );
}

#[test]
fn output_is_kept_up_to_its_cap() {
    let mut out = CappedOutput::new(5);
    assert_eq!(out.read_limit(), 5);
    out.accept(b"abc");
    assert_eq!(out.read_limit(), 2);
    out.accept(b"defg");
    assert_eq!(out.bytes(), b"abcde");
    assert_eq!(out.read_limit(), 0);
    assert_eq!(CappedOutput::new(usize::MAX).read_limit(), 8192);
    let v = command_answer(None, b"a\xff", b"").reply.unwrap();
    assert_eq!(v.get("exitCode").unwrap().as_i64(), Some(-1));
    assert_eq!(v.str_at("stdout"), Some("a\u{fffd}"));
    let why = |f| refusal(command_failed(&f));
    assert_eq!(why(CommandFailure::TimedOut), (INTERNAL_ERROR, s("command/exec timed out")));
    assert_eq!(why(CommandFailure::NoStdout).1, "child stdout was not piped");
    assert_eq!(why(CommandFailure::NoStderr).1, "child stderr was not piped");
    assert_eq!(why(CommandFailure::Failed(s("x"))).1, "x");
}

#[test]
fn models_are_offered_and_named() {
    let models = droid_models(&family());
    assert_eq!(models.len(), 12);
    assert_eq!(models[0].id, "helper-sonnet-4-5-20250929");
    assert!(models[0].is_default);
    assert_eq!(models[0].display_name, "Helper Sonnet 4.5");
    assert_eq!(models[1].id, "helper-opus-4-7");
    assert_eq!(models[3].display_name, "Helper Haiku 4.5");
    assert!(!models[1].is_default);
    let v = models[11].to_json();
    assert_eq!(v.str_at("displayName"), Some("Kimi K2.6"));
    assert_eq!(v.str_at("defaultReasoningEffort"), Some("high"));
    assert_eq!(v.array_at("supportedReasoningEfforts").unwrap().len(), 5);
    assert_eq!(normalize_model(Some("droid/x")).as_deref(), Some("x"));
    assert_eq!(normalize_model(Some(" x\t")).as_deref(), Some("x"));
    assert_eq!(normalize_model(None), None);
}

#[test]
fn approval_policies_become_autonomy() {
    assert_eq!(autonomy_level(&AskForApproval::Never), "high");
    assert_eq!(autonomy_level(&AskForApproval::OnFailure), "medium");
    assert_eq!(autonomy_level(&AskForApproval::OnRequest), "medium");
    assert_eq!(autonomy_level(&AskForApproval::UnlessTrusted), "low");
    assert_eq!(autonomy_level(&AskForApproval::Granular(Json::Null)), "low");
}

#[test]
fn bridges_are_built_from_what_was_said_or_the_environment() {
    let b = DroidBridge::builder()
        .agent_bin("/x/droid")
        .from_env(Some(s("/env/droid")), None, Some(s("")), Some(s("/sess")))
        .build(Some("/config"), false, family());
    assert_eq!(b.sessions_dir().as_deref(), Some("/sess"));
    assert_eq!(
        b.plan_open(&record("t"), SessionOpenMode::Load).unwrap().config.droid_bin,
        "/x/droid"
    );
    let hello = b.initialize("1.2", false, "linux").reply.unwrap();
    assert_eq!(
        render(&hello),
        r#"{"codexHome":"/config/droid-bridge","platformFamily":"unix","platformOs":"linux","userAgent":"alleycat-droid-bridge/1.2"}"#
    );
    let b = DroidBridge::builder().from_env(None, Some(s("/b")), None, None).build(None, false, family());
    assert_eq!(b.plan_open(&record("t"), SessionOpenMode::Load).unwrap().config.droid_bin, "/b");
    assert_eq!(default_codex_home(None, false), ".codex/droid-bridge");
    assert_eq!(platform_family(true), "windows");
    let b = DroidBridge::builder().factory_sessions_dir("/s").build(None, false, family());
    assert_eq!(b.sessions_dir().as_deref(), Some("/s"));
}

fn done(b: &DroidBridge, method: &str, params: &str, misshapen: Option<&str>) -> Answer {
    match b.dispatch(method, &j(params), misshapen, false) {
        Dispatch::Done(a) => a,
        Dispatch::Needs(m) => panic!("needs {m:?}"),
    }
}

#[test]
fn requests_are_answered_passed_on_or_refused() {
    let b = bridge();
    assert!(matches!(b.dispatch("turn/start", &j("{}"), None, false), Dispatch::Needs(Method::TurnStart)));
    assert_eq!(
        refusal(done(&b, "turn/start", "{}", Some("missing field"))),
        (INVALID_PARAMS, s("invalid params: missing field"))
    );
    assert_eq!(
        refusal(done(&b, "no/such", "{}", None)),
        (METHOD_NOT_FOUND, s("method `no/such` is not implemented"))
    );
    assert_eq!(refusal(done(&b, "thread/fork", "{}", None)).0, METHOD_NOT_FOUND);
    assert_eq!(refusal(done(&b, "thread/fork", "{}", Some("x"))).0, INVALID_PARAMS);
    // Absent parameters need no shape where there are defaults.
    assert!(done(&b, "account/read", "null", Some("x")).reply.is_ok());
    assert!(done(&b, "account/read", "7", Some("x")).reply.is_err());
    assert!(done(&b, "account/logout", "7", Some("x")).reply.is_ok());
    let v = done(&b, "config/read", r#"{"cwd":"/c","includeLayers":true}"#, None).reply.unwrap();
    assert_eq!(v.str_at2("config", "cwd"), Some("/c"));
    assert!(v.array_at("layers").unwrap().is_empty());
    let v = done(&b, "config/value/write", "{}", None).reply.unwrap();
    assert_eq!(v.str_at("filePath"), Some("/home/codex/config.toml"));
    let v = done(&b, "skills/list", r#"{"cwds":["/a","/b"]}"#, None).reply.unwrap();
    assert_eq!(v.array_at("data").unwrap()[1].str_at("cwd"), Some("/b"));
    let v = done(&b, "skills/config/write", r#"{"enabled":true}"#, None).reply.unwrap();
    assert_eq!(v.bool_at("effectiveEnabled"), Some(true));
    let v = done(&b, "mock/experimentalMethod", r#"{"value":"echo"}"#, None).reply.unwrap();
    assert_eq!(v.str_at("echoed"), Some("echo"));
    let v = done(&b, "model/list", "null", None).reply.unwrap();
    assert_eq!(v.array_at("data").unwrap().len(), 12);
}

fn spawn_config() -> DroidSpawnConfig {
    DroidSpawnConfig {
        thread_id: s("th"),
        cwd: s("/w"),
        droid_bin: s("droid"),
        model: Some(s("m")),
        auto_level: s("low"),
    }
}

#[test]
fn the_program_is_started_for_its_thread() {
    let spec = spawn_spec(&spawn_config());
    assert_eq!(
        spec.args,
        vec![
            "exec",
            "--input-format",
            "stream-jsonrpc",
            "--output-format",
            "stream-jsonrpc",
            "--auto",
            "low",
            "--cwd",
            "/w",
            "--model",
            "m",
        ]
    );
    assert_eq!(spec.cwd.as_deref(), Some("/w"));
    let spec = spawn_spec(&DroidSpawnConfig { model: None, ..spawn_config() });
    assert_eq!(spec.args.len(), 9);
}

#[test]
fn answers_of_the_program_reach_their_requests_once() {
    let mut p = DroidProcess::started(&spawn_config());
    assert_eq!(p.thread_id(), "th");
    assert_eq!(p.cwd(), "/w");
    let line = p.request("q1", "droid.load_session", j(r#"{"sessionId":"th"}"#));
    assert_eq!(
        line,
        r#"{"factoryApiVersion":"1.0.0","factoryProtocolVersion":"1.36.0","id":"q1","jsonrpc":"2.0","method":"droid.load_session","params":{"sessionId":"th"},"type":"request"}"#
    );
    assert!(matches!(p.hear("  "), Heard::Nothing));
    assert!(matches!(p.hear("no json"), Heard::Nothing));
    assert!(matches!(
        p.hear(r#"{"type":"notification","id":"q1"}"#),
        Heard::Message { answers: None, .. }
    ));
    let answer = r#" {"type":"response","id":"q1","result":{"ok":true}} "#;
    assert!(matches!(p.hear(answer), Heard::Message { answers: Some(id), .. } if id == "q1"));
    assert!(matches!(p.hear(answer), Heard::Message { answers: None, .. }));
    p.request("7", "x", Json::Null);
    assert!(matches!(
        p.hear(r#"{"type":"response","id":7}"#),
        Heard::Message { answers: Some(id), .. } if id == "7"
    ));
    p.request("q2", "x", Json::Null);
    p.forget("q2");
    assert!(matches!(
        p.hear(r#"{"type":"response","id":"q2"}"#),
        Heard::Message { answers: None, .. }
    ));
    assert_eq!(response_id(&j(r#"{"id":null}"#)), None);
    assert_eq!(response_id(&j("{}")), None);
}

#[test]
fn requests_come_to_a_result_or_a_reason() {
    let end = |e| request_result("m", e);
    assert_eq!(
        render(&end(RequestEnd::Answered(j(r#"{"result":{"a":1}}"#))).unwrap()),
        r#"{"a":1}"#
    );
    assert!(end(RequestEnd::Answered(j("{}"))).unwrap().is_null());
    assert_eq!(
        end(RequestEnd::Answered(j(r#"{"error":{"message":"no"}}"#))).unwrap_err(),
        "droid request `m` failed: no"
    );
    assert_eq!(
        end(RequestEnd::Answered(j(r#"{"error":{}}"#))).unwrap_err(),
        "droid request `m` failed: unknown error"
    );
    assert_eq!(end(RequestEnd::Cancelled).unwrap_err(), "droid request `m` was cancelled");
    assert_eq!(end(RequestEnd::TimedOut).unwrap_err(), "droid request `m` timed out");
    assert_eq!(end(RequestEnd::WriterClosed).unwrap_err(), "droid writer is closed");
}
