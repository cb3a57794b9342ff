//! Comparing transcripts.

use alleycat::conformance::diff::{FrameVerdict, compare, schema_only};
use alleycat::conformance::divergence::KnownDivergence;
use alleycat::conformance::finding::{ConformanceReport, Finding, write_finding_detail};
use alleycat::conformance::fingerprint::fingerprint;
use alleycat::conformance::method_surface::{
    ProbeContext, STANDARD_REQUEST_METHODS, assert_method_response, min_params_for, min_params_for_with,
    response_frame,
};
use alleycat::conformance::semantics::{SemanticContext, check_all, contains_text};
use alleycat::conformance::streaming::check;
use alleycat::conformance::targets::{TargetSpawn, plan_acp};
use alleycat::conformance::transcript::{
    ALL_TARGETS, AssistantName, Frame, FrameKind, TargetId, Transcript,
};
use alleycat::conformance::upstream_schema::{
    Candidate, SchemaDir, judge, method_to_pascal, missing_message, schema_dir, schema_file, show_complaints, validate,
};
use alleycat::json::Json;
use alleycat::json_text::{parse, render};

fn j(text: &str) -> Json {
    parse(text).expect("json")
}

fn frame(step: &str, method: &str, kind: FrameKind, raw: Json) -> Frame {
    Frame { step: step.to_string(), method: method.to_string(), kind, raw }
}

fn helper() -> AssistantName {
    AssistantName::new("helper").expect("a free name")
}

fn passed() -> FrameVerdict {
    FrameVerdict { deserialize_error: None, upstream_error: None }
}

#[test]
fn identical_transcripts_have_no_findings() {
    let mut a = Transcript::new(TargetId::Codex);
    let mut b = Transcript::new(TargetId::Pi);
    let resp = r#"{
        "jsonrpc": "2.0",
        "id": 1,
        "result": {
            "userAgent": "x", "codexHome": "/tmp",
            "platformFamily": "unix", "platformOs": "linux"
        }
    }"#;
    a.push(frame("initialize", "initialize", FrameKind::Response, j(resp)));
    b.push(frame("initialize", "initialize", FrameKind::Response, j(resp)));
    let report = compare(&a, &b, &vec![passed()]);
    assert!(report.is_clean(), "{}", report.render(&helper()));
}

#[test]
fn missing_field_is_flagged() {
    let mut a = Transcript::new(TargetId::Codex);
    let mut b = Transcript::new(TargetId::Pi);
    a.push(frame(
        "step",
        "initialize",
        FrameKind::Response,
        j(r#"{
            "jsonrpc": "2.0", "id": 1,
            "result": {"userAgent": "x", "codexHome": "/h", "platformFamily": "u", "platformOs": "l"}
        }"#),
    ));
    b.push(frame(
        "step",
        "initialize",
        FrameKind::Response,
        j(r#"{
            "jsonrpc": "2.0", "id": 1,
            "result": {"userAgent": "x", "platformFamily": "u", "platformOs": "l"}
        }"#),
    ));
    let verdict = FrameVerdict {
        deserialize_error: Some("missing field `codexHome`".to_string()),
        upstream_error: None,
    };
    let report = compare(&a, &b, &vec![verdict]);
    assert!(!report.is_clean());
    let has_key_diff = report.findings.iter().any(|f| {
        matches!(f, Finding::KeyDifference { missing, .. } if missing.contains("codexHome"))
    });
    assert!(has_key_diff, "{}", report.render(&helper()));
}

#[test]
fn opencode_known_divergence_is_quiet() {
    let mut a = Transcript::new(TargetId::Codex);
    let b = Transcript::new(TargetId::Opencode);
    a.push(frame(
        "turn/start",
        "thread/started",
        FrameKind::Notification,
        j(r#"{"jsonrpc": "2.0", "method": "thread/started", "params": {"thread": {}}}"#),
    ));
    let report = compare(&a, &b, &vec![]);
    assert!(!report.findings.iter().any(
        |f| matches!(f, Finding::MissingNotification { method, .. } if method == "thread/started")
    ));
}

#[test]
fn a_missing_notification_is_found_where_it_is_expected() {
    let mut a = Transcript::new(TargetId::Codex);
    let b = Transcript::new(TargetId::Codex);
    a.push(frame(
        "turn/start",
        "turn/completed",
        FrameKind::Notification,
        j(r#"{"method": "turn/completed", "params": {}}"#),
    ));
    let report = compare(&a, &b, &vec![]);
    assert!(report.findings.iter().any(
        |f| matches!(f, Finding::MissingNotification { method, .. } if method == "turn/completed")
    ));
}

#[test]
fn frames_that_do_not_decode_are_findings() {
    let mut t = Transcript::new(TargetId::Droid);
    t.push(frame("initialize", "initialize", FrameKind::Response, j(r#"{"id":1,"result":{}}"#)));
    let verdict = FrameVerdict {
        deserialize_error: Some("missing field".to_string()),
        upstream_error: None,
    };
    let findings = schema_only(&t, &vec![verdict]);
    assert!(findings.iter().any(
        |f| matches!(f, Finding::SchemaError { message, .. } if message.contains("missing field"))
    ));
    assert!(schema_only(&t, &vec![passed()]).is_empty());
}

fn notification(step: &str, method: &str, raw: Json) -> Frame {
    frame(step, method, FrameKind::Notification, raw)
}

fn started(id: &str, kind: &str) -> Frame {
    notification(
        "turn/start",
        "item/started",
        j(&format!(r#"{{"params":{{"item":{{"id": "{id}", "type": "{kind}", "text": ""}}}}}}"#)),
    )
}

fn delta(method: &str, item_id: &str, delta_text: &str) -> Frame {
    notification(
        "turn/start",
        method,
        j(&format!(r#"{{"params":{{"itemId": "{item_id}", "delta": "{delta_text}"}}}}"#)),
    )
}

fn completed(id: &str, kind: &str, text: &str) -> Frame {
    notification(
        "turn/start",
        "item/completed",
        j(&format!(
            r#"{{"params":{{"item":{{"text":"{text}","id":"{id}","type":"{kind}"}}}}}}"#
        )),
    )
}

fn messages(findings: &[Finding]) -> Vec<String> {
    findings
        .iter()
        .map(|f| match f {
            Finding::SchemaError { message, .. } => message.clone(),
            other => write_finding_detail(other),
        })
        .collect()
}

#[test]
fn agent_message_clean_lifecycle() {
    let mut t = Transcript::new(TargetId::Pi);
    t.push(started("m1", "agentMessage"));
    t.push(delta("item/agentMessage/delta", "m1", "O"));
    t.push(delta("item/agentMessage/delta", "m1", "K"));
    t.push(completed("m1", "agentMessage", "OK"));
    let findings = check(&t);
    assert!(findings.is_empty(), "{:?}", messages(&findings));
}

#[test]
fn delta_with_wrong_item_id_is_flagged() {
    let mut t = Transcript::new(TargetId::Opencode);
    t.push(started("m1", "agentMessage"));
    t.push(delta("item/agentMessage/delta", "p1", "OK"));
    t.push(completed("m1", "agentMessage", "OK"));
    let findings = check(&t);
    assert!(
        findings.iter().any(|f| matches!(
            f, Finding::SchemaError { message, .. }
            if message.contains("itemId=p1") && message.contains("no matching item/started")
        )),
        "{:?}",
        messages(&findings)
    );
}

#[test]
fn reasoning_without_started_is_flagged() {
    let mut t = Transcript::new(TargetId::Opencode);
    t.push(delta("item/reasoning/textDelta", "p1", "Got it"));
    let findings = check(&t);
    assert!(!findings.is_empty());
}

#[test]
fn final_text_mismatch_is_flagged() {
    let mut t = Transcript::new(TargetId::Pi);
    t.push(started("m1", "agentMessage"));
    t.push(delta("item/agentMessage/delta", "m1", "OK"));
    t.push(completed("m1", "agentMessage", "DIFFERENT"));
    let findings = check(&t);
    assert!(
        findings.iter().any(|f| matches!(
            f, Finding::SchemaError { message, .. }
            if message.contains("final text")
        )),
        "{:?}",
        messages(&findings)
    );
}

#[test]
fn a_mismatch_quotes_both_texts() {
    let mut t = Transcript::new(TargetId::Pi);
    t.push(started("m1", "agentMessage"));
    t.push(delta("item/agentMessage/delta", "m1", "OK"));
    t.push(completed("m1", "agentMessage", "DIFF"));
    let findings = check(&t);
    assert!(messages(&findings).iter().any(|m| m
        .contains("agentMessage final text \"DIFF\" does not match concatenated deltas \"OK\"")));
}

#[test]
fn agent_message_without_delta_is_flagged() {
    let mut t = Transcript::new(TargetId::Pi);
    t.push(started("m1", "agentMessage"));
    t.push(completed("m1", "agentMessage", "OK"));
    let findings = check(&t);
    assert!(
        findings.iter().any(|f| matches!(
            f, Finding::SchemaError { message, .. }
            if message.contains("produced no deltas")
        )),
        "{:?}",
        messages(&findings)
    );
}

#[test]
fn a_missing_notification_is_reported_once() {
    let mut a = Transcript::new(TargetId::Codex);
    let b = Transcript::new(TargetId::Pi);
    let raw = r#"{
        "jsonrpc": "2.0", "method": "turn/diff/updated",
        "params": {"threadId": "t", "turnId": "u", "diff": "d"}
    }"#;
    a.push(frame("turn/start", "turn/diff/updated", FrameKind::Notification, j(raw)));
    let report = compare(&a, &b, &vec![]);
    assert_eq!(report.findings.len(), 1, "{}", report.render(&helper()));
    assert!(matches!(
        &report.findings[0],
        Finding::MissingNotification { step, method }
            if step == "turn/start" && method == "turn/diff/updated"
    ));
}

#[test]
fn a_delta_after_completion_is_flagged() {
    let mut t = Transcript::new(TargetId::Pi);
    t.push(started("m1", "agentMessage"));
    t.push(delta("item/agentMessage/delta", "m1", "OK"));
    t.push(completed("m1", "agentMessage", "OK"));
    assert!(check(&t).is_empty());
    t.push(delta("item/agentMessage/delta", "m1", "X"));
    let findings = check(&t);
    assert!(
        messages(&findings)
            .iter()
            .any(|m| m.contains("delta for itemId=m1 arrived after item/completed")),
        "{:?}",
        messages(&findings)
    );
}

#[test]
fn the_assistant_has_a_name_of_its_own() {
    assert!(AssistantName::new("codex").is_none());
    assert!(AssistantName::new("hermes").is_none());
    assert_eq!(helper().as_str(), "helper");
    let name = helper();
    for a in ALL_TARGETS {
        for b in ALL_TARGETS {
            assert_eq!(a == b, a.label(&name) == b.label(&name));
        }
    }
}

#[test]
fn methods_are_capitalized_part_by_part() {
    assert_eq!(method_to_pascal(""), "");
    assert_eq!(method_to_pascal("/"), "");
    assert_eq!(method_to_pascal("mcpServer/oauth/login"), "McpServerOauthLogin");
    assert_eq!(method_to_pascal("a//b/"), "AB");
    assert_eq!(method_to_pascal("\u{df}x"), "SSx");
    for (a, b) in [("thread", "read"), ("item/agentMessage", "delta"), ("", "x"), ("x", "")] {
        let whole = method_to_pascal(&format!("{a}/{b}"));
        assert_eq!(whole, method_to_pascal(a) + &method_to_pascal(b));
    }
}

#[test]
fn capitals_hold_no_slash() {
    for c in '\0'..=char::MAX {
        let r = method_to_pascal(&c.to_string());
        assert!(!r.contains('/'), "{c:?}");
        if c.is_ascii() && c != '/' {
            assert_eq!(r, c.to_ascii_uppercase().to_string());
        }
    }
}

#[test]
fn method_to_pascal_handles_slashes_and_camel() {
    assert_eq!(method_to_pascal("thread/read"), "ThreadRead");
    assert_eq!(method_to_pascal("item/completed"), "ItemCompleted");
    assert_eq!(method_to_pascal("item/agentMessage/delta"), "ItemAgentMessageDelta");
    assert_eq!(method_to_pascal("turn/start"), "TurnStart");
}

#[test]
fn schemas_are_named_after_method_and_kind() {
    let r = frame("s", "thread/read", FrameKind::Response, Json::Null);
    let n = frame("s", "item/completed", FrameKind::Notification, Json::Null);
    assert_eq!(schema_file(&r), "ThreadReadResponse.json");
    assert_eq!(schema_file(&n), "ItemCompletedNotification.json");
}

#[test]
fn frames_are_held_against_their_schema() {
    let schema = j(
        r#"{"type":"object","required":["name"],"properties":{"name":{"type":"string"}}}"#,
    );
    let good = frame("s", "m", FrameKind::Response, j(r#"{"id":1,"result":{"name":"x"}}"#));
    let bad = frame("s", "m", FrameKind::Response, j(r#"{"id":1,"result":{"name":7}}"#));
    assert!(validate(&good, TargetId::Pi, Some(&schema)).is_ok());
    let message = validate(&bad, TargetId::Pi, Some(&schema)).unwrap_err();
    assert!(message.contains("/name"), "{message}");
    assert!(validate(&bad, TargetId::Pi, None).is_ok());
    let broken = j(r#"{"type":"no such type"}"#);
    assert!(validate(&bad, TargetId::Pi, Some(&broken)).is_ok());
}

#[test]
fn a_frame_that_fails_its_schema_is_told_all_that_is_wrong() {
    let schema = j(r#"{"properties":{"a":{"type":"string"},"b":{"type":"string"}}}"#);
    let bad = frame("s", "m", FrameKind::Notification, j(r#"{"params":{"a":1,"b":2}}"#));
    for target in [TargetId::Codex, TargetId::Pi] {
        assert_eq!(
            validate(&bad, target, Some(&schema)).unwrap_err(),
            r#"/a: 1 is not of type "string"; /b: 2 is not of type "string""#
        );
    }
    let tier = j(
        r#"{"properties":{"serviceTier":{"anyOf":[{"enum":["fast","flex"]},{"type":"null"}]},"x":{"type":"null"}}}"#,
    );
    let stale = frame("s", "m", FrameKind::Response, j(r#"{"result":{"serviceTier":"priority"}}"#));
    assert!(validate(&stale, TargetId::Codex, Some(&tier)).is_ok());
    assert!(validate(&stale, TargetId::Pi, Some(&tier)).is_err());
    let worse =
        frame("s", "m", FrameKind::Response, j(r#"{"result":{"serviceTier":"priority","x":1}}"#));
    let message = validate(&worse, TargetId::Codex, Some(&tier)).unwrap_err();
    assert!(message.starts_with("/serviceTier: \"priority\" is not valid"), "{message}");
    assert!(message.ends_with(r#"; /x: 1 is not of type "null""#), "{message}");
}

#[test]
fn a_service_tier_that_old_schemas_lack_is_forgiven_to_codex() {
    let stale = vec!["/serviceTier: \"priority\" is not valid under any of the schemas".to_string()];
    assert!(judge(TargetId::Codex, FrameKind::Response, &stale).is_ok());
    assert!(judge(TargetId::Pi, FrameKind::Response, &stale).is_err());
    assert!(judge(TargetId::Codex, FrameKind::Notification, &stale).is_err());
    let both = vec![stale[0].clone(), "/x: wrong".to_string()];
    assert_eq!(
        judge(TargetId::Codex, FrameKind::Response, &both).unwrap_err(),
        format!("{}; /x: wrong", stale[0])
    );
    assert!(judge(TargetId::Pi, FrameKind::Response, &vec![]).is_ok());
}

#[test]
fn the_schema_directory_is_named_or_found() {
    let here = || Some(Candidate { path: "/here".to_string(), is_dir: true });
    let gone = || Some(Candidate { path: "/gone".to_string(), is_dir: false });
    assert!(matches!(schema_dir(Some("1"), here(), here()), SchemaDir::Skipped(_)));
    assert!(matches!(schema_dir(None, here(), gone()), SchemaDir::Found(p) if p == "/here"));
    assert!(matches!(schema_dir(Some("0"), None, here()), SchemaDir::Found(p) if p == "/here"));
    assert!(matches!(schema_dir(None, gone(), here()), SchemaDir::Missing(_)));
    assert!(matches!(schema_dir(None, None, None), SchemaDir::Missing(_)));
    let text = missing_message(&Some("/gone".to_string()), &None);
    assert!(text.contains("/gone"), "{text}");
}

#[test]
fn the_reference_has_no_divergence_and_bridges_have_some() {
    let codex = KnownDivergence::for_target(TargetId::Codex);
    assert!(!codex.skips_notification("thread/started"));
    let opencode = KnownDivergence::for_target(TargetId::Opencode);
    assert!(opencode.skips_notification("thread/started"));
}

#[test]
fn targets_have_labels_of_their_own() {
    let name = helper();
    let labels: Vec<&str> = ALL_TARGETS.iter().map(|t| t.label(&name)).collect();
    assert_eq!(labels[0], "codex");
    for i in 0..labels.len() {
        for k in 0..i {
            assert_ne!(labels[i], labels[k]);
        }
    }
}

#[test]
fn fingerprints_list_the_paths_of_a_payload() {
    let f = frame(
        "s",
        "m",
        FrameKind::Response,
        j(r#"{"id":1,"result":{"a":{"b":1},"list":[{"c":2}]}}"#),
    );
    let set = fingerprint(&f);
    assert!(set.contains("a"));
    assert!(set.contains("a.b"));
    assert!(!set.contains("b"));
}

#[test]
fn reports_name_the_methods_that_failed() {
    let report = ConformanceReport {
        target: TargetId::Pi,
        findings: vec![
            Finding::UnexpectedError {
                step: "s".to_string(),
                method: "thread/read".to_string(),
                code: -32601,
                message: "no".to_string(),
            },
            Finding::MissingNotification {
                step: "s".to_string(),
                method: "turn/started".to_string(),
            },
        ],
    };
    assert!(!report.is_clean());
    assert!(report.failed_methods().contains("thread/read"));
    let text = report.render(&helper());
    assert!(text.contains("thread/read"), "{text}");
    assert!(text.contains("-32601"), "{text}");
}

#[test]
fn texts_are_found_at_any_depth() {
    let v = j(r#"{"a":[{"b":"needle in here"}],"c":3}"#);
    assert!(contains_text(&v, "needle"));
    assert!(!contains_text(&v, "thread"));
    assert!(!contains_text(&v, ""));
}

#[test]
fn an_empty_transcript_has_no_semantic_findings_of_its_own() {
    let t = Transcript::new(TargetId::Pi);
    assert!(check_all(&t).is_empty());
    let mut t = Transcript::new(TargetId::Pi);
    t.semantic_ctx = Some(SemanticContext::new("marker".to_string(), "prompt".to_string()));
    let findings = check_all(&t);
    for f in &findings {
        assert!(matches!(f, Finding::SemanticViolation { .. }));
    }
}

#[test]
fn every_standard_method_has_parameters_to_probe_with() {
    for method in STANDARD_REQUEST_METHODS.iter() {
        let p = min_params_for(method);
        assert!(p.is_object() || p.is_null());
    }
    let mut ctx = ProbeContext::default();
    ctx.thread_id = Some("th-7".to_string());
    let p = min_params_for_with("thread/read", &ctx);
    assert_eq!(p.str_at("threadId"), Some("th-7"));
    assert_eq!(render(&min_params_for("feedback/upload")), r#"{"classification":"other"}"#);
}

#[test]
fn unimplemented_methods_are_findings() {
    let f = response_frame(
        "probe",
        "thread/read",
        j(r#"{"id":1,"error":{"code":-32601,"message":"method not found"}}"#),
    );
    assert!(assert_method_response(&f, TargetId::Pi).is_some());
    let ok = response_frame("probe", "thread/read", j(r#"{"id":1,"result":{}}"#));
    assert!(assert_method_response(&ok, TargetId::Pi).is_none());
}

#[test]
fn an_acp_agent_needs_both_programs() {
    let opts = || TargetSpawn {
        bridge_bin: Some("bridge".to_string()),
        backend_bin: Some("grok".to_string()),
    };
    let plan = plan_acp(opts(), None).unwrap();
    assert_eq!(plan.program, "bridge");
    assert_eq!(plan.agent_bin, "grok");
    assert_eq!(plan.agent_args, "acp");
    let plan = plan_acp(opts(), Some("agent stdio".to_string())).unwrap();
    assert_eq!(plan.agent_args, "agent stdio");
    assert!(plan_acp(TargetSpawn { bridge_bin: None, backend_bin: None }, None).is_err());
}

#[test]
fn transcripts_are_looked_at_by_kind() {
    let mut t = Transcript::new(TargetId::Pi);
    t.frames.push(frame("s", "thread/start", FrameKind::Response, j(r#"{"id":1,"result":{}}"#)));
    t.frames.push(frame("s", "b", FrameKind::Notification, j(r#"{"method":"b"}"#)));
    t.frames.push(frame("s", "a", FrameKind::Notification, j(r#"{"method":"a"}"#)));
    assert_eq!(t.responses().len(), 1);
    assert_eq!(t.notifications().len(), 2);
    assert_eq!(t.notification_methods(), vec!["b", "a"]);
}

#[test]
fn complaints_name_their_place() {
    let all = vec![("/a".to_string(), "bad".to_string())];
    assert_eq!(show_complaints(&all), vec!["/a: bad"]);
}
