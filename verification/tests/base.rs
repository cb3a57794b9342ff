//! Texts, JSON, tables, and the vocabulary of the protocol.

use alleycat::codex::methods::Method;
use alleycat::codex::notifications::{RemoteControlConnectionStatus, ServerNotification, WarningNotification};
use alleycat::codex::thread::{
    TurnStatus, UserInput, completed_turn, in_progress_turn, input_from_json, item_from_json,
};
use alleycat::decode::{
    read_default_array, read_default_str, read_i64, read_maybe_i64, read_maybe_str, read_maybe_u64,
    read_str,
};
use alleycat::json::{Json, ToJson, texts_to_json};
use alleycat::json_text::{parse, render, render_pretty};
use alleycat::rpc::{
    INTERNAL_ERROR, INVALID_PARAMS, METHOD_NOT_FOUND, error_response, internal, invalid_params,
    method_not_found, reply_with, tell, turn_down,
};
use alleycat::text::{
    contains, decimal_i64, decimal_u64, ends_with, hexadecimal_u128, is_before, is_blank, join, lines,
    same, same_ignoring_ascii_case, show_duration, split, split_once, starts_with, strip_prefix,
    strip_suffix, take_chars, to_ascii_lowercase, trim, words,
};
use alleycat::text_map::TextMap;
use alleycat::text_set::{TextSet, set_of};

fn s(t: &str) -> String {
    t.to_string()
}

#[test]
fn texts_are_taken_apart() {
    assert!(same("a\u{e9}", "a\u{e9}"));
    assert!(!same("a", "b"));
    assert_eq!(trim("\u{2003} a b \t"), "a b");
    assert!(is_blank(" \n\u{a0}"));
    assert!(!is_blank(" x "));
    assert_eq!(split_once("a=b=c", '='), Some((s("a"), s("b=c"))));
    assert_eq!(split_once("abc", '='), None);
    assert_eq!(split("a,,b", ','), vec!["a", "", "b"]);
    assert_eq!(split("", ','), vec![""]);
    assert_eq!(lines("a\r\nb\n\nc"), vec!["a", "b", "", "c"]);
    assert_eq!(lines("a\n"), vec!["a"]);
    assert_eq!(words(" a  b\tc "), vec!["a", "b", "c"]);
    assert_eq!(strip_prefix("abc", "ab").as_deref(), Some("c"));
    assert_eq!(strip_prefix("abc", "b"), None);
    assert_eq!(strip_suffix("abc", "bc").as_deref(), Some("a"));
    assert!(contains("abcd", "bc"));
    assert!(contains("abcd", ""));
    assert!(!contains("abcd", "cb"));
    assert!(starts_with("abc", "ab"));
    assert!(ends_with("abc", "bc"));
    assert_eq!(take_chars("\u{e4}bc", 2), "\u{e4}b");
    assert_eq!(to_ascii_lowercase("A\u{c4}b"), "a\u{c4}b");
    assert!(same_ignoring_ascii_case("PaTh", "pAtH"));
    assert_eq!(join(&vec![s("a"), s("b")], ", "), "a, b");
}

#[test]
fn whitespace_is_what_unicode_says() {
    let blank = |c: char| {
        matches!(c, '\u{9}'..='\u{d}' | ' ' | '\u{85}' | '\u{a0}' | '\u{1680}')
            || matches!(c, '\u{2000}'..='\u{200a}' | '\u{2028}' | '\u{2029}' | '\u{202f}')
            || matches!(c, '\u{205f}' | '\u{3000}')
    };
    for c in '\u{0}'..=char::MAX {
        assert_eq!(is_blank(&c.to_string()), blank(c));
    }
}

#[test]
fn texts_are_ordered_like_their_bytes() {
    let all = ["", "a", "aa", "b", "z", "\u{e9}", "\u{ffff}", "\u{10000}"];
    for (i, a) in all.iter().enumerate() {
        for (k, b) in all.iter().enumerate() {
            assert_eq!(is_before(a, b), i < k);
            assert_eq!(is_before(a, b), a.as_bytes() < b.as_bytes());
        }
    }
}

#[test]
fn numbers_are_written() {
    assert_eq!(decimal_u64(u64::MAX), u64::MAX.to_string());
    assert_eq!(decimal_i64(i64::MIN), i64::MIN.to_string());
    assert_eq!(decimal_i64(0), "0");
    assert_eq!(hexadecimal_u128(u128::MAX), format!("{:x}", u128::MAX));
    for ms in [0, 1, 10, 999, 1_000, 1_500, 1_050, 60_000, 61_001] {
        let d = std::time::Duration::from_millis(ms);
        assert_eq!(show_duration(ms), format!("{d:?}"));
    }
}

#[test]
fn values_are_read_and_written() {
    let text = r#"{"a":[1,-2,true,null],"b":{"c":"d\n"},"n":1.5}"#;
    let v = parse(text).unwrap();
    assert_eq!(render(&v), text);
    assert_eq!(v.array_at("a").unwrap()[1].as_i64(), Some(-2));
    assert_eq!(v.array_at("a").unwrap()[1].as_u64(), None);
    assert_eq!(v.get("n").unwrap().as_i64(), None);
    assert_eq!(v.str_at2("b", "c"), Some("d\n"));
    assert!(v.is_object());
    assert!(v.array_at("a").unwrap()[3].is_null());
    assert!(parse("{").is_none());
    assert!(parse("{} x").is_none());
    assert_eq!(
        render_pretty(&parse(r#"{"a":[1]}"#).unwrap()),
        "{\n  \"a\": [\n    1\n  ]\n}"
    );
    // The last of two equal keys counts.
    let twice = parse(r#"{"k":1,"k":2}"#).unwrap();
    assert_eq!(twice.get("k").unwrap().as_i64(), Some(2));
    let max = Json::Uint(u64::MAX);
    assert_eq!(render(&max), u64::MAX.to_string());
    assert_eq!(parse(&render(&max)).unwrap().as_u64(), Some(u64::MAX));
    assert_eq!(max.as_i64(), None);
    assert_eq!(render(&Json::Int(i64::MIN)), i64::MIN.to_string());
}

#[test]
fn objects_are_built_field_by_field() {
    let v = Json::object().with("b", Json::Bool(true)).with("a", Json::Null);
    assert_eq!(render(&v), r#"{"a":null,"b":true}"#);
    let w = v.copy().with("a", Json::text("x"));
    assert_eq!(w.str_at("a"), Some("x"));
    assert!(v.get("a").unwrap().is_null());
    assert_eq!(w.bool_at("b"), Some(true));
    assert!(w.get("c").is_none());
    assert_eq!(render(&texts_to_json(&vec![s("p"), s("q")])), r#"["p","q"]"#);
    assert_eq!(render(&Json::opt_int(Some(-7))), "-7");
    assert!(Json::opt_int(None).is_null());
    assert!(Json::opt_str(&None).is_null());
    assert!(Json::array1(Json::Null).is_array());
}

#[test]
fn fields_are_decoded_strictly() {
    let v = parse(r#"{"s":"x","n":null,"i":-3,"u":9,"a":[1],"t":true}"#).unwrap();
    assert_eq!(read_str(&v, "s").as_deref(), Some("x"));
    assert_eq!(read_str(&v, "n"), None);
    assert_eq!(read_str(&v, "missing"), None);
    assert_eq!(read_maybe_str(&v, "n"), Some(None));
    assert_eq!(read_maybe_str(&v, "missing"), Some(None));
    assert_eq!(read_maybe_str(&v, "i"), None);
    assert_eq!(read_i64(&v, "i"), Some(-3));
    assert_eq!(read_i64(&v, "t"), None);
    assert_eq!(read_maybe_i64(&v, "i"), Some(Some(-3)));
    assert_eq!(read_maybe_u64(&v, "i"), None);
    assert_eq!(read_maybe_u64(&v, "u"), Some(Some(9)));
    assert_eq!(read_default_str(&v, "missing").as_deref(), Some(""));
    assert_eq!(read_default_str(&v, "n"), None);
    assert_eq!(read_default_array(&v, "missing").map(|a| a.len()), Some(0));
    assert_eq!(read_default_array(&v, "a").map(|a| a.len()), Some(1));
    assert!(read_default_array(&v, "s").is_none());
}

#[test]
fn tables_hold_one_value_per_key() {
    let mut m: TextMap<u32> = TextMap::new();
    m.insert("b", 1);
    m.insert("a", 2);
    m.insert("b", 3);
    assert_eq!(m.len(), 2);
    assert_eq!(m.get("b"), Some(&3));
    assert!(m.contains_key("a"));
    assert_eq!(m.entry(0).1, &3);
    assert_eq!(m.remove("b"), Some(3));
    assert_eq!(m.remove("b"), None);
    assert_eq!(m.len(), 1);
}

#[test]
fn sets_are_in_order() {
    let mut t = TextSet::new();
    assert!(t.is_empty());
    for x in ["b", "a", "c", "a"] {
        t.insert(x);
    }
    assert_eq!(t.len(), 3);
    assert_eq!([t.at(0), t.at(1), t.at(2)], ["a", "b", "c"]);
    assert!(t.contains("b"));
    let rest = t.without(&set_of(&vec![s("a"), s("z")]));
    assert_eq!(rest.len(), 2);
    assert!(!rest.contains("a"));
}

#[test]
fn replies_carry_codes_and_notifications() {
    assert_eq!(invalid_params("x").code, INVALID_PARAMS);
    assert_eq!(internal("x").code, INTERNAL_ERROR);
    let e = method_not_found("m");
    assert_eq!(e.code, METHOD_NOT_FOUND);
    assert!(e.message.contains("m"));
    assert_eq!(error_response(-5, "no").unwrap_err().message, "no");
    assert!(turn_down(1, "x").notify.is_empty());
    assert!(reply_with(Json::Null).reply.unwrap().is_null());
    let told = tell("n", Json::Bool(true), Json::Null);
    assert_eq!(told.notify.len(), 1);
    assert_eq!(told.notify[0].method, "n");
    assert!(told.reply.is_ok());
}

#[test]
fn methods_are_found_by_their_names() {
    for name in ["thread/start", "turn/start", "command/exec", "config/read", "model/list"] {
        assert_eq!(Method::of(name).unwrap().as_str(), name);
    }
    assert!(Method::of("thread/Start").is_none());
}

#[test]
fn notifications_have_a_method_and_parameters() {
    let n = ServerNotification::Warning(WarningNotification { thread_id: None, message: s("careful") });
    assert_eq!(n.method(), "warning");
    assert_eq!(n.params().str_at("message"), Some("careful"));
    assert_eq!(n.to_json().str_at("method"), Some("warning"));
    let status = RemoteControlConnectionStatus::from_str("connected").unwrap();
    assert_eq!(status.as_str(), "connected");
    assert!(RemoteControlConnectionStatus::from_str("sideways").is_none());
}

#[test]
fn inputs_and_items_read_back() {
    let text = r#"{"text":"@a","text_elements":[{"byteRange":{"end":2,"start":0}}],"type":"text"}"#;
    let input = input_from_json(&parse(text).unwrap()).unwrap();
    match &input {
        UserInput::Text { text, text_elements } => {
            assert_eq!(text, "@a");
            assert_eq!(text_elements.len(), 1);
        }
        _ => panic!("not a text"),
    }
    assert_eq!(render(&input.to_json()), text);
    let bare = r#"{"text":"hi","type":"text"}"#;
    assert_eq!(render(&input_from_json(&parse(bare).unwrap()).unwrap().to_json()), bare);
    let item = format!(r#"{{"content":[{text}],"id":"i","type":"userMessage"}}"#);
    let read = item_from_json(&parse(&item).unwrap()).unwrap();
    assert_eq!(render(&read.to_json()), item);
    for bad in [
        r#"{"id":"i","type":"userMessage"}"#,
        r#"{"id":"i","type":"agentMessage"}"#,
        r#"{"type":"agentMessage","text":"x"}"#,
        r#"{"id":"i"}"#,
        r#"{"content":[{"type":"text"}],"id":"i","type":"userMessage"}"#,
        "1",
    ] {
        assert!(item_from_json(&parse(bad).unwrap()).is_none(), "{bad}");
    }
}

#[test]
fn unknown_notifications_are_passed_on() {
    let params = parse(r#"{"a":1}"#).unwrap();
    let n = ServerNotification::Other { method: s("future/thing"), params };
    assert_eq!(n.method(), "future/thing");
    assert_eq!(render(&n.to_json()), r#"{"method":"future/thing","params":{"a":1}}"#);
}

#[test]
fn turns_begin_and_end() {
    let t = in_progress_turn("t", 5);
    assert_eq!(t.status, TurnStatus::InProgress);
    assert_eq!(t.to_json().str_at("status"), Some("inProgress"));
    let c = completed_turn("t", 5, 9);
    assert_eq!(c.status, TurnStatus::Completed);
    assert_eq!(c.to_json().get("completedAt").unwrap().as_i64(), Some(9));
    let i = UserInput::Text { text: s("hi"), text_elements: vec![] };
    assert_eq!(i.to_json().str_at("text"), Some("hi"));
    assert_eq!(i.to_json().str_at("type"), Some("text"));
}
