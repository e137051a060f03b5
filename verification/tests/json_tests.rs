//! The wire format: JSON escaping, decimal rendering, and the serialized
//! forms of log entries, events and command results.

use cef_bridge::json::{u64_to_string, write_json_string};
use cef_bridge::logger::LogEntry;
use cef_bridge::model::{CommandResult, CommandStatus};
use cef_bridge::smtc_core::SmtcEvent;

fn json_string_of(s: &str) -> String {
    let mut out = String::new();
    write_json_string(&mut out, s);
    out
}

#[test]
fn plain_text_is_quoted_verbatim() {
    assert_eq!(json_string_of("hello"), "\"hello\"");
    assert_eq!(json_string_of(""), "\"\"");
    assert_eq!(json_string_of("caf\u{e9} \u{1f3a7}"), "\"caf\u{e9} \u{1f3a7}\"");
}

#[test]
fn specials_and_controls_are_escaped() {
    assert_eq!(json_string_of("a\"b"), "\"a\\\"b\"");
    assert_eq!(json_string_of("a\\b"), "\"a\\\\b\"");
    assert_eq!(json_string_of("a\nb\tc\rd"), "\"a\\nb\\tc\\rd\"");
    assert_eq!(json_string_of("\u{8}\u{c}"), "\"\\b\\f\"");
    assert_eq!(json_string_of("\u{1}\u{1f}"), "\"\\u0001\\u001f\"");
}

#[test]
fn decimal_rendering_is_exact() {
    assert_eq!(u64_to_string(0), "0");
    assert_eq!(u64_to_string(7), "7");
    assert_eq!(u64_to_string(10), "10");
    assert_eq!(u64_to_string(1427186361), "1427186361");
    assert_eq!(u64_to_string(u64::MAX), "18446744073709551615");
}

#[test]
fn log_entry_serializes_in_declaration_order() {
    let e = LogEntry {
        level: String::from("INFO"),
        message: String::from("hello \"world\""),
        target: String::from("session::core"),
    };
    assert_eq!(
        e.to_json(),
        "{\"level\":\"INFO\",\"message\":\"hello \\\"world\\\"\",\"target\":\"session::core\"}"
    );
}

#[test]
fn events_serialize_as_tagged_objects() {
    assert_eq!(SmtcEvent::Play.to_json(), "{\"type\":\"Play\"}");
    assert_eq!(SmtcEvent::Pause.to_json(), "{\"type\":\"Pause\"}");
    assert_eq!(SmtcEvent::Stop.to_json(), "{\"type\":\"Stop\"}");
    assert_eq!(SmtcEvent::NextSong.to_json(), "{\"type\":\"NextSong\"}");
    assert_eq!(SmtcEvent::PreviousSong.to_json(), "{\"type\":\"PreviousSong\"}");
    assert_eq!(SmtcEvent::ToggleShuffle.to_json(), "{\"type\":\"ToggleShuffle\"}");
    assert_eq!(SmtcEvent::ToggleRepeat.to_json(), "{\"type\":\"ToggleRepeat\"}");
    assert_eq!(
        SmtcEvent::Seek { position_ms: 93250 }.to_json(),
        "{\"type\":\"Seek\",\"position_ms\":93250}"
    );
}

#[test]
fn command_results_serialize_with_optional_message() {
    let ok = CommandResult { status: CommandStatus::Success, message: None };
    assert_eq!(ok.to_json(), "{\"status\":\"Success\"}");
    let err = CommandResult {
        status: CommandStatus::Error,
        message: Some(String::from("parse failed")),
    };
    assert_eq!(err.to_json(), "{\"status\":\"Error\",\"message\":\"parse failed\"}");
}

#[test]
fn wire_form_agrees_with_a_standard_json_parser() {
    let e = LogEntry {
        level: String::from("WARN"),
        message: String::from("line1\nline2 \u{1f3a7}"),
        target: String::from("t"),
    };
    let v: serde_json::Value = serde_json::from_str(&e.to_json()).unwrap();
    assert_eq!(v["level"], "WARN");
    assert_eq!(v["message"], "line1\nline2 \u{1f3a7}");
    assert_eq!(v["target"], "t");
}
