//! The plugin boundary data: process and argument kind codes, and the
//! registration table, plus the redacted cover display.

use cef_bridge::ffi::{plugin_api_table, NCMProcessType, NativeAPIType};
use cef_bridge::model::CoverSource;

#[test]
fn process_codes_round_trip() {
    let kinds = [
        NCMProcessType::Undetected,
        NCMProcessType::Main,
        NCMProcessType::Renderer,
        NCMProcessType::GpuProcess,
        NCMProcessType::Utility,
    ];
    for k in kinds {
        assert_eq!(NCMProcessType::from_code(k.code()), Some(k));
    }
    assert_eq!(NCMProcessType::Renderer.code(), 0x10);
    assert_eq!(NCMProcessType::from_code(0x2), None);
}

#[test]
fn only_the_renderer_process_registers_the_api() {
    assert!(NCMProcessType::Renderer.registers_api());
    assert!(!NCMProcessType::Main.registers_api());
    assert!(!NCMProcessType::Undetected.registers_api());
}

#[test]
fn argument_kinds_carry_their_wire_codes() {
    assert_eq!(NativeAPIType::Int.code(), 0);
    assert_eq!(NativeAPIType::Boolean.code(), 1);
    assert_eq!(NativeAPIType::Double.code(), 2);
    assert_eq!(NativeAPIType::Text.code(), 3);
    assert_eq!(NativeAPIType::V8Value.code(), 4);
}

#[test]
fn the_registration_table_lists_every_entry_point() {
    let table = plugin_api_table();
    let names: Vec<&str> = table.iter().map(|r| r.identifier).collect();
    assert_eq!(
        names,
        vec![
            "inflink.initialize",
            "inflink.register_logger",
            "inflink.set_log_level",
            "inflink.shutdown",
            "inflink.register_event_callback",
            "inflink.dispatch",
        ]
    );
    assert_eq!(table[1].arg, Some(NativeAPIType::V8Value));
    assert_eq!(table[5].arg, Some(NativeAPIType::Text));
    assert_eq!(table[0].arg, None);
}

#[test]
fn cover_sources_redact_inline_data_in_display_form() {
    let url = CoverSource::Url(String::from("https://x/y.jpg"));
    assert_eq!(url.redacted(), "Url(https://x/y.jpg)");
    let inline = CoverSource::Base64(String::from("aGVsbG8="));
    assert_eq!(inline.redacted(), "Base64(<...omitted...>)");
}
