//! Log relaying: level parsing and filtering, field recording, and the
//! relay through the registry.

use cef_bridge::logger::{
    dispatch_log, level_enabled, parse_level, record_field, set_frontend_log_level, str_eq,
    LogEntry, LogLevel,
};
use cef_bridge::registry::CallbackRegistry;
use cef_bridge::runtime::{ArgSnapshot, CallBehavior, ObjectData, Runtime};
use cef_bridge::smtc_core::register_event_callback;
use cef_bridge::string::{string_from_cef, CefString16};
use cef_bridge::task::execute_rust_closure;

#[test]
fn level_directives_parse_case_insensitively() {
    assert_eq!(parse_level("TRACE"), Some(LogLevel::Trace));
    assert_eq!(parse_level("Info"), Some(LogLevel::Info));
    assert_eq!(parse_level("warn"), Some(LogLevel::Warn));
    assert_eq!(parse_level("OFF"), Some(LogLevel::Off));
    assert_eq!(parse_level("3"), Some(LogLevel::Info));
    assert_eq!(parse_level("0"), Some(LogLevel::Off));
    assert_eq!(parse_level("verbose"), None);
    assert_eq!(parse_level(""), None);
}

#[test]
fn set_level_rejects_unknown_directives_with_the_input_named() {
    let mut filter = LogLevel::Info;
    assert!(set_frontend_log_level(&mut filter, "debug").is_ok());
    assert_eq!(filter, LogLevel::Debug);
    match set_frontend_log_level(&mut filter, "chatty") {
        Err(m) => assert_eq!(m, "invalid log level: chatty"),
        Ok(()) => panic!("an unknown directive must be rejected"),
    }
    assert_eq!(filter, LogLevel::Debug);
}

#[test]
fn filter_passes_events_up_to_its_verbosity() {
    assert!(level_enabled(LogLevel::Info, LogLevel::Error));
    assert!(level_enabled(LogLevel::Info, LogLevel::Info));
    assert!(!level_enabled(LogLevel::Info, LogLevel::Debug));
    assert!(!level_enabled(LogLevel::Off, LogLevel::Error));
    assert!(level_enabled(LogLevel::Trace, LogLevel::Trace));
}

#[test]
fn fields_fold_into_the_message_text() {
    let mut m = String::new();
    record_field(&mut m, "message", "hello there");
    assert_eq!(m, "hello there");
    record_field(&mut m, "code", "7");
    assert_eq!(m, "hello there code=7");
    record_field(&mut m, "detail", "x");
    assert_eq!(m, "hello there code=7 detail=x");
    let mut fresh = String::new();
    record_field(&mut fresh, "code", "7");
    assert_eq!(fresh, "code=7");
    record_field(&mut fresh, "message", "replaced");
    assert_eq!(fresh, "replaced");
}

#[test]
fn str_eq_compares_by_characters() {
    assert!(str_eq("abc", "abc"));
    assert!(!str_eq("abc", "abd"));
    assert!(!str_eq("abc", "ab"));
    assert!(str_eq("", ""));
}

#[test]
fn log_relay_invokes_the_registered_callback_with_the_entry_json() {
    let mut rt = Runtime::new();
    let c = rt.new_object(ObjectData::Context {
        enter_available: true,
        enter_calls: 0,
        exit_calls: 0,
    });
    rt.current_context = Some(c);
    let f = rt.new_object(ObjectData::Function {
        behavior: CallBehavior::Returns,
        pending: None,
        calls: Vec::new(),
    });
    let mut reg = CallbackRegistry::new();
    reg.register_callback(&mut rt, Some(f)).unwrap();

    let entry = LogEntry {
        level: String::from("INFO"),
        message: String::from("ready"),
        target: String::from("bridge"),
    };
    assert!(dispatch_log(&reg, &mut rt, &entry).unwrap());
    execute_rust_closure(&mut rt, &reg, 0);

    match &rt.objects[f].data {
        ObjectData::Function { calls, .. } => {
            assert_eq!(calls.len(), 1);
            match &calls[0].args[0] {
                ArgSnapshot::Text(units) => {
                    let text = string_from_cef(&CefString16 { units: units.clone() });
                    assert_eq!(
                        text,
                        "{\"level\":\"INFO\",\"message\":\"ready\",\"target\":\"bridge\"}"
                    );
                }
                ArgSnapshot::Other => panic!("the entry must arrive as a string value"),
            }
        }
        _ => panic!("the callback must stay a callable"),
    }
}

#[test]
fn event_callback_without_session_gives_the_reference_back() {
    let mut rt = Runtime::new();
    let f = rt.new_object(ObjectData::Function {
        behavior: CallBehavior::Returns,
        pending: None,
        calls: Vec::new(),
    });
    let mut state = cef_bridge::smtc_core::SmtcState::new();
    assert!(register_event_callback(&mut state, &mut rt, Some(f)).is_ok());
    assert_eq!(rt.objects[f].ref_count, 0);
    assert_eq!(rt.objects[f].release_calls, 1);
}
