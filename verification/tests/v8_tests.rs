//! Scripting values: the current context, string marshaling round trips,
//! function invocation and the two null-return paths.

use cef_bridge::base::CefRefPtr;
use cef_bridge::error::CefError;
use cef_bridge::runtime::{CallBehavior, ExceptionInfo, ObjectData, Runtime};
use cef_bridge::string::{string_from_cef, string_from_cef_userfree, CefString16};

fn function(rt: &mut Runtime, behavior: CallBehavior) -> usize {
    rt.new_object(ObjectData::Function {
        behavior,
        pending: None,
        calls: Vec::new(),
    })
}

#[test]
fn current_returns_a_fresh_reference_to_the_current_context() {
    let mut rt = Runtime::new();
    let c = rt.new_object(ObjectData::Context {
        enter_available: true,
        enter_calls: 0,
        exit_calls: 0,
    });
    rt.current_context = Some(c);
    let h = CefRefPtr::current(&mut rt).unwrap();
    assert_eq!(h.id, c);
    assert_eq!(rt.objects[c].ref_count, 2);
    assert_eq!(rt.objects[c].add_ref_calls, 1);
}

#[test]
fn current_without_a_context_fails() {
    let mut rt = Runtime::new();
    match CefRefPtr::current(&mut rt) {
        Err(CefError::NoCurrentV8Context) => {}
        _ => panic!("no current context must be reported as such"),
    }
}

#[test]
fn string_round_trip_recovers_the_original_text() {
    let rt = Runtime::new();
    for text in ["", "hello", "caf\u{e9}", "\u{6e2c}\u{8a66}", "\u{1f3a7} music \u{1d11e}"] {
        let cs = CefString16::from_str(&rt, text).unwrap();
        let back = string_from_cef(&cs);
        assert_eq!(back, text);
    }
}

#[test]
fn from_string_stores_utf16_and_reads_back() {
    let mut rt = Runtime::new();
    let h = CefRefPtr::try_from_str(&mut rt, "a\u{1f3a7}b").unwrap();
    match &rt.objects[h.id].data {
        ObjectData::StringValue { units } => {
            // one unit for each basic-plane character, a pair beyond it
            assert_eq!(units.len(), 4);
            let back = string_from_cef(&CefString16 { units: units.clone() });
            assert_eq!(back, "a\u{1f3a7}b");
        }
        _ => panic!("from_string must create a string value"),
    }
    assert_eq!(rt.objects[h.id].ref_count, 1);
}

#[test]
fn userfree_decode_frees_and_null_decodes_empty() {
    let rt = Runtime::new();
    let cs = CefString16::from_str(&rt, "ok").unwrap();
    assert_eq!(string_from_cef_userfree(Some(cs)), "ok");
    assert_eq!(string_from_cef_userfree(None), "");
}

#[test]
fn string_conversion_failure_is_reported() {
    let mut rt = Runtime::new();
    rt.string_set_ok = false;
    match CefRefPtr::try_from_str(&mut rt, "x") {
        Err(CefError::StringConversionFailed) => {}
        _ => panic!("a failed conversion must be reported"),
    }
}

#[test]
fn value_creation_failure_is_reported() {
    let mut rt = Runtime::new();
    rt.value_creation_ok = false;
    match CefRefPtr::try_from_str(&mut rt, "x") {
        Err(CefError::V8ValueCreationFailed(_)) => {}
        _ => panic!("a failed value creation must be reported"),
    }
}

#[test]
fn execute_returning_value_wraps_it_and_consumes_arguments() {
    let mut rt = Runtime::new();
    let f = function(&mut rt, CallBehavior::Returns);
    let func = CefRefPtr::from_raw(Some(f)).unwrap();
    let arg = CefRefPtr::try_from_str(&mut rt, "arg").unwrap();
    let arg_id = arg.id;
    let ret = func.execute_function(&mut rt, None, vec![arg]).unwrap();
    // the callee released the argument reference it was handed
    assert_eq!(rt.objects[arg_id].ref_count, 0);
    assert_eq!(rt.objects[arg_id].release_calls, 1);
    // the returned value is a fresh owned handle
    assert_eq!(rt.objects[ret.id].ref_count, 1);
    match &rt.objects[f].data {
        ObjectData::Function { calls, .. } => assert_eq!(calls.len(), 1),
        _ => panic!("the callable must stay a callable"),
    }
}

#[test]
fn null_return_with_no_exception_is_execution_failure() {
    let mut rt = Runtime::new();
    let f = function(&mut rt, CallBehavior::FailsClean);
    let func = CefRefPtr::from_raw(Some(f)).unwrap();
    match func.execute_function(&mut rt, None, Vec::new()) {
        Err(CefError::V8FunctionExecutionFailed) => {}
        _ => panic!("a clean null return is the generic execution failure"),
    }
}

#[test]
fn null_return_with_exception_extracts_and_clears_it() {
    let mut rt = Runtime::new();
    let message = CefString16::from_str(&rt, "boom \u{1f4a5}").unwrap().units;
    let script = CefString16::from_str(&rt, "app.js").unwrap().units;
    let f = function(
        &mut rt,
        CallBehavior::Throws(ExceptionInfo { message, script, line: 12, column: 3 }),
    );
    let func = CefRefPtr::from_raw(Some(f)).unwrap();
    match func.execute_function(&mut rt, None, Vec::new()) {
        Err(CefError::V8Exception { message, script, line, column }) => {
            assert_eq!(message, "boom \u{1f4a5}");
            assert_eq!(script, "app.js");
            assert_eq!(line, 12);
            assert_eq!(column, 3);
        }
        _ => panic!("a pending exception must surface as V8Exception"),
    }
    // a subsequent query reports nothing pending: it was cleared
    assert!(!rt.has_exception(f));
    // the transient exception object was released again
    let last = rt.objects.len() - 1;
    assert_eq!(rt.objects[last].ref_count, 0);
    assert_eq!(rt.objects[last].release_calls, 1);
}

#[test]
fn execute_on_a_non_callable_fails_generically() {
    let mut rt = Runtime::new();
    let v = rt.new_object(ObjectData::Opaque);
    let h = CefRefPtr::from_raw(Some(v)).unwrap();
    match h.execute_function(&mut rt, None, Vec::new()) {
        Err(CefError::V8FunctionExecutionFailed) => {}
        _ => panic!("an object without an invocation slot fails generically"),
    }
}

#[test]
fn stray_surrogates_decode_as_replacement_characters() {
    // a lone high surrogate, a lone low surrogate, and a high surrogate
    // followed by a non-surrogate all become U+FFFD
    let lone_high = CefString16 { units: vec![0xD800] };
    assert_eq!(string_from_cef(&lone_high), "\u{fffd}");
    let lone_low = CefString16 { units: vec![0xDC00] };
    assert_eq!(string_from_cef(&lone_low), "\u{fffd}");
    let broken_pair = CefString16 { units: vec![0xD800, 0x0041] };
    assert_eq!(string_from_cef(&broken_pair), "\u{fffd}A");
    let real_pair = CefString16 { units: vec![0xD83C, 0xDFA7] };
    assert_eq!(string_from_cef(&real_pair), "\u{1f3a7}");
}
