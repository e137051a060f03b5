//! The callback registry: register, clear, and the full relay chain from
//! dispatch through task execution to the registered function.

use cef_bridge::error::CefError;
use cef_bridge::registry::CallbackRegistry;
use cef_bridge::runtime::{ArgSnapshot, CallBehavior, ObjectData, Runtime};
use cef_bridge::string::{string_from_cef, CefString16};
use cef_bridge::task::execute_rust_closure;

fn stage(rt: &mut Runtime) -> (usize, usize) {
    let c = rt.new_object(ObjectData::Context {
        enter_available: true,
        enter_calls: 0,
        exit_calls: 0,
    });
    rt.current_context = Some(c);
    let f = rt.new_object(ObjectData::Function {
        behavior: CallBehavior::Returns,
        pending: None,
        calls: Vec::new(),
    });
    (c, f)
}

#[test]
fn register_with_null_pointer_fails_and_leaves_the_slot_empty() {
    let mut rt = Runtime::new();
    let (_c, _f) = stage(&mut rt);
    let mut reg = CallbackRegistry::new();
    match reg.register_callback(&mut rt, None) {
        Err(CefError::NullPtrReceived) => {}
        _ => panic!("a null function pointer must fail registration"),
    }
    assert!(reg.slot.is_none());
}

#[test]
fn register_without_current_context_gives_the_reference_back() {
    let mut rt = Runtime::new();
    let f = rt.new_object(ObjectData::Function {
        behavior: CallBehavior::Returns,
        pending: None,
        calls: Vec::new(),
    });
    let mut reg = CallbackRegistry::new();
    match reg.register_callback(&mut rt, Some(f)) {
        Err(CefError::NoCurrentV8Context) => {}
        _ => panic!("registration needs a current context"),
    }
    assert!(reg.slot.is_none());
    // the function reference handed in was released, not leaked
    assert_eq!(rt.objects[f].ref_count, 0);
    assert_eq!(rt.objects[f].release_calls, 1);
}

#[test]
fn register_captures_context_and_function() {
    let mut rt = Runtime::new();
    let (c, f) = stage(&mut rt);
    let mut reg = CallbackRegistry::new();
    assert!(reg.register_callback(&mut rt, Some(f)).is_ok());
    let cb = reg.slot.as_ref().unwrap();
    assert_eq!(cb.v8_function.id, f);
    assert_eq!(cb.v8_context.id, c);
    // the registry owns one fresh context reference and the handed-over
    // function reference
    assert_eq!(rt.objects[c].ref_count, 2);
    assert_eq!(rt.objects[f].ref_count, 1);
}

#[test]
fn clear_releases_the_pair_and_is_idempotent() {
    let mut rt = Runtime::new();
    let (c, f) = stage(&mut rt);
    let mut reg = CallbackRegistry::new();
    reg.register_callback(&mut rt, Some(f)).unwrap();
    reg.clear_callback(&mut rt);
    assert!(reg.slot.is_none());
    assert_eq!(rt.objects[c].ref_count, 1);
    assert_eq!(rt.objects[f].ref_count, 0);
    let releases_c = rt.objects[c].release_calls;
    let releases_f = rt.objects[f].release_calls;
    reg.clear_callback(&mut rt);
    assert_eq!(rt.objects[c].release_calls, releases_c);
    assert_eq!(rt.objects[f].release_calls, releases_f);
}

#[test]
fn register_then_dispatch_invokes_exactly_once_with_the_payload() {
    let mut rt = Runtime::new();
    let (_c, f) = stage(&mut rt);
    let mut reg = CallbackRegistry::new();
    reg.register_callback(&mut rt, Some(f)).unwrap();

    let posted = reg
        .dispatch_json(&mut rt, String::from("{\"type\":\"Play\"}"))
        .unwrap();
    assert!(posted);
    assert_eq!(rt.posted.len(), 1);

    // the scheduler executes the posted task
    let task_id = rt.posted[0];
    execute_rust_closure(&mut rt, &reg, task_id);

    match &rt.objects[f].data {
        ObjectData::Function { calls, .. } => {
            assert_eq!(calls.len(), 1);
            assert_eq!(calls[0].args.len(), 1);
            match &calls[0].args[0] {
                ArgSnapshot::Text(units) => {
                    let text = string_from_cef(&CefString16 { units: units.clone() });
                    assert_eq!(text, "{\"type\":\"Play\"}");
                }
                ArgSnapshot::Other => panic!("the argument must be a string value"),
            }
        }
        _ => panic!("the registered function must stay a callable"),
    }
}

#[test]
fn clear_then_dispatch_invokes_nothing() {
    let mut rt = Runtime::new();
    let (_c, f) = stage(&mut rt);
    let mut reg = CallbackRegistry::new();
    reg.register_callback(&mut rt, Some(f)).unwrap();
    reg.clear_callback(&mut rt);

    let posted = reg.dispatch_json(&mut rt, String::from("x")).unwrap();
    assert!(!posted);
    assert_eq!(rt.posted.len(), 0);
    match &rt.objects[f].data {
        ObjectData::Function { calls, .. } => assert_eq!(calls.len(), 0),
        _ => panic!("the function must stay a callable"),
    }
}

#[test]
fn registration_cleared_between_post_and_execute_drops_the_relay() {
    let mut rt = Runtime::new();
    let (_c, f) = stage(&mut rt);
    let mut reg = CallbackRegistry::new();
    reg.register_callback(&mut rt, Some(f)).unwrap();
    assert!(reg.dispatch_json(&mut rt, String::from("late")).unwrap());
    reg.clear_callback(&mut rt);

    execute_rust_closure(&mut rt, &reg, 0);
    match &rt.objects[f].data {
        ObjectData::Function { calls, .. } => assert_eq!(calls.len(), 0),
        _ => panic!("the function must stay a callable"),
    }
}

#[test]
fn dispatch_with_rejecting_runner_reports_post_failure() {
    let mut rt = Runtime::new();
    let (c, f) = stage(&mut rt);
    let mut reg = CallbackRegistry::new();
    reg.register_callback(&mut rt, Some(f)).unwrap();
    rt.post_accepts = false;
    match reg.dispatch_json(&mut rt, String::from("x")) {
        Err(CefError::TaskPostFailed) => {}
        _ => panic!("a rejected post must be reported"),
    }
    // the snapshot reference taken for the task was returned
    assert_eq!(rt.objects[c].ref_count, 2);
    assert_eq!(rt.tasks.len(), 0);
}

#[test]
fn replacing_a_registration_releases_the_previous_pair() {
    let mut rt = Runtime::new();
    let (c, f) = stage(&mut rt);
    let g = rt.new_object(ObjectData::Function {
        behavior: CallBehavior::FailsClean,
        pending: None,
        calls: Vec::new(),
    });
    let mut reg = CallbackRegistry::new();
    reg.register_callback(&mut rt, Some(f)).unwrap();
    reg.register_callback(&mut rt, Some(g)).unwrap();
    let cb = reg.slot.as_ref().unwrap();
    assert_eq!(cb.v8_function.id, g);
    assert_eq!(rt.objects[f].ref_count, 0);
    assert_eq!(rt.objects[g].ref_count, 1);
    // context: one reference released with the old pair, one fresh one taken
    assert_eq!(rt.objects[c].ref_count, 2);
    assert_eq!(rt.objects[c].add_ref_calls, 2);
    assert_eq!(rt.objects[c].release_calls, 1);
}
