//! The cross-thread task bridge: posting, the bridge's own reference
//! counting, at-most-once execution, and unwind containment.

use cef_bridge::base::CefRefPtr;
use cef_bridge::error::CefError;
use cef_bridge::registry::CallbackRegistry;
use cef_bridge::runtime::{ObjectData, Runtime};
use cef_bridge::task::{
    base_add_ref, base_has_at_least_one_ref, base_has_one_ref, base_release,
    execute_rust_closure, renderer_post_task_in_v8_ctx, TaskCallback,
};

fn context(rt: &mut Runtime, enter_available: bool) -> usize {
    rt.new_object(ObjectData::Context {
        enter_available,
        enter_calls: 0,
        exit_calls: 0,
    })
}

#[test]
fn post_hands_one_reference_to_the_scheduler() {
    let mut rt = Runtime::new();
    let c = context(&mut rt, true);
    let ctx = CefRefPtr::from_raw(Some(c)).unwrap();
    assert!(renderer_post_task_in_v8_ctx(&mut rt, ctx, TaskCallback::Quiet).is_ok());
    assert_eq!(rt.tasks.len(), 1);
    assert_eq!(rt.posted, vec![0usize]);
    assert_eq!(rt.tasks[0].ref_count, 1);
    assert_eq!(rt.tasks[0].add_ref_calls, 0);
    assert_eq!(rt.tasks[0].release_calls, 0);
    // handing the context over moved the caller's reference: no count traffic
    assert_eq!(rt.objects[c].ref_count, 1);
    assert_eq!(rt.objects[c].add_ref_calls, 0);
    assert_eq!(rt.objects[c].release_calls, 0);
}

#[test]
fn post_with_no_runner_fails_without_task_count_traffic() {
    let mut rt = Runtime::new();
    rt.runner_available = false;
    let c = context(&mut rt, true);
    let ctx = CefRefPtr::from_raw(Some(c)).unwrap();
    match renderer_post_task_in_v8_ctx(&mut rt, ctx, TaskCallback::Quiet) {
        Err(CefError::TaskPostFailed) => {}
        _ => panic!("an unavailable runner must fail the post"),
    }
    // no task left behind, no add_ref or release on any task object
    assert_eq!(rt.tasks.len(), 0);
    assert_eq!(rt.posted.len(), 0);
    // the context handle the caller gave up was released exactly once
    assert_eq!(rt.objects[c].ref_count, 0);
    assert_eq!(rt.objects[c].release_calls, 1);
    assert_eq!(rt.objects[c].add_ref_calls, 0);
}

#[test]
fn post_rejected_by_runner_reclaims_the_allocation() {
    let mut rt = Runtime::new();
    rt.post_accepts = false;
    let c = context(&mut rt, true);
    let ctx = CefRefPtr::from_raw(Some(c)).unwrap();
    match renderer_post_task_in_v8_ctx(&mut rt, ctx, TaskCallback::Quiet) {
        Err(CefError::TaskPostFailed) => {}
        _ => panic!("a rejected post must fail"),
    }
    assert_eq!(rt.tasks.len(), 0);
    assert_eq!(rt.objects[c].ref_count, 0);
    assert_eq!(rt.objects[c].release_calls, 1);
}

#[test]
fn task_vtable_counts_and_frees_on_last_release() {
    let mut rt = Runtime::new();
    let c = context(&mut rt, true);
    let ctx = CefRefPtr::from_raw(Some(c)).unwrap();
    renderer_post_task_in_v8_ctx(&mut rt, ctx, TaskCallback::Quiet).unwrap();

    base_add_ref(&mut rt, 0);
    assert_eq!(rt.tasks[0].ref_count, 2);
    assert_eq!(base_has_one_ref(&rt, 0), 0);
    assert_eq!(base_has_at_least_one_ref(&rt, 0), 1);

    assert_eq!(base_release(&mut rt, 0), 0);
    assert_eq!(base_has_one_ref(&rt, 0), 1);
    assert_eq!(base_release(&mut rt, 0), 1);

    // destroyed: callback and context given up, context released once
    assert!(rt.tasks[0].callback.is_none());
    assert!(rt.tasks[0].context.is_none());
    assert_eq!(rt.tasks[0].ref_count, 0);
    assert_eq!(rt.tasks[0].add_ref_calls + 1, rt.tasks[0].release_calls);
    assert_eq!(rt.objects[c].ref_count, 0);
    assert_eq!(rt.objects[c].release_calls, 1);
    assert_eq!(base_has_at_least_one_ref(&rt, 0), 0);
}

#[test]
fn callback_runs_at_most_once_on_spurious_replay() {
    let mut rt = Runtime::new();
    let reg = CallbackRegistry::new();
    let c = context(&mut rt, true);
    let ctx = CefRefPtr::from_raw(Some(c)).unwrap();
    renderer_post_task_in_v8_ctx(
        &mut rt,
        ctx,
        TaskCallback::InvokeRegistered { payload: String::from("x") },
    )
    .unwrap();

    execute_rust_closure(&mut rt, &reg, 0);
    assert!(rt.tasks[0].callback.is_none());
    match &rt.objects[c].data {
        ObjectData::Context { enter_calls, exit_calls, .. } => {
            assert_eq!(*enter_calls, 1);
            assert_eq!(*exit_calls, 1);
        }
        _ => panic!("the stored context must stay a context"),
    }

    // a buggy scheduler replays the slot: the callback slot is already empty
    execute_rust_closure(&mut rt, &reg, 0);
    assert!(rt.tasks[0].callback.is_none());
    match &rt.objects[c].data {
        ObjectData::Context { enter_calls, exit_calls, .. } => {
            assert_eq!(*enter_calls, 2);
            assert_eq!(*exit_calls, 2);
        }
        _ => panic!("the stored context must stay a context"),
    }
}

#[test]
fn contained_unwind_still_exits_the_context() {
    let mut rt = Runtime::new();
    let reg = CallbackRegistry::new();
    let c = context(&mut rt, true);
    let ctx = CefRefPtr::from_raw(Some(c)).unwrap();
    renderer_post_task_in_v8_ctx(&mut rt, ctx, TaskCallback::Unwinds).unwrap();

    // the unwind is contained — this call returns instead of aborting —
    // and the entered context is still exited
    execute_rust_closure(&mut rt, &reg, 0);
    assert_eq!(rt.contained_unwinds, 1);
    match &rt.objects[c].data {
        ObjectData::Context { enter_calls, exit_calls, .. } => {
            assert_eq!(*enter_calls, 1);
            assert_eq!(*exit_calls, 1);
        }
        _ => panic!("the stored context must stay a context"),
    }
}

#[test]
fn context_without_enter_slot_is_never_exited() {
    let mut rt = Runtime::new();
    let reg = CallbackRegistry::new();
    let c = context(&mut rt, false);
    let ctx = CefRefPtr::from_raw(Some(c)).unwrap();
    renderer_post_task_in_v8_ctx(&mut rt, ctx, TaskCallback::Unwinds).unwrap();
    execute_rust_closure(&mut rt, &reg, 0);
    match &rt.objects[c].data {
        ObjectData::Context { enter_calls, exit_calls, .. } => {
            assert_eq!(*enter_calls, 0);
            assert_eq!(*exit_calls, 0);
        }
        _ => panic!("the stored context must stay a context"),
    }
    assert_eq!(rt.contained_unwinds, 1);
}

#[test]
fn dropped_unexecuted_task_destroys_the_callback_uninvoked() {
    let mut rt = Runtime::new();
    let c = context(&mut rt, true);
    let ctx = CefRefPtr::from_raw(Some(c)).unwrap();
    renderer_post_task_in_v8_ctx(
        &mut rt,
        ctx,
        TaskCallback::InvokeRegistered { payload: String::from("never") },
    )
    .unwrap();
    // scheduler shutdown: the one reference is released without execution
    assert_eq!(base_release(&mut rt, 0), 1);
    assert!(rt.tasks[0].callback.is_none());
    match &rt.objects[c].data {
        ObjectData::Context { enter_calls, exit_calls, .. } => {
            assert_eq!(*enter_calls, 0);
            assert_eq!(*exit_calls, 0);
        }
        _ => panic!("the stored context must stay a context"),
    }
}
