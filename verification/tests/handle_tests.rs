//! The owning handle: taking over, borrowing and giving up references,
//! with the instrumented runtime auditing every count.

use cef_bridge::base::CefRefPtr;
use cef_bridge::error::CefError;
use cef_bridge::runtime::{ObjectData, Runtime};

fn opaque(rt: &mut Runtime) -> usize {
    rt.new_object(ObjectData::Opaque)
}

#[test]
fn from_raw_null_fails_with_null_handle() {
    match CefRefPtr::from_raw(None) {
        Err(CefError::NullPtrReceived) => {}
        _ => panic!("a null pointer must fail with NullPtrReceived"),
    }
}

#[test]
fn from_raw_takes_over_without_touching_the_count() {
    let mut rt = Runtime::new();
    let id = opaque(&mut rt);
    let h = CefRefPtr::from_raw(Some(id)).unwrap();
    assert_eq!(h.as_raw(), id);
    assert_eq!(rt.objects[id].ref_count, 1);
    assert_eq!(rt.objects[id].add_ref_calls, 0);
    assert_eq!(rt.objects[id].release_calls, 0);
}

#[test]
fn clone_and_drop_balance_to_one_extra_release() {
    let mut rt = Runtime::new();
    let id = opaque(&mut rt);
    let h = CefRefPtr::from_raw(Some(id)).unwrap();

    // an arbitrary interleaving of clones and drops
    let a = h.clone_ref(&mut rt);
    let b = h.clone_ref(&mut rt);
    let c = a.clone_ref(&mut rt);
    b.release(&mut rt);
    let d = c.clone_ref(&mut rt);
    c.release(&mut rt);
    d.release(&mut rt);
    a.release(&mut rt);
    h.release(&mut rt);

    let o = &rt.objects[id];
    // net add_refs equal net releases minus the one reference from_raw took
    assert_eq!(o.add_ref_calls, 4);
    assert_eq!(o.release_calls, 5);
    assert_eq!(o.add_ref_calls + 1, o.release_calls);
    assert_eq!(o.ref_count, 0);
}

#[test]
fn into_raw_transfers_the_reference_without_a_release() {
    let mut rt = Runtime::new();
    let id = opaque(&mut rt);
    let h = CefRefPtr::from_raw(Some(id)).unwrap();
    let raw = h.into_raw();
    assert_eq!(raw, id);
    assert_eq!(rt.objects[id].ref_count, 1);
    assert_eq!(rt.objects[id].release_calls, 0);
    // the caller still owes the one release
    let again = CefRefPtr::from_raw(Some(raw)).unwrap();
    again.release(&mut rt);
    assert_eq!(rt.objects[id].ref_count, 0);
    assert_eq!(rt.objects[id].release_calls, 1);
}
