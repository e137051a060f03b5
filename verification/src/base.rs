//! An owning handle over a foreign reference-counted object.
//!
//! A handle always stands for exactly one held reference: taking a handle
//! from a raw pointer takes that reference over without touching the count,
//! duplicating a handle performs one `add_ref`, and giving a handle up
//! performs one `release`. Because the handle is not copyable, Rust's move
//! discipline makes each of those references impossible to release twice.

use vstd::prelude::*;

use crate::error::{CefError, CefResult};
use crate::runtime::Runtime;

verus! {

/// An owning smart pointer over one foreign reference-counted object. The
/// stored index plays the part of the object pointer; the object itself
/// lives in the [`Runtime`] heap.
pub struct CefRefPtr {
    pub id: usize,
}

impl CefRefPtr {
    /// The handle points at a live object: one whose reference count still
    /// covers the reference this handle owns.
    pub open spec fn valid(self, rt: Runtime) -> bool {
        rt.obj_alive(self.id as int)
    }

    /// Take ownership of one already-held reference from a raw pointer,
    /// without incrementing the count. Fails — and never panics — when the
    /// pointer is null.
    pub fn from_raw(ptr: Option<usize>) -> (r: CefResult<CefRefPtr>)
        ensures
            match r {
                Ok(h) => ptr == Some(h.id),
                Err(e) => ptr is None && e is NullPtrReceived,
            },
    {
        match ptr {
            Some(id) => Ok(CefRefPtr { id }),
            None => Err(CefError::NullPtrReceived),
        }
    }

    /// Borrow the underlying pointer without giving up the owned reference;
    /// the result may only be used while the handle lives.
    pub fn as_raw(&self) -> (r: usize)
        ensures
            r == self.id,
    {
        self.id
    }

    /// Give the owned reference away: the count is untouched and the caller
    /// becomes responsible for releasing it exactly once.
    pub fn into_raw(self) -> (r: usize)
        ensures
            r == self.id,
    {
        self.id
    }

    /// A second handle to the same object, backed by one `add_ref` through
    /// the object's function table.
    pub fn clone_ref(&self, rt: &mut Runtime) -> (r: CefRefPtr)
        requires
            old(rt).wf(),
            old(rt).can_add_ref(self.id as int),
        ensures
            final(rt).wf(),
            Runtime::obj_add_refed(*old(rt), *final(rt), self.id as int),
            r.id == self.id,
            r.valid(*final(rt)),
    {
        rt.add_ref(self.id);
        CefRefPtr { id: self.id }
    }

    /// Give the handle up, performing the matching `release` through the
    /// object's function table. The foreign side frees the object when its
    /// own count reaches zero.
    pub fn release(self, rt: &mut Runtime)
        requires
            old(rt).wf(),
            old(rt).can_release(self.id as int),
        ensures
            final(rt).wf(),
            Runtime::obj_released(*old(rt), *final(rt), self.id as int),
    {
        let _ = rt.release(self.id);
    }
}

} // verus!
