//! Scripting values: the current context, string values, function
//! invocation, and exception extraction.
//!
//! Invoking a scripting function transfers ownership of every argument to
//! the callee — the callee releases the argument references, so handing it
//! a borrowed pointer would end in a double free. A null return is not
//! itself an error signal: only afterwards does the bridge ask whether an
//! exception is pending, and the two null paths — exception pending,
//! nothing pending — stay distinct all the way into the error type.

use vstd::prelude::*;

use crate::base::CefRefPtr;
use crate::error::{CefError, CefResult};
use crate::runtime::{
    ArgSnapshot,
    CallBehavior,
    CallRecord,
    ExceptionInfo,
    ForeignObject,
    ObjectData,
    Runtime,
    copy_units,
};
use crate::string::{CefString16, string_from_cef_userfree, utf16_decode, utf16_of};

verus! {

pub type CefV8Value = CefRefPtr;

pub type CefV8Context = CefRefPtr;

pub type CefV8Exception = CefRefPtr;

/// One `release` was observed on object `i`, its other fields untouched.
pub open spec fn released_at(pre: Runtime, post: Runtime, i: int) -> bool {
    &&& post.obj(i).ref_count == pre.obj(i).ref_count - 1
    &&& post.obj(i).add_ref_calls == pre.obj(i).add_ref_calls
    &&& post.obj(i).release_calls == pre.obj(i).release_calls + 1
    &&& post.obj(i).data == pre.obj(i).data
}

/// Some argument handle points at object `j`.
pub open spec fn is_arg_id(args: Seq<CefRefPtr>, j: int) -> bool {
    exists|k: int| 0 <= k < args.len() && (#[trigger] args[k]).id as int == j
}

/// The arguments can be handed over to a call on `func`: every handle is
/// live and releasable, none of them is the callee itself, and no two hand
/// over references to the same object.
pub open spec fn args_transferable(rt: Runtime, func: int, args: Seq<CefRefPtr>) -> bool {
    &&& forall|k: int| 0 <= k < args.len() ==> rt.can_release((#[trigger] args[k]).id as int)
    &&& forall|k: int| 0 <= k < args.len() ==> (#[trigger] args[k]).id as int != func
    &&& forall|k1: int, k2: int|
        #![trigger args[k1], args[k2]]
        0 <= k1 < k2 < args.len() ==> args[k1].id != args[k2].id
}

/// `s` is the snapshot the runtime records of argument `h`: the string
/// contents when `h` was a string value, opaque otherwise.
pub open spec fn snap_match_one(pre: Runtime, h: CefRefPtr, s: ArgSnapshot) -> bool {
    match pre.obj(h.id as int).data {
        ObjectData::StringValue { units } => s matches ArgSnapshot::Text(t) && t@ == units@,
        _ => s is Other,
    }
}

/// `snaps` records `args` one for one.
pub open spec fn snap_matches(pre: Runtime, args: Seq<CefRefPtr>, snaps: Seq<ArgSnapshot>) -> bool {
    &&& snaps.len() == args.len()
    &&& forall|k: int| 0 <= k < args.len() ==> snap_match_one(pre, args[k], #[trigger] snaps[k])
}

/// The callable at `func` was invoked once with `args`: its behaviour is
/// untouched, exactly one matching call record was appended, and its
/// pending exception is what the behaviour dictates.
pub open spec fn function_called(pre: Runtime, post: Runtime, func: int, args: Seq<CefRefPtr>) -> bool {
    match (pre.obj(func).data, post.obj(func).data) {
        (
            ObjectData::Function { behavior: b1, pending: p1, calls: c1 },
            ObjectData::Function { behavior: b2, pending: p2, calls: c2 },
        ) => {
            &&& b2 == b1
            &&& c2@.len() == c1@.len() + 1
            &&& c2@.drop_last() == c1@
            &&& snap_matches(pre, args, c2@.last().args@)
            &&& match b1 {
                CallBehavior::Throws(e) => p2 matches Some(p) && p.eqv(e),
                _ => p2 == p1,
            }
        },
        _ => false,
    }
}

/// As [`function_called`], but the pending exception has afterwards been
/// cleared.
pub open spec fn function_settled(pre: Runtime, post: Runtime, func: int, args: Seq<CefRefPtr>) -> bool {
    match (pre.obj(func).data, post.obj(func).data) {
        (
            ObjectData::Function { behavior: b1, pending: p1, calls: c1 },
            ObjectData::Function { behavior: b2, pending: p2, calls: c2 },
        ) => {
            &&& b2 == b1
            &&& p2 is None
            &&& c2@.len() == c1@.len() + 1
            &&& c2@.drop_last() == c1@
            &&& snap_matches(pre, args, c2@.last().args@)
        },
        _ => false,
    }
}

/// Every object other than `func` and the arguments is untouched, each
/// argument object saw exactly one `release`, and `func`'s own counters are
/// untouched.
pub open spec fn args_settled(pre: Runtime, post: Runtime, func: int, args: Seq<CefRefPtr>) -> bool {
    &&& forall|j: int|
        0 <= j < pre.n_objects() && j != func && !is_arg_id(args, j)
            ==> post.objects@[j] == pre.objects@[j]
    &&& forall|k: int| 0 <= k < args.len() ==> released_at(pre, post, (#[trigger] args[k]).id as int)
    &&& post.obj(func).ref_count == pre.obj(func).ref_count
    &&& post.obj(func).add_ref_calls == pre.obj(func).add_ref_calls
    &&& post.obj(func).release_calls == pre.obj(func).release_calls
}

impl Runtime {
    /// Whether a live context is current on the scripting thread.
    pub open spec fn current_live(self) -> bool {
        &&& self.current_context is Some
        &&& self.obj_alive(self.current_context->0 as int)
    }

    pub open spec fn current_id(self) -> int {
        self.current_context->0 as int
    }

    /// Record and consume the arguments of a function invocation: snapshot
    /// each argument, then release the reference it handed over.
    fn consume_args(&mut self, func: usize, args: Vec<CefRefPtr>) -> (recorded: Vec<ArgSnapshot>)
        requires
            old(self).wf(),
            func < old(self).objects@.len(),
            args_transferable(*old(self), func as int, args@),
        ensures
            final(self).wf(),
            Runtime::same_admin(*old(self), *final(self)),
            final(self).tasks == old(self).tasks,
            final(self).objects@.len() == old(self).objects@.len(),
            forall|j: int|
                0 <= j < old(self).n_objects() && !is_arg_id(args@, j)
                    ==> final(self).objects@[j] == old(self).objects@[j],
            forall|k: int|
                0 <= k < args@.len() ==> released_at(
                    *old(self),
                    *final(self),
                    (#[trigger] args@[k]).id as int,
                ),
            snap_matches(*old(self), args@, recorded@),
    {
        let mut recorded: Vec<ArgSnapshot> = Vec::new();
        let mut k: usize = 0;
        while k < args.len()
            invariant
                old(self).wf(),
                self.wf(),
                k <= args@.len(),
                func < old(self).objects@.len(),
                args_transferable(*old(self), func as int, args@),
                Runtime::same_admin(*old(self), *self),
                self.tasks == old(self).tasks,
                self.objects@.len() == old(self).objects@.len(),
                forall|j: int|
                    0 <= j < old(self).n_objects() && !is_arg_id(args@.take(k as int), j)
                        ==> self.objects@[j] == old(self).objects@[j],
                forall|m: int|
                    0 <= m < k ==> released_at(
                        *old(self),
                        *self,
                        (#[trigger] args@[m]).id as int,
                    ),
                snap_matches(*old(self), args@.take(k as int), recorded@),
            decreases args@.len() - k,
        {
            let id = args[k].id;
            proof {
                assert(args@[k as int].id as int == id as int);
                assert(!is_arg_id(args@.take(k as int), id as int));
                assert(self.objects@[id as int] == old(self).objects@[id as int]);
            }
            let snap = match &self.objects[id].data {
                ObjectData::StringValue { units } => ArgSnapshot::Text(copy_units(units)),
                _ => ArgSnapshot::Other,
            };
            recorded.push(snap);
            let _ = self.release(id);
            proof {
                assert(args@.take(k + 1) =~= args@.take(k as int).push(args@[k as int]));
                assert forall|j: int|
                    0 <= j < old(self).n_objects() && !is_arg_id(args@.take(k + 1), j) implies
                    self.objects@[j] == old(self).objects@[j] by {
                    if j == id as int {
                        assert((args@.take(k + 1)[k as int]).id as int == j);
                        assert(is_arg_id(args@.take(k + 1), j));
                    }
                    if is_arg_id(args@.take(k as int), j) {
                        let m = choose|m: int|
                            0 <= m < k && (#[trigger] args@.take(k as int)[m]).id as int == j;
                        assert(args@.take(k + 1)[m] == args@.take(k as int)[m]);
                        assert(is_arg_id(args@.take(k + 1), j));
                    }
                    assert(!is_arg_id(args@.take(k as int), j));
                }
                assert forall|m: int| 0 <= m < k + 1 implies released_at(
                    *old(self),
                    *self,
                    (#[trigger] args@[m]).id as int,
                ) by {
                    if m < k {
                        assert(args@[m].id != args@[k as int].id);
                    }
                }
                assert forall|m: int| 0 <= m < k + 1 implies snap_match_one(
                    *old(self),
                    args@.take(k + 1)[m],
                    #[trigger] recorded@[m],
                ) by {
                    if m < k {
                        assert(snap_match_one(*old(self), args@.take(k as int)[m], recorded@[m]));
                        assert(args@.take(k + 1)[m] == args@.take(k as int)[m]);
                    }
                }
            }
            k = k + 1;
        }
        proof {
            assert(args@.take(args@.len() as int) =~= args@);
        }
        recorded
    }

    /// The runtime's function-invocation entry point. When the object has
    /// no invocation slot, nothing happens and null comes back — the
    /// argument references are then stranded, exactly as when raw argument
    /// pointers are handed to a call that never runs. Otherwise the call is
    /// recorded, the arguments are consumed, and the callable's scripted
    /// behaviour decides between a fresh return value and a null return
    /// with or without a pending exception.
    pub fn execute_raw(&mut self, func: usize, args: Vec<CefRefPtr>) -> (r: Option<usize>)
        requires
            old(self).wf(),
            old(self).obj_alive(func as int),
            args_transferable(*old(self), func as int, args@),
        ensures
            final(self).wf(),
            Runtime::same_admin(*old(self), *final(self)),
            final(self).tasks == old(self).tasks,
            !(old(self).obj(func as int).data is Function) ==> r is None
                && *final(self) == *old(self),
            old(self).obj(func as int).data is Function ==> {
                &&& function_called(*old(self), *final(self), func as int, args@)
                &&& args_settled(*old(self), *final(self), func as int, args@)
                &&& if old(self).obj(func as int).data matches ObjectData::Function {
                    behavior: CallBehavior::Returns,
                    ..
                } {
                    &&& r matches Some(v) && v as int == old(self).n_objects()
                    &&& final(self).n_objects() == old(self).n_objects() + 1
                    &&& final(self).obj(old(self).n_objects()).ref_count == 1
                    &&& final(self).obj(old(self).n_objects()).add_ref_calls == 0
                    &&& final(self).obj(old(self).n_objects()).release_calls == 0
                    &&& final(self).obj(old(self).n_objects()).data is Opaque
                } else {
                    &&& r is None
                    &&& final(self).n_objects() == old(self).n_objects()
                }
            },
    {
        let is_function = match &self.objects[func].data {
            ObjectData::Function { .. } => true,
            _ => false,
        };
        if !is_function {
            return None;
        }
        let recorded = self.consume_args(func, args);
        proof {
            if is_arg_id(args@, func as int) {
                let m = choose|m: int|
                    0 <= m < args@.len() && (#[trigger] args@[m]).id as int == func as int;
                assert(args@[m].id as int != func as int);
            }
            assert(self.objects@[func as int] == old(self).objects@[func as int]);
        }
        let mut taken = ForeignObject {
            ref_count: 0,
            add_ref_calls: 0,
            release_calls: 0,
            data: ObjectData::Opaque,
        };
        core::mem::swap(&mut self.objects[func], &mut taken);
        let ForeignObject { ref_count: rc, add_ref_calls: ac, release_calls: rl, data } = taken;
        let mut yields_value = false;
        let rebuilt = match data {
            ObjectData::Function { behavior, pending, mut calls } => {
                let ghost c1 = calls@;
                calls.push(CallRecord { args: recorded });
                proof {
                    assert(calls@.drop_last() =~= c1);
                }
                let new_pending = match &behavior {
                    CallBehavior::Returns => {
                        yields_value = true;
                        pending
                    },
                    CallBehavior::FailsClean => pending,
                    CallBehavior::Throws(e) => Some(e.duplicate()),
                };
                ObjectData::Function { behavior, pending: new_pending, calls }
            },
            _ => vstd::pervasive::unreached(),
        };
        self.objects[func] = ForeignObject {
            ref_count: rc,
            add_ref_calls: ac,
            release_calls: rl,
            data: rebuilt,
        };
        proof {
            assert forall|kk: int| 0 <= kk < self.tasks@.len() implies (
            #[trigger] self.tasks@[kk]).wf(self.n_objects()) by {
                assert(old(self).tasks@[kk].wf(old(self).n_objects()));
            }
            assert(function_called(*old(self), *self, func as int, args@));
            assert forall|j: int|
                0 <= j < old(self).n_objects() && j != func as int && !is_arg_id(args@, j) implies
                self.objects@[j] == old(self).objects@[j] by {
            }
            assert forall|k: int| 0 <= k < args@.len() implies released_at(
                *old(self),
                *self,
                (#[trigger] args@[k]).id as int,
            ) by {
                assert(args@[k].id as int != func as int);
            }
        }
        if yields_value {
            let id = self.new_object(ObjectData::Opaque);
            proof {
                assert(function_called(*old(self), *self, func as int, args@));
                assert forall|k: int| 0 <= k < args@.len() implies released_at(
                    *old(self),
                    *self,
                    (#[trigger] args@[k]).id as int,
                ) by {
                    assert(args@[k].id as int != func as int);
                    assert((args@[k].id as int) < old(self).n_objects());
                }
            }
            Some(id)
        } else {
            None
        }
    }

    /// The runtime's exception query: whether the callable at `func` has an
    /// exception pending. Objects without the query slot report none.
    pub fn has_exception(&self, func: usize) -> (b: bool)
        requires
            func < self.objects@.len(),
        ensures
            b == (self.obj(func as int).data matches ObjectData::Function { pending: Some(_), .. }),
    {
        match &self.objects[func].data {
            ObjectData::Function { pending, .. } => pending.is_some(),
            _ => false,
        }
    }

    /// The runtime's exception accessor: a fresh exception object carrying
    /// one reference owned by the caller, or null when nothing is pending.
    pub fn get_exception(&mut self, func: usize) -> (r: Option<usize>)
        requires
            old(self).wf(),
            func < old(self).objects@.len(),
        ensures
            final(self).wf(),
            match old(self).obj(func as int).data {
                ObjectData::Function { pending: Some(e), .. } => {
                    &&& r matches Some(v) && v as int == old(self).n_objects()
                    &&& Runtime::same_but_objects(*old(self), *final(self))
                    &&& final(self).n_objects() == old(self).n_objects() + 1
                    &&& forall|j: int|
                        0 <= j < old(self).n_objects()
                            ==> final(self).objects@[j] == old(self).objects@[j]
                    &&& final(self).obj(old(self).n_objects()).ref_count == 1
                    &&& final(self).obj(old(self).n_objects()).add_ref_calls == 0
                    &&& final(self).obj(old(self).n_objects()).release_calls == 0
                    &&& final(self).obj(old(self).n_objects()).data matches ObjectData::Exception(
                        i,
                    ) && i.eqv(e)
                },
                _ => r is None && *final(self) == *old(self),
            },
    {
        let info = match &self.objects[func].data {
            ObjectData::Function { pending: Some(e), .. } => Some(e.duplicate()),
            _ => None,
        };
        match info {
            Some(i) => Some(self.new_object(ObjectData::Exception(i))),
            None => None,
        }
    }

    /// The runtime's exception reset: afterwards the callable at `func` has
    /// nothing pending. Objects without the slot are untouched.
    pub fn clear_exception(&mut self, func: usize)
        requires
            old(self).wf(),
            func < old(self).objects@.len(),
        ensures
            final(self).wf(),
            Runtime::same_but_objects(*old(self), *final(self)),
            Runtime::objects_same_except(*old(self), *final(self), func as int),
            final(self).obj(func as int).ref_count == old(self).obj(func as int).ref_count,
            final(self).obj(func as int).add_ref_calls == old(self).obj(func as int).add_ref_calls,
            final(self).obj(func as int).release_calls == old(self).obj(
                func as int,
            ).release_calls,
            match old(self).obj(func as int).data {
                ObjectData::Function { behavior, pending, calls } => final(self).obj(
                    func as int,
                ).data matches ObjectData::Function {
                    behavior: b2,
                    pending: p2,
                    calls: c2,
                } && b2 == behavior && p2 is None && c2 == calls,
                _ => final(self).obj(func as int).data == old(self).obj(func as int).data,
            },
    {
        let o = &mut self.objects[func];
        match &mut o.data {
            ObjectData::Function { pending, .. } => {
                *pending = None;
            },
            _ => {
            },
        }
        proof {
            assert forall|kk: int| 0 <= kk < self.tasks@.len() implies (
            #[trigger] self.tasks@[kk]).wf(self.n_objects()) by {
                assert(old(self).tasks@[kk].wf(old(self).n_objects()));
            }
        }
    }

    /// A fresh owned copy of an exception object's message, in the
    /// runtime's UTF-16 representation, to be freed by the caller.
    pub fn exception_message(&self, id: usize) -> (r: Option<CefString16>)
        requires
            id < self.objects@.len(),
            self.obj(id as int).data is Exception,
        ensures
            r matches Some(cs) && (self.obj(id as int).data matches ObjectData::Exception(e)
                && cs.units@ == e.message@),
    {
        match &self.objects[id].data {
            ObjectData::Exception(e) => Some(CefString16 { units: copy_units(&e.message) }),
            _ => vstd::pervasive::unreached(),
        }
    }

    /// A fresh owned copy of an exception object's script name.
    pub fn exception_script(&self, id: usize) -> (r: Option<CefString16>)
        requires
            id < self.objects@.len(),
            self.obj(id as int).data is Exception,
        ensures
            r matches Some(cs) && (self.obj(id as int).data matches ObjectData::Exception(e)
                && cs.units@ == e.script@),
    {
        match &self.objects[id].data {
            ObjectData::Exception(e) => Some(CefString16 { units: copy_units(&e.script) }),
            _ => vstd::pervasive::unreached(),
        }
    }

    /// An exception object's line number.
    pub fn exception_line(&self, id: usize) -> (r: i32)
        requires
            id < self.objects@.len(),
            self.obj(id as int).data is Exception,
        ensures
            self.obj(id as int).data matches ObjectData::Exception(e) && r == e.line,
    {
        match &self.objects[id].data {
            ObjectData::Exception(e) => e.line,
            _ => vstd::pervasive::unreached(),
        }
    }

    /// An exception object's starting column.
    pub fn exception_column(&self, id: usize) -> (r: i32)
        requires
            id < self.objects@.len(),
            self.obj(id as int).data is Exception,
        ensures
            self.obj(id as int).data matches ObjectData::Exception(e) && r == e.column,
    {
        match &self.objects[id].data {
            ObjectData::Exception(e) => e.column,
            _ => vstd::pervasive::unreached(),
        }
    }
}

/// Extract a structured error from an exception object and release the
/// object. A null pointer degrades to the generic execution failure.
fn error_from_exception_ptr(rt: &mut Runtime, exception_ptr: Option<usize>) -> (r: CefError)
    requires
        old(rt).wf(),
        exception_ptr matches Some(id) ==> {
            &&& old(rt).can_release(id as int)
            &&& old(rt).obj(id as int).data is Exception
        },
    ensures
        final(rt).wf(),
        match exception_ptr {
            None => r is V8FunctionExecutionFailed && *final(rt) == *old(rt),
            Some(id) => {
                &&& Runtime::obj_released(*old(rt), *final(rt), id as int)
                &&& old(rt).obj(id as int).data matches ObjectData::Exception(e) && (
                r matches CefError::V8Exception { message, script, line, column } && {
                    &&& message@ == utf16_decode(e.message@)
                    &&& script@ == utf16_decode(e.script@)
                    &&& line == e.line
                    &&& column == e.column
                })
            },
        },
{
    let exception = match CefRefPtr::from_raw(exception_ptr) {
        Ok(h) => h,
        Err(_) => {
            return CefError::V8FunctionExecutionFailed;
        },
    };
    let id = exception.as_raw();
    let message = string_from_cef_userfree(rt.exception_message(id));
    let script = string_from_cef_userfree(rt.exception_script(id));
    let line = rt.exception_line(id);
    let column = rt.exception_column(id);
    exception.release(rt);
    CefError::V8Exception { message, script, line, column }
}

impl CefRefPtr {
    /// The context current on the calling thread, as a fresh owned handle;
    /// fails with `NoCurrentV8Context` when none is active.
    pub fn current(rt: &mut Runtime) -> (r: CefResult<CefV8Context>)
        requires
            old(rt).wf(),
            old(rt).current_live() ==> old(rt).can_add_ref(old(rt).current_id()),
        ensures
            final(rt).wf(),
            old(rt).current_live() ==> (r matches Ok(h) && h.id as int == old(rt).current_id()
                && Runtime::obj_add_refed(*old(rt), *final(rt), old(rt).current_id())),
            !old(rt).current_live() ==> (r matches Err(e) && e is NoCurrentV8Context && *final(rt)
                == *old(rt)),
    {
        match rt.current_context {
            Some(c) => {
                if rt.objects[c].ref_count >= 1 {
                    rt.add_ref(c);
                    Ok(CefRefPtr { id: c })
                } else {
                    Err(CefError::NoCurrentV8Context)
                }
            },
            None => Err(CefError::NoCurrentV8Context),
        }
    }

    /// Marshal a native string into a fresh scripting string value. Fails
    /// with `StringConversionFailed` when the UTF-16 conversion fails, and
    /// with `V8ValueCreationFailed` when the runtime cannot materialize the
    /// value.
    pub fn try_from_str(rt: &mut Runtime, s: &str) -> (r: CefResult<CefV8Value>)
        requires
            old(rt).wf(),
        ensures
            final(rt).wf(),
            !old(rt).string_set_ok ==> (r matches Err(e) && e is StringConversionFailed
                && *final(rt) == *old(rt)),
            old(rt).string_set_ok && !old(rt).value_creation_ok ==> (r matches Err(e)
                && e is V8ValueCreationFailed && *final(rt) == *old(rt)),
            old(rt).string_set_ok && old(rt).value_creation_ok ==> (r matches Ok(h) && {
                &&& h.id as int == old(rt).n_objects()
                &&& Runtime::same_but_objects(*old(rt), *final(rt))
                &&& final(rt).n_objects() == old(rt).n_objects() + 1
                &&& forall|j: int|
                    0 <= j < old(rt).n_objects() ==> final(rt).objects@[j] == old(rt).objects@[j]
                &&& final(rt).obj(h.id as int).ref_count == 1
                &&& final(rt).obj(h.id as int).add_ref_calls == 0
                &&& final(rt).obj(h.id as int).release_calls == 0
                &&& final(rt).obj(h.id as int).data matches ObjectData::StringValue { units }
                    && units@ == utf16_of(s@)
            }),
    {
        let cef_str = CefString16::from_str(rt, s)?;
        if rt.value_creation_ok {
            let id = rt.new_object(ObjectData::StringValue { units: cef_str.units });
            CefRefPtr::from_raw(Some(id))
        } else {
            Err(CefError::V8ValueCreationFailed("string"))
        }
    }

    /// Invoke this scripting function with `this` as receiver, transferring
    /// ownership of every argument to the callee.
    ///
    /// A non-null return becomes a fresh owned handle. On a null return the
    /// bridge queries for a pending exception: if one is pending it is
    /// extracted, cleared and returned as `V8Exception`; otherwise the call
    /// fails with `V8FunctionExecutionFailed`.
    #[allow(unused_variables)]
    pub fn execute_function(&self, rt: &mut Runtime, this: Option<&CefRefPtr>, args: Vec<
        CefRefPtr,
    >) -> (r: CefResult<CefV8Value>)
        requires
            old(rt).wf(),
            self.valid(*old(rt)),
            args_transferable(*old(rt), self.id as int, args@),
        ensures
            final(rt).wf(),
            Runtime::same_admin(*old(rt), *final(rt)),
            final(rt).tasks == old(rt).tasks,
            !(old(rt).obj(self.id as int).data is Function) ==> (r matches Err(e)
                && e is V8FunctionExecutionFailed && *final(rt) == *old(rt)),
            (old(rt).obj(self.id as int).data matches ObjectData::Function {
                behavior: CallBehavior::Returns,
                ..
            }) ==> {
                &&& r matches Ok(h) && h.id as int == old(rt).n_objects()
                &&& function_called(*old(rt), *final(rt), self.id as int, args@)
                &&& args_settled(*old(rt), *final(rt), self.id as int, args@)
                &&& final(rt).n_objects() == old(rt).n_objects() + 1
                &&& final(rt).obj(old(rt).n_objects()).ref_count == 1
                &&& final(rt).obj(old(rt).n_objects()).add_ref_calls == 0
                &&& final(rt).obj(old(rt).n_objects()).release_calls == 0
                &&& final(rt).obj(old(rt).n_objects()).data is Opaque
            },
            match old(rt).obj(self.id as int).data {
                ObjectData::Function { behavior: b, pending: p, .. } => !(b is Returns)
                    ==> match pending_after_call(b, p) {
                    None => {
                        &&& r matches Err(e) && e is V8FunctionExecutionFailed
                        &&& function_settled(*old(rt), *final(rt), self.id as int, args@)
                        &&& args_settled(*old(rt), *final(rt), self.id as int, args@)
                        &&& final(rt).n_objects() == old(rt).n_objects()
                    },
                    Some(e) => {
                        &&& r matches Err(
                            CefError::V8Exception { message, script, line, column },
                        ) && {
                            &&& message@ == utf16_decode(e.message@)
                            &&& script@ == utf16_decode(e.script@)
                            &&& line == e.line
                            &&& column == e.column
                        }
                        &&& function_settled(*old(rt), *final(rt), self.id as int, args@)
                        &&& args_settled(*old(rt), *final(rt), self.id as int, args@)
                        &&& final(rt).n_objects() == old(rt).n_objects() + 1
                        &&& final(rt).obj(old(rt).n_objects()).ref_count == 0
                        &&& final(rt).obj(old(rt).n_objects()).add_ref_calls == 0
                        &&& final(rt).obj(old(rt).n_objects()).release_calls == 1
                        &&& final(rt).obj(old(rt).n_objects()).data matches ObjectData::Exception(
                            i,
                        ) && i.eqv(e)
                    },
                },
                _ => true,
            },
    {
        let raw_retval = rt.execute_raw(self.id, args);
        if let Some(id) = raw_retval {
            return CefRefPtr::from_raw(Some(id));
        }
        let has_exception = rt.has_exception(self.id);
        if has_exception {
            let exception_ptr = rt.get_exception(self.id);
            let error = error_from_exception_ptr(rt, exception_ptr);
            rt.clear_exception(self.id);
            Err(error)
        } else {
            Err(CefError::V8FunctionExecutionFailed)
        }
    }
}

/// What is pending on a callable right after one invocation: a thrown
/// exception replaces whatever was pending; any other outcome leaves the
/// pending state alone.
pub open spec fn pending_after_call(
    behavior: CallBehavior,
    pending: Option<ExceptionInfo>,
) -> Option<ExceptionInfo> {
    match behavior {
        CallBehavior::Throws(e) => Some(e),
        _ => pending,
    }
}

} // verus!
