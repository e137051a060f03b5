//! The callback registry: a slot holding at most one (context, function)
//! pair, used to relay serialized events to the scripting side.
//!
//! Registering replaces — and releases — any previous pair; clearing is
//! idempotent; dispatching snapshots the registered context and posts a
//! task through the task bridge that, when executed, looks the registry up
//! again and invokes the registered function with the payload as its single
//! string argument. Dispatching with no registration is a silent no-op.
//! In a program the registry lives behind a process-wide mutex; here it is
//! an explicit value, so tests can stage and reset it freely.

use vstd::prelude::*;

use crate::base::CefRefPtr;
use crate::error::{CefError, CefResult};
use crate::runtime::{ArgSnapshot, ObjectData, Runtime};
use crate::string::utf16_of;
use crate::task::{renderer_post_task_in_v8_ctx, TaskCallback};
use crate::v8::{args_transferable, function_called, function_settled, is_arg_id, released_at};

verus! {

/// One registered native-to-script callback: the context to enter and the
/// function to invoke, both owned.
pub struct RegisteredCallback {
    pub v8_context: CefRefPtr,
    pub v8_function: CefRefPtr,
}

/// A registry slot; at most one live registration.
pub struct CallbackRegistry {
    pub slot: Option<RegisteredCallback>,
}

/// How many owned references the slot holds on object `i`.
pub open spec fn occ(slot: Option<RegisteredCallback>, i: int) -> int {
    match slot {
        Some(cb) => (if cb.v8_context.id as int == i {
            1int
        } else {
            0int
        }) + (if cb.v8_function.id as int == i {
            1int
        } else {
            0int
        }),
        None => 0,
    }
}

/// The slot's owned references can be released: the objects exist, their
/// counts cover the slot's references, and the release counters have room.
pub open spec fn pair_releasable(rt: Runtime, slot: Option<RegisteredCallback>) -> bool {
    match slot {
        Some(cb) => {
            let c = cb.v8_context.id as int;
            let f = cb.v8_function.id as int;
            &&& 0 <= c < rt.n_objects()
            &&& 0 <= f < rt.n_objects()
            &&& rt.obj(c).ref_count as int >= occ(slot, c)
            &&& rt.obj(f).ref_count as int >= occ(slot, f)
            &&& rt.obj(c).release_calls as int + occ(slot, c) <= u64::MAX as int
            &&& rt.obj(f).release_calls as int + occ(slot, f) <= u64::MAX as int
        },
        None => true,
    }
}

/// The heap of `post` is that of `pre` with the slot's references released:
/// every object's count drops by the references the slot held on it.
pub open spec fn pair_released(pre: Runtime, post: Runtime, slot: Option<RegisteredCallback>) -> bool {
    &&& post.objects@.len() == pre.objects@.len()
    &&& forall|i: int|
        0 <= i < pre.n_objects() ==> {
            &&& (#[trigger] post.obj(i)).ref_count as int == pre.obj(i).ref_count - occ(slot, i)
            &&& post.obj(i).add_ref_calls == pre.obj(i).add_ref_calls
            &&& post.obj(i).release_calls as int == pre.obj(i).release_calls + occ(slot, i)
            &&& post.obj(i).data == pre.obj(i).data
        }
}

/// Whether the current context would still be live once the slot's
/// references are given up.
pub open spec fn ctx_live_after_clear(rt: Runtime, slot: Option<RegisteredCallback>) -> bool {
    match rt.current_context {
        Some(c) => rt.obj(c as int).ref_count as int - occ(slot, c as int) >= 1,
        None => false,
    }
}

impl CallbackRegistry {
    /// An empty registry.
    pub fn new() -> (r: CallbackRegistry)
        ensures
            r.slot is None,
    {
        CallbackRegistry { slot: None }
    }

    /// Remove and release any existing registration; idempotent.
    pub fn clear_callback(&mut self, rt: &mut Runtime)
        requires
            old(rt).wf(),
            pair_releasable(*old(rt), old(self).slot),
        ensures
            final(rt).wf(),
            final(self).slot is None,
            Runtime::same_admin(*old(rt), *final(rt)),
            final(rt).tasks == old(rt).tasks,
            pair_released(*old(rt), *final(rt), old(self).slot),
    {
        let slot = self.slot.take();
        match slot {
            Some(cb) => {
                let RegisteredCallback { v8_context, v8_function } = cb;
                v8_context.release(rt);
                v8_function.release(rt);
            },
            None => {
            },
        }
    }

    /// Register a callback: release any previous registration, take
    /// ownership of the function reference behind `v8_func_ptr` — failing
    /// with `NullPtrReceived` when the pointer is null — and capture the
    /// context current on the calling thread, failing with
    /// `NoCurrentV8Context` when none is live. On any failure the slot is
    /// left empty, the function reference is given back, and the failure is
    /// reported to the caller.
    pub fn register_callback(&mut self, rt: &mut Runtime, v8_func_ptr: Option<usize>) -> (r:
        CefResult<()>)
        requires
            old(rt).wf(),
            pair_releasable(*old(rt), old(self).slot),
            match v8_func_ptr {
                Some(f) => {
                    &&& (f as int) < old(rt).n_objects()
                    &&& old(rt).obj(f as int).ref_count as int >= 1 + occ(old(self).slot, f as int)
                    &&& old(rt).obj(f as int).release_calls as int + occ(old(self).slot, f as int)
                        < u64::MAX as int
                },
                None => true,
            },
            match old(rt).current_context {
                Some(c) => old(rt).obj(c as int).add_ref_calls < u64::MAX && old(rt).obj(
                    c as int,
                ).ref_count < u64::MAX,
                None => true,
            },
        ensures
            final(rt).wf(),
            Runtime::same_admin(*old(rt), *final(rt)),
            final(rt).tasks == old(rt).tasks,
            final(rt).objects@.len() == old(rt).objects@.len(),
            v8_func_ptr is None ==> {
                &&& r matches Err(e) && e is NullPtrReceived
                &&& final(self).slot is None
                &&& pair_released(*old(rt), *final(rt), old(self).slot)
            },
            match v8_func_ptr {
                Some(f) => {
                    if ctx_live_after_clear(*old(rt), old(self).slot) {
                        &&& r is Ok
                        &&& final(self).slot matches Some(cb) && cb.v8_function.id == f
                            && cb.v8_context.id as int == old(rt).current_id()
                        &&& forall|i: int|
                            0 <= i < old(rt).n_objects() ==> {
                                &&& (#[trigger] final(rt).obj(i)).ref_count as int == old(rt).obj(
                                    i,
                                ).ref_count - occ(old(self).slot, i) + (
                                if i == old(rt).current_id() {
                                    1int
                                } else {
                                    0int
                                })
                                &&& final(rt).obj(i).add_ref_calls as int == old(rt).obj(
                                    i,
                                ).add_ref_calls + (if i == old(rt).current_id() {
                                    1int
                                } else {
                                    0int
                                })
                                &&& final(rt).obj(i).release_calls as int == old(rt).obj(
                                    i,
                                ).release_calls + occ(old(self).slot, i)
                                &&& final(rt).obj(i).data == old(rt).obj(i).data
                            }
                    } else {
                        &&& r matches Err(e) && e is NoCurrentV8Context
                        &&& final(self).slot is None
                        &&& forall|i: int|
                            0 <= i < old(rt).n_objects() ==> {
                                &&& (#[trigger] final(rt).obj(i)).ref_count as int == old(rt).obj(
                                    i,
                                ).ref_count - occ(old(self).slot, i) - (if i == f as int {
                                    1int
                                } else {
                                    0int
                                })
                                &&& final(rt).obj(i).add_ref_calls == old(rt).obj(i).add_ref_calls
                                &&& final(rt).obj(i).release_calls as int == old(rt).obj(
                                    i,
                                ).release_calls + occ(old(self).slot, i) + (if i == f as int {
                                    1int
                                } else {
                                    0int
                                })
                                &&& final(rt).obj(i).data == old(rt).obj(i).data
                            }
                    }
                },
                None => true,
            },
    {
        let ghost s0 = *rt;
        let ghost slot0 = self.slot;
        self.clear_callback(rt);
        let ghost s1 = *rt;
        let v8_function = match CefRefPtr::from_raw(v8_func_ptr) {
            Ok(h) => h,
            Err(e) => {
                return Err(e);
            },
        };
        proof {
            match s0.current_context {
                Some(c) => {
                    assert(s1.obj(c as int).ref_count as int == s0.obj(c as int).ref_count - occ(
                        slot0,
                        c as int,
                    ));
                },
                None => {
                },
            }
        }
        let v8_context = match CefRefPtr::current(rt) {
            Ok(c) => c,
            Err(e) => {
                proof {
                    assert(s1.obj(v8_function.id as int).ref_count as int == s0.obj(
                        v8_function.id as int,
                    ).ref_count - occ(slot0, v8_function.id as int));
                }
                v8_function.release(rt);
                proof {
                    let f = v8_function.id as int;
                    assert forall|i: int| 0 <= i < s0.n_objects() implies {
                        &&& (#[trigger] rt.obj(i)).ref_count as int == s0.obj(i).ref_count - occ(
                            slot0,
                            i,
                        ) - (if i == f {
                            1int
                        } else {
                            0int
                        })
                        &&& rt.obj(i).add_ref_calls == s0.obj(i).add_ref_calls
                        &&& rt.obj(i).release_calls as int == s0.obj(i).release_calls + occ(
                            slot0,
                            i,
                        ) + (if i == f {
                            1int
                        } else {
                            0int
                        })
                        &&& rt.obj(i).data == s0.obj(i).data
                    } by {
                        assert(s1.obj(i).ref_count as int == s0.obj(i).ref_count - occ(slot0, i));
                        assert(s1.obj(i).release_calls as int == s0.obj(i).release_calls + occ(
                            slot0,
                            i,
                        ));
                    }
                }
                return Err(e);
            },
        };
        proof {
            let c = s0.current_id();
            assert(s1.obj(c).ref_count as int == s0.obj(c).ref_count - occ(slot0, c));
        }
        self.slot = Some(RegisteredCallback { v8_context, v8_function });
        proof {
            let c = s0.current_id();
            assert forall|i: int| 0 <= i < s0.n_objects() implies {
                &&& (#[trigger] rt.obj(i)).ref_count as int == s0.obj(i).ref_count - occ(slot0, i)
                    + (if i == c {
                    1int
                } else {
                    0int
                })
                &&& rt.obj(i).add_ref_calls as int == s0.obj(i).add_ref_calls + (if i == c {
                    1int
                } else {
                    0int
                })
                &&& rt.obj(i).release_calls as int == s0.obj(i).release_calls + occ(slot0, i)
                &&& rt.obj(i).data == s0.obj(i).data
            } by {
                assert(s1.obj(i).ref_count as int == s0.obj(i).ref_count - occ(slot0, i));
                assert(s1.obj(i).release_calls as int == s0.obj(i).release_calls + occ(slot0, i));
                assert(s1.obj(i).add_ref_calls == s0.obj(i).add_ref_calls);
                assert(s1.obj(i).data == s0.obj(i).data);
            }
        }
        Ok(())
    }

    /// Serialize-then-relay: when a callback is registered, post a task
    /// that will look the registry up again and invoke the registered
    /// function with `payload` as its single string argument. With no
    /// registration this is a silent no-op — events with no listener are
    /// dropped, never queued. Returns whether a task was posted; a rejected
    /// post is reported as `TaskPostFailed`.
    pub fn dispatch_json(&self, rt: &mut Runtime, payload: String) -> (r: CefResult<bool>)
        requires
            old(rt).wf(),
            match self.slot {
                Some(cb) => old(rt).can_add_ref(cb.v8_context.id as int) && old(rt).obj(
                    cb.v8_context.id as int,
                ).release_calls < u64::MAX,
                None => true,
            },
        ensures
            final(rt).wf(),
            self.slot is None ==> r == Ok::<bool, CefError>(false) && *final(rt) == *old(rt),
            match self.slot {
                Some(cb) => {
                    if old(rt).runner_available && old(rt).post_accepts {
                        &&& r == Ok::<bool, CefError>(true)
                        &&& dispatch_posted(*old(rt), *final(rt), cb, payload@)
                    } else {
                        &&& r matches Err(e) && e is TaskPostFailed
                        &&& final(rt).tasks == old(rt).tasks
                        &&& final(rt).posted == old(rt).posted
                        &&& Runtime::same_admin(*old(rt), *final(rt))
                        &&& Runtime::objects_same_except(
                            *old(rt),
                            *final(rt),
                            cb.v8_context.id as int,
                        )
                        &&& final(rt).obj(cb.v8_context.id as int).ref_count == old(rt).obj(
                            cb.v8_context.id as int,
                        ).ref_count
                        &&& final(rt).obj(cb.v8_context.id as int).add_ref_calls as int == old(rt).obj(cb.v8_context.id as int).add_ref_calls + 1
                        &&& final(rt).obj(cb.v8_context.id as int).release_calls as int == old(rt).obj(cb.v8_context.id as int).release_calls + 1
                        &&& final(rt).obj(cb.v8_context.id as int).data == old(rt).obj(
                            cb.v8_context.id as int,
                        ).data
                    }
                },
                None => true,
            },
    {
        match &self.slot {
            None => Ok(false),
            Some(cb) => {
                let ctx = cb.v8_context.clone_ref(rt);
                match renderer_post_task_in_v8_ctx(
                    rt,
                    ctx,
                    TaskCallback::InvokeRegistered { payload },
                ) {
                    Ok(()) => Ok(true),
                    Err(e) => Err(e),
                }
            },
        }
    }
}

/// A dispatch went through: one fresh `add_ref` on the registered context,
/// and a new task — holding that reference, the payload and one scheduler
/// reference — appended to the task table and the runner's queue.
pub open spec fn dispatch_posted(
    pre: Runtime,
    post: Runtime,
    cb: RegisteredCallback,
    payload: Seq<char>,
) -> bool {
    &&& Runtime::same_admin_but_posted(pre, post)
    &&& Runtime::heap_add_refed(pre, post, cb.v8_context.id as int)
    &&& post.tasks@.len() == pre.tasks@.len() + 1
    &&& forall|j: int| 0 <= j < pre.tasks@.len() ==> #[trigger] post.tasks@[j] == pre.tasks@[j]
    &&& post.task(pre.n_tasks()).ref_count == 1
    &&& post.task(pre.n_tasks()).add_ref_calls == 0
    &&& post.task(pre.n_tasks()).release_calls == 0
    &&& post.task(pre.n_tasks()).callback matches Some(
        TaskCallback::InvokeRegistered { payload: p },
    ) && p@ == payload
    &&& post.task(pre.n_tasks()).context matches Some(h) && h.id == cb.v8_context.id
    &&& post.posted@ == pre.posted@.push(pre.tasks@.len() as usize)
}

/// Run the registered callback with a serialized payload, from inside a
/// posted task: look the registry up again; when it is still populated,
/// build a string value from the payload and invoke the registered function
/// with it as the single argument, releasing the result. Invocation
/// failures are swallowed here — they are reported through the bridge's own
/// error channel, never thrown back into the poster.
pub fn run_registered(rt: &mut Runtime, reg: &CallbackRegistry, payload: &str)
    requires
        old(rt).wf(),
        match reg.slot {
            Some(cb) => old(rt).obj_alive(cb.v8_function.id as int),
            None => true,
        },
    ensures
        final(rt).wf(),
        Runtime::same_admin(*old(rt), *final(rt)),
        final(rt).tasks == old(rt).tasks,
        reg.slot is None ==> *final(rt) == *old(rt),
        match reg.slot {
            Some(cb) => {
                &&& !(old(rt).string_set_ok && old(rt).value_creation_ok) ==> *final(rt) == *old(rt)
                &&& (old(rt).string_set_ok && old(rt).value_creation_ok && old(rt).obj(
                    cb.v8_function.id as int,
                ).data is Function) ==> {
                    &&& invoked_once(*old(rt), *final(rt), cb.v8_function.id as int, payload@)
                    &&& forall|j: int|
                        old(rt).n_objects() <= j < final(rt).n_objects() ==> (#[trigger] final(rt).obj(j)).ref_count == 0
                }
                &&& (old(rt).string_set_ok && old(rt).value_creation_ok && !(old(rt).obj(
                    cb.v8_function.id as int,
                ).data is Function)) ==> {
                    &&& final(rt).n_objects() == old(rt).n_objects() + 1
                    &&& forall|j: int|
                        0 <= j < old(rt).n_objects() ==> #[trigger] final(rt).objects@[j] == old(rt).objects@[j]
                }
            },
            None => true,
        },
{
    match &reg.slot {
        None => {
        },
        Some(cb) => {
            let ghost s0 = *rt;
            let ghost f = cb.v8_function.id as int;
            match CefRefPtr::try_from_str(rt, payload) {
                Ok(arg) => {
                    let ghost s1 = *rt;
                    let mut args: Vec<CefRefPtr> = Vec::new();
                    args.push(arg);
                    proof {
                        assert(s1.objects@[f] == s0.objects@[f]);
                        assert(args_transferable(s1, f, args@));
                    }
                    match cb.v8_function.execute_function(rt, None, args) {
                        Ok(h) => {
                            let ghost s2 = *rt;
                            h.release(rt);
                            proof {
                                assert(args@[0] == arg);
                                assert(rt.objects@[f] == s2.objects@[f]);
                                assert forall|j: int|
                                    0 <= j < s0.n_objects() && j != f implies #[trigger] rt.objects@[j]
                                    == s0.objects@[j] by {
                                    if is_arg_id(args@, j) {
                                        let k = choose|k: int|
                                            0 <= k < args@.len() && (#[trigger] args@[k]).id as int
                                                == j;
                                        assert(args@[k] == arg);
                                    }
                                    assert(s1.objects@[j] == s0.objects@[j]);
                                    assert(s2.objects@[j] == s1.objects@[j]);
                                }
                                assert(s1.objects@[f] == s0.objects@[f]);
                                assert(function_called(s1, s2, f, args@));
                                assert(s1.obj(arg.id as int).data matches ObjectData::StringValue {
                                    units,
                                } && units@ == utf16_of(payload@));
                                assert(invoked_once(s0, *rt, f, payload@));
                                assert forall|j: int|
                                    s0.n_objects() <= j < rt.n_objects() implies (
                                #[trigger] rt.obj(j)).ref_count == 0 by {
                                    assert(released_at(s1, s2, arg.id as int));
                                }
                            }
                        },
                        Err(_) => {
                            proof {
                                assert(args@[0] == arg);
                                if s1.obj(f).data is Function {
                                    assert forall|j: int|
                                        0 <= j < s0.n_objects() && j != f implies
                                        #[trigger] rt.objects@[j] == s0.objects@[j] by {
                                        if is_arg_id(args@, j) {
                                            let k = choose|k: int|
                                                0 <= k < args@.len() && (
                                                #[trigger] args@[k]).id as int == j;
                                            assert(args@[k] == arg);
                                        }
                                        assert(s1.objects@[j] == s0.objects@[j]);
                                    }
                                    assert(s1.objects@[f] == s0.objects@[f]);
                                    assert(function_settled(s1, *rt, f, args@));
                                    assert(s1.obj(arg.id as int).data
                                        matches ObjectData::StringValue { units } && units@
                                        == utf16_of(payload@));
                                    assert(invoked_once(s0, *rt, f, payload@));
                                    assert forall|j: int|
                                        s0.n_objects() <= j < rt.n_objects() implies (
                                    #[trigger] rt.obj(j)).ref_count == 0 by {
                                        assert(released_at(s1, *rt, arg.id as int));
                                    }
                                } else {
                                    assert(s1.objects@[f] == s0.objects@[f]);
                                }
                            }
                        },
                    }
                },
                Err(_) => {
                },
            }
        },
    }
}

/// One call record was appended to a callable's state: the behaviour is
/// untouched and the new record holds exactly one argument, a string whose
/// code units are the UTF-16 encoding of `payload`.
pub open spec fn call_appended(d1: ObjectData, d2: ObjectData, payload: Seq<char>) -> bool {
    match (d1, d2) {
        (
            ObjectData::Function { behavior: b1, pending: p1, calls: c1 },
            ObjectData::Function { behavior: b2, pending: p2, calls: c2 },
        ) => {
            &&& b2 == b1
            &&& c2@.len() == c1@.len() + 1
            &&& c2@.drop_last() == c1@
            &&& c2@.last().args@.len() == 1
            &&& c2@.last().args@[0] matches ArgSnapshot::Text(t) && t@ == utf16_of(payload)
        },
        _ => false,
    }
}

/// The function at `f` was invoked exactly once, with exactly one argument,
/// a string holding the UTF-16 encoding of `payload`; every object that
/// existed before and is not `f` is untouched, and `f`'s own counters are
/// untouched.
pub open spec fn invoked_once(pre: Runtime, post: Runtime, f: int, payload: Seq<char>) -> bool {
    &&& forall|j: int|
        0 <= j < pre.n_objects() && j != f ==> #[trigger] post.objects@[j] == pre.objects@[j]
    &&& post.n_objects() >= pre.n_objects() + 1
    &&& post.obj(f).ref_count == pre.obj(f).ref_count
    &&& post.obj(f).add_ref_calls == pre.obj(f).add_ref_calls
    &&& post.obj(f).release_calls == pre.obj(f).release_calls
    &&& call_appended(pre.obj(f).data, post.obj(f).data, payload)
}

impl Runtime {
    /// Everything outside the object heap, the task table and the posted
    /// queue is unchanged between `pre` and `post`.
    pub open spec fn same_admin_but_posted(pre: Runtime, post: Runtime) -> bool {
        &&& post.current_context == pre.current_context
        &&& post.runner_available == pre.runner_available
        &&& post.post_accepts == pre.post_accepts
        &&& post.string_set_ok == pre.string_set_ok
        &&& post.value_creation_ok == pre.value_creation_ok
        &&& post.contained_unwinds == pre.contained_unwinds
    }
}

/// Law (relay exactly once): a registration followed by a dispatch that the
/// runner accepted, followed by the execution of the posted task, invokes
/// the registered function exactly once — one new call record, holding the
/// dispatched payload as its single string argument.
pub proof fn lemma_register_dispatch_execute_invokes_once(
    s0: Runtime,
    s1: Runtime,
    s2: Runtime,
    reg: CallbackRegistry,
    cb: RegisteredCallback,
    payload: Seq<char>,
    t: int,
)
    requires
        reg.slot == Some(cb),
        dispatch_posted(s0, s1, cb, payload),
        t == s0.n_tasks(),
        crate::task::executed_effect(s1, s2, reg, t),
        s0.string_set_ok && s0.value_creation_ok,
        (cb.v8_function.id as int) < s0.n_objects(),
        s0.obj(cb.v8_function.id as int).data is Function,
    ensures
        call_appended(
            s0.obj(cb.v8_function.id as int).data,
            s2.obj(cb.v8_function.id as int).data,
            payload,
        ),
{
    let f = cb.v8_function.id as int;
    let c = cb.v8_context.id as int;
    if f != c {
        assert(s1.objects@[f] == s0.objects@[f]);
    }
    assert(s1.obj(f).data == s0.obj(f).data);
    assert(s1.task(t).callback matches Some(TaskCallback::InvokeRegistered { payload: p })
        && p@ == payload);
}

} // verus!
