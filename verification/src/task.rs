//! The cross-thread task bridge.
//!
//! A one-shot native callback and an owned context handle are packaged into
//! a task object that the foreign scheduler accepts: the task carries its
//! own reference-count function table, backed by a counter of the bridge's
//! own, in a distinct ownership domain from handles over foreign-allocated
//! objects. Posting leaks the allocation to the scheduler; the bridge's
//! `release` implementation reclaims it exactly when the count drops to
//! zero; executing enters the stored context, runs the callback at most
//! once, contains any unwind, and exits the context again.

use vstd::prelude::*;

use crate::base::CefRefPtr;
use crate::error::{CefError, CefResult};
use crate::registry::{call_appended, run_registered, CallbackRegistry};
use crate::runtime::{ObjectData, Runtime};

verus! {

/// What the one-shot callback of a task does when it runs.
pub enum TaskCallback {
    /// Relay a serialized event: look the registry up again and, when it is
    /// still populated, invoke the registered function with the payload as
    /// its single string argument.
    InvokeRegistered { payload: String },
    /// Complete without touching the bridge.
    Quiet,
    /// Unwind; execution contains the unwind instead of letting it cross
    /// the foreign call boundary.
    Unwinds,
}

/// A bridge-allocated task object: the one-shot callback, the owned context
/// handle to enter around it, and the bridge's own reference count with the
/// same instrumentation the foreign objects carry.
pub struct ClosureTask {
    /// Taken — left empty — the first time the task executes.
    pub callback: Option<TaskCallback>,
    /// Owned context handle; given up when the task is destroyed.
    pub context: Option<CefRefPtr>,
    pub ref_count: u64,
    pub add_ref_calls: u64,
    pub release_calls: u64,
}

impl ClosureTask {
    /// The same balance the foreign objects obey, plus: a live task still
    /// owns its context handle, and a destroyed task has given everything
    /// up.
    pub open spec fn wf(self, n_objects: int) -> bool {
        &&& self.ref_count as int + self.release_calls as int == self.add_ref_calls as int + 1
        &&& self.ref_count >= 1 ==> match self.context {
            Some(h) => (h.id as int) < n_objects,
            None => false,
        }
        &&& self.ref_count == 0 ==> self.context is None && self.callback is None
    }
}

impl Runtime {
    pub open spec fn task(self, t: int) -> ClosureTask {
        self.tasks@[t]
    }

    pub open spec fn n_tasks(self) -> int {
        self.tasks@.len() as int
    }

    pub open spec fn task_alive(self, t: int) -> bool {
        0 <= t < self.n_tasks() && self.task(t).ref_count >= 1
    }

    /// The object index of a live task's stored context.
    pub open spec fn task_ctx(self, t: int) -> int {
        self.task(t).context->0.id as int
    }

    /// Another `add_ref` on task `t` stays within machine limits.
    pub open spec fn can_task_add_ref(self, t: int) -> bool {
        &&& self.task_alive(t)
        &&& self.task(t).ref_count < u64::MAX
        &&& self.task(t).add_ref_calls < u64::MAX
    }

    /// Another `release` on task `t` stays within machine limits, and — in
    /// case this release destroys the task — the stored context handle can
    /// itself be released.
    pub open spec fn can_task_release(self, t: int) -> bool {
        &&& self.task_alive(t)
        &&& self.task(t).release_calls < u64::MAX
        &&& self.task(t).ref_count == 1 ==> self.can_release(self.task_ctx(t))
    }

    /// The task tables agree except possibly at index `t`.
    pub open spec fn tasks_same_except(pre: Runtime, post: Runtime, t: int) -> bool {
        &&& post.tasks@.len() == pre.tasks@.len()
        &&& forall|j: int|
            0 <= j < pre.tasks@.len() && j != t ==> #[trigger] post.tasks@[j] == pre.tasks@[j]
    }

    /// Everything outside the task table is unchanged between `pre` and
    /// `post`.
    pub open spec fn same_but_tasks(pre: Runtime, post: Runtime) -> bool {
        &&& post.objects == pre.objects
        &&& post.posted == pre.posted
        &&& post.current_context == pre.current_context
        &&& post.runner_available == pre.runner_available
        &&& post.post_accepts == pre.post_accepts
        &&& post.string_set_ok == pre.string_set_ok
        &&& post.value_creation_ok == pre.value_creation_ok
        &&& post.contained_unwinds == pre.contained_unwinds
    }
}

/// `post` is `pre` with one `add_ref` observed on task `t`.
pub open spec fn task_add_refed(pre: Runtime, post: Runtime, t: int) -> bool {
    &&& Runtime::same_but_tasks(pre, post)
    &&& Runtime::tasks_same_except(pre, post, t)
    &&& post.task(t).ref_count == pre.task(t).ref_count + 1
    &&& post.task(t).add_ref_calls == pre.task(t).add_ref_calls + 1
    &&& post.task(t).release_calls == pre.task(t).release_calls
    &&& post.task(t).callback == pre.task(t).callback
    &&& post.task(t).context == pre.task(t).context
}

/// The bridge's own `add_ref` implementation: increment the task's counter.
pub fn base_add_ref(rt: &mut Runtime, t: usize)
    requires
        old(rt).wf(),
        old(rt).can_task_add_ref(t as int),
    ensures
        final(rt).wf(),
        task_add_refed(*old(rt), *final(rt), t as int),
{
    let task = &mut rt.tasks[t];
    task.ref_count = task.ref_count + 1;
    task.add_ref_calls = task.add_ref_calls + 1;
}

/// The bridge's own `release` implementation: decrement the counter and,
/// exactly on the transition to zero, reclaim the allocation — dropping the
/// callback and releasing the owned context handle — and report "destroyed"
/// to the caller.
pub fn base_release(rt: &mut Runtime, t: usize) -> (freed: i32)
    requires
        old(rt).wf(),
        old(rt).can_task_release(t as int),
    ensures
        final(rt).wf(),
        Runtime::same_admin(*old(rt), *final(rt)),
        Runtime::tasks_same_except(*old(rt), *final(rt), t as int),
        final(rt).task(t as int).ref_count == old(rt).task(t as int).ref_count - 1,
        final(rt).task(t as int).add_ref_calls == old(rt).task(t as int).add_ref_calls,
        final(rt).task(t as int).release_calls == old(rt).task(t as int).release_calls + 1,
        old(rt).task(t as int).ref_count > 1 ==> {
            &&& freed == 0
            &&& final(rt).objects == old(rt).objects
            &&& final(rt).task(t as int).callback == old(rt).task(t as int).callback
            &&& final(rt).task(t as int).context == old(rt).task(t as int).context
        },
        old(rt).task(t as int).ref_count == 1 ==> {
            &&& freed == 1
            &&& final(rt).task(t as int).callback is None
            &&& final(rt).task(t as int).context is None
            &&& Runtime::heap_released(*old(rt), *final(rt), old(rt).task_ctx(t as int))
        },
{
    let task = &mut rt.tasks[t];
    task.ref_count = task.ref_count - 1;
    task.release_calls = task.release_calls + 1;
    if task.ref_count == 0 {
        task.callback = None;
        let ctx = task.context.take();
        match ctx {
            Some(h) => {
                h.release(rt);
            },
            None => {
            },
        }
        proof {
            assert forall|k: int| 0 <= k < rt.tasks@.len() implies (#[trigger] rt.tasks@[k]).wf(
                rt.n_objects(),
            ) by {
                assert(old(rt).tasks@[k].wf(old(rt).n_objects()));
            }
        }
        1
    } else {
        proof {
            assert forall|k: int| 0 <= k < rt.tasks@.len() implies (#[trigger] rt.tasks@[k]).wf(
                rt.n_objects(),
            ) by {
                assert(old(rt).tasks@[k].wf(old(rt).n_objects()));
            }
        }
        0
    }
}

/// The bridge's own `has_one_ref` implementation: read the counter without
/// mutating it.
pub fn base_has_one_ref(rt: &Runtime, t: usize) -> (r: i32)
    requires
        t < rt.tasks@.len(),
    ensures
        r == if rt.task(t as int).ref_count == 1 {
            1int
        } else {
            0int
        },
{
    if rt.tasks[t].ref_count == 1 {
        1
    } else {
        0
    }
}

/// The bridge's own `has_at_least_one_ref` implementation.
pub fn base_has_at_least_one_ref(rt: &Runtime, t: usize) -> (r: i32)
    requires
        t < rt.tasks@.len(),
    ensures
        r == if rt.task(t as int).ref_count >= 1 {
            1int
        } else {
            0int
        },
{
    if rt.tasks[t].ref_count >= 1 {
        1
    } else {
        0
    }
}

/// Posting succeeded: a fresh task holding the callback, the context handle
/// and one reference — now owned by the foreign scheduler — was appended to
/// the task table and to the runner's queue; the object heap is untouched
/// (handing the context over transfers the caller's reference without any
/// count traffic).
pub open spec fn post_accepted(
    pre: Runtime,
    post: Runtime,
    ctx: CefRefPtr,
    callback: TaskCallback,
) -> bool {
    &&& post.objects == pre.objects
    &&& post.current_context == pre.current_context
    &&& post.runner_available == pre.runner_available
    &&& post.post_accepts == pre.post_accepts
    &&& post.string_set_ok == pre.string_set_ok
    &&& post.value_creation_ok == pre.value_creation_ok
    &&& post.contained_unwinds == pre.contained_unwinds
    &&& post.tasks@.len() == pre.tasks@.len() + 1
    &&& forall|j: int| 0 <= j < pre.tasks@.len() ==> #[trigger] post.tasks@[j] == pre.tasks@[j]
    &&& post.task(pre.n_tasks()) == (ClosureTask {
        callback: Some(callback),
        context: Some(ctx),
        ref_count: 1u64,
        add_ref_calls: 0u64,
        release_calls: 0u64,
    })
    &&& post.posted@ == pre.posted@.push(pre.tasks@.len() as usize)
}

/// Posting failed: no task was left behind and no reference-count call was
/// made on any task; the context handle the caller gave up was released
/// exactly once, as when the unposted allocation is dropped.
pub open spec fn post_failed(pre: Runtime, post: Runtime, ctx: CefRefPtr) -> bool {
    &&& post.tasks == pre.tasks
    &&& post.posted == pre.posted
    &&& Runtime::obj_released(pre, post, ctx.id as int)
}

/// Package `callback` and the owned `v8_context` handle into a task object
/// and post it to the runner for the scripting thread.
///
/// When no runner can be resolved, or the runner rejects the task, the
/// allocation is reclaimed immediately — the single reference counts as
/// returned — and the call fails with `TaskPostFailed`; otherwise the
/// scheduler now owns the task's one reference and the call succeeds.
/// Posting succeeds or fails atomically, and failures are never retried.
pub fn renderer_post_task_in_v8_ctx(
    rt: &mut Runtime,
    v8_context: CefRefPtr,
    callback: TaskCallback,
) -> (r: CefResult<()>)
    requires
        old(rt).wf(),
        v8_context.valid(*old(rt)),
        old(rt).can_release(v8_context.id as int),
    ensures
        final(rt).wf(),
        r is Ok <==> old(rt).runner_available && old(rt).post_accepts,
        r matches Err(e) ==> e is TaskPostFailed,
        old(rt).runner_available && old(rt).post_accepts ==> post_accepted(
            *old(rt),
            *final(rt),
            v8_context,
            callback,
        ),
        !(old(rt).runner_available && old(rt).post_accepts) ==> post_failed(
            *old(rt),
            *final(rt),
            v8_context,
        ),
{
    if !rt.runner_available {
        v8_context.release(rt);
        return Err(CefError::TaskPostFailed);
    }
    if !rt.post_accepts {
        v8_context.release(rt);
        return Err(CefError::TaskPostFailed);
    }
    let id = rt.tasks.len();
    rt.tasks.push(
        ClosureTask {
            callback: Some(callback),
            context: Some(v8_context),
            ref_count: 1,
            add_ref_calls: 0,
            release_calls: 0,
        },
    );
    rt.posted.push(id);
    proof {
        assert forall|k: int| 0 <= k < rt.tasks@.len() implies (#[trigger] rt.tasks@[k]).wf(
            rt.n_objects(),
        ) by {
            if k < old(rt).tasks@.len() {
                assert(old(rt).tasks@[k].wf(old(rt).n_objects()));
            }
        }
    }
    Ok(())
}

impl Runtime {
    /// Whether the context object's function table provides the enter and
    /// exit operations.
    pub open spec fn ctx_enterable(self, i: int) -> bool {
        self.obj(i).data matches ObjectData::Context { enter_available: true, .. }
    }

    /// The context's enter and exit counters have room for one more pair.
    pub open spec fn can_enter_exit(self, i: int) -> bool {
        match self.obj(i).data {
            ObjectData::Context { enter_available: _, enter_calls, exit_calls } => enter_calls
                < u64::MAX && exit_calls < u64::MAX,
            _ => true,
        }
    }

    /// Enter the context at `i` when its function table allows it; reports
    /// whether entry succeeded.
    fn context_enter(&mut self, i: usize) -> (entered: bool)
        requires
            old(self).wf(),
            (i as int) < old(self).n_objects(),
            old(self).can_enter_exit(i as int),
        ensures
            final(self).wf(),
            entered == old(self).ctx_enterable(i as int),
            Runtime::same_but_objects(*old(self), *final(self)),
            Runtime::objects_same_except(*old(self), *final(self), i as int),
            final(self).obj(i as int).ref_count == old(self).obj(i as int).ref_count,
            final(self).obj(i as int).add_ref_calls == old(self).obj(i as int).add_ref_calls,
            final(self).obj(i as int).release_calls == old(self).obj(i as int).release_calls,
            match old(self).obj(i as int).data {
                ObjectData::Context { enter_available, enter_calls, exit_calls } => final(self).obj(i as int).data matches ObjectData::Context {
                    enter_available: a2,
                    enter_calls: e2,
                    exit_calls: x2,
                } && a2 == enter_available && x2 == exit_calls && e2 as int == enter_calls + (
                if enter_available {
                    1int
                } else {
                    0int
                }),
                _ => final(self).obj(i as int).data == old(self).obj(i as int).data,
            },
    {
        let o = &mut self.objects[i];
        let entered = match &mut o.data {
            ObjectData::Context { enter_available, enter_calls, .. } => {
                if *enter_available {
                    *enter_calls = *enter_calls + 1;
                    true
                } else {
                    false
                }
            },
            _ => false,
        };
        proof {
            assert forall|k: int| 0 <= k < self.tasks@.len() implies (#[trigger] self.tasks@[k]).wf(
                self.n_objects(),
            ) by {
                assert(old(self).tasks@[k].wf(old(self).n_objects()));
            }
        }
        entered
    }

    /// Exit the context at `i`, balancing a successful enter.
    fn context_exit(&mut self, i: usize)
        requires
            old(self).wf(),
            (i as int) < old(self).n_objects(),
            old(self).obj(i as int).data matches ObjectData::Context { exit_calls, .. }
                && exit_calls < u64::MAX,
        ensures
            final(self).wf(),
            Runtime::same_but_objects(*old(self), *final(self)),
            Runtime::objects_same_except(*old(self), *final(self), i as int),
            final(self).obj(i as int).ref_count == old(self).obj(i as int).ref_count,
            final(self).obj(i as int).add_ref_calls == old(self).obj(i as int).add_ref_calls,
            final(self).obj(i as int).release_calls == old(self).obj(i as int).release_calls,
            match old(self).obj(i as int).data {
                ObjectData::Context { enter_available, enter_calls, exit_calls } => final(self).obj(i as int).data matches ObjectData::Context {
                    enter_available: a2,
                    enter_calls: e2,
                    exit_calls: x2,
                } && a2 == enter_available && e2 == enter_calls && x2 as int == exit_calls + 1,
                _ => false,
            },
    {
        let o = &mut self.objects[i];
        match &mut o.data {
            ObjectData::Context { exit_calls, .. } => {
                *exit_calls = *exit_calls + 1;
            },
            _ => {
            },
        }
        proof {
            assert forall|k: int| 0 <= k < self.tasks@.len() implies (#[trigger] self.tasks@[k]).wf(
                self.n_objects(),
            ) by {
                assert(old(self).tasks@[k].wf(old(self).n_objects()));
            }
        }
    }
}

/// The context at `c` was entered and exited exactly once if its function
/// table provides the enter operation, and left alone otherwise; its
/// reference-count state is untouched either way.
pub open spec fn ctx_entered_exited(pre: Runtime, post: Runtime, c: int) -> bool {
    &&& post.obj(c).ref_count == pre.obj(c).ref_count
    &&& post.obj(c).add_ref_calls == pre.obj(c).add_ref_calls
    &&& post.obj(c).release_calls == pre.obj(c).release_calls
    &&& match pre.obj(c).data {
        ObjectData::Context { enter_available, enter_calls, exit_calls } => post.obj(c).data
            matches ObjectData::Context {
            enter_available: a2,
            enter_calls: e2,
            exit_calls: x2,
        } && a2 == enter_available && if enter_available {
            e2 as int == enter_calls + 1 && x2 as int == exit_calls + 1
        } else {
            e2 == enter_calls && x2 == exit_calls
        },
        _ => true,
    }
}

/// The execute entry point may run on task `t` in this state, with this
/// registry: the task is live, its stored context is a context object with
/// counter room, a relaying callback finds the registered function alive,
/// and the unwind-containment counter has room.
pub open spec fn can_execute(rt: Runtime, reg: CallbackRegistry, t: int) -> bool {
    &&& rt.wf()
    &&& rt.task_alive(t)
    &&& rt.obj(rt.task_ctx(t)).data is Context
    &&& rt.can_enter_exit(rt.task_ctx(t))
    &&& (rt.task(t).callback matches Some(TaskCallback::InvokeRegistered { .. }) ==> match reg.slot {
        Some(cb) => rt.obj_alive(cb.v8_function.id as int),
        None => true,
    })
    &&& (rt.task(t).callback matches Some(TaskCallback::Unwinds) ==> rt.contained_unwinds
        < u64::MAX)
}

/// What one run of the execute entry point does, whatever the callback
/// slot held: the callback slot is left empty, the task's counters and
/// stored context are untouched, the stored context sees one balanced
/// enter/exit pair when it offers one, and the callback's own effect is
/// keyed on what the slot held before.
pub open spec fn executed_effect(pre: Runtime, post: Runtime, reg: CallbackRegistry, t: int) -> bool {
    let c = pre.task_ctx(t);
    &&& post.tasks@.len() == pre.tasks@.len()
    &&& forall|j: int| 0 <= j < pre.tasks@.len() && j != t ==> #[trigger] post.tasks@[j] == pre.tasks@[j]
    &&& post.task(t).callback is None
    &&& post.task(t).context == pre.task(t).context
    &&& post.task(t).ref_count == pre.task(t).ref_count
    &&& post.task(t).add_ref_calls == pre.task(t).add_ref_calls
    &&& post.task(t).release_calls == pre.task(t).release_calls
    &&& post.posted == pre.posted
    &&& post.current_context == pre.current_context
    &&& post.runner_available == pre.runner_available
    &&& post.post_accepts == pre.post_accepts
    &&& post.string_set_ok == pre.string_set_ok
    &&& post.value_creation_ok == pre.value_creation_ok
    &&& ctx_entered_exited(pre, post, c)
    &&& match pre.task(t).callback {
        None => {
            &&& post.n_objects() == pre.n_objects()
            &&& forall|j: int|
                0 <= j < pre.n_objects() && j != c ==> #[trigger] post.objects@[j]
                    == pre.objects@[j]
            &&& post.contained_unwinds == pre.contained_unwinds
        },
        Some(TaskCallback::Quiet) => {
            &&& post.n_objects() == pre.n_objects()
            &&& forall|j: int|
                0 <= j < pre.n_objects() && j != c ==> #[trigger] post.objects@[j]
                    == pre.objects@[j]
            &&& post.contained_unwinds == pre.contained_unwinds
        },
        Some(TaskCallback::Unwinds) => {
            &&& post.n_objects() == pre.n_objects()
            &&& forall|j: int|
                0 <= j < pre.n_objects() && j != c ==> #[trigger] post.objects@[j]
                    == pre.objects@[j]
            &&& post.contained_unwinds as int == pre.contained_unwinds + 1
        },
        Some(TaskCallback::InvokeRegistered { payload }) => {
            &&& post.contained_unwinds == pre.contained_unwinds
            &&& match reg.slot {
                None => {
                    &&& post.n_objects() == pre.n_objects()
                    &&& forall|j: int|
                        0 <= j < pre.n_objects() && j != c ==> #[trigger] post.objects@[j]
                            == pre.objects@[j]
                },
                Some(cb) => {
                    let f = cb.v8_function.id as int;
                    &&& !(pre.string_set_ok && pre.value_creation_ok) ==> {
                        &&& post.n_objects() == pre.n_objects()
                        &&& forall|j: int|
                            0 <= j < pre.n_objects() && j != c ==> #[trigger] post.objects@[j]
                                == pre.objects@[j]
                    }
                    &&& (pre.string_set_ok && pre.value_creation_ok && pre.obj(
                        f,
                    ).data is Function) ==> {
                        &&& call_appended(pre.obj(f).data, post.obj(f).data, payload@)
                        &&& post.obj(f).ref_count == pre.obj(f).ref_count
                        &&& post.obj(f).add_ref_calls == pre.obj(f).add_ref_calls
                        &&& post.obj(f).release_calls == pre.obj(f).release_calls
                        &&& post.n_objects() >= pre.n_objects() + 1
                        &&& forall|j: int|
                            0 <= j < pre.n_objects() && j != c && j != f
                                ==> #[trigger] post.objects@[j] == pre.objects@[j]
                        &&& forall|j: int|
                            pre.n_objects() <= j < post.n_objects() ==> (#[trigger] post.obj(
                                j,
                            )).ref_count == 0
                    }
                    &&& (pre.string_set_ok && pre.value_creation_ok && !(pre.obj(
                        f,
                    ).data is Function)) ==> {
                        &&& post.n_objects() == pre.n_objects() + 1
                        &&& forall|j: int|
                            0 <= j < pre.n_objects() && j != c ==> #[trigger] post.objects@[j]
                                == pre.objects@[j]
                    }
                },
            }
        },
    }
}

/// The bridge's own task-execution entry point, as the foreign scheduler
/// calls it on the scripting thread: enter the stored context when an
/// enter operation is available, take the one-shot callback — leaving the
/// slot empty, so a spurious second execution finds nothing to run — run
/// it with any unwind contained rather than let it cross the foreign call
/// boundary, and exit the context exactly when entry succeeded.
pub fn execute_rust_closure(rt: &mut Runtime, registry: &CallbackRegistry, task: usize)
    requires
        can_execute(*old(rt), *registry, task as int),
    ensures
        final(rt).wf(),
        executed_effect(*old(rt), *final(rt), *registry, task as int),
{
    let ctx_id = match &rt.tasks[task].context {
        Some(h) => h.as_raw(),
        None => vstd::pervasive::unreached(),
    };
    let ghost c = ctx_id as int;
    let entered = rt.context_enter(ctx_id);
    let ghost s1 = *rt;
    let callback = rt.tasks[task].callback.take();
    let ghost s2 = *rt;
    proof {
        assert(s2.objects == s1.objects);
        assert forall|k: int| 0 <= k < rt.tasks@.len() implies (#[trigger] rt.tasks@[k]).wf(
            rt.n_objects(),
        ) by {
            assert(s1.tasks@[k].wf(s1.n_objects()));
        }
    }
    match callback {
        None => {
        },
        Some(TaskCallback::Quiet) => {
        },
        Some(TaskCallback::Unwinds) => {
            rt.contained_unwinds = rt.contained_unwinds + 1;
        },
        Some(TaskCallback::InvokeRegistered { payload }) => {
            run_registered(rt, registry, payload.as_str());
            proof {
                match &registry.slot {
                    Some(cb) => {
                        let f = cb.v8_function.id as int;
                        if s2.string_set_ok && s2.value_creation_ok && s2.obj(f).data is Function {
                            assert(s2.obj(c).data is Context);
                            assert(f != c);
                            assert(rt.objects@[c] == s2.objects@[c]);
                        }
                    },
                    None => {
                    },
                }
                assert(rt.objects@[c] == s1.objects@[c]);
            }
        },
    }
    let ghost s3 = *rt;
    if entered {
        proof {
            assert(s3.obj(c).data matches ObjectData::Context { .. });
        }
        rt.context_exit(ctx_id);
    }
    proof {
        assert(ctx_entered_exited(*old(rt), *rt, c));
        match old(rt).task(task as int).callback {
            Some(TaskCallback::InvokeRegistered { payload }) => {
                match &registry.slot {
                    Some(cb) => {
                        let f = cb.v8_function.id as int;
                        if old(rt).string_set_ok && old(rt).value_creation_ok && old(rt).obj(
                            f,
                        ).data is Function {
                            assert(f != c);
                            assert(s2.obj(f).data == old(rt).obj(f).data);
                            assert(call_appended(old(rt).obj(f).data, rt.obj(f).data, payload@));
                            assert forall|j: int|
                                0 <= j < old(rt).n_objects() && j != c && j != f implies
                                #[trigger] rt.objects@[j] == old(rt).objects@[j] by {
                                assert(s3.objects@[j] == s2.objects@[j]);
                                assert(s2.objects@[j] == old(rt).objects@[j]);
                            }
                            assert forall|j: int|
                                old(rt).n_objects() <= j < rt.n_objects() implies (
                            #[trigger] rt.obj(j)).ref_count == 0 by {
                                assert(s3.obj(j).ref_count == 0);
                            }
                        }
                    },
                    None => {
                    },
                }
            },
            _ => {
            },
        }
    }
}

/// Balanced accounting for the bridge's own task objects: the releases
/// seen plus the live count equal the add_refs seen plus the one reference
/// the task was allocated with; once the count is zero, releases exceed
/// add_refs by exactly that one.
pub proof fn lemma_task_refcount_balanced(rt: Runtime, t: int)
    requires
        rt.wf(),
        0 <= t < rt.n_tasks(),
    ensures
        rt.task(t).release_calls as int + rt.task(t).ref_count as int == rt.task(
            t,
        ).add_ref_calls as int + 1,
        rt.task(t).ref_count == 0 ==> rt.task(t).release_calls as int == rt.task(
            t,
        ).add_ref_calls as int + 1,
{
}

/// Law (at most once): however often the execute entry point is invoked on
/// the same task, the callback runs at most once. Any execution after the
/// first finds the callback slot already empty, and beyond the context's
/// enter/exit pair it changes no object at all — in particular it invokes
/// no scripting function.
pub proof fn lemma_execute_at_most_once(
    s0: Runtime,
    s1: Runtime,
    s2: Runtime,
    reg: CallbackRegistry,
    t: int,
)
    requires
        0 <= t < s0.n_tasks(),
        executed_effect(s0, s1, reg, t),
        executed_effect(s1, s2, reg, t),
    ensures
        s2.n_objects() == s1.n_objects(),
        forall|j: int|
            0 <= j < s1.n_objects() && j != s1.task_ctx(t) ==> #[trigger] s2.objects@[j]
                == s1.objects@[j],
{
}

} // verus!
