//! An explicit model of the foreign runtime's observable state.
//!
//! The real runtime is a C library reached only through per-object
//! function-pointer tables; nothing about it can be checked at compile time.
//! The bridge therefore states everything it relies on — per-object reference
//! counts, the context active on the scripting thread, the task scheduler,
//! pending exceptions — as plain data, and every bridge operation is
//! specified and verified as a transition on this state. A test drives the
//! same state directly, playing the part of the foreign side: each object
//! doubles as an instrumented vtable that remembers how often `add_ref` and
//! `release` were called on it.

use vstd::prelude::*;

use crate::task::ClosureTask;

verus! {

/// Details carried by a foreign exception object: message text and script
/// name in the runtime's UTF-16 representation, plus a source position.
pub struct ExceptionInfo {
    pub message: Vec<u16>,
    pub script: Vec<u16>,
    pub line: i32,
    pub column: i32,
}

impl ExceptionInfo {
    /// Same text and same position.
    pub open spec fn eqv(self, other: ExceptionInfo) -> bool {
        &&& self.message@ == other.message@
        &&& self.script@ == other.script@
        &&& self.line == other.line
        &&& self.column == other.column
    }

    /// A fresh copy with the same contents.
    pub fn duplicate(&self) -> (r: ExceptionInfo)
        ensures
            r.eqv(*self),
    {
        ExceptionInfo {
            message: copy_units(&self.message),
            script: copy_units(&self.script),
            line: self.line,
            column: self.column,
        }
    }
}

/// A fresh vector holding the same code units.
pub fn copy_units(v: &Vec<u16>) -> (r: Vec<u16>)
    ensures
        r@ == v@,
{
    let mut r: Vec<u16> = Vec::new();
    let mut i: usize = 0;
    while i < v.len()
        invariant
            i <= v@.len(),
            r@ == v@.take(i as int),
        decreases v@.len() - i,
    {
        r.push(v[i]);
        proof {
            assert(v@.take(i + 1 as int) == v@.take(i as int).push(v@[i as int]));
        }
        i = i + 1;
    }
    proof {
        assert(v@.take(v@.len() as int) == v@);
    }
    r
}

/// What a callable scripting value does when the bridge invokes it.
pub enum CallBehavior {
    /// The call returns a fresh value object.
    Returns,
    /// The call returns null and leaves no exception pending.
    FailsClean,
    /// The call returns null and leaves this exception pending.
    Throws(ExceptionInfo),
}

/// The bridge's snapshot of one argument handed to a scripting function:
/// string contents when the argument was a string value, opaque otherwise.
pub enum ArgSnapshot {
    Text(Vec<u16>),
    Other,
}

/// One recorded invocation of a scripting function: the arguments it was
/// handed, in order.
pub struct CallRecord {
    pub args: Vec<ArgSnapshot>,
}

/// What kind of foreign object a heap slot holds, with the state the bridge
/// can observe through that object's function table.
pub enum ObjectData {
    /// A scripting context. `enter_available` models whether the context's
    /// function table provides an enter operation; the two counters remember
    /// how often the bridge entered and exited the context.
    Context { enter_available: bool, enter_calls: u64, exit_calls: u64 },
    /// A scripting string value, holding the runtime's UTF-16 representation.
    StringValue { units: Vec<u16> },
    /// A callable scripting value: its scripted behaviour, the exception it
    /// currently has pending, and the record of every invocation so far.
    Function { behavior: CallBehavior, pending: Option<ExceptionInfo>, calls: Vec<CallRecord> },
    /// An exception object.
    Exception(ExceptionInfo),
    /// A value the bridge knows nothing about.
    Opaque,
}

/// One reference-counted foreign object, instrumented: besides the current
/// count it remembers every `add_ref` and `release` call ever made on it.
/// An object is alive while its count is positive; a dead slot keeps its
/// counters so that a test can audit them after the fact.
pub struct ForeignObject {
    pub ref_count: u64,
    pub add_ref_calls: u64,
    pub release_calls: u64,
    pub data: ObjectData,
}

impl ForeignObject {
    /// The accounting invariant: an object is born holding one reference, so
    /// at any time the live count plus the releases seen equals the add_refs
    /// seen plus that original one.
    pub open spec fn wf(self) -> bool {
        self.ref_count as int + self.release_calls as int == self.add_ref_calls as int + 1
    }
}

/// The foreign runtime as the bridge observes it: an object heap, the
/// context current on the scripting thread, the task scheduler with the
/// bridge-allocated tasks handed to it, and the failure switches a test can
/// throw (runner missing, post rejected, string or value creation failing).
pub struct Runtime {
    pub objects: Vec<ForeignObject>,
    /// Bridge-allocated task objects whose ownership was leaked to the
    /// foreign scheduler; the index plays the part of the raw pointer.
    pub tasks: Vec<ClosureTask>,
    /// Indices of tasks accepted by the runner, in posting order.
    pub posted: Vec<usize>,
    /// The object index of the context current on the scripting thread.
    pub current_context: Option<usize>,
    /// Whether a task runner for the scripting thread can be resolved.
    pub runner_available: bool,
    /// Whether the resolved runner accepts posted tasks.
    pub post_accepts: bool,
    /// Whether building the runtime's UTF-16 string representation succeeds.
    pub string_set_ok: bool,
    /// Whether the runtime can materialize new string values.
    pub value_creation_ok: bool,
    /// How many callback unwinds the task bridge has contained.
    pub contained_unwinds: u64,
}

impl Runtime {
    pub open spec fn obj(self, i: int) -> ForeignObject {
        self.objects@[i]
    }

    pub open spec fn n_objects(self) -> int {
        self.objects@.len() as int
    }

    pub open spec fn obj_alive(self, i: int) -> bool {
        0 <= i < self.n_objects() && self.obj(i).ref_count >= 1
    }

    /// Another `add_ref` on object `i` stays within machine limits.
    pub open spec fn can_add_ref(self, i: int) -> bool {
        &&& self.obj_alive(i)
        &&& self.obj(i).ref_count < u64::MAX
        &&& self.obj(i).add_ref_calls < u64::MAX
    }

    /// Another `release` on object `i` stays within machine limits.
    pub open spec fn can_release(self, i: int) -> bool {
        &&& self.obj_alive(i)
        &&& self.obj(i).release_calls < u64::MAX
    }

    pub open spec fn wf(self) -> bool {
        &&& forall|i: int|
            0 <= i < self.objects@.len() ==> (#[trigger] self.objects@[i]).wf()
        &&& forall|i: int|
            0 <= i < self.tasks@.len() ==> (#[trigger] self.tasks@[i]).wf(self.n_objects())
        &&& match self.current_context {
            Some(c) => c < self.objects@.len() && self.objects@[c as int].data is Context,
            None => true,
        }
        &&& forall|i: int|
            0 <= i < self.posted@.len() ==> (#[trigger] self.posted@[i]) < self.tasks@.len()
    }

    /// A fresh runtime: empty heap, no current context, every operation set
    /// up to succeed.
    pub fn new() -> (rt: Runtime)
        ensures
            rt.wf(),
            rt.objects@.len() == 0,
            rt.tasks@.len() == 0,
            rt.posted@.len() == 0,
            rt.current_context is None,
            rt.runner_available,
            rt.post_accepts,
            rt.string_set_ok,
            rt.value_creation_ok,
            rt.contained_unwinds == 0,
    {
        Runtime {
            objects: Vec::new(),
            tasks: Vec::new(),
            posted: Vec::new(),
            current_context: None,
            runner_available: true,
            post_accepts: true,
            string_set_ok: true,
            value_creation_ok: true,
            contained_unwinds: 0,
        }
    }

    /// Everything outside the object heap and the task table is unchanged
    /// between `pre` and `post`.
    pub open spec fn same_admin(pre: Runtime, post: Runtime) -> bool {
        &&& post.posted == pre.posted
        &&& post.current_context == pre.current_context
        &&& post.runner_available == pre.runner_available
        &&& post.post_accepts == pre.post_accepts
        &&& post.string_set_ok == pre.string_set_ok
        &&& post.value_creation_ok == pre.value_creation_ok
        &&& post.contained_unwinds == pre.contained_unwinds
    }

    /// Everything outside the object heap is unchanged between `pre` and
    /// `post`.
    pub open spec fn same_but_objects(pre: Runtime, post: Runtime) -> bool {
        &&& Self::same_admin(pre, post)
        &&& post.tasks == pre.tasks
    }

    /// The object heaps agree except possibly at index `i`.
    pub open spec fn objects_same_except(pre: Runtime, post: Runtime, i: int) -> bool {
        &&& post.objects@.len() == pre.objects@.len()
        &&& forall|j: int|
            0 <= j < pre.objects@.len() && j != i ==> #[trigger] post.objects@[j]
                == pre.objects@[j]
    }

    /// The object heap of `post` is that of `pre` with one `add_ref`
    /// observed on object `i`.
    pub open spec fn heap_add_refed(pre: Runtime, post: Runtime, i: int) -> bool {
        &&& Self::objects_same_except(pre, post, i)
        &&& post.obj(i).ref_count == pre.obj(i).ref_count + 1
        &&& post.obj(i).add_ref_calls == pre.obj(i).add_ref_calls + 1
        &&& post.obj(i).release_calls == pre.obj(i).release_calls
        &&& post.obj(i).data == pre.obj(i).data
    }

    /// The object heap of `post` is that of `pre` with one `release`
    /// observed on object `i`.
    pub open spec fn heap_released(pre: Runtime, post: Runtime, i: int) -> bool {
        &&& Self::objects_same_except(pre, post, i)
        &&& post.obj(i).ref_count == pre.obj(i).ref_count - 1
        &&& post.obj(i).add_ref_calls == pre.obj(i).add_ref_calls
        &&& post.obj(i).release_calls == pre.obj(i).release_calls + 1
        &&& post.obj(i).data == pre.obj(i).data
    }

    /// `post` is `pre` with one `add_ref` observed on object `i` and
    /// nothing else changed.
    pub open spec fn obj_add_refed(pre: Runtime, post: Runtime, i: int) -> bool {
        &&& Self::same_but_objects(pre, post)
        &&& Self::heap_add_refed(pre, post, i)
    }

    /// `post` is `pre` with one `release` observed on object `i` and
    /// nothing else changed.
    pub open spec fn obj_released(pre: Runtime, post: Runtime, i: int) -> bool {
        &&& Self::same_but_objects(pre, post)
        &&& Self::heap_released(pre, post, i)
    }

    /// Place a freshly created foreign object on the heap, holding one
    /// reference that the creator owns. This is the runtime's side of every
    /// object-producing entry point, and the way a test stages objects.
    pub fn new_object(&mut self, data: ObjectData) -> (id: usize)
        requires
            old(self).wf(),
        ensures
            final(self).wf(),
            id as int == old(self).n_objects(),
            final(self).objects@.len() == old(self).objects@.len() + 1,
            final(self).objects@[id as int].ref_count == 1,
            final(self).objects@[id as int].add_ref_calls == 0,
            final(self).objects@[id as int].release_calls == 0,
            final(self).objects@[id as int].data == data,
            forall|j: int|
                0 <= j < old(self).objects@.len() ==> #[trigger] final(self).objects@[j] == old(self).objects@[j],
            Self::same_but_objects(*old(self), *final(self)),
    {
        let id = self.objects.len();
        self.objects.push(
            ForeignObject { ref_count: 1, add_ref_calls: 0, release_calls: 0, data },
        );
        proof {
            assert forall|i: int| 0 <= i < self.tasks@.len() implies (
            #[trigger] self.tasks@[i]).wf(self.n_objects()) by {
                assert(self.tasks@[i].wf(old(self).n_objects()));
            }
        }
        id
    }

    /// One `add_ref` through object `i`'s function table.
    pub fn add_ref(&mut self, i: usize)
        requires
            old(self).wf(),
            old(self).can_add_ref(i as int),
        ensures
            final(self).wf(),
            Self::obj_add_refed(*old(self), *final(self), i as int),
    {
        let o = &mut self.objects[i];
        o.ref_count = o.ref_count + 1;
        o.add_ref_calls = o.add_ref_calls + 1;
        proof {
            assert forall|k: int| 0 <= k < self.tasks@.len() implies (
            #[trigger] self.tasks@[k]).wf(self.n_objects()) by {
                assert(self.tasks@[k].wf(old(self).n_objects()));
            }
        }
    }

    /// One `release` through object `i`'s function table; reports whether
    /// this release destroyed the object.
    pub fn release(&mut self, i: usize) -> (freed: bool)
        requires
            old(self).wf(),
            old(self).can_release(i as int),
        ensures
            final(self).wf(),
            Self::obj_released(*old(self), *final(self), i as int),
            freed == (old(self).obj(i as int).ref_count == 1),
    {
        let o = &mut self.objects[i];
        o.ref_count = o.ref_count - 1;
        o.release_calls = o.release_calls + 1;
        let freed = o.ref_count == 0;
        proof {
            assert forall|k: int| 0 <= k < self.tasks@.len() implies (
            #[trigger] self.tasks@[k]).wf(self.n_objects()) by {
                assert(self.tasks@[k].wf(old(self).n_objects()));
            }
        }
        freed
    }
}

/// Reference counting stays balanced: however the bridge's operations are
/// sequenced, each object's observed `release` calls plus its live count
/// equal its observed `add_ref` calls plus the one reference it was created
/// with. Once the count has dropped to zero, releases exceed add_refs by
/// exactly that initial one.
pub proof fn lemma_refcount_balanced(rt: Runtime, i: int)
    requires
        rt.wf(),
        0 <= i < rt.n_objects(),
    ensures
        rt.obj(i).release_calls as int + rt.obj(i).ref_count as int == rt.obj(
            i,
        ).add_ref_calls as int + 1,
        rt.obj(i).ref_count == 0 ==> rt.obj(i).release_calls as int == rt.obj(
            i,
        ).add_ref_calls as int + 1,
{
}

} // verus!
