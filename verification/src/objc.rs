//! Autorelease scope guards.
//!
//! A guard bounds one unit of work: pushing it opens a fresh autorelease
//! frame, and popping it closes exactly the frame it opened, paying back
//! every release deferred inside.  Guards are strictly LIFO on one
//! thread's frame stack; an out-of-order pop is a protocol violation.

use vstd::prelude::*;

use crate::error::Error;
use crate::rt::Rt;

verus! {

/// A token for one pushed autorelease frame.  `level` is the depth of the
/// stack just below this guard's frame, so the guard's own frame is
/// topmost exactly when the stack is `level + 1` deep.
pub struct AutoreleasePoolPage {
    level: usize,
}

impl AutoreleasePoolPage {
    /// The stack depth just below this guard's frame.
    pub closed spec fn level_spec(self) -> nat {
        self.level as nat
    }

    /// Pushes a fresh autorelease frame and returns the guard for it.
    pub fn push(rt: &mut Rt) -> (page: AutoreleasePoolPage)
        requires
            old(rt).wf(),
            old(rt).pool_depth_spec() < usize::MAX,
        ensures
            final(rt).wf(),
            page.level_spec() == old(rt).pool_depth_spec(),
            final(rt).pool_depth_spec() == old(rt).pool_depth_spec() + 1,
            final(rt).n_objects() == old(rt).n_objects(),
            final(rt).top_frame() == Seq::<usize>::empty(),
            forall|q: usize|
                (q as nat) < old(rt).n_objects() ==> #[trigger] final(rt).same_stats_as(old(rt), q),
            forall|q: usize| #[trigger] final(rt).pending_of(q) == old(rt).pending_of(q),
    {
        let level = rt.pool_depth();
        rt.pool_push();
        AutoreleasePoolPage { level }
    }

    /// Pops exactly the frame this guard pushed.  Requiring the guard's
    /// frame to be topmost is what makes pops strictly LIFO: the guard for
    /// an inner frame must go first.  Every release the frame deferred is
    /// paid back by the pop.
    pub fn pop(self, rt: &mut Rt)
        requires
            old(rt).wf(),
            old(rt).pool_depth_spec() == self.level_spec() + 1,
        ensures
            final(rt).wf(),
            final(rt).pool_depth_spec() == self.level_spec(),
            final(rt).n_objects() == old(rt).n_objects(),
            forall|q: usize|
                (q as nat) < old(rt).n_objects() ==> #[trigger] final(rt).popped_stats(
                    old(rt),
                    old(rt).top_frame(),
                    q,
                ),
    {
        rt.pool_pop();
    }

    /// Pops the guard's frame if it is topmost; an out-of-order pop is
    /// reported as a protocol violation and leaves the stack untouched.
    pub fn try_pop(self, rt: &mut Rt) -> (r: Result<(), Error>)
        requires
            old(rt).wf(),
        ensures
            final(rt).wf(),
            r is Ok <==> old(rt).pool_depth_spec() == self.level_spec() + 1,
            r is Err ==> r == Err::<(), Error>(Error::ProtocolViolation) && *final(rt) == *old(rt),
            r is Ok ==> final(rt).pool_depth_spec() == self.level_spec() && final(rt).n_objects()
                == old(rt).n_objects() && forall|q: usize|
                (q as nat) < old(rt).n_objects() ==> #[trigger] final(rt).popped_stats(
                    old(rt),
                    old(rt).top_frame(),
                    q,
                ),
    {
        let depth = rt.pool_depth();
        if self.level < usize::MAX && depth == self.level + 1 {
            rt.pool_pop();
            Ok(())
        } else {
            Err(Error::ProtocolViolation)
        }
    }

    /// The depth of the stack just below this guard's frame.
    pub fn level(&self) -> (l: usize)
        ensures
            (l as nat) == self.level_spec(),
    {
        self.level
    }
}

/// One balanced unit of work under a guard: a push, the nested units, and
/// the matching pop.  The depth bookkeeping of such a tree of scopes is
/// what the laws below speak about.
pub enum GuardOp {
    PushFrame,
    PopFrame,
}

/// Stack depth after a sequence of guard operations.
pub open spec fn depth_after(start: int, ops: Seq<GuardOp>) -> int
    decreases ops.len(),
{
    if ops.len() == 0 {
        start
    } else {
        depth_after(start, ops.drop_last()) + match ops.last() {
            GuardOp::PushFrame => 1int,
            GuardOp::PopFrame => -1int,
        }
    }
}

/// Number of pushes in a sequence of guard operations.
pub open spec fn pushes_in(ops: Seq<GuardOp>) -> int
    decreases ops.len(),
{
    if ops.len() == 0 {
        0
    } else {
        pushes_in(ops.drop_last()) + if ops.last() is PushFrame {
            1int
        } else {
            0int
        }
    }
}

/// Number of pops in a sequence of guard operations.
pub open spec fn pops_in(ops: Seq<GuardOp>) -> int
    decreases ops.len(),
{
    if ops.len() == 0 {
        0
    } else {
        pops_in(ops.drop_last()) + if ops.last() is PopFrame {
            1int
        } else {
            0int
        }
    }
}

/// Guards pushed and popped in LIFO order never leave a dangling frame:
/// however the work inside each scope went — run to completion or
/// abandoned on an error path — a sequence of guard operations with as
/// many pops as pushes returns the stack to exactly its starting depth,
/// because each pop steps the depth by exactly one whatever the popped
/// frame held.
pub proof fn lemma_balanced_guards_leave_no_frame(start: int, ops: Seq<GuardOp>)
    ensures
        depth_after(start, ops) == start + pushes_in(ops) - pops_in(ops),
        pushes_in(ops) == pops_in(ops) ==> depth_after(start, ops) == start,
    decreases ops.len(),
{
    if ops.len() > 0 {
        lemma_balanced_guards_leave_no_frame(start, ops.drop_last());
    }
}

} // verus!
