//! Ownership handles and borrowed references for foreign objects.
//!
//! An [`R`] owns exactly one attributable increment of its object's foreign
//! reference count; releasing it performs exactly one decrement.  A
//! [`Borrowed`] is a non-owning view with no count contribution, and an
//! [`Rar`] is a reference whose single increment is owed to the innermost
//! autorelease frame.  All bookkeeping is stated against the runtime
//! ledger [`crate::rt::Rt`].

use vstd::prelude::*;

use core::marker::PhantomData;

use crate::rt::{MAX_RETAINS, Rt};

verus! {

/// An allocated but not yet initialized foreign instance: the first half
/// of the runtime's alloc-init pattern.  The typed `init` methods of each
/// binding consume it.
pub struct A<T> {
    instance: PhantomData<T>,
}

impl<T> A<T> {
    /// A fresh, uninitialized instance of the class.
    pub fn allocate() -> (a: A<T>) {
        A { instance: PhantomData }
    }
}

/// The ledger admits one more retain of `ptr`.
pub open spec fn can_retain(rt: Rt, ptr: Option<usize>) -> bool {
    ptr is Some ==> {
        &&& ((ptr->0) as nat) < rt.n_objects()
        &&& rt.count_of(ptr->0) > 0
        &&& rt.retains_of(ptr->0) < MAX_RETAINS
    }
}

/// The ledger admits one more release of `ptr`: the caller owns a count
/// increment beyond whatever the autorelease stack is still owed.
pub open spec fn can_release(rt: Rt, ptr: Option<usize>) -> bool {
    ptr is Some ==> {
        &&& ((ptr->0) as nat) < rt.n_objects()
        &&& rt.count_of(ptr->0) >= 1 + rt.pending_of(ptr->0)
    }
}

/// An ownership handle: one logical reference to a foreign object, or the
/// empty handle for a foreign "nil" result.
pub struct R {
    ptr: Option<usize>,
}

/// A non-owning, scope-bound view of a foreign pointer: it can be read and
/// passed to foreign entry points, but contributes nothing to the count.
#[derive(Clone, Copy, PartialEq, Eq, Structural, Debug)]
pub struct Borrowed {
    ptr: Option<usize>,
}

/// A reference whose single count increment is owed to the innermost
/// autorelease frame; it stays usable until that frame pops, unless it is
/// promoted to an owning handle first.
pub struct Rar {
    ptr: Option<usize>,
}

impl R {
    /// The pointer this handle holds, if any.
    pub closed spec fn ptr_spec(self) -> Option<usize> {
        self.ptr
    }

    /// Assumes ownership of a pointer handed back by a "new"-style foreign
    /// call, without issuing a retain.  The caller must own the pointer's
    /// reference outright: wrapping a borrowed or merely autoreleased
    /// pointer leads to an over-release later.  A `None` pointer yields
    /// the empty handle with no release obligation.
    pub fn wrap(ptr: Option<usize>) -> (h: R)
        ensures
            h.ptr_spec() == ptr,
    {
        R { ptr }
    }

    /// Retains the pointer and then wraps it: the right way to take
    /// ownership of a pointer the caller does not already own.
    pub fn retain_wrap(rt: &mut Rt, ptr: Option<usize>) -> (h: R)
        requires
            old(rt).wf(),
            can_retain(*old(rt), ptr),
        ensures
            final(rt).wf(),
            h.ptr_spec() == ptr,
            final(rt).n_objects() == old(rt).n_objects(),
            ptr matches Some(p) ==> final(rt).count_of(p) == old(rt).count_of(p) + 1 && final(rt).retains_of(p) == old(rt).retains_of(p) + 1 && final(rt).releases_of(p) == old(rt).releases_of(p),
            ptr is None ==> *final(rt) == *old(rt),
            final(rt).frames_view() == old(rt).frames_view(),
            forall|q: usize|
                (q as nat) < old(rt).n_objects() && Some(q) != ptr ==> #[trigger] final(rt).same_stats_as(old(rt), q),
    {
        match ptr {
            Some(p) => {
                rt.retain(p);
                R { ptr: Some(p) }
            },
            None => R { ptr: None },
        }
    }

    /// A non-owning view of this handle's pointer, valid while the handle
    /// is.
    pub fn as_borrowed(&self) -> (b: Borrowed)
        ensures
            b.ptr_spec() == self.ptr_spec(),
    {
        Borrowed { ptr: self.ptr }
    }

    /// Clones the handle: one foreign retain, one new handle.  The ledger
    /// steps exactly as [`lineage_step`] does on a clone.
    pub fn clone(&self, rt: &mut Rt) -> (h: R)
        requires
            old(rt).wf(),
            can_retain(*old(rt), self.ptr_spec()),
        ensures
            final(rt).wf(),
            h.ptr_spec() == self.ptr_spec(),
            final(rt).n_objects() == old(rt).n_objects(),
            self.ptr_spec() matches Some(p) ==> final(rt).count_of(p) == old(rt).count_of(p) + 1
                && final(rt).retains_of(p) == old(rt).retains_of(p) + 1 && final(rt).releases_of(p)
                == old(rt).releases_of(p),
            self.ptr_spec() is None ==> *final(rt) == *old(rt),
            final(rt).frames_view() == old(rt).frames_view(),
            forall|q: usize|
                (q as nat) < old(rt).n_objects() && Some(q) != self.ptr_spec() ==> #[trigger] final(rt).same_stats_as(old(rt), q),
    {
        R::retain_wrap(rt, self.ptr)
    }

    /// Releases the handle's reference: one foreign decrement, possibly
    /// deallocating the object.  The ledger steps exactly as
    /// [`lineage_step`] does on a drop.  The empty handle releases
    /// nothing.
    pub fn release(self, rt: &mut Rt)
        requires
            old(rt).wf(),
            can_release(*old(rt), self.ptr_spec()),
        ensures
            final(rt).wf(),
            final(rt).n_objects() == old(rt).n_objects(),
            self.ptr_spec() matches Some(p) ==> final(rt).count_of(p) == old(rt).count_of(p) - 1
                && final(rt).releases_of(p) == old(rt).releases_of(p) + 1 && final(rt).retains_of(p) == old(rt).retains_of(p),
            self.ptr_spec() is None ==> *final(rt) == *old(rt),
            final(rt).frames_view() == old(rt).frames_view(),
            forall|q: usize|
                (q as nat) < old(rt).n_objects() && Some(q) != self.ptr_spec() ==> #[trigger] final(rt).same_stats_as(old(rt), q),
    {
        match self.ptr {
            Some(p) => rt.release(p),
            None => (),
        }
    }

    /// Hands the handle's reference to the innermost autorelease frame:
    /// the count is unchanged now, and the frame's pop will pay the
    /// release back.
    pub fn autoreleased(self, rt: &mut Rt) -> (ar: Rar)
        requires
            old(rt).wf(),
            self.ptr_spec() is Some ==> old(rt).pool_depth_spec() > 0,
            can_release(*old(rt), self.ptr_spec()),
        ensures
            final(rt).wf(),
            ar.ptr_spec() == self.ptr_spec(),
            final(rt).n_objects() == old(rt).n_objects(),
            self.ptr_spec() matches Some(p) ==> final(rt).pending_of(p) == old(rt).pending_of(p)
                + 1 && final(rt).same_stats_as(old(rt), p) && final(rt).pool_depth_spec() == old(rt).pool_depth_spec(),
            self.ptr_spec() is None ==> *final(rt) == *old(rt),
            forall|q: usize|
                (q as nat) < old(rt).n_objects() ==> #[trigger] final(rt).same_stats_as(old(rt), q),
    {
        match self.ptr {
            Some(p) => {
                rt.autorelease(p);
                Rar { ptr: Some(p) }
            },
            None => Rar { ptr: None },
        }
    }

    /// Whether this is the empty handle.
    pub fn is_nil(&self) -> (b: bool)
        ensures
            b == (self.ptr_spec() is None),
    {
        self.ptr.is_none()
    }

    /// The raw pointer value, for handing to foreign entry points.
    pub fn ptr(&self) -> (p: Option<usize>)
        ensures
            p == self.ptr_spec(),
    {
        self.ptr
    }
}

impl Borrowed {
    /// The pointer this reference views, if any.
    pub closed spec fn ptr_spec(self) -> Option<usize> {
        self.ptr
    }

    /// A borrowed view of a raw pointer.  The caller is responsible for
    /// using the view only while the owner that produced the pointer is
    /// alive.
    pub fn wrap(ptr: Option<usize>) -> (b: Borrowed)
        ensures
            b.ptr_spec() == ptr,
    {
        Borrowed { ptr }
    }

    /// Promotes the borrowed view to an owning handle; promotion is always
    /// explicit and always retains.
    pub fn retained(&self, rt: &mut Rt) -> (h: R)
        requires
            old(rt).wf(),
            can_retain(*old(rt), self.ptr_spec()),
        ensures
            final(rt).wf(),
            h.ptr_spec() == self.ptr_spec(),
            final(rt).n_objects() == old(rt).n_objects(),
            self.ptr_spec() matches Some(p) ==> final(rt).count_of(p) == old(rt).count_of(p) + 1
                && final(rt).retains_of(p) == old(rt).retains_of(p) + 1 && final(rt).releases_of(p)
                == old(rt).releases_of(p),
            self.ptr_spec() is None ==> *final(rt) == *old(rt),
    {
        R::retain_wrap(rt, self.ptr)
    }

    /// The raw pointer value.
    pub fn ptr(&self) -> (p: Option<usize>)
        ensures
            p == self.ptr_spec(),
    {
        self.ptr
    }
}

impl Rar {
    /// The pointer this autoreleased reference holds, if any.
    pub closed spec fn ptr_spec(self) -> Option<usize> {
        self.ptr
    }

    /// Wraps a pointer handed back autoreleased by a foreign call: its one
    /// reference is already owed to the innermost autorelease frame.
    pub fn wrap(ptr: Option<usize>) -> (ar: Rar)
        ensures
            ar.ptr_spec() == ptr,
    {
        Rar { ptr }
    }

    /// Promotes the autoreleased reference to an owning handle before its
    /// frame pops; always retains.
    pub fn retained(&self, rt: &mut Rt) -> (h: R)
        requires
            old(rt).wf(),
            can_retain(*old(rt), self.ptr_spec()),
        ensures
            final(rt).wf(),
            h.ptr_spec() == self.ptr_spec(),
            final(rt).n_objects() == old(rt).n_objects(),
            self.ptr_spec() matches Some(p) ==> final(rt).count_of(p) == old(rt).count_of(p) + 1
                && final(rt).retains_of(p) == old(rt).retains_of(p) + 1 && final(rt).releases_of(p)
                == old(rt).releases_of(p),
            self.ptr_spec() is None ==> *final(rt) == *old(rt),
    {
        R::retain_wrap(rt, self.ptr)
    }

    /// A non-owning view of the autoreleased pointer.
    pub fn as_borrowed(&self) -> (b: Borrowed)
        ensures
            b.ptr_spec() == self.ptr_spec(),
    {
        Borrowed { ptr: self.ptr }
    }

    /// The raw pointer value.
    pub fn ptr(&self) -> (p: Option<usize>)
        ensures
            p == self.ptr_spec(),
    {
        self.ptr
    }
}

/// One step in the life of a handle lineage: a clone issues one foreign
/// retain, a drop issues one foreign release.
pub enum LineageOp {
    CloneHandle,
    DropHandle,
}

/// The lineage's bookkeeping: the object's reference count together with
/// the retain and release calls issued for it.
pub struct LineageStats {
    pub count: int,
    pub retain_calls: int,
    pub release_calls: int,
}

/// How one lineage operation moves the ledger: exactly the effect that
/// [`R::clone`] and [`R::release`] state over [`crate::rt::Rt`].
pub open spec fn lineage_step(s: LineageStats, op: LineageOp) -> LineageStats {
    match op {
        LineageOp::CloneHandle => LineageStats {
            count: s.count + 1,
            retain_calls: s.retain_calls + 1,
            release_calls: s.release_calls,
        },
        LineageOp::DropHandle => LineageStats {
            count: s.count - 1,
            retain_calls: s.retain_calls,
            release_calls: s.release_calls + 1,
        },
    }
}

/// The ledger after a whole sequence of lineage operations.
pub open spec fn lineage_run(s: LineageStats, ops: Seq<LineageOp>) -> LineageStats
    decreases ops.len(),
{
    if ops.len() == 0 {
        s
    } else {
        lineage_step(lineage_run(s, ops.drop_last()), ops.last())
    }
}

/// Number of clones in a sequence of lineage operations.
pub open spec fn clones_in(ops: Seq<LineageOp>) -> int
    decreases ops.len(),
{
    if ops.len() == 0 {
        0
    } else {
        clones_in(ops.drop_last()) + if ops.last() is CloneHandle {
            1int
        } else {
            0int
        }
    }
}

/// Number of drops in a sequence of lineage operations.
pub open spec fn drops_in(ops: Seq<LineageOp>) -> int
    decreases ops.len(),
{
    if ops.len() == 0 {
        0
    } else {
        drops_in(ops.drop_last()) + if ops.last() is DropHandle {
            1int
        } else {
            0int
        }
    }
}

/// For any sequence of clone and drop operations on one handle lineage,
/// the net change of the foreign reference count equals the number of
/// clones minus the number of drops; every clone issues exactly one
/// foreign retain and every drop exactly one foreign release.
pub proof fn lemma_lineage_net_change(s: LineageStats, ops: Seq<LineageOp>)
    ensures
        lineage_run(s, ops).count == s.count + clones_in(ops) - drops_in(ops),
        lineage_run(s, ops).retain_calls == s.retain_calls + clones_in(ops),
        lineage_run(s, ops).release_calls == s.release_calls + drops_in(ops),
    decreases ops.len(),
{
    if ops.len() > 0 {
        lemma_lineage_net_change(s, ops.drop_last());
    }
}

/// A lineage that starts from one originally-owned reference and reaches
/// zero live references has issued exactly one foreign release for the
/// original reference and one more for every clone.
pub proof fn lemma_zero_live_handles_release_all(s: LineageStats, ops: Seq<LineageOp>)
    requires
        s.count + s.release_calls == 1 + s.retain_calls,
    ensures
        lineage_run(s, ops).count + lineage_run(s, ops).release_calls == 1 + lineage_run(
            s,
            ops,
        ).retain_calls,
        lineage_run(s, ops).count == 0 ==> lineage_run(s, ops).release_calls == 1 + lineage_run(
            s,
            ops,
        ).retain_calls,
{
    lemma_lineage_net_change(s, ops);
}

} // verus!
