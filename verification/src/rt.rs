//! Ledger of the foreign runtime's reference counts.
//!
//! The foreign runtime keeps one reference count per object and a
//! thread-local stack of autorelease frames.  [`Rt`] records exactly that
//! state, together with the number of retain and release calls issued for
//! every object, so the ownership layer above it can be held to the
//! runtime's rules: each live reference is attributable, a release to zero
//! deallocates, and a deferred (autoreleased) reference is paid back no
//! later than the pop of the frame that holds it.

use vstd::prelude::*;

verus! {

/// Ceiling on the number of retain calls one object can receive; keeps all
/// of the ledger's counters well inside `u64`.
pub const MAX_RETAINS: u64 = 0xFFFF_FFFF;

/// Number of occurrences of `p` in one autorelease frame.
pub open spec fn occ(frame: Seq<usize>, p: usize) -> nat
    decreases frame.len(),
{
    if frame.len() == 0 {
        0
    } else {
        occ(frame.drop_last(), p) + if frame.last() == p {
            1nat
        } else {
            0nat
        }
    }
}

/// Deferred releases owed to `p` across a stack of autorelease frames.
pub open spec fn pending_in(frames: Seq<Seq<usize>>, p: usize) -> nat
    decreases frames.len(),
{
    if frames.len() == 0 {
        0
    } else {
        pending_in(frames.drop_last(), p) + occ(frames.last(), p)
    }
}

/// Every entry of the frame names an object below `n`.
pub open spec fn frame_ok(frame: Seq<usize>, n: nat) -> bool {
    forall|j: int| 0 <= j < frame.len() ==> (#[trigger] frame[j] as nat) < n
}

/// The foreign runtime's state: one reference count per object, the
/// retain/release history, and the autorelease frame stack.
pub struct Rt {
    counts: Vec<u64>,
    retains: Vec<u64>,
    releases: Vec<u64>,
    pools: Vec<Vec<usize>>,
}

impl Rt {
    /// The reference counts, indexed by object.
    pub closed spec fn counts_view(self) -> Seq<u64> {
        self.counts@
    }

    /// Retain calls issued per object (the allocation's own reference is
    /// not counted here).
    pub closed spec fn retains_view(self) -> Seq<u64> {
        self.retains@
    }

    /// Release calls issued per object.
    pub closed spec fn releases_view(self) -> Seq<u64> {
        self.releases@
    }

    /// The autorelease frames, innermost last.
    pub closed spec fn frames_view(self) -> Seq<Seq<usize>> {
        self.pools@.map_values(|f: Vec<usize>| f@)
    }

    /// How many objects the runtime has handed out so far.
    pub open spec fn n_objects(self) -> nat {
        self.counts_view().len()
    }

    /// Current reference count of `p`.
    pub open spec fn count_of(self, p: usize) -> nat
        recommends
            (p as nat) < self.n_objects(),
    {
        self.counts_view()[p as int] as nat
    }

    /// Retain calls issued for `p` so far.
    pub open spec fn retains_of(self, p: usize) -> nat
        recommends
            (p as nat) < self.n_objects(),
    {
        self.retains_view()[p as int] as nat
    }

    /// Release calls issued for `p` so far.
    pub open spec fn releases_of(self, p: usize) -> nat
        recommends
            (p as nat) < self.n_objects(),
    {
        self.releases_view()[p as int] as nat
    }

    /// Releases deferred for `p` in the autorelease stack.
    pub open spec fn pending_of(self, p: usize) -> nat {
        pending_in(self.frames_view(), p)
    }

    /// Depth of the autorelease frame stack.
    pub open spec fn pool_depth_spec(self) -> nat {
        self.frames_view().len()
    }

    /// The innermost autorelease frame.
    pub open spec fn top_frame(self) -> Seq<usize>
        recommends
            self.pool_depth_spec() > 0,
    {
        self.frames_view().last()
    }

    /// After a frame pop, `q` received exactly one release per entry the
    /// frame held for it, and its retain history is untouched.
    pub open spec fn popped_stats(self, pre: &Rt, frame: Seq<usize>, q: usize) -> bool {
        &&& self.count_of(q) == pre.count_of(q) - occ(frame, q)
        &&& self.releases_of(q) == pre.releases_of(q) + occ(frame, q)
        &&& self.retains_of(q) == pre.retains_of(q)
    }

    /// `p`'s count, retain and release history agree in `self` and `pre`.
    pub open spec fn same_stats_as(self, pre: &Rt, q: usize) -> bool {
        &&& self.count_of(q) == pre.count_of(q)
        &&& self.retains_of(q) == pre.retains_of(q)
        &&& self.releases_of(q) == pre.releases_of(q)
    }

    /// Per-object bookkeeping rules: the count and the release history
    /// always account exactly for the allocation's own reference plus every
    /// retain issued, and the count always covers the releases the
    /// autorelease stack still owes.
    pub open spec fn stats_ok(self, p: usize) -> bool {
        &&& self.count_of(p) + self.releases_of(p) == 1 + self.retains_of(p)
        &&& self.retains_of(p) <= MAX_RETAINS
        &&& self.pending_of(p) <= self.count_of(p)
    }

    /// The whole ledger is consistent.
    pub closed spec fn wf(self) -> bool {
        &&& self.retains_view().len() == self.n_objects()
        &&& self.releases_view().len() == self.n_objects()
        &&& forall|p: usize| (p as nat) < self.n_objects() ==> #[trigger] self.stats_ok(p)
        &&& forall|i: int|
            0 <= i < self.frames_view().len() ==> frame_ok(
                #[trigger] self.frames_view()[i],
                self.n_objects(),
            )
    }

    /// The conservation law of the ledger: every object was born with one
    /// owned reference, so its current count plus the releases issued equal
    /// one plus the retains issued.  In particular, once the count has
    /// reached zero, the object has received exactly one release for the
    /// original reference and one more for every retain.
    pub proof fn lemma_conservation(self, p: usize)
        requires
            self.wf(),
            (p as nat) < self.n_objects(),
        ensures
            self.count_of(p) + self.releases_of(p) == 1 + self.retains_of(p),
            self.count_of(p) == 0 ==> self.releases_of(p) == 1 + self.retains_of(p),
    {
        assert(self.stats_ok(p));
    }

    /// An empty runtime: no objects, no autorelease frames.
    pub fn new() -> (rt: Rt)
        ensures
            rt.wf(),
            rt.n_objects() == 0,
            rt.pool_depth_spec() == 0,
    {
        let rt = Rt {
            counts: Vec::new(),
            retains: Vec::new(),
            releases: Vec::new(),
            pools: Vec::new(),
        };
        proof {
            assert(rt.frames_view() =~= Seq::<Seq<usize>>::empty());
        }
        rt
    }

    /// Models a "new"-style foreign entry point: a fresh object whose
    /// reference count starts at one, owned by the caller.
    pub fn new_object(&mut self) -> (p: usize)
        requires
            old(self).wf(),
            old(self).n_objects() < usize::MAX,
        ensures
            final(self).wf(),
            (p as nat) == old(self).n_objects(),
            final(self).n_objects() == old(self).n_objects() + 1,
            final(self).count_of(p) == 1,
            final(self).retains_of(p) == 0,
            final(self).releases_of(p) == 0,
            final(self).frames_view() == old(self).frames_view(),
            forall|q: usize|
                (q as nat) < old(self).n_objects() ==> #[trigger] final(self).same_stats_as(
                    old(self),
                    q,
                ),
    {
        let p = self.counts.len();
        self.counts.push(1);
        self.retains.push(0);
        self.releases.push(0);
        proof {
            assert(self.frames_view() =~= old(self).frames_view());
            lemma_pending_absent(self.frames_view(), old(self).n_objects(), p);
            assert forall|q: usize| (q as nat) < self.n_objects() implies #[trigger] self.stats_ok(
                q,
            ) by {
                if (q as nat) < old(self).n_objects() {
                    assert(old(self).stats_ok(q));
                }
            }
            assert forall|q: usize| (q as nat) < old(self).n_objects() implies #[trigger] self
                .same_stats_as(old(self), q) by {}
            assert forall|i: int| 0 <= i < self.frames_view().len() implies frame_ok(
                #[trigger] self.frames_view()[i],
                self.n_objects(),
            ) by {
                assert(frame_ok(old(self).frames_view()[i], old(self).n_objects()));
                assert forall|j: int| 0 <= j < self.frames_view()[i].len() implies (
                #[trigger] self.frames_view()[i][j] as nat) < self.n_objects() by {
                    assert((self.frames_view()[i][j] as nat) < old(self).n_objects());
                }
            }
        }
        p
    }

    /// Models the foreign `retain` service: one atomic increment.
    pub fn retain(&mut self, p: usize)
        requires
            old(self).wf(),
            (p as nat) < old(self).n_objects(),
            old(self).count_of(p) > 0,
            old(self).retains_of(p) < MAX_RETAINS,
        ensures
            final(self).wf(),
            final(self).n_objects() == old(self).n_objects(),
            final(self).count_of(p) == old(self).count_of(p) + 1,
            final(self).retains_of(p) == old(self).retains_of(p) + 1,
            final(self).releases_of(p) == old(self).releases_of(p),
            final(self).frames_view() == old(self).frames_view(),
            forall|q: usize|
                (q as nat) < old(self).n_objects() && q != p ==> #[trigger] final(self).same_stats_as(old(self), q),
    {
        proof {
            assert(old(self).stats_ok(p));
        }
        let c = self.counts[p];
        let r = self.retains[p];
        self.counts.set(p, c + 1);
        self.retains.set(p, r + 1);
        proof {
            assert forall|q: usize| (q as nat) < self.n_objects() implies #[trigger] self.stats_ok(
                q,
            ) by {
                assert(old(self).stats_ok(q));
            }
        }
    }

    /// Models the foreign `release` service: one atomic decrement; a
    /// decrement to zero deallocates the object.  The released reference
    /// must be one the caller owns outright — never one that the
    /// autorelease stack still owes.
    pub fn release(&mut self, p: usize)
        requires
            old(self).wf(),
            (p as nat) < old(self).n_objects(),
            old(self).count_of(p) >= 1 + old(self).pending_of(p),
        ensures
            final(self).wf(),
            final(self).n_objects() == old(self).n_objects(),
            final(self).count_of(p) == old(self).count_of(p) - 1,
            final(self).retains_of(p) == old(self).retains_of(p),
            final(self).releases_of(p) == old(self).releases_of(p) + 1,
            final(self).frames_view() == old(self).frames_view(),
            forall|q: usize|
                (q as nat) < old(self).n_objects() && q != p ==> #[trigger] final(self).same_stats_as(old(self), q),
    {
        proof {
            assert(old(self).stats_ok(p));
        }
        let c = self.counts[p];
        let r = self.releases[p];
        self.counts.set(p, c - 1);
        self.releases.set(p, r + 1);
        proof {
            assert forall|q: usize| (q as nat) < self.n_objects() implies #[trigger] self.stats_ok(
                q,
            ) by {
                assert(old(self).stats_ok(q));
            }
        }
    }

    /// Models the foreign `autorelease` service: one of the caller's owned
    /// references is handed to the innermost autorelease frame, to be
    /// released when that frame pops.
    pub fn autorelease(&mut self, p: usize)
        requires
            old(self).wf(),
            (p as nat) < old(self).n_objects(),
            old(self).pool_depth_spec() > 0,
            old(self).count_of(p) >= 1 + old(self).pending_of(p),
        ensures
            final(self).wf(),
            final(self).n_objects() == old(self).n_objects(),
            final(self).pool_depth_spec() == old(self).pool_depth_spec(),
            final(self).pending_of(p) == old(self).pending_of(p) + 1,
            final(self).frames_view() == old(self).frames_view().update(
                old(self).pool_depth_spec() - 1,
                old(self).top_frame().push(p),
            ),
            forall|q: usize|
                (q as nat) < old(self).n_objects() ==> #[trigger] final(self).same_stats_as(
                    old(self),
                    q,
                ),
            forall|q: usize|
                q != p ==> #[trigger] final(self).pending_of(q) == old(self).pending_of(q),
    {
        let mut frame = self.pools.pop().unwrap();
        let ghost pre_frames = old(self).frames_view();
        frame.push(p);
        self.pools.push(frame);
        proof {
            let post_frames = self.frames_view();
            assert(post_frames =~= pre_frames.update(
                pre_frames.len() - 1,
                pre_frames.last().push(p),
            ));
            assert(post_frames.drop_last() =~= pre_frames.drop_last());
            assert forall|q: usize| true implies pending_in(post_frames, q) == pending_in(
                pre_frames,
                q,
            ) + (if q == p {
                1int
            } else {
                0int
            }) by {
                lemma_occ_push(pre_frames.last(), p, q);
            }
            assert forall|q: usize| (q as nat) < self.n_objects() implies #[trigger] self.stats_ok(
                q,
            ) by {
                assert(old(self).stats_ok(q));
            }
            assert forall|i: int| 0 <= i < post_frames.len() implies frame_ok(
                #[trigger] post_frames[i],
                self.n_objects(),
            ) by {
                if i < post_frames.len() - 1 {
                    assert(post_frames[i] == pre_frames[i]);
                }
            }
        }
    }

    /// Models a "new"-style foreign entry point whose result is handed back
    /// autoreleased: the fresh object's single reference is owed to the
    /// innermost autorelease frame.
    pub fn new_autoreleased_object(&mut self) -> (p: usize)
        requires
            old(self).wf(),
            old(self).n_objects() < usize::MAX,
            old(self).pool_depth_spec() > 0,
        ensures
            final(self).wf(),
            (p as nat) == old(self).n_objects(),
            final(self).n_objects() == old(self).n_objects() + 1,
            final(self).count_of(p) == 1,
            final(self).retains_of(p) == 0,
            final(self).releases_of(p) == 0,
            final(self).pending_of(p) == 1,
            final(self).pool_depth_spec() == old(self).pool_depth_spec(),
            final(self).top_frame() == old(self).top_frame().push(p),
            final(self).frames_view() == old(self).frames_view().update(
                old(self).pool_depth_spec() - 1,
                old(self).top_frame().push(p),
            ),
            forall|q: usize|
                (q as nat) < old(self).n_objects() ==> #[trigger] final(self).same_stats_as(
                    old(self),
                    q,
                ),
            forall|q: usize|
                (q as nat) < old(self).n_objects() ==> #[trigger] final(self).pending_of(q) == old(self).pending_of(q),
    {
        let p = self.new_object();
        let ghost mid = *self;
        proof {
            assert forall|i: int| 0 <= i < mid.frames_view().len() implies frame_ok(
                #[trigger] mid.frames_view()[i],
                old(self).n_objects(),
            ) by {
                assert(frame_ok(old(self).frames_view()[i], old(self).n_objects()));
            }
            lemma_pending_absent(mid.frames_view(), old(self).n_objects(), p);
        }
        self.autorelease(p);
        proof {
            assert(self.same_stats_as(&mid, p));
            assert forall|q: usize| (q as nat) < old(self).n_objects() implies #[trigger] self
                .same_stats_as(old(self), q) by {
                assert(self.same_stats_as(&mid, q));
                assert(mid.same_stats_as(old(self), q));
            }
            assert forall|q: usize| (q as nat) < old(self).n_objects() implies #[trigger] self
                .pending_of(q) == old(self).pending_of(q) by {
                assert(q != p);
                assert(self.pending_of(q) == mid.pending_of(q));
            }
        }
        p
    }

    /// Pushes one autorelease frame: the start of one unit of work.
    pub fn pool_push(&mut self)
        requires
            old(self).wf(),
        ensures
            final(self).wf(),
            final(self).n_objects() == old(self).n_objects(),
            final(self).pool_depth_spec() == old(self).pool_depth_spec() + 1,
            final(self).frames_view() == old(self).frames_view().push(Seq::<usize>::empty()),
            final(self).top_frame() == Seq::<usize>::empty(),
            forall|q: usize|
                (q as nat) < old(self).n_objects() ==> #[trigger] final(self).same_stats_as(
                    old(self),
                    q,
                ),
            forall|q: usize| #[trigger] final(self).pending_of(q) == old(self).pending_of(q),
    {
        self.pools.push(Vec::new());
        proof {
            let post_frames = self.frames_view();
            let pre_frames = old(self).frames_view();
            assert(post_frames =~= pre_frames.push(Seq::<usize>::empty()));
            assert(post_frames.drop_last() =~= pre_frames);
            assert forall|q: usize| (q as nat) < self.n_objects() implies #[trigger] self.stats_ok(
                q,
            ) by {
                assert(old(self).stats_ok(q));
            }
        }
    }

    /// Pops the innermost autorelease frame and pays back every deferred
    /// release it holds: each object in the frame receives exactly as many
    /// releases as the frame holds entries for it, and no other object is
    /// touched.
    pub fn pool_pop(&mut self)
        requires
            old(self).wf(),
            old(self).pool_depth_spec() > 0,
        ensures
            final(self).wf(),
            final(self).n_objects() == old(self).n_objects(),
            final(self).pool_depth_spec() == old(self).pool_depth_spec() - 1,
            final(self).frames_view() == old(self).frames_view().drop_last(),
            forall|q: usize|
                (q as nat) < old(self).n_objects() ==> #[trigger] final(self).popped_stats(
                    old(self),
                    old(self).top_frame(),
                    q,
                ),
    {
        let frame = self.pools.pop().unwrap();
        let ghost pre = *old(self);
        let ghost f = frame@;
        proof {
            assert(self.frames_view() =~= pre.frames_view().drop_last());
            assert(f == pre.frames_view()[pre.frames_view().len() - 1]);
            assert(frame_ok(f, pre.n_objects()));
            assert forall|q: usize| (q as nat) < self.n_objects() implies #[trigger] self.stats_ok(
                q,
            ) by {
                assert(pre.stats_ok(q));
                lemma_pending_split(pre.frames_view(), q);
                assert(f.take(0) =~= Seq::<usize>::empty());
            }
            assert forall|q: usize| (q as nat) < pre.n_objects() implies {
                &&& #[trigger] self.count_of(q) == pre.count_of(q) - occ(f.take(0), q)
                &&& self.releases_of(q) == pre.releases_of(q) + occ(f.take(0), q)
                &&& self.retains_of(q) == pre.retains_of(q)
            } by {
                assert(f.take(0) =~= Seq::<usize>::empty());
            }
        }
        let n = frame.len();
        let mut i: usize = 0;
        while i < n
            invariant
                n == f.len(),
                frame@ == f,
                i <= n,
                self.wf(),
                self.n_objects() == pre.n_objects(),
                self.frames_view() == pre.frames_view().drop_last(),
                frame_ok(f, pre.n_objects()),
                pre.wf(),
                pre.pool_depth_spec() > 0,
                f == pre.top_frame(),
                forall|q: usize|
                    (q as nat) < pre.n_objects() ==> {
                        &&& #[trigger] self.count_of(q) == pre.count_of(q) - occ(
                            f.take(i as int),
                            q,
                        )
                        &&& self.releases_of(q) == pre.releases_of(q) + occ(f.take(i as int), q)
                        &&& self.retains_of(q) == pre.retains_of(q)
                    },
            decreases n - i,
        {
            let q = frame[i];
            let ghost prev = *self;
            proof {
                lemma_occ_take_le(f, i as int + 1, q);
                lemma_occ_take_step(f, i as int, q);
                // The release below is backed: pre's count covers the whole
                // stack's deferred releases, of which the already-paid part
                // is occ(f.take(i)) and at least one more entry (this one)
                // is still ahead.
                lemma_pending_split(pre.frames_view(), q);
                assert(pre.stats_ok(q));
                assert(occ(f.take(i as int + 1), q) == occ(f.take(i as int), q) + 1);
                assert(occ(f, q) >= occ(f.take(i as int + 1), q));
                assert(pre.count_of(q) >= pending_in(pre.frames_view().drop_last(), q) + occ(f, q));
                assert(self.count_of(q) >= 1 + self.pending_of(q));
            }
            self.release(q);
            proof {
                assert forall|r: usize| (r as nat) < pre.n_objects() implies {
                    &&& #[trigger] self.count_of(r) == pre.count_of(r) - occ(
                        f.take(i as int + 1),
                        r,
                    )
                    &&& self.releases_of(r) == pre.releases_of(r) + occ(f.take(i as int + 1), r)
                    &&& self.retains_of(r) == pre.retains_of(r)
                } by {
                    lemma_occ_take_step(f, i as int, r);
                    if r != q {
                        assert(self.same_stats_as(&prev, r));
                    }
                }
            }
            i = i + 1;
        }
        proof {
            assert(f.take(n as int) =~= f);
            assert forall|q: usize| (q as nat) < pre.n_objects() implies #[trigger] self
                .popped_stats(&pre, f, q) by {}
        }
    }

    /// How many objects the runtime has handed out.
    pub fn object_count(&self) -> (n: usize)
        ensures
            (n as nat) == self.n_objects(),
    {
        self.counts.len()
    }

    /// Current reference count of `p`.
    pub fn count(&self, p: usize) -> (c: u64)
        requires
            (p as nat) < self.n_objects(),
        ensures
            (c as nat) == self.count_of(p),
    {
        self.counts[p]
    }

    /// Retain calls issued for `p` so far.
    pub fn retain_calls(&self, p: usize) -> (c: u64)
        requires
            self.wf(),
            (p as nat) < self.n_objects(),
        ensures
            (c as nat) == self.retains_of(p),
    {
        self.retains[p]
    }

    /// Release calls issued for `p` so far.
    pub fn release_calls(&self, p: usize) -> (c: u64)
        requires
            self.wf(),
            (p as nat) < self.n_objects(),
        ensures
            (c as nat) == self.releases_of(p),
    {
        self.releases[p]
    }

    /// Whether `p` is still allocated (reference count above zero).
    pub fn live(&self, p: usize) -> (l: bool)
        requires
            (p as nat) < self.n_objects(),
        ensures
            l == (self.count_of(p) > 0),
    {
        self.counts[p] > 0
    }

    /// Depth of the autorelease frame stack.
    pub fn pool_depth(&self) -> (d: usize)
        ensures
            (d as nat) == self.pool_depth_spec(),
    {
        self.pools.len()
    }
}

/// Appending one entry raises its object's occurrence count by one and no
/// other's.
pub broadcast proof fn lemma_occ_push(frame: Seq<usize>, p: usize, q: usize)
    ensures
        #[trigger] occ(frame.push(p), q) == occ(frame, q) + if p == q {
            1nat
        } else {
            0nat
        },
{
    assert(frame.push(p).drop_last() =~= frame);
}

/// A prefix of a frame holds no more occurrences than the whole frame.
proof fn lemma_occ_take_le(frame: Seq<usize>, i: int, q: usize)
    requires
        0 <= i <= frame.len(),
    ensures
        occ(frame.take(i), q) <= occ(frame, q),
    decreases frame.len(),
{
    if i == frame.len() {
        assert(frame.take(i) =~= frame);
    } else {
        assert(frame.take(i) =~= frame.drop_last().take(i));
        lemma_occ_take_le(frame.drop_last(), i, q);
    }
}

/// Extending a prefix by one entry adds that entry's occurrence.
proof fn lemma_occ_take_step(frame: Seq<usize>, i: int, q: usize)
    requires
        0 <= i < frame.len(),
    ensures
        occ(frame.take(i + 1), q) == occ(frame.take(i), q) + if frame[i] == q {
            1nat
        } else {
            0nat
        },
{
    assert(frame.take(i + 1).drop_last() =~= frame.take(i));
    assert(frame.take(i + 1).last() == frame[i]);
}

/// The stack's deferred releases split into the outer frames' and the
/// innermost frame's.
proof fn lemma_pending_split(frames: Seq<Seq<usize>>, q: usize)
    requires
        frames.len() > 0,
    ensures
        pending_in(frames, q) == pending_in(frames.drop_last(), q) + occ(frames.last(), q),
{
}

/// Occurrences of an object above every entry of a well-bounded frame are
/// zero.
proof fn lemma_occ_absent(frame: Seq<usize>, n: nat, p: usize)
    requires
        frame_ok(frame, n),
        (p as nat) >= n,
    ensures
        occ(frame, p) == 0,
    decreases frame.len(),
{
    if frame.len() > 0 {
        assert(frame_ok(frame.drop_last(), n));
        lemma_occ_absent(frame.drop_last(), n, p);
    }
}

/// Deferred releases for an object the runtime has not handed out yet are
/// zero.
proof fn lemma_pending_absent(frames: Seq<Seq<usize>>, n: nat, p: usize)
    requires
        forall|i: int| 0 <= i < frames.len() ==> frame_ok(#[trigger] frames[i], n),
        (p as nat) >= n,
    ensures
        pending_in(frames, p) == 0,
    decreases frames.len(),
{
    if frames.len() > 0 {
        assert(forall|i: int|
            0 <= i < frames.drop_last().len() ==> frame_ok(
                #[trigger] frames.drop_last()[i],
                n,
            ));
        lemma_pending_absent(frames.drop_last(), n, p);
        lemma_occ_absent(frames.last(), n, p);
    }
}

} // verus!
