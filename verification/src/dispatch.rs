//! Dispatch primitives: a counting semaphore and execution queues.
//!
//! The semaphore is the synchronization primitive beneath the
//! callback-to-future bridge; the serial queue gives strict FIFO,
//! single-consumer execution, and the concurrent queue promises nothing
//! about order.

use vstd::prelude::*;
use vstd::multiset::Multiset;

verus! {

/// A counting semaphore.  `try_wait` is a wait with a zero timeout;
/// `wait_or_enqueue` records the caller as a waiter when no signal is
/// available (the actual blocking is the embedder's job); `signal` never
/// blocks and unblocks exactly one waiter when one is parked.
pub struct Semaphore {
    value: u64,
    waiters: u64,
}

impl Semaphore {
    /// The semaphore's current signal count.
    pub closed spec fn value_spec(self) -> nat {
        self.value as nat
    }

    /// How many waiters are parked on the semaphore.
    pub closed spec fn waiters_spec(self) -> nat {
        self.waiters as nat
    }

    /// A semaphore holding `value` signals and no waiters.
    pub fn new(value: u64) -> (s: Semaphore)
        ensures
            s.value_spec() == value,
            s.waiters_spec() == 0,
    {
        Semaphore { value, waiters: 0 }
    }

    /// Non-blocking wait: succeeds exactly when a signal is available,
    /// and then consumes one.
    pub fn try_wait(&mut self) -> (acquired: bool)
        ensures
            acquired == (old(self).value_spec() > 0),
            acquired ==> final(self).value_spec() == old(self).value_spec() - 1,
            !acquired ==> *final(self) == *old(self),
            final(self).waiters_spec() == old(self).waiters_spec(),
    {
        if self.value > 0 {
            self.value = self.value - 1;
            true
        } else {
            false
        }
    }

    /// Blocking wait, up to the decision point: consumes a signal when one
    /// is available, otherwise parks the caller as one more waiter and
    /// reports that the caller must block.
    pub fn wait_or_enqueue(&mut self) -> (acquired: bool)
        requires
            old(self).waiters_spec() < u64::MAX,
        ensures
            acquired == (old(self).value_spec() > 0),
            acquired ==> final(self).value_spec() == old(self).value_spec() - 1 && final(self).waiters_spec() == old(self).waiters_spec(),
            !acquired ==> final(self).value_spec() == 0 && final(self).waiters_spec() == old(self).waiters_spec() + 1,
    {
        if self.value > 0 {
            self.value = self.value - 1;
            true
        } else {
            self.waiters = self.waiters + 1;
            false
        }
    }

    /// Signal: never blocks.  When a waiter is parked, exactly one waiter
    /// is unblocked and the signal is consumed by it; otherwise the signal
    /// count rises by one.
    pub fn signal(&mut self) -> (woke: bool)
        requires
            old(self).value_spec() < u64::MAX,
        ensures
            woke == (old(self).waiters_spec() > 0),
            woke ==> final(self).waiters_spec() == old(self).waiters_spec() - 1 && final(self).value_spec() == old(self).value_spec(),
            !woke ==> final(self).value_spec() == old(self).value_spec() + 1 && final(self).waiters_spec() == old(self).waiters_spec(),
    {
        if self.waiters > 0 {
            self.waiters = self.waiters - 1;
            true
        } else {
            self.value = self.value + 1;
            false
        }
    }

    /// The current signal count.
    pub fn value(&self) -> (v: u64)
        ensures
            (v as nat) == self.value_spec(),
    {
        self.value
    }

    /// The current number of parked waiters.
    pub fn waiters(&self) -> (w: u64)
        ensures
            (w as nat) == self.waiters_spec(),
    {
        self.waiters
    }
}

/// The signal count left after `k` successive non-blocking waits on a
/// semaphore that started with `n` signals.
pub open spec fn value_after_waits(n: nat, k: nat) -> nat
    decreases k,
{
    if k == 0 {
        n
    } else {
        let v = value_after_waits(n, (k - 1) as nat);
        if v > 0 {
            (v - 1) as nat
        } else {
            0
        }
    }
}

/// Whether the `k`-th (1-based) of successive non-blocking waits is
/// granted.
pub open spec fn wait_granted(n: nat, k: nat) -> bool
    recommends
        k >= 1,
{
    value_after_waits(n, (k - 1) as nat) > 0
}

/// A semaphore initialized with `n` signals grants exactly the first `n`
/// immediate non-blocking waits: every wait up to the `n`-th succeeds and
/// the `n+1`-th (and all later ones) find no signal and block.  Each
/// successive wait consumes exactly one signal, as [`Semaphore::try_wait`]
/// states.
pub proof fn lemma_semaphore_grants_exactly_initial(n: nat, k: nat)
    ensures
        value_after_waits(n, k) == if k <= n {
            n - k
        } else {
            0int
        },
        1 <= k <= n ==> wait_granted(n, k),
        k > n ==> !wait_granted(n, k),
    decreases k,
{
    if k > 0 {
        lemma_semaphore_grants_exactly_initial(n, (k - 1) as nat);
    }
}

/// A strictly ordered, single-consumer execution queue: submitted work
/// runs one unit at a time in submission order, so no two submitted units
/// run concurrently with each other.
pub struct Queue {
    items: Vec<u64>,
}

impl Queue {
    /// The pending work, in submission order.
    pub closed spec fn items_view(self) -> Seq<u64> {
        self.items@
    }

    /// An empty serial queue.
    pub fn new() -> (q: Queue)
        ensures
            q.items_view() == Seq::<u64>::empty(),
    {
        let q = Queue { items: Vec::new() };
        proof {
            assert(q.items_view() =~= Seq::<u64>::empty());
        }
        q
    }

    /// Submits one unit of work; never blocks, and keeps submission
    /// order.
    pub fn submit(&mut self, work: u64)
        requires
            old(self).items_view().len() < usize::MAX,
        ensures
            final(self).items_view() == old(self).items_view().push(work),
    {
        self.items.push(work);
    }

    /// Takes the next unit to run: the earliest submitted one still
    /// pending (strict FIFO), or nothing when the queue is drained.
    pub fn drain_next(&mut self) -> (w: Option<u64>)
        ensures
            old(self).items_view().len() == 0 ==> w is None && *final(self) == *old(self),
            old(self).items_view().len() > 0 ==> w == Some(old(self).items_view()[0]) && final(self).items_view() == old(self).items_view().drop_first(),
    {
        if self.items.len() == 0 {
            None
        } else {
            let w = self.items.remove(0);
            proof {
                assert(self.items@ =~= old(self).items@.drop_first());
            }
            Some(w)
        }
    }

    /// How many units are pending.
    pub fn len(&self) -> (n: usize)
        ensures
            (n as nat) == self.items_view().len(),
    {
        self.items.len()
    }

    /// Whether the queue is drained.
    pub fn is_empty(&self) -> (b: bool)
        ensures
            b == (self.items_view().len() == 0),
    {
        self.items.len() == 0
    }
}

/// An execution queue with no ordering guarantee: pending units form a
/// bag, and any one of them may run next.  Usable only for independent,
/// non-interfering work.
pub struct ConcurentQueue {
    items: Vec<u64>,
}

impl ConcurentQueue {
    /// The pending work as a bag: no order is promised.
    pub closed spec fn items_multiset(self) -> Multiset<u64> {
        self.items@.to_multiset()
    }

    /// An empty concurrent queue.
    pub fn new() -> (q: ConcurentQueue)
        ensures
            q.items_multiset() == Multiset::<u64>::empty(),
    {
        let q = ConcurentQueue { items: Vec::new() };
        proof {
            q.items@.to_multiset_ensures();
            assert(q.items@ =~= Seq::<u64>::empty());
            assert(q.items_multiset() =~= Multiset::<u64>::empty());
        }
        q
    }

    /// Submits one unit of work; never blocks.
    pub fn submit(&mut self, work: u64)
        requires
            old(self).items_multiset().len() < usize::MAX,
        ensures
            final(self).items_multiset() == old(self).items_multiset().insert(work),
    {
        proof {
            self.items@.to_multiset_ensures();
        }
        self.items.push(work);
        proof {
            old(self).items@.to_multiset_ensures();
        }
    }

    /// Takes some pending unit — which one is not promised — or nothing
    /// when the queue is idle.
    pub fn take_any(&mut self) -> (w: Option<u64>)
        ensures
            old(self).items_multiset().len() == 0 ==> w is None && *final(self) == *old(self),
            old(self).items_multiset().len() > 0 ==> (w matches Some(u) && old(self).items_multiset().count(u) > 0 && final(self).items_multiset() == old(self).items_multiset().remove(u)),
    {
        proof {
            self.items@.to_multiset_ensures();
        }
        if self.items.len() == 0 {
            None
        } else {
            let ghost pre = self.items@;
            let w = self.items.pop().unwrap();
            proof {
                self.items@.to_multiset_ensures();
                assert(pre =~= self.items@.push(w));
                assert(pre.to_multiset() =~= self.items@.to_multiset().insert(w));
                assert(self.items@.to_multiset() =~= pre.to_multiset().remove(w));
            }
            Some(w)
        }
    }

    /// How many units are pending.
    pub fn len(&self) -> (n: usize)
        ensures
            (n as nat) == self.items_multiset().len(),
    {
        proof {
            self.items@.to_multiset_ensures();
        }
        self.items.len()
    }
}

} // verus!
