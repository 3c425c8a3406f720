//! The callback-to-future bridge.
//!
//! A single-shot [`CallbackCell`] turns one native completion callback
//! into an awaitable result.  The cell resolves exactly once: the first
//! firing captures the value, every later firing is detected and
//! discarded (its payload is still released exactly once), and
//! cancellation is a terminal state a late callback cannot leave.  The
//! promise write happens-before the future read through the semaphore the
//! cell carries — never through an unguarded read.

use vstd::prelude::*;

use crate::arc::{can_release, R};
use crate::dispatch::Semaphore;
use crate::rt::Rt;

verus! {

/// The life of a single-shot callback cell.  `Fulfilling` is the
/// transient phase in which the foreign runtime is invoking the callback,
/// possibly from an arbitrary thread; to a firing observed in any state
/// but `Pending` the cell is already spoken for.
#[derive(Clone, Copy, PartialEq, Eq, Structural, Debug)]
pub enum CellState {
    Pending,
    Fulfilling,
    Fulfilled,
    Cancelled,
}

/// The cell's observable part: its state and, once fulfilled, the
/// captured payload pointer.
pub struct CellModel {
    pub state: CellState,
    pub payload: Option<Option<usize>>,
}

/// How one callback firing moves the cell: a pending cell captures the
/// value and resolves; any other cell is left exactly as it was.
pub open spec fn fire_transition(m: CellModel, v: Option<usize>) -> CellModel {
    if m.state is Pending {
        CellModel { state: CellState::Fulfilled, payload: Some(v) }
    } else {
        m
    }
}

/// How cancellation moves the cell: only a pending cell becomes
/// cancelled; resolution and cancellation are both terminal.
pub open spec fn cancel_transition(m: CellModel) -> CellModel {
    if m.state is Pending {
        CellModel { state: CellState::Cancelled, payload: m.payload }
    } else {
        m
    }
}

/// A misbehaving foreign callback that fires twice applies only the first
/// resolution: the second firing finds the cell resolved and changes
/// neither the state nor the stored value.
pub proof fn lemma_second_fire_ignored(m: CellModel, v1: Option<usize>, v2: Option<usize>)
    requires
        m.state is Pending,
    ensures
        fire_transition(m, v1).state is Fulfilled,
        fire_transition(m, v1).payload == Some(v1),
        fire_transition(fire_transition(m, v1), v2) == fire_transition(m, v1),
{
}

/// A callback cell cancelled before its callback fires stays in its
/// cancelled terminal state: the late firing modifies nothing.
pub proof fn lemma_late_fire_after_cancel(m: CellModel, v: Option<usize>)
    requires
        m.state is Pending,
    ensures
        cancel_transition(m).state is Cancelled,
        fire_transition(cancel_transition(m), v) == cancel_transition(m),
{
}

/// The fixed-signature entry point the foreign runtime invokes, paired
/// with the opaque context it hands back.
#[derive(Clone, Copy, PartialEq, Eq, Structural)]
pub struct Trampoline {
    context: u64,
}

impl Trampoline {
    /// The opaque context the foreign runtime will pass back.
    pub closed spec fn context_spec(self) -> u64 {
        self.context
    }

    /// The opaque context value.
    pub fn context(&self) -> (c: u64)
        ensures
            c == self.context_spec(),
    {
        self.context
    }
}

/// A single-shot callback cell together with the future it resolves.
/// The promise side is written exactly once, by the first firing; the
/// future side reads the cached value idempotently after resolution.
pub struct CallbackCell {
    state: CellState,
    value: Option<R>,
    fires: u64,
    sem: Semaphore,
}

impl CallbackCell {
    /// The cell's current state.
    pub closed spec fn state_spec(self) -> CellState {
        self.state
    }

    /// The captured payload pointer, once fulfilled.
    pub closed spec fn payload_view(self) -> Option<Option<usize>> {
        match self.value {
            Some(r) => Some(r.ptr_spec()),
            None => None,
        }
    }

    /// The cell's observable part.
    pub open spec fn model(self) -> CellModel {
        CellModel { state: self.state_spec(), payload: self.payload_view() }
    }

    /// How many times the foreign side has fired the callback.
    pub closed spec fn fires_spec(self) -> nat {
        self.fires as nat
    }

    /// The cell's internal rules: the payload is stored exactly when the
    /// cell is fulfilled, nobody waits on the private semaphore, and the
    /// semaphore holds at most the one resolution signal, which exists
    /// only once the cell is fulfilled.
    pub open spec fn inv(self) -> bool {
        &&& (self.payload_view() is Some) <==> (self.state_spec() is Fulfilled)
        &&& self.sem_view().1 == 0
        &&& self.sem_view().0 <= 1
        &&& self.sem_view().0 == 1 ==> self.state_spec() is Fulfilled
    }

    /// The private semaphore's (signals, waiters) pair.
    pub closed spec fn sem_view(self) -> (nat, nat) {
        (self.sem.value_spec(), self.sem.waiters_spec())
    }

    /// How many resolution signals are posted and not yet consumed: one
    /// after the resolving firing, until the future side takes it.
    pub open spec fn signals(self) -> nat {
        self.sem_view().0
    }

    /// Registers a single-shot callback: a pending cell, and the
    /// trampoline the foreign asynchronous entry point will invoke with
    /// the given opaque context.
    pub fn register_single_shot_callback(context: u64) -> (r: (CallbackCell, Trampoline))
        ensures
            r.0.inv(),
            r.0.state_spec() is Pending,
            r.0.payload_view() is None,
            r.0.fires_spec() == 0,
            r.0.signals() == 0,
            r.1.context_spec() == context,
    {
        let cell = CallbackCell {
            state: CellState::Pending,
            value: None,
            fires: 0,
            sem: Semaphore::new(0),
        };
        (cell, Trampoline { context })
    }

    /// One firing of the native callback, delivering `payload`.  The
    /// first firing of a pending cell captures the payload, resolves the
    /// cell and posts the resolution signal; a firing observed in any
    /// other state is discarded — it must never re-run completion logic or
    /// overwrite the stored value — but its payload is still released
    /// exactly once, so a duplicate or late delivery leaks nothing.
    pub fn fire(&mut self, rt: &mut Rt, payload: R)
        requires
            old(self).inv(),
            old(self).fires_spec() < u64::MAX,
            old(rt).wf(),
            !(old(self).state_spec() is Pending) ==> can_release(*old(rt), payload.ptr_spec()),
        ensures
            final(self).inv(),
            final(rt).wf(),
            final(self).model() == fire_transition(old(self).model(), payload.ptr_spec()),
            final(self).fires_spec() == old(self).fires_spec() + 1,
            old(self).state_spec() is Pending ==> *final(rt) == *old(rt) && final(self).signals()
                == old(self).signals() + 1,
            !(old(self).state_spec() is Pending) ==> final(self).signals() == old(self).signals(),
            !(old(self).state_spec() is Pending) ==> {
                &&& (payload.ptr_spec() matches Some(p) ==> final(rt).count_of(p) == old(
                    rt,
                ).count_of(p) - 1 && final(rt).releases_of(p) == old(rt).releases_of(p) + 1)
                &&& (payload.ptr_spec() is None ==> *final(rt) == *old(rt))
            },
            final(rt).n_objects() == old(rt).n_objects(),
    {
        self.fires = self.fires + 1;
        match self.state {
            CellState::Pending => {
                self.state = CellState::Fulfilled;
                self.value = Some(payload);
                self.sem.signal();
            },
            _ => {
                payload.release(rt);
            },
        }
    }

    /// Withdraws interest before fulfillment.  Only a pending cell
    /// becomes cancelled; a resolved cell keeps its value.  Cancellation
    /// only suppresses propagation of a later result — foreign-side work
    /// already started is not stopped here.
    pub fn cancel(&mut self)
        requires
            old(self).inv(),
        ensures
            final(self).inv(),
            final(self).model() == cancel_transition(old(self).model()),
            final(self).fires_spec() == old(self).fires_spec(),
            final(self).signals() == old(self).signals(),
    {
        match self.state {
            CellState::Pending => {
                self.state = CellState::Cancelled;
            },
            _ => (),
        }
    }

    /// Consumes the resolution signal if one is posted: the happens-before
    /// edge from the promise write to the future read.  A `true` result
    /// guarantees the cell is fulfilled and its value readable.
    pub fn await_ready(&mut self) -> (ready: bool)
        requires
            old(self).inv(),
        ensures
            final(self).inv(),
            ready == (old(self).signals() > 0),
            ready ==> final(self).state_spec() is Fulfilled && final(self).signals() == old(
                self,
            ).signals() - 1,
            !ready ==> final(self).signals() == old(self).signals(),
            final(self).model() == old(self).model(),
            final(self).fires_spec() == old(self).fires_spec(),
    {
        self.sem.try_wait()
    }

    /// Awaits the future side: consumes the resolution signal if one is
    /// posted and hands back the captured payload pointer; a pending or
    /// cancelled cell reports nothing.  The consumer resumes only through
    /// the semaphore's signal — never through an unguarded read.
    pub fn await_future(&mut self) -> (r: Option<Option<usize>>)
        requires
            old(self).inv(),
        ensures
            final(self).inv(),
            r is Some <==> old(self).signals() > 0,
            r matches Some(v) ==> old(self).state_spec() is Fulfilled && Some(v) == old(
                self,
            ).payload_view() && final(self).signals() == old(self).signals() - 1,
            r is None ==> final(self).signals() == old(self).signals(),
            final(self).model() == old(self).model(),
            final(self).fires_spec() == old(self).fires_spec(),
    {
        if self.await_ready() {
            Some(self.value_ptr())
        } else {
            None
        }
    }

    /// Reads the captured payload pointer.  Reads after completion are
    /// idempotent: the cached value is returned unchanged, however often
    /// it is read.
    pub fn value_ptr(&self) -> (p: Option<usize>)
        requires
            self.inv(),
            self.state_spec() is Fulfilled,
        ensures
            Some(p) == self.payload_view(),
    {
        match &self.value {
            Some(r) => r.ptr(),
            None => None,
        }
    }

    /// The cell's current state.
    pub fn state(&self) -> (s: CellState)
        ensures
            s == self.state_spec(),
    {
        self.state
    }

    /// How many times the callback has fired so far.
    pub fn fire_count(&self) -> (n: u64)
        ensures
            (n as nat) == self.fires_spec(),
    {
        self.fires
    }

    /// Takes the resolved value out of the cell, destroying the cell: the
    /// single consumer's read.
    pub fn take_value(self) -> (h: R)
        requires
            self.inv(),
            self.state_spec() is Fulfilled,
        ensures
            Some(h.ptr_spec()) == self.payload_view(),
    {
        match self.value {
            Some(r) => r,
            None => R::wrap(None),
        }
    }

    /// Disposes of a cell nobody will await: whatever payload it still
    /// holds is released, so the "nobody awaited" path leaks nothing.
    pub fn dispose(self, rt: &mut Rt)
        requires
            old(rt).wf(),
            self.payload_view() matches Some(ptr) ==> can_release(*old(rt), ptr),
        ensures
            final(rt).wf(),
            final(rt).n_objects() == old(rt).n_objects(),
            self.payload_view() matches Some(ptr) ==> {
                &&& (ptr matches Some(p) ==> final(rt).count_of(p) == old(rt).count_of(p) - 1
                    && final(rt).releases_of(p) == old(rt).releases_of(p) + 1)
                &&& (ptr is None ==> *final(rt) == *old(rt))
            },
            self.payload_view() is None ==> *final(rt) == *old(rt),
    {
        match self.value {
            Some(r) => {
                proof {
                    assert(self.payload_view() == Some(r.ptr_spec()));
                }
                r.release(rt);
            },
            None => (),
        }
    }
}

} // verus!
