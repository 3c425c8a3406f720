//! Semaphore and queue behavior.

use cidre::dispatch::{ConcurentQueue, Queue, Semaphore};

/// A semaphore initialized with three signals grants exactly three
/// immediate waits; the fourth finds nothing.
#[test]
fn semaphore_grants_exactly_initial_signals() {
    let mut sem = Semaphore::new(3);
    assert!(sem.try_wait());
    assert!(sem.try_wait());
    assert!(sem.try_wait());
    assert!(!sem.try_wait());
    assert_eq!(sem.value(), 0);
}

/// A wait with no signal available parks the caller; each signal then
/// unblocks exactly one waiter.
#[test]
fn each_signal_unblocks_exactly_one_waiter() {
    let mut sem = Semaphore::new(0);
    assert!(!sem.wait_or_enqueue());
    assert!(!sem.wait_or_enqueue());
    assert_eq!(sem.waiters(), 2);

    assert!(sem.signal());
    assert_eq!(sem.waiters(), 1);
    assert!(sem.signal());
    assert_eq!(sem.waiters(), 0);

    // With nobody parked, a signal only raises the count.
    assert!(!sem.signal());
    assert_eq!(sem.value(), 1);
}

/// The serial queue drains in strict submission order.
#[test]
fn serial_queue_is_fifo() {
    let mut q = Queue::new();
    q.submit(10);
    q.submit(20);
    q.submit(30);
    assert_eq!(q.len(), 3);
    assert_eq!(q.drain_next(), Some(10));
    assert_eq!(q.drain_next(), Some(20));
    assert_eq!(q.drain_next(), Some(30));
    assert_eq!(q.drain_next(), None);
    assert!(q.is_empty());
}

/// The concurrent queue hands back some pending unit, one at a time.
#[test]
fn concurrent_queue_drains_the_bag() {
    let mut q = ConcurentQueue::new();
    q.submit(1);
    q.submit(2);
    assert_eq!(q.len(), 2);

    let mut seen = Vec::new();
    while let Some(w) = q.take_any() {
        seen.push(w);
    }
    seen.sort();
    assert_eq!(seen, vec![1, 2]);
    assert_eq!(q.len(), 0);
}
