//! The callback-to-future bridge.

use cidre::arc::R;
use cidre::blocks::{CallbackCell, CellState};
use cidre::rt::Rt;

/// A misbehaving callback that fires twice: only the first resolution is
/// applied, the second firing is observably ignored and its payload is
/// released exactly once.
#[test]
fn second_fire_is_ignored() {
    let mut rt = Rt::new();
    let p1 = rt.new_object();
    let p2 = rt.new_object();
    let (mut cell, _tramp) = CallbackCell::register_single_shot_callback(7);

    cell.fire(&mut rt, R::wrap(Some(p1)));
    assert_eq!(cell.state(), CellState::Fulfilled);
    assert_eq!(cell.value_ptr(), Some(p1));

    cell.fire(&mut rt, R::wrap(Some(p2)));
    assert_eq!(cell.fire_count(), 2);
    assert_eq!(cell.state(), CellState::Fulfilled);
    assert_eq!(cell.value_ptr(), Some(p1));
    assert_eq!(rt.release_calls(p2), 1);
    assert!(!rt.live(p2));
    assert!(rt.live(p1));

    let payload = cell.take_value();
    payload.release(&mut rt);
    assert!(!rt.live(p1));
}

/// Cancelling before the callback fires leaves the cell in its cancelled
/// terminal state; the late callback is ignored for value purposes but
/// still releases its payload exactly once.
#[test]
fn late_fire_after_cancel_changes_nothing() {
    let mut rt = Rt::new();
    let p = rt.new_object();
    let (mut cell, _tramp) = CallbackCell::register_single_shot_callback(9);

    cell.cancel();
    assert_eq!(cell.state(), CellState::Cancelled);

    cell.fire(&mut rt, R::wrap(Some(p)));
    assert_eq!(cell.state(), CellState::Cancelled);
    assert_eq!(cell.fire_count(), 1);
    assert_eq!(rt.release_calls(p), 1);
    assert!(!rt.live(p));
}

/// The resolution signal is consumed through the semaphore: awaiting
/// before the firing reports not-ready, after it exactly once ready.
#[test]
fn await_consumes_the_resolution_signal() {
    let mut rt = Rt::new();
    let p = rt.new_object();
    let (mut cell, tramp) = CallbackCell::register_single_shot_callback(3);
    assert_eq!(tramp.context(), 3);

    assert!(!cell.await_ready());
    cell.fire(&mut rt, R::wrap(Some(p)));
    assert_eq!(cell.await_future(), Some(Some(p)));
    assert_eq!(cell.await_future(), None);
    assert!(!cell.await_ready());

    // Post-completion reads are idempotent.
    assert_eq!(cell.value_ptr(), Some(p));
    assert_eq!(cell.value_ptr(), Some(p));

    cell.take_value().release(&mut rt);
    assert!(!rt.live(p));
}

/// A cell nobody awaits still releases whatever payload it holds.
#[test]
fn disposed_cell_leaks_nothing() {
    let mut rt = Rt::new();
    let p = rt.new_object();
    let (mut cell, _tramp) = CallbackCell::register_single_shot_callback(1);
    cell.fire(&mut rt, R::wrap(Some(p)));

    cell.dispose(&mut rt);
    assert_eq!(rt.release_calls(p), 1);
    assert!(!rt.live(p));
}

/// Cancelling a resolved cell keeps its value: resolution is terminal.
#[test]
fn cancel_after_fulfillment_is_a_no_op() {
    let mut rt = Rt::new();
    let p = rt.new_object();
    let (mut cell, _tramp) = CallbackCell::register_single_shot_callback(0);
    cell.fire(&mut rt, R::wrap(Some(p)));

    cell.cancel();
    assert_eq!(cell.state(), CellState::Fulfilled);
    assert_eq!(cell.value_ptr(), Some(p));
    cell.dispose(&mut rt);
}
