//! Autorelease scope guards and deferred releases.

use cidre::arc::{R, Rar};
use cidre::error::Error;
use cidre::objc::AutoreleasePoolPage;
use cidre::rt::Rt;

/// Five autoreleased results, none promoted: the scope's pop issues all
/// five releases.
#[test]
fn scope_pays_five_deferred_releases() {
    let mut rt = Rt::new();
    let page = AutoreleasePoolPage::push(&mut rt);

    let mut ids = Vec::new();
    let mut i = 0;
    while i < 5 {
        ids.push(rt.new_autoreleased_object());
        i += 1;
    }
    for &p in &ids {
        assert_eq!(rt.release_calls(p), 0);
        assert!(rt.live(p));
    }

    page.pop(&mut rt);
    assert_eq!(rt.pool_depth(), 0);
    for &p in &ids {
        assert_eq!(rt.release_calls(p), 1);
        assert!(!rt.live(p));
    }
}

/// Promoting an autoreleased pointer before the pop keeps the object
/// alive past the scope.
#[test]
fn promotion_survives_the_pop() {
    let mut rt = Rt::new();
    let page = AutoreleasePoolPage::push(&mut rt);

    let p = rt.new_autoreleased_object();
    let ar = Rar::wrap(Some(p));
    let owned: R = ar.retained(&mut rt);
    assert_eq!(rt.count(p), 2);

    page.pop(&mut rt);
    assert!(rt.live(p));
    assert_eq!(rt.count(p), 1);

    owned.release(&mut rt);
    assert!(!rt.live(p));
}

/// Nested guards popped in LIFO order leave no frame behind.
#[test]
fn nested_guards_unwind_completely() {
    let mut rt = Rt::new();
    let outer = AutoreleasePoolPage::push(&mut rt);
    let inner = AutoreleasePoolPage::push(&mut rt);
    assert_eq!(rt.pool_depth(), 2);

    inner.pop(&mut rt);
    assert_eq!(rt.pool_depth(), 1);
    outer.pop(&mut rt);
    assert_eq!(rt.pool_depth(), 0);
}

/// Popping the outer guard while the inner frame still stands is a
/// protocol violation and changes nothing.
#[test]
fn out_of_order_pop_is_a_protocol_violation() {
    let mut rt = Rt::new();
    let outer = AutoreleasePoolPage::push(&mut rt);
    let _inner = AutoreleasePoolPage::push(&mut rt);

    let r = outer.try_pop(&mut rt);
    assert_eq!(r, Err(Error::ProtocolViolation));
    assert_eq!(rt.pool_depth(), 2);
}

/// A guard pops its own frame even when the work inside was abandoned
/// early: whatever the frame collected is still paid back.
#[test]
fn abandoned_scope_still_pays_its_frame() {
    let mut rt = Rt::new();
    let page = AutoreleasePoolPage::push(&mut rt);
    let p = rt.new_autoreleased_object();
    // The unit of work stops early here; only the guard's pop runs.
    page.pop(&mut rt);
    assert!(!rt.live(p));
    assert_eq!(rt.pool_depth(), 0);
}
