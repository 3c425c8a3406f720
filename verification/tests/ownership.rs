//! Ownership handles against the runtime ledger.

use cidre::arc::{Borrowed, R};
use cidre::error::{fold_foreign_outcome, Error};
use cidre::rt::Rt;

/// Wrapping a fresh object, cloning twice and dropping all three handles
/// issues exactly three releases and leaves the object deallocated.
#[test]
fn lineage_three_handles_three_releases() {
    let mut rt = Rt::new();
    let p = rt.new_object();
    assert_eq!(rt.count(p), 1);

    let h = R::wrap(Some(p));
    let h2 = h.clone(&mut rt);
    let h3 = h.clone(&mut rt);
    assert_eq!(rt.count(p), 3);
    assert_eq!(rt.retain_calls(p), 2);

    h.release(&mut rt);
    h2.release(&mut rt);
    h3.release(&mut rt);
    assert_eq!(rt.release_calls(p), 3);
    assert_eq!(rt.count(p), 0);
    assert!(!rt.live(p));
}

#[test]
fn retain_wrap_adds_a_reference() {
    let mut rt = Rt::new();
    let p = rt.new_object();
    let owner = R::wrap(Some(p));

    let second = R::retain_wrap(&mut rt, Some(p));
    assert_eq!(rt.count(p), 2);
    assert_eq!(rt.retain_calls(p), 1);

    second.release(&mut rt);
    owner.release(&mut rt);
    assert_eq!(rt.count(p), 0);
}

#[test]
fn borrowed_promotion_always_retains() {
    let mut rt = Rt::new();
    let p = rt.new_object();
    let owner = R::wrap(Some(p));

    let view: Borrowed = owner.as_borrowed();
    assert_eq!(view.ptr(), Some(p));

    let promoted = view.retained(&mut rt);
    assert_eq!(rt.count(p), 2);
    assert_eq!(promoted.ptr(), Some(p));

    promoted.release(&mut rt);
    owner.release(&mut rt);
    assert!(!rt.live(p));
}

/// A foreign "nil" result becomes the empty handle, which carries no
/// release obligation.
#[test]
fn nil_handle_releases_nothing() {
    let mut rt = Rt::new();
    let p = rt.new_object();

    let empty = R::wrap(None);
    assert!(empty.is_nil());
    let empty2 = empty.clone(&mut rt);
    empty.release(&mut rt);
    empty2.release(&mut rt);

    // The one real object is untouched by any of it.
    assert_eq!(rt.count(p), 1);
    assert_eq!(rt.retain_calls(p), 0);
    assert_eq!(rt.release_calls(p), 0);
}

/// Every outcome of a foreign call lands in the right branch of the
/// error taxonomy.
#[test]
fn foreign_outcomes_fold_into_the_taxonomy() {
    assert_eq!(fold_foreign_outcome(Some(4), None), Ok(4));

    let err_obj = Borrowed::wrap(Some(9));
    assert_eq!(
        fold_foreign_outcome(None, Some(err_obj)),
        Err(Error::ForeignError(err_obj))
    );
    assert_eq!(fold_foreign_outcome(None, None), Err(Error::NullResult));
}
