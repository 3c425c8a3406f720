//! Error taxonomy of the ownership and callback layer.

use vstd::prelude::*;

use crate::arc::Borrowed;

verus! {

/// How a foreign call or a bridge operation can fail.
///
/// `NullResult` is a foreign call that returned no object; `ForeignError`
/// surfaces an error object the foreign call reported through an
/// out-parameter, as a borrowed reference to it; `ProtocolViolation` is a
/// contract violation (double release, double fulfillment, out-of-order
/// guard pop) that callers must treat as fatal.
#[derive(Clone, Copy, PartialEq, Eq, Structural, Debug)]
pub enum Error {
    NullResult,
    ForeignError(Borrowed),
    ProtocolViolation,
}

/// Folds one foreign call's outcome into a result: an object is success;
/// no object but an error object reported through the call's
/// out-parameter is a foreign error; no object and no error object is a
/// null result.
pub fn fold_foreign_outcome(ptr: Option<usize>, err: Option<Borrowed>) -> (r: Result<
    usize,
    Error,
>)
    ensures
        (ptr matches Some(p) ==> r == Ok::<usize, Error>(p)),
        ptr is None ==> r == (match err {
            Some(b) => Err::<usize, Error>(Error::ForeignError(b)),
            None => Err::<usize, Error>(Error::NullResult),
        }),
{
    match ptr {
        Some(p) => Ok(p),
        None => match err {
            Some(b) => Err(Error::ForeignError(b)),
            None => Err(Error::NullResult),
        },
    }
}

} // verus!
