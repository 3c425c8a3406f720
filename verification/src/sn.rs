//! Sound analysis, as a value model.

pub mod analyzer;
pub mod classification_result;

use vstd::prelude::*;

verus! {

/// One analysis request, identified by the sound classifier it asks
/// for.
#[derive(Clone, Copy, PartialEq, Eq, Structural, Debug)]
pub struct Request {
    pub id: u64,
}

} // verus!
