//! Rational media time values.

use vstd::prelude::*;

verus! {

/// A media timestamp: `value / timescale` seconds.
#[derive(Clone, Copy, PartialEq, Eq, Structural, Debug)]
pub struct Time {
    pub value: i64,
    pub timescale: i32,
}

impl Time {
    /// The timestamp `value / timescale`.
    pub fn new(value: i64, timescale: i32) -> (t: Time)
        ensures
            t.value == value,
            t.timescale == timescale,
    {
        Time { value, timescale }
    }
}

/// A media time range: a start time and a duration.
#[derive(Clone, Copy, PartialEq, Eq, Structural, Debug)]
pub struct TimeRange {
    pub start: Time,
    pub duration: Time,
}

} // verus!
