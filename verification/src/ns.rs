//! Plain-value stand-ins for the foundation types the bindings exchange.

use vstd::prelude::*;

verus! {

/// A foundation error object: a domain tag and a code.
#[derive(Clone, Copy, PartialEq, Eq, Structural, Debug)]
pub struct Error {
    pub domain: u32,
    pub code: i64,
}

impl Error {
    /// An error value with the given domain tag and code.
    pub fn new(domain: u32, code: i64) -> (e: Error)
        ensures
            e.domain == domain,
            e.code == code,
    {
        Error { domain, code }
    }

    /// The error's code.
    pub fn code(&self) -> (c: i64)
        ensures
            c == self.code,
    {
        self.code
    }
}

/// A 128-bit unique identifier, as two halves.
#[derive(Clone, Copy, PartialEq, Eq, Structural, Debug, Hash)]
pub struct Uuid {
    pub hi: u64,
    pub lo: u64,
}

} // verus!
