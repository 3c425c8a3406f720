//! Result codes returned by foreign entry points.

use vstd::prelude::*;

verus! {

/// A status word handed back by a foreign call; zero means success, any
/// other value is the runtime's error code.
#[derive(Clone, Copy, PartialEq, Eq, Structural, Debug, Hash)]
pub struct Status(pub i32);

impl Status {
    /// The status word that reports success.
    pub fn no_err() -> (r: Status)
        ensures
            r.0 == 0,
    {
        Status(0)
    }

    /// True exactly when the status reports success.
    pub fn is_ok(&self) -> (r: bool)
        ensures
            r == (self.0 == 0),
    {
        self.0 == 0
    }

    /// True exactly when the status reports an error.
    pub fn is_err(&self) -> (r: bool)
        ensures
            r == (self.0 != 0),
    {
        self.0 != 0
    }

    /// Pairs a successful status with the out-value the call must then
    /// have produced: success yields that value, an error keeps the code.
    /// The caller vouches that a success comes with a value; that is what
    /// lets the success arm hand the value out unwrapped.
    pub fn to_result_unchecked<T>(self, option: Option<T>) -> (r: Result<T, Status>)
        requires
            self.0 == 0 ==> option is Some,
        ensures
            self.0 == 0 ==> r == Ok::<T, Status>(option->0),
            self.0 != 0 ==> r == Err::<T, Status>(self),
    {
        if self.0 == 0 {
            match option {
                Some(t) => Ok(t),
                None => Err(self),
            }
        } else {
            Err(self)
        }
    }

    /// Pairs the status with an out-value: a success keeps whatever the
    /// call produced (possibly nothing), an error keeps the code.
    pub fn to_result_option<T>(self, option: Option<T>) -> (r: Result<Option<T>, Status>)
        ensures
            self.0 == 0 ==> r == Ok::<Option<T>, Status>(option),
            self.0 != 0 ==> r == Err::<Option<T>, Status>(self),
    {
        if self.0 == 0 {
            Ok(option)
        } else {
            Err(self)
        }
    }

    /// Turns the status into a result: success becomes `Ok(())`, an error
    /// keeps the code.
    pub fn result(self) -> (r: Result<(), Status>)
        ensures
            self.0 == 0 ==> r == Ok::<(), Status>(()),
            self.0 != 0 ==> r == Err::<(), Status>(self),
    {
        if self.0 == 0 {
            Ok(())
        } else {
            Err(self)
        }
    }
}

} // verus!
