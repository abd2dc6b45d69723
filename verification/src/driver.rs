//! The driver that prints the development loop's messages.

use vstd::prelude::*;

verus! {

/// Prints each message it is given on standard error; it reports nothing
/// back.
pub struct EprintlnDriver;

impl EprintlnDriver {
    /// The driver and its (empty) output.
    pub fn new() -> (driver: (Self, ()))
        ensures
            driver.1 == (),
    {
        (EprintlnDriver, ())
    }
}

} // verus!
