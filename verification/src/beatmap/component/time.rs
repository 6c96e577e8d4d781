//! The time component.

use vstd::prelude::*;

verus! {

/// Something that is hit at a time, in milliseconds.
pub trait TimeComponent {
    /// The time, in milliseconds.
    spec fn time_ms(&self) -> u32;

    fn get_time(&self) -> (value: u32)
        ensures
            value == self.time_ms(),
    ;

    fn set_time(&mut self, value: u32)
        ensures
            final(self).time_ms() == value,
    ;
}

} // verus!
