//! The beatmap: its header, its hit objects and the times they are hit at.

pub mod beatmap;
pub mod component;
pub mod parser;
pub mod taiko;

use vstd::prelude::*;

verus! {

/// Nanoseconds in one millisecond.
pub const NANOS_PER_MILLI: u128 = 1_000_000;

/// A point in time of a beatmap, in milliseconds.
#[derive(Copy, Clone, Debug, PartialEq, Eq, Structural, PartialOrd, Ord, Hash)]
pub struct Time(u32);

impl View for Time {
    type V = nat;

    closed spec fn view(&self) -> nat {
        self.0 as nat
    }
}

impl Default for Time {
    fn default() -> (time: Time)
        ensures
            time@ == 0,
    {
        Time(0)
    }
}

impl Time {
    /// The time `value` milliseconds.
    pub fn from_ms(value: u32) -> (time: Time)
        ensures
            time@ == value,
    {
        Time(value)
    }

    /// This time in milliseconds.
    pub fn as_ms(&self) -> (value: u32)
        ensures
            value == self@,
    {
        self.0
    }

    /// The time of `nanos` nanoseconds in whole milliseconds, counted
    /// modulo 2^32.
    pub fn from_nanos(nanos: u128) -> (time: Time)
        ensures
            time@ == (nanos / NANOS_PER_MILLI) % 0x1_0000_0000,
    {
        let millis: u128 = (nanos / NANOS_PER_MILLI) % 0x1_0000_0000;
        Time(millis as u32)
    }
}

} // verus!
