//! A taiko note with its properties spelled out.

use crate::beatmap::Time;
use vstd::prelude::*;

verus! {

/// A taiko note.
#[derive(Debug, Clone, Copy, PartialEq, Eq, Structural)]
pub struct HitObject {
    pub time: Time,
    pub kat: bool,
    pub big: bool,
}

impl Default for HitObject {
    fn default() -> (object: HitObject)
        ensures
            object.time@ == 0,
            !object.kat,
            !object.big,
    {
        HitObject { time: Time::from_ms(0), kat: false, big: false }
    }
}

} // verus!
