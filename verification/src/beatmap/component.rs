//! The components that a hit object is made of.

pub mod adapter;
pub mod time;
pub mod variant;

use crate::beatmap::Time;
use vstd::prelude::*;

verus! {

/// An object of a beatmap, seen through the components it may have.
pub trait HitObject {
    /// The time component, if the object has one.
    spec fn time_component(&self) -> Option<Time>;

    /// The variant component, if the object has one.
    spec fn variant_component(&self) -> Option<u32>;

    /// The time at which the object is hit, if it has a time.
    fn time(&self) -> (time: Option<Time>)
        ensures
            time == self.time_component(),
    ;

    /// The variant bits of the object, if it has a variant.
    fn variant(&self) -> (variant: Option<u32>)
        ensures
            variant == self.variant_component(),
    ;
}

} // verus!
