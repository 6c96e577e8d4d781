//! The variant component.

use vstd::prelude::*;

verus! {

/// Something that comes in variants, told apart by the bits of a word.
pub trait VariantComponent {
    /// The variant bits.
    spec fn variant_bits(&self) -> u32;

    fn get_variant(&self) -> (value: u32)
        ensures
            value == self.variant_bits(),
    ;

    fn set_variant(&mut self, value: u32)
        ensures
            final(self).variant_bits() == value,
    ;
}

} // verus!
