//! The variant bits as taiko reads them: bit 0 tells kat from don, bit 1
//! tells a big note from a small one.

use crate::beatmap::component::variant::VariantComponent;
use intbits::Bits;
use vstd::prelude::*;

verus! {

/// The bit that tells kat from don.
pub const COLOR_BIT: u32 = 0;

/// The bit that tells a big note from a small one.
pub const BIG_BIT: u32 = 1;

/// Whether bit `index` of `value` is set.
pub open spec fn bit_of(value: u32, index: u32) -> bool {
    (value >> index) & 1u32 != 0u32
}

/// `value` with bit `index` set to `bit`.
pub open spec fn with_bit_of(value: u32, index: u32, bit: bool) -> u32 {
    (value & !(1u32 << index)) | ((if bit {
        1u32
    } else {
        0u32
    }) << index)
}

/// Calls `intbits::Bits::bit` on a `u32` with a `u32` index: whether bit
/// `index` of `value` is set. The call panics for an index of 32 or more.
#[verifier::external_body]
pub(crate) fn bit(value: u32, index: u32) -> (set: bool)
    requires
        index < 32,
    ensures
        set == bit_of(value, index),
{
    value.bit(index)
}

/// Calls `intbits::Bits::with_bit` on a `u32` with a `u32` index: `value`
/// with bit `index` set to `bit` and every other bit as it was. The call
/// panics for an index of 32 or more.
#[verifier::external_body]
pub(crate) fn with_bit(value: u32, index: u32, bit: bool) -> (out: u32)
    requires
        index < 32,
    ensures
        out == with_bit_of(value, index, bit),
{
    value.with_bit(index, bit)
}

/// Setting a bit makes it read as set to, and leaves every other bit as it
/// reads.
pub proof fn lemma_with_bit_reads_back(value: u32, index: u32, bit: bool, other: u32)
    requires
        index < 32,
        other < 32,
    ensures
        bit_of(with_bit_of(value, index, bit), index) == bit,
        other != index ==> bit_of(with_bit_of(value, index, bit), other) == bit_of(value, other),
{
    let b: u32 = if bit {
        1u32
    } else {
        0u32
    };
    assert((((value & !(1u32 << index)) | (b << index)) >> index) & 1u32 == b) by (bit_vector)
        requires
            index < 32,
            b == 0u32 || b == 1u32,
    ;
    assert(other != index ==> (((value & !(1u32 << index)) | (b << index)) >> other) & 1u32 == (
    value >> other) & 1u32) by (bit_vector)
        requires
            index < 32,
            other < 32,
            b == 0u32 || b == 1u32,
    ;
}

/// The colour of a taiko note.
#[derive(Copy, Clone, Debug, PartialEq, Eq, Structural)]
pub struct TaikoColor(pub bool);

impl TaikoColor {
    /// The rim colour.
    pub fn kat() -> (color: TaikoColor)
        ensures
            color == TaikoColor(true),
    {
        TaikoColor(true)
    }

    /// The centre colour.
    pub fn don() -> (color: TaikoColor)
        ensures
            color == TaikoColor(false),
    {
        TaikoColor(false)
    }
}

impl Default for TaikoColor {
    fn default() -> (color: TaikoColor)
        ensures
            color == TaikoColor(false),
    {
        TaikoColor(false)
    }
}

/// A variant read as a taiko note.
pub trait TaikoVariantAdapter: VariantComponent {
    fn is_big(&self) -> (big: bool)
        ensures
            big == bit_of(self.variant_bits(), BIG_BIT),
    ;

    fn set_big(&mut self, value: bool)
        ensures
            final(self).variant_bits() == with_bit_of(old(self).variant_bits(), BIG_BIT, value),
    ;

    fn toggle_big(&mut self)
        ensures
            final(self).variant_bits() == with_bit_of(
                old(self).variant_bits(),
                BIG_BIT,
                !bit_of(old(self).variant_bits(), BIG_BIT),
            ),
    ;

    fn is_kat(&self) -> (kat: bool)
        ensures
            kat == bit_of(self.variant_bits(), COLOR_BIT),
    ;

    fn is_don(&self) -> (don: bool)
        ensures
            don == !bit_of(self.variant_bits(), COLOR_BIT),
    ;

    fn get_color(&self) -> (color: TaikoColor)
        ensures
            color == TaikoColor(bit_of(self.variant_bits(), COLOR_BIT)),
    ;

    fn set_color(&mut self, value: TaikoColor)
        ensures
            final(self).variant_bits() == with_bit_of(
                old(self).variant_bits(),
                COLOR_BIT,
                value == TaikoColor(true),
            ),
    ;

    fn switch_color(&mut self)
        ensures
            final(self).variant_bits() == with_bit_of(
                old(self).variant_bits(),
                COLOR_BIT,
                !bit_of(old(self).variant_bits(), COLOR_BIT),
            ),
    ;
}

impl<V: VariantComponent> TaikoVariantAdapter for V {
    fn is_big(&self) -> (big: bool) {
        bit(self.get_variant(), BIG_BIT)
    }

    fn set_big(&mut self, value: bool) {
        let bits = with_bit(self.get_variant(), BIG_BIT, value);
        self.set_variant(bits);
    }

    fn toggle_big(&mut self) {
        let old_bits = self.get_variant();
        let bits = with_bit(old_bits, BIG_BIT, !bit(old_bits, BIG_BIT));
        self.set_variant(bits);
    }

    fn is_kat(&self) -> (kat: bool) {
        bit(self.get_variant(), COLOR_BIT)
    }

    fn is_don(&self) -> (don: bool) {
        !bit(self.get_variant(), COLOR_BIT)
    }

    fn get_color(&self) -> (color: TaikoColor) {
        TaikoColor(bit(self.get_variant(), COLOR_BIT))
    }

    fn set_color(&mut self, value: TaikoColor) {
        let bits = with_bit(self.get_variant(), COLOR_BIT, value.0);
        self.set_variant(bits);
    }

    fn switch_color(&mut self) {
        let old_bits = self.get_variant();
        let bits = with_bit(old_bits, COLOR_BIT, !bit(old_bits, COLOR_BIT));
        self.set_variant(bits);
    }
}

} // verus!
