//! Single bits and bit ranges of the sensor's 8-bit and 16-bit register values.
//!
//! The executable operations are those of the `bit_field` crate. Their contracts
//! restate, as spec functions, the expressions that `bit_field` evaluates for the
//! primitive integer types; Verus takes these contracts on trust.

use bit_field::BitField;
use vstd::prelude::*;

verus! {

/// Whether bit `bit` of `value` is one. Bit 0 is the least significant.
pub open spec fn bit_of_u8(value: u8, bit: usize) -> bool {
    value & (1u8 << bit) != 0
}

/// `value` with bit `bit` made one (`on`) or zero, all other bits kept.
pub open spec fn with_bit_u8(value: u8, bit: usize, on: bool) -> u8 {
    if on {
        value | (1u8 << bit)
    } else {
        value & !(1u8 << bit)
    }
}

/// Whether bit `bit` of `value` is one. Bit 0 is the least significant.
pub open spec fn bit_of_u16(value: u16, bit: usize) -> bool {
    value & (1u16 << bit) != 0
}

/// `value` with bit `bit` made one (`on`) or zero, all other bits kept.
pub open spec fn with_bit_u16(value: u16, bit: usize, on: bool) -> u16 {
    if on {
        value | (1u16 << bit)
    } else {
        value & !(1u16 << bit)
    }
}

/// Ones in the bit positions `start..end`, zeros elsewhere.
pub open spec fn field_mask_u16(start: usize, end: usize) -> u16 {
    ((((!0u16) << ((16 - end) as usize)) >> ((16 - end) as usize)) >> start) << start
}

/// Whether `field` has no one outside its lowest `end - start` bits.
pub open spec fn field_fits_u16(start: usize, end: usize, field: u16) -> bool {
    (field << ((16 - (end - start)) as usize)) >> ((16 - (end - start)) as usize) == field
}

/// `value` with the bits `start..end` replaced by the low bits of `field`.
pub open spec fn with_bits_u16(value: u16, start: usize, end: usize, field: u16) -> u16 {
    (value & !field_mask_u16(start, end)) | (field << start)
}

/// `BitField::get_bit` of `bit_field` on a `u8`: the bit at index `bit`, counted
/// from the least significant. The outside function panics for `bit >= 8`.
#[verifier::external_body]
pub(crate) fn get_bit_u8(value: u8, bit: usize) -> (set: bool)
    requires
        bit < 8,
    ensures
        set == bit_of_u8(value, bit),
{
    value.get_bit(bit)
}

/// `BitField::set_bit` of `bit_field` on a `u8`: the value with the bit at index
/// `bit` set to `on`. The outside function panics for `bit >= 8`.
#[verifier::external_body]
pub(crate) fn set_bit_u8(value: u8, bit: usize, on: bool) -> (changed: u8)
    requires
        bit < 8,
    ensures
        changed == with_bit_u8(value, bit, on),
{
    let mut changed: u8 = value;
    changed.set_bit(bit, on);
    changed
}

/// `BitField::get_bit` of `bit_field` on a `u16`: the bit at index `bit`, counted
/// from the least significant. The outside function panics for `bit >= 16`.
#[verifier::external_body]
pub(crate) fn get_bit_u16(value: u16, bit: usize) -> (set: bool)
    requires
        bit < 16,
    ensures
        set == bit_of_u16(value, bit),
{
    value.get_bit(bit)
}

/// `BitField::set_bit` of `bit_field` on a `u16`: the value with the bit at index
/// `bit` set to `on`. The outside function panics for `bit >= 16`.
#[verifier::external_body]
pub(crate) fn set_bit_u16(value: u16, bit: usize, on: bool) -> (changed: u16)
    requires
        bit < 16,
    ensures
        changed == with_bit_u16(value, bit, on),
{
    let mut changed: u16 = value;
    changed.set_bit(bit, on);
    changed
}

/// `BitField::set_bits` of `bit_field` on a `u16`, called with the range
/// `start..end`: the value with those bits replaced by `field`. The outside
/// function panics when the range leaves the sixteen bits or `field` has a one
/// above its lowest `end - start` bits; an empty range is left out here.
#[verifier::external_body]
pub(crate) fn set_bits_u16(value: u16, start: usize, end: usize, field: u16) -> (changed: u16)
    requires
        start < end,
        end <= 16,
        field_fits_u16(start, end, field),
    ensures
        changed == with_bits_u16(value, start, end, field),
{
    let mut changed: u16 = value;
    changed.set_bits(start..end, field);
    changed
}

/// A bit that was set or cleared reads as it was written, and every other bit of
/// the byte reads as before.
pub proof fn bit_written_is_bit_read(value: u8, bit: usize, on: bool)
    requires
        bit < 8,
    ensures
        bit_of_u8(with_bit_u8(value, bit, on), bit) == on,
        forall|other: usize|
            other < 8 && other != bit ==> bit_of_u8(with_bit_u8(value, bit, on), other)
                == #[trigger] bit_of_u8(value, other),
{
    assert((value | (1u8 << bit)) & (1u8 << bit) != 0) by (bit_vector)
        requires
            bit < 8,
    ;
    assert((value & !(1u8 << bit)) & (1u8 << bit) == 0) by (bit_vector)
        requires
            bit < 8,
    ;
    assert forall|other: usize| other < 8 && other != bit implies bit_of_u8(
        with_bit_u8(value, bit, on),
        other,
    ) == #[trigger] bit_of_u8(value, other) by {
        assert((value | (1u8 << bit)) & (1u8 << other) == value & (1u8 << other)) by (bit_vector)
            requires
                bit < 8,
                other < 8,
                other != bit,
        ;
        assert((value & !(1u8 << bit)) & (1u8 << other) == value & (1u8 << other))
            by (bit_vector)
            requires
                bit < 8,
                other < 8,
                other != bit,
        ;
    }
}

} // verus!
