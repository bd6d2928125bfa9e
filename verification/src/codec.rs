//! The sensor's 12-bit temperature format.
//!
//! A raw temperature is sixteen bits wide. Bit 11 is the sign. With the sign clear
//! the value itself is the magnitude; with it set the magnitude is the bitwise
//! complement of the value, cut to its low eleven bits. The other direction, used
//! for the interrupt thresholds, only puts the sign bit on top of the magnitude: the
//! two directions are not inverse to each other, and are meant not to be.

use crate::bits::{
    bit_of_u16, field_fits_u16, get_bit_u16, set_bit_u16, set_bits_u16, with_bit_u16,
    with_bits_u16,
};
use vstd::prelude::*;

verus! {

/// A sign and a magnitude. The unit of the magnitude is that of the place the
/// value is used in: sensor steps for a decoded reading, whole degrees Celsius for
/// a threshold to encode.
#[derive(Clone, Copy, Debug, PartialEq, Eq)]
pub struct SignedMagnitude {
    pub negative: bool,
    pub magnitude: u16,
}

impl SignedMagnitude {
    /// The value as a signed integer.
    pub open spec fn signed(self) -> int {
        if self.negative {
            -(self.magnitude as int)
        } else {
            self.magnitude as int
        }
    }
}

/// The size of one sensor step: a quarter of a degree Celsius for the pixels and
/// the interrupt thresholds, a sixteenth for the device's thermistor.
#[derive(Clone, Copy, Debug, PartialEq, Eq)]
pub enum Scale {
    Quarter,
    Sixteenth,
}

impl Scale {
    pub open spec fn spec_steps_per_degree(self) -> u16 {
        match self {
            Scale::Quarter => 4,
            Scale::Sixteenth => 16,
        }
    }

    /// How many sensor steps make one degree Celsius.
    #[verifier::when_used_as_spec(spec_steps_per_degree)]
    pub fn steps_per_degree(self) -> (steps: u16)
        ensures
            steps == self.spec_steps_per_degree(),
    {
        match self {
            Scale::Quarter => 4,
            Scale::Sixteenth => 16,
        }
    }
}

/// The reading that a raw temperature stands for, in sensor steps.
pub open spec fn spec_decode(raw: u16) -> SignedMagnitude {
    if raw & 0x0800 == 0 {
        SignedMagnitude { negative: false, magnitude: raw }
    } else {
        SignedMagnitude { negative: true, magnitude: !raw & 0x07FF }
    }
}

/// The raw value that a threshold is written as.
pub open spec fn spec_encode(value: SignedMagnitude) -> u16 {
    if value.negative {
        value.magnitude | 0x0800
    } else {
        value.magnitude
    }
}

/// Decodes a raw temperature into its sign and its magnitude in sensor steps.
#[verifier::when_used_as_spec(spec_decode)]
pub fn decode(raw: u16) -> (reading: SignedMagnitude)
    ensures
        reading == spec_decode(raw),
        reading.negative ==> reading.magnitude <= 2047,
{
    assert(bit_of_u16(raw, 11) == (raw & 0x0800 != 0)) by (bit_vector);
    if !get_bit_u16(raw, 11) {
        SignedMagnitude { negative: false, magnitude: raw }
    } else {
        let complement: u16 = !raw;
        assert(field_fits_u16(11, 16, 0)) by (bit_vector);
        let magnitude: u16 = set_bits_u16(complement, 11, 16, 0);
        assert(with_bits_u16(complement, 11, 16, 0) == complement & 0x07FF) by (bit_vector);
        assert(complement & 0x07FF <= 2047) by (bit_vector);
        SignedMagnitude { negative: true, magnitude }
    }
}

/// Encodes a threshold, given as its sign and its magnitude in whole degrees, into
/// the raw value written to the sensor: the magnitude, with bit 11 set for a
/// negative value.
#[verifier::when_used_as_spec(spec_encode)]
pub fn encode(value: SignedMagnitude) -> (raw: u16)
    ensures
        raw == spec_encode(value),
{
    if value.negative {
        let magnitude: u16 = value.magnitude;
        assert(with_bit_u16(magnitude, 11, true) == magnitude | 0x0800) by (bit_vector);
        set_bit_u16(magnitude, 11, true)
    } else {
        value.magnitude
    }
}

/// A raw value of at most 2047 has its sign bit clear and decodes to itself: the
/// reading is so many steps above zero.
pub proof fn decode_of_positive(raw: u16)
    requires
        raw <= 2047,
    ensures
        spec_decode(raw) == (SignedMagnitude { negative: false, magnitude: raw }),
        spec_decode(raw).signed() == raw,
{
    assert(raw <= 2047 ==> raw & 0x0800 == 0) by (bit_vector);
}

/// A raw value with its sign bit set decodes to a reading at or below zero whose
/// magnitude and the value's low eleven bits add up to 2047.
pub proof fn decode_of_negative(raw: u16)
    requires
        raw & 0x0800 != 0,
    ensures
        spec_decode(raw).negative,
        spec_decode(raw).magnitude + (raw & 0x07FF) == 2047,
        -2047 <= spec_decode(raw).signed() <= 0,
{
    assert((!raw & 0x07FF) + (raw & 0x07FF) == 2047) by (bit_vector);
}

/// Decoding what was encoded gives the value back exactly when the value is at or
/// above zero and its magnitude keeps bit 11 clear. A negative value never comes
/// back: its magnitude returns complemented.
pub proof fn decode_after_encode(value: SignedMagnitude)
    ensures
        !value.negative && value.magnitude & 0x0800 == 0 ==> spec_decode(spec_encode(value))
            == value,
        value.negative ==> spec_decode(spec_encode(value)) != value,
        value.negative ==> spec_decode(spec_encode(value)) == (SignedMagnitude {
            negative: true,
            magnitude: !value.magnitude & 0x07FF,
        }),
{
    let m: u16 = value.magnitude;
    assert((m | 0x0800) & 0x0800 != 0) by (bit_vector);
    assert(!(m | 0x0800) & 0x07FF == !m & 0x07FF) by (bit_vector);
    assert(!m & 0x07FF != m) by (bit_vector);
}

/// Encoding what was decoded never gives a negative raw value back: for every raw
/// value with its sign bit set the result differs from it.
pub proof fn encode_after_decode(raw: u16)
    ensures
        raw & 0x0800 == 0 ==> spec_encode(spec_decode(raw)) == raw,
        raw & 0x0800 != 0 ==> spec_encode(spec_decode(raw)) != raw,
        raw & 0x0800 != 0 ==> spec_encode(spec_decode(raw)) == (!raw & 0x07FF) | 0x0800,
{
    assert(raw & 0x0800 != 0 ==> ((!raw & 0x07FF) | 0x0800) != raw) by (bit_vector);
}

} // verus!
