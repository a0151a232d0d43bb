//! Single-precision channel values, held by their IEEE-754 bit pattern.

pub mod arith;
pub mod round;
pub mod unit;

use vstd::prelude::*;

verus! {

/// The bit pattern of 1.0.
pub const ONE_BITS: u32 = 0x3F80_0000;

/// The sign bit; alone it is the bit pattern of negative zero.
pub const SIGN_BIT: u32 = 0x8000_0000;

/// The bit pattern of positive infinity. Larger magnitudes are not numbers.
pub const INFINITY_BITS: u32 = 0x7F80_0000;

/// A single-precision value, held by its IEEE-754 binary32 bit pattern.
///
/// Two values are equal when their bit patterns are, so a value compares
/// equal to itself whatever it holds, and the two zeros differ.
#[derive(Clone, Copy, Default, Debug, PartialEq, Eq, Structural)]
pub struct Float32 {
    pub bits: u32,
}

impl Float32 {
    /// The bit pattern without its sign bit.
    pub open spec fn magnitude(self) -> u32 {
        (self.bits % SIGN_BIT) as u32
    }

    /// The sign bit is set (negative numbers, negative zero, some NaNs).
    pub open spec fn sign_set(self) -> bool {
        self.bits >= SIGN_BIT
    }

    /// The value is not a number.
    pub open spec fn is_nan(self) -> bool {
        self.magnitude() > INFINITY_BITS
    }

    /// The value is a number from 0 to 1, or a zero of either sign.
    pub open spec fn in_unit_range(self) -> bool {
        self.magnitude() == 0 || self.bits <= ONE_BITS
    }

    /// The value limited to the range from 0 to 1: a number below zero gives
    /// zero, a number above one gives one, and what is not a number, or is
    /// already in the range, stays as it is.
    pub open spec fn spec_clamp_unit(self) -> Float32 {
        if self.is_nan() || self.in_unit_range() {
            self
        } else if self.sign_set() {
            Float32 { bits: 0 }
        } else {
            Float32 { bits: ONE_BITS }
        }
    }

    /// Limiting to the unit range changes nothing: the value is in the
    /// range or is not a number.
    pub open spec fn is_clamped(self) -> bool {
        self.is_nan() || self.in_unit_range()
    }

    /// The value with the given bit pattern.
    pub open spec fn spec_from_bits(bits: u32) -> Float32 {
        Float32 { bits }
    }

    /// The value with the given bit pattern.
    #[verifier::when_used_as_spec(spec_from_bits)]
    pub fn from_bits(bits: u32) -> (f: Float32)
        ensures
            f == Float32::spec_from_bits(bits),
            f.bits == bits,
    {
        Float32 { bits }
    }

    /// The bit pattern of the value.
    pub fn to_bits(self) -> (bits: u32)
        ensures
            bits == self.bits,
    {
        self.bits
    }

    /// Positive zero.
    pub fn zero() -> (f: Float32)
        ensures
            f.bits == 0,
    {
        Float32 { bits: 0 }
    }

    /// One.
    pub fn one() -> (f: Float32)
        ensures
            f.bits == ONE_BITS,
    {
        Float32 { bits: ONE_BITS }
    }

    /// Whether the value is not a number.
    #[verifier::when_used_as_spec(is_nan)]
    pub fn is_not_a_number(self) -> (b: bool)
        ensures
            b == self.is_nan(),
    {
        self.bits % SIGN_BIT > INFINITY_BITS
    }

    /// Limits the value to the range from 0 to 1.
    #[verifier::when_used_as_spec(spec_clamp_unit)]
    pub fn clamp_unit(self) -> (f: Float32)
        ensures
            f == self.spec_clamp_unit(),
            f.is_clamped(),
    {
        let magnitude: u32 = self.bits % SIGN_BIT;
        if magnitude > INFINITY_BITS || magnitude == 0 || self.bits <= ONE_BITS {
            self
        } else if self.bits >= SIGN_BIT {
            Float32 { bits: 0 }
        } else {
            Float32 { bits: ONE_BITS }
        }
    }

    /// The exponent field of the bit pattern.
    pub open spec fn biased_exponent(self) -> nat {
        (self.magnitude() / 0x80_0000) as nat
    }

    /// The fraction field of the bit pattern.
    pub open spec fn fraction(self) -> nat {
        (self.magnitude() % 0x80_0000) as nat
    }

    /// The significand of a finite value; with `exponent`, the magnitude of
    /// the value is `significand * 2^exponent`.
    pub open spec fn significand(self) -> nat {
        if self.biased_exponent() == 0 {
            self.fraction()
        } else {
            0x80_0000 + self.fraction()
        }
    }

    /// The power of two that the significand of a finite value counts.
    pub open spec fn exponent(self) -> int {
        if self.biased_exponent() == 0 {
            -149
        } else {
            self.biased_exponent() - 150
        }
    }
}

} // verus!
