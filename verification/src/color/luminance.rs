//! Luminance of linear red, green and blue on single-precision channels.

use crate::color::quantize::{FULL_16_BITS, FULL_8_BITS};
use crate::float32::Float32;
use vstd::prelude::*;

verus! {

/// The bit pattern of 0.2126, the weight of red.
pub const LUMA_RED_BITS: u32 = 0x3E59_B3D0;

/// The bit pattern of 0.7152, the weight of green.
pub const LUMA_GREEN_BITS: u32 = 0x3F37_1759;

/// The bit pattern of 0.0722, the weight of blue.
pub const LUMA_BLUE_BITS: u32 = 0x3D93_DD98;

/// Luminance `0.2126 R + 0.7152 G + 0.0722 B` (Rec. 709), in the sample
/// domain of the three channels.
pub open spec fn spec_luminance(r: Float32, g: Float32, b: Float32) -> Float32 {
    Float32::from_bits(LUMA_RED_BITS).times(r).plus(
        Float32::from_bits(LUMA_GREEN_BITS).times(g),
    ).plus(Float32::from_bits(LUMA_BLUE_BITS).times(b))
}

/// Luminance `0.2126 R + 0.7152 G + 0.0722 B` (Rec. 709), in the sample
/// domain of the three channels.
#[verifier::when_used_as_spec(spec_luminance)]
pub fn luminance(r: Float32, g: Float32, b: Float32) -> (out: Float32)
    ensures
        out == spec_luminance(r, g, b),
{
    Float32::from_bits(LUMA_RED_BITS).times(r).plus(
        Float32::from_bits(LUMA_GREEN_BITS).times(g),
    ).plus(Float32::from_bits(LUMA_BLUE_BITS).times(b))
}


/// Luminance of three 8-bit channels, as a fraction of 255.
pub open spec fn spec_luminance_of_8_bit(r: u8, g: u8, b: u8) -> Float32 {
    luminance(
        Float32::from_whole(r as u32),
        Float32::from_whole(g as u32),
        Float32::from_whole(b as u32),
    ).over(Float32::from_bits(FULL_8_BITS))
}

/// Luminance of three 8-bit channels, as a fraction of 255.
#[verifier::when_used_as_spec(spec_luminance_of_8_bit)]
pub fn luminance_of_8_bit(r: u8, g: u8, b: u8) -> (out: Float32)
    ensures
        out == spec_luminance_of_8_bit(r, g, b),
{
    luminance(
        Float32::from_whole(r as u32),
        Float32::from_whole(g as u32),
        Float32::from_whole(b as u32),
    ).over(Float32::from_bits(FULL_8_BITS))
}


/// Luminance of three 16-bit channels, as a fraction of 65535.
pub open spec fn spec_luminance_of_16_bit(r: u16, g: u16, b: u16) -> Float32 {
    luminance(
        Float32::from_whole(r as u32),
        Float32::from_whole(g as u32),
        Float32::from_whole(b as u32),
    ).over(Float32::from_bits(FULL_16_BITS))
}

/// Luminance of three 16-bit channels, as a fraction of 65535.
#[verifier::when_used_as_spec(spec_luminance_of_16_bit)]
pub fn luminance_of_16_bit(r: u16, g: u16, b: u16) -> (out: Float32)
    ensures
        out == spec_luminance_of_16_bit(r, g, b),
{
    luminance(
        Float32::from_whole(r as u32),
        Float32::from_whole(g as u32),
        Float32::from_whole(b as u32),
    ).over(Float32::from_bits(FULL_16_BITS))
}


} // verus!
