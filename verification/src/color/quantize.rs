//! Between single-precision channels and whole-number channels, for whole
//! values of three channels.

use crate::color::rgb::{Rgb, RgbF, Srgb, SrgbF};
use crate::float32::Float32;
use vstd::prelude::*;

verus! {

/// The bit pattern of 255.0.
pub const FULL_8_BITS: u32 = 0x437F_0000;

/// The bit pattern of 65535.0.
pub const FULL_16_BITS: u32 = 0x477F_FF00;

/// The bit pattern of 65536.0.
pub const RANGE_16_BITS: u32 = 0x4780_0000;

/// The fraction of 255 that an 8-bit channel stands for.
pub open spec fn spec_unit_8(c: u8) -> Float32 {
    Float32::from_whole(c as u32).over(Float32::from_bits(FULL_8_BITS))
}

/// The fraction of 255 that an 8-bit channel stands for.
#[verifier::when_used_as_spec(spec_unit_8)]
pub fn unit_8(c: u8) -> (out: Float32)
    ensures
        out == spec_unit_8(c),
{
    Float32::from_whole(c as u32).over(Float32::from_bits(FULL_8_BITS))
}


/// The fraction of 65535 that a 16-bit channel stands for.
pub open spec fn spec_unit_16(c: u16) -> Float32 {
    Float32::from_whole(c as u32).over(Float32::from_bits(FULL_16_BITS))
}

/// The fraction of 65535 that a 16-bit channel stands for.
#[verifier::when_used_as_spec(spec_unit_16)]
pub fn unit_16(c: u16) -> (out: Float32)
    ensures
        out == spec_unit_16(c),
{
    Float32::from_whole(c as u32).over(Float32::from_bits(FULL_16_BITS))
}


/// The channel times 255, cut down to a whole number and limited to 8
/// bits; 0 for what is not a number.
pub open spec fn spec_channel_8(x: Float32) -> u8 {
    x.times(Float32::from_bits(FULL_8_BITS)).to_whole(255) as u8
}

/// The channel times 255, cut down to a whole number and limited to 8
/// bits; 0 for what is not a number.
#[verifier::when_used_as_spec(spec_channel_8)]
pub fn channel_8(x: Float32) -> (out: u8)
    ensures
        out == spec_channel_8(x),
{
    x.times(Float32::from_bits(FULL_8_BITS)).to_whole(255) as u8
}


/// The channel times 65535, cut down to a whole number and limited to 16
/// bits; 0 for what is not a number.
pub open spec fn spec_channel_16(x: Float32) -> u16 {
    x.times(Float32::from_bits(FULL_16_BITS)).to_whole(65535) as u16
}

/// The channel times 65535, cut down to a whole number and limited to 16
/// bits; 0 for what is not a number.
#[verifier::when_used_as_spec(spec_channel_16)]
pub fn channel_16(x: Float32) -> (out: u16)
    ensures
        out == spec_channel_16(x),
{
    x.times(Float32::from_bits(FULL_16_BITS)).to_whole(65535) as u16
}


/// The gray times 65536, cut down to a whole number and limited to 16
/// bits; 0 for what is not a number.
pub open spec fn spec_gray_16(x: Float32) -> u16 {
    x.times(Float32::from_bits(RANGE_16_BITS)).to_whole(65535) as u16
}

/// The gray times 65536, cut down to a whole number and limited to 16
/// bits; 0 for what is not a number.
#[verifier::when_used_as_spec(spec_gray_16)]
pub fn gray_16(x: Float32) -> (out: u16)
    ensures
        out == spec_gray_16(x),
{
    x.times(Float32::from_bits(RANGE_16_BITS)).to_whole(65535) as u16
}


/// Each channel times 255, cut down to a whole number and limited to 8
/// bits.
pub open spec fn spec_rgb_8(rgb: RgbF) -> Rgb {
    Rgb { r: channel_8(rgb.r), g: channel_8(rgb.g), b: channel_8(rgb.b) }
}

/// Each channel times 255, cut down to a whole number and limited to 8
/// bits.
#[verifier::when_used_as_spec(spec_rgb_8)]
pub fn rgb_8(rgb: RgbF) -> (out: Rgb)
    ensures
        out == spec_rgb_8(rgb),
{
    Rgb { r: channel_8(rgb.r), g: channel_8(rgb.g), b: channel_8(rgb.b) }
}


/// Each channel times 255, cut down to a whole number and limited to 8
/// bits.
pub open spec fn spec_srgb_8(srgb: SrgbF) -> Srgb {
    Srgb { r: channel_8(srgb.r), g: channel_8(srgb.g), b: channel_8(srgb.b) }
}

/// Each channel times 255, cut down to a whole number and limited to 8
/// bits.
#[verifier::when_used_as_spec(spec_srgb_8)]
pub fn srgb_8(srgb: SrgbF) -> (out: Srgb)
    ensures
        out == spec_srgb_8(srgb),
{
    Srgb { r: channel_8(srgb.r), g: channel_8(srgb.g), b: channel_8(srgb.b) }
}


/// Each channel limited to the range from 0 to 1.
pub open spec fn spec_clamped(rgb: RgbF) -> RgbF {
    RgbF { r: rgb.r.clamp_unit(), g: rgb.g.clamp_unit(), b: rgb.b.clamp_unit() }
}

/// Each channel limited to the range from 0 to 1.
#[verifier::when_used_as_spec(spec_clamped)]
pub fn clamped(rgb: RgbF) -> (out: RgbF)
    ensures
        out == spec_clamped(rgb),
{
    RgbF { r: rgb.r.clamp_unit(), g: rgb.g.clamp_unit(), b: rgb.b.clamp_unit() }
}


/// Each channel limited to the range from 0 to 1.
pub open spec fn spec_clamped_encoded(srgb: SrgbF) -> SrgbF {
    SrgbF { r: srgb.r.clamp_unit(), g: srgb.g.clamp_unit(), b: srgb.b.clamp_unit() }
}

/// Each channel limited to the range from 0 to 1.
#[verifier::when_used_as_spec(spec_clamped_encoded)]
pub fn clamped_encoded(srgb: SrgbF) -> (out: SrgbF)
    ensures
        out == spec_clamped_encoded(srgb),
{
    SrgbF { r: srgb.r.clamp_unit(), g: srgb.g.clamp_unit(), b: srgb.b.clamp_unit() }
}


/// The gray in all three channels.
pub open spec fn spec_gray_encoded(g: Float32) -> SrgbF {
    SrgbF { r: g, g, b: g }
}

/// The gray in all three channels.
#[verifier::when_used_as_spec(spec_gray_encoded)]
pub fn gray_encoded(g: Float32) -> (out: SrgbF)
    ensures
        out == spec_gray_encoded(g),
{
    SrgbF { r: g, g, b: g }
}


} // verus!
