//! The sRGB transfer curve on single-precision channels.
//!
//! Compressing takes a linear value `x` to `12.92 x` where `x <= 0.0031308`
//! and to `1.055 x^(1/2.4) - 0.055` above; expanding takes an encoded value
//! `y` to `y / 12.92` where `y <= 0.04045` and to `((y + 0.055) / 1.055)^2.4`
//! above. The powers are asked of the kernel.
//!
//! Each product, difference and quotient is rounded to single precision,
//! so these functions give the curve as single-precision arithmetic has it,
//! not the exact curve. At full scale that shows: where the kernel answers
//! 1.0 to 1.0 to the power 1 / 2.4, compressing 1.0 gives
//! `1.055 - 0.055` as rounded, the value next below 1.0, and cut down to 8
//! bits that is 254. A conversion that starts from single-precision
//! channels means this arithmetic. Between the two 8-bit formats the tables
//! of `gamma` are meant, which follow the exact curve and take 255 to 255;
//! the way through single-precision channels can differ from them by one.

use crate::color::kernel::{ask, is_function, MathCall};
use crate::color::rgb::{RgbF, SrgbF};
use crate::float32::Float32;
use vstd::prelude::*;

verus! {

/// The bit pattern of 0.0031308, up to which compressing is linear.
pub const COMPRESS_BREAK_BITS: u32 = 0x3B4D_2E1C;

/// The bit pattern of 0.04045, up to which expanding is linear.
pub const EXPAND_BREAK_BITS: u32 = 0x3D25_AEE6;

/// The bit pattern of 12.92, the slope of the linear part.
pub const LINEAR_SLOPE_BITS: u32 = 0x414E_B852;

/// The bit pattern of 1.055.
pub const GAMMA_SCALE_BITS: u32 = 0x3F87_0A3D;

/// The bit pattern of 0.055.
pub const GAMMA_OFFSET_BITS: u32 = 0x3D61_47AE;

/// The bit pattern of 2.4.
pub const GAMMA_BITS: u32 = 0x4019_999A;

/// The bit pattern of the single-precision quotient of 1 by 2.4.
pub const INVERSE_GAMMA_BITS: u32 = 0x3ED5_5555;

/// Linear to gamma-encoded, for one channel.
pub open spec fn spec_gamma_compress<K: Fn(MathCall) -> Float32>(
    channel: Float32,
    kernel: &K,
) -> Float32 {
    if channel.le(Float32::from_bits(COMPRESS_BREAK_BITS)) {
        Float32::from_bits(LINEAR_SLOPE_BITS).times(channel)
    } else {
        Float32::from_bits(GAMMA_SCALE_BITS).times(
            ask(kernel, MathCall::Powf(channel, Float32::from_bits(INVERSE_GAMMA_BITS))),
        ).minus(Float32::from_bits(GAMMA_OFFSET_BITS))
    }
}

/// Linear to gamma-encoded, for one channel.
#[verifier::when_used_as_spec(spec_gamma_compress)]
pub fn gamma_compress<K: Fn(MathCall) -> Float32>(channel: Float32, kernel: &K) -> (out: Float32)
    requires
        is_function(*kernel),
    ensures
        out == spec_gamma_compress(channel, kernel),
{
    if channel.le(Float32::from_bits(COMPRESS_BREAK_BITS)) {
        Float32::from_bits(LINEAR_SLOPE_BITS).times(channel)
    } else {
        Float32::from_bits(GAMMA_SCALE_BITS).times(
            ask(kernel, MathCall::Powf(channel, Float32::from_bits(INVERSE_GAMMA_BITS))),
        ).minus(Float32::from_bits(GAMMA_OFFSET_BITS))
    }
}


/// Gamma-encoded to linear, for one channel.
pub open spec fn spec_gamma_expand<K: Fn(MathCall) -> Float32>(
    channel: Float32,
    kernel: &K,
) -> Float32 {
    if channel.le(Float32::from_bits(EXPAND_BREAK_BITS)) {
        channel.over(Float32::from_bits(LINEAR_SLOPE_BITS))
    } else {
        ask(
            kernel,
            MathCall::Powf(
                channel.plus(Float32::from_bits(GAMMA_OFFSET_BITS)).over(
                    Float32::from_bits(GAMMA_SCALE_BITS),
                ),
                Float32::from_bits(GAMMA_BITS),
            ),
        )
    }
}

/// Gamma-encoded to linear, for one channel.
#[verifier::when_used_as_spec(spec_gamma_expand)]
pub fn gamma_expand<K: Fn(MathCall) -> Float32>(channel: Float32, kernel: &K) -> (out: Float32)
    requires
        is_function(*kernel),
    ensures
        out == spec_gamma_expand(channel, kernel),
{
    if channel.le(Float32::from_bits(EXPAND_BREAK_BITS)) {
        channel.over(Float32::from_bits(LINEAR_SLOPE_BITS))
    } else {
        ask(
            kernel,
            MathCall::Powf(
                channel.plus(Float32::from_bits(GAMMA_OFFSET_BITS)).over(
                    Float32::from_bits(GAMMA_SCALE_BITS),
                ),
                Float32::from_bits(GAMMA_BITS),
            ),
        )
    }
}


/// Linear to gamma-encoded, channel by channel.
pub open spec fn spec_compressed<K: Fn(MathCall) -> Float32>(rgb: RgbF, kernel: &K) -> SrgbF {
    SrgbF {
        r: gamma_compress(rgb.r, kernel),
        g: gamma_compress(rgb.g, kernel),
        b: gamma_compress(rgb.b, kernel),
    }
}

/// Linear to gamma-encoded, channel by channel.
#[verifier::when_used_as_spec(spec_compressed)]
pub fn compressed<K: Fn(MathCall) -> Float32>(rgb: RgbF, kernel: &K) -> (out: SrgbF)
    requires
        is_function(*kernel),
    ensures
        out == spec_compressed(rgb, kernel),
{
    SrgbF {
        r: gamma_compress(rgb.r, kernel),
        g: gamma_compress(rgb.g, kernel),
        b: gamma_compress(rgb.b, kernel),
    }
}


/// Gamma-encoded to linear, channel by channel.
pub open spec fn spec_expanded<K: Fn(MathCall) -> Float32>(srgb: SrgbF, kernel: &K) -> RgbF {
    RgbF {
        r: gamma_expand(srgb.r, kernel),
        g: gamma_expand(srgb.g, kernel),
        b: gamma_expand(srgb.b, kernel),
    }
}

/// Gamma-encoded to linear, channel by channel.
#[verifier::when_used_as_spec(spec_expanded)]
pub fn expanded<K: Fn(MathCall) -> Float32>(srgb: SrgbF, kernel: &K) -> (out: RgbF)
    requires
        is_function(*kernel),
    ensures
        out == spec_expanded(srgb, kernel),
{
    RgbF {
        r: gamma_expand(srgb.r, kernel),
        g: gamma_expand(srgb.g, kernel),
        b: gamma_expand(srgb.b, kernel),
    }
}


} // verus!
