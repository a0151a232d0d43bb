//! Hue geometry: between linear red, green and blue and the hue-based
//! formats.
//!
//! Hue is in degrees. The chroma is `C = S V` for HSV and
//! `C = (1 - |2 L - 1|) S` for HSL, the second-largest channel is
//! `X = C (1 - |(H / 60) mod 2 - 1|)`, the sixth of the circle that the hue
//! lies in says which channels get `C`, `X` and 0, and all three are raised
//! by `m = V - C` or `m = L - C / 2`.

use crate::color::hsv_hsl::{Hsl, Hsv};
use crate::color::rgb::RgbF;
use crate::float32::arith::sum_of_ordered;
use crate::float32::round::{bit_length, nearest, pack};
use crate::float32::unit::{
    lemma_half_of_fraction, lemma_one_less_fraction, lemma_one_less_zero, lemma_one_times_one,
    lemma_product_of_fractions, lemma_zero_times, TWO_BITS,
};
use crate::float32::{Float32, ONE_BITS};
use vstd::arithmetic::power2::{lemma2_to64, pow2};
use vstd::prelude::*;

verus! {

/// The bit pattern of 0.5.
pub const HALF_BITS: u32 = 0x3F00_0000;

/// The bit pattern of 3.0.
pub const THREE_BITS: u32 = 0x4040_0000;

/// The bit pattern of 4.0.
pub const FOUR_BITS: u32 = 0x4080_0000;

/// The bit pattern of 5.0.
pub const FIVE_BITS: u32 = 0x40A0_0000;

/// The bit pattern of 6.0.
pub const SIX_BITS: u32 = 0x40C0_0000;

/// The bit pattern of 60.0, the degrees of a sixth of the circle.
pub const SIXTY_BITS: u32 = 0x4270_0000;

/// The bit pattern of 360.0, the degrees of the full circle.
pub const FULL_CIRCLE_BITS: u32 = 0x43B4_0000;

/// `C (1 - |h mod 2 - 1|)`, for the hue `h` in sixths of the circle.
pub open spec fn spec_second_largest(c: Float32, h: Float32) -> Float32 {
    c.times(
        Float32::from_bits(ONE_BITS).minus(
            h.rem_two().minus(Float32::from_bits(ONE_BITS)).abs(),
        ),
    )
}

/// `C (1 - |h mod 2 - 1|)`, for the hue `h` in sixths of the circle.
#[verifier::when_used_as_spec(spec_second_largest)]
pub fn second_largest(c: Float32, h: Float32) -> (out: Float32)
    ensures
        out == spec_second_largest(c, h),
{
    c.times(
        Float32::from_bits(ONE_BITS).minus(
            h.rem_two().minus(Float32::from_bits(ONE_BITS)).abs(),
        ),
    )
}


/// The three channels, each raised by `m`.
pub open spec fn spec_raised(r: Float32, g: Float32, b: Float32, m: Float32) -> RgbF {
    RgbF { r: r.plus(m), g: g.plus(m), b: b.plus(m) }
}

/// The three channels, each raised by `m`.
#[verifier::when_used_as_spec(spec_raised)]
pub fn raised(r: Float32, g: Float32, b: Float32, m: Float32) -> (out: RgbF)
    ensures
        out == spec_raised(r, g, b, m),
{
    RgbF { r: r.plus(m), g: g.plus(m), b: b.plus(m) }
}


/// Linear red, green and blue of an HSV value. A sixth of the circle
/// holds its upper boundary, the first its lower one too; outside the
/// circle all three channels are `V - C`.
pub open spec fn spec_hsv_to_linear(hsv: Hsv) -> RgbF {
    let zero = Float32::from_bits(0);
    let c = hsv.s.times(hsv.v);
    let h = hsv.h.over(Float32::from_bits(SIXTY_BITS));
    let x = second_largest(c, h);
    let m = hsv.v.minus(c);
    if zero.le(h) && h.le(Float32::from_bits(ONE_BITS)) {
        raised(c, x, zero, m)
    } else if Float32::from_bits(ONE_BITS).lt(h) && h.le(Float32::from_bits(TWO_BITS)) {
        raised(x, c, zero, m)
    } else if Float32::from_bits(TWO_BITS).lt(h) && h.le(Float32::from_bits(THREE_BITS)) {
        raised(zero, c, x, m)
    } else if Float32::from_bits(THREE_BITS).lt(h) && h.le(Float32::from_bits(FOUR_BITS)) {
        raised(zero, x, c, m)
    } else if Float32::from_bits(FOUR_BITS).lt(h) && h.le(Float32::from_bits(FIVE_BITS)) {
        raised(x, zero, c, m)
    } else if Float32::from_bits(FIVE_BITS).lt(h) && h.le(Float32::from_bits(SIX_BITS)) {
        raised(c, zero, x, m)
    } else {
        raised(zero, zero, zero, m)
    }
}

/// Linear red, green and blue of an HSV value. A sixth of the circle
/// holds its upper boundary, the first its lower one too; outside the
/// circle all three channels are `V - C`.
#[verifier::when_used_as_spec(spec_hsv_to_linear)]
pub fn hsv_to_linear(hsv: Hsv) -> (out: RgbF)
    ensures
        out == spec_hsv_to_linear(hsv),
{
    let zero = Float32::from_bits(0);
    let c = hsv.s.times(hsv.v);
    let h = hsv.h.over(Float32::from_bits(SIXTY_BITS));
    let x = second_largest(c, h);
    let m = hsv.v.minus(c);
    if zero.le(h) && h.le(Float32::from_bits(ONE_BITS)) {
        raised(c, x, zero, m)
    } else if Float32::from_bits(ONE_BITS).lt(h) && h.le(Float32::from_bits(TWO_BITS)) {
        raised(x, c, zero, m)
    } else if Float32::from_bits(TWO_BITS).lt(h) && h.le(Float32::from_bits(THREE_BITS)) {
        raised(zero, c, x, m)
    } else if Float32::from_bits(THREE_BITS).lt(h) && h.le(Float32::from_bits(FOUR_BITS)) {
        raised(zero, x, c, m)
    } else if Float32::from_bits(FOUR_BITS).lt(h) && h.le(Float32::from_bits(FIVE_BITS)) {
        raised(x, zero, c, m)
    } else if Float32::from_bits(FIVE_BITS).lt(h) && h.le(Float32::from_bits(SIX_BITS)) {
        raised(c, zero, x, m)
    } else {
        raised(zero, zero, zero, m)
    }
}


/// Linear red, green and blue of an HSL value. A sixth of the circle
/// holds its lower boundary, and the full circle is the hue 0; outside the
/// circle all three channels are `L - C / 2`.
pub open spec fn spec_hsl_to_linear(hsl: Hsl) -> RgbF {
    let zero = Float32::from_bits(0);
    let one = Float32::from_bits(ONE_BITS);
    let c = one.minus(Float32::from_bits(TWO_BITS).times(hsl.l).minus(one).abs()).times(hsl.s);
    let sixths = hsl.h.over(Float32::from_bits(SIXTY_BITS));
    let h = if sixths.same_number(Float32::from_bits(SIX_BITS)) {
        zero
    } else {
        sixths
    };
    let x = second_largest(c, h);
    let m = hsl.l.minus(c.over(Float32::from_bits(TWO_BITS)));
    if zero.le(h) && h.lt(one) {
        raised(c, x, zero, m)
    } else if one.le(h) && h.lt(Float32::from_bits(TWO_BITS)) {
        raised(x, c, zero, m)
    } else if Float32::from_bits(TWO_BITS).le(h) && h.lt(Float32::from_bits(THREE_BITS)) {
        raised(zero, c, x, m)
    } else if Float32::from_bits(THREE_BITS).le(h) && h.lt(Float32::from_bits(FOUR_BITS)) {
        raised(zero, x, c, m)
    } else if Float32::from_bits(FOUR_BITS).le(h) && h.lt(Float32::from_bits(FIVE_BITS)) {
        raised(x, zero, c, m)
    } else if Float32::from_bits(FIVE_BITS).le(h) && h.lt(Float32::from_bits(SIX_BITS)) {
        raised(c, zero, x, m)
    } else {
        raised(zero, zero, zero, m)
    }
}

/// Linear red, green and blue of an HSL value. A sixth of the circle
/// holds its lower boundary, and the full circle is the hue 0; outside the
/// circle all three channels are `L - C / 2`.
#[verifier::when_used_as_spec(spec_hsl_to_linear)]
pub fn hsl_to_linear(hsl: Hsl) -> (out: RgbF)
    ensures
        out == spec_hsl_to_linear(hsl),
{
    let zero = Float32::from_bits(0);
    let one = Float32::from_bits(ONE_BITS);
    let c = one.minus(Float32::from_bits(TWO_BITS).times(hsl.l).minus(one).abs()).times(hsl.s);
    let sixths = hsl.h.over(Float32::from_bits(SIXTY_BITS));
    let h = if sixths.same_number(Float32::from_bits(SIX_BITS)) {
        zero
    } else {
        sixths
    };
    let x = second_largest(c, h);
    let m = hsl.l.minus(c.over(Float32::from_bits(TWO_BITS)));
    if zero.le(h) && h.lt(one) {
        raised(c, x, zero, m)
    } else if one.le(h) && h.lt(Float32::from_bits(TWO_BITS)) {
        raised(x, c, zero, m)
    } else if Float32::from_bits(TWO_BITS).le(h) && h.lt(Float32::from_bits(THREE_BITS)) {
        raised(zero, c, x, m)
    } else if Float32::from_bits(THREE_BITS).le(h) && h.lt(Float32::from_bits(FOUR_BITS)) {
        raised(zero, x, c, m)
    } else if Float32::from_bits(FOUR_BITS).le(h) && h.lt(Float32::from_bits(FIVE_BITS)) {
        raised(x, zero, c, m)
    } else if Float32::from_bits(FIVE_BITS).le(h) && h.lt(Float32::from_bits(SIX_BITS)) {
        raised(c, zero, x, m)
    } else {
        raised(zero, zero, zero, m)
    }
}


/// The channel with the given index: red for 0, green for 1, blue
/// otherwise.
pub open spec fn spec_channel(rgb: RgbF, index: u8) -> Float32 {
    if index == 0 {
        rgb.r
    } else if index == 1 {
        rgb.g
    } else {
        rgb.b
    }
}

/// The channel with the given index: red for 0, green for 1, blue
/// otherwise.
#[verifier::when_used_as_spec(spec_channel)]
pub fn channel(rgb: RgbF, index: u8) -> (out: Float32)
    ensures
        out == spec_channel(rgb, index),
{
    if index == 0 {
        rgb.r
    } else if index == 1 {
        rgb.g
    } else {
        rgb.b
    }
}


/// The index of the greatest channel, the last of several that are
/// equal.
pub open spec fn spec_greatest_index(rgb: RgbF) -> u8 {
    let first: u8 = if rgb.r.le(rgb.g) {
        1
    } else {
        0
    };
    if channel(rgb, first).le(rgb.b) {
        2
    } else {
        first
    }
}

/// The index of the greatest channel, the last of several that are
/// equal.
#[verifier::when_used_as_spec(spec_greatest_index)]
pub fn greatest_index(rgb: RgbF) -> (out: u8)
    ensures
        out == spec_greatest_index(rgb),
{
    let first: u8 = if rgb.r.le(rgb.g) {
        1
    } else {
        0
    };
    if channel(rgb, first).le(rgb.b) {
        2
    } else {
        first
    }
}


/// The index of the least channel, the last of several that are equal.
pub open spec fn spec_least_index(rgb: RgbF) -> u8 {
    let first: u8 = if rgb.g.le(rgb.r) {
        1
    } else {
        0
    };
    if rgb.b.le(channel(rgb, first)) {
        2
    } else {
        first
    }
}

/// The index of the least channel, the last of several that are equal.
#[verifier::when_used_as_spec(spec_least_index)]
pub fn least_index(rgb: RgbF) -> (out: u8)
    ensures
        out == spec_least_index(rgb),
{
    let first: u8 = if rgb.g.le(rgb.r) {
        1
    } else {
        0
    };
    if rgb.b.le(channel(rgb, first)) {
        2
    } else {
        first
    }
}


/// A hue brought into the circle, from 0 up to below 360 degrees: a hue
/// below zero gets 360 added, and what is then not in the circle, as the
/// full circle itself is not, is the hue 0. What is not a number stays.
pub open spec fn spec_into_circle(h: Float32) -> Float32 {
    let zero = Float32::from_bits(0);
    let full = Float32::from_bits(FULL_CIRCLE_BITS);
    if h.is_not_a_number() {
        h
    } else if h.lt(zero) {
        let wrapped = h.plus(full);
        if zero.le(wrapped) && wrapped.lt(full) {
            wrapped
        } else {
            zero
        }
    } else if h.lt(full) {
        h
    } else {
        zero
    }
}

/// A hue brought into the circle, from 0 up to below 360 degrees: a hue
/// below zero gets 360 added, and what is then not in the circle, as the
/// full circle itself is not, is the hue 0. What is not a number stays.
#[verifier::when_used_as_spec(spec_into_circle)]
pub fn into_circle(h: Float32) -> (out: Float32)
    ensures
        out == spec_into_circle(h),
{
    let zero = Float32::from_bits(0);
    let full = Float32::from_bits(FULL_CIRCLE_BITS);
    if h.is_not_a_number() {
        h
    } else if h.lt(zero) {
        let wrapped = h.plus(full);
        if zero.le(wrapped) && wrapped.lt(full) {
            wrapped
        } else {
            zero
        }
    } else if h.lt(full) {
        h
    } else {
        zero
    }
}


/// The hue in degrees, from 0 up to below 360: 0 for a gray, and
/// otherwise 60 times the place on the circle, which the greatest channel
/// and the difference of the other two over the chroma give, brought into
/// the circle.
pub open spec fn spec_hue_of(channels: RgbF) -> Float32 {
    let greatest = greatest_index(channels);
    let c = channel(channels, greatest).minus(channel(channels, least_index(channels)));
    if c.same_number(Float32::from_bits(0)) {
        Float32::from_bits(0)
    } else if greatest == 0 {
        into_circle(Float32::from_bits(SIXTY_BITS).times(channels.g.minus(channels.b).over(c)))
    } else if greatest == 1 {
        into_circle(
            Float32::from_bits(SIXTY_BITS).times(
                Float32::from_bits(TWO_BITS).plus(channels.b.minus(channels.r).over(c)),
            ),
        )
    } else {
        into_circle(
            Float32::from_bits(SIXTY_BITS).times(
                Float32::from_bits(FOUR_BITS).plus(channels.r.minus(channels.g).over(c)),
            ),
        )
    }
}

/// The hue in degrees, from 0 up to below 360: 0 for a gray, and
/// otherwise 60 times the place on the circle, which the greatest channel
/// and the difference of the other two over the chroma give, brought into
/// the circle.
#[verifier::when_used_as_spec(spec_hue_of)]
pub fn hue_of(channels: RgbF) -> (out: Float32)
    ensures
        out == spec_hue_of(channels),
{
    let greatest = greatest_index(channels);
    let c = channel(channels, greatest).minus(channel(channels, least_index(channels)));
    if c.same_number(Float32::from_bits(0)) {
        Float32::from_bits(0)
    } else if greatest == 0 {
        into_circle(Float32::from_bits(SIXTY_BITS).times(channels.g.minus(channels.b).over(c)))
    } else if greatest == 1 {
        into_circle(
            Float32::from_bits(SIXTY_BITS).times(
                Float32::from_bits(TWO_BITS).plus(channels.b.minus(channels.r).over(c)),
            ),
        )
    } else {
        into_circle(
            Float32::from_bits(SIXTY_BITS).times(
                Float32::from_bits(FOUR_BITS).plus(channels.r.minus(channels.g).over(c)),
            ),
        )
    }
}


/// The HSV value of linear red, green and blue. The value is the
/// greatest channel, the saturation the chroma over the value, and 0
/// where the value is 0.
pub open spec fn spec_linear_to_hsv(channels: RgbF) -> Hsv {
    let v = channel(channels, greatest_index(channels));
    let c = v.minus(channel(channels, least_index(channels)));
    Hsv {
        h: hue_of(channels),
        s: if v.same_number(Float32::from_bits(0)) {
            Float32::from_bits(0)
        } else {
            c.over(v)
        },
        v,
    }
}

/// The HSV value of linear red, green and blue. The value is the
/// greatest channel, the saturation the chroma over the value, and 0
/// where the value is 0.
#[verifier::when_used_as_spec(spec_linear_to_hsv)]
pub fn linear_to_hsv(channels: RgbF) -> (out: Hsv)
    ensures
        out == spec_linear_to_hsv(channels),
{
    let v = channel(channels, greatest_index(channels));
    let c = v.minus(channel(channels, least_index(channels)));
    Hsv {
        h: hue_of(channels),
        s: if v.same_number(Float32::from_bits(0)) {
            Float32::from_bits(0)
        } else {
            c.over(v)
        },
        v,
    }
}


/// The HSL value of linear red, green and blue. The lightness is the
/// mean of the greatest and the least channel, and the saturation is 0
/// where the lightness is 0 or 1.
pub open spec fn spec_linear_to_hsl(channels: RgbF) -> Hsl {
    let one = Float32::from_bits(ONE_BITS);
    let greatest = channel(channels, greatest_index(channels));
    let l = greatest.plus(channel(channels, least_index(channels))).over(
        Float32::from_bits(TWO_BITS),
    );
    Hsl {
        h: hue_of(channels),
        s: if l.same_number(one) || l.same_number(Float32::from_bits(0)) {
            Float32::from_bits(0)
        } else {
            greatest.minus(l).over(
                if Float32::from_bits(HALF_BITS).le(l) {
                    one.minus(l)
                } else {
                    l
                },
            )
        },
        l,
    }
}

/// The HSL value of linear red, green and blue. The lightness is the
/// mean of the greatest and the least channel, and the saturation is 0
/// where the lightness is 0 or 1.
#[verifier::when_used_as_spec(spec_linear_to_hsl)]
pub fn linear_to_hsl(channels: RgbF) -> (out: Hsl)
    ensures
        out == spec_linear_to_hsl(channels),
{
    let one = Float32::from_bits(ONE_BITS);
    let greatest = channel(channels, greatest_index(channels));
    let l = greatest.plus(channel(channels, least_index(channels))).over(
        Float32::from_bits(TWO_BITS),
    );
    Hsl {
        h: hue_of(channels),
        s: if l.same_number(one) || l.same_number(Float32::from_bits(0)) {
            Float32::from_bits(0)
        } else {
            greatest.minus(l).over(
                if Float32::from_bits(HALF_BITS).le(l) {
                    one.minus(l)
                } else {
                    l
                },
            )
        },
        l,
    }
}


/// The HSV value of an HSL value: `V = L + S min(L, 1 - L)`, and the
/// saturation is 0 where the value is 0.
pub open spec fn spec_hsl_to_hsv(hsl: Hsl) -> Hsv {
    let one = Float32::from_bits(ONE_BITS);
    let v = hsl.l.plus(
        hsl.s.times(
            if Float32::from_bits(HALF_BITS).le(hsl.l) {
                one.minus(hsl.l)
            } else {
                hsl.l
            },
        ),
    );
    Hsv {
        h: hsl.h,
        s: if v.same_number(Float32::from_bits(0)) {
            Float32::from_bits(0)
        } else {
            Float32::from_bits(TWO_BITS).times(one.minus(hsl.l.over(v)))
        },
        v,
    }
}

/// The HSV value of an HSL value: `V = L + S min(L, 1 - L)`, and the
/// saturation is 0 where the value is 0.
#[verifier::when_used_as_spec(spec_hsl_to_hsv)]
pub fn hsl_to_hsv(hsl: Hsl) -> (out: Hsv)
    ensures
        out == spec_hsl_to_hsv(hsl),
{
    let one = Float32::from_bits(ONE_BITS);
    let v = hsl.l.plus(
        hsl.s.times(
            if Float32::from_bits(HALF_BITS).le(hsl.l) {
                one.minus(hsl.l)
            } else {
                hsl.l
            },
        ),
    );
    Hsv {
        h: hsl.h,
        s: if v.same_number(Float32::from_bits(0)) {
            Float32::from_bits(0)
        } else {
            Float32::from_bits(TWO_BITS).times(one.minus(hsl.l.over(v)))
        },
        v,
    }
}


/// The HSL value of an HSV value: `L = V (1 - S / 2)`, and the
/// saturation is 0 where the lightness is 0 or 1.
pub open spec fn spec_hsv_to_hsl(hsv: Hsv) -> Hsl {
    let one = Float32::from_bits(ONE_BITS);
    let l = hsv.v.times(one.minus(hsv.s.over(Float32::from_bits(TWO_BITS))));
    Hsl {
        h: hsv.h,
        s: if l.same_number(one) || l.same_number(Float32::from_bits(0)) {
            Float32::from_bits(0)
        } else {
            hsv.v.minus(l).over(
                if Float32::from_bits(HALF_BITS).le(l) {
                    one.minus(l)
                } else {
                    l
                },
            )
        },
        l,
    }
}

/// The HSL value of an HSV value: `L = V (1 - S / 2)`, and the
/// saturation is 0 where the lightness is 0 or 1.
#[verifier::when_used_as_spec(spec_hsv_to_hsl)]
pub fn hsv_to_hsl(hsv: Hsv) -> (out: Hsl)
    ensures
        out == spec_hsv_to_hsl(hsv),
{
    let one = Float32::from_bits(ONE_BITS);
    let l = hsv.v.times(one.minus(hsv.s.over(Float32::from_bits(TWO_BITS))));
    Hsl {
        h: hsv.h,
        s: if l.same_number(one) || l.same_number(Float32::from_bits(0)) {
            Float32::from_bits(0)
        } else {
            hsv.v.minus(l).over(
                if Float32::from_bits(HALF_BITS).le(l) {
                    one.minus(l)
                } else {
                    l
                },
            )
        },
        l,
    }
}


/// Between HSV and HSL, the saturation is exactly zero where the value is
/// zero, or the lightness is zero or one.
pub proof fn lemma_saturation_at_extremes(hsv: Hsv, hsl: Hsl)
    ensures
        spec_hsl_to_hsv(hsl).v.same_number(Float32::from_bits(0)) ==> spec_hsl_to_hsv(hsl).s
            == Float32::from_bits(0),
        spec_hsv_to_hsl(hsv).l.same_number(Float32::from_bits(0)) || spec_hsv_to_hsl(
            hsv,
        ).l.same_number(Float32::from_bits(ONE_BITS)) ==> spec_hsv_to_hsl(hsv).s
            == Float32::from_bits(0),
        spec_hsl_to_hsv(hsl).h == hsl.h,
        spec_hsv_to_hsl(hsv).h == hsv.h,
{
}

/// From linear red, green and blue, the saturation is exactly zero where
/// the value is zero, or the lightness is zero or one, and the hue is
/// exactly zero for a gray.
pub proof fn lemma_saturation_of_linear_at_extremes(channels: RgbF)
    ensures
        spec_linear_to_hsv(channels).v.same_number(Float32::from_bits(0)) ==> spec_linear_to_hsv(
            channels,
        ).s == Float32::from_bits(0),
        spec_linear_to_hsl(channels).l.same_number(Float32::from_bits(0)) || spec_linear_to_hsl(
            channels,
        ).l.same_number(Float32::from_bits(ONE_BITS)) ==> spec_linear_to_hsl(channels).s
            == Float32::from_bits(0),
        spec_channel(channels, spec_greatest_index(channels)).minus(
            spec_channel(channels, spec_least_index(channels)),
        ).same_number(Float32::from_bits(0)) ==> spec_hue_of(channels) == Float32::from_bits(0),
{
}

/// A hue brought into the circle is at least 0 and below 360 degrees,
/// wherever it is a number, and a hue that is in the circle stays as it is.
pub proof fn lemma_into_circle(h: Float32)
    ensures
        !spec_into_circle(h).is_nan() ==> Float32::from_bits(0).le(spec_into_circle(h))
            && spec_into_circle(h).lt(Float32::from_bits(FULL_CIRCLE_BITS)),
        spec_into_circle(h).is_nan() <==> h.is_nan(),
        Float32::from_bits(0).le(h) && h.lt(Float32::from_bits(FULL_CIRCLE_BITS))
            ==> spec_into_circle(h) == h,
{
}

/// The hue of linear red, green and blue, and so that of every HSV and HSL
/// value made of them, is at least 0 and below 360 degrees wherever it is a
/// number.
pub proof fn lemma_hue_in_circle(channels: RgbF)
    ensures
        !spec_hue_of(channels).is_nan() ==> Float32::from_bits(0).le(spec_hue_of(channels))
            && spec_hue_of(channels).lt(Float32::from_bits(FULL_CIRCLE_BITS)),
        spec_linear_to_hsv(channels).h == spec_hue_of(channels),
        spec_linear_to_hsl(channels).h == spec_hue_of(channels),
{
    let sixty = Float32::from_bits(SIXTY_BITS);
    let c = spec_channel(channels, spec_greatest_index(channels)).minus(
        spec_channel(channels, spec_least_index(channels)),
    );
    lemma_into_circle(sixty.times(channels.g.minus(channels.b).over(c)));
    lemma_into_circle(
        sixty.times(Float32::from_bits(TWO_BITS).plus(channels.b.minus(channels.r).over(c))),
    );
    lemma_into_circle(
        sixty.times(Float32::from_bits(FOUR_BITS).plus(channels.r.minus(channels.g).over(c))),
    );
}

/// The full circle is six sixths, no degrees are none, and neither leaves
/// a remainder when divided by two; one less the magnitude of zero less
/// one is zero.
proof fn lemma_circle_arithmetic()
    ensures
        Float32::from_bits(FULL_CIRCLE_BITS).over(Float32::from_bits(SIXTY_BITS))
            == Float32::from_bits(SIX_BITS),
        Float32::from_bits(0).over(Float32::from_bits(SIXTY_BITS)) == Float32::from_bits(0),
        Float32::from_bits(SIX_BITS).rem_two() == Float32::from_bits(0),
        Float32::from_bits(0).rem_two() == Float32::from_bits(0),
        Float32::from_bits(ONE_BITS).minus(
            Float32::from_bits(0).minus(Float32::from_bits(ONE_BITS)).abs(),
        ) == Float32::from_bits(0),
{
    reveal(Float32::spec_over);
    reveal(Float32::spec_rem_two);
    reveal(Float32::spec_plus);
    reveal(nearest);
    reveal_with_fuel(bit_length, 25);
    lemma2_to64();
    let circle = Float32::from_bits(FULL_CIRCLE_BITS);
    let sixty = Float32::from_bits(SIXTY_BITS);
    assert(circle.significand() == 0xB4_0000 && circle.exponent() == -15);
    assert(sixty.significand() == 0xF0_0000 && sixty.exponent() == -18);
    assert(bit_length(0xB4_0000) == 24);
    assert(bit_length(0xF0_0000) == 24);
    assert(pow2(0) == 1);
    assert((0xB4_0000 * 0x100_0000) / 0xF0_0000 == 0xC0_0000 && (0xB4_0000 * 0x100_0000) % 0xF0_0000
        == 0) by (nonlinear_arith);
    assert(circle.over(sixty) == pack(false, 0xC0_0000, -21));
    let six = Float32::from_bits(SIX_BITS);
    assert(six.significand() == 0xC0_0000 && six.exponent() == -21);
    assert(0xC0_0000nat % 0x40_0000nat == 0);
    assert(0nat % pow2(150) == 0) by {
        vstd::arithmetic::power2::lemma_pow2_pos(150);
        vstd::arithmetic::div_mod::lemma_small_mod(0, pow2(150));
    }
    let one = Float32::from_bits(ONE_BITS);
    let minus_one = Float32::from_bits(0).minus(one);
    assert(minus_one == one.spec_negated());
    assert(minus_one.abs() == one);
    assert(one.significand() * pow2(0) == one.significand()) by (nonlinear_arith)
        requires
            pow2(0) == 1,
    ;
    assert(one.minus(one) == sum_of_ordered(one, one.spec_negated()));
}

/// The hue of the full circle gives the red, green and blue of the hue 0,
/// whatever the saturation and the lightness.
pub proof fn lemma_hsl_hue_wraps(s: Float32, l: Float32)
    ensures
        spec_hsl_to_linear(Hsl { h: Float32::from_bits(FULL_CIRCLE_BITS), s, l })
            == spec_hsl_to_linear(Hsl { h: Float32::from_bits(0), s, l }),
{
    lemma_circle_arithmetic();
}

/// The hue of the full circle gives the red, green and blue of the hue 0,
/// for a saturation and a value whose product, the chroma, is a number
/// from zero up and not infinite.
pub proof fn lemma_hsv_hue_wraps(s: Float32, v: Float32)
    requires
        !s.times(v).is_nan(),
        !s.times(v).is_infinite(),
        !s.times(v).sign_set(),
    ensures
        spec_hsv_to_linear(Hsv { h: Float32::from_bits(FULL_CIRCLE_BITS), s, v })
            == spec_hsv_to_linear(Hsv { h: Float32::from_bits(0), s, v }),
{
    lemma_circle_arithmetic();
    let c = s.times(v);
    let zero = Float32::from_bits(0);
    assert(c.times(zero) == zero) by {
        reveal(Float32::spec_times);
        reveal(nearest);
        assert(c.significand() * zero.significand() == 0) by (nonlinear_arith)
            requires
                zero.significand() == 0,
        ;
    }
}

/// The hue of the full circle gives the red, green and blue of the hue 0,
/// for every saturation and value that are numbers from 0 to 1.
pub proof fn lemma_hsv_hue_wraps_in_range(s: Float32, v: Float32)
    requires
        s.is_fraction(),
        v.is_fraction(),
    ensures
        spec_hsv_to_linear(Hsv { h: Float32::from_bits(FULL_CIRCLE_BITS), s, v })
            == spec_hsv_to_linear(Hsv { h: Float32::from_bits(0), s, v }),
{
    lemma_product_of_fractions(s, v);
    lemma_hsv_hue_wraps(s, v);
}

/// An HSV value without value, whose saturation is a number from 0 to 1,
/// has as HSL value the same hue, a saturation of exactly zero, and its own
/// zero as the lightness: nothing is divided by zero, and nothing that is
/// not a number comes out.
pub proof fn lemma_hsv_to_hsl_without_value(hsv: Hsv)
    requires
        hsv.v.is_zero(),
        hsv.s.in_unit_range(),
        !hsv.s.is_nan(),
    ensures
        spec_hsv_to_hsl(hsv).h == hsv.h,
        spec_hsv_to_hsl(hsv).s == Float32::from_bits(0),
        spec_hsv_to_hsl(hsv).l == hsv.v,
{
    let one = Float32::from_bits(ONE_BITS);
    let half = hsv.s.over(Float32::from_bits(TWO_BITS));
    lemma_half_of_fraction(hsv.s);
    if half.is_zero() {
        lemma_one_less_zero(half);
    } else {
        lemma_one_less_fraction(half);
    }
    lemma_zero_times(hsv.v, one.minus(half));
}

/// An HSV value of full value and no saturation has as HSL value the same
/// hue, a saturation of exactly zero and a lightness of exactly one.
pub proof fn lemma_hsv_to_hsl_at_full_value(hsv: Hsv)
    requires
        hsv.v == Float32::from_bits(ONE_BITS),
        hsv.s.is_zero(),
    ensures
        spec_hsv_to_hsl(hsv).h == hsv.h,
        spec_hsv_to_hsl(hsv).s == Float32::from_bits(0),
        spec_hsv_to_hsl(hsv).l == Float32::from_bits(ONE_BITS),
{
    let half = hsv.s.over(Float32::from_bits(TWO_BITS));
    lemma_half_of_fraction(hsv.s);
    lemma_one_less_zero(half);
    lemma_one_times_one();
}

} // verus!
