//! Whole-number channel arithmetic: rescaling between 8 and 16 bits, and
//! luminance from linear red, green and blue.
//!
//! An 8-bit value `c` stands for `c / 255` and a 16-bit value `w` for
//! `w / 65535`. Since `65535 = 255 * 257`, widening is multiplying by 257,
//! which loses nothing, and narrowing is dividing by 257, cut down to a whole
//! number.

use vstd::prelude::*;

verus! {

/// The 16-bit value that stands for the same fraction as `c`.
pub open spec fn spec_widen(c: u8) -> u16 {
    (c * 257) as u16
}

/// The greatest 8-bit value that stands for no more than `w` does.
pub open spec fn spec_narrow(w: u16) -> u8 {
    (w / 257) as u8
}

/// Luminance `0.2126 R + 0.7152 G + 0.0722 B` (Rec. 709), in the sample
/// domain of the three channels, cut down to a whole number.
pub open spec fn spec_gray_from_rgb(r: int, g: int, b: int) -> int {
    (2126 * r + 7152 * g + 722 * b) / 10000
}

/// Luminance of 8-bit channels as a 16-bit value: 257 times the luminance
/// `0.2126 R + 0.7152 G + 0.0722 B`, cut down to a whole number.
pub open spec fn spec_gray16_from_rgb8(r: int, g: int, b: int) -> int {
    ((2126 * r + 7152 * g + 722 * b) * 257) / 10000
}

/// Rescales an 8-bit channel to 16 bits.
pub fn widen(c: u8) -> (w: u16)
    ensures
        w == spec_widen(c),
        w * 255 == c * 65535,
{
    (c as u16) * 257
}

/// Rescales a 16-bit channel to 8 bits.
pub fn narrow(w: u16) -> (c: u8)
    ensures
        c == spec_narrow(w),
        c * 65535 <= w * 255 < (c + 1) * 65535,
{
    (w / 257) as u8
}

/// Luminance of three channels of one sample domain, in that domain.
pub fn gray_from_rgb(r: u16, g: u16, b: u16) -> (y: u16)
    ensures
        y == spec_gray_from_rgb(r as int, g as int, b as int),
        r <= 255 && g <= 255 && b <= 255 ==> y <= 255,
{
    let sum: u32 = 2126 * (r as u32) + 7152 * (g as u32) + 722 * (b as u32);
    (sum / 10000) as u16
}

/// Luminance of three 8-bit channels, rescaled to 16 bits.
pub fn gray16_from_rgb8(r: u8, g: u8, b: u8) -> (y: u16)
    ensures
        y == spec_gray16_from_rgb8(r as int, g as int, b as int),
{
    let sum: u32 = 2126 * (r as u32) + 7152 * (g as u32) + 722 * (b as u32);
    ((sum * 257) / 10000) as u16
}

/// The luminance of a gray, whose three channels are equal, is that gray.
pub proof fn lemma_gray_of_gray(c: int)
    requires
        0 <= c,
    ensures
        spec_gray_from_rgb(c, c, c) == c,
        spec_gray16_from_rgb8(c, c, c) == 257 * c,
{
    assert(2126 * c + 7152 * c + 722 * c == 10000 * c);
    assert((2126 * c + 7152 * c + 722 * c) * 257 == 10000 * (257 * c));
}

} // verus!
