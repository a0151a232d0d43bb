//! Conversion of a color value to any format.
//!
//! A value goes from format to format along the conversion graph, one
//! pairwise conversion after the other, until it has the format asked for.
//! The pairwise conversions are computed here, in whole numbers and in
//! single-precision arithmetic on bit patterns; the powers of the sRGB
//! transfer curve and the cube roots of L*a*b* are asked of a kernel that
//! the caller hands in.

use crate::color::channel::lemma_gray_of_gray;
use crate::color::cie::{CieLab, CieXyz};
use crate::color::color::Color;
use crate::color::format::ColorFormatName;
use crate::color::graph::{lemma_next_hop, next_hop, spec_hops, spec_is_direct, spec_next_hop};
use crate::color::grayscale::{Gray16, Gray8, GrayF};
use crate::color::hsv_hsl::{Hsl, Hsv};
use crate::color::kernel::{is_function, MathCall};
use crate::color::rgb::{Rgb, Rgb48, RgbF, Rgba, Rgba64, RgbaF, Srgb, SrgbF};
use crate::float32::Float32;
use vstd::prelude::*;

verus! {

impl Color {
    /// What the pairwise conversion to `to` gives; nothing for a pair
    /// without a pairwise conversion.
    pub open spec fn spec_convert_direct<K: Fn(MathCall) -> Float32>(
        self,
        to: ColorFormatName,
        kernel: &K,
    ) -> Option<Color> {
        match self {
            Color::Gray8(v) => match to {
                ColorFormatName::Gray16 => Some(Color::Gray16(Gray16::spec_from_gray8(v))),
                ColorFormatName::Grayf => Some(Color::Grayf(GrayF::spec_from_gray8(v))),
                ColorFormatName::RGB => Some(Color::RGB(Rgb::spec_from_gray8(v))),
                ColorFormatName::RGBA => Some(Color::RGBA(Rgba::spec_from_gray8(v))),
                _ => None,
            },
            Color::Gray16(v) => match to {
                ColorFormatName::Gray8 => Some(Color::Gray8(Gray8::spec_from_gray16(v))),
                ColorFormatName::Grayf => Some(Color::Grayf(GrayF::spec_from_gray16(v))),
                ColorFormatName::RGB => Some(Color::RGB(Rgb::spec_from_gray16(v))),
                ColorFormatName::RGB48 => Some(Color::RGB48(Rgb48::spec_from_gray16(v))),
                ColorFormatName::RGBA64 => Some(Color::RGBA64(Rgba64::spec_from_gray16(v))),
                ColorFormatName::RGBf => Some(Color::RGBf(RgbF::spec_from_gray16(v))),
                ColorFormatName::RGBAf => Some(Color::RGBAf(RgbaF::spec_from_gray16(v))),
                _ => None,
            },
            Color::Grayf(v) => match to {
                ColorFormatName::Gray8 => Some(Color::Gray8(Gray8::spec_from_grayf(v))),
                ColorFormatName::Gray16 => Some(Color::Gray16(Gray16::spec_from_grayf(v))),
                ColorFormatName::RGB => Some(Color::RGB(Rgb::spec_from_grayf(v))),
                ColorFormatName::SRGB => Some(Color::SRGB(Srgb::from_grayf(v, kernel))),
                ColorFormatName::RGB48 => Some(Color::RGB48(Rgb48::spec_from_grayf(v))),
                ColorFormatName::RGBA => Some(Color::RGBA(Rgba::spec_from_grayf(v))),
                ColorFormatName::RGBA64 => Some(Color::RGBA64(Rgba64::spec_from_grayf(v))),
                ColorFormatName::RGBf => Some(Color::RGBf(RgbF::spec_from_grayf(v))),
                ColorFormatName::SRGBf => Some(Color::SRGBf(SrgbF::from_grayf(v, kernel))),
                ColorFormatName::RGBAf => Some(Color::RGBAf(RgbaF::spec_from_grayf(v))),
                _ => None,
            },
            Color::RGB(v) => match to {
                ColorFormatName::Gray8 => Some(Color::Gray8(Gray8::spec_from_rgb(v))),
                ColorFormatName::Gray16 => Some(Color::Gray16(Gray16::spec_from_rgb(v))),
                ColorFormatName::Grayf => Some(Color::Grayf(GrayF::spec_from_rgb(v))),
                ColorFormatName::SRGB => Some(Color::SRGB(Srgb::spec_from_rgb(v))),
                ColorFormatName::RGB48 => Some(Color::RGB48(Rgb48::spec_from_rgb(v))),
                ColorFormatName::RGBA => Some(Color::RGBA(Rgba::spec_from_rgb(v))),
                ColorFormatName::RGBA64 => Some(Color::RGBA64(Rgba64::spec_from_rgb(v))),
                ColorFormatName::RGBf => Some(Color::RGBf(RgbF::spec_from_rgb(v))),
                ColorFormatName::SRGBf => Some(Color::SRGBf(SrgbF::from_rgb(v, kernel))),
                ColorFormatName::RGBAf => Some(Color::RGBAf(RgbaF::spec_from_rgb(v))),
                ColorFormatName::HSV => Some(Color::HSV(Hsv::spec_from_rgb(v))),
                ColorFormatName::HSL => Some(Color::HSL(Hsl::spec_from_rgb(v))),
                ColorFormatName::CIEXYZ => Some(Color::CIEXYZ(CieXyz::spec_from_rgb(v))),
                _ => None,
            },
            Color::SRGB(v) => match to {
                ColorFormatName::Grayf => Some(Color::Grayf(GrayF::from_srgb(v, kernel))),
                ColorFormatName::RGB => Some(Color::RGB(Rgb::spec_from_srgb(v))),
                ColorFormatName::RGBf => Some(Color::RGBf(RgbF::from_srgb(v, kernel))),
                ColorFormatName::SRGBf => Some(Color::SRGBf(SrgbF::spec_from_srgb(v))),
                ColorFormatName::HSV => Some(Color::HSV(Hsv::from_srgb(v, kernel))),
                ColorFormatName::HSL => Some(Color::HSL(Hsl::from_srgb(v, kernel))),
                ColorFormatName::CIEXYZ => Some(Color::CIEXYZ(CieXyz::from_srgb(v, kernel))),
                _ => None,
            },
            Color::RGB48(v) => match to {
                ColorFormatName::Gray16 => Some(Color::Gray16(Gray16::spec_from_rgb48(v))),
                ColorFormatName::Grayf => Some(Color::Grayf(GrayF::spec_from_rgb48(v))),
                ColorFormatName::RGB => Some(Color::RGB(Rgb::spec_from_rgb48(v))),
                ColorFormatName::RGBA64 => Some(Color::RGBA64(Rgba64::spec_from_rgb48(v))),
                ColorFormatName::RGBf => Some(Color::RGBf(RgbF::spec_from_rgb48(v))),
                _ => None,
            },
            Color::RGBA(v) => match to {
                ColorFormatName::Gray8 => Some(Color::Gray8(Gray8::spec_from_rgba(v))),
                ColorFormatName::Gray16 => Some(Color::Gray16(Gray16::spec_from_rgba(v))),
                ColorFormatName::Grayf => Some(Color::Grayf(GrayF::spec_from_rgba(v))),
                ColorFormatName::RGB => Some(Color::RGB(Rgb::spec_from_rgba(v))),
                ColorFormatName::RGBA64 => Some(Color::RGBA64(Rgba64::spec_from_rgba(v))),
                ColorFormatName::RGBf => Some(Color::RGBf(RgbF::spec_from_rgba(v))),
                ColorFormatName::RGBAf => Some(Color::RGBAf(RgbaF::spec_from_rgba(v))),
                _ => None,
            },
            Color::RGBA64(v) => match to {
                ColorFormatName::Gray16 => Some(Color::Gray16(Gray16::spec_from_rgba64(v))),
                ColorFormatName::Grayf => Some(Color::Grayf(GrayF::spec_from_rgba64(v))),
                ColorFormatName::RGB48 => Some(Color::RGB48(Rgb48::spec_from_rgba64(v))),
                ColorFormatName::RGBA => Some(Color::RGBA(Rgba::spec_from_rgba64(v))),
                ColorFormatName::RGBf => Some(Color::RGBf(RgbF::spec_from_rgba64(v))),
                ColorFormatName::RGBAf => Some(Color::RGBAf(RgbaF::spec_from_rgba64(v))),
                _ => None,
            },
            Color::RGBf(v) => match to {
                ColorFormatName::Gray8 => Some(Color::Gray8(Gray8::spec_from_rgbf(v))),
                ColorFormatName::Gray16 => Some(Color::Gray16(Gray16::spec_from_rgbf(v))),
                ColorFormatName::Grayf => Some(Color::Grayf(GrayF::spec_from_rgbf(v))),
                ColorFormatName::RGB => Some(Color::RGB(Rgb::spec_from_rgbf(v))),
                ColorFormatName::SRGB => Some(Color::SRGB(Srgb::from_rgbf(v, kernel))),
                ColorFormatName::RGB48 => Some(Color::RGB48(Rgb48::spec_from_rgbf(v))),
                ColorFormatName::RGBA => Some(Color::RGBA(Rgba::spec_from_rgbf(v))),
                ColorFormatName::RGBA64 => Some(Color::RGBA64(Rgba64::spec_from_rgbf(v))),
                ColorFormatName::SRGBf => Some(Color::SRGBf(SrgbF::from_rgbf(v, kernel))),
                ColorFormatName::RGBAf => Some(Color::RGBAf(RgbaF::spec_from_rgbf(v))),
                ColorFormatName::HSV => Some(Color::HSV(Hsv::spec_from_rgbf(v))),
                ColorFormatName::HSL => Some(Color::HSL(Hsl::spec_from_rgbf(v))),
                ColorFormatName::CIEXYZ => Some(Color::CIEXYZ(CieXyz::spec_from_rgbf(v))),
                _ => None,
            },
            Color::SRGBf(v) => match to {
                ColorFormatName::Grayf => Some(Color::Grayf(GrayF::from_srgbf(v, kernel))),
                ColorFormatName::RGB => Some(Color::RGB(Rgb::from_srgbf(v, kernel))),
                ColorFormatName::SRGB => Some(Color::SRGB(Srgb::spec_from_srgbf(v))),
                ColorFormatName::RGBf => Some(Color::RGBf(RgbF::from_srgbf(v, kernel))),
                ColorFormatName::HSV => Some(Color::HSV(Hsv::from_srgbf(v, kernel))),
                ColorFormatName::HSL => Some(Color::HSL(Hsl::from_srgbf(v, kernel))),
                ColorFormatName::CIEXYZ => Some(Color::CIEXYZ(CieXyz::from_srgbf(v, kernel))),
                _ => None,
            },
            Color::RGBAf(v) => match to {
                ColorFormatName::Gray8 => Some(Color::Gray8(Gray8::spec_from_rgbaf(v))),
                ColorFormatName::Gray16 => Some(Color::Gray16(Gray16::spec_from_rgbaf(v))),
                ColorFormatName::Grayf => Some(Color::Grayf(GrayF::spec_from_rgbaf(v))),
                ColorFormatName::RGB => Some(Color::RGB(Rgb::spec_from_rgbaf(v))),
                ColorFormatName::SRGB => Some(Color::SRGB(Srgb::from_rgbaf(v, kernel))),
                ColorFormatName::RGB48 => Some(Color::RGB48(Rgb48::spec_from_rgbaf(v))),
                ColorFormatName::RGBA => Some(Color::RGBA(Rgba::spec_from_rgbaf(v))),
                ColorFormatName::RGBA64 => Some(Color::RGBA64(Rgba64::spec_from_rgbaf(v))),
                ColorFormatName::RGBf => Some(Color::RGBf(RgbF::spec_from_rgbaf(v))),
                ColorFormatName::SRGBf => Some(Color::SRGBf(SrgbF::from_rgbaf(v, kernel))),
                ColorFormatName::HSV => Some(Color::HSV(Hsv::spec_from_rgbaf(v))),
                ColorFormatName::HSL => Some(Color::HSL(Hsl::spec_from_rgbaf(v))),
                ColorFormatName::CIEXYZ => Some(Color::CIEXYZ(CieXyz::spec_from_rgbaf(v))),
                _ => None,
            },
            Color::HSV(v) => match to {
                ColorFormatName::RGB => Some(Color::RGB(Rgb::spec_from_hsv(v))),
                ColorFormatName::SRGB => Some(Color::SRGB(Srgb::from_hsv(v, kernel))),
                ColorFormatName::RGBf => Some(Color::RGBf(RgbF::spec_from_hsv(v))),
                ColorFormatName::SRGBf => Some(Color::SRGBf(SrgbF::from_hsv(v, kernel))),
                ColorFormatName::HSL => Some(Color::HSL(Hsl::spec_from_hsv(v))),
                _ => None,
            },
            Color::HSL(v) => match to {
                ColorFormatName::RGB => Some(Color::RGB(Rgb::spec_from_hsl(v))),
                ColorFormatName::SRGB => Some(Color::SRGB(Srgb::from_hsl(v, kernel))),
                ColorFormatName::RGBf => Some(Color::RGBf(RgbF::spec_from_hsl(v))),
                ColorFormatName::SRGBf => Some(Color::SRGBf(SrgbF::from_hsl(v, kernel))),
                ColorFormatName::HSV => Some(Color::HSV(Hsv::spec_from_hsl(v))),
                _ => None,
            },
            Color::CIEXYZ(v) => match to {
                ColorFormatName::Grayf => Some(Color::Grayf(GrayF::spec_from_cie_xyz(v))),
                ColorFormatName::RGB => Some(Color::RGB(Rgb::spec_from_cie_xyz(v))),
                ColorFormatName::SRGB => Some(Color::SRGB(Srgb::from_cie_xyz(v, kernel))),
                ColorFormatName::RGBf => Some(Color::RGBf(RgbF::spec_from_cie_xyz(v))),
                ColorFormatName::SRGBf => Some(Color::SRGBf(SrgbF::from_cie_xyz(v, kernel))),
                ColorFormatName::CIELab => Some(Color::CIELab(CieLab::from_cie_xyz(v, kernel))),
                _ => None,
            },
            Color::CIELab(v) => match to {
                ColorFormatName::Grayf => Some(Color::Grayf(GrayF::spec_from_cie_lab(v))),
                ColorFormatName::CIEXYZ => Some(Color::CIEXYZ(CieXyz::spec_from_cie_lab(v))),
                _ => None,
            },
        }
    }

    /// What converting to `to` gives: the value itself where it has the
    /// format already, and otherwise what converting on gives from the
    /// result of the next pairwise conversion on the way.
    pub open spec fn spec_convert<K: Fn(MathCall) -> Float32>(
        from: Color,
        to: ColorFormatName,
        kernel: &K,
    ) -> Color
        decreases spec_hops(from.format(), to),
    {
        if from.format() == to {
            from
        } else {
            let next = spec_next_hop(from.format(), to);
            match from.spec_convert_direct(next, kernel) {
                Some(mid) => if mid.format() == next && spec_hops(next, to) < spec_hops(
                    from.format(),
                    to,
                ) {
                    Color::spec_convert(mid, to, kernel)
                } else {
                    mid
                },
                None => from,
            }
        }
    }

    /// Every pair with a pairwise conversion is converted, to a value of
    /// the format asked for.
    pub proof fn lemma_convert_direct<K: Fn(MathCall) -> Float32>(
        self,
        to: ColorFormatName,
        kernel: &K,
    )
        ensures
            self.spec_convert_direct(to, kernel) is Some <==> spec_is_direct(self.format(), to),
            self.spec_convert_direct(to, kernel) matches Some(c) ==> c.format() == to,
    {
    }

    /// The pairwise conversion to `to`; nothing for a pair without one.
    pub fn convert_direct<K: Fn(MathCall) -> Float32>(
        self,
        to: ColorFormatName,
        kernel: &K,
    ) -> (r: Option<Color>)
        requires
            is_function(*kernel),
        ensures
            r == self.spec_convert_direct(to, kernel),
            r is Some <==> spec_is_direct(self.format(), to),
            r matches Some(c) ==> c.format() == to && c.wf(),
    {
        match self {
            Color::Gray8(v) => match to {
                ColorFormatName::Gray16 => Some(Color::Gray16(Gray16::from(v))),
                ColorFormatName::Grayf => Some(Color::Grayf(GrayF::from(v))),
                ColorFormatName::RGB => Some(Color::RGB(Rgb::from(v))),
                ColorFormatName::RGBA => Some(Color::RGBA(Rgba::from(v))),
                _ => None,
            },
            Color::Gray16(v) => match to {
                ColorFormatName::Gray8 => Some(Color::Gray8(Gray8::from(v))),
                ColorFormatName::Grayf => Some(Color::Grayf(GrayF::from(v))),
                ColorFormatName::RGB => Some(Color::RGB(Rgb::from(v))),
                ColorFormatName::RGB48 => Some(Color::RGB48(Rgb48::from(v))),
                ColorFormatName::RGBA64 => Some(Color::RGBA64(Rgba64::from(v))),
                ColorFormatName::RGBf => Some(Color::RGBf(RgbF::from(v))),
                ColorFormatName::RGBAf => Some(Color::RGBAf(RgbaF::from(v))),
                _ => None,
            },
            Color::Grayf(v) => match to {
                ColorFormatName::Gray8 => Some(Color::Gray8(Gray8::from(v))),
                ColorFormatName::Gray16 => Some(Color::Gray16(Gray16::from(v))),
                ColorFormatName::RGB => Some(Color::RGB(Rgb::from(v))),
                ColorFormatName::SRGB => Some(Color::SRGB(Srgb::from_grayf(v, kernel))),
                ColorFormatName::RGB48 => Some(Color::RGB48(Rgb48::from(v))),
                ColorFormatName::RGBA => Some(Color::RGBA(Rgba::from(v))),
                ColorFormatName::RGBA64 => Some(Color::RGBA64(Rgba64::from(v))),
                ColorFormatName::RGBf => Some(Color::RGBf(RgbF::from(v))),
                ColorFormatName::SRGBf => Some(Color::SRGBf(SrgbF::from_grayf(v, kernel))),
                ColorFormatName::RGBAf => Some(Color::RGBAf(RgbaF::from(v))),
                _ => None,
            },
            Color::RGB(v) => match to {
                ColorFormatName::Gray8 => Some(Color::Gray8(Gray8::from(v))),
                ColorFormatName::Gray16 => Some(Color::Gray16(Gray16::from(v))),
                ColorFormatName::Grayf => Some(Color::Grayf(GrayF::from(v))),
                ColorFormatName::SRGB => Some(Color::SRGB(Srgb::from(v))),
                ColorFormatName::RGB48 => Some(Color::RGB48(Rgb48::from(v))),
                ColorFormatName::RGBA => Some(Color::RGBA(Rgba::from(v))),
                ColorFormatName::RGBA64 => Some(Color::RGBA64(Rgba64::from(v))),
                ColorFormatName::RGBf => Some(Color::RGBf(RgbF::from(v))),
                ColorFormatName::SRGBf => Some(Color::SRGBf(SrgbF::from_rgb(v, kernel))),
                ColorFormatName::RGBAf => Some(Color::RGBAf(RgbaF::from(v))),
                ColorFormatName::HSV => Some(Color::HSV(Hsv::from(v))),
                ColorFormatName::HSL => Some(Color::HSL(Hsl::from(v))),
                ColorFormatName::CIEXYZ => Some(Color::CIEXYZ(CieXyz::from(v))),
                _ => None,
            },
            Color::SRGB(v) => match to {
                ColorFormatName::Grayf => Some(Color::Grayf(GrayF::from_srgb(v, kernel))),
                ColorFormatName::RGB => Some(Color::RGB(Rgb::from(v))),
                ColorFormatName::RGBf => Some(Color::RGBf(RgbF::from_srgb(v, kernel))),
                ColorFormatName::SRGBf => Some(Color::SRGBf(SrgbF::from(v))),
                ColorFormatName::HSV => Some(Color::HSV(Hsv::from_srgb(v, kernel))),
                ColorFormatName::HSL => Some(Color::HSL(Hsl::from_srgb(v, kernel))),
                ColorFormatName::CIEXYZ => Some(Color::CIEXYZ(CieXyz::from_srgb(v, kernel))),
                _ => None,
            },
            Color::RGB48(v) => match to {
                ColorFormatName::Gray16 => Some(Color::Gray16(Gray16::from(v))),
                ColorFormatName::Grayf => Some(Color::Grayf(GrayF::from(v))),
                ColorFormatName::RGB => Some(Color::RGB(Rgb::from(v))),
                ColorFormatName::RGBA64 => Some(Color::RGBA64(Rgba64::from(v))),
                ColorFormatName::RGBf => Some(Color::RGBf(RgbF::from(v))),
                _ => None,
            },
            Color::RGBA(v) => match to {
                ColorFormatName::Gray8 => Some(Color::Gray8(Gray8::from(v))),
                ColorFormatName::Gray16 => Some(Color::Gray16(Gray16::from(v))),
                ColorFormatName::Grayf => Some(Color::Grayf(GrayF::from(v))),
                ColorFormatName::RGB => Some(Color::RGB(Rgb::from(v))),
                ColorFormatName::RGBA64 => Some(Color::RGBA64(Rgba64::from(v))),
                ColorFormatName::RGBf => Some(Color::RGBf(RgbF::from(v))),
                ColorFormatName::RGBAf => Some(Color::RGBAf(RgbaF::from(v))),
                _ => None,
            },
            Color::RGBA64(v) => match to {
                ColorFormatName::Gray16 => Some(Color::Gray16(Gray16::from(v))),
                ColorFormatName::Grayf => Some(Color::Grayf(GrayF::from(v))),
                ColorFormatName::RGB48 => Some(Color::RGB48(Rgb48::from(v))),
                ColorFormatName::RGBA => Some(Color::RGBA(Rgba::from(v))),
                ColorFormatName::RGBf => Some(Color::RGBf(RgbF::from(v))),
                ColorFormatName::RGBAf => Some(Color::RGBAf(RgbaF::from(v))),
                _ => None,
            },
            Color::RGBf(v) => match to {
                ColorFormatName::Gray8 => Some(Color::Gray8(Gray8::from(v))),
                ColorFormatName::Gray16 => Some(Color::Gray16(Gray16::from(v))),
                ColorFormatName::Grayf => Some(Color::Grayf(GrayF::from(v))),
                ColorFormatName::RGB => Some(Color::RGB(Rgb::from(v))),
                ColorFormatName::SRGB => Some(Color::SRGB(Srgb::from_rgbf(v, kernel))),
                ColorFormatName::RGB48 => Some(Color::RGB48(Rgb48::from(v))),
                ColorFormatName::RGBA => Some(Color::RGBA(Rgba::from(v))),
                ColorFormatName::RGBA64 => Some(Color::RGBA64(Rgba64::from(v))),
                ColorFormatName::SRGBf => Some(Color::SRGBf(SrgbF::from_rgbf(v, kernel))),
                ColorFormatName::RGBAf => Some(Color::RGBAf(RgbaF::from(v))),
                ColorFormatName::HSV => Some(Color::HSV(Hsv::from(v))),
                ColorFormatName::HSL => Some(Color::HSL(Hsl::from(v))),
                ColorFormatName::CIEXYZ => Some(Color::CIEXYZ(CieXyz::from(v))),
                _ => None,
            },
            Color::SRGBf(v) => match to {
                ColorFormatName::Grayf => Some(Color::Grayf(GrayF::from_srgbf(v, kernel))),
                ColorFormatName::RGB => Some(Color::RGB(Rgb::from_srgbf(v, kernel))),
                ColorFormatName::SRGB => Some(Color::SRGB(Srgb::from(v))),
                ColorFormatName::RGBf => Some(Color::RGBf(RgbF::from_srgbf(v, kernel))),
                ColorFormatName::HSV => Some(Color::HSV(Hsv::from_srgbf(v, kernel))),
                ColorFormatName::HSL => Some(Color::HSL(Hsl::from_srgbf(v, kernel))),
                ColorFormatName::CIEXYZ => Some(Color::CIEXYZ(CieXyz::from_srgbf(v, kernel))),
                _ => None,
            },
            Color::RGBAf(v) => match to {
                ColorFormatName::Gray8 => Some(Color::Gray8(Gray8::from(v))),
                ColorFormatName::Gray16 => Some(Color::Gray16(Gray16::from(v))),
                ColorFormatName::Grayf => Some(Color::Grayf(GrayF::from(v))),
                ColorFormatName::RGB => Some(Color::RGB(Rgb::from(v))),
                ColorFormatName::SRGB => Some(Color::SRGB(Srgb::from_rgbaf(v, kernel))),
                ColorFormatName::RGB48 => Some(Color::RGB48(Rgb48::from(v))),
                ColorFormatName::RGBA => Some(Color::RGBA(Rgba::from(v))),
                ColorFormatName::RGBA64 => Some(Color::RGBA64(Rgba64::from(v))),
                ColorFormatName::RGBf => Some(Color::RGBf(RgbF::from(v))),
                ColorFormatName::SRGBf => Some(Color::SRGBf(SrgbF::from_rgbaf(v, kernel))),
                ColorFormatName::HSV => Some(Color::HSV(Hsv::from(v))),
                ColorFormatName::HSL => Some(Color::HSL(Hsl::from(v))),
                ColorFormatName::CIEXYZ => Some(Color::CIEXYZ(CieXyz::from(v))),
                _ => None,
            },
            Color::HSV(v) => match to {
                ColorFormatName::RGB => Some(Color::RGB(Rgb::from(v))),
                ColorFormatName::SRGB => Some(Color::SRGB(Srgb::from_hsv(v, kernel))),
                ColorFormatName::RGBf => Some(Color::RGBf(RgbF::from(v))),
                ColorFormatName::SRGBf => Some(Color::SRGBf(SrgbF::from_hsv(v, kernel))),
                ColorFormatName::HSL => Some(Color::HSL(Hsl::from(v))),
                _ => None,
            },
            Color::HSL(v) => match to {
                ColorFormatName::RGB => Some(Color::RGB(Rgb::from(v))),
                ColorFormatName::SRGB => Some(Color::SRGB(Srgb::from_hsl(v, kernel))),
                ColorFormatName::RGBf => Some(Color::RGBf(RgbF::from(v))),
                ColorFormatName::SRGBf => Some(Color::SRGBf(SrgbF::from_hsl(v, kernel))),
                ColorFormatName::HSV => Some(Color::HSV(Hsv::from(v))),
                _ => None,
            },
            Color::CIEXYZ(v) => match to {
                ColorFormatName::Grayf => Some(Color::Grayf(GrayF::from(v))),
                ColorFormatName::RGB => Some(Color::RGB(Rgb::from(v))),
                ColorFormatName::SRGB => Some(Color::SRGB(Srgb::from_cie_xyz(v, kernel))),
                ColorFormatName::RGBf => Some(Color::RGBf(RgbF::from(v))),
                ColorFormatName::SRGBf => Some(Color::SRGBf(SrgbF::from_cie_xyz(v, kernel))),
                ColorFormatName::CIELab => Some(Color::CIELab(CieLab::from_cie_xyz(v, kernel))),
                _ => None,
            },
            Color::CIELab(v) => match to {
                ColorFormatName::Grayf => Some(Color::Grayf(GrayF::from(v))),
                ColorFormatName::CIEXYZ => Some(Color::CIEXYZ(CieXyz::from(v))),
                _ => None,
            },
        }
    }

    /// Converts `from` to the format `to`. Conversion never fails.
    ///
    /// The value goes from format to format along the conversion graph, by
    /// at most three pairwise conversions, until it has the format asked
    /// for; a value that has it already is given back as it is. The kernel
    /// is asked for powers and cube roots.
    pub fn convert<K: Fn(MathCall) -> Float32>(from: Color, to: ColorFormatName, kernel: K) -> (out:
        Color)
        requires
            is_function(kernel),
        ensures
            out == Color::spec_convert(from, to, &kernel),
            out.format() == to,
            from.format() == to ==> out == from,
            from.wf() ==> out.wf(),
    {
        let mut conversion = from;
        loop
            invariant
                is_function(kernel),
                Color::spec_convert(conversion, to, &kernel) == Color::spec_convert(
                    from,
                    to,
                    &kernel,
                ),
                conversion == from || from.format() != to,
                from.wf() ==> conversion.wf(),
            ensures
                from.wf() ==> conversion.wf(),
                conversion.format() == to,
                conversion == Color::spec_convert(from, to, &kernel),
                from.format() == to ==> conversion == from,
            decreases spec_hops(conversion.format(), to),
        {
            let current = conversion.get_format();
            if current == to {
                break ;
            }
            let next = next_hop(current, to);
            proof {
                lemma_next_hop(current, to);
                conversion.lemma_convert_direct(next, &kernel);
            }
            match conversion.convert_direct(next, &kernel) {
                Some(mid) => {
                    conversion = mid;
                },
                None => {
                    break ;
                },
            }
        }
        conversion
    }
}

/// Converting a value to the format that it has gives the value itself,
/// whatever the kernel.
pub proof fn lemma_convert_to_own_format<K: Fn(MathCall) -> Float32>(c: Color, kernel: &K)
    ensures
        Color::spec_convert(c, c.format(), kernel) == c,
{
}

/// Among the whole-number formats, a detour through a format that is at
/// least as fine gives what the pairwise conversion gives.
pub proof fn lemma_whole_number_detours_agree(rgb: Rgb, g8: Gray8)
    ensures
        Rgb48::spec_from_rgba64(Rgba64::spec_from_rgb(rgb)) == Rgb48::spec_from_rgb(rgb),
        Rgba64::spec_from_rgba(Rgba::spec_from_rgb(rgb)) == Rgba64::spec_from_rgb(rgb),
        Rgba64::spec_from_rgb48(Rgb48::spec_from_rgb(rgb)) == Rgba64::spec_from_rgb(rgb),
        Gray16::spec_from_rgb48(Rgb48::spec_from_rgb(rgb)) == Gray16::spec_from_rgb(rgb),
        Gray8::spec_from_gray16(Gray16::spec_from_rgb(rgb)) == Gray8::spec_from_rgb(rgb),
        Gray8::spec_from_rgba(Rgba::spec_from_rgb(rgb)) == Gray8::spec_from_rgb(rgb),
        Rgb::spec_from_rgb48(Rgb48::spec_from_rgb(rgb)) == rgb,
        Rgb::spec_from_rgba(Rgba::spec_from_rgb(rgb)) == rgb,
        Rgba::spec_from_rgb(Rgb::spec_from_gray8(g8)) == Rgba::spec_from_gray8(g8),
        Rgb::spec_from_gray16(Gray16::spec_from_gray8(g8)) == Rgb::spec_from_gray8(g8),
        Gray16::spec_from_rgb(Rgb::spec_from_gray8(g8)) == Gray16::spec_from_gray8(g8),
        Gray8::spec_from_rgb(Rgb::spec_from_gray8(g8)) == g8,
        Gray8::spec_from_gray16(Gray16::spec_from_gray8(g8)) == g8,
{
    let sum = 2126 * rgb.r + 7152 * rgb.g + 722 * rgb.b;
    assert(2126 * (rgb.r * 257) + 7152 * (rgb.g * 257) + 722 * (rgb.b * 257) == sum * 257);
    assert(((sum * 257) / 10000) / 257 == sum / 10000) by {
        vstd::arithmetic::div_mod::lemma_div_denominator(sum * 257, 10000, 257);
        vstd::arithmetic::div_mod::lemma_div_denominator(sum * 257, 257, 10000);
    }
    lemma_gray_of_gray(g8.luminance as int);
}

/// Converting gives a value of the format asked for, whatever the kernel.
pub proof fn lemma_convert_reaches<K: Fn(MathCall) -> Float32>(
    from: Color,
    to: ColorFormatName,
    kernel: &K,
)
    ensures
        Color::spec_convert(from, to, kernel).format() == to,
    decreases spec_hops(from.format(), to),
{
    if from.format() != to {
        let next = spec_next_hop(from.format(), to);
        lemma_next_hop(from.format(), to);
        from.lemma_convert_direct(next, kernel);
        lemma_convert_reaches(from.spec_convert_direct(next, kernel).unwrap(), to, kernel);
    }
}

} // verus!
