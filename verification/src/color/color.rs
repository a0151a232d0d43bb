//! A color value of any format.

use crate::byte_order::ByteOrder;
use crate::color::cie::{CieLab, CieXyz};
use crate::color::format::{
    accepts_len, decode_outcome, length_error, spec_bytes_per_pixel, ColorFormat,
    ColorFormatName, DecodeError,
};
use crate::color::grayscale::{Gray16, Gray8, GrayF};
use crate::color::hsv_hsl::{Hsl, Hsv};
use crate::color::rgb::{Rgb, Rgb48, RgbF, Rgba, Rgba64, RgbaF, Srgb, SrgbF};
use vstd::prelude::*;

verus! {

/// A color value of one of the fifteen formats; the variant is its tag.
#[derive(Copy, Clone, Debug, PartialEq, Eq, Structural)]
pub enum Color {
    Gray8(Gray8),
    Gray16(Gray16),
    Grayf(GrayF),
    RGB(Rgb),
    SRGB(Srgb),
    RGB48(Rgb48),
    RGBA(Rgba),
    RGBA64(Rgba64),
    RGBf(RgbF),
    SRGBf(SrgbF),
    RGBAf(RgbaF),
    HSV(Hsv),
    HSL(Hsl),
    CIEXYZ(CieXyz),
    CIELab(CieLab),
}

impl Default for Color {
    /// Black, as linear 8-bit RGB.
    fn default() -> (c: Color)
        ensures
            c == Color::RGB(Rgb { r: 0, g: 0, b: 0 }),
    {
        Color::RGB(Rgb { r: 0, g: 0, b: 0 })
    }
}

impl Color {
    /// The tag of the value, which is the format name of what it holds.
    pub open spec fn format(&self) -> ColorFormatName {
        match *self {
            Color::Gray8(_) => Gray8::name(),
            Color::Gray16(_) => Gray16::name(),
            Color::Grayf(_) => GrayF::name(),
            Color::RGB(_) => Rgb::name(),
            Color::SRGB(_) => Srgb::name(),
            Color::RGB48(_) => Rgb48::name(),
            Color::RGBA(_) => Rgba::name(),
            Color::RGBA64(_) => Rgba64::name(),
            Color::RGBf(_) => RgbF::name(),
            Color::SRGBf(_) => SrgbF::name(),
            Color::RGBAf(_) => RgbaF::name(),
            Color::HSV(_) => Hsv::name(),
            Color::HSL(_) => Hsl::name(),
            Color::CIEXYZ(_) => CieXyz::name(),
            Color::CIELab(_) => CieLab::name(),
        }
    }

    /// The value held is one that its format's constructors make.
    pub open spec fn wf(&self) -> bool {
        match *self {
            Color::Gray8(c) => c.wf(),
            Color::Gray16(c) => c.wf(),
            Color::Grayf(c) => c.wf(),
            Color::RGB(c) => c.wf(),
            Color::SRGB(c) => c.wf(),
            Color::RGB48(c) => c.wf(),
            Color::RGBA(c) => c.wf(),
            Color::RGBA64(c) => c.wf(),
            Color::RGBf(c) => c.wf(),
            Color::SRGBf(c) => c.wf(),
            Color::RGBAf(c) => c.wf(),
            Color::HSV(c) => c.wf(),
            Color::HSL(c) => c.wf(),
            Color::CIEXYZ(c) => c.wf(),
            Color::CIELab(c) => c.wf(),
        }
    }

    /// The bytes of the value held, in the given byte order.
    pub open spec fn encoding(&self, order: ByteOrder) -> Seq<u8> {
        match *self {
            Color::Gray8(c) => c.encoding(order),
            Color::Gray16(c) => c.encoding(order),
            Color::Grayf(c) => c.encoding(order),
            Color::RGB(c) => c.encoding(order),
            Color::SRGB(c) => c.encoding(order),
            Color::RGB48(c) => c.encoding(order),
            Color::RGBA(c) => c.encoding(order),
            Color::RGBA64(c) => c.encoding(order),
            Color::RGBf(c) => c.encoding(order),
            Color::SRGBf(c) => c.encoding(order),
            Color::RGBAf(c) => c.encoding(order),
            Color::HSV(c) => c.encoding(order),
            Color::HSL(c) => c.encoding(order),
            Color::CIEXYZ(c) => c.encoding(order),
            Color::CIELab(c) => c.encoding(order),
        }
    }

    /// The value of the format `fmt` laid out in `bytes`, whose length is one
    /// that the format has.
    pub open spec fn decoding(fmt: ColorFormatName, bytes: Seq<u8>, order: ByteOrder) -> Color {
        match fmt {
            ColorFormatName::Gray8 => Color::Gray8(Gray8::decoding(bytes, order)),
            ColorFormatName::Gray16 => Color::Gray16(Gray16::decoding(bytes, order)),
            ColorFormatName::Grayf => Color::Grayf(GrayF::decoding(bytes, order)),
            ColorFormatName::RGB => Color::RGB(Rgb::decoding(bytes, order)),
            ColorFormatName::SRGB => Color::SRGB(Srgb::decoding(bytes, order)),
            ColorFormatName::RGB48 => Color::RGB48(Rgb48::decoding(bytes, order)),
            ColorFormatName::RGBA => Color::RGBA(Rgba::decoding(bytes, order)),
            ColorFormatName::RGBA64 => Color::RGBA64(Rgba64::decoding(bytes, order)),
            ColorFormatName::RGBf => Color::RGBf(RgbF::decoding(bytes, order)),
            ColorFormatName::SRGBf => Color::SRGBf(SrgbF::decoding(bytes, order)),
            ColorFormatName::RGBAf => Color::RGBAf(RgbaF::decoding(bytes, order)),
            ColorFormatName::HSV => Color::HSV(Hsv::decoding(bytes, order)),
            ColorFormatName::HSL => Color::HSL(Hsl::decoding(bytes, order)),
            ColorFormatName::CIEXYZ => Color::CIEXYZ(CieXyz::decoding(bytes, order)),
            ColorFormatName::CIELab => Color::CIELab(CieLab::decoding(bytes, order)),
        }
    }

    /// The tag of the value.
    pub fn get_format(&self) -> (format: ColorFormatName)
        ensures
            format == self.format(),
    {
        match *self {
            Color::Gray8(_) => Gray8::format_name(),
            Color::Gray16(_) => Gray16::format_name(),
            Color::Grayf(_) => GrayF::format_name(),
            Color::RGB(_) => Rgb::format_name(),
            Color::SRGB(_) => Srgb::format_name(),
            Color::RGB48(_) => Rgb48::format_name(),
            Color::RGBA(_) => Rgba::format_name(),
            Color::RGBA64(_) => Rgba64::format_name(),
            Color::RGBf(_) => RgbF::format_name(),
            Color::SRGBf(_) => SrgbF::format_name(),
            Color::RGBAf(_) => RgbaF::format_name(),
            Color::HSV(_) => Hsv::format_name(),
            Color::HSL(_) => Hsl::format_name(),
            Color::CIEXYZ(_) => CieXyz::format_name(),
            Color::CIELab(_) => CieLab::format_name(),
        }
    }

    /// The byte footprint of the value's format, without a reference white.
    pub fn get_bytes_per_pixel(&self) -> (n: usize)
        ensures
            n == spec_bytes_per_pixel(self.format()),
    {
        match *self {
            Color::Gray8(_) => Gray8::bytes_per_pixel(),
            Color::Gray16(_) => Gray16::bytes_per_pixel(),
            Color::Grayf(_) => GrayF::bytes_per_pixel(),
            Color::RGB(_) => Rgb::bytes_per_pixel(),
            Color::SRGB(_) => Srgb::bytes_per_pixel(),
            Color::RGB48(_) => Rgb48::bytes_per_pixel(),
            Color::RGBA(_) => Rgba::bytes_per_pixel(),
            Color::RGBA64(_) => Rgba64::bytes_per_pixel(),
            Color::RGBf(_) => RgbF::bytes_per_pixel(),
            Color::SRGBf(_) => SrgbF::bytes_per_pixel(),
            Color::RGBAf(_) => RgbaF::bytes_per_pixel(),
            Color::HSV(_) => Hsv::bytes_per_pixel(),
            Color::HSL(_) => Hsl::bytes_per_pixel(),
            Color::CIEXYZ(_) => CieXyz::bytes_per_pixel(),
            Color::CIELab(_) => CieLab::bytes_per_pixel(),
        }
    }

    /// The bytes of the value held, in the given byte order.
    pub fn as_bytes_in(&self, order: ByteOrder) -> (bytes: Vec<u8>)
        ensures
            bytes@ == self.encoding(order),
    {
        match *self {
            Color::Gray8(c) => c.to_bytes_in(order),
            Color::Gray16(c) => c.to_bytes_in(order),
            Color::Grayf(c) => c.to_bytes_in(order),
            Color::RGB(c) => c.to_bytes_in(order),
            Color::SRGB(c) => c.to_bytes_in(order),
            Color::RGB48(c) => c.to_bytes_in(order),
            Color::RGBA(c) => c.to_bytes_in(order),
            Color::RGBA64(c) => c.to_bytes_in(order),
            Color::RGBf(c) => c.to_bytes_in(order),
            Color::SRGBf(c) => c.to_bytes_in(order),
            Color::RGBAf(c) => c.to_bytes_in(order),
            Color::HSV(c) => c.to_bytes_in(order),
            Color::HSL(c) => c.to_bytes_in(order),
            Color::CIEXYZ(c) => c.to_bytes_in(order),
            Color::CIELab(c) => c.to_bytes_in(order),
        }
    }

    /// The bytes of the value held, in the byte order of this machine.
    pub fn as_bytes(&self) -> (bytes: Vec<u8>)
        ensures
            bytes@ == self.encoding(ByteOrder::Little) || bytes@ == self.encoding(ByteOrder::Big),
    {
        self.as_bytes_in(ByteOrder::native())
    }

    /// The tag of the value with its bytes in the byte order of this machine.
    pub fn to_raw_parts(self) -> (parts: (ColorFormatName, Vec<u8>))
        ensures
            parts.0 == self.format(),
            parts.1@ == self.encoding(ByteOrder::Little) || parts.1@ == self.encoding(
                ByteOrder::Big,
            ),
    {
        (self.get_format(), self.as_bytes_in(ByteOrder::native()))
    }

    /// Decodes a value of the format `fmt` from bytes in the given byte
    /// order. Fails exactly when the length is none that the format has.
    pub fn from_raw_parts_in(fmt: ColorFormatName, data: &[u8], order: ByteOrder) -> (r: Result<
        Color,
        DecodeError,
    >)
        ensures
            r == decode_outcome(fmt, data@.len(), Color::decoding(fmt, data@, order)),
            r matches Ok(c) ==> c.format() == fmt && c.wf(),
    {
        proof {
            if accepts_len(fmt, data@.len()) {
                Color::lemma_decoding(fmt, data@, order);
            }
        }
        match fmt {
            ColorFormatName::Gray8 => match Gray8::from_bytes_in(data, order) {
                Ok(c) => Ok(Color::Gray8(c)),
                Err(e) => Err(e),
            },
            ColorFormatName::Gray16 => match Gray16::from_bytes_in(data, order) {
                Ok(c) => Ok(Color::Gray16(c)),
                Err(e) => Err(e),
            },
            ColorFormatName::Grayf => match GrayF::from_bytes_in(data, order) {
                Ok(c) => Ok(Color::Grayf(c)),
                Err(e) => Err(e),
            },
            ColorFormatName::RGB => match Rgb::from_bytes_in(data, order) {
                Ok(c) => Ok(Color::RGB(c)),
                Err(e) => Err(e),
            },
            ColorFormatName::SRGB => match Srgb::from_bytes_in(data, order) {
                Ok(c) => Ok(Color::SRGB(c)),
                Err(e) => Err(e),
            },
            ColorFormatName::RGB48 => match Rgb48::from_bytes_in(data, order) {
                Ok(c) => Ok(Color::RGB48(c)),
                Err(e) => Err(e),
            },
            ColorFormatName::RGBA => match Rgba::from_bytes_in(data, order) {
                Ok(c) => Ok(Color::RGBA(c)),
                Err(e) => Err(e),
            },
            ColorFormatName::RGBA64 => match Rgba64::from_bytes_in(data, order) {
                Ok(c) => Ok(Color::RGBA64(c)),
                Err(e) => Err(e),
            },
            ColorFormatName::RGBf => match RgbF::from_bytes_in(data, order) {
                Ok(c) => Ok(Color::RGBf(c)),
                Err(e) => Err(e),
            },
            ColorFormatName::SRGBf => match SrgbF::from_bytes_in(data, order) {
                Ok(c) => Ok(Color::SRGBf(c)),
                Err(e) => Err(e),
            },
            ColorFormatName::RGBAf => match RgbaF::from_bytes_in(data, order) {
                Ok(c) => Ok(Color::RGBAf(c)),
                Err(e) => Err(e),
            },
            ColorFormatName::HSV => match Hsv::from_bytes_in(data, order) {
                Ok(c) => Ok(Color::HSV(c)),
                Err(e) => Err(e),
            },
            ColorFormatName::HSL => match Hsl::from_bytes_in(data, order) {
                Ok(c) => Ok(Color::HSL(c)),
                Err(e) => Err(e),
            },
            ColorFormatName::CIEXYZ => match CieXyz::from_bytes_in(data, order) {
                Ok(c) => Ok(Color::CIEXYZ(c)),
                Err(e) => Err(e),
            },
            ColorFormatName::CIELab => match CieLab::from_bytes_in(data, order) {
                Ok(c) => Ok(Color::CIELab(c)),
                Err(e) => Err(e),
            },
        }
    }

    /// Decodes a value of the format `fmt` from bytes in the byte order of
    /// this machine. Fails exactly when the length is none that the format
    /// has, with the error that decoding the format itself gives.
    pub fn from_raw_parts(fmt: ColorFormatName, data: Vec<u8>) -> (r: Result<Color, DecodeError>)
        ensures
            r == decode_outcome(fmt, data@.len(), Color::decoding(fmt, data@, ByteOrder::Little))
                || r == decode_outcome(
                fmt,
                data@.len(),
                Color::decoding(fmt, data@, ByteOrder::Big),
            ),
            r is Ok <==> accepts_len(fmt, data@.len()),
            r matches Err(e) ==> e == length_error(fmt, data@.len()),
            r matches Ok(c) ==> c.format() == fmt && c.wf(),
    {
        Color::from_raw_parts_in(fmt, data.as_slice(), ByteOrder::native())
    }

    /// What is decoded has the tag that was asked for, and is a value that
    /// the format's constructors make.
    pub proof fn lemma_decoding(fmt: ColorFormatName, bytes: Seq<u8>, order: ByteOrder)
        requires
            accepts_len(fmt, bytes.len()),
        ensures
            Color::decoding(fmt, bytes, order).format() == fmt,
            Color::decoding(fmt, bytes, order).wf(),
    {
        match fmt {
            ColorFormatName::Gray8 => Gray8::lemma_decoding_wf(bytes, order),
            ColorFormatName::Gray16 => Gray16::lemma_decoding_wf(bytes, order),
            ColorFormatName::Grayf => GrayF::lemma_decoding_wf(bytes, order),
            ColorFormatName::RGB => Rgb::lemma_decoding_wf(bytes, order),
            ColorFormatName::SRGB => Srgb::lemma_decoding_wf(bytes, order),
            ColorFormatName::RGB48 => Rgb48::lemma_decoding_wf(bytes, order),
            ColorFormatName::RGBA => Rgba::lemma_decoding_wf(bytes, order),
            ColorFormatName::RGBA64 => Rgba64::lemma_decoding_wf(bytes, order),
            ColorFormatName::RGBf => RgbF::lemma_decoding_wf(bytes, order),
            ColorFormatName::SRGBf => SrgbF::lemma_decoding_wf(bytes, order),
            ColorFormatName::RGBAf => RgbaF::lemma_decoding_wf(bytes, order),
            ColorFormatName::HSV => Hsv::lemma_decoding_wf(bytes, order),
            ColorFormatName::HSL => Hsl::lemma_decoding_wf(bytes, order),
            ColorFormatName::CIEXYZ => CieXyz::lemma_decoding_wf(bytes, order),
            ColorFormatName::CIELab => CieLab::lemma_decoding_wf(bytes, order),
        }
    }

    /// Decoding the raw parts of a value gives the value back, bit for bit.
    pub proof fn lemma_raw_parts_roundtrip(c: Color, order: ByteOrder)
        requires
            c.wf(),
        ensures
            accepts_len(c.format(), c.encoding(order).len()),
            Color::decoding(c.format(), c.encoding(order), order) == c,
    {
        match c {
            Color::Gray8(v) => Gray8::lemma_roundtrip(v, order),
            Color::Gray16(v) => Gray16::lemma_roundtrip(v, order),
            Color::Grayf(v) => GrayF::lemma_roundtrip(v, order),
            Color::RGB(v) => Rgb::lemma_roundtrip(v, order),
            Color::SRGB(v) => Srgb::lemma_roundtrip(v, order),
            Color::RGB48(v) => Rgb48::lemma_roundtrip(v, order),
            Color::RGBA(v) => Rgba::lemma_roundtrip(v, order),
            Color::RGBA64(v) => Rgba64::lemma_roundtrip(v, order),
            Color::RGBf(v) => RgbF::lemma_roundtrip(v, order),
            Color::SRGBf(v) => SrgbF::lemma_roundtrip(v, order),
            Color::RGBAf(v) => RgbaF::lemma_roundtrip(v, order),
            Color::HSV(v) => Hsv::lemma_roundtrip(v, order),
            Color::HSL(v) => Hsl::lemma_roundtrip(v, order),
            Color::CIEXYZ(v) => CieXyz::lemma_roundtrip(v, order),
            Color::CIELab(v) => CieLab::lemma_roundtrip(v, order),
        }
    }
}

} // verus!
