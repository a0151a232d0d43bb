//! RGB formats: linear and gamma-encoded, at three bit depths, with and
//! without alpha.

use crate::byte_order::{
    lemma_u16_roundtrip, lemma_u32_roundtrip, push_u16, push_u32, read_u16, read_u32, u16_bytes,
    u16_of_bytes, u32_bytes, u32_of_bytes, ByteOrder,
};
use crate::color::channel::{narrow, spec_narrow, spec_widen, widen};
use crate::color::format::{make_length_error, ColorFormat, ColorFormatName, DecodeError};
use crate::color::gamma::{
    spec_srgb_gamma_compress, spec_srgb_gamma_expand, srgb_gamma_compress, srgb_gamma_expand,
};
use crate::color::cie::CieXyz;
use crate::color::grayscale::{Gray16, Gray8, GrayF};
use crate::color::hsv_hsl::{Hsl, Hsv};
use crate::color::hue::{hsl_to_linear, hsv_to_linear};
use crate::color::kernel::{is_function, MathCall};
use crate::color::quantize::{
    channel_16, channel_8, clamped, clamped_encoded, gray_16, gray_encoded, rgb_8, srgb_8,
    unit_16, unit_8,
};
use crate::color::transfer::{compressed, expanded, gamma_compress};
use crate::float32::{Float32, ONE_BITS};
use vstd::std_specs::convert::FromSpecImpl;
use vstd::prelude::*;

verus! {

/// Linear light in three 8-bit channels.
#[derive(Copy, Clone, Default, Debug, PartialEq, Eq, Structural)]
pub struct Rgb {
    pub r: u8,
    pub g: u8,
    pub b: u8,
}

impl Rgb {
    pub fn new(r: u8, g: u8, b: u8) -> (c: Rgb)
        ensures
            c.r == r,
            c.g == g,
            c.b == b,
    {
        Rgb { r, g, b }
    }
}

impl ColorFormat for Rgb {
    open spec fn name() -> ColorFormatName {
        ColorFormatName::RGB
    }

    open spec fn wf(&self) -> bool {
        true
    }

    open spec fn encoding(&self, order: ByteOrder) -> Seq<u8> {
        seq![self.r, self.g, self.b]
    }

    open spec fn decoding(bytes: Seq<u8>, order: ByteOrder) -> Rgb {
        Rgb {
            r: bytes[0],
            g: bytes[1],
            b: bytes[2],
        }
    }

    proof fn lemma_roundtrip(v: Rgb, order: ByteOrder) {
    }

    proof fn lemma_decoding_wf(bytes: Seq<u8>, order: ByteOrder) {
    }

    fn format_name() -> ColorFormatName {
        ColorFormatName::RGB
    }

    fn to_bytes_in(&self, order: ByteOrder) -> (bytes: Vec<u8>) {
        let mut bytes: Vec<u8> = Vec::new();
        bytes.push(self.r);
        bytes.push(self.g);
        bytes.push(self.b);
        assert(bytes@ =~= self.encoding(order));
        bytes
    }

    fn from_bytes_in(bytes: &[u8], order: ByteOrder) -> (r: Result<Rgb, DecodeError>) {
        if bytes.len() == 3 {
            Ok(Rgb {
                r: bytes[0],
                g: bytes[1],
                b: bytes[2],
            })
        } else {
            Err(make_length_error(ColorFormatName::RGB, bytes.len()))
        }
    }
}

/// Gamma-encoded color in three 8-bit channels.
#[derive(Copy, Clone, Default, Debug, PartialEq, Eq, Structural)]
pub struct Srgb {
    pub r: u8,
    pub g: u8,
    pub b: u8,
}

impl Srgb {
    pub fn new(sr: u8, sg: u8, sb: u8) -> (c: Srgb)
        ensures
            c.r == sr,
            c.g == sg,
            c.b == sb,
    {
        Srgb { r: sr, g: sg, b: sb }
    }
}

impl ColorFormat for Srgb {
    open spec fn name() -> ColorFormatName {
        ColorFormatName::SRGB
    }

    open spec fn wf(&self) -> bool {
        true
    }

    open spec fn encoding(&self, order: ByteOrder) -> Seq<u8> {
        seq![self.r, self.g, self.b]
    }

    open spec fn decoding(bytes: Seq<u8>, order: ByteOrder) -> Srgb {
        Srgb {
            r: bytes[0],
            g: bytes[1],
            b: bytes[2],
        }
    }

    proof fn lemma_roundtrip(v: Srgb, order: ByteOrder) {
    }

    proof fn lemma_decoding_wf(bytes: Seq<u8>, order: ByteOrder) {
    }

    fn format_name() -> ColorFormatName {
        ColorFormatName::SRGB
    }

    fn to_bytes_in(&self, order: ByteOrder) -> (bytes: Vec<u8>) {
        let mut bytes: Vec<u8> = Vec::new();
        bytes.push(self.r);
        bytes.push(self.g);
        bytes.push(self.b);
        assert(bytes@ =~= self.encoding(order));
        bytes
    }

    fn from_bytes_in(bytes: &[u8], order: ByteOrder) -> (r: Result<Srgb, DecodeError>) {
        if bytes.len() == 3 {
            Ok(Srgb {
                r: bytes[0],
                g: bytes[1],
                b: bytes[2],
            })
        } else {
            Err(make_length_error(ColorFormatName::SRGB, bytes.len()))
        }
    }
}

/// Linear light in three 16-bit channels.
#[derive(Copy, Clone, Default, Debug, PartialEq, Eq, Structural)]
pub struct Rgb48 {
    pub r: u16,
    pub g: u16,
    pub b: u16,
}

impl Rgb48 {
    pub fn new(r: u16, g: u16, b: u16) -> (c: Rgb48)
        ensures
            c.r == r,
            c.g == g,
            c.b == b,
    {
        Rgb48 { r, g, b }
    }
}

impl ColorFormat for Rgb48 {
    open spec fn name() -> ColorFormatName {
        ColorFormatName::RGB48
    }

    open spec fn wf(&self) -> bool {
        true
    }

    open spec fn encoding(&self, order: ByteOrder) -> Seq<u8> {
        u16_bytes(self.r, order)
            + u16_bytes(self.g, order)
            + u16_bytes(self.b, order)
    }

    open spec fn decoding(bytes: Seq<u8>, order: ByteOrder) -> Rgb48 {
        Rgb48 {
            r: u16_of_bytes(bytes[0], bytes[1], order),
            g: u16_of_bytes(bytes[2], bytes[3], order),
            b: u16_of_bytes(bytes[4], bytes[5], order),
        }
    }

    proof fn lemma_roundtrip(v: Rgb48, order: ByteOrder) {
        lemma_u16_roundtrip(v.r, order);
        lemma_u16_roundtrip(v.g, order);
        lemma_u16_roundtrip(v.b, order);
        let bytes = v.encoding(order);
        assert(bytes[0] == u16_bytes(v.r, order)[0]);
        assert(bytes[1] == u16_bytes(v.r, order)[1]);
        assert(bytes[2] == u16_bytes(v.g, order)[0]);
        assert(bytes[3] == u16_bytes(v.g, order)[1]);
        assert(bytes[4] == u16_bytes(v.b, order)[0]);
        assert(bytes[5] == u16_bytes(v.b, order)[1]);
    }

    proof fn lemma_decoding_wf(bytes: Seq<u8>, order: ByteOrder) {
    }

    fn format_name() -> ColorFormatName {
        ColorFormatName::RGB48
    }

    fn to_bytes_in(&self, order: ByteOrder) -> (bytes: Vec<u8>) {
        let mut bytes: Vec<u8> = Vec::new();
        push_u16(&mut bytes, self.r, order);
        push_u16(&mut bytes, self.g, order);
        push_u16(&mut bytes, self.b, order);
        assert(bytes@ =~= self.encoding(order));
        bytes
    }

    fn from_bytes_in(bytes: &[u8], order: ByteOrder) -> (r: Result<Rgb48, DecodeError>) {
        if bytes.len() == 6 {
            Ok(Rgb48 {
                r: read_u16(bytes, 0, order),
                g: read_u16(bytes, 2, order),
                b: read_u16(bytes, 4, order),
            })
        } else {
            Err(make_length_error(ColorFormatName::RGB48, bytes.len()))
        }
    }
}

/// Linear light in three single-precision channels, nominally from 0 to 1
/// and not limited to that range.
#[derive(Copy, Clone, Default, Debug, PartialEq, Eq, Structural)]
pub struct RgbF {
    pub r: Float32,
    pub g: Float32,
    pub b: Float32,
}

impl RgbF {
    pub fn new(r: Float32, g: Float32, b: Float32) -> (c: RgbF)
        ensures
            c.r == r,
            c.g == g,
            c.b == b,
    {
        RgbF { r, g, b }
    }
}

impl ColorFormat for RgbF {
    open spec fn name() -> ColorFormatName {
        ColorFormatName::RGBf
    }

    open spec fn wf(&self) -> bool {
        true
    }

    open spec fn encoding(&self, order: ByteOrder) -> Seq<u8> {
        u32_bytes(self.r.bits, order)
            + u32_bytes(self.g.bits, order)
            + u32_bytes(self.b.bits, order)
    }

    open spec fn decoding(bytes: Seq<u8>, order: ByteOrder) -> RgbF {
        RgbF {
            r: Float32 { bits: u32_of_bytes(bytes[0], bytes[1], bytes[2], bytes[3], order) },
            g: Float32 { bits: u32_of_bytes(bytes[4], bytes[5], bytes[6], bytes[7], order) },
            b: Float32 { bits: u32_of_bytes(bytes[8], bytes[9], bytes[10], bytes[11], order) },
        }
    }

    proof fn lemma_roundtrip(v: RgbF, order: ByteOrder) {
        lemma_u32_roundtrip(v.r.bits, order);
        lemma_u32_roundtrip(v.g.bits, order);
        lemma_u32_roundtrip(v.b.bits, order);
        let bytes = v.encoding(order);
        assert(bytes[0] == u32_bytes(v.r.bits, order)[0]);
        assert(bytes[1] == u32_bytes(v.r.bits, order)[1]);
        assert(bytes[2] == u32_bytes(v.r.bits, order)[2]);
        assert(bytes[3] == u32_bytes(v.r.bits, order)[3]);
        assert(bytes[4] == u32_bytes(v.g.bits, order)[0]);
        assert(bytes[5] == u32_bytes(v.g.bits, order)[1]);
        assert(bytes[6] == u32_bytes(v.g.bits, order)[2]);
        assert(bytes[7] == u32_bytes(v.g.bits, order)[3]);
        assert(bytes[8] == u32_bytes(v.b.bits, order)[0]);
        assert(bytes[9] == u32_bytes(v.b.bits, order)[1]);
        assert(bytes[10] == u32_bytes(v.b.bits, order)[2]);
        assert(bytes[11] == u32_bytes(v.b.bits, order)[3]);
    }

    proof fn lemma_decoding_wf(bytes: Seq<u8>, order: ByteOrder) {
    }

    fn format_name() -> ColorFormatName {
        ColorFormatName::RGBf
    }

    fn to_bytes_in(&self, order: ByteOrder) -> (bytes: Vec<u8>) {
        let mut bytes: Vec<u8> = Vec::new();
        push_u32(&mut bytes, self.r.bits, order);
        push_u32(&mut bytes, self.g.bits, order);
        push_u32(&mut bytes, self.b.bits, order);
        assert(bytes@ =~= self.encoding(order));
        bytes
    }

    fn from_bytes_in(bytes: &[u8], order: ByteOrder) -> (r: Result<RgbF, DecodeError>) {
        if bytes.len() == 12 {
            Ok(RgbF {
                r: Float32::from_bits(read_u32(bytes, 0, order)),
                g: Float32::from_bits(read_u32(bytes, 4, order)),
                b: Float32::from_bits(read_u32(bytes, 8, order)),
            })
        } else {
            Err(make_length_error(ColorFormatName::RGBf, bytes.len()))
        }
    }
}

/// Gamma-encoded color in three single-precision channels, nominally from 0
/// to 1 and not limited to that range.
#[derive(Copy, Clone, Default, Debug, PartialEq, Eq, Structural)]
pub struct SrgbF {
    pub r: Float32,
    pub g: Float32,
    pub b: Float32,
}

impl SrgbF {
    pub fn new(r: Float32, g: Float32, b: Float32) -> (c: SrgbF)
        ensures
            c.r == r,
            c.g == g,
            c.b == b,
    {
        SrgbF { r, g, b }
    }
}

impl ColorFormat for SrgbF {
    open spec fn name() -> ColorFormatName {
        ColorFormatName::SRGBf
    }

    open spec fn wf(&self) -> bool {
        true
    }

    open spec fn encoding(&self, order: ByteOrder) -> Seq<u8> {
        u32_bytes(self.r.bits, order)
            + u32_bytes(self.g.bits, order)
            + u32_bytes(self.b.bits, order)
    }

    open spec fn decoding(bytes: Seq<u8>, order: ByteOrder) -> SrgbF {
        SrgbF {
            r: Float32 { bits: u32_of_bytes(bytes[0], bytes[1], bytes[2], bytes[3], order) },
            g: Float32 { bits: u32_of_bytes(bytes[4], bytes[5], bytes[6], bytes[7], order) },
            b: Float32 { bits: u32_of_bytes(bytes[8], bytes[9], bytes[10], bytes[11], order) },
        }
    }

    proof fn lemma_roundtrip(v: SrgbF, order: ByteOrder) {
        lemma_u32_roundtrip(v.r.bits, order);
        lemma_u32_roundtrip(v.g.bits, order);
        lemma_u32_roundtrip(v.b.bits, order);
        let bytes = v.encoding(order);
        assert(bytes[0] == u32_bytes(v.r.bits, order)[0]);
        assert(bytes[1] == u32_bytes(v.r.bits, order)[1]);
        assert(bytes[2] == u32_bytes(v.r.bits, order)[2]);
        assert(bytes[3] == u32_bytes(v.r.bits, order)[3]);
        assert(bytes[4] == u32_bytes(v.g.bits, order)[0]);
        assert(bytes[5] == u32_bytes(v.g.bits, order)[1]);
        assert(bytes[6] == u32_bytes(v.g.bits, order)[2]);
        assert(bytes[7] == u32_bytes(v.g.bits, order)[3]);
        assert(bytes[8] == u32_bytes(v.b.bits, order)[0]);
        assert(bytes[9] == u32_bytes(v.b.bits, order)[1]);
        assert(bytes[10] == u32_bytes(v.b.bits, order)[2]);
        assert(bytes[11] == u32_bytes(v.b.bits, order)[3]);
    }

    proof fn lemma_decoding_wf(bytes: Seq<u8>, order: ByteOrder) {
    }

    fn format_name() -> ColorFormatName {
        ColorFormatName::SRGBf
    }

    fn to_bytes_in(&self, order: ByteOrder) -> (bytes: Vec<u8>) {
        let mut bytes: Vec<u8> = Vec::new();
        push_u32(&mut bytes, self.r.bits, order);
        push_u32(&mut bytes, self.g.bits, order);
        push_u32(&mut bytes, self.b.bits, order);
        assert(bytes@ =~= self.encoding(order));
        bytes
    }

    fn from_bytes_in(bytes: &[u8], order: ByteOrder) -> (r: Result<SrgbF, DecodeError>) {
        if bytes.len() == 12 {
            Ok(SrgbF {
                r: Float32::from_bits(read_u32(bytes, 0, order)),
                g: Float32::from_bits(read_u32(bytes, 4, order)),
                b: Float32::from_bits(read_u32(bytes, 8, order)),
            })
        } else {
            Err(make_length_error(ColorFormatName::SRGBf, bytes.len()))
        }
    }
}

/// Linear light with straight alpha in four 8-bit channels.
#[derive(Copy, Clone, Default, Debug, PartialEq, Eq, Structural)]
pub struct Rgba {
    pub r: u8,
    pub g: u8,
    pub b: u8,
    pub a: u8,
}

impl Rgba {
    pub fn new(r: u8, g: u8, b: u8, a: u8) -> (c: Rgba)
        ensures
            c.r == r,
            c.g == g,
            c.b == b,
            c.a == a,
    {
        Rgba { r, g, b, a }
    }
}

impl ColorFormat for Rgba {
    open spec fn name() -> ColorFormatName {
        ColorFormatName::RGBA
    }

    open spec fn wf(&self) -> bool {
        true
    }

    open spec fn encoding(&self, order: ByteOrder) -> Seq<u8> {
        seq![self.r, self.g, self.b, self.a]
    }

    open spec fn decoding(bytes: Seq<u8>, order: ByteOrder) -> Rgba {
        Rgba {
            r: bytes[0],
            g: bytes[1],
            b: bytes[2],
            a: bytes[3],
        }
    }

    proof fn lemma_roundtrip(v: Rgba, order: ByteOrder) {
    }

    proof fn lemma_decoding_wf(bytes: Seq<u8>, order: ByteOrder) {
    }

    fn format_name() -> ColorFormatName {
        ColorFormatName::RGBA
    }

    fn to_bytes_in(&self, order: ByteOrder) -> (bytes: Vec<u8>) {
        let mut bytes: Vec<u8> = Vec::new();
        bytes.push(self.r);
        bytes.push(self.g);
        bytes.push(self.b);
        bytes.push(self.a);
        assert(bytes@ =~= self.encoding(order));
        bytes
    }

    fn from_bytes_in(bytes: &[u8], order: ByteOrder) -> (r: Result<Rgba, DecodeError>) {
        if bytes.len() == 4 {
            Ok(Rgba {
                r: bytes[0],
                g: bytes[1],
                b: bytes[2],
                a: bytes[3],
            })
        } else {
            Err(make_length_error(ColorFormatName::RGBA, bytes.len()))
        }
    }
}

/// Linear light with straight alpha in four 16-bit channels.
#[derive(Copy, Clone, Default, Debug, PartialEq, Eq, Structural)]
pub struct Rgba64 {
    pub r: u16,
    pub g: u16,
    pub b: u16,
    pub a: u16,
}

impl Rgba64 {
    pub fn new(r: u16, g: u16, b: u16, a: u16) -> (c: Rgba64)
        ensures
            c.r == r,
            c.g == g,
            c.b == b,
            c.a == a,
    {
        Rgba64 { r, g, b, a }
    }
}

impl ColorFormat for Rgba64 {
    open spec fn name() -> ColorFormatName {
        ColorFormatName::RGBA64
    }

    open spec fn wf(&self) -> bool {
        true
    }

    open spec fn encoding(&self, order: ByteOrder) -> Seq<u8> {
        u16_bytes(self.r, order)
            + u16_bytes(self.g, order)
            + u16_bytes(self.b, order)
            + u16_bytes(self.a, order)
    }

    open spec fn decoding(bytes: Seq<u8>, order: ByteOrder) -> Rgba64 {
        Rgba64 {
            r: u16_of_bytes(bytes[0], bytes[1], order),
            g: u16_of_bytes(bytes[2], bytes[3], order),
            b: u16_of_bytes(bytes[4], bytes[5], order),
            a: u16_of_bytes(bytes[6], bytes[7], order),
        }
    }

    proof fn lemma_roundtrip(v: Rgba64, order: ByteOrder) {
        lemma_u16_roundtrip(v.r, order);
        lemma_u16_roundtrip(v.g, order);
        lemma_u16_roundtrip(v.b, order);
        lemma_u16_roundtrip(v.a, order);
        let bytes = v.encoding(order);
        assert(bytes[0] == u16_bytes(v.r, order)[0]);
        assert(bytes[1] == u16_bytes(v.r, order)[1]);
        assert(bytes[2] == u16_bytes(v.g, order)[0]);
        assert(bytes[3] == u16_bytes(v.g, order)[1]);
        assert(bytes[4] == u16_bytes(v.b, order)[0]);
        assert(bytes[5] == u16_bytes(v.b, order)[1]);
        assert(bytes[6] == u16_bytes(v.a, order)[0]);
        assert(bytes[7] == u16_bytes(v.a, order)[1]);
    }

    proof fn lemma_decoding_wf(bytes: Seq<u8>, order: ByteOrder) {
    }

    fn format_name() -> ColorFormatName {
        ColorFormatName::RGBA64
    }

    fn to_bytes_in(&self, order: ByteOrder) -> (bytes: Vec<u8>) {
        let mut bytes: Vec<u8> = Vec::new();
        push_u16(&mut bytes, self.r, order);
        push_u16(&mut bytes, self.g, order);
        push_u16(&mut bytes, self.b, order);
        push_u16(&mut bytes, self.a, order);
        assert(bytes@ =~= self.encoding(order));
        bytes
    }

    fn from_bytes_in(bytes: &[u8], order: ByteOrder) -> (r: Result<Rgba64, DecodeError>) {
        if bytes.len() == 8 {
            Ok(Rgba64 {
                r: read_u16(bytes, 0, order),
                g: read_u16(bytes, 2, order),
                b: read_u16(bytes, 4, order),
                a: read_u16(bytes, 6, order),
            })
        } else {
            Err(make_length_error(ColorFormatName::RGBA64, bytes.len()))
        }
    }
}

/// Linear light with straight alpha in four single-precision channels, each
/// held limited to the range from 0 to 1.
#[derive(Copy, Clone, Default, Debug, PartialEq, Eq, Structural)]
pub struct RgbaF {
    pub r: Float32,
    pub g: Float32,
    pub b: Float32,
    pub a: Float32,
}

impl RgbaF {
    /// Makes a value, each channel limited to the range from 0 to 1.
    pub fn new(r: Float32, g: Float32, b: Float32, a: Float32) -> (c: RgbaF)
        ensures
            c.r == r.spec_clamp_unit(),
            c.g == g.spec_clamp_unit(),
            c.b == b.spec_clamp_unit(),
            c.a == a.spec_clamp_unit(),
            c.wf(),
    {
        RgbaF { r: r.clamp_unit(), g: g.clamp_unit(), b: b.clamp_unit(), a: a.clamp_unit() }
    }
}

impl ColorFormat for RgbaF {
    open spec fn name() -> ColorFormatName {
        ColorFormatName::RGBAf
    }

    open spec fn wf(&self) -> bool {
        self.r.is_clamped()
        && self.g.is_clamped()
        && self.b.is_clamped()
        && self.a.is_clamped()
    }

    open spec fn encoding(&self, order: ByteOrder) -> Seq<u8> {
        u32_bytes(self.r.bits, order)
            + u32_bytes(self.g.bits, order)
            + u32_bytes(self.b.bits, order)
            + u32_bytes(self.a.bits, order)
    }

    open spec fn decoding(bytes: Seq<u8>, order: ByteOrder) -> RgbaF {
        RgbaF {
            r: Float32 { bits: u32_of_bytes(bytes[0], bytes[1], bytes[2], bytes[3], order) }.spec_clamp_unit(),
            g: Float32 { bits: u32_of_bytes(bytes[4], bytes[5], bytes[6], bytes[7], order) }.spec_clamp_unit(),
            b: Float32 { bits: u32_of_bytes(bytes[8], bytes[9], bytes[10], bytes[11], order) }.spec_clamp_unit(),
            a: Float32 { bits: u32_of_bytes(bytes[12], bytes[13], bytes[14], bytes[15], order) }.spec_clamp_unit(),
        }
    }

    proof fn lemma_roundtrip(v: RgbaF, order: ByteOrder) {
        lemma_u32_roundtrip(v.r.bits, order);
        lemma_u32_roundtrip(v.g.bits, order);
        lemma_u32_roundtrip(v.b.bits, order);
        lemma_u32_roundtrip(v.a.bits, order);
        let bytes = v.encoding(order);
        assert(bytes[0] == u32_bytes(v.r.bits, order)[0]);
        assert(bytes[1] == u32_bytes(v.r.bits, order)[1]);
        assert(bytes[2] == u32_bytes(v.r.bits, order)[2]);
        assert(bytes[3] == u32_bytes(v.r.bits, order)[3]);
        assert(bytes[4] == u32_bytes(v.g.bits, order)[0]);
        assert(bytes[5] == u32_bytes(v.g.bits, order)[1]);
        assert(bytes[6] == u32_bytes(v.g.bits, order)[2]);
        assert(bytes[7] == u32_bytes(v.g.bits, order)[3]);
        assert(bytes[8] == u32_bytes(v.b.bits, order)[0]);
        assert(bytes[9] == u32_bytes(v.b.bits, order)[1]);
        assert(bytes[10] == u32_bytes(v.b.bits, order)[2]);
        assert(bytes[11] == u32_bytes(v.b.bits, order)[3]);
        assert(bytes[12] == u32_bytes(v.a.bits, order)[0]);
        assert(bytes[13] == u32_bytes(v.a.bits, order)[1]);
        assert(bytes[14] == u32_bytes(v.a.bits, order)[2]);
        assert(bytes[15] == u32_bytes(v.a.bits, order)[3]);
    }

    proof fn lemma_decoding_wf(bytes: Seq<u8>, order: ByteOrder) {
    }

    fn format_name() -> ColorFormatName {
        ColorFormatName::RGBAf
    }

    fn to_bytes_in(&self, order: ByteOrder) -> (bytes: Vec<u8>) {
        let mut bytes: Vec<u8> = Vec::new();
        push_u32(&mut bytes, self.r.bits, order);
        push_u32(&mut bytes, self.g.bits, order);
        push_u32(&mut bytes, self.b.bits, order);
        push_u32(&mut bytes, self.a.bits, order);
        assert(bytes@ =~= self.encoding(order));
        bytes
    }

    fn from_bytes_in(bytes: &[u8], order: ByteOrder) -> (r: Result<RgbaF, DecodeError>) {
        if bytes.len() == 16 {
            Ok(RgbaF {
                r: Float32::from_bits(read_u32(bytes, 0, order)).clamp_unit(),
                g: Float32::from_bits(read_u32(bytes, 4, order)).clamp_unit(),
                b: Float32::from_bits(read_u32(bytes, 8, order)).clamp_unit(),
                a: Float32::from_bits(read_u32(bytes, 12, order)).clamp_unit(),
            })
        } else {
            Err(make_length_error(ColorFormatName::RGBAf, bytes.len()))
        }
    }
}


impl Rgb {
    /// What converting a `Gray8` gives: the gray in all three channels.
    pub open spec fn spec_from_gray8(g8: Gray8) -> Rgb {
        Rgb { r: g8.luminance, g: g8.luminance, b: g8.luminance }
    }
}

/// The gray in all three channels.
impl From<Gray8> for Rgb {
    fn from(g8: Gray8) -> (c: Rgb) {
        Rgb::new(g8.luminance, g8.luminance, g8.luminance)
    }
}

impl FromSpecImpl<Gray8> for Rgb {
    open spec fn obeys_from_spec() -> bool {
        true
    }

    open spec fn from_spec(g8: Gray8) -> Rgb {
        Rgb::spec_from_gray8(g8)
    }
}

impl Rgb {
    /// What converting a `Gray16` gives: the gray, rescaled to 8 bits, in
    /// all three channels.
    pub open spec fn spec_from_gray16(g16: Gray16) -> Rgb {
        let g8 = spec_narrow(g16.luminance);
        Rgb { r: g8, g: g8, b: g8 }
    }
}

/// The gray, rescaled to 8 bits, in all three channels.
impl From<Gray16> for Rgb {
    fn from(g16: Gray16) -> (c: Rgb) {
        let g8 = narrow(g16.luminance);
        Rgb::new(g8, g8, g8)
    }
}

impl FromSpecImpl<Gray16> for Rgb {
    open spec fn obeys_from_spec() -> bool {
        true
    }

    open spec fn from_spec(g16: Gray16) -> Rgb {
        Rgb::spec_from_gray16(g16)
    }
}

impl Rgb {
    /// What converting a `Srgb` gives: each channel taken from
    /// gamma-encoded to linear.
    pub open spec fn spec_from_srgb(srgb: Srgb) -> Rgb {
        Rgb {
            r: spec_srgb_gamma_expand(srgb.r),
            g: spec_srgb_gamma_expand(srgb.g),
            b: spec_srgb_gamma_expand(srgb.b),
        }
    }
}

/// Each channel taken from gamma-encoded to linear.
impl From<Srgb> for Rgb {
    fn from(srgb: Srgb) -> (c: Rgb) {
        Rgb::new(
            srgb_gamma_expand(srgb.r),
            srgb_gamma_expand(srgb.g),
            srgb_gamma_expand(srgb.b),
        )
    }
}

impl FromSpecImpl<Srgb> for Rgb {
    open spec fn obeys_from_spec() -> bool {
        true
    }

    open spec fn from_spec(srgb: Srgb) -> Rgb {
        Rgb::spec_from_srgb(srgb)
    }
}

impl Rgb {
    /// What converting a `Rgb48` gives: each channel rescaled to 8 bits.
    pub open spec fn spec_from_rgb48(rgb_w: Rgb48) -> Rgb {
        Rgb { r: spec_narrow(rgb_w.r), g: spec_narrow(rgb_w.g), b: spec_narrow(rgb_w.b) }
    }
}

/// Each channel rescaled to 8 bits.
impl From<Rgb48> for Rgb {
    fn from(rgb_w: Rgb48) -> (c: Rgb) {
        Rgb::new(narrow(rgb_w.r), narrow(rgb_w.g), narrow(rgb_w.b))
    }
}

impl FromSpecImpl<Rgb48> for Rgb {
    open spec fn obeys_from_spec() -> bool {
        true
    }

    open spec fn from_spec(rgb_w: Rgb48) -> Rgb {
        Rgb::spec_from_rgb48(rgb_w)
    }
}

impl Rgb {
    /// What converting a `Rgba` gives: the color channels, without alpha.
    pub open spec fn spec_from_rgba(rgba: Rgba) -> Rgb {
        Rgb { r: rgba.r, g: rgba.g, b: rgba.b }
    }
}

/// The color channels, without alpha.
impl From<Rgba> for Rgb {
    fn from(rgba: Rgba) -> (c: Rgb) {
        Rgb::new(rgba.r, rgba.g, rgba.b)
    }
}

impl FromSpecImpl<Rgba> for Rgb {
    open spec fn obeys_from_spec() -> bool {
        true
    }

    open spec fn from_spec(rgba: Rgba) -> Rgb {
        Rgb::spec_from_rgba(rgba)
    }
}

impl Srgb {
    /// What converting a `Rgb` gives: each channel taken from linear to
    /// gamma-encoded.
    pub open spec fn spec_from_rgb(rgb: Rgb) -> Srgb {
        Srgb {
            r: spec_srgb_gamma_compress(rgb.r),
            g: spec_srgb_gamma_compress(rgb.g),
            b: spec_srgb_gamma_compress(rgb.b),
        }
    }
}

/// Each channel taken from linear to gamma-encoded.
impl From<Rgb> for Srgb {
    fn from(rgb: Rgb) -> (c: Srgb) {
        Srgb::new(
            srgb_gamma_compress(rgb.r),
            srgb_gamma_compress(rgb.g),
            srgb_gamma_compress(rgb.b),
        )
    }
}

impl FromSpecImpl<Rgb> for Srgb {
    open spec fn obeys_from_spec() -> bool {
        true
    }

    open spec fn from_spec(rgb: Rgb) -> Srgb {
        Srgb::spec_from_rgb(rgb)
    }
}

impl Rgb48 {
    /// What converting a `Gray16` gives: the gray in all three channels.
    pub open spec fn spec_from_gray16(g16: Gray16) -> Rgb48 {
        Rgb48 { r: g16.luminance, g: g16.luminance, b: g16.luminance }
    }
}

/// The gray in all three channels.
impl From<Gray16> for Rgb48 {
    fn from(g16: Gray16) -> (c: Rgb48) {
        Rgb48::new(g16.luminance, g16.luminance, g16.luminance)
    }
}

impl FromSpecImpl<Gray16> for Rgb48 {
    open spec fn obeys_from_spec() -> bool {
        true
    }

    open spec fn from_spec(g16: Gray16) -> Rgb48 {
        Rgb48::spec_from_gray16(g16)
    }
}

impl Rgb48 {
    /// What converting a `Rgb` gives: each channel rescaled to 16 bits.
    pub open spec fn spec_from_rgb(rgb: Rgb) -> Rgb48 {
        Rgb48 { r: spec_widen(rgb.r), g: spec_widen(rgb.g), b: spec_widen(rgb.b) }
    }
}

/// Each channel rescaled to 16 bits.
impl From<Rgb> for Rgb48 {
    fn from(rgb: Rgb) -> (c: Rgb48) {
        Rgb48::new(widen(rgb.r), widen(rgb.g), widen(rgb.b))
    }
}

impl FromSpecImpl<Rgb> for Rgb48 {
    open spec fn obeys_from_spec() -> bool {
        true
    }

    open spec fn from_spec(rgb: Rgb) -> Rgb48 {
        Rgb48::spec_from_rgb(rgb)
    }
}

impl Rgb48 {
    /// What converting a `Rgba64` gives: the color channels, without alpha.
    pub open spec fn spec_from_rgba64(rgba_w: Rgba64) -> Rgb48 {
        Rgb48 { r: rgba_w.r, g: rgba_w.g, b: rgba_w.b }
    }
}

/// The color channels, without alpha.
impl From<Rgba64> for Rgb48 {
    fn from(rgba_w: Rgba64) -> (c: Rgb48) {
        Rgb48::new(rgba_w.r, rgba_w.g, rgba_w.b)
    }
}

impl FromSpecImpl<Rgba64> for Rgb48 {
    open spec fn obeys_from_spec() -> bool {
        true
    }

    open spec fn from_spec(rgba_w: Rgba64) -> Rgb48 {
        Rgb48::spec_from_rgba64(rgba_w)
    }
}

impl RgbF {
    /// What converting a `GrayF` gives: the gray in all three channels.
    pub open spec fn spec_from_grayf(gf: GrayF) -> RgbF {
        RgbF { r: gf.luminance, g: gf.luminance, b: gf.luminance }
    }
}

/// The gray in all three channels.
impl From<GrayF> for RgbF {
    fn from(gf: GrayF) -> (c: RgbF) {
        RgbF::new(gf.luminance, gf.luminance, gf.luminance)
    }
}

impl FromSpecImpl<GrayF> for RgbF {
    open spec fn obeys_from_spec() -> bool {
        true
    }

    open spec fn from_spec(gf: GrayF) -> RgbF {
        RgbF::spec_from_grayf(gf)
    }
}

impl RgbF {
    /// What converting a `RgbaF` gives: the color channels, without alpha.
    pub open spec fn spec_from_rgbaf(rgbaf: RgbaF) -> RgbF {
        RgbF { r: rgbaf.r, g: rgbaf.g, b: rgbaf.b }
    }
}

/// The color channels, without alpha.
impl From<RgbaF> for RgbF {
    fn from(rgbaf: RgbaF) -> (c: RgbF) {
        RgbF::new(rgbaf.r, rgbaf.g, rgbaf.b)
    }
}

impl FromSpecImpl<RgbaF> for RgbF {
    open spec fn obeys_from_spec() -> bool {
        true
    }

    open spec fn from_spec(rgbaf: RgbaF) -> RgbF {
        RgbF::spec_from_rgbaf(rgbaf)
    }
}

impl Rgba {
    /// What converting a `Gray8` gives: the gray in all three color
    /// channels, fully opaque.
    pub open spec fn spec_from_gray8(g8: Gray8) -> Rgba {
        Rgba { r: g8.luminance, g: g8.luminance, b: g8.luminance, a: 255 }
    }
}

/// The gray in all three color channels, fully opaque.
impl From<Gray8> for Rgba {
    fn from(g8: Gray8) -> (c: Rgba) {
        Rgba::new(g8.luminance, g8.luminance, g8.luminance, 255)
    }
}

impl FromSpecImpl<Gray8> for Rgba {
    open spec fn obeys_from_spec() -> bool {
        true
    }

    open spec fn from_spec(g8: Gray8) -> Rgba {
        Rgba::spec_from_gray8(g8)
    }
}

impl Rgba {
    /// What converting a `Rgb` gives: the color channels, fully opaque.
    pub open spec fn spec_from_rgb(rgb: Rgb) -> Rgba {
        Rgba { r: rgb.r, g: rgb.g, b: rgb.b, a: 255 }
    }
}

/// The color channels, fully opaque.
impl From<Rgb> for Rgba {
    fn from(rgb: Rgb) -> (c: Rgba) {
        Rgba::new(rgb.r, rgb.g, rgb.b, 255)
    }
}

impl FromSpecImpl<Rgb> for Rgba {
    open spec fn obeys_from_spec() -> bool {
        true
    }

    open spec fn from_spec(rgb: Rgb) -> Rgba {
        Rgba::spec_from_rgb(rgb)
    }
}

impl Rgba {
    /// What converting a `Rgba64` gives: each channel, alpha too, rescaled
    /// to 8 bits.
    pub open spec fn spec_from_rgba64(rgba_w: Rgba64) -> Rgba {
        Rgba {
            r: spec_narrow(rgba_w.r),
            g: spec_narrow(rgba_w.g),
            b: spec_narrow(rgba_w.b),
            a: spec_narrow(rgba_w.a),
        }
    }
}

/// Each channel, alpha too, rescaled to 8 bits.
impl From<Rgba64> for Rgba {
    fn from(rgba_w: Rgba64) -> (c: Rgba) {
        Rgba::new(narrow(rgba_w.r), narrow(rgba_w.g), narrow(rgba_w.b), narrow(rgba_w.a))
    }
}

impl FromSpecImpl<Rgba64> for Rgba {
    open spec fn obeys_from_spec() -> bool {
        true
    }

    open spec fn from_spec(rgba_w: Rgba64) -> Rgba {
        Rgba::spec_from_rgba64(rgba_w)
    }
}

impl Rgba64 {
    /// What converting a `Gray16` gives: the gray in all three color
    /// channels, fully opaque.
    pub open spec fn spec_from_gray16(g16: Gray16) -> Rgba64 {
        Rgba64 { r: g16.luminance, g: g16.luminance, b: g16.luminance, a: 65535 }
    }
}

/// The gray in all three color channels, fully opaque.
impl From<Gray16> for Rgba64 {
    fn from(g16: Gray16) -> (c: Rgba64) {
        Rgba64::new(g16.luminance, g16.luminance, g16.luminance, 65535)
    }
}

impl FromSpecImpl<Gray16> for Rgba64 {
    open spec fn obeys_from_spec() -> bool {
        true
    }

    open spec fn from_spec(g16: Gray16) -> Rgba64 {
        Rgba64::spec_from_gray16(g16)
    }
}

impl Rgba64 {
    /// What converting a `Rgb` gives: each channel rescaled to 16 bits,
    /// fully opaque.
    pub open spec fn spec_from_rgb(rgb: Rgb) -> Rgba64 {
        Rgba64 { r: spec_widen(rgb.r), g: spec_widen(rgb.g), b: spec_widen(rgb.b), a: 65535 }
    }
}

/// Each channel rescaled to 16 bits, fully opaque.
impl From<Rgb> for Rgba64 {
    fn from(rgb: Rgb) -> (c: Rgba64) {
        Rgba64::new(widen(rgb.r), widen(rgb.g), widen(rgb.b), 65535)
    }
}

impl FromSpecImpl<Rgb> for Rgba64 {
    open spec fn obeys_from_spec() -> bool {
        true
    }

    open spec fn from_spec(rgb: Rgb) -> Rgba64 {
        Rgba64::spec_from_rgb(rgb)
    }
}

impl Rgba64 {
    /// What converting a `Rgb48` gives: the color channels, fully opaque.
    pub open spec fn spec_from_rgb48(rgb_w: Rgb48) -> Rgba64 {
        Rgba64 { r: rgb_w.r, g: rgb_w.g, b: rgb_w.b, a: 65535 }
    }
}

/// The color channels, fully opaque.
impl From<Rgb48> for Rgba64 {
    fn from(rgb_w: Rgb48) -> (c: Rgba64) {
        Rgba64::new(rgb_w.r, rgb_w.g, rgb_w.b, 65535)
    }
}

impl FromSpecImpl<Rgb48> for Rgba64 {
    open spec fn obeys_from_spec() -> bool {
        true
    }

    open spec fn from_spec(rgb_w: Rgb48) -> Rgba64 {
        Rgba64::spec_from_rgb48(rgb_w)
    }
}

impl Rgba64 {
    /// What converting a `Rgba` gives: each channel, alpha too, rescaled to
    /// 16 bits.
    pub open spec fn spec_from_rgba(rgba: Rgba) -> Rgba64 {
        Rgba64 {
            r: spec_widen(rgba.r),
            g: spec_widen(rgba.g),
            b: spec_widen(rgba.b),
            a: spec_widen(rgba.a),
        }
    }
}

/// Each channel, alpha too, rescaled to 16 bits.
impl From<Rgba> for Rgba64 {
    fn from(rgba: Rgba) -> (c: Rgba64) {
        Rgba64::new(widen(rgba.r), widen(rgba.g), widen(rgba.b), widen(rgba.a))
    }
}

impl FromSpecImpl<Rgba> for Rgba64 {
    open spec fn obeys_from_spec() -> bool {
        true
    }

    open spec fn from_spec(rgba: Rgba) -> Rgba64 {
        Rgba64::spec_from_rgba(rgba)
    }
}

impl RgbaF {
    /// What converting a `GrayF` gives: the gray, limited to the range from
    /// 0 to 1, in all three color channels, fully opaque.
    pub open spec fn spec_from_grayf(gf: GrayF) -> RgbaF {
        let lum = gf.luminance.spec_clamp_unit();
        RgbaF { r: lum, g: lum, b: lum, a: Float32 { bits: ONE_BITS } }
    }
}

/// The gray, limited to the range from 0 to 1, in all three color channels,
/// fully opaque.
impl From<GrayF> for RgbaF {
    fn from(gf: GrayF) -> (c: RgbaF)
        ensures
            c.wf(),
    {
        RgbaF::new(gf.luminance, gf.luminance, gf.luminance, Float32::one())
    }
}

impl FromSpecImpl<GrayF> for RgbaF {
    open spec fn obeys_from_spec() -> bool {
        true
    }

    open spec fn from_spec(gf: GrayF) -> RgbaF {
        RgbaF::spec_from_grayf(gf)
    }
}

impl RgbaF {
    /// What converting a `RgbF` gives: the color channels, each limited to
    /// the range from 0 to 1, fully opaque.
    pub open spec fn spec_from_rgbf(rgbf: RgbF) -> RgbaF {
        RgbaF {
            r: rgbf.r.spec_clamp_unit(),
            g: rgbf.g.spec_clamp_unit(),
            b: rgbf.b.spec_clamp_unit(),
            a: Float32 { bits: ONE_BITS },
        }
    }
}

/// The color channels, each limited to the range from 0 to 1, fully opaque.
impl From<RgbF> for RgbaF {
    fn from(rgbf: RgbF) -> (c: RgbaF)
        ensures
            c.wf(),
    {
        RgbaF::new(rgbf.r, rgbf.g, rgbf.b, Float32::one())
    }
}

impl FromSpecImpl<RgbF> for RgbaF {
    open spec fn obeys_from_spec() -> bool {
        true
    }

    open spec fn from_spec(rgbf: RgbF) -> RgbaF {
        RgbaF::spec_from_rgbf(rgbf)
    }
}

impl RgbF {
    /// What converting a `Gray16` gives: the gray, as the fraction of 65535
    /// that it stands for, in all three channels.
    pub open spec fn spec_from_gray16(g16: Gray16) -> RgbF {
        let lum = unit_16(g16.luminance);
        RgbF { r: lum, g: lum, b: lum }
    }
}

/// The gray, as the fraction of 65535 that it stands for, in all three
/// channels.
impl From<Gray16> for RgbF {
    fn from(g16: Gray16) -> (c: RgbF) {
        let lum = unit_16(g16.luminance);
        RgbF::new(lum, lum, lum)
    }
}

impl FromSpecImpl<Gray16> for RgbF {
    open spec fn obeys_from_spec() -> bool {
        true
    }

    open spec fn from_spec(g16: Gray16) -> RgbF {
        RgbF::spec_from_gray16(g16)
    }
}

impl RgbF {
    /// What converting a `Rgb` gives: each channel as the fraction of 255
    /// that it stands for.
    pub open spec fn spec_from_rgb(rgb: Rgb) -> RgbF {
        RgbF {
            r: unit_8(rgb.r),
            g: unit_8(rgb.g),
            b: unit_8(rgb.b),
        }
    }
}

/// Each channel as the fraction of 255 that it stands for.
impl From<Rgb> for RgbF {
    fn from(rgb: Rgb) -> (c: RgbF) {
        RgbF::new(
            unit_8(rgb.r),
            unit_8(rgb.g),
            unit_8(rgb.b),
        )
    }
}

impl FromSpecImpl<Rgb> for RgbF {
    open spec fn obeys_from_spec() -> bool {
        true
    }

    open spec fn from_spec(rgb: Rgb) -> RgbF {
        RgbF::spec_from_rgb(rgb)
    }
}

impl RgbF {
    /// What converting a `Rgba` gives: each color channel as the fraction
    /// of 255 that it stands for. Alpha is dropped.
    pub open spec fn spec_from_rgba(rgba: Rgba) -> RgbF {
        RgbF {
            r: unit_8(rgba.r),
            g: unit_8(rgba.g),
            b: unit_8(rgba.b),
        }
    }
}

/// Each color channel as the fraction of 255 that it stands for. Alpha is
/// dropped.
impl From<Rgba> for RgbF {
    fn from(rgba: Rgba) -> (c: RgbF) {
        RgbF::new(
            unit_8(rgba.r),
            unit_8(rgba.g),
            unit_8(rgba.b),
        )
    }
}

impl FromSpecImpl<Rgba> for RgbF {
    open spec fn obeys_from_spec() -> bool {
        true
    }

    open spec fn from_spec(rgba: Rgba) -> RgbF {
        RgbF::spec_from_rgba(rgba)
    }
}

impl RgbF {
    /// What converting a `Rgb48` gives: each channel as the fraction of
    /// 65535 that it stands for.
    pub open spec fn spec_from_rgb48(rgb48: Rgb48) -> RgbF {
        RgbF {
            r: unit_16(rgb48.r),
            g: unit_16(rgb48.g),
            b: unit_16(rgb48.b),
        }
    }
}

/// Each channel as the fraction of 65535 that it stands for.
impl From<Rgb48> for RgbF {
    fn from(rgb48: Rgb48) -> (c: RgbF) {
        RgbF::new(
            unit_16(rgb48.r),
            unit_16(rgb48.g),
            unit_16(rgb48.b),
        )
    }
}

impl FromSpecImpl<Rgb48> for RgbF {
    open spec fn obeys_from_spec() -> bool {
        true
    }

    open spec fn from_spec(rgb48: Rgb48) -> RgbF {
        RgbF::spec_from_rgb48(rgb48)
    }
}

impl RgbF {
    /// What converting a `Rgba64` gives: each color channel as the fraction
    /// of 65535 that it stands for. Alpha is dropped.
    pub open spec fn spec_from_rgba64(rgba64: Rgba64) -> RgbF {
        RgbF {
            r: unit_16(rgba64.r),
            g: unit_16(rgba64.g),
            b: unit_16(rgba64.b),
        }
    }
}

/// Each color channel as the fraction of 65535 that it stands for. Alpha is
/// dropped.
impl From<Rgba64> for RgbF {
    fn from(rgba64: Rgba64) -> (c: RgbF) {
        RgbF::new(
            unit_16(rgba64.r),
            unit_16(rgba64.g),
            unit_16(rgba64.b),
        )
    }
}

impl FromSpecImpl<Rgba64> for RgbF {
    open spec fn obeys_from_spec() -> bool {
        true
    }

    open spec fn from_spec(rgba64: Rgba64) -> RgbF {
        RgbF::spec_from_rgba64(rgba64)
    }
}

impl SrgbF {
    /// What converting a `Srgb` gives: each channel as the fraction of 255
    /// that it stands for.
    pub open spec fn spec_from_srgb(srgb: Srgb) -> SrgbF {
        SrgbF {
            r: unit_8(srgb.r),
            g: unit_8(srgb.g),
            b: unit_8(srgb.b),
        }
    }
}

/// Each channel as the fraction of 255 that it stands for.
impl From<Srgb> for SrgbF {
    fn from(srgb: Srgb) -> (c: SrgbF) {
        SrgbF::new(
            unit_8(srgb.r),
            unit_8(srgb.g),
            unit_8(srgb.b),
        )
    }
}

impl FromSpecImpl<Srgb> for SrgbF {
    open spec fn obeys_from_spec() -> bool {
        true
    }

    open spec fn from_spec(srgb: Srgb) -> SrgbF {
        SrgbF::spec_from_srgb(srgb)
    }
}

impl RgbaF {
    /// What converting a `Gray16` gives: the gray, as the fraction of 65535
    /// that it stands for, in all three color channels, fully opaque.
    pub open spec fn spec_from_gray16(g16: Gray16) -> RgbaF {
        let lum = unit_16(g16.luminance).clamp_unit();
        RgbaF { r: lum, g: lum, b: lum, a: Float32 { bits: ONE_BITS } }
    }
}

/// The gray, as the fraction of 65535 that it stands for, in all three color
/// channels, fully opaque.
impl From<Gray16> for RgbaF {
    fn from(g16: Gray16) -> (c: RgbaF)
        ensures
            c.wf(),
    {
        let lum = unit_16(g16.luminance);
        RgbaF::new(lum, lum, lum, Float32::one())
    }
}

impl FromSpecImpl<Gray16> for RgbaF {
    open spec fn obeys_from_spec() -> bool {
        true
    }

    open spec fn from_spec(g16: Gray16) -> RgbaF {
        RgbaF::spec_from_gray16(g16)
    }
}

impl RgbaF {
    /// What converting a `Rgb` gives: each channel as the fraction of 255
    /// that it stands for, fully opaque.
    pub open spec fn spec_from_rgb(rgb: Rgb) -> RgbaF {
        RgbaF {
            r: unit_8(rgb.r).clamp_unit(),
            g: unit_8(rgb.g).clamp_unit(),
            b: unit_8(rgb.b).clamp_unit(),
            a: Float32 { bits: ONE_BITS },
        }
    }
}

/// Each channel as the fraction of 255 that it stands for, fully opaque.
impl From<Rgb> for RgbaF {
    fn from(rgb: Rgb) -> (c: RgbaF)
        ensures
            c.wf(),
    {
        RgbaF::new(
            unit_8(rgb.r),
            unit_8(rgb.g),
            unit_8(rgb.b),
            Float32::one(),
        )
    }
}

impl FromSpecImpl<Rgb> for RgbaF {
    open spec fn obeys_from_spec() -> bool {
        true
    }

    open spec fn from_spec(rgb: Rgb) -> RgbaF {
        RgbaF::spec_from_rgb(rgb)
    }
}

impl RgbaF {
    /// What converting a `Rgba` gives: each channel, alpha too, as the
    /// fraction of 255 that it stands for.
    pub open spec fn spec_from_rgba(rgba: Rgba) -> RgbaF {
        RgbaF {
            r: unit_8(rgba.r).clamp_unit(),
            g: unit_8(rgba.g).clamp_unit(),
            b: unit_8(rgba.b).clamp_unit(),
            a: unit_8(rgba.a).clamp_unit(),
        }
    }
}

/// Each channel, alpha too, as the fraction of 255 that it stands for.
impl From<Rgba> for RgbaF {
    fn from(rgba: Rgba) -> (c: RgbaF)
        ensures
            c.wf(),
    {
        RgbaF::new(
            unit_8(rgba.r),
            unit_8(rgba.g),
            unit_8(rgba.b),
            unit_8(rgba.a),
        )
    }
}

impl FromSpecImpl<Rgba> for RgbaF {
    open spec fn obeys_from_spec() -> bool {
        true
    }

    open spec fn from_spec(rgba: Rgba) -> RgbaF {
        RgbaF::spec_from_rgba(rgba)
    }
}

impl RgbaF {
    /// What converting a `Rgba64` gives: each channel, alpha too, as the
    /// fraction of 65535 that it stands for.
    pub open spec fn spec_from_rgba64(rgba_w: Rgba64) -> RgbaF {
        RgbaF {
            r: unit_16(rgba_w.r).clamp_unit(),
            g: unit_16(rgba_w.g).clamp_unit(),
            b: unit_16(rgba_w.b).clamp_unit(),
            a: unit_16(rgba_w.a).clamp_unit(),
        }
    }
}

/// Each channel, alpha too, as the fraction of 65535 that it stands for.
impl From<Rgba64> for RgbaF {
    fn from(rgba_w: Rgba64) -> (c: RgbaF)
        ensures
            c.wf(),
    {
        RgbaF::new(
            unit_16(rgba_w.r),
            unit_16(rgba_w.g),
            unit_16(rgba_w.b),
            unit_16(rgba_w.a),
        )
    }
}

impl FromSpecImpl<Rgba64> for RgbaF {
    open spec fn obeys_from_spec() -> bool {
        true
    }

    open spec fn from_spec(rgba_w: Rgba64) -> RgbaF {
        RgbaF::spec_from_rgba64(rgba_w)
    }
}

impl Rgb {
    /// What converting a `GrayF` gives: the gray times 255, cut down to a
    /// whole number and limited to 8 bits, in all three channels.
    pub open spec fn spec_from_grayf(gf: GrayF) -> Rgb {
        let lum = channel_8(gf.luminance);
        Rgb { r: lum, g: lum, b: lum }
    }
}

/// The gray times 255, cut down to a whole number and limited to 8 bits, in all
/// three channels.
impl From<GrayF> for Rgb {
    fn from(gf: GrayF) -> (c: Rgb) {
        let lum = channel_8(gf.luminance);
        Rgb::new(lum, lum, lum)
    }
}

impl FromSpecImpl<GrayF> for Rgb {
    open spec fn obeys_from_spec() -> bool {
        true
    }

    open spec fn from_spec(gf: GrayF) -> Rgb {
        Rgb::spec_from_grayf(gf)
    }
}

impl Rgb {
    /// What converting a `RgbF` gives: each channel limited to the range
    /// from 0 to 1, times 255, cut down to a whole number.
    pub open spec fn spec_from_rgbf(rgbf: RgbF) -> Rgb {
        Rgb {
            r: channel_8(rgbf.r.clamp_unit()),
            g: channel_8(rgbf.g.clamp_unit()),
            b: channel_8(rgbf.b.clamp_unit()),
        }
    }
}

/// Each channel limited to the range from 0 to 1, times 255, cut down to a
/// whole number.
impl From<RgbF> for Rgb {
    fn from(rgbf: RgbF) -> (c: Rgb) {
        Rgb::new(
            channel_8(rgbf.r.clamp_unit()),
            channel_8(rgbf.g.clamp_unit()),
            channel_8(rgbf.b.clamp_unit()),
        )
    }
}

impl FromSpecImpl<RgbF> for Rgb {
    open spec fn obeys_from_spec() -> bool {
        true
    }

    open spec fn from_spec(rgbf: RgbF) -> Rgb {
        Rgb::spec_from_rgbf(rgbf)
    }
}

impl Rgb {
    /// What converting a `RgbaF` gives: each color channel times 255, cut
    /// down to a whole number. Alpha is dropped.
    pub open spec fn spec_from_rgbaf(rgbaf: RgbaF) -> Rgb {
        Rgb {
            r: channel_8(rgbaf.r.clamp_unit()),
            g: channel_8(rgbaf.g.clamp_unit()),
            b: channel_8(rgbaf.b.clamp_unit()),
        }
    }
}

/// Each color channel times 255, cut down to a whole number. Alpha is dropped.
impl From<RgbaF> for Rgb {
    fn from(rgbaf: RgbaF) -> (c: Rgb) {
        Rgb::new(
            channel_8(rgbaf.r.clamp_unit()),
            channel_8(rgbaf.g.clamp_unit()),
            channel_8(rgbaf.b.clamp_unit()),
        )
    }
}

impl FromSpecImpl<RgbaF> for Rgb {
    open spec fn obeys_from_spec() -> bool {
        true
    }

    open spec fn from_spec(rgbaf: RgbaF) -> Rgb {
        Rgb::spec_from_rgbaf(rgbaf)
    }
}

impl Srgb {
    /// What converting a `SrgbF` gives: each channel limited to the range
    /// from 0 to 1, times 255, cut down to a whole number.
    pub open spec fn spec_from_srgbf(srgbf: SrgbF) -> Srgb {
        Srgb {
            r: channel_8(srgbf.r.clamp_unit()),
            g: channel_8(srgbf.g.clamp_unit()),
            b: channel_8(srgbf.b.clamp_unit()),
        }
    }
}

/// Each channel limited to the range from 0 to 1, times 255, cut down to a
/// whole number.
impl From<SrgbF> for Srgb {
    fn from(srgbf: SrgbF) -> (c: Srgb) {
        Srgb::new(
            channel_8(srgbf.r.clamp_unit()),
            channel_8(srgbf.g.clamp_unit()),
            channel_8(srgbf.b.clamp_unit()),
        )
    }
}

impl FromSpecImpl<SrgbF> for Srgb {
    open spec fn obeys_from_spec() -> bool {
        true
    }

    open spec fn from_spec(srgbf: SrgbF) -> Srgb {
        Srgb::spec_from_srgbf(srgbf)
    }
}

impl Rgb48 {
    /// What converting a `GrayF` gives: the gray times 65536, cut down to a
    /// whole number and limited to 16 bits, in all three channels.
    pub open spec fn spec_from_grayf(gf: GrayF) -> Rgb48 {
        let lum = gray_16(gf.luminance);
        Rgb48 { r: lum, g: lum, b: lum }
    }
}

/// The gray times 65536, cut down to a whole number and limited to 16 bits, in
/// all three channels.
impl From<GrayF> for Rgb48 {
    fn from(gf: GrayF) -> (c: Rgb48) {
        let lum = gray_16(gf.luminance);
        Rgb48::new(lum, lum, lum)
    }
}

impl FromSpecImpl<GrayF> for Rgb48 {
    open spec fn obeys_from_spec() -> bool {
        true
    }

    open spec fn from_spec(gf: GrayF) -> Rgb48 {
        Rgb48::spec_from_grayf(gf)
    }
}

impl Rgb48 {
    /// What converting a `RgbF` gives: each channel limited to the range
    /// from 0 to 1, times 65535, cut down to a whole number.
    pub open spec fn spec_from_rgbf(rgbf: RgbF) -> Rgb48 {
        Rgb48 {
            r: channel_16(rgbf.r.clamp_unit()),
            g: channel_16(rgbf.g.clamp_unit()),
            b: channel_16(rgbf.b.clamp_unit()),
        }
    }
}

/// Each channel limited to the range from 0 to 1, times 65535, cut down to a
/// whole number.
impl From<RgbF> for Rgb48 {
    fn from(rgbf: RgbF) -> (c: Rgb48) {
        Rgb48::new(
            channel_16(rgbf.r.clamp_unit()),
            channel_16(rgbf.g.clamp_unit()),
            channel_16(rgbf.b.clamp_unit()),
        )
    }
}

impl FromSpecImpl<RgbF> for Rgb48 {
    open spec fn obeys_from_spec() -> bool {
        true
    }

    open spec fn from_spec(rgbf: RgbF) -> Rgb48 {
        Rgb48::spec_from_rgbf(rgbf)
    }
}

impl Rgb48 {
    /// What converting a `RgbaF` gives: each color channel times 65535, cut
    /// down to a whole number. Alpha is dropped.
    pub open spec fn spec_from_rgbaf(rgbaf: RgbaF) -> Rgb48 {
        Rgb48 {
            r: channel_16(rgbaf.r),
            g: channel_16(rgbaf.g),
            b: channel_16(rgbaf.b),
        }
    }
}

/// Each color channel times 65535, cut down to a whole number. Alpha is
/// dropped.
impl From<RgbaF> for Rgb48 {
    fn from(rgbaf: RgbaF) -> (c: Rgb48) {
        Rgb48::new(
            channel_16(rgbaf.r),
            channel_16(rgbaf.g),
            channel_16(rgbaf.b),
        )
    }
}

impl FromSpecImpl<RgbaF> for Rgb48 {
    open spec fn obeys_from_spec() -> bool {
        true
    }

    open spec fn from_spec(rgbaf: RgbaF) -> Rgb48 {
        Rgb48::spec_from_rgbaf(rgbaf)
    }
}

impl Rgba {
    /// What converting a `GrayF` gives: the gray times 255, cut down to a
    /// whole number and limited to 8 bits, in all three color channels,
    /// fully opaque.
    pub open spec fn spec_from_grayf(gf: GrayF) -> Rgba {
        let lum = channel_8(gf.luminance);
        Rgba { r: lum, g: lum, b: lum, a: 255 }
    }
}

/// The gray times 255, cut down to a whole number and limited to 8 bits, in all
/// three color channels, fully opaque.
impl From<GrayF> for Rgba {
    fn from(gf: GrayF) -> (c: Rgba) {
        let lum = channel_8(gf.luminance);
        Rgba::new(lum, lum, lum, 255)
    }
}

impl FromSpecImpl<GrayF> for Rgba {
    open spec fn obeys_from_spec() -> bool {
        true
    }

    open spec fn from_spec(gf: GrayF) -> Rgba {
        Rgba::spec_from_grayf(gf)
    }
}

impl Rgba {
    /// What converting a `RgbF` gives: each channel limited to the range
    /// from 0 to 1, times 255, cut down to a whole number, fully opaque.
    pub open spec fn spec_from_rgbf(rgbf: RgbF) -> Rgba {
        Rgba {
            r: channel_8(rgbf.r.clamp_unit()),
            g: channel_8(rgbf.g.clamp_unit()),
            b: channel_8(rgbf.b.clamp_unit()),
            a: 255,
        }
    }
}

/// Each channel limited to the range from 0 to 1, times 255, cut down to a
/// whole number, fully opaque.
impl From<RgbF> for Rgba {
    fn from(rgbf: RgbF) -> (c: Rgba) {
        Rgba::new(
            channel_8(rgbf.r.clamp_unit()),
            channel_8(rgbf.g.clamp_unit()),
            channel_8(rgbf.b.clamp_unit()),
            255,
        )
    }
}

impl FromSpecImpl<RgbF> for Rgba {
    open spec fn obeys_from_spec() -> bool {
        true
    }

    open spec fn from_spec(rgbf: RgbF) -> Rgba {
        Rgba::spec_from_rgbf(rgbf)
    }
}

impl Rgba {
    /// What converting a `RgbaF` gives: each channel, alpha too, times 255,
    /// cut down to a whole number.
    pub open spec fn spec_from_rgbaf(rgbaf: RgbaF) -> Rgba {
        Rgba {
            r: channel_8(rgbaf.r),
            g: channel_8(rgbaf.g),
            b: channel_8(rgbaf.b),
            a: channel_8(rgbaf.a),
        }
    }
}

/// Each channel, alpha too, times 255, cut down to a whole number.
impl From<RgbaF> for Rgba {
    fn from(rgbaf: RgbaF) -> (c: Rgba) {
        Rgba::new(
            channel_8(rgbaf.r),
            channel_8(rgbaf.g),
            channel_8(rgbaf.b),
            channel_8(rgbaf.a),
        )
    }
}

impl FromSpecImpl<RgbaF> for Rgba {
    open spec fn obeys_from_spec() -> bool {
        true
    }

    open spec fn from_spec(rgbaf: RgbaF) -> Rgba {
        Rgba::spec_from_rgbaf(rgbaf)
    }
}

impl Rgba64 {
    /// What converting a `GrayF` gives: the gray times 65536, cut down to a
    /// whole number and limited to 16 bits, in all three color channels,
    /// fully opaque.
    pub open spec fn spec_from_grayf(gf: GrayF) -> Rgba64 {
        let lum = gray_16(gf.luminance);
        Rgba64 { r: lum, g: lum, b: lum, a: 65535 }
    }
}

/// The gray times 65536, cut down to a whole number and limited to 16 bits, in
/// all three color channels, fully opaque.
impl From<GrayF> for Rgba64 {
    fn from(gf: GrayF) -> (c: Rgba64) {
        let lum = gray_16(gf.luminance);
        Rgba64::new(lum, lum, lum, 65535)
    }
}

impl FromSpecImpl<GrayF> for Rgba64 {
    open spec fn obeys_from_spec() -> bool {
        true
    }

    open spec fn from_spec(gf: GrayF) -> Rgba64 {
        Rgba64::spec_from_grayf(gf)
    }
}

impl Rgba64 {
    /// What converting a `RgbF` gives: each channel limited to the range
    /// from 0 to 1, times 65535, cut down to a whole number, fully opaque.
    pub open spec fn spec_from_rgbf(rgbf: RgbF) -> Rgba64 {
        Rgba64 {
            r: channel_16(rgbf.r.clamp_unit()),
            g: channel_16(rgbf.g.clamp_unit()),
            b: channel_16(rgbf.b.clamp_unit()),
            a: 65535,
        }
    }
}

/// Each channel limited to the range from 0 to 1, times 65535, cut down to a
/// whole number, fully opaque.
impl From<RgbF> for Rgba64 {
    fn from(rgbf: RgbF) -> (c: Rgba64) {
        Rgba64::new(
            channel_16(rgbf.r.clamp_unit()),
            channel_16(rgbf.g.clamp_unit()),
            channel_16(rgbf.b.clamp_unit()),
            65535,
        )
    }
}

impl FromSpecImpl<RgbF> for Rgba64 {
    open spec fn obeys_from_spec() -> bool {
        true
    }

    open spec fn from_spec(rgbf: RgbF) -> Rgba64 {
        Rgba64::spec_from_rgbf(rgbf)
    }
}

impl Rgba64 {
    /// What converting a `RgbaF` gives: each channel, alpha too, times
    /// 65535, cut down to a whole number.
    pub open spec fn spec_from_rgbaf(rgbaf: RgbaF) -> Rgba64 {
        Rgba64 {
            r: channel_16(rgbaf.r),
            g: channel_16(rgbaf.g),
            b: channel_16(rgbaf.b),
            a: channel_16(rgbaf.a),
        }
    }
}

/// Each channel, alpha too, times 65535, cut down to a whole number.
impl From<RgbaF> for Rgba64 {
    fn from(rgbaf: RgbaF) -> (c: Rgba64) {
        Rgba64::new(
            channel_16(rgbaf.r),
            channel_16(rgbaf.g),
            channel_16(rgbaf.b),
            channel_16(rgbaf.a),
        )
    }
}

impl FromSpecImpl<RgbaF> for Rgba64 {
    open spec fn obeys_from_spec() -> bool {
        true
    }

    open spec fn from_spec(rgbaf: RgbaF) -> Rgba64 {
        Rgba64::spec_from_rgbaf(rgbaf)
    }
}

impl RgbF {
    /// What converting a `Hsv` gives: linear red, green and blue of the
    /// hue, saturation and value.
    pub open spec fn spec_from_hsv(hsv: Hsv) -> RgbF {
        hsv_to_linear(hsv)
    }
}

/// Linear red, green and blue of the hue, saturation and value.
impl From<Hsv> for RgbF {
    fn from(hsv: Hsv) -> (c: RgbF) {
        hsv_to_linear(hsv)
    }
}

impl FromSpecImpl<Hsv> for RgbF {
    open spec fn obeys_from_spec() -> bool {
        true
    }

    open spec fn from_spec(hsv: Hsv) -> RgbF {
        RgbF::spec_from_hsv(hsv)
    }
}

impl RgbF {
    /// What converting a `Hsl` gives: linear red, green and blue of the
    /// hue, saturation and lightness.
    pub open spec fn spec_from_hsl(hsl: Hsl) -> RgbF {
        hsl_to_linear(hsl)
    }
}

/// Linear red, green and blue of the hue, saturation and lightness.
impl From<Hsl> for RgbF {
    fn from(hsl: Hsl) -> (c: RgbF) {
        hsl_to_linear(hsl)
    }
}

impl FromSpecImpl<Hsl> for RgbF {
    open spec fn obeys_from_spec() -> bool {
        true
    }

    open spec fn from_spec(hsl: Hsl) -> RgbF {
        RgbF::spec_from_hsl(hsl)
    }
}

impl RgbF {
    /// What converting a `CieXyz` gives: linear red, green and blue of the
    /// value, which is first taken to the D65 white; not limited to the
    /// range from 0 to 1.
    pub open spec fn spec_from_cie_xyz(xyz: CieXyz) -> RgbF {
        xyz.to_linear()
    }
}

/// Linear red, green and blue of the value, which is first taken to the D65
/// white; not limited to the range from 0 to 1.
impl From<CieXyz> for RgbF {
    fn from(xyz: CieXyz) -> (c: RgbF) {
        xyz.to_linear()
    }
}

impl FromSpecImpl<CieXyz> for RgbF {
    open spec fn obeys_from_spec() -> bool {
        true
    }

    open spec fn from_spec(xyz: CieXyz) -> RgbF {
        RgbF::spec_from_cie_xyz(xyz)
    }
}

impl Rgb {
    /// What converting a `Hsv` gives: linear red, green and blue of the
    /// hue, saturation and value, each times 255, cut down to a whole
    /// number.
    pub open spec fn spec_from_hsv(hsv: Hsv) -> Rgb {
        rgb_8(hsv_to_linear(hsv))
    }
}

/// Linear red, green and blue of the hue, saturation and value, each times 255,
/// cut down to a whole number.
impl From<Hsv> for Rgb {
    fn from(hsv: Hsv) -> (c: Rgb) {
        rgb_8(hsv_to_linear(hsv))
    }
}

impl FromSpecImpl<Hsv> for Rgb {
    open spec fn obeys_from_spec() -> bool {
        true
    }

    open spec fn from_spec(hsv: Hsv) -> Rgb {
        Rgb::spec_from_hsv(hsv)
    }
}

impl Rgb {
    /// What converting a `Hsl` gives: linear red, green and blue of the
    /// hue, saturation and lightness, each times 255, cut down to a whole
    /// number.
    pub open spec fn spec_from_hsl(hsl: Hsl) -> Rgb {
        rgb_8(hsl_to_linear(hsl))
    }
}

/// Linear red, green and blue of the hue, saturation and lightness, each times
/// 255, cut down to a whole number.
impl From<Hsl> for Rgb {
    fn from(hsl: Hsl) -> (c: Rgb) {
        rgb_8(hsl_to_linear(hsl))
    }
}

impl FromSpecImpl<Hsl> for Rgb {
    open spec fn obeys_from_spec() -> bool {
        true
    }

    open spec fn from_spec(hsl: Hsl) -> Rgb {
        Rgb::spec_from_hsl(hsl)
    }
}

impl Rgb {
    /// What converting a `CieXyz` gives: linear red, green and blue of the
    /// value, each limited to the range from 0 to 1, times 255, cut down to
    /// a whole number.
    pub open spec fn spec_from_cie_xyz(xyz: CieXyz) -> Rgb {
        rgb_8(clamped(xyz.to_linear()))
    }
}

/// Linear red, green and blue of the value, each limited to the range from 0 to
/// 1, times 255, cut down to a whole number.
impl From<CieXyz> for Rgb {
    fn from(xyz: CieXyz) -> (c: Rgb) {
        rgb_8(clamped(xyz.to_linear()))
    }
}

impl FromSpecImpl<CieXyz> for Rgb {
    open spec fn obeys_from_spec() -> bool {
        true
    }

    open spec fn from_spec(xyz: CieXyz) -> Rgb {
        Rgb::spec_from_cie_xyz(xyz)
    }
}

impl Srgb {
    /// The gray, taken from linear to gamma-encoded, times 255, cut
    /// down to a whole number, in all three channels.
    pub open spec fn spec_from_grayf<K: Fn(MathCall) -> Float32>(gf: GrayF, kernel: &K) -> Srgb {
        srgb_8(gray_encoded(gamma_compress(gf.luminance, kernel)))
    }

    /// The gray, taken from linear to gamma-encoded, times 255, cut
    /// down to a whole number, in all three channels.
    #[verifier::when_used_as_spec(spec_from_grayf)]
    pub fn from_grayf<K: Fn(MathCall) -> Float32>(gf: GrayF, kernel: &K) -> (c: Srgb)
        requires
            is_function(*kernel),
        ensures
            c == Srgb::spec_from_grayf(gf, kernel),
    {
        srgb_8(gray_encoded(gamma_compress(gf.luminance, kernel)))
    }
}

impl SrgbF {
    /// The gray, taken from linear to gamma-encoded, in all three
    /// channels.
    pub open spec fn spec_from_grayf<K: Fn(MathCall) -> Float32>(gf: GrayF, kernel: &K) -> SrgbF {
        gray_encoded(gamma_compress(gf.luminance, kernel))
    }

    /// The gray, taken from linear to gamma-encoded, in all three
    /// channels.
    #[verifier::when_used_as_spec(spec_from_grayf)]
    pub fn from_grayf<K: Fn(MathCall) -> Float32>(gf: GrayF, kernel: &K) -> (c: SrgbF)
        requires
            is_function(*kernel),
        ensures
            c == SrgbF::spec_from_grayf(gf, kernel),
    {
        gray_encoded(gamma_compress(gf.luminance, kernel))
    }
}

impl Srgb {
    /// Each channel limited to the range from 0 to 1, taken from linear
    /// to gamma-encoded, times 255, cut down to a whole number.
    pub open spec fn spec_from_rgbf<K: Fn(MathCall) -> Float32>(rgbf: RgbF, kernel: &K) -> Srgb {
        srgb_8(compressed(clamped(rgbf), kernel))
    }

    /// Each channel limited to the range from 0 to 1, taken from linear
    /// to gamma-encoded, times 255, cut down to a whole number.
    #[verifier::when_used_as_spec(spec_from_rgbf)]
    pub fn from_rgbf<K: Fn(MathCall) -> Float32>(rgbf: RgbF, kernel: &K) -> (c: Srgb)
        requires
            is_function(*kernel),
        ensures
            c == Srgb::spec_from_rgbf(rgbf, kernel),
    {
        srgb_8(compressed(clamped(rgbf), kernel))
    }
}

impl Srgb {
    /// Each color channel taken from linear to gamma-encoded, times
    /// 255, cut down to a whole number. Alpha is dropped.
    pub open spec fn spec_from_rgbaf<K: Fn(MathCall) -> Float32>(
        rgbaf: RgbaF,
        kernel: &K,
    ) -> Srgb {
        srgb_8(compressed(RgbF::spec_from_rgbaf(rgbaf), kernel))
    }

    /// Each color channel taken from linear to gamma-encoded, times
    /// 255, cut down to a whole number. Alpha is dropped.
    #[verifier::when_used_as_spec(spec_from_rgbaf)]
    pub fn from_rgbaf<K: Fn(MathCall) -> Float32>(rgbaf: RgbaF, kernel: &K) -> (c: Srgb)
        requires
            is_function(*kernel),
        ensures
            c == Srgb::spec_from_rgbaf(rgbaf, kernel),
    {
        srgb_8(compressed(RgbF::from(rgbaf), kernel))
    }
}

impl Srgb {
    /// Linear red, green and blue of the hue, saturation and value,
    /// each limited to the range from 0 to 1, taken to gamma-encoded,
    /// times 255, cut down to a whole number.
    pub open spec fn spec_from_hsv<K: Fn(MathCall) -> Float32>(hsv: Hsv, kernel: &K) -> Srgb {
        srgb_8(compressed(clamped(hsv_to_linear(hsv)), kernel))
    }

    /// Linear red, green and blue of the hue, saturation and value,
    /// each limited to the range from 0 to 1, taken to gamma-encoded,
    /// times 255, cut down to a whole number.
    #[verifier::when_used_as_spec(spec_from_hsv)]
    pub fn from_hsv<K: Fn(MathCall) -> Float32>(hsv: Hsv, kernel: &K) -> (c: Srgb)
        requires
            is_function(*kernel),
        ensures
            c == Srgb::spec_from_hsv(hsv, kernel),
    {
        srgb_8(compressed(clamped(hsv_to_linear(hsv)), kernel))
    }
}

impl Srgb {
    /// Linear red, green and blue of the hue, saturation and lightness,
    /// each limited to the range from 0 to 1, taken to gamma-encoded,
    /// times 255, cut down to a whole number.
    pub open spec fn spec_from_hsl<K: Fn(MathCall) -> Float32>(hsl: Hsl, kernel: &K) -> Srgb {
        srgb_8(compressed(clamped(hsl_to_linear(hsl)), kernel))
    }

    /// Linear red, green and blue of the hue, saturation and lightness,
    /// each limited to the range from 0 to 1, taken to gamma-encoded,
    /// times 255, cut down to a whole number.
    #[verifier::when_used_as_spec(spec_from_hsl)]
    pub fn from_hsl<K: Fn(MathCall) -> Float32>(hsl: Hsl, kernel: &K) -> (c: Srgb)
        requires
            is_function(*kernel),
        ensures
            c == Srgb::spec_from_hsl(hsl, kernel),
    {
        srgb_8(compressed(clamped(hsl_to_linear(hsl)), kernel))
    }
}

impl Srgb {
    /// Linear red, green and blue of the value, each taken to
    /// gamma-encoded, limited to the range from 0 to 1, times 255, cut
    /// down to a whole number.
    pub open spec fn spec_from_cie_xyz<K: Fn(MathCall) -> Float32>(
        xyz: CieXyz,
        kernel: &K,
    ) -> Srgb {
        srgb_8(clamped_encoded(compressed(xyz.to_linear(), kernel)))
    }

    /// Linear red, green and blue of the value, each taken to
    /// gamma-encoded, limited to the range from 0 to 1, times 255, cut
    /// down to a whole number.
    #[verifier::when_used_as_spec(spec_from_cie_xyz)]
    pub fn from_cie_xyz<K: Fn(MathCall) -> Float32>(xyz: CieXyz, kernel: &K) -> (c: Srgb)
        requires
            is_function(*kernel),
        ensures
            c == Srgb::spec_from_cie_xyz(xyz, kernel),
    {
        srgb_8(clamped_encoded(compressed(xyz.to_linear(), kernel)))
    }
}

impl SrgbF {
    /// Each channel, as a fraction of 255, taken from linear to
    /// gamma-encoded.
    pub open spec fn spec_from_rgb<K: Fn(MathCall) -> Float32>(rgb: Rgb, kernel: &K) -> SrgbF {
        compressed(RgbF::spec_from_rgb(rgb), kernel)
    }

    /// Each channel, as a fraction of 255, taken from linear to
    /// gamma-encoded.
    #[verifier::when_used_as_spec(spec_from_rgb)]
    pub fn from_rgb<K: Fn(MathCall) -> Float32>(rgb: Rgb, kernel: &K) -> (c: SrgbF)
        requires
            is_function(*kernel),
        ensures
            c == SrgbF::spec_from_rgb(rgb, kernel),
    {
        compressed(RgbF::from(rgb), kernel)
    }
}

impl SrgbF {
    /// Each channel taken from linear to gamma-encoded.
    pub open spec fn spec_from_rgbf<K: Fn(MathCall) -> Float32>(rgbf: RgbF, kernel: &K) -> SrgbF {
        compressed(rgbf, kernel)
    }

    /// Each channel taken from linear to gamma-encoded.
    #[verifier::when_used_as_spec(spec_from_rgbf)]
    pub fn from_rgbf<K: Fn(MathCall) -> Float32>(rgbf: RgbF, kernel: &K) -> (c: SrgbF)
        requires
            is_function(*kernel),
        ensures
            c == SrgbF::spec_from_rgbf(rgbf, kernel),
    {
        compressed(rgbf, kernel)
    }
}

impl SrgbF {
    /// Each color channel taken from linear to gamma-encoded. Alpha is
    /// dropped.
    pub open spec fn spec_from_rgbaf<K: Fn(MathCall) -> Float32>(
        rgbaf: RgbaF,
        kernel: &K,
    ) -> SrgbF {
        compressed(RgbF::spec_from_rgbaf(rgbaf), kernel)
    }

    /// Each color channel taken from linear to gamma-encoded. Alpha is
    /// dropped.
    #[verifier::when_used_as_spec(spec_from_rgbaf)]
    pub fn from_rgbaf<K: Fn(MathCall) -> Float32>(rgbaf: RgbaF, kernel: &K) -> (c: SrgbF)
        requires
            is_function(*kernel),
        ensures
            c == SrgbF::spec_from_rgbaf(rgbaf, kernel),
    {
        compressed(RgbF::from(rgbaf), kernel)
    }
}

impl SrgbF {
    /// Linear red, green and blue of the hue, saturation and value,
    /// each taken to gamma-encoded.
    pub open spec fn spec_from_hsv<K: Fn(MathCall) -> Float32>(hsv: Hsv, kernel: &K) -> SrgbF {
        compressed(hsv_to_linear(hsv), kernel)
    }

    /// Linear red, green and blue of the hue, saturation and value,
    /// each taken to gamma-encoded.
    #[verifier::when_used_as_spec(spec_from_hsv)]
    pub fn from_hsv<K: Fn(MathCall) -> Float32>(hsv: Hsv, kernel: &K) -> (c: SrgbF)
        requires
            is_function(*kernel),
        ensures
            c == SrgbF::spec_from_hsv(hsv, kernel),
    {
        compressed(hsv_to_linear(hsv), kernel)
    }
}

impl SrgbF {
    /// Linear red, green and blue of the hue, saturation and lightness,
    /// each taken to gamma-encoded.
    pub open spec fn spec_from_hsl<K: Fn(MathCall) -> Float32>(hsl: Hsl, kernel: &K) -> SrgbF {
        compressed(hsl_to_linear(hsl), kernel)
    }

    /// Linear red, green and blue of the hue, saturation and lightness,
    /// each taken to gamma-encoded.
    #[verifier::when_used_as_spec(spec_from_hsl)]
    pub fn from_hsl<K: Fn(MathCall) -> Float32>(hsl: Hsl, kernel: &K) -> (c: SrgbF)
        requires
            is_function(*kernel),
        ensures
            c == SrgbF::spec_from_hsl(hsl, kernel),
    {
        compressed(hsl_to_linear(hsl), kernel)
    }
}

impl SrgbF {
    /// Linear red, green and blue of the value, each taken to
    /// gamma-encoded.
    pub open spec fn spec_from_cie_xyz<K: Fn(MathCall) -> Float32>(
        xyz: CieXyz,
        kernel: &K,
    ) -> SrgbF {
        compressed(xyz.to_linear(), kernel)
    }

    /// Linear red, green and blue of the value, each taken to
    /// gamma-encoded.
    #[verifier::when_used_as_spec(spec_from_cie_xyz)]
    pub fn from_cie_xyz<K: Fn(MathCall) -> Float32>(xyz: CieXyz, kernel: &K) -> (c: SrgbF)
        requires
            is_function(*kernel),
        ensures
            c == SrgbF::spec_from_cie_xyz(xyz, kernel),
    {
        compressed(xyz.to_linear(), kernel)
    }
}

impl RgbF {
    /// Each channel, as a fraction of 255, taken from gamma-encoded to
    /// linear.
    pub open spec fn spec_from_srgb<K: Fn(MathCall) -> Float32>(srgb: Srgb, kernel: &K) -> RgbF {
        expanded(SrgbF::spec_from_srgb(srgb), kernel)
    }

    /// Each channel, as a fraction of 255, taken from gamma-encoded to
    /// linear.
    #[verifier::when_used_as_spec(spec_from_srgb)]
    pub fn from_srgb<K: Fn(MathCall) -> Float32>(srgb: Srgb, kernel: &K) -> (c: RgbF)
        requires
            is_function(*kernel),
        ensures
            c == RgbF::spec_from_srgb(srgb, kernel),
    {
        expanded(SrgbF::from(srgb), kernel)
    }
}

impl RgbF {
    /// Each channel taken from gamma-encoded to linear.
    pub open spec fn spec_from_srgbf<K: Fn(MathCall) -> Float32>(
        srgbf: SrgbF,
        kernel: &K,
    ) -> RgbF {
        expanded(srgbf, kernel)
    }

    /// Each channel taken from gamma-encoded to linear.
    #[verifier::when_used_as_spec(spec_from_srgbf)]
    pub fn from_srgbf<K: Fn(MathCall) -> Float32>(srgbf: SrgbF, kernel: &K) -> (c: RgbF)
        requires
            is_function(*kernel),
        ensures
            c == RgbF::spec_from_srgbf(srgbf, kernel),
    {
        expanded(srgbf, kernel)
    }
}

impl Rgb {
    /// Each channel limited to the range from 0 to 1, taken from
    /// gamma-encoded to linear, times 255, cut down to a whole number.
    pub open spec fn spec_from_srgbf<K: Fn(MathCall) -> Float32>(
        srgbf: SrgbF,
        kernel: &K,
    ) -> Rgb {
        rgb_8(expanded(clamped_encoded(srgbf), kernel))
    }

    /// Each channel limited to the range from 0 to 1, taken from
    /// gamma-encoded to linear, times 255, cut down to a whole number.
    #[verifier::when_used_as_spec(spec_from_srgbf)]
    pub fn from_srgbf<K: Fn(MathCall) -> Float32>(srgbf: SrgbF, kernel: &K) -> (c: Rgb)
        requires
            is_function(*kernel),
        ensures
            c == Rgb::spec_from_srgbf(srgbf, kernel),
    {
        rgb_8(expanded(clamped_encoded(srgbf), kernel))
    }
}

} // verus!
