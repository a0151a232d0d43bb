//! Grayscale formats: linear luminance in one channel.

use crate::byte_order::{
    lemma_u16_roundtrip, lemma_u32_roundtrip, push_u16, push_u32, read_u16, read_u32, u16_bytes,
    u16_of_bytes, u32_bytes, u32_of_bytes, ByteOrder,
};
use crate::color::channel::{
    gray16_from_rgb8, gray_from_rgb, narrow, spec_gray16_from_rgb8, spec_gray_from_rgb,
    spec_narrow, spec_widen, widen,
};
use crate::color::format::{
    make_length_error, ColorFormat, ColorFormatName, DecodeError,
};
use crate::color::cie::{CieLab, CieXyz};
use crate::color::kernel::{is_function, MathCall};
use crate::color::luminance::{luminance, luminance_of_16_bit, luminance_of_8_bit};
use crate::color::quantize::{channel_16, channel_8, unit_16, unit_8};
use crate::color::rgb::{Rgb, Rgb48, RgbF, Rgba, Rgba64, RgbaF, Srgb, SrgbF};
use crate::color::transfer::expanded;
use crate::float32::Float32;
use vstd::std_specs::convert::FromSpecImpl;
use vstd::prelude::*;

verus! {

/// Linear luminance in 8 bits.
#[derive(Copy, Clone, Default, Debug, PartialEq, Eq, Structural)]
pub struct Gray8 {
    pub luminance: u8,
}

impl Gray8 {
    pub fn new(intensity: u8) -> (g: Gray8)
        ensures
            g.luminance == intensity,
    {
        Gray8 { luminance: intensity }
    }
}

impl ColorFormat for Gray8 {
    open spec fn name() -> ColorFormatName {
        ColorFormatName::Gray8
    }

    open spec fn wf(&self) -> bool {
        true
    }

    open spec fn encoding(&self, order: ByteOrder) -> Seq<u8> {
        seq![self.luminance]
    }

    open spec fn decoding(bytes: Seq<u8>, order: ByteOrder) -> Gray8 {
        Gray8 { luminance: bytes[0] }
    }

    proof fn lemma_roundtrip(v: Gray8, order: ByteOrder) {
    }

    proof fn lemma_decoding_wf(bytes: Seq<u8>, order: ByteOrder) {
    }

    fn format_name() -> ColorFormatName {
        ColorFormatName::Gray8
    }

    fn to_bytes_in(&self, order: ByteOrder) -> (bytes: Vec<u8>) {
        let mut bytes: Vec<u8> = Vec::new();
        bytes.push(self.luminance);
        assert(bytes@ =~= self.encoding(order));
        bytes
    }

    fn from_bytes_in(bytes: &[u8], order: ByteOrder) -> (r: Result<Gray8, DecodeError>) {
        if bytes.len() == 1 {
            Ok(Gray8 { luminance: bytes[0] })
        } else {
            Err(make_length_error(ColorFormatName::Gray8, bytes.len()))
        }
    }
}

/// Linear luminance in 16 bits.
#[derive(Copy, Clone, Default, Debug, PartialEq, Eq, Structural)]
pub struct Gray16 {
    pub luminance: u16,
}

impl Gray16 {
    pub fn new(intensity: u16) -> (g: Gray16)
        ensures
            g.luminance == intensity,
    {
        Gray16 { luminance: intensity }
    }
}

impl ColorFormat for Gray16 {
    open spec fn name() -> ColorFormatName {
        ColorFormatName::Gray16
    }

    open spec fn wf(&self) -> bool {
        true
    }

    open spec fn encoding(&self, order: ByteOrder) -> Seq<u8> {
        u16_bytes(self.luminance, order)
    }

    open spec fn decoding(bytes: Seq<u8>, order: ByteOrder) -> Gray16 {
        Gray16 { luminance: u16_of_bytes(bytes[0], bytes[1], order) }
    }

    proof fn lemma_roundtrip(v: Gray16, order: ByteOrder) {
        lemma_u16_roundtrip(v.luminance, order);
    }

    proof fn lemma_decoding_wf(bytes: Seq<u8>, order: ByteOrder) {
    }

    fn format_name() -> ColorFormatName {
        ColorFormatName::Gray16
    }

    fn to_bytes_in(&self, order: ByteOrder) -> (bytes: Vec<u8>) {
        let mut bytes: Vec<u8> = Vec::new();
        push_u16(&mut bytes, self.luminance, order);
        assert(bytes@ =~= self.encoding(order));
        bytes
    }

    fn from_bytes_in(bytes: &[u8], order: ByteOrder) -> (r: Result<Gray16, DecodeError>) {
        if bytes.len() == 2 {
            Ok(Gray16 { luminance: read_u16(bytes, 0, order) })
        } else {
            Err(make_length_error(ColorFormatName::Gray16, bytes.len()))
        }
    }
}

/// Linear luminance as a single-precision value, nominally from 0 to 1.
#[derive(Copy, Clone, Default, Debug, PartialEq, Eq, Structural)]
pub struct GrayF {
    pub luminance: Float32,
}

impl GrayF {
    pub fn new(intensity: Float32) -> (c: GrayF)
        ensures
            c.luminance == intensity,
    {
        GrayF { luminance: intensity }
    }
}

impl ColorFormat for GrayF {
    open spec fn name() -> ColorFormatName {
        ColorFormatName::Grayf
    }

    open spec fn wf(&self) -> bool {
        true
    }

    open spec fn encoding(&self, order: ByteOrder) -> Seq<u8> {
        u32_bytes(self.luminance.bits, order)
    }

    open spec fn decoding(bytes: Seq<u8>, order: ByteOrder) -> GrayF {
        GrayF {
            luminance: Float32 { bits: u32_of_bytes(bytes[0], bytes[1], bytes[2], bytes[3], order) },
        }
    }

    proof fn lemma_roundtrip(v: GrayF, order: ByteOrder) {
        lemma_u32_roundtrip(v.luminance.bits, order);
        let bytes = v.encoding(order);
        assert(bytes[0] == u32_bytes(v.luminance.bits, order)[0]);
        assert(bytes[1] == u32_bytes(v.luminance.bits, order)[1]);
        assert(bytes[2] == u32_bytes(v.luminance.bits, order)[2]);
        assert(bytes[3] == u32_bytes(v.luminance.bits, order)[3]);
    }

    proof fn lemma_decoding_wf(bytes: Seq<u8>, order: ByteOrder) {
    }

    fn format_name() -> ColorFormatName {
        ColorFormatName::Grayf
    }

    fn to_bytes_in(&self, order: ByteOrder) -> (bytes: Vec<u8>) {
        let mut bytes: Vec<u8> = Vec::new();
        push_u32(&mut bytes, self.luminance.bits, order);
        assert(bytes@ =~= self.encoding(order));
        bytes
    }

    fn from_bytes_in(bytes: &[u8], order: ByteOrder) -> (r: Result<GrayF, DecodeError>) {
        if bytes.len() == 4 {
            Ok(GrayF {
                luminance: Float32::from_bits(read_u32(bytes, 0, order)),
            })
        } else {
            Err(make_length_error(ColorFormatName::Grayf, bytes.len()))
        }
    }
}


impl Gray8 {
    /// What converting a `Gray16` gives: the luminance rescaled to 8 bits.
    pub open spec fn spec_from_gray16(g16: Gray16) -> Gray8 {
        Gray8 { luminance: spec_narrow(g16.luminance) }
    }
}

/// The luminance rescaled to 8 bits.
impl From<Gray16> for Gray8 {
    fn from(g16: Gray16) -> (c: Gray8) {
        Gray8::new(narrow(g16.luminance))
    }
}

impl FromSpecImpl<Gray16> for Gray8 {
    open spec fn obeys_from_spec() -> bool {
        true
    }

    open spec fn from_spec(g16: Gray16) -> Gray8 {
        Gray8::spec_from_gray16(g16)
    }
}

impl Gray8 {
    /// What converting a `Rgb` gives: the luminance of the three color
    /// channels.
    pub open spec fn spec_from_rgb(rgb: Rgb) -> Gray8 {
        Gray8 { luminance: spec_gray_from_rgb(rgb.r as int, rgb.g as int, rgb.b as int) as u8 }
    }
}

/// The luminance of the three color channels.
impl From<Rgb> for Gray8 {
    fn from(rgb: Rgb) -> (c: Gray8) {
        Gray8::new(gray_from_rgb(rgb.r as u16, rgb.g as u16, rgb.b as u16) as u8)
    }
}

impl FromSpecImpl<Rgb> for Gray8 {
    open spec fn obeys_from_spec() -> bool {
        true
    }

    open spec fn from_spec(rgb: Rgb) -> Gray8 {
        Gray8::spec_from_rgb(rgb)
    }
}

impl Gray8 {
    /// What converting a `Rgba` gives: the luminance of the three color
    /// channels. Alpha is dropped.
    pub open spec fn spec_from_rgba(rgba: Rgba) -> Gray8 {
        Gray8 { luminance: spec_gray_from_rgb(rgba.r as int, rgba.g as int, rgba.b as int) as u8 }
    }
}

/// The luminance of the three color channels. Alpha is dropped.
impl From<Rgba> for Gray8 {
    fn from(rgba: Rgba) -> (c: Gray8) {
        Gray8::new(gray_from_rgb(rgba.r as u16, rgba.g as u16, rgba.b as u16) as u8)
    }
}

impl FromSpecImpl<Rgba> for Gray8 {
    open spec fn obeys_from_spec() -> bool {
        true
    }

    open spec fn from_spec(rgba: Rgba) -> Gray8 {
        Gray8::spec_from_rgba(rgba)
    }
}

impl Gray16 {
    /// What converting a `Gray8` gives: the luminance rescaled to 16 bits.
    pub open spec fn spec_from_gray8(g8: Gray8) -> Gray16 {
        Gray16 { luminance: spec_widen(g8.luminance) }
    }
}

/// The luminance rescaled to 16 bits.
impl From<Gray8> for Gray16 {
    fn from(g8: Gray8) -> (c: Gray16) {
        Gray16::new(widen(g8.luminance))
    }
}

impl FromSpecImpl<Gray8> for Gray16 {
    open spec fn obeys_from_spec() -> bool {
        true
    }

    open spec fn from_spec(g8: Gray8) -> Gray16 {
        Gray16::spec_from_gray8(g8)
    }
}

impl Gray16 {
    /// What converting a `Rgb` gives: the luminance of the three color
    /// channels, rescaled to 16 bits.
    pub open spec fn spec_from_rgb(rgb: Rgb) -> Gray16 {
        Gray16 {
            luminance: spec_gray16_from_rgb8(rgb.r as int, rgb.g as int, rgb.b as int) as u16,
        }
    }
}

/// The luminance of the three color channels, rescaled to 16 bits.
impl From<Rgb> for Gray16 {
    fn from(rgb: Rgb) -> (c: Gray16) {
        Gray16::new(gray16_from_rgb8(rgb.r, rgb.g, rgb.b))
    }
}

impl FromSpecImpl<Rgb> for Gray16 {
    open spec fn obeys_from_spec() -> bool {
        true
    }

    open spec fn from_spec(rgb: Rgb) -> Gray16 {
        Gray16::spec_from_rgb(rgb)
    }
}

impl Gray16 {
    /// What converting a `Rgba` gives: the luminance of the three color
    /// channels, rescaled to 16 bits. Alpha is dropped.
    pub open spec fn spec_from_rgba(rgba: Rgba) -> Gray16 {
        Gray16 {
            luminance: spec_gray16_from_rgb8(rgba.r as int, rgba.g as int, rgba.b as int) as u16,
        }
    }
}

/// The luminance of the three color channels, rescaled to 16 bits. Alpha is
/// dropped.
impl From<Rgba> for Gray16 {
    fn from(rgba: Rgba) -> (c: Gray16) {
        Gray16::new(gray16_from_rgb8(rgba.r, rgba.g, rgba.b))
    }
}

impl FromSpecImpl<Rgba> for Gray16 {
    open spec fn obeys_from_spec() -> bool {
        true
    }

    open spec fn from_spec(rgba: Rgba) -> Gray16 {
        Gray16::spec_from_rgba(rgba)
    }
}

impl Gray16 {
    /// What converting a `Rgb48` gives: the luminance of the three color
    /// channels.
    pub open spec fn spec_from_rgb48(rgb_w: Rgb48) -> Gray16 {
        Gray16 {
            luminance: spec_gray_from_rgb(rgb_w.r as int, rgb_w.g as int, rgb_w.b as int) as u16,
        }
    }
}

/// The luminance of the three color channels.
impl From<Rgb48> for Gray16 {
    fn from(rgb_w: Rgb48) -> (c: Gray16) {
        Gray16::new(gray_from_rgb(rgb_w.r, rgb_w.g, rgb_w.b))
    }
}

impl FromSpecImpl<Rgb48> for Gray16 {
    open spec fn obeys_from_spec() -> bool {
        true
    }

    open spec fn from_spec(rgb_w: Rgb48) -> Gray16 {
        Gray16::spec_from_rgb48(rgb_w)
    }
}

impl Gray16 {
    /// What converting a `Rgba64` gives: the luminance of the three color
    /// channels. Alpha is dropped.
    pub open spec fn spec_from_rgba64(rgba_w: Rgba64) -> Gray16 {
        Gray16 {
            luminance: spec_gray_from_rgb(rgba_w.r as int, rgba_w.g as int, rgba_w.b as int) as u16,
        }
    }
}

/// The luminance of the three color channels. Alpha is dropped.
impl From<Rgba64> for Gray16 {
    fn from(rgba_w: Rgba64) -> (c: Gray16) {
        Gray16::new(gray_from_rgb(rgba_w.r, rgba_w.g, rgba_w.b))
    }
}

impl FromSpecImpl<Rgba64> for Gray16 {
    open spec fn obeys_from_spec() -> bool {
        true
    }

    open spec fn from_spec(rgba_w: Rgba64) -> Gray16 {
        Gray16::spec_from_rgba64(rgba_w)
    }
}

impl GrayF {
    /// What converting a `Gray8` gives: the luminance as the fraction of
    /// 255 that it stands for.
    pub open spec fn spec_from_gray8(g8: Gray8) -> GrayF {
        GrayF { luminance: unit_8(g8.luminance) }
    }
}

/// The luminance as the fraction of 255 that it stands for.
impl From<Gray8> for GrayF {
    fn from(g8: Gray8) -> (c: GrayF) {
        GrayF::new(unit_8(g8.luminance))
    }
}

impl FromSpecImpl<Gray8> for GrayF {
    open spec fn obeys_from_spec() -> bool {
        true
    }

    open spec fn from_spec(g8: Gray8) -> GrayF {
        GrayF::spec_from_gray8(g8)
    }
}

impl GrayF {
    /// What converting a `Gray16` gives: the luminance as the fraction of
    /// 65535 that it stands for.
    pub open spec fn spec_from_gray16(g16: Gray16) -> GrayF {
        GrayF { luminance: unit_16(g16.luminance) }
    }
}

/// The luminance as the fraction of 65535 that it stands for.
impl From<Gray16> for GrayF {
    fn from(g16: Gray16) -> (c: GrayF) {
        GrayF::new(unit_16(g16.luminance))
    }
}

impl FromSpecImpl<Gray16> for GrayF {
    open spec fn obeys_from_spec() -> bool {
        true
    }

    open spec fn from_spec(g16: Gray16) -> GrayF {
        GrayF::spec_from_gray16(g16)
    }
}

impl Gray8 {
    /// What converting a `GrayF` gives: the luminance times 255, cut down
    /// to a whole number and limited to 8 bits.
    pub open spec fn spec_from_grayf(gf: GrayF) -> Gray8 {
        Gray8 { luminance: channel_8(gf.luminance) }
    }
}

/// The luminance times 255, cut down to a whole number and limited to 8 bits.
impl From<GrayF> for Gray8 {
    fn from(gf: GrayF) -> (c: Gray8) {
        Gray8::new(channel_8(gf.luminance))
    }
}

impl FromSpecImpl<GrayF> for Gray8 {
    open spec fn obeys_from_spec() -> bool {
        true
    }

    open spec fn from_spec(gf: GrayF) -> Gray8 {
        Gray8::spec_from_grayf(gf)
    }
}

impl Gray16 {
    /// What converting a `GrayF` gives: the luminance times 65535, cut down
    /// to a whole number and limited to 16 bits.
    pub open spec fn spec_from_grayf(gf: GrayF) -> Gray16 {
        Gray16 { luminance: channel_16(gf.luminance) }
    }
}

/// The luminance times 65535, cut down to a whole number and limited to 16
/// bits.
impl From<GrayF> for Gray16 {
    fn from(gf: GrayF) -> (c: Gray16) {
        Gray16::new(channel_16(gf.luminance))
    }
}

impl FromSpecImpl<GrayF> for Gray16 {
    open spec fn obeys_from_spec() -> bool {
        true
    }

    open spec fn from_spec(gf: GrayF) -> Gray16 {
        Gray16::spec_from_grayf(gf)
    }
}

impl GrayF {
    /// What converting a `Rgb` gives: the luminance of the three color
    /// channels, as a fraction of 255.
    pub open spec fn spec_from_rgb(rgb: Rgb) -> GrayF {
        GrayF { luminance: luminance_of_8_bit(rgb.r, rgb.g, rgb.b) }
    }
}

/// The luminance of the three color channels, as a fraction of 255.
impl From<Rgb> for GrayF {
    fn from(rgb: Rgb) -> (c: GrayF) {
        GrayF { luminance: luminance_of_8_bit(rgb.r, rgb.g, rgb.b) }
    }
}

impl FromSpecImpl<Rgb> for GrayF {
    open spec fn obeys_from_spec() -> bool {
        true
    }

    open spec fn from_spec(rgb: Rgb) -> GrayF {
        GrayF::spec_from_rgb(rgb)
    }
}

impl GrayF {
    /// What converting a `Rgba` gives: the luminance of the three color
    /// channels, as a fraction of 255. Alpha is dropped.
    pub open spec fn spec_from_rgba(rgba: Rgba) -> GrayF {
        GrayF { luminance: luminance_of_8_bit(rgba.r, rgba.g, rgba.b) }
    }
}

/// The luminance of the three color channels, as a fraction of 255. Alpha is
/// dropped.
impl From<Rgba> for GrayF {
    fn from(rgba: Rgba) -> (c: GrayF) {
        GrayF { luminance: luminance_of_8_bit(rgba.r, rgba.g, rgba.b) }
    }
}

impl FromSpecImpl<Rgba> for GrayF {
    open spec fn obeys_from_spec() -> bool {
        true
    }

    open spec fn from_spec(rgba: Rgba) -> GrayF {
        GrayF::spec_from_rgba(rgba)
    }
}

impl GrayF {
    /// What converting a `Rgb48` gives: the luminance of the three color
    /// channels, as a fraction of 65535.
    pub open spec fn spec_from_rgb48(rgb_w: Rgb48) -> GrayF {
        GrayF { luminance: luminance_of_16_bit(rgb_w.r, rgb_w.g, rgb_w.b) }
    }
}

/// The luminance of the three color channels, as a fraction of 65535.
impl From<Rgb48> for GrayF {
    fn from(rgb_w: Rgb48) -> (c: GrayF) {
        GrayF { luminance: luminance_of_16_bit(rgb_w.r, rgb_w.g, rgb_w.b) }
    }
}

impl FromSpecImpl<Rgb48> for GrayF {
    open spec fn obeys_from_spec() -> bool {
        true
    }

    open spec fn from_spec(rgb_w: Rgb48) -> GrayF {
        GrayF::spec_from_rgb48(rgb_w)
    }
}

impl GrayF {
    /// What converting a `Rgba64` gives: the luminance of the three color
    /// channels, as a fraction of 65535. Alpha is dropped.
    pub open spec fn spec_from_rgba64(rgba_w: Rgba64) -> GrayF {
        GrayF { luminance: luminance_of_16_bit(rgba_w.r, rgba_w.g, rgba_w.b) }
    }
}

/// The luminance of the three color channels, as a fraction of 65535. Alpha is
/// dropped.
impl From<Rgba64> for GrayF {
    fn from(rgba_w: Rgba64) -> (c: GrayF) {
        GrayF { luminance: luminance_of_16_bit(rgba_w.r, rgba_w.g, rgba_w.b) }
    }
}

impl FromSpecImpl<Rgba64> for GrayF {
    open spec fn obeys_from_spec() -> bool {
        true
    }

    open spec fn from_spec(rgba_w: Rgba64) -> GrayF {
        GrayF::spec_from_rgba64(rgba_w)
    }
}

impl GrayF {
    /// What converting a `RgbF` gives: the luminance of the three color
    /// channels.
    pub open spec fn spec_from_rgbf(rgbf: RgbF) -> GrayF {
        GrayF { luminance: luminance(rgbf.r, rgbf.g, rgbf.b) }
    }
}

/// The luminance of the three color channels.
impl From<RgbF> for GrayF {
    fn from(rgbf: RgbF) -> (c: GrayF) {
        GrayF { luminance: luminance(rgbf.r, rgbf.g, rgbf.b) }
    }
}

impl FromSpecImpl<RgbF> for GrayF {
    open spec fn obeys_from_spec() -> bool {
        true
    }

    open spec fn from_spec(rgbf: RgbF) -> GrayF {
        GrayF::spec_from_rgbf(rgbf)
    }
}

impl GrayF {
    /// What converting a `RgbaF` gives: the luminance of the three color
    /// channels. Alpha is dropped.
    pub open spec fn spec_from_rgbaf(rgbaf: RgbaF) -> GrayF {
        GrayF { luminance: luminance(rgbaf.r, rgbaf.g, rgbaf.b) }
    }
}

/// The luminance of the three color channels. Alpha is dropped.
impl From<RgbaF> for GrayF {
    fn from(rgbaf: RgbaF) -> (c: GrayF) {
        GrayF { luminance: luminance(rgbaf.r, rgbaf.g, rgbaf.b) }
    }
}

impl FromSpecImpl<RgbaF> for GrayF {
    open spec fn obeys_from_spec() -> bool {
        true
    }

    open spec fn from_spec(rgbaf: RgbaF) -> GrayF {
        GrayF::spec_from_rgbaf(rgbaf)
    }
}

impl GrayF {
    /// What converting a `CieXyz` gives: the Y of the value, relative to
    /// the D65 white.
    pub open spec fn spec_from_cie_xyz(xyz: CieXyz) -> GrayF {
        GrayF { luminance: xyz.luminance() }
    }
}

/// The Y of the value, relative to the D65 white.
impl From<CieXyz> for GrayF {
    fn from(xyz: CieXyz) -> (c: GrayF) {
        GrayF { luminance: xyz.luminance() }
    }
}

impl FromSpecImpl<CieXyz> for GrayF {
    open spec fn obeys_from_spec() -> bool {
        true
    }

    open spec fn from_spec(xyz: CieXyz) -> GrayF {
        GrayF::spec_from_cie_xyz(xyz)
    }
}

impl GrayF {
    /// What converting a `CieLab` gives: the Y of the value in XYZ, relative
    /// to the D65 white, limited to the range from 0 to 1.
    pub open spec fn spec_from_cie_lab(lab: CieLab) -> GrayF {
        GrayF { luminance: lab.luminance() }
    }
}

/// The Y of the value in XYZ, relative to the D65 white, limited to the range
/// from 0 to 1.
impl From<CieLab> for GrayF {
    fn from(lab: CieLab) -> (c: GrayF) {
        GrayF { luminance: lab.luminance() }
    }
}

impl FromSpecImpl<CieLab> for GrayF {
    open spec fn obeys_from_spec() -> bool {
        true
    }

    open spec fn from_spec(lab: CieLab) -> GrayF {
        GrayF::spec_from_cie_lab(lab)
    }
}

impl Gray8 {
    /// What converting a `RgbF` gives: the luminance of the three channels,
    /// limited to the range from 0 to 1, times 255, cut down to a whole
    /// number.
    pub open spec fn spec_from_rgbf(rgbf: RgbF) -> Gray8 {
        Gray8 { luminance: channel_8(luminance(rgbf.r, rgbf.g, rgbf.b).clamp_unit()) }
    }
}

/// The luminance of the three channels, limited to the range from 0 to 1, times
/// 255, cut down to a whole number.
impl From<RgbF> for Gray8 {
    fn from(rgbf: RgbF) -> (c: Gray8) {
        Gray8 { luminance: channel_8(luminance(rgbf.r, rgbf.g, rgbf.b).clamp_unit()) }
    }
}

impl FromSpecImpl<RgbF> for Gray8 {
    open spec fn obeys_from_spec() -> bool {
        true
    }

    open spec fn from_spec(rgbf: RgbF) -> Gray8 {
        Gray8::spec_from_rgbf(rgbf)
    }
}

impl Gray8 {
    /// What converting a `RgbaF` gives: the luminance of the three color
    /// channels times 255, cut down to a whole number. Alpha is dropped.
    pub open spec fn spec_from_rgbaf(rgbaf: RgbaF) -> Gray8 {
        Gray8 { luminance: channel_8(luminance(rgbaf.r, rgbaf.g, rgbaf.b)) }
    }
}

/// The luminance of the three color channels times 255, cut down to a whole
/// number. Alpha is dropped.
impl From<RgbaF> for Gray8 {
    fn from(rgbaf: RgbaF) -> (c: Gray8) {
        Gray8 { luminance: channel_8(luminance(rgbaf.r, rgbaf.g, rgbaf.b)) }
    }
}

impl FromSpecImpl<RgbaF> for Gray8 {
    open spec fn obeys_from_spec() -> bool {
        true
    }

    open spec fn from_spec(rgbaf: RgbaF) -> Gray8 {
        Gray8::spec_from_rgbaf(rgbaf)
    }
}

impl Gray16 {
    /// What converting a `RgbF` gives: the luminance of the three channels,
    /// limited to the range from 0 to 1, times 65535, cut down to a whole
    /// number.
    pub open spec fn spec_from_rgbf(rgbf: RgbF) -> Gray16 {
        Gray16 { luminance: channel_16(luminance(rgbf.r, rgbf.g, rgbf.b).clamp_unit()) }
    }
}

/// The luminance of the three channels, limited to the range from 0 to 1, times
/// 65535, cut down to a whole number.
impl From<RgbF> for Gray16 {
    fn from(rgbf: RgbF) -> (c: Gray16) {
        Gray16 { luminance: channel_16(luminance(rgbf.r, rgbf.g, rgbf.b).clamp_unit()) }
    }
}

impl FromSpecImpl<RgbF> for Gray16 {
    open spec fn obeys_from_spec() -> bool {
        true
    }

    open spec fn from_spec(rgbf: RgbF) -> Gray16 {
        Gray16::spec_from_rgbf(rgbf)
    }
}

impl Gray16 {
    /// What converting a `RgbaF` gives: the luminance of the three color
    /// channels times 65535, cut down to a whole number. Alpha is dropped.
    pub open spec fn spec_from_rgbaf(rgbaf: RgbaF) -> Gray16 {
        Gray16 { luminance: channel_16(luminance(rgbaf.r, rgbaf.g, rgbaf.b)) }
    }
}

/// The luminance of the three color channels times 65535, cut down to a whole
/// number. Alpha is dropped.
impl From<RgbaF> for Gray16 {
    fn from(rgbaf: RgbaF) -> (c: Gray16) {
        Gray16 { luminance: channel_16(luminance(rgbaf.r, rgbaf.g, rgbaf.b)) }
    }
}

impl FromSpecImpl<RgbaF> for Gray16 {
    open spec fn obeys_from_spec() -> bool {
        true
    }

    open spec fn from_spec(rgbaf: RgbaF) -> Gray16 {
        Gray16::spec_from_rgbaf(rgbaf)
    }
}

impl GrayF {
    /// The luminance of the three channels, taken from gamma-encoded to
    /// linear.
    pub open spec fn spec_from_srgbf<K: Fn(MathCall) -> Float32>(
        srgbf: SrgbF,
        kernel: &K,
    ) -> GrayF {
        GrayF::spec_from_rgbf(expanded(srgbf, kernel))
    }

    /// The luminance of the three channels, taken from gamma-encoded to
    /// linear.
    #[verifier::when_used_as_spec(spec_from_srgbf)]
    pub fn from_srgbf<K: Fn(MathCall) -> Float32>(srgbf: SrgbF, kernel: &K) -> (c: GrayF)
        requires
            is_function(*kernel),
        ensures
            c == GrayF::spec_from_srgbf(srgbf, kernel),
    {
        GrayF::from(expanded(srgbf, kernel))
    }
}

impl GrayF {
    /// The luminance of the three channels, as fractions of 255 taken
    /// from gamma-encoded to linear.
    pub open spec fn spec_from_srgb<K: Fn(MathCall) -> Float32>(srgb: Srgb, kernel: &K) -> GrayF {
        GrayF::spec_from_rgbf(expanded(SrgbF::spec_from_srgb(srgb), kernel))
    }

    /// The luminance of the three channels, as fractions of 255 taken
    /// from gamma-encoded to linear.
    #[verifier::when_used_as_spec(spec_from_srgb)]
    pub fn from_srgb<K: Fn(MathCall) -> Float32>(srgb: Srgb, kernel: &K) -> (c: GrayF)
        requires
            is_function(*kernel),
        ensures
            c == GrayF::spec_from_srgb(srgb, kernel),
    {
        GrayF::from(expanded(SrgbF::from(srgb), kernel))
    }
}

} // verus!
