//! Hue-based formats.

use crate::byte_order::{
    lemma_u32_roundtrip, push_u32, read_u32, u32_bytes, u32_of_bytes, ByteOrder,
};
use crate::color::format::{make_length_error, ColorFormat, ColorFormatName, DecodeError};
use crate::color::hue::{hsl_to_hsv, hsv_to_hsl, linear_to_hsl, linear_to_hsv};
use crate::color::kernel::{is_function, MathCall};
use crate::color::quantize::clamped;
use crate::color::rgb::{Rgb, RgbF, RgbaF, Srgb, SrgbF};
use crate::color::transfer::expanded;
use crate::float32::Float32;
use vstd::std_specs::convert::FromSpecImpl;
use vstd::prelude::*;

verus! {

/// Hue in degrees, saturation and value.
#[derive(Copy, Clone, Debug, PartialEq, Eq, Structural)]
pub struct Hsv {
    pub h: Float32,
    pub s: Float32,
    pub v: Float32,
}

impl Hsv {
    pub fn new(h: Float32, s: Float32, v: Float32) -> (c: Hsv)
        ensures
            c.h == h,
            c.s == s,
            c.v == v,
    {
        Hsv { h, s, v }
    }
}

impl ColorFormat for Hsv {
    open spec fn name() -> ColorFormatName {
        ColorFormatName::HSV
    }

    open spec fn wf(&self) -> bool {
        true
    }

    open spec fn encoding(&self, order: ByteOrder) -> Seq<u8> {
        u32_bytes(self.h.bits, order)
            + u32_bytes(self.s.bits, order)
            + u32_bytes(self.v.bits, order)
    }

    open spec fn decoding(bytes: Seq<u8>, order: ByteOrder) -> Hsv {
        Hsv {
            h: Float32 { bits: u32_of_bytes(bytes[0], bytes[1], bytes[2], bytes[3], order) },
            s: Float32 { bits: u32_of_bytes(bytes[4], bytes[5], bytes[6], bytes[7], order) },
            v: Float32 { bits: u32_of_bytes(bytes[8], bytes[9], bytes[10], bytes[11], order) },
        }
    }

    proof fn lemma_roundtrip(v: Hsv, order: ByteOrder) {
        lemma_u32_roundtrip(v.h.bits, order);
        lemma_u32_roundtrip(v.s.bits, order);
        lemma_u32_roundtrip(v.v.bits, order);
        let bytes = v.encoding(order);
        assert(bytes[0] == u32_bytes(v.h.bits, order)[0]);
        assert(bytes[1] == u32_bytes(v.h.bits, order)[1]);
        assert(bytes[2] == u32_bytes(v.h.bits, order)[2]);
        assert(bytes[3] == u32_bytes(v.h.bits, order)[3]);
        assert(bytes[4] == u32_bytes(v.s.bits, order)[0]);
        assert(bytes[5] == u32_bytes(v.s.bits, order)[1]);
        assert(bytes[6] == u32_bytes(v.s.bits, order)[2]);
        assert(bytes[7] == u32_bytes(v.s.bits, order)[3]);
        assert(bytes[8] == u32_bytes(v.v.bits, order)[0]);
        assert(bytes[9] == u32_bytes(v.v.bits, order)[1]);
        assert(bytes[10] == u32_bytes(v.v.bits, order)[2]);
        assert(bytes[11] == u32_bytes(v.v.bits, order)[3]);
    }

    proof fn lemma_decoding_wf(bytes: Seq<u8>, order: ByteOrder) {
    }

    fn format_name() -> ColorFormatName {
        ColorFormatName::HSV
    }

    fn to_bytes_in(&self, order: ByteOrder) -> (bytes: Vec<u8>) {
        let mut bytes: Vec<u8> = Vec::new();
        push_u32(&mut bytes, self.h.bits, order);
        push_u32(&mut bytes, self.s.bits, order);
        push_u32(&mut bytes, self.v.bits, order);
        assert(bytes@ =~= self.encoding(order));
        bytes
    }

    fn from_bytes_in(bytes: &[u8], order: ByteOrder) -> (r: Result<Hsv, DecodeError>) {
        if bytes.len() == 12 {
            Ok(Hsv {
                h: Float32::from_bits(read_u32(bytes, 0, order)),
                s: Float32::from_bits(read_u32(bytes, 4, order)),
                v: Float32::from_bits(read_u32(bytes, 8, order)),
            })
        } else {
            Err(make_length_error(ColorFormatName::HSV, bytes.len()))
        }
    }
}

/// Hue in degrees, saturation and lightness.
#[derive(Copy, Clone, Debug, PartialEq, Eq, Structural)]
pub struct Hsl {
    pub h: Float32,
    pub s: Float32,
    pub l: Float32,
}

impl Hsl {
    pub fn new(h: Float32, s: Float32, l: Float32) -> (c: Hsl)
        ensures
            c.h == h,
            c.s == s,
            c.l == l,
    {
        Hsl { h, s, l }
    }
}

impl ColorFormat for Hsl {
    open spec fn name() -> ColorFormatName {
        ColorFormatName::HSL
    }

    open spec fn wf(&self) -> bool {
        true
    }

    open spec fn encoding(&self, order: ByteOrder) -> Seq<u8> {
        u32_bytes(self.h.bits, order)
            + u32_bytes(self.s.bits, order)
            + u32_bytes(self.l.bits, order)
    }

    open spec fn decoding(bytes: Seq<u8>, order: ByteOrder) -> Hsl {
        Hsl {
            h: Float32 { bits: u32_of_bytes(bytes[0], bytes[1], bytes[2], bytes[3], order) },
            s: Float32 { bits: u32_of_bytes(bytes[4], bytes[5], bytes[6], bytes[7], order) },
            l: Float32 { bits: u32_of_bytes(bytes[8], bytes[9], bytes[10], bytes[11], order) },
        }
    }

    proof fn lemma_roundtrip(v: Hsl, order: ByteOrder) {
        lemma_u32_roundtrip(v.h.bits, order);
        lemma_u32_roundtrip(v.s.bits, order);
        lemma_u32_roundtrip(v.l.bits, order);
        let bytes = v.encoding(order);
        assert(bytes[0] == u32_bytes(v.h.bits, order)[0]);
        assert(bytes[1] == u32_bytes(v.h.bits, order)[1]);
        assert(bytes[2] == u32_bytes(v.h.bits, order)[2]);
        assert(bytes[3] == u32_bytes(v.h.bits, order)[3]);
        assert(bytes[4] == u32_bytes(v.s.bits, order)[0]);
        assert(bytes[5] == u32_bytes(v.s.bits, order)[1]);
        assert(bytes[6] == u32_bytes(v.s.bits, order)[2]);
        assert(bytes[7] == u32_bytes(v.s.bits, order)[3]);
        assert(bytes[8] == u32_bytes(v.l.bits, order)[0]);
        assert(bytes[9] == u32_bytes(v.l.bits, order)[1]);
        assert(bytes[10] == u32_bytes(v.l.bits, order)[2]);
        assert(bytes[11] == u32_bytes(v.l.bits, order)[3]);
    }

    proof fn lemma_decoding_wf(bytes: Seq<u8>, order: ByteOrder) {
    }

    fn format_name() -> ColorFormatName {
        ColorFormatName::HSL
    }

    fn to_bytes_in(&self, order: ByteOrder) -> (bytes: Vec<u8>) {
        let mut bytes: Vec<u8> = Vec::new();
        push_u32(&mut bytes, self.h.bits, order);
        push_u32(&mut bytes, self.s.bits, order);
        push_u32(&mut bytes, self.l.bits, order);
        assert(bytes@ =~= self.encoding(order));
        bytes
    }

    fn from_bytes_in(bytes: &[u8], order: ByteOrder) -> (r: Result<Hsl, DecodeError>) {
        if bytes.len() == 12 {
            Ok(Hsl {
                h: Float32::from_bits(read_u32(bytes, 0, order)),
                s: Float32::from_bits(read_u32(bytes, 4, order)),
                l: Float32::from_bits(read_u32(bytes, 8, order)),
            })
        } else {
            Err(make_length_error(ColorFormatName::HSL, bytes.len()))
        }
    }
}

impl Hsv {
    /// What converting a `Rgb` gives: hue, saturation and value of the
    /// channels as fractions of 255.
    pub open spec fn spec_from_rgb(rgb: Rgb) -> Hsv {
        let linear = RgbF::spec_from_rgb(rgb);
        linear_to_hsv(linear)
    }
}

/// Hue, saturation and value of the channels as fractions of 255.
impl From<Rgb> for Hsv {
    fn from(rgb: Rgb) -> (c: Hsv) {
        let linear = RgbF::from(rgb);
        linear_to_hsv(linear)
    }
}

impl FromSpecImpl<Rgb> for Hsv {
    open spec fn obeys_from_spec() -> bool {
        true
    }

    open spec fn from_spec(rgb: Rgb) -> Hsv {
        Hsv::spec_from_rgb(rgb)
    }
}

impl Hsv {
    /// What converting a `RgbF` gives: hue, saturation and value of the
    /// channels, each limited to the range from 0 to 1.
    pub open spec fn spec_from_rgbf(rgbf: RgbF) -> Hsv {
        linear_to_hsv(clamped(rgbf))
    }
}

/// Hue, saturation and value of the channels, each limited to the range from 0
/// to 1.
impl From<RgbF> for Hsv {
    fn from(rgbf: RgbF) -> (c: Hsv) {
        linear_to_hsv(clamped(rgbf))
    }
}

impl FromSpecImpl<RgbF> for Hsv {
    open spec fn obeys_from_spec() -> bool {
        true
    }

    open spec fn from_spec(rgbf: RgbF) -> Hsv {
        Hsv::spec_from_rgbf(rgbf)
    }
}

impl Hsv {
    /// What converting a `RgbaF` gives: hue, saturation and value of the
    /// color channels. Alpha is dropped.
    pub open spec fn spec_from_rgbaf(rgbaf: RgbaF) -> Hsv {
        let linear = RgbF::spec_from_rgbaf(rgbaf);
        linear_to_hsv(linear)
    }
}

/// Hue, saturation and value of the color channels. Alpha is dropped.
impl From<RgbaF> for Hsv {
    fn from(rgbaf: RgbaF) -> (c: Hsv) {
        let linear = RgbF::from(rgbaf);
        linear_to_hsv(linear)
    }
}

impl FromSpecImpl<RgbaF> for Hsv {
    open spec fn obeys_from_spec() -> bool {
        true
    }

    open spec fn from_spec(rgbaf: RgbaF) -> Hsv {
        Hsv::spec_from_rgbaf(rgbaf)
    }
}

impl Hsl {
    /// What converting a `Rgb` gives: hue, saturation and lightness of the
    /// channels as fractions of 255.
    pub open spec fn spec_from_rgb(rgb: Rgb) -> Hsl {
        let linear = RgbF::spec_from_rgb(rgb);
        linear_to_hsl(linear)
    }
}

/// Hue, saturation and lightness of the channels as fractions of 255.
impl From<Rgb> for Hsl {
    fn from(rgb: Rgb) -> (c: Hsl) {
        let linear = RgbF::from(rgb);
        linear_to_hsl(linear)
    }
}

impl FromSpecImpl<Rgb> for Hsl {
    open spec fn obeys_from_spec() -> bool {
        true
    }

    open spec fn from_spec(rgb: Rgb) -> Hsl {
        Hsl::spec_from_rgb(rgb)
    }
}

impl Hsl {
    /// What converting a `RgbF` gives: hue, saturation and lightness of the
    /// channels, each limited to the range from 0 to 1.
    pub open spec fn spec_from_rgbf(rgbf: RgbF) -> Hsl {
        linear_to_hsl(clamped(rgbf))
    }
}

/// Hue, saturation and lightness of the channels, each limited to the range
/// from 0 to 1.
impl From<RgbF> for Hsl {
    fn from(rgbf: RgbF) -> (c: Hsl) {
        linear_to_hsl(clamped(rgbf))
    }
}

impl FromSpecImpl<RgbF> for Hsl {
    open spec fn obeys_from_spec() -> bool {
        true
    }

    open spec fn from_spec(rgbf: RgbF) -> Hsl {
        Hsl::spec_from_rgbf(rgbf)
    }
}

impl Hsl {
    /// What converting a `RgbaF` gives: hue, saturation and lightness of
    /// the color channels. Alpha is dropped.
    pub open spec fn spec_from_rgbaf(rgbaf: RgbaF) -> Hsl {
        let linear = RgbF::spec_from_rgbaf(rgbaf);
        linear_to_hsl(linear)
    }
}

/// Hue, saturation and lightness of the color channels. Alpha is dropped.
impl From<RgbaF> for Hsl {
    fn from(rgbaf: RgbaF) -> (c: Hsl) {
        let linear = RgbF::from(rgbaf);
        linear_to_hsl(linear)
    }
}

impl FromSpecImpl<RgbaF> for Hsl {
    open spec fn obeys_from_spec() -> bool {
        true
    }

    open spec fn from_spec(rgbaf: RgbaF) -> Hsl {
        Hsl::spec_from_rgbaf(rgbaf)
    }
}

impl Hsv {
    /// What converting a `Hsl` gives: the same hue, with saturation and
    /// value for saturation and lightness.
    pub open spec fn spec_from_hsl(hsl: Hsl) -> Hsv {
        hsl_to_hsv(hsl)
    }
}

/// The same hue, with saturation and value for saturation and lightness.
impl From<Hsl> for Hsv {
    fn from(hsl: Hsl) -> (c: Hsv) {
        hsl_to_hsv(hsl)
    }
}

impl FromSpecImpl<Hsl> for Hsv {
    open spec fn obeys_from_spec() -> bool {
        true
    }

    open spec fn from_spec(hsl: Hsl) -> Hsv {
        Hsv::spec_from_hsl(hsl)
    }
}

impl Hsl {
    /// What converting a `Hsv` gives: the same hue, with saturation and
    /// lightness for saturation and value.
    pub open spec fn spec_from_hsv(hsv: Hsv) -> Hsl {
        hsv_to_hsl(hsv)
    }
}

/// The same hue, with saturation and lightness for saturation and value.
impl From<Hsv> for Hsl {
    fn from(hsv: Hsv) -> (c: Hsl) {
        hsv_to_hsl(hsv)
    }
}

impl FromSpecImpl<Hsv> for Hsl {
    open spec fn obeys_from_spec() -> bool {
        true
    }

    open spec fn from_spec(hsv: Hsv) -> Hsl {
        Hsl::spec_from_hsv(hsv)
    }
}

impl Hsv {
    /// Hue, saturation and value of the channels, as fractions of 255
    /// taken from gamma-encoded to linear.
    pub open spec fn spec_from_srgb<K: Fn(MathCall) -> Float32>(srgb: Srgb, kernel: &K) -> Hsv {
        let linear = expanded(SrgbF::spec_from_srgb(srgb), kernel);
        linear_to_hsv(linear)
    }

    /// Hue, saturation and value of the channels, as fractions of 255
    /// taken from gamma-encoded to linear.
    #[verifier::when_used_as_spec(spec_from_srgb)]
    pub fn from_srgb<K: Fn(MathCall) -> Float32>(srgb: Srgb, kernel: &K) -> (c: Hsv)
        requires
            is_function(*kernel),
        ensures
            c == Hsv::spec_from_srgb(srgb, kernel),
    {
        let linear = expanded(SrgbF::from(srgb), kernel);
        linear_to_hsv(linear)
    }
}

impl Hsv {
    /// Hue, saturation and value of the channels, taken from
    /// gamma-encoded to linear.
    pub open spec fn spec_from_srgbf<K: Fn(MathCall) -> Float32>(
        srgbf: SrgbF,
        kernel: &K,
    ) -> Hsv {
        let linear = expanded(srgbf, kernel);
        linear_to_hsv(linear)
    }

    /// Hue, saturation and value of the channels, taken from
    /// gamma-encoded to linear.
    #[verifier::when_used_as_spec(spec_from_srgbf)]
    pub fn from_srgbf<K: Fn(MathCall) -> Float32>(srgbf: SrgbF, kernel: &K) -> (c: Hsv)
        requires
            is_function(*kernel),
        ensures
            c == Hsv::spec_from_srgbf(srgbf, kernel),
    {
        let linear = expanded(srgbf, kernel);
        linear_to_hsv(linear)
    }
}

impl Hsl {
    /// Hue, saturation and lightness of the channels, as fractions of
    /// 255 taken from gamma-encoded to linear.
    pub open spec fn spec_from_srgb<K: Fn(MathCall) -> Float32>(srgb: Srgb, kernel: &K) -> Hsl {
        let linear = expanded(SrgbF::spec_from_srgb(srgb), kernel);
        linear_to_hsl(linear)
    }

    /// Hue, saturation and lightness of the channels, as fractions of
    /// 255 taken from gamma-encoded to linear.
    #[verifier::when_used_as_spec(spec_from_srgb)]
    pub fn from_srgb<K: Fn(MathCall) -> Float32>(srgb: Srgb, kernel: &K) -> (c: Hsl)
        requires
            is_function(*kernel),
        ensures
            c == Hsl::spec_from_srgb(srgb, kernel),
    {
        let linear = expanded(SrgbF::from(srgb), kernel);
        linear_to_hsl(linear)
    }
}

impl Hsl {
    /// Hue, saturation and lightness of the channels, taken from
    /// gamma-encoded to linear.
    pub open spec fn spec_from_srgbf<K: Fn(MathCall) -> Float32>(
        srgbf: SrgbF,
        kernel: &K,
    ) -> Hsl {
        let linear = expanded(srgbf, kernel);
        linear_to_hsl(linear)
    }

    /// Hue, saturation and lightness of the channels, taken from
    /// gamma-encoded to linear.
    #[verifier::when_used_as_spec(spec_from_srgbf)]
    pub fn from_srgbf<K: Fn(MathCall) -> Float32>(srgbf: SrgbF, kernel: &K) -> (c: Hsl)
        requires
            is_function(*kernel),
        ensures
            c == Hsl::spec_from_srgbf(srgbf, kernel),
    {
        let linear = expanded(srgbf, kernel);
        linear_to_hsl(linear)
    }
}

} // verus!
