//! CIE formats, which may carry the reference white they are relative to.

use crate::byte_order::{
    lemma_u32_roundtrip, push_u32, read_u32, u32_bytes, u32_of_bytes, ByteOrder,
};
use crate::color::format::{make_length_error, ColorFormat, ColorFormatName, DecodeError};
use crate::color::kernel::{is_function, MathCall};
use crate::color::quantize::clamped;
use crate::color::rgb::{Rgb, RgbF, RgbaF, Srgb, SrgbF};
use crate::color::transfer::expanded;
use crate::float32::{Float32, ONE_BITS};
use vstd::std_specs::convert::FromSpecImpl;
use vstd::prelude::*;

verus! {

/// The bit pattern of 0.95047, the X of the D65 white that sRGB uses.
pub const D65_X_BITS: u32 = 0x3F73_5200;

/// The bit pattern of 1.0, the Y of the D65 white.
pub const D65_Y_BITS: u32 = ONE_BITS;

/// The bit pattern of 1.08883, the Z of the D65 white.
pub const D65_Z_BITS: u32 = 0x3F8B_5EC8;

/// A reference white: the XYZ triplet that stands for white.
#[derive(Copy, Clone, Debug, PartialEq, Eq, Structural)]
pub struct ReferenceWhite {
    pub x: Float32,
    pub y: Float32,
    pub z: Float32,
}

impl ReferenceWhite {
    /// The three values, X first.
    pub open spec fn triplet(self) -> (Float32, Float32, Float32) {
        (self.x, self.y, self.z)
    }
}

/// The white made of a triplet, X first.
pub open spec fn white_of(t: (Float32, Float32, Float32)) -> ReferenceWhite {
    ReferenceWhite { x: t.0, y: t.1, z: t.2 }
}

/// The bytes of three single-precision values, one after the other.
pub open spec fn triplet_bytes(t: (Float32, Float32, Float32), order: ByteOrder) -> Seq<u8> {
    u32_bytes(t.0.bits, order) + u32_bytes(t.1.bits, order) + u32_bytes(t.2.bits, order)
}

/// The three single-precision values laid out in the twelve bytes from `at`.
pub open spec fn triplet_of_bytes(bytes: Seq<u8>, at: int, order: ByteOrder) -> (
    Float32,
    Float32,
    Float32,
) {
    (
        Float32 {
            bits: u32_of_bytes(bytes[at], bytes[at + 1], bytes[at + 2], bytes[at + 3], order),
        },
        Float32 {
            bits: u32_of_bytes(bytes[at + 4], bytes[at + 5], bytes[at + 6], bytes[at + 7], order),
        },
        Float32 {
            bits: u32_of_bytes(
                bytes[at + 8],
                bytes[at + 9],
                bytes[at + 10],
                bytes[at + 11],
                order,
            ),
        },
    )
}

/// Reading back the bytes of a triplet gives the triplet.
pub proof fn lemma_triplet_roundtrip(
    t: (Float32, Float32, Float32),
    order: ByteOrder,
    before: Seq<u8>,
    after: Seq<u8>,
)
    ensures
        triplet_bytes(t, order).len() == 12,
        triplet_of_bytes(before + triplet_bytes(t, order) + after, before.len() as int, order)
            == t,
{
    lemma_u32_roundtrip(t.0.bits, order);
    lemma_u32_roundtrip(t.1.bits, order);
    lemma_u32_roundtrip(t.2.bits, order);
    let part = triplet_bytes(t, order);
    let bytes = before + part + after;
    let at = before.len() as int;
    assert(part[0] == u32_bytes(t.0.bits, order)[0]);
    assert(part[1] == u32_bytes(t.0.bits, order)[1]);
    assert(part[2] == u32_bytes(t.0.bits, order)[2]);
    assert(part[3] == u32_bytes(t.0.bits, order)[3]);
    assert(part[4] == u32_bytes(t.1.bits, order)[0]);
    assert(part[5] == u32_bytes(t.1.bits, order)[1]);
    assert(part[6] == u32_bytes(t.1.bits, order)[2]);
    assert(part[7] == u32_bytes(t.1.bits, order)[3]);
    assert(part[8] == u32_bytes(t.2.bits, order)[0]);
    assert(part[9] == u32_bytes(t.2.bits, order)[1]);
    assert(part[10] == u32_bytes(t.2.bits, order)[2]);
    assert(part[11] == u32_bytes(t.2.bits, order)[3]);
    assert forall|i: int| 0 <= i < 12 implies bytes[at + i] == part[i] by {}
    assert(bytes[at + 0] == part[0]);
}

/// Appends the bytes of a triplet to `out`.
fn push_triplet(out: &mut Vec<u8>, t: (Float32, Float32, Float32), order: ByteOrder)
    ensures
        final(out)@ == old(out)@ + triplet_bytes(t, order),
{
    push_u32(out, t.0.bits, order);
    push_u32(out, t.1.bits, order);
    push_u32(out, t.2.bits, order);
    assert(out@ =~= old(out)@ + triplet_bytes(t, order));
}

/// Reads the triplet laid out in the twelve bytes from `at`.
fn read_triplet(bytes: &[u8], at: usize, order: ByteOrder) -> (t: (Float32, Float32, Float32))
    requires
        at + 12 <= bytes@.len(),
    ensures
        t == triplet_of_bytes(bytes@, at as int, order),
{
    assert(bytes@.len() == bytes.len());
    (
        Float32::from_bits(read_u32(bytes, at, order)),
        Float32::from_bits(read_u32(bytes, at + 4, order)),
        Float32::from_bits(read_u32(bytes, at + 8, order)),
    )
}

/// The bytes of three channels, then of the reference white where there is one.
pub open spec fn cie_encoding(
    channels: (Float32, Float32, Float32),
    reference: Option<ReferenceWhite>,
    order: ByteOrder,
) -> Seq<u8> {
    match reference {
        None => triplet_bytes(channels, order),
        Some(white) => triplet_bytes(channels, order) + triplet_bytes(white.triplet(), order),
    }
}

/// The reference white laid out behind the channels, where the bytes hold one.
pub open spec fn cie_reference_of(bytes: Seq<u8>, order: ByteOrder) -> Option<ReferenceWhite> {
    if bytes.len() == 24 {
        Some(white_of(triplet_of_bytes(bytes, 12, order)))
    } else {
        None
    }
}

/// Reading back what `cie_encoding` wrote gives the channels and the reference.
pub proof fn lemma_cie_roundtrip(
    channels: (Float32, Float32, Float32),
    reference: Option<ReferenceWhite>,
    order: ByteOrder,
)
    ensures
        cie_encoding(channels, reference, order).len() == (if reference is Some {
            24nat
        } else {
            12nat
        }),
        triplet_of_bytes(cie_encoding(channels, reference, order), 0, order) == channels,
        cie_reference_of(cie_encoding(channels, reference, order), order) == reference,
{
    let empty = Seq::<u8>::empty();
    match reference {
        None => {
            lemma_triplet_roundtrip(channels, order, empty, empty);
            assert(empty + triplet_bytes(channels, order) + empty =~= triplet_bytes(
                channels,
                order,
            ));
        },
        Some(white) => {
            let head = triplet_bytes(channels, order);
            let tail = triplet_bytes(white.triplet(), order);
            lemma_triplet_roundtrip(channels, order, empty, tail);
            lemma_triplet_roundtrip(white.triplet(), order, head, empty);
            assert(empty + head + tail =~= head + tail);
            assert(head + tail + empty =~= head + tail);
        },
    }
}

/// CIE XYZ tristimulus values, with Y of 1.0 the greatest luminance.
#[derive(Copy, Clone, Debug, PartialEq, Eq, Structural)]
pub struct CieXyz {
    pub x: Float32,
    pub y: Float32,
    pub z: Float32,
    /// The reference white, where it is not the D65 white.
    pub ref_xyz: Option<ReferenceWhite>,
}

impl CieXyz {
    /// A value relative to the D65 white.
    pub fn new(x: Float32, y: Float32, z: Float32) -> (c: CieXyz)
        ensures
            c == (CieXyz { x, y, z, ref_xyz: None }),
    {
        CieXyz { x, y, z, ref_xyz: None }
    }

    /// The three channels.
    pub open spec fn channels(self) -> (Float32, Float32, Float32) {
        (self.x, self.y, self.z)
    }

}

impl Default for CieXyz {
    /// The D65 white, relative to itself.
    fn default() -> (c: CieXyz)
        ensures
            c == CieXyz::d65(),
    {
        CieXyz::d65()
    }
}

impl ColorFormat for CieXyz {
    open spec fn name() -> ColorFormatName {
        ColorFormatName::CIEXYZ
    }

    open spec fn wf(&self) -> bool {
        true
    }

    open spec fn encoding(&self, order: ByteOrder) -> Seq<u8> {
        cie_encoding(self.channels(), self.ref_xyz, order)
    }

    open spec fn decoding(bytes: Seq<u8>, order: ByteOrder) -> CieXyz {
        let channels = triplet_of_bytes(bytes, 0, order);
        CieXyz {
            x: channels.0,
            y: channels.1,
            z: channels.2,
            ref_xyz: cie_reference_of(bytes, order),
        }
    }

    proof fn lemma_roundtrip(v: CieXyz, order: ByteOrder) {
        lemma_cie_roundtrip(v.channels(), v.ref_xyz, order);
    }

    proof fn lemma_decoding_wf(bytes: Seq<u8>, order: ByteOrder) {
    }

    fn format_name() -> ColorFormatName {
        ColorFormatName::CIEXYZ
    }

    fn to_bytes_in(&self, order: ByteOrder) -> (bytes: Vec<u8>) {
        let mut bytes: Vec<u8> = Vec::new();
        push_triplet(&mut bytes, (self.x, self.y, self.z), order);
        if let Some(white) = self.ref_xyz {
            push_triplet(&mut bytes, (white.x, white.y, white.z), order);
        }
        assert(bytes@ =~= self.encoding(order));
        bytes
    }

    fn from_bytes_in(bytes: &[u8], order: ByteOrder) -> (r: Result<CieXyz, DecodeError>) {
        if bytes.len() == 12 {
            let channels = read_triplet(bytes, 0, order);
            Ok(CieXyz { x: channels.0, y: channels.1, z: channels.2, ref_xyz: None })
        } else if bytes.len() == 24 {
            let channels = read_triplet(bytes, 0, order);
            let white = read_triplet(bytes, 12, order);
            Ok(
                CieXyz {
                    x: channels.0,
                    y: channels.1,
                    z: channels.2,
                    ref_xyz: Some(ReferenceWhite { x: white.0, y: white.1, z: white.2 }),
                },
            )
        } else {
            Err(make_length_error(ColorFormatName::CIEXYZ, bytes.len()))
        }
    }
}

/// CIE L*a*b* values.
#[derive(Copy, Clone, Debug, PartialEq, Eq, Structural)]
pub struct CieLab {
    pub l: Float32,
    pub a: Float32,
    pub b: Float32,
    /// The reference white, where it is not the D65 white.
    pub ref_xyz: Option<ReferenceWhite>,
}

impl CieLab {
    /// A value relative to the D65 white.
    pub fn new(l: Float32, a: Float32, b: Float32) -> (c: CieLab)
        ensures
            c == (CieLab { l, a, b, ref_xyz: None }),
    {
        CieLab { l, a, b, ref_xyz: None }
    }

    /// The three channels.
    pub open spec fn channels(self) -> (Float32, Float32, Float32) {
        (self.l, self.a, self.b)
    }

}

impl ColorFormat for CieLab {
    open spec fn name() -> ColorFormatName {
        ColorFormatName::CIELab
    }

    open spec fn wf(&self) -> bool {
        true
    }

    open spec fn encoding(&self, order: ByteOrder) -> Seq<u8> {
        cie_encoding(self.channels(), self.ref_xyz, order)
    }

    open spec fn decoding(bytes: Seq<u8>, order: ByteOrder) -> CieLab {
        let channels = triplet_of_bytes(bytes, 0, order);
        CieLab {
            l: channels.0,
            a: channels.1,
            b: channels.2,
            ref_xyz: cie_reference_of(bytes, order),
        }
    }

    proof fn lemma_roundtrip(v: CieLab, order: ByteOrder) {
        lemma_cie_roundtrip(v.channels(), v.ref_xyz, order);
    }

    proof fn lemma_decoding_wf(bytes: Seq<u8>, order: ByteOrder) {
    }

    fn format_name() -> ColorFormatName {
        ColorFormatName::CIELab
    }

    fn to_bytes_in(&self, order: ByteOrder) -> (bytes: Vec<u8>) {
        let mut bytes: Vec<u8> = Vec::new();
        push_triplet(&mut bytes, (self.l, self.a, self.b), order);
        if let Some(white) = self.ref_xyz {
            push_triplet(&mut bytes, (white.x, white.y, white.z), order);
        }
        assert(bytes@ =~= self.encoding(order));
        bytes
    }

    fn from_bytes_in(bytes: &[u8], order: ByteOrder) -> (r: Result<CieLab, DecodeError>) {
        if bytes.len() == 12 {
            let channels = read_triplet(bytes, 0, order);
            Ok(CieLab { l: channels.0, a: channels.1, b: channels.2, ref_xyz: None })
        } else if bytes.len() == 24 {
            let channels = read_triplet(bytes, 0, order);
            let white = read_triplet(bytes, 12, order);
            Ok(
                CieLab {
                    l: channels.0,
                    a: channels.1,
                    b: channels.2,
                    ref_xyz: Some(ReferenceWhite { x: white.0, y: white.1, z: white.2 }),
                },
            )
        } else {
            Err(make_length_error(ColorFormatName::CIELab, bytes.len()))
        }
    }
}

impl CieXyz {
    /// What converting a `Rgb` gives: the XYZ value of the channels as
    /// fractions of 255, with the D65 white attached.
    pub open spec fn spec_from_rgb(rgb: Rgb) -> CieXyz {
        CieXyz::from_linear(RgbF::spec_from_rgb(rgb))
    }
}

/// The XYZ value of the channels as fractions of 255, with the D65 white
/// attached.
impl From<Rgb> for CieXyz {
    fn from(rgb: Rgb) -> (c: CieXyz) {
        CieXyz::from_linear(RgbF::from(rgb))
    }
}

impl FromSpecImpl<Rgb> for CieXyz {
    open spec fn obeys_from_spec() -> bool {
        true
    }

    open spec fn from_spec(rgb: Rgb) -> CieXyz {
        CieXyz::spec_from_rgb(rgb)
    }
}

impl CieXyz {
    /// What converting a `RgbF` gives: the XYZ value of the channels, each
    /// limited to the range from 0 to 1, with the D65 white attached.
    pub open spec fn spec_from_rgbf(rgbf: RgbF) -> CieXyz {
        CieXyz::from_linear(clamped(rgbf))
    }
}

/// The XYZ value of the channels, each limited to the range from 0 to 1, with
/// the D65 white attached.
impl From<RgbF> for CieXyz {
    fn from(rgbf: RgbF) -> (c: CieXyz) {
        CieXyz::from_linear(clamped(rgbf))
    }
}

impl FromSpecImpl<RgbF> for CieXyz {
    open spec fn obeys_from_spec() -> bool {
        true
    }

    open spec fn from_spec(rgbf: RgbF) -> CieXyz {
        CieXyz::spec_from_rgbf(rgbf)
    }
}

impl CieXyz {
    /// What converting a `RgbaF` gives: the XYZ value of the color
    /// channels, with the D65 white attached. Alpha is dropped.
    pub open spec fn spec_from_rgbaf(rgbaf: RgbaF) -> CieXyz {
        CieXyz::from_linear(RgbF::spec_from_rgbaf(rgbaf))
    }
}

/// The XYZ value of the color channels, with the D65 white attached. Alpha is
/// dropped.
impl From<RgbaF> for CieXyz {
    fn from(rgbaf: RgbaF) -> (c: CieXyz) {
        CieXyz::from_linear(RgbF::from(rgbaf))
    }
}

impl FromSpecImpl<RgbaF> for CieXyz {
    open spec fn obeys_from_spec() -> bool {
        true
    }

    open spec fn from_spec(rgbaf: RgbaF) -> CieXyz {
        CieXyz::spec_from_rgbaf(rgbaf)
    }
}

impl CieXyz {
    /// What converting a `CieLab` gives: the XYZ value of the L*a*b* value,
    /// relative to the same white.
    pub open spec fn spec_from_cie_lab(lab: CieLab) -> CieXyz {
        lab.to_xyz()
    }
}

/// The XYZ value of the L*a*b* value, relative to the same white.
impl From<CieLab> for CieXyz {
    fn from(lab: CieLab) -> (c: CieXyz) {
        lab.to_xyz()
    }
}

impl FromSpecImpl<CieLab> for CieXyz {
    open spec fn obeys_from_spec() -> bool {
        true
    }

    open spec fn from_spec(lab: CieLab) -> CieXyz {
        CieXyz::spec_from_cie_lab(lab)
    }
}

impl CieXyz {
    /// The XYZ value of the channels, as fractions of 255 taken from
    /// gamma-encoded to linear, with the D65 white attached.
    pub open spec fn spec_from_srgb<K: Fn(MathCall) -> Float32>(
        srgb: Srgb,
        kernel: &K,
    ) -> CieXyz {
        CieXyz::from_linear(expanded(SrgbF::spec_from_srgb(srgb), kernel))
    }

    /// The XYZ value of the channels, as fractions of 255 taken from
    /// gamma-encoded to linear, with the D65 white attached.
    #[verifier::when_used_as_spec(spec_from_srgb)]
    pub fn from_srgb<K: Fn(MathCall) -> Float32>(srgb: Srgb, kernel: &K) -> (c: CieXyz)
        requires
            is_function(*kernel),
        ensures
            c == CieXyz::spec_from_srgb(srgb, kernel),
    {
        CieXyz::from_linear(expanded(SrgbF::from(srgb), kernel))
    }
}

impl CieXyz {
    /// The XYZ value of the channels, taken from gamma-encoded to
    /// linear, with the D65 white attached.
    pub open spec fn spec_from_srgbf<K: Fn(MathCall) -> Float32>(
        srgbf: SrgbF,
        kernel: &K,
    ) -> CieXyz {
        CieXyz::from_linear(expanded(srgbf, kernel))
    }

    /// The XYZ value of the channels, taken from gamma-encoded to
    /// linear, with the D65 white attached.
    #[verifier::when_used_as_spec(spec_from_srgbf)]
    pub fn from_srgbf<K: Fn(MathCall) -> Float32>(srgbf: SrgbF, kernel: &K) -> (c: CieXyz)
        requires
            is_function(*kernel),
        ensures
            c == CieXyz::spec_from_srgbf(srgbf, kernel),
    {
        CieXyz::from_linear(expanded(srgbf, kernel))
    }
}

} // verus!
