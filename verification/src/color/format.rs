//! The closed set of color formats and what every format can do.

use crate::byte_order::ByteOrder;
use vstd::prelude::*;
use vstd::string::StringExecFns;

verus! {

/// The tag of a color format.
#[derive(Copy, Clone, Debug, PartialEq, Eq, Structural)]
pub enum ColorFormatName {
    Gray8,
    Gray16,
    Grayf,
    RGB,
    SRGB,
    RGB48,
    RGBA,
    RGBA64,
    RGBf,
    SRGBf,
    RGBAf,
    HSV,
    HSL,
    CIEXYZ,
    CIELab,
}

/// The number of channels of a format.
pub open spec fn spec_channel_count(format: ColorFormatName) -> nat {
    match format {
        ColorFormatName::Gray8 | ColorFormatName::Gray16 | ColorFormatName::Grayf => 1,
        ColorFormatName::RGBA | ColorFormatName::RGBA64 | ColorFormatName::RGBAf => 4,
        _ => 3,
    }
}

/// The number of bytes of one channel of a format.
pub open spec fn spec_channel_width(format: ColorFormatName) -> nat {
    match format {
        ColorFormatName::Gray8
        | ColorFormatName::RGB
        | ColorFormatName::SRGB
        | ColorFormatName::RGBA => 1,
        ColorFormatName::Gray16 | ColorFormatName::RGB48 | ColorFormatName::RGBA64 => 2,
        _ => 4,
    }
}

/// The byte footprint of a value of the format that carries no reference
/// white: its channels, one after the other.
pub open spec fn spec_bytes_per_pixel(format: ColorFormatName) -> nat {
    spec_channel_count(format) * spec_channel_width(format)
}

/// The format can carry a reference white, which doubles its footprint.
pub open spec fn has_long_form(format: ColorFormatName) -> bool {
    format == ColorFormatName::CIEXYZ || format == ColorFormatName::CIELab
}

/// A byte string of this length decodes to a value of the format.
pub open spec fn accepts_len(format: ColorFormatName, len: nat) -> bool {
    len == spec_bytes_per_pixel(format) || (has_long_form(format) && len == 2
        * spec_bytes_per_pixel(format))
}

/// Why a byte string did not decode: its length is none that the format has.
#[derive(Copy, Clone, Debug, PartialEq, Eq, Structural)]
pub struct DecodeError {
    /// The format that was asked for.
    pub format: ColorFormatName,
    /// The footprint of the format without a reference white.
    pub expected: usize,
    /// The footprint with a reference white, 0 for a format that carries none.
    pub expected_long: usize,
    /// The number of bytes that were given.
    pub actual: usize,
}

/// The error that a byte string of length `actual` meets for `format`.
pub open spec fn length_error(format: ColorFormatName, actual: nat) -> DecodeError {
    DecodeError {
        format,
        expected: spec_bytes_per_pixel(format) as usize,
        expected_long: if has_long_form(format) {
            (2 * spec_bytes_per_pixel(format)) as usize
        } else {
            0
        },
        actual: actual as usize,
    }
}

/// What decoding gives for a byte string of length `len`: `value`, which is
/// what the bytes lay out, where the length is one that the format has, and
/// the length error where it is not.
pub open spec fn decode_outcome<C>(format: ColorFormatName, len: nat, value: C) -> Result<
    C,
    DecodeError,
> {
    if accepts_len(format, len) {
        Ok(value)
    } else {
        Err(length_error(format, len))
    }
}

/// What every color format can do.
pub trait ColorFormat: Sized {
    /// The tag of the format.
    spec fn name() -> ColorFormatName;

    /// The value is one that the format's constructors make.
    spec fn wf(&self) -> bool;

    /// The channels as bytes, first channel first, each in the given byte
    /// order, followed by the reference white where one is attached.
    spec fn encoding(&self, order: ByteOrder) -> Seq<u8>;

    /// The value laid out in `bytes`, whose length is one the format has.
    spec fn decoding(bytes: Seq<u8>, order: ByteOrder) -> Self;

    /// Decoding the encoding of a value gives the value back, bit for bit.
    proof fn lemma_roundtrip(v: Self, order: ByteOrder)
        requires
            v.wf(),
        ensures
            accepts_len(Self::name(), v.encoding(order).len()),
            Self::decoding(v.encoding(order), order) == v,
    ;

    /// Whatever is decoded is a value that the format's constructors make.
    proof fn lemma_decoding_wf(bytes: Seq<u8>, order: ByteOrder)
        requires
            accepts_len(Self::name(), bytes.len()),
        ensures
            Self::decoding(bytes, order).wf(),
    ;

    /// The tag of the format.
    fn format_name() -> (format: ColorFormatName)
        ensures
            format == Self::name(),
    ;

    /// The channels as bytes in the given byte order.
    fn to_bytes_in(&self, order: ByteOrder) -> (bytes: Vec<u8>)
        ensures
            bytes@ == self.encoding(order),
    ;

    /// Decodes a value whose channels are laid out in the given byte order.
    fn from_bytes_in(bytes: &[u8], order: ByteOrder) -> (r: Result<Self, DecodeError>)
        ensures
            r == decode_outcome(Self::name(), bytes@.len(), Self::decoding(bytes@, order)),
    ;

    /// The number of channels.
    fn channel_count() -> (n: u8)
        ensures
            n == spec_channel_count(Self::name()),
    {
        channel_count_of(Self::format_name())
    }

    /// The byte footprint of a value without a reference white.
    fn bytes_per_pixel() -> (n: usize)
        ensures
            n == spec_bytes_per_pixel(Self::name()),
    {
        get_bpp_for_format(Self::format_name())
    }

    /// The channels as bytes in the byte order of this machine.
    fn to_bytes(self) -> (bytes: Vec<u8>)
        ensures
            bytes@ == self.encoding(ByteOrder::Little) || bytes@ == self.encoding(ByteOrder::Big),
    {
        self.to_bytes_in(ByteOrder::native())
    }

    /// The channels as bytes in the byte order of this machine.
    fn as_bytes(&self) -> (bytes: Vec<u8>)
        ensures
            bytes@ == self.encoding(ByteOrder::Little) || bytes@ == self.encoding(ByteOrder::Big),
    {
        self.to_bytes_in(ByteOrder::native())
    }

    /// Decodes a value whose channels are laid out in the byte order of this
    /// machine. Fails exactly when the length is none that the format has.
    fn from_bytes(bytes: &[u8]) -> (r: Result<Self, DecodeError>)
        ensures
            r == decode_outcome(
                Self::name(),
                bytes@.len(),
                Self::decoding(bytes@, ByteOrder::Little),
            ) || r == decode_outcome(
                Self::name(),
                bytes@.len(),
                Self::decoding(bytes@, ByteOrder::Big),
            ),
            r is Ok <==> accepts_len(Self::name(), bytes@.len()),
            r matches Err(e) ==> e == length_error(Self::name(), bytes@.len()),
            r matches Ok(v) ==> v.wf(),
    {
        let order = ByteOrder::native();
        proof {
            if accepts_len(Self::name(), bytes@.len()) {
                Self::lemma_decoding_wf(bytes@, order);
            }
        }
        Self::from_bytes_in(bytes, order)
    }

    /// The tag of the format with the channels as bytes in the byte order of
    /// this machine.
    fn to_raw_parts(self) -> (parts: (ColorFormatName, Vec<u8>))
        ensures
            parts.0 == Self::name(),
            parts.1@ == self.encoding(ByteOrder::Little) || parts.1@ == self.encoding(
                ByteOrder::Big,
            ),
    {
        (Self::format_name(), self.to_bytes_in(ByteOrder::native()))
    }
}

/// The number of channels of a format.
pub fn channel_count_of(format: ColorFormatName) -> (n: u8)
    ensures
        n == spec_channel_count(format),
{
    match format {
        ColorFormatName::Gray8 | ColorFormatName::Gray16 | ColorFormatName::Grayf => 1,
        ColorFormatName::RGBA | ColorFormatName::RGBA64 | ColorFormatName::RGBAf => 4,
        _ => 3,
    }
}

/// The byte footprint of the format of `_p`.
pub fn get_bytes_per_pixel<C: ColorFormat>(_p: C) -> (n: usize)
    ensures
        n == spec_bytes_per_pixel(C::name()),
{
    C::bytes_per_pixel()
}

/// The byte footprint of a format, without a reference white.
pub fn get_bpp_for_format(cfn: ColorFormatName) -> (n: usize)
    ensures
        n == spec_bytes_per_pixel(cfn),
{
    match cfn {
        ColorFormatName::Gray8 => 1,
        ColorFormatName::Gray16 => 2,
        ColorFormatName::Grayf => 4,
        ColorFormatName::RGB => 3,
        ColorFormatName::SRGB => 3,
        ColorFormatName::RGB48 => 6,
        ColorFormatName::RGBA => 4,
        ColorFormatName::RGBA64 => 8,
        ColorFormatName::RGBf => 12,
        ColorFormatName::SRGBf => 12,
        ColorFormatName::RGBAf => 16,
        ColorFormatName::HSV => 12,
        ColorFormatName::HSL => 12,
        ColorFormatName::CIEXYZ => 12,
        ColorFormatName::CIELab => 12,
    }
}

/// The length error for `format` and a byte string of length `actual`.
pub fn make_length_error(format: ColorFormatName, actual: usize) -> (e: DecodeError)
    ensures
        e == length_error(format, actual as nat),
{
    let expected = get_bpp_for_format(format);
    let expected_long = match format {
        ColorFormatName::CIEXYZ | ColorFormatName::CIELab => 2 * expected,
        _ => 0,
    };
    DecodeError { format, expected, expected_long, actual }
}

/// The name of the type that holds values of a format.
pub open spec fn spec_type_name(format: ColorFormatName) -> Seq<char> {
    match format {
        ColorFormatName::Gray8 => "Gray8"@,
        ColorFormatName::Gray16 => "Gray16"@,
        ColorFormatName::Grayf => "GrayF"@,
        ColorFormatName::RGB => "Rgb"@,
        ColorFormatName::SRGB => "Srgb"@,
        ColorFormatName::RGB48 => "Rgb48"@,
        ColorFormatName::RGBA => "Rgba"@,
        ColorFormatName::RGBA64 => "Rgba64"@,
        ColorFormatName::RGBf => "RgbF"@,
        ColorFormatName::SRGBf => "SrgbF"@,
        ColorFormatName::RGBAf => "RgbaF"@,
        ColorFormatName::HSV => "Hsv"@,
        ColorFormatName::HSL => "Hsl"@,
        ColorFormatName::CIEXYZ => "CieXyz"@,
        ColorFormatName::CIELab => "CieLab"@,
    }
}

/// The name of the type that holds values of a format.
pub fn type_name_of(format: ColorFormatName) -> (name: &'static str)
    ensures
        name@ == spec_type_name(format),
{
    match format {
        ColorFormatName::Gray8 => "Gray8",
        ColorFormatName::Gray16 => "Gray16",
        ColorFormatName::Grayf => "GrayF",
        ColorFormatName::RGB => "Rgb",
        ColorFormatName::SRGB => "Srgb",
        ColorFormatName::RGB48 => "Rgb48",
        ColorFormatName::RGBA => "Rgba",
        ColorFormatName::RGBA64 => "Rgba64",
        ColorFormatName::RGBf => "RgbF",
        ColorFormatName::SRGBf => "SrgbF",
        ColorFormatName::RGBAf => "RgbaF",
        ColorFormatName::HSV => "Hsv",
        ColorFormatName::HSL => "Hsl",
        ColorFormatName::CIEXYZ => "CieXyz",
        ColorFormatName::CIELab => "CieLab",
    }
}

/// The decimal digit `d`, as text.
pub open spec fn digit_text(d: nat) -> Seq<char> {
    if d == 0 {
        "0"@
    } else if d == 1 {
        "1"@
    } else if d == 2 {
        "2"@
    } else if d == 3 {
        "3"@
    } else if d == 4 {
        "4"@
    } else if d == 5 {
        "5"@
    } else if d == 6 {
        "6"@
    } else if d == 7 {
        "7"@
    } else if d == 8 {
        "8"@
    } else {
        "9"@
    }
}

/// The number `n` in decimal, as text.
pub open spec fn decimal_text(n: nat) -> Seq<char>
    decreases n,
{
    if n < 10 {
        digit_text(n)
    } else {
        decimal_text(n / 10) + digit_text(n % 10)
    }
}

/// The decimal digit `d`, as text.
fn digit(d: usize) -> (text: &'static str)
    requires
        d < 10,
    ensures
        text@ == digit_text(d as nat),
{
    match d {
        0 => "0",
        1 => "1",
        2 => "2",
        3 => "3",
        4 => "4",
        5 => "5",
        6 => "6",
        7 => "7",
        8 => "8",
        _ => "9",
    }
}

/// The number `n` in decimal, as text.
pub fn decimal(n: usize) -> (text: String)
    ensures
        text@ == decimal_text(n as nat),
    decreases n,
{
    if n < 10 {
        String::from_str(digit(n))
    } else {
        let mut text = decimal(n / 10);
        text.append(digit(n % 10));
        text
    }
}

impl DecodeError {
    /// The error in words: the type asked for, the footprint or the two
    /// footprints its format has, and the number of bytes given.
    pub open spec fn spec_message(self) -> Seq<char> {
        "Tried to convert to "@ + spec_type_name(self.format)
            + " with wrong number of bytes.\n\t Hint: Should be exactly "@ + (if self.expected_long
            == 0 {
            decimal_text(self.expected as nat)
        } else {
            "either "@ + decimal_text(self.expected as nat) + " or "@ + decimal_text(
                self.expected_long as nat,
            )
        }) + " byte(s). "@ + decimal_text(self.actual as nat) + " bytes were provided."@
    }

    /// The error in words.
    pub fn message(&self) -> (text: String)
        ensures
            text@ == self.spec_message(),
    {
        let mut text = String::from_str("Tried to convert to ");
        text.append(type_name_of(self.format));
        text.append(" with wrong number of bytes.\n\t Hint: Should be exactly ");
        if self.expected_long == 0 {
            text.append(decimal(self.expected).as_str());
        } else {
            text.append("either ");
            text.append(decimal(self.expected).as_str());
            text.append(" or ");
            text.append(decimal(self.expected_long).as_str());
        }
        text.append(" byte(s). ");
        text.append(decimal(self.actual).as_str());
        text.append(" bytes were provided.");
        assert(text@ =~= self.spec_message());
        text
    }
}

} // verus!
