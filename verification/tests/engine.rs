// The conversions in floating-point arithmetic, as a second opinion on
// what the library computes on bit patterns.

#![allow(dead_code)]

use ruddle_gui::color::{
    CieLab, CieXyz, Color, ColorFormatName, GrayF, Gray16, Gray8, Hsl, Hsv, ReferenceWhite, Rgb,
    Rgb48, RgbF, Rgba, Rgba64, RgbaF, Srgb, SrgbF,
};
use ruddle_gui::color::kernel::MathCall;
use ruddle_gui::color::transfer::{gamma_compress, gamma_expand};
use ruddle_gui::color::graph::is_direct;
use ruddle_gui::Float32;

/// The value that a bit pattern stands for.
pub fn value(x: Float32) -> f32 {
    f32::from_bits(x.to_bits())
}

/// The bit pattern of a value.
pub fn bits(x: f32) -> Float32 {
    Float32::from_bits(x.to_bits())
}

const D65: [f32; 3] = [0.95047f32, 1.0f32, 1.08883f32];

const RGB_TO_XYZ: [[f32; 3]; 3] = [
    [0.4124564f32, 0.3575761f32, 0.1804375f32],
    [0.2126729f32, 0.7151522f32, 0.0721750f32],
    [0.0193339f32, 0.1191920f32, 0.9503041f32],
];

const XYZ_TO_RGB: [[f32; 3]; 3] = [
    [3.2404542f32, -1.5371385f32, -0.4985314f32],
    [-0.9692660f32, 1.8760108f32, 0.0415560f32],
    [0.0556434f32, -0.2040259f32, 1.0572252f32],
];

const BRADFORD: [[f32; 3]; 3] = [
    [0.8951000f32, 0.2664000f32, -0.1614000f32],
    [-0.7502000f32, 1.7135000f32, 0.0367000f32],
    [0.0389000f32, -0.0685000f32, 1.0296000f32],
];

const BRADFORD_INVERSE: [[f32; 3]; 3] = [
    [0.9869929f32, -0.1470543f32, 0.1599627f32],
    [0.4323053f32, 0.5183603f32, 0.0492912f32],
    [-0.0085287f32, 0.0400428f32, 0.9684867f32],
];

type To = ColorFormatName;

const EPSILON: f32 = 0.008856f32;
const KAPPA: f32 = 903.3f32;

/// Luminance from linear red, green and blue (Rec. 709).
pub fn gray_from_rgb(r: f32, g: f32, b: f32) -> f32 {
    (0.2126f32 * r) + (0.7152f32 * g) + (0.0722f32 * b)
}

/// Linear to gamma-encoded.
pub fn srgb_gamma_compress(channel: f32) -> f32 {
    if channel <= 0.0031308f32 {
        12.92f32 * channel
    } else {
        1.055f32 * channel.powf(1.0f32 / 2.4f32) - 0.055f32
    }
}

/// Gamma-encoded to linear.
pub fn srgb_gamma_expand(channel: f32) -> f32 {
    if channel <= 0.04045f32 {
        channel / 12.92f32
    } else {
        ((channel + 0.055) / 1.055).powf(2.4)
    }
}

fn times(m: &[[f32; 3]; 3], v: [f32; 3]) -> [f32; 3] {
    let mut out = [0.0f32, 0.0f32, 0.0f32];
    for i in 0..3 {
        let mut row_sum = 0.0f32;
        for j in 0..3 {
            row_sum += m[i][j] * v[j];
        }
        out[i] += row_sum;
    }
    out
}

fn product(a: &[[f32; 3]; 3], b: &[[f32; 3]; 3]) -> [[f32; 3]; 3] {
    let mut out = [[0.0f32; 3]; 3];
    for i in 0..3 {
        for j in 0..3 {
            let mut sum = 0.0f32;
            for k in 0..3 {
                sum += a[i][k] * b[k][j];
            }
            out[i][j] = sum;
        }
    }
    out
}

fn white_of(xyz: &CieXyz) -> [f32; 3] {
    match xyz.ref_xyz {
        Some(w) => [value(w.x), value(w.y), value(w.z)],
        None => D65,
    }
}

fn xyz_of(v: [f32; 3]) -> CieXyz {
    CieXyz::new(bits(v[0]), bits(v[1]), bits(v[2]))
}

/// Takes `xyz` from its reference white to the white `dest_ref_xyz`, by
/// the Bradford cone-response transform. The result carries itself as its
/// reference.
pub fn chromatic_adaptation(xyz: CieXyz, dest_ref_xyz: CieXyz) -> CieXyz {
    let src_white = white_of(&xyz);
    let dest_white = [value(dest_ref_xyz.x), value(dest_ref_xyz.y), value(dest_ref_xyz.z)];
    let src_cone = times(&BRADFORD, src_white);
    let dest_cone = times(&BRADFORD, dest_white);
    let scaling = [
        [dest_cone[0] / src_cone[0], 0.0f32, 0.0f32],
        [0.0f32, dest_cone[1] / src_cone[1], 0.0f32],
        [0.0f32, 0.0f32, dest_cone[2] / src_cone[2]],
    ];
    let m = product(&BRADFORD_INVERSE, &product(&scaling, &BRADFORD));
    let dest = times(&m, [value(xyz.x), value(xyz.y), value(xyz.z)]);
    CieXyz {
        x: bits(dest[0]),
        y: bits(dest[1]),
        z: bits(dest[2]),
        ref_xyz: if dest_white == D65 {
            None
        } else {
            Some(ReferenceWhite { x: dest_ref_xyz.x, y: dest_ref_xyz.y, z: dest_ref_xyz.z })
        },
    }
}

/// Attaches a reference white to an XYZ value, adapting the white first
/// where it is relative to a white other than D65.
pub fn xyz_with_reference_white(xyz: CieXyz, ref_white: CieXyz) -> CieXyz {
    let white = match ref_white.ref_xyz {
        Some(w) if [value(w.x), value(w.y), value(w.z)] != D65 => {
            chromatic_adaptation(ref_white, xyz_of(D65))
        }
        _ => ref_white,
    };
    CieXyz { ref_xyz: Some(ReferenceWhite { x: white.x, y: white.y, z: white.z }), ..xyz }
}

/// Attaches a reference white to a Lab value, adapting the white first
/// where it is relative to a white other than D65.
pub fn lab_with_reference_white(lab: CieLab, ref_white: CieXyz) -> CieLab {
    let white = xyz_with_reference_white(xyz_of(D65), ref_white).ref_xyz;
    CieLab { ref_xyz: white, ..lab }
}


/// Takes a Lab value to another reference white, by way of XYZ.
pub fn adapt_to_reference_white(lab: CieLab, ref_xyz: CieXyz) -> CieLab {
    let to_xyz = lab_to_xyz(lab);
    let new_xyz = chromatic_adaptation(to_xyz, ref_xyz);
    xyz_to_lab(new_xyz)
}

fn linear_to_xyz(rgb: [f32; 3]) -> CieXyz {
    let xyz = times(&RGB_TO_XYZ, rgb);
    xyz_with_reference_white(xyz_of(xyz), xyz_of(D65))
}

fn xyz_to_linear(xyz: CieXyz) -> [f32; 3] {
    let src_white = white_of(&xyz);
    let xyz = if src_white[0] != D65[0] || src_white[1] != D65[1] || src_white[2] != D65[2] {
        chromatic_adaptation(xyz, xyz_of(D65))
    } else {
        xyz
    };
    times(&XYZ_TO_RGB, [value(xyz.x), value(xyz.y), value(xyz.z)])
}

fn xyz_to_lab(xyz: CieXyz) -> CieLab {
    let white = white_of(&xyz);
    let f = |t: f32| if t > EPSILON { t.cbrt() } else { (KAPPA * t + 16.0f32) / 116.0f32 };
    let f_x = f(value(xyz.x) / white[0]);
    let f_y = f(value(xyz.y) / white[1]);
    let f_z = f(value(xyz.z) / white[2]);
    let l = 116.0f32 * f_y - 16.0f32;
    let a = 500.0f32 * (f_x - f_y);
    let b = 200.0f32 * (f_y - f_z);
    lab_with_reference_white(CieLab::new(bits(l), bits(a), bits(b)), xyz_of(white))
}

fn lab_ratios(lab: &CieLab) -> (f32, f32) {
    let l = value(lab.l);
    let f_y = (l + 16.0f32) / 116.0f32;
    let y_r = if l > KAPPA * EPSILON { f_y.powi(3) } else { l / KAPPA };
    (f_y, y_r)
}

fn lab_to_xyz(lab: CieLab) -> CieXyz {
    let white = match lab.ref_xyz {
        Some(w) => [value(w.x), value(w.y), value(w.z)],
        None => D65,
    };
    let (f_y, y_r) = lab_ratios(&lab);
    let f_z = f_y - (value(lab.b) / 200.0f32);
    let f_x = (value(lab.a) / 500.0f32) + f_y;
    let ratio = |f: f32| {
        if f.powi(3) > EPSILON {
            f.powi(3)
        } else {
            (116.0f32 * f - 16.0f32) / KAPPA
        }
    };
    let x = ratio(f_x) * white[0];
    let y = y_r * white[1];
    let z = ratio(f_z) * white[2];
    xyz_with_reference_white(xyz_of([x, y, z]), xyz_of(white))
}

fn lab_to_gray(lab: CieLab) -> f32 {
    xyz_to_gray(lab_to_xyz(lab)).clamp(0.0f32, 1.0f32)
}

fn xyz_to_gray(xyz: CieXyz) -> f32 {
    let xyz = match xyz.ref_xyz {
        Some(w) if [value(w.x), value(w.y), value(w.z)] != D65 => {
            chromatic_adaptation(xyz, xyz_of(D65))
        }
        _ => xyz,
    };
    value(xyz.y)
}

/// Linear red, green and blue from chroma `c`, hue `h` in sixths of the
/// circle, and the offset `m`. `upper` tells whether a sector holds its
/// upper or its lower boundary; either way the full circle is the hue 0.
fn from_hue(c: f32, h: f32, m: f32, upper: bool) -> [f32; 3] {
    let h = if !upper && h == 6.0f32 { 0.0f32 } else { h };
    let x = c * (1.0f32 - ((h % 2.0f32) - 1.0f32).abs());
    let within = |low: f32| {
        if upper {
            (low < h || (low == 0.0f32 && h == 0.0f32)) && h <= low + 1.0f32
        } else {
            low <= h && h < low + 1.0f32
        }
    };
    let (r, g, b) = if within(0.0f32) {
        (c, x, 0.0f32)
    } else if within(1.0f32) {
        (x, c, 0.0f32)
    } else if within(2.0f32) {
        (0.0f32, c, x)
    } else if within(3.0f32) {
        (0.0f32, x, c)
    } else if within(4.0f32) {
        (x, 0.0f32, c)
    } else if within(5.0f32) {
        (c, 0.0f32, x)
    } else {
        (0.0f32, 0.0f32, 0.0f32)
    };
    [r + m, g + m, b + m]
}

fn hsv_to_linear(hsv: Hsv) -> [f32; 3] {
    let (s, v) = (value(hsv.s), value(hsv.v));
    let c = s * v;
    from_hue(c, value(hsv.h) / 60.0f32, v - c, true)
}

fn hsl_to_linear(hsl: Hsl) -> [f32; 3] {
    let (s, l) = (value(hsl.s), value(hsl.l));
    let c = (1.0f32 - ((2.0f32 * l) - 1.0f32).abs()) * s;
    from_hue(c, value(hsl.h) / 60.0f32, l - (c / 2.0f32), false)
}

/// Hue in degrees, with the greatest and the least of `channels`. The hue
/// is taken from the differences of `raw`.
fn hue_and_extrema(channels: [f32; 3], _raw: [f32; 3]) -> (f32, f32, f32) {
    let mut max_idx = 0;
    let mut min_idx = 0;
    for i in 0..channels.len() {
        if channels[i] >= channels[max_idx] {
            max_idx = i;
        }
        if channels[i] <= channels[min_idx] {
            min_idx = i;
        }
    }
    let c = channels[max_idx] - channels[min_idx];
    let raw = channels;
    let h = if c == 0.0f32 {
        0.0f32
    } else if max_idx == 0 {
        into_circle(60.0f32 * ((raw[1] - raw[2]) / c))
    } else if max_idx == 1 {
        into_circle(60.0f32 * (2.0f32 + ((raw[2] - raw[0]) / c)))
    } else {
        into_circle(60.0f32 * (4.0f32 + ((raw[0] - raw[1]) / c)))
    };
    (h, channels[max_idx], channels[min_idx])
}

/// A hue brought into the circle from 0 up to below 360 degrees.
fn into_circle(h: f32) -> f32 {
    if h.is_nan() {
        h
    } else if h < 0.0f32 {
        let wrapped = h + 360.0f32;
        if 0.0f32 <= wrapped && wrapped < 360.0f32 {
            wrapped
        } else {
            0.0f32
        }
    } else if h < 360.0f32 {
        h
    } else {
        0.0f32
    }
}

fn linear_to_hsv(channels: [f32; 3], raw: [f32; 3]) -> Hsv {
    let (h, max, min) = hue_and_extrema(channels, raw);
    let c = max - min;
    let v = max;
    let s = if v == 0.0f32 { 0.0f32 } else { c / v };
    Hsv::new(bits(h), bits(s), bits(v))
}

fn linear_to_hsl(channels: [f32; 3], raw: [f32; 3]) -> Hsl {
    let (h, max, min) = hue_and_extrema(channels, raw);
    let l = (max + min) / 2.0f32;
    let s = if l == 1.0f32 || l == 0.0f32 {
        0.0f32
    } else {
        (max - l) / (if l >= 0.5f32 { 1.0f32 - l } else { l })
    };
    Hsl::new(bits(h), bits(s), bits(l))
}

fn hsl_to_hsv(hsl: Hsl) -> Hsv {
    let (s, l) = (value(hsl.s), value(hsl.l));
    let v = l + s * (if l >= 0.5f32 { 1.0f32 - l } else { l });
    let s = if v == 0.0f32 { 0.0f32 } else { 2.0f32 * (1.0f32 - (l / v)) };
    Hsv::new(hsl.h, bits(s), bits(v))
}

fn hsv_to_hsl(hsv: Hsv) -> Hsl {
    let (s, v) = (value(hsv.s), value(hsv.v));
    let l = v * (1.0f32 - (s / 2.0f32));
    let s = if l == 1.0f32 || l == 0.0f32 {
        0.0f32
    } else {
        (v - l) / (if l >= 0.5f32 { 1.0f32 - l } else { l })
    };
    Hsl::new(hsv.h, bits(s), bits(l))
}

fn unit8(r: u8, g: u8, b: u8) -> [f32; 3] {
    [r as f32 / 255.0f32, g as f32 / 255.0f32, b as f32 / 255.0f32]
}

fn expanded(c: [f32; 3]) -> [f32; 3] {
    [srgb_gamma_expand(c[0]), srgb_gamma_expand(c[1]), srgb_gamma_expand(c[2])]
}

fn compressed(c: [f32; 3]) -> [f32; 3] {
    [srgb_gamma_compress(c[0]), srgb_gamma_compress(c[1]), srgb_gamma_compress(c[2])]
}

fn clamped(c: [f32; 3]) -> [f32; 3] {
    [c[0].clamp(0.0f32, 1.0f32), c[1].clamp(0.0f32, 1.0f32), c[2].clamp(0.0f32, 1.0f32)]
}

fn luminance(c: [f32; 3]) -> f32 {
    gray_from_rgb(c[0], c[1], c[2])
}

fn gray_f(lum: f32) -> Color {
    Color::Grayf(GrayF::new(bits(lum)))
}

fn rgb_8(c: [f32; 3]) -> Color {
    Color::RGB(Rgb::new((c[0] * 255.0f32) as u8, (c[1] * 255.0f32) as u8, (c[2] * 255.0f32) as u8))
}

fn srgb_8(c: [f32; 3]) -> Color {
    Color::SRGB(Srgb::new(
        (c[0] * 255.0f32) as u8,
        (c[1] * 255.0f32) as u8,
        (c[2] * 255.0f32) as u8,
    ))
}

fn rgb_f(c: [f32; 3]) -> Color {
    Color::RGBf(RgbF::new(bits(c[0]), bits(c[1]), bits(c[2])))
}

fn srgb_f(c: [f32; 3]) -> Color {
    Color::SRGBf(SrgbF::new(bits(c[0]), bits(c[1]), bits(c[2])))
}

/// Linear channels of a value of one of the RGB formats and of the hue
/// formats, with what is to be used for the extrema of hue-based targets.
fn linear_channels(c: &Color) -> Option<([f32; 3], [f32; 3])> {
    match *c {
        Color::RGB(v) => {
            let lin = unit8(v.r, v.g, v.b);
            Some((lin, lin))
        }
        Color::SRGB(v) => {
            let lin = expanded(unit8(v.r, v.g, v.b));
            Some((lin, lin))
        }
        Color::SRGBf(v) => {
            let lin = expanded([value(v.r), value(v.g), value(v.b)]);
            Some((lin, lin))
        }
        Color::RGBf(v) => {
            let raw = [value(v.r), value(v.g), value(v.b)];
            Some((clamped(raw), raw))
        }
        Color::RGBAf(v) => {
            let raw = [value(v.r), value(v.g), value(v.b)];
            Some((raw, raw))
        }
        _ => None,
    }
}

/// The pairwise conversions that take arithmetic on single-precision
/// values: `c` converted to the format `to`.
///
/// Called for a pair that has no pairwise conversion, or for one that the
/// library converts itself, it panics.
pub fn direct(c: Color, to: ColorFormatName) -> Color {
    match (c, to) {
        // luminance
        (Color::RGB(v), To::Grayf) => {
            gray_f(gray_from_rgb(v.r as f32, v.g as f32, v.b as f32) / 255.0f32)
        }
        (Color::RGBA(v), To::Grayf) => {
            gray_f(gray_from_rgb(v.r as f32, v.g as f32, v.b as f32) / 255.0f32)
        }
        (Color::RGB48(v), To::Grayf) => {
            gray_f(gray_from_rgb(v.r as f32, v.g as f32, v.b as f32) / 65535.0f32)
        }
        (Color::RGBA64(v), To::Grayf) => {
            gray_f(gray_from_rgb(v.r as f32, v.g as f32, v.b as f32) / 65535.0f32)
        }
        (Color::SRGB(v), To::Grayf) => gray_f(luminance(expanded(unit8(v.r, v.g, v.b)))),
        (Color::SRGBf(v), To::Grayf) => {
            gray_f(luminance(expanded([value(v.r), value(v.g), value(v.b)])))
        }
        (Color::RGBf(v), To::Grayf) => gray_f(luminance([value(v.r), value(v.g), value(v.b)])),
        (Color::RGBAf(v), To::Grayf) => gray_f(luminance([value(v.r), value(v.g), value(v.b)])),
        (Color::CIEXYZ(v), To::Grayf) => gray_f(xyz_to_gray(v)),
        (Color::CIELab(v), To::Grayf) => gray_f(lab_to_gray(v)),
        (Color::RGBf(v), To::Gray8) => {
            let lum = luminance([value(v.r), value(v.g), value(v.b)]).clamp(0.0f32, 1.0f32);
            Color::Gray8(Gray8::new((lum * 255.0f32) as u8))
        }
        (Color::RGBAf(v), To::Gray8) => {
            let lum = luminance([value(v.r), value(v.g), value(v.b)]);
            Color::Gray8(Gray8::new((lum * 255.0f32) as u8))
        }
        (Color::RGBf(v), To::Gray16) => {
            let lum = luminance([value(v.r), value(v.g), value(v.b)]).clamp(0.0f32, 1.0f32);
            Color::Gray16(Gray16::new((lum * 65535.0f32) as u16))
        }
        (Color::RGBAf(v), To::Gray16) => {
            let lum = luminance([value(v.r), value(v.g), value(v.b)]);
            Color::Gray16(Gray16::new((lum * 65535.0f32) as u16))
        }
        // gamma
        (Color::Grayf(v), To::SRGB) => {
            let g = srgb_gamma_compress(value(v.luminance));
            srgb_8([g, g, g])
        }
        (Color::Grayf(v), To::SRGBf) => {
            let g = srgb_gamma_compress(value(v.luminance));
            srgb_f([g, g, g])
        }
        (Color::RGB(v), To::SRGBf) => srgb_f(compressed(unit8(v.r, v.g, v.b))),
        (Color::RGBf(v), To::SRGB) => {
            srgb_8(compressed(clamped([value(v.r), value(v.g), value(v.b)])))
        }
        (Color::RGBAf(v), To::SRGB) => srgb_8(compressed([value(v.r), value(v.g), value(v.b)])),
        (Color::RGBf(v), To::SRGBf) => srgb_f(compressed([value(v.r), value(v.g), value(v.b)])),
        (Color::RGBAf(v), To::SRGBf) => srgb_f(compressed([value(v.r), value(v.g), value(v.b)])),
        (Color::SRGB(v), To::RGBf) => rgb_f(expanded(unit8(v.r, v.g, v.b))),
        (Color::SRGBf(v), To::RGBf) => rgb_f(expanded([value(v.r), value(v.g), value(v.b)])),
        (Color::SRGBf(v), To::RGB) => {
            rgb_8(expanded(clamped([value(v.r), value(v.g), value(v.b)])))
        }
        // hue
        (Color::HSV(v), To::RGB) => rgb_8(hsv_to_linear(v)),
        (Color::HSL(v), To::RGB) => rgb_8(hsl_to_linear(v)),
        (Color::HSV(v), To::RGBf) => rgb_f(hsv_to_linear(v)),
        (Color::HSL(v), To::RGBf) => rgb_f(hsl_to_linear(v)),
        (Color::HSV(v), To::SRGB) => srgb_8(compressed(clamped(hsv_to_linear(v)))),
        (Color::HSL(v), To::SRGB) => srgb_8(compressed(clamped(hsl_to_linear(v)))),
        (Color::HSV(v), To::SRGBf) => srgb_f(compressed(hsv_to_linear(v))),
        (Color::HSL(v), To::SRGBf) => srgb_f(compressed(hsl_to_linear(v))),
        (Color::HSV(v), To::HSL) => Color::HSL(hsv_to_hsl(v)),
        (Color::HSL(v), To::HSV) => Color::HSV(hsl_to_hsv(v)),
        (source, To::HSV) if linear_channels(&source).is_some() => {
            let (channels, raw) = linear_channels(&source).unwrap();
            Color::HSV(linear_to_hsv(channels, raw))
        }
        (source, To::HSL) if linear_channels(&source).is_some() => {
            let (channels, raw) = linear_channels(&source).unwrap();
            Color::HSL(linear_to_hsl(channels, raw))
        }
        // CIE
        (source, To::CIEXYZ) if linear_channels(&source).is_some() => {
            let (channels, _) = linear_channels(&source).unwrap();
            Color::CIEXYZ(linear_to_xyz(channels))
        }
        (Color::CIELab(v), To::CIEXYZ) => Color::CIEXYZ(lab_to_xyz(v)),
        (Color::CIEXYZ(v), To::CIELab) => Color::CIELab(xyz_to_lab(v)),
        (Color::CIEXYZ(v), To::RGB) => rgb_8(clamped(xyz_to_linear(v))),
        (Color::CIEXYZ(v), To::RGBf) => rgb_f(xyz_to_linear(v)),
        (Color::CIEXYZ(v), To::SRGB) => srgb_8(clamped(compressed(xyz_to_linear(v)))),
        (Color::CIEXYZ(v), To::SRGBf) => srgb_f(compressed(xyz_to_linear(v))),
        (source, target) => panic!(
            "no single-precision conversion from {:?} to {:?}",
            source.get_format(),
            target
        ),
    }
}

/// Answers a call with the platform's function.
fn kernel(call: MathCall) -> Float32 {
    match call {
        MathCall::Powf(x, y) => bits(value(x).powf(value(y))),
        MathCall::Cbrt(x) => bits(value(x).cbrt()),
    }
}

/// Converts with the library.
fn convert(from: Color, to: ColorFormatName) -> Color {
    Color::convert(from, to, kernel)
}

fn f(x: f32) -> Float32 {
    bits(x)
}

fn close(a: f32, b: f32, tolerance: f32) -> bool {
    (a - b).abs() <= tolerance * b.abs().max(1.0)
}

fn rgb_f_of(c: Color) -> [f32; 3] {
    match c {
        Color::RGBf(v) => [value(v.r), value(v.g), value(v.b)],
        other => panic!("not RgbF: {:?}", other),
    }
}

#[test]
fn pure_red_in_other_formats() {
    let red = Color::RGB(Rgb::new(255, 0, 0));
    assert_eq!(
        convert(red, ColorFormatName::HSV),
        Color::HSV(Hsv::new(f(0.0), f(1.0), f(1.0)))
    );
    assert_eq!(convert(red, ColorFormatName::SRGB), Color::SRGB(Srgb::new(255, 0, 0)));
    match convert(red, ColorFormatName::CIEXYZ) {
        Color::CIEXYZ(xyz) => {
            assert!(close(value(xyz.x), 0.4125, 1e-4));
            assert!(close(value(xyz.y), 0.2127, 1e-4));
            assert!(close(value(xyz.z), 0.0193, 1e-4));
            assert_eq!(
                xyz.ref_xyz,
                Some(ReferenceWhite { x: f(0.95047), y: f(1.0), z: f(1.08883) })
            );
        }
        other => panic!("not CieXyz: {:?}", other),
    }
}

#[test]
fn gamma_round_trip_at_the_sample_points() {
    let eps = 1e-6f32;
    for x in [
        0.0f32,
        0.0031308 - eps,
        0.0031308 + eps,
        0.04045 - eps,
        0.04045 + eps,
        0.5,
        1.0,
    ] {
        let there = gamma_compress(bits(x), &kernel);
        assert_eq!(there, bits(srgb_gamma_compress(x)));
        assert!(close(value(gamma_expand(there, &kernel)), x, 1e-5), "{}", x);
        let back = gamma_expand(bits(x), &kernel);
        assert_eq!(back, bits(srgb_gamma_expand(x)));
        assert!(close(value(gamma_compress(back, &kernel)), x, 1e-5), "{}", x);
    }
}

#[test]
fn hue_wraps_at_the_full_circle() {
    for (s, v) in [(1.0f32, 1.0f32), (0.5, 0.75), (0.25, 0.1)] {
        let at_zero = convert(Color::HSV(Hsv::new(f(0.0), f(s), f(v))), ColorFormatName::RGBf);
        let at_full = convert(Color::HSV(Hsv::new(f(360.0), f(s), f(v))), ColorFormatName::RGBf);
        assert_eq!(at_zero, at_full);
        let at_zero = convert(Color::HSL(Hsl::new(f(0.0), f(s), f(v))), ColorFormatName::RGBf);
        let at_full = convert(Color::HSL(Hsl::new(f(360.0), f(s), f(v))), ColorFormatName::RGBf);
        assert_eq!(at_zero, at_full);
    }
}

#[test]
fn saturation_is_zero_at_the_extremes() {
    for h in [0.0f32, 90.0, 359.0] {
        for s in [0.0f32, 0.5, 1.0] {
            let dark = convert(Color::HSV(Hsv::new(f(h), f(s), f(0.0))), ColorFormatName::HSL);
            assert_eq!(dark, Color::HSL(Hsl::new(f(h), f(0.0), f(0.0))));
            let black = convert(Color::HSL(Hsl::new(f(h), f(s), f(0.0))), ColorFormatName::HSV);
            assert_eq!(black, Color::HSV(Hsv::new(f(h), f(0.0), f(0.0))));
        }
        let light = convert(Color::HSV(Hsv::new(f(h), f(0.0), f(1.0))), ColorFormatName::HSL);
        assert_eq!(light, Color::HSL(Hsl::new(f(h), f(0.0), f(1.0))));
    }
    for (rgb, l) in [(Rgb::new(0, 0, 0), 0.0f32), (Rgb::new(255, 255, 255), 1.0f32)] {
        assert_eq!(
            convert(Color::RGB(rgb), ColorFormatName::HSL),
            Color::HSL(Hsl::new(f(0.0), f(0.0), f(l)))
        );
        assert_eq!(
            convert(Color::RGB(rgb), ColorFormatName::HSV),
            Color::HSV(Hsv::new(f(0.0), f(0.0), f(l)))
        );
    }
}

#[test]
fn adapting_to_the_own_white_changes_nothing() {
    let d50 = ReferenceWhite { x: f(0.96422), y: f(1.0), z: f(0.82521) };
    for xyz in [
        CieXyz::new(f(0.4), f(0.2), f(0.1)),
        CieXyz { x: f(0.3), y: f(0.6), z: f(0.9), ref_xyz: Some(d50) },
    ] {
        let white = match xyz.ref_xyz {
            Some(w) => CieXyz::new(w.x, w.y, w.z),
            None => CieXyz::default(),
        };
        let adapted = CieXyz::chromatic_adaptation(xyz, white);
        assert_eq!(adapted.ref_xyz, xyz.ref_xyz);
        assert!(close(value(adapted.x), value(xyz.x), 1e-5));
        assert!(close(value(adapted.y), value(xyz.y), 1e-5));
        assert!(close(value(adapted.z), value(xyz.z), 1e-5));
    }
}

#[test]
fn direct_and_transitive_paths_agree() {
    let rgb = Color::RGB(Rgb::new(200, 100, 50));
    for to in [
        ColorFormatName::HSV,
        ColorFormatName::HSL,
        ColorFormatName::CIEXYZ,
        ColorFormatName::SRGBf,
        ColorFormatName::Grayf,
    ] {
        let direct_way = convert(rgb, to);
        let through_hub = convert(convert(rgb, ColorFormatName::RGBf), to);
        let a = direct_way.as_bytes();
        let b = through_hub.as_bytes();
        assert_eq!(a.len(), b.len());
        for (x, y) in a.chunks(4).zip(b.chunks(4)) {
            let x = f32::from_ne_bytes([x[0], x[1], x[2], x[3]]);
            let y = f32::from_ne_bytes([y[0], y[1], y[2], y[3]]);
            assert!(close(x, y, 1e-5), "{:?}: {} and {}", to, x, y);
        }
    }
    for to in [ColorFormatName::Gray8, ColorFormatName::RGBA, ColorFormatName::RGB48] {
        let direct_way = convert(rgb, to);
        let through_hub = convert(convert(rgb, ColorFormatName::RGBf), to);
        let a = direct_way.as_bytes();
        let b = through_hub.as_bytes();
        assert_eq!(a.len(), b.len());
        for (x, y) in a.iter().zip(b.iter()) {
            assert!((*x as i32 - *y as i32).abs() <= 1, "{:?}", to);
        }
    }
    let wide = Color::RGB48(Rgb48::new(51400, 25700, 12850));
    assert_eq!(
        convert(wide, ColorFormatName::RGB),
        convert(convert(wide, ColorFormatName::RGBf), ColorFormatName::RGB)
    );
}

#[test]
fn longest_ways_arrive() {
    let lab = Color::CIELab(CieLab::new(f(60.0), f(10.0), f(20.0)));
    let back = convert(convert(lab, ColorFormatName::HSV), ColorFormatName::CIELab);
    match (lab, back) {
        (Color::CIELab(a), Color::CIELab(b)) => {
            assert!(close(value(a.l), value(b.l), 1e-3));
            assert!(close(value(a.a), value(b.a), 1e-2));
            assert!(close(value(a.b), value(b.b), 1e-2));
        }
        _ => panic!("not Lab"),
    }
    let gray = convert(Color::HSL(Hsl::new(f(10.0), f(0.0), f(0.5))), ColorFormatName::Gray8);
    assert_eq!(gray, Color::Gray8(Gray8::new(127)));
    let hue = rgb_f_of(convert(Color::HSV(Hsv::new(f(120.0), f(1.0), f(1.0))), ColorFormatName::RGBf));
    assert_eq!(hue, [0.0, 1.0, 0.0]);
}

fn next(state: &mut u32) -> u32 {
    *state ^= *state << 13;
    *state ^= *state >> 17;
    *state ^= *state << 5;
    *state
}

/// A single-precision channel: mostly a value near the unit range, now and
/// then any bit pattern or a value at an edge.
fn any_channel(state: &mut u32) -> Float32 {
    let pick = next(state) % 16;
    let x = match pick {
        0 => f32::from_bits(next(state)),
        1 => [0.0f32, -0.0, 1.0, 0.5, 2.0, -1.0, f32::INFINITY, f32::NAN, 1e-40, 0.0031308, 0.04045]
            [(next(state) % 11) as usize],
        2 => (next(state) % 361) as f32,
        3 => (next(state) % 1024) as f32 / 1023.0 * 1.5 - 0.25,
        4 => (next(state) % 256) as f32 / 255.0,
        5 => (next(state) % 7) as f32 * 60.0,
        _ => (next(state) >> 8) as f32 / 16777216.0,
    };
    bits(x)
}

fn any_white(state: &mut u32) -> Option<ReferenceWhite> {
    match next(state) % 4 {
        0 => None,
        1 => Some(ReferenceWhite { x: f(0.95047), y: f(1.0), z: f(1.08883) }),
        2 => Some(ReferenceWhite { x: f(0.96422), y: f(1.0), z: f(0.82521) }),
        _ => Some(ReferenceWhite {
            x: any_channel(state),
            y: any_channel(state),
            z: any_channel(state),
        }),
    }
}

fn any_color(format: ColorFormatName, state: &mut u32) -> Color {
    let mut c = || any_channel(state);
    match format {
        ColorFormatName::Gray8 => Color::Gray8(Gray8::new(0)),
        ColorFormatName::Gray16 => Color::Gray16(Gray16::new(0)),
        ColorFormatName::Grayf => Color::Grayf(GrayF::new(c())),
        ColorFormatName::RGBf => Color::RGBf(RgbF::new(c(), c(), c())),
        ColorFormatName::SRGBf => Color::SRGBf(SrgbF::new(c(), c(), c())),
        ColorFormatName::RGBAf => Color::RGBAf(RgbaF::new(c(), c(), c(), c())),
        ColorFormatName::HSV => Color::HSV(Hsv::new(c(), c(), c())),
        ColorFormatName::HSL => Color::HSL(Hsl::new(c(), c(), c())),
        ColorFormatName::CIEXYZ => {
            let (x, y, z) = (c(), c(), c());
            Color::CIEXYZ(CieXyz { x, y, z, ref_xyz: any_white(state) })
        }
        ColorFormatName::CIELab => {
            let (l, a, b) = (bits(value(c()) * 100.0), bits(value(c()) * 200.0 - 100.0), c());
            Color::CIELab(CieLab { l, a, b, ref_xyz: any_white(state) })
        }
        ColorFormatName::RGB => {
            let n = next(state);
            Color::RGB(Rgb::new(n as u8, (n >> 8) as u8, (n >> 16) as u8))
        }
        ColorFormatName::SRGB => {
            let n = next(state);
            Color::SRGB(Srgb::new(n as u8, (n >> 8) as u8, (n >> 16) as u8))
        }
        ColorFormatName::RGBA => {
            let n = next(state);
            Color::RGBA(Rgba::new(n as u8, (n >> 8) as u8, (n >> 16) as u8, (n >> 24) as u8))
        }
        ColorFormatName::RGB48 => {
            let (n, m) = (next(state), next(state));
            Color::RGB48(Rgb48::new(n as u16, (n >> 16) as u16, m as u16))
        }
        ColorFormatName::RGBA64 => {
            let (n, m) = (next(state), next(state));
            Color::RGBA64(Rgba64::new(n as u16, (n >> 16) as u16, m as u16, (m >> 16) as u16))
        }
    }
}

/// The two values are the same, but that a channel which is not a number
/// in one need only be not a number in the other.
fn agree(ours: Color, theirs: Color) -> bool {
    if ours.get_format() != theirs.get_format() {
        return false;
    }
    let (a, b) = (ours.as_bytes(), theirs.as_bytes());
    if a.len() != b.len() {
        return false;
    }
    let whole = matches!(
        ours.get_format(),
        ColorFormatName::Gray8
            | ColorFormatName::Gray16
            | ColorFormatName::RGB
            | ColorFormatName::SRGB
            | ColorFormatName::RGB48
            | ColorFormatName::RGBA
            | ColorFormatName::RGBA64
    );
    if whole {
        return a == b;
    }
    a.chunks(4).zip(b.chunks(4)).all(|(x, y)| {
        let x = f32::from_ne_bytes([x[0], x[1], x[2], x[3]]);
        let y = f32::from_ne_bytes([y[0], y[1], y[2], y[3]]);
        x.to_bits() == y.to_bits() || (x.is_nan() && y.is_nan())
    })
}

const FLOATING: [(ColorFormatName, ColorFormatName); 55] = [
    (ColorFormatName::Grayf, ColorFormatName::SRGB),
    (ColorFormatName::Grayf, ColorFormatName::SRGBf),
    (ColorFormatName::RGB, ColorFormatName::Grayf),
    (ColorFormatName::RGB, ColorFormatName::SRGBf),
    (ColorFormatName::RGB, ColorFormatName::HSV),
    (ColorFormatName::RGB, ColorFormatName::HSL),
    (ColorFormatName::RGB, ColorFormatName::CIEXYZ),
    (ColorFormatName::SRGB, ColorFormatName::Grayf),
    (ColorFormatName::SRGB, ColorFormatName::RGBf),
    (ColorFormatName::SRGB, ColorFormatName::HSV),
    (ColorFormatName::SRGB, ColorFormatName::HSL),
    (ColorFormatName::SRGB, ColorFormatName::CIEXYZ),
    (ColorFormatName::RGB48, ColorFormatName::Grayf),
    (ColorFormatName::RGBA, ColorFormatName::Grayf),
    (ColorFormatName::RGBA64, ColorFormatName::Grayf),
    (ColorFormatName::RGBf, ColorFormatName::Gray8),
    (ColorFormatName::RGBf, ColorFormatName::Gray16),
    (ColorFormatName::RGBf, ColorFormatName::Grayf),
    (ColorFormatName::RGBf, ColorFormatName::SRGB),
    (ColorFormatName::RGBf, ColorFormatName::SRGBf),
    (ColorFormatName::RGBf, ColorFormatName::HSV),
    (ColorFormatName::RGBf, ColorFormatName::HSL),
    (ColorFormatName::RGBf, ColorFormatName::CIEXYZ),
    (ColorFormatName::SRGBf, ColorFormatName::Grayf),
    (ColorFormatName::SRGBf, ColorFormatName::RGB),
    (ColorFormatName::SRGBf, ColorFormatName::RGBf),
    (ColorFormatName::SRGBf, ColorFormatName::HSV),
    (ColorFormatName::SRGBf, ColorFormatName::HSL),
    (ColorFormatName::SRGBf, ColorFormatName::CIEXYZ),
    (ColorFormatName::RGBAf, ColorFormatName::Gray8),
    (ColorFormatName::RGBAf, ColorFormatName::Gray16),
    (ColorFormatName::RGBAf, ColorFormatName::Grayf),
    (ColorFormatName::RGBAf, ColorFormatName::SRGB),
    (ColorFormatName::RGBAf, ColorFormatName::SRGBf),
    (ColorFormatName::RGBAf, ColorFormatName::HSV),
    (ColorFormatName::RGBAf, ColorFormatName::HSL),
    (ColorFormatName::RGBAf, ColorFormatName::CIEXYZ),
    (ColorFormatName::HSV, ColorFormatName::RGB),
    (ColorFormatName::HSV, ColorFormatName::SRGB),
    (ColorFormatName::HSV, ColorFormatName::RGBf),
    (ColorFormatName::HSV, ColorFormatName::SRGBf),
    (ColorFormatName::HSV, ColorFormatName::HSL),
    (ColorFormatName::HSL, ColorFormatName::RGB),
    (ColorFormatName::HSL, ColorFormatName::SRGB),
    (ColorFormatName::HSL, ColorFormatName::RGBf),
    (ColorFormatName::HSL, ColorFormatName::SRGBf),
    (ColorFormatName::HSL, ColorFormatName::HSV),
    (ColorFormatName::CIEXYZ, ColorFormatName::Grayf),
    (ColorFormatName::CIEXYZ, ColorFormatName::RGB),
    (ColorFormatName::CIEXYZ, ColorFormatName::SRGB),
    (ColorFormatName::CIEXYZ, ColorFormatName::RGBf),
    (ColorFormatName::CIEXYZ, ColorFormatName::SRGBf),
    (ColorFormatName::CIEXYZ, ColorFormatName::CIELab),
    (ColorFormatName::CIELab, ColorFormatName::Grayf),
    (ColorFormatName::CIELab, ColorFormatName::CIEXYZ),
];

#[test]
fn pairwise_conversions_are_those_of_floating_point() {
    let mut state: u32 = 0x0BAD_5EED;
    for (from, to) in FLOATING {
        assert!(is_direct(from, to));
        for _ in 0..20_000 {
            let c = any_color(from, &mut state);
            let ours = c.convert_direct(to, &kernel).unwrap();
            let theirs = direct(c, to);
            assert!(agree(ours, theirs), "{:?} to {:?}: {:?} {:?}", c, to, ours, theirs);
        }
    }
}

#[test]
fn adaptation_is_that_of_floating_point() {
    let mut state: u32 = 0x5EED_0BAD;
    for _ in 0..100_000 {
        let xyz = match any_color(ColorFormatName::CIEXYZ, &mut state) {
            Color::CIEXYZ(v) => v,
            _ => unreachable!(),
        };
        let dest = match any_color(ColorFormatName::CIEXYZ, &mut state) {
            Color::CIEXYZ(v) => v,
            _ => unreachable!(),
        };
        let ours = CieXyz::chromatic_adaptation(xyz, dest);
        let theirs = chromatic_adaptation(xyz, dest);
        assert!(agree(Color::CIEXYZ(ours), Color::CIEXYZ(theirs)), "{:?} {:?}", xyz, dest);
        let ours = xyz.with_reference_white(dest);
        let theirs = xyz_with_reference_white(xyz, dest);
        assert!(agree(Color::CIEXYZ(ours), Color::CIEXYZ(theirs)), "{:?} {:?}", xyz, dest);
        let mut ours = xyz;
        ours.adjust_to_reference_white(dest);
        let theirs = adjusted(xyz, dest);
        assert!(agree(Color::CIEXYZ(ours), Color::CIEXYZ(theirs)), "{:?} {:?}", xyz, dest);
    }
}

/// An XYZ value taken to another reference white, in floating point.
fn adjusted(xyz: CieXyz, dest: CieXyz) -> CieXyz {
    match dest.ref_xyz {
        Some(w) if [value(w.x), value(w.y), value(w.z)] != D65 => {
            chromatic_adaptation(xyz, chromatic_adaptation(dest, xyz_of(D65)))
        }
        _ => chromatic_adaptation(xyz, dest),
    }
}

#[test]
fn lab_reference_white_is_that_of_floating_point() {
    let mut state: u32 = 0xFACE_FEED;
    for _ in 0..50_000 {
        let lab = match any_color(ColorFormatName::CIELab, &mut state) {
            Color::CIELab(v) => v,
            _ => unreachable!(),
        };
        let white = match any_color(ColorFormatName::CIEXYZ, &mut state) {
            Color::CIEXYZ(v) => v,
            _ => unreachable!(),
        };
        let ours = lab.with_reference_white(white);
        let theirs = lab_with_reference_white(lab, white);
        assert!(agree(Color::CIELab(ours), Color::CIELab(theirs)), "{:?} {:?}", lab, white);
        let ours = CieLab::adapt_to_reference_white(lab, white, &kernel);
        let theirs = adapt_to_reference_white(lab, white);
        assert!(agree(Color::CIELab(ours), Color::CIELab(theirs)), "{:?} {:?}", lab, white);
    }
}

#[test]
fn adapted_value_is_relative_to_the_destination() {
    let d50 = CieXyz::new(f(0.96422), f(1.0), f(0.82521));
    let xyz = CieXyz::new(f(0.4), f(0.3), f(0.2));
    let there = CieXyz::chromatic_adaptation(xyz, d50);
    assert_eq!(there.ref_xyz, Some(ReferenceWhite { x: d50.x, y: d50.y, z: d50.z }));
    assert!((value(there.x) - 0.4).abs() < 0.05 && value(there.x) != 0.4);
    let back = CieXyz::chromatic_adaptation(there, CieXyz::default());
    assert_eq!(back.ref_xyz, None);
    assert!(close(value(back.x), 0.4, 1e-4));
    assert!(close(value(back.y), 0.3, 1e-4));
    assert!(close(value(back.z), 0.2, 1e-4));
    let mut moved = xyz;
    moved.adjust_to_reference_white(d50);
    assert_eq!(moved, there);
    let color = convert(Color::CIEXYZ(xyz), ColorFormatName::RGBf);
    let same = convert(Color::CIEXYZ(moved), ColorFormatName::RGBf);
    for (a, b) in rgb_f_of(color).iter().zip(rgb_f_of(same).iter()) {
        assert!(close(*a, *b, 1e-4), "{} and {}", a, b);
    }
    match (convert(Color::CIEXYZ(xyz), ColorFormatName::Grayf), convert(Color::CIEXYZ(moved), ColorFormatName::Grayf)) {
        (Color::Grayf(a), Color::Grayf(b)) => {
            assert!(close(value(a.luminance), value(b.luminance), 1e-4));
            assert_eq!(a.luminance, xyz.y);
        }
        _ => panic!("not GrayF"),
    }
}

#[test]
fn adapting_lab_to_its_own_white_changes_nothing() {
    let lab = CieLab::new(f(50.0), f(10.0), f(-10.0));
    let same = CieLab::adapt_to_reference_white(lab, CieXyz::new(f(0.95047), f(1.0), f(1.08883)), &kernel);
    assert!((value(same.l) - 50.0).abs() < 0.01);
    assert!((value(same.a) - 10.0).abs() < 0.01);
    assert!((value(same.b) + 10.0).abs() < 0.01);
    let d50 = CieXyz::new(f(0.96422), f(1.0), f(0.82521));
    let moved = CieLab::adapt_to_reference_white(lab, d50, &kernel);
    assert_eq!(moved.ref_xyz, Some(ReferenceWhite { x: d50.x, y: d50.y, z: d50.z }));
    assert!((value(moved.l) - 50.0).abs() < 0.5);
    assert!((value(moved.a) - 10.0).abs() < 2.0);
    assert!((value(moved.b) + 10.0).abs() < 2.0);
    let white = CieLab::adapt_to_reference_white(CieLab::new(f(100.0), f(0.0), f(0.0)), d50, &kernel);
    assert!((value(white.l) - 100.0).abs() < 0.01);
    assert!(value(white.a).abs() < 0.01 && value(white.b).abs() < 0.01);
}

#[test]
fn hue_is_in_the_circle() {
    let magenta = Hsv::from(Rgb::new(255, 0, 128));
    assert!((value(magenta.h) - 329.88).abs() < 0.01);
    assert_eq!((magenta.s, magenta.v), (f(1.0), f(1.0)));
    assert!((value(Hsl::from(Rgb::new(255, 0, 128)).h) - 329.88).abs() < 0.01);
    for rgb in [Rgb::new(255, 0, 128), Rgb::new(255, 0, 1), Rgb::new(200, 10, 199), Rgb::new(9, 8, 7)] {
        let back = Rgb::from(Hsv::from(rgb));
        for (a, b) in [(back.r, rgb.r), (back.g, rgb.g), (back.b, rgb.b)] {
            assert!((a as i32 - b as i32).abs() <= 1, "{:?} came back as {:?}", rgb, back);
        }
    }
    let mut state: u32 = 0xC1C1_E000;
    for _ in 0..200_000 {
        let n = next(&mut state);
        let rgb = Rgb::new(n as u8, (n >> 8) as u8, (n >> 16) as u8);
        for h in [value(Hsv::from(rgb).h), value(Hsl::from(rgb).h)] {
            assert!(0.0 <= h && h < 360.0, "{:?} has hue {}", rgb, h);
        }
        let c = any_color(ColorFormatName::RGBf, &mut state);
        if let Color::HSV(hsv) = convert(c, ColorFormatName::HSV) {
            let h = value(hsv.h);
            assert!(h.is_nan() || (0.0 <= h && h < 360.0), "{:?} has hue {}", c, h);
        }
    }
    let nearly = Hsv::from(RgbF::new(f(1.0), f(0.0), f(1e-30)));
    assert_eq!(nearly.h, f(0.0));
}

#[test]
fn luminance_of_lab_is_in_default_terms() {
    let d50 = ReferenceWhite { x: f(0.96422), y: f(1.0), z: f(0.82521) };
    let mut lab = CieLab::new(f(60.0), f(40.0), f(-30.0));
    lab.ref_xyz = Some(d50);
    let direct = GrayF::from(lab).luminance;
    let through = GrayF::from(CieXyz::from(lab)).luminance;
    assert_eq!(direct, through.clamp_unit());
    let plain = CieLab::new(f(60.0), f(40.0), f(-30.0));
    let y = value(GrayF::from(plain).luminance);
    assert!(value(direct) != y && (value(direct) - y).abs() < 0.05, "{} and {}", value(direct), y);
    assert!((y - 0.2812).abs() < 1e-3, "{}", y);
    assert_eq!(GrayF::from(plain).luminance, CieXyz::from(plain).y);
}
