use ruddle_gui::color::channel::{gray16_from_rgb8, gray_from_rgb, narrow, widen};
use ruddle_gui::color::gamma::{srgb_gamma_compress, srgb_gamma_expand};
use ruddle_gui::color::graph::{is_direct, next_hop, route};
use ruddle_gui::color::kernel::MathCall;
use ruddle_gui::color::{
    CieLab, CieXyz, Color, ColorFormatName, Gray16, Gray8, GrayF, Hsl, Hsv, Rgb, Rgb48, RgbF,
    Rgba, Rgba64, RgbaF, Srgb, SrgbF,
};
use ruddle_gui::Float32;

const FORMATS: [ColorFormatName; 15] = [
    ColorFormatName::Gray8,
    ColorFormatName::Gray16,
    ColorFormatName::Grayf,
    ColorFormatName::RGB,
    ColorFormatName::SRGB,
    ColorFormatName::RGB48,
    ColorFormatName::RGBA,
    ColorFormatName::RGBA64,
    ColorFormatName::RGBf,
    ColorFormatName::SRGBf,
    ColorFormatName::RGBAf,
    ColorFormatName::HSV,
    ColorFormatName::HSL,
    ColorFormatName::CIEXYZ,
    ColorFormatName::CIELab,
];

fn f(x: f32) -> Float32 {
    Float32::from_bits(x.to_bits())
}

fn one_of_each() -> Vec<Color> {
    vec![
        Color::Gray8(Gray8::new(200)),
        Color::Gray16(Gray16::new(51234)),
        Color::Grayf(GrayF::new(f(0.25))),
        Color::RGB(Rgb::new(1, 2, 3)),
        Color::SRGB(Srgb::new(250, 128, 0)),
        Color::RGB48(Rgb48::new(0x0102, 0xFFFE, 7)),
        Color::RGBA(Rgba::new(9, 8, 7, 6)),
        Color::RGBA64(Rgba64::new(1000, 2000, 3000, 65535)),
        Color::RGBf(RgbF::new(f(1.5), f(-0.5), f(0.125))),
        Color::SRGBf(SrgbF::new(f(0.1), f(0.2), f(0.3))),
        Color::RGBAf(RgbaF::new(f(0.1), f(0.2), f(0.3), f(1.0))),
        Color::HSV(Hsv::new(f(359.5), f(1.0), f(0.5))),
        Color::HSL(Hsl::new(f(120.0), f(0.25), f(0.75))),
        Color::CIEXYZ(CieXyz::new(f(0.4), f(0.2), f(0.01))),
        Color::CIELab(CieLab::new(f(50.0), f(-20.0), f(30.0))),
    ]
}

/// A kernel for conversions that must not need one.
fn no_kernel(call: MathCall) -> Float32 {
    panic!("kernel asked {:?}", call)
}

/// A kernel that answers every call with one half.
fn marker_kernel(_call: MathCall) -> Float32 {
    f(0.5)
}

#[test]
fn widening_and_narrowing_rescale_exactly() {
    assert_eq!(widen(0), 0);
    assert_eq!(widen(1), 257);
    assert_eq!(widen(128), 32896);
    assert_eq!(widen(255), 65535);
    assert_eq!(narrow(0), 0);
    assert_eq!(narrow(256), 0);
    assert_eq!(narrow(257), 1);
    assert_eq!(narrow(32768), 127);
    assert_eq!(narrow(65534), 254);
    assert_eq!(narrow(65535), 255);
    for c in 0..=255u8 {
        assert_eq!(narrow(widen(c)), c);
    }
}

#[test]
fn luminance_uses_rec_709_weights() {
    assert_eq!(gray_from_rgb(255, 0, 0), 54);
    assert_eq!(gray_from_rgb(0, 255, 0), 182);
    assert_eq!(gray_from_rgb(0, 0, 255), 18);
    assert_eq!(gray_from_rgb(255, 255, 255), 255);
    assert_eq!(gray_from_rgb(10, 200, 30), 147);
    assert_eq!(gray_from_rgb(65535, 0, 0), 13932);
    assert_eq!(gray_from_rgb(1000, 2000, 3000), 1859);
    assert_eq!(gray16_from_rgb8(255, 0, 0), 13932);
    assert_eq!(gray16_from_rgb8(0, 255, 0), 46870);
    assert_eq!(gray16_from_rgb8(0, 0, 255), 4731);
    assert_eq!(gray16_from_rgb8(255, 255, 255), 65535);
    for c in 0..=255u16 {
        assert_eq!(gray_from_rgb(c, c, c), c);
    }
}

#[test]
fn gamma_tables_have_exact_ends_and_known_entries() {
    assert_eq!(srgb_gamma_compress(0), 0);
    assert_eq!(srgb_gamma_compress(1), 12);
    assert_eq!(srgb_gamma_compress(64), 137);
    assert_eq!(srgb_gamma_compress(128), 187);
    assert_eq!(srgb_gamma_compress(255), 255);
    assert_eq!(srgb_gamma_expand(0), 0);
    assert_eq!(srgb_gamma_expand(10), 0);
    assert_eq!(srgb_gamma_expand(13), 1);
    assert_eq!(srgb_gamma_expand(128), 55);
    assert_eq!(srgb_gamma_expand(187), 126);
    assert_eq!(srgb_gamma_expand(188), 128);
    assert_eq!(srgb_gamma_expand(255), 255);
}

#[test]
fn gamma_tables_follow_the_curve() {
    for c in 0..=255u8 {
        let x = c as f64 / 255.0;
        let compressed =
            if x <= 0.0031308 { 12.92 * x } else { 1.055 * x.powf(1.0 / 2.4) - 0.055 };
        let expanded =
            if x <= 0.04045 { x / 12.92 } else { ((x + 0.055) / 1.055).powf(2.4) };
        let e = srgb_gamma_compress(c) as f64;
        let l = srgb_gamma_expand(c) as f64;
        assert!(e <= 255.0 * compressed + 1e-9 && 255.0 * compressed < e + 1.0 + 1e-9, "{}", c);
        assert!(l <= 255.0 * expanded + 1e-9 && 255.0 * expanded < l + 1.0 + 1e-9, "{}", c);
    }
}

#[test]
fn gamma_tables_are_monotone_and_nearly_inverse() {
    for c in 1..=255u8 {
        assert!(srgb_gamma_compress(c) >= srgb_gamma_compress(c - 1));
        assert!(srgb_gamma_expand(c) >= srgb_gamma_expand(c - 1));
    }
    for c in 0..=255u8 {
        let back = srgb_gamma_expand(srgb_gamma_compress(c)) as i32;
        assert!((back - c as i32).abs() <= 3, "{} came back as {}", c, back);
    }
}

#[test]
fn pure_red_keeps_its_channels_under_gamma() {
    let red = Color::RGB(Rgb::new(255, 0, 0));
    assert_eq!(
        Color::convert(red, ColorFormatName::SRGB, no_kernel),
        Color::SRGB(Srgb::new(255, 0, 0))
    );
    assert_eq!(Srgb::from(Rgb::new(255, 0, 0)), Srgb::new(255, 0, 0));
    assert_eq!(Rgb::from(Srgb::new(255, 0, 0)), Rgb::new(255, 0, 0));
}

#[test]
fn pairwise_conversions_in_whole_numbers() {
    assert_eq!(Gray8::from(Gray16::new(32768)), Gray8::new(127));
    assert_eq!(Gray8::from(Rgb::new(255, 0, 0)), Gray8::new(54));
    assert_eq!(Gray8::from(Rgba::new(0, 255, 0, 3)), Gray8::new(182));
    assert_eq!(Gray16::from(Gray8::new(2)), Gray16::new(514));
    assert_eq!(Gray16::from(Rgb::new(0, 0, 255)), Gray16::new(4731));
    assert_eq!(Gray16::from(Rgba::new(255, 255, 255, 0)), Gray16::new(65535));
    assert_eq!(Gray16::from(Rgb48::new(1000, 2000, 3000)), Gray16::new(1859));
    assert_eq!(Gray16::from(Rgba64::new(65535, 0, 0, 1)), Gray16::new(13932));
    assert_eq!(Rgb::from(Gray8::new(9)), Rgb::new(9, 9, 9));
    assert_eq!(Rgb::from(Gray16::new(514)), Rgb::new(2, 2, 2));
    assert_eq!(Rgb::from(Srgb::new(188, 13, 0)), Rgb::new(128, 1, 0));
    assert_eq!(Rgb::from(Rgb48::new(65535, 257, 256)), Rgb::new(255, 1, 0));
    assert_eq!(Rgb::from(Rgba::new(1, 2, 3, 4)), Rgb::new(1, 2, 3));
    assert_eq!(Srgb::from(Rgb::new(128, 1, 0)), Srgb::new(187, 12, 0));
    assert_eq!(Rgb48::from(Gray16::new(77)), Rgb48::new(77, 77, 77));
    assert_eq!(Rgb48::from(Rgb::new(1, 2, 255)), Rgb48::new(257, 514, 65535));
    assert_eq!(Rgb48::from(Rgba64::new(1, 2, 3, 4)), Rgb48::new(1, 2, 3));
    assert_eq!(Rgba::from(Gray8::new(5)), Rgba::new(5, 5, 5, 255));
    assert_eq!(Rgba::from(Rgb::new(1, 2, 3)), Rgba::new(1, 2, 3, 255));
    assert_eq!(Rgba::from(Rgba64::new(257, 514, 65535, 32768)), Rgba::new(1, 2, 255, 127));
    assert_eq!(Rgba64::from(Gray16::new(5)), Rgba64::new(5, 5, 5, 65535));
    assert_eq!(Rgba64::from(Rgb::new(1, 2, 3)), Rgba64::new(257, 514, 771, 65535));
    assert_eq!(Rgba64::from(Rgb48::new(1, 2, 3)), Rgba64::new(1, 2, 3, 65535));
    assert_eq!(Rgba64::from(Rgba::new(1, 2, 3, 4)), Rgba64::new(257, 514, 771, 1028));
}

#[test]
fn pairwise_conversions_between_whole_numbers_and_single_precision() {
    assert_eq!(GrayF::from(Gray8::new(255)), GrayF::new(f(1.0)));
    assert_eq!(GrayF::from(Gray8::new(51)), GrayF::new(f(51.0 / 255.0)));
    assert_eq!(GrayF::from(Gray16::new(13107)), GrayF::new(f(13107.0 / 65535.0)));
    assert_eq!(RgbF::from(Rgb::new(0, 128, 255)), RgbF::new(f(0.0), f(128.0 / 255.0), f(1.0)));
    assert_eq!(
        RgbaF::from(Rgba::new(0, 128, 255, 64)),
        RgbaF::new(f(0.0), f(128.0 / 255.0), f(1.0), f(64.0 / 255.0))
    );
    assert_eq!(RgbaF::from(Rgb::new(255, 0, 0)), RgbaF::new(f(1.0), f(0.0), f(0.0), f(1.0)));
    assert_eq!(SrgbF::from(Srgb::new(1, 2, 3)), SrgbF::new(f(1.0 / 255.0), f(2.0 / 255.0), f(3.0 / 255.0)));
    assert_eq!(Gray8::from(GrayF::new(f(0.5))), Gray8::new(127));
    assert_eq!(Gray8::from(GrayF::new(f(2.0))), Gray8::new(255));
    assert_eq!(Gray8::from(GrayF::new(f(-1.0))), Gray8::new(0));
    assert_eq!(Gray8::from(GrayF::new(f(f32::NAN))), Gray8::new(0));
    assert_eq!(Gray16::from(GrayF::new(f(1.0))), Gray16::new(65535));
    assert_eq!(Rgb::from(RgbF::new(f(1.5), f(-0.5), f(0.125))), Rgb::new(255, 0, 31));
    assert_eq!(Rgb48::from(GrayF::new(f(0.5))), Rgb48::new(32768, 32768, 32768));
    assert_eq!(Rgb48::from(GrayF::new(f(1.0))), Rgb48::new(65535, 65535, 65535));
    assert_eq!(Rgb48::from(RgbF::new(f(0.5), f(1.0), f(0.0))), Rgb48::new(32767, 65535, 0));
    assert_eq!(Rgba64::from(GrayF::new(f(0.25))), Rgba64::new(16384, 16384, 16384, 65535));
    assert_eq!(
        Rgba::from(RgbaF::new(f(1.0), f(0.5), f(0.0), f(0.25))),
        Rgba::new(255, 127, 0, 63)
    );
    assert_eq!(Srgb::from(SrgbF::new(f(1.0), f(0.2), f(7.0))), Srgb::new(255, 51, 255));
    assert_eq!(RgbF::from(GrayF::new(f(0.3))), RgbF::new(f(0.3), f(0.3), f(0.3)));
    assert_eq!(
        RgbaF::from(RgbF::new(f(1.5), f(-0.5), f(0.125))),
        RgbaF::new(f(1.0), f(0.0), f(0.125), f(1.0))
    );
}

#[test]
fn eight_bit_channels_survive_the_way_through_single_precision() {
    for c in 0..=255u8 {
        let rgb = Rgb::new(c, 255 - c, c / 2);
        assert_eq!(Rgb::from(RgbF::from(rgb)), Rgb::from(Rgb48::from(rgb)));
        let direct = Rgba64::from(rgb);
        let through = Rgba64::from(Rgba::from(rgb));
        assert_eq!(direct, through);
    }
}

#[test]
fn rgba_f_is_limited_at_construction() {
    let c = RgbaF::new(f(2.0), f(-1.0), f(0.5), f(f32::INFINITY));
    assert_eq!((c.r, c.g, c.b, c.a), (f(1.0), f(0.0), f(0.5), f(1.0)));
    let d = RgbF::new(f(2.0), f(-1.0), f(0.5));
    assert_eq!((d.r, d.g, d.b), (f(2.0), f(-1.0), f(0.5)));
}

#[test]
fn converting_to_the_own_format_changes_nothing() {
    for c in one_of_each() {
        assert_eq!(Color::convert(c, c.get_format(), no_kernel), c);
    }
}

#[test]
fn every_conversion_gives_the_format_asked_for() {
    for c in one_of_each() {
        for to in FORMATS {
            assert_eq!(Color::convert(c, to, marker_kernel).get_format(), to);
        }
    }
}

#[test]
fn conversions_in_whole_numbers_need_no_kernel() {
    let gray = Color::Gray8(Gray8::new(200));
    assert_eq!(
        Color::convert(gray, ColorFormatName::RGBA64, no_kernel),
        Color::RGBA64(Rgba64::new(51400, 51400, 51400, 65535))
    );
    assert_eq!(
        Color::convert(gray, ColorFormatName::RGB48, no_kernel),
        Color::RGB48(Rgb48::new(51400, 51400, 51400))
    );
    assert_eq!(
        Color::convert(gray, ColorFormatName::SRGB, no_kernel),
        Color::SRGB(Srgb::new(229, 229, 229))
    );
    let wide = Color::RGB48(Rgb48::new(65535, 257, 0));
    assert_eq!(
        Color::convert(wide, ColorFormatName::RGBA, no_kernel),
        Color::RGBA(Rgba::new(255, 1, 0, 255))
    );
    assert_eq!(
        Color::convert(wide, ColorFormatName::Gray16, no_kernel),
        Color::Gray16(Gray16::new(14116))
    );
}

#[test]
fn routes_follow_the_graph() {
    assert_eq!(route(ColorFormatName::RGB, ColorFormatName::RGB), vec![]);
    assert_eq!(route(ColorFormatName::RGB, ColorFormatName::HSV), vec![ColorFormatName::HSV]);
    assert_eq!(
        route(ColorFormatName::HSV, ColorFormatName::CIELab),
        vec![ColorFormatName::RGBf, ColorFormatName::CIEXYZ, ColorFormatName::CIELab]
    );
    assert_eq!(
        route(ColorFormatName::HSL, ColorFormatName::Gray8),
        vec![ColorFormatName::RGBf, ColorFormatName::Gray8]
    );
    assert_eq!(
        route(ColorFormatName::CIELab, ColorFormatName::Gray16),
        vec![ColorFormatName::Grayf, ColorFormatName::Gray16]
    );
    assert_eq!(
        route(ColorFormatName::Gray8, ColorFormatName::RGBA64),
        vec![ColorFormatName::RGBA, ColorFormatName::RGBA64]
    );
    assert_eq!(
        route(ColorFormatName::SRGB, ColorFormatName::CIELab),
        vec![ColorFormatName::CIEXYZ, ColorFormatName::CIELab]
    );
    assert_eq!(next_hop(ColorFormatName::CIELab, ColorFormatName::HSL), ColorFormatName::CIEXYZ);
    assert!(is_direct(ColorFormatName::CIEXYZ, ColorFormatName::CIELab));
    assert!(!is_direct(ColorFormatName::CIELab, ColorFormatName::RGB));
    assert!(!is_direct(ColorFormatName::RGB, ColorFormatName::RGB));
}

#[test]
fn every_route_is_short_direct_and_without_repeats() {
    let mut direct_pairs = 0;
    for from in FORMATS {
        for to in FORMATS {
            if is_direct(from, to) {
                direct_pairs += 1;
            }
            let formats = route(from, to);
            assert!(formats.len() <= 3);
            let mut current = from;
            let mut seen = vec![from];
            for next in &formats {
                assert!(is_direct(current, *next), "{:?} to {:?}", current, next);
                assert!(!seen.contains(next));
                seen.push(*next);
                current = *next;
            }
            assert_eq!(current, to);
        }
    }
    assert_eq!(direct_pairs, 110);
}
