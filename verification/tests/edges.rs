use ruddle_gui::color::kernel::MathCall;
use ruddle_gui::color::{
    CieLab, CieXyz, Color, ColorFormatName, GrayF, Hsl, Hsv, ReferenceWhite, Rgb, RgbF, Srgb,
    SrgbF,
};
use ruddle_gui::Float32;

fn f(x: f32) -> Float32 {
    Float32::from_bits(x.to_bits())
}

fn v(x: Float32) -> f32 {
    f32::from_bits(x.to_bits())
}

fn kernel(call: MathCall) -> Float32 {
    match call {
        MathCall::Powf(x, y) => f(v(x).powf(v(y))),
        MathCall::Cbrt(x) => f(v(x).cbrt()),
    }
}

fn no_kernel(call: MathCall) -> Float32 {
    panic!("kernel asked {:?}", call)
}

#[test]
fn hsv_at_the_boundaries_of_the_sixths() {
    let cases = [
        (0.0f32, (1.0f32, 0.0f32, 0.0f32)),
        (60.0, (1.0, 1.0, 0.0)),
        (120.0, (0.0, 1.0, 0.0)),
        (180.0, (0.0, 1.0, 1.0)),
        (240.0, (0.0, 0.0, 1.0)),
        (300.0, (1.0, 0.0, 1.0)),
        (360.0, (1.0, 0.0, 0.0)),
    ];
    for (h, (r, g, b)) in cases {
        assert_eq!(
            RgbF::from(Hsv::new(f(h), f(1.0), f(1.0))),
            RgbF::new(f(r), f(g), f(b)),
            "hue {}",
            h
        );
        assert_eq!(
            RgbF::from(Hsl::new(f(h), f(1.0), f(0.5))),
            RgbF::new(f(r), f(g), f(b)),
            "hue {}",
            h
        );
    }
}

#[test]
fn hue_outside_the_circle_gives_a_gray() {
    assert_eq!(RgbF::from(Hsv::new(f(-1.0), f(0.5), f(0.5))), RgbF::new(f(0.25), f(0.25), f(0.25)));
    assert_eq!(RgbF::from(Hsv::new(f(361.0), f(0.5), f(0.5))), RgbF::new(f(0.25), f(0.25), f(0.25)));
    assert_eq!(RgbF::from(Hsl::new(f(400.0), f(1.0), f(0.5))), RgbF::new(f(0.0), f(0.0), f(0.0)));
}

#[test]
fn a_gray_has_no_chroma() {
    let gray = Rgb::new(77, 77, 77);
    assert_eq!(Hsv::from(gray), Hsv::new(f(0.0), f(0.0), f(77.0 / 255.0)));
    let hsl = Hsl::from(gray);
    assert_eq!((hsl.h, hsl.s), (f(0.0), f(0.0)));
    assert_eq!(Hsv::from(Rgb::new(0, 0, 0)), Hsv::new(f(0.0), f(0.0), f(0.0)));
    assert_eq!(Hsl::from(Rgb::new(255, 255, 255)), Hsl::new(f(0.0), f(0.0), f(1.0)));
}

#[test]
fn near_black_lightness_is_on_the_linear_part() {
    let dark = CieLab::new(f(1.0), f(0.0), f(0.0));
    assert_eq!(GrayF::from(dark), GrayF::new(f(1.0f32 / 903.3f32)));
    let xyz = CieXyz::from(dark);
    assert_eq!(xyz.y, f(1.0f32 / 903.3f32 * 1.0f32));
    assert_eq!(
        xyz.ref_xyz,
        Some(ReferenceWhite { x: f(0.95047), y: f(1.0), z: f(1.08883) })
    );
    let black = Color::convert(
        Color::CIEXYZ(CieXyz::new(f(0.0), f(0.0), f(0.0))),
        ColorFormatName::CIELab,
        no_kernel,
    );
    match black {
        Color::CIELab(lab) => {
            assert_eq!(v(lab.l), 116.0f32 * (16.0f32 / 116.0f32) - 16.0f32);
            assert_eq!((v(lab.a), v(lab.b)), (0.0, 0.0));
        }
        other => panic!("not Lab: {:?}", other),
    }
    let bright = GrayF::from(CieLab::new(f(100.0), f(0.0), f(0.0)));
    assert_eq!(bright, GrayF::new(f(1.0)));
}

#[test]
fn white_keeps_its_lightness_through_xyz() {
    let white = Color::convert(Color::RGB(Rgb::new(255, 255, 255)), ColorFormatName::CIELab, kernel);
    match white {
        Color::CIELab(lab) => {
            assert!((v(lab.l) - 100.0).abs() < 1e-3);
            assert!(v(lab.a).abs() < 1e-2 && v(lab.b).abs() < 1e-2);
        }
        other => panic!("not Lab: {:?}", other),
    }
}

#[test]
fn a_white_relative_to_another_white_is_adapted_before_it_is_attached() {
    let d65 = CieXyz::default();
    let plain = CieXyz::new(f(0.3), f(0.4), f(0.5));
    assert_eq!(
        plain.with_reference_white(d65).ref_xyz,
        Some(ReferenceWhite { x: d65.x, y: d65.y, z: d65.z })
    );
    let d50 = CieXyz::new(f(0.96422), f(1.0), f(0.82521));
    assert_eq!(
        plain.with_reference_white(d50).ref_xyz,
        Some(ReferenceWhite { x: d50.x, y: d50.y, z: d50.z })
    );
    let relative = CieXyz { ref_xyz: Some(ReferenceWhite { x: d50.x, y: d50.y, z: d50.z }), ..d50 };
    let attached = plain.with_reference_white(relative).ref_xyz.unwrap();
    let adapted = CieXyz::chromatic_adaptation(relative, d65);
    assert_eq!((attached.x, attached.y, attached.z), (adapted.x, adapted.y, adapted.z));
    assert!((v(adapted.x) - 0.95047).abs() < 1e-4);
    assert!((v(adapted.z) - 1.08883).abs() < 1e-4);
}

#[test]
fn gamma_encoding_of_single_precision_channels() {
    let compress = |x: f32| {
        if x <= 0.0031308f32 {
            12.92f32 * x
        } else {
            1.055f32 * x.powf(1.0f32 / 2.4f32) - 0.055f32
        }
    };
    let linear = RgbF::new(f(1.0), f(0.5), f(0.001));
    assert_eq!(
        SrgbF::from_rgbf(linear, &kernel),
        SrgbF::new(f(compress(1.0)), f(compress(0.5)), f(compress(0.001)))
    );
    assert_eq!(
        Srgb::from_rgbf(linear, &kernel),
        Srgb::new(
            (compress(1.0) * 255.0f32) as u8,
            (compress(0.5) * 255.0f32) as u8,
            (compress(0.001) * 255.0f32) as u8
        )
    );
    assert_eq!(Srgb::from_rgbf(RgbF::new(f(7.0), f(-7.0), f(f32::NAN)), &kernel).g, 0);
    let back = RgbF::from_srgbf(SrgbF::from_rgbf(linear, &kernel), &kernel);
    assert!((v(back.g) - 0.5).abs() < 1e-6);
    assert_eq!(v(RgbF::from_srgb(Srgb::new(0, 10, 255), &kernel).r), 0.0);
    assert_eq!(
        v(RgbF::from_srgb(Srgb::new(0, 10, 255), &kernel).g),
        (10.0f32 / 255.0f32) / 12.92f32
    );
}
