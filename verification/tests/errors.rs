use ruddle_gui::color::format::{decimal, type_name_of};
use ruddle_gui::color::{
    get_bpp_for_format, get_bytes_per_pixel, CieLab, CieXyz, Color, ColorFormat, ColorFormatName,
    DecodeError, Gray16, Gray8, GrayF, Hsl, Hsv, Rgb, Rgb48, RgbF, Rgba, Rgba64, RgbaF, Srgb,
    SrgbF,
};
use ruddle_gui::Float32;

const FOOTPRINTS: [(ColorFormatName, usize, u8); 15] = [
    (ColorFormatName::Gray8, 1, 1),
    (ColorFormatName::Gray16, 2, 1),
    (ColorFormatName::Grayf, 4, 1),
    (ColorFormatName::RGB, 3, 3),
    (ColorFormatName::SRGB, 3, 3),
    (ColorFormatName::RGB48, 6, 3),
    (ColorFormatName::RGBA, 4, 4),
    (ColorFormatName::RGBA64, 8, 4),
    (ColorFormatName::RGBf, 12, 3),
    (ColorFormatName::SRGBf, 12, 3),
    (ColorFormatName::RGBAf, 16, 4),
    (ColorFormatName::HSV, 12, 3),
    (ColorFormatName::HSL, 12, 3),
    (ColorFormatName::CIEXYZ, 12, 3),
    (ColorFormatName::CIELab, 12, 3),
];

#[test]
fn rgb_from_two_bytes_cites_three_expected_and_two_given() {
    let e = Rgb::from_bytes(&[1, 2]).unwrap_err();
    assert_eq!(e.format, ColorFormatName::RGB);
    assert_eq!(e.expected, 3);
    assert_eq!(e.actual, 2);
    let text = e.message();
    assert_eq!(
        text,
        "Tried to convert to Rgb with wrong number of bytes.\n\t \
         Hint: Should be exactly 3 byte(s). 2 bytes were provided."
    );
}

#[test]
fn cie_error_cites_both_footprints() {
    let e = CieXyz::from_bytes(&[0; 13]).unwrap_err();
    assert_eq!(
        e,
        DecodeError { format: ColorFormatName::CIEXYZ, expected: 12, expected_long: 24, actual: 13 }
    );
    assert_eq!(
        e.message(),
        "Tried to convert to CieXyz with wrong number of bytes.\n\t \
         Hint: Should be exactly either 12 or 24 byte(s). 13 bytes were provided."
    );
    assert!(CieLab::from_bytes(&[0; 12]).is_ok());
    assert!(CieLab::from_bytes(&[0; 24]).is_ok());
    assert!(CieLab::from_bytes(&[0; 23]).is_err());
    assert!(CieLab::from_bytes(&[0; 36]).is_err());
}

#[test]
fn every_format_accepts_its_footprint_and_no_other_length() {
    for (format, footprint, _) in FOOTPRINTS {
        let long = matches!(format, ColorFormatName::CIEXYZ | ColorFormatName::CIELab);
        for len in 0..40usize {
            let r = Color::from_raw_parts(format, vec![0u8; len]);
            if len == footprint || (long && len == 2 * footprint) {
                assert_eq!(r.unwrap().get_format(), format);
            } else {
                assert_eq!(
                    r,
                    Err(DecodeError {
                        format,
                        expected: footprint,
                        expected_long: if long { 2 * footprint } else { 0 },
                        actual: len,
                    })
                );
            }
        }
    }
}

#[test]
fn raw_parts_fail_with_the_error_of_the_format() {
    assert_eq!(
        Color::from_raw_parts(ColorFormatName::RGB, vec![1, 2]).unwrap_err(),
        Rgb::from_bytes(&[1, 2]).unwrap_err()
    );
    assert_eq!(
        Color::from_raw_parts(ColorFormatName::RGBA64, vec![0; 7]).unwrap_err(),
        Rgba64::from_bytes(&[0; 7]).unwrap_err()
    );
}

#[test]
fn footprints_and_channel_counts() {
    for (format, footprint, _) in FOOTPRINTS {
        assert_eq!(get_bpp_for_format(format), footprint);
    }
    assert_eq!((Gray8::bytes_per_pixel(), Gray8::channel_count()), (1, 1));
    assert_eq!((Gray16::bytes_per_pixel(), Gray16::channel_count()), (2, 1));
    assert_eq!((GrayF::bytes_per_pixel(), GrayF::channel_count()), (4, 1));
    assert_eq!((Rgb::bytes_per_pixel(), Rgb::channel_count()), (3, 3));
    assert_eq!((Srgb::bytes_per_pixel(), Srgb::channel_count()), (3, 3));
    assert_eq!((Rgb48::bytes_per_pixel(), Rgb48::channel_count()), (6, 3));
    assert_eq!((Rgba::bytes_per_pixel(), Rgba::channel_count()), (4, 4));
    assert_eq!((Rgba64::bytes_per_pixel(), Rgba64::channel_count()), (8, 4));
    assert_eq!((RgbF::bytes_per_pixel(), RgbF::channel_count()), (12, 3));
    assert_eq!((SrgbF::bytes_per_pixel(), SrgbF::channel_count()), (12, 3));
    assert_eq!((RgbaF::bytes_per_pixel(), RgbaF::channel_count()), (16, 4));
    assert_eq!((Hsv::bytes_per_pixel(), Hsv::channel_count()), (12, 3));
    assert_eq!((Hsl::bytes_per_pixel(), Hsl::channel_count()), (12, 3));
    assert_eq!((CieXyz::bytes_per_pixel(), CieXyz::channel_count()), (12, 3));
    assert_eq!((CieLab::bytes_per_pixel(), CieLab::channel_count()), (12, 3));
    assert_eq!(get_bytes_per_pixel(Rgba64::new(1, 2, 3, 4)), 8);
    assert_eq!(Color::RGB48(Rgb48::new(1, 2, 3)).get_bytes_per_pixel(), 6);
    assert_eq!(Hsv::format_name(), ColorFormatName::HSV);
}

#[test]
fn default_color_is_black_rgb() {
    assert_eq!(Color::default(), Color::RGB(Rgb::new(0, 0, 0)));
    assert_eq!(Color::default().get_format(), ColorFormatName::RGB);
}

#[test]
fn default_xyz_is_the_d65_white() {
    let white = CieXyz::default();
    assert_eq!(white.x, Float32::from_bits(0.95047f32.to_bits()));
    assert_eq!(white.y, Float32::from_bits(1.0f32.to_bits()));
    assert_eq!(white.z, Float32::from_bits(1.08883f32.to_bits()));
    assert_eq!(white.ref_xyz, None);
}

#[test]
fn decimal_text_of_numbers() {
    assert_eq!(decimal(0), "0");
    assert_eq!(decimal(9), "9");
    assert_eq!(decimal(10), "10");
    assert_eq!(decimal(24), "24");
    assert_eq!(decimal(1_234_567_890), "1234567890");
    assert_eq!(type_name_of(ColorFormatName::RGBAf), "RgbaF");
}
