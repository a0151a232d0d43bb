use ruddle_gui::color::{
    CieLab, CieXyz, Color, ColorFormat, ColorFormatName, DecodeError, Gray16, Gray8, GrayF, Hsl,
    Hsv, ReferenceWhite, Rgb, Rgb48, RgbF, Rgba, Rgba64, RgbaF, Srgb, SrgbF,
};
use ruddle_gui::{ByteOrder, Float32};

fn f(x: f32) -> Float32 {
    Float32::from_bits(x.to_bits())
}

#[test]
fn gray8_round_trip() {
    let g = Gray8::new(17);
    assert_eq!(g.as_bytes(), vec![17]);
    assert_eq!(Gray8::from_bytes(&g.to_bytes()), Ok(g));
}

#[test]
fn gray16_round_trip() {
    let g = Gray16::new(0xBEEF);
    assert_eq!(g.as_bytes(), 0xBEEFu16.to_ne_bytes().to_vec());
    assert_eq!(Gray16::from_bytes(&g.to_bytes()), Ok(g));
}

#[test]
fn grayf_round_trip_is_bit_exact() {
    for x in [0.0f32, -0.0, 0.5, 1.0, -3.25, f32::INFINITY, f32::NAN, f32::MIN_POSITIVE] {
        let g = GrayF::new(f(x));
        assert_eq!(g.as_bytes(), x.to_ne_bytes().to_vec());
        assert_eq!(GrayF::from_bytes(&g.to_bytes()), Ok(g));
    }
}

#[test]
fn rgb_decode_rejects_wrong_length() {
    let e = Rgb::from_bytes(&[1, 2]).unwrap_err();
    assert_eq!(
        e,
        DecodeError { format: ColorFormatName::RGB, expected: 3, expected_long: 0, actual: 2 }
    );
}

#[test]
fn every_format_round_trips_in_native_order() {
    let white = ReferenceWhite { x: f(0.9642), y: f(1.0), z: f(0.8249) };
    let colors = vec![
        Color::Gray8(Gray8::new(200)),
        Color::Gray16(Gray16::new(51234)),
        Color::Grayf(GrayF::new(f(0.25))),
        Color::RGB(Rgb::new(1, 2, 3)),
        Color::SRGB(Srgb::new(250, 128, 0)),
        Color::RGB48(Rgb48::new(0x0102, 0xFFFE, 7)),
        Color::RGBA(Rgba::new(9, 8, 7, 6)),
        Color::RGBA64(Rgba64::new(1000, 2000, 3000, 65535)),
        Color::RGBf(RgbF::new(f(1.5), f(-0.5), f(0.125))),
        Color::SRGBf(SrgbF::new(f(0.1), f(0.2), f(0.3))),
        Color::RGBAf(RgbaF::new(f(0.1), f(0.2), f(0.3), f(1.0))),
        Color::HSV(Hsv::new(f(359.5), f(1.0), f(0.5))),
        Color::HSL(Hsl::new(f(120.0), f(0.25), f(0.75))),
        Color::CIEXYZ(CieXyz::new(f(0.4), f(0.2), f(0.01))),
        Color::CIEXYZ(CieXyz { x: f(0.4), y: f(0.2), z: f(0.01), ref_xyz: Some(white) }),
        Color::CIELab(CieLab::new(f(50.0), f(-20.0), f(30.0))),
        Color::CIELab(CieLab { l: f(50.0), a: f(-20.0), b: f(30.0), ref_xyz: Some(white) }),
    ];
    for c in colors {
        let (name, bytes) = c.to_raw_parts();
        assert_eq!(name, c.get_format());
        assert_eq!(bytes, c.as_bytes());
        assert_eq!(Color::from_raw_parts(name, bytes), Ok(c));
    }
}

#[test]
fn explicit_byte_orders_differ_and_round_trip() {
    let c = Rgb48::new(0x0102, 0x0304, 0x0506);
    assert_eq!(c.to_bytes_in(ByteOrder::Little), vec![2, 1, 4, 3, 6, 5]);
    assert_eq!(c.to_bytes_in(ByteOrder::Big), vec![1, 2, 3, 4, 5, 6]);
    assert_eq!(Rgb48::from_bytes_in(&[1, 2, 3, 4, 5, 6], ByteOrder::Big), Ok(c));
    assert_eq!(Rgb48::from_bytes_in(&[2, 1, 4, 3, 6, 5], ByteOrder::Little), Ok(c));
}

#[test]
fn byte_order_of_a_probe() {
    assert_eq!(ByteOrder::of_probe(1), ByteOrder::Little);
    assert_eq!(ByteOrder::of_probe(256), ByteOrder::Big);
    assert_eq!(ByteOrder::of_probe(u16::from_ne_bytes([1, 0])), ByteOrder::native());
    let native = 0x0102u16.to_ne_bytes();
    let expected = if native == [2, 1] { ByteOrder::Little } else { ByteOrder::Big };
    assert_eq!(ByteOrder::native(), expected);
}
