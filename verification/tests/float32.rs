use ruddle_gui::color::quantize::{channel_16, channel_8, gray_16, unit_16, unit_8};
use ruddle_gui::Float32;

fn bits_of(x: f32) -> Float32 {
    Float32::from_bits(x.to_bits())
}

/// A fixed sequence of bit patterns that covers all exponents and signs.
fn sample_bits() -> Vec<u32> {
    let mut out = Vec::new();
    let mut state: u32 = 0x1234_5678;
    for _ in 0..1_000_000 {
        state ^= state << 13;
        state ^= state >> 17;
        state ^= state << 5;
        out.push(state);
    }
    for exponent in 0..=255u32 {
        for fraction in [0u32, 1, 2, 0x40_0000, 0x7F_FFFE, 0x7F_FFFF, 0x12_3456] {
            out.push((exponent << 23) | fraction);
            out.push(0x8000_0000 | (exponent << 23) | fraction);
        }
    }
    out
}

#[test]
fn unit_8_is_single_precision_division_by_255() {
    for c in 0..=255u8 {
        assert_eq!(unit_8(c).to_bits(), (c as f32 / 255.0f32).to_bits());
    }
}

#[test]
fn unit_16_is_single_precision_division_by_65535() {
    for c in 0..=65535u16 {
        assert_eq!(unit_16(c).to_bits(), (c as f32 / 65535.0f32).to_bits());
    }
}

#[test]
fn to_whole_is_the_cast_to_whole_numbers() {
    for bits in sample_bits() {
        let x = f32::from_bits(bits);
        let f = Float32::from_bits(bits);
        assert_eq!(f.to_whole(255), (x as u8) as u32, "{:#x}", bits);
        assert_eq!(f.to_whole(65535), (x as u16) as u32, "{:#x}", bits);
    }
}

#[test]
fn channel_8_is_multiply_then_cast_to_8_bits() {
    for bits in sample_bits() {
        let x = f32::from_bits(bits);
        assert_eq!(channel_8(Float32::from_bits(bits)), (x * 255.0f32) as u8, "{:#x}", bits);
    }
}

#[test]
fn channel_16_is_multiply_then_cast_to_16_bits() {
    for bits in sample_bits() {
        let x = f32::from_bits(bits);
        let f = Float32::from_bits(bits);
        assert_eq!(channel_16(f), (x * 65535.0f32) as u16, "{:#x}", bits);
        assert_eq!(gray_16(f), (x * 65536.0f32) as u16, "{:#x}", bits);
    }
}

#[test]
fn channels_near_whole_results() {
    for k in 0..=255u32 {
        let exact = k as f32 / 255.0f32;
        for step in -3i32..=3 {
            let bits = (exact.to_bits() as i64 + step as i64).max(0) as u32;
            let x = f32::from_bits(bits);
            assert_eq!(channel_8(Float32::from_bits(bits)), (x * 255.0f32) as u8, "{:#x}", bits);
        }
    }
    for k in 0..=65535u32 {
        let exact = k as f32 / 65535.0f32;
        for step in -2i32..=2 {
            let bits = (exact.to_bits() as i64 + step as i64).max(0) as u32;
            let x = f32::from_bits(bits);
            assert_eq!(
                channel_16(Float32::from_bits(bits)),
                (x * 65535.0f32) as u16,
                "{:#x}",
                bits
            );
        }
    }
}

#[test]
fn clamp_unit_is_clamp_between_zero_and_one() {
    for bits in sample_bits() {
        let x = f32::from_bits(bits);
        let clamped = Float32::from_bits(bits).clamp_unit();
        if x.is_nan() {
            assert_eq!(clamped.to_bits(), bits);
        } else {
            assert_eq!(clamped.to_bits(), x.clamp(0.0f32, 1.0f32).to_bits(), "{:#x}", bits);
        }
    }
}

#[test]
fn constants_have_the_bit_patterns_of_zero_and_one() {
    assert_eq!(Float32::zero(), bits_of(0.0));
    assert_eq!(Float32::one(), bits_of(1.0));
}
