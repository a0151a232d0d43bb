use ruddle_gui::Float32;

fn next(state: &mut u32) -> u32 {
    *state ^= *state << 13;
    *state ^= *state >> 17;
    *state ^= *state << 5;
    *state
}

/// Bit patterns at the edges: zeros, subnormal values, powers of two and
/// their neighbours, the greatest finite values, infinities and NaNs.
fn special_bits() -> Vec<u32> {
    let mut out = vec![0u32, 1, 2, 3, 0x7F_FFFF, 0x80_0000, 0x80_0001, 0x7F7F_FFFF, 0x7F80_0000];
    out.extend([0x7F80_0001u32, 0x7FC0_0000, 0x7FFF_FFFF, 0x3F80_0000, 0x3F7F_FFFF, 0x3F80_0001]);
    out.extend([0x4000_0000u32, 0x3F00_0000, 0x4B00_0000, 0x4B80_0000, 0x4B7F_FFFF, 0x0100_0000]);
    for exponent in (0..=254u32).step_by(9) {
        for fraction in [0u32, 1, 0x40_0000, 0x7F_FFFF, 0x2A_AAAA] {
            out.push((exponent << 23) | fraction);
        }
    }
    let positive = out.clone();
    out.extend(positive.iter().map(|b| b | 0x8000_0000));
    out
}

/// Pairs of bit patterns: all pairs of the special ones, pairs of any
/// patterns, and pairs whose exponents are near each other.
fn pairs() -> Vec<(u32, u32)> {
    let special = special_bits();
    let mut out = Vec::new();
    for a in &special {
        for b in &special {
            out.push((*a, *b));
        }
    }
    let mut state: u32 = 0x9E37_79B9;
    for _ in 0..400_000 {
        out.push((next(&mut state), next(&mut state)));
    }
    for _ in 0..400_000 {
        let a = next(&mut state);
        let exponent = (a >> 23) & 0xFF;
        let shift = next(&mut state) % 61;
        let other = (exponent + shift).saturating_sub(30).min(255);
        let b = (next(&mut state) & 0x807F_FFFF) | (other << 23);
        out.push((a, b));
    }
    for _ in 0..100_000 {
        let a = next(&mut state) & 0x80FF_FFFF;
        let b = next(&mut state) & 0x81FF_FFFF;
        out.push((a, b));
    }
    out
}

fn same(ours: Float32, theirs: f32) -> bool {
    if theirs.is_nan() {
        f32::from_bits(ours.to_bits()).is_nan()
    } else {
        ours.to_bits() == theirs.to_bits()
    }
}

#[test]
fn times_is_single_precision_multiplication() {
    for (a, b) in pairs() {
        let ours = Float32::from_bits(a).times(Float32::from_bits(b));
        let theirs = f32::from_bits(a) * f32::from_bits(b);
        assert!(same(ours, theirs), "{:#x} * {:#x}: {:#x} {:#x}", a, b, ours.to_bits(), theirs.to_bits());
    }
}

#[test]
fn plus_is_single_precision_addition() {
    for (a, b) in pairs() {
        let ours = Float32::from_bits(a).plus(Float32::from_bits(b));
        let theirs = f32::from_bits(a) + f32::from_bits(b);
        assert!(same(ours, theirs), "{:#x} + {:#x}: {:#x} {:#x}", a, b, ours.to_bits(), theirs.to_bits());
    }
}

#[test]
fn minus_is_single_precision_subtraction() {
    for (a, b) in pairs() {
        let ours = Float32::from_bits(a).minus(Float32::from_bits(b));
        let theirs = f32::from_bits(a) - f32::from_bits(b);
        assert!(same(ours, theirs), "{:#x} - {:#x}: {:#x} {:#x}", a, b, ours.to_bits(), theirs.to_bits());
    }
}

#[test]
fn over_is_single_precision_division() {
    for (a, b) in pairs() {
        let ours = Float32::from_bits(a).over(Float32::from_bits(b));
        let theirs = f32::from_bits(a) / f32::from_bits(b);
        assert!(same(ours, theirs), "{:#x} / {:#x}: {:#x} {:#x}", a, b, ours.to_bits(), theirs.to_bits());
    }
}

#[test]
fn rem_two_is_the_remainder_by_two() {
    for (a, b) in pairs() {
        for bits in [a, b] {
            let ours = Float32::from_bits(bits).rem_two();
            let theirs = f32::from_bits(bits) % 2.0f32;
            assert!(same(ours, theirs), "{:#x} % 2: {:#x} {:#x}", bits, ours.to_bits(), theirs.to_bits());
        }
    }
}

#[test]
fn comparisons_are_those_of_single_precision() {
    for (a, b) in pairs() {
        let (x, y) = (f32::from_bits(a), f32::from_bits(b));
        let (p, q) = (Float32::from_bits(a), Float32::from_bits(b));
        assert_eq!(p.lt(q), x < y, "{:#x} < {:#x}", a, b);
        assert_eq!(p.le(q), x <= y, "{:#x} <= {:#x}", a, b);
        assert_eq!(p.same_number(q), x == y, "{:#x} == {:#x}", a, b);
        assert_eq!(p.is_not_a_number(), x.is_nan());
    }
}

#[test]
fn sign_changes_are_those_of_single_precision() {
    for bits in special_bits() {
        let x = f32::from_bits(bits);
        assert_eq!(Float32::from_bits(bits).abs().to_bits(), x.abs().to_bits());
        assert_eq!(Float32::from_bits(bits).negated().to_bits(), (-x).to_bits());
    }
}

#[test]
fn whole_numbers_become_their_single_precision_values() {
    for n in (0..=0xFFFFu32).chain([0x1_0000, 0xFF_FFFF, 0x100_0000, 0x100_0001, 0xFFFF_FFFF]) {
        assert_eq!(Float32::from_whole(n).to_bits(), (n as f32).to_bits(), "{}", n);
    }
}
