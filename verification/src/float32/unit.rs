//! What the arithmetic gives for values from 0 to 1: results that are
//! numbers, and not infinite.

use crate::float32::arith::{normalized, sum_of_ordered, zero};
use crate::float32::round::{
    bit_length, in_units, lemma_bit_length, lemma_bit_length_between, nearest, pack,
    round_half_even, ulp_exponent,
};
use crate::float32::{Float32, INFINITY_BITS, ONE_BITS};
use vstd::arithmetic::power2::{
    lemma2_to64, lemma_pow2_adds, lemma_pow2_pos, lemma_pow2_strictly_increases,
    lemma_pow2_unfold, pow2,
};
use vstd::prelude::*;

verus! {

/// The bit pattern of 2.0.
pub const TWO_BITS: u32 = 0x4000_0000;

/// 2 to a power does not fall as the power rises.
pub proof fn lemma_pow2_increases(a: nat, b: nat)
    requires
        a <= b,
    ensures
        pow2(a) <= pow2(b),
{
    if a < b {
        lemma_pow2_strictly_increases(a, b);
    }
}

/// A number below 2 to the power `n` has at most `n` bits.
pub proof fn lemma_bit_length_below(q: nat, n: nat)
    requires
        q < pow2(n),
    ensures
        bit_length(q) <= n,
{
    lemma_bit_length(q);
    if q > 0 && bit_length(q) > n {
        lemma_pow2_unfold(n + 1);
        lemma_pow2_increases(n + 1, bit_length(q));
    }
}

/// The product of two numbers has at most as many bits as both together.
pub proof fn lemma_bit_length_of_product(a: nat, b: nat)
    ensures
        bit_length(a * b) <= bit_length(a) + bit_length(b),
{
    lemma_bit_length(a);
    lemma_bit_length(b);
    lemma_pow2_adds(bit_length(a), bit_length(b));
    lemma_pow2_pos(bit_length(a));
    lemma_pow2_pos(bit_length(b));
    assert(a * b < pow2(bit_length(a)) * pow2(bit_length(b))) by (nonlinear_arith)
        requires
            a < pow2(bit_length(a)),
            b < pow2(bit_length(b)),
    ;
    lemma_bit_length_below(a * b, bit_length(a) + bit_length(b));
}

/// A significand that is not zero, brought to 24 bits, has its top bit at
/// bit 23.
pub proof fn lemma_normalized(m: nat)
    requires
        0 < m < 0x100_0000,
    ensures
        0x80_0000 <= normalized(m) < 0x100_0000,
        1 <= bit_length(m) <= 24,
{
    lemma2_to64();
    lemma_bit_length(m);
    lemma_bit_length_below(m, 24);
    let len = bit_length(m);
    let factor = pow2((24 - len) as nat);
    let p = pow2(len);
    lemma_pow2_adds((24 - len) as nat, len);
    lemma_pow2_pos((24 - len) as nat);
    assert(m * factor < 0x100_0000 && 2 * (m * factor) >= 0x100_0000) by (nonlinear_arith)
        requires
            m < p,
            2 * m >= p,
            factor * p == 0x100_0000,
            factor >= 1,
    ;
}

/// A number that is rounded where its last place is has a significand of
/// at most 2 to the power 24.
pub proof fn lemma_in_units_bound(q: nat, e: int)
    requires
        q > 0,
    ensures
        in_units(q, e, ulp_exponent(q, e)) <= 0x100_0000,
{
    let len = bit_length(q);
    let u = ulp_exponent(q, e);
    lemma_bit_length(q);
    lemma2_to64();
    if u <= e {
        let shift = (e - u) as nat;
        let factor = pow2(shift);
        lemma_pow2_adds(shift, len);
        lemma_pow2_increases(shift + len, 24);
        lemma_pow2_pos(shift);
        assert(q * factor < pow2(len) * factor) by (nonlinear_arith)
            requires
                q < pow2(len),
                factor > 0,
        ;
        assert(pow2(len) * factor == pow2(shift + len)) by (nonlinear_arith)
            requires
                pow2(shift + len) == pow2(shift) * pow2(len),
                factor == pow2(shift),
        ;
    } else {
        let drop = (u - e) as nat;
        let p = pow2(drop);
        lemma_pow2_adds(drop, 24);
        lemma_pow2_increases(len, drop + 24);
        lemma_pow2_pos(drop);
        assert(q < p * 0x100_0000);
        assert(q / p < 0x100_0000) by (nonlinear_arith)
            requires
                q < p * 0x100_0000,
                p > 0,
        ;
    }
}

/// A packed value has the sign given and is a number; it is not infinite
/// where its last place counts at most 2 to the power 103, and at most one
/// where it counts at most 2 to the power -24.
pub proof fn lemma_pack_bound(negative: bool, m: nat, u: int)
    requires
        m <= 0x100_0000,
        -149 <= u,
    ensures
        pack(negative, m, u).sign_set() == negative,
        !pack(negative, m, u).is_nan(),
        m == 0 ==> pack(negative, m, u) == zero(negative) || u > 104,
        u <= 103 ==> pack(negative, m, u).magnitude() < INFINITY_BITS,
        u <= -24 ==> pack(negative, m, u).magnitude() <= ONE_BITS,
{
}

/// The value nearest to `q * 2^e` has the sign given and is a number; it
/// is not infinite where `q * 2^e` is below 2 to the power 127, shown by
/// the bits of `q`.
pub proof fn lemma_nearest_bound(negative: bool, q: nat, e: int)
    ensures
        nearest(negative, q, e).sign_set() == negative,
        !nearest(negative, q, e).is_nan(),
        q == 0 ==> nearest(negative, q, e) == zero(negative),
        bit_length(q) + e <= 127 ==> nearest(negative, q, e).magnitude() < INFINITY_BITS,
{
    reveal(nearest);
    if q > 0 {
        lemma_in_units_bound(q, e);
    }
    lemma_pack_bound(negative, if q == 0 { 0 } else { in_units(q, e, ulp_exponent(q, e)) },
        if q == 0 { -149 } else { ulp_exponent(q, e) });
}

impl Float32 {
    /// The value is a number from 0 to 1 with its sign bit clear.
    pub open spec fn is_fraction(self) -> bool {
        self.bits <= ONE_BITS
    }
}

/// A number from 0 to 1 is below 2: its significand ends at or below the
/// place of 1. It is 1 itself, or its significand counts less than the
/// significand of 1 does.
pub proof fn lemma_fraction_parts(x: Float32)
    requires
        x.is_fraction(),
    ensures
        x.magnitude() < INFINITY_BITS,
        !x.sign_set(),
        x.significand() < 0x100_0000,
        bit_length(x.significand()) + x.exponent() <= 1,
        x.exponent() <= -23,
        x.bits == ONE_BITS ==> x.significand() == 0x80_0000 && x.exponent() == -23,
        x.bits != ONE_BITS ==> x.exponent() <= -24,
{
    lemma2_to64();
    lemma_bit_length_below(x.significand(), 24);
    if x.bits == ONE_BITS {
        lemma_bit_length_between(0x80_0000, 24);
    }
}

/// Half of a number from 0 to 1, of either sign where it is zero, is a
/// number from 0 to 1 with the same sign.
pub proof fn lemma_half_of_fraction(x: Float32)
    requires
        x.in_unit_range(),
        !x.is_nan(),
    ensures
        x.over(Float32::from_bits(TWO_BITS)).magnitude() <= ONE_BITS,
        x.over(Float32::from_bits(TWO_BITS)).sign_set() == x.sign_set(),
        x.is_zero() ==> x.over(Float32::from_bits(TWO_BITS)).is_zero(),
{
    reveal(Float32::spec_over);
    lemma2_to64();
    let two = Float32::from_bits(TWO_BITS);
    assert(two.significand() == 0x80_0000 && two.exponent() == -22);
    if !x.is_zero() {
        lemma_fraction_parts(x);
        lemma_bit_length_between(0x80_0000, 24);
        lemma_normalized(x.significand());
        let n = normalized(x.significand());
        let d = normalized(two.significand());
        assert(pow2(0) == 1);
        assert(d == 0x80_0000) by (nonlinear_arith)
            requires
                d == 0x80_0000 * pow2(0),
                pow2(0) == 1,
        ;
        let top = (x.exponent() + bit_length(x.significand())) - (two.exponent() + 24) - 23;
        let u = if top < -149 {
            -149
        } else {
            top
        };
        let coarser = pow2((u - top) as nat);
        lemma_pow2_pos((u - top) as nat);
        let m = round_half_even(n * pow2(23), d * coarser);
        assert(m <= 0x100_0000) by (nonlinear_arith)
            requires
                m == round_half_even(n * pow2(23), d * coarser),
                n < 0x100_0000,
                pow2(23) == 0x80_0000,
                d == 0x80_0000,
                coarser >= 1,
        {
            let num = n * pow2(23);
            let den = d * coarser;
            assert(den >= 0x80_0000);
            assert(num < den * 0x100_0000);
            assert(num / den < 0x100_0000);
        }
        lemma_pack_bound(x.sign_set(), m, u);
    }
}

/// One less a number from 0 to 1 is a number that is not infinite and has
/// its sign bit clear.
pub proof fn lemma_one_less_fraction(x: Float32)
    requires
        x.is_fraction(),
    ensures
        !Float32::from_bits(ONE_BITS).minus(x).is_nan(),
        Float32::from_bits(ONE_BITS).minus(x).magnitude() < INFINITY_BITS,
        !Float32::from_bits(ONE_BITS).minus(x).sign_set(),
        x.is_zero() ==> Float32::from_bits(ONE_BITS).minus(x) == Float32::from_bits(ONE_BITS),
{
    reveal(Float32::spec_plus);
    lemma2_to64();
    let one = Float32::from_bits(ONE_BITS);
    let r = x.spec_negated();
    lemma_fraction_parts(x);
    assert(one.significand() == 0x80_0000 && one.exponent() == -23);
    if !x.is_zero() {
        assert(r.significand() == x.significand() && r.exponent() == x.exponent());
        assert(r.sign_set());
        let t = (one.exponent() - r.exponent()) as nat;
        let a = one.significand() * pow2(t);
        let b = r.significand();
        lemma_pow2_adds(23, t);
        lemma_pow2_pos(t);
        assert(a == pow2(23 + t)) by (nonlinear_arith)
            requires
                a == 0x80_0000 * pow2(t),
                pow2(23 + t) == pow2(23) * pow2(t),
                pow2(23) == 0x80_0000,
        ;
        if x.bits != ONE_BITS {
            lemma_pow2_increases(1, t);
            assert(a >= 0x100_0000) by (nonlinear_arith)
                requires
                    a == 0x80_0000 * pow2(t),
                    pow2(t) >= 2,
            ;
        } else {
            assert(t == 0);
            assert(a == 0x80_0000) by (nonlinear_arith)
                requires
                    a == 0x80_0000 * pow2(t),
                    pow2(t) == 1,
            ;
        }
        assert(a >= b);
        if a > b {
            lemma_pow2_unfold(24 + t);
            lemma_bit_length_below((a - b) as nat, 24 + t);
            lemma_nearest_bound(false, (a - b) as nat, r.exponent());
        }
        assert(one.minus(x) == sum_of_ordered(one, r));
    }
}

/// One less a zero of either sign is one.
pub proof fn lemma_one_less_zero(z: Float32)
    requires
        z.is_zero(),
    ensures
        Float32::from_bits(ONE_BITS).minus(z) == Float32::from_bits(ONE_BITS),
{
    reveal(Float32::spec_plus);
}

/// A zero times a number that is not infinite is a zero.
pub proof fn lemma_zero_times(z: Float32, x: Float32)
    requires
        z.is_zero(),
        !x.is_nan(),
        x.magnitude() < INFINITY_BITS,
    ensures
        z.times(x) == zero(z.sign_set() != x.sign_set()),
        x.times(z) == zero(z.sign_set() != x.sign_set()),
{
    reveal(Float32::spec_times);
    assert(z.significand() == 0);
    assert(z.significand() * x.significand() == 0 && x.significand() * z.significand() == 0)
        by (nonlinear_arith)
        requires
            z.significand() == 0,
    ;
    lemma_nearest_bound(z.sign_set() != x.sign_set(), 0, z.exponent() + x.exponent());
    lemma_nearest_bound(x.sign_set() != z.sign_set(), 0, x.exponent() + z.exponent());
}

/// The product of two numbers from 0 to 1 is a number that is not
/// infinite and has its sign bit clear.
pub proof fn lemma_product_of_fractions(x: Float32, y: Float32)
    requires
        x.is_fraction(),
        y.is_fraction(),
    ensures
        !x.times(y).is_nan(),
        !x.times(y).is_infinite(),
        !x.times(y).sign_set(),
{
    reveal(Float32::spec_times);
    lemma_fraction_parts(x);
    lemma_fraction_parts(y);
    lemma_bit_length_of_product(x.significand(), y.significand());
    lemma_nearest_bound(false, x.significand() * y.significand(), x.exponent() + y.exponent());
}

/// One times one is one.
pub proof fn lemma_one_times_one()
    ensures
        Float32::from_bits(ONE_BITS).times(Float32::from_bits(ONE_BITS)) == Float32::from_bits(
            ONE_BITS,
        ),
{
    reveal(Float32::spec_times);
    reveal(nearest);
    lemma2_to64();
    let one = Float32::from_bits(ONE_BITS);
    assert(one.significand() == 0x80_0000 && one.exponent() == -23);
    assert(0x80_0000nat * 0x80_0000nat == 0x4000_0000_0000nat) by (nonlinear_arith);
    vstd::arithmetic::power2::lemma2_to64_rest();
    lemma_bit_length_between(0x4000_0000_0000, 47);
    assert(0x4000_0000_0000nat / 0x80_0000nat == 0x80_0000 && 0x4000_0000_0000nat % 0x80_0000nat
        == 0) by (nonlinear_arith);
}

} // verus!
