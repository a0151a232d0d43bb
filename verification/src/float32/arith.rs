//! Single-precision arithmetic on bit patterns: each operation gives the
//! value nearest to the exact result, and to the even significand of two
//! values that are equally near. What is not a number comes out as one
//! quiet NaN, whatever NaN went in.

use crate::float32::round::{
    bit_length, count_bits, in_units, lemma_bit_length, nearest, pack, pack_bits, power_of_two,
    round_half_even, round_pack, ulp_exponent,
};
use crate::float32::{Float32, INFINITY_BITS, SIGN_BIT};
use vstd::arithmetic::power2::{lemma2_to64, lemma_pow2_adds, lemma_pow2_strictly_increases, pow2};
use vstd::prelude::*;

verus! {

/// The bit pattern of the NaN that the operations give.
pub const NAN_BITS: u32 = 0x7FC0_0000;

/// The NaN that the operations give.
pub open spec fn nan() -> Float32 {
    Float32 { bits: NAN_BITS }
}

/// Infinity with the given sign.
pub open spec fn infinity(negative: bool) -> Float32 {
    Float32 { bits: if negative { (INFINITY_BITS + SIGN_BIT) as u32 } else { INFINITY_BITS } }
}

/// Zero with the given sign.
pub open spec fn zero(negative: bool) -> Float32 {
    Float32 { bits: if negative { SIGN_BIT } else { 0 } }
}

/// The value nearest to the exact sum of two finite values, of which the
/// first has the greater or the same exponent: both are counted in units
/// of the last place of the second, added or subtracted exactly, and the
/// result is rounded. A difference of exactly zero is positive zero.
pub open spec fn sum_of_ordered(hi: Float32, lo: Float32) -> Float32 {
    let t = hi.exponent() - lo.exponent();
    let a = hi.significand() * pow2(t as nat);
    let b = lo.significand();
    if hi.sign_set() == lo.sign_set() {
        nearest(hi.sign_set(), a + b, lo.exponent())
    } else if a == b {
        zero(false)
    } else if a > b {
        nearest(hi.sign_set(), (a - b) as nat, lo.exponent())
    } else {
        nearest(lo.sign_set(), (b - a) as nat, lo.exponent())
    }
}

/// A number that is neither zero nor infinite, divided by itself, is
/// exactly one.
pub proof fn lemma_over_itself(x: Float32)
    requires
        x.magnitude() < INFINITY_BITS,
        !x.is_zero(),
    ensures
        x.over(x) == Float32::from_bits(crate::float32::ONE_BITS),
{
    reveal(Float32::spec_over);
    lemma2_to64();
    let n = normalized(x.significand());
    lemma_bit_length(x.significand());
    vstd::arithmetic::power2::lemma_pow2_pos((24 - bit_length(x.significand())) as nat);
    assert(n > 0) by (nonlinear_arith)
        requires
            n == x.significand() * pow2((24 - bit_length(x.significand())) as nat),
            x.significand() > 0,
            pow2((24 - bit_length(x.significand())) as nat) > 0,
    ;
    assert(n * pow2(0) == n) by (nonlinear_arith)
        requires
            pow2(0) == 1,
    ;
    vstd::arithmetic::div_mod::lemma_fundamental_div_mod_converse(
        (n * pow2(23)) as int,
        n as int,
        0x80_0000,
        0,
    );
}

/// The bit pattern of a finite value from its sign, significand and
/// exponent.
proof fn lemma_pack_parts(f: Float32)
    requires
        f.magnitude() < INFINITY_BITS,
    ensures
        pack(f.sign_set(), f.significand(), f.exponent()) == f,
        f.significand() < 0x100_0000,
        -149 <= f.exponent() <= 104,
        f.exponent() > -149 ==> f.significand() >= 0x80_0000,
{
}

/// What `q` units of `2^(e - t)` round to, where `q` is `m` units of `2^e`
/// and a rest below a quarter of such a unit, for a significand `m` of 24
/// bits: `m` units of `2^e`.
proof fn lemma_rounds_down(m: nat, rest: nat, t: nat, e: int)
    requires
        0x80_0000 <= m < 0x100_0000,
        4 * rest < pow2(t),
        e - t >= -149,
        t >= 1,
    ensures
        ulp_exponent(m * pow2(t) + rest, e - t) == e,
        in_units(m * pow2(t) + rest, e - t, e) == m,
{
    let p = pow2(t);
    let q = m * p + rest;
    lemma2_to64();
    lemma_pow2_adds(23, t);
    lemma_pow2_adds(24, t);
    assert(pow2(23 + t) <= q < pow2(24 + t)) by (nonlinear_arith)
        requires
            q == m * p + rest,
            0x80_0000 <= m < 0x100_0000,
            4 * rest < p,
            pow2(23 + t) == 0x80_0000 * p,
            pow2(24 + t) == 0x100_0000 * p,
    ;
    crate::float32::round::lemma_bit_length_between(q, 24 + t);
    vstd::arithmetic::div_mod::lemma_fundamental_div_mod_converse(
        q as int,
        p as int,
        m as int,
        rest as int,
    );
}

/// What `q` units of `2^(e - t)` round to, where `q` is `m` units of `2^e`
/// less a rest below a quarter of such a unit, for a significand `m` of 24
/// bits above the least one: `m` units of `2^e`.
proof fn lemma_rounds_up(m: nat, rest: nat, t: nat, e: int)
    requires
        0x80_0000 < m < 0x100_0000,
        0 < rest,
        4 * rest < pow2(t),
        e - t >= -149,
        t >= 1,
    ensures
        ulp_exponent((m * pow2(t) - rest) as nat, e - t) == e,
        in_units((m * pow2(t) - rest) as nat, e - t, e) == m,
{
    let p = pow2(t);
    let q = (m * p - rest) as nat;
    lemma2_to64();
    lemma_pow2_adds(23, t);
    lemma_pow2_adds(24, t);
    assert(pow2(23 + t) <= m * p - rest < pow2(24 + t) && m * p - rest == (m - 1) * p + (p - rest))
        by (nonlinear_arith)
        requires
            0x80_0000 < m < 0x100_0000,
            0 < rest,
            4 * rest < p,
            pow2(23 + t) == 0x80_0000 * p,
            pow2(24 + t) == 0x100_0000 * p,
    ;
    crate::float32::round::lemma_bit_length_between(q, 24 + t);
    vstd::arithmetic::div_mod::lemma_fundamental_div_mod_converse(
        q as int,
        p as int,
        m - 1,
        p - rest,
    );
}

/// What `q` units of `2^(e - t)` round to, where `q` is 2 to the power 23
/// units of `2^e` less a rest below an eighth of such a unit: 2 to the
/// power 24 units of `2^(e - 1)`.
proof fn lemma_rounds_up_to_power(rest: nat, t: nat, e: int)
    requires
        0 < rest,
        8 * rest < pow2(t),
        e - t >= -149,
        t >= 2,
    ensures
        ulp_exponent((0x80_0000 * pow2(t) - rest) as nat, e - t) == e - 1,
        in_units((0x80_0000 * pow2(t) - rest) as nat, e - t, e - 1) == 0x100_0000,
{
    let p = pow2(t);
    let half = pow2((t - 1) as nat);
    let q = (0x80_0000 * p - rest) as nat;
    lemma2_to64();
    vstd::arithmetic::power2::lemma_pow2_unfold(t);
    lemma_pow2_adds(22, t);
    lemma_pow2_adds(23, t);
    assert(pow2(22 + t) <= 0x80_0000 * p - rest < pow2(23 + t) && 0x80_0000 * p - rest == 0xFF_FFFF
        * half + (half - rest)) by (nonlinear_arith)
        requires
            0 < rest,
            8 * rest < p,
            p == 2 * half,
            pow2(22 + t) == 0x40_0000 * p,
            pow2(23 + t) == 0x80_0000 * p,
    ;
    crate::float32::round::lemma_bit_length_between(q, 23 + t);
    vstd::arithmetic::div_mod::lemma_fundamental_div_mod_converse(
        q as int,
        half as int,
        0xFF_FFFF,
        half - rest,
    );
}

/// Where the exponents of two finite values that are not zero differ by
/// more than 26, the second is below an eighth of what the last place of
/// the first counts, and their sum rounds to the first.
proof fn lemma_far_sum(hi: Float32, lo: Float32)
    requires
        hi.magnitude() < INFINITY_BITS,
        lo.magnitude() < INFINITY_BITS,
        !lo.is_zero(),
        hi.exponent() - lo.exponent() > 26,
    ensures
        sum_of_ordered(hi, lo) == hi,
{
    reveal(nearest);
    lemma_pack_parts(hi);
    lemma_pack_parts(lo);
    let t = (hi.exponent() - lo.exponent()) as nat;
    let m = hi.significand();
    let rest = lo.significand();
    let p = pow2(t);
    lemma2_to64();
    if t > 27 {
        lemma_pow2_strictly_increases(27, t);
    }
    assert(p >= 0x800_0000);
    assert(m * p >= 0x80_0000 * 0x800_0000) by (nonlinear_arith)
        requires
            m >= 0x80_0000,
            p >= 0x800_0000,
    ;
    if hi.sign_set() == lo.sign_set() {
        lemma_rounds_down(m, rest, t, hi.exponent());
    } else if m > 0x80_0000 {
        lemma_rounds_up(m, rest, t, hi.exponent());
    } else {
        lemma_rounds_up_to_power(rest, t, hi.exponent());
    }
}

/// The significand with its top bit brought to bit 23.
pub open spec fn normalized(m: nat) -> nat {
    m * pow2((24 - bit_length(m)) as nat)
}

impl Float32 {
    /// The value is infinite.
    pub open spec fn is_infinite(self) -> bool {
        self.magnitude() == INFINITY_BITS
    }

    /// The value is a zero, of either sign.
    pub open spec fn is_zero(self) -> bool {
        self.magnitude() == 0
    }

    /// The place of the value among all values that are numbers: greater
    /// for a greater value, the same for the two zeros.
    pub open spec fn key(self) -> int {
        if self.sign_set() {
            -(self.magnitude() as int)
        } else {
            self.magnitude() as int
        }
    }

    /// The product.
    #[verifier::opaque]
    pub open spec fn spec_times(self, rhs: Float32) -> Float32 {
        let negative = self.sign_set() != rhs.sign_set();
        if self.is_nan() || rhs.is_nan() {
            nan()
        } else if self.is_infinite() || rhs.is_infinite() {
            if self.is_zero() || rhs.is_zero() {
                nan()
            } else {
                infinity(negative)
            }
        } else {
            nearest(
                negative,
                self.significand() * rhs.significand(),
                self.exponent() + rhs.exponent(),
            )
        }
    }

    /// The sum.
    #[verifier::opaque]
    pub open spec fn spec_plus(self, rhs: Float32) -> Float32 {
        if self.is_nan() || rhs.is_nan() {
            nan()
        } else if self.is_infinite() {
            if rhs.is_infinite() && self.sign_set() != rhs.sign_set() {
                nan()
            } else {
                self
            }
        } else if rhs.is_infinite() {
            rhs
        } else if self.is_zero() && rhs.is_zero() {
            zero(self.sign_set() && rhs.sign_set())
        } else if rhs.is_zero() {
            self
        } else if self.is_zero() {
            rhs
        } else if self.exponent() >= rhs.exponent() {
            sum_of_ordered(self, rhs)
        } else {
            sum_of_ordered(rhs, self)
        }
    }

    /// The value with the other sign.
    pub open spec fn spec_negated(self) -> Float32 {
        Float32 {
            bits: if self.sign_set() {
                (self.bits - SIGN_BIT) as u32
            } else {
                (self.bits + SIGN_BIT) as u32
            },
        }
    }

    /// The value without its sign.
    pub open spec fn spec_abs(self) -> Float32 {
        Float32 { bits: self.magnitude() }
    }

    /// The difference.
    pub open spec fn spec_minus(self, rhs: Float32) -> Float32 {
        self.spec_plus(rhs.spec_negated())
    }

    /// The quotient: the value nearest to the exact quotient, and the one
    /// with the even significand of two that are equally near.
    ///
    /// With the significands brought to 24 bits each, the quotient of the
    /// two lies between a half and two, so that 23 or 24 more bits bring it
    /// to 24 bits; it is rounded there, or at the least power of two that
    /// single precision has where that is greater.
    #[verifier::opaque]
    pub open spec fn spec_over(self, rhs: Float32) -> Float32 {
        let negative = self.sign_set() != rhs.sign_set();
        if self.is_nan() || rhs.is_nan() {
            nan()
        } else if self.is_infinite() {
            if rhs.is_infinite() {
                nan()
            } else {
                infinity(negative)
            }
        } else if rhs.is_infinite() {
            zero(negative)
        } else if rhs.is_zero() {
            if self.is_zero() {
                nan()
            } else {
                infinity(negative)
            }
        } else if self.is_zero() {
            zero(negative)
        } else {
            let n = normalized(self.significand());
            let d = normalized(rhs.significand());
            let more: nat = if n >= d {
                23
            } else {
                24
            };
            let top = (self.exponent() + bit_length(self.significand())) - (rhs.exponent()
                + bit_length(rhs.significand())) - more;
            let u = if top < -149 {
                -149
            } else {
                top
            };
            pack(negative, round_half_even(n * pow2(more), d * pow2((u - top) as nat)), u)
        }
    }

    /// The remainder of dividing by 2, cut towards zero; it has the sign of
    /// the value and is exact.
    #[verifier::opaque]
    pub open spec fn spec_rem_two(self) -> Float32 {
        if self.is_nan() || self.is_infinite() {
            nan()
        } else if self.exponent() >= 1 {
            zero(self.sign_set())
        } else {
            nearest(
                self.sign_set(),
                self.significand() % pow2((1 - self.exponent()) as nat),
                self.exponent(),
            )
        }
    }

    /// The value cut down to a whole number and limited to the range from 0
    /// to `max`: 0 for a value below 1 or not a number, `max` for a value
    /// above it.
    #[verifier::opaque]
    pub open spec fn spec_to_whole(self, max: u32) -> u32 {
        if self.sign_set() || self.is_nan() {
            0
        } else if self.is_infinite() {
            max
        } else {
            let whole = if self.exponent() >= 0 {
                self.significand() * pow2(self.exponent() as nat)
            } else {
                self.significand() / pow2((-self.exponent()) as nat)
            };
            if whole > max {
                max
            } else {
                whole as u32
            }
        }
    }

    /// The value is less than `rhs`; false where one is not a number.
    pub open spec fn spec_lt(self, rhs: Float32) -> bool {
        !self.is_nan() && !rhs.is_nan() && self.key() < rhs.key()
    }

    /// The value is at most `rhs`; false where one is not a number.
    pub open spec fn spec_le(self, rhs: Float32) -> bool {
        !self.is_nan() && !rhs.is_nan() && self.key() <= rhs.key()
    }

    /// The two are the same number; the two zeros are, and nothing is the
    /// same as what is not a number.
    pub open spec fn spec_same_number(self, rhs: Float32) -> bool {
        !self.is_nan() && !rhs.is_nan() && self.key() == rhs.key()
    }

    /// Sign, significand and exponent of a value.
    fn parts(self) -> (p: (bool, u64, i32))
        ensures
            p.0 == self.sign_set(),
            p.1 == self.significand(),
            p.2 == self.exponent(),
            p.1 < 0x100_0000,
            -149 <= p.2 <= 105,
            self.magnitude() < INFINITY_BITS ==> p.2 <= 104,
            p.1 == 0 <==> self.magnitude() < 0x80_0000 && self.is_zero(),
    {
        let magnitude: u32 = self.bits % SIGN_BIT;
        let biased: u32 = magnitude / 0x80_0000;
        let fraction: u32 = magnitude % 0x80_0000;
        if biased == 0 {
            (self.bits >= SIGN_BIT, fraction as u64, -149)
        } else {
            (self.bits >= SIGN_BIT, fraction as u64 + 0x80_0000, biased as i32 - 150)
        }
    }

    /// The NaN that the operations give.
    pub fn not_a_number() -> (f: Float32)
        ensures
            f == nan(),
    {
        Float32 { bits: NAN_BITS }
    }

    fn signed_infinity(negative: bool) -> (f: Float32)
        ensures
            f == infinity(negative),
    {
        Float32 { bits: if negative { INFINITY_BITS + SIGN_BIT } else { INFINITY_BITS } }
    }

    fn signed_zero(negative: bool) -> (f: Float32)
        ensures
            f == zero(negative),
    {
        Float32 { bits: if negative { SIGN_BIT } else { 0 } }
    }

    /// The whole number `n` as a single-precision value.
    pub open spec fn spec_from_whole(n: u32) -> Float32 {
        nearest(false, n as nat, 0)
    }

    /// The whole number `n` as a single-precision value.
    #[verifier::when_used_as_spec(spec_from_whole)]
    pub fn from_whole(n: u32) -> (f: Float32)
        ensures
            f == Float32::spec_from_whole(n),
    {
        round_pack(false, n as u64, 0)
    }

    /// The product of the value and `rhs`.
    #[verifier::when_used_as_spec(spec_times)]
    pub fn times(self, rhs: Float32) -> (f: Float32)
        ensures
            f == self.spec_times(rhs),
    {
        reveal(Float32::spec_times);
        let a = self.bits % SIGN_BIT;
        let b = rhs.bits % SIGN_BIT;
        let negative = (self.bits >= SIGN_BIT) != (rhs.bits >= SIGN_BIT);
        if a > INFINITY_BITS || b > INFINITY_BITS {
            Float32::not_a_number()
        } else if a == INFINITY_BITS || b == INFINITY_BITS {
            if a == 0 || b == 0 {
                Float32::not_a_number()
            } else {
                Float32::signed_infinity(negative)
            }
        } else {
            let (_, ma, ea) = self.parts();
            let (_, mb, eb) = rhs.parts();
            assert(ma * mb < 0x100_0000 * 0x100_0000) by (nonlinear_arith)
                requires
                    ma < 0x100_0000,
                    mb < 0x100_0000,
            ;
            round_pack(negative, ma * mb, ea + eb)
        }
    }

    /// The sum of two finite values that are not zero, the first with the
    /// greater or the same exponent.
    fn plus_ordered(hi: Float32, lo: Float32) -> (f: Float32)
        requires
            hi.magnitude() < INFINITY_BITS,
            lo.magnitude() < INFINITY_BITS,
            !lo.is_zero(),
            hi.exponent() >= lo.exponent(),
        ensures
            f == sum_of_ordered(hi, lo),
    {
        let (sa, ma, ea) = hi.parts();
        let (sb, mb, eb) = lo.parts();
        let t: i32 = ea - eb;
        if t > 26 {
            proof {
                lemma_far_sum(hi, lo);
            }
            return hi;
        }
        let factor = power_of_two(t as u32);
        proof {
            lemma2_to64();
            if t < 26 {
                lemma_pow2_strictly_increases(t as nat, 26);
            }
            assert(ma * factor < 0x100_0000 * 0x400_0000) by (nonlinear_arith)
                requires
                    ma < 0x100_0000,
                    factor <= 0x400_0000,
            ;
        }
        let a: u64 = ma * factor;
        if sa == sb {
            round_pack(sa, a + mb, eb)
        } else if a == mb {
            Float32::signed_zero(false)
        } else if a > mb {
            round_pack(sa, a - mb, eb)
        } else {
            round_pack(sb, mb - a, eb)
        }
    }

    /// The sum of the value and `rhs`.
    #[verifier::when_used_as_spec(spec_plus)]
    pub fn plus(self, rhs: Float32) -> (f: Float32)
        ensures
            f == self.spec_plus(rhs),
    {
        reveal(Float32::spec_plus);
        let a = self.bits % SIGN_BIT;
        let b = rhs.bits % SIGN_BIT;
        let sa = self.bits >= SIGN_BIT;
        let sb = rhs.bits >= SIGN_BIT;
        if a > INFINITY_BITS || b > INFINITY_BITS {
            Float32::not_a_number()
        } else if a == INFINITY_BITS {
            if b == INFINITY_BITS && sa != sb {
                Float32::not_a_number()
            } else {
                self
            }
        } else if b == INFINITY_BITS {
            rhs
        } else if a == 0 && b == 0 {
            Float32::signed_zero(sa && sb)
        } else if b == 0 {
            self
        } else if a == 0 {
            rhs
        } else {
            let (_, _, ea) = self.parts();
            let (_, _, eb) = rhs.parts();
            if ea >= eb {
                Float32::plus_ordered(self, rhs)
            } else {
                Float32::plus_ordered(rhs, self)
            }
        }
    }

    /// The value with the other sign.
    #[verifier::when_used_as_spec(spec_negated)]
    pub fn negated(self) -> (f: Float32)
        ensures
            f == self.spec_negated(),
    {
        if self.bits >= SIGN_BIT {
            Float32 { bits: self.bits - SIGN_BIT }
        } else {
            Float32 { bits: self.bits + SIGN_BIT }
        }
    }

    /// The value without its sign.
    #[verifier::when_used_as_spec(spec_abs)]
    pub fn abs(self) -> (f: Float32)
        ensures
            f == self.spec_abs(),
    {
        Float32 { bits: self.bits % SIGN_BIT }
    }

    /// The difference of the value and `rhs`.
    #[verifier::when_used_as_spec(spec_minus)]
    pub fn minus(self, rhs: Float32) -> (f: Float32)
        ensures
            f == self.spec_minus(rhs),
    {
        self.plus(rhs.negated())
    }

    /// A significand that is not zero, with its top bit brought to bit 23,
    /// and its number of bits.
    fn normalize(m: u64) -> (r: (u64, u32))
        requires
            0 < m < 0x100_0000,
        ensures
            r.0 == normalized(m as nat),
            r.1 == bit_length(m as nat),
            0x80_0000 <= r.0 < 0x100_0000,
            1 <= r.1 <= 24,
    {
        let len = count_bits(m);
        proof {
            lemma_bit_length(m as nat);
            lemma2_to64();
            if len > 25 {
                lemma_pow2_strictly_increases(25, len as nat);
            }
            assert(len <= 24);
            assert(len >= 1);
            lemma_pow2_adds((24 - len) as nat, len as nat);
        }
        let factor = power_of_two(24 - len);
        proof {
            let p = pow2(len as nat);
            assert(factor * p == 0x100_0000);
            assert(m * factor < 0x100_0000 && 2 * (m * factor) >= 0x100_0000) by (nonlinear_arith)
                requires
                    m < p,
                    2 * m >= p,
                    factor * p == 0x100_0000,
                    factor >= 1,
            ;
        }
        (m * factor, len)
    }

    /// The quotient of the value by `rhs`.
    #[verifier::when_used_as_spec(spec_over)]
    pub fn over(self, rhs: Float32) -> (f: Float32)
        ensures
            f == self.spec_over(rhs),
    {
        reveal(Float32::spec_over);
        let a = self.bits % SIGN_BIT;
        let b = rhs.bits % SIGN_BIT;
        let negative = (self.bits >= SIGN_BIT) != (rhs.bits >= SIGN_BIT);
        if a > INFINITY_BITS || b > INFINITY_BITS {
            Float32::not_a_number()
        } else if a == INFINITY_BITS {
            if b == INFINITY_BITS {
                Float32::not_a_number()
            } else {
                Float32::signed_infinity(negative)
            }
        } else if b == INFINITY_BITS {
            Float32::signed_zero(negative)
        } else if b == 0 {
            if a == 0 {
                Float32::not_a_number()
            } else {
                Float32::signed_infinity(negative)
            }
        } else if a == 0 {
            Float32::signed_zero(negative)
        } else {
            let (_, ma, ea) = self.parts();
            let (_, mb, eb) = rhs.parts();
            let (na, la) = Float32::normalize(ma);
            let (nb, lb) = Float32::normalize(mb);
            let more: u32 = if na >= nb {
                23
            } else {
                24
            };
            let top: i32 = (ea + la as i32) - (eb + lb as i32) - more as i32;
            let u: i32 = if top < -149 {
                -149
            } else {
                top
            };
            let scale = power_of_two(more);
            proof {
                lemma2_to64();
                assert(na * scale < 0x100_0000 * 0x100_0000) by (nonlinear_arith)
                    requires
                        na < 0x100_0000,
                        scale <= 0x100_0000,
                ;
            }
            let n: u64 = na * scale;
            let coarser: u32 = (u - top) as u32;
            let m: u64 = if coarser >= 26 {
                proof {
                    let d = nb * pow2(coarser as nat);
                    lemma2_to64();
                    if coarser > 26 {
                        lemma_pow2_strictly_increases(26, coarser as nat);
                    }
                    assert(d >= 0x80_0000 * 0x400_0000) by (nonlinear_arith)
                        requires
                            d == nb * pow2(coarser as nat),
                            nb >= 0x80_0000,
                            pow2(coarser as nat) >= 0x400_0000,
                    ;
                    vstd::arithmetic::div_mod::lemma_basic_div(n as int, d as int);
                    vstd::arithmetic::div_mod::lemma_small_mod(n as nat, d as nat);
                }
                0
            } else {
                let factor = power_of_two(coarser);
                proof {
                    lemma2_to64();
                    if coarser < 25 {
                        lemma_pow2_strictly_increases(coarser as nat, 25);
                    }
                    assert(nb * factor < 0x100_0000 * 0x400_0000 && nb * factor >= 0x80_0000)
                        by (nonlinear_arith)
                        requires
                            0x80_0000 <= nb < 0x100_0000,
                            1 <= factor <= 0x200_0000,
                    ;
                }
                let d: u64 = nb * factor;
                let whole: u64 = n / d;
                let rest: u64 = n % d;
                proof {
                    // the quotient of the significands is below two
                    assert(n < 2 * nb * pow2(more as nat)) by (nonlinear_arith)
                        requires
                            n == na * pow2(more as nat),
                            na < 0x100_0000,
                            nb >= 0x80_0000,
                            pow2(more as nat) > 0,
                    ;
                    assert(na < nb ==> n < nb * 0x100_0000) by (nonlinear_arith)
                        requires
                            n == na * pow2(more as nat),
                            na < nb ==> pow2(more as nat) == 0x100_0000,
                    ;
                    assert(na >= nb ==> n < nb * 0x100_0000) by (nonlinear_arith)
                        requires
                            n == na * pow2(more as nat),
                            na >= nb ==> pow2(more as nat) == 0x80_0000,
                            na < 0x100_0000,
                            nb >= 0x80_0000,
                    ;
                    assert(n < d * 0x100_0000) by (nonlinear_arith)
                        requires
                            n < nb * 0x100_0000,
                            d == nb * factor,
                            factor >= 1,
                    ;
                    assert(whole < 0x100_0000) by (nonlinear_arith)
                        requires
                            whole == n / d,
                            n < d * 0x100_0000,
                            d > 0,
                    ;
                }
                if 2 * rest > d || (2 * rest == d && whole % 2 == 1) {
                    whole + 1
                } else {
                    whole
                }
            };
            pack_bits(negative, m, u)
        }
    }

    /// The remainder of dividing the value by 2.
    #[verifier::when_used_as_spec(spec_rem_two)]
    pub fn rem_two(self) -> (f: Float32)
        ensures
            f == self.spec_rem_two(),
    {
        reveal(Float32::spec_rem_two);
        let a = self.bits % SIGN_BIT;
        if a >= INFINITY_BITS {
            return Float32::not_a_number();
        }
        let (negative, m, e) = self.parts();
        if e >= 1 {
            return Float32::signed_zero(negative);
        }
        let shift: u32 = (1 - e) as u32;
        let rest: u64 = if shift >= 25 {
            proof {
                lemma2_to64();
                if shift > 25 {
                    lemma_pow2_strictly_increases(25, shift as nat);
                }
                vstd::arithmetic::div_mod::lemma_small_mod(m as nat, pow2(shift as nat));
            }
            m
        } else {
            let p = power_of_two(shift);
            proof {
                vstd::arithmetic::div_mod::lemma_mod_decreases(m as nat, p as nat);
            }
            m % p
        };
        round_pack(negative, rest, e)
    }

    /// The value cut down to a whole number and limited to the range from 0
    /// to `max`.
    #[verifier::when_used_as_spec(spec_to_whole)]
    pub fn to_whole(self, max: u32) -> (n: u32)
        requires
            max < 0x80_0000,
        ensures
            n == self.spec_to_whole(max),
            n <= max,
    {
        reveal(Float32::spec_to_whole);
        let a = self.bits % SIGN_BIT;
        if self.bits >= SIGN_BIT || a > INFINITY_BITS {
            return 0;
        }
        if a == INFINITY_BITS {
            return max;
        }
        let (_, m, e) = self.parts();
        if e >= 0 {
            proof {
                let power = pow2(e as nat);
                vstd::arithmetic::power2::lemma_pow2_pos(e as nat);
                assert(m * power >= m) by (nonlinear_arith)
                    requires
                        power >= 1,
                        m >= 0,
                ;
            }
            return max;
        }
        let shift: u32 = (-e) as u32;
        if shift >= 25 {
            proof {
                lemma2_to64();
                if shift > 25 {
                    lemma_pow2_strictly_increases(25, shift as nat);
                }
                vstd::arithmetic::div_mod::lemma_basic_div(m as int, pow2(shift as nat) as int);
            }
            return 0;
        }
        let whole: u64 = m / power_of_two(shift);
        if whole > max as u64 {
            max
        } else {
            whole as u32
        }
    }

    /// The place of a value that is a number among all of them.
    fn sort_key(self) -> (k: i64)
        ensures
            k == self.key(),
    {
        let magnitude = (self.bits % SIGN_BIT) as i64;
        if self.bits >= SIGN_BIT {
            -magnitude
        } else {
            magnitude
        }
    }

    /// Whether the value is less than `rhs`.
    #[verifier::when_used_as_spec(spec_lt)]
    pub fn lt(self, rhs: Float32) -> (b: bool)
        ensures
            b == self.spec_lt(rhs),
    {
        !self.is_not_a_number() && !rhs.is_not_a_number() && self.sort_key() < rhs.sort_key()
    }

    /// Whether the value is at most `rhs`.
    #[verifier::when_used_as_spec(spec_le)]
    pub fn le(self, rhs: Float32) -> (b: bool)
        ensures
            b == self.spec_le(rhs),
    {
        !self.is_not_a_number() && !rhs.is_not_a_number() && self.sort_key() <= rhs.sort_key()
    }

    /// Whether the two are the same number.
    #[verifier::when_used_as_spec(spec_same_number)]
    pub fn same_number(self, rhs: Float32) -> (b: bool)
        ensures
            b == self.spec_same_number(rhs),
    {
        !self.is_not_a_number() && !rhs.is_not_a_number() && self.sort_key() == rhs.sort_key()
    }
}

} // verus!
