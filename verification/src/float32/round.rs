//! Rounding of a whole multiple of a power of two to single precision.

use crate::float32::{Float32, INFINITY_BITS, SIGN_BIT};
use vstd::arithmetic::power2::{lemma2_to64, lemma_pow2_strictly_increases, lemma_pow2_unfold, pow2};
use vstd::prelude::*;

verus! {

/// `q / p`, rounded to the nearest whole number, and to the even one of two
/// that are equally near.
pub open spec fn round_half_even(q: nat, p: nat) -> nat {
    let whole = q / p;
    let rest = q % p;
    if 2 * rest > p || (2 * rest == p && whole % 2 == 1) {
        whole + 1
    } else {
        whole
    }
}

/// The number of bits of `q`: the least `n` with `q` below 2 to the power `n`.
pub open spec fn bit_length(q: nat) -> nat
    decreases q,
{
    if q == 0 {
        0
    } else {
        1 + bit_length(q / 2)
    }
}

/// The power of two that the last place of the single-precision value
/// nearest to `q * 2^e` counts: 24 bits below the top of `q`, and at least
/// the least power that single precision has.
pub open spec fn ulp_exponent(q: nat, e: int) -> int {
    let top = e + bit_length(q) - 24;
    if top < -149 {
        -149
    } else {
        top
    }
}

/// `q * 2^e` in units of `2^u`, rounded to the nearest whole number, and
/// to the even one of two that are equally near.
pub open spec fn in_units(q: nat, e: int, u: int) -> nat {
    if u <= e {
        q * pow2((e - u) as nat)
    } else {
        round_half_even(q, pow2((u - e) as nat))
    }
}

/// The value with the given sign, significand and exponent of the last
/// place: infinity where the exponent is above what single precision has,
/// a subnormal value where the significand is below 2 to the power 23.
pub open spec fn pack(negative: bool, m: nat, u: int) -> Float32 {
    let magnitude = if m == 0x100_0000 {
        if u + 1 > 104 {
            INFINITY_BITS as int
        } else {
            (u + 151) * 0x80_0000
        }
    } else if u > 104 {
        INFINITY_BITS as int
    } else if m < 0x80_0000 {
        m as int
    } else {
        (u + 150) * 0x80_0000 + (m - 0x80_0000)
    };
    Float32 {
        bits: (magnitude + if negative {
            SIGN_BIT as int
        } else {
            0
        }) as u32,
    }
}

/// The single-precision value nearest to `q * 2^e`, with the given sign:
/// rounded to 24 significant bits, or to the least power of two that single
/// precision has, to the even significand of two values that are equally
/// near, and to infinity beyond the greatest finite value.
#[verifier::opaque]
pub open spec fn nearest(negative: bool, q: nat, e: int) -> Float32 {
    if q == 0 {
        pack(negative, 0, -149)
    } else {
        let u = ulp_exponent(q, e);
        pack(negative, in_units(q, e, u), u)
    }
}

/// What `in_units` gives is the whole number of units nearest to
/// `q * 2^e`: it is exact where the unit is no greater than `2^e`, and
/// otherwise no more than half a unit away, and even where it is exactly
/// half a unit away.
pub proof fn lemma_in_units_is_nearest(q: nat, e: int, u: int)
    ensures
        u <= e ==> in_units(q, e, u) == q * pow2((e - u) as nat),
        u > e ==> ({
            let unit = pow2((u - e) as nat) as int;
            let off = in_units(q, e, u) * unit - q;
            &&& -unit <= 2 * off <= unit
            &&& (2 * off == unit || 2 * off == -unit) ==> in_units(q, e, u) % 2 == 0
        }),
{
    if u > e {
        let unit = pow2((u - e) as nat);
        vstd::arithmetic::power2::lemma_pow2_pos((u - e) as nat);
        let whole = q / unit;
        let rest = q % unit;
        vstd::arithmetic::div_mod::lemma_fundamental_div_mod(q as int, unit as int);
        vstd::arithmetic::div_mod::lemma_mod_bound(q as int, unit as int);
        assert((whole + 1) * unit == unit * whole + unit) by (nonlinear_arith);
        assert(whole * unit == unit * whole) by (nonlinear_arith);
    }
}

/// A number is below 2 to the power of its number of bits, and at least
/// half of that.
pub proof fn lemma_bit_length(q: nat)
    ensures
        q < pow2(bit_length(q)),
        q > 0 ==> 2 * q >= pow2(bit_length(q)),
    decreases q,
{
    lemma2_to64();
    if q > 0 {
        lemma_bit_length(q / 2);
        lemma_pow2_unfold(bit_length(q));
    }
}

/// A number from 2 to the power `n - 1` up to below 2 to the power `n` has
/// `n` bits.
pub proof fn lemma_bit_length_between(q: nat, n: nat)
    requires
        n >= 1,
        pow2((n - 1) as nat) <= q < pow2(n),
    ensures
        bit_length(q) == n,
{
    let len = bit_length(q);
    lemma_bit_length(q);
    vstd::arithmetic::power2::lemma_pow2_pos((n - 1) as nat);
    lemma_pow2_unfold(n);
    if len < n {
        if len < n - 1 {
            lemma_pow2_strictly_increases(len, (n - 1) as nat);
        }
    } else if len > n {
        lemma_pow2_unfold(len);
        if n < len - 1 {
            lemma_pow2_strictly_increases(n, (len - 1) as nat);
        }
    }
}

/// 2 to the power `n`, for `n` below 64.
pub fn power_of_two(n: u32) -> (p: u64)
    requires
        n < 64,
    ensures
        p == pow2(n as nat),
        p >= 1,
{
    let mut p: u64 = 1;
    let mut i: u32 = 0;
    proof {
        lemma2_to64();
    }
    while i < n
        invariant
            i <= n < 64,
            p == pow2(i as nat),
            p >= 1,
        decreases n - i,
    {
        proof {
            lemma_pow2_unfold((i + 1) as nat);
            lemma_pow2_strictly_increases((i + 1) as nat, 64);
            vstd::arithmetic::power2::lemma2_to64_rest();
        }
        p = p * 2;
        i = i + 1;
    }
    p
}

/// The number of bits of `q`.
pub fn count_bits(q: u64) -> (n: u32)
    ensures
        n == bit_length(q as nat),
        n <= 64,
{
    let mut n: u32 = 0;
    let mut rest: u64 = q;
    proof {
        lemma_bit_length(q as nat);
        vstd::arithmetic::power2::lemma2_to64_rest();
        if bit_length(q as nat) > 65 {
            lemma_pow2_strictly_increases(65, bit_length(q as nat));
        }
        lemma_pow2_unfold(65);
    }
    while rest > 0
        invariant
            bit_length(q as nat) == n + bit_length(rest as nat),
            n + bit_length(rest as nat) <= 64,
        decreases rest,
    {
        rest = rest / 2;
        n = n + 1;
    }
    n
}

/// The single-precision value nearest to `q * 2^e`, with the given sign.
pub fn round_pack(negative: bool, q: u64, e: i32) -> (f: Float32)
    requires
        q < 0x8000_0000_0000_0000,
        -1000 <= e <= 1000,
    ensures
        f == nearest(negative, q as nat, e as int),
{
    reveal(nearest);
    if q == 0 {
        return pack_bits(negative, 0, -149);
    }
    let len: u32 = count_bits(q);
    proof {
        lemma_bit_length(q as nat);
        lemma2_to64();
    }
    let top: i32 = e + len as i32 - 24;
    let u: i32 = if top < -149 {
        -149
    } else {
        top
    };
    let m: u64 = if u <= e {
        let shift: u32 = (e - u) as u32;
        assert(shift + len <= 24);
        let factor = power_of_two(shift);
        proof {
            vstd::arithmetic::power2::lemma_pow2_adds(shift as nat, len as nat);
            if shift + len < 24 {
                lemma_pow2_strictly_increases((shift + len) as nat, 24);
            }
            assert(q * factor < pow2(len as nat) * factor) by (nonlinear_arith)
                requires
                    q < pow2(len as nat),
                    factor > 0,
            ;
            assert(pow2(len as nat) * factor == pow2((shift + len) as nat)) by (nonlinear_arith)
                requires
                    pow2((shift + len) as nat) == pow2(shift as nat) * pow2(len as nat),
                    factor == pow2(shift as nat),
            ;
        }
        q * factor
    } else {
        let drop: u32 = (u - e) as u32;
        if drop >= 64 {
            proof {
                let p = pow2(drop as nat);
                vstd::arithmetic::power2::lemma2_to64_rest();
                if drop > 64 {
                    lemma_pow2_strictly_increases(64, drop as nat);
                }
                assert(p >= 0x1_0000_0000_0000_0000);
                vstd::arithmetic::div_mod::lemma_basic_div(q as int, p as int);
                vstd::arithmetic::div_mod::lemma_small_mod(q as nat, p);
            }
            0
        } else {
            let p = power_of_two(drop);
            let whole: u64 = q / p;
            let rest: u64 = q % p;
            proof {
                // the part kept has at most 24 bits
                assert(drop + 24 >= len);
                vstd::arithmetic::power2::lemma_pow2_adds(drop as nat, 24);
                if len < drop + 24 {
                    lemma_pow2_strictly_increases(len as nat, (drop + 24) as nat);
                }
                assert(q < p * 0x100_0000);
                assert(whole < 0x100_0000) by (nonlinear_arith)
                    requires
                        whole == q / p,
                        q < p * 0x100_0000,
                        p > 0,
                ;
            }
            if 2 * (rest as u128) > p as u128 || (2 * (rest as u128) == p as u128 && whole % 2
                == 1) {
                whole + 1
            } else {
                whole
            }
        }
    };
    assert(m == in_units(q as nat, e as int, u as int));
    pack_bits(negative, m, u)
}

/// The value with the given sign, significand and exponent of the last
/// place.
pub fn pack_bits(negative: bool, m: u64, u: i32) -> (f: Float32)
    requires
        m <= 0x100_0000,
        -149 <= u <= 2000,
    ensures
        f == pack(negative, m as nat, u as int),
{
    let sign: u32 = if negative {
        SIGN_BIT
    } else {
        0
    };
    let magnitude: u32 = if m == 0x100_0000 {
        if u + 1 > 104 {
            INFINITY_BITS
        } else {
            ((u + 151) as u32) * 0x80_0000
        }
    } else if u > 104 {
        INFINITY_BITS
    } else if m < 0x80_0000 {
        m as u32
    } else {
        ((u + 150) as u32) * 0x80_0000 + (m as u32 - 0x80_0000)
    };
    Float32 { bits: magnitude + sign }
}

} // verus!
