//! XYZ against L*a*b*, relative to the reference white that the value
//! carries, or to the D65 white.
//!
//! With `f(t) = t^(1/3)` where `t > 0.008856` and `(903.3 t + 16) / 116`
//! otherwise: `L = 116 f(Y / Yw) - 16`, `a = 500 (f(X / Xw) - f(Y / Yw))`,
//! `b = 200 (f(Y / Yw) - f(Z / Zw))`. The way back takes the cube where it
//! is above 0.008856, and `(116 f - 16) / 903.3` otherwise. The cube roots
//! are asked of the kernel.

use crate::color::adaptation::white_or_d65;
use crate::color::cie::{CieLab, CieXyz, ReferenceWhite};
use crate::color::kernel::{ask, is_function, MathCall};
use crate::color::matrix::Vector3;
use crate::float32::Float32;
use vstd::prelude::*;

verus! {

/// The bit pattern of 0.008856.
pub const EPSILON_BITS: u32 = 0x3C11_18C2;

/// The bit pattern of 903.3.
pub const KAPPA_BITS: u32 = 0x4461_D333;

/// The bit pattern of 16.0.
pub const SIXTEEN_BITS: u32 = 0x4180_0000;

/// The bit pattern of 116.0.
pub const HUNDRED_SIXTEEN_BITS: u32 = 0x42E8_0000;

/// The bit pattern of 500.0.
pub const FIVE_HUNDRED_BITS: u32 = 0x43FA_0000;

/// The bit pattern of 200.0.
pub const TWO_HUNDRED_BITS: u32 = 0x4348_0000;

/// The third power.
pub open spec fn spec_cube(f: Float32) -> Float32 {
    f.times(f).times(f)
}

/// The third power.
#[verifier::when_used_as_spec(spec_cube)]
pub fn cube(f: Float32) -> (out: Float32)
    ensures
        out == spec_cube(f),
{
    f.times(f).times(f)
}


/// `f(t)`: the cube root above 0.008856, `(903.3 t + 16) / 116` otherwise.
pub open spec fn spec_lab_f<K: Fn(MathCall) -> Float32>(t: Float32, kernel: &K) -> Float32 {
    if Float32::from_bits(EPSILON_BITS).lt(t) {
        ask(kernel, MathCall::Cbrt(t))
    } else {
        Float32::from_bits(KAPPA_BITS).times(t).plus(Float32::from_bits(SIXTEEN_BITS)).over(
            Float32::from_bits(HUNDRED_SIXTEEN_BITS),
        )
    }
}

/// `f(t)`: the cube root above 0.008856, `(903.3 t + 16) / 116` otherwise.
#[verifier::when_used_as_spec(spec_lab_f)]
pub fn lab_f<K: Fn(MathCall) -> Float32>(t: Float32, kernel: &K) -> (out: Float32)
    requires
        is_function(*kernel),
    ensures
        out == spec_lab_f(t, kernel),
{
    if Float32::from_bits(EPSILON_BITS).lt(t) {
        ask(kernel, MathCall::Cbrt(t))
    } else {
        Float32::from_bits(KAPPA_BITS).times(t).plus(Float32::from_bits(SIXTEEN_BITS)).over(
            Float32::from_bits(HUNDRED_SIXTEEN_BITS),
        )
    }
}


/// The ratio to the white that `f` stands for: its cube where that is
/// above 0.008856, `(116 f - 16) / 903.3` otherwise.
pub open spec fn spec_lab_f_inverse(f: Float32) -> Float32 {
    if Float32::from_bits(EPSILON_BITS).lt(cube(f)) {
        cube(f)
    } else {
        Float32::from_bits(HUNDRED_SIXTEEN_BITS).times(f).minus(
            Float32::from_bits(SIXTEEN_BITS),
        ).over(Float32::from_bits(KAPPA_BITS))
    }
}

/// The ratio to the white that `f` stands for: its cube where that is
/// above 0.008856, `(116 f - 16) / 903.3` otherwise.
#[verifier::when_used_as_spec(spec_lab_f_inverse)]
pub fn lab_f_inverse(f: Float32) -> (out: Float32)
    ensures
        out == spec_lab_f_inverse(f),
{
    if Float32::from_bits(EPSILON_BITS).lt(cube(f)) {
        cube(f)
    } else {
        Float32::from_bits(HUNDRED_SIXTEEN_BITS).times(f).minus(
            Float32::from_bits(SIXTEEN_BITS),
        ).over(Float32::from_bits(KAPPA_BITS))
    }
}


/// `f(Y / Yw)` of a lightness: `(L + 16) / 116`.
pub open spec fn spec_lightness_f(l: Float32) -> Float32 {
    l.plus(Float32::from_bits(SIXTEEN_BITS)).over(Float32::from_bits(HUNDRED_SIXTEEN_BITS))
}

/// `f(Y / Yw)` of a lightness: `(L + 16) / 116`.
#[verifier::when_used_as_spec(spec_lightness_f)]
pub fn lightness_f(l: Float32) -> (out: Float32)
    ensures
        out == spec_lightness_f(l),
{
    l.plus(Float32::from_bits(SIXTEEN_BITS)).over(Float32::from_bits(HUNDRED_SIXTEEN_BITS))
}


/// The ratio of Y to that of the white for a lightness: the cube of
/// `(L + 16) / 116` where `L > 903.3 * 0.008856`, `L / 903.3` otherwise.
pub open spec fn spec_luminance_ratio(l: Float32) -> Float32 {
    if Float32::from_bits(KAPPA_BITS).times(Float32::from_bits(EPSILON_BITS)).lt(l) {
        cube(lightness_f(l))
    } else {
        l.over(Float32::from_bits(KAPPA_BITS))
    }
}

/// The ratio of Y to that of the white for a lightness: the cube of
/// `(L + 16) / 116` where `L > 903.3 * 0.008856`, `L / 903.3` otherwise.
#[verifier::when_used_as_spec(spec_luminance_ratio)]
pub fn luminance_ratio(l: Float32) -> (out: Float32)
    ensures
        out == spec_luminance_ratio(l),
{
    if Float32::from_bits(KAPPA_BITS).times(Float32::from_bits(EPSILON_BITS)).lt(l) {
        cube(lightness_f(l))
    } else {
        l.over(Float32::from_bits(KAPPA_BITS))
    }
}


impl CieLab {
    /// The channels of the value with the entries of a vector as the
    /// reference white.
    pub open spec fn spec_with_white(self, v: Vector3) -> CieLab {
        CieLab {
            l: self.l,
            a: self.a,
            b: self.b,
            ref_xyz: Some(ReferenceWhite { x: v.x, y: v.y, z: v.z }),
        }
    }

    /// The channels of the value with the entries of a vector as the
    /// reference white.
    #[verifier::when_used_as_spec(spec_with_white)]
    pub fn with_white(self, v: Vector3) -> (out: CieLab)
        ensures
            out == self.spec_with_white(v),
    {
        CieLab {
            l: self.l,
            a: self.a,
            b: self.b,
            ref_xyz: Some(ReferenceWhite { x: v.x, y: v.y, z: v.z }),
        }
    }


    /// Attaches `ref_white`, in D65 terms, as the reference white.
    pub open spec fn spec_with_reference_white(self, ref_white: CieXyz) -> CieLab {
        self.with_white(CieXyz::white_in_d65_terms(ref_white))
    }

    /// Attaches `ref_white`, in D65 terms, as the reference white.
    #[verifier::when_used_as_spec(spec_with_reference_white)]
    pub fn with_reference_white(self, ref_white: CieXyz) -> (out: CieLab)
        ensures
            out == self.spec_with_reference_white(ref_white),
    {
        self.with_white(CieXyz::white_in_d65_terms(ref_white))
    }


    /// The L*a*b* value of an XYZ value, relative to the white that the XYZ
    /// value carries, which the result carries too.
    pub open spec fn spec_from_cie_xyz<K: Fn(MathCall) -> Float32>(
        xyz: CieXyz,
        kernel: &K,
    ) -> CieLab {
        let white = white_or_d65(xyz.ref_xyz);
        let f_x = lab_f(xyz.x.over(white.x), kernel);
        let f_y = lab_f(xyz.y.over(white.y), kernel);
        let f_z = lab_f(xyz.z.over(white.z), kernel);
        CieLab {
            l: Float32::from_bits(HUNDRED_SIXTEEN_BITS).times(f_y).minus(
                Float32::from_bits(SIXTEEN_BITS),
            ),
            a: Float32::from_bits(FIVE_HUNDRED_BITS).times(f_x.minus(f_y)),
            b: Float32::from_bits(TWO_HUNDRED_BITS).times(f_y.minus(f_z)),
            ref_xyz: None,
        }.with_reference_white(CieXyz::of_vector(white))
    }

    /// The L*a*b* value of an XYZ value, relative to the white that the XYZ
    /// value carries, which the result carries too.
    #[verifier::when_used_as_spec(spec_from_cie_xyz)]
    pub fn from_cie_xyz<K: Fn(MathCall) -> Float32>(xyz: CieXyz, kernel: &K) -> (out: CieLab)
        requires
            is_function(*kernel),
        ensures
            out == Self::spec_from_cie_xyz(xyz, kernel),
    {
        let white = white_or_d65(xyz.ref_xyz);
        let f_x = lab_f(xyz.x.over(white.x), kernel);
        let f_y = lab_f(xyz.y.over(white.y), kernel);
        let f_z = lab_f(xyz.z.over(white.z), kernel);
        CieLab {
            l: Float32::from_bits(HUNDRED_SIXTEEN_BITS).times(f_y).minus(
                Float32::from_bits(SIXTEEN_BITS),
            ),
            a: Float32::from_bits(FIVE_HUNDRED_BITS).times(f_x.minus(f_y)),
            b: Float32::from_bits(TWO_HUNDRED_BITS).times(f_y.minus(f_z)),
            ref_xyz: None,
        }.with_reference_white(CieXyz::of_vector(white))
    }


    /// The XYZ value of the L*a*b* value, relative to the white that the
    /// value carries, which the result carries too.
    pub open spec fn spec_to_xyz(self) -> CieXyz {
        let white = white_or_d65(self.ref_xyz);
        let f_y = lightness_f(self.l);
        let f_z = f_y.minus(self.b.over(Float32::from_bits(TWO_HUNDRED_BITS)));
        let f_x = self.a.over(Float32::from_bits(FIVE_HUNDRED_BITS)).plus(f_y);
        CieXyz {
            x: lab_f_inverse(f_x).times(white.x),
            y: luminance_ratio(self.l).times(white.y),
            z: lab_f_inverse(f_z).times(white.z),
            ref_xyz: None,
        }.with_reference_white(CieXyz::of_vector(white))
    }

    /// The XYZ value of the L*a*b* value, relative to the white that the
    /// value carries, which the result carries too.
    #[verifier::when_used_as_spec(spec_to_xyz)]
    pub fn to_xyz(self) -> (out: CieXyz)
        ensures
            out == self.spec_to_xyz(),
    {
        let white = white_or_d65(self.ref_xyz);
        let f_y = lightness_f(self.l);
        let f_z = f_y.minus(self.b.over(Float32::from_bits(TWO_HUNDRED_BITS)));
        let f_x = self.a.over(Float32::from_bits(FIVE_HUNDRED_BITS)).plus(f_y);
        CieXyz {
            x: lab_f_inverse(f_x).times(white.x),
            y: luminance_ratio(self.l).times(white.y),
            z: lab_f_inverse(f_z).times(white.z),
            ref_xyz: None,
        }.with_reference_white(CieXyz::of_vector(white))
    }


    /// The luminance: the Y of the XYZ value of the value, relative to the
    /// D65 white, limited to the range from 0 to 1.
    pub open spec fn spec_luminance(self) -> Float32 {
        self.to_xyz().luminance().clamp_unit()
    }

    /// The luminance: the Y of the XYZ value of the value, relative to the
    /// D65 white, limited to the range from 0 to 1.
    #[verifier::when_used_as_spec(spec_luminance)]
    pub fn luminance(self) -> (out: Float32)
        ensures
            out == self.spec_luminance(),
    {
        self.to_xyz().luminance().clamp_unit()
    }


    /// Takes an L*a*b* value to the reference white `ref_xyz`, by way of
    /// XYZ.
    pub open spec fn spec_adapt_to_reference_white<K: Fn(MathCall) -> Float32>(
        lab: CieLab,
        ref_xyz: CieXyz,
        kernel: &K,
    ) -> CieLab {
        CieLab::from_cie_xyz(CieXyz::chromatic_adaptation(lab.to_xyz(), ref_xyz), kernel)
    }

    /// Takes an L*a*b* value to the reference white `ref_xyz`, by way of
    /// XYZ.
    #[verifier::when_used_as_spec(spec_adapt_to_reference_white)]
    pub fn adapt_to_reference_white<K: Fn(MathCall) -> Float32>(
        lab: CieLab,
        ref_xyz: CieXyz,
        kernel: &K,
    ) -> (out: CieLab)
        requires
            is_function(*kernel),
        ensures
            out == Self::spec_adapt_to_reference_white(lab, ref_xyz, kernel),
    {
        CieLab::from_cie_xyz(CieXyz::chromatic_adaptation(lab.to_xyz(), ref_xyz), kernel)
    }

}

} // verus!
