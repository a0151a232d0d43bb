//! XYZ against linear red, green and blue, and chromatic adaptation: the
//! Bradford transform of an XYZ value from one reference white to another.

use crate::color::cie::{CieXyz, ReferenceWhite, D65_X_BITS, D65_Y_BITS, D65_Z_BITS};
use crate::color::matrix::{
    bradford, bradford_inverse, product, rgb_to_xyz, scaling, transform, xyz_to_rgb, Vector3,
};
use crate::color::rgb::RgbF;
use crate::float32::arith::lemma_over_itself;
use crate::float32::{Float32, INFINITY_BITS, ONE_BITS};
use vstd::prelude::*;

verus! {

/// The D65 white as a vector.
pub open spec fn spec_d65_vector() -> Vector3 {
    Vector3 {
        x: Float32::from_bits(D65_X_BITS),
        y: Float32::from_bits(D65_Y_BITS),
        z: Float32::from_bits(D65_Z_BITS),
    }
}

/// The D65 white as a vector.
#[verifier::when_used_as_spec(spec_d65_vector)]
pub fn d65_vector() -> (out: Vector3)
    ensures
        out == spec_d65_vector(),
{
    Vector3 {
        x: Float32::from_bits(D65_X_BITS),
        y: Float32::from_bits(D65_Y_BITS),
        z: Float32::from_bits(D65_Z_BITS),
    }
}


/// The reference white as a vector, the D65 white where there is none.
pub open spec fn spec_white_or_d65(white: Option<ReferenceWhite>) -> Vector3 {
    match white {
        Some(w) => Vector3 { x: w.x, y: w.y, z: w.z },
        None => d65_vector(),
    }
}

/// The reference white as a vector, the D65 white where there is none.
#[verifier::when_used_as_spec(spec_white_or_d65)]
pub fn white_or_d65(white: Option<ReferenceWhite>) -> (out: Vector3)
    ensures
        out == spec_white_or_d65(white),
{
    match white {
        Some(w) => Vector3 { x: w.x, y: w.y, z: w.z },
        None => d65_vector(),
    }
}


/// The three entries are the numbers of the D65 white.
pub open spec fn spec_is_d65_vector(v: Vector3) -> bool {
    v.x.same_number(Float32::from_bits(D65_X_BITS)) && v.y.same_number(
        Float32::from_bits(D65_Y_BITS),
    ) && v.z.same_number(Float32::from_bits(D65_Z_BITS))
}

/// The three entries are the numbers of the D65 white.
#[verifier::when_used_as_spec(spec_is_d65_vector)]
pub fn is_d65_vector(v: Vector3) -> (out: bool)
    ensures
        out == spec_is_d65_vector(v),
{
    v.x.same_number(Float32::from_bits(D65_X_BITS)) && v.y.same_number(
        Float32::from_bits(D65_Y_BITS),
    ) && v.z.same_number(Float32::from_bits(D65_Z_BITS))
}


/// A white as the reference white of a value: the white itself, and no
/// reference where it is the D65 white, which a value without a reference
/// is relative to.
pub open spec fn spec_white_reference(v: Vector3) -> Option<ReferenceWhite> {
    if is_d65_vector(v) {
        None
    } else {
        Some(ReferenceWhite { x: v.x, y: v.y, z: v.z })
    }
}

/// A white as the reference white of a value: the white itself, and no
/// reference where it is the D65 white, which a value without a reference
/// is relative to.
#[verifier::when_used_as_spec(spec_white_reference)]
pub fn white_reference(v: Vector3) -> (out: Option<ReferenceWhite>)
    ensures
        out == spec_white_reference(v),
{
    if is_d65_vector(v) {
        None
    } else {
        Some(ReferenceWhite { x: v.x, y: v.y, z: v.z })
    }
}


impl CieXyz {
    /// The three channels as a vector.
    pub open spec fn spec_vector(self) -> Vector3 {
        Vector3 { x: self.x, y: self.y, z: self.z }
    }

    /// The three channels as a vector.
    #[verifier::when_used_as_spec(spec_vector)]
    pub fn vector(self) -> (out: Vector3)
        ensures
            out == self.spec_vector(),
    {
        Vector3 { x: self.x, y: self.y, z: self.z }
    }


    /// The value with the entries of a vector as its channels, relative to
    /// the D65 white.
    pub open spec fn spec_of_vector(v: Vector3) -> CieXyz {
        CieXyz { x: v.x, y: v.y, z: v.z, ref_xyz: None }
    }

    /// The value with the entries of a vector as its channels, relative to
    /// the D65 white.
    #[verifier::when_used_as_spec(spec_of_vector)]
    pub fn of_vector(v: Vector3) -> (out: CieXyz)
        ensures
            out == Self::spec_of_vector(v),
    {
        CieXyz { x: v.x, y: v.y, z: v.z, ref_xyz: None }
    }


    /// The D65 white as a value, relative to itself.
    pub open spec fn spec_d65() -> CieXyz {
        CieXyz::of_vector(d65_vector())
    }

    /// The D65 white as a value, relative to itself.
    #[verifier::when_used_as_spec(spec_d65)]
    pub fn d65() -> (out: CieXyz)
        ensures
            out == Self::spec_d65(),
    {
        CieXyz::of_vector(d65_vector())
    }


    /// The channels of the value with the entries of a vector as the
    /// reference white.
    pub open spec fn spec_with_white(self, v: Vector3) -> CieXyz {
        CieXyz {
            x: self.x,
            y: self.y,
            z: self.z,
            ref_xyz: Some(ReferenceWhite { x: v.x, y: v.y, z: v.z }),
        }
    }

    /// The channels of the value with the entries of a vector as the
    /// reference white.
    #[verifier::when_used_as_spec(spec_with_white)]
    pub fn with_white(self, v: Vector3) -> (out: CieXyz)
        ensures
            out == self.spec_with_white(v),
    {
        CieXyz {
            x: self.x,
            y: self.y,
            z: self.z,
            ref_xyz: Some(ReferenceWhite { x: v.x, y: v.y, z: v.z }),
        }
    }


    /// Takes `xyz` from its reference white to the white `dest_ref_xyz`.
    ///
    /// The cone responses of the two whites under the Bradford matrix `M`
    /// give a diagonal scaling `D`, of each response of the destination over
    /// that of the source; the channels are transformed by `M^-1 D M`. The
    /// result is relative to the destination: it carries the channels of
    /// `dest_ref_xyz` as its reference white, and none where they are the D65
    /// white.
    pub open spec fn spec_chromatic_adaptation(xyz: CieXyz, dest_ref_xyz: CieXyz) -> CieXyz {
        let source = transform(bradford(), white_or_d65(xyz.ref_xyz));
        let destination = transform(bradford(), dest_ref_xyz.vector());
        let adapt = scaling(
            destination.x.over(source.x),
            destination.y.over(source.y),
            destination.z.over(source.z),
        );
        let m = product(bradford_inverse(), product(adapt, bradford()));
        let adapted = transform(m, xyz.vector());
        CieXyz {
            x: adapted.x,
            y: adapted.y,
            z: adapted.z,
            ref_xyz: white_reference(dest_ref_xyz.vector()),
        }
    }

    /// Takes `xyz` from its reference white to the white `dest_ref_xyz`.
    ///
    /// The cone responses of the two whites under the Bradford matrix `M`
    /// give a diagonal scaling `D`, of each response of the destination over
    /// that of the source; the channels are transformed by `M^-1 D M`. The
    /// result is relative to the destination: it carries the channels of
    /// `dest_ref_xyz` as its reference white, and none where they are the D65
    /// white.
    #[verifier::when_used_as_spec(spec_chromatic_adaptation)]
    pub fn chromatic_adaptation(xyz: CieXyz, dest_ref_xyz: CieXyz) -> (out: CieXyz)
        ensures
            out == Self::spec_chromatic_adaptation(xyz, dest_ref_xyz),
    {
        let source = transform(bradford(), white_or_d65(xyz.ref_xyz));
        let destination = transform(bradford(), dest_ref_xyz.vector());
        let adapt = scaling(
            destination.x.over(source.x),
            destination.y.over(source.y),
            destination.z.over(source.z),
        );
        let m = product(bradford_inverse(), product(adapt, bradford()));
        let adapted = transform(m, xyz.vector());
        CieXyz {
            x: adapted.x,
            y: adapted.y,
            z: adapted.z,
            ref_xyz: white_reference(dest_ref_xyz.vector()),
        }
    }


    /// A reference white in D65 terms: its channels where it is relative to
    /// the D65 white itself, and otherwise the channels of what adapting it to
    /// the D65 white gives.
    pub open spec fn spec_white_in_d65_terms(ref_white: CieXyz) -> Vector3 {
        if is_d65_vector(white_or_d65(ref_white.ref_xyz)) {
            ref_white.vector()
        } else {
            CieXyz::chromatic_adaptation(ref_white, CieXyz::d65()).vector()
        }
    }

    /// A reference white in D65 terms: its channels where it is relative to
    /// the D65 white itself, and otherwise the channels of what adapting it to
    /// the D65 white gives.
    #[verifier::when_used_as_spec(spec_white_in_d65_terms)]
    pub fn white_in_d65_terms(ref_white: CieXyz) -> (out: Vector3)
        ensures
            out == Self::spec_white_in_d65_terms(ref_white),
    {
        if is_d65_vector(white_or_d65(ref_white.ref_xyz)) {
            ref_white.vector()
        } else {
            CieXyz::chromatic_adaptation(ref_white, CieXyz::d65()).vector()
        }
    }


    /// Attaches `ref_white`, in D65 terms, as the reference white.
    pub open spec fn spec_with_reference_white(self, ref_white: CieXyz) -> CieXyz {
        self.with_white(CieXyz::white_in_d65_terms(ref_white))
    }

    /// Attaches `ref_white`, in D65 terms, as the reference white.
    #[verifier::when_used_as_spec(spec_with_reference_white)]
    pub fn with_reference_white(self, ref_white: CieXyz) -> (out: CieXyz)
        ensures
            out == self.spec_with_reference_white(ref_white),
    {
        self.with_white(CieXyz::white_in_d65_terms(ref_white))
    }


    /// The value taken to the reference white `dest_ref_white`, which is
    /// first taken to D65 terms where it is relative to another white.
    pub open spec fn spec_adjusted_to_reference_white(self, dest_ref_white: CieXyz) -> CieXyz {
        if is_d65_vector(white_or_d65(dest_ref_white.ref_xyz)) {
            CieXyz::chromatic_adaptation(self, dest_ref_white)
        } else {
            CieXyz::chromatic_adaptation(
                self,
                CieXyz::chromatic_adaptation(dest_ref_white, CieXyz::d65()),
            )
        }
    }

    /// The value taken to the reference white `dest_ref_white`, which is
    /// first taken to D65 terms where it is relative to another white.
    #[verifier::when_used_as_spec(spec_adjusted_to_reference_white)]
    pub fn adjusted_to_reference_white(self, dest_ref_white: CieXyz) -> (out: CieXyz)
        ensures
            out == self.spec_adjusted_to_reference_white(dest_ref_white),
    {
        if is_d65_vector(white_or_d65(dest_ref_white.ref_xyz)) {
            CieXyz::chromatic_adaptation(self, dest_ref_white)
        } else {
            CieXyz::chromatic_adaptation(
                self,
                CieXyz::chromatic_adaptation(dest_ref_white, CieXyz::d65()),
            )
        }
    }


    /// The XYZ value of linear red, green and blue with the sRGB primaries,
    /// with the D65 white attached.
    pub open spec fn spec_from_linear(rgb: RgbF) -> CieXyz {
        CieXyz::of_vector(
            transform(rgb_to_xyz(), Vector3 { x: rgb.r, y: rgb.g, z: rgb.b }),
        ).with_reference_white(CieXyz::d65())
    }

    /// The XYZ value of linear red, green and blue with the sRGB primaries,
    /// with the D65 white attached.
    #[verifier::when_used_as_spec(spec_from_linear)]
    pub fn from_linear(rgb: RgbF) -> (out: CieXyz)
        ensures
            out == Self::spec_from_linear(rgb),
    {
        CieXyz::of_vector(
            transform(rgb_to_xyz(), Vector3 { x: rgb.r, y: rgb.g, z: rgb.b }),
        ).with_reference_white(CieXyz::d65())
    }


    /// The value relative to the D65 white: itself where that is its
    /// reference white, and otherwise what adapting it to the D65 white gives.
    pub open spec fn spec_in_d65_terms(self) -> CieXyz {
        if is_d65_vector(white_or_d65(self.ref_xyz)) {
            self
        } else {
            CieXyz::chromatic_adaptation(self, CieXyz::d65())
        }
    }

    /// The value relative to the D65 white: itself where that is its
    /// reference white, and otherwise what adapting it to the D65 white gives.
    #[verifier::when_used_as_spec(spec_in_d65_terms)]
    pub fn in_d65_terms(self) -> (out: CieXyz)
        ensures
            out == self.spec_in_d65_terms(),
    {
        if is_d65_vector(white_or_d65(self.ref_xyz)) {
            self
        } else {
            CieXyz::chromatic_adaptation(self, CieXyz::d65())
        }
    }


    /// Linear red, green and blue with the sRGB primaries, not limited to
    /// the range from 0 to 1.
    pub open spec fn spec_to_linear(self) -> RgbF {
        let v = transform(xyz_to_rgb(), self.in_d65_terms().vector());
        RgbF { r: v.x, g: v.y, b: v.z }
    }

    /// Linear red, green and blue with the sRGB primaries, not limited to
    /// the range from 0 to 1.
    #[verifier::when_used_as_spec(spec_to_linear)]
    pub fn to_linear(self) -> (out: RgbF)
        ensures
            out == self.spec_to_linear(),
    {
        let v = transform(xyz_to_rgb(), self.in_d65_terms().vector());
        RgbF { r: v.x, g: v.y, b: v.z }
    }


    /// The luminance: the Y of the value relative to the D65 white, to which
    /// a value that carries another white is adapted first.
    pub open spec fn spec_luminance(self) -> Float32 {
        self.in_d65_terms().y
    }

    /// The luminance: the Y of the value relative to the D65 white, to which
    /// a value that carries another white is adapted first.
    #[verifier::when_used_as_spec(spec_luminance)]
    pub fn luminance(self) -> (out: Float32)
        ensures
            out == self.spec_luminance(),
    {
        self.in_d65_terms().y
    }


    /// Takes the value to the reference white `dest_ref_white`.
    pub fn adjust_to_reference_white(&mut self, dest_ref_white: CieXyz)
        ensures
            *final(self) == old(self).spec_adjusted_to_reference_white(dest_ref_white),
    {
        *self = self.adjusted_to_reference_white(dest_ref_white);
    }
}

/// The responses are numbers that are neither zero nor infinite.
pub open spec fn is_plain(v: Vector3) -> bool {
    &&& v.x.magnitude() < INFINITY_BITS && !v.x.is_zero()
    &&& v.y.magnitude() < INFINITY_BITS && !v.y.is_zero()
    &&& v.z.magnitude() < INFINITY_BITS && !v.z.is_zero()
}

/// Adapting a value to the reference white that it has scales the cone
/// responses by exactly one, where the responses of that white are numbers
/// that are neither zero nor infinite: the channels are transformed by the
/// matrix `M^-1 I M`, rounded as it is, and the reference white stays.
pub proof fn lemma_adaptation_to_own_white(xyz: CieXyz)
    requires
        is_plain(transform(bradford(), white_or_d65(xyz.ref_xyz))),
    ensures
        CieXyz::chromatic_adaptation(xyz, CieXyz::of_vector(white_or_d65(xyz.ref_xyz))).vector()
            == transform(
            product(
                bradford_inverse(),
                product(
                    scaling(
                        Float32::from_bits(ONE_BITS),
                        Float32::from_bits(ONE_BITS),
                        Float32::from_bits(ONE_BITS),
                    ),
                    bradford(),
                ),
            ),
            xyz.vector(),
        ),
        CieXyz::chromatic_adaptation(xyz, CieXyz::of_vector(white_or_d65(xyz.ref_xyz))).ref_xyz
            == white_reference(white_or_d65(xyz.ref_xyz)),
{
    let cone = transform(bradford(), white_or_d65(xyz.ref_xyz));
    lemma_over_itself(cone.x);
    lemma_over_itself(cone.y);
    lemma_over_itself(cone.z);
}

/// The result of an adaptation is relative to the destination: the white
/// that it carries, or the D65 white where it carries none, is the
/// destination, number for number.
pub proof fn lemma_adapted_is_relative_to_destination(xyz: CieXyz, dest_ref_xyz: CieXyz)
    ensures
        CieXyz::chromatic_adaptation(xyz, dest_ref_xyz).ref_xyz == white_reference(
            dest_ref_xyz.vector(),
        ),
        !is_d65_vector(dest_ref_xyz.vector()) ==> white_or_d65(
            CieXyz::chromatic_adaptation(xyz, dest_ref_xyz).ref_xyz,
        ) == dest_ref_xyz.vector(),
        is_d65_vector(dest_ref_xyz.vector()) ==> is_d65_vector(
            white_or_d65(CieXyz::chromatic_adaptation(xyz, dest_ref_xyz).ref_xyz),
        ),
{
}

} // verus!
