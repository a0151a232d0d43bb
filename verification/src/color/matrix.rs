//! Three-by-three matrices and vectors of single-precision values, with
//! the matrices of the color transforms.
//!
//! Sums are taken from the left, starting from zero, each product and each
//! sum rounded on its own.

use crate::float32::Float32;
use vstd::prelude::*;

verus! {

/// A vector of three single-precision values.
#[derive(Copy, Clone, Debug, PartialEq, Eq, Structural)]
pub struct Vector3 {
    pub x: Float32,
    pub y: Float32,
    pub z: Float32,
}

/// A matrix of three rows.
#[derive(Copy, Clone, Debug, PartialEq, Eq, Structural)]
pub struct Matrix3 {
    pub a: Vector3,
    pub b: Vector3,
    pub c: Vector3,
}

/// The sum of the products of the entries, taken from zero.
pub open spec fn spec_dot(row: Vector3, v: Vector3) -> Float32 {
    Float32::from_bits(0).plus(row.x.times(v.x)).plus(row.y.times(v.y)).plus(row.z.times(v.z))
}

/// The sum of the products of the entries, taken from zero.
#[verifier::when_used_as_spec(spec_dot)]
pub fn dot(row: Vector3, v: Vector3) -> (out: Float32)
    ensures
        out == spec_dot(row, v),
{
    Float32::from_bits(0).plus(row.x.times(v.x)).plus(row.y.times(v.y)).plus(row.z.times(v.z))
}


/// The matrix applied to the vector: each entry is a row times the
/// vector, added to zero.
pub open spec fn spec_transform(m: Matrix3, v: Vector3) -> Vector3 {
    Vector3 {
        x: Float32::from_bits(0).plus(dot(m.a, v)),
        y: Float32::from_bits(0).plus(dot(m.b, v)),
        z: Float32::from_bits(0).plus(dot(m.c, v)),
    }
}

/// The matrix applied to the vector: each entry is a row times the
/// vector, added to zero.
#[verifier::when_used_as_spec(spec_transform)]
pub fn transform(m: Matrix3, v: Vector3) -> (out: Vector3)
    ensures
        out == spec_transform(m, v),
{
    Vector3 {
        x: Float32::from_bits(0).plus(dot(m.a, v)),
        y: Float32::from_bits(0).plus(dot(m.b, v)),
        z: Float32::from_bits(0).plus(dot(m.c, v)),
    }
}


/// The column with the given index: the first for 0, the second for 1,
/// the third otherwise.
pub open spec fn spec_column(m: Matrix3, index: u8) -> Vector3 {
    if index == 0 {
        Vector3 { x: m.a.x, y: m.b.x, z: m.c.x }
    } else if index == 1 {
        Vector3 { x: m.a.y, y: m.b.y, z: m.c.y }
    } else {
        Vector3 { x: m.a.z, y: m.b.z, z: m.c.z }
    }
}

/// The column with the given index: the first for 0, the second for 1,
/// the third otherwise.
#[verifier::when_used_as_spec(spec_column)]
pub fn column(m: Matrix3, index: u8) -> (out: Vector3)
    ensures
        out == spec_column(m, index),
{
    if index == 0 {
        Vector3 { x: m.a.x, y: m.b.x, z: m.c.x }
    } else if index == 1 {
        Vector3 { x: m.a.y, y: m.b.y, z: m.c.y }
    } else {
        Vector3 { x: m.a.z, y: m.b.z, z: m.c.z }
    }
}


/// A row times each column of the matrix.
pub open spec fn spec_row_times(row: Vector3, m: Matrix3) -> Vector3 {
    Vector3 { x: dot(row, column(m, 0)), y: dot(row, column(m, 1)), z: dot(row, column(m, 2)) }
}

/// A row times each column of the matrix.
#[verifier::when_used_as_spec(spec_row_times)]
pub fn row_times(row: Vector3, m: Matrix3) -> (out: Vector3)
    ensures
        out == spec_row_times(row, m),
{
    Vector3 { x: dot(row, column(m, 0)), y: dot(row, column(m, 1)), z: dot(row, column(m, 2)) }
}


/// The product of two matrices.
pub open spec fn spec_product(left: Matrix3, right: Matrix3) -> Matrix3 {
    Matrix3 { a: row_times(left.a, right), b: row_times(left.b, right), c: row_times(left.c, right) }
}

/// The product of two matrices.
#[verifier::when_used_as_spec(spec_product)]
pub fn product(left: Matrix3, right: Matrix3) -> (out: Matrix3)
    ensures
        out == spec_product(left, right),
{
    Matrix3 { a: row_times(left.a, right), b: row_times(left.b, right), c: row_times(left.c, right) }
}


/// The matrix with the given diagonal and zeros elsewhere.
pub open spec fn spec_scaling(x: Float32, y: Float32, z: Float32) -> Matrix3 {
    Matrix3 {
        a: Vector3 { x, y: Float32::from_bits(0), z: Float32::from_bits(0) },
        b: Vector3 { x: Float32::from_bits(0), y, z: Float32::from_bits(0) },
        c: Vector3 { x: Float32::from_bits(0), y: Float32::from_bits(0), z },
    }
}

/// The matrix with the given diagonal and zeros elsewhere.
#[verifier::when_used_as_spec(spec_scaling)]
pub fn scaling(x: Float32, y: Float32, z: Float32) -> (out: Matrix3)
    ensures
        out == spec_scaling(x, y, z),
{
    Matrix3 {
        a: Vector3 { x, y: Float32::from_bits(0), z: Float32::from_bits(0) },
        b: Vector3 { x: Float32::from_bits(0), y, z: Float32::from_bits(0) },
        c: Vector3 { x: Float32::from_bits(0), y: Float32::from_bits(0), z },
    }
}


/// From linear red, green and blue with the sRGB primaries to XYZ relative
/// to the D65 white:
///
/// ```text
///      0.4124564   0.3575761   0.1804375
///      0.2126729   0.7151522   0.0721750
///      0.0193339   0.1191920   0.9503041
/// ```
pub open spec fn spec_rgb_to_xyz() -> Matrix3 {
    Matrix3 {
        a: Vector3 {
            x: Float32::from_bits(0x3ED3_2D7C),
            y: Float32::from_bits(0x3EB7_1437),
            z: Float32::from_bits(0x3E38_C49C),
        },
        b: Vector3 {
            x: Float32::from_bits(0x3E59_C6ED),
            y: Float32::from_bits(0x3F37_1437),
            z: Float32::from_bits(0x3D93_D07D),
        },
        c: Vector3 {
            x: Float32::from_bits(0x3C9E_6221),
            y: Float32::from_bits(0x3DF4_1AEF),
            z: Float32::from_bits(0x3F73_4721),
        },
    }
}

/// From linear red, green and blue with the sRGB primaries to XYZ relative
/// to the D65 white:
///
/// ```text
///      0.4124564   0.3575761   0.1804375
///      0.2126729   0.7151522   0.0721750
///      0.0193339   0.1191920   0.9503041
/// ```
#[verifier::when_used_as_spec(spec_rgb_to_xyz)]
pub fn rgb_to_xyz() -> (out: Matrix3)
    ensures
        out == spec_rgb_to_xyz(),
{
    Matrix3 {
        a: Vector3 {
            x: Float32::from_bits(0x3ED3_2D7C),
            y: Float32::from_bits(0x3EB7_1437),
            z: Float32::from_bits(0x3E38_C49C),
        },
        b: Vector3 {
            x: Float32::from_bits(0x3E59_C6ED),
            y: Float32::from_bits(0x3F37_1437),
            z: Float32::from_bits(0x3D93_D07D),
        },
        c: Vector3 {
            x: Float32::from_bits(0x3C9E_6221),
            y: Float32::from_bits(0x3DF4_1AEF),
            z: Float32::from_bits(0x3F73_4721),
        },
    }
}


/// From XYZ relative to the D65 white to linear red, green and blue with the
/// sRGB primaries:
///
/// ```text
///      3.2404542  -1.5371385  -0.4985314
///     -0.9692660   1.8760108   0.0415560
///      0.0556434  -0.2040259   1.0572252
/// ```
pub open spec fn spec_xyz_to_rgb() -> Matrix3 {
    Matrix3 {
        a: Vector3 {
            x: Float32::from_bits(0x404F_639A),
            y: Float32::from_bits(0xBFC4_C0F4),
            z: Float32::from_bits(0xBEFF_3F82),
        },
        b: Vector3 {
            x: Float32::from_bits(0xBF78_21D1),
            y: Float32::from_bits(0x3FF0_211F),
            z: Float32::from_bits(0x3D2A_36A0),
        },
        c: Vector3 {
            x: Float32::from_bits(0x3D63_EA55),
            y: Float32::from_bits(0xBE50_EC2A),
            z: Float32::from_bits(0x3F87_5328),
        },
    }
}

/// From XYZ relative to the D65 white to linear red, green and blue with the
/// sRGB primaries:
///
/// ```text
///      3.2404542  -1.5371385  -0.4985314
///     -0.9692660   1.8760108   0.0415560
///      0.0556434  -0.2040259   1.0572252
/// ```
#[verifier::when_used_as_spec(spec_xyz_to_rgb)]
pub fn xyz_to_rgb() -> (out: Matrix3)
    ensures
        out == spec_xyz_to_rgb(),
{
    Matrix3 {
        a: Vector3 {
            x: Float32::from_bits(0x404F_639A),
            y: Float32::from_bits(0xBFC4_C0F4),
            z: Float32::from_bits(0xBEFF_3F82),
        },
        b: Vector3 {
            x: Float32::from_bits(0xBF78_21D1),
            y: Float32::from_bits(0x3FF0_211F),
            z: Float32::from_bits(0x3D2A_36A0),
        },
        c: Vector3 {
            x: Float32::from_bits(0x3D63_EA55),
            y: Float32::from_bits(0xBE50_EC2A),
            z: Float32::from_bits(0x3F87_5328),
        },
    }
}


/// The Bradford matrix, from XYZ to cone responses:
///
/// ```text
///      0.8951000   0.2664000  -0.1614000
///     -0.7502000   1.7135000   0.0367000
///      0.0389000  -0.0685000   1.0296000
/// ```
pub open spec fn spec_bradford() -> Matrix3 {
    Matrix3 {
        a: Vector3 {
            x: Float32::from_bits(0x3F65_2546),
            y: Float32::from_bits(0x3E88_6595),
            z: Float32::from_bits(0xBE25_460B),
        },
        b: Vector3 {
            x: Float32::from_bits(0xBF40_0D1B),
            y: Float32::from_bits(0x3FDB_53F8),
            z: Float32::from_bits(0x3D16_52BD),
        },
        c: Vector3 {
            x: Float32::from_bits(0x3D1F_559B),
            y: Float32::from_bits(0xBD8C_49BA),
            z: Float32::from_bits(0x3F83_C9EF),
        },
    }
}

/// The Bradford matrix, from XYZ to cone responses:
///
/// ```text
///      0.8951000   0.2664000  -0.1614000
///     -0.7502000   1.7135000   0.0367000
///      0.0389000  -0.0685000   1.0296000
/// ```
#[verifier::when_used_as_spec(spec_bradford)]
pub fn bradford() -> (out: Matrix3)
    ensures
        out == spec_bradford(),
{
    Matrix3 {
        a: Vector3 {
            x: Float32::from_bits(0x3F65_2546),
            y: Float32::from_bits(0x3E88_6595),
            z: Float32::from_bits(0xBE25_460B),
        },
        b: Vector3 {
            x: Float32::from_bits(0xBF40_0D1B),
            y: Float32::from_bits(0x3FDB_53F8),
            z: Float32::from_bits(0x3D16_52BD),
        },
        c: Vector3 {
            x: Float32::from_bits(0x3D1F_559B),
            y: Float32::from_bits(0xBD8C_49BA),
            z: Float32::from_bits(0x3F83_C9EF),
        },
    }
}


/// The inverse of the Bradford matrix, from cone responses to XYZ:
///
/// ```text
///      0.9869929  -0.1470543   0.1599627
///      0.4323053   0.5183603   0.0492912
///     -0.0085287   0.0400428   0.9684867
/// ```
pub open spec fn spec_bradford_inverse() -> Matrix3 {
    Matrix3 {
        a: Vector3 {
            x: Float32::from_bits(0x3F7C_AB91),
            y: Float32::from_bits(0xBE16_9567),
            z: Float32::from_bits(0x3E23_CD43),
        },
        b: Vector3 {
            x: Float32::from_bits(0x3EDD_571F),
            y: Float32::from_bits(0x3F04_B343),
            z: Float32::from_bits(0x3D49_E592),
        },
        c: Vector3 {
            x: Float32::from_bits(0xBC0B_BBF6),
            y: Float32::from_bits(0x3D24_03EB),
            z: Float32::from_bits(0x3F77_EEBF),
        },
    }
}

/// The inverse of the Bradford matrix, from cone responses to XYZ:
///
/// ```text
///      0.9869929  -0.1470543   0.1599627
///      0.4323053   0.5183603   0.0492912
///     -0.0085287   0.0400428   0.9684867
/// ```
#[verifier::when_used_as_spec(spec_bradford_inverse)]
pub fn bradford_inverse() -> (out: Matrix3)
    ensures
        out == spec_bradford_inverse(),
{
    Matrix3 {
        a: Vector3 {
            x: Float32::from_bits(0x3F7C_AB91),
            y: Float32::from_bits(0xBE16_9567),
            z: Float32::from_bits(0x3E23_CD43),
        },
        b: Vector3 {
            x: Float32::from_bits(0x3EDD_571F),
            y: Float32::from_bits(0x3F04_B343),
            z: Float32::from_bits(0x3D49_E592),
        },
        c: Vector3 {
            x: Float32::from_bits(0xBC0B_BBF6),
            y: Float32::from_bits(0x3D24_03EB),
            z: Float32::from_bits(0x3F77_EEBF),
        },
    }
}


} // verus!
