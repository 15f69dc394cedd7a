//! Homogeneous vectors and 4x4 matrices over fixed-point scalars.
//!
//! Matrices act on column vectors (`M * v`); the constructor takes its
//! sixteen entries in row-major reading order. Every operation's contract
//! gives the exact fixed-point value of each result component.

use vstd::prelude::*;
use crate::fixed::fx_add;
use crate::fixed::fx_add_s;
use crate::fixed::fx_div;
use crate::fixed::fx_div_s;
use crate::fixed::fx_mul;
use crate::fixed::fx_mul_s;
use crate::fixed::fx_sqrt;
use crate::fixed::fx_sqrt_s;
use crate::fixed::fx_sub;
use crate::fixed::fx_sub_s;

verus! {

/// A homogeneous 4-component vector: w = FX_ONE for points, 0 for directions.
#[derive(Clone, Copy, PartialEq, Eq, Structural, Debug)]
pub struct Vector4 {
    pub x: i64,
    pub y: i64,
    pub z: i64,
    pub w: i64,
}

/// A 4x4 matrix; `mRC` is the entry at row R, column C.
#[derive(Clone, Copy, PartialEq, Eq, Structural, Debug)]
pub struct Matrix4 {
    pub m00: i64,
    pub m01: i64,
    pub m02: i64,
    pub m03: i64,
    pub m10: i64,
    pub m11: i64,
    pub m12: i64,
    pub m13: i64,
    pub m20: i64,
    pub m21: i64,
    pub m22: i64,
    pub m23: i64,
    pub m30: i64,
    pub m31: i64,
    pub m32: i64,
    pub m33: i64,
}

impl Vector4 {
    pub fn new(x: i64, y: i64, z: i64, w: i64) -> (r: Vector4)
        ensures
            r == (Vector4 { x, y, z, w }),
    {
        Vector4 { x, y, z, w }
    }
}

/// Saturating fixed-point dot product of two 4-component rows, summed left
/// to right.
pub open spec fn dot4_s(
    a0: int,
    a1: int,
    a2: int,
    a3: int,
    b0: int,
    b1: int,
    b2: int,
    b3: int,
) -> int {
    fx_add_s(
        fx_add_s(fx_add_s(fx_mul_s(a0, b0), fx_mul_s(a1, b1)), fx_mul_s(a2, b2)),
        fx_mul_s(a3, b3),
    )
}

/// Dot product of the first three components only.
pub open spec fn dot3_s(a0: int, a1: int, a2: int, b0: int, b1: int, b2: int) -> int {
    fx_add_s(fx_add_s(fx_mul_s(a0, b0), fx_mul_s(a1, b1)), fx_mul_s(a2, b2))
}

pub fn dot4(a0: i64, a1: i64, a2: i64, a3: i64, b0: i64, b1: i64, b2: i64, b3: i64) -> (r: i64)
    ensures
        r == dot4_s(a0 as int, a1 as int, a2 as int, a3 as int, b0 as int, b1 as int, b2 as int,
            b3 as int),
{
    fx_add(fx_add(fx_add(fx_mul(a0, b0), fx_mul(a1, b1)), fx_mul(a2, b2)), fx_mul(a3, b3))
}

pub fn dot3(a0: i64, a1: i64, a2: i64, b0: i64, b1: i64, b2: i64) -> (r: i64)
    ensures
        r == dot3_s(a0 as int, a1 as int, a2 as int, b0 as int, b1 as int, b2 as int),
{
    fx_add(fx_add(fx_mul(a0, b0), fx_mul(a1, b1)), fx_mul(a2, b2))
}

/// `m * v` with `v` a column vector.
pub open spec fn mat_vec_mul_s(m: Matrix4, v: Vector4) -> Vector4 {
    Vector4 {
        x: dot4_s(m.m00 as int, m.m01 as int, m.m02 as int, m.m03 as int, v.x as int, v.y as int,
            v.z as int, v.w as int) as i64,
        y: dot4_s(m.m10 as int, m.m11 as int, m.m12 as int, m.m13 as int, v.x as int, v.y as int,
            v.z as int, v.w as int) as i64,
        z: dot4_s(m.m20 as int, m.m21 as int, m.m22 as int, m.m23 as int, v.x as int, v.y as int,
            v.z as int, v.w as int) as i64,
        w: dot4_s(m.m30 as int, m.m31 as int, m.m32 as int, m.m33 as int, v.x as int, v.y as int,
            v.z as int, v.w as int) as i64,
    }
}

/// `a * b`: entry (i, j) is row i of `a` dotted with column j of `b`.
pub open spec fn mat_mul_s(a: Matrix4, b: Matrix4) -> Matrix4 {
    Matrix4 {
        m00: dot4_s(a.m00 as int, a.m01 as int, a.m02 as int, a.m03 as int, b.m00 as int,
            b.m10 as int, b.m20 as int, b.m30 as int) as i64,
        m01: dot4_s(a.m00 as int, a.m01 as int, a.m02 as int, a.m03 as int, b.m01 as int,
            b.m11 as int, b.m21 as int, b.m31 as int) as i64,
        m02: dot4_s(a.m00 as int, a.m01 as int, a.m02 as int, a.m03 as int, b.m02 as int,
            b.m12 as int, b.m22 as int, b.m32 as int) as i64,
        m03: dot4_s(a.m00 as int, a.m01 as int, a.m02 as int, a.m03 as int, b.m03 as int,
            b.m13 as int, b.m23 as int, b.m33 as int) as i64,
        m10: dot4_s(a.m10 as int, a.m11 as int, a.m12 as int, a.m13 as int, b.m00 as int,
            b.m10 as int, b.m20 as int, b.m30 as int) as i64,
        m11: dot4_s(a.m10 as int, a.m11 as int, a.m12 as int, a.m13 as int, b.m01 as int,
            b.m11 as int, b.m21 as int, b.m31 as int) as i64,
        m12: dot4_s(a.m10 as int, a.m11 as int, a.m12 as int, a.m13 as int, b.m02 as int,
            b.m12 as int, b.m22 as int, b.m32 as int) as i64,
        m13: dot4_s(a.m10 as int, a.m11 as int, a.m12 as int, a.m13 as int, b.m03 as int,
            b.m13 as int, b.m23 as int, b.m33 as int) as i64,
        m20: dot4_s(a.m20 as int, a.m21 as int, a.m22 as int, a.m23 as int, b.m00 as int,
            b.m10 as int, b.m20 as int, b.m30 as int) as i64,
        m21: dot4_s(a.m20 as int, a.m21 as int, a.m22 as int, a.m23 as int, b.m01 as int,
            b.m11 as int, b.m21 as int, b.m31 as int) as i64,
        m22: dot4_s(a.m20 as int, a.m21 as int, a.m22 as int, a.m23 as int, b.m02 as int,
            b.m12 as int, b.m22 as int, b.m32 as int) as i64,
        m23: dot4_s(a.m20 as int, a.m21 as int, a.m22 as int, a.m23 as int, b.m03 as int,
            b.m13 as int, b.m23 as int, b.m33 as int) as i64,
        m30: dot4_s(a.m30 as int, a.m31 as int, a.m32 as int, a.m33 as int, b.m00 as int,
            b.m10 as int, b.m20 as int, b.m30 as int) as i64,
        m31: dot4_s(a.m30 as int, a.m31 as int, a.m32 as int, a.m33 as int, b.m01 as int,
            b.m11 as int, b.m21 as int, b.m31 as int) as i64,
        m32: dot4_s(a.m30 as int, a.m31 as int, a.m32 as int, a.m33 as int, b.m02 as int,
            b.m12 as int, b.m22 as int, b.m32 as int) as i64,
        m33: dot4_s(a.m30 as int, a.m31 as int, a.m32 as int, a.m33 as int, b.m03 as int,
            b.m13 as int, b.m23 as int, b.m33 as int) as i64,
    }
}

impl Matrix4 {
    #[allow(clippy::too_many_arguments)]
    pub fn new(
        m00: i64,
        m01: i64,
        m02: i64,
        m03: i64,
        m10: i64,
        m11: i64,
        m12: i64,
        m13: i64,
        m20: i64,
        m21: i64,
        m22: i64,
        m23: i64,
        m30: i64,
        m31: i64,
        m32: i64,
        m33: i64,
    ) -> (r: Matrix4)
        ensures
            r == (Matrix4 {
                m00,
                m01,
                m02,
                m03,
                m10,
                m11,
                m12,
                m13,
                m20,
                m21,
                m22,
                m23,
                m30,
                m31,
                m32,
                m33,
            }),
    {
        Matrix4 {
            m00,
            m01,
            m02,
            m03,
            m10,
            m11,
            m12,
            m13,
            m20,
            m21,
            m22,
            m23,
            m30,
            m31,
            m32,
            m33,
        }
    }

    pub fn mat_mul(&self, other: &Matrix4) -> (r: Matrix4)
        ensures
            r == mat_mul_s(*self, *other),
    {
        Matrix4 {
            m00: dot4(self.m00, self.m01, self.m02, self.m03, other.m00, other.m10, other.m20,
                other.m30),
            m01: dot4(self.m00, self.m01, self.m02, self.m03, other.m01, other.m11, other.m21,
                other.m31),
            m02: dot4(self.m00, self.m01, self.m02, self.m03, other.m02, other.m12, other.m22,
                other.m32),
            m03: dot4(self.m00, self.m01, self.m02, self.m03, other.m03, other.m13, other.m23,
                other.m33),
            m10: dot4(self.m10, self.m11, self.m12, self.m13, other.m00, other.m10, other.m20,
                other.m30),
            m11: dot4(self.m10, self.m11, self.m12, self.m13, other.m01, other.m11, other.m21,
                other.m31),
            m12: dot4(self.m10, self.m11, self.m12, self.m13, other.m02, other.m12, other.m22,
                other.m32),
            m13: dot4(self.m10, self.m11, self.m12, self.m13, other.m03, other.m13, other.m23,
                other.m33),
            m20: dot4(self.m20, self.m21, self.m22, self.m23, other.m00, other.m10, other.m20,
                other.m30),
            m21: dot4(self.m20, self.m21, self.m22, self.m23, other.m01, other.m11, other.m21,
                other.m31),
            m22: dot4(self.m20, self.m21, self.m22, self.m23, other.m02, other.m12, other.m22,
                other.m32),
            m23: dot4(self.m20, self.m21, self.m22, self.m23, other.m03, other.m13, other.m23,
                other.m33),
            m30: dot4(self.m30, self.m31, self.m32, self.m33, other.m00, other.m10, other.m20,
                other.m30),
            m31: dot4(self.m30, self.m31, self.m32, self.m33, other.m01, other.m11, other.m21,
                other.m31),
            m32: dot4(self.m30, self.m31, self.m32, self.m33, other.m02, other.m12, other.m22,
                other.m32),
            m33: dot4(self.m30, self.m31, self.m32, self.m33, other.m03, other.m13, other.m23,
                other.m33),
        }
    }

    pub fn transform(&self, v: &Vector4) -> (r: Vector4)
        ensures
            r == mat_vec_mul_s(*self, *v),
    {
        Vector4 {
            x: dot4(self.m00, self.m01, self.m02, self.m03, v.x, v.y, v.z, v.w),
            y: dot4(self.m10, self.m11, self.m12, self.m13, v.x, v.y, v.z, v.w),
            z: dot4(self.m20, self.m21, self.m22, self.m23, v.x, v.y, v.z, v.w),
            w: dot4(self.m30, self.m31, self.m32, self.m33, v.x, v.y, v.z, v.w),
        }
    }
}

/// Fixed-point length of the (x, y, z) part.
pub open spec fn len3_s(x: int, y: int, z: int) -> int {
    fx_sqrt_s(fx_add_s(fx_add_s(fx_mul_s(x, x), fx_mul_s(y, y)), fx_mul_s(z, z)))
}

/// Components of (x, y, z) divided by the vector's length; a zero-length
/// vector saturates, as dividing by a denormal float would.
pub open spec fn normalize3_s(v: Vector4) -> Vector4 {
    let l = len3_s(v.x as int, v.y as int, v.z as int);
    Vector4 {
        x: fx_div_s(v.x as int, l) as i64,
        y: fx_div_s(v.y as int, l) as i64,
        z: fx_div_s(v.z as int, l) as i64,
        w: 0,
    }
}

/// Cross product of the (x, y, z) parts; the result is a direction (w = 0).
pub open spec fn cross3_s(a: Vector4, b: Vector4) -> Vector4 {
    Vector4 {
        x: fx_sub_s(fx_mul_s(a.y as int, b.z as int), fx_mul_s(a.z as int, b.y as int)) as i64,
        y: fx_sub_s(fx_mul_s(a.z as int, b.x as int), fx_mul_s(a.x as int, b.z as int)) as i64,
        z: fx_sub_s(fx_mul_s(a.x as int, b.y as int), fx_mul_s(a.y as int, b.x as int)) as i64,
        w: 0,
    }
}

pub fn normalize3(v: &Vector4) -> (r: Vector4)
    ensures
        r == normalize3_s(*v),
{
    let l: i64 = fx_sqrt(fx_add(fx_add(fx_mul(v.x, v.x), fx_mul(v.y, v.y)), fx_mul(v.z, v.z)));
    Vector4 { x: fx_div(v.x, l), y: fx_div(v.y, l), z: fx_div(v.z, l), w: 0 }
}

pub fn cross3(a: &Vector4, b: &Vector4) -> (r: Vector4)
    ensures
        r == cross3_s(*a, *b),
{
    Vector4 {
        x: fx_sub(fx_mul(a.y, b.z), fx_mul(a.z, b.y)),
        y: fx_sub(fx_mul(a.z, b.x), fx_mul(a.x, b.z)),
        z: fx_sub(fx_mul(a.x, b.y), fx_mul(a.y, b.x)),
        w: 0,
    }
}

} // verus!
