//! 4 x 4 affine transform matrices over fixed-point scalars, together with
//! the `Transform` pair that keeps a matrix and its cached inverse side by
//! side, the way every shape and the camera consume them.

use vstd::prelude::*;

use crate::fx::abs_spec;
use crate::fx::approx_eq;
use crate::fx::clamp_spec;
use crate::fx::div_spec;
use crate::fx::fx_div;
use crate::fx::fx_from_wide;
use crate::fx::fx_ok;
use crate::fx::fx_sub;
use crate::fx::round_unit;
use crate::fx::wide_mul;
use crate::tuple::cross_spec;
use crate::tuple::normalize_spec;
use crate::tuple::point_minus_spec;
use crate::tuple::point_ok;
use crate::tuple::vec_ok;
use crate::tuple::vec_negate_spec;
use crate::tuple::Point;
use crate::tuple::Vector;
use crate::EPSILON;
use crate::UNIT;

verus! {

/// Row-major 4 x 4 matrix; entry `mRC` sits at row R, column C.
#[derive(Clone, Copy, Debug, PartialEq, Eq, Structural)]
pub struct Matrix4 {
    pub m00: i64,
    pub m01: i64,
    pub m02: i64,
    pub m03: i64,
    pub m10: i64,
    pub m11: i64,
    pub m12: i64,
    pub m13: i64,
    pub m20: i64,
    pub m21: i64,
    pub m22: i64,
    pub m23: i64,
    pub m30: i64,
    pub m31: i64,
    pub m32: i64,
    pub m33: i64,
}

pub open spec fn mat_ok(a: Matrix4) -> bool {
    fx_ok(a.m00 as int) && fx_ok(a.m01 as int) && fx_ok(a.m02 as int) && fx_ok(a.m03 as int)
        && fx_ok(a.m10 as int) && fx_ok(a.m11 as int) && fx_ok(a.m12 as int) && fx_ok(
        a.m13 as int,
    ) && fx_ok(a.m20 as int) && fx_ok(a.m21 as int) && fx_ok(a.m22 as int) && fx_ok(a.m23 as int)
        && fx_ok(a.m30 as int) && fx_ok(a.m31 as int) && fx_ok(a.m32 as int) && fx_ok(a.m33 as int)
}

/// One rounded entry of a matrix product: the dot product of a row with a
/// column, scaled back to units.
pub open spec fn entry_spec(
    a0: int,
    b0: int,
    a1: int,
    b1: int,
    a2: int,
    b2: int,
    a3: int,
    b3: int,
) -> int {
    clamp_spec(round_unit(a0 * b0 + a1 * b1 + a2 * b2 + a3 * b3))
}

pub open spec fn matmul_spec(a: Matrix4, b: Matrix4) -> Matrix4 {
    Matrix4 {
        m00: entry_spec(
            a.m00 as int, b.m00 as int, a.m01 as int, b.m10 as int,
            a.m02 as int, b.m20 as int, a.m03 as int, b.m30 as int,
        ) as i64,
        m01: entry_spec(
            a.m00 as int, b.m01 as int, a.m01 as int, b.m11 as int,
            a.m02 as int, b.m21 as int, a.m03 as int, b.m31 as int,
        ) as i64,
        m02: entry_spec(
            a.m00 as int, b.m02 as int, a.m01 as int, b.m12 as int,
            a.m02 as int, b.m22 as int, a.m03 as int, b.m32 as int,
        ) as i64,
        m03: entry_spec(
            a.m00 as int, b.m03 as int, a.m01 as int, b.m13 as int,
            a.m02 as int, b.m23 as int, a.m03 as int, b.m33 as int,
        ) as i64,
        m10: entry_spec(
            a.m10 as int, b.m00 as int, a.m11 as int, b.m10 as int,
            a.m12 as int, b.m20 as int, a.m13 as int, b.m30 as int,
        ) as i64,
        m11: entry_spec(
            a.m10 as int, b.m01 as int, a.m11 as int, b.m11 as int,
            a.m12 as int, b.m21 as int, a.m13 as int, b.m31 as int,
        ) as i64,
        m12: entry_spec(
            a.m10 as int, b.m02 as int, a.m11 as int, b.m12 as int,
            a.m12 as int, b.m22 as int, a.m13 as int, b.m32 as int,
        ) as i64,
        m13: entry_spec(
            a.m10 as int, b.m03 as int, a.m11 as int, b.m13 as int,
            a.m12 as int, b.m23 as int, a.m13 as int, b.m33 as int,
        ) as i64,
        m20: entry_spec(
            a.m20 as int, b.m00 as int, a.m21 as int, b.m10 as int,
            a.m22 as int, b.m20 as int, a.m23 as int, b.m30 as int,
        ) as i64,
        m21: entry_spec(
            a.m20 as int, b.m01 as int, a.m21 as int, b.m11 as int,
            a.m22 as int, b.m21 as int, a.m23 as int, b.m31 as int,
        ) as i64,
        m22: entry_spec(
            a.m20 as int, b.m02 as int, a.m21 as int, b.m12 as int,
            a.m22 as int, b.m22 as int, a.m23 as int, b.m32 as int,
        ) as i64,
        m23: entry_spec(
            a.m20 as int, b.m03 as int, a.m21 as int, b.m13 as int,
            a.m22 as int, b.m23 as int, a.m23 as int, b.m33 as int,
        ) as i64,
        m30: entry_spec(
            a.m30 as int, b.m00 as int, a.m31 as int, b.m10 as int,
            a.m32 as int, b.m20 as int, a.m33 as int, b.m30 as int,
        ) as i64,
        m31: entry_spec(
            a.m30 as int, b.m01 as int, a.m31 as int, b.m11 as int,
            a.m32 as int, b.m21 as int, a.m33 as int, b.m31 as int,
        ) as i64,
        m32: entry_spec(
            a.m30 as int, b.m02 as int, a.m31 as int, b.m12 as int,
            a.m32 as int, b.m22 as int, a.m33 as int, b.m32 as int,
        ) as i64,
        m33: entry_spec(
            a.m30 as int, b.m03 as int, a.m31 as int, b.m13 as int,
            a.m32 as int, b.m23 as int, a.m33 as int, b.m33 as int,
        ) as i64,
    }
}

/// Application to a point: homogeneous w = 1, so the fourth column enters
/// scaled by UNIT.
pub open spec fn apply_point_spec(a: Matrix4, p: Point) -> Point {
    Point {
        x: entry_spec(
            a.m00 as int, p.x as int, a.m01 as int, p.y as int,
            a.m02 as int, p.z as int, a.m03 as int, UNIT as int,
        ) as i64,
        y: entry_spec(
            a.m10 as int, p.x as int, a.m11 as int, p.y as int,
            a.m12 as int, p.z as int, a.m13 as int, UNIT as int,
        ) as i64,
        z: entry_spec(
            a.m20 as int, p.x as int, a.m21 as int, p.y as int,
            a.m22 as int, p.z as int, a.m23 as int, UNIT as int,
        ) as i64,
    }
}

/// Application to a vector: homogeneous w = 0, the fourth column is ignored.
pub open spec fn apply_vector_spec(a: Matrix4, v: Vector) -> Vector {
    Vector {
        x: entry_spec(
            a.m00 as int, v.x as int, a.m01 as int, v.y as int,
            a.m02 as int, v.z as int, 0, 0,
        ) as i64,
        y: entry_spec(
            a.m10 as int, v.x as int, a.m11 as int, v.y as int,
            a.m12 as int, v.z as int, 0, 0,
        ) as i64,
        z: entry_spec(
            a.m20 as int, v.x as int, a.m21 as int, v.y as int,
            a.m22 as int, v.z as int, 0, 0,
        ) as i64,
    }
}

pub open spec fn identity_spec() -> Matrix4 {
    Matrix4 {
        m00: UNIT, m01: 0i64, m02: 0i64, m03: 0i64,
        m10: 0i64, m11: UNIT, m12: 0i64, m13: 0i64,
        m20: 0i64, m21: 0i64, m22: UNIT, m23: 0i64,
        m30: 0i64, m31: 0i64, m32: 0i64, m33: UNIT,
    }
}

pub open spec fn translation_spec(v: Vector) -> Matrix4 {
    Matrix4 {
        m00: UNIT, m01: 0i64, m02: 0i64, m03: v.x,
        m10: 0i64, m11: UNIT, m12: 0i64, m13: v.y,
        m20: 0i64, m21: 0i64, m22: UNIT, m23: v.z,
        m30: 0i64, m31: 0i64, m32: 0i64, m33: UNIT,
    }
}

pub open spec fn scaling_spec(v: Vector) -> Matrix4 {
    Matrix4 {
        m00: v.x, m01: 0i64, m02: 0i64, m03: 0i64,
        m10: 0i64, m11: v.y, m12: 0i64, m13: 0i64,
        m20: 0i64, m21: 0i64, m22: v.z, m23: 0i64,
        m30: 0i64, m31: 0i64, m32: 0i64, m33: UNIT,
    }
}

/// Rotation about the x axis, given the cosine and sine of the angle.
pub open spec fn rotation_x_spec(c: i64, s: i64) -> Matrix4 {
    Matrix4 {
        m00: UNIT, m01: 0i64, m02: 0i64, m03: 0i64,
        m10: 0i64, m11: c, m12: sub_neg(s), m13: 0i64,
        m20: 0i64, m21: s, m22: c, m23: 0i64,
        m30: 0i64, m31: 0i64, m32: 0i64, m33: UNIT,
    }
}

pub open spec fn rotation_y_spec(c: i64, s: i64) -> Matrix4 {
    Matrix4 {
        m00: c, m01: 0i64, m02: s, m03: 0i64,
        m10: 0i64, m11: UNIT, m12: 0i64, m13: 0i64,
        m20: sub_neg(s), m21: 0i64, m22: c, m23: 0i64,
        m30: 0i64, m31: 0i64, m32: 0i64, m33: UNIT,
    }
}

pub open spec fn rotation_z_spec(c: i64, s: i64) -> Matrix4 {
    Matrix4 {
        m00: c, m01: sub_neg(s), m02: 0i64, m03: 0i64,
        m10: s, m11: c, m12: 0i64, m13: 0i64,
        m20: 0i64, m21: 0i64, m22: UNIT, m23: 0i64,
        m30: 0i64, m31: 0i64, m32: 0i64, m33: UNIT,
    }
}

/// Saturating negation of a scalar, as `fx_sub(0, s)` computes it.
pub open spec fn sub_neg(s: i64) -> i64 {
    crate::fx::sub_spec(0, s as int) as i64
}

pub open spec fn shearing_spec(xy: i64, xz: i64, yx: i64, yz: i64, zx: i64, zy: i64) -> Matrix4 {
    Matrix4 {
        m00: UNIT, m01: xy, m02: xz, m03: 0i64,
        m10: yx, m11: UNIT, m12: yz, m13: 0i64,
        m20: zx, m21: zy, m22: UNIT, m23: 0i64,
        m30: 0i64, m31: 0i64, m32: 0i64, m33: UNIT,
    }
}

pub open spec fn transpose_spec(a: Matrix4) -> Matrix4 {
    Matrix4 {
        m00: a.m00, m01: a.m10, m02: a.m20, m03: a.m30,
        m10: a.m01, m11: a.m11, m12: a.m21, m13: a.m31,
        m20: a.m02, m21: a.m12, m22: a.m22, m23: a.m32,
        m30: a.m03, m31: a.m13, m32: a.m23, m33: a.m33,
    }
}

/// The orientation-then-translation construction of the view transform.
pub open spec fn view_transform_spec(from: Point, to: Point, up: Vector) -> Matrix4 {
    let forward = normalize_spec(point_minus_spec(to, from));
    let upn = normalize_spec(up);
    let left = cross_spec(forward, upn);
    let true_up = cross_spec(left, forward);
    let orientation = Matrix4 {
        m00: left.x, m01: left.y, m02: left.z, m03: 0i64,
        m10: true_up.x, m11: true_up.y, m12: true_up.z, m13: 0i64,
        m20: sub_neg(forward.x), m21: sub_neg(forward.y), m22: sub_neg(forward.z), m23: 0i64,
        m30: 0i64, m31: 0i64, m32: 0i64, m33: UNIT,
    };
    matmul_spec(
        orientation,
        translation_spec(
            Vector { x: sub_neg(from.x), y: sub_neg(from.y), z: sub_neg(from.z) },
        ),
    )
}

/// One rounded entry of a product row: exec twin of `entry_spec`.
fn entry4(a0: i64, b0: i64, a1: i64, b1: i64, a2: i64, b2: i64, a3: i64, b3: i64) -> (r: i64)
    requires
        fx_ok(a0 as int), fx_ok(b0 as int), fx_ok(a1 as int), fx_ok(b1 as int),
        fx_ok(a2 as int), fx_ok(b2 as int), fx_ok(a3 as int), fx_ok(b3 as int),
    ensures
        r == entry_spec(a0 as int, b0 as int, a1 as int, b1 as int, a2 as int, b2 as int, a3 as int, b3 as int),
        fx_ok(r as int),
{
    let s: i128 = wide_mul(a0, b0) + wide_mul(a1, b1) + wide_mul(a2, b2) + wide_mul(a3, b3);
    fx_from_wide(s)
}

impl Matrix4 {
    pub fn identity() -> (r: Matrix4)
        ensures
            r == identity_spec(),
            mat_ok(r),
    {
        Matrix4 {
            m00: UNIT, m01: 0, m02: 0, m03: 0,
            m10: 0, m11: UNIT, m12: 0, m13: 0,
            m20: 0, m21: 0, m22: UNIT, m23: 0,
            m30: 0, m31: 0, m32: 0, m33: UNIT,
        }
    }

    pub fn translation(v: &Vector) -> (r: Matrix4)
        requires
            vec_ok(*v),
        ensures
            r == translation_spec(*v),
            mat_ok(r),
    {
        Matrix4 {
            m00: UNIT, m01: 0, m02: 0, m03: v.x,
            m10: 0, m11: UNIT, m12: 0, m13: v.y,
            m20: 0, m21: 0, m22: UNIT, m23: v.z,
            m30: 0, m31: 0, m32: 0, m33: UNIT,
        }
    }

    pub fn scaling(v: &Vector) -> (r: Matrix4)
        requires
            vec_ok(*v),
        ensures
            r == scaling_spec(*v),
            mat_ok(r),
    {
        Matrix4 {
            m00: v.x, m01: 0, m02: 0, m03: 0,
            m10: 0, m11: v.y, m12: 0, m13: 0,
            m20: 0, m21: 0, m22: v.z, m23: 0,
            m30: 0, m31: 0, m32: 0, m33: UNIT,
        }
    }

    pub fn rotation_x(c: i64, s: i64) -> (r: Matrix4)
        requires
            fx_ok(c as int),
            fx_ok(s as int),
        ensures
            r == rotation_x_spec(c, s),
            mat_ok(r),
    {
        let n: i64 = fx_sub(0, s);
        Matrix4 {
            m00: UNIT, m01: 0, m02: 0, m03: 0,
            m10: 0, m11: c, m12: n, m13: 0,
            m20: 0, m21: s, m22: c, m23: 0,
            m30: 0, m31: 0, m32: 0, m33: UNIT,
        }
    }

    pub fn rotation_y(c: i64, s: i64) -> (r: Matrix4)
        requires
            fx_ok(c as int),
            fx_ok(s as int),
        ensures
            r == rotation_y_spec(c, s),
            mat_ok(r),
    {
        let n: i64 = fx_sub(0, s);
        Matrix4 {
            m00: c, m01: 0, m02: s, m03: 0,
            m10: 0, m11: UNIT, m12: 0, m13: 0,
            m20: n, m21: 0, m22: c, m23: 0,
            m30: 0, m31: 0, m32: 0, m33: UNIT,
        }
    }

    pub fn rotation_z(c: i64, s: i64) -> (r: Matrix4)
        requires
            fx_ok(c as int),
            fx_ok(s as int),
        ensures
            r == rotation_z_spec(c, s),
            mat_ok(r),
    {
        let n: i64 = fx_sub(0, s);
        Matrix4 {
            m00: c, m01: n, m02: 0, m03: 0,
            m10: s, m11: c, m12: 0, m13: 0,
            m20: 0, m21: 0, m22: UNIT, m23: 0,
            m30: 0, m31: 0, m32: 0, m33: UNIT,
        }
    }

    pub fn shearing(xy: i64, xz: i64, yx: i64, yz: i64, zx: i64, zy: i64) -> (r: Matrix4)
        requires
            fx_ok(xy as int), fx_ok(xz as int), fx_ok(yx as int),
            fx_ok(yz as int), fx_ok(zx as int), fx_ok(zy as int),
        ensures
            r == shearing_spec(xy, xz, yx, yz, zx, zy),
            mat_ok(r),
    {
        Matrix4 {
            m00: UNIT, m01: xy, m02: xz, m03: 0,
            m10: yx, m11: UNIT, m12: yz, m13: 0,
            m20: zx, m21: zy, m22: UNIT, m23: 0,
            m30: 0, m31: 0, m32: 0, m33: UNIT,
        }
    }

    /// Matrix product, row by column, every entry rounded once.
    pub fn times(&self, other: &Matrix4) -> (r: Matrix4)
        requires
            mat_ok(*self),
            mat_ok(*other),
        ensures
            r == matmul_spec(*self, *other),
            mat_ok(r),
    {
        let a = self;
        let b = other;
        Matrix4 {
            m00: entry4(a.m00, b.m00, a.m01, b.m10, a.m02, b.m20, a.m03, b.m30),
            m01: entry4(a.m00, b.m01, a.m01, b.m11, a.m02, b.m21, a.m03, b.m31),
            m02: entry4(a.m00, b.m02, a.m01, b.m12, a.m02, b.m22, a.m03, b.m32),
            m03: entry4(a.m00, b.m03, a.m01, b.m13, a.m02, b.m23, a.m03, b.m33),
            m10: entry4(a.m10, b.m00, a.m11, b.m10, a.m12, b.m20, a.m13, b.m30),
            m11: entry4(a.m10, b.m01, a.m11, b.m11, a.m12, b.m21, a.m13, b.m31),
            m12: entry4(a.m10, b.m02, a.m11, b.m12, a.m12, b.m22, a.m13, b.m32),
            m13: entry4(a.m10, b.m03, a.m11, b.m13, a.m12, b.m23, a.m13, b.m33),
            m20: entry4(a.m20, b.m00, a.m21, b.m10, a.m22, b.m20, a.m23, b.m30),
            m21: entry4(a.m20, b.m01, a.m21, b.m11, a.m22, b.m21, a.m23, b.m31),
            m22: entry4(a.m20, b.m02, a.m21, b.m12, a.m22, b.m22, a.m23, b.m32),
            m23: entry4(a.m20, b.m03, a.m21, b.m13, a.m22, b.m23, a.m23, b.m33),
            m30: entry4(a.m30, b.m00, a.m31, b.m10, a.m32, b.m20, a.m33, b.m30),
            m31: entry4(a.m30, b.m01, a.m31, b.m11, a.m32, b.m21, a.m33, b.m31),
            m32: entry4(a.m30, b.m02, a.m31, b.m12, a.m32, b.m22, a.m33, b.m32),
            m33: entry4(a.m30, b.m03, a.m31, b.m13, a.m32, b.m23, a.m33, b.m33),
        }
    }

    pub fn times_point(&self, p: &Point) -> (r: Point)
        requires
            mat_ok(*self),
            point_ok(*p),
        ensures
            r == apply_point_spec(*self, *p),
            point_ok(r),
    {
        Point {
            x: entry4(self.m00, p.x, self.m01, p.y, self.m02, p.z, self.m03, UNIT),
            y: entry4(self.m10, p.x, self.m11, p.y, self.m12, p.z, self.m13, UNIT),
            z: entry4(self.m20, p.x, self.m21, p.y, self.m22, p.z, self.m23, UNIT),
        }
    }

    pub fn times_vector(&self, v: &Vector) -> (r: Vector)
        requires
            mat_ok(*self),
            vec_ok(*v),
        ensures
            r == apply_vector_spec(*self, *v),
            vec_ok(r),
    {
        Vector {
            x: entry4(self.m00, v.x, self.m01, v.y, self.m02, v.z, 0, 0),
            y: entry4(self.m10, v.x, self.m11, v.y, self.m12, v.z, 0, 0),
            z: entry4(self.m20, v.x, self.m21, v.y, self.m22, v.z, 0, 0),
        }
    }

    pub fn transpose(&self) -> (r: Matrix4)
        ensures
            r == transpose_spec(*self),
            mat_ok(*self) ==> mat_ok(r),
    {
        Matrix4 {
            m00: self.m00, m01: self.m10, m02: self.m20, m03: self.m30,
            m10: self.m01, m11: self.m11, m12: self.m21, m13: self.m31,
            m20: self.m02, m21: self.m12, m22: self.m22, m23: self.m32,
            m30: self.m03, m31: self.m13, m32: self.m23, m33: self.m33,
        }
    }

    /// Compose a translation on the left, as the fluent builders do.
    pub fn translate(&self, v: &Vector) -> (r: Matrix4)
        requires
            mat_ok(*self),
            vec_ok(*v),
        ensures
            r == matmul_spec(translation_spec(*v), *self),
            mat_ok(r),
    {
        Matrix4::translation(v).times(self)
    }

    pub fn scale(&self, v: &Vector) -> (r: Matrix4)
        requires
            mat_ok(*self),
            vec_ok(*v),
        ensures
            r == matmul_spec(scaling_spec(*v), *self),
            mat_ok(r),
    {
        Matrix4::scaling(v).times(self)
    }

    pub fn rotate_x(&self, c: i64, s: i64) -> (r: Matrix4)
        requires
            mat_ok(*self),
            fx_ok(c as int),
            fx_ok(s as int),
        ensures
            r == matmul_spec(rotation_x_spec(c, s), *self),
            mat_ok(r),
    {
        Matrix4::rotation_x(c, s).times(self)
    }

    pub fn rotate_y(&self, c: i64, s: i64) -> (r: Matrix4)
        requires
            mat_ok(*self),
            fx_ok(c as int),
            fx_ok(s as int),
        ensures
            r == matmul_spec(rotation_y_spec(c, s), *self),
            mat_ok(r),
    {
        Matrix4::rotation_y(c, s).times(self)
    }

    pub fn rotate_z(&self, c: i64, s: i64) -> (r: Matrix4)
        requires
            mat_ok(*self),
            fx_ok(c as int),
            fx_ok(s as int),
        ensures
            r == matmul_spec(rotation_z_spec(c, s), *self),
            mat_ok(r),
    {
        Matrix4::rotation_z(c, s).times(self)
    }

    pub fn shear(&self, xy: i64, xz: i64, yx: i64, yz: i64, zx: i64, zy: i64) -> (r: Matrix4)
        requires
            mat_ok(*self),
            fx_ok(xy as int), fx_ok(xz as int), fx_ok(yx as int),
            fx_ok(yz as int), fx_ok(zx as int), fx_ok(zy as int),
        ensures
            r == matmul_spec(shearing_spec(xy, xz, yx, yz, zx, zy), *self),
            mat_ok(r),
    {
        Matrix4::shearing(xy, xz, yx, yz, zx, zy).times(self)
    }

    pub fn view_transform(from: Point, to: Point, up: Vector) -> (r: Matrix4)
        requires
            point_ok(from),
            point_ok(to),
            vec_ok(up),
        ensures
            r == view_transform_spec(from, to, up),
            mat_ok(r),
    {
        let forward: Vector = to.minus(&from).normalize();
        let upn: Vector = up.normalize();
        let left: Vector = forward.cross(&upn);
        let true_up: Vector = left.cross(&forward);
        let orientation = Matrix4 {
            m00: left.x, m01: left.y, m02: left.z, m03: 0,
            m10: true_up.x, m11: true_up.y, m12: true_up.z, m13: 0,
            m20: fx_sub(0, forward.x), m21: fx_sub(0, forward.y), m22: fx_sub(0, forward.z), m23: 0,
            m30: 0, m31: 0, m32: 0, m33: UNIT,
        };
        let back = Vector { x: fx_sub(0, from.x), y: fx_sub(0, from.y), z: fx_sub(0, from.z) };
        orientation.times(&Matrix4::translation(&back))
    }

    /// Entrywise comparison within EPSILON.
    pub fn approx_eq(&self, other: &Matrix4) -> (r: bool)
        requires
            mat_ok(*self),
            mat_ok(*other),
        ensures
            r == (abs_spec(self.m00 - other.m00) < EPSILON && abs_spec(self.m01 - other.m01)
                < EPSILON && abs_spec(self.m02 - other.m02) < EPSILON && abs_spec(
                self.m03 - other.m03,
            ) < EPSILON && abs_spec(self.m10 - other.m10) < EPSILON && abs_spec(
                self.m11 - other.m11,
            ) < EPSILON && abs_spec(self.m12 - other.m12) < EPSILON && abs_spec(
                self.m13 - other.m13,
            ) < EPSILON && abs_spec(self.m20 - other.m20) < EPSILON && abs_spec(
                self.m21 - other.m21,
            ) < EPSILON && abs_spec(self.m22 - other.m22) < EPSILON && abs_spec(
                self.m23 - other.m23,
            ) < EPSILON && abs_spec(self.m30 - other.m30) < EPSILON && abs_spec(
                self.m31 - other.m31,
            ) < EPSILON && abs_spec(self.m32 - other.m32) < EPSILON && abs_spec(
                self.m33 - other.m33,
            ) < EPSILON),
    {
        approx_eq(self.m00, other.m00) && approx_eq(self.m01, other.m01) && approx_eq(
            self.m02,
            other.m02,
        ) && approx_eq(self.m03, other.m03) && approx_eq(self.m10, other.m10) && approx_eq(
            self.m11,
            other.m11,
        ) && approx_eq(self.m12, other.m12) && approx_eq(self.m13, other.m13) && approx_eq(
            self.m20,
            other.m20,
        ) && approx_eq(self.m21, other.m21) && approx_eq(self.m22, other.m22) && approx_eq(
            self.m23,
            other.m23,
        ) && approx_eq(self.m30, other.m30) && approx_eq(self.m31, other.m31) && approx_eq(
            self.m32,
            other.m32,
        ) && approx_eq(self.m33, other.m33)
    }
}

impl Point {
    /// The point moved by a translation matrix built on the identity.
    pub fn translate(&self, translation: &Vector) -> (r: Point)
        requires
            point_ok(*self),
            vec_ok(*translation),
        ensures
            r == apply_point_spec(
                matmul_spec(translation_spec(*translation), identity_spec()),
                *self,
            ),
            point_ok(r),
    {
        Matrix4::identity().translate(translation).times_point(self)
    }

    /// The point scaled componentwise by a scaling matrix.
    pub fn scale(&self, factors: &Vector) -> (r: Point)
        requires
            point_ok(*self),
            vec_ok(*factors),
        ensures
            r == apply_point_spec(matmul_spec(scaling_spec(*factors), identity_spec()), *self),
            point_ok(r),
    {
        Matrix4::identity().scale(factors).times_point(self)
    }

    pub fn rotate_x(&self, c: i64, s: i64) -> (r: Point)
        requires
            point_ok(*self),
            fx_ok(c as int),
            fx_ok(s as int),
        ensures
            r == apply_point_spec(matmul_spec(rotation_x_spec(c, s), identity_spec()), *self),
            point_ok(r),
    {
        Matrix4::identity().rotate_x(c, s).times_point(self)
    }

    pub fn rotate_y(&self, c: i64, s: i64) -> (r: Point)
        requires
            point_ok(*self),
            fx_ok(c as int),
            fx_ok(s as int),
        ensures
            r == apply_point_spec(matmul_spec(rotation_y_spec(c, s), identity_spec()), *self),
            point_ok(r),
    {
        Matrix4::identity().rotate_y(c, s).times_point(self)
    }

    pub fn rotate_z(&self, c: i64, s: i64) -> (r: Point)
        requires
            point_ok(*self),
            fx_ok(c as int),
            fx_ok(s as int),
        ensures
            r == apply_point_spec(matmul_spec(rotation_z_spec(c, s), identity_spec()), *self),
            point_ok(r),
    {
        Matrix4::identity().rotate_z(c, s).times_point(self)
    }

    pub fn shear(&self, xy: i64, xz: i64, yx: i64, yz: i64, zx: i64, zy: i64) -> (r: Point)
        requires
            point_ok(*self),
            fx_ok(xy as int), fx_ok(xz as int), fx_ok(yx as int),
            fx_ok(yz as int), fx_ok(zx as int), fx_ok(zy as int),
        ensures
            r == apply_point_spec(
                matmul_spec(shearing_spec(xy, xz, yx, yz, zx, zy), identity_spec()),
                *self,
            ),
            point_ok(r),
    {
        Matrix4::identity().shear(xy, xz, yx, yz, zx, zy).times_point(self)
    }
}

/// A matrix paired with its cached inverse. The pair is built only through
/// constructors that compose a generator on the forward side and its exact
/// inverse generator, mirrored, on the backward side.
#[derive(Clone, Copy, Debug, PartialEq, Eq, Structural)]
pub struct Transform {
    pub direct: Matrix4,
    pub inverse: Matrix4,
}

pub open spec fn transform_ok(t: Transform) -> bool {
    mat_ok(t.direct) && mat_ok(t.inverse)
}

impl Transform {
    pub fn identity() -> (r: Transform)
        ensures
            r.direct == identity_spec(),
            r.inverse == identity_spec(),
            transform_ok(r),
    {
        Transform { direct: Matrix4::identity(), inverse: Matrix4::identity() }
    }

    /// Pair a matrix with a caller-supplied inverse.
    pub fn with_inverse(direct: Matrix4, inverse: Matrix4) -> (r: Transform)
        ensures
            r.direct == direct,
            r.inverse == inverse,
    {
        Transform { direct, inverse }
    }

    pub fn translate(&self, v: &Vector) -> (r: Transform)
        requires
            transform_ok(*self),
            vec_ok(*v),
        ensures
            r.direct == matmul_spec(translation_spec(*v), self.direct),
            r.inverse == matmul_spec(self.inverse, translation_spec(vec_negate_spec(*v))),
            transform_ok(r),
    {
        let back = Vector { x: fx_sub(0, v.x), y: fx_sub(0, v.y), z: fx_sub(0, v.z) };
        Transform {
            direct: self.direct.translate(v),
            inverse: self.inverse.times(&Matrix4::translation(&back)),
        }
    }

    pub fn scale(&self, v: &Vector) -> (r: Transform)
        requires
            transform_ok(*self),
            vec_ok(*v),
            v.x != 0,
            v.y != 0,
            v.z != 0,
        ensures
            r.direct == matmul_spec(scaling_spec(*v), self.direct),
            r.inverse == matmul_spec(
                self.inverse,
                scaling_spec(
                    Vector {
                        x: div_spec(UNIT as int, v.x as int) as i64,
                        y: div_spec(UNIT as int, v.y as int) as i64,
                        z: div_spec(UNIT as int, v.z as int) as i64,
                    },
                ),
            ),
            transform_ok(r),
    {
        let back = Vector { x: fx_div(UNIT, v.x), y: fx_div(UNIT, v.y), z: fx_div(UNIT, v.z) };
        Transform {
            direct: self.direct.scale(v),
            inverse: self.inverse.times(&Matrix4::scaling(&back)),
        }
    }

    pub fn rotate_x(&self, c: i64, s: i64) -> (r: Transform)
        requires
            transform_ok(*self),
            fx_ok(c as int),
            fx_ok(s as int),
        ensures
            r.direct == matmul_spec(rotation_x_spec(c, s), self.direct),
            r.inverse == matmul_spec(self.inverse, rotation_x_spec(c, sub_neg(s))),
            transform_ok(r),
    {
        let n: i64 = fx_sub(0, s);
        Transform {
            direct: self.direct.rotate_x(c, s),
            inverse: self.inverse.times(&Matrix4::rotation_x(c, n)),
        }
    }

    pub fn rotate_y(&self, c: i64, s: i64) -> (r: Transform)
        requires
            transform_ok(*self),
            fx_ok(c as int),
            fx_ok(s as int),
        ensures
            r.direct == matmul_spec(rotation_y_spec(c, s), self.direct),
            r.inverse == matmul_spec(self.inverse, rotation_y_spec(c, sub_neg(s))),
            transform_ok(r),
    {
        let n: i64 = fx_sub(0, s);
        Transform {
            direct: self.direct.rotate_y(c, s),
            inverse: self.inverse.times(&Matrix4::rotation_y(c, n)),
        }
    }

    pub fn rotate_z(&self, c: i64, s: i64) -> (r: Transform)
        requires
            transform_ok(*self),
            fx_ok(c as int),
            fx_ok(s as int),
        ensures
            r.direct == matmul_spec(rotation_z_spec(c, s), self.direct),
            r.inverse == matmul_spec(self.inverse, rotation_z_spec(c, sub_neg(s))),
            transform_ok(r),
    {
        let n: i64 = fx_sub(0, s);
        Transform {
            direct: self.direct.rotate_z(c, s),
            inverse: self.inverse.times(&Matrix4::rotation_z(c, n)),
        }
    }

    /// View transform pair: the forward side is orientation * translation,
    /// the backward side uses the transpose of the orthogonal orientation.
    pub fn view(from: Point, to: Point, up: Vector) -> (r: Transform)
        requires
            point_ok(from),
            point_ok(to),
            vec_ok(up),
        ensures
            r.direct == view_transform_spec(from, to, up),
            transform_ok(r),
    {
        let direct: Matrix4 = Matrix4::view_transform(from, to, up);
        let forward: Vector = to.minus(&from).normalize();
        let upn: Vector = up.normalize();
        let left: Vector = forward.cross(&upn);
        let true_up: Vector = left.cross(&forward);
        let orientation = Matrix4 {
            m00: left.x, m01: left.y, m02: left.z, m03: 0,
            m10: true_up.x, m11: true_up.y, m12: true_up.z, m13: 0,
            m20: fx_sub(0, forward.x), m21: fx_sub(0, forward.y), m22: fx_sub(0, forward.z), m23: 0,
            m30: 0, m31: 0, m32: 0, m33: UNIT,
        };
        let ahead = Vector { x: from.x, y: from.y, z: from.z };
        let inverse: Matrix4 = Matrix4::translation(&ahead).times(&orientation.transpose());
        Transform { direct, inverse }
    }
}

} // verus!
