//! Points, vectors and colors over fixed-point scalars.
//!
//! Every operation has a spec-level mirror, so the contract of each
//! executable method pins its result exactly.

use vstd::prelude::*;

use crate::fx::abs_spec;
use crate::fx::add_spec;
use crate::fx::approx_eq;
use crate::fx::div_spec;
use crate::fx::fx_add;
use crate::fx::fx_div;
use crate::fx::fx_mul;
use crate::fx::fx_ok;
use crate::fx::fx_sqrt;
use crate::fx::fx_sub;
use crate::fx::is_sqrt;
use crate::fx::mul_spec;
use crate::fx::round_unit;
use crate::fx::sqrt_spec;
use crate::fx::sub_spec;
use crate::EPSILON;
use crate::LIMIT;
use crate::UNIT;

verus! {

#[derive(Clone, Copy, Debug, PartialEq, Eq, Structural)]
pub struct Vector {
    pub x: i64,
    pub y: i64,
    pub z: i64,
}

#[derive(Clone, Copy, Debug, PartialEq, Eq, Structural)]
pub struct Point {
    pub x: i64,
    pub y: i64,
    pub z: i64,
}

#[derive(Clone, Copy, Debug, PartialEq, Eq, Structural)]
pub struct Color {
    pub r: i64,
    pub g: i64,
    pub b: i64,
}

pub open spec fn vec_ok(v: Vector) -> bool {
    fx_ok(v.x as int) && fx_ok(v.y as int) && fx_ok(v.z as int)
}

pub open spec fn point_ok(p: Point) -> bool {
    fx_ok(p.x as int) && fx_ok(p.y as int) && fx_ok(p.z as int)
}

pub open spec fn color_ok(c: Color) -> bool {
    fx_ok(c.r as int) && fx_ok(c.g as int) && fx_ok(c.b as int)
}

pub open spec fn dot_spec(a: Vector, b: Vector) -> int {
    add_spec(
        add_spec(mul_spec(a.x as int, b.x as int), mul_spec(a.y as int, b.y as int)),
        mul_spec(a.z as int, b.z as int),
    )
}

pub open spec fn magnitude_spec(a: Vector) -> int {
    sqrt_spec(dot_spec(a, a))
}

pub open spec fn normalize_spec(a: Vector) -> Vector {
    let m = magnitude_spec(a);
    if m == 0 {
        a
    } else {
        Vector {
            x: div_spec(a.x as int, m) as i64,
            y: div_spec(a.y as int, m) as i64,
            z: div_spec(a.z as int, m) as i64,
        }
    }
}

pub open spec fn vec_plus_spec(a: Vector, b: Vector) -> Vector {
    Vector {
        x: add_spec(a.x as int, b.x as int) as i64,
        y: add_spec(a.y as int, b.y as int) as i64,
        z: add_spec(a.z as int, b.z as int) as i64,
    }
}

pub open spec fn vec_minus_spec(a: Vector, b: Vector) -> Vector {
    Vector {
        x: sub_spec(a.x as int, b.x as int) as i64,
        y: sub_spec(a.y as int, b.y as int) as i64,
        z: sub_spec(a.z as int, b.z as int) as i64,
    }
}

pub open spec fn vec_times_spec(a: Vector, s: int) -> Vector {
    Vector {
        x: mul_spec(a.x as int, s) as i64,
        y: mul_spec(a.y as int, s) as i64,
        z: mul_spec(a.z as int, s) as i64,
    }
}

pub open spec fn vec_over_spec(a: Vector, s: int) -> Vector {
    Vector {
        x: div_spec(a.x as int, s) as i64,
        y: div_spec(a.y as int, s) as i64,
        z: div_spec(a.z as int, s) as i64,
    }
}

pub open spec fn vec_negate_spec(a: Vector) -> Vector {
    Vector { x: sub_spec(0, a.x as int) as i64, y: sub_spec(0, a.y as int) as i64, z: sub_spec(0, a.z as int) as i64 }
}

pub open spec fn cross_spec(a: Vector, b: Vector) -> Vector {
    Vector {
        x: sub_spec(mul_spec(a.y as int, b.z as int), mul_spec(a.z as int, b.y as int)) as i64,
        y: sub_spec(mul_spec(a.z as int, b.x as int), mul_spec(a.x as int, b.z as int)) as i64,
        z: sub_spec(mul_spec(a.x as int, b.y as int), mul_spec(a.y as int, b.x as int)) as i64,
    }
}

/// v - n * (2 * (v . n)): the doubling is exact, the rest is rounded.
pub open spec fn reflect_spec(v: Vector, n: Vector) -> Vector {
    vec_minus_spec(v, vec_times_spec(n, add_spec(dot_spec(v, n), dot_spec(v, n))))
}

impl Vector {
    pub fn new(x: i64, y: i64, z: i64) -> (r: Vector)
        ensures
            r == (Vector { x, y, z }),
    {
        Vector { x, y, z }
    }

    pub fn zero() -> (r: Vector)
        ensures
            r == (Vector { x: 0i64, y: 0i64, z: 0i64 }),
    {
        Vector { x: 0, y: 0, z: 0 }
    }

    pub fn plus(&self, other: &Vector) -> (r: Vector)
        requires
            vec_ok(*self),
            vec_ok(*other),
        ensures
            r == vec_plus_spec(*self, *other),
            vec_ok(r),
    {
        Vector {
            x: fx_add(self.x, other.x),
            y: fx_add(self.y, other.y),
            z: fx_add(self.z, other.z),
        }
    }

    pub fn minus(&self, other: &Vector) -> (r: Vector)
        requires
            vec_ok(*self),
            vec_ok(*other),
        ensures
            r == vec_minus_spec(*self, *other),
            vec_ok(r),
    {
        Vector {
            x: fx_sub(self.x, other.x),
            y: fx_sub(self.y, other.y),
            z: fx_sub(self.z, other.z),
        }
    }

    pub fn negate(&self) -> (r: Vector)
        requires
            vec_ok(*self),
        ensures
            r == vec_negate_spec(*self),
            vec_ok(r),
    {
        Vector { x: fx_sub(0, self.x), y: fx_sub(0, self.y), z: fx_sub(0, self.z) }
    }

    pub fn times(&self, s: i64) -> (r: Vector)
        requires
            vec_ok(*self),
            fx_ok(s as int),
        ensures
            r == vec_times_spec(*self, s as int),
            vec_ok(r),
    {
        Vector { x: fx_mul(self.x, s), y: fx_mul(self.y, s), z: fx_mul(self.z, s) }
    }

    pub fn over(&self, s: i64) -> (r: Vector)
        requires
            vec_ok(*self),
            fx_ok(s as int),
            s != 0,
        ensures
            r == vec_over_spec(*self, s as int),
            vec_ok(r),
    {
        Vector { x: fx_div(self.x, s), y: fx_div(self.y, s), z: fx_div(self.z, s) }
    }

    pub fn dot(&self, other: &Vector) -> (r: i64)
        requires
            vec_ok(*self),
            vec_ok(*other),
        ensures
            r == dot_spec(*self, *other),
            fx_ok(r as int),
    {
        fx_add(
            fx_add(fx_mul(self.x, other.x), fx_mul(self.y, other.y)),
            fx_mul(self.z, other.z),
        )
    }

    pub fn cross(&self, other: &Vector) -> (r: Vector)
        requires
            vec_ok(*self),
            vec_ok(*other),
        ensures
            r == cross_spec(*self, *other),
            vec_ok(r),
    {
        Vector {
            x: fx_sub(fx_mul(self.y, other.z), fx_mul(self.z, other.y)),
            y: fx_sub(fx_mul(self.z, other.x), fx_mul(self.x, other.z)),
            z: fx_sub(fx_mul(self.x, other.y), fx_mul(self.y, other.x)),
        }
    }

    pub fn magnitude(&self) -> (r: i64)
        requires
            vec_ok(*self),
        ensures
            r == magnitude_spec(*self),
            is_sqrt(dot_spec(*self, *self), r as int),
            0 <= r <= LIMIT,
    {
        proof {
            lemma_self_dot_nonneg(*self);
        }
        fx_sqrt(self.dot(self))
    }

    pub fn normalize(&self) -> (r: Vector)
        requires
            vec_ok(*self),
        ensures
            r == normalize_spec(*self),
            vec_ok(r),
    {
        let m: i64 = self.magnitude();
        if m == 0 {
            *self
        } else {
            Vector { x: fx_div(self.x, m), y: fx_div(self.y, m), z: fx_div(self.z, m) }
        }
    }

    pub fn reflect(&self, normal: &Vector) -> (r: Vector)
        requires
            vec_ok(*self),
            vec_ok(*normal),
        ensures
            r == reflect_spec(*self, *normal),
            vec_ok(r),
    {
        let d: i64 = self.dot(normal);
        let twice: i64 = fx_add(d, d);
        self.minus(&normal.times(twice))
    }

    /// Componentwise scaling, as a scaling matrix would apply it.
    pub fn scale(&self, factors: &Vector) -> (r: Vector)
        requires
            vec_ok(*self),
            vec_ok(*factors),
        ensures
            r == (Vector {
                x: mul_spec(factors.x as int, self.x as int) as i64,
                y: mul_spec(factors.y as int, self.y as int) as i64,
                z: mul_spec(factors.z as int, self.z as int) as i64,
            }),
            vec_ok(r),
    {
        Vector {
            x: fx_mul(factors.x, self.x),
            y: fx_mul(factors.y, self.y),
            z: fx_mul(factors.z, self.z),
        }
    }

    pub fn approx_eq(&self, other: &Vector) -> (r: bool)
        requires
            vec_ok(*self),
            vec_ok(*other),
        ensures
            r == (abs_spec(self.x - other.x) < EPSILON && abs_spec(self.y - other.y) < EPSILON
                && abs_spec(self.z - other.z) < EPSILON),
    {
        approx_eq(self.x, other.x) && approx_eq(self.y, other.y) && approx_eq(self.z, other.z)
    }
}

/// The rounded square of a scalar is never negative.
pub proof fn lemma_square_nonneg(x: int)
    ensures
        mul_spec(x, x) >= 0,
{
    assert(x * x >= 0) by (nonlinear_arith);
    assert(round_unit(x * x) >= 0) by {
        let p = x * x;
        if p >= 0 {
            assert((p + (UNIT as int) / 2) / (UNIT as int) >= 0) by (nonlinear_arith)
                requires
                    p >= 0,
                    UNIT == 10_000_000i64,
            ;
        }
    };
}

/// A vector's dot product with itself is never negative.
pub proof fn lemma_self_dot_nonneg(v: Vector)
    ensures
        dot_spec(v, v) >= 0,
{
    lemma_square_nonneg(v.x as int);
    lemma_square_nonneg(v.y as int);
    lemma_square_nonneg(v.z as int);
}

pub open spec fn point_plus_spec(p: Point, v: Vector) -> Point {
    Point {
        x: add_spec(p.x as int, v.x as int) as i64,
        y: add_spec(p.y as int, v.y as int) as i64,
        z: add_spec(p.z as int, v.z as int) as i64,
    }
}

pub open spec fn point_minus_vec_spec(p: Point, v: Vector) -> Point {
    Point {
        x: sub_spec(p.x as int, v.x as int) as i64,
        y: sub_spec(p.y as int, v.y as int) as i64,
        z: sub_spec(p.z as int, v.z as int) as i64,
    }
}

pub open spec fn point_minus_spec(p: Point, q: Point) -> Vector {
    Vector {
        x: sub_spec(p.x as int, q.x as int) as i64,
        y: sub_spec(p.y as int, q.y as int) as i64,
        z: sub_spec(p.z as int, q.z as int) as i64,
    }
}

impl Point {
    pub fn new(x: i64, y: i64, z: i64) -> (r: Point)
        ensures
            r == (Point { x, y, z }),
    {
        Point { x, y, z }
    }

    pub fn zero() -> (r: Point)
        ensures
            r == (Point { x: 0i64, y: 0i64, z: 0i64 }),
    {
        Point { x: 0, y: 0, z: 0 }
    }

    pub fn one() -> (r: Point)
        ensures
            r == (Point { x: UNIT, y: UNIT, z: UNIT }),
    {
        Point { x: UNIT, y: UNIT, z: UNIT }
    }

    pub fn plus(&self, v: &Vector) -> (r: Point)
        requires
            point_ok(*self),
            vec_ok(*v),
        ensures
            r == point_plus_spec(*self, *v),
            point_ok(r),
    {
        Point { x: fx_add(self.x, v.x), y: fx_add(self.y, v.y), z: fx_add(self.z, v.z) }
    }

    pub fn minus_vec(&self, v: &Vector) -> (r: Point)
        requires
            point_ok(*self),
            vec_ok(*v),
        ensures
            r == point_minus_vec_spec(*self, *v),
            point_ok(r),
    {
        Point { x: fx_sub(self.x, v.x), y: fx_sub(self.y, v.y), z: fx_sub(self.z, v.z) }
    }

    pub fn minus(&self, other: &Point) -> (r: Vector)
        requires
            point_ok(*self),
            point_ok(*other),
        ensures
            r == point_minus_spec(*self, *other),
            vec_ok(r),
    {
        Vector {
            x: fx_sub(self.x, other.x),
            y: fx_sub(self.y, other.y),
            z: fx_sub(self.z, other.z),
        }
    }

    pub fn times(&self, s: i64) -> (r: Point)
        requires
            point_ok(*self),
            fx_ok(s as int),
        ensures
            r == (Point {
                x: mul_spec(self.x as int, s as int) as i64,
                y: mul_spec(self.y as int, s as int) as i64,
                z: mul_spec(self.z as int, s as int) as i64,
            }),
            point_ok(r),
    {
        Point { x: fx_mul(self.x, s), y: fx_mul(self.y, s), z: fx_mul(self.z, s) }
    }

    pub fn over(&self, s: i64) -> (r: Point)
        requires
            point_ok(*self),
            fx_ok(s as int),
            s != 0,
        ensures
            r == (Point {
                x: div_spec(self.x as int, s as int) as i64,
                y: div_spec(self.y as int, s as int) as i64,
                z: div_spec(self.z as int, s as int) as i64,
            }),
            point_ok(r),
    {
        Point { x: fx_div(self.x, s), y: fx_div(self.y, s), z: fx_div(self.z, s) }
    }

    pub fn approx_eq(&self, other: &Point) -> (r: bool)
        requires
            point_ok(*self),
            point_ok(*other),
        ensures
            r == (abs_spec(self.x - other.x) < EPSILON && abs_spec(self.y - other.y) < EPSILON
                && abs_spec(self.z - other.z) < EPSILON),
    {
        approx_eq(self.x, other.x) && approx_eq(self.y, other.y) && approx_eq(self.z, other.z)
    }
}

pub open spec fn color_plus_spec(a: Color, b: Color) -> Color {
    Color {
        r: add_spec(a.r as int, b.r as int) as i64,
        g: add_spec(a.g as int, b.g as int) as i64,
        b: add_spec(a.b as int, b.b as int) as i64,
    }
}

pub open spec fn color_minus_spec(a: Color, b: Color) -> Color {
    Color {
        r: sub_spec(a.r as int, b.r as int) as i64,
        g: sub_spec(a.g as int, b.g as int) as i64,
        b: sub_spec(a.b as int, b.b as int) as i64,
    }
}

pub open spec fn color_times_spec(a: Color, s: int) -> Color {
    Color {
        r: mul_spec(a.r as int, s) as i64,
        g: mul_spec(a.g as int, s) as i64,
        b: mul_spec(a.b as int, s) as i64,
    }
}

pub open spec fn hadamard_spec(a: Color, b: Color) -> Color {
    Color {
        r: mul_spec(a.r as int, b.r as int) as i64,
        g: mul_spec(a.g as int, b.g as int) as i64,
        b: mul_spec(a.b as int, b.b as int) as i64,
    }
}

impl Color {
    pub fn new(r: i64, g: i64, b: i64) -> (c: Color)
        ensures
            c == (Color { r, g, b }),
    {
        Color { r, g, b }
    }

    pub fn white() -> (c: Color)
        ensures
            c == (Color { r: UNIT, g: UNIT, b: UNIT }),
    {
        Color { r: UNIT, g: UNIT, b: UNIT }
    }

    pub fn black() -> (c: Color)
        ensures
            c == (Color { r: 0i64, g: 0i64, b: 0i64 }),
    {
        Color { r: 0, g: 0, b: 0 }
    }

    pub fn plus(&self, other: &Color) -> (c: Color)
        requires
            color_ok(*self),
            color_ok(*other),
        ensures
            c == color_plus_spec(*self, *other),
            color_ok(c),
    {
        Color { r: fx_add(self.r, other.r), g: fx_add(self.g, other.g), b: fx_add(self.b, other.b) }
    }

    pub fn minus(&self, other: &Color) -> (c: Color)
        requires
            color_ok(*self),
            color_ok(*other),
        ensures
            c == color_minus_spec(*self, *other),
            color_ok(c),
    {
        Color { r: fx_sub(self.r, other.r), g: fx_sub(self.g, other.g), b: fx_sub(self.b, other.b) }
    }

    pub fn times(&self, s: i64) -> (c: Color)
        requires
            color_ok(*self),
            fx_ok(s as int),
        ensures
            c == color_times_spec(*self, s as int),
            color_ok(c),
    {
        Color { r: fx_mul(self.r, s), g: fx_mul(self.g, s), b: fx_mul(self.b, s) }
    }

    pub fn hadamard_product(&self, other: &Color) -> (c: Color)
        requires
            color_ok(*self),
            color_ok(*other),
        ensures
            c == hadamard_spec(*self, *other),
            color_ok(c),
    {
        Color { r: fx_mul(self.r, other.r), g: fx_mul(self.g, other.g), b: fx_mul(self.b, other.b) }
    }

    pub fn approx_eq(&self, other: &Color) -> (res: bool)
        requires
            color_ok(*self),
            color_ok(*other),
        ensures
            res == (abs_spec(self.r - other.r) < EPSILON && abs_spec(self.g - other.g) < EPSILON
                && abs_spec(self.b - other.b) < EPSILON),
    {
        approx_eq(self.r, other.r) && approx_eq(self.g, other.g) && approx_eq(self.b, other.b)
    }
}

} // verus!
