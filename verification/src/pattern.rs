//! Procedural surface patterns: stripes, rings, checkers, a linear
//! gradient, and a probe pattern that reports the lookup point itself.
//!
//! A pattern carries its own transform pair; a lookup first maps the world
//! point through the object's inverse, then through the pattern's inverse.

use vstd::prelude::*;

use crate::fx::add_spec;
use crate::fx::abs_spec;
use crate::fx::floor_spec;
use crate::fx::fx_add;
use crate::fx::fx_floor;
use crate::fx::fx_mul;
use crate::fx::fx_sqrt;
use crate::fx::count_is_even;
use crate::fx::mul_spec;
use crate::fx::sqrt_spec;
use crate::matrix::apply_point_spec;
use crate::matrix::mat_ok;
use crate::matrix::Matrix4;
use crate::matrix::Transform;
use crate::matrix::transform_ok;
use crate::tuple::color_minus_spec;
use crate::tuple::color_ok;
use crate::tuple::color_plus_spec;
use crate::tuple::color_times_spec;
use crate::tuple::point_ok;
use crate::tuple::Color;
use crate::tuple::Point;
use crate::LIMIT;
use crate::UNIT;

verus! {

#[derive(Clone, Copy, Debug, PartialEq, Eq, Structural)]
pub enum PatternKind {
    Stripe,
    Gradient,
    Ring,
    Checkers,
    Probe,
}

#[derive(Clone, Copy, Debug, PartialEq, Eq, Structural)]
pub struct Pattern {
    pub kind: PatternKind,
    pub first: Color,
    pub second: Color,
    /// second - first, cached for the gradient blend.
    pub span: Color,
    pub transform: Transform,
}

pub open spec fn pattern_ok(p: Pattern) -> bool {
    color_ok(p.first) && color_ok(p.second) && color_ok(p.span) && transform_ok(p.transform)
}

/// Parity of the floor of a scalar: true on the even squares.
pub open spec fn floor_even(x: int) -> bool {
    abs_spec(floor_spec(x)) % 2 == 0
}

/// The color a pattern shows at a point already in pattern space.
pub open spec fn color_at_spec(p: Pattern, q: Point) -> Color {
    match p.kind {
        PatternKind::Stripe => if floor_even(q.x as int) {
            p.first
        } else {
            p.second
        },
        PatternKind::Gradient => {
            let fraction = q.x - floor_spec(q.x as int) * UNIT;
            if floor_even(q.x as int) {
                color_plus_spec(p.first, color_times_spec(p.span, fraction))
            } else {
                color_minus_spec(p.second, color_times_spec(p.span, fraction))
            }
        },
        PatternKind::Ring => {
            let hy = sqrt_spec(add_spec(mul_spec(q.x as int, q.x as int), mul_spec(q.z as int, q.z as int)));
            if floor_even(hy) {
                p.first
            } else {
                p.second
            }
        },
        PatternKind::Checkers => if abs_spec(
            floor_spec(q.x as int) + floor_spec(q.y as int) + floor_spec(q.z as int),
        ) % 2 == 0 {
            p.first
        } else {
            p.second
        },
        PatternKind::Probe => Color { r: q.x, g: q.y, b: q.z },
    }
}

/// Pattern lookup for a point on an object: object inverse first, then the
/// pattern's own inverse.
pub open spec fn color_object_spec(p: Pattern, object_inverse: Matrix4, world: Point) -> Color {
    color_at_spec(
        p,
        apply_point_spec(p.transform.inverse, apply_point_spec(object_inverse, world)),
    )
}

impl Pattern {
    pub fn color_at(&self, q: &Point) -> (c: Color)
        requires
            pattern_ok(*self),
            point_ok(*q),
        ensures
            c == color_at_spec(*self, *q),
            color_ok(c),
    {
        match self.kind {
            PatternKind::Stripe => {
                if count_is_even(fx_floor(q.x)) {
                    self.first
                } else {
                    self.second
                }
            },
            PatternKind::Gradient => {
                let fl: i64 = fx_floor(q.x);
                proof {
                    assert(fl * UNIT <= q.x < fl * UNIT + UNIT) by (nonlinear_arith)
                        requires
                            fl == (q.x as int) / (UNIT as int),
                            UNIT == 10_000_000i64,
                    ;
                }
                let fraction: i64 = q.x - fl * UNIT;
                if count_is_even(fl) {
                    self.first.plus(&self.span.times(fraction))
                } else {
                    self.second.minus(&self.span.times(fraction))
                }
            },
            PatternKind::Ring => {
                proof {
                    crate::tuple::lemma_square_nonneg(q.x as int);
                    crate::tuple::lemma_square_nonneg(q.z as int);
                }
                let hy: i64 = fx_sqrt(fx_add(fx_mul(q.x, q.x), fx_mul(q.z, q.z)));
                if count_is_even(fx_floor(hy)) {
                    self.first
                } else {
                    self.second
                }
            },
            PatternKind::Checkers => {
                let s: i64 = fx_floor(q.x) + fx_floor(q.y) + fx_floor(q.z);
                proof {
                    lemma_floor_range(q.x as int);
                    lemma_floor_range(q.y as int);
                    lemma_floor_range(q.z as int);
                }
                if count_is_even(s) {
                    self.first
                } else {
                    self.second
                }
            },
            PatternKind::Probe => Color { r: q.x, g: q.y, b: q.z },
        }
    }

    pub fn color_object(&self, object_inverse: &Matrix4, world: &Point) -> (c: Color)
        requires
            pattern_ok(*self),
            mat_ok(*object_inverse),
            point_ok(*world),
        ensures
            c == color_object_spec(*self, *object_inverse, *world),
            color_ok(c),
    {
        let object_point: Point = object_inverse.times_point(world);
        let pattern_point: Point = self.transform.inverse.times_point(&object_point);
        self.color_at(&pattern_point)
    }

    pub fn get_transform(&self) -> (t: Transform)
        ensures
            t == self.transform,
    {
        self.transform
    }

    pub fn set_transform(&mut self, t: Transform)
        ensures
            *final(self) == (Pattern { transform: t, ..*old(self) }),
    {
        self.transform = t;
    }
}

/// The floor of a well-formed scalar stays far inside the i64 range.
proof fn lemma_floor_range(x: int)
    requires
        -LIMIT <= x <= LIMIT,
    ensures
        -LIMIT <= floor_spec(x) <= LIMIT,
{
    assert(-LIMIT <= x / (UNIT as int) <= LIMIT) by (nonlinear_arith)
        requires
            -LIMIT <= x <= LIMIT,
            UNIT == 10_000_000i64,
            LIMIT == 1_099_511_627_776i64,
    ;
}

fn pattern_with(kind: PatternKind, first: Color, second: Color) -> (p: Pattern)
    requires
        color_ok(first),
        color_ok(second),
    ensures
        p.kind == kind,
        p.first == first,
        p.second == second,
        p.span == color_minus_spec(second, first),
        p.transform == (Transform { direct: crate::matrix::identity_spec(), inverse: crate::matrix::identity_spec() }),
        pattern_ok(p),
{
    Pattern { kind, first, second, span: second.minus(&first), transform: Transform::identity() }
}

pub struct Stripe;

pub struct Checkers;

pub struct Ring;

pub struct LinearGradient;

pub struct TestPattern;

impl Stripe {
    pub fn new(even: Color, odd: Color) -> (p: Pattern)
        requires
            color_ok(even),
            color_ok(odd),
        ensures
            p.kind == PatternKind::Stripe,
            p.first == even,
            p.second == odd,
            p.transform.direct == crate::matrix::identity_spec(),
            p.transform.inverse == crate::matrix::identity_spec(),
            pattern_ok(p),
    {
        pattern_with(PatternKind::Stripe, even, odd)
    }
}

impl Checkers {
    pub fn new(even: Color, odd: Color) -> (p: Pattern)
        requires
            color_ok(even),
            color_ok(odd),
        ensures
            p.kind == PatternKind::Checkers,
            p.first == even,
            p.second == odd,
            p.transform.direct == crate::matrix::identity_spec(),
            p.transform.inverse == crate::matrix::identity_spec(),
            pattern_ok(p),
    {
        pattern_with(PatternKind::Checkers, even, odd)
    }
}

impl Ring {
    pub fn new(even: Color, odd: Color) -> (p: Pattern)
        requires
            color_ok(even),
            color_ok(odd),
        ensures
            p.kind == PatternKind::Ring,
            p.first == even,
            p.second == odd,
            p.transform.direct == crate::matrix::identity_spec(),
            p.transform.inverse == crate::matrix::identity_spec(),
            pattern_ok(p),
    {
        pattern_with(PatternKind::Ring, even, odd)
    }
}

impl LinearGradient {
    pub fn new(start: Color, end: Color) -> (p: Pattern)
        requires
            color_ok(start),
            color_ok(end),
        ensures
            p.kind == PatternKind::Gradient,
            p.first == start,
            p.second == end,
            p.span == color_minus_spec(end, start),
            p.transform.direct == crate::matrix::identity_spec(),
            p.transform.inverse == crate::matrix::identity_spec(),
            pattern_ok(p),
    {
        pattern_with(PatternKind::Gradient, start, end)
    }
}

impl TestPattern {
    /// The probe pattern: its color is the pattern-space point itself.
    pub fn new() -> (p: Pattern)
        ensures
            p.kind == PatternKind::Probe,
            p.transform.direct == crate::matrix::identity_spec(),
            p.transform.inverse == crate::matrix::identity_spec(),
            pattern_ok(p),
    {
        pattern_with(
            PatternKind::Probe,
            Color { r: 0, g: 0, b: 0 },
            Color { r: 0, g: 0, b: 0 },
        )
    }
}

} // verus!
