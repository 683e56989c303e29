//! Rays: an origin point plus a direction vector.

use vstd::prelude::*;

use crate::matrix::apply_point_spec;
use crate::matrix::apply_vector_spec;
use crate::matrix::mat_ok;
use crate::matrix::Matrix4;
use crate::tuple::point_ok;
use crate::tuple::point_plus_spec;
use crate::tuple::vec_ok;
use crate::tuple::vec_times_spec;
use crate::tuple::Point;
use crate::tuple::Vector;

verus! {

#[derive(Clone, Copy, Debug, PartialEq, Eq, Structural)]
pub struct Ray {
    pub origin: Point,
    pub direction: Vector,
}

pub open spec fn ray_ok(r: Ray) -> bool {
    point_ok(r.origin) && vec_ok(r.direction)
}

/// origin + direction * t, with the scalar product rounded componentwise.
pub open spec fn position_spec(r: Ray, t: int) -> Point {
    point_plus_spec(r.origin, vec_times_spec(r.direction, t))
}

pub open spec fn ray_transform_spec(r: Ray, m: Matrix4) -> Ray {
    Ray { origin: apply_point_spec(m, r.origin), direction: apply_vector_spec(m, r.direction) }
}

impl Ray {
    pub fn new(origin: Point, direction: Vector) -> (r: Ray)
        ensures
            r == (Ray { origin, direction }),
    {
        Ray { origin, direction }
    }

    pub fn position(&self, t: i64) -> (p: Point)
        requires
            ray_ok(*self),
            crate::fx::fx_ok(t as int),
        ensures
            p == position_spec(*self, t as int),
            point_ok(p),
    {
        self.origin.plus(&self.direction.times(t))
    }

    pub fn transform(&self, matrix: &Matrix4) -> (r: Ray)
        requires
            ray_ok(*self),
            mat_ok(*matrix),
        ensures
            r == ray_transform_spec(*self, *matrix),
            ray_ok(r),
    {
        Ray {
            origin: matrix.times_point(&self.origin),
            direction: matrix.times_vector(&self.direction),
        }
    }
}

} // verus!
