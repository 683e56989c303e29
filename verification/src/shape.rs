//! Shapes: sphere, plane, cube and cylinder in one tagged type, each with
//! its local-space intersection and normal, plus hit selection.
//!
//! Intersection always happens in the shape's local space: `intersect`
//! first maps the world ray through the shape's cached inverse transform.

use vstd::prelude::*;

use crate::fx::abs_spec;
use crate::fx::add_spec;
use crate::fx::div_spec;
use crate::fx::fx_add;
use crate::fx::fx_div;
use crate::fx::fx_mul;
use crate::fx::fx_ok;
use crate::fx::fx_sqrt;
use crate::fx::fx_sub;
use crate::fx::mul_spec;
use crate::fx::round_unit;
use crate::fx::sqrt_spec;
use crate::fx::sub_spec;
use crate::material::default_material_spec;
use crate::material::material_ok;
use crate::material::Material;
use crate::matrix::apply_point_spec;
use crate::matrix::apply_vector_spec;
use crate::matrix::transform_ok;
use crate::matrix::transpose_spec;
use crate::matrix::Transform;
use crate::ray::ray_ok;
use crate::ray::ray_transform_spec;
use crate::ray::Ray;
use crate::tuple::dot_spec;
use crate::tuple::normalize_spec;
use crate::tuple::point_ok;
use crate::tuple::vec_ok;
use crate::tuple::Point;
use crate::tuple::Vector;
use crate::EPSILON;
use crate::LIMIT;
use crate::UNIT;

verus! {

#[derive(Clone, Copy, Debug, PartialEq, Eq, Structural)]
pub enum ShapeKind {
    Sphere,
    Plane,
    Cube,
    Cylinder { minimum: i64, maximum: i64, closed: bool },
}

/// One shape: a stable identity, the variant, the transform pair and the
/// surface material.
#[derive(Clone, Copy, Debug)]
pub struct Shape {
    pub id: u128,
    pub kind: ShapeKind,
    pub transform: Transform,
    pub material: Material,
}

pub open spec fn kind_ok(k: ShapeKind) -> bool {
    match k {
        ShapeKind::Cylinder { minimum, maximum, closed } => fx_ok(minimum as int) && fx_ok(
            maximum as int,
        ),
        _ => true,
    }
}

pub open spec fn shape_ok(s: Shape) -> bool {
    kind_ok(s.kind) && transform_ok(s.transform) && material_ok(s.material)
}

/// A t value paired with the shape it was found on.
#[derive(Clone, Copy, Debug)]
pub struct Intersection {
    pub t: i64,
    pub object: Shape,
}

pub open spec fn intersection_ok(i: Intersection) -> bool {
    fx_ok(i.t as int) && shape_ok(i.object)
}

pub open spec fn all_ok(s: Seq<Intersection>) -> bool {
    forall|k: int| 0 <= k < s.len() ==> #[trigger] intersection_ok(s[k])
}

/// The identity the refraction stack compares by: same t and same shape id.
pub open spec fn same_hit(a: Intersection, b: Intersection) -> bool {
    a.t == b.t && a.object.id == b.object.id
}

impl Intersection {
    pub fn new(t: i64, object: Shape) -> (r: Intersection)
        ensures
            r == (Intersection { t, object }),
    {
        Intersection { t, object }
    }
}

/// Relies on uuid's Uuid::new_v4, read back with Uuid::as_u128, for a fresh
/// random shape identity. Nothing is promised of the value.
#[verifier::external_body]
fn fresh_id() -> u128 {
    uuid::Uuid::new_v4().as_u128()
}

/// Cube slab bounds for one axis, the two entries swapped into order.
/// A direction below EPSILON stands for a parallel ray: the bound is the
/// saturation limit, signed like the numerator (zero counts as positive).
pub open spec fn check_axis_spec(origin: int, direction: int) -> (int, int) {
    let nmin = sub_spec(-UNIT, origin);
    let nmax = sub_spec(UNIT as int, origin);
    let pair = if abs_spec(direction) >= EPSILON {
        (div_spec(nmin, direction), div_spec(nmax, direction))
    } else {
        (
            if nmin >= 0 {
                LIMIT as int
            } else {
                -(LIMIT as int)
            },
            if nmax >= 0 {
                LIMIT as int
            } else {
                -(LIMIT as int)
            },
        )
    };
    if pair.0 > pair.1 {
        (pair.1, pair.0)
    } else {
        pair
    }
}

fn check_axis(origin: i64, direction: i64) -> (r: (i64, i64))
    requires
        fx_ok(origin as int),
        fx_ok(direction as int),
    ensures
        (r.0 as int, r.1 as int) == check_axis_spec(origin as int, direction as int),
        fx_ok(r.0 as int),
        fx_ok(r.1 as int),
        r.0 <= r.1,
{
    let nmin: i64 = fx_sub(-UNIT, origin);
    let nmax: i64 = fx_sub(UNIT, origin);
    let tmin: i64;
    let tmax: i64;
    let dmag: i64 = if direction >= 0 {
        direction
    } else {
        -direction
    };
    if dmag >= EPSILON {
        tmin = fx_div(nmin, direction);
        tmax = fx_div(nmax, direction);
    } else {
        tmin = if nmin >= 0 {
            LIMIT
        } else {
            -LIMIT
        };
        tmax = if nmax >= 0 {
            LIMIT
        } else {
            -LIMIT
        };
    }
    if tmin > tmax {
        (tmax, tmin)
    } else {
        (tmin, tmax)
    }
}

/// Mirror of the sphere intersection: unit sphere at the origin, quadratic
/// in t, misses on a negative discriminant or a degenerate direction.
pub open spec fn sphere_intersect_spec(s: Shape, r: Ray) -> Option<Seq<Intersection>> {
    let to_ray = Vector { x: r.origin.x, y: r.origin.y, z: r.origin.z };
    let a = dot_spec(r.direction, r.direction);
    if a == 0 {
        None
    } else {
        let dv = dot_spec(r.direction, to_ray);
        let b = add_spec(dv, dv);
        let c = sub_spec(dot_spec(to_ray, to_ray), UNIT as int);
        let ac = mul_spec(a, c);
        let four_ac = add_spec(add_spec(ac, ac), add_spec(ac, ac));
        let disc = sub_spec(mul_spec(b, b), four_ac);
        if disc < 0 {
            None
        } else {
            let sq = sqrt_spec(disc);
            let two_a = add_spec(a, a);
            let t1 = div_spec(sub_spec(sub_spec(0, b), sq), two_a);
            let t2 = div_spec(add_spec(sub_spec(0, b), sq), two_a);
            Some(
                seq![
                    Intersection { t: t1 as i64, object: s },
                    Intersection { t: t2 as i64, object: s },
                ],
            )
        }
    }
}

/// Mirror of the plane intersection: the xz plane, a miss when the ray is
/// parallel within EPSILON.
pub open spec fn plane_intersect_spec(s: Shape, r: Ray) -> Option<Seq<Intersection>> {
    if abs_spec(r.direction.y as int) < EPSILON {
        None
    } else {
        Some(
            seq![
                Intersection {
                    t: div_spec(sub_spec(0, r.origin.y as int), r.direction.y as int) as i64,
                    object: s,
                },
            ],
        )
    }
}

/// Mirror of the cube intersection: slab method over the three axes.
pub open spec fn cube_intersect_spec(s: Shape, r: Ray) -> Option<Seq<Intersection>> {
    let xt = check_axis_spec(r.origin.x as int, r.direction.x as int);
    let yt = check_axis_spec(r.origin.y as int, r.direction.y as int);
    let zt = check_axis_spec(r.origin.z as int, r.direction.z as int);
    let tmin = max3(xt.0, yt.0, zt.0);
    let tmax = min3(xt.1, yt.1, zt.1);
    if tmin > tmax {
        None
    } else {
        Some(
            seq![
                Intersection { t: tmin as i64, object: s },
                Intersection { t: tmax as i64, object: s },
            ],
        )
    }
}

pub open spec fn max3(a: int, b: int, c: int) -> int {
    if a >= b && a >= c {
        a
    } else if b >= c {
        b
    } else {
        c
    }
}

pub open spec fn min3(a: int, b: int, c: int) -> int {
    if a <= b && a <= c {
        a
    } else if b <= c {
        b
    } else {
        c
    }
}

/// Whether a cap ray point at parameter t lies inside the unit cap disk.
pub open spec fn check_cap_spec(r: Ray, t: int) -> bool {
    let x = add_spec(r.origin.x as int, mul_spec(t, r.direction.x as int));
    let z = add_spec(r.origin.z as int, mul_spec(t, r.direction.z as int));
    add_spec(mul_spec(x, x), mul_spec(z, z)) <= UNIT
}

/// The cap hits of a closed cylinder, in bottom-then-top order; empty when
/// the cylinder is open or the ray is horizontal within EPSILON.
pub open spec fn caps_spec(s: Shape, r: Ray, minimum: int, maximum: int, closed: bool) -> Seq<
    Intersection,
> {
    if !closed || abs_spec(r.direction.y as int) < EPSILON {
        Seq::empty()
    } else {
        let tl = div_spec(sub_spec(minimum, r.origin.y as int), r.direction.y as int);
        let tu = div_spec(sub_spec(maximum, r.origin.y as int), r.direction.y as int);
        let lower: Seq<Intersection> = if check_cap_spec(r, tl) {
            seq![Intersection { t: tl as i64, object: s }]
        } else {
            Seq::empty()
        };
        let upper: Seq<Intersection> = if check_cap_spec(r, tu) {
            seq![Intersection { t: tu as i64, object: s }]
        } else {
            Seq::empty()
        };
        lower + upper
    }
}

/// Mirror of the cylinder intersection: the quadratic side hits filtered by
/// the open bounds, followed by the cap hits.
pub open spec fn cylinder_intersect_spec(
    s: Shape,
    r: Ray,
    minimum: int,
    maximum: int,
    closed: bool,
) -> Option<Seq<Intersection>> {
    let a = add_spec(
        mul_spec(r.direction.x as int, r.direction.x as int),
        mul_spec(r.direction.z as int, r.direction.z as int),
    );
    if abs_spec(a) < EPSILON {
        if closed {
            Some(caps_spec(s, r, minimum, maximum, closed))
        } else {
            None
        }
    } else {
        let mx = mul_spec(r.origin.x as int, r.direction.x as int);
        let mz = mul_spec(r.origin.z as int, r.direction.z as int);
        let b = add_spec(add_spec(mx, mx), add_spec(mz, mz));
        let c = sub_spec(
            add_spec(
                mul_spec(r.origin.x as int, r.origin.x as int),
                mul_spec(r.origin.z as int, r.origin.z as int),
            ),
            UNIT as int,
        );
        let ac = mul_spec(a, c);
        let four_ac = add_spec(add_spec(ac, ac), add_spec(ac, ac));
        let disc = sub_spec(mul_spec(b, b), four_ac);
        if disc < 0 {
            None
        } else {
            let sq = sqrt_spec(disc);
            let two_a = add_spec(a, a);
            let lo = div_spec(sub_spec(sub_spec(0, b), sq), two_a);
            let hi = div_spec(add_spec(sub_spec(0, b), sq), two_a);
            let t0 = if lo > hi {
                hi
            } else {
                lo
            };
            let t1 = if lo > hi {
                lo
            } else {
                hi
            };
            let y0 = add_spec(r.origin.y as int, mul_spec(t0, r.direction.y as int));
            let y1 = add_spec(r.origin.y as int, mul_spec(t1, r.direction.y as int));
            let side0: Seq<Intersection> = if minimum < y0 < maximum {
                seq![Intersection { t: t0 as i64, object: s }]
            } else {
                Seq::empty()
            };
            let side1: Seq<Intersection> = if minimum < y1 < maximum {
                seq![Intersection { t: t1 as i64, object: s }]
            } else {
                Seq::empty()
            };
            Some(side0 + side1 + caps_spec(s, r, minimum, maximum, closed))
        }
    }
}

/// Local-space intersections of any shape.
pub open spec fn local_intersect_spec(s: Shape, r: Ray) -> Option<Seq<Intersection>> {
    match s.kind {
        ShapeKind::Sphere => sphere_intersect_spec(s, r),
        ShapeKind::Plane => plane_intersect_spec(s, r),
        ShapeKind::Cube => cube_intersect_spec(s, r),
        ShapeKind::Cylinder { minimum, maximum, closed } => cylinder_intersect_spec(
            s,
            r,
            minimum as int,
            maximum as int,
            closed,
        ),
    }
}

/// Local-space outward normal of any shape.
pub open spec fn local_normal_spec(s: Shape, p: Point) -> Vector {
    match s.kind {
        ShapeKind::Sphere => normalize_spec(Vector { x: p.x, y: p.y, z: p.z }),
        ShapeKind::Plane => Vector { x: 0i64, y: UNIT, z: 0i64 },
        ShapeKind::Cube => {
            let ax = abs_spec(p.x as int);
            let ay = abs_spec(p.y as int);
            let az = abs_spec(p.z as int);
            if ax >= ay && ax >= az {
                Vector { x: p.x, y: 0i64, z: 0i64 }
            } else if ay >= az {
                Vector { x: 0i64, y: p.y, z: 0i64 }
            } else {
                Vector { x: 0i64, y: 0i64, z: p.z }
            }
        },
        ShapeKind::Cylinder { minimum, maximum, closed } => {
            let dist = add_spec(mul_spec(p.x as int, p.x as int), mul_spec(p.z as int, p.z as int));
            if dist < UNIT && p.y >= sub_spec(maximum as int, EPSILON as int) {
                Vector { x: 0i64, y: UNIT, z: 0i64 }
            } else if dist < UNIT && p.y <= add_spec(minimum as int, EPSILON as int) {
                Vector { x: 0i64, y: (-UNIT) as i64, z: 0i64 }
            } else {
                Vector { x: p.x, y: 0i64, z: p.z }
            }
        },
    }
}

/// World-space intersections: the ray is pulled into local space first.
pub open spec fn intersect_spec(s: Shape, r: Ray) -> Option<Seq<Intersection>> {
    local_intersect_spec(s, ray_transform_spec(r, s.transform.inverse))
}

/// World-space normal: local normal pushed through the transposed inverse,
/// then normalized.
pub open spec fn get_normal_spec(s: Shape, world: Point) -> Vector {
    let local_point = apply_point_spec(s.transform.inverse, world);
    let local_normal = local_normal_spec(s, local_point);
    normalize_spec(apply_vector_spec(transpose_spec(s.transform.inverse), local_normal))
}

impl Shape {
    pub fn local_intersect(&self, ray: &Ray) -> (r: Option<Vec<Intersection>>)
        requires
            shape_ok(*self),
            ray_ok(*ray),
        ensures
            match r {
                Some(v) => {
                    &&& local_intersect_spec(*self, *ray) == Some(v@)
                    &&& all_ok(v@)
                },
                None => local_intersect_spec(*self, *ray) is None,
            },
    {
        match self.kind {
            ShapeKind::Sphere => {
                let to_ray = Vector { x: ray.origin.x, y: ray.origin.y, z: ray.origin.z };
                let a: i64 = ray.direction.dot(&ray.direction);
                if a == 0 {
                    return None;
                }
                proof {
                    crate::tuple::lemma_self_dot_nonneg(ray.direction);
                }
                let dv: i64 = ray.direction.dot(&to_ray);
                let b: i64 = fx_add(dv, dv);
                let c: i64 = fx_sub(to_ray.dot(&to_ray), UNIT);
                let ac: i64 = fx_mul(a, c);
                let four_ac: i64 = fx_add(fx_add(ac, ac), fx_add(ac, ac));
                let disc: i64 = fx_sub(fx_mul(b, b), four_ac);
                if disc < 0 {
                    return None;
                }
                let sq: i64 = fx_sqrt(disc);
                let two_a: i64 = fx_add(a, a);
                let t1: i64 = fx_div(fx_sub(fx_sub(0, b), sq), two_a);
                let t2: i64 = fx_div(fx_add(fx_sub(0, b), sq), two_a);
                let out: Vec<Intersection> = vec![
                    Intersection { t: t1, object: *self },
                    Intersection { t: t2, object: *self },
                ];
                proof {
                    assert(out@ =~= sphere_intersect_spec(*self, *ray).unwrap());
                }
                Some(out)
            },
            ShapeKind::Plane => {
                let dy: i64 = ray.direction.y;
                let mag: i64 = if dy >= 0 {
                    dy
                } else {
                    -dy
                };
                if mag < EPSILON {
                    return None;
                }
                let t: i64 = fx_div(fx_sub(0, ray.origin.y), dy);
                let out: Vec<Intersection> = vec![Intersection { t, object: *self }];
                proof {
                    assert(out@ =~= plane_intersect_spec(*self, *ray).unwrap());
                }
                Some(out)
            },
            ShapeKind::Cube => {
                let xt = check_axis(ray.origin.x, ray.direction.x);
                let yt = check_axis(ray.origin.y, ray.direction.y);
                let zt = check_axis(ray.origin.z, ray.direction.z);
                let tmin: i64 = if xt.0 >= yt.0 && xt.0 >= zt.0 {
                    xt.0
                } else if yt.0 >= zt.0 {
                    yt.0
                } else {
                    zt.0
                };
                let tmax: i64 = if xt.1 <= yt.1 && xt.1 <= zt.1 {
                    xt.1
                } else if yt.1 <= zt.1 {
                    yt.1
                } else {
                    zt.1
                };
                if tmin > tmax {
                    return None;
                }
                let out: Vec<Intersection> = vec![
                    Intersection { t: tmin, object: *self },
                    Intersection { t: tmax, object: *self },
                ];
                proof {
                    assert(out@ =~= cube_intersect_spec(*self, *ray).unwrap());
                }
                Some(out)
            },
            ShapeKind::Cylinder { minimum, maximum, closed } => {
                let a: i64 = fx_add(
                    fx_mul(ray.direction.x, ray.direction.x),
                    fx_mul(ray.direction.z, ray.direction.z),
                );
                proof {
                    crate::tuple::lemma_square_nonneg(ray.direction.x as int);
                    crate::tuple::lemma_square_nonneg(ray.direction.z as int);
                }
                if a < EPSILON {
                    if closed {
                        let mut out: Vec<Intersection> = Vec::new();
                        self.push_caps(ray, minimum, maximum, closed, &mut out);
                        proof {
                            assert(out@ =~= caps_spec(
                                *self,
                                *ray,
                                minimum as int,
                                maximum as int,
                                closed,
                            ));
                        }
                        return Some(out);
                    }
                    return None;
                }
                let mx: i64 = fx_mul(ray.origin.x, ray.direction.x);
                let mz: i64 = fx_mul(ray.origin.z, ray.direction.z);
                let b: i64 = fx_add(fx_add(mx, mx), fx_add(mz, mz));
                let c: i64 = fx_sub(
                    fx_add(
                        fx_mul(ray.origin.x, ray.origin.x),
                        fx_mul(ray.origin.z, ray.origin.z),
                    ),
                    UNIT,
                );
                let ac: i64 = fx_mul(a, c);
                let four_ac: i64 = fx_add(fx_add(ac, ac), fx_add(ac, ac));
                let disc: i64 = fx_sub(fx_mul(b, b), four_ac);
                if disc < 0 {
                    return None;
                }
                let sq: i64 = fx_sqrt(disc);
                let two_a: i64 = fx_add(a, a);
                let lo: i64 = fx_div(fx_sub(fx_sub(0, b), sq), two_a);
                let hi: i64 = fx_div(fx_add(fx_sub(0, b), sq), two_a);
                let t0: i64 = if lo > hi {
                    hi
                } else {
                    lo
                };
                let t1: i64 = if lo > hi {
                    lo
                } else {
                    hi
                };
                let mut out: Vec<Intersection> = Vec::new();
                let y0: i64 = fx_add(ray.origin.y, fx_mul(t0, ray.direction.y));
                if minimum < y0 && y0 < maximum {
                    out.push(Intersection { t: t0, object: *self });
                }
                let y1: i64 = fx_add(ray.origin.y, fx_mul(t1, ray.direction.y));
                if minimum < y1 && y1 < maximum {
                    out.push(Intersection { t: t1, object: *self });
                }
                self.push_caps(ray, minimum, maximum, closed, &mut out);
                proof {
                    assert(out@ =~= cylinder_intersect_spec(
                        *self,
                        *ray,
                        minimum as int,
                        maximum as int,
                        closed,
                    ).unwrap());
                }
                Some(out)
            },
        }
    }

    /// Append the cap hits of a closed cylinder to `out`.
    fn push_caps(
        &self,
        ray: &Ray,
        minimum: i64,
        maximum: i64,
        closed: bool,
        out: &mut Vec<Intersection>,
    )
        requires
            shape_ok(*self),
            ray_ok(*ray),
            fx_ok(minimum as int),
            fx_ok(maximum as int),
            all_ok(old(out)@),
        ensures
            final(out)@ == old(out)@ + caps_spec(
                *self,
                *ray,
                minimum as int,
                maximum as int,
                closed,
            ),
            all_ok(final(out)@),
    {
        let dy: i64 = ray.direction.y;
        let mag: i64 = if dy >= 0 {
            dy
        } else {
            -dy
        };
        if !closed || mag < EPSILON {
            proof {
                assert(out@ =~= old(out)@ + caps_spec(
                    *self,
                    *ray,
                    minimum as int,
                    maximum as int,
                    closed,
                ));
            }
            return ;
        }
        let tl: i64 = fx_div(fx_sub(minimum, ray.origin.y), dy);
        if self.check_cap(ray, tl) {
            out.push(Intersection { t: tl, object: *self });
        }
        let tu: i64 = fx_div(fx_sub(maximum, ray.origin.y), dy);
        if self.check_cap(ray, tu) {
            out.push(Intersection { t: tu, object: *self });
        }
        proof {
            assert(out@ =~= old(out)@ + caps_spec(
                *self,
                *ray,
                minimum as int,
                maximum as int,
                closed,
            ));
        }
    }

    fn check_cap(&self, ray: &Ray, t: i64) -> (r: bool)
        requires
            ray_ok(*ray),
            fx_ok(t as int),
        ensures
            r == check_cap_spec(*ray, t as int),
    {
        let x: i64 = fx_add(ray.origin.x, fx_mul(t, ray.direction.x));
        let z: i64 = fx_add(ray.origin.z, fx_mul(t, ray.direction.z));
        fx_add(fx_mul(x, x), fx_mul(z, z)) <= UNIT
    }

    pub fn local_normal(&self, p: &Point) -> (r: Vector)
        requires
            shape_ok(*self),
            point_ok(*p),
        ensures
            r == local_normal_spec(*self, *p),
            vec_ok(r),
    {
        match self.kind {
            ShapeKind::Sphere => Vector { x: p.x, y: p.y, z: p.z }.normalize(),
            ShapeKind::Plane => Vector { x: 0, y: UNIT, z: 0 },
            ShapeKind::Cube => {
                let ax: i64 = if p.x >= 0 {
                    p.x
                } else {
                    -p.x
                };
                let ay: i64 = if p.y >= 0 {
                    p.y
                } else {
                    -p.y
                };
                let az: i64 = if p.z >= 0 {
                    p.z
                } else {
                    -p.z
                };
                if ax >= ay && ax >= az {
                    Vector { x: p.x, y: 0, z: 0 }
                } else if ay >= az {
                    Vector { x: 0, y: p.y, z: 0 }
                } else {
                    Vector { x: 0, y: 0, z: p.z }
                }
            },
            ShapeKind::Cylinder { minimum, maximum, closed } => {
                let dist: i64 = fx_add(fx_mul(p.x, p.x), fx_mul(p.z, p.z));
                if dist < UNIT && p.y >= fx_sub(maximum, EPSILON) {
                    Vector { x: 0, y: UNIT, z: 0 }
                } else if dist < UNIT && p.y <= fx_add(minimum, EPSILON) {
                    Vector { x: 0, y: -UNIT, z: 0 }
                } else {
                    Vector { x: p.x, y: 0, z: p.z }
                }
            },
        }
    }

    pub fn intersect(&self, ray: &Ray) -> (r: Option<Vec<Intersection>>)
        requires
            shape_ok(*self),
            ray_ok(*ray),
        ensures
            match r {
                Some(v) => {
                    &&& intersect_spec(*self, *ray) == Some(v@)
                    &&& all_ok(v@)
                },
                None => intersect_spec(*self, *ray) is None,
            },
    {
        let local_ray: Ray = ray.transform(&self.transform.inverse);
        self.local_intersect(&local_ray)
    }

    pub fn get_normal(&self, world: &Point) -> (r: Vector)
        requires
            shape_ok(*self),
            point_ok(*world),
        ensures
            r == get_normal_spec(*self, *world),
            vec_ok(r),
    {
        let local_point: Point = self.transform.inverse.times_point(world);
        let local_normal: Vector = self.local_normal(&local_point);
        let world_normal: Vector = self.transform.inverse.transpose().times_vector(&local_normal);
        world_normal.normalize()
    }

    pub fn get_material(&self) -> (m: Material)
        ensures
            m == self.material,
    {
        self.material
    }

    pub fn get_transform(&self) -> (t: Transform)
        ensures
            t == self.transform,
    {
        self.transform
    }

    pub fn get_id(&self) -> (i: u128)
        ensures
            i == self.id,
    {
        self.id
    }

    /// Builder: replace the transform pair, keeping everything else.
    pub fn set_transform(self, t: Transform) -> (r: Shape)
        ensures
            r == (Shape { transform: t, ..self }),
    {
        Shape { transform: t, ..self }
    }

    /// Builder: replace a cylinder's bounds; any other kind is unchanged.
    pub fn set_bounds(self, new_min: i64, new_max: i64) -> (r: Shape)
        ensures
            r == (Shape {
                kind: match self.kind {
                    ShapeKind::Cylinder { minimum, maximum, closed } => ShapeKind::Cylinder {
                        minimum: new_min,
                        maximum: new_max,
                        closed,
                    },
                    k => k,
                },
                ..self
            }),
    {
        match self.kind {
            ShapeKind::Cylinder { minimum: _, maximum: _, closed } => Shape {
                kind: ShapeKind::Cylinder { minimum: new_min, maximum: new_max, closed },
                ..self
            },
            _ => self,
        }
    }

    /// Builder: open or close a cylinder's caps; any other kind unchanged.
    pub fn set_closed(self, new_closed: bool) -> (r: Shape)
        ensures
            r == (Shape {
                kind: match self.kind {
                    ShapeKind::Cylinder { minimum, maximum, closed } => ShapeKind::Cylinder {
                        minimum,
                        maximum,
                        closed: new_closed,
                    },
                    k => k,
                },
                ..self
            }),
    {
        match self.kind {
            ShapeKind::Cylinder { minimum, maximum, closed: _ } => Shape {
                kind: ShapeKind::Cylinder { minimum, maximum, closed: new_closed },
                ..self
            },
            _ => self,
        }
    }
}

fn shape_with(kind: ShapeKind, material: Material) -> (s: Shape)
    requires
        kind_ok(kind),
        material_ok(material),
    ensures
        s.kind == kind,
        s.material == material,
        s.transform == (Transform {
            direct: crate::matrix::identity_spec(),
            inverse: crate::matrix::identity_spec(),
        }),
        shape_ok(s),
{
    Shape { id: fresh_id(), kind, transform: Transform::identity(), material }
}

pub struct Sphere;

pub struct Plane;

pub struct Cube;

pub struct Cylinder;

impl Sphere {
    pub fn static_default() -> (s: Shape)
        ensures
            s.kind == ShapeKind::Sphere,
            s.material == default_material_spec(),
            s.transform.direct == crate::matrix::identity_spec(),
            s.transform.inverse == crate::matrix::identity_spec(),
            shape_ok(s),
    {
        shape_with(ShapeKind::Sphere, Material::default())
    }

    pub fn default_with_material(material: Material) -> (s: Shape)
        requires
            material_ok(material),
        ensures
            s.kind == ShapeKind::Sphere,
            s.material == material,
            s.transform.direct == crate::matrix::identity_spec(),
            s.transform.inverse == crate::matrix::identity_spec(),
            shape_ok(s),
    {
        shape_with(ShapeKind::Sphere, material)
    }

    /// A unit sphere of glass: fully transparent, refractive index 1.5.
    pub fn static_glass_sphere() -> (s: Shape)
        ensures
            s.kind == ShapeKind::Sphere,
            s.material == (Material {
                transparency: UNIT,
                refractive_index: 15_000_000i64,
                ..default_material_spec()
            }),
            s.transform.direct == crate::matrix::identity_spec(),
            s.transform.inverse == crate::matrix::identity_spec(),
            shape_ok(s),
    {
        let material = Material {
            transparency: UNIT,
            refractive_index: 15_000_000,
            ..Material::default()
        };
        shape_with(ShapeKind::Sphere, material)
    }
}

impl Plane {
    pub fn static_default() -> (s: Shape)
        ensures
            s.kind == ShapeKind::Plane,
            s.material == default_material_spec(),
            s.transform.direct == crate::matrix::identity_spec(),
            s.transform.inverse == crate::matrix::identity_spec(),
            shape_ok(s),
    {
        shape_with(ShapeKind::Plane, Material::default())
    }

    pub fn default_with_material(material: Material) -> (s: Shape)
        requires
            material_ok(material),
        ensures
            s.kind == ShapeKind::Plane,
            s.material == material,
            s.transform.direct == crate::matrix::identity_spec(),
            s.transform.inverse == crate::matrix::identity_spec(),
            shape_ok(s),
    {
        shape_with(ShapeKind::Plane, material)
    }
}

impl Cube {
    pub fn static_default() -> (s: Shape)
        ensures
            s.kind == ShapeKind::Cube,
            s.material == default_material_spec(),
            s.transform.direct == crate::matrix::identity_spec(),
            s.transform.inverse == crate::matrix::identity_spec(),
            shape_ok(s),
    {
        shape_with(ShapeKind::Cube, Material::default())
    }

    pub fn default_with_material(material: Material) -> (s: Shape)
        requires
            material_ok(material),
        ensures
            s.kind == ShapeKind::Cube,
            s.material == material,
            s.transform.direct == crate::matrix::identity_spec(),
            s.transform.inverse == crate::matrix::identity_spec(),
            shape_ok(s),
    {
        shape_with(ShapeKind::Cube, material)
    }
}

impl Cylinder {
    /// An infinite open cylinder: the bounds sit at the saturation limits.
    pub fn static_default() -> (s: Shape)
        ensures
            s.kind == (ShapeKind::Cylinder { minimum: (-LIMIT) as i64, maximum: LIMIT, closed: false }),
            s.material == default_material_spec(),
            s.transform.direct == crate::matrix::identity_spec(),
            s.transform.inverse == crate::matrix::identity_spec(),
            shape_ok(s),
    {
        shape_with(
            ShapeKind::Cylinder { minimum: -LIMIT, maximum: LIMIT, closed: false },
            Material::default(),
        )
    }

    pub fn default_with_material(material: Material) -> (s: Shape)
        requires
            material_ok(material),
        ensures
            s.kind == (ShapeKind::Cylinder { minimum: (-LIMIT) as i64, maximum: LIMIT, closed: false }),
            s.material == material,
            s.transform.direct == crate::matrix::identity_spec(),
            s.transform.inverse == crate::matrix::identity_spec(),
            shape_ok(s),
    {
        shape_with(ShapeKind::Cylinder { minimum: -LIMIT, maximum: LIMIT, closed: false }, material)
    }
}

/// Fold one intersection into the best hit so far: a negative t never
/// counts, and an earlier minimal t survives a tie.
pub open spec fn hit_combine(prev: Option<Intersection>, x: Intersection) -> Option<Intersection> {
    if x.t < 0 {
        prev
    } else {
        match prev {
            None => Some(x),
            Some(y) => if x.t < y.t {
                Some(x)
            } else {
                Some(y)
            },
        }
    }
}

/// The hit of a list: the first intersection with the smallest
/// non-negative t, None when every t is negative.
pub open spec fn hit_spec(s: Seq<Intersection>) -> Option<Intersection>
    decreases s.len(),
{
    if s.len() == 0 {
        None
    } else {
        hit_combine(hit_spec(s.drop_last()), s.last())
    }
}

impl Intersection {
    pub fn get_hit(hits: &Vec<Intersection>) -> (r: Option<Intersection>)
        ensures
            r == hit_spec(hits@),
    {
        let mut best: Option<Intersection> = None;
        let mut k: usize = 0;
        while k < hits.len()
            invariant
                0 <= k <= hits@.len(),
                best == hit_spec(hits@.take(k as int)),
            decreases hits@.len() - k,
        {
            let x: Intersection = hits[k];
            let better: bool = if x.t < 0 {
                false
            } else {
                match best {
                    None => true,
                    Some(y) => x.t < y.t,
                }
            };
            proof {
                assert(hits@.take(k + 1).drop_last() =~= hits@.take(k as int));
                assert(hits@.take(k + 1).last() == hits@[k as int]);
            }
            if better {
                best = Some(x);
            }
            k = k + 1;
        }
        proof {
            assert(hits@.take(hits@.len() as int) =~= hits@);
        }
        best
    }
}

/// The EPSILON offset of one normal component, rounded away from zero so
/// that a nonzero component always moves the point by at least one unit.
pub open spec fn eps_off_spec(n: int) -> int {
    if n == 0 {
        0int
    } else {
        let m = mul_spec(abs_spec(n), EPSILON as int);
        let m1 = if m == 0 {
            1int
        } else {
            m
        };
        if n > 0 {
            m1
        } else {
            -m1
        }
    }
}

/// The EPSILON offset vector along a normal.
pub open spec fn eps_vec_spec(n: Vector) -> Vector {
    Vector {
        x: eps_off_spec(n.x as int) as i64,
        y: eps_off_spec(n.y as int) as i64,
        z: eps_off_spec(n.z as int) as i64,
    }
}

fn eps_off(n: i64) -> (r: i64)
    requires
        fx_ok(n as int),
    ensures
        r == eps_off_spec(n as int),
        fx_ok(r as int),
{
    if n == 0 {
        return 0;
    }
    let m: i64 = if n >= 0 {
        fx_mul(n, EPSILON)
    } else {
        fx_mul(-n, EPSILON)
    };
    proof {
        crate::fx::lemma_mul_nonneg(abs_spec(n as int), EPSILON as int);
    }
    let m1: i64 = if m == 0 {
        1
    } else {
        m
    };
    if n > 0 {
        m1
    } else {
        -m1
    }
}

fn eps_vec(n: &Vector) -> (r: Vector)
    requires
        vec_ok(*n),
    ensures
        r == eps_vec_spec(*n),
        vec_ok(r),
{
    Vector { x: eps_off(n.x), y: eps_off(n.y), z: eps_off(n.z) }
}

/// The refractive index of the medium a container stack stands for:
/// vacuum when empty, else the topmost object's material.
pub open spec fn stack_index(c: Seq<Shape>) -> int {
    if c.len() == 0 {
        UNIT as int
    } else {
        c.last().material.refractive_index as int
    }
}

pub open spec fn stack_contains_id(c: Seq<Shape>, id: u128) -> bool
    decreases c.len(),
{
    if c.len() == 0 {
        false
    } else {
        c[0].id == id || stack_contains_id(c.drop_first(), id)
    }
}

/// Remove the first element carrying the given id.
pub open spec fn stack_remove_id(c: Seq<Shape>, id: u128) -> Seq<Shape>
    decreases c.len(),
{
    if c.len() == 0 {
        c
    } else if c[0].id == id {
        c.drop_first()
    } else {
        seq![c[0]] + stack_remove_id(c.drop_first(), id)
    }
}

/// Push an object the ray is entering; pop it when the ray leaves.
pub open spec fn stack_toggle(c: Seq<Shape>, obj: Shape) -> Seq<Shape> {
    if stack_contains_id(c, obj.id) {
        stack_remove_id(c, obj.id)
    } else {
        c.push(obj)
    }
}

/// The (n1, n2) pair of the refraction-stack walk: n1 is read just before
/// the hit toggles its object, n2 just after; (0, 0) when the hit is
/// missing from the list.
pub open spec fn refraction_spec(s: Seq<Intersection>, h: Intersection, c: Seq<Shape>) -> (
    int,
    int,
)
    decreases s.len(),
{
    if s.len() == 0 {
        (0int, 0int)
    } else {
        let i = s[0];
        if same_hit(i, h) {
            (stack_index(c), stack_index(stack_toggle(c, i.object)))
        } else {
            refraction_spec(s.drop_first(), h, stack_toggle(c, i.object))
        }
    }
}

pub open spec fn hit_in(s: Seq<Intersection>, h: Intersection) -> bool {
    exists|k: int| 0 <= k < s.len() && same_hit(#[trigger] s[k], h)
}

pub open spec fn shapes_ok(c: Seq<Shape>) -> bool {
    forall|k: int| 0 <= k < c.len() ==> #[trigger] shape_ok(c[k])
}

proof fn lemma_remove_preserves_ok(c: Seq<Shape>, id: u128)
    requires
        shapes_ok(c),
    ensures
        shapes_ok(stack_remove_id(c, id)),
        stack_remove_id(c, id).len() <= c.len(),
    decreases c.len(),
{
    if c.len() == 0 {
    } else if c[0].id == id {
        assert(forall|k: int|
            0 <= k < c.drop_first().len() ==> #[trigger] shape_ok(c.drop_first()[k]));
    } else {
        assert(shapes_ok(c.drop_first()));
        lemma_remove_preserves_ok(c.drop_first(), id);
        let r = seq![c[0]] + stack_remove_id(c.drop_first(), id);
        assert(forall|k: int| 0 <= k < r.len() ==> #[trigger] shape_ok(r[k]));
    }
}

/// The refraction pair of a well-formed list that does contain the hit is
/// a pair of genuine refractive indices: each at least 1.
pub proof fn lemma_refraction_in_range(s: Seq<Intersection>, h: Intersection, c: Seq<Shape>)
    requires
        all_ok(s),
        shapes_ok(c),
        hit_in(s, h),
    ensures
        UNIT <= refraction_spec(s, h, c).0,
        fx_ok(refraction_spec(s, h, c).0),
        UNIT <= refraction_spec(s, h, c).1,
        fx_ok(refraction_spec(s, h, c).1),
    decreases s.len(),
{
    let i = s[0];
    assert(intersection_ok(i));
    if same_hit(i, h) {
        let c2 = stack_toggle(c, i.object);
        if stack_contains_id(c, i.object.id) {
            lemma_remove_preserves_ok(c, i.object.id);
        } else {
            assert(shapes_ok(c.push(i.object)));
        }
        assert(shapes_ok(c2));
        if c2.len() > 0 {
            assert(shape_ok(c2.last()));
        }
        if c.len() > 0 {
            assert(shape_ok(c.last()));
        }
    } else {
        let c2 = stack_toggle(c, i.object);
        if stack_contains_id(c, i.object.id) {
            lemma_remove_preserves_ok(c, i.object.id);
        } else {
            assert(shapes_ok(c.push(i.object)));
        }
        let k = choose|k: int| 0 <= k < s.len() && same_hit(#[trigger] s[k], h);
        assert(k >= 1);
        assert(s.drop_first()[k - 1] == s[k]);
        assert(hit_in(s.drop_first(), h));
        assert(all_ok(s.drop_first()));
        lemma_refraction_in_range(s.drop_first(), h, c2);
    }
}

/// Everything precomputed for one hit: the surface point, the corrected
/// normal, the offset points, the reflection vector and the (n1, n2) pair.
#[derive(Clone, Copy, Debug)]
pub struct PrecomputedHit {
    pub intersection: Intersection,
    pub point: Point,
    pub eye: Vector,
    pub normal: Vector,
    pub inside: bool,
    pub over_point: Point,
    pub under_point: Point,
    pub reflected_vector: Vector,
    pub n1: i64,
    pub n2: i64,
}

pub open spec fn comps_ok(c: PrecomputedHit) -> bool {
    intersection_ok(c.intersection) && point_ok(c.point) && vec_ok(c.eye) && vec_ok(c.normal)
        && point_ok(c.over_point) && point_ok(c.under_point) && vec_ok(c.reflected_vector) && UNIT
        <= c.n1 && fx_ok(c.n1 as int) && UNIT <= c.n2 && fx_ok(c.n2 as int)
}

/// Mirror of the hit precomputation.
pub open spec fn precompute_spec(h: Intersection, r: Ray, xs: Seq<Intersection>) -> PrecomputedHit {
    let point = crate::ray::position_spec(r, h.t as int);
    let eye = crate::tuple::vec_negate_spec(r.direction);
    let raw = get_normal_spec(h.object, point);
    let inside = dot_spec(raw, eye) < 0;
    let normal = if inside {
        crate::tuple::vec_negate_spec(raw)
    } else {
        raw
    };
    let offset = eps_vec_spec(normal);
    let pair = refraction_spec(xs, h, Seq::empty());
    PrecomputedHit {
        intersection: h,
        point,
        eye,
        normal,
        inside,
        over_point: crate::tuple::point_plus_spec(point, offset),
        under_point: crate::tuple::point_minus_vec_spec(point, offset),
        reflected_vector: crate::tuple::reflect_spec(r.direction, normal),
        n1: pair.0 as i64,
        n2: pair.1 as i64,
    }
}

impl Intersection {
    /// Walk the sorted intersection list and read off the refractive
    /// indices of the media the ray leaves (n1) and enters (n2) at this hit.
    fn calculate_refractive_indices(&self, xs: &Vec<Intersection>) -> (r: (i64, i64))
        requires
            all_ok(xs@),
            hit_in(xs@, *self),
        ensures
            (r.0 as int, r.1 as int) == refraction_spec(xs@, *self, Seq::<Shape>::empty()),
            UNIT <= r.0,
            fx_ok(r.0 as int),
            UNIT <= r.1,
            fx_ok(r.1 as int),
    {
        let mut containers: Vec<Shape> = Vec::new();
        let mut k: usize = 0;
        proof {
            assert(xs@.skip(0) =~= xs@);
        }
        while k < xs.len()
            invariant
                0 <= k <= xs@.len(),
                shapes_ok(containers@),
                all_ok(xs@),
                hit_in(xs@.skip(k as int), *self),
                refraction_spec(xs@.skip(k as int), *self, containers@) == refraction_spec(
                    xs@,
                    *self,
                    Seq::<Shape>::empty(),
                ),
            decreases xs@.len() - k,
        {
            let i: Intersection = xs[k];
            proof {
                assert(xs@.skip(k as int)[0] == xs@[k as int]);
                assert(intersection_ok(i));
            }
            if i.t == self.t && i.object.id == self.object.id {
                let ghost pre = containers@;
                let n1: i64 = if containers.len() == 0 {
                    UNIT
                } else {
                    containers[containers.len() - 1].material.refractive_index
                };
                Self::toggle_container(&mut containers, &i.object);
                let n2: i64 = if containers.len() == 0 {
                    UNIT
                } else {
                    containers[containers.len() - 1].material.refractive_index
                };
                proof {
                    let tail = xs@.skip(k as int);
                    assert(same_hit(tail[0], *self));
                    assert(n1 as int == stack_index(pre));
                    assert(containers@ == stack_toggle(pre, i.object));
                    assert(n2 as int == stack_index(containers@));
                    assert(refraction_spec(tail, *self, pre) == (n1 as int, n2 as int));
                    assert(all_ok(tail)) by {
                        assert(forall|j: int|
                            0 <= j < tail.len() ==> tail[j] == xs@[k + j]
                                && #[trigger] intersection_ok(tail[j]));
                    };
                    lemma_refraction_in_range(tail, *self, pre);
                }
                return (n1, n2);
            }
            let ghost pre = containers@;
            Self::toggle_container(&mut containers, &i.object);
            proof {
                let tail = xs@.skip(k as int);
                assert(!same_hit(tail[0], *self));
                assert(tail.drop_first() =~= xs@.skip(k + 1));
                assert(refraction_spec(tail, *self, pre) == refraction_spec(
                    xs@.skip(k + 1),
                    *self,
                    stack_toggle(pre, i.object),
                ));
                let j = choose|j: int| 0 <= j < tail.len() && same_hit(#[trigger] tail[j], *self);
                assert(j >= 1);
                assert(xs@.skip(k + 1)[j - 1] == tail[j]);
            }
            k = k + 1;
        }
        proof {
            assert(false);
        }
        (UNIT, UNIT)
    }

    /// Remove the first container with the object's id, or push the object.
    fn toggle_container(containers: &mut Vec<Shape>, obj: &Shape)
        requires
            shapes_ok(old(containers)@),
            shape_ok(*obj),
        ensures
            final(containers)@ == stack_toggle(old(containers)@, *obj),
            shapes_ok(final(containers)@),
    {
        let mut k: usize = 0;
        while k < containers.len()
            invariant
                0 <= k <= containers@.len(),
                shapes_ok(containers@),
                shape_ok(*obj),
                containers@ == old(containers)@,
                forall|j: int| 0 <= j < k ==> #[trigger] containers@[j].id != obj.id,
            decreases containers@.len() - k,
        {
            if containers[k].id == obj.id {
                proof {
                    lemma_remove_at(containers@, obj.id, k as int);
                    lemma_remove_preserves_ok(containers@, obj.id);
                }
                containers.remove(k);
                return ;
            }
            k = k + 1;
        }
        proof {
            lemma_no_id(containers@, obj.id);
        }
        containers.push(*obj);
    }
}

/// A list whose every id differs from `id` does not contain `id`.
proof fn lemma_no_id(c: Seq<Shape>, id: u128)
    requires
        forall|j: int| 0 <= j < c.len() ==> #[trigger] c[j].id != id,
    ensures
        !stack_contains_id(c, id),
    decreases c.len(),
{
    if c.len() > 0 {
        assert(forall|j: int|
            0 <= j < c.drop_first().len() ==> #[trigger] c.drop_first()[j].id != id);
        lemma_no_id(c.drop_first(), id);
    }
}

/// Removing the first occurrence of `id`, found at index k, is removal at k.
pub proof fn lemma_remove_at(c: Seq<Shape>, id: u128, k: int)
    requires
        0 <= k < c.len(),
        c[k].id == id,
        forall|j: int| 0 <= j < k ==> #[trigger] c[j].id != id,
    ensures
        stack_contains_id(c, id),
        stack_remove_id(c, id) =~= c.remove(k),
    decreases k,
{
    if k == 0 {
        assert(stack_remove_id(c, id) == c.drop_first());
        assert(c.drop_first() =~= c.remove(0));
    } else {
        assert(c.drop_first()[k - 1] == c[k]);
        assert(forall|j: int|
            0 <= j < k - 1 ==> #[trigger] c.drop_first()[j].id != id);
        lemma_remove_at(c.drop_first(), id, k - 1);
        assert(seq![c[0]] + stack_remove_id(c.drop_first(), id) =~= c.remove(k));
    }
}

impl Intersection {
    /// Precompute the surface geometry and refraction pair for this hit.
    pub fn precompute_hit(self, ray: &Ray, xs: &Vec<Intersection>) -> (r: PrecomputedHit)
        requires
            intersection_ok(self),
            ray_ok(*ray),
            all_ok(xs@),
            hit_in(xs@, self),
        ensures
            r == precompute_spec(self, *ray, xs@),
            comps_ok(r),
    {
        let point: Point = ray.position(self.t);
        let eye: Vector = ray.direction.negate();
        let raw: Vector = self.object.get_normal(&point);
        let inside: bool = raw.dot(&eye) < 0;
        let normal: Vector = if inside {
            raw.negate()
        } else {
            raw
        };
        let offset: Vector = eps_vec(&normal);
        let over_point: Point = point.plus(&offset);
        let under_point: Point = point.minus_vec(&offset);
        let reflected: Vector = ray.direction.reflect(&normal);
        let pair: (i64, i64) = self.calculate_refractive_indices(xs);
        PrecomputedHit {
            intersection: self,
            point,
            eye,
            normal,
            inside,
            over_point,
            under_point,
            reflected_vector: reflected,
            n1: pair.0,
            n2: pair.1,
        }
    }
}

/// The r0 + (1 - r0) * (1 - cos)^5 core of the Schlick formula.
pub open spec fn schlick_base_spec(n1: int, n2: int, cos: int) -> int {
    let r0 = mul_spec(div_spec(n1 - n2, add_spec(n1, n2)), div_spec(n1 - n2, add_spec(n1, n2)));
    add_spec(r0, mul_spec(sub_spec(UNIT as int, r0), crate::fx::pow_spec(sub_spec(UNIT as int, cos), 5)))
}

/// Mirror of the Schlick approximation, the incidence cosine clamped into
/// [0, 1] before use; 1 under total internal reflection.
pub open spec fn schlick_spec(c: PrecomputedHit) -> int {
    let cos0 = clamp01_spec(dot_spec(c.eye, c.normal));
    let n1 = c.n1 as int;
    let n2 = c.n2 as int;
    if n1 > n2 {
        let n = div_spec(n1, n2);
        let sin2t = mul_spec(mul_spec(n, n), sub_spec(UNIT as int, mul_spec(cos0, cos0)));
        if sin2t > UNIT {
            UNIT as int
        } else {
            schlick_base_spec(n1, n2, sqrt_spec(sub_spec(UNIT as int, sin2t)))
        }
    } else {
        schlick_base_spec(n1, n2, cos0)
    }
}

pub open spec fn clamp01_spec(x: int) -> int {
    if x < 0 {
        0int
    } else if x > UNIT {
        UNIT as int
    } else {
        x
    }
}

impl PrecomputedHit {
    /// The Schlick reflectance: always within [0, 1], and exactly 1 under
    /// total internal reflection.
    pub fn schlick_reflectance(&self) -> (r: i64)
        requires
            comps_ok(*self),
        ensures
            r == schlick_spec(*self),
            0 <= r <= UNIT,
    {
        let d: i64 = self.eye.dot(&self.normal);
        let cos0: i64 = if d < 0 {
            0
        } else if d > UNIT {
            UNIT
        } else {
            d
        };
        let n1: i64 = self.n1;
        let n2: i64 = self.n2;
        let mut cos: i64 = cos0;
        if n1 > n2 {
            let n: i64 = fx_div(n1, n2);
            proof {
                crate::fx::lemma_div_nonneg(n1 as int, n2 as int);
            }
            let n_sq: i64 = fx_mul(n, n);
            proof {
                crate::fx::lemma_mul_nonneg(n as int, n as int);
                crate::fx::lemma_mul_range01(cos0 as int, cos0 as int);
            }
            let one_minus: i64 = fx_sub(UNIT, fx_mul(cos0, cos0));
            let sin2t: i64 = fx_mul(n_sq, one_minus);
            proof {
                crate::fx::lemma_mul_nonneg(n_sq as int, one_minus as int);
            }
            if sin2t > UNIT {
                return UNIT;
            }
            let arg: i64 = fx_sub(UNIT, sin2t);
            cos = fx_sqrt(arg);
            proof {
                crate::fx::lemma_sqrt_le_unit(arg as int, cos as int);
            }
        }
        let diff: i64 = fx_sub(n1, n2);
        let total: i64 = fx_add(n1, n2);
        proof {
            assert(abs_spec(n1 - n2) <= add_spec(n1 as int, n2 as int));
        }
        let base: i64 = fx_div(diff, total);
        proof {
            crate::fx::lemma_div_abs_le_unit(n1 - n2, add_spec(n1 as int, n2 as int));
        }
        let r0: i64 = fx_mul(base, base);
        proof {
            crate::fx::lemma_square_range01(base as int);
        }
        let fifth: i64 = crate::fx::fx_pow(fx_sub(UNIT, cos), 5);
        proof {
            crate::fx::lemma_pow_range01(sub_spec(UNIT as int, cos as int), 5nat);
            crate::fx::lemma_mul_range01(sub_spec(UNIT as int, r0 as int), fifth as int);
        }
        let out: i64 = fx_add(r0, fx_mul(fx_sub(UNIT, r0), fifth));
        proof {
            let head = sub_spec(UNIT as int, r0 as int);
            assert(0 <= head * fifth) by (nonlinear_arith)
                requires
                    0 <= head,
                    0 <= fifth,
            ;
            assert(head * fifth <= head * (UNIT as int)) by (nonlinear_arith)
                requires
                    0 <= head,
                    0 <= fifth <= UNIT,
                    UNIT == 10_000_000i64,
            ;
            crate::fx::lemma_round_unit_mono(head * fifth, head * (UNIT as int));
            assert(round_unit(head * (UNIT as int)) == head) by (nonlinear_arith)
                requires
                    0 <= head <= UNIT,
                    UNIT == 10_000_000i64,
            ;
            assert(mul_spec(head, fifth as int) <= head);
        }
        out
    }
}

} // verus!
