//! The scene and the recursive shading integrator: intersection gathering
//! and sorting, shadow tests, and the reflected and refracted
//! contributions blended by the Schlick reflectance.

use vstd::prelude::*;

use itertools::Itertools;

use crate::fx::fx_mul;
use crate::fx::fx_sub;
use crate::light::light_ok;
use crate::light::lighting_spec;
use crate::light::PointLight;
use crate::material::Material;
use crate::matrix::Transform;
use crate::ray::ray_ok;
use crate::ray::Ray;
use crate::shape::all_ok;
use crate::shape::comps_ok;
use crate::shape::hit_in;
use crate::shape::hit_spec;
use crate::shape::intersect_spec;
use crate::shape::intersection_ok;
use crate::shape::precompute_spec;
use crate::shape::same_hit;
use crate::shape::schlick_spec;
use crate::shape::shape_ok;
use crate::shape::Intersection;
use crate::shape::PrecomputedHit;
use crate::shape::Shape;
use crate::shape::Sphere;
use crate::tuple::color_ok;
use crate::tuple::color_times_spec;
use crate::tuple::dot_spec;
use crate::tuple::magnitude_spec;
use crate::tuple::normalize_spec;
use crate::tuple::point_minus_spec;
use crate::tuple::point_ok;
use crate::tuple::vec_minus_spec;
use crate::tuple::vec_times_spec;
use crate::tuple::Color;
use crate::tuple::Point;
use crate::tuple::Vector;
use crate::UNIT;

verus! {

pub struct World {
    pub light_source: PointLight,
    pub objects: Vec<Shape>,
}

pub open spec fn world_ok(w: World) -> bool {
    light_ok(w.light_source) && forall|k: int|
        0 <= k < w.objects@.len() ==> #[trigger] shape_ok(w.objects@[k])
}

/// Insert one intersection into a list sorted by t, behind every element
/// with a t no larger: the stable insertion.
pub open spec fn insert_by_t(s: Seq<Intersection>, x: Intersection) -> Seq<Intersection>
    decreases s.len(),
{
    if s.len() == 0 {
        seq![x]
    } else if x.t < s.last().t {
        insert_by_t(s.drop_last(), x).push(s.last())
    } else {
        s.push(x)
    }
}

/// Stable sort by t, as insertion sort computes it. A stable sort is the
/// unique permutation that orders t values and keeps the original order of
/// equal ones, so this also pins what itertools' stable sort returns.
pub open spec fn sort_by_t_spec(s: Seq<Intersection>) -> Seq<Intersection>
    decreases s.len(),
{
    if s.len() == 0 {
        Seq::empty()
    } else {
        insert_by_t(sort_by_t_spec(s.drop_last()), s.last())
    }
}

/// All intersections of the scene's shapes with a ray, in shape order.
pub open spec fn gather_spec(shapes: Seq<Shape>, r: Ray) -> Seq<Intersection>
    decreases shapes.len(),
{
    if shapes.len() == 0 {
        Seq::empty()
    } else {
        gather_spec(shapes.drop_last(), r) + match intersect_spec(shapes.last(), r) {
            Some(v) => v,
            None => Seq::empty(),
        }
    }
}

/// The sorted intersection list of the whole scene.
pub open spec fn intersect_world_spec(w: World, r: Ray) -> Seq<Intersection> {
    sort_by_t_spec(gather_spec(w.objects@, r))
}

proof fn lemma_insert_ok(s: Seq<Intersection>, x: Intersection)
    requires
        all_ok(s),
        intersection_ok(x),
    ensures
        all_ok(insert_by_t(s, x)),
    decreases s.len(),
{
    if s.len() > 0 {
        assert(all_ok(s.drop_last()));
        if x.t < s.last().t {
            lemma_insert_ok(s.drop_last(), x);
            let r = insert_by_t(s.drop_last(), x).push(s.last());
            assert(forall|k: int| 0 <= k < r.len() ==> #[trigger] intersection_ok(r[k]));
        } else {
            let r = s.push(x);
            assert(forall|k: int| 0 <= k < r.len() ==> #[trigger] intersection_ok(r[k]));
        }
    }
}

proof fn lemma_sort_ok(s: Seq<Intersection>)
    requires
        all_ok(s),
    ensures
        all_ok(sort_by_t_spec(s)),
    decreases s.len(),
{
    if s.len() > 0 {
        assert(all_ok(s.drop_last()));
        lemma_sort_ok(s.drop_last());
        lemma_insert_ok(sort_by_t_spec(s.drop_last()), s.last());
    }
}

/// A hit returned by hit selection is an element of the list.
proof fn lemma_hit_member(s: Seq<Intersection>)
    ensures
        match hit_spec(s) {
            Some(h) => hit_in(s, h) && (exists|k: int| 0 <= k < s.len() && s[k] == h),
            None => true,
        },
    decreases s.len(),
{
    if s.len() > 0 {
        lemma_hit_member(s.drop_last());
        match hit_spec(s) {
            Some(h) => {
                if s.last().t >= 0 && (hit_spec(s.drop_last()) is None || h == s.last()) {
                    if h == s.last() {
                        assert(s[s.len() - 1] == h);
                        assert(same_hit(s[s.len() - 1], h));
                    } else {
                        let k = choose|k: int|
                            0 <= k < s.drop_last().len() && s.drop_last()[k] == h;
                        assert(s[k] == h);
                        assert(same_hit(s[k], h));
                    }
                } else {
                    let k = choose|k: int| 0 <= k < s.drop_last().len() && s.drop_last()[k] == h;
                    assert(s[k] == h);
                    assert(same_hit(s[k], h));
                }
            },
            None => {},
        }
    }
}

/// Relies on itertools' Itertools::sorted_by, which collects into a Vec
/// and calls the standard library's stable slice sort with the given
/// comparator; comparing by t alone makes the result the stable sort by t.
#[verifier::external_body]
fn sort_intersections(xs: Vec<Intersection>) -> (r: Vec<Intersection>)
    ensures
        r@ == sort_by_t_spec(xs@),
{
    xs.into_iter().sorted_by(|a, b| a.t.cmp(&b.t)).collect()
}

/// Mirror of the shadow test: any hit strictly closer than the light.
pub open spec fn is_shadowed_spec(w: World, p: Point) -> bool {
    let v = point_minus_spec(w.light_source.position, p);
    let distance = magnitude_spec(v);
    let direction = normalize_spec(v);
    let r = Ray { origin: p, direction };
    match hit_spec(intersect_world_spec(w, r)) {
        Some(h) => h.t < distance,
        None => false,
    }
}

/// Mirror of the reflected contribution.
pub open spec fn reflected_color_spec(w: World, c: PrecomputedHit, remaining: int) -> Color
    decreases remaining, 0int,
{
    if remaining <= 0 {
        Color { r: 0i64, g: 0i64, b: 0i64 }
    } else if c.intersection.object.material.reflective == 0 {
        Color { r: 0i64, g: 0i64, b: 0i64 }
    } else {
        let reflected_ray = Ray { origin: c.over_point, direction: c.reflected_vector };
        color_times_spec(
            color_at_spec(w, reflected_ray, remaining - 1),
            c.intersection.object.material.reflective as int,
        )
    }
}

/// Mirror of the refracted contribution, total internal reflection
/// included.
pub open spec fn refracted_color_spec(w: World, c: PrecomputedHit, remaining: int) -> Color
    decreases remaining, 0int,
{
    if remaining <= 0 {
        Color { r: 0i64, g: 0i64, b: 0i64 }
    } else if c.intersection.object.material.transparency == 0 {
        Color { r: 0i64, g: 0i64, b: 0i64 }
    } else {
        let n_ratio = crate::fx::div_spec(c.n1 as int, c.n2 as int);
        let cos_i = dot_spec(c.eye, c.normal);
        let sin2_t = crate::fx::mul_spec(
            crate::fx::mul_spec(n_ratio, n_ratio),
            crate::fx::sub_spec(UNIT as int, crate::fx::mul_spec(cos_i, cos_i)),
        );
        if sin2_t > UNIT {
            Color { r: 0i64, g: 0i64, b: 0i64 }
        } else {
            let cos_t = crate::fx::sqrt_spec(crate::fx::sub_spec(UNIT as int, sin2_t));
            let direction = vec_minus_spec(
                vec_times_spec(
                    c.normal,
                    crate::fx::sub_spec(crate::fx::mul_spec(n_ratio, cos_i), cos_t),
                ),
                vec_times_spec(c.eye, n_ratio),
            );
            let refracted_ray = Ray { origin: c.under_point, direction };
            color_times_spec(
                color_at_spec(w, refracted_ray, remaining - 1),
                c.intersection.object.material.transparency as int,
            )
        }
    }
}

/// Mirror of shade_hit: surface plus reflected plus refracted, the last
/// two blended by the Schlick reflectance when the material is both
/// reflective and transparent.
pub open spec fn shade_hit_spec(w: World, c: PrecomputedHit, remaining: int) -> Color
    decreases remaining, 1int,
{
    let shadowed = is_shadowed_spec(w, c.over_point);
    let surface = lighting_spec(
        w.light_source,
        c.intersection.object.material,
        c.intersection.object,
        c.over_point,
        c.eye,
        c.normal,
        shadowed,
    );
    let reflected = reflected_color_spec(w, c, remaining);
    let refracted = refracted_color_spec(w, c, remaining);
    let material = c.intersection.object.material;
    if material.reflective > 0 && material.transparency > 0 {
        let reflectance = schlick_spec(c);
        crate::tuple::color_plus_spec(
            crate::tuple::color_plus_spec(
                surface,
                color_times_spec(reflected, reflectance),
            ),
            color_times_spec(refracted, crate::fx::sub_spec(UNIT as int, reflectance)),
        )
    } else {
        crate::tuple::color_plus_spec(crate::tuple::color_plus_spec(surface, reflected), refracted)
    }
}

/// Mirror of the integrator: black on a miss, shade_hit on the nearest
/// hit, with the full sorted list driving the refraction stack.
pub open spec fn color_at_spec(w: World, r: Ray, remaining: int) -> Color
    decreases remaining, 2int,
{
    let xs = intersect_world_spec(w, r);
    match hit_spec(xs) {
        Some(h) => shade_hit_spec(w, precompute_spec(h, r, xs), remaining),
        None => Color { r: 0i64, g: 0i64, b: 0i64 },
    }
}

impl World {
    pub fn new(light_source: PointLight, objects: Vec<Shape>) -> (w: World)
        ensures
            w.light_source == light_source,
            w.objects == objects,
    {
        World { light_source, objects }
    }

    /// Every intersection of the ray with the scene, sorted by t.
    pub fn intersect_world(&self, r: &Ray) -> (out: Vec<Intersection>)
        requires
            world_ok(*self),
            ray_ok(*r),
        ensures
            out@ == intersect_world_spec(*self, *r),
            all_ok(out@),
    {
        let mut gathered: Vec<Intersection> = Vec::new();
        let mut k: usize = 0;
        while k < self.objects.len()
            invariant
                0 <= k <= self.objects@.len(),
                world_ok(*self),
                ray_ok(*r),
                gathered@ == gather_spec(self.objects@.take(k as int), *r),
                all_ok(gathered@),
            decreases self.objects@.len() - k,
        {
            proof {
                assert(shape_ok(self.objects@[k as int]));
            }
            let found: Option<Vec<Intersection>> = self.objects[k].intersect(r);
            proof {
                assert(self.objects@.take(k + 1).drop_last() =~= self.objects@.take(k as int));
                assert(self.objects@.take(k + 1).last() == self.objects@[k as int]);
            }
            match found {
                Some(v) => {
                    let ghost pre = gathered@;
                    let ghost add = v@;
                    let mut j: usize = 0;
                    while j < v.len()
                        invariant
                            0 <= j <= add.len(),
                            v@ == add,
                            all_ok(add),
                            all_ok(gathered@),
                            gathered@ == pre + add.take(j as int),
                        decreases add.len() - j,
                    {
                        gathered.push(v[j]);
                        proof {
                            assert(pre + add.take(j + 1) =~= (pre + add.take(j as int)).push(
                                add[j as int],
                            ));
                        }
                        j = j + 1;
                    }
                    proof {
                        assert(add.take(add.len() as int) =~= add);
                    }
                },
                None => {},
            }
            k = k + 1;
        }
        proof {
            assert(self.objects@.take(self.objects@.len() as int) =~= self.objects@);
            lemma_sort_ok(gathered@);
        }
        sort_intersections(gathered)
    }

    /// Whether the surface point is cut off from the light.
    pub fn is_shadowed(&self, p: &Point) -> (r: bool)
        requires
            world_ok(*self),
            point_ok(*p),
        ensures
            r == is_shadowed_spec(*self, *p),
    {
        let v: Vector = self.light_source.position.minus(p);
        let distance: i64 = v.magnitude();
        let direction: Vector = v.normalize();
        let shadow_ray: Ray = Ray { origin: *p, direction };
        let intersections: Vec<Intersection> = self.intersect_world(&shadow_ray);
        let h: Option<Intersection> = Intersection::get_hit(&intersections);
        match h {
            Some(hit) => hit.t < distance,
            None => false,
        }
    }

    /// Surface, reflection and refraction for one precomputed hit.
    pub fn shade_hit(&self, comps: &PrecomputedHit, remaining_reflections: i32) -> (c: Color)
        requires
            world_ok(*self),
            comps_ok(*comps),
        ensures
            c == shade_hit_spec(*self, *comps, remaining_reflections as int),
            color_ok(c),
        decreases remaining_reflections, 1int,
    {
        let shadowed: bool = self.is_shadowed(&comps.over_point);
        let material: Material = comps.intersection.object.material;
        let surface: Color = self.light_source.calculate_lighting(
            &material,
            &comps.intersection.object,
            &comps.over_point,
            &comps.eye,
            &comps.normal,
            shadowed,
        );
        let reflected: Color = self.reflected_color(comps, remaining_reflections);
        let refracted: Color = self.refracted_color(comps, remaining_reflections);
        if material.reflective > 0 && material.transparency > 0 {
            let reflectance: i64 = comps.schlick_reflectance();
            return surface.plus(&reflected.times(reflectance)).plus(
                &refracted.times(fx_sub(UNIT, reflectance)),
            );
        }
        surface.plus(&reflected).plus(&refracted)
    }

    /// The color seen along a ray, with the given reflection budget.
    pub fn color_at(&self, r: &Ray, remaining_reflections: i32) -> (c: Color)
        requires
            world_ok(*self),
            ray_ok(*r),
        ensures
            c == color_at_spec(*self, *r, remaining_reflections as int),
            color_ok(c),
        decreases remaining_reflections, 2int,
    {
        let xs: Vec<Intersection> = self.intersect_world(r);
        let h: Option<Intersection> = Intersection::get_hit(&xs);
        match h {
            Some(hit) => {
                proof {
                    lemma_hit_member(xs@);
                    assert(intersection_ok(hit));
                }
                let comps: PrecomputedHit = hit.precompute_hit(r, &xs);
                self.shade_hit(&comps, remaining_reflections)
            },
            None => Color { r: 0, g: 0, b: 0 },
        }
    }

    /// The reflected contribution: black without budget or reflectivity.
    pub fn reflected_color(&self, comps: &PrecomputedHit, remaining_reflections: i32) -> (c: Color)
        requires
            world_ok(*self),
            comps_ok(*comps),
        ensures
            c == reflected_color_spec(*self, *comps, remaining_reflections as int),
            color_ok(c),
        decreases remaining_reflections, 0int,
    {
        if remaining_reflections <= 0 {
            return Color { r: 0, g: 0, b: 0 };
        }
        if comps.intersection.object.material.reflective == 0 {
            return Color { r: 0, g: 0, b: 0 };
        }
        let reflected_ray: Ray = Ray {
            origin: comps.over_point,
            direction: comps.reflected_vector,
        };
        let color: Color = self.color_at(&reflected_ray, remaining_reflections - 1);
        color.times(comps.intersection.object.material.reflective)
    }

    /// The refracted contribution: black without budget or transparency,
    /// and black under total internal reflection.
    pub fn refracted_color(&self, comps: &PrecomputedHit, remaining_reflections: i32) -> (c: Color)
        requires
            world_ok(*self),
            comps_ok(*comps),
        ensures
            c == refracted_color_spec(*self, *comps, remaining_reflections as int),
            color_ok(c),
        decreases remaining_reflections, 0int,
    {
        if remaining_reflections <= 0 {
            return Color { r: 0, g: 0, b: 0 };
        }
        if comps.intersection.object.material.transparency == 0 {
            return Color { r: 0, g: 0, b: 0 };
        }
        let n_ratio: i64 = crate::fx::fx_div(comps.n1, comps.n2);
        let cos_i: i64 = comps.eye.dot(&comps.normal);
        let sin2_t: i64 = fx_mul(fx_mul(n_ratio, n_ratio), fx_sub(UNIT, fx_mul(cos_i, cos_i)));
        if sin2_t > UNIT {
            return Color { r: 0, g: 0, b: 0 };
        }
        let cos_t: i64 = crate::fx::fx_sqrt(fx_sub(UNIT, sin2_t));
        let direction: Vector = comps.normal.times(fx_sub(fx_mul(n_ratio, cos_i), cos_t)).minus(
            &comps.eye.times(n_ratio),
        );
        let refracted_ray: Ray = Ray { origin: comps.under_point, direction };
        let color: Color = self.color_at(&refracted_ray, remaining_reflections - 1);
        color.times(comps.intersection.object.material.transparency)
    }
}

impl Default for World {
    /// The default scene: two concentric spheres and a white light at
    /// (-10, 10, -10).
    fn default() -> (w: World)
        ensures
            world_ok(w),
            w.objects@.len() == 2,
            w.light_source == (PointLight {
                position: Point { x: -100_000_000i64, y: 100_000_000i64, z: -100_000_000i64 },
                intensity: Color { r: UNIT, g: UNIT, b: UNIT },
            }),
            w.objects@[0].kind == crate::shape::ShapeKind::Sphere,
            w.objects@[0].material == (Material {
                color: Color { r: 8_000_000i64, g: 10_000_000i64, b: 6_000_000i64 },
                diffuse: 7_000_000i64,
                specular: 2_000_000i64,
                ..crate::material::default_material_spec()
            }),
            w.objects@[0].transform.direct == crate::matrix::identity_spec(),
            w.objects@[0].transform.inverse == crate::matrix::identity_spec(),
            w.objects@[1].kind == crate::shape::ShapeKind::Sphere,
            w.objects@[1].material == crate::material::default_material_spec(),
            w.objects@[1].transform.direct == crate::matrix::matmul_spec(
                crate::matrix::scaling_spec(
                    Vector { x: 5_000_000i64, y: 5_000_000i64, z: 5_000_000i64 },
                ),
                crate::matrix::identity_spec(),
            ),
            w.objects@[1].transform.inverse == crate::matrix::matmul_spec(
                crate::matrix::identity_spec(),
                crate::matrix::scaling_spec(
                    Vector {
                        x: crate::fx::div_spec(UNIT as int, 5_000_000int) as i64,
                        y: crate::fx::div_spec(UNIT as int, 5_000_000int) as i64,
                        z: crate::fx::div_spec(UNIT as int, 5_000_000int) as i64,
                    },
                ),
            ),
    {
        let s1: Shape = Sphere::default_with_material(
            Material {
                color: Color { r: 8_000_000, g: 10_000_000, b: 6_000_000 },
                diffuse: 7_000_000,
                specular: 2_000_000,
                ..Material::default()
            },
        );
        let half: Vector = Vector { x: 5_000_000, y: 5_000_000, z: 5_000_000 };
        let s2: Shape = Sphere::static_default().set_transform(Transform::identity().scale(&half));
        let light: PointLight = PointLight {
            position: Point { x: -100_000_000, y: 100_000_000, z: -100_000_000 },
            intensity: Color { r: UNIT, g: UNIT, b: UNIT },
        };
        let mut objects: Vec<Shape> = Vec::new();
        objects.push(s1);
        objects.push(s2);
        World { light_source: light, objects }
    }
}

} // verus!
