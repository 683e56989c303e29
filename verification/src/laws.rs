//! The library's stated laws, proved over the same spec functions that the
//! executable contracts use.

use vstd::prelude::*;

use crate::fx::abs_spec;
use crate::fx::add_spec;
use crate::fx::clamp_spec;
use crate::fx::div_spec;
use crate::fx::fx_ok;
use crate::fx::mul_spec;
use crate::fx::round_unit;
use crate::fx::sqrt_spec;
use crate::fx::sub_spec;
use crate::light::lighting_spec;
use crate::matrix::identity_spec;
use crate::matrix::mat_ok;
use crate::matrix::matmul_spec;
use crate::matrix::transpose_spec;
use crate::matrix::Matrix4;
use crate::ray::Ray;
use crate::shape::clamp01_spec;
use crate::shape::comps_ok;
use crate::shape::eps_off_spec;
use crate::shape::hit_spec;
use crate::shape::precompute_spec;
use crate::shape::refraction_spec;
use crate::shape::same_hit;
use crate::shape::schlick_base_spec;
use crate::shape::schlick_spec;
use crate::shape::stack_contains_id;
use crate::shape::stack_index;
use crate::shape::stack_remove_id;
use crate::shape::stack_toggle;
use crate::shape::Intersection;
use crate::shape::PrecomputedHit;
use crate::shape::Shape;
use crate::tuple::color_ok;
use crate::tuple::color_plus_spec;
use crate::tuple::dot_spec;
use crate::tuple::Color;
use crate::world::color_at_spec;
use crate::world::intersect_world_spec;
use crate::world::reflected_color_spec;
use crate::world::refracted_color_spec;
use crate::world::shade_hit_spec;
use crate::world::World;
use crate::EPSILON;
use crate::LIMIT;
use crate::UNIT;

verus! {

/// Scaling an exact scalar by 1.0 and rounding gives it back unchanged.
pub proof fn lemma_round_exact(a: int)
    ensures
        round_unit(a * (UNIT as int)) == a,
{
    if a >= 0 {
        assert((a * (UNIT as int) + (UNIT as int) / 2) / (UNIT as int) == a) by (nonlinear_arith)
            requires
                a >= 0,
                UNIT == 10_000_000i64,
        ;
    } else {
        assert((-(a * (UNIT as int)) + (UNIT as int) / 2) / (UNIT as int) == -a)
            by (nonlinear_arith)
            requires
                a < 0,
                UNIT == 10_000_000i64,
        ;
    }
}

/// A matrix is unchanged by multiplication with the identity, on either
/// side.
pub proof fn lemma_matmul_identity(m: Matrix4)
    requires
        mat_ok(m),
    ensures
        matmul_spec(m, identity_spec()) == m,
        matmul_spec(identity_spec(), m) == m,
{
    assert forall|a: int| fx_ok(a) implies #[trigger] round_unit(a * (UNIT as int)) == a
        && round_unit((UNIT as int) * a) == a && clamp_spec(a) == a by {
        lemma_round_exact(a);
        assert(a * (UNIT as int) == (UNIT as int) * a) by (nonlinear_arith);
    }
}

/// Transposition is an involution.
pub proof fn lemma_transpose_involutive(m: Matrix4)
    ensures
        transpose_spec(transpose_spec(m)) == m,
{
}

/// A precomputed hit reports `inside` exactly when the uncorrected surface
/// normal points away from the eye, and then stores the negated normal.
pub proof fn lemma_inside_flips_normal(h: Intersection, r: Ray, xs: Seq<Intersection>)
    ensures
        ({
            let comps = precompute_spec(h, r, xs);
            let raw = crate::shape::get_normal_spec(
                h.object,
                crate::ray::position_spec(r, h.t as int),
            );
            &&& comps.inside <==> dot_spec(raw, crate::tuple::vec_negate_spec(r.direction)) < 0
            &&& comps.normal == if comps.inside {
                crate::tuple::vec_negate_spec(raw)
            } else {
                raw
            }
        }),
{
}

/// With a unit-bounded corrected normal whose y component is positive,
/// the over point lies strictly above the surface point and the under
/// point strictly below: the EPSILON offset never rounds away.
pub proof fn lemma_offset_points_separate(h: Intersection, r: Ray, xs: Seq<Intersection>)
    requires
        ({
            let comps = precompute_spec(h, r, xs);
            comps.normal.y > 0 && abs_spec(comps.normal.y as int) <= UNIT && -LIMIT + EPSILON
                < comps.point.y < LIMIT - EPSILON
        }),
    ensures
        precompute_spec(h, r, xs).over_point.y > precompute_spec(h, r, xs).point.y,
        precompute_spec(h, r, xs).under_point.y < precompute_spec(h, r, xs).point.y,
{
    let comps = precompute_spec(h, r, xs);
    let ny = comps.normal.y as int;
    let m = mul_spec(ny, EPSILON as int);
    crate::fx::lemma_mul_nonneg(ny, EPSILON as int);
    assert(m <= EPSILON) by {
        assert(ny * (EPSILON as int) <= (UNIT as int) * (EPSILON as int)) by (nonlinear_arith)
            requires
                0 < ny <= UNIT,
                EPSILON == 100i64,
        ;
        crate::fx::lemma_round_unit_mono(ny * (EPSILON as int), (UNIT as int) * (EPSILON as int));
        assert((UNIT as int) * (EPSILON as int) == (EPSILON as int) * (UNIT as int))
            by (nonlinear_arith);
        lemma_round_exact(EPSILON as int);
    }
    let off = eps_off_spec(ny);
    assert(1 <= off <= EPSILON);
}

/// At the hit, n1 is the refractive index of the medium the ray is
/// leaving: the top of the container stack, vacuum when the stack is
/// empty. n2 is the index of the medium entered: on entry into an object
/// not yet on the stack, that object's own material.
pub proof fn lemma_refraction_pair(s: Seq<Intersection>, h: Intersection, c: Seq<Shape>)
    requires
        s.len() > 0,
        same_hit(s[0], h),
    ensures
        refraction_spec(s, h, c).0 == stack_index(c),
        refraction_spec(s, h, c).1 == stack_index(stack_toggle(c, s[0].object)),
        c.len() == 0 ==> refraction_spec(s, h, c).0 == UNIT,
        !stack_contains_id(c, s[0].object.id) ==> refraction_spec(s, h, c).1
            == s[0].object.material.refractive_index,
{
    let c2 = stack_toggle(c, s[0].object);
    if !stack_contains_id(c, s[0].object.id) {
        assert(c2 == c.push(s[0].object));
        assert(c2.last() == s[0].object);
    }
}

/// Leaving the object on top of the stack restores the index of the
/// medium beneath it (vacuum when nothing is beneath).
pub proof fn lemma_refraction_leave_top(c: Seq<Shape>, obj: Shape)
    requires
        c.len() > 0,
        c.last().id == obj.id,
        forall|k: int| 0 <= k < c.len() - 1 ==> #[trigger] c[k].id != obj.id,
    ensures
        stack_index(stack_toggle(c, obj)) == stack_index(c.drop_last()),
{
    crate::shape::lemma_remove_at(c, obj.id, c.len() - 1);
    assert(c.remove(c.len() - 1) =~= c.drop_last());
    assert(stack_remove_id(c, obj.id) =~= c.drop_last());
}

/// The Schlick reflectance lies in [0, 1], and equals exactly 1 under
/// total internal reflection.
pub proof fn lemma_schlick_range(c: PrecomputedHit)
    requires
        comps_ok(c),
    ensures
        0 <= schlick_spec(c) <= UNIT,
        ({
            let cos0 = clamp01_spec(dot_spec(c.eye, c.normal));
            let n = div_spec(c.n1 as int, c.n2 as int);
            c.n1 > c.n2 && mul_spec(mul_spec(n, n), sub_spec(UNIT as int, mul_spec(cos0, cos0)))
                > UNIT ==> schlick_spec(c) == UNIT
        }),
{
    let cos0 = clamp01_spec(dot_spec(c.eye, c.normal));
    let n1 = c.n1 as int;
    let n2 = c.n2 as int;
    if n1 > n2 {
        let n = div_spec(n1, n2);
        let sin2t = mul_spec(mul_spec(n, n), sub_spec(UNIT as int, mul_spec(cos0, cos0)));
        if sin2t > UNIT {
        } else {
            crate::fx::lemma_div_nonneg(n1, n2);
            crate::fx::lemma_mul_nonneg(n, n);
            crate::fx::lemma_square_range01(cos0);
            crate::fx::lemma_mul_nonneg(
                mul_spec(n, n),
                sub_spec(UNIT as int, mul_spec(cos0, cos0)),
            );
            let arg = sub_spec(UNIT as int, sin2t);
            crate::fx::lemma_sqrt_exists(arg);
            crate::fx::lemma_sqrt_le_unit(arg, sqrt_spec(arg));
            lemma_schlick_base_range(n1, n2, sqrt_spec(arg));
        }
    } else {
        lemma_schlick_base_range(n1, n2, cos0);
    }
}

proof fn lemma_schlick_base_range(n1: int, n2: int, cos: int)
    requires
        UNIT <= n1 <= LIMIT,
        UNIT <= n2 <= LIMIT,
        0 <= cos <= UNIT,
    ensures
        0 <= schlick_base_spec(n1, n2, cos) <= UNIT,
{
    let total = add_spec(n1, n2);
    assert(abs_spec(n1 - n2) <= total);
    crate::fx::lemma_div_abs_le_unit(n1 - n2, total);
    let base = div_spec(n1 - n2, total);
    crate::fx::lemma_square_range01(base);
    let r0 = mul_spec(base, base);
    let head = sub_spec(UNIT as int, r0);
    let fifth = crate::fx::pow_spec(sub_spec(UNIT as int, cos), 5);
    crate::fx::lemma_pow_range01(sub_spec(UNIT as int, cos), 5nat);
    assert(0 <= head * fifth) by (nonlinear_arith)
        requires
            0 <= head,
            0 <= fifth,
    ;
    assert(head * fifth <= head * (UNIT as int)) by (nonlinear_arith)
        requires
            0 <= head,
            0 <= fifth <= UNIT,
    ;
    crate::fx::lemma_round_unit_mono(head * fifth, head * (UNIT as int));
    lemma_round_exact(head);
}

/// A surface that is neither reflective nor transparent is shaded by its
/// Phong surface term alone.
pub proof fn lemma_shade_hit_opaque(w: World, c: PrecomputedHit, remaining: int)
    requires
        c.intersection.object.material.reflective == 0,
        c.intersection.object.material.transparency == 0,
    ensures
        shade_hit_spec(w, c, remaining) == lighting_spec(
            w.light_source,
            c.intersection.object.material,
            c.intersection.object,
            c.over_point,
            c.eye,
            c.normal,
            crate::world::is_shadowed_spec(w, c.over_point),
        ),
{
    let surface = lighting_spec(
        w.light_source,
        c.intersection.object.material,
        c.intersection.object,
        c.over_point,
        c.eye,
        c.normal,
        crate::world::is_shadowed_spec(w, c.over_point),
    );
    lemma_lighting_in_range(w, c, crate::world::is_shadowed_spec(w, c.over_point));
    assert(reflected_color_spec(w, c, remaining) == (Color { r: 0i64, g: 0i64, b: 0i64 }));
    assert(refracted_color_spec(w, c, remaining) == (Color { r: 0i64, g: 0i64, b: 0i64 }));
    let black = Color { r: 0i64, g: 0i64, b: 0i64 };
    assert(color_plus_spec(color_plus_spec(surface, black), black) == surface) by {
        assert(color_ok(surface));
    }
}

/// Every channel a lighting computation produces is saturated into range.
proof fn lemma_lighting_in_range(w: World, c: PrecomputedHit, in_shadow: bool)
    ensures
        color_ok(
            lighting_spec(
                w.light_source,
                c.intersection.object.material,
                c.intersection.object,
                c.over_point,
                c.eye,
                c.normal,
                in_shadow,
            ),
        ),
{
}

/// The unrounded dot product of two component triples, in squared units.
pub open spec fn exact_dot(a: crate::tuple::Vector, b: crate::tuple::Vector) -> int {
    (a.x as int) * (b.x as int) + (a.y as int) * (b.y as int) + (a.z as int) * (b.z as int)
}

/// Reflection about an exactly-unit normal reverses the normal component
/// of a vector and keeps every tangential component. The law is stated at
/// the exact layer the executable `reflect` rounds once per component:
/// reflected components are scaled by UNIT squared so that no division
/// appears.
pub proof fn lemma_reflect_decomposition(
    v: crate::tuple::Vector,
    n: crate::tuple::Vector,
    w: crate::tuple::Vector,
)
    requires
        exact_dot(n, n) == (UNIT as int) * (UNIT as int),
        exact_dot(w, n) == 0,
    ensures
        ({
            let s2 = (UNIT as int) * (UNIT as int);
            let d = exact_dot(v, n);
            let rx = (v.x as int) * s2 - 2 * (n.x as int) * d;
            let ry = (v.y as int) * s2 - 2 * (n.y as int) * d;
            let rz = (v.z as int) * s2 - 2 * (n.z as int) * d;
            &&& rx * (n.x as int) + ry * (n.y as int) + rz * (n.z as int) == -(d * s2)
            &&& rx * (w.x as int) + ry * (w.y as int) + rz * (w.z as int) == exact_dot(v, w) * s2
        }),
{
    let vx = v.x as int;
    let vy = v.y as int;
    let vz = v.z as int;
    let nx = n.x as int;
    let ny = n.y as int;
    let nz = n.z as int;
    let wx = w.x as int;
    let wy = w.y as int;
    let wz = w.z as int;
    let s2 = (UNIT as int) * (UNIT as int);
    let dd = exact_dot(v, n);
    assert((vx * s2 - 2 * nx * dd) * nx == (vx * nx) * s2 - 2 * (nx * nx) * dd)
        by (nonlinear_arith);
    assert((vy * s2 - 2 * ny * dd) * ny == (vy * ny) * s2 - 2 * (ny * ny) * dd)
        by (nonlinear_arith);
    assert((vz * s2 - 2 * nz * dd) * nz == (vz * nz) * s2 - 2 * (nz * nz) * dd)
        by (nonlinear_arith);
    lemma_group_sum(vx * nx, vy * ny, vz * nz, nx * nx, ny * ny, nz * nz, s2, dd);
    assert(dd * s2 - 2 * (s2 * dd) == -(dd * s2)) by (nonlinear_arith);
    assert((vx * s2 - 2 * nx * dd) * wx == (vx * wx) * s2 - 2 * (nx * wx) * dd)
        by (nonlinear_arith);
    assert((vy * s2 - 2 * ny * dd) * wy == (vy * wy) * s2 - 2 * (ny * wy) * dd)
        by (nonlinear_arith);
    assert((vz * s2 - 2 * nz * dd) * wz == (vz * wz) * s2 - 2 * (nz * wz) * dd)
        by (nonlinear_arith);
    lemma_group_sum(vx * wx, vy * wy, vz * wz, nx * wx, ny * wy, nz * wz, s2, dd);
    assert(nx * wx + ny * wy + nz * wz == wx * nx + wy * ny + wz * nz) by (nonlinear_arith);
    assert(2 * (0int * dd) == 0) by (nonlinear_arith);
}

/// Sums of scaled products regroup by distributivity.
proof fn lemma_group_sum(a: int, b: int, c: int, p: int, q: int, r: int, s2: int, dd: int)
    ensures
        a * s2 + b * s2 + c * s2 == (a + b + c) * s2,
        2 * p * dd + 2 * q * dd + 2 * r * dd == 2 * ((p + q + r) * dd),
{
    assert(a * s2 + b * s2 + c * s2 == (a + b + c) * s2) by (nonlinear_arith);
    assert(2 * p * dd + 2 * q * dd + 2 * r * dd == 2 * ((p + q + r) * dd)) by (nonlinear_arith);
}

/// Bound on one rounded square term of a dot product: the term is the
/// true square to within half a unit, and stays far below saturation.
proof fn lemma_square_term(x: int)
    requires
        -1_000_000_000 <= x <= 1_000_000_000,
    ensures
        mul_spec(x, x) == round_unit(x * x),
        0 <= mul_spec(x, x) <= 100_000_000_000,
        2 * (mul_spec(x, x) * (UNIT as int) - x * x) <= UNIT,
        -(UNIT as int) < 2 * (mul_spec(x, x) * (UNIT as int) - x * x),
{
    assert(0 <= x * x <= 1_000_000_000_000_000_000) by (nonlinear_arith)
        requires
            -1_000_000_000 <= x <= 1_000_000_000,
    ;
    crate::fx::lemma_round_unit_mono(x * x, 1_000_000_000_000_000_000);
    assert(round_unit(1_000_000_000_000_000_000int) == 100_000_000_000int);
    crate::fx::lemma_round_near(x * x);
}

/// Normalizing a vector whose magnitude is at least a tenth yields a
/// vector of magnitude 1 to within EPSILON. Below that size the unit
/// granularity of the division and square root can eat the whole
/// tolerance, so the bound is part of the law.
pub proof fn lemma_normalize_unit_magnitude(v: crate::tuple::Vector)
    requires
        abs_spec(v.x as int) <= 1_000_000_000,
        abs_spec(v.y as int) <= 1_000_000_000,
        abs_spec(v.z as int) <= 1_000_000_000,
        crate::tuple::magnitude_spec(v) >= 1_000_000,
    ensures
        abs_spec(crate::tuple::magnitude_spec(crate::tuple::normalize_spec(v)) - UNIT) < EPSILON,
{
    let u = UNIT as int;
    let vx = v.x as int;
    let vy = v.y as int;
    let vz = v.z as int;
    let ee = vx * vx + vy * vy + vz * vz;
    lemma_square_term(vx);
    lemma_square_term(vy);
    lemma_square_term(vz);
    let d = crate::tuple::dot_spec(v, v);
    assert(d == mul_spec(vx, vx) + mul_spec(vy, vy) + mul_spec(vz, vz));
    assert(2 * (d * u - ee) <= 3 * u && -3 * u < 2 * (d * u - ee));
    let m = crate::tuple::magnitude_spec(v);
    crate::tuple::lemma_self_dot_nonneg(v);
    crate::fx::lemma_sqrt_exists(d);
    assert(m * m <= d * u < (m + 1) * (m + 1));
    assert(m >= 1_000_000);
    // ee sits within a sliver of m * m.
    assert(2 * ee <= 2 * ((m + 1) * (m + 1)) + 3 * u);
    assert(2 * ee >= 2 * (m * m) - 3 * u);
    // each component is bounded by m + 9.
    assert(2 * ((m + 9) * (m + 9)) >= 2 * ((m + 1) * (m + 1)) + 3 * u) by (nonlinear_arith)
        requires
            m >= 1_000_000,
            u == 10_000_000i64,
    ;
    assert(vx * vx <= ee && vy * vy <= ee && vz * vz <= ee) by (nonlinear_arith)
        requires
            ee == vx * vx + vy * vy + vz * vz,
    ;
    lemma_abs_from_square(vx, m + 9);
    lemma_abs_from_square(vy, m + 9);
    lemma_abs_from_square(vz, m + 9);
    // the normalized components and their rounding errors.
    let xq = lemma_component(vx, m);
    let yq = lemma_component(vy, m);
    let zq = lemma_component(vz, m);
    let w = crate::tuple::normalize_spec(v);
    assert(w == (crate::tuple::Vector {
        x: div_spec(vx, m) as i64,
        y: div_spec(vy, m) as i64,
        z: div_spec(vz, m) as i64,
    }));
    assert(w.x as int == xq && w.y as int == yq && w.z as int == zq);
    // squared error of each scaled component.
    lemma_scaled_square(vx, xq, m, u);
    lemma_scaled_square(vy, yq, m, u);
    lemma_scaled_square(vz, zq, m, u);
    let epr = xq * xq + yq * yq + zq * zq;
    let slack = m * (m + 4 * (m + 9) * u);
    assert(m * m * epr == m * m * (xq * xq) + m * m * (yq * yq) + m * m * (zq * zq))
        by (nonlinear_arith)
        requires
            epr == xq * xq + yq * yq + zq * zq,
    ;
    assert(u * u * ee == u * u * (vx * vx) + u * u * (vy * vy) + u * u * (vz * vz))
        by (nonlinear_arith)
        requires
            ee == vx * vx + vy * vy + vz * vz,
    ;
    assert(4 * (m * m * epr - u * u * ee) <= 3 * slack && -(3 * slack) <= 4 * (m * m * epr - u
        * u * ee));
    // move from ee to m * m under the u * u factor.
    assert(4 * (u * u * ee) - 4 * (u * u * (m * m)) <= 2 * (u * u) * (4 * m + 2 + 3 * u) && -(2
        * (u * u) * (4 * m + 2 + 3 * u)) <= 4 * (u * u * ee) - 4 * (u * u * (m * m)))
        by (nonlinear_arith)
        requires
            2 * ee <= 2 * ((m + 1) * (m + 1)) + 3 * u,
            2 * ee >= 2 * (m * m) - 3 * u,
            u >= 1,
            m >= 0,
    ;
    assert(4 * (m * m * epr - u * u * (m * m)) <= 3 * slack + 2 * (u * u) * (4 * m + 2 + 3 * u)
        && -(3 * slack + 2 * (u * u) * (4 * m + 2 + 3 * u)) <= 4 * (m * m * epr - u * u * (m
        * m)));
    // the combined slack stays under the channel budget.
    assert(3 * slack + 2 * (u * u) * (4 * m + 2 + 3 * u) <= 4 * (m * m) * 1_960_000_000)
        by (nonlinear_arith)
        requires
            m >= 1_000_000,
            u == 10_000_000i64,
            slack == m * (m + 4 * (m + 9) * u),
    ;
    assert(4 * (m * m) * (epr - u * u) <= 4 * (m * m) * 1_960_000_000 && -(4 * (m * m)
        * 1_960_000_000) <= 4 * (m * m) * (epr - u * u)) by (nonlinear_arith)
        requires
            4 * (m * m * epr - u * u * (m * m)) <= 3 * slack + 2 * (u * u) * (4 * m + 2 + 3 * u),
            -(3 * slack + 2 * (u * u) * (4 * m + 2 + 3 * u)) <= 4 * (m * m * epr - u * u * (m
                * m)),
            3 * slack + 2 * (u * u) * (4 * m + 2 + 3 * u) <= 4 * (m * m) * 1_960_000_000,
    ;
    assert(epr - u * u <= 1_960_000_000 && -1_960_000_000 <= epr - u * u) by (nonlinear_arith)
        requires
            4 * (m * m) * (epr - u * u) <= 4 * (m * m) * 1_960_000_000,
            -(4 * (m * m) * 1_960_000_000) <= 4 * (m * m) * (epr - u * u),
            m >= 1,
    ;
    // the final dot product and square root.
    lemma_unit_square_term(xq);
    lemma_unit_square_term(yq);
    lemma_unit_square_term(zq);
    let dw = crate::tuple::dot_spec(w, w);
    assert(dw == mul_spec(xq, xq) + mul_spec(yq, yq) + mul_spec(zq, zq));
    assert(2 * (dw * u - epr) <= 3 * u && -3 * u < 2 * (dw * u - epr));
    crate::tuple::lemma_self_dot_nonneg(w);
    crate::fx::lemma_sqrt_exists(dw);
    let mw = crate::tuple::magnitude_spec(w);
    assert(mw * mw <= dw * u < (mw + 1) * (mw + 1));
    assert(dw * u <= u * u + 1_975_000_000);
    assert(dw * u >= u * u - 1_975_000_000);
    assert((u + 99) * (u + 99) > u * u + 1_975_000_000) by (nonlinear_arith)
        requires
            u == 10_000_000i64,
    ;
    assert((u - 99) * (u - 99) < u * u - 1_975_000_000) by (nonlinear_arith)
        requires
            u == 10_000_000i64,
    ;
    assert(mw < u + 99) by (nonlinear_arith)
        requires
            mw >= 0,
            mw * mw < (u + 99) * (u + 99),
            u >= 1,
    ;
    assert(mw + 1 > u - 99) by (nonlinear_arith)
        requires
            mw >= 0,
            (mw + 1) * (mw + 1) > (u - 99) * (u - 99),
            u >= 100,
    ;
}

/// A value whose square is bounded by another's is bounded by it.
proof fn lemma_abs_from_square(x: int, b: int)
    requires
        x * x <= b * b,
        b >= 0,
    ensures
        -b <= x <= b,
{
    assert(-b <= x <= b) by (nonlinear_arith)
        requires
            x * x <= b * b,
            b >= 0,
    ;
}

/// One normalized component: its exact value, rounding error and range.
proof fn lemma_component(x: int, m: int) -> (q: int)
    requires
        m >= 1_000_000,
        -(m + 9) <= x <= m + 9,
    ensures
        q == div_spec(x, m),
        2 * (q * m - x * (UNIT as int)) <= m,
        -m <= 2 * (q * m - x * (UNIT as int)),
        -((UNIT as int) + 91) <= q <= (UNIT as int) + 91,
{
    let u = UNIT as int;
    let q = crate::fx::round_div(x * u, m);
    crate::fx::lemma_round_div_near(x * u, m);
    assert(2 * abs_spec(q * m - x * u) <= m);
    assert(-(m + 9) * u <= x * u <= (m + 9) * u) by (nonlinear_arith)
        requires
            -(m + 9) <= x <= m + 9,
            u == 10_000_000i64,
    ;
    assert(q <= u + 91 && -(u + 91) <= q) by (nonlinear_arith)
        requires
            2 * (q * m - x * u) <= m,
            -m <= 2 * (q * m - x * u),
            -((m + 9) * u) <= x * u <= (m + 9) * u,
            m >= 1_000_000,
            u == 10_000_000i64,
    ;
    assert(div_spec(x, m) == clamp_spec(q));
    assert(clamp_spec(q) == q);
    q
}

/// Squared scaled-component error: the square of the rounded component,
/// scaled back, differs from the true square by the half-divisor slack.
proof fn lemma_scaled_square(x: int, q: int, m: int, u: int)
    requires
        u == UNIT as int,
        m >= 1,
        2 * (q * m - x * u) <= m,
        -m <= 2 * (q * m - x * u),
        -(m + 9) <= x <= m + 9,
    ensures
        4 * (m * m * (q * q) - (u * u) * (x * x)) <= m * (m + 4 * (m + 9) * u),
        -(m * (m + 4 * (m + 9) * u)) <= 4 * (m * m * (q * q) - (u * u) * (x * x)),
{
    let s = q * m - x * u;
    let t = q * m + x * u;
    assert((q * m) * (q * m) - (x * u) * (x * u) == s * t) by (nonlinear_arith)
        requires
            s == q * m - x * u,
            t == q * m + x * u,
    ;
    assert(m * m * (q * q) == (q * m) * (q * m)) by (nonlinear_arith);
    assert((u * u) * (x * x) == (x * u) * (x * u)) by (nonlinear_arith);
    assert(-(m + 9) * u <= x * u <= (m + 9) * u) by (nonlinear_arith)
        requires
            -(m + 9) <= x <= m + 9,
            u == 10_000_000i64,
    ;
    assert(2 * t <= m + 4 * ((m + 9) * u) && -(m + 4 * ((m + 9) * u)) <= 2 * t);
    assert(4 * (s * t) <= m * (m + 4 * (m + 9) * u) && -(m * (m + 4 * (m + 9) * u)) <= 4 * (s
        * t)) by (nonlinear_arith)
        requires
            2 * s <= m,
            -m <= 2 * s,
            2 * t <= m + 4 * ((m + 9) * u),
            -(m + 4 * ((m + 9) * u)) <= 2 * t,
            m >= 1,
            u >= 1,
    ;
}

/// Bound on one rounded square term of the normalized dot product.
proof fn lemma_unit_square_term(x: int)
    requires
        -((UNIT as int) + 91) <= x <= (UNIT as int) + 91,
    ensures
        mul_spec(x, x) == round_unit(x * x),
        0 <= mul_spec(x, x) <= 100_000_000_000,
        2 * (mul_spec(x, x) * (UNIT as int) - x * x) <= UNIT,
        -(UNIT as int) < 2 * (mul_spec(x, x) * (UNIT as int) - x * x),
{
    lemma_square_term(x);
}

/// A ray that hits nothing sees black, whatever the recursion budget.
pub proof fn lemma_miss_is_black(w: World, r: Ray, remaining: int)
    requires
        hit_spec(intersect_world_spec(w, r)) is None,
    ensures
        color_at_spec(w, r, remaining) == (Color { r: 0i64, g: 0i64, b: 0i64 }),
{
}

/// Two full renders of the same one-sample camera and world agree pixel
/// by pixel, however their scanlines were scheduled: each buffer equals
/// the one pixel function of the camera and the world.
pub proof fn lemma_partition_agreement(
    c: crate::camera::Camera,
    w: World,
    first: Seq<Color>,
    second: Seq<Color>,
)
    requires
        c.samples_pre_pixel == 1,
        c.hsize >= 1,
        first.len() == c.hsize * c.vsize,
        second.len() == c.hsize * c.vsize,
        forall|x: int, y: int|
            0 <= x < c.hsize && 0 <= y < c.vsize ==> #[trigger] first[y * c.hsize + x]
                == crate::camera::pixel_spec(c, w, x, y),
        forall|x: int, y: int|
            0 <= x < c.hsize && 0 <= y < c.vsize ==> #[trigger] second[y * c.hsize + x]
                == crate::camera::pixel_spec(c, w, x, y),
    ensures
        first =~= second,
{
    assert forall|k: int| 0 <= k < first.len() implies first[k] == second[k] by {
        let w0 = c.hsize as int;
        let y = k / w0;
        let x = k % w0;
        vstd::arithmetic::div_mod::lemma_fundamental_div_mod(k, w0);
        assert(0 <= x < w0) by (nonlinear_arith)
            requires
                x == k % w0,
                w0 >= 1,
        ;
        assert(0 <= y < c.vsize) by (nonlinear_arith)
            requires
                k == w0 * y + x,
                0 <= x < w0,
                0 <= k,
                k < c.hsize * c.vsize,
                w0 == c.hsize,
                w0 >= 1,
        ;
        assert(k == y * w0 + x) by (nonlinear_arith)
            requires
                k == w0 * y + x,
        ;
        assert(first[y * w0 + x] == crate::camera::pixel_spec(c, w, x, y));
        assert(second[y * w0 + x] == crate::camera::pixel_spec(c, w, x, y));
    }
}

/// A world normal is the normalization of the transformed local normal;
/// whenever that vector is big enough for the fixed-point division, the
/// normal is a unit vector to within EPSILON.
pub proof fn lemma_world_normal_unit(s: Shape, p: crate::tuple::Point)
    requires
        ({
            let w = crate::matrix::apply_vector_spec(
                transpose_spec(s.transform.inverse),
                crate::shape::local_normal_spec(
                    s,
                    crate::matrix::apply_point_spec(s.transform.inverse, p),
                ),
            );
            abs_spec(w.x as int) <= 1_000_000_000 && abs_spec(w.y as int) <= 1_000_000_000
                && abs_spec(w.z as int) <= 1_000_000_000 && crate::tuple::magnitude_spec(w)
                >= 1_000_000
        }),
    ensures
        abs_spec(
            crate::tuple::magnitude_spec(crate::shape::get_normal_spec(s, p)) - UNIT,
        ) < EPSILON,
{
    let w = crate::matrix::apply_vector_spec(
        transpose_spec(s.transform.inverse),
        crate::shape::local_normal_spec(
            s,
            crate::matrix::apply_point_spec(s.transform.inverse, p),
        ),
    );
    lemma_normalize_unit_magnitude(w);
}

/// Two intersection lists agree in their t values, position by position.
pub open spec fn ts_eq(a: Seq<Intersection>, b: Seq<Intersection>) -> bool {
    a.len() == b.len() && forall|k: int| 0 <= k < a.len() ==> a[k].t == #[trigger] b[k].t
}

proof fn lemma_insert_ts(a: Seq<Intersection>, b: Seq<Intersection>, x: Intersection, y: Intersection)
    requires
        ts_eq(a, b),
        x.t == y.t,
    ensures
        ts_eq(crate::world::insert_by_t(a, x), crate::world::insert_by_t(b, y)),
    decreases a.len(),
{
    if a.len() == 0 {
        assert(ts_eq(seq![x], seq![y]));
    } else {
        assert(a.last().t == b.last().t);
        if x.t < a.last().t {
            assert(ts_eq(a.drop_last(), b.drop_last()));
            lemma_insert_ts(a.drop_last(), b.drop_last(), x, y);
            let ra = crate::world::insert_by_t(a.drop_last(), x).push(a.last());
            let rb = crate::world::insert_by_t(b.drop_last(), y).push(b.last());
            assert(ts_eq(ra, rb));
        } else {
            assert(ts_eq(a.push(x), b.push(y)));
        }
    }
}

proof fn lemma_sort_ts(a: Seq<Intersection>, b: Seq<Intersection>)
    requires
        ts_eq(a, b),
    ensures
        ts_eq(crate::world::sort_by_t_spec(a), crate::world::sort_by_t_spec(b)),
    decreases a.len(),
{
    if a.len() > 0 {
        assert(ts_eq(a.drop_last(), b.drop_last()));
        lemma_sort_ts(a.drop_last(), b.drop_last());
        lemma_insert_ts(
            crate::world::sort_by_t_spec(a.drop_last()),
            crate::world::sort_by_t_spec(b.drop_last()),
            a.last(),
            b.last(),
        );
    }
}

proof fn lemma_hit_ts(a: Seq<Intersection>, b: Seq<Intersection>)
    requires
        ts_eq(a, b),
    ensures
        match (hit_spec(a), hit_spec(b)) {
            (Some(x), Some(y)) => x.t == y.t,
            (None, None) => true,
            _ => false,
        },
    decreases a.len(),
{
    if a.len() > 0 {
        assert(ts_eq(a.drop_last(), b.drop_last()));
        lemma_hit_ts(a.drop_last(), b.drop_last());
        assert(a.last().t == b.last().t);
    }
}

/// Option-valued t agreement for local intersection lists.
pub open spec fn opt_ts_eq(a: Option<Seq<Intersection>>, b: Option<Seq<Intersection>>) -> bool {
    match (a, b) {
        (Some(sa), Some(sb)) => ts_eq(sa, sb),
        (None, None) => true,
        _ => false,
    }
}

/// Local intersection t values depend only on the shape's kind and the
/// local ray, never on its transform, material or identity.
#[verifier::rlimit(100)]
proof fn lemma_local_intersect_ts(s1: Shape, s2: Shape, r: Ray)
    requires
        s1.kind == s2.kind,
    ensures
        opt_ts_eq(
            crate::shape::local_intersect_spec(s1, r),
            crate::shape::local_intersect_spec(s2, r),
        ),
{
    match s1.kind {
        crate::shape::ShapeKind::Sphere => {
            match crate::shape::sphere_intersect_spec(s1, r) {
                Some(sa) => {
                    let sb = crate::shape::sphere_intersect_spec(s2, r).unwrap();
                    assert(ts_eq(sa, sb));
                },
                None => {},
            }
        },
        crate::shape::ShapeKind::Plane => {
            match crate::shape::plane_intersect_spec(s1, r) {
                Some(sa) => {
                    let sb = crate::shape::plane_intersect_spec(s2, r).unwrap();
                    assert(ts_eq(sa, sb));
                },
                None => {},
            }
        },
        crate::shape::ShapeKind::Cube => {
            match crate::shape::cube_intersect_spec(s1, r) {
                Some(sa) => {
                    let sb = crate::shape::cube_intersect_spec(s2, r).unwrap();
                    assert(ts_eq(sa, sb));
                },
                None => {},
            }
        },
        crate::shape::ShapeKind::Cylinder { minimum, maximum, closed } => {
            let ca = crate::shape::caps_spec(s1, r, minimum as int, maximum as int, closed);
            let cb = crate::shape::caps_spec(s2, r, minimum as int, maximum as int, closed);
            assert(ts_eq(ca, cb));
            match crate::shape::cylinder_intersect_spec(s1, r, minimum as int, maximum as int, closed) {
                Some(sa) => {
                    let sb = crate::shape::cylinder_intersect_spec(
                        s2,
                        r,
                        minimum as int,
                        maximum as int,
                        closed,
                    ).unwrap();
                    assert(ts_eq(sa, sb));
                },
                None => {},
            }
        },
    }
}

/// Applying the identity matrix moves nothing.
proof fn lemma_identity_apply(p: crate::tuple::Point, d: crate::tuple::Vector)
    requires
        crate::tuple::point_ok(p),
        crate::tuple::vec_ok(d),
    ensures
        crate::matrix::apply_point_spec(identity_spec(), p) == p,
        crate::matrix::apply_vector_spec(identity_spec(), d) == d,
{
    assert forall|a: int| fx_ok(a) implies #[trigger] round_unit((UNIT as int) * a) == a
        && clamp_spec(a) == a by {
        lemma_round_exact(a);
        assert(a * (UNIT as int) == (UNIT as int) * a) by (nonlinear_arith);
    }
}

/// Applying the inverse translation to a translated point or a direction
/// is exact: translation by whole scalars never rounds.
proof fn lemma_translation_cancels(p: crate::tuple::Point, v: crate::tuple::Vector, d: crate::tuple::Vector)
    requires
        abs_spec(p.x as int) <= 250_000_000_000,
        abs_spec(p.y as int) <= 250_000_000_000,
        abs_spec(p.z as int) <= 250_000_000_000,
        abs_spec(v.x as int) <= 250_000_000_000,
        abs_spec(v.y as int) <= 250_000_000_000,
        abs_spec(v.z as int) <= 250_000_000_000,
        crate::tuple::vec_ok(d),
    ensures
        crate::matrix::apply_point_spec(
            crate::matrix::translation_spec(crate::tuple::vec_negate_spec(v)),
            crate::tuple::point_plus_spec(p, v),
        ) == p,
        crate::matrix::apply_vector_spec(
            crate::matrix::translation_spec(crate::tuple::vec_negate_spec(v)),
            d,
        ) == d,
{
    let u = UNIT as int;
    assert forall|a: int, b: int|
        abs_spec(a) <= 250_000_000_000 && abs_spec(b) <= 250_000_000_000 implies #[trigger] round_unit(
        u * add_spec(a, b) + sub_spec(0, b) * u) == a && clamp_spec(a) == a by {
        assert(add_spec(a, b) == a + b);
        assert(sub_spec(0, b) == -b);
        assert(u * (a + b) + (-b) * u == a * u) by (nonlinear_arith);
        lemma_round_exact(a);
    }
    assert forall|a: int| fx_ok(a) implies #[trigger] round_unit(u * a) == a && clamp_spec(a)
        == a by {
        lemma_round_exact(a);
        assert(a * u == u * a) by (nonlinear_arith);
    }
}

/// The shadow test is invariant under translating the whole scene: a
/// world of identity-placed shapes, its light and the query point may all
/// move by the same vector without changing the answer. Saturation is
/// kept away by the coordinate bounds.
pub proof fn lemma_shadow_translation_invariant(
    w1: World,
    w2: World,
    v: crate::tuple::Vector,
    p: crate::tuple::Point,
)
    requires
        abs_spec(p.x as int) <= 250_000_000_000,
        abs_spec(p.y as int) <= 250_000_000_000,
        abs_spec(p.z as int) <= 250_000_000_000,
        abs_spec(v.x as int) <= 250_000_000_000,
        abs_spec(v.y as int) <= 250_000_000_000,
        abs_spec(v.z as int) <= 250_000_000_000,
        abs_spec(w1.light_source.position.x as int) <= 250_000_000_000,
        abs_spec(w1.light_source.position.y as int) <= 250_000_000_000,
        abs_spec(w1.light_source.position.z as int) <= 250_000_000_000,
        w2.light_source.position == crate::tuple::point_plus_spec(w1.light_source.position, v),
        w2.objects@.len() == w1.objects@.len(),
        forall|k: int|
            0 <= k < w1.objects@.len() ==> (#[trigger] w1.objects@[k]).transform.inverse
                == identity_spec(),
        forall|k: int|
            0 <= k < w1.objects@.len() ==> (#[trigger] w2.objects@[k]).kind == w1.objects@[k].kind
                && w2.objects@[k].transform.inverse == crate::matrix::translation_spec(
                crate::tuple::vec_negate_spec(v),
            ),
    ensures
        crate::world::is_shadowed_spec(w2, crate::tuple::point_plus_spec(p, v))
            == crate::world::is_shadowed_spec(w1, p),
{
    let q = crate::tuple::point_plus_spec(p, v);
    let l1 = w1.light_source.position;
    let l2 = w2.light_source.position;
    // the shadow vector is the same on both sides.
    let sv1 = crate::tuple::point_minus_spec(l1, p);
    let sv2 = crate::tuple::point_minus_spec(l2, q);
    assert(sv2 == sv1);
    let direction = crate::tuple::normalize_spec(sv1);
    assert(crate::tuple::vec_ok(sv1));
    assert(crate::tuple::vec_ok(direction)) by {
        lemma_normalize_in_range(sv1);
    }
    let r1 = Ray { origin: p, direction };
    let r2 = Ray { origin: q, direction };
    // every shape sees the same local ray on both sides.
    lemma_gather_ts(w1.objects@, w2.objects@, r1, r2, v);
    lemma_sort_ts(
        crate::world::gather_spec(w1.objects@, r1),
        crate::world::gather_spec(w2.objects@, r2),
    );
    lemma_hit_ts(
        crate::world::intersect_world_spec(w1, r1),
        crate::world::intersect_world_spec(w2, r2),
    );
}

/// Normalization keeps a well-formed vector inside the scalar range.
proof fn lemma_normalize_in_range(w: crate::tuple::Vector)
    requires
        crate::tuple::vec_ok(w),
    ensures
        crate::tuple::vec_ok(crate::tuple::normalize_spec(w)),
{
}

/// Translated shapes gather the same t values as the identity-placed
/// originals, shape by shape.
proof fn lemma_gather_ts(
    a: Seq<Shape>,
    b: Seq<Shape>,
    r1: Ray,
    r2: Ray,
    v: crate::tuple::Vector,
)
    requires
        a.len() == b.len(),
        forall|k: int|
            0 <= k < a.len() ==> (#[trigger] a[k]).transform.inverse == identity_spec(),
        forall|k: int|
            0 <= k < a.len() ==> (#[trigger] b[k]).kind == a[k].kind && b[k].transform.inverse
                == crate::matrix::translation_spec(crate::tuple::vec_negate_spec(v)),
        r2.origin == crate::tuple::point_plus_spec(r1.origin, v),
        r2.direction == r1.direction,
        abs_spec(r1.origin.x as int) <= 250_000_000_000,
        abs_spec(r1.origin.y as int) <= 250_000_000_000,
        abs_spec(r1.origin.z as int) <= 250_000_000_000,
        abs_spec(v.x as int) <= 250_000_000_000,
        abs_spec(v.y as int) <= 250_000_000_000,
        abs_spec(v.z as int) <= 250_000_000_000,
        crate::tuple::vec_ok(r1.direction),
    ensures
        ts_eq(crate::world::gather_spec(a, r1), crate::world::gather_spec(b, r2)),
    decreases a.len(),
{
    if a.len() == 0 {
    } else {
        assert(forall|k: int|
            0 <= k < a.drop_last().len() ==> (#[trigger] a.drop_last()[k]).transform.inverse
                == identity_spec());
        assert(forall|k: int|
            0 <= k < a.drop_last().len() ==> (#[trigger] b.drop_last()[k]).kind
                == a.drop_last()[k].kind && b.drop_last()[k].transform.inverse
                == crate::matrix::translation_spec(crate::tuple::vec_negate_spec(v)));
        lemma_gather_ts(a.drop_last(), b.drop_last(), r1, r2, v);
        let s1 = a.last();
        let s2 = b.last();
        assert(s1.transform.inverse == identity_spec());
        assert(s2.kind == s1.kind);
        lemma_identity_apply(r1.origin, r1.direction);
        lemma_translation_cancels(r1.origin, v, r1.direction);
        let local1 = crate::ray::ray_transform_spec(r1, s1.transform.inverse);
        let local2 = crate::ray::ray_transform_spec(r2, s2.transform.inverse);
        assert(local1 == r1);
        assert(local2 == r1);
        lemma_local_intersect_ts(s1, s2, r1);
        let g1 = crate::world::gather_spec(a.drop_last(), r1);
        let g2 = crate::world::gather_spec(b.drop_last(), r2);
        let t1: Seq<Intersection> = match crate::shape::intersect_spec(s1, r1) {
            Some(x) => x,
            None => Seq::empty(),
        };
        let t2: Seq<Intersection> = match crate::shape::intersect_spec(s2, r2) {
            Some(x) => x,
            None => Seq::empty(),
        };
        assert(ts_eq(t1, t2));
        assert(ts_eq(g1 + t1, g2 + t2)) by {
            assert((g1 + t1).len() == (g2 + t2).len());
            assert forall|k: int| 0 <= k < (g1 + t1).len() implies (g1 + t1)[k].t == #[trigger] (
            g2 + t2)[k].t by {
                if k < g1.len() {
                    assert((g1 + t1)[k] == g1[k]);
                    assert((g2 + t2)[k] == g2[k]);
                } else {
                    assert((g1 + t1)[k] == t1[k - g1.len()]);
                    assert((g2 + t2)[k] == t2[k - g2.len()]);
                }
            }
        }
    }
}

} // verus!
