use tracer::matrix::Transform;
use tracer::ray::Ray;
use tracer::shape::Intersection;
use tracer::shape::Plane;
use tracer::shape::Sphere;
use tracer::tuple::Point;
use tracer::tuple::Vector;

fn u(x: f64) -> i64 {
    (x * 10_000_000.0).round() as i64
}

#[test]
pub fn when_all_t_positive() {
    let s = Sphere::static_default();
    let i1 = Intersection::new(u(1.0), s);
    let i2 = Intersection::new(u(2.0), s);
    let h = Intersection::get_hit(&vec![i1, i2]);
    assert_eq!(h.unwrap().t, u(1.0));
}

#[test]
pub fn when_some_negative_t() {
    let s = Sphere::static_default();
    let i1 = Intersection::new(u(1.0), s);
    let i2 = Intersection::new(u(-1.0), s);
    let h = Intersection::get_hit(&vec![i1, i2]);
    assert_eq!(h.unwrap().t, u(1.0));
}

#[test]
pub fn when_all_negative_t() {
    let s = Sphere::static_default();
    let i1 = Intersection::new(u(-2.0), s);
    let i2 = Intersection::new(u(-1.0), s);
    let h = Intersection::get_hit(&vec![i1, i2]);
    assert!(h.is_none());
}

#[test]
pub fn always_lowest_nonnegative() {
    let s = Sphere::static_default();
    let i1 = Intersection::new(u(5.0), s);
    let i2 = Intersection::new(u(-7.0), s);
    let i3 = Intersection::new(u(-3.0), s);
    let i4 = Intersection::new(u(2.0), s);
    let h = Intersection::get_hit(&vec![i1, i2, i3, i4]);
    assert_eq!(h.unwrap().t, u(2.0));
}

#[test]
pub fn precompute_the_state_of_intersection() {
    let r = Ray::new(Point::new(u(0.0), u(0.0), u(-5.0)), Vector::new(u(0.0), u(0.0), u(1.0)));
    let shape = Sphere::static_default();
    let i = Intersection::new(u(4.0), shape);
    let ph = i.precompute_hit(&r, &vec![i]);
    assert!(ph.point.approx_eq(&Point::new(u(0.0), u(0.0), u(-1.0))));
    assert!(ph.eye.approx_eq(&Vector::new(u(0.0), u(0.0), u(-1.0))));
    assert!(ph.normal.approx_eq(&Vector::new(u(0.0), u(0.0), u(-1.0))));
    assert!(!ph.inside);
}

#[test]
pub fn hit_when_intersection_inside() {
    let r = Ray::new(Point::new(u(0.0), u(0.0), u(0.0)), Vector::new(u(0.0), u(0.0), u(1.0)));
    let shape = Sphere::static_default();
    let i = Intersection::new(u(1.0), shape);
    let ph = i.precompute_hit(&r, &vec![i]);
    assert!(ph.point.approx_eq(&Point::new(u(0.0), u(0.0), u(1.0))));
    assert!(ph.eye.approx_eq(&Vector::new(u(0.0), u(0.0), u(-1.0))));
    assert!(ph.normal.approx_eq(&Vector::new(u(0.0), u(0.0), u(-1.0))));
    assert!(ph.inside);
}

#[test]
pub fn hit_should_offset_point() {
    let r = Ray::new(Point::new(u(0.0), u(0.0), u(-5.0)), Vector::new(u(0.0), u(0.0), u(1.0)));
    let shape = Sphere::static_default()
        .set_transform(Transform::identity().translate(&Vector::new(u(0.0), u(0.0), u(1.0))));
    let i = Intersection::new(u(5.0), shape);
    let comps = i.precompute_hit(&r, &vec![i]);
    assert!(comps.over_point.z < -tracer::EPSILON / 2);
    assert!(comps.point.z > comps.over_point.z);
}

#[test]
pub fn hit_refractive_should_offset_point() {
    let r = Ray::new(Point::new(u(0.0), u(0.0), u(-5.0)), Vector::new(u(0.0), u(0.0), u(1.0)));
    let s = Sphere::static_glass_sphere()
        .set_transform(Transform::identity().translate(&Vector::new(u(0.0), u(0.0), u(1.0))));
    let i = Intersection::new(u(5.0), s);
    let comps = i.precompute_hit(&r, &vec![i]);
    assert!(comps.point.z < comps.under_point.z);
}

#[test]
pub fn precomputing_reflection_vector() {
    let h = (2.0_f64).sqrt() / 2.0;
    let r = Ray::new(Point::new(u(0.0), u(1.0), u(-1.0)), Vector::new(u(0.0), u(-h), u(h)));
    let i = Intersection::new(u((2.0_f64).sqrt()), Plane::static_default());
    let comps = i.precompute_hit(&r, &vec![i]);
    assert!(comps.reflected_vector.approx_eq(&Vector::new(u(0.0), u(h), u(h))));
}

#[test]
pub fn schlick_under_total_internal_reflection() {
    let s = Sphere::static_glass_sphere();
    let h = (2.0_f64).sqrt() / 2.0;
    let r = Ray::new(Point::new(u(0.0), u(0.0), u(h)), Vector::new(u(0.0), u(1.0), u(0.0)));
    let i = vec![Intersection::new(u(-h), s), Intersection::new(u(h), s)];
    let comps = i[1].precompute_hit(&r, &i);
    let reflectance = comps.schlick_reflectance();
    assert_eq!(reflectance, u(1.0));
}

#[test]
pub fn schlick_with_perpendicular_angle() {
    let s = Sphere::static_glass_sphere();
    let r = Ray::new(Point::new(u(0.0), u(0.0), u(0.0)), Vector::new(u(0.0), u(1.0), u(0.0)));
    let i = vec![Intersection::new(u(-1.0), s), Intersection::new(u(1.0), s)];
    let comps = i[1].precompute_hit(&r, &i);
    let reflectance = comps.schlick_reflectance();
    assert!(tracer::fx::approx_eq(reflectance, u(0.04)));
}

#[test]
pub fn schlick_reflactance_with_small_angle_and_n2_gt_n1() {
    let s = Sphere::static_glass_sphere();
    let r = Ray::new(Point::new(u(0.0), u(0.99), u(-2.0)), Vector::new(u(0.0), u(0.0), u(1.0)));
    let i = vec![Intersection::new(u(1.8589), s)];
    let comps = i[0].precompute_hit(&r, &i);
    let reflectance = comps.schlick_reflectance();
    assert!(tracer::fx::approx_eq(reflectance, u(0.48873067)));
}
