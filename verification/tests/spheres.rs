use tracer::matrix::Transform;
use tracer::ray::Ray;
use tracer::shape::Sphere;
use tracer::tuple::Point;
use tracer::tuple::Vector;

fn u(x: f64) -> i64 {
    (x * 10_000_000.0).round() as i64
}

#[test]
pub fn ray_intersects_sphere_at_two_points() {
    let r = Ray::new(Point::new(u(0.0), u(0.0), u(-5.0)), Vector::new(u(0.0), u(0.0), u(1.0)));
    let s = Sphere::static_default();
    let roots = s.intersect(&r).unwrap();
    assert!(tracer::fx::approx_eq(roots[0].t, u(4.0)));
    assert!(tracer::fx::approx_eq(roots[1].t, u(6.0)));
}

#[test]
pub fn ray_intersects_sphere_at_one_point() {
    let r = Ray::new(Point::new(u(0.0), u(1.0), u(-5.0)), Vector::new(u(0.0), u(0.0), u(1.0)));
    let s = Sphere::static_default();
    let roots = s.intersect(&r).unwrap();
    assert!(tracer::fx::approx_eq(roots[0].t, u(5.0)));
    assert!(tracer::fx::approx_eq(roots[1].t, u(5.0)));
}

#[test]
pub fn ray_missed_sphere() {
    let r = Ray::new(Point::new(u(0.0), u(2.0), u(-5.0)), Vector::new(u(0.0), u(0.0), u(1.0)));
    let s = Sphere::static_default();
    let roots = s.intersect(&r);
    assert!(roots.is_none());
}

#[test]
pub fn ray_originates_inside_sphere() {
    let r = Ray::new(Point::new(u(0.0), u(0.0), u(0.0)), Vector::new(u(0.0), u(0.0), u(1.0)));
    let s = Sphere::static_default();
    let roots = s.intersect(&r).unwrap();
    assert!(tracer::fx::approx_eq(roots[0].t, u(-1.0)));
    assert!(tracer::fx::approx_eq(roots[1].t, u(1.0)));
}

#[test]
pub fn ray_is_behind_sphere() {
    let r = Ray::new(Point::new(u(0.0), u(0.0), u(5.0)), Vector::new(u(0.0), u(0.0), u(1.0)));
    let s = Sphere::static_default();
    let roots = s.intersect(&r).unwrap();
    assert!(tracer::fx::approx_eq(roots[0].t, u(-6.0)));
    assert!(tracer::fx::approx_eq(roots[1].t, u(-4.0)));
}

#[test]
pub fn changing_the_sphere_transform() {
    let s = Sphere::static_default();
    let t = Transform::identity().translate(&Vector::new(u(2.0), u(3.0), u(4.0)));
    let s2 = s.set_transform(t);
    assert_eq!(s2.get_transform(), t);
}

#[test]
pub fn intersect_scaled_sphere_with_ray() {
    let r = Ray::new(Point::new(u(0.0), u(0.0), u(-5.0)), Vector::new(u(0.0), u(0.0), u(1.0)));
    let s = Sphere::static_default()
        .set_transform(Transform::identity().scale(&Vector::new(u(2.0), u(2.0), u(2.0))));
    let intersects = s.intersect(&r).unwrap();
    assert!(tracer::fx::approx_eq(intersects[0].t, u(3.0)));
    assert!(tracer::fx::approx_eq(intersects[1].t, u(7.0)));
}

#[test]
pub fn intersect_translated_ray_with_sphere() {
    let r = Ray::new(Point::new(u(0.0), u(0.0), u(-5.0)), Vector::new(u(0.0), u(0.0), u(1.0)));
    let s = Sphere::static_default()
        .set_transform(Transform::identity().translate(&Vector::new(u(5.0), u(0.0), u(0.0))));
    let intersects = s.intersect(&r);
    assert!(intersects.is_none());
}

#[test]
pub fn normal_at_nonaxial_point() {
    let s = Sphere::static_default();
    let q = (3.0_f64).sqrt() / 3.0;
    let p = Point::new(u(q), u(q), u(q));
    let n = s.get_normal(&p);
    assert!(n.approx_eq(&Vector::new(u(q), u(q), u(q))));
}

#[test]
pub fn normal_is_normalized_vector() {
    let s = Sphere::static_default();
    let q = (3.0_f64).sqrt() / 3.0;
    let p = Point::new(u(q), u(q), u(q));
    let n = s.get_normal(&p);
    assert!(n.approx_eq(&n.normalize()));
}

#[test]
pub fn normal_of_translated_sphere() {
    let s = Sphere::static_default()
        .set_transform(Transform::identity().translate(&Vector::new(u(0.0), u(1.0), u(0.0))));
    let n = s.get_normal(&Point::new(u(0.0), u(1.70711), u(-0.70711)));
    assert!(n.approx_eq(&Vector::new(u(0.0), u(0.70711), u(-0.70711))));
}

#[test]
pub fn normal_of_transformed_sphere() {
    let fifth = std::f64::consts::PI / 5.0;
    let s = Sphere::static_default().set_transform(
        Transform::identity()
            .rotate_z(u(fifth.cos()), u(fifth.sin()))
            .scale(&Vector::new(u(1.0), u(0.5), u(1.0))),
    );
    let h = (2.0_f64).sqrt() / 2.0;
    let n = s.get_normal(&Point::new(u(0.0), u(h), u(-h)));
    assert!(n.approx_eq(&Vector::new(u(0.0), u(0.97014), u(-0.24254))));
}
