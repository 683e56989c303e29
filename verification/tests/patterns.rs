use tracer::matrix::Transform;
use tracer::pattern::Checkers;
use tracer::pattern::LinearGradient;
use tracer::pattern::Ring;
use tracer::pattern::Stripe;
use tracer::shape::Sphere;
use tracer::tuple::Color;
use tracer::tuple::Point;
use tracer::tuple::Vector;

fn u(x: f64) -> i64 {
    (x * 10_000_000.0).round() as i64
}

fn white() -> Color {
    Color::white()
}

fn black() -> Color {
    Color::black()
}

#[test]
pub fn stripe_pattern_is_constant_in_y() {
    let pattern = Stripe::new(white(), black());
    assert!(pattern.color_at(&Point::new(u(0.0), u(0.0), u(0.0))).approx_eq(&white()));
    assert!(pattern.color_at(&Point::new(u(0.0), u(1.0), u(0.0))).approx_eq(&white()));
    assert!(pattern.color_at(&Point::new(u(0.0), u(2.0), u(0.0))).approx_eq(&white()));
}

#[test]
pub fn stripe_pattern_is_constant_in_z() {
    let pattern = Stripe::new(white(), black());
    assert!(pattern.color_at(&Point::new(u(0.0), u(0.0), u(0.0))).approx_eq(&white()));
    assert!(pattern.color_at(&Point::new(u(0.0), u(0.0), u(1.0))).approx_eq(&white()));
    assert!(pattern.color_at(&Point::new(u(0.0), u(0.0), u(2.0))).approx_eq(&white()));
}

#[test]
pub fn stripe_pattern_alternates_in_x() {
    let pattern = Stripe::new(white(), black());
    assert!(pattern.color_at(&Point::new(u(0.0), u(0.0), u(0.0))).approx_eq(&white()));
    assert!(pattern.color_at(&Point::new(u(0.9), u(0.0), u(0.0))).approx_eq(&white()));
    assert!(pattern.color_at(&Point::new(u(1.0), u(0.0), u(0.0))).approx_eq(&black()));
    assert!(pattern.color_at(&Point::new(u(-0.1), u(0.0), u(0.0))).approx_eq(&black()));
    assert!(pattern.color_at(&Point::new(u(-1.0), u(0.0), u(0.0))).approx_eq(&black()));
    assert!(pattern.color_at(&Point::new(u(-1.1), u(0.0), u(0.0))).approx_eq(&white()));
}

#[test]
pub fn stripe_with_object_transformation() {
    let obj = Sphere::static_default()
        .set_transform(Transform::identity().scale(&Vector::new(u(2.0), u(2.0), u(2.0))));
    let pattern = Stripe::new(white(), black());
    let c = pattern.color_object(&obj.transform.inverse, &Point::new(u(1.5), u(0.0), u(0.0)));
    assert!(c.approx_eq(&white()));
}

#[test]
pub fn stripe_with_pattern_transformation() {
    let obj = Sphere::static_default();
    let pattern_transform = Transform::identity().scale(&Vector::new(u(2.0), u(2.0), u(2.0)));
    let mut pattern = Stripe::new(white(), black());
    pattern.set_transform(pattern_transform);
    let c = pattern.color_object(&obj.transform.inverse, &Point::new(u(1.5), u(0.0), u(0.0)));
    assert!(c.approx_eq(&white()));
}

#[test]
pub fn stripe_with_both_transforms() {
    let obj = Sphere::static_default()
        .set_transform(Transform::identity().scale(&Vector::new(u(2.0), u(2.0), u(2.0))));
    let mut pattern = Stripe::new(white(), black());
    pattern.set_transform(
        Transform::identity().translate(&Vector::new(u(0.5), u(0.0), u(0.0))),
    );
    let c = pattern.color_object(&obj.transform.inverse, &Point::new(u(2.5), u(0.0), u(0.0)));
    assert!(c.approx_eq(&white()));
}

#[test]
pub fn checkers_should_repeat_in_x() {
    let pattern = Checkers::new(white(), black());
    assert!(pattern.color_at(&Point::new(u(0.0), u(0.0), u(0.0))).approx_eq(&white()));
    assert!(pattern.color_at(&Point::new(u(0.99), u(0.0), u(0.0))).approx_eq(&white()));
    assert!(pattern.color_at(&Point::new(u(1.01), u(0.0), u(0.0))).approx_eq(&black()));
}

#[test]
pub fn checkers_should_repeat_in_y() {
    let pattern = Checkers::new(white(), black());
    assert!(pattern.color_at(&Point::new(u(0.0), u(0.0), u(0.0))).approx_eq(&white()));
    assert!(pattern.color_at(&Point::new(u(0.0), u(0.99), u(0.0))).approx_eq(&white()));
    assert!(pattern.color_at(&Point::new(u(0.0), u(1.01), u(0.0))).approx_eq(&black()));
}

#[test]
pub fn checkers_should_repeat_in_z() {
    let pattern = Checkers::new(white(), black());
    assert!(pattern.color_at(&Point::new(u(0.0), u(0.0), u(0.0))).approx_eq(&white()));
    assert!(pattern.color_at(&Point::new(u(0.0), u(0.0), u(0.99))).approx_eq(&white()));
    assert!(pattern.color_at(&Point::new(u(0.0), u(0.0), u(1.01))).approx_eq(&black()));
}

#[test]
pub fn ring_should_extend_in_both_x_and_z() {
    let pattern = Ring::new(white(), black());
    assert!(pattern.color_at(&Point::new(u(0.0), u(0.0), u(0.0))).approx_eq(&white()));
    assert!(pattern.color_at(&Point::new(u(1.0), u(0.0), u(0.0))).approx_eq(&black()));
    assert!(pattern.color_at(&Point::new(u(0.0), u(0.0), u(1.0))).approx_eq(&black()));
    assert!(pattern.color_at(&Point::new(u(0.708), u(0.0), u(0.708))).approx_eq(&black()));
}

#[test]
pub fn linearly_interpolates_between_colors() {
    let pattern = LinearGradient::new(white(), black());
    assert!(pattern.color_at(&Point::zero()).approx_eq(&white()));
    assert!(pattern.color_at(&Point::new(u(0.25), u(0.0), u(0.0))).approx_eq(
        &Color::new(u(0.75), u(0.75), u(0.75)),
    ));
    assert!(pattern.color_at(&Point::new(u(0.5), u(0.0), u(0.0))).approx_eq(
        &Color::new(u(0.5), u(0.5), u(0.5)),
    ));
    assert!(pattern.color_at(&Point::new(u(0.75), u(0.0), u(0.0))).approx_eq(
        &Color::new(u(0.25), u(0.25), u(0.25)),
    ));
}
