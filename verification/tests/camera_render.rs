use tracer::camera::Camera;
use tracer::matrix::Transform;
use tracer::tuple::Color;
use tracer::tuple::Point;
use tracer::tuple::Vector;
use tracer::world::World;

fn u(x: f64) -> i64 {
    (x * 10_000_000.0).round() as i64
}

fn half_view_of(fov: f64) -> i64 {
    u((fov / 2.0).tan())
}

#[test]
pub fn pixel_size_for_vertical_canvas() {
    let c = Camera::new(125, 200, half_view_of(std::f64::consts::FRAC_PI_2));
    assert!(tracer::fx::approx_eq(c.pixel_size, u(0.01)));
}

#[test]
pub fn pixel_size_for_horizontal_canvas() {
    let c = Camera::new(200, 125, half_view_of(std::f64::consts::FRAC_PI_2));
    assert!(tracer::fx::approx_eq(c.pixel_size, u(0.01)));
}

#[test]
pub fn ray_through_center_of_canvas() {
    let mut c = Camera::new(201, 101, half_view_of(std::f64::consts::FRAC_PI_2));
    c.samples_pre_pixel = 1;
    let r = c.ray_for_pixel(100, 50);
    assert!(r.origin.approx_eq(&Point::new(u(0.0), u(0.0), u(0.0))));
    assert!(r.direction.approx_eq(&Vector::new(u(0.0), u(0.0), u(-1.0))));
}

#[test]
pub fn ray_through_corner_of_canvas() {
    let mut c = Camera::new(201, 101, half_view_of(std::f64::consts::FRAC_PI_2));
    c.samples_pre_pixel = 1;
    let r = c.ray_for_pixel(0, 0);
    assert!(r.origin.approx_eq(&Point::new(u(0.0), u(0.0), u(0.0))));
    assert!(r.direction.approx_eq(&Vector::new(u(0.66519), u(0.33259), u(-0.66851))));
}

#[test]
pub fn ray_when_camera_is_transformed() {
    let mut c = Camera::new(201, 101, half_view_of(std::f64::consts::FRAC_PI_2));
    c.samples_pre_pixel = 1;
    let q = std::f64::consts::FRAC_PI_4;
    c.transform = Transform::identity()
        .translate(&Vector::new(u(0.0), u(-2.0), u(5.0)))
        .rotate_y(u(q.cos()), u(q.sin()));
    let r = c.ray_for_pixel(100, 50);
    let h = (2.0_f64).sqrt() / 2.0;
    assert!(r.origin.approx_eq(&Point::new(u(0.0), u(2.0), u(-5.0))));
    assert!(r.direction.approx_eq(&Vector::new(u(h), u(0.0), u(-h))));
}

#[test]
pub fn render_world_with_camera() {
    let w = World::default();
    let mut c = Camera::new(11, 11, half_view_of(std::f64::consts::FRAC_PI_2));
    c.samples_pre_pixel = 1;
    c.set_transform(
        Point::new(u(0.0), u(0.0), u(-5.0)),
        Point::zero(),
        Vector::new(u(0.0), u(1.0), u(0.0)),
    );
    let image = c.render(&w);
    let pixel = image.pixel_at(5, 5).unwrap();
    assert!(pixel.approx_eq(&Color::new(u(0.38066), u(0.47582), u(0.28549))));
}

#[test]
pub fn jittered_sampling_varies_within_the_pixel() {
    let mut c = Camera::new(201, 101, half_view_of(std::f64::consts::FRAC_PI_2));
    c.samples_pre_pixel = 10;
    let mut distinct = false;
    let first = c.ray_for_pixel(100, 50);
    for _ in 0..50 {
        let r = c.ray_for_pixel(100, 50);
        assert!(r.direction.z < 0);
        if r.direction != first.direction {
            distinct = true;
        }
    }
    assert!(distinct);
}
