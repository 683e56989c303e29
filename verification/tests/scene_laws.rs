use tracer::camera::Camera;
use tracer::light::PointLight;
use tracer::material::Material;
use tracer::matrix::Matrix4;
use tracer::matrix::Transform;
use tracer::ray::Ray;
use tracer::shape::Cube;
use tracer::shape::Cylinder;
use tracer::shape::Intersection;
use tracer::shape::Plane;
use tracer::shape::Sphere;
use tracer::tuple::Color;
use tracer::tuple::Point;
use tracer::tuple::Vector;
use tracer::world::World;

fn u(x: f64) -> i64 {
    (x * 10_000_000.0).round() as i64
}

fn glass_with(index: f64) -> Material {
    Material {
        transparency: u(1.0),
        refractive_index: u(index),
        ..Default::default()
    }
}

#[test]
pub fn finding_n1_and_n2_at_various_intersections() {
    let a = Sphere::default_with_material(glass_with(1.5))
        .set_transform(Transform::identity().scale(&Vector::new(u(2.0), u(2.0), u(2.0))));
    let b = Sphere::default_with_material(glass_with(2.0))
        .set_transform(Transform::identity().translate(&Vector::new(u(0.0), u(0.0), u(-0.25))));
    let c = Sphere::default_with_material(glass_with(2.5))
        .set_transform(Transform::identity().translate(&Vector::new(u(0.0), u(0.0), u(0.25))));
    let ray = Ray::new(Point::new(u(0.0), u(0.0), u(-4.0)), Vector::new(u(0.0), u(0.0), u(1.0)));
    let xs = vec![
        Intersection::new(u(2.0), a),
        Intersection::new(u(2.75), b),
        Intersection::new(u(3.25), c),
        Intersection::new(u(4.75), b),
        Intersection::new(u(5.25), c),
        Intersection::new(u(6.0), a),
    ];
    let expected: [(f64, f64); 6] = [
        (1.0, 1.5),
        (1.5, 2.0),
        (2.0, 2.5),
        (2.5, 2.5),
        (2.5, 1.5),
        (1.5, 1.0),
    ];
    for (index, pair) in expected.iter().enumerate() {
        let comps = xs[index].precompute_hit(&ray, &xs);
        assert_eq!(comps.n1, u(pair.0));
        assert_eq!(comps.n2, u(pair.1));
    }
}

#[test]
pub fn random_rays_that_miss_see_black() {
    let w = World::default();
    for _ in 0..25 {
        let x: f64 = rand::random_range(-1.0..=1.0);
        let z: f64 = rand::random_range(-1.0..=1.0);
        let r = Ray::new(
            Point::new(u(x), u(10.0), u(z)),
            Vector::new(u(x / 4.0), u(1.0), u(z / 4.0)).normalize(),
        );
        let color = w.color_at(&r, 5);
        assert_eq!(color, Color::black());
    }
}

#[test]
pub fn shadow_test_is_stable_under_world_translation() {
    let v = Vector::new(u(3.0), u(-1.0), u(2.0));
    let light = PointLight::new(
        Point::new(u(-10.0), u(10.0), u(-10.0)),
        Color::new(u(1.0), u(1.0), u(1.0)),
    );
    let sphere = Sphere::static_default();
    let w1 = World::new(light, vec![sphere]);
    let moved = sphere.set_transform(Transform::identity().translate(&v));
    let light2 = PointLight::new(light.position.plus(&v), light.intensity);
    let w2 = World::new(light2, vec![moved]);
    let samples: [[f64; 3]; 4] = [
        [0.0, 10.0, 0.0],
        [10.0, -10.0, 10.0],
        [-20.0, 10.0, -20.0],
        [-2.0, 2.0, -2.0],
    ];
    for s in samples.iter() {
        let p = Point::new(u(s[0]), u(s[1]), u(s[2]));
        let q = p.plus(&v);
        assert_eq!(w1.is_shadowed(&p), w2.is_shadowed(&q));
    }
}

#[test]
pub fn scanline_partitions_agree_pixel_by_pixel() {
    let w = World::default();
    let mut c = Camera::new(7, 5, u(1.0));
    c.samples_pre_pixel = 1;
    c.set_transform(
        Point::new(u(0.0), u(0.0), u(-5.0)),
        Point::zero(),
        Vector::new(u(0.0), u(1.0), u(0.0)),
    );
    let whole = c.render(&w);
    let mut lines: Vec<Vec<Color>> = Vec::new();
    for y in (0..5usize).rev() {
        lines.push(c.render_scanline(&w, y));
    }
    lines.reverse();
    for y in 0..5usize {
        for x in 0..7usize {
            assert_eq!(whole.pixel_at(x, y).unwrap(), lines[y][x]);
        }
    }
}

#[test]
pub fn fresh_shapes_have_distinct_identities() {
    let a = Sphere::static_default();
    let b = Sphere::static_default();
    let c = Plane::static_default();
    assert_ne!(a.get_id(), b.get_id());
    assert_ne!(a.get_id(), c.get_id());
}

#[test]
pub fn transform_pairs_invert_each_other() {
    let q = std::f64::consts::FRAC_PI_4;
    let t = Transform::identity()
        .rotate_x(u(q.cos()), u(q.sin()))
        .scale(&Vector::new(u(2.0), u(3.0), u(4.0)))
        .translate(&Vector::new(u(1.0), u(-2.0), u(3.0)));
    let product = t.direct.times(&t.inverse);
    assert!(product.approx_eq(&Matrix4::identity()));
}

#[test]
pub fn cube_is_hit_on_each_face_and_from_inside() {
    let c = Cube::static_default();
    let hit_x = c
        .intersect(&Ray::new(Point::new(u(5.0), u(0.5), u(0.0)), Vector::new(u(-1.0), u(0.0), u(0.0))))
        .unwrap();
    assert!(tracer::fx::approx_eq(hit_x[0].t, u(4.0)));
    assert!(tracer::fx::approx_eq(hit_x[1].t, u(6.0)));
    let inside = c
        .intersect(&Ray::new(Point::new(u(0.0), u(0.5), u(0.0)), Vector::new(u(0.0), u(0.0), u(1.0))))
        .unwrap();
    assert!(tracer::fx::approx_eq(inside[0].t, u(-1.0)));
    assert!(tracer::fx::approx_eq(inside[1].t, u(1.0)));
    let n = c.local_normal(&Point::new(u(1.0), u(0.5), u(-0.8)));
    assert!(n.approx_eq(&Vector::new(u(1.0), u(0.0), u(0.0))));
}

#[test]
pub fn cylinder_side_and_cap_intersections() {
    let c = Cylinder::static_default();
    let side = c
        .intersect(&Ray::new(Point::new(u(0.0), u(0.0), u(-5.0)), Vector::new(u(0.0), u(0.0), u(1.0))))
        .unwrap();
    assert_eq!(side.len(), 2);
    assert!(tracer::fx::approx_eq(side[0].t, u(4.0)));
    assert!(tracer::fx::approx_eq(side[1].t, u(6.0)));
    let constrained = Cylinder::static_default().set_bounds(u(1.0), u(2.0));
    let through = constrained
        .intersect(&Ray::new(
            Point::new(u(0.0), u(1.5), u(-2.0)),
            Vector::new(u(0.0), u(0.0), u(1.0)),
        ))
        .unwrap();
    assert_eq!(through.len(), 2);
    let capped = constrained.set_closed(true);
    let down = capped
        .intersect(&Ray::new(
            Point::new(u(0.0), u(3.0), u(0.0)),
            Vector::new(u(0.0), u(-1.0), u(0.0)),
        ))
        .unwrap();
    assert_eq!(down.len(), 2);
    let top = capped.local_normal(&Point::new(u(0.3), u(2.0), u(0.0)));
    assert!(top.approx_eq(&Vector::new(u(0.0), u(1.0), u(0.0))));
}

#[test]
pub fn plane_normal_and_parallel_miss() {
    let p = Plane::static_default();
    let n = p.local_normal(&Point::new(u(10.0), u(0.0), u(-10.0)));
    assert!(n.approx_eq(&Vector::new(u(0.0), u(1.0), u(0.0))));
    let parallel = p.intersect(&Ray::new(
        Point::new(u(0.0), u(10.0), u(0.0)),
        Vector::new(u(0.0), u(0.0), u(1.0)),
    ));
    assert!(parallel.is_none());
    let from_above = p
        .intersect(&Ray::new(
            Point::new(u(0.0), u(1.0), u(0.0)),
            Vector::new(u(0.0), u(-1.0), u(0.0)),
        ))
        .unwrap();
    assert!(tracer::fx::approx_eq(from_above[0].t, u(1.0)));
}

#[test]
pub fn shade_hit_of_opaque_surface_is_surface_term() {
    let w = World::default();
    let r = Ray::new(Point::new(u(0.0), u(0.0), u(-5.0)), Vector::new(u(0.0), u(0.0), u(1.0)));
    let shape = w.objects[0];
    let i = Intersection::new(u(4.0), shape);
    let comps = i.precompute_hit(&r, &vec![i]);
    let shadowed = w.is_shadowed(&comps.over_point);
    let surface = w.light_source.calculate_lighting(
        &shape.get_material(),
        &shape,
        &comps.over_point,
        &comps.eye,
        &comps.normal,
        shadowed,
    );
    let shaded = w.shade_hit(&comps, 5);
    assert_eq!(shaded, surface);
}

#[test]
pub fn normalizing_scaled_vectors_gives_unit_magnitude() {
    let samples: [[f64; 3]; 4] = [
        [1.0, 2.0, 3.0],
        [-4.0, 0.5, 2.25],
        [100.0, -250.0, 7.0],
        [0.05, -0.02, 0.01],
    ];
    for s in samples.iter() {
        let v = Vector::new(u(s[0]), u(s[1]), u(s[2]));
        let mag = v.normalize().magnitude();
        assert!(tracer::fx::approx_eq(mag, u(1.0)));
    }
}

#[test]
pub fn world_normals_are_unit_vectors() {
    let q = std::f64::consts::PI / 5.0;
    let s = Sphere::static_default().set_transform(
        Transform::identity()
            .rotate_z(u(q.cos()), u(q.sin()))
            .scale(&Vector::new(u(1.0), u(0.5), u(1.0))),
    );
    let h = (2.0_f64).sqrt() / 2.0;
    let n = s.get_normal(&Point::new(u(0.0), u(h), u(-h)));
    assert!(tracer::fx::approx_eq(n.magnitude(), u(1.0)));
    let p = Plane::static_default().set_transform(
        Transform::identity().rotate_x(u(q.cos()), u(q.sin())),
    );
    let pn = p.get_normal(&Point::new(u(4.0), u(0.0), u(2.0)));
    assert!(tracer::fx::approx_eq(pn.magnitude(), u(1.0)));
}
