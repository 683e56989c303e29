use tracer::light::PointLight;
use tracer::material::Material;
use tracer::matrix::Matrix4;
use tracer::matrix::Transform;
use tracer::pattern::TestPattern;
use tracer::ray::Ray;
use tracer::shape::Intersection;
use tracer::shape::Plane;
use tracer::shape::Sphere;
use tracer::tuple::Color;
use tracer::tuple::Point;
use tracer::tuple::Vector;
use tracer::world::World;

fn u(x: f64) -> i64 {
    (x * 10_000_000.0).round() as i64
}

#[test]
pub fn intersect_world_with_ray() {
    let w = World::default();
    let r = Ray::new(Point::new(u(0.0), u(0.0), u(-5.0)), Vector::new(u(0.0), u(0.0), u(1.0)));
    let xs = w.intersect_world(&r);
    assert_eq!(xs.len(), 4);
    assert!(tracer::fx::approx_eq(xs[0].t, u(4.0)));
    assert!(tracer::fx::approx_eq(xs[1].t, u(4.5)));
    assert!(tracer::fx::approx_eq(xs[2].t, u(5.5)));
    assert!(tracer::fx::approx_eq(xs[3].t, u(6.0)));
}

#[test]
pub fn shading_intersection() {
    let w = World::default();
    let r = Ray::new(Point::new(u(0.0), u(0.0), u(-5.0)), Vector::new(u(0.0), u(0.0), u(1.0)));
    let shape = w.objects[0];
    let i = Intersection::new(u(4.0), shape);
    let comps = i.precompute_hit(&r, &vec![i]);
    let c = w.shade_hit(&comps, 1);
    assert!(c.approx_eq(&Color::new(u(0.38066), u(0.47582), u(0.28549))));
}

#[test]
pub fn shading_intersection_from_inside() {
    let mut w = World::default();
    w.light_source = PointLight::new(
        Point::new(u(0.0), u(0.25), u(0.0)),
        Color::new(u(1.0), u(1.0), u(1.0)),
    );
    let r = Ray::new(Point::new(u(0.0), u(0.0), u(0.0)), Vector::new(u(0.0), u(0.0), u(1.0)));
    let shape = w.objects[1];
    let i = Intersection::new(u(0.5), shape);
    let comps = i.precompute_hit(&r, &vec![i]);
    let c = w.shade_hit(&comps, 1);
    assert!(c.approx_eq(&Color::new(u(0.90498), u(0.90498), u(0.90498))));
}

#[test]
pub fn color_when_ray_misses() {
    let w = World::default();
    let r = Ray::new(Point::new(u(0.0), u(0.0), u(-5.0)), Vector::new(u(0.0), u(1.0), u(0.0)));
    assert!(w.color_at(&r, 1).approx_eq(&Color::new(u(0.0), u(0.0), u(0.0))));
}

#[test]
pub fn color_when_ray_hits() {
    let w = World::default();
    let r = Ray::new(Point::new(u(0.0), u(0.0), u(-5.0)), Vector::new(u(0.0), u(0.0), u(1.0)));
    assert!(w.color_at(&r, 1).approx_eq(&Color::new(u(0.38066), u(0.47582), u(0.28549))));
}

#[test]
pub fn color_with_intersection_behind_ray() {
    let s1 = Sphere::default_with_material(Material {
        color: Color::new(u(0.8), u(1.0), u(0.6)),
        diffuse: u(0.7),
        specular: u(0.2),
        ..Default::default()
    });
    let s2 = Sphere::default_with_material(Material { ambient: u(1.0), ..Default::default() })
        .set_transform(Transform::identity().scale(&Vector::new(u(0.5), u(0.5), u(0.5))));
    let mut w = World::default();
    w.objects = vec![s1, s2];
    let r = Ray::new(Point::new(u(0.0), u(0.0), u(0.75)), Vector::new(u(0.0), u(0.0), u(-1.0)));
    let inner = w.objects[1].get_material().color;
    assert!(w.color_at(&r, 1).approx_eq(&inner));
}

#[test]
pub fn transformation_matrix_for_default_orientation() {
    let from = Point::new(u(0.0), u(0.0), u(0.0));
    let up = Vector::new(u(0.0), u(1.0), u(0.0));
    let to = Point::new(u(0.0), u(0.0), u(-1.0));
    let v = Matrix4::view_transform(from, to, up);
    assert!(v.approx_eq(&Matrix4::identity()));
}

#[test]
pub fn view_transform_looking_in_positive_z() {
    let from = Point::new(u(0.0), u(0.0), u(0.0));
    let to = Point::new(u(0.0), u(0.0), u(1.0));
    let up = Vector::new(u(0.0), u(1.0), u(0.0));
    let v = Matrix4::view_transform(from, to, up);
    let expected = Matrix4::identity().scale(&Vector::new(u(-1.0), u(1.0), u(-1.0)));
    assert!(v.approx_eq(&expected));
}

#[test]
pub fn view_transform_moves_world() {
    let from = Point::new(u(0.0), u(0.0), u(8.0));
    let to = Point::new(u(0.0), u(0.0), u(0.0));
    let up = Vector::new(u(0.0), u(1.0), u(0.0));
    let v = Matrix4::view_transform(from, to, up);
    let expected = Matrix4::identity().translate(&Vector::new(u(0.0), u(0.0), u(-8.0)));
    assert!(v.approx_eq(&expected));
}

#[test]
pub fn arbitrary_view_matrix() {
    let from = Point::new(u(1.0), u(3.0), u(2.0));
    let to = Point::new(u(4.0), u(-2.0), u(8.0));
    let up = Vector::new(u(1.0), u(1.0), u(0.0));
    let v = Matrix4::view_transform(from, to, up);
    let expected = Matrix4 {
        m00: u(-0.50709), m01: u(0.50709), m02: u(0.67612), m03: u(-2.36643),
        m10: u(0.76772), m11: u(0.60609), m12: u(0.12122), m13: u(-2.82843),
        m20: u(-0.35857), m21: u(0.59761), m22: u(-0.71714), m23: u(0.0),
        m30: u(0.0), m31: u(0.0), m32: u(0.0), m33: u(1.0),
    };
    assert!(v.approx_eq(&expected));
}

#[test]
pub fn shade_hit_in_shadow() {
    let s1 = Sphere::static_default();
    let s2 = Sphere::static_default()
        .set_transform(Transform::identity().translate(&Vector::new(u(0.0), u(0.0), u(10.0))));
    let light = PointLight::new(
        Point::new(u(0.0), u(0.0), u(-10.0)),
        Color::new(u(1.0), u(1.0), u(1.0)),
    );
    let w = World::new(light, vec![s1, s2]);
    let r = Ray::new(Point::new(u(0.0), u(0.0), u(5.0)), Vector::new(u(0.0), u(0.0), u(1.0)));
    let i = Intersection::new(u(4.0), s2);
    let comps = i.precompute_hit(&r, &vec![i]);
    let c = w.shade_hit(&comps, 1);
    assert!(c.approx_eq(&Color::new(u(0.1), u(0.1), u(0.1))));
}

#[test]
pub fn reflected_color_of_nonreflective_material() {
    let s1 = Sphere::default_with_material(Material {
        color: Color::new(u(0.8), u(1.0), u(0.6)),
        diffuse: u(0.7),
        specular: u(0.2),
        ..Default::default()
    });
    let s2 = Sphere::default_with_material(Material { ambient: u(1.0), ..Default::default() })
        .set_transform(Transform::identity().scale(&Vector::new(u(0.5), u(0.5), u(0.5))));
    let mut w = World::default();
    w.objects = vec![s1, s2];
    let r = Ray::new(Point::new(u(0.0), u(0.0), u(0.0)), Vector::new(u(0.0), u(0.0), u(1.0)));
    let i = Intersection::new(u(1.0), s2);
    let comps = i.precompute_hit(&r, &vec![i]);
    let color = w.reflected_color(&comps, 1);
    assert!(color.approx_eq(&Color::black()));
}

#[test]
pub fn reflected_color_for_reflective_material() {
    let plane = Plane::default_with_material(Material { reflective: u(0.5), ..Default::default() })
        .set_transform(Transform::identity().translate(&Vector::new(u(0.0), u(-1.0), u(0.0))));
    let mut w = World::default();
    w.objects.push(plane);
    let h = (2.0_f64).sqrt() / 2.0;
    let r = Ray::new(Point::new(u(0.0), u(0.0), u(-3.0)), Vector::new(u(0.0), u(-h), u(h)));
    let i = Intersection::new(u((2.0_f64).sqrt()), plane);
    let comps = i.precompute_hit(&r, &vec![i]);
    let color = w.reflected_color(&comps, 1);
    assert!(color.approx_eq(&Color::new(u(0.19033), u(0.23791), u(0.142749))));
}

#[test]
pub fn shade_hit_with_reflective_material() {
    let plane = Plane::default_with_material(Material { reflective: u(0.5), ..Default::default() })
        .set_transform(Transform::identity().translate(&Vector::new(u(0.0), u(-1.0), u(0.0))));
    let mut w = World::default();
    w.objects.push(plane);
    let h = (2.0_f64).sqrt() / 2.0;
    let r = Ray::new(Point::new(u(0.0), u(0.0), u(-3.0)), Vector::new(u(0.0), u(-h), u(h)));
    let i = Intersection::new(u((2.0_f64).sqrt()), plane);
    let comps = i.precompute_hit(&r, &vec![i]);
    let color = w.shade_hit(&comps, 1);
    assert!(color.approx_eq(&Color::new(u(0.87675), u(0.92434), u(0.82917))));
}

#[test]
pub fn color_at_with_mutually_reflective_surfaces() {
    let lower = Plane::default_with_material(Material { reflective: u(1.0), ..Default::default() })
        .set_transform(Transform::identity().translate(&Vector::new(u(0.0), u(-1.0), u(0.0))));
    let upper = Plane::default_with_material(Material { reflective: u(1.0), ..Default::default() })
        .set_transform(Transform::identity().translate(&Vector::new(u(0.0), u(1.0), u(0.0))));
    let light = PointLight::new(
        Point::new(u(0.0), u(0.0), u(0.0)),
        Color::new(u(1.0), u(1.0), u(1.0)),
    );
    let w = World::new(light, vec![lower, upper]);
    let r = Ray::new(Point::new(u(0.0), u(0.0), u(0.0)), Vector::new(u(0.0), u(1.0), u(0.0)));
    let _ = w.color_at(&r, 1);
}

#[test]
pub fn reflected_color_at_maximum_recursion_depth() {
    let plane = Plane::default_with_material(Material { reflective: u(0.5), ..Default::default() })
        .set_transform(Transform::identity().translate(&Vector::new(u(0.0), u(-1.0), u(0.0))));
    let mut w = World::default();
    w.objects.push(plane);
    let h = (2.0_f64).sqrt() / 2.0;
    let r = Ray::new(Point::new(u(0.0), u(0.0), u(-3.0)), Vector::new(u(0.0), u(-h), u(h)));
    let i = Intersection::new(u((2.0_f64).sqrt()), plane);
    let comps = i.precompute_hit(&r, &vec![i]);
    let color = w.reflected_color(&comps, 0);
    assert!(color.approx_eq(&Color::black()));
}

#[test]
pub fn refracted_color_with_opaque_surface() {
    let r = Ray::new(Point::new(u(0.0), u(0.0), u(-5.0)), Vector::new(u(0.0), u(0.0), u(1.0)));
    let w = World::default();
    let xs = vec![
        Intersection::new(u(4.0), w.objects[0]),
        Intersection::new(u(6.0), w.objects[0]),
    ];
    let comps = xs[0].precompute_hit(&r, &xs);
    let color = w.refracted_color(&comps, 5);
    assert!(color.approx_eq(&Color::black()));
}

#[test]
pub fn refracted_color_at_max_recursion_depth() {
    let r = Ray::new(Point::new(u(0.0), u(0.0), u(-5.0)), Vector::new(u(0.0), u(0.0), u(1.0)));
    let sphere = Sphere::default_with_material(Material {
        transparency: u(1.0),
        refractive_index: u(1.5),
        ..Default::default()
    });
    let mut w = World::default();
    w.objects = vec![sphere];
    let xs = vec![
        Intersection::new(u(4.0), w.objects[0]),
        Intersection::new(u(6.0), w.objects[0]),
    ];
    let comps = xs[0].precompute_hit(&r, &xs);
    let color = w.refracted_color(&comps, 0);
    assert!(color.approx_eq(&Color::black()));
}

#[test]
pub fn refracted_color_under_total_internal_reflection() {
    let h = (2.0_f64).sqrt() / 2.0;
    let r = Ray::new(Point::new(u(0.0), u(0.0), u(h)), Vector::new(u(0.0), u(1.0), u(0.0)));
    let sphere = Sphere::default_with_material(Material {
        transparency: u(1.0),
        refractive_index: u(1.5),
        ..Default::default()
    });
    let mut w = World::default();
    w.objects = vec![sphere];
    let xs = vec![
        Intersection::new(u(-h), w.objects[0]),
        Intersection::new(u(h), w.objects[0]),
    ];
    let comps = xs[1].precompute_hit(&r, &xs);
    let color = w.refracted_color(&comps, 5);
    assert!(color.approx_eq(&Color::black()));
}

#[test]
pub fn refracted_color_with_refracted_ray() {
    let r = Ray::new(Point::new(u(0.0), u(0.0), u(0.1)), Vector::new(u(0.0), u(1.0), u(0.0)));
    let outer = Sphere::default_with_material(Material {
        pattern: Some(TestPattern::new()),
        ambient: u(1.0),
        ..Default::default()
    });
    let inner = Sphere::default_with_material(Material {
        transparency: u(1.0),
        refractive_index: u(1.5),
        ..Default::default()
    });
    let mut w = World::default();
    w.objects = vec![outer, inner];
    let xs = vec![
        Intersection::new(u(-0.9899), outer),
        Intersection::new(u(-0.4899), inner),
        Intersection::new(u(0.4899), inner),
        Intersection::new(u(0.9899), outer),
    ];
    let comps = xs[2].precompute_hit(&r, &xs);
    let color = w.refracted_color(&comps, 5);
    assert!(color.approx_eq(&Color::new(u(0.0), u(0.99887), u(0.04721))));
}

#[test]
pub fn shade_hit_with_transparent_material() {
    let floor = Plane::default_with_material(Material {
        transparency: u(0.5),
        refractive_index: u(1.5),
        ..Default::default()
    })
    .set_transform(Transform::identity().translate(&Vector::new(u(0.0), u(-1.0), u(0.0))));
    let ball = Sphere::default_with_material(Material {
        color: Color::new(u(1.0), u(0.0), u(0.0)),
        ambient: u(0.5),
        ..Default::default()
    })
    .set_transform(Transform::identity().translate(&Vector::new(u(0.0), u(-3.5), u(-0.5))));
    let mut w = World::default();
    w.objects = vec![floor, ball];
    let h = (2.0_f64).sqrt() / 2.0;
    let ray = Ray::new(Point::new(u(0.0), u(0.0), u(-3.0)), Vector::new(u(0.0), u(-h), u(h)));
    let i = Intersection::new(u((2.0_f64).sqrt()), floor);
    let comps = i.precompute_hit(&ray, &vec![i]);
    let color = w.shade_hit(&comps, 5);
    assert!(color.approx_eq(&Color::new(u(0.93642), u(0.68642), u(0.68642))));
}

#[test]
pub fn shade_hit_with_reflective_and_transparent_material() {
    let floor = Plane::default_with_material(Material {
        transparency: u(0.5),
        refractive_index: u(1.5),
        reflective: u(0.5),
        ..Default::default()
    })
    .set_transform(Transform::identity().translate(&Vector::new(u(0.0), u(-1.0), u(0.0))));
    let sphere = Sphere::default_with_material(Material {
        color: Color::new(u(1.0), u(0.0), u(0.0)),
        ambient: u(0.5),
        ..Default::default()
    })
    .set_transform(Transform::identity().translate(&Vector::new(u(0.0), u(-3.5), u(-0.5))));
    let mut w = World::default();
    w.objects = vec![floor, sphere];
    let h = (2.0_f64).sqrt() / 2.0;
    let ray = Ray::new(Point::new(u(0.0), u(0.0), u(-3.0)), Vector::new(u(0.0), u(-h), u(h)));
    let i = vec![Intersection::new(u((2.0_f64).sqrt()), floor)];
    let comps = i[0].precompute_hit(&ray, &i);
    let color = w.shade_hit(&comps, 5);
    assert!(color.approx_eq(&Color::new(u(0.92590), u(0.686425), u(0.686425))));
}
