//! Point lights and Phong direct illumination.

use vstd::prelude::*;

use crate::material::material_ok;
use crate::material::Material;
use crate::pattern::color_object_spec;
use crate::shape::shape_ok;
use crate::shape::Shape;
use crate::tuple::color_ok;
use crate::tuple::color_plus_spec;
use crate::tuple::color_times_spec;
use crate::tuple::dot_spec;
use crate::tuple::hadamard_spec;
use crate::tuple::normalize_spec;
use crate::tuple::point_minus_spec;
use crate::tuple::point_ok;
use crate::tuple::reflect_spec;
use crate::tuple::vec_negate_spec;
use crate::tuple::vec_ok;
use crate::tuple::Color;
use crate::tuple::Point;
use crate::tuple::Vector;

verus! {

#[derive(Clone, Copy, Debug, PartialEq, Eq, Structural)]
pub struct PointLight {
    pub position: Point,
    pub intensity: Color,
}

pub open spec fn light_ok(l: PointLight) -> bool {
    point_ok(l.position) && color_ok(l.intensity)
}

/// The color the pattern or the plain material shows at the surface point.
pub open spec fn effective_base_spec(material: Material, object: Shape, pos: Point) -> Color {
    match material.pattern {
        Some(p) => color_object_spec(p, object.transform.inverse, pos),
        None => material.color,
    }
}

/// Mirror of the Phong lighting computation: ambient always, diffuse and
/// specular only when the surface faces the light and is not shadowed.
pub open spec fn lighting_spec(
    light: PointLight,
    material: Material,
    object: Shape,
    pos: Point,
    eye: Vector,
    normal: Vector,
    in_shadow: bool,
) -> Color {
    let effective = hadamard_spec(effective_base_spec(material, object, pos), light.intensity);
    let ambient = color_times_spec(effective, material.ambient as int);
    if in_shadow {
        ambient
    } else {
        let light_vector = normalize_spec(point_minus_spec(light.position, pos));
        let light_dot_normal = dot_spec(light_vector, normal);
        if light_dot_normal < 0 {
            ambient
        } else {
            let diffuse = color_times_spec(
                color_times_spec(effective, material.diffuse as int),
                light_dot_normal,
            );
            let reflect_vector = vec_negate_spec(reflect_spec(light_vector, normal));
            let reflect_dot_eye = dot_spec(reflect_vector, eye);
            let specular = if reflect_dot_eye < 0 {
                Color { r: 0i64, g: 0i64, b: 0i64 }
            } else {
                color_times_spec(
                    color_times_spec(light.intensity, material.specular as int),
                    crate::fx::pow_spec(reflect_dot_eye, material.shininess as nat),
                )
            };
            color_plus_spec(color_plus_spec(ambient, diffuse), specular)
        }
    }
}

impl PointLight {
    pub fn new(position: Point, intensity: Color) -> (l: PointLight)
        ensures
            l == (PointLight { position, intensity }),
    {
        PointLight { position, intensity }
    }

    pub fn calculate_lighting(
        &self,
        material: &Material,
        object: &Shape,
        pos: &Point,
        eye_vector: &Vector,
        normal_vector: &Vector,
        in_shadow: bool,
    ) -> (c: Color)
        requires
            light_ok(*self),
            material_ok(*material),
            shape_ok(*object),
            point_ok(*pos),
            vec_ok(*eye_vector),
            vec_ok(*normal_vector),
        ensures
            c == lighting_spec(
                *self,
                *material,
                *object,
                *pos,
                *eye_vector,
                *normal_vector,
                in_shadow,
            ),
            color_ok(c),
    {
        let base: Color = match &material.pattern {
            Some(p) => p.color_object(&object.transform.inverse, pos),
            None => material.color,
        };
        let effective: Color = base.hadamard_product(&self.intensity);
        let ambient: Color = effective.times(material.ambient);
        if in_shadow {
            return ambient;
        }
        let light_vector: Vector = self.position.minus(pos).normalize();
        let light_dot_normal: i64 = light_vector.dot(normal_vector);
        if light_dot_normal < 0 {
            return ambient;
        }
        let diffuse: Color = effective.times(material.diffuse).times(light_dot_normal);
        let reflect_vector: Vector = light_vector.reflect(normal_vector).negate();
        let reflect_dot_eye: i64 = reflect_vector.dot(eye_vector);
        let specular: Color = if reflect_dot_eye < 0 {
            Color { r: 0, g: 0, b: 0 }
        } else {
            let factor: i64 = crate::fx::fx_pow(reflect_dot_eye, material.shininess);
            self.intensity.times(material.specular).times(factor)
        };
        ambient.plus(&diffuse).plus(&specular)
    }
}

} // verus!
