//! Surface material parameters for the Phong model, with the optional
//! procedural pattern.

use vstd::prelude::*;

use crate::fx::fx_ok;
use crate::pattern::pattern_ok;
use crate::pattern::Pattern;
use crate::tuple::color_ok;
use crate::tuple::Color;
use crate::UNIT;

verus! {

#[derive(Clone, Copy, Debug)]
pub struct Material {
    pub color: Color,
    pub ambient: i64,
    pub diffuse: i64,
    pub specular: i64,
    /// Phong exponent; a plain natural power.
    pub shininess: u32,
    pub reflective: i64,
    pub refractive_index: i64,
    pub transparency: i64,
    pub pattern: Option<Pattern>,
}

/// Well-formedness of a material: scalars in range, the ambient, diffuse
/// and specular factors non-negative, reflective and transparency within
/// [0, 1], and a refractive index of at least 1 (vacuum).
pub open spec fn material_ok(m: Material) -> bool {
    color_ok(m.color) && 0 <= m.ambient && fx_ok(m.ambient as int) && 0 <= m.diffuse && fx_ok(
        m.diffuse as int,
    ) && 0 <= m.specular && fx_ok(m.specular as int) && 0 <= m.reflective <= UNIT
        && UNIT <= m.refractive_index && fx_ok(m.refractive_index as int) && 0 <= m.transparency
        <= UNIT && match m.pattern {
        Some(p) => pattern_ok(p),
        None => true,
    }
}

pub open spec fn default_material_spec() -> Material {
    Material {
        color: Color { r: UNIT, g: UNIT, b: UNIT },
        ambient: 1_000_000i64,
        diffuse: 9_000_000i64,
        specular: 9_000_000i64,
        shininess: 200u32,
        reflective: 0i64,
        refractive_index: UNIT,
        transparency: 0i64,
        pattern: None,
    }
}

impl Default for Material {
    fn default() -> (m: Material)
        ensures
            m == default_material_spec(),
            material_ok(m),
    {
        Material {
            color: Color { r: UNIT, g: UNIT, b: UNIT },
            ambient: 1_000_000,
            diffuse: 9_000_000,
            specular: 9_000_000,
            shininess: 200,
            reflective: 0,
            refractive_index: UNIT,
            transparency: 0,
            pattern: None,
        }
    }
}

} // verus!
