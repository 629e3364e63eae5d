//! Material management for objects.

use crate::colors::{c3_ok, Color, C3};
use crate::fixed::{fx_ok, FX_ONE};
use crate::patterns::{pattern_sample_s, pattern_wf, Pattern};
use crate::vectors::{Vector, V4};
use vstd::prelude::*;

verus! {

/// A texture for use in material rendering: a single color, or a pattern
/// sampled in object space.
#[derive(Debug)]
pub enum Texture {
    Solid(Color),
    Pattern(Pattern),
}

/// The texture's stored data is well formed.
pub open spec fn texture_wf(t: Texture) -> bool {
    match t {
        Texture::Solid(c) => c3_ok(c@),
        Texture::Pattern(p) => pattern_wf(p),
    }
}

/// The color a texture produces at a point of object space.
pub open spec fn texture_sample_s(t: Texture, point: V4) -> C3 {
    match t {
        Texture::Solid(c) => c@,
        Texture::Pattern(p) => pattern_sample_s(p, point),
    }
}

impl Texture {
    /// Samples the texture's color at the given object point.
    pub fn sample_at(&self, point: Vector) -> (r: Color)
        requires
            texture_wf(*self),
            point.wf(),
        ensures
            r@ == texture_sample_s(*self, point@),
            r.wf(),
    {
        match self {
            Texture::Solid(color) => *color,
            Texture::Pattern(pattern) => pattern.sample_at(point),
        }
    }
}

/// Defines a material used in scene rendering: the Phong coefficients,
/// the reflection and refraction behaviour, and the texture.
#[derive(Debug)]
pub struct Material {
    pub texture: Texture,
    pub ambient: i128,
    pub diffuse: i128,
    pub specular: i128,
    pub shininess: i128,
    pub reflectivity: i128,
    pub transparency: i128,
    pub refractive_index: i128,
}

/// The conventional default material: solid white, mostly diffuse, a
/// touch of ambient light, tight highlights at shininess two hundred,
/// and no reflection or transparency.
pub open spec fn default_material_s() -> Material {
    Material {
        texture: Texture::Solid(Color { r: FX_ONE, g: FX_ONE, b: FX_ONE }),
        ambient: 10_000_000,
        diffuse: 90_000_000,
        specular: 90_000_000,
        shininess: 20_000_000_000,
        reflectivity: 0,
        transparency: 0,
        refractive_index: FX_ONE,
    }
}

impl Material {
    /// Every scalar lies in the representable band and the texture is
    /// well formed.
    pub open spec fn wf(&self) -> bool {
        texture_wf(self.texture) && fx_ok(self.ambient as int) && fx_ok(self.diffuse as int)
            && fx_ok(self.specular as int) && fx_ok(self.shininess as int)
            && fx_ok(self.reflectivity as int) && fx_ok(self.transparency as int)
            && fx_ok(self.refractive_index as int)
    }

    /// The conventional default material.
    pub fn new() -> (r: Self)
        ensures
            r == default_material_s(),
            r.wf(),
    {
        Self {
            texture: Texture::Solid(Color::white()),
            ambient: 10_000_000,
            diffuse: 90_000_000,
            specular: 90_000_000,
            shininess: 20_000_000_000,
            reflectivity: 0,
            transparency: 0,
            refractive_index: FX_ONE,
        }
    }

    /// Applies the given color.
    pub fn with_color(self, color: Color) -> (r: Self)
        requires
            color.wf(),
        ensures
            r == (Material { texture: Texture::Solid(color), ..self }),
    {
        Material { texture: Texture::Solid(color), ..self }
    }

    /// Applies the given pattern.
    pub fn with_pattern(self, pattern: Pattern) -> (r: Self)
        ensures
            r == (Material { texture: Texture::Pattern(pattern), ..self }),
    {
        Material { texture: Texture::Pattern(pattern), ..self }
    }

    /// Applies the given ambient value.
    pub fn with_ambient(self, ambient: i128) -> (r: Self)
        ensures
            r == (Material { ambient, ..self }),
    {
        Material { ambient, ..self }
    }

    /// Applies the given diffuse value.
    pub fn with_diffuse(self, diffuse: i128) -> (r: Self)
        ensures
            r == (Material { diffuse, ..self }),
    {
        Material { diffuse, ..self }
    }

    /// Applies the given specular value.
    pub fn with_specular(self, specular: i128) -> (r: Self)
        ensures
            r == (Material { specular, ..self }),
    {
        Material { specular, ..self }
    }

    /// Applies the given shininess value.
    pub fn with_shininess(self, shininess: i128) -> (r: Self)
        ensures
            r == (Material { shininess, ..self }),
    {
        Material { shininess, ..self }
    }

    /// Applies the given reflectivity value.
    pub fn with_reflective(self, reflectivity: i128) -> (r: Self)
        ensures
            r == (Material { reflectivity, ..self }),
    {
        Material { reflectivity, ..self }
    }

    /// Applies the given transparency value.
    pub fn with_transparency(self, transparency: i128) -> (r: Self)
        ensures
            r == (Material { transparency, ..self }),
    {
        Material { transparency, ..self }
    }

    /// Applies the given refractive index.
    pub fn with_refractive_index(self, refractive: i128) -> (r: Self)
        ensures
            r == (Material { refractive_index: refractive, ..self }),
    {
        Material { refractive_index: refractive, ..self }
    }
}

impl Default for Material {
    /// Returns the conventional default material.
    fn default() -> (r: Self)
        ensures
            r == default_material_s(),
            r.wf(),
    {
        Material::new()
    }
}

} // verus!
