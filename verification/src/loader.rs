//! Building a scene from its packed description.
//!
//! A packed scene is the plain-value form a deserializer produces: every
//! field optional where the format allows it, with the conventional
//! defaults filled in here. Reading the file format itself is a
//! collaborator's job; this module only turns packed values into scene
//! values.

use crate::colors::Color;
use crate::fixed::{fx_ok, FX_ONE};
use crate::lighting::{light_wf, PointLight};
use crate::materials::{Material, Texture};
use crate::matrices::{inv4_s, mm4_s, identity4_s, singular4_s, Matrix4x4, MatrixError};
use crate::patterns::{
    CheckerPattern, GradientPattern, Pattern, RingPattern, StripedPattern,
};
use crate::scene::{node_wf, scene_wf, Scene, SceneNode};
use crate::shapes::{Plane, Shape, Sphere};
use crate::transforms::{rotate_x_s, rotate_y_s, rotate_z_s, scale_s, translate_s};
use crate::vectors::{Vector, V4};
use vstd::prelude::*;

verus! {

/// A packed triple of scalars: a position, direction or color.
pub type PackedTuple = (i128, i128, i128);

/// Every component of the triple is representable.
pub open spec fn tuple_ok(t: PackedTuple) -> bool {
    fx_ok(t.0 as int) && fx_ok(t.1 as int) && fx_ok(t.2 as int)
}

/// A packed point light: a position, and an optional color that
/// defaults to white.
pub struct PackedLight {
    pub position: PackedTuple,
    pub color: Option<PackedTuple>,
}

/// A packed light is well formed when its fields are representable.
pub open spec fn packed_light_wf(l: PackedLight) -> bool {
    tuple_ok(l.position) && match l.color {
        Some(c) => tuple_ok(c),
        None => true,
    }
}

/// The light a packed light stands for.
pub open spec fn light_build_s(l: PackedLight) -> PointLight {
    let c = match l.color {
        Some(c) => c,
        None => (FX_ONE, FX_ONE, FX_ONE),
    };
    PointLight {
        position: Vector { x: l.position.0, y: l.position.1, z: l.position.2, w: 0 },
        intensity: Color { r: c.0, g: c.1, b: c.2 },
    }
}

/// The kind of shape a packed object describes.
#[derive(Clone, Copy, PartialEq, Eq, Structural, Debug)]
pub enum PackedKind {
    Sphere,
    Plane,
}

/// A packed texture: a solid color or one of the two-color patterns.
pub enum PackedTexture {
    Solid(PackedTuple),
    Checker(PackedTuple, PackedTuple),
    Gradient(PackedTuple, PackedTuple),
    Ring(PackedTuple, PackedTuple),
    Striped(PackedTuple, PackedTuple),
}

/// A packed texture is well formed when its colors are representable.
pub open spec fn packed_texture_wf(t: PackedTexture) -> bool {
    match t {
        PackedTexture::Solid(a) => tuple_ok(a),
        PackedTexture::Checker(a, b) => tuple_ok(a) && tuple_ok(b),
        PackedTexture::Gradient(a, b) => tuple_ok(a) && tuple_ok(b),
        PackedTexture::Ring(a, b) => tuple_ok(a) && tuple_ok(b),
        PackedTexture::Striped(a, b) => tuple_ok(a) && tuple_ok(b),
    }
}

/// The color a packed triple stands for.
pub open spec fn color_of_s(t: PackedTuple) -> Color {
    Color { r: t.0, g: t.1, b: t.2 }
}

/// The texture a packed texture stands for.
pub open spec fn texture_build_s(t: PackedTexture) -> Texture {
    match t {
        PackedTexture::Solid(a) => Texture::Solid(color_of_s(a)),
        PackedTexture::Checker(a, b) => Texture::Pattern(
            Pattern::Checker(CheckerPattern { a: color_of_s(a), b: color_of_s(b) }),
        ),
        PackedTexture::Gradient(a, b) => Texture::Pattern(
            Pattern::Gradient(GradientPattern { a: color_of_s(a), b: color_of_s(b) }),
        ),
        PackedTexture::Ring(a, b) => Texture::Pattern(
            Pattern::Ring(RingPattern { a: color_of_s(a), b: color_of_s(b) }),
        ),
        PackedTexture::Striped(a, b) => Texture::Pattern(
            Pattern::Striped(StripedPattern { a: color_of_s(a), b: color_of_s(b) }),
        ),
    }
}

/// A packed material: every coefficient optional, defaulting to the
/// conventional material.
pub struct PackedMaterial {
    pub texture: Option<PackedTexture>,
    pub ambient: Option<i128>,
    pub diffuse: Option<i128>,
    pub specular: Option<i128>,
    pub shininess: Option<i128>,
    pub transparency: Option<i128>,
    pub reflectivity: Option<i128>,
    pub refractivity: Option<i128>,
}

/// An optional scalar is well formed when a present value is
/// representable.
pub open spec fn opt_ok(v: Option<i128>, default: i128) -> int {
    match v {
        Some(x) => x as int,
        None => default as int,
    }
}

/// A packed material is well formed when every present field is
/// representable.
pub open spec fn packed_material_wf(m: PackedMaterial) -> bool {
    (match m.texture {
        Some(t) => packed_texture_wf(t),
        None => true,
    }) && (forall|v: i128| m.ambient == Some(v) ==> fx_ok(v as int)) && (forall|v: i128|
        m.diffuse == Some(v) ==> fx_ok(v as int)) && (forall|v: i128|
        m.specular == Some(v) ==> fx_ok(v as int)) && (forall|v: i128|
        m.shininess == Some(v) ==> fx_ok(v as int)) && (forall|v: i128|
        m.transparency == Some(v) ==> fx_ok(v as int)) && (forall|v: i128|
        m.reflectivity == Some(v) ==> fx_ok(v as int)) && (forall|v: i128|
        m.refractivity == Some(v) ==> fx_ok(v as int))
}

/// The material a packed material stands for: absent fields take the
/// conventional defaults.
pub open spec fn material_build_s(m: PackedMaterial) -> Material {
    Material {
        texture: match m.texture {
            Some(t) => texture_build_s(t),
            None => Texture::Solid(Color { r: FX_ONE, g: FX_ONE, b: FX_ONE }),
        },
        ambient: (opt_ok(m.ambient, 10_000_000) as i128),
        diffuse: (opt_ok(m.diffuse, 90_000_000) as i128),
        specular: (opt_ok(m.specular, 90_000_000) as i128),
        shininess: (opt_ok(m.shininess, 20_000_000_000) as i128),
        reflectivity: (opt_ok(m.reflectivity, 0) as i128),
        transparency: (opt_ok(m.transparency, 0) as i128),
        refractive_index: (opt_ok(m.refractivity, FX_ONE) as i128),
    }
}

/// A packed object: a shape kind with optional placement and material.
pub struct PackedObject {
    pub kind: PackedKind,
    pub position: Option<PackedTuple>,
    pub rotation: Option<PackedTuple>,
    pub scale: Option<PackedTuple>,
    pub material: Option<PackedMaterial>,
}

/// A packed object is well formed when every present field is.
pub open spec fn packed_object_wf(o: PackedObject) -> bool {
    (match o.position {
        Some(t) => tuple_ok(t),
        None => true,
    }) && (match o.rotation {
        Some(t) => tuple_ok(t),
        None => true,
    }) && (match o.scale {
        Some(t) => tuple_ok(t),
        None => true,
    }) && (match o.material {
        Some(m) => packed_material_wf(m),
        None => true,
    })
}

/// The transform a packed object stands for: its translation, rotations
/// and scale composed in that order onto the identity.
pub open spec fn packed_transform_s(o: PackedObject) -> Seq<int> {
    let t0 = identity4_s();
    let t1 = match o.position {
        Some(p) => mm4_s(t0, translate_s(p.0 as int, p.1 as int, p.2 as int)),
        None => t0,
    };
    let t2 = match o.rotation {
        Some(r) => mm4_s(
            mm4_s(mm4_s(t1, rotate_x_s(r.0 as int)), rotate_y_s(r.1 as int)),
            rotate_z_s(r.2 as int),
        ),
        None => t1,
    };
    match o.scale {
        Some(s) => mm4_s(t2, scale_s(s.0 as int, s.1 as int, s.2 as int)),
        None => t2,
    }
}

/// The shape a packed object stands for: planes take the conventional
/// upward normal.
pub open spec fn packed_shape_s(o: PackedObject) -> Shape {
    match o.kind {
        PackedKind::Sphere => Shape::Sphere(Sphere),
        PackedKind::Plane => Shape::Plane(Plane { normal: Vector { x: 0, y: FX_ONE, z: 0, w: 0 } }),
    }
}

/// The material a packed object stands for.
pub open spec fn packed_object_material_s(o: PackedObject) -> Material {
    match o.material {
        Some(m) => material_build_s(m),
        None => material_build_s(
            PackedMaterial {
                texture: None,
                ambient: None,
                diffuse: None,
                specular: None,
                shininess: None,
                transparency: None,
                reflectivity: None,
                refractivity: None,
            },
        ),
    }
}

impl PackedLight {
    /// Builds the light this packed light stands for.
    pub fn build(&self) -> (r: PointLight)
        requires
            packed_light_wf(*self),
        ensures
            r == light_build_s(*self),
            light_wf(r),
    {
        let (x, y, z) = self.position;
        let (r, g, b) = match self.color {
            Some(c) => c,
            None => (FX_ONE, FX_ONE, FX_ONE),
        };
        PointLight {
            position: Vector { x, y, z, w: 0 },
            intensity: Color { r, g, b },
        }
    }
}

impl PackedTexture {
    /// Builds the texture this packed texture stands for.
    pub fn build(&self) -> (r: Texture)
        requires
            packed_texture_wf(*self),
        ensures
            r == texture_build_s(*self),
    {
        match *self {
            PackedTexture::Solid(a) => Texture::Solid(Color { r: a.0, g: a.1, b: a.2 }),
            PackedTexture::Checker(a, b) => Texture::Pattern(
                Pattern::Checker(
                    CheckerPattern {
                        a: Color { r: a.0, g: a.1, b: a.2 },
                        b: Color { r: b.0, g: b.1, b: b.2 },
                    },
                ),
            ),
            PackedTexture::Gradient(a, b) => Texture::Pattern(
                Pattern::Gradient(
                    GradientPattern {
                        a: Color { r: a.0, g: a.1, b: a.2 },
                        b: Color { r: b.0, g: b.1, b: b.2 },
                    },
                ),
            ),
            PackedTexture::Ring(a, b) => Texture::Pattern(
                Pattern::Ring(
                    RingPattern {
                        a: Color { r: a.0, g: a.1, b: a.2 },
                        b: Color { r: b.0, g: b.1, b: b.2 },
                    },
                ),
            ),
            PackedTexture::Striped(a, b) => Texture::Pattern(
                Pattern::Striped(
                    StripedPattern {
                        a: Color { r: a.0, g: a.1, b: a.2 },
                        b: Color { r: b.0, g: b.1, b: b.2 },
                    },
                ),
            ),
        }
    }
}

impl PackedMaterial {
    /// Builds the material this packed material stands for, filling the
    /// conventional defaults.
    pub fn build(&self) -> (r: Material)
        requires
            packed_material_wf(*self),
        ensures
            r == material_build_s(*self),
            r.wf(),
    {
        let texture = match &self.texture {
            Some(t) => t.build(),
            None => Texture::Solid(Color { r: FX_ONE, g: FX_ONE, b: FX_ONE }),
        };
        let ambient = match self.ambient {
            Some(v) => v,
            None => 10_000_000,
        };
        let diffuse = match self.diffuse {
            Some(v) => v,
            None => 90_000_000,
        };
        let specular = match self.specular {
            Some(v) => v,
            None => 90_000_000,
        };
        let shininess = match self.shininess {
            Some(v) => v,
            None => 20_000_000_000,
        };
        let transparency = match self.transparency {
            Some(v) => v,
            None => 0,
        };
        let reflectivity = match self.reflectivity {
            Some(v) => v,
            None => 0,
        };
        let refractivity = match self.refractivity {
            Some(v) => v,
            None => FX_ONE,
        };

        Material {
            texture,
            ambient,
            diffuse,
            specular,
            shininess,
            reflectivity,
            transparency,
            refractive_index: refractivity,
        }
    }
}

impl PackedObject {
    /// Builds the node this packed object stands for; an object whose
    /// composed transform is singular is reported rather than placed
    /// with a wrong inverse.
    pub fn build(&self) -> (r: Result<SceneNode, MatrixError>)
        requires
            packed_object_wf(*self),
        ensures
            match r {
                Ok(n) => !singular4_s(packed_transform_s(*self)) && node_wf(n)
                    && n.object == packed_shape_s(*self)
                    && n.material == packed_object_material_s(*self)
                    && n.transform@ == packed_transform_s(*self)
                    && n.inverse_transform@ == inv4_s(packed_transform_s(*self)),
                Err(e) => singular4_s(packed_transform_s(*self)) && e == MatrixError::Singular,
            },
    {
        let mut transform = Matrix4x4::identity();
        let material = match &self.material {
            Some(packed) => packed.build(),
            None => Material::new(),
        };
        proof {
            assert(material == packed_object_material_s(*self));
        }

        match self.position {
            Some((x, y, z)) => {
                transform = transform.mul(&Matrix4x4::translate(x, y, z));
            },
            None => {},
        }

        match self.rotation {
            Some((x, y, z)) => {
                transform = transform.mul(&Matrix4x4::rotate_x(x));
                transform = transform.mul(&Matrix4x4::rotate_y(y));
                transform = transform.mul(&Matrix4x4::rotate_z(z));
            },
            None => {},
        }

        match self.scale {
            Some((x, y, z)) => {
                transform = transform.mul(&Matrix4x4::scale(x, y, z));
            },
            None => {},
        }

        match self.kind {
            PackedKind::Sphere => Sphere::new().with_material(material).with_transform(transform),
            PackedKind::Plane => {
                Plane::new(Vector { x: 0, y: FX_ONE, z: 0, w: 0 }).with_material(material)
                    .with_transform(transform)
            },
        }
    }
}

/// A packed `Scene` as a deserializer hands it over.
pub struct PackedScene {
    pub lights: Vec<PackedLight>,
    pub objects: Vec<PackedObject>,
}

impl PackedScene {
    /// The description is well formed throughout.
    pub open spec fn wf(&self) -> bool {
        (forall|i: int| 0 <= i < self.lights@.len() ==> packed_light_wf(#[trigger] self.lights@[i]))
            && (forall|i: int|
            0 <= i < self.objects@.len() ==> packed_object_wf(#[trigger] self.objects@[i]))
    }

    /// Converts this packed scene into a usable `Scene`; the first
    /// object with a singular transform is reported instead of placed.
    #[verifier::rlimit(100)]
    pub fn build(&self) -> (r: Result<Scene, MatrixError>)
        requires
            self.wf(),
        ensures
            match r {
                Ok(s) => scene_wf(s) && s.lights@.len() == self.lights@.len()
                    && (forall|i: int|
                    0 <= i < self.lights@.len() ==> #[trigger] s.lights@[i] == light_build_s(
                        self.lights@[i],
                    )) && s.nodes@.len() == self.objects@.len() && (forall|i: int|
                    0 <= i < self.objects@.len() ==> !singular4_s(
                        packed_transform_s(#[trigger] self.objects@[i]),
                    ) && s.nodes@[i].object == packed_shape_s(self.objects@[i])
                        && s.nodes@[i].material == packed_object_material_s(self.objects@[i])
                        && s.nodes@[i].transform@ == packed_transform_s(self.objects@[i])
                        && s.nodes@[i].inverse_transform@ == inv4_s(
                        packed_transform_s(self.objects@[i]),
                    )),
                Err(e) => e == MatrixError::Singular && exists|i: int|
                    0 <= i < self.objects@.len() && singular4_s(
                        packed_transform_s(#[trigger] self.objects@[i]),
                    ),
            },
    {
        let mut scene = Scene::new();

        let mut i: usize = 0;
        while i < self.lights.len()
            invariant
                self.wf(),
                scene_wf(scene),
                i <= self.lights@.len(),
                scene.lights@.len() == i,
                forall|j: int|
                    0 <= j < i ==> #[trigger] scene.lights@[j] == light_build_s(self.lights@[j]),
                scene.nodes@.len() == 0,
            decreases self.lights@.len() - i,
        {
            scene.add_light(self.lights[i].build());
            i = i + 1;
        }

        let mut k: usize = 0;
        while k < self.objects.len()
            invariant
                self.wf(),
                scene_wf(scene),
                scene.lights@.len() == self.lights@.len(),
                forall|j: int|
                    0 <= j < self.lights@.len() ==> #[trigger] scene.lights@[j] == light_build_s(
                        self.lights@[j],
                    ),
                k <= self.objects@.len(),
                scene.nodes@.len() == k,
                forall|j: int|
                    0 <= j < k ==> !singular4_s(packed_transform_s(#[trigger] self.objects@[j]))
                        && scene.nodes@[j].object == packed_shape_s(self.objects@[j])
                        && scene.nodes@[j].material == packed_object_material_s(self.objects@[j])
                        && scene.nodes@[j].transform@ == packed_transform_s(self.objects@[j])
                        && scene.nodes@[j].inverse_transform@ == inv4_s(
                        packed_transform_s(self.objects@[j]),
                    ),
            decreases self.objects@.len() - k,
        {
            match self.objects[k].build() {
                Ok(node) => {
                    scene.add_object(node);
                },
                Err(e) => {
                    return Err(e);
                },
            }
            k = k + 1;
        }

        Ok(scene)
    }
}

} // verus!
