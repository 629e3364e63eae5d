//! Light sources and the shading context for scene rendering.

use crate::colors::{c3_add_s, c3_black, c3_mul_s, c3_ok, c3_scale_s, Color, C3};
use crate::fixed::{
    fx_approx, fx_approx_s, fx_floor_div, fx_mul, fx_mul_s, fx_ok, fx_pow, fx_pow_s, fx_sub,
    fx_sub_s, FX_ONE,
};
use crate::materials::{texture_sample_s, Material};
use crate::matrices::mv4_s;
use crate::rays::{ray_position_s, Ray, R4};
use crate::scene::{
    hit_eq_s, hits_in_range, hits_wf, node_normal_s, node_wf, scene_wf, Hit, HitList, Scene,
};
use crate::vectors::{
    v4_add_s, v4_dot_s, v4_magnitude_s, v4_neg_s, v4_normalize_s, v4_ok, v4_reflect_s,
    v4_scale_s, v4_sub_s, Vector, V4,
};
use vstd::prelude::*;

verus! {

/// How far shading points are nudged along the normal to avoid numerical
/// self-intersection.
pub const SHADOW_BIAS: i128 = 10_000;

/// A point light in the scene.
#[derive(Clone, Debug)]
pub struct PointLight {
    pub position: Vector,
    pub intensity: Color,
}

/// The light's stored data is well formed.
pub open spec fn light_wf(l: PointLight) -> bool {
    v4_ok(l.position@) && c3_ok(l.intensity@)
}

impl PointLight {
    /// Constructs a new point light.
    pub fn new(position: Vector, intensity: Color) -> (r: Self)
        requires
            position.wf(),
            intensity.wf(),
        ensures
            r.position == position,
            r.intensity == intensity,
            light_wf(r),
    {
        Self { position, intensity }
    }
}

/// The exponent the specular term is raised to: the whole-unit part of
/// the material's shininess, never negative.
pub open spec fn phong_exponent_s(shininess: int) -> nat {
    if shininess <= 0 {
        0
    } else {
        (shininess / (FX_ONE as int)) as nat
    }
}

/// The specular base: the reflection-eye alignment, clamped into the
/// unit interval so that raising it to a power stays there.
pub open spec fn phong_base_s(reflect_dot_eye: int) -> int {
    if reflect_dot_eye > FX_ONE as int {
        FX_ONE as int
    } else {
        reflect_dot_eye
    }
}

/// The Phong illumination of one light at one shading point: the ambient
/// term always, and the diffuse and specular terms when the light faces
/// the surface and is not blocked.
pub open spec fn phong_lighting_s(
    light: PointLight,
    material: Material,
    world_position: V4,
    object_position: V4,
    eye: V4,
    normal: V4,
    in_shadow: bool,
) -> C3 {
    let effective_color = c3_mul_s(
        texture_sample_s(material.texture, object_position),
        light.intensity@,
    );
    let light_direction = v4_normalize_s(v4_sub_s(light.position@, world_position));
    let ambient = c3_scale_s(effective_color, material.ambient as int);
    let light_dot_normal = v4_dot_s(light_direction, normal);
    let diffuse = if light_dot_normal >= 0 {
        c3_scale_s(c3_scale_s(effective_color, material.diffuse as int), light_dot_normal)
    } else {
        c3_black()
    };
    let reflect_direction = v4_neg_s(v4_reflect_s(light_direction, normal));
    let reflect_dot_eye = v4_dot_s(reflect_direction, eye);
    let specular = if light_dot_normal >= 0 && reflect_dot_eye >= 0 {
        let factor = fx_pow_s(phong_base_s(reflect_dot_eye), phong_exponent_s(material.shininess as int));
        c3_scale_s(c3_scale_s(light.intensity@, material.specular as int), factor)
    } else {
        c3_black()
    };
    if in_shadow {
        ambient
    } else {
        c3_add_s(c3_add_s(ambient, diffuse), specular)
    }
}

/// Computes lighting for a particular point in the scene via the Phong
/// model.
pub fn phong_lighting(
    light: &PointLight,
    material: &Material,
    world_position: Vector,
    object_position: Vector,
    eye: Vector,
    normal: Vector,
    in_shadow: bool,
) -> (r: Color)
    requires
        light_wf(*light),
        material.wf(),
        world_position.wf(),
        object_position.wf(),
        eye.wf(),
        normal.wf(),
    ensures
        r@ == phong_lighting_s(
            *light,
            *material,
            world_position@,
            object_position@,
            eye@,
            normal@,
            in_shadow,
        ),
        r.wf(),
{
    let effective_color = material.texture.sample_at(object_position).mul(light.intensity);
    let light_direction = light.position.sub(world_position).normalize();

    let ambient = effective_color.scale(material.ambient);
    let mut diffuse = Color::black();
    let mut specular = Color::black();

    let light_dot_normal = light_direction.dot(normal);
    if light_dot_normal >= 0 {
        diffuse = effective_color.scale(material.diffuse).scale(light_dot_normal);

        let reflect_direction = light_direction.reflect(normal).neg();
        let reflect_dot_eye = reflect_direction.dot(eye);

        if reflect_dot_eye >= 0 {
            let base = if reflect_dot_eye > FX_ONE {
                FX_ONE
            } else {
                reflect_dot_eye
            };
            let units = fx_floor_div(material.shininess, FX_ONE);
            let exponent: u64 = if material.shininess <= 0 {
                0
            } else {
                units as u64
            };
            let factor = fx_pow(base, exponent);
            specular = light.intensity.scale(material.specular).scale(factor);
        }
    }

    if in_shadow {
        ambient
    } else {
        ambient.add(diffuse).add(specular)
    }
}

/// The refractive index of the medium the scan currently stands in: that
/// of the object entered last, or one (vacuum) outside every object.
pub open spec fn refraction_of_s(s: Scene, containers: Seq<usize>) -> int {
    if containers.len() == 0 {
        FX_ONE as int
    } else {
        s.nodes@[containers.last() as int].material.refractive_index as int
    }
}

/// Every handle of the stack points at one of `n` objects.
pub open spec fn objs_in_range(cs: Seq<usize>, n: int) -> bool {
    forall|i: int| 0 <= i < cs.len() ==> #[trigger] cs[i] < n
}

/// Whether the stack holds the given object.
pub open spec fn contains_obj_s(cs: Seq<usize>, o: usize) -> bool {
    exists|i: int| 0 <= i < cs.len() && #[trigger] cs[i] == o
}

/// The stack with every occurrence of the given object removed.
pub open spec fn remove_obj_s(cs: Seq<usize>, o: usize) -> Seq<usize>
    decreases cs.len(),
{
    if cs.len() == 0 {
        Seq::empty()
    } else {
        let head = if cs[0] == o {
            Seq::<usize>::empty()
        } else {
            seq![cs[0]]
        };
        head + remove_obj_s(cs.drop_first(), o)
    }
}

/// Replays the ordered hit list, keeping the stack of objects the ray is
/// currently inside: a hit whose object is already on the stack pops it
/// (an exit), any other pushes it (an entry). When the focal hit is
/// reached, the medium before the update is the one being left and the
/// medium after it is the one being entered.
pub open spec fn refract_scan_s(
    s: Scene,
    hits: Seq<Hit>,
    focal: Hit,
    i: int,
    containers: Seq<usize>,
    n1: int,
    n2: int,
) -> (int, int)
    decreases hits.len() - i,
{
    if i < 0 || i >= hits.len() {
        (n1, n2)
    } else {
        let h = hits[i];
        let is_focal = hit_eq_s(h, focal);
        let n1b = if is_focal {
            refraction_of_s(s, containers)
        } else {
            n1
        };
        let cs2 = if contains_obj_s(containers, h.object) {
            remove_obj_s(containers, h.object)
        } else {
            containers.push(h.object)
        };
        if is_focal {
            (n1b, refraction_of_s(s, cs2))
        } else {
            refract_scan_s(s, hits, focal, i + 1, cs2, n1b, n2)
        }
    }
}

/// The pair of refractive indices at the focal hit of an ordered list.
pub open spec fn refract_pair_s(s: Scene, hits: Seq<Hit>, focal: Hit) -> (int, int) {
    refract_scan_s(s, hits, focal, 0, Seq::empty(), 0, 0)
}

/// Ghost model of the shading context.
pub struct LdM {
    pub object: int,
    pub world_position: V4,
    pub over_position: V4,
    pub under_position: V4,
    pub object_position: V4,
    pub eye: V4,
    pub normal: V4,
    pub reflect_direction: V4,
    pub distance: int,
    pub inside: bool,
    pub n1: int,
    pub n2: int,
}

/// The shading context of the focal hit: positions, directions, the
/// inside flag and the refractive pair, exactly as the pipeline uses
/// them.
pub open spec fn lighting_data_s(s: Scene, ray: R4, hit: Hit, hits: Seq<Hit>) -> LdM {
    let node = s.nodes@[hit.object as int];
    let world_position = ray_position_s(ray, hit.distance as int);
    let eye = v4_neg_s(ray.direction);
    let outward = node_normal_s(node, world_position);
    let inside = v4_dot_s(outward, eye) < 0;
    let normal = if inside {
        v4_neg_s(outward)
    } else {
        outward
    };
    let over_position = v4_add_s(world_position, v4_scale_s(normal, SHADOW_BIAS as int));
    let under_position = v4_sub_s(world_position, v4_scale_s(normal, SHADOW_BIAS as int));
    let object_position = mv4_s(node.inverse_transform@, over_position);
    let reflect_direction = v4_reflect_s(ray.direction, normal);
    let pair = refract_pair_s(s, hits, hit);
    LdM {
        object: hit.object as int,
        world_position,
        over_position,
        under_position,
        object_position,
        eye,
        normal,
        reflect_direction,
        distance: hit.distance as int,
        inside,
        n1: pair.0,
        n2: pair.1,
    }
}

/// Law: the shading normal faces the eye. The context flips the
/// outward normal whenever the ray arrives from inside, so the oriented
/// normal never points away from the eye: its dot with the eye
/// direction is at least zero. At grazing incidence the dot is exactly
/// zero, which is why the bound is not strict; the over and under
/// points themselves are pinned exactly by the context's contract as
/// the hit point displaced by the oriented normal times the bias.
pub proof fn lemma_shading_normal_faces_eye(s: Scene, ray: R4, hit: Hit, hits: Seq<Hit>)
    ensures
        v4_dot_s(
            lighting_data_s(s, ray, hit, hits).normal,
            lighting_data_s(s, ray, hit, hits).eye,
        ) >= 0,
{
    let node = s.nodes@[hit.object as int];
    let world_position = ray_position_s(ray, hit.distance as int);
    let eye = v4_neg_s(ray.direction);
    let outward = node_normal_s(node, world_position);
    if v4_dot_s(outward, eye) < 0 {
        crate::vectors::lemma_dot_neg(outward, eye);
    }
}

/// Every scalar of the model is representable.
pub open spec fn ld_ok(ld: LdM) -> bool {
    0 <= ld.object && v4_ok(ld.world_position) && v4_ok(ld.over_position)
        && v4_ok(ld.under_position) && v4_ok(ld.object_position) && v4_ok(ld.eye)
        && v4_ok(ld.normal) && v4_ok(ld.reflect_direction) && fx_ok(ld.distance)
        && fx_ok(ld.n1) && fx_ok(ld.n2)
}

/// The model is well formed and its handle is in range.
pub open spec fn ld_wf(ld: LdM, nodes: int) -> bool {
    ld_ok(ld) && ld.object < nodes
}

/// Lighting data used in the Phong model; computed from intersection
/// information in the scene.
pub struct LightingData {
    pub object: usize,
    pub world_position: Vector,
    pub over_position: Vector,
    pub under_position: Vector,
    pub object_position: Vector,
    pub eye: Vector,
    pub normal: Vector,
    pub reflect_direction: Vector,
    pub distance: i128,
    pub inside: bool,
    pub n1: i128,
    pub n2: i128,
}

impl LightingData {
    /// Every scalar of the context is representable.
    pub open spec fn wf(&self) -> bool {
        ld_ok(self@)
    }
}

impl View for LightingData {
    type V = LdM;

    open spec fn view(&self) -> LdM {
        LdM {
            object: self.object as int,
            world_position: self.world_position@,
            over_position: self.over_position@,
            under_position: self.under_position@,
            object_position: self.object_position@,
            eye: self.eye@,
            normal: self.normal@,
            reflect_direction: self.reflect_direction@,
            distance: self.distance as int,
            inside: self.inside,
            n1: self.n1 as int,
            n2: self.n2 as int,
        }
    }
}

/// Compares two hits as the container stack does: same object, and
/// distances within the comparison tolerance.
fn hit_eq(a: Hit, b: Hit) -> (r: bool)
    requires
        a.wf(),
        b.wf(),
    ensures
        r == hit_eq_s(a, b),
{
    a.object == b.object && fx_approx(a.distance, b.distance)
}

/// The refractive index of the medium on top of the stack.
fn refraction_of(s: &Scene, containers: &Vec<usize>) -> (r: i128)
    requires
        scene_wf(*s),
        objs_in_range(containers@, s.nodes@.len() as int),
    ensures
        r as int == refraction_of_s(*s, containers@),
        fx_ok(r as int),
{
    if containers.len() == 0 {
        FX_ONE
    } else {
        let last = containers[containers.len() - 1];
        s.nodes[last].material.refractive_index
    }
}

/// Whether the stack holds the given object.
fn contains_obj(cs: &Vec<usize>, o: usize) -> (r: bool)
    ensures
        r == contains_obj_s(cs@, o),
{
    let mut i: usize = 0;
    while i < cs.len()
        invariant
            i <= cs@.len(),
            forall|j: int| 0 <= j < i ==> #[trigger] cs@[j] != o,
        decreases cs@.len() - i,
    {
        if cs[i] == o {
            return true;
        }
        i = i + 1;
    }
    false
}

/// Removes every occurrence of the given object from the stack.
fn remove_obj(cs: Vec<usize>, o: usize) -> (r: Vec<usize>)
    ensures
        r@ == remove_obj_s(cs@, o),
{
    let ghost orig = cs@;
    let mut r: Vec<usize> = Vec::new();
    let mut i: usize = 0;
    proof {
        assert(orig.subrange(0, orig.len() as int) =~= orig);
        assert(r@ + remove_obj_s(orig, o) =~= remove_obj_s(orig, o));
    }
    while i < cs.len()
        invariant
            cs@ == orig,
            i <= orig.len(),
            remove_obj_s(orig, o) == r@ + remove_obj_s(orig.subrange(i as int, orig.len() as int), o),
        decreases orig.len() - i,
    {
        let ghost pre = r@;
        let ghost tail = orig.subrange(i as int, orig.len() as int);
        if cs[i] != o {
            r.push(cs[i]);
        }
        i = i + 1;
        proof {
            assert(tail.drop_first() =~= orig.subrange(i as int, orig.len() as int));
            if tail[0] == o {
                assert(remove_obj_s(tail, o) =~= remove_obj_s(tail.drop_first(), o));
            } else {
                assert(remove_obj_s(tail, o) =~= seq![tail[0]] + remove_obj_s(tail.drop_first(), o));
                assert(pre + remove_obj_s(tail, o) =~= r@ + remove_obj_s(tail.drop_first(), o));
            }
        }
    }
    proof {
        assert(orig.subrange(orig.len() as int, orig.len() as int) =~= Seq::<usize>::empty());
        assert(r@ + remove_obj_s(Seq::empty(), o) =~= r@);
    }
    r
}

impl LightingData {
    /// Computes the refractive indices on both sides of the focal hit by
    /// replaying the ordered hit list with a container stack.
    fn compute_refractivity(scene: &Scene, hit: &Hit, hits: &HitList) -> (r: (i128, i128))
        requires
            scene_wf(*scene),
            hit.wf(),
            hits.wf(),
            hits_in_range(hits@, scene.nodes@.len() as int),
        ensures
            (r.0 as int, r.1 as int) == refract_pair_s(*scene, hits@, *hit),
            fx_ok(r.0 as int),
            fx_ok(r.1 as int),
    {
        let mut containers: Vec<usize> = Vec::new();
        let mut n1: i128 = 0;
        let mut n2: i128 = 0;
        let mut i: usize = 0;
        proof {
            assert(containers@ =~= Seq::<usize>::empty());
        }
        while i < hits.len()
            invariant
                scene_wf(*scene),
                hit.wf(),
                hits.wf(),
                hits_in_range(hits@, scene.nodes@.len() as int),
                i <= hits@.len(),
                objs_in_range(containers@, scene.nodes@.len() as int),
                fx_ok(n1 as int),
                fx_ok(n2 as int),
                refract_pair_s(*scene, hits@, *hit) == refract_scan_s(
                    *scene,
                    hits@,
                    *hit,
                    i as int,
                    containers@,
                    n1 as int,
                    n2 as int,
                ),
            decreases hits@.len() - i,
        {
            let h = hits.get(i);
            let is_focal = hit_eq(h, *hit);
            if is_focal {
                n1 = refraction_of(scene, &containers);
            }
            let ghost cs_before = containers@;
            if contains_obj(&containers, h.object) {
                containers = remove_obj(containers, h.object);
                proof {
                    lemma_remove_obj_bounds(cs_before, h.object, scene.nodes@.len() as int);
                }
            } else {
                containers.push(h.object);
            }
            if is_focal {
                n2 = refraction_of(scene, &containers);
                return (n1, n2);
            }
            i = i + 1;
        }
        (n1, n2)
    }

    /// Pre-computes the lighting data used in the Phong model.
    pub fn calculate(scene: &Scene, ray: &Ray, hit: &Hit, hits: &HitList) -> (r: LightingData)
        requires
            scene_wf(*scene),
            ray.wf(),
            hit.wf(),
            hits.wf(),
            hit.object < scene.nodes@.len(),
            hits_in_range(hits@, scene.nodes@.len() as int),
        ensures
            r@ == lighting_data_s(*scene, ray@, *hit, hits@),
            ld_wf(r@, scene.nodes@.len() as int),
    {
        let node = &scene.nodes[hit.object];

        let world_position = ray.position(hit.distance);
        let eye = ray.direction.neg();

        let outward = node.normal_at(world_position);
        let inside = outward.dot(eye) < 0;
        let normal = if inside {
            outward.neg()
        } else {
            outward
        };

        let over_position = world_position.add(normal.scale(SHADOW_BIAS));
        let under_position = world_position.sub(normal.scale(SHADOW_BIAS));
        let object_position = node.world_to_object(over_position);
        let reflect_direction = ray.direction.reflect(normal);

        let pair = Self::compute_refractivity(scene, hit, hits);

        LightingData {
            object: hit.object,
            world_position,
            over_position,
            under_position,
            object_position,
            eye,
            normal,
            reflect_direction,
            distance: hit.distance,
            inside,
            n1: pair.0,
            n2: pair.1,
        }
    }
}

/// Removal keeps the stack's handles in range.
proof fn lemma_remove_obj_bounds(cs: Seq<usize>, o: usize, n: int)
    requires
        objs_in_range(cs, n),
    ensures
        objs_in_range(remove_obj_s(cs, o), n),
    decreases cs.len(),
{
    if cs.len() == 0 {
    } else {
        assert(objs_in_range(cs.drop_first(), n)) by {
            assert(forall|i: int| 0 <= i < cs.drop_first().len()
                ==> cs.drop_first()[i] == cs[i + 1]);
        }
        lemma_remove_obj_bounds(cs.drop_first(), o, n);
    }
}

} // verus!
