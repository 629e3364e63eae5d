//! Shape rendering.
//!
//! Shapes are pure geometry in their own object space: each one maps a
//! local ray to the signed distances at which it is met, and a local
//! point to the local surface normal. The closed set of shapes is a sum
//! type, so the scene needs no dynamic dispatch.

use crate::fixed::{
    fx_abs, fx_add, fx_add_s, fx_div, fx_div_s, fx_mul, fx_mul_s, fx_neg, fx_neg_s, fx_ok,
    fx_sqrt, fx_sqrt_s, fx_sub, fx_sub_s, iabs, FX_EPSILON, FX_ONE,
};
use crate::rays::{Ray, R4};
use crate::vectors::{v4_dot_s, v4_ok, v4_sub_s, Vector, V4};
use vstd::prelude::*;

verus! {

/// The model of a list of hit distances.
pub open spec fn dists(s: Seq<i128>) -> Seq<int> {
    Seq::new(s.len(), |i: int| s[i] as int)
}

/// Every distance lies in the representable band.
pub open spec fn dists_ok(s: Seq<int>) -> bool {
    forall|i: int| 0 <= i < s.len() ==> fx_ok(#[trigger] s[i])
}

/// The origin as a point.
pub open spec fn origin_point_s() -> V4 {
    V4 { x: 0, y: 0, z: 0, w: FX_ONE as int }
}

/// Distances at which a local ray meets the unit sphere at the origin:
/// the roots of the usual quadratic. A degenerate direction (squared
/// length within tolerance of zero) and a negative discriminant give no
/// intersections; a tangent ray gives two equal roots, and roots behind
/// the origin are reported as they are — filtering is the caller's job.
pub open spec fn sphere_intersect_s(r: R4) -> Seq<int> {
    let sphere_to_ray = v4_sub_s(r.origin, origin_point_s());
    let a = v4_dot_s(r.direction, r.direction);
    let b = fx_mul_s(2 * (FX_ONE as int), v4_dot_s(sphere_to_ray, r.direction));
    let c = fx_sub_s(v4_dot_s(sphere_to_ray, sphere_to_ray), FX_ONE as int);
    let discriminant = fx_sub_s(
        fx_mul_s(b, b),
        fx_mul_s(fx_mul_s(4 * (FX_ONE as int), a), c),
    );
    if iabs(a) < FX_EPSILON as int {
        Seq::empty()
    } else if discriminant < 0 {
        Seq::empty()
    } else {
        let root = fx_sqrt_s(discriminant);
        let two_a = fx_mul_s(2 * (FX_ONE as int), a);
        seq![
            fx_div_s(fx_sub_s(fx_neg_s(b), root), two_a),
            fx_div_s(fx_add_s(fx_neg_s(b), root), two_a),
        ]
    }
}

/// The local normal of the unit sphere: the point, taken from the origin.
pub open spec fn sphere_normal_s(p: V4) -> V4 {
    v4_sub_s(p, origin_point_s())
}

/// Distances at which a local ray meets the plane through the origin: a
/// ray parallel to the plane (embedded rays included) yields none, any
/// other exactly one.
pub open spec fn plane_intersect_s(r: R4) -> Seq<int> {
    if iabs(r.direction.y) < FX_EPSILON as int {
        Seq::empty()
    } else {
        seq![fx_div_s(fx_neg_s(r.origin.y), r.direction.y)]
    }
}

/// A sphere in 3-space: the unit sphere centered at the origin of its
/// object space.
#[derive(Clone, Copy, Debug)]
pub struct Sphere;

/// A plane in 3-space: the infinite plane through the origin of its
/// object space, with the given normal.
#[derive(Clone, Copy, Debug)]
pub struct Plane {
    pub normal: Vector,
}

/// A shape in 3-space that can compute ray intersections and normals,
/// as a closed sum of the supported kinds.
#[derive(Clone, Copy, Debug)]
pub enum Shape {
    Sphere(Sphere),
    Plane(Plane),
}

/// The local normal a shape reports at a local point.
pub open spec fn shape_normal_s(shape: Shape, p: V4) -> V4 {
    match shape {
        Shape::Sphere(_) => sphere_normal_s(p),
        Shape::Plane(plane) => plane.normal@,
    }
}

/// The local intersection distances of a shape.
pub open spec fn shape_intersect_s(shape: Shape, r: R4) -> Seq<int> {
    match shape {
        Shape::Sphere(_) => sphere_intersect_s(r),
        Shape::Plane(_) => plane_intersect_s(r),
    }
}

/// The shape's stored data is well formed.
pub open spec fn shape_wf(shape: Shape) -> bool {
    match shape {
        Shape::Sphere(_) => true,
        Shape::Plane(plane) => v4_ok(plane.normal@),
    }
}

impl Sphere {
    /// Computes the distances at which the given local ray intersects the
    /// unit sphere.
    pub fn intersect(&self, object_ray: &Ray) -> (r: Vec<i128>)
        requires
            object_ray.wf(),
        ensures
            dists(r@) == sphere_intersect_s(object_ray@),
            dists_ok(dists(r@)),
    {
        let sphere_to_ray = object_ray.origin.sub(Vector { x: 0, y: 0, z: 0, w: FX_ONE });

        let a = object_ray.direction.dot(object_ray.direction);
        let b = fx_mul(2 * FX_ONE, sphere_to_ray.dot(object_ray.direction));
        let c = fx_sub(sphere_to_ray.dot(sphere_to_ray), FX_ONE);

        let discriminant = fx_sub(fx_mul(b, b), fx_mul(fx_mul(4 * FX_ONE, a), c));

        let mut results: Vec<i128> = Vec::new();
        if fx_abs(a) < FX_EPSILON {
            proof {
                assert(dists(results@) =~= sphere_intersect_s(object_ray@));
            }
            return results;
        }
        if discriminant >= 0 {
            let root = fx_sqrt(discriminant);
            let two_a = fx_mul(2 * FX_ONE, a);
            results.push(fx_div(fx_sub(fx_neg(b), root), two_a));
            results.push(fx_div(fx_add(fx_neg(b), root), two_a));
        }
        proof {
            assert(dists(results@) =~= sphere_intersect_s(object_ray@));
        }
        results
    }

    /// Computes the local normal at a local point on the sphere.
    pub fn normal_at(&self, object_point: Vector) -> (r: Vector)
        requires
            object_point.wf(),
        ensures
            r@ == sphere_normal_s(object_point@),
            r.wf(),
    {
        object_point.sub(Vector { x: 0, y: 0, z: 0, w: FX_ONE })
    }
}

impl Plane {
    /// Computes the distances at which the given local ray intersects the
    /// plane.
    pub fn intersect(&self, object_ray: &Ray) -> (r: Vec<i128>)
        requires
            object_ray.wf(),
        ensures
            dists(r@) == plane_intersect_s(object_ray@),
            dists_ok(dists(r@)),
    {
        let mut results: Vec<i128> = Vec::new();
        if fx_abs(object_ray.direction.y) < FX_EPSILON {
            proof {
                assert(dists(results@) =~= plane_intersect_s(object_ray@));
            }
            return results;
        }
        results.push(fx_div(fx_neg(object_ray.origin.y), object_ray.direction.y));
        proof {
            assert(dists(results@) =~= plane_intersect_s(object_ray@));
        }
        results
    }

    /// Computes the local normal, which is the same everywhere on a plane.
    pub fn normal_at(&self, _object_point: Vector) -> (r: Vector)
        requires
            v4_ok(self.normal@),
        ensures
            r@ == self.normal@,
            r.wf(),
    {
        self.normal
    }
}

impl Shape {
    /// Computes the distances at which the given local ray intersects the
    /// shape.
    pub fn intersect(&self, object_ray: &Ray) -> (r: Vec<i128>)
        requires
            shape_wf(*self),
            object_ray.wf(),
        ensures
            dists(r@) == shape_intersect_s(*self, object_ray@),
            dists_ok(dists(r@)),
    {
        match self {
            Shape::Sphere(sphere) => sphere.intersect(object_ray),
            Shape::Plane(plane) => plane.intersect(object_ray),
        }
    }

    /// Computes the local normal at a local point on the shape.
    pub fn normal_at(&self, object_point: Vector) -> (r: Vector)
        requires
            shape_wf(*self),
            object_point.wf(),
        ensures
            r@ == shape_normal_s(*self, object_point@),
            r.wf(),
    {
        match self {
            Shape::Sphere(sphere) => sphere.normal_at(object_point),
            Shape::Plane(plane) => plane.normal_at(object_point),
        }
    }
}

} // verus!
