//! Ray types and arithmetic.

use crate::fixed::fx_ok;
use crate::matrices::{mv4_s, Matrix4x4};
use crate::vectors::{v4_add_s, v4_ok, v4_scale_s, Point, Vector, V4};
use vstd::prelude::*;

verus! {

/// Ghost model of a ray.
pub struct R4 {
    pub origin: V4,
    pub direction: V4,
}

/// Both components of the model are well formed.
pub open spec fn r4_ok(r: R4) -> bool {
    v4_ok(r.origin) && v4_ok(r.direction)
}

/// The point reached after travelling `t` along the ray.
pub open spec fn ray_position_s(r: R4, t: int) -> V4 {
    v4_add_s(r.origin, v4_scale_s(r.direction, t))
}

/// A ray transformed by a matrix: both components are transformed.
pub open spec fn mul_ray_s(m: Seq<int>, r: R4) -> R4 {
    R4 { origin: mv4_s(m, r.origin), direction: mv4_s(m, r.direction) }
}

/// A ray is a half-line in 3-space with a starting point and a direction.
#[derive(Clone, Copy, Debug)]
pub struct Ray {
    pub origin: Point,
    pub direction: Vector,
}

impl View for Ray {
    type V = R4;

    open spec fn view(&self) -> R4 {
        R4 { origin: self.origin@, direction: self.direction@ }
    }
}

impl Ray {
    /// Both components lie in the representable band.
    pub open spec fn wf(&self) -> bool {
        r4_ok(self@)
    }

    /// Creates a new ray.
    pub fn new(origin: Point, direction: Vector) -> (r: Self)
        requires
            origin.wf(),
            direction.wf(),
        ensures
            r@ == (R4 { origin: origin@, direction: direction@ }),
            r.wf(),
    {
        Self { origin, direction }
    }

    /// Computes the position of the ray at a given distance from its origin.
    pub fn position(&self, distance: i128) -> (r: Vector)
        requires
            self.wf(),
            fx_ok(distance as int),
        ensures
            r@ == ray_position_s(self@, distance as int),
            r.wf(),
    {
        self.origin.add(self.direction.scale(distance))
    }
}

impl Matrix4x4 {
    /// Transforms a ray by this matrix.
    pub fn mul_ray(&self, rhs: &Ray) -> (r: Ray)
        requires
            self.wf(),
            rhs.wf(),
        ensures
            r@ == mul_ray_s(self@, rhs@),
            r.wf(),
    {
        Ray { origin: self.mul_vec(rhs.origin), direction: self.mul_vec(rhs.direction) }
    }
}

} // verus!
