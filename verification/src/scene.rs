//! Scene management abstractions.

use crate::colors::{c3_add_s, c3_black, c3_ok, c3_scale_s, Color, C3};
use crate::fixed::{
    fx_add, fx_add_s, fx_approx, fx_approx_s, fx_div, fx_div_s, fx_mul, fx_mul_s, fx_ok,
    fx_sqrt, fx_sqrt_s, fx_sub, fx_sub_s, FX_ONE,
};
use crate::lighting::{
    ld_wf, light_wf, lighting_data_s, phong_lighting, phong_lighting_s, LdM, LightingData,
    PointLight,
};
use crate::materials::{default_material_s, Material};
use crate::matrices::{
    identity4_s, inv4_s, mv4_s, singular4_s, transpose4_s, Matrix4x4, MatrixError,
};
use crate::rays::{mul_ray_s, ray_position_s, Ray, R4};
use crate::shapes::{
    dists, dists_ok, shape_intersect_s, shape_normal_s, shape_wf, Plane, Shape, Sphere,
};
use crate::transforms::{
    lemma_translate_inverse, lemma_translation_round_trip, translate_s,
};
use crate::vectors::{v4_dot_s, v4_magnitude_s, v4_normalize_s, v4_ok, v4_scale_s, v4_sub_s, Point, Vector, V4};
use vstd::multiset::Multiset;
use vstd::prelude::*;

verus! {

/// A single intersection: the handle of the object that was hit (its
/// index among the scene's nodes) and the signed distance along the ray.
#[derive(Clone, Copy, PartialEq, Eq, Structural, Debug)]
pub struct Hit {
    pub object: usize,
    pub distance: i128,
}

impl Hit {
    /// The distance lies in the representable band.
    pub open spec fn wf(&self) -> bool {
        fx_ok(self.distance as int)
    }

    /// Creates a new intersection.
    pub fn new(object: usize, distance: i128) -> (r: Self)
        requires
            fx_ok(distance as int),
        ensures
            r == (Hit { object, distance }),
            r.wf(),
    {
        Self { object, distance }
    }
}

/// Two hits count as the same when they name the same object and their
/// distances agree within the comparison tolerance.
pub open spec fn hit_eq_s(a: Hit, b: Hit) -> bool {
    a.object == b.object && fx_approx_s(a.distance as int, b.distance as int)
}

/// Every hit of the sequence is well formed.
pub open spec fn hits_wf(s: Seq<Hit>) -> bool {
    forall|i: int| 0 <= i < s.len() ==> (#[trigger] s[i]).wf()
}

/// Every hit of the sequence points at one of `n` objects.
pub open spec fn hits_in_range(s: Seq<Hit>, n: int) -> bool {
    forall|i: int| 0 <= i < s.len() ==> (#[trigger] s[i]).object < n
}

/// Distances never decrease along the sequence.
pub open spec fn sorted_by_distance(s: Seq<Hit>) -> bool {
    forall|i: int, j: int| 0 <= i < j < s.len() ==> #[trigger] s[i].distance <= #[trigger] s[j].distance
}

/// Inserts a hit into a sorted sequence, before the first hit that is
/// not strictly closer — so insertion keeps the original order of equal
/// distances.
pub open spec fn insert_sorted_s(h: Hit, s: Seq<Hit>) -> Seq<Hit>
    decreases s.len(),
{
    if s.len() == 0 {
        seq![h]
    } else if h.distance <= s[0].distance {
        seq![h] + s
    } else {
        seq![s[0]] + insert_sorted_s(h, s.drop_first())
    }
}

/// Stable sort of the hits by distance, as repeated insertion.
pub open spec fn sort_by_distance_s(s: Seq<Hit>) -> Seq<Hit>
    decreases s.len(),
{
    if s.len() == 0 {
        Seq::empty()
    } else {
        insert_sorted_s(s[0], sort_by_distance_s(s.drop_first()))
    }
}

/// Inserting keeps exactly the same hits, with the new one added.
pub proof fn lemma_insert_multiset(h: Hit, s: Seq<Hit>)
    ensures
        insert_sorted_s(h, s).to_multiset() == s.to_multiset().insert(h),
    decreases s.len(),
{
    broadcast use vstd::seq_lib::group_to_multiset_ensures;

    if s.len() == 0 {
        assert(insert_sorted_s(h, s) =~= Seq::empty().push(h));
        assert(Seq::<Hit>::empty().push(h).to_multiset() =~= s.to_multiset().insert(h));
    } else if h.distance <= s[0].distance {
        assert(insert_sorted_s(h, s) =~= s.insert(0, h));
        vstd::seq_lib::lemma_multiset_commutative(seq![h], s);
        assert(seq![h] + s =~= s.insert(0, h));
        assert(seq![h].to_multiset() =~= Multiset::empty().insert(h));
        assert((seq![h] + s).to_multiset() == seq![h].to_multiset().add(s.to_multiset()));
        assert(Multiset::empty().insert(h).add(s.to_multiset()) =~= s.to_multiset().insert(h));
    } else {
        lemma_insert_multiset(h, s.drop_first());
        let rest = insert_sorted_s(h, s.drop_first());
        vstd::seq_lib::lemma_multiset_commutative(seq![s[0]], rest);
        assert(seq![s[0]].to_multiset() =~= Multiset::empty().insert(s[0]));
        assert((seq![s[0]] + rest).to_multiset() == seq![s[0]].to_multiset().add(rest.to_multiset()));
        vstd::seq_lib::lemma_multiset_commutative(seq![s[0]], s.drop_first());
        assert(seq![s[0]] + s.drop_first() =~= s);
        assert(s.to_multiset() == seq![s[0]].to_multiset().add(s.drop_first().to_multiset()));
        assert(Multiset::empty().insert(s[0]).add(s.drop_first().to_multiset().insert(h))
            =~= Multiset::empty().insert(s[0]).add(s.drop_first().to_multiset()).insert(h));
    }
}

/// Sorting keeps exactly the same hits.
pub proof fn lemma_sort_multiset(s: Seq<Hit>)
    ensures
        sort_by_distance_s(s).to_multiset() == s.to_multiset(),
    decreases s.len(),
{
    broadcast use vstd::seq_lib::group_to_multiset_ensures;

    if s.len() == 0 {
        assert(sort_by_distance_s(s).to_multiset() =~= s.to_multiset());
    } else {
        lemma_sort_multiset(s.drop_first());
        lemma_insert_multiset(s[0], sort_by_distance_s(s.drop_first()));
        vstd::seq_lib::lemma_multiset_commutative(seq![s[0]], s.drop_first());
        assert(seq![s[0]] + s.drop_first() =~= s);
        assert(seq![s[0]].to_multiset() =~= Multiset::empty().insert(s[0]));
        assert(s.to_multiset() == seq![s[0]].to_multiset().add(s.drop_first().to_multiset()));
        assert(Multiset::empty().insert(s[0]).add(s.drop_first().to_multiset())
            =~= s.drop_first().to_multiset().insert(s[0]));
    }
}

/// Inserting into a sorted sequence leaves it sorted.
pub proof fn lemma_insert_sorted(h: Hit, s: Seq<Hit>)
    requires
        sorted_by_distance(s),
    ensures
        sorted_by_distance(insert_sorted_s(h, s)),
        insert_sorted_s(h, s).len() == s.len() + 1,
        forall|x: Hit| insert_sorted_s(h, s).contains(x) ==> (x == h || s.contains(x)),
    decreases s.len(),
{
    if s.len() == 0 {
    } else if h.distance <= s[0].distance {
        let r = seq![h] + s;
        assert forall|x: Hit| r.contains(x) implies (x == h || s.contains(x)) by {
            let i = choose|i: int| 0 <= i < r.len() && r[i] == x;
            if i > 0 {
                assert(s[i - 1] == x);
            }
        }
    } else {
        lemma_insert_sorted(h, s.drop_first());
        let rest = insert_sorted_s(h, s.drop_first());
        let r = seq![s[0]] + rest;
        assert forall|x: Hit| r.contains(x) implies (x == h || s.contains(x)) by {
            let i = choose|i: int| 0 <= i < r.len() && r[i] == x;
            if i > 0 {
                assert(rest[i - 1] == x);
                assert(rest.contains(x));
                if x != h {
                    assert(s.drop_first().contains(x));
                    let j = choose|j: int| 0 <= j < s.drop_first().len() && s.drop_first()[j] == x;
                    assert(s[j + 1] == x);
                }
            }
        }
        assert forall|i: int, j: int| 0 <= i < j < r.len() implies r[i].distance <= r[j].distance by {
            if i == 0 {
                assert(rest.contains(r[j])) by {
                    assert(rest[j - 1] == r[j]);
                }
                if r[j] != h {
                    assert(s.drop_first().contains(r[j]));
                    let k = choose|k: int| 0 <= k < s.drop_first().len() && s.drop_first()[k] == r[j];
                    assert(s[0].distance <= s[k + 1].distance);
                }
            } else {
                assert(rest[i - 1].distance <= rest[j - 1].distance);
            }
        }
    }
}

/// Sorting yields a sorted sequence of the same length whose hits all
/// come from the input.
pub proof fn lemma_sort_sorted(s: Seq<Hit>)
    ensures
        sorted_by_distance(sort_by_distance_s(s)),
        sort_by_distance_s(s).len() == s.len(),
        forall|x: Hit| sort_by_distance_s(s).contains(x) ==> s.contains(x),
    decreases s.len(),
{
    if s.len() == 0 {
    } else {
        lemma_sort_sorted(s.drop_first());
        lemma_insert_sorted(s[0], sort_by_distance_s(s.drop_first()));
        assert forall|x: Hit| sort_by_distance_s(s).contains(x) implies s.contains(x) by {
            if x != s[0] {
                assert(s.drop_first().contains(x));
                let j = choose|j: int| 0 <= j < s.drop_first().len() && s.drop_first()[j] == x;
                assert(s[j + 1] == x);
            } else {
                assert(s[0] == x);
            }
        }
    }
}

/// Well-formedness and index bounds survive sorting.
pub proof fn lemma_sort_preserves_bounds(s: Seq<Hit>, n: int)
    requires
        hits_wf(s),
        hits_in_range(s, n),
    ensures
        hits_wf(sort_by_distance_s(s)),
        hits_in_range(sort_by_distance_s(s), n),
{
    lemma_sort_sorted(s);
    let r = sort_by_distance_s(s);
    assert forall|i: int| 0 <= i < r.len() implies (#[trigger] r[i]).wf() && r[i].object < n by {
        assert(r.contains(r[i]));
        assert(s.contains(r[i]));
        let j = choose|j: int| 0 <= j < s.len() && s[j] == r[i];
        assert(s[j].wf());
    }
}

/// The closest strictly-positive hit of a sequence, if any: the first
/// one with the least positive distance.
pub open spec fn has_positive_hit(s: Seq<Hit>) -> bool {
    exists|i: int| 0 <= i < s.len() && (#[trigger] s[i]).distance > 0
}

/// The scan that picks the closest hit: positive distances only, and a
/// strictly closer hit replaces the best so far, so the first of equally
/// close hits wins.
pub open spec fn closest_scan_s(s: Seq<Hit>, i: int, best: Option<Hit>) -> Option<Hit>
    decreases s.len() - i,
{
    if i < 0 || i >= s.len() {
        best
    } else {
        let better = match best {
            Option::None => s[i].distance > 0,
            Option::Some(b) => s[i].distance > 0 && s[i].distance < b.distance,
        };
        let next = if better {
            Some(s[i])
        } else {
            best
        };
        closest_scan_s(s, i + 1, next)
    }
}

/// The closest strictly-positive hit of a sequence.
pub open spec fn closest_hit_s(s: Seq<Hit>) -> Option<Hit> {
    closest_scan_s(s, 0, None)
}

/// A set of hits for a ray against a scene.
#[derive(Debug)]
pub struct HitList {
    pub hits: Vec<Hit>,
}

impl View for HitList {
    type V = Seq<Hit>;

    open spec fn view(&self) -> Seq<Hit> {
        self.hits@
    }
}

impl HitList {
    /// Every hit is well formed.
    pub open spec fn wf(&self) -> bool {
        hits_wf(self@)
    }

    /// Creates a new, empty set of intersections.
    pub fn new() -> (r: Self)
        ensures
            r@ == Seq::<Hit>::empty(),
            r.wf(),
    {
        let r = Self { hits: Vec::new() };
        proof {
            assert(r@ =~= Seq::<Hit>::empty());
        }
        r
    }

    /// Creates a new set from the given intersections.
    pub fn from(hits: Vec<Hit>) -> (r: Self)
        requires
            hits_wf(hits@),
        ensures
            r@ == hits@,
            r.wf(),
    {
        Self { hits }
    }

    /// The number of intersections in the set.
    pub fn len(&self) -> (r: usize)
        ensures
            r == self@.len(),
    {
        self.hits.len()
    }

    /// Reads one intersection of the set.
    pub fn get(&self, i: usize) -> (r: Hit)
        requires
            i < self@.len(),
        ensures
            r == self@[i as int],
    {
        self.hits[i]
    }

    /// Adds an intersection to the set.
    pub fn push(&mut self, object: usize, distance: i128)
        requires
            old(self).wf(),
            fx_ok(distance as int),
        ensures
            final(self)@ == old(self)@.push(Hit { object, distance }),
            final(self).wf(),
    {
        self.hits.push(Hit { object, distance });
    }

    /// Appends all items from the given other set to this set.
    pub fn append(&mut self, other: Self)
        requires
            old(self).wf(),
            other.wf(),
        ensures
            final(self)@ == old(self)@ + other@,
            final(self).wf(),
    {
        let mut o = other;
        self.hits.append(&mut o.hits);
    }

    /// Finds the closest hit: the intersection with the smallest strictly
    /// positive distance, ignoring every hit at or behind the origin.
    pub fn closest_hit(&self) -> (r: Option<Hit>)
        requires
            self.wf(),
        ensures
            r == closest_hit_s(self@),
            match r {
                Some(h) => self@.contains(h) && h.distance > 0 && forall|i: int|
                    0 <= i < self@.len() && (#[trigger] self@[i]).distance > 0
                        ==> h.distance <= self@[i].distance,
                None => !has_positive_hit(self@),
            },
    {
        let mut best: Option<Hit> = None;
        let mut k: usize = 0;
        while k < self.hits.len()
            invariant
                self.wf(),
                k <= self@.len(),
                closest_hit_s(self@) == closest_scan_s(self@, k as int, best),
                match best {
                    Some(b) => self@.contains(b) && b.distance > 0 && forall|i: int|
                        0 <= i < k && (#[trigger] self@[i]).distance > 0
                            ==> b.distance <= self@[i].distance,
                    None => forall|i: int| 0 <= i < k ==> (#[trigger] self@[i]).distance <= 0,
                },
            decreases self@.len() - k,
        {
            let h = self.hits[k];
            if h.distance > 0 {
                match best {
                    Some(b) => {
                        if h.distance < b.distance {
                            best = Some(h);
                            proof {
                                assert(self@[k as int] == h);
                            }
                        }
                    },
                    None => {
                        best = Some(h);
                        proof {
                            assert(self@[k as int] == h);
                        }
                    },
                }
            }
            k = k + 1;
        }
        best
    }

    /// Sorts the intersections by distance, keeping the original order of
    /// equal distances; the result holds exactly the same hits, ordered.
    pub fn sort_by_distance(&mut self)
        requires
            old(self).wf(),
        ensures
            final(self)@ == sort_by_distance_s(old(self)@),
            final(self)@.to_multiset() == old(self)@.to_multiset(),
            sorted_by_distance(final(self)@),
            final(self).wf(),
    {
        let ghost orig = self@;
        let mut acc: Vec<Hit> = Vec::new();
        let mut i: usize = self.hits.len();
        while i > 0
            invariant
                hits_wf(orig),
                self@ == orig,
                i <= orig.len(),
                acc@ == sort_by_distance_s(orig.subrange(i as int, orig.len() as int)),
            decreases i,
        {
            i = i - 1;
            let sub = insert_hit(self.hits[i], acc);
            acc = sub;
            proof {
                assert(orig.subrange(i as int, orig.len() as int).drop_first()
                    =~= orig.subrange(i as int + 1, orig.len() as int));
            }
        }
        proof {
            assert(orig.subrange(0, orig.len() as int) =~= orig);
            lemma_sort_multiset(orig);
            lemma_sort_sorted(orig);
            let sorted = sort_by_distance_s(orig);
            assert forall|j: int| 0 <= j < sorted.len() implies (#[trigger] sorted[j]).wf() by {
                assert(sorted.contains(sorted[j]));
                assert(orig.contains(sorted[j]));
                let k = choose|k: int| 0 <= k < orig.len() && orig[k] == sorted[j];
                assert(orig[k].wf());
            }
        }
        self.hits = acc;
    }
}

/// Inserts a hit into a vector sorted by distance, before the first hit
/// that is not strictly closer.
fn insert_hit(h: Hit, v: Vec<Hit>) -> (r: Vec<Hit>)
    ensures
        r@ == insert_sorted_s(h, v@),
    decreases v@.len(),
{
    let mut v = v;
    if v.len() == 0 {
        let mut r: Vec<Hit> = Vec::new();
        r.push(h);
        proof {
            assert(r@ =~= seq![h]);
        }
        r
    } else if h.distance <= v[0].distance {
        let ghost v0 = v@;
        v.insert(0, h);
        proof {
            assert(v@ =~= seq![h] + v0);
        }
        v
    } else {
        let first = v.remove(0);
        let ghost rest0 = v@;
        let mut r = insert_hit(h, v);
        r.insert(0, first);
        proof {
            assert(r@ =~= seq![first] + insert_sorted_s(h, rest0));
        }
        r
    }
}

/// The bound on recursive reflection and refraction: at this depth the
/// trace stops contributing.
pub const MAX_DEPTH: usize = 5;

/// A node in a scene: a shape with an associated material and transform,
/// together with the cached inverse of that transform.
#[derive(Debug)]
pub struct SceneNode {
    pub object: Shape,
    pub material: Material,
    pub transform: Matrix4x4,
    pub inverse_transform: Matrix4x4,
}

/// The node's shape, material and both matrices are well formed.
pub open spec fn node_wf(n: SceneNode) -> bool {
    shape_wf(n.object) && n.material.wf() && n.transform.wf() && n.inverse_transform.wf()
}

/// The hits a node produces for a world ray: the world ray taken into
/// object space by the cached inverse, intersected with the shape, each
/// distance tagged with the node's handle.
pub open spec fn node_intersect_s(n: SceneNode, r: R4, object: usize) -> Seq<Hit> {
    let object_ray = mul_ray_s(n.inverse_transform@, r);
    let ds = shape_intersect_s(n.object, object_ray);
    Seq::new(ds.len(), |i: int| Hit { object, distance: ds[i] as i128 })
}

/// The world normal of a node at a world point: the point taken into
/// object space, the shape's local normal there, mapped back through the
/// transposed inverse, its `w` zeroed, normalized.
pub open spec fn node_normal_s(n: SceneNode, world_point: V4) -> V4 {
    let object_point = mv4_s(n.inverse_transform@, world_point);
    let local = shape_normal_s(n.object, object_point);
    let wn = mv4_s(transpose4_s(n.inverse_transform@), local);
    v4_normalize_s(V4 { x: wn.x, y: wn.y, z: wn.z, w: 0 })
}

impl SceneNode {
    /// Creates a new node with the default material and the identity
    /// transform.
    pub fn new(object: Shape) -> (r: Self)
        requires
            shape_wf(object),
        ensures
            node_wf(r),
            r.object == object,
            r.transform@ == identity4_s(),
            r.inverse_transform@ == identity4_s(),
            r.material == default_material_s(),
    {
        Self {
            object,
            material: Material::new(),
            transform: Matrix4x4::identity(),
            inverse_transform: Matrix4x4::identity(),
        }
    }

    /// Sets the transform for this node, caching its inverse; a singular
    /// transform is reported rather than silently replaced. The
    /// determinant test is the only rejection this interface defines, so
    /// a strongly shrinking transform is accepted even though the
    /// round trip through its cached inverse then exceeds the
    /// comparison tolerance; `lemma_node_translation_round_trip` and
    /// `lemma_scaling_round_trip` state the classes and conditioning
    /// bounds under which the round trip is guaranteed.
    pub fn with_transform(self, transform: Matrix4x4) -> (r: Result<Self, MatrixError>)
        requires
            node_wf(self),
            transform.wf(),
        ensures
            match r {
                Ok(n) => !singular4_s(transform@) && node_wf(n) && n.object == self.object
                    && n.material == self.material && n.transform == transform
                    && n.inverse_transform@ == inv4_s(transform@),
                Err(e) => singular4_s(transform@) && e == MatrixError::Singular,
            },
    {
        match transform.invert() {
            Ok(inverse_transform) => Ok(Self { transform, inverse_transform, ..self }),
            Err(e) => Err(e),
        }
    }

    /// Sets the material for this node.
    pub fn with_material(self, material: Material) -> (r: Self)
        ensures
            r == (SceneNode { material, ..self }),
    {
        Self { material, ..self }
    }

    /// Returns the material for the node.
    pub fn material(&self) -> (r: &Material)
        ensures
            *r == self.material,
    {
        &self.material
    }

    /// Calculates the intersections of the given world ray with this
    /// node, each tagged with the given handle.
    pub fn intersect(&self, world_ray: &Ray, object: usize) -> (r: HitList)
        requires
            node_wf(*self),
            world_ray.wf(),
        ensures
            r@ == node_intersect_s(*self, world_ray@, object),
            r.wf(),
            hits_in_range(r@, object as int + 1),
    {
        let object_ray = self.inverse_transform.mul_ray(world_ray);
        let ds = self.object.intersect(&object_ray);

        let mut results = HitList::new();
        let mut k: usize = 0;
        while k < ds.len()
            invariant
                k <= ds@.len(),
                dists_ok(dists(ds@)),
                results@ == Seq::new(k as nat, |i: int| Hit { object, distance: ds@[i] }),
                results.wf(),
            decreases ds@.len() - k,
        {
            let ghost pre = results@;
            proof {
                assert(dists(ds@)[k as int] == ds@[k as int] as int);
            }
            results.push(object, ds[k]);
            k = k + 1;
            proof {
                assert(results@ =~= Seq::new(k as nat, |i: int| Hit { object, distance: ds@[i] }));
            }
        }
        proof {
            assert(results@ =~= node_intersect_s(*self, world_ray@, object));
        }
        results
    }

    /// Computes the world normal at a world point on the surface of the
    /// node.
    pub fn normal_at(&self, world_point: Vector) -> (r: Vector)
        requires
            node_wf(*self),
            world_point.wf(),
        ensures
            r@ == node_normal_s(*self, world_point@),
            r.wf(),
    {
        let object_point = self.inverse_transform.mul_vec(world_point);
        let local = self.object.normal_at(object_point);
        let wn = self.inverse_transform.transpose().mul_vec(local);
        let zeroed = Vector { x: wn.x, y: wn.y, z: wn.z, w: 0 };
        zeroed.normalize()
    }

    /// Transforms the given world point to object space.
    pub fn world_to_object(&self, world_point: Vector) -> (r: Vector)
        requires
            node_wf(*self),
            world_point.wf(),
        ensures
            r@ == mv4_s(self.inverse_transform@, world_point@),
            r.wf(),
    {
        self.inverse_transform.mul_vec(world_point)
    }

    /// Transforms the given object point to world space.
    pub fn object_to_world(&self, object_point: Vector) -> (r: Vector)
        requires
            node_wf(*self),
            object_point.wf(),
        ensures
            r@ == mv4_s(self.transform@, object_point@),
            r.wf(),
    {
        self.transform.mul_vec(object_point)
    }
}

/// Law: a round trip through a translated node is exact. For a node
/// whose transform is a translation — with the cached inverse the node
/// computes for it — `world_to_object` after `object_to_world` returns
/// exactly the original point, as long as the translated point stays
/// representable. (Under a general invertible transform the cached
/// inverse carries rounding and the round trip is only approximate; a
/// scale by three is such a transform.)
pub proof fn lemma_node_translation_round_trip(n: SceneNode, x: int, y: int, z: int, p: V4)
    requires
        n.transform@ == translate_s(x, y, z),
        n.inverse_transform@ == inv4_s(n.transform@),
        fx_ok(x),
        fx_ok(y),
        fx_ok(z),
        v4_ok(p),
        p.w == FX_ONE as int,
        fx_ok(p.x + x),
        fx_ok(p.y + y),
        fx_ok(p.z + z),
    ensures
        mv4_s(n.inverse_transform@, mv4_s(n.transform@, p)) == p,
{
    lemma_translate_inverse(x, y, z);
    lemma_translation_round_trip(x, y, z, p);
}

impl Sphere {
    /// Constructs a new sphere node.
    pub fn new() -> (r: SceneNode)
        ensures
            node_wf(r),
            r.object == Shape::Sphere(Sphere),
            r.transform@ == identity4_s(),
            r.inverse_transform@ == identity4_s(),
            r.material == default_material_s(),
    {
        SceneNode::new(Shape::Sphere(Sphere))
    }
}

impl Plane {
    /// Constructs a new plane node with the given normal.
    pub fn new(normal: Vector) -> (r: SceneNode)
        requires
            normal.wf(),
        ensures
            node_wf(r),
            r.object == Shape::Plane(Plane { normal }),
            r.transform@ == identity4_s(),
            r.inverse_transform@ == identity4_s(),
            r.material == default_material_s(),
    {
        SceneNode::new(Shape::Plane(Plane { normal }))
    }
}

/// A scene that can be rendered via ray tracing: its nodes, its point
/// lights, and the background color returned where a ray hits nothing.
#[derive(Debug)]
pub struct Scene {
    pub ambient_color: Color,
    pub nodes: Vec<SceneNode>,
    pub lights: Vec<PointLight>,
}

/// The scene's background color, nodes and lights are all well formed.
pub open spec fn scene_wf(s: Scene) -> bool {
    c3_ok(s.ambient_color@) && (forall|i: int|
        0 <= i < s.nodes@.len() ==> node_wf(#[trigger] s.nodes@[i])) && (forall|i: int|
        0 <= i < s.lights@.len() ==> light_wf(#[trigger] s.lights@[i]))
}

/// All hits of all nodes from the given one on, in node order.
pub open spec fn merged_hits_s(s: Scene, r: R4, i: int) -> Seq<Hit>
    decreases s.nodes@.len() - i,
{
    if i < 0 || i >= s.nodes@.len() {
        Seq::empty()
    } else {
        node_intersect_s(s.nodes@[i], r, i as usize) + merged_hits_s(s, r, i + 1)
    }
}

/// Every hit of the scene for a ray, sorted by distance.
pub open spec fn scene_intersect_s(s: Scene, r: R4) -> Seq<Hit> {
    sort_by_distance_s(merged_hits_s(s, r, 0))
}

/// Whether one light is blocked from a point: a ray from the point
/// toward the light meets something strictly closer than the light.
pub open spec fn shadow_by_light_s(s: Scene, p: V4, l: PointLight) -> bool {
    let light_vector = v4_sub_s(l.position@, p);
    let distance = v4_magnitude_s(light_vector);
    let direction = v4_normalize_s(light_vector);
    match closest_hit_s(scene_intersect_s(s, R4 { origin: p, direction })) {
        Some(h) => h.distance < distance,
        None => false,
    }
}

/// Whether any of the first `i` lights is blocked from the point.
pub open spec fn is_shadowed_s(s: Scene, p: V4, i: int) -> bool
    decreases i,
{
    if i <= 0 {
        false
    } else {
        shadow_by_light_s(s, p, s.lights@[i - 1]) || is_shadowed_s(s, p, i - 1)
    }
}

/// The fifth power of a scalar.
pub open spec fn pow5_s(b: int) -> int {
    fx_mul_s(fx_mul_s(fx_mul_s(fx_mul_s(b, b), b), b), b)
}

/// The tail of the Schlick approximation, given the cosine it uses.
pub open spec fn shlick_tail_s(ld: LdM, cos: int) -> int {
    let r0 = fx_div_s(fx_sub_s(ld.n1, ld.n2), fx_add_s(ld.n1, ld.n2));
    let r02 = fx_mul_s(r0, r0);
    fx_add_s(r02, fx_mul_s(fx_sub_s(FX_ONE as int, r02), pow5_s(fx_sub_s(FX_ONE as int, cos))))
}

/// The Schlick approximation of the Fresnel reflectance: one under total
/// internal reflection, otherwise a polynomial in the relevant cosine.
pub open spec fn shlick_s(ld: LdM) -> int {
    let cos = v4_dot_s(ld.eye, ld.normal);
    if ld.n1 > ld.n2 {
        let n = fx_div_s(ld.n1, ld.n2);
        let sin_t2 = fx_mul_s(fx_mul_s(n, n), fx_sub_s(FX_ONE as int, fx_mul_s(cos, cos)));
        if sin_t2 >= FX_ONE as int {
            FX_ONE as int
        } else {
            shlick_tail_s(ld, fx_sqrt_s(fx_sub_s(FX_ONE as int, sin_t2)))
        }
    } else {
        shlick_tail_s(ld, cos)
    }
}

/// The surface color: the background plus the Phong contribution of the
/// first `i` lights at the shading point.
pub open spec fn surface_sum_s(s: Scene, ld: LdM, shadowed: bool, i: int) -> C3
    decreases i,
{
    if i <= 0 {
        s.ambient_color@
    } else {
        c3_add_s(
            surface_sum_s(s, ld, shadowed, i - 1),
            phong_lighting_s(
                s.lights@[i - 1],
                s.nodes@[ld.object].material,
                ld.over_position,
                ld.object_position,
                ld.eye,
                ld.normal,
                shadowed,
            ),
        )
    }
}

/// The color seen along a ray, up to the recursion bound.
pub open spec fn trace_s(s: Scene, ray: R4, depth: int) -> C3
    decreases 5 - depth, 3int,
{
    if depth >= MAX_DEPTH {
        s.ambient_color@
    } else {
        let hits = scene_intersect_s(s, ray);
        match closest_hit_s(hits) {
            Some(hit) => apply_lighting_s(s, ray, hit, hits, depth),
            None => s.ambient_color@,
        }
    }
}

/// The shading of one intersection: the lit surface, plus the reflected
/// and refracted contributions, blended by the Schlick reflectance when
/// the material is both reflective and transparent.
pub open spec fn apply_lighting_s(s: Scene, ray: R4, hit: Hit, hits: Seq<Hit>, depth: int) -> C3
    decreases 5 - depth, 2int,
{
    let ld = lighting_data_s(s, ray, hit, hits);
    let shadowed = is_shadowed_s(s, ld.over_position, s.lights@.len() as int);
    let surface = surface_sum_s(s, ld, shadowed, s.lights@.len() as int);
    let reflected = reflected_color_s(s, ld, depth);
    let refracted = refracted_color_s(s, ld, depth);
    let material = s.nodes@[hit.object as int].material;
    if material.reflectivity > 0 && material.transparency > 0 {
        let reflectance = shlick_s(ld);
        c3_add_s(
            c3_add_s(surface, c3_scale_s(reflected, reflectance)),
            c3_scale_s(refracted, fx_sub_s(FX_ONE as int, reflectance)),
        )
    } else {
        c3_add_s(c3_add_s(surface, reflected), refracted)
    }
}

/// The reflected contribution: black for a material without reflectivity
/// (within tolerance), at any depth and with no recursive trace; else
/// the trace of the reflection ray from the over point, scaled by the
/// reflectivity. At the recursion bound that trace is just the
/// background, so the contribution is the scaled background.
pub open spec fn reflected_color_s(s: Scene, ld: LdM, depth: int) -> C3
    decreases 5 - depth, 1int,
{
    if fx_approx_s(s.nodes@[ld.object].material.reflectivity as int, 0) {
        c3_black()
    } else if depth >= MAX_DEPTH {
        c3_scale_s(s.ambient_color@, s.nodes@[ld.object].material.reflectivity as int)
    } else {
        c3_scale_s(
            trace_s(s, R4 { origin: ld.over_position, direction: ld.reflect_direction }, depth + 1),
            s.nodes@[ld.object].material.reflectivity as int,
        )
    }
}

/// The refracted contribution: black at the recursion bound, for an
/// opaque material, or under total internal reflection; otherwise the
/// trace of the Snell ray from the under point, scaled by the
/// transparency.
pub open spec fn refracted_color_s(s: Scene, ld: LdM, depth: int) -> C3
    decreases 5 - depth, 1int,
{
    if depth >= MAX_DEPTH {
        c3_black()
    } else if fx_approx_s(s.nodes@[ld.object].material.transparency as int, 0) {
        c3_black()
    } else {
        let n_ratio = fx_div_s(ld.n1, ld.n2);
        let cos_i = v4_dot_s(ld.eye, ld.normal);
        let sin_t2 = fx_mul_s(fx_mul_s(n_ratio, n_ratio), fx_sub_s(FX_ONE as int, fx_mul_s(cos_i, cos_i)));
        if sin_t2 >= FX_ONE as int {
            c3_black()
        } else {
            let cos_t = fx_sqrt_s(fx_sub_s(FX_ONE as int, sin_t2));
            let direction = v4_sub_s(
                v4_scale_s(ld.normal, fx_sub_s(fx_mul_s(n_ratio, cos_i), cos_t)),
                v4_scale_s(ld.eye, n_ratio),
            );
            c3_scale_s(
                trace_s(s, R4 { origin: ld.under_position, direction }, depth + 1),
                s.nodes@[ld.object].material.transparency as int,
            )
        }
    }
}

impl Scene {
    /// Creates a new, empty scene with a black background.
    pub fn new() -> (r: Self)
        ensures
            scene_wf(r),
            r.ambient_color@ == c3_black(),
            r.nodes@ == Seq::<SceneNode>::empty(),
            r.lights@ == Seq::<PointLight>::empty(),
    {
        let r = Self { ambient_color: Color::black(), nodes: Vec::new(), lights: Vec::new() };
        proof {
            assert(r.nodes@ =~= Seq::<SceneNode>::empty());
            assert(r.lights@ =~= Seq::<PointLight>::empty());
        }
        r
    }

    /// Adds an object to the scene.
    pub fn add_object(&mut self, object: SceneNode)
        requires
            scene_wf(*old(self)),
            node_wf(object),
        ensures
            final(self).nodes@ == old(self).nodes@.push(object),
            final(self).lights@ == old(self).lights@,
            final(self).ambient_color == old(self).ambient_color,
            scene_wf(*final(self)),
    {
        self.nodes.push(object);
    }

    /// Adds a point light to the scene.
    pub fn add_light(&mut self, light: PointLight)
        requires
            scene_wf(*old(self)),
            light_wf(light),
        ensures
            final(self).lights@ == old(self).lights@.push(light),
            final(self).nodes@ == old(self).nodes@,
            final(self).ambient_color == old(self).ambient_color,
            scene_wf(*final(self)),
    {
        self.lights.push(light);
    }

    /// Intersects the given ray with the entire scene: every node's hits
    /// merged in node order, then sorted by distance.
    pub fn intersect(&self, ray: Ray) -> (r: HitList)
        requires
            scene_wf(*self),
            ray.wf(),
        ensures
            r@ == scene_intersect_s(*self, ray@),
            r.wf(),
            hits_in_range(r@, self.nodes@.len() as int),
            sorted_by_distance(r@),
    {
        let mut results = HitList::new();
        let mut i: usize = 0;
        proof {
            assert(results@ + merged_hits_s(*self, ray@, 0) =~= merged_hits_s(*self, ray@, 0));
        }
        while i < self.nodes.len()
            invariant
                scene_wf(*self),
                ray.wf(),
                i <= self.nodes@.len(),
                results.wf(),
                hits_in_range(results@, i as int),
                merged_hits_s(*self, ray@, 0) == results@ + merged_hits_s(*self, ray@, i as int),
            decreases self.nodes@.len() - i,
        {
            let ghost pre = results@;
            let hits = self.nodes[i].intersect(&ray, i);
            results.append(hits);
            proof {
                assert(merged_hits_s(*self, ray@, i as int) == node_intersect_s(
                    self.nodes@[i as int],
                    ray@,
                    i,
                ) + merged_hits_s(*self, ray@, i as int + 1));
                assert(pre + merged_hits_s(*self, ray@, i as int) =~= results@ + merged_hits_s(
                    *self,
                    ray@,
                    i as int + 1,
                ));
            }
            i = i + 1;
        }
        proof {
            assert(merged_hits_s(*self, ray@, self.nodes@.len() as int) =~= Seq::<Hit>::empty());
            assert(results@ + Seq::<Hit>::empty() =~= results@);
            lemma_sort_preserves_bounds(results@, self.nodes@.len() as int);
        }
        results.sort_by_distance();
        results
    }

    /// Determines if the given point is in shadow: whether any light of
    /// the scene is blocked from it.
    pub fn is_shadowed(&self, point: Point) -> (r: bool)
        requires
            scene_wf(*self),
            point.wf(),
        ensures
            r == is_shadowed_s(*self, point@, self.lights@.len() as int),
    {
        let mut i: usize = 0;
        while i < self.lights.len()
            invariant
                scene_wf(*self),
                point.wf(),
                i <= self.lights@.len(),
                !is_shadowed_s(*self, point@, i as int),
            decreases self.lights@.len() - i,
        {
            let light = &self.lights[i];
            let light_vector = light.position.sub(point);

            let distance = light_vector.magnitude();
            let direction = light_vector.normalize();

            let ray = Ray::new(point, direction);

            match self.intersect(ray).closest_hit() {
                Some(hit) => {
                    if hit.distance < distance {
                        proof {
                            lemma_shadow_step(*self, point@, i as int + 1);
                        }
                        return true;
                    }
                },
                None => {},
            }
            i = i + 1;
        }
        false
    }

    /// Finds the Schlick approximation of the Fresnel reflectance for the
    /// given shading context.
    pub fn shlick(lighting_data: &LightingData) -> (r: i128)
        requires
            lighting_data.wf(),
        ensures
            r as int == shlick_s(lighting_data@),
            fx_ok(r as int),
    {
        let ld = lighting_data;
        let mut cos = ld.eye.dot(ld.normal);

        if ld.n1 > ld.n2 {
            let n = fx_div(ld.n1, ld.n2);
            let sin_t2 = fx_mul(fx_mul(n, n), fx_sub(FX_ONE, fx_mul(cos, cos)));

            if sin_t2 >= FX_ONE {
                return FX_ONE;
            }

            cos = fx_sqrt(fx_sub(FX_ONE, sin_t2));
        }

        let r0 = fx_div(fx_sub(ld.n1, ld.n2), fx_add(ld.n1, ld.n2));
        let r02 = fx_mul(r0, r0);
        let b = fx_sub(FX_ONE, cos);
        let b5 = fx_mul(fx_mul(fx_mul(fx_mul(b, b), b), b), b);

        fx_add(r02, fx_mul(fx_sub(FX_ONE, r02), b5))
    }

    /// Computes the color of the scene at the given ray.
    pub fn trace(&self, ray: Ray) -> (r: Color)
        requires
            scene_wf(*self),
            ray.wf(),
        ensures
            r@ == trace_s(*self, ray@, 0),
            r.wf(),
    {
        self.trace_inner(ray, 0)
    }

    /// Computes the color of the scene at the given ray, at the given
    /// recursion depth.
    pub fn trace_inner(&self, ray: Ray, depth: usize) -> (r: Color)
        requires
            scene_wf(*self),
            ray.wf(),
        ensures
            r@ == trace_s(*self, ray@, depth as int),
            r.wf(),
        decreases MAX_DEPTH - depth, 3int,
    {
        if depth >= MAX_DEPTH {
            return self.ambient_color;
        }

        let hits = self.intersect(ray);

        match hits.closest_hit() {
            Some(hit) => {
                proof {
                    assert(hits@.contains(hit));
                    let j = choose|j: int| 0 <= j < hits@.len() && hits@[j] == hit;
                    assert(hits@[j].object < self.nodes@.len());
                }
                self.apply_lighting(ray, &hit, &hits, depth)
            },
            None => self.ambient_color,
        }
    }

    /// Calculates lighting for the given ray intersection.
    #[verifier::rlimit(100)]
    pub fn apply_lighting(&self, ray: Ray, hit: &Hit, hits: &HitList, depth: usize) -> (r: Color)
        requires
            scene_wf(*self),
            ray.wf(),
            hit.wf(),
            hits.wf(),
            hit.object < self.nodes@.len(),
            hits_in_range(hits@, self.nodes@.len() as int),
        ensures
            r@ == apply_lighting_s(*self, ray@, *hit, hits@, depth as int),
            r.wf(),
        decreases MAX_DEPTH - depth, 2int,
    {
        let lighting_data = LightingData::calculate(self, &ray, hit, hits);
        let in_shadow = self.is_shadowed(lighting_data.over_position);

        let mut surface = self.ambient_color;
        let mut i: usize = 0;
        while i < self.lights.len()
            invariant
                scene_wf(*self),
                lighting_data@ == lighting_data_s(*self, ray@, *hit, hits@),
                ld_wf(lighting_data@, self.nodes@.len() as int),
                lighting_data.over_position.wf(),
                lighting_data.object_position.wf(),
                lighting_data.eye.wf(),
                lighting_data.normal.wf(),
                lighting_data.object < self.nodes@.len(),
                i <= self.lights@.len(),
                surface.wf(),
                surface@ == surface_sum_s(
                    *self,
                    lighting_data@,
                    is_shadowed_s(*self, lighting_data@.over_position, self.lights@.len() as int),
                    i as int,
                ),
                in_shadow == is_shadowed_s(
                    *self,
                    lighting_data@.over_position,
                    self.lights@.len() as int,
                ),
            decreases self.lights@.len() - i,
        {
            let light = &self.lights[i];
            surface = surface.add(
                phong_lighting(
                    light,
                    self.nodes[lighting_data.object].material(),
                    lighting_data.over_position,
                    lighting_data.object_position,
                    lighting_data.eye,
                    lighting_data.normal,
                    in_shadow,
                ),
            );
            i = i + 1;
        }

        let reflected = self.reflected_color(&lighting_data, depth);
        let refracted = self.refracted_color(&lighting_data, depth);

        let material = self.nodes[hit.object].material();
        if material.reflectivity > 0 && material.transparency > 0 {
            let reflectance = Self::shlick(&lighting_data);

            surface.add(reflected.scale(reflectance)).add(
                refracted.scale(fx_sub(FX_ONE, reflectance)),
            )
        } else {
            surface.add(reflected).add(refracted)
        }
    }

    /// Determines the reflected color for the given shading context.
    pub fn reflected_color(&self, lighting_data: &LightingData, depth: usize) -> (r: Color)
        requires
            scene_wf(*self),
            lighting_data.wf(),
            lighting_data.object < self.nodes@.len(),
        ensures
            r@ == reflected_color_s(*self, lighting_data@, depth as int),
            r.wf(),
            fx_approx_s(self.nodes@[lighting_data@.object].material.reflectivity as int, 0)
                ==> r@ == c3_black(),
        decreases MAX_DEPTH - depth, 1int,
    {
        let material = self.nodes[lighting_data.object].material();

        if fx_approx(material.reflectivity, 0) {
            return Color::black();
        }

        if depth >= MAX_DEPTH {
            // The recursive trace would stop at its own bound and yield
            // only the background.
            return self.ambient_color.scale(material.reflectivity);
        }

        let reflect_ray = Ray::new(lighting_data.over_position, lighting_data.reflect_direction);

        self.trace_inner(reflect_ray, depth + 1).scale(material.reflectivity)
    }

    /// Determines the refracted color for the given shading context.
    pub fn refracted_color(&self, lighting_data: &LightingData, depth: usize) -> (r: Color)
        requires
            scene_wf(*self),
            lighting_data.wf(),
            lighting_data.object < self.nodes@.len(),
        ensures
            r@ == refracted_color_s(*self, lighting_data@, depth as int),
            r.wf(),
        decreases MAX_DEPTH - depth, 1int,
    {
        if depth >= MAX_DEPTH {
            return Color::black();
        }

        let material = self.nodes[lighting_data.object].material();

        if fx_approx(material.transparency, 0) {
            return Color::black();
        }

        let n_ratio = fx_div(lighting_data.n1, lighting_data.n2);
        let cos_i = lighting_data.eye.dot(lighting_data.normal);
        let sin_t2 = fx_mul(fx_mul(n_ratio, n_ratio), fx_sub(FX_ONE, fx_mul(cos_i, cos_i)));

        if sin_t2 >= FX_ONE {
            return Color::black();
        }

        let cos_t = fx_sqrt(fx_sub(FX_ONE, sin_t2));
        let direction = lighting_data.normal.scale(fx_sub(fx_mul(n_ratio, cos_i), cos_t)).sub(
            lighting_data.eye.scale(n_ratio),
        );

        let ray = Ray::new(lighting_data.under_position, direction);
        let color = self.trace_inner(ray, depth + 1);

        color.scale(material.transparency)
    }
}

/// Finding a blocking light at index `i - 1` shadows the point for every
/// count of lights that includes it.
proof fn lemma_shadow_step(s: Scene, p: V4, i: int)
    requires
        0 < i <= s.lights@.len(),
        shadow_by_light_s(s, p, s.lights@[i - 1]) || is_shadowed_s(s, p, i - 1),
    ensures
        is_shadowed_s(s, p, s.lights@.len() as int),
    decreases s.lights@.len() - i,
{
    if i < s.lights@.len() {
        lemma_shadow_step(s, p, i + 1);
    }
}

} // verus!
