//! Sphere primitives and scene intersection queries.
//!
//! A scene is an unordered vector of spheres, rebuilt by the caller each
//! frame; the intersector scans it linearly. `closest_hit` returns the hit
//! with the globally minimal positive distance, `any_hit` the first hit in
//! iteration order (only occlusion matters to its callers).

use crate::fx::{
    fx_add, fx_add_s, fx_div, fx_div_s, fx_mul, fx_mul_s, fx_neg, fx_neg_s, fx_sqrt, fx_sqrt_s,
    fx_sub, fx_sub_s, Fx, FX_FOUR, FX_TWO,
};
use crate::intersect::{opt_hit_v, BasicRay, Hit, HitI, Ray};
use crate::material::{Mat, MatI};
use crate::vec3::{v3_add_s, v3_div_k_s, v3_dot_s, v3_scale_s, v3_sub_s, V3i, Vec3};
use vstd::prelude::*;

verus! {

/// Mathematical view of a sphere.
pub struct SphereI {
    pub centre: V3i,
    pub radius: int,
    pub mat: MatI,
}

/// A sphere primitive: centre, radius and material. Immutable for the
/// duration of a frame.
#[derive(Clone, Copy, Debug, PartialEq, Eq, Structural)]
pub struct Sphere {
    pub centre: Vec3,
    pub radius: Fx,
    pub mat: Mat,
}

impl View for Sphere {
    type V = SphereI;

    open spec fn view(&self) -> SphereI {
        SphereI { centre: self.centre@, radius: self.radius@, mat: self.mat@ }
    }
}

/// A scene snapshot for one frame.
pub type Scene = Vec<Sphere>;

/// The hit record for a chosen root of the quadratic: distance along the
/// ray and the outward normal `(hit_point - centre) / radius`.
pub open spec fn sphere_hit_at_s(s: SphereI, oc: V3i, d: V3i, qa: int, root: int) -> HitI {
    let t = fx_div_s(root, fx_mul_s(FX_TWO as int, qa));
    HitI { t, normal: v3_div_k_s(v3_add_s(oc, v3_scale_s(d, t)), s.radius), mat: s.mat }
}

/// Ray-sphere intersection: the quadratic `|o + t d - centre| = radius` in
/// `t`. A negative discriminant misses; otherwise the smaller non-negative
/// root is chosen, else the larger if it is non-negative (ray origin inside
/// the sphere), else the sphere lies behind the ray.
pub open spec fn sphere_intersect_s(s: SphereI, o: V3i, d: V3i) -> Option<HitI> {
    let oc = v3_sub_s(o, s.centre);
    let qa = v3_dot_s(d, d);
    let qb = fx_mul_s(FX_TWO as int, v3_dot_s(oc, d));
    let qc = fx_sub_s(v3_dot_s(oc, oc), fx_mul_s(s.radius, s.radius));
    let disc = fx_sub_s(fx_mul_s(qb, qb), fx_mul_s(FX_FOUR as int, fx_mul_s(qa, qc)));
    if disc < 0 {
        Option::None
    } else {
        let sd = fx_sqrt_s(disc);
        let r0 = fx_sub_s(fx_neg_s(qb), sd);
        let r1 = fx_add_s(fx_neg_s(qb), sd);
        if r0 >= 0 {
            Option::Some(sphere_hit_at_s(s, oc, d, qa, r0))
        } else if r1 >= 0 {
            Option::Some(sphere_hit_at_s(s, oc, d, qa, r1))
        } else {
            Option::None
        }
    }
}

/// Intersection of one scene sphere with the ray `(o, d)`.
pub open spec fn sphere_hit_s(s: Sphere, o: V3i, d: V3i) -> Option<HitI> {
    sphere_intersect_s(s@, o, d)
}

/// The ray misses every sphere of the scene.
pub open spec fn scene_misses_s(scene: Seq<Sphere>, o: V3i, d: V3i) -> bool {
    forall|i: int| 0 <= i < scene.len() ==> (#[trigger] sphere_hit_s(scene[i], o, d)) is None
}

impl Sphere {
    /// Intersect one sphere with a ray.
    pub fn intersect(&self, ray: &BasicRay) -> (r: Option<Hit>)
        ensures
            opt_hit_v(r) == sphere_hit_s(*self, ray.origin@, ray.dir@),
    {
        let oc = ray.origin.minus(self.centre);
        let qa = ray.dir.dot(ray.dir);
        let qb = fx_mul(Fx { raw: FX_TWO }, oc.dot(ray.dir));
        let qc = fx_sub(oc.dot(oc), fx_mul(self.radius, self.radius));
        let disc = fx_sub(fx_mul(qb, qb), fx_mul(Fx { raw: FX_FOUR }, fx_mul(qa, qc)));
        if disc.raw < 0 {
            Option::None
        } else {
            let sd = fx_sqrt(disc);
            let r0 = fx_sub(fx_neg(qb), sd);
            let r1 = fx_add(fx_neg(qb), sd);
            let root = if r0.raw >= 0 {
                Option::Some(r0)
            } else if r1.raw >= 0 {
                Option::Some(r1)
            } else {
                Option::None
            };
            match root {
                Option::Some(rt) => {
                    let t = fx_div(rt, fx_mul(Fx { raw: FX_TWO }, qa));
                    Option::Some(
                        Hit {
                            t,
                            normal: oc.plus(ray.dir.scale(t)).div_k(self.radius),
                            mat: self.mat,
                        },
                    )
                },
                Option::None => Option::None,
            }
        }
    }
}

/// The minimal-distance hit over a scene prefix, folded in iteration order:
/// a later sphere replaces the best candidate only with a strictly smaller
/// distance, so ties keep the earliest sphere.
pub open spec fn closest_hit_s(scene: Seq<Sphere>, o: V3i, d: V3i) -> Option<HitI>
    decreases scene.len(),
{
    if scene.len() == 0 {
        Option::None
    } else {
        let rest = closest_hit_s(scene.drop_last(), o, d);
        match sphere_hit_s(scene.last(), o, d) {
            Option::None => rest,
            Option::Some(c) => match rest {
                Option::None => Option::Some(c),
                Option::Some(b) => if c.t < b.t {
                    Option::Some(c)
                } else {
                    Option::Some(b)
                },
            },
        }
    }
}

/// The intersection with globally minimal `t` across all spheres; `None`
/// exactly when the ray misses the whole scene. The returned distance never
/// exceeds any individual sphere's own intersection distance.
pub fn closest_hit(ray: &Ray, scene: &Scene) -> (r: Option<Hit>)
    ensures
        opt_hit_v(r) == closest_hit_s(scene@, ray.origin@, ray.dir@),
        match r {
            Option::None => scene_misses_s(scene@, ray.origin@, ray.dir@),
            Option::Some(h) => {
                &&& exists|i: int|
                    0 <= i < scene@.len() && #[trigger] sphere_hit_s(
                        scene@[i],
                        ray.origin@,
                        ray.dir@,
                    ) == Option::Some(h@)
                &&& forall|i: int|
                    0 <= i < scene@.len() ==> (#[trigger] sphere_hit_s(
                        scene@[i],
                        ray.origin@,
                        ray.dir@,
                    ) matches Option::Some(h2) ==> h@.t <= h2.t)
            },
        },
{
    let bray = BasicRay { origin: ray.origin, dir: ray.dir };
    let mut best: Option<Hit> = Option::None;
    let mut i: usize = 0;
    while i < scene.len()
        invariant
            i <= scene@.len(),
            bray.origin@ == ray.origin@,
            bray.dir@ == ray.dir@,
            opt_hit_v(best) == closest_hit_s(scene@.subrange(0, i as int), ray.origin@, ray.dir@),
            match best {
                Option::None => forall|j: int|
                    0 <= j < i ==> (#[trigger] sphere_hit_s(
                        scene@[j],
                        ray.origin@,
                        ray.dir@,
                    )) is None,
                Option::Some(h) => {
                    &&& exists|j: int|
                        0 <= j < i && #[trigger] sphere_hit_s(scene@[j], ray.origin@, ray.dir@)
                            == Option::Some(h@)
                    &&& forall|j: int|
                        0 <= j < i ==> (#[trigger] sphere_hit_s(
                            scene@[j],
                            ray.origin@,
                            ray.dir@,
                        ) matches Option::Some(h2) ==> h@.t <= h2.t)
                },
            },
        decreases scene@.len() - i,
    {
        let cur = scene[i].intersect(&bray);
        match cur {
            Option::Some(c) => {
                best = match best {
                    Option::None => Option::Some(c),
                    Option::Some(b) => if c.t.raw < b.t.raw {
                        Option::Some(c)
                    } else {
                        Option::Some(b)
                    },
                };
            },
            Option::None => {},
        }
        proof {
            let pre = scene@.subrange(0, i as int);
            let post = scene@.subrange(0, i + 1);
            assert(post.drop_last() =~= pre);
            assert(post.last() == scene@[i as int]);
        }
        i = i + 1;
    }
    proof {
        assert(scene@.subrange(0, scene@.len() as int) =~= scene@);
    }
    best
}

/// The first intersection found in iteration order; used for shadow tests,
/// where only the existence of an occluder matters.
pub fn any_hit(ray: &BasicRay, scene: &Scene) -> (r: Option<Hit>)
    ensures
        match r {
            Option::None => scene_misses_s(scene@, ray.origin@, ray.dir@),
            Option::Some(h) => exists|i: int|
                0 <= i < scene@.len() && #[trigger] sphere_hit_s(scene@[i], ray.origin@, ray.dir@)
                    == Option::Some(h@) && forall|j: int|
                    0 <= j < i ==> (#[trigger] sphere_hit_s(scene@[j], ray.origin@, ray.dir@))
                        is None,
        },
{
    let mut i: usize = 0;
    while i < scene.len()
        invariant
            i <= scene@.len(),
            forall|j: int|
                0 <= j < i ==> (#[trigger] sphere_hit_s(scene@[j], ray.origin@, ray.dir@)) is None,
        decreases scene@.len() - i,
    {
        let cur = scene[i].intersect(ray);
        match cur {
            Option::Some(c) => {
                return Option::Some(c);
            },
            Option::None => {},
        }
        i = i + 1;
    }
    Option::None
}

} // verus!
