//! Rays and intersection records.

use crate::fx::Fx;
use crate::material::{Mat, MatI};
use crate::vec3::{V3i, Vec3};
use vstd::prelude::*;

verus! {

/// A primary or indirect ray: origin, direction, remaining bounce budget and
/// the throughput accumulated from prior bounces.
#[derive(Clone, Copy, Debug, PartialEq, Eq, Structural)]
pub struct Ray {
    pub origin: Vec3,
    pub dir: Vec3,
    pub bounces: u8,
    pub throughput: Vec3,
}

/// A bare ray for occlusion queries: origin and direction only.
#[derive(Clone, Copy, Debug, PartialEq, Eq, Structural)]
pub struct BasicRay {
    pub origin: Vec3,
    pub dir: Vec3,
}

/// Mathematical view of a `Hit`.
pub struct HitI {
    pub t: int,
    pub normal: V3i,
    pub mat: MatI,
}

/// An intersection: distance along the ray, outward surface normal, and the
/// struck primitive's material (copied, materials are small value types).
#[derive(Clone, Copy, Debug, PartialEq, Eq, Structural)]
pub struct Hit {
    pub t: Fx,
    pub normal: Vec3,
    pub mat: Mat,
}

impl View for Hit {
    type V = HitI;

    open spec fn view(&self) -> HitI {
        HitI { t: self.t@, normal: self.normal@, mat: self.mat@ }
    }
}

/// View of an optional hit.
pub open spec fn opt_hit_v(o: Option<Hit>) -> Option<HitI> {
    match o {
        Option::None => Option::None,
        Option::Some(h) => Option::Some(h@),
    }
}

} // verus!
