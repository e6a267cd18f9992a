//! Three-component vectors of fixed-point numbers.
//!
//! Every operation is total and mirrors an exact specification over `V3i`,
//! the mathematical view of a vector (its raw components as integers).

use crate::fx::{
    fx_add, fx_add_s, fx_div, fx_div_s, fx_max, fx_max_s, fx_min, fx_min_s, fx_mul, fx_mul_s,
    fx_neg, fx_neg_s, fx_sqrt, fx_sqrt_s, fx_sub, fx_sub_s, Fx, FX_TWO,
};
use vstd::prelude::*;

verus! {

/// Mathematical view of a `Vec3`: the raw fixed-point components.
pub struct V3i {
    pub x: int,
    pub y: int,
    pub z: int,
}

/// A vector of three fixed-point components.
#[derive(Clone, Copy, Debug, PartialEq, Eq, Structural)]
pub struct Vec3 {
    pub x: Fx,
    pub y: Fx,
    pub z: Fx,
}

impl View for Vec3 {
    type V = V3i;

    open spec fn view(&self) -> V3i {
        V3i { x: self.x@, y: self.y@, z: self.z@ }
    }
}

pub open spec fn v3_zero_s() -> V3i {
    V3i { x: 0, y: 0, z: 0 }
}

pub open spec fn v3_repeat_s(k: int) -> V3i {
    V3i { x: k, y: k, z: k }
}

pub open spec fn v3_add_s(a: V3i, b: V3i) -> V3i {
    V3i { x: fx_add_s(a.x, b.x), y: fx_add_s(a.y, b.y), z: fx_add_s(a.z, b.z) }
}

pub open spec fn v3_sub_s(a: V3i, b: V3i) -> V3i {
    V3i { x: fx_sub_s(a.x, b.x), y: fx_sub_s(a.y, b.y), z: fx_sub_s(a.z, b.z) }
}

pub open spec fn v3_neg_s(a: V3i) -> V3i {
    V3i { x: fx_neg_s(a.x), y: fx_neg_s(a.y), z: fx_neg_s(a.z) }
}

/// Componentwise scaling by a fixed-point factor.
pub open spec fn v3_scale_s(a: V3i, k: int) -> V3i {
    V3i { x: fx_mul_s(a.x, k), y: fx_mul_s(a.y, k), z: fx_mul_s(a.z, k) }
}

/// Componentwise division by a fixed-point divisor.
pub open spec fn v3_div_k_s(a: V3i, k: int) -> V3i {
    V3i { x: fx_div_s(a.x, k), y: fx_div_s(a.y, k), z: fx_div_s(a.z, k) }
}

pub open spec fn v3_comp_mul_s(a: V3i, b: V3i) -> V3i {
    V3i { x: fx_mul_s(a.x, b.x), y: fx_mul_s(a.y, b.y), z: fx_mul_s(a.z, b.z) }
}

pub open spec fn v3_dot_s(a: V3i, b: V3i) -> int {
    fx_add_s(fx_add_s(fx_mul_s(a.x, b.x), fx_mul_s(a.y, b.y)), fx_mul_s(a.z, b.z))
}

pub open spec fn v3_cross_s(a: V3i, b: V3i) -> V3i {
    V3i {
        x: fx_sub_s(fx_mul_s(a.y, b.z), fx_mul_s(a.z, b.y)),
        y: fx_sub_s(fx_mul_s(a.z, b.x), fx_mul_s(a.x, b.z)),
        z: fx_sub_s(fx_mul_s(a.x, b.y), fx_mul_s(a.y, b.x)),
    }
}

pub open spec fn v3_comp_min_s(a: V3i) -> int {
    fx_min_s(fx_min_s(a.x, a.y), a.z)
}

pub open spec fn v3_comp_max_s(a: V3i) -> int {
    fx_max_s(fx_max_s(a.x, a.y), a.z)
}

/// Euclidean length in fixed point.
pub open spec fn v3_mag_s(a: V3i) -> int {
    fx_sqrt_s(v3_dot_s(a, a))
}

/// Scale to (approximately) unit length; division by a zero magnitude
/// saturates componentwise as `fx_div_s` does.
pub open spec fn v3_normalize_s(a: V3i) -> V3i {
    v3_div_k_s(a, v3_mag_s(a))
}

/// Reflection of the incident direction `i` about the normal `n`:
/// `i - 2 (n . i) n`.
pub open spec fn v3_reflect_s(i: V3i, n: V3i) -> V3i {
    v3_sub_s(i, v3_scale_s(n, fx_mul_s(FX_TWO as int, v3_dot_s(n, i))))
}

impl Vec3 {
    pub fn new(x: Fx, y: Fx, z: Fx) -> (r: Vec3)
        ensures
            r@ == (V3i { x: x@, y: y@, z: z@ }),
    {
        Vec3 { x, y, z }
    }

    pub fn zeros() -> (r: Vec3)
        ensures
            r@ == v3_zero_s(),
    {
        Vec3 { x: Fx { raw: 0 }, y: Fx { raw: 0 }, z: Fx { raw: 0 } }
    }

    pub fn repeat(k: Fx) -> (r: Vec3)
        ensures
            r@ == v3_repeat_s(k@),
    {
        Vec3 { x: k, y: k, z: k }
    }

    pub fn plus(self, o: Vec3) -> (r: Vec3)
        ensures
            r@ == v3_add_s(self@, o@),
    {
        Vec3 { x: fx_add(self.x, o.x), y: fx_add(self.y, o.y), z: fx_add(self.z, o.z) }
    }

    pub fn minus(self, o: Vec3) -> (r: Vec3)
        ensures
            r@ == v3_sub_s(self@, o@),
    {
        Vec3 { x: fx_sub(self.x, o.x), y: fx_sub(self.y, o.y), z: fx_sub(self.z, o.z) }
    }

    pub fn neg(self) -> (r: Vec3)
        ensures
            r@ == v3_neg_s(self@),
    {
        Vec3 { x: fx_neg(self.x), y: fx_neg(self.y), z: fx_neg(self.z) }
    }

    pub fn scale(self, k: Fx) -> (r: Vec3)
        ensures
            r@ == v3_scale_s(self@, k@),
    {
        Vec3 { x: fx_mul(self.x, k), y: fx_mul(self.y, k), z: fx_mul(self.z, k) }
    }

    pub fn div_k(self, k: Fx) -> (r: Vec3)
        ensures
            r@ == v3_div_k_s(self@, k@),
    {
        Vec3 { x: fx_div(self.x, k), y: fx_div(self.y, k), z: fx_div(self.z, k) }
    }

    pub fn comp_mul(self, o: Vec3) -> (r: Vec3)
        ensures
            r@ == v3_comp_mul_s(self@, o@),
    {
        Vec3 { x: fx_mul(self.x, o.x), y: fx_mul(self.y, o.y), z: fx_mul(self.z, o.z) }
    }

    pub fn dot(self, o: Vec3) -> (r: Fx)
        ensures
            r@ == v3_dot_s(self@, o@),
    {
        fx_add(fx_add(fx_mul(self.x, o.x), fx_mul(self.y, o.y)), fx_mul(self.z, o.z))
    }

    pub fn cross(self, o: Vec3) -> (r: Vec3)
        ensures
            r@ == v3_cross_s(self@, o@),
    {
        Vec3 {
            x: fx_sub(fx_mul(self.y, o.z), fx_mul(self.z, o.y)),
            y: fx_sub(fx_mul(self.z, o.x), fx_mul(self.x, o.z)),
            z: fx_sub(fx_mul(self.x, o.y), fx_mul(self.y, o.x)),
        }
    }

    pub fn comp_min(self) -> (r: Fx)
        ensures
            r@ == v3_comp_min_s(self@),
    {
        fx_min(fx_min(self.x, self.y), self.z)
    }

    pub fn comp_max(self) -> (r: Fx)
        ensures
            r@ == v3_comp_max_s(self@),
    {
        fx_max(fx_max(self.x, self.y), self.z)
    }

    pub fn magnitude(self) -> (r: Fx)
        ensures
            r@ == v3_mag_s(self@),
    {
        fx_sqrt(self.dot(self))
    }

    pub fn normalize(self) -> (r: Vec3)
        ensures
            r@ == v3_normalize_s(self@),
    {
        let m = self.magnitude();
        self.div_k(m)
    }

    pub fn reflect(self, n: Vec3) -> (r: Vec3)
        ensures
            r@ == v3_reflect_s(self@, n@),
    {
        self.minus(n.scale(fx_mul(Fx { raw: FX_TWO }, n.dot(self))))
    }
}

} // verus!
