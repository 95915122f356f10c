//! Three- and four-component fixed-point vectors.

use vstd::prelude::*;
use crate::fixed::{
    fx_add, fx_div, fx_mul, fx_sqrt, fx_sub, spec_add, spec_div, spec_mul, spec_sqrt, spec_sub,
};

verus! {

/// A three-component vector of fixed-point scalars.
#[derive(Clone, Copy, PartialEq, Eq, Structural, Debug)]
pub struct Vec3 {
    pub x: i64,
    pub y: i64,
    pub z: i64,
}

/// A four-component vector of fixed-point scalars; also used for plane
/// equations, with the normal in `x, y, z` and the offset in `w`.
#[derive(Clone, Copy, PartialEq, Eq, Structural, Debug)]
pub struct Vec4 {
    pub x: i64,
    pub y: i64,
    pub z: i64,
    pub w: i64,
}

/// Componentwise vector sum.
pub open spec fn spec_v3_add(a: Vec3, b: Vec3) -> Vec3 {
    Vec3 {
        x: spec_add(a.x as int, b.x as int) as i64,
        y: spec_add(a.y as int, b.y as int) as i64,
        z: spec_add(a.z as int, b.z as int) as i64,
    }
}

/// A vector scaled by a fixed-point scalar.
pub open spec fn spec_v3_scale(a: Vec3, s: int) -> Vec3 {
    Vec3 {
        x: spec_mul(a.x as int, s) as i64,
        y: spec_mul(a.y as int, s) as i64,
        z: spec_mul(a.z as int, s) as i64,
    }
}

/// The fixed-point dot product.
pub open spec fn spec_v3_dot(a: Vec3, b: Vec3) -> int {
    spec_add(
        spec_add(spec_mul(a.x as int, b.x as int), spec_mul(a.y as int, b.y as int)),
        spec_mul(a.z as int, b.z as int),
    )
}

/// The fixed-point cross product.
pub open spec fn spec_v3_cross(a: Vec3, b: Vec3) -> Vec3 {
    Vec3 {
        x: spec_sub(spec_mul(a.y as int, b.z as int), spec_mul(a.z as int, b.y as int)) as i64,
        y: spec_sub(spec_mul(a.z as int, b.x as int), spec_mul(a.x as int, b.z as int)) as i64,
        z: spec_sub(spec_mul(a.x as int, b.y as int), spec_mul(a.y as int, b.x as int)) as i64,
    }
}

/// The fixed-point Euclidean length.
pub open spec fn spec_v3_length(a: Vec3) -> int {
    spec_sqrt(spec_v3_dot(a, a))
}

/// The vector divided by its own length; a zero-length vector (which only a
/// degenerate scene produces) is returned unchanged.
pub open spec fn spec_v3_normalize(a: Vec3) -> Vec3 {
    let len = spec_v3_length(a);
    if len == 0 {
        a
    } else {
        Vec3 {
            x: spec_div(a.x as int, len) as i64,
            y: spec_div(a.y as int, len) as i64,
            z: spec_div(a.z as int, len) as i64,
        }
    }
}

impl Vec3 {
    /// Componentwise vector sum.
    pub fn plus(self, other: Vec3) -> (r: Vec3)
        ensures
            r == spec_v3_add(self, other),
    {
        Vec3 {
            x: fx_add(self.x, other.x),
            y: fx_add(self.y, other.y),
            z: fx_add(self.z, other.z),
        }
    }

    /// The vector scaled by a fixed-point scalar.
    pub fn scale(self, s: i64) -> (r: Vec3)
        ensures
            r == spec_v3_scale(self, s as int),
    {
        Vec3 { x: fx_mul(self.x, s), y: fx_mul(self.y, s), z: fx_mul(self.z, s) }
    }

    /// The fixed-point dot product.
    pub fn dot(self, other: Vec3) -> (r: i64)
        ensures
            r as int == spec_v3_dot(self, other),
    {
        fx_add(
            fx_add(fx_mul(self.x, other.x), fx_mul(self.y, other.y)),
            fx_mul(self.z, other.z),
        )
    }

    /// The fixed-point cross product.
    pub fn cross(self, other: Vec3) -> (r: Vec3)
        ensures
            r == spec_v3_cross(self, other),
    {
        Vec3 {
            x: fx_sub(fx_mul(self.y, other.z), fx_mul(self.z, other.y)),
            y: fx_sub(fx_mul(self.z, other.x), fx_mul(self.x, other.z)),
            z: fx_sub(fx_mul(self.x, other.y), fx_mul(self.y, other.x)),
        }
    }

    /// The fixed-point Euclidean length.
    pub fn length(self) -> (r: i64)
        ensures
            r as int == spec_v3_length(self),
            r >= 0,
    {
        let d: i64 = self.dot(self);
        proof {
            assert(self.x as int * self.x as int >= 0) by (nonlinear_arith);
            assert(self.y as int * self.y as int >= 0) by (nonlinear_arith);
            assert(self.z as int * self.z as int >= 0) by (nonlinear_arith);
            assert(spec_v3_dot(self, self) >= 0);
        }
        fx_sqrt(d)
    }

    /// The vector divided by its own length; a zero-length vector is
    /// returned unchanged.
    pub fn normalize(self) -> (r: Vec3)
        ensures
            r == spec_v3_normalize(self),
    {
        let len: i64 = self.length();
        if len == 0 {
            self
        } else {
            Vec3 {
                x: fx_div(self.x, len),
                y: fx_div(self.y, len),
                z: fx_div(self.z, len),
            }
        }
    }
}

/// Componentwise four-vector sum.
pub open spec fn spec_v4_add(a: Vec4, b: Vec4) -> Vec4 {
    Vec4 {
        x: spec_add(a.x as int, b.x as int) as i64,
        y: spec_add(a.y as int, b.y as int) as i64,
        z: spec_add(a.z as int, b.z as int) as i64,
        w: spec_add(a.w as int, b.w as int) as i64,
    }
}

/// Componentwise four-vector difference.
pub open spec fn spec_v4_sub(a: Vec4, b: Vec4) -> Vec4 {
    Vec4 {
        x: spec_sub(a.x as int, b.x as int) as i64,
        y: spec_sub(a.y as int, b.y as int) as i64,
        z: spec_sub(a.z as int, b.z as int) as i64,
        w: spec_sub(a.w as int, b.w as int) as i64,
    }
}

impl Vec4 {
    /// Componentwise four-vector sum.
    pub fn plus(self, other: Vec4) -> (r: Vec4)
        ensures
            r == spec_v4_add(self, other),
    {
        Vec4 {
            x: fx_add(self.x, other.x),
            y: fx_add(self.y, other.y),
            z: fx_add(self.z, other.z),
            w: fx_add(self.w, other.w),
        }
    }

    /// Componentwise four-vector difference.
    pub fn minus(self, other: Vec4) -> (r: Vec4)
        ensures
            r == spec_v4_sub(self, other),
    {
        Vec4 {
            x: fx_sub(self.x, other.x),
            y: fx_sub(self.y, other.y),
            z: fx_sub(self.z, other.z),
            w: fx_sub(self.w, other.w),
        }
    }
}

} // verus!
