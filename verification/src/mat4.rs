//! 4x4 fixed-point matrices, stored column-major as four `Vec4` columns.
//! Column `j` holds the image of the `j`-th basis vector, with its `x..w`
//! fields being rows 0 to 3, the same layout the GPU consumes.

use vstd::prelude::*;
use crate::fixed::{FX_ONE, fx_add, fx_mul, fx_neg, fx_sub, spec_add, spec_mul, spec_neg, spec_sub};
use crate::trig::{fx_cos, fx_sin, spec_cos, spec_sin};
use crate::vec3::{Vec3, Vec4};

verus! {

/// A 4x4 matrix of fixed-point scalars, as four columns.
#[derive(Clone, Copy, PartialEq, Eq, Structural, Debug)]
pub struct Mat4 {
    pub c0: Vec4,
    pub c1: Vec4,
    pub c2: Vec4,
    pub c3: Vec4,
}

/// The image of a four-vector under a matrix: the columns combined with the
/// vector's components as weights.
pub open spec fn spec_m4_transform(m: Mat4, v: Vec4) -> Vec4 {
    Vec4 {
        x: spec_add(
            spec_add(spec_mul(m.c0.x as int, v.x as int), spec_mul(m.c1.x as int, v.y as int)),
            spec_add(spec_mul(m.c2.x as int, v.z as int), spec_mul(m.c3.x as int, v.w as int)),
        ) as i64,
        y: spec_add(
            spec_add(spec_mul(m.c0.y as int, v.x as int), spec_mul(m.c1.y as int, v.y as int)),
            spec_add(spec_mul(m.c2.y as int, v.z as int), spec_mul(m.c3.y as int, v.w as int)),
        ) as i64,
        z: spec_add(
            spec_add(spec_mul(m.c0.z as int, v.x as int), spec_mul(m.c1.z as int, v.y as int)),
            spec_add(spec_mul(m.c2.z as int, v.z as int), spec_mul(m.c3.z as int, v.w as int)),
        ) as i64,
        w: spec_add(
            spec_add(spec_mul(m.c0.w as int, v.x as int), spec_mul(m.c1.w as int, v.y as int)),
            spec_add(spec_mul(m.c2.w as int, v.z as int), spec_mul(m.c3.w as int, v.w as int)),
        ) as i64,
    }
}

/// The matrix product: each column of `b` mapped through `a`.
pub open spec fn spec_m4_mul(a: Mat4, b: Mat4) -> Mat4 {
    Mat4 {
        c0: spec_m4_transform(a, b.c0),
        c1: spec_m4_transform(a, b.c1),
        c2: spec_m4_transform(a, b.c2),
        c3: spec_m4_transform(a, b.c3),
    }
}

/// Row `0` of a matrix, as a four-vector across the columns.
pub open spec fn spec_m4_row0(m: Mat4) -> Vec4 {
    Vec4 { x: m.c0.x, y: m.c1.x, z: m.c2.x, w: m.c3.x }
}

/// Row `1` of a matrix.
pub open spec fn spec_m4_row1(m: Mat4) -> Vec4 {
    Vec4 { x: m.c0.y, y: m.c1.y, z: m.c2.y, w: m.c3.y }
}

/// Row `2` of a matrix.
pub open spec fn spec_m4_row2(m: Mat4) -> Vec4 {
    Vec4 { x: m.c0.z, y: m.c1.z, z: m.c2.z, w: m.c3.z }
}

/// Row `3` of a matrix.
pub open spec fn spec_m4_row3(m: Mat4) -> Vec4 {
    Vec4 { x: m.c0.w, y: m.c1.w, z: m.c2.w, w: m.c3.w }
}

/// The identity matrix.
pub open spec fn spec_m4_identity() -> Mat4 {
    Mat4 {
        c0: Vec4 { x: FX_ONE, y: 0, z: 0, w: 0 },
        c1: Vec4 { x: 0, y: FX_ONE, z: 0, w: 0 },
        c2: Vec4 { x: 0, y: 0, z: FX_ONE, w: 0 },
        c3: Vec4 { x: 0, y: 0, z: 0, w: FX_ONE },
    }
}

/// A translation by `t`.
pub open spec fn spec_m4_translation(t: Vec3) -> Mat4 {
    Mat4 {
        c0: Vec4 { x: FX_ONE, y: 0, z: 0, w: 0 },
        c1: Vec4 { x: 0, y: FX_ONE, z: 0, w: 0 },
        c2: Vec4 { x: 0, y: 0, z: FX_ONE, w: 0 },
        c3: Vec4 { x: t.x, y: t.y, z: t.z, w: FX_ONE },
    }
}

/// The inverse-transpose of a translation by `t`: the negated offset moves
/// into the bottom row.
pub open spec fn spec_m4_translation_inv_t(t: Vec3) -> Mat4 {
    Mat4 {
        c0: Vec4 { x: FX_ONE, y: 0, z: 0, w: spec_neg(t.x as int) as i64 },
        c1: Vec4 { x: 0, y: FX_ONE, z: 0, w: spec_neg(t.y as int) as i64 },
        c2: Vec4 { x: 0, y: 0, z: FX_ONE, w: spec_neg(t.z as int) as i64 },
        c3: Vec4 { x: 0, y: 0, z: 0, w: FX_ONE },
    }
}

/// A scale by `s`, one factor per axis.
pub open spec fn spec_m4_scale(s: Vec3) -> Mat4 {
    Mat4 {
        c0: Vec4 { x: s.x, y: 0, z: 0, w: 0 },
        c1: Vec4 { x: 0, y: s.y, z: 0, w: 0 },
        c2: Vec4 { x: 0, y: 0, z: s.z, w: 0 },
        c3: Vec4 { x: 0, y: 0, z: 0, w: FX_ONE },
    }
}

/// The rotation by `angle` around `axis` (assumed unit length), following
/// the axis-angle expansion `cos*I + sin*[axis]x + (1 - cos)*(axis (x) axis)`.
pub open spec fn spec_m4_axis_angle(axis: Vec3, angle: int) -> Mat4 {
    let c = spec_cos(angle);
    let s = spec_sin(angle);
    let k = spec_sub(FX_ONE as int, c);
    let x = axis.x as int;
    let y = axis.y as int;
    let z = axis.z as int;
    Mat4 {
        c0: Vec4 {
            x: spec_add(c, spec_mul(spec_mul(x, x), k)) as i64,
            y: spec_add(spec_mul(spec_mul(y, x), k), spec_mul(z, s)) as i64,
            z: spec_sub(spec_mul(spec_mul(z, x), k), spec_mul(y, s)) as i64,
            w: 0,
        },
        c1: Vec4 {
            x: spec_sub(spec_mul(spec_mul(x, y), k), spec_mul(z, s)) as i64,
            y: spec_add(c, spec_mul(spec_mul(y, y), k)) as i64,
            z: spec_add(spec_mul(spec_mul(z, y), k), spec_mul(x, s)) as i64,
            w: 0,
        },
        c2: Vec4 {
            x: spec_add(spec_mul(spec_mul(x, z), k), spec_mul(y, s)) as i64,
            y: spec_sub(spec_mul(spec_mul(y, z), k), spec_mul(x, s)) as i64,
            z: spec_add(c, spec_mul(spec_mul(z, z), k)) as i64,
            w: 0,
        },
        c3: Vec4 { x: 0, y: 0, z: 0, w: FX_ONE },
    }
}

impl Mat4 {
    /// The identity matrix.
    pub fn identity() -> (r: Mat4)
        ensures
            r == spec_m4_identity(),
    {
        Mat4 {
            c0: Vec4 { x: FX_ONE, y: 0, z: 0, w: 0 },
            c1: Vec4 { x: 0, y: FX_ONE, z: 0, w: 0 },
            c2: Vec4 { x: 0, y: 0, z: FX_ONE, w: 0 },
            c3: Vec4 { x: 0, y: 0, z: 0, w: FX_ONE },
        }
    }

    /// A translation by `t`.
    pub fn translation(t: Vec3) -> (r: Mat4)
        ensures
            r == spec_m4_translation(t),
    {
        Mat4 {
            c0: Vec4 { x: FX_ONE, y: 0, z: 0, w: 0 },
            c1: Vec4 { x: 0, y: FX_ONE, z: 0, w: 0 },
            c2: Vec4 { x: 0, y: 0, z: FX_ONE, w: 0 },
            c3: Vec4 { x: t.x, y: t.y, z: t.z, w: FX_ONE },
        }
    }

    /// The inverse-transpose of a translation by `t`.
    pub fn translation_inv_t(t: Vec3) -> (r: Mat4)
        ensures
            r == spec_m4_translation_inv_t(t),
    {
        Mat4 {
            c0: Vec4 { x: FX_ONE, y: 0, z: 0, w: fx_neg(t.x) },
            c1: Vec4 { x: 0, y: FX_ONE, z: 0, w: fx_neg(t.y) },
            c2: Vec4 { x: 0, y: 0, z: FX_ONE, w: fx_neg(t.z) },
            c3: Vec4 { x: 0, y: 0, z: 0, w: FX_ONE },
        }
    }

    /// A scale by `s`, one factor per axis.
    pub fn scaling(s: Vec3) -> (r: Mat4)
        ensures
            r == spec_m4_scale(s),
    {
        Mat4 {
            c0: Vec4 { x: s.x, y: 0, z: 0, w: 0 },
            c1: Vec4 { x: 0, y: s.y, z: 0, w: 0 },
            c2: Vec4 { x: 0, y: 0, z: s.z, w: 0 },
            c3: Vec4 { x: 0, y: 0, z: 0, w: FX_ONE },
        }
    }

    /// The rotation by `angle` around the unit vector `axis`.
    pub fn axis_angle(axis: Vec3, angle: i64) -> (r: Mat4)
        ensures
            r == spec_m4_axis_angle(axis, angle as int),
    {
        let c: i64 = fx_cos(angle);
        let s: i64 = fx_sin(angle);
        let k: i64 = fx_sub(FX_ONE, c);
        let x: i64 = axis.x;
        let y: i64 = axis.y;
        let z: i64 = axis.z;
        Mat4 {
            c0: Vec4 {
                x: fx_add(c, fx_mul(fx_mul(x, x), k)),
                y: fx_add(fx_mul(fx_mul(y, x), k), fx_mul(z, s)),
                z: fx_sub(fx_mul(fx_mul(z, x), k), fx_mul(y, s)),
                w: 0,
            },
            c1: Vec4 {
                x: fx_sub(fx_mul(fx_mul(x, y), k), fx_mul(z, s)),
                y: fx_add(c, fx_mul(fx_mul(y, y), k)),
                z: fx_add(fx_mul(fx_mul(z, y), k), fx_mul(x, s)),
                w: 0,
            },
            c2: Vec4 {
                x: fx_add(fx_mul(fx_mul(x, z), k), fx_mul(y, s)),
                y: fx_sub(fx_mul(fx_mul(y, z), k), fx_mul(x, s)),
                z: fx_add(c, fx_mul(fx_mul(z, z), k)),
                w: 0,
            },
            c3: Vec4 { x: 0, y: 0, z: 0, w: FX_ONE },
        }
    }

    /// The image of a four-vector under this matrix.
    pub fn transform(&self, v: Vec4) -> (r: Vec4)
        ensures
            r == spec_m4_transform(*self, v),
    {
        Vec4 {
            x: fx_add(
                fx_add(fx_mul(self.c0.x, v.x), fx_mul(self.c1.x, v.y)),
                fx_add(fx_mul(self.c2.x, v.z), fx_mul(self.c3.x, v.w)),
            ),
            y: fx_add(
                fx_add(fx_mul(self.c0.y, v.x), fx_mul(self.c1.y, v.y)),
                fx_add(fx_mul(self.c2.y, v.z), fx_mul(self.c3.y, v.w)),
            ),
            z: fx_add(
                fx_add(fx_mul(self.c0.z, v.x), fx_mul(self.c1.z, v.y)),
                fx_add(fx_mul(self.c2.z, v.z), fx_mul(self.c3.z, v.w)),
            ),
            w: fx_add(
                fx_add(fx_mul(self.c0.w, v.x), fx_mul(self.c1.w, v.y)),
                fx_add(fx_mul(self.c2.w, v.z), fx_mul(self.c3.w, v.w)),
            ),
        }
    }

    /// The matrix product `self * other`.
    pub fn multiply(&self, other: &Mat4) -> (r: Mat4)
        ensures
            r == spec_m4_mul(*self, *other),
    {
        Mat4 {
            c0: self.transform(other.c0),
            c1: self.transform(other.c1),
            c2: self.transform(other.c2),
            c3: self.transform(other.c3),
        }
    }

    /// Row `0` of this matrix, across the columns.
    pub fn row0(&self) -> (r: Vec4)
        ensures
            r == spec_m4_row0(*self),
    {
        Vec4 { x: self.c0.x, y: self.c1.x, z: self.c2.x, w: self.c3.x }
    }

    /// Row `1` of this matrix.
    pub fn row1(&self) -> (r: Vec4)
        ensures
            r == spec_m4_row1(*self),
    {
        Vec4 { x: self.c0.y, y: self.c1.y, z: self.c2.y, w: self.c3.y }
    }

    /// Row `2` of this matrix.
    pub fn row2(&self) -> (r: Vec4)
        ensures
            r == spec_m4_row2(*self),
    {
        Vec4 { x: self.c0.z, y: self.c1.z, z: self.c2.z, w: self.c3.z }
    }

    /// Row `3` of this matrix.
    pub fn row3(&self) -> (r: Vec4)
        ensures
            r == spec_m4_row3(*self),
    {
        Vec4 { x: self.c0.w, y: self.c1.w, z: self.c2.w, w: self.c3.w }
    }
}

} // verus!
