//! Fixed-point 4x4 matrices in row-major naming: `mRC` is row `R`, column
//! `C`. A matrix maps column vectors, so the translation of an affine
//! transform sits in the last column.

use vstd::prelude::*;

use crate::fixed::{cos_fx, fxa, fxm, fxs, fx_add, fx_mul, fx_sub, sin_fx, spec_cos, spec_sin, FX_ONE};
use crate::vector::Vec3;

verus! {

/// A 4x4 fixed-point matrix.
#[derive(Clone, Copy, PartialEq, Eq, Structural, Debug)]
pub struct Mat4 {
    pub m00: i64,
    pub m01: i64,
    pub m02: i64,
    pub m03: i64,
    pub m10: i64,
    pub m11: i64,
    pub m12: i64,
    pub m13: i64,
    pub m20: i64,
    pub m21: i64,
    pub m22: i64,
    pub m23: i64,
    pub m30: i64,
    pub m31: i64,
    pub m32: i64,
    pub m33: i64,
}

/// One entry of a matrix product: the saturating fixed-point sum of the
/// four componentwise products.
pub open spec fn fx4(a0: i64, b0: i64, a1: i64, b1: i64, a2: i64, b2: i64, a3: i64, b3: i64) -> i64 {
    fxa(fxa(fxa(fxm(a0, b0), fxm(a1, b1)), fxm(a2, b2)), fxm(a3, b3))
}

/// The identity matrix.
pub open spec fn spec_mat_identity() -> Mat4 {
    Mat4 {
        m00: FX_ONE, m01: 0, m02: 0, m03: 0,
        m10: 0, m11: FX_ONE, m12: 0, m13: 0,
        m20: 0, m21: 0, m22: FX_ONE, m23: 0,
        m30: 0, m31: 0, m32: 0, m33: FX_ONE,
    }
}

/// The matrix product `a * b` in saturating fixed-point arithmetic.
pub open spec fn spec_mat_mul(a: Mat4, b: Mat4) -> Mat4 {
    Mat4 {
        m00: fx4(a.m00, b.m00, a.m01, b.m10, a.m02, b.m20, a.m03, b.m30),
        m01: fx4(a.m00, b.m01, a.m01, b.m11, a.m02, b.m21, a.m03, b.m31),
        m02: fx4(a.m00, b.m02, a.m01, b.m12, a.m02, b.m22, a.m03, b.m32),
        m03: fx4(a.m00, b.m03, a.m01, b.m13, a.m02, b.m23, a.m03, b.m33),
        m10: fx4(a.m10, b.m00, a.m11, b.m10, a.m12, b.m20, a.m13, b.m30),
        m11: fx4(a.m10, b.m01, a.m11, b.m11, a.m12, b.m21, a.m13, b.m31),
        m12: fx4(a.m10, b.m02, a.m11, b.m12, a.m12, b.m22, a.m13, b.m32),
        m13: fx4(a.m10, b.m03, a.m11, b.m13, a.m12, b.m23, a.m13, b.m33),
        m20: fx4(a.m20, b.m00, a.m21, b.m10, a.m22, b.m20, a.m23, b.m30),
        m21: fx4(a.m20, b.m01, a.m21, b.m11, a.m22, b.m21, a.m23, b.m31),
        m22: fx4(a.m20, b.m02, a.m21, b.m12, a.m22, b.m22, a.m23, b.m32),
        m23: fx4(a.m20, b.m03, a.m21, b.m13, a.m22, b.m23, a.m23, b.m33),
        m30: fx4(a.m30, b.m00, a.m31, b.m10, a.m32, b.m20, a.m33, b.m30),
        m31: fx4(a.m30, b.m01, a.m31, b.m11, a.m32, b.m21, a.m33, b.m31),
        m32: fx4(a.m30, b.m02, a.m31, b.m12, a.m32, b.m22, a.m33, b.m32),
        m33: fx4(a.m30, b.m03, a.m31, b.m13, a.m32, b.m23, a.m33, b.m33),
    }
}

/// The affine translation matrix by `t`.
pub open spec fn spec_mat_from_translation(t: Vec3) -> Mat4 {
    Mat4 {
        m00: FX_ONE, m01: 0, m02: 0, m03: t.x,
        m10: 0, m11: FX_ONE, m12: 0, m13: t.y,
        m20: 0, m21: 0, m22: FX_ONE, m23: t.z,
        m30: 0, m31: 0, m32: 0, m33: FX_ONE,
    }
}

/// The uniform scale matrix by `s`.
pub open spec fn spec_mat_from_scale(s: i64) -> Mat4 {
    Mat4 {
        m00: s, m01: 0, m02: 0, m03: 0,
        m10: 0, m11: s, m12: 0, m13: 0,
        m20: 0, m21: 0, m22: s, m23: 0,
        m30: 0, m31: 0, m32: 0, m33: FX_ONE,
    }
}

/// The rotation matrix about `axis` (expected unit length) by `angle`
/// fixed-point radians, by the standard axis-angle formula.
pub open spec fn spec_mat_from_axis_angle(axis: Vec3, angle: i64) -> Mat4 {
    let c = spec_cos(angle);
    let s = spec_sin(angle);
    let k = fxs(FX_ONE, c);
    Mat4 {
        m00: fxa(c, fxm(fxm(axis.x, axis.x), k)),
        m01: fxs(fxm(fxm(axis.x, axis.y), k), fxm(axis.z, s)),
        m02: fxa(fxm(fxm(axis.x, axis.z), k), fxm(axis.y, s)),
        m03: 0,
        m10: fxa(fxm(fxm(axis.y, axis.x), k), fxm(axis.z, s)),
        m11: fxa(c, fxm(fxm(axis.y, axis.y), k)),
        m12: fxs(fxm(fxm(axis.y, axis.z), k), fxm(axis.x, s)),
        m13: 0,
        m20: fxs(fxm(fxm(axis.z, axis.x), k), fxm(axis.y, s)),
        m21: fxa(fxm(fxm(axis.z, axis.y), k), fxm(axis.x, s)),
        m22: fxa(c, fxm(fxm(axis.z, axis.z), k)),
        m23: 0,
        m30: 0,
        m31: 0,
        m32: 0,
        m33: FX_ONE,
    }
}

/// The identity matrix.
pub fn mat_identity() -> (r: Mat4)
    ensures
        r == spec_mat_identity(),
{
    Mat4 {
        m00: FX_ONE, m01: 0, m02: 0, m03: 0,
        m10: 0, m11: FX_ONE, m12: 0, m13: 0,
        m20: 0, m21: 0, m22: FX_ONE, m23: 0,
        m30: 0, m31: 0, m32: 0, m33: FX_ONE,
    }
}

fn fx4_exec(a0: i64, b0: i64, a1: i64, b1: i64, a2: i64, b2: i64, a3: i64, b3: i64) -> (r: i64)
    ensures
        r == fx4(a0, b0, a1, b1, a2, b2, a3, b3),
{
    fx_add(fx_add(fx_add(fx_mul(a0, b0), fx_mul(a1, b1)), fx_mul(a2, b2)), fx_mul(a3, b3))
}

/// The matrix product `a * b`.
pub fn mat_mul(a: Mat4, b: Mat4) -> (r: Mat4)
    ensures
        r == spec_mat_mul(a, b),
{
    Mat4 {
        m00: fx4_exec(a.m00, b.m00, a.m01, b.m10, a.m02, b.m20, a.m03, b.m30),
        m01: fx4_exec(a.m00, b.m01, a.m01, b.m11, a.m02, b.m21, a.m03, b.m31),
        m02: fx4_exec(a.m00, b.m02, a.m01, b.m12, a.m02, b.m22, a.m03, b.m32),
        m03: fx4_exec(a.m00, b.m03, a.m01, b.m13, a.m02, b.m23, a.m03, b.m33),
        m10: fx4_exec(a.m10, b.m00, a.m11, b.m10, a.m12, b.m20, a.m13, b.m30),
        m11: fx4_exec(a.m10, b.m01, a.m11, b.m11, a.m12, b.m21, a.m13, b.m31),
        m12: fx4_exec(a.m10, b.m02, a.m11, b.m12, a.m12, b.m22, a.m13, b.m32),
        m13: fx4_exec(a.m10, b.m03, a.m11, b.m13, a.m12, b.m23, a.m13, b.m33),
        m20: fx4_exec(a.m20, b.m00, a.m21, b.m10, a.m22, b.m20, a.m23, b.m30),
        m21: fx4_exec(a.m20, b.m01, a.m21, b.m11, a.m22, b.m21, a.m23, b.m31),
        m22: fx4_exec(a.m20, b.m02, a.m21, b.m12, a.m22, b.m22, a.m23, b.m32),
        m23: fx4_exec(a.m20, b.m03, a.m21, b.m13, a.m22, b.m23, a.m23, b.m33),
        m30: fx4_exec(a.m30, b.m00, a.m31, b.m10, a.m32, b.m20, a.m33, b.m30),
        m31: fx4_exec(a.m30, b.m01, a.m31, b.m11, a.m32, b.m21, a.m33, b.m31),
        m32: fx4_exec(a.m30, b.m02, a.m31, b.m12, a.m32, b.m22, a.m33, b.m32),
        m33: fx4_exec(a.m30, b.m03, a.m31, b.m13, a.m32, b.m23, a.m33, b.m33),
    }
}

/// The affine translation matrix by `t`.
pub fn mat_from_translation(t: Vec3) -> (r: Mat4)
    ensures
        r == spec_mat_from_translation(t),
{
    Mat4 {
        m00: FX_ONE, m01: 0, m02: 0, m03: t.x,
        m10: 0, m11: FX_ONE, m12: 0, m13: t.y,
        m20: 0, m21: 0, m22: FX_ONE, m23: t.z,
        m30: 0, m31: 0, m32: 0, m33: FX_ONE,
    }
}

/// The uniform scale matrix by `s`.
pub fn mat_from_scale(s: i64) -> (r: Mat4)
    ensures
        r == spec_mat_from_scale(s),
{
    Mat4 {
        m00: s, m01: 0, m02: 0, m03: 0,
        m10: 0, m11: s, m12: 0, m13: 0,
        m20: 0, m21: 0, m22: s, m23: 0,
        m30: 0, m31: 0, m32: 0, m33: FX_ONE,
    }
}

/// The rotation matrix about `axis` (expected unit length) by `angle`
/// fixed-point radians.
pub fn mat_from_axis_angle(axis: Vec3, angle: i64) -> (r: Mat4)
    ensures
        r == spec_mat_from_axis_angle(axis, angle),
{
    let c: i64 = cos_fx(angle);
    let s: i64 = sin_fx(angle);
    let k: i64 = fx_sub(FX_ONE, c);
    Mat4 {
        m00: fx_add(c, fx_mul(fx_mul(axis.x, axis.x), k)),
        m01: fx_sub(fx_mul(fx_mul(axis.x, axis.y), k), fx_mul(axis.z, s)),
        m02: fx_add(fx_mul(fx_mul(axis.x, axis.z), k), fx_mul(axis.y, s)),
        m03: 0,
        m10: fx_add(fx_mul(fx_mul(axis.y, axis.x), k), fx_mul(axis.z, s)),
        m11: fx_add(c, fx_mul(fx_mul(axis.y, axis.y), k)),
        m12: fx_sub(fx_mul(fx_mul(axis.y, axis.z), k), fx_mul(axis.x, s)),
        m13: 0,
        m20: fx_sub(fx_mul(fx_mul(axis.z, axis.x), k), fx_mul(axis.y, s)),
        m21: fx_add(fx_mul(fx_mul(axis.z, axis.y), k), fx_mul(axis.x, s)),
        m22: fx_add(c, fx_mul(fx_mul(axis.z, axis.z), k)),
        m23: 0,
        m30: 0,
        m31: 0,
        m32: 0,
        m33: FX_ONE,
    }
}

} // verus!
