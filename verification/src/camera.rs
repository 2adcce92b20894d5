//! The camera: view and projection state plus the transformable-entity
//! capability. `translate` and `rotate` right-multiply the view matrix, so
//! they compose in view space — convenient for eye-movement controls.

use vstd::prelude::*;

use crate::entity::Entity3D;
use crate::fixed::{fxa, fxd, fxm, fxs, fx_add, fx_div, fx_mul, fx_sub, isqrt_spec, isqrt_u128, FX_ONE};
use crate::matrix::{
    mat_from_axis_angle, mat_from_translation, mat_mul, spec_mat_from_axis_angle,
    spec_mat_from_translation, spec_mat_mul, Mat4,
};
use crate::vector::{
    spec_v3_cross, spec_v3_dot, spec_v3_normalize, spec_v3_sub, v3_cross, v3_dot, v3_normalize,
    v3_sub, Vec3,
};

verus! {

/// The near clipping plane of the fixed 45-degree projection (0.1).
pub const FX_NEAR: i64 = 6554;

/// The far clipping plane of the fixed 45-degree projection (100.0).
pub const FX_FAR: i64 = 6553600;

/// The cotangent of half the 45-degree field of view: 1 + sqrt(2) in
/// fixed point.
pub open spec fn spec_cot_half_fov() -> i64 {
    (FX_ONE + isqrt_spec((2 * FX_ONE * FX_ONE) as nat)) as i64
}

/// The right-handed look-at view matrix: rows are the camera's right and
/// up directions and the negated forward direction, with the eye offset in
/// the last column.
pub open spec fn spec_look_at(eye: Vec3, center: Vec3, up: Vec3) -> Mat4 {
    let f = spec_v3_normalize(spec_v3_sub(center, eye));
    let s = spec_v3_normalize(spec_v3_cross(f, up));
    let u = spec_v3_cross(s, f);
    Mat4 {
        m00: s.x, m01: s.y, m02: s.z, m03: fxs(0, spec_v3_dot(s, eye)),
        m10: u.x, m11: u.y, m12: u.z, m13: fxs(0, spec_v3_dot(u, eye)),
        m20: fxs(0, f.x), m21: fxs(0, f.y), m22: fxs(0, f.z), m23: spec_v3_dot(f, eye),
        m30: 0, m31: 0, m32: 0, m33: FX_ONE,
    }
}

/// The perspective projection for a 45-degree vertical field of view and
/// the fixed near and far planes.
pub open spec fn spec_perspective_45(aspect: i64) -> Mat4
    recommends
        aspect != 0,
{
    let f = spec_cot_half_fov();
    let depth_sum = fxa(FX_FAR, FX_NEAR);
    let depth_diff = fxs(FX_NEAR, FX_FAR);
    let depth_prod2 = fxa(fxm(FX_FAR, FX_NEAR), fxm(FX_FAR, FX_NEAR));
    Mat4 {
        m00: fxd(f, aspect), m01: 0, m02: 0, m03: 0,
        m10: 0, m11: f, m12: 0, m13: 0,
        m20: 0, m21: 0, m22: fxd(depth_sum, depth_diff), m23: fxd(depth_prod2, depth_diff),
        m30: 0, m31: 0, m32: (-FX_ONE) as i64, m33: 0,
    }
}

/// A camera with view state derived from eye, center and up, and an
/// aspect-driven 45-degree perspective projection.
#[derive(Clone, Copy, PartialEq, Eq, Structural, Debug)]
pub struct Camera {
    pub eye: Vec3,
    pub center: Vec3,
    pub up: Vec3,
    pub view: Mat4,
    pub projection: Mat4,
}

impl Camera {
    /// A camera looking from `eye` toward `center` with the given up
    /// direction and aspect ratio.
    pub fn new(eye: Vec3, center: Vec3, up: Vec3, aspect_ratio: i64) -> (r: Camera)
        requires
            aspect_ratio != 0,
        ensures
            r.eye == eye,
            r.center == center,
            r.up == up,
            r.view == spec_look_at(eye, center, up),
            r.projection == spec_perspective_45(aspect_ratio),
    {
        let f: Vec3 = v3_normalize(v3_sub(center, eye));
        let s: Vec3 = v3_normalize(v3_cross(f, up));
        let u: Vec3 = v3_cross(s, f);
        let view = Mat4 {
            m00: s.x, m01: s.y, m02: s.z, m03: fx_sub(0, v3_dot(s, eye)),
            m10: u.x, m11: u.y, m12: u.z, m13: fx_sub(0, v3_dot(u, eye)),
            m20: fx_sub(0, f.x), m21: fx_sub(0, f.y), m22: fx_sub(0, f.z), m23: v3_dot(f, eye),
            m30: 0, m31: 0, m32: 0, m33: FX_ONE,
        };
        let root: u64 = isqrt_u128(2 * (FX_ONE as u128) * (FX_ONE as u128));
        proof {
            assert(root <= 131072) by (nonlinear_arith)
                requires
                    (root as int) * (root as int) <= 8589934592,
            ;
        }
        let fov: i64 = FX_ONE + (root as i64);
        let depth_sum: i64 = fx_add(FX_FAR, FX_NEAR);
        let depth_diff: i64 = fx_sub(FX_NEAR, FX_FAR);
        assert(depth_diff != 0);
        let prod: i64 = fx_mul(FX_FAR, FX_NEAR);
        let depth_prod2: i64 = fx_add(prod, prod);
        let projection = Mat4 {
            m00: fx_div(fov, aspect_ratio), m01: 0, m02: 0, m03: 0,
            m10: 0, m11: fov, m12: 0, m13: 0,
            m20: 0, m21: 0, m22: fx_div(depth_sum, depth_diff), m23: fx_div(depth_prod2, depth_diff),
            m30: 0, m31: 0, m32: -FX_ONE, m33: 0,
        };
        Camera { eye, center, up, view, projection }
    }

    /// The draw-call matrix: projection * view.
    pub fn vp_matrix(&self) -> (r: Mat4)
        ensures
            r == spec_mat_mul(self.projection, self.view),
    {
        mat_mul(self.projection, self.view)
    }
}

impl Entity3D for Camera {
    open spec fn spec_translated(self, x: i64, y: i64, z: i64) -> Camera {
        Camera {
            view: spec_mat_mul(self.view, spec_mat_from_translation(Vec3 { x, y, z })),
            ..self
        }
    }

    open spec fn spec_rotated(self, axis: Vec3, angle: i64) -> Camera {
        Camera { view: spec_mat_mul(self.view, spec_mat_from_axis_angle(axis, angle)), ..self }
    }

    fn translate(&mut self, x: i64, y: i64, z: i64) {
        self.view = mat_mul(self.view, mat_from_translation(Vec3 { x, y, z }));
    }

    fn rotate(&mut self, axis: Vec3, angle: i64) {
        self.view = mat_mul(self.view, mat_from_axis_angle(axis, angle));
    }
}

} // verus!
