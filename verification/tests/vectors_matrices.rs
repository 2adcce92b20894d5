//! Vector and matrix operations: cross products, normalization and the
//! matrix constructors used for model and view matrices.

use renderer::fixed::{FX_HALF_PI, FX_ONE};
use renderer::matrix::{mat_from_axis_angle, mat_from_scale, mat_from_translation, mat_identity, mat_mul, Mat4};
use renderer::vector::{v3_add, v3_cross, v3_dot, v3_normalize, v3_sub, Vec3};

fn v(x: i64, y: i64, z: i64) -> Vec3 {
    Vec3 { x, y, z }
}

#[test]
fn cross_product_of_axes() {
    let x = v(FX_ONE, 0, 0);
    let y = v(0, FX_ONE, 0);
    let z = v(0, 0, FX_ONE);
    assert_eq!(v3_cross(x, y), z);
    assert_eq!(v3_cross(y, x), v(0, 0, -FX_ONE));
    assert_eq!(v3_cross(y, z), x);
}

#[test]
fn dot_product_is_scaled_sum() {
    let a = v(2 * FX_ONE, 3 * FX_ONE, 0);
    let b = v(4 * FX_ONE, 5 * FX_ONE, 0);
    // 2*4 + 3*5 == 23
    assert_eq!(v3_dot(a, b), 23 * FX_ONE);
    assert_eq!(v3_add(a, b), v(6 * FX_ONE, 8 * FX_ONE, 0));
    assert_eq!(v3_sub(b, a), v(2 * FX_ONE, 2 * FX_ONE, 0));
}

#[test]
fn normalize_scales_to_unit_length() {
    assert_eq!(v3_normalize(v(3 * FX_ONE, 0, 0)), v(FX_ONE, 0, 0));
    assert_eq!(v3_normalize(v(0, -7 * FX_ONE, 0)), v(0, -FX_ONE, 0));
    // (1, 1, 1) normalizes to roughly 0.5774 per component.
    let n = v3_normalize(v(FX_ONE, FX_ONE, FX_ONE));
    assert_eq!(n, v(37837, 37837, 37837));
}

#[test]
fn normalize_of_zero_gives_default_direction() {
    assert_eq!(v3_normalize(v(0, 0, 0)), v(0, 0, FX_ONE));
}

#[test]
fn identity_multiplication_is_neutral() {
    let m = Mat4 {
        m00: 123, m01: -456, m02: 789, m03: 11 * FX_ONE,
        m10: 222, m11: 333, m12: 444, m13: -555,
        m20: 1, m21: 2, m22: 3, m23: 4,
        m30: 0, m31: 0, m32: 0, m33: FX_ONE,
    };
    assert_eq!(mat_mul(mat_identity(), m), m);
    assert_eq!(mat_mul(m, mat_identity()), m);
}

#[test]
fn translation_matrices_compose_by_addition() {
    let a = mat_from_translation(v(FX_ONE, 0, 0));
    let b = mat_from_translation(v(0, 2 * FX_ONE, 0));
    let ab = mat_mul(a, b);
    assert_eq!(ab, mat_from_translation(v(FX_ONE, 2 * FX_ONE, 0)));
}

#[test]
fn scale_of_one_is_identity() {
    assert_eq!(mat_from_scale(FX_ONE), mat_identity());
}

#[test]
fn axis_angle_of_zero_angle_is_identity() {
    assert_eq!(mat_from_axis_angle(v(FX_ONE, 0, 0), 0), mat_identity());
}

#[test]
fn quarter_turn_about_z_is_exact() {
    let r = mat_from_axis_angle(v(0, 0, FX_ONE), FX_HALF_PI);
    assert_eq!(r.m00, 0);
    assert_eq!(r.m01, -FX_ONE);
    assert_eq!(r.m10, FX_ONE);
    assert_eq!(r.m11, 0);
    assert_eq!(r.m22, FX_ONE);
    assert_eq!(r.m33, FX_ONE);
    // two quarter turns compose into an exact half turn
    let rr = mat_mul(r, r);
    assert_eq!(rr.m00, -FX_ONE);
    assert_eq!(rr.m01, 0);
    assert_eq!(rr.m11, -FX_ONE);
}
