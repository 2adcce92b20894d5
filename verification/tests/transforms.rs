//! The transformable-entity capability: translation accumulation, rotation
//! composition in call order, model matrices, cameras and lights.

use renderer::camera::Camera;
use renderer::common::{LightSourceInfo, Vertex};
use renderer::entity::Entity3D;
use renderer::fixed::{FX_HALF_PI, FX_ONE};
use renderer::light_source::LightSource;
use renderer::matrix::{mat_from_axis_angle, mat_from_translation, mat_identity, mat_mul};
use renderer::object::Object3D;
use renderer::vector::{Vec2, Vec3};

fn v(x: i64, y: i64, z: i64) -> Vec3 {
    Vec3 { x, y, z }
}

#[test]
fn translations_accumulate_by_addition() {
    let mut o = Object3D::new_cube();
    o.translate(FX_ONE, 0, 0);
    o.translate(2 * FX_ONE, 3 * FX_ONE, 0);
    o.translate(0, 0, -FX_ONE);
    assert_eq!(o.translation, v(3 * FX_ONE, 3 * FX_ONE, -FX_ONE));
    assert_eq!(o.rotation, mat_identity());
    assert_eq!(o.scale, FX_ONE);
}

#[test]
fn rotations_compose_in_call_order() {
    let z = v(0, 0, FX_ONE);
    let mut o = Object3D::new_cube();
    o.rotate(z, FX_HALF_PI);
    o.rotate(z, FX_HALF_PI);
    let expected = mat_mul(
        mat_mul(mat_identity(), mat_from_axis_angle(z, FX_HALF_PI)),
        mat_from_axis_angle(z, FX_HALF_PI),
    );
    assert_eq!(o.rotation, expected);
    // two exact quarter turns are an exact half turn
    assert_eq!(o.rotation.m00, -FX_ONE);
    assert_eq!(o.rotation.m11, -FX_ONE);
}

#[test]
fn model_matrix_is_translate_rotate_scale() {
    let z = v(0, 0, FX_ONE);
    let mut o = Object3D::new_cube();
    o.translate(FX_ONE, 0, 0);
    o.rotate(z, FX_HALF_PI);
    o.translate(0, 2 * FX_ONE, 0);
    let m = o.model_matrix();
    let expected = mat_mul(
        mat_mul(
            mat_from_translation(v(FX_ONE, 2 * FX_ONE, 0)),
            mat_mul(mat_identity(), mat_from_axis_angle(z, FX_HALF_PI)),
        ),
        renderer::matrix::mat_from_scale(FX_ONE),
    );
    assert_eq!(m, expected);
    // the translation lands in the last column
    assert_eq!(m.m03, FX_ONE);
    assert_eq!(m.m13, 2 * FX_ONE);
    assert_eq!(m.m23, 0);
}

#[test]
fn light_source_transforms_like_an_object() {
    let mut l = LightSource::new_translated(v(0, 32768, 0));
    assert_eq!(l.color, v(FX_ONE, FX_ONE, FX_ONE));
    assert_eq!(l.rotation, mat_identity());
    assert_eq!(l.scale, FX_ONE);
    l.translate(0, 0, -10 * FX_ONE);
    assert_eq!(l.translation, v(0, 32768, -10 * FX_ONE));
    let m = l.model_matrix();
    assert_eq!(m.m03, 0);
    assert_eq!(m.m13, 32768);
    assert_eq!(m.m23, -10 * FX_ONE);
}

#[test]
fn camera_looking_down_negative_z_has_identity_view() {
    let c = Camera::new(v(0, 0, 0), v(0, 0, -FX_ONE), v(0, FX_ONE, 0), FX_ONE);
    assert_eq!(c.view, mat_identity());
    // cot(22.5 degrees) = 1 + sqrt(2), about 2.4142
    assert_eq!(c.projection.m00, 158217);
    assert_eq!(c.projection.m11, 158217);
    assert_eq!(c.projection.m32, -FX_ONE);
    assert_eq!(c.projection.m33, 0);
    // with an identity view, the view-projection product is the projection
    assert_eq!(c.vp_matrix(), c.projection);
}

#[test]
fn camera_translate_moves_in_view_space() {
    let mut c = Camera::new(v(0, 0, 0), v(0, 0, -FX_ONE), v(0, FX_ONE, 0), FX_ONE);
    c.translate(0, 0, 16384);
    assert_eq!(c.view, mat_from_translation(v(0, 0, 16384)));
    c.translate(0, 0, 16384);
    assert_eq!(c.view, mat_from_translation(v(0, 0, 32768)));
}

#[test]
fn vertex_constructors_homogenize() {
    let vx = Vertex::new(
        v(FX_ONE, 0, 0),
        v(FX_ONE, FX_ONE, 0),
        v(0, FX_ONE, 0),
        Vec2 { x: 100, y: 200 },
    );
    assert_eq!(vx.v_pos.w, FX_ONE);
    assert_eq!(vx.v_pos.x, FX_ONE);
    assert_eq!(vx.v_normal.w, FX_ONE);
    assert_eq!(vx.v_normal.y, FX_ONE);
    assert_eq!(vx.v_uv, Vec2 { x: 100, y: 200 });

    let d = Vertex::new_default(v(0, FX_ONE, 0));
    assert_eq!(d.v_color, v(FX_ONE, FX_ONE, FX_ONE));
    assert_eq!(d.v_normal.x, 0);
    assert_eq!(d.v_normal.w, FX_ONE);
    assert_eq!(d.v_uv, Vec2 { x: 0, y: 0 });
}

#[test]
fn light_info_homogenizes_position_and_color() {
    let i = LightSourceInfo::new(v(1000, 2000, 3000), v(FX_ONE, 0, 0));
    assert_eq!(i.pos.x, 1000);
    assert_eq!(i.pos.w, FX_ONE);
    assert_eq!(i.color.x, FX_ONE);
    assert_eq!(i.color.w, FX_ONE);
}
