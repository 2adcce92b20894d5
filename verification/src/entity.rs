//! The transformable-entity capability shared by cameras, lights and
//! objects, and the transform state it mutates.
//!
//! A `Transform` composes in the fixed order model = translate * rotate *
//! scale. `translate` accumulates by vector addition and `rotate` composes
//! by right-multiplication, so repeated calls compose instead of replacing
//! each other.

use vstd::prelude::*;

use crate::matrix::{
    spec_mat_from_axis_angle, spec_mat_from_scale, spec_mat_from_translation, spec_mat_mul, Mat4,
};
use crate::vector::{spec_v3_add, Vec3};

verus! {

/// The transform state of a scene node: model = translate * rotate * scale.
#[derive(Clone, Copy, PartialEq, Eq, Structural, Debug)]
pub struct Transform {
    pub translation: Vec3,
    pub rotation: Mat4,
    pub scale: i64,
}

/// The state after a `translate` call: the offset is added to the
/// accumulated translation; rotation and scale are untouched.
pub open spec fn spec_transform_translated(t: Transform, x: i64, y: i64, z: i64) -> Transform {
    Transform {
        translation: spec_v3_add(t.translation, Vec3 { x, y, z }),
        rotation: t.rotation,
        scale: t.scale,
    }
}

/// The state after a `rotate` call: the new rotation is right-multiplied
/// onto the accumulated rotation; translation and scale are untouched.
pub open spec fn spec_transform_rotated(t: Transform, axis: Vec3, angle: i64) -> Transform {
    Transform {
        translation: t.translation,
        rotation: spec_mat_mul(t.rotation, spec_mat_from_axis_angle(axis, angle)),
        scale: t.scale,
    }
}

/// The model matrix of a transform: translate * rotate * scale, associated
/// left to right.
pub open spec fn spec_model_matrix(t: Transform) -> Mat4 {
    spec_mat_mul(
        spec_mat_mul(spec_mat_from_translation(t.translation), t.rotation),
        spec_mat_from_scale(t.scale),
    )
}

/// One mutation of a transformable entity.
#[derive(Clone, Copy, PartialEq, Eq, Structural, Debug)]
pub enum EntityOp {
    Translate { x: i64, y: i64, z: i64 },
    Rotate { axis: Vec3, angle: i64 },
}

/// The transform state change of one entity operation.
pub open spec fn apply_entity_op(t: Transform, op: EntityOp) -> Transform {
    match op {
        EntityOp::Translate { x, y, z } => spec_transform_translated(t, x, y, z),
        EntityOp::Rotate { axis, angle } => spec_transform_rotated(t, axis, angle),
    }
}

/// The transform state after a call sequence, first call first.
pub open spec fn apply_entity_ops(t: Transform, ops: Seq<EntityOp>) -> Transform
    decreases ops.len(),
{
    if ops.len() == 0 {
        t
    } else {
        apply_entity_ops(apply_entity_op(t, ops[0]), ops.drop_first())
    }
}

/// The translation offsets of a call sequence accumulated onto `base`, in
/// call order.
pub open spec fn ops_translation(base: Vec3, ops: Seq<EntityOp>) -> Vec3
    decreases ops.len(),
{
    if ops.len() == 0 {
        base
    } else {
        match ops[0] {
            EntityOp::Translate { x, y, z } => ops_translation(
                spec_v3_add(base, Vec3 { x, y, z }),
                ops.drop_first(),
            ),
            EntityOp::Rotate { .. } => ops_translation(base, ops.drop_first()),
        }
    }
}

/// The rotations of a call sequence right-multiplied onto `base`, in call
/// order.
pub open spec fn ops_rotation(base: Mat4, ops: Seq<EntityOp>) -> Mat4
    decreases ops.len(),
{
    if ops.len() == 0 {
        base
    } else {
        match ops[0] {
            EntityOp::Translate { .. } => ops_rotation(base, ops.drop_first()),
            EntityOp::Rotate { axis, angle } => ops_rotation(
                spec_mat_mul(base, spec_mat_from_axis_angle(axis, angle)),
                ops.drop_first(),
            ),
        }
    }
}

/// A scene node that can be positioned: `translate` adds a world-space
/// offset and `rotate` right-composes a rotation about an arbitrary axis.
/// Each implementor states its exact state change through the two spec
/// functions.
pub trait Entity3D: Sized {
    /// The state `translate` leaves behind.
    spec fn spec_translated(self, x: i64, y: i64, z: i64) -> Self;

    /// The state `rotate` leaves behind.
    spec fn spec_rotated(self, axis: Vec3, angle: i64) -> Self;

    /// Adds a world-space offset to the node's position.
    fn translate(&mut self, x: i64, y: i64, z: i64)
        ensures
            *final(self) == old(self).spec_translated(x, y, z),
    ;

    /// Right-composes a rotation about `axis` (expected unit length) by
    /// `angle` fixed-point radians.
    fn rotate(&mut self, axis: Vec3, angle: i64)
        ensures
            *final(self) == old(self).spec_rotated(axis, angle),
    ;
}

} // verus!
