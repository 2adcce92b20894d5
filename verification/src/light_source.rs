//! Point light sources: photometric color plus the transformable-entity
//! capability. The backend reads a light's world position from its
//! translation.

use vstd::prelude::*;

use crate::entity::{
    spec_model_matrix, spec_transform_rotated, spec_transform_translated, Entity3D, Transform,
};
use crate::fixed::FX_ONE;
use crate::matrix::{mat_from_scale, mat_from_translation, mat_identity, mat_mul, spec_mat_identity, Mat4, mat_from_axis_angle};
use crate::vector::{v3_add, Vec3};

verus! {

/// A point light: color and transform state.
#[derive(Clone, Copy, PartialEq, Eq, Structural, Debug)]
pub struct LightSource {
    pub color: Vec3,
    pub translation: Vec3,
    pub rotation: Mat4,
    pub scale: i64,
}

impl LightSource {
    /// The transform state of this light.
    pub open spec fn transform(self) -> Transform {
        Transform { translation: self.translation, rotation: self.rotation, scale: self.scale }
    }

    /// A light with the given color and transform state.
    pub fn new(color: Vec3, translation: Vec3, rotation: Mat4, scale: i64) -> (r: LightSource)
        ensures
            r == (LightSource { color, translation, rotation, scale }),
    {
        LightSource { color, translation, rotation, scale }
    }

    /// A white light at `translation` with identity rotation and unit
    /// scale.
    pub fn new_translated(translation: Vec3) -> (r: LightSource)
        ensures
            r.color == (Vec3 { x: FX_ONE, y: FX_ONE, z: FX_ONE }),
            r.translation == translation,
            r.rotation == spec_mat_identity(),
            r.scale == FX_ONE,
    {
        LightSource::new(
            Vec3 { x: FX_ONE, y: FX_ONE, z: FX_ONE },
            translation,
            mat_identity(),
            FX_ONE,
        )
    }

    /// The model matrix: translate * rotate * scale.
    pub fn model_matrix(&self) -> (r: Mat4)
        ensures
            r == spec_model_matrix(self.transform()),
    {
        mat_mul(
            mat_mul(mat_from_translation(self.translation), self.rotation),
            mat_from_scale(self.scale),
        )
    }
}

impl Entity3D for LightSource {
    open spec fn spec_translated(self, x: i64, y: i64, z: i64) -> LightSource {
        LightSource {
            translation: spec_transform_translated(self.transform(), x, y, z).translation,
            ..self
        }
    }

    open spec fn spec_rotated(self, axis: Vec3, angle: i64) -> LightSource {
        LightSource { rotation: spec_transform_rotated(self.transform(), axis, angle).rotation, ..self }
    }

    fn translate(&mut self, x: i64, y: i64, z: i64) {
        self.translation = v3_add(self.translation, Vec3 { x, y, z });
    }

    fn rotate(&mut self, axis: Vec3, angle: i64) {
        self.rotation = mat_mul(self.rotation, mat_from_axis_angle(axis, angle));
    }
}

} // verus!
