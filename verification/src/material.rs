//! Named surface parameters with up to five texture-slot references.
//!
//! A texture slot is either the empty string ("no texture") or a path that
//! the scene's texture cache resolves after import.

use vstd::prelude::*;

use crate::fixed::FX_ONE;
use crate::vector::{Vec3, Vec4};

verus! {

/// The illumination-model tag of a material, as interchange formats for
/// surface descriptions enumerate it.
#[derive(Clone, Copy, PartialEq, Eq, Structural, Debug)]
pub enum IlluminationModel {
    ConstantColor,
    Model1,
    Model2,
    Model3,
    Model4,
    Model5,
    Model6,
    Model7,
    Model8,
    Model9,
    Model10,
}

/// A material: colors homogenized with alpha 1, scalar surface parameters
/// and five texture-path slots.
#[derive(Debug)]
pub struct Material {
    pub name: String,
    pub ambient: Vec4,
    pub diffuse: Vec4,
    pub specular: Vec4,
    pub shininess: i64,
    pub dissolve: i64,
    pub optical_density: i64,
    pub ambient_texture: String,
    pub diffuse_texture: String,
    pub specular_texture: String,
    pub normal_texture: String,
    pub dissolve_texture: String,
    pub illumination_model: Option<u8>,
}

/// The five texture-slot paths of a material, in slot order: ambient,
/// diffuse, specular, normal, dissolve.
pub open spec fn material_paths(m: Material) -> Seq<Seq<char>> {
    seq![
        m.ambient_texture@,
        m.diffuse_texture@,
        m.specular_texture@,
        m.normal_texture@,
        m.dissolve_texture@,
    ]
}

/// Whether one of `m`'s texture slots reads the nonempty path `path`.
pub open spec fn material_refs_path(m: Material, path: Seq<char>) -> bool {
    path.len() > 0 && exists|j: int| 0 <= j < 5 && material_paths(m)[j] == path
}

/// Whether some nonempty texture slot of one of `mats` reads `path`.
pub open spec fn path_referenced(mats: Seq<Material>, path: Seq<char>) -> bool {
    exists|i: int| 0 <= i < mats.len() && material_refs_path(#[trigger] mats[i], path)
}

impl Material {
    /// A material from RGB colors (homogenized with alpha 1), scalar
    /// parameters and five texture paths; the illumination model starts
    /// unset.
    pub fn new(
        name: String,
        ambient: Vec3,
        diffuse: Vec3,
        specular: Vec3,
        shininess: i64,
        dissolve: i64,
        optical_density: i64,
        ambient_texture: String,
        diffuse_texture: String,
        specular_texture: String,
        normal_texture: String,
        dissolve_texture: String,
    ) -> (r: Material)
        ensures
            r.name == name,
            r.ambient == (Vec4 { x: ambient.x, y: ambient.y, z: ambient.z, w: FX_ONE }),
            r.diffuse == (Vec4 { x: diffuse.x, y: diffuse.y, z: diffuse.z, w: FX_ONE }),
            r.specular == (Vec4 { x: specular.x, y: specular.y, z: specular.z, w: FX_ONE }),
            r.shininess == shininess,
            r.dissolve == dissolve,
            r.optical_density == optical_density,
            r.ambient_texture == ambient_texture,
            r.diffuse_texture == diffuse_texture,
            r.specular_texture == specular_texture,
            r.normal_texture == normal_texture,
            r.dissolve_texture == dissolve_texture,
            r.illumination_model is None,
    {
        Material {
            name,
            ambient: Vec4 { x: ambient.x, y: ambient.y, z: ambient.z, w: FX_ONE },
            diffuse: Vec4 { x: diffuse.x, y: diffuse.y, z: diffuse.z, w: FX_ONE },
            specular: Vec4 { x: specular.x, y: specular.y, z: specular.z, w: FX_ONE },
            shininess,
            dissolve,
            optical_density,
            ambient_texture,
            diffuse_texture,
            specular_texture,
            normal_texture,
            dissolve_texture,
            illumination_model: None,
        }
    }
}

} // verus!
