//! The in-memory records a decoded asset hands to the importer, and the
//! errors an import can report.
//!
//! Asset decoding itself (file parsing, image decoding) is an external
//! collaborator: the importer consumes plain records and decoded pixel
//! buffers, never files.

use vstd::prelude::*;

use crate::material::Material;

verus! {

/// A fatal import error. An import is all-or-nothing: on any of these the
/// scene is left unchanged.
#[derive(Clone, Copy, PartialEq, Eq, Structural, Debug)]
pub enum ImportError {
    /// A mesh without at least one position triple and one index triple.
    EmptyMesh,
    /// A triangle index that points past the position list (or past the
    /// supplied normal list).
    IndexOutOfRange,
    /// An object's material reference points past the asset's materials.
    MissingMaterial,
    /// A nonempty texture path that neither the cache nor the supplied
    /// decoded textures cover.
    MissingTexture,
}

/// A decoded mesh: flat position triples, a flat triangle-index list,
/// optional flat texture-coordinate pairs, optional flat normal triples
/// (empty means "reconstruct"), and an optional material reference into
/// the owning asset's material list.
#[derive(Debug)]
pub struct MeshRecord {
    pub name: String,
    pub positions: Vec<i64>,
    pub indices: Vec<u32>,
    pub uvs: Vec<i64>,
    pub normals: Vec<i64>,
    pub material_id: Option<usize>,
}

/// A decoded RGBA pixel buffer.
#[derive(Debug)]
pub struct Texture {
    pub width: u32,
    pub height: u32,
    pub pixels: Vec<u8>,
}

/// Everything one decoded asset contributes to a scene: meshes, materials
/// and the decoded textures for the paths the materials reference.
#[derive(Debug)]
pub struct Asset {
    pub meshes: Vec<MeshRecord>,
    pub materials: Vec<Material>,
    pub textures: Vec<(String, Texture)>,
}

} // verus!
