//! Fixed-layout per-vertex and per-light attribute bundles handed to the
//! rendering backend.

use vstd::prelude::*;

use crate::fixed::FX_ONE;
use crate::vector::{Vec2, Vec3, Vec4};

verus! {

/// One vertex of a renderable object: homogenized position, color, normal
/// and texture coordinates.
#[derive(Clone, Copy, PartialEq, Eq, Structural, Debug)]
pub struct Vertex {
    pub v_pos: Vec4,
    pub v_color: Vec3,
    pub v_normal: Vec4,
    pub v_uv: Vec2,
}

/// The vertex `Vertex::new` builds: position and normal homogenized with
/// w = 1.
pub open spec fn spec_vertex_new(pos: Vec3, color: Vec3, normal: Vec3, uv: Vec2) -> Vertex {
    Vertex {
        v_pos: Vec4 { x: pos.x, y: pos.y, z: pos.z, w: FX_ONE },
        v_color: color,
        v_normal: Vec4 { x: normal.x, y: normal.y, z: normal.z, w: FX_ONE },
        v_uv: uv,
    }
}

impl Vertex {
    /// Bundles the given attributes, homogenizing position and normal with
    /// w = 1.
    pub fn new(pos: Vec3, color: Vec3, normal: Vec3, uv: Vec2) -> (r: Vertex)
        ensures
            r == spec_vertex_new(pos, color, normal, uv),
    {
        Vertex {
            v_pos: Vec4 { x: pos.x, y: pos.y, z: pos.z, w: FX_ONE },
            v_color: color,
            v_normal: Vec4 { x: normal.x, y: normal.y, z: normal.z, w: FX_ONE },
            v_uv: uv,
        }
    }

    /// A vertex at `pos` with white color, zero normal and zero texture
    /// coordinates.
    pub fn new_default(pos: Vec3) -> (r: Vertex)
        ensures
            r == spec_vertex_new(
                pos,
                Vec3 { x: FX_ONE, y: FX_ONE, z: FX_ONE },
                Vec3 { x: 0, y: 0, z: 0 },
                Vec2 { x: 0, y: 0 },
            ),
    {
        Vertex::new(
            pos,
            Vec3 { x: FX_ONE, y: FX_ONE, z: FX_ONE },
            Vec3 { x: 0, y: 0, z: 0 },
            Vec2 { x: 0, y: 0 },
        )
    }
}

/// The per-light parameters the backend's light uniform buffer consumes.
#[derive(Clone, Copy, PartialEq, Eq, Structural, Debug)]
pub struct LightSourceInfo {
    pub pos: Vec4,
    pub color: Vec4,
}

impl LightSourceInfo {
    /// Homogenizes a light's position and color with w = 1.
    pub fn new(pos: Vec3, color: Vec3) -> (r: LightSourceInfo)
        ensures
            r.pos == (Vec4 { x: pos.x, y: pos.y, z: pos.z, w: FX_ONE }),
            r.color == (Vec4 { x: color.x, y: color.y, z: color.z, w: FX_ONE }),
    {
        LightSourceInfo {
            pos: Vec4 { x: pos.x, y: pos.y, z: pos.z, w: FX_ONE },
            color: Vec4 { x: color.x, y: color.y, z: color.z, w: FX_ONE },
        }
    }
}

} // verus!
