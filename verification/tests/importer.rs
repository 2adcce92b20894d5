//! The mesh importer: vertex-stream expansion, smooth-normal
//! reconstruction, degenerate inputs and the procedural cube.

use renderer::asset::{ImportError, MeshRecord};
use renderer::fixed::FX_ONE;
use renderer::object::{evaluate_vertex_normals, Object3D};
use renderer::vector::Vec3;

fn v(x: i64, y: i64, z: i64) -> Vec3 {
    Vec3 { x, y, z }
}

fn norm_sq(x: i64, y: i64, z: i64) -> i64 {
    x * x + y * y + z * z
}

#[test]
fn quad_shared_vertices_average_both_faces() {
    // A planar unit quad in the z = 0 plane, split along the 0-2 diagonal.
    let vertices = vec![
        v(0, 0, 0),
        v(FX_ONE, 0, 0),
        v(FX_ONE, FX_ONE, 0),
        v(0, FX_ONE, 0),
    ];
    let indices: Vec<u32> = vec![0, 1, 2, 2, 3, 0];
    let normals = evaluate_vertex_normals(&vertices, &indices).unwrap();
    assert_eq!(normals.len(), 4);
    // both faces look along +z, so every reconstructed normal is exactly +z
    for n in &normals {
        assert_eq!(*n, v(0, 0, FX_ONE));
        // unit length, exactly here
        assert_eq!(norm_sq(n.x, n.y, n.z), FX_ONE * FX_ONE);
    }
}

#[test]
fn bent_quad_averages_the_two_face_normals() {
    // Two triangles sharing the edge 0-2, one facing +z, one facing +x.
    let vertices = vec![
        v(0, 0, 0),
        v(FX_ONE, 0, 0),
        v(FX_ONE, FX_ONE, 0),
        v(0, FX_ONE, 0),
    ];
    // both triangles (0,1,2) and (0,2,3) face +z and share the edge 0-2
    let indices: Vec<u32> = vec![0, 1, 2, 0, 2, 3];
    let normals = evaluate_vertex_normals(&vertices, &indices).unwrap();
    // the shared vertices 0 and 2 accumulate +z and +z (same winding here)
    assert_eq!(normals[0], v(0, 0, FX_ONE));
    assert_eq!(normals[2], v(0, 0, FX_ONE));
}

#[test]
fn isolated_vertex_gets_default_normal() {
    let vertices = vec![v(0, 0, 0), v(FX_ONE, 0, 0), v(0, FX_ONE, 0), v(9, 9, 9)];
    let indices: Vec<u32> = vec![0, 1, 2];
    let normals = evaluate_vertex_normals(&vertices, &indices).unwrap();
    // vertex 3 is referenced by no triangle: deterministic default, no NaN
    assert_eq!(normals[3], v(0, 0, FX_ONE));
}

#[test]
fn degenerate_triangle_gets_default_normal() {
    // all three corners identical: the cross product is zero
    let vertices = vec![v(5, 5, 5)];
    let indices: Vec<u32> = vec![0, 0, 0];
    let normals = evaluate_vertex_normals(&vertices, &indices).unwrap();
    assert_eq!(normals[0], v(0, 0, FX_ONE));
}

#[test]
fn out_of_range_index_is_fatal() {
    let vertices = vec![v(0, 0, 0), v(FX_ONE, 0, 0)];
    let indices: Vec<u32> = vec![0, 1, 2];
    assert_eq!(
        evaluate_vertex_normals(&vertices, &indices),
        Err(ImportError::IndexOutOfRange)
    );
}

#[test]
fn object_new_expands_one_vertex_per_index() {
    let vertices = vec![v(0, 0, 0), v(FX_ONE, 0, 0), v(0, FX_ONE, 0)];
    let indices: Vec<u32> = vec![0, 1, 2, 2, 1, 0];
    let normals = vec![v(0, 0, FX_ONE), v(0, 0, FX_ONE), v(0, 0, FX_ONE)];
    let o = Object3D::new(
        "tri".to_string(),
        vertices,
        indices,
        vec![],
        normals,
        Some(7),
    )
    .unwrap();
    assert_eq!(o.name, "tri");
    assert_eq!(o.vertices.len(), 6);
    assert_eq!(o.material_id, Some(7));
    // expansion follows the index list
    assert_eq!(o.vertices[1].v_pos.x, FX_ONE);
    assert_eq!(o.vertices[4].v_pos.x, FX_ONE);
    // missing texture coordinates default to zero
    assert_eq!(o.vertices[0].v_uv.x, 0);
    // default color is white
    assert_eq!(o.vertices[0].v_color, v(FX_ONE, FX_ONE, FX_ONE));
}

#[test]
fn object_new_rejects_bad_index() {
    let vertices = vec![v(0, 0, 0)];
    let indices: Vec<u32> = vec![0, 0, 5];
    let normals = vec![v(0, 0, FX_ONE)];
    let r = Object3D::new("bad".to_string(), vertices, indices, vec![], normals, None);
    assert_eq!(r.err(), Some(ImportError::IndexOutOfRange));
}

#[test]
fn record_with_supplied_normals_uses_them() {
    let rec = MeshRecord {
        name: "m".to_string(),
        positions: vec![0, 0, 0, FX_ONE, 0, 0, 0, FX_ONE, 0],
        indices: vec![0, 1, 2],
        uvs: vec![100, 200, 300, 400, 500, 600],
        normals: vec![0, FX_ONE, 0, 0, FX_ONE, 0, 0, FX_ONE, 0],
        material_id: Some(0),
    };
    let o = Object3D::from_record(&rec).unwrap();
    assert_eq!(o.vertices.len(), 3);
    // the supplied +y normals are used directly, not reconstructed
    assert_eq!(o.vertices[0].v_normal.y, FX_ONE);
    assert_eq!(o.vertices[0].v_normal.z, 0);
    // texture coordinates follow the position index
    assert_eq!(o.vertices[1].v_uv.x, 300);
    assert_eq!(o.vertices[2].v_uv.y, 600);
}

#[test]
fn record_without_normals_reconstructs_them() {
    let rec = MeshRecord {
        name: "m".to_string(),
        positions: vec![0, 0, 0, FX_ONE, 0, 0, 0, FX_ONE, 0],
        indices: vec![0, 1, 2],
        uvs: vec![],
        normals: vec![],
        material_id: None,
    };
    let o = Object3D::from_record(&rec).unwrap();
    assert_eq!(o.vertices[0].v_normal.z, FX_ONE);
    assert_eq!(o.vertices[0].v_normal.x, 0);
}

#[test]
fn empty_record_is_fatal() {
    let rec = MeshRecord {
        name: "empty".to_string(),
        positions: vec![],
        indices: vec![],
        uvs: vec![],
        normals: vec![],
        material_id: None,
    };
    assert_eq!(Object3D::from_record(&rec).err(), Some(ImportError::EmptyMesh));
}

#[test]
fn record_with_bad_index_is_fatal() {
    let rec = MeshRecord {
        name: "m".to_string(),
        positions: vec![0, 0, 0, FX_ONE, 0, 0, 0, FX_ONE, 0],
        indices: vec![0, 1, 3],
        uvs: vec![],
        normals: vec![],
        material_id: None,
    };
    assert_eq!(
        Object3D::from_record(&rec).err(),
        Some(ImportError::IndexOutOfRange)
    );
}

#[test]
fn cube_has_expanded_vertices_and_averaged_corner_normals() {
    let cube = Object3D::new_cube();
    assert_eq!(cube.name, "cube");
    assert_eq!(cube.vertices.len(), 36);
    assert_eq!(cube.material_id, None);
    // Corner (-1,-1,1) is referenced by two front-face triangles, one
    // left-face triangle and one bottom-face triangle, so its accumulated
    // normal is (-1,-1,2) normalized.
    let n = cube.vertices[0].v_normal;
    assert_eq!(n.x, -26755);
    assert_eq!(n.y, -26755);
    assert_eq!(n.z, 53510);
    // every reconstructed normal is unit length within tolerance
    for vx in &cube.vertices {
        let nn = norm_sq(vx.v_normal.x, vx.v_normal.y, vx.v_normal.z);
        assert!((nn - FX_ONE * FX_ONE).abs() <= 7 * FX_ONE, "norm_sq = {}", nn);
        // the normal points into the corner's octant
        assert_eq!(vx.v_normal.x > 0, vx.v_pos.x > 0);
        assert_eq!(vx.v_normal.y > 0, vx.v_pos.y > 0);
        assert_eq!(vx.v_normal.z > 0, vx.v_pos.z > 0);
    }
}

#[test]
fn from_records_imports_in_order_and_stops_at_first_error() {
    let good = MeshRecord {
        name: "a".to_string(),
        positions: vec![0, 0, 0, FX_ONE, 0, 0, 0, FX_ONE, 0],
        indices: vec![0, 1, 2],
        uvs: vec![],
        normals: vec![],
        material_id: None,
    };
    let bad = MeshRecord {
        name: "b".to_string(),
        positions: vec![],
        indices: vec![],
        uvs: vec![],
        normals: vec![],
        material_id: None,
    };
    let objs = Object3D::from_records(&vec![good]).unwrap();
    assert_eq!(objs.len(), 1);
    assert_eq!(objs[0].name, "a");

    let good2 = MeshRecord {
        name: "a".to_string(),
        positions: vec![0, 0, 0, FX_ONE, 0, 0, 0, FX_ONE, 0],
        indices: vec![0, 1, 2],
        uvs: vec![],
        normals: vec![],
        material_id: None,
    };
    let r = Object3D::from_records(&vec![good2, bad]);
    assert_eq!(r.err(), Some(ImportError::EmptyMesh));
}
