//! Scene assembly: the all-or-nothing import with material-index
//! remapping, texture-cache deduplication, and key handling.

use renderer::asset::{Asset, ImportError, MeshRecord, Texture};
use renderer::camera::Camera;
use renderer::fixed::FX_ONE;
use renderer::material::Material;
use renderer::matrix::mat_from_translation;
use renderer::scene::{KeyInput, Scene, KEY_MOVE_STEP};
use renderer::vector::{Vec3, Vec4};

fn v(x: i64, y: i64, z: i64) -> Vec3 {
    Vec3 { x, y, z }
}

fn empty_scene() -> Scene {
    Scene::new(
        Vec4 { x: 0, y: 0, z: 0, w: FX_ONE },
        vec![],
        Camera::new(v(0, 0, 0), v(0, 0, -FX_ONE), v(0, FX_ONE, 0), FX_ONE),
        vec![],
        vec![],
    )
}

fn plain_material(name: &str, diffuse_texture: &str) -> Material {
    Material::new(
        name.to_string(),
        v(FX_ONE, 0, 0),
        v(0, FX_ONE, 0),
        v(0, 0, FX_ONE),
        32 * FX_ONE,
        FX_ONE,
        FX_ONE,
        String::new(),
        diffuse_texture.to_string(),
        String::new(),
        String::new(),
        String::new(),
    )
}

fn triangle_record(name: &str, material_id: Option<usize>) -> MeshRecord {
    MeshRecord {
        name: name.to_string(),
        positions: vec![0, 0, 0, FX_ONE, 0, 0, 0, FX_ONE, 0],
        indices: vec![0, 1, 2],
        uvs: vec![],
        normals: vec![],
        material_id,
    }
}

fn tex(bytes: &[u8]) -> Texture {
    Texture { width: 1, height: 1, pixels: bytes.to_vec() }
}

#[test]
fn material_constructor_homogenizes_colors() {
    let m = plain_material("m", "");
    assert_eq!(m.ambient.w, FX_ONE);
    assert_eq!(m.diffuse.w, FX_ONE);
    assert_eq!(m.specular.w, FX_ONE);
    assert_eq!(m.illumination_model, None);
    assert_eq!(m.name, "m");
}

#[test]
fn import_merge_offsets_material_indices() {
    let mut scene = empty_scene();
    let asset_a = Asset {
        meshes: vec![
            triangle_record("a0", Some(0)),
            triangle_record("a1", Some(2)),
        ],
        materials: vec![
            plain_material("m0", ""),
            plain_material("m1", ""),
            plain_material("m2", ""),
        ],
        textures: vec![],
    };
    scene.import(asset_a).unwrap();
    assert_eq!(scene.materials.len(), 3);
    assert_eq!(scene.objects.len(), 2);
    // first import into an empty scene: indices unchanged, within [0,3)
    assert_eq!(scene.objects[0].material_id, Some(0));
    assert_eq!(scene.objects[1].material_id, Some(2));

    let asset_b = Asset {
        meshes: vec![
            triangle_record("b0", Some(1)),
            triangle_record("b1", None),
        ],
        materials: vec![plain_material("m3", ""), plain_material("m4", "")],
        textures: vec![],
    };
    scene.import(asset_b).unwrap();
    assert_eq!(scene.materials.len(), 5);
    assert_eq!(scene.objects.len(), 4);
    // earlier objects keep their references, within [0,3)
    assert_eq!(scene.objects[0].material_id, Some(0));
    assert_eq!(scene.objects[1].material_id, Some(2));
    // the new object's reference is offset by the pre-append length 3,
    // landing within [3,5)
    assert_eq!(scene.objects[2].material_id, Some(4));
    assert_eq!(scene.objects[3].material_id, None);
    // the material list is the two assets' lists appended in order
    assert_eq!(scene.materials[3].name, "m3");
    assert_eq!(scene.materials[4].name, "m4");
}

#[test]
fn texture_cache_deduplicates_across_imports() {
    let mut scene = empty_scene();
    let asset_a = Asset {
        meshes: vec![triangle_record("a", Some(0))],
        materials: vec![plain_material("m0", "shared.png")],
        textures: vec![("shared.png".to_string(), tex(&[1, 2, 3, 255]))],
    };
    scene.import(asset_a).unwrap();
    assert_eq!(scene.texture_map.len(), 1);

    // a second asset referencing the identical path supplies it again,
    // but the cache keeps exactly one entry for the path
    let asset_b = Asset {
        meshes: vec![triangle_record("b", Some(0))],
        materials: vec![
            plain_material("m1", "shared.png"),
            plain_material("m2", "shared.png"),
        ],
        textures: vec![("shared.png".to_string(), tex(&[9, 9, 9, 255]))],
    };
    scene.import(asset_b).unwrap();
    assert_eq!(scene.texture_map.len(), 1);
    // the first decode won: the cached pixels are the first asset's
    let t = scene.texture_for(&"shared.png".to_string()).unwrap();
    assert_eq!(t.pixels, vec![1, 2, 3, 255]);
}

#[test]
fn unreferenced_supplied_textures_are_dropped() {
    let mut scene = empty_scene();
    let asset = Asset {
        meshes: vec![triangle_record("a", None)],
        materials: vec![plain_material("m0", "used.png")],
        textures: vec![
            ("used.png".to_string(), tex(&[1])),
            ("unused.png".to_string(), tex(&[2])),
        ],
    };
    scene.import(asset).unwrap();
    assert_eq!(scene.texture_map.len(), 1);
    assert!(scene.texture_for(&"used.png".to_string()).is_some());
    assert!(scene.texture_for(&"unused.png".to_string()).is_none());
}

#[test]
fn missing_material_reference_aborts_import() {
    let mut scene = empty_scene();
    let asset = Asset {
        meshes: vec![triangle_record("a", Some(1))],
        materials: vec![plain_material("m0", "")],
        textures: vec![],
    };
    assert_eq!(scene.import(asset), Err(ImportError::MissingMaterial));
    // all-or-nothing: the scene is untouched
    assert_eq!(scene.objects.len(), 0);
    assert_eq!(scene.materials.len(), 0);
}

#[test]
fn missing_texture_aborts_import() {
    let mut scene = empty_scene();
    let asset = Asset {
        meshes: vec![triangle_record("a", Some(0))],
        materials: vec![plain_material("m0", "nowhere.png")],
        textures: vec![],
    };
    assert_eq!(scene.import(asset), Err(ImportError::MissingTexture));
    assert_eq!(scene.texture_map.len(), 0);
    assert_eq!(scene.materials.len(), 0);
}

#[test]
fn malformed_mesh_aborts_import() {
    let mut scene = empty_scene();
    let asset = Asset {
        meshes: vec![MeshRecord {
            name: "broken".to_string(),
            positions: vec![0, 0, 0, FX_ONE, 0, 0, 0, FX_ONE, 0],
            indices: vec![0, 1, 9],
            uvs: vec![],
            normals: vec![],
            material_id: None,
        }],
        materials: vec![],
        textures: vec![],
    };
    assert_eq!(scene.import(asset), Err(ImportError::IndexOutOfRange));
    assert_eq!(scene.objects.len(), 0);

    let empty = Asset {
        meshes: vec![MeshRecord {
            name: "void".to_string(),
            positions: vec![],
            indices: vec![],
            uvs: vec![],
            normals: vec![],
            material_id: None,
        }],
        materials: vec![],
        textures: vec![],
    };
    assert_eq!(scene.import(empty), Err(ImportError::EmptyMesh));
}

#[test]
fn decode_requests_are_deduplicated_and_skip_the_cache() {
    let mut scene = empty_scene();
    assert!(scene.add_texture("cached.png".to_string(), tex(&[7])));
    let materials = vec![
        plain_material("m0", "one.png"),
        plain_material("m1", "cached.png"),
        plain_material("m2", "one.png"),
        plain_material("m3", "two.png"),
        plain_material("m4", ""),
    ];
    // each distinct uncached path is requested once, in reference order
    let requests = scene.texture_paths_to_load(&materials);
    assert_eq!(requests, vec!["one.png".to_string(), "two.png".to_string()]);
}

#[test]
fn add_texture_inserts_each_path_once() {
    let mut scene = empty_scene();
    assert!(scene.add_texture("a.png".to_string(), tex(&[1])));
    assert!(!scene.add_texture("a.png".to_string(), tex(&[2])));
    assert!(scene.add_texture("b.png".to_string(), tex(&[3])));
    assert_eq!(scene.texture_map.len(), 2);
    assert_eq!(scene.texture_for(&"a.png".to_string()).unwrap().pixels, vec![1]);
}

#[test]
fn key_presses_move_the_camera_and_spin_the_second_object() {
    let mut scene = empty_scene();
    scene.handle_key(KeyInput::Up);
    assert_eq!(scene.camera.view, mat_from_translation(v(0, 0, KEY_MOVE_STEP)));
    scene.handle_key(KeyInput::Down);
    // moving back undoes the move exactly
    assert_eq!(scene.camera.view, mat_from_translation(v(0, 0, 0)));

    // with two objects, moving forward also spins the second one
    let asset = Asset {
        meshes: vec![triangle_record("a", None), triangle_record("b", None)],
        materials: vec![],
        textures: vec![],
    };
    scene.import(asset).unwrap();
    let before = scene.objects[1].rotation;
    scene.handle_key(KeyInput::Up);
    assert_ne!(scene.objects[1].rotation, before);
    // the first object is untouched
    assert_eq!(scene.objects[0].rotation, before);
}

#[test]
fn yaw_keys_rotate_the_view() {
    let mut scene = empty_scene();
    let before = scene.camera.view;
    scene.handle_key(KeyInput::YawRight);
    assert_ne!(scene.camera.view, before);
    scene.handle_key(KeyInput::Left);
    scene.handle_key(KeyInput::Right);
    // left then right cancel in the translation part they add
    let mut reference = empty_scene();
    reference.handle_key(KeyInput::YawRight);
    reference.handle_key(KeyInput::Left);
    reference.handle_key(KeyInput::Right);
    assert_eq!(scene.camera.view, reference.camera.view);
}
