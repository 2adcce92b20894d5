//! The scene aggregate: objects, camera, lights, the deduplicated material
//! list and the texture cache, with the all-or-nothing asset import.
//!
//! `import` merges one decoded asset into the scene: it validates every
//! record, populates the texture cache exactly once per distinct referenced
//! path, offsets every imported object's material reference by the number
//! of materials the scene held before the append, and only then appends
//! materials and objects. The offset-then-append order is what keeps the
//! invariant "every object's material reference is a valid offset into the
//! scene's materials".

use vstd::prelude::*;

use crate::asset::{Asset, ImportError, MeshRecord, Texture};
use crate::camera::Camera;
use crate::entity::Entity3D;
use crate::fixed::FX_ONE;
use crate::light_source::LightSource;
use crate::material::{material_paths, material_refs_path, path_referenced, Material};
use crate::matrix::spec_mat_identity;
use crate::object::{
    object_matches_record, recs_error, spec_record_vertices, Object3D,
};
use crate::vector::{v3_zero, Vec3, Vec4};

verus! {

/// Whether the cache holds an entry keyed by `path`.
pub open spec fn cache_has(tm: Seq<(String, Texture)>, path: Seq<char>) -> bool {
    exists|i: int| 0 <= i < tm.len() && (#[trigger] tm[i]).0@ == path
}

/// Whether no two cache entries share a key.
pub open spec fn cache_keys_unique(tm: Seq<(String, Texture)>) -> bool {
    forall|i: int, j: int| 0 <= i < j < tm.len() ==> (#[trigger] tm[i]).0@ != (#[trigger] tm[j]).0@
}

/// One step of cache population: a supplied texture enters the cache only
/// if some material references its path and the path is not cached yet.
pub open spec fn cache_step(
    tm: Seq<(String, Texture)>,
    mats: Seq<Material>,
    e: (String, Texture),
) -> Seq<(String, Texture)> {
    if path_referenced(mats, e.0@) && !cache_has(tm, e.0@) {
        tm.push(e)
    } else {
        tm
    }
}

/// The cache after considering every supplied texture, last first.
pub open spec fn cache_add_all(
    tm: Seq<(String, Texture)>,
    mats: Seq<Material>,
    sup: Seq<(String, Texture)>,
) -> Seq<(String, Texture)>
    decreases sup.len(),
{
    if sup.len() == 0 {
        tm
    } else {
        cache_add_all(cache_step(tm, mats, sup.last()), mats, sup.drop_last())
    }
}

/// Whether every path the materials reference is covered by the cache or
/// by the supplied textures.
pub open spec fn materials_textures_available(
    tm: Seq<(String, Texture)>,
    mats: Seq<Material>,
    sup: Seq<(String, Texture)>,
) -> bool {
    forall|p: Seq<char>|
        #[trigger] path_referenced(mats, p) ==> cache_has(tm, p) || cache_has(sup, p)
}

/// Whether every path the materials reference is a key of the cache.
pub open spec fn materials_textures_resolved(
    tm: Seq<(String, Texture)>,
    mats: Seq<Material>,
) -> bool {
    forall|p: Seq<char>| #[trigger] path_referenced(mats, p) ==> cache_has(tm, p)
}

/// A key is in the populated cache exactly when it was cached before or is
/// a referenced path among the supplied textures.
pub proof fn lemma_cache_add_all_keys(
    tm: Seq<(String, Texture)>,
    mats: Seq<Material>,
    sup: Seq<(String, Texture)>,
)
    ensures
        forall|p: Seq<char>|
            #[trigger] cache_has(cache_add_all(tm, mats, sup), p) <==> (cache_has(tm, p) || (
            path_referenced(mats, p) && cache_has(sup, p))),
    decreases sup.len(),
{
    if sup.len() == 0 {
        assert forall|p: Seq<char>| !cache_has(sup, p) by {}
    } else {
        let e = sup.last();
        let tm2 = cache_step(tm, mats, e);
        let result = cache_add_all(tm, mats, sup);
        assert(result == cache_add_all(tm2, mats, sup.drop_last()));
        lemma_cache_add_all_keys(tm2, mats, sup.drop_last());
        assert forall|p: Seq<char>|
            #[trigger] cache_has(tm2, p) <==> (cache_has(tm, p) || (path_referenced(mats, p)
                && p == e.0@)) by {
            if cache_has(tm, p) {
                let i = choose|i: int| 0 <= i < tm.len() && tm[i].0@ == p;
                assert(tm2[i].0@ == p);
            }
            if path_referenced(mats, e.0@) && !cache_has(tm, e.0@) {
                assert(tm2[tm.len() as int].0@ == e.0@);
                if cache_has(tm2, p) && p != e.0@ {
                    let i = choose|i: int| 0 <= i < tm2.len() && tm2[i].0@ == p;
                    assert(tm[i].0@ == p);
                }
            }
        }
        assert forall|p: Seq<char>|
            #[trigger] cache_has(sup, p) <==> (cache_has(sup.drop_last(), p) || p == e.0@) by {
            if cache_has(sup, p) {
                let i = choose|i: int| 0 <= i < sup.len() && sup[i].0@ == p;
                if i < sup.len() - 1 {
                    assert(sup.drop_last()[i].0@ == p);
                }
            }
            if cache_has(sup.drop_last(), p) {
                let i = choose|i: int| 0 <= i < sup.drop_last().len() && sup.drop_last()[i].0@ == p;
                assert(sup[i].0@ == p);
            }
            if p == e.0@ {
                assert(sup[sup.len() - 1].0@ == p);
            }
        }
        assert forall|p: Seq<char>|
            #[trigger] cache_has(result, p) <==> (cache_has(tm, p) || (path_referenced(mats, p)
                && cache_has(sup, p))) by {
            assert(cache_has(result, p) <==> (cache_has(tm2, p) || (path_referenced(mats, p)
                && cache_has(sup.drop_last(), p))));
            assert(cache_has(tm2, p) <==> (cache_has(tm, p) || (path_referenced(mats, p) && p
                == e.0@)));
            assert(cache_has(sup, p) <==> (cache_has(sup.drop_last(), p) || p == e.0@));
        }
    }
}

/// Cache population keeps keys unique.
pub proof fn lemma_cache_add_all_unique(
    tm: Seq<(String, Texture)>,
    mats: Seq<Material>,
    sup: Seq<(String, Texture)>,
)
    requires
        cache_keys_unique(tm),
    ensures
        cache_keys_unique(cache_add_all(tm, mats, sup)),
    decreases sup.len(),
{
    if sup.len() > 0 {
        let e = sup.last();
        let tm2 = cache_step(tm, mats, e);
        assert(cache_keys_unique(tm2)) by {
            if path_referenced(mats, e.0@) && !cache_has(tm, e.0@) {
                assert forall|i: int, j: int| 0 <= i < j < tm2.len() implies (#[trigger] tm2[i]).0@
                    != (#[trigger] tm2[j]).0@ by {
                    if j == tm.len() as int {
                        assert(!(tm[i].0@ == e.0@));
                    }
                }
            }
        }
        lemma_cache_add_all_unique(tm2, mats, sup.drop_last());
    }
}

/// The views of a list of strings.
pub open spec fn strings_view(ss: Seq<String>) -> Seq<Seq<char>> {
    ss.map_values(|s: String| s@)
}

/// One step of assembling the decode-request list: a slot path is added
/// only if it is nonempty, not cached and not already requested.
pub open spec fn ptl_step(
    tm: Seq<(String, Texture)>,
    acc: Seq<Seq<char>>,
    p: Seq<char>,
) -> Seq<Seq<char>> {
    if p.len() > 0 && !cache_has(tm, p) && !acc.contains(p) {
        acc.push(p)
    } else {
        acc
    }
}

/// The decode-request list for a sequence of slot paths, in first-reference
/// order, once per distinct path.
pub open spec fn paths_to_load(tm: Seq<(String, Texture)>, paths: Seq<Seq<char>>) -> Seq<Seq<char>>
    decreases paths.len(),
{
    if paths.len() == 0 {
        Seq::empty()
    } else {
        ptl_step(tm, paths_to_load(tm, paths.drop_last()), paths.last())
    }
}

/// The slot paths of a material list, flattened in material order.
pub open spec fn materials_all_paths(mats: Seq<Material>) -> Seq<Seq<char>>
    decreases mats.len(),
{
    if mats.len() == 0 {
        Seq::empty()
    } else {
        materials_all_paths(mats.drop_last()) + material_paths(mats.last())
    }
}

/// Whether every texture slot of `m` is empty, cached or supplied.
pub open spec fn material_available(
    tm: Seq<(String, Texture)>,
    sup: Seq<(String, Texture)>,
    m: Material,
) -> bool {
    forall|j: int|
        0 <= j < 5 && (#[trigger] material_paths(m)[j]).len() > 0 ==> cache_has(
            tm,
            material_paths(m)[j],
        ) || cache_has(sup, material_paths(m)[j])
}

proof fn lemma_all_materials_available(
    tm: Seq<(String, Texture)>,
    mats: Seq<Material>,
    sup: Seq<(String, Texture)>,
)
    requires
        forall|i: int| 0 <= i < mats.len() ==> material_available(tm, sup, #[trigger] mats[i]),
    ensures
        materials_textures_available(tm, mats, sup),
{
    assert forall|p: Seq<char>| #[trigger] path_referenced(mats, p) implies cache_has(tm, p)
        || cache_has(sup, p) by {
        let i = choose|i: int| 0 <= i < mats.len() && material_refs_path(#[trigger] mats[i], p);
        let j = choose|j: int| 0 <= j < 5 && material_paths(mats[i])[j] == p;
        assert(material_available(tm, sup, mats[i]));
        assert((material_paths(mats[i])[j]).len() > 0);
    }
}

/// Whether every mesh record's material reference points into an asset
/// with `n` materials.
pub open spec fn meshes_materials_valid(recs: Seq<MeshRecord>, n: int) -> bool {
    forall|i: int|
        0 <= i < recs.len() ==> ((#[trigger] recs[i]).material_id is Some
            ==> recs[i].material_id->Some_0 < n)
}

/// The error an import of `asset` into `s` reports, if any: malformed
/// meshes are found first, then dangling material references, then missing
/// textures.
pub open spec fn import_error(s: Scene, asset: Asset) -> Option<ImportError> {
    if recs_error(asset.meshes@) is Some {
        recs_error(asset.meshes@)
    } else if !meshes_materials_valid(asset.meshes@, asset.materials@.len() as int) {
        Some(ImportError::MissingMaterial)
    } else if !materials_textures_available(s.texture_map@, asset.materials@, asset.textures@) {
        Some(ImportError::MissingTexture)
    } else {
        None
    }
}

/// An imported object with its material reference offset by the size the
/// scene's material list had before the append.
pub open spec fn object_matches_record_offset(o: Object3D, rec: MeshRecord, off: int) -> bool {
    &&& o.name@ == rec.name@
    &&& o.vertices@ == spec_record_vertices(rec)
    &&& (rec.material_id is Some ==> o.material_id == Some(
        ((rec.material_id->Some_0) + off) as usize,
    ))
    &&& (rec.material_id is None ==> o.material_id is None)
    &&& o.translation == v3_zero()
    &&& o.rotation == spec_mat_identity()
    &&& o.scale == FX_ONE
}

/// Whether every object's material reference (if any) is a valid offset
/// into a material list of length `n`.
pub open spec fn objects_reference_valid(objs: Seq<Object3D>, n: int) -> bool {
    forall|i: int|
        0 <= i < objs.len() ==> ((#[trigger] objs[i]).material_id is Some
            ==> objs[i].material_id->Some_0 < n)
}

/// The movement keys the frame loop forwards to the scene.
#[derive(Clone, Copy, PartialEq, Eq, Structural, Debug)]
pub enum KeyInput {
    Up,
    Down,
    Left,
    Right,
    YawRight,
    YawLeft,
}

/// The camera movement step of one key press (0.25).
pub const KEY_MOVE_STEP: i64 = 16384;

/// The rotation step of one key press (5 degrees, in fixed-point radians).
pub const KEY_TURN_STEP: i64 = 5720;

/// The world-space up axis the key rotations turn about.
pub open spec fn y_axis() -> Vec3 {
    Vec3 { x: 0, y: FX_ONE, z: 0 }
}

/// The camera state after one key press.
pub open spec fn spec_key_camera(c: Camera, key: KeyInput) -> Camera {
    match key {
        KeyInput::Up => c.spec_translated(0, 0, KEY_MOVE_STEP),
        KeyInput::Down => c.spec_translated(0, 0, (-KEY_MOVE_STEP) as i64),
        KeyInput::Left => c.spec_translated(KEY_MOVE_STEP, 0, 0),
        KeyInput::Right => c.spec_translated((-KEY_MOVE_STEP) as i64, 0, 0),
        KeyInput::YawRight => c.spec_rotated(y_axis(), KEY_TURN_STEP),
        KeyInput::YawLeft => c.spec_rotated(y_axis(), (-KEY_TURN_STEP) as i64),
    }
}

/// The object list after one key press: moving forward also spins the
/// second object, when there is one.
pub open spec fn spec_key_objects(objs: Seq<Object3D>, key: KeyInput) -> Seq<Object3D> {
    if key is Up && objs.len() > 1 {
        objs.update(1, objs[1].spec_rotated(y_axis(), KEY_TURN_STEP))
    } else {
        objs
    }
}

/// The scene: ordered objects, the camera, ordered lights, the material
/// list and the texture cache keyed by source path.
#[derive(Debug)]
pub struct Scene {
    pub clear_color: Vec4,
    pub objects: Vec<Object3D>,
    pub camera: Camera,
    pub light_sources: Vec<LightSource>,
    pub materials: Vec<Material>,
    pub texture_map: Vec<(String, Texture)>,
}

fn cache_contains(tm: &Vec<(String, Texture)>, path: &String) -> (r: bool)
    ensures
        r == cache_has(tm@, path@),
{
    let mut i: usize = 0;
    while i < tm.len()
        invariant
            i <= tm@.len(),
            forall|j: int| 0 <= j < i ==> (#[trigger] tm@[j]).0@ != path@,
        decreases tm@.len() - i,
    {
        let e = &tm[i];
        if e.0 == *path {
            return true;
        }
        i = i + 1;
    }
    false
}

fn list_contains_string(v: &Vec<String>, s: &String) -> (r: bool)
    ensures
        r == strings_view(v@).contains(s@),
{
    let mut i: usize = 0;
    while i < v.len()
        invariant
            i <= v@.len(),
            forall|j: int| 0 <= j < i ==> (#[trigger] v@[j])@ != s@,
        decreases v@.len() - i,
    {
        if v[i] == *s {
            proof {
                assert(strings_view(v@)[i as int] == s@);
            }
            return true;
        }
        i = i + 1;
    }
    proof {
        if strings_view(v@).contains(s@) {
            let w = choose|w: int| 0 <= w < strings_view(v@).len() && strings_view(v@)[w] == s@;
            assert(v@[w]@ == s@);
        }
    }
    false
}

fn maybe_add(out: &mut Vec<String>, tm: &Vec<(String, Texture)>, s: &String)
    ensures
        strings_view(final(out)@) == ptl_step(tm@, strings_view(old(out)@), s@),
{
    if !s.as_str().is_empty() && !cache_contains(tm, s) && !list_contains_string(out, s) {
        out.push(s.clone());
        proof {
            assert(strings_view(out@) =~= strings_view(old(out)@).push(s@));
        }
    } else {
        proof {
            assert(strings_view(out@) == strings_view(old(out)@));
        }
    }
}

fn material_references(m: &Material, path: &String) -> (r: bool)
    ensures
        r == material_refs_path(*m, path@),
{
    if path.as_str().is_empty() {
        return false;
    }
    let r = m.ambient_texture == *path || m.diffuse_texture == *path || m.specular_texture
        == *path || m.normal_texture == *path || m.dissolve_texture == *path;
    proof {
        if r {
            if m.ambient_texture@ == path@ {
                assert(material_paths(*m)[0] == path@);
            } else if m.diffuse_texture@ == path@ {
                assert(material_paths(*m)[1] == path@);
            } else if m.specular_texture@ == path@ {
                assert(material_paths(*m)[2] == path@);
            } else if m.normal_texture@ == path@ {
                assert(material_paths(*m)[3] == path@);
            } else {
                assert(material_paths(*m)[4] == path@);
            }
        } else {
            assert forall|j: int| 0 <= j < 5 implies material_paths(*m)[j] != path@ by {
                if j == 0 {
                } else if j == 1 {
                } else if j == 2 {
                } else if j == 3 {
                } else {
                    assert(material_paths(*m)[4] == m.dissolve_texture@);
                }
            }
        }
    }
    r
}

fn is_path_referenced(mats: &Vec<Material>, path: &String) -> (r: bool)
    ensures
        r == path_referenced(mats@, path@),
{
    let mut i: usize = 0;
    while i < mats.len()
        invariant
            i <= mats@.len(),
            forall|j: int| 0 <= j < i ==> !material_refs_path(#[trigger] mats@[j], path@),
        decreases mats@.len() - i,
    {
        if material_references(&mats[i], path) {
            return true;
        }
        i = i + 1;
    }
    false
}

fn slot_available(
    tm: &Vec<(String, Texture)>,
    sup: &Vec<(String, Texture)>,
    s: &String,
) -> (r: bool)
    ensures
        r == (s@.len() == 0 || cache_has(tm@, s@) || cache_has(sup@, s@)),
{
    if s.as_str().is_empty() {
        true
    } else if cache_contains(tm, s) {
        true
    } else {
        cache_contains(sup, s)
    }
}

fn material_available_exec(
    tm: &Vec<(String, Texture)>,
    sup: &Vec<(String, Texture)>,
    m: &Material,
) -> (r: bool)
    ensures
        r == material_available(tm@, sup@, *m),
{
    let r = slot_available(tm, sup, &m.ambient_texture) && slot_available(
        tm,
        sup,
        &m.diffuse_texture,
    ) && slot_available(tm, sup, &m.specular_texture) && slot_available(tm, sup, &m.normal_texture)
        && slot_available(tm, sup, &m.dissolve_texture);
    proof {
        if r {
            assert forall|j: int|
                0 <= j < 5 && (#[trigger] material_paths(*m)[j]).len() > 0 implies cache_has(
                tm@,
                material_paths(*m)[j],
            ) || cache_has(sup@, material_paths(*m)[j]) by {
                if j == 0 {
                } else if j == 1 {
                } else if j == 2 {
                } else if j == 3 {
                } else {
                    assert(material_paths(*m)[4] == m.dissolve_texture@);
                }
            }
        } else {
            if s_not_ok(tm@, sup@, m.ambient_texture@) {
                assert(material_paths(*m)[0] == m.ambient_texture@);
            } else if s_not_ok(tm@, sup@, m.diffuse_texture@) {
                assert(material_paths(*m)[1] == m.diffuse_texture@);
            } else if s_not_ok(tm@, sup@, m.specular_texture@) {
                assert(material_paths(*m)[2] == m.specular_texture@);
            } else if s_not_ok(tm@, sup@, m.normal_texture@) {
                assert(material_paths(*m)[3] == m.normal_texture@);
            } else {
                assert(material_paths(*m)[4] == m.dissolve_texture@);
            }
        }
    }
    r
}

/// Whether a slot path blocks an import: nonempty and neither cached nor
/// supplied.
spec fn s_not_ok(tm: Seq<(String, Texture)>, sup: Seq<(String, Texture)>, p: Seq<char>) -> bool {
    p.len() > 0 && !cache_has(tm, p) && !cache_has(sup, p)
}

impl Scene {
    /// The structural invariant of a scene: every object's material
    /// reference is a valid offset into the material list, and the texture
    /// cache has no duplicate keys.
    pub open spec fn well_formed(self) -> bool {
        objects_reference_valid(self.objects@, self.materials@.len() as int) && cache_keys_unique(
            self.texture_map@,
        )
    }

    /// A scene from its parts, with an empty texture cache. Every object
    /// must already reference a valid material.
    pub fn new(
        clear_color: Vec4,
        objects: Vec<Object3D>,
        camera: Camera,
        light_sources: Vec<LightSource>,
        materials: Vec<Material>,
    ) -> (r: Scene)
        requires
            objects_reference_valid(objects@, materials@.len() as int),
        ensures
            r.clear_color == clear_color,
            r.objects == objects,
            r.camera == camera,
            r.light_sources == light_sources,
            r.materials == materials,
            r.texture_map@ == Seq::<(String, Texture)>::empty(),
            r.well_formed(),
    {
        let r = Scene {
            clear_color,
            objects,
            camera,
            light_sources,
            materials,
            texture_map: Vec::new(),
        };
        proof {
            assert(r.texture_map@ =~= Seq::<(String, Texture)>::empty());
        }
        r
    }

    /// The texture paths an asset's materials need decoded before import:
    /// every nonempty slot path not yet cached, in first-reference order,
    /// once per distinct path. This is the request the scene hands the
    /// external texture collaborator, so each distinct path is decoded
    /// exactly once however many materials reference it.
    pub fn texture_paths_to_load(&self, materials: &Vec<Material>) -> (r: Vec<String>)
        ensures
            strings_view(r@) == paths_to_load(
                self.texture_map@,
                materials_all_paths(materials@),
            ),
    {
        let mut out: Vec<String> = Vec::new();
        proof {
            assert(materials@.subrange(0, 0) =~= Seq::<Material>::empty());
            assert(strings_view(out@) =~= Seq::<Seq<char>>::empty());
        }
        let mut i: usize = 0;
        while i < materials.len()
            invariant
                i <= materials@.len(),
                strings_view(out@) == paths_to_load(
                    self.texture_map@,
                    materials_all_paths(materials@.subrange(0, i as int)),
                ),
            decreases materials@.len() - i,
        {
            let ghost prefix_paths = materials_all_paths(materials@.subrange(0, i as int));
            let m = &materials[i];
            maybe_add(&mut out, &self.texture_map, &m.ambient_texture);
            maybe_add(&mut out, &self.texture_map, &m.diffuse_texture);
            maybe_add(&mut out, &self.texture_map, &m.specular_texture);
            maybe_add(&mut out, &self.texture_map, &m.normal_texture);
            maybe_add(&mut out, &self.texture_map, &m.dissolve_texture);
            proof {
                let tm = self.texture_map@;
                let p = material_paths(*m);
                let a0 = paths_to_load(tm, prefix_paths);
                let a1 = ptl_step(tm, a0, p[0]);
                let a2 = ptl_step(tm, a1, p[1]);
                let a3 = ptl_step(tm, a2, p[2]);
                let a4 = ptl_step(tm, a3, p[3]);
                let a5 = ptl_step(tm, a4, p[4]);
                assert(strings_view(out@) == a5);
                let c1 = prefix_paths.push(p[0]);
                let c2 = c1.push(p[1]);
                let c3 = c2.push(p[2]);
                let c4 = c3.push(p[3]);
                let c5 = c4.push(p[4]);
                assert(c1.drop_last() =~= prefix_paths);
                assert(paths_to_load(tm, c1) == a1);
                assert(c2.drop_last() =~= c1);
                assert(paths_to_load(tm, c2) == a2);
                assert(c3.drop_last() =~= c2);
                assert(paths_to_load(tm, c3) == a3);
                assert(c4.drop_last() =~= c3);
                assert(paths_to_load(tm, c4) == a4);
                assert(c5.drop_last() =~= c4);
                assert(paths_to_load(tm, c5) == a5);
                let next = materials@.subrange(0, i as int + 1);
                assert(next.drop_last() =~= materials@.subrange(0, i as int));
                assert(next.last() == materials@[i as int]);
                assert(materials_all_paths(next) == prefix_paths + p);
                assert(prefix_paths + p =~= c5);
            }
            i = i + 1;
        }
        proof {
            assert(materials@.subrange(0, materials@.len() as int) =~= materials@);
        }
        out
    }

    /// The cached texture for a path, if any.
    pub fn texture_for(&self, path: &String) -> (r: Option<&Texture>)
        ensures
            (r is Some) == cache_has(self.texture_map@, path@),
            r is Some ==> exists|i: int|
                0 <= i < self.texture_map@.len() && (#[trigger] self.texture_map@[i]).0@ == path@
                    && *r->Some_0 == self.texture_map@[i].1,
    {
        let mut i: usize = 0;
        while i < self.texture_map.len()
            invariant
                i <= self.texture_map@.len(),
                forall|j: int| 0 <= j < i ==> (#[trigger] self.texture_map@[j]).0@ != path@,
            decreases self.texture_map@.len() - i,
        {
            let e = &self.texture_map[i];
            if e.0 == *path {
                return Some(&e.1);
            }
            i = i + 1;
        }
        None
    }

    /// Inserts a decoded texture under its source path unless the path is
    /// already cached; returns whether it was inserted. Deduplication
    /// across materials and repeated imports happens here.
    pub fn add_texture(&mut self, path: String, texture: Texture) -> (r: bool)
        ensures
            r == !cache_has(old(self).texture_map@, path@),
            r ==> final(self).texture_map@ == old(self).texture_map@.push((path, texture)),
            !r ==> final(self).texture_map@ == old(self).texture_map@,
            cache_keys_unique(old(self).texture_map@) ==> cache_keys_unique(
                final(self).texture_map@,
            ),
            final(self).objects == old(self).objects,
            final(self).camera == old(self).camera,
            final(self).light_sources == old(self).light_sources,
            final(self).materials == old(self).materials,
            final(self).clear_color == old(self).clear_color,
    {
        if cache_contains(&self.texture_map, &path) {
            false
        } else {
            proof {
                let tm = self.texture_map@;
                if cache_keys_unique(tm) {
                    assert forall|i: int, j: int|
                        0 <= i < j < tm.push((path, texture)).len() implies (#[trigger] tm.push(
                        (path, texture),
                    )[i]).0@ != (#[trigger] tm.push((path, texture))[j]).0@ by {
                        if j == tm.len() as int {
                            assert(tm[i].0@ != path@);
                        }
                    }
                }
            }
            self.texture_map.push((path, texture));
            true
        }
    }

    /// Merges one decoded asset into the scene, all or nothing.
    ///
    /// On success the asset's referenced textures enter the cache exactly
    /// once per distinct path, every imported object's material reference
    /// is offset by the pre-append length of the scene's material list,
    /// and the asset's materials and objects are appended in order. On any
    /// error the scene is unchanged.
    pub fn import(&mut self, asset: Asset) -> (r: Result<(), ImportError>)
        requires
            old(self).materials@.len() + asset.materials@.len() <= usize::MAX,
        ensures
            (r is Ok) == (import_error(*old(self), asset) is None),
            r is Err ==> Some(r->Err_0) == import_error(*old(self), asset) && *final(self) == *old(
                self,
            ),
            r is Ok ==> final(self).materials@ == old(self).materials@ + asset.materials@,
            r is Ok ==> final(self).objects@.len() == old(self).objects@.len()
                + asset.meshes@.len(),
            r is Ok ==> forall|i: int|
                0 <= i < old(self).objects@.len() ==> final(self).objects@[i] == old(
                    self,
                ).objects@[i],
            r is Ok ==> forall|j: int|
                0 <= j < asset.meshes@.len() ==> object_matches_record_offset(
                    #[trigger] final(self).objects@[old(self).objects@.len() + j],
                    asset.meshes@[j],
                    old(self).materials@.len() as int,
                ),
            r is Ok ==> final(self).texture_map@ == cache_add_all(
                old(self).texture_map@,
                asset.materials@,
                asset.textures@,
            ),
            r is Ok ==> forall|p: Seq<char>|
                #[trigger] cache_has(final(self).texture_map@, p) <==> (cache_has(
                    old(self).texture_map@,
                    p,
                ) || (path_referenced(asset.materials@, p) && cache_has(asset.textures@, p))),
            r is Ok ==> materials_textures_resolved(final(self).texture_map@, asset.materials@),
            final(self).camera == old(self).camera,
            final(self).light_sources == old(self).light_sources,
            final(self).clear_color == old(self).clear_color,
            old(self).well_formed() ==> final(self).well_formed(),
    {
        let Asset { meshes, mut materials, mut textures } = asset;
        let mut objects: Vec<Object3D> = match Object3D::from_records(&meshes) {
            Ok(o) => o,
            Err(e) => {
                return Err(e);
            },
        };
        let n_mats: usize = materials.len();
        let mut i: usize = 0;
        while i < meshes.len()
            invariant
                i <= meshes@.len(),
                n_mats == materials@.len(),
                *self == *old(self),
                meshes@ == asset.meshes@,
                materials@ == asset.materials@,
                textures@ == asset.textures@,
                recs_error(meshes@) is None,
                forall|j: int|
                    0 <= j < i ==> ((#[trigger] meshes@[j]).material_id is Some
                        ==> meshes@[j].material_id->Some_0 < n_mats as int),
            decreases meshes@.len() - i,
        {
            if let Some(m) = meshes[i].material_id {
                if m >= n_mats {
                    return Err(ImportError::MissingMaterial);
                }
            }
            i = i + 1;
        }
        let mut i2: usize = 0;
        while i2 < materials.len()
            invariant
                i2 <= materials@.len(),
                *self == *old(self),
                meshes@ == asset.meshes@,
                materials@ == asset.materials@,
                textures@ == asset.textures@,
                recs_error(meshes@) is None,
                meshes_materials_valid(meshes@, materials@.len() as int),
                forall|j: int|
                    0 <= j < i2 ==> material_available(
                        self.texture_map@,
                        textures@,
                        #[trigger] materials@[j],
                    ),
            decreases materials@.len() - i2,
        {
            if !material_available_exec(&self.texture_map, &textures, &materials[i2]) {
                proof {
                    let m = materials@[i2 as int];
                    let j = choose|j: int|
                        0 <= j < 5 && (material_paths(m)[j]).len() > 0 && !cache_has(
                            self.texture_map@,
                            material_paths(m)[j],
                        ) && !cache_has(textures@, material_paths(m)[j]);
                    let p = material_paths(m)[j];
                    assert(material_refs_path(m, p));
                    assert(path_referenced(materials@, p));
                }
                return Err(ImportError::MissingTexture);
            }
            i2 = i2 + 1;
        }
        proof {
            lemma_all_materials_available(self.texture_map@, materials@, textures@);
            lemma_cache_add_all_keys(self.texture_map@, materials@, textures@);
            if old(self).well_formed() {
                lemma_cache_add_all_unique(self.texture_map@, materials@, textures@);
            }
        }
        let ghost tm0 = self.texture_map@;
        let ghost sup0 = textures@;
        while textures.len() > 0
            invariant
                cache_add_all(self.texture_map@, materials@, textures@) == cache_add_all(
                    tm0,
                    materials@,
                    sup0,
                ),
                materials@ == asset.materials@,
                self.objects == old(self).objects,
                self.camera == old(self).camera,
                self.light_sources == old(self).light_sources,
                self.materials == old(self).materials,
                self.clear_color == old(self).clear_color,
            decreases textures@.len(),
        {
            let ghost tm_before = self.texture_map@;
            let ghost sup_before = textures@;
            let e = match textures.pop() {
                Some(e) => e,
                None => {
                    proof {
                        assert(false);
                    }
                    vstd::pervasive::unreached()
                },
            };
            let needed = is_path_referenced(&materials, &e.0);
            if needed && !cache_contains(&self.texture_map, &e.0) {
                self.texture_map.push(e);
            }
            proof {
                assert(self.texture_map@ == cache_step(tm_before, materials@, sup_before.last()));
                assert(textures@ == sup_before.drop_last());
            }
        }
        proof {
            assert(textures@.len() == 0);
            assert(self.texture_map@ == cache_add_all(tm0, materials@, sup0));
        }
        let offset: usize = self.materials.len();
        let ghost objs0 = objects@;
        proof {
            assert forall|j: int| 0 <= j < objs0.len() implies ((#[trigger] objs0[j]).material_id
                is Some ==> objs0[j].material_id->Some_0 < n_mats as int) by {
                assert(object_matches_record(objs0[j], meshes@[j]));
            }
        }
        let mut remapped: Vec<Object3D> = Vec::new();
        while objects.len() > 0
            invariant
                remapped@.len() + objects@.len() == objs0.len(),
                objects@ == objs0.skip(remapped@.len() as int),
                offset == old(self).materials@.len(),
                offset + n_mats <= usize::MAX,
                forall|j: int|
                    0 <= j < objs0.len() ==> ((#[trigger] objs0[j]).material_id is Some
                        ==> objs0[j].material_id->Some_0 < n_mats as int),
                forall|j: int|
                    0 <= j < remapped@.len() ==> #[trigger] remapped@[j] == spec_remap_object(
                        objs0[j],
                        offset as int,
                    ),
            decreases objects@.len(),
        {
            let mut o = objects.remove(0);
            proof {
                assert(o == objs0[remapped@.len() as int]);
            }
            if let Some(m) = o.material_id {
                o.material_id = Some(m + offset);
            }
            remapped.push(o);
            proof {
                assert(objects@ =~= objs0.skip(remapped@.len() as int));
            }
        }
        self.materials.append(&mut materials);
        self.objects.append(&mut remapped);
        proof {
            assert(meshes@ == asset.meshes@);
            assert forall|j: int| 0 <= j < asset.meshes@.len() implies object_matches_record_offset(
                #[trigger] self.objects@[old(self).objects@.len() + j],
                asset.meshes@[j],
                old(self).materials@.len() as int,
            ) by {
                assert(self.objects@[old(self).objects@.len() + j] == spec_remap_object(
                    objs0[j],
                    offset as int,
                ));
                assert(object_matches_record(objs0[j], meshes@[j]));
            }
            if old(self).well_formed() {
                assert forall|i3: int| 0 <= i3 < self.objects@.len() implies ((
                #[trigger] self.objects@[i3]).material_id is Some ==> self.objects@[i3].material_id->Some_0
                    < self.materials@.len() as int) by {
                    if i3 < old(self).objects@.len() {
                        assert(self.objects@[i3] == old(self).objects@[i3]);
                    } else {
                        assert(self.objects@[i3] == spec_remap_object(
                            objs0[i3 - old(self).objects@.len()],
                            offset as int,
                        ));
                    }
                }
            }
        }
        Ok(())
    }

    /// One key press applied to the scene: arrow keys move the camera in
    /// view space (moving forward also spins the second object, when there
    /// is one), yaw keys turn the camera about the up axis.
    pub fn handle_key(&mut self, key: KeyInput)
        ensures
            final(self).camera == spec_key_camera(old(self).camera, key),
            final(self).objects@ == spec_key_objects(old(self).objects@, key),
            final(self).light_sources == old(self).light_sources,
            final(self).materials == old(self).materials,
            final(self).texture_map == old(self).texture_map,
            final(self).clear_color == old(self).clear_color,
    {
        match key {
            KeyInput::Up => {
                self.camera.translate(0, 0, KEY_MOVE_STEP);
                if self.objects.len() > 1 {
                    let mut o = self.objects.remove(1);
                    o.rotate(Vec3 { x: 0, y: FX_ONE, z: 0 }, KEY_TURN_STEP);
                    self.objects.insert(1, o);
                    proof {
                        assert(self.objects@ =~= spec_key_objects(old(self).objects@, key));
                    }
                }
            },
            KeyInput::Down => {
                self.camera.translate(0, 0, -KEY_MOVE_STEP);
            },
            KeyInput::Left => {
                self.camera.translate(KEY_MOVE_STEP, 0, 0);
            },
            KeyInput::Right => {
                self.camera.translate(-KEY_MOVE_STEP, 0, 0);
            },
            KeyInput::YawRight => {
                self.camera.rotate(Vec3 { x: 0, y: FX_ONE, z: 0 }, KEY_TURN_STEP);
            },
            KeyInput::YawLeft => {
                self.camera.rotate(Vec3 { x: 0, y: FX_ONE, z: 0 }, -KEY_TURN_STEP);
            },
        }
    }
}

/// An object with its material reference shifted by `off`.
pub open spec fn spec_remap_object(o: Object3D, off: int) -> Object3D {
    Object3D {
        material_id: if o.material_id is Some {
            Some(((o.material_id->Some_0) + off) as usize)
        } else {
            None
        },
        ..o
    }
}

} // verus!
