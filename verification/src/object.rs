//! Renderable objects and the mesh importer.
//!
//! The importer maps a decoded mesh record — flat position triples, a flat
//! triangle-index list, optional texture coordinates, optional normals —
//! into an `Object3D` with a fully attributed, expanded vertex stream,
//! reconstructing smooth per-vertex normals when the source omits them:
//! every triangle's unit face normal is accumulated at its three corners
//! and each per-vertex sum is normalized afterwards, so vertices shared by
//! several triangles average their faces' normals. A zero-length sum (a
//! vertex no triangle references, or degenerate geometry) yields the
//! deterministic default normal rather than an error.

use vstd::prelude::*;

use crate::asset::{ImportError, MeshRecord};
use crate::common::{spec_vertex_new, Vertex};
use crate::entity::{
    spec_model_matrix, spec_transform_rotated, spec_transform_translated, Entity3D, Transform,
};
use crate::fixed::FX_ONE;
use crate::matrix::{
    mat_from_axis_angle, mat_from_scale, mat_from_translation, mat_identity, mat_mul,
    spec_mat_identity, Mat4,
};
use crate::vector::{
    spec_v3_add, spec_v3_cross, spec_v3_normalize, spec_v3_sub, v3_add, v3_cross, v3_normalize,
    v3_sub, v3_zero, Vec2, Vec3,
};

verus! {

/// A named mesh with its expanded vertex stream, transform state and
/// optional material reference (an index into the owning scene's material
/// list).
#[derive(Debug)]
pub struct Object3D {
    pub name: String,
    pub vertices: Vec<Vertex>,
    pub material_id: Option<usize>,
    pub translation: Vec3,
    pub rotation: Mat4,
    pub scale: i64,
}

/// Flat scalars grouped into vector triples; a trailing remainder is
/// dropped.
pub open spec fn group3(s: Seq<i64>) -> Seq<Vec3> {
    Seq::new(s.len() / 3, |i: int| Vec3 { x: s[3 * i], y: s[3 * i + 1], z: s[3 * i + 2] })
}

/// Flat scalars grouped into vector pairs; a trailing remainder is
/// dropped.
pub open spec fn group2(s: Seq<i64>) -> Seq<Vec2> {
    Seq::new(s.len() / 2, |i: int| Vec2 { x: s[2 * i], y: s[2 * i + 1] })
}

/// The default vertex color.
pub open spec fn white_color() -> Vec3 {
    Vec3 { x: FX_ONE, y: FX_ONE, z: FX_ONE }
}

/// The unit normal of the triangle `(a, b, c)` from its edge vectors.
pub open spec fn spec_face_normal(a: Vec3, b: Vec3, c: Vec3) -> Vec3 {
    spec_v3_normalize(spec_v3_cross(spec_v3_sub(b, a), spec_v3_sub(c, a)))
}

/// Whether every index is below `bound`.
pub open spec fn indices_in_range(idx: Seq<u32>, bound: int) -> bool {
    forall|k: int| 0 <= k < idx.len() ==> (idx[k] as int) < bound
}

/// The per-vertex normal sums after the first `t` triangles: each
/// triangle's unit face normal added, in order, at its three corner slots.
pub open spec fn spec_acc_normals(vs: Seq<Vec3>, idx: Seq<u32>, t: nat) -> Seq<Vec3>
    recommends
        3 * t <= idx.len(),
        indices_in_range(idx, vs.len() as int),
    decreases t,
{
    if t == 0 {
        Seq::new(vs.len(), |i: int| v3_zero())
    } else {
        let prev = spec_acc_normals(vs, idx, (t - 1) as nat);
        let i1 = idx[3 * (t - 1)] as int;
        let i2 = idx[3 * (t - 1) + 1] as int;
        let i3 = idx[3 * (t - 1) + 2] as int;
        let n = spec_face_normal(vs[i1], vs[i2], vs[i3]);
        let s1 = prev.update(i1, spec_v3_add(prev[i1], n));
        let s2 = s1.update(i2, spec_v3_add(s1[i2], n));
        s2.update(i3, spec_v3_add(s2[i3], n))
    }
}

/// The reconstructed per-vertex normals: every accumulated sum normalized;
/// a zero sum yields the default normal.
pub open spec fn spec_vertex_normals(vs: Seq<Vec3>, idx: Seq<u32>) -> Seq<Vec3> {
    let acc = spec_acc_normals(vs, idx, idx.len() / 3);
    Seq::new(vs.len(), |i: int| spec_v3_normalize(acc[i]))
}

/// The expanded vertex stream: one vertex per index entry, combining the
/// indexed position and normal with the default color and the indexed or
/// defaulted texture coordinates.
pub open spec fn spec_expand(vs: Seq<Vec3>, idx: Seq<u32>, uvs: Seq<Vec2>, ns: Seq<Vec3>) -> Seq<
    Vertex,
> {
    Seq::new(
        idx.len(),
        |k: int|
            spec_vertex_new(
                vs[idx[k] as int],
                white_color(),
                ns[idx[k] as int],
                if (idx[k] as int) < uvs.len() {
                    uvs[idx[k] as int]
                } else {
                    Vec2 { x: 0, y: 0 }
                },
            ),
    )
}

/// A mesh record without at least one position triple and one full
/// triangle.
pub open spec fn rec_is_empty(rec: MeshRecord) -> bool {
    rec.positions@.len() < 3 || rec.indices@.len() < 3
}

/// Whether the record carries source normals.
pub open spec fn rec_has_normals(rec: MeshRecord) -> bool {
    rec.normals@.len() > 0
}

/// Whether every index points at an existing position (and, when normals
/// are supplied, an existing normal).
pub open spec fn rec_indices_valid(rec: MeshRecord) -> bool {
    indices_in_range(rec.indices@, rec.positions@.len() as int / 3) && (rec_has_normals(rec)
        ==> indices_in_range(rec.indices@, rec.normals@.len() as int / 3))
}

/// The error a single mesh record imports with, if any: emptiness is
/// detected before out-of-range indices.
pub open spec fn rec_error(rec: MeshRecord) -> Option<ImportError> {
    if rec_is_empty(rec) {
        Some(ImportError::EmptyMesh)
    } else if !rec_indices_valid(rec) {
        Some(ImportError::IndexOutOfRange)
    } else {
        None
    }
}

/// The normals a record's vertices carry: the supplied ones, or the
/// reconstructed smooth normals when the source omits them.
pub open spec fn spec_record_normals(rec: MeshRecord) -> Seq<Vec3> {
    if rec_has_normals(rec) {
        group3(rec.normals@)
    } else {
        spec_vertex_normals(group3(rec.positions@), rec.indices@)
    }
}

/// The vertex stream a record imports into.
pub open spec fn spec_record_vertices(rec: MeshRecord) -> Seq<Vertex> {
    spec_expand(group3(rec.positions@), rec.indices@, group2(rec.uvs@), spec_record_normals(rec))
}

/// Whether `o` is exactly the object imported from `rec`: same name and
/// material reference, the record's vertex stream, and the initial
/// transform.
pub open spec fn object_matches_record(o: Object3D, rec: MeshRecord) -> bool {
    &&& o.name@ == rec.name@
    &&& o.vertices@ == spec_record_vertices(rec)
    &&& o.material_id == rec.material_id
    &&& o.translation == v3_zero()
    &&& o.rotation == spec_mat_identity()
    &&& o.scale == FX_ONE
}

/// The first import error among the records, in order.
pub open spec fn recs_error(recs: Seq<MeshRecord>) -> Option<ImportError>
    decreases recs.len(),
{
    if recs.len() == 0 {
        None
    } else if rec_error(recs[0]) is Some {
        rec_error(recs[0])
    } else {
        recs_error(recs.drop_first())
    }
}

/// Skipping records that import cleanly does not change the first error.
proof fn lemma_recs_error_skip(recs: Seq<MeshRecord>, i: int)
    requires
        0 <= i <= recs.len(),
        forall|j: int| 0 <= j < i ==> rec_error(#[trigger] recs[j]) is None,
    ensures
        recs_error(recs) == recs_error(recs.skip(i)),
    decreases i,
{
    if i == 0 {
        assert(recs.skip(0) =~= recs);
    } else {
        assert(recs_error(recs) == recs_error(recs.drop_first()));
        lemma_recs_error_skip(recs.drop_first(), i - 1);
        assert(recs.drop_first().skip(i - 1) =~= recs.skip(i));
    }
}

fn group_triples(s: &Vec<i64>) -> (r: Vec<Vec3>)
    ensures
        r@ == group3(s@),
{
    let n: usize = s.len() / 3;
    let mut r: Vec<Vec3> = Vec::new();
    let mut i: usize = 0;
    while i < n
        invariant
            i <= n,
            n == s@.len() / 3,
            s@.len() <= usize::MAX,
            r@.len() == i,
            forall|j: int| 0 <= j < i ==> r@[j] == group3(s@)[j],
        decreases n - i,
    {
        let v = Vec3 { x: s[3 * i], y: s[3 * i + 1], z: s[3 * i + 2] };
        r.push(v);
        i = i + 1;
    }
    proof {
        assert(r@ =~= group3(s@));
    }
    r
}

fn group_pairs(s: &Vec<i64>) -> (r: Vec<Vec2>)
    ensures
        r@ == group2(s@),
{
    let n: usize = s.len() / 2;
    let mut r: Vec<Vec2> = Vec::new();
    let mut i: usize = 0;
    while i < n
        invariant
            i <= n,
            n == s@.len() / 2,
            s@.len() <= usize::MAX,
            r@.len() == i,
            forall|j: int| 0 <= j < i ==> r@[j] == group2(s@)[j],
        decreases n - i,
    {
        let v = Vec2 { x: s[2 * i], y: s[2 * i + 1] };
        r.push(v);
        i = i + 1;
    }
    proof {
        assert(r@ =~= group2(s@));
    }
    r
}

fn copy_indices(s: &Vec<u32>) -> (r: Vec<u32>)
    ensures
        r@ == s@,
{
    let mut r: Vec<u32> = Vec::new();
    let mut i: usize = 0;
    while i < s.len()
        invariant
            i <= s@.len(),
            r@ == s@.subrange(0, i as int),
        decreases s@.len() - i,
    {
        r.push(s[i]);
        i = i + 1;
        proof {
            assert(r@ =~= s@.subrange(0, i as int));
        }
    }
    proof {
        assert(r@ =~= s@);
    }
    r
}

/// Reconstructs smooth per-vertex normals for a position list and a
/// triangle-index list; an index past the position list is a fatal input
/// error.
pub fn evaluate_vertex_normals(vertices: &Vec<Vec3>, indices: &Vec<u32>) -> (r: Result<
    Vec<Vec3>,
    ImportError,
>)
    ensures
        (r is Ok) == indices_in_range(indices@, vertices@.len() as int),
        r is Err ==> r->Err_0 == ImportError::IndexOutOfRange,
        r is Ok ==> (r->Ok_0)@ == spec_vertex_normals(vertices@, indices@),
{
    let vcount: usize = vertices.len();
    let mut k: usize = 0;
    while k < indices.len()
        invariant
            k <= indices@.len(),
            vcount == vertices@.len(),
            forall|j: int| 0 <= j < k ==> (indices@[j] as int) < vcount as int,
        decreases indices@.len() - k,
    {
        if indices[k] as usize >= vcount {
            return Err(ImportError::IndexOutOfRange);
        }
        k = k + 1;
    }
    let mut acc: Vec<Vec3> = Vec::new();
    let mut i: usize = 0;
    while i < vcount
        invariant
            i <= vcount,
            acc@.len() == i,
            forall|j: int| 0 <= j < i ==> acc@[j] == v3_zero(),
        decreases vcount - i,
    {
        acc.push(Vec3 { x: 0, y: 0, z: 0 });
        i = i + 1;
    }
    proof {
        assert(acc@ =~= spec_acc_normals(vertices@, indices@, 0));
    }
    let nb_tris: usize = indices.len() / 3;
    let mut t: usize = 0;
    while t < nb_tris
        invariant
            t <= nb_tris,
            nb_tris == indices@.len() / 3,
            indices@.len() <= usize::MAX,
            vcount == vertices@.len(),
            indices_in_range(indices@, vcount as int),
            acc@ == spec_acc_normals(vertices@, indices@, t as nat),
            acc@.len() == vcount,
        decreases nb_tris - t,
    {
        let i1: usize = indices[3 * t] as usize;
        let i2: usize = indices[3 * t + 1] as usize;
        let i3: usize = indices[3 * t + 2] as usize;
        let a = vertices[i1];
        let b = vertices[i2];
        let c = vertices[i3];
        let n = v3_normalize(v3_cross(v3_sub(b, a), v3_sub(c, a)));
        let a1 = acc[i1];
        acc.set(i1, v3_add(a1, n));
        let a2 = acc[i2];
        acc.set(i2, v3_add(a2, n));
        let a3 = acc[i3];
        acc.set(i3, v3_add(a3, n));
        t = t + 1;
        proof {
            assert(acc@ == spec_acc_normals(vertices@, indices@, t as nat));
        }
    }
    let mut out: Vec<Vec3> = Vec::new();
    let mut i2: usize = 0;
    while i2 < vcount
        invariant
            i2 <= vcount,
            vcount == vertices@.len(),
            acc@ == spec_acc_normals(vertices@, indices@, indices@.len() / 3),
            acc@.len() == vcount,
            out@.len() == i2,
            forall|j: int| 0 <= j < i2 ==> out@[j] == spec_v3_normalize(acc@[j]),
        decreases vcount - i2,
    {
        out.push(v3_normalize(acc[i2]));
        i2 = i2 + 1;
    }
    proof {
        assert(out@ =~= spec_vertex_normals(vertices@, indices@));
    }
    Ok(out)
}

impl Object3D {
    /// The transform state of this object.
    pub open spec fn transform(self) -> Transform {
        Transform { translation: self.translation, rotation: self.rotation, scale: self.scale }
    }

    /// Expands indexed attribute lists into an object's vertex stream: one
    /// vertex per index entry, with the default color, the indexed normal
    /// and the indexed or defaulted texture coordinates, and the initial
    /// transform. An index past the position or normal list is a fatal
    /// input error.
    pub fn new(
        name: String,
        vertices: Vec<Vec3>,
        indices: Vec<u32>,
        uvs: Vec<Vec2>,
        normals: Vec<Vec3>,
        material_id: Option<usize>,
    ) -> (r: Result<Object3D, ImportError>)
        ensures
            (r is Ok) == (indices_in_range(indices@, vertices@.len() as int) && indices_in_range(
                indices@,
                normals@.len() as int,
            )),
            r is Err ==> r->Err_0 == ImportError::IndexOutOfRange,
            r is Ok ==> (r->Ok_0).name == name,
            r is Ok ==> (r->Ok_0).vertices@ == spec_expand(vertices@, indices@, uvs@, normals@),
            r is Ok ==> (r->Ok_0).material_id == material_id,
            r is Ok ==> (r->Ok_0).translation == v3_zero(),
            r is Ok ==> (r->Ok_0).rotation == spec_mat_identity(),
            r is Ok ==> (r->Ok_0).scale == FX_ONE,
    {
        let vcount: usize = vertices.len();
        let ncount: usize = normals.len();
        let mut k: usize = 0;
        while k < indices.len()
            invariant
                k <= indices@.len(),
                vcount == vertices@.len(),
                ncount == normals@.len(),
                forall|j: int|
                    0 <= j < k ==> (indices@[j] as int) < vcount as int && (indices@[j] as int)
                        < ncount as int,
            decreases indices@.len() - k,
        {
            let idx = indices[k] as usize;
            if idx >= vcount || idx >= ncount {
                return Err(ImportError::IndexOutOfRange);
            }
            k = k + 1;
        }
        let mut object_vertices: Vec<Vertex> = Vec::new();
        let mut m: usize = 0;
        while m < indices.len()
            invariant
                m <= indices@.len(),
                vcount == vertices@.len(),
                ncount == normals@.len(),
                indices_in_range(indices@, vcount as int),
                indices_in_range(indices@, ncount as int),
                object_vertices@.len() == m,
                forall|j: int|
                    0 <= j < m ==> object_vertices@[j] == spec_expand(
                        vertices@,
                        indices@,
                        uvs@,
                        normals@,
                    )[j],
            decreases indices@.len() - m,
        {
            let idx: usize = indices[m] as usize;
            let uv: Vec2 = if idx < uvs.len() {
                uvs[idx]
            } else {
                Vec2 { x: 0, y: 0 }
            };
            let color = Vec3 { x: FX_ONE, y: FX_ONE, z: FX_ONE };
            object_vertices.push(Vertex::new(vertices[idx], color, normals[idx], uv));
            m = m + 1;
        }
        proof {
            assert(object_vertices@ =~= spec_expand(vertices@, indices@, uvs@, normals@));
        }
        Ok(
            Object3D {
                name,
                vertices: object_vertices,
                material_id,
                translation: Vec3 { x: 0, y: 0, z: 0 },
                rotation: mat_identity(),
                scale: FX_ONE,
            },
        )
    }

    /// Imports one decoded mesh record: groups the flat attribute streams,
    /// takes the supplied normals or reconstructs smooth ones, and expands
    /// the vertex stream.
    pub fn from_record(rec: &MeshRecord) -> (r: Result<Object3D, ImportError>)
        ensures
            (r is Ok) == (rec_error(*rec) is None),
            r is Err ==> Some(r->Err_0) == rec_error(*rec),
            r is Ok ==> object_matches_record(r->Ok_0, *rec),
    {
        if rec.positions.len() < 3 || rec.indices.len() < 3 {
            return Err(ImportError::EmptyMesh);
        }
        let pos_count: usize = rec.positions.len() / 3;
        let norm_count: usize = rec.normals.len() / 3;
        let has_normals: bool = rec.normals.len() > 0;
        let mut k: usize = 0;
        while k < rec.indices.len()
            invariant
                k <= rec.indices@.len(),
                !rec_is_empty(*rec),
                pos_count == rec.positions@.len() / 3,
                norm_count == rec.normals@.len() / 3,
                has_normals == rec_has_normals(*rec),
                forall|j: int|
                    0 <= j < k ==> (rec.indices@[j] as int) < pos_count as int && (rec_has_normals(
                        *rec,
                    ) ==> (rec.indices@[j] as int) < norm_count as int),
            decreases rec.indices@.len() - k,
        {
            let idx = rec.indices[k] as usize;
            if idx >= pos_count || (has_normals && idx >= norm_count) {
                return Err(ImportError::IndexOutOfRange);
            }
            k = k + 1;
        }
        let positions: Vec<Vec3> = group_triples(&rec.positions);
        let uvs: Vec<Vec2> = group_pairs(&rec.uvs);
        let indices: Vec<u32> = copy_indices(&rec.indices);
        let normals: Vec<Vec3> = if has_normals {
            group_triples(&rec.normals)
        } else {
            match evaluate_vertex_normals(&positions, &indices) {
                Ok(n) => n,
                Err(_) => {
                    proof {
                        assert(false);
                    }
                    vstd::pervasive::unreached()
                },
            }
        };
        match Object3D::new(
            rec.name.clone(),
            positions,
            indices,
            uvs,
            normals,
            rec.material_id,
        ) {
            Ok(o) => Ok(o),
            Err(_) => {
                proof {
                    assert(false);
                }
                vstd::pervasive::unreached()
            },
        }
    }

    /// Imports every record of a decoded asset, in order; the first failing
    /// record aborts the whole import.
    pub fn from_records(records: &Vec<MeshRecord>) -> (r: Result<Vec<Object3D>, ImportError>)
        ensures
            (r is Ok) == (recs_error(records@) is None),
            r is Err ==> Some(r->Err_0) == recs_error(records@),
            r is Ok ==> (r->Ok_0)@.len() == records@.len(),
            r is Ok ==> forall|j: int|
                0 <= j < records@.len() ==> object_matches_record(
                    #[trigger] (r->Ok_0)@[j],
                    records@[j],
                ),
    {
        let mut out: Vec<Object3D> = Vec::new();
        let mut i: usize = 0;
        while i < records.len()
            invariant
                i <= records@.len(),
                out@.len() == i,
                forall|j: int| 0 <= j < i ==> rec_error(#[trigger] records@[j]) is None,
                forall|j: int|
                    0 <= j < i ==> object_matches_record(#[trigger] out@[j], records@[j]),
            decreases records@.len() - i,
        {
            match Object3D::from_record(&records[i]) {
                Ok(o) => {
                    out.push(o);
                },
                Err(e) => {
                    proof {
                        lemma_recs_error_skip(records@, i as int);
                        assert(records@.skip(i as int)[0] == records@[i as int]);
                    }
                    return Err(e);
                },
            }
            i = i + 1;
        }
        proof {
            lemma_recs_error_skip(records@, records@.len() as int);
        }
        Ok(out)
    }

    /// The eight corner positions of the unit cube.
    pub open spec fn cube_positions() -> Seq<Vec3> {
        let lo = (-FX_ONE) as i64;
        seq![
            Vec3 { x: lo, y: lo, z: FX_ONE },
            Vec3 { x: FX_ONE, y: lo, z: FX_ONE },
            Vec3 { x: FX_ONE, y: FX_ONE, z: FX_ONE },
            Vec3 { x: lo, y: FX_ONE, z: FX_ONE },
            Vec3 { x: lo, y: lo, z: lo },
            Vec3 { x: FX_ONE, y: lo, z: lo },
            Vec3 { x: FX_ONE, y: FX_ONE, z: lo },
            Vec3 { x: lo, y: FX_ONE, z: lo },
        ]
    }

    /// The twelve triangles of the unit cube, two per face.
    pub open spec fn cube_indices() -> Seq<u32> {
        seq![
            0u32, 1, 2, 2, 3, 0, 1, 5, 6, 6, 2, 1, 7, 6, 5, 5, 4, 7, 4, 0, 3, 3, 7, 4, 4, 5, 1, 1,
            0, 4, 3, 2, 6, 6, 7, 3,
        ]
    }

    /// A procedurally generated unit cube with reconstructed smooth
    /// normals, no texture coordinates and no material.
    pub fn new_cube() -> (r: Object3D)
        ensures
            r.name@ == "cube"@,
            r.material_id is None,
            r.translation == v3_zero(),
            r.rotation == spec_mat_identity(),
            r.scale == FX_ONE,
            r.vertices@ == spec_expand(
                Object3D::cube_positions(),
                Object3D::cube_indices(),
                Seq::<Vec2>::empty(),
                spec_vertex_normals(Object3D::cube_positions(), Object3D::cube_indices()),
            ),
    {
        let mut vertices: Vec<Vec3> = Vec::new();
        vertices.push(Vec3 { x: -FX_ONE, y: -FX_ONE, z: FX_ONE });
        vertices.push(Vec3 { x: FX_ONE, y: -FX_ONE, z: FX_ONE });
        vertices.push(Vec3 { x: FX_ONE, y: FX_ONE, z: FX_ONE });
        vertices.push(Vec3 { x: -FX_ONE, y: FX_ONE, z: FX_ONE });
        vertices.push(Vec3 { x: -FX_ONE, y: -FX_ONE, z: -FX_ONE });
        vertices.push(Vec3 { x: FX_ONE, y: -FX_ONE, z: -FX_ONE });
        vertices.push(Vec3 { x: FX_ONE, y: FX_ONE, z: -FX_ONE });
        vertices.push(Vec3 { x: -FX_ONE, y: FX_ONE, z: -FX_ONE });
        let indices: Vec<u32> = vec![
            0, 1, 2, 2, 3, 0, 1, 5, 6, 6, 2, 1, 7, 6, 5, 5, 4, 7, 4, 0, 3, 3, 7, 4, 4, 5, 1, 1, 0,
            4, 3, 2, 6, 6, 7, 3,
        ];
        proof {
            assert(vertices@ =~= Object3D::cube_positions());
            assert(indices@ =~= Object3D::cube_indices());
            assert(indices_in_range(indices@, 8));
        }
        let normals: Vec<Vec3> = match evaluate_vertex_normals(&vertices, &indices) {
            Ok(n) => n,
            Err(_) => {
                proof {
                    assert(false);
                }
                vstd::pervasive::unreached()
            },
        };
        match Object3D::new("cube".to_owned(), vertices, indices, Vec::new(), normals, None) {
            Ok(o) => o,
            Err(_) => {
                proof {
                    assert(false);
                }
                vstd::pervasive::unreached()
            },
        }
    }

    /// The model matrix: translate * rotate * scale.
    pub fn model_matrix(&self) -> (r: Mat4)
        ensures
            r == spec_model_matrix(self.transform()),
    {
        mat_mul(
            mat_mul(mat_from_translation(self.translation), self.rotation),
            mat_from_scale(self.scale),
        )
    }
}

impl Entity3D for Object3D {
    open spec fn spec_translated(self, x: i64, y: i64, z: i64) -> Object3D {
        Object3D {
            translation: spec_transform_translated(self.transform(), x, y, z).translation,
            ..self
        }
    }

    open spec fn spec_rotated(self, axis: Vec3, angle: i64) -> Object3D {
        Object3D {
            rotation: spec_transform_rotated(self.transform(), axis, angle).rotation,
            ..self
        }
    }

    fn translate(&mut self, x: i64, y: i64, z: i64) {
        self.translation = v3_add(self.translation, Vec3 { x, y, z });
    }

    fn rotate(&mut self, axis: Vec3, angle: i64) {
        self.rotation = mat_mul(self.rotation, mat_from_axis_angle(axis, angle));
    }
}

} // verus!
