//! The library-wide laws: how entity operations compose into the model
//! matrix, and what normal reconstruction guarantees at shared and at
//! isolated vertices.

use vstd::prelude::*;

use crate::entity::{
    apply_entity_op, apply_entity_ops, ops_rotation, ops_translation, spec_model_matrix, EntityOp,
    Transform,
};
use crate::fixed::FX_ONE;
use crate::matrix::{spec_mat_from_scale, spec_mat_from_translation, spec_mat_mul};
use crate::object::{
    indices_in_range, spec_acc_normals, spec_face_normal, spec_vertex_normals,
};
use crate::vector::{
    default_normal, lemma_normalize_near_unit, spec_v3_add, spec_v3_normalize, v3_norm_sq,
    v3_zero, Vec3,
};

verus! {

/// For every sequence of translate and rotate calls, the resulting
/// transform state is exactly: the translations accumulated in call order
/// onto the initial translation, the rotations right-multiplied in call
/// order onto the initial rotation, and the initial scale.
pub proof fn lemma_entity_ops_compose(t0: Transform, ops: Seq<EntityOp>)
    ensures
        apply_entity_ops(t0, ops) == (Transform {
            translation: ops_translation(t0.translation, ops),
            rotation: ops_rotation(t0.rotation, ops),
            scale: t0.scale,
        }),
    decreases ops.len(),
{
    if ops.len() > 0 {
        lemma_entity_ops_compose(apply_entity_op(t0, ops[0]), ops.drop_first());
    }
}

/// For every sequence of translate and rotate calls, the resulting model
/// matrix is translate(accumulated translations) * (rotations composed in
/// call order) * scale(final scale).
pub proof fn lemma_model_matrix_of_ops(t0: Transform, ops: Seq<EntityOp>)
    ensures
        spec_model_matrix(apply_entity_ops(t0, ops)) == spec_mat_mul(
            spec_mat_mul(
                spec_mat_from_translation(ops_translation(t0.translation, ops)),
                ops_rotation(t0.rotation, ops),
            ),
            spec_mat_from_scale(t0.scale),
        ),
{
    lemma_entity_ops_compose(t0, ops);
}

proof fn lemma_acc_len(vs: Seq<Vec3>, idx: Seq<u32>, t: nat)
    requires
        3 * t <= idx.len(),
        indices_in_range(idx, vs.len() as int),
    ensures
        spec_acc_normals(vs, idx, t).len() == vs.len(),
    decreases t,
{
    if t > 0 {
        lemma_acc_len(vs, idx, (t - 1) as nat);
    }
}

proof fn lemma_acc_untouched(vs: Seq<Vec3>, idx: Seq<u32>, t: nat, v: int)
    requires
        3 * t <= idx.len(),
        indices_in_range(idx, vs.len() as int),
        0 <= v < vs.len(),
        forall|k: int| 0 <= k < 3 * t ==> (idx[k] as int) != v,
    ensures
        spec_acc_normals(vs, idx, t)[v] == v3_zero(),
    decreases t,
{
    if t > 0 {
        lemma_acc_untouched(vs, idx, (t - 1) as nat, v);
        lemma_acc_len(vs, idx, (t - 1) as nat);
        let prev = spec_acc_normals(vs, idx, (t - 1) as nat);
        let i1 = idx[3 * (t - 1)] as int;
        let i2 = idx[3 * (t - 1) + 1] as int;
        let i3 = idx[3 * (t - 1) + 2] as int;
        assert(i1 != v && i2 != v && i3 != v);
        assert(prev[v] == v3_zero());
        let n = spec_face_normal(vs[i1], vs[i2], vs[i3]);
        let s1 = prev.update(i1, spec_v3_add(prev[i1], n));
        let s2 = s1.update(i2, spec_v3_add(s1[i2], n));
        let s3 = s2.update(i3, spec_v3_add(s2[i3], n));
        assert(spec_acc_normals(vs, idx, t) == s3);
        assert(s3[v] == v3_zero());
    }
}

/// A vertex referenced by no triangle gets the deterministic default
/// normal, never an undefined value.
pub proof fn lemma_isolated_vertex_default_normal(vs: Seq<Vec3>, idx: Seq<u32>, v: int)
    requires
        indices_in_range(idx, vs.len() as int),
        0 <= v < vs.len(),
        forall|k: int| 0 <= k < 3 * (idx.len() / 3) ==> (idx[k] as int) != v,
    ensures
        spec_vertex_normals(vs, idx)[v] == default_normal(),
{
    lemma_acc_untouched(vs, idx, idx.len() / 3, v);
    assert(v3_norm_sq(v3_zero()) == 0);
}

/// Whether exactly one of the three indices starting at `lo` reads `v`.
pub open spec fn appears_once(idx: Seq<u32>, lo: int, v: int) -> bool {
    ||| ((idx[lo] as int) == v && (idx[lo + 1] as int) != v && (idx[lo + 2] as int) != v)
    ||| ((idx[lo] as int) != v && (idx[lo + 1] as int) == v && (idx[lo + 2] as int) != v)
    ||| ((idx[lo] as int) != v && (idx[lo + 1] as int) != v && (idx[lo + 2] as int) == v)
}

/// In a two-triangle mesh (a quad split along a shared edge), a vertex
/// that both triangles reference accumulates both unit face normals, so
/// its reconstructed normal is the normalized average of the two faces.
pub proof fn lemma_shared_vertex_averages_faces(vs: Seq<Vec3>, idx: Seq<u32>, v: int)
    requires
        idx.len() == 6,
        indices_in_range(idx, vs.len() as int),
        0 <= v < vs.len(),
        appears_once(idx, 0, v),
        appears_once(idx, 3, v),
    ensures
        spec_acc_normals(vs, idx, 2)[v] == spec_v3_add(
            spec_face_normal(vs[idx[0] as int], vs[idx[1] as int], vs[idx[2] as int]),
            spec_face_normal(vs[idx[3] as int], vs[idx[4] as int], vs[idx[5] as int]),
        ),
        spec_vertex_normals(vs, idx)[v] == spec_v3_normalize(
            spec_v3_add(
                spec_face_normal(vs[idx[0] as int], vs[idx[1] as int], vs[idx[2] as int]),
                spec_face_normal(vs[idx[3] as int], vs[idx[4] as int], vs[idx[5] as int]),
            ),
        ),
{
    let n0 = spec_face_normal(vs[idx[0] as int], vs[idx[1] as int], vs[idx[2] as int]);
    let n1 = spec_face_normal(vs[idx[3] as int], vs[idx[4] as int], vs[idx[5] as int]);
    lemma_acc_len(vs, idx, 0);
    lemma_acc_len(vs, idx, 1);
    let acc1 = spec_acc_normals(vs, idx, 1);
    let acc2 = spec_acc_normals(vs, idx, 2);
    assert(spec_acc_normals(vs, idx, 0)[v] == v3_zero());
    assert(spec_v3_add(v3_zero(), n0) == n0) by {
        assert(crate::fixed::fxa(0, n0.x) == n0.x);
        assert(crate::fixed::fxa(0, n0.y) == n0.y);
        assert(crate::fixed::fxa(0, n0.z) == n0.z);
    }
    assert(acc1[v] == n0);
    assert(acc2[v] == spec_v3_add(n0, n1));
}

/// The full shared-edge guarantee: in a two-triangle mesh, a vertex both
/// triangles reference gets the normalized average of the two unit face
/// normals, and — whenever the accumulated sum is at least unit length,
/// which excludes near-cancelling face pairs — that normal is unit length
/// up to the fixed-point tolerance.
pub proof fn lemma_shared_edge_normal_near_unit(vs: Seq<Vec3>, idx: Seq<u32>, v: int)
    requires
        idx.len() == 6,
        indices_in_range(idx, vs.len() as int),
        0 <= v < vs.len(),
        appears_once(idx, 0, v),
        appears_once(idx, 3, v),
        v3_norm_sq(
            spec_v3_add(
                spec_face_normal(vs[idx[0] as int], vs[idx[1] as int], vs[idx[2] as int]),
                spec_face_normal(vs[idx[3] as int], vs[idx[4] as int], vs[idx[5] as int]),
            ),
        ) >= FX_ONE * FX_ONE,
    ensures
        spec_vertex_normals(vs, idx)[v] == spec_v3_normalize(
            spec_v3_add(
                spec_face_normal(vs[idx[0] as int], vs[idx[1] as int], vs[idx[2] as int]),
                spec_face_normal(vs[idx[3] as int], vs[idx[4] as int], vs[idx[5] as int]),
            ),
        ),
        FX_ONE * FX_ONE - 7 * FX_ONE <= v3_norm_sq(spec_vertex_normals(vs, idx)[v]),
        v3_norm_sq(spec_vertex_normals(vs, idx)[v]) <= FX_ONE * FX_ONE + 3 * FX_ONE,
{
    lemma_shared_vertex_averages_faces(vs, idx, v);
    lemma_normalize_near_unit(
        spec_v3_add(
            spec_face_normal(vs[idx[0] as int], vs[idx[1] as int], vs[idx[2] as int]),
            spec_face_normal(vs[idx[3] as int], vs[idx[4] as int], vs[idx[5] as int]),
        ),
    );
}

} // verus!
