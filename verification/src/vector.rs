//! Fixed-point vectors of two, three and four components.
//!
//! `Vec3` carries positions, colors and directions; `Vec4` carries
//! homogenized positions and normals; `Vec2` carries texture coordinates.
//! Normalization returns a deterministic default direction for the zero
//! vector instead of failing.

use vstd::prelude::*;

use crate::fixed::{
    fxa, fxm, fxs, fx_add, fx_mul, fx_sub, isqrt_spec, isqrt_u128, lemma_isqrt_bounds, FX_ONE,
};

verus! {

/// A two-component fixed-point vector (texture coordinates).
#[derive(Clone, Copy, PartialEq, Eq, Structural, Debug)]
pub struct Vec2 {
    pub x: i64,
    pub y: i64,
}

/// A three-component fixed-point vector.
#[derive(Clone, Copy, PartialEq, Eq, Structural, Debug)]
pub struct Vec3 {
    pub x: i64,
    pub y: i64,
    pub z: i64,
}

/// A four-component fixed-point vector.
#[derive(Clone, Copy, PartialEq, Eq, Structural, Debug)]
pub struct Vec4 {
    pub x: i64,
    pub y: i64,
    pub z: i64,
    pub w: i64,
}

/// Componentwise saturating addition.
pub open spec fn spec_v3_add(a: Vec3, b: Vec3) -> Vec3 {
    Vec3 { x: fxa(a.x, b.x), y: fxa(a.y, b.y), z: fxa(a.z, b.z) }
}

/// Componentwise saturating subtraction.
pub open spec fn spec_v3_sub(a: Vec3, b: Vec3) -> Vec3 {
    Vec3 { x: fxs(a.x, b.x), y: fxs(a.y, b.y), z: fxs(a.z, b.z) }
}

/// The fixed-point cross product.
pub open spec fn spec_v3_cross(a: Vec3, b: Vec3) -> Vec3 {
    Vec3 {
        x: fxs(fxm(a.y, b.z), fxm(a.z, b.y)),
        y: fxs(fxm(a.z, b.x), fxm(a.x, b.z)),
        z: fxs(fxm(a.x, b.y), fxm(a.y, b.x)),
    }
}

/// The fixed-point dot product.
pub open spec fn spec_v3_dot(a: Vec3, b: Vec3) -> i64 {
    fxa(fxa(fxm(a.x, b.x), fxm(a.y, b.y)), fxm(a.z, b.z))
}

/// The all-zero vector.
pub open spec fn v3_zero() -> Vec3 {
    Vec3 { x: 0, y: 0, z: 0 }
}

/// The deterministic direction substituted for a zero-length normal.
pub open spec fn default_normal() -> Vec3 {
    Vec3 { x: 0, y: 0, z: FX_ONE }
}

/// The exact (unsaturated) squared Euclidean length of the raw components.
pub open spec fn v3_norm_sq(v: Vec3) -> int {
    v.x * v.x + v.y * v.y + v.z * v.z
}

/// One normalized component: `|c| * FX_ONE / len` with the sign of `c`.
pub open spec fn spec_scaled_div(c: i64, len: int) -> i64
    recommends
        len >= 1,
{
    let m = if c >= 0 {
        c as int
    } else {
        -(c as int)
    };
    let q = (m * FX_ONE) / len;
    if c >= 0 {
        q as i64
    } else {
        (-q) as i64
    }
}

/// Normalization to unit length by the integer square root of the squared
/// length; the zero vector maps to `default_normal`.
pub open spec fn spec_v3_normalize(v: Vec3) -> Vec3 {
    if v3_norm_sq(v) == 0 {
        default_normal()
    } else {
        let len = isqrt_spec(v3_norm_sq(v) as nat) as int;
        Vec3 {
            x: spec_scaled_div(v.x, len),
            y: spec_scaled_div(v.y, len),
            z: spec_scaled_div(v.z, len),
        }
    }
}

/// Componentwise saturating addition.
pub fn v3_add(a: Vec3, b: Vec3) -> (r: Vec3)
    ensures
        r == spec_v3_add(a, b),
{
    Vec3 { x: fx_add(a.x, b.x), y: fx_add(a.y, b.y), z: fx_add(a.z, b.z) }
}

/// Componentwise saturating subtraction.
pub fn v3_sub(a: Vec3, b: Vec3) -> (r: Vec3)
    ensures
        r == spec_v3_sub(a, b),
{
    Vec3 { x: fx_sub(a.x, b.x), y: fx_sub(a.y, b.y), z: fx_sub(a.z, b.z) }
}

/// The fixed-point cross product.
pub fn v3_cross(a: Vec3, b: Vec3) -> (r: Vec3)
    ensures
        r == spec_v3_cross(a, b),
{
    Vec3 {
        x: fx_sub(fx_mul(a.y, b.z), fx_mul(a.z, b.y)),
        y: fx_sub(fx_mul(a.z, b.x), fx_mul(a.x, b.z)),
        z: fx_sub(fx_mul(a.x, b.y), fx_mul(a.y, b.x)),
    }
}

/// The fixed-point dot product.
pub fn v3_dot(a: Vec3, b: Vec3) -> (r: i64)
    ensures
        r == spec_v3_dot(a, b),
{
    fx_add(fx_add(fx_mul(a.x, b.x), fx_mul(a.y, b.y)), fx_mul(a.z, b.z))
}

fn abs_mag(v: i64) -> (r: u64)
    ensures
        r as int == if v >= 0 {
            v as int
        } else {
            -(v as int)
        },
{
    if v >= 0 {
        v as u64
    } else {
        (-(v as i128)) as u64
    }
}

proof fn lemma_square_mag(m: int, c: int)
    requires
        m == if c >= 0 {
            c
        } else {
            -c
        },
    ensures
        m * m == c * c,
        m * m >= 0,
{
    assert(m * m == c * c && m * m >= 0) by (nonlinear_arith)
        requires
            m == if c >= 0 {
                c
            } else {
                -c
            },
    ;
}

proof fn lemma_square_bound(m: int)
    requires
        0 <= m <= 0x8000000000000000,
    ensures
        m * m <= 0x40000000000000000000000000000000,
{
    assert(m * m <= 0x40000000000000000000000000000000) by (nonlinear_arith)
        requires
            0 <= m <= 0x8000000000000000,
    ;
}

fn norm_sq_u128(v: Vec3) -> (r: u128)
    ensures
        r as int == v3_norm_sq(v),
{
    let mx: u64 = abs_mag(v.x);
    let my: u64 = abs_mag(v.y);
    let mz: u64 = abs_mag(v.z);
    proof {
        lemma_square_mag(mx as int, v.x as int);
        lemma_square_mag(my as int, v.y as int);
        lemma_square_mag(mz as int, v.z as int);
        lemma_square_bound(mx as int);
        lemma_square_bound(my as int);
        lemma_square_bound(mz as int);
    }
    (mx as u128) * (mx as u128) + (my as u128) * (my as u128) + (mz as u128) * (mz as u128)
}

proof fn lemma_below_sqrt(m: int, len: int, nsq: int)
    requires
        m >= 0,
        len >= 0,
        m * m <= nsq,
        nsq < (len + 1) * (len + 1),
    ensures
        m <= len,
{
    assert(m <= len) by (nonlinear_arith)
        requires
            m >= 0,
            len >= 0,
            m * m <= nsq,
            nsq < (len + 1) * (len + 1),
    ;
}

fn scaled_div_exec(c: i64, len: u64) -> (r: i64)
    requires
        len >= 1,
        (if c >= 0 {
            c as int
        } else {
            -(c as int)
        }) <= len as int,
    ensures
        r == spec_scaled_div(c, len as int),
        -FX_ONE <= r <= FX_ONE,
{
    let m: u64 = abs_mag(c);
    let q: u128 = (m as u128) * (FX_ONE as u128) / (len as u128);
    proof {
        vstd::arithmetic::div_mod::lemma_div_is_ordered(
            m as int * FX_ONE as int,
            len as int * FX_ONE as int,
            len as int,
        );
        vstd::arithmetic::div_mod::lemma_div_multiples_vanish(FX_ONE as int, len as int);
        assert(m as int * FX_ONE as int == (m as u128) * (FX_ONE as u128));
    }
    if c >= 0 {
        q as i64
    } else {
        -(q as i64)
    }
}

/// Normalization to unit length; the zero vector yields `default_normal`.
pub fn v3_normalize(v: Vec3) -> (r: Vec3)
    ensures
        r == spec_v3_normalize(v),
        -FX_ONE <= r.x <= FX_ONE,
        -FX_ONE <= r.y <= FX_ONE,
        -FX_ONE <= r.z <= FX_ONE,
{
    let nsq: u128 = norm_sq_u128(v);
    if nsq == 0 {
        Vec3 { x: 0, y: 0, z: FX_ONE }
    } else {
        let len: u64 = isqrt_u128(nsq);
        proof {
            if len == 0 {
                assert((len as int + 1) * (len as int + 1) == 1) by (nonlinear_arith)
                    requires
                        len as int == 0,
                ;
            }
            lemma_square_mag(abs_i(v.x as int), v.x as int);
            lemma_square_mag(abs_i(v.y as int), v.y as int);
            lemma_square_mag(abs_i(v.z as int), v.z as int);
            lemma_below_sqrt(abs_i(v.x as int), len as int, nsq as int);
            lemma_below_sqrt(abs_i(v.y as int), len as int, nsq as int);
            lemma_below_sqrt(abs_i(v.z as int), len as int, nsq as int);
        }
        Vec3 {
            x: scaled_div_exec(v.x, len),
            y: scaled_div_exec(v.y, len),
            z: scaled_div_exec(v.z, len),
        }
    }
}

/// The magnitude of a mathematical integer.
pub open spec fn abs_i(v: int) -> int {
    if v >= 0 {
        v
    } else {
        -v
    }
}

/// The magnitude of one normalized component before its sign is applied.
pub open spec fn scaled_q(c: i64, len: int) -> int {
    (abs_i(c as int) * FX_ONE) / len
}

proof fn lemma_scaled_div_bounds(c: i64, len: int)
    requires
        1 <= len,
        abs_i(c as int) <= len,
    ensures
        0 <= scaled_q(c, len) <= FX_ONE,
        len * scaled_q(c, len) <= abs_i(c as int) * FX_ONE,
        abs_i(c as int) * FX_ONE < len * (scaled_q(c, len) + 1),
        spec_scaled_div(c, len) as int == if c >= 0 {
            scaled_q(c, len)
        } else {
            -scaled_q(c, len)
        },
{
    let m = abs_i(c as int);
    let q = scaled_q(c, len);
    vstd::arithmetic::div_mod::lemma_div_pos_is_pos(m * FX_ONE, len);
    vstd::arithmetic::div_mod::lemma_div_is_ordered(m * FX_ONE, len * FX_ONE, len);
    vstd::arithmetic::div_mod::lemma_div_multiples_vanish(FX_ONE as int, len);
    vstd::arithmetic::div_mod::lemma_fundamental_div_mod(m * FX_ONE, len);
    vstd::arithmetic::div_mod::lemma_mod_bound(m * FX_ONE, len);
    assert(m * FX_ONE <= len * FX_ONE) by (nonlinear_arith)
        requires
            0 <= m <= len,
    ;
    assert(len * (q + 1) == len * q + len) by (nonlinear_arith);
}

/// Normal reconstruction yields unit-length vectors up to the fixed-point
/// tolerance: for any accumulated sum of length at least one, the squared
/// length of the normalized vector is within a few thousandths of one.
pub proof fn lemma_normalize_near_unit(v: Vec3)
    requires
        v3_norm_sq(v) >= FX_ONE * FX_ONE,
    ensures
        FX_ONE * FX_ONE - 7 * FX_ONE <= v3_norm_sq(spec_v3_normalize(v)),
        v3_norm_sq(spec_v3_normalize(v)) <= FX_ONE * FX_ONE + 3 * FX_ONE,
{
    let nsq = v3_norm_sq(v);
    let len = isqrt_spec(nsq as nat) as int;
    lemma_isqrt_bounds(nsq as nat);
    let mx = abs_i(v.x as int);
    let my = abs_i(v.y as int);
    let mz = abs_i(v.z as int);
    lemma_square_mag(mx, v.x as int);
    lemma_square_mag(my, v.y as int);
    lemma_square_mag(mz, v.z as int);
    assert(len >= FX_ONE) by (nonlinear_arith)
        requires
            len >= 0,
            nsq < (len + 1) * (len + 1),
            nsq >= FX_ONE * FX_ONE,
    ;
    lemma_below_sqrt(mx, len, nsq);
    lemma_below_sqrt(my, len, nsq);
    lemma_below_sqrt(mz, len, nsq);
    lemma_scaled_div_bounds(v.x, len);
    lemma_scaled_div_bounds(v.y, len);
    lemma_scaled_div_bounds(v.z, len);
    let qx = scaled_q(v.x, len);
    let qy = scaled_q(v.y, len);
    let qz = scaled_q(v.z, len);
    let r = spec_v3_normalize(v);
    assert(r.x as int == if v.x >= 0 {
        qx
    } else {
        -qx
    });
    assert((r.x as int) * (r.x as int) == qx * qx) by (nonlinear_arith)
        requires
            r.x as int == qx || r.x as int == -qx,
    ;
    assert((r.y as int) * (r.y as int) == qy * qy) by (nonlinear_arith)
        requires
            r.y as int == qy || r.y as int == -qy,
    ;
    assert((r.z as int) * (r.z as int) == qz * qz) by (nonlinear_arith)
        requires
            r.z as int == qz || r.z as int == -qz,
    ;
    // Upper bound: len^2 * sum(q^2) <= FX_ONE^2 * nsq <= (FX_ONE^2 + 3 FX_ONE) * len^2.
    assert(len * len * (qx * qx) <= FX_ONE * FX_ONE * (mx * mx)) by (nonlinear_arith)
        requires
            0 <= len * qx,
            len * qx <= mx * FX_ONE,
    ;
    assert(len * len * (qy * qy) <= FX_ONE * FX_ONE * (my * my)) by (nonlinear_arith)
        requires
            0 <= len * qy,
            len * qy <= my * FX_ONE,
    ;
    assert(len * len * (qz * qz) <= FX_ONE * FX_ONE * (mz * mz)) by (nonlinear_arith)
        requires
            0 <= len * qz,
            len * qz <= mz * FX_ONE,
    ;
    assert(0 <= len * qx && 0 <= len * qy && 0 <= len * qz) by (nonlinear_arith)
        requires
            len >= 1,
            qx >= 0,
            qy >= 0,
            qz >= 0,
    ;
    assert(len * len * (qx * qx + qy * qy + qz * qz) <= FX_ONE * FX_ONE * nsq)
        by (nonlinear_arith)
        requires
            len * len * (qx * qx) <= FX_ONE * FX_ONE * (mx * mx),
            len * len * (qy * qy) <= FX_ONE * FX_ONE * (my * my),
            len * len * (qz * qz) <= FX_ONE * FX_ONE * (mz * mz),
            nsq == mx * mx + my * my + mz * mz,
    ;
    assert(nsq <= len * len + 2 * len) by (nonlinear_arith)
        requires
            nsq < (len + 1) * (len + 1),
    ;
    assert(FX_ONE * FX_ONE * nsq <= (FX_ONE * FX_ONE + 3 * FX_ONE) * (len * len))
        by (nonlinear_arith)
        requires
            nsq <= len * len + 2 * len,
            len >= FX_ONE,
    ;
    assert(qx * qx + qy * qy + qz * qz <= FX_ONE * FX_ONE + 3 * FX_ONE) by (nonlinear_arith)
        requires
            len >= 1,
            len * len * (qx * qx + qy * qy + qz * qz) <= (FX_ONE * FX_ONE + 3 * FX_ONE) * (len
                * len),
    ;
    // Lower bound: FX_ONE^2 * nsq < len^2 * sum((q+1)^2).
    assert(FX_ONE * FX_ONE * (mx * mx) < len * len * ((qx + 1) * (qx + 1))) by (nonlinear_arith)
        requires
            0 <= mx * FX_ONE,
            mx * FX_ONE < len * (qx + 1),
    ;
    assert(FX_ONE * FX_ONE * (my * my) < len * len * ((qy + 1) * (qy + 1))) by (nonlinear_arith)
        requires
            0 <= my * FX_ONE,
            my * FX_ONE < len * (qy + 1),
    ;
    assert(FX_ONE * FX_ONE * (mz * mz) < len * len * ((qz + 1) * (qz + 1))) by (nonlinear_arith)
        requires
            0 <= mz * FX_ONE,
            mz * FX_ONE < len * (qz + 1),
    ;
    assert(0 <= mx * FX_ONE && 0 <= my * FX_ONE && 0 <= mz * FX_ONE);
    assert(FX_ONE * FX_ONE * nsq < len * len * ((qx + 1) * (qx + 1) + (qy + 1) * (qy + 1) + (qz
        + 1) * (qz + 1))) by (nonlinear_arith)
        requires
            FX_ONE * FX_ONE * (mx * mx) < len * len * ((qx + 1) * (qx + 1)),
            FX_ONE * FX_ONE * (my * my) < len * len * ((qy + 1) * (qy + 1)),
            FX_ONE * FX_ONE * (mz * mz) < len * len * ((qz + 1) * (qz + 1)),
            nsq == mx * mx + my * my + mz * mz,
    ;
    assert((qx + 1) * (qx + 1) + (qy + 1) * (qy + 1) + (qz + 1) * (qz + 1) == qx * qx + qy * qy
        + qz * qz + 2 * (qx + qy + qz) + 3) by (nonlinear_arith);
    assert(FX_ONE * FX_ONE * (len * len) <= FX_ONE * FX_ONE * nsq) by (nonlinear_arith)
        requires
            len * len <= nsq,
    ;
    assert(FX_ONE * FX_ONE < qx * qx + qy * qy + qz * qz + 2 * (qx + qy + qz) + 3)
        by (nonlinear_arith)
        requires
            len >= 1,
            FX_ONE * FX_ONE * (len * len) < len * len * (qx * qx + qy * qy + qz * qz + 2 * (qx + qy
                + qz) + 3),
    ;
    assert(qx * qx + qy * qy + qz * qz > FX_ONE * FX_ONE - 7 * FX_ONE);
}

} // verus!
