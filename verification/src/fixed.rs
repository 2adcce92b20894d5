//! Signed 16.16 fixed-point scalar arithmetic.
//!
//! A scalar is an `i64` holding `value * 65536`. All operations saturate at
//! the `i64` range instead of overflowing, so every function here is total
//! and deterministic. Division truncates toward zero, as hardware floating
//! point rounding toward zero would.

use vstd::prelude::*;

verus! {

/// The fixed-point representation of 1.0.
pub const FX_ONE: i64 = 65536;

/// A quarter turn (pi/2) in fixed-point radians.
pub const FX_HALF_PI: i64 = 102944;

/// A full turn (2*pi) in fixed-point radians; a multiple of `FX_HALF_PI`
/// so that quadrant reduction is exact.
pub const FX_TURN: i64 = 4 * FX_HALF_PI;

/// Saturates a mathematical integer into the `i64` range.
pub open spec fn fx_clamp(v: int) -> int {
    if v > i64::MAX as int {
        i64::MAX as int
    } else if v < i64::MIN as int {
        i64::MIN as int
    } else {
        v
    }
}

/// Division truncated toward zero (the rounding of Rust's `/`).
pub open spec fn tdiv(n: int, d: int) -> int
    recommends
        d != 0,
{
    let q = (if n >= 0 { n } else { -n }) / (if d >= 0 { d } else { -d });
    if (n >= 0) == (d >= 0) {
        q
    } else {
        -q
    }
}

/// Saturating fixed-point addition.
pub open spec fn fxa(a: i64, b: i64) -> i64 {
    fx_clamp(a + b) as i64
}

/// Saturating fixed-point subtraction.
pub open spec fn fxs(a: i64, b: i64) -> i64 {
    fx_clamp(a - b) as i64
}

/// Saturating fixed-point multiplication: `a * b / FX_ONE`, truncated.
pub open spec fn fxm(a: i64, b: i64) -> i64 {
    fx_clamp(tdiv(a as int * b as int, FX_ONE as int)) as i64
}

/// Saturating fixed-point division: `a * FX_ONE / b`, truncated.
pub open spec fn fxd(a: i64, b: i64) -> i64
    recommends
        b != 0,
{
    fx_clamp(tdiv(a as int * FX_ONE as int, b as int)) as i64
}

/// Saturating integer division of a fixed-point value by a plain integer.
pub open spec fn fxdi(a: i64, d: i64) -> i64
    recommends
        d != 0,
{
    fx_clamp(tdiv(a as int, d as int)) as i64
}

fn clamp_to_i64(v: i128) -> (r: i64)
    ensures
        r as int == fx_clamp(v as int),
{
    if v > i64::MAX as i128 {
        i64::MAX
    } else if v < i64::MIN as i128 {
        i64::MIN
    } else {
        v as i64
    }
}

fn tdiv_i128(n: i128, d: i128) -> (r: i128)
    requires
        d != 0,
        n > i128::MIN,
        d > i128::MIN,
    ensures
        r as int == tdiv(n as int, d as int),
{
    let nn: u128 = if n >= 0 {
        n as u128
    } else {
        (-n) as u128
    };
    let dd: u128 = if d >= 0 {
        d as u128
    } else {
        (-d) as u128
    };
    let q: u128 = nn / dd;
    assert(q <= nn) by (nonlinear_arith)
        requires
            dd >= 1,
            q == nn / dd,
    ;
    if (n >= 0) == (d >= 0) {
        q as i128
    } else {
        -(q as i128)
    }
}

/// Saturating fixed-point addition.
pub fn fx_add(a: i64, b: i64) -> (r: i64)
    ensures
        r == fxa(a, b),
{
    clamp_to_i64(a as i128 + b as i128)
}

/// Saturating fixed-point subtraction.
pub fn fx_sub(a: i64, b: i64) -> (r: i64)
    ensures
        r == fxs(a, b),
{
    clamp_to_i64(a as i128 - b as i128)
}

proof fn lemma_i64_product_fits(a: int, b: int)
    requires
        i64::MIN <= a <= i64::MAX,
        i64::MIN <= b <= i64::MAX,
    ensures
        -0x40000000000000000000000000000000 <= a * b <= 0x40000000000000000000000000000000,
{
    assert(-0x40000000000000000000000000000000 <= a * b
        <= 0x40000000000000000000000000000000) by (nonlinear_arith)
        requires
            i64::MIN <= a <= i64::MAX,
            i64::MIN <= b <= i64::MAX,
    ;
}

/// Saturating fixed-point multiplication.
pub fn fx_mul(a: i64, b: i64) -> (r: i64)
    ensures
        r == fxm(a, b),
{
    proof {
        lemma_i64_product_fits(a as int, b as int);
    }
    let p: i128 = (a as i128) * (b as i128);
    clamp_to_i64(tdiv_i128(p, FX_ONE as i128))
}

/// Saturating fixed-point division. The divisor must be nonzero.
pub fn fx_div(a: i64, b: i64) -> (r: i64)
    requires
        b != 0,
    ensures
        r == fxd(a, b),
{
    proof {
        lemma_i64_product_fits(a as int, FX_ONE as int);
    }
    let p: i128 = (a as i128) * (FX_ONE as i128);
    clamp_to_i64(tdiv_i128(p, b as i128))
}

/// Saturating integer division of a fixed-point value by a plain integer.
pub fn fx_div_int(a: i64, d: i64) -> (r: i64)
    requires
        d != 0,
    ensures
        r == fxdi(a, d),
{
    clamp_to_i64(tdiv_i128(a as i128, d as i128))
}

/// The integer square root: the greatest `r` with `r * r <= n`.
pub open spec fn isqrt_spec(n: nat) -> nat
    decreases n,
{
    if n == 0 {
        0
    } else {
        let r = isqrt_spec((n - 1) as nat);
        if (r + 1) * (r + 1) <= n {
            r + 1
        } else {
            r
        }
    }
}

/// `isqrt_spec` is characterized by the two inequalities of a floor square
/// root.
pub proof fn lemma_isqrt_bounds(n: nat)
    ensures
        isqrt_spec(n) * isqrt_spec(n) <= n,
        n < (isqrt_spec(n) + 1) * (isqrt_spec(n) + 1),
    decreases n,
{
    if n > 0 {
        lemma_isqrt_bounds((n - 1) as nat);
        let r = isqrt_spec((n - 1) as nat);
        let s = isqrt_spec(n);
        if (r + 1) * (r + 1) <= n {
            assert(s == r + 1);
            assert(s * s <= n && n < (s + 1) * (s + 1)) by (nonlinear_arith)
                requires
                    s == r + 1,
                    (r + 1) * (r + 1) <= n,
                    n - 1 < (r + 1) * (r + 1),
                    r >= 0,
            ;
        } else {
            assert(s == r);
            assert(s * s <= n && n < (s + 1) * (s + 1)) by (nonlinear_arith)
                requires
                    s == r,
                    r * r <= n - 1,
                    n < (r + 1) * (r + 1),
                    n >= 1,
            ;
        }
    } else {
        assert(isqrt_spec(n) == 0);
        assert(0 * 0 <= n && n < (0 + 1) * (0 + 1)) by (nonlinear_arith)
            requires
                n == 0,
        ;
    }
}

/// Any value meeting the floor-square-root inequalities equals `isqrt_spec`.
pub proof fn lemma_isqrt_unique(n: nat, r: nat)
    requires
        r * r <= n,
        n < (r + 1) * (r + 1),
    ensures
        r == isqrt_spec(n),
{
    let s = isqrt_spec(n);
    lemma_isqrt_bounds(n);
    if r < s {
        assert((r + 1) * (r + 1) <= s * s) by (nonlinear_arith)
            requires
                r + 1 <= s,
        ;
    }
    if s < r {
        assert((s + 1) * (s + 1) <= r * r) by (nonlinear_arith)
            requires
                s + 1 <= r,
        ;
    }
}

/// The integer square root, by binary search over the answer.
pub fn isqrt_u128(n: u128) -> (r: u64)
    ensures
        r as nat == isqrt_spec(n as nat),
        (r as int) * (r as int) <= n as int,
        (n as int) < (r as int + 1) * (r as int + 1),
{
    let mut lo: u64 = 0;
    let mut hi: u64 = u64::MAX;
    assert((n as int) < (hi as int + 1) * (hi as int + 1)) by (nonlinear_arith)
        requires
            n <= u128::MAX,
            hi == u64::MAX,
    ;
    while lo < hi
        invariant
            lo <= hi,
            (lo as int) * (lo as int) <= n as int,
            (n as int) < (hi as int + 1) * (hi as int + 1),
        decreases hi - lo,
    {
        let half: u64 = (hi - lo) / 2;
        assert(lo + half + 1 <= hi);
        let mid: u64 = lo + half + 1;
        assert((mid as int) * (mid as int) <= u128::MAX as int) by (nonlinear_arith)
            requires
                0 <= mid <= u64::MAX,
        ;
        if (mid as u128) * (mid as u128) <= n {
            lo = mid;
        } else {
            hi = mid - 1;
        }
    }
    proof {
        lemma_isqrt_unique(n as nat, lo as nat);
    }
    lo
}

/// An angle reduced to one full turn: `a` modulo `FX_TURN`, in
/// `[0, FX_TURN)`.
pub open spec fn spec_angle_reduce(a: i64) -> i64 {
    if a >= 0 {
        ((a as int) % (FX_TURN as int)) as i64
    } else {
        let m = (-(a as int)) % (FX_TURN as int);
        if m == 0 {
            0
        } else {
            (FX_TURN as int - m) as i64
        }
    }
}

/// Reduces an angle in fixed-point radians to `[0, FX_TURN)`.
pub fn angle_reduce(a: i64) -> (r: i64)
    ensures
        r == spec_angle_reduce(a),
        0 <= r < FX_TURN,
{
    if a >= 0 {
        ((a as u64) % (FX_TURN as u64)) as i64
    } else {
        let m: u64 = (((-(a as i128)) as u128) % (FX_TURN as u128)) as u64;
        if m == 0 {
            0
        } else {
            FX_TURN - (m as i64)
        }
    }
}

/// Truncated Maclaurin polynomial for the sine of `t`, for `t` in the first
/// quadrant.
pub open spec fn spec_sin_poly(t: i64) -> i64 {
    let t2 = fxm(t, t);
    let t3 = fxm(t2, t);
    let t5 = fxm(t3, t2);
    let t7 = fxm(t5, t2);
    fxs(fxa(fxs(t, fxdi(t3, 6)), fxdi(t5, 120)), fxdi(t7, 5040))
}

/// Truncated Maclaurin polynomial for the cosine of `t`, for `t` in the
/// first quadrant.
pub open spec fn spec_cos_poly(t: i64) -> i64 {
    let t2 = fxm(t, t);
    let t4 = fxm(t2, t2);
    let t6 = fxm(t4, t2);
    let t8 = fxm(t4, t4);
    fxa(fxs(fxa(fxs(FX_ONE, fxdi(t2, 2)), fxdi(t4, 24)), fxdi(t6, 720)), fxdi(t8, 40320))
}

fn sin_poly(t: i64) -> (r: i64)
    ensures
        r == spec_sin_poly(t),
{
    let t2 = fx_mul(t, t);
    let t3 = fx_mul(t2, t);
    let t5 = fx_mul(t3, t2);
    let t7 = fx_mul(t5, t2);
    fx_sub(fx_add(fx_sub(t, fx_div_int(t3, 6)), fx_div_int(t5, 120)), fx_div_int(t7, 5040))
}

fn cos_poly(t: i64) -> (r: i64)
    ensures
        r == spec_cos_poly(t),
{
    let t2 = fx_mul(t, t);
    let t4 = fx_mul(t2, t2);
    let t6 = fx_mul(t4, t2);
    let t8 = fx_mul(t4, t4);
    fx_add(
        fx_sub(fx_add(fx_sub(FX_ONE, fx_div_int(t2, 2)), fx_div_int(t4, 24)), fx_div_int(t6, 720)),
        fx_div_int(t8, 40320),
    )
}

/// The sine of an angle in fixed-point radians: quadrant reduction followed
/// by the first-quadrant polynomial.
pub open spec fn spec_sin(a: i64) -> i64 {
    let r = spec_angle_reduce(a);
    let q = (r as int) / (FX_HALF_PI as int);
    let t = ((r as int) % (FX_HALF_PI as int)) as i64;
    if q == 0 {
        spec_sin_poly(t)
    } else if q == 1 {
        spec_cos_poly(t)
    } else if q == 2 {
        fxs(0, spec_sin_poly(t))
    } else {
        fxs(0, spec_cos_poly(t))
    }
}

/// The cosine of an angle in fixed-point radians.
pub open spec fn spec_cos(a: i64) -> i64 {
    let r = spec_angle_reduce(a);
    let q = (r as int) / (FX_HALF_PI as int);
    let t = ((r as int) % (FX_HALF_PI as int)) as i64;
    if q == 0 {
        spec_cos_poly(t)
    } else if q == 1 {
        fxs(0, spec_sin_poly(t))
    } else if q == 2 {
        fxs(0, spec_cos_poly(t))
    } else {
        spec_sin_poly(t)
    }
}

/// The sine of an angle in fixed-point radians.
pub fn sin_fx(a: i64) -> (r: i64)
    ensures
        r == spec_sin(a),
{
    let red: i64 = angle_reduce(a);
    let q: u64 = (red as u64) / (FX_HALF_PI as u64);
    let t: i64 = red - (q as i64) * FX_HALF_PI;
    if q == 0 {
        sin_poly(t)
    } else if q == 1 {
        cos_poly(t)
    } else if q == 2 {
        fx_sub(0, sin_poly(t))
    } else {
        fx_sub(0, cos_poly(t))
    }
}

/// The cosine of an angle in fixed-point radians.
pub fn cos_fx(a: i64) -> (r: i64)
    ensures
        r == spec_cos(a),
{
    let red: i64 = angle_reduce(a);
    let q: u64 = (red as u64) / (FX_HALF_PI as u64);
    let t: i64 = red - (q as i64) * FX_HALF_PI;
    if q == 0 {
        cos_poly(t)
    } else if q == 1 {
        fx_sub(0, sin_poly(t))
    } else if q == 2 {
        fx_sub(0, cos_poly(t))
    } else {
        sin_poly(t)
    }
}

} // verus!
