//! Fixed-point geometry for the interaction machines.
//!
//! Lengths, velocities and quaternion components are carried as `i64`
//! milli-units: one world unit is `MILLI` (1000). Division follows Rust's
//! truncating semantics, written out over magnitudes so that the spec-level
//! `tdiv` says exactly what the executable code computes.

use vstd::prelude::*;

verus! {

/// One world unit expressed in fixed-point ticks.
pub const MILLI: i64 = 1000;

/// Bound on position and half-extent coordinates the machines accept
/// (100 world units).
pub const COORD_LIMIT: i64 = 100_000;

/// Bound on quaternion components: a unit quaternion in milli scale stays
/// within `MILLI`, with headroom for unnormalized input.
pub const QUAT_LIMIT: i64 = 2000;

/// Bound on the coordinates accepted by `norm_sq` (three squares must fit
/// in an `i64`).
pub const NORM_ARG_LIMIT: i64 = 1_500_000_000;

/// Bound on the coordinates accepted by `dist_sq`.
pub const DIST_ARG_LIMIT: i64 = 700_000_000;

/// Bound on the vector a quaternion rotation accepts.
pub const ROT_ARG_LIMIT: i64 = 200_000;

/// Bound on every component of a rotated vector (49 times `ROT_ARG_LIMIT`).
pub const ROT_OUT_LIMIT: i64 = 9_800_000;

pub open spec fn abs_i(a: int) -> int {
    if a >= 0 {
        a
    } else {
        -a
    }
}

/// Truncating (round-toward-zero) division, the semantics of Rust's `/` on
/// signed integers, defined over magnitudes.
pub open spec fn tdiv(a: int, b: int) -> int {
    if (a >= 0) == (b >= 0) {
        abs_i(a) / abs_i(b)
    } else {
        -(abs_i(a) / abs_i(b))
    }
}

/// Truncating division on `i64`, with its result pinned to `tdiv`.
pub fn tdiv_i64(a: i64, b: i64) -> (r: i64)
    requires
        b != 0,
        -i64::MAX <= a,
        -i64::MAX <= b,
    ensures
        r == tdiv(a as int, b as int),
        abs_i(r as int) == abs_i(a as int) / abs_i(b as int),
{
    let an: u64 = if a >= 0 {
        a as u64
    } else {
        (-a) as u64
    };
    let bn: u64 = if b >= 0 {
        b as u64
    } else {
        (-b) as u64
    };
    let q: u64 = an / bn;
    assert(an == abs_i(a as int) && bn == abs_i(b as int));
    assert(q <= an) by {
        vstd::arithmetic::div_mod::lemma_div_nonincreasing(an as int, bn as int);
    }
    if (a >= 0) == (b >= 0) {
        q as i64
    } else {
        -(q as i64)
    }
}

/// `r` is the integer square root of `n`.
pub open spec fn is_sqrt_floor(n: int, r: int) -> bool {
    0 <= r && r * r <= n && n < (r + 1) * (r + 1)
}

/// The integer square root as a spec-level function.
pub open spec fn sqrt_floor(n: int) -> int {
    choose|r: int| is_sqrt_floor(n, r)
}

/// Two integer square roots of the same number are equal.
pub proof fn lemma_sqrt_floor_unique(n: int, r1: int, r2: int)
    requires
        is_sqrt_floor(n, r1),
        is_sqrt_floor(n, r2),
    ensures
        r1 == r2,
{
    if r1 < r2 {
        assert((r1 + 1) * (r1 + 1) <= r2 * r2) by (nonlinear_arith)
            requires 0 <= r1 + 1 <= r2,
        ;
    }
    if r2 < r1 {
        assert((r2 + 1) * (r2 + 1) <= r1 * r1) by (nonlinear_arith)
            requires 0 <= r2 + 1 <= r1,
        ;
    }
}

/// Any witness of `is_sqrt_floor` is the value of `sqrt_floor`.
pub proof fn lemma_sqrt_floor_of(n: int, r: int)
    requires
        is_sqrt_floor(n, r),
    ensures
        sqrt_floor(n) == r,
{
    let rc = choose|rc: int| is_sqrt_floor(n, rc);
    lemma_sqrt_floor_unique(n, rc, r);
}

/// Every non-negative number has an integer square root, so `sqrt_floor`
/// satisfies its defining property.
pub proof fn lemma_sqrt_floor_exists(n: int)
    requires
        n >= 0,
    ensures
        is_sqrt_floor(n, sqrt_floor(n)),
    decreases n,
{
    if n == 0 {
        assert(is_sqrt_floor(0, 0));
    } else {
        lemma_sqrt_floor_exists(n - 1);
        let r = sqrt_floor(n - 1);
        if (r + 1) * (r + 1) <= n {
            assert((r + 1) * (r + 1) < (r + 2) * (r + 2)) by (nonlinear_arith)
                requires r >= 0,
            ;
            assert(is_sqrt_floor(n, r + 1));
        } else {
            assert(is_sqrt_floor(n, r));
        }
    }
}

/// A common factor in numerator and denominator cancels under integer
/// division: `(a * c) / (b * c) == a / b`.
pub proof fn lemma_div_mul_cancel(a: int, b: int, c: int)
    requires
        0 <= a,
        0 < b,
        0 < c,
    ensures
        (a * c) / (b * c) == a / b,
{
    let q = a / b;
    let r = a % b;
    vstd::arithmetic::div_mod::lemma_fundamental_div_mod(a, b);
    assert(a * c == q * (b * c) + r * c && 0 <= r * c && r * c < b * c) by (nonlinear_arith)
        requires a == q * b + r, 0 <= r < b, 0 < c,
    ;
    vstd::arithmetic::div_mod::lemma_fundamental_div_mod_converse_div(a * c, b * c, q, r * c);
}

/// Integer square root by bisection.
pub fn isqrt_u64(n: u64) -> (r: u64)
    ensures
        is_sqrt_floor(n as int, r as int),
        r == sqrt_floor(n as int),
{
    let mut lo: u64 = 0;
    let mut hi: u64 = 0x1_0000_0000;
    while hi - lo > 1
        invariant
            lo < hi <= 0x1_0000_0000,
            (lo as int) * (lo as int) <= n as int,
            (n as int) < (hi as int) * (hi as int),
        decreases hi - lo,
    {
        let mid: u64 = lo + (hi - lo) / 2;
        assert((mid as int) * (mid as int) <= 0xffff_ffffu64 * 0xffff_ffffu64) by (nonlinear_arith)
            requires 0 <= mid < 0x1_0000_0000u64,
        ;
        if mid * mid <= n {
            lo = mid;
        } else {
            hi = mid;
        }
    }
    proof {
        lemma_sqrt_floor_of(n as int, lo as int);
    }
    lo
}

/// A planar vector in fixed-point milli-units (thumbstick axes).
#[derive(Clone, Copy, PartialEq, Eq, Structural, Debug)]
pub struct Vec2Fx {
    pub x: i64,
    pub y: i64,
}

impl Vec2Fx {
    /// The zero vector.
    pub fn zero() -> (r: Vec2Fx)
        ensures
            r == (Vec2Fx { x: 0, y: 0 }),
    {
        Vec2Fx { x: 0, y: 0 }
    }
}

/// A vector in fixed-point milli-units.
#[derive(Clone, Copy, PartialEq, Eq, Structural, Debug)]
pub struct Vec3Fx {
    pub x: i64,
    pub y: i64,
    pub z: i64,
}

/// A quaternion in fixed-point milli scale; the identity is
/// `(0, 0, 0, MILLI)`.
#[derive(Clone, Copy, PartialEq, Eq, Structural, Debug)]
pub struct QuatFx {
    pub x: i64,
    pub y: i64,
    pub z: i64,
    pub w: i64,
}

/// A position together with an orientation.
#[derive(Clone, Copy, PartialEq, Eq, Structural, Debug)]
pub struct PoseFx {
    pub position: Vec3Fx,
    pub orientation: QuatFx,
}

impl Vec3Fx {
    /// Every component lies within `bound`.
    pub open spec fn in_range(self, bound: int) -> bool {
        &&& -bound <= self.x <= bound
        &&& -bound <= self.y <= bound
        &&& -bound <= self.z <= bound
    }

    /// The zero vector.
    pub fn zero() -> (r: Vec3Fx)
        ensures
            r == (Vec3Fx { x: 0, y: 0, z: 0 }),
    {
        Vec3Fx { x: 0, y: 0, z: 0 }
    }
}

impl QuatFx {
    /// Every component lies within `bound`.
    pub open spec fn in_range(self, bound: int) -> bool {
        &&& -bound <= self.x <= bound
        &&& -bound <= self.y <= bound
        &&& -bound <= self.z <= bound
        &&& -bound <= self.w <= bound
    }

    /// The identity rotation.
    pub fn identity() -> (r: QuatFx)
        ensures
            r == (QuatFx { x: 0, y: 0, z: 0, w: MILLI as i64 }),
    {
        QuatFx { x: 0, y: 0, z: 0, w: MILLI }
    }
}

/// The squared Euclidean norm, in squared milli-units.
pub open spec fn norm_sq_spec(v: Vec3Fx) -> int {
    v.x * v.x + v.y * v.y + v.z * v.z
}

pub fn norm_sq(v: &Vec3Fx) -> (r: i64)
    requires
        v.in_range(NORM_ARG_LIMIT as int),
    ensures
        r == norm_sq_spec(*v),
        r >= 0,
{
    proof {
        lemma_square_bound(v.x as int, NORM_ARG_LIMIT as int);
        lemma_square_bound(v.y as int, NORM_ARG_LIMIT as int);
        lemma_square_bound(v.z as int, NORM_ARG_LIMIT as int);
    }
    v.x * v.x + v.y * v.y + v.z * v.z
}

/// The squared distance between two points, in squared milli-units.
pub open spec fn dist_sq_spec(a: Vec3Fx, b: Vec3Fx) -> int {
    (a.x - b.x) * (a.x - b.x) + (a.y - b.y) * (a.y - b.y) + (a.z - b.z) * (a.z - b.z)
}

pub fn dist_sq(a: &Vec3Fx, b: &Vec3Fx) -> (r: i64)
    requires
        a.in_range(DIST_ARG_LIMIT as int),
        b.in_range(DIST_ARG_LIMIT as int),
    ensures
        r == dist_sq_spec(*a, *b),
        r >= 0,
{
    let dx: i64 = a.x - b.x;
    let dy: i64 = a.y - b.y;
    let dz: i64 = a.z - b.z;
    proof {
        lemma_square_bound(dx as int, 2 * DIST_ARG_LIMIT as int);
        lemma_square_bound(dy as int, 2 * DIST_ARG_LIMIT as int);
        lemma_square_bound(dz as int, 2 * DIST_ARG_LIMIT as int);
    }
    dx * dx + dy * dy + dz * dz
}

/// `|a| <= b` bounds the square: `0 <= a * a <= b * b`.
pub proof fn lemma_square_bound(a: int, b: int)
    requires
        -b <= a <= b,
    ensures
        0 <= a * a <= b * b,
{
    assert(0 <= a * a <= b * b) by (nonlinear_arith)
        requires -b <= a <= b,
    ;
}

/// `|a| <= ca` and `|b| <= cb` bound the product: `|a * b| <= ca * cb`.
pub proof fn lemma_mul_bound(a: int, b: int, ca: int, cb: int)
    requires
        -ca <= a <= ca,
        -cb <= b <= cb,
    ensures
        -(ca * cb) <= a * b <= ca * cb,
{
    assert(-(ca * cb) <= a * b <= ca * cb) by (nonlinear_arith)
        requires -ca <= a <= ca, -cb <= b <= cb,
    ;
}

/// The vector part of rotating `v` by `q`, first half:
/// `t = 2 * (q.xyz x v) / MILLI`, componentwise with truncating division.
pub open spec fn rot_t(q: QuatFx, v: Vec3Fx) -> (int, int, int) {
    (
        tdiv(2 * (q.y * v.z - q.z * v.y), MILLI as int),
        tdiv(2 * (q.z * v.x - q.x * v.z), MILLI as int),
        tdiv(2 * (q.x * v.y - q.y * v.x), MILLI as int),
    )
}

/// Rotating `v` by `q` in milli scale:
/// `v + (q.w * t) / MILLI + (q.xyz x t) / MILLI` with `t` as in `rot_t`.
pub open spec fn quat_rotate_math(q: QuatFx, v: Vec3Fx) -> (int, int, int) {
    let (tx, ty, tz) = rot_t(q, v);
    (
        v.x + tdiv(q.w * tx, MILLI as int) + tdiv(q.y * tz - q.z * ty, MILLI as int),
        v.y + tdiv(q.w * ty, MILLI as int) + tdiv(q.z * tx - q.x * tz, MILLI as int),
        v.z + tdiv(q.w * tz, MILLI as int) + tdiv(q.x * ty - q.y * tx, MILLI as int),
    )
}

/// Rotate a vector by a quaternion, both in milli scale.
pub fn quat_rotate(q: &QuatFx, v: &Vec3Fx) -> (r: Vec3Fx)
    requires
        q.in_range(QUAT_LIMIT as int),
        v.in_range(ROT_ARG_LIMIT as int),
    ensures
        (r.x as int, r.y as int, r.z as int) == quat_rotate_math(*q, *v),
        r.in_range(ROT_OUT_LIMIT as int),
{
    proof {
        lemma_mul_bound(q.x as int, v.x as int, QUAT_LIMIT as int, ROT_ARG_LIMIT as int);
        lemma_mul_bound(q.x as int, v.y as int, QUAT_LIMIT as int, ROT_ARG_LIMIT as int);
        lemma_mul_bound(q.x as int, v.z as int, QUAT_LIMIT as int, ROT_ARG_LIMIT as int);
        lemma_mul_bound(q.y as int, v.x as int, QUAT_LIMIT as int, ROT_ARG_LIMIT as int);
        lemma_mul_bound(q.y as int, v.y as int, QUAT_LIMIT as int, ROT_ARG_LIMIT as int);
        lemma_mul_bound(q.y as int, v.z as int, QUAT_LIMIT as int, ROT_ARG_LIMIT as int);
        lemma_mul_bound(q.z as int, v.x as int, QUAT_LIMIT as int, ROT_ARG_LIMIT as int);
        lemma_mul_bound(q.z as int, v.y as int, QUAT_LIMIT as int, ROT_ARG_LIMIT as int);
        lemma_mul_bound(q.z as int, v.z as int, QUAT_LIMIT as int, ROT_ARG_LIMIT as int);
    }
    let tx: i64 = tdiv_i64(2 * (q.y * v.z - q.z * v.y), MILLI);
    let ty: i64 = tdiv_i64(2 * (q.z * v.x - q.x * v.z), MILLI);
    let tz: i64 = tdiv_i64(2 * (q.x * v.y - q.y * v.x), MILLI);
    // |t| <= 2 * 2 * QUAT_LIMIT * ROT_ARG_LIMIT / MILLI = 1_600_000
    proof {
        vstd::arithmetic::div_mod::lemma_div_is_ordered(
            abs_i(2 * (q.y * v.z - q.z * v.y)),
            1_600_000_000,
            MILLI as int,
        );
        vstd::arithmetic::div_mod::lemma_div_is_ordered(
            abs_i(2 * (q.z * v.x - q.x * v.z)),
            1_600_000_000,
            MILLI as int,
        );
        vstd::arithmetic::div_mod::lemma_div_is_ordered(
            abs_i(2 * (q.x * v.y - q.y * v.x)),
            1_600_000_000,
            MILLI as int,
        );
        lemma_mul_bound(q.w as int, tx as int, QUAT_LIMIT as int, 1_600_000);
        lemma_mul_bound(q.w as int, ty as int, QUAT_LIMIT as int, 1_600_000);
        lemma_mul_bound(q.w as int, tz as int, QUAT_LIMIT as int, 1_600_000);
        lemma_mul_bound(q.x as int, tx as int, QUAT_LIMIT as int, 1_600_000);
        lemma_mul_bound(q.x as int, ty as int, QUAT_LIMIT as int, 1_600_000);
        lemma_mul_bound(q.x as int, tz as int, QUAT_LIMIT as int, 1_600_000);
        lemma_mul_bound(q.y as int, tx as int, QUAT_LIMIT as int, 1_600_000);
        lemma_mul_bound(q.y as int, ty as int, QUAT_LIMIT as int, 1_600_000);
        lemma_mul_bound(q.y as int, tz as int, QUAT_LIMIT as int, 1_600_000);
        lemma_mul_bound(q.z as int, tx as int, QUAT_LIMIT as int, 1_600_000);
        lemma_mul_bound(q.z as int, ty as int, QUAT_LIMIT as int, 1_600_000);
        lemma_mul_bound(q.z as int, tz as int, QUAT_LIMIT as int, 1_600_000);
    }
    let rx: i64 = v.x + tdiv_i64(q.w * tx, MILLI) + tdiv_i64(q.y * tz - q.z * ty, MILLI);
    let ry: i64 = v.y + tdiv_i64(q.w * ty, MILLI) + tdiv_i64(q.z * tx - q.x * tz, MILLI);
    let rz: i64 = v.z + tdiv_i64(q.x * ty - q.y * tx, MILLI) + tdiv_i64(q.w * tz, MILLI);
    Vec3Fx { x: rx, y: ry, z: rz }
}

} // verus!
