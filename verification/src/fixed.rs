//! Fixed-point scalars and vectors.
//!
//! All spatial quantities are signed 64-bit integers scaled by `FP_ONE`
//! (thousandths of a world unit). Arithmetic saturates at the `i64` range, so
//! every operation is total; the saturation point is far beyond any plausible
//! scene coordinate.

use vstd::prelude::*;
use vstd::arithmetic::div_mod::{
    lemma_div_is_ordered, lemma_div_multiples_vanish, lemma_div_pos_is_pos,
};

verus! {

/// Number of fixed-point steps per world unit.
pub const FP_ONE: i64 = 1000;

/// Saturate an unbounded integer into the `i64` range.
pub open spec fn cl64(x: int) -> int {
    if x > i64::MAX as int {
        i64::MAX as int
    } else if x < i64::MIN as int {
        i64::MIN as int
    } else {
        x
    }
}

/// Division truncating toward zero, the semantics of machine division;
/// meaningful for `b > 0`.
pub open spec fn tdiv(a: int, b: int) -> int {
    if a >= 0 {
        a / b
    } else {
        -((-a) / b)
    }
}

/// Saturate a 128-bit value into the `i64` range.
pub fn clamp128(x: i128) -> (r: i64)
    ensures
        r as int == cl64(x as int),
{
    if x > i64::MAX as i128 {
        i64::MAX
    } else if x < i64::MIN as i128 {
        i64::MIN
    } else {
        x as i64
    }
}

/// Truncating division of a 128-bit value by a small positive divisor.
pub fn tdiv128(p: i128, d: i64) -> (r: i128)
    requires
        0 < d,
        (i128::MIN as int) < (p as int),
    ensures
        r as int == tdiv(p as int, d as int),
{
    if p >= 0 {
        let q: u128 = (p as u128) / (d as u128);
        q as i128
    } else {
        let m: u128 = ((-p) as u128) / (d as u128);
        -(m as i128)
    }
}

/// Widening product of two machine words; never overflows the 128-bit range.
pub fn mul_i128(a: i64, b: i64) -> (r: i128)
    ensures
        r as int == a * b,
        -85070591730234615865843651857942052864 <= r as int
            <= 85070591730234615865843651857942052864,
{
    proof {
        assert((a as int) * (b as int) <= 85070591730234615865843651857942052864
            && -85070591730234615865843651857942052864 <= (a as int) * (b as int))
            by (nonlinear_arith)
            requires
                -9223372036854775808 <= a as int <= 9223372036854775807,
                -9223372036854775808 <= b as int <= 9223372036854775807,
        ;
    }
    (a as i128) * (b as i128)
}

/// Saturating addition.
pub fn add_cl(a: i64, b: i64) -> (r: i64)
    ensures
        r as int == cl64(a + b),
{
    clamp128(a as i128 + b as i128)
}

/// Saturating multiplication.
pub fn mul_cl(a: i64, b: i64) -> (r: i64)
    ensures
        r as int == cl64(a * b),
{
    let p: i128 = mul_i128(a, b);
    clamp128(p)
}

/// Saturating fixed-point multiplication: `a * b / FP_ONE` truncated.
pub fn fp_mul(a: i64, b: i64) -> (r: i64)
    ensures
        r as int == cl64(tdiv(a * b, FP_ONE as int)),
{
    let p: i128 = mul_i128(a, b);
    let q: i128 = tdiv128(p, FP_ONE);
    clamp128(q)
}

/// Truncating division cannot grow a bounded numerator: if `|p| <= m * d`
/// then `|p / d| <= m`.
pub proof fn lemma_tdiv_bound(p: int, d: int, m: int)
    requires
        0 < d,
        0 <= m,
        -(m * d) <= p <= m * d,
    ensures
        -m <= tdiv(p, d) <= m,
{
    lemma_div_multiples_vanish(m, d);
    assert(m * d == d * m) by (nonlinear_arith);
    if p >= 0 {
        lemma_div_is_ordered(p, m * d, d);
        lemma_div_pos_is_pos(p, d);
    } else {
        lemma_div_is_ordered(-p, m * d, d);
        lemma_div_pos_is_pos(-p, d);
    }
}

/// Multiplying by the unit scale and dividing it out is the identity.
pub proof fn lemma_tdiv_scale_exact(a: int)
    ensures
        tdiv(a * 1000, 1000) == a,
        tdiv(1000 * a, 1000) == a,
{
    if a >= 0 {
        lemma_div_multiples_vanish(a, 1000);
        assert(a * 1000 == 1000 * a);
    } else {
        lemma_div_multiples_vanish(-a, 1000);
        assert(-(a * 1000) == 1000 * (-a));
        assert(-(1000 * a) == 1000 * (-a));
    }
}

/// Floor of the square root, defined by its unique characterization.
pub open spec fn floor_sqrt(n: int) -> int {
    choose|r: int| 0 <= r && #[trigger] (r * r) <= n && n < (r + 1) * (r + 1)
}

/// The square-root witness exists for every non-negative integer, so
/// `floor_sqrt` denotes it.
pub proof fn lemma_floor_sqrt(n: int)
    requires
        0 <= n,
    ensures
        0 <= floor_sqrt(n),
        floor_sqrt(n) * floor_sqrt(n) <= n,
        n < (floor_sqrt(n) + 1) * (floor_sqrt(n) + 1),
    decreases n,
{
    if n == 0 {
        let w: int = 0;
        assert(0 <= w && w * w <= n && n < (w + 1) * (w + 1)) by (nonlinear_arith)
            requires
                n == 0,
                w == 0,
        ;
    } else {
        lemma_floor_sqrt(n - 1);
        let r = floor_sqrt(n - 1);
        if (r + 1) * (r + 1) <= n {
            assert(n - 1 < (r + 1) * (r + 1));
            assert(n == (r + 1) * (r + 1));
            assert((r + 2) * (r + 2) > n) by (nonlinear_arith)
                requires
                    n == (r + 1) * (r + 1),
                    r >= 0,
            ;
            assert(0 <= r + 1 && (r + 1) * (r + 1) <= n && n < (r + 2) * (r + 2));
        } else {
            assert(0 <= r && r * r <= n && n < (r + 1) * (r + 1));
        }
    }
}

/// `floor_sqrt` is pinned by any witness.
pub proof fn lemma_floor_sqrt_unique(n: int, r: int)
    requires
        0 <= r,
        r * r <= n,
        n < (r + 1) * (r + 1),
    ensures
        floor_sqrt(n) == r,
{
    lemma_floor_sqrt(n);
    let s = floor_sqrt(n);
    if s < r {
        assert((s + 1) * (s + 1) <= r * r) by (nonlinear_arith)
            requires
                0 <= s,
                s < r,
        ;
    }
    if r < s {
        assert((r + 1) * (r + 1) <= s * s) by (nonlinear_arith)
            requires
                0 <= r,
                r < s,
        ;
    }
}

/// Integer square root by bisection.
pub fn isqrt(n: u64) -> (r: u64)
    ensures
        r as int == floor_sqrt(n as int),
{
    let mut lo: u64 = 0;
    let mut hi: u64 = 4294967296;
    assert((hi as int) * (hi as int) > n as int) by (nonlinear_arith)
        requires
            hi as int == 4294967296,
            n as int <= u64::MAX as int,
    ;
    while lo + 1 < hi
        invariant
            lo < hi,
            hi <= 4294967296,
            (lo as int) * (lo as int) <= n as int,
            (hi as int) * (hi as int) > n as int,
        decreases hi - lo,
    {
        let mid: u64 = lo + (hi - lo) / 2;
        assert(lo < mid < hi);
        proof {
            assert((mid as int) * (mid as int) <= 18446744073709551616) by (nonlinear_arith)
                requires
                    0 <= mid as int <= 4294967296,
            ;
        }
        if (mid as u128) * (mid as u128) <= n as u128 {
            lo = mid;
        } else {
            hi = mid;
        }
    }
    proof {
        lemma_floor_sqrt_unique(n as int, lo as int);
    }
    lo
}

/// A position or direction in space, in fixed-point world coordinates.
#[derive(Clone, Copy, Debug, PartialEq, Eq, Structural)]
pub struct Vec3 {
    pub x: i64,
    pub y: i64,
    pub z: i64,
}

/// Component-wise saturating vector sum.
pub open spec fn spec_add3(a: Vec3, b: Vec3) -> Vec3 {
    Vec3 { x: cl64(a.x + b.x) as i64, y: cl64(a.y + b.y) as i64, z: cl64(a.z + b.z) as i64 }
}

/// Component-wise saturating negation.
pub open spec fn spec_neg3(v: Vec3) -> Vec3 {
    Vec3 { x: cl64(-(v.x as int)) as i64, y: cl64(-(v.y as int)) as i64, z: cl64(-(v.z as int)) as i64 }
}

impl Vec3 {
    /// The origin.
    pub fn zero() -> (r: Vec3)
        ensures
            r == (Vec3 { x: 0i64, y: 0i64, z: 0i64 }),
    {
        Vec3 { x: 0, y: 0, z: 0 }
    }

    /// Component-wise saturating sum.
    pub fn add3(self, other: Vec3) -> (r: Vec3)
        ensures
            r == spec_add3(self, other),
    {
        Vec3 {
            x: add_cl(self.x, other.x),
            y: add_cl(self.y, other.y),
            z: add_cl(self.z, other.z),
        }
    }

    /// Component-wise saturating negation.
    pub fn neg3(self) -> (r: Vec3)
        ensures
            r == spec_neg3(self),
    {
        Vec3 {
            x: clamp128(-(self.x as i128)),
            y: clamp128(-(self.y as i128)),
            z: clamp128(-(self.z as i128)),
        }
    }
}

/// Squared length of a small vector.
pub open spec fn spec_norm2(v: Vec3) -> int {
    v.x * v.x + v.y * v.y + v.z * v.z
}

/// The vector rescaled to length `k`: each component becomes
/// `c * k / |v|` truncated. Zero when `v` is zero.
pub open spec fn spec_scaled_unit(v: Vec3, k: i64) -> Vec3 {
    let n = floor_sqrt(spec_norm2(v));
    if n == 0 {
        Vec3 { x: 0i64, y: 0i64, z: 0i64 }
    } else {
        Vec3 {
            x: cl64(tdiv(v.x * k, n)) as i64,
            y: cl64(tdiv(v.y * k, n)) as i64,
            z: cl64(tdiv(v.z * k, n)) as i64,
        }
    }
}

/// Rescale a small vector to length `k` (truncated fixed-point division by
/// the vector's length).
pub fn scaled_unit(v: Vec3, k: i64) -> (r: Vec3)
    requires
        -1000000 <= v.x <= 1000000,
        -1000000 <= v.y <= 1000000,
        -1000000 <= v.z <= 1000000,
        0 <= k <= 1000000,
    ensures
        r == spec_scaled_unit(v, k),
{
    proof {
        assert(0 <= (v.x as int) * (v.x as int) <= 1000000000000
            && 0 <= (v.y as int) * (v.y as int) <= 1000000000000
            && 0 <= (v.z as int) * (v.z as int) <= 1000000000000) by (nonlinear_arith)
            requires
                -1000000 <= v.x as int <= 1000000,
                -1000000 <= v.y as int <= 1000000,
                -1000000 <= v.z as int <= 1000000,
        ;
    }
    let xx: i128 = (v.x as i128) * (v.x as i128);
    let yy: i128 = (v.y as i128) * (v.y as i128);
    let zz: i128 = (v.z as i128) * (v.z as i128);
    let n2: u64 = (xx + yy + zz) as u64;
    assert(n2 as int == spec_norm2(v));
    let n: u64 = isqrt(n2);
    proof {
        lemma_floor_sqrt(n2 as int);
        assert(n as int <= 2000000) by (nonlinear_arith)
            requires
                (n as int) * (n as int) <= 3000000000000,
                0 <= n as int,
        ;
    }
    if n == 0 {
        Vec3 { x: 0, y: 0, z: 0 }
    } else {
        let rx: i64 = clamp128(tdiv128(mul_i128(v.x, k), n as i64));
        let ry: i64 = clamp128(tdiv128(mul_i128(v.y, k), n as i64));
        let rz: i64 = clamp128(tdiv128(mul_i128(v.z, k), n as i64));
        Vec3 { x: rx, y: ry, z: rz }
    }
}

} // verus!
