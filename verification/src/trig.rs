//! Fixed-point sine and cosine over angles in thousandths of a degree.
//!
//! The half-turn sine is the classical rational approximation
//! `4x(180000 - x) / (40500000000 - x(180000 - x))`, scaled by `FP_ONE`.
//! It is exact at 0°, 30°, 90°, 150° and 180°, and within a few thousandths
//! elsewhere; in particular `sin 0 == 0` and `cos 0 == FP_ONE` hold exactly,
//! which the transform math depends on.

use vstd::prelude::*;
use vstd::arithmetic::div_mod::{lemma_div_is_ordered, lemma_div_multiples_vanish};

use crate::angle::{canonical, norm_angle, spec_norm_angle};

verus! {

/// The half-turn rational sine, scaled by `FP_ONE`; meaningful on
/// [0, 180000].
pub open spec fn spec_bha(x: int) -> int {
    (4000 * (x * (180000 - x))) / (40500000000 - x * (180000 - x))
}

/// Sine of a canonical-or-not angle, scaled by `FP_ONE`.
pub open spec fn spec_sin(a: int) -> int {
    let n = spec_norm_angle(a);
    if n >= 0 {
        spec_bha(n)
    } else {
        -spec_bha(-n)
    }
}

/// Cosine of an angle, scaled by `FP_ONE`: the sine of its complement.
pub open spec fn spec_cos(a: int) -> int {
    spec_sin(90000 - spec_norm_angle(a))
}

/// The product `x * (180000 - x)` stays within [0, 8100000000] on the
/// half turn.
proof fn lemma_bha_product_bounds(x: int)
    requires
        0 <= x <= 180000,
    ensures
        0 <= x * (180000 - x) <= 8100000000,
{
    assert(0 <= x * (180000 - x) <= 8100000000) by (nonlinear_arith)
        requires
            0 <= x <= 180000,
    ;
}

/// The rational sine stays within [0, FP_ONE] on the half turn.
pub proof fn lemma_bha_bounds(x: int)
    requires
        0 <= x <= 180000,
    ensures
        0 <= spec_bha(x) <= 1000,
{
    lemma_bha_product_bounds(x);
    let p = x * (180000 - x);
    let den = 40500000000 - p;
    assert(4000 * p <= 1000 * den);
    lemma_div_is_ordered(4000 * p, 1000 * den, den);
    lemma_div_multiples_vanish(1000, den);
    assert((den * 1000) / den == 1000);
    assert(1000 * den == den * 1000);
    assert((4000 * p) / den >= 0) by (nonlinear_arith)
        requires
            p >= 0,
            den > 0,
    ;
}

/// Evaluate the half-turn rational sine.
fn bha(x: i64) -> (r: i64)
    requires
        0 <= x <= 180000,
    ensures
        r as int == spec_bha(x as int),
        0 <= r <= 1000,
{
    proof {
        lemma_bha_product_bounds(x as int);
        lemma_bha_bounds(x as int);
    }
    let xu: u64 = x as u64;
    let p: u64 = xu * (180000 - xu);
    let num: u64 = 4000 * p;
    let den: u64 = 40500000000 - p;
    (num / den) as i64
}

/// Fixed-point sine.
pub fn sin_fp(a: i64) -> (r: i64)
    ensures
        r as int == spec_sin(a as int),
        -1000 <= r <= 1000,
{
    let n: i64 = norm_angle(a as i128);
    if n >= 0 {
        bha(n)
    } else {
        proof {
            lemma_bha_bounds(-(n as int));
        }
        -bha(-n)
    }
}

/// Fixed-point cosine.
pub fn cos_fp(a: i64) -> (r: i64)
    ensures
        r as int == spec_cos(a as int),
        -1000 <= r <= 1000,
{
    let n: i64 = norm_angle(a as i128);
    sin_fp(90000 - n)
}

/// The exact values the transform math relies on: sine vanishes and cosine
/// is one at angle zero, and sine is one at a quarter turn.
pub proof fn lemma_trig_exact_at_axes()
    ensures
        spec_sin(0) == 0,
        spec_cos(0) == 1000,
        spec_sin(90000) == 1000,
        spec_sin(-90000) == -1000,
{
    assert(spec_norm_angle(0) == 0);
    assert(spec_norm_angle(90000) == 90000);
    assert(spec_norm_angle(-90000) == -90000);
    assert(spec_bha(0) == 0);
    assert(90000 * (180000 - 90000) == 8100000000) by (nonlinear_arith);
    assert(spec_bha(90000) == (32400000000000int) / (32400000000int));
    assert(spec_bha(90000) == 1000);
}

} // verus!
