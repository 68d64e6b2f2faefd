//! Angles in thousandths of a degree, kept in the canonical range
//! [-180°, 180°).

use vstd::prelude::*;
use vstd::arithmetic::div_mod::{lemma_mod_division_less_than_divisor, lemma_mod_multiples_vanish};

verus! {

/// Thousandths of a degree in a half turn.
pub const HALF_TURN: i64 = 180000;

/// Thousandths of a degree in a full turn.
pub const FULL_TURN: i64 = 360000;

/// True when the angle lies in the canonical range [-180°, 180°).
pub open spec fn canonical(a: int) -> bool {
    -180000 <= a < 180000
}

/// The representative of `a` in the canonical range, congruent to `a`
/// modulo a full turn.
pub open spec fn spec_norm_angle(a: int) -> int {
    ((a + 180000) % 360000) - 180000
}

/// A multiple of the full turn large enough to shift any argument of
/// `norm_angle` into the non-negative range.
pub const NORM_OFFSET: i128 = 360000 * 3000000000000000000000000000;

/// Normalize an angle into the canonical range.
pub fn norm_angle(a: i128) -> (r: i64)
    requires
        -1000000000000000000000000000000 <= a as int <= 1000000000000000000000000000000,
    ensures
        r as int == spec_norm_angle(a as int),
        canonical(r as int),
{
    let sh: i128 = a + 180000 + NORM_OFFSET;
    let m: u128 = (sh as u128) % 360000;
    proof {
        lemma_mod_multiples_vanish(
            3000000000000000000000000000,
            a as int + 180000,
            360000,
        );
        lemma_mod_division_less_than_divisor(a as int + 180000, 360000);
    }
    (m as i64) - 180000
}

/// Every normalized angle is canonical.
pub proof fn lemma_norm_canonical(a: int)
    ensures
        canonical(spec_norm_angle(a)),
{
    lemma_mod_division_less_than_divisor(a + 180000, 360000);
}

/// Normalization is idempotent.
pub proof fn lemma_norm_idempotent(a: int)
    requires
        canonical(a),
    ensures
        spec_norm_angle(a) == a,
{
    lemma_mod_multiples_vanish(0, a + 180000, 360000);
    lemma_mod_division_less_than_divisor(a + 180000, 360000);
    assert((a + 180000) % 360000 == a + 180000) by {
        assert(0 <= a + 180000 < 360000);
    }
}

} // verus!
