//! Fixed-point units and the truncating division the signal path uses.

use vstd::prelude::*;
use vstd::arithmetic::div_mod::lemma_div_is_ordered;
use vstd::arithmetic::div_mod::lemma_div_multiples_vanish;
use vstd::arithmetic::div_mod::lemma_div_nonincreasing;
use vstd::arithmetic::div_mod::lemma_div_pos_is_pos;

verus! {

/// Steps per whole unit: every real-valued signal or control is held as an
/// `i64` scaled by this factor.
pub const SCALE: i64 = 4096;

/// Largest admitted magnitude of a walker position (in fixed-point steps).
pub const MAX_POS: i64 = 0x100_0000_0000;

/// Largest admitted magnitude of a walker acceleration.
pub const MAX_ACC: i64 = 0x10_0000;

/// Largest admitted magnitude of a walker velocity.
pub const MAX_VEL: i64 = 0x10_0000;

/// Largest admitted magnitude of an audio sample.
pub const MAX_SAMPLE: i64 = 0x10_0000;

/// Largest admitted linear gain factor.
pub const MAX_GAIN: i64 = 0x10_0000;

/// Integer division rounding toward zero, as `i64` division does.
pub open spec fn trunc_div(a: int, b: int) -> int {
    if a >= 0 {
        a / b
    } else {
        -((-a) / b)
    }
}

/// Truncating division never grows the magnitude and keeps the sign.
pub proof fn lemma_trunc_div_mag(a: int, b: int)
    requires
        0 < b,
    ensures
        a >= 0 ==> 0 <= trunc_div(a, b) <= a,
        a < 0 ==> a <= trunc_div(a, b) <= 0,
{
    if a >= 0 {
        lemma_div_pos_is_pos(a, b);
        lemma_div_nonincreasing(a, b);
    } else {
        lemma_div_pos_is_pos(-a, b);
        lemma_div_nonincreasing(-a, b);
    }
}

/// Truncating division is monotone in the numerator.
pub proof fn lemma_trunc_div_ordered(x: int, y: int, b: int)
    requires
        x <= y,
        0 < b,
    ensures
        trunc_div(x, b) <= trunc_div(y, b),
{
    if x >= 0 {
        lemma_div_is_ordered(x, y, b);
    } else if y < 0 {
        lemma_div_is_ordered(-y, -x, b);
    } else {
        lemma_div_pos_is_pos(-x, b);
        lemma_div_pos_is_pos(y, b);
    }
}

/// Dividing an exact multiple is exact: `trunc_div(a * b, b) == a`.
pub proof fn lemma_trunc_div_exact(a: int, b: int)
    requires
        0 < b,
    ensures
        trunc_div(a * b, b) == a,
{
    if a >= 0 {
        lemma_div_multiples_vanish(a, b);
        assert(a * b == b * a) by (nonlinear_arith);
    } else {
        lemma_div_multiples_vanish(-a, b);
        assert(-(a * b) == b * (-a)) by (nonlinear_arith);
    }
}

/// Scaling by a proper fraction `d / s` (with `0 <= d <= s`) and truncating
/// keeps the result between zero and the original value.
pub proof fn lemma_trunc_div_scale(a: int, d: int, s: int)
    requires
        0 <= d <= s,
        0 < s,
    ensures
        a >= 0 ==> 0 <= trunc_div(a * d, s) <= a,
        a < 0 ==> a <= trunc_div(a * d, s) <= 0,
{
    if a >= 0 {
        assert(0 <= a * d <= a * s) by (nonlinear_arith)
            requires 0 <= d <= s && 0 <= a;
        lemma_div_pos_is_pos(a * d, s);
        lemma_div_is_ordered(a * d, a * s, s);
        lemma_trunc_div_exact(a, s);
        assert(trunc_div(a * d, s) == (a * d) / s);
    } else {
        assert(0 <= (-a) * d <= (-a) * s) by (nonlinear_arith)
            requires 0 <= d <= s && 0 <= -a;
        lemma_div_pos_is_pos((-a) * d, s);
        lemma_div_is_ordered((-a) * d, (-a) * s, s);
        lemma_trunc_div_exact(-a, s);
        assert((-a) * d == -(a * d)) by (nonlinear_arith);
        assert((-a) * s == -(a * s)) by (nonlinear_arith);
    }
}

} // verus!

