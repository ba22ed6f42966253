//! Per-sample output mixing and the gain floor.

use vstd::prelude::*;
use crate::fixed::MAX_GAIN;
use crate::fixed::MAX_SAMPLE;
use crate::fixed::SCALE;
use crate::fixed::lemma_trunc_div_exact;
use crate::fixed::lemma_trunc_div_mag;
use crate::fixed::trunc_div;

verus! {

/// The dry/wet blend, scaled by the fixed `0.5` headroom factor and the
/// linear gain: `(dry * (1 - wet) + tap * wet) * 0.5 * gain` in fixed point.
pub open spec fn mix_spec(dry: int, wet_tap: int, wet_mix: int, gain: int) -> int {
    trunc_div(trunc_div(dry * (SCALE - wet_mix) + wet_tap * wet_mix, SCALE as int) * gain, 2 * SCALE as int)
}

/// The per-block linear gain: muted entirely at or below the -90 dB floor.
pub open spec fn gain_spec(gain_db: int, gain_linear: int) -> int {
    if gain_db > -90 * SCALE {
        gain_linear
    } else {
        0
    }
}

/// The wet/dry ratio in `[0, SCALE]`, from the 0-100 percent control.
pub open spec fn wet_mix_spec(wet_control: int) -> int {
    trunc_div(wet_control, 100)
}

pub fn gain_value(gain_db: i64, gain_linear: i64) -> (r: i64)
    requires
        0 <= gain_linear <= MAX_GAIN,
    ensures
        r == gain_spec(gain_db as int, gain_linear as int),
        0 <= r <= MAX_GAIN,
{
    if gain_db > -90 * SCALE {
        gain_linear
    } else {
        0
    }
}

pub fn wet_mix_value(wet_control: i64) -> (r: i64)
    requires
        0 <= wet_control <= 100 * SCALE,
    ensures
        r == wet_mix_spec(wet_control as int),
        0 <= r <= SCALE,
{
    proof {
        lemma_trunc_div_mag(wet_control as int, 100);
        lemma_trunc_div_exact(SCALE as int, 100);
        crate::fixed::lemma_trunc_div_ordered(wet_control as int, 100 * SCALE as int, 100);
    }
    wet_control / 100
}

pub fn mix_sample(dry: i64, wet_tap: i64, wet_mix: i64, gain: i64) -> (r: i64)
    requires
        -MAX_SAMPLE <= dry <= MAX_SAMPLE,
        -MAX_SAMPLE <= wet_tap <= MAX_SAMPLE,
        0 <= wet_mix <= SCALE,
        0 <= gain <= MAX_GAIN,
    ensures
        r == mix_spec(dry as int, wet_tap as int, wet_mix as int, gain as int),
{
    proof {
        lemma_mix_ranges(dry as int, wet_tap as int, wet_mix as int, gain as int);
    }
    let blend: i64 = (dry * (SCALE - wet_mix) + wet_tap * wet_mix) / SCALE;
    (blend * gain) / (2 * SCALE)
}

/// Intermediate magnitudes of the mix computation stay well inside `i64`.
proof fn lemma_mix_ranges(dry: int, wet_tap: int, wet_mix: int, gain: int)
    requires
        -MAX_SAMPLE <= dry <= MAX_SAMPLE,
        -MAX_SAMPLE <= wet_tap <= MAX_SAMPLE,
        0 <= wet_mix <= SCALE,
        0 <= gain <= MAX_GAIN,
    ensures
        -0x1_0000_0000 <= dry * (SCALE - wet_mix) <= 0x1_0000_0000,
        -0x1_0000_0000 <= wet_tap * wet_mix <= 0x1_0000_0000,
        -0x2_0000_0000 <= dry * (SCALE - wet_mix) + wet_tap * wet_mix <= 0x2_0000_0000,
        -0x2_0000_0000 <= trunc_div(dry * (SCALE - wet_mix) + wet_tap * wet_mix, SCALE as int)
            <= 0x2_0000_0000,
        -0x20_0000_0000_0000 <= trunc_div(dry * (SCALE - wet_mix) + wet_tap * wet_mix, SCALE as int) * gain
            <= 0x20_0000_0000_0000,
{
    assert(-0x1_0000_0000 <= dry * (SCALE - wet_mix) <= 0x1_0000_0000) by (nonlinear_arith)
        requires -MAX_SAMPLE <= dry <= MAX_SAMPLE && 0 <= SCALE - wet_mix <= SCALE
            && MAX_SAMPLE == 0x10_0000 && SCALE == 4096;
    assert(-0x1_0000_0000 <= wet_tap * wet_mix <= 0x1_0000_0000) by (nonlinear_arith)
        requires -MAX_SAMPLE <= wet_tap <= MAX_SAMPLE && 0 <= wet_mix <= SCALE
            && MAX_SAMPLE == 0x10_0000 && SCALE == 4096;
    let blend = trunc_div(dry * (SCALE - wet_mix) + wet_tap * wet_mix, SCALE as int);
    lemma_trunc_div_mag(dry * (SCALE - wet_mix) + wet_tap * wet_mix, SCALE as int);
    assert(-0x20_0000_0000_0000 <= blend * gain <= 0x20_0000_0000_0000)
        by (nonlinear_arith)
        requires -0x2_0000_0000 <= blend <= 0x2_0000_0000 && 0 <= gain <= 0x10_0000;
}

/// Mixing identity, dry side: with the mix fully dry the wet tap has no
/// influence, and the output is exactly the dry sample scaled by `0.5` and
/// the gain.
pub proof fn lemma_mix_dry(dry: int, wet_tap: int, gain: int)
    ensures
        mix_spec(dry, wet_tap, 0, gain) == trunc_div(dry * gain, 2 * SCALE as int),
{
    assert(dry * (SCALE - 0) + wet_tap * 0 == dry * SCALE) by (nonlinear_arith);
    lemma_trunc_div_exact(dry, SCALE as int);
}

/// Mixing identity, wet side: with the mix fully wet the dry sample has no
/// influence, and the output is exactly the tap scaled by `0.5` and the
/// gain.
pub proof fn lemma_mix_wet(dry: int, wet_tap: int, gain: int)
    ensures
        mix_spec(dry, wet_tap, SCALE as int, gain) == trunc_div(wet_tap * gain, 2 * SCALE as int),
{
    assert(dry * (SCALE - SCALE) + wet_tap * SCALE == wet_tap * SCALE) by (nonlinear_arith);
    lemma_trunc_div_exact(wet_tap, SCALE as int);
}

/// Gain floor: a gain control at or below -90 dB mutes the output exactly,
/// whatever the dry sample, the tap and the mix ratio hold.
pub proof fn lemma_gain_floor(dry: int, wet_tap: int, wet_mix: int, gain_db: int, gain_linear: int)
    requires
        gain_db <= -90 * SCALE,
    ensures
        mix_spec(dry, wet_tap, wet_mix, gain_spec(gain_db, gain_linear)) == 0,
{
    let blend = trunc_div(dry * (SCALE - wet_mix) + wet_tap * wet_mix, SCALE as int);
    assert(blend * 0 == 0) by (nonlinear_arith);
}

} // verus!
