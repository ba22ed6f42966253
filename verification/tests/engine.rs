use jiglagain::engine::ControlInputs;
use jiglagain::engine::JiglAgain;
use jiglagain::fixed::SCALE;
use jiglagain::mix::gain_value;
use jiglagain::mix::mix_sample;
use jiglagain::mix::wet_mix_value;

fn controls(gain_db: i64, gain_linear: i64, wet_mix: i64, max_delay_ms: i64) -> ControlInputs {
    ControlInputs {
        gain_db,
        gain_linear,
        wet_mix,
        max_delay_ms,
        max_abs_acc: SCALE,
        max_abs_velo: 50 * SCALE,
    }
}

#[test]
fn engine_construction() {
    let eng = JiglAgain::new(48000);
    assert_eq!(eng.sample_rate, 48000);
    assert_eq!(eng.buf_pos, 0);
    assert_eq!(eng.buffer_left.len(), 96000);
    assert_eq!(eng.buffer_right.len(), 96000);
    assert!(eng.buffer_left.iter().all(|&x| x == 0));
    assert!(eng.buffer_right.iter().all(|&x| x == 0));
    assert!(eng.walker_left.position.contains(eng.state_left.position));
    assert!(eng.walker_right.position.contains(eng.state_right.position));
    assert_eq!(eng.walker_left.position.low, -8000 * SCALE);
    assert_eq!(eng.walker_left.position.high, -SCALE);
}

#[test]
fn short_buffer_pins_the_tap_reach() {
    let eng = JiglAgain::new(1000);
    assert_eq!(eng.buffer_left.len(), 2000);
    assert_eq!(eng.walker_left.position.low, -2000 * SCALE);
}

#[test]
fn mixing_identities() {
    // fully dry: the tap value has no influence and the output is the dry
    // sample scaled by 0.5 and the gain
    assert_eq!(mix_sample(4096, 77, 0, 4096), 2048);
    assert_eq!(mix_sample(4096, -999, 0, 4096), 2048);
    // fully wet: the dry sample has no influence
    assert_eq!(mix_sample(77, 4096, SCALE, 4096), 2048);
    assert_eq!(mix_sample(-999, 4096, SCALE, 4096), 2048);
    // zero gain mutes whatever comes in
    assert_eq!(mix_sample(500, 700, 1000, 0), 0);
}

#[test]
fn gain_floor() {
    // at or below -90 dB the linear gain collapses to zero
    assert_eq!(gain_value(-90 * SCALE, 4096), 0);
    assert_eq!(gain_value(-100 * SCALE, 4096), 0);
    assert_eq!(gain_value(-90 * SCALE + 1, 4096), 4096);
    assert_eq!(gain_value(0, 4096), 4096);
}

#[test]
fn wet_mix_conversion() {
    assert_eq!(wet_mix_value(0), 0);
    assert_eq!(wet_mix_value(100 * SCALE), SCALE);
    assert_eq!(wet_mix_value(50 * SCALE), SCALE / 2);
}

#[test]
fn run_fully_dry_halves_and_scales() {
    let mut eng = JiglAgain::new(8000);
    let c = controls(0, SCALE, 0, 500 * SCALE);
    let input: Vec<i64> = vec![4096, 5, -5, 0, 1000, -4096];
    let (out_l, out_r) = eng.run(&input, &input, &c);
    let expected: Vec<i64> = vec![2048, 2, -2, 0, 500, -2048];
    assert_eq!(out_l, expected);
    assert_eq!(out_r, expected);
}

#[test]
fn run_at_gain_floor_is_silent() {
    let mut eng = JiglAgain::new(8000);
    let c = controls(-90 * SCALE, 4096, 50 * SCALE, 500 * SCALE);
    let input: Vec<i64> = vec![4096, -4096, 777, 12, -9999];
    let (out_l, out_r) = eng.run(&input, &input, &c);
    assert!(out_l.iter().all(|&x| x == 0));
    assert!(out_r.iter().all(|&x| x == 0));
}

#[test]
fn degenerate_delay_keeps_old_position_bounds() {
    let mut eng = JiglAgain::new(48000);
    // 80 fixed-point milliseconds is under one sample at 48 kHz: the new
    // low edge would not stay below the high edge, so it is not applied
    let c = controls(0, SCALE, 0, 80);
    let low_before = eng.walker_left.position.low;
    let input: Vec<i64> = vec![0; 4];
    let _ = eng.run(&input, &input, &c);
    assert_eq!(eng.walker_left.position.low, low_before);
    assert_eq!(eng.walker_right.position.low, low_before);
    // a real delay control moves the edge
    let c2 = controls(0, SCALE, 0, 500 * SCALE);
    let _ = eng.run(&input, &input, &c2);
    assert_eq!(eng.walker_left.position.low, -24000 * SCALE);
    assert_eq!(eng.walker_right.position.low, -24000 * SCALE);
}

#[test]
fn impulse_scenario() {
    // 48 kHz, 500 ms maximum delay, unit gain, fully wet, and walkers
    // pinned still: an impulse must come back 0.5-scaled, -position
    // samples later, and nothing else may sound
    let mut eng = JiglAgain::new(48000);
    let c = ControlInputs {
        gain_db: 0,
        gain_linear: SCALE,
        wet_mix: 100 * SCALE,
        max_delay_ms: 500 * SCALE,
        max_abs_acc: 0,
        max_abs_velo: 0,
    };
    // a short silent block lets the initial random velocity collapse to
    // the degenerate interval; the position is frozen afterwards
    let silence: Vec<i64> = vec![0; 8];
    let _ = eng.run(&silence, &silence, &c);
    let pos_l = eng.state_left.position;
    let pos_r = eng.state_right.position;
    assert!(pos_l <= -SCALE && pos_r <= -SCALE);
    assert_eq!(eng.state_left.velocity, 0);
    assert_eq!(eng.state_right.velocity, 0);

    let n: usize = 10000;
    let mut input: Vec<i64> = vec![0; n];
    input[0] = 4096;
    let (out_l, out_r) = eng.run(&input, &input, &c);
    let echo_l = (-(pos_l / SCALE)) as usize;
    let echo_r = (-(pos_r / SCALE)) as usize;
    assert!(0 < echo_l && echo_l < n);
    assert!(0 < echo_r && echo_r < n);
    for j in 0..n {
        let expected_l = if j == echo_l { 2048 } else { 0 };
        let expected_r = if j == echo_r { 2048 } else { 0 };
        assert_eq!(out_l[j], expected_l, "left frame {}", j);
        assert_eq!(out_r[j], expected_r, "right frame {}", j);
    }
}
