use jiglagain::bounds::Bounds;
use jiglagain::fixed::SCALE;
use jiglagain::walker::Walker;
use jiglagain::walker::WalkerState;

#[test]
fn walker() {
    let w = Walker::new();
    println!("{:?}", w);
    let s = WalkerState::new_from_walker(&w);
    println!("{:?}", s);
    let mut next_s = w.step(s);
    println!("{:?}", next_s);
    assert_ne!(s, next_s);
    for _ in 1..w.acceleration_hold * 2 {
        next_s = w.step(next_s);
        println!("{:?}", next_s);
    }
}

#[test]
fn bounds_operations() {
    let b = Bounds::new(-10, 20);
    assert!(b.contains(-10));
    assert!(b.contains(0));
    assert!(b.contains(20));
    assert!(!b.contains(-11));
    assert!(!b.contains(21));
    assert_eq!(b.clamp(-50), -10);
    assert_eq!(b.clamp(50), 20);
    assert_eq!(b.clamp(7), 7);
    assert_eq!(b.span(), 30);
    assert_eq!(b.mid_point(), 5);
    // midpoint of a negative interval truncates toward zero
    assert_eq!(Bounds::new(-7, -4).mid_point(), -5);
}

#[test]
fn rand_inside_stays_inside() {
    let b = Bounds::new(-1000, 1000);
    for _ in 0..100 {
        let x = b.rand_inside();
        assert!(-1000 <= x && x < 1000);
    }
}

#[test]
fn rand_inside_collapsed_interval() {
    let b = Bounds::new(42, 42);
    assert_eq!(b.rand_inside(), 42);
}

#[test]
fn new_from_walker_draws_within_bounds() {
    let w = Walker::new();
    for _ in 0..20 {
        let s = WalkerState::new_from_walker(&w);
        assert!(w.acceleration.contains(s.acceleration));
        assert!(w.velocity.contains(s.velocity));
        assert!(w.position.contains(s.position));
        // the draws come from half-open intervals
        assert!(s.acceleration < w.acceleration.high);
        assert!(s.velocity < w.velocity.high);
        assert!(s.position < w.position.high);
        assert_eq!(s.acceleration_ttl, w.acceleration_hold);
    }
}

fn fixed_walker(low: i64, high: i64) -> Walker {
    Walker {
        position: Bounds::new(low, high),
        acceleration: Bounds::new(-SCALE, SCALE),
        velocity: Bounds::new(-50 * SCALE, 50 * SCALE),
        acceleration_hold: 10,
    }
}

#[test]
fn step_holds_acceleration_while_ttl_runs() {
    // moving right with a negative acceleration: shy never damps, so the
    // held value is observable bit for bit until the countdown expires
    let w = fixed_walker(-8000 * SCALE, -SCALE);
    let mut s = WalkerState {
        acceleration: -100,
        velocity: 2000,
        position: -1000 * SCALE,
        acceleration_ttl: 3,
    };
    for expected_ttl in [2, 1, 0] {
        s = w.step(s);
        assert_eq!(s.acceleration, -100);
        assert_eq!(s.acceleration_ttl, expected_ttl);
    }
    // the countdown has expired: the next step redraws from the
    // acceleration interval and resets the countdown
    s = w.step(s);
    assert!(w.acceleration.contains(s.acceleration));
    assert_eq!(s.acceleration_ttl, w.acceleration_hold);
}

#[test]
fn step_reflects_at_the_wall() {
    let w = fixed_walker(-8000 * SCALE, -SCALE);
    // tentative move: -2 * SCALE + 3 * SCALE, past the high wall
    let s = WalkerState {
        acceleration: 0,
        velocity: 3 * SCALE,
        position: -2 * SCALE,
        acceleration_ttl: 5,
    };
    let s2 = w.step(s);
    assert_eq!(s2.velocity, -3 * SCALE);
    assert_eq!(s2.position, -SCALE);
    // past the low wall
    let s3 = WalkerState {
        acceleration: 0,
        velocity: -3 * SCALE,
        position: -7999 * SCALE,
        acceleration_ttl: 5,
    };
    let s4 = w.step(s3);
    assert_eq!(s4.velocity, 3 * SCALE);
    assert_eq!(s4.position, -8000 * SCALE);
}

#[test]
fn step_position_stays_contained() {
    let w = Walker::new();
    let mut s = WalkerState::new_from_walker(&w);
    for _ in 0..1000 {
        s = w.step(s);
        assert!(w.position.contains(s.position));
    }
}

#[test]
fn shy_damps_toward_the_wall() {
    // span of one unit, so the damped values are easy to state exactly
    let w = fixed_walker(-2 * SCALE, -SCALE);
    // accelerating left below the midpoint: the acceleration is scaled by
    // the relative distance to the low wall
    let s = WalkerState {
        acceleration: -1000,
        velocity: -10,
        position: -7168,
        acceleration_ttl: 5,
    };
    let s2 = w.step(s);
    // tentative -7178 is inside; velocity picks up the acceleration and
    // shy scales it by (8192 - 7178) / 4096
    assert_eq!(s2.position, -7178);
    assert_eq!(s2.velocity, -1010);
    assert_eq!(s2.acceleration, -1000 * (8192 - 7178) / 4096);
    assert_eq!(s2.acceleration, -247);
}

#[test]
fn shy_damping_shrinks_near_the_wall() {
    let w = fixed_walker(-2 * SCALE, -SCALE);
    let near = WalkerState {
        acceleration: -1000,
        velocity: -10,
        position: -8000,
        acceleration_ttl: 5,
    };
    let far = WalkerState {
        acceleration: -1000,
        velocity: -10,
        position: -7168,
        acceleration_ttl: 5,
    };
    let a_near = w.step(near).acceleration;
    let a_far = w.step(far).acceleration;
    assert!(a_near.abs() < a_far.abs());
    // exactly on the wall the damping factor vanishes
    let on_wall = WalkerState {
        acceleration: -1000,
        velocity: -10,
        position: -2 * SCALE + 10,
        acceleration_ttl: 5,
    };
    // tentative lands on the low wall itself
    let s2 = w.step(on_wall);
    assert_eq!(s2.position, -2 * SCALE);
    assert_eq!(s2.acceleration, 0);
}

#[test]
fn tap_wraparound() {
    let w = Walker::new();
    let buf: Vec<i64> = vec![10, 11, 12, 13, 14, 15, 16, 17];
    let state_at = |position: i64| WalkerState {
        acceleration: 0,
        velocity: 0,
        position,
        acceleration_ttl: 1,
    };
    // a fractional tap position truncates toward zero: -2.5 reads 2 back
    assert_eq!(w.get(&state_at(-5 * SCALE / 2), &buf, 3), 11);
    // a whole negative position
    assert_eq!(w.get(&state_at(-3 * SCALE), &buf, 3), 10);
    // wrapping past the start of the buffer
    assert_eq!(w.get(&state_at(-5 * SCALE), &buf, 3), 16);
    // zero offset reads the cursor slot itself
    assert_eq!(w.get(&state_at(0), &buf, 3), 13);
    // a full-buffer offset wraps to the cursor slot
    assert_eq!(w.get(&state_at(-8 * SCALE), &buf, 3), 13);
}
