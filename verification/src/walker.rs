//! The bounded random walk: parameters, per-step state, and the transition
//! function with reflection ("bounce"), boundary-proximity damping ("shy")
//! and the acceleration-hold countdown.

use vstd::prelude::*;
use crate::bounds::Bounds;
use crate::bounds::clamp_spec;
use crate::fixed::MAX_ACC;
use crate::fixed::MAX_POS;
use crate::fixed::MAX_VEL;
use crate::fixed::SCALE;
use crate::fixed::lemma_trunc_div_mag;
use crate::fixed::lemma_trunc_div_ordered;
use crate::fixed::lemma_trunc_div_scale;
use crate::fixed::trunc_div;

verus! {

/// The walker's instantaneous physical state; replaced wholesale once per
/// audio sample by [`Walker::step`].
#[derive(Clone, Copy, Debug, PartialEq, Eq, Structural)]
pub struct WalkerState {
    pub acceleration: i64,
    pub velocity: i64,
    pub position: i64,
    pub acceleration_ttl: i64,
}

/// The walk's parameter set: one interval per physical quantity, plus the
/// number of steps an acceleration value is held before a redraw.
#[derive(Clone, Copy, Debug)]
pub struct Walker {
    pub position: Bounds,
    pub acceleration: Bounds,
    pub velocity: Bounds,
    pub acceleration_hold: i64,
}

impl WalkerState {
    /// Magnitude caps every reachable state obeys; they keep the
    /// transition arithmetic inside `i64`.
    pub open spec fn wf(self) -> bool {
        &&& -MAX_ACC <= self.acceleration <= MAX_ACC
        &&& -MAX_VEL <= self.velocity <= MAX_VEL
        &&& -MAX_POS <= self.position <= MAX_POS
        &&& 0 <= self.acceleration_ttl
    }

    pub open spec fn accelerating_left_spec(self) -> bool {
        self.velocity < 0 && self.acceleration < 0
    }

    pub open spec fn accelerating_right_spec(self) -> bool {
        self.velocity > 0 && self.acceleration > 0
    }

    /// A fresh state, each field drawn from the corresponding half-open
    /// interval `[low, high)` of the walker (its only member where it has
    /// collapsed to a point) and the countdown set to the configured hold.
    pub fn new_from_walker(walker: &Walker) -> (r: WalkerState)
        requires
            walker.wf(),
        ensures
            r.wf(),
            walker.acceleration.contains_spec(r.acceleration as int),
            walker.velocity.contains_spec(r.velocity as int),
            walker.position.contains_spec(r.position as int),
            walker.acceleration.low < walker.acceleration.high ==> r.acceleration
                < walker.acceleration.high,
            walker.velocity.low < walker.velocity.high ==> r.velocity < walker.velocity.high,
            walker.position.low < walker.position.high ==> r.position < walker.position.high,
            r.acceleration_ttl == walker.acceleration_hold,
    {
        WalkerState {
            acceleration: walker.acceleration.rand_inside(),
            velocity: walker.velocity.rand_inside(),
            position: walker.position.rand_inside(),
            acceleration_ttl: walker.acceleration_hold,
        }
    }

    pub fn accelerating_left(&self) -> (r: bool)
        ensures
            r == self.accelerating_left_spec(),
    {
        self.velocity < 0 && self.acceleration < 0
    }

    pub fn accelerating_right(&self) -> (r: bool)
        ensures
            r == self.accelerating_right_spec(),
    {
        self.velocity > 0 && self.acceleration > 0
    }
}

/// The position after one step: the tentative move, pinned into the
/// position interval.
pub open spec fn bounce_position_spec(w: Walker, s: WalkerState) -> int {
    clamp_spec(s.position + s.velocity, w.position.low as int, w.position.high as int)
}

/// The velocity after one step: accelerated and pinned into the velocity
/// interval while the tentative move stays inside the position interval,
/// reflected when it would leave it.
pub open spec fn bounce_velocity_spec(w: Walker, s: WalkerState) -> int {
    if w.position.contains_spec(s.position + s.velocity) {
        clamp_spec(s.velocity + s.acceleration, w.velocity.low as int, w.velocity.high as int)
    } else {
        -(s.velocity as int)
    }
}

/// The damping `shy` applies to an acceleration at an already-advanced
/// position and velocity: scaled by the relative distance to the wall the
/// walker accelerates toward, on that wall's side of the midpoint;
/// unchanged otherwise.
pub open spec fn shy_acceleration_spec(w: Walker, acceleration: int, velocity: int, position: int) -> int {
    let mid = w.position.mid_point_spec();
    if velocity < 0 && acceleration < 0 && position < mid {
        trunc_div(acceleration * (position - w.position.low), w.position.span_spec())
    } else if velocity > 0 && acceleration > 0 && position > mid {
        trunc_div(acceleration * (w.position.high - position), w.position.span_spec())
    } else {
        acceleration
    }
}

/// The countdown after one step: decremented while it runs, reset to the
/// configured hold once it has expired.
pub open spec fn next_ttl_spec(w: Walker, s: WalkerState) -> int {
    if s.acceleration_ttl > 0 {
        s.acceleration_ttl - 1
    } else {
        w.acceleration_hold as int
    }
}

/// What the hold rule admits as this step's pre-`shy` acceleration `d`:
/// the previous value while the countdown runs, any draw from the
/// half-open acceleration interval `[low, high)` once it has expired (the
/// interval's only member where it has collapsed to a point).
pub open spec fn pre_shy_ok(w: Walker, s: WalkerState, d: int) -> bool {
    if s.acceleration_ttl > 0 {
        d == s.acceleration
    } else {
        w.acceleration.contains_spec(d)
            && (w.acceleration.low < w.acceleration.high ==> d < w.acceleration.high)
    }
}

/// One full transition, as a function of the state and the pre-`shy`
/// acceleration `d` the hold rule produced.
pub open spec fn step_model(w: Walker, s: WalkerState, d: int) -> WalkerState {
    let position = bounce_position_spec(w, s);
    let velocity = bounce_velocity_spec(w, s);
    WalkerState {
        acceleration: shy_acceleration_spec(w, d, velocity, position) as i64,
        velocity: velocity as i64,
        position: position as i64,
        acceleration_ttl: next_ttl_spec(w, s) as i64,
    }
}

impl Walker {
    /// All three intervals are ordered and bounded, the position interval
    /// has a positive span (it divides the `shy` factor), and the hold is
    /// positive.
    pub open spec fn wf(self) -> bool {
        &&& self.position.wf_within(MAX_POS as int)
        &&& self.position.low < self.position.high
        &&& self.acceleration.wf_within(MAX_ACC as int)
        &&& self.velocity.wf_within(MAX_VEL as int)
        &&& 0 < self.acceleration_hold
    }

    /// The default parameter set: a tap up to 8000 samples back, unit
    /// acceleration reach, velocity up to 50 samples per sample, and a
    /// ten-step acceleration hold.
    pub fn new() -> (r: Walker)
        ensures
            r.wf(),
            r.position.low == -8000 * SCALE && r.position.high == -SCALE,
            r.acceleration.low == -SCALE && r.acceleration.high == SCALE,
            r.velocity.low == -50 * SCALE && r.velocity.high == 50 * SCALE,
            r.acceleration_hold == 10,
    {
        Walker {
            position: Bounds::new(-8000 * SCALE, -SCALE),
            acceleration: Bounds::new(-SCALE, SCALE),
            velocity: Bounds::new(-50 * SCALE, 50 * SCALE),
            acceleration_hold: 10,
        }
    }

    /// The tentative move, reflected or accelerated; returns the next
    /// position and velocity.
    pub fn bounce(&self, current: WalkerState) -> (r: (i64, i64))
        requires
            self.wf(),
            current.wf(),
        ensures
            r.0 == bounce_position_spec(*self, current),
            r.1 == bounce_velocity_spec(*self, current),
            self.position.contains_spec(r.0 as int),
            -MAX_VEL <= r.1 <= MAX_VEL,
    {
        let next_pos: i64 = current.position + current.velocity;
        let next_velo: i64 = if self.position.contains(next_pos) {
            self.velocity.clamp(current.velocity + current.acceleration)
        } else {
            -current.velocity
        };
        (self.position.clamp(next_pos), next_velo)
    }

    /// Damps the acceleration near the wall the walker accelerates toward.
    pub fn shy(&self, current: WalkerState) -> (r: WalkerState)
        requires
            self.wf(),
            current.wf(),
            self.position.contains_spec(current.position as int),
        ensures
            r == (WalkerState {
                acceleration: shy_acceleration_spec(
                    *self,
                    current.acceleration as int,
                    current.velocity as int,
                    current.position as int,
                ) as i64,
                ..current
            }),
            r.wf(),
    {
        proof {
            lemma_shy_in_range(
                *self,
                current.acceleration as int,
                current.velocity as int,
                current.position as int,
            );
            assert(-0x2000_0000_0000_0000 <= current.acceleration * (current.position - self.position.low)
                <= 0x2000_0000_0000_0000) by (nonlinear_arith)
                requires -0x10_0000 <= current.acceleration <= 0x10_0000
                    && -0x200_0000_0000 <= current.position - self.position.low <= 0x200_0000_0000;
            assert(-0x2000_0000_0000_0000 <= current.acceleration * (self.position.high - current.position)
                <= 0x2000_0000_0000_0000) by (nonlinear_arith)
                requires -0x10_0000 <= current.acceleration <= 0x10_0000
                    && -0x200_0000_0000 <= self.position.high - current.position <= 0x200_0000_0000;
        }
        let next_acc: i64 = if current.accelerating_left() && current.position < self.position.mid_point() {
            (current.acceleration * (current.position - self.position.low)) / self.position.span()
        } else if current.accelerating_right() && current.position > self.position.mid_point() {
            (current.acceleration * (self.position.high - current.position)) / self.position.span()
        } else {
            current.acceleration
        };
        WalkerState { acceleration: next_acc, ..current }
    }

    /// One full transition: hold or redraw the acceleration, bounce, then
    /// shy. The drawn value is existential in the contract; everything
    /// else about the next state is pinned down by [`step_model`].
    pub fn step(&self, current: WalkerState) -> (r: WalkerState)
        requires
            self.wf(),
            current.wf(),
        ensures
            exists|d: int| pre_shy_ok(*self, current, d) && r == step_model(*self, current, d),
            current.acceleration_ttl > 0 ==> r == step_model(*self, current, current.acceleration as int),
            r.wf(),
            self.position.contains_spec(r.position as int),
    {
        let (next_pos, next_velo) = self.bounce(current);
        let (next_acc, next_acc_ttl): (i64, i64) = if current.acceleration_ttl > 0 {
            (current.acceleration, current.acceleration_ttl - 1)
        } else {
            (self.acceleration.rand_inside(), self.acceleration_hold)
        };
        let interim = WalkerState {
            acceleration: next_acc,
            velocity: next_velo,
            position: next_pos,
            acceleration_ttl: next_acc_ttl,
        };
        let r = self.shy(interim);
        proof {
            let d = next_acc as int;
            assert(pre_shy_ok(*self, current, d) && r == step_model(*self, current, d));
        }
        r
    }
}

/// The buffer index a tap read uses: the write cursor plus the truncated
/// (toward zero) whole-sample tap position, wrapped into the buffer.
pub open spec fn tap_index_spec(len: int, cursor: int, position: int) -> int {
    (cursor + trunc_div(position, SCALE as int) + len) % len
}

/// The sample a tap read returns.
pub open spec fn tap_spec(buf: Seq<i64>, cursor: int, position: int) -> i64 {
    buf[tap_index_spec(buf.len() as int, cursor, position)]
}

impl Walker {
    /// The delayed sample the walker currently points at: a read-only tap
    /// `position` samples (truncated toward zero) behind the write cursor,
    /// wrapped circularly.
    pub fn get(&self, s: &WalkerState, buf: &Vec<i64>, pos: usize) -> (r: i64)
        requires
            0 < buf.len() <= 0x1000_0000,
            pos < buf.len(),
            -(buf.len() * SCALE as int) <= s.position <= 0,
        ensures
            r == tap_spec(buf@, pos as int, s.position as int),
            0 <= tap_index_spec(buf.len() as int, pos as int, s.position as int) < buf.len(),
    {
        let len_i: i64 = buf.len() as i64;
        // the tap position can be negative; adding the buffer length does
        // not change the index modulo the buffer length
        let off: i64 = s.position / SCALE;
        proof {
            let len = buf.len() as int;
            lemma_trunc_div_mag(s.position as int, SCALE as int);
            crate::fixed::lemma_trunc_div_exact(-len, SCALE as int);
            assert((-len) * SCALE == -(len * SCALE)) by (nonlinear_arith);
            lemma_trunc_div_ordered(-(len * SCALE as int), s.position as int, SCALE as int);
        }
        let idx_i: i64 = pos as i64 + off + len_i;
        let idx: usize = (idx_i as usize) % buf.len();
        buf[idx]
    }
}

/// The damped acceleration keeps its sign and never grows in magnitude.
proof fn lemma_shy_in_range(w: Walker, acceleration: int, velocity: int, position: int)
    requires
        w.wf(),
        w.position.contains_spec(position),
        -MAX_ACC <= acceleration <= MAX_ACC,
    ensures
        acceleration >= 0 ==> 0 <= shy_acceleration_spec(w, acceleration, velocity, position) <= acceleration,
        acceleration < 0 ==> acceleration <= shy_acceleration_spec(w, acceleration, velocity, position) <= 0,
{
    let mid = w.position.mid_point_spec();
    let span = w.position.span_spec();
    if velocity < 0 && acceleration < 0 && position < mid {
        lemma_trunc_div_scale(acceleration, position - w.position.low, span);
    } else if velocity > 0 && acceleration > 0 && position > mid {
        lemma_trunc_div_scale(acceleration, w.position.high - position, span);
    }
}

/// Position containment: whatever state a step starts from, the position
/// it produces lies inside the walker's position interval, boundaries
/// included; every reachable state therefore satisfies it.
pub proof fn lemma_position_containment(w: Walker, s: WalkerState, d: int)
    requires
        w.wf(),
        s.wf(),
    ensures
        w.position.contains_spec(step_model(w, s, d).position as int),
{
}

/// Reflection: from a position strictly inside the interval, a velocity
/// whose tentative move would leave it reverses sign exactly, and the
/// position lands on the boundary about to be crossed.
pub proof fn lemma_reflection(w: Walker, s: WalkerState, d: int)
    requires
        w.wf(),
        s.wf(),
        w.position.low < s.position < w.position.high,
        !w.position.contains_spec(s.position + s.velocity),
    ensures
        step_model(w, s, d).velocity == -s.velocity,
        s.position + s.velocity > w.position.high ==> step_model(w, s, d).position == w.position.high,
        s.position + s.velocity < w.position.low ==> step_model(w, s, d).position == w.position.low,
{
}

/// Countdown bookkeeping along a chain of steps, by induction on the index.
proof fn lemma_hold_countdown(w: Walker, states: Seq<WalkerState>, draws: Seq<int>, k: int, i: int)
    requires
        w.wf(),
        0 <= i <= k,
        k + 1 <= states.len(),
        k <= draws.len(),
        states[0].acceleration_ttl == k,
        forall|j: int| 0 <= j < k ==> states[j + 1] == step_model(w, states[j], #[trigger] draws[j]),
    ensures
        states[i].acceleration_ttl == k - i,
    decreases i,
{
    if i > 0 {
        lemma_hold_countdown(w, states, draws, k, i - 1);
        assert(states[(i - 1) + 1] == step_model(w, states[i - 1], draws[i - 1]));
    }
}

/// Acceleration hold: along any step chain that starts with a positive
/// countdown `k`, the countdown decrements one per step, no redraw happens
/// for `k` steps (each step's pre-`shy` acceleration is the previous
/// state's value, which `shy` may rescale but not replace), and the step
/// after that feeds in a draw from the acceleration interval and resets
/// the countdown to the configured hold.
pub proof fn lemma_acceleration_hold(w: Walker, states: Seq<WalkerState>, draws: Seq<int>, k: int)
    requires
        w.wf(),
        0 < k,
        states.len() == k + 2,
        draws.len() == k + 1,
        states[0].acceleration_ttl == k,
        forall|i: int| 0 <= i <= k ==> pre_shy_ok(w, states[i], #[trigger] draws[i]),
        forall|i: int| 0 <= i <= k ==> states[i + 1] == step_model(w, states[i], #[trigger] draws[i]),
    ensures
        forall|i: int| 0 <= i <= k ==> #[trigger] states[i].acceleration_ttl == k - i,
        forall|i: int| 0 <= i < k ==> #[trigger] draws[i] == states[i].acceleration,
        w.acceleration.contains_spec(draws[k]),
        w.acceleration.low < w.acceleration.high ==> draws[k] < w.acceleration.high,
        states[k + 1].acceleration_ttl == w.acceleration_hold,
{
    assert forall|i: int| 0 <= i <= k implies #[trigger] states[i].acceleration_ttl == k - i by {
        lemma_hold_countdown(w, states, draws, k, i);
    }
    assert forall|i: int| 0 <= i < k implies #[trigger] draws[i] == states[i].acceleration by {
        assert(pre_shy_ok(w, states[i], draws[i]));
    }
    lemma_hold_countdown(w, states, draws, k, k);
    assert(states[k].acceleration_ttl == 0);
    assert(pre_shy_ok(w, states[k], draws[k]));
    assert(states[k + 1] == step_model(w, states[k], draws[k]));
}

/// Shy damping, left wall: while the walker accelerates left below the
/// midpoint, the damped acceleration vanishes exactly on the wall, and its
/// magnitude is monotone in the distance to the wall; before the division
/// truncates, the scaled value is strictly monotone.
pub proof fn lemma_shy_monotonic_left(w: Walker, acceleration: int, velocity: int, p1: int, p2: int)
    requires
        w.wf(),
        velocity < 0,
        acceleration < 0,
        -MAX_ACC <= acceleration,
        w.position.low <= p1 <= p2,
        p2 < w.position.mid_point_spec(),
    ensures
        shy_acceleration_spec(w, acceleration, velocity, p2)
            <= shy_acceleration_spec(w, acceleration, velocity, p1) <= 0,
        p1 == w.position.low ==> shy_acceleration_spec(w, acceleration, velocity, p1) == 0,
        p1 < p2 ==> acceleration * (p2 - w.position.low) < acceleration * (p1 - w.position.low),
{
    let span = w.position.span_spec();
    let d1 = p1 - w.position.low;
    let d2 = p2 - w.position.low;
    assert(acceleration * d2 <= acceleration * d1 <= 0) by (nonlinear_arith)
        requires acceleration < 0 && 0 <= d1 <= d2;
    lemma_trunc_div_ordered(acceleration * d2, acceleration * d1, span);
    lemma_trunc_div_mag(acceleration * d1, span);
    if p1 == w.position.low {
        assert(acceleration * 0 == 0) by (nonlinear_arith);
    }
    if p1 < p2 {
        assert(acceleration * d2 < acceleration * d1) by (nonlinear_arith)
            requires acceleration < 0 && 0 <= d1 < d2;
    }
}

/// Shy damping, right wall: the mirror image of the left-wall statement.
pub proof fn lemma_shy_monotonic_right(w: Walker, acceleration: int, velocity: int, p1: int, p2: int)
    requires
        w.wf(),
        velocity > 0,
        acceleration > 0,
        acceleration <= MAX_ACC,
        w.position.mid_point_spec() < p1,
        p1 <= p2 <= w.position.high,
    ensures
        0 <= shy_acceleration_spec(w, acceleration, velocity, p2)
            <= shy_acceleration_spec(w, acceleration, velocity, p1),
        p2 == w.position.high ==> shy_acceleration_spec(w, acceleration, velocity, p2) == 0,
        p1 < p2 ==> acceleration * (w.position.high - p2) < acceleration * (w.position.high - p1),
{
    let span = w.position.span_spec();
    let d1 = w.position.high - p1;
    let d2 = w.position.high - p2;
    assert(0 <= acceleration * d2 <= acceleration * d1) by (nonlinear_arith)
        requires acceleration > 0 && 0 <= d2 <= d1;
    lemma_trunc_div_ordered(acceleration * d2, acceleration * d1, span);
    lemma_trunc_div_mag(acceleration * d2, span);
    if p2 == w.position.high {
        assert(acceleration * 0 == 0) by (nonlinear_arith);
    }
    if p1 < p2 {
        assert(acceleration * d2 < acceleration * d1) by (nonlinear_arith)
            requires acceleration > 0 && 0 <= d2 < d1;
    }
}

} // verus!
