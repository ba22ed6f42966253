//! The stereo engine: two independent walker/delay-line channels, per-block
//! control updates, and the per-sample processing loop.

use vstd::prelude::*;
use crate::bounds::Bounds;
use crate::fixed::MAX_ACC;
use crate::fixed::MAX_GAIN;
use crate::fixed::MAX_SAMPLE;
use crate::fixed::MAX_VEL;
use crate::fixed::SCALE;
use crate::fixed::lemma_trunc_div_exact;
use crate::fixed::lemma_trunc_div_mag;
use crate::fixed::lemma_trunc_div_ordered;
use crate::fixed::trunc_div;
use crate::mix::gain_spec;
use crate::mix::gain_value;
use crate::mix::mix_sample;
use crate::mix::mix_spec;
use crate::mix::wet_mix_spec;
use crate::mix::wet_mix_value;
use crate::walker::Walker;
use crate::walker::WalkerState;
use crate::walker::pre_shy_ok;
use crate::walker::step_model;
use crate::walker::tap_spec;

verus! {

/// Delay capacity in seconds; each channel's buffer is sized once, at
/// construction, to this many seconds of audio.
pub const MAX_DELAY_IN_SECONDS: usize = 2;

/// The control values a block is processed under, all fixed-point.
/// `gain_linear` is the linear factor the host derived from `gain_db`
/// (`10^(gain_db/20)`, a computation outside this crate's reach); the
/// engine applies the -90 dB mute floor itself.
pub struct ControlInputs {
    pub gain_db: i64,
    pub gain_linear: i64,
    pub wet_mix: i64,
    pub max_delay_ms: i64,
    pub max_abs_acc: i64,
    pub max_abs_velo: i64,
}

impl ControlInputs {
    pub open spec fn wf(self) -> bool {
        &&& 0 <= self.gain_linear <= MAX_GAIN
        &&& 0 <= self.wet_mix <= 100 * SCALE
        &&& 0 <= self.max_delay_ms <= 2000 * SCALE
        &&& 0 <= self.max_abs_acc <= MAX_ACC
        &&& 0 <= self.max_abs_velo <= MAX_VEL
    }
}

/// The engine's state as the contracts speak of it.
#[verifier::ext_equal]
pub ghost struct EngineModel {
    pub walker_left: Walker,
    pub walker_right: Walker,
    pub state_left: WalkerState,
    pub state_right: WalkerState,
    pub buffer_left: Seq<i64>,
    pub buffer_right: Seq<i64>,
    pub buf_pos: int,
}

/// Every stored sample stays within the admitted sample magnitude.
pub open spec fn samples_wf(buf: Seq<i64>) -> bool {
    forall|i: int| 0 <= i < buf.len() ==> -MAX_SAMPLE <= #[trigger] buf[i] <= MAX_SAMPLE
}

/// One channel's walker and state stay inside the reach of a buffer of
/// `len` samples, so that every tap read lands on a valid index.
pub open spec fn channel_wf(w: Walker, s: WalkerState, len: int) -> bool {
    &&& w.wf()
    &&& -(len * SCALE) <= w.position.low
    &&& w.position.high <= 0
    &&& s.wf()
    &&& -(len * SCALE) <= s.position <= 0
}

/// One walker's parameters after a block's control update: symmetric
/// acceleration and velocity intervals from the two magnitude controls,
/// and a new low position edge from the delay control, applied only where
/// it keeps the position interval proper.
pub open spec fn updated_walker_spec(w: Walker, c: ControlInputs, sample_rate: int) -> Walker {
    let pos_low = -trunc_div(c.max_delay_ms * sample_rate, 1000);
    let position = if pos_low < w.position.high {
        Bounds { low: pos_low as i64, high: w.position.high }
    } else {
        w.position
    };
    Walker {
        position,
        acceleration: Bounds { low: (-c.max_abs_acc) as i64, high: c.max_abs_acc },
        velocity: Bounds { low: (-c.max_abs_velo) as i64, high: c.max_abs_velo },
        acceleration_hold: w.acceleration_hold,
    }
}

/// The whole engine after a block's control update.
pub open spec fn updated_model_spec(m: EngineModel, c: ControlInputs, sample_rate: int) -> EngineModel {
    EngineModel {
        walker_left: updated_walker_spec(m.walker_left, c, sample_rate),
        walker_right: updated_walker_spec(m.walker_right, c, sample_rate),
        ..m
    }
}

/// One sample frame: step both walkers (with pre-`shy` accelerations
/// `d_l`, `d_r`), write the dry inputs at the cursor, advance the cursor
/// circularly.
#[verifier::opaque]
pub open spec fn frame_model(m: EngineModel, in_l: i64, in_r: i64, d_l: int, d_r: int) -> EngineModel {
    EngineModel {
        state_left: step_model(m.walker_left, m.state_left, d_l),
        state_right: step_model(m.walker_right, m.state_right, d_r),
        buffer_left: m.buffer_left.update(m.buf_pos, in_l),
        buffer_right: m.buffer_right.update(m.buf_pos, in_r),
        buf_pos: if m.buf_pos + 1 == m.buffer_left.len() {
            0
        } else {
            m.buf_pos + 1
        },
        ..m
    }
}

/// The engine after the first `i` frames of a block.
#[verifier::opaque]
pub open spec fn engine_at(
    m: EngineModel,
    in_l: Seq<i64>,
    in_r: Seq<i64>,
    dl: Seq<int>,
    dr: Seq<int>,
    i: int,
) -> EngineModel
    decreases i,
{
    if i <= 0 {
        m
    } else {
        frame_model(
            engine_at(m, in_l, in_r, dl, dr, i - 1),
            in_l[i - 1],
            in_r[i - 1],
            dl[i - 1],
            dr[i - 1],
        )
    }
}

/// The left output sample of a frame starting from `m`: the current tap,
/// read before anything advances, mixed with the dry input.
pub open spec fn frame_out_left(m: EngineModel, dry: i64, wet: int, gain: int) -> int {
    mix_spec(
        dry as int,
        tap_spec(m.buffer_left, m.buf_pos, m.state_left.position as int) as int,
        wet,
        gain,
    )
}

/// The right output sample of a frame starting from `m`.
pub open spec fn frame_out_right(m: EngineModel, dry: i64, wet: int, gain: int) -> int {
    mix_spec(
        dry as int,
        tap_spec(m.buffer_right, m.buf_pos, m.state_right.position as int) as int,
        wet,
        gain,
    )
}

/// Everything `run` promises of a block, for one pair of acceleration draw
/// sequences: after the control update, the engine advances one frame per
/// input sample, each frame's pre-`shy` acceleration obeys the hold rule,
/// and each output is the mix of that frame's dry input and tap.
pub open spec fn run_post(
    pre: EngineModel,
    post: EngineModel,
    sample_rate: int,
    in_l: Seq<i64>,
    in_r: Seq<i64>,
    c: ControlInputs,
    out_l: Seq<i64>,
    out_r: Seq<i64>,
    dl: Seq<int>,
    dr: Seq<int>,
) -> bool {
    let n = in_l.len() as int;
    let u = updated_model_spec(pre, c, sample_rate);
    let wet = wet_mix_spec(c.wet_mix as int);
    let gain = gain_spec(c.gain_db as int, c.gain_linear as int);
    &&& dl.len() == n && dr.len() == n
    &&& forall|i: int| 0 <= i < n ==> pre_shy_ok(
        u.walker_left,
        engine_at(u, in_l, in_r, dl, dr, i).state_left,
        #[trigger] dl[i],
    )
    &&& forall|i: int| 0 <= i < n ==> pre_shy_ok(
        u.walker_right,
        engine_at(u, in_l, in_r, dl, dr, i).state_right,
        #[trigger] dr[i],
    )
    &&& post == engine_at(u, in_l, in_r, dl, dr, n)
    &&& out_l.len() == n && out_r.len() == n
    &&& forall|i: int| 0 <= i < n ==> #[trigger] out_l[i] == frame_out_left(
        engine_at(u, in_l, in_r, dl, dr, i),
        in_l[i],
        wet,
        gain,
    )
    &&& forall|i: int| 0 <= i < n ==> #[trigger] out_r[i] == frame_out_right(
        engine_at(u, in_l, in_r, dl, dr, i),
        in_r[i],
        wet,
        gain,
    )
}

/// `engine_at` reads only the first `i` draws: two draw sequence pairs
/// that agree there lead to the same engine.
pub proof fn lemma_engine_at_prefix(
    m: EngineModel,
    in_l: Seq<i64>,
    in_r: Seq<i64>,
    dl1: Seq<int>,
    dr1: Seq<int>,
    dl2: Seq<int>,
    dr2: Seq<int>,
    i: int,
)
    requires
        forall|j: int| 0 <= j < i ==> #[trigger] dl1[j] == dl2[j],
        forall|j: int| 0 <= j < i ==> #[trigger] dr1[j] == dr2[j],
    ensures
        engine_at(m, in_l, in_r, dl1, dr1, i) == engine_at(m, in_l, in_r, dl2, dr2, i),
    decreases i,
{
    reveal_with_fuel(engine_at, 1);
    if i > 0 {
        lemma_engine_at_prefix(m, in_l, in_r, dl1, dr1, dl2, dr2, i - 1);
    }
}

/// The stereo wandering-delay engine: two walkers, two delay buffers, one
/// shared write cursor.
pub struct JiglAgain {
    pub sample_rate: usize,
    pub walker_left: Walker,
    pub walker_right: Walker,
    pub state_left: WalkerState,
    pub state_right: WalkerState,
    pub buffer_left: Vec<i64>,
    pub buffer_right: Vec<i64>,
    pub buf_pos: usize,
}

impl JiglAgain {
    pub open spec fn model(self) -> EngineModel {
        EngineModel {
            walker_left: self.walker_left,
            walker_right: self.walker_right,
            state_left: self.state_left,
            state_right: self.state_right,
            buffer_left: self.buffer_left@,
            buffer_right: self.buffer_right@,
            buf_pos: self.buf_pos as int,
        }
    }

    pub open spec fn wf(self) -> bool {
        &&& 1 <= self.sample_rate <= 0x800_0000
        &&& self.buffer_left.len() == MAX_DELAY_IN_SECONDS * self.sample_rate
        &&& self.buffer_right.len() == MAX_DELAY_IN_SECONDS * self.sample_rate
        &&& self.buf_pos < self.buffer_left.len()
        &&& channel_wf(self.walker_left, self.state_left, self.buffer_left.len() as int)
        &&& channel_wf(self.walker_right, self.state_right, self.buffer_right.len() as int)
        &&& samples_wf(self.buffer_left@)
        &&& samples_wf(self.buffer_right@)
    }

    /// A fresh engine: zeroed buffers sized to the delay capacity, default
    /// walkers with the tap reach pinned to the buffer length, and a
    /// randomly drawn initial state per channel.
    pub fn new(sample_rate: usize) -> (r: JiglAgain)
        requires
            1 <= sample_rate <= 0x800_0000,
        ensures
            r.wf(),
            r.sample_rate == sample_rate,
            r.buf_pos == 0,
            r.buffer_left.len() == MAX_DELAY_IN_SECONDS * sample_rate,
            forall|i: int| 0 <= i < r.buffer_left@.len() ==> #[trigger] r.buffer_left@[i] == 0i64,
            forall|i: int| 0 <= i < r.buffer_right@.len() ==> #[trigger] r.buffer_right@[i] == 0i64,
            r.walker_left == initial_walker(sample_rate as int),
            r.walker_right == initial_walker(sample_rate as int),
            r.walker_left.position.contains_spec(r.state_left.position as int),
            r.walker_right.position.contains_spec(r.state_right.position as int),
            r.walker_left.acceleration.contains_spec(r.state_left.acceleration as int),
            r.walker_right.acceleration.contains_spec(r.state_right.acceleration as int),
            r.walker_left.velocity.contains_spec(r.state_left.velocity as int),
            r.walker_right.velocity.contains_spec(r.state_right.velocity as int),
            r.state_left.position < r.walker_left.position.high,
            r.state_right.position < r.walker_right.position.high,
            r.state_left.acceleration < r.walker_left.acceleration.high,
            r.state_right.acceleration < r.walker_right.acceleration.high,
            r.state_left.velocity < r.walker_left.velocity.high,
            r.state_right.velocity < r.walker_right.velocity.high,
            r.state_left.acceleration_ttl == r.walker_left.acceleration_hold,
            r.state_right.acceleration_ttl == r.walker_right.acceleration_hold,
    {
        let len: usize = MAX_DELAY_IN_SECONDS * sample_rate;
        let walker_left = make_initial_walker(sample_rate, len);
        let walker_right = make_initial_walker(sample_rate, len);
        let state_left = WalkerState::new_from_walker(&walker_left);
        let state_right = WalkerState::new_from_walker(&walker_right);
        JiglAgain {
            sample_rate,
            walker_left,
            walker_right,
            state_left,
            state_right,
            buffer_left: zero_buffer(len),
            buffer_right: zero_buffer(len),
            buf_pos: 0,
        }
    }

    /// The low position edge the delay control asks for: the delay in
    /// milliseconds converted to a negative whole-and-fractional sample
    /// count at this engine's sample rate.
    pub fn pos_from_delay_ms(&self, max_delay_ms: i64) -> (r: i64)
        requires
            self.wf(),
            0 <= max_delay_ms <= 2000 * SCALE,
        ensures
            r == -trunc_div(max_delay_ms * self.sample_rate as int, 1000),
            -(MAX_DELAY_IN_SECONDS * self.sample_rate * SCALE as int) <= r <= 0,
    {
        proof {
            let ms = max_delay_ms as int;
            let sr = self.sample_rate as int;
            assert(0 <= ms * sr <= 2000 * SCALE * sr) by (nonlinear_arith)
                requires 0 <= ms <= 2000 * SCALE && 1 <= sr;
            lemma_trunc_div_mag(ms * sr, 1000);
            lemma_trunc_div_ordered(ms * sr, 2000 * SCALE * sr, 1000);
            lemma_trunc_div_exact(2 * SCALE * sr, 1000);
            assert(2000 * SCALE * sr == (2 * SCALE * sr) * 1000) by (nonlinear_arith);
            assert(2 * SCALE * sr == MAX_DELAY_IN_SECONDS * sr * SCALE) by (nonlinear_arith);
        }
        -((max_delay_ms * (self.sample_rate as i64)) / 1000)
    }

    /// Apply a block's control values to both walkers: each channel's own
    /// low position edge is set from the same delay control (where that
    /// keeps the interval proper), and the acceleration and velocity
    /// intervals are rebuilt symmetrically from their magnitude controls.
    pub fn update_controls(&mut self, c: &ControlInputs)
        requires
            old(self).wf(),
            c.wf(),
        ensures
            final(self).wf(),
            final(self).model() == updated_model_spec(
                old(self).model(),
                *c,
                old(self).sample_rate as int,
            ),
            final(self).sample_rate == old(self).sample_rate,
    {
        let pos_low = self.pos_from_delay_ms(c.max_delay_ms);
        if pos_low < self.walker_left.position.high {
            self.walker_left.position.low = pos_low;
        }
        if pos_low < self.walker_right.position.high {
            self.walker_right.position.low = pos_low;
        }
        self.walker_left.acceleration.low = -c.max_abs_acc;
        self.walker_left.acceleration.high = c.max_abs_acc;
        self.walker_right.acceleration.low = -c.max_abs_acc;
        self.walker_right.acceleration.high = c.max_abs_acc;
        self.walker_left.velocity.low = -c.max_abs_velo;
        self.walker_left.velocity.high = c.max_abs_velo;
        self.walker_right.velocity.low = -c.max_abs_velo;
        self.walker_right.velocity.high = c.max_abs_velo;
        assert(self.model() =~= updated_model_spec(old(self).model(), *c, old(self).sample_rate as int));
    }

    /// One sample frame: read both taps, advance both walkers, write the
    /// dry pair at the cursor, advance it, and mix the output pair. The
    /// ghost result carries the two pre-`shy` acceleration draws.
    fn process_frame(&mut self, a: i64, b: i64, wet: i64, gain: i64) -> (r: (i64, i64, Ghost<(int, int)>))
        requires
            old(self).wf(),
            -MAX_SAMPLE <= a <= MAX_SAMPLE,
            -MAX_SAMPLE <= b <= MAX_SAMPLE,
            0 <= wet <= SCALE,
            0 <= gain <= MAX_GAIN,
        ensures
            final(self).wf(),
            final(self).sample_rate == old(self).sample_rate,
            final(self).walker_left == old(self).walker_left,
            final(self).walker_right == old(self).walker_right,
            pre_shy_ok(old(self).walker_left, old(self).state_left, r.2@.0),
            pre_shy_ok(old(self).walker_right, old(self).state_right, r.2@.1),
            final(self).model() == frame_model(old(self).model(), a, b, r.2@.0, r.2@.1),
            r.0 == frame_out_left(old(self).model(), a, wet as int, gain as int),
            r.1 == frame_out_right(old(self).model(), b, wet as int, gain as int),
    {
        let aa = self.walker_left.get(&self.state_left, &self.buffer_left, self.buf_pos);
        let bb = self.walker_right.get(&self.state_right, &self.buffer_right, self.buf_pos);
        let next_left = self.walker_left.step(self.state_left);
        let next_right = self.walker_right.step(self.state_right);
        let ghost d_l = choose|d: int|
            pre_shy_ok(old(self).walker_left, old(self).state_left, d) && next_left
                == step_model(old(self).walker_left, old(self).state_left, d);
        let ghost d_r = choose|d: int|
            pre_shy_ok(old(self).walker_right, old(self).state_right, d) && next_right
                == step_model(old(self).walker_right, old(self).state_right, d);
        self.state_left = next_left;
        self.state_right = next_right;
        self.buffer_left.set(self.buf_pos, a);
        self.buffer_right.set(self.buf_pos, b);
        self.buf_pos = self.buf_pos + 1;
        if self.buf_pos == self.buffer_left.len() {
            self.buf_pos = 0;
        }
        let out_a = mix_sample(a, aa, wet, gain);
        let out_b = mix_sample(b, bb, wet, gain);
        proof {
            reveal(frame_model);
            assert(self.model() =~= frame_model(old(self).model(), a, b, d_l, d_r));
        }
        (out_a, out_b, Ghost((d_l, d_r)))
    }

    /// Process one audio block: apply the controls, then, frame by frame,
    /// read each channel's tap, advance its walker, write the dry input
    /// into its buffer, and mix the output pair. The acceleration draws
    /// the walkers made are existential in the contract; everything else
    /// is pinned down by [`run_post`].
    #[verifier::rlimit(100)]
    pub fn run(&mut self, input_left: &Vec<i64>, input_right: &Vec<i64>, c: &ControlInputs) -> (out: (
        Vec<i64>,
        Vec<i64>,
    ))
        requires
            old(self).wf(),
            c.wf(),
            input_left.len() == input_right.len(),
            samples_wf(input_left@),
            samples_wf(input_right@),
        ensures
            final(self).wf(),
            final(self).sample_rate == old(self).sample_rate,
            out.0.len() == input_left.len(),
            out.1.len() == input_right.len(),
            exists|dl: Seq<int>, dr: Seq<int>| run_post(
                old(self).model(),
                final(self).model(),
                old(self).sample_rate as int,
                input_left@,
                input_right@,
                *c,
                out.0@,
                out.1@,
                dl,
                dr,
            ),
    {
        self.update_controls(c);
        let wet = wet_mix_value(c.wet_mix);
        let gain = gain_value(c.gain_db, c.gain_linear);
        let ghost u = self.model();
        let ghost in_l = input_left@;
        let ghost in_r = input_right@;
        let n = input_left.len();
        let mut out_left: Vec<i64> = Vec::new();
        let mut out_right: Vec<i64> = Vec::new();
        let ghost mut dl = Seq::<int>::empty();
        let ghost mut dr = Seq::<int>::empty();
        let mut i: usize = 0;
        proof {
            reveal_with_fuel(engine_at, 1);
            assert(engine_at(u, in_l, in_r, dl, dr, 0) == u);
        }
        while i < n
            invariant
                self.wf(),
                self.sample_rate == old(self).sample_rate,
                i <= n,
                n == in_l.len(),
                n == in_r.len(),
                in_l == input_left@,
                in_r == input_right@,
                samples_wf(in_l),
                samples_wf(in_r),
                0 <= wet <= SCALE,
                wet == wet_mix_spec(c.wet_mix as int),
                0 <= gain <= MAX_GAIN,
                gain == gain_spec(c.gain_db as int, c.gain_linear as int),
                dl.len() == i,
                dr.len() == i,
                out_left.len() == i,
                out_right.len() == i,
                self.model() == engine_at(u, in_l, in_r, dl, dr, i as int),
                self.walker_left == u.walker_left,
                self.walker_right == u.walker_right,
                forall|j: int| 0 <= j < i ==> pre_shy_ok(
                    u.walker_left,
                    engine_at(u, in_l, in_r, dl, dr, j).state_left,
                    #[trigger] dl[j],
                ),
                forall|j: int| 0 <= j < i ==> pre_shy_ok(
                    u.walker_right,
                    engine_at(u, in_l, in_r, dl, dr, j).state_right,
                    #[trigger] dr[j],
                ),
                forall|j: int| 0 <= j < i ==> #[trigger] out_left@[j] == frame_out_left(
                    engine_at(u, in_l, in_r, dl, dr, j),
                    in_l[j],
                    wet as int,
                    gain as int,
                ),
                forall|j: int| 0 <= j < i ==> #[trigger] out_right@[j] == frame_out_right(
                    engine_at(u, in_l, in_r, dl, dr, j),
                    in_r[j],
                    wet as int,
                    gain as int,
                ),
            decreases n - i,
        {
            let a = input_left[i];
            let b = input_right[i];
            let ghost m_before = self.model();
            let (out_a, out_b, draws) = self.process_frame(a, b, wet, gain);
            out_left.push(out_a);
            out_right.push(out_b);
            proof {
                let d_l = draws@.0;
                let d_r = draws@.1;
                let dl2 = dl.push(d_l);
                let dr2 = dr.push(d_r);
                assert forall|j: int| 0 <= j <= i implies engine_at(u, in_l, in_r, dl2, dr2, j)
                    == engine_at(u, in_l, in_r, dl, dr, j) by {
                    lemma_engine_at_prefix(u, in_l, in_r, dl, dr, dl2, dr2, j);
                }
                reveal_with_fuel(engine_at, 1);
                assert(engine_at(u, in_l, in_r, dl2, dr2, i + 1) == frame_model(
                    m_before,
                    in_l[i as int],
                    in_r[i as int],
                    dl2[i as int],
                    dr2[i as int],
                ));
                dl = dl2;
                dr = dr2;
            }
            i = i + 1;
        }
        proof {
            assert(run_post(
                old(self).model(),
                self.model(),
                old(self).sample_rate as int,
                in_l,
                in_r,
                *c,
                out_left@,
                out_right@,
                dl,
                dr,
            ));
        }
        (out_left, out_right)
    }
}

/// What a fresh engine's walkers hold: the default parameter set, with the
/// low position edge pinned to the buffer's reach where the buffer is
/// shorter than the default tap range.
pub open spec fn initial_walker(sample_rate: int) -> Walker {
    let reach = MAX_DELAY_IN_SECONDS * sample_rate * SCALE;
    let low: int = if -8000 * SCALE < -reach {
        -reach
    } else {
        -8000 * SCALE
    };
    Walker {
        position: Bounds { low: low as i64, high: (-SCALE) as i64 },
        acceleration: Bounds { low: (-SCALE) as i64, high: SCALE },
        velocity: Bounds { low: (-50 * SCALE) as i64, high: (50 * SCALE) as i64 },
        acceleration_hold: 10,
    }
}

/// Builds [`initial_walker`] for a buffer of `len` samples.
fn make_initial_walker(sample_rate: usize, len: usize) -> (r: Walker)
    requires
        1 <= sample_rate <= 0x800_0000,
        len == MAX_DELAY_IN_SECONDS * sample_rate,
    ensures
        r == initial_walker(sample_rate as int),
        r.wf(),
        channel_wf(r, WalkerState { acceleration: 0, velocity: 0, position: r.position.low, acceleration_ttl: 1 }, len as int),
        -(len * SCALE as int) <= r.position.low,
        r.position.high <= 0,
{
    let mut w = Walker::new();
    let reach: i64 = (len as i64) * SCALE;
    if w.position.low < -reach {
        w.position.low = -reach;
    }
    proof {
        assert(len * SCALE as int == MAX_DELAY_IN_SECONDS * (sample_rate as int) * SCALE)
            by (nonlinear_arith)
            requires len == MAX_DELAY_IN_SECONDS * sample_rate;
        assert(2 * (sample_rate as int) * SCALE >= 2 * SCALE) by (nonlinear_arith)
            requires sample_rate >= 1;
        assert(2 * (sample_rate as int) * SCALE <= 2 * 0x800_0000 * SCALE) by (nonlinear_arith)
            requires sample_rate <= 0x800_0000;
    }
    w
}

/// A zeroed sample buffer of the asked-for length.
fn zero_buffer(len: usize) -> (r: Vec<i64>)
    ensures
        r.len() == len,
        forall|i: int| 0 <= i < r@.len() ==> #[trigger] r@[i] == 0i64,
{
    let mut v: Vec<i64> = Vec::new();
    while v.len() < len
        invariant
            v.len() <= len,
            forall|i: int| 0 <= i < v@.len() ==> #[trigger] v@[i] == 0i64,
        decreases len - v.len(),
    {
        v.push(0);
    }
    v
}

} // verus!
