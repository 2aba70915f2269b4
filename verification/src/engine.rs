//! The synthesis engine: per-block parameter snapshots, per-frame
//! sample generation, oscillator phase state, and the drifting
//! low-frequency oscillator.
//!
//! The audio callback takes one [`BlockParams`] snapshot per processing
//! block, then runs [`process_frame`] once per frame: two oscillators
//! of the selected shape are mixed, amplitude-modulated by the
//! low-frequency oscillator when enabled, scaled by the linear volume
//! and clamped into `[-UNIT, UNIT]`.  Phases advance by one increment
//! per frame and wrap at a whole cycle by a single subtraction.
//!
//! The store validates nothing, so the snapshot clamps every parameter
//! into the engine's documented operating band instead of failing:
//! this core never panics on caller-supplied values.

use vstd::prelude::*;

verus! {

use crate::fixed::{
    UNIT, GAIN_CAP, RATE_RANGE_CAP, DRIFT_STEP_CAP, RATE_HARD_BOUND,
    spec_clamp, spec_clamp_unit, spec_scale, clamp, clamp_unit, scale,
};
use crate::params::SharedParams;
use crate::wave::{Waveform, wave_at, sine_at, spec_waveform_from_index};

/// Rate the low-frequency oscillator drifts from when a stream starts:
/// 2 Hz in fixed point.
pub const INITIAL_LFO_RATE: i64 = 2_000_000;

/// Parameters frozen for one processing block, already clamped into
/// the engine's operating band.
pub struct BlockParams {
    /// Oscillator shape for both oscillators.
    pub waveform: Waveform,
    /// Output sample rate, frames per second; positive.
    pub sample_rate: i64,
    /// Per-frame phase increment of the first oscillator, in `[0, UNIT)`.
    pub incr1: i64,
    /// Per-frame phase increment of the second oscillator, in `[0, UNIT)`.
    pub incr2: i64,
    /// Linear volume gain; zero whenever `mute` is set.
    pub volume: i64,
    /// Whether the block is muted.
    pub mute: bool,
    /// Whether the low-frequency oscillator modulates the output.
    pub lfo_enabled: bool,
    /// Bound the drifting rate turns around at, in `[UNIT, RATE_RANGE_CAP]`.
    pub lfo_range: i64,
    /// Per-sample drift increment, in `[0, DRIFT_STEP_CAP]`.
    pub lfo_speed: i64,
}

impl BlockParams {
    /// The clamped bands every snapshot lies in.
    pub open spec fn wf(self) -> bool {
        &&& self.sample_rate >= 1
        &&& 0 <= self.incr1 < UNIT
        &&& 0 <= self.incr2 < UNIT
        &&& 0 <= self.volume <= GAIN_CAP
        &&& (self.mute ==> self.volume == 0)
        &&& UNIT <= self.lfo_range <= RATE_RANGE_CAP
        &&& 0 <= self.lfo_speed <= DRIFT_STEP_CAP
    }
}

/// Per-frame phase increment of an oscillator running at `freq`
/// micro-hertz against the given sample rate: a negative frequency is
/// read as zero, freezing the phase so the oscillator holds its
/// current sample, and increments of a whole cycle or more are clamped
/// just below one cycle so a single subtraction wraps them.
pub open spec fn spec_phase_increment(freq: int, sample_rate: int) -> int {
    let f = if freq < 0 { 0 } else { freq };
    let q = f / sample_rate;
    if q >= UNIT {
        UNIT - 1
    } else {
        q
    }
}

/// Compute the clamped per-frame phase increment.
pub fn phase_increment(freq: i64, sample_rate: i64) -> (incr: i64)
    requires
        sample_rate >= 1,
    ensures
        incr == spec_phase_increment(freq as int, sample_rate as int),
        0 <= incr < UNIT,
{
    let f: i64 = if freq < 0 {
        0
    } else {
        freq
    };
    let q: i64 = f / sample_rate;
    proof {
        assert(0 <= f as int / sample_rate as int <= f) by (nonlinear_arith)
            requires
                f >= 0,
                sample_rate >= 1,
        ;
    }
    if q >= UNIT {
        UNIT - 1
    } else {
        q
    }
}

/// The snapshot [`snapshot`] takes from a store.
pub open spec fn spec_snapshot(p: SharedParams, sample_rate: int, volume_linear: int) -> BlockParams {
    BlockParams {
        waveform: spec_waveform_from_index(p.waveform),
        sample_rate: sample_rate as i64,
        incr1: spec_phase_increment(p.freq1 as int, sample_rate) as i64,
        incr2: spec_phase_increment(p.freq2 as int, sample_rate) as i64,
        volume: if p.mute {
            0
        } else {
            spec_clamp(volume_linear, 0, GAIN_CAP as int) as i64
        },
        mute: p.mute,
        lfo_enabled: p.lfo_enabled,
        lfo_range: spec_clamp(p.lfo_range as int, UNIT as int, RATE_RANGE_CAP as int) as i64,
        lfo_speed: spec_clamp(p.lfo_speed as int, 0, DRIFT_STEP_CAP as int) as i64,
    }
}

/// Freeze the store into one block's parameters.
///
/// The linear volume gain is supplied by the caller, which converts the
/// store's decibel volume outside this core; a muted block gets a gain
/// of exactly zero whatever gain is supplied.
pub fn snapshot(p: &SharedParams, sample_rate: i64, volume_linear: i64) -> (bp: BlockParams)
    requires
        sample_rate >= 1,
    ensures
        bp == spec_snapshot(*p, sample_rate as int, volume_linear as int),
        bp.wf(),
{
    BlockParams {
        waveform: Waveform::from_index(p.waveform),
        sample_rate,
        incr1: phase_increment(p.freq1, sample_rate),
        incr2: phase_increment(p.freq2, sample_rate),
        volume: if p.mute {
            0
        } else {
            clamp(volume_linear, 0, GAIN_CAP)
        },
        mute: p.mute,
        lfo_enabled: p.lfo_enabled,
        lfo_range: clamp(p.lfo_range, UNIT, RATE_RANGE_CAP),
        lfo_speed: clamp(p.lfo_speed, 0, DRIFT_STEP_CAP),
    }
}

/// The mutable phase state of one audio stream; created when the
/// stream starts, never shared.
pub struct OscState {
    /// First oscillator phase, in `[0, UNIT)`.
    pub phase1: i64,
    /// Second oscillator phase, in `[0, UNIT)`.
    pub phase2: i64,
    /// Low-frequency-oscillator phase, in `[0, UNIT)`.
    pub lfo_phase: i64,
    /// Current drifting low-frequency-oscillator rate, micro-hertz.
    pub lfo_rate: i64,
    /// Whether the rate is currently drifting upward.
    pub lfo_rising: bool,
}

impl OscState {
    /// Bands the engine keeps the state in: phases inside one cycle,
    /// the drifting rate inside its hard bound.
    pub open spec fn wf(self) -> bool {
        &&& 0 <= self.phase1 < UNIT
        &&& 0 <= self.phase2 < UNIT
        &&& 0 <= self.lfo_phase < UNIT
        &&& -RATE_HARD_BOUND <= self.lfo_rate <= RATE_HARD_BOUND
    }

    /// The state a fresh stream starts from.
    pub fn new() -> (st: OscState)
        ensures
            st == (OscState {
                phase1: 0i64,
                phase2: 0i64,
                lfo_phase: 0i64,
                lfo_rate: INITIAL_LFO_RATE,
                lfo_rising: true,
            }),
            st.wf(),
    {
        OscState {
            phase1: 0,
            phase2: 0,
            lfo_phase: 0,
            lfo_rate: INITIAL_LFO_RATE,
            lfo_rising: true,
        }
    }
}

/// One phase step: advance by the increment, wrap a whole cycle by a
/// single subtraction.
pub open spec fn spec_wrap_phase(p: int, incr: int) -> int {
    if p + incr >= UNIT {
        p + incr - UNIT
    } else {
        p + incr
    }
}

/// Advance a phase by one per-frame increment.
pub fn wrap_phase(p: i64, incr: i64) -> (r: i64)
    requires
        0 <= p < UNIT,
        0 <= incr < UNIT,
    ensures
        r == spec_wrap_phase(p as int, incr as int),
        0 <= r < UNIT,
{
    let s: i64 = p + incr;
    if s >= UNIT {
        s - UNIT
    } else {
        s
    }
}

/// The rate after one drift step: one increment along the current
/// direction, held inside the hard bound.
pub open spec fn spec_drift_rate(rate: int, rising: bool, speed: int) -> int {
    let stepped = if rising {
        rate + speed
    } else {
        rate - speed
    };
    spec_clamp(stepped, -RATE_HARD_BOUND as int, RATE_HARD_BOUND as int)
}

/// The direction after one drift step: downward above the range bound,
/// upward below one hertz, otherwise unchanged.
pub open spec fn spec_drift_rising(new_rate: int, rising: bool, range: int) -> bool {
    if new_rate > range {
        false
    } else if new_rate < UNIT {
        true
    } else {
        rising
    }
}

/// One drift step of the low-frequency-oscillator rate.
pub fn drift_lfo_rate(rate: i64, rising: bool, speed: i64, range: i64) -> (r: (i64, bool))
    requires
        -RATE_HARD_BOUND <= rate <= RATE_HARD_BOUND,
        0 <= speed <= DRIFT_STEP_CAP,
        UNIT <= range <= RATE_RANGE_CAP,
    ensures
        r.0 == spec_drift_rate(rate as int, rising, speed as int),
        r.1 == spec_drift_rising(r.0 as int, rising, range as int),
        -RATE_HARD_BOUND <= r.0 <= RATE_HARD_BOUND,
{
    let stepped: i64 = if rising {
        rate + speed
    } else {
        rate - speed
    };
    let new_rate: i64 = clamp(stepped, -RATE_HARD_BOUND, RATE_HARD_BOUND);
    let new_rising: bool = if new_rate > range {
        false
    } else if new_rate < UNIT {
        true
    } else {
        rising
    };
    (new_rate, new_rising)
}

/// The band the drifting rate occupies once it runs between its
/// turnaround points: drifting upward it sits between one hertz less a
/// step and the range bound, drifting downward between one hertz and
/// the range bound plus a step.
pub open spec fn drift_in_band(rate: int, rising: bool, speed: int, range: int) -> bool {
    &&& rising ==> UNIT - speed <= rate <= range
    &&& !rising ==> UNIT <= rate <= range + speed
}

/// Law: for any positive drift speed and any range bound of at least
/// one hertz, repeated drift updates keep the rate within
/// `[UNIT - speed, range + speed]` — one step beyond the turnaround
/// points on either side — and in particular strictly positive while
/// the speed stays below one hertz.  The band is preserved by every
/// step, so it holds for all time once entered; the initial engine
/// state enters it whenever the range bound is at least the initial
/// rate.
pub proof fn lemma_drift_stays_in_band(rate: int, rising: bool, speed: int, range: int)
    requires
        0 < speed <= DRIFT_STEP_CAP,
        UNIT <= range <= RATE_RANGE_CAP,
        drift_in_band(rate, rising, speed, range),
    ensures
        ({
            let new_rate = spec_drift_rate(rate, rising, speed);
            let new_rising = spec_drift_rising(new_rate, rising, range);
            &&& drift_in_band(new_rate, new_rising, speed, range)
            &&& UNIT - speed <= new_rate <= range + speed
            &&& (speed < UNIT ==> new_rate > 0)
        }),
{
}

/// Half of a mixed two-oscillator sum, truncating toward zero.
pub open spec fn spec_half_toward_zero(x: int) -> int {
    if x >= 0 {
        x / 2
    } else {
        -((-x) / 2)
    }
}

/// The tremolo factor for one frame: with the low-frequency oscillator
/// enabled, a unipolar sine in `[0, UNIT]`; otherwise unity.
pub open spec fn spec_lfo_mod(p: BlockParams, st: OscState) -> int {
    if p.lfo_enabled {
        (UNIT + sine_at(st.lfo_phase as int)) / 2
    } else {
        UNIT as int
    }
}

/// The output sample for one frame: both oscillators sampled and
/// averaged, modulated, scaled by the volume gain, clamped to
/// `[-UNIT, UNIT]`.
pub open spec fn spec_frame_out(p: BlockParams, st: OscState) -> int {
    let mixed = spec_half_toward_zero(
        wave_at(p.waveform, st.phase1 as int) + wave_at(p.waveform, st.phase2 as int),
    );
    spec_clamp_unit(spec_scale(spec_scale(mixed, spec_lfo_mod(p, st)), p.volume as int))
}

/// The phase state after one frame: each phase advanced by its
/// increment, and the drifting rate stepped once.
pub open spec fn spec_frame_next(p: BlockParams, st: OscState) -> OscState {
    let new_rate = spec_drift_rate(st.lfo_rate as int, st.lfo_rising, p.lfo_speed as int);
    OscState {
        phase1: spec_wrap_phase(st.phase1 as int, p.incr1 as int) as i64,
        phase2: spec_wrap_phase(st.phase2 as int, p.incr2 as int) as i64,
        lfo_phase: spec_wrap_phase(
            st.lfo_phase as int,
            spec_phase_increment(st.lfo_rate as int, p.sample_rate as int),
        ) as i64,
        lfo_rate: new_rate as i64,
        lfo_rising: spec_drift_rising(new_rate, st.lfo_rising, p.lfo_range as int),
    }
}

/// Generate one output frame and advance the phase state.
///
/// The result is the exact mixed, modulated, scaled and clamped sample
/// of [`spec_frame_out`]; a muted block yields exactly zero whatever
/// the oscillator state.
pub fn process_frame(p: &BlockParams, st: &mut OscState) -> (out: i64)
    requires
        p.wf(),
        old(st).wf(),
    ensures
        final(st).wf(),
        *final(st) == spec_frame_next(*p, *old(st)),
        out == spec_frame_out(*p, *old(st)),
        -UNIT <= out <= UNIT,
        p.mute ==> out == 0,
{
    let osc1: i64 = p.waveform.sample(st.phase1);
    let osc2: i64 = p.waveform.sample(st.phase2);
    let sum: i64 = osc1 + osc2;
    let mixed: i64 = if sum >= 0 {
        sum / 2
    } else {
        -((-sum) / 2)
    };
    let lfo_mod: i64 = if p.lfo_enabled {
        let s: i64 = Waveform::Sine.sample(st.lfo_phase);
        (UNIT + s) / 2
    } else {
        UNIT
    };
    let modulated: i64 = scale(mixed, lfo_mod);
    let out: i64 = clamp_unit(scale(modulated, p.volume));

    st.phase1 = wrap_phase(st.phase1, p.incr1);
    st.phase2 = wrap_phase(st.phase2, p.incr2);
    let lfo_incr: i64 = phase_increment(st.lfo_rate, p.sample_rate);
    st.lfo_phase = wrap_phase(st.lfo_phase, lfo_incr);
    let (new_rate, new_rising): (i64, bool) =
        drift_lfo_rate(st.lfo_rate, st.lfo_rising, p.lfo_speed, p.lfo_range);
    st.lfo_rate = new_rate;
    st.lfo_rising = new_rising;

    out
}

/// The outputs of a run of consecutive frames from a given state.
pub open spec fn spec_block_outputs(p: BlockParams, st: OscState, n: nat) -> Seq<i64>
    decreases n,
{
    if n == 0 {
        Seq::empty()
    } else {
        seq![spec_frame_out(p, st) as i64] + spec_block_outputs(p, spec_frame_next(p, st), (n - 1) as nat)
    }
}

/// The state left after a run of consecutive frames.
pub open spec fn spec_block_state(p: BlockParams, st: OscState, n: nat) -> OscState
    decreases n,
{
    if n == 0 {
        st
    } else {
        spec_block_state(p, spec_frame_next(p, st), (n - 1) as nat)
    }
}

/// A frame run grows at its right end: one more frame appends the
/// output taken at the state the run had reached.
proof fn lemma_block_unfold_right(p: BlockParams, st: OscState, n: nat)
    ensures
        spec_block_state(p, st, n + 1) == spec_frame_next(p, spec_block_state(p, st, n)),
        spec_block_outputs(p, st, n + 1) =~= spec_block_outputs(p, st, n).push(
            spec_frame_out(p, spec_block_state(p, st, n)) as i64,
        ),
    decreases n,
{
    reveal_with_fuel(spec_block_outputs, 2);
    reveal_with_fuel(spec_block_state, 2);
    let next = spec_frame_next(p, st);
    if n == 0 {
        assert(spec_block_outputs(p, st, 1) =~= Seq::<i64>::empty().push(
            spec_frame_out(p, st) as i64,
        ));
    } else {
        lemma_block_unfold_right(p, next, (n - 1) as nat);
        assert(spec_block_outputs(p, st, n + 1) == seq![spec_frame_out(p, st) as i64]
            + spec_block_outputs(p, next, n));
        assert(spec_block_outputs(p, st, n + 1) =~= spec_block_outputs(p, st, n).push(
            spec_frame_out(p, spec_block_state(p, st, n)) as i64,
        ));
    }
}

/// Generate one block of output frames, advancing the state frame by
/// frame.
///
/// Every output sample lies in `[-UNIT, UNIT]`, and a muted block is
/// exactly silent.
pub fn process_block(p: &BlockParams, st: &mut OscState, frames: usize) -> (out: Vec<i64>)
    requires
        p.wf(),
        old(st).wf(),
    ensures
        final(st).wf(),
        out@.len() == frames,
        out@ == spec_block_outputs(*p, *old(st), frames as nat),
        *final(st) == spec_block_state(*p, *old(st), frames as nat),
        forall|i: int| 0 <= i < frames ==> -UNIT <= #[trigger] out@[i] <= UNIT,
        p.mute ==> forall|i: int| 0 <= i < frames ==> #[trigger] out@[i] == 0,
{
    let ghost st0: OscState = *st;
    let mut out: Vec<i64> = Vec::new();
    let mut i: usize = 0;
    while i < frames
        invariant
            p.wf(),
            st.wf(),
            i <= frames,
            out@.len() == i,
            out@ == spec_block_outputs(*p, st0, i as nat),
            *st == spec_block_state(*p, st0, i as nat),
            forall|k: int| 0 <= k < i ==> -UNIT <= #[trigger] out@[k] <= UNIT,
            p.mute ==> forall|k: int| 0 <= k < i ==> #[trigger] out@[k] == 0,
        decreases frames - i,
    {
        proof {
            lemma_block_unfold_right(*p, st0, i as nat);
        }
        let s: i64 = process_frame(p, st);
        out.push(s);
        i = i + 1;
    }
    out
}

/// Fan one mono block out over the device's channels: every channel of
/// a frame carries the same sample, interleaved the way audio hosts
/// lay frames out.
pub fn interleave_channels(block: &Vec<i64>, channels: usize) -> (out: Vec<i64>)
    requires
        channels >= 1,
        block@.len() * channels <= usize::MAX,
    ensures
        out@.len() == block@.len() * channels,
        forall|k: int| 0 <= k < out@.len() ==> #[trigger] out@[k] == block@[k / (channels as int)],
{
    let mut out: Vec<i64> = Vec::new();
    let mut f: usize = 0;
    while f < block.len()
        invariant
            channels >= 1,
            f <= block@.len(),
            block@.len() * channels <= usize::MAX,
            out@.len() == f * channels,
            forall|k: int|
                0 <= k < out@.len() ==> #[trigger] out@[k] == block@[k / (channels as int)],
        decreases block@.len() - f,
    {
        let sample: i64 = block[f];
        let mut c: usize = 0;
        while c < channels
            invariant
                channels >= 1,
                f < block@.len(),
                c <= channels,
                block@.len() * channels <= usize::MAX,
                sample == block@[f as int],
                out@.len() == f * channels + c,
                forall|k: int|
                    0 <= k < out@.len() ==> #[trigger] out@[k] == block@[k / (channels as int)],
            decreases channels - c,
        {
            proof {
                let k = out@.len() as int;
                assert(k / (channels as int) == f) by (nonlinear_arith)
                    requires
                        k == f * channels + c,
                        0 <= c < channels,
                        0 <= f,
                ;
            }
            out.push(sample);
            c = c + 1;
        }
        f = f + 1;
        proof {
            assert((f - 1) * channels + channels == f * channels) by (nonlinear_arith);
        }
    }
    proof {
        assert(out@.len() == block@.len() * channels);
    }
    out
}

/// Number of samples a scope snapshot holds; the accumulator publishes
/// once it has gathered at least this many, a few dozen times per
/// second at typical sample rates.
pub const SCOPE_SAMPLES: usize = 4096;

/// Append one block's samples to the scope accumulator.
pub fn append_samples(accum: &mut Vec<i64>, block: &Vec<i64>)
    ensures
        final(accum)@ == old(accum)@ + block@,
{
    let mut i: usize = 0;
    while i < block.len()
        invariant
            i <= block@.len(),
            accum@ == old(accum)@ + block@.take(i as int),
        decreases block@.len() - i,
    {
        accum.push(block[i]);
        i = i + 1;
        proof {
            assert(accum@ =~= old(accum)@ + block@.take(i as int));
        }
    }
    proof {
        assert(accum@ =~= old(accum)@ + block@);
    }
}

/// Once the accumulator holds a full snapshot, hand its first
/// [`SCOPE_SAMPLES`] samples out for publication and clear it;
/// otherwise leave it untouched.
pub fn take_scope_snapshot(accum: &mut Vec<i64>) -> (snap: Option<Vec<i64>>)
    ensures
        old(accum)@.len() >= SCOPE_SAMPLES ==> {
            &&& snap matches Some(s) && s@ == old(accum)@.take(SCOPE_SAMPLES as int)
            &&& final(accum)@.len() == 0
        },
        old(accum)@.len() < SCOPE_SAMPLES ==> {
            &&& snap is None
            &&& final(accum)@ == old(accum)@
        },
{
    if accum.len() >= SCOPE_SAMPLES {
        let mut snap: Vec<i64> = Vec::new();
        let mut i: usize = 0;
        while i < SCOPE_SAMPLES
            invariant
                i <= SCOPE_SAMPLES,
                accum@ == old(accum)@,
                accum@.len() >= SCOPE_SAMPLES,
                snap@ == accum@.take(i as int),
            decreases SCOPE_SAMPLES - i,
        {
            snap.push(accum[i]);
            i = i + 1;
            proof {
                assert(snap@ =~= accum@.take(i as int));
            }
        }
        accum.clear();
        Some(snap)
    } else {
        None
    }
}

/// One audio-callback pass: generate a block of frames, gather them in
/// the scope accumulator, and publish a snapshot through the carrier
/// once a full one has accumulated.
///
/// The returned samples are the block's output, bound by the same
/// contract as [`process_block`]; the accumulator afterward holds the
/// gathered samples, or nothing if a snapshot was just published.
pub fn run_block(
    p: &BlockParams,
    st: &mut OscState,
    accum: &mut Vec<i64>,
    input: &mut triple_buffer::Input<Vec<i64>>,
    frames: usize,
) -> (out: Vec<i64>)
    requires
        p.wf(),
        old(st).wf(),
    ensures
        final(st).wf(),
        out@.len() == frames,
        out@ == spec_block_outputs(*p, *old(st), frames as nat),
        *final(st) == spec_block_state(*p, *old(st), frames as nat),
        p.mute ==> forall|i: int| 0 <= i < frames ==> #[trigger] out@[i] == 0,
        ({
            let gathered = old(accum)@ + out@;
            if gathered.len() >= SCOPE_SAMPLES {
                final(accum)@.len() == 0
            } else {
                final(accum)@ == gathered
            }
        }),
{
    let out: Vec<i64> = process_block(p, st, frames);
    append_samples(accum, &out);
    let snap: Option<Vec<i64>> = take_scope_snapshot(accum);
    match snap {
        Some(s) => {
            crate::source::publish_samples(input, &s);
        }
        None => {}
    }
    out
}

} // verus!
