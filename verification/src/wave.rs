//! The waveform generator: a pure per-phase sample function for each
//! oscillator shape.
//!
//! Phase runs over `[0, UNIT)` (one cycle) and every shape returns an
//! amplitude in `[-UNIT, UNIT]`.  The sine is the symmetric parabolic
//! wave `16 t (1/2 - t)` per half cycle, which is exactly zero at phase
//! 0 and exactly full scale at a quarter cycle.

use vstd::prelude::*;

verus! {

use crate::fixed::{UNIT, HALF_UNIT};

/// Phase position, as a fraction of [`UNIT`], at which the pulse wave
/// falls from +1 to -1: a deliberate 55/45 duty cycle.
pub const PULSE_FALL: i64 = 550_000;

/// Oscillator shape selector.
#[derive(Clone, Copy, Debug, PartialEq, Eq, Structural)]
pub enum Waveform {
    Sine,
    Saw,
    Triangle,
    Pulse,
}

/// The saw wave: a linear ramp `2 p - 1`, discontinuous at the wrap.
pub open spec fn saw_at(p: int) -> int {
    2 * p - UNIT
}

/// The triangle wave: `4 |p - round(p)| - 1`, symmetric and zero-mean.
pub open spec fn triangle_at(p: int) -> int {
    if p < HALF_UNIT {
        4 * p - UNIT
    } else {
        3 * UNIT - 4 * p
    }
}

/// The pulse wave: +1 before [`PULSE_FALL`], -1 after.
pub open spec fn pulse_at(p: int) -> int {
    if p < PULSE_FALL {
        UNIT as int
    } else {
        -UNIT as int
    }
}

/// The sine wave, rendered as the parabolic arc `16 t (1/2 - t)` on the
/// first half cycle and its negated mirror on the second, truncating
/// toward zero at the fixed-point division.
pub open spec fn sine_at(p: int) -> int {
    if p <= HALF_UNIT {
        (16 * p * (HALF_UNIT - p)) / (UNIT as int)
    } else {
        -((16 * (p - HALF_UNIT) * (UNIT - p)) / (UNIT as int))
    }
}

/// Law: the saw is a uniform ramp — between any two adjacent phases
/// inside one cycle it climbs by exactly two steps, so its only
/// discontinuity is the wrap from the top of the ramp back to minus
/// full scale at phase zero.
pub proof fn lemma_saw_ramp_is_continuous(p: int)
    requires
        0 <= p < UNIT - 1,
    ensures
        saw_at(p + 1) - saw_at(p) == 2,
        saw_at(0) == -UNIT,
        saw_at(UNIT - 1) == UNIT - 2,
{
}

/// The sample of the given shape at the given phase.
pub open spec fn wave_at(w: Waveform, p: int) -> int {
    match w {
        Waveform::Sine => sine_at(p),
        Waveform::Saw => saw_at(p),
        Waveform::Triangle => triangle_at(p),
        Waveform::Pulse => pulse_at(p),
    }
}

/// The shape a raw parameter-store index selects; indices past the last
/// shape fall back to the sine.
pub open spec fn spec_waveform_from_index(idx: u32) -> Waveform {
    if idx == 1 {
        Waveform::Saw
    } else if idx == 2 {
        Waveform::Triangle
    } else if idx == 3 {
        Waveform::Pulse
    } else {
        Waveform::Sine
    }
}

impl Waveform {
    /// Decode a raw parameter-store index into a shape.
    pub fn from_index(idx: u32) -> (w: Waveform)
        ensures
            w == spec_waveform_from_index(idx),
    {
        if idx == 1 {
            Waveform::Saw
        } else if idx == 2 {
            Waveform::Triangle
        } else if idx == 3 {
            Waveform::Pulse
        } else {
            Waveform::Sine
        }
    }

    /// Generate the sample for this shape at a phase in `[0, UNIT)`.
    ///
    /// The result is exactly the shape's defining formula and always
    /// lies in the canonical amplitude band `[-UNIT, UNIT]`.
    pub fn sample(self, phase: i64) -> (s: i64)
        requires
            0 <= phase < UNIT,
        ensures
            s == wave_at(self, phase as int),
            -UNIT <= s <= UNIT,
    {
        match self {
            Waveform::Sine => {
                if phase <= HALF_UNIT {
                    proof {
                        assert(0 <= 16 * phase * (HALF_UNIT - phase) <= UNIT * UNIT)
                            by (nonlinear_arith)
                            requires
                                0 <= phase <= HALF_UNIT,
                                UNIT == 2 * HALF_UNIT,
                        ;
                    }
                    let num: i64 = 16 * phase * (HALF_UNIT - phase);
                    num / UNIT
                } else {
                    proof {
                        assert(0 <= 16 * (phase - HALF_UNIT) * (UNIT - phase) <= UNIT * UNIT)
                            by (nonlinear_arith)
                            requires
                                HALF_UNIT < phase < UNIT,
                                UNIT == 2 * HALF_UNIT,
                        ;
                    }
                    let num: i64 = 16 * (phase - HALF_UNIT) * (UNIT - phase);
                    -(num / UNIT)
                }
            }
            Waveform::Saw => 2 * phase - UNIT,
            Waveform::Triangle => {
                if phase < HALF_UNIT {
                    4 * phase - UNIT
                } else {
                    3 * UNIT - 4 * phase
                }
            }
            Waveform::Pulse => {
                if phase < PULSE_FALL {
                    UNIT
                } else {
                    -UNIT
                }
            }
        }
    }
}

} // verus!
