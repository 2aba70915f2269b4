//! Fixed-point number model used throughout the synthesis core.
//!
//! Every continuous quantity of the engine (amplitudes, phases, rates,
//! gains) is carried as a signed 64-bit integer scaled by [`UNIT`]:
//! the value `v` stands for the real number `v / UNIT`.  One scale serves
//! every unit of measure: an amplitude of `UNIT` is full scale, a phase of
//! `UNIT` is one whole cycle, a rate of `UNIT` is 1 Hz, a gain of `UNIT`
//! is unity.

use vstd::prelude::*;

verus! {

/// The fixed-point scale: this many raw steps make 1.0.
pub const UNIT: i64 = 1_000_000;

/// Half of [`UNIT`]; 0.5 in fixed point.
pub const HALF_UNIT: i64 = 500_000;

/// Largest gain the engine accepts: one million times unity (+120 dB).
/// Larger caller-supplied gains are clamped, never rejected.
pub const GAIN_CAP: i64 = 1_000_000_000_000;

/// Largest low-frequency-oscillator rate bound the engine accepts
/// (one million Hz in fixed point).
pub const RATE_RANGE_CAP: i64 = 1_000_000_000_000;

/// Largest per-sample rate drift step the engine accepts (1000 Hz per
/// sample in fixed point).
pub const DRIFT_STEP_CAP: i64 = 1_000_000_000;

/// Hard bound on the drifting rate held in the oscillator state; the
/// drift update never leaves this band, whatever parameters arrive.
pub const RATE_HARD_BOUND: i64 = RATE_RANGE_CAP + DRIFT_STEP_CAP;

/// Clamping a sample into the canonical amplitude band [-1, 1].
pub open spec fn spec_clamp_unit(x: int) -> int {
    if x < -UNIT {
        -UNIT as int
    } else if x > UNIT {
        UNIT as int
    } else {
        x
    }
}

/// General clamping into a closed band.
pub open spec fn spec_clamp(x: int, lo: int, hi: int) -> int {
    if x < lo {
        lo
    } else if x > hi {
        hi
    } else {
        x
    }
}

/// Fixed-point multiplication `a * b / UNIT`, truncating toward zero,
/// defined for a non-negative second factor.
pub open spec fn spec_scale(a: int, b: int) -> int {
    if a >= 0 {
        (a * b) / (UNIT as int)
    } else {
        -((-a * b) / (UNIT as int))
    }
}

/// Clamp a sample into [-UNIT, UNIT].
pub fn clamp_unit(x: i64) -> (r: i64)
    ensures
        r == spec_clamp_unit(x as int),
        -UNIT <= r <= UNIT,
{
    if x < -UNIT {
        -UNIT
    } else if x > UNIT {
        UNIT
    } else {
        x
    }
}

/// Clamp into a caller-given closed band.
pub fn clamp(x: i64, lo: i64, hi: i64) -> (r: i64)
    requires
        lo <= hi,
    ensures
        r == spec_clamp(x as int, lo as int, hi as int),
        lo <= r <= hi,
{
    if x < lo {
        lo
    } else if x > hi {
        hi
    } else {
        x
    }
}

/// Fixed-point multiply: `a * b / UNIT` with truncation toward zero.
///
/// The first factor is an amplitude in [-UNIT, UNIT]; the second a
/// non-negative gain up to [`GAIN_CAP`].  The product of the raw values
/// stays below `i64::MAX`, so the computation cannot overflow.
pub fn scale(a: i64, b: i64) -> (r: i64)
    requires
        -UNIT <= a <= UNIT,
        0 <= b <= GAIN_CAP,
    ensures
        r == spec_scale(a as int, b as int),
        b <= UNIT ==> -UNIT <= r <= UNIT,
{
    proof {
        assert(a * b <= UNIT * GAIN_CAP && a * b >= -UNIT * GAIN_CAP
            && (-a) * b <= UNIT * GAIN_CAP
            && (a >= 0 ==> a * b >= 0)
            && (a < 0 ==> (-a) * b >= 0)) by (nonlinear_arith)
            requires
                -UNIT <= a <= UNIT,
                0 <= b <= GAIN_CAP,
        ;
        assert(b <= UNIT ==> a * b <= UNIT * UNIT && (-a) * b <= UNIT * UNIT)
            by (nonlinear_arith)
            requires
                -UNIT <= a <= UNIT,
                0 <= b,
        ;
    }
    if a >= 0 {
        let p: i64 = a * b;
        p / UNIT
    } else {
        let p: i64 = (-a) * b;
        -(p / UNIT)
    }
}

} // verus!
