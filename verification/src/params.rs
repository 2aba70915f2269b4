//! The parameter store: the synthesis parameters a UI writes and the
//! audio callback reads once per processing block.
//!
//! Each field is read and written independently; no cross-field
//! consistency is promised, because the engine re-reads every parameter
//! at each block.  The store validates nothing: out-of-range values are
//! accepted and clamped later, when a block snapshot is taken.
//!
//! Continuous values are fixed point at scale [`crate::fixed::UNIT`]:
//! frequencies and rates in micro-hertz, the master volume in
//! micro-decibels, the drift speed in micro-hertz per sample.

use vstd::prelude::*;

verus! {

use crate::wave::{Waveform, spec_waveform_from_index};

/// Default upper bound of the drifting low-frequency-oscillator rate:
/// 8 Hz in fixed point.
pub const DEFAULT_LFO_RANGE: i64 = 8_000_000;

/// Default per-sample drift increment of the low-frequency-oscillator
/// rate: 0.0001 Hz in fixed point.
pub const DEFAULT_LFO_SPEED: i64 = 100;

/// The shared synthesis parameters.
pub struct SharedParams {
    /// First oscillator frequency, micro-hertz.
    pub freq1: i64,
    /// Second oscillator frequency, micro-hertz.
    pub freq2: i64,
    /// Master volume, micro-decibels.
    pub volume_db: i64,
    /// Whether the low-frequency oscillator modulates the output.
    pub lfo_enabled: bool,
    /// Whether the output is muted, independently of the volume.
    pub mute: bool,
    /// Raw oscillator shape index; decoded by [`SharedParams::waveform`].
    pub waveform: u32,
    /// Upper bound the low-frequency-oscillator rate drifts to,
    /// micro-hertz.
    pub lfo_range: i64,
    /// Per-sample increment applied to the drifting rate, micro-hertz
    /// per sample.
    pub lfo_speed: i64,
}

impl SharedParams {
    /// A fresh store with the given oscillator frequencies, volume and
    /// modulation gate; the remaining fields take their defaults.
    pub fn new(freq1: i64, freq2: i64, volume_db: i64, lfo_enabled: bool) -> (p: SharedParams)
        ensures
            p == (SharedParams {
                freq1,
                freq2,
                volume_db,
                lfo_enabled,
                mute: false,
                waveform: 0u32,
                lfo_range: DEFAULT_LFO_RANGE,
                lfo_speed: DEFAULT_LFO_SPEED,
            }),
    {
        SharedParams {
            freq1,
            freq2,
            volume_db,
            lfo_enabled,
            mute: false,
            waveform: 0,
            lfo_range: DEFAULT_LFO_RANGE,
            lfo_speed: DEFAULT_LFO_SPEED,
        }
    }

    /// Read the first oscillator frequency.
    pub fn freq1(&self) -> (v: i64)
        ensures
            v == self.freq1,
    {
        self.freq1
    }

    /// Write the first oscillator frequency.
    pub fn set_freq1(&mut self, v: i64)
        ensures
            *final(self) == (SharedParams { freq1: v, ..*old(self) }),
    {
        self.freq1 = v;
    }

    /// Read the second oscillator frequency.
    pub fn freq2(&self) -> (v: i64)
        ensures
            v == self.freq2,
    {
        self.freq2
    }

    /// Write the second oscillator frequency.
    pub fn set_freq2(&mut self, v: i64)
        ensures
            *final(self) == (SharedParams { freq2: v, ..*old(self) }),
    {
        self.freq2 = v;
    }

    /// Read the master volume in micro-decibels.
    pub fn volume_db(&self) -> (v: i64)
        ensures
            v == self.volume_db,
    {
        self.volume_db
    }

    /// Write the master volume in micro-decibels.
    pub fn set_volume_db(&mut self, v: i64)
        ensures
            *final(self) == (SharedParams { volume_db: v, ..*old(self) }),
    {
        self.volume_db = v;
    }

    /// Whether low-frequency modulation is enabled.
    pub fn lfo_enabled(&self) -> (v: bool)
        ensures
            v == self.lfo_enabled,
    {
        self.lfo_enabled
    }

    /// Gate the low-frequency modulation on or off.
    pub fn set_lfo_enabled(&mut self, v: bool)
        ensures
            *final(self) == (SharedParams { lfo_enabled: v, ..*old(self) }),
    {
        self.lfo_enabled = v;
    }

    /// Whether the output is muted.
    pub fn muted(&self) -> (v: bool)
        ensures
            v == self.mute,
    {
        self.mute
    }

    /// Mute or unmute the output.
    pub fn set_mute(&mut self, v: bool)
        ensures
            *final(self) == (SharedParams { mute: v, ..*old(self) }),
    {
        self.mute = v;
    }

    /// The oscillator shape the raw index currently selects.
    pub fn waveform(&self) -> (w: Waveform)
        ensures
            w == spec_waveform_from_index(self.waveform),
    {
        Waveform::from_index(self.waveform)
    }

    /// Write the raw oscillator shape index.
    pub fn set_waveform(&mut self, idx: u32)
        ensures
            *final(self) == (SharedParams { waveform: idx, ..*old(self) }),
    {
        self.waveform = idx;
    }

    /// Read the drift range bound in micro-hertz.
    pub fn lfo_range(&self) -> (v: i64)
        ensures
            v == self.lfo_range,
    {
        self.lfo_range
    }

    /// Write the drift range bound in micro-hertz.
    pub fn set_lfo_range(&mut self, v: i64)
        ensures
            *final(self) == (SharedParams { lfo_range: v, ..*old(self) }),
    {
        self.lfo_range = v;
    }

    /// Read the per-sample drift increment.
    pub fn lfo_speed(&self) -> (v: i64)
        ensures
            v == self.lfo_speed,
    {
        self.lfo_speed
    }

    /// Write the per-sample drift increment.
    pub fn set_lfo_speed(&mut self, v: i64)
        ensures
            *final(self) == (SharedParams { lfo_speed: v, ..*old(self) }),
    {
        self.lfo_speed = v;
    }
}

} // verus!
