//! A verified core for a small real-time additive synthesizer and its
//! oscilloscope pipeline.
//!
//! The crate holds the engine's logic in fixed-point arithmetic: the
//! parameter store the UI writes and the audio callback reads, the pure
//! waveform generator, the per-frame synthesis step with its drifting
//! low-frequency oscillator, the snapshot handoff toward a scope
//! display, and the trigger-and-decimation engine that turns raw sample
//! history into a stable centered display buffer.

pub mod channel;
pub mod encoding;
pub mod engine;
pub mod fixed;
pub mod params;
pub mod scope;
pub mod source;
pub mod wave;

pub use channel::{ScopeChannel, clone_samples};
pub use encoding::{SampleEncoding, EngineError, check_encoding, select_device};
pub use engine::{
    BlockParams, OscState, INITIAL_LFO_RATE, SCOPE_SAMPLES, snapshot, phase_increment, wrap_phase,
    drift_lfo_rate, lemma_drift_stays_in_band, process_frame, process_block, append_samples,
    take_scope_snapshot, run_block, interleave_channels,
};
pub use fixed::{UNIT, HALF_UNIT, GAIN_CAP, RATE_RANGE_CAP, DRIFT_STEP_CAP, RATE_HARD_BOUND};
pub use params::{SharedParams, DEFAULT_LFO_RANGE, DEFAULT_LFO_SPEED};
pub use scope::{
    Scope, TriggerMode, DISPLAY_WIDTH, DEFAULT_TRIGGER_THRESHOLD, RAW_HISTORY_FACTOR,
    MAX_DISPLAY_WIDTH,
};
pub use source::{ScopeBuffer, ScopeSource, SourceIdAllocator, snapshot_from_polled};
pub use wave::{Waveform, PULSE_FALL};
