use synth_core::{SharedParams, Waveform, DEFAULT_LFO_RANGE, DEFAULT_LFO_SPEED};

#[test]
fn new_store_takes_the_documented_defaults() {
    let p = SharedParams::new(440_000_000, 220_000_000, -12_000_000, true);
    assert_eq!(p.freq1(), 440_000_000);
    assert_eq!(p.freq2(), 220_000_000);
    assert_eq!(p.volume_db(), -12_000_000);
    assert!(p.lfo_enabled());
    assert!(!p.muted());
    assert_eq!(p.waveform(), Waveform::Sine);
    assert_eq!(p.lfo_range(), DEFAULT_LFO_RANGE);
    assert_eq!(p.lfo_speed(), DEFAULT_LFO_SPEED);
}

#[test]
fn every_field_is_written_and_read_independently() {
    let mut p = SharedParams::new(0, 0, 0, false);
    p.set_freq1(1);
    p.set_freq2(2);
    p.set_volume_db(-3);
    p.set_lfo_enabled(true);
    p.set_mute(true);
    p.set_waveform(2);
    p.set_lfo_range(4);
    p.set_lfo_speed(5);
    assert_eq!(p.freq1(), 1);
    assert_eq!(p.freq2(), 2);
    assert_eq!(p.volume_db(), -3);
    assert!(p.lfo_enabled());
    assert!(p.muted());
    assert_eq!(p.waveform(), Waveform::Triangle);
    assert_eq!(p.lfo_range(), 4);
    assert_eq!(p.lfo_speed(), 5);
    // Writing one field leaves the others alone.
    p.set_mute(false);
    assert!(!p.muted());
    assert_eq!(p.freq1(), 1);
    assert!(p.lfo_enabled());
    assert_eq!(p.waveform(), Waveform::Triangle);
}

#[test]
fn store_accepts_out_of_range_values_unvalidated() {
    let mut p = SharedParams::new(0, 0, 0, false);
    p.set_freq1(-1_000_000);
    p.set_lfo_range(i64::MIN);
    p.set_lfo_speed(i64::MAX);
    assert_eq!(p.freq1(), -1_000_000);
    assert_eq!(p.lfo_range(), i64::MIN);
    assert_eq!(p.lfo_speed(), i64::MAX);
}
