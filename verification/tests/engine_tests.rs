use synth_core::{
    drift_lfo_rate, process_block, process_frame, snapshot, take_scope_snapshot, append_samples,
    OscState, SharedParams, Waveform, DRIFT_STEP_CAP, GAIN_CAP, INITIAL_LFO_RATE, RATE_RANGE_CAP,
    SCOPE_SAMPLES, UNIT,
};

#[test]
fn lfo_drift_stays_one_step_inside_the_turnaround_band() {
    let speed: i64 = 100;
    let range: i64 = 8 * UNIT;
    let mut rate: i64 = INITIAL_LFO_RATE;
    let mut rising = true;
    let mut hit_top = false;
    let mut hit_bottom = false;
    for _ in 0..1_000_000 {
        let (r, d) = drift_lfo_rate(rate, rising, speed, range);
        rate = r;
        rising = d;
        assert!(UNIT - speed <= rate && rate <= range + speed, "rate {} left the band", rate);
        assert!(rate > 0);
        if rate > range - speed {
            hit_top = true;
        }
        if rate < UNIT + speed {
            hit_bottom = true;
        }
    }
    // The drift really sweeps the whole band, both turnarounds included.
    assert!(hit_top && hit_bottom);
}

#[test]
fn muted_engine_is_exactly_silent() {
    let mut store = SharedParams::new(440_000_000, 220_000_000, -6_000_000, true);
    store.set_mute(true);
    store.set_waveform(1);
    let bp = snapshot(&store, 48_000, 501_187);
    let mut st = OscState::new();
    // Put the oscillators somewhere arbitrary first.
    st.phase1 = 123_456;
    st.phase2 = 654_321;
    st.lfo_phase = 42_000;
    let out = process_block(&bp, &mut st, 512);
    assert_eq!(out.len(), 512);
    assert!(out.iter().all(|&s| s == 0));
}

#[test]
fn snapshot_clamps_wild_store_values() {
    let mut store = SharedParams::new(-5, 0, 0, false);
    store.set_lfo_speed(i64::MAX);
    store.set_lfo_range(-3);
    let bp = snapshot(&store, 48_000, GAIN_CAP + 12345);
    assert_eq!(bp.incr1, 0); // negative frequency freezes the phase
    assert_eq!(bp.incr2, 0);
    assert_eq!(bp.volume, GAIN_CAP);
    assert_eq!(bp.lfo_speed, DRIFT_STEP_CAP);
    assert_eq!(bp.lfo_range, UNIT);
    assert!(!bp.mute);
}

#[test]
fn snapshot_of_muted_store_zeroes_the_gain() {
    let mut store = SharedParams::new(440_000_000, 440_000_000, 0, false);
    store.set_mute(true);
    let bp = snapshot(&store, 44_100, UNIT);
    assert!(bp.mute);
    assert_eq!(bp.volume, 0);
}

#[test]
fn first_saw_frame_at_unity_gain_is_full_negative() {
    let mut store = SharedParams::new(440_000_000, 440_000_000, 0, false);
    store.set_waveform(1); // saw
    let bp = snapshot(&store, 48_000, UNIT);
    assert_eq!(bp.waveform, Waveform::Saw);
    assert_eq!(bp.incr1, 440_000_000 / 48_000);
    let mut st = OscState::new();
    let out = process_frame(&bp, &mut st);
    // Both oscillators read the saw at phase 0, i.e. -1; the mix stays
    // -1 and unity gain keeps it there.
    assert_eq!(out, -UNIT);
    // Phases advanced by one increment.
    assert_eq!(st.phase1, 440_000_000 / 48_000);
    assert_eq!(st.phase2, 440_000_000 / 48_000);
}

#[test]
fn tremolo_at_lfo_phase_zero_halves_the_output() {
    let mut store = SharedParams::new(0, 0, 0, true);
    store.set_waveform(3); // pulse: +1 at phase 0
    let bp = snapshot(&store, 48_000, UNIT);
    let mut st = OscState::new();
    // At lfo phase 0 the unipolar tremolo factor is exactly one half.
    let out = process_frame(&bp, &mut st);
    assert_eq!(out, UNIT / 2);
}

#[test]
fn volume_scaling_is_applied_and_clamped() {
    let mut store = SharedParams::new(0, 0, 0, false);
    store.set_waveform(3); // pulse: +1 at phase 0
    // Double gain drives the +1 pulse to +2, clamped back to +1.
    let bp = snapshot(&store, 48_000, 2 * UNIT);
    let mut st = OscState::new();
    let out = process_frame(&bp, &mut st);
    assert_eq!(out, UNIT);
    // Half gain halves it.
    let bp_half = snapshot(&store, 48_000, UNIT / 2);
    let mut st2 = OscState::new();
    let out_half = process_frame(&bp_half, &mut st2);
    assert_eq!(out_half, UNIT / 2);
}

#[test]
fn scope_accumulator_hands_out_exactly_one_snapshot() {
    let mut accum: Vec<i64> = Vec::new();
    let block: Vec<i64> = (0..1500).map(|i| i as i64).collect();
    append_samples(&mut accum, &block);
    assert_eq!(take_scope_snapshot(&mut accum), None);
    assert_eq!(accum.len(), 1500);
    append_samples(&mut accum, &block);
    append_samples(&mut accum, &block);
    assert_eq!(accum.len(), 4500);
    let snap = take_scope_snapshot(&mut accum).expect("full accumulator must publish");
    assert_eq!(snap.len(), SCOPE_SAMPLES);
    // The snapshot is the first SCOPE_SAMPLES gathered samples.
    assert_eq!(snap[0], 0);
    assert_eq!(snap[1499], 1499);
    assert_eq!(snap[1500], 0);
    assert_eq!(snap[4095], (4096 - 3001) as i64);
    // The accumulator is cleared whole, as the callback does.
    assert_eq!(accum.len(), 0);
}

#[test]
fn interleaving_duplicates_each_frame_across_channels() {
    let block: Vec<i64> = vec![10, -20, 30];
    let out = synth_core::interleave_channels(&block, 2);
    assert_eq!(out, vec![10, 10, -20, -20, 30, 30]);
    let mono = synth_core::interleave_channels(&block, 1);
    assert_eq!(mono, block);
}
