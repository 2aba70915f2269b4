use synth_core::{Scope, ScopeBuffer, TriggerMode, DISPLAY_WIDTH, RAW_HISTORY_FACTOR};

/// A buffer sitting below the arming threshold up to `k`, and above
/// the firing threshold from `k` on: one clean rising crossing at `k`.
fn rising_step(len: usize, k: usize) -> Vec<i64> {
    (0..len).map(|i| if i < k { -50_000 } else { 50_000 }).collect()
}

#[test]
fn clean_rising_crossing_triggers_exactly_there() {
    let mut scope = Scope::new();
    let k = 200;
    assert!(scope.ingest_buffer(&ScopeBuffer::new(rising_step(400, k))));
    assert_eq!(scope.find_trigger_point(), k);
}

#[test]
fn falling_mode_mirrors_the_rising_one() {
    let mut scope = Scope::new();
    scope.trigger_mode = TriggerMode::FallingEdge;
    let k = 150;
    let falling: Vec<i64> = (0..400).map(|i| if i < k { 50_000 } else { -50_000 }).collect();
    assert!(scope.ingest_buffer(&ScopeBuffer::new(falling)));
    assert_eq!(scope.find_trigger_point(), k);
}

#[test]
fn no_crossing_falls_back_to_the_midpoint() {
    let mut scope = Scope::new();
    // Samples that never leave the hysteresis band arm nothing, so the
    // trigger falls back to the midpoint of the available data.
    let flat: Vec<i64> = vec![5_000; 400];
    assert!(scope.ingest_buffer(&ScopeBuffer::new(flat)));
    assert_eq!(scope.find_trigger_point(), 200);
}

#[test]
fn sub_threshold_wiggle_does_not_retrigger() {
    let mut scope = Scope::new();
    // Crosses zero many times inside the hysteresis band, then arms
    // and fires once at 300.
    let wiggle: Vec<i64> =
        (0..400).map(|i| if i < 280 { if i % 2 == 0 { 10_000 } else { -10_000 } } else if i < 300 { -50_000 } else { 50_000 }).collect();
    assert!(scope.ingest_buffer(&ScopeBuffer::new(wiggle)));
    assert_eq!(scope.find_trigger_point(), 300);
}

#[test]
fn span_equal_to_width_is_copied_sample_for_sample() {
    let mut scope = Scope::new();
    let k = 200;
    let data: Vec<i64> = (0..400).map(|i| if i < k { -50_000 - i as i64 } else { 50_000 + i as i64 }).collect();
    assert!(scope.ingest_buffer(&ScopeBuffer::new(data.clone())));
    // Trigger at 200, half a display each side: span == width, so the
    // display is the window copied unchanged.
    let half = DISPLAY_WIDTH / 2;
    for i in 0..DISPLAY_WIDTH {
        assert_eq!(scope.display_points[i], data[k - half + i], "slot {}", i);
    }
}

#[test]
fn short_history_is_centered_between_zero_padding() {
    let mut scope = Scope::new();
    let data: Vec<i64> = (0..100).map(|i| (i as i64) * 1_000 - 50_000).collect();
    assert!(scope.ingest_buffer(&ScopeBuffer::new(data.clone())));
    let offset = (DISPLAY_WIDTH - 100) / 2;
    for i in 0..DISPLAY_WIDTH {
        if i < offset || i >= offset + 100 {
            assert_eq!(scope.display_points[i], 0, "padding slot {}", i);
        } else {
            assert_eq!(scope.display_points[i], data[i - offset], "centered slot {}", i);
        }
    }
}

#[test]
fn long_history_is_decimated_by_nearest_sample() {
    let mut scope = Scope::new();
    let cap = RAW_HISTORY_FACTOR * DISPLAY_WIDTH;
    // Flat data (no crossing) filling the whole history.
    let data: Vec<i64> = (0..cap).map(|i| (i % 7) as i64).collect();
    assert!(scope.ingest_buffer(&ScopeBuffer::new(data.clone())));
    let t = scope.find_trigger_point();
    assert_eq!(t, cap / 2);
    let half = DISPLAY_WIDTH / 2;
    let start = t - half;
    let end = (t + half).min(cap);
    let span = end - start;
    assert!(span >= DISPLAY_WIDTH);
    for i in 0..DISPLAY_WIDTH {
        let src = start + i * span / DISPLAY_WIDTH;
        assert_eq!(scope.display_points[i], data[src], "slot {}", i);
    }
}

#[test]
fn raw_history_is_capped_with_oldest_dropped_first() {
    let mut scope = Scope::new();
    let cap = RAW_HISTORY_FACTOR * DISPLAY_WIDTH;
    let data: Vec<i64> = (0..1000).map(|i| i as i64).collect();
    assert!(scope.ingest_buffer(&ScopeBuffer::new(data.clone())));
    assert_eq!(scope.raw_buffer.len(), cap);
    assert_eq!(scope.raw_buffer[0], (1000 - cap) as i64);
    assert_eq!(scope.raw_buffer[cap - 1], 999);
}

#[test]
fn generation_counts_ingests_and_empty_buffers_change_nothing() {
    let mut scope = Scope::new();
    assert_eq!(scope.generation, 0);
    assert!(scope.ingest_buffer(&ScopeBuffer::new(vec![1; 300])));
    assert_eq!(scope.generation, 1);
    assert!(scope.push_buffer(&ScopeBuffer::new(vec![2; 300])));
    assert_eq!(scope.generation, 2);
    let before_raw = scope.raw_buffer.clone();
    let before_display = scope.display_points.clone();
    assert!(!scope.ingest_buffer(&ScopeBuffer::new(Vec::new())));
    assert_eq!(scope.generation, 2);
    assert_eq!(scope.raw_buffer, before_raw);
    assert_eq!(scope.display_points, before_display);
}

#[test]
fn fresh_scope_displays_silence() {
    let scope = Scope::new();
    assert_eq!(scope.display_points.len(), DISPLAY_WIDTH);
    assert!(scope.display_points.iter().all(|&s| s == 0));
    assert_eq!(scope.raw_buffer.len(), 0);
    assert_eq!(scope.generation, 0);
}

#[test]
fn threshold_can_be_tightened_at_construction() {
    let mut scope = Scope::new().with_trigger_threshold(60_000);
    // A crossing that clears 0.02 but not 0.06 of full scale no longer
    // triggers, so the fallback midpoint is used.
    assert!(scope.ingest_buffer(&ScopeBuffer::new(rising_step(400, 200))));
    assert_eq!(scope.find_trigger_point(), 200);
}

#[test]
fn negative_threshold_is_clamped_not_refused() {
    let scope = Scope::new().with_trigger_threshold(-123);
    assert_eq!(scope.trigger_threshold, 0);
    let kept = Scope::new().with_trigger_threshold(77);
    assert_eq!(kept.trigger_threshold, 77);
}

#[test]
fn sampled_saw_triggers_mid_ramp_never_at_the_wrap() {
    let mut scope = Scope::new();
    // A saw at 440 Hz sampled at 48 kHz: the ramp rises by two
    // increments per sample and wraps about every 109 samples.
    let incr: i64 = 440_000_000 / 48_000;
    let mut phase: i64 = 0;
    let mut data: Vec<i64> = Vec::new();
    for _ in 0..600 {
        data.push(synth_core::Waveform::Saw.sample(phase));
        phase += incr;
        if phase >= synth_core::UNIT {
            phase -= synth_core::UNIT;
        }
    }
    assert!(scope.ingest_buffer(&ScopeBuffer::new(data.clone())));
    let t = scope.find_trigger_point();
    // The fired sample clears the threshold on the rising ramp ...
    assert!(data[t] > synth_core::DEFAULT_TRIGGER_THRESHOLD);
    // ... mid-ramp: the wrap's downward jump never fires, so the
    // previous sample sits on the same ramp, exactly one step below.
    assert_eq!(data[t] - data[t - 1], 2 * incr);
}
