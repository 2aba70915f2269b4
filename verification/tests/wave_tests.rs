use synth_core::{Waveform, UNIT, PULSE_FALL};

#[test]
fn every_shape_stays_in_band() {
    let shapes = [Waveform::Sine, Waveform::Saw, Waveform::Triangle, Waveform::Pulse];
    let mut phase: i64 = 0;
    while phase < UNIT {
        for shape in shapes {
            let s = shape.sample(phase);
            assert!(-UNIT <= s && s <= UNIT, "{:?} out of band at phase {}", shape, phase);
        }
        phase += 997;
    }
    for shape in shapes {
        let s = shape.sample(UNIT - 1);
        assert!(-UNIT <= s && s <= UNIT);
    }
}

#[test]
fn sine_zero_and_quarter_cycle_are_exact() {
    assert_eq!(Waveform::Sine.sample(0), 0);
    assert_eq!(Waveform::Sine.sample(UNIT / 4), UNIT);
}

#[test]
fn sine_three_quarter_cycle_is_full_negative() {
    assert_eq!(Waveform::Sine.sample(3 * UNIT / 4), -UNIT);
}

#[test]
fn saw_starts_at_minus_one_and_wraps_back() {
    assert_eq!(Waveform::Saw.sample(0), -UNIT);
    // Just before the wrap the ramp is almost at +1 ...
    assert_eq!(Waveform::Saw.sample(UNIT - 1), UNIT - 2);
    // ... and one more step wraps the phase to 0, back at -1.
    assert_eq!(synth_core::wrap_phase(UNIT - 1, 1), 0);
    assert_eq!(Waveform::Saw.sample(0), -UNIT);
}

#[test]
fn saw_is_the_exact_linear_ramp() {
    for phase in [0, 1, 250_000, 500_000, 999_999] {
        assert_eq!(Waveform::Saw.sample(phase), 2 * phase - UNIT);
    }
}

#[test]
fn triangle_hits_its_corners() {
    assert_eq!(Waveform::Triangle.sample(0), -UNIT);
    assert_eq!(Waveform::Triangle.sample(UNIT / 4), 0);
    assert_eq!(Waveform::Triangle.sample(UNIT / 2), UNIT);
    assert_eq!(Waveform::Triangle.sample(3 * UNIT / 4), 0);
}

#[test]
fn pulse_falls_at_its_duty_cycle_edge() {
    assert_eq!(Waveform::Pulse.sample(0), UNIT);
    assert_eq!(Waveform::Pulse.sample(PULSE_FALL - 1), UNIT);
    assert_eq!(Waveform::Pulse.sample(PULSE_FALL), -UNIT);
    assert_eq!(Waveform::Pulse.sample(UNIT - 1), -UNIT);
}

#[test]
fn waveform_index_decodes_with_sine_fallback() {
    assert_eq!(Waveform::from_index(0), Waveform::Sine);
    assert_eq!(Waveform::from_index(1), Waveform::Saw);
    assert_eq!(Waveform::from_index(2), Waveform::Triangle);
    assert_eq!(Waveform::from_index(3), Waveform::Pulse);
    assert_eq!(Waveform::from_index(4), Waveform::Sine);
    assert_eq!(Waveform::from_index(u32::MAX), Waveform::Sine);
}
