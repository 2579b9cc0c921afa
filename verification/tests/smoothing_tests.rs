use spatial_control::smoothing::{blend_step, SmoothedState, SETTLING_TICKS};

#[test]
fn new_state_is_level() {
    let state = SmoothedState::new();
    assert_eq!(state, SmoothedState { yaw: 0, pitch: 0, roll: 0 });
}

#[test]
fn blend_keeps_sixty_five_percent_of_the_distance() {
    // 0.65 * 0 + 0.35 * 10 degrees
    assert_eq!(blend_step(0, 10_000_000), 3_500_000);
    // 0.65 * 10 + 0.35 * 0 degrees
    assert_eq!(blend_step(10_000_000, 0), 6_500_000);
    assert_eq!(blend_step(-10_000_000, 0), -6_500_000);
    assert_eq!(blend_step(0, -10_000_000), -3_500_000);
}

#[test]
fn blend_rounds_toward_the_raw_value() {
    // 0.65 of a distance of 1 is less than 1: the raw value is reached
    assert_eq!(blend_step(1, 0), 0);
    assert_eq!(blend_step(-1, 0), 0);
    assert_eq!(blend_step(9, 10), 10);
    assert_eq!(blend_step(11, 10), 10);
    // 0.65 * 3 = 1.95, kept as 1
    assert_eq!(blend_step(3, 0), 1);
    assert_eq!(blend_step(-3, 0), -1);
    assert_eq!(blend_step(0, 3), 2);
}

#[test]
fn blend_of_equal_values_is_that_value() {
    for v in [0i64, 1, -1, 123_456_789, i64::MAX, i64::MIN] {
        assert_eq!(blend_step(v, v), v);
    }
}

#[test]
fn blend_survives_the_extremes() {
    let up = blend_step(i64::MIN, i64::MAX);
    assert!(i64::MIN < up && up <= i64::MAX);
    let down = blend_step(i64::MAX, i64::MIN);
    assert!(i64::MIN <= down && down < i64::MAX);
    // the distance is 2^64 - 1, of which 65 hundredths are kept
    let kept = (65u128 * u64::MAX as u128 / 100) as i128;
    assert_eq!(up as i128, i64::MAX as i128 - kept);
    assert_eq!(down as i128, i64::MIN as i128 + kept);
}

#[test]
fn update_lands_between_estimate_and_raw() {
    let raws: [i64; 7] = [0, 1, -1, 90_000_000, -179_999_999, 45_500_000, 3];
    let mut state = SmoothedState::new();
    for &raw in raws.iter() {
        let before = state;
        state.update(raw, -raw, raw / 2);
        assert!(before.yaw.min(raw) <= state.yaw && state.yaw <= before.yaw.max(raw));
        assert!(before.pitch.min(-raw) <= state.pitch && state.pitch <= before.pitch.max(-raw));
        assert!(before.roll.min(raw / 2) <= state.roll && state.roll <= before.roll.max(raw / 2));
    }
}

#[test]
fn update_filters_each_axis_on_its_own() {
    let mut state = SmoothedState { yaw: 10_000_000, pitch: -20_000_000, roll: 0 };
    state.update(20_000_000, -20_000_000, 1_000_000);
    assert_eq!(state, SmoothedState { yaw: 13_500_000, pitch: -20_000_000, roll: 350_000 });
}

#[test]
fn update_follows_the_weighted_mean() {
    let mut state = SmoothedState::new();
    let mut exact = 0.0f64;
    for step in 0..50 {
        let raw_degrees = ((step * 37) % 91) as f64 - 45.0;
        exact = 0.65 * exact + 0.35 * raw_degrees;
        state.update((raw_degrees * 1e6) as i64, 0, 0);
        assert!((state.yaw as f64 / 1e6 - exact).abs() < 1e-5);
    }
}

#[test]
fn steady_input_is_reached_within_the_settling_ticks() {
    for (start, raw) in [
        (i64::MIN, i64::MAX),
        (i64::MAX, i64::MIN),
        (0, 180_000_000),
        (-45_000_000, 45_000_000),
        (7, 7),
    ] {
        let mut state = SmoothedState { yaw: start, pitch: start, roll: start };
        for _ in 0..SETTLING_TICKS {
            state.update(raw, raw, raw);
        }
        assert_eq!(state, SmoothedState { yaw: raw, pitch: raw, roll: raw });
        state.update(raw, raw, raw);
        assert_eq!(state, SmoothedState { yaw: raw, pitch: raw, roll: raw });
    }
}

#[test]
fn the_widest_distance_needs_every_settling_tick() {
    let mut estimate = i64::MIN;
    for _ in 0..SETTLING_TICKS - 1 {
        estimate = blend_step(estimate, i64::MAX);
    }
    assert_ne!(estimate, i64::MAX);
    assert_eq!(blend_step(estimate, i64::MAX), i64::MAX);
}

#[test]
fn a_spike_is_taken_in_part() {
    let mut state = SmoothedState::new();
    state.update(100_000_000, 0, 0);
    assert_eq!(state.yaw, 35_000_000);
    state.update(0, 0, 0);
    assert_eq!(state.yaw, 22_750_000);
}
