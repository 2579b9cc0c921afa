use spatial_control::geometry::{distance_gain, isqrt, reverb_gain, SpatialState};
use spatial_control::mode::SpeakerMode;
use spatial_control::units::{
    MAX_GAIN, MAX_RADIUS, MAX_REVERB, MIN_GAIN, MIN_RADIUS, MIN_REVERB,
};

#[test]
fn mode_labels() {
    assert_eq!(SpeakerMode::Front.label(), "FRONT");
    assert_eq!(SpeakerMode::Back.label(), "BACK");
}

#[test]
fn mode_base_angles() {
    assert_eq!(SpeakerMode::Front.base_angles(), (135, -135));
    assert_eq!(SpeakerMode::Back.base_angles(), (45, -45));
}

#[test]
fn gain_at_one_metre_is_one() {
    assert_eq!(distance_gain(1_000_000), 1_000_000);
}

#[test]
fn gain_at_five_metres_is_a_fifth() {
    assert_eq!(distance_gain(5_000_000), 200_000);
}

#[test]
fn gain_close_up_is_held_at_two() {
    assert_eq!(distance_gain(50_000), 2_000_000);
    assert_eq!(distance_gain(0), 2_000_000);
    assert_eq!(distance_gain(1), 2_000_000);
    assert_eq!(distance_gain(500_000), 2_000_000);
    assert_eq!(distance_gain(500_001), 1_999_996);
}

#[test]
fn gain_far_off_is_held_at_a_tenth() {
    assert_eq!(distance_gain(20_000_000), 100_000);
    assert_eq!(distance_gain(10_000_000), 100_000);
    assert_eq!(distance_gain(9_999_999), 100_000);
    assert_eq!(distance_gain(u64::MAX), 100_000);
}

#[test]
fn gain_rounds_the_reciprocal_down() {
    assert_eq!(distance_gain(3_000_000), 333_333);
    assert_eq!(distance_gain(1_500_000), 666_666);
    assert_eq!(distance_gain(2_000_000), 500_000);
}

#[test]
fn gain_follows_the_clamped_reciprocal() {
    let mut radius: u64 = 10_000;
    while radius < 30_000_000 {
        let exact = (1.0f64 / (radius as f64 / 1e6)).clamp(0.1, 2.0);
        let gain = distance_gain(radius);
        assert!(MIN_GAIN <= gain && gain <= MAX_GAIN);
        assert!((gain as f64 / 1e6 - exact).abs() < 1.5e-6, "radius {}", radius);
        radius += 12_345;
    }
}

#[test]
fn isqrt_of_squares_and_their_neighbours() {
    assert_eq!(isqrt(0), 0);
    assert_eq!(isqrt(1), 1);
    assert_eq!(isqrt(2), 1);
    assert_eq!(isqrt(3), 1);
    assert_eq!(isqrt(4), 2);
    assert_eq!(isqrt(99), 9);
    assert_eq!(isqrt(100), 10);
    assert_eq!(isqrt(302_500_000_000), 550_000);
    assert_eq!(isqrt(302_499_999_999), 549_999);
    assert_eq!(isqrt(u64::MAX), 0xffff_ffff);
    assert_eq!(isqrt(0xffff_ffff * 0xffff_ffff), 0xffff_ffff);
    assert_eq!(isqrt(0xffff_ffff * 0xffff_ffff - 1), 0xffff_fffe);
}

#[test]
fn reverb_off_is_zero_at_every_distance() {
    for radius in [0u64, 1, MIN_RADIUS, 1_500_000, MAX_RADIUS, u64::MAX] {
        assert_eq!(reverb_gain(radius, false), 0);
    }
}

#[test]
fn reverb_at_the_shortest_distance() {
    assert_eq!(reverb_gain(MIN_RADIUS, true), MIN_REVERB);
    assert_eq!(reverb_gain(0, true), MIN_REVERB);
    assert_eq!(reverb_gain(99_999, true), MIN_REVERB);
}

#[test]
fn reverb_at_the_longest_distance() {
    assert_eq!(reverb_gain(MAX_RADIUS, true), MAX_REVERB);
    assert_eq!(reverb_gain(MAX_RADIUS + 1, true), MAX_REVERB);
    assert_eq!(reverb_gain(u64::MAX, true), MAX_REVERB);
}

#[test]
fn reverb_a_quarter_of_the_way_is_half_the_span() {
    // reach 2.475 m of 9.9 m is a quarter; its root is a half
    assert_eq!(reverb_gain(2_575_000, true), 325_000);
}

#[test]
fn reverb_follows_the_square_root_curve() {
    let mut radius: u64 = 0;
    let mut last: u64 = 0;
    while radius < 12_000_000 {
        let metres = radius as f64 / 1e6;
        let normalized = ((metres - 0.1) / (10.0 - 0.1)).clamp(0.0, 1.0);
        let exact = 0.05 + normalized.sqrt() * (0.60 - 0.05);
        let wet = reverb_gain(radius, true);
        assert!(MIN_REVERB <= wet && wet <= MAX_REVERB);
        assert!(wet >= last);
        assert!((wet as f64 / 1e6 - exact).abs() < 1.5e-6, "radius {}", radius);
        last = wet;
        radius += 7_777;
    }
}

#[test]
fn reverb_lies_above_the_straight_line() {
    // half way along the range the curve is at about 0.707 of the span
    let middle = MIN_RADIUS + (MAX_RADIUS - MIN_RADIUS) / 2;
    let wet = reverb_gain(middle, true);
    assert_eq!(wet, 50_000 + 388_908);
    assert!(wet > (MIN_REVERB + MAX_REVERB) / 2);
}

#[test]
fn speakers_turn_against_the_head() {
    let state = SpatialState::from_head_tracking(
        10_000_000,
        5_000_000,
        1_500_000,
        SpeakerMode::Front,
        false,
        1_000_000,
    );
    assert_eq!(
        state,
        SpatialState {
            left_az: 125_000_000,
            right_az: -145_000_000,
            elevation: -5_000_000,
            radius: 1_500_000,
            gain: 666_666,
            reverb_gain: 0,
        }
    );
}

#[test]
fn back_mode_and_width_scale_the_base_angles() {
    let state = SpatialState::from_head_tracking(
        -30_000_000,
        -12_500_000,
        1_000_000,
        SpeakerMode::Back,
        true,
        1_500_000,
    );
    assert_eq!(state.left_az, 67_500_000 + 30_000_000);
    assert_eq!(state.right_az, -67_500_000 + 30_000_000);
    assert_eq!(state.elevation, 12_500_000);
    assert_eq!(state.gain, 1_000_000);
    assert_eq!(state.reverb_gain, reverb_gain(1_000_000, true));
    let narrow = SpatialState::from_head_tracking(0, 0, 1_000_000, SpeakerMode::Front, false, 300_000);
    assert_eq!(narrow.left_az, 40_500_000);
    assert_eq!(narrow.right_az, -40_500_000);
}

#[test]
fn geometry_survives_the_extremes() {
    let state = SpatialState::from_head_tracking(
        i64::MIN,
        i64::MIN,
        u64::MAX,
        SpeakerMode::Front,
        true,
        u64::MAX,
    );
    assert_eq!(state.left_az, 135 * (u64::MAX as i128) - i64::MIN as i128);
    assert_eq!(state.right_az, -135 * (u64::MAX as i128) - i64::MIN as i128);
    assert_eq!(state.elevation, -(i64::MIN as i128));
    assert_eq!(state.gain, MIN_GAIN);
    assert_eq!(state.reverb_gain, MAX_REVERB);
}
