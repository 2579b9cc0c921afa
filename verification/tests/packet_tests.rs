use spatial_control::packet::{millionths_of_bits, RawMotionSample, FIELD_LIMIT};

fn packet(fields: [f64; 6]) -> Vec<u8> {
    let mut bytes = Vec::new();
    for field in fields.iter() {
        bytes.extend_from_slice(&field.to_le_bytes());
    }
    bytes
}

fn read(value: f64) -> i64 {
    millionths_of_bits(value.to_bits())
}

#[test]
fn packet_of_six_doubles_is_read() {
    let bytes = packet([1.0, -2.5, 3.25, 90.0, -45.5, 0.125]);
    assert_eq!(bytes.len(), 48);
    assert_eq!(
        RawMotionSample::parse(&bytes),
        Some(RawMotionSample {
            x: 1_000_000,
            y: -2_500_000,
            z: 3_250_000,
            yaw: 90_000_000,
            pitch: -45_500_000,
            roll: 125_000,
        })
    );
}

#[test]
fn packet_of_another_length_is_dropped() {
    let bytes = packet([1.0, 2.0, 3.0, 4.0, 5.0, 6.0]);
    assert_eq!(RawMotionSample::parse(&bytes[..47]), None);
    assert_eq!(RawMotionSample::parse(&bytes[..40]), None);
    assert_eq!(RawMotionSample::parse(&[]), None);
    let mut longer = bytes.clone();
    longer.push(0);
    assert_eq!(RawMotionSample::parse(&longer), None);
    longer.extend_from_slice(&[0u8; 47]);
    assert_eq!(longer.len(), 96);
    assert_eq!(RawMotionSample::parse(&longer), None);
}

#[test]
fn bytes_are_read_least_significant_first() {
    // 1.0 is 0x3ff0_0000_0000_0000
    let mut bytes = vec![0u8; 48];
    bytes[24 + 6] = 0xf0;
    bytes[24 + 7] = 0x3f;
    let sample = RawMotionSample::parse(&bytes).unwrap();
    assert_eq!(sample.yaw, 1_000_000);
    assert_eq!(sample.x, 0);
    assert_eq!(sample.pitch, 0);
}

#[test]
fn doubles_are_rounded_to_the_nearest_millionth() {
    assert_eq!(read(0.0), 0);
    assert_eq!(read(-0.0), 0);
    assert_eq!(read(0.1), 100_000);
    assert_eq!(read(0.3), 300_000);
    assert_eq!(read(-0.3), -300_000);
    assert_eq!(read(1e-6), 1);
    assert_eq!(read(4e-7), 0);
    assert_eq!(read(6e-7), 1);
    assert_eq!(read(-6e-7), -1);
    assert_eq!(read(179.9999994), 179_999_999);
    assert_eq!(read(179.9999996), 180_000_000);
    assert_eq!(read(123_456.789_012), 123_456_789_012);
}

#[test]
fn halves_are_rounded_away_from_zero() {
    // 2^-7 is 0.0078125, which is 7812.5 millionths
    assert_eq!(read(0.0078125), 7_813);
    assert_eq!(read(-0.0078125), -7_813);
    // 3 * 2^-7 is 23437.5 millionths
    assert_eq!(read(0.0234375), 23_438);
    assert_eq!(read(-0.0234375), -23_438);
    // 2^-8 is 3906.25 millionths
    assert_eq!(read(0.00390625), 3_906);
    // the double nearest to half a millionth lies just below it
    assert_eq!(read(0.000_000_5), 0);
    assert_eq!(read(-0.000_000_5), 0);
    // 2^-21 is 0.476837158203125 millionths
    assert_eq!(read(0.5f64.powi(21)), 0);
    // 1.5 * 2^-20 is 1.430511474609375 millionths
    assert_eq!(read(1.5 * 0.5f64.powi(20)), 1);
}

#[test]
fn doubles_agree_with_floating_point_rounding() {
    let mut value = -400.0f64;
    while value < 400.0 {
        let expected = (value * 1e6).round() as i64;
        let got = read(value);
        assert!((got - expected).abs() <= 1, "value {}", value);
        value += 0.377_123_456_789;
    }
}

#[test]
fn tiny_doubles_read_as_zero() {
    assert_eq!(read(f64::MIN_POSITIVE), 0);
    assert_eq!(read(-f64::MIN_POSITIVE), 0);
    assert_eq!(read(f64::from_bits(1)), 0);
    assert_eq!(read(f64::from_bits(0x000f_ffff_ffff_ffff)), 0);
    assert_eq!(read(1e-300), 0);
}

#[test]
fn huge_doubles_are_held_at_the_limit() {
    assert_eq!(FIELD_LIMIT, i64::MAX);
    assert_eq!(read(f64::MAX), FIELD_LIMIT);
    assert_eq!(read(f64::MIN), -FIELD_LIMIT);
    assert_eq!(read(1e300), FIELD_LIMIT);
    assert_eq!(read(1e13), FIELD_LIMIT);
    assert_eq!(read(-1e13), -FIELD_LIMIT);
    assert_eq!(read(9.3e12), FIELD_LIMIT);
    assert_eq!(read(9.2e12), 9_200_000_000_000_000_000);
    assert_eq!(read(-9.2e12), -9_200_000_000_000_000_000);
    assert_eq!(read(4_503_599_627_370_496.0), FIELD_LIMIT);
}

#[test]
fn infinities_are_held_at_the_limit() {
    assert_eq!(read(f64::INFINITY), FIELD_LIMIT);
    assert_eq!(read(f64::NEG_INFINITY), -FIELD_LIMIT);
}

#[test]
fn not_a_number_reads_as_zero() {
    assert_eq!(read(f64::NAN), 0);
    assert_eq!(read(-f64::NAN), 0);
    assert_eq!(millionths_of_bits(0x7ff0_0000_0000_0001), 0);
    assert_eq!(millionths_of_bits(0xffff_ffff_ffff_ffff), 0);
}
