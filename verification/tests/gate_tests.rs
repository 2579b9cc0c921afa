use spatial_control::gate::{DispatchMemory, Dispatched};

fn sent(yaw: i64, pitch: i64, radius: u64) -> DispatchMemory {
    DispatchMemory { last: Some(Dispatched { yaw, pitch, radius }) }
}

#[test]
fn first_state_is_always_sent() {
    let mut memory = DispatchMemory::new();
    assert_eq!(memory.last, None);
    assert!(memory.should_dispatch(0, 0, 1_500_000, false));
    assert!(memory.evaluate(0, 0, 1_500_000, false));
    assert_eq!(memory.last, Some(Dispatched { yaw: 0, pitch: 0, radius: 1_500_000 }));
}

#[test]
fn repeated_state_is_sent_once() {
    let mut memory = DispatchMemory::new();
    assert!(memory.evaluate(12_000_000, -3_000_000, 2_000_000, false));
    for _ in 0..100 {
        assert!(!memory.evaluate(12_000_000, -3_000_000, 2_000_000, false));
        assert_eq!(
            memory.last,
            Some(Dispatched { yaw: 12_000_000, pitch: -3_000_000, radius: 2_000_000 })
        );
    }
}

#[test]
fn yaw_change_of_just_the_threshold_is_not_sent() {
    let memory = sent(10_000_000, 0, 1_500_000);
    assert!(!memory.should_dispatch(10_500_000, 0, 1_500_000, false));
    assert!(!memory.should_dispatch(9_500_000, 0, 1_500_000, false));
}

#[test]
fn yaw_change_beyond_the_threshold_is_sent() {
    let memory = sent(10_000_000, 0, 1_500_000);
    assert!(memory.should_dispatch(10_500_001, 0, 1_500_000, false));
    assert!(memory.should_dispatch(9_499_999, 0, 1_500_000, false));
}

#[test]
fn pitch_change_is_gated_like_yaw() {
    let memory = sent(0, -20_000_000, 1_500_000);
    assert!(!memory.should_dispatch(0, -20_500_000, 1_500_000, false));
    assert!(!memory.should_dispatch(0, -19_500_000, 1_500_000, false));
    assert!(memory.should_dispatch(0, -20_500_001, 1_500_000, false));
    assert!(memory.should_dispatch(0, -19_499_999, 1_500_000, false));
}

#[test]
fn radius_change_is_gated_at_a_hundredth() {
    let memory = sent(0, 0, 1_500_000);
    assert!(!memory.should_dispatch(0, 0, 1_510_000, false));
    assert!(!memory.should_dispatch(0, 0, 1_490_000, false));
    assert!(memory.should_dispatch(0, 0, 1_510_001, false));
    assert!(memory.should_dispatch(0, 0, 1_489_999, false));
    assert!(memory.should_dispatch(0, 0, 1_600_000, false));
}

#[test]
fn forced_is_always_sent() {
    let mut memory = sent(1, 2, 3);
    assert!(memory.should_dispatch(1, 2, 3, true));
    assert!(memory.evaluate(1, 2, 3, true));
    assert!(memory.evaluate(1, 2, 3, true));
    assert!(!memory.evaluate(1, 2, 3, false));
}

#[test]
fn negative_decision_leaves_the_memory() {
    let mut memory = sent(10_000_000, 0, 1_500_000);
    assert!(!memory.evaluate(10_400_000, 100_000, 1_505_000, false));
    assert_eq!(memory, sent(10_000_000, 0, 1_500_000));
    // small steps add up against what was sent, not against the last sample
    assert!(memory.evaluate(10_600_000, 100_000, 1_505_000, false));
    assert_eq!(memory, sent(10_600_000, 100_000, 1_505_000));
}

#[test]
fn gate_survives_the_extremes() {
    let memory = sent(i64::MIN, i64::MAX, u64::MAX);
    assert!(memory.should_dispatch(i64::MAX, i64::MAX, u64::MAX, false));
    assert!(memory.should_dispatch(i64::MIN, i64::MIN, u64::MAX, false));
    assert!(memory.should_dispatch(i64::MIN, i64::MAX, 0, false));
    assert!(!memory.should_dispatch(i64::MIN, i64::MAX, u64::MAX, false));
}
