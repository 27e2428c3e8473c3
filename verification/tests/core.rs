use contatori::contatori::{get_next_slot_id, CounterValue, SlotAssigner, NUM_COMPONENTS};
use contatori::observers::error::{OtelError, PrometheusError};

#[test]
fn core_test_counter_value_is_zero() {
    assert!(CounterValue::Unsigned(0).is_zero());
    assert!(CounterValue::Signed(0).is_zero());
    assert!(!CounterValue::Unsigned(1).is_zero());
    assert!(!CounterValue::Signed(-1).is_zero());
}

#[test]
fn core_test_counter_value_as_u64_clamps() {
    assert_eq!(CounterValue::Unsigned(7).as_u64(), 7);
    assert_eq!(CounterValue::Signed(7).as_u64(), 7);
    assert_eq!(CounterValue::Signed(-7).as_u64(), 0);
}

#[test]
fn core_test_counter_value_as_i64_clamps() {
    assert_eq!(CounterValue::Unsigned(7).as_i64(), 7);
    assert_eq!(CounterValue::Signed(-7).as_i64(), -7);
    assert_eq!(CounterValue::Unsigned(u64::MAX).as_i64(), i64::MAX);
}

#[test]
fn core_test_slot_assignment_is_sequential() {
    let mut assigner = SlotAssigner::new();
    for expected in 0..NUM_COMPONENTS {
        let slot = get_next_slot_id(&mut assigner);
        assert_eq!(slot, expected);
    }
}

#[test]
fn core_test_slot_assignment_wraps() {
    // after NUM_COMPONENTS hand-outs the indices repeat from zero
    let mut assigner = SlotAssigner::new();
    for _ in 0..NUM_COMPONENTS {
        let _ = get_next_slot_id(&mut assigner);
    }
    assert_eq!(get_next_slot_id(&mut assigner), 0);
    assert_eq!(get_next_slot_id(&mut assigner), 1);
}

#[test]
fn core_test_slot_always_in_range() {
    let mut assigner = SlotAssigner::new();
    for _ in 0..1000 {
        let slot = get_next_slot_id(&mut assigner);
        assert!(slot < NUM_COMPONENTS);
    }
}

#[test]
fn core_test_observer_error_messages() {
    let err = PrometheusError::MetricError("bad metric".to_string());
    assert_eq!(err.message(), "metric error: bad metric");
    let err = PrometheusError::EncodeError("bad encoding".to_string());
    assert_eq!(err.message(), "encode error: bad encoding");
    let err = OtelError::MetricError("bad instrument".to_string());
    assert_eq!(err.message(), "metric error: bad instrument");
}
