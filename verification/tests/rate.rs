use contatori::contatori::{MetricKind, Observable};
use contatori::counters::rate::Rate;

fn rate_of(sample: (u64, u64)) -> f64 {
    let (delta, elapsed_nanos) = sample;
    if elapsed_nanos == 0 {
        0.0
    } else {
        delta as f64 / (elapsed_nanos as f64 / 1_000_000_000.0)
    }
}

#[test]
fn rate_test_new() {
    let counter = Rate::new();
    assert_eq!(counter.total_value(), 0);
}

#[test]
fn rate_test_with_name() {
    let counter = Rate::new().with_name("my_rate");
    assert_eq!(counter.name(), "my_rate");
}

#[test]
fn rate_test_add() {
    let mut counter = Rate::new();
    counter.add(1);
    assert_eq!(counter.total_value(), 1);
    counter.add(5);
    assert_eq!(counter.total_value(), 6);
}

#[test]
fn rate_test_local_value() {
    let mut counter = Rate::new();
    assert_eq!(counter.local_value(), 0);
    counter.add(1);
    assert_eq!(counter.local_value(), 1);
}

#[test]
fn test_first_rate_call_returns_zero() {
    let mut counter = Rate::new();
    counter.add(100);
    // the first sample only records the baseline
    assert_eq!(rate_of(counter.rate_sample(5_000_000_000)), 0.0);
}

#[test]
fn rate_test_rate_after_delay() {
    // 1000 units over half a second: 2000 units per second
    let mut counter = Rate::new();
    let _ = counter.rate_sample(1_000_000_000);
    counter.add(1000);
    let rate = rate_of(counter.rate_sample(1_500_000_000));
    assert!(rate > 0.0);
    assert_eq!(rate, 2000.0);
}

#[test]
fn rate_test_rate_with_no_change() {
    let mut counter = Rate::new();
    counter.add(100);
    let _ = counter.rate_sample(1_000_000_000);
    // no additions since the last sample: the rate is zero
    let rate = rate_of(counter.rate_sample(2_000_000_000));
    assert_eq!(rate, 0.0);
}

#[test]
fn rate_test_same_instant_is_zero() {
    let mut counter = Rate::new();
    let _ = counter.rate_sample(1_000_000_000);
    counter.add(50);
    // zero elapsed time maps to a rate of zero, not a division by zero
    let rate = rate_of(counter.rate_sample(1_000_000_000));
    assert_eq!(rate, 0.0);
}

#[test]
fn test_observable_impl() {
    let counter = Rate::new().with_name("requests_rate");

    assert_eq!(counter.name(), "requests_rate");
    assert_eq!(counter.metric_kind(), MetricKind::Gauge);
}

#[test]
fn rate_test_default() {
    let counter = Rate::default();
    assert_eq!(counter.total_value(), 0);
    assert_eq!(counter.name(), "");
}

#[test]
fn test_expand() {
    let mut counter = Rate::new().with_name("test_rate");
    let entries = counter.expand();

    assert_eq!(entries.len(), 1);
    assert_eq!(entries[0].name, "test_rate");
    assert!(entries[0].label.is_none());
    assert_eq!(entries[0].metric_kind, MetricKind::Gauge);
}
