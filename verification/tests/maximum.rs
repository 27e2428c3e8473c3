use contatori::adapters::Resettable;
use contatori::contatori::{format_observable, CounterValue, Observable};
use contatori::counters::maximum::Maximum;

#[test]
fn maximum_test_new() {
    // before any observation the tracker reports the "no data" sentinel
    let mut counter = Maximum::new();
    assert_eq!(counter.value(), CounterValue::Unsigned(0));
}

#[test]
fn maximum_test_observe_single() {
    let mut counter = Maximum::new();
    counter.observe(42);
    assert_eq!(counter.value(), CounterValue::Unsigned(42));
}

#[test]
fn test_observe_increasing() {
    let mut counter = Maximum::new();
    counter.observe(10);
    counter.observe(20);
    counter.observe(30);
    assert_eq!(counter.value(), CounterValue::Unsigned(30));
}

#[test]
fn test_observe_decreasing() {
    let mut counter = Maximum::new();
    counter.observe(30);
    counter.observe(20);
    counter.observe(10);
    assert_eq!(counter.value(), CounterValue::Unsigned(30));
}

#[test]
fn maximum_test_observe_mixed() {
    let mut counter = Maximum::new();
    counter.observe(15);
    counter.observe(42);
    counter.observe(8);
    counter.observe(100);
    counter.observe(3);
    assert_eq!(counter.value(), CounterValue::Unsigned(100));
}

#[test]
fn maximum_test_resettable() {
    let mut inner = Maximum::new();
    inner.observe(50);
    inner.observe(100);
    let mut counter = Resettable::new(inner);
    assert_eq!(counter.value(), CounterValue::Unsigned(100));
    // reading a resettable tracker swaps it back to the sentinel
    assert_eq!(counter.value(), CounterValue::Unsigned(0));
}

#[test]
fn test_resettable_then_observe() {
    let mut inner = Maximum::new();
    inner.observe(100);
    let mut counter = Resettable::new(inner);
    let _ = counter.value();
    counter.inner_mut().observe(25);
    assert_eq!(counter.value(), CounterValue::Unsigned(25));
}

#[test]
fn maximum_test_dyn_format() {
    let mut counter = Maximum::new().with_name("max_counter");
    counter.observe(99);
    let formatted = format_observable(&mut counter);
    assert_eq!(formatted, "max_counter:99");
}

#[test]
fn maximum_test_name_default() {
    let counter = Maximum::new();
    assert_eq!(counter.name(), "");
}

#[test]
fn maximum_test_with_name() {
    let counter = Maximum::new().with_name("my_counter");
    assert_eq!(counter.name(), "my_counter");
}

#[test]
fn maximum_test_default() {
    let mut counter = Maximum::default();
    assert_eq!(counter.value(), CounterValue::Unsigned(0));
    assert_eq!(counter.name(), "");
}

#[test]
fn maximum_test_observe_zero() {
    let mut counter = Maximum::new();
    counter.observe(0);
    assert_eq!(counter.value(), CounterValue::Unsigned(0));
}

#[test]
fn maximum_test_aggregate_scenario() {
    // observations 5, 3, 8: the aggregate maximum is 8
    let mut counter = Maximum::new();
    counter.observe(5);
    counter.observe(3);
    counter.observe(8);
    assert_eq!(counter.value(), CounterValue::Unsigned(8));
}
