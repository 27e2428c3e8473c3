use contatori::adapters::Resettable;
use contatori::contatori::{format_observable, CounterValue, Observable};
use contatori::counters::monotone::Monotone;

#[test]
fn monotone_test_new() {
    let mut counter = Monotone::new();
    assert_eq!(counter.value(), CounterValue::Unsigned(0));
}

#[test]
fn monotone_test_add() {
    let mut counter = Monotone::new();
    counter.add(1);
    assert_eq!(counter.value(), CounterValue::Unsigned(1));
    counter.add(1);
    counter.add(1);
    assert_eq!(counter.value(), CounterValue::Unsigned(3));
}

#[test]
fn monotone_test_local_value() {
    let mut counter = Monotone::new();
    assert_eq!(counter.local_value(), 0);
    counter.add(1);
    assert_eq!(counter.local_value(), 1);
}

#[test]
fn test_resettable_monotone_does_not_reset() {
    let mut inner = Monotone::new();
    inner.add(1);
    inner.add(1);
    inner.add(1);
    let mut counter = Resettable::new(inner);
    assert_eq!(counter.value(), CounterValue::Unsigned(3));
    // the monotone counter never clears, even behind a resettable read
    assert_eq!(counter.inner().local_value(), 3);
    assert_eq!(counter.value(), CounterValue::Unsigned(3));
}

#[test]
fn monotone_test_dyn_format() {
    let mut counter = Monotone::new().with_name("test_counter");
    counter.add(1);
    let formatted = format_observable(&mut counter);
    assert_eq!(formatted, "test_counter:1");
}

#[test]
fn monotone_test_name_default() {
    let counter = Monotone::new();
    assert_eq!(counter.name(), "");
}

#[test]
fn monotone_test_with_name() {
    let counter = Monotone::new().with_name("my_counter");
    assert_eq!(counter.name(), "my_counter");
}

#[test]
fn monotone_test_with_name_preserves_value() {
    let mut counter = Monotone::new().with_name("test");
    counter.add(1);
    counter.add(1);
    assert_eq!(counter.name(), "test");
    assert_eq!(counter.value(), CounterValue::Unsigned(2));
}

#[test]
fn monotone_test_default() {
    let mut counter = Monotone::default();
    assert_eq!(counter.value(), CounterValue::Unsigned(0));
    assert_eq!(counter.name(), "");
}

#[test]
fn monotone_test_value_and_reset_never_clears() {
    let mut counter = Monotone::new();
    counter.add(1);
    counter.add(1);
    counter.add(1);
    assert_eq!(counter.value_and_reset(), CounterValue::Unsigned(3));
    assert_eq!(counter.value(), CounterValue::Unsigned(3));
}

#[test]
fn monotone_test_interleaved_workers() {
    // unit additions interleaved over several shards always sum exactly
    let mut counter = Monotone::new();
    let mut assigner = contatori::contatori::SlotAssigner::new();
    let slots = [
        contatori::contatori::get_next_slot_id(&mut assigner),
        contatori::contatori::get_next_slot_id(&mut assigner),
        contatori::contatori::get_next_slot_id(&mut assigner),
    ];
    for round in 0..50 {
        for slot in slots {
            counter.set_active_slot(slot);
            counter.add(1);
        }
        let _ = round;
    }
    assert_eq!(counter.value(), CounterValue::Unsigned(150));
}
