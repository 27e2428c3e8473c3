use contatori::adapters::Resettable;
use contatori::contatori::{format_observable, CounterValue, Observable};
use contatori::counters::unsigned::Unsigned;

#[test]
fn unsigned_test_new() {
    let mut counter = Unsigned::new();
    assert_eq!(counter.value(), CounterValue::Unsigned(0));
}

#[test]
fn unsigned_test_add() {
    let mut counter = Unsigned::new();
    counter.add(1);
    assert_eq!(counter.value(), CounterValue::Unsigned(1));
    counter.add(1);
    counter.add(1);
    assert_eq!(counter.value(), CounterValue::Unsigned(3));
}

#[test]
fn unsigned_test_sub() {
    let mut counter = Unsigned::new();
    counter.set_local_value(10);
    counter.sub(1);
    assert_eq!(counter.value(), CounterValue::Unsigned(9));
    counter.sub(1);
    counter.sub(1);
    assert_eq!(counter.value(), CounterValue::Unsigned(7));
}

#[test]
fn unsigned_test_set_local_value() {
    let mut counter = Unsigned::new();
    counter.set_local_value(42);
    assert_eq!(counter.local_value(), 42);
    assert_eq!(counter.value(), CounterValue::Unsigned(42));
}

#[test]
fn unsigned_test_local_value() {
    let mut counter = Unsigned::new();
    assert_eq!(counter.local_value(), 0);
    counter.add(1);
    assert_eq!(counter.local_value(), 1);
}

#[test]
fn unsigned_test_resettable() {
    let mut inner = Unsigned::new();
    inner.add(1);
    inner.add(1);
    inner.add(1);
    let mut counter = Resettable::new(inner);
    assert_eq!(counter.value(), CounterValue::Unsigned(3));
    // reading a resettable counter clears it
    assert_eq!(counter.value(), CounterValue::Unsigned(0));
}

#[test]
fn unsigned_test_dyn_format() {
    let mut counter = Unsigned::new().with_name("test_counter");
    counter.add(1);
    let formatted = format_observable(&mut counter);
    assert_eq!(formatted, "test_counter:1");
}

#[test]
fn unsigned_test_name_default() {
    let counter = Unsigned::new();
    assert_eq!(counter.name(), "");
}

#[test]
fn unsigned_test_with_name() {
    let counter = Unsigned::new().with_name("my_counter");
    assert_eq!(counter.name(), "my_counter");
}

#[test]
fn unsigned_test_with_name_preserves_value() {
    let mut counter = Unsigned::new().with_name("test");
    counter.add(1);
    counter.add(1);
    assert_eq!(counter.name(), "test");
    assert_eq!(counter.value(), CounterValue::Unsigned(2));
}

#[test]
fn unsigned_test_default() {
    let mut counter = Unsigned::default();
    assert_eq!(counter.value(), CounterValue::Unsigned(0));
    assert_eq!(counter.name(), "");
}

#[test]
fn unsigned_test_sub_wraps_below_zero() {
    let mut counter = Unsigned::new();
    counter.sub(1);
    assert_eq!(counter.value(), CounterValue::Unsigned(u64::MAX));
}

#[test]
fn unsigned_test_sharded_workers_sum_exactly() {
    // four workers bound to distinct shards, a hundred unit additions each
    let mut counter = Unsigned::new();
    let mut assigner = contatori::contatori::SlotAssigner::new();
    for _ in 0..4 {
        let slot = contatori::contatori::get_next_slot_id(&mut assigner);
        counter.set_active_slot(slot);
        for _ in 0..100 {
            counter.add(1);
        }
    }
    assert_eq!(counter.value(), CounterValue::Unsigned(400));
}

#[test]
fn unsigned_test_value_and_reset_scenario() {
    let mut counter = Unsigned::new();
    counter.add(100);
    assert_eq!(counter.value_and_reset(), CounterValue::Unsigned(100));
    assert_eq!(counter.value(), CounterValue::Unsigned(0));
}
