use contatori::adapters::Resettable;
use contatori::contatori::{CounterValue, Observable};
use contatori::counters::signed::Signed;
use contatori::counters::unsigned::Unsigned;

#[test]
fn resettable_test_new() {
    let counter = Resettable::new(Unsigned::new().with_name("test"));
    assert_eq!(counter.name(), "test");
}

#[test]
fn test_value_resets() {
    let mut counter = Resettable::new(Unsigned::new());
    counter.inner_mut().add(42);

    // the first read returns 42 and resets
    assert_eq!(counter.value(), CounterValue::Unsigned(42));

    // the second read returns 0
    assert_eq!(counter.value(), CounterValue::Unsigned(0));
}

#[test]
fn test_multiple_adds_then_reset() {
    let mut counter = Resettable::new(Unsigned::new());
    counter.inner_mut().add(10);
    counter.inner_mut().add(20);
    counter.inner_mut().add(30);

    assert_eq!(counter.value(), CounterValue::Unsigned(60));
    assert_eq!(counter.value(), CounterValue::Unsigned(0));
}

#[test]
fn test_accumulates_after_reset() {
    let mut counter = Resettable::new(Unsigned::new());
    counter.inner_mut().add(100);

    // reset by reading
    let _ = counter.value();

    counter.inner_mut().add(50);
    assert_eq!(counter.value(), CounterValue::Unsigned(50));
}

#[test]
fn resettable_test_with_signed_counter() {
    let mut counter = Resettable::new(Signed::new().with_name("balance"));
    counter.inner_mut().add(100);
    counter.inner_mut().sub(30);

    assert_eq!(counter.value(), CounterValue::Signed(70));
    // after the reset
    assert_eq!(counter.value(), CounterValue::Signed(0));
}

#[test]
fn resettable_test_deref() {
    let mut counter = Resettable::new(Unsigned::new());
    counter.inner_mut().add(10);
    counter.inner_mut().add(20);
    assert_eq!(counter.value().as_u64(), 30);
}

#[test]
fn resettable_test_inner() {
    let counter = Resettable::new(Unsigned::new().with_name("inner_test"));
    assert_eq!(counter.inner().name(), "inner_test");
}

#[test]
fn resettable_test_into_inner() {
    let mut counter = Resettable::new(Unsigned::new().with_name("consume"));
    counter.inner_mut().add(42);

    // read and reset first
    let _ = counter.value();

    let mut counter = Resettable::new(Unsigned::new().with_name("consume"));
    counter.inner_mut().add(100);

    let mut inner = counter.into_inner();
    assert_eq!(inner.name(), "consume");
    // the inner counter keeps its value: nothing read it through the wrapper
    assert_eq!(inner.value(), CounterValue::Unsigned(100));
}

#[test]
fn resettable_test_debug() {
    let counter = Resettable::new(Unsigned::new().with_name("debug_test"));
    let debug_str = format!("{:?}", counter);
    assert!(debug_str.contains("Resettable"));
}
