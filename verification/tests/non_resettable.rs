use contatori::adapters::NonResettable;
use contatori::contatori::{CounterValue, Observable};
use contatori::counters::signed::Signed;
use contatori::counters::unsigned::Unsigned;

#[test]
fn non_resettable_test_new() {
    let counter = NonResettable::new(Unsigned::new().with_name("test"));
    assert_eq!(counter.name(), "test");
}

#[test]
fn non_resettable_test_value() {
    let mut counter = NonResettable::new(Unsigned::new());
    counter.inner_mut().add(42);
    assert_eq!(counter.value(), CounterValue::Unsigned(42));
}

#[test]
fn test_value_and_reset_does_not_reset() {
    let mut counter = NonResettable::new(Unsigned::new());
    counter.inner_mut().add(100);

    let v1 = counter.value_and_reset();
    assert_eq!(v1, CounterValue::Unsigned(100));

    // the value is still there
    assert_eq!(counter.value(), CounterValue::Unsigned(100));

    let v2 = counter.value_and_reset();
    assert_eq!(v2, CounterValue::Unsigned(100));
}

#[test]
fn test_accumulates_after_value_and_reset() {
    let mut counter = NonResettable::new(Unsigned::new());
    counter.inner_mut().add(100);

    counter.value_and_reset();

    counter.inner_mut().add(50);
    assert_eq!(counter.value(), CounterValue::Unsigned(150));
}

#[test]
fn non_resettable_test_with_signed_counter() {
    let mut counter = NonResettable::new(Signed::new().with_name("balance"));
    counter.inner_mut().add(100);
    counter.inner_mut().sub(30);

    assert_eq!(counter.value(), CounterValue::Signed(70));
    assert_eq!(counter.value_and_reset(), CounterValue::Signed(70));
    assert_eq!(counter.value(), CounterValue::Signed(70));
}

#[test]
fn non_resettable_test_deref() {
    let mut counter = NonResettable::new(Unsigned::new());
    counter.inner_mut().add(10);
    counter.inner_mut().add(20);
    assert_eq!(counter.value().as_u64(), 30);
}

#[test]
fn non_resettable_test_inner() {
    let counter = NonResettable::new(Unsigned::new().with_name("inner_test"));
    assert_eq!(counter.inner().name(), "inner_test");
}

#[test]
fn non_resettable_test_into_inner() {
    let mut counter = NonResettable::new(Unsigned::new().with_name("consume"));
    counter.inner_mut().add(42);

    let mut inner = counter.into_inner();
    assert_eq!(inner.name(), "consume");
    assert_eq!(inner.value(), CounterValue::Unsigned(42));
}

#[test]
fn non_resettable_test_debug() {
    let counter = NonResettable::new(Unsigned::new().with_name("debug_test"));
    let debug_str = format!("{:?}", counter);
    assert!(debug_str.contains("NonResettable"));
}
