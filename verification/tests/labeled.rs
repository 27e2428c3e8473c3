use contatori::adapters::{Labeled, Resettable};
use contatori::contatori::{CounterValue, Observable};
use contatori::counters::unsigned::Unsigned;

#[test]
fn labeled_test_new() {
    let counter = Labeled::new(Unsigned::new().with_name("test"));
    assert_eq!(counter.name(), "test");
    assert!(!counter.has_labels());
}

#[test]
fn test_with_label() {
    let counter = Labeled::new(Unsigned::new())
        .with_label("method", "GET")
        .with_label("path", "/api");

    assert_eq!(counter.get_label("method"), Some("GET"));
    assert_eq!(counter.get_label("path"), Some("/api"));
    assert_eq!(counter.label_count(), 2);
}

#[test]
fn test_add_label() {
    let mut counter = Labeled::new(Unsigned::new());
    counter.add_label("key", "value");

    assert_eq!(counter.get_label("key"), Some("value"));
}

#[test]
fn test_remove_label() {
    let mut counter = Labeled::new(Unsigned::new()).with_label("key", "value");

    let removed = counter.remove_label("key");
    assert_eq!(removed, Some("value".to_string()));
    assert!(counter.get_label("key").is_none());
}

#[test]
fn test_labels_iter() {
    let counter = Labeled::new(Unsigned::new()).with_label("a", "1").with_label("b", "2");

    let labels = counter.labels_iter();
    assert_eq!(labels.len(), 2);
    assert!(labels.contains(&("a".to_string(), "1".to_string())));
    assert!(labels.contains(&("b".to_string(), "2".to_string())));
}

#[test]
fn test_observable_labels() {
    let counter = Labeled::new(Unsigned::new()).with_label("a", "1").with_label("b", "2");

    let labels = counter.labels();
    assert_eq!(labels.len(), 2);
}

#[test]
fn test_with_labels() {
    let labels = vec![
        ("env".to_string(), "prod".to_string()),
        ("region".to_string(), "us-east".to_string()),
    ];

    let counter = Labeled::with_labels(Unsigned::new(), labels);
    assert_eq!(counter.label_count(), 2);
}

#[test]
fn labeled_test_value() {
    let mut counter = Labeled::new(Unsigned::new()).with_label("test", "value");

    counter.inner_mut().add(42);
    assert_eq!(counter.value(), CounterValue::Unsigned(42));
}

#[test]
fn labeled_test_resettable() {
    let mut counter = Resettable::new(Labeled::new(Unsigned::new()).with_label("test", "value"));

    counter.inner_mut().inner_mut().add(100);
    assert_eq!(counter.value(), CounterValue::Unsigned(100));
    // reading through the resettable wrapper clears the counter
    assert_eq!(counter.value(), CounterValue::Unsigned(0));
}

#[test]
fn labeled_test_deref() {
    let mut counter = Labeled::new(Unsigned::new());
    counter.inner_mut().add(10);
    counter.inner_mut().add(20);
    assert_eq!(counter.value().as_u64(), 30);
}

#[test]
fn labeled_test_inner() {
    let counter = Labeled::new(Unsigned::new().with_name("inner_test"));
    assert_eq!(counter.inner().name(), "inner_test");
}

#[test]
fn labeled_test_into_inner() {
    let mut counter = Labeled::new(Unsigned::new().with_name("consume")).with_label(
        "key", "value",
    );
    counter.inner_mut().add(42);

    let mut inner = counter.into_inner();
    assert_eq!(inner.name(), "consume");
    assert_eq!(inner.value(), CounterValue::Unsigned(42));
}

#[test]
fn test_into_parts() {
    let mut counter = Labeled::new(Unsigned::new()).with_label("key", "value");
    counter.inner_mut().add(42);

    let (mut inner, labels) = counter.into_parts();
    assert_eq!(inner.value(), CounterValue::Unsigned(42));
    assert_eq!(labels.len(), 1);
    assert_eq!(labels[0], ("key".to_string(), "value".to_string()));
}

#[test]
fn labeled_test_debug() {
    let counter = Labeled::new(Unsigned::new().with_name("debug_test")).with_label(
        "key", "value",
    );

    let debug_str = format!("{:?}", counter);
    assert!(debug_str.contains("Labeled"));
    assert!(debug_str.contains("key"));
}

#[test]
fn test_label_update() {
    // attaching the same key twice keeps one pair with the latest value
    let counter = Labeled::new(Unsigned::new()).with_label("key", "old").with_label(
        "key", "new",
    );

    assert_eq!(counter.get_label("key"), Some("new"));
    assert_eq!(counter.label_count(), 1);
}

#[test]
fn test_has_labels() {
    let counter1 = Labeled::new(Unsigned::new());
    assert!(!counter1.has_labels());

    let counter2 = Labeled::new(Unsigned::new()).with_label("key", "value");
    assert!(counter2.has_labels());
}

#[test]
fn test_labels_order_preserved() {
    let counter = Labeled::new(Unsigned::new())
        .with_label("c", "3")
        .with_label("a", "1")
        .with_label("b", "2");

    let labels = counter.labels_iter();
    assert_eq!(labels[0], ("c".to_string(), "3".to_string()));
    assert_eq!(labels[1], ("a".to_string(), "1".to_string()));
    assert_eq!(labels[2], ("b".to_string(), "2".to_string()));
}

#[test]
fn labeled_test_same_key_twice_scenario() {
    // "k" -> "1" then "k" -> "2": exactly one label remains, "k" -> "2"
    let counter = Labeled::new(Unsigned::new()).with_label("k", "1").with_label("k", "2");
    assert_eq!(counter.label_count(), 1);
    assert_eq!(counter.get_label("k"), Some("2"));
}
