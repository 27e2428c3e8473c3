use contatori::contatori::{CounterValue, MetricKind, ObservableEntry};
use contatori::observers::opentelemetry::{entry_to_attributes, OtelObserver};

#[test]
fn test_otel_observer_new() {
    let observer = OtelObserver::new("test");
    assert!(observer.description_prefix.is_none());
}

#[test]
fn test_otel_observer_with_description_prefix() {
    let observer = OtelObserver::new("test").with_description_prefix("My App");
    assert_eq!(observer.description_prefix, Some("My App".to_string()));
}

#[test]
fn test_build_description_with_prefix() {
    let observer = OtelObserver::new("test").with_description_prefix("My App");
    assert_eq!(observer.build_description("requests"), "My App: requests");
}

#[test]
fn test_build_description_without_prefix() {
    let observer = OtelObserver::new("test");
    assert_eq!(observer.build_description("requests"), "requests metric");
}

#[test]
fn test_entry_to_attributes_with_label() {
    let entry = ObservableEntry {
        name: "test".to_string(),
        label: Some(("method".to_string(), "GET".to_string())),
        value: CounterValue::Unsigned(1),
        metric_kind: MetricKind::Counter,
    };
    let attrs = entry_to_attributes(&entry);
    assert_eq!(attrs.len(), 1);
    assert_eq!(attrs[0].0.as_str(), "method");
}

#[test]
fn test_entry_to_attributes_without_label() {
    let entry = ObservableEntry {
        name: "test".to_string(),
        label: None,
        value: CounterValue::Unsigned(1),
        metric_kind: MetricKind::Counter,
    };
    let attrs = entry_to_attributes(&entry);
    assert!(attrs.is_empty());
}

#[test]
fn otel_test_meter_name() {
    let observer = OtelObserver::new("myapp");
    assert_eq!(observer.meter_name, "myapp");
}
