use contatori::contatori::{CounterValue, Observable};
use contatori::counters::unsigned::Unsigned;
use contatori::observers::json::JsonObserver;
use contatori::snapshot::{CounterSnapshot, MetricsSnapshot};

#[test]
fn test_collect() {
    let mut counter = Unsigned::new().with_name("collected");
    counter.add(25);

    let observer = JsonObserver::new();
    let snapshots = observer.collect(counter.expand());

    assert_eq!(snapshots.len(), 1);
    assert_eq!(snapshots[0].name, "collected");
    assert_eq!(snapshots[0].value, CounterValue::Unsigned(25));
}

#[test]
fn json_test_unnamed_counter() {
    let mut counter = Unsigned::new();
    counter.add(99);

    let observer = JsonObserver::new();
    let snapshots = observer.collect(counter.expand());

    assert_eq!(snapshots[0].name, "(unnamed)");
}

#[test]
fn json_test_config_builders() {
    let observer = JsonObserver::new()
        .pretty(true)
        .include_timestamp(true)
        .wrap_in_snapshot(true);
    assert!(observer.config.pretty);
    assert!(observer.config.include_timestamp);
    assert!(observer.config.wrap_in_snapshot);
}

#[test]
fn json_test_metrics_snapshot_get() {
    let snapshot = MetricsSnapshot::new(vec![
        CounterSnapshot {
            name: "foo".to_string(),
            label: None,
            value: CounterValue::Unsigned(1),
        },
        CounterSnapshot {
            name: "bar".to_string(),
            label: None,
            value: CounterValue::Unsigned(2),
        },
    ]);

    assert!(snapshot.get("foo").is_some());
    assert!(snapshot.get("bar").is_some());
    assert!(snapshot.get("baz").is_none());
}

#[test]
fn test_counter_value_conversions() {
    let unsigned = CounterValue::Unsigned(100);
    assert_eq!(unsigned.as_i64(), 100);
    assert_eq!(unsigned.as_u64(), 100);
    assert_eq!(unsigned.as_i64() as f64, 100.0);

    let signed = CounterValue::Signed(-50);
    assert_eq!(signed.as_i64(), -50);
    assert_eq!(signed.as_i64() as f64, -50.0);
}

#[test]
fn json_test_is_zero() {
    assert!(CounterValue::Unsigned(0).is_zero());
    assert!(CounterValue::Signed(0).is_zero());
    assert!(!CounterValue::Unsigned(1).is_zero());
    assert!(!CounterValue::Signed(-1).is_zero());
}
