use contatori::adapters::LabeledGroup;
use contatori::contatori::{CounterValue, Observable};
use contatori::counters::unsigned::Unsigned;
use contatori::snapshot::{CounterSnapshot, MetricsSnapshot};

#[test]
fn test_counter_snapshot_new() {
    let snapshot = CounterSnapshot::new("test", CounterValue::Unsigned(42));
    assert_eq!(snapshot.name, "test");
    assert!(snapshot.label.is_none());
    assert_eq!(snapshot.value, CounterValue::Unsigned(42));
}

#[test]
fn test_counter_snapshot_with_label() {
    let snapshot = CounterSnapshot::with_label(
        "test",
        Some(("method".to_string(), "GET".to_string())),
        CounterValue::Unsigned(42),
    );
    assert_eq!(snapshot.name, "test");
    assert!(snapshot.label.is_some());
    assert_eq!(
        snapshot.label.unwrap(),
        ("method".to_string(), "GET".to_string())
    );
    assert_eq!(snapshot.value, CounterValue::Unsigned(42));
}

#[test]
fn test_counter_snapshot_from_observable() {
    let mut counter = Unsigned::new().with_name("requests");
    counter.add(100);

    let snapshots = CounterSnapshot::from_observable(&mut counter);
    assert_eq!(snapshots.len(), 1);
    assert_eq!(snapshots[0].name, "requests");
    assert!(snapshots[0].label.is_none());
    assert_eq!(snapshots[0].value, CounterValue::Unsigned(100));
}

#[test]
fn test_counter_snapshot_from_observable_unnamed() {
    let mut counter = Unsigned::new();
    counter.add(50);

    let snapshots = CounterSnapshot::from_observable(&mut counter);
    assert_eq!(snapshots.len(), 1);
    assert_eq!(snapshots[0].name, "(unnamed)");
}

#[test]
fn test_metrics_snapshot_new() {
    let snapshot = MetricsSnapshot::new(vec![
        CounterSnapshot::new("a", CounterValue::Unsigned(1)),
        CounterSnapshot::new("b", CounterValue::Unsigned(2)),
    ]);

    assert_eq!(snapshot.counters.len(), 2);
    assert!(snapshot.timestamp_ms.is_none());
}

#[test]
fn test_metrics_snapshot_with_timestamp() {
    let snapshot = MetricsSnapshot::with_timestamp(
        vec![CounterSnapshot::new("test", CounterValue::Unsigned(1))],
        1234567890,
    );

    assert_eq!(snapshot.timestamp_ms, Some(1234567890));
}

#[test]
fn snapshot_test_metrics_snapshot_get() {
    let snapshot = MetricsSnapshot::new(vec![
        CounterSnapshot::new("foo", CounterValue::Unsigned(1)),
        CounterSnapshot::new("bar", CounterValue::Unsigned(2)),
    ]);

    assert!(snapshot.get("foo").is_some());
    assert!(snapshot.get("bar").is_some());
    assert!(snapshot.get("baz").is_none());
}

#[test]
fn test_metrics_snapshot_collect() {
    let mut counter1 = Unsigned::new().with_name("c1");
    let mut counter2 = Unsigned::new().with_name("c2");
    counter1.add(10);
    counter2.add(20);

    let mut entries = counter1.expand();
    entries.append(&mut counter2.expand());
    let snapshot = MetricsSnapshot::collect(entries);

    assert_eq!(snapshot.counters.len(), 2);
    assert_eq!(
        snapshot.get("c1").unwrap().value,
        CounterValue::Unsigned(10)
    );
    assert_eq!(
        snapshot.get("c2").unwrap().value,
        CounterValue::Unsigned(20)
    );
}

#[test]
fn test_metrics_snapshot_collect_labeled_group() {
    let mut group = LabeledGroup::new("test_metric", "label")
        .with_sub(None, Unsigned::new())
        .with_sub(Some("A"), Unsigned::new())
        .with_sub(Some("B"), Unsigned::new());

    group.sub_mut(0).add(100);
    group.sub_mut(1).add(60);
    group.sub_mut(2).add(40);

    let snapshot = MetricsSnapshot::collect(group.expand());

    // three entries: the total (no label), A, and B
    assert_eq!(snapshot.counters.len(), 3);

    let with_labels: Vec<&CounterSnapshot> = snapshot
        .counters
        .iter()
        .filter(|c| c.label.is_some())
        .collect();
    assert_eq!(with_labels.len(), 2);
}

#[test]
fn snapshot_test_collect_with_timestamp() {
    let mut counter = Unsigned::new().with_name("stamped");
    counter.add(7);
    let snapshot = MetricsSnapshot::collect_with_timestamp(counter.expand(), 99);
    assert_eq!(snapshot.timestamp_ms, Some(99));
    assert_eq!(snapshot.counters.len(), 1);
    assert_eq!(snapshot.counters[0].value, CounterValue::Unsigned(7));
}
