use contatori::contatori::{format_observable, CounterValue, Observable};
use contatori::counters::average::Average;

#[test]
fn average_test_new() {
    let counter = Average::new();
    assert_eq!(counter.sum(), 0);
    assert_eq!(counter.count(), 0);
    assert_eq!(counter.average(), None);
}

#[test]
fn average_test_observe_single() {
    let mut counter = Average::new();
    counter.observe(42);
    assert_eq!(counter.sum(), 42);
    assert_eq!(counter.count(), 1);
    assert_eq!(counter.average(), Some(42));
}

#[test]
fn test_observe_multiple() {
    let mut counter = Average::new();
    counter.observe(10);
    counter.observe(20);
    counter.observe(30);
    assert_eq!(counter.sum(), 60);
    assert_eq!(counter.count(), 3);
    assert_eq!(counter.average(), Some(20));
}

#[test]
fn test_observe_many() {
    let mut counter = Average::new();
    counter.observe_many(100, 4);
    assert_eq!(counter.sum(), 100);
    assert_eq!(counter.count(), 4);
    assert_eq!(counter.average(), Some(25));
}

fn average_f64_of(counter: &Average) -> Option<f64> {
    if counter.count() == 0 {
        None
    } else {
        Some(counter.sum() as f64 / counter.count() as f64)
    }
}

#[test]
fn test_average_f64() {
    let mut counter = Average::new();
    counter.observe(10);
    counter.observe(20);
    counter.observe(30);
    assert_eq!(average_f64_of(&counter), Some(20.0));

    let mut counter2 = Average::new();
    counter2.observe(1);
    counter2.observe(2);
    assert_eq!(counter2.average(), Some(1));
    assert_eq!(average_f64_of(&counter2), Some(1.5));
}

#[test]
fn test_average_empty() {
    let counter = Average::new();
    assert_eq!(counter.average(), None);
    assert_eq!(average_f64_of(&counter), None);
}

#[test]
fn test_sum_count_and_reset() {
    let mut counter = Average::new();
    counter.observe(10);
    counter.observe(20);
    counter.observe(30);

    let (sum, count) = counter.sum_count_and_reset();
    assert_eq!(sum, 60);
    assert_eq!(count, 3);

    assert_eq!(counter.sum(), 0);
    assert_eq!(counter.count(), 0);
    assert_eq!(counter.average(), None);
}

#[test]
fn test_average_and_reset() {
    let mut counter = Average::new();
    counter.observe(10);
    counter.observe(20);
    counter.observe(30);

    let avg = counter.average_and_reset();
    assert_eq!(avg, Some(20));

    assert_eq!(counter.average(), None);
}

#[test]
fn average_test_value_and_reset_then_observe() {
    let mut counter = Average::new();
    counter.observe(100);
    counter.value_and_reset();
    counter.observe(50);
    assert_eq!(counter.average(), Some(50));
}

#[test]
fn average_test_dyn_format() {
    let mut counter = Average::new().with_name("avg_counter");
    counter.observe(10);
    counter.observe(20);
    counter.observe(30);
    let formatted = format_observable(&mut counter);
    assert_eq!(formatted, "avg_counter:20");
}

#[test]
fn average_test_name_default() {
    let counter = Average::new();
    assert_eq!(counter.name(), "");
}

#[test]
fn average_test_with_name() {
    let counter = Average::new().with_name("my_avg");
    assert_eq!(counter.name(), "my_avg");
}

#[test]
fn average_test_default() {
    let counter = Average::default();
    assert_eq!(counter.average(), None);
    assert_eq!(counter.name(), "");
}

#[test]
fn test_observable_value_empty() {
    let mut counter = Average::new();
    assert_eq!(counter.value(), CounterValue::Unsigned(0));
}

#[test]
fn test_observable_value() {
    let mut counter = Average::new();
    counter.observe(10);
    counter.observe(30);
    assert_eq!(counter.value(), CounterValue::Unsigned(20));
}

#[test]
fn test_add_sum() {
    let mut counter = Average::new();
    counter.add_sum(100);
    assert_eq!(counter.sum(), 100);
    assert_eq!(counter.count(), 0);
    assert_eq!(counter.average(), None);
}

#[test]
fn test_add_count() {
    let mut counter = Average::new();
    counter.add_count(5);
    assert_eq!(counter.sum(), 0);
    assert_eq!(counter.count(), 5);
    assert_eq!(counter.average(), Some(0));
}

#[test]
fn test_add_sum_and_count_separately() {
    let mut counter = Average::new();
    counter.add_sum(100);
    counter.add_count(4);
    assert_eq!(counter.sum(), 100);
    assert_eq!(counter.count(), 4);
    assert_eq!(counter.average(), Some(25));
}

#[test]
fn average_test_incr() {
    let mut counter = Average::new();
    counter.incr();
    counter.incr();
    counter.incr();
    assert_eq!(counter.count(), 3);
    assert_eq!(counter.sum(), 0);
}

#[test]
fn average_test_decr() {
    let mut counter = Average::new();
    counter.add_count(10);
    counter.decr();
    counter.decr();
    assert_eq!(counter.count(), 8);
}

#[test]
fn test_combined_operations() {
    let mut counter = Average::new();
    counter.observe(10);
    counter.observe(20);
    counter.add_sum(30);
    counter.incr();
    assert_eq!(counter.sum(), 60);
    assert_eq!(counter.count(), 3);
    assert_eq!(counter.average(), Some(20));
}

#[test]
fn average_test_scenario_sum_count_reset() {
    // observations 10, 20, 30: the truncated average is 20, a reset read
    // hands back (60, 3), and the next average reports no data
    let mut counter = Average::new();
    counter.observe(10);
    counter.observe(20);
    counter.observe(30);
    assert_eq!(counter.average(), Some(20));
    assert_eq!(average_f64_of(&counter), Some(20.0));
    assert_eq!(counter.sum_count_and_reset(), (60, 3));
    assert_eq!(counter.average(), None);
}

#[test]
fn average_test_truncation() {
    let mut counter = Average::new();
    counter.observe(7);
    counter.observe(10);
    assert_eq!(counter.average(), Some(8));
}
