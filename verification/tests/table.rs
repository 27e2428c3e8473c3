use contatori::contatori::{Observable, ObservableEntry};
use contatori::counters::average::Average;
use contatori::counters::maximum::Maximum;
use contatori::counters::minimum::Minimum;
use contatori::counters::signed::Signed;
use contatori::counters::unsigned::Unsigned;
use contatori::observers::table::{CompactSeparator, TableConfig, TableObserver, TableStyle};

#[test]
fn table_test_render_empty() {
    let observer = TableObserver::new();
    let entries: Vec<ObservableEntry> = vec![];
    let output = observer.render(&entries);
    assert!(!output.is_empty());
}

#[test]
fn test_render_empty_compact() {
    let observer = TableObserver::new().compact(true).columns(3);
    let entries: Vec<ObservableEntry> = vec![];
    let output = observer.render(&entries);
    assert!(output.is_empty());
}

#[test]
fn table_test_render_single_counter() {
    let mut counter = Unsigned::new().with_name("test_counter");
    counter.add(42);

    let observer = TableObserver::new();
    let output = observer.render(&counter.expand());

    assert!(output.contains("test_counter"));
    assert!(output.contains("42"));
}

#[test]
fn test_render_compact_single() {
    let mut counter = Unsigned::new().with_name("requests");
    counter.add(100);

    let observer = TableObserver::new().compact(true);
    let output = observer.render(&counter.expand());

    assert!(output.contains("requests: 100"));
}

#[test]
fn test_render_compact_multiple_columns() {
    let mut c1 = Unsigned::new().with_name("a");
    let mut c2 = Unsigned::new().with_name("b");
    let mut c3 = Unsigned::new().with_name("c");
    let mut c4 = Unsigned::new().with_name("d");
    let mut c5 = Unsigned::new().with_name("e");

    c1.add(1);
    c2.add(2);
    c3.add(3);
    c4.add(4);
    c5.add(5);

    let observer = TableObserver::new().compact(true).columns(3);
    let mut entries = c1.expand();
    entries.append(&mut c2.expand());
    entries.append(&mut c3.expand());
    entries.append(&mut c4.expand());
    entries.append(&mut c5.expand());
    let output = observer.render(&entries);

    assert!(output.contains("a: 1"));
    assert!(output.contains("b: 2"));
    assert!(output.contains("c: 3"));
    assert!(output.contains("d: 4"));
    assert!(output.contains("e: 5"));
}

#[test]
fn test_render_compact_with_separator() {
    let mut counter = Unsigned::new().with_name("test");
    counter.add(42);
    let entries = counter.expand();

    let observer = TableObserver::new().compact(true).separator(CompactSeparator::Equals);
    let output = observer.render(&entries);
    assert!(output.contains("test = 42"));

    let observer = TableObserver::new().compact(true).separator(CompactSeparator::Arrow);
    let output = observer.render(&entries);
    assert!(output.contains("test → 42"));

    let observer = TableObserver::new().compact(true).separator(CompactSeparator::Pipe);
    let output = observer.render(&entries);
    assert!(output.contains("test | 42"));
}

#[test]
fn table_test_render_multiple_counters() {
    let mut requests = Unsigned::new().with_name("requests");
    let mut errors = Unsigned::new().with_name("errors");
    let mut balance = Signed::new().with_name("balance");

    requests.add(1000);
    errors.add(5);
    balance.sub(100);

    let observer = TableObserver::new();
    let mut entries = requests.expand();
    entries.append(&mut errors.expand());
    entries.append(&mut balance.expand());
    let output = observer.render(&entries);

    assert!(output.contains("requests"));
    assert!(output.contains("1000"));
    assert!(output.contains("errors"));
    assert!(output.contains("5"));
    assert!(output.contains("balance"));
    assert!(output.contains("-100"));
}

#[test]
fn test_render_with_different_styles() {
    let mut counter = Unsigned::new().with_name("test");
    counter.add(1);
    let entries = counter.expand();

    let styles = [
        TableStyle::Ascii,
        TableStyle::Rounded,
        TableStyle::Sharp,
        TableStyle::Modern,
        TableStyle::Markdown,
        TableStyle::Blank,
    ];

    for style in styles {
        let observer = TableObserver::new().with_style(style);
        let output = observer.render(&entries);
        assert!(!output.is_empty());
    }
}

#[test]
fn test_render_compact_with_styles() {
    let mut counter = Unsigned::new().with_name("test");
    counter.add(1);
    let entries = counter.expand();

    let styles = [TableStyle::Ascii, TableStyle::Rounded, TableStyle::Sharp];

    for style in styles {
        let observer = TableObserver::new().compact(true).columns(2).with_style(style);
        let output = observer.render(&entries);
        assert!(output.contains("test: 1"));
    }
}

#[test]
fn test_render_with_title() {
    let mut counter = Unsigned::new().with_name("metric");
    counter.add(123);

    let observer = TableObserver::new().with_title("My Metrics");
    let output = observer.render(&counter.expand());

    assert!(output.starts_with("My Metrics"));
    assert!(output.contains("metric"));
    assert!(output.contains("123"));
}

#[test]
fn test_render_compact_with_title() {
    let mut counter = Unsigned::new().with_name("metric");
    counter.add(123);

    let observer = TableObserver::new().compact(true).with_title("Compact Metrics");
    let output = observer.render(&counter.expand());

    assert!(output.starts_with("Compact Metrics"));
    assert!(output.contains("metric: 123"));
}

#[test]
fn test_render_unnamed_counter() {
    let mut counter = Unsigned::new();
    counter.add(99);

    let observer = TableObserver::new();
    let output = observer.render(&counter.expand());

    assert!(output.contains("(unnamed)"));
    assert!(output.contains("99"));
}

#[test]
fn test_render_compact_unnamed() {
    let mut counter = Unsigned::new();
    counter.add(99);

    let observer = TableObserver::new().compact(true);
    let output = observer.render(&counter.expand());

    assert!(output.contains("(unnamed): 99"));
}

#[test]
fn test_render_without_header() {
    let mut counter = Unsigned::new().with_name("test");
    counter.add(42);

    let observer = TableObserver::new().with_header(false);
    let output = observer.render(&counter.expand());

    assert!(!output.contains("Name"));
    assert!(!output.contains("Value"));
    assert!(output.contains("test"));
    assert!(output.contains("42"));
}

#[test]
fn test_render_all_counter_types() {
    let mut unsigned = Unsigned::new().with_name("u_metric");
    let mut signed = Signed::new().with_name("s_metric");
    let mut minimum = Minimum::new().with_name("minimum");
    let mut maximum = Maximum::new().with_name("maximum");
    let mut average = Average::new().with_name("average");

    unsigned.add(100);
    signed.sub(50);
    minimum.observe(25);
    maximum.observe(200);
    average.observe(100);
    average.observe(200);

    let observer = TableObserver::new().with_style(TableStyle::Rounded);
    let mut entries = unsigned.expand();
    entries.append(&mut signed.expand());
    entries.append(&mut minimum.expand());
    entries.append(&mut maximum.expand());
    entries.append(&mut average.expand());
    let output = observer.render(&entries);

    assert!(output.contains("u_metric"));
    assert!(output.contains("100"));
    assert!(output.contains("s_metric"));
    assert!(output.contains("-50"));
    assert!(output.contains("minimum"));
    assert!(output.contains("25"));
    assert!(output.contains("maximum"));
    assert!(output.contains("200"));
    assert!(output.contains("average"));
    assert!(output.contains("150"));
}

#[test]
fn test_render_all_counter_types_compact() {
    let mut unsigned = Unsigned::new().with_name("uns");
    let mut signed = Signed::new().with_name("sig");
    let mut minimum = Minimum::new().with_name("min");
    let mut maximum = Maximum::new().with_name("max");
    let mut average = Average::new().with_name("avg");

    unsigned.add(100);
    signed.sub(50);
    minimum.observe(25);
    maximum.observe(200);
    average.observe(150);

    let observer = TableObserver::new().compact(true).columns(3).with_style(
        TableStyle::Rounded,
    );
    let mut entries = unsigned.expand();
    entries.append(&mut signed.expand());
    entries.append(&mut minimum.expand());
    entries.append(&mut maximum.expand());
    entries.append(&mut average.expand());
    let output = observer.render(&entries);

    assert!(output.contains("uns: 100"));
    assert!(output.contains("sig: -50"));
    assert!(output.contains("min: 25"));
    assert!(output.contains("max: 200"));
    assert!(output.contains("avg: 150"));
}

#[test]
fn test_config_builder() {
    let config = TableConfig {
        style: TableStyle::Markdown,
        show_header: false,
        title: Some("Custom Title".to_string()),
        compact: true,
        columns: 4,
        separator: CompactSeparator::Arrow,
        empty_cell: "-".to_string(),
    };

    let observer = TableObserver::with_config(config);
    assert!(observer.config.title.is_some());
    assert!(observer.config.compact);
    assert_eq!(observer.config.columns, 4);
    assert_eq!(observer.config.separator, CompactSeparator::Arrow);
}

#[test]
fn test_empty_cell_placeholder() {
    let mut c1 = Unsigned::new().with_name("a");
    let mut c2 = Unsigned::new().with_name("b");

    c1.add(1);
    c2.add(2);

    let observer = TableObserver::new().compact(true).columns(3).empty_cell("-");

    let mut entries = c1.expand();
    entries.append(&mut c2.expand());
    let output = observer.render(&entries);

    assert!(output.contains("a: 1"));
    assert!(output.contains("b: 2"));
    assert!(output.contains("-"));
}

#[test]
fn test_columns_min_value() {
    let observer = TableObserver::new().columns(0);
    assert_eq!(observer.config.columns, 1);
}
