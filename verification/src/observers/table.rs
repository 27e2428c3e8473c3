//! Table rendering: lays counter observations out as text tables, in a
//! standard three-column form or a compact `name: value` grid.
//!
//! The cell and row computation is specified exactly; drawing the frame
//! around the rows is delegated to the `tabled` crate.

use vstd::prelude::*;

verus! {

use crate::contatori::{entry_model, CounterValue, ObservableEntry};
use crate::text::{value_chars, value_to_string};

/// Available frame styles.
#[derive(Debug, Clone, Copy, PartialEq, Eq, Structural)]
pub enum TableStyle {
    /// Plain ASCII: `+`, `-`, `|`.
    Ascii,
    /// Rounded corners (the default).
    Rounded,
    /// Sharp corners with box-drawing characters.
    Sharp,
    /// Clean modern lines.
    Modern,
    /// Extended ASCII characters.
    Extended,
    /// GitHub-flavored Markdown.
    Markdown,
    /// ReStructuredText.
    ReStructuredText,
    /// Dotted borders.
    Dots,
    /// No borders, just spacing.
    Blank,
    /// Double-line borders; drawn with the ASCII frame.
    Double,
}

impl Default for TableStyle {
    /// The default frame has rounded corners.
    fn default() -> (r: Self)
        ensures
            r == TableStyle::Rounded,
    {
        TableStyle::Rounded
    }
}

/// The separator between name and value in a compact cell.
#[derive(Debug, Clone, Copy, PartialEq, Eq, Structural)]
pub enum CompactSeparator {
    /// `name: value` (the default).
    Colon,
    /// `name = value`.
    Equals,
    /// `name → value`.
    Arrow,
    /// `name | value`.
    Pipe,
    /// `name value`.
    Space,
}

impl Default for CompactSeparator {
    /// The default separator is a colon.
    fn default() -> (r: Self)
        ensures
            r == CompactSeparator::Colon,
    {
        CompactSeparator::Colon
    }
}

/// The characters of a separator.
pub open spec fn separator_chars(sep: CompactSeparator) -> Seq<char> {
    match sep {
        CompactSeparator::Colon => ": "@,
        CompactSeparator::Equals => " = "@,
        CompactSeparator::Arrow => " → "@,
        CompactSeparator::Pipe => " | "@,
        CompactSeparator::Space => " "@,
    }
}

impl CompactSeparator {
    /// The separator as text.
    pub fn as_str(&self) -> (r: &'static str)
        ensures
            r@ == separator_chars(*self),
    {
        match self {
            CompactSeparator::Colon => ": ",
            CompactSeparator::Equals => " = ",
            CompactSeparator::Arrow => " → ",
            CompactSeparator::Pipe => " | ",
            CompactSeparator::Space => " ",
        }
    }
}

/// Configuration of the table observer.
pub struct TableConfig {
    /// The frame style.
    pub style: TableStyle,
    /// Whether the standard form starts with a header row.
    pub show_header: bool,
    /// An optional title printed above the table.
    pub title: Option<String>,
    /// Whether to render the compact grid instead of the standard form.
    pub compact: bool,
    /// The number of grid columns in compact form.
    pub columns: usize,
    /// The separator between name and value in a compact cell.
    pub separator: CompactSeparator,
    /// The placeholder for unfilled grid cells in compact form.
    pub empty_cell: String,
}

impl Default for TableConfig {
    /// Standard form with a header, rounded frame, one compact column, a
    /// colon separator and empty placeholders.
    fn default() -> (r: Self)
        ensures
            r.style == TableStyle::Rounded,
            r.show_header == true,
            r.title == Option::<String>::None,
            r.compact == false,
            r.columns == 1,
            r.separator == CompactSeparator::Colon,
            r.empty_cell@ == Seq::<char>::empty(),
    {
        TableConfig {
            style: TableStyle::Rounded,
            show_header: true,
            title: None,
            compact: false,
            columns: 1,
            separator: CompactSeparator::Colon,
            empty_cell: String::new(),
        }
    }
}

/// The display name of an entry in a table: the name (or `(unnamed)`),
/// with `{key=value}` appended for a labeled entry.
pub open spec fn display_name(
    e: (Seq<char>, Option<(Seq<char>, Seq<char>)>, CounterValue, crate::contatori::MetricKind),
) -> Seq<char> {
    if e.0.len() == 0 {
        "(unnamed)"@
    } else {
        match e.1 {
            None => e.0,
            Some(kv) => e.0 + "{"@ + kv.0 + "="@ + kv.1 + "}"@,
        }
    }
}

/// A compact cell: the display name, the separator, the value.
pub open spec fn compact_cell_chars(
    e: (Seq<char>, Option<(Seq<char>, Seq<char>)>, CounterValue, crate::contatori::MetricKind),
    sep: CompactSeparator,
) -> Seq<char> {
    display_name(e) + separator_chars(sep) + value_chars(e.2)
}

/// The label column of a standard row: `key=value`, or empty.
pub open spec fn label_column_chars(l: Option<(Seq<char>, Seq<char>)>) -> Seq<char> {
    match l {
        None => Seq::empty(),
        Some(kv) => kv.0 + "="@ + kv.1,
    }
}

/// A standard row: name (or `(unnamed)`), label column, value.
pub open spec fn standard_row_chars(
    e: (Seq<char>, Option<(Seq<char>, Seq<char>)>, CounterValue, crate::contatori::MetricKind),
) -> Seq<Seq<char>> {
    seq![
        if e.0.len() == 0 {
            "(unnamed)"@
        } else {
            e.0
        },
        label_column_chars(e.1),
        value_chars(e.2),
    ]
}

/// The rows of a compact grid: cells in reading order, `cols` per row,
/// the last row padded with the placeholder.
pub open spec fn chunk_cells(cells: Seq<Seq<char>>, cols: int, empty: Seq<char>) -> Seq<
    Seq<Seq<char>>,
>
    decreases cells.len(),
{
    if cols < 1 {
        Seq::empty()
    } else if cells.len() == 0 {
        Seq::empty()
    } else if cells.len() < cols {
        seq![cells + Seq::new((cols - cells.len()) as nat, |i: int| empty)]
    } else {
        seq![cells.subrange(0, cols)] + chunk_cells(
            cells.subrange(cols, cells.len() as int),
            cols,
            empty,
        )
    }
}

/// The view of a row of owned cells.
pub open spec fn row_view(row: Seq<String>) -> Seq<Seq<char>> {
    row.map_values(|s: String| s@)
}

/// The view of a list of rows of owned cells.
pub open spec fn rows_view(rows: Seq<Vec<String>>) -> Seq<Seq<Seq<char>>> {
    rows.map_values(|row: Vec<String>| row_view(row@))
}

/// An observer that renders observations as a text table.
pub struct TableObserver {
    /// The observer's configuration.
    pub config: TableConfig,
}

impl TableObserver {
    /// A fresh observer with the default configuration.
    pub fn new() -> (r: TableObserver)
        ensures
            r.config.style == TableStyle::Rounded,
            r.config.show_header == true,
            r.config.title == Option::<String>::None,
            r.config.compact == false,
            r.config.columns == 1,
            r.config.separator == CompactSeparator::Colon,
            r.config.empty_cell@ == Seq::<char>::empty(),
    {
        TableObserver { config: TableConfig::default() }
    }

    /// An observer with the given configuration.
    pub fn with_config(config: TableConfig) -> (r: TableObserver)
        ensures
            r.config == config,
    {
        TableObserver { config }
    }

    /// Sets the frame style.
    pub fn with_style(self, style: TableStyle) -> (r: TableObserver)
        ensures
            r.config == (TableConfig { style, ..self.config }),
    {
        TableObserver { config: TableConfig { style, ..self.config } }
    }

    /// Sets whether the standard form starts with a header row.
    pub fn with_header(self, show: bool) -> (r: TableObserver)
        ensures
            r.config == (TableConfig { show_header: show, ..self.config }),
    {
        TableObserver { config: TableConfig { show_header: show, ..self.config } }
    }

    /// Sets a title, printed above the table.
    pub fn with_title(self, title: &str) -> (r: TableObserver)
        ensures
            (r.config.title matches Some(t) && t@ == title@),
            r.config == (TableConfig { title: r.config.title, ..self.config }),
    {
        TableObserver { config: TableConfig { title: Some(title.to_owned()), ..self.config } }
    }

    /// Switches between compact grid and standard form.
    pub fn compact(self, enabled: bool) -> (r: TableObserver)
        ensures
            r.config == (TableConfig { compact: enabled, ..self.config }),
    {
        TableObserver { config: TableConfig { compact: enabled, ..self.config } }
    }

    /// Sets the number of grid columns; values below one are raised to one.
    pub fn columns(self, count: usize) -> (r: TableObserver)
        ensures
            r.config == (TableConfig {
                columns: if count < 1 {
                    1
                } else {
                    count
                },
                ..self.config
            }),
    {
        let clamped = if count < 1 {
            1
        } else {
            count
        };
        TableObserver { config: TableConfig { columns: clamped, ..self.config } }
    }

    /// Sets the separator between name and value in a compact cell.
    pub fn separator(self, sep: CompactSeparator) -> (r: TableObserver)
        ensures
            r.config == (TableConfig { separator: sep, ..self.config }),
    {
        TableObserver { config: TableConfig { separator: sep, ..self.config } }
    }

    /// Sets the placeholder for unfilled grid cells.
    pub fn empty_cell(self, placeholder: &str) -> (r: TableObserver)
        ensures
            r.config.empty_cell@ == placeholder@,
            r.config == (TableConfig { empty_cell: r.config.empty_cell, ..self.config }),
    {
        TableObserver {
            config: TableConfig { empty_cell: placeholder.to_owned(), ..self.config },
        }
    }

    /// The compact cells of a batch of entries, one per entry, in order.
    pub fn build_cells(&self, entries: &Vec<ObservableEntry>) -> (r: Vec<String>)
        ensures
            r@.len() == entries@.len(),
            forall|i: int|
                0 <= i < entries@.len() ==> (#[trigger] r@[i])@ == compact_cell_chars(
                    entry_model(entries@[i]),
                    self.config.separator,
                ),
    {
        let mut r: Vec<String> = Vec::new();
        let n = entries.len();
        let mut i: usize = 0;
        while i < n
            invariant
                n == entries@.len(),
                i <= n,
                r@.len() == i,
                forall|j: int|
                    0 <= j < i ==> (#[trigger] r@[j])@ == compact_cell_chars(
                        entry_model(entries@[j]),
                        self.config.separator,
                    ),
            decreases n - i,
        {
            let entry = &entries[i];
            let mut cell = display_name_of(entry);
            cell.append(self.config.separator.as_str());
            let value = value_to_string(&entry.value);
            cell.append(value.as_str());
            r.push(cell);
            i = i + 1;
        }
        r
    }

    /// The standard rows of a batch of entries, one per entry, in order;
    /// the header row is not included here.
    pub fn build_rows(&self, entries: &Vec<ObservableEntry>) -> (r: Vec<Vec<String>>)
        ensures
            r@.len() == entries@.len(),
            forall|i: int|
                0 <= i < entries@.len() ==> row_view((#[trigger] r@[i])@) == standard_row_chars(
                    entry_model(entries@[i]),
                ),
    {
        let mut r: Vec<Vec<String>> = Vec::new();
        let n = entries.len();
        let mut i: usize = 0;
        while i < n
            invariant
                n == entries@.len(),
                i <= n,
                r@.len() == i,
                forall|j: int|
                    0 <= j < i ==> row_view((#[trigger] r@[j])@) == standard_row_chars(
                        entry_model(entries@[j]),
                    ),
            decreases n - i,
        {
            let entry = &entries[i];
            let name: String = if entry.name.as_str().is_empty() {
                ("(unnamed)").to_owned()
            } else {
                entry.name.clone()
            };
            let label: String = match &entry.label {
                None => String::new(),
                Some(kv) => {
                    let mut s = kv.0.clone();
                    s.append("=");
                    s.append(kv.1.as_str());
                    s
                },
            };
            let value = value_to_string(&entry.value);
            let mut row: Vec<String> = Vec::new();
            row.push(name);
            row.push(label);
            row.push(value);
            proof {
                assert(row_view(row@) =~= standard_row_chars(entry_model(entries@[i as int])));
            }
            r.push(row);
            i = i + 1;
        }
        r
    }

    /// Renders a batch of entries.
    ///
    /// In compact form an empty batch renders to the empty string; when a
    /// title is set, the output starts with the title and a line feed.
    pub fn render(&self, entries: &Vec<ObservableEntry>) -> (r: String)
        ensures
            self.config.compact && entries@.len() == 0 ==> r@ == Seq::<char>::empty(),
            !(self.config.compact && entries@.len() == 0) && self.config.title is Some
                ==> r@.len() > self.config.title->Some_0@.len() && r@.subrange(
                0,
                self.config.title->Some_0@.len() as int + 1,
            ) == self.config.title->Some_0@ + "\n"@,
    {
        let body: String;
        if self.config.compact {
            let cells = self.build_cells(entries);
            if cells.len() == 0 {
                return String::new();
            }
            let cols = if self.config.columns < 1 {
                1
            } else {
                self.config.columns
            };
            let rows = chunk_rows(cells, cols, &self.config.empty_cell);
            proof {
                lemma_chunk_width(row_view(cells@), cols as int, self.config.empty_cell@);
                assert forall|i: int| 0 <= i < rows@.len() implies (#[trigger] rows@[i])@.len()
                    == rows@[0]@.len() by {
                    assert(rows_view(rows@)[i].len() == cols);
                    assert(rows_view(rows@)[0].len() == cols);
                }
                if rows@.len() > 0 {
                    assert(rows_view(rows@)[0].len() == cols);
                }
            }
            body = draw_table(rows, self.config.style);
        } else {
            let mut rows: Vec<Vec<String>> = Vec::new();
            if self.config.show_header {
                let mut header: Vec<String> = Vec::new();
                header.push(("Name").to_owned());
                header.push(("Labels").to_owned());
                header.push(("Value").to_owned());
                rows.push(header);
            }
            let mut data = self.build_rows(entries);
            rows.append(&mut data);
            proof {
                assert forall|i: int| 0 <= i < rows@.len() implies (#[trigger] rows@[i])@.len()
                    == rows@[0]@.len() by {
                    assert(row_view(rows@[i]@).len() == 3);
                    assert(row_view(rows@[0]@).len() == 3);
                }
                if rows@.len() > 0 {
                    assert(row_view(rows@[0]@).len() == 3);
                }
            }
            body = draw_table(rows, self.config.style);
        }
        match &self.config.title {
            Some(title) => {
                let mut out = title.clone();
                out.append("\n");
                out.append(body.as_str());
                proof {
                    reveal_strlit("\n");
                    assert(out@ == title@ + "\n"@ + body@);
                    assert(out@.subrange(0, title@.len() as int + 1) =~= title@ + "\n"@);
                }
                out
            },
            None => body,
        }
    }
}

/// Every row of a compact grid has exactly `cols` cells.
proof fn lemma_chunk_width(cells: Seq<Seq<char>>, cols: int, empty: Seq<char>)
    requires
        cols >= 1,
    ensures
        forall|i: int|
            0 <= i < chunk_cells(cells, cols, empty).len() ==> (#[trigger] chunk_cells(
                cells,
                cols,
                empty,
            )[i]).len() == cols,
    decreases cells.len(),
{
    let c = chunk_cells(cells, cols, empty);
    if cells.len() == 0 {
    } else if cells.len() < cols {
        assert(c.len() == 1);
        assert(c[0] == cells + Seq::new((cols - cells.len()) as nat, |i: int| empty));
        assert(c[0].len() == cols);
    } else {
        let rest = chunk_cells(cells.subrange(cols, cells.len() as int), cols, empty);
        lemma_chunk_width(cells.subrange(cols, cells.len() as int), cols, empty);
        assert(c == seq![cells.subrange(0, cols)] + rest);
        assert(c[0] == cells.subrange(0, cols));
        assert forall|i: int| 0 <= i < c.len() implies (#[trigger] c[i]).len() == cols by {
            if i > 0 {
                assert(c[i] == rest[i - 1]);
            }
        }
    }
}

/// Splits cells into rows of `cols`, padding the last row with the
/// placeholder.
fn chunk_rows(cells: Vec<String>, cols: usize, empty: &String) -> (r: Vec<Vec<String>>)
    requires
        cols >= 1,
    ensures
        rows_view(r@) == chunk_cells(row_view(cells@), cols as int, empty@),
    decreases cells@.len(),
{
    let ghost orig = row_view(cells@);
    if cells.len() == 0 {
        let r: Vec<Vec<String>> = Vec::new();
        proof {
            assert(rows_view(r@) =~= chunk_cells(orig, cols as int, empty@));
        }
        return r;
    }
    let mut cells = cells;
    let take = if cols < cells.len() {
        cols
    } else {
        cells.len()
    };
    let mut row: Vec<String> = Vec::new();
    let mut i: usize = 0;
    while i < take
        invariant
            take <= orig.len(),
            i <= take,
            row@.len() == i,
            cells@.len() == orig.len() - i,
            forall|j: int| 0 <= j < i ==> (#[trigger] row@[j])@ == orig[j],
            forall|j: int| 0 <= j < cells@.len() ==> (#[trigger] cells@[j])@ == orig[j + i],
        decreases take - i,
    {
        let cell = cells.remove(0);
        row.push(cell);
        i = i + 1;
    }
    while row.len() < cols
        invariant
            take <= row@.len() <= cols,
            forall|j: int| 0 <= j < take ==> (#[trigger] row@[j])@ == orig[j],
            forall|j: int| take <= j < row@.len() ==> (#[trigger] row@[j])@ == empty@,
        decreases cols - row@.len(),
    {
        row.push(empty.clone());
    }
    let rest = chunk_rows(cells, cols, empty);
    let mut r: Vec<Vec<String>> = Vec::new();
    r.push(row);
    let mut rest = rest;
    r.append(&mut rest);
    proof {
        if orig.len() < cols as int {
            assert(row_view(r@[0]@) =~= orig + Seq::new(
                (cols - orig.len()) as nat,
                |k: int| empty@,
            ));
            assert(rows_view(r@) =~= chunk_cells(orig, cols as int, empty@));
        } else {
            assert(row_view(r@[0]@) =~= orig.subrange(0, cols as int));
            assert(row_view(cells@) =~= orig.subrange(cols as int, orig.len() as int));
            assert(rows_view(r@) =~= chunk_cells(orig, cols as int, empty@));
        }
    }
    r
}

/// The display name of one entry, as an owned string.
fn display_name_of(entry: &ObservableEntry) -> (r: String)
    ensures
        r@ == display_name(entry_model(*entry)),
{
    if entry.name.as_str().is_empty() {
        ("(unnamed)").to_owned()
    } else {
        match &entry.label {
            None => entry.name.clone(),
            Some(kv) => {
                let mut s = entry.name.clone();
                s.append("{");
                s.append(kv.0.as_str());
                s.append("=");
                s.append(kv.1.as_str());
                s.append("}");
                s
            },
        }
    }
}

#[verifier::external_type_specification]
#[verifier::external_body]
pub struct ExBuilder(tabled::builder::Builder);

#[verifier::external_type_specification]
#[verifier::external_body]
pub struct ExTable(tabled::Table);

/// The records a table builder holds, row by row.
pub uninterp spec fn builder_rows(b: tabled::builder::Builder) -> Seq<Seq<Seq<char>>>;

/// The record width a table builder has settled on.
pub uninterp spec fn builder_columns(b: tabled::builder::Builder) -> int;

/// The records a built table holds, row by row.
pub uninterp spec fn table_rows(t: tabled::Table) -> Seq<Seq<Seq<char>>>;

/// Relies on tabled's `Builder::new`: a builder with no records.
#[verifier::external_body]
fn builder_new() -> (r: tabled::builder::Builder)
    ensures
        builder_rows(r) == Seq::<Seq<Seq<char>>>::empty(),
        builder_columns(r) == 0,
{
    tabled::builder::Builder::new()
}

/// Relies on tabled's `Builder::push_record`: appends one record; records
/// of the width the builder has settled on are stored as given.
#[verifier::external_body]
fn builder_push_record(b: &mut tabled::builder::Builder, record: Vec<String>)
    requires
        record@.len() > 0,
        builder_rows(*old(b)).len() == 0 || record@.len() == builder_columns(*old(b)),
    ensures
        builder_rows(*final(b)) == builder_rows(*old(b)).push(row_view(record@)),
        builder_columns(*final(b)) == record@.len(),
{
    b.push_record(record);
}

/// Relies on tabled's `Builder::build`: the table holds the builder's
/// records.
#[verifier::external_body]
fn builder_build(b: tabled::builder::Builder) -> (r: tabled::Table)
    ensures
        table_rows(r) == builder_rows(b),
{
    b.build()
}

/// Relies on tabled's `Style::ascii`: styling changes the frame only.
#[verifier::external_body]
fn style_ascii(t: &mut tabled::Table)
    ensures
        table_rows(*final(t)) == table_rows(*old(t)),
{
    t.with(tabled::settings::Style::ascii());
}

/// Relies on tabled's `Style::rounded`: styling changes the frame only.
#[verifier::external_body]
fn style_rounded(t: &mut tabled::Table)
    ensures
        table_rows(*final(t)) == table_rows(*old(t)),
{
    t.with(tabled::settings::Style::rounded());
}

/// Relies on tabled's `Style::sharp`: styling changes the frame only.
#[verifier::external_body]
fn style_sharp(t: &mut tabled::Table)
    ensures
        table_rows(*final(t)) == table_rows(*old(t)),
{
    t.with(tabled::settings::Style::sharp());
}

/// Relies on tabled's `Style::modern`: styling changes the frame only.
#[verifier::external_body]
fn style_modern(t: &mut tabled::Table)
    ensures
        table_rows(*final(t)) == table_rows(*old(t)),
{
    t.with(tabled::settings::Style::modern());
}

/// Relies on tabled's `Style::extended`: styling changes the frame only.
#[verifier::external_body]
fn style_extended(t: &mut tabled::Table)
    ensures
        table_rows(*final(t)) == table_rows(*old(t)),
{
    t.with(tabled::settings::Style::extended());
}

/// Relies on tabled's `Style::markdown`: styling changes the frame only.
#[verifier::external_body]
fn style_markdown(t: &mut tabled::Table)
    ensures
        table_rows(*final(t)) == table_rows(*old(t)),
{
    t.with(tabled::settings::Style::markdown());
}

/// Relies on tabled's `Style::re_structured_text`: styling changes the
/// frame only.
#[verifier::external_body]
fn style_re_structured_text(t: &mut tabled::Table)
    ensures
        table_rows(*final(t)) == table_rows(*old(t)),
{
    t.with(tabled::settings::Style::re_structured_text());
}

/// Relies on tabled's `Style::dots`: styling changes the frame only.
#[verifier::external_body]
fn style_dots(t: &mut tabled::Table)
    ensures
        table_rows(*final(t)) == table_rows(*old(t)),
{
    t.with(tabled::settings::Style::dots());
}

/// Relies on tabled's `Style::blank`: styling changes the frame only.
#[verifier::external_body]
fn style_blank(t: &mut tabled::Table)
    ensures
        table_rows(*final(t)) == table_rows(*old(t)),
{
    t.with(tabled::settings::Style::blank());
}

/// Relies on tabled's `Display` implementation, through std's `ToString`:
/// draws the frame around the table's records.
#[verifier::external_body]
fn table_to_string(t: &tabled::Table) -> (r: String) {
    t.to_string()
}

/// Applies the configured frame style; the double-line style is drawn
/// with the ASCII frame.
fn apply_style(t: &mut tabled::Table, style: TableStyle)
    ensures
        table_rows(*final(t)) == table_rows(*old(t)),
{
    match style {
        TableStyle::Ascii => style_ascii(t),
        TableStyle::Rounded => style_rounded(t),
        TableStyle::Sharp => style_sharp(t),
        TableStyle::Modern => style_modern(t),
        TableStyle::Extended => style_extended(t),
        TableStyle::Markdown => style_markdown(t),
        TableStyle::ReStructuredText => style_re_structured_text(t),
        TableStyle::Dots => style_dots(t),
        TableStyle::Blank => style_blank(t),
        TableStyle::Double => style_ascii(t),
    }
}

/// Frames rows of one common positive width in the given style.
fn draw_table(rows: Vec<Vec<String>>, style: TableStyle) -> (r: String)
    requires
        forall|i: int| 0 <= i < rows@.len() ==> (#[trigger] rows@[i])@.len() == rows@[0]@.len(),
        rows@.len() > 0 ==> rows@[0]@.len() > 0,
{
    let ghost all = rows_view(rows@);
    let mut rows = rows;
    let mut builder = builder_new();
    let ghost width = if rows@.len() > 0 { rows@[0]@.len() as int } else { 0int };
    let mut k: usize = 0;
    let n = rows.len();
    while k < n
        invariant
            n == rows@.len(),
            k <= n,
            forall|i: int| 0 <= i < rows@.len() ==> (#[trigger] rows@[i])@.len() == width,
            n > 0 ==> width > 0,
            builder_rows(builder) == all.subrange(0, k as int),
            k > 0 ==> builder_columns(builder) == width,
            all == rows_view(rows@),
        decreases n - k,
    {
        let mut row: Vec<String> = Vec::new();
        let source = &rows[k];
        let m = source.len();
        let mut j: usize = 0;
        while j < m
            invariant
                m == source@.len(),
                j <= m,
                row@.len() == j,
                forall|i: int| 0 <= i < j ==> (#[trigger] row@[i])@ == source@[i]@,
            decreases m - j,
        {
            row.push(source[j].clone());
            j = j + 1;
        }
        proof {
            assert(row_view(row@) =~= row_view(rows@[k as int]@));
            assert(all.subrange(0, k as int + 1) =~= all.subrange(0, k as int).push(
                row_view(rows@[k as int]@),
            ));
        }
        builder_push_record(&mut builder, row);
        k = k + 1;
    }
    let mut table = builder_build(builder);
    apply_style(&mut table, style);
    table_to_string(&table)
}

} // verus!
