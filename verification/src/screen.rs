//! What a frame shows: the rows of the table with their stripes and price
//! trends, the header, the scrollbar, or the chart in its popup. The program
//! paints it.

use crate::palette::TableColors;
use crate::price::Price;
use crate::sort::SortColumn;
use crate::ticker::{HrTicker, TickerView};
use vstd::prelude::*;

verus! {

/// How the last price stands against the one before it.
#[derive(Clone, Copy, Debug, PartialEq, Eq, Structural)]
pub enum Trend {
    Up,
    Down,
    Neutral,
}

/// The background of a row: rows alternate, starting with `Normal`.
#[derive(Clone, Copy, Debug, PartialEq, Eq, Structural)]
pub enum Stripe {
    Normal,
    Alternate,
}

/// One row of the table.
#[derive(Debug, PartialEq, Eq)]
pub struct Row {
    pub ticker: HrTicker,
    pub stripe: Stripe,
    /// The colouring of the last-price cell.
    pub trend: Trend,
}

/// What a row holds.
pub struct RowView {
    pub ticker: TickerView,
    pub stripe: Stripe,
    pub trend: Trend,
}

impl View for Row {
    type V = RowView;

    open spec fn view(&self) -> RowView {
        RowView { ticker: self.ticker@, stripe: self.stripe, trend: self.trend }
    }
}

/// One cell of the header.
#[derive(Clone, Copy, Debug, PartialEq, Eq, Structural)]
pub struct HeaderCell {
    pub column: SortColumn,
    /// Set on the column that the rows are sorted by.
    pub highlighted: bool,
}

/// The state of the scrollbar beside the table.
#[derive(Clone, Copy, Debug, PartialEq, Eq, Structural)]
pub struct Scrollbar {
    pub content_length: usize,
    pub position: usize,
}

/// The table view of a frame.
#[derive(Debug, PartialEq, Eq)]
pub struct Table {
    pub header: Vec<HeaderCell>,
    pub rows: Vec<Row>,
    pub selected: Option<usize>,
    pub scrollbar: Scrollbar,
    pub colors: TableColors,
}

/// What a table holds.
pub struct TableView {
    pub header: Seq<HeaderCell>,
    pub rows: Seq<RowView>,
    pub selected: Option<usize>,
    pub scrollbar: Scrollbar,
    pub colors: TableColors,
}

impl View for Table {
    type V = TableView;

    open spec fn view(&self) -> TableView {
        TableView {
            header: self.header@,
            rows: self.rows@.map_values(|r: Row| r@),
            selected: self.selected,
            scrollbar: self.scrollbar,
            colors: self.colors,
        }
    }
}

/// A frame: the chart popup, or the table.
#[derive(Debug, PartialEq, Eq)]
pub enum Screen {
    /// The popup, with the chart once it has been fetched.
    Chart { text: Option<String> },
    Table(Table),
}

/// What a frame holds.
pub enum ScreenView {
    Chart { text: Option<Seq<char>> },
    Table(TableView),
}

impl View for Screen {
    type V = ScreenView;

    open spec fn view(&self) -> ScreenView {
        match self {
            Screen::Chart { text } => ScreenView::Chart {
                text: match text {
                    Some(t) => Some(t@),
                    None => None,
                },
            },
            Screen::Table(table) => ScreenView::Table(table@),
        }
    }
}

/// Up when the last price is above the previous one, down when below,
/// neutral otherwise: also when either is a NaN.
pub open spec fn trend_of(last: Price, previous: Price) -> Trend {
    if previous.value_lt(last) {
        Trend::Up
    } else if last.value_lt(previous) {
        Trend::Down
    } else {
        Trend::Neutral
    }
}

/// The stripe of the row at index `i`.
pub open spec fn stripe_at(i: int) -> Stripe {
    if i % 2 == 0 {
        Stripe::Normal
    } else {
        Stripe::Alternate
    }
}

/// The row shown at index `i` for a record.
pub open spec fn row_of(record: TickerView, i: int) -> RowView {
    RowView {
        ticker: record,
        stripe: stripe_at(i),
        trend: trend_of(record.c, record.previous_price),
    }
}

/// The rows shown for records that are already in display order.
pub open spec fn rows_of(records: Seq<TickerView>) -> Seq<RowView> {
    Seq::new(records.len(), |i: int| row_of(records[i], i))
}

/// The columns of the table, left to right.
pub open spec fn columns() -> Seq<SortColumn> {
    seq![
        SortColumn::Symbol,
        SortColumn::Last,
        SortColumn::PercentChange,
        SortColumn::Open,
        SortColumn::High,
        SortColumn::Low,
        SortColumn::Volume,
    ]
}

/// The header when the rows are sorted by `sorted_by`: one cell per column,
/// that of the sort column highlighted.
pub open spec fn header_of(sorted_by: SortColumn) -> Seq<HeaderCell> {
    Seq::new(
        columns().len(),
        |i: int| HeaderCell { column: columns()[i], highlighted: columns()[i] == sorted_by },
    )
}

/// The margin, band and margin, in percent, that centre a band of `percent`
/// of a length.
pub open spec fn centered(percent: u16) -> (u16, u16, u16) {
    (((100 - percent) / 2) as u16, percent, ((100 - percent) / 2) as u16)
}

/// The trend of a last price against the previous one.
pub fn trend(last: Price, previous: Price) -> (t: Trend)
    ensures
        t == trend_of(last, previous),
{
    if last.gt(previous) {
        Trend::Up
    } else if last.lt(previous) {
        Trend::Down
    } else {
        Trend::Neutral
    }
}

/// The title of a column.
pub fn title(column: SortColumn) -> (t: &'static str)
    ensures
        t@ == match column {
            SortColumn::Symbol => "Symbol"@,
            SortColumn::Last => "Last"@,
            SortColumn::PercentChange => "Percent Change"@,
            SortColumn::Open => "Open"@,
            SortColumn::High => "High"@,
            SortColumn::Low => "Low"@,
            SortColumn::Volume => "Volume"@,
        },
{
    match column {
        SortColumn::Symbol => "Symbol",
        SortColumn::Last => "Last",
        SortColumn::PercentChange => "Percent Change",
        SortColumn::Open => "Open",
        SortColumn::High => "High",
        SortColumn::Low => "Low",
        SortColumn::Volume => "Volume",
    }
}

/// The header cells when the rows are sorted by `sorted_by`.
pub fn header(sorted_by: SortColumn) -> (cells: Vec<HeaderCell>)
    ensures
        cells@ == header_of(sorted_by),
{
    let mut cells: Vec<HeaderCell> = Vec::new();
    let mut column = SortColumn::Symbol;
    let mut i: usize = 0;
    while i < 7
        invariant
            i <= 7,
            i < 7 ==> column == columns()[i as int],
            cells@.len() == i,
            forall|k: int| 0 <= k < i ==> cells@[k] == header_of(sorted_by)[k],
        decreases 7 - i,
    {
        cells.push(HeaderCell { column, highlighted: column == sorted_by });
        column = column.next();
        i += 1;
    }
    assert(cells@ =~= header_of(sorted_by));
    cells
}

/// Turns tickers that are in display order into rows.
pub fn rows(tickers: Vec<HrTicker>) -> (out: Vec<Row>)
    ensures
        out@.map_values(|r: Row| r@) == rows_of(crate::ticker::records_of(tickers@)),
{
    let ghost records = crate::ticker::records_of(tickers@);
    let mut out: Vec<Row> = Vec::new();
    for ticker in it: tickers
        invariant
            it.seq() == tickers@,
            records == crate::ticker::records_of(tickers@),
            out@.len() == it.index(),
            forall|k: int| 0 <= k < out@.len() ==> (#[trigger] out@[k])@ == row_of(records[k], k),
    {
        let stripe = if out.len() % 2 == 0 {
            Stripe::Normal
        } else {
            Stripe::Alternate
        };
        let trend = trend(ticker.c, ticker.previous_price);
        out.push(Row { ticker, stripe, trend });
    }
    assert(out@.map_values(|r: Row| r@) =~= rows_of(records));
    out
}

/// The three percentages that centre a band of `percent` of a length.
pub fn centered_percentages(percent: u16) -> (parts: (u16, u16, u16))
    requires
        percent <= 100,
    ensures
        parts == centered(percent),
{
    let margin: u16 = (100 - percent) / 2;
    (margin, percent, margin)
}

} // verus!
