//! The view session: sort column and order, selection, scroll position,
//! palette and chart popup, each changed by a key; and the frame that it
//! derives from a snapshot of the store.

use crate::input::{Effect, Event, Key, KeyKind};
use crate::palette::{palette, palette_at, TableColors, PALETTE_COUNT};
use crate::screen::{
    header, header_of, rows, rows_of, Screen, ScreenView, Scrollbar, Table, TableView,
};
use crate::sort::{arranged, sort_rows, SortColumn, SortOrder};
use crate::ticker::{records_of, HrTicker, TickerView};
use vstd::arithmetic::div_mod::{lemma_mod_add_multiples_vanish, lemma_small_mod};
use vstd::prelude::*;

verus! {

/// The height of a row, in lines.
pub const ITEM_HEIGHT: usize = 1;

/// Whether the session goes on.
#[derive(Clone, Copy, Debug, PartialEq, Eq, Structural)]
pub enum Mode {
    Running,
    Quit,
}

/// The chart popup.
#[derive(Debug)]
pub enum Chart {
    /// The table is shown.
    Closed,
    /// The popup is open and waits for the fetch started under `ticket`.
    Loading { ticket: u64 },
    /// The popup shows the fetched chart.
    Ready { text: String },
    /// The popup is open and empty: the fetch failed.
    Failed,
}

/// What the chart popup holds.
pub enum ChartView {
    Closed,
    Loading { ticket: u64 },
    Ready { text: Seq<char> },
    Failed,
}

impl View for Chart {
    type V = ChartView;

    open spec fn view(&self) -> ChartView {
        match self {
            Chart::Closed => ChartView::Closed,
            Chart::Loading { ticket } => ChartView::Loading { ticket: *ticket },
            Chart::Ready { text } => ChartView::Ready { text: text@ },
            Chart::Failed => ChartView::Failed,
        }
    }
}

/// The session.
pub struct App {
    mode: Mode,
    selected: Option<usize>,
    scroll_position: usize,
    colors: TableColors,
    color_index: usize,
    ticker_length: usize,
    chart: Chart,
    next_ticket: u64,
    sort_order: SortOrder,
    sort_column: SortColumn,
}

/// The state of a session.
pub struct AppView {
    pub mode: Mode,
    /// The index of the selected row.
    pub selected: Option<usize>,
    pub scroll_position: usize,
    /// The colours in use: those of the palette at `color_index` once
    /// `set_colors` has run.
    pub colors: TableColors,
    pub color_index: usize,
    /// The number of rows of the latest frame.
    pub ticker_length: usize,
    pub chart: ChartView,
    /// The ticket of the next chart fetch.
    pub next_ticket: u64,
    pub sort_order: SortOrder,
    pub sort_column: SortColumn,
}

/// The ticket after `ticket`.
pub open spec fn ticket_after(ticket: u64) -> u64 {
    if ticket == u64::MAX {
        0
    } else {
        (ticket + 1) as u64
    }
}

impl AppView {
    /// The palette index names a palette.
    pub open spec fn wf(self) -> bool {
        self.color_index < PALETTE_COUNT
    }

    /// The state at start: sorted by symbol, ascending, nothing selected,
    /// the first palette, the table shown.
    pub open spec fn initial() -> AppView {
        AppView {
            mode: Mode::Running,
            selected: None,
            scroll_position: 0,
            colors: TableColors::of(palette_at(0)),
            color_index: 0,
            ticker_length: 25,
            chart: ChartView::Closed,
            next_ticket: 0,
            sort_order: SortOrder::Ascending,
            sort_column: SortColumn::Symbol,
        }
    }

    /// Whether the chart popup is open.
    pub open spec fn show_chart(self) -> bool {
        !(self.chart is Closed)
    }

    /// The selection after a step down: the row below, from the last row
    /// the first; the first row where none was selected; 0 where a row was
    /// selected and there are none; nothing where nothing was selected and
    /// there are none.
    pub open spec fn selected_below(self) -> Option<usize> {
        match self.selected {
            Some(i) => if self.ticker_length == 0 || i >= self.ticker_length - 1 {
                Some(0)
            } else {
                Some((i + 1) as usize)
            },
            None => if self.ticker_length == 0 {
                None
            } else {
                Some(0)
            },
        }
    }

    /// The selection after a step up: the row above, from the first row the
    /// last; otherwise as for a step down.
    pub open spec fn selected_above(self) -> Option<usize> {
        match self.selected {
            Some(i) => if self.ticker_length == 0 {
                Some(0)
            } else if i == 0 {
                Some((self.ticker_length - 1) as usize)
            } else {
                Some((i - 1) as usize)
            },
            None => if self.ticker_length == 0 {
                None
            } else {
                Some(0)
            },
        }
    }

    /// After `next`: the selection a step down, the scroll position one
    /// line on, held at the largest number.
    pub open spec fn after_next(self) -> AppView {
        AppView {
            selected: self.selected_below(),
            scroll_position: self.scroll_position.saturating_add(ITEM_HEIGHT),
            ..self
        }
    }

    /// After `previous`: the selection a step up, the scroll position one
    /// line back, held at 0.
    pub open spec fn after_previous(self) -> AppView {
        AppView {
            selected: self.selected_above(),
            scroll_position: self.scroll_position.saturating_sub(ITEM_HEIGHT),
            ..self
        }
    }

    /// After `n` times `next`.
    pub open spec fn after_nexts(self, n: nat) -> AppView
        decreases n,
    {
        if n == 0 {
            self
        } else {
            self.after_next().after_nexts((n - 1) as nat)
        }
    }

    /// After `n` times `previous`.
    pub open spec fn after_previouses(self, n: nat) -> AppView
        decreases n,
    {
        if n == 0 {
            self
        } else {
            self.after_previous().after_previouses((n - 1) as nat)
        }
    }

    /// After `next_color`: the next palette of the cycle.
    pub open spec fn after_next_color(self) -> AppView {
        AppView { color_index: ((self.color_index + 1) % (PALETTE_COUNT as int)) as usize, ..self }
    }

    /// After `previous_color`: the palette before in the cycle.
    pub open spec fn after_previous_color(self) -> AppView {
        AppView {
            color_index: ((self.color_index + PALETTE_COUNT - 1) % (PALETTE_COUNT as int)) as usize,
            ..self
        }
    }

    /// After `set_colors`: the colours of the palette at the palette index.
    pub open spec fn with_colors(self) -> AppView {
        AppView { colors: TableColors::of(palette_at(self.color_index as int)), ..self }
    }

    /// After `next_sort_column`.
    pub open spec fn after_next_sort_column(self) -> AppView {
        AppView { sort_column: self.sort_column.following(), ..self }
    }

    /// After `toggle_sort_order`.
    pub open spec fn after_toggle_sort_order(self) -> AppView {
        AppView { sort_order: self.sort_order.flipped(), ..self }
    }

    /// After `quit`.
    pub open spec fn after_quit(self) -> AppView {
        AppView { mode: Mode::Quit, ..self }
    }

    /// After `open_chart`: from the table, the popup waiting under a fresh
    /// ticket; with the popup open, no change.
    pub open spec fn after_open_chart(self) -> AppView {
        if self.show_chart() {
            self
        } else {
            AppView {
                chart: ChartView::Loading { ticket: self.next_ticket },
                next_ticket: ticket_after(self.next_ticket),
                ..self
            }
        }
    }

    /// After `close_chart`: the table, whatever the popup held.
    pub open spec fn after_close_chart(self) -> AppView {
        AppView { chart: ChartView::Closed, ..self }
    }

    /// After the fetch started under `ticket` has ended: the popup that
    /// waits under that ticket takes the chart, or stands empty where there
    /// is none; any other state stays as it is.
    pub open spec fn after_fetch(self, ticket: u64, outcome: Option<Seq<char>>) -> AppView {
        if self.chart == (ChartView::Loading { ticket }) {
            AppView {
                chart: match outcome {
                    Some(text) => ChartView::Ready { text },
                    None => ChartView::Failed,
                },
                ..self
            }
        } else {
            self
        }
    }

    /// After a key press. With the popup open any key closes it. Otherwise
    /// `q` and Esc quit, `j` and Down step down, `k` and Up step up, `l` and
    /// Right take the next palette, `h` and Left the one before, Tab the
    /// next sort column, `r` turns the order, Enter opens the chart.
    pub open spec fn after_key(self, key: Key) -> AppView {
        if self.show_chart() {
            self.after_close_chart()
        } else if key == Key::Char('q') || key == Key::Esc {
            self.after_quit()
        } else if key == Key::Char('j') || key == Key::Down {
            self.after_next()
        } else if key == Key::Char('k') || key == Key::Up {
            self.after_previous()
        } else if key == Key::Char('l') || key == Key::Right {
            self.after_next_color()
        } else if key == Key::Char('h') || key == Key::Left {
            self.after_previous_color()
        } else if key == Key::Tab {
            self.after_next_sort_column()
        } else if key == Key::Char('r') {
            self.after_toggle_sort_order()
        } else if key == Key::Enter {
            self.after_open_chart()
        } else {
            self
        }
    }

    /// What a key press asks of the program: a chart fetch when Enter opens
    /// the popup, nothing otherwise.
    pub open spec fn effect_of_key(self, key: Key) -> Effect {
        if !self.show_chart() && key == Key::Enter {
            Effect::FetchChart { ticket: self.next_ticket }
        } else {
            Effect::Nothing
        }
    }

    /// After an event: only the press of a key counts.
    pub open spec fn after_event(self, event: Event) -> AppView {
        match event {
            Event::Key { key, kind: KeyKind::Press } => self.after_key(key),
            _ => self,
        }
    }

    /// What an event asks of the program.
    pub open spec fn effect_of_event(self, event: Event) -> Effect {
        match event {
            Event::Key { key, kind: KeyKind::Press } => self.effect_of_key(key),
            _ => Effect::Nothing,
        }
    }

    /// After `ui`: with the table shown the colours are set, with the popup
    /// open nothing changes.
    pub open spec fn after_ui(self) -> AppView {
        if self.show_chart() {
            self
        } else {
            self.with_colors()
        }
    }

    /// The table of rows shown for `records`.
    pub open spec fn table_of(self, records: Seq<TickerView>) -> TableView {
        TableView {
            header: header_of(self.sort_column),
            rows: rows_of(arranged(self.sort_column, self.sort_order, records)),
            selected: self.selected,
            scrollbar: Scrollbar {
                content_length: (self.ticker_length * ITEM_HEIGHT) as usize,
                position: self.scroll_position,
            },
            colors: self.colors,
        }
    }

    /// What `ui` shows for `records`: the popup with the chart once there
    /// is one, or the table in the colours just set.
    pub open spec fn screen_of(self, records: Seq<TickerView>) -> ScreenView {
        match self.chart {
            ChartView::Closed => ScreenView::Table(self.with_colors().table_of(records)),
            ChartView::Ready { text } => ScreenView::Chart { text: Some(text) },
            _ => ScreenView::Chart { text: None },
        }
    }

    /// After `frame`: the row count is that of the records, then as after
    /// `ui`.
    pub open spec fn after_frame(self, rows: nat) -> AppView {
        AppView { ticker_length: rows as usize, ..self }.after_ui()
    }
}

/// Every step keeps the palette index within the palettes.
pub proof fn lemma_steps_keep_wf(v: AppView, key: Key, ticket: u64, outcome: Option<Seq<char>>)
    requires
        v.wf(),
    ensures
        AppView::initial().wf(),
        v.after_key(key).wf(),
        v.after_fetch(ticket, outcome).wf(),
        v.after_ui().wf(),
{
}

/// After `k` steps down from row `i` of `n` rows, row `(i + k) mod n` is
/// selected.
pub proof fn lemma_nexts_selected(v: AppView, i: usize, k: nat)
    requires
        v.selected == Some(i),
        i < v.ticker_length,
    ensures
        v.after_nexts(k).ticker_length == v.ticker_length,
        v.after_nexts(k).selected == Some(((i + k) % (v.ticker_length as int)) as usize),
    decreases k,
{
    let n = v.ticker_length as int;
    if k == 0 {
        lemma_small_mod(i as nat, n as nat);
    } else {
        let w = v.after_next();
        if i == n - 1 {
            lemma_nexts_selected(w, 0, (k - 1) as nat);
            lemma_mod_add_multiples_vanish(k - 1, n);
        } else {
            lemma_nexts_selected(w, (i + 1) as usize, (k - 1) as nat);
        }
    }
}

/// Selection wraparound: with `n` rows and one of them selected, `n` steps
/// down bring the selection back to where it was.
pub proof fn lemma_next_wraps_around(v: AppView, i: usize)
    requires
        v.selected == Some(i),
        i < v.ticker_length,
    ensures
        v.after_nexts(v.ticker_length as nat).selected == v.selected,
{
    let n = v.ticker_length as int;
    lemma_nexts_selected(v, i, n as nat);
    lemma_mod_add_multiples_vanish(i as int, n);
    lemma_small_mod(i as nat, n as nat);
}

/// After `k` steps up from row `i` of `n` rows, row `(i - k) mod n` is
/// selected.
pub proof fn lemma_previouses_selected(v: AppView, i: usize, k: nat)
    requires
        v.selected == Some(i),
        i < v.ticker_length,
    ensures
        v.after_previouses(k).ticker_length == v.ticker_length,
        v.after_previouses(k).selected == Some(((i - k) % (v.ticker_length as int)) as usize),
    decreases k,
{
    let n = v.ticker_length as int;
    if k == 0 {
        lemma_small_mod(i as nat, n as nat);
    } else {
        let w = v.after_previous();
        if i == 0 {
            lemma_previouses_selected(w, (n - 1) as usize, (k - 1) as nat);
            lemma_mod_add_multiples_vanish(-k, n);
        } else {
            lemma_previouses_selected(w, (i - 1) as usize, (k - 1) as nat);
        }
    }
}

/// With `n` rows and one of them selected, `n` steps up bring the
/// selection back to where it was.
pub proof fn lemma_previous_wraps_around(v: AppView, i: usize)
    requires
        v.selected == Some(i),
        i < v.ticker_length,
    ensures
        v.after_previouses(v.ticker_length as nat).selected == v.selected,
{
    let n = v.ticker_length as int;
    lemma_previouses_selected(v, i, n as nat);
    lemma_mod_add_multiples_vanish(i - n, n);
    lemma_small_mod(i as nat, n as nat);
}

/// With no rows and nothing selected, steps select nothing.
pub proof fn lemma_empty_table_selects_nothing(v: AppView, k: nat)
    requires
        v.selected is None,
        v.ticker_length == 0,
    ensures
        v.after_nexts(k).selected is None,
        v.after_previouses(k).selected is None,
    decreases k,
{
    if k > 0 {
        lemma_empty_table_selects_nothing(v.after_next(), (k - 1) as nat);
        lemma_empty_table_selects_nothing(v.after_previous(), (k - 1) as nat);
    }
}

/// Modal discard: once the popup is closed, the end of a fetch changes
/// nothing, whatever its ticket and its result.
pub proof fn lemma_closed_popup_discards_fetch(
    v: AppView,
    ticket: u64,
    outcome: Option<Seq<char>>,
)
    ensures
        v.after_close_chart().after_fetch(ticket, outcome) == v.after_close_chart(),
        !v.show_chart() ==> v.after_fetch(ticket, outcome) == v,
{
}

/// A fetch that was started for a popup closed since is discarded by the
/// popup opened after it, which waits under another ticket.
pub proof fn lemma_stale_fetch_is_discarded(v: AppView, outcome: Option<Seq<char>>)
    requires
        !v.show_chart(),
    ensures
        ({
            let reopened = v.after_open_chart().after_close_chart().after_open_chart();
            reopened.after_fetch(v.next_ticket, outcome) == reopened
        }),
{
}

/// Four steps through the palettes, or seven through the sort columns, or
/// two turns of the order, come back to the start.
pub proof fn lemma_cycles_close(v: AppView)
    requires
        v.wf(),
    ensures
        v.after_next_color().after_next_color().after_next_color().after_next_color() == v,
        v.after_next_color().after_previous_color() == v,
        v.after_previous_color().after_next_color() == v,
        v.after_next_sort_column().after_next_sort_column().after_next_sort_column()
            .after_next_sort_column().after_next_sort_column().after_next_sort_column()
            .after_next_sort_column() == v,
        v.after_toggle_sort_order().after_toggle_sort_order() == v,
{
}

impl View for App {
    type V = AppView;

    closed spec fn view(&self) -> AppView {
        AppView {
            mode: self.mode,
            selected: self.selected,
            scroll_position: self.scroll_position,
            colors: self.colors,
            color_index: self.color_index,
            ticker_length: self.ticker_length,
            chart: self.chart@,
            next_ticket: self.next_ticket,
            sort_order: self.sort_order,
            sort_column: self.sort_column,
        }
    }
}

impl App {
    #[verifier::type_invariant]
    spec fn palette_in_range(self) -> bool {
        self.color_index < PALETTE_COUNT
    }

    /// A session at its start.
    pub fn new() -> (app: App)
        ensures
            app@ == AppView::initial(),
    {
        App {
            mode: Mode::Running,
            selected: None,
            scroll_position: 0,
            colors: TableColors::new(palette(0)),
            color_index: 0,
            ticker_length: 25,
            chart: Chart::Closed,
            next_ticket: 0,
            sort_order: SortOrder::Ascending,
            sort_column: SortColumn::Symbol,
        }
    }

    /// Whether the session goes on: false once a key has quit it.
    pub fn is_running(&self) -> (b: bool)
        ensures
            b == (self@.mode == Mode::Running),
    {
        self.mode != Mode::Quit
    }

    /// Moves the selection a step down.
    pub fn next(&mut self)
        ensures
            final(self)@ == old(self)@.after_next(),
    {
        proof {
            use_type_invariant(&*self);
        }
        let i: Option<usize> = match self.selected {
            Some(i) => {
                if self.ticker_length == 0 || i >= self.ticker_length - 1 {
                    Some(0)
                } else {
                    Some(i + 1)
                }
            },
            None => {
                if self.ticker_length == 0 {
                    None
                } else {
                    Some(0)
                }
            },
        };
        self.selected = i;
        self.scroll_position = self.scroll_position.saturating_add(ITEM_HEIGHT);
    }

    /// Moves the selection a step up.
    pub fn previous(&mut self)
        ensures
            final(self)@ == old(self)@.after_previous(),
    {
        proof {
            use_type_invariant(&*self);
        }
        let i: Option<usize> = match self.selected {
            Some(i) => {
                if self.ticker_length == 0 {
                    Some(0)
                } else if i == 0 {
                    Some(self.ticker_length - 1)
                } else {
                    Some(i - 1)
                }
            },
            None => {
                if self.ticker_length == 0 {
                    None
                } else {
                    Some(0)
                }
            },
        };
        self.selected = i;
        self.scroll_position = self.scroll_position.saturating_sub(ITEM_HEIGHT);
    }

    /// Takes the next palette.
    pub fn next_color(&mut self)
        ensures
            final(self)@ == old(self)@.after_next_color(),
            final(self)@.wf(),
    {
        proof {
            use_type_invariant(&*self);
        }
        self.color_index = (self.color_index + 1) % PALETTE_COUNT;
    }

    /// Takes the palette before.
    pub fn previous_color(&mut self)
        ensures
            final(self)@ == old(self)@.after_previous_color(),
            final(self)@.wf(),
    {
        proof {
            use_type_invariant(&*self);
        }
        let count: usize = PALETTE_COUNT;
        self.color_index = (self.color_index + count - 1) % count;
    }

    /// Sets the colours to those of the palette at the palette index.
    pub fn set_colors(&mut self)
        ensures
            final(self)@ == old(self)@.with_colors(),
    {
        proof {
            use_type_invariant(&*self);
        }
        self.colors = TableColors::new(palette(self.color_index));
    }

    /// Puts the tickers in the order of the sort column, and turns them
    /// over when the order is descending. The session stays as it is.
    pub fn sort_tickers(&mut self, tickers: &mut Vec<HrTicker>)
        ensures
            final(self)@ == old(self)@,
            records_of(final(tickers)@) == arranged(
                old(self)@.sort_column,
                old(self)@.sort_order,
                records_of(old(tickers)@),
            ),
    {
        sort_rows(self.sort_column, self.sort_order, tickers);
    }

    /// Takes the next sort column.
    pub fn next_sort_column(&mut self)
        ensures
            final(self)@ == old(self)@.after_next_sort_column(),
    {
        proof {
            use_type_invariant(&*self);
        }
        self.sort_column = self.sort_column.next();
    }

    /// Turns the sort order.
    pub fn toggle_sort_order(&mut self)
        ensures
            final(self)@ == old(self)@.after_toggle_sort_order(),
    {
        proof {
            use_type_invariant(&*self);
        }
        self.sort_order = self.sort_order.toggle();
    }

    /// Ends the session.
    pub fn quit(&mut self)
        ensures
            final(self)@ == old(self)@.after_quit(),
    {
        proof {
            use_type_invariant(&*self);
        }
        self.mode = Mode::Quit;
    }

    /// Opens the chart popup. From the table it returns the ticket under
    /// which the program is to fetch the chart; with the popup open it
    /// changes nothing and returns none.
    pub fn open_chart(&mut self) -> (ticket: Option<u64>)
        ensures
            final(self)@ == old(self)@.after_open_chart(),
            ticket == if old(self)@.show_chart() {
                None
            } else {
                Some(old(self)@.next_ticket)
            },
    {
        proof {
            use_type_invariant(&*self);
        }
        if self.show_chart() {
            None
        } else {
            let ticket: u64 = self.next_ticket;
            self.chart = Chart::Loading { ticket };
            self.next_ticket = if ticket == u64::MAX {
                0
            } else {
                ticket + 1
            };
            Some(ticket)
        }
    }

    /// Closes the chart popup and drops what it held or waited for.
    pub fn close_chart(&mut self)
        ensures
            final(self)@ == old(self)@.after_close_chart(),
    {
        proof {
            use_type_invariant(&*self);
        }
        self.chart = Chart::Closed;
    }

    /// Takes the result of the chart fetch started under `ticket`: the
    /// chart, or none where the fetch failed. It is dropped unless the
    /// popup still waits under that ticket.
    pub fn get_chart_data(&mut self, ticket: u64, outcome: Option<String>)
        ensures
            final(self)@ == old(self)@.after_fetch(
                ticket,
                match outcome {
                    Some(text) => Some(text@),
                    None => None,
                },
            ),
    {
        proof {
            use_type_invariant(&*self);
        }
        let awaited: bool = match &self.chart {
            Chart::Loading { ticket: t } => *t == ticket,
            _ => false,
        };
        if awaited {
            self.chart = match outcome {
                Some(text) => Chart::Ready { text },
                None => Chart::Failed,
            };
        }
    }

    /// Handles the press of a key.
    pub fn handle_key_press(&mut self, key: Key) -> (effect: Effect)
        ensures
            final(self)@ == old(self)@.after_key(key),
            effect == old(self)@.effect_of_key(key),
    {
        let mut effect = Effect::Nothing;
        if self.show_chart() {
            self.close_chart();
        } else if key == Key::Char('q') || key == Key::Esc {
            self.quit();
        } else if key == Key::Char('j') || key == Key::Down {
            self.next();
        } else if key == Key::Char('k') || key == Key::Up {
            self.previous();
        } else if key == Key::Char('l') || key == Key::Right {
            self.next_color();
        } else if key == Key::Char('h') || key == Key::Left {
            self.previous_color();
        } else if key == Key::Tab {
            self.next_sort_column();
        } else if key == Key::Char('r') {
            self.toggle_sort_order();
        } else if key == Key::Enter {
            match self.open_chart() {
                Some(ticket) => {
                    effect = Effect::FetchChart { ticket };
                },
                None => {},
            }
        }
        effect
    }

    /// Handles what the terminal reported: the press of a key goes to
    /// `handle_key_press`, anything else is passed over.
    pub fn handle_events(&mut self, event: Event) -> (effect: Effect)
        ensures
            final(self)@ == old(self)@.after_event(event),
            effect == old(self)@.effect_of_event(event),
    {
        match event {
            Event::Key { key, kind: KeyKind::Press } => self.handle_key_press(key),
            _ => Effect::Nothing,
        }
    }

    /// The table for the given tickers: sorted, striped, with trends.
    pub fn render_table(&mut self, tickers: Vec<HrTicker>) -> (table: Table)
        ensures
            final(self)@ == old(self)@,
            table@ == old(self)@.table_of(records_of(tickers@)),
    {
        let mut sorted = tickers;
        self.sort_tickers(&mut sorted);
        Table {
            header: header(self.sort_column),
            rows: rows(sorted),
            selected: self.selected,
            scrollbar: Scrollbar {
                content_length: self.ticker_length * ITEM_HEIGHT,
                position: self.scroll_position,
            },
            colors: self.colors,
        }
    }

    /// What to show for the given tickers: the chart popup while it is
    /// open, else the table, in the colours of the palette.
    pub fn ui(&mut self, tickers: Vec<HrTicker>) -> (screen: Screen)
        ensures
            final(self)@ == old(self)@.after_ui(),
            screen@ == old(self)@.screen_of(records_of(tickers@)),
    {
        if self.show_chart() {
            Screen::Chart { text: self.fetched_chart() }
        } else {
            self.set_colors();
            Screen::Table(self.render_table(tickers))
        }
    }

    /// One frame: takes the number of tickers as the row count, then
    /// derives what to show.
    pub fn frame(&mut self, tickers: Vec<HrTicker>) -> (screen: Screen)
        ensures
            final(self)@ == old(self)@.after_frame(tickers@.len()),
            screen@ == (AppView { ticker_length: tickers@.len() as usize, ..old(self)@ }).screen_of(
                records_of(tickers@),
            ),
    {
        proof {
            use_type_invariant(&*self);
        }
        self.ticker_length = tickers.len();
        self.ui(tickers)
    }

    /// Whether the chart popup is open.
    pub fn show_chart(&self) -> (b: bool)
        ensures
            b == self@.show_chart(),
    {
        match &self.chart {
            Chart::Closed => false,
            _ => true,
        }
    }

    /// The fetched chart, once there is one.
    pub fn fetched_chart(&self) -> (text: Option<String>)
        ensures
            match text {
                Some(t) => self@.chart == (ChartView::Ready { text: t@ }),
                None => !(self@.chart is Ready),
            },
    {
        match &self.chart {
            Chart::Ready { text } => Some(text.clone()),
            _ => None,
        }
    }

    /// The ticket of the fetch that the popup waits for.
    pub fn chart_data(&self) -> (ticket: Option<u64>)
        ensures
            match ticket {
                Some(t) => self@.chart == (ChartView::Loading { ticket: t }),
                None => !(self@.chart is Loading),
            },
    {
        match &self.chart {
            Chart::Loading { ticket } => Some(*ticket),
            _ => None,
        }
    }

    /// The index of the selected row.
    pub fn selected(&self) -> (i: Option<usize>)
        ensures
            i == self@.selected,
    {
        self.selected
    }

    pub fn scroll_position(&self) -> (p: usize)
        ensures
            p == self@.scroll_position,
    {
        self.scroll_position
    }

    pub fn colors(&self) -> (c: TableColors)
        ensures
            c == self@.colors,
    {
        self.colors
    }

    pub fn color_index(&self) -> (i: usize)
        ensures
            i == self@.color_index,
            i < PALETTE_COUNT,
    {
        proof {
            use_type_invariant(self);
        }
        self.color_index
    }

    pub fn ticker_length(&self) -> (n: usize)
        ensures
            n == self@.ticker_length,
    {
        self.ticker_length
    }

    pub fn sort_order(&self) -> (o: SortOrder)
        ensures
            o == self@.sort_order,
    {
        self.sort_order
    }

    pub fn sort_column(&self) -> (c: SortColumn)
        ensures
            c == self@.sort_column,
    {
        self.sort_column
    }
}

} // verus!
