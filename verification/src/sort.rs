//! The order of the rows: a stable sort by one column, turned over as a
//! whole when the order is descending.

use crate::price::Price;
use crate::text::{lemma_text_le_total, lemma_text_le_transitive, str_le, text_le};
use crate::ticker::{records_of, HrTicker, TickerView};
use vstd::prelude::*;
use vstd::seq_lib::to_multiset_insert;

verus! {

/// The direction of the sort.
#[derive(Clone, Copy, Debug, PartialEq, Eq, Structural)]
pub enum SortOrder {
    Ascending,
    Descending,
}

/// The column that the rows are sorted by.
#[derive(Clone, Copy, Debug, PartialEq, Eq, Structural)]
pub enum SortColumn {
    Symbol,
    Last,
    PercentChange,
    Open,
    High,
    Low,
    Volume,
}

impl SortOrder {
    /// The other direction.
    pub open spec fn flipped(self) -> SortOrder {
        match self {
            SortOrder::Ascending => SortOrder::Descending,
            SortOrder::Descending => SortOrder::Ascending,
        }
    }

    /// The other direction.
    pub fn toggle(self) -> (r: SortOrder)
        ensures
            r == self.flipped(),
    {
        match self {
            SortOrder::Ascending => SortOrder::Descending,
            SortOrder::Descending => SortOrder::Ascending,
        }
    }
}

impl SortColumn {
    /// The column after this one in the cycle Symbol, Last, PercentChange,
    /// Open, High, Low, Volume, and Symbol again.
    pub open spec fn following(self) -> SortColumn {
        match self {
            SortColumn::Symbol => SortColumn::Last,
            SortColumn::Last => SortColumn::PercentChange,
            SortColumn::PercentChange => SortColumn::Open,
            SortColumn::Open => SortColumn::High,
            SortColumn::High => SortColumn::Low,
            SortColumn::Low => SortColumn::Volume,
            SortColumn::Volume => SortColumn::Symbol,
        }
    }

    /// The column after this one in the cycle.
    pub fn next(self) -> (r: SortColumn)
        ensures
            r == self.following(),
    {
        match self {
            SortColumn::Symbol => SortColumn::Last,
            SortColumn::Last => SortColumn::PercentChange,
            SortColumn::PercentChange => SortColumn::Open,
            SortColumn::Open => SortColumn::High,
            SortColumn::High => SortColumn::Low,
            SortColumn::Low => SortColumn::Volume,
            SortColumn::Volume => SortColumn::Symbol,
        }
    }
}

/// The price that a numeric column sorts by.
pub open spec fn price_key(column: SortColumn, row: TickerView) -> Price {
    match column {
        SortColumn::PercentChange => row.P,
        SortColumn::Open => row.o,
        SortColumn::High => row.h,
        SortColumn::Low => row.l,
        _ => row.c,
    }
}

/// Row `a` may stand before row `b` when sorting by `column`: symbols and
/// volumes go by their text, the other columns by number with every NaN
/// last.
pub open spec fn in_order(column: SortColumn, a: TickerView, b: TickerView) -> bool {
    match column {
        SortColumn::Symbol => text_le(a.s, b.s),
        SortColumn::Volume => text_le(a.v, b.v),
        _ => price_key(column, a).sorts_le(price_key(column, b)),
    }
}

/// Neither row must stand before the other.
pub open spec fn ties(column: SortColumn, a: TickerView, b: TickerView) -> bool {
    in_order(column, a, b) && in_order(column, b, a)
}

/// The rows that tie with `row`, as a predicate.
pub open spec fn ties_with(column: SortColumn, row: TickerView) -> spec_fn(TickerView) -> bool {
    |other: TickerView| ties(column, other, row)
}

/// Each row may stand before every later one.
pub open spec fn is_sorted(column: SortColumn, rows: Seq<TickerView>) -> bool {
    forall|i: int, j: int| 0 <= i < j < rows.len() ==> in_order(column, rows[i], rows[j])
}

/// Where `row` enters sorted rows: the index of the first row that it may
/// stand before, or their number where there is none.
pub open spec fn slot(column: SortColumn, row: TickerView, rows: Seq<TickerView>) -> int
    decreases rows.len(),
{
    if rows.len() == 0 || in_order(column, row, rows[0]) {
        0
    } else {
        1 + slot(column, row, rows.drop_first())
    }
}

/// Sorted rows with `row` entered at its slot: behind the rows that must
/// precede it, ahead of those it ties with.
pub open spec fn placed(column: SortColumn, row: TickerView, rows: Seq<TickerView>) -> Seq<
    TickerView,
> {
    rows.insert(slot(column, row, rows), row)
}

/// The stable ascending sort: each row enters the sorted rest, so that of
/// two rows that tie the one that came first stays first.
pub open spec fn sorted_by(column: SortColumn, rows: Seq<TickerView>) -> Seq<TickerView>
    decreases rows.len(),
{
    if rows.len() == 0 {
        rows
    } else {
        placed(column, rows[0], sorted_by(column, rows.drop_first()))
    }
}

/// The rows as shown: sorted ascending, and for a descending order the
/// whole sequence turned over afterwards.
pub open spec fn arranged(column: SortColumn, order: SortOrder, rows: Seq<TickerView>) -> Seq<
    TickerView,
> {
    match order {
        SortOrder::Ascending => sorted_by(column, rows),
        SortOrder::Descending => sorted_by(column, rows).reverse(),
    }
}

/// Any two rows are comparable in any column.
pub proof fn lemma_in_order_total(column: SortColumn, a: TickerView, b: TickerView)
    ensures
        in_order(column, a, b) || in_order(column, b, a),
{
    lemma_text_le_total(a.s, b.s);
    lemma_text_le_total(a.v, b.v);
}

/// The order of a column is transitive.
pub proof fn lemma_in_order_transitive(
    column: SortColumn,
    a: TickerView,
    b: TickerView,
    c: TickerView,
)
    requires
        in_order(column, a, b),
        in_order(column, b, c),
    ensures
        in_order(column, a, c),
{
    match column {
        SortColumn::Symbol => lemma_text_le_transitive(a.s, b.s, c.s),
        SortColumn::Volume => lemma_text_le_transitive(a.v, b.v, c.v),
        _ => {},
    }
}

/// The slot lies within the rows, no row before it may follow `row`, and
/// the row at it may.
pub proof fn lemma_slot(column: SortColumn, row: TickerView, rows: Seq<TickerView>)
    ensures
        0 <= slot(column, row, rows) <= rows.len(),
        forall|j: int| 0 <= j < slot(column, row, rows) ==> !in_order(column, row, rows[j]),
        slot(column, row, rows) < rows.len() ==> in_order(
            column,
            row,
            rows[slot(column, row, rows)],
        ),
    decreases rows.len(),
{
    if rows.len() > 0 && !in_order(column, row, rows[0]) {
        let rest = rows.drop_first();
        lemma_slot(column, row, rest);
        assert forall|j: int| 0 <= j < slot(column, row, rows) implies !in_order(
            column,
            row,
            rows[j],
        ) by {
            if j > 0 {
                assert(rows[j] == rest[j - 1]);
            }
        }
    }
}

/// An index with those properties is the slot.
pub proof fn lemma_slot_unique(column: SortColumn, row: TickerView, rows: Seq<TickerView>, i: int)
    requires
        0 <= i <= rows.len(),
        forall|j: int| 0 <= j < i ==> !in_order(column, row, rows[j]),
        i < rows.len() ==> in_order(column, row, rows[i]),
    ensures
        slot(column, row, rows) == i,
{
    lemma_slot(column, row, rows);
}

/// Entering a row keeps sorted rows sorted.
pub proof fn lemma_placed_sorted(column: SortColumn, row: TickerView, rows: Seq<TickerView>)
    requires
        is_sorted(column, rows),
    ensures
        is_sorted(column, placed(column, row, rows)),
{
    lemma_slot(column, row, rows);
    let k = slot(column, row, rows);
    let out = placed(column, row, rows);
    assert forall|i: int, j: int| 0 <= i < j < out.len() implies in_order(
        column,
        out[i],
        out[j],
    ) by {
        if j == k {
            lemma_in_order_total(column, row, rows[i]);
        } else if i == k {
            if k < j - 1 {
                lemma_in_order_transitive(column, row, rows[k], rows[j - 1]);
            }
        }
    }
}

/// Sorting neither adds nor drops a row.
pub proof fn lemma_sorted_by_len(column: SortColumn, rows: Seq<TickerView>)
    ensures
        sorted_by(column, rows).len() == rows.len(),
    decreases rows.len(),
{
    if rows.len() > 0 {
        lemma_sorted_by_len(column, rows.drop_first());
        lemma_slot(column, rows[0], sorted_by(column, rows.drop_first()));
    }
}

/// The result of the sort is sorted.
pub proof fn lemma_sorted_by_sorted(column: SortColumn, rows: Seq<TickerView>)
    ensures
        is_sorted(column, sorted_by(column, rows)),
    decreases rows.len(),
{
    if rows.len() > 0 {
        lemma_sorted_by_sorted(column, rows.drop_first());
        lemma_placed_sorted(column, rows[0], sorted_by(column, rows.drop_first()));
    }
}

/// The result of the sort holds the same rows, each as often as before.
pub proof fn lemma_sorted_by_permutes(column: SortColumn, rows: Seq<TickerView>)
    ensures
        sorted_by(column, rows).to_multiset() == rows.to_multiset(),
    decreases rows.len(),
{
    if rows.len() > 0 {
        let rest = rows.drop_first();
        let sorted_rest = sorted_by(column, rest);
        lemma_sorted_by_permutes(column, rest);
        lemma_slot(column, rows[0], sorted_rest);
        to_multiset_insert(sorted_rest, slot(column, rows[0], sorted_rest), rows[0]);
        to_multiset_insert(rest, 0, rows[0]);
        assert(rest.insert(0, rows[0]) =~= rows);
    }
}

/// The sort is stable: the rows that tie with a given row come out in the
/// order in which they went in.
pub proof fn lemma_sorted_by_stable(column: SortColumn, rows: Seq<TickerView>, row: TickerView)
    ensures
        sorted_by(column, rows).filter(ties_with(column, row)) == rows.filter(
            ties_with(column, row),
        ),
    decreases rows.len(),
{
    if rows.len() > 0 {
        let p = ties_with(column, row);
        let first = rows[0];
        let rest = rows.drop_first();
        let sorted_rest = sorted_by(column, rest);
        lemma_sorted_by_stable(column, rest, row);
        lemma_sorted_by_sorted(column, rest);
        lemma_slot(column, first, sorted_rest);
        let k = slot(column, first, sorted_rest);
        let head = sorted_rest.subrange(0, k);
        let tail = sorted_rest.subrange(k, sorted_rest.len() as int);
        assert(sorted_rest =~= head + tail);
        assert(sorted_by(column, rows) =~= head + (seq![first] + tail));
        assert(rows =~= seq![first] + rest);
        Seq::filter_distributes_over_add(head, tail, p);
        Seq::filter_distributes_over_add(head, seq![first] + tail, p);
        tail.lemma_filter_prepend(first, p);
        rest.lemma_filter_prepend(first, p);
        if p(first) {
            // No row ahead of the slot ties with `first`, so none ties with `row`.
            assert forall|i: int| 0 <= i < head.len() implies !p(#[trigger] head[i]) by {
                if p(head[i]) {
                    lemma_in_order_transitive(column, first, row, head[i]);
                }
            }
            lemma_filter_none(head, p);
            assert(head.filter(p) + (seq![first] + tail.filter(p)) =~= seq![first] + (head.filter(
                p,
            ) + tail.filter(p)));
        } else {
            assert(Seq::<TickerView>::empty() + tail.filter(p) =~= tail.filter(p));
        }
    }
}

/// A filter that no row passes leaves nothing.
proof fn lemma_filter_none(rows: Seq<TickerView>, p: spec_fn(TickerView) -> bool)
    requires
        forall|i: int| 0 <= i < rows.len() ==> !p(#[trigger] rows[i]),
    ensures
        rows.filter(p) == Seq::<TickerView>::empty(),
    decreases rows.len(),
{
    reveal(Seq::filter);
    if rows.len() > 0 {
        let front = rows.drop_last();
        assert forall|i: int| 0 <= i < front.len() implies !p(#[trigger] front[i]) by {
            assert(front[i] == rows[i]);
        }
        lemma_filter_none(front, p);
    }
}

/// Filtering the reverse gives the reverse of the filtered rows.
proof fn lemma_filter_reverse(rows: Seq<TickerView>, p: spec_fn(TickerView) -> bool)
    ensures
        rows.reverse().filter(p) == rows.filter(p).reverse(),
    decreases rows.len(),
{
    reveal(Seq::filter);
    if rows.len() > 0 {
        let front = rows.drop_last();
        let last = rows.last();
        lemma_filter_reverse(front, p);
        assert(rows.reverse() =~= seq![last] + front.reverse());
        front.reverse().lemma_filter_prepend(last, p);
        if p(last) {
            assert(front.filter(p).push(last).reverse() =~= seq![last] + front.filter(p).reverse());
        } else {
            assert(Seq::<TickerView>::empty() + front.filter(p).reverse() =~= front.filter(
                p,
            ).reverse());
        }
    }
}

/// The descending order is the ascending order turned over, not a sort by
/// a reversed comparison: rows that tie come out last-in first.
pub proof fn lemma_descending_is_ascending_reversed(
    column: SortColumn,
    rows: Seq<TickerView>,
    row: TickerView,
)
    ensures
        arranged(column, SortOrder::Descending, rows) == arranged(
            column,
            SortOrder::Ascending,
            rows,
        ).reverse(),
        arranged(column, SortOrder::Descending, rows).filter(ties_with(column, row))
            == rows.filter(ties_with(column, row)).reverse(),
{
    lemma_sorted_by_stable(column, rows, row);
    lemma_filter_reverse(sorted_by(column, rows), ties_with(column, row));
}

/// Whether `a` may stand before `b` when sorting by `column`.
pub fn precedes(column: SortColumn, a: &HrTicker, b: &HrTicker) -> (r: bool)
    ensures
        r == in_order(column, a@, b@),
{
    match column {
        SortColumn::Symbol => str_le(a.s.as_str(), b.s.as_str()),
        SortColumn::Last => a.c.sort_le(b.c),
        SortColumn::PercentChange => a.P.sort_le(b.P),
        SortColumn::Open => a.o.sort_le(b.o),
        SortColumn::High => a.h.sort_le(b.h),
        SortColumn::Low => a.l.sort_le(b.l),
        SortColumn::Volume => str_le(a.v.as_str(), b.v.as_str()),
    }
}

/// Finds the slot of `row` in sorted rows by halving.
fn find_slot(column: SortColumn, row: &HrTicker, rows: &Vec<HrTicker>) -> (k: usize)
    requires
        is_sorted(column, records_of(rows@)),
    ensures
        k == slot(column, row@, records_of(rows@)),
        k <= rows@.len(),
{
    let ghost recs = records_of(rows@);
    let mut lo: usize = 0;
    let mut hi: usize = rows.len();
    while lo < hi
        invariant
            recs == records_of(rows@),
            is_sorted(column, recs),
            lo <= hi <= recs.len(),
            forall|j: int| 0 <= j < lo ==> !in_order(column, row@, recs[j]),
            forall|j: int| hi <= j < recs.len() ==> in_order(column, row@, recs[j]),
        decreases hi - lo,
    {
        let mid: usize = lo + (hi - lo) / 2;
        if precedes(column, row, &rows[mid]) {
            assert forall|j: int| mid <= j < recs.len() implies in_order(
                column,
                row@,
                recs[j],
            ) by {
                if mid < j {
                    lemma_in_order_transitive(column, row@, recs[mid as int], recs[j]);
                }
            }
            hi = mid;
        } else {
            assert forall|j: int| 0 <= j < mid + 1 implies !in_order(column, row@, recs[j]) by {
                if j < mid && in_order(column, row@, recs[j]) {
                    lemma_in_order_transitive(column, row@, recs[j], recs[mid as int]);
                }
            }
            lo = mid + 1;
        }
    }
    proof {
        lemma_slot_unique(column, row@, recs, lo as int);
    }
    lo
}

/// Sorts the rows by `column`, stably, and turns the whole sequence over
/// when `order` is descending.
pub fn sort_rows(column: SortColumn, order: SortOrder, tickers: &mut Vec<HrTicker>)
    ensures
        records_of(final(tickers)@) == arranged(column, order, records_of(old(tickers)@)),
{
    let ghost rows = records_of(tickers@);
    let mut sorted: Vec<HrTicker> = Vec::new();
    assert(rows.skip(rows.len() as int) =~= Seq::<TickerView>::empty());
    assert(records_of(sorted@) =~= Seq::<TickerView>::empty());
    while tickers.len() > 0
        invariant
            tickers@.len() <= rows.len(),
            records_of(tickers@) == rows.subrange(0, tickers@.len() as int),
            records_of(sorted@) == sorted_by(column, rows.skip(tickers@.len() as int)),
        decreases tickers@.len(),
    {
        let ghost left = tickers@.len() as int;
        let ghost done = rows.skip(left);
        let ghost before = records_of(sorted@);
        let ghost held = tickers@;
        let row = tickers.pop().unwrap();
        proof {
            assert(records_of(held)[left - 1] == row@);
            assert(rows.subrange(0, left)[left - 1] == rows[left - 1]);
            lemma_sorted_by_sorted(column, done);
            assert(rows.skip(left - 1)[0] == row@);
            assert(rows.skip(left - 1).drop_first() =~= done);
        }
        let k = find_slot(column, &row, &sorted);
        sorted.insert(k, row);
        proof {
            assert(records_of(sorted@) =~= before.insert(k as int, row@));
            assert(records_of(tickers@) =~= rows.subrange(0, left - 1));
        }
    }
    assert(rows.skip(0) =~= rows);
    match order {
        SortOrder::Ascending => {
            core::mem::swap(tickers, &mut sorted);
        },
        SortOrder::Descending => {
            let ghost up = records_of(sorted@);
            proof {
                lemma_sorted_by_len(column, rows);
            }
            while sorted.len() > 0
                invariant
                    up == sorted_by(column, rows),
                    sorted@.len() + tickers@.len() == up.len(),
                    records_of(sorted@) == up.subrange(0, sorted@.len() as int),
                    forall|i: int|
                        0 <= i < tickers@.len() ==> (#[trigger] tickers@[i])@ == up[up.len() - 1
                            - i],
                decreases sorted@.len(),
            {
                let ghost m = sorted@.len() as int;
                let ghost held = sorted@;
                let row = sorted.pop().unwrap();
                proof {
                    assert(records_of(held)[m - 1] == row@);
                    assert(records_of(sorted@) =~= up.subrange(0, m - 1));
                }
                tickers.push(row);
            }
            assert(records_of(tickers@) =~= up.reverse());
        },
    }
}

} // verus!
