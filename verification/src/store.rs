//! The ticker store: the latest record of each instrument, in the order in
//! which the instruments were first seen.

use crate::ticker::{merge, merged, records_of, HrTicker, TickerView};
use vstd::prelude::*;

verus! {

/// No two records carry the same symbol.
pub open spec fn distinct_symbols(records: Seq<TickerView>) -> bool {
    forall|i: int, j: int| 0 <= i < j < records.len() ==> records[i].s != records[j].s
}

/// The index of the first record with `symbol`, or the number of records
/// where none has it.
pub open spec fn first_index(records: Seq<TickerView>, symbol: Seq<char>) -> int
    decreases records.len(),
{
    if records.len() == 0 {
        0
    } else if records[0].s == symbol {
        0
    } else {
        1 + first_index(records.drop_first(), symbol)
    }
}

/// Whether some record carries `symbol`.
pub open spec fn holds(records: Seq<TickerView>, symbol: Seq<char>) -> bool {
    first_index(records, symbol) < records.len()
}

/// The records after one update: an unknown symbol is appended as it came,
/// a known one has its record merged in place.
pub open spec fn upserted(records: Seq<TickerView>, update: TickerView) -> Seq<TickerView> {
    let i = first_index(records, update.s);
    if i < records.len() {
        records.update(i, merged(records[i], update))
    } else {
        records.push(update)
    }
}

/// The records after a batch of updates, applied in the order received.
pub open spec fn upserted_all(records: Seq<TickerView>, updates: Seq<TickerView>) -> Seq<
    TickerView,
>
    decreases updates.len(),
{
    if updates.len() == 0 {
        records
    } else {
        upserted_all(upserted(records, updates[0]), updates.drop_first())
    }
}

/// `first_index` is the one index that holds the symbol with none before it.
pub proof fn lemma_first_index(records: Seq<TickerView>, symbol: Seq<char>)
    ensures
        0 <= first_index(records, symbol) <= records.len(),
        holds(records, symbol) ==> records[first_index(records, symbol)].s == symbol,
        forall|j: int| 0 <= j < first_index(records, symbol) ==> records[j].s != symbol,
    decreases records.len(),
{
    if records.len() > 0 && records[0].s != symbol {
        let rest = records.drop_first();
        lemma_first_index(rest, symbol);
        assert forall|j: int| 0 <= j < first_index(records, symbol) implies records[j].s
            != symbol by {
            if j > 0 {
                assert(records[j] == rest[j - 1]);
            }
        }
    }
}

/// An index with the symbol, or the length, before which no record has the
/// symbol, is `first_index`.
pub proof fn lemma_first_index_unique(records: Seq<TickerView>, symbol: Seq<char>, i: int)
    requires
        0 <= i <= records.len(),
        i < records.len() ==> records[i].s == symbol,
        forall|j: int| 0 <= j < i ==> records[j].s != symbol,
    ensures
        first_index(records, symbol) == i,
{
    lemma_first_index(records, symbol);
}

/// A symbol is held exactly when some record carries it.
pub proof fn lemma_holds_iff_exists(records: Seq<TickerView>, symbol: Seq<char>)
    ensures
        holds(records, symbol) <==> exists|i: int|
            0 <= i < records.len() && #[trigger] records[i].s == symbol,
{
    lemma_first_index(records, symbol);
    if holds(records, symbol) {
        assert(records[first_index(records, symbol)].s == symbol);
    }
}

/// An update leaves the symbols of the records already held where they were,
/// and adds its own symbol at the end when it was unknown.
pub proof fn lemma_upserted_symbols(records: Seq<TickerView>, update: TickerView)
    ensures
        upserted(records, update).len() == if holds(records, update.s) {
            records.len()
        } else {
            records.len() + 1
        },
        forall|i: int| 0 <= i < records.len() ==> upserted(records, update)[i].s == records[i].s,
        forall|i: int|
            0 <= i < records.len() && i != first_index(records, update.s) ==> upserted(
                records,
                update,
            )[i] == records[i],
        !holds(records, update.s) ==> upserted(records, update).last() == update,
        first_index(upserted(records, update), update.s) == first_index(records, update.s),
        holds(upserted(records, update), update.s),
{
    lemma_first_index(records, update.s);
    lemma_first_index_unique(
        upserted(records, update),
        update.s,
        first_index(records, update.s),
    );
}

/// Key uniqueness: an update to records with distinct symbols gives records
/// with distinct symbols.
pub proof fn lemma_upserted_distinct(records: Seq<TickerView>, update: TickerView)
    requires
        distinct_symbols(records),
    ensures
        distinct_symbols(upserted(records, update)),
{
    lemma_first_index(records, update.s);
    lemma_upserted_symbols(records, update);
}

/// Key uniqueness over a batch: the symbols stay distinct whatever updates
/// arrive, in whatever order.
pub proof fn lemma_upserted_all_distinct(records: Seq<TickerView>, updates: Seq<TickerView>)
    requires
        distinct_symbols(records),
    ensures
        distinct_symbols(upserted_all(records, updates)),
    decreases updates.len(),
{
    if updates.len() > 0 {
        lemma_upserted_distinct(records, updates[0]);
        lemma_upserted_all_distinct(upserted(records, updates[0]), updates.drop_first());
    }
}

/// Applying the same update twice in a row gives what applying it once
/// gives, except that the record's previous price is then the update's own
/// last price: the value held just before the second application.
pub proof fn lemma_upsert_twice(records: Seq<TickerView>, update: TickerView)
    ensures
        ({
            let once = upserted(records, update);
            let i = first_index(once, update.s);
            &&& 0 <= i < once.len()
            &&& once[i].c == update.c
            &&& upserted(once, update) == once.update(
                i,
                TickerView { previous_price: update.c, ..once[i] },
            )
        }),
{
    lemma_first_index(records, update.s);
    lemma_upserted_symbols(records, update);
}

/// A batch followed by another is the two applied as one.
pub proof fn lemma_upserted_all_concat(
    records: Seq<TickerView>,
    first: Seq<TickerView>,
    second: Seq<TickerView>,
)
    ensures
        upserted_all(records, first + second) == upserted_all(
            upserted_all(records, first),
            second,
        ),
    decreases first.len(),
{
    if first.len() == 0 {
        assert(first + second =~= second);
    } else {
        assert((first + second).drop_first() =~= first.drop_first() + second);
        lemma_upserted_all_concat(upserted(records, first[0]), first.drop_first(), second);
    }
}

/// After an update the store holds, for the update's symbol, what the
/// update brought in every field but the previous price, whatever it held
/// before: the latest write for a symbol is the one seen.
pub proof fn lemma_latest_update_is_held(records: Seq<TickerView>, update: TickerView)
    ensures
        ({
            let after = upserted(records, update);
            let i = first_index(after, update.s);
            &&& 0 <= i < after.len()
            &&& after[i] == TickerView { previous_price: after[i].previous_price, ..update }
            &&& after[i].previous_price == if holds(records, update.s) {
                records[i].c
            } else {
                update.previous_price
            }
        }),
{
    lemma_first_index(records, update.s);
    lemma_upserted_symbols(records, update);
}

/// The last update of a batch is the last to be applied.
pub proof fn lemma_upserted_all_push(
    records: Seq<TickerView>,
    updates: Seq<TickerView>,
    update: TickerView,
)
    ensures
        upserted_all(records, updates.push(update)) == upserted(
            upserted_all(records, updates),
            update,
        ),
{
    let last = seq![update];
    lemma_upserted_all_concat(records, updates, last);
    assert(updates.push(update) =~= updates + last);
    let held = upserted_all(records, updates);
    assert(last.drop_first() =~= Seq::<TickerView>::empty());
    assert(upserted_all(held, last) == upserted_all(upserted(held, last[0]), last.drop_first()));
}

/// The store. It never holds two records with the same symbol.
pub struct Tickers {
    tickers: Vec<HrTicker>,
}

impl View for Tickers {
    type V = Seq<TickerView>;

    closed spec fn view(&self) -> Seq<TickerView> {
        records_of(self.tickers@)
    }
}

impl Tickers {
    #[verifier::type_invariant]
    spec fn distinct(self) -> bool {
        distinct_symbols(records_of(self.tickers@))
    }

    /// An empty store.
    pub fn new() -> (store: Tickers)
        ensures
            store@ == Seq::<TickerView>::empty(),
    {
        let store = Tickers { tickers: Vec::new() };
        assert(store@ =~= Seq::<TickerView>::empty());
        store
    }

    /// The number of instruments held.
    pub fn len(&self) -> (n: usize)
        ensures
            n == self@.len(),
    {
        self.tickers.len()
    }

    /// Applies one update: inserts the record of an unknown symbol, merges
    /// into the record of a known one.
    pub fn upsert(&mut self, update: HrTicker)
        ensures
            final(self)@ == upserted(old(self)@, update@),
            distinct_symbols(final(self)@),
    {
        proof {
            use_type_invariant(&*self);
        }
        let ghost before = self@;
        // The records leave the store while they change, and come back whole.
        let mut held: Vec<HrTicker> = Vec::new();
        core::mem::swap(&mut self.tickers, &mut held);
        let n: usize = held.len();
        let mut i: usize = 0;
        while i < n && held[i].s != update.s
            invariant
                n == held@.len(),
                i <= n,
                records_of(held@) == before,
                forall|j: int| 0 <= j < i ==> before[j].s != update@.s,
            decreases n - i,
        {
            i += 1;
        }
        proof {
            lemma_first_index_unique(before, update@.s, i as int);
            lemma_upserted_distinct(before, update@);
        }
        if i < n {
            let record = merge(&held[i], update);
            held[i] = record;
            assert(records_of(held@) =~= before.update(
                i as int,
                merged(before[i as int], update@),
            ));
        } else {
            held.push(update);
            assert(records_of(held@) =~= before.push(update@));
        }
        core::mem::swap(&mut self.tickers, &mut held);
    }

    /// A copy of the records held, in the order in which their symbols were
    /// first seen.
    pub fn snapshot(&self) -> (copy: Vec<HrTicker>)
        ensures
            records_of(copy@) == self@,
            distinct_symbols(records_of(copy@)),
    {
        proof {
            use_type_invariant(self);
        }
        let mut copy: Vec<HrTicker> = Vec::new();
        let n: usize = self.tickers.len();
        let mut i: usize = 0;
        while i < n
            invariant
                n == self.tickers@.len(),
                i <= n,
                copy@ == self.tickers@.subrange(0, i as int),
            decreases n - i,
        {
            copy.push(self.tickers[i].clone());
            assert(copy@ =~= self.tickers@.subrange(0, i + 1));
            i += 1;
        }
        assert(copy@ =~= self.tickers@);
        copy
    }
}

/// Applies a batch of updates to the store, record by record, in the order
/// received.
pub fn update_tickers(new_tickers: Vec<HrTicker>, tickers: &mut Tickers)
    ensures
        final(tickers)@ == upserted_all(old(tickers)@, records_of(new_tickers@)),
        distinct_symbols(final(tickers)@),
{
    let ghost before = tickers@;
    let ghost updates = records_of(new_tickers@);
    proof {
        use_type_invariant(&*tickers);
        assert(updates.skip(0) =~= updates);
    }
    for update in it: new_tickers
        invariant
            it.seq() == new_tickers@,
            updates == records_of(new_tickers@),
            upserted_all(before, updates) == upserted_all(tickers@, updates.skip(it.index() as int)),
            distinct_symbols(tickers@),
    {
        let ghost todo = updates.skip(it.index() as int);
        assert(update@ == todo[0]);
        assert(todo.drop_first() =~= updates.skip(it.index() + 1));
        tickers.upsert(update);
    }
    assert(updates.skip(updates.len() as int) =~= Seq::<TickerView>::empty());
}

} // verus!
