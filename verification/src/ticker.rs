//! One instrument's latest statistics, and the rule that merges an update
//! into the record already held.

use crate::price::Price;
use vstd::prelude::*;

verus! {

/// The statistics of one instrument over the rolling window, under the
/// feed's single-letter field names.
#[allow(non_snake_case)]
#[derive(Debug, PartialEq, Eq)]
pub struct HrTicker {
    /// Event type.
    pub e: String,
    /// Event time.
    pub E: u64,
    /// Symbol: the key of the record.
    pub s: String,
    /// Price change.
    pub p: Price,
    /// Price change percent.
    pub P: Price,
    /// Weighted average price.
    pub w: Price,
    /// Last price.
    pub c: Price,
    /// Last quantity.
    pub Q: Price,
    /// Open price.
    pub o: Price,
    /// High price.
    pub h: Price,
    /// Low price.
    pub l: Price,
    /// Total traded base asset volume, as display text.
    pub v: String,
    /// Total traded quote asset volume, as display text.
    pub q: String,
    /// Statistics open time.
    pub O: u64,
    /// Statistics close time.
    pub C: u64,
    /// First trade id.
    pub F: u64,
    /// Last trade id.
    pub L: u64,
    /// Total number of trades.
    pub n: u64,
    /// The last price that the record held before its latest update.
    pub previous_price: Price,
}

/// What a record holds, with each text as its characters.
#[allow(non_snake_case)]
pub struct TickerView {
    pub e: Seq<char>,
    pub E: u64,
    pub s: Seq<char>,
    pub p: Price,
    pub P: Price,
    pub w: Price,
    pub c: Price,
    pub Q: Price,
    pub o: Price,
    pub h: Price,
    pub l: Price,
    pub v: Seq<char>,
    pub q: Seq<char>,
    pub O: u64,
    pub C: u64,
    pub F: u64,
    pub L: u64,
    pub n: u64,
    pub previous_price: Price,
}

impl View for HrTicker {
    type V = TickerView;

    open spec fn view(&self) -> TickerView {
        TickerView {
            e: self.e@,
            E: self.E,
            s: self.s@,
            p: self.p,
            P: self.P,
            w: self.w,
            c: self.c,
            Q: self.Q,
            o: self.o,
            h: self.h,
            l: self.l,
            v: self.v@,
            q: self.q@,
            O: self.O,
            C: self.C,
            F: self.F,
            L: self.L,
            n: self.n,
            previous_price: self.previous_price,
        }
    }
}

/// The records of a sequence of tickers.
pub open spec fn records_of(tickers: Seq<HrTicker>) -> Seq<TickerView> {
    tickers.map_values(|t: HrTicker| t@)
}

impl Clone for HrTicker {
    fn clone(&self) -> (r: Self)
        ensures
            r == *self,
    {
        HrTicker {
            e: self.e.clone(),
            E: self.E,
            s: self.s.clone(),
            p: self.p,
            P: self.P,
            w: self.w,
            c: self.c,
            Q: self.Q,
            o: self.o,
            h: self.h,
            l: self.l,
            v: self.v.clone(),
            q: self.q.clone(),
            O: self.O,
            C: self.C,
            F: self.F,
            L: self.L,
            n: self.n,
            previous_price: self.previous_price,
        }
    }
}

/// The record that stands after `update` arrives for an instrument whose
/// record was `held`: the update, whole, with the held last price carried
/// over as its previous price.
pub open spec fn merged(held: TickerView, update: TickerView) -> TickerView {
    TickerView { previous_price: held.c, ..update }
}

/// Merges `update` into `held`.
pub fn merge(held: &HrTicker, update: HrTicker) -> (r: HrTicker)
    ensures
        r@ == merged(held@, update@),
{
    let mut r = update;
    r.previous_price = held.c;
    r
}

} // verus!
