use tickerboard::app::App;
use tickerboard::input::Key;
use tickerboard::price::Price;
use tickerboard::sort::{precedes, sort_rows, SortColumn, SortOrder};
use tickerboard::ticker::HrTicker;

fn price(x: f32) -> Price {
    Price::from_bits(x.to_bits())
}

fn row(symbol: &str, last: f32, volume: &str) -> HrTicker {
    HrTicker {
        e: String::from("24hrTicker"),
        E: 0,
        s: String::from(symbol),
        p: price(0.0),
        P: price(0.0),
        w: price(0.0),
        c: price(last),
        Q: price(0.0),
        o: price(0.0),
        h: price(0.0),
        l: price(0.0),
        v: String::from(volume),
        q: String::from("0"),
        O: 0,
        C: 0,
        F: 0,
        L: 0,
        n: 0,
        previous_price: price(0.0),
    }
}

fn symbols(rows: &[HrTicker]) -> Vec<&str> {
    rows.iter().map(|t| t.s.as_str()).collect()
}

fn key_of(column: SortColumn, t: &HrTicker) -> f32 {
    let p = match column {
        SortColumn::PercentChange => t.P,
        SortColumn::Open => t.o,
        SortColumn::High => t.h,
        SortColumn::Low => t.l,
        _ => t.c,
    };
    f32::from_bits(p.to_bits())
}

/// Ascending stable sort with NaN greatest, then a reverse for descending.
fn reference(column: SortColumn, order: SortOrder, rows: &[HrTicker]) -> Vec<HrTicker> {
    let mut out: Vec<HrTicker> = rows.to_vec();
    match column {
        SortColumn::Symbol => out.sort_by(|a, b| a.s.cmp(&b.s)),
        SortColumn::Volume => out.sort_by(|a, b| a.v.cmp(&b.v)),
        _ => out.sort_by(|a, b| {
            let (x, y) = (key_of(column, a), key_of(column, b));
            match (x.is_nan(), y.is_nan()) {
                (true, true) => std::cmp::Ordering::Equal,
                (true, false) => std::cmp::Ordering::Greater,
                (false, true) => std::cmp::Ordering::Less,
                (false, false) => x.partial_cmp(&y).unwrap(),
            }
        }),
    }
    if order == SortOrder::Descending {
        out.reverse();
    }
    out
}

fn all_columns() -> Vec<SortColumn> {
    vec![
        SortColumn::Symbol,
        SortColumn::Last,
        SortColumn::PercentChange,
        SortColumn::Open,
        SortColumn::High,
        SortColumn::Low,
        SortColumn::Volume,
    ]
}

fn mixed_rows() -> Vec<HrTicker> {
    let lasts = [5.0, 1.0, f32::NAN, 3.0, 1.0, -2.0, 3.0, f32::INFINITY, 0.0, -0.0, 1.0, f32::NAN];
    let mut rows = Vec::new();
    for (k, last) in lasts.iter().enumerate() {
        let mut t = row(&format!("S{:02}", (k * 7) % 12), *last, &format!("{}", (k * 5) % 4));
        t.P = price(((k * 3) % 5) as f32 - 2.0);
        t.o = price(((k * 11) % 3) as f32);
        t.h = price(if k % 4 == 0 { f32::NAN } else { (k % 2) as f32 });
        t.l = price(-((k % 3) as f32));
        t.E = k as u64;
        rows.push(t);
    }
    rows
}

#[test]
fn sort_matches_the_reference_in_every_column_and_order() {
    for column in all_columns() {
        for order in [SortOrder::Ascending, SortOrder::Descending] {
            let mut rows = mixed_rows();
            sort_rows(column, order, &mut rows);
            assert_eq!(rows, reference(column, order, &mixed_rows()), "{column:?} {order:?}");
        }
    }
}

#[test]
fn sort_stability_under_reversal() {
    let input = vec![
        row("first", 1.0, "0"),
        row("second", 2.0, "0"),
        row("third", 1.0, "0"),
        row("fourth", 1.0, "0"),
        row("fifth", 2.0, "0"),
    ];
    let mut ascending = input.clone();
    sort_rows(SortColumn::Last, SortOrder::Ascending, &mut ascending);
    assert_eq!(symbols(&ascending), vec!["first", "third", "fourth", "second", "fifth"]);

    let mut descending = input.clone();
    sort_rows(SortColumn::Last, SortOrder::Descending, &mut descending);
    assert_eq!(symbols(&descending), vec!["fifth", "second", "fourth", "third", "first"]);

    let mut reversed = ascending.clone();
    reversed.reverse();
    assert_eq!(descending, reversed);
    assert_eq!(descending, reference(SortColumn::Last, SortOrder::Descending, &input));
}

#[test]
fn descending_is_not_a_sort_by_the_reversed_comparison() {
    let input = vec![row("a", 1.0, "0"), row("b", 1.0, "0"), row("c", 2.0, "0")];
    let mut descending = input.clone();
    sort_rows(SortColumn::Last, SortOrder::Descending, &mut descending);
    // A stable sort by the reversed comparison would give c, a, b.
    assert_eq!(symbols(&descending), vec!["c", "b", "a"]);
}

#[test]
fn nan_sorts_above_every_number() {
    let input = vec![
        row("nan1", f32::NAN, "0"),
        row("inf", f32::INFINITY, "0"),
        row("one", 1.0, "0"),
        row("nan2", -f32::NAN, "0"),
        row("neg", f32::NEG_INFINITY, "0"),
    ];
    let mut ascending = input.clone();
    sort_rows(SortColumn::Last, SortOrder::Ascending, &mut ascending);
    assert_eq!(symbols(&ascending), vec!["neg", "one", "inf", "nan1", "nan2"]);
    let mut descending = input.clone();
    sort_rows(SortColumn::Last, SortOrder::Descending, &mut descending);
    assert_eq!(symbols(&descending), vec!["nan2", "nan1", "inf", "one", "neg"]);
}

#[test]
fn zeros_tie() {
    let mut rows = vec![row("plus", 0.0, "0"), row("minus", -0.0, "0"), row("below", -1.0, "0")];
    sort_rows(SortColumn::Last, SortOrder::Ascending, &mut rows);
    assert_eq!(symbols(&rows), vec!["below", "plus", "minus"]);
}

#[test]
fn scenario_symbol_then_volume() {
    let input = vec![row("ETHUSDT", 3000.0, "9"), row("BTCUSDT", 50000.0, "10")];
    let mut app = App::new();
    let mut rows = input.clone();
    app.sort_tickers(&mut rows);
    assert_eq!(symbols(&rows), vec!["BTCUSDT", "ETHUSDT"]);

    for _ in 0..6 {
        app.next_sort_column();
    }
    assert_eq!(app.sort_column(), SortColumn::Volume);
    let mut rows = input.clone();
    app.sort_tickers(&mut rows);
    // "10" stands before "9" as text, though 10 is the larger number.
    assert_eq!(symbols(&rows), vec!["BTCUSDT", "ETHUSDT"]);
    assert_eq!(rows[0].v, "10");

    let input = vec![row("AAA", 1.0, "9"), row("BBB", 2.0, "10"), row("CCC", 3.0, "100.5")];
    let mut rows = input.clone();
    app.sort_tickers(&mut rows);
    assert_eq!(symbols(&rows), vec!["BBB", "CCC", "AAA"]);
}

#[test]
fn sort_tickers_follows_the_session() {
    let input = vec![row("b", 2.0, "0"), row("c", 1.0, "0"), row("a", 3.0, "0")];
    let mut app = App::new();
    let mut rows = input.clone();
    app.sort_tickers(&mut rows);
    assert_eq!(symbols(&rows), vec!["a", "b", "c"]);

    app.handle_key_press(Key::Char('r'));
    let mut rows = input.clone();
    app.sort_tickers(&mut rows);
    assert_eq!(symbols(&rows), vec!["c", "b", "a"]);

    app.handle_key_press(Key::Tab);
    assert_eq!(app.sort_column(), SortColumn::Last);
    let mut rows = input.clone();
    app.sort_tickers(&mut rows);
    assert_eq!(symbols(&rows), vec!["a", "b", "c"]);

    app.handle_key_press(Key::Char('r'));
    let mut rows = input.clone();
    app.sort_tickers(&mut rows);
    assert_eq!(symbols(&rows), vec!["c", "b", "a"]);
    assert_eq!(app.sort_order(), SortOrder::Ascending);
}

#[test]
fn each_numeric_column_sorts_by_its_own_field() {
    let mut a = row("a", 1.0, "0");
    let mut b = row("b", 2.0, "0");
    let mut c = row("c", 3.0, "0");
    (a.P, b.P, c.P) = (price(2.0), price(3.0), price(1.0));
    (a.o, b.o, c.o) = (price(3.0), price(1.0), price(2.0));
    (a.h, b.h, c.h) = (price(-1.0), price(-3.0), price(-2.0));
    (a.l, b.l, c.l) = (price(0.5), price(0.25), price(0.125));
    let input = vec![a, b, c];
    let expect = [
        (SortColumn::Last, ["a", "b", "c"]),
        (SortColumn::PercentChange, ["c", "a", "b"]),
        (SortColumn::Open, ["b", "c", "a"]),
        (SortColumn::High, ["b", "c", "a"]),
        (SortColumn::Low, ["c", "b", "a"]),
    ];
    for (column, order) in expect {
        let mut rows = input.clone();
        sort_rows(column, SortOrder::Ascending, &mut rows);
        assert_eq!(symbols(&rows), order.to_vec(), "{column:?}");
    }
}

#[test]
fn sort_of_nothing_and_of_one() {
    let mut rows: Vec<HrTicker> = Vec::new();
    sort_rows(SortColumn::Symbol, SortOrder::Descending, &mut rows);
    assert!(rows.is_empty());
    let mut rows = vec![row("only", 1.0, "0")];
    sort_rows(SortColumn::Last, SortOrder::Descending, &mut rows);
    assert_eq!(rows, vec![row("only", 1.0, "0")]);
}

#[test]
fn sort_keeps_every_row() {
    let input = mixed_rows();
    for column in all_columns() {
        let mut rows = input.clone();
        sort_rows(column, SortOrder::Ascending, &mut rows);
        assert_eq!(rows.len(), input.len());
        for t in &input {
            assert_eq!(
                rows.iter().filter(|r| *r == t).count(),
                input.iter().filter(|r| *r == t).count()
            );
        }
        for pair in rows.windows(2) {
            assert!(precedes(column, &pair[0], &pair[1]));
        }
    }
}

#[test]
fn precedes_reads_the_column() {
    let a = row("A", 2.0, "9");
    let b = row("B", 1.0, "10");
    assert!(precedes(SortColumn::Symbol, &a, &b));
    assert!(!precedes(SortColumn::Symbol, &b, &a));
    assert!(!precedes(SortColumn::Last, &a, &b));
    assert!(precedes(SortColumn::Last, &b, &a));
    assert!(!precedes(SortColumn::Volume, &a, &b));
    assert!(precedes(SortColumn::Volume, &b, &a));
    assert!(precedes(SortColumn::Open, &a, &b));
    assert!(precedes(SortColumn::Open, &b, &a));
}

#[test]
fn sort_column_cycle() {
    let mut column = SortColumn::Symbol;
    let cycle = [
        SortColumn::Last,
        SortColumn::PercentChange,
        SortColumn::Open,
        SortColumn::High,
        SortColumn::Low,
        SortColumn::Volume,
        SortColumn::Symbol,
    ];
    for expected in cycle {
        column = column.next();
        assert_eq!(column, expected);
    }
}

#[test]
fn sort_order_toggle() {
    assert_eq!(SortOrder::Ascending.toggle(), SortOrder::Descending);
    assert_eq!(SortOrder::Descending.toggle(), SortOrder::Ascending);
}

#[test]
fn sort_of_many_rows_matches_the_reference() {
    let mut input = Vec::new();
    let mut seed: u32 = 12345;
    for k in 0..500 {
        seed = seed.wrapping_mul(1664525).wrapping_add(1013904223);
        let last = ((seed >> 8) % 50) as f32 - 25.0;
        input.push(row(&format!("SYM{:03}", (k * 37) % 500), last, &format!("{}", seed % 1000)));
    }
    for column in [SortColumn::Symbol, SortColumn::Last, SortColumn::Volume] {
        for order in [SortOrder::Ascending, SortOrder::Descending] {
            let mut rows = input.clone();
            sort_rows(column, order, &mut rows);
            assert_eq!(rows, reference(column, order, &input));
        }
    }
}
