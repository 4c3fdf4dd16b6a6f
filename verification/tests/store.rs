use tickerboard::price::Price;
use tickerboard::store::{update_tickers, Tickers};
use tickerboard::ticker::{merge, HrTicker};

fn price(x: f32) -> Price {
    Price::from_bits(x.to_bits())
}

fn ticker(symbol: &str, last: f32) -> HrTicker {
    HrTicker {
        e: String::from("24hrTicker"),
        E: 1,
        s: String::from(symbol),
        p: price(0.0),
        P: price(0.0),
        w: price(last),
        c: price(last),
        Q: price(1.0),
        o: price(last),
        h: price(last),
        l: price(last),
        v: String::from("0"),
        q: String::from("0"),
        O: 0,
        C: 0,
        F: 0,
        L: 0,
        n: 0,
        previous_price: price(0.0),
    }
}

fn full(symbol: &str, k: u64) -> HrTicker {
    let x = k as f32;
    HrTicker {
        e: format!("event{k}"),
        E: 100 + k,
        s: String::from(symbol),
        p: price(x + 0.25),
        P: price(x + 0.5),
        w: price(x + 0.75),
        c: price(x + 1.0),
        Q: price(x + 1.25),
        o: price(x + 1.5),
        h: price(x + 1.75),
        l: price(x + 2.0),
        v: format!("{k}.5"),
        q: format!("{k}.75"),
        O: 200 + k,
        C: 300 + k,
        F: 400 + k,
        L: 500 + k,
        n: 600 + k,
        previous_price: price(x + 9.0),
    }
}

fn symbols(store: &Tickers) -> Vec<String> {
    store.snapshot().into_iter().map(|t| t.s).collect()
}

#[test]
fn new_store_is_empty() {
    let store = Tickers::new();
    assert_eq!(store.len(), 0);
    assert!(store.snapshot().is_empty());
}

#[test]
fn upsert_of_unknown_symbol_inserts_the_record_as_it_came() {
    let mut store = Tickers::new();
    store.upsert(full("BTCUSDT", 1));
    assert_eq!(store.len(), 1);
    assert_eq!(store.snapshot(), vec![full("BTCUSDT", 1)]);
}

#[test]
fn upsert_of_known_symbol_replaces_every_field_and_carries_the_last_price() {
    let mut store = Tickers::new();
    store.upsert(full("BTCUSDT", 1));
    store.upsert(full("BTCUSDT", 7));
    let mut expected = full("BTCUSDT", 7);
    expected.previous_price = price(2.0);
    assert_eq!(store.snapshot(), vec![expected]);
}

#[test]
fn merge_takes_the_update_with_the_held_last_price() {
    let held = full("ETHUSDT", 3);
    let merged = merge(&held, full("ETHUSDT", 5));
    let mut expected = full("ETHUSDT", 5);
    expected.previous_price = price(4.0);
    assert_eq!(merged, expected);
}

#[test]
fn merge_idempotence() {
    let mut once = Tickers::new();
    once.upsert(ticker("ETHUSDT", 3000.0));
    once.upsert(ticker("BTCUSDT", 50000.0));
    once.upsert(ticker("BTCUSDT", 50500.0));

    let mut twice = Tickers::new();
    twice.upsert(ticker("ETHUSDT", 3000.0));
    twice.upsert(ticker("BTCUSDT", 50000.0));
    twice.upsert(ticker("BTCUSDT", 50500.0));
    twice.upsert(ticker("BTCUSDT", 50500.0));

    let once = once.snapshot();
    let twice = twice.snapshot();
    assert_eq!(once.len(), 2);
    assert_eq!(twice.len(), 2);
    assert_eq!(once[0], twice[0]);
    assert_eq!(once[1].previous_price, price(50000.0));
    assert_eq!(twice[1].previous_price, price(50500.0));
    let mut expected = ticker("BTCUSDT", 50500.0);
    expected.previous_price = price(50500.0);
    assert_eq!(twice[1], expected);
    expected.previous_price = price(50000.0);
    assert_eq!(once[1], expected);
}

#[test]
fn merge_idempotence_on_a_first_application() {
    let mut store = Tickers::new();
    store.upsert(ticker("BTCUSDT", 50000.0));
    store.upsert(ticker("BTCUSDT", 50000.0));
    let mut expected = ticker("BTCUSDT", 50000.0);
    expected.previous_price = price(50000.0);
    assert_eq!(store.snapshot(), vec![expected]);
}

#[test]
fn key_uniqueness() {
    let mut store = Tickers::new();
    let names = ["BTCUSDT", "ETHUSDT", "BTCUSDT", "XRPUSDT", "ETHUSDT", "BTCUSDT", "XRPUSDT"];
    for (k, name) in names.iter().enumerate() {
        store.upsert(ticker(name, k as f32));
        let held = symbols(&store);
        for i in 0..held.len() {
            for j in 0..i {
                assert_ne!(held[i], held[j]);
            }
        }
    }
    assert_eq!(symbols(&store), vec!["BTCUSDT", "ETHUSDT", "XRPUSDT"]);
    assert_eq!(store.len(), 3);
}

#[test]
fn key_uniqueness_within_one_batch() {
    let mut store = Tickers::new();
    update_tickers(
        vec![ticker("A", 1.0), ticker("B", 2.0), ticker("A", 3.0), ticker("A", 4.0)],
        &mut store,
    );
    let held = store.snapshot();
    assert_eq!(held.len(), 2);
    assert_eq!(held[0].s, "A");
    assert_eq!(held[0].c, price(4.0));
    assert_eq!(held[0].previous_price, price(3.0));
    assert_eq!(held[1].s, "B");
    assert_eq!(held[1].c, price(2.0));
    assert_eq!(held[1].previous_price, price(0.0));
}

#[test]
fn scenario_two_batches_for_one_symbol() {
    let mut store = Tickers::new();
    update_tickers(vec![ticker("BTCUSDT", 50000.0)], &mut store);
    update_tickers(vec![ticker("BTCUSDT", 50500.0)], &mut store);
    let held = store.snapshot();
    assert_eq!(held.len(), 1);
    assert_eq!(held[0].s, "BTCUSDT");
    assert_eq!(held[0].c, price(50500.0));
    assert_eq!(held[0].previous_price, price(50000.0));
    assert!(held[0].c.gt(held[0].previous_price));
}

#[test]
fn batches_apply_in_arrival_order() {
    let mut a = Tickers::new();
    update_tickers(vec![ticker("X", 1.0), ticker("Y", 2.0)], &mut a);
    update_tickers(vec![ticker("Y", 3.0), ticker("X", 4.0), ticker("Z", 5.0)], &mut a);

    let mut b = Tickers::new();
    for t in [ticker("X", 1.0), ticker("Y", 2.0), ticker("Y", 3.0), ticker("X", 4.0), ticker("Z", 5.0)] {
        b.upsert(t);
    }
    assert_eq!(a.snapshot(), b.snapshot());
    let held = a.snapshot();
    assert_eq!(symbols(&a), vec!["X", "Y", "Z"]);
    assert_eq!(held[0].c, price(4.0));
    assert_eq!(held[0].previous_price, price(1.0));
    assert_eq!(held[1].c, price(3.0));
    assert_eq!(held[1].previous_price, price(2.0));
}

#[test]
fn empty_batch_changes_nothing() {
    let mut store = Tickers::new();
    store.upsert(full("A", 1));
    update_tickers(Vec::new(), &mut store);
    assert_eq!(store.snapshot(), vec![full("A", 1)]);
}

#[test]
fn update_leaves_other_symbols_alone() {
    let mut store = Tickers::new();
    store.upsert(full("A", 1));
    store.upsert(full("B", 2));
    store.upsert(full("C", 3));
    store.upsert(full("B", 9));
    let held = store.snapshot();
    assert_eq!(held[0], full("A", 1));
    assert_eq!(held[2], full("C", 3));
    assert_eq!(held[1].c, price(10.0));
    assert_eq!(held[1].previous_price, price(3.0));
}

#[test]
fn symbols_differ_by_case_and_length() {
    let mut store = Tickers::new();
    store.upsert(ticker("BTC", 1.0));
    store.upsert(ticker("btc", 2.0));
    store.upsert(ticker("BTCUSDT", 3.0));
    store.upsert(ticker("", 4.0));
    assert_eq!(store.len(), 4);
    store.upsert(ticker("", 5.0));
    assert_eq!(store.len(), 4);
    assert_eq!(store.snapshot()[3].previous_price, price(4.0));
}

#[test]
fn snapshot_is_a_copy() {
    let mut store = Tickers::new();
    store.upsert(ticker("A", 1.0));
    let mut first = store.snapshot();
    first[0].c = price(99.0);
    first.push(ticker("B", 2.0));
    assert_eq!(store.snapshot(), vec![ticker("A", 1.0)]);
    store.upsert(ticker("A", 2.0));
    assert_eq!(first[0].c, price(99.0));
}

#[test]
fn clone_keeps_every_field() {
    let t = full("BNBUSDT", 4);
    assert_eq!(t.clone(), t);
}
