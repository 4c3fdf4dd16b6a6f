use tickerboard::text::str_le;

fn words() -> Vec<&'static str> {
    vec![
        "", "A", "AB", "ABC", "B", "BTCUSDT", "ETHUSDT", "a", "b", "10", "9", "100.5", "99.5",
        "é", "z", "日本", "\u{10348}", "\u{ffff}", "1000SHIBUSDT",
    ]
}

#[test]
fn str_le_agrees_with_the_order_of_strings() {
    for a in words() {
        for b in words() {
            assert_eq!(str_le(a, b), a <= b, "{a:?} <= {b:?}");
        }
    }
}

#[test]
fn str_le_puts_a_prefix_first() {
    assert!(str_le("", ""));
    assert!(str_le("", "A"));
    assert!(!str_le("A", ""));
    assert!(str_le("BTC", "BTCUSDT"));
    assert!(!str_le("BTCUSDT", "BTC"));
}

#[test]
fn str_le_goes_by_the_first_difference() {
    assert!(str_le("BTCUSDT", "ETHUSDT"));
    assert!(!str_le("ETHUSDT", "BTCUSDT"));
    assert!(str_le("10", "9"));
    assert!(!str_le("9", "10"));
    assert!(str_le("Z", "a"));
}

#[test]
fn str_le_holds_of_equal_strings() {
    for a in words() {
        assert!(str_le(a, a));
    }
}
