use std::collections::HashMap;
use vajra::marketdata::{InstrumentKey, MapOptionSource, OptionQuoteSource, Quote};

fn key(strike: f64, option_type: &str) -> InstrumentKey {
    InstrumentKey {
        strike: strike.to_bits(),
        option_type: option_type.into(),
    }
}

#[test]
fn instrument_key_hashes_by_value() {
    let mut m = HashMap::new();
    m.insert(
        InstrumentKey {
            strike: 22100.0f64.to_bits(),
            option_type: "CE".into(),
        },
        1,
    );
    assert_eq!(
        m.get(&InstrumentKey {
            strike: 22100.0f64.to_bits(),
            option_type: "CE".into()
        }),
        Some(&1)
    );
    assert_eq!(
        m.get(&InstrumentKey {
            strike: 22200.0f64.to_bits(),
            option_type: "CE".into()
        }),
        None
    );
}

#[test]
fn map_source_returns_inserted_quote() {
    let mut s = MapOptionSource::new();
    let key = InstrumentKey {
        strike: 22100.0f64.to_bits(),
        option_type: "CE".into(),
    };
    let q = Quote {
        open: 5.0f64.to_bits(),
        high: 6.0f64.to_bits(),
        low: 4.0f64.to_bits(),
        close: 5.5f64.to_bits(),
        bid: None,
        ask: None,
    };
    s.insert(1000, key.clone(), q);
    assert_eq!(s.option_quote(&key, 1000), Some(q));
    assert_eq!(s.option_quote(&key, 2000), None); // wrong ts
    let pe = InstrumentKey {
        strike: 22100.0f64.to_bits(),
        option_type: "PE".into(),
    };
    assert_eq!(s.option_quote(&pe, 1000), None); // wrong type
}

fn quote(close: f64) -> Quote {
    Quote {
        open: close.to_bits(),
        high: close.to_bits(),
        low: close.to_bits(),
        close: close.to_bits(),
        bid: None,
        ask: None,
    }
}

#[test]
fn insert_replaces_earlier_quote_for_same_key() {
    let mut s = MapOptionSource::default();
    s.insert(7, key(100.0, "CE"), quote(1.0));
    s.insert(7, key(100.0, "PE"), quote(2.0));
    s.insert(7, key(100.0, "CE"), quote(3.0));
    assert_eq!(s.option_quote(&key(100.0, "CE"), 7), Some(quote(3.0)));
    assert_eq!(s.option_quote(&key(100.0, "PE"), 7), Some(quote(2.0)));
    assert_eq!(s.option_quote(&key(100.5, "CE"), 7), None);
}

#[test]
fn strikes_compare_by_bits() {
    // 0.0 and -0.0 are equal as floats but distinct keys, as in the bit-keyed map.
    let mut s = MapOptionSource::new();
    s.insert(1, key(0.0, "CE"), quote(1.0));
    assert_eq!(s.option_quote(&key(0.0, "CE"), 1), Some(quote(1.0)));
    assert_eq!(s.option_quote(&key(-0.0, "CE"), 1), None);
}

#[test]
fn quoted_sides_needs_both_bid_and_ask() {
    let mut q = quote(10.5);
    q.bid = Some(10.0f64.to_bits());
    q.ask = Some(10.4f64.to_bits());
    let (b, a) = q.quoted_sides().unwrap();
    assert!((f64::from_bits(a) - f64::from_bits(b) - 0.4).abs() < 1e-9);
    q.ask = None;
    assert_eq!(q.quoted_sides(), None);
    q.bid = None;
    assert_eq!(q.quoted_sides(), None);
}

#[test]
fn quotes_compare_as_f64_values() {
    assert_eq!(quote(0.0), quote(-0.0));
    assert_ne!(quote(1.0), quote(1.5));
    assert_ne!(quote(f64::NAN), quote(f64::NAN));
    assert_eq!(quote(f64::INFINITY), quote(f64::INFINITY));
    let mut a = quote(2.0);
    let mut b = quote(2.0);
    a.bid = Some(1.0f64.to_bits());
    assert_ne!(a, b);
    b.bid = Some(1.0f64.to_bits());
    assert_eq!(a, b);
    assert!(vajra::marketdata::f64_bits_eq(0.0f64.to_bits(), (-0.0f64).to_bits()));
    assert!(!vajra::marketdata::f64_bits_eq(f64::NAN.to_bits(), f64::NAN.to_bits()));
}

#[test]
fn from_rows_keeps_the_last_row_per_key() {
    let rows = vec![
        ("2024-05-16 09:15:00".to_string(), key(22100.0, "CE"), quote(120.0)),
        ("2024-05-16 09:15:00".to_string(), key(22100.0, "PE"), quote(110.0)),
        ("2024-05-16 09:16:00".to_string(), key(22100.0, "CE"), quote(121.0)),
        ("2024-05-16 09:15:00".to_string(), key(22100.0, "CE"), quote(125.0)),
        ("not a time".to_string(), key(22200.0, "CE"), quote(1.0)),
    ];
    let s = MapOptionSource::from_rows(&rows);
    let t0 = 1715850900; // 2024-05-16 09:15:00 UTC
    assert_eq!(s.option_quote(&key(22100.0, "CE"), t0), Some(quote(125.0)));
    assert_eq!(s.option_quote(&key(22100.0, "PE"), t0), Some(quote(110.0)));
    assert_eq!(s.option_quote(&key(22100.0, "CE"), t0 + 60), Some(quote(121.0)));
    assert_eq!(s.option_quote(&key(22100.0, "PE"), t0 + 60), None);
    // an unparseable time reads as the epoch
    assert_eq!(s.option_quote(&key(22200.0, "CE"), 0), Some(quote(1.0)));
}
