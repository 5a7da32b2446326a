use vajra::fill::{BarField, FillModel, NextBarOpen, SameBarClose};
use vajra::marketdata::Quote;

fn q() -> Quote {
    Quote {
        open: 1.0f64.to_bits(),
        high: 2.0f64.to_bits(),
        low: 0.5f64.to_bits(),
        close: 1.5f64.to_bits(),
        bid: None,
        ask: None,
    }
}

#[test]
fn next_bar_open_fills_at_next_bar_open() {
    let m = NextBarOpen;
    assert_eq!(m.fill_bar(3), 4);
    assert!(matches!(m.underlying_field(), BarField::Open));
    assert_eq!(f64::from_bits(m.quote_price(&q())), 1.0);
}

#[test]
fn same_bar_close_fills_at_this_bar_close() {
    let m = SameBarClose;
    assert_eq!(m.fill_bar(3), 3);
    assert!(matches!(m.underlying_field(), BarField::Close));
    assert_eq!(f64::from_bits(m.quote_price(&q())), 1.5);
}

#[test]
fn fill_models_through_trait_objects() {
    let models: Vec<Box<dyn FillModel>> = vec![Box::new(NextBarOpen), Box::new(SameBarClose)];
    assert_eq!(models[0].fill_bar(0), 1);
    assert_eq!(models[1].fill_bar(0), 0);
    assert_eq!(models[0].underlying_field(), BarField::Open);
    assert_eq!(models[1].underlying_field(), BarField::Close);
}
