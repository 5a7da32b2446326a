//! Fill models: decide which bar and which price a decision executes at.
//! The default (`NextBarOpen`) is lookahead-free; `SameBarClose` fills on the
//! decision bar at its close and is the opt-in for exact reproduction of
//! same-bar runs.

use vstd::prelude::*;

use crate::marketdata::Quote;

verus! {

/// Which OHLC field of the fill bar to price an underlying/EQ leg from.
#[derive(Debug, Clone, Copy, PartialEq, Eq, Structural)]
pub enum BarField {
    Open,
    High,
    Low,
    Close,
}

/// Resolves the bar and price a decision fills at.
pub trait FillModel: Send {
    /// Whether this model can name the fill bar of a decision made on
    /// `decision_i` (a model whose fill bar lies after the decision bar
    /// cannot do so on the last index `usize` holds).
    spec fn accepts_decision(&self, decision_i: usize) -> bool;

    /// Bar index a decision made on `decision_i` fills at.
    fn fill_bar(&self, decision_i: usize) -> (fill_i: usize)
        requires
            self.accepts_decision(decision_i),
    ;

    /// Underlying OHLC field to synthesize/mark from at the fill bar.
    fn underlying_field(&self) -> BarField;

    /// Price to take from a real option `Quote` at the fill bar, as the bit
    /// pattern of the `f64` price.
    fn quote_price(&self, q: &Quote) -> u64;
}

/// Lookahead-free default: a decision on bar `t` fills at `t+1`'s open.
#[derive(Debug, Clone, Copy)]
pub struct NextBarOpen;

impl FillModel for NextBarOpen {
    open spec fn accepts_decision(&self, decision_i: usize) -> bool {
        decision_i < usize::MAX
    }

    fn fill_bar(&self, decision_i: usize) -> (fill_i: usize)
        ensures
            fill_i == decision_i + 1,
    {
        decision_i + 1
    }

    fn underlying_field(&self) -> (field: BarField)
        ensures
            field == BarField::Open,
    {
        BarField::Open
    }

    fn quote_price(&self, q: &Quote) -> (price: u64)
        ensures
            price == q.open,
    {
        q.open
    }
}

/// Same-bar behaviour: fills on the decision bar at its close (has lookahead).
/// Opt-in only, so historical runs can be reproduced exactly.
#[derive(Debug, Clone, Copy)]
pub struct SameBarClose;

impl FillModel for SameBarClose {
    open spec fn accepts_decision(&self, decision_i: usize) -> bool {
        true
    }

    fn fill_bar(&self, decision_i: usize) -> (fill_i: usize)
        ensures
            fill_i == decision_i,
    {
        decision_i
    }

    fn underlying_field(&self) -> (field: BarField)
        ensures
            field == BarField::Close,
    {
        BarField::Close
    }

    fn quote_price(&self, q: &Quote) -> (price: u64)
        ensures
            price == q.close,
    {
        q.close
    }
}

} // verus!
