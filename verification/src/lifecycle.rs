//! The position lifecycle of the single-position engine: which signal opens,
//! closes or leaves alone the one position the engine may hold.

use vstd::prelude::*;

use crate::text::str_eq;

verus! {

/// The kind of the open position, read from its direction label.
#[derive(Debug, Clone, Copy, PartialEq, Eq, Structural)]
pub enum PositionKind {
    /// Direction `"LONG"`: a single-leg long on the underlying.
    Long,
    /// Direction `"SPREAD"`: a multi-leg option position.
    Spread,
    /// Any other direction.
    Other,
}

/// The kind of signal a strategy emits.
#[derive(Debug, Clone, Copy, PartialEq, Eq, Structural)]
pub enum SignalKind {
    Buy,
    Sell,
    OpenPosition,
    CloseAll,
}

/// What the engine does with a signal.
#[derive(Debug, Clone, Copy, PartialEq, Eq, Structural)]
pub enum Step {
    /// Nothing changes.
    Hold,
    /// A new position of this kind opens.
    Open(PositionKind),
    /// The open position, of this kind, closes and is recorded as a trade.
    Close(PositionKind),
}

/// The kind of a position whose direction label is `direction`.
pub open spec fn spec_position_kind(direction: Seq<char>) -> PositionKind {
    if direction == "LONG"@ {
        PositionKind::Long
    } else if direction == "SPREAD"@ {
        PositionKind::Spread
    } else {
        PositionKind::Other
    }
}

/// Reads a position's kind from its direction label.
pub fn position_kind(direction: &str) -> (k: PositionKind)
    ensures
        k == spec_position_kind(direction@),
{
    if str_eq(direction, "LONG") {
        PositionKind::Long
    } else if str_eq(direction, "SPREAD") {
        PositionKind::Spread
    } else {
        PositionKind::Other
    }
}

/// The direction label the engine writes on a position of kind `k`
/// (`None` for `Other`, which the engine never opens). Reading the label
/// back gives the same kind.
pub fn direction_label(k: PositionKind) -> (label: Option<&'static str>)
    ensures
        k == PositionKind::Other <==> label is None,
        label matches Some(l) ==> spec_position_kind(l@) == k,
        k == PositionKind::Long ==> label == Some("LONG"),
        k == PositionKind::Spread ==> label == Some("SPREAD"),
{
    proof {
        reveal_strlit("LONG");
        reveal_strlit("SPREAD");
        assert("SPREAD"@[0] != "LONG"@[0]);
    }
    match k {
        PositionKind::Long => Some("LONG"),
        PositionKind::Spread => Some("SPREAD"),
        PositionKind::Other => None,
    }
}

/// The step taken for `signal` while holding `position`. `quantity` is the
/// size the engine would open with; it matters only for opening signals while
/// flat.
pub open spec fn spec_step(position: Option<PositionKind>, signal: SignalKind, quantity: i32) -> Step {
    match signal {
        SignalKind::Buy => if position is None && quantity > 0 {
            Step::Open(PositionKind::Long)
        } else {
            Step::Hold
        },
        SignalKind::OpenPosition => if position is None && quantity > 0 {
            Step::Open(PositionKind::Spread)
        } else {
            Step::Hold
        },
        SignalKind::Sell => if position == Some(PositionKind::Long) {
            Step::Close(PositionKind::Long)
        } else {
            Step::Hold
        },
        SignalKind::CloseAll => match position {
            Some(k) => Step::Close(k),
            None => Step::Hold,
        },
    }
}

/// The position held after taking `step` from `position`.
pub open spec fn spec_position_after(position: Option<PositionKind>, step: Step) -> Option<
    PositionKind,
> {
    match step {
        Step::Hold => position,
        Step::Open(k) => Some(k),
        Step::Close(_) => None,
    }
}

/// Decides what a signal does: `Buy` opens a long and `OpenPosition` a spread,
/// each only while flat and with a positive quantity; `Sell` closes only a
/// long position; `CloseAll` closes whatever is open.
pub fn step(position: Option<PositionKind>, signal: SignalKind, quantity: i32) -> (s: Step)
    ensures
        s == spec_step(position, signal, quantity),
{
    match signal {
        SignalKind::Buy => {
            if position.is_none() && quantity > 0 {
                Step::Open(PositionKind::Long)
            } else {
                Step::Hold
            }
        },
        SignalKind::OpenPosition => {
            if position.is_none() && quantity > 0 {
                Step::Open(PositionKind::Spread)
            } else {
                Step::Hold
            }
        },
        SignalKind::Sell => {
            match position {
                Some(PositionKind::Long) => Step::Close(PositionKind::Long),
                _ => Step::Hold,
            }
        },
        SignalKind::CloseAll => {
            match position {
                Some(k) => Step::Close(k),
                None => Step::Hold,
            }
        },
    }
}

/// The position held after taking `step` from `position`.
pub fn position_after(position: Option<PositionKind>, step: Step) -> (p: Option<PositionKind>)
    ensures
        p == spec_position_after(position, step),
{
    match step {
        Step::Hold => position,
        Step::Open(k) => Some(k),
        Step::Close(_) => None,
    }
}

/// The engine never stacks positions: a signal opens a position (a long or a
/// spread) only while flat, a close always closes the position that is open (of its own kind),
/// and after a close the engine is flat.
pub proof fn lemma_single_position(position: Option<PositionKind>, signal: SignalKind, quantity: i32)
    ensures
        spec_step(position, signal, quantity) is Open ==> position is None && quantity > 0,
        spec_step(position, signal, quantity) is Open ==> spec_step(position, signal, quantity)->Open_0
            != PositionKind::Other,
        spec_step(position, signal, quantity) is Close ==> position == Some(
            spec_step(position, signal, quantity)->Close_0,
        ),
        spec_step(position, signal, quantity) is Close ==> spec_position_after(
            position,
            spec_step(position, signal, quantity),
        ) is None,
{
}

/// A sell only ever unwinds a long: a spread (or any other position) survives
/// a `Sell` unchanged, and only `CloseAll` closes it.
pub proof fn lemma_sell_keeps_spread(quantity: i32)
    ensures
        spec_step(Some(PositionKind::Spread), SignalKind::Sell, quantity) == Step::Hold,
        spec_step(Some(PositionKind::Other), SignalKind::Sell, quantity) == Step::Hold,
        spec_step(Some(PositionKind::Spread), SignalKind::CloseAll, quantity) == Step::Close(
            PositionKind::Spread,
        ),
{
}

/// `CloseAll` flattens: after it the engine holds nothing whatever it held
/// before, and a further `CloseAll` or `Sell` does nothing.
pub proof fn lemma_close_all_flattens(position: Option<PositionKind>, quantity: i32)
    ensures
        spec_position_after(position, spec_step(position, SignalKind::CloseAll, quantity)) is None,
        spec_step(None, SignalKind::CloseAll, quantity) == Step::Hold,
        spec_step(None, SignalKind::Sell, quantity) == Step::Hold,
{
}

/// A flat engine opens on every positive quantity and on no other: `Buy`
/// opens a long and `OpenPosition` a spread exactly when the quantity is at
/// least one lot, and a position once open is closed by `CloseAll` whatever
/// the quantity.
pub proof fn lemma_flat_opens_on_positive_quantity(quantity: i32)
    ensures
        quantity > 0 ==> spec_step(None, SignalKind::Buy, quantity) == Step::Open(PositionKind::Long),
        quantity > 0 ==> spec_step(None, SignalKind::OpenPosition, quantity) == Step::Open(
            PositionKind::Spread,
        ),
        quantity <= 0 ==> spec_step(None, SignalKind::Buy, quantity) == Step::Hold,
        quantity <= 0 ==> spec_step(None, SignalKind::OpenPosition, quantity) == Step::Hold,
        spec_step(Some(PositionKind::Long), SignalKind::CloseAll, quantity) == Step::Close(
            PositionKind::Long,
        ),
        spec_step(Some(PositionKind::Long), SignalKind::Sell, quantity) == Step::Close(
            PositionKind::Long,
        ),
{
}

} // verus!
