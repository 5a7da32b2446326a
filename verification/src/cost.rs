//! The slippage direction rule of the Indian F&O cost model.

use vstd::prelude::*;

use crate::text::str_eq;

verus! {

/// Indian F&O frictions: brokerage, GST, STT and slippage.
#[derive(Debug, Clone, Copy)]
pub struct IndiaOptionsCost;

/// Whether slippage moves a fill price up (pays up) rather than down.
/// On entry a BUY pays up and anything else gives up; on exit the rule flips,
/// so closing a SELL leg (buying it back) pays up.
pub open spec fn spec_fill_moves_up(entry_action: Seq<char>, is_exit: bool) -> bool {
    if is_exit {
        entry_action == "SELL"@
    } else {
        entry_action == "BUY"@
    }
}

impl IndiaOptionsCost {
    /// Whether this model's slippage raises the fill price of a leg whose
    /// original action is `entry_action`, on entry (`is_exit == false`) or on
    /// exit. Both the flat and the spread-aware rule move the price this way.
    pub fn fill_moves_up(&self, entry_action: &str, is_exit: bool) -> (up: bool)
        ensures
            up == spec_fill_moves_up(entry_action@, is_exit),
    {
        if is_exit {
            str_eq(entry_action, "SELL")
        } else {
            str_eq(entry_action, "BUY")
        }
    }
}

/// Closing a position moves the price the other way from opening it: for a
/// BUY or SELL leg, the exit fill moves up exactly when the entry fill moves
/// down.
pub proof fn lemma_exit_flips_entry(entry_action: Seq<char>)
    requires
        entry_action == "BUY"@ || entry_action == "SELL"@,
    ensures
        spec_fill_moves_up(entry_action, true) == !spec_fill_moves_up(entry_action, false),
{
    reveal_strlit("BUY");
    reveal_strlit("SELL");
    assert("BUY"@ != "SELL"@) by {
        assert("BUY"@[0] != "SELL"@[0]);
    }
}

} // verus!
