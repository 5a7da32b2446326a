//! How the engine reads an option leg's type and action: which legs are
//! priced off the underlying, which are calls or puts, which are short, and
//! which legs of a position pair up into a vertical spread for margin.

use vstd::prelude::*;

use crate::text::str_eq;

verus! {

/// How a leg is priced.
#[derive(Debug, Clone, Copy, PartialEq, Eq, Structural)]
pub enum LegKind {
    /// `"EQ"`: priced at the underlying itself.
    Underlying,
    /// `"CE"`: a call option.
    Call,
    /// Any other type (`"PE"` in practice): a put option.
    Put,
}

/// The kind of a leg of option type `option_type`.
pub open spec fn spec_leg_kind(option_type: Seq<char>) -> LegKind {
    if option_type == "EQ"@ {
        LegKind::Underlying
    } else if option_type == "CE"@ {
        LegKind::Call
    } else {
        LegKind::Put
    }
}

/// Classifies a leg by its option type: `"EQ"` is the underlying, `"CE"` a
/// call, every other type a put.
pub fn leg_kind(option_type: &str) -> (k: LegKind)
    ensures
        k == spec_leg_kind(option_type@),
{
    if str_eq(option_type, "EQ") {
        LegKind::Underlying
    } else if str_eq(option_type, "CE") {
        LegKind::Call
    } else {
        LegKind::Put
    }
}

/// Whether a leg with action `action` is short (`"SELL"`): it takes in
/// premium on entry and pays it back on exit. Every other action is long.
pub fn is_short_leg(action: &str) -> (short: bool)
    ensures
        short == (action@ == "SELL"@),
{
    str_eq(action, "SELL")
}

/// The type and action of one leg of a position.
#[derive(Debug, Clone)]
pub struct LegSide {
    pub option_type: String,
    pub action: String,
}

/// Whether leg `l` has option type `t` and action `a`.
pub open spec fn side_is(l: LegSide, t: Seq<char>, a: Seq<char>) -> bool {
    l.option_type@ == t && l.action@ == a
}

/// The first index of a leg of type `t` and action `a`, if any.
pub open spec fn first_index(legs: Seq<LegSide>, t: Seq<char>, a: Seq<char>) -> Option<int>
    decreases legs.len(),
{
    if legs.len() == 0 {
        None
    } else {
        match first_index(legs.drop_last(), t, a) {
            Some(i) => Some(i),
            None => if side_is(legs.last(), t, a) {
                Some(legs.len() - 1)
            } else {
                None
            },
        }
    }
}

/// How the legs of one option type pair into a vertical spread.
#[derive(Debug, Clone, Copy, PartialEq, Eq, Structural)]
pub enum SpreadLegs {
    /// No long (BUY) leg of that type: no spread, width zero.
    NoLongLeg,
    /// The first long leg and the first short (SELL) leg of that type.
    Pair { long: usize, short: usize },
    /// A long leg with no short leg of the same type to pair it with.
    MissingShort { long: usize },
}

/// The pairing `spread_legs` reports for `legs` and type `t`.
pub open spec fn spec_spread_legs(legs: Seq<LegSide>, t: Seq<char>) -> SpreadLegs {
    match first_index(legs, t, "BUY"@) {
        None => SpreadLegs::NoLongLeg,
        Some(l) => match first_index(legs, t, "SELL"@) {
            Some(s) => SpreadLegs::Pair { long: l as usize, short: s as usize },
            None => SpreadLegs::MissingShort { long: l as usize },
        },
    }
}

proof fn lemma_first_index(legs: Seq<LegSide>, t: Seq<char>, a: Seq<char>)
    ensures
        match first_index(legs, t, a) {
            Some(i) => 0 <= i < legs.len() && side_is(legs[i], t, a) && forall|j: int|
                0 <= j < i ==> !side_is(#[trigger] legs[j], t, a),
            None => forall|j: int| 0 <= j < legs.len() ==> !side_is(#[trigger] legs[j], t, a),
        },
    decreases legs.len(),
{
    if legs.len() > 0 {
        let p = legs.drop_last();
        lemma_first_index(p, t, a);
        assert forall|j: int| 0 <= j < p.len() implies p[j] == legs[j] by {}
    }
}

/// Index of the first leg of type `t` and action `a`.
fn find_leg(legs: &Vec<LegSide>, t: &str, a: &str) -> (r: Option<usize>)
    ensures
        match r {
            Some(i) => first_index(legs@, t@, a@) == Some(i as int),
            None => first_index(legs@, t@, a@) is None,
        },
{
    proof {
        lemma_first_index(legs@, t@, a@);
    }
    let n = legs.len();
    let mut i: usize = 0;
    while i < n
        invariant
            n == legs@.len(),
            i <= n,
            forall|j: int| 0 <= j < i ==> !side_is(#[trigger] legs@[j], t@, a@),
        decreases n - i,
    {
        let l = &legs[i];
        if str_eq(l.option_type.as_str(), t) && str_eq(l.action.as_str(), a) {
            proof {
                lemma_first_index(legs@, t@, a@);
                match first_index(legs@, t@, a@) {
                    Some(k) => {
                        if k < i {
                            assert(!side_is(legs@[k], t@, a@));
                        } else if k > i {
                            assert(side_is(legs@[i as int], t@, a@));
                        }
                    },
                    None => {
                        assert(side_is(legs@[i as int], t@, a@));
                    },
                }
            }
            return Some(i);
        }
        i += 1;
    }
    None
}

/// Pairs the first long (BUY) leg of type `option_type` with the first short
/// (SELL) leg of that type. A long leg without a short partner is reported as
/// `MissingShort`; the engine treats that as a malformed position.
pub fn spread_legs(legs: &Vec<LegSide>, option_type: &str) -> (r: SpreadLegs)
    ensures
        r == spec_spread_legs(legs@, option_type@),
{
    match find_leg(legs, option_type, "BUY") {
        None => SpreadLegs::NoLongLeg,
        Some(long) => match find_leg(legs, option_type, "SELL") {
            Some(short) => SpreadLegs::Pair { long, short },
            None => SpreadLegs::MissingShort { long },
        },
    }
}

/// Whether any leg is priced off the underlying (type `"EQ"`).
pub fn has_underlying_leg(legs: &Vec<LegSide>) -> (r: bool)
    ensures
        r == exists|i: int| 0 <= i < legs@.len() && (#[trigger] legs@[i]).option_type@ == "EQ"@,
{
    let n = legs.len();
    let mut i: usize = 0;
    while i < n
        invariant
            n == legs@.len(),
            i <= n,
            forall|j: int| 0 <= j < i ==> (#[trigger] legs@[j]).option_type@ != "EQ"@,
        decreases n - i,
    {
        if str_eq(legs[i].option_type.as_str(), "EQ") {
            return true;
        }
        i += 1;
    }
    false
}

/// Whether leg `i` is the first leg of type `t` with action `a`.
pub open spec fn is_first_leg(legs: Seq<LegSide>, t: Seq<char>, a: Seq<char>, i: int) -> bool {
    &&& 0 <= i < legs.len()
    &&& legs[i].option_type@ == t
    &&& legs[i].action@ == a
    &&& forall|j: int|
        0 <= j < i ==> !((#[trigger] legs[j]).option_type@ == t && legs[j].action@ == a)
}

/// Spread pairing, whatever the order of the legs: when leg `long` is the
/// first BUY leg of type `t` and leg `short` the first SELL leg of that type,
/// the pairing is `Pair { long, short }` (the long leg may come before or
/// after the short one). A first BUY leg with no SELL leg of its type is
/// `MissingShort`, and with no BUY leg of the type there is no spread.
pub proof fn lemma_spread_pairs_first_long_and_short(
    legs: Seq<LegSide>,
    t: Seq<char>,
    long: int,
    short: int,
)
    requires
        legs.len() <= usize::MAX,
    ensures
        is_first_leg(legs, t, "BUY"@, long) && is_first_leg(legs, t, "SELL"@, short)
            ==> spec_spread_legs(legs, t) == (SpreadLegs::Pair {
            long: long as usize,
            short: short as usize,
        }),
        is_first_leg(legs, t, "BUY"@, long) && (forall|j: int|
            0 <= j < legs.len() ==> !((#[trigger] legs[j]).option_type@ == t && legs[j].action@
                == "SELL"@)) ==> spec_spread_legs(legs, t) == (SpreadLegs::MissingShort {
            long: long as usize,
        }),
        (forall|j: int|
            0 <= j < legs.len() ==> !((#[trigger] legs[j]).option_type@ == t && legs[j].action@
                == "BUY"@)) ==> spec_spread_legs(legs, t) == SpreadLegs::NoLongLeg,
{
    lemma_first_index(legs, t, "BUY"@);
    lemma_first_index(legs, t, "SELL"@);
    if is_first_leg(legs, t, "BUY"@, long) {
        match first_index(legs, t, "BUY"@) {
            Some(l) => {
                if l < long {
                    assert(!(legs[l].option_type@ == t && legs[l].action@ == "BUY"@));
                }
                if l > long {
                    assert(!side_is(legs[long], t, "BUY"@));
                }
            },
            None => {
                assert(!side_is(legs[long], t, "BUY"@));
            },
        }
    }
    if is_first_leg(legs, t, "SELL"@, short) {
        match first_index(legs, t, "SELL"@) {
            Some(l) => {
                if l < short {
                    assert(!(legs[l].option_type@ == t && legs[l].action@ == "SELL"@));
                }
                if l > short {
                    assert(!side_is(legs[short], t, "SELL"@));
                }
            },
            None => {
                assert(!side_is(legs[short], t, "SELL"@));
            },
        }
    }
    if forall|j: int|
        0 <= j < legs.len() ==> !((#[trigger] legs[j]).option_type@ == t && legs[j].action@
            == "SELL"@) {
        match first_index(legs, t, "SELL"@) {
            Some(l) => {
                assert(!(legs[l].option_type@ == t && legs[l].action@ == "SELL"@));
            },
            None => {},
        }
    }
    if forall|j: int|
        0 <= j < legs.len() ==> !((#[trigger] legs[j]).option_type@ == t && legs[j].action@
            == "BUY"@) {
        match first_index(legs, t, "BUY"@) {
            Some(l) => {
                assert(!(legs[l].option_type@ == t && legs[l].action@ == "BUY"@));
            },
            None => {},
        }
    }
}

} // verus!
