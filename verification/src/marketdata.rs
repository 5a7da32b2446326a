//! Market-data types and the option-quote overlay used for real-quote marking.
//!
//! Prices are kept as the bit patterns of their `f64` values (`f64::to_bits`),
//! so a quote is stored and handed back bit for bit.

use vstd::prelude::*;

use vstd::std_specs::cmp::PartialEqSpecImpl;

use crate::calendar::{bar_timestamp, spec_bar_timestamp};

verus! {

/// A real option (or underlying) quote at one bar. Each price is the bit
/// pattern of an `f64`. Two quotes are equal when their prices are equal as
/// `f64` values (so `0.0` equals `-0.0` and a NaN equals nothing).
#[derive(Debug, Clone, Copy)]
pub struct Quote {
    pub open: u64,
    pub high: u64,
    pub low: u64,
    pub close: u64,
    pub bid: Option<u64>,
    pub ask: Option<u64>,
}

/// Whether the `f64` values with bit patterns `a` and `b` are equal under
/// IEEE 754: neither is a NaN, and they are the same pattern or both zeros.
pub open spec fn spec_f64_bits_eq(a: u64, b: u64) -> bool {
    let abs_a = a & 0x7fff_ffff_ffff_ffffu64;
    let abs_b = b & 0x7fff_ffff_ffff_ffffu64;
    &&& abs_a <= 0x7ff0_0000_0000_0000u64
    &&& abs_b <= 0x7ff0_0000_0000_0000u64
    &&& (a == b || (abs_a == 0 && abs_b == 0))
}

/// `f64` equality on optional prices: both absent, or both present and equal.
pub open spec fn spec_opt_f64_bits_eq(a: Option<u64>, b: Option<u64>) -> bool {
    match (a, b) {
        (Some(x), Some(y)) => spec_f64_bits_eq(x, y),
        (None, None) => true,
        _ => false,
    }
}

/// `f64` equality of the prices with bit patterns `a` and `b`.
pub fn f64_bits_eq(a: u64, b: u64) -> (r: bool)
    ensures
        r == spec_f64_bits_eq(a, b),
{
    let abs_a = a & 0x7fff_ffff_ffff_ffffu64;
    let abs_b = b & 0x7fff_ffff_ffff_ffffu64;
    abs_a <= 0x7ff0_0000_0000_0000u64 && abs_b <= 0x7ff0_0000_0000_0000u64 && (a == b || (abs_a
        == 0 && abs_b == 0))
}

fn opt_f64_bits_eq(a: Option<u64>, b: Option<u64>) -> (r: bool)
    ensures
        r == spec_opt_f64_bits_eq(a, b),
{
    match (a, b) {
        (Some(x), Some(y)) => f64_bits_eq(x, y),
        (None, None) => true,
        _ => false,
    }
}

/// Whether quotes `a` and `b` hold equal `f64` prices field by field.
pub open spec fn spec_quote_eq(a: Quote, b: Quote) -> bool {
    &&& spec_f64_bits_eq(a.open, b.open)
    &&& spec_f64_bits_eq(a.high, b.high)
    &&& spec_f64_bits_eq(a.low, b.low)
    &&& spec_f64_bits_eq(a.close, b.close)
    &&& spec_opt_f64_bits_eq(a.bid, b.bid)
    &&& spec_opt_f64_bits_eq(a.ask, b.ask)
}

impl PartialEq for Quote {
    fn eq(&self, other: &Self) -> (r: bool) {
        f64_bits_eq(self.open, other.open) && f64_bits_eq(self.high, other.high) && f64_bits_eq(
            self.low,
            other.low,
        ) && f64_bits_eq(self.close, other.close) && opt_f64_bits_eq(self.bid, other.bid)
            && opt_f64_bits_eq(self.ask, other.ask)
    }
}

impl PartialEqSpecImpl for Quote {
    open spec fn obeys_eq_spec() -> bool {
        true
    }

    open spec fn eq_spec(&self, other: &Quote) -> bool {
        spec_quote_eq(*self, *other)
    }
}

impl Quote {
    /// Both sides of the quoted market, `(bid, ask)`, when both are present.
    /// The quoted spread is `ask - bid` of these two prices.
    pub fn quoted_sides(&self) -> (r: Option<(u64, u64)>)
        ensures
            r == match (self.bid, self.ask) {
                (Some(b), Some(a)) => Some((b, a)),
                _ => None,
            },
    {
        match (self.bid, self.ask) {
            (Some(b), Some(a)) => Some((b, a)),
            _ => None,
        }
    }
}

/// Identifies an option leg for quote lookup: the strike (as the bit pattern
/// of its `f64` value) and the option type (`"CE"` / `"PE"`). Two keys are
/// equal exactly when the strike bits and the option type are equal.
#[derive(Debug, PartialEq, Eq, Hash)]
pub struct InstrumentKey {
    pub strike: u64,
    pub option_type: String,
}

impl Clone for InstrumentKey {
    fn clone(&self) -> (k: Self)
        ensures
            k == *self,
    {
        InstrumentKey { strike: self.strike, option_type: self.option_type.clone() }
    }
}

impl View for InstrumentKey {
    type V = (u64, Seq<char>);

    open spec fn view(&self) -> (u64, Seq<char>) {
        (self.strike, self.option_type@)
    }
}

/// A quote lookup key: the bar timestamp and the instrument.
pub type QuoteKey = (i64, (u64, Seq<char>));

/// Supplies real option quotes when a series exists for the instrument at a
/// bar. `None` means the engine falls back to model pricing.
pub trait OptionQuoteSource: Send {
    fn option_quote(&self, key: &InstrumentKey, bar_ts: i64) -> Option<Quote>;
}

/// The key under which a stored entry is found.
pub open spec fn entry_key(e: (i64, InstrumentKey, Quote)) -> QuoteKey {
    (e.0, e.1@)
}

/// No two entries share a key.
pub open spec fn keys_unique(s: Seq<(i64, InstrumentKey, Quote)>) -> bool {
    forall|i: int, j: int|
        0 <= i < s.len() && 0 <= j < s.len() && i != j ==> entry_key(#[trigger] s[i])
            != entry_key(#[trigger] s[j])
}

/// The map that a sequence of entries describes.
pub open spec fn entries_map(s: Seq<(i64, InstrumentKey, Quote)>) -> Map<QuoteKey, Quote>
    decreases s.len(),
{
    if s.len() == 0 {
        Map::empty()
    } else {
        entries_map(s.drop_last()).insert(entry_key(s.last()), s.last().2)
    }
}

/// What a lookup of `key` at `bar_ts` gives back from the quotes `m`.
pub open spec fn quote_at(m: Map<QuoteKey, Quote>, bar_ts: i64, key: (u64, Seq<char>)) -> Option<
    Quote,
> {
    if m.dom().contains((bar_ts, key)) {
        Some(m[(bar_ts, key)])
    } else {
        None
    }
}

proof fn lemma_entries_map(s: Seq<(i64, InstrumentKey, Quote)>)
    requires
        keys_unique(s),
    ensures
        forall|k: QuoteKey|
            #[trigger] entries_map(s).dom().contains(k) <==> exists|i: int|
                0 <= i < s.len() && entry_key(#[trigger] s[i]) == k,
        forall|i: int| 0 <= i < s.len() ==> #[trigger] entries_map(s)[entry_key(s[i])] == s[i].2,
    decreases s.len(),
{
    if s.len() > 0 {
        let p = s.drop_last();
        assert forall|i: int, j: int|
            0 <= i < p.len() && 0 <= j < p.len() && i != j implies entry_key(#[trigger] p[i])
            != entry_key(#[trigger] p[j]) by {
            assert(p[i] == s[i] && p[j] == s[j]);
        }
        lemma_entries_map(p);
        let n = s.len() - 1;
        assert(s.last() == s[n]);
        assert(entries_map(s) == entries_map(p).insert(entry_key(s[n]), s[n].2));
        assert forall|k: QuoteKey| #[trigger]
            entries_map(s).dom().contains(k) <==> exists|i: int|
                0 <= i < s.len() && entry_key(#[trigger] s[i]) == k by {
            if entries_map(s).dom().contains(k) {
                if k == entry_key(s[n]) {
                } else {
                    assert(entries_map(p).dom().contains(k));
                    let i = choose|i: int| 0 <= i < p.len() && entry_key(#[trigger] p[i]) == k;
                    assert(s[i] == p[i]);
                }
            }
            if exists|i: int| 0 <= i < s.len() && entry_key(#[trigger] s[i]) == k {
                let i = choose|i: int| 0 <= i < s.len() && entry_key(#[trigger] s[i]) == k;
                if i < n {
                    assert(p[i] == s[i]);
                }
            }
        }
        assert forall|i: int| 0 <= i < s.len() implies #[trigger] entries_map(s)[entry_key(s[i])]
            == s[i].2 by {
            if i < n {
                assert(p[i] == s[i]);
                assert(entry_key(s[i]) != entry_key(s[n]));
            }
        }
    }
}

/// In-memory `OptionQuoteSource` keyed by `(bar_ts, InstrumentKey)`.
pub struct MapOptionSource {
    quotes: Vec<(i64, InstrumentKey, Quote)>,
}

impl View for MapOptionSource {
    type V = Map<QuoteKey, Quote>;

    closed spec fn view(&self) -> Map<QuoteKey, Quote> {
        entries_map(self.quotes@)
    }
}

impl MapOptionSource {
    #[verifier::type_invariant]
    closed spec fn wf(&self) -> bool {
        keys_unique(self.quotes@)
    }

    /// The source with no quotes.
    pub fn new() -> (s: Self)
        ensures
            s@ == Map::<QuoteKey, Quote>::empty(),
    {
        MapOptionSource { quotes: Vec::new() }
    }

    /// Index of the entry stored under `(bar_ts, key)`, if any.
    fn find(&self, bar_ts: i64, key: &InstrumentKey) -> (r: Option<usize>)
        ensures
            match r {
                Some(i) => i < self.quotes@.len() && entry_key(self.quotes@[i as int]) == (
                    bar_ts,
                    key@,
                ),
                None => forall|i: int|
                    0 <= i < self.quotes@.len() ==> entry_key(#[trigger] self.quotes@[i]) != (
                        bar_ts,
                        key@,
                    ),
            },
    {
        let n = self.quotes.len();
        let mut i: usize = 0;
        while i < n
            invariant
                n == self.quotes@.len(),
                i <= n,
                forall|j: int|
                    0 <= j < i ==> entry_key(#[trigger] self.quotes@[j]) != (bar_ts, key@),
            decreases n - i,
        {
            let e = &self.quotes[i];
            if e.0 == bar_ts && e.1.strike == key.strike && e.1.option_type == key.option_type {
                return Some(i);
            }
            i += 1;
        }
        None
    }

    /// Stores `q` as the quote of `key` at `bar_ts`, replacing any earlier one.
    pub fn insert(&mut self, bar_ts: i64, key: InstrumentKey, q: Quote)
        ensures
            final(self)@ == old(self)@.insert((bar_ts, key@), q),
    {
        proof {
            use_type_invariant(&*self);
        }
        let ghost k = (bar_ts, key@);
        let ghost s0 = self.quotes@;
        match self.find(bar_ts, &key) {
            Some(i) => {
                let mut quotes = Vec::new();
                std::mem::swap(&mut quotes, &mut self.quotes);
                quotes.set(i, (bar_ts, key, q));
                let ghost s1 = quotes@;
                proof {
                    assert(s1 == s0.update(i as int, s1[i as int]));
                    assert forall|a: int, b: int|
                        0 <= a < s1.len() && 0 <= b < s1.len() && a != b implies entry_key(
                        #[trigger] s1[a],
                    ) != entry_key(#[trigger] s1[b]) by {
                        assert(entry_key(s0[i as int]) == k);
                    }
                    lemma_entries_map(s0);
                    lemma_entries_map(s1);
                    assert(entries_map(s1) =~= entries_map(s0).insert(k, q)) by {
                        assert forall|k2: QuoteKey|
                            #[trigger] entries_map(s1).dom().contains(k2) <==> entries_map(
                                s0,
                            ).insert(k, q).dom().contains(k2) by {
                            if entries_map(s1).dom().contains(k2) {
                                let j = choose|j: int|
                                    0 <= j < s1.len() && entry_key(#[trigger] s1[j]) == k2;
                                if j != i {
                                    assert(entry_key(s0[j]) == k2);
                                }
                            }
                            if entries_map(s0).dom().contains(k2) {
                                let j = choose|j: int|
                                    0 <= j < s0.len() && entry_key(#[trigger] s0[j]) == k2;
                                if j != i {
                                    assert(entry_key(s1[j]) == k2);
                                } else {
                                    assert(entry_key(s1[j]) == k2);
                                }
                            }
                            if k2 == k {
                                assert(entry_key(s1[i as int]) == k2);
                            }
                        }
                        assert forall|k2: QuoteKey| #[trigger]
                            entries_map(s1).dom().contains(k2) implies entries_map(s1)[k2]
                            == entries_map(s0).insert(k, q)[k2] by {
                            let j = choose|j: int|
                                0 <= j < s1.len() && entry_key(#[trigger] s1[j]) == k2;
                            if j != i {
                                assert(s1[j] == s0[j]);
                            }
                        }
                    }
                }
                self.quotes = quotes;
            },
            None => {
                let mut quotes = Vec::new();
                std::mem::swap(&mut quotes, &mut self.quotes);
                quotes.push((bar_ts, key, q));
                let ghost s1 = quotes@;
                proof {
                    assert(s1.drop_last() =~= s0);
                    assert forall|a: int, b: int|
                        0 <= a < s1.len() && 0 <= b < s1.len() && a != b implies entry_key(
                        #[trigger] s1[a],
                    ) != entry_key(#[trigger] s1[b]) by {
                        if a < s0.len() {
                            assert(s1[a] == s0[a]);
                        }
                        if b < s0.len() {
                            assert(s1[b] == s0[b]);
                        }
                    }
                }
                self.quotes = quotes;
            },
        }
    }
}

/// The quotes stored by inserting `rows` in order, each under the timestamp
/// its text reads as: where rows repeat a (bar, instrument) key, the last
/// one stands.
pub open spec fn rows_map(rows: Seq<(String, InstrumentKey, Quote)>) -> Map<QuoteKey, Quote>
    decreases rows.len(),
{
    if rows.len() == 0 {
        Map::empty()
    } else {
        let r = rows.last();
        rows_map(rows.drop_last()).insert((spec_bar_timestamp(r.0@), r.1@), r.2)
    }
}

/// The key a long-format row is stored under.
pub open spec fn row_key(r: (String, InstrumentKey, Quote)) -> QuoteKey {
    (spec_bar_timestamp(r.0@), r.1@)
}

/// The last row wins: when row `i` is the last row stored under its key, the
/// source built from the rows gives back that row's quote for the key. A key
/// that no row is stored under has no quote.
pub proof fn lemma_rows_last_wins(rows: Seq<(String, InstrumentKey, Quote)>, i: int, k: QuoteKey)
    ensures
        0 <= i < rows.len() && (forall|j: int|
            i < j < rows.len() ==> row_key(#[trigger] rows[j]) != row_key(rows[i])) ==> quote_at(
            rows_map(rows),
            row_key(rows[i]).0,
            row_key(rows[i]).1,
        ) == Some(rows[i].2),
        (forall|j: int| 0 <= j < rows.len() ==> row_key(#[trigger] rows[j]) != k) ==> quote_at(
            rows_map(rows),
            k.0,
            k.1,
        ) is None,
    decreases rows.len(),
{
    if rows.len() > 0 {
        let p = rows.drop_last();
        let n = rows.len() - 1;
        assert(rows.last() == rows[n]);
        assert forall|j: int| 0 <= j < p.len() implies p[j] == rows[j] by {}
        if 0 <= i < n && (forall|j: int|
            i < j < rows.len() ==> row_key(#[trigger] rows[j]) != row_key(rows[i])) {
            assert(row_key(rows[n]) != row_key(rows[i]));
            assert forall|j: int| i < j < p.len() implies row_key(#[trigger] p[j]) != row_key(p[i]) by {
                assert(p[j] == rows[j]);
            }
            lemma_rows_last_wins(p, i, k);
        }
        if forall|j: int| 0 <= j < rows.len() ==> row_key(#[trigger] rows[j]) != k {
            assert(row_key(rows[n]) != k);
            assert forall|j: int| 0 <= j < p.len() implies row_key(#[trigger] p[j]) != k by {
                assert(p[j] == rows[j]);
            }
            lemma_rows_last_wins(p, 0, k);
        }
    }
}

impl MapOptionSource {
    /// Builds the source from long-format rows (bar timestamp text as
    /// `%Y-%m-%d %H:%M:%S`, instrument, quote), one per bar × strike × type,
    /// inserting them in order.
    pub fn from_rows(rows: &Vec<(String, InstrumentKey, Quote)>) -> (s: Self)
        ensures
            s@ == rows_map(rows@),
    {
        let mut s = MapOptionSource::new();
        let n = rows.len();
        let mut i: usize = 0;
        while i < n
            invariant
                n == rows@.len(),
                i <= n,
                s@ == rows_map(rows@.subrange(0, i as int)),
            decreases n - i,
        {
            let row = &rows[i];
            let ts = bar_timestamp(row.0.as_str());
            s.insert(ts, row.1.clone(), row.2);
            assert(rows@.subrange(0, i + 1).drop_last() =~= rows@.subrange(0, i as int));
            i += 1;
        }
        assert(rows@.subrange(0, n as int) =~= rows@);
        s
    }
}

impl Default for MapOptionSource {
    fn default() -> (s: Self)
        ensures
            s@ == Map::<QuoteKey, Quote>::empty(),
    {
        MapOptionSource::new()
    }
}

impl OptionQuoteSource for MapOptionSource {
    fn option_quote(&self, key: &InstrumentKey, bar_ts: i64) -> (r: Option<Quote>)
        ensures
            r == quote_at(self@, bar_ts, key@),
    {
        proof {
            use_type_invariant(self);
            lemma_entries_map(self.quotes@);
        }
        match self.find(bar_ts, key) {
            Some(i) => Some(self.quotes[i].2),
            None => None,
        }
    }
}

/// A read gives back what a write wrote: after storing `q` under `key` at
/// `bar_ts`, a lookup of that key at that bar returns `q`, and every other
/// `(bar, key)` lookup returns what it returned before.
pub proof fn lemma_insert_then_lookup(
    m: Map<QuoteKey, Quote>,
    bar_ts: i64,
    key: (u64, Seq<char>),
    q: Quote,
    other_ts: i64,
    other_key: (u64, Seq<char>),
)
    ensures
        quote_at(m.insert((bar_ts, key), q), bar_ts, key) == Some(q),
        (other_ts, other_key) != (bar_ts, key) ==> quote_at(
            m.insert((bar_ts, key), q),
            other_ts,
            other_key,
        ) == quote_at(m, other_ts, other_key),
{
}

} // verus!
