//! Deferred fills: a decision made on one bar executes at the bar its fill
//! model names, never earlier, and a decision whose fill bar lies past the
//! data is dropped rather than filled on its own bar.

use vstd::prelude::*;

verus! {

/// A decision waiting for its fill bar.
pub struct PendingFill<S> {
    pub signal: S,
    pub fill_bar: usize,
}

/// What `decide` does with a new decision.
pub enum Dispatch<S> {
    /// The fill bar is the decision bar: execute now.
    Now(S),
    /// The fill bar is another bar within the data: held until that bar.
    Deferred,
    /// The fill bar lies past the last bar: the decision never fills.
    Dropped,
}

/// The outcome of a decision made on `bar` with fill bar `fill_bar`, over a
/// run of `bars` bars with `waiting` pending: what is dispatched and what is
/// pending afterwards.
pub open spec fn decide_outcome<S>(
    waiting: Option<(S, nat)>,
    bars: nat,
    bar: nat,
    fill_bar: nat,
    signal: S,
) -> (Dispatch<S>, Option<(S, nat)>) {
    if fill_bar >= bars {
        (Dispatch::Dropped, waiting)
    } else if fill_bar == bar {
        (Dispatch::Now(signal), waiting)
    } else {
        (Dispatch::Deferred, Some((signal, fill_bar)))
    }
}

/// What reaching bar `bar` hands out with `waiting` pending, and what stays
/// pending.
pub open spec fn due_outcome<S>(waiting: Option<(S, nat)>, bar: nat) -> (Option<S>, Option<
    (S, nat),
>) {
    match waiting {
        Some((s, b)) => if b == bar {
            (Some(s), None)
        } else {
            (None, waiting)
        },
        None => (None, None),
    }
}

/// Holds at most one decision awaiting its fill bar (the engine carries a
/// single position, so one pending decision suffices).
pub struct FillScheduler<S> {
    n_bars: usize,
    pending: Option<PendingFill<S>>,
}

impl<S> FillScheduler<S> {
    /// Number of bars in the run.
    pub closed spec fn bars(&self) -> nat {
        self.n_bars as nat
    }

    /// The decision awaiting its fill bar, with that bar.
    pub closed spec fn waiting(&self) -> Option<(S, nat)> {
        match self.pending {
            Some(p) => Some((p.signal, p.fill_bar as nat)),
            None => None,
        }
    }

    /// A scheduler for a run over `n_bars` bars, with nothing pending.
    pub fn new(n_bars: usize) -> (s: Self)
        ensures
            s.bars() == n_bars,
            s.waiting() is None,
    {
        FillScheduler { n_bars, pending: None }
    }

    /// Whether a decision is awaiting its fill bar.
    pub fn has_pending(&self) -> (r: bool)
        ensures
            r == self.waiting() is Some,
    {
        self.pending.is_some()
    }

    /// Hands out the decision due at `bar`, if one is pending for exactly that
    /// bar; anything else stays pending.
    pub fn take_due(&mut self, bar: usize) -> (r: Option<S>)
        ensures
            final(self).bars() == old(self).bars(),
            (r, final(self).waiting()) == due_outcome(old(self).waiting(), bar as nat),
    {
        let due = match &self.pending {
            Some(p) => p.fill_bar == bar,
            None => false,
        };
        if due {
            match self.pending.take() {
                Some(p) => Some(p.signal),
                None => None,
            }
        } else {
            None
        }
    }

    /// Routes a decision made on `bar` whose fill model names `fill_bar`:
    /// past the data it is dropped, on the decision bar it executes now, and
    /// otherwise it replaces whatever was pending.
    pub fn decide(&mut self, bar: usize, fill_bar: usize, signal: S) -> (r: Dispatch<S>)
        ensures
            final(self).bars() == old(self).bars(),
            (r, final(self).waiting()) == decide_outcome(
                old(self).waiting(),
                old(self).bars(),
                bar as nat,
                fill_bar as nat,
                signal,
            ),
    {
        if fill_bar >= self.n_bars {
            Dispatch::Dropped
        } else if fill_bar == bar {
            Dispatch::Now(signal)
        } else {
            self.pending = Some(PendingFill { signal, fill_bar });
            Dispatch::Deferred
        }
    }
}

/// No lookahead under a next-bar fill: a decision on bar `bar` whose fill bar
/// is `bar + 1` never executes on its own bar. When a next bar exists the
/// decision is handed out on exactly that bar; on the last bar it is dropped
/// and what was pending stays as it was.
pub proof fn lemma_next_bar_fill_has_no_lookahead<S>(
    waiting: Option<(S, nat)>,
    bars: nat,
    bar: nat,
    signal: S,
)
    ensures
        !(decide_outcome(waiting, bars, bar, bar + 1, signal).0 is Now),
        bar + 1 < bars ==> due_outcome(decide_outcome(waiting, bars, bar, bar + 1, signal).1, bar)
            == (None::<S>, decide_outcome(waiting, bars, bar, bar + 1, signal).1),
        bar + 1 < bars ==> due_outcome(
            decide_outcome(waiting, bars, bar, bar + 1, signal).1,
            bar + 1,
        ).0 == Some(signal),
        bar + 1 >= bars ==> decide_outcome(waiting, bars, bar, bar + 1, signal) == (
            Dispatch::<S>::Dropped,
            waiting,
        ),
{
}

/// A same-bar fill executes a decision on its own bar, as long as that bar
/// is part of the data, and leaves what was pending untouched.
pub proof fn lemma_same_bar_fill_is_immediate<S>(
    waiting: Option<(S, nat)>,
    bars: nat,
    bar: nat,
    signal: S,
)
    requires
        bar < bars,
    ensures
        decide_outcome(waiting, bars, bar, bar, signal) == (Dispatch::Now(signal), waiting),
{
}

/// A decision is only ever handed out on its own fill bar: whatever reaching
/// bar `bar` hands out was pending for exactly `bar`.
pub proof fn lemma_fill_only_at_fill_bar<S>(waiting: Option<(S, nat)>, bar: nat)
    ensures
        due_outcome(waiting, bar).0 is Some ==> waiting is Some && waiting.unwrap().1 == bar
            && due_outcome(waiting, bar).0 == Some(waiting.unwrap().0),
{
}

/// What is pending at the start of bar `k` of a run over `bars` bars in
/// which the decision made on bar `i` (if any) is `decisions[i]` and every
/// decision fills on the next bar: each bar first hands out what is due,
/// then routes its own decision.
pub open spec fn next_bar_waiting<S>(decisions: Seq<Option<S>>, bars: nat, k: nat) -> Option<
    (S, nat),
>
    decreases k,
{
    if k == 0 {
        None
    } else {
        let i = (k - 1) as nat;
        let w = due_outcome(next_bar_waiting(decisions, bars, i), i).1;
        match decisions[i as int] {
            Some(s) => decide_outcome(w, bars, i, i + 1, s).1,
            None => w,
        }
    }
}

/// The decision executed at the start of bar `k` of such a run.
pub open spec fn next_bar_executed<S>(decisions: Seq<Option<S>>, bars: nat, k: nat) -> Option<S> {
    due_outcome(next_bar_waiting(decisions, bars, k), k).0
}

/// Over a whole run with next-bar fills, the decision made on bar `t` is
/// executed on bar `t + 1` and on no other bar: nothing executes on the first
/// bar, bar `k` executes exactly the decision of bar `k - 1`, and a decision on
/// the last bar is never executed (nothing is pending once the run is over).
pub proof fn lemma_next_bar_run<S>(decisions: Seq<Option<S>>, bars: nat, k: nat)
    requires
        decisions.len() >= bars,
        k <= bars,
    ensures
        next_bar_waiting(decisions, bars, k) == (if k > 0 && k < bars && decisions[k - 1] is Some {
            Some((decisions[k - 1].unwrap(), k))
        } else {
            None::<(S, nat)>
        }),
        k == 0 ==> next_bar_executed(decisions, bars, k) is None,
        0 < k < bars ==> next_bar_executed(decisions, bars, k) == decisions[k - 1],
        k == bars ==> next_bar_waiting(decisions, bars, k) is None,
    decreases k,
{
    if k > 0 {
        lemma_next_bar_run(decisions, bars, (k - 1) as nat);
    }
}

} // verus!
