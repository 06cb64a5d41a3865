//! Bounded, time-ordered record of the prices recommended for a stock record.

use vstd::prelude::*;

verus! {

/// Largest number of samples a stock record keeps.
pub const PRICE_HISTORY_CAP: usize = 5;

/// One price sample: when it was taken (seconds since the Unix epoch) and the
/// price recommended at that moment.
#[derive(Clone, Copy, Debug, PartialEq, Eq, Structural)]
pub struct PriceHistory {
    pub created_at: i64,
    pub price: i64,
}

/// Samples in the order they were taken, oldest first.
#[derive(Clone, Debug, PartialEq, Eq)]
pub struct PriceHistoryVec(pub Vec<PriceHistory>);

impl View for PriceHistoryVec {
    type V = Seq<PriceHistory>;

    open spec fn view(&self) -> Seq<PriceHistory> {
        self.0@
    }
}

/// The history that results from taking one more sample under a capacity:
/// the sample goes to the end, and only the newest `cap` entries survive.
pub open spec fn bounded_append(history: Seq<PriceHistory>, sample: PriceHistory, cap: nat) -> Seq<
    PriceHistory,
> {
    let all = history.push(sample);
    if all.len() <= cap {
        all
    } else {
        all.subrange(all.len() - cap, all.len() as int)
    }
}

/// Appending under a capacity never exceeds it, keeps the new sample last,
/// and evicts from the front only: what survives is exactly the tail of the
/// old history followed by the new sample, in unchanged order.
pub proof fn lemma_bounded_append_is_fifo(history: Seq<PriceHistory>, sample: PriceHistory, cap: nat)
    ensures
        bounded_append(history, sample, cap).len() <= cap,
        bounded_append(history, sample, cap).len() == if history.len() + 1 <= cap {
            history.len() + 1
        } else {
            cap
        },
        cap >= 1 ==> bounded_append(history, sample, cap).last() == sample,
        forall|i: int|
            0 <= i < bounded_append(history, sample, cap).len() ==> bounded_append(
                history,
                sample,
                cap,
            )[i] == history.push(sample)[history.len() + 1 - bounded_append(
                history,
                sample,
                cap,
            ).len() + i],
        history.len() < cap ==> bounded_append(history, sample, cap) == history.push(sample),
        history.len() == cap && cap >= 1 ==> bounded_append(history, sample, cap)
            == history.subrange(1, history.len() as int).push(sample),
{
    if history.len() == cap && cap >= 1 {
        assert(bounded_append(history, sample, cap) =~= history.subrange(
            1,
            history.len() as int,
        ).push(sample));
    }
}

impl PriceHistoryVec {
    /// Whether the history respects the capacity of a stock record.
    pub open spec fn wf(&self) -> bool {
        self@.len() <= PRICE_HISTORY_CAP
    }

    /// The empty history.
    pub fn new() -> (r: Self)
        ensures
            r@ == Seq::<PriceHistory>::empty(),
            r.wf(),
    {
        PriceHistoryVec(Vec::new())
    }

    /// Number of samples held.
    pub fn len(&self) -> (n: usize)
        ensures
            n == self@.len(),
    {
        self.0.len()
    }

    /// The most recent sample, if any.
    pub fn latest(&self) -> (r: Option<PriceHistory>)
        ensures
            self@.len() == 0 ==> r is None,
            self@.len() > 0 ==> r == Some(self@.last()),
    {
        let n = self.0.len();
        if n == 0 {
            None
        } else {
            Some(self.0[n - 1])
        }
    }

    /// Takes one more sample, keeping only the newest `cap` entries.
    pub fn push_bounded(&mut self, sample: PriceHistory, cap: usize)
        ensures
            final(self)@ == bounded_append(old(self)@, sample, cap as nat),
    {
        self.0.push(sample);
        let ghost all = self.0@;
        let total = self.0.len();
        if total > cap {
            let excess = total - cap;
            let mut kept: Vec<PriceHistory> = Vec::new();
            let mut i = excess;
            while i < total
                invariant
                    excess <= i <= total,
                    total == self.0@.len(),
                    self.0@ == all,
                    kept@ == all.subrange(excess as int, i as int),
                decreases total - i,
            {
                kept.push(self.0[i]);
                i = i + 1;
            }
            self.0 = kept;
        }
    }

    /// Takes one more sample under the capacity of a stock record.
    pub fn record(&mut self, sample: PriceHistory)
        ensures
            final(self)@ == bounded_append(old(self)@, sample, PRICE_HISTORY_CAP as nat),
            final(self).wf(),
    {
        self.push_bounded(sample, PRICE_HISTORY_CAP);
    }
}

} // verus!
