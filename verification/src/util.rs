//! A saturating debounce counter: the single temporal primitive behind
//! every threshold decision in the control core.

use vstd::prelude::*;

verus! {

/// The mathematical state of a [`Counter`].
pub struct CounterView {
    pub count: nat,
    pub limit: nat,
}

impl CounterView {
    /// Well-formed counters never count past their limit.
    pub open spec fn wf(self) -> bool {
        self.count <= self.limit
    }

    /// One observation: a true condition increments the count until the
    /// limit is reached; a false condition resets it to zero at once.
    pub open spec fn step(self, condition: bool) -> CounterView {
        CounterView {
            count: if condition {
                if self.count < self.limit {
                    (self.count + 1) as nat
                } else {
                    self.count
                }
            } else {
                0
            },
            limit: self.limit,
        }
    }

    /// The counter has seen its condition hold for `limit` consecutive
    /// observations.
    pub open spec fn reached(self) -> bool {
        self.count >= self.limit
    }

    /// The count after a whole sequence of observations, starting from zero.
    pub open spec fn after(limit: nat, obs: Seq<bool>) -> CounterView
        decreases obs.len(),
    {
        if obs.len() == 0 {
            CounterView { count: 0, limit }
        } else {
            CounterView::after(limit, obs.drop_last()).step(obs.last())
        }
    }
}

/// Counts consecutive cycles on which a condition holds, saturating at a
/// configured limit and resetting on the first cycle the condition fails.
/// `limit` consecutive positive observations mean the condition has held
/// for `limit` sampling periods, which is how every duration threshold of
/// the controller is expressed.
pub struct Counter {
    counter: u32,
    max: u32,
}

impl View for Counter {
    type V = CounterView;

    closed spec fn view(&self) -> CounterView {
        CounterView { count: self.counter as nat, limit: self.max as nat }
    }
}

impl Counter {
    /// A fresh counter with the given limit and a count of zero.
    pub fn new(m: u32) -> (r: Self)
        ensures
            r@ == (CounterView { count: 0, limit: m as nat }),
            r@.wf(),
    {
        Self { counter: 0, max: m }
    }

    /// Feed one observation of the condition.
    pub fn count(&mut self, b: bool) -> (r: &Self)
        requires
            old(self)@.wf(),
        ensures
            final(self)@ == old(self)@.step(b),
            final(self)@.wf(),
            *r == *final(self),
    {
        if b {
            if self.counter < self.max {
                self.counter += 1;
            }
        } else {
            self.counter = 0;
        }
        self
    }

    /// Whether the condition has held for `limit` consecutive observations.
    pub fn is_reach_limit(&self) -> (r: bool)
        ensures
            r == self@.reached(),
    {
        self.counter >= self.max
    }

    /// Drop the count back to zero, keeping the limit.
    pub fn reset(&mut self) -> (r: &Self)
        ensures
            final(self)@ == (CounterView { count: 0, limit: old(self)@.limit }),
            *r == *final(self),
    {
        self.counter = 0;
        self
    }
}

/// Law: a single observation moves the count by at most one, never
/// decreases it while the condition holds, resets it to zero the moment
/// the condition fails, and keeps it within the limit; and a well-formed
/// counter has reached its limit exactly when the count equals the limit.
pub proof fn lemma_counter_step(c: CounterView, condition: bool)
    requires
        c.wf(),
    ensures
        condition ==> c.step(condition).count >= c.count,
        condition ==> c.step(condition).count <= c.count + 1,
        !condition ==> c.step(condition).count == 0,
        c.step(condition).wf(),
        c.step(condition).limit == c.limit,
        c.step(condition).reached() <==> c.step(condition).count == c.limit,
{
}

/// The length of the unbroken run of positive observations at the end of
/// a sequence.
pub open spec fn trailing_true_run(obs: Seq<bool>) -> nat
    decreases obs.len(),
{
    if obs.len() == 0 {
        0
    } else if obs.last() {
        trailing_true_run(obs.drop_last()) + 1
    } else {
        0
    }
}

/// Law: after any sequence of observations the count is exactly the
/// length of the trailing unbroken run of positive observations, capped
/// at the limit. In particular a condition that fails at least once in
/// every `limit` consecutive observations never satisfies the counter,
/// and one that holds without interruption satisfies it exactly on the
/// `limit`-th observation.
pub proof fn lemma_counter_counts_trailing_run(limit: nat, obs: Seq<bool>)
    ensures
        CounterView::after(limit, obs).count == if trailing_true_run(obs) <= limit {
            trailing_true_run(obs)
        } else {
            limit
        },
    decreases obs.len(),
{
    if obs.len() > 0 {
        lemma_counter_counts_trailing_run(limit, obs.drop_last());
        lemma_counter_after(limit, obs.drop_last());
    }
}

/// Law: over any sequence of observations the count stays within the
/// limit, and after an unbroken run of positive observations the count is
/// the length of the run capped at the limit — so the counter reaches its
/// limit exactly on the `limit`-th consecutive positive observation.
pub proof fn lemma_counter_after(limit: nat, obs: Seq<bool>)
    ensures
        CounterView::after(limit, obs).wf(),
        CounterView::after(limit, obs).limit == limit,
        (forall|i: int| 0 <= i < obs.len() ==> obs[i]) ==> CounterView::after(limit, obs).count == if obs.len() <= limit {
            obs.len() as nat
        } else {
            limit
        },
    decreases obs.len(),
{
    if obs.len() > 0 {
        lemma_counter_after(limit, obs.drop_last());
    }
}

} // verus!
