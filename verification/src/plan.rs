//! Partitioning a total amount of work into equal per-worker shares.

use vstd::prelude::*;
use vstd::arithmetic::div_mod::lemma_fundamental_div_mod;
use vstd::arithmetic::div_mod::lemma_mod_division_less_than_divisor;

verus! {

/// The portion of `total` assigned to one worker: floor division, so a
/// remainder `total % workers` is left unassigned.
pub open spec fn share_of(total: int, workers: int) -> int {
    total / workers
}

/// The value every fan-out strategy returns: each of the `workers` workers
/// contributes exactly one share, and the remainder of the division is
/// dropped rather than assigned to anyone.
pub open spec fn fanout_sum(total: int, workers: int) -> int {
    workers * share_of(total, workers)
}

/// Dropping the remainder, stated exactly: the fan-out result is `total`
/// minus `total % workers`, hence never more than `total`.
pub proof fn lemma_fanout_sum_drops_remainder(total: int, workers: int)
    requires
        0 <= total,
        0 < workers,
    ensures
        fanout_sum(total, workers) == total - total % workers,
        0 <= fanout_sum(total, workers) <= total,
{
    lemma_fundamental_div_mod(total, workers);
    lemma_mod_division_less_than_divisor(total, workers);
}

/// When the worker count divides the total evenly, no work is dropped and
/// the fan-out result is the total itself.
pub proof fn lemma_fanout_sum_exact(total: int, workers: int)
    requires
        0 <= total,
        0 < workers,
        total % workers == 0,
    ensures
        fanout_sum(total, workers) == total,
{
    lemma_fanout_sum_drops_remainder(total, workers);
}

/// A single worker is assigned the whole total: with one worker the fan-out
/// strategies agree with the sequential baseline.
pub proof fn lemma_fanout_sum_single_worker(total: int)
    requires
        0 <= total,
    ensures
        fanout_sum(total, 1) == total,
{
    lemma_fanout_sum_drops_remainder(total, 1);
    lemma_mod_division_less_than_divisor(total, 1);
}

/// One fan-out invocation: how many unit increments to perform in total, and
/// how many workers to spread them over.
pub struct WorkSpec {
    pub total: usize,
    pub worker_count: usize,
}

impl WorkSpec {
    /// A work specification is meaningful only with at least one worker.
    pub open spec fn wf(self) -> bool {
        self.worker_count > 0
    }

    /// Rejects a zero worker count; any positive count is accepted as given.
    pub fn new(total: usize, worker_count: usize) -> (r: Option<WorkSpec>)
        ensures
            r.is_some() <==> worker_count > 0,
            r.is_some() ==> r.unwrap() == (WorkSpec { total, worker_count }),
            r.is_some() ==> r.unwrap().wf(),
    {
        if worker_count > 0 {
            Some(WorkSpec { total, worker_count })
        } else {
            None
        }
    }

    /// The share each worker receives: floor division, remainder dropped.
    pub fn share(&self) -> (r: usize)
        requires
            self.wf(),
        ensures
            r == share_of(self.total as int, self.worker_count as int),
    {
        self.total / self.worker_count
    }

    /// The fan-out plan: one equal share per worker, ready to hand out.
    pub fn shares(&self) -> (r: Vec<usize>)
        requires
            self.wf(),
        ensures
            r@.len() == self.worker_count,
            forall|i: int|
                0 <= i < r@.len() ==> r@[i] == share_of(
                    self.total as int,
                    self.worker_count as int,
                ),
    {
        let share = self.share();
        let mut out: Vec<usize> = Vec::new();
        for k in 0..self.worker_count
            invariant
                out@.len() == k,
                forall|i: int|
                    0 <= i < out@.len() ==> out@[i] == share_of(
                        self.total as int,
                        self.worker_count as int,
                    ),
                share == share_of(self.total as int, self.worker_count as int),
        {
            out.push(share);
        }
        out
    }
}

/// No work at all yields no sum, whatever the worker count.
pub proof fn lemma_fanout_sum_zero_total(workers: int)
    requires
        0 < workers,
    ensures
        fanout_sum(0, workers) == 0,
{
    lemma_fanout_sum_drops_remainder(0, workers);
}

/// No hidden state is carried between invocations: every strategy's contract
/// pins its result to `fanout_sum` of the inputs alone, so any two results
/// of the same `total` and worker count are equal.
pub proof fn lemma_fanout_sum_deterministic(total: int, workers: int, r1: int, r2: int)
    requires
        r1 == fanout_sum(total, workers),
        r2 == fanout_sum(total, workers),
    ensures
        r1 == r2,
{
}

} // verus!
