//! Fan-out/fan-in summation under several concurrency disciplines.
//!
//! One computation — summing a fixed number of unit increments — carried out
//! by a single-threaded baseline, by explicit worker threads, by a
//! data-parallel pool, and by workers merging into a lock-guarded shared
//! accumulator. The partitioning, the per-worker count, the reduction and the
//! shared accumulator are verified here; thread spawning and lock plumbing
//! live with the caller.

use vstd::prelude::*;
use rayon::prelude::ParallelIterator;
use rayon::prelude::IntoParallelIterator;

pub mod accumulator;
pub mod plan;
pub mod reduce;

verus! {

/// The fixed number of workers every fan-out strategy launches.
pub const WORKER_COUNT: usize = 8;

/// Baseline: performs `count` discrete increment operations in one control
/// flow and returns the final value, which is exactly `count`.
pub fn counter(count: usize) -> (r: usize)
    ensures
        r == count,
{
    let mut current_count: usize = 0;
    for i in 0..count
        invariant
            current_count == i,
    {
        current_count += 1;
    }
    current_count
}

/// Fan-out over the work-distribution pool: one task per worker, each
/// counting one share on its own.
///
/// Relies on rayon's `into_par_iter().map(..).collect()` over the range
/// `0..worker_count`: it yields one element per range index, in index order,
/// each the closure's result. The closure only calls the verified `counter`,
/// which returns its argument, so every collected element equals `share`.
#[verifier::external_body]
fn pool_partials(worker_count: usize, share: usize) -> (r: Vec<usize>)
    ensures
        r@.len() == worker_count,
        forall|i: int| 0 <= i < r@.len() ==> r@[i] == share,
{
    (0..worker_count).into_par_iter().map(|_| counter(share)).collect()
}

/// Data-parallel strategy: partitions `count` into `WORKER_COUNT` equal
/// shares by floor division, counts each share on the pool, and reduces the
/// partial results by addition after all tasks have finished. The remainder
/// `count % WORKER_COUNT` is assigned to no worker, so the result is the
/// fan-out sum, not `count`, whenever the division is inexact.
pub fn rayon_counter(count: usize) -> (r: usize)
    ensures
        r == plan::fanout_sum(count as int, WORKER_COUNT as int),
        r <= count,
{
    let share = count / WORKER_COUNT;
    let partials = pool_partials(WORKER_COUNT, share);
    proof {
        reduce::lemma_partials_reduce_to_fanout_sum(partials@, count as int, WORKER_COUNT as int);
    }
    match reduce::reduce_partials(&partials) {
        Some(total) => total,
        None => vstd::pervasive::unreached(),
    }
}

} // verus!
