//! The one value shared by the lock-guarded strategy's workers.
//!
//! Each worker sums its share privately and only then merges the partial
//! result into this accumulator; the caller keeps the accumulator behind an
//! exclusion lock, so at most one worker merges at a time, and reads the
//! final value after the barrier. This type carries the value and the
//! arithmetic performed inside the critical section; the lock itself is the
//! caller's.

use vstd::prelude::*;

verus! {

pub struct SharedAccumulator {
    value: usize,
}

impl SharedAccumulator {
    /// The sum accumulated so far.
    pub closed spec fn sum(self) -> int {
        self.value as int
    }

    /// A fresh accumulator for one invocation, starting from zero.
    pub fn new() -> (r: SharedAccumulator)
        ensures
            r.sum() == 0,
    {
        SharedAccumulator { value: 0 }
    }

    /// Merges one worker's partial result: the whole critical section.
    /// Returns `false` exactly when the addition would overflow, leaving the
    /// accumulator unchanged — overflow is reported, never silently wrapped.
    pub fn add(&mut self, part: usize) -> (ok: bool)
        ensures
            ok <==> old(self).sum() + part <= usize::MAX,
            ok ==> final(self).sum() == old(self).sum() + part,
            !ok ==> final(self).sum() == old(self).sum(),
    {
        match self.value.checked_add(part) {
            Some(v) => {
                self.value = v;
                true
            },
            None => false,
        }
    }

    /// The final value, read by the caller once every worker has merged.
    pub fn value(&self) -> (r: usize)
        ensures
            r == self.sum(),
    {
        self.value
    }
}

} // verus!
