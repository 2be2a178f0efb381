//! Fan-in: reducing the workers' partial results by addition.

use vstd::prelude::*;

verus! {

/// The mathematical sum of a sequence of partial results.
pub open spec fn sum_of(s: Seq<usize>) -> int
    decreases s.len(),
{
    if s.len() == 0 {
        0
    } else {
        sum_of(s.drop_last()) + s.last()
    }
}

/// A prefix never sums to more than the whole sequence: once the running
/// total has overflowed, the full reduction would overflow as well.
pub proof fn lemma_sum_of_prefix_le(s: Seq<usize>, i: int)
    requires
        0 <= i <= s.len(),
    ensures
        sum_of(s.take(i)) <= sum_of(s),
    decreases s.len(),
{
    if i == s.len() {
        assert(s.take(i) =~= s);
    } else {
        assert(s.drop_last().take(i) =~= s.take(i));
        lemma_sum_of_prefix_le(s.drop_last(), i);
    }
}

/// Removing one partial result removes exactly its contribution.
pub proof fn lemma_sum_of_remove(s: Seq<usize>, i: int)
    requires
        0 <= i < s.len(),
    ensures
        sum_of(s.remove(i)) == sum_of(s) - s[i],
    decreases s.len(),
{
    if i == s.len() - 1 {
        assert(s.remove(i) =~= s.drop_last());
    } else {
        assert(s.remove(i).drop_last() =~= s.drop_last().remove(i));
        lemma_sum_of_remove(s.drop_last(), i);
    }
}

/// Addition is commutative and associative, so the reduction depends only on
/// which partial results arrive, never on the order they arrive in: two
/// arrival orders with the same multiset of partials have the same sum.
pub proof fn lemma_sum_of_permutation(a: Seq<usize>, b: Seq<usize>)
    requires
        a.to_multiset() == b.to_multiset(),
    ensures
        sum_of(a) == sum_of(b),
    decreases a.len(),
{
    broadcast use vstd::seq_lib::group_to_multiset_ensures;

    if a.len() == 0 {
        assert(a.to_multiset().len() == 0);
        assert(b.len() == b.to_multiset().len());
    } else {
        let x = a.last();
        assert(a[a.len() - 1] == x);
        assert(a.contains(x));
        assert(a.to_multiset().count(x) > 0);
        assert(b.contains(x));
        let j = choose|j: int| 0 <= j < b.len() && b[j] == x;
        assert(a.remove(a.len() - 1) =~= a.drop_last());
        assert(a.drop_last().to_multiset() == a.to_multiset().remove(x));
        assert(b.remove(j).to_multiset() == b.to_multiset().remove(x));
        lemma_sum_of_permutation(a.drop_last(), b.remove(j));
        lemma_sum_of_remove(b, j);
    }
}

/// A fan-out whose workers all report the same partial result sums to the
/// worker count times that result.
pub proof fn lemma_sum_of_constant(s: Seq<usize>, v: usize)
    requires
        forall|i: int| 0 <= i < s.len() ==> s[i] == v,
    ensures
        sum_of(s) == s.len() * v,
    decreases s.len(),
{
    if s.len() > 0 {
        assert(s.last() == v);
        lemma_sum_of_constant(s.drop_last(), v);
        assert((s.len() - 1) * v + v == s.len() * v) by (nonlinear_arith);
    }
}

/// The fan-out/fan-in pipeline end to end: when each of `workers` workers
/// reports exactly one share of `total` as its partial result, the reduction
/// of those partials is the fan-out sum — never more than `total`, and so
/// always representable.
pub proof fn lemma_partials_reduce_to_fanout_sum(parts: Seq<usize>, total: int, workers: int)
    requires
        0 <= total,
        0 < workers,
        parts.len() == workers,
        forall|i: int| 0 <= i < parts.len() ==> parts[i] == crate::plan::share_of(total, workers),
    ensures
        sum_of(parts) == crate::plan::fanout_sum(total, workers),
        sum_of(parts) <= total,
{
    let v = parts[0];
    lemma_sum_of_constant(parts, v);
    crate::plan::lemma_fanout_sum_drops_remainder(total, workers);
}

/// Fan-in step: sums all partial results after the barrier. Returns `None`
/// exactly when the mathematical sum does not fit in the numeric domain —
/// overflow is reported, never silently wrapped.
pub fn reduce_partials(parts: &Vec<usize>) -> (r: Option<usize>)
    ensures
        r.is_some() <==> sum_of(parts@) <= usize::MAX,
        r.is_some() ==> r.unwrap() == sum_of(parts@),
{
    let mut acc: usize = 0;
    let n = parts.len();
    for i in 0..n
        invariant
            n == parts@.len(),
            acc == sum_of(parts@.take(i as int)),
    {
        let next = acc.checked_add(parts[i]);
        proof {
            assert(parts@.take(i + 1).drop_last() =~= parts@.take(i as int));
            assert(parts@.take(i + 1).last() == parts@[i as int]);
        }
        match next {
            Some(v) => {
                acc = v;
            },
            None => {
                proof {
                    lemma_sum_of_prefix_le(parts@, i + 1);
                }
                return None;
            },
        }
    }
    proof {
        assert(parts@.take(n as int) =~= parts@);
    }
    Some(acc)
}

} // verus!
