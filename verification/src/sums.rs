//! Summation of a function over the entries of a finite map, with the
//! update lemmas the invariant proofs rest on.

use vstd::prelude::*;

verus! {

broadcast use vstd::set::group_set_axioms;

/// The sum of `f` over all entries of `m`. Zero for an infinite domain.
pub open spec fn map_sum<V>(m: Map<u64, V>, f: spec_fn(u64, V) -> int) -> int
    decreases m.dom().len(),
{
    if !m.dom().finite() || m.dom().len() == 0 {
        0
    } else {
        let k = m.dom().choose();
        f(k, m[k]) + map_sum(m.remove(k), f)
    }
}

/// Any entry can be split off the sum, not only the chosen one.
pub proof fn lemma_map_sum_remove<V>(m: Map<u64, V>, f: spec_fn(u64, V) -> int, k: u64)
    requires
        m.dom().finite(),
        m.contains_key(k),
    ensures
        map_sum(m, f) == f(k, m[k]) + map_sum(m.remove(k), f),
    decreases m.dom().len(),
{
    let k0 = m.dom().choose();
    assert(m.dom().len() != 0);
    assert(m.dom().contains(k0));
    if k0 == k {
    } else {
        let m1 = m.remove(k0);
        assert(m1.contains_key(k));
        lemma_map_sum_remove(m1, f, k);
        assert(m.remove(k).contains_key(k0));
        lemma_map_sum_remove(m.remove(k), f, k0);
        assert(m.remove(k0).remove(k) =~= m.remove(k).remove(k0));
    }
}

/// Adding a fresh entry adds its term.
pub proof fn lemma_map_sum_insert<V>(m: Map<u64, V>, f: spec_fn(u64, V) -> int, k: u64, v: V)
    requires
        m.dom().finite(),
        !m.contains_key(k),
    ensures
        map_sum(m.insert(k, v), f) == map_sum(m, f) + f(k, v),
{
    lemma_map_sum_remove(m.insert(k, v), f, k);
    assert(m.insert(k, v).remove(k) =~= m);
}

/// Overwriting an entry replaces its term.
pub proof fn lemma_map_sum_update<V>(m: Map<u64, V>, f: spec_fn(u64, V) -> int, k: u64, v: V)
    requires
        m.dom().finite(),
        m.contains_key(k),
    ensures
        map_sum(m.insert(k, v), f) == map_sum(m, f) - f(k, m[k]) + f(k, v),
{
    lemma_map_sum_remove(m.insert(k, v), f, k);
    assert(m.insert(k, v).remove(k) =~= m.remove(k));
    lemma_map_sum_remove(m, f, k);
}

/// A sum of zeros is zero.
pub proof fn lemma_map_sum_zero<V>(m: Map<u64, V>, f: spec_fn(u64, V) -> int)
    requires
        m.dom().finite(),
        forall|k: u64| m.contains_key(k) ==> #[trigger] f(k, m[k]) == 0,
    ensures
        map_sum(m, f) == 0,
    decreases m.dom().len(),
{
    if m.dom().len() != 0 {
        let k = m.dom().choose();
        assert(m.dom().contains(k));
        lemma_map_sum_zero(m.remove(k), f);
    }
}

/// A sum of non-negative terms is non-negative.
pub proof fn lemma_map_sum_nonneg<V>(m: Map<u64, V>, f: spec_fn(u64, V) -> int)
    requires
        m.dom().finite(),
        forall|k: u64| m.contains_key(k) ==> #[trigger] f(k, m[k]) >= 0,
    ensures
        map_sum(m, f) >= 0,
    decreases m.dom().len(),
{
    if m.dom().len() != 0 {
        let k = m.dom().choose();
        assert(m.dom().contains(k));
        lemma_map_sum_nonneg(m.remove(k), f);
    }
}

/// With non-negative terms, each single term bounds the sum from below.
pub proof fn lemma_map_sum_lower<V>(m: Map<u64, V>, f: spec_fn(u64, V) -> int, k: u64)
    requires
        m.dom().finite(),
        m.contains_key(k),
        forall|j: u64| m.contains_key(j) ==> #[trigger] f(j, m[j]) >= 0,
    ensures
        map_sum(m, f) >= f(k, m[k]),
{
    lemma_map_sum_remove(m, f, k);
    lemma_map_sum_nonneg(m.remove(k), f);
}

} // verus!
