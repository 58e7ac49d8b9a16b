//! Sorting and percentiles of integer samples.

use vstd::prelude::*;
use vstd::relations::sorted_by;
use vstd::seq_lib::{lemma_sorted_unique, to_multiset_build, to_multiset_remove};

verus! {

/// The samples as mathematical integers.
pub open spec fn ints_of(s: Seq<u128>) -> Seq<int> {
    s.map_values(|x: u128| x as int)
}

/// Ascending order on integers.
pub open spec fn int_leq() -> spec_fn(int, int) -> bool {
    |x: int, y: int| x <= y
}

/// Sum of a sequence of integers.
pub open spec fn sum_of(s: Seq<int>) -> int
    decreases s.len(),
{
    if s.len() == 0 {
        0
    } else {
        sum_of(s.drop_last()) + s.last()
    }
}

/// Position of the `pct`-th percentile in a sorted list of `n > 0` samples:
/// `pct / 100 * (n - 1)` rounded half up, capped at the last position.
pub open spec fn percentile_index(n: int, pct: int) -> int {
    let raw = (2 * pct * (n - 1) + 100) / 200;
    if raw > n - 1 {
        n - 1
    } else {
        raw
    }
}

/// The `pct`-th percentile of sorted samples, zero when there are none.
pub open spec fn spec_percentile(sorted: Seq<int>, pct: int) -> int {
    if sorted.len() == 0 {
        0
    } else {
        sorted[percentile_index(sorted.len() as int, pct)]
    }
}

proof fn lemma_ints_of_insert(s: Seq<u128>, p: int, x: u128)
    requires
        0 <= p <= s.len(),
    ensures
        ints_of(s.insert(p, x)) =~= ints_of(s).insert(p, x as int),
{
}

proof fn lemma_insert_to_multiset(s: Seq<int>, p: int, x: int)
    requires
        0 <= p <= s.len(),
    ensures
        s.insert(p, x).to_multiset() =~= s.to_multiset().insert(x),
{
    broadcast use vstd::multiset::group_multiset_axioms, vstd::seq_lib::group_to_multiset_ensures;

    let t = s.insert(p, x);
    assert(t.remove(p) =~= s);
    to_multiset_remove(t, p);
    assert(t[p] == x);
    assert(t.contains(x));
    assert(t.to_multiset().count(x) > 0);
    assert forall|y: int| #[trigger] t.to_multiset().count(y) == s.to_multiset().insert(x).count(y) by {
        if y == x {
            assert(t.to_multiset().remove(x).count(x) == t.to_multiset().count(x) - 1);
        } else {
            assert(t.to_multiset().remove(x).count(y) == t.to_multiset().count(y));
        }
    }
}

/// A copy of the samples in ascending order.
pub fn sorted_copy(v: &Vec<u128>) -> (out: Vec<u128>)
    ensures
        ints_of(out@) == ints_of(v@).sort(),
        out@.len() == v@.len(),
{
    let mut out: Vec<u128> = Vec::new();
    let n = v.len();
    assert(ints_of(v@.take(0)) =~= ints_of(out@));
    for i in 0..n
        invariant
            n == v@.len(),
            sorted_by(ints_of(out@), int_leq()),
            ints_of(out@).to_multiset() == ints_of(v@.take(i as int)).to_multiset(),
            out@.len() == i,
    {
        let x = v[i];
        let mut p: usize = 0;
        while p < out.len() && out[p] <= x
            invariant
                p <= out@.len(),
                forall|q: int| 0 <= q < p ==> out@[q] <= x,
            decreases out@.len() - p,
        {
            p = p + 1;
        }
        let ghost before = out@;
        out.insert(p, x);
        proof {
            lemma_ints_of_insert(before, p as int, x);
            let bi = ints_of(before);
            let oi = ints_of(out@);
            assert(sorted_by(oi, int_leq())) by {
                assert forall|a: int, b: int| 0 <= a < b < oi.len() implies #[trigger] int_leq()(
                    oi[a],
                    oi[b],
                ) by {
                    assert(sorted_by(bi, int_leq()));
                    if b < p {
                        assert(int_leq()(bi[a], bi[b]));
                    } else if b == p {
                        assert(oi[a] == bi[a]);
                    } else if a < p {
                        assert(int_leq()(bi[a], bi[b - 1]));
                    } else if a == p {
                        if p < bi.len() {
                            assert(!(before[p as int] <= x));
                            if b - 1 > p {
                                assert(int_leq()(bi[p as int], bi[b - 1]));
                            }
                        }
                    } else {
                        assert(int_leq()(bi[a - 1], bi[b - 1]));
                    }
                }
            }
            lemma_insert_to_multiset(bi, p as int, x as int);
            assert(v@.take(i + 1) =~= v@.take(i as int).push(x));
            assert(ints_of(v@.take(i + 1)) =~= ints_of(v@.take(i as int)).push(x as int));
            to_multiset_build(ints_of(v@.take(i as int)), x as int);
        }
    }
    proof {
        assert(v@.take(n as int) =~= v@);
        ints_of(v@).lemma_sort_ensures();
        lemma_sorted_unique(ints_of(out@), ints_of(v@).sort(), int_leq());
    }
    out
}

/// Position of the `pct`-th percentile among `n > 0` sorted samples.
pub fn percentile_position(n: usize, pct: usize) -> (i: usize)
    requires
        n > 0,
    ensures
        i == percentile_index(n as int, pct as int),
        i < n,
{
    if pct >= 100 {
        assert((2 * pct * (n - 1) + 100) / 200 >= n - 1) by (nonlinear_arith)
            requires
                pct >= 100,
                n > 0,
        ;
        return n - 1;
    }
    assert(2 * pct * (n - 1) + 100 <= 200 * (n as int)) by (nonlinear_arith)
        requires
            pct < 100,
            n > 0,
    ;
    let raw: u128 = (2 * (pct as u128) * ((n - 1) as u128) + 100) / 200;
    if raw > (n - 1) as u128 {
        n - 1
    } else {
        raw as usize
    }
}

/// The `pct`-th percentile of ascending samples (zero when there are none).
pub fn percentile(sorted: &[u128], pct: usize) -> (p: u128)
    ensures
        p == spec_percentile(ints_of(sorted@), pct as int),
{
    if sorted.len() == 0 {
        return 0;
    }
    let i = percentile_position(sorted.len(), pct);
    sorted[i]
}

/// Percentile positions grow with the percentile: a lower percentile never
/// sits after a higher one, and every position lies within the samples.
pub proof fn lemma_percentile_index_monotone(n: int, p1: int, p2: int)
    requires
        n > 0,
        0 <= p1 <= p2,
    ensures
        0 <= percentile_index(n, p1) <= percentile_index(n, p2) <= n - 1,
{
    assert(2 * p1 * (n - 1) + 100 <= 2 * p2 * (n - 1) + 100) by (nonlinear_arith)
        requires
            n > 0,
            0 <= p1 <= p2,
    ;
    assert(2 * p1 * (n - 1) + 100 >= 0) by (nonlinear_arith)
        requires
            n > 0,
            0 <= p1,
    ;
    vstd::arithmetic::div_mod::lemma_div_is_ordered(
        2 * p1 * (n - 1) + 100,
        2 * p2 * (n - 1) + 100,
        200,
    );
    vstd::arithmetic::div_mod::lemma_div_pos_is_pos(2 * p1 * (n - 1) + 100, 200);
}

/// Percentiles of sorted samples are ordered like the percentiles asked for,
/// and lie between the smallest and the largest sample.
pub proof fn lemma_percentiles_ordered(sorted: Seq<int>, p1: int, p2: int)
    requires
        sorted_by(sorted, int_leq()),
        sorted.len() > 0,
        0 <= p1 <= p2,
    ensures
        sorted[0] <= spec_percentile(sorted, p1) <= spec_percentile(sorted, p2) <= sorted[sorted.len()
            - 1],
{
    let n = sorted.len() as int;
    lemma_percentile_index_monotone(n, p1, p2);
    let i1 = percentile_index(n, p1);
    let i2 = percentile_index(n, p2);
    if 0 < i1 {
        assert(int_leq()(sorted[0], sorted[i1]));
    }
    if i1 < i2 {
        assert(int_leq()(sorted[i1], sorted[i2]));
    }
    if i2 < n - 1 {
        assert(int_leq()(sorted[i2], sorted[n - 1]));
    }
}

} // verus!
