use vstd::prelude::*;
use vstd::relations::sorted_by;
use vstd::relations::total_ordering;
use vstd::seq_lib::group_to_multiset_ensures;
use vstd::seq_lib::lemma_sorted_unique;
use vstd::seq_lib::to_multiset_build;
use vstd::seq_lib::to_multiset_insert;
use vstd::seq_lib::to_multiset_len;

verus! {

/// The ordering by which durations are ranked: plain `<=` on the values.
pub open spec fn duration_le() -> spec_fn(i64, i64) -> bool {
    |a: i64, b: i64| a <= b
}

pub proof fn lemma_duration_le_total_ordering()
    ensures
        total_ordering(duration_le()),
{
}

/// The ascending rearrangement of a collection of durations.
pub open spec fn sorted_of(s: Seq<i64>) -> Seq<i64> {
    s.sort_by(duration_le())
}

/// The 0-based index selected by the nearest-rank-from-top policy for a
/// collection of `n` values: `max(n - floor(5 * n / 100) - 1, 0)`.
///
/// For `n < 20` the 5% head rounds down to nothing and the policy picks the
/// maximum value.
pub open spec fn rank_index(n: int) -> int {
    let n5 = (5 * n) / 100;
    if n - n5 - 1 >= 0 {
        n - n5 - 1
    } else {
        0
    }
}

/// The 95th percentile of an unordered collection of durations: `None` for
/// an empty collection, otherwise the element at `rank_index` of the
/// ascending rearrangement.
pub open spec fn p95_spec(s: Seq<i64>) -> Option<i64> {
    if s.len() == 0 {
        None
    } else {
        Some(sorted_of(s)[rank_index(s.len() as int)])
    }
}

proof fn lemma_rank_arith(n: int)
    requires
        n >= 1,
    ensures
        (5 * n) / 100 == n / 20,
        0 <= n / 20 < n,
        rank_index(n) == n - n / 20 - 1,
        0 <= rank_index(n) < n,
{
    assert((5 * n) / 100 == n / 20 && 0 <= n / 20 < n) by (nonlinear_arith)
        requires
            n >= 1,
    ;
}

/// A copy of `data` rearranged into ascending order; `data` itself is left
/// untouched.
fn sorted_copy(data: &Vec<i64>) -> (r: Vec<i64>)
    ensures
        r@ == sorted_of(data@),
        r@.len() == data@.len(),
{
    broadcast use group_to_multiset_ensures;

    let mut r: Vec<i64> = Vec::new();
    let mut i: usize = 0;
    while i < data.len()
        invariant
            i <= data.len(),
            r@.len() == i,
            sorted_by(r@, duration_le()),
            r@.to_multiset() == data@.subrange(0, i as int).to_multiset(),
        decreases data.len() - i,
    {
        let x = data[i];
        let mut p: usize = 0;
        while p < r.len() && r[p] <= x
            invariant
                p <= r@.len(),
                i < data.len(),
                r@.len() == i,
                sorted_by(r@, duration_le()),
                r@.to_multiset() == data@.subrange(0, i as int).to_multiset(),
                forall|k: int| 0 <= k < p ==> r@[k] <= x,
            decreases r@.len() - p,
        {
            p += 1;
        }
        let ghost s = r@;
        r.insert(p, x);
        proof {
            s.insert_ensures(p as int, x);
            assert forall|a: int, b: int|
                0 <= a < b < r@.len() implies duration_le()(r@[a], r@[b]) by {
                if b < p {
                    assert(r@[a] == s[a] && r@[b] == s[b]);
                } else if b == p {
                    assert(r@[a] == s[a] && r@[b] == x);
                } else {
                    assert(r@[b] == s[b - 1]);
                    if a < p {
                        assert(r@[a] == s[a]);
                        assert(duration_le()(s[a], s[b - 1]));
                    } else if a == p {
                        assert(r@[a] == x);
                        assert(s[p as int] > x);
                        assert(duration_le()(s[p as int], s[b - 1]));
                    } else {
                        assert(r@[a] == s[a - 1]);
                        assert(duration_le()(s[a - 1], s[b - 1]));
                    }
                }
            }
            assert(data@.subrange(0, i as int + 1) =~= data@.subrange(0, i as int).push(x));
            to_multiset_insert(s, p as int, x);
            to_multiset_build(data@.subrange(0, i as int), x);
            assert(r@.to_multiset() == data@.subrange(0, i as int + 1).to_multiset());
        }
        i += 1;
    }
    proof {
        assert(data@.subrange(0, data@.len() as int) =~= data@);
        lemma_duration_le_total_ordering();
        data@.lemma_sort_by_ensures(duration_le());
        lemma_sorted_unique(r@, sorted_of(data@), duration_le());
        assert(r@ =~= sorted_of(data@));
    }
    r
}

/// The 95th percentile of `data` under the nearest-rank-from-top policy:
/// `None` when `data` is empty, otherwise the value at index
/// `max(n - floor(5 * n / 100) - 1, 0)` of an ascending rearrangement.
///
/// The caller's collection is read, never mutated; the result is the same on
/// every call over the same multiset of values.
pub fn p95(data: &Vec<i64>) -> (r: Option<i64>)
    ensures
        r == p95_spec(data@),
{
    let n = data.len();
    if n == 0 {
        None
    } else {
        proof {
            lemma_rank_arith(n as int);
        }
        let n5 = n / 20;
        let idx = n - n5 - 1;
        let sorted = sorted_copy(data);
        Some(sorted[idx])
    }
}

proof fn lemma_sorted_of_already_sorted(s: Seq<i64>)
    requires
        sorted_by(s, duration_le()),
    ensures
        sorted_of(s) == s,
{
    lemma_duration_le_total_ordering();
    s.lemma_sort_by_ensures(duration_le());
    lemma_sorted_unique(s, sorted_of(s), duration_le());
    assert(sorted_of(s) =~= s);
}

/// A percentile is absent exactly when there are no values.
pub proof fn lemma_p95_none_iff_empty(s: Seq<i64>)
    ensures
        p95_spec(s) is None <==> s.len() == 0,
{
}

/// The percentile depends only on the multiset of values, never on the
/// order in which they arrived: the result is identical on every call over
/// the same collection.
pub proof fn lemma_p95_order_independent(s1: Seq<i64>, s2: Seq<i64>)
    requires
        s1.to_multiset() == s2.to_multiset(),
    ensures
        p95_spec(s1) == p95_spec(s2),
{
    to_multiset_len(s1);
    to_multiset_len(s2);
    lemma_duration_le_total_ordering();
    s1.lemma_sort_by_ensures(duration_le());
    s2.lemma_sort_by_ensures(duration_le());
    lemma_sorted_unique(sorted_of(s1), sorted_of(s2), duration_le());
    assert(sorted_of(s1) =~= sorted_of(s2));
}

/// A collection holding a single value has that value as its 95th
/// percentile.
pub proof fn lemma_p95_singleton(x: i64)
    ensures
        p95_spec(seq![x]) == Some(x),
{
    let s = seq![x];
    assert(sorted_by(s, duration_le()));
    lemma_sorted_of_already_sorted(s);
    assert(rank_index(1) == 0);
}

/// A non-empty collection whose values are all equal has that common value
/// as its 95th percentile.
pub proof fn lemma_p95_constant(s: Seq<i64>, v: i64)
    requires
        s.len() >= 1,
        forall|i: int| 0 <= i < s.len() ==> s[i] == v,
    ensures
        p95_spec(s) == Some(v),
{
    assert(sorted_by(s, duration_le()));
    lemma_sorted_of_already_sorted(s);
    lemma_rank_arith(s.len() as int);
}

} // verus!
