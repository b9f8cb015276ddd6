use vstd::prelude::*;
use crate::constants::SCORE_MAX;

verus! {

broadcast use vstd::seq_lib::group_to_multiset_ensures;

/// The scores are in descending order.
pub open spec fn sorted_desc(s: Seq<i32>) -> bool {
    forall|i: int, j: int| 0 <= i < j < s.len() ==> s[i] >= s[j]
}

/// A score limited to the range `0 ..= SCORE_MAX`.
pub open spec fn clamp_score(v: i32) -> i32 {
    if v < 0 {
        0
    } else if v > SCORE_MAX {
        SCORE_MAX
    } else {
        v
    }
}

/// Inserts `x` into a table sorted in descending order, after the entries
/// that are not smaller than it.
pub fn insert_sorted_desc(v: &mut Vec<i32>, x: i32)
    requires
        sorted_desc(old(v)@),
    ensures
        sorted_desc(final(v)@),
        final(v)@.to_multiset() == old(v)@.to_multiset().insert(x),
        final(v)@.len() == old(v)@.len() + 1,
{
    let mut k: usize = 0;
    while k < v.len() && v[k] >= x
        invariant
            k <= v.len(),
            v@ == old(v)@,
            sorted_desc(v@),
            forall|i: int| 0 <= i < k ==> v@[i] >= x,
        decreases v.len() - k,
    {
        k = k + 1;
    }
    proof {
        vstd::seq_lib::to_multiset_insert(v@, k as int, x);
    }
    v.insert(k, x);
    assert forall|i: int, j: int| 0 <= i < j < v@.len() implies v@[i] >= v@[j] by {
        if j < k {
        } else if i > k {
        } else if i == k {
            assert(v@[j] == old(v)@[j - 1]);
        } else {
            assert(v@[i] == old(v)@[i]);
        }
    }
}

/// Sorts a score table in descending order.
pub fn sort_desc(v: &mut Vec<i32>)
    ensures
        sorted_desc(final(v)@),
        final(v)@.to_multiset() == old(v)@.to_multiset(),
        final(v)@.len() == old(v)@.len(),
{
    let mut sorted: Vec<i32> = Vec::new();
    let n = v.len();
    let mut i: usize = 0;
    while i < n
        invariant
            n == v.len(),
            v@ == old(v)@,
            i <= n,
            sorted_desc(sorted@),
            sorted@.to_multiset() == v@.subrange(0, i as int).to_multiset(),
            sorted@.len() == i,
        decreases n - i,
    {
        assert(v@.subrange(0, i as int + 1) =~= v@.subrange(0, i as int).push(v@[i as int]));
        insert_sorted_desc(&mut sorted, v[i]);
        i = i + 1;
    }
    assert(v@.subrange(0, n as int) =~= v@);
    *v = sorted;
}

/// Limits every score of the table to `0 ..= SCORE_MAX`.
pub fn clamp_scores(v: &mut Vec<i32>)
    ensures
        final(v)@ == old(v)@.map_values(|x: i32| clamp_score(x)),
{
    let n = v.len();
    let mut i: usize = 0;
    while i < n
        invariant
            n == v.len(),
            i <= n,
            forall|k: int| 0 <= k < i ==> v@[k] == clamp_score(old(v)@[k]),
            forall|k: int| i <= k < n ==> v@[k] == old(v)@[k],
        decreases n - i,
    {
        let x = v[i];
        let c: i32 = if x < 0 {
            0
        } else if x > SCORE_MAX {
            SCORE_MAX
        } else {
            x
        };
        v.set(i, c);
        i = i + 1;
    }
    assert(v@ =~= old(v)@.map_values(|x: i32| clamp_score(x)));
}

} // verus!
