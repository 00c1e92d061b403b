//! Where a sampled density has its local extrema.
//!
//! A density is sampled at increasing points; between neighbouring samples
//! it either does not fall (it rises or stays level) or it falls. An
//! interior sample is a local maximum when the density does not fall into
//! it and falls after it, and a local minimum when it falls into it and
//! does not fall after it. The comparisons of sample values are made where
//! the values are; what they decide is computed here.

use vstd::prelude::*;

verus! {

/// Whether the interior sample `i` is a local maximum (`want_max`) or a
/// local minimum; `rising[j]` says that the density does not fall from
/// sample `j` to sample `j + 1`.
pub open spec fn is_extremum(rising: Seq<bool>, i: int, want_max: bool) -> bool {
    &&& 1 <= i < rising.len()
    &&& rising[i - 1] != rising[i]
    &&& rising[i - 1] == want_max
}

/// The interior samples below `upto` that are local maxima (`want_max`) or
/// local minima, in increasing order.
pub open spec fn extrema_below(rising: Seq<bool>, want_max: bool, upto: int) -> Seq<int>
    decreases upto,
{
    if upto <= 1 {
        Seq::empty()
    } else {
        let earlier = extrema_below(rising, want_max, upto - 1);
        if is_extremum(rising, upto - 1, want_max) {
            earlier.push(upto - 1)
        } else {
            earlier
        }
    }
}

/// The local minima and the local maxima among the interior samples, each in
/// increasing order, given for each pair of neighbouring samples whether the
/// density does not fall between them.
pub fn classify_extrema(rising: &Vec<bool>) -> (extrema: (Vec<usize>, Vec<usize>))
    ensures
        extrema.0@.map_values(|i: usize| i as int) == extrema_below(rising@, false, rising@.len() as int),
        extrema.1@.map_values(|i: usize| i as int) == extrema_below(rising@, true, rising@.len() as int),
        extrema.1.len() <= extrema.0.len() + 1,
        extrema.0.len() <= extrema.1.len() + 1,
        forall|k: int| 0 <= k < extrema.0.len() ==> 1 <= #[trigger] extrema.0@[k] < rising.len(),
        forall|k: int| 0 <= k < extrema.1.len() ==> 1 <= #[trigger] extrema.1@[k] < rising.len(),
{
    let mut minima: Vec<usize> = Vec::new();
    let mut maxima: Vec<usize> = Vec::new();
    assert(minima@.map_values(|j: usize| j as int) =~= Seq::<int>::empty());
    assert(maxima@.map_values(|j: usize| j as int) =~= Seq::<int>::empty());
    if rising.len() == 0 {
        return (minima, maxima);
    }
    let mut i: usize = 1;
    while i < rising.len()
        invariant
            1 <= i <= rising.len(),
            minima@.map_values(|j: usize| j as int) == extrema_below(rising@, false, i as int),
            maxima@.map_values(|j: usize| j as int) == extrema_below(rising@, true, i as int),
        decreases rising.len() - i,
    {
        let before = rising[i - 1];
        let after = rising[i];
        let ghost old_minima = minima@;
        let ghost old_maxima = maxima@;
        if before != after {
            if before && !after {
                maxima.push(i);
                assert(maxima@.map_values(|j: usize| j as int)
                    =~= old_maxima.map_values(|j: usize| j as int).push(i as int));
            } else {
                minima.push(i);
                assert(minima@.map_values(|j: usize| j as int)
                    =~= old_minima.map_values(|j: usize| j as int).push(i as int));
            }
        }
        i = i + 1;
    }
    proof {
        lemma_extrema_interleave(rising@, rising@.len() as int);
        let mn = extrema_below(rising@, false, rising@.len() as int);
        let mx = extrema_below(rising@, true, rising@.len() as int);
        assert forall|k: int| 0 <= k < minima.len() implies 1 <= #[trigger] minima@[k] < rising.len() by {
            assert(minima@.map_values(|j: usize| j as int)[k] == mn[k]);
        }
        assert forall|k: int| 0 <= k < maxima.len() implies 1 <= #[trigger] maxima@[k] < rising.len() by {
            assert(maxima@.map_values(|j: usize| j as int)[k] == mx[k]);
        }
    }
    (minima, maxima)
}

proof fn lemma_direction_changes(rising: Seq<bool>, p: int, q: int, d: bool)
    requires
        0 <= p < q < rising.len(),
        rising[p] == d,
        rising[q] != d,
    ensures
        exists|j: int| p < j <= q && rising[j - 1] == d && #[trigger] rising[j] != d,
    decreases q - p,
{
    if rising[p + 1] != d {
        assert(rising[(p + 1) - 1] == d);
    } else {
        lemma_direction_changes(rising, p + 1, q, d);
        let j = choose|j: int| p + 1 < j <= q && rising[j - 1] == d && #[trigger] rising[j] != d;
        assert(p < j <= q && rising[j - 1] == d && rising[j] != d);
    }
}

/// The interior sample `i` is an extremum of the other kind than `want_max`.
pub open spec fn is_other_extremum(rising: Seq<bool>, i: int, want_max: bool) -> bool {
    is_extremum(rising, i, !want_max)
}

/// Maxima and minima alternate: between two local maxima lies a local
/// minimum, and between two local minima a local maximum.
pub proof fn extrema_alternate(rising: Seq<bool>, i: int, k: int, want_max: bool)
    requires
        i < k,
        is_extremum(rising, i, want_max),
        is_extremum(rising, k, want_max),
    ensures
        exists|j: int| i < j < k && #[trigger] is_other_extremum(rising, j, want_max),
{
    // After `i` the direction is `!want_max`; before `k` it is `want_max`.
    assert(rising[i] == !want_max);
    assert(rising[k - 1] == want_max);
    lemma_direction_changes(rising, i, k - 1, !want_max);
    let j = choose|j: int| i < j <= k - 1 && rising[j - 1] == !want_max && #[trigger] rising[j] != !want_max;
    assert(is_other_extremum(rising, j, want_max));
}


/// How the extrema among the first `upto` samples interleave. When the
/// density does not fall at its first step, maxima and minima alternate
/// starting with a maximum; otherwise starting with a minimum. Either way
/// the last direction tells which kind came last.
proof fn lemma_extrema_interleave(rising: Seq<bool>, upto: int)
    requires
        1 <= upto <= rising.len(),
    ensures
        ({
            let mx = extrema_below(rising, true, upto);
            let mn = extrema_below(rising, false, upto);
            &&& forall|k: int| 0 <= k < mx.len() ==> 1 <= #[trigger] mx[k] < upto
            &&& forall|k: int| 0 <= k < mn.len() ==> 1 <= #[trigger] mn[k] < upto
            &&& rising[0] ==> {
                &&& (mx.len() == mn.len() || mx.len() == mn.len() + 1)
                &&& (rising[upto - 1] <==> mx.len() == mn.len())
                &&& forall|k: int| 0 <= k < mn.len() ==> mx[k] < #[trigger] mn[k]
                &&& forall|k: int| 1 <= k < mx.len() ==> mn[k - 1] < #[trigger] mx[k]
            }
            &&& !rising[0] ==> {
                &&& (mn.len() == mx.len() || mn.len() == mx.len() + 1)
                &&& (rising[upto - 1] <==> mn.len() == mx.len() + 1)
            }
        }),
    decreases upto,
{
    if upto > 1 {
        lemma_extrema_interleave(rising, upto - 1);
        let mx0 = extrema_below(rising, true, upto - 1);
        let mn0 = extrema_below(rising, false, upto - 1);
        let mx = extrema_below(rising, true, upto);
        let mn = extrema_below(rising, false, upto);
        if is_extremum(rising, upto - 1, true) {
            assert(mx == mx0.push(upto - 1));
            assert(mn == mn0);
        } else if is_extremum(rising, upto - 1, false) {
            assert(mn == mn0.push(upto - 1));
            assert(mx == mx0);
        } else {
            assert(mx == mx0);
            assert(mn == mn0);
        }
    }
}

/// There is at most one more maximum than there are minima, so each
/// maximum has a boundary after it among the minima and the last sample;
/// and at most one more minimum than there are maxima.
pub proof fn maxima_at_most_one_more(rising: Seq<bool>)
    ensures
        extrema_below(rising, true, rising.len() as int).len() <= extrema_below(rising, false, rising.len() as int).len() + 1,
        extrema_below(rising, false, rising.len() as int).len() <= extrema_below(rising, true, rising.len() as int).len() + 1,
{
    if rising.len() >= 1 {
        lemma_extrema_interleave(rising, rising.len() as int);
    }
}

/// Boundary `k` of the clusters: the first sample, then the minima in order,
/// then the last sample `last`.
pub open spec fn cluster_bound(minima: Seq<int>, k: int, last: int) -> int {
    if k == 0 {
        0
    } else if k <= minima.len() {
        minima[k - 1]
    } else {
        last
    }
}

/// The samples each of `count` clusters spans, both ends included: cluster
/// `k` runs from boundary `k` to boundary `k + 1`, the boundaries being the
/// first sample, the minima in order and the last sample `last`.
pub fn cluster_spans(minima: &Vec<usize>, count: usize, last: usize) -> (spans: Vec<(usize, usize)>)
    requires
        count <= minima.len() + 1,
        forall|i: int| 0 <= i < minima.len() ==> minima@[i] <= last,
    ensures
        spans.len() == count,
        forall|k: int|
            0 <= k < count ==> (#[trigger] spans@[k]).0 == cluster_bound(minima@.map_values(|i: usize| i as int), k, last as int)
                && spans@[k].1 == cluster_bound(minima@.map_values(|i: usize| i as int), k + 1, last as int),
{
    let ghost m = minima@.map_values(|i: usize| i as int);
    let mut spans: Vec<(usize, usize)> = Vec::new();
    let mut k: usize = 0;
    while k < count
        invariant
            k <= count,
            count <= minima.len() + 1,
            m == minima@.map_values(|i: usize| i as int),
            spans.len() == k,
            forall|j: int|
                0 <= j < k ==> (#[trigger] spans@[j]).0 == cluster_bound(m, j, last as int)
                    && spans@[j].1 == cluster_bound(m, j + 1, last as int),
        decreases count - k,
    {
        let left: usize = if k == 0 { 0 } else { minima[k - 1] };
        let right: usize = if k < minima.len() { minima[k] } else { last };
        spans.push((left, right));
        k = k + 1;
    }
    spans
}

/// When the density does not fall at its first step, every maximum lies
/// strictly inside its cluster: after the boundary before it and before the
/// boundary after it.
pub proof fn clusters_surround_their_maxima(rising: Seq<bool>)
    requires
        rising.len() >= 1,
        rising[0],
    ensures
        ({
            let mx = extrema_below(rising, true, rising.len() as int);
            let mn = extrema_below(rising, false, rising.len() as int);
            forall|k: int|
                0 <= k < mx.len() ==> cluster_bound(mn, k, rising.len() as int) < #[trigger] mx[k]
                    < cluster_bound(mn, k + 1, rising.len() as int)
        }),
{
    lemma_extrema_interleave(rising, rising.len() as int);
    let mx = extrema_below(rising, true, rising.len() as int);
    let mn = extrema_below(rising, false, rising.len() as int);
    assert forall|k: int| 0 <= k < mx.len() implies cluster_bound(mn, k, rising.len() as int) < #[trigger] mx[k]
        < cluster_bound(mn, k + 1, rising.len() as int) by {
        if k >= 1 {
            assert(mn[k - 1] < mx[k]);
        }
        if k < mn.len() {
            assert(mx[k] < mn[k]);
        }
    }
}

} // verus!
