//! The intervals of access sizes a prediction model is valid on, and how
//! the constant-linear model splits its interval at the page size.

use vstd::prelude::*;

verus! {

/// The access size (the page size) at which the constant-linear model
/// switches from its constant part to its linear part.
pub const PAGE_SIZE: u64 = 4096;

/// A set of access sizes bounded from below, from above, both or neither;
/// the bounds belong to the set.
#[derive(Copy, Clone, Debug, PartialEq, Eq, Structural)]
pub struct Interval {
    pub lower: Option<u64>,
    pub upper: Option<u64>,
}

impl Interval {
    /// `val` lies within the bounds that are present.
    pub open spec fn has(&self, val: u64) -> bool {
        &&& (self.lower matches Some(minimum) ==> minimum <= val)
        &&& (self.upper matches Some(maximum) ==> val <= maximum)
    }

    /// The unrestricted interval, holding every access size.
    pub fn new() -> (i: Self)
        ensures
            i.lower is None,
            i.upper is None,
    {
        Self { lower: None, upper: None }
    }

    /// The sizes from `minimum` on.
    pub fn new_left_closed(minimum: u64) -> (i: Self)
        ensures
            i.lower == Some(minimum),
            i.upper is None,
    {
        Self { lower: Some(minimum), upper: None }
    }

    /// The sizes up to `maximum`.
    pub fn new_right_closed(maximum: u64) -> (i: Self)
        ensures
            i.lower is None,
            i.upper == Some(maximum),
    {
        Self { lower: None, upper: Some(maximum) }
    }

    /// The sizes from `minimum` up to `maximum`.
    pub fn new_closed(minimum: u64, maximum: u64) -> (i: Self)
        ensures
            i.lower == Some(minimum),
            i.upper == Some(maximum),
    {
        Self { lower: Some(minimum), upper: Some(maximum) }
    }

    /// Whether `val` lies in the interval.
    pub fn contains(&self, val: u64) -> (r: bool)
        ensures
            r == self.has(val),
    {
        if let Some(minimum) = self.lower {
            if val < minimum {
                return false;
            }
        }
        if let Some(maximum) = self.upper {
            if val > maximum {
                return false;
            }
        }
        true
    }
}

/// The two intervals the constant-linear model is built on: the part of
/// `xss` up to the page size and the part from the page size on.
pub open spec fn page_size_split(xss: Interval) -> (Interval, Interval) {
    let lower = match xss.lower {
        None => Interval { lower: None, upper: Some(PAGE_SIZE) },
        Some(lower_bound) => Interval { lower: Some(lower_bound), upper: Some(PAGE_SIZE) },
    };
    let upper = match xss.upper {
        None => Interval { lower: Some(PAGE_SIZE), upper: None },
        Some(upper_bound) => Interval { lower: Some(PAGE_SIZE), upper: Some(upper_bound) },
    };
    (lower, upper)
}

/// Splits the interval of a constant-linear model at the page size, which
/// must lie in it: the constant part below, the linear part above.
pub fn split_at_page_size(xss: Interval) -> (parts: (Interval, Interval))
    requires
        xss.has(PAGE_SIZE),
    ensures
        parts == page_size_split(xss),
{
    let lower_interval: Interval = match xss.lower {
        None => Interval::new_right_closed(PAGE_SIZE),
        Some(lower_bound) => Interval::new_closed(lower_bound, PAGE_SIZE),
    };
    let upper_interval: Interval = match xss.upper {
        None => Interval::new_left_closed(PAGE_SIZE),
        Some(upper_bound) => Interval::new_closed(PAGE_SIZE, upper_bound),
    };
    (lower_interval, upper_interval)
}

/// The two parts cover the interval exactly and share only the page size.
pub proof fn page_size_split_partitions(xss: Interval, val: u64)
    requires
        xss.has(PAGE_SIZE),
    ensures
        xss.has(val) <==> page_size_split(xss).0.has(val) || page_size_split(xss).1.has(val),
        page_size_split(xss).0.has(val) && page_size_split(xss).1.has(val) <==> val == PAGE_SIZE,
{
}

/// The positions of the access sizes that lie in `xss`, in order.
pub open spec fn positions_in(sizes: Seq<u64>, xss: Interval) -> Seq<int>
    decreases sizes.len(),
{
    if sizes.len() == 0 {
        Seq::empty()
    } else {
        let init = positions_in(sizes.drop_last(), xss);
        if xss.has(sizes.last()) {
            init.push(sizes.len() - 1)
        } else {
            init
        }
    }
}

/// The positions of the measurements a model on `xss` is fitted to: those
/// whose access size lies in `xss`, in order.
pub fn positions_in_interval(access_sizes: &[u64], xss: Interval) -> (positions: Vec<usize>)
    ensures
        positions@.map_values(|p: usize| p as int) == positions_in(access_sizes@, xss),
{
    let mut positions: Vec<usize> = Vec::new();
    let mut i: usize = 0;
    while i < access_sizes.len()
        invariant
            i <= access_sizes.len(),
            positions@.map_values(|p: usize| p as int) == positions_in(access_sizes@.take(i as int), xss),
        decreases access_sizes.len() - i,
    {
        assert(access_sizes@.take(i + 1).drop_last() =~= access_sizes@.take(i as int));
        let ghost before = positions@;
        if xss.contains(access_sizes[i]) {
            positions.push(i);
            assert(positions@.map_values(|p: usize| p as int)
                =~= before.map_values(|p: usize| p as int).push(i as int));
        }
        i = i + 1;
    }
    assert(access_sizes@.take(access_sizes.len() as int) =~= access_sizes@);
    positions
}

/// Every listed position is a position of `sizes`, and the positions come
/// in increasing order.
pub proof fn positions_in_are_increasing_positions(sizes: Seq<u64>, xss: Interval)
    ensures
        forall|j: int| 0 <= j < positions_in(sizes, xss).len()
            ==> 0 <= #[trigger] positions_in(sizes, xss)[j] < sizes.len(),
        forall|j: int, k: int| 0 <= j < k < positions_in(sizes, xss).len()
            ==> #[trigger] positions_in(sizes, xss)[j] < #[trigger] positions_in(sizes, xss)[k],
    decreases sizes.len(),
{
    if sizes.len() > 0 {
        let q = positions_in(sizes.drop_last(), xss);
        let p = positions_in(sizes, xss);
        positions_in_are_increasing_positions(sizes.drop_last(), xss);
        assert forall|j: int| 0 <= j < p.len() implies 0 <= #[trigger] p[j] < sizes.len() by {
            if j < q.len() {
                assert(p[j] == q[j]);
            }
        }
        assert forall|j: int, k: int| 0 <= j < k < p.len() implies #[trigger] p[j] < #[trigger] p[k] by {
            assert(p[j] == q[j]);
            if k < q.len() {
                assert(p[k] == q[k]);
            }
        }
    }
}

/// A position is listed exactly when its access size lies in the interval.
pub proof fn positions_in_selects_exactly(sizes: Seq<u64>, xss: Interval, i: int)
    requires
        0 <= i < sizes.len(),
    ensures
        positions_in(sizes, xss).contains(i) <==> xss.has(sizes[i]),
    decreases sizes.len(),
{
    let init = sizes.drop_last();
    let p = positions_in(sizes, xss);
    let q = positions_in(init, xss);
    positions_in_are_increasing_positions(init, xss);
    if i < sizes.len() - 1 {
        positions_in_selects_exactly(init, xss, i);
        assert(init[i] == sizes[i]);
        if q.contains(i) {
            let k = choose|k: int| 0 <= k < q.len() && q[k] == i;
            assert(p[k] == i);
        }
        if p.contains(i) {
            let k = choose|k: int| 0 <= k < p.len() && p[k] == i;
            if k < q.len() {
                assert(q[k] == i);
            }
        }
    } else {
        if xss.has(sizes[i]) {
            assert(p[q.len() as int] == i);
        } else if p.contains(i) {
            let k = choose|k: int| 0 <= k < p.len() && p[k] == i;
            assert(q[k] < init.len());
        }
    }
}

} // verus!
