//! Bounded streaming median filter over distance samples.
//!
//! The filter keeps the most recently accepted samples, up to a fixed
//! capacity. When a push arrives at capacity, the oldest sample by
//! insertion order is evicted first, independent of its value, so the
//! window always reflects the latest samples. The median of an
//! even-sized window is the lower of the two middle values; this
//! tie-break is fixed here and used consistently. An empty window has no
//! median: the query returns `None`, never a numeric default.
//!
//! The structure carries no locking of its own; a single writer and any
//! readers must be serialized by the caller.

use vstd::prelude::*;
use vstd::relations::{sorted_by, total_ordering};
use vstd::seq_lib::group_to_multiset_ensures;
use vstd::seq_lib::lemma_sorted_unique;

verus! {

/// The order by which samples are ranked: plain `<=` on `u64`.
pub open spec fn sample_leq() -> spec_fn(u64, u64) -> bool {
    |x: u64, y: u64| x <= y
}

/// The window that results from pushing `v` onto window `w` under
/// capacity `cap`: the oldest sample leaves first when `w` is full.
pub open spec fn window_push(w: Seq<u64>, v: u64, cap: nat) -> Seq<u64> {
    if w.len() < cap {
        w.push(v)
    } else {
        w.subrange(1, w.len() as int).push(v)
    }
}

/// The window that results from pushing a whole run of samples, oldest
/// first, into an initially empty filter of capacity `cap`.
pub open spec fn window_of(samples: Seq<u64>, cap: nat) -> Seq<u64>
    decreases samples.len(),
{
    if samples.len() == 0 {
        Seq::empty()
    } else {
        window_push(window_of(samples.drop_last(), cap), samples.last(), cap)
    }
}

/// The median of a non-empty window: the middle value of the samples in
/// value order for an odd count, and the lower of the two middle values
/// for an even count.
pub open spec fn median_spec(s: Seq<u64>) -> u64
    recommends
        s.len() > 0,
{
    s.sort_by(sample_leq())[((s.len() - 1) / 2) as int]
}

/// Bounded-capacity structure maintaining a running median.
///
/// `window` holds the samples in insertion order, oldest first; `ranked`
/// holds the same samples in value order. Both change together on every
/// push.
pub struct MedianFilter {
    window: Vec<u64>,
    ranked: Vec<u64>,
    capacity: usize,
}

impl View for MedianFilter {
    type V = Seq<u64>;

    /// The filter is modelled as its window: the retained samples in
    /// insertion order, oldest first.
    closed spec fn view(&self) -> Seq<u64> {
        self.window@
    }
}

impl MedianFilter {
    /// The capacity the filter was created with.
    pub closed spec fn spec_capacity(&self) -> usize {
        self.capacity
    }

    /// Internal consistency: the ranked samples are a reordering of the
    /// window, the window never exceeds the capacity, and the capacity
    /// is positive.
    pub closed spec fn well_formed(&self) -> bool {
        &&& self.ranked@.to_multiset() == self.window@.to_multiset()
        &&& sorted_by(self.ranked@, sample_leq())
        &&& self.window@.len() <= self.capacity
        &&& 1 <= self.capacity
    }

    /// An empty filter that will retain at most `capacity` samples.
    pub fn new(capacity: usize) -> (filter: Self)
        requires
            1 <= capacity,
        ensures
            filter.well_formed(),
            filter@ == Seq::<u64>::empty(),
            filter.spec_capacity() == capacity,
    {
        let filter = MedianFilter { window: Vec::new(), ranked: Vec::new(), capacity };
        proof {
            assert(filter.ranked@.to_multiset() =~= filter.window@.to_multiset());
        }
        filter
    }

    /// Current occupancy of the window.
    pub fn len(&self) -> (n: usize)
        ensures
            n == self@.len(),
    {
        self.window.len()
    }

    /// The capacity the filter was created with.
    pub fn capacity(&self) -> (n: usize)
        ensures
            n == self.spec_capacity(),
    {
        self.capacity
    }

    /// First position at which `v` could sit in the ranked samples
    /// without breaking their order: every sample before it is below
    /// `v`, every sample from it on is at or above `v`.
    fn lower_bound(ranked: &Vec<u64>, v: u64) -> (pos: usize)
        requires
            sorted_by(ranked@, sample_leq()),
        ensures
            pos <= ranked@.len(),
            forall|i: int| 0 <= i < pos ==> ranked@[i] < v,
            forall|i: int| pos <= i < ranked@.len() ==> v <= ranked@[i],
    {
        let mut lo: usize = 0;
        let mut hi: usize = ranked.len();
        while lo < hi
            invariant
                lo <= hi <= ranked@.len(),
                sorted_by(ranked@, sample_leq()),
                forall|i: int| 0 <= i < lo ==> ranked@[i] < v,
                forall|i: int| hi <= i < ranked@.len() ==> v <= ranked@[i],
            decreases hi - lo,
        {
            let mid = lo + (hi - lo) / 2;
            if ranked[mid] < v {
                proof {
                    assert forall|i: int| 0 <= i < mid + 1 implies ranked@[i] < v by {
                        if i < mid {
                            assert(sample_leq()(ranked@[i], ranked@[mid as int]));
                        }
                    }
                }
                lo = mid + 1;
            } else {
                proof {
                    assert forall|i: int| mid <= i < ranked@.len() implies v <= ranked@[i] by {
                        if mid < i {
                            assert(sample_leq()(ranked@[mid as int], ranked@[i]));
                        }
                    }
                }
                hi = mid;
            }
        }
        lo
    }

    /// Accepts a new sample. At capacity the oldest-inserted sample is
    /// evicted first, so the window keeps exactly the most recent
    /// samples; below capacity the window only grows.
    pub fn push(&mut self, value: u64)
        requires
            old(self).well_formed(),
        ensures
            final(self).well_formed(),
            final(self).spec_capacity() == old(self).spec_capacity(),
            final(self)@ == window_push(old(self)@, value, old(self).spec_capacity() as nat),
    {
        proof {
            broadcast use group_to_multiset_ensures;

        }
        if self.window.len() == self.capacity {
            let oldest = self.window.remove(0);
            let at = Self::lower_bound(&self.ranked, oldest);
            proof {
                let ranked = self.ranked@;
                assert(ranked.to_multiset().count(oldest) > 0);
                assert(ranked.contains(oldest));
                let j = choose|j: int| 0 <= j < ranked.len() && ranked[j] == oldest;
                assert(at <= j) by {
                    if j < at {
                        assert(ranked[j] < oldest);
                    }
                }
                assert(oldest <= ranked[at as int]);
                assert(sample_leq()(ranked[at as int], ranked[j]) || at == j);
                assert(ranked[at as int] == oldest);
            }
            let _removed = self.ranked.remove(at);
            proof {
                lemma_remove_keeps_sorted(old(self).ranked@, at as int);
            }
        }
        let pos = Self::lower_bound(&self.ranked, value);
        let ghost ranked_before = self.ranked@;
        self.ranked.insert(pos, value);
        self.window.push(value);
        proof {
            lemma_insert_keeps_sorted(ranked_before, pos as int, value);
            assert(self.ranked@.to_multiset() =~= self.window@.to_multiset());
        }
    }

    /// The running median, or `None` while no sample has landed yet.
    pub fn median(&self) -> (m: Option<u64>)
        requires
            self.well_formed(),
        ensures
            m == if self@.len() == 0 {
                Option::<u64>::None
            } else {
                Option::<u64>::Some(median_spec(self@))
            },
    {
        if self.window.len() == 0 {
            None
        } else {
            proof {
                lemma_ranked_is_sorted_window(self);
                assert((self@.len() - 1) / 2 < self@.len()) by (nonlinear_arith)
                    requires
                        self@.len() > 0,
                ;
            }
            Some(self.ranked[(self.window.len() - 1) / 2])
        }
    }

    /// Builds a filter of capacity `capacity` by pushing every sample of
    /// `samples` in order, oldest first.
    pub fn from_samples(capacity: usize, samples: &Vec<u64>) -> (filter: Self)
        requires
            1 <= capacity,
        ensures
            filter.well_formed(),
            filter.spec_capacity() == capacity,
            filter@ == window_of(samples@, capacity as nat),
    {
        let mut filter = Self::new(capacity);
        let mut i: usize = 0;
        proof {
            assert(samples@.take(0) =~= Seq::<u64>::empty());
        }
        while i < samples.len()
            invariant
                filter.well_formed(),
                filter.spec_capacity() == capacity,
                i <= samples@.len(),
                filter@ == window_of(samples@.take(i as int), capacity as nat),
            decreases samples@.len() - i,
        {
            filter.push(samples[i]);
            proof {
                let taken = samples@.take(i + 1);
                assert(taken.drop_last() =~= samples@.take(i as int));
                assert(taken.last() == samples@[i as int]);
            }
            i = i + 1;
        }
        proof {
            assert(samples@.take(samples@.len() as int) =~= samples@);
        }
        filter
    }
}

/// The ranked samples of a well-formed filter are exactly the window
/// sorted by value.
proof fn lemma_ranked_is_sorted_window(filter: &MedianFilter)
    requires
        filter.well_formed(),
    ensures
        filter.ranked@ == filter@.sort_by(sample_leq()),
        filter.ranked@.len() == filter@.len(),
{
    broadcast use group_to_multiset_ensures;

    let leq = sample_leq();
    lemma_sample_leq_total();
    filter.window@.lemma_sort_by_ensures(leq);
    lemma_sorted_unique(filter.ranked@, filter.window@.sort_by(leq), leq);
    assert(filter.ranked@.to_multiset().len() == filter.window@.to_multiset().len());
}

/// Plain `<=` on `u64` is a total order.
proof fn lemma_sample_leq_total()
    ensures
        total_ordering(sample_leq()),
{
    let leq = sample_leq();
    assert forall|x: u64| #[trigger] leq(x, x) by {}
}

/// Removing one sample from an ordered run leaves it ordered.
proof fn lemma_remove_keeps_sorted(s: Seq<u64>, at: int)
    requires
        0 <= at < s.len(),
        sorted_by(s, sample_leq()),
    ensures
        sorted_by(s.remove(at), sample_leq()),
{
    let t = s.remove(at);
    assert forall|i: int, j: int| 0 <= i < j < t.len() implies #[trigger] sample_leq()(
        t[i],
        t[j],
    ) by {
        let oi = if i < at {
            i
        } else {
            i + 1
        };
        let oj = if j < at {
            j
        } else {
            j + 1
        };
        assert(sample_leq()(s[oi], s[oj]));
    }
}

/// Inserting a sample at its lower bound keeps the run ordered.
proof fn lemma_insert_keeps_sorted(s: Seq<u64>, pos: int, v: u64)
    requires
        0 <= pos <= s.len(),
        sorted_by(s, sample_leq()),
        forall|i: int| 0 <= i < pos ==> s[i] < v,
        forall|i: int| pos <= i < s.len() ==> v <= s[i],
    ensures
        sorted_by(s.insert(pos, v), sample_leq()),
{
    let t = s.insert(pos, v);
    assert forall|i: int, j: int| 0 <= i < j < t.len() implies #[trigger] sample_leq()(
        t[i],
        t[j],
    ) by {
        if i < pos {
            assert(t[i] == s[i]);
        }
        if j < pos {
            assert(t[j] == s[j]);
        }
        if i > pos {
            assert(t[i] == s[i - 1]);
        }
        if j > pos {
            assert(t[j] == s[j - 1]);
        }
        if i < pos && j > pos {
            assert(sample_leq()(s[i], s[j - 1]) || (s[i] < v && v <= s[j - 1]));
        }
    }
}

/// Pushing at most `cap` samples into an empty filter retains every one
/// of them, in order: no eviction happens below capacity.
pub proof fn lemma_window_within_capacity(samples: Seq<u64>, cap: nat)
    requires
        samples.len() <= cap,
    ensures
        window_of(samples, cap) == samples,
    decreases samples.len(),
{
    if samples.len() == 0 {
        assert(window_of(samples, cap) =~= samples);
    } else {
        lemma_window_within_capacity(samples.drop_last(), cap);
        assert(window_of(samples, cap) =~= samples);
    }
}

/// Pushing more than `cap` samples into an empty filter retains exactly
/// the `cap` most recently pushed ones: the older pushes are evicted.
pub proof fn lemma_window_eviction(samples: Seq<u64>, cap: nat)
    requires
        1 <= cap < samples.len(),
    ensures
        window_of(samples, cap) == samples.subrange(
            samples.len() - cap,
            samples.len() as int,
        ),
    decreases samples.len(),
{
    let n = samples.len() as int;
    if samples.len() == cap + 1 {
        lemma_window_within_capacity(samples.drop_last(), cap);
        assert(window_of(samples, cap) =~= samples.subrange(n - cap, n));
    } else {
        lemma_window_eviction(samples.drop_last(), cap);
        assert(window_of(samples, cap) =~= samples.subrange(n - cap, n));
    }
}

/// The samples at or below `x`.
pub open spec fn at_most(x: u64) -> spec_fn(u64) -> bool {
    |v: u64| v <= x
}

/// The samples at or above `x`.
pub open spec fn at_least(x: u64) -> spec_fn(u64) -> bool {
    |v: u64| x <= v
}

/// How many samples of `s`, counted with multiplicity, are at or below
/// `x`.
pub open spec fn count_at_most(s: Seq<u64>, x: u64) -> nat {
    s.filter(at_most(x)).len()
}

/// How many samples of `s`, counted with multiplicity, are at or above
/// `x`.
pub open spec fn count_at_least(s: Seq<u64>, x: u64) -> nat {
    s.filter(at_least(x)).len()
}

/// Removing one sample takes exactly its own contribution out of a
/// filter count.
proof fn lemma_filter_length_remove(t: Seq<u64>, j: int, p: spec_fn(u64) -> bool)
    requires
        0 <= j < t.len(),
    ensures
        t.filter(p).len() == t.remove(j).filter(p).len() + (if p(t[j]) {
            1int
        } else {
            0int
        }),
    decreases t.len(),
{
    reveal(Seq::filter);
    if j == t.len() - 1 {
        assert(t.remove(j) =~= t.drop_last());
    } else {
        let t2 = t.drop_last();
        assert(t.remove(j).drop_last() =~= t2.remove(j));
        assert(t.remove(j).last() == t.last());
        lemma_filter_length_remove(t2, j, p);
    }
}

/// Two runs with the same samples have the same filter counts: a
/// filter count only sees the multiset.
proof fn lemma_filter_length_multiset(s: Seq<u64>, t: Seq<u64>, p: spec_fn(u64) -> bool)
    requires
        s.to_multiset() == t.to_multiset(),
    ensures
        s.filter(p).len() == t.filter(p).len(),
    decreases s.len(),
{
    broadcast use group_to_multiset_ensures;

    reveal(Seq::filter);
    if s.len() == 0 {
        assert(t.to_multiset().len() == 0);
        assert(t.len() == 0);
    } else {
        let x = s.last();
        assert(s.contains(x));
        assert(t.to_multiset().count(x) > 0);
        assert(t.contains(x));
        let j = choose|j: int| 0 <= j < t.len() && t[j] == x;
        assert(s.drop_last() =~= s.remove(s.len() - 1));
        assert(s.drop_last().to_multiset() == s.to_multiset().remove(x));
        assert(t.remove(j).to_multiset() == t.to_multiset().remove(x));
        lemma_filter_length_multiset(s.drop_last(), t.remove(j), p);
        lemma_filter_length_remove(t, j, p);
    }
}

/// When the first `n` entries of a run satisfy a predicate, its filter
/// count is at least `n`.
proof fn lemma_filter_length_prefix(t: Seq<u64>, n: int, p: spec_fn(u64) -> bool)
    requires
        0 <= n <= t.len(),
        forall|i: int| 0 <= i < n ==> p(t[i]),
    ensures
        t.filter(p).len() >= n,
    decreases t.len(),
{
    reveal(Seq::filter);
    if t.len() > 0 {
        if n == t.len() {
            assert(p(t.last()));
            lemma_filter_length_prefix(t.drop_last(), n - 1, p);
        } else {
            lemma_filter_length_prefix(t.drop_last(), n, p);
        }
    }
}

/// When every entry from position `j` on satisfies a predicate, the
/// filter count is at least the length of that tail.
proof fn lemma_filter_length_suffix(t: Seq<u64>, j: int, p: spec_fn(u64) -> bool)
    requires
        0 <= j <= t.len(),
        forall|i: int| j <= i < t.len() ==> p(t[i]),
    ensures
        t.filter(p).len() >= t.len() - j,
    decreases t.len(),
{
    reveal(Seq::filter);
    if j < t.len() {
        assert(p(t.last()));
        lemma_filter_length_suffix(t.drop_last(), j, p);
    }
}

/// The median is the standard one: counted with multiplicity, at least
/// half of the window's samples are at or below it, and — under the
/// lower-middle tie-break for even counts — at least half are at or
/// above it.
pub proof fn lemma_median_splits_window(s: Seq<u64>)
    requires
        s.len() > 0,
    ensures
        count_at_most(s, median_spec(s)) >= (s.len() + 1) / 2,
        count_at_least(s, median_spec(s)) >= (s.len() + 2) / 2,
{
    broadcast use group_to_multiset_ensures;

    let leq = sample_leq();
    lemma_sample_leq_total();
    s.lemma_sort_by_ensures(leq);
    let t = s.sort_by(leq);
    assert(t.to_multiset().len() == s.to_multiset().len());
    assert(t.len() == s.len());
    let k = ((s.len() - 1) / 2) as int;
    assert(0 <= k < t.len()) by (nonlinear_arith)
        requires
            t.len() == s.len(),
            s.len() > 0,
            k == ((s.len() - 1) / 2) as int,
    ;
    let m = t[k];
    assert(m == median_spec(s));
    assert forall|i: int| 0 <= i < k + 1 implies at_most(m)(t[i]) by {
        if i < k {
            assert(leq(t[i], t[k]));
        }
    }
    lemma_filter_length_prefix(t, k + 1, at_most(m));
    lemma_filter_length_multiset(s, t, at_most(m));
    assert forall|i: int| k <= i < t.len() implies at_least(m)(t[i]) by {
        if k < i {
            assert(leq(t[k], t[i]));
        }
    }
    lemma_filter_length_suffix(t, k, at_least(m));
    lemma_filter_length_multiset(s, t, at_least(m));
    assert(k + 1 >= (s.len() + 1) / 2 && s.len() - k >= (s.len() + 2) / 2) by (nonlinear_arith)
        requires
            s.len() > 0,
            k == ((s.len() - 1) / 2) as int,
    ;
}

/// The median of a non-empty window is always one of its samples.
pub proof fn lemma_median_is_sample(s: Seq<u64>)
    requires
        s.len() > 0,
    ensures
        s.contains(median_spec(s)),
{
    broadcast use group_to_multiset_ensures;

    let leq = sample_leq();
    lemma_sample_leq_total();
    s.lemma_sort_by_ensures(leq);
    let sorted = s.sort_by(leq);
    assert(sorted.to_multiset().len() == s.to_multiset().len());
    assert(sorted.len() == s.len());
    let mid = ((s.len() - 1) / 2) as int;
    assert(0 <= (s.len() - 1) / 2 < s.len()) by (nonlinear_arith)
        requires
            s.len() > 0,
    ;
    assert(sorted.contains(sorted[mid]));
    assert(s.to_multiset().count(sorted[mid]) > 0);
}

} // verus!
