//! Counters and histograms for the toolkit's metrics.
use vstd::prelude::*;

verus! {

/// A counter that wraps around on overflow.
pub struct Counter {
    value: u64,
}

impl View for Counter {
    type V = u64;

    closed spec fn view(&self) -> u64 {
        self.value
    }
}

impl Default for Counter {
    fn default() -> (r: Counter)
        ensures
            r@ == 0,
    {
        Counter { value: 0 }
    }
}

impl Counter {
    /// Adds `v`, wrapping around on overflow.
    pub fn incr(&mut self, v: u64)
        ensures
            final(self)@ == (old(self)@ + v) % 0x1_0000_0000_0000_0000,
    {
        self.value = self.value.wrapping_add(v);
    }

    /// Adds one.
    pub fn inc(&mut self)
        ensures
            final(self)@ == (old(self)@ + 1) % 0x1_0000_0000_0000_0000,
    {
        self.incr(1);
    }

    pub fn get(&self) -> (r: u64)
        ensures
            r == self@,
    {
        self.value
    }
}

/// The sequence is strictly increasing.
pub open spec fn strictly_increasing(s: Seq<u64>) -> bool {
    forall|i: int, j: int| 0 <= i < j < s.len() ==> s[i] < s[j]
}

/// The index of the first bucket whose bound is at least `v`, or the number of
/// buckets when none is.
pub open spec fn bucket_for(bounds: Seq<u64>, v: u64) -> int
    decreases bounds.len(),
{
    if bounds.len() == 0 {
        0
    } else if v <= bounds[0] {
        0
    } else {
        1 + bucket_for(bounds.drop_first(), v)
    }
}

/// What a histogram holds: the bucket bounds, the count of each bucket, and the
/// wrapping sum and count of all observations.
pub struct HistogramView {
    pub buckets: Seq<u64>,
    pub counts: Seq<u64>,
    pub sum: u64,
    pub count: u64,
}

/// A histogram over sorted, distinct bucket bounds; an observation falls in the
/// first bucket whose bound is at least the value, or in none.
pub struct Histogram {
    buckets: Vec<u64>,
    counts: Vec<u64>,
    sum: u64,
    count: u64,
}

impl View for Histogram {
    type V = HistogramView;

    closed spec fn view(&self) -> HistogramView {
        HistogramView { buckets: self.buckets@, counts: self.counts@, sum: self.sum, count: self.count }
    }
}

/// Inserts `b` into a strictly increasing sequence, keeping it so.
fn insert_sorted(s: &mut Vec<u64>, b: u64)
    requires
        strictly_increasing(old(s)@),
    ensures
        strictly_increasing(final(s)@),
        final(s)@.to_set() == old(s)@.to_set().insert(b),
{
    let mut i: usize = 0;
    while i < s.len() && s[i] < b
        invariant
            0 <= i <= s@.len(),
            strictly_increasing(s@),
            s@ == old(s)@,
            forall|j: int| 0 <= j < i ==> s@[j] < b,
        decreases s@.len() - i,
    {
        i = i + 1;
    }
    if i < s.len() && s[i] == b {
        assert(old(s)@.to_set().insert(b) =~= old(s)@.to_set()) by {
            assert(old(s)@.contains(b));
        }
        return;
    }
    let ghost before = s@;
    s.insert(i, b);
    proof {
        assert(s@ =~= before.insert(i as int, b));
        assert forall|x: u64| #[trigger] s@.to_set().contains(x) <==> before.to_set().insert(b).contains(x) by {
            if s@.contains(x) {
                let k = choose|k: int| 0 <= k < s@.len() && s@[k] == x;
                if k < i {
                    assert(before[k] == x);
                } else if k > i {
                    assert(before[k - 1] == x);
                }
            }
            if before.contains(x) {
                let k = choose|k: int| 0 <= k < before.len() && before[k] == x;
                if k < i {
                    assert(s@[k] == x);
                } else {
                    assert(s@[k + 1] == x);
                }
            }
            if x == b {
                assert(s@[i as int] == b);
            }
        }
        assert(s@.to_set() =~= before.to_set().insert(b));
    }
}

/// The histogram's bounds are sorted and distinct, with one count per bound.
pub open spec fn histogram_valid(h: HistogramView) -> bool {
    strictly_increasing(h.buckets) && h.counts.len() == h.buckets.len()
}

impl Histogram {
    #[verifier::type_invariant]
    spec fn well_formed(&self) -> bool {
        strictly_increasing(self.buckets@) && self.counts@.len() == self.buckets@.len()
    }

    /// A histogram with the given bucket bounds, sorted and without repeats, and
    /// every count zero.
    pub fn new(buckets: Vec<u64>) -> (r: Histogram)
        ensures
            histogram_valid(r@),
            r@.buckets.to_set() == buckets@.to_set(),
            r@.counts == Seq::new(r@.buckets.len(), |i: int| 0u64),
            r@.sum == 0,
            r@.count == 0,
    {
        let mut sorted: Vec<u64> = Vec::new();
        let mut i: usize = 0;
        while i < buckets.len()
            invariant
                0 <= i <= buckets@.len(),
                strictly_increasing(sorted@),
                sorted@.to_set() == buckets@.take(i as int).to_set(),
            decreases buckets@.len() - i,
        {
            insert_sorted(&mut sorted, buckets[i]);
            proof {
                assert(buckets@.take(i as int + 1) =~= buckets@.take(i as int).push(buckets@[i as int]));
                buckets@.take(i as int).lemma_push_to_set_commute(buckets@[i as int]);
            }
            i = i + 1;
        }
        assert(buckets@.take(buckets@.len() as int) =~= buckets@);
        let mut counts: Vec<u64> = Vec::new();
        let mut j: usize = 0;
        while j < sorted.len()
            invariant
                0 <= j <= sorted@.len(),
                counts@ =~= Seq::new(j as nat, |k: int| 0u64),
            decreases sorted@.len() - j,
        {
            counts.push(0);
            j = j + 1;
        }
        Histogram { buckets: sorted, counts, sum: 0, count: 0 }
    }

    /// Records a value: its bucket's count, the sum and the count each grow,
    /// wrapping around on overflow.
    pub fn observe(&mut self, v: u64)
        ensures
            histogram_valid(old(self)@),
            histogram_valid(final(self)@),
            final(self)@.buckets == old(self)@.buckets,
            final(self)@.counts == if bucket_for(old(self)@.buckets, v) < old(self)@.buckets.len() {
                old(self)@.counts.update(
                    bucket_for(old(self)@.buckets, v),
                    ((old(self)@.counts[bucket_for(old(self)@.buckets, v)] + 1) % 0x1_0000_0000_0000_0000) as u64,
                )
            } else {
                old(self)@.counts
            },
            final(self)@.sum == (old(self)@.sum + v) % 0x1_0000_0000_0000_0000,
            final(self)@.count == (old(self)@.count + 1) % 0x1_0000_0000_0000_0000,
    {
        proof {
            use_type_invariant(&*self);
        }
        let i = self.bucket_index(v);
        if i < self.buckets.len() {
            let mut counts = self.counts.clone();
            assert(counts@ == self.counts@);
            let c = counts[i];
            counts.set(i, c.wrapping_add(1));
            self.counts = counts;
        }
        self.sum = self.sum.wrapping_add(v);
        self.count = self.count.wrapping_add(1);
        proof {
            use_type_invariant(&*self);
        }
    }

    fn bucket_index(&self, v: u64) -> (r: usize)
        ensures
            r == bucket_for(self@.buckets, v),
            r <= self@.buckets.len(),
    {
        let mut i: usize = 0;
        assert(self.buckets@.subrange(0, self.buckets@.len() as int) =~= self.buckets@);
        while i < self.buckets.len()
            invariant
                0 <= i <= self.buckets@.len(),
                bucket_for(self.buckets@, v) == i + bucket_for(self.buckets@.subrange(i as int, self.buckets@.len() as int), v),
            decreases self.buckets@.len() - i,
        {
            proof {
                let rest = self.buckets@.subrange(i as int, self.buckets@.len() as int);
                assert(rest.drop_first() =~= self.buckets@.subrange(i as int + 1, self.buckets@.len() as int));
            }
            if v <= self.buckets[i] {
                return i;
            }
            i = i + 1;
        }
        i
    }

    /// Each bucket bound with its count, then the sum and the count.
    pub fn snapshot(&self) -> (r: (Vec<(u64, u64)>, u64, u64))
        ensures
            histogram_valid(self@),
            r.0@.len() == self@.buckets.len(),
            forall|i: int| 0 <= i < r.0@.len() ==> #[trigger] r.0@[i] == (self@.buckets[i], self@.counts[i]),
            r.1 == self@.sum,
            r.2 == self@.count,
    {
        proof {
            use_type_invariant(self);
        }
        let mut pairs: Vec<(u64, u64)> = Vec::new();
        let mut i: usize = 0;
        while i < self.buckets.len()
            invariant
                0 <= i <= self.buckets@.len(),
                self.counts@.len() == self.buckets@.len(),
                pairs@.len() == i,
                forall|j: int| 0 <= j < i ==> #[trigger] pairs@[j] == (self.buckets@[j], self.counts@[j]),
            decreases self.buckets@.len() - i,
        {
            pairs.push((self.buckets[i], self.counts[i]));
            i = i + 1;
        }
        (pairs, self.sum, self.count)
    }
}

} // verus!
