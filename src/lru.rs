//! A small least-recently-used cache keyed by integers.
use vstd::prelude::*;

verus! {

/// No two entries share a key.
pub open spec fn keys_unique<V>(s: Seq<(u64, V)>) -> bool {
    forall|i: int, j: int| 0 <= i < j < s.len() ==> (#[trigger] s[i]).0 != (#[trigger] s[j]).0
}

/// The first `cap` entries of `s` (all of them when there are fewer).
pub open spec fn keep_first<V>(s: Seq<(u64, V)>, cap: int) -> Seq<(u64, V)> {
    if s.len() > cap {
        s.take(cap)
    } else {
        s
    }
}

/// The index of the entry with key `k`, if any.
fn key_position<V>(entries: &Vec<(u64, V)>, k: u64) -> (r: Option<usize>)
    ensures
        r is Some ==> r->Some_0 < entries@.len() && entries@[r->Some_0 as int].0 == k,
        r is None ==> forall|i: int| 0 <= i < entries@.len() ==> (#[trigger] entries@[i]).0 != k,
{
    let mut i: usize = 0;
    while i < entries.len()
        invariant
            0 <= i <= entries@.len(),
            forall|j: int| 0 <= j < i ==> (#[trigger] entries@[j]).0 != k,
        decreases entries@.len() - i,
    {
        if entries[i].0 == k {
            return Some(i);
        }
        i = i + 1;
    }
    None
}

/// A cache holding at most `cap` entries, most recently used first.
pub struct LruCache<V> {
    cap: usize,
    entries: Vec<(u64, V)>,
}

impl<V> View for LruCache<V> {
    type V = Seq<(u64, V)>;

    closed spec fn view(&self) -> Seq<(u64, V)> {
        self.entries@
    }
}

impl<V> LruCache<V> {
    #[verifier::type_invariant]
    spec fn well_formed(&self) -> bool {
        keys_unique(self.entries@) && self.entries@.len() <= self.cap
    }

    /// The most entries the cache keeps.
    pub closed spec fn capacity(&self) -> nat {
        self.cap as nat
    }

    pub fn new(cap: usize) -> (r: LruCache<V>)
        ensures
            r@ == Seq::<(u64, V)>::empty(),
            r.capacity() == cap,
            keys_unique(r@),
    {
        LruCache { cap, entries: Vec::new() }
    }

    /// Stores `v` under `k` as the most recent entry, replacing an entry with the
    /// same key; when that exceeds the capacity the least recent entry is evicted.
    pub fn put(&mut self, k: u64, v: V)
        ensures
            final(self).capacity() == old(self).capacity(),
            keys_unique(old(self)@),
            old(self)@.len() <= old(self).capacity(),
            keys_unique(final(self)@),
            final(self)@.len() <= final(self).capacity(),
            final(self)@.len() > 0 ==> final(self)@[0] == (k, v),
            forall|i: int| 0 <= i < old(self)@.len() && (#[trigger] old(self)@[i]).0 == k
                ==> final(self)@ == keep_first(old(self)@.remove(i).insert(0, (k, v)), old(self).capacity() as int),
            (forall|i: int| 0 <= i < old(self)@.len() ==> (#[trigger] old(self)@[i]).0 != k)
                ==> final(self)@ == keep_first(old(self)@.insert(0, (k, v)), old(self).capacity() as int),
    {
        proof {
            use_type_invariant(&*self);
        }
        let mut entries = Vec::new();
        std::mem::swap(&mut entries, &mut self.entries);
        match key_position(&entries, k) {
            Some(i) => {
                entries.remove(i);
            },
            None => {},
        }
        let ghost removed = entries@;
        entries.insert(0, (k, v));
        if entries.len() > self.cap {
            entries.pop();
            assert(entries@ =~= removed.insert(0, (k, v)).take(self.cap as int));
        }
        proof {
            assert forall|a: int, b: int| 0 <= a < b < entries@.len() implies (#[trigger] entries@[a]).0
                != (#[trigger] entries@[b]).0 by {
                if a == 0 {
                    assert(removed.contains(entries@[b]));
                }
            }
        }
        self.entries = entries;
        proof {
            use_type_invariant(&*self);
        }
    }

    /// The value stored under `k`, which becomes the most recent entry.
    pub fn get(&mut self, k: &u64) -> (r: Option<&V>)
        ensures
            final(self).capacity() == old(self).capacity(),
            keys_unique(old(self)@),
            old(self)@.len() <= old(self).capacity(),
            keys_unique(final(self)@),
            final(self)@.len() <= final(self).capacity(),
            forall|i: int| 0 <= i < old(self)@.len() && (#[trigger] old(self)@[i]).0 == *k ==> {
                &&& final(self)@ == old(self)@.remove(i).insert(0, old(self)@[i])
                &&& r == Some(&old(self)@[i].1)
            },
            (forall|i: int| 0 <= i < old(self)@.len() ==> (#[trigger] old(self)@[i]).0 != *k) ==> {
                &&& final(self)@ == old(self)@
                &&& r is None
            },
    {
        proof {
            use_type_invariant(&*self);
        }
        match key_position(&self.entries, *k) {
            Some(i) => {
                let mut entries = Vec::new();
                std::mem::swap(&mut entries, &mut self.entries);
                let e = entries.remove(i);
                let ghost removed = entries@;
                entries.insert(0, e);
                proof {
                    assert forall|a: int, b: int| 0 <= a < b < entries@.len() implies (#[trigger] entries@[a]).0
                        != (#[trigger] entries@[b]).0 by {
                        if a == 0 {
                            assert(removed.contains(entries@[b]));
                        }
                    }
                }
                self.entries = entries;
                proof {
                    use_type_invariant(&*self);
                }
                Some(&self.entries[0].1)
            },
            None => {
                proof {
                    use_type_invariant(&*self);
                }
                None
            },
        }
    }

    /// The number of entries.
    pub fn len(&self) -> (r: usize)
        ensures
            r == self@.len(),
            keys_unique(self@),
            self@.len() <= self.capacity(),
    {
        proof {
            use_type_invariant(self);
        }
        self.entries.len()
    }
}

} // verus!
