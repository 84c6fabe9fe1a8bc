//! Bounded least-recently-used response caches, keyed by request fingerprint.
//!
//! Each result category owns one [`LruCache`]. A cache holds at most
//! `capacity` entries; inserting into a full cache evicts the least recently
//! used entry. The entries are modelled as a sequence of key/value pairs,
//! most recently used first.

use vstd::prelude::*;
use crate::strkit::str_eq;

verus! {

/// One bounded least-recently-used cache. The entry at index 0 of the view
/// is the most recently used; the last entry is the next to be evicted.
pub struct LruCache<V> {
    entries: Vec<(String, V)>,
    capacity: usize,
}

/// Whether `s` holds an entry keyed `k`.
pub open spec fn cache_has<V>(s: Seq<(Seq<char>, V)>, k: Seq<char>) -> bool {
    exists|i: int| 0 <= i < s.len() && s[i].0 == k
}

/// The index of the entry keyed `k` (meaningful only when `cache_has`).
pub open spec fn cache_idx<V>(s: Seq<(Seq<char>, V)>, k: Seq<char>) -> int {
    choose|i: int| 0 <= i < s.len() && s[i].0 == k
}

/// `s` without the entry keyed `k`; `s` itself when no such entry exists.
pub open spec fn cache_remove<V>(s: Seq<(Seq<char>, V)>, k: Seq<char>) -> Seq<(Seq<char>, V)> {
    if cache_has(s, k) {
        s.remove(cache_idx(s, k))
    } else {
        s
    }
}

/// The contents after inserting `k -> v` into a cache of capacity `cap`:
/// the entry stands in front (most recently used); an older entry under the
/// same key is gone; when the key is new and the cache is full, the least
/// recently used entry (the last one) is evicted.
pub open spec fn cache_put<V>(s: Seq<(Seq<char>, V)>, cap: nat, k: Seq<char>, v: V) -> Seq<
    (Seq<char>, V),
> {
    let without = cache_remove(s, k);
    let room = if without.len() >= cap {
        without.drop_last()
    } else {
        without
    };
    seq![(k, v)] + room
}

impl<V> View for LruCache<V> {
    type V = Seq<(Seq<char>, V)>;

    closed spec fn view(&self) -> Seq<(Seq<char>, V)> {
        Seq::new(self.entries@.len() as nat, |i: int| (self.entries@[i].0@, self.entries@[i].1))
    }
}

impl<V> LruCache<V> {
    /// The fixed capacity the cache was created with.
    pub closed spec fn cap(&self) -> nat {
        self.capacity as nat
    }

    /// Well-formed: a positive capacity, never more entries than the
    /// capacity, and pairwise distinct keys.
    pub open spec fn wf(&self) -> bool {
        &&& self.cap() >= 1
        &&& self@.len() <= self.cap()
        &&& forall|i: int, j: int|
            0 <= i < j < self@.len() ==> self@[i].0 != self@[j].0
    }

    /// Creates an empty cache of the given capacity.
    pub fn new(capacity: usize) -> (r: Self)
        requires
            capacity >= 1,
        ensures
            r.wf(),
            r@ == Seq::<(Seq<char>, V)>::empty(),
            r.cap() == capacity,
    {
        let r = LruCache { entries: Vec::new(), capacity };
        proof {
            assert(r@ =~= Seq::<(Seq<char>, V)>::empty());
        }
        r
    }

    /// The number of entries currently held.
    pub fn len(&self) -> (r: usize)
        ensures
            r == self@.len(),
    {
        self.entries.len()
    }

    /// The index of the entry keyed `key`, if one exists.
    fn index_of(&self, key: &str) -> (r: Option<usize>)
        ensures
            match r {
                Some(i) => i < self@.len() && self@[i as int].0 == key@,
                None => !cache_has(self@, key@),
            },
    {
        let n = self.entries.len();
        let mut i: usize = 0;
        while i < n
            invariant
                i <= n,
                n == self@.len(),
                forall|j: int| 0 <= j < i ==> self@[j].0 != key@,
            decreases n - i,
        {
            let e = &self.entries[i];
            if str_eq(e.0.as_str(), key) {
                return Some(i);
            }
            i += 1;
        }
        None
    }

    /// Whether an entry keyed `key` is present. Checking does not change
    /// the recency order.
    pub fn contains(&self, key: &str) -> (r: bool)
        ensures
            r == cache_has(self@, key@),
    {
        match self.index_of(key) {
            Some(_) => true,
            None => false,
        }
    }

    /// A reference to the value keyed `key`, without changing the recency
    /// order.
    pub fn peek(&self, key: &str) -> (r: Option<&V>)
        requires
            self.wf(),
        ensures
            match r {
                Some(v) => cache_has(self@, key@) && *v == self@[cache_idx(self@, key@)].1,
                None => !cache_has(self@, key@),
            },
    {
        match self.index_of(key) {
            Some(i) => {
                proof {
                    self.lemma_idx_unique(key@, i as int);
                }
                Some(&self.entries[i].1)
            },
            None => None,
        }
    }

    /// Inserts `key -> value` as the most recently used entry, replacing an
    /// older entry under the same key and evicting the least recently used
    /// entry when a new key arrives at capacity.
    pub fn put(&mut self, key: String, value: V)
        requires
            old(self).wf(),
        ensures
            final(self).wf(),
            final(self).cap() == old(self).cap(),
            final(self)@ == cache_put(old(self)@, old(self).cap(), key@, value),
    {
        let ghost s0 = self@;
        let ghost cap = self.cap();
        match self.index_of(key.as_str()) {
            Some(i) => {
                proof {
                    self.lemma_idx_unique(key@, i as int);
                }
                self.entries.remove(i);
                proof {
                    assert(self@ =~= s0.remove(i as int));
                    assert(cache_remove(s0, key@) == s0.remove(i as int));
                }
            },
            None => {
                if self.entries.len() == self.capacity {
                    self.entries.pop();
                    proof {
                        assert(self@ =~= s0.drop_last());
                    }
                }
            },
        }
        let ghost mid = self@;
        self.entries.insert(0, (key, value));
        proof {
            assert(self@ =~= seq![(key@, value)] + mid);
            assert(self@ =~= cache_put(s0, cap, key@, value));
            assert forall|i: int, j: int| 0 <= i < j < self@.len() implies self@[i].0
                != self@[j].0 by {
                if i > 0 {
                    assert(mid[i - 1].0 != mid[j - 1].0);
                } else {
                    assert(!cache_has(mid, key@));
                }
            }
        }
    }

    /// Removes and returns the value keyed `key`, if one is present.
    pub fn pop(&mut self, key: &str) -> (r: Option<V>)
        requires
            old(self).wf(),
        ensures
            final(self).wf(),
            final(self).cap() == old(self).cap(),
            final(self)@ == cache_remove(old(self)@, key@),
            match r {
                Some(v) => cache_has(old(self)@, key@) && v == old(self)@[cache_idx(
                    old(self)@,
                    key@,
                )].1,
                None => !cache_has(old(self)@, key@),
            },
    {
        let ghost s0 = self@;
        match self.index_of(key) {
            Some(i) => {
                proof {
                    self.lemma_idx_unique(key@, i as int);
                }
                let entry = self.entries.remove(i);
                proof {
                    assert(self@ =~= s0.remove(i as int));
                }
                Some(entry.1)
            },
            None => None,
        }
    }

    /// Under distinct keys, `cache_idx` is the one index holding `k`.
    proof fn lemma_idx_unique(&self, k: Seq<char>, i: int)
        requires
            self.wf(),
            0 <= i < self@.len(),
            self@[i].0 == k,
        ensures
            cache_idx(self@, k) == i,
    {
        assert(cache_has(self@, k));
        let j = cache_idx(self@, k);
        if i < j {
            assert(self@[i].0 != self@[j].0);
        } else if j < i {
            assert(self@[j].0 != self@[i].0);
        }
    }
}

/// Removing a key from contents with pairwise distinct keys leaves no entry
/// under that key.
pub proof fn lemma_cache_remove_absent<V>(s: Seq<(Seq<char>, V)>, k: Seq<char>)
    requires
        forall|i: int, j: int| 0 <= i < j < s.len() ==> s[i].0 != s[j].0,
    ensures
        !cache_has(cache_remove(s, k), k),
{
    if cache_has(s, k) {
        let idx = cache_idx(s, k);
        let r = s.remove(idx);
        assert forall|i: int| 0 <= i < r.len() implies r[i].0 != k by {
            if i < idx {
                assert(r[i] == s[i]);
                assert(s[i].0 != s[idx].0);
            } else {
                assert(r[i] == s[i + 1]);
                assert(s[idx].0 != s[i + 1].0);
            }
        }
    }
}

/// Folds a sequence of insertions into a cache's contents, oldest first.
pub open spec fn cache_put_all<V>(
    s: Seq<(Seq<char>, V)>,
    cap: nat,
    entries: Seq<(Seq<char>, V)>,
) -> Seq<(Seq<char>, V)>
    decreases entries.len(),
{
    if entries.len() == 0 {
        s
    } else {
        cache_put(
            cache_put_all(s, cap, entries.drop_last()),
            cap,
            entries.last().0,
            entries.last().1,
        )
    }
}

/// Shape of a cache filled from empty with distinct keys: it holds the most
/// recent `cap` insertions, newest first.
proof fn lemma_put_all_shape<V>(cap: nat, entries: Seq<(Seq<char>, V)>)
    requires
        cap >= 1,
        forall|i: int, j: int|
            0 <= i < j < entries.len() ==> entries[i].0 != entries[j].0,
    ensures
        cache_put_all(Seq::<(Seq<char>, V)>::empty(), cap, entries).len() == if entries.len()
            <= cap {
            entries.len()
        } else {
            cap
        },
        forall|i: int|
            0 <= i < cache_put_all(Seq::<(Seq<char>, V)>::empty(), cap, entries).len()
                ==> cache_put_all(Seq::<(Seq<char>, V)>::empty(), cap, entries)[i]
                == entries[entries.len() - 1 - i],
    decreases entries.len(),
{
    let empty = Seq::<(Seq<char>, V)>::empty();
    if entries.len() == 0 {
        assert(cache_put_all(empty, cap, entries) =~= empty);
    } else {
        let front = entries.drop_last();
        lemma_put_all_shape(cap, front);
        let prev = cache_put_all(empty, cap, front);
        let k = entries.last().0;
        let v = entries.last().1;
        assert forall|i: int| 0 <= i < prev.len() implies prev[i].0 != k by {
            assert(prev[i] == front[front.len() - 1 - i]);
            assert(entries[front.len() - 1 - i].0 != entries[entries.len() - 1].0);
        }
        assert(!cache_has(prev, k));
        assert(cache_remove(prev, k) == prev);
        let r = cache_put_all(empty, cap, entries);
        assert(r == cache_put(prev, cap, k, v));
        if prev.len() >= cap {
            assert(r =~= seq![(k, v)] + prev.drop_last());
        } else {
            assert(r =~= seq![(k, v)] + prev);
        }
    }
}

/// The capacity bound and eviction order of the caches: filling an empty
/// cache of capacity `cap` with `cap + 1` distinct fingerprints leaves
/// exactly `cap` entries; the first (least recently used) fingerprint has
/// been evicted and every later one is still present.
pub proof fn lemma_lru_capacity_eviction<V>(cap: nat, entries: Seq<(Seq<char>, V)>)
    requires
        cap >= 1,
        entries.len() == cap + 1,
        forall|i: int, j: int|
            0 <= i < j < entries.len() ==> entries[i].0 != entries[j].0,
    ensures
        cache_put_all(Seq::<(Seq<char>, V)>::empty(), cap, entries).len() == cap,
        !cache_has(cache_put_all(Seq::<(Seq<char>, V)>::empty(), cap, entries), entries[0].0),
        forall|j: int|
            1 <= j < entries.len() ==> cache_has(
                cache_put_all(Seq::<(Seq<char>, V)>::empty(), cap, entries),
                entries[j].0,
            ),
{
    lemma_put_all_shape(cap, entries);
    let r = cache_put_all(Seq::<(Seq<char>, V)>::empty(), cap, entries);
    assert forall|i: int| 0 <= i < r.len() implies r[i].0 != entries[0].0 by {
        assert(r[i] == entries[entries.len() - 1 - i]);
        assert(entries[0].0 != entries[entries.len() - 1 - i].0);
    }
    assert forall|j: int| 1 <= j < entries.len() implies cache_has(r, entries[j].0) by {
        let i = entries.len() - 1 - j;
        assert(r[i] == entries[j]);
    }
}

} // verus!
