//! A cache of what was learnt about files, keyed by path and valid for one modification
//! time of the file. It is emptied once it grows past its limit.
use vstd::prelude::*;

use crate::text::{copy_str, str_eq};

verus! {

/// The entry stored for `key`, if any: the modification time and the value.
pub open spec fn find_entry<V>(entries: Seq<(Seq<char>, u64, V)>, key: Seq<char>) -> Option<(u64, V)>
    decreases entries.len(),
{
    if entries.len() == 0 {
        None
    } else if entries.last().0 == key {
        Some((entries.last().1, entries.last().2))
    } else {
        find_entry(entries.drop_last(), key)
    }
}

/// A cache of values per path, each valid for one modification time.
#[derive(Debug)]
pub struct MetaCache<V> {
    limit: usize,
    entries: Vec<(String, u64, V)>,
}

/// Keys are pairwise distinct.
pub open spec fn distinct_keys<V>(entries: Seq<(Seq<char>, u64, V)>) -> bool {
    forall|i: int, j: int|
        0 <= i < entries.len() && 0 <= j < entries.len() && i != j ==> #[trigger] entries[i].0
            != #[trigger] entries[j].0
}

proof fn lemma_find_at<V>(entries: Seq<(Seq<char>, u64, V)>, i: int)
    requires
        distinct_keys(entries),
        0 <= i < entries.len(),
    ensures
        find_entry(entries, entries[i].0) == Some((entries[i].1, entries[i].2)),
    decreases entries.len(),
{
    if i < entries.len() - 1 {
        assert(entries.last().0 != entries[i].0);
        assert(entries.drop_last()[i] == entries[i]);
        lemma_find_at(entries.drop_last(), i);
    }
}

proof fn lemma_find_absent<V>(entries: Seq<(Seq<char>, u64, V)>, key: Seq<char>)
    requires
        forall|i: int| 0 <= i < entries.len() ==> #[trigger] entries[i].0 != key,
    ensures
        find_entry(entries, key) is None,
    decreases entries.len(),
{
    if entries.len() > 0 {
        assert(entries.last().0 != key);
        assert forall|i: int| 0 <= i < entries.drop_last().len() implies #[trigger] entries.drop_last()[i].0
            != key by {
            assert(entries.drop_last()[i] == entries[i]);
        }
        lemma_find_absent(entries.drop_last(), key);
    }
}

proof fn lemma_find_found<V>(entries: Seq<(Seq<char>, u64, V)>, key: Seq<char>)
    requires
        find_entry(entries, key) is Some,
    ensures
        exists|i: int| 0 <= i < entries.len() && #[trigger] entries[i].0 == key,
    decreases entries.len(),
{
    if entries.last().0 == key {
        assert(entries[entries.len() - 1].0 == key);
    } else {
        lemma_find_found(entries.drop_last(), key);
        let i = choose|i: int| 0 <= i < entries.drop_last().len() && #[trigger] entries.drop_last()[i].0 == key;
        assert(entries[i] == entries.drop_last()[i]);
    }
}

impl<V> MetaCache<V> {
    /// The entries as `(path, modification time, value)`.
    pub closed spec fn entries(&self) -> Seq<(Seq<char>, u64, V)> {
        self.entries@.map_values(|e: (String, u64, V)| (e.0@, e.1, e.2))
    }

    /// The number of entries past which the cache is emptied.
    pub closed spec fn limit(&self) -> usize {
        self.limit
    }

    /// The entry stored for a path, if any.
    pub open spec fn stored(&self, key: Seq<char>) -> Option<(u64, V)> {
        find_entry(self.entries(), key)
    }

    /// What a lookup of `key` at the modification time `mtime` finds: the stored value
    /// where it was stored for that time, nothing otherwise.
    pub open spec fn cached(&self, key: Seq<char>, mtime: u64) -> Option<V> {
        match self.stored(key) {
            Some((m, v)) => if m == mtime {
                Some(v)
            } else {
                None
            },
            None => None,
        }
    }

    /// The invariant: one entry per path, and at most one entry past the limit.
    pub closed spec fn wf(&self) -> bool {
        &&& distinct_keys(self.entries())
        &&& self.entries@.len() <= self.limit + 1
    }

    /// The number of entries.
    pub closed spec fn size(&self) -> nat {
        self.entries@.len()
    }

    /// An empty cache that is emptied once it holds more than `limit` entries.
    pub fn new(limit: usize) -> (res: Self)
        requires
            limit < usize::MAX,
        ensures
            res.wf(),
            res.limit() == limit,
            res.size() == 0,
            forall|k: Seq<char>| res.stored(k) is None,
    {
        let res = MetaCache { limit, entries: Vec::new() };
        assert forall|k: Seq<char>| res.stored(k) is None by {
            assert(res.entries().len() == 0);
        }
        res
    }

    /// The number of entries.
    pub fn len(&self) -> (res: usize)
        ensures
            res == self.size(),
    {
        self.entries.len()
    }

    /// The index of the entry for `key`.
    fn position(&self, key: &str) -> (res: Option<usize>)
        requires
            self.wf(),
        ensures
            match res {
                Some(i) => i < self.entries@.len() && self.entries()[i as int].0 == key@,
                None => forall|i: int|
                    0 <= i < self.entries@.len() ==> #[trigger] self.entries()[i].0 != key@,
            },
    {
        let mut i: usize = 0;
        while i < self.entries.len()
            invariant
                i <= self.entries@.len(),
                forall|j: int| 0 <= j < i ==> #[trigger] self.entries()[j].0 != key@,
            decreases self.entries.len() - i,
        {
            assert(self.entries()[i as int].0 == self.entries@[i as int].0@);
            if str_eq(self.entries[i].0.as_str(), key) {
                return Some(i);
            }
            i += 1;
        }
        None
    }

    /// The value stored for `key`, where it was stored for the modification time `mtime`.
    pub fn lookup(&self, key: &str, mtime: u64) -> (res: Option<&V>)
        requires
            self.wf(),
        ensures
            match res {
                Some(r) => self.cached(key@, mtime) == Some(*r),
                None => self.cached(key@, mtime) is None,
            },
    {
        match self.position(key) {
            Some(i) => {
                proof {
                    lemma_find_at(self.entries(), i as int);
                }
                if self.entries[i].1 == mtime {
                    Some(&self.entries[i].2)
                } else {
                    None
                }
            },
            None => {
                proof {
                    lemma_find_absent(self.entries(), key@);
                }
                None
            },
        }
    }

    /// Stores `value` for `key` and `mtime`, replacing any earlier entry for `key`. When
    /// the cache holds more than its limit, it is emptied first.
    pub fn insert(&mut self, key: &str, mtime: u64, value: V)
        requires
            old(self).wf(),
        ensures
            final(self).wf(),
            final(self).limit() == old(self).limit(),
            final(self).stored(key@) == Some((mtime, value)),
            final(self).cached(key@, mtime) == Some(value),
            forall|m: u64| m != mtime ==> #[trigger] final(self).cached(key@, m) is None,
            forall|k: Seq<char>|
                k != key@ ==> #[trigger] final(self).stored(k) == (if old(self).size() > old(
                    self,
                ).limit() {
                    None
                } else {
                    old(self).stored(k)
                }),
    {
        if self.entries.len() > self.limit {
            self.entries.clear();
            assert(self.entries() =~= Seq::<(Seq<char>, u64, V)>::empty());
        }
        let ghost before = self.entries();
        assert(forall|k: Seq<char>| find_entry(before, k) == (if old(self).size() > old(
            self,
        ).limit() {
            None
        } else {
            old(self).stored(k)
        }));
        match self.position(key) {
            Some(i) => {
                let ghost ks = key@;
                self.entries.set(i, (copy_str(key), mtime, value));
                assert(self.entries() =~= before.update(i as int, (ks, mtime, value)));
                proof {
                    lemma_find_at(self.entries(), i as int);
                    assert forall|k: Seq<char>| k != ks implies #[trigger] find_entry(
                        self.entries(),
                        k,
                    ) == find_entry(before, k) by {
                        lemma_find_update(before, i as int, (ks, mtime, value), k);
                    }
                }
            },
            None => {
                let ghost ks = key@;
                self.entries.push((copy_str(key), mtime, value));
                assert(self.entries() =~= before.push((ks, mtime, value)));
                assert(self.entries().drop_last() =~= before);
                assert forall|k: Seq<char>| k != ks implies #[trigger] find_entry(
                    self.entries(),
                    k,
                ) == find_entry(before, k) by {}
            },
        }
    }
}

proof fn lemma_find_update<V>(
    entries: Seq<(Seq<char>, u64, V)>,
    i: int,
    e: (Seq<char>, u64, V),
    k: Seq<char>,
)
    requires
        0 <= i < entries.len(),
        entries[i].0 == e.0,
        k != e.0,
    ensures
        find_entry(entries.update(i, e), k) == find_entry(entries, k),
    decreases entries.len(),
{
    if i < entries.len() - 1 {
        assert(entries.update(i, e).drop_last() =~= entries.drop_last().update(i, e));
        lemma_find_update(entries.drop_last(), i, e, k);
    } else {
        assert(entries.update(i, e).drop_last() =~= entries.drop_last());
    }
}

} // verus!
