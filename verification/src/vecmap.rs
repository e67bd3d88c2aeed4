//! A small association map backed by a vector of key/value pairs with
//! pairwise-distinct keys, keyed by the keys' views.  Stands in for a hash
//! map wherever the node keeps a table keyed by a version string or an
//! address.

use vstd::prelude::*;

verus! {

/// A key comparable by its view.
pub trait ViewKey: View + Sized {
    /// True exactly when the two keys have the same view.
    fn key_eq(&self, other: &Self) -> (r: bool)
        ensures
            r == (self@ == other@),
    ;
}

impl ViewKey for String {
    fn key_eq(&self, other: &Self) -> (r: bool) {
        self.eq(other)
    }
}

/// The mathematical map an entry sequence denotes; later entries win.
pub open spec fn entries_map<K: View, V>(s: Seq<(K, V)>) -> Map<<K as View>::V, V>
    decreases s.len(),
{
    if s.len() == 0 {
        Map::empty()
    } else {
        entries_map(s.drop_last()).insert(s.last().0@, s.last().1)
    }
}

/// No two entries share a key view.
pub open spec fn distinct_keys<K: View, V>(s: Seq<(K, V)>) -> bool {
    forall|i: int, j: int| 0 <= i < j < s.len() ==> s[i].0@ != s[j].0@
}

pub proof fn lemma_entries_map_dom<K: View, V>(s: Seq<(K, V)>)
    ensures
        forall|k: <K as View>::V| #[trigger]
            entries_map(s).dom().contains(k) <==> exists|i: int| 0 <= i < s.len() && s[i].0@ == k,
    decreases s.len(),
{
    if s.len() > 0 {
        lemma_entries_map_dom(s.drop_last());
        assert forall|k: <K as View>::V| #[trigger]
            entries_map(s).dom().contains(k) implies exists|i: int|
            0 <= i < s.len() && s[i].0@ == k by {
            if k == s.last().0@ {
                assert(s[s.len() - 1].0@ == k);
            } else {
                assert(entries_map(s.drop_last()).dom().contains(k));
                let i = choose|i: int| 0 <= i < s.drop_last().len() && s.drop_last()[i].0@ == k;
                assert(s.drop_last()[i] == s[i]);
                assert(s[i].0@ == k);
            }
        }
        assert forall|k: <K as View>::V|
            (exists|i: int| 0 <= i < s.len() && s[i].0@ == k) implies #[trigger]
            entries_map(s).dom().contains(k) by {
            let i = choose|i: int| 0 <= i < s.len() && s[i].0@ == k;
            if i < s.len() - 1 {
                assert(s.drop_last()[i].0@ == k);
                assert(entries_map(s.drop_last()).dom().contains(k));
                assert(entries_map(s).dom().contains(k));
            } else {
                assert(k == s.last().0@);
                assert(entries_map(s).dom().contains(k));
            }
        }
    }
}

pub proof fn lemma_entries_map_update<K: View, V>(s: Seq<(K, V)>, i: int, e: (K, V))
    requires
        distinct_keys(s),
        0 <= i < s.len(),
        e.0@ == s[i].0@,
    ensures
        entries_map(s.update(i, e)) =~= entries_map(s).insert(e.0@, e.1),
    decreases s.len(),
{
    let t = s.update(i, e);
    if i == s.len() - 1 {
        assert(t.drop_last() =~= s.drop_last());
    } else {
        assert(t.drop_last() =~= s.drop_last().update(i, e));
        assert(distinct_keys(s.drop_last())) by {
            assert(forall|a: int, b: int|
                0 <= a < b < s.drop_last().len() ==> s.drop_last()[a].0@ != s.drop_last()[b].0@);
        }
        assert(s.drop_last()[i] == s[i]);
        lemma_entries_map_update(s.drop_last(), i, e);
        assert(e.0@ != s.last().0@);
    }
}

pub proof fn lemma_entries_map_remove_at<K: View, V>(s: Seq<(K, V)>, i: int)
    requires
        distinct_keys(s),
        0 <= i < s.len(),
    ensures
        entries_map(s.remove(i)) =~= entries_map(s).remove(s[i].0@),
    decreases s.len(),
{
    let t = s.remove(i);
    if i == s.len() - 1 {
        assert(t =~= s.drop_last());
        lemma_entries_map_dom(s.drop_last());
        assert(forall|j: int| 0 <= j < s.drop_last().len() ==> s.drop_last()[j].0@ != s[i].0@);
        assert(!entries_map(s.drop_last()).dom().contains(s[i].0@));
    } else {
        assert(t.drop_last() =~= s.drop_last().remove(i));
        assert(distinct_keys(s.drop_last())) by {
            assert(forall|a: int, b: int|
                0 <= a < b < s.drop_last().len() ==> s.drop_last()[a].0@ != s.drop_last()[b].0@);
        }
        assert(s.drop_last()[i] == s[i]);
        lemma_entries_map_remove_at(s.drop_last(), i);
        assert(t.last() == s.last());
        assert(s[i].0@ != s.last().0@);
    }
}

pub proof fn lemma_entries_map_index<K: View, V>(s: Seq<(K, V)>, i: int)
    requires
        distinct_keys(s),
        0 <= i < s.len(),
    ensures
        entries_map(s).dom().contains(s[i].0@),
        entries_map(s)[s[i].0@] == s[i].1,
    decreases s.len(),
{
    lemma_entries_map_dom(s);
    if i < s.len() - 1 {
        assert(distinct_keys(s.drop_last())) by {
            assert(forall|a: int, b: int|
                0 <= a < b < s.drop_last().len() ==> s.drop_last()[a].0@ != s.drop_last()[b].0@);
        }
        assert(s.drop_last()[i] == s[i]);
        lemma_entries_map_index(s.drop_last(), i);
        assert(s[i].0@ != s.last().0@);
    }
}

/// An association map with pairwise-distinct keys.
#[derive(Debug)]
pub struct VecMap<K: ViewKey, V> {
    entries: Vec<(K, V)>,
}

impl<V: Copy> Clone for VecMap<String, V> {
    fn clone(&self) -> (r: Self)
        ensures
            r.entries_seq() =~= self.entries_seq(),
            r.as_map() == self.as_map(),
            r.wf() == self.wf(),
    {
        let n = self.entries.len();
        let mut entries: Vec<(String, V)> = Vec::new();
        let mut i: usize = 0;
        while i < n
            invariant
                0 <= i <= n,
                n == self.entries@.len(),
                entries@.len() == i,
                forall|j: int| 0 <= j < i ==> entries@[j] == self.entries@[j],
            decreases n - i,
        {
            entries.push((self.entries[i].0.clone(), self.entries[i].1));
            i += 1;
        }
        let r = VecMap { entries };
        proof {
            assert(r.entries@ =~= self.entries@);
        }
        r
    }
}

impl<K: ViewKey, V> VecMap<K, V> {
    /// Keys are pairwise distinct.
    pub closed spec fn wf(self) -> bool {
        distinct_keys(self.entries@)
    }

    /// The mathematical map this value denotes.
    pub closed spec fn as_map(self) -> Map<<K as View>::V, V> {
        entries_map(self.entries@)
    }

    /// The entry sequence, for iteration order.
    pub closed spec fn entries_seq(self) -> Seq<(K, V)> {
        self.entries@
    }

    /// The entry sequence denotes the map, and well-formed maps have
    /// pairwise-distinct keys.
    pub proof fn lemma_seq_map(self)
        ensures
            self.as_map() == entries_map(self.entries_seq()),
            self.wf() == distinct_keys(self.entries_seq()),
    {
    }

    /// Empty map.
    pub fn new() -> (r: Self)
        ensures
            r.wf(),
            r.as_map() =~= Map::<<K as View>::V, V>::empty(),
            r.entries_seq() =~= Seq::<(K, V)>::empty(),
    {
        VecMap { entries: Vec::new() }
    }

    /// Number of entries.
    pub fn len(&self) -> (n: usize)
        ensures
            n == self.entries_seq().len(),
    {
        self.entries.len()
    }

    /// True when the map holds nothing.
    pub fn is_empty(&self) -> (r: bool)
        requires
            self.wf(),
        ensures
            r <==> self.as_map() =~= Map::<<K as View>::V, V>::empty(),
            r <==> self.entries_seq().len() == 0,
    {
        proof {
            lemma_entries_map_dom(self.entries@);
            if self.entries@.len() > 0 {
                assert(self.as_map().dom().contains(self.entries@[0].0@));
            }
        }
        self.entries.len() == 0
    }

    /// The entry at one position.
    pub fn entry_at(&self, i: usize) -> (r: (&K, &V))
        requires
            i < self.entries_seq().len(),
        ensures
            *r.0 == self.entries_seq()[i as int].0,
            *r.1 == self.entries_seq()[i as int].1,
    {
        let entry = &self.entries[i];
        (&entry.0, &entry.1)
    }

    /// Position of the entry with the given key, if any.
    fn position_of(&self, key: &K) -> (r: Option<usize>)
        ensures
            match r {
                Some(i) => i < self.entries@.len() && self.entries@[i as int].0@ == key@,
                None => forall|i: int|
                    0 <= i < self.entries@.len() ==> self.entries@[i].0@ != key@,
            },
    {
        let n = self.entries.len();
        let mut i: usize = 0;
        while i < n
            invariant
                0 <= i <= n,
                n == self.entries@.len(),
                forall|j: int| 0 <= j < i ==> self.entries@[j].0@ != key@,
            decreases n - i,
        {
            if self.entries[i].0.key_eq(key) {
                proof {
                    assert(self.entries@[i as int].0@ == key@);
                }
                return Some(i);
            }
            i += 1;
        }
        None
    }

    /// The value under the given key, if present.
    pub fn get(&self, key: &K) -> (r: Option<&V>)
        requires
            self.wf(),
        ensures
            match r {
                Some(v) => self.as_map().dom().contains(key@) && *v == self.as_map()[key@],
                None => !self.as_map().dom().contains(key@),
            },
    {
        proof {
            lemma_entries_map_dom(self.entries@);
        }
        match self.position_of(key) {
            Some(i) => {
                proof {
                    lemma_entries_map_index(self.entries@, i as int);
                    assert(self.as_map()[key@] == self.entries@[i as int].1);
                }
                Some(&self.entries[i].1)
            },
            None => None,
        }
    }

    /// True when the key is present.
    pub fn contains_key(&self, key: &K) -> (r: bool)
        requires
            self.wf(),
        ensures
            r == self.as_map().dom().contains(key@),
    {
        self.get(key).is_some()
    }

    /// Binds the key to the value, replacing any earlier binding.
    pub fn insert(&mut self, key: K, value: V)
        requires
            old(self).wf(),
        ensures
            final(self).wf(),
            final(self).as_map() =~= old(self).as_map().insert(key@, value),
    {
        proof {
            lemma_entries_map_dom(self.entries@);
        }
        match self.position_of(&key) {
            Some(i) => {
                proof {
                    lemma_entries_map_update(self.entries@, i as int, (key, value));
                }
                self.entries[i] = (key, value);
                proof {
                    assert(self.entries@ =~= old(self).entries@.update(i as int, (key, value)));
                    assert(distinct_keys(self.entries@)) by {
                        assert(forall|j: int|
                            0 <= j < self.entries@.len() ==> self.entries@[j].0@ == old(
                                self,
                            ).entries@[j].0@);
                    }
                }
            },
            None => {
                self.entries.push((key, value));
                proof {
                    assert(self.entries@.drop_last() =~= old(self).entries@);
                    let n = self.entries@.len() as int;
                    assert forall|a: int, b: int|
                        0 <= a < b < n implies self.entries@[a].0@ != self.entries@[b].0@ by {
                        if b == n - 1 {
                            assert(self.entries@[a] == old(self).entries@[a]);
                            assert(self.entries@[b].0@ == key@);
                        } else {
                            assert(self.entries@[a] == old(self).entries@[a]);
                            assert(self.entries@[b] == old(self).entries@[b]);
                        }
                    }
                }
            },
        }
    }

    /// Replaces the value at one position, keeping its key.
    pub fn set_value_at(&mut self, i: usize, value: V)
        requires
            old(self).wf(),
            i < old(self).entries_seq().len(),
        ensures
            final(self).wf(),
            final(self).entries_seq() =~= old(self).entries_seq().update(
                i as int,
                (old(self).entries_seq()[i as int].0, value),
            ),
            final(self).as_map() =~= old(self).as_map().insert(
                old(self).entries_seq()[i as int].0@,
                value,
            ),
    {
        proof {
            lemma_entries_map_update(
                self.entries@,
                i as int,
                (self.entries@[i as int].0, value),
            );
        }
        let kv = self.entries.remove(i);
        self.entries.insert(i, (kv.0, value));
        proof {
            assert(self.entries@ =~= old(self).entries@.update(
                i as int,
                (old(self).entries@[i as int].0, value),
            ));
            assert(distinct_keys(self.entries@)) by {
                assert(forall|j: int|
                    0 <= j < self.entries@.len() ==> self.entries@[j].0@ == old(
                        self,
                    ).entries@[j].0@);
            }
        }
    }

    /// Drops the binding under the given key, if any.
    pub fn remove(&mut self, key: &K)
        requires
            old(self).wf(),
        ensures
            final(self).wf(),
            final(self).as_map() =~= old(self).as_map().remove(key@),
    {
        proof {
            lemma_entries_map_dom(self.entries@);
        }
        match self.position_of(key) {
            Some(i) => {
                proof {
                    lemma_entries_map_remove_at(self.entries@, i as int);
                }
                self.entries.remove(i);
                proof {
                    assert(self.entries@ =~= old(self).entries@.remove(i as int));
                    assert(distinct_keys(self.entries@)) by {
                        assert(forall|a: int|
                            0 <= a < self.entries@.len() ==> (self.entries@[a] == old(
                                self,
                            ).entries@[if a < i as int {
                                a
                            } else {
                                a + 1
                            }]));
                    }
                }
            },
            None => {
                proof {
                    lemma_entries_map_dom(self.entries@);
                    assert(forall|i: int|
                        0 <= i < self.entries@.len() ==> self.entries@[i].0@ != key@);
                    assert(!self.as_map().dom().contains(key@));
                    assert(self.as_map().remove(key@) =~= self.as_map());
                }
            },
        }
    }
}

} // verus!
