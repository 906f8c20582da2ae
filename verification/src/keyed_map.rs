//! A small association map from fixed-size byte keys to values, backed by a
//! vector of entries with pairwise-distinct keys. Its mathematical view is a
//! `Map<Seq<u8>, V>`, and every operation is specified against that view.
//!
//! Both shared mutable tables of the negotiation core are instances of it:
//! the payment ledger (identifier to in-flight record) and the believed-peer
//! set of the connectivity cache.

use vstd::prelude::*;

use crate::ids::bytes_eq;

verus! {

/// The map a sequence of entries denotes; later entries would win, but a
/// well-formed `KeyedMap` never repeats a key.
pub open spec fn map_of<const N: usize, V>(s: Seq<([u8; N], V)>) -> Map<Seq<u8>, V>
    decreases s.len(),
{
    if s.len() == 0 {
        Map::empty()
    } else {
        map_of(s.drop_last()).insert(s.last().0@, s.last().1)
    }
}

/// No key occurs twice.
pub open spec fn unique_keys<const N: usize, V>(s: Seq<([u8; N], V)>) -> bool {
    forall|i: int, j: int|
        0 <= i < j < s.len() ==> (#[trigger] s[i]).0@ != (#[trigger] s[j]).0@
}

/// A key is in the denoted map exactly when some entry holds it.
proof fn lemma_map_of_contains<const N: usize, V>(s: Seq<([u8; N], V)>, k: Seq<u8>)
    ensures
        map_of(s).contains_key(k) <==> exists|i: int| 0 <= i < s.len() && (#[trigger] s[i]).0@ == k,
    decreases s.len(),
{
    if s.len() > 0 {
        lemma_map_of_contains(s.drop_last(), k);
        if s.last().0@ == k {
            assert(s[s.len() - 1].0@ == k);
        } else if map_of(s).contains_key(k) {
            let i = choose|i: int| 0 <= i < s.drop_last().len() && (#[trigger] s.drop_last()[i]).0@ == k;
            assert(s[i].0@ == k);
        } else {
            assert forall|i: int| 0 <= i < s.len() implies (#[trigger] s[i]).0@ != k by {
                if i < s.len() - 1 {
                    assert(s.drop_last()[i].0@ != k);
                }
            }
        }
    }
}

/// Under unique keys, the entry holding a key gives the map's value at it.
proof fn lemma_map_of_get<const N: usize, V>(s: Seq<([u8; N], V)>, i: int)
    requires
        unique_keys(s),
        0 <= i < s.len(),
    ensures
        map_of(s).contains_key(s[i].0@),
        map_of(s)[s[i].0@] == s[i].1,
    decreases s.len(),
{
    if i == s.len() - 1 {
        assert(s[i] == s.last());
    } else {
        assert(unique_keys(s.drop_last())) by {
            assert(forall|p: int, q: int|
                0 <= p < q < s.drop_last().len() ==> s.drop_last()[p] == s[p] && s.drop_last()[q]
                    == s[q]);
        }
        lemma_map_of_get(s.drop_last(), i);
        assert(s.drop_last()[i] == s[i]);
        assert(s[i].0@ != s.last().0@);
    }
}

/// Under unique keys, replacing the entry at `i` by one with the same key
/// updates the map at that key alone.
proof fn lemma_map_of_update<const N: usize, V>(s: Seq<([u8; N], V)>, i: int, e: ([u8; N], V))
    requires
        unique_keys(s),
        0 <= i < s.len(),
        e.0@ == s[i].0@,
    ensures
        map_of(s.update(i, e)) =~= map_of(s).insert(e.0@, e.1),
        unique_keys(s.update(i, e)),
    decreases s.len(),
{
    let t = s.update(i, e);
    assert(unique_keys(t)) by {
        assert(forall|p: int| 0 <= p < t.len() && p != i ==> t[p] == s[p]);
    }
    if i == s.len() - 1 {
        assert(t.drop_last() =~= s.drop_last());
        assert(t.last() == e);
    } else {
        assert(unique_keys(s.drop_last())) by {
            assert(forall|p: int, q: int|
                0 <= p < q < s.drop_last().len() ==> s.drop_last()[p] == s[p] && s.drop_last()[q]
                    == s[q]);
        }
        assert(t.drop_last() =~= s.drop_last().update(i, e));
        lemma_map_of_update(s.drop_last(), i, e);
        assert(t.last() == s.last());
        assert(s.last().0@ != e.0@) by {
            assert(s[i].0@ != s[s.len() - 1].0@);
        }
    }
}

/// Under unique keys, removing the entry at `i` removes its key from the map
/// and leaves every other key unchanged.
proof fn lemma_map_of_remove<const N: usize, V>(s: Seq<([u8; N], V)>, i: int)
    requires
        unique_keys(s),
        0 <= i < s.len(),
    ensures
        map_of(s.remove(i)) =~= map_of(s).remove(s[i].0@),
        unique_keys(s.remove(i)),
    decreases s.len(),
{
    let t = s.remove(i);
    assert(unique_keys(t)) by {
        assert(forall|p: int| 0 <= p < i ==> t[p] == s[p]);
        assert(forall|p: int| i <= p < t.len() ==> t[p] == s[p + 1]);
    }
    if i == s.len() - 1 {
        assert(t =~= s.drop_last());
        assert(!map_of(s.drop_last()).contains_key(s.last().0@)) by {
            lemma_map_of_contains(s.drop_last(), s.last().0@);
            assert(forall|p: int|
                0 <= p < s.drop_last().len() ==> (#[trigger] s.drop_last()[p]) == s[p]);
            assert(forall|p: int|
                0 <= p < s.len() - 1 ==> (#[trigger] s[p]).0@ != s[s.len() - 1].0@);
        }
        assert(map_of(s.drop_last()) =~= map_of(s).remove(s.last().0@));
    } else {
        assert(unique_keys(s.drop_last())) by {
            assert(forall|p: int, q: int|
                0 <= p < q < s.drop_last().len() ==> s.drop_last()[p] == s[p] && s.drop_last()[q]
                    == s[q]);
        }
        lemma_map_of_remove(s.drop_last(), i);
        assert(t.drop_last() =~= s.drop_last().remove(i));
        assert(t.last() == s.last());
        assert(s[i].0@ != s.last().0@) by {
            assert(s[i].0@ != s[s.len() - 1].0@);
        }
    }
}

/// Under unique keys, the denoted map has exactly one element per entry.
proof fn lemma_map_of_len<const N: usize, V>(s: Seq<([u8; N], V)>)
    requires
        unique_keys(s),
    ensures
        map_of(s).dom().finite(),
        map_of(s).dom().len() == s.len(),
    decreases s.len(),
{
    if s.len() > 0 {
        assert(unique_keys(s.drop_last())) by {
            assert(forall|p: int, q: int|
                0 <= p < q < s.drop_last().len() ==> s.drop_last()[p] == s[p] && s.drop_last()[q]
                    == s[q]);
        }
        lemma_map_of_len(s.drop_last());
        assert(!map_of(s.drop_last()).contains_key(s.last().0@)) by {
            lemma_map_of_contains(s.drop_last(), s.last().0@);
            assert(forall|p: int|
                0 <= p < s.drop_last().len() ==> (#[trigger] s.drop_last()[p]) == s[p]);
            assert(forall|p: int|
                0 <= p < s.len() - 1 ==> (#[trigger] s[p]).0@ != s[s.len() - 1].0@);
        }
    }
}

/// An association map with fixed-size byte keys, no key repeated.
pub struct KeyedMap<const N: usize, V> {
    entries: Vec<([u8; N], V)>,
}

impl<const N: usize, V> View for KeyedMap<N, V> {
    type V = Map<Seq<u8>, V>;

    closed spec fn view(&self) -> Map<Seq<u8>, V> {
        map_of(self.entries@)
    }
}

impl<const N: usize, V> KeyedMap<N, V> {
    /// Keys are pairwise distinct; every operation preserves this.
    pub closed spec fn wf(&self) -> bool {
        unique_keys(self.entries@)
    }

    pub fn new() -> (r: Self)
        ensures
            r.wf(),
            r@ =~= Map::<Seq<u8>, V>::empty(),
    {
        KeyedMap { entries: Vec::new() }
    }

    /// Index of the entry holding `key`, if any.
    fn position_of(&self, key: &[u8; N]) -> (r: Option<usize>)
        ensures
            match r {
                Some(i) => i < self.entries@.len() && self.entries@[i as int].0@ == key@,
                None => forall|i: int|
                    0 <= i < self.entries@.len() ==> (#[trigger] self.entries@[i]).0@ != key@,
            },
    {
        let n = self.entries.len();
        let mut i: usize = 0;
        while i < n
            invariant
                i <= n,
                n == self.entries@.len(),
                forall|j: int| 0 <= j < i ==> (#[trigger] self.entries@[j]).0@ != key@,
            decreases n - i,
        {
            if bytes_eq(&self.entries[i].0, key) {
                return Some(i);
            }
            i += 1;
        }
        None
    }

    pub fn contains_key(&self, key: &[u8; N]) -> (r: bool)
        requires
            self.wf(),
        ensures
            r == self@.contains_key(key@),
    {
        proof {
            lemma_map_of_contains(self.entries@, key@);
        }
        self.position_of(key).is_some()
    }

    pub fn get(&self, key: &[u8; N]) -> (r: Option<&V>)
        requires
            self.wf(),
        ensures
            match r {
                Some(v) => self@.contains_key(key@) && *v == self@[key@],
                None => !self@.contains_key(key@),
            },
    {
        proof {
            lemma_map_of_contains(self.entries@, key@);
        }
        match self.position_of(key) {
            Some(i) => {
                proof {
                    lemma_map_of_get(self.entries@, i as int);
                }
                Some(&self.entries[i].1)
            },
            None => None,
        }
    }

    /// Inserts, replacing any value the key already had.
    pub fn insert(&mut self, key: [u8; N], value: V)
        requires
            old(self).wf(),
        ensures
            final(self).wf(),
            final(self)@ =~= old(self)@.insert(key@, value),
    {
        match self.position_of(&key) {
            Some(i) => {
                proof {
                    lemma_map_of_update(self.entries@, i as int, (key, value));
                }
                self.entries[i] = (key, value);
            },
            None => {
                proof {
                    let s = self.entries@;
                    let t = s.push((key, value));
                    assert(t.drop_last() =~= s);
                    assert(unique_keys(t)) by {
                        assert(forall|p: int| 0 <= p < s.len() ==> t[p] == s[p]);
                    }
                }
                self.entries.push((key, value));
            },
        }
    }

    /// Removes the key's entry and hands its value back, if it was present.
    pub fn take(&mut self, key: &[u8; N]) -> (r: Option<V>)
        requires
            old(self).wf(),
        ensures
            final(self).wf(),
            final(self)@ =~= old(self)@.remove(key@),
            match r {
                Some(v) => old(self)@.contains_key(key@) && v == old(self)@[key@],
                None => !old(self)@.contains_key(key@),
            },
    {
        proof {
            lemma_map_of_contains(self.entries@, key@);
        }
        match self.position_of(key) {
            Some(i) => {
                proof {
                    lemma_map_of_get(self.entries@, i as int);
                    lemma_map_of_remove(self.entries@, i as int);
                }
                let entry = self.entries.remove(i);
                Some(entry.1)
            },
            None => {
                proof {
                    assert(old(self)@.remove(key@) =~= old(self)@);
                }
                None
            },
        }
    }

    /// Removes the key's entry, if it is present.
    pub fn remove(&mut self, key: &[u8; N])
        requires
            old(self).wf(),
        ensures
            final(self).wf(),
            final(self)@ =~= old(self)@.remove(key@),
    {
        let _ = self.take(key);
    }

    pub fn len(&self) -> (r: usize)
        requires
            self.wf(),
        ensures
            r == self@.dom().len(),
            self@.dom().finite(),
    {
        proof {
            lemma_map_of_len(self.entries@);
        }
        self.entries.len()
    }

    pub fn is_empty(&self) -> (r: bool)
        requires
            self.wf(),
        ensures
            r == (self@.dom() =~= Set::<Seq<u8>>::empty()),
    {
        proof {
            lemma_map_of_len(self.entries@);
            if self@.dom().len() == 0 {
                self@.dom().lemma_len0_is_empty();
            }
        }
        self.entries.len() == 0
    }
}

} // verus!
