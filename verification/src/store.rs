//! A map from small keys to ledger entries.
use vstd::prelude::*;

verus! {

/// A key: a small value that can be compared.
pub trait Key: Copy {
    fn same(&self, other: &Self) -> (r: bool)
        ensures
            r == (*self == *other),
    ;
}

/// An entry: a value that can be copied without a change to what it stands for.
pub trait Record: View + Sized {
    fn dup(&self) -> (r: Self)
        ensures
            r@ == self@,
    ;
}

/// Entries by key.
pub struct Store<K, V> {
    entries: Vec<(K, V)>,
}

spec fn map_of<K, V: View>(s: Seq<(K, V)>) -> Map<K, V::V>
    decreases s.len(),
{
    if s.len() == 0 {
        Map::empty()
    } else {
        map_of(s.drop_last()).insert(s.last().0, s.last().1@)
    }
}

impl<K, V: View> View for Store<K, V> {
    type V = Map<K, V::V>;

    closed spec fn view(&self) -> Map<K, V::V> {
        map_of(self.entries@)
    }
}

/// The last entry under a key is the one that counts.
proof fn lemma_last_entry<K, V: View>(s: Seq<(K, V)>, i: int)
    requires
        0 <= i < s.len(),
        forall|j: int| i < j < s.len() ==> (#[trigger] s[j]).0 != s[i].0,
    ensures
        map_of(s).contains_key(s[i].0),
        map_of(s)[s[i].0] == s[i].1@,
    decreases s.len(),
{
    if i < s.len() - 1 {
        let t = s.drop_last();
        assert(s[s.len() - 1].0 != s[i].0);
        assert forall|j: int| i < j < t.len() implies (#[trigger] t[j]).0 != t[i].0 by {
            assert(s[j].0 != s[i].0);
        }
        lemma_last_entry(t, i);
    }
}

/// A key that no entry has is not in the map.
proof fn lemma_no_entry<K, V: View>(s: Seq<(K, V)>, k: K)
    requires
        forall|j: int| 0 <= j < s.len() ==> (#[trigger] s[j]).0 != k,
    ensures
        !map_of(s).contains_key(k),
    decreases s.len(),
{
    if s.len() > 0 {
        let t = s.drop_last();
        assert(s[s.len() - 1].0 != k);
        assert forall|j: int| 0 <= j < t.len() implies (#[trigger] t[j]).0 != k by {
            assert(s[j].0 != k);
        }
        lemma_no_entry(t, k);
    }
}

/// Taking out one entry under a key changes nothing at the other keys.
proof fn lemma_drop_entry<K, V: View>(s: Seq<(K, V)>, i: int)
    requires
        0 <= i < s.len(),
    ensures
        map_of(s.remove(i)).remove(s[i].0) == map_of(s).remove(s[i].0),
    decreases s.len(),
{
    let k = s[i].0;
    if i == s.len() - 1 {
        assert(s.remove(i) =~= s.drop_last());
        assert(map_of(s.remove(i)).remove(k) =~= map_of(s).remove(k));
    } else {
        let t = s.drop_last();
        lemma_drop_entry(t, i);
        assert(s.remove(i).drop_last() =~= t.remove(i));
        assert(s.remove(i).last() == s.last());
        assert(map_of(s.remove(i)).remove(k) =~= map_of(t.remove(i)).remove(k).insert(
            s.last().0,
            s.last().1@,
        ).remove(k));
        assert(map_of(s).remove(k) =~= map_of(t).remove(k).insert(s.last().0, s.last().1@).remove(
            k,
        ));
    }
}

impl<K: Key, V: Record> Store<K, V> {
    /// A store without entries.
    pub fn new() -> (r: Self)
        ensures
            r@ == Map::<K, V::V>::empty(),
    {
        Store { entries: Vec::new() }
    }

    /// The entry under `k`, if there is one.
    pub fn get(&self, k: K) -> (r: Option<V>)
        ensures
            r is Some <==> self@.contains_key(k),
            r matches Some(v) ==> v@ == self@[k],
    {
        let mut i: usize = self.entries.len();
        while i > 0
            invariant
                i <= self.entries.len(),
                forall|j: int| i <= j < self.entries.len() ==> (#[trigger] self.entries[j]).0 != k,
            decreases i,
        {
            i = i - 1;
            if self.entries[i].0.same(&k) {
                proof {
                    lemma_last_entry(self.entries@, i as int);
                }
                return Some(self.entries[i].1.dup());
            }
        }
        proof {
            lemma_no_entry(self.entries@, k);
        }
        None
    }

    /// Whether there is an entry under `k`.
    pub fn has(&self, k: K) -> (r: bool)
        ensures
            r == self@.contains_key(k),
    {
        self.get(k).is_some()
    }

    /// Takes out the entry under `k`, if there is one.
    pub fn remove(&mut self, k: K)
        ensures
            final(self)@ == old(self)@.remove(k),
    {
        let mut i: usize = 0;
        while i < self.entries.len()
            invariant
                i <= self.entries.len(),
                map_of(self.entries@).remove(k) == map_of(old(self).entries@).remove(k),
                forall|j: int| 0 <= j < i ==> (#[trigger] self.entries[j]).0 != k,
            decreases self.entries.len() - i,
        {
            if self.entries[i].0.same(&k) {
                proof {
                    lemma_drop_entry(self.entries@, i as int);
                }
                let ghost before = self.entries@;
                self.entries.remove(i);
                assert(self.entries@ == before.remove(i as int));
            } else {
                i = i + 1;
            }
        }
        proof {
            lemma_no_entry(self.entries@, k);
            assert(map_of(self.entries@).remove(k) =~= map_of(self.entries@));
        }
    }

    /// Puts `v` under `k`, in place of what was there.
    pub fn set(&mut self, k: K, v: V)
        ensures
            final(self)@ == old(self)@.insert(k, v@),
    {
        self.remove(k);
        let ghost before = self.entries@;
        self.entries.push((k, v));
        proof {
            assert(self.entries@.drop_last() =~= before);
            assert(self@ =~= old(self)@.insert(k, v@));
        }
    }

    /// A second store with the same contents.
    pub fn dup(&self) -> (r: Self)
        ensures
            r@ == self@,
    {
        let mut entries: Vec<(K, V)> = Vec::new();
        let mut i: usize = 0;
        while i < self.entries.len()
            invariant
                i <= self.entries.len(),
                entries.len() == i,
                map_of(entries@) == map_of(self.entries@.take(i as int)),
            decreases self.entries.len() - i,
        {
            let k = self.entries[i].0;
            let v = self.entries[i].1.dup();
            let ghost before = entries@;
            entries.push((k, v));
            proof {
                assert(entries@.drop_last() =~= before);
                assert(self.entries@.take(i + 1).drop_last() =~= self.entries@.take(i as int));
            }
            i = i + 1;
        }
        assert(self.entries@.take(i as int) =~= self.entries@);
        Store { entries }
    }
}

impl Key for u64 {
    fn same(&self, other: &Self) -> (r: bool) {
        *self == *other
    }
}

impl Record for bool {
    fn dup(&self) -> (r: Self) {
        *self
    }
}

impl Record for i128 {
    fn dup(&self) -> (r: Self) {
        *self
    }
}

impl Record for u64 {
    fn dup(&self) -> (r: Self) {
        *self
    }
}

} // verus!
