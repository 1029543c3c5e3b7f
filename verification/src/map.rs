//! A map kept as a list of entries in order of insertion.
use vstd::prelude::*;

use crate::base::Key;

verus! {

/// No key occurs twice.
pub open spec fn distinct_keys<K, V>(entries: Seq<(K, V)>) -> bool {
    forall|i: int, j: int| 0 <= i < j < entries.len() ==> entries[i].0 != entries[j].0
}

/// Some entry has the key.
pub open spec fn has_key<K, V>(entries: Seq<(K, V)>, key: K) -> bool {
    exists|i: int| 0 <= i < entries.len() && entries[i].0 == key
}

/// The map that a list of entries with distinct keys stands for.
pub open spec fn entries_map<K, V>(entries: Seq<(K, V)>) -> Map<K, V>
    decreases entries.len(),
{
    if entries.len() == 0 {
        Map::empty()
    } else {
        entries_map(entries.drop_last()).insert(entries.last().0, entries.last().1)
    }
}

/// The map of a list holds exactly the keys that occur in the list, each with the
/// value that stands beside it.
pub proof fn lemma_entries<K, V>(entries: Seq<(K, V)>)
    ensures
        forall|k: K|
            #![trigger entries_map(entries).dom().contains(k)]
            entries_map(entries).dom().contains(k) <==> has_key(entries, k),
        distinct_keys(entries) ==> forall|i: int|
            0 <= i < entries.len() ==> entries_map(entries).dom().contains(
                (#[trigger] entries[i]).0,
            ) && entries_map(entries)[entries[i].0] == entries[i].1,
    decreases entries.len(),
{
    if entries.len() > 0 {
        let init = entries.drop_last();
        lemma_entries(init);
        assert forall|k: K| #[trigger]
            entries_map(entries).dom().contains(k) <==> has_key(entries, k) by {
            if entries_map(entries).dom().contains(k) {
                if k == entries.last().0 {
                    assert(entries[entries.len() - 1].0 == k);
                } else {
                    assert(entries_map(init).dom().contains(k));
                    let i = choose|i: int| 0 <= i < init.len() && init[i].0 == k;
                    assert(entries[i].0 == k);
                }
            }
            if has_key(entries, k) {
                let i = choose|i: int| 0 <= i < entries.len() && entries[i].0 == k;
                if i < entries.len() - 1 {
                    assert(init[i].0 == k);
                    assert(entries_map(init).dom().contains(k));
                }
            }
        }
        if distinct_keys(entries) {
            assert(distinct_keys(init)) by {
                assert forall|i: int, j: int| 0 <= i < j < init.len() implies init[i].0
                    != init[j].0 by {
                    assert(entries[i].0 != entries[j].0);
                }
            }
            assert forall|i: int| 0 <= i < entries.len() implies entries_map(entries).dom().contains(
                (#[trigger] entries[i]).0,
            ) && entries_map(entries)[entries[i].0] == entries[i].1 by {
                if i < entries.len() - 1 {
                    assert(init[i] == entries[i]);
                    assert(entries[i].0 != entries[entries.len() - 1].0);
                }
            }
        }
    }
}

/// Values of which an identical one can be made.
pub trait Dup: Sized {
    fn dup(&self) -> (r: Self)
        ensures
            r == *self,
    ;
}

/// A map from keys to values.
#[derive(Debug, PartialEq, Eq)]
pub struct VecMap<K: Key, V> {
    entries: Vec<(K, V)>,
}

impl<K: Key, V> View for VecMap<K, V> {
    type V = Map<K, V>;

    closed spec fn view(&self) -> Map<K, V> {
        entries_map(self.entries@)
    }
}

impl<K: Key, V> VecMap<K, V> {
    #[verifier::type_invariant]
    closed spec fn inv(&self) -> bool {
        distinct_keys(self.entries@)
    }

    /// The entries, oldest first.
    pub closed spec fn listed(&self) -> Seq<(K, V)> {
        self.entries@
    }

    pub fn new() -> (r: Self)
        ensures
            r@ == Map::<K, V>::empty(),
            r.listed() == Seq::<(K, V)>::empty(),
    {
        VecMap { entries: Vec::new() }
    }

    /// The map with the entries listed; gives nothing where a key is repeated.
    pub fn of(entries: Vec<(K, V)>) -> (r: Option<Self>)
        ensures
            match r {
                Some(m) => {
                    &&& distinct_keys(entries@)
                    &&& m.listed() == entries@
                    &&& m@ == entries_map(entries@)
                },
                None => !distinct_keys(entries@),
            },
    {
        let mut i: usize = 0;
        while i < entries.len()
            invariant
                i <= entries.len(),
                forall|a: int, b: int| 0 <= a < b < i ==> entries@[a].0 != entries@[b].0,
            decreases entries.len() - i,
        {
            let mut j: usize = 0;
            while j < i
                invariant
                    j <= i < entries.len(),
                    forall|a: int| 0 <= a < j ==> entries@[a].0 != entries@[i as int].0,
                decreases i - j,
            {
                if entries[j].0.same(&entries[i].0) {
                    assert(entries@[j as int].0 == entries@[i as int].0);
                    return None;
                }
                j = j + 1;
            }
            i = i + 1;
        }
        Some(VecMap { entries })
    }

    /// The list of entries names every key once and spells out the map.
    pub fn entries(&self) -> (r: &Vec<(K, V)>)
        ensures
            r@ == self.listed(),
            distinct_keys(r@),
            self@ == entries_map(r@),
    {
        proof {
            use_type_invariant(self);
        }
        &self.entries
    }

    /// Makes another map with the same entries.
    pub fn dup(&self) -> (r: Self) where V: Dup
        ensures
            r@ == self@,
            r.listed() == self.listed(),
    {
        proof {
            use_type_invariant(self);
        }
        let mut entries: Vec<(K, V)> = Vec::new();
        let mut i: usize = 0;
        while i < self.entries.len()
            invariant
                i <= self.entries.len(),
                entries@ == self.entries@.take(i as int),
            decreases self.entries.len() - i,
        {
            entries.push((self.entries[i].0, self.entries[i].1.dup()));
            i = i + 1;
            assert(entries@ =~= self.entries@.take(i as int));
        }
        assert(entries@ =~= self.entries@);
        VecMap { entries }
    }

    fn find(&self, key: &K) -> (r: Option<usize>)
        ensures
            match r {
                Some(i) => i < self.entries.len() && self.entries@[i as int].0 == *key,
                None => !has_key(self.entries@, *key),
            },
    {
        let mut i: usize = 0;
        while i < self.entries.len()
            invariant
                i <= self.entries.len(),
                forall|j: int| 0 <= j < i ==> self.entries@[j].0 != *key,
            decreases self.entries.len() - i,
        {
            if self.entries[i].0.same(key) {
                return Some(i);
            }
            i = i + 1;
        }
        None
    }

    pub fn contains_key(&self, key: &K) -> (r: bool)
        ensures
            r == self@.dom().contains(*key),
    {
        proof {
            use_type_invariant(self);
            lemma_entries(self.entries@);
        }
        match self.find(key) {
            Some(i) => {
                assert(self.entries@[i as int].0 == *key);
                true
            },
            None => false,
        }
    }

    pub fn get(&self, key: &K) -> (r: Option<&V>)
        ensures
            match r {
                Some(v) => self@.dom().contains(*key) && self@[*key] == *v,
                None => !self@.dom().contains(*key),
            },
    {
        proof {
            use_type_invariant(self);
            lemma_entries(self.entries@);
        }
        match self.find(key) {
            Some(i) => {
                assert(self.entries@[i as int].0 == *key);
                Some(&self.entries[i].1)
            },
            None => None,
        }
    }

    /// Takes the entry out, if there is one.
    pub fn remove(&mut self, key: &K) -> (r: Option<V>)
        ensures
            final(self)@ == old(self)@.remove(*key),
            match r {
                Some(v) => old(self)@.dom().contains(*key) && old(self)@[*key] == v,
                None => !old(self)@.dom().contains(*key),
            },
    {
        proof {
            use_type_invariant(&*self);
            lemma_entries(self.entries@);
        }
        let found = self.find(key);
        let ghost before = self.entries@;
        let mut entries: Vec<(K, V)> = Vec::new();
        std::mem::swap(&mut entries, &mut self.entries);
        let r = match found {
            Some(i) => {
                assert(before[i as int].0 == *key);
                let (_, v) = entries.remove(i);
                let ghost after = entries@;
                assert(after =~= before.remove(i as int));
                proof {
                    lemma_removed(before, i as int);
                }
                Some(v)
            },
            None => None,
        };
        proof {
            lemma_entries(entries@);
            assert(entries_map(entries@) =~= entries_map(before).remove(*key));
        }
        self.entries = entries;
        r
    }

    /// Puts the value under the key and gives back the one that was there.
    pub fn insert(&mut self, key: K, value: V) -> (r: Option<V>)
        ensures
            final(self)@ == old(self)@.insert(key, value),
            match r {
                Some(v) => old(self)@.dom().contains(key) && old(self)@[key] == v,
                None => !old(self)@.dom().contains(key),
            },
    {
        let ghost start = self@;
        let r = self.remove(&key);
        proof {
            use_type_invariant(&*self);
            lemma_entries(self.entries@);
        }
        let ghost before = self.entries@;
        let mut entries: Vec<(K, V)> = Vec::new();
        std::mem::swap(&mut entries, &mut self.entries);
        assert(!entries_map(before).dom().contains(key));
        assert(!has_key(before, key));
        entries.push((key, value));
        proof {
            assert(entries@.drop_last() =~= before);
            assert(distinct_keys(entries@)) by {
                assert forall|i: int, j: int| 0 <= i < j < entries@.len() implies entries@[i].0
                    != entries@[j].0 by {
                    if j == before.len() {
                        assert(before[i].0 != key);
                    }
                }
            }
            assert(entries_map(entries@) =~= start.insert(key, value));
        }
        self.entries = entries;
        r
    }
}

proof fn lemma_removed<K, V>(entries: Seq<(K, V)>, i: int)
    requires
        distinct_keys(entries),
        0 <= i < entries.len(),
    ensures
        distinct_keys(entries.remove(i)),
        entries_map(entries.remove(i)) == entries_map(entries).remove(entries[i].0),
{
    let rest = entries.remove(i);
    assert forall|a: int, b: int| 0 <= a < b < rest.len() implies rest[a].0 != rest[b].0 by {
        let a2 = if a < i { a } else { a + 1 };
        let b2 = if b < i { b } else { b + 1 };
        assert(entries[a2].0 != entries[b2].0);
    }
    lemma_entries(entries);
    lemma_entries(rest);
    let m = entries_map(entries).remove(entries[i].0);
    assert forall|k: K| #[trigger] entries_map(rest).dom().contains(k) <==> m.dom().contains(k) by {
        if entries_map(rest).dom().contains(k) {
            let a = choose|a: int| 0 <= a < rest.len() && rest[a].0 == k;
            let a2 = if a < i { a } else { a + 1 };
            assert(entries[a2].0 == k);
            assert(entries_map(entries).dom().contains(k));
            if a2 < i {
                assert(entries[a2].0 != entries[i].0);
            } else {
                assert(entries[i].0 != entries[a2].0);
            }
        }
        if m.dom().contains(k) {
            let a = choose|a: int| 0 <= a < entries.len() && entries[a].0 == k;
            assert(a != i);
            let a2 = if a < i { a } else { a - 1 };
            assert(rest[a2].0 == k);
        }
    }
    assert forall|k: K| m.dom().contains(k) implies m[k] == entries_map(rest)[k] by {
        let a = choose|a: int| 0 <= a < entries.len() && entries[a].0 == k;
        let a2 = if a < i { a } else { a - 1 };
        assert(rest[a2] == entries[a]);
    }
    assert(entries_map(rest) =~= m);
}

} // verus!
