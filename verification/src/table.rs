//! A finite map kept as a list of entries with distinct keys.

use vstd::prelude::*;

use crate::values::{Address, Text};

verus! {

/// A key that can be compared with another one.
pub trait Key: DeepView + Sized {
    /// Whether both keys denote the same value.
    fn same(&self, other: &Self) -> (r: bool)
        ensures
            r == (self.deep_view() == other.deep_view()),
    ;
}

impl Key for Address {
    fn same(&self, other: &Self) -> (r: bool) {
        *self == *other
    }
}

impl Key for Text {
    fn same(&self, other: &Self) -> (r: bool) {
        self.equals(other)
    }
}

impl Key for u32 {
    fn same(&self, other: &Self) -> (r: bool) {
        *self == *other
    }
}

impl Key for (Text, Address) {
    fn same(&self, other: &Self) -> (r: bool) {
        self.0.equals(&other.0) && self.1 == other.1
    }
}

/// A map from keys to values. Its abstract value is the map of the keys' values to the values'
/// values.
#[derive(Debug)]
pub struct Table<K: Key, V: DeepView> {
    entries: Vec<(K, V)>,
}

impl<K: Key, V: DeepView> Table<K, V> {
    #[verifier::type_invariant]
    spec fn distinct_keys(self) -> bool {
        distinct(self.entries@)
    }

    /// The entries in the order in which their keys were first set.
    pub closed spec fn pairs(self) -> Seq<(K::V, V::V)> {
        self.entries.deep_view()
    }
}

spec fn distinct<K: Key, V: DeepView>(entries: Seq<(K, V)>) -> bool {
    forall|i: int, j: int|
        #![trigger entries[i], entries[j]]
        0 <= i < j < entries.len() ==> entries[i].0.deep_view() != entries[j].0.deep_view()
}

/// Whether `pairs` has an entry for `key`.
pub open spec fn has_key<A, B>(pairs: Seq<(A, B)>, key: A) -> bool {
    exists|i: int| 0 <= i < pairs.len() && (#[trigger] pairs[i]).0 == key
}

/// Whether no key has two entries in `pairs`.
pub open spec fn keys_distinct<A, B>(pairs: Seq<(A, B)>) -> bool {
    forall|i: int, j: int|
        #![trigger pairs[i], pairs[j]]
        0 <= i < j < pairs.len() ==> pairs[i].0 != pairs[j].0
}

/// The map that `pairs` lists.
pub open spec fn listed<A, B>(pairs: Seq<(A, B)>) -> Map<A, B> {
    Map::new(
        |key: A| has_key(pairs, key),
        |key: A| pairs[choose|i: int| 0 <= i < pairs.len() && (#[trigger] pairs[i]).0 == key].1,
    )
}

impl<K: Key, V: DeepView> DeepView for Table<K, V> {
    type V = Map<K::V, V::V>;

    open spec fn deep_view(&self) -> Map<K::V, V::V> {
        listed(self.pairs())
    }
}

impl<K: Key, V: DeepView> View for Table<K, V> {
    type V = Map<K::V, V::V>;

    open spec fn view(&self) -> Map<K::V, V::V> {
        listed(self.pairs())
    }
}

impl<K: Key, V: DeepView> Table<K, V> {
    /// The empty table.
    pub fn new() -> (r: Self)
        ensures
            r@ == Map::<K::V, V::V>::empty(),
            r.pairs() == Seq::<(K::V, V::V)>::empty(),
    {
        let r = Table { entries: Vec::new() };
        assert(r.pairs() =~= Seq::empty());
        assert(r@ =~= Map::empty());
        r
    }

    /// The number of entries.
    pub fn len(&self) -> (r: usize)
        ensures
            r == self.pairs().len(),
            r == self@.len(),
            self@.dom().finite(),
            keys_distinct(self.pairs()),
    {
        proof {
            use_type_invariant(self);
            lemma_size(self.entries@);
            assert(self.pairs() =~= deep(self.entries@));
            assert forall|i: int, j: int|
                #![trigger self.pairs()[i], self.pairs()[j]]
                0 <= i < j < self.pairs().len() implies self.pairs()[i].0 != self.pairs()[j].0 by {
                assert(self.entries@[i].0.deep_view() != self.entries@[j].0.deep_view());
            }
        }
        self.entries.len()
    }

    /// The position of `key`, if it has an entry.
    fn position(&self, key: &K) -> (r: Option<usize>)
        ensures
            match r {
                Some(i) => i < self.entries@.len() && self.entries@[i as int].0.deep_view()
                    == key.deep_view(),
                None => forall|i: int|
                    0 <= i < self.entries@.len() ==> (#[trigger] self.entries@[i]).0.deep_view()
                        != key.deep_view(),
            },
    {
        let mut i: usize = 0;
        while i < self.entries.len()
            invariant
                i <= self.entries@.len(),
                forall|j: int|
                    0 <= j < i ==> (#[trigger] self.entries@[j]).0.deep_view() != key.deep_view(),
            decreases self.entries@.len() - i,
        {
            if self.entries[i].0.same(key) {
                return Some(i);
            }
            i = i + 1;
        }
        None
    }

    /// The value under `key`, if there is one.
    pub fn get(&self, key: &K) -> (r: Option<&V>)
        ensures
            match r {
                Some(v) => self@.contains_key(key.deep_view()) && v.deep_view()
                    == self@[key.deep_view()],
                None => !self@.contains_key(key.deep_view()),
            },
    {
        proof {
            use_type_invariant(self);
        }
        match self.position(key) {
            Some(i) => {
                proof {
                    lemma_entry(self.entries@, self.pairs(), i as int);
                }
                Some(&self.entries[i].1)
            },
            None => {
                assert(forall|i: int|
                    0 <= i < self.pairs().len() ==> (#[trigger] self.pairs()[i]).0
                        == self.entries@[i].0.deep_view());
                None
            },
        }
    }

    /// Whether `key` has an entry.
    pub fn contains(&self, key: &K) -> (r: bool)
        ensures
            r == self@.contains_key(key.deep_view()),
    {
        match self.get(key) {
            Some(_) => true,
            None => false,
        }
    }

    /// The entry at position `i`.
    pub fn at(&self, i: usize) -> (r: (&K, &V))
        requires
            i < self.pairs().len(),
        ensures
            (r.0.deep_view(), r.1.deep_view()) == self.pairs()[i as int],
            self@.contains_key(r.0.deep_view()),
            self@[r.0.deep_view()] == r.1.deep_view(),
    {
        proof {
            use_type_invariant(self);
            lemma_entry(self.entries@, self.pairs(), i as int);
        }
        let entry = &self.entries[i];
        (&entry.0, &entry.1)
    }

    /// Puts `value` under `key`, in place of what was there.
    pub fn set(&mut self, key: K, value: V)
        ensures
            final(self)@ == old(self)@.insert(key.deep_view(), value.deep_view()),
    {
        proof {
            use_type_invariant(&*self);
        }
        let ghost before = self.entries@;
        let found: Option<usize> = self.position(&key);
        let mut entries: Vec<(K, V)> = Vec::new();
        std::mem::swap(&mut entries, &mut self.entries);
        match found {
            Some(i) => {
                entries.set(i, (key, value));
                proof {
                    lemma_replaced(before, entries@, i as int);
                }
            },
            None => {
                entries.push((key, value));
                proof {
                    assert(entries@.drop_last() =~= before);
                    lemma_pushed(before, entries@);
                }
            },
        }
        self.entries = entries;
    }

    /// Takes out the entry under `key`, if there is one.
    pub fn remove(&mut self, key: &K)
        ensures
            final(self)@ == old(self)@.remove(key.deep_view()),
    {
        proof {
            use_type_invariant(&*self);
        }
        let ghost before = self.entries@;
        let found: Option<usize> = self.position(key);
        let mut entries: Vec<(K, V)> = Vec::new();
        std::mem::swap(&mut entries, &mut self.entries);
        match found {
            Some(i) => {
                let _ = entries.remove(i);
                proof {
                    lemma_removed(before, entries@, i as int);
                }
            },
            None => {
                proof {
                    lemma_absent(before, key.deep_view());
                }
            },
        }
        self.entries = entries;
    }
}

/// The deep values of a list of entries.
spec fn deep<K: Key, V: DeepView>(entries: Seq<(K, V)>) -> Seq<(K::V, V::V)> {
    Seq::new(entries.len(), |i: int| entries[i].deep_view())
}

proof fn lemma_entry<K: Key, V: DeepView>(
    entries: Seq<(K, V)>,
    pairs: Seq<(K::V, V::V)>,
    i: int,
)
    requires
        distinct(entries),
        pairs == deep(entries),
        0 <= i < entries.len(),
    ensures
        listed(pairs).contains_key(entries[i].0.deep_view()),
        listed(pairs)[entries[i].0.deep_view()] == entries[i].1.deep_view(),
{
    let k = entries[i].0.deep_view();
    assert(pairs[i].0 == k);
    let c = choose|c: int| 0 <= c < pairs.len() && (#[trigger] pairs[c]).0 == k;
    assert(pairs[c].0 == entries[c].0.deep_view());
    assert(c == i) by {
        if c < i {
            assert(entries[c].0.deep_view() != entries[i].0.deep_view());
        } else if i < c {
            assert(entries[i].0.deep_view() != entries[c].0.deep_view());
        }
    }
}

proof fn lemma_absent<K: Key, V: DeepView>(entries: Seq<(K, V)>, key: K::V)
    requires
        forall|i: int| 0 <= i < entries.len() ==> (#[trigger] entries[i]).0.deep_view() != key,
    ensures
        !listed(deep(entries)).contains_key(key),
        listed(deep(entries)).remove(key) == listed(deep(entries)),
{
    let pairs = deep(entries);
    assert(forall|i: int|
        0 <= i < pairs.len() ==> (#[trigger] pairs[i]).0 == entries[i].0.deep_view());
    assert(listed(pairs).remove(key) =~= listed(pairs));
}

proof fn lemma_replaced<K: Key, V: DeepView>(before: Seq<(K, V)>, after: Seq<(K, V)>, i: int)
    requires
        distinct(before),
        0 <= i < before.len(),
        after == before.update(i, after[i]),
        after[i].0.deep_view() == before[i].0.deep_view(),
    ensures
        distinct(after),
        listed(deep(after)) == listed(deep(before)).insert(
            after[i].0.deep_view(),
            after[i].1.deep_view(),
        ),
{
    let k = after[i].0.deep_view();
    assert(distinct(after)) by {
        assert forall|a: int, b: int|
            #![trigger after[a], after[b]]
            0 <= a < b < after.len() implies after[a].0.deep_view() != after[b].0.deep_view() by {
            assert(before[a].0.deep_view() != before[b].0.deep_view());
        }
    }
    let left = listed(deep(after));
    let right = listed(deep(before)).insert(k, after[i].1.deep_view());
    assert forall|q: K::V|
        #![trigger left.dom().contains(q)]
        #![trigger right.dom().contains(q)]
        #![trigger left[q]]
        left.dom().contains(q) == right.dom().contains(q) && (left.dom().contains(q) ==> left[q]
            == right[q]) by {
        if left.contains_key(q) {
            let c = choose|c: int|
                0 <= c < deep(after).len() && (#[trigger] deep(after)[c]).0 == q;
            lemma_entry(after, deep(after), c);
            lemma_entry(before, deep(before), c);
        }
        if right.contains_key(q) && q != k {
            let c = choose|c: int|
                0 <= c < deep(before).len() && (#[trigger] deep(before)[c]).0 == q;
            assert(c != i);
            lemma_entry(after, deep(after), c);
            lemma_entry(before, deep(before), c);
        }
        if q == k {
            lemma_entry(after, deep(after), i);
        }
    }
    assert(left =~= right);
}

proof fn lemma_pushed<K: Key, V: DeepView>(before: Seq<(K, V)>, after: Seq<(K, V)>)
    requires
        distinct(before),
        after.len() == before.len() + 1,
        after.drop_last() == before,
        forall|i: int|
            0 <= i < before.len() ==> (#[trigger] before[i]).0.deep_view()
                != after.last().0.deep_view(),
    ensures
        distinct(after),
        listed(deep(after)) == listed(deep(before)).insert(
            after.last().0.deep_view(),
            after.last().1.deep_view(),
        ),
{
    let n = before.len() as int;
    let k = after[n].0.deep_view();
    assert(forall|j: int| 0 <= j < n ==> #[trigger] after[j] == before[j]) by {
        assert forall|j: int| 0 <= j < n implies #[trigger] after[j] == before[j] by {
            assert(after.drop_last()[j] == after[j]);
        }
    }
    assert(distinct(after)) by {
        assert forall|a: int, b: int|
            #![trigger after[a], after[b]]
            0 <= a < b < after.len() implies after[a].0.deep_view() != after[b].0.deep_view() by {
            assert(after[a] == before[a]);
            if b < n {
                assert(before[a].0.deep_view() != before[b].0.deep_view());
            }
        }
    }
    let left = listed(deep(after));
    let right = listed(deep(before)).insert(k, after[n].1.deep_view());
    assert forall|q: K::V|
        #![trigger left.dom().contains(q)]
        #![trigger right.dom().contains(q)]
        #![trigger left[q]]
        left.dom().contains(q) == right.dom().contains(q) && (left.dom().contains(q) ==> left[q]
            == right[q]) by {
        if left.contains_key(q) {
            let c = choose|c: int|
                0 <= c < deep(after).len() && (#[trigger] deep(after)[c]).0 == q;
            lemma_entry(after, deep(after), c);
            if c < n {
                lemma_entry(before, deep(before), c);
            }
        }
        if right.contains_key(q) && q != k {
            let c = choose|c: int|
                0 <= c < deep(before).len() && (#[trigger] deep(before)[c]).0 == q;
            lemma_entry(after, deep(after), c);
            lemma_entry(before, deep(before), c);
        }
        if q == k {
            lemma_entry(after, deep(after), n);
        }
    }
    assert(left =~= right);
}

proof fn lemma_size<K: Key, V: DeepView>(entries: Seq<(K, V)>)
    requires
        distinct(entries),
    ensures
        listed(deep(entries)).dom().finite(),
        listed(deep(entries)).len() == entries.len(),
    decreases entries.len(),
{
    if entries.len() == 0 {
        assert(listed(deep(entries)).dom() =~= Set::empty());
    } else {
        let rest = entries.drop_last();
        assert(distinct(rest)) by {
            assert forall|a: int, b: int|
                #![trigger rest[a], rest[b]]
                0 <= a < b < rest.len() implies rest[a].0.deep_view() != rest[b].0.deep_view() by {
                assert(entries[a].0.deep_view() != entries[b].0.deep_view());
            }
        }
        assert forall|i: int| 0 <= i < rest.len() implies (#[trigger] rest[i]).0.deep_view()
            != entries.last().0.deep_view() by {
            assert(entries[i].0.deep_view() != entries[entries.len() - 1].0.deep_view());
        }
        lemma_size(rest);
        lemma_pushed(rest, entries);
        lemma_absent(rest, entries.last().0.deep_view());
    }
}

proof fn lemma_removed<K: Key, V: DeepView>(before: Seq<(K, V)>, after: Seq<(K, V)>, i: int)
    requires
        distinct(before),
        0 <= i < before.len(),
        after == before.remove(i),
    ensures
        distinct(after),
        listed(deep(after)) == listed(deep(before)).remove(before[i].0.deep_view()),
{
    let k = before[i].0.deep_view();
    assert(distinct(after)) by {
        assert forall|a: int, b: int|
            #![trigger after[a], after[b]]
            0 <= a < b < after.len() implies after[a].0.deep_view() != after[b].0.deep_view() by {
            let a0 = if a < i { a } else { a + 1 };
            let b0 = if b < i { b } else { b + 1 };
            assert(before[a0].0.deep_view() != before[b0].0.deep_view());
        }
    }
    let left = listed(deep(after));
    let right = listed(deep(before)).remove(k);
    assert forall|q: K::V|
        #![trigger left.dom().contains(q)]
        #![trigger right.dom().contains(q)]
        #![trigger left[q]]
        left.dom().contains(q) == right.dom().contains(q) && (left.dom().contains(q) ==> left[q]
            == right[q]) by {
        if left.contains_key(q) {
            let c = choose|c: int|
                0 <= c < deep(after).len() && (#[trigger] deep(after)[c]).0 == q;
            let c0 = if c < i { c } else { c + 1 };
            assert(after[c] == before[c0]);
            lemma_entry(after, deep(after), c);
            lemma_entry(before, deep(before), c0);
            assert(before[c0].0.deep_view() != k);
        }
        if right.contains_key(q) {
            let c0 = choose|c: int|
                0 <= c < deep(before).len() && (#[trigger] deep(before)[c]).0 == q;
            assert(c0 != i);
            let c = if c0 < i { c0 } else { c0 - 1 };
            assert(after[c] == before[c0]);
            lemma_entry(after, deep(after), c);
            lemma_entry(before, deep(before), c0);
        }
    }
    assert(left =~= right);
}

} // verus!
