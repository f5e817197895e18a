//! A small map from string keys to plain values.
//!
//! The entries sit in a vector, one per key, so that they can be walked in a
//! fixed order and written out. Contracts speak of the store through its
//! view, a `Map` from the characters of a key to its value.

use vstd::prelude::*;
use vstd::string::*;
use crate::text::str_eq;

verus! {

/// One key with its value.
pub struct Entry<V> {
    pub key: String,
    pub value: V,
}

/// A map keyed by strings, holding each key at most once.
pub struct KeyedStore<V> {
    entries: Vec<Entry<V>>,
}

/// No key occurs twice among the entries.
pub open spec fn distinct_keys<V>(entries: Seq<Entry<V>>) -> bool {
    forall|i: int, j: int|
        0 <= i < j < entries.len() ==> (#[trigger] entries[i]).key@ != (#[trigger] entries[j]).key@
}

/// Some entry holds the key.
pub open spec fn has_key<V>(entries: Seq<Entry<V>>, key: Seq<char>) -> bool {
    exists|i: int| 0 <= i < entries.len() && (#[trigger] entries[i]).key@ == key
}

/// The position of an entry that holds the key.
pub open spec fn position_of<V>(entries: Seq<Entry<V>>, key: Seq<char>) -> int {
    choose|i: int| 0 <= i < entries.len() && (#[trigger] entries[i]).key@ == key
}

/// The map that a list of entries stands for.
pub open spec fn entries_map<V>(entries: Seq<Entry<V>>) -> Map<Seq<char>, V> {
    Map::new(
        |key: Seq<char>| has_key(entries, key),
        |key: Seq<char>| entries[position_of(entries, key)].value,
    )
}

/// With distinct keys, the entry at a position is what the map holds for
/// that entry's key.
pub proof fn lemma_entry_in_map<V>(entries: Seq<Entry<V>>, i: int)
    requires
        distinct_keys(entries),
        0 <= i < entries.len(),
    ensures
        entries_map(entries).contains_key(entries[i].key@),
        entries_map(entries)[entries[i].key@] == entries[i].value,
        position_of(entries, entries[i].key@) == i,
{
    let key = entries[i].key@;
    assert(has_key(entries, key));
    let j = position_of(entries, key);
    assert(0 <= j < entries.len() && entries[j].key@ == key);
    if j != i {
        if j < i {
            assert(entries[j].key@ != entries[i].key@);
        } else {
            assert(entries[i].key@ != entries[j].key@);
        }
    }
}

/// The map that results from storing the entries one after the other, a
/// later entry replacing an earlier one with the same key.
pub open spec fn replayed<V>(entries: Seq<Entry<V>>) -> Map<Seq<char>, V>
    decreases entries.len(),
{
    if entries.len() == 0 {
        Map::empty()
    } else {
        replayed(entries.drop_last()).insert(entries.last().key@, entries.last().value)
    }
}

/// Appending an entry with a new key stores it in the map of the entries.
pub proof fn lemma_push_new_key<V>(entries: Seq<Entry<V>>, entry: Entry<V>)
    requires
        distinct_keys(entries),
        !has_key(entries, entry.key@),
    ensures
        distinct_keys(entries.push(entry)),
        entries_map(entries.push(entry)) == entries_map(entries).insert(entry.key@, entry.value),
{
    let after = entries.push(entry);
    let last = entries.len() as int;
    assert(distinct_keys(after)) by {
        assert forall|a: int, b: int| 0 <= a < b < after.len() implies (#[trigger] after[a]).key@
            != (#[trigger] after[b]).key@ by {
            assert(after[a] == entries[a]);
            if b < last {
                assert(after[b] == entries[b]);
            }
        }
    }
    assert(entries_map(after) =~= entries_map(entries).insert(entry.key@, entry.value)) by {
        assert forall|k: Seq<char>|
            entries_map(after).contains_key(k) <==> #[trigger] entries_map(entries).insert(
                entry.key@,
                entry.value,
            ).contains_key(k) by {
            if has_key(after, k) {
                let a = position_of(after, k);
                if a < last {
                    assert(entries[a].key@ == k);
                }
            }
            if has_key(entries, k) {
                let a = position_of(entries, k);
                assert(after[a].key@ == k);
            }
            if k == entry.key@ {
                assert(after[last].key@ == k);
            }
        }
        assert forall|k: Seq<char>| #[trigger]
            entries_map(after).contains_key(k) implies entries_map(after)[k] == entries_map(
            entries,
        ).insert(entry.key@, entry.value)[k] by {
            let a = position_of(after, k);
            lemma_entry_in_map(after, a);
            if a < last {
                assert(after[a] == entries[a]);
                lemma_entry_in_map(entries, a);
            }
        }
    }
}

/// Entries with distinct keys stand for the same map whether they are read
/// as a list or stored one after the other.
pub proof fn lemma_replayed_distinct<V>(entries: Seq<Entry<V>>)
    requires
        distinct_keys(entries),
    ensures
        replayed(entries) == entries_map(entries),
    decreases entries.len(),
{
    if entries.len() == 0 {
        assert(entries_map(entries) =~= Map::<Seq<char>, V>::empty());
    } else {
        let earlier = entries.drop_last();
        let last = entries.last();
        assert(distinct_keys(earlier)) by {
            assert forall|a: int, b: int| 0 <= a < b < earlier.len() implies (
            #[trigger] earlier[a]).key@ != (#[trigger] earlier[b]).key@ by {
                assert(entries[a].key@ != entries[b].key@);
            }
        }
        assert(!has_key(earlier, last.key@)) by {
            if has_key(earlier, last.key@) {
                let a = position_of(earlier, last.key@);
                assert(entries[a].key@ != entries[entries.len() - 1].key@);
            }
        }
        lemma_replayed_distinct(earlier);
        lemma_push_new_key(earlier, last);
        assert(earlier.push(last) =~= entries);
    }
}

impl<V: Copy> View for KeyedStore<V> {
    type V = Map<Seq<char>, V>;

    closed spec fn view(&self) -> Map<Seq<char>, V> {
        entries_map(self.entries@)
    }
}

impl<V> KeyedStore<V> {
    #[verifier::type_invariant]
    spec fn keys_are_distinct(self) -> bool {
        distinct_keys(self.entries@)
    }
}

impl<V: Copy> KeyedStore<V> {
    /// An empty store.
    pub fn new() -> (store: Self)
        ensures
            store@ == Map::<Seq<char>, V>::empty(),
    {
        let store = KeyedStore { entries: Vec::new() };
        assert(store@ =~= Map::<Seq<char>, V>::empty());
        store
    }

    /// The position of the key among the entries, if it is there.
    fn find(entries: &Vec<Entry<V>>, key: &str) -> (found: Option<usize>)
        requires
            distinct_keys(entries@),
        ensures
            match found {
                Some(i) => i < entries.len() && entries@[i as int].key@ == key@,
                None => !has_key(entries@, key@),
            },
    {
        let mut i: usize = 0;
        while i < entries.len()
            invariant
                i <= entries.len(),
                forall|j: int| 0 <= j < i ==> (#[trigger] entries@[j]).key@ != key@,
            decreases entries.len() - i,
        {
            if str_eq(entries[i].key.as_str(), key) {
                return Some(i);
            }
            i = i + 1;
        }
        None
    }

    /// The value stored under the key, if any.
    pub fn get(&self, key: &str) -> (value: Option<V>)
        ensures
            value == if self@.contains_key(key@) {
                Some(self@[key@])
            } else {
                None
            },
    {
        proof {
            use_type_invariant(self);
        }
        match Self::find(&self.entries, key) {
            Some(i) => {
                proof {
                    lemma_entry_in_map(self.entries@, i as int);
                }
                Some(self.entries[i].value)
            },
            None => None,
        }
    }

    /// Whether a value is stored under the key.
    pub fn contains_key(&self, key: &str) -> (present: bool)
        ensures
            present == self@.contains_key(key@),
    {
        proof {
            use_type_invariant(self);
        }
        Self::find(&self.entries, key).is_some()
    }

    /// Stores the value under the key, replacing what was there.
    pub fn insert(&mut self, key: String, value: V)
        ensures
            final(self)@ == old(self)@.insert(key@, value),
    {
        proof {
            use_type_invariant(&*self);
        }
        let mut entries: Vec<Entry<V>> = Vec::new();
        std::mem::swap(&mut entries, &mut self.entries);
        let ghost before = entries@;
        match Self::find(&entries, key.as_str()) {
            Some(i) => {
                entries.set(i, Entry { key, value });
                proof {
                    let after = entries@;
                    assert(distinct_keys(after)) by {
                        assert forall|a: int, b: int| 0 <= a < b < after.len() implies (
                        #[trigger] after[a]).key@ != (#[trigger] after[b]).key@ by {
                            assert(after[a].key@ == before[a].key@);
                            assert(after[b].key@ == before[b].key@);
                        }
                    }
                    assert(entries_map(after) =~= entries_map(before).insert(key@, value)) by {
                        assert forall|k: Seq<char>|
                            entries_map(after).contains_key(k) <==> #[trigger] entries_map(
                                before,
                            ).insert(key@, value).contains_key(k) by {
                            if has_key(after, k) {
                                let a = position_of(after, k);
                                assert(before[a].key@ == k);
                            }
                            if has_key(before, k) {
                                let a = position_of(before, k);
                                assert(after[a].key@ == k);
                            }
                            if k == key@ {
                                assert(after[i as int].key@ == k);
                            }
                        }
                        assert forall|k: Seq<char>| #[trigger]
                            entries_map(after).contains_key(k) implies entries_map(after)[k]
                            == entries_map(before).insert(key@, value)[k] by {
                            let a = position_of(after, k);
                            lemma_entry_in_map(after, a);
                            if a != i as int {
                                lemma_entry_in_map(before, a);
                            }
                        }
                    }
                }
            },
            None => {
                proof {
                    lemma_push_new_key(before, Entry { key, value });
                }
                entries.push(Entry { key, value });
            },
        }
        self.entries = entries;
    }

    /// Removes the key and its value; a key that is absent changes nothing.
    pub fn remove(&mut self, key: &str)
        ensures
            final(self)@ == old(self)@.remove(key@),
    {
        proof {
            use_type_invariant(&*self);
        }
        let mut entries: Vec<Entry<V>> = Vec::new();
        std::mem::swap(&mut entries, &mut self.entries);
        let ghost before = entries@;
        match Self::find(&entries, key) {
            Some(i) => {
                let _ = entries.remove(i);
                proof {
                    let after = entries@;
                    assert forall|a: int| 0 <= a < after.len() implies #[trigger] after[a] == before[if a
                        < i {
                        a
                    } else {
                        a + 1
                    }] by {}
                    assert(distinct_keys(after)) by {
                        assert forall|a: int, b: int| 0 <= a < b < after.len() implies (
                        #[trigger] after[a]).key@ != (#[trigger] after[b]).key@ by {
                            let a0 = if a < i { a } else { a + 1 };
                            let b0 = if b < i { b } else { b + 1 };
                            assert(after[a] == before[a0]);
                            assert(after[b] == before[b0]);
                        }
                    }
                    assert(entries_map(after) =~= entries_map(before).remove(key@)) by {
                        assert forall|k: Seq<char>|
                            entries_map(after).contains_key(k) <==> #[trigger] entries_map(
                                before,
                            ).remove(key@).contains_key(k) by {
                            if has_key(after, k) {
                                let a = position_of(after, k);
                                let a0 = if a < i { a } else { a + 1 };
                                assert(before[a0].key@ == k);
                                lemma_entry_in_map(before, a0);
                                lemma_entry_in_map(before, i as int);
                            }
                            if has_key(before, k) && k != key@ {
                                let a0 = position_of(before, k);
                                let a = if a0 < i { a0 } else { a0 - 1 };
                                assert(after[a].key@ == k);
                            }
                        }
                        assert forall|k: Seq<char>| #[trigger]
                            entries_map(after).contains_key(k) implies entries_map(after)[k]
                            == entries_map(before).remove(key@)[k] by {
                            let a = position_of(after, k);
                            let a0 = if a < i { a } else { a + 1 };
                            lemma_entry_in_map(after, a);
                            assert(after[a] == before[a0]);
                            lemma_entry_in_map(before, a0);
                        }
                    }
                }
            },
            None => {
                proof {
                    assert(entries_map(before) =~= entries_map(before).remove(key@));
                }
            },
        }
        self.entries = entries;
    }

    /// The store that results from storing the entries one after the other.
    pub fn from_entries(list: &Vec<Entry<V>>) -> (store: Self)
        ensures
            store@ == replayed(list@),
    {
        let mut store = Self::new();
        let mut i: usize = 0;
        assert(list@.take(0) =~= Seq::<Entry<V>>::empty());
        while i < list.len()
            invariant
                i <= list.len(),
                store@ == replayed(list@.take(i as int)),
            decreases list.len() - i,
        {
            proof {
                assert(list@.take(i as int + 1).drop_last() =~= list@.take(i as int));
                assert(list@.take(i as int + 1).last() == list@[i as int]);
            }
            store.insert(list[i].key.clone(), list[i].value);
            i = i + 1;
        }
        assert(list@.take(list.len() as int) =~= list@);
        store
    }

    /// The entries of the store as a list, each key once.
    pub fn to_vec(&self) -> (list: Vec<Entry<V>>)
        ensures
            distinct_keys(list@),
            entries_map(list@) == self@,
    {
        proof {
            use_type_invariant(self);
        }
        let mut list: Vec<Entry<V>> = Vec::new();
        let mut i: usize = 0;
        while i < self.entries.len()
            invariant
                i <= self.entries.len(),
                list@.len() == i,
                forall|j: int|
                    0 <= j < i ==> (#[trigger] list@[j]).key@ == self.entries@[j].key@ && list@[j].value
                        == self.entries@[j].value,
            decreases self.entries.len() - i,
        {
            let entry = &self.entries[i];
            list.push(Entry { key: entry.key.clone(), value: entry.value });
            i = i + 1;
        }
        proof {
            let mine = self.entries@;
            let theirs = list@;
            assert(distinct_keys(theirs)) by {
                assert forall|a: int, b: int| 0 <= a < b < theirs.len() implies (
                #[trigger] theirs[a]).key@ != (#[trigger] theirs[b]).key@ by {
                    assert(mine[a].key@ != mine[b].key@);
                }
            }
            assert(entries_map(theirs) =~= entries_map(mine)) by {
                assert forall|k: Seq<char>|
                    entries_map(theirs).contains_key(k) <==> #[trigger] entries_map(
                        mine,
                    ).contains_key(k) by {
                    if has_key(theirs, k) {
                        let a = position_of(theirs, k);
                        assert(mine[a].key@ == k);
                    }
                    if has_key(mine, k) {
                        let a = position_of(mine, k);
                        assert(theirs[a].key@ == k);
                    }
                }
                assert forall|k: Seq<char>| #[trigger]
                    entries_map(theirs).contains_key(k) implies entries_map(theirs)[k]
                    == entries_map(mine)[k] by {
                    let a = position_of(theirs, k);
                    lemma_entry_in_map(theirs, a);
                    lemma_entry_in_map(mine, a);
                }
            }
        }
        list
    }
}

} // verus!
