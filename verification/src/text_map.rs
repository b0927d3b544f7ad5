//! A map from texts to values that keeps its keys in order.

use crate::json::{precedes, text_less, text_less_is_total, text_less_is_transitive};
use crate::text::same_text;
use vstd::prelude::*;
use vstd::string::*;

verus! {

/// Whether the keys of entries strictly increase.
pub open spec fn ascending<V>(entries: Seq<(String, V)>) -> bool {
    forall|i: int, j: int|
        0 <= i < j < entries.len() ==> text_less(#[trigger] entries[i].0@, #[trigger] entries[j].0@)
}

/// The map that entries make up: a later entry of the same key wins.
pub open spec fn map_of<V>(entries: Seq<(String, V)>) -> Map<Seq<char>, V>
    decreases entries.len(),
{
    if entries.len() == 0 {
        Map::empty()
    } else {
        map_of(entries.drop_last()).insert(entries.last().0@, entries.last().1)
    }
}

/// A map from texts to values that keeps its keys in order.
#[derive(Debug)]
pub struct TextMap<V> {
    entries: Vec<(String, V)>,
}

impl<V> View for TextMap<V> {
    type V = Map<Seq<char>, V>;

    closed spec fn view(&self) -> Map<Seq<char>, V> {
        map_of(self.entries@)
    }
}

proof fn entry_is_mapped<V>(entries: Seq<(String, V)>, i: int)
    requires
        ascending(entries),
        0 <= i < entries.len(),
    ensures
        map_of(entries).contains_key(entries[i].0@),
        map_of(entries)[entries[i].0@] == entries[i].1,
    decreases entries.len(),
{
    if i < entries.len() - 1 {
        assert(ascending(entries.drop_last()));
        entry_is_mapped(entries.drop_last(), i);
        text_less_is_total(entries[i].0@, entries.last().0@);
    }
}

proof fn mapped_is_entry<V>(entries: Seq<(String, V)>, key: Seq<char>) -> (i: int)
    requires
        map_of(entries).contains_key(key),
    ensures
        0 <= i < entries.len(),
        entries[i].0@ == key,
    decreases entries.len(),
{
    if entries.last().0@ == key {
        entries.len() - 1
    } else {
        mapped_is_entry(entries.drop_last(), key)
    }
}

proof fn equal_maps<V>(left: Seq<(String, V)>, right: Seq<(String, V)>, key: Seq<char>, value: V, at: int)
    requires
        ascending(left),
        ascending(right),
        0 <= at < right.len(),
        right[at].0@ == key,
        right[at].1 == value,
        forall|i: int|
            0 <= i < left.len() && left[i].0@ != key ==> right.contains(#[trigger] left[i]),
        forall|j: int| 0 <= j < right.len() && j != at ==> left.contains(#[trigger] right[j]),
    ensures
        map_of(right) == map_of(left).insert(key, value),
{
    let old_map = map_of(left);
    let new_map = map_of(right);
    assert forall|k: Seq<char>| new_map.contains_key(k) <==> old_map.insert(
        key,
        value,
    ).contains_key(k) by {
        if new_map.contains_key(k) {
            let j = mapped_is_entry(right, k);
            if j != at {
                entry_is_mapped(left, left.index_of(right[j]));
            }
        }
        if old_map.insert(key, value).contains_key(k) {
            if k == key {
                entry_is_mapped(right, at);
            } else {
                let i = mapped_is_entry(left, k);
                entry_is_mapped(right, right.index_of(left[i]));
            }
        }
    }
    assert forall|k: Seq<char>| new_map.contains_key(k) implies new_map[k] == old_map.insert(
        key,
        value,
    )[k] by {
        let j = mapped_is_entry(right, k);
        entry_is_mapped(right, j);
        if k == key {
            entry_is_mapped(right, at);
        } else {
            entry_is_mapped(left, left.index_of(right[j]));
        }
    }
    assert(new_map =~= old_map.insert(key, value));
}

impl<V> TextMap<V> {
    #[verifier::type_invariant]
    spec fn well_formed(self) -> bool {
        ascending(self.entries@)
    }

    /// The keys, in order.
    pub closed spec fn keys(&self) -> Seq<Seq<char>> {
        self.entries@.map_values(|entry: (String, V)| entry.0@)
    }

    /// The empty map.
    pub fn new() -> (map: TextMap<V>)
        ensures
            map@ == Map::<Seq<char>, V>::empty(),
            map.keys() == Seq::<Seq<char>>::empty(),
    {
        let map = TextMap { entries: Vec::new() };
        assert(map.keys() == Seq::<Seq<char>>::empty());
        map
    }

    /// The number of keys. Each key of the map stands once in the order of the keys.
    pub fn len(&self) -> (len: usize)
        ensures
            len == self.keys().len(),
            forall|i: int, j: int|
                0 <= i < j < self.keys().len() ==> text_less(
                    #[trigger] self.keys()[i],
                    #[trigger] self.keys()[j],
                ),
            forall|key: Seq<char>| #[trigger]
                self@.contains_key(key) <==> self.keys().contains(key),
            self@.dom().finite(),
            self@.dom().len() == len,
    {
        proof {
            use_type_invariant(self);
            assert forall|key: Seq<char>| #[trigger]
                self@.contains_key(key) <==> self.keys().contains(key) by {
                if self@.contains_key(key) {
                    let i = mapped_is_entry(self.entries@, key);
                    assert(self.keys()[i] == key);
                }
                if self.keys().contains(key) {
                    entry_is_mapped(self.entries@, self.keys().index_of(key));
                }
            }
            let keys = self.keys();
            assert forall|i: int, j: int| 0 <= i < j < keys.len() implies keys[i] != keys[j] by {
                text_less_is_total(keys[i], keys[j]);
            }
            keys.unique_seq_to_set();
            vstd::seq_lib::seq_to_set_is_finite(keys);
            assert(keys.to_set() =~= self@.dom());
        }
        self.entries.len()
    }

    /// Whether there is no key.
    pub fn is_empty(&self) -> (empty: bool)
        ensures
            empty == (self@ == Map::<Seq<char>, V>::empty()),
            empty == (self.keys().len() == 0),
    {
        proof {
            if self.entries@.len() > 0 {
                use_type_invariant(self);
                entry_is_mapped(self.entries@, 0);
            }
        }
        self.entries.len() == 0
    }

    /// The key at a position in the order.
    pub fn key_at(&self, i: usize) -> (key: &String)
        requires
            i < self.keys().len(),
        ensures
            key@ == self.keys()[i as int],
            self@.contains_key(key@),
    {
        proof {
            use_type_invariant(self);
            entry_is_mapped(self.entries@, i as int);
        }
        &self.entries[i].0
    }

    /// The value at a position in the order.
    pub fn value_at(&self, i: usize) -> (value: &V)
        requires
            i < self.keys().len(),
        ensures
            self@.contains_key(self.keys()[i as int]),
            *value == self@[self.keys()[i as int]],
    {
        proof {
            use_type_invariant(self);
            entry_is_mapped(self.entries@, i as int);
        }
        &self.entries[i].1
    }

    fn position(&self, key: &str) -> (place: (usize, bool))
        ensures
            place.0 <= self.entries@.len(),
            forall|k: int| 0 <= k < place.0 ==> text_less(#[trigger] self.entries@[k].0@, key@),
            place.1 ==> place.0 < self.entries@.len() && self.entries@[place.0 as int].0@ == key@,
            !place.1 ==> forall|k: int|
                place.0 <= k < self.entries@.len() ==> text_less(key@, #[trigger] self.entries@[k].0@),
    {
        proof {
            use_type_invariant(self);
        }
        let mut at: usize = 0;
        while at < self.entries.len() && precedes(self.entries[at].0.as_str(), key)
            invariant
                at <= self.entries.len(),
                forall|k: int| 0 <= k < at ==> text_less(#[trigger] self.entries@[k].0@, key@),
            decreases self.entries.len() - at,
        {
            at += 1;
        }
        if at < self.entries.len() && same_text(self.entries[at].0.as_str(), key) {
            return (at, true);
        }
        proof {
            if at < self.entries@.len() {
                text_less_is_total(self.entries@[at as int].0@, key@);
                assert forall|k: int| at <= k < self.entries@.len() implies text_less(
                    key@,
                    #[trigger] self.entries@[k].0@,
                ) by {
                    if k > at {
                        text_less_is_transitive(
                            key@,
                            self.entries@[at as int].0@,
                            self.entries@[k].0@,
                        );
                    }
                }
            }
        }
        (at, false)
    }

    /// Finds the value of a key.
    pub fn get(&self, key: &str) -> (found: Option<&V>)
        ensures
            match found {
                Some(value) => self@.contains_key(key@) && *value == self@[key@],
                None => !self@.contains_key(key@),
            },
    {
        let (at, found) = self.position(key);
        proof {
            use_type_invariant(self);
            if found {
                entry_is_mapped(self.entries@, at as int);
            } else if self@.contains_key(key@) {
                let i = mapped_is_entry(self.entries@, key@);
                text_less_is_total(self.entries@[i].0@, key@);
            }
        }
        if found {
            Some(&self.entries[at].1)
        } else {
            None
        }
    }

    /// Whether the key is in the map.
    pub fn contains_key(&self, key: &str) -> (contains: bool)
        ensures
            contains == self@.contains_key(key@),
    {
        self.get(key).is_some()
    }

    /// Sets the value of a key.
    pub fn insert(&mut self, key: String, value: V)
        ensures
            final(self)@ == old(self)@.insert(key@, value),
    {
        let (at, found) = self.position(key.as_str());
        proof {
            use_type_invariant(&*self);
        }
        let ghost before = self.entries@;
        let mut entries: Vec<(String, V)> = Vec::new();
        let mut fresh: TextMap<V> = TextMap { entries };
        std::mem::swap(self, &mut fresh);
        entries = fresh.entries;
        if found {
            entries.set(at, (key, value));
            proof {
                assert forall|i: int| 0 <= i < before.len() && before[i].0@ != key@ implies
                    entries@.contains(#[trigger] before[i]) by {
                    assert(entries@[i] == before[i]);
                }
                assert forall|j: int| 0 <= j < entries@.len() && j != at implies before.contains(
                    #[trigger] entries@[j],
                ) by {
                    assert(before[j] == entries@[j]);
                }
                equal_maps(before, entries@, key@, value, at as int);
            }
        } else {
            entries.insert(at, (key, value));
            proof {
                assert forall|i: int, j: int| 0 <= i < j < entries@.len() implies text_less(
                    #[trigger] entries@[i].0@,
                    #[trigger] entries@[j].0@,
                ) by {
                    let left = if i < at {
                        i
                    } else {
                        i - 1
                    };
                    let right = if j < at {
                        j
                    } else {
                        j - 1
                    };
                    if i != at {
                        assert(entries@[i] == before[left]);
                    }
                    if j != at {
                        assert(entries@[j] == before[right]);
                    }
                }
                assert forall|i: int| 0 <= i < before.len() && before[i].0@ != key@ implies
                    entries@.contains(#[trigger] before[i]) by {
                    let j = if i < at {
                        i
                    } else {
                        i + 1
                    };
                    assert(entries@[j] == before[i]);
                }
                assert forall|j: int| 0 <= j < entries@.len() && j != at implies before.contains(
                    #[trigger] entries@[j],
                ) by {
                    let i = if j < at {
                        j
                    } else {
                        j - 1
                    };
                    assert(before[i] == entries@[j]);
                }
                equal_maps(before, entries@, key@, value, at as int);
            }
        }
        *self = TextMap { entries };
    }
}

} // verus!
