//! A map from texts to values whose keys stand in code point order.
use vstd::prelude::*;

use crate::text::{text_eq, text_less};

verus! {

/// A map keyed by text. Keys are kept in strictly ascending order, so no key
/// occurs twice and a walk over the entries follows the order of the keys.
pub struct TextMap<V> {
    pub(crate) entries: Vec<(String, V)>,
}

/// Keys in strictly ascending order.
pub open spec fn ascending(keys: Seq<Seq<char>>) -> bool {
    forall|i: int, j: int|
        0 <= i < j < keys.len() ==> crate::text::text_before(#[trigger] keys[i], #[trigger] keys[j])
}

/// The map that pairs each key with the value at its first position.
pub open spec fn table<V>(keys: Seq<Seq<char>>, values: Seq<V>) -> Map<Seq<char>, V> {
    Map::new(|k: Seq<char>| keys.contains(k), |k: Seq<char>| values[keys.index_of(k)])
}

pub(crate) closed spec fn keys_of<V>(entries: Seq<(String, V)>) -> Seq<Seq<char>> {
    entries.map_values(|e: (String, V)| e.0@)
}

pub(crate) closed spec fn values_of<V>(entries: Seq<(String, V)>) -> Seq<V> {
    entries.map_values(|e: (String, V)| e.1)
}

/// Keys and values stand at the positions of their entries.
pub(crate) proof fn entry_parts<V>(entries: Seq<(String, V)>)
    ensures
        keys_of(entries).len() == entries.len(),
        values_of(entries).len() == entries.len(),
        forall|i: int| 0 <= i < entries.len() ==> #[trigger] keys_of(entries)[i] == entries[i].0@,
        forall|i: int| 0 <= i < entries.len() ==> #[trigger] values_of(entries)[i] == entries[i].1,
{
}

/// The keys and values of a map are those of its entries.
pub(crate) proof fn map_parts<V>(map: &TextMap<V>)
    ensures
        map.keys() == keys_of(map.entries@),
        map.values() == values_of(map.entries@),
        map.well_formed() == ascending(keys_of(map.entries@)),
{
}

/// Ascending keys determine the position of each key.
pub proof fn ascending_keys_are_distinct(keys: Seq<Seq<char>>)
    requires
        ascending(keys),
    ensures
        forall|i: int|
            0 <= i < keys.len() ==> keys.contains(keys[i]) && #[trigger] keys.index_of(keys[i])
                == i,
{
    assert forall|i: int| 0 <= i < keys.len() implies keys.contains(keys[i])
        && #[trigger] keys.index_of(keys[i]) == i by {
        let j = keys.index_of(keys[i]);
        crate::text::text_order_is_total(keys[i], keys[i]);
        assert(0 <= j < keys.len() && keys[j] == keys[i]);
    }
}

impl<V> TextMap<V> {
    /// The keys in ascending order.
    pub closed spec fn keys(&self) -> Seq<Seq<char>> {
        keys_of(self.entries@)
    }

    /// The values in the order of their keys.
    pub closed spec fn values(&self) -> Seq<V> {
        values_of(self.entries@)
    }

    #[verifier::type_invariant]
    pub(crate) closed spec fn well_formed(&self) -> bool {
        ascending(keys_of(self.entries@))
    }

    /// A map without entries.
    pub fn new() -> (r: Self)
        ensures
            r@ == Map::<Seq<char>, V>::empty(),
            r.keys() == Seq::<Seq<char>>::empty(),
            r.values() == Seq::<V>::empty(),
    {
        let r = TextMap { entries: Vec::new() };
        assert(r@ =~= Map::<Seq<char>, V>::empty());
        assert(r.keys() =~= Seq::<Seq<char>>::empty());
        assert(r.values() =~= Seq::<V>::empty());
        r
    }

    /// The map of entries that stand in the order of their keys.
    pub(crate) fn from_entries(entries: Vec<(String, V)>) -> (r: Self)
        requires
            ascending(keys_of(entries@)),
        ensures
            r.entries == entries,
    {
        TextMap { entries }
    }

    /// The number of entries.
    pub fn len(&self) -> (r: usize)
        ensures
            r == self.keys().len(),
            r == self.values().len(),
            r == self@.dom().len(),
            self@.dom().finite(),
            ascending(self.keys()),
            forall|i: int|
                0 <= i < r ==> self@.contains_key(#[trigger] self.keys()[i])
                    && self@[self.keys()[i]] == self.values()[i],
            forall|k: Seq<char>| #[trigger] self@.contains_key(k) ==> self.keys().contains(k),
    {
        proof {
            use_type_invariant(self);
            ascending_keys_are_distinct(self.keys());
            assert(self.keys().no_duplicates()) by {
                assert forall|i: int, j: int|
                    0 <= i < self.keys().len() && 0 <= j < self.keys().len() && i
                        != j implies self.keys()[i] != self.keys()[j] by {
                    assert(self.keys().index_of(self.keys()[i]) == i);
                    assert(self.keys().index_of(self.keys()[j]) == j);
                }
            }
            self.keys().unique_seq_to_set();
            assert(self@.dom() =~= self.keys().to_set());
        }
        self.entries.len()
    }

    /// Tells whether there is no entry.
    pub fn is_empty(&self) -> (r: bool)
        ensures
            r == (self.keys().len() == 0),
    {
        self.entries.len() == 0
    }

    /// The key at a position.
    pub fn key_at(&self, i: usize) -> (r: &String)
        requires
            i < self.keys().len(),
        ensures
            r@ == self.keys()[i as int],
    {
        &self.entries[i].0
    }

    /// The value at a position.
    pub fn value_at(&self, i: usize) -> (r: &V)
        requires
            i < self.keys().len(),
        ensures
            *r == self.values()[i as int],
            self.values().len() == self.keys().len(),
    {
        &self.entries[i].1
    }

    /// The first position whose key is not before `key`.
    fn position(&self, key: &str) -> (r: usize)
        ensures
            r <= self.keys().len(),
            forall|i: int|
                0 <= i < r ==> crate::text::text_before(#[trigger] self.keys()[i], key@),
            forall|i: int|
                r <= i < self.keys().len() ==> !crate::text::text_before(
                    #[trigger] self.keys()[i],
                    key@,
                ),
    {
        proof {
            use_type_invariant(self);
        }
        let mut low: usize = 0;
        let mut high: usize = self.entries.len();
        while low < high
            invariant
                low <= high <= self.entries.len(),
                ascending(self.keys()),
                forall|j: int|
                    0 <= j < low ==> crate::text::text_before(#[trigger] self.keys()[j], key@),
                forall|j: int|
                    high <= j < self.keys().len() ==> !crate::text::text_before(
                        #[trigger] self.keys()[j],
                        key@,
                    ),
            decreases high - low,
        {
            let mid: usize = low + (high - low) / 2;
            assert(self.keys()[mid as int] == self.entries@[mid as int].0@);
            if text_less(self.entries[mid].0.as_str(), key) {
                assert forall|j: int| 0 <= j <= mid implies crate::text::text_before(
                    #[trigger] self.keys()[j],
                    key@,
                ) by {
                    if j < mid {
                        crate::text::text_order_is_transitive(
                            self.keys()[j],
                            self.keys()[mid as int],
                            key@,
                        );
                    }
                }
                low = mid + 1;
            } else {
                assert forall|j: int|
                    mid <= j < self.keys().len() implies !crate::text::text_before(
                    #[trigger] self.keys()[j],
                    key@,
                ) by {
                    if j > mid && crate::text::text_before(self.keys()[j], key@) {
                        crate::text::text_order_is_transitive(
                            self.keys()[mid as int],
                            self.keys()[j],
                            key@,
                        );
                    }
                }
                high = mid;
            }
        }
        low
    }

    /// The position of a key.
    fn find(&self, key: &str) -> (r: Option<usize>)
        ensures
            match r {
                Some(i) => i < self.keys().len() && self.keys()[i as int] == key@
                    && self@.contains_key(key@) && self@[key@] == self.values()[i as int],
                None => !self@.contains_key(key@),
            },
    {
        let i: usize = self.position(key);
        proof {
            use_type_invariant(self);
            ascending_keys_are_distinct(self.keys());
        }
        if i < self.entries.len() && text_eq(self.entries[i].0.as_str(), key) {
            assert(self.keys()[i as int] == key@);
            Some(i)
        } else {
            assert forall|j: int| 0 <= j < self.keys().len() implies self.keys()[j] != key@ by {
                crate::text::text_order_is_total(key@, key@);
                if j > i && self.keys()[j] == key@ {
                    assert(crate::text::text_before(self.keys()[i as int], self.keys()[j]));
                }
                if i < self.keys().len() {
                    assert(self.keys()[i as int] == self.entries@[i as int].0@);
                }
            }
            None
        }
    }

    /// Looks a key up.
    pub fn get(&self, key: &str) -> (r: Option<&V>)
        ensures
            match r {
                Some(v) => self@.contains_key(key@) && *v == self@[key@],
                None => !self@.contains_key(key@),
            },
    {
        match self.find(key) {
            Some(i) => Some(&self.entries[i].1),
            None => None,
        }
    }

    /// Tells whether a key has an entry.
    pub fn contains_key(&self, key: &str) -> (r: bool)
        ensures
            r == self@.contains_key(key@),
    {
        self.find(key).is_some()
    }

    /// Puts a value under a key, replacing what stood there.
    pub fn insert(&mut self, key: String, value: V)
        ensures
            final(self)@ == old(self)@.insert(key@, value),
            ascending(final(self).keys()),
    {
        let at: usize = self.position(key.as_str());
        let found = at < self.entries.len() && text_eq(self.entries[at].0.as_str(), key.as_str());
        let ghost before = self.entries@;
        let ghost k = key@;
        proof {
            use_type_invariant(&*self);
        }
        let mut entries: Vec<(String, V)> = Vec::new();
        assert(keys_of(entries@) =~= Seq::<Seq<char>>::empty());
        std::mem::swap(&mut entries, &mut self.entries);
        if found {
            entries.set(at, (key, value));
            proof {
                assert(keys_of(entries@) =~= keys_of(before));
                assert(values_of(entries@) =~= values_of(before).update(at as int, value));
                replaced_value(keys_of(before), values_of(before), at as int, value);
            }
        } else {
            entries.insert(at, (key, value));
            proof {
                let ks = keys_of(before);
                assert(keys_of(entries@) =~= ks.insert(at as int, k));
                assert(values_of(entries@) =~= values_of(before).insert(at as int, value));
                if at < ks.len() {
                    assert(ks[at as int] == before[at as int].0@);
                    crate::text::text_order_is_total(ks[at as int], k);
                }
                assert forall|j: int| at <= j < ks.len() implies crate::text::text_before(
                    k,
                    #[trigger] ks[j],
                ) by {
                    if j > at {
                        crate::text::text_order_is_transitive(k, ks[at as int], ks[j]);
                    }
                }
                inserted_value(ks, values_of(before), at as int, k, value);
            }
        }
        self.entries = entries;
    }

    /// Takes the entry of a key out.
    pub fn remove(&mut self, key: &str) -> (r: Option<V>)
        ensures
            final(self)@ == old(self)@.remove(key@),
            ascending(final(self).keys()),
            match r {
                Some(v) => old(self)@.contains_key(key@) && v == old(self)@[key@],
                None => !old(self)@.contains_key(key@),
            },
    {
        proof {
            use_type_invariant(&*self);
        }
        match self.find(key) {
            Some(at) => {
                let ghost before = self.entries@;
                let mut entries: Vec<(String, V)> = Vec::new();
                assert(keys_of(entries@) =~= Seq::<Seq<char>>::empty());
                std::mem::swap(&mut entries, &mut self.entries);
                let (_, value) = entries.remove(at);
                proof {
                    assert(keys_of(entries@) =~= keys_of(before).remove(at as int));
                    assert(values_of(entries@) =~= values_of(before).remove(at as int));
                    removed_value(keys_of(before), values_of(before), at as int);
                }
                self.entries = entries;
                Some(value)
            },
            None => {
                assert(self@ =~= self@.remove(key@));
                None
            },
        }
    }
}

impl<V> View for TextMap<V> {
    type V = Map<Seq<char>, V>;

    open spec fn view(&self) -> Map<Seq<char>, V> {
        table(self.keys(), self.values())
    }
}

impl<V: Clone> Clone for TextMap<V> {
    /// Copies keys and values; each value is what its own `clone` returns.
    fn clone(&self) -> (r: Self)
        ensures
            r.keys() == self.keys(),
            r.values().len() == self.values().len(),
            forall|i: int|
                0 <= i < self.values().len() ==> cloned(
                    self.values()[i],
                    #[trigger] r.values()[i],
                ),
    {
        proof {
            use_type_invariant(self);
        }
        let mut entries: Vec<(String, V)> = Vec::new();
        let mut i: usize = 0;
        while i < self.entries.len()
            invariant
                i <= self.entries.len(),
                entries@.len() == i,
                forall|j: int| 0 <= j < i ==> (#[trigger] entries@[j]).0@ == self.entries@[j].0@,
                forall|j: int| 0 <= j < i ==> cloned(self.entries@[j].1, (#[trigger] entries@[j]).1),
            decreases self.entries.len() - i,
        {
            entries.push((self.entries[i].0.clone(), self.entries[i].1.clone()));
            i = i + 1;
        }
        assert(keys_of(entries@) =~= keys_of(self.entries@));
        TextMap { entries }
    }
}

/// Replacing the value at a position replaces it under the key there.
proof fn replaced_value<V>(keys: Seq<Seq<char>>, values: Seq<V>, at: int, value: V)
    requires
        ascending(keys),
        keys.len() == values.len(),
        0 <= at < keys.len(),
    ensures
        table(keys, values.update(at, value)) == table(keys, values).insert(keys[at], value),
{
    ascending_keys_are_distinct(keys);
    assert(table(keys, values.update(at, value)) =~= table(keys, values).insert(keys[at], value));
}

/// Inserting a new key and its value at one position adds that entry.
proof fn inserted_value<V>(keys: Seq<Seq<char>>, values: Seq<V>, at: int, key: Seq<char>, value: V)
    requires
        ascending(keys),
        keys.len() == values.len(),
        0 <= at <= keys.len(),
        forall|i: int| 0 <= i < at ==> crate::text::text_before(#[trigger] keys[i], key),
        forall|i: int| at <= i < keys.len() ==> crate::text::text_before(key, #[trigger] keys[i]),
    ensures
        ascending(keys.insert(at, key)),
        table(keys.insert(at, key), values.insert(at, value)) == table(keys, values).insert(
            key,
            value,
        ),
{
    let ks = keys.insert(at, key);
    let vs = values.insert(at, value);
    assert(ascending(ks)) by {
        assert forall|i: int, j: int| 0 <= i < j < ks.len() implies crate::text::text_before(
            #[trigger] ks[i],
            #[trigger] ks[j],
        ) by {
            if i != at && j != at {
                let a = if i < at { i } else { i - 1 };
                let b = if j < at { j } else { j - 1 };
                assert(ks[i] == keys[a] && ks[j] == keys[b]);
            } else if i == at {
                assert(ks[j] == keys[j - 1]);
            } else {
                assert(ks[i] == keys[i]);
            }
        }
    }
    ascending_keys_are_distinct(keys);
    ascending_keys_are_distinct(ks);
    let a = table(ks, vs);
    let b = table(keys, values).insert(key, value);
    assert forall|k: Seq<char>| ks.contains(k) == (keys.contains(k) || k == key) by {
        if keys.contains(k) {
            let i = keys.index_of(k);
            let j = if i < at { i } else { i + 1 };
            assert(ks[j] == k);
        }
        assert(ks[at] == key);
        if ks.contains(k) && k != key {
            let j = ks.index_of(k);
            let i = if j < at { j } else { j - 1 };
            assert(keys[i] == k);
        }
    }
    assert forall|k: Seq<char>| a.contains_key(k) implies a[k] == b[k] by {
        if k == key {
            assert(ks[at] == key);
            assert(ks.index_of(ks[at]) == at);
        } else {
            let i = keys.index_of(k);
            let j = if i < at { i } else { i + 1 };
            assert(keys[i] == k && ks[j] == k);
            assert(ks.index_of(ks[j]) == j);
        }
    }
    assert(a =~= b);
}

/// Removing one position removes the entry of the key there.
proof fn removed_value<V>(keys: Seq<Seq<char>>, values: Seq<V>, at: int)
    requires
        ascending(keys),
        keys.len() == values.len(),
        0 <= at < keys.len(),
    ensures
        ascending(keys.remove(at)),
        table(keys.remove(at), values.remove(at)) == table(keys, values).remove(keys[at]),
{
    let ks = keys.remove(at);
    let vs = values.remove(at);
    assert(ascending(ks)) by {
        assert forall|i: int, j: int| 0 <= i < j < ks.len() implies crate::text::text_before(
            #[trigger] ks[i],
            #[trigger] ks[j],
        ) by {
            let a = if i < at { i } else { i + 1 };
            let b = if j < at { j } else { j + 1 };
            assert(ks[i] == keys[a] && ks[j] == keys[b]);
        }
    }
    ascending_keys_are_distinct(keys);
    ascending_keys_are_distinct(ks);
    let a = table(ks, vs);
    let b = table(keys, values).remove(keys[at]);
    assert forall|k: Seq<char>| ks.contains(k) == (keys.contains(k) && k != keys[at]) by {
        if keys.contains(k) && k != keys[at] {
            let i = keys.index_of(k);
            let j = if i < at { i } else { i - 1 };
            assert(ks[j] == k);
        }
        if ks.contains(k) {
            let j = ks.index_of(k);
            let i = if j < at { j } else { j + 1 };
            assert(keys[i] == k);
            assert(keys.index_of(keys[i]) == i);
            assert(keys.index_of(keys[at]) == at);
        }
    }
    assert forall|k: Seq<char>| a.contains_key(k) implies a[k] == b[k] by {
        let j = ks.index_of(k);
        let i = if j < at { j } else { j + 1 };
        assert(keys[i] == k && ks[j] == k);
        assert(keys.index_of(keys[i]) == i);
    }
    assert(a =~= b);
}

} // verus!
