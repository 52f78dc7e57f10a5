//! A map from strings to values that keeps its keys in the order in which
//! they came.

use vstd::prelude::*;
use vstd::string::StringExecFns;

verus! {

/// A key with its value.
pub struct Entry<V> {
    pub key: String,
    pub value: V,
}

/// A map from strings to values. No key occurs twice; a key that is set
/// again keeps its place.
pub struct StringMap<V> {
    entries: Vec<Entry<V>>,
}

impl<V> View for StringMap<V> {
    type V = Map<Seq<char>, V>;

    /// The value of each key.
    open spec fn view(&self) -> Map<Seq<char>, V> {
        map_of(self.keys(), self.values())
    }
}

impl<V> StringMap<V> {
    /// The keys, in the order in which they came.
    pub closed spec fn keys(&self) -> Seq<Seq<char>> {
        self.entries@.map_values(|e: Entry<V>| e.key@)
    }

    /// The values, each at the place of its key.
    pub closed spec fn values(&self) -> Seq<V> {
        self.entries@.map_values(|e: Entry<V>| e.value)
    }

    /// Keys and values pair up, and no key occurs twice.
    pub open spec fn wf(&self) -> bool {
        &&& self.keys().len() == self.values().len()
        &&& self.keys().no_duplicates()
    }

    /// The map holds each key of the list, with the value at its place, and
    /// nothing else.
    pub proof fn lemma_view(&self)
        requires
            self.wf(),
        ensures
            self@.dom().finite(),
            self@.dom() == self.keys().to_set(),
            forall|i: int|
                0 <= i < self.keys().len() ==> self@.contains_key(#[trigger] self.keys()[i])
                    && self@[self.keys()[i]] == self.values()[i],
            forall|k: Seq<char>|
                self@.contains_key(k) ==> 0 <= self.keys().index_of(k) < self.keys().len()
                    && self.keys()[self.keys().index_of(k)] == k,
    {
        let keys = self.keys();
        vstd::seq_lib::seq_to_set_is_finite(keys);
    }

    /// A map without keys.
    pub fn new() -> (m: Self)
        ensures
            m.wf(),
            m.keys().len() == 0,
            m@ == Map::<Seq<char>, V>::empty(),
    {
        let m = StringMap { entries: Vec::new() };
        m
    }

    /// The number of keys.
    pub fn len(&self) -> (n: usize)
        ensures
            n == self.keys().len(),
            n == self.values().len(),
    {
        self.entries.len()
    }

    /// The place of `key` in the list of keys.
    pub fn position(&self, key: &str) -> (r: Option<usize>)
        requires
            self.wf(),
        ensures
            match r {
                Some(i) => i < self.keys().len() && self.keys()[i as int] == key@
                    && self.keys().index_of(key@) == i && self@.contains_key(key@),
                None => !self.keys().contains(key@) && !self@.contains_key(key@),
            },
    {
        let wanted = String::from_str(key);
        let mut i: usize = 0;
        while i < self.entries.len()
            invariant
                self.wf(),
                i <= self.entries.len(),
                wanted@ == key@,
                forall|j: int| 0 <= j < i ==> self.keys()[j] != key@,
            decreases self.entries.len() - i,
        {
            if self.entries[i].key == wanted {
                assert(self.keys()[i as int] == key@);
                return Some(i);
            }
            i = i + 1;
        }
        None
    }

    /// The value of `key`.
    pub fn get(&self, key: &str) -> (r: Option<&V>)
        requires
            self.wf(),
        ensures
            match r {
                Some(v) => self@.contains_key(key@) && *v == self@[key@],
                None => !self@.contains_key(key@),
            },
    {
        match self.position(key) {
            Some(i) => Some(&self.entries[i].value),
            None => None,
        }
    }

    /// Whether `key` has a value.
    pub fn contains_key(&self, key: &str) -> (r: bool)
        requires
            self.wf(),
        ensures
            r == self@.contains_key(key@),
    {
        self.position(key).is_some()
    }

    /// Gives `key` the value `value`. A key that the map holds keeps its
    /// place; a new one goes to the end.
    pub fn insert(&mut self, key: String, value: V)
        requires
            old(self).wf(),
        ensures
            final(self).wf(),
            final(self)@ == old(self)@.insert(key@, value),
            old(self)@.contains_key(key@) ==> final(self).keys() == old(self).keys()
                && final(self).values() == old(self).values().update(
                old(self).keys().index_of(key@),
                value,
            ),
            !old(self)@.contains_key(key@) ==> final(self).keys() == old(self).keys().push(key@)
                && final(self).values() == old(self).values().push(value),
    {
        match self.position(key.as_str()) {
            Some(i) => {
                self.entries[i].value = value;
                assert(self.keys() =~= old(self).keys());
                assert(self.values() =~= old(self).values().update(i as int, value));
            },
            None => {
                self.entries.push(Entry { key, value });
                assert(self.keys() =~= old(self).keys().push(key@));
                assert(self.values() =~= old(self).values().push(value));
            },
        }
        proof {
            lemma_insert_view(
                old(self).keys(),
                old(self).values(),
                self.keys(),
                self.values(),
                key@,
                value,
            );
        }
    }

    /// Takes `key` and its value out of the map.
    pub fn remove(&mut self, key: &str)
        requires
            old(self).wf(),
        ensures
            final(self).wf(),
            final(self)@ == old(self)@.remove(key@),
            !old(self)@.contains_key(key@) ==> final(self).keys() == old(self).keys()
                && final(self).values() == old(self).values(),
            old(self)@.contains_key(key@) ==> final(self).keys() == old(self).keys().remove(
                old(self).keys().index_of(key@),
            ) && final(self).values() == old(self).values().remove(
                old(self).keys().index_of(key@),
            ),
    {
        match self.position(key) {
            Some(i) => {
                let _ = self.entries.remove(i);
                assert(self.keys() =~= old(self).keys().remove(i as int));
                proof {
                    lemma_remove_view(old(self).keys(), old(self).values(), i as int);
                }
            },
            None => {
            },
        }
    }

    /// Takes every key out of the map.
    pub fn clear(&mut self)
        ensures
            final(self).wf(),
            final(self).keys().len() == 0,
            final(self)@ == Map::<Seq<char>, V>::empty(),
    {
        self.entries.clear();
    }

    /// The key at place `i`.
    pub fn key_at(&self, i: usize) -> (key: &String)
        requires
            i < self.keys().len(),
        ensures
            key@ == self.keys()[i as int],
    {
        &self.entries[i].key
    }

    /// The value at place `i`.
    pub fn value_at(&self, i: usize) -> (value: &V)
        requires
            i < self.values().len(),
        ensures
            *value == self.values()[i as int],
    {
        &self.entries[i].value
    }

    /// The value at place `i`, to be changed where it stands.
    pub fn value_at_mut(&mut self, i: usize) -> (value: &mut V)
        requires
            old(self).wf(),
            i < old(self).keys().len(),
        ensures
            *value == old(self).values()[i as int],
            final(self).wf(),
            final(self).keys() == old(self).keys(),
            final(self).values() == old(self).values().update(i as int, *final(value)),
    {
        let value = &mut self.entries[i].value;
        proof {
            let after = old(self).entries@.update(
                i as int,
                Entry { key: old(self).entries@[i as int].key, value: *final(value) },
            );
            assert(after.map_values(|e: Entry<V>| e.key@) =~= old(self).keys());
        }
        value
    }

    /// Puts `value` at place `i`, for the key that stands there.
    pub fn set_value_at(&mut self, i: usize, value: V)
        requires
            old(self).wf(),
            i < old(self).keys().len(),
        ensures
            final(self).wf(),
            final(self).keys() == old(self).keys(),
            final(self).values() == old(self).values().update(i as int, value),
            final(self)@ == old(self)@.insert(old(self).keys()[i as int], value),
    {
        self.entries[i].value = value;
        assert(self.keys() =~= old(self).keys());
        assert(self.values() =~= old(self).values().update(i as int, value));
        assert(old(self).keys().contains(old(self).keys()[i as int]));
    }
}

/// The map of a list of keys without repeats and their values.
pub open spec fn map_of<V>(keys: Seq<Seq<char>>, values: Seq<V>) -> Map<Seq<char>, V> {
    Map::new(|k: Seq<char>| keys.contains(k), |k: Seq<char>| values[keys.index_of(k)])
}

proof fn lemma_insert_view<V>(
    keys: Seq<Seq<char>>,
    values: Seq<V>,
    keys2: Seq<Seq<char>>,
    values2: Seq<V>,
    key: Seq<char>,
    value: V,
)
    requires
        keys.len() == values.len(),
        keys.no_duplicates(),
        keys2.no_duplicates(),
        keys.contains(key) ==> keys2 == keys && values2 == values.update(
            keys.index_of(key),
            value,
        ),
        !keys.contains(key) ==> keys2 == keys.push(key) && values2 == values.push(value),
    ensures
        map_of(keys2, values2) == map_of(keys, values).insert(key, value),
{
    let m = map_of(keys, values);
    let m2 = map_of(keys2, values2);
    assert forall|k: Seq<char>| m2.contains_key(k) <==> m.insert(key, value).contains_key(k) by {
        if !keys.contains(key) {
            if keys.contains(k) {
                assert(keys2[keys.index_of(k)] == k);
            }
            if k == key {
                assert(keys2[keys.len() as int] == key);
            }
        }
    }
}

proof fn lemma_remove_view<V>(keys: Seq<Seq<char>>, values: Seq<V>, i: int)
    requires
        keys.len() == values.len(),
        keys.no_duplicates(),
        0 <= i < keys.len(),
    ensures
        keys.remove(i).no_duplicates(),
        keys.index_of(keys[i]) == i,
        map_of(keys.remove(i), values.remove(i)) == map_of(keys, values).remove(keys[i]),
{
    let keys2 = keys.remove(i);
    let values2 = values.remove(i);
    let m = map_of(keys, values).remove(keys[i]);
    let m2 = map_of(keys2, values2);
    assert forall|k: Seq<char>| m2.contains_key(k) <==> m.contains_key(k) by {
        if keys2.contains(k) {
            let j = keys2.index_of(k);
            assert(keys2[j] == k);
        }
        if keys.contains(k) && k != keys[i] {
            let j = keys.index_of(k);
            let j2 = if j < i {
                j
            } else {
                j - 1
            };
            assert(keys2[j2] == k);
        }
    }
}

} // verus!
