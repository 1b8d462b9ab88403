//! A small dictionary from names to values that keeps the order in which
//! names first came in.
use vstd::prelude::*;
use crate::base::texts;

verus! {

/// The keys after `name` has been put: a new name goes to the end, a known
/// one keeps its place.
pub open spec fn put_keys(keys: Seq<Seq<char>>, name: Seq<char>) -> Seq<Seq<char>> {
    if keys.contains(name) {
        keys
    } else {
        keys.push(name)
    }
}

/// The values after `value` has been put under `name`: the value of a known
/// name is replaced where it stands.
pub open spec fn put_values<V>(
    keys: Seq<Seq<char>>,
    values: Seq<V>,
    name: Seq<char>,
    value: V,
) -> Seq<V> {
    if keys.contains(name) {
        values.update(keys.index_of(name), value)
    } else {
        values.push(value)
    }
}

/// The value that stands under `name`, if the name is known.
pub open spec fn lookup<V>(keys: Seq<Seq<char>>, values: Seq<V>, name: Seq<char>) -> Option<V> {
    if keys.contains(name) {
        Some(values[keys.index_of(name)])
    } else {
        None
    }
}

/// Names with one value each, in the order in which the names first came in.
pub struct Dict<V> {
    names: Vec<String>,
    values: Vec<V>,
}

impl<V> Dict<V> {
    /// The names, oldest first.
    pub closed spec fn keys(&self) -> Seq<Seq<char>> {
        texts(self.names@)
    }

    /// The values, each at the place of its name.
    pub closed spec fn values(&self) -> Seq<V> {
        self.values@
    }

    /// The dictionary as a map from names to values.
    pub open spec fn map(&self) -> Map<Seq<char>, V> {
        as_map(self.keys(), self.values())
    }

    /// Every name has one value, and no name occurs twice.
    pub closed spec fn wf(&self) -> bool {
        &&& self.names@.len() == self.values@.len()
        &&& self.keys().no_duplicates()
    }

    /// In a well-formed dictionary keys and values go in pairs.
    pub proof fn lemma_wf(&self)
        requires
            self.wf(),
        ensures
            self.keys().len() == self.values().len(),
            self.keys().no_duplicates(),
    {
    }

    /// A dictionary without names.
    pub fn new() -> (dict: Dict<V>)
        ensures
            dict.wf(),
            dict.keys() == Seq::<Seq<char>>::empty(),
            dict.values() == Seq::<V>::empty(),
    {
        let dict = Dict { names: Vec::new(), values: Vec::new() };
        assert(dict.keys() =~= Seq::<Seq<char>>::empty());
        dict
    }

    /// The number of names.
    pub fn len(&self) -> (n: usize)
        requires
            self.wf(),
        ensures
            n == self.keys().len(),
            n == self.values().len(),
    {
        self.names.len()
    }

    /// The name at place `i`.
    pub fn key_at(&self, i: usize) -> (name: &String)
        requires
            self.wf(),
            i < self.keys().len(),
        ensures
            name@ == self.keys()[i as int],
    {
        &self.names[i]
    }

    /// The value at place `i`.
    pub fn value_at(&self, i: usize) -> (value: &V)
        requires
            self.wf(),
            i < self.values().len(),
        ensures
            *value == self.values()[i as int],
    {
        &self.values[i]
    }

    /// The names, oldest first.
    pub fn names(&self) -> (names: &Vec<String>)
        ensures
            texts(names@) == self.keys(),
    {
        &self.names
    }

    /// The values, each at the place of its name.
    pub fn entries(&self) -> (values: &Vec<V>)
        ensures
            values@ == self.values(),
    {
        &self.values
    }

    /// The place of `name`, if the name is known.
    pub fn position(&self, name: &str) -> (place: Option<usize>)
        requires
            self.wf(),
        ensures
            place matches Some(i) ==> i < self.keys().len() && self.keys()[i as int] == name@
                && i == self.keys().index_of(name@),
            place is Some <==> self.keys().contains(name@),
    {
        let wanted = name.to_owned();
        let mut i: usize = 0;
        while i < self.names.len()
            invariant
                i <= self.names@.len(),
                wanted@ == name@,
                self.wf(),
                forall|j: int| 0 <= j < i ==> self.keys()[j] != name@,
            decreases self.names@.len() - i,
        {
            if self.names[i] == wanted {
                assert(self.keys()[i as int] == name@);
                return Some(i);
            }
            i += 1;
        }
        None
    }

    /// The value under `name`, if the name is known.
    pub fn get(&self, name: &str) -> (value: Option<&V>)
        requires
            self.wf(),
        ensures
            match value {
                Some(v) => lookup(self.keys(), self.values(), name@) == Some(*v),
                None => lookup(self.keys(), self.values(), name@) == None::<V>,
            },
    {
        match self.position(name) {
            Some(i) => Some(&self.values[i]),
            None => None,
        }
    }

    /// Puts `value` under `name`. A value that stood there is replaced.
    pub fn insert(&mut self, name: String, value: V)
        requires
            old(self).wf(),
        ensures
            final(self).wf(),
            final(self).keys() == put_keys(old(self).keys(), name@),
            final(self).values() == put_values(old(self).keys(), old(self).values(), name@, value),
    {
        match self.position(name.as_str()) {
            Some(i) => {
                self.values[i] = value;
            },
            None => {
                self.names.push(name);
                self.values.push(value);
                assert(self.keys() =~= old(self).keys().push(name@));
                assert forall|a: int, b: int|
                    0 <= a < self.keys().len() && 0 <= b < self.keys().len() && a != b implies self.keys()[a]
                    != self.keys()[b] by {
                    if a < old(self).keys().len() && b < old(self).keys().len() {
                        assert(old(self).keys()[a] != old(self).keys()[b]);
                    } else if a < old(self).keys().len() {
                        assert(old(self).keys().contains(old(self).keys()[a]));
                    } else {
                        assert(old(self).keys().contains(old(self).keys()[b]));
                    }
                }
            },
        }
    }
}

/// What was put under a name is what is found there.
pub proof fn lemma_put_then_lookup<V>(
    keys: Seq<Seq<char>>,
    values: Seq<V>,
    name: Seq<char>,
    value: V,
)
    requires
        keys.len() == values.len(),
        keys.no_duplicates(),
    ensures
        lookup(put_keys(keys, name), put_values(keys, values, name, value), name) == Some(value),
        put_keys(keys, name).no_duplicates(),
        put_keys(keys, name).len() == put_values(keys, values, name, value).len(),
{
    let k2 = put_keys(keys, name);
    if keys.contains(name) {
    } else {
        assert forall|a: int, b: int| 0 <= a < k2.len() && 0 <= b < k2.len() && a != b implies k2[a]
            != k2[b] by {
            if a < keys.len() && b < keys.len() {
            } else if a < keys.len() {
                assert(keys.contains(keys[a]));
            } else {
                assert(keys.contains(keys[b]));
            }
        }
        assert(k2[keys.len() as int] == name);
    }
    assert(k2.contains(name));
}

/// Putting a value under one name leaves what stands under every other name.
pub proof fn lemma_put_keeps_others<V>(
    keys: Seq<Seq<char>>,
    values: Seq<V>,
    name: Seq<char>,
    value: V,
    other: Seq<char>,
)
    requires
        keys.len() == values.len(),
        keys.no_duplicates(),
        other != name,
    ensures
        lookup(put_keys(keys, name), put_values(keys, values, name, value), other) == lookup(
            keys,
            values,
            other,
        ),
{
    let k2 = put_keys(keys, name);
    let v2 = put_values(keys, values, name, value);
    lemma_put_then_lookup(keys, values, name, value);
    if keys.contains(other) {
        let i = keys.index_of(other);
        assert(k2[i] == other);
        assert(k2.contains(other));
        let j = k2.index_of(other);
        assert(i == j);
        if keys.contains(name) {
            assert(keys.index_of(name) != i);
        }
    } else {
        if k2.contains(other) {
            let j = k2.index_of(other);
            if j < keys.len() {
                assert(keys[j] == other);
            }
        }
    }
}

/// The dictionary as a map from names to values.
pub open spec fn as_map<V>(keys: Seq<Seq<char>>, values: Seq<V>) -> Map<Seq<char>, V> {
    Map::new(|name: Seq<char>| keys.contains(name), |name: Seq<char>| values[keys.index_of(name)])
}

/// Putting a value under a name is an insertion into the map.
pub proof fn lemma_put_is_insert<V>(
    keys: Seq<Seq<char>>,
    values: Seq<V>,
    name: Seq<char>,
    value: V,
)
    requires
        keys.len() == values.len(),
        keys.no_duplicates(),
    ensures
        as_map(put_keys(keys, name), put_values(keys, values, name, value)) == as_map(
            keys,
            values,
        ).insert(name, value),
{
    let k2 = put_keys(keys, name);
    let v2 = put_values(keys, values, name, value);
    let before = as_map(keys, values);
    let after = as_map(k2, v2);
    lemma_put_then_lookup(keys, values, name, value);
    assert forall|n: Seq<char>| after.contains_key(n) == before.insert(name, value).contains_key(
        n,
    ) by {
        if n != name {
            lemma_put_keeps_others(keys, values, name, value, n);
        }
    }
    assert forall|n: Seq<char>| after.contains_key(n) implies after[n] == before.insert(
        name,
        value,
    )[n] by {
        if n != name {
            lemma_put_keeps_others(keys, values, name, value, n);
        }
    }
    assert(after =~= before.insert(name, value));
}

} // verus!
