//! A small table keyed by text, kept in insertion order.
//!
//! The registry, the connection pool and the worker's resource maps all sit
//! on this type. A key occurs at most once.
//!
//! A hash map keyed by `String` would do the same at run time. This type is
//! here because what it holds can be stated and proved: vstd gives text no
//! key model for the std hash map, and its own text-keyed map hands out
//! neither a mutable reference nor the value it removes, both of which the
//! pool and the worker need.

use vstd::prelude::*;
use crate::text::same_text;

verus! {

/// Entries in insertion order; `keys[i]` names `values[i]`.
pub struct Table<V> {
    keys: Vec<String>,
    values: Vec<V>,
}

/// The position of `key` in `keys`, or `keys.len()` when it does not occur.
pub open spec fn position_of(keys: Seq<Seq<char>>, key: Seq<char>) -> int
    decreases keys.len(),
{
    if keys.len() == 0 {
        0
    } else if keys[0] == key {
        0
    } else {
        1 + position_of(keys.drop_first(), key)
    }
}

/// No key occurs twice.
pub open spec fn distinct(keys: Seq<Seq<char>>) -> bool {
    forall|i: int, j: int| 0 <= i < j < keys.len() ==> keys[i] != keys[j]
}

/// `position_of` is in range and points at the first occurrence.
pub proof fn lemma_position_of(keys: Seq<Seq<char>>, key: Seq<char>)
    ensures
        0 <= position_of(keys, key) <= keys.len(),
        position_of(keys, key) < keys.len() ==> keys[position_of(keys, key)] == key,
        forall|i: int| 0 <= i < position_of(keys, key) ==> keys[i] != key,
        keys.contains(key) <==> position_of(keys, key) < keys.len(),
    decreases keys.len(),
{
    if keys.len() == 0 {
    } else if keys[0] == key {
        assert(keys.contains(key));
    } else {
        let rest = keys.drop_first();
        lemma_position_of(rest, key);
        let p = position_of(rest, key);
        assert forall|i: int| 0 <= i < 1 + p implies keys[i] != key by {
            if i > 0 {
                assert(keys[i] == rest[i - 1]);
            }
        }
        if p < rest.len() {
            assert(keys[1 + p] == rest[p]);
            assert(keys.contains(key));
        } else {
            if keys.contains(key) {
                let i = choose|i: int| 0 <= i < keys.len() && keys[i] == key;
                assert(rest[i - 1] == key);
                assert(rest.contains(key));
            }
        }
    }
}

/// The map that keys and values stand for.
pub open spec fn map_of<V>(keys: Seq<Seq<char>>, values: Seq<V>) -> Map<Seq<char>, V> {
    Map::new(|k: Seq<char>| keys.contains(k), |k: Seq<char>| values[position_of(keys, k)])
}

/// A new value at the place of a key is an insert under that key.
proof fn lemma_map_after_update<V>(
    keys: Seq<Seq<char>>,
    values: Seq<V>,
    key: Seq<char>,
    value: V,
)
    requires
        keys.len() == values.len(),
        distinct(keys),
        keys.contains(key),
    ensures
        map_of(keys, values.update(position_of(keys, key), value)) == map_of(keys, values).insert(
            key,
            value,
        ),
{
    let p = position_of(keys, key);
    lemma_position_of(keys, key);
    let left = map_of(keys, values.update(p, value));
    let right = map_of(keys, values).insert(key, value);
    assert forall|k: Seq<char>| left.dom().contains(k) <==> right.dom().contains(k) by {}
    assert forall|k: Seq<char>| #[trigger] left.dom().contains(k) implies left[k] == right[k] by {
        lemma_position_of(keys, k);
    }
    assert(left =~= right);
}

/// A new key at the end, with its value, is an insert under that key.
proof fn lemma_map_after_push<V>(keys: Seq<Seq<char>>, values: Seq<V>, key: Seq<char>, value: V)
    requires
        keys.len() == values.len(),
        distinct(keys),
        !keys.contains(key),
    ensures
        distinct(keys.push(key)),
        map_of(keys.push(key), values.push(value)) == map_of(keys, values).insert(key, value),
{
    let keys2 = keys.push(key);
    let values2 = values.push(value);
    assert forall|i: int, j: int| 0 <= i < j < keys2.len() implies keys2[i] != keys2[j] by {
        if j == keys.len() {
            assert(keys[i] == keys2[i]);
            assert(keys.contains(keys[i]));
        }
    }
    let left = map_of(keys2, values2);
    let right = map_of(keys, values).insert(key, value);
    assert forall|k: Seq<char>| left.dom().contains(k) <==> right.dom().contains(k) by {
        if keys2.contains(k) {
            let i = choose|i: int| 0 <= i < keys2.len() && keys2[i] == k;
            if i < keys.len() {
                assert(keys[i] == k);
                assert(keys.contains(k));
            }
        }
        if keys.contains(k) {
            let i = choose|i: int| 0 <= i < keys.len() && keys[i] == k;
            assert(keys2[i] == k);
        }
        if k == key {
            assert(keys2[keys.len() as int] == key);
        }
    }
    assert forall|k: Seq<char>| #[trigger] left.dom().contains(k) implies left[k] == right[k] by {
        lemma_position_of(keys2, k);
        lemma_position_of(keys, k);
        let p2 = position_of(keys2, k);
        if k == key {
            if p2 < keys.len() {
                assert(keys[p2] == key);
                assert(keys.contains(key));
            }
        } else {
            let p = position_of(keys, k);
            assert(keys2[p] == k);
            if p2 < p {
                assert(keys[p2] == k);
            }
        }
    }
    assert(left =~= right);
}

/// Taking a key out, with its value, is a remove of that key.
proof fn lemma_map_after_remove<V>(keys: Seq<Seq<char>>, values: Seq<V>, key: Seq<char>)
    requires
        keys.len() == values.len(),
        distinct(keys),
        keys.contains(key),
    ensures
        distinct(keys.remove(position_of(keys, key))),
        map_of(keys.remove(position_of(keys, key)), values.remove(position_of(keys, key)))
            == map_of(keys, values).remove(key),
{
    lemma_position_of(keys, key);
    let p = position_of(keys, key);
    let keys2 = keys.remove(p);
    let values2 = values.remove(p);
    assert forall|i: int| 0 <= i < keys2.len() implies keys2[i] == keys[if i < p {
        i
    } else {
        i + 1
    }] by {}
    assert forall|i: int, j: int| 0 <= i < j < keys2.len() implies keys2[i] != keys2[j] by {}
    let left = map_of(keys2, values2);
    let right = map_of(keys, values).remove(key);
    assert forall|k: Seq<char>| left.dom().contains(k) <==> right.dom().contains(k) by {
        if keys2.contains(k) {
            let i = choose|i: int| 0 <= i < keys2.len() && keys2[i] == k;
            let i0 = if i < p { i } else { i + 1 };
            assert(keys[i0] == k);
            assert(keys.contains(k));
        }
        if keys.contains(k) && k != key {
            let i = choose|i: int| 0 <= i < keys.len() && keys[i] == k;
            let i2 = if i < p { i } else { i - 1 };
            assert(keys2[i2] == k);
        }
    }
    assert forall|k: Seq<char>| #[trigger] left.dom().contains(k) implies left[k] == right[k] by {
        lemma_position_of(keys2, k);
        lemma_position_of(keys, k);
        let q2 = position_of(keys2, k);
        let q = position_of(keys, k);
        let q0 = if q2 < p { q2 } else { q2 + 1 };
        assert(keys[q0] == k);
        let qq = if q < p { q } else { q - 1 };
        assert(keys2[qq] == k);
        assert(q == q0);
    }
    assert(left =~= right);
}

impl<V> Table<V> {
    /// The keys, in insertion order.
    pub closed spec fn keys(&self) -> Seq<Seq<char>> {
        self.keys@.map_values(|k: String| k@)
    }

    /// The values, in the order of their keys.
    pub closed spec fn values(&self) -> Seq<V> {
        self.values@
    }

    /// Keys and values pair up, and no key occurs twice.
    pub open spec fn wf(&self) -> bool {
        &&& self.keys().len() == self.values().len()
        &&& distinct(self.keys())
    }

    /// Whether `key` names an entry.
    pub open spec fn has(&self, key: Seq<char>) -> bool {
        self.keys().contains(key)
    }

    /// The value that `key` names.
    pub open spec fn at(&self, key: Seq<char>) -> V
        recommends
            self.has(key),
    {
        self.values()[position_of(self.keys(), key)]
    }

    /// The table as a map from key to value.
    pub open spec fn as_map(&self) -> Map<Seq<char>, V> {
        map_of(self.keys(), self.values())
    }

    /// An empty table.
    pub fn new() -> (table: Self)
        ensures
            table.wf(),
            table.keys() == Seq::<Seq<char>>::empty(),
            table.values() == Seq::<V>::empty(),
    {
        let table = Table { keys: Vec::new(), values: Vec::new() };
        assert(table.keys() =~= Seq::<Seq<char>>::empty());
        table
    }

    /// The number of entries.
    pub fn len(&self) -> (n: usize)
        requires
            self.wf(),
        ensures
            n == self.keys().len(),
            n == self.values().len(),
    {
        self.values.len()
    }

    /// Where `key` stands, if it names an entry.
    pub fn find(&self, key: &str) -> (found: Option<usize>)
        requires
            self.wf(),
        ensures
            match found {
                Some(i) => i < self.keys().len() && i == position_of(self.keys(), key@),
                None => !self.has(key@),
            },
    {
        let mut i: usize = 0;
        proof {
            lemma_position_of(self.keys(), key@);
        }
        while i < self.keys.len()
            invariant
                i <= self.keys.len(),
                self.keys().len() == self.keys.len(),
                forall|j: int| 0 <= j < i ==> self.keys()[j] != key@,
                0 <= position_of(self.keys(), key@) <= self.keys().len(),
                position_of(self.keys(), key@) < self.keys().len() ==> self.keys()[position_of(
                    self.keys(),
                    key@,
                )] == key@,
                forall|j: int| 0 <= j < position_of(self.keys(), key@) ==> self.keys()[j] != key@,
                self.keys().contains(key@) <==> position_of(self.keys(), key@) < self.keys().len(),
            decreases self.keys.len() - i,
        {
            if same_text(self.keys[i].as_str(), key) {
                assert(self.keys()[i as int] == key@);
                return Some(i);
            }
            i += 1;
        }
        None
    }

    /// Whether `key` names an entry.
    pub fn contains_key(&self, key: &str) -> (present: bool)
        requires
            self.wf(),
        ensures
            present == self.has(key@),
    {
        proof {
            lemma_position_of(self.keys(), key@);
        }
        self.find(key).is_some()
    }

    /// The value under `key`, for reading.
    pub fn get(&self, key: &str) -> (found: Option<&V>)
        requires
            self.wf(),
        ensures
            match found {
                Some(value) => self.has(key@) && *value == self.at(key@),
                None => !self.has(key@),
            },
    {
        proof {
            lemma_position_of(self.keys(), key@);
        }
        match self.find(key) {
            Some(i) => Some(&self.values[i]),
            None => None,
        }
    }

    /// The value under `key`, for changing in place.
    pub fn get_mut(&mut self, key: &str) -> (found: Option<&mut V>)
        requires
            old(self).wf(),
        ensures
            final(self).wf(),
            final(self).keys() == old(self).keys(),
            match found {
                Some(value) => {
                    &&& old(self).has(key@)
                    &&& *value == old(self).at(key@)
                    &&& final(self).values() == old(self).values().update(
                        position_of(old(self).keys(), key@),
                        *final(value),
                    )
                    &&& final(self).as_map() == old(self).as_map().insert(key@, *final(value))
                },
                None => !old(self).has(key@) && final(self).values() == old(self).values(),
            },
    {
        proof {
            lemma_position_of(self.keys(), key@);
            let keys = self.keys();
            let values = self.values();
            if keys.contains(key@) {
                assert forall|v: V|
                    #[trigger] map_of(keys, values.update(position_of(keys, key@), v)) == map_of(
                        keys,
                        values,
                    ).insert(key@, v) by {
                    lemma_map_after_update(keys, values, key@, v);
                }
            }
        }
        match self.find(key) {
            Some(i) => Some(&mut self.values[i]),
            None => None,
        }
    }

    /// Puts `value` under `key`. An entry already under that key keeps its
    /// place, takes the new value and hands the old one back; otherwise the
    /// entry goes to the end.
    pub fn insert(&mut self, key: String, value: V) -> (previous: Option<V>)
        requires
            old(self).wf(),
        ensures
            final(self).wf(),
            final(self).as_map() == old(self).as_map().insert(key@, value),
            match previous {
                Some(p) => {
                    &&& old(self).has(key@)
                    &&& p == old(self).at(key@)
                    &&& final(self).keys() == old(self).keys()
                    &&& final(self).values() == old(self).values().update(
                        position_of(old(self).keys(), key@),
                        value,
                    )
                },
                None => {
                    &&& !old(self).has(key@)
                    &&& final(self).keys() == old(self).keys().push(key@)
                    &&& final(self).values() == old(self).values().push(value)
                },
            },
    {
        proof {
            lemma_position_of(self.keys(), key@);
        }
        let ghost before = *self;
        match self.find(key.as_str()) {
            Some(i) => {
                let previous = self.values.remove(i);
                self.values.insert(i, value);
                proof {
                    assert(self.values() =~= before.values().update(i as int, value));
                    assert(self.keys() == before.keys());
                    lemma_map_after_update(before.keys(), before.values(), key@, value);
                    assert(self.as_map() =~= before.as_map().insert(key@, value));
                }
                Some(previous)
            },
            None => {
                self.keys.push(key);
                self.values.push(value);
                proof {
                    assert(self.keys() =~= before.keys().push(key@));
                    lemma_map_after_push(before.keys(), before.values(), key@, value);
                    assert(self.as_map() =~= before.as_map().insert(key@, value));
                }
                None
            },
        }
    }

    /// Takes the entry under `key` out, if there is one; the entries behind
    /// it move up.
    pub fn remove(&mut self, key: &str) -> (removed: Option<V>)
        requires
            old(self).wf(),
        ensures
            final(self).wf(),
            final(self).as_map() == old(self).as_map().remove(key@),
            match removed {
                Some(value) => {
                    &&& old(self).has(key@)
                    &&& value == old(self).at(key@)
                    &&& final(self).keys() == old(self).keys().remove(
                        position_of(old(self).keys(), key@),
                    )
                    &&& final(self).values() == old(self).values().remove(
                        position_of(old(self).keys(), key@),
                    )
                },
                None => !old(self).has(key@) && *final(self) == *old(self),
            },
    {
        proof {
            lemma_position_of(self.keys(), key@);
        }
        let ghost before = *self;
        match self.find(key) {
            Some(i) => {
                self.keys.remove(i);
                let value = self.values.remove(i);
                proof {
                    assert(self.keys() =~= before.keys().remove(i as int));
                    lemma_map_after_remove(before.keys(), before.values(), key@);
                    assert(self.as_map() =~= before.as_map().remove(key@));
                }
                Some(value)
            },
            None => {
                assert(self.as_map() =~= before.as_map().remove(key@));
                None
            },
        }
    }

    /// Takes the newest entry out, if there is one.
    pub fn pop(&mut self) -> (last: Option<(String, V)>)
        requires
            old(self).wf(),
        ensures
            final(self).wf(),
            match last {
                Some((key, value)) => {
                    &&& old(self).keys().len() > 0
                    &&& key@ == old(self).keys().last()
                    &&& value == old(self).values().last()
                    &&& final(self).keys() == old(self).keys().drop_last()
                    &&& final(self).values() == old(self).values().drop_last()
                },
                None => old(self).keys().len() == 0 && *final(self) == *old(self),
            },
    {
        if self.keys.len() == 0 {
            return None;
        }
        let ghost before = *self;
        let key = self.keys.pop().unwrap();
        let value = self.values.pop().unwrap();
        proof {
            assert(self.keys() =~= before.keys().drop_last());
            assert(key@ == before.keys()[before.keys().len() - 1]);
        }
        Some((key, value))
    }
}

} // verus!
