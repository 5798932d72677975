//! A map from texts to values that keeps its entries in the order in which
//! their keys came, and no key twice.

use crate::text::text_eq;
use vstd::prelude::*;
use vstd::string::*;

verus! {

/// The position of the first entry at or after `from` whose key is `key`,
/// or the number of entries where there is none.
pub open spec fn key_position<V>(entries: Seq<(Seq<char>, V)>, key: Seq<char>, from: int) -> int
    decreases entries.len() - from,
{
    if from < 0 || from >= entries.len() {
        entries.len() as int
    } else if entries[from].0 == key {
        from
    } else {
        key_position(entries, key, from + 1)
    }
}

/// Whether an entry has the key `key`.
pub open spec fn has_key<V>(entries: Seq<(Seq<char>, V)>, key: Seq<char>) -> bool {
    exists|i: int| 0 <= i < entries.len() && (#[trigger] entries[i]).0 == key
}

/// Whether no key occurs twice.
pub open spec fn distinct_keys<V>(entries: Seq<(Seq<char>, V)>) -> bool {
    forall|i: int, j: int|
        0 <= i < j < entries.len() ==> (#[trigger] entries[i]).0 != (#[trigger] entries[j]).0
}

/// The entries after `value` was put under `key`: in the place of the
/// entry with that key, or at the end where there was none.
pub open spec fn put<V>(entries: Seq<(Seq<char>, V)>, key: Seq<char>, value: V) -> Seq<
    (Seq<char>, V),
> {
    let at = key_position(entries, key, 0);
    if at < entries.len() {
        entries.update(at, (key, value))
    } else {
        entries.push((key, value))
    }
}

/// The value under `key`, if there is one.
pub open spec fn value_of<V>(entries: Seq<(Seq<char>, V)>, key: Seq<char>) -> Option<V> {
    let at = key_position(entries, key, 0);
    if at < entries.len() {
        Some(entries[at].1)
    } else {
        None
    }
}

/// The search for a key ends on an entry with the key, or behind the last
/// entry, and passes over no entry with the key.
pub proof fn lemma_key_position<V>(entries: Seq<(Seq<char>, V)>, key: Seq<char>, from: int)
    requires
        0 <= from <= entries.len(),
    ensures
        from <= key_position(entries, key, from) <= entries.len(),
        key_position(entries, key, from) < entries.len() ==> entries[key_position(
            entries,
            key,
            from,
        )].0 == key,
        forall|k: int| from <= k < key_position(entries, key, from) ==> entries[k].0 != key,
    decreases entries.len() - from,
{
    if from < entries.len() && entries[from].0 != key {
        lemma_key_position(entries, key, from + 1);
    }
}

/// A key is found exactly where an entry has it.
pub proof fn lemma_has_key<V>(entries: Seq<(Seq<char>, V)>, key: Seq<char>)
    ensures
        has_key(entries, key) <==> key_position(entries, key, 0) < entries.len(),
{
    lemma_key_position(entries, key, 0);
}

/// Putting a value under a key keeps every key single.
pub proof fn lemma_put_distinct<V>(entries: Seq<(Seq<char>, V)>, key: Seq<char>, value: V)
    requires
        distinct_keys(entries),
    ensures
        distinct_keys(put(entries, key, value)),
        value_of(put(entries, key, value), key) == Some(value),
        has_key(put(entries, key, value), key),
{
    lemma_key_position(entries, key, 0);
    let after = put(entries, key, value);
    lemma_key_position(after, key, 0);
    let at = key_position(entries, key, 0);
    assert(after[at].0 == key);
    assert forall|i: int, j: int| 0 <= i < j < after.len() implies (#[trigger] after[i]).0 != (
    #[trigger] after[j]).0 by {
        if at < entries.len() {
            assert(entries[i].0 != entries[j].0);
        } else if j < entries.len() {
            assert(entries[i].0 != entries[j].0);
        }
    }
}

/// A map from texts to values. No key occurs twice, and the entries keep
/// the order in which their keys were first put. Two maps are equal where
/// they hold the same entries in the same order.
#[derive(Debug, PartialEq)]
pub struct TextMap<V> {
    entries: Vec<(String, V)>,
}

impl<V> View for TextMap<V> {
    type V = Seq<(Seq<char>, V)>;

    closed spec fn view(&self) -> Seq<(Seq<char>, V)> {
        Seq::new(self.entries@.len(), |i: int| (self.entries@[i].0@, self.entries@[i].1))
    }
}

impl<V: DeepView> DeepView for TextMap<V> {
    type V = Seq<(Seq<char>, V::V)>;

    open spec fn deep_view(&self) -> Seq<(Seq<char>, V::V)> {
        Seq::new(self@.len(), |i: int| (self@[i].0, self@[i].1.deep_view()))
    }
}

impl<V> Default for TextMap<V> {
    fn default() -> (map: Self)
        ensures
            map@ == Seq::<(Seq<char>, V)>::empty(),
    {
        TextMap::new()
    }
}

impl<V> TextMap<V> {
    #[verifier::type_invariant]
    spec fn well_formed(self) -> bool {
        distinct_keys(self@)
    }

    /// The keys, in the order of the entries.
    pub open spec fn keys(&self) -> Seq<Seq<char>> {
        Seq::new(self@.len(), |i: int| self@[i].0)
    }

    /// The keys, as a set.
    pub open spec fn key_set(&self) -> Set<Seq<char>> {
        Set::new(|key: Seq<char>| has_key(self@, key))
    }

    /// A map without entries.
    pub fn new() -> (map: Self)
        ensures
            map@ == Seq::<(Seq<char>, V)>::empty(),
    {
        let map = TextMap { entries: Vec::new() };
        assert(map@ =~= Seq::<(Seq<char>, V)>::empty());
        map
    }

    /// The number of entries.
    pub fn len(&self) -> (n: usize)
        ensures
            n == self@.len(),
    {
        self.entries.len()
    }

    /// Whether the map is without entries.
    pub fn is_empty(&self) -> (empty: bool)
        ensures
            empty == (self@.len() == 0),
    {
        self.entries.len() == 0
    }

    /// The entries, in their order. No key occurs twice among them.
    pub fn entries(&self) -> (entries: &Vec<(String, V)>)
        ensures
            entries@.len() == self@.len(),
            forall|i: int|
                0 <= i < entries@.len() ==> (#[trigger] entries@[i]).0@ == self@[i].0
                    && entries@[i].1 == self@[i].1,
            distinct_keys(self@),
    {
        proof {
            use_type_invariant(self);
        }
        &self.entries
    }

    /// Ends the map and hands out its entries, in their order.
    pub fn into_entries(self) -> (entries: Vec<(String, V)>)
        ensures
            entries@.len() == self@.len(),
            forall|i: int|
                0 <= i < entries@.len() ==> (#[trigger] entries@[i]).0@ == self@[i].0
                    && entries@[i].1 == self@[i].1,
            distinct_keys(self@),
    {
        proof {
            use_type_invariant(&self);
        }
        self.entries
    }

    /// The position of the entry with the key `key`.
    fn position(&self, key: &str) -> (at: usize)
        ensures
            at == key_position(self@, key@, 0),
            at <= self@.len(),
            at < self@.len() ==> self@[at as int].0 == key@,
            at < self@.len() <==> has_key(self@, key@),
    {
        proof {
            lemma_has_key(self@, key@);
            lemma_key_position(self@, key@, 0);
        }
        let n = self.entries.len();
        let mut i: usize = 0;
        while i < n
            invariant
                i <= n,
                n == self.entries@.len(),
                n == self@.len(),
                key_position(self@, key@, 0) == key_position(self@, key@, i as int),
            decreases n - i,
        {
            if text_eq(self.entries[i].0.as_str(), key) {
                return i;
            }
            i += 1;
        }
        i
    }

    /// Whether an entry has the key `key`.
    pub fn contains_key(&self, key: &str) -> (found: bool)
        ensures
            found == has_key(self@, key@),
            found == self.key_set().contains(key@),
    {
        self.position(key) < self.entries.len()
    }

    /// The value under `key`, if there is one.
    pub fn get(&self, key: &str) -> (value: Option<&V>)
        ensures
            value == match value_of(self@, key@) {
                Some(v) => Some(&v),
                None => None,
            },
    {
        let at = self.position(key);
        if at < self.entries.len() {
            Some(&self.entries[at].1)
        } else {
            None
        }
    }

    /// Puts `value` under `key`: in the place of the value that was under
    /// that key, which is handed back, or at the end where there was none.
    pub fn insert(&mut self, key: String, value: V) -> (before: Option<V>)
        ensures
            final(self)@ == put(old(self)@, key@, value),
            before == value_of(old(self)@, key@),
    {
        proof {
            use_type_invariant(&*self);
            lemma_put_distinct(self@, key@, value);
        }
        let at = self.position(key.as_str());
        let mut entries: Vec<(String, V)> = Vec::new();
        std::mem::swap(&mut self.entries, &mut entries);
        let before = if at < entries.len() {
            let (_, was) = entries.remove(at);
            entries.insert(at, (key, value));
            Some(was)
        } else {
            entries.push((key, value));
            None
        };
        let ghost after = Seq::new(entries@.len(), |i: int| (entries@[i].0@, entries@[i].1));
        assert(after =~= put(old(self)@, key@, value));
        std::mem::swap(&mut self.entries, &mut entries);
        assert(self@ =~= after);
        before
    }
}

/// The entries after each of `more` was put, one after the other.
pub open spec fn put_all<V>(entries: Seq<(Seq<char>, V)>, more: Seq<(Seq<char>, V)>) -> Seq<
    (Seq<char>, V),
>
    decreases more.len(),
{
    if more.len() == 0 {
        entries
    } else {
        put(put_all(entries, more.drop_last()), more.last().0, more.last().1)
    }
}

impl<V> TextMap<V> {
    /// The map that results from putting each of `entries`, one after the
    /// other: of two values under one key the later one stays.
    pub fn from_entries(entries: Vec<(String, V)>) -> (map: Self)
        ensures
            map@ == put_all(
                Seq::empty(),
                Seq::new(entries@.len(), |i: int| (entries@[i].0@, entries@[i].1)),
            ),
    {
        let ghost all = Seq::new(entries@.len(), |i: int| (entries@[i].0@, entries@[i].1));
        let mut map: TextMap<V> = TextMap::new();
        let mut rest = entries;
        let mut done: usize = 0;
        let n = rest.len();
        assert(all.take(0) =~= Seq::empty());
        while rest.len() > 0
            invariant
                done + rest@.len() == n,
                n == all.len(),
                forall|i: int|
                    0 <= i < rest@.len() ==> (#[trigger] rest@[i]).0@ == all[done + i].0
                        && rest@[i].1 == all[done + i].1,
                map@ == put_all(Seq::empty(), all.take(done as int)),
            decreases rest@.len(),
        {
            proof {
                assert(all.take(done + 1).drop_last() =~= all.take(done as int));
                assert(all.take(done + 1).last() == all[done as int]);
            }
            let (key, value) = rest.remove(0);
            map.insert(key, value);
            done += 1;
        }
        assert(all.take(n as int) =~= all);
        map
    }

    /// A map with the keys of this one, in their order, and with
    /// `values` in the place of its values.
    pub fn with_values<W>(&self, values: Vec<W>) -> (map: TextMap<W>)
        requires
            values@.len() == self@.len(),
        ensures
            map@.len() == self@.len(),
            forall|i: int|
                0 <= i < self@.len() ==> (#[trigger] map@[i]).0 == self@[i].0 && map@[i].1
                    == values@[i],
    {
        proof {
            use_type_invariant(self);
        }
        let mut entries: Vec<(String, W)> = Vec::new();
        let mut rest = values;
        let n = self.entries.len();
        let mut i: usize = 0;
        while i < n
            invariant
                i <= n,
                n == self.entries@.len(),
                n == self@.len(),
                i + rest@.len() == n,
                entries@.len() == i,
                forall|k: int| 0 <= k < rest@.len() ==> #[trigger] rest@[k] == values@[i + k],
                forall|k: int|
                    0 <= k < i ==> (#[trigger] entries@[k]).0@ == self@[k].0 && entries@[k].1
                        == values@[k],
            decreases n - i,
        {
            let value = rest.remove(0);
            entries.push((self.entries[i].0.clone(), value));
            i += 1;
        }
        let map = TextMap { entries };
        assert forall|a: int, b: int| 0 <= a < b < map@.len() implies (#[trigger] map@[a]).0 != (
        #[trigger] map@[b]).0 by {
            assert(self@[a].0 != self@[b].0);
        }
        map
    }
}

impl<V: Clone> Clone for TextMap<V> {
    /// A map with the same keys in the same order, each with a clone of
    /// its value.
    fn clone(&self) -> (copy: Self)
        ensures
            copy@.len() == self@.len(),
            forall|i: int|
                0 <= i < self@.len() ==> (#[trigger] copy@[i]).0 == self@[i].0 && cloned(
                    self@[i].1,
                    copy@[i].1,
                ),
    {
        let mut values: Vec<V> = Vec::new();
        let n = self.entries.len();
        let mut i: usize = 0;
        while i < n
            invariant
                i <= n,
                n == self.entries@.len(),
                n == self@.len(),
                values@.len() == i,
                forall|k: int| 0 <= k < i ==> cloned(self@[k].1, #[trigger] values@[k]),
            decreases n - i,
        {
            values.push(self.entries[i].1.clone());
            i += 1;
        }
        self.with_values(values)
    }
}

} // verus!
