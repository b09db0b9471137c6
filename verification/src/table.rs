//! A small table from keys to values.

use vstd::prelude::*;

verus! {

/// What a table can be keyed by.
pub trait Key: Copy {
    /// Whether two keys are the same.
    fn same(self, other: Self) -> (r: bool)
        ensures
            r == (self == other),
    ;
}

/// Keys, none of them twice.
struct Keys<K> {
    list: Vec<K>,
}

impl<K> Keys<K> {
    #[verifier::type_invariant]
    spec fn inv(self) -> bool {
        self.list@.no_duplicates()
    }

    /// Keep the first `n` keys.
    fn truncate(&mut self, n: usize)
        ensures
            final(self).list@ == if n <= old(self).list@.len() {
                old(self).list@.take(n as int)
            } else {
                old(self).list@
            },
    {
        proof {
            use_type_invariant(&*self);
        }
        let mut list: Vec<K> = Vec::new();
        core::mem::swap(&mut self.list, &mut list);
        let ghost before = list@;
        list.truncate(n);
        assert(list@ =~= if n <= before.len() {
            before.take(n as int)
        } else {
            before
        });
        self.list = list;
    }

    /// Add a key that is not among them.
    fn push(&mut self, key: K)
        requires
            !old(self).list@.contains(key),
        ensures
            final(self).list@ == old(self).list@.push(key),
    {
        proof {
            use_type_invariant(&*self);
        }
        let mut list: Vec<K> = Vec::new();
        core::mem::swap(&mut self.list, &mut list);
        list.push(key);
        self.list = list;
    }
}

/// A table that holds at most one value for each key: the first key has the
/// first value, and so on, as far as there are both.
pub struct Table<K, V> {
    keys: Keys<K>,
    values: Vec<V>,
}

/// Keys and values in pairs, as far as there are both.
spec fn paired<K, V>(keys: Seq<K>, values: Seq<V>) -> Seq<(K, V)> {
    Seq::new(
        if keys.len() < values.len() {
            keys.len()
        } else {
            values.len()
        },
        |i: int| (keys[i], values[i]),
    )
}

/// Whether no key occurs twice.
spec fn distinct<K, V>(entries: Seq<(K, V)>) -> bool {
    forall|i: int, j: int|
        0 <= i < j < entries.len() ==> (#[trigger] entries[i]).0 != (#[trigger] entries[j]).0
}

/// Whether entry `i` is the one of `key`.
spec fn is_entry<K, V>(entries: Seq<(K, V)>, i: int, key: K) -> bool {
    0 <= i < entries.len() && entries[i].0 == key
}

/// Whether some entry is the one of `key`.
spec fn has_entry<K, V>(entries: Seq<(K, V)>, key: K) -> bool {
    exists|i: int| is_entry(entries, i, key)
}

/// What a list of entries maps.
spec fn as_map<K, V>(entries: Seq<(K, V)>) -> Map<K, V> {
    Map::new(
        |key: K| has_entry(entries, key),
        |key: K| entries[choose|i: int| is_entry(entries, i, key)].1,
    )
}

/// The entry of a key is the only one.
proof fn lemma_entry<K, V>(entries: Seq<(K, V)>, i: int)
    requires
        distinct(entries),
        0 <= i < entries.len(),
    ensures
        as_map(entries).contains_key(entries[i].0),
        as_map(entries)[entries[i].0] == entries[i].1,
{
    let key = entries[i].0;
    assert(is_entry(entries, i, key));
    let chosen = choose|j: int| is_entry(entries, j, key);
    assert(is_entry(entries, chosen, key));
    if chosen < i {
        assert(entries[chosen].0 != entries[i].0);
    } else if i < chosen {
        assert(entries[i].0 != entries[chosen].0);
    }
}

impl<K, V> View for Table<K, V> {
    type V = Map<K, V>;

    closed spec fn view(&self) -> Map<K, V> {
        as_map(self.entries())
    }
}

impl<K, V> Table<K, V> {
    /// The keys that have a value, each with its value.
    spec fn entries(self) -> Seq<(K, V)> {
        paired(self.keys.list@, self.values@)
    }
}

impl<K: Key, V> Table<K, V> {
    /// Whether the table is as every function here leaves it: no key twice.
    pub closed spec fn wf(self) -> bool {
        distinct(self.entries())
    }

    /// The keys, in the order in which they came in.
    pub closed spec fn keys(self) -> Seq<K> {
        self.entries().map_values(|e: (K, V)| e.0)
    }

    /// No table has a key twice.
    fn check_keys(&self)
        ensures
            self.wf(),
    {
        let keys: &Keys<K> = &self.keys;
        proof {
            use_type_invariant(keys);
        }
    }

    /// The keys are exactly the map's, each once.
    pub proof fn law_keys(self)
        requires
            self.wf(),
        ensures
            self.keys().no_duplicates(),
            forall|k: K| self@.contains_key(k) <==> #[trigger] self.keys().contains(k),
    {
        let entries = self.entries();
        assert forall|i: int, j: int|
            0 <= i < self.keys().len() && 0 <= j < self.keys().len() && i
                != j implies self.keys()[i] != self.keys()[j] by {
            if i < j {
                assert(entries[i].0 != entries[j].0);
            } else {
                assert(entries[j].0 != entries[i].0);
            }
        }
        assert forall|k: K| self@.contains_key(k) <==> #[trigger] self.keys().contains(k) by {
            if self@.contains_key(k) {
                let i = choose|i: int| is_entry(entries, i, k);
                assert(self.keys()[i] == k);
            }
            if self.keys().contains(k) {
                let i = choose|i: int| 0 <= i < self.keys().len() && self.keys()[i] == k;
                lemma_entry(entries, i);
            }
        }
    }

    pub fn new() -> (r: Self)
        ensures
            r.wf(),
            r@ == Map::<K, V>::empty(),
            r.keys().len() == 0,
    {
        let r = Table { keys: Keys { list: Vec::new() }, values: Vec::new() };
        assert(r@ =~= Map::<K, V>::empty()) by {
            assert forall|key: K| !has_entry(r.entries(), key) by {}
        }
        r
    }

    /// How many keys have a value.
    pub fn len(&self) -> (r: usize)
        ensures
            r == self.keys().len(),
            self.wf(),
    {
        self.check_keys();
        if self.keys.list.len() < self.values.len() {
            self.keys.list.len()
        } else {
            self.values.len()
        }
    }

    /// Whether no key has a value.
    pub fn is_empty(&self) -> (r: bool)
        ensures
            r == (self@ == Map::<K, V>::empty()),
    {
        if self.len() == 0 {
            assert(self@ =~= Map::<K, V>::empty()) by {
                assert forall|key: K| !has_entry(self.entries(), key) by {}
            }
            true
        } else {
            proof {
                lemma_entry(self.entries(), 0);
                assert(!Map::<K, V>::empty().contains_key(self.entries()[0].0));
            }
            false
        }
    }

    /// The `i`-th key.
    pub fn key_at(&self, i: usize) -> (r: K)
        requires
            i < self.keys().len(),
        ensures
            r == self.keys()[i as int],
    {
        self.keys.list[i]
    }

    /// The value of the `i`-th key.
    pub fn value_at(&self, i: usize) -> (r: &V)
        requires
            i < self.keys().len(),
        ensures
            self@.contains_key(self.keys()[i as int]),
            *r == self@[self.keys()[i as int]],
    {
        self.check_keys();
        proof {
            lemma_entry(self.entries(), i as int);
        }
        &self.values[i]
    }

    /// Where the entry of `key` is.
    fn find(&self, key: K) -> (r: Option<usize>)
        ensures
            self.wf(),
            match r {
                Some(i) => {
                    &&& i < self.entries().len()
                    &&& self.entries()[i as int].0 == key
                    &&& self@.contains_key(key)
                    &&& self@[key] == self.entries()[i as int].1
                },
                None => !self@.contains_key(key) && forall|i: int|
                    0 <= i < self.entries().len() ==> (#[trigger] self.entries()[i]).0 != key,
            },
    {
        let n: usize = self.len();
        let mut i: usize = 0;
        while i < n
            invariant
                self.wf(),
                n == self.entries().len(),
                i <= n,
                forall|k: int| 0 <= k < i ==> (#[trigger] self.entries()[k]).0 != key,
            decreases n - i,
        {
            if self.keys.list[i].same(key) {
                proof {
                    lemma_entry(self.entries(), i as int);
                }
                return Some(i);
            }
            i = i + 1;
        }
        assert(!has_entry(self.entries(), key));
        None
    }

    /// The value of `key`, if it has one.
    pub fn get(&self, key: K) -> (r: Option<&V>)
        ensures
            r is Some <==> self@.contains_key(key),
            r matches Some(v) ==> *v == self@[key],
    {
        match self.find(key) {
            Some(i) => Some(&self.values[i]),
            None => None,
        }
    }

    /// Whether `key` has a value.
    pub fn contains_key(&self, key: K) -> (r: bool)
        ensures
            r == self@.contains_key(key),
    {
        match self.find(key) {
            Some(_) => true,
            None => false,
        }
    }

    /// Add a value for a key that has none, and say where it is.
    fn add_entry(&mut self, key: K, value: V) -> (r: usize)
        requires
            !old(self)@.contains_key(key),
        ensures
            final(self).wf(),
            final(self).entries() == old(self).entries().push((key, value)),
            final(self)@ == old(self)@.insert(key, value),
            r < final(self).entries().len(),
            final(self).entries()[r as int] == (key, value),
    {
        let n: usize = self.len();
        let ghost before = self.entries();
        assert forall|i: int| 0 <= i < n implies self.keys.list@[i] != key by {
            assert(before[i].0 == self.keys.list@[i]);
            assert(is_entry(before, i, before[i].0));
        }
        self.keys.truncate(n);
        self.values.truncate(n);
        self.keys.push(key);
        self.values.push(value);
        proof {
            assert(self.entries() =~= before.push((key, value)));
            lemma_pushed_map(before, key, value);
        }
        self.check_keys();
        n
    }

    /// Give `key` the value `value`, in place of any it had.
    pub fn insert(&mut self, key: K, value: V)
        ensures
            final(self)@ == old(self)@.insert(key, value),
            final(self).keys() == if old(self)@.contains_key(key) {
                old(self).keys()
            } else {
                old(self).keys().push(key)
            },
    {
        let ghost before = self.entries();
        match self.find(key) {
            Some(i) => {
                self.values.set(i, value);
                proof {
                    lemma_same_map_after(before, self.entries(), i as int);
                }
                assert(self.keys() =~= old(self).keys());
            },
            None => {
                let _ = self.add_entry(key, value);
                assert(self.keys() =~= old(self).keys().push(key));
            },
        }
    }

    /// The value of `key`, to write to; `value` is its value where it had none.
    pub fn get_mut_or(&mut self, key: K, value: V) -> (r: &mut V)
        ensures
            *r == if old(self)@.contains_key(key) {
                old(self)@[key]
            } else {
                value
            },
            final(self)@ == old(self)@.insert(key, *final(r)),
    {
        let found: Option<usize> = self.find(key);
        let i: usize = match found {
            Some(i) => i,
            None => self.add_entry(key, value),
        };
        proof {
            let keys = self.keys.list@;
            let values = self.values@;
            let before = self.entries();
            assert(before[i as int] == (keys[i as int], values[i as int]));
            lemma_entry(before, i as int);
            assert forall|written: V| #[trigger]
                as_map(paired(keys, values.update(i as int, written))) == old(self)@.insert(
                    key,
                    written,
                ) by {
                let after = paired(keys, values.update(i as int, written));
                lemma_same_map_after(before, after, i as int);
                assert(self@.insert(key, written) =~= old(self)@.insert(key, written));
            }
        }
        &mut self.values[i]
    }
}

/// Replacing the value of one entry replaces it in the map.
proof fn lemma_same_map_after<K, V>(before: Seq<(K, V)>, after: Seq<(K, V)>, i: int)
    requires
        distinct(before),
        0 <= i < before.len(),
        after.len() == before.len(),
        after[i].0 == before[i].0,
        forall|k: int| 0 <= k < before.len() && k != i ==> #[trigger] after[k] == before[k],
    ensures
        as_map(after) == as_map(before).insert(after[i].0, after[i].1),
{
    assert(distinct(after)) by {
        assert forall|p: int, q: int| 0 <= p < q < after.len() implies (#[trigger] after[p]).0 != (
        #[trigger] after[q]).0 by {
            assert(before[p].0 != before[q].0);
        }
    }
    let expected = as_map(before).insert(after[i].0, after[i].1);
    assert forall|key: K| as_map(after).contains_key(key) <==> #[trigger] expected.contains_key(
        key,
    ) by {
        if has_entry(after, key) {
            let j = choose|j: int| is_entry(after, j, key);
            assert(is_entry(before, j, key));
        }
        if has_entry(before, key) {
            let j = choose|j: int| is_entry(before, j, key);
            assert(is_entry(after, j, key));
        }
        assert(is_entry(after, i, after[i].0));
    }
    assert forall|key: K| as_map(after).contains_key(key) implies as_map(after)[key]
        == expected[key] by {
        let j = choose|j: int| is_entry(after, j, key);
        lemma_entry(after, j);
        lemma_entry(before, j);
    }
    assert(as_map(after) =~= expected);
}

/// Adding an entry for a new key adds it to the map.
proof fn lemma_pushed_map<K, V>(before: Seq<(K, V)>, key: K, value: V)
    requires
        distinct(before),
        !has_entry(before, key),
    ensures
        as_map(before.push((key, value))) == as_map(before).insert(key, value),
{
    let after = before.push((key, value));
    let n = before.len() as int;
    assert(distinct(after)) by {
        assert forall|p: int, q: int| 0 <= p < q < after.len() implies (#[trigger] after[p]).0 != (
        #[trigger] after[q]).0 by {
            if q == n {
                if before[p].0 == key {
                    assert(is_entry(before, p, key));
                }
            } else {
                assert(before[p].0 != before[q].0);
            }
        }
    }
    let expected = as_map(before).insert(key, value);
    assert(is_entry(after, n, key));
    assert forall|k: K| as_map(after).contains_key(k) <==> #[trigger] expected.contains_key(k) by {
        if has_entry(after, k) {
            let j = choose|j: int| is_entry(after, j, k);
            if j < n {
                assert(is_entry(before, j, k));
            }
        }
        if has_entry(before, k) {
            let j = choose|j: int| is_entry(before, j, k);
            assert(is_entry(after, j, k));
        }
    }
    assert forall|k: K| as_map(after).contains_key(k) implies as_map(after)[k] == expected[k] by {
        let j = choose|j: int| is_entry(after, j, k);
        lemma_entry(after, j);
        if j < n {
            lemma_entry(before, j);
            assert(is_entry(before, j, k));
        }
    }
    assert(as_map(after) =~= expected);
}

} // verus!
