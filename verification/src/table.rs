use vstd::prelude::*;
use crate::principal::Principal;

verus! {

/// A value that can serve as the key of a [`Table`]: two keys can be compared
/// for equality in executable code.
pub(crate) trait Key: Sized {
    /// Whether `self` and `other` are the same key.
    fn same(&self, other: &Self) -> (b: bool)
        ensures
            b == (*self == *other),
    ;
}

impl Key for u64 {
    fn same(&self, other: &u64) -> (b: bool) {
        *self == *other
    }
}

impl Key for Principal {
    fn same(&self, other: &Principal) -> (b: bool) {
        Principal::same(self, other)
    }
}

impl Key for (u64, Principal) {
    fn same(&self, other: &(u64, Principal)) -> (b: bool) {
        self.0 == other.0 && Principal::same(&self.1, &other.1)
    }
}

impl Key for (Principal, Principal) {
    fn same(&self, other: &(Principal, Principal)) -> (b: bool) {
        Principal::same(&self.0, &other.0) && Principal::same(&self.1, &other.1)
    }
}

/// A keyed store in which no key occurs twice: the durable key-value store of
/// one contract instance, restricted to one sort of key.
///
/// Its view is the finite map from the keys it holds to their values.
pub(crate) struct Table<K, V> {
    entries: Vec<(K, V)>,
}

/// Whether no two positions of `entries` hold the same key.
spec fn distinct_keys<K, V>(entries: Seq<(K, V)>) -> bool {
    forall|i: int, j: int| 0 <= i < j < entries.len() ==> entries[i].0 != entries[j].0
}

/// The map that a sequence of entries with distinct keys stands for.
spec fn entries_map<K, V>(entries: Seq<(K, V)>) -> Map<K, V> {
    Map::new(
        |k: K| exists|i: int| 0 <= i < entries.len() && #[trigger] entries[i].0 == k,
        |k: K| entries[choose|i: int| 0 <= i < entries.len() && #[trigger] entries[i].0 == k].1,
    )
}

/// With distinct keys, the entry at a position is what the map holds for that
/// position's key.
proof fn lemma_entry_in_map<K, V>(entries: Seq<(K, V)>, i: int)
    requires
        distinct_keys(entries),
        0 <= i < entries.len(),
    ensures
        entries_map(entries).contains_key(entries[i].0),
        entries_map(entries)[entries[i].0] == entries[i].1,
{
    let k = entries[i].0;
    let c = choose|c: int| 0 <= c < entries.len() && #[trigger] entries[c].0 == k;
    assert(entries[i].0 == k);
    assert(c == i);
}

/// Appending an entry under a fresh key inserts it into the map.
proof fn lemma_push_inserts<K, V>(entries: Seq<(K, V)>, key: K, value: V)
    requires
        distinct_keys(entries),
        !entries_map(entries).contains_key(key),
    ensures
        distinct_keys(entries.push((key, value))),
        entries_map(entries.push((key, value))) == entries_map(entries).insert(key, value),
{
    let after = entries.push((key, value));
    assert forall|i: int, j: int| 0 <= i < j < after.len() implies after[i].0 != after[j].0 by {
        if j == entries.len() {
            assert(entries[i].0 == after[i].0);
        }
    }
    assert forall|k: K| entries_map(after).contains_key(k) <==> entries_map(entries).insert(
        key,
        value,
    ).contains_key(k) by {
        if entries_map(after).contains_key(k) {
            let i = choose|i: int| 0 <= i < after.len() && #[trigger] after[i].0 == k;
            if i < entries.len() {
                assert(entries[i].0 == k);
            }
        }
        if entries_map(entries).contains_key(k) {
            let i = choose|i: int| 0 <= i < entries.len() && #[trigger] entries[i].0 == k;
            assert(after[i].0 == k);
        }
        if k == key {
            assert(after[entries.len() as int].0 == k);
        }
    }
    assert forall|k: K| entries_map(after).contains_key(k) implies entries_map(after)[k]
        == entries_map(entries).insert(key, value)[k] by {
        let i = choose|i: int| 0 <= i < after.len() && #[trigger] after[i].0 == k;
        lemma_entry_in_map(after, i);
        if i < entries.len() {
            assert(entries[i].0 == k);
            lemma_entry_in_map(entries, i);
        }
    }
    assert(entries_map(after) =~= entries_map(entries).insert(key, value));
}

/// Replacing the value at the position of a key updates the map at that key.
proof fn lemma_update_inserts<K, V>(entries: Seq<(K, V)>, i: int, value: V)
    requires
        distinct_keys(entries),
        0 <= i < entries.len(),
    ensures
        distinct_keys(entries.update(i, (entries[i].0, value))),
        entries_map(entries.update(i, (entries[i].0, value))) == entries_map(entries).insert(
            entries[i].0,
            value,
        ),
{
    let key = entries[i].0;
    let after = entries.update(i, (key, value));
    assert forall|a: int| 0 <= a < after.len() implies #[trigger] after[a].0 == entries[a].0 by {}
    assert forall|k: K| entries_map(after).contains_key(k) <==> entries_map(entries).insert(
        key,
        value,
    ).contains_key(k) by {
        if entries_map(after).contains_key(k) {
            let c = choose|c: int| 0 <= c < after.len() && #[trigger] after[c].0 == k;
            assert(entries[c].0 == k);
        }
        if entries_map(entries).contains_key(k) {
            let c = choose|c: int| 0 <= c < entries.len() && #[trigger] entries[c].0 == k;
            assert(after[c].0 == k);
        }
        if k == key {
            assert(after[i].0 == k);
        }
    }
    assert forall|k: K| entries_map(after).contains_key(k) implies entries_map(after)[k]
        == entries_map(entries).insert(key, value)[k] by {
        let c = choose|c: int| 0 <= c < after.len() && #[trigger] after[c].0 == k;
        lemma_entry_in_map(after, c);
        if c != i {
            assert(entries[c].0 == k);
            lemma_entry_in_map(entries, c);
        }
    }
    assert(entries_map(after) =~= entries_map(entries).insert(key, value));
}

/// Moving the last entry into a position and dropping the last position
/// removes that position's key from the map.
proof fn lemma_swap_remove_removes<K, V>(entries: Seq<(K, V)>, i: int)
    requires
        distinct_keys(entries),
        0 <= i < entries.len(),
    ensures
        distinct_keys(entries.update(i, entries.last()).drop_last()),
        entries_map(entries.update(i, entries.last()).drop_last()) == entries_map(entries).remove(
            entries[i].0,
        ),
{
    let key = entries[i].0;
    let last = entries.len() - 1;
    let after = entries.update(i, entries.last()).drop_last();
    assert forall|a: int| 0 <= a < after.len() implies #[trigger] after[a] == (if a == i {
        entries[last]
    } else {
        entries[a]
    }) by {}
    assert forall|a: int, b: int| 0 <= a < b < after.len() implies after[a].0 != after[b].0 by {
        if a == i {
            assert(entries[b].0 != entries[last].0);
        } else if b == i {
            assert(entries[a].0 != entries[last].0);
        }
    }
    assert forall|k: K| entries_map(after).contains_key(k) <==> entries_map(entries).remove(
        key,
    ).contains_key(k) by {
        if entries_map(after).contains_key(k) {
            let c = choose|c: int| 0 <= c < after.len() && #[trigger] after[c].0 == k;
            if c == i {
                assert(entries[last].0 == k);
                assert(entries[i].0 != entries[last].0);
            } else {
                assert(entries[c].0 == k);
                if c < i {
                    assert(entries[c].0 != entries[i].0);
                } else {
                    assert(entries[i].0 != entries[c].0);
                }
            }
        }
        if entries_map(entries).remove(key).contains_key(k) {
            let c = choose|c: int| 0 <= c < entries.len() && #[trigger] entries[c].0 == k;
            if c == last {
                assert(after[i].0 == k);
            } else {
                assert(after[c].0 == k);
            }
        }
    }
    assert forall|k: K| entries_map(after).contains_key(k) implies entries_map(after)[k]
        == entries_map(entries).remove(key)[k] by {
        let c = choose|c: int| 0 <= c < after.len() && #[trigger] after[c].0 == k;
        lemma_entry_in_map(after, c);
        if c == i {
            lemma_entry_in_map(entries, last);
        } else {
            lemma_entry_in_map(entries, c);
        }
    }
    assert(entries_map(after) =~= entries_map(entries).remove(key));
}

impl<K, V> View for Table<K, V> {
    type V = Map<K, V>;

    closed spec fn view(&self) -> Map<K, V> {
        entries_map(self.entries@)
    }
}

impl<K, V> Table<K, V> {
    #[verifier::type_invariant]
    spec fn well_formed(self) -> bool {
        distinct_keys(self.entries@)
    }
}

impl<K: Key, V> Table<K, V> {
    /// The empty table.
    pub fn new() -> (table: Self)
        ensures
            table@ == Map::<K, V>::empty(),
    {
        let table = Table { entries: Vec::new() };
        assert(table@ =~= Map::<K, V>::empty());
        table
    }

    /// The position of `key` among the entries, if it is there.
    fn position(&self, key: &K) -> (found: Option<usize>)
        ensures
            match found {
                Some(i) => i < self.entries@.len() && self.entries@[i as int].0 == *key,
                None => !self@.contains_key(*key),
            },
    {
        let mut i: usize = 0;
        while i < self.entries.len()
            invariant
                i <= self.entries@.len(),
                forall|j: int| 0 <= j < i ==> self.entries@[j].0 != *key,
            decreases self.entries@.len() - i,
        {
            if self.entries[i].0.same(key) {
                return Some(i);
            }
            i += 1;
        }
        None
    }

    /// The value stored under `key`, if there is one.
    pub fn get_ref(&self, key: &K) -> (value: Option<&V>)
        ensures
            value == (if self@.contains_key(*key) {
                Some(&self@[*key])
            } else {
                None
            }),
    {
        proof {
            use_type_invariant(self);
        }
        match self.position(key) {
            Some(i) => {
                proof {
                    lemma_entry_in_map(self.entries@, i as int);
                }
                Some(&self.entries[i].1)
            },
            None => None,
        }
    }

    /// Whether a value is stored under `key`.
    pub fn contains(&self, key: &K) -> (present: bool)
        ensures
            present == self@.contains_key(*key),
    {
        proof {
            use_type_invariant(self);
        }
        match self.position(key) {
            Some(i) => {
                proof {
                    lemma_entry_in_map(self.entries@, i as int);
                }
                true
            },
            None => false,
        }
    }

    /// Stores `value` under `key`, in place of what was stored there.
    pub fn insert(&mut self, key: K, value: V)
        ensures
            final(self)@ == old(self)@.insert(key, value),
    {
        proof {
            use_type_invariant(&*self);
        }
        let found = self.position(&key);
        let mut entries: Vec<(K, V)> = Vec::new();
        std::mem::swap(&mut entries, &mut self.entries);
        match found {
            Some(i) => {
                proof {
                    lemma_update_inserts(entries@, i as int, value);
                }
                entries.set(i, (key, value));
            },
            None => {
                proof {
                    lemma_push_inserts(entries@, key, value);
                }
                entries.push((key, value));
            },
        }
        self.entries = entries;
    }

    /// Removes what is stored under `key`, if anything is, and hands it out.
    pub fn remove(&mut self, key: &K) -> (value: Option<V>)
        ensures
            final(self)@ == old(self)@.remove(*key),
            value == (if old(self)@.contains_key(*key) {
                Some(old(self)@[*key])
            } else {
                None
            }),
    {
        proof {
            use_type_invariant(&*self);
        }
        let found = self.position(key);
        match found {
            Some(i) => {
                let mut entries: Vec<(K, V)> = Vec::new();
                std::mem::swap(&mut entries, &mut self.entries);
                proof {
                    lemma_entry_in_map(entries@, i as int);
                    lemma_swap_remove_removes(entries@, i as int);
                }
                let entry = entries.swap_remove(i);
                self.entries = entries;
                Some(entry.1)
            },
            None => {
                assert(self@ =~= self@.remove(*key));
                None
            },
        }
    }
}

impl<K: Key, V: Copy> Table<K, V> {
    /// A copy of the value stored under `key`, if there is one.
    pub fn get(&self, key: &K) -> (value: Option<V>)
        ensures
            value == (if self@.contains_key(*key) {
                Some(self@[*key])
            } else {
                None
            }),
    {
        match self.get_ref(key) {
            Some(value) => Some(*value),
            None => None,
        }
    }
}

} // verus!
