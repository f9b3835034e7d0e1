//! A finite map keyed by type identity, kept as a list of entries in which no
//! key occurs twice.

use crate::key::same_key;
use std::any::TypeId;
use vstd::prelude::*;

verus! {

/// One key with the value stored under it.
struct Entry<V> {
    key: TypeId,
    value: V,
}

/// `i` is a position of `entries` that holds `key`.
spec fn holds_at<V>(entries: Seq<Entry<V>>, key: TypeId, i: int) -> bool {
    0 <= i < entries.len() && entries[i].key == key
}

/// No key stands at two positions.
spec fn distinct_keys<V>(entries: Seq<Entry<V>>) -> bool {
    forall|i: int, j: int|
        0 <= i < entries.len() && 0 <= j < entries.len() && i != j
            ==> (#[trigger] entries[i]).key != (#[trigger] entries[j]).key
}

/// The map that a list of entries stands for.
spec fn entries_map<V>(entries: Seq<Entry<V>>) -> Map<TypeId, V> {
    Map::new(
        |k: TypeId| exists|i: int| holds_at(entries, k, i),
        |k: TypeId| entries[choose|i: int| holds_at(entries, k, i)].value,
    )
}

/// In a list without repeated keys, each position's key maps to that
/// position's value.
proof fn lemma_entry_found<V>(entries: Seq<Entry<V>>, i: int)
    requires
        distinct_keys(entries),
        0 <= i < entries.len(),
    ensures
        entries_map(entries).contains_key(entries[i].key),
        entries_map(entries)[entries[i].key] == entries[i].value,
{
    let k = entries[i].key;
    assert(holds_at(entries, k, i));
    let j = choose|j: int| holds_at(entries, k, j);
    assert(holds_at(entries, k, j));
    assert(j == i);
}

/// Appending an entry under a fresh key inserts it into the map.
proof fn lemma_push_entry<V>(entries: Seq<Entry<V>>, e: Entry<V>)
    requires
        distinct_keys(entries),
        !entries_map(entries).contains_key(e.key),
    ensures
        distinct_keys(entries.push(e)),
        entries_map(entries.push(e)) == entries_map(entries).insert(e.key, e.value),
{
    let after = entries.push(e);
    assert forall|i: int| 0 <= i < entries.len() implies (#[trigger] entries[i]).key != e.key by {
        assert(holds_at(entries, entries[i].key, i));
    }
    assert(distinct_keys(after));
    assert forall|k: TypeId| #[trigger]
        entries_map(after).contains_key(k) == entries_map(entries).insert(
            e.key,
            e.value,
        ).contains_key(k) by {
        if k == e.key {
            assert(holds_at(after, k, entries.len() as int));
        } else if entries_map(entries).contains_key(k) {
            let i = choose|i: int| holds_at(entries, k, i);
            assert(holds_at(after, k, i));
        } else if entries_map(after).contains_key(k) {
            let i = choose|i: int| holds_at(after, k, i);
            assert(holds_at(entries, k, i));
        }
    }
    assert forall|k: TypeId| #[trigger] entries_map(after).contains_key(k) implies entries_map(
        after,
    )[k] == entries_map(entries).insert(e.key, e.value)[k] by {
        let i = choose|i: int| holds_at(after, k, i);
        lemma_entry_found(after, i);
        if i < entries.len() {
            lemma_entry_found(entries, i);
        }
    }
    assert(entries_map(after) =~= entries_map(entries).insert(e.key, e.value));
}

/// Taking one entry out removes its key from the map.
proof fn lemma_remove_entry<V>(entries: Seq<Entry<V>>, i: int)
    requires
        distinct_keys(entries),
        0 <= i < entries.len(),
    ensures
        distinct_keys(entries.remove(i)),
        entries_map(entries.remove(i)) == entries_map(entries).remove(entries[i].key),
{
    let after = entries.remove(i);
    let gone = entries[i].key;
    assert forall|a: int| 0 <= a < after.len() implies #[trigger] after[a] == entries[if a < i {
        a
    } else {
        a + 1
    }] by {}
    assert(distinct_keys(after)) by {
        assert forall|a: int, b: int|
            0 <= a < after.len() && 0 <= b < after.len() && a != b implies (#[trigger] after[a]).key
            != (#[trigger] after[b]).key by {
            let a0 = if a < i { a } else { a + 1 };
            let b0 = if b < i { b } else { b + 1 };
            assert(after[a] == entries[a0]);
            assert(after[b] == entries[b0]);
        }
    }
    assert forall|k: TypeId| #[trigger]
        entries_map(after).contains_key(k) == entries_map(entries).remove(gone).contains_key(
            k,
        ) by {
        if entries_map(after).contains_key(k) {
            let a = choose|a: int| holds_at(after, k, a);
            let a0 = if a < i { a } else { a + 1 };
            assert(after[a] == entries[a0]);
            assert(holds_at(entries, k, a0));
            assert(entries[a0].key != entries[i].key);
        }
        if entries_map(entries).remove(gone).contains_key(k) {
            let a0 = choose|a0: int| holds_at(entries, k, a0);
            assert(a0 != i);
            let a = if a0 < i { a0 } else { a0 - 1 };
            assert(after[a] == entries[a0]);
            assert(holds_at(after, k, a));
        }
    }
    assert forall|k: TypeId| #[trigger] entries_map(after).contains_key(k) implies entries_map(
        after,
    )[k] == entries_map(entries).remove(gone)[k] by {
        let a = choose|a: int| holds_at(after, k, a);
        let a0 = if a < i { a } else { a + 1 };
        assert(after[a] == entries[a0]);
        lemma_entry_found(after, a);
        lemma_entry_found(entries, a0);
    }
    assert(entries_map(after) =~= entries_map(entries).remove(gone));
}

/// A finite map from type identities to values of `V`.
pub struct TypeMap<V> {
    entries: Vec<Entry<V>>,
}

impl<V> TypeMap<V> {
    #[verifier::type_invariant]
    spec fn no_key_twice(self) -> bool {
        distinct_keys(self.entries@)
    }

    /// The map that this value stands for.
    pub closed spec fn view(self) -> Map<TypeId, V> {
        entries_map(self.entries@)
    }

    /// An empty map.
    pub fn new() -> (m: Self)
        ensures
            m@ == Map::<TypeId, V>::empty(),
    {
        let m = TypeMap { entries: Vec::new() };
        assert(m@ =~= Map::<TypeId, V>::empty()) by {
            assert forall|k: TypeId| !(#[trigger] m@.contains_key(k)) by {
                if m@.contains_key(k) {
                    let i = choose|i: int| holds_at(m.entries@, k, i);
                    assert(holds_at(m.entries@, k, i));
                }
            }
        }
        m
    }

    /// The position of `key` among the entries, if it is there.
    fn position(&self, key: TypeId) -> (r: Option<usize>)
        ensures
            match r {
                Some(i) => holds_at(self.entries@, key, i as int),
                None => !self@.contains_key(key),
            },
    {
        let mut i: usize = 0;
        while i < self.entries.len()
            invariant
                i <= self.entries.len(),
                forall|j: int| 0 <= j < i ==> !holds_at(self.entries@, key, j),
            decreases self.entries.len() - i,
        {
            if same_key(self.entries[i].key, key) {
                return Some(i);
            }
            i = i + 1;
        }
        proof {
            if self@.contains_key(key) {
                let j = choose|j: int| holds_at(self.entries@, key, j);
                assert(holds_at(self.entries@, key, j));
            }
        }
        None
    }

    /// Whether a value is stored under `key`.
    pub fn contains_key(&self, key: TypeId) -> (b: bool)
        ensures
            b == self@.contains_key(key),
    {
        match self.position(key) {
            Some(i) => {
                proof {
                    use_type_invariant(self);
                    lemma_entry_found(self.entries@, i as int);
                }
                true
            },
            None => false,
        }
    }

    /// The value stored under `key`, if there is one.
    pub fn get(&self, key: TypeId) -> (r: Option<&V>)
        ensures
            r == (if self@.contains_key(key) {
                Some(&self@[key])
            } else {
                None
            }),
    {
        match self.position(key) {
            Some(i) => {
                proof {
                    use_type_invariant(self);
                    lemma_entry_found(self.entries@, i as int);
                }
                Some(&self.entries[i].value)
            },
            None => None,
        }
    }

    /// Stores `value` under `key`, in place of what was stored there before.
    pub fn insert(&mut self, key: TypeId, value: V)
        ensures
            final(self)@ == old(self)@.insert(key, value),
    {
        proof {
            use_type_invariant(&*self);
        }
        let found = self.position(key);
        let mut entries: Vec<Entry<V>> = Vec::new();
        std::mem::swap(&mut self.entries, &mut entries);
        match found {
            Some(i) => {
                proof {
                    lemma_remove_entry(entries@, i as int);
                }
                entries.remove(i);
            },
            None => {},
        }
        proof {
            lemma_push_entry(entries@, Entry { key, value });
        }
        entries.push(Entry { key, value });
        self.entries = entries;
        assert(self@ =~= old(self)@.insert(key, value));
    }

    /// Takes out and returns what is stored under `key`, if anything is.
    pub fn remove(&mut self, key: TypeId) -> (r: Option<V>)
        ensures
            final(self)@ == old(self)@.remove(key),
            r == (if old(self)@.contains_key(key) {
                Some(old(self)@[key])
            } else {
                None
            }),
    {
        proof {
            use_type_invariant(&*self);
        }
        match self.position(key) {
            Some(i) => {
                proof {
                    lemma_entry_found(self.entries@, i as int);
                    lemma_remove_entry(self.entries@, i as int);
                }
                let mut entries: Vec<Entry<V>> = Vec::new();
                std::mem::swap(&mut self.entries, &mut entries);
                let e = entries.remove(i);
                self.entries = entries;
                Some(e.value)
            },
            None => {
                assert(self@ =~= old(self)@.remove(key));
                None
            },
        }
    }

    /// The keys under which a value is stored, each once.
    pub fn keys(&self) -> (r: Vec<TypeId>)
        ensures
            r@.no_duplicates(),
            forall|k: TypeId| r@.contains(k) <==> self@.contains_key(k),
    {
        let mut out: Vec<TypeId> = Vec::new();
        let mut i: usize = 0;
        while i < self.entries.len()
            invariant
                i <= self.entries.len(),
                out@.len() == i,
                forall|j: int| 0 <= j < i ==> out@[j] == self.entries@[j].key,
            decreases self.entries.len() - i,
        {
            out.push(self.entries[i].key);
            i = i + 1;
        }
        proof {
            use_type_invariant(self);
            assert forall|k: TypeId| out@.contains(k) <==> self@.contains_key(k) by {
                if out@.contains(k) {
                    let j = choose|j: int| 0 <= j < out@.len() && out@[j] == k;
                    assert(holds_at(self.entries@, k, j));
                }
                if self@.contains_key(k) {
                    let j = choose|j: int| holds_at(self.entries@, k, j);
                    assert(out@[j] == k);
                }
            }
        }
        out
    }
}

} // verus!
