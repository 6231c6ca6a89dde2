//! A small keyed table: a list of entries in which no key occurs twice,
//! seen as a finite map.

use vstd::prelude::*;

verus! {

/// A key of a table: a value with a mathematical identity and an executable
/// test that decides whether two keys have the same identity.
pub trait TableKey: View + Sized {
    /// Whether the two keys have the same identity.
    fn matches(&self, other: &Self) -> (same: bool)
        ensures
            same == (self@ == other@),
    ;
}

/// One key of a table with the value stored under it.
struct Entry<K, V> {
    key: K,
    value: V,
}

/// A table from keys to values.
pub struct Table<K: TableKey, V> {
    entries: Vec<Entry<K, V>>,
}

/// The map that a list of entries stands for; a later entry overrides an
/// earlier one with the same key.
spec fn entries_map<K: TableKey, V>(entries: Seq<Entry<K, V>>) -> Map<K::V, V>
    decreases entries.len(),
{
    if entries.len() == 0 {
        Map::empty()
    } else {
        entries_map(entries.drop_last()).insert(entries.last().key@, entries.last().value)
    }
}

/// No two entries of the list have the same key.
spec fn keys_distinct<K: TableKey, V>(entries: Seq<Entry<K, V>>) -> bool {
    forall|i: int, j: int| 0 <= i < j < entries.len() ==> entries[i].key@ != entries[j].key@
}

/// A key is in the map exactly when some entry carries it.
proof fn lemma_domain<K: TableKey, V>(entries: Seq<Entry<K, V>>, key: K::V)
    ensures
        entries_map(entries).dom().contains(key) <==> exists|i: int|
            0 <= i < entries.len() && #[trigger] entries[i].key@ == key,
    decreases entries.len(),
{
    if entries.len() > 0 {
        let front = entries.drop_last();
        lemma_domain(front, key);
        if entries_map(entries).dom().contains(key) {
            if entries.last().key@ == key {
                assert(entries[entries.len() - 1].key@ == key);
            } else {
                let i = choose|i: int| 0 <= i < front.len() && #[trigger] front[i].key@ == key;
                assert(entries[i].key@ == key);
            }
        }
        if exists|i: int| 0 <= i < entries.len() && #[trigger] entries[i].key@ == key {
            let i = choose|i: int| 0 <= i < entries.len() && #[trigger] entries[i].key@ == key;
            if i < entries.len() - 1 {
                assert(front[i].key@ == key);
            }
        }
    }
}

/// Where keys are distinct, the map gives under each entry's key that
/// entry's value.
proof fn lemma_lookup<K: TableKey, V>(entries: Seq<Entry<K, V>>, i: int)
    requires
        keys_distinct(entries),
        0 <= i < entries.len(),
    ensures
        entries_map(entries).dom().contains(entries[i].key@),
        entries_map(entries)[entries[i].key@] == entries[i].value,
    decreases entries.len(),
{
    if i < entries.len() - 1 {
        let front = entries.drop_last();
        assert(keys_distinct(front)) by {
            assert forall|a: int, b: int| 0 <= a < b < front.len() implies front[a].key@
                != front[b].key@ by {
                assert(entries[a].key@ != entries[b].key@);
            }
        }
        lemma_lookup(front, i);
        assert(entries[i].key@ != entries[entries.len() - 1].key@);
    }
}

/// Replacing the value of one entry overrides that key in the map and keeps
/// the keys distinct.
proof fn lemma_replace<K: TableKey, V>(entries: Seq<Entry<K, V>>, i: int, entry: Entry<K, V>)
    requires
        keys_distinct(entries),
        0 <= i < entries.len(),
        entry.key@ == entries[i].key@,
    ensures
        keys_distinct(entries.update(i, entry)),
        entries_map(entries.update(i, entry)) == entries_map(entries).insert(
            entry.key@,
            entry.value,
        ),
    decreases entries.len(),
{
    let changed = entries.update(i, entry);
    assert(keys_distinct(changed)) by {
        assert forall|a: int, b: int| 0 <= a < b < changed.len() implies changed[a].key@
            != changed[b].key@ by {
            assert(entries[a].key@ != entries[b].key@);
        }
    }
    let front = entries.drop_last();
    if i == entries.len() - 1 {
        assert(changed.drop_last() =~= front);
        assert(entries_map(changed) =~= entries_map(entries).insert(entry.key@, entry.value));
    } else {
        assert(keys_distinct(front)) by {
            assert forall|a: int, b: int| 0 <= a < b < front.len() implies front[a].key@
                != front[b].key@ by {
                assert(entries[a].key@ != entries[b].key@);
            }
        }
        lemma_replace(front, i, entry);
        assert(changed.drop_last() =~= front.update(i, entry));
        assert(entries[i].key@ != entries[entries.len() - 1].key@);
        assert(entries_map(changed) =~= entries_map(entries).insert(entry.key@, entry.value));
    }
}

/// Where keys are distinct, the map has as many keys as the list has
/// entries.
proof fn lemma_size<K: TableKey, V>(entries: Seq<Entry<K, V>>)
    requires
        keys_distinct(entries),
    ensures
        entries_map(entries).dom().finite(),
        entries_map(entries).dom().len() == entries.len(),
    decreases entries.len(),
{
    if entries.len() > 0 {
        let front = entries.drop_last();
        assert(keys_distinct(front)) by {
            assert forall|a: int, b: int| 0 <= a < b < front.len() implies front[a].key@
                != front[b].key@ by {
                assert(entries[a].key@ != entries[b].key@);
            }
        }
        lemma_size(front);
        let key = entries.last().key@;
        lemma_domain(front, key);
        assert(!entries_map(front).dom().contains(key)) by {
            if exists|i: int| 0 <= i < front.len() && #[trigger] front[i].key@ == key {
                let i = choose|i: int| 0 <= i < front.len() && #[trigger] front[i].key@ == key;
                assert(entries[i].key@ != entries[entries.len() - 1].key@);
            }
        }
        assert(entries_map(entries).dom() =~= entries_map(front).dom().insert(key));
    }
}

impl<K: TableKey, V> Table<K, V> {
    /// No key occurs twice.
    pub closed spec fn wf(&self) -> bool {
        keys_distinct(self.entries@)
    }

    /// The finite map that the table stands for.
    pub closed spec fn view(&self) -> Map<K::V, V> {
        entries_map(self.entries@)
    }

    /// The table without entries.
    pub fn new() -> (table: Self)
        ensures
            table.wf(),
            table@ == Map::<K::V, V>::empty(),
    {
        Table { entries: Vec::new() }
    }

    /// The table has finitely many keys, no more than a machine word counts.
    pub proof fn lemma_size_bounded(&self)
        requires
            self.wf(),
        ensures
            self@.dom().finite(),
            self@.dom().len() <= usize::MAX,
    {
        lemma_size(self.entries@);
        assert(self.entries.len() == self.entries@.len());
    }

    /// The number of keys in the table.
    pub fn len(&self) -> (count: usize)
        requires
            self.wf(),
        ensures
            self@.dom().finite(),
            count == self@.dom().len(),
    {
        proof {
            lemma_size(self.entries@);
        }
        self.entries.len()
    }

    /// The position of the entry that carries the key, if there is one.
    fn find(&self, key: &K) -> (position: Option<usize>)
        ensures
            match position {
                Some(i) => i < self.entries@.len() && self.entries@[i as int].key@ == key@,
                None => forall|j: int| 0 <= j < self.entries@.len() ==> self.entries@[j].key@ != key@,
            },
    {
        let mut i: usize = 0;
        while i < self.entries.len()
            invariant
                i <= self.entries@.len(),
                forall|j: int| 0 <= j < i ==> self.entries@[j].key@ != key@,
            decreases self.entries@.len() - i,
        {
            if self.entries[i].key.matches(key) {
                return Some(i);
            }
            i = i + 1;
        }
        None
    }

    /// The value stored under the key, if any.
    pub fn get(&self, key: &K) -> (found: Option<&V>)
        requires
            self.wf(),
        ensures
            match found {
                Some(value) => self@.dom().contains(key@) && *value == self@[key@],
                None => !self@.dom().contains(key@),
            },
    {
        proof {
            lemma_domain(self.entries@, key@);
        }
        match self.find(key) {
            Some(i) => {
                proof {
                    lemma_lookup(self.entries@, i as int);
                }
                Some(&self.entries[i].value)
            },
            None => None,
        }
    }

    /// Stores the value under the key, in place of what was stored there.
    pub fn put(&mut self, key: K, value: V)
        requires
            old(self).wf(),
        ensures
            final(self).wf(),
            final(self)@ == old(self)@.insert(key@, value),
    {
        let entry = Entry { key, value };
        match self.find(&entry.key) {
            Some(i) => {
                proof {
                    lemma_replace(self.entries@, i as int, entry);
                }
                self.entries.set(i, entry);
            },
            None => {
                self.entries.push(entry);
                assert(self.entries@.drop_last() =~= old(self).entries@);
            },
        }
    }
}

} // verus!
