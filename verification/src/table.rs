use vstd::prelude::*;

use crate::account::TableKey;

verus! {

/// The map that writing `entries` in order produces: a later entry for a
/// key overrides an earlier one.
pub open spec fn entries_map<K, V>(entries: Seq<(K, V)>) -> Map<K, V>
    decreases entries.len(),
{
    if entries.len() == 0 {
        Map::empty()
    } else {
        entries_map(entries.drop_last()).insert(entries.last().0, entries.last().1)
    }
}

/// For entries with distinct keys, the map they produce holds exactly the
/// listed keys, each with its listed value.
proof fn lemma_entries_map_distinct<K, V>(entries: Seq<(K, V)>)
    requires
        forall|i: int, j: int|
            0 <= i < j < entries.len() ==> #[trigger] entries[i].0 != #[trigger] entries[j].0,
    ensures
        forall|i: int|
            0 <= i < entries.len() ==> entries_map(entries).contains_key(#[trigger] entries[i].0)
                && entries_map(entries)[entries[i].0] == entries[i].1,
        forall|k: K|
            #[trigger] entries_map(entries).contains_key(k) ==> exists|i: int|
                0 <= i < entries.len() && #[trigger] entries[i].0 == k,
    decreases entries.len(),
{
    if entries.len() > 0 {
        let prefix = entries.drop_last();
        assert forall|i: int, j: int|
            0 <= i < j < prefix.len() implies #[trigger] prefix[i].0 != #[trigger] prefix[j].0 by {
            assert(prefix[i] == entries[i] && prefix[j] == entries[j]);
        }
        lemma_entries_map_distinct(prefix);
        let n = entries.len() - 1;
        assert forall|i: int| 0 <= i < entries.len() implies entries_map(entries).contains_key(
            #[trigger] entries[i].0,
        ) && entries_map(entries)[entries[i].0] == entries[i].1 by {
            if i < n {
                assert(prefix[i] == entries[i]);
                assert(entries[i].0 != entries[n].0);
            }
        }
        assert forall|k: K| #[trigger] entries_map(entries).contains_key(k) implies exists|i: int|
            0 <= i < entries.len() && #[trigger] entries[i].0 == k by {
            if k != entries[n].0 {
                assert(entries_map(entries) == entries_map(prefix).insert(entries[n].0, entries[n].1));
                assert(entries_map(prefix).contains_key(k));
                let i = choose|i: int| 0 <= i < prefix.len() && #[trigger] prefix[i].0 == k;
                assert(entries[i] == prefix[i]);
            } else {
                assert(entries[n].0 == k);
            }
        }
    }
}

/// A finite map from keys to values, kept as a list of entries with distinct keys.
///
/// It stands for a storage mapping of the contract: a key that was never
/// written has no entry, and writing a key again overwrites its value.
#[verifier::reject_recursive_types(K)]
pub struct Table<K, V> {
    entries: Vec<(K, V)>,
    contents: Ghost<Map<K, V>>,
}

impl<K: TableKey, V: Copy> View for Table<K, V> {
    type V = Map<K, V>;

    closed spec fn view(&self) -> Map<K, V> {
        self.contents@
    }
}

impl<K: TableKey, V: Copy> Table<K, V> {
    /// The entries are pairwise distinct in their keys and list exactly the contents.
    pub closed spec fn wf(&self) -> bool {
        &&& forall|i: int, j: int|
            0 <= i < j < self.entries@.len() ==> #[trigger] self.entries@[i].0
                != #[trigger] self.entries@[j].0
        &&& forall|i: int|
            0 <= i < self.entries@.len() ==> self.contents@.contains_key(
                #[trigger] self.entries@[i].0,
            ) && self.contents@[self.entries@[i].0] == self.entries@[i].1
        &&& forall|k: K|
            #[trigger] self.contents@.contains_key(k) ==> exists|i: int|
                0 <= i < self.entries@.len() && #[trigger] self.entries@[i].0 == k
    }

    /// An empty table.
    pub fn new() -> (t: Self)
        ensures
            t.wf(),
            t@ == Map::<K, V>::empty(),
    {
        Table { entries: Vec::new(), contents: Ghost(Map::empty()) }
    }

    /// A second table with the same contents.
    pub fn duplicate(&self) -> (t: Self)
        requires
            self.wf(),
        ensures
            t.wf(),
            t@ == self@,
    {
        let n = self.entries.len();
        let mut entries: Vec<(K, V)> = Vec::new();
        let mut i: usize = 0;
        while i < n
            invariant
                self.wf(),
                n == self.entries@.len(),
                i <= n,
                entries@ == self.entries@.subrange(0, i as int),
            decreases n - i,
        {
            entries.push(self.entries[i]);
            i = i + 1;
        }
        assert(entries@ == self.entries@);
        let t = Table { entries, contents: Ghost(self.contents@) };
        assert(t.entries@ == self.entries@);
        assert(t.contents@ == self.contents@);
        t
    }

    /// The entries, each key once, in an order that writes back the same contents.
    pub fn entries(&self) -> (r: Vec<(K, V)>)
        requires
            self.wf(),
        ensures
            entries_map(r@) == self@,
            forall|i: int, j: int| 0 <= i < j < r@.len() ==> #[trigger] r@[i].0 != #[trigger] r@[j].0,
    {
        let copy = self.duplicate();
        proof {
            lemma_entries_map_distinct(copy.entries@);
            assert(entries_map(copy.entries@) =~= copy.contents@);
        }
        copy.entries
    }

    /// The table that writing `entries` in order produces.
    pub fn from_entries(entries: &Vec<(K, V)>) -> (t: Self)
        ensures
            t.wf(),
            t@ == entries_map(entries@),
    {
        let mut t = Table::new();
        let n = entries.len();
        let mut i: usize = 0;
        while i < n
            invariant
                n == entries@.len(),
                i <= n,
                t.wf(),
                t@ == entries_map(entries@.take(i as int)),
            decreases n - i,
        {
            let (k, v) = entries[i];
            t.insert(k, v);
            assert(entries@.take(i + 1).drop_last() == entries@.take(i as int));
            i = i + 1;
        }
        assert(entries@.take(n as int) == entries@);
        t
    }

    /// The position of the entry for `key`, if there is one.
    fn position(&self, key: &K) -> (r: Option<usize>)
        requires
            self.wf(),
        ensures
            match r {
                Some(i) => i < self.entries@.len() && self.entries@[i as int].0 == *key,
                None => !self@.contains_key(*key),
            },
    {
        let n = self.entries.len();
        let mut i: usize = 0;
        while i < n
            invariant
                self.wf(),
                n == self.entries@.len(),
                i <= n,
                forall|j: int| 0 <= j < i ==> self.entries@[j].0 != *key,
            decreases n - i,
        {
            if self.entries[i].0.same_key(key) {
                return Some(i);
            }
            i = i + 1;
        }
        None
    }

    /// The value written for `key`, if any.
    pub fn get(&self, key: &K) -> (r: Option<V>)
        requires
            self.wf(),
        ensures
            r == (if self@.contains_key(*key) {
                Some(self@[*key])
            } else {
                None
            }),
    {
        match self.position(key) {
            Some(i) => Some(self.entries[i].1),
            None => None,
        }
    }

    /// Writes `value` for `key`.
    pub fn insert(&mut self, key: K, value: V)
        requires
            old(self).wf(),
        ensures
            final(self).wf(),
            final(self)@ == old(self)@.insert(key, value),
    {
        let ghost old_entries = self.entries@;
        let ghost old_contents = self.contents@;
        let found = self.position(&key);
        match found {
            Some(i) => {
                self.entries[i] = (key, value);
            },
            None => {
                self.entries.push((key, value));
            },
        }
        self.contents = Ghost(self.contents@.insert(key, value));
        proof {
            let n = self.entries@.len();
            match found {
                Some(i) => {
                    assert(self.entries@ == old_entries.update(i as int, (key, value)));
                },
                None => {
                    assert(self.entries@ == old_entries.push((key, value)));
                    assert forall|j: int| 0 <= j < old_entries.len() implies old_entries[j].0
                        != key by {
                        assert(old_contents.contains_key(old_entries[j].0));
                    }
                },
            }
            assert forall|k: K| #[trigger] self.contents@.contains_key(k) implies exists|j: int|
                0 <= j < n && #[trigger] self.entries@[j].0 == k by {
                if k == key {
                    match found {
                        Some(i) => {
                            assert(self.entries@[i as int].0 == k);
                        },
                        None => {
                            assert(self.entries@[n - 1].0 == k);
                        },
                    }
                } else {
                    assert(old_contents.contains_key(k));
                    let j = choose|j: int| 0 <= j < old_entries.len() && old_entries[j].0 == k;
                    assert(self.entries@[j].0 == k);
                }
            }
        }
    }
}

} // verus!
