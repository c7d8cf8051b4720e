//! A string-keyed map backed by an association list with unique keys.
//!
//! Models a `Map<Seq<char>, V::V>`. Used for the persistent hash cache
//! (path to cache entry) and for configuration (key to value).

use vstd::prelude::*;
use vstd::pervasive::VecAdditionalExecFns;
use crate::paths::str_eq;

verus! {

/// The map an association list denotes: later entries win, though a
/// well-formed list never repeats a key.
pub open spec fn spec_entries_map<V: View>(entries: Seq<(String, V)>) -> Map<Seq<char>, V::V>
    decreases entries.len(),
{
    if entries.len() == 0 {
        Map::empty()
    } else {
        spec_entries_map(entries.drop_last()).insert(entries.last().0@, entries.last().1@)
    }
}

/// True when no key occurs twice in the list.
pub open spec fn spec_unique_keys<V>(entries: Seq<(String, V)>) -> bool {
    forall|i: int, j: int|
        0 <= i < j < entries.len() ==> (#[trigger] entries[i]).0@ != (#[trigger] entries[j]).0@
}

/// A key is in the denoted map exactly when some entry holds it.
proof fn lemma_entries_map_has_key<V: View>(entries: Seq<(String, V)>, k: Seq<char>)
    ensures
        spec_entries_map(entries).contains_key(k) <==> (exists|i: int|
            0 <= i < entries.len() && (#[trigger] entries[i]).0@ == k),
    decreases entries.len(),
{
    if entries.len() > 0 {
        lemma_entries_map_has_key(entries.drop_last(), k);
        if entries.last().0@ != k {
            if exists|i: int| 0 <= i < entries.len() && (#[trigger] entries[i]).0@ == k {
                let i = choose|i: int| 0 <= i < entries.len() && (#[trigger] entries[i]).0@ == k;
                assert(entries.drop_last()[i] == entries[i]);
            }
        }
    }
}

/// With unique keys, the denoted map sends each entry's key to that
/// entry's value.
proof fn lemma_entries_map_index<V: View>(entries: Seq<(String, V)>, i: int)
    requires
        spec_unique_keys(entries),
        0 <= i < entries.len(),
    ensures
        spec_entries_map(entries).contains_key(entries[i].0@),
        spec_entries_map(entries)[entries[i].0@] == entries[i].1@,
    decreases entries.len(),
{
    if i < entries.len() - 1 {
        assert(entries.drop_last()[i] == entries[i]);
        lemma_entries_map_index(entries.drop_last(), i);
    }
}

/// A string-keyed map with unique keys, backed by a vector of pairs.
pub struct StrMap<V> {
    entries: Vec<(String, V)>,
}

impl<V: View> View for StrMap<V> {
    type V = Map<Seq<char>, V::V>;

    closed spec fn view(&self) -> Map<Seq<char>, V::V> {
        spec_entries_map(self.entries@)
    }
}

impl<V: View> StrMap<V> {
    /// Well-formed: no key occurs twice.
    pub closed spec fn wf(&self) -> bool {
        spec_unique_keys(self.entries@)
    }

    /// An empty map.
    pub fn new() -> (r: StrMap<V>)
        ensures
            r.wf(),
            r@ == Map::<Seq<char>, V::V>::empty(),
    {
        StrMap { entries: Vec::new() }
    }

    /// The entries as they are stored, for positional access.
    pub closed spec fn entry_seq(&self) -> Seq<(String, V)> {
        self.entries@
    }

    /// The number of entries held.
    pub fn entry_count(&self) -> (n: usize)
        ensures
            n == self.entry_seq().len(),
    {
        self.entries.len()
    }

    /// The entry at a position. Each entry's key maps to its value in
    /// the denoted map.
    pub fn entry_at(&self, i: usize) -> (r: &(String, V))
        requires
            self.wf(),
            i < self.entry_seq().len(),
        ensures
            r == self.entry_seq()[i as int],
            self@.contains_key(r.0@),
            self@[r.0@] == r.1@,
    {
        proof {
            lemma_entries_map_index(self.entries@, i as int);
        }
        &self.entries[i]
    }

    /// Looks a key up.
    pub fn get(&self, key: &str) -> (r: Option<&V>)
        requires
            self.wf(),
        ensures
            match r {
                Some(v) => self@.contains_key(key@) && v@ == self@[key@],
                None => !self@.contains_key(key@),
            },
    {
        let n = self.entries.len();
        for i in 0..n
            invariant
                n == self.entries@.len(),
                self.wf(),
                forall|j: int| 0 <= j < i ==> (#[trigger] self.entries@[j]).0@ != key@,
        {
            if str_eq(self.entries[i].0.as_str(), key) {
                proof {
                    lemma_entries_map_index(self.entries@, i as int);
                }
                return Some(&self.entries[i].1);
            }
        }
        proof {
            lemma_entries_map_has_key(self.entries@, key@);
        }
        None
    }

    /// Inserts a key, replacing the value if the key is already held.
    pub fn insert(&mut self, key: String, value: V)
        requires
            old(self).wf(),
        ensures
            final(self).wf(),
            final(self)@ == old(self)@.insert(key@, value@),
    {
        let n = self.entries.len();
        for i in 0..n
            invariant
                n == self.entries@.len(),
                self.entries == old(self).entries,
                spec_unique_keys(self.entries@),
                forall|j: int| 0 <= j < i ==> (#[trigger] self.entries@[j]).0@ != key@,
        {
            if str_eq(self.entries[i].0.as_str(), key.as_str()) {
                proof {
                    lemma_entries_map_update(self.entries@, i as int, key@, value@);
                }
                self.entries.set(i, (key, value));
                return ;
            }
        }
        proof {
            assert(self.entries@.push((key, value)).drop_last() =~= self.entries@);
        }
        self.entries.push((key, value));
    }
}

/// Updating the entry that holds a key denotes inserting over that key.
proof fn lemma_entries_map_update<V: View>(
    entries: Seq<(String, V)>,
    i: int,
    k: Seq<char>,
    v: V::V,
)
    requires
        spec_unique_keys(entries),
        0 <= i < entries.len(),
        entries[i].0@ == k,
    ensures
        forall|kv: (String, V)|
            kv.0@ == k && kv.1@ == v ==> {
                &&& spec_unique_keys(#[trigger] entries.update(i, kv))
                &&& spec_entries_map(entries.update(i, kv)) == spec_entries_map(entries).insert(
                    k,
                    v,
                )
            },
    decreases entries.len(),
{
    assert forall|kv: (String, V)| kv.0@ == k && kv.1@ == v implies {
        &&& spec_unique_keys(entries.update(i, kv))
        &&& spec_entries_map(entries.update(i, kv)) == spec_entries_map(entries).insert(k, v)
    } by {
        let e2 = entries.update(i, kv);
        assert(spec_unique_keys(e2)) by {
            assert(forall|a: int|
                0 <= a < entries.len() && a != i ==> (#[trigger] e2[a]).0@ == entries[a].0@);
        }
        if i == entries.len() - 1 {
            assert(e2.drop_last() =~= entries.drop_last());
            assert(spec_entries_map(e2) =~= spec_entries_map(entries).insert(k, v));
        } else {
            assert(e2.drop_last() =~= entries.drop_last().update(i, kv));
            lemma_entries_map_update(entries.drop_last(), i, k, v);
            assert(entries.drop_last()[i] == entries[i]);
            assert(spec_entries_map(e2) =~= spec_entries_map(entries).insert(k, v));
        }
    }
}

} // verus!
