//! The free-form key/value annotations of a record.

use vstd::prelude::*;

verus! {

/// The mapping that a list of entries stands for: each entry binds its key,
/// and a later entry replaces an earlier one with the same key.
pub open spec fn entries_map(entries: Seq<(String, String)>) -> Map<Seq<char>, Seq<char>>
    decreases entries.len(),
{
    if entries.len() == 0 {
        Map::empty()
    } else {
        entries_map(entries.drop_last()).insert(entries.last().0@, entries.last().1@)
    }
}

/// Whether no two entries have the same key.
pub open spec fn distinct_keys(entries: Seq<(String, String)>) -> bool {
    forall|i: int, j: int| 0 <= i < j < entries.len() ==> entries[i].0@ != entries[j].0@
}

/// The mapping of a list of entries binds exactly the keys of its entries.
pub proof fn entries_map_keys(entries: Seq<(String, String)>)
    ensures
        forall|key: Seq<char>|
            entries_map(entries).contains_key(key) <==> exists|i: int|
                0 <= i < entries.len() && (#[trigger] entries[i]).0@ == key,
    decreases entries.len(),
{
    if entries.len() > 0 {
        let rest = entries.drop_last();
        entries_map_keys(rest);
        assert forall|key: Seq<char>| entries_map(entries).contains_key(key) implies exists|i: int|
            0 <= i < entries.len() && (#[trigger] entries[i]).0@ == key by {
            if key == entries.last().0@ {
                assert(entries[entries.len() - 1].0@ == key);
            } else {
                assert(entries_map(rest).contains_key(key));
                let i = choose|i: int| 0 <= i < rest.len() && (#[trigger] rest[i]).0@ == key;
                assert(entries[i].0@ == key);
            }
        }
        assert forall|key: Seq<char>|
            (exists|i: int| 0 <= i < entries.len() && (#[trigger] entries[i]).0@ == key)
            implies entries_map(entries).contains_key(key) by {
            let i = choose|i: int| 0 <= i < entries.len() && (#[trigger] entries[i]).0@ == key;
            if i < entries.len() - 1 {
                assert(rest[i].0@ == key);
            }
        }
    }
}

/// Replacing the last entry that has a key by an entry with the same key
/// rebinds that key and changes nothing else.
pub proof fn entries_map_update(entries: Seq<(String, String)>, i: int, key: String, value: String)
    requires
        0 <= i < entries.len(),
        entries[i].0@ == key@,
        forall|j: int| i < j < entries.len() ==> (#[trigger] entries[j]).0@ != key@,
    ensures
        entries_map(entries.update(i, (key, value))) == entries_map(entries).insert(key@, value@),
    decreases entries.len(),
{
    let updated = entries.update(i, (key, value));
    if i == entries.len() - 1 {
        assert(updated.drop_last() =~= entries.drop_last());
        assert(entries_map(updated) =~= entries_map(entries).insert(key@, value@));
    } else {
        let rest = entries.drop_last();
        entries_map_update(rest, i, key, value);
        assert(updated.drop_last() =~= rest.update(i, (key, value)));
        assert(updated.last() == entries.last());
        assert(entries[entries.len() - 1].0@ != key@);
        assert(entries_map(updated) =~= entries_map(entries).insert(key@, value@));
    }
}

/// A mapping from text keys to text values, kept as a list of entries in
/// the order in which their keys were first inserted. A list in which a key
/// stands twice is read as binding the key to the later value.
#[derive(Debug)]
pub struct Metadata {
    pub entries: Vec<(String, String)>,
}

impl View for Metadata {
    type V = Map<Seq<char>, Seq<char>>;

    open spec fn view(&self) -> Map<Seq<char>, Seq<char>> {
        entries_map(self.entries@)
    }
}

impl Metadata {
    /// The empty mapping.
    pub fn new() -> (metadata: Metadata)
        ensures
            metadata@ == Map::<Seq<char>, Seq<char>>::empty(),
            metadata.entries@.len() == 0,
            metadata.wf(),
    {
        Metadata { entries: Vec::new() }
    }

    /// Whether every key stands once.
    pub open spec fn wf(&self) -> bool {
        distinct_keys(self.entries@)
    }

    /// Binds `key` to `value`: where the key is bound already, its last
    /// entry takes the new value in place; else a new entry is added.
    pub fn insert(&mut self, key: String, value: String)
        ensures
            final(self)@ == old(self)@.insert(key@, value@),
            old(self).wf() ==> final(self).wf(),
            old(self)@.contains_key(key@) ==> final(self).entries@.len() == old(
                self,
            ).entries@.len(),
            !old(self)@.contains_key(key@) ==> final(self).entries@ == old(self).entries@.push(
                (key, value),
            ),
    {
        let mut i: usize = self.entries.len();
        while i > 0
            invariant
                i <= self.entries@.len(),
                self.entries@ == old(self).entries@,
                forall|j: int| i <= j < self.entries@.len() ==> (#[trigger] self.entries@[j]).0@ != key@,
            decreases i,
        {
            i = i - 1;
            if self.entries[i].0 == key {
                proof {
                    entries_map_update(self.entries@, i as int, key, value);
                    entries_map_keys(self.entries@);
                    assert(self.entries@[i as int].0@ == key@);
                }
                self.entries.set(i, (key, value));
                return;
            }
        }
        proof {
            entries_map_keys(self.entries@);
            assert(self.entries@.push((key, value)).drop_last() =~= self.entries@);
        }
        self.entries.push((key, value));
    }

    /// The value that `key` is bound to, if any.
    pub fn get(&self, key: &String) -> (found: Option<&String>)
        ensures
            match found {
                Some(value) => self@.contains_key(key@) && self@[key@] == value@,
                None => !self@.contains_key(key@),
            },
    {
        let mut i: usize = self.entries.len();
        proof {
            assert(self.entries@.take(i as int) =~= self.entries@);
        }
        while i > 0
            invariant
                i <= self.entries@.len(),
                self@.contains_key(key@) <==> entries_map(self.entries@.take(i as int)).contains_key(
                    key@,
                ),
                self@.contains_key(key@) ==> self@[key@] == entries_map(
                    self.entries@.take(i as int),
                )[key@],
            decreases i,
        {
            proof {
                let prefix = self.entries@.take(i as int);
                assert(prefix.drop_last() =~= self.entries@.take(i - 1));
                assert(prefix.last() == self.entries@[i - 1]);
                assert(entries_map(prefix) == entries_map(prefix.drop_last()).insert(
                    prefix.last().0@,
                    prefix.last().1@,
                ));
            }
            i = i - 1;
            if self.entries[i].0 == *key {
                return Some(&self.entries[i].1);
            }
        }
        None
    }

    /// A copy with the same entries in the same order.
    pub fn duplicate(&self) -> (copy: Metadata)
        ensures
            copy@ == self@,
            copy.entries@ == self.entries@,
    {
        let mut entries: Vec<(String, String)> = Vec::new();
        let mut i: usize = 0;
        while i < self.entries.len()
            invariant
                i <= self.entries@.len(),
                entries@ == self.entries@.take(i as int),
            decreases self.entries@.len() - i,
        {
            let key = self.entries[i].0.clone();
            let value = self.entries[i].1.clone();
            entries.push((key, value));
            proof {
                assert(entries@ =~= self.entries@.take(i + 1));
            }
            i = i + 1;
        }
        proof {
            assert(entries@ =~= self.entries@);
        }
        Metadata { entries }
    }
}

} // verus!
