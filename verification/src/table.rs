//! The registrations of one scope, kept as a list of keyed entries.

use crate::constructor::constructor_key;
use crate::constructor::keyed;
use crate::constructor::Constructor;
use crate::key::same_key;
use std::any::TypeId;
use vstd::prelude::*;

verus! {

/// One registration: a constructor and the key it is stored under.
struct Entry {
    key: TypeId,
    constructor: Constructor,
}

/// The registrations of one scope: at most one constructor per key, each
/// stored under the key of the type it makes.
pub(crate) struct Table {
    entries: Vec<Entry>,
}

/// No key occurs twice in `entries`, and each constructor stands under the
/// key of the type it makes.
spec fn well_formed(entries: Seq<Entry>) -> bool {
    &&& forall|i: int, j: int|
        0 <= i < j < entries.len() ==> (#[trigger] entries[i]).key != (#[trigger] entries[j]).key
    &&& forall|i: int|
        0 <= i < entries.len() ==> constructor_key((#[trigger] entries[i]).constructor)
            == entries[i].key
}

/// Where `key` stands in `entries`, if it does.
spec fn holds_at(entries: Seq<Entry>, key: TypeId, i: int) -> bool {
    0 <= i < entries.len() && entries[i].key == key
}

/// The map that `entries` stands for.
spec fn as_map(entries: Seq<Entry>) -> Map<TypeId, Constructor> {
    Map::new(
        |k: TypeId| exists|i: int| holds_at(entries, k, i),
        |k: TypeId| entries[choose|i: int| holds_at(entries, k, i)].constructor,
    )
}

/// In a well-formed sequence the entry at `i` is what its key maps to.
proof fn lemma_entry_is_mapped(entries: Seq<Entry>, i: int)
    requires
        well_formed(entries),
        0 <= i < entries.len(),
    ensures
        as_map(entries).contains_key(entries[i].key),
        as_map(entries)[entries[i].key] == entries[i].constructor,
{
    let k = entries[i].key;
    assert(holds_at(entries, k, i));
    let j = choose|j: int| holds_at(entries, k, j);
    assert(j == i);
}

/// A well-formed sequence stands for a keyed map.
proof fn lemma_map_is_keyed(entries: Seq<Entry>)
    requires
        well_formed(entries),
    ensures
        keyed(as_map(entries)),
{
    assert forall|k: TypeId| #[trigger] as_map(entries).contains_key(k) implies constructor_key(
        as_map(entries)[k],
    ) == k by {
        let i = choose|i: int| holds_at(entries, k, i);
        lemma_entry_is_mapped(entries, i);
    }
}

/// Appending an entry with a fresh key inserts it into the map.
proof fn lemma_push_inserts(entries: Seq<Entry>, entry: Entry)
    requires
        well_formed(entries),
        !as_map(entries).contains_key(entry.key),
        constructor_key(entry.constructor) == entry.key,
    ensures
        well_formed(entries.push(entry)),
        as_map(entries.push(entry)) == as_map(entries).insert(entry.key, entry.constructor),
{
    let after = entries.push(entry);
    assert forall|i: int| 0 <= i < entries.len() implies (#[trigger] entries[i]).key
        != entry.key by {
        assert(holds_at(entries, entries[i].key, i));
    }
    assert(well_formed(after));
    assert forall|k: TypeId| #[trigger]
        as_map(after).contains_key(k) == as_map(entries).insert(
            entry.key,
            entry.constructor,
        ).contains_key(k) by {
        if as_map(after).contains_key(k) {
            let i = choose|i: int| holds_at(after, k, i);
            if i < entries.len() {
                assert(holds_at(entries, k, i));
            }
        } else if k == entry.key {
            assert(holds_at(after, k, entries.len() as int));
        } else if as_map(entries).contains_key(k) {
            let i = choose|i: int| holds_at(entries, k, i);
            assert(holds_at(after, k, i));
        }
    }
    assert forall|k: TypeId| #[trigger] as_map(after).contains_key(k) implies as_map(after)[k]
        == as_map(entries).insert(entry.key, entry.constructor)[k] by {
        let i = choose|i: int| holds_at(after, k, i);
        lemma_entry_is_mapped(after, i);
        if i < entries.len() {
            lemma_entry_is_mapped(entries, i);
        }
    }
    assert(as_map(after) =~= as_map(entries).insert(entry.key, entry.constructor));
}

impl View for Table {
    type V = Map<TypeId, Constructor>;

    closed spec fn view(&self) -> Map<TypeId, Constructor> {
        as_map(self.entries@)
    }
}

impl Table {
    #[verifier::type_invariant]
    spec fn wf(&self) -> bool {
        well_formed(self.entries@)
    }

    /// An empty table.
    pub(crate) fn new() -> (table: Table)
        ensures
            table@ == Map::<TypeId, Constructor>::empty(),
    {
        let table = Table { entries: Vec::new() };
        assert(table@ =~= Map::<TypeId, Constructor>::empty());
        table
    }

    /// The index at which `key` is stored, if it is.
    fn position(&self, key: &TypeId) -> (at: Option<usize>)
        ensures
            match at {
                Some(i) => holds_at(self.entries@, *key, i as int),
                None => !self@.contains_key(*key),
            },
    {
        let mut i: usize = 0;
        while i < self.entries.len()
            invariant
                i <= self.entries@.len(),
                forall|j: int| 0 <= j < i ==> !holds_at(self.entries@, *key, j),
            decreases self.entries@.len() - i,
        {
            if same_key(&self.entries[i].key, key) {
                return Some(i);
            }
            i += 1;
        }
        None
    }

    /// The constructor registered under `key`, if there is one.
    pub(crate) fn get(&self, key: &TypeId) -> (found: Option<&Constructor>)
        ensures
            found == (if self@.contains_key(*key) {
                Some(&self@[*key])
            } else {
                None
            }),
            keyed(self@),
    {
        proof {
            use_type_invariant(self);
            lemma_map_is_keyed(self.entries@);
        }
        match self.position(key) {
            Some(i) => {
                proof {
                    lemma_entry_is_mapped(self.entries@, i as int);
                }
                Some(&self.entries[i].constructor)
            },
            None => None,
        }
    }

    /// Stores `constructor` under `key` unless the key is taken, and tells
    /// whether it did. A table whose key is taken stays as it is.
    pub(crate) fn insert_new(&mut self, key: TypeId, constructor: Constructor) -> (fresh: bool)
        requires
            constructor_key(constructor) == key,
        ensures
            fresh == !old(self)@.contains_key(key),
            fresh ==> final(self)@ == old(self)@.insert(key, constructor),
            !fresh ==> final(self)@ == old(self)@,
            keyed(final(self)@),
    {
        proof {
            use_type_invariant(&*self);
            lemma_map_is_keyed(self.entries@);
        }
        match self.position(&key) {
            Some(i) => {
                proof {
                    lemma_entry_is_mapped(self.entries@, i as int);
                }
                false
            },
            None => {
                let entry = Entry { key, constructor };
                proof {
                    lemma_push_inserts(self.entries@, entry);
                    lemma_map_is_keyed(self.entries@.push(entry));
                }
                let mut entries: Vec<Entry> = Vec::new();
                std::mem::swap(&mut self.entries, &mut entries);
                entries.push(entry);
                self.entries = entries;
                true
            },
        }
    }
}

} // verus!
