use vstd::prelude::*;

use crate::common::id::Id;

verus! {

/// A finite map keyed by identifiers, kept as a list of entries in which
/// no identifier occurs twice.
#[verifier::reject_recursive_types(V)]
pub struct IdMap<V> {
    entries: Vec<(Id, V)>,
    contents: Ghost<Map<Id, V>>,
}

impl<V> View for IdMap<V> {
    type V = Map<Id, V>;

    closed spec fn view(&self) -> Map<Id, V> {
        self.contents@
    }
}

/// The entries list each key of the map once, each with the value that the
/// map holds under it.
pub closed spec fn entries_represent<V>(entries: Seq<(Id, V)>, contents: Map<Id, V>) -> bool {
    &&& forall|i: int, j: int|
        #![trigger entries[i], entries[j]]
        0 <= i < j < entries.len() ==> entries[i].0 != entries[j].0
    &&& forall|i: int|
        #![trigger entries[i]]
        0 <= i < entries.len() ==> {
            &&& contents.contains_key(entries[i].0)
            &&& contents[entries[i].0] == entries[i].1
        }
    &&& forall|k: Id|
        contents.contains_key(k) ==> exists|i: int|
            #![trigger entries[i]]
            0 <= i < entries.len() && entries[i].0 == k
}

/// The keys of represented entries are the map's keys, each once.
proof fn lemma_keys<V>(entries: Seq<(Id, V)>, contents: Map<Id, V>)
    requires
        entries_represent(entries, contents),
    ensures
        entries.map_values(|e: (Id, V)| e.0).no_duplicates(),
        entries.map_values(|e: (Id, V)| e.0).to_set() == contents.dom(),
        entries.len() == contents.len(),
        contents.dom().finite(),
{
    let ks = entries.map_values(|e: (Id, V)| e.0);
    assert(ks.no_duplicates()) by {
        assert forall|a: int, b: int| 0 <= a < ks.len() && 0 <= b < ks.len() && a != b implies ks[a]
            != ks[b] by {
            if a < b {
                assert(entries[a].0 != entries[b].0);
            } else {
                assert(entries[b].0 != entries[a].0);
            }
        }
    }
    assert(ks.to_set() =~= contents.dom()) by {
        assert forall|k: Id| contents.dom().contains(k) implies ks.to_set().contains(k) by {
            let i = choose|i: int| 0 <= i < entries.len() && entries[i].0 == k;
            assert(ks[i] == k);
        }
        assert forall|k: Id| ks.to_set().contains(k) implies contents.dom().contains(k) by {
            let i = choose|i: int| 0 <= i < ks.len() && ks[i] == k;
            assert(entries[i].0 == k);
        }
    }
    ks.unique_seq_to_set();
}

impl<V> IdMap<V> {
    #[verifier::type_invariant]
    closed spec fn entries_match(self) -> bool {
        entries_represent(self.entries@, self.contents@)
    }

    pub fn new() -> (r: IdMap<V>)
        ensures
            r@ == Map::<Id, V>::empty(),
    {
        IdMap { entries: Vec::new(), contents: Ghost(Map::empty()) }
    }

    /// The position of `key` among the entries.
    fn find(&self, key: &Id) -> (r: Option<usize>)
        ensures
            match r {
                Some(i) => i < self.entries@.len() && self.entries@[i as int].0 == *key,
                None => !self@.contains_key(*key),
            },
    {
        proof {
            use_type_invariant(self);
        }
        let mut i: usize = 0;
        while i < self.entries.len()
            invariant
                0 <= i <= self.entries@.len(),
                forall|j: int| 0 <= j < i ==> self.entries@[j].0 != *key,
            decreases self.entries@.len() - i,
        {
            if self.entries[i].0.same(key) {
                return Some(i);
            }
            i = i + 1;
        }
        None
    }

    pub fn contains_key(&self, key: &Id) -> (r: bool)
        ensures
            r == self@.contains_key(*key),
    {
        proof {
            use_type_invariant(self);
        }
        self.find(key).is_some()
    }

    /// The value stored under `key`, if any.
    pub fn get(&self, key: &Id) -> (r: Option<&V>)
        ensures
            match r {
                Some(v) => self@.contains_key(*key) && *v == self@[*key],
                None => !self@.contains_key(*key),
            },
    {
        proof {
            use_type_invariant(self);
        }
        match self.find(key) {
            Some(i) => Some(&self.entries[i].1),
            None => None,
        }
    }

    /// Stores `value` under `key`, in place of what was stored there.
    pub fn insert(&mut self, key: Id, value: V)
        ensures
            final(self)@ == old(self)@.insert(key, value),
    {
        proof {
            use_type_invariant(&*self);
        }
        let found = self.find(&key);
        let mut other: IdMap<V> = IdMap::new();
        std::mem::swap(self, &mut other);
        proof {
            use_type_invariant(&other);
        }
        let IdMap { entries: mut entries, contents: Ghost(contents) } = other;
        let ghost old_entries = entries@;
        match found {
            Some(i) => {
                entries[i] = (key, value);
            },
            None => {
                entries.push((key, value));
            },
        }
        let ghost new_contents = contents.insert(key, value);
        proof {
            assert forall|a: int, b: int|
                0 <= a < b < entries@.len() implies #[trigger] entries@[a].0
                != #[trigger] entries@[b].0 by {
                if b == old_entries.len() {
                    assert(!contents.contains_key(key));
                    assert(contents.contains_key(old_entries[a].0));
                } else {
                    assert(old_entries[a].0 != old_entries[b].0);
                }
            }
            assert forall|j: int| 0 <= j < entries@.len() implies {
                &&& new_contents.contains_key(#[trigger] entries@[j].0)
                &&& new_contents[entries@[j].0] == entries@[j].1
            } by {
                match found {
                    Some(i) => {
                        if j != i {
                            assert(old_entries[j].0 != old_entries[i as int].0);
                        }
                    },
                    None => {
                        if j < old_entries.len() {
                            assert(contents.contains_key(old_entries[j].0));
                        }
                    },
                }
            }
            assert forall|k: Id| new_contents.contains_key(k) implies exists|i: int|
                0 <= i < entries@.len() && #[trigger] entries@[i].0 == k by {
                if k != key {
                    let j = choose|j: int| 0 <= j < old_entries.len() && old_entries[j].0 == k;
                    assert(entries@[j].0 == k);
                } else {
                    match found {
                        Some(i) => assert(entries@[i as int].0 == k),
                        None => assert(entries@[old_entries.len() as int].0 == k),
                    }
                }
            }
        }
        assert(entries_represent(entries@, new_contents));
        *self = IdMap { entries, contents: Ghost(new_contents) };
    }

    /// Removes what is stored under `key`, and returns it.
    pub fn remove(&mut self, key: &Id) -> (r: Option<V>)
        ensures
            final(self)@ == old(self)@.remove(*key),
            match r {
                Some(v) => old(self)@.contains_key(*key) && v == old(self)@[*key],
                None => !old(self)@.contains_key(*key),
            },
    {
        proof {
            use_type_invariant(&*self);
        }
        match self.find(key) {
            None => {
                assert(old(self)@.remove(*key) =~= old(self)@);
                None
            },
            Some(i) => {
                let mut other: IdMap<V> = IdMap::new();
                std::mem::swap(self, &mut other);
                proof {
                    use_type_invariant(&other);
                }
                let IdMap { entries: mut entries, contents: Ghost(contents) } = other;
                let ghost old_entries = entries@;
                let (_, value) = entries.remove(i);
                let ghost new_contents = contents.remove(*key);
                proof {
                    assert forall|j: int| 0 <= j < entries@.len() implies {
                        &&& new_contents.contains_key(#[trigger] entries@[j].0)
                        &&& new_contents[entries@[j].0] == entries@[j].1
                    } by {
                        if j < i {
                            assert(entries@[j] == old_entries[j]);
                        } else {
                            assert(entries@[j] == old_entries[j + 1]);
                        }
                    }
                    assert forall|k: Id| new_contents.contains_key(k) implies exists|j: int|
                        0 <= j < entries@.len() && #[trigger] entries@[j].0 == k by {
                        let j = choose|j: int| 0 <= j < old_entries.len() && old_entries[j].0 == k;
                        if j < i {
                            assert(entries@[j].0 == k);
                        } else {
                            assert(entries@[j - 1].0 == k);
                        }
                    }
                    assert forall|a: int, b: int|
                        0 <= a < b < entries@.len() implies #[trigger] entries@[a].0
                        != #[trigger] entries@[b].0 by {
                        let oa = if a < i { a } else { a + 1 };
                        let ob = if b < i { b } else { b + 1 };
                        assert(entries@[a] == old_entries[oa]);
                        assert(entries@[b] == old_entries[ob]);
                    }
                }
                assert(entries_represent(entries@, new_contents));
                *self = IdMap { entries, contents: Ghost(new_contents) };
                Some(value)
            },
        }
    }

    /// The number of entries; the map is finite.
    pub fn len(&self) -> (r: usize)
        ensures
            r == self@.len(),
            self@.dom().finite(),
    {
        proof {
            use_type_invariant(self);
            lemma_keys(self.entries@, self.contents@);
        }
        self.entries.len()
    }

    /// The identifiers stored in the map, each once.
    pub fn keys(&self) -> (r: Vec<Id>)
        ensures
            r@.no_duplicates(),
            r@.to_set() == self@.dom(),
            r@.len() == self@.len(),
            self@.dom().finite(),
    {
        proof {
            use_type_invariant(self);
            lemma_keys(self.entries@, self.contents@);
        }
        let mut r: Vec<Id> = Vec::new();
        let mut i: usize = 0;
        while i < self.entries.len()
            invariant
                0 <= i <= self.entries@.len(),
                r@ == self.entries@.map_values(|e: (Id, V)| e.0).take(i as int),
            decreases self.entries@.len() - i,
        {
            r.push(self.entries[i].0);
            i = i + 1;
            assert(r@ =~= self.entries@.map_values(|e: (Id, V)| e.0).take(i as int));
        }
        assert(r@ =~= self.entries@.map_values(|e: (Id, V)| e.0));
        r
    }
}

} // verus!
