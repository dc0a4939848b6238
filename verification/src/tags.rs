//! Tags: for each entity a mapping from tag name to an optional value.

use vstd::prelude::*;
use vstd::string::*;
use crate::text::{opt_text, clone_opt_text};

verus! {

/// One tag of an entity.
#[derive(Debug)]
pub struct TagEntry {
    pub name: String,
    pub value: Option<String>,
}

/// The tags of one entity. No name occurs twice; the order of the entries
/// carries no meaning.
#[derive(Debug)]
pub struct TagMap {
    entries: Vec<TagEntry>,
}

/// What optional tags hold.
pub open spec fn opt_tags(tags: Option<TagMap>) -> Option<Map<Seq<char>, Option<Seq<char>>>> {
    match tags {
        Some(t) => Some(t@),
        None => None,
    }
}

impl View for TagMap {
    type V = Map<Seq<char>, Option<Seq<char>>>;

    closed spec fn view(&self) -> Map<Seq<char>, Option<Seq<char>>> {
        Map::new(
            |name: Seq<char>| self.names().contains(name),
            |name: Seq<char>| opt_text(self.entries[self.names().index_of(name)].value),
        )
    }
}

impl TagMap {
    /// The tag names, in storage order.
    pub closed spec fn names(self) -> Seq<Seq<char>> {
        Seq::new(self.entries.len() as nat, |i: int| self.entries[i].name@)
    }

    #[verifier::type_invariant]
    spec fn distinct(self) -> bool {
        self.names().no_duplicates()
    }

    /// A tag map without tags.
    pub fn new() -> (tags: TagMap)
        ensures
            tags@ == Map::<Seq<char>, Option<Seq<char>>>::empty(),
    {
        let tags = TagMap { entries: Vec::new() };
        assert(tags@ =~= Map::<Seq<char>, Option<Seq<char>>>::empty());
        tags
    }

    /// Moves the entries out and leaves the map empty.
    fn take_entries(&mut self) -> (entries: Vec<TagEntry>)
        ensures
            entries == old(self).entries,
    {
        let mut taken = TagMap::new();
        std::mem::swap(self, &mut taken);
        taken.entries
    }

    fn position(&self, name: &String) -> (found: Option<usize>)
        ensures
            match found {
                Some(i) => i < self.entries.len() && self.entries[i as int].name@ == name@,
                None => !self.names().contains(name@),
            },
    {
        let mut i: usize = 0;
        while i < self.entries.len()
            invariant
                i <= self.entries.len(),
                forall|j: int| 0 <= j < i ==> self.entries[j].name@ != name@,
            decreases self.entries.len() - i,
        {
            if self.entries[i].name == *name {
                return Some(i);
            }
            i += 1;
        }
        None
    }

    /// With distinct names, each entry is what the view holds under its name.
    proof fn lemma_entry(self, i: int)
        requires
            self.distinct(),
            0 <= i < self.entries.len(),
        ensures
            self.names()[i] == self.entries[i].name@,
            self.names().contains(self.entries[i].name@),
            self.names().index_of(self.entries[i].name@) == i,
            self@.contains_key(self.entries[i].name@),
            self@[self.entries[i].name@] == opt_text(self.entries[i].value),
    {
        let names = self.names();
        assert(names[i] == self.entries[i].name@);
        let k = names.index_of(names[i]);
        assert(0 <= k < names.len() && names[k] == names[i]);
    }

    /// The number of tags.
    pub fn len(&self) -> (n: usize)
        ensures
            n == self@.len(),
            self@.dom().finite(),
    {
        proof {
            use_type_invariant(self);
            self.names().unique_seq_to_set();
            assert(self@.dom() =~= self.names().to_set());
        }
        self.entries.len()
    }

    /// Whether there is no tag at all.
    pub fn is_empty(&self) -> (empty: bool)
        ensures
            empty == (self@.len() == 0),
            self@.dom().finite(),
    {
        self.len() == 0
    }

    /// The value stored under `name`, if a tag of that name is present.
    pub fn get(&self, name: &str) -> (value: Option<&Option<String>>)
        ensures
            value is Some == self@.contains_key(name@),
            value matches Some(v) ==> opt_text(*v) == self@[name@],
    {
        let owned = String::from_str(name);
        match self.position(&owned) {
            Some(i) => {
                proof {
                    use_type_invariant(self);
                    self.lemma_entry(i as int);
                }
                Some(&self.entries[i].value)
            },
            None => None,
        }
    }

    /// Sets the tag `name` to `value` and returns the value it replaces, if
    /// the tag was present.
    pub fn insert(&mut self, name: String, value: Option<String>) -> (previous: Option<
        Option<String>,
    >)
        ensures
            final(self)@ == old(self)@.insert(name@, opt_text(value)),
            previous is Some == old(self)@.contains_key(name@),
            previous matches Some(p) ==> opt_text(p) == old(self)@[name@],
    {
        proof {
            use_type_invariant(&*self);
        }
        let ghost before = *self;
        let ghost key = name@;
        let ghost val = opt_text(value);
        match self.position(&name) {
            Some(i) => {
                let previous = clone_opt_text(&self.entries[i].value);
                proof {
                    before.lemma_entry(i as int);
                }
                let mut entries = self.take_entries();
                entries.set(i, TagEntry { name, value });
                let ghost names = Seq::new(entries.len() as nat, |j: int| entries[j].name@);
                assert(names =~= before.names());
                *self = TagMap { entries };
                proof {
                    assert(self.names() =~= before.names());
                    assert forall|k: Seq<char>| self.names().contains(k) implies #[trigger] self@[k]
                        == before@.insert(key, val)[k] by {
                        let j = self.names().index_of(k);
                        assert(0 <= j < self.names().len() && self.names()[j] == k);
                        before.lemma_entry(j);
                    }
                    assert(self@ =~= before@.insert(key, val));
                }
                Some(previous)
            },
            None => {
                let mut entries = self.take_entries();
                entries.push(TagEntry { name, value });
                let ghost names = Seq::new(entries.len() as nat, |j: int| entries[j].name@);
                let ghost n = before.entries.len() as int;
                assert(names =~= before.names().push(key));
                assert(names.no_duplicates()) by {
                    assert forall|a: int, b: int|
                        0 <= a < names.len() && 0 <= b < names.len() && a != b implies names[a]
                        != names[b] by {
                        if a < n && b < n {
                            assert(before.names()[a] != before.names()[b]);
                        } else if a < n {
                            assert(before.names()[a] == names[a]);
                        } else {
                            assert(before.names()[b] == names[b]);
                        }
                    }
                }
                *self = TagMap { entries };
                proof {
                    assert(self.names() =~= names);
                    assert forall|k: Seq<char>| self.names().contains(k) implies #[trigger] self@[k]
                        == before@.insert(key, val)[k] by {
                        let j = self.names().index_of(k);
                        assert(0 <= j < self.names().len() && self.names()[j] == k);
                        self.lemma_entry(j);
                        if j < n {
                            before.lemma_entry(j);
                        }
                    }
                    assert forall|k: Seq<char>| before.names().contains(k) implies self.names().contains(
                        k,
                    ) by {
                        let j = before.names().index_of(k);
                        assert(self.names()[j] == k);
                    }
                    assert(self.names()[n] == key);
                    assert(self@ =~= before@.insert(key, val));
                }
                None
            },
        }
    }

    /// Removes the tag `name` and returns the value it had, if it was present.
    pub fn remove(&mut self, name: &str) -> (previous: Option<Option<String>>)
        ensures
            final(self)@ == old(self)@.remove(name@),
            previous is Some == old(self)@.contains_key(name@),
            previous matches Some(p) ==> opt_text(p) == old(self)@[name@],
    {
        proof {
            use_type_invariant(&*self);
        }
        let ghost before = *self;
        let ghost key = name@;
        let owned = String::from_str(name);
        match self.position(&owned) {
            Some(i) => {
                proof {
                    before.lemma_entry(i as int);
                }
                let mut entries = self.take_entries();
                let entry = entries.remove(i);
                let ghost names = Seq::new(entries.len() as nat, |j: int| entries[j].name@);
                assert(names =~= before.names().remove(i as int));
                assert(names.no_duplicates()) by {
                    assert forall|a: int, b: int|
                        0 <= a < names.len() && 0 <= b < names.len() && a != b implies names[a]
                        != names[b] by {
                        let a0 = if a < i { a } else { a + 1 };
                        let b0 = if b < i { b } else { b + 1 };
                        assert(names[a] == before.names()[a0]);
                        assert(names[b] == before.names()[b0]);
                    }
                }
                *self = TagMap { entries };
                proof {
                    assert(self.names() =~= names);
                    assert forall|k: Seq<char>| self.names().contains(k) implies k != key
                        && before.names().contains(k) && #[trigger] self@[k] == before@[k] by {
                        let j = self.names().index_of(k);
                        assert(0 <= j < self.names().len() && self.names()[j] == k);
                        self.lemma_entry(j);
                        if j < i {
                            before.lemma_entry(j);
                        } else {
                            before.lemma_entry(j + 1);
                        }
                    }
                    assert forall|k: Seq<char>| before.names().contains(k) && k
                        != key implies self.names().contains(k) by {
                        let j = before.names().index_of(k);
                        assert(0 <= j < before.names().len() && before.names()[j] == k);
                        if j < i {
                            assert(self.names()[j] == k);
                        } else {
                            assert(self.names()[j - 1] == k);
                        }
                    }
                    assert(self@ =~= before@.remove(key));
                }
                Some(entry.value)
            },
            None => {
                proof {
                    assert(self@ =~= before@.remove(key));
                }
                None
            },
        }
    }

    /// The tags as a list: every tag once, in no particular order.
    pub fn entries(&self) -> (list: Vec<TagEntry>)
        ensures
            list.len() == self@.len(),
            self@.dom().finite(),
            forall|i: int|
                0 <= i < list.len() ==> self@.contains_key(#[trigger] list[i].name@) && self@[list[i].name@]
                    == opt_text(list[i].value),
            forall|i: int, j: int|
                0 <= i < j < list.len() ==> list[i].name@ != list[j].name@,
            forall|name: Seq<char>|
                self@.contains_key(name) ==> exists|i: int|
                    0 <= i < list.len() && #[trigger] list[i].name@ == name,
    {
        proof {
            use_type_invariant(self);
            self.names().unique_seq_to_set();
            assert(self@.dom() =~= self.names().to_set());
        }
        let mut list: Vec<TagEntry> = Vec::new();
        let mut i: usize = 0;
        while i < self.entries.len()
            invariant
                i <= self.entries.len(),
                list.len() == i,
                forall|j: int| 0 <= j < i ==> #[trigger] list[j] == self.entries[j],
            decreases self.entries.len() - i,
        {
            let entry = TagEntry {
                name: self.entries[i].name.clone(),
                value: clone_opt_text(&self.entries[i].value),
            };
            list.push(entry);
            i += 1;
        }
        proof {
            assert forall|j: int| 0 <= j < list.len() implies self@.contains_key(
                #[trigger] list[j].name@,
            ) && self@[list[j].name@] == opt_text(list[j].value) by {
                self.lemma_entry(j);
            }
            assert forall|a: int, b: int| 0 <= a < b < list.len() implies list[a].name@
                != list[b].name@ by {
                assert(self.names()[a] != self.names()[b]);
            }
            assert forall|name: Seq<char>| self@.contains_key(name) implies exists|j: int|
                0 <= j < list.len() && #[trigger] list[j].name@ == name by {
                let j = self.names().index_of(name);
                assert(0 <= j < self.names().len() && self.names()[j] == name);
                assert(list[j].name@ == name);
            }
        }
        list
    }

    /// Whether a tag of this name is present.
    pub fn contains_key(&self, name: &str) -> (present: bool)
        ensures
            present == self@.contains_key(name@),
    {
        let owned = String::from_str(name);
        let found = self.position(&owned);
        proof {
            if let Some(i) = found {
                assert(self.names()[i as int] == name@);
            }
        }
        found.is_some()
    }
}

impl Clone for TagMap {
    /// A copy that holds the same tags.
    fn clone(&self) -> (copy: TagMap)
        ensures
            copy@ == self@,
    {
        proof {
            use_type_invariant(self);
        }
        let mut entries: Vec<TagEntry> = Vec::new();
        let mut i: usize = 0;
        while i < self.entries.len()
            invariant
                i <= self.entries.len(),
                entries.len() == i,
                forall|j: int| 0 <= j < i ==> #[trigger] entries[j] == self.entries[j],
            decreases self.entries.len() - i,
        {
            let entry = TagEntry {
                name: self.entries[i].name.clone(),
                value: clone_opt_text(&self.entries[i].value),
            };
            entries.push(entry);
            i += 1;
        }
        let ghost names = Seq::new(entries.len() as nat, |j: int| entries[j].name@);
        assert(names =~= self.names());
        let copy = TagMap { entries };
        assert(copy.names() =~= self.names());
        assert(copy@ =~= self@);
        copy
    }
}

} // verus!
