use vstd::prelude::*;

verus! {

/// The entries of a cache, each under the string form of its key, in the
/// order in which the keys came. No key occurs twice.
#[derive(Debug)]
pub struct EntryMap<E> {
    slots: Vec<(String, E)>,
}

impl<E> EntryMap<E> {
    /// The keys, oldest first.
    pub closed spec fn keys(&self) -> Seq<Seq<char>> {
        Seq::new(self.slots@.len(), |i: int| self.slots@[i].0@)
    }

    /// The entry of the key at the position `i`.
    pub closed spec fn entry_at(&self, i: int) -> E {
        self.slots@[i].1
    }

    /// No key occurs twice.
    pub open spec fn wf(&self) -> bool {
        self.keys().no_duplicates()
    }

    /// The entries by key.
    pub open spec fn map(&self) -> Map<Seq<char>, E> {
        Map::new(
            |key: Seq<char>| self.keys().contains(key),
            |key: Seq<char>| self.entry_at(self.keys().index_of(key)),
        )
    }

    /// The key at a position is mapped to the entry at that position.
    pub proof fn lemma_map_at(&self, i: int)
        requires
            self.wf(),
            0 <= i < self.keys().len(),
        ensures
            self.map().contains_key(self.keys()[i]),
            self.map()[self.keys()[i]] == self.entry_at(i),
            self.keys().index_of(self.keys()[i]) == i,
    {
    }

    /// A map without entries.
    pub fn new() -> (entries: Self)
        ensures
            entries.wf(),
            entries.keys() == Seq::<Seq<char>>::empty(),
            entries.map() == Map::<Seq<char>, E>::empty(),
    {
        EntryMap { slots: Vec::new() }
    }

    /// The number of entries.
    pub fn len(&self) -> (len: usize)
        ensures
            len == self.keys().len(),
    {
        self.slots.len()
    }

    /// The position of `key`, if it has an entry.
    pub fn find(&self, key: &String) -> (position: Option<usize>)
        requires
            self.wf(),
        ensures
            match position {
                Some(i) => {
                    &&& i < self.keys().len()
                    &&& self.keys()[i as int] == key@
                    &&& self.map().contains_key(key@)
                    &&& self.map()[key@] == self.entry_at(i as int)
                },
                None => !self.map().contains_key(key@),
            },
    {
        let mut index: usize = 0;
        while index < self.slots.len()
            invariant
                self.wf(),
                index <= self.slots@.len(),
                forall|i: int| 0 <= i < index ==> self.keys()[i] != key@,
            decreases self.slots@.len() - index,
        {
            if self.slots[index].0 == *key {
                proof {
                    self.lemma_map_at(index as int);
                }
                return Some(index);
            }
            index = index + 1;
        }
        None
    }

    /// The key at the position `i`.
    pub fn key(&self, i: usize) -> (key: &String)
        requires
            i < self.keys().len(),
        ensures
            key@ == self.keys()[i as int],
    {
        &self.slots[i].0
    }

    /// The entry at the position `i`.
    pub fn entry(&self, i: usize) -> (entry: &E)
        requires
            i < self.keys().len(),
        ensures
            *entry == self.entry_at(i as int),
    {
        &self.slots[i].1
    }

    /// Puts `entry` in the place of the entry at the position `i`, which is
    /// handed out.
    pub fn replace(&mut self, i: usize, entry: E) -> (former: E)
        requires
            old(self).wf(),
            i < old(self).keys().len(),
        ensures
            final(self).wf(),
            final(self).keys() == old(self).keys(),
            former == old(self).entry_at(i as int),
            final(self).entry_at(i as int) == entry,
            forall|j: int|
                0 <= j < old(self).keys().len() && j != i ==> final(self).entry_at(j) == old(
                    self,
                ).entry_at(j),
            final(self).map() == old(self).map().insert(old(self).keys()[i as int], entry),
    {
        let key = self.slots[i].0.clone();
        self.slots.push((key, entry));
        let former = self.slots.swap_remove(i);
        proof {
            assert(self.keys() =~= old(self).keys());
            let key_text = old(self).keys()[i as int];
            assert forall|text: Seq<char>|
                #![trigger self.map().dom().contains(text)]
                #![trigger self.map()[text]]
                self.keys().contains(text) implies self.map()[text] == old(self).map().insert(
                key_text,
                entry,
            )[text] by {
            }
        }
        former.1
    }

    /// Stores `entry` under `key`. An entry that was there before is dropped.
    pub fn insert(&mut self, key: String, entry: E)
        requires
            old(self).wf(),
        ensures
            final(self).wf(),
            final(self).map() == old(self).map().insert(key@, entry),
            final(self).keys() == if old(self).map().contains_key(key@) {
                old(self).keys()
            } else {
                old(self).keys().push(key@)
            },
    {
        match self.find(&key) {
            Some(i) => {
                let _ = self.replace(i, entry);
            },
            None => {
                self.slots.push((key, entry));
                proof {
                    let text = key@;
                    assert(self.keys() =~= old(self).keys().push(text));
                    let last = old(self).keys().len() as int;
                    assert(self.keys()[last] == text);
                    assert forall|other: Seq<char>|
                        #![trigger self.map().dom().contains(other)]
                        #![trigger self.map()[other]]
                        self.keys().contains(other) implies (other == text || old(
                        self,
                    ).keys().contains(other)) && self.map()[other] == old(self).map().insert(
                        text,
                        entry,
                    )[other] by {
                    }
                    assert forall|other: Seq<char>| old(self).keys().contains(other) implies #[trigger]
                        self.keys().contains(other) by {
                        let j = old(self).keys().index_of(other);
                        assert(self.keys()[j] == other);
                    }
                }
            },
        }
    }

    /// Takes out the key at the position `i`, with its entry.
    pub fn remove(&mut self, i: usize) -> (slot: (String, E))
        requires
            old(self).wf(),
            i < old(self).keys().len(),
        ensures
            final(self).wf(),
            slot.0@ == old(self).keys()[i as int],
            slot.1 == old(self).entry_at(i as int),
            final(self).keys() == old(self).keys().remove(i as int),
            final(self).map() == old(self).map().remove(old(self).keys()[i as int]),
            forall|j: int|
                0 <= j < final(self).keys().len() ==> final(self).entry_at(j) == old(
                    self,
                ).entry_at(if j < i { j } else { j + 1 }),
    {
        let slot = self.slots.remove(i);
        proof {
            let text = old(self).keys()[i as int];
            assert(self.keys() =~= old(self).keys().remove(i as int));
            assert forall|other: Seq<char>|
                #![trigger self.map().dom().contains(other)]
                #![trigger self.map()[other]]
                self.keys().contains(other) implies other != text && old(self).keys().contains(
                other,
            ) && self.map()[other] == old(self).map()[other] by {
            }
            assert forall|other: Seq<char>|
                old(self).keys().contains(other) && other != text implies #[trigger]
                self.keys().contains(other) by {
                let before = old(self).keys().index_of(other);
                let j = if before < i { before } else { before - 1 };
                assert(self.keys()[j] == other);
            }
        }
        slot
    }
}

} // verus!
