//! A small collection of records in which no key occurs twice.

use vstd::prelude::*;

verus! {

/// A record that a [`Table`] finds by its key.
pub trait Entry: View {
    /// The key's type.
    type Key: View;

    /// The key of this record.
    spec fn key(&self) -> <Self::Key as View>::V;

    /// Whether `key` is the key of this record.
    fn has_key(&self, key: &Self::Key) -> (r: bool)
        ensures
            r == (self.key() == key@),
    ;
}

/// Whether `entries` lists the map `m`: each key of `m` once, with its value.
pub open spec fn lists<T: Entry>(
    entries: Seq<T>,
    m: Map<<T::Key as View>::V, <T as View>::V>,
) -> bool {
    &&& forall|i: int, j: int|
        0 <= i < j < entries.len() ==> (#[trigger] entries[i]).key() != (#[trigger] entries[j]).key()
    &&& forall|i: int|
        0 <= i < entries.len() ==> m.contains_key((#[trigger] entries[i]).key())
            && m[entries[i].key()] == entries[i]@
    &&& forall|k: <T::Key as View>::V| #[trigger]
        m.contains_key(k) ==> exists|i: int|
            0 <= i < entries.len() && (#[trigger] entries[i]).key() == k
}

/// Records found by key. Its view is the map from keys to the records' views.
pub struct Table<T> {
    entries: Vec<T>,
}

impl<T: Entry> View for Table<T> {
    type V = Map<<T::Key as View>::V, <T as View>::V>;

    closed spec fn view(&self) -> Self::V {
        Map::new(
            |k: <T::Key as View>::V|
                exists|i: int|
                    0 <= i < self.entries@.len() && (#[trigger] self.entries@[i]).key() == k,
            |k: <T::Key as View>::V|
                self.entries@[choose|i: int|
                    0 <= i < self.entries@.len() && (#[trigger] self.entries@[i]).key() == k]@,
        )
    }
}

impl<T: Entry> Table<T> {
    /// No key occurs twice.
    pub closed spec fn wf(&self) -> bool {
        lists(self.entries@, self@)
    }

    proof fn lemma_lists(&self)
        requires
            forall|i: int, j: int|
                0 <= i < j < self.entries@.len() ==> (#[trigger] self.entries@[i]).key() != (
                #[trigger] self.entries@[j]).key(),
        ensures
            self.wf(),
    {
        assert forall|i: int| 0 <= i < self.entries@.len() implies self@.contains_key(
            (#[trigger] self.entries@[i]).key(),
        ) && self@[self.entries@[i].key()] == self.entries@[i]@ by {
            let k = self.entries@[i].key();
            let j = choose|j: int|
                0 <= j < self.entries@.len() && (#[trigger] self.entries@[j]).key() == k;
            assert(self.entries@[j].key() == k);
            assert(i == j);
        }
    }

    /// A table without records.
    pub fn new() -> (r: Self)
        ensures
            r.wf(),
            r@ == Map::<<T::Key as View>::V, <T as View>::V>::empty(),
    {
        let r: Table<T> = Table { entries: Vec::new() };
        proof {
            r.lemma_lists();
            assert(r@ =~= Map::<<T::Key as View>::V, <T as View>::V>::empty());
        }
        r
    }

    fn position(&self, key: &T::Key) -> (r: Option<usize>)
        requires
            self.wf(),
        ensures
            match r {
                Some(i) => i < self.entries@.len() && self.entries@[i as int].key() == key@,
                None => !self@.contains_key(key@),
            },
    {
        let mut i: usize = 0;
        while i < self.entries.len()
            invariant
                i <= self.entries@.len(),
                forall|j: int| 0 <= j < i ==> (#[trigger] self.entries@[j]).key() != key@,
            decreases self.entries@.len() - i,
        {
            if self.entries[i].has_key(key) {
                return Some(i);
            }
            i = i + 1;
        }
        None
    }

    /// The record with the given key.
    pub fn get(&self, key: &T::Key) -> (r: Option<&T>)
        requires
            self.wf(),
        ensures
            match r {
                Some(entry) => self@.contains_key(key@) && self@[key@] == entry@ && entry.key()
                    == key@,
                None => !self@.contains_key(key@),
            },
    {
        match self.position(key) {
            Some(i) => Some(&self.entries[i]),
            None => None,
        }
    }

    /// Removes and returns the record with the given key.
    pub fn take(&mut self, key: &T::Key) -> (r: Option<T>)
        requires
            old(self).wf(),
        ensures
            final(self).wf(),
            final(self)@ == old(self)@.remove(key@),
            match r {
                Some(entry) => old(self)@.contains_key(key@) && old(self)@[key@] == entry@
                    && entry.key() == key@,
                None => !old(self)@.contains_key(key@),
            },
    {
        match self.position(key) {
            Some(i) => {
                let ghost before = self.entries@;
                let entry: T = self.entries.remove(i);
                proof {
                    let after = self.entries@;
                    assert forall|a: int, b: int| 0 <= a < b < after.len() implies (
                    #[trigger] after[a]).key() != (#[trigger] after[b]).key() by {
                        let a0 = if a < i { a } else { a + 1 };
                        let b0 = if b < i { b } else { b + 1 };
                        assert(after[a] == before[a0]);
                        assert(after[b] == before[b0]);
                    }
                    self.lemma_lists();
                    assert forall|k: <T::Key as View>::V| #[trigger]
                        self@.contains_key(k) <==> old(self)@.remove(key@).contains_key(k) by {
                        if self@.contains_key(k) {
                            let a = choose|a: int|
                                0 <= a < after.len() && (#[trigger] after[a]).key() == k;
                            let a0 = if a < i { a } else { a + 1 };
                            assert(after[a] == before[a0]);
                            assert(before[a0].key() != before[i as int].key());
                        }
                        if old(self)@.remove(key@).contains_key(k) {
                            let a0 = choose|a0: int|
                                0 <= a0 < before.len() && (#[trigger] before[a0]).key() == k;
                            let a = if a0 < i { a0 } else { a0 - 1 };
                            assert(after[a] == before[a0]);
                        }
                    }
                    assert forall|k: <T::Key as View>::V| #[trigger]
                        self@.contains_key(k) implies self@[k] == old(self)@.remove(key@)[k] by {
                        let a = choose|a: int|
                            0 <= a < after.len() && (#[trigger] after[a]).key() == k;
                        let a0 = if a < i { a } else { a + 1 };
                        assert(after[a] == before[a0]);
                        assert(self@[k] == after[a]@);
                        assert(old(self)@[before[a0].key()] == before[a0]@);
                    }
                    assert(self@ =~= old(self)@.remove(key@));
                }
                Some(entry)
            },
            None => {
                assert(self@ =~= old(self)@.remove(key@));
                None
            },
        }
    }

    /// Adds a record under a key that is not in use.
    pub fn insert(&mut self, entry: T)
        requires
            old(self).wf(),
            !old(self)@.contains_key(entry.key()),
        ensures
            final(self).wf(),
            final(self)@ == old(self)@.insert(entry.key(), entry@),
    {
        let ghost before = self.entries@;
        self.entries.push(entry);
        proof {
            let after = self.entries@;
            assert(after.drop_last() =~= before);
            assert forall|a: int, b: int| 0 <= a < b < after.len() implies (
            #[trigger] after[a]).key() != (#[trigger] after[b]).key() by {
                assert(after[a] == before[a]);
                if b < before.len() {
                    assert(after[b] == before[b]);
                } else {
                    assert(old(self)@.contains_key(before[a].key()));
                }
            }
            self.lemma_lists();
            let target = old(self)@.insert(entry.key(), entry@);
            assert forall|k: <T::Key as View>::V| #[trigger]
                self@.contains_key(k) <==> target.contains_key(k) by {
                if self@.contains_key(k) {
                    let a = choose|a: int|
                        0 <= a < after.len() && (#[trigger] after[a]).key() == k;
                    if a < before.len() {
                        assert(after[a] == before[a]);
                    }
                }
                if target.contains_key(k) {
                    if k == entry.key() {
                        assert(after[before.len() as int].key() == k);
                    } else {
                        let a = choose|a: int|
                            0 <= a < before.len() && (#[trigger] before[a]).key() == k;
                        assert(after[a] == before[a]);
                    }
                }
            }
            assert forall|k: <T::Key as View>::V| #[trigger]
                self@.contains_key(k) implies self@[k] == target[k] by {
                let a = choose|a: int| 0 <= a < after.len() && (#[trigger] after[a]).key() == k;
                assert(self@[k] == after[a]@);
                if a < before.len() {
                    assert(after[a] == before[a]);
                    assert(old(self)@[before[a].key()] == before[a]@);
                }
            }
            assert(self@ =~= target);
        }
    }

    /// Removes all records.
    pub fn clear(&mut self)
        ensures
            final(self).wf(),
            final(self)@ == Map::<<T::Key as View>::V, <T as View>::V>::empty(),
    {
        self.entries.clear();
        proof {
            self.lemma_lists();
            assert(self@ =~= Map::<<T::Key as View>::V, <T as View>::V>::empty());
        }
    }

    /// All records.
    pub fn records(&self) -> (r: &Vec<T>)
        requires
            self.wf(),
        ensures
            lists(r@, self@),
    {
        &self.entries
    }
}

} // verus!
