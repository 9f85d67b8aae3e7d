//! An association list keyed by widget id.
//!
//! The retained state store maps hierarchical string ids to per-widget
//! state. Entries are held in insertion order in a vector whose keys
//! are unique by content; lookups compare ids by content.

use vstd::prelude::*;

use crate::ident::id_owned;

verus! {

/// A map from widget id to `V`, keyed by id content, in insertion
/// order.
#[derive(Clone, Debug, PartialEq)]
pub struct IdMap<V> {
    pub entries: Vec<(String, V)>,
}

impl<V> IdMap<V> {
    /// Well-formed: no two entries share an id.
    pub open spec fn wf(self) -> bool {
        forall|i: int, j: int|
            0 <= i < j < self.entries@.len() ==> self.entries@[i].0@ != self.entries@[j].0@
    }

    /// Whether some entry has id `id`.
    pub open spec fn contains_spec(self, id: Seq<char>) -> bool {
        exists|i: int| 0 <= i < self.entries@.len() && self.entries@[i].0@ == id
    }

    /// The index of the entry with id `id`, when one exists.
    pub open spec fn idx_spec(self, id: Seq<char>) -> int {
        choose|i: int| 0 <= i < self.entries@.len() && self.entries@[i].0@ == id
    }

    /// The value stored under `id`, when one exists.
    pub open spec fn get_spec(self, id: Seq<char>) -> V {
        self.entries@[self.idx_spec(id)].1
    }

    pub fn new() -> (m: Self)
        ensures
            m.wf(),
            m.entries@.len() == 0,
            forall|id: Seq<char>| !m.contains_spec(id),
    {
        IdMap { entries: Vec::new() }
    }

    /// The index of the entry with id `id`, by linear search.
    pub fn index_of(&self, id: &str) -> (r: Option<usize>)
        requires
            self.wf(),
        ensures
            match r {
                Some(i) => i < self.entries@.len() && self.entries@[i as int].0@ == id@
                    && self.contains_spec(id@) && self.idx_spec(id@) == i as int,
                None => !self.contains_spec(id@),
            },
    {
        let ids = id_owned(id);
        let mut i: usize = 0;
        while i < self.entries.len()
            invariant
                self.wf(),
                ids@ == id@,
                i <= self.entries@.len(),
                forall|j: int| 0 <= j < i ==> self.entries@[j].0@ != id@,
            decreases self.entries@.len() - i,
        {
            if self.entries[i].0.eq(&ids) {
                proof {
                    assert(self.entries@[i as int].0@ == id@);
                }
                return Some(i);
            }
            i = i + 1;
        }
        None
    }

    /// Whether the map holds an entry for `id`.
    pub fn contains(&self, id: &str) -> (r: bool)
        requires
            self.wf(),
        ensures
            r == self.contains_spec(id@),
    {
        self.index_of(id).is_some()
    }

    /// A reference to the value under `id`, if any.
    pub fn get(&self, id: &str) -> (r: Option<&V>)
        requires
            self.wf(),
        ensures
            match r {
                Some(v) => self.contains_spec(id@) && *v == self.get_spec(id@),
                None => !self.contains_spec(id@),
            },
    {
        match self.index_of(id) {
            Some(i) => Some(&self.entries[i].1),
            None => None,
        }
    }

    /// Store `v` under `id`, replacing an existing entry or appending a
    /// new one; every other id keeps its value.
    pub fn set(&mut self, id: &str, v: V)
        requires
            old(self).wf(),
        ensures
            final(self).wf(),
            final(self).contains_spec(id@),
            final(self).get_spec(id@) == v,
            forall|k: Seq<char>|
                k != id@ ==> final(self).contains_spec(k) == old(self).contains_spec(k),
            forall|k: Seq<char>|
                k != id@ && old(self).contains_spec(k) ==> final(self).get_spec(k) == old(
                    self,
                ).get_spec(k),
            old(self).contains_spec(id@) ==> final(self).entries@.len() == old(
                self,
            ).entries@.len(),
            !old(self).contains_spec(id@) ==> final(self).entries@.len() == old(
                self,
            ).entries@.len() + 1,
    {
        let ids = id_owned(id);
        match self.index_of(id) {
            Some(i) => {
                self.entries.set(i, (ids, v));
                proof {
                    lemma_unique_lookup(*self);
                    assert(self.entries@[i as int].0@ == id@);
                    assert forall|k: Seq<char>|
                        k != id@ && old(self).contains_spec(k) implies self.contains_spec(k) by {
                        let j = old(self).idx_spec(k);
                        assert(self.entries@[j].0@ == k);
                    }
                    assert forall|k: Seq<char>|
                        k != id@ && self.contains_spec(k) implies old(self).contains_spec(k) by {
                        let j = self.idx_spec(k);
                        assert(old(self).entries@[j].0@ == k);
                    }
                }
            },
            None => {
                self.entries.push((ids, v));
                proof {
                    let n = old(self).entries@.len() as int;
                    assert(self.entries@[n].0@ == id@);
                    assert(forall|j: int|
                        0 <= j < n ==> self.entries@[j] == old(self).entries@[j]);
                    lemma_unique_lookup(*self);
                    assert forall|k: Seq<char>|
                        k != id@ && old(self).contains_spec(k) implies self.contains_spec(k) by {
                        let j = old(self).idx_spec(k);
                        assert(self.entries@[j].0@ == k);
                    }
                    assert forall|k: Seq<char>|
                        k != id@ && self.contains_spec(k) implies old(self).contains_spec(k) by {
                        let j = self.idx_spec(k);
                        assert(old(self).entries@[j].0@ == k);
                    }
                }
            },
        }
    }

    /// How many entries the map holds.
    pub fn len(&self) -> (r: usize)
        ensures
            r == self.entries@.len(),
    {
        self.entries.len()
    }
}

/// In a well-formed map, any entry whose id matches is the entry the
/// lookup functions denote.
pub proof fn lemma_unique_lookup<V>(m: IdMap<V>)
    requires
        m.wf(),
    ensures
        forall|i: int|
            0 <= i < m.entries@.len() ==> m.contains_spec(#[trigger] m.entries@[i].0@)
                && m.idx_spec(m.entries@[i].0@) == i && m.get_spec(m.entries@[i].0@)
                == m.entries@[i].1,
{
    assert forall|i: int| 0 <= i < m.entries@.len() implies m.contains_spec(
        #[trigger] m.entries@[i].0@,
    ) && m.idx_spec(m.entries@[i].0@) == i && m.get_spec(m.entries@[i].0@) == m.entries@[i].1 by {
        assert(m.contains_spec(m.entries@[i].0@));
        let j = m.idx_spec(m.entries@[i].0@);
        assert(0 <= j < m.entries@.len() && m.entries@[j].0@ == m.entries@[i].0@);
        if i != j {
            assert(false);
        }
    }
}

} // verus!
