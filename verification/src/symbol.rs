//! Identities of definitions, source locations, and sets of definitions.

use vstd::prelude::*;

verus! {

/// The identity of one definition (a function, a type, a macro) of the
/// analysed program: the crate that defines it and its index in that crate.
#[derive(Clone, Copy, Debug, PartialEq, Eq, Hash, Structural)]
pub struct DefId {
    pub krate: u32,
    pub index: u32,
}

/// A region of source text, as a half-open range of byte offsets.
#[derive(Clone, Copy, Debug, PartialEq, Eq, Hash, Structural)]
pub struct Span {
    pub lo: u32,
    pub hi: u32,
}

/// A finite set of definitions.
///
/// The members are kept in insertion order and none is stored twice, so the
/// number of stored entries is the cardinality of the set.
#[derive(Clone, Debug)]
pub struct DefIdSet {
    ids: Vec<DefId>,
}

impl View for DefIdSet {
    type V = Set<DefId>;

    closed spec fn view(&self) -> Set<DefId> {
        self.ids@.to_set()
    }
}

impl DefIdSet {
    /// No member is stored twice.
    pub closed spec fn wf(&self) -> bool {
        self.ids@.no_duplicates()
    }

    /// The empty set.
    pub fn new() -> (set: Self)
        ensures
            set.wf(),
            set@ == Set::<DefId>::empty(),
    {
        let set = DefIdSet { ids: Vec::new() };
        set
    }

    /// Whether `id` is a member.
    pub fn contains(&self, id: DefId) -> (found: bool)
        ensures
            found == self@.contains(id),
    {
        let mut i: usize = 0;
        while i < self.ids.len()
            invariant
                i <= self.ids.len(),
                forall|j: int| 0 <= j < i ==> self.ids@[j] != id,
            decreases self.ids.len() - i,
        {
            if self.ids[i] == id {
                return true;
            }
            i += 1;
        }
        false
    }

    /// Adds `id`; returns whether it was new.
    pub fn insert(&mut self, id: DefId) -> (fresh: bool)
        requires
            old(self).wf(),
        ensures
            final(self).wf(),
            final(self)@ == old(self)@.insert(id),
            fresh == !old(self)@.contains(id),
    {
        if self.contains(id) {
            false
        } else {
            let ghost before = self.ids@;
            self.ids.push(id);
            assert(self.ids@.to_set() =~= before.to_set().insert(id)) by {
                assert forall|d: DefId| self.ids@.to_set().contains(d) implies before.to_set().insert(id).contains(d) by {
                    let k = choose|k: int| 0 <= k < self.ids@.len() && self.ids@[k] == d;
                }
                assert forall|d: DefId| before.to_set().insert(id).contains(d) implies self.ids@.to_set().contains(d) by {
                    if d == id {
                        assert(self.ids@[before.len() as int] == d);
                    } else {
                        let k = choose|k: int| 0 <= k < before.len() && before[k] == d;
                        assert(self.ids@[k] == d);
                    }
                }
            }
            true
        }
    }

    /// Whether the set has no member.
    pub fn is_empty(&self) -> (empty: bool)
        ensures
            empty == (self@ == Set::<DefId>::empty()),
    {
        let empty = self.ids.len() == 0;
        proof {
            if empty {
                assert(self@ =~= Set::<DefId>::empty());
            } else {
                assert(self.ids@.to_set().contains(self.ids@[0]));
            }
        }
        empty
    }

    /// The number of members.
    pub fn len(&self) -> (n: usize)
        requires
            self.wf(),
        ensures
            n == self@.len(),
            self@.finite(),
    {
        proof {
            self.ids@.unique_seq_to_set();
        }
        self.ids.len()
    }
}

} // verus!
