//! A finite set of class references, kept as a vector without repeats.
use vstd::prelude::*;
use crate::lang::Id;

verus! {

#[derive(Debug, Clone)]
pub struct IdSet {
    ids: Vec<Id>,
}

impl View for IdSet {
    type V = Set<Id>;

    closed spec fn view(&self) -> Set<Id> {
        self.ids@.to_set()
    }
}

impl IdSet {
    /// No reference is held twice.
    pub closed spec fn wf(&self) -> bool {
        self.ids@.no_duplicates()
    }

    pub fn new() -> (r: IdSet)
        ensures
            r.wf(),
            r@ == Set::<Id>::empty(),
    {
        let r = IdSet { ids: Vec::new() };
        assert(r@ =~= Set::<Id>::empty());
        r
    }

    pub fn contains(&self, x: Id) -> (r: bool)
        ensures
            r == self@.contains(x),
    {
        let mut i: usize = 0;
        while i < self.ids.len()
            invariant
                i <= self.ids@.len(),
                forall|j: int| 0 <= j < i ==> self.ids@[j] != x,
            decreases self.ids@.len() - i,
        {
            if self.ids[i] == x {
                return true;
            }
            i += 1;
        }
        false
    }

    pub fn len(&self) -> (r: usize)
        requires
            self.wf(),
        ensures
            r == self@.len(),
    {
        proof {
            self.ids@.unique_seq_to_set();
        }
        self.ids.len()
    }

    pub fn insert(&mut self, x: Id)
        requires
            old(self).wf(),
        ensures
            final(self).wf(),
            final(self)@ == old(self)@.insert(x),
    {
        broadcast use Seq::lemma_push_to_set_commute;

        if !self.contains(x) {
            self.ids.push(x);
        } else {
            assert(old(self)@ =~= old(self)@.insert(x));
        }
    }

    /// Keeps the members that `keep` holds; tells whether any was dropped.
    fn keep_only(&mut self, Ghost(keep): Ghost<spec_fn(Id) -> bool>, test: &IdSet, inside: bool) -> (dropped:
        bool)
        requires
            old(self).wf(),
            forall|y: Id| #[trigger] keep(y) == (test@.contains(y) == inside),
        ensures
            final(self).wf(),
            final(self)@ == old(self)@.filter(keep),
            dropped == (final(self)@ != old(self)@),
    {
        let mut out: Vec<Id> = Vec::new();
        let mut dropped = false;
        let mut i: usize = 0;
        assert(self.ids@.subrange(0, 0).to_set().filter(keep) =~= out@.to_set());
        while i < self.ids.len()
            invariant
                i <= self.ids@.len(),
                self.ids@.no_duplicates(),
                out@.no_duplicates(),
                out@.to_set() == self.ids@.subrange(0, i as int).to_set().filter(keep),
                forall|y: Id| #[trigger] keep(y) == (test@.contains(y) == inside),
                !dropped ==> self.ids@.subrange(0, i as int).to_set().filter(keep)
                    == self.ids@.subrange(0, i as int).to_set(),
                dropped ==> exists|j: int| 0 <= j < i && !keep(#[trigger] self.ids@[j]),
            decreases self.ids@.len() - i,
        {
            let y = self.ids[i];
            let ghost pre = self.ids@.subrange(0, i as int);
            proof {
                assert(self.ids@.subrange(0, i + 1) == pre.push(y));
                if pre.contains(y) {
                    let j = choose|j: int| 0 <= j < pre.len() && pre[j] == y;
                    assert(self.ids@[j] == self.ids@[i as int]);
                }
                assert(!out@.to_set().contains(y));
            }
            let ghost out0 = out@;
            if test.contains(y) == inside {
                out.push(y);
                proof {
                    assert(keep(y));
                    pre.lemma_push_to_set_commute(y);
                    out0.lemma_push_to_set_commute(y);
                    assert(pre.to_set().insert(y).filter(keep) =~= pre.to_set().filter(keep).insert(y));
                    assert(out@.to_set() =~= pre.to_set().filter(keep).insert(y));
                }
            } else {
                dropped = true;
                proof {
                    pre.lemma_push_to_set_commute(y);
                    assert(pre.push(y).to_set().filter(keep) =~= pre.to_set().filter(keep));
                    assert(!keep(self.ids@[i as int]));
                }
            }
            proof {
                if !dropped {
                    pre.lemma_push_to_set_commute(y);
                    assert(pre.push(y).to_set().filter(keep) =~= pre.push(y).to_set());
                }
            }
            i += 1;
        }
        let ghost before = self@;
        assert(self.ids@.subrange(0, i as int) == self.ids@);
        self.ids = out;
        proof {
            if dropped {
                let j = choose|j: int| 0 <= j < old(self).ids@.len() && !keep(#[trigger] old(self).ids@[j]);
                assert(before.contains(old(self).ids@[j]));
                assert(!self@.contains(old(self).ids@[j]));
            }
        }
        dropped
    }

    pub fn remove(&mut self, x: Id)
        requires
            old(self).wf(),
        ensures
            final(self).wf(),
            final(self)@ == old(self)@.remove(x),
    {
        let mut single = IdSet::new();
        single.insert(x);
        self.keep_only(Ghost(|y: Id| y != x), &single, false);
        assert(self@ =~= old(self)@.remove(x));
    }

    /// Keeps only the members that `other` holds too; tells whether any was
    /// dropped.
    pub fn retain_in(&mut self, other: &IdSet) -> (dropped: bool)
        requires
            old(self).wf(),
        ensures
            final(self).wf(),
            final(self)@ == old(self)@.intersect(other@),
            dropped == (final(self)@ != old(self)@),
    {
        let r = self.keep_only(Ghost(|y: Id| other@.contains(y)), other, true);
        assert(self@ =~= old(self)@.intersect(other@));
        r
    }

    pub fn extend(&mut self, other: &IdSet)
        requires
            old(self).wf(),
        ensures
            final(self).wf(),
            final(self)@ == old(self)@.union(other@),
    {
        let mut i: usize = 0;
        while i < other.ids.len()
            invariant
                i <= other.ids@.len(),
                self.wf(),
                self@ == old(self)@.union(other.ids@.subrange(0, i as int).to_set()),
            decreases other.ids@.len() - i,
        {
            self.insert(other.ids[i]);
            proof {
                broadcast use Seq::lemma_push_to_set_commute;

                assert(other.ids@.subrange(0, i + 1) == other.ids@.subrange(0, i as int).push(other.ids@[i as int]));
                assert(self@ =~= old(self)@.union(other.ids@.subrange(0, i + 1).to_set()));
            }
            i += 1;
        }
        assert(other.ids@.subrange(0, i as int) == other.ids@);
        assert(self@ =~= old(self)@.union(other@));
    }

    /// Whether every member of `self` is a member of `other`.
    pub fn is_subset_of(&self, other: &IdSet) -> (r: bool)
        ensures
            r == self@.subset_of(other@),
    {
        let mut i: usize = 0;
        while i < self.ids.len()
            invariant
                i <= self.ids@.len(),
                forall|j: int| 0 <= j < i ==> other@.contains(#[trigger] self.ids@[j]),
            decreases self.ids@.len() - i,
        {
            if !other.contains(self.ids[i]) {
                assert(self@.contains(self.ids@[i as int]));
                return false;
            }
            i += 1;
        }
        assert forall|y: Id| self@.contains(y) implies other@.contains(y) by {
            let j = choose|j: int| 0 <= j < self.ids@.len() && self.ids@[j] == y;
        }
        true
    }
}

} // verus!
