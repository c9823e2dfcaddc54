//! Per-node symbolic state tags and the set that holds them. Theme
//! resolution matches patterns against a node's pseudo-state set; the
//! scroll passes toggle the `Disabled` and overflow tags.

use vstd::prelude::*;

use crate::vec_set::{lemma_to_set_push, lemma_to_set_remove};

verus! {

broadcast use vstd::seq::group_seq_axioms, vstd::set::group_set_axioms;

/// A symbolic state tag on a node. `Disabled`, `OverflowX` and
/// `OverflowY` are written by the scroll passes; the interaction tags are
/// driven by the input layer and only read here.
#[derive(Clone, Copy, Debug, PartialEq, Eq, Structural)]
pub enum PseudoState {
    Disabled,
    OverflowX,
    OverflowY,
    Enter,
    Transitioning,
    Hover,
    Pressed,
}

/// A node's set of pseudo-state tags, backed by a duplicate-free vector.
#[derive(Clone, Debug)]
pub struct PseudoStateSet {
    pub states: Vec<PseudoState>,
}

impl View for PseudoStateSet {
    type V = Set<PseudoState>;

    open spec fn view(&self) -> Set<PseudoState> {
        self.states@.to_set()
    }
}

impl PseudoStateSet {
    /// The backing vector holds each tag at most once.
    pub open spec fn wf(self) -> bool {
        self.states@.no_duplicates()
    }

    /// The empty set: a node starts with no pseudo-state tags.
    pub fn new() -> (r: PseudoStateSet)
        ensures
            r@ == Set::<PseudoState>::empty(),
            r.states@ == Seq::<PseudoState>::empty(),
            r.wf(),
    {
        let r = PseudoStateSet { states: Vec::new() };
        proof {
            assert(r@ =~= Set::<PseudoState>::empty());
        }
        r
    }

    /// Whether `state` is present.
    pub fn has(&self, state: PseudoState) -> (r: bool)
        ensures
            r == self@.contains(state),
    {
        let mut i: usize = 0;
        while i < self.states.len()
            invariant
                0 <= i <= self.states@.len(),
                forall|j: int| 0 <= j < i ==> self.states@[j] != state,
            decreases self.states@.len() - i,
        {
            if self.states[i] == state {
                return true;
            }
            i += 1;
        }
        false
    }

    /// Adds `state`; a tag already present is not duplicated.
    pub fn add(&mut self, state: PseudoState)
        requires
            old(self).wf(),
        ensures
            final(self).wf(),
            final(self)@ == old(self)@.insert(state),
    {
        if !self.has(state) {
            proof {
                lemma_to_set_push(self.states@, state);
            }
            self.states.push(state);
        } else {
            proof {
                assert(self@ =~= self@.insert(state));
            }
        }
    }

    /// Removes `state`; removing an absent tag changes nothing.
    pub fn remove(&mut self, state: PseudoState)
        requires
            old(self).wf(),
        ensures
            final(self).wf(),
            final(self)@ == old(self)@.remove(state),
    {
        let mut i: usize = 0;
        while i < self.states.len()
            invariant
                old(self) == self,
                self.wf(),
                0 <= i <= self.states@.len(),
                forall|j: int| 0 <= j < i ==> self.states@[j] != state,
            decreases self.states@.len() - i,
        {
            if self.states[i] == state {
                proof {
                    lemma_to_set_remove(self.states@, i as int);
                }
                self.states.remove(i);
                return ;
            }
            i += 1;
        }
        proof {
            assert(!self@.contains(state));
            assert(self@ =~= self@.remove(state));
        }
    }

    /// The number of tags present.
    pub fn count(&self) -> (r: usize)
        requires
            self.wf(),
        ensures
            r == self@.len(),
    {
        proof {
            self.states@.unique_seq_to_set();
        }
        self.states.len()
    }

    /// Whether every tag of `self` is present in `other`.
    pub fn is_subset_of(&self, other: &PseudoStateSet) -> (r: bool)
        ensures
            r == self@.subset_of(other@),
    {
        let mut i: usize = 0;
        while i < self.states.len()
            invariant
                0 <= i <= self.states@.len(),
                forall|j: int| 0 <= j < i ==> other@.contains(#[trigger] self.states@[j]),
            decreases self.states@.len() - i,
        {
            if !other.has(self.states[i]) {
                assert(self@.contains(self.states@[i as int]));
                return false;
            }
            i += 1;
        }
        assert forall|s: PseudoState| self@.contains(s) implies other@.contains(s) by {
            let j = choose|j: int| 0 <= j < self.states@.len() && self.states@[j] == s;
            assert(other@.contains(self.states@[j]));
        }
        true
    }
}

impl Default for PseudoStateSet {
    fn default() -> (r: Self)
        ensures
            r@ == Set::<PseudoState>::empty(),
            r.wf(),
    {
        PseudoStateSet::new()
    }
}

} // verus!
