//! The node arena standing for the retained scene graph: per-node
//! computed style, lock table, pseudo-state set and measured layout size,
//! and the two style write paths — the checked one that respects a node's
//! locked attributes and the unchecked one that bypasses them.

use vstd::prelude::*;

use crate::geometry::Size;
use crate::pseudo_state::{PseudoState, PseudoStateSet};
use crate::ui_style::{LockableStyleAttribute, LockedStyleAttributes, StyleValue};

verus! {

broadcast use vstd::seq::group_seq_axioms, vstd::set::group_set_axioms, vstd::map::group_map_axioms;

/// A node's identity: its index in the arena. Identity is the only
/// cross-reference currency between components.
pub type NodeId = usize;

/// The identity a role field holds before its node has been assigned.
pub const PLACEHOLDER: NodeId = usize::MAX;

/// A node's computed style: the current value of each attribute that has
/// been written, as an association vector with unique keys.
#[derive(Clone, Debug)]
pub struct ComputedStyle {
    pub entries: Vec<(LockableStyleAttribute, StyleValue)>,
}

/// The attribute-to-value map an entry sequence denotes.
pub open spec fn style_map(s: Seq<(LockableStyleAttribute, StyleValue)>) -> Map<
    LockableStyleAttribute,
    StyleValue,
> {
    Map::new(
        |a: LockableStyleAttribute| exists|i: int| 0 <= i < s.len() && s[i].0 == a,
        |a: LockableStyleAttribute| s[choose|i: int| 0 <= i < s.len() && s[i].0 == a].1,
    )
}

impl View for ComputedStyle {
    type V = Map<LockableStyleAttribute, StyleValue>;

    open spec fn view(&self) -> Map<LockableStyleAttribute, StyleValue> {
        style_map(self.entries@)
    }
}

impl ComputedStyle {
    /// Each attribute appears at most once.
    pub open spec fn wf(self) -> bool {
        forall|i: int, j: int|
            0 <= i < j < self.entries@.len() ==> (#[trigger] self.entries@[i]).0 != (
            #[trigger] self.entries@[j]).0
    }

    /// A style with nothing written yet.
    pub fn new() -> (r: ComputedStyle)
        ensures
            r@ == Map::<LockableStyleAttribute, StyleValue>::empty(),
            r.wf(),
    {
        let r = ComputedStyle { entries: Vec::new() };
        proof {
            assert(r@ =~= Map::<LockableStyleAttribute, StyleValue>::empty());
        }
        r
    }

    /// The current value of `attr`, or `None` where nothing has written
    /// it yet.
    pub fn get(&self, attr: LockableStyleAttribute) -> (r: Option<StyleValue>)
        requires
            self.wf(),
        ensures
            r == if self@.dom().contains(attr) {
                Some(self@[attr])
            } else {
                Option::<StyleValue>::None
            },
    {
        let mut i: usize = 0;
        while i < self.entries.len()
            invariant
                self.wf(),
                0 <= i <= self.entries@.len(),
                forall|j: int| 0 <= j < i ==> (#[trigger] self.entries@[j]).0 != attr,
            decreases self.entries@.len() - i,
        {
            let (a, v) = self.entries[i];
            if a == attr {
                proof {
                    let w = choose|k: int|
                        0 <= k < self.entries@.len() && self.entries@[k].0 == attr;
                    assert(w == i);
                }
                return Some(v);
            }
            i += 1;
        }
        None
    }

    /// Writes `value` to `attr`, replacing any earlier value.
    pub fn set(&mut self, attr: LockableStyleAttribute, value: StyleValue)
        requires
            old(self).wf(),
        ensures
            final(self).wf(),
            final(self)@ == old(self)@.insert(attr, value),
    {
        let ghost orig = self.entries@;
        let mut i: usize = 0;
        while i < self.entries.len()
            invariant
                self.wf(),
                orig == old(self).entries@,
                self.entries@ == orig,
                0 <= i <= self.entries@.len(),
                forall|j: int| 0 <= j < i ==> (#[trigger] self.entries@[j]).0 != attr,
            decreases self.entries@.len() - i,
        {
            let (a, _) = self.entries[i];
            if a == attr {
                self.entries[i] = (attr, value);
                proof {
                    lemma_style_map_update(orig, i as int, attr, value);
                }
                return ;
            }
            i += 1;
        }
        self.entries.push((attr, value));
        proof {
            lemma_style_map_push(orig, attr, value);
        }
    }
}

/// Updating the entry whose key is `attr` updates the denoted map at
/// `attr` and keeps the keys unique.
proof fn lemma_style_map_update(
    s: Seq<(LockableStyleAttribute, StyleValue)>,
    i: int,
    attr: LockableStyleAttribute,
    value: StyleValue,
)
    requires
        0 <= i < s.len(),
        s[i].0 == attr,
        forall|p: int, q: int| 0 <= p < q < s.len() ==> (#[trigger] s[p]).0 != (#[trigger] s[q]).0,
    ensures
        style_map(s.update(i, (attr, value))) == style_map(s).insert(attr, value),
        forall|p: int, q: int|
            0 <= p < q < s.len() ==> (#[trigger] s.update(i, (attr, value))[p]).0 != (
            #[trigger] s.update(i, (attr, value))[q]).0,
{
    let t = s.update(i, (attr, value));
    assert forall|a: LockableStyleAttribute|
        style_map(t).dom().contains(a) == style_map(s).insert(attr, value).dom().contains(a) by {
        if a == attr {
            assert(t[i].0 == a);
        } else {
            if exists|k: int| 0 <= k < s.len() && s[k].0 == a {
                let k = choose|k: int| 0 <= k < s.len() && s[k].0 == a;
                assert(t[k].0 == a);
            }
            if exists|k: int| 0 <= k < t.len() && t[k].0 == a {
                let k = choose|k: int| 0 <= k < t.len() && t[k].0 == a;
                assert(s[k].0 == a);
            }
        }
    }
    assert forall|a: LockableStyleAttribute| style_map(t).dom().contains(a) implies style_map(t)[a]
        == style_map(s).insert(attr, value)[a] by {
        let k = choose|k: int| 0 <= k < t.len() && t[k].0 == a;
        if a == attr {
            assert(k == i);
        } else {
            assert(k != i);
            assert(s[k].0 == a);
            let w = choose|w: int| 0 <= w < s.len() && s[w].0 == a;
            assert(w == k);
        }
    }
    assert(style_map(t) =~= style_map(s).insert(attr, value));
}

/// Appending an entry with a fresh key inserts it into the denoted map
/// and keeps the keys unique.
proof fn lemma_style_map_push(
    s: Seq<(LockableStyleAttribute, StyleValue)>,
    attr: LockableStyleAttribute,
    value: StyleValue,
)
    requires
        forall|k: int| 0 <= k < s.len() ==> (#[trigger] s[k]).0 != attr,
        forall|p: int, q: int| 0 <= p < q < s.len() ==> (#[trigger] s[p]).0 != (#[trigger] s[q]).0,
    ensures
        style_map(s.push((attr, value))) == style_map(s).insert(attr, value),
        forall|p: int, q: int|
            0 <= p < q < s.push((attr, value)).len() ==> (#[trigger] s.push((attr, value))[p]).0
                != (#[trigger] s.push((attr, value))[q]).0,
{
    let t = s.push((attr, value));
    assert(t[s.len() as int].0 == attr);
    assert forall|a: LockableStyleAttribute|
        style_map(t).dom().contains(a) == style_map(s).insert(attr, value).dom().contains(a) by {
        if a != attr {
            if exists|k: int| 0 <= k < s.len() && s[k].0 == a {
                let k = choose|k: int| 0 <= k < s.len() && s[k].0 == a;
                assert(t[k].0 == a);
            }
            if exists|k: int| 0 <= k < t.len() && t[k].0 == a {
                let k = choose|k: int| 0 <= k < t.len() && t[k].0 == a;
                assert(k < s.len());
                assert(s[k].0 == a);
            }
        }
    }
    assert forall|a: LockableStyleAttribute| style_map(t).dom().contains(a) implies style_map(t)[a]
        == style_map(s).insert(attr, value)[a] by {
        let k = choose|k: int| 0 <= k < t.len() && t[k].0 == a;
        if a == attr {
            assert(k == s.len() as int);
        } else {
            assert(k < s.len());
            assert(s[k].0 == a);
            let w = choose|w: int| 0 <= w < s.len() && s[w].0 == a;
            assert(w == k);
        }
    }
    assert(style_map(t) =~= style_map(s).insert(attr, value));
}

/// One node of the arena: its measured layout size (an input from the
/// layout engine), its computed style (what the write paths produce), its
/// lock table and its pseudo-state set.
#[derive(Debug)]
pub struct UiNode {
    pub size: Size,
    pub computed: ComputedStyle,
    pub locked: LockedStyleAttributes,
    pub pseudo_states: PseudoStateSet,
}

impl UiNode {
    /// All parts of the node are well formed.
    pub open spec fn wf(self) -> bool {
        self.computed.wf() && self.locked.wf() && self.pseudo_states.wf()
    }
}

/// The arena of live nodes, keyed by [`NodeId`]. It stands for the
/// retained scene graph; the passes mutate it only through the methods
/// here.
#[derive(Debug)]
pub struct NodeArena {
    pub nodes: Vec<UiNode>,
}

impl NodeArena {
    /// Every node in the arena is well formed.
    pub open spec fn wf(self) -> bool {
        forall|i: int| 0 <= i < self.nodes@.len() ==> (#[trigger] self.nodes@[i]).wf()
    }

    /// Whether `id` names a live node.
    pub open spec fn is_live(self, id: NodeId) -> bool {
        id < self.nodes@.len()
    }

    /// The node `id` names.
    pub open spec fn node(self, id: NodeId) -> UiNode
        recommends
            self.is_live(id),
    {
        self.nodes@[id as int]
    }

    /// An empty arena.
    pub fn new() -> (r: NodeArena)
        ensures
            r.nodes@.len() == 0,
            r.wf(),
    {
        NodeArena { nodes: Vec::new() }
    }

    /// The number of live nodes.
    pub fn len(&self) -> (r: usize)
        ensures
            r == self.nodes@.len(),
    {
        self.nodes.len()
    }

    /// Creates a node with the given measured size and lock table,
    /// nothing written to its style and no pseudo-state tags, and returns
    /// its identity.
    pub fn spawn(&mut self, size: Size, locked: LockedStyleAttributes) -> (id: NodeId)
        requires
            old(self).wf(),
            locked.wf(),
        ensures
            final(self).wf(),
            id == old(self).nodes@.len(),
            final(self).nodes@.len() == old(self).nodes@.len() + 1,
            forall|j: int|
                0 <= j < old(self).nodes@.len() ==> final(self).nodes@[j] == old(self).nodes@[j],
            final(self).node(id).size == size,
            final(self).node(id).locked == locked,
            final(self).node(id).computed@ == Map::<LockableStyleAttribute, StyleValue>::empty(),
            final(self).node(id).pseudo_states@ == Set::<PseudoState>::empty(),
    {
        let id = self.nodes.len();
        self.nodes.push(
            UiNode { size, computed: ComputedStyle::new(), locked, pseudo_states: PseudoStateSet::new() },
        );
        id
    }

    /// The measured size of node `id`.
    pub fn size_of(&self, id: NodeId) -> (r: Size)
        requires
            self.is_live(id),
        ensures
            r == self.node(id).size,
    {
        self.nodes[id].size
    }

    /// Overwrites the measured size of node `id`, as the external layout
    /// engine does when it re-measures the node.
    pub fn set_size(&mut self, id: NodeId, size: Size)
        requires
            old(self).wf(),
            old(self).is_live(id),
        ensures
            final(self).wf(),
            final(self).nodes@.len() == old(self).nodes@.len(),
            forall|j: int|
                0 <= j < old(self).nodes@.len() && j != id ==> final(self).nodes@[j] == old(
                    self,
                ).nodes@[j],
            final(self).node(id) == (UiNode { size, ..old(self).node(id) }),
    {
        self.nodes[id].size = size;
    }

    /// The current value of `attr` on node `id`.
    pub fn get_attr(&self, id: NodeId, attr: LockableStyleAttribute) -> (r: Option<StyleValue>)
        requires
            self.wf(),
            self.is_live(id),
        ensures
            r == if self.node(id).computed@.dom().contains(attr) {
                Some(self.node(id).computed@[attr])
            } else {
                Option::<StyleValue>::None
            },
    {
        self.nodes[id].computed.get(attr)
    }

    /// Whether node `id` carries the pseudo-state tag `state`.
    pub fn has_pseudo_state(&self, id: NodeId, state: PseudoState) -> (r: bool)
        requires
            self.is_live(id),
        ensures
            r == self.node(id).pseudo_states@.contains(state),
    {
        self.nodes[id].pseudo_states.has(state)
    }

    /// The checked style write path: writes `value` to `attr` on node
    /// `id`, unless the node has locked that attribute — a write to a
    /// locked attribute is a no-op. This is the path the theme layer
    /// uses.
    pub fn style(&mut self, id: NodeId, attr: LockableStyleAttribute, value: StyleValue)
        requires
            old(self).wf(),
            old(self).is_live(id),
        ensures
            final(self).wf(),
            final(self).nodes@.len() == old(self).nodes@.len(),
            forall|j: int|
                0 <= j < old(self).nodes@.len() && j != id ==> final(self).nodes@[j] == old(
                    self,
                ).nodes@[j],
            old(self).node(id).locked@.contains(attr) ==> final(self).nodes@[id as int] == old(
                self,
            ).nodes@[id as int],
            !old(self).node(id).locked@.contains(attr) ==> final(self).node(id) == (UiNode {
                computed: final(self).node(id).computed,
                ..old(self).node(id)
            }) && final(self).node(id).computed@ == old(self).node(id).computed@.insert(
                attr,
                value,
            ),
    {
        let locked = self.nodes[id].locked.contains(attr);
        if !locked {
            self.nodes[id].computed.set(attr, value);
        }
    }

    /// The unchecked style write path: writes `value` to `attr` on node
    /// `id` whatever the node's lock table says. The layout pass uses it
    /// for the attributes it owns on the handle and content nodes.
    pub fn style_unchecked(&mut self, id: NodeId, attr: LockableStyleAttribute, value: StyleValue)
        requires
            old(self).wf(),
            old(self).is_live(id),
        ensures
            final(self).wf(),
            final(self).nodes@.len() == old(self).nodes@.len(),
            forall|j: int|
                0 <= j < old(self).nodes@.len() && j != id ==> final(self).nodes@[j] == old(
                    self,
                ).nodes@[j],
            final(self).node(id) == (UiNode {
                computed: final(self).node(id).computed,
                ..old(self).node(id)
            }),
            final(self).node(id).computed@ == old(self).node(id).computed@.insert(attr, value),
    {
        self.nodes[id].computed.set(attr, value);
    }

    /// Adds the pseudo-state tag `state` to node `id`.
    pub fn add_pseudo_state(&mut self, id: NodeId, state: PseudoState)
        requires
            old(self).wf(),
            old(self).is_live(id),
        ensures
            final(self).wf(),
            final(self).nodes@.len() == old(self).nodes@.len(),
            forall|j: int|
                0 <= j < old(self).nodes@.len() && j != id ==> final(self).nodes@[j] == old(
                    self,
                ).nodes@[j],
            final(self).node(id) == (UiNode {
                pseudo_states: final(self).node(id).pseudo_states,
                ..old(self).node(id)
            }),
            final(self).node(id).pseudo_states@ == old(self).node(id).pseudo_states@.insert(state),
    {
        self.nodes[id].pseudo_states.add(state);
    }

    /// Removes the pseudo-state tag `state` from node `id`.
    pub fn remove_pseudo_state(&mut self, id: NodeId, state: PseudoState)
        requires
            old(self).wf(),
            old(self).is_live(id),
        ensures
            final(self).wf(),
            final(self).nodes@.len() == old(self).nodes@.len(),
            forall|j: int|
                0 <= j < old(self).nodes@.len() && j != id ==> final(self).nodes@[j] == old(
                    self,
                ).nodes@[j],
            final(self).node(id) == (UiNode {
                pseudo_states: final(self).node(id).pseudo_states,
                ..old(self).node(id)
            }),
            final(self).node(id).pseudo_states@ == old(self).node(id).pseudo_states@.remove(state),
    {
        self.nodes[id].pseudo_states.remove(state);
    }
}

} // verus!
