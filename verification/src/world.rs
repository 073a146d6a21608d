//! A read-only snapshot of the territory nodes the core reasons about.
//!
//! The world graph itself is owned and mutated by an external simulation
//! collaborator; the core only ever reads a snapshot of the per-node data
//! that its decisions depend on.

use vstd::prelude::*;

use crate::geom::NodeId;
use crate::units::NodeKind;
use crate::units::Strength;

verus! {

/// An ordered, non-empty route of nodes, used to move strength or to define
/// a persistent supply line.
#[derive(Clone, PartialEq, Eq, Debug)]
pub struct Route {
    pub nodes: Vec<NodeId>,
}

impl Route {
    /// A route is well formed when it holds at least one node.
    pub open spec fn wf(self) -> bool {
        self.nodes@.len() > 0
    }

    /// The number of edges the route traverses.
    pub open spec fn spec_hops(self) -> int {
        self.nodes@.len() - 1
    }
}

/// The per-node data the core reads: the owning player, the node kind,
/// the unit strengths present, and an optional persistent supply line.
#[derive(Clone, PartialEq, Eq, Debug)]
pub struct Node {
    pub owner: Option<u64>,
    pub kind: NodeKind,
    pub strength: Strength,
    pub supply_line: Option<Route>,
}

/// One node of a world snapshot, keyed by its grid coordinate.
#[derive(Clone, PartialEq, Eq, Debug)]
pub struct NodeEntry {
    pub id: NodeId,
    pub node: Node,
}

/// A snapshot of the generated territory nodes, read-only to the core.
#[derive(Clone, PartialEq, Eq, Debug)]
pub struct WorldSnapshot {
    pub nodes: Vec<NodeEntry>,
}

/// The node stored under `id`: the first entry of `s` whose key is `id`.
pub open spec fn seq_get(s: Seq<NodeEntry>, id: NodeId) -> Option<Node>
    decreases s.len(),
{
    if s.len() == 0 {
        None
    } else if s[0].id == id {
        Some(s[0].node)
    } else {
        seq_get(s.drop_first(), id)
    }
}

/// An identifier stored at some index of `s` is found by [`seq_get`].
pub proof fn lemma_seq_get_at_index(s: Seq<NodeEntry>, j: int)
    requires
        0 <= j < s.len(),
    ensures
        seq_get(s, s[j].id) is Some,
    decreases j,
{
    if s[0].id == s[j].id {
    } else {
        lemma_seq_get_at_index(s.drop_first(), j - 1);
    }
}

/// An identifier found by [`seq_get`] is stored at some index of `s`.
pub proof fn lemma_seq_get_some_index(s: Seq<NodeEntry>, id: NodeId)
    requires
        seq_get(s, id) is Some,
    ensures
        exists|j: int| 0 <= j < s.len() && s[j].id == id,
    decreases s.len(),
{
    if s[0].id == id {
        assert(s[0].id == id);
    } else {
        lemma_seq_get_some_index(s.drop_first(), id);
        let j = choose|j: int| 0 <= j < s.drop_first().len() && s.drop_first()[j].id == id;
        assert(s[j + 1].id == id);
    }
}

impl WorldSnapshot {
    /// The node stored under `id`, if the node has been generated.
    pub open spec fn spec_get(self, id: NodeId) -> Option<Node> {
        seq_get(self.nodes@, id)
    }

    /// Whether a node with identifier `id` has been generated. A generated
    /// but fogged node exists without being visible.
    pub open spec fn spec_exists(self, id: NodeId) -> bool {
        self.spec_get(id) is Some
    }

    /// Looks up the node stored under `id`.
    pub fn get(&self, id: NodeId) -> (r: Option<&Node>)
        ensures
            match r {
                Some(n) => self.spec_get(id) == Some(*n),
                None => self.spec_get(id) is None,
            },
    {
        let ghost s = self.nodes@;
        proof {
            assert(s.skip(0) =~= s);
        }
        let mut i: usize = 0;
        while i < self.nodes.len()
            invariant
                i <= s.len(),
                s == self.nodes@,
                forall|k: int| 0 <= k < i ==> s[k].id != id,
                seq_get(s, id) == seq_get(s.skip(i as int), id),
            decreases s.len() - i,
        {
            if self.nodes[i].id == id {
                proof {
                    assert(s.skip(i as int)[0] == s[i as int]);
                }
                return Some(&self.nodes[i].node);
            }
            proof {
                assert(s.skip(i as int)[0] == s[i as int]);
                assert(s.skip(i as int).drop_first() =~= s.skip(i + 1));
            }
            i = i + 1;
        }
        proof {
            assert(s.skip(i as int).len() == 0);
        }
        None
    }

    /// Tests whether a node with identifier `id` has been generated.
    pub fn exists_node(&self, id: NodeId) -> (r: bool)
        ensures
            r == self.spec_exists(id),
    {
        self.get(id).is_some()
    }
}

/// Whether moving through `id` is perilous for player `me`: the node has
/// been generated and is owned by a different player or by nobody.
pub open spec fn spec_is_perilous(w: WorldSnapshot, me: u64, id: NodeId) -> bool {
    match w.spec_get(id) {
        Some(n) => n.owner != Some(me),
        None => false,
    }
}

/// Tests whether moving through `id` is perilous for player `me`.
pub fn is_perilous(w: &WorldSnapshot, me: u64, id: NodeId) -> (r: bool)
    ensures
        r == spec_is_perilous(*w, me, id),
{
    match w.get(id) {
        Some(n) => {
            match n.owner {
                Some(p) => p != me,
                None => true,
            }
        },
        None => false,
    }
}

/// Whether any node of the route `v` is perilous for player `me`.
pub open spec fn spec_route_perilous(w: WorldSnapshot, me: u64, v: Seq<NodeId>) -> bool {
    exists|i: int| 0 <= i < v.len() && spec_is_perilous(w, me, v[i])
}

/// Tests whether any node of the route is perilous for player `me`.
pub fn route_perilous(w: &WorldSnapshot, me: u64, v: &Vec<NodeId>) -> (r: bool)
    ensures
        r == spec_route_perilous(*w, me, v@),
{
    let mut i: usize = 0;
    while i < v.len()
        invariant
            i <= v@.len(),
            forall|k: int| 0 <= k < i ==> !spec_is_perilous(*w, me, v@[k]),
        decreases v@.len() - i,
    {
        if is_perilous(w, me, v[i]) {
            assert(spec_is_perilous(*w, me, v@[i as int]));
            return true;
        }
        i = i + 1;
    }
    false
}

} // verus!
