//! Fog-of-war visibility: which generated nodes the local player can observe.

use vstd::prelude::*;

use crate::geom::NodeId;
use crate::world::WorldSnapshot;
use crate::world::lemma_seq_get_at_index;
use crate::world::lemma_seq_get_some_index;

verus! {

/// How far, in grid steps along each axis, an owned node can see.
pub const SIGHT_RANGE: u16 = 2;

/// Whether node `b` lies within sight range of node `a`.
pub open spec fn spec_within_sight(a: NodeId, b: NodeId) -> bool {
    -(SIGHT_RANGE as int) <= a.x - b.x <= SIGHT_RANGE as int
        && -(SIGHT_RANGE as int) <= a.y - b.y <= SIGHT_RANGE as int
}

/// Whether some node of `w` owned by `me` has `id` within its sight range.
pub open spec fn spec_owned_in_sight(w: WorldSnapshot, me: u64, id: NodeId) -> bool {
    exists|j: int|
        0 <= j < w.nodes@.len() && w.nodes@[j].node.owner == Some(me) && spec_within_sight(
            w.nodes@[j].id,
            id,
        )
}

/// Whether node `id` is observable to player `me` under snapshot `w`:
/// the node has been generated, and either every node is revealed or some
/// node owned by `me` has it in sight.
pub open spec fn spec_visible(w: WorldSnapshot, me: u64, reveal_all: bool, id: NodeId) -> bool {
    w.spec_exists(id) && (reveal_all || spec_owned_in_sight(w, me, id))
}

/// Tests whether the two nodes lie within sight range of one another.
fn within_sight(a: NodeId, b: NodeId) -> (r: bool)
    ensures
        r == spec_within_sight(a, b),
{
    let dx: u16 = if a.x >= b.x {
        a.x - b.x
    } else {
        b.x - a.x
    };
    let dy: u16 = if a.y >= b.y {
        a.y - b.y
    } else {
        b.y - a.y
    };
    dx <= SIGHT_RANGE && dy <= SIGHT_RANGE
}

/// Tests whether some node of `w` owned by `me` has `id` within sight.
fn owned_in_sight(w: &WorldSnapshot, me: u64, id: NodeId) -> (r: bool)
    ensures
        r == spec_owned_in_sight(*w, me, id),
{
    let mut j: usize = 0;
    while j < w.nodes.len()
        invariant
            j <= w.nodes@.len(),
            forall|k: int|
                0 <= k < j ==> !(w.nodes@[k].node.owner == Some(me) && spec_within_sight(
                    w.nodes@[k].id,
                    id,
                )),
        decreases w.nodes@.len() - j,
    {
        let owned: bool = match w.nodes[j].node.owner {
            Some(p) => p == me,
            None => false,
        };
        if owned && within_sight(w.nodes[j].id, id) {
            assert(w.nodes@[j as int].node.owner == Some(me) && spec_within_sight(
                w.nodes@[j as int].id,
                id,
            ));
            return true;
        }
        j = j + 1;
    }
    false
}

/// Maintains the set of nodes currently observable to the local player.
///
/// The set is recomputed wholesale at most once per simulation tick; further
/// update calls within the same tick have no effect, so every decision of a
/// frame observes one consistent snapshot of visibility.
pub struct VisibilityTracker {
    pub visible: Vec<NodeId>,
    pub last_tick: Option<u64>,
}

impl VisibilityTracker {
    /// Whether node `id` is in the tracked visible set.
    pub open spec fn spec_contains(self, id: NodeId) -> bool {
        self.visible@.contains(id)
    }

    /// A tracker holding no visible nodes and no tick mark.
    pub fn new() -> (r: VisibilityTracker)
        ensures
            forall|id: NodeId| !r.spec_contains(id),
            r.last_tick is None,
    {
        VisibilityTracker { visible: Vec::new(), last_tick: None }
    }

    /// Tests whether node `id` is in the tracked visible set.
    pub fn contains(&self, id: NodeId) -> (r: bool)
        ensures
            r == self.spec_contains(id),
    {
        let mut i: usize = 0;
        while i < self.visible.len()
            invariant
                i <= self.visible@.len(),
                forall|k: int| 0 <= k < i ==> self.visible@[k] != id,
            decreases self.visible@.len() - i,
        {
            if self.visible[i].x == id.x && self.visible[i].y == id.y {
                assert(self.visible@[i as int] == id);
                return true;
            }
            i = i + 1;
        }
        false
    }

    /// Recomputes the visible set from the snapshot, once per tick.
    ///
    /// The first call of a tick rebuilds the whole set; a repeated call with
    /// the same tick number leaves the tracker unchanged, so callers may
    /// invoke it several times per frame. `reveal_all` is an operator
    /// override that makes every generated node visible.
    pub fn update(&mut self, w: &WorldSnapshot, me: u64, reveal_all: bool, tick: u64)
        ensures
            old(self).last_tick == Some(tick) ==> *final(self) == *old(self),
            old(self).last_tick != Some(tick) ==> final(self).last_tick == Some(tick) && forall|
                id: NodeId,
            | final(self).spec_contains(id) == spec_visible(*w, me, reveal_all, id),
    {
        match self.last_tick {
            Some(t) if t == tick => {
                return;
            },
            _ => {},
        }
        let mut vis: Vec<NodeId> = Vec::new();
        let mut i: usize = 0;
        while i < w.nodes.len()
            invariant
                i <= w.nodes@.len(),
                forall|id: NodeId| #[trigger]
                    vis@.contains(id) ==> spec_visible(*w, me, reveal_all, id),
                forall|j: int|
                    0 <= j < i && spec_visible(*w, me, reveal_all, w.nodes@[j].id)
                        ==> vis@.contains(#[trigger] w.nodes@[j].id),
            decreases w.nodes@.len() - i,
        {
            let id: NodeId = w.nodes[i].id;
            let show: bool = reveal_all || owned_in_sight(w, me, id);
            if show {
                proof {
                    lemma_seq_get_at_index(w.nodes@, i as int);
                }
                let ghost old_vis = vis@;
                vis.push(id);
                proof {
                    assert(vis@ == old_vis.push(id));
                    assert(vis@[old_vis.len() as int] == id);
                    assert forall|x: NodeId| old_vis.contains(x) implies vis@.contains(x) by {
                        let k = choose|k: int| 0 <= k < old_vis.len() && old_vis[k] == x;
                        assert(vis@[k] == x);
                    }
                    assert forall|x: NodeId| #[trigger]
                        vis@.contains(x) implies old_vis.contains(x) || x == id by {
                        let k = choose|k: int| 0 <= k < vis@.len() && vis@[k] == x;
                        if k < old_vis.len() {
                            assert(old_vis[k] == x);
                        }
                    }
                }
            }
            i = i + 1;
        }
        proof {
            assert forall|id: NodeId|
                spec_visible(*w, me, reveal_all, id) implies vis@.contains(id) by {
                lemma_seq_get_some_index(w.nodes@, id);
                let j = choose|j: int| 0 <= j < w.nodes@.len() && w.nodes@[j].id == id;
                assert(spec_visible(*w, me, reveal_all, w.nodes@[j].id));
            }
        }
        self.visible = vis;
        self.last_tick = Some(tick);
    }
}

} // verus!
