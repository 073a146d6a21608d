//! The drag/selection state machine and the decisions taken when a drag is
//! released.
//!
//! The world-graph path search is an external collaborator. On release the
//! controller hands out a [`PathQuery`] describing what to search for; the
//! caller runs the search and passes whatever came back to
//! [`release_finish`], which validates the route, applies the safety gate,
//! and decides between a one-shot deployment and a persistent supply line.

use vstd::prelude::*;

use crate::gate::gate_allows;
use crate::gate::spec_gate_allows;
use crate::geom::NodeId;
use crate::geom::WorldPos;
use crate::hit::closest;
use crate::hit::spec_closest;
use crate::orders::Order;
use crate::orders::UiEvent;
use crate::orders::spec_ui_order;
use crate::units::UnitKind;
use crate::units::derived_max_edge_distance;
use crate::units::spec_max_edge_distance;
use crate::units::spec_produces_mobile_units;
use crate::units::spec_ranged_distance;
use crate::vis::VisibilityTracker;
use crate::world::Node;
use crate::world::Route;
use crate::world::WorldSnapshot;
use crate::world::route_perilous;
use crate::world::spec_route_perilous;

verus! {

/// The drag's resolved target together with the time it last changed.
#[derive(Clone, Copy, PartialEq, Eq, Structural, Debug)]
pub struct Target {
    pub node: NodeId,
    pub changed_ms: u64,
}

/// An in-progress drag. `current` is `None` while the cursor is over a
/// non-visible or non-existent node: preview and order computation suspend,
/// but the drag is not cancelled.
#[derive(Clone, Copy, PartialEq, Eq, Structural, Debug)]
pub struct Drag {
    pub start: NodeId,
    pub current: Option<Target>,
}

/// The interaction state: an optional drag, an optional selected node, and
/// whether the camera is being panned. Panning and dragging are mutually
/// exclusive.
#[derive(Clone, Copy, PartialEq, Eq, Structural, Debug)]
pub struct Controller {
    pub drag: Option<Drag>,
    pub selected: Option<NodeId>,
    pub panning: bool,
}

/// Everything the external path search needs for one request, derived at
/// the moment of the request from the source node's mutable state.
#[derive(Clone, Copy, PartialEq, Eq, Structural, Debug)]
pub struct PathQuery {
    pub source: NodeId,
    pub dest: NodeId,
    pub max_edge_distance: u16,
    pub local_player: u64,
    pub supply_line_node: Option<NodeId>,
    pub carries_protected: bool,
    pub target_changed_ms: u64,
}

/// The drag target after a pointer move that hit-tested to `hit`: fog
/// suspends the target, a new node restamps the change time, and the same
/// node keeps its stamp.
pub open spec fn spec_moved_current(cur: Option<Target>, hit: Option<NodeId>, now_ms: u64) -> Option<
    Target,
> {
    match hit {
        None => None,
        Some(n) => if cur matches Some(t) && t.node == n {
            cur
        } else {
            Some(Target { node: n, changed_ms: now_ms })
        },
    }
}

/// The query a release hands to the path search, given the source node's
/// data at release time.
pub open spec fn spec_query_for(
    source: NodeId,
    dest: NodeId,
    changed_ms: u64,
    src: Node,
    me: u64,
    start_selected: bool,
) -> PathQuery {
    let max_edge = spec_max_edge_distance(src.kind, src.strength);
    let shorter = max_edge != spec_ranged_distance(src.kind);
    PathQuery {
        source,
        dest,
        max_edge_distance: max_edge,
        local_player: me,
        supply_line_node: if start_selected && spec_produces_mobile_units(src.kind) && !shorter {
            Some(source)
        } else {
            None
        },
        carries_protected: src.strength.spec_contains(UnitKind::Ruler),
        target_changed_ms: changed_ms,
    }
}

/// The path query produced by releasing the pointer, or `None` when the
/// release toggles the selection, the target is unresolved, or either node
/// has vanished.
pub open spec fn spec_release_query(c: Controller, w: WorldSnapshot, me: u64) -> Option<PathQuery> {
    match c.drag {
        Some(d) => match d.current {
            Some(t) => if d.start == t.node {
                None
            } else {
                match w.spec_get(d.start) {
                    Some(src) => if w.spec_exists(t.node) {
                        Some(
                            spec_query_for(
                                d.start,
                                t.node,
                                t.changed_ms,
                                src,
                                me,
                                c.selected == Some(d.start),
                            ),
                        )
                    } else {
                        None
                    },
                    None => None,
                }
            },
            None => None,
        },
        None => None,
    }
}

/// The selection after releasing the pointer: a same-node release toggles
/// it, a resolvable drag to another node keeps it only when it was the
/// drag's start, and every other release clears it.
pub open spec fn spec_release_selected(c: Controller, w: WorldSnapshot) -> Option<NodeId> {
    match c.drag {
        Some(d) => match d.current {
            Some(t) => if d.start == t.node {
                if c.selected == Some(d.start) {
                    None
                } else {
                    Some(d.start)
                }
            } else if w.spec_exists(d.start) && w.spec_exists(t.node) {
                if c.selected == Some(d.start) {
                    c.selected
                } else {
                    None
                }
            } else {
                None
            },
            None => None,
        },
        None => None,
    }
}

/// Whether a found route answers the query: it runs from the query's source
/// to its destination and its hop count respects the derived maximum.
pub open spec fn spec_route_ok(v: Seq<NodeId>, q: PathQuery) -> bool {
    v.len() >= 2 && v[0] == q.source && v[v.len() - 1] == q.dest && v.len() - 1
        <= q.max_edge_distance
}

/// Whether the source node's existing supply line already is this route.
pub open spec fn spec_existing_supply_matches(
    w: WorldSnapshot,
    source: NodeId,
    v: Seq<NodeId>,
) -> bool {
    match w.spec_get(source) {
        Some(n) => match n.supply_line {
            Some(r) => r.nodes@ == v,
            None => false,
        },
        None => false,
    }
}

/// The order dispatched for a query once the path search answered: `None`
/// when no route was found, the route does not answer the query, or the
/// safety gate withholds it; otherwise exactly one of a deployment or a
/// supply-line assignment. Re-assigning a node's unchanged supply line
/// clears it instead.
pub open spec fn spec_release_finish(
    w: WorldSnapshot,
    q: PathQuery,
    found: Option<Vec<NodeId>>,
    now_ms: u64,
) -> Option<Order> {
    match found {
        None => None,
        Some(v) => if !spec_route_ok(v@, q) {
            None
        } else if !spec_gate_allows(
            spec_route_perilous(w, q.local_player, v@),
            q.carries_protected,
            q.target_changed_ms,
            now_ms,
        ) {
            None
        } else {
            match q.supply_line_node {
                Some(node) => Some(
                    Order::SetSupplyLine {
                        node,
                        route: if spec_existing_supply_matches(w, q.source, v@) {
                            None
                        } else {
                            Some(Route { nodes: v })
                        },
                    },
                ),
                None => Some(Order::Deploy(Route { nodes: v })),
            }
        },
    }
}

/// The query for the route preview drawn mid-drag, or `None` when nothing
/// would be previewed: the target is unresolved, the source is not owned by
/// the local player, or there is neither strength to move nor a supply line
/// to drag.
pub open spec fn spec_preview_query(c: Controller, w: WorldSnapshot, me: u64) -> Option<PathQuery> {
    match c.drag {
        Some(d) => match d.current {
            Some(t) => match w.spec_get(d.start) {
                Some(src) => if src.owner != Some(me) {
                    None
                } else {
                    let max_edge = spec_max_edge_distance(src.kind, src.strength);
                    let shorter = max_edge != spec_ranged_distance(src.kind);
                    let do_supply = c.selected is Some && spec_produces_mobile_units(src.kind)
                        && !shorter;
                    if src.strength.spec_is_empty() && !do_supply {
                        None
                    } else {
                        Some(
                            PathQuery {
                                source: d.start,
                                dest: t.node,
                                max_edge_distance: max_edge,
                                local_player: me,
                                supply_line_node: if do_supply {
                                    c.selected
                                } else {
                                    None
                                },
                                carries_protected: src.strength.spec_contains(UnitKind::Ruler),
                                target_changed_ms: t.changed_ms,
                            },
                        )
                    }
                },
                None => None,
            },
            None => None,
        },
        None => None,
    }
}

/// Tests whether an optional selection equals one node.
fn opt_node_eq(a: &Option<NodeId>, b: NodeId) -> (r: bool)
    ensures
        r == (*a == Some(b)),
{
    match a {
        Some(s) => s.x == b.x && s.y == b.y,
        None => false,
    }
}

impl Controller {
    /// An idle controller: no drag, no selection, not panning.
    pub fn new() -> (r: Controller)
        ensures
            r.drag is None,
            r.selected is None,
            !r.panning,
    {
        Controller { drag: None, selected: None, panning: false }
    }

    /// Handles a left-button press at position `p`.
    ///
    /// While idle and not panning: a hit on a visible node starts a drag
    /// there, clearing the selection unless it already was that node (a
    /// matching selection is cleared on release instead, to support
    /// double-click-to-deselect); a miss clears the selection.
    pub fn pointer_down(
        &mut self,
        w: &WorldSnapshot,
        vis: &VisibilityTracker,
        p: WorldPos,
        now_ms: u64,
    )
        ensures
            (old(self).drag is Some || old(self).panning) ==> *final(self) == *old(self),
            (old(self).drag is None && !old(self).panning) ==> match spec_closest(*w, *vis, p) {
                Some(n) => final(self).drag == Some(
                    (Drag { start: n, current: Some(Target { node: n, changed_ms: now_ms }) }),
                ) && final(self).selected == (
                if old(self).selected == Some(n) {
                    old(self).selected
                } else {
                    None
                }),
                None => final(self).drag is None && final(self).selected is None,
            },
            final(self).panning == old(self).panning,
    {
        if self.drag.is_none() && !self.panning {
            match closest(w, vis, p) {
                Some(n) => {
                    self.drag = Some(
                        Drag { start: n, current: Some(Target { node: n, changed_ms: now_ms }) },
                    );
                    if !opt_node_eq(&self.selected, n) {
                        self.selected = None;
                    }
                },
                None => {
                    self.selected = None;
                },
            }
        }
    }

    /// Handles a pointer move at position `p` while a drag may be active:
    /// re-resolves the drag's target through the hit tester, suspending it
    /// over fog and restamping the change time when the node differs.
    pub fn pointer_move(
        &mut self,
        w: &WorldSnapshot,
        vis: &VisibilityTracker,
        p: WorldPos,
        now_ms: u64,
    )
        ensures
            old(self).drag is None ==> *final(self) == *old(self),
            old(self).drag matches Some(d) ==> final(self).drag == Some(
                (
                Drag {
                    start: d.start,
                    current: spec_moved_current(d.current, spec_closest(*w, *vis, p), now_ms),
                }),
            ),
            final(self).selected == old(self).selected,
            final(self).panning == old(self).panning,
    {
        match self.drag {
            None => {},
            Some(d) => {
                match closest(w, vis, p) {
                    None => {
                        self.drag = Some(Drag { start: d.start, current: None });
                    },
                    Some(n) => {
                        let same: bool = match d.current {
                            Some(t) => t.node.x == n.x && t.node.y == n.y,
                            None => false,
                        };
                        if !same {
                            self.drag = Some(
                                Drag {
                                    start: d.start,
                                    current: Some(Target { node: n, changed_ms: now_ms }),
                                },
                            );
                        }
                    },
                }
            },
        }
    }

    /// Handles a left-button release: ends the drag, updates the selection,
    /// and hands out the path query to run, if any. The caller performs the
    /// search and passes its answer to [`release_finish`].
    pub fn pointer_up(&mut self, w: &WorldSnapshot, me: u64) -> (q: Option<PathQuery>)
        ensures
            q == spec_release_query(*old(self), *w, me),
            final(self).selected == spec_release_selected(*old(self), *w),
            final(self).drag is None,
            final(self).panning == old(self).panning,
    {
        let mut query: Option<PathQuery> = None;
        let mut sel: Option<NodeId> = None;
        match self.drag {
            None => {},
            Some(d) => {
                match d.current {
                    None => {},
                    Some(t) => {
                        if d.start.x == t.node.x && d.start.y == t.node.y {
                            if opt_node_eq(&self.selected, d.start) {
                                sel = None;
                            } else {
                                sel = Some(d.start);
                            }
                        } else {
                            match w.get(d.start) {
                                Some(src) => {
                                    if w.exists_node(t.node) {
                                        let start_selected: bool = opt_node_eq(
                                            &self.selected,
                                            d.start,
                                        );
                                        if start_selected {
                                            sel = self.selected;
                                        }
                                        let max_edge: u16 = derived_max_edge_distance(
                                            src.kind,
                                            &src.strength,
                                        );
                                        let ranged: u16 = src.kind.ranged_distance();
                                        let shorter: bool = max_edge != ranged;
                                        let supply: Option<NodeId> = if start_selected
                                            && src.kind.generates_mobile_units() && !shorter {
                                            Some(d.start)
                                        } else {
                                            None
                                        };
                                        query = Some(
                                            PathQuery {
                                                source: d.start,
                                                dest: t.node,
                                                max_edge_distance: max_edge,
                                                local_player: me,
                                                supply_line_node: supply,
                                                carries_protected: src.strength.contains(
                                                    UnitKind::Ruler,
                                                ),
                                                target_changed_ms: t.changed_ms,
                                            },
                                        );
                                    }
                                },
                                None => {},
                            }
                        }
                    },
                }
            },
        }
        self.selected = sel;
        self.drag = None;
        query
    }

    /// The query for the mid-drag route preview, derived afresh from the
    /// source node's current strength and kind.
    pub fn preview_query(&self, w: &WorldSnapshot, me: u64) -> (q: Option<PathQuery>)
        ensures
            q == spec_preview_query(*self, *w, me),
    {
        match self.drag {
            None => None,
            Some(d) => {
                match d.current {
                    None => None,
                    Some(t) => {
                        match w.get(d.start) {
                            None => None,
                            Some(src) => {
                                let owned: bool = match src.owner {
                                    Some(p) => p == me,
                                    None => false,
                                };
                                if !owned {
                                    None
                                } else {
                                    let max_edge: u16 = derived_max_edge_distance(
                                        src.kind,
                                        &src.strength,
                                    );
                                    let ranged: u16 = src.kind.ranged_distance();
                                    let shorter: bool = max_edge != ranged;
                                    let do_supply: bool = self.selected.is_some()
                                        && src.kind.generates_mobile_units() && !shorter;
                                    if src.strength.is_empty() && !do_supply {
                                        None
                                    } else {
                                        Some(
                                            PathQuery {
                                                source: d.start,
                                                dest: t.node,
                                                max_edge_distance: max_edge,
                                                local_player: me,
                                                supply_line_node: if do_supply {
                                                    self.selected
                                                } else {
                                                    None
                                                },
                                                carries_protected: src.strength.contains(
                                                    UnitKind::Ruler,
                                                ),
                                                target_changed_ms: t.changed_ms,
                                            },
                                        )
                                    }
                                }
                            },
                        }
                    },
                }
            },
        }
    }

    /// Handles the right button: closes any open selection menu and starts
    /// or stops camera panning.
    pub fn right_button(&mut self, down: bool)
        ensures
            final(self).panning == down,
            final(self).drag == old(self).drag,
            final(self).selected == (
            if old(self).drag is None {
                None
            } else {
                old(self).selected
            }),
    {
        self.close_menu();
        self.panning = down;
    }

    /// Closes the selection menu: clears the selection unless a drag is in
    /// progress (the menu is already hidden while dragging).
    pub fn close_menu(&mut self)
        ensures
            final(self).drag == old(self).drag,
            final(self).panning == old(self).panning,
            final(self).selected == (
            if old(self).drag is None {
                None
            } else {
                old(self).selected
            }),
    {
        if self.drag.is_none() {
            self.selected = None;
        }
    }

    /// Records whether the local player is alive; death unconditionally
    /// clears the drag and the selection.
    pub fn set_alive(&mut self, alive: bool)
        ensures
            final(self).panning == old(self).panning,
            alive ==> *final(self) == *old(self),
            !alive ==> final(self).drag is None && final(self).selected is None,
    {
        if !alive {
            self.drag = None;
            self.selected = None;
        }
    }

    /// Clears the drag and the selection when the drag's start node has
    /// vanished from the snapshot.
    pub fn prune_missing(&mut self, w: &WorldSnapshot)
        ensures
            (old(self).drag is Some && w.spec_get(old(self).drag->Some_0.start) is None) ==> (
            final(self).drag is None && final(self).selected is None
                && final(self).panning == old(self).panning),
            !(old(self).drag is Some && w.spec_get(old(self).drag->Some_0.start) is None)
                ==> *final(self) == *old(self),
    {
        match self.drag {
            Some(d) => {
                if !w.exists_node(d.start) {
                    self.drag = None;
                    self.selected = None;
                }
            },
            None => {},
        }
    }

    /// Converts a UI event into its outbound order; alliance and upgrade
    /// actions also close the selection menu.
    pub fn ui_event(&mut self, ev: UiEvent) -> (r: Order)
        ensures
            r == spec_ui_order(ev),
            final(self).panning == old(self).panning,
            final(self).drag == old(self).drag,
            ev is Spawn ==> final(self).selected == old(self).selected,
            !(ev is Spawn) ==> final(self).selected == (
            if old(self).drag is None {
                None
            } else {
                old(self).selected
            }),
    {
        match ev {
            UiEvent::Alliance { with_player, break_alliance } => {
                self.close_menu();
                Order::Alliance { with_player, break_alliance }
            },
            UiEvent::Upgrade { node, kind } => {
                self.close_menu();
                Order::Upgrade { node, kind }
            },
            UiEvent::Spawn(alias) => Order::Spawn(alias),
        }
    }
}

/// The first node of `s`, in storage order, whose supply line the
/// clear-all hotkey would clear: visible, inside the viewport, owned by the
/// local player, and holding a supply line.
pub open spec fn spec_first_clearable(
    vis: VisibilityTracker,
    rect: crate::geom::ViewRect,
    me: u64,
    s: Seq<crate::world::NodeEntry>,
) -> Option<NodeId>
    decreases s.len(),
{
    if s.len() == 0 {
        None
    } else if vis.spec_contains(s[0].id) && rect.spec_contains(s[0].id) && s[0].node.supply_line
        is Some && s[0].node.owner == Some(me) {
        Some(s[0].id)
    } else {
        spec_first_clearable(vis, rect, me, s.drop_first())
    }
}

/// The order the supply-line-clearing hotkey produces: with a selection,
/// clear that node's supply line if it has one; without one, clear the
/// first clearable visible node, at most one per tick.
pub open spec fn spec_clear_supply_order(
    c: Controller,
    w: WorldSnapshot,
    vis: VisibilityTracker,
    rect: crate::geom::ViewRect,
    me: u64,
    ticked: bool,
) -> Option<Order> {
    match c.selected {
        Some(id) => match w.spec_get(id) {
            Some(n) => if n.supply_line is Some {
                Some(Order::SetSupplyLine { node: id, route: None })
            } else {
                None
            },
            None => None,
        },
        None => if ticked {
            match spec_first_clearable(vis, rect, me, w.nodes@) {
                Some(id) => Some(Order::SetSupplyLine { node: id, route: None }),
                None => None,
            }
        } else {
            None
        },
    }
}

impl Controller {
    /// Decides what the supply-line-clearing hotkey clears this frame.
    pub fn clear_supply_line_order(
        &self,
        w: &WorldSnapshot,
        vis: &VisibilityTracker,
        rect: &crate::geom::ViewRect,
        me: u64,
        ticked: bool,
    ) -> (r: Option<Order>)
        ensures
            r == spec_clear_supply_order(*self, *w, *vis, *rect, me, ticked),
    {
        match self.selected {
            Some(id) => {
                match w.get(id) {
                    Some(n) => {
                        if n.supply_line.is_some() {
                            Some(Order::SetSupplyLine { node: id, route: None })
                        } else {
                            None
                        }
                    },
                    None => None,
                }
            },
            None => {
                if !ticked {
                    return None;
                }
                let ghost s = w.nodes@;
                proof {
                    assert(s.skip(0) =~= s);
                }
                let mut i: usize = 0;
                while i < w.nodes.len()
                    invariant
                        i <= s.len(),
                        s == w.nodes@,
                        self.selected is None,
                        ticked,
                        spec_first_clearable(*vis, *rect, me, s) == spec_first_clearable(
                            *vis,
                            *rect,
                            me,
                            s.skip(i as int),
                        ),
                    decreases s.len() - i,
                {
                    let e = &w.nodes[i];
                    let hit: bool = vis.contains(e.id) && rect.contains(e.id)
                        && e.node.supply_line.is_some() && (match e.node.owner {
                        Some(p) => p == me,
                        None => false,
                    });
                    proof {
                        assert(s.skip(i as int)[0] == s[i as int]);
                        assert(s.skip(i as int).drop_first() =~= s.skip(i + 1));
                    }
                    if hit {
                        proof {
                            assert(spec_first_clearable(*vis, *rect, me, s.skip(i as int))
                                == Some(s[i as int].id));
                        }
                        return Some(Order::SetSupplyLine { node: e.id, route: None });
                    }
                    i = i + 1;
                }
                proof {
                    assert(s.skip(i as int).len() == 0);
                }
                None
            },
        }
    }
}

/// Tests whether two node vectors hold the same nodes in the same order.
fn vecs_equal(a: &Vec<NodeId>, b: &Vec<NodeId>) -> (r: bool)
    ensures
        r == (a@ == b@),
{
    if a.len() != b.len() {
        return false;
    }
    let mut i: usize = 0;
    while i < a.len()
        invariant
            i <= a@.len(),
            a@.len() == b@.len(),
            forall|k: int| 0 <= k < i ==> a@[k] == b@[k],
        decreases a@.len() - i,
    {
        if a[i].x != b[i].x || a[i].y != b[i].y {
            assert(a@[i as int] != b@[i as int]);
            return false;
        }
        i = i + 1;
    }
    proof {
        assert(a@ =~= b@);
    }
    true
}

/// Tests whether the source node's existing supply line already is `v`.
fn existing_supply_matches(w: &WorldSnapshot, source: NodeId, v: &Vec<NodeId>) -> (r: bool)
    ensures
        r == spec_existing_supply_matches(*w, source, v@),
{
    match w.get(source) {
        Some(n) => {
            match &n.supply_line {
                Some(rt) => vecs_equal(&rt.nodes, v),
                None => false,
            }
        },
        None => false,
    }
}

/// Tests whether a found route answers the query.
fn route_ok(v: &Vec<NodeId>, q: &PathQuery) -> (r: bool)
    ensures
        r == spec_route_ok(v@, *q),
{
    if v.len() < 2 {
        return false;
    }
    let first: NodeId = v[0];
    let last: NodeId = v[v.len() - 1];
    first.x == q.source.x && first.y == q.source.y && last.x == q.dest.x && last.y == q.dest.y
        && v.len() - 1 <= q.max_edge_distance as usize
}

/// Decides the order for a release whose path search answered `found`.
///
/// A missing, ill-fitting, or gate-withheld route dispatches nothing; a
/// valid one dispatches exactly one order: a supply-line assignment when
/// the query marked its source for one, else a deployment.
pub fn release_finish(
    w: &WorldSnapshot,
    q: &PathQuery,
    found: Option<Vec<NodeId>>,
    now_ms: u64,
) -> (r: Option<Order>)
    ensures
        r == spec_release_finish(*w, *q, found, now_ms),
{
    match found {
        None => None,
        Some(v) => {
            if !route_ok(&v, q) {
                return None;
            }
            let perilous: bool = route_perilous(w, q.local_player, &v);
            if !gate_allows(perilous, q.carries_protected, q.target_changed_ms, now_ms) {
                return None;
            }
            match q.supply_line_node {
                Some(node) => {
                    let unchanged: bool = existing_supply_matches(w, q.source, &v);
                    Some(
                        Order::SetSupplyLine {
                            node,
                            route: if unchanged {
                                None
                            } else {
                                Some(Route { nodes: v })
                            },
                        },
                    )
                },
                None => Some(Order::Deploy(Route { nodes: v })),
            }
        },
    }
}

} // verus!
