//! Laws of the interaction core, stated and proved over the contracts of
//! the state machine and the order decision.

use vstd::prelude::*;

use crate::control::Controller;
use crate::control::PathQuery;
use crate::control::spec_preview_query;
use crate::control::spec_release_finish;
use crate::control::spec_release_query;
use crate::control::spec_release_selected;
use crate::control::spec_route_ok;
use crate::gate::RULER_DRAG_DELAY_MS;
use crate::gate::spec_gate_allows;
use crate::geom::NodeId;
use crate::orders::Order;
use crate::units::spec_max_edge_distance;
use crate::units::spec_produces_mobile_units;
use crate::units::spec_ranged_distance;
use crate::world::WorldSnapshot;
use crate::world::spec_route_perilous;

verus! {

/// Releasing a drag whose resolved target equals its start toggles the
/// selection exactly once — deselect if the start was selected, else select
/// it — and issues no path query, hence no order.
pub proof fn lemma_same_node_release_toggles(c: Controller, w: WorldSnapshot, me: u64)
    requires
        c.drag is Some,
        c.drag->Some_0.current is Some,
        c.drag->Some_0.current->Some_0.node == c.drag->Some_0.start,
    ensures
        spec_release_query(c, w, me) is None,
        c.selected == Some(c.drag->Some_0.start) ==> spec_release_selected(c, w) is None,
        c.selected != Some(c.drag->Some_0.start) ==> spec_release_selected(c, w) == Some(
            c.drag->Some_0.start,
        ),
{
}

/// A release whose query found a fitting route, with the safety gate open,
/// dispatches exactly one of a deployment or a supply-line assignment —
/// never both — and the dispatched route's hop count is bounded by the
/// maximum edge distance derived from the source node at release time.
pub proof fn lemma_complete_path_dispatch(
    c: Controller,
    w: WorldSnapshot,
    me: u64,
    v: Vec<NodeId>,
    now_ms: u64,
)
    requires
        spec_release_query(c, w, me) is Some,
        spec_route_ok(v@, spec_release_query(c, w, me)->Some_0),
        spec_gate_allows(
            spec_route_perilous(w, me, v@),
            spec_release_query(c, w, me)->Some_0.carries_protected,
            spec_release_query(c, w, me)->Some_0.target_changed_ms,
            now_ms,
        ),
    ensures
        ({
            let q = spec_release_query(c, w, me)->Some_0;
            let r = spec_release_finish(w, q, Some(v), now_ms);
            &&& r is Some
            &&& (r->Some_0 is Deploy <==> q.supply_line_node is None)
            &&& (r->Some_0 is SetSupplyLine <==> q.supply_line_node is Some)
            &&& !(r->Some_0 is Deploy && r->Some_0 is SetSupplyLine)
            &&& v@.len() - 1 <= q.max_edge_distance
            &&& q.max_edge_distance == spec_max_edge_distance(
                w.spec_get(q.source)->Some_0.kind,
                w.spec_get(q.source)->Some_0.strength,
            )
        }),
{
    let q = spec_release_query(c, w, me)->Some_0;
    assert(q.local_player == me);
}

/// A release marks its source for a supply-line assignment only when the
/// source node's kind produces mobile units and the derived maximum edge
/// distance equals the node's intrinsic ranged distance, that is, was not
/// shortened by the range of the carried units; and only a so-marked query
/// can dispatch a supply-line order.
pub proof fn lemma_supply_line_gating(
    c: Controller,
    w: WorldSnapshot,
    me: u64,
    found: Option<Vec<NodeId>>,
    now_ms: u64,
)
    requires
        spec_release_query(c, w, me) is Some,
    ensures
        ({
            let q = spec_release_query(c, w, me)->Some_0;
            let src = w.spec_get(q.source)->Some_0;
            &&& (q.supply_line_node is Some ==> spec_produces_mobile_units(src.kind)
                && q.max_edge_distance == spec_ranged_distance(src.kind))
            &&& (spec_release_finish(w, q, found, now_ms) matches Some(o) ==> (o
                is SetSupplyLine ==> q.supply_line_node is Some))
        }),
{
}

/// Every route a release dispatches is well formed and traverses at most
/// the maximum number of edges that the query was derived with.
pub proof fn lemma_dispatched_route_bounded(
    w: WorldSnapshot,
    q: PathQuery,
    v: Vec<NodeId>,
    now_ms: u64,
)
    requires
        spec_release_finish(w, q, Some(v), now_ms) is Some,
    ensures
        ({
            let r = spec_release_finish(w, q, Some(v), now_ms)->Some_0;
            &&& (r matches Order::Deploy(rt) ==> rt.wf() && rt.spec_hops() <= q.max_edge_distance)
            &&& (r matches Order::SetSupplyLine { route: Some(rt), .. } ==> rt.wf()
                && rt.spec_hops() <= q.max_edge_distance)
        }),
{
}

/// While a route is perilous and carries the protected unit kind, no order
/// is dispatched before the ruler drag delay has elapsed since the drag's
/// target last changed.
pub proof fn lemma_gate_blocks_early(
    w: WorldSnapshot,
    q: PathQuery,
    found: Option<Vec<NodeId>>,
    now_ms: u64,
)
    requires
        q.carries_protected,
        now_ms < q.target_changed_ms + RULER_DRAG_DELAY_MS,
        found matches Some(v) ==> spec_route_perilous(w, q.local_player, v@),
    ensures
        spec_release_finish(w, q, found, now_ms) is None,
{
}

/// Once the delay has elapsed, a fitting route is dispatched immediately on
/// release, perilous or not.
pub proof fn lemma_gate_opens(w: WorldSnapshot, q: PathQuery, v: Vec<NodeId>, now_ms: u64)
    requires
        spec_route_ok(v@, q),
        now_ms >= q.target_changed_ms + RULER_DRAG_DELAY_MS,
    ensures
        spec_release_finish(w, q, Some(v), now_ms) is Some,
{
}

/// While the cursor hovers fog mid-drag the target is unresolved: no route
/// is previewed, and releasing there clears the selection and issues no
/// path query.
pub proof fn lemma_fogged_target_suspends(c: Controller, w: WorldSnapshot, me: u64)
    requires
        c.drag is Some,
        c.drag->Some_0.current is None,
    ensures
        spec_release_query(c, w, me) is None,
        spec_preview_query(c, w, me) is None,
        spec_release_selected(c, w) is None,
{
}

} // verus!
