use kiomet_core::control::{release_finish, Controller, Drag, PathQuery, Target};
use kiomet_core::gate::{gate_allows, route_allowed, RULER_DRAG_DELAY_MS};
use kiomet_core::geom::{NodeId, ViewRect, WorldPos};
use kiomet_core::orders::{Order, UiEvent};
use kiomet_core::units::{NodeKind, Strength, UnitKind};
use kiomet_core::vis::VisibilityTracker;
use kiomet_core::world::{Node, NodeEntry, Route, WorldSnapshot};

const ME: u64 = 7;
const FOE: u64 = 9;

fn id(x: u16, y: u16) -> NodeId {
    NodeId { x, y }
}

fn pos_of(n: NodeId) -> WorldPos {
    WorldPos { x: n.x as i64 * 1024, y: n.y as i64 * 1024 }
}

fn strength(ruler: u16, soldier: u16) -> Strength {
    Strength { shield: 0, soldier, fighter: 0, nuke: 0, ruler }
}

fn node(owner: Option<u64>, kind: NodeKind, st: Strength) -> Node {
    Node { owner, kind, strength: st, supply_line: None }
}

fn world(entries: Vec<(NodeId, Node)>) -> WorldSnapshot {
    WorldSnapshot {
        nodes: entries
            .into_iter()
            .map(|(id, node)| NodeEntry { id, node })
            .collect(),
    }
}

fn all_visible(w: &WorldSnapshot) -> VisibilityTracker {
    VisibilityTracker {
        visible: w.nodes.iter().map(|e| e.id).collect(),
        last_tick: Some(0),
    }
}

/// A world for the ruler-drag scenario: A owned with 5 rulers and ranged
/// distance 3, C foreign one hop away, B two hops away.
fn ruler_world() -> (WorldSnapshot, NodeId, NodeId, NodeId) {
    let a = id(1, 1);
    let c = id(2, 1);
    let b = id(3, 1);
    let w = world(vec![
        (a, node(Some(ME), NodeKind::Barracks, strength(5, 0))),
        (c, node(Some(FOE), NodeKind::Outpost, strength(0, 0))),
        (b, node(None, NodeKind::Outpost, strength(0, 0))),
    ]);
    (w, a, c, b)
}

fn drag_to(start: NodeId, current: NodeId, changed_ms: u64) -> Controller {
    Controller {
        drag: Some(Drag {
            start,
            current: Some(Target { node: current, changed_ms }),
        }),
        selected: None,
        panning: false,
    }
}

#[test]
fn same_node_release_selects_then_deselects() {
    let (w, a, _, _) = ruler_world();
    let vis = all_visible(&w);
    let mut ctrl = Controller::new();

    ctrl.pointer_down(&w, &vis, pos_of(a), 100);
    assert!(ctrl.drag.is_some());
    let q = ctrl.pointer_up(&w, ME);
    assert!(q.is_none(), "a same-node release dispatches nothing");
    assert_eq!(ctrl.selected, Some(a), "first release selects");

    ctrl.pointer_down(&w, &vis, pos_of(a), 200);
    assert_eq!(ctrl.selected, Some(a), "matching selection survives pointer-down");
    let q2 = ctrl.pointer_up(&w, ME);
    assert!(q2.is_none());
    assert_eq!(ctrl.selected, None, "second release deselects");
}

#[test]
fn ruler_drag_scenario() {
    // Drag from A (owned, 5 rulers, ranged distance 3) to B two hops away
    // through foreign C; release before the delay dispatches nothing,
    // release after it deploys along [A, C, B].
    let (w, a, c, b) = ruler_world();
    let vis = all_visible(&w);
    let mut ctrl = Controller::new();

    ctrl.pointer_down(&w, &vis, pos_of(a), 1000);
    ctrl.pointer_move(&w, &vis, pos_of(b), 1000);
    let q = ctrl.pointer_up(&w, ME).expect("a query is produced");
    assert_eq!(q.source, a);
    assert_eq!(q.dest, b);
    assert_eq!(q.max_edge_distance, 3);
    assert!(q.carries_protected);
    assert_eq!(q.supply_line_node, None);
    assert_eq!(q.target_changed_ms, 1000);

    let found = vec![a, c, b];
    assert!(found.len() - 1 <= q.max_edge_distance as usize);
    let early = release_finish(&w, &q, Some(found.clone()), 1000 + RULER_DRAG_DELAY_MS - 1);
    assert!(early.is_none(), "perilous ruler order withheld before the delay");
    let late = release_finish(&w, &q, Some(found), 1000 + RULER_DRAG_DELAY_MS);
    match late {
        Some(Order::Deploy(route)) => assert_eq!(route.nodes, vec![a, c, b]),
        other => panic!("expected a deployment, got {:?}", other),
    }
}

#[test]
fn fogged_target_suspends_and_release_clears() {
    // Hovering a fogged cell mid-drag makes `current` None; no path
    // evaluation occurs, and releasing there clears drag and selection.
    let (w, a, _, b) = ruler_world();
    let vis = all_visible(&w);
    let fog = WorldPos { x: 30 * 1024, y: 30 * 1024 };
    let mut ctrl = drag_to(a, b, 500);
    ctrl.selected = Some(a);

    ctrl.pointer_move(&w, &vis, fog, 600);
    let d = ctrl.drag.expect("drag survives fog");
    assert_eq!(d.start, a);
    assert_eq!(d.current, None, "target suspends over fog");
    assert!(ctrl.preview_query(&w, ME).is_none(), "no path evaluation over fog");

    let q = ctrl.pointer_up(&w, ME);
    assert!(q.is_none());
    assert_eq!(ctrl.drag, None);
    assert_eq!(ctrl.selected, None, "unresolved release clears selection");
}

#[test]
fn supply_line_dispatch_and_toggle_clear() {
    let a = id(1, 1);
    let b = id(2, 1);
    let mut src = node(Some(ME), NodeKind::Village, strength(0, 0));
    src.supply_line = None;
    let w = world(vec![
        (a, src),
        (b, node(Some(ME), NodeKind::Outpost, strength(0, 0))),
    ]);
    let mut ctrl = drag_to(a, b, 100);
    ctrl.selected = Some(a);

    let q = ctrl.pointer_up(&w, ME).expect("query");
    assert_eq!(q.supply_line_node, Some(a), "selected producing node assigns a supply line");
    assert_eq!(ctrl.selected, Some(a), "selection of the drag start survives the release");
    let r = release_finish(&w, &q, Some(vec![a, b]), 200);
    match r {
        Some(Order::SetSupplyLine { node, route }) => {
            assert_eq!(node, a);
            assert_eq!(route.expect("a new route is set").nodes, vec![a, b]);
        }
        other => panic!("expected a supply-line order, got {:?}", other),
    }

    // Re-dragging the unchanged supply line clears it instead.
    let mut src2 = node(Some(ME), NodeKind::Village, strength(0, 0));
    src2.supply_line = Some(Route { nodes: vec![a, b] });
    let w2 = world(vec![
        (a, src2),
        (b, node(Some(ME), NodeKind::Outpost, strength(0, 0))),
    ]);
    let mut ctrl2 = drag_to(a, b, 100);
    ctrl2.selected = Some(a);
    let q2 = ctrl2.pointer_up(&w2, ME).expect("query");
    let r2 = release_finish(&w2, &q2, Some(vec![a, b]), 200);
    match r2 {
        Some(Order::SetSupplyLine { node, route }) => {
            assert_eq!(node, a);
            assert_eq!(route, None, "an unchanged supply line is cleared");
        }
        other => panic!("expected a supply-line order, got {:?}", other),
    }
}

#[test]
fn supply_line_needs_unshortened_range() {
    // Rulers travel 3 but an airfield ranges 5: the derived maximum is
    // shortened, so no supply line is assigned even with a selection.
    let a = id(1, 1);
    let b = id(2, 1);
    let w = world(vec![
        (a, node(Some(ME), NodeKind::Airfield, strength(2, 0))),
        (b, node(Some(ME), NodeKind::Outpost, strength(0, 0))),
    ]);
    let mut ctrl = drag_to(a, b, 100);
    ctrl.selected = Some(a);
    let q = ctrl.pointer_up(&w, ME).expect("query");
    assert_eq!(q.max_edge_distance, 3, "shortened by the rulers' travel distance");
    assert_eq!(q.supply_line_node, None);
    let r = release_finish(&w, &q, Some(vec![a, b]), 200);
    assert!(matches!(r, Some(Order::Deploy(_))));
}

#[test]
fn supply_line_needs_producing_kind() {
    let a = id(1, 1);
    let b = id(2, 1);
    let w = world(vec![
        (a, node(Some(ME), NodeKind::Fortress, strength(0, 2))),
        (b, node(Some(ME), NodeKind::Outpost, strength(0, 0))),
    ]);
    let mut ctrl = drag_to(a, b, 100);
    ctrl.selected = Some(a);
    let q = ctrl.pointer_up(&w, ME).expect("query");
    assert_eq!(q.supply_line_node, None, "a fortress produces no mobile units");
    assert_eq!(q.max_edge_distance, 3);
}

#[test]
fn release_with_vanished_node_clears_selection() {
    let (w, a, _, _) = ruler_world();
    let ghost_dest = id(9, 9);
    let mut ctrl = drag_to(a, ghost_dest, 100);
    ctrl.selected = Some(a);
    let q = ctrl.pointer_up(&w, ME);
    assert!(q.is_none(), "a vanished destination resolves no path");
    assert_eq!(ctrl.selected, None);
    assert_eq!(ctrl.drag, None);
}

#[test]
fn release_rejects_ill_fitting_routes() {
    let (w, a, c, b) = ruler_world();
    let ctrl = drag_to(a, b, 0);
    let q = {
        let mut ctrl = ctrl;
        ctrl.pointer_up(&w, ME).expect("query")
    };
    let now = 10_000;
    assert!(release_finish(&w, &q, None, now).is_none(), "no route, no order");
    let wrong_start = vec![c, b];
    assert!(release_finish(&w, &q, Some(wrong_start), now).is_none());
    let wrong_end = vec![a, c];
    assert!(release_finish(&w, &q, Some(wrong_end), now).is_none());
    let too_long = vec![a, c, c, c, b];
    assert!(
        release_finish(&w, &q, Some(too_long), now).is_none(),
        "four hops exceed the derived maximum of three"
    );
    let single = vec![a];
    assert!(release_finish(&w, &q, Some(single), now).is_none());
}

#[test]
fn gate_boundary_is_exact() {
    assert!(!gate_allows(true, true, 1000, 1000 + RULER_DRAG_DELAY_MS - 1));
    assert!(gate_allows(true, true, 1000, 1000 + RULER_DRAG_DELAY_MS));
    assert!(gate_allows(true, false, 1000, 1000));
    assert!(gate_allows(false, true, 1000, 1000));
    assert!(!gate_allows(true, true, 2000, 1000), "time before the stamp never opens the safety gate");
}

#[test]
fn gate_reads_route_and_strength() {
    let (w, a, c, b) = ruler_world();
    let safe = vec![a];
    let perilous = vec![a, c, b];
    let with_ruler = strength(1, 0);
    let without = strength(0, 3);
    assert!(route_allowed(&w, ME, &safe, &with_ruler, 0, 0), "a route through own land is never gated");
    assert!(!route_allowed(&w, ME, &perilous, &with_ruler, 0, 0));
    assert!(route_allowed(&w, ME, &perilous, &without, 0, 0), "only the ruler is protected");
    assert!(route_allowed(&w, ME, &perilous, &with_ruler, 0, RULER_DRAG_DELAY_MS));
}

#[test]
fn pointer_down_requires_idle_and_no_panning() {
    let (w, a, _, b) = ruler_world();
    let vis = all_visible(&w);

    let mut panning = Controller::new();
    panning.right_button(true);
    assert!(panning.panning);
    panning.pointer_down(&w, &vis, pos_of(a), 0);
    assert!(panning.drag.is_none(), "panning blocks dragging");

    let mut busy = drag_to(a, b, 0);
    let before = busy;
    busy.pointer_down(&w, &vis, pos_of(a), 50);
    assert_eq!(busy, before, "an active drag ignores further presses");

    let mut idle = Controller::new();
    idle.selected = Some(b);
    idle.pointer_down(&w, &vis, pos_of(a), 0);
    assert_eq!(idle.selected, None, "selecting another node clears the old selection");
    assert_eq!(
        idle.drag,
        Some(Drag { start: a, current: Some(Target { node: a, changed_ms: 0 }) })
    );

    let mut missed = Controller::new();
    missed.selected = Some(b);
    missed.pointer_down(&w, &vis, WorldPos { x: 50 * 1024, y: 0 }, 0);
    assert!(missed.drag.is_none());
    assert_eq!(missed.selected, None, "a miss clears the selection");
}

#[test]
fn pointer_move_stamps_only_on_change() {
    let (w, a, c, b) = ruler_world();
    let vis = all_visible(&w);
    let mut ctrl = drag_to(a, c, 100);

    ctrl.pointer_move(&w, &vis, pos_of(c), 250);
    assert_eq!(
        ctrl.drag.unwrap().current,
        Some(Target { node: c, changed_ms: 100 }),
        "the same node keeps its stamp"
    );

    ctrl.pointer_move(&w, &vis, pos_of(b), 400);
    assert_eq!(
        ctrl.drag.unwrap().current,
        Some(Target { node: b, changed_ms: 400 }),
        "a new node restamps"
    );

    let fog = WorldPos { x: 40 * 1024, y: 0 };
    ctrl.pointer_move(&w, &vis, fog, 500);
    ctrl.pointer_move(&w, &vis, pos_of(b), 600);
    assert_eq!(
        ctrl.drag.unwrap().current,
        Some(Target { node: b, changed_ms: 600 }),
        "resolving again after fog restamps"
    );
}

#[test]
fn preview_query_rules() {
    let (w, a, _, b) = ruler_world();
    let ctrl = drag_to(a, b, 100);
    let q = ctrl.preview_query(&w, ME).expect("owned source with strength previews");
    assert_eq!(q.source, a);
    assert_eq!(q.dest, b);
    assert_eq!(q.max_edge_distance, 3);

    assert!(ctrl.preview_query(&w, FOE).is_none(), "a foreign source previews nothing");

    let empty = id(4, 1);
    let w2 = world(vec![
        (empty, node(Some(ME), NodeKind::Fortress, strength(0, 0))),
        (b, node(None, NodeKind::Outpost, strength(0, 0))),
    ]);
    let ctrl2 = drag_to(empty, b, 100);
    assert!(
        ctrl2.preview_query(&w2, ME).is_none(),
        "no strength and no supply line to drag previews nothing"
    );

    let w3 = world(vec![
        (empty, node(Some(ME), NodeKind::Village, strength(0, 0))),
        (b, node(None, NodeKind::Outpost, strength(0, 0))),
    ]);
    let mut ctrl3 = drag_to(empty, b, 100);
    ctrl3.selected = Some(empty);
    let q3 = ctrl3.preview_query(&w3, ME).expect("an empty producing node still drags a supply line");
    assert_eq!(q3.supply_line_node, Some(empty));
}

#[test]
fn menu_death_and_pruning() {
    let (w, a, _, b) = ruler_world();

    let mut ctrl = Controller::new();
    ctrl.selected = Some(a);
    ctrl.close_menu();
    assert_eq!(ctrl.selected, None);

    let mut dragging = drag_to(a, b, 0);
    dragging.selected = Some(a);
    dragging.close_menu();
    assert_eq!(dragging.selected, Some(a), "the menu is already hidden while dragging");

    dragging.set_alive(true);
    assert_eq!(dragging.selected, Some(a));
    dragging.set_alive(false);
    assert_eq!(dragging.drag, None, "death clears the drag");
    assert_eq!(dragging.selected, None, "death clears the selection");

    let mut stale = drag_to(id(20, 20), b, 0);
    stale.selected = Some(b);
    stale.prune_missing(&w);
    assert_eq!(stale.drag, None, "a vanished drag start clears the drag");
    assert_eq!(stale.selected, None);

    let mut fresh = drag_to(a, b, 0);
    fresh.prune_missing(&w);
    assert!(fresh.drag.is_some(), "an existing drag start survives pruning");
}

#[test]
fn ui_events_pass_through() {
    let mut ctrl = Controller::new();
    ctrl.selected = Some(id(1, 1));
    let o = ctrl.ui_event(UiEvent::Alliance { with_player: FOE, break_alliance: false });
    assert_eq!(o, Order::Alliance { with_player: FOE, break_alliance: false });
    assert_eq!(ctrl.selected, None, "an alliance action closes the menu");

    let mut ctrl2 = Controller::new();
    ctrl2.selected = Some(id(1, 1));
    let o2 = ctrl2.ui_event(UiEvent::Spawn("ada".to_string()));
    assert_eq!(o2, Order::Spawn("ada".to_string()));
    assert_eq!(ctrl2.selected, Some(id(1, 1)), "spawning leaves the menu alone");

    let o3 = ctrl2.ui_event(UiEvent::Upgrade { node: id(1, 1), kind: NodeKind::Barracks });
    assert_eq!(o3, Order::Upgrade { node: id(1, 1), kind: NodeKind::Barracks });
    assert_eq!(ctrl2.selected, None);
}

#[test]
fn clear_supply_line_decisions() {
    let a = id(1, 1);
    let b = id(2, 1);
    let c = id(3, 1);
    let mut with_line = node(Some(ME), NodeKind::Village, strength(0, 0));
    with_line.supply_line = Some(Route { nodes: vec![a, b] });
    let mut foreign_line = node(Some(FOE), NodeKind::Village, strength(0, 0));
    foreign_line.supply_line = Some(Route { nodes: vec![c, b] });
    let w = world(vec![
        (b, node(Some(ME), NodeKind::Outpost, strength(0, 0))),
        (c, foreign_line),
        (a, with_line),
    ]);
    let vis = all_visible(&w);
    let rect = ViewRect { left: 0, bottom: 0, right: 10, top: 10 };

    let mut ctrl = Controller::new();
    ctrl.selected = Some(a);
    let o = ctrl.clear_supply_line_order(&w, &vis, &rect, ME, false);
    assert_eq!(o, Some(Order::SetSupplyLine { node: a, route: None }));

    ctrl.selected = Some(b);
    assert_eq!(
        ctrl.clear_supply_line_order(&w, &vis, &rect, ME, true),
        None,
        "the selected node has no supply line to clear"
    );

    ctrl.selected = None;
    let o2 = ctrl.clear_supply_line_order(&w, &vis, &rect, ME, true);
    assert_eq!(
        o2,
        Some(Order::SetSupplyLine { node: a, route: None }),
        "without a selection, the first own visible line in view is cleared"
    );
    assert_eq!(
        ctrl.clear_supply_line_order(&w, &vis, &rect, ME, false),
        None,
        "at most one clearing per tick"
    );

    let narrow = ViewRect { left: 5, bottom: 5, right: 10, top: 10 };
    assert_eq!(
        ctrl.clear_supply_line_order(&w, &vis, &narrow, ME, true),
        None,
        "nodes outside the viewport are not touched"
    );
}

#[test]
fn carried_strength_is_read_per_kind() {
    let s = strength(0, 4);
    assert!(!s.contains(UnitKind::Ruler));
    assert!(s.contains(UnitKind::Soldier));
    assert!(!s.is_empty());
    assert!(strength(0, 0).is_empty());
}
