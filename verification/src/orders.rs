//! Outbound orders and the UI events that pass through the core.

use vstd::prelude::*;

use crate::geom::NodeId;
use crate::geom::ViewRect;
use crate::units::NodeKind;
use crate::world::Route;

verus! {

/// An outbound order for the game-simulation collaborator.
///
/// `Deploy` moves strength once along a route; `SetSupplyLine` installs a
/// persistent route at a node, or clears it when `route` is `None`;
/// `SetViewport` subscribes the player to a rectangle of the world. The
/// remaining variants are out-of-core orders that pass through unchanged.
#[derive(Clone, PartialEq, Eq, Debug)]
pub enum Order {
    Deploy(Route),
    SetSupplyLine { node: NodeId, route: Option<Route> },
    SetViewport(ViewRect),
    Alliance { with_player: u64, break_alliance: bool },
    Upgrade { node: NodeId, kind: NodeKind },
    Spawn(String),
}

/// A UI event that the core converts into an outbound order.
#[derive(Clone, PartialEq, Eq, Debug)]
pub enum UiEvent {
    Alliance { with_player: u64, break_alliance: bool },
    Upgrade { node: NodeId, kind: NodeKind },
    Spawn(String),
}

/// The order that a UI event passes through as.
pub open spec fn spec_ui_order(ev: UiEvent) -> Order {
    match ev {
        UiEvent::Alliance { with_player, break_alliance } => Order::Alliance {
            with_player,
            break_alliance,
        },
        UiEvent::Upgrade { node, kind } => Order::Upgrade { node, kind },
        UiEvent::Spawn(alias) => Order::Spawn(alias),
    }
}

} // verus!
