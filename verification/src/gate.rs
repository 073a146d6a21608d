//! The safety gate: a time-delayed confirmation for perilous orders that
//! carry the protected unit kind.

use vstd::prelude::*;

use crate::units::Strength;
use crate::units::UnitKind;
use crate::world::WorldSnapshot;
use crate::world::route_perilous;
use crate::world::spec_route_perilous;

verus! {

/// Milliseconds that must elapse since the drag target last changed before
/// a perilous order carrying the ruler may be dispatched.
pub const RULER_DRAG_DELAY_MS: u64 = 1200;

/// Whether the safety gate permits dispatch: always, unless the order is perilous
/// and carries the protected unit kind, in which case only once
/// [`RULER_DRAG_DELAY_MS`] has elapsed since the drag target last changed.
pub open spec fn spec_gate_allows(
    perilous: bool,
    carries_protected: bool,
    target_changed_ms: u64,
    now_ms: u64,
) -> bool {
    !(perilous && carries_protected) || now_ms >= target_changed_ms + RULER_DRAG_DELAY_MS
}

/// Evaluates the safety gate on precomputed peril and strength flags.
pub fn gate_allows(
    perilous: bool,
    carries_protected: bool,
    target_changed_ms: u64,
    now_ms: u64,
) -> (r: bool)
    ensures
        r == spec_gate_allows(perilous, carries_protected, target_changed_ms, now_ms),
{
    if !perilous || !carries_protected {
        true
    } else if now_ms >= target_changed_ms {
        now_ms - target_changed_ms >= RULER_DRAG_DELAY_MS
    } else {
        false
    }
}

/// Evaluates the safety gate on a route and the strength it would carry.
///
/// The route is perilous when any of its nodes is owned by another player
/// or by nobody; the protected unit kind is the ruler. The timestamp is the
/// moment the drag's resolved target last changed, so the delay restarts
/// whenever the target moves and cannot be pre-armed over a safe node.
pub fn route_allowed(
    w: &WorldSnapshot,
    me: u64,
    route: &Vec<crate::geom::NodeId>,
    strength: &Strength,
    target_changed_ms: u64,
    now_ms: u64,
) -> (r: bool)
    ensures
        r == spec_gate_allows(
            spec_route_perilous(*w, me, route@),
            strength.spec_contains(UnitKind::Ruler),
            target_changed_ms,
            now_ms,
        ),
{
    let perilous: bool = route_perilous(w, me, route);
    let carries: bool = strength.contains(UnitKind::Ruler);
    gate_allows(perilous, carries, target_changed_ms, now_ms)
}

} // verus!
