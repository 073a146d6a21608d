//! Unit kinds, node kinds, carried strength, and the derivation of the
//! maximum edge distance of an order.

use vstd::prelude::*;

verus! {

/// A closed enumeration of mobile unit kinds, weakest first.
#[derive(Clone, Copy, PartialEq, Eq, Structural, Debug)]
pub enum UnitKind {
    Shield,
    Soldier,
    Fighter,
    Nuke,
    Ruler,
}

/// The maximum number of grid edges a unit kind may traverse in one order.
pub open spec fn spec_travel_distance(k: UnitKind) -> u16 {
    match k {
        UnitKind::Shield => 2,
        UnitKind::Soldier => 3,
        UnitKind::Fighter => 4,
        UnitKind::Nuke => 6,
        UnitKind::Ruler => 3,
    }
}

impl UnitKind {
    /// The maximum number of grid edges this unit kind may traverse in one order.
    pub fn travel_distance(self) -> (r: u16)
        ensures
            r == spec_travel_distance(self),
    {
        match self {
            UnitKind::Shield => 2,
            UnitKind::Soldier => 3,
            UnitKind::Fighter => 4,
            UnitKind::Nuke => 6,
            UnitKind::Ruler => 3,
        }
    }
}

/// Unit strengths present at a node, counted per kind.
#[derive(Clone, Copy, PartialEq, Eq, Structural, Debug)]
pub struct Strength {
    pub shield: u16,
    pub soldier: u16,
    pub fighter: u16,
    pub nuke: u16,
    pub ruler: u16,
}

impl Strength {
    /// A strength with no units at all.
    pub fn none() -> (r: Strength)
        ensures
            r.spec_is_empty(),
    {
        Strength { shield: 0, soldier: 0, fighter: 0, nuke: 0, ruler: 0 }
    }

    /// Whether no units of any kind are present.
    pub open spec fn spec_is_empty(self) -> bool {
        self.shield == 0 && self.soldier == 0 && self.fighter == 0 && self.nuke == 0
            && self.ruler == 0
    }

    /// Tests whether no units of any kind are present.
    pub fn is_empty(&self) -> (r: bool)
        ensures
            r == self.spec_is_empty(),
    {
        self.shield == 0 && self.soldier == 0 && self.fighter == 0 && self.nuke == 0
            && self.ruler == 0
    }

    /// The count of units of kind `k`.
    pub open spec fn spec_count(self, k: UnitKind) -> u16 {
        match k {
            UnitKind::Shield => self.shield,
            UnitKind::Soldier => self.soldier,
            UnitKind::Fighter => self.fighter,
            UnitKind::Nuke => self.nuke,
            UnitKind::Ruler => self.ruler,
        }
    }

    /// Whether at least one unit of kind `k` is present.
    pub open spec fn spec_contains(self, k: UnitKind) -> bool {
        self.spec_count(k) > 0
    }

    /// Tests whether at least one unit of kind `k` is present.
    pub fn contains(&self, k: UnitKind) -> (r: bool)
        ensures
            r == self.spec_contains(k),
    {
        let c: u16 = match k {
            UnitKind::Shield => self.shield,
            UnitKind::Soldier => self.soldier,
            UnitKind::Fighter => self.fighter,
            UnitKind::Nuke => self.nuke,
            UnitKind::Ruler => self.ruler,
        };
        c > 0
    }

    /// The strongest unit kind present; meaningful only when not empty.
    pub open spec fn spec_strongest(self) -> UnitKind {
        if self.ruler > 0 {
            UnitKind::Ruler
        } else if self.nuke > 0 {
            UnitKind::Nuke
        } else if self.fighter > 0 {
            UnitKind::Fighter
        } else if self.soldier > 0 {
            UnitKind::Soldier
        } else {
            UnitKind::Shield
        }
    }

    /// The maximum travel distance of the strongest unit kind present.
    pub open spec fn spec_max_travel(self) -> u16 {
        spec_travel_distance(self.spec_strongest())
    }

    /// Computes the maximum travel distance of the strongest unit kind present.
    pub fn max_travel(&self) -> (r: u16)
        ensures
            r == self.spec_max_travel(),
    {
        let strongest: UnitKind = if self.ruler > 0 {
            UnitKind::Ruler
        } else if self.nuke > 0 {
            UnitKind::Nuke
        } else if self.fighter > 0 {
            UnitKind::Fighter
        } else if self.soldier > 0 {
            UnitKind::Soldier
        } else {
            UnitKind::Shield
        };
        strongest.travel_distance()
    }
}

/// A closed enumeration of node (tower) kinds, each with an intrinsic
/// ranged distance and a flag for autonomous production of mobile units.
#[derive(Clone, Copy, PartialEq, Eq, Structural, Debug)]
pub enum NodeKind {
    Outpost,
    Village,
    Fortress,
    Barracks,
    Airfield,
    Silo,
}

/// The intrinsic maximum order range of a node kind, in grid edges.
pub open spec fn spec_ranged_distance(k: NodeKind) -> u16 {
    match k {
        NodeKind::Outpost => 2,
        NodeKind::Village => 2,
        NodeKind::Fortress => 3,
        NodeKind::Barracks => 3,
        NodeKind::Airfield => 5,
        NodeKind::Silo => 6,
    }
}

/// Whether a node kind autonomously produces mobile units.
pub open spec fn spec_produces_mobile_units(k: NodeKind) -> bool {
    match k {
        NodeKind::Outpost => false,
        NodeKind::Village => true,
        NodeKind::Fortress => false,
        NodeKind::Barracks => true,
        NodeKind::Airfield => true,
        NodeKind::Silo => false,
    }
}

impl NodeKind {
    /// The intrinsic maximum order range of this node kind, in grid edges.
    pub fn ranged_distance(self) -> (r: u16)
        ensures
            r == spec_ranged_distance(self),
    {
        match self {
            NodeKind::Outpost => 2,
            NodeKind::Village => 2,
            NodeKind::Fortress => 3,
            NodeKind::Barracks => 3,
            NodeKind::Airfield => 5,
            NodeKind::Silo => 6,
        }
    }

    /// Whether this node kind autonomously produces mobile units.
    pub fn generates_mobile_units(self) -> (r: bool)
        ensures
            r == spec_produces_mobile_units(self),
    {
        match self {
            NodeKind::Outpost => false,
            NodeKind::Village => true,
            NodeKind::Fortress => false,
            NodeKind::Barracks => true,
            NodeKind::Airfield => true,
            NodeKind::Silo => false,
        }
    }
}

/// The maximum edge distance of an order from a node of kind `k` holding
/// strength `s`: the node's intrinsic ranged distance, shortened to the
/// strongest carried unit's travel distance when any units are present.
pub open spec fn spec_max_edge_distance(k: NodeKind, s: Strength) -> u16 {
    if s.spec_is_empty() {
        spec_ranged_distance(k)
    } else if s.spec_max_travel() < spec_ranged_distance(k) {
        s.spec_max_travel()
    } else {
        spec_ranged_distance(k)
    }
}

/// Derives the maximum edge distance for an order from a node of kind `k`
/// holding strength `s`. Recomputed on every drag-target change, since the
/// source's strength and kind are mutable between frames.
pub fn derived_max_edge_distance(k: NodeKind, s: &Strength) -> (r: u16)
    ensures
        r == spec_max_edge_distance(k, *s),
{
    let ranged: u16 = k.ranged_distance();
    if s.is_empty() {
        ranged
    } else {
        let travel: u16 = s.max_travel();
        if travel < ranged {
            travel
        } else {
            ranged
        }
    }
}

} // verus!
