//! Grid coordinates, fixed-point world positions, and viewport rectangles.

use vstd::prelude::*;

verus! {

/// Fixed-point subunits per grid cell along each axis.
pub const CELL: i64 = 1024;

/// Half a cell, used when rounding a position to the nearest cell.
pub const HALF_CELL: i64 = 512;

/// Largest grid coordinate along each axis.
pub const MAX_COORD: i64 = 65535;

/// Largest fixed-point position that still rounds to a grid coordinate.
pub const MAX_POS: i64 = 65535 * 1024 + 511;

/// Integer grid coordinate identifying a territory node.
#[derive(Clone, Copy, PartialEq, Eq, Structural, Hash, Debug)]
pub struct NodeId {
    pub x: u16,
    pub y: u16,
}

/// A continuous world-space position in fixed-point subunits
/// ([`CELL`] subunits per grid cell).
#[derive(Clone, Copy, PartialEq, Eq, Structural, Debug)]
pub struct WorldPos {
    pub x: i64,
    pub y: i64,
}

impl NodeId {
    /// A total order on node identifiers, usable for deduplication.
    pub open spec fn spec_key(self) -> int {
        self.y * 0x10000 + self.x
    }

    /// Compares two identifiers in the total order given by [`NodeId::spec_key`].
    pub fn le(self, other: NodeId) -> (r: bool)
        ensures
            r == (self.spec_key() <= other.spec_key()),
    {
        if self.y != other.y {
            self.y < other.y
        } else {
            self.x <= other.x
        }
    }
}

/// The axis-adjacent grid coordinates of `id` that lie on the grid, in
/// row-major order: below, left, right, above.
pub open spec fn spec_neighbors(id: NodeId) -> Seq<NodeId> {
    (if id.y > 0 {
        seq![NodeId { x: id.x, y: (id.y - 1) as u16 }]
    } else {
        Seq::empty()
    }) + (if id.x > 0 {
        seq![NodeId { x: (id.x - 1) as u16, y: id.y }]
    } else {
        Seq::empty()
    }) + (if id.x < 65535 {
        seq![NodeId { x: (id.x + 1) as u16, y: id.y }]
    } else {
        Seq::empty()
    }) + (if id.y < 65535 {
        seq![NodeId { x: id.x, y: (id.y + 1) as u16 }]
    } else {
        Seq::empty()
    })
}

impl NodeId {
    /// Enumerates the axis-adjacent grid coordinates of this node.
    pub fn neighbors(self) -> (r: Vec<NodeId>)
        ensures
            r@ == spec_neighbors(self),
    {
        let mut r: Vec<NodeId> = Vec::new();
        if self.y > 0 {
            r.push(NodeId { x: self.x, y: self.y - 1 });
        }
        if self.x > 0 {
            r.push(NodeId { x: self.x - 1, y: self.y });
        }
        if self.x < 65535 {
            r.push(NodeId { x: self.x + 1, y: self.y });
        }
        if self.y < 65535 {
            r.push(NodeId { x: self.x, y: self.y + 1 });
        }
        proof {
            assert(r@ =~= spec_neighbors(self));
        }
        r
    }
}

/// The fixed-point x position of the center of a node's cell.
pub open spec fn center_x(id: NodeId) -> int {
    id.x * CELL
}

/// The fixed-point y position of the center of a node's cell.
pub open spec fn center_y(id: NodeId) -> int {
    id.y * CELL
}

/// Whether a fixed-point axis value rounds to some grid coordinate.
pub open spec fn axis_in_range(v: int) -> bool {
    -HALF_CELL <= v <= MAX_POS
}

/// The grid coordinate nearest to a fixed-point axis value.
pub open spec fn nearest_coord(v: int) -> int {
    (v + HALF_CELL) / (CELL as int)
}

/// The grid cell whose center is nearest to `p`, if `p` is within the grid.
pub open spec fn spec_closest_cell(p: WorldPos) -> Option<NodeId> {
    if axis_in_range(p.x as int) && axis_in_range(p.y as int) {
        Some(NodeId { x: nearest_coord(p.x as int) as u16, y: nearest_coord(p.y as int) as u16 })
    } else {
        None
    }
}

/// Squared Euclidean distance from the center of `id`'s cell to `p`.
pub open spec fn dist_sq(id: NodeId, p: WorldPos) -> int {
    (center_x(id) - p.x) * (center_x(id) - p.x) + (center_y(id) - p.y) * (center_y(id) - p.y)
}

/// Rounds one axis of a position to its nearest grid coordinate.
fn nearest_coord_exec(v: i64) -> (r: u16)
    requires
        axis_in_range(v as int),
    ensures
        r == nearest_coord(v as int),
{
    let shifted: u64 = (v + HALF_CELL) as u64;
    let q: u64 = shifted / 1024;
    q as u16
}

/// Converts a continuous position to the nearest grid cell, or `None` when
/// the position lies outside the grid.
pub fn closest_cell(p: WorldPos) -> (r: Option<NodeId>)
    ensures
        r == spec_closest_cell(p),
{
    if p.x < -HALF_CELL || p.x > MAX_POS || p.y < -HALF_CELL || p.y > MAX_POS {
        None
    } else {
        Some(NodeId { x: nearest_coord_exec(p.x), y: nearest_coord_exec(p.y) })
    }
}

/// Computes the squared distance from the center of `id`'s cell to `p`.
pub fn dist_sq_exec(id: NodeId, p: WorldPos) -> (r: i64)
    requires
        axis_in_range(p.x as int),
        axis_in_range(p.y as int),
    ensures
        r == dist_sq(id, p),
{
    let cx: i64 = (id.x as i64) * CELL;
    let cy: i64 = (id.y as i64) * CELL;
    let dx: i64 = cx - p.x;
    let dy: i64 = cy - p.y;
    assert(0 <= dx * dx <= 67108352 * 67108352) by (nonlinear_arith)
        requires
            -67108352 <= dx <= 67108352,
    ;
    assert(0 <= dy * dy <= 67108352 * 67108352) by (nonlinear_arith)
        requires
            -67108352 <= dy <= 67108352,
    ;
    dx * dx + dy * dy
}

/// An axis-aligned rectangle of grid coordinates, inclusive on all sides.
#[derive(Clone, Copy, PartialEq, Eq, Structural, Debug)]
pub struct ViewRect {
    pub left: i32,
    pub bottom: i32,
    pub right: i32,
    pub top: i32,
}

impl ViewRect {
    /// Whether the rectangle contains the node's coordinates.
    pub open spec fn spec_contains(self, id: NodeId) -> bool {
        self.left <= id.x <= self.right && self.bottom <= id.y <= self.top
    }

    /// Tests whether the rectangle contains the node's coordinates.
    pub fn contains(&self, id: NodeId) -> (r: bool)
        ensures
            r == self.spec_contains(id),
    {
        self.left <= id.x as i32 && id.x as i32 <= self.right && self.bottom <= id.y as i32
            && id.y as i32 <= self.top
    }

    /// The rectangle grown by `m` on every side, clamped at the
    /// representable coordinate range.
    pub open spec fn spec_add_margin(self, m: i32) -> ViewRect {
        ViewRect {
            left: if self.left - m >= i32::MIN { (self.left - m) as i32 } else { i32::MIN },
            bottom: if self.bottom - m >= i32::MIN { (self.bottom - m) as i32 } else { i32::MIN },
            right: if self.right + m <= i32::MAX { (self.right + m) as i32 } else { i32::MAX },
            top: if self.top + m <= i32::MAX { (self.top + m) as i32 } else { i32::MAX },
        }
    }

    /// Grows the rectangle by `m` on every side.
    pub fn add_margin(&self, m: i32) -> (r: ViewRect)
        requires
            m >= 0,
        ensures
            r == self.spec_add_margin(m),
    {
        ViewRect {
            left: if self.left >= i32::MIN + m { self.left - m } else { i32::MIN },
            bottom: if self.bottom >= i32::MIN + m { self.bottom - m } else { i32::MIN },
            right: if self.right <= i32::MAX - m { self.right + m } else { i32::MAX },
            top: if self.top <= i32::MAX - m { self.top + m } else { i32::MAX },
        }
    }
}

} // verus!
