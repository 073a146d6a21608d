//! Hit-testing: mapping a continuous cursor position to the nearest visible
//! node within a bounded neighborhood.

use vstd::prelude::*;

use crate::geom::NodeId;
use crate::geom::WorldPos;
use crate::geom::axis_in_range;
use crate::geom::closest_cell;
use crate::geom::dist_sq;
use crate::geom::dist_sq_exec;
use crate::geom::spec_closest_cell;
use crate::vis::VisibilityTracker;
use crate::world::WorldSnapshot;

verus! {

/// The `k`-th cell of the 3-by-3 neighborhood around `c`, enumerated
/// row-major from the bottom-left; `None` where the grid ends.
pub open spec fn spec_candidate(c: NodeId, k: int) -> Option<NodeId> {
    let x = c.x + k % 3 - 1;
    let y = c.y + k / 3 - 1;
    if 0 <= x <= 65535 && 0 <= y <= 65535 {
        Some(NodeId { x: x as u16, y: y as u16 })
    } else {
        None
    }
}

/// Whether `id` may be hit: it has been generated and is visible.
pub open spec fn spec_cand_valid(w: WorldSnapshot, vis: VisibilityTracker, id: NodeId) -> bool {
    w.spec_exists(id) && vis.spec_contains(id)
}

/// Keeps the better of the running best and one more candidate: an invalid
/// candidate is skipped, and ties keep the earlier candidate.
pub open spec fn spec_better(
    w: WorldSnapshot,
    vis: VisibilityTracker,
    p: WorldPos,
    best: Option<NodeId>,
    cand: Option<NodeId>,
) -> Option<NodeId> {
    match cand {
        None => best,
        Some(c) => if !spec_cand_valid(w, vis, c) {
            best
        } else {
            match best {
                None => Some(c),
                Some(b) => if dist_sq(c, p) < dist_sq(b, p) {
                    Some(c)
                } else {
                    best
                },
            }
        },
    }
}

/// The best valid candidate among the first `k` cells of the neighborhood
/// of `c`, by squared distance to `p`, earliest first on ties.
pub open spec fn spec_best_upto(
    w: WorldSnapshot,
    vis: VisibilityTracker,
    p: WorldPos,
    c: NodeId,
    k: int,
) -> Option<NodeId>
    decreases k,
{
    if k <= 0 {
        None
    } else {
        spec_better(w, vis, p, spec_best_upto(w, vis, p, c, k - 1), spec_candidate(c, k - 1))
    }
}

/// The visible node nearest to `p` within the neighborhood of the cell that
/// `p` falls in, or `None` when the cursor is over fog or off the grid.
pub open spec fn spec_closest(w: WorldSnapshot, vis: VisibilityTracker, p: WorldPos) -> Option<
    NodeId,
> {
    match spec_closest_cell(p) {
        None => None,
        Some(c) => spec_best_upto(w, vis, p, c, 9),
    }
}

/// Maps a continuous cursor position to the nearest visible node.
///
/// Converts the position to its nearest grid cell, searches that cell and
/// its immediate neighborhood, keeps only generated, visible candidates,
/// and returns the one nearest to `p`; ties go to the first candidate in
/// enumeration order. `None` means "cursor over fog", not an error.
pub fn closest(w: &WorldSnapshot, vis: &VisibilityTracker, p: WorldPos) -> (r: Option<NodeId>)
    ensures
        r == spec_closest(*w, *vis, p),
{
    let center: Option<NodeId> = closest_cell(p);
    match center {
        None => None,
        Some(c) => {
            let mut best: Option<NodeId> = None;
            let mut k: usize = 0;
            while k < 9
                invariant
                    k <= 9,
                    spec_closest_cell(p) == Some(c),
                    best == spec_best_upto(*w, *vis, p, c, k as int),
                decreases 9 - k,
            {
                let dx: i64 = (k % 3) as i64;
                let dy: i64 = (k / 3) as i64;
                let x: i64 = c.x as i64 + dx - 1;
                let y: i64 = c.y as i64 + dy - 1;
                let cand: Option<NodeId> = if 0 <= x && x <= 65535 && 0 <= y && y <= 65535 {
                    Some(NodeId { x: x as u16, y: y as u16 })
                } else {
                    None
                };
                assert(cand == spec_candidate(c, k as int));
                match cand {
                    None => {},
                    Some(cd) => {
                        if w.exists_node(cd) && vis.contains(cd) {
                            match best {
                                None => {
                                    best = Some(cd);
                                },
                                Some(b) => {
                                    if dist_sq_exec(cd, p) < dist_sq_exec(b, p) {
                                        best = Some(cd);
                                    }
                                },
                            }
                        }
                    },
                }
                assert(best == spec_best_upto(*w, *vis, p, c, k + 1));
                k = k + 1;
            }
            best
        },
    }
}

/// The hit tester returns a valid candidate that is nearest among all valid
/// candidates of the neighborhood, and returns one whenever any candidate
/// is valid.
pub proof fn lemma_best_upto_minimal(
    w: WorldSnapshot,
    vis: VisibilityTracker,
    p: WorldPos,
    c: NodeId,
    k: int,
)
    requires
        0 <= k,
    ensures
        forall|j: int|
            #![trigger spec_candidate(c, j)]
            (0 <= j < k && spec_candidate(c, j) is Some && spec_cand_valid(
                w,
                vis,
                spec_candidate(c, j)->Some_0,
            )) ==> (spec_best_upto(w, vis, p, c, k) is Some && dist_sq(
                spec_best_upto(w, vis, p, c, k)->Some_0,
                p,
            ) <= dist_sq(spec_candidate(c, j)->Some_0, p)),
        spec_best_upto(w, vis, p, c, k) is Some ==> spec_cand_valid(
            w,
            vis,
            spec_best_upto(w, vis, p, c, k)->Some_0,
        ) && exists|j: int|
            0 <= j < k && spec_candidate(c, j) == Some(spec_best_upto(w, vis, p, c, k)->Some_0),
    decreases k,
{
    if k > 0 {
        lemma_best_upto_minimal(w, vis, p, c, k - 1);
        let r = spec_best_upto(w, vis, p, c, k);
        if r is Some {
            let b = r->Some_0;
            if spec_best_upto(w, vis, p, c, k - 1) == Some(b) {
                let j = choose|j: int| 0 <= j < k - 1 && spec_candidate(c, j) == Some(b);
                assert(0 <= j < k && spec_candidate(c, j) == Some(b));
            } else {
                assert(spec_candidate(c, k - 1) == Some(b));
            }
        }
    }
}

} // verus!
