//! The splitting-line descriptor of the binary space partition: a line given
//! by origin and direction, with the bounding box of each resulting
//! half-space. Built once from static map geometry and read-only during play.

use vstd::prelude::*;
use crate::vec_f2::{side_of_line, spec_point_on_side, VecF2};

verus! {

/// A node of the spatial index: the splitting line through `xy` with
/// direction `delta`, and one axis-aligned bounding box per half-space.
#[derive(Clone, Copy, Debug)]
pub struct Node {
    /// A point on the splitting line.
    pub xy: VecF2,
    /// The direction of the splitting line.
    pub delta: VecF2,
    /// The bounding box of each half-space, indexed by side (0 front,
    /// 1 back). Within a box, entry 0 is the top-left corner (least x,
    /// greatest y) and entry 1 the bottom-right.
    pub bboxes: [[VecF2; 2]; 2],
}

/// Strict containment of the point `v` in the bounding box of the given side
/// of node `n`.
pub open spec fn spec_point_in_bounds(n: Node, v: VecF2, side: int) -> bool {
    v.x.0 > n.bboxes[side][0].x.0 && v.x.0 < n.bboxes[side][1].x.0
        && v.y.0 < n.bboxes[side][0].y.0 && v.y.0 > n.bboxes[side][1].y.0
}

impl Node {
    /// Determines by cross product which side of the splitting line the
    /// point is on: 0 for front, 1 for back, with the fixed tie-breaks of
    /// [`spec_point_on_side`].
    pub fn point_on_side(&self, v: &VecF2) -> (r: usize)
        ensures
            r == spec_point_on_side(
                self.xy.x.0 as int,
                self.xy.y.0 as int,
                self.delta.x.0 as int,
                self.delta.y.0 as int,
                v.x.0 as int,
                v.y.0 as int,
            ),
    {
        side_of_line(self.xy.x, self.xy.y, self.delta.x, self.delta.y, v.x, v.y)
    }

    /// Whether the point lies strictly inside the bounding box of the given
    /// half-space: the cheap pre-filter before a full intersection test.
    pub fn point_in_bounds(&self, v: VecF2, side: usize) -> (r: bool)
        requires
            side < 2,
        ensures
            r == spec_point_in_bounds(*self, v, side as int),
    {
        if v.x.0 > self.bboxes[side][0].x.0
            && v.x.0 < self.bboxes[side][1].x.0
            && v.y.0 < self.bboxes[side][0].y.0
            && v.y.0 > self.bboxes[side][1].y.0
        {
            return true;
        }
        false
    }
}

} // verus!
