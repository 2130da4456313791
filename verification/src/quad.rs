//! The quad that a buffer is drawn on: four corners that span the whole
//! surface, and the order in which a triangle strip visits them.

use vstd::prelude::*;

verus! {

/// A corner of the quad. `x` and `y` place it on the surface, which runs
/// from -1 to 1 along both axes with `y` pointing up; `u` and `v` place it
/// on the texture, which runs from 0 to 1 with `v` pointing down.
#[derive(Copy, Clone, Debug, PartialEq, Eq, Structural)]
pub struct Corner {
    pub x: i8,
    pub y: i8,
    pub u: u8,
    pub v: u8,
}

impl Corner {
    /// The corner lies on a corner of the surface, and on the texture it
    /// lies on the matching corner: left on left, top on top.
    pub open spec fn matches_texture(self) -> bool {
        &&& (self.x == -1 || self.x == 1)
        &&& (self.y == -1 || self.y == 1)
        &&& 2 * self.u == self.x + 1
        &&& 2 * self.v == 1 - self.y
    }
}

/// The four corners: bottom left, top left, top right, bottom right.
pub open spec fn corners() -> Seq<Corner> {
    seq![
        Corner { x: -1i8, y: -1i8, u: 0, v: 1 },
        Corner { x: -1i8, y: 1, u: 0, v: 0 },
        Corner { x: 1, y: 1, u: 1, v: 0 },
        Corner { x: 1, y: -1i8, u: 1, v: 1 },
    ]
}

/// The order in which the strip visits the corners. Each three corners in a
/// row make a triangle.
pub open spec fn strip() -> Seq<u16> {
    seq![1, 2, 0, 3]
}

/// The corners of the quad.
pub fn quad_corners() -> (quad: [Corner; 4])
    ensures
        quad@ == corners(),
{
    let quad = [
        Corner { x: -1, y: -1, u: 0, v: 1 },
        Corner { x: -1, y: 1, u: 0, v: 0 },
        Corner { x: 1, y: 1, u: 1, v: 0 },
        Corner { x: 1, y: -1, u: 1, v: 1 },
    ];
    assert(quad@ =~= corners());
    quad
}

/// The indices of the triangle strip that draws the quad.
pub fn quad_strip() -> (indices: [u16; 4])
    ensures
        indices@ == strip(),
{
    let indices = [1u16, 2u16, 0u16, 3u16];
    assert(indices@ =~= strip());
    indices
}

/// Every corner of the quad carries the texture coordinates that match its
/// place, no two corners share a place, and the strip's two triangles share
/// the diagonal from the top right to the bottom left and have the two
/// other corners as their third: together they cover the quad.
pub proof fn lemma_strip_covers_quad()
    ensures
        forall|i: int| 0 <= i < 4 ==> (#[trigger] corners()[i]).matches_texture(),
        forall|i: int, j: int|
            0 <= i < j < 4 ==> (#[trigger] corners()[i]).x != (#[trigger] corners()[j]).x
                || corners()[i].y != corners()[j].y,
        strip()[1] == 2 && strip()[2] == 0,
        corners()[2].x == -corners()[0].x && corners()[2].y == -corners()[0].y,
        strip()[0] == 1 && strip()[3] == 3,
        corners()[1].x == -corners()[3].x && corners()[1].y == -corners()[3].y,
{
}

} // verus!
