//! The mathematical model of a pixel buffer, and what holds of it.

use vstd::prelude::*;
use crate::color::Color;

verus! {

/// What a pixel buffer holds: its dimensions and its pixels, row by row from
/// the top, each row from the left.
pub struct Grid {
    pub width: nat,
    pub height: nat,
    pub pixels: Seq<Color>,
}

impl Grid {
    /// There is exactly one pixel for each position.
    pub open spec fn wf(self) -> bool {
        self.pixels.len() == self.width * self.height
    }

    /// The place in `pixels` of the pixel `left` columns from the left edge
    /// and `top` rows from the top edge.
    pub open spec fn offset(self, left: nat, top: nat) -> nat {
        top * self.width + left
    }

    /// The pixel at the given position.
    pub open spec fn pixel(self, left: nat, top: nat) -> Color
        recommends
            self.offset(left, top) < self.pixels.len(),
    {
        self.pixels[self.offset(left, top) as int]
    }

    /// The grid of the given dimensions in which every pixel is opaque black.
    pub open spec fn blank(width: nat, height: nat) -> Grid {
        Grid {
            width,
            height,
            pixels: Seq::new(width * height, |i: int| Color { r: 0, g: 0, b: 0, a: 255 }),
        }
    }

    /// The grid after `color` is written at (`left`, `top`). The write takes
    /// place if the position lies inside the grid, and is dropped otherwise:
    /// a position to the right of the last column or below the last row
    /// names no pixel.
    pub open spec fn set(self, left: nat, top: nat, color: Color) -> Grid {
        if left < self.width && top < self.height {
            Grid { pixels: self.pixels.update(self.offset(left, top) as int, color), ..self }
        } else {
            self
        }
    }

    /// The grid after every pixel is overwritten with `color`.
    pub open spec fn fill(self, color: Color) -> Grid {
        Grid { pixels: Seq::new(self.pixels.len(), |i: int| color), ..self }
    }

    /// The pixels as bytes: four for each pixel, red, green, blue, alpha,
    /// with nothing in between.
    pub open spec fn raw_bytes(self) -> Seq<u8> {
        Seq::new(4 * self.pixels.len(), |k: int| self.pixels[k / 4].channels()[k % 4])
    }
}

/// The raw bytes of a grid are four times its pixels in number, and the
/// four bytes of each pixel are its red, green, blue and alpha channel, in
/// that order.
pub proof fn lemma_raw_bytes_layout(grid: Grid)
    requires
        grid.wf(),
    ensures
        grid.raw_bytes().len() == 4 * grid.width * grid.height,
        forall|i: int|
            0 <= i < grid.pixels.len() ==> grid.raw_bytes().subrange(4 * i, 4 * i + 4)
                == (#[trigger] grid.pixels[i]).channels(),
{
    assert(4 * (grid.width * grid.height) == 4 * grid.width * grid.height) by (nonlinear_arith);
    assert forall|i: int| 0 <= i < grid.pixels.len() implies grid.raw_bytes().subrange(
        4 * i,
        4 * i + 4,
    ) == (#[trigger] grid.pixels[i]).channels() by {
        let quad = grid.raw_bytes().subrange(4 * i, 4 * i + 4);
        assert forall|c: int| 0 <= c < 4 implies quad[c] == grid.pixels[i].channels()[c] by {
            assert((4 * i + c) / 4 == i);
            assert((4 * i + c) % 4 == c);
        }
        assert(quad =~= grid.pixels[i].channels());
    }
}

/// Positions inside the grid have offsets inside the pixels, and two of them
/// share an offset only if they are the same position.
pub proof fn lemma_offset_in_range(grid: Grid, left: nat, top: nat)
    requires
        grid.wf(),
        left < grid.width,
        top < grid.height,
    ensures
        grid.offset(left, top) < grid.pixels.len(),
        forall|l: nat, t: nat|
            l < grid.width && #[trigger] grid.offset(l, t) == grid.offset(left, top) ==> l == left
                && t == top,
{
    let w = grid.width as int;
    assert(top * w + w <= grid.height * w) by (nonlinear_arith)
        requires
            0 <= top < grid.height,
            0 <= w,
    ;
    assert forall|l: nat, t: nat|
        l < grid.width && #[trigger] grid.offset(l, t) == grid.offset(
            left,
            top,
        ) implies l == left && t == top by {
        if t < top {
            assert(t * w + w <= top * w) by (nonlinear_arith)
                requires
                    0 <= t < top,
                    0 <= w,
            ;
        } else if t > top {
            assert(top * w + w <= t * w) by (nonlinear_arith)
                requires
                    0 <= top < t,
                    0 <= w,
            ;
        }
    }
}

/// After a write at a position inside the grid, that position reads the
/// color written, every other position inside the grid reads what it read
/// before, and the dimensions are the same.
pub proof fn lemma_set_then_read(grid: Grid, left: nat, top: nat, color: Color)
    requires
        grid.wf(),
        left < grid.width,
        top < grid.height,
    ensures
        grid.set(left, top, color).wf(),
        grid.set(left, top, color).width == grid.width,
        grid.set(left, top, color).height == grid.height,
        grid.set(left, top, color).pixel(left, top) == color,
        forall|l: nat, t: nat|
            l < grid.width && t < grid.height && (l != left || t != top) ==> #[trigger] grid.set(
                left,
                top,
                color,
            ).pixel(l, t) == grid.pixel(l, t),
{
    lemma_offset_in_range(grid, left, top);
    assert forall|l: nat, t: nat|
        l < grid.width && t < grid.height && (l != left || t != top) implies #[trigger] grid.set(
            left,
            top,
            color,
        ).pixel(l, t) == grid.pixel(l, t) by {
        lemma_offset_in_range(grid, l, t);
        assert(grid.offset(l, t) != grid.offset(left, top));
    }
}

/// A write at a position to the right of the last column or below the last
/// row changes nothing.
pub proof fn lemma_set_out_of_range(grid: Grid, left: nat, top: nat, color: Color)
    requires
        grid.wf(),
        left >= grid.width || top >= grid.height,
    ensures
        grid.set(left, top, color) == grid,
{
}

/// After a fill, every position inside the grid reads the color filled in,
/// and the dimensions are the same.
pub proof fn lemma_fill_then_read(grid: Grid, color: Color, left: nat, top: nat)
    requires
        grid.wf(),
        left < grid.width,
        top < grid.height,
    ensures
        grid.fill(color).wf(),
        grid.fill(color).width == grid.width,
        grid.fill(color).height == grid.height,
        grid.fill(color).pixel(left, top) == color,
{
    lemma_offset_in_range(grid, left, top);
}

/// One step of painting: a write at a position, or a fill.
pub enum Edit {
    Write { left: nat, top: nat, color: Color },
    Fill { color: Color },
}

impl Edit {
    /// The color that the edit paints with.
    pub open spec fn color(self) -> Color {
        match self {
            Edit::Write { color, .. } => color,
            Edit::Fill { color } => color,
        }
    }

    /// Whether the edit, made on `grid`, writes the pixel at offset `at`.
    pub open spec fn writes(self, grid: Grid, at: int) -> bool {
        match self {
            Edit::Write { left, top, .. } => left < grid.width && top < grid.height && at
                == grid.offset(left, top),
            Edit::Fill { .. } => 0 <= at < grid.pixels.len(),
        }
    }
}

impl Grid {
    /// The grid after one edit.
    pub open spec fn apply(self, edit: Edit) -> Grid {
        match edit {
            Edit::Write { left, top, color } => self.set(left, top, color),
            Edit::Fill { color } => self.fill(color),
        }
    }

    /// The grid after the edits, made in order.
    pub open spec fn replay(self, edits: Seq<Edit>) -> Grid
        decreases edits.len(),
    {
        if edits.len() == 0 {
            self
        } else {
            self.replay(edits.drop_last()).apply(edits.last())
        }
    }
}

/// Edits change neither the dimensions nor the number of pixels.
pub proof fn lemma_replay_keeps_shape(grid: Grid, edits: Seq<Edit>)
    requires
        grid.wf(),
    ensures
        grid.replay(edits).wf(),
        grid.replay(edits).width == grid.width,
        grid.replay(edits).height == grid.height,
        grid.replay(edits).pixels.len() == grid.pixels.len(),
    decreases edits.len(),
{
    if edits.len() > 0 {
        let before = grid.replay(edits.drop_last());
        lemma_replay_keeps_shape(grid, edits.drop_last());
        match edits.last() {
            Edit::Write { left, top, .. } => {
                if left < before.width && top < before.height {
                    lemma_offset_in_range(before, left, top);
                }
            },
            Edit::Fill { .. } => {},
        }
    }
}

/// One edit writes the pixels that it is said to write, with its color, and
/// leaves the others as they were.
proof fn lemma_apply_at(grid: Grid, shape: Grid, edit: Edit, at: int)
    requires
        grid.wf(),
        shape.width == grid.width,
        shape.height == grid.height,
        shape.pixels.len() == grid.pixels.len(),
        0 <= at < grid.pixels.len(),
    ensures
        grid.apply(edit).pixels[at] == if edit.writes(shape, at) {
            edit.color()
        } else {
            grid.pixels[at]
        },
{
    match edit {
        Edit::Write { left, top, .. } => {
            if left < grid.width && top < grid.height {
                lemma_offset_in_range(grid, left, top);
            }
        },
        Edit::Fill { .. } => {},
    }
}

/// The last write wins: after a run of edits, a pixel holds the color of
/// the last edit that wrote it.
pub proof fn lemma_last_write_wins(grid: Grid, edits: Seq<Edit>, at: int, last: int)
    requires
        grid.wf(),
        0 <= at < grid.pixels.len(),
        0 <= last < edits.len(),
        edits[last].writes(grid, at),
        forall|later: int| last < later < edits.len() ==> !edits[later].writes(grid, at),
    ensures
        grid.replay(edits).pixels[at] == edits[last].color(),
    decreases edits.len(),
{
    let before = edits.drop_last();
    lemma_replay_keeps_shape(grid, before);
    lemma_apply_at(grid.replay(before), grid, edits.last(), at);
    if last < edits.len() - 1 {
        assert(!edits[edits.len() - 1].writes(grid, at));
        assert(before[last] == edits[last]);
        assert forall|later: int| last < later < before.len() implies !before[later].writes(
            grid,
            at,
        ) by {
            assert(before[later] == edits[later]);
        }
        lemma_last_write_wins(grid, before, at, last);
    }
}

/// A pixel that no edit of a run writes holds what it held before the run.
pub proof fn lemma_unwritten_pixel_stays(grid: Grid, edits: Seq<Edit>, at: int)
    requires
        grid.wf(),
        0 <= at < grid.pixels.len(),
        forall|k: int| 0 <= k < edits.len() ==> !edits[k].writes(grid, at),
    ensures
        grid.replay(edits).pixels[at] == grid.pixels[at],
    decreases edits.len(),
{
    if edits.len() > 0 {
        let before = edits.drop_last();
        lemma_replay_keeps_shape(grid, before);
        lemma_apply_at(grid.replay(before), grid, edits.last(), at);
        assert(!edits[edits.len() - 1].writes(grid, at));
        assert forall|k: int| 0 <= k < before.len() implies !before[k].writes(grid, at) by {
            assert(before[k] == edits[k]);
        }
        lemma_unwritten_pixel_stays(grid, before, at);
    }
}

} // verus!
