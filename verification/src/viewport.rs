//! The size of the surface that a buffer is shown on, and the scale at which
//! it is shown.

use vstd::prelude::*;
use crate::pixbuf::PixBuf;

verus! {

/// An exact fraction. A denominator of zero stands for a scale without
/// bound, as a surface of no width or height gives.
#[derive(Copy, Clone, Debug, PartialEq, Eq, Structural)]
pub struct Ratio {
    pub num: u32,
    pub den: u32,
}

/// The factors by which the unit quad is scaled along each axis.
#[derive(Copy, Clone, Debug, PartialEq, Eq, Structural)]
pub struct Scale {
    pub x: Ratio,
    pub y: Ratio,
}

impl Scale {
    /// The entry in the given row and column of the matrix that scales the
    /// quad: the two factors lead the diagonal, ones follow them, and every
    /// other entry is zero.
    pub open spec fn entry(self, row: int, column: int) -> Ratio {
        if row != column {
            Ratio { num: 0, den: 1 }
        } else if row == 0 {
            self.x
        } else if row == 1 {
            self.y
        } else {
            Ratio { num: 1, den: 1 }
        }
    }

    /// The four by four matrix that scales the quad, row by row.
    pub fn matrix(&self) -> (rows: [[Ratio; 4]; 4])
        ensures
            forall|row: int, column: int|
                0 <= row < 4 && 0 <= column < 4 ==> #[trigger] rows@[row]@[column] == self.entry(
                    row,
                    column,
                ),
    {
        let zero = Ratio { num: 0, den: 1 };
        let one = Ratio { num: 1, den: 1 };
        [
            [self.x, zero, zero, zero],
            [zero, self.y, zero, zero],
            [zero, zero, one, zero],
            [zero, zero, zero, one],
        ]
    }
}

/// The size of the surface, in pixels.
#[derive(Copy, Clone, Debug, PartialEq, Eq, Structural)]
pub struct Viewport {
    pub width: u32,
    pub height: u32,
}

impl Viewport {
    /// The viewport before the surface has reported its size: one by one.
    pub fn new() -> (viewport: Viewport)
        ensures
            viewport == (Viewport { width: 1, height: 1 }),
    {
        Viewport { width: 1, height: 1 }
    }

    /// Takes the new size of the surface. The next scale is computed from it.
    pub fn resize(&mut self, width: u32, height: u32)
        ensures
            *final(self) == (Viewport { width, height }),
    {
        self.width = width;
        self.height = height;
    }

    /// The scale at which `pix_buf` is shown: along each axis the dimension
    /// of the buffer over that of the viewport.
    pub fn scale(&self, pix_buf: &PixBuf) -> (scale: Scale)
        ensures
            scale.x.num == pix_buf@.width,
            scale.x.den == self.width,
            scale.y.num == pix_buf@.height,
            scale.y.den == self.height,
    {
        Scale {
            x: Ratio { num: pix_buf.width(), den: self.width },
            y: Ratio { num: pix_buf.height(), den: self.height },
        }
    }
}

} // verus!
