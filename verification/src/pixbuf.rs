//! The pixel buffer: a grid of colors of fixed dimensions, stored row by row.

use vstd::prelude::*;
use crate::color::Color;
use crate::grid::{lemma_offset_in_range, lemma_raw_bytes_layout, Grid};

verus! {

/// `raw` holds the four channels of each of `pixels`, in order.
spec fn encodes(raw: Seq<u8>, pixels: Seq<Color>) -> bool {
    &&& raw.len() == 4 * pixels.len()
    &&& forall|i: int|
        0 <= i < pixels.len() ==> {
            &&& raw[4 * i] == (#[trigger] pixels[i]).r
            &&& raw[4 * i + 1] == pixels[i].g
            &&& raw[4 * i + 2] == pixels[i].b
            &&& raw[4 * i + 3] == pixels[i].a
        }
}

/// A fixed-size grid of pixels.
///
/// Beside the pixels the buffer keeps their bytes, so that both
/// [`PixBuf::as_slice`] and [`PixBuf::as_raw_slice`] lend a view without
/// copying.
pub struct PixBuf {
    width: u32,
    height: u32,
    data: Vec<Color>,
    raw: Vec<u8>,
}

impl View for PixBuf {
    type V = Grid;

    closed spec fn view(&self) -> Grid {
        Grid { width: self.width as nat, height: self.height as nat, pixels: self.data@ }
    }
}

/// Writes `color` at place `i`, as a pixel and as bytes.
fn store(data: &mut Vec<Color>, raw: &mut Vec<u8>, i: usize, color: Color)
    requires
        i < old(data)@.len(),
        encodes(old(raw)@, old(data)@),
    ensures
        final(data)@ == old(data)@.update(i as int, color),
        encodes(final(raw)@, final(data)@),
    no_unwind
{
    let ghost pixels = data@;
    assert(4 * i + 3 < raw.len());
    data[i] = color;
    raw[4 * i] = color.r;
    raw[4 * i + 1] = color.g;
    raw[4 * i + 2] = color.b;
    raw[4 * i + 3] = color.a;
    proof {
        assert forall|j: int| 0 <= j < data@.len() implies {
            &&& raw@[4 * j] == (#[trigger] data@[j]).r
            &&& raw@[4 * j + 1] == data@[j].g
            &&& raw@[4 * j + 2] == data@[j].b
            &&& raw@[4 * j + 3] == data@[j].a
        } by {
            if j != i {
                assert(pixels[j] == data@[j]);
            }
        }
    }
}

impl PixBuf {
    #[verifier::type_invariant]
    spec fn inv(self) -> bool {
        &&& self.data@.len() == self.width * self.height
        &&& encodes(self.raw@, self.data@)
    }

    /// A buffer of `width` by `height` pixels, all opaque black.
    ///
    /// The pixels take four bytes each, and no allocation is larger than
    /// `isize::MAX` bytes.
    pub fn with_dimensions(width: u32, height: u32) -> (buf: PixBuf)
        requires
            width * height * 4 <= isize::MAX,
        ensures
            buf@ == Grid::blank(width as nat, height as nat),
            buf@.wf(),
    {
        let n: usize = (width as usize) * (height as usize);
        let black = Color::default();
        let data: Vec<Color> = vec![black; n];
        let mut raw: Vec<u8> = Vec::new();
        let mut i: usize = 0;
        while i < n
            invariant
                i <= n,
                n * 4 <= isize::MAX,
                black == (Color { r: 0, g: 0, b: 0, a: 255 }),
                raw@.len() == 4 * i,
                forall|k: int|
                    0 <= k < raw@.len() ==> #[trigger] raw@[k] == if k % 4 == 3 {
                        255u8
                    } else {
                        0u8
                    },
            decreases n - i,
        {
            raw.push(black.r);
            raw.push(black.g);
            raw.push(black.b);
            raw.push(black.a);
            i = i + 1;
        }
        assert(data@ == Grid::blank(width as nat, height as nat).pixels);
        assert(encodes(raw@, data@));
        PixBuf { width, height, data, raw }
    }

    /// The number of columns.
    pub fn width(&self) -> (width: u32)
        ensures
            width == self@.width,
            self@.wf(),
    {
        proof {
            use_type_invariant(&*self);
        }
        self.width
    }

    /// The number of rows.
    pub fn height(&self) -> (height: u32)
        ensures
            height == self@.height,
            self@.wf(),
    {
        proof {
            use_type_invariant(&*self);
        }
        self.height
    }

    /// The pixels, row by row.
    pub fn as_slice(&self) -> (pixels: &[Color])
        ensures
            pixels@ == self@.pixels,
            self@.wf(),
    {
        proof {
            use_type_invariant(&*self);
        }
        self.data.as_slice()
    }

    /// The pixels as bytes: four for each pixel, red, green, blue, alpha.
    pub fn as_raw_slice(&self) -> (bytes: &[u8])
        ensures
            bytes@ == self@.raw_bytes(),
            bytes@.len() == 4 * self@.width * self@.height,
            forall|i: int|
                0 <= i < self@.pixels.len() ==> bytes@.subrange(4 * i, 4 * i + 4)
                    == (#[trigger] self@.pixels[i]).channels(),
            self@.wf(),
    {
        proof {
            use_type_invariant(&*self);
            lemma_encoding_is_raw_bytes(self.raw@, self@);
            lemma_raw_bytes_layout(self@);
        }
        self.raw.as_slice()
    }

    /// Writes `color` at the position `left` columns from the left edge and
    /// `top` rows from the top edge. A position to the right of the last
    /// column or below the last row names no pixel: such a write is dropped,
    /// and nothing changes.
    pub fn set(&mut self, left: u32, top: u32, color: Color)
        ensures
            final(self)@ == old(self)@.set(left as nat, top as nat, color),
            final(self)@.wf(),
    {
        proof {
            use_type_invariant(&*self);
        }
        if left < self.width && top < self.height {
            proof {
                lemma_offset_in_range(self@, left as nat, top as nat);
                assert(0 <= top * self.width) by (nonlinear_arith)
                    requires
                        0 <= top,
                        0 <= self.width,
                ;
                assert(top * self.width + left < self.data.len());
            }
            let at: usize = top as usize * self.width as usize + left as usize;
            store(&mut self.data, &mut self.raw, at, color);
        }
    }

    /// Overwrites every pixel with `color`.
    pub fn fill(&mut self, color: Color)
        ensures
            final(self)@ == old(self)@.fill(color),
            final(self)@.wf(),
    {
        proof {
            use_type_invariant(&*self);
        }
        let n: usize = self.data.len();
        let mut i: usize = 0;
        while i < n
            invariant
                i <= n,
                self.width == old(self).width,
                self.height == old(self).height,
                self.data@.len() == n,
                n == old(self).data@.len(),
                n == self.width * self.height,
                encodes(self.raw@, self.data@),
                forall|j: int| 0 <= j < i ==> self.data@[j] == color,
            decreases n - i,
        {
            store(&mut self.data, &mut self.raw, i, color);
            i = i + 1;
        }
        assert(self.data@ == old(self)@.fill(color).pixels);
    }
}

/// Bytes that hold the channels of each pixel in order are the raw bytes of
/// the grid.
proof fn lemma_encoding_is_raw_bytes(raw: Seq<u8>, grid: Grid)
    requires
        encodes(raw, grid.pixels),
    ensures
        raw == grid.raw_bytes(),
{
    assert forall|k: int| 0 <= k < raw.len() implies raw[k] == grid.raw_bytes()[k] by {
        let i = k / 4;
        let pixel = grid.pixels[i];
        assert(k == 4 * i + k % 4);
        assert(pixel.channels()[0] == pixel.r);
        assert(pixel.channels()[1] == pixel.g);
        assert(pixel.channels()[2] == pixel.b);
        assert(pixel.channels()[3] == pixel.a);
    }
    assert(raw =~= grid.raw_bytes());
}

} // verus!
