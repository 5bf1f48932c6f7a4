use vstd::prelude::*;

use crate::error::PaintboardError;

verus! {

/// Number of bytes of a full 1000x600 RGB board.
pub const BOARD_BYTES: usize = 1_800_000;

/// A single RGB pixel.
#[derive(Debug, Clone, Copy, PartialEq, Eq)]
pub struct Pixel {
    pub r: u8,
    pub g: u8,
    pub b: u8,
}

impl Pixel {
    /// Creates a pixel from its three components.
    pub fn new(r: u8, g: u8, b: u8) -> (p: Self)
        ensures
            p == (Pixel { r, g, b }),
    {
        Pixel { r, g, b }
    }
}

/// The board: `width * height` pixels stored row by row as `[r, g, b, r, g, b, ...]`.
#[derive(Debug)]
pub struct Board {
    pub width: u16,
    pub height: u16,
    pub data: Vec<u8>,
}

/// Byte offset of the pixel `(x, y)` in a board of the given width.
pub open spec fn spec_pixel_index(width: int, x: int, y: int) -> int {
    (y * width + x) * 3
}

/// What `get_pixel` reports for `(x, y)` on a board with these dimensions and bytes.
pub open spec fn spec_get_pixel(width: u16, height: u16, data: Seq<u8>, x: u16, y: u16) -> Result<Pixel, PaintboardError> {
    if x >= width || y >= height {
        Err(PaintboardError::InvalidCoordinate)
    } else {
        let i = spec_pixel_index(width as int, x as int, y as int);
        if i + 2 >= data.len() {
            Err(PaintboardError::IndexOutOfRange)
        } else {
            Ok(Pixel { r: data[i], g: data[i + 1], b: data[i + 2] })
        }
    }
}

/// Whether `(x, y)` addresses a pixel that `set_pixel` can write.
pub open spec fn spec_writable(width: u16, height: u16, len: nat, x: u16, y: u16) -> bool {
    x < width && y < height && spec_pixel_index(width as int, x as int, y as int) + 2 < len
}

/// The bytes after `set_pixel(x, y, p)` succeeds.
pub open spec fn spec_set_pixel_data(width: u16, data: Seq<u8>, x: u16, y: u16, p: Pixel) -> Seq<u8> {
    let i = spec_pixel_index(width as int, x as int, y as int);
    data.update(i, p.r).update(i + 1, p.g).update(i + 2, p.b)
}

proof fn lemma_index_bounds(width: u16, x: u16, y: u16)
    requires
        x < width,
    ensures
        0 <= spec_pixel_index(width as int, x as int, y as int),
        spec_pixel_index(width as int, x as int, y as int) + 2 < 0x1_0000_0000_0000,
{
    assert(y * width <= 65535 * 65535) by (nonlinear_arith)
        requires y <= 65535, width <= 65535;
    assert(0 <= y * width) by (nonlinear_arith)
        requires 0 <= y, 0 <= width;
}

impl Board {
    /// A 1000x600 board with every pixel black.
    pub fn new() -> (b: Self)
        ensures
            b.width == 1000,
            b.height == 600,
            b.data@ == Seq::new(BOARD_BYTES as nat, |i: int| 0u8),
    {
        let mut data: Vec<u8> = Vec::new();
        let mut i: usize = 0;
        while i < BOARD_BYTES
            invariant
                i <= BOARD_BYTES,
                data@ == Seq::new(i as nat, |k: int| 0u8),
            decreases BOARD_BYTES - i,
        {
            data.push(0u8);
            i = i + 1;
        }
        Board { width: 1000, height: 600, data }
    }

    /// A 1000x600 board holding the given bytes, which must be exactly 1,800,000 of them.
    pub fn from_bytes(bytes: Vec<u8>) -> (b: Self)
        requires
            bytes@.len() == BOARD_BYTES,
        ensures
            b.width == 1000,
            b.height == 600,
            b.data@ == bytes@,
    {
        Board { width: 1000, height: 600, data: bytes }
    }

    /// Byte offset of `(x, y)`, computed without overflow.
    fn index_of(&self, x: u16, y: u16) -> (i: u64)
        requires
            x < self.width,
        ensures
            i == spec_pixel_index(self.width as int, x as int, y as int),
            i + 2 < 0x1_0000_0000_0000,
    {
        proof { lemma_index_bounds(self.width, x, y); }
        ((y as u64) * (self.width as u64) + (x as u64)) * 3
    }

    /// The colour of the pixel at `(x, y)`.
    pub fn get_pixel(&self, x: u16, y: u16) -> (res: Result<Pixel, PaintboardError>)
        ensures
            res == spec_get_pixel(self.width, self.height, self.data@, x, y),
    {
        if x >= self.width || y >= self.height {
            return Err(PaintboardError::InvalidCoordinate);
        }
        let index = self.index_of(x, y);
        if index + 2 >= self.data.len() as u64 {
            return Err(PaintboardError::IndexOutOfRange);
        }
        let i = index as usize;
        Ok(Pixel { r: self.data[i], g: self.data[i + 1], b: self.data[i + 2] })
    }

    /// Sets the colour of the pixel at `(x, y)`; the board is unchanged on error.
    pub fn set_pixel(&mut self, x: u16, y: u16, pixel: Pixel) -> (res: Result<(), PaintboardError>)
        ensures
            final(self).width == old(self).width,
            final(self).height == old(self).height,
            spec_writable(old(self).width, old(self).height, old(self).data@.len(), x, y) ==> {
                &&& res is Ok
                &&& final(self).data@ == spec_set_pixel_data(old(self).width, old(self).data@, x, y, pixel)
            },
            !spec_writable(old(self).width, old(self).height, old(self).data@.len(), x, y) ==> {
                &&& final(self).data@ == old(self).data@
                &&& (x >= old(self).width || y >= old(self).height) ==> res == Err::<(), PaintboardError>(PaintboardError::InvalidCoordinate)
                &&& (x < old(self).width && y < old(self).height) ==> res == Err::<(), PaintboardError>(PaintboardError::IndexOutOfRange)
            },
    {
        if x >= self.width || y >= self.height {
            return Err(PaintboardError::InvalidCoordinate);
        }
        let index = self.index_of(x, y);
        if index + 2 >= self.data.len() as u64 {
            return Err(PaintboardError::IndexOutOfRange);
        }
        let i = index as usize;
        self.data.set(i, pixel.r);
        self.data.set(i + 1, pixel.g);
        self.data.set(i + 2, pixel.b);
        Ok(())
    }

    /// The raw RGB bytes of the board.
    pub fn as_bytes(&self) -> (bytes: &[u8])
        ensures
            bytes@ == self.data@,
    {
        self.data.as_slice()
    }

    /// The board as rows of pixels; a pixel that cannot be read is black.
    pub fn to_2d_pixels(&self) -> (rows: Vec<Vec<Pixel>>)
        ensures
            rows@.len() == self.height,
            forall|y: int| 0 <= y < self.height ==> #[trigger] rows@[y]@.len() == self.width,
            forall|y: int, x: int| 0 <= y < self.height && 0 <= x < self.width ==>
                #[trigger] rows@[y]@[x] == spec_pixel_or_black(self.width, self.height, self.data@, x as u16, y as u16),
    {
        let mut result: Vec<Vec<Pixel>> = Vec::new();
        let mut y: u16 = 0;
        while y < self.height
            invariant
                y <= self.height,
                result@.len() == y,
                forall|yy: int| 0 <= yy < y ==> #[trigger] result@[yy]@.len() == self.width,
                forall|yy: int, x: int| 0 <= yy < y && 0 <= x < self.width ==>
                    #[trigger] result@[yy]@[x] == spec_pixel_or_black(self.width, self.height, self.data@, x as u16, yy as u16),
            decreases self.height - y,
        {
            let mut row: Vec<Pixel> = Vec::new();
            let mut x: u16 = 0;
            while x < self.width
                invariant
                    x <= self.width,
                    y < self.height,
                    row@.len() == x,
                    forall|xx: int| 0 <= xx < x ==>
                        #[trigger] row@[xx] == spec_pixel_or_black(self.width, self.height, self.data@, xx as u16, y),
                decreases self.width - x,
            {
                match self.get_pixel(x, y) {
                    Ok(p) => row.push(p),
                    Err(_) => row.push(Pixel::new(0, 0, 0)),
                }
                x = x + 1;
            }
            result.push(row);
            y = y + 1;
        }
        result
    }
}

/// The pixel at `(x, y)`, or black where it cannot be read.
pub open spec fn spec_pixel_or_black(width: u16, height: u16, data: Seq<u8>, x: u16, y: u16) -> Pixel {
    match spec_get_pixel(width, height, data, x, y) {
        Ok(p) => p,
        Err(_) => Pixel { r: 0, g: 0, b: 0 },
    }
}

impl Default for Board {
    /// An empty 1000x600 black board.
    fn default() -> (b: Self)
        ensures
            b.width == 1000,
            b.height == 600,
            b.data@ == Seq::new(BOARD_BYTES as nat, |i: int| 0u8),
    {
        Board::new()
    }
}

/// Reading a pixel right after writing it gives back the written colour.
pub proof fn law_get_after_set(width: u16, height: u16, data: Seq<u8>, x: u16, y: u16, p: Pixel)
    requires
        spec_writable(width, height, data.len(), x, y),
    ensures
        spec_get_pixel(width, height, spec_set_pixel_data(width, data, x, y, p), x, y) == Ok::<Pixel, PaintboardError>(p),
{
    lemma_index_bounds(width, x, y);
}

/// Writing one pixel leaves every other pixel of the board as it was.
pub proof fn law_set_leaves_other_pixels(width: u16, height: u16, data: Seq<u8>, x: u16, y: u16, p: Pixel, x2: u16, y2: u16)
    requires
        spec_writable(width, height, data.len(), x, y),
        x2 != x || y2 != y,
    ensures
        spec_get_pixel(width, height, spec_set_pixel_data(width, data, x, y, p), x2, y2)
            == spec_get_pixel(width, height, data, x2, y2),
{
    lemma_index_bounds(width, x, y);
    if x2 < width && y2 < height {
        lemma_index_bounds(width, x2, y2);
        lemma_distinct_pixels_apart(width as int, x as int, y as int, x2 as int, y2 as int);
    }
}

proof fn lemma_distinct_pixels_apart(w: int, x: int, y: int, x2: int, y2: int)
    requires
        0 <= x < w,
        0 <= x2 < w,
        0 <= y,
        0 <= y2,
        x != x2 || y != y2,
    ensures
        y * w + x != y2 * w + x2,
{
    if y == y2 {
    } else if y < y2 {
        assert(y * w + w <= y2 * w) by (nonlinear_arith)
            requires y < y2, 0 <= w;
    } else {
        assert(y2 * w + w <= y * w) by (nonlinear_arith)
            requires y2 < y, 0 <= w;
    }
}

} // verus!
