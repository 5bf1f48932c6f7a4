use vstd::prelude::*;

use crate::error::PaintboardError;

verus! {

/// Width of the paintboard in pixels.
pub const BOARD_WIDTH: u16 = 1000;
/// Height of the paintboard in pixels.
pub const BOARD_HEIGHT: u16 = 600;

/// An RGB colour.
#[derive(Debug, Clone, Copy, PartialEq, Eq)]
pub struct Rgb {
    pub r: u8,
    pub g: u8,
    pub b: u8,
}

impl Rgb {
    /// Creates a colour from its three components.
    pub fn new(r: u8, g: u8, b: u8) -> (c: Self)
        ensures
            c == (Rgb { r, g, b }),
    {
        Rgb { r, g, b }
    }

    /// The colour as bytes in RGB order.
    pub fn to_bytes(&self) -> (bytes: [u8; 3])
        ensures
            bytes@ == seq![self.r, self.g, self.b],
    {
        [self.r, self.g, self.b]
    }

    /// Reads a colour from the first three bytes of `bytes`.
    pub fn from_bytes(bytes: &[u8]) -> (res: Result<Self, PaintboardError>)
        ensures
            bytes@.len() < 3 <==> res matches Err(PaintboardError::InvalidData),
            bytes@.len() >= 3 ==> res == Ok::<Rgb, PaintboardError>(Rgb { r: bytes@[0], g: bytes@[1], b: bytes@[2] }),
    {
        if bytes.len() < 3 {
            return Err(PaintboardError::InvalidData);
        }
        Ok(Rgb { r: bytes[0], g: bytes[1], b: bytes[2] })
    }
}

/// A position on the board: `x` in `[0, 999]`, `y` in `[0, 599]`.
#[derive(Debug, Clone, Copy, PartialEq, Eq)]
pub struct Pos {
    pub x: u16,
    pub y: u16,
}

/// Whether `(x, y)` lies on the board.
pub open spec fn spec_on_board(x: int, y: int) -> bool {
    0 <= x < BOARD_WIDTH && 0 <= y < BOARD_HEIGHT
}

/// Little-endian value of two bytes.
pub open spec fn spec_le_u16(lo: u8, hi: u8) -> int {
    lo + 256 * hi
}

/// Little-endian encoding of a position: x then y, two bytes each.
pub open spec fn spec_pos_bytes(x: u16, y: u16) -> Seq<u8> {
    seq![(x % 256) as u8, (x / 256) as u8, (y % 256) as u8, (y / 256) as u8]
}

impl Pos {
    /// Creates a position, refusing coordinates outside the board.
    pub fn new(x: u16, y: u16) -> (res: Result<Self, PaintboardError>)
        ensures
            spec_on_board(x as int, y as int) ==> res == Ok::<Pos, PaintboardError>(Pos { x, y }),
            !spec_on_board(x as int, y as int) ==> res matches Err(PaintboardError::InvalidCoordinate),
    {
        if x >= BOARD_WIDTH || y >= BOARD_HEIGHT {
            return Err(PaintboardError::InvalidCoordinate);
        }
        Ok(Pos { x, y })
    }

    /// Little-endian bytes `[x_lo, x_hi, y_lo, y_hi]`.
    pub fn to_bytes(&self) -> (bytes: [u8; 4])
        ensures
            bytes@ == spec_pos_bytes(self.x, self.y),
    {
        [(self.x % 256) as u8, (self.x / 256) as u8, (self.y % 256) as u8, (self.y / 256) as u8]
    }

    /// Reads a little-endian position from the first four bytes, validating it.
    pub fn from_bytes(bytes: &[u8]) -> (res: Result<Self, PaintboardError>)
        ensures
            bytes@.len() < 4 ==> res matches Err(PaintboardError::InvalidData),
            bytes@.len() >= 4 ==> {
                let x = spec_le_u16(bytes@[0], bytes@[1]);
                let y = spec_le_u16(bytes@[2], bytes@[3]);
                &&& spec_on_board(x, y) ==> res == Ok::<Pos, PaintboardError>(Pos { x: x as u16, y: y as u16 })
                &&& !spec_on_board(x, y) ==> res matches Err(PaintboardError::InvalidCoordinate)
            },
    {
        if bytes.len() < 4 {
            return Err(PaintboardError::InvalidData);
        }
        let x: u16 = bytes[0] as u16 + 256 * (bytes[1] as u16);
        let y: u16 = bytes[2] as u16 + 256 * (bytes[3] as u16);
        Self::new(x, y)
    }
}

/// Reading back the bytes of a colour gives the colour.
pub proof fn law_rgb_bytes_roundtrip(c: Rgb)
    ensures
        seq![c.r, c.g, c.b].len() >= 3,
        (Rgb { r: seq![c.r, c.g, c.b][0], g: seq![c.r, c.g, c.b][1], b: seq![c.r, c.g, c.b][2] }) == c,
{
}

/// Reading back the little-endian bytes of a position gives its coordinates
/// (and so, for a position on the board, `from_bytes` gives the position).
pub proof fn law_pos_bytes_roundtrip(p: Pos)
    ensures
        ({
            let b = spec_pos_bytes(p.x, p.y);
            &&& b.len() == 4
            &&& spec_le_u16(b[0], b[1]) == p.x
            &&& spec_le_u16(b[2], b[3]) == p.y
        }),
{
}

} // verus!
