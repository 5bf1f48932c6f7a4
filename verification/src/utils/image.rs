use vstd::prelude::*;

use crate::error::PaintboardError;

verus! {

/// Board bytes for an image: for now `width * height` black RGB pixels.
pub fn image_to_board(image_data: &[u8], width: u32, height: u32) -> (res: Result<Vec<u8>, PaintboardError>)
    requires
        width * height * 3 <= u32::MAX,
    ensures
        res matches Ok(v) && v@ == Seq::new((width * height * 3) as nat, |i: int| 0u8),
{
    proof {
        assert(0 <= width * height) by (nonlinear_arith) requires 0 <= width, 0 <= height;
    }
    let n: u32 = width * height * 3;
    let len = n as usize;
    let mut v: Vec<u8> = Vec::new();
    let mut i: usize = 0;
    while i < len
        invariant
            i <= len,
            len == width * height * 3,
            v@ == Seq::new(i as nat, |k: int| 0u8),
        decreases len - i,
    {
        v.push(0u8);
        i = i + 1;
        assert(v@ =~= Seq::new(i as nat, |k: int| 0u8));
    }
    Ok(v)
}

/// Image bytes for a board: for now a copy of the board bytes.
pub fn board_to_image(board_data: &[u8], width: u32, height: u32) -> (res: Result<Vec<u8>, PaintboardError>)
    ensures
        res matches Ok(v) && v@ == board_data@,
{
    let mut v: Vec<u8> = Vec::new();
    let mut i: usize = 0;
    while i < board_data.len()
        invariant
            i <= board_data@.len(),
            v@ == board_data@.take(i as int),
        decreases board_data@.len() - i,
    {
        v.push(board_data[i]);
        assert(board_data@.take(i + 1) =~= board_data@.take(i as int).push(board_data@[i as int]));
        i = i + 1;
    }
    assert(board_data@.take(board_data@.len() as int) =~= board_data@);
    Ok(v)
}

} // verus!
