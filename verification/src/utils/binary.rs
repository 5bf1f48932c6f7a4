use vstd::prelude::*;

use crate::error::PaintboardError;

verus! {

/// A message: its opcode byte followed by the payload.
pub fn pack_message(opcode: u8, data: &[u8]) -> (result: Vec<u8>)
    ensures
        result@ == seq![opcode] + data@,
{
    let mut result: Vec<u8> = Vec::new();
    result.push(opcode);
    let mut i: usize = 0;
    while i < data.len()
        invariant
            i <= data@.len(),
            result@ == seq![opcode] + data@.take(i as int),
        decreases data@.len() - i,
    {
        result.push(data[i]);
        assert(data@.take(i + 1) =~= data@.take(i as int).push(data@[i as int]));
        i = i + 1;
    }
    assert(data@.take(data@.len() as int) =~= data@);
    result
}

/// Splits a message into its opcode and payload; an empty message is refused.
pub fn unpack_message(data: &[u8]) -> (res: Result<(u8, &[u8]), PaintboardError>)
    ensures
        data@.len() == 0 ==> res matches Err(PaintboardError::InvalidData),
        data@.len() > 0 ==> (res matches Ok((op, payload)) && op == data@[0] && payload@ == data@.skip(1)),
{
    if data.len() == 0 {
        return Err(PaintboardError::InvalidData);
    }
    let opcode = data[0];
    let payload = &data[1..data.len()];
    assert(payload@ =~= data@.skip(1));
    Ok((opcode, payload))
}

/// Unpacking a packed message gives back its opcode and payload.
pub proof fn law_unpack_pack(opcode: u8, data: Seq<u8>)
    ensures
        (seq![opcode] + data).len() > 0,
        (seq![opcode] + data)[0] == opcode,
        (seq![opcode] + data).skip(1) == data,
{
    assert((seq![opcode] + data).skip(1) =~= data);
}

} // verus!
