use vstd::prelude::*;

use crate::models::common::{spec_pos_bytes, Pos, Rgb};

verus! {

/// Outcome of a paint request as reported by the server.
#[derive(Debug, Clone)]
pub struct PaintResult {
    pub drawing_id: u32,
    pub status: PaintStatus,
    pub message: String,
}

/// Status of a paint request.
#[derive(Debug, Clone, Copy, PartialEq, Eq)]
pub enum PaintStatus {
    Success,
    Cooldown,
    InvalidToken,
    InvalidCoordinate,
    NoPermission,
    ServerError,
    Timeout,
    Unknown,
}

/// The status that a status byte of the binary protocol denotes.
pub open spec fn spec_status_from_byte(value: u8) -> PaintStatus {
    if value == 0xef {
        PaintStatus::Success
    } else if value == 0xee {
        PaintStatus::Cooldown
    } else if value == 0xed {
        PaintStatus::InvalidToken
    } else if value == 0xec {
        PaintStatus::InvalidCoordinate
    } else if value == 0xeb {
        PaintStatus::NoPermission
    } else if value == 0xea {
        PaintStatus::ServerError
    } else {
        PaintStatus::Unknown
    }
}

impl From<u8> for PaintStatus {
    /// Decodes a status byte; unknown bytes give `Unknown`.
    fn from(value: u8) -> (s: PaintStatus) {
        if value == 0xef {
            PaintStatus::Success
        } else if value == 0xee {
            PaintStatus::Cooldown
        } else if value == 0xed {
            PaintStatus::InvalidToken
        } else if value == 0xec {
            PaintStatus::InvalidCoordinate
        } else if value == 0xeb {
            PaintStatus::NoPermission
        } else if value == 0xea {
            PaintStatus::ServerError
        } else {
            PaintStatus::Unknown
        }
    }
}

impl vstd::std_specs::convert::FromSpecImpl<u8> for PaintStatus {
    open spec fn obeys_from_spec() -> bool {
        true
    }

    open spec fn from_spec(v: u8) -> PaintStatus {
        spec_status_from_byte(v)
    }
}

/// A paint request sent to the server.
#[derive(Debug, Clone)]
pub struct PaintOperation {
    pub pos: Pos,
    pub color: Rgb,
    /// The user id; its three low bytes go on the wire.
    pub token_uid: u32,
    /// The token as a UUID string.
    pub token: String,
    pub paint_id: u32,
}

/// Number of bytes of an encoded paint request.
pub const PAINT_OPERATION_LEN: usize = 31;

/// Little-endian bytes of a `u32`.
pub open spec fn spec_le_u32_bytes(v: u32) -> Seq<u8> {
    seq![(v % 256) as u8, ((v / 256) % 256) as u8, ((v / 65536) % 256) as u8, (v / 16777216) as u8]
}

/// Little-endian value of four bytes.
pub open spec fn spec_le_u32(b0: u8, b1: u8, b2: u8, b3: u8) -> int {
    b0 + 256 * b1 + 65536 * b2 + 16777216 * b3
}

/// The wire form of a paint request whose token decoded to `token_bytes`:
/// opcode 0xfe, x and y (LE u16), r g b, three low bytes of the uid (LE),
/// the 16 token bytes, the paint id (LE u32).
pub open spec fn spec_paint_bytes(pos: Pos, color: Rgb, uid: u32, token_bytes: Seq<u8>, paint_id: u32) -> Seq<u8> {
    seq![0xfeu8] + spec_pos_bytes(pos.x, pos.y) + seq![color.r, color.g, color.b]
        + spec_le_u32_bytes(uid).take(3) + token_bytes + spec_le_u32_bytes(paint_id)
}

/// Little-endian bytes of a `u32`.
pub fn le_u32_bytes(v: u32) -> (b: [u8; 4])
    ensures
        b@ == spec_le_u32_bytes(v),
{
    [(v % 256) as u8, ((v / 256) % 256) as u8, ((v / 65536) % 256) as u8, (v / 16777216) as u8]
}

/// Name for the 16 bytes that `uuid::Uuid::parse_str` gives for a string,
/// `None` where it rejects the string.
pub uninterp spec fn uuid_parse_bytes(s: Seq<char>) -> Option<Seq<u8>>;

/// Calls `uuid::Uuid::parse_str` and hands back the 16 bytes of the UUID
/// (`Uuid::as_bytes`), or `None` where parsing fails. The contract says the
/// result is `uuid_parse_bytes` of the string; what that is for a given string
/// (the simple, hyphenated, braced and URN forms the crate accepts) is not stated.
#[verifier::external_body]
fn parse_uuid(s: &str) -> (r: Option<[u8; 16]>)
    ensures
        match r {
            Some(b) => uuid_parse_bytes(s@) == Some(b@),
            None => uuid_parse_bytes(s@) is None,
        },
{
    match uuid::Uuid::parse_str(s) {
        Ok(u) => Some(*u.as_bytes()),
        Err(_) => None,
    }
}

/// The token bytes that go on the wire: the parsed UUID, or the nil UUID
/// (16 zero bytes) when the token does not parse.
pub open spec fn spec_token_bytes(token: Seq<char>) -> Seq<u8> {
    match uuid_parse_bytes(token) {
        Some(b) => if b.len() == 16 {
            b
        } else {
            Seq::new(16, |i: int| 0u8)
        },
        None => Seq::new(16, |i: int| 0u8),
    }
}

/// The 16 bytes a token stands for on the wire: its UUID bytes, or the nil
/// UUID (16 zero bytes) where the token does not parse.
pub fn token_wire_bytes(token: &str) -> (b: [u8; 16])
    ensures
        b@ == spec_token_bytes(token@),
{
    let b: [u8; 16] = match parse_uuid(token) {
        Some(b) => b,
        None => [0u8; 16],
    };
    proof {
        if uuid_parse_bytes(token@) is None {
            assert(b@ =~= Seq::new(16, |i: int| 0u8));
        }
    }
    b
}

impl PaintOperation {
    /// Encodes the request given the 16 bytes its token stands for.
    pub fn encode_with_token_bytes(&self, token_bytes: &[u8; 16]) -> (data: Vec<u8>)
        ensures
            data@ == spec_paint_bytes(self.pos, self.color, self.token_uid, token_bytes@, self.paint_id),
            data@.len() == PAINT_OPERATION_LEN,
    {
        let mut data: Vec<u8> = Vec::new();
        data.push(0xfeu8);
        let p = self.pos.to_bytes();
        data.push(p[0]);
        data.push(p[1]);
        data.push(p[2]);
        data.push(p[3]);
        data.push(self.color.r);
        data.push(self.color.g);
        data.push(self.color.b);
        let u = le_u32_bytes(self.token_uid);
        data.push(u[0]);
        data.push(u[1]);
        data.push(u[2]);
        let ghost prefix = seq![0xfeu8] + spec_pos_bytes(self.pos.x, self.pos.y)
            + seq![self.color.r, self.color.g, self.color.b] + spec_le_u32_bytes(self.token_uid).take(3);
        assert(data@ =~= prefix);
        let mut i: usize = 0;
        while i < 16
            invariant
                i <= 16,
                data@ == prefix + token_bytes@.take(i as int),
            decreases 16 - i,
        {
            data.push(token_bytes[i]);
            assert(token_bytes@.take(i + 1) =~= token_bytes@.take(i as int).push(token_bytes@[i as int]));
            i = i + 1;
        }
        assert(token_bytes@.take(16) =~= token_bytes@);
        let pid = le_u32_bytes(self.paint_id);
        data.push(pid[0]);
        data.push(pid[1]);
        data.push(pid[2]);
        data.push(pid[3]);
        assert(data@ =~= spec_paint_bytes(self.pos, self.color, self.token_uid, token_bytes@, self.paint_id));
        data
    }

    /// Encodes the request for the wire: opcode, position, colour, uid, token
    /// (its UUID bytes, or the nil UUID where it does not parse) and paint id.
    pub fn to_binary(&self) -> (data: Vec<u8>)
        ensures
            data@ == spec_paint_bytes(self.pos, self.color, self.token_uid, spec_token_bytes(self.token@), self.paint_id),
            data@.len() == PAINT_OPERATION_LEN,
    {
        let token_bytes = token_wire_bytes(self.token.as_str());
        self.encode_with_token_bytes(&token_bytes)
    }
}

} // verus!
