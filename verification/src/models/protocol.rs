use vstd::prelude::*;

use crate::error::PaintboardError;
use crate::models::common::{spec_le_u16, spec_on_board, spec_pos_bytes, Pos, Rgb};
use crate::models::paint::{spec_le_u32, spec_le_u32_bytes};

verus! {

/// Operation codes of the WebSocket protocol.
#[derive(Debug, Clone, Copy, PartialEq, Eq)]
pub enum OpCode {
    /// Server to client, 0xfc.
    HeartbeatPing,
    /// Server to client, 0xfa.
    PaintEvent,
    /// Server to client, 0xff.
    PaintResult,
    /// Client to server, 0xfb.
    HeartbeatPong,
    /// Client to server, 0xfe.
    Paint,
    /// Any other byte, 0xaf.
    UnknownOpCode,
}

/// The byte of an operation code.
pub open spec fn spec_opcode_byte(op: OpCode) -> u8 {
    match op {
        OpCode::HeartbeatPing => 0xfc,
        OpCode::PaintEvent => 0xfa,
        OpCode::PaintResult => 0xff,
        OpCode::HeartbeatPong => 0xfb,
        OpCode::Paint => 0xfe,
        OpCode::UnknownOpCode => 0xaf,
    }
}

/// The operation code a byte denotes.
pub open spec fn spec_opcode_from_byte(value: u8) -> OpCode {
    if value == 0xfc {
        OpCode::HeartbeatPing
    } else if value == 0xfa {
        OpCode::PaintEvent
    } else if value == 0xff {
        OpCode::PaintResult
    } else if value == 0xfb {
        OpCode::HeartbeatPong
    } else if value == 0xfe {
        OpCode::Paint
    } else {
        OpCode::UnknownOpCode
    }
}

impl OpCode {
    /// The byte that stands for this operation code on the wire.
    pub fn code(&self) -> (b: u8)
        ensures
            b == spec_opcode_byte(*self),
    {
        match self {
            OpCode::HeartbeatPing => 0xfc,
            OpCode::PaintEvent => 0xfa,
            OpCode::PaintResult => 0xff,
            OpCode::HeartbeatPong => 0xfb,
            OpCode::Paint => 0xfe,
            OpCode::UnknownOpCode => 0xaf,
        }
    }
}

impl From<u8> for OpCode {
    /// Decodes an operation code; unknown bytes give `UnknownOpCode`.
    fn from(value: u8) -> (op: OpCode) {
        if value == 0xfc {
            OpCode::HeartbeatPing
        } else if value == 0xfa {
            OpCode::PaintEvent
        } else if value == 0xff {
            OpCode::PaintResult
        } else if value == 0xfb {
            OpCode::HeartbeatPong
        } else if value == 0xfe {
            OpCode::Paint
        } else {
            OpCode::UnknownOpCode
        }
    }
}

impl vstd::std_specs::convert::FromSpecImpl<u8> for OpCode {
    open spec fn obeys_from_spec() -> bool {
        true
    }

    open spec fn from_spec(v: u8) -> OpCode {
        spec_opcode_from_byte(v)
    }
}

/// A protocol message.
#[derive(Debug)]
pub enum ProtocolMessage {
    HeartbeatPing,
    PaintEvent { pos: Pos, color: Rgb },
    PaintResult { drawing_id: u32, status: u8 },
    HeartbeatPong,
    Unknown { opcode: u8, data: Vec<u8> },
}

/// The mathematical value of a protocol message.
pub enum SpecMessage {
    HeartbeatPing,
    PaintEvent { pos: Pos, color: Rgb },
    PaintResult { drawing_id: u32, status: u8 },
    HeartbeatPong,
    Unknown { opcode: u8, data: Seq<u8> },
}

impl View for ProtocolMessage {
    type V = SpecMessage;

    open spec fn view(&self) -> SpecMessage {
        match self {
            ProtocolMessage::HeartbeatPing => SpecMessage::HeartbeatPing,
            ProtocolMessage::PaintEvent { pos, color } => SpecMessage::PaintEvent { pos: *pos, color: *color },
            ProtocolMessage::PaintResult { drawing_id, status } => SpecMessage::PaintResult {
                drawing_id: *drawing_id,
                status: *status,
            },
            ProtocolMessage::HeartbeatPong => SpecMessage::HeartbeatPong,
            ProtocolMessage::Unknown { opcode, data } => SpecMessage::Unknown { opcode: *opcode, data: data@ },
        }
    }
}

/// The values of a sequence of messages.
pub open spec fn spec_views(v: Seq<ProtocolMessage>) -> Seq<SpecMessage> {
    v.map_values(|m: ProtocolMessage| m@)
}

/// What `parse` yields for one (non-sticky) binary message.
pub open spec fn spec_parse(d: Seq<u8>) -> Result<SpecMessage, PaintboardError> {
    if d.len() == 0 {
        Err(PaintboardError::InvalidData)
    } else {
        let op = d[0];
        let p = d.skip(1);
        if op == 0xfc {
            Ok(SpecMessage::HeartbeatPing)
        } else if op == 0xfa {
            if p.len() < 7 {
                Err(PaintboardError::InvalidData)
            } else {
                let x = spec_le_u16(p[0], p[1]);
                let y = spec_le_u16(p[2], p[3]);
                if spec_on_board(x, y) {
                    Ok(SpecMessage::PaintEvent {
                        pos: Pos { x: x as u16, y: y as u16 },
                        color: Rgb { r: p[4], g: p[5], b: p[6] },
                    })
                } else {
                    Err(PaintboardError::InvalidCoordinate)
                }
            }
        } else if op == 0xff {
            if p.len() < 5 {
                Err(PaintboardError::InvalidData)
            } else {
                Ok(SpecMessage::PaintResult {
                    drawing_id: spec_le_u32(p[0], p[1], p[2], p[3]) as u32,
                    status: p[4],
                })
            }
        } else {
            Ok(SpecMessage::Unknown { opcode: op, data: p })
        }
    }
}

/// Whether an operation code has a known fixed layout in a sticky stream.
pub open spec fn spec_known_opcode(op: u8) -> bool {
    op == 0xfc || op == 0xfa || op == 0xff || op == 0xfb
}

/// Payload length of a known operation code.
pub open spec fn spec_payload_len(op: u8) -> nat {
    if op == 0xfa {
        7
    } else if op == 0xff {
        5
    } else {
        0
    }
}

/// Bytes one frame starting with `op` takes in a sticky stream; an unknown
/// code is taken as a frame of one byte.
pub open spec fn spec_frame_len(op: u8) -> nat {
    if spec_known_opcode(op) {
        1 + spec_payload_len(op)
    } else {
        1
    }
}

/// The message a complete frame of a sticky stream stands for. A paint event
/// whose position is off the board is kept as `Unknown` with its payload.
pub open spec fn spec_decode_frame(f: Seq<u8>) -> SpecMessage {
    let op = f[0];
    let p = f.skip(1);
    if !spec_known_opcode(op) {
        SpecMessage::Unknown { opcode: op, data: Seq::empty() }
    } else if op == 0xfc {
        SpecMessage::HeartbeatPing
    } else if op == 0xfa {
        let x = spec_le_u16(p[0], p[1]);
        let y = spec_le_u16(p[2], p[3]);
        if spec_on_board(x, y) {
            SpecMessage::PaintEvent {
                pos: Pos { x: x as u16, y: y as u16 },
                color: Rgb { r: p[4], g: p[5], b: p[6] },
            }
        } else {
            SpecMessage::Unknown { opcode: op, data: p }
        }
    } else if op == 0xff {
        SpecMessage::PaintResult { drawing_id: spec_le_u32(p[0], p[1], p[2], p[3]) as u32, status: p[4] }
    } else {
        SpecMessage::HeartbeatPong
    }
}

/// The messages of a sticky stream, or `None` where a frame is cut short.
pub open spec fn spec_parse_stream(d: Seq<u8>) -> Option<Seq<SpecMessage>>
    decreases d.len(),
{
    if d.len() == 0 {
        Some(Seq::empty())
    } else {
        let n = spec_frame_len(d[0]);
        if d.len() < n {
            None
        } else {
            match spec_parse_stream(d.skip(n as int)) {
                Some(rest) => Some(seq![spec_decode_frame(d.take(n as int))] + rest),
                None => None,
            }
        }
    }
}

/// What `parse_batch` yields: all messages, an error where a frame is cut
/// short or where there is no message at all.
pub open spec fn spec_parse_batch(d: Seq<u8>) -> Result<Seq<SpecMessage>, PaintboardError> {
    match spec_parse_stream(d) {
        Some(ms) => if ms.len() > 0 {
            Ok(ms)
        } else {
            Err(PaintboardError::InvalidData)
        },
        None => Err(PaintboardError::InvalidData),
    }
}

/// The bytes `to_binary` gives: the pong code, a paint event frame, or nothing
/// for server-only messages.
pub open spec fn spec_client_bytes(m: SpecMessage) -> Seq<u8> {
    match m {
        SpecMessage::HeartbeatPong => seq![0xfbu8],
        SpecMessage::PaintEvent { pos, color } => seq![0xfau8] + spec_pos_bytes(pos.x, pos.y) + seq![
            color.r,
            color.g,
            color.b,
        ],
        _ => Seq::empty(),
    }
}

/// Reads the four little-endian bytes at `i` as a `u32`.
fn read_le_u32(d: &[u8], i: usize) -> (v: u32)
    requires
        i + 4 <= d@.len(),
    ensures
        v == spec_le_u32(d@[i as int], d@[i + 1], d@[i + 2], d@[i + 3]),
{
    (d[i] as u32) + 256 * (d[i + 1] as u32) + 65536 * (d[i + 2] as u32) + 16777216 * (d[i + 3] as u32)
}

/// Copies `d[start..end]` into a new vector.
fn copy_range(d: &[u8], start: usize, end: usize) -> (v: Vec<u8>)
    requires
        start <= end <= d@.len(),
    ensures
        v@ == d@.subrange(start as int, end as int),
{
    let mut v: Vec<u8> = Vec::new();
    let mut i = start;
    while i < end
        invariant
            start <= i <= end,
            end <= d@.len(),
            v@ == d@.subrange(start as int, i as int),
        decreases end - i,
    {
        v.push(d[i]);
        i = i + 1;
        assert(v@ =~= d@.subrange(start as int, i as int));
    }
    v
}

impl ProtocolMessage {
    /// Parses one binary message from the server (no sticky packets).
    pub fn parse(data: &[u8]) -> (res: Result<Self, PaintboardError>)
        ensures
            match res {
                Ok(m) => spec_parse(data@) == Ok::<SpecMessage, PaintboardError>(m@),
                Err(e) => spec_parse(data@) == Err::<SpecMessage, PaintboardError>(e),
            },
    {
        if data.len() == 0 {
            return Err(PaintboardError::InvalidData);
        }
        let opcode = data[0];
        if opcode == 0xfc {
            Ok(ProtocolMessage::HeartbeatPing)
        } else if opcode == 0xfa {
            if data.len() - 1 < 7 {
                return Err(PaintboardError::InvalidData);
            }
            let x: u16 = data[1] as u16 + 256 * (data[2] as u16);
            let y: u16 = data[3] as u16 + 256 * (data[4] as u16);
            let pos = match Pos::new(x, y) {
                Ok(p) => p,
                Err(e) => return Err(e),
            };
            let color = Rgb { r: data[5], g: data[6], b: data[7] };
            Ok(ProtocolMessage::PaintEvent { pos, color })
        } else if opcode == 0xff {
            if data.len() - 1 < 5 {
                return Err(PaintboardError::InvalidData);
            }
            let drawing_id = read_le_u32(data, 1);
            let status = data[5];
            Ok(ProtocolMessage::PaintResult { drawing_id, status })
        } else {
            let payload = copy_range(data, 1, data.len());
            assert(payload@ =~= data@.skip(1));
            Ok(ProtocolMessage::Unknown { opcode, data: payload })
        }
    }

    /// Parses the frame at `offset` of a sticky stream and says how many bytes it took.
    fn parse_single_message_at_offset(data: &[u8], offset: usize) -> (res: Result<(Self, usize), PaintboardError>)
        ensures
            offset >= data@.len() ==> res == Err::<(ProtocolMessage, usize), PaintboardError>(PaintboardError::InvalidData),
            offset < data@.len() ==> {
                let r = data@.skip(offset as int);
                let n = spec_frame_len(r[0]);
                &&& r.len() < n ==> res == Err::<(ProtocolMessage, usize), PaintboardError>(PaintboardError::InvalidData)
                &&& r.len() >= n ==> (res matches Ok((m, k)) && k == n && m@ == spec_decode_frame(r.take(n as int)))
            },
    {
        if offset >= data.len() {
            return Err(PaintboardError::InvalidData);
        }
        let ghost r = data@.skip(offset as int);
        let opcode = data[offset];
        let remaining = data.len() - offset;
        if !(opcode == 0xfc || opcode == 0xfa || opcode == 0xff || opcode == 0xfb) {
            return Ok((ProtocolMessage::Unknown { opcode, data: Vec::new() }, 1));
        }
        let expected: usize = if opcode == 0xfa {
            7
        } else if opcode == 0xff {
            5
        } else {
            0
        };
        if remaining < 1 + expected {
            return Err(PaintboardError::InvalidData);
        }
        let total = 1 + expected;
        let ghost f = r.take(total as int);
        let ghost p = f.skip(1);
        if opcode == 0xfc {
            Ok((ProtocolMessage::HeartbeatPing, total))
        } else if opcode == 0xfb {
            Ok((ProtocolMessage::HeartbeatPong, total))
        } else if opcode == 0xfa {
            let s = offset + 1;
            assert(p[0] == data@[s as int] && p[1] == data@[s + 1] && p[2] == data@[s + 2] && p[3] == data@[s + 3]);
            assert(p[4] == data@[s + 4] && p[5] == data@[s + 5] && p[6] == data@[s + 6]);
            let x: u16 = data[s] as u16 + 256 * (data[s + 1] as u16);
            let y: u16 = data[s + 2] as u16 + 256 * (data[s + 3] as u16);
            match Pos::new(x, y) {
                Ok(pos) => {
                    let color = Rgb { r: data[s + 4], g: data[s + 5], b: data[s + 6] };
                    Ok((ProtocolMessage::PaintEvent { pos, color }, total))
                },
                Err(_) => {
                    let payload = copy_range(data, s, s + 7);
                    assert(payload@ =~= p);
                    Ok((ProtocolMessage::Unknown { opcode, data: payload }, total))
                },
            }
        } else {
            let s = offset + 1;
            assert(p[0] == data@[s as int] && p[1] == data@[s + 1] && p[2] == data@[s + 2] && p[3] == data@[s + 3]);
            assert(p[4] == data@[s + 4]);
            let drawing_id = read_le_u32(data, s);
            let status = data[s + 4];
            Ok((ProtocolMessage::PaintResult { drawing_id, status }, total))
        }
    }

    /// Parses a sticky packet: several frames concatenated in one binary message.
    pub fn parse_batch(data: &[u8]) -> (res: Result<Vec<Self>, PaintboardError>)
        ensures
            match res {
                Ok(v) => spec_parse_batch(data@) == Ok::<Seq<SpecMessage>, PaintboardError>(spec_views(v@)),
                Err(e) => spec_parse_batch(data@) == Err::<Seq<SpecMessage>, PaintboardError>(e),
            },
    {
        let mut messages: Vec<ProtocolMessage> = Vec::new();
        let mut offset: usize = 0;
        assert(data@.skip(0) =~= data@);
        while offset < data.len()
            invariant
                offset <= data@.len(),
                spec_parse_stream(data@) == prepend_opt(spec_views(messages@), spec_parse_stream(data@.skip(offset as int))),
            decreases data@.len() - offset,
        {
            let ghost r = data@.skip(offset as int);
            let ghost before = spec_views(messages@);
            match ProtocolMessage::parse_single_message_at_offset(data, offset) {
                Ok((m, consumed)) => {
                    proof {
                        assert(r.skip(consumed as int) =~= data@.skip(offset + consumed));
                        lemma_views_push(messages@, m);
                    }
                    messages.push(m);
                    offset = offset + consumed;
                    proof {
                        let d = spec_decode_frame(r.take(consumed as int));
                        let tail = spec_parse_stream(data@.skip(offset as int));
                        match tail {
                            Some(t) => {
                                assert(before + (seq![d] + t) =~= before.push(d) + t);
                            },
                            None => {},
                        }
                    }
                },
                Err(e) => {
                    return Err(e);
                },
            }
        }
        assert(data@.skip(offset as int) =~= Seq::<u8>::empty());
        assert(spec_views(messages@) + Seq::<SpecMessage>::empty() =~= spec_views(messages@));
        if messages.len() == 0 {
            return Err(PaintboardError::InvalidData);
        }
        Ok(messages)
    }

    /// Encodes a client-to-server message; server-only messages encode to nothing.
    pub fn to_binary(&self) -> (data: Vec<u8>)
        ensures
            data@ == spec_client_bytes(self@),
    {
        match self {
            ProtocolMessage::HeartbeatPong => {
                let mut v: Vec<u8> = Vec::new();
                v.push(0xfbu8);
                assert(v@ =~= seq![0xfbu8]);
                v
            },
            ProtocolMessage::PaintEvent { pos, color } => {
                let mut v: Vec<u8> = Vec::new();
                v.push(0xfau8);
                let p = pos.to_bytes();
                v.push(p[0]);
                v.push(p[1]);
                v.push(p[2]);
                v.push(p[3]);
                v.push(color.r);
                v.push(color.g);
                v.push(color.b);
                assert(v@ =~= spec_client_bytes(self@));
                v
            },
            _ => Vec::new(),
        }
    }
}

/// Puts `prefix` in front of a parse result, keeping a failure a failure.
pub open spec fn prepend_opt(prefix: Seq<SpecMessage>, rest: Option<Seq<SpecMessage>>) -> Option<Seq<SpecMessage>> {
    match rest {
        Some(r) => Some(prefix + r),
        None => None,
    }
}

proof fn lemma_views_push(v: Seq<ProtocolMessage>, m: ProtocolMessage)
    ensures
        spec_views(v.push(m)) == spec_views(v).push(m@),
{
    assert(spec_views(v.push(m)) =~= spec_views(v).push(m@));
}


/// Whether a message is one the server sends: a heartbeat ping, a paint event
/// on the board, or a paint result.
pub open spec fn spec_is_server_message(m: SpecMessage) -> bool {
    match m {
        SpecMessage::HeartbeatPing => true,
        SpecMessage::PaintEvent { pos, color } => spec_on_board(pos.x as int, pos.y as int),
        SpecMessage::PaintResult { .. } => true,
        _ => false,
    }
}

/// The frame the server sends for a message.
pub open spec fn spec_server_frame(m: SpecMessage) -> Seq<u8> {
    match m {
        SpecMessage::HeartbeatPing => seq![0xfcu8],
        SpecMessage::PaintEvent { pos, color } => seq![0xfau8] + spec_pos_bytes(pos.x, pos.y) + seq![
            color.r,
            color.g,
            color.b,
        ],
        SpecMessage::PaintResult { drawing_id, status } => seq![0xffu8] + spec_le_u32_bytes(drawing_id) + seq![
            status,
        ],
        _ => Seq::empty(),
    }
}

/// The frames of several messages sent back to back.
pub open spec fn spec_server_stream(ms: Seq<SpecMessage>) -> Seq<u8>
    decreases ms.len(),
{
    if ms.len() == 0 {
        Seq::empty()
    } else {
        spec_server_frame(ms[0]) + spec_server_stream(ms.skip(1))
    }
}

proof fn lemma_u16_bytes(x: u16)
    ensures
        spec_le_u16((x % 256) as u8, (x / 256) as u8) == x,
{
    assert(((x % 256) as u8) as int + 256 * (((x / 256) as u8) as int) == x as int) by (bit_vector);
}

proof fn lemma_u32_bytes(v: u32)
    ensures
        spec_le_u32(
            (v % 256) as u8,
            ((v / 256) % 256) as u8,
            ((v / 65536) % 256) as u8,
            (v / 16777216) as u8,
        ) == v,
{
    assert(((v % 256) as u8) as int + 256 * ((((v / 256) % 256) as u8) as int) + 65536 * ((((v / 65536)
        % 256) as u8) as int) + 16777216 * (((v / 16777216) as u8) as int) == v as int) by (bit_vector);
}

/// A server frame decodes back to the message it was made from, and takes as
/// many bytes as its opcode says.
proof fn lemma_frame_roundtrip(m: SpecMessage, rest: Seq<u8>)
    requires
        spec_is_server_message(m),
    ensures
        ({
            let d = spec_server_frame(m) + rest;
            let n = spec_frame_len(d[0]);
            &&& n == spec_server_frame(m).len()
            &&& d.take(n as int) =~= spec_server_frame(m)
            &&& d.skip(n as int) =~= rest
            &&& spec_decode_frame(d.take(n as int)) == m
        }),
{
    let f = spec_server_frame(m);
    let d = f + rest;
    assert(d.take(f.len() as int) =~= f);
    assert(d.skip(f.len() as int) =~= rest);
    match m {
        SpecMessage::PaintEvent { pos, color } => {
            lemma_u16_bytes(pos.x);
            lemma_u16_bytes(pos.y);
        },
        SpecMessage::PaintResult { drawing_id, status } => {
            lemma_u32_bytes(drawing_id);
        },
        _ => {},
    }
}

/// Sticky packets: the frames of any non-empty sequence of server messages,
/// sent back to back in one binary message, parse back to exactly those
/// messages, in order.
pub proof fn law_sticky_stream_roundtrip(ms: Seq<SpecMessage>)
    requires
        forall|i: int| 0 <= i < ms.len() ==> spec_is_server_message(#[trigger] ms[i]),
    ensures
        spec_parse_stream(spec_server_stream(ms)) == Some(ms),
        ms.len() > 0 ==> spec_parse_batch(spec_server_stream(ms)) == Ok::<Seq<SpecMessage>, PaintboardError>(ms),
    decreases ms.len(),
{
    if ms.len() > 0 {
        let rest = ms.skip(1);
        assert forall|i: int| 0 <= i < rest.len() implies spec_is_server_message(#[trigger] rest[i]) by {
            assert(rest[i] == ms[i + 1]);
        }
        law_sticky_stream_roundtrip(rest);
        assert(spec_is_server_message(ms[0]));
        lemma_frame_roundtrip(ms[0], spec_server_stream(rest));
        assert(seq![ms[0]] + rest =~= ms);
    } else {
        assert(spec_server_stream(ms) =~= Seq::<u8>::empty());
        assert(ms =~= Seq::<SpecMessage>::empty());
    }
}

/// A paint event on the board, encoded with `to_binary`, parses back to itself.
pub proof fn law_paint_event_roundtrip(pos: Pos, color: Rgb)
    requires
        spec_on_board(pos.x as int, pos.y as int),
    ensures
        spec_parse(spec_client_bytes(SpecMessage::PaintEvent { pos, color }))
            == Ok::<SpecMessage, PaintboardError>(SpecMessage::PaintEvent { pos, color }),
{
    lemma_u16_bytes(pos.x);
    lemma_u16_bytes(pos.y);
    let d = spec_client_bytes(SpecMessage::PaintEvent { pos, color });
    let p = d.skip(1);
    assert(p[0] == (pos.x % 256) as u8 && p[1] == (pos.x / 256) as u8);
    assert(p[2] == (pos.y % 256) as u8 && p[3] == (pos.y / 256) as u8);
}

/// Parsing two sticky streams glued together gives the messages of the first
/// followed by those of the second: appending bytes never changes how the
/// first stream splits into frames.
pub proof fn law_parse_batch_concat(a: Seq<u8>, b: Seq<u8>)
    ensures
        spec_parse_stream(a) is Some && spec_parse_stream(b) is Some ==> spec_parse_stream(a + b) == Some(
            spec_parse_stream(a)->0 + spec_parse_stream(b)->0,
        ),
        spec_parse_batch(a) is Ok && spec_parse_batch(b) is Ok ==> spec_parse_batch(a + b) == Ok::<Seq<SpecMessage>, PaintboardError>(
            spec_parse_batch(a)->Ok_0 + spec_parse_batch(b)->Ok_0,
        ),
    decreases a.len(),
{
    if spec_parse_stream(a) is Some && spec_parse_stream(b) is Some {
        if a.len() == 0 {
            assert(a + b =~= b);
            assert(spec_parse_stream(a)->0 + spec_parse_stream(b)->0 =~= spec_parse_stream(b)->0);
        } else {
            let n = spec_frame_len(a[0]);
            let ab = a + b;
            assert(ab[0] == a[0]);
            assert(ab.skip(n as int) =~= a.skip(n as int) + b);
            assert(ab.take(n as int) =~= a.take(n as int));
            law_parse_batch_concat(a.skip(n as int), b);
            let ra = spec_parse_stream(a.skip(n as int))->0;
            let rb = spec_parse_stream(b)->0;
            let f = spec_decode_frame(a.take(n as int));
            assert(seq![f] + (ra + rb) =~= (seq![f] + ra) + rb);
        }
    }
}

} // verus!
