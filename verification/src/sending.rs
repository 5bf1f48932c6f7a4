//! What the WebSocket provider sends: batches split into packets, multi-token
//! batches, and the queue of delayed packets.

use vstd::prelude::*;

use std::collections::VecDeque;

use crate::error::PaintboardError;
use crate::models::common::{Pos, Rgb};
use crate::models::paint::{
    spec_paint_bytes, spec_token_bytes, token_wire_bytes, PaintOperation, PAINT_OPERATION_LEN,
};

verus! {

/// Largest binary message the client sends (32 KiB).
pub const MAX_PACKET_SIZE: usize = 32768;
/// Number of queued packets that makes the queue flush at once.
pub const PENDING_PACKETS_SIZE_LIMIT: usize = 32;
/// Time (ms) after the last send at which a non-empty queue is flushed.
pub const PENDING_PACKETS_DURATION_MILLS: u64 = 20;
/// Paint requests that fit in one packet: `MAX_PACKET_SIZE / PAINT_OPERATION_LEN`.
pub const OPS_PER_PACKET: usize = 1057;

/// The concatenation of a sequence of byte strings.
pub open spec fn spec_flatten(s: Seq<Seq<u8>>) -> Seq<u8>
    decreases s.len(),
{
    if s.len() == 0 {
        Seq::empty()
    } else {
        spec_flatten(s.drop_last()) + s.last()
    }
}

/// The byte strings held by a sequence of vectors.
pub open spec fn spec_byte_views(v: Seq<Vec<u8>>) -> Seq<Seq<u8>> {
    v.map_values(|b: Vec<u8>| b@)
}

/// The encodings of requests `lo..hi` of a batch, back to back.
pub open spec fn spec_range_bytes(ops: Seq<(Pos, Rgb)>, uid: u32, token: Seq<u8>, ids: Seq<u32>, lo: int, hi: int) -> Seq<u8>
    decreases hi - lo,
{
    if hi <= lo {
        Seq::empty()
    } else {
        spec_range_bytes(ops, uid, token, ids, lo, hi - 1) + spec_paint_bytes(ops[hi - 1].0, ops[hi - 1].1, uid, token, ids[hi - 1])
    }
}

/// Whether `chunks` is the packet plan of a batch: packet `j` holds requests
/// `j * OPS_PER_PACKET` up to the next multiple (or the end), with their ids.
pub open spec fn spec_is_batch_plan(
    chunks: Seq<(Seq<u8>, Seq<u32>)>,
    ops: Seq<(Pos, Rgb)>,
    uid: u32,
    token: Seq<u8>,
    ids: Seq<u32>,
) -> bool {
    let n = ops.len() as int;
    let c = OPS_PER_PACKET as int;
    &&& chunks.len() == (n + c - 1) / c
    &&& forall|j: int| 0 <= j < chunks.len() ==> {
        let lo = j * c;
        let hi = if lo + c < n { lo + c } else { n };
        &&& #[trigger] chunks[j].0 == spec_range_bytes(ops, uid, token, ids, lo, hi)
        &&& chunks[j].1 == ids.subrange(lo, hi)
    }
}

/// The deep value of a packet plan.
pub open spec fn spec_plan_views(v: Seq<(Vec<u8>, Vec<u32>)>) -> Seq<(Seq<u8>, Seq<u32>)> {
    v.map_values(|p: (Vec<u8>, Vec<u32>)| (p.0@, p.1@))
}

proof fn lemma_range_bytes_len(ops: Seq<(Pos, Rgb)>, uid: u32, token: Seq<u8>, ids: Seq<u32>, lo: int, hi: int)
    requires
        token.len() == 16,
        lo <= hi,
    ensures
        spec_range_bytes(ops, uid, token, ids, lo, hi).len() == 31 * (hi - lo),
    decreases hi - lo,
{
    if lo < hi {
        lemma_range_bytes_len(ops, uid, token, ids, lo, hi - 1);
    }
}

/// Calls `rand::random::<u32>()`; any value may come back.
#[verifier::external_body]
fn random_u32() -> u32 {
    rand::random::<u32>()
}

/// Splits a batch into packets of at most `OPS_PER_PACKET` requests (so at
/// most `MAX_PACKET_SIZE` bytes each), encoding request `i` with `paint_ids[i]`.
pub fn plan_batch_with_ids(operations: &[(Pos, Rgb)], uid: u32, token_bytes: &[u8; 16], paint_ids: &[u32]) -> (chunks: Vec<(Vec<u8>, Vec<u32>)>)
    requires
        paint_ids@.len() == operations@.len(),
    ensures
        spec_is_batch_plan(spec_plan_views(chunks@), operations@, uid, token_bytes@, paint_ids@),
        forall|j: int| 0 <= j < chunks@.len() ==> (#[trigger] chunks@[j]).0@.len() <= MAX_PACKET_SIZE,
{
    let n = operations.len();
    let mut chunks: Vec<(Vec<u8>, Vec<u32>)> = Vec::new();
    let mut start: usize = 0;
    let ghost c = OPS_PER_PACKET as int;
    while start < n
        invariant
            n == operations@.len(),
            paint_ids@.len() == n,
            start <= n,
            start == chunks@.len() * c || start == n,
            start < n ==> start == chunks@.len() * c,
            start == n ==> chunks@.len() == (n + c - 1) / c,
            c == OPS_PER_PACKET,
            forall|j: int| 0 <= j < chunks@.len() ==> {
                let lo = j * c;
                let hi = if lo + c < n { lo + c } else { n as int };
                &&& #[trigger] chunks@[j].0@ == spec_range_bytes(operations@, uid, token_bytes@, paint_ids@, lo, hi)
                &&& chunks@[j].1@ == paint_ids@.subrange(lo, hi)
                &&& chunks@[j].0@.len() <= MAX_PACKET_SIZE
            },
        decreases n - start,
    {
        let hi: usize = if n - start > OPS_PER_PACKET { start + OPS_PER_PACKET } else { n };
        let mut bytes: Vec<u8> = Vec::new();
        let mut ids: Vec<u32> = Vec::new();
        let mut i = start;
        while i < hi
            invariant
                start <= i <= hi <= n,
                n == operations@.len(),
                paint_ids@.len() == n,
                bytes@ == spec_range_bytes(operations@, uid, token_bytes@, paint_ids@, start as int, i as int),
                ids@ == paint_ids@.subrange(start as int, i as int),
            decreases hi - i,
        {
            let (pos, color) = operations[i];
            let op = PaintOperation { pos, color, token_uid: uid, token: String::new(), paint_id: paint_ids[i] };
            let enc = op.encode_with_token_bytes(token_bytes);
            let mut k: usize = 0;
            let ghost before = bytes@;
            while k < enc.len()
                invariant
                    k <= enc@.len(),
                    bytes@ == before + enc@.take(k as int),
                decreases enc@.len() - k,
            {
                bytes.push(enc[k]);
                assert(enc@.take(k + 1) =~= enc@.take(k as int).push(enc@[k as int]));
                k = k + 1;
            }
            assert(enc@.take(enc@.len() as int) =~= enc@);
            ids.push(paint_ids[i]);
            assert(ids@ =~= paint_ids@.subrange(start as int, i + 1));
            i = i + 1;
        }
        proof {
            lemma_range_bytes_len(operations@, uid, token_bytes@, paint_ids@, start as int, hi as int);
            let j = chunks@.len() as int;
            assert(start == j * c);
            assert(hi as int == if j * c + c < n { j * c + c } else { n as int });
            if hi < n {
                assert((j + 1) * c == j * c + c) by (nonlinear_arith);
            } else {
                assert((n + c - 1) / c == j + 1) by (nonlinear_arith)
                    requires j * c < n, n <= j * c + c, c == 1057;
            }
        }
        chunks.push((bytes, ids));
        start = hi;
    }
    proof {
        if n == 0 {
            assert(chunks@.len() == 0);
        }
        assert forall|j: int| 0 <= j < chunks@.len() implies {
            let lo = j * c;
            let hi = if lo + c < n { lo + c } else { n as int };
            &&& #[trigger] spec_plan_views(chunks@)[j].0 == spec_range_bytes(operations@, uid, token_bytes@, paint_ids@, lo, hi)
            &&& spec_plan_views(chunks@)[j].1 == paint_ids@.subrange(lo, hi)
        } by {}
    }
    chunks
}

/// Splits a batch into packets, giving every request a fresh random paint id
/// and the bytes of `token` (the nil UUID where it does not parse).
pub fn plan_batch(operations: &[(Pos, Rgb)], uid: u32, token: &str) -> (chunks: Vec<(Vec<u8>, Vec<u32>)>)
    ensures
        exists|ids: Seq<u32>|
            ids.len() == operations@.len() && spec_is_batch_plan(
                spec_plan_views(chunks@),
                operations@,
                uid,
                spec_token_bytes(token@),
                ids,
            ),
        forall|j: int| 0 <= j < chunks@.len() ==> (#[trigger] chunks@[j]).0@.len() <= MAX_PACKET_SIZE,
{
    let mut ids: Vec<u32> = Vec::new();
    let mut i: usize = 0;
    while i < operations.len()
        invariant
            i <= operations@.len(),
            ids@.len() == i,
        decreases operations@.len() - i,
    {
        ids.push(random_u32());
        i = i + 1;
    }
    let token_bytes = token_wire_bytes(token);
    let chunks = plan_batch_with_ids(operations, uid, &token_bytes, ids.as_slice());
    assert(ids@.len() == operations@.len());
    chunks
}


/// The encodings of a list of paint requests, back to back.
pub open spec fn spec_ops_bytes(ops: Seq<PaintOperation>) -> Seq<u8>
    decreases ops.len(),
{
    if ops.len() == 0 {
        Seq::empty()
    } else {
        spec_ops_bytes(ops.drop_last()) + spec_paint_bytes(
            ops.last().pos,
            ops.last().color,
            ops.last().token_uid,
            spec_token_bytes(ops.last().token@),
            ops.last().paint_id,
        )
    }
}

proof fn lemma_ops_bytes_len(ops: Seq<PaintOperation>)
    ensures
        spec_ops_bytes(ops).len() == 31 * ops.len(),
    decreases ops.len(),
{
    if ops.len() > 0 {
        lemma_ops_bytes_len(ops.drop_last());
    }
}

/// Appends `src` to `dst`.
fn append_bytes(dst: &mut Vec<u8>, src: &Vec<u8>)
    ensures
        final(dst)@ == old(dst)@ + src@,
{
    let mut k: usize = 0;
    let ghost before = dst@;
    while k < src.len()
        invariant
            k <= src@.len(),
            dst@ == before + src@.take(k as int),
        decreases src@.len() - k,
    {
        dst.push(src[k]);
        assert(src@.take(k + 1) =~= src@.take(k as int).push(src@[k as int]));
        k = k + 1;
    }
    assert(src@.take(src@.len() as int) =~= src@);
}

/// One binary message for requests that may carry different tokens, with their
/// paint ids; refused when it would exceed `MAX_PACKET_SIZE`.
pub fn combine_operations(operations: &[PaintOperation]) -> (res: Result<(Vec<u8>, Vec<u32>), PaintboardError>)
    ensures
        31 * operations@.len() > MAX_PACKET_SIZE ==> res == Err::<(Vec<u8>, Vec<u32>), PaintboardError>(PaintboardError::InvalidData),
        31 * operations@.len() <= MAX_PACKET_SIZE ==> (res matches Ok((data, ids))
            && data@ == spec_ops_bytes(operations@)
            && ids@ == operations@.map_values(|op: PaintOperation| op.paint_id)),
{
    let mut data: Vec<u8> = Vec::new();
    let mut ids: Vec<u32> = Vec::new();
    let mut i: usize = 0;
    while i < operations.len()
        invariant
            i <= operations@.len(),
            data@ == spec_ops_bytes(operations@.take(i as int)),
            ids@ == operations@.take(i as int).map_values(|op: PaintOperation| op.paint_id),
        decreases operations@.len() - i,
    {
        let op = &operations[i];
        ids.push(op.paint_id);
        let enc = op.to_binary();
        append_bytes(&mut data, &enc);
        assert(operations@.take(i + 1).drop_last() =~= operations@.take(i as int));
        assert(ids@ =~= operations@.take(i + 1).map_values(|op: PaintOperation| op.paint_id));
        i = i + 1;
    }
    assert(operations@.take(operations@.len() as int) =~= operations@);
    proof { lemma_ops_bytes_len(operations@); }
    if data.len() > MAX_PACKET_SIZE {
        return Err(PaintboardError::InvalidData);
    }
    Ok((data, ids))
}

/// Paint packets waiting to be sent together.
pub struct PendingPackets {
    packets: VecDeque<Vec<u8>>,
}

impl View for PendingPackets {
    type V = Seq<Seq<u8>>;

    closed spec fn view(&self) -> Seq<Seq<u8>> {
        spec_byte_views(self.packets@)
    }
}

/// Whether the queue is flushed on the timer: it holds something and at least
/// `PENDING_PACKETS_DURATION_MILLS` have passed since the last send.
pub open spec fn spec_flush_by_duration(queue: Seq<Seq<u8>>, elapsed_ms: u64) -> bool {
    queue.len() > 0 && elapsed_ms >= PENDING_PACKETS_DURATION_MILLS
}

/// Whether the queue is flushed for its size.
pub open spec fn spec_flush_by_limit(queue: Seq<Seq<u8>>) -> bool {
    queue.len() >= PENDING_PACKETS_SIZE_LIMIT
}

impl PendingPackets {
    /// An empty queue.
    pub fn new() -> (q: Self)
        ensures
            q@ == Seq::<Seq<u8>>::empty(),
    {
        PendingPackets { packets: VecDeque::new() }
    }

    /// Number of queued packets.
    pub fn len(&self) -> (n: usize)
        ensures
            n == self@.len(),
    {
        self.packets.len()
    }

    /// Queues a packet at the back.
    pub fn push_back(&mut self, packet: Vec<u8>)
        ensures
            final(self)@ == old(self)@.push(packet@),
    {
        self.packets.push_back(packet);
        assert(spec_byte_views(self.packets@) =~= old(self)@.push(packet@));
    }

    /// Takes every queued packet out, in order, with their concatenation.
    pub fn drain_all(&mut self) -> (res: (Vec<Vec<u8>>, Vec<u8>))
        ensures
            final(self)@ == Seq::<Seq<u8>>::empty(),
            spec_byte_views(res.0@) == old(self)@,
            res.1@ == spec_flatten(old(self)@),
    {
        let mut taken: Vec<Vec<u8>> = Vec::new();
        let mut data: Vec<u8> = Vec::new();
        let ghost all = self@;
        while self.packets.len() > 0
            invariant
                all == spec_byte_views(taken@) + spec_byte_views(self.packets@),
                data@ == spec_flatten(spec_byte_views(taken@)),
            decreases self.packets@.len(),
        {
            let ghost rest = self.packets@;
            match self.packets.pop_front() {
                Some(p) => {
                    append_bytes(&mut data, &p);
                    let ghost prev = taken@;
                    taken.push(p);
                    proof {
                        assert(spec_byte_views(taken@) =~= spec_byte_views(prev).push(p@));
                        assert(spec_byte_views(taken@).drop_last() =~= spec_byte_views(prev));
                        assert(rest =~= seq![p].add(self.packets@));
                        assert(spec_byte_views(rest) =~= seq![p@] + spec_byte_views(self.packets@));
                    }
                },
                None => {},
            }
        }
        assert(spec_byte_views(self.packets@) =~= Seq::<Seq<u8>>::empty());
        assert(all =~= spec_byte_views(taken@));
        (taken, data)
    }

    /// Puts packets back at the front, in order (after a failed send).
    pub fn restore(&mut self, packets: Vec<Vec<u8>>)
        ensures
            final(self)@ == spec_byte_views(packets@) + old(self)@,
    {
        let mut i = packets.len();
        let mut packets = packets;
        let ghost orig = spec_byte_views(packets@);
        let ghost tail = self@;
        while i > 0
            invariant
                i == packets@.len(),
                i <= orig.len(),
                spec_byte_views(packets@) == orig.take(i as int),
                self@ == orig.skip(i as int) + tail,
            decreases i,
        {
            let ghost before = packets@;
            let ghost q_before = self.packets@;
            match packets.pop() {
                Some(p) => {
                    self.packets.push_front(p);
                    i = i - 1;
                    proof {
                        assert(before[i as int] == p);
                        assert(spec_byte_views(before)[i as int] == p@);
                        assert(orig.take(i + 1)[i as int] == orig[i as int]);
                        assert(spec_byte_views(packets@) =~= orig.take(i as int));
                        assert(self.packets@ =~= seq![p] + q_before);
                        assert(spec_byte_views(self.packets@) =~= seq![p@] + spec_byte_views(q_before));
                        assert(orig.skip(i as int) =~= seq![orig[i as int]] + orig.skip(i + 1));
                        assert(self@ =~= orig.skip(i as int) + tail);
                    }
                },
                None => {},
            }
        }
        assert(orig.skip(0) =~= orig);
    }

    /// Takes the queue out for sending when the timer says so.
    pub fn take_if_due(&mut self, elapsed_ms: u64) -> (res: Option<(Vec<Vec<u8>>, Vec<u8>)>)
        ensures
            spec_flush_by_duration(old(self)@, elapsed_ms) ==> (res matches Some((ps, data))
                && spec_byte_views(ps@) == old(self)@ && data@ == spec_flatten(old(self)@)
                && final(self)@ == Seq::<Seq<u8>>::empty()),
            !spec_flush_by_duration(old(self)@, elapsed_ms) ==> res is None && final(self)@ == old(self)@,
    {
        if self.packets.len() > 0 && elapsed_ms >= PENDING_PACKETS_DURATION_MILLS {
            Some(self.drain_all())
        } else {
            None
        }
    }

    /// Takes the queue out for sending when it has grown to the size limit.
    pub fn take_if_full(&mut self) -> (res: Option<(Vec<Vec<u8>>, Vec<u8>)>)
        ensures
            spec_flush_by_limit(old(self)@) ==> (res matches Some((ps, data))
                && spec_byte_views(ps@) == old(self)@ && data@ == spec_flatten(old(self)@)
                && final(self)@ == Seq::<Seq<u8>>::empty()),
            !spec_flush_by_limit(old(self)@) ==> res is None && final(self)@ == old(self)@,
    {
        if self.packets.len() >= PENDING_PACKETS_SIZE_LIMIT {
            Some(self.drain_all())
        } else {
            None
        }
    }
}

/// Sending queued packets in two flushes puts the same bytes on the wire as
/// one flush of all of them: the queue's byte stream splits at any point.
/// (So packets put back by `restore` after a failed send, followed by those
/// queued meanwhile, go out as the old stream and then the new one.)
pub proof fn law_flush_in_parts(first: Seq<Seq<u8>>, second: Seq<Seq<u8>>)
    ensures
        spec_flatten(first + second) == spec_flatten(first) + spec_flatten(second),
    decreases second.len(),
{
    if second.len() == 0 {
        assert(first + second =~= first);
        assert(spec_flatten(first) + spec_flatten(second) =~= spec_flatten(first));
    } else {
        law_flush_in_parts(first, second.drop_last());
        assert((first + second).drop_last() =~= first + second.drop_last());
        assert((first + second).last() == second.last());
        assert(spec_flatten(first + second) =~= spec_flatten(first) + spec_flatten(second));
    }
}

proof fn lemma_range_bytes_split(ops: Seq<(Pos, Rgb)>, uid: u32, token: Seq<u8>, ids: Seq<u32>, lo: int, mid: int, hi: int)
    requires
        lo <= mid <= hi,
    ensures
        spec_range_bytes(ops, uid, token, ids, lo, mid) + spec_range_bytes(ops, uid, token, ids, mid, hi)
            == spec_range_bytes(ops, uid, token, ids, lo, hi),
    decreases hi - mid,
{
    if hi == mid {
        assert(spec_range_bytes(ops, uid, token, ids, lo, mid) + spec_range_bytes(ops, uid, token, ids, mid, hi)
            =~= spec_range_bytes(ops, uid, token, ids, lo, hi));
    } else {
        lemma_range_bytes_split(ops, uid, token, ids, lo, mid, hi - 1);
        assert(spec_range_bytes(ops, uid, token, ids, lo, mid) + spec_range_bytes(ops, uid, token, ids, mid, hi)
            =~= spec_range_bytes(ops, uid, token, ids, lo, hi));
    }
}

/// The bytes of the first `k` packets of a plan.
pub open spec fn spec_plan_prefix_bytes(chunks: Seq<(Seq<u8>, Seq<u32>)>, k: int) -> Seq<u8> {
    spec_flatten(chunks.take(k).map_values(|c: (Seq<u8>, Seq<u32>)| c.0))
}

proof fn lemma_plan_prefix(chunks: Seq<(Seq<u8>, Seq<u32>)>, ops: Seq<(Pos, Rgb)>, uid: u32, token: Seq<u8>, ids: Seq<u32>, k: int)
    requires
        spec_is_batch_plan(chunks, ops, uid, token, ids),
        0 <= k <= chunks.len(),
    ensures
        k * 1057 <= ops.len() + 1056,
        spec_plan_prefix_bytes(chunks, k) == spec_range_bytes(
            ops, uid, token, ids, 0, if k * 1057 < ops.len() { k * 1057 } else { ops.len() as int }),
    decreases k,
{
    let n = ops.len() as int;
    let len = chunks.len() as int;
    assert(len == (n + 1056) / 1057);
    assert(k * 1057 <= n + 1056) by (nonlinear_arith)
        requires
            0 <= k <= len,
            len == (n + 1056) / 1057,
            n >= 0;
    if k == 0 {
        assert(chunks.take(0).map_values(|c: (Seq<u8>, Seq<u32>)| c.0) =~= Seq::<Seq<u8>>::empty());
    } else {
        lemma_plan_prefix(chunks, ops, uid, token, ids, k - 1);
        let j = k - 1;
        assert(j * 1057 < n) by (nonlinear_arith)
            requires
                0 <= j < len,
                len == (n + 1056) / 1057,
                n >= 0;
        let m = chunks.take(k).map_values(|c: (Seq<u8>, Seq<u32>)| c.0);
        assert(m.drop_last() =~= chunks.take(k - 1).map_values(|c: (Seq<u8>, Seq<u32>)| c.0));
        assert(m.last() == chunks[j].0);
        let lo = j * 1057;
        let hi = if lo + 1057 < n { lo + 1057 } else { n };
        assert(chunks[j].0 == spec_range_bytes(ops, uid, token, ids, lo, hi));
        assert(k * 1057 == lo + 1057);
        lemma_range_bytes_split(ops, uid, token, ids, 0, lo, hi);
    }
}

/// Splitting a batch into packets loses, repeats and reorders nothing: the
/// packets of a plan, sent one after another, carry exactly the encodings of
/// all the batch's requests in order.
pub proof fn law_plan_covers_batch(chunks: Seq<(Seq<u8>, Seq<u32>)>, ops: Seq<(Pos, Rgb)>, uid: u32, token: Seq<u8>, ids: Seq<u32>)
    requires
        spec_is_batch_plan(chunks, ops, uid, token, ids),
    ensures
        spec_flatten(chunks.map_values(|c: (Seq<u8>, Seq<u32>)| c.0))
            == spec_range_bytes(ops, uid, token, ids, 0, ops.len() as int),
{
    let n = ops.len() as int;
    let len = chunks.len() as int;
    lemma_plan_prefix(chunks, ops, uid, token, ids, len);
    assert(len * 1057 >= n) by (nonlinear_arith)
        requires
            len == (n + 1056) / 1057,
            n >= 0;
    assert(chunks.take(len) =~= chunks);
}

/// The timer flushes every non-empty queue once 20 ms have passed since the
/// last send, and never an empty one or earlier; the size check flushes a
/// queue exactly when it holds 32 packets or more.
pub proof fn law_flush_conditions(queue: Seq<Seq<u8>>, elapsed_ms: u64)
    ensures
        spec_flush_by_duration(queue, elapsed_ms) <==> (queue.len() >= 1 && elapsed_ms >= 20),
        spec_flush_by_limit(queue) <==> queue.len() >= 32,
{
}

} // verus!
