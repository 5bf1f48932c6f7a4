use winter_paintboard_sdk::error::PaintboardError;
use winter_paintboard_sdk::models::paint::PaintOperation;
use winter_paintboard_sdk::models::{Pos, Rgb};
use winter_paintboard_sdk::sending::{combine_operations, plan_batch, plan_batch_with_ids, PendingPackets, MAX_PACKET_SIZE};

fn ops(n: usize) -> Vec<(Pos, Rgb)> {
    (0..n).map(|i| (Pos::new((i % 1000) as u16, 0).unwrap(), Rgb::new(1, 2, 3))).collect()
}

#[test]
fn batch_is_split_into_packets() {
    let o = ops(2000);
    let ids: Vec<u32> = (0..2000u32).collect();
    let chunks = plan_batch_with_ids(&o, 7, &[0u8; 16], &ids);
    assert_eq!(chunks.len(), 2);
    assert_eq!(chunks[0].1.len(), 1057);
    assert_eq!(chunks[1].1.len(), 943);
    assert_eq!(chunks[0].0.len(), 1057 * 31);
    assert!(chunks[0].0.len() <= MAX_PACKET_SIZE);
    assert_eq!(chunks[1].1[0], 1057);
    assert_eq!(&chunks[1].0[0..1], &[0xfe]);
    assert_eq!(&chunks[1].0[27..31], &1057u32.to_le_bytes());
}

#[test]
fn empty_batch_has_no_packets() {
    let chunks = plan_batch_with_ids(&[], 7, &[0u8; 16], &[]);
    assert!(chunks.is_empty());
}

#[test]
fn random_ids_batch_shape() {
    let o = ops(3);
    let chunks = plan_batch(&o, 5, "01234567-89ab-cdef-0123-456789abcdef");
    assert_eq!(chunks.len(), 1);
    assert_eq!(chunks[0].0.len(), 93);
    assert_eq!(chunks[0].0[11], 0x01);
    assert_eq!(chunks[0].0[31 + 12], 0x23);
}

#[test]
fn multi_token_combination() {
    let mk = |id: u32, tok: &str| PaintOperation {
        pos: Pos::new(1, 1).unwrap(),
        color: Rgb::new(0, 0, 0),
        token_uid: 1,
        token: tok.to_string(),
        paint_id: id,
    };
    let list = vec![mk(1, "ffffffffffffffffffffffffffffffff"), mk(2, "bad")];
    let (data, ids) = combine_operations(&list).unwrap();
    assert_eq!(ids, vec![1, 2]);
    assert_eq!(data.len(), 62);
    assert_eq!(data[11], 0xff);
    assert_eq!(data[31 + 11], 0x00);
    let many: Vec<PaintOperation> = (0..1058).map(|i| mk(i, "bad")).collect();
    assert!(matches!(combine_operations(&many), Err(PaintboardError::InvalidData)));
    let fits: Vec<PaintOperation> = (0..1057).map(|i| mk(i, "bad")).collect();
    assert!(combine_operations(&fits).is_ok());
}

#[test]
fn pending_packets_flush_and_restore() {
    let mut q = PendingPackets::new();
    q.push_back(vec![1, 2]);
    q.push_back(vec![3]);
    assert!(q.take_if_due(19).is_none());
    assert!(q.take_if_full().is_none());
    let (packets, data) = q.take_if_due(20).unwrap();
    assert_eq!(data, vec![1, 2, 3]);
    assert_eq!(q.len(), 0);
    q.push_back(vec![9]);
    q.restore(packets);
    let (_, again) = q.take_if_due(100).unwrap();
    assert_eq!(again, vec![1, 2, 3, 9]);
    for i in 0..32u8 {
        q.push_back(vec![i]);
    }
    let (ps, d) = q.take_if_full().unwrap();
    assert_eq!(ps.len(), 32);
    assert_eq!(d.len(), 32);
}

#[test]
fn plan_packets_concatenate_to_the_whole_batch() {
    let o = ops(2500);
    let ids: Vec<u32> = (0..2500u32).map(|i| i * 3 + 1).collect();
    let token = [7u8; 16];
    let chunks = plan_batch_with_ids(&o, 42, &token, &ids);
    let joined: Vec<u8> = chunks.iter().flat_map(|c| c.0.clone()).collect();
    let mut expected: Vec<u8> = Vec::new();
    for (i, (pos, color)) in o.iter().enumerate() {
        let op = PaintOperation { pos: *pos, color: *color, token_uid: 42, token: String::new(), paint_id: ids[i] };
        expected.extend(op.encode_with_token_bytes(&token));
    }
    assert_eq!(joined, expected);
    let all_ids: Vec<u32> = chunks.iter().flat_map(|c| c.1.clone()).collect();
    assert_eq!(all_ids, ids);
}

#[test]
fn flushing_in_two_rounds_sends_the_same_bytes() {
    let mut q = PendingPackets::new();
    q.push_back(vec![1, 2]);
    q.push_back(vec![3]);
    let (first, first_data) = q.drain_all();
    q.push_back(vec![4, 5]);
    let (_, second_data) = q.drain_all();
    let mut two_rounds = first_data.clone();
    two_rounds.extend(second_data);
    let mut one = PendingPackets::new();
    for p in first {
        one.push_back(p);
    }
    one.push_back(vec![4, 5]);
    let (_, one_round) = one.drain_all();
    assert_eq!(two_rounds, one_round);
    assert_eq!(one_round, vec![1, 2, 3, 4, 5]);
}
