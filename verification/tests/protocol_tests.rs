use winter_paintboard_sdk::error::PaintboardError;
use winter_paintboard_sdk::models::protocol::{OpCode, ProtocolMessage};
use winter_paintboard_sdk::models::{Pos, Rgb};

#[test]
fn parse_single_messages() {
    assert!(matches!(ProtocolMessage::parse(&[0xfc]), Ok(ProtocolMessage::HeartbeatPing)));
    match ProtocolMessage::parse(&[0xfa, 0xe7, 0x03, 0x57, 0x02, 1, 2, 3]).unwrap() {
        ProtocolMessage::PaintEvent { pos, color } => {
            assert_eq!(pos, Pos::new(999, 599).unwrap());
            assert_eq!(color, Rgb::new(1, 2, 3));
        }
        other => panic!("unexpected {:?}", other),
    }
    match ProtocolMessage::parse(&[0xff, 4, 3, 2, 1, 0xef]).unwrap() {
        ProtocolMessage::PaintResult { drawing_id, status } => {
            assert_eq!(drawing_id, 0x01020304);
            assert_eq!(status, 0xef);
        }
        other => panic!("unexpected {:?}", other),
    }
    match ProtocolMessage::parse(&[0x12, 7, 8]).unwrap() {
        ProtocolMessage::Unknown { opcode, data } => {
            assert_eq!(opcode, 0x12);
            assert_eq!(data, vec![7, 8]);
        }
        other => panic!("unexpected {:?}", other),
    }
    assert!(matches!(ProtocolMessage::parse(&[]), Err(PaintboardError::InvalidData)));
    assert!(matches!(ProtocolMessage::parse(&[0xfa, 1, 2]), Err(PaintboardError::InvalidData)));
    assert!(matches!(ProtocolMessage::parse(&[0xff, 1, 2, 3, 4]), Err(PaintboardError::InvalidData)));
    assert!(matches!(
        ProtocolMessage::parse(&[0xfa, 0xe8, 0x03, 0, 0, 1, 2, 3]),
        Err(PaintboardError::InvalidCoordinate)
    ));
}

#[test]
fn parse_batch_sticky_packets() {
    let data = [0xfc, 0xfa, 1, 0, 2, 0, 9, 8, 7, 0xff, 1, 0, 0, 0, 0xed, 0x33];
    let msgs = ProtocolMessage::parse_batch(&data).unwrap();
    assert_eq!(msgs.len(), 4);
    assert!(matches!(msgs[0], ProtocolMessage::HeartbeatPing));
    match &msgs[1] {
        ProtocolMessage::PaintEvent { pos, color } => {
            assert_eq!(*pos, Pos::new(1, 2).unwrap());
            assert_eq!(*color, Rgb::new(9, 8, 7));
        }
        other => panic!("unexpected {:?}", other),
    }
    match &msgs[2] {
        ProtocolMessage::PaintResult { drawing_id, status } => {
            assert_eq!(*drawing_id, 1);
            assert_eq!(*status, 0xed);
        }
        other => panic!("unexpected {:?}", other),
    }
    match &msgs[3] {
        ProtocolMessage::Unknown { opcode, data } => {
            assert_eq!(*opcode, 0x33);
            assert!(data.is_empty());
        }
        other => panic!("unexpected {:?}", other),
    }
}

#[test]
fn parse_batch_off_board_event_is_unknown() {
    let data = [0xfa, 0xe8, 0x03, 0, 0, 1, 2, 3, 0xfc];
    let msgs = ProtocolMessage::parse_batch(&data).unwrap();
    assert_eq!(msgs.len(), 2);
    match &msgs[0] {
        ProtocolMessage::Unknown { opcode, data } => {
            assert_eq!(*opcode, 0xfa);
            assert_eq!(data, &vec![0xe8, 0x03, 0, 0, 1, 2, 3]);
        }
        other => panic!("unexpected {:?}", other),
    }
}

#[test]
fn parse_batch_errors() {
    assert!(matches!(ProtocolMessage::parse_batch(&[]), Err(PaintboardError::InvalidData)));
    assert!(matches!(ProtocolMessage::parse_batch(&[0xfc, 0xff, 1, 2]), Err(PaintboardError::InvalidData)));
}

#[test]
fn pong_frames_parse_as_one_byte() {
    let ms = ProtocolMessage::parse_batch(&[0xfb]).unwrap();
    assert_eq!(ms.len(), 1);
    assert!(matches!(ms[0], ProtocolMessage::HeartbeatPong));
    let ms = ProtocolMessage::parse_batch(&[0xfc, 0xfb, 0xff, 1, 0, 0, 0, 0xef]).unwrap();
    assert_eq!(ms.len(), 3);
    assert!(matches!(ms[1], ProtocolMessage::HeartbeatPong));
    assert!(matches!(ms[2], ProtocolMessage::PaintResult { drawing_id: 1, status: 0xef }));
}

#[test]
fn glued_streams_parse_to_glued_messages() {
    let a = [0xfa, 10, 0, 20, 0, 1, 2, 3, 0xfb];
    let b = [0xff, 7, 0, 0, 0, 0xee, 0xfc];
    let ma = ProtocolMessage::parse_batch(&a).unwrap();
    let mb = ProtocolMessage::parse_batch(&b).unwrap();
    let m = ProtocolMessage::parse_batch(&[&a[..], &b[..]].concat()).unwrap();
    assert_eq!(m.len(), ma.len() + mb.len());
    assert_eq!(format!("{:?}", m), format!("{:?}", ma.into_iter().chain(mb).collect::<Vec<_>>()));
}

#[test]
fn to_binary_roundtrip() {
    let ev = ProtocolMessage::PaintEvent { pos: Pos::new(300, 200).unwrap(), color: Rgb::new(4, 5, 6) };
    let bytes = ev.to_binary();
    assert_eq!(bytes, vec![0xfa, 44, 1, 200, 0, 4, 5, 6]);
    match ProtocolMessage::parse(&bytes).unwrap() {
        ProtocolMessage::PaintEvent { pos, color } => {
            assert_eq!(pos, Pos::new(300, 200).unwrap());
            assert_eq!(color, Rgb::new(4, 5, 6));
        }
        other => panic!("unexpected {:?}", other),
    }
    assert_eq!(ProtocolMessage::HeartbeatPong.to_binary(), vec![0xfb]);
    assert!(ProtocolMessage::HeartbeatPing.to_binary().is_empty());
}

#[test]
fn opcodes() {
    assert_eq!(OpCode::Paint.code(), 0xfe);
    assert_eq!(OpCode::HeartbeatPong.code(), 0xfb);
    assert_eq!(OpCode::from(0xfa), OpCode::PaintEvent);
    assert_eq!(OpCode::from(0x00), OpCode::UnknownOpCode);
}
