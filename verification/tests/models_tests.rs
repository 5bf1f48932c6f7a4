use winter_paintboard_sdk::error::PaintboardError;
use winter_paintboard_sdk::models::board::{Board, Pixel};
use winter_paintboard_sdk::models::paint::{token_wire_bytes, PaintOperation, PaintStatus};
use winter_paintboard_sdk::models::{Pos, Rgb};
use winter_paintboard_sdk::utils::binary::{pack_message, unpack_message};
use winter_paintboard_sdk::utils::image::{board_to_image, image_to_board};

#[test]
fn test_new_board() {
    let board = Board::new();
    assert_eq!(board.width, 1000);
    assert_eq!(board.height, 600);
    assert_eq!(board.data.len(), 1_800_000);
}

#[test]
fn test_set_get_pixel() {
    let mut board = Board::new();
    let pixel = Pixel::new(255, 128, 64);

    assert!(board.set_pixel(100, 50, pixel).is_ok());
    let retrieved = board.get_pixel(100, 50).unwrap();
    assert_eq!(retrieved, pixel);
}

#[test]
fn test_invalid_coordinates() {
    let board = Board::new();

    assert!(board.get_pixel(1000, 0).is_err());
    assert!(board.get_pixel(1001, 0).is_err());

    assert!(board.get_pixel(0, 600).is_err());
    assert!(board.get_pixel(0, 601).is_err());
}

#[test]
fn test_pos_creation() {
    assert!(Pos::new(0, 0).is_ok());
    assert!(Pos::new(999, 599).is_ok());
    assert!(Pos::new(500, 300).is_ok());

    assert!(Pos::new(1000, 0).is_err());
    assert!(Pos::new(0, 600).is_err());
    assert!(Pos::new(1001, 601).is_err());
}

#[test]
fn test_rgb_creation() {
    let rgb = Rgb::new(255, 128, 64);
    assert_eq!(rgb.r, 255);
    assert_eq!(rgb.g, 128);
    assert_eq!(rgb.b, 64);
}

#[test]
fn board_get_after_set_leaves_neighbours() {
    let mut board = Board::new();
    board.set_pixel(999, 599, Pixel::new(1, 2, 3)).unwrap();
    assert_eq!(board.get_pixel(999, 599).unwrap(), Pixel::new(1, 2, 3));
    assert_eq!(board.get_pixel(998, 599).unwrap(), Pixel::new(0, 0, 0));
    let idx = (599 * 1000 + 999) * 3;
    assert_eq!(&board.as_bytes()[idx..idx + 3], &[1, 2, 3]);
    assert!(matches!(board.set_pixel(1000, 0, Pixel::new(9, 9, 9)), Err(PaintboardError::InvalidCoordinate)));
}

#[test]
fn board_short_data_gives_index_error() {
    let board = Board { width: 10, height: 10, data: vec![0; 10] };
    assert!(matches!(board.get_pixel(5, 5), Err(PaintboardError::IndexOutOfRange)));
    assert!(matches!(board.get_pixel(2, 0), Ok(_)));
    assert!(matches!(board.get_pixel(3, 0), Err(PaintboardError::IndexOutOfRange)));
}

#[test]
fn board_to_2d_pixels_rows() {
    let mut board = Board::new();
    board.set_pixel(7, 3, Pixel::new(10, 20, 30)).unwrap();
    let rows = board.to_2d_pixels();
    assert_eq!(rows.len(), 600);
    assert_eq!(rows[3].len(), 1000);
    assert_eq!(rows[3][7], Pixel::new(10, 20, 30));
    assert_eq!(rows[0][0], Pixel::new(0, 0, 0));
}

#[test]
fn board_from_bytes_keeps_data() {
    let mut data = vec![0u8; 1_800_000];
    data[3] = 42;
    let board = Board::from_bytes(data);
    assert_eq!(board.get_pixel(1, 0).unwrap(), Pixel::new(42, 0, 0));
}

#[test]
fn pos_and_rgb_bytes() {
    let p = Pos::new(999, 599).unwrap();
    assert_eq!(p.to_bytes(), [0xe7, 0x03, 0x57, 0x02]);
    assert_eq!(Pos::from_bytes(&[0xe7, 0x03, 0x57, 0x02]).unwrap(), p);
    assert!(matches!(Pos::from_bytes(&[0xe8, 0x03, 0, 0]), Err(PaintboardError::InvalidCoordinate)));
    assert!(matches!(Pos::from_bytes(&[1, 2, 3]), Err(PaintboardError::InvalidData)));
    assert_eq!(Rgb::new(1, 2, 3).to_bytes(), [1, 2, 3]);
    assert_eq!(Rgb::from_bytes(&[9, 8, 7, 6]).unwrap(), Rgb::new(9, 8, 7));
    assert!(matches!(Rgb::from_bytes(&[9, 8]), Err(PaintboardError::InvalidData)));
}

#[test]
fn paint_status_from_byte() {
    assert_eq!(PaintStatus::from(0xef), PaintStatus::Success);
    assert_eq!(PaintStatus::from(0xee), PaintStatus::Cooldown);
    assert_eq!(PaintStatus::from(0xed), PaintStatus::InvalidToken);
    assert_eq!(PaintStatus::from(0xec), PaintStatus::InvalidCoordinate);
    assert_eq!(PaintStatus::from(0xeb), PaintStatus::NoPermission);
    assert_eq!(PaintStatus::from(0xea), PaintStatus::ServerError);
    assert_eq!(PaintStatus::from(0xe9), PaintStatus::Unknown);
}

#[test]
fn paint_operation_to_binary_layout() {
    let op = PaintOperation {
        pos: Pos::new(258, 3).unwrap(),
        color: Rgb::new(10, 20, 30),
        token_uid: 0x0a0b0c0d,
        token: "01234567-89ab-cdef-0123-456789abcdef".to_string(),
        paint_id: 0x01020304,
    };
    let b = op.to_binary();
    assert_eq!(b.len(), 31);
    assert_eq!(&b[0..1], &[0xfe]);
    assert_eq!(&b[1..5], &[2, 1, 3, 0]);
    assert_eq!(&b[5..8], &[10, 20, 30]);
    assert_eq!(&b[8..11], &[0x0d, 0x0c, 0x0b]);
    assert_eq!(
        &b[11..27],
        &[0x01, 0x23, 0x45, 0x67, 0x89, 0xab, 0xcd, 0xef, 0x01, 0x23, 0x45, 0x67, 0x89, 0xab, 0xcd, 0xef]
    );
    assert_eq!(&b[27..31], &[4, 3, 2, 1]);
}

#[test]
fn invalid_token_encodes_as_nil_uuid() {
    assert_eq!(token_wire_bytes("not a uuid"), [0u8; 16]);
    assert_eq!(token_wire_bytes("0000000-00-0000-0000-00000000"), [0u8; 16]);
    let b = token_wire_bytes("ffffffffffffffffffffffffffffffff");
    assert_eq!(b, [0xffu8; 16]);
}

#[test]
fn pack_then_unpack() {
    let packed = pack_message(0xfa, &[1, 2, 3]);
    assert_eq!(packed, vec![0xfa, 1, 2, 3]);
    let (op, payload) = unpack_message(&packed).unwrap();
    assert_eq!(op, 0xfa);
    assert_eq!(payload, &[1, 2, 3]);
    assert!(matches!(unpack_message(&[]), Err(PaintboardError::InvalidData)));
}

#[test]
fn image_helpers() {
    let b = image_to_board(&[1, 2, 3], 2, 3).unwrap();
    assert_eq!(b, vec![0u8; 18]);
    let i = board_to_image(&[5, 6, 7], 1, 1).unwrap();
    assert_eq!(i, vec![5, 6, 7]);
}
