//! The ASCII compilers: sprites, rooms, character descriptions, and
//! the fixed-point scalar helpers they rest on.

use rustmw::fx::{clamp64, fxdiv, fxmul, isqrt64, tdiv64};
use rustmw::mapview::MapViewer;
use rustmw::utils::{ll_char_descriptions, room16x16, sprite16x16, sprite8x8, UfmtBuf};
use rustmw::vec2::Vec2;
use rustmw::LowlevelCellType;

#[test]
fn sprite8x8_compiles_solid_tile() {
    let bytes = sprite8x8(rustmw::sprites::SOLIDTILE).unwrap();
    // Alternating dots and crosses: dots set bits from the top bit.
    assert_eq!(bytes, vec![0xAA, 0x55, 0xAA, 0x55, 0xAA, 0x55, 0xAA, 0x55]);
}

#[test]
fn sprite8x8_rejects_too_many_marks() {
    let marks: String = ".".repeat(65);
    assert!(sprite8x8(&marks).is_none());
    let ok: String = ".".repeat(64);
    assert_eq!(sprite8x8(&ok).unwrap(), vec![0xFF; 8]);
}

#[test]
fn sprite16x16_compiles_wheel() {
    let bytes = sprite16x16(rustmw::sprites::WHEEL1).unwrap();
    assert_eq!(bytes.len(), 32);
}

#[test]
fn room16x16_compiles_a_room() {
    let room = room16x16(
        "
|` ```           |
|        `       |
|XXXX       ,    |
|XXXX            |
|X              X|
|X   ,``  `,    X|
|X ,`           X|
|XXXXXX,XXXXXXXXX|
",
    )
    .unwrap();
    assert_eq!(room.len(), 16);
    // First line: solid upper cells at columns 0, 2, 3 and 4.
    assert_eq!(room[0], (1 << 0) | (1 << 4) | (1 << 6) | (1 << 8));
    assert_eq!(room[1], 0);
    // Second line: one solid upper cell at column 8.
    assert_eq!(room[2], 1 << 16);
}

#[test]
fn room16x16_rejects_bad_shapes() {
    assert!(room16x16("|X|").is_none());
    assert!(room16x16("|?               |").is_none());
    assert!(room16x16("").is_none());
}

#[test]
fn char_descriptions_parse_triplets() {
    let v = ll_char_descriptions("s!. J.A", 2).unwrap();
    assert_eq!(v.len(), 2);
    assert_eq!(v[0].chr, b's');
    assert!(matches!(v[0].upper, LowlevelCellType::Special));
    assert!(matches!(v[0].lower, LowlevelCellType::Empty));
    assert_eq!(v[1].chr, b'J');
    assert!(matches!(v[1].upper, LowlevelCellType::Empty));
    assert!(matches!(v[1].lower, LowlevelCellType::CustomA));
}

#[test]
fn char_descriptions_reject_bad_input() {
    assert!(ll_char_descriptions("s!. J.A", 1).is_none());
    assert!(ll_char_descriptions("s!. J.A", 3).is_none());
    assert!(ll_char_descriptions("sq.", 1).is_none());
}

#[test]
fn ufmt_buf_appends_and_truncates() {
    let mut buf: UfmtBuf<8> = UfmtBuf::new();
    buf.write_str("abc");
    assert_eq!(buf.bytes(), b"abc".to_vec());
    buf.write_str("defgh");
    assert_eq!(buf.bytes(), b"abcdefgh".to_vec());
    // A write past the capacity is dropped whole.
    buf.write_str("x");
    assert_eq!(buf.bytes(), b"abcdefgh".to_vec());
}

#[test]
fn fixed_point_scalars() {
    assert_eq!(isqrt64(0), 0);
    assert_eq!(isqrt64(1), 1);
    assert_eq!(isqrt64(3), 1);
    assert_eq!(isqrt64(4), 2);
    assert_eq!(isqrt64(1_000_900), 1000);
    assert_eq!(tdiv64(7, 2), 3);
    assert_eq!(tdiv64(-7, 2), -3);
    assert_eq!(fxmul(1_500, 2_000), 3_000);
    assert_eq!(fxdiv(1_000, 3), 333_333);
    assert_eq!(clamp64(i64::MAX), 1_000_000_000);
    assert_eq!(clamp64(i64::MIN + 1), -1_000_000_000);
}

#[test]
fn vector_operations() {
    let v = Vec2::new(3_000, 4_000);
    assert_eq!(v.norm(), 5_000);
    let u = Vec2::new(0, -5_000).vunit();
    assert_eq!(u.x, 0);
    assert_eq!(u.y, -1_000);
    // Cosine of opposite directions is -1.
    assert_eq!(Vec2::new(0, 1_000).alignment(Vec2::new(0, -2_000)), -1_000);
    // Projection of the midpoint is half way.
    assert_eq!(Vec2::new(3_000, 5_000).proj_factor(Vec2::new(6_000, 0)), 500);
}

#[test]
fn map_viewer_origin_clamps() {
    assert_eq!(MapViewer::clamp_tile((5, 5)), (0, 0));
    assert_eq!(MapViewer::clamp_tile((-100, -100)), (0, 0));
    let mv = MapViewer::new();
    assert_eq!(mv.upper_left_tile, (u16::MAX, u16::MAX));
}
