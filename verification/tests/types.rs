use bytes::{Bytes, BytesMut};
use kojacoord_protocol::codec::{Decode, Encode};
use kojacoord_protocol::error::ProtocolError;
use kojacoord_protocol::types::position::{
    decode_legacy_position, decode_modern_position, encode_legacy_position, encode_modern_position,
};
use kojacoord_protocol::types::{Position, VarInt, VarLong};

fn position_roundtrip(pos: Position) -> Position {
    let mut buf = BytesMut::new();
    pos.encode(&mut buf).unwrap();
    let mut bytes = buf.freeze();
    Position::decode(&mut bytes).unwrap()
}

#[test]
fn roundtrip_origin() {
    let p = Position::new(0, 0, 0);
    assert_eq!(position_roundtrip(p), p);
}

#[test]
fn roundtrip_positive() {
    let p = Position::new(18357644, 831, -20882616);
    assert_eq!(position_roundtrip(p), p);
}

#[test]
fn roundtrip_negative() {
    let p = Position::new(-1, -2048, -1);
    assert_eq!(position_roundtrip(p), p);
}

#[test]
fn roundtrip_mixed() {
    let p = Position::new(100, 256, -100);
    assert_eq!(position_roundtrip(p), p);
}

#[test]
fn roundtrip_max_values() {
    let p = Position::new(33554431, 2047, -33554432);
    assert_eq!(position_roundtrip(p), p);
}

fn varlong_roundtrip(val: i64) -> i64 {
    let mut buf = BytesMut::new();
    VarLong(val).encode(&mut buf).unwrap();
    let mut bytes = buf.freeze();
    VarLong::decode(&mut bytes).unwrap().0
}

#[test]
fn roundtrip_zero() {
    assert_eq!(varlong_roundtrip(0), 0);
}

#[test]
fn roundtrip_max() {
    assert_eq!(varlong_roundtrip(i64::MAX), i64::MAX);
}

#[test]
fn roundtrip_min() {
    assert_eq!(varlong_roundtrip(i64::MIN), i64::MIN);
}

#[test]
fn roundtrip_minus_one() {
    assert_eq!(varlong_roundtrip(-1), -1);
}

fn varint_bytes(v: i32) -> Vec<u8> {
    let mut buf = BytesMut::new();
    VarInt(v).encode(&mut buf).unwrap();
    buf.to_vec()
}

#[test]
fn varint_known_encodings() {
    assert_eq!(varint_bytes(0), vec![0x00]);
    assert_eq!(varint_bytes(1), vec![0x01]);
    assert_eq!(varint_bytes(127), vec![0x7f]);
    assert_eq!(varint_bytes(128), vec![0x80, 0x01]);
    assert_eq!(varint_bytes(255), vec![0xff, 0x01]);
    assert_eq!(varint_bytes(25565), vec![0xdd, 0xc7, 0x01]);
    assert_eq!(varint_bytes(i32::MAX), vec![0xff, 0xff, 0xff, 0xff, 0x07]);
    assert_eq!(varint_bytes(-1), vec![0xff, 0xff, 0xff, 0xff, 0x0f]);
    assert_eq!(varint_bytes(i32::MIN), vec![0x80, 0x80, 0x80, 0x80, 0x08]);
}

#[test]
fn varint_roundtrip_leaves_the_rest() {
    for v in [0, 1, -1, 300, i32::MIN, i32::MAX] {
        let mut buf = BytesMut::new();
        VarInt(v).encode(&mut buf).unwrap();
        buf.extend_from_slice(&[9, 8, 7]);
        let mut b = buf.freeze();
        assert_eq!(VarInt::decode(&mut b).unwrap(), VarInt(v));
        assert_eq!(b.to_vec(), vec![9, 8, 7]);
    }
}

#[test]
fn varint_errors() {
    let mut empty = Bytes::new();
    assert!(matches!(VarInt::decode(&mut empty), Err(ProtocolError::UnexpectedEof)));
    let mut short = Bytes::from_static(&[0x80, 0x80]);
    assert!(matches!(VarInt::decode(&mut short), Err(ProtocolError::UnexpectedEof)));
    let mut long = Bytes::from_static(&[0x80, 0x80, 0x80, 0x80, 0x80, 0x01]);
    assert!(matches!(VarInt::decode(&mut long), Err(ProtocolError::VarIntOverflow(5))));
}

#[test]
fn varlong_errors() {
    let mut long = Bytes::from_static(&[0xff; 11]);
    assert!(matches!(VarLong::decode(&mut long), Err(ProtocolError::VarIntOverflow(10))));
    let mut empty = Bytes::new();
    assert!(matches!(VarLong::decode(&mut empty), Err(ProtocolError::UnexpectedEof)));
}

#[test]
fn position_layouts() {
    let p = Position::new(1, 2, 3);
    // Modern: x(26) z(26) y(12).
    let modern = encode_modern_position(p);
    assert_eq!(modern, (1i64 << 38) | (3i64 << 12) | 2);
    assert_eq!(decode_modern_position(modern as u64), p);
    // Legacy: x(26) y(12) z(26).
    let legacy = encode_legacy_position(p);
    assert_eq!(legacy, (1i64 << 38) | (2i64 << 26) | 3);
    assert_eq!(decode_legacy_position(legacy as u64), p);
    let n = Position::new(-1, -1, -1);
    assert_eq!(decode_modern_position(encode_modern_position(n) as u64), n);
    assert_eq!(decode_legacy_position(encode_legacy_position(n) as u64), n);
}

#[test]
fn position_needs_eight_bytes() {
    let mut short = Bytes::from_static(&[1, 2, 3]);
    assert!(matches!(Position::decode(&mut short), Err(ProtocolError::UnexpectedEof)));
}

#[test]
fn varint_from_i32() {
    assert_eq!(VarInt::from(7), VarInt(7));
    assert_eq!(VarLong::from(-7i64), VarLong(-7));
}
