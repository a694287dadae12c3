use bytes::{Bytes, BytesMut};
use kojacoord_protocol::codec::{Decode, Encode, PacketId};
use kojacoord_protocol::error::ProtocolError;
use kojacoord_protocol::types::VarInt;
use kojacoord_protocol::versions::{v1_12_x, v1_16_5, v1_19_x, v1_20_x, v1_21_x};

#[test]
fn mod_response_roundtrip() {
    let p = v1_12_x::status::ClientboundStatusResponse { json_response: "{}".to_string() };
    let mut buf = BytesMut::new();
    p.encode(&mut buf).unwrap();
    let mut b = buf.freeze();
    assert_eq!(v1_12_x::status::ClientboundStatusResponse::decode(&mut b).unwrap(), p);

    let p = v1_19_x::status::ClientboundStatusResponse { json_response: "{}".to_string() };
    let mut buf = BytesMut::new();
    p.encode(&mut buf).unwrap();
    let mut b = buf.freeze();
    assert_eq!(v1_19_x::status::ClientboundStatusResponse::decode(&mut b).unwrap(), p);
}

#[test]
fn mod_ping_roundtrip() {
    let p = v1_12_x::status::ServerboundPingRequest { payload: 42 };
    let mut buf = BytesMut::new();
    p.encode(&mut buf).unwrap();
    let mut b = buf.freeze();
    assert_eq!(v1_12_x::status::ServerboundPingRequest::decode(&mut b).unwrap(), p);

    let p = v1_19_x::status::ServerboundPingRequest { payload: 1234 };
    let mut buf = BytesMut::new();
    p.encode(&mut buf).unwrap();
    let mut b = buf.freeze();
    assert_eq!(v1_19_x::status::ServerboundPingRequest::decode(&mut b).unwrap(), p);
}

#[test]
fn mod_roundtrip() {
    let p = v1_16_5::handshake::ServerboundHandshake {
        protocol_version: VarInt(754),
        server_address: "play.example.com".to_string(),
        server_port: 25565,
        next_state: VarInt(2),
    };
    let mut buf = BytesMut::new();
    p.encode(&mut buf).unwrap();
    let mut b = buf.freeze();
    assert_eq!(v1_16_5::handshake::ServerboundHandshake::decode(&mut b).unwrap(), p);

    let p = v1_19_x::handshake::ServerboundHandshake {
        protocol_version: VarInt(762),
        server_address: "mc.example.com".to_string(),
        server_port: 25565,
        next_state: VarInt(2),
    };
    let mut buf = BytesMut::new();
    p.encode(&mut buf).unwrap();
    let mut b = buf.freeze();
    assert_eq!(v1_19_x::handshake::ServerboundHandshake::decode(&mut b).unwrap(), p);
}

fn io_message(e: ProtocolError) -> String {
    match e {
        ProtocolError::Io(io) => io.message,
        other => panic!("expected an I/O error, got {other:?}"),
    }
}

#[test]
fn handshake_reports_the_missing_field() {
    // protocol version 754, an address of 3 bytes but only 2 given.
    let mut b = Bytes::from_static(&[0xf2, 0x05, 3, b'a', b'b']);
    let e = v1_16_5::handshake::ServerboundHandshake::decode(&mut b).unwrap_err();
    assert_eq!(io_message(e), "Missing bytes for ServerboundHandshake server_address");
    // address complete, port missing.
    let mut b = Bytes::from_static(&[0xf2, 0x05, 1, b'a', 0x63]);
    let e = v1_16_5::handshake::ServerboundHandshake::decode(&mut b).unwrap_err();
    assert_eq!(io_message(e), "Missing bytes for ServerboundHandshake server_port");
    // address not UTF-8.
    let mut b = Bytes::from_static(&[0xf2, 0x05, 1, 0xff, 0x63, 0xdd, 0x02]);
    let e = v1_16_5::handshake::ServerboundHandshake::decode(&mut b).unwrap_err();
    assert_eq!(io_message(e), "Invalid UTF-8 in ServerboundHandshake server_address");
}

#[test]
fn codec_string_errors() {
    // A declared length past the maximum.
    let mut b = Bytes::from_static(&[0x80, 0x80, 0x02]);
    assert!(matches!(
        v1_19_x::status::ClientboundStatusResponse::decode(&mut b),
        Err(ProtocolError::StringTooLong(32768, 32767))
    ));
    let mut b = Bytes::from_static(&[2, b'{']);
    assert!(matches!(
        v1_19_x::status::ClientboundStatusResponse::decode(&mut b),
        Err(ProtocolError::UnexpectedEof)
    ));
    let mut b = Bytes::from_static(&[1, 0xc3]);
    assert!(matches!(
        v1_19_x::status::ClientboundStatusResponse::decode(&mut b),
        Err(ProtocolError::InvalidUtf8(_))
    ));
}

#[test]
fn status_messages() {
    let mut b = Bytes::from_static(&[1, 2, 3]);
    let e = v1_12_x::status::ServerboundPingRequest::decode(&mut b).unwrap_err();
    assert_eq!(io_message(e), "Missing bytes for ServerboundPingRequest payload");
    let mut b = Bytes::from_static(&[5, b'{']);
    let e = v1_12_x::status::ClientboundStatusResponse::decode(&mut b).unwrap_err();
    assert_eq!(io_message(e), "Missing bytes while reading ClientboundStatusResponse JSON payload");
}

#[test]
fn configuration_packets_are_empty() {
    let mut buf = BytesMut::new();
    v1_20_x::config::ClientboundFinishConfiguration.encode(&mut buf).unwrap();
    v1_21_x::config::ServerboundAcknowledgeFinishConfiguration.encode(&mut buf).unwrap();
    assert!(buf.is_empty());
    assert_eq!(v1_20_x::config::ClientboundFinishConfiguration::packet_id(765), 0x02);
    let mut b = Bytes::new();
    assert_eq!(
        v1_21_x::config::ClientboundFinishConfiguration::decode(&mut b).unwrap(),
        v1_21_x::config::ClientboundFinishConfiguration
    );
}
