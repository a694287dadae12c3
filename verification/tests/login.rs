use bytes::{Bytes, BytesMut};
use kojacoord_protocol::codec::{Decode, Encode, PacketId};
use kojacoord_protocol::error::{IoErrorKind, ProtocolError};
use kojacoord_protocol::types::VarInt;
use kojacoord_protocol::versions::v1_16_x::login::{
    ClientboundEncryptionRequest, ClientboundLoginDisconnect, ClientboundLoginSuccess, ClientboundSetCompression,
    ProfileProperty, ServerboundEncryptionResponse, ServerboundLoginStart,
};

fn sample_uuid() -> u128 {
    uuid::Uuid::from_u128(0x0123_4567_89ab_4def_8123_4567_89ab_cdef).as_u128()
}

#[test]
fn login_start_roundtrip() {
    let p = ServerboundLoginStart { username: "Alex".to_string() };
    let mut buf = BytesMut::new();
    p.encode(&mut buf).unwrap();
    let mut b = buf.freeze();
    assert_eq!(ServerboundLoginStart::decode(&mut b).unwrap(), p);
}

#[test]
fn login_disconnect_roundtrip() {
    let p = ClientboundLoginDisconnect { reason: r#"{"text":"Not whitelisted."}"#.to_string() };
    let mut buf = BytesMut::new();
    p.encode(&mut buf).unwrap();
    let mut b = buf.freeze();
    assert_eq!(ClientboundLoginDisconnect::decode(&mut b).unwrap(), p);
}

#[test]
fn encryption_request_roundtrip() {
    let p = ClientboundEncryptionRequest {
        server_id: String::new(),
        public_key: vec![0xDE, 0xAD, 0xBE, 0xEF],
        verify_token: vec![0x01, 0x02, 0x03, 0x04],
        should_authenticate: true,
    };
    let mut buf = BytesMut::new();
    p.encode(&mut buf).unwrap();
    let mut b = buf.freeze();
    assert_eq!(ClientboundEncryptionRequest::decode(&mut b).unwrap(), p);
}

#[test]
fn login_success_uuid_binary() {
    let p = ClientboundLoginSuccess { uuid: sample_uuid(), username: "Alex".to_string(), properties: Vec::new() };
    let mut buf = BytesMut::new();
    p.encode(&mut buf).unwrap();
    let mut b = buf.freeze();
    let d = ClientboundLoginSuccess::decode(&mut b).unwrap();
    assert_eq!(d.uuid, p.uuid);
    assert_eq!(d.username, p.username);
    assert_eq!(d.properties, p.properties);
}

#[test]
fn login_success_with_properties() {
    let p = ClientboundLoginSuccess {
        uuid: sample_uuid(),
        username: "Alex".to_string(),
        properties: vec![
            ProfileProperty {
                name: "textures".to_string(),
                value: "base64data==".to_string(),
                signature: Some("sig".to_string()),
            },
            ProfileProperty { name: "other".to_string(), value: "val".to_string(), signature: None },
        ],
    };
    let mut buf = BytesMut::new();
    p.encode(&mut buf).unwrap();
    let mut b = buf.freeze();
    assert_eq!(ClientboundLoginSuccess::decode(&mut b).unwrap(), p);
}

#[test]
fn set_compression_roundtrip() {
    let p = ClientboundSetCompression { threshold: VarInt(256) };
    let mut buf = BytesMut::new();
    p.encode(&mut buf).unwrap();
    let mut b = buf.freeze();
    assert_eq!(ClientboundSetCompression::decode(&mut b).unwrap(), p);
}

#[test]
fn encryption_response_roundtrip() {
    let p = ServerboundEncryptionResponse { shared_secret: vec![0u8; 128], verify_token: vec![0xAA; 128] };
    let mut buf = BytesMut::new();
    p.encode(&mut buf).unwrap();
    let mut b = buf.freeze();
    assert_eq!(ServerboundEncryptionResponse::decode(&mut b).unwrap(), p);
}

#[test]
fn login_success_uuid_is_big_endian_on_the_wire() {
    let p = ClientboundLoginSuccess {
        uuid: 0x0011_2233_4455_6677_8899_aabb_ccdd_eeff,
        username: "A".to_string(),
        properties: Vec::new(),
    };
    let mut buf = BytesMut::new();
    p.encode(&mut buf).unwrap();
    let expected: Vec<u8> = vec![
        0x00, 0x11, 0x22, 0x33, 0x44, 0x55, 0x66, 0x77, 0x88, 0x99, 0xaa, 0xbb, 0xcc, 0xdd, 0xee, 0xff, 1, b'A', 0,
    ];
    assert_eq!(buf.to_vec(), expected);
    assert_eq!(ClientboundLoginSuccess::packet_id(754), 0x02);
}

#[test]
fn login_success_short_uuid_is_reported() {
    let mut b = Bytes::from(vec![0u8; 15]);
    match ClientboundLoginSuccess::decode(&mut b) {
        Err(ProtocolError::Io(e)) => {
            assert_eq!(e.kind, IoErrorKind::UnexpectedEof);
            assert_eq!(e.message, "Missing bytes for ClientboundLoginSuccess uuid");
        },
        other => panic!("unexpected: {:?}", other),
    }
}

#[test]
fn profile_property_missing_flag_is_reported() {
    let mut buf = BytesMut::new();
    buf.extend_from_slice(&[1, b'n', 1, b'v']);
    let mut b = buf.freeze();
    match ProfileProperty::decode(&mut b) {
        Err(ProtocolError::Io(e)) => {
            assert_eq!(e.message, "Missing boolean flag for ProfileProperty signature");
        },
        other => panic!("unexpected: {:?}", other),
    }
}

#[test]
fn byte_array_too_short_is_reported() {
    let mut b = Bytes::from(vec![3u8, 1, 2]);
    match ServerboundEncryptionResponse::decode(&mut b) {
        Err(ProtocolError::Io(e)) => {
            assert_eq!(e.kind, IoErrorKind::UnexpectedEof);
            assert_eq!(e.message, "Missing bytes for byte array");
        },
        other => panic!("unexpected: {:?}", other),
    }
}
