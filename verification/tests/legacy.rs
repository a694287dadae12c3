use bytes::{Bytes, BytesMut};
use kojacoord_protocol::codec::{Decode, Encode, PacketId};
use kojacoord_protocol::error::{IoErrorKind, ProtocolError};
use kojacoord_protocol::versions::v1_6_x::{login, play, status};

#[test]
fn legacy_string_is_utf16_with_a_unit_count() {
    let p = play::ClientboundChatMessage { message: "hi\u{1F600}".to_string() };
    let mut buf = BytesMut::new();
    p.encode(&mut buf).unwrap();
    // 4 code units: 'h', 'i', and the surrogate pair of U+1F600.
    assert_eq!(buf.to_vec(), vec![0x00, 0x04, 0x00, b'h', 0x00, b'i', 0xD8, 0x3D, 0xDE, 0x00]);
    let mut b = buf.freeze();
    assert_eq!(play::ClientboundChatMessage::decode(&mut b).unwrap(), p);
    assert!(b.is_empty());
}

#[test]
fn legacy_string_unpaired_surrogate_is_rejected() {
    // One unit, a lone high surrogate.
    let mut b = Bytes::from(vec![0x00, 0x01, 0xD8, 0x00]);
    match play::ClientboundDisconnect::decode(&mut b) {
        Err(ProtocolError::Io(e)) => {
            assert_eq!(e.kind, IoErrorKind::InvalidData);
            assert_eq!(e.message, "invalid UCS-2 in pre-netty string");
        },
        other => panic!("unexpected: {:?}", other),
    }
    let mut b = Bytes::from(vec![0x00, 0x01, 0xD8, 0x00]);
    assert!(matches!(status::ClientboundResponse::decode(&mut b), Err(ProtocolError::UnexpectedEof)));
}

#[test]
fn legacy_string_short_input_is_eof() {
    let mut b = Bytes::from(vec![0x00]);
    assert!(matches!(play::ClientboundChatMessage::decode(&mut b), Err(ProtocolError::UnexpectedEof)));
    let mut b = Bytes::from(vec![0x00, 0x02, 0x00, b'a']);
    assert!(matches!(login::ClientboundLoginDisconnect::decode(&mut b), Err(ProtocolError::UnexpectedEof)));
}

#[test]
fn legacy_motd_from_json_reads_the_status() {
    let json = r#"{"players":{"max":100,"online":5},"description":{"text":"Hello"}}"#;
    let m = status::ClientboundLegacyMotd::from_json(json);
    assert_eq!(m.protocol, "78");
    assert_eq!(m.version, "1.6.4");
    assert_eq!(m.motd, "Hello");
    assert_eq!(m.players, "5");
    assert_eq!(m.max_players, "100");
    let m = status::ClientboundLegacyMotd::from_json(r#"{"description":"Plain","players":{"online":12345678901}}"#);
    assert_eq!(m.motd, "Plain");
    assert_eq!(m.players, "12345678901");
    assert_eq!(m.max_players, "20");
}

#[test]
fn legacy_motd_from_fields() {
    let m = status::ClientboundLegacyMotd::from_status_fields(Some("Hi".to_string()), Some(0), Some(u64::MAX));
    assert_eq!(m.motd, "Hi");
    assert_eq!(m.players, "0");
    assert_eq!(m.max_players, "18446744073709551615");
    let m = status::ClientboundLegacyMotd::from_status_fields(None, None, Some(7));
    assert_eq!(m.motd, "A Minecraft Server");
    assert_eq!(m.players, "0");
    assert_eq!(m.max_players, "7");
}

#[test]
fn legacy_motd_from_json_and_encoding() {
    let m = status::ClientboundLegacyMotd::from_json("");
    assert_eq!(m.protocol, "78");
    assert_eq!(m.version, "1.6.4");
    assert_eq!(m.motd, "A Minecraft Server");
    assert_eq!(m.players, "0");
    assert_eq!(m.max_players, "20");
    let bytes = m.encode_legacy();
    let text = "\u{a7}1\u{0}78\u{0}1.6.4\u{0}A Minecraft Server\u{0}0\u{0}20";
    let units: Vec<u16> = text.encode_utf16().collect();
    let mut expected = vec![0xFF, 0x00, units.len() as u8];
    for u in units {
        expected.extend_from_slice(&u.to_be_bytes());
    }
    assert_eq!(bytes.to_vec(), expected);
}

#[test]
fn legacy_status_packets() {
    assert_eq!(status::ServerboundLegacyPing::packet_id(78), 0xFE);
    let mut buf = BytesMut::new();
    status::ServerboundLegacyPing.encode(&mut buf).unwrap();
    assert!(buf.is_empty());
    let p = status::ClientboundPong { payload: -7 };
    let mut buf = BytesMut::new();
    p.encode(&mut buf).unwrap();
    let mut b = buf.freeze();
    assert_eq!(status::ClientboundPong::decode(&mut b).unwrap(), p);
}

#[test]
fn legacy_login_packets_roundtrip() {
    let h = login::HandshakeC2S {
        protocol_version: 78,
        username: "Steve".to_string(),
        host: "localhost".to_string(),
        port: 25565,
    };
    let mut buf = BytesMut::new();
    h.encode(&mut buf).unwrap();
    let mut b = buf.freeze();
    let d = login::HandshakeC2S::decode(&mut b).unwrap();
    assert_eq!((d.protocol_version, d.username, d.host, d.port), (78, "Steve".to_string(), "localhost".to_string(), 25565));

    let r = login::EncryptionKeyRequestS2C {
        server_id: "-".to_string(),
        public_key: vec![1, 2, 3],
        verify_token: vec![9, 9, 9, 9],
    };
    let mut buf = BytesMut::new();
    r.encode(&mut buf).unwrap();
    assert_eq!(&buf[..4], &[0x00, 0x01, 0x00, b'-']);
    assert_eq!(&buf[4..6], &[0x00, 0x03]);
    let mut b = buf.freeze();
    let d = login::EncryptionKeyRequestS2C::decode(&mut b).unwrap();
    assert_eq!((d.server_id, d.public_key, d.verify_token), ("-".to_string(), vec![1, 2, 3], vec![9, 9, 9, 9]));

    let l = login::LoginRequestS2C {
        entity_id: 42,
        level_type: "default".to_string(),
        game_mode: 1,
        dimension: -1,
        difficulty: 2,
        world_height: 0,
        max_players: 20,
    };
    let mut buf = BytesMut::new();
    l.encode(&mut buf).unwrap();
    let mut b = buf.freeze();
    let d = login::LoginRequestS2C::decode(&mut b).unwrap();
    assert_eq!((d.entity_id, d.level_type.as_str(), d.dimension, d.max_players), (42, "default", -1, 20));
    assert_eq!(login::LoginRequestS2C::packet_id(78), 0x01);
}

#[test]
fn legacy_byte_array_with_negative_count_is_eof() {
    let mut b = Bytes::from(vec![0xFF, 0xFF, 1, 2, 3]);
    assert!(matches!(login::EncryptionKeyResponseC2S::decode(&mut b), Err(ProtocolError::UnexpectedEof)));
}

#[test]
fn legacy_play_position_roundtrip() {
    let p = play::ClientboundPlayerPosition {
        x: 1.5f64.to_bits(),
        y: 64.0f64.to_bits(),
        stance: 65.62f64.to_bits(),
        z: (-3.0f64).to_bits(),
        yaw: 90.0f32.to_bits(),
        pitch: 0.0f32.to_bits(),
        on_ground: true,
    };
    let mut buf = BytesMut::new();
    p.encode(&mut buf).unwrap();
    assert_eq!(buf.len(), 41);
    let mut b = buf.freeze();
    assert_eq!(play::ClientboundPlayerPosition::decode(&mut b).unwrap(), p);
    let mut short = Bytes::from(vec![0u8; 40]);
    assert!(matches!(play::ClientboundPlayerPosition::decode(&mut short), Err(ProtocolError::UnexpectedEof)));
}
