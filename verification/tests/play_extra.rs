use bytes::{Bytes, BytesMut};
use kojacoord_protocol::codec::{Decode, Encode, PacketId};
use kojacoord_protocol::error::{IoErrorKind, ProtocolError};
use kojacoord_protocol::types::VarInt;
use kojacoord_protocol::versions::v1_12_2::play::{
    Attribute, AttributeModifier, BossBarAction, ClientboundBossBar, ClientboundLevelParticles, ClientboundMapItemData,
    ClientboundUpdateAttributes,
};
use kojacoord_protocol::versions::{v1_12_2, v1_12_x, v1_16_x, v1_7_10};
use std::fmt::Debug;

fn roundtrip<T: Encode + Decode + PartialEq + Debug>(v: T) {
    let mut buf = BytesMut::new();
    v.encode(&mut buf).unwrap();
    let mut b = buf.freeze();
    assert_eq!(T::decode(&mut b).unwrap(), v);
    assert!(b.is_empty());
}

fn bytes_of<T: Encode>(v: &T) -> Vec<u8> {
    let mut buf = BytesMut::new();
    v.encode(&mut buf).unwrap();
    buf.to_vec()
}

fn io_message<T: Debug>(r: Result<T, ProtocolError>) -> (IoErrorKind, String) {
    match r {
        Err(ProtocolError::Io(e)) => (e.kind, e.message),
        other => panic!("unexpected: {:?}", other),
    }
}

const UUID: u128 = 0x0011_2233_4455_6677_8899_aabb_ccdd_eeff;
const UUID_BYTES: [u8; 16] =
    [0x00, 0x11, 0x22, 0x33, 0x44, 0x55, 0x66, 0x77, 0x88, 0x99, 0xaa, 0xbb, 0xcc, 0xdd, 0xee, 0xff];

#[test]
fn boss_bar_actions_roundtrip() {
    let actions = vec![
        BossBarAction::Add {
            title: "{\"text\":\"Wither\"}".to_string(),
            health: 1.0f32.to_bits(),
            color: VarInt(5),
            division: VarInt(0),
            flags: 1,
        },
        BossBarAction::Remove,
        BossBarAction::UpdateHealth { health: 0.5f32.to_bits() },
        BossBarAction::UpdateTitle { title: "x".to_string() },
        BossBarAction::UpdateStyle { color: VarInt(1), division: VarInt(2) },
        BossBarAction::UpdateFlags { flags: 3 },
    ];
    for action in actions {
        roundtrip(ClientboundBossBar { uuid: UUID, action });
    }
    assert_eq!(ClientboundBossBar::packet_id(340), 0x0C);
    let remove = ClientboundBossBar { uuid: UUID, action: BossBarAction::Remove };
    let mut expected = UUID_BYTES.to_vec();
    expected.push(1);
    assert_eq!(bytes_of(&remove), expected);
}

#[test]
fn boss_bar_unknown_action_is_invalid_data() {
    let mut data = UUID_BYTES.to_vec();
    data.push(6);
    let (kind, message) = io_message(v1_12_x::play::ClientboundBossBar::decode(&mut Bytes::from(data)));
    assert_eq!(kind, IoErrorKind::InvalidData);
    assert_eq!(message, "Unknown BossBar action id");
    let (kind, message) = io_message(v1_12_x::play::ClientboundBossBar::decode(&mut Bytes::from(vec![0u8; 10])));
    assert_eq!(kind, IoErrorKind::UnexpectedEof);
    assert_eq!(message, "Need 16 bytes, have 10");
    roundtrip(v1_12_x::play::ClientboundBossBar {
        uuid: 7,
        action: v1_12_x::play::BossBarAction::UpdateFlags { flags: 2 },
    });
}

#[test]
fn uuid_packets_write_big_endian_uuids() {
    let s = v1_12_2::play::ServerboundSpectate { target_player: UUID };
    assert_eq!(bytes_of(&s), UUID_BYTES.to_vec());
    roundtrip(s);
    let p = v1_16_x::play::ClientboundSpawnPlayer {
        entity_id: VarInt(1),
        player_uuid: UUID,
        x: 1.0f64.to_bits(),
        y: 2.0f64.to_bits(),
        z: 3.0f64.to_bits(),
        yaw: -1,
        pitch: 1,
    };
    assert_eq!(&bytes_of(&p)[1..17], &UUID_BYTES[..]);
    roundtrip(p);
    roundtrip(v1_12_2::play::ClientboundSpawnEntity {
        entity_id: VarInt(9),
        object_uuid: UUID,
        kind: 2,
        x: 0.5f64.to_bits(),
        y: 64.0f64.to_bits(),
        z: (-0.5f64).to_bits(),
        yaw: 0,
        pitch: 0,
        data: 1,
        velocity_x: 0,
        velocity_y: -1,
        velocity_z: 0,
    });
    roundtrip(v1_16_x::play::ClientboundSpawnLivingEntity {
        entity_id: VarInt(3),
        entity_uuid: 1,
        entity_type: VarInt(90),
        x: 0,
        y: 0,
        z: 0,
        yaw: 0,
        pitch: 0,
        head_pitch: 0,
        velocity_x: 1,
        velocity_y: 2,
        velocity_z: 3,
    });
    roundtrip(v1_7_10::play::ClientboundSpawnPlayer {
        entity_id: 5,
        player_uuid: UUID,
        username: "Steve".to_string(),
        x: 1,
        y: 2,
        z: 3,
        yaw: 0,
        pitch: 0,
        current_item: 0,
    });
}

#[test]
fn spawn_mob_skips_the_metadata_tail() {
    let m = v1_12_2::play::ClientboundSpawnMob {
        entity_id: VarInt(1),
        uuid: UUID,
        kind: VarInt(50),
        x: 0,
        y: 0,
        z: 0,
        yaw: 0,
        pitch: 0,
        head_pitch: 0,
        velocity_x: 0,
        velocity_y: 0,
        velocity_z: 0,
    };
    let bytes = bytes_of(&m);
    assert_eq!(*bytes.last().unwrap(), 0xFF);
    let mut with_more = bytes.clone();
    with_more.extend_from_slice(&[1, 2, 3]);
    let mut b = Bytes::from(with_more);
    assert_eq!(v1_12_2::play::ClientboundSpawnMob::decode(&mut b).unwrap(), m);
    assert!(b.is_empty());
}

#[test]
fn spawn_painting_title_errors_are_eof() {
    let mut data = vec![1u8];
    data.extend_from_slice(&UUID_BYTES);
    data.extend_from_slice(&[2, 0xFF, 0xFE]);
    data.extend_from_slice(&[0u8; 9]);
    assert!(matches!(
        v1_12_2::play::ClientboundSpawnPainting::decode(&mut Bytes::from(data)),
        Err(ProtocolError::UnexpectedEof)
    ));
    roundtrip(v1_12_2::play::ClientboundSpawnPainting {
        entity_id: VarInt(2),
        uuid: UUID,
        title: "Kebab".to_string(),
        position: 42,
        direction: 1,
    });
}

#[test]
fn counted_lists_roundtrip() {
    roundtrip(v1_12_2::play::ClientboundRemoveEntities { entity_ids: vec![VarInt(1), VarInt(300), VarInt(-1)] });
    roundtrip(v1_7_10::play::ClientboundRemoveEntities { entity_ids: vec![1, -2, 3] });
    assert_eq!(
        bytes_of(&v1_7_10::play::ClientboundRemoveEntities { entity_ids: vec![1] }),
        vec![1, 0, 0, 0, 1]
    );
    roundtrip(v1_12_2::play::ClientboundAwardStats {
        entries: vec![("stat.jump".to_string(), VarInt(12)), ("stat.walk".to_string(), VarInt(0))],
    });
    roundtrip(v1_12_2::play::ClientboundCommandSuggestions { matches: vec!["/help".to_string(), "/home".to_string()] });
    roundtrip(v1_12_2::play::ClientboundSectionBlocksUpdate {
        chunk_x: -3,
        chunk_z: 4,
        records: vec![(0x12, 64, VarInt(1)), (0xFF, 0, VarInt(4096))],
    });
}

#[test]
fn list_counts_that_overrun_the_buffer() {
    // Three ids announced, eight bytes present.
    assert_eq!(
        io_message(v1_7_10::play::ClientboundRemoveEntities::decode(&mut Bytes::from(vec![3u8, 0, 0, 0, 1, 0, 0, 0, 2]))),
        (IoErrorKind::UnexpectedEof, "Need 12 bytes, have 8".to_string())
    );
    // A record without its two leading bytes.
    let mut data = vec![0u8; 8];
    data.extend_from_slice(&[1, 7]);
    assert_eq!(
        io_message(v1_12_2::play::ClientboundSectionBlocksUpdate::decode(&mut Bytes::from(data))),
        (IoErrorKind::UnexpectedEof, "Need 2 bytes, have 1".to_string())
    );
}

#[test]
fn destroy_entities_counts_with_its_first_varint() {
    let p = v1_16_x::play::ClientboundDestroyEntities {
        entity_ids: VarInt(2),
        count: VarInt(2),
        entities: vec![VarInt(10), VarInt(11)],
    };
    assert_eq!(bytes_of(&p), vec![2, 10, 11]);
    roundtrip(p);
}

#[test]
fn explosions_roundtrip() {
    roundtrip(v1_12_2::play::ClientboundExplosion {
        x: 1.0f32.to_bits(),
        y: 2.0f32.to_bits(),
        z: 3.0f32.to_bits(),
        radius: 4.0f32.to_bits(),
        records: vec![(1, -1, 0), (0, 0, 1)],
        player_motion_x: 0,
        player_motion_y: 0.25f32.to_bits(),
        player_motion_z: 0,
    });
    let p = v1_7_10::play::ClientboundExplosion {
        x: 1.0f32.to_bits(),
        y: 2.0f32.to_bits(),
        z: 3.0f32.to_bits(),
        radius: 4.0f32.to_bits(),
        record_count: 2,
        records: vec![1, 2, 3, 4, 5, 6],
        player_motion_x: 0,
        player_motion_y: 0,
        player_motion_z: 0,
    };
    assert_eq!(bytes_of(&p).len(), 16 + 4 + 6 + 12);
    roundtrip(p);
    let mut short = vec![0u8; 16];
    short.extend_from_slice(&[0, 0, 0, 1]);
    short.extend_from_slice(&[0u8; 14]);
    assert!(matches!(
        v1_7_10::play::ClientboundExplosion::decode(&mut Bytes::from(short)),
        Err(ProtocolError::UnexpectedEof)
    ));
}

#[test]
fn update_attributes_roundtrip() {
    roundtrip(ClientboundUpdateAttributes {
        entity_id: VarInt(17),
        attributes: vec![
            Attribute {
                key: "generic.maxHealth".to_string(),
                value: 20.0f64.to_bits(),
                modifiers: vec![AttributeModifier { uuid: UUID, amount: 2.0f64.to_bits(), operation: 0 }],
            },
            Attribute { key: "generic.movementSpeed".to_string(), value: 0.1f64.to_bits(), modifiers: vec![] },
        ],
    });
}

#[test]
fn map_item_data_roundtrip() {
    roundtrip(ClientboundMapItemData {
        map_id: VarInt(3),
        scale: 0,
        tracking_position: true,
        icons: vec![(0x10, 5, -5)],
        columns: 128,
        data: vec![7; 10],
    });
    let empty = ClientboundMapItemData {
        map_id: VarInt(3),
        scale: 1,
        tracking_position: false,
        icons: vec![],
        columns: 0,
        data: vec![],
    };
    assert_eq!(bytes_of(&empty), vec![3, 1, 0, 0, 0]);
    roundtrip(empty);
}

#[test]
fn level_particles_carry_their_arguments() {
    let base = |id: i32, data: Vec<VarInt>| ClientboundLevelParticles {
        particle_id: id,
        long_distance: false,
        x: 0,
        y: 0,
        z: 0,
        offset_x: 0,
        offset_y: 0,
        offset_z: 0,
        particle_data: 0,
        particle_count: 1,
        data,
    };
    roundtrip(base(36, vec![VarInt(1), VarInt(2)]));
    roundtrip(base(37, vec![VarInt(3)]));
    roundtrip(base(5, vec![]));
    // Extra arguments are not written.
    assert_eq!(bytes_of(&base(37, vec![VarInt(3), VarInt(4)])).len(), 37 + 1);
    assert_eq!(bytes_of(&base(5, vec![VarInt(3)])).len(), 37);
}

#[test]
fn optional_fields_roundtrip() {
    roundtrip(v1_12_2::play::ClientboundSelectAdvancementsTab {
        has_id: true,
        tab_id: Some("minecraft:story/root".to_string()),
    });
    roundtrip(v1_12_2::play::ClientboundSelectAdvancementsTab { has_id: false, tab_id: None });
    roundtrip(v1_12_2::play::ClientboundSetScoreboardObjective {
        objective_name: "kills".to_string(),
        mode: 0,
        objective_value: Some("Kills".to_string()),
        kind: Some("integer".to_string()),
    });
    roundtrip(v1_12_2::play::ClientboundSetScoreboardObjective {
        objective_name: "kills".to_string(),
        mode: 1,
        objective_value: None,
        kind: None,
    });
    roundtrip(v1_12_2::play::ClientboundSetScoreboardScore {
        entity_name: "Steve".to_string(),
        action: 0,
        objective_name: "kills".to_string(),
        value: Some(VarInt(3)),
    });
    roundtrip(v1_12_2::play::ClientboundSetScoreboardScore {
        entity_name: "Steve".to_string(),
        action: 1,
        objective_name: "kills".to_string(),
        value: None,
    });
    roundtrip(v1_12_2::play::ServerboundCommandSuggestion { text: "/tp ".to_string(), block: Some(99) });
    roundtrip(v1_12_2::play::ServerboundCommandSuggestion { text: "/tp ".to_string(), block: None });
    roundtrip(v1_12_2::play::ClientboundStopSound {
        flags: 3,
        source: Some(VarInt(2)),
        sound: Some("ambient.cave".to_string()),
    });
    roundtrip(v1_12_2::play::ClientboundStopSound { flags: 0, source: None, sound: None });
    roundtrip(v1_12_2::play::ServerboundUpdateSign {
        location: 0x0123_4567,
        lines: ["a".to_string(), "".to_string(), "c".to_string(), "dd".to_string()],
    });
    roundtrip(v1_16_x::play::ClientboundTitle {
        action: VarInt(0),
        title_text: Some("{\"text\":\"Hi\"}".to_string()),
        fade_in: 10,
        stay: 70,
        fade_out: 20,
    });
    roundtrip(v1_16_x::play::ClientboundTitle { action: VarInt(4), title_text: None, fade_in: 0, stay: 0, fade_out: 0 });
}

#[test]
fn stop_sound_ignores_fields_its_flags_do_not_announce() {
    let p = v1_12_2::play::ClientboundStopSound { flags: 0, source: Some(VarInt(2)), sound: None };
    assert_eq!(bytes_of(&p), vec![0]);
}

#[test]
fn level_chunk_1_7_10_roundtrip() {
    let p = v1_7_10::play::ClientboundLevelChunkWithLight {
        chunk_x: 1,
        chunk_z: -1,
        continuous: true,
        primary_bitmap: 0x00FF,
        add_bitmap: 0,
        compressed_data: vec![0x78, 0x9C, 1, 2, 3],
    };
    roundtrip(p);
    let mut data = vec![0u8; 13];
    data.extend_from_slice(&[0, 0, 0, 9, 1, 2]);
    assert!(matches!(
        v1_7_10::play::ClientboundLevelChunkWithLight::decode(&mut Bytes::from(data)),
        Err(ProtocolError::UnexpectedEof)
    ));
}

#[test]
fn float_codec_packets_1_19() {
    let p = kojacoord_protocol::versions::v1_19_x::play::ClientboundPlayerPosition {
        x: 1.5f64.to_bits(),
        y: 70.0f64.to_bits(),
        z: (-2.25f64).to_bits(),
        yaw: 90.0f32.to_bits(),
        pitch: (-10.0f32).to_bits(),
        flags: 0,
        teleport_id: VarInt(7),
    };
    let bytes = bytes_of(&p);
    assert_eq!(&bytes[..8], &1.5f64.to_be_bytes());
    assert_eq!(bytes.len(), 8 * 3 + 4 * 2 + 1 + 1);
    roundtrip(p);
    let a = kojacoord_protocol::versions::v1_19_x::play::ClientboundPlayerAbilities {
        flags: 0x0F,
        flying_speed: 0.05f32.to_bits(),
        walking_speed: 0.1f32.to_bits(),
    };
    roundtrip(a);
    assert!(matches!(
        kojacoord_protocol::versions::v1_19_x::play::ClientboundPlayerAbilities::decode(&mut Bytes::from(vec![1u8, 0, 0])),
        Err(ProtocolError::UnexpectedEof)
    ));
}

#[test]
fn alias_families_share_packet_types() {
    let k = kojacoord_protocol::versions::v1_13_x::play::ClientboundKeepAlive { keep_alive_id: 5 };
    let same: v1_16_x::play::ClientboundKeepAlive = k.clone();
    assert_eq!(same, k);
    assert_eq!(kojacoord_protocol::versions::v1_18_x::status::ServerboundPingRequest { payload: 1 }.payload, 1);
    let p = kojacoord_protocol::versions::v1_11_x::status::ServerboundPingRequest { payload: 2 };
    roundtrip(p);
}

#[test]
fn spawn_global_entity_replaces_the_buffer() {
    let p = v1_12_2::play::ClientboundSpawnGlobalEntity {
        entity_id: 7,
        kind: 1,
        x: 1.5f64.to_bits(),
        y: (-64.0f64).to_bits(),
        z: 0.0f64.to_bits(),
    };
    assert_eq!(<v1_12_2::play::ClientboundSpawnGlobalEntity as PacketId>::packet_id(340), 0x02);
    let mut buf = BytesMut::from(&[0xAAu8, 0xBB][..]);
    p.encode(&mut buf).unwrap();
    assert_eq!(buf.len(), 29);
    assert_eq!(&buf[..5], &[0, 0, 0, 7, 1]);
    assert_eq!(&buf[5..13], &1.5f64.to_be_bytes());
    let mut b = buf.freeze();
    let d = v1_12_2::play::ClientboundSpawnGlobalEntity::decode(&mut b).unwrap();
    assert_eq!(d, p);
    assert_eq!(f64::from_bits(d.y), -64.0);
    assert!(b.is_empty());
}

#[test]
fn spawn_global_entity_short_input() {
    let mut b = kojacoord_protocol::buffer::bytes_from_vec(vec![0u8; 28]);
    match v1_12_2::play::ClientboundSpawnGlobalEntity::decode(&mut b) {
        Err(ProtocolError::Io(e)) => {
            assert_eq!(e.kind, IoErrorKind::UnexpectedEof);
            assert_eq!(e.message, "Nedostatek dat pro ClientboundSpawnGlobalEntity (vyzadovano 29B)");
        },
        other => panic!("unexpected: {:?}", other),
    }
}
