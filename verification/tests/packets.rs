use bytes::BytesMut;
use kojacoord_protocol::codec::{Decode, Encode, PacketId};
use kojacoord_protocol::types::VarInt;
use kojacoord_protocol::versions::{v1_16_x, v1_21, v1_7_10};
use std::fmt::Debug;

fn roundtrip<T: Encode + Decode + PartialEq + Debug>(v: T) {
    let mut buf = BytesMut::new();
    v.encode(&mut buf).unwrap();
    let mut b = buf.freeze();
    assert_eq!(T::decode(&mut b).unwrap(), v);
}

#[test]
fn mod_join_game_roundtrip() {
    roundtrip(v1_16_x::play::ClientboundJoinGame {
        entity_id: 1,
        is_hardcore: false,
        game_mode: 0,
        previous_game_mode: -1,
        world_names: vec!["minecraft:overworld".to_string()],
        dimension: "minecraft:overworld".to_string(),
        world_name: "minecraft:overworld".to_string(),
        hashed_seed: 12345678,
        max_players: VarInt(20),
        view_distance: VarInt(10),
        reduced_debug_info: false,
        enable_respawn_screen: true,
        is_debug: false,
        is_flat: false,
    });
    roundtrip(v1_7_10::play::ClientboundJoinGame {
        entity_id: 1,
        game_mode: 0,
        dimension: 0,
        difficulty: 1,
        max_players: 20,
        level_type: "default".to_string(),
        reduced_debug_info: false,
    });
}

#[test]
fn mod_respawn_roundtrip() {
    roundtrip(v1_16_x::play::ClientboundRespawn {
        dimension: "minecraft:the_nether".to_string(),
        world_name: "minecraft:the_nether".to_string(),
        hashed_seed: 0,
        game_mode: 0,
        previous_game_mode: -1,
        is_debug: false,
        is_flat: false,
        copy_metadata: true,
    });
    roundtrip(v1_21::play::ClientboundRespawn {
        dimension_type: VarInt(0),
        dimension_name: "minecraft:overworld".to_string(),
        hashed_seed: 0,
        game_mode: 0,
        previous_game_mode: -1,
        is_debug: false,
        is_flat: true,
        data_kept: 0,
        death_location: None,
        portal_cooldown: VarInt(0),
        sea_level: VarInt(63),
    });
    roundtrip(v1_7_10::play::ClientboundRespawn {
        dimension: -1,
        difficulty: 2,
        game_mode: 0,
        level_type: "default".to_string(),
    });
}

#[test]
fn mod_keepalive_roundtrip() {
    roundtrip(v1_16_x::play::ClientboundKeepAlive { keep_alive_id: 111222333_i64 });
    roundtrip(v1_16_x::play::ServerboundKeepAlive { keep_alive_id: 111222333_i64 });
    roundtrip(v1_21::play::ClientboundKeepAlive { keep_alive_id: 123456789_i64 });
    roundtrip(v1_21::play::ServerboundKeepAlive { keep_alive_id: 987654321_i64 });
    roundtrip(v1_7_10::play::ClientboundKeepAlive { keep_alive_id: VarInt(42) });
    roundtrip(v1_7_10::play::ServerboundKeepAlive { keep_alive_id: VarInt(42) });
}

#[test]
fn mod_plugin_message_roundtrip() {
    roundtrip(v1_16_x::play::ClientboundPluginMessage {
        channel: "minecraft:brand".to_string(),
        data: b"velocity".to_vec(),
    });
    roundtrip(v1_16_x::play::ServerboundPluginMessage {
        channel: "minecraft:brand".to_string(),
        data: b"vanilla".to_vec(),
    });
    roundtrip(v1_21::play::ClientboundPluginMessage {
        channel: "minecraft:brand".to_string(),
        data: b"paper".to_vec(),
    });
    roundtrip(v1_21::play::ServerboundPluginMessage {
        channel: "minecraft:brand".to_string(),
        data: b"vanilla".to_vec(),
    });
    roundtrip(v1_7_10::play::ClientboundPluginMessage {
        channel: "MC|Brand".to_string(),
        data: b"vanilla".to_vec(),
    });
    roundtrip(v1_7_10::play::ServerboundPluginMessage {
        channel: "MC|Brand".to_string(),
        data: b"client".to_vec(),
    });
}

#[test]
fn mod_disconnect_roundtrip() {
    roundtrip(v1_16_x::play::ClientboundDisconnect { reason: r#"{"text":"cya"}"#.to_string() });
    roundtrip(v1_21::play::ClientboundDisconnect { reason: r#"{"text":"bye"}"#.to_string() });
    roundtrip(v1_7_10::play::ClientboundDisconnect { reason: r#"{"text":"bye"}"#.to_string() });
}

#[test]
fn system_chat_roundtrip() {
    roundtrip(v1_21::play::ClientboundSystemChat {
        json_message: r#"{"text":"hello"}"#.to_string(),
        overlay: false,
    });
}

#[test]
fn login_roundtrip() {
    roundtrip(v1_21::play::ClientboundLogin {
        entity_id: 0,
        is_hardcore: false,
        dimension_names: vec!["minecraft:overworld".to_string()],
        max_players: VarInt(20),
        view_distance: VarInt(8),
        simulation_distance: VarInt(8),
        reduced_debug_info: false,
        enable_respawn_screen: true,
        do_limited_crafting: false,
        dimension_type: VarInt(0),
        dimension_name: "minecraft:overworld".to_string(),
        hashed_seed: 0,
        game_mode: 3,
        previous_game_mode: -1,
        is_debug: false,
        is_flat: true,
        death_location: None,
        portal_cooldown: VarInt(0),
        sea_level: VarInt(63),
    });
}

#[test]
fn mod_player_position_roundtrip() {
    roundtrip(v1_16_x::play::ClientboundPlayerPosition {
        x: 10.0f64.to_bits(),
        y: 64.0f64.to_bits(),
        z: (-10.0f64).to_bits(),
        yaw: 0.0f32.to_bits(),
        pitch: 0.0f32.to_bits(),
        flags: 0,
        teleport_id: VarInt(1),
    });
    roundtrip(v1_21::play::ClientboundPlayerPosition {
        x: (-100.0f64).to_bits(),
        y: 70.0f64.to_bits(),
        z: 200.0f64.to_bits(),
        yaw: 90.0f32.to_bits(),
        pitch: (-45.0f32).to_bits(),
        flags: 0,
        teleport_id: VarInt(5),
    });
    roundtrip(v1_7_10::play::ClientboundPlayerPosition {
        x: 10.0f64.to_bits(),
        head_y: 66.62f64.to_bits(),
        z: (-5.0f64).to_bits(),
        yaw: 0.0f32.to_bits(),
        pitch: 0.0f32.to_bits(),
        flags: 0,
    });
}

#[test]
fn mod_chat_roundtrip() {
    roundtrip(v1_16_x::play::ClientboundChatMessage {
        json_message: r#"{"text":"hi"}"#.to_string(),
        position: 1,
        sender: uuid::Uuid::nil().as_u128(),
    });
    roundtrip(v1_16_x::play::ServerboundChatMessage { message: "hello".to_string() });
    roundtrip(v1_7_10::play::ClientboundChatMessage { json_message: r#"{"text":"hi"}"#.to_string(), position: 0 });
    roundtrip(v1_7_10::play::ServerboundChatMessage { message: "hello".to_string() });
}

#[test]
fn move_roundtrips() {
    roundtrip(v1_16_x::play::ServerboundMovePlayerPos {
        x: 0.0f64.to_bits(),
        feet_y: 64.0f64.to_bits(),
        z: 0.0f64.to_bits(),
        on_ground: true,
    });
    roundtrip(v1_16_x::play::ServerboundMovePlayerRot { yaw: 45.0f32.to_bits(), pitch: (-20.0f32).to_bits(), on_ground: false });
    roundtrip(v1_16_x::play::ServerboundMovePlayerPosRot {
        x: 5.0f64.to_bits(),
        feet_y: 65.0f64.to_bits(),
        z: (-5.0f64).to_bits(),
        yaw: 90.0f32.to_bits(),
        pitch: 0.0f32.to_bits(),
        on_ground: true,
    });
}

#[test]
fn interact_roundtrips() {
    roundtrip(v1_16_x::play::ServerboundInteract { entity_id: VarInt(3), action: v1_16_x::play::InteractAction::Attack, sneaking: true });
    roundtrip(v1_16_x::play::ServerboundInteract {
        entity_id: VarInt(4),
        action: v1_16_x::play::InteractAction::Interact { hand: VarInt(0) },
        sneaking: false,
    });
    roundtrip(v1_16_x::play::ServerboundInteract {
        entity_id: VarInt(5),
        action: v1_16_x::play::InteractAction::InteractAt {
            target_x: 0.5f32.to_bits(),
            target_y: 1.0f32.to_bits(),
            target_z: 0.5f32.to_bits(),
            hand: VarInt(1),
        },
        sneaking: false,
    });
}

#[test]
fn mod_interact_roundtrip() {
    {
        roundtrip(v1_21::play::ServerboundInteract { entity_id: VarInt(1), action: v1_21::play::InteractAction::Attack, sneaking: false });
        roundtrip(v1_21::play::ServerboundInteract {
            entity_id: VarInt(2),
            action: v1_21::play::InteractAction::Interact { hand: VarInt(0) },
            sneaking: true,
        });
        roundtrip(v1_21::play::ServerboundInteract {
            entity_id: VarInt(3),
            action: v1_21::play::InteractAction::InteractAt {
                target_x: 0.5f32.to_bits(),
                target_y: 1.0f32.to_bits(),
                target_z: 0.5f32.to_bits(),
                hand: VarInt(0),
            },
            sneaking: false,
        });
    }
    {
        roundtrip(v1_7_10::play::ServerboundInteract { entity_id: VarInt(1), action: v1_7_10::play::InteractAction::Attack });
        roundtrip(v1_7_10::play::ServerboundInteract { entity_id: VarInt(2), action: v1_7_10::play::InteractAction::Interact });
        roundtrip(v1_7_10::play::ServerboundInteract {
            entity_id: VarInt(3),
            action: v1_7_10::play::InteractAction::InteractAt {
                target_x: 0.5f32.to_bits(),
                target_y: 1.0f32.to_bits(),
                target_z: 0.5f32.to_bits(),
            },
        });
    }
}

#[test]
fn raw_stubs_roundtrip() {
    roundtrip(v1_16_x::play::ClientboundChunkData { raw: vec![0xFF; 32] });
    roundtrip(v1_16_x::play::ClientboundEntityMetadata { raw: vec![] });
    roundtrip(v1_16_x::play::ServerboundPlayerDigging { raw: vec![0x00; 8] });
    roundtrip(v1_16_x::play::ServerboundPlayerBlockPlacement { raw: vec![0xAB, 0xCD] });
}

#[test]
fn sound_roundtrip() {
    roundtrip(v1_21::play::ClientboundSound {
        sound_type: VarInt(0),
        sound_name: "block.note_block.harp".to_string(),
        sound_category: VarInt(2),
        effect_pos_x: 0,
        effect_pos_y: 2048,
        effect_pos_z: 0,
        volume: 1.0f32.to_bits(),
        pitch: 1.0f32.to_bits(),
        seed: 0,
    });
}

#[test]
fn move_pos_roundtrip() {
    roundtrip(v1_21::play::ServerboundMovePlayerPos {
        x: 5.0f64.to_bits(),
        feet_y: 64.0f64.to_bits(),
        z: (-2.0f64).to_bits(),
        on_ground: true,
    });
}

#[test]
fn move_rot_roundtrip() {
    roundtrip(v1_21::play::ServerboundMovePlayerRot {
        yaw: 90.0f32.to_bits(),
        pitch: (-10.0f32).to_bits(),
        on_ground: true,
    });
}

#[test]
fn move_pos_rot_roundtrip() {
    roundtrip(v1_21::play::ServerboundMovePlayerPosRot {
        x: 1.0f64.to_bits(),
        feet_y: 65.0f64.to_bits(),
        z: 2.0f64.to_bits(),
        yaw: 180.0f32.to_bits(),
        pitch: 45.0f32.to_bits(),
        on_ground: false,
    });
}

#[test]
fn movement_roundtrip() {
    roundtrip(v1_7_10::play::ServerboundMovePlayerPos {
        x: 5.0f64.to_bits(),
        feet_y: 64.0f64.to_bits(),
        z: (-2.0f64).to_bits(),
        on_ground: true,
    });
    roundtrip(v1_7_10::play::ServerboundMovePlayerRot { yaw: 90.0f32.to_bits(), pitch: (-10.0f32).to_bits(), on_ground: true });
    roundtrip(v1_7_10::play::ServerboundMovePlayerPosRot {
        x: 1.0f64.to_bits(),
        feet_y: 65.0f64.to_bits(),
        z: 2.0f64.to_bits(),
        yaw: 180.0f32.to_bits(),
        pitch: 45.0f32.to_bits(),
        on_ground: false,
    });
}

#[test]
fn mod_packet_ids() {
    {
        assert_eq!(v1_16_x::play::ClientboundJoinGame::packet_id(754), 0x24);
        assert_eq!(v1_16_x::play::ClientboundRespawn::packet_id(754), 0x39);
        assert_eq!(v1_16_x::play::ClientboundPlayerPosition::packet_id(754), 0x34);
        assert_eq!(v1_16_x::play::ClientboundKeepAlive::packet_id(754), 0x1F);
        assert_eq!(v1_16_x::play::ServerboundKeepAlive::packet_id(754), 0x10);
        assert_eq!(v1_16_x::play::ClientboundChatMessage::packet_id(754), 0x0E);
        assert_eq!(v1_16_x::play::ServerboundChatMessage::packet_id(754), 0x03);
        assert_eq!(v1_16_x::play::ServerboundMovePlayerPos::packet_id(754), 0x12);
        assert_eq!(v1_16_x::play::ServerboundMovePlayerRot::packet_id(754), 0x13);
        assert_eq!(v1_16_x::play::ServerboundMovePlayerPosRot::packet_id(754), 0x14);
        assert_eq!(v1_16_x::play::ServerboundInteract::packet_id(754), 0x0E);
        assert_eq!(v1_16_x::play::ClientboundPluginMessage::packet_id(754), 0x17);
        assert_eq!(v1_16_x::play::ServerboundPluginMessage::packet_id(754), 0x0B);
        assert_eq!(v1_16_x::play::ClientboundDisconnect::packet_id(754), 0x19);

        assert_eq!(v1_16_x::play::ClientboundSpawnEntity::packet_id(754), 0x00);
        assert_eq!(v1_16_x::play::ClientboundSpawnPlayer::packet_id(754), 0x04);
        assert_eq!(v1_16_x::play::ClientboundBlockChange::packet_id(754), 0x0B);
        assert_eq!(v1_16_x::play::ClientboundChunkData::packet_id(754), 0x21);
        assert_eq!(v1_16_x::play::ClientboundEntityVelocity::packet_id(754), 0x46);
        assert_eq!(v1_16_x::play::ClientboundUpdateHealth::packet_id(754), 0x49);
        assert_eq!(v1_16_x::play::ClientboundDeclareRecipes::packet_id(754), 0x5A);
        assert_eq!(v1_16_x::play::ClientboundTags::packet_id(754), 0x5B);
        assert_eq!(v1_16_x::play::ServerboundTeleportConfirm::packet_id(754), 0x00);
        assert_eq!(v1_16_x::play::ServerboundPlayerDigging::packet_id(754), 0x1B);
        assert_eq!(v1_16_x::play::ServerboundPlayerBlockPlacement::packet_id(754), 0x2E);
        assert_eq!(v1_16_x::play::ServerboundUseItem::packet_id(754), 0x2F);
    }
    {
        assert_eq!(v1_21::play::ClientboundKeepAlive::packet_id(767), 0x29);
        assert_eq!(v1_21::play::ClientboundPlayerPosition::packet_id(767), 0x43);
        assert_eq!(v1_21::play::ClientboundPluginMessage::packet_id(767), 0x1A);
        assert_eq!(v1_21::play::ClientboundSystemChat::packet_id(767), 0x6B);
        assert_eq!(v1_21::play::ClientboundLogin::packet_id(767), 0x2E);
        assert_eq!(v1_21::play::ClientboundRespawn::packet_id(767), 0x4B);
        assert_eq!(v1_21::play::ClientboundSound::packet_id(767), 0x67);
        assert_eq!(v1_21::play::ClientboundDisconnect::packet_id(767), 0x1E);
        assert_eq!(v1_21::play::ServerboundKeepAlive::packet_id(767), 0x15);
        assert_eq!(v1_21::play::ServerboundMovePlayerPos::packet_id(767), 0x17);
        assert_eq!(v1_21::play::ServerboundMovePlayerPosRot::packet_id(767), 0x19);
        assert_eq!(v1_21::play::ServerboundMovePlayerRot::packet_id(767), 0x18);
        assert_eq!(v1_21::play::ServerboundInteract::packet_id(767), 0x14);
        assert_eq!(v1_21::play::ServerboundPluginMessage::packet_id(767), 0x0F);
        assert_eq!(v1_21::play::ClientboundBundle::packet_id(767), 0x00);
        assert_eq!(v1_21::play::ClientboundUpdateTags::packet_id(767), 0x77);
        assert_eq!(v1_21::play::ServerboundAcceptTeleportation::packet_id(767), 0x00);
        assert_eq!(v1_21::play::ServerboundUpdateSign::packet_id(767), 0x37);
    }
    {
        assert_eq!(v1_7_10::play::ClientboundKeepAlive::packet_id(5), 0x00);
        assert_eq!(v1_7_10::play::ClientboundJoinGame::packet_id(5), 0x01);
        assert_eq!(v1_7_10::play::ClientboundChatMessage::packet_id(5), 0x02);
        assert_eq!(v1_7_10::play::ClientboundRespawn::packet_id(5), 0x07);
        assert_eq!(v1_7_10::play::ClientboundPlayerPosition::packet_id(5), 0x08);
        assert_eq!(v1_7_10::play::ClientboundDisconnect::packet_id(5), 0x40);
        assert_eq!(v1_7_10::play::ClientboundPluginMessage::packet_id(5), 0x3F);
        assert_eq!(v1_7_10::play::ServerboundKeepAlive::packet_id(5), 0x00);
        assert_eq!(v1_7_10::play::ServerboundChatMessage::packet_id(5), 0x01);
        assert_eq!(v1_7_10::play::ServerboundInteract::packet_id(5), 0x02);
        assert_eq!(v1_7_10::play::ServerboundMovePlayerPos::packet_id(5), 0x04);
        assert_eq!(v1_7_10::play::ServerboundMovePlayerRot::packet_id(5), 0x05);
        assert_eq!(v1_7_10::play::ServerboundMovePlayerPosRot::packet_id(5), 0x06);
        assert_eq!(v1_7_10::play::ServerboundPluginMessage::packet_id(5), 0x17);
    }
}
