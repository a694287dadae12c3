//! 1.12.2 (protocol 340) play-state packets.
use crate::buffer::{
    bytes_data, bytes_mut_data, clear, bytes_to_vec, copy_to_bytes, copy_to_slice, get_i16, get_i32, get_i64, get_i8,
    extend_from_slice, get_u16, get_u32, get_u64, get_u8, put_i16, put_i32, put_i64, put_i8, put_slice, put_u16, put_u32, put_u64,
    put_u8, remaining, string_from_utf8,
};
use crate::codec::{
    decode_dim_pos_codec, decode_string_vec, dim_pos_codec_fits, dim_pos_codec_spec, dim_pos_view,
    dim_pos_wire, encode_dim_pos_codec, encode_string_vec, lemma_dim_pos_codec_roundtrip, lemma_string_roundtrip, lemma_string_vec_roundtrip,
    result_view, string_fits, string_list_wire, string_piece, string_vec_fits, string_vec_spec,
    string_wire, strings_view, take_varint_i32, write_string, Decode, Encode, PacketId, Roundtrip,
    WireFormat,
};
use crate::error::{io_error, io_error_owned, ErrorView, IoErrorKind, ProtocolError};
use crate::text::{decimal, need_remaining_message};
use crate::types::VarInt;
use crate::versions::classic::{
    decode_i16_bytes, decode_str, encode_str, i16_bytes_spec, i16_bytes_wire, invalid_in,
    lemma_i16_bytes_roundtrip, missing_for, need, need_spec, str_spec,
};
use crate::types::uuid_wire::{get_uuid, lemma_take_uuid, put_uuid, take_uuid, uuid_wire};
use crate::versions::fields::{
    decode_eof_str, decode_fixed_str, eof_str_spec, fixed_str_spec, lemma_eof_str_roundtrip,
    lemma_fixed_str_roundtrip, need_eof, need_eof_spec, need_msg, need_msg_spec, skip_rest_spec,
    skip_remaining, take_remaining,
};
use crate::wire::{
    be_i16_bytes, be_i32_bytes, be_i64_bytes, be_u16_bytes, be_u32_bytes, be_u64_bytes, bool_byte,
    group_wire_roundtrip, lemma_read_n_err, lemma_read_write_n, panics, read_n, take_bool, take_i16, take_i32, take_i64, take_i8, take_rest,
    take_u16, take_u32, take_u64, take_u8, then, write_all, Parsed,
};
use bytes::{Bytes, BytesMut};
use vstd::prelude::*;
use vstd::seq_lib::lemma_concat_associative;
use vstd::utf8::*;

verus! {



// ── ClientboundJoinGame ───────────────────────────────────────────────

#[derive(Debug, Clone, PartialEq)]
pub struct ClientboundJoinGame {
    pub entity_id: i32,
    pub gamemode: u8,
    pub dimension: i32,
    pub difficulty: u8,
    pub max_players: u8,
    pub level_type: String,
    pub reduced_debug_info: bool,
}

pub struct ClientboundJoinGameView {
    pub entity_id: i32,
    pub gamemode: u8,
    pub dimension: i32,
    pub difficulty: u8,
    pub max_players: u8,
    pub level_type: Seq<char>,
    pub reduced_debug_info: bool,
}

impl View for ClientboundJoinGame {
    type V = ClientboundJoinGameView;

    open spec fn view(&self) -> ClientboundJoinGameView {
        ClientboundJoinGameView {
            entity_id: self.entity_id,
            gamemode: self.gamemode,
            dimension: self.dimension,
            difficulty: self.difficulty,
            max_players: self.max_players,
            level_type: self.level_type@,
            reduced_debug_info: self.reduced_debug_info,
        }
    }
}

impl PacketId for ClientboundJoinGame {
    open spec fn spec_packet_id(ver: u32) -> u8 {
        0x23
    }

    fn packet_id(_ver: u32) -> (r: u8) {
        0x23
    }
}

impl WireFormat for ClientboundJoinGame {
    open spec fn spec_encode(p: ClientboundJoinGameView) -> Seq<u8> {
        be_i32_bytes(p.entity_id) + seq![p.gamemode] + be_i32_bytes(p.dimension) + seq![p.difficulty] + seq![p.max_players] + string_wire(p.level_type) + seq![bool_byte(p.reduced_debug_info)]
    }

    open spec fn spec_decode(s: Seq<u8>) -> Parsed<ClientboundJoinGameView> {
        then(need_msg_spec(s, 11, "Missing initial static data for ClientboundJoinGame"@), |_u: (), s: Seq<u8>| then(take_i32(s), |entity_id: i32, s: Seq<u8>| then(take_u8(s), |gamemode: u8, s: Seq<u8>| then(take_i32(s), |dimension: i32, s: Seq<u8>| then(take_u8(s), |difficulty: u8, s: Seq<u8>| then(take_u8(s), |max_players: u8, s: Seq<u8>| then(fixed_str_spec(s, "Missing level_type string payload inside ClientboundJoinGame"@, "Invalid UTF-8 sequence for level_type string"@), |level_type: Seq<char>, s: Seq<u8>| then(need_msg_spec(s, 1, "Missing reduced_debug_info flag inside ClientboundJoinGame"@), |_u: (), s: Seq<u8>| then(take_bool(s), |reduced_debug_info: bool, s: Seq<u8>| (Ok(ClientboundJoinGameView { entity_id, gamemode, dimension, difficulty, max_players, level_type, reduced_debug_info }), s))))))))))
    }
}

impl Encode for ClientboundJoinGame {
    fn encode(&self, dst: &mut BytesMut) -> (r: Result<(), ProtocolError>) {
        let ghost d0 = bytes_mut_data(*dst);
        put_i32(dst, self.entity_id);
        let ghost mut e: Seq<u8> = be_i32_bytes(self@.entity_id);
        put_u8(dst, self.gamemode);
        proof {
            lemma_concat_associative(d0, e, seq![self@.gamemode]);
            e = e + seq![self@.gamemode];
        }
        put_i32(dst, self.dimension);
        proof {
            lemma_concat_associative(d0, e, be_i32_bytes(self@.dimension));
            e = e + be_i32_bytes(self@.dimension);
        }
        put_u8(dst, self.difficulty);
        proof {
            lemma_concat_associative(d0, e, seq![self@.difficulty]);
            e = e + seq![self@.difficulty];
        }
        put_u8(dst, self.max_players);
        proof {
            lemma_concat_associative(d0, e, seq![self@.max_players]);
            e = e + seq![self@.max_players];
        }
        encode_str(self.level_type.as_str(), dst);
        proof {
            lemma_concat_associative(d0, e, string_wire(self@.level_type));
            e = e + string_wire(self@.level_type);
        }
        put_u8(dst, self.reduced_debug_info as u8);
        proof {
            lemma_concat_associative(d0, e, seq![bool_byte(self@.reduced_debug_info)]);
            e = e + seq![bool_byte(self@.reduced_debug_info)];
        }
        Ok(())
    }
}

impl Decode for ClientboundJoinGame {
    fn decode(src: &mut Bytes) -> (r: Result<Self, ProtocolError>) {
        need_msg(src, 11, "Missing initial static data for ClientboundJoinGame")?;
        let entity_id = get_i32(src);
        let gamemode = get_u8(src);
        let dimension = get_i32(src);
        let difficulty = get_u8(src);
        let max_players = get_u8(src);
        let level_type = decode_fixed_str(src, "Missing level_type string payload inside ClientboundJoinGame", "Invalid UTF-8 sequence for level_type string")?;
        need_msg(src, 1, "Missing reduced_debug_info flag inside ClientboundJoinGame")?;
        let reduced_debug_info = get_u8(src) != 0;
        Ok(Self { entity_id, gamemode, dimension, difficulty, max_players, level_type, reduced_debug_info })
    }
}

// ── ClientboundRespawn ────────────────────────────────────────────────

#[derive(Debug, Clone, PartialEq)]
pub struct ClientboundRespawn {
    pub dimension: i32,
    pub difficulty: u8,
    pub game_mode: u8,
    pub level_type: String,
}

pub struct ClientboundRespawnView {
    pub dimension: i32,
    pub difficulty: u8,
    pub game_mode: u8,
    pub level_type: Seq<char>,
}

impl View for ClientboundRespawn {
    type V = ClientboundRespawnView;

    open spec fn view(&self) -> ClientboundRespawnView {
        ClientboundRespawnView {
            dimension: self.dimension,
            difficulty: self.difficulty,
            game_mode: self.game_mode,
            level_type: self.level_type@,
        }
    }
}

impl PacketId for ClientboundRespawn {
    open spec fn spec_packet_id(ver: u32) -> u8 {
        0x35
    }

    fn packet_id(_ver: u32) -> (r: u8) {
        0x35
    }
}

impl WireFormat for ClientboundRespawn {
    open spec fn spec_encode(p: ClientboundRespawnView) -> Seq<u8> {
        be_i32_bytes(p.dimension) + seq![p.difficulty] + seq![p.game_mode] + string_wire(p.level_type)
    }

    open spec fn spec_decode(s: Seq<u8>) -> Parsed<ClientboundRespawnView> {
        then(need_spec(s, 6), |_u: (), s: Seq<u8>| then(take_i32(s), |dimension: i32, s: Seq<u8>| then(take_u8(s), |difficulty: u8, s: Seq<u8>| then(take_u8(s), |game_mode: u8, s: Seq<u8>| then(str_spec(s, "ClientboundRespawn level_type"@), |level_type: Seq<char>, s: Seq<u8>| (Ok(ClientboundRespawnView { dimension, difficulty, game_mode, level_type }), s))))))
    }
}

impl Roundtrip for ClientboundRespawn {
    open spec fn encodable(p: ClientboundRespawnView) -> bool {
        string_fits(p.level_type)
    }

    open spec fn reads_to_end() -> bool {
        false
    }

    proof fn lemma_roundtrip(p: ClientboundRespawnView, rest: Seq<u8>) {
        broadcast use group_wire_roundtrip;

        let t3 = string_wire(p.level_type) + rest;
        let t2 = seq![p.game_mode] + t3;
        let t1 = seq![p.difficulty] + t2;
        lemma_concat_associative(be_i32_bytes(p.dimension) + seq![p.difficulty] + seq![p.game_mode], string_wire(p.level_type), rest);
        lemma_concat_associative(be_i32_bytes(p.dimension) + seq![p.difficulty], seq![p.game_mode], t3);
        lemma_concat_associative(be_i32_bytes(p.dimension), seq![p.difficulty], t2);
        lemma_string_roundtrip(p.level_type, rest, missing_for("ClientboundRespawn level_type"@), invalid_in("ClientboundRespawn level_type"@));
    }
}

impl Encode for ClientboundRespawn {
    fn encode(&self, dst: &mut BytesMut) -> (r: Result<(), ProtocolError>) {
        let ghost d0 = bytes_mut_data(*dst);
        put_i32(dst, self.dimension);
        let ghost mut e: Seq<u8> = be_i32_bytes(self@.dimension);
        put_u8(dst, self.difficulty);
        proof {
            lemma_concat_associative(d0, e, seq![self@.difficulty]);
            e = e + seq![self@.difficulty];
        }
        put_u8(dst, self.game_mode);
        proof {
            lemma_concat_associative(d0, e, seq![self@.game_mode]);
            e = e + seq![self@.game_mode];
        }
        encode_str(self.level_type.as_str(), dst);
        proof {
            lemma_concat_associative(d0, e, string_wire(self@.level_type));
            e = e + string_wire(self@.level_type);
        }
        Ok(())
    }
}

impl Decode for ClientboundRespawn {
    fn decode(src: &mut Bytes) -> (r: Result<Self, ProtocolError>) {
        need(src, 6)?;
        let dimension = get_i32(src);
        let difficulty = get_u8(src);
        let game_mode = get_u8(src);
        let level_type = decode_str(src, "ClientboundRespawn level_type")?;
        Ok(Self { dimension, difficulty, game_mode, level_type })
    }
}

// ── ClientboundPlayerPosition ─────────────────────────────────────────

#[derive(Debug, Clone, PartialEq)]
pub struct ClientboundPlayerPosition {
    /// The bits of the `f64` value (`f64::to_bits`).
    pub x: u64,
    /// The bits of the `f64` value (`f64::to_bits`).
    pub y: u64,
    /// The bits of the `f64` value (`f64::to_bits`).
    pub z: u64,
    /// The bits of the `f32` value (`f32::to_bits`).
    pub yaw: u32,
    /// The bits of the `f32` value (`f32::to_bits`).
    pub pitch: u32,
    pub flags: u8,
    pub teleport_id: VarInt,
}

impl View for ClientboundPlayerPosition {
    type V = ClientboundPlayerPosition;

    open spec fn view(&self) -> ClientboundPlayerPosition {
        *self
    }
}

impl PacketId for ClientboundPlayerPosition {
    open spec fn spec_packet_id(ver: u32) -> u8 {
        0x2F
    }

    fn packet_id(_ver: u32) -> (r: u8) {
        0x2F
    }
}

impl WireFormat for ClientboundPlayerPosition {
    open spec fn spec_encode(p: ClientboundPlayerPosition) -> Seq<u8> {
        be_u64_bytes(p.x) + be_u64_bytes(p.y) + be_u64_bytes(p.z) + be_u32_bytes(p.yaw) + be_u32_bytes(p.pitch) + seq![p.flags] + VarInt::spec_encode(p.teleport_id)
    }

    open spec fn spec_decode(s: Seq<u8>) -> Parsed<ClientboundPlayerPosition> {
        then(need_spec(s, 33), |_u: (), s: Seq<u8>| then(take_u64(s), |x: u64, s: Seq<u8>| then(take_u64(s), |y: u64, s: Seq<u8>| then(take_u64(s), |z: u64, s: Seq<u8>| then(take_u32(s), |yaw: u32, s: Seq<u8>| then(take_u32(s), |pitch: u32, s: Seq<u8>| then(take_u8(s), |flags: u8, s: Seq<u8>| then(VarInt::spec_decode(s), |teleport_id: VarInt, s: Seq<u8>| (Ok(ClientboundPlayerPosition { x, y, z, yaw, pitch, flags, teleport_id }), s)))))))))
    }
}

impl Roundtrip for ClientboundPlayerPosition {
    open spec fn encodable(p: ClientboundPlayerPosition) -> bool {
        true
    }

    open spec fn reads_to_end() -> bool {
        false
    }

    #[verifier::rlimit(100)]
    #[verifier::spinoff_prover]
    proof fn lemma_roundtrip(p: ClientboundPlayerPosition, rest: Seq<u8>) {
        broadcast use group_wire_roundtrip;

        let t6 = VarInt::spec_encode(p.teleport_id) + rest;
        let t5 = seq![p.flags] + t6;
        let t4 = be_u32_bytes(p.pitch) + t5;
        let t3 = be_u32_bytes(p.yaw) + t4;
        let t2 = be_u64_bytes(p.z) + t3;
        let t1 = be_u64_bytes(p.y) + t2;
        lemma_concat_associative(be_u64_bytes(p.x) + be_u64_bytes(p.y) + be_u64_bytes(p.z) + be_u32_bytes(p.yaw) + be_u32_bytes(p.pitch) + seq![p.flags], VarInt::spec_encode(p.teleport_id), rest);
        lemma_concat_associative(be_u64_bytes(p.x) + be_u64_bytes(p.y) + be_u64_bytes(p.z) + be_u32_bytes(p.yaw) + be_u32_bytes(p.pitch), seq![p.flags], t6);
        lemma_concat_associative(be_u64_bytes(p.x) + be_u64_bytes(p.y) + be_u64_bytes(p.z) + be_u32_bytes(p.yaw), be_u32_bytes(p.pitch), t5);
        lemma_concat_associative(be_u64_bytes(p.x) + be_u64_bytes(p.y) + be_u64_bytes(p.z), be_u32_bytes(p.yaw), t4);
        lemma_concat_associative(be_u64_bytes(p.x) + be_u64_bytes(p.y), be_u64_bytes(p.z), t3);
        lemma_concat_associative(be_u64_bytes(p.x), be_u64_bytes(p.y), t2);
        VarInt::lemma_roundtrip(p.teleport_id, rest);
    }
}

impl Encode for ClientboundPlayerPosition {
    fn encode(&self, dst: &mut BytesMut) -> (r: Result<(), ProtocolError>) {
        let ghost d0 = bytes_mut_data(*dst);
        put_u64(dst, self.x);
        let ghost mut e: Seq<u8> = be_u64_bytes(self@.x);
        put_u64(dst, self.y);
        proof {
            lemma_concat_associative(d0, e, be_u64_bytes(self@.y));
            e = e + be_u64_bytes(self@.y);
        }
        put_u64(dst, self.z);
        proof {
            lemma_concat_associative(d0, e, be_u64_bytes(self@.z));
            e = e + be_u64_bytes(self@.z);
        }
        put_u32(dst, self.yaw);
        proof {
            lemma_concat_associative(d0, e, be_u32_bytes(self@.yaw));
            e = e + be_u32_bytes(self@.yaw);
        }
        put_u32(dst, self.pitch);
        proof {
            lemma_concat_associative(d0, e, be_u32_bytes(self@.pitch));
            e = e + be_u32_bytes(self@.pitch);
        }
        put_u8(dst, self.flags);
        proof {
            lemma_concat_associative(d0, e, seq![self@.flags]);
            e = e + seq![self@.flags];
        }
        let _ = self.teleport_id.encode(dst);
        proof {
            lemma_concat_associative(d0, e, VarInt::spec_encode(self@.teleport_id));
            e = e + VarInt::spec_encode(self@.teleport_id);
        }
        Ok(())
    }
}

impl Decode for ClientboundPlayerPosition {
    fn decode(src: &mut Bytes) -> (r: Result<Self, ProtocolError>) {
        need(src, 33)?;
        let x = get_u64(src);
        let y = get_u64(src);
        let z = get_u64(src);
        let yaw = get_u32(src);
        let pitch = get_u32(src);
        let flags = get_u8(src);
        let teleport_id = VarInt::decode(src)?;
        Ok(Self { x, y, z, yaw, pitch, flags, teleport_id })
    }
}

// ── ClientboundSpawnEntity ────────────────────────────────────────────

#[derive(Debug, Clone, PartialEq)]
pub struct ClientboundSpawnEntity {
    pub entity_id: VarInt,
    /// The UUID as its 128-bit value (`uuid::Uuid::as_u128`).
    pub object_uuid: u128,
    pub kind: u8,
    /// The bits of the `f64` value (`f64::to_bits`).
    pub x: u64,
    /// The bits of the `f64` value (`f64::to_bits`).
    pub y: u64,
    /// The bits of the `f64` value (`f64::to_bits`).
    pub z: u64,
    pub yaw: u8,
    pub pitch: u8,
    pub data: i32,
    pub velocity_x: i16,
    pub velocity_y: i16,
    pub velocity_z: i16,
}

impl View for ClientboundSpawnEntity {
    type V = ClientboundSpawnEntity;

    open spec fn view(&self) -> ClientboundSpawnEntity {
        *self
    }
}

impl PacketId for ClientboundSpawnEntity {
    open spec fn spec_packet_id(ver: u32) -> u8 {
        0x00
    }

    fn packet_id(_ver: u32) -> (r: u8) {
        0x00
    }
}

impl WireFormat for ClientboundSpawnEntity {
    open spec fn spec_encode(p: ClientboundSpawnEntity) -> Seq<u8> {
        VarInt::spec_encode(p.entity_id) + uuid_wire(p.object_uuid) + seq![p.kind] + be_u64_bytes(p.x) + be_u64_bytes(p.y) + be_u64_bytes(p.z) + seq![p.yaw] + seq![p.pitch] + be_i32_bytes(p.data) + be_i16_bytes(p.velocity_x) + be_i16_bytes(p.velocity_y) + be_i16_bytes(p.velocity_z)
    }

    open spec fn spec_decode(s: Seq<u8>) -> Parsed<ClientboundSpawnEntity> {
        then(VarInt::spec_decode(s), |entity_id: VarInt, s: Seq<u8>| then(need_spec(s, 53), |_u: (), s: Seq<u8>| then(take_uuid(s), |object_uuid: u128, s: Seq<u8>| then(take_u8(s), |kind: u8, s: Seq<u8>| then(take_u64(s), |x: u64, s: Seq<u8>| then(take_u64(s), |y: u64, s: Seq<u8>| then(take_u64(s), |z: u64, s: Seq<u8>| then(take_u8(s), |yaw: u8, s: Seq<u8>| then(take_u8(s), |pitch: u8, s: Seq<u8>| then(take_i32(s), |data: i32, s: Seq<u8>| then(take_i16(s), |velocity_x: i16, s: Seq<u8>| then(take_i16(s), |velocity_y: i16, s: Seq<u8>| then(take_i16(s), |velocity_z: i16, s: Seq<u8>| (Ok(ClientboundSpawnEntity { entity_id, object_uuid, kind, x, y, z, yaw, pitch, data, velocity_x, velocity_y, velocity_z }), s))))))))))))))
    }
}

impl Roundtrip for ClientboundSpawnEntity {
    open spec fn encodable(p: ClientboundSpawnEntity) -> bool {
        true
    }

    open spec fn reads_to_end() -> bool {
        false
    }

    #[verifier::rlimit(100)]
    #[verifier::spinoff_prover]
    proof fn lemma_roundtrip(p: ClientboundSpawnEntity, rest: Seq<u8>) {
        broadcast use group_wire_roundtrip;

        let t11 = be_i16_bytes(p.velocity_z) + rest;
        let t10 = be_i16_bytes(p.velocity_y) + t11;
        let t9 = be_i16_bytes(p.velocity_x) + t10;
        let t8 = be_i32_bytes(p.data) + t9;
        let t7 = seq![p.pitch] + t8;
        let t6 = seq![p.yaw] + t7;
        let t5 = be_u64_bytes(p.z) + t6;
        let t4 = be_u64_bytes(p.y) + t5;
        let t3 = be_u64_bytes(p.x) + t4;
        let t2 = seq![p.kind] + t3;
        let t1 = uuid_wire(p.object_uuid) + t2;
        lemma_concat_associative(VarInt::spec_encode(p.entity_id) + uuid_wire(p.object_uuid) + seq![p.kind] + be_u64_bytes(p.x) + be_u64_bytes(p.y) + be_u64_bytes(p.z) + seq![p.yaw] + seq![p.pitch] + be_i32_bytes(p.data) + be_i16_bytes(p.velocity_x) + be_i16_bytes(p.velocity_y), be_i16_bytes(p.velocity_z), rest);
        lemma_concat_associative(VarInt::spec_encode(p.entity_id) + uuid_wire(p.object_uuid) + seq![p.kind] + be_u64_bytes(p.x) + be_u64_bytes(p.y) + be_u64_bytes(p.z) + seq![p.yaw] + seq![p.pitch] + be_i32_bytes(p.data) + be_i16_bytes(p.velocity_x), be_i16_bytes(p.velocity_y), t11);
        lemma_concat_associative(VarInt::spec_encode(p.entity_id) + uuid_wire(p.object_uuid) + seq![p.kind] + be_u64_bytes(p.x) + be_u64_bytes(p.y) + be_u64_bytes(p.z) + seq![p.yaw] + seq![p.pitch] + be_i32_bytes(p.data), be_i16_bytes(p.velocity_x), t10);
        lemma_concat_associative(VarInt::spec_encode(p.entity_id) + uuid_wire(p.object_uuid) + seq![p.kind] + be_u64_bytes(p.x) + be_u64_bytes(p.y) + be_u64_bytes(p.z) + seq![p.yaw] + seq![p.pitch], be_i32_bytes(p.data), t9);
        lemma_concat_associative(VarInt::spec_encode(p.entity_id) + uuid_wire(p.object_uuid) + seq![p.kind] + be_u64_bytes(p.x) + be_u64_bytes(p.y) + be_u64_bytes(p.z) + seq![p.yaw], seq![p.pitch], t8);
        lemma_concat_associative(VarInt::spec_encode(p.entity_id) + uuid_wire(p.object_uuid) + seq![p.kind] + be_u64_bytes(p.x) + be_u64_bytes(p.y) + be_u64_bytes(p.z), seq![p.yaw], t7);
        lemma_concat_associative(VarInt::spec_encode(p.entity_id) + uuid_wire(p.object_uuid) + seq![p.kind] + be_u64_bytes(p.x) + be_u64_bytes(p.y), be_u64_bytes(p.z), t6);
        lemma_concat_associative(VarInt::spec_encode(p.entity_id) + uuid_wire(p.object_uuid) + seq![p.kind] + be_u64_bytes(p.x), be_u64_bytes(p.y), t5);
        lemma_concat_associative(VarInt::spec_encode(p.entity_id) + uuid_wire(p.object_uuid) + seq![p.kind], be_u64_bytes(p.x), t4);
        lemma_concat_associative(VarInt::spec_encode(p.entity_id) + uuid_wire(p.object_uuid), seq![p.kind], t3);
        lemma_concat_associative(VarInt::spec_encode(p.entity_id), uuid_wire(p.object_uuid), t2);
        VarInt::lemma_roundtrip(p.entity_id, t1);
        lemma_take_uuid(p.object_uuid, t2);
    }
}

impl Encode for ClientboundSpawnEntity {
    #[verifier::rlimit(100)]
    #[verifier::spinoff_prover]
    fn encode(&self, dst: &mut BytesMut) -> (r: Result<(), ProtocolError>) {
        let ghost d0 = bytes_mut_data(*dst);
        let _ = self.entity_id.encode(dst);
        let ghost mut e: Seq<u8> = VarInt::spec_encode(self@.entity_id);
        put_uuid(dst, self.object_uuid);
        proof {
            lemma_concat_associative(d0, e, uuid_wire(self@.object_uuid));
            e = e + uuid_wire(self@.object_uuid);
        }
        put_u8(dst, self.kind);
        proof {
            lemma_concat_associative(d0, e, seq![self@.kind]);
            e = e + seq![self@.kind];
        }
        put_u64(dst, self.x);
        proof {
            lemma_concat_associative(d0, e, be_u64_bytes(self@.x));
            e = e + be_u64_bytes(self@.x);
        }
        put_u64(dst, self.y);
        proof {
            lemma_concat_associative(d0, e, be_u64_bytes(self@.y));
            e = e + be_u64_bytes(self@.y);
        }
        put_u64(dst, self.z);
        proof {
            lemma_concat_associative(d0, e, be_u64_bytes(self@.z));
            e = e + be_u64_bytes(self@.z);
        }
        put_u8(dst, self.yaw);
        proof {
            lemma_concat_associative(d0, e, seq![self@.yaw]);
            e = e + seq![self@.yaw];
        }
        put_u8(dst, self.pitch);
        proof {
            lemma_concat_associative(d0, e, seq![self@.pitch]);
            e = e + seq![self@.pitch];
        }
        put_i32(dst, self.data);
        proof {
            lemma_concat_associative(d0, e, be_i32_bytes(self@.data));
            e = e + be_i32_bytes(self@.data);
        }
        put_i16(dst, self.velocity_x);
        proof {
            lemma_concat_associative(d0, e, be_i16_bytes(self@.velocity_x));
            e = e + be_i16_bytes(self@.velocity_x);
        }
        put_i16(dst, self.velocity_y);
        proof {
            lemma_concat_associative(d0, e, be_i16_bytes(self@.velocity_y));
            e = e + be_i16_bytes(self@.velocity_y);
        }
        put_i16(dst, self.velocity_z);
        proof {
            lemma_concat_associative(d0, e, be_i16_bytes(self@.velocity_z));
            e = e + be_i16_bytes(self@.velocity_z);
        }
        Ok(())
    }
}

impl Decode for ClientboundSpawnEntity {
    #[verifier::rlimit(100)]
    #[verifier::spinoff_prover]
    fn decode(src: &mut Bytes) -> (r: Result<Self, ProtocolError>) {
        let entity_id = VarInt::decode(src)?;
        need(src, 53)?;
        let object_uuid = get_uuid(src);
        let kind = get_u8(src);
        let x = get_u64(src);
        let y = get_u64(src);
        let z = get_u64(src);
        let yaw = get_u8(src);
        let pitch = get_u8(src);
        let data = get_i32(src);
        let velocity_x = get_i16(src);
        let velocity_y = get_i16(src);
        let velocity_z = get_i16(src);
        Ok(Self { entity_id, object_uuid, kind, x, y, z, yaw, pitch, data, velocity_x, velocity_y, velocity_z })
    }
}

// ── ClientboundKeepAlive ──────────────────────────────────────────────

#[derive(Debug, Clone, PartialEq)]
pub struct ClientboundKeepAlive {
    pub keep_alive_id: i64,
}

impl View for ClientboundKeepAlive {
    type V = ClientboundKeepAlive;

    open spec fn view(&self) -> ClientboundKeepAlive {
        *self
    }
}

impl PacketId for ClientboundKeepAlive {
    open spec fn spec_packet_id(ver: u32) -> u8 {
        0x1F
    }

    fn packet_id(_ver: u32) -> (r: u8) {
        0x1F
    }
}

impl WireFormat for ClientboundKeepAlive {
    open spec fn spec_encode(p: ClientboundKeepAlive) -> Seq<u8> {
        be_i64_bytes(p.keep_alive_id)
    }

    open spec fn spec_decode(s: Seq<u8>) -> Parsed<ClientboundKeepAlive> {
        then(need_spec(s, 8), |_u: (), s: Seq<u8>| then(take_i64(s), |keep_alive_id: i64, s: Seq<u8>| (Ok(ClientboundKeepAlive { keep_alive_id }), s)))
    }
}

impl Roundtrip for ClientboundKeepAlive {
    open spec fn encodable(p: ClientboundKeepAlive) -> bool {
        true
    }

    open spec fn reads_to_end() -> bool {
        false
    }

    proof fn lemma_roundtrip(p: ClientboundKeepAlive, rest: Seq<u8>) {
        broadcast use group_wire_roundtrip;

    }
}

impl Encode for ClientboundKeepAlive {
    fn encode(&self, dst: &mut BytesMut) -> (r: Result<(), ProtocolError>) {
        let ghost d0 = bytes_mut_data(*dst);
        put_i64(dst, self.keep_alive_id);
        let ghost mut e: Seq<u8> = be_i64_bytes(self@.keep_alive_id);
        Ok(())
    }
}

impl Decode for ClientboundKeepAlive {
    fn decode(src: &mut Bytes) -> (r: Result<Self, ProtocolError>) {
        need(src, 8)?;
        let keep_alive_id = get_i64(src);
        Ok(Self { keep_alive_id })
    }
}

// ── ServerboundKeepAlive ──────────────────────────────────────────────

#[derive(Debug, Clone, PartialEq)]
pub struct ServerboundKeepAlive {
    pub keep_alive_id: i64,
}

impl View for ServerboundKeepAlive {
    type V = ServerboundKeepAlive;

    open spec fn view(&self) -> ServerboundKeepAlive {
        *self
    }
}

impl PacketId for ServerboundKeepAlive {
    open spec fn spec_packet_id(ver: u32) -> u8 {
        0x0B
    }

    fn packet_id(_ver: u32) -> (r: u8) {
        0x0B
    }
}

impl WireFormat for ServerboundKeepAlive {
    open spec fn spec_encode(p: ServerboundKeepAlive) -> Seq<u8> {
        be_i64_bytes(p.keep_alive_id)
    }

    open spec fn spec_decode(s: Seq<u8>) -> Parsed<ServerboundKeepAlive> {
        then(need_spec(s, 8), |_u: (), s: Seq<u8>| then(take_i64(s), |keep_alive_id: i64, s: Seq<u8>| (Ok(ServerboundKeepAlive { keep_alive_id }), s)))
    }
}

impl Roundtrip for ServerboundKeepAlive {
    open spec fn encodable(p: ServerboundKeepAlive) -> bool {
        true
    }

    open spec fn reads_to_end() -> bool {
        false
    }

    proof fn lemma_roundtrip(p: ServerboundKeepAlive, rest: Seq<u8>) {
        broadcast use group_wire_roundtrip;

    }
}

impl Encode for ServerboundKeepAlive {
    fn encode(&self, dst: &mut BytesMut) -> (r: Result<(), ProtocolError>) {
        let ghost d0 = bytes_mut_data(*dst);
        put_i64(dst, self.keep_alive_id);
        let ghost mut e: Seq<u8> = be_i64_bytes(self@.keep_alive_id);
        Ok(())
    }
}

impl Decode for ServerboundKeepAlive {
    fn decode(src: &mut Bytes) -> (r: Result<Self, ProtocolError>) {
        need(src, 8)?;
        let keep_alive_id = get_i64(src);
        Ok(Self { keep_alive_id })
    }
}

// ── ClientboundChatMessage ────────────────────────────────────────────

#[derive(Debug, Clone, PartialEq)]
pub struct ClientboundChatMessage {
    pub json_message: String,
    pub position: u8,
}

pub struct ClientboundChatMessageView {
    pub json_message: Seq<char>,
    pub position: u8,
}

impl View for ClientboundChatMessage {
    type V = ClientboundChatMessageView;

    open spec fn view(&self) -> ClientboundChatMessageView {
        ClientboundChatMessageView {
            json_message: self.json_message@,
            position: self.position,
        }
    }
}

impl PacketId for ClientboundChatMessage {
    open spec fn spec_packet_id(ver: u32) -> u8 {
        0x0F
    }

    fn packet_id(_ver: u32) -> (r: u8) {
        0x0F
    }
}

impl WireFormat for ClientboundChatMessage {
    open spec fn spec_encode(p: ClientboundChatMessageView) -> Seq<u8> {
        string_wire(p.json_message) + seq![p.position]
    }

    open spec fn spec_decode(s: Seq<u8>) -> Parsed<ClientboundChatMessageView> {
        then(str_spec(s, "ClientboundChatMessage json_message"@), |json_message: Seq<char>, s: Seq<u8>| then(need_spec(s, 1), |_u: (), s: Seq<u8>| then(take_u8(s), |position: u8, s: Seq<u8>| (Ok(ClientboundChatMessageView { json_message, position }), s))))
    }
}

impl Roundtrip for ClientboundChatMessage {
    open spec fn encodable(p: ClientboundChatMessageView) -> bool {
        string_fits(p.json_message)
    }

    open spec fn reads_to_end() -> bool {
        false
    }

    proof fn lemma_roundtrip(p: ClientboundChatMessageView, rest: Seq<u8>) {
        broadcast use group_wire_roundtrip;

        let t1 = seq![p.position] + rest;
        lemma_concat_associative(string_wire(p.json_message), seq![p.position], rest);
        lemma_string_roundtrip(p.json_message, t1, missing_for("ClientboundChatMessage json_message"@), invalid_in("ClientboundChatMessage json_message"@));
    }
}

impl Encode for ClientboundChatMessage {
    fn encode(&self, dst: &mut BytesMut) -> (r: Result<(), ProtocolError>) {
        let ghost d0 = bytes_mut_data(*dst);
        encode_str(self.json_message.as_str(), dst);
        let ghost mut e: Seq<u8> = string_wire(self@.json_message);
        put_u8(dst, self.position);
        proof {
            lemma_concat_associative(d0, e, seq![self@.position]);
            e = e + seq![self@.position];
        }
        Ok(())
    }
}

impl Decode for ClientboundChatMessage {
    fn decode(src: &mut Bytes) -> (r: Result<Self, ProtocolError>) {
        let json_message = decode_str(src, "ClientboundChatMessage json_message")?;
        need(src, 1)?;
        let position = get_u8(src);
        Ok(Self { json_message, position })
    }
}

// ── ServerboundChatMessage ────────────────────────────────────────────

#[derive(Debug, Clone, PartialEq)]
pub struct ServerboundChatMessage {
    pub message: String,
}

pub struct ServerboundChatMessageView {
    pub message: Seq<char>,
}

impl View for ServerboundChatMessage {
    type V = ServerboundChatMessageView;

    open spec fn view(&self) -> ServerboundChatMessageView {
        ServerboundChatMessageView {
            message: self.message@,
        }
    }
}

impl PacketId for ServerboundChatMessage {
    open spec fn spec_packet_id(ver: u32) -> u8 {
        0x02
    }

    fn packet_id(_ver: u32) -> (r: u8) {
        0x02
    }
}

impl WireFormat for ServerboundChatMessage {
    open spec fn spec_encode(p: ServerboundChatMessageView) -> Seq<u8> {
        string_wire(p.message)
    }

    open spec fn spec_decode(s: Seq<u8>) -> Parsed<ServerboundChatMessageView> {
        then(str_spec(s, "ServerboundChatMessage message"@), |message: Seq<char>, s: Seq<u8>| (Ok(ServerboundChatMessageView { message }), s))
    }
}

impl Roundtrip for ServerboundChatMessage {
    open spec fn encodable(p: ServerboundChatMessageView) -> bool {
        string_fits(p.message)
    }

    open spec fn reads_to_end() -> bool {
        false
    }

    proof fn lemma_roundtrip(p: ServerboundChatMessageView, rest: Seq<u8>) {
        broadcast use group_wire_roundtrip;

        lemma_string_roundtrip(p.message, rest, missing_for("ServerboundChatMessage message"@), invalid_in("ServerboundChatMessage message"@));
    }
}

impl Encode for ServerboundChatMessage {
    fn encode(&self, dst: &mut BytesMut) -> (r: Result<(), ProtocolError>) {
        let ghost d0 = bytes_mut_data(*dst);
        encode_str(self.message.as_str(), dst);
        let ghost mut e: Seq<u8> = string_wire(self@.message);
        Ok(())
    }
}

impl Decode for ServerboundChatMessage {
    fn decode(src: &mut Bytes) -> (r: Result<Self, ProtocolError>) {
        let message = decode_str(src, "ServerboundChatMessage message")?;
        Ok(Self { message })
    }
}

// ── ServerboundMovePlayerPos ──────────────────────────────────────────

#[derive(Debug, Clone, PartialEq)]
pub struct ServerboundMovePlayerPos {
    /// The bits of the `f64` value (`f64::to_bits`).
    pub x: u64,
    /// The bits of the `f64` value (`f64::to_bits`).
    pub feet_y: u64,
    /// The bits of the `f64` value (`f64::to_bits`).
    pub z: u64,
    pub on_ground: bool,
}

impl View for ServerboundMovePlayerPos {
    type V = ServerboundMovePlayerPos;

    open spec fn view(&self) -> ServerboundMovePlayerPos {
        *self
    }
}

impl PacketId for ServerboundMovePlayerPos {
    open spec fn spec_packet_id(ver: u32) -> u8 {
        0x0C
    }

    fn packet_id(_ver: u32) -> (r: u8) {
        0x0C
    }
}

impl WireFormat for ServerboundMovePlayerPos {
    open spec fn spec_encode(p: ServerboundMovePlayerPos) -> Seq<u8> {
        be_u64_bytes(p.x) + be_u64_bytes(p.feet_y) + be_u64_bytes(p.z) + seq![bool_byte(p.on_ground)]
    }

    open spec fn spec_decode(s: Seq<u8>) -> Parsed<ServerboundMovePlayerPos> {
        then(need_spec(s, 25), |_u: (), s: Seq<u8>| then(take_u64(s), |x: u64, s: Seq<u8>| then(take_u64(s), |feet_y: u64, s: Seq<u8>| then(take_u64(s), |z: u64, s: Seq<u8>| then(take_bool(s), |on_ground: bool, s: Seq<u8>| (Ok(ServerboundMovePlayerPos { x, feet_y, z, on_ground }), s))))))
    }
}

impl Roundtrip for ServerboundMovePlayerPos {
    open spec fn encodable(p: ServerboundMovePlayerPos) -> bool {
        true
    }

    open spec fn reads_to_end() -> bool {
        false
    }

    proof fn lemma_roundtrip(p: ServerboundMovePlayerPos, rest: Seq<u8>) {
        broadcast use group_wire_roundtrip;

        let t3 = seq![bool_byte(p.on_ground)] + rest;
        let t2 = be_u64_bytes(p.z) + t3;
        let t1 = be_u64_bytes(p.feet_y) + t2;
        lemma_concat_associative(be_u64_bytes(p.x) + be_u64_bytes(p.feet_y) + be_u64_bytes(p.z), seq![bool_byte(p.on_ground)], rest);
        lemma_concat_associative(be_u64_bytes(p.x) + be_u64_bytes(p.feet_y), be_u64_bytes(p.z), t3);
        lemma_concat_associative(be_u64_bytes(p.x), be_u64_bytes(p.feet_y), t2);
    }
}

impl Encode for ServerboundMovePlayerPos {
    fn encode(&self, dst: &mut BytesMut) -> (r: Result<(), ProtocolError>) {
        let ghost d0 = bytes_mut_data(*dst);
        put_u64(dst, self.x);
        let ghost mut e: Seq<u8> = be_u64_bytes(self@.x);
        put_u64(dst, self.feet_y);
        proof {
            lemma_concat_associative(d0, e, be_u64_bytes(self@.feet_y));
            e = e + be_u64_bytes(self@.feet_y);
        }
        put_u64(dst, self.z);
        proof {
            lemma_concat_associative(d0, e, be_u64_bytes(self@.z));
            e = e + be_u64_bytes(self@.z);
        }
        put_u8(dst, self.on_ground as u8);
        proof {
            lemma_concat_associative(d0, e, seq![bool_byte(self@.on_ground)]);
            e = e + seq![bool_byte(self@.on_ground)];
        }
        Ok(())
    }
}

impl Decode for ServerboundMovePlayerPos {
    fn decode(src: &mut Bytes) -> (r: Result<Self, ProtocolError>) {
        need(src, 25)?;
        let x = get_u64(src);
        let feet_y = get_u64(src);
        let z = get_u64(src);
        let on_ground = get_u8(src) != 0;
        Ok(Self { x, feet_y, z, on_ground })
    }
}

// ── ServerboundMovePlayerRot ──────────────────────────────────────────

#[derive(Debug, Clone, PartialEq)]
pub struct ServerboundMovePlayerRot {
    /// The bits of the `f32` value (`f32::to_bits`).
    pub yaw: u32,
    /// The bits of the `f32` value (`f32::to_bits`).
    pub pitch: u32,
    pub on_ground: bool,
}

impl View for ServerboundMovePlayerRot {
    type V = ServerboundMovePlayerRot;

    open spec fn view(&self) -> ServerboundMovePlayerRot {
        *self
    }
}

impl PacketId for ServerboundMovePlayerRot {
    open spec fn spec_packet_id(ver: u32) -> u8 {
        0x0E
    }

    fn packet_id(_ver: u32) -> (r: u8) {
        0x0E
    }
}

impl WireFormat for ServerboundMovePlayerRot {
    open spec fn spec_encode(p: ServerboundMovePlayerRot) -> Seq<u8> {
        be_u32_bytes(p.yaw) + be_u32_bytes(p.pitch) + seq![bool_byte(p.on_ground)]
    }

    open spec fn spec_decode(s: Seq<u8>) -> Parsed<ServerboundMovePlayerRot> {
        then(need_spec(s, 9), |_u: (), s: Seq<u8>| then(take_u32(s), |yaw: u32, s: Seq<u8>| then(take_u32(s), |pitch: u32, s: Seq<u8>| then(take_bool(s), |on_ground: bool, s: Seq<u8>| (Ok(ServerboundMovePlayerRot { yaw, pitch, on_ground }), s)))))
    }
}

impl Roundtrip for ServerboundMovePlayerRot {
    open spec fn encodable(p: ServerboundMovePlayerRot) -> bool {
        true
    }

    open spec fn reads_to_end() -> bool {
        false
    }

    proof fn lemma_roundtrip(p: ServerboundMovePlayerRot, rest: Seq<u8>) {
        broadcast use group_wire_roundtrip;

        let t2 = seq![bool_byte(p.on_ground)] + rest;
        let t1 = be_u32_bytes(p.pitch) + t2;
        lemma_concat_associative(be_u32_bytes(p.yaw) + be_u32_bytes(p.pitch), seq![bool_byte(p.on_ground)], rest);
        lemma_concat_associative(be_u32_bytes(p.yaw), be_u32_bytes(p.pitch), t2);
    }
}

impl Encode for ServerboundMovePlayerRot {
    fn encode(&self, dst: &mut BytesMut) -> (r: Result<(), ProtocolError>) {
        let ghost d0 = bytes_mut_data(*dst);
        put_u32(dst, self.yaw);
        let ghost mut e: Seq<u8> = be_u32_bytes(self@.yaw);
        put_u32(dst, self.pitch);
        proof {
            lemma_concat_associative(d0, e, be_u32_bytes(self@.pitch));
            e = e + be_u32_bytes(self@.pitch);
        }
        put_u8(dst, self.on_ground as u8);
        proof {
            lemma_concat_associative(d0, e, seq![bool_byte(self@.on_ground)]);
            e = e + seq![bool_byte(self@.on_ground)];
        }
        Ok(())
    }
}

impl Decode for ServerboundMovePlayerRot {
    fn decode(src: &mut Bytes) -> (r: Result<Self, ProtocolError>) {
        need(src, 9)?;
        let yaw = get_u32(src);
        let pitch = get_u32(src);
        let on_ground = get_u8(src) != 0;
        Ok(Self { yaw, pitch, on_ground })
    }
}

// ── ServerboundMovePlayerPosRot ───────────────────────────────────────

#[derive(Debug, Clone, PartialEq)]
pub struct ServerboundMovePlayerPosRot {
    /// The bits of the `f64` value (`f64::to_bits`).
    pub x: u64,
    /// The bits of the `f64` value (`f64::to_bits`).
    pub feet_y: u64,
    /// The bits of the `f64` value (`f64::to_bits`).
    pub z: u64,
    /// The bits of the `f32` value (`f32::to_bits`).
    pub yaw: u32,
    /// The bits of the `f32` value (`f32::to_bits`).
    pub pitch: u32,
    pub on_ground: bool,
}

impl View for ServerboundMovePlayerPosRot {
    type V = ServerboundMovePlayerPosRot;

    open spec fn view(&self) -> ServerboundMovePlayerPosRot {
        *self
    }
}

impl PacketId for ServerboundMovePlayerPosRot {
    open spec fn spec_packet_id(ver: u32) -> u8 {
        0x0D
    }

    fn packet_id(_ver: u32) -> (r: u8) {
        0x0D
    }
}

impl WireFormat for ServerboundMovePlayerPosRot {
    open spec fn spec_encode(p: ServerboundMovePlayerPosRot) -> Seq<u8> {
        be_u64_bytes(p.x) + be_u64_bytes(p.feet_y) + be_u64_bytes(p.z) + be_u32_bytes(p.yaw) + be_u32_bytes(p.pitch) + seq![bool_byte(p.on_ground)]
    }

    open spec fn spec_decode(s: Seq<u8>) -> Parsed<ServerboundMovePlayerPosRot> {
        then(need_spec(s, 33), |_u: (), s: Seq<u8>| then(take_u64(s), |x: u64, s: Seq<u8>| then(take_u64(s), |feet_y: u64, s: Seq<u8>| then(take_u64(s), |z: u64, s: Seq<u8>| then(take_u32(s), |yaw: u32, s: Seq<u8>| then(take_u32(s), |pitch: u32, s: Seq<u8>| then(take_bool(s), |on_ground: bool, s: Seq<u8>| (Ok(ServerboundMovePlayerPosRot { x, feet_y, z, yaw, pitch, on_ground }), s))))))))
    }
}

impl Roundtrip for ServerboundMovePlayerPosRot {
    open spec fn encodable(p: ServerboundMovePlayerPosRot) -> bool {
        true
    }

    open spec fn reads_to_end() -> bool {
        false
    }

    #[verifier::rlimit(100)]
    #[verifier::spinoff_prover]
    proof fn lemma_roundtrip(p: ServerboundMovePlayerPosRot, rest: Seq<u8>) {
        broadcast use group_wire_roundtrip;

        let t5 = seq![bool_byte(p.on_ground)] + rest;
        let t4 = be_u32_bytes(p.pitch) + t5;
        let t3 = be_u32_bytes(p.yaw) + t4;
        let t2 = be_u64_bytes(p.z) + t3;
        let t1 = be_u64_bytes(p.feet_y) + t2;
        lemma_concat_associative(be_u64_bytes(p.x) + be_u64_bytes(p.feet_y) + be_u64_bytes(p.z) + be_u32_bytes(p.yaw) + be_u32_bytes(p.pitch), seq![bool_byte(p.on_ground)], rest);
        lemma_concat_associative(be_u64_bytes(p.x) + be_u64_bytes(p.feet_y) + be_u64_bytes(p.z) + be_u32_bytes(p.yaw), be_u32_bytes(p.pitch), t5);
        lemma_concat_associative(be_u64_bytes(p.x) + be_u64_bytes(p.feet_y) + be_u64_bytes(p.z), be_u32_bytes(p.yaw), t4);
        lemma_concat_associative(be_u64_bytes(p.x) + be_u64_bytes(p.feet_y), be_u64_bytes(p.z), t3);
        lemma_concat_associative(be_u64_bytes(p.x), be_u64_bytes(p.feet_y), t2);
    }
}

impl Encode for ServerboundMovePlayerPosRot {
    fn encode(&self, dst: &mut BytesMut) -> (r: Result<(), ProtocolError>) {
        let ghost d0 = bytes_mut_data(*dst);
        put_u64(dst, self.x);
        let ghost mut e: Seq<u8> = be_u64_bytes(self@.x);
        put_u64(dst, self.feet_y);
        proof {
            lemma_concat_associative(d0, e, be_u64_bytes(self@.feet_y));
            e = e + be_u64_bytes(self@.feet_y);
        }
        put_u64(dst, self.z);
        proof {
            lemma_concat_associative(d0, e, be_u64_bytes(self@.z));
            e = e + be_u64_bytes(self@.z);
        }
        put_u32(dst, self.yaw);
        proof {
            lemma_concat_associative(d0, e, be_u32_bytes(self@.yaw));
            e = e + be_u32_bytes(self@.yaw);
        }
        put_u32(dst, self.pitch);
        proof {
            lemma_concat_associative(d0, e, be_u32_bytes(self@.pitch));
            e = e + be_u32_bytes(self@.pitch);
        }
        put_u8(dst, self.on_ground as u8);
        proof {
            lemma_concat_associative(d0, e, seq![bool_byte(self@.on_ground)]);
            e = e + seq![bool_byte(self@.on_ground)];
        }
        Ok(())
    }
}

impl Decode for ServerboundMovePlayerPosRot {
    fn decode(src: &mut Bytes) -> (r: Result<Self, ProtocolError>) {
        need(src, 33)?;
        let x = get_u64(src);
        let feet_y = get_u64(src);
        let z = get_u64(src);
        let yaw = get_u32(src);
        let pitch = get_u32(src);
        let on_ground = get_u8(src) != 0;
        Ok(Self { x, feet_y, z, yaw, pitch, on_ground })
    }
}

// ── ClientboundPluginMessage ──────────────────────────────────────────

#[derive(Debug, Clone, PartialEq)]
pub struct ClientboundPluginMessage {
    pub channel: String,
    pub data: Vec<u8>,
}

pub struct ClientboundPluginMessageView {
    pub channel: Seq<char>,
    pub data: Seq<u8>,
}

impl View for ClientboundPluginMessage {
    type V = ClientboundPluginMessageView;

    open spec fn view(&self) -> ClientboundPluginMessageView {
        ClientboundPluginMessageView {
            channel: self.channel@,
            data: self.data@,
        }
    }
}

impl PacketId for ClientboundPluginMessage {
    open spec fn spec_packet_id(ver: u32) -> u8 {
        0x18
    }

    fn packet_id(_ver: u32) -> (r: u8) {
        0x18
    }
}

impl WireFormat for ClientboundPluginMessage {
    open spec fn spec_encode(p: ClientboundPluginMessageView) -> Seq<u8> {
        string_wire(p.channel) + p.data
    }

    open spec fn spec_decode(s: Seq<u8>) -> Parsed<ClientboundPluginMessageView> {
        then(str_spec(s, "ClientboundPluginMessage channel"@), |channel: Seq<char>, s: Seq<u8>| then(take_rest(s), |data: Seq<u8>, s: Seq<u8>| (Ok(ClientboundPluginMessageView { channel, data }), s)))
    }
}

impl Roundtrip for ClientboundPluginMessage {
    open spec fn encodable(p: ClientboundPluginMessageView) -> bool {
        string_fits(p.channel)
    }

    open spec fn reads_to_end() -> bool {
        true
    }

    proof fn lemma_roundtrip(p: ClientboundPluginMessageView, rest: Seq<u8>) {
        broadcast use group_wire_roundtrip;

        let t1 = p.data + rest;
        lemma_concat_associative(string_wire(p.channel), p.data, rest);
        lemma_string_roundtrip(p.channel, t1, missing_for("ClientboundPluginMessage channel"@), invalid_in("ClientboundPluginMessage channel"@));
        assert(p.data + rest =~= p.data);
    }
}

impl Encode for ClientboundPluginMessage {
    fn encode(&self, dst: &mut BytesMut) -> (r: Result<(), ProtocolError>) {
        let ghost d0 = bytes_mut_data(*dst);
        encode_str(self.channel.as_str(), dst);
        let ghost mut e: Seq<u8> = string_wire(self@.channel);
        put_slice(dst, self.data.as_slice());
        proof {
            lemma_concat_associative(d0, e, self@.data);
            e = e + self@.data;
        }
        Ok(())
    }
}

impl Decode for ClientboundPluginMessage {
    fn decode(src: &mut Bytes) -> (r: Result<Self, ProtocolError>) {
        let channel = decode_str(src, "ClientboundPluginMessage channel")?;
        let data = take_remaining(src);
        Ok(Self { channel, data })
    }
}

// ── ServerboundPluginMessage ──────────────────────────────────────────

#[derive(Debug, Clone, PartialEq)]
pub struct ServerboundPluginMessage {
    pub channel: String,
    pub data: Vec<u8>,
}

pub struct ServerboundPluginMessageView {
    pub channel: Seq<char>,
    pub data: Seq<u8>,
}

impl View for ServerboundPluginMessage {
    type V = ServerboundPluginMessageView;

    open spec fn view(&self) -> ServerboundPluginMessageView {
        ServerboundPluginMessageView {
            channel: self.channel@,
            data: self.data@,
        }
    }
}

impl PacketId for ServerboundPluginMessage {
    open spec fn spec_packet_id(ver: u32) -> u8 {
        0x09
    }

    fn packet_id(_ver: u32) -> (r: u8) {
        0x09
    }
}

impl WireFormat for ServerboundPluginMessage {
    open spec fn spec_encode(p: ServerboundPluginMessageView) -> Seq<u8> {
        string_wire(p.channel) + p.data
    }

    open spec fn spec_decode(s: Seq<u8>) -> Parsed<ServerboundPluginMessageView> {
        then(str_spec(s, "ServerboundPluginMessage channel"@), |channel: Seq<char>, s: Seq<u8>| then(take_rest(s), |data: Seq<u8>, s: Seq<u8>| (Ok(ServerboundPluginMessageView { channel, data }), s)))
    }
}

impl Roundtrip for ServerboundPluginMessage {
    open spec fn encodable(p: ServerboundPluginMessageView) -> bool {
        string_fits(p.channel)
    }

    open spec fn reads_to_end() -> bool {
        true
    }

    proof fn lemma_roundtrip(p: ServerboundPluginMessageView, rest: Seq<u8>) {
        broadcast use group_wire_roundtrip;

        let t1 = p.data + rest;
        lemma_concat_associative(string_wire(p.channel), p.data, rest);
        lemma_string_roundtrip(p.channel, t1, missing_for("ServerboundPluginMessage channel"@), invalid_in("ServerboundPluginMessage channel"@));
        assert(p.data + rest =~= p.data);
    }
}

impl Encode for ServerboundPluginMessage {
    fn encode(&self, dst: &mut BytesMut) -> (r: Result<(), ProtocolError>) {
        let ghost d0 = bytes_mut_data(*dst);
        encode_str(self.channel.as_str(), dst);
        let ghost mut e: Seq<u8> = string_wire(self@.channel);
        put_slice(dst, self.data.as_slice());
        proof {
            lemma_concat_associative(d0, e, self@.data);
            e = e + self@.data;
        }
        Ok(())
    }
}

impl Decode for ServerboundPluginMessage {
    fn decode(src: &mut Bytes) -> (r: Result<Self, ProtocolError>) {
        let channel = decode_str(src, "ServerboundPluginMessage channel")?;
        let data = take_remaining(src);
        Ok(Self { channel, data })
    }
}

// ── ClientboundDisconnect ─────────────────────────────────────────────

#[derive(Debug, Clone, PartialEq)]
pub struct ClientboundDisconnect {
    pub reason: String,
}

pub struct ClientboundDisconnectView {
    pub reason: Seq<char>,
}

impl View for ClientboundDisconnect {
    type V = ClientboundDisconnectView;

    open spec fn view(&self) -> ClientboundDisconnectView {
        ClientboundDisconnectView {
            reason: self.reason@,
        }
    }
}

impl PacketId for ClientboundDisconnect {
    open spec fn spec_packet_id(ver: u32) -> u8 {
        0x1A
    }

    fn packet_id(_ver: u32) -> (r: u8) {
        0x1A
    }
}

impl WireFormat for ClientboundDisconnect {
    open spec fn spec_encode(p: ClientboundDisconnectView) -> Seq<u8> {
        string_wire(p.reason)
    }

    open spec fn spec_decode(s: Seq<u8>) -> Parsed<ClientboundDisconnectView> {
        then(str_spec(s, "ClientboundDisconnect reason"@), |reason: Seq<char>, s: Seq<u8>| (Ok(ClientboundDisconnectView { reason }), s))
    }
}

impl Roundtrip for ClientboundDisconnect {
    open spec fn encodable(p: ClientboundDisconnectView) -> bool {
        string_fits(p.reason)
    }

    open spec fn reads_to_end() -> bool {
        false
    }

    proof fn lemma_roundtrip(p: ClientboundDisconnectView, rest: Seq<u8>) {
        broadcast use group_wire_roundtrip;

        lemma_string_roundtrip(p.reason, rest, missing_for("ClientboundDisconnect reason"@), invalid_in("ClientboundDisconnect reason"@));
    }
}

impl Encode for ClientboundDisconnect {
    fn encode(&self, dst: &mut BytesMut) -> (r: Result<(), ProtocolError>) {
        let ghost d0 = bytes_mut_data(*dst);
        encode_str(self.reason.as_str(), dst);
        let ghost mut e: Seq<u8> = string_wire(self@.reason);
        Ok(())
    }
}

impl Decode for ClientboundDisconnect {
    fn decode(src: &mut Bytes) -> (r: Result<Self, ProtocolError>) {
        let reason = decode_str(src, "ClientboundDisconnect reason")?;
        Ok(Self { reason })
    }
}

// ── ClientboundPlayerAbilities ────────────────────────────────────────

#[derive(Debug, Clone, PartialEq)]
pub struct ClientboundPlayerAbilities {
    pub flags: u8,
    /// The bits of the `f32` value (`f32::to_bits`).
    pub flying_speed: u32,
    /// The bits of the `f32` value (`f32::to_bits`).
    pub walking_speed: u32,
}

impl View for ClientboundPlayerAbilities {
    type V = ClientboundPlayerAbilities;

    open spec fn view(&self) -> ClientboundPlayerAbilities {
        *self
    }
}

impl PacketId for ClientboundPlayerAbilities {
    open spec fn spec_packet_id(ver: u32) -> u8 {
        0x2C
    }

    fn packet_id(_ver: u32) -> (r: u8) {
        0x2C
    }
}

impl WireFormat for ClientboundPlayerAbilities {
    open spec fn spec_encode(p: ClientboundPlayerAbilities) -> Seq<u8> {
        seq![p.flags] + be_u32_bytes(p.flying_speed) + be_u32_bytes(p.walking_speed)
    }

    open spec fn spec_decode(s: Seq<u8>) -> Parsed<ClientboundPlayerAbilities> {
        then(need_spec(s, 9), |_u: (), s: Seq<u8>| then(take_u8(s), |flags: u8, s: Seq<u8>| then(take_u32(s), |flying_speed: u32, s: Seq<u8>| then(take_u32(s), |walking_speed: u32, s: Seq<u8>| (Ok(ClientboundPlayerAbilities { flags, flying_speed, walking_speed }), s)))))
    }
}

impl Roundtrip for ClientboundPlayerAbilities {
    open spec fn encodable(p: ClientboundPlayerAbilities) -> bool {
        true
    }

    open spec fn reads_to_end() -> bool {
        false
    }

    proof fn lemma_roundtrip(p: ClientboundPlayerAbilities, rest: Seq<u8>) {
        broadcast use group_wire_roundtrip;

        let t2 = be_u32_bytes(p.walking_speed) + rest;
        let t1 = be_u32_bytes(p.flying_speed) + t2;
        lemma_concat_associative(seq![p.flags] + be_u32_bytes(p.flying_speed), be_u32_bytes(p.walking_speed), rest);
        lemma_concat_associative(seq![p.flags], be_u32_bytes(p.flying_speed), t2);
    }
}

impl Encode for ClientboundPlayerAbilities {
    fn encode(&self, dst: &mut BytesMut) -> (r: Result<(), ProtocolError>) {
        let ghost d0 = bytes_mut_data(*dst);
        put_u8(dst, self.flags);
        let ghost mut e: Seq<u8> = seq![self@.flags];
        put_u32(dst, self.flying_speed);
        proof {
            lemma_concat_associative(d0, e, be_u32_bytes(self@.flying_speed));
            e = e + be_u32_bytes(self@.flying_speed);
        }
        put_u32(dst, self.walking_speed);
        proof {
            lemma_concat_associative(d0, e, be_u32_bytes(self@.walking_speed));
            e = e + be_u32_bytes(self@.walking_speed);
        }
        Ok(())
    }
}

impl Decode for ClientboundPlayerAbilities {
    fn decode(src: &mut Bytes) -> (r: Result<Self, ProtocolError>) {
        need(src, 9)?;
        let flags = get_u8(src);
        let flying_speed = get_u32(src);
        let walking_speed = get_u32(src);
        Ok(Self { flags, flying_speed, walking_speed })
    }
}

// ── ServerboundPlayerAbilities ────────────────────────────────────────

#[derive(Debug, Clone, PartialEq)]
pub struct ServerboundPlayerAbilities {
    pub flags: u8,
    /// The bits of the `f32` value (`f32::to_bits`).
    pub flying_speed: u32,
    /// The bits of the `f32` value (`f32::to_bits`).
    pub walking_speed: u32,
}

impl View for ServerboundPlayerAbilities {
    type V = ServerboundPlayerAbilities;

    open spec fn view(&self) -> ServerboundPlayerAbilities {
        *self
    }
}

impl PacketId for ServerboundPlayerAbilities {
    open spec fn spec_packet_id(ver: u32) -> u8 {
        0x12
    }

    fn packet_id(_ver: u32) -> (r: u8) {
        0x12
    }
}

impl WireFormat for ServerboundPlayerAbilities {
    open spec fn spec_encode(p: ServerboundPlayerAbilities) -> Seq<u8> {
        seq![p.flags] + be_u32_bytes(p.flying_speed) + be_u32_bytes(p.walking_speed)
    }

    open spec fn spec_decode(s: Seq<u8>) -> Parsed<ServerboundPlayerAbilities> {
        then(need_spec(s, 9), |_u: (), s: Seq<u8>| then(take_u8(s), |flags: u8, s: Seq<u8>| then(take_u32(s), |flying_speed: u32, s: Seq<u8>| then(take_u32(s), |walking_speed: u32, s: Seq<u8>| (Ok(ServerboundPlayerAbilities { flags, flying_speed, walking_speed }), s)))))
    }
}

impl Roundtrip for ServerboundPlayerAbilities {
    open spec fn encodable(p: ServerboundPlayerAbilities) -> bool {
        true
    }

    open spec fn reads_to_end() -> bool {
        false
    }

    proof fn lemma_roundtrip(p: ServerboundPlayerAbilities, rest: Seq<u8>) {
        broadcast use group_wire_roundtrip;

        let t2 = be_u32_bytes(p.walking_speed) + rest;
        let t1 = be_u32_bytes(p.flying_speed) + t2;
        lemma_concat_associative(seq![p.flags] + be_u32_bytes(p.flying_speed), be_u32_bytes(p.walking_speed), rest);
        lemma_concat_associative(seq![p.flags], be_u32_bytes(p.flying_speed), t2);
    }
}

impl Encode for ServerboundPlayerAbilities {
    fn encode(&self, dst: &mut BytesMut) -> (r: Result<(), ProtocolError>) {
        let ghost d0 = bytes_mut_data(*dst);
        put_u8(dst, self.flags);
        let ghost mut e: Seq<u8> = seq![self@.flags];
        put_u32(dst, self.flying_speed);
        proof {
            lemma_concat_associative(d0, e, be_u32_bytes(self@.flying_speed));
            e = e + be_u32_bytes(self@.flying_speed);
        }
        put_u32(dst, self.walking_speed);
        proof {
            lemma_concat_associative(d0, e, be_u32_bytes(self@.walking_speed));
            e = e + be_u32_bytes(self@.walking_speed);
        }
        Ok(())
    }
}

impl Decode for ServerboundPlayerAbilities {
    fn decode(src: &mut Bytes) -> (r: Result<Self, ProtocolError>) {
        need(src, 9)?;
        let flags = get_u8(src);
        let flying_speed = get_u32(src);
        let walking_speed = get_u32(src);
        Ok(Self { flags, flying_speed, walking_speed })
    }
}

// ── ClientboundSetCarriedItem ─────────────────────────────────────────

#[derive(Debug, Clone, PartialEq)]
pub struct ClientboundSetCarriedItem {
    pub slot: i8,
}

impl View for ClientboundSetCarriedItem {
    type V = ClientboundSetCarriedItem;

    open spec fn view(&self) -> ClientboundSetCarriedItem {
        *self
    }
}

impl PacketId for ClientboundSetCarriedItem {
    open spec fn spec_packet_id(ver: u32) -> u8 {
        0x3A
    }

    fn packet_id(_ver: u32) -> (r: u8) {
        0x3A
    }
}

impl WireFormat for ClientboundSetCarriedItem {
    open spec fn spec_encode(p: ClientboundSetCarriedItem) -> Seq<u8> {
        seq![p.slot as u8]
    }

    open spec fn spec_decode(s: Seq<u8>) -> Parsed<ClientboundSetCarriedItem> {
        then(need_spec(s, 1), |_u: (), s: Seq<u8>| then(take_i8(s), |slot: i8, s: Seq<u8>| (Ok(ClientboundSetCarriedItem { slot }), s)))
    }
}

impl Roundtrip for ClientboundSetCarriedItem {
    open spec fn encodable(p: ClientboundSetCarriedItem) -> bool {
        true
    }

    open spec fn reads_to_end() -> bool {
        false
    }

    proof fn lemma_roundtrip(p: ClientboundSetCarriedItem, rest: Seq<u8>) {
        broadcast use group_wire_roundtrip;

    }
}

impl Encode for ClientboundSetCarriedItem {
    fn encode(&self, dst: &mut BytesMut) -> (r: Result<(), ProtocolError>) {
        let ghost d0 = bytes_mut_data(*dst);
        put_i8(dst, self.slot);
        let ghost mut e: Seq<u8> = seq![self@.slot as u8];
        Ok(())
    }
}

impl Decode for ClientboundSetCarriedItem {
    fn decode(src: &mut Bytes) -> (r: Result<Self, ProtocolError>) {
        need(src, 1)?;
        let slot = get_i8(src);
        Ok(Self { slot })
    }
}

// ── ClientboundSpawnExperienceOrb ─────────────────────────────────────

#[derive(Debug, Clone, PartialEq)]
pub struct ClientboundSpawnExperienceOrb {
    pub entity_id: VarInt,
    /// The bits of the `f64` value (`f64::to_bits`).
    pub x: u64,
    /// The bits of the `f64` value (`f64::to_bits`).
    pub y: u64,
    /// The bits of the `f64` value (`f64::to_bits`).
    pub z: u64,
    pub count: i16,
}

impl View for ClientboundSpawnExperienceOrb {
    type V = ClientboundSpawnExperienceOrb;

    open spec fn view(&self) -> ClientboundSpawnExperienceOrb {
        *self
    }
}

impl PacketId for ClientboundSpawnExperienceOrb {
    open spec fn spec_packet_id(ver: u32) -> u8 {
        0x01
    }

    fn packet_id(_ver: u32) -> (r: u8) {
        0x01
    }
}

impl WireFormat for ClientboundSpawnExperienceOrb {
    open spec fn spec_encode(p: ClientboundSpawnExperienceOrb) -> Seq<u8> {
        VarInt::spec_encode(p.entity_id) + be_u64_bytes(p.x) + be_u64_bytes(p.y) + be_u64_bytes(p.z) + be_i16_bytes(p.count)
    }

    open spec fn spec_decode(s: Seq<u8>) -> Parsed<ClientboundSpawnExperienceOrb> {
        then(VarInt::spec_decode(s), |entity_id: VarInt, s: Seq<u8>| then(need_spec(s, 26), |_u: (), s: Seq<u8>| then(take_u64(s), |x: u64, s: Seq<u8>| then(take_u64(s), |y: u64, s: Seq<u8>| then(take_u64(s), |z: u64, s: Seq<u8>| then(take_i16(s), |count: i16, s: Seq<u8>| (Ok(ClientboundSpawnExperienceOrb { entity_id, x, y, z, count }), s)))))))
    }
}

impl Roundtrip for ClientboundSpawnExperienceOrb {
    open spec fn encodable(p: ClientboundSpawnExperienceOrb) -> bool {
        true
    }

    open spec fn reads_to_end() -> bool {
        false
    }

    #[verifier::rlimit(100)]
    #[verifier::spinoff_prover]
    proof fn lemma_roundtrip(p: ClientboundSpawnExperienceOrb, rest: Seq<u8>) {
        broadcast use group_wire_roundtrip;

        let t4 = be_i16_bytes(p.count) + rest;
        let t3 = be_u64_bytes(p.z) + t4;
        let t2 = be_u64_bytes(p.y) + t3;
        let t1 = be_u64_bytes(p.x) + t2;
        lemma_concat_associative(VarInt::spec_encode(p.entity_id) + be_u64_bytes(p.x) + be_u64_bytes(p.y) + be_u64_bytes(p.z), be_i16_bytes(p.count), rest);
        lemma_concat_associative(VarInt::spec_encode(p.entity_id) + be_u64_bytes(p.x) + be_u64_bytes(p.y), be_u64_bytes(p.z), t4);
        lemma_concat_associative(VarInt::spec_encode(p.entity_id) + be_u64_bytes(p.x), be_u64_bytes(p.y), t3);
        lemma_concat_associative(VarInt::spec_encode(p.entity_id), be_u64_bytes(p.x), t2);
        VarInt::lemma_roundtrip(p.entity_id, t1);
    }
}

impl Encode for ClientboundSpawnExperienceOrb {
    fn encode(&self, dst: &mut BytesMut) -> (r: Result<(), ProtocolError>) {
        let ghost d0 = bytes_mut_data(*dst);
        let _ = self.entity_id.encode(dst);
        let ghost mut e: Seq<u8> = VarInt::spec_encode(self@.entity_id);
        put_u64(dst, self.x);
        proof {
            lemma_concat_associative(d0, e, be_u64_bytes(self@.x));
            e = e + be_u64_bytes(self@.x);
        }
        put_u64(dst, self.y);
        proof {
            lemma_concat_associative(d0, e, be_u64_bytes(self@.y));
            e = e + be_u64_bytes(self@.y);
        }
        put_u64(dst, self.z);
        proof {
            lemma_concat_associative(d0, e, be_u64_bytes(self@.z));
            e = e + be_u64_bytes(self@.z);
        }
        put_i16(dst, self.count);
        proof {
            lemma_concat_associative(d0, e, be_i16_bytes(self@.count));
            e = e + be_i16_bytes(self@.count);
        }
        Ok(())
    }
}

impl Decode for ClientboundSpawnExperienceOrb {
    fn decode(src: &mut Bytes) -> (r: Result<Self, ProtocolError>) {
        let entity_id = VarInt::decode(src)?;
        need(src, 26)?;
        let x = get_u64(src);
        let y = get_u64(src);
        let z = get_u64(src);
        let count = get_i16(src);
        Ok(Self { entity_id, x, y, z, count })
    }
}

// ── ClientboundSpawnPainting ──────────────────────────────────────────

#[derive(Debug, Clone, PartialEq)]
pub struct ClientboundSpawnPainting {
    pub entity_id: VarInt,
    /// The UUID as its 128-bit value (`uuid::Uuid::as_u128`).
    pub uuid: u128,
    pub title: String,
    pub position: u64,
    pub direction: u8,
}

pub struct ClientboundSpawnPaintingView {
    pub entity_id: VarInt,
    pub uuid: u128,
    pub title: Seq<char>,
    pub position: u64,
    pub direction: u8,
}

impl View for ClientboundSpawnPainting {
    type V = ClientboundSpawnPaintingView;

    open spec fn view(&self) -> ClientboundSpawnPaintingView {
        ClientboundSpawnPaintingView {
            entity_id: self.entity_id,
            uuid: self.uuid,
            title: self.title@,
            position: self.position,
            direction: self.direction,
        }
    }
}

impl PacketId for ClientboundSpawnPainting {
    open spec fn spec_packet_id(ver: u32) -> u8 {
        0x04
    }

    fn packet_id(_ver: u32) -> (r: u8) {
        0x04
    }
}

impl WireFormat for ClientboundSpawnPainting {
    open spec fn spec_encode(p: ClientboundSpawnPaintingView) -> Seq<u8> {
        VarInt::spec_encode(p.entity_id) + uuid_wire(p.uuid) + string_wire(p.title) + be_u64_bytes(p.position) + seq![p.direction]
    }

    open spec fn spec_decode(s: Seq<u8>) -> Parsed<ClientboundSpawnPaintingView> {
        then(VarInt::spec_decode(s), |entity_id: VarInt, s: Seq<u8>| then(need_eof_spec(s, 16), |_u: (), s: Seq<u8>| then(take_uuid(s), |uuid: u128, s: Seq<u8>| then(eof_str_spec(s), |title: Seq<char>, s: Seq<u8>| then(need_eof_spec(s, 9), |_u: (), s: Seq<u8>| then(take_u64(s), |position: u64, s: Seq<u8>| then(take_u8(s), |direction: u8, s: Seq<u8>| (Ok(ClientboundSpawnPaintingView { entity_id, uuid, title, position, direction }), s))))))))
    }
}

impl Encode for ClientboundSpawnPainting {
    fn encode(&self, dst: &mut BytesMut) -> (r: Result<(), ProtocolError>) {
        let ghost d0 = bytes_mut_data(*dst);
        let _ = self.entity_id.encode(dst);
        let ghost mut e: Seq<u8> = VarInt::spec_encode(self@.entity_id);
        put_uuid(dst, self.uuid);
        proof {
            lemma_concat_associative(d0, e, uuid_wire(self@.uuid));
            e = e + uuid_wire(self@.uuid);
        }
        encode_str(self.title.as_str(), dst);
        proof {
            lemma_concat_associative(d0, e, string_wire(self@.title));
            e = e + string_wire(self@.title);
        }
        put_u64(dst, self.position);
        proof {
            lemma_concat_associative(d0, e, be_u64_bytes(self@.position));
            e = e + be_u64_bytes(self@.position);
        }
        put_u8(dst, self.direction);
        proof {
            lemma_concat_associative(d0, e, seq![self@.direction]);
            e = e + seq![self@.direction];
        }
        Ok(())
    }
}

impl Decode for ClientboundSpawnPainting {
    fn decode(src: &mut Bytes) -> (r: Result<Self, ProtocolError>) {
        let entity_id = VarInt::decode(src)?;
        need_eof(src, 16)?;
        let uuid = get_uuid(src);
        let title = decode_eof_str(src)?;
        need_eof(src, 9)?;
        let position = get_u64(src);
        let direction = get_u8(src);
        Ok(Self { entity_id, uuid, title, position, direction })
    }
}

// ── ClientboundSpawnMob ───────────────────────────────────────────────

#[derive(Debug, Clone, PartialEq)]
pub struct ClientboundSpawnMob {
    pub entity_id: VarInt,
    /// The UUID as its 128-bit value (`uuid::Uuid::as_u128`).
    pub uuid: u128,
    pub kind: VarInt,
    /// The bits of the `f64` value (`f64::to_bits`).
    pub x: u64,
    /// The bits of the `f64` value (`f64::to_bits`).
    pub y: u64,
    /// The bits of the `f64` value (`f64::to_bits`).
    pub z: u64,
    pub yaw: u8,
    pub pitch: u8,
    pub head_pitch: u8,
    pub velocity_x: i16,
    pub velocity_y: i16,
    pub velocity_z: i16,
}

impl View for ClientboundSpawnMob {
    type V = ClientboundSpawnMob;

    open spec fn view(&self) -> ClientboundSpawnMob {
        *self
    }
}

impl PacketId for ClientboundSpawnMob {
    open spec fn spec_packet_id(ver: u32) -> u8 {
        0x03
    }

    fn packet_id(_ver: u32) -> (r: u8) {
        0x03
    }
}

impl WireFormat for ClientboundSpawnMob {
    open spec fn spec_encode(p: ClientboundSpawnMob) -> Seq<u8> {
        VarInt::spec_encode(p.entity_id) + uuid_wire(p.uuid) + VarInt::spec_encode(p.kind) + be_u64_bytes(p.x) + be_u64_bytes(p.y) + be_u64_bytes(p.z) + seq![p.yaw] + seq![p.pitch] + seq![p.head_pitch] + be_i16_bytes(p.velocity_x) + be_i16_bytes(p.velocity_y) + be_i16_bytes(p.velocity_z) + seq![0xFFu8]
    }

    open spec fn spec_decode(s: Seq<u8>) -> Parsed<ClientboundSpawnMob> {
        then(VarInt::spec_decode(s), |entity_id: VarInt, s: Seq<u8>| then(need_eof_spec(s, 16), |_u: (), s: Seq<u8>| then(take_uuid(s), |uuid: u128, s: Seq<u8>| then(VarInt::spec_decode(s), |kind: VarInt, s: Seq<u8>| then(need_eof_spec(s, 33), |_u: (), s: Seq<u8>| then(take_u64(s), |x: u64, s: Seq<u8>| then(take_u64(s), |y: u64, s: Seq<u8>| then(take_u64(s), |z: u64, s: Seq<u8>| then(take_u8(s), |yaw: u8, s: Seq<u8>| then(take_u8(s), |pitch: u8, s: Seq<u8>| then(take_u8(s), |head_pitch: u8, s: Seq<u8>| then(take_i16(s), |velocity_x: i16, s: Seq<u8>| then(take_i16(s), |velocity_y: i16, s: Seq<u8>| then(take_i16(s), |velocity_z: i16, s: Seq<u8>| then(skip_rest_spec(s), |_u: (), s: Seq<u8>| (Ok(ClientboundSpawnMob { entity_id, uuid, kind, x, y, z, yaw, pitch, head_pitch, velocity_x, velocity_y, velocity_z }), s))))))))))))))))
    }
}

impl Roundtrip for ClientboundSpawnMob {
    open spec fn encodable(p: ClientboundSpawnMob) -> bool {
        true
    }

    open spec fn reads_to_end() -> bool {
        true
    }

    #[verifier::rlimit(100)]
    #[verifier::spinoff_prover]
    proof fn lemma_roundtrip(p: ClientboundSpawnMob, rest: Seq<u8>) {
        broadcast use group_wire_roundtrip;

        let t12 = seq![0xFFu8] + rest;
        let t11 = be_i16_bytes(p.velocity_z) + t12;
        let t10 = be_i16_bytes(p.velocity_y) + t11;
        let t9 = be_i16_bytes(p.velocity_x) + t10;
        let t8 = seq![p.head_pitch] + t9;
        let t7 = seq![p.pitch] + t8;
        let t6 = seq![p.yaw] + t7;
        let t5 = be_u64_bytes(p.z) + t6;
        let t4 = be_u64_bytes(p.y) + t5;
        let t3 = be_u64_bytes(p.x) + t4;
        let t2 = VarInt::spec_encode(p.kind) + t3;
        let t1 = uuid_wire(p.uuid) + t2;
        lemma_concat_associative(VarInt::spec_encode(p.entity_id) + uuid_wire(p.uuid) + VarInt::spec_encode(p.kind) + be_u64_bytes(p.x) + be_u64_bytes(p.y) + be_u64_bytes(p.z) + seq![p.yaw] + seq![p.pitch] + seq![p.head_pitch] + be_i16_bytes(p.velocity_x) + be_i16_bytes(p.velocity_y) + be_i16_bytes(p.velocity_z), seq![0xFFu8], rest);
        lemma_concat_associative(VarInt::spec_encode(p.entity_id) + uuid_wire(p.uuid) + VarInt::spec_encode(p.kind) + be_u64_bytes(p.x) + be_u64_bytes(p.y) + be_u64_bytes(p.z) + seq![p.yaw] + seq![p.pitch] + seq![p.head_pitch] + be_i16_bytes(p.velocity_x) + be_i16_bytes(p.velocity_y), be_i16_bytes(p.velocity_z), t12);
        lemma_concat_associative(VarInt::spec_encode(p.entity_id) + uuid_wire(p.uuid) + VarInt::spec_encode(p.kind) + be_u64_bytes(p.x) + be_u64_bytes(p.y) + be_u64_bytes(p.z) + seq![p.yaw] + seq![p.pitch] + seq![p.head_pitch] + be_i16_bytes(p.velocity_x), be_i16_bytes(p.velocity_y), t11);
        lemma_concat_associative(VarInt::spec_encode(p.entity_id) + uuid_wire(p.uuid) + VarInt::spec_encode(p.kind) + be_u64_bytes(p.x) + be_u64_bytes(p.y) + be_u64_bytes(p.z) + seq![p.yaw] + seq![p.pitch] + seq![p.head_pitch], be_i16_bytes(p.velocity_x), t10);
        lemma_concat_associative(VarInt::spec_encode(p.entity_id) + uuid_wire(p.uuid) + VarInt::spec_encode(p.kind) + be_u64_bytes(p.x) + be_u64_bytes(p.y) + be_u64_bytes(p.z) + seq![p.yaw] + seq![p.pitch], seq![p.head_pitch], t9);
        lemma_concat_associative(VarInt::spec_encode(p.entity_id) + uuid_wire(p.uuid) + VarInt::spec_encode(p.kind) + be_u64_bytes(p.x) + be_u64_bytes(p.y) + be_u64_bytes(p.z) + seq![p.yaw], seq![p.pitch], t8);
        lemma_concat_associative(VarInt::spec_encode(p.entity_id) + uuid_wire(p.uuid) + VarInt::spec_encode(p.kind) + be_u64_bytes(p.x) + be_u64_bytes(p.y) + be_u64_bytes(p.z), seq![p.yaw], t7);
        lemma_concat_associative(VarInt::spec_encode(p.entity_id) + uuid_wire(p.uuid) + VarInt::spec_encode(p.kind) + be_u64_bytes(p.x) + be_u64_bytes(p.y), be_u64_bytes(p.z), t6);
        lemma_concat_associative(VarInt::spec_encode(p.entity_id) + uuid_wire(p.uuid) + VarInt::spec_encode(p.kind) + be_u64_bytes(p.x), be_u64_bytes(p.y), t5);
        lemma_concat_associative(VarInt::spec_encode(p.entity_id) + uuid_wire(p.uuid) + VarInt::spec_encode(p.kind), be_u64_bytes(p.x), t4);
        lemma_concat_associative(VarInt::spec_encode(p.entity_id) + uuid_wire(p.uuid), VarInt::spec_encode(p.kind), t3);
        lemma_concat_associative(VarInt::spec_encode(p.entity_id), uuid_wire(p.uuid), t2);
        VarInt::lemma_roundtrip(p.entity_id, t1);
        lemma_take_uuid(p.uuid, t2);
        VarInt::lemma_roundtrip(p.kind, t3);
    }
}

impl ClientboundSpawnMob {
    /// Writes the fields up to `z`.
    fn encode_front(&self, dst: &mut BytesMut)
        ensures
            bytes_mut_data(*final(dst)) == bytes_mut_data(*old(dst)) + (VarInt::spec_encode(self@.entity_id) + uuid_wire(self@.uuid) + VarInt::spec_encode(self@.kind) + be_u64_bytes(self@.x) + be_u64_bytes(self@.y) + be_u64_bytes(self@.z)),
    {
        let ghost d0 = bytes_mut_data(*dst);
        let _ = self.entity_id.encode(dst);
        let ghost mut e: Seq<u8> = VarInt::spec_encode(self@.entity_id);
        put_uuid(dst, self.uuid);
        proof {
            lemma_concat_associative(d0, e, uuid_wire(self@.uuid));
            e = e + uuid_wire(self@.uuid);
        }
        let _ = self.kind.encode(dst);
        proof {
            lemma_concat_associative(d0, e, VarInt::spec_encode(self@.kind));
            e = e + VarInt::spec_encode(self@.kind);
        }
        put_u64(dst, self.x);
        proof {
            lemma_concat_associative(d0, e, be_u64_bytes(self@.x));
            e = e + be_u64_bytes(self@.x);
        }
        put_u64(dst, self.y);
        proof {
            lemma_concat_associative(d0, e, be_u64_bytes(self@.y));
            e = e + be_u64_bytes(self@.y);
        }
        put_u64(dst, self.z);
        proof {
            lemma_concat_associative(d0, e, be_u64_bytes(self@.z));
            e = e + be_u64_bytes(self@.z);
        }
    }
}

impl Encode for ClientboundSpawnMob {
    #[verifier::rlimit(100)]
    #[verifier::spinoff_prover]
    fn encode(&self, dst: &mut BytesMut) -> (r: Result<(), ProtocolError>) {
        let ghost d0 = bytes_mut_data(*dst);
        self.encode_front(dst);
        let ghost mut e: Seq<u8> = VarInt::spec_encode(self@.entity_id) + uuid_wire(self@.uuid) + VarInt::spec_encode(self@.kind) + be_u64_bytes(self@.x) + be_u64_bytes(self@.y) + be_u64_bytes(self@.z);
        put_u8(dst, self.yaw);
        proof {
            lemma_concat_associative(d0, e, seq![self@.yaw]);
            e = e + seq![self@.yaw];
        }
        put_u8(dst, self.pitch);
        proof {
            lemma_concat_associative(d0, e, seq![self@.pitch]);
            e = e + seq![self@.pitch];
        }
        put_u8(dst, self.head_pitch);
        proof {
            lemma_concat_associative(d0, e, seq![self@.head_pitch]);
            e = e + seq![self@.head_pitch];
        }
        put_i16(dst, self.velocity_x);
        proof {
            lemma_concat_associative(d0, e, be_i16_bytes(self@.velocity_x));
            e = e + be_i16_bytes(self@.velocity_x);
        }
        put_i16(dst, self.velocity_y);
        proof {
            lemma_concat_associative(d0, e, be_i16_bytes(self@.velocity_y));
            e = e + be_i16_bytes(self@.velocity_y);
        }
        put_i16(dst, self.velocity_z);
        proof {
            lemma_concat_associative(d0, e, be_i16_bytes(self@.velocity_z));
            e = e + be_i16_bytes(self@.velocity_z);
        }
        put_u8(dst, 0xFF);
        proof {
            lemma_concat_associative(d0, e, seq![0xFFu8]);
            e = e + seq![0xFFu8];
        }
        Ok(())
    }
}

impl Decode for ClientboundSpawnMob {
    #[verifier::rlimit(100)]
    #[verifier::spinoff_prover]
    fn decode(src: &mut Bytes) -> (r: Result<Self, ProtocolError>) {
        let entity_id = VarInt::decode(src)?;
        need_eof(src, 16)?;
        let uuid = get_uuid(src);
        let kind = VarInt::decode(src)?;
        need_eof(src, 33)?;
        let x = get_u64(src);
        let y = get_u64(src);
        let z = get_u64(src);
        let yaw = get_u8(src);
        let pitch = get_u8(src);
        let head_pitch = get_u8(src);
        let velocity_x = get_i16(src);
        let velocity_y = get_i16(src);
        let velocity_z = get_i16(src);
        skip_remaining(src);
        Ok(Self { entity_id, uuid, kind, x, y, z, yaw, pitch, head_pitch, velocity_x, velocity_y, velocity_z })
    }
}

// ── ClientboundSpawnPlayer ────────────────────────────────────────────

#[derive(Debug, Clone, PartialEq)]
pub struct ClientboundSpawnPlayer {
    pub entity_id: VarInt,
    /// The UUID as its 128-bit value (`uuid::Uuid::as_u128`).
    pub player_uuid: u128,
    /// The bits of the `f64` value (`f64::to_bits`).
    pub x: u64,
    /// The bits of the `f64` value (`f64::to_bits`).
    pub y: u64,
    /// The bits of the `f64` value (`f64::to_bits`).
    pub z: u64,
    pub yaw: u8,
    pub pitch: u8,
}

impl View for ClientboundSpawnPlayer {
    type V = ClientboundSpawnPlayer;

    open spec fn view(&self) -> ClientboundSpawnPlayer {
        *self
    }
}

impl PacketId for ClientboundSpawnPlayer {
    open spec fn spec_packet_id(ver: u32) -> u8 {
        0x05
    }

    fn packet_id(_ver: u32) -> (r: u8) {
        0x05
    }
}

impl WireFormat for ClientboundSpawnPlayer {
    open spec fn spec_encode(p: ClientboundSpawnPlayer) -> Seq<u8> {
        VarInt::spec_encode(p.entity_id) + uuid_wire(p.player_uuid) + be_u64_bytes(p.x) + be_u64_bytes(p.y) + be_u64_bytes(p.z) + seq![p.yaw] + seq![p.pitch]
    }

    open spec fn spec_decode(s: Seq<u8>) -> Parsed<ClientboundSpawnPlayer> {
        then(VarInt::spec_decode(s), |entity_id: VarInt, s: Seq<u8>| then(need_spec(s, 42), |_u: (), s: Seq<u8>| then(take_uuid(s), |player_uuid: u128, s: Seq<u8>| then(take_u64(s), |x: u64, s: Seq<u8>| then(take_u64(s), |y: u64, s: Seq<u8>| then(take_u64(s), |z: u64, s: Seq<u8>| then(take_u8(s), |yaw: u8, s: Seq<u8>| then(take_u8(s), |pitch: u8, s: Seq<u8>| (Ok(ClientboundSpawnPlayer { entity_id, player_uuid, x, y, z, yaw, pitch }), s)))))))))
    }
}

impl Roundtrip for ClientboundSpawnPlayer {
    open spec fn encodable(p: ClientboundSpawnPlayer) -> bool {
        true
    }

    open spec fn reads_to_end() -> bool {
        false
    }

    #[verifier::rlimit(100)]
    #[verifier::spinoff_prover]
    proof fn lemma_roundtrip(p: ClientboundSpawnPlayer, rest: Seq<u8>) {
        broadcast use group_wire_roundtrip;

        let t6 = seq![p.pitch] + rest;
        let t5 = seq![p.yaw] + t6;
        let t4 = be_u64_bytes(p.z) + t5;
        let t3 = be_u64_bytes(p.y) + t4;
        let t2 = be_u64_bytes(p.x) + t3;
        let t1 = uuid_wire(p.player_uuid) + t2;
        lemma_concat_associative(VarInt::spec_encode(p.entity_id) + uuid_wire(p.player_uuid) + be_u64_bytes(p.x) + be_u64_bytes(p.y) + be_u64_bytes(p.z) + seq![p.yaw], seq![p.pitch], rest);
        lemma_concat_associative(VarInt::spec_encode(p.entity_id) + uuid_wire(p.player_uuid) + be_u64_bytes(p.x) + be_u64_bytes(p.y) + be_u64_bytes(p.z), seq![p.yaw], t6);
        lemma_concat_associative(VarInt::spec_encode(p.entity_id) + uuid_wire(p.player_uuid) + be_u64_bytes(p.x) + be_u64_bytes(p.y), be_u64_bytes(p.z), t5);
        lemma_concat_associative(VarInt::spec_encode(p.entity_id) + uuid_wire(p.player_uuid) + be_u64_bytes(p.x), be_u64_bytes(p.y), t4);
        lemma_concat_associative(VarInt::spec_encode(p.entity_id) + uuid_wire(p.player_uuid), be_u64_bytes(p.x), t3);
        lemma_concat_associative(VarInt::spec_encode(p.entity_id), uuid_wire(p.player_uuid), t2);
        VarInt::lemma_roundtrip(p.entity_id, t1);
        lemma_take_uuid(p.player_uuid, t2);
    }
}

impl Encode for ClientboundSpawnPlayer {
    fn encode(&self, dst: &mut BytesMut) -> (r: Result<(), ProtocolError>) {
        let ghost d0 = bytes_mut_data(*dst);
        let _ = self.entity_id.encode(dst);
        let ghost mut e: Seq<u8> = VarInt::spec_encode(self@.entity_id);
        put_uuid(dst, self.player_uuid);
        proof {
            lemma_concat_associative(d0, e, uuid_wire(self@.player_uuid));
            e = e + uuid_wire(self@.player_uuid);
        }
        put_u64(dst, self.x);
        proof {
            lemma_concat_associative(d0, e, be_u64_bytes(self@.x));
            e = e + be_u64_bytes(self@.x);
        }
        put_u64(dst, self.y);
        proof {
            lemma_concat_associative(d0, e, be_u64_bytes(self@.y));
            e = e + be_u64_bytes(self@.y);
        }
        put_u64(dst, self.z);
        proof {
            lemma_concat_associative(d0, e, be_u64_bytes(self@.z));
            e = e + be_u64_bytes(self@.z);
        }
        put_u8(dst, self.yaw);
        proof {
            lemma_concat_associative(d0, e, seq![self@.yaw]);
            e = e + seq![self@.yaw];
        }
        put_u8(dst, self.pitch);
        proof {
            lemma_concat_associative(d0, e, seq![self@.pitch]);
            e = e + seq![self@.pitch];
        }
        Ok(())
    }
}

impl Decode for ClientboundSpawnPlayer {
    fn decode(src: &mut Bytes) -> (r: Result<Self, ProtocolError>) {
        let entity_id = VarInt::decode(src)?;
        need(src, 42)?;
        let player_uuid = get_uuid(src);
        let x = get_u64(src);
        let y = get_u64(src);
        let z = get_u64(src);
        let yaw = get_u8(src);
        let pitch = get_u8(src);
        Ok(Self { entity_id, player_uuid, x, y, z, yaw, pitch })
    }
}

// ── ClientboundEntityAnimation ────────────────────────────────────────

#[derive(Debug, Clone, PartialEq)]
pub struct ClientboundEntityAnimation {
    pub entity_id: VarInt,
    pub animation: u8,
}

impl View for ClientboundEntityAnimation {
    type V = ClientboundEntityAnimation;

    open spec fn view(&self) -> ClientboundEntityAnimation {
        *self
    }
}

impl PacketId for ClientboundEntityAnimation {
    open spec fn spec_packet_id(ver: u32) -> u8 {
        0x06
    }

    fn packet_id(_ver: u32) -> (r: u8) {
        0x06
    }
}

impl WireFormat for ClientboundEntityAnimation {
    open spec fn spec_encode(p: ClientboundEntityAnimation) -> Seq<u8> {
        VarInt::spec_encode(p.entity_id) + seq![p.animation]
    }

    open spec fn spec_decode(s: Seq<u8>) -> Parsed<ClientboundEntityAnimation> {
        then(VarInt::spec_decode(s), |entity_id: VarInt, s: Seq<u8>| then(need_spec(s, 1), |_u: (), s: Seq<u8>| then(take_u8(s), |animation: u8, s: Seq<u8>| (Ok(ClientboundEntityAnimation { entity_id, animation }), s))))
    }
}

impl Roundtrip for ClientboundEntityAnimation {
    open spec fn encodable(p: ClientboundEntityAnimation) -> bool {
        true
    }

    open spec fn reads_to_end() -> bool {
        false
    }

    proof fn lemma_roundtrip(p: ClientboundEntityAnimation, rest: Seq<u8>) {
        broadcast use group_wire_roundtrip;

        let t1 = seq![p.animation] + rest;
        lemma_concat_associative(VarInt::spec_encode(p.entity_id), seq![p.animation], rest);
        VarInt::lemma_roundtrip(p.entity_id, t1);
    }
}

impl Encode for ClientboundEntityAnimation {
    fn encode(&self, dst: &mut BytesMut) -> (r: Result<(), ProtocolError>) {
        let ghost d0 = bytes_mut_data(*dst);
        let _ = self.entity_id.encode(dst);
        let ghost mut e: Seq<u8> = VarInt::spec_encode(self@.entity_id);
        put_u8(dst, self.animation);
        proof {
            lemma_concat_associative(d0, e, seq![self@.animation]);
            e = e + seq![self@.animation];
        }
        Ok(())
    }
}

impl Decode for ClientboundEntityAnimation {
    fn decode(src: &mut Bytes) -> (r: Result<Self, ProtocolError>) {
        let entity_id = VarInt::decode(src)?;
        need(src, 1)?;
        let animation = get_u8(src);
        Ok(Self { entity_id, animation })
    }
}

// ── ClientboundBlockDestroyStage ──────────────────────────────────────

#[derive(Debug, Clone, PartialEq)]
pub struct ClientboundBlockDestroyStage {
    pub entity_id: VarInt,
    pub location: u64,
    pub destroy_stage: u8,
}

impl View for ClientboundBlockDestroyStage {
    type V = ClientboundBlockDestroyStage;

    open spec fn view(&self) -> ClientboundBlockDestroyStage {
        *self
    }
}

impl PacketId for ClientboundBlockDestroyStage {
    open spec fn spec_packet_id(ver: u32) -> u8 {
        0x08
    }

    fn packet_id(_ver: u32) -> (r: u8) {
        0x08
    }
}

impl WireFormat for ClientboundBlockDestroyStage {
    open spec fn spec_encode(p: ClientboundBlockDestroyStage) -> Seq<u8> {
        VarInt::spec_encode(p.entity_id) + be_u64_bytes(p.location) + seq![p.destroy_stage]
    }

    open spec fn spec_decode(s: Seq<u8>) -> Parsed<ClientboundBlockDestroyStage> {
        then(VarInt::spec_decode(s), |entity_id: VarInt, s: Seq<u8>| then(need_spec(s, 9), |_u: (), s: Seq<u8>| then(take_u64(s), |location: u64, s: Seq<u8>| then(take_u8(s), |destroy_stage: u8, s: Seq<u8>| (Ok(ClientboundBlockDestroyStage { entity_id, location, destroy_stage }), s)))))
    }
}

impl Roundtrip for ClientboundBlockDestroyStage {
    open spec fn encodable(p: ClientboundBlockDestroyStage) -> bool {
        true
    }

    open spec fn reads_to_end() -> bool {
        false
    }

    proof fn lemma_roundtrip(p: ClientboundBlockDestroyStage, rest: Seq<u8>) {
        broadcast use group_wire_roundtrip;

        let t2 = seq![p.destroy_stage] + rest;
        let t1 = be_u64_bytes(p.location) + t2;
        lemma_concat_associative(VarInt::spec_encode(p.entity_id) + be_u64_bytes(p.location), seq![p.destroy_stage], rest);
        lemma_concat_associative(VarInt::spec_encode(p.entity_id), be_u64_bytes(p.location), t2);
        VarInt::lemma_roundtrip(p.entity_id, t1);
    }
}

impl Encode for ClientboundBlockDestroyStage {
    fn encode(&self, dst: &mut BytesMut) -> (r: Result<(), ProtocolError>) {
        let ghost d0 = bytes_mut_data(*dst);
        let _ = self.entity_id.encode(dst);
        let ghost mut e: Seq<u8> = VarInt::spec_encode(self@.entity_id);
        put_u64(dst, self.location);
        proof {
            lemma_concat_associative(d0, e, be_u64_bytes(self@.location));
            e = e + be_u64_bytes(self@.location);
        }
        put_u8(dst, self.destroy_stage);
        proof {
            lemma_concat_associative(d0, e, seq![self@.destroy_stage]);
            e = e + seq![self@.destroy_stage];
        }
        Ok(())
    }
}

impl Decode for ClientboundBlockDestroyStage {
    fn decode(src: &mut Bytes) -> (r: Result<Self, ProtocolError>) {
        let entity_id = VarInt::decode(src)?;
        need(src, 9)?;
        let location = get_u64(src);
        let destroy_stage = get_u8(src);
        Ok(Self { entity_id, location, destroy_stage })
    }
}

// ── ClientboundBlockEntityData ────────────────────────────────────────

#[derive(Debug, Clone, PartialEq)]
pub struct ClientboundBlockEntityData {
    pub location: u64,
    pub action: u8,
    pub nbt: Vec<u8>,
}

pub struct ClientboundBlockEntityDataView {
    pub location: u64,
    pub action: u8,
    pub nbt: Seq<u8>,
}

impl View for ClientboundBlockEntityData {
    type V = ClientboundBlockEntityDataView;

    open spec fn view(&self) -> ClientboundBlockEntityDataView {
        ClientboundBlockEntityDataView {
            location: self.location,
            action: self.action,
            nbt: self.nbt@,
        }
    }
}

impl PacketId for ClientboundBlockEntityData {
    open spec fn spec_packet_id(ver: u32) -> u8 {
        0x09
    }

    fn packet_id(_ver: u32) -> (r: u8) {
        0x09
    }
}

impl WireFormat for ClientboundBlockEntityData {
    open spec fn spec_encode(p: ClientboundBlockEntityDataView) -> Seq<u8> {
        be_u64_bytes(p.location) + seq![p.action] + p.nbt
    }

    open spec fn spec_decode(s: Seq<u8>) -> Parsed<ClientboundBlockEntityDataView> {
        then(need_spec(s, 9), |_u: (), s: Seq<u8>| then(take_u64(s), |location: u64, s: Seq<u8>| then(take_u8(s), |action: u8, s: Seq<u8>| then(take_rest(s), |nbt: Seq<u8>, s: Seq<u8>| (Ok(ClientboundBlockEntityDataView { location, action, nbt }), s)))))
    }
}

impl Roundtrip for ClientboundBlockEntityData {
    open spec fn encodable(p: ClientboundBlockEntityDataView) -> bool {
        true
    }

    open spec fn reads_to_end() -> bool {
        true
    }

    proof fn lemma_roundtrip(p: ClientboundBlockEntityDataView, rest: Seq<u8>) {
        broadcast use group_wire_roundtrip;

        let t2 = p.nbt + rest;
        let t1 = seq![p.action] + t2;
        lemma_concat_associative(be_u64_bytes(p.location) + seq![p.action], p.nbt, rest);
        lemma_concat_associative(be_u64_bytes(p.location), seq![p.action], t2);
        assert(p.nbt + rest =~= p.nbt);
    }
}

impl Encode for ClientboundBlockEntityData {
    fn encode(&self, dst: &mut BytesMut) -> (r: Result<(), ProtocolError>) {
        let ghost d0 = bytes_mut_data(*dst);
        put_u64(dst, self.location);
        let ghost mut e: Seq<u8> = be_u64_bytes(self@.location);
        put_u8(dst, self.action);
        proof {
            lemma_concat_associative(d0, e, seq![self@.action]);
            e = e + seq![self@.action];
        }
        put_slice(dst, self.nbt.as_slice());
        proof {
            lemma_concat_associative(d0, e, self@.nbt);
            e = e + self@.nbt;
        }
        Ok(())
    }
}

impl Decode for ClientboundBlockEntityData {
    fn decode(src: &mut Bytes) -> (r: Result<Self, ProtocolError>) {
        need(src, 9)?;
        let location = get_u64(src);
        let action = get_u8(src);
        let nbt = take_remaining(src);
        Ok(Self { location, action, nbt })
    }
}

// ── ClientboundBlockAction ────────────────────────────────────────────

#[derive(Debug, Clone, PartialEq)]
pub struct ClientboundBlockAction {
    pub location: u64,
    pub action_id: u8,
    pub action_param: u8,
    pub block_type: VarInt,
}

impl View for ClientboundBlockAction {
    type V = ClientboundBlockAction;

    open spec fn view(&self) -> ClientboundBlockAction {
        *self
    }
}

impl PacketId for ClientboundBlockAction {
    open spec fn spec_packet_id(ver: u32) -> u8 {
        0x0A
    }

    fn packet_id(_ver: u32) -> (r: u8) {
        0x0A
    }
}

impl WireFormat for ClientboundBlockAction {
    open spec fn spec_encode(p: ClientboundBlockAction) -> Seq<u8> {
        be_u64_bytes(p.location) + seq![p.action_id] + seq![p.action_param] + VarInt::spec_encode(p.block_type)
    }

    open spec fn spec_decode(s: Seq<u8>) -> Parsed<ClientboundBlockAction> {
        then(need_spec(s, 10), |_u: (), s: Seq<u8>| then(take_u64(s), |location: u64, s: Seq<u8>| then(take_u8(s), |action_id: u8, s: Seq<u8>| then(take_u8(s), |action_param: u8, s: Seq<u8>| then(VarInt::spec_decode(s), |block_type: VarInt, s: Seq<u8>| (Ok(ClientboundBlockAction { location, action_id, action_param, block_type }), s))))))
    }
}

impl Roundtrip for ClientboundBlockAction {
    open spec fn encodable(p: ClientboundBlockAction) -> bool {
        true
    }

    open spec fn reads_to_end() -> bool {
        false
    }

    proof fn lemma_roundtrip(p: ClientboundBlockAction, rest: Seq<u8>) {
        broadcast use group_wire_roundtrip;

        let t3 = VarInt::spec_encode(p.block_type) + rest;
        let t2 = seq![p.action_param] + t3;
        let t1 = seq![p.action_id] + t2;
        lemma_concat_associative(be_u64_bytes(p.location) + seq![p.action_id] + seq![p.action_param], VarInt::spec_encode(p.block_type), rest);
        lemma_concat_associative(be_u64_bytes(p.location) + seq![p.action_id], seq![p.action_param], t3);
        lemma_concat_associative(be_u64_bytes(p.location), seq![p.action_id], t2);
        VarInt::lemma_roundtrip(p.block_type, rest);
    }
}

impl Encode for ClientboundBlockAction {
    fn encode(&self, dst: &mut BytesMut) -> (r: Result<(), ProtocolError>) {
        let ghost d0 = bytes_mut_data(*dst);
        put_u64(dst, self.location);
        let ghost mut e: Seq<u8> = be_u64_bytes(self@.location);
        put_u8(dst, self.action_id);
        proof {
            lemma_concat_associative(d0, e, seq![self@.action_id]);
            e = e + seq![self@.action_id];
        }
        put_u8(dst, self.action_param);
        proof {
            lemma_concat_associative(d0, e, seq![self@.action_param]);
            e = e + seq![self@.action_param];
        }
        let _ = self.block_type.encode(dst);
        proof {
            lemma_concat_associative(d0, e, VarInt::spec_encode(self@.block_type));
            e = e + VarInt::spec_encode(self@.block_type);
        }
        Ok(())
    }
}

impl Decode for ClientboundBlockAction {
    fn decode(src: &mut Bytes) -> (r: Result<Self, ProtocolError>) {
        need(src, 10)?;
        let location = get_u64(src);
        let action_id = get_u8(src);
        let action_param = get_u8(src);
        let block_type = VarInt::decode(src)?;
        Ok(Self { location, action_id, action_param, block_type })
    }
}

// ── ClientboundBlockUpdate ────────────────────────────────────────────

#[derive(Debug, Clone, PartialEq)]
pub struct ClientboundBlockUpdate {
    pub location: u64,
    pub block_id: VarInt,
}

impl View for ClientboundBlockUpdate {
    type V = ClientboundBlockUpdate;

    open spec fn view(&self) -> ClientboundBlockUpdate {
        *self
    }
}

impl PacketId for ClientboundBlockUpdate {
    open spec fn spec_packet_id(ver: u32) -> u8 {
        0x0B
    }

    fn packet_id(_ver: u32) -> (r: u8) {
        0x0B
    }
}

impl WireFormat for ClientboundBlockUpdate {
    open spec fn spec_encode(p: ClientboundBlockUpdate) -> Seq<u8> {
        be_u64_bytes(p.location) + VarInt::spec_encode(p.block_id)
    }

    open spec fn spec_decode(s: Seq<u8>) -> Parsed<ClientboundBlockUpdate> {
        then(need_spec(s, 8), |_u: (), s: Seq<u8>| then(take_u64(s), |location: u64, s: Seq<u8>| then(VarInt::spec_decode(s), |block_id: VarInt, s: Seq<u8>| (Ok(ClientboundBlockUpdate { location, block_id }), s))))
    }
}

impl Roundtrip for ClientboundBlockUpdate {
    open spec fn encodable(p: ClientboundBlockUpdate) -> bool {
        true
    }

    open spec fn reads_to_end() -> bool {
        false
    }

    proof fn lemma_roundtrip(p: ClientboundBlockUpdate, rest: Seq<u8>) {
        broadcast use group_wire_roundtrip;

        let t1 = VarInt::spec_encode(p.block_id) + rest;
        lemma_concat_associative(be_u64_bytes(p.location), VarInt::spec_encode(p.block_id), rest);
        VarInt::lemma_roundtrip(p.block_id, rest);
    }
}

impl Encode for ClientboundBlockUpdate {
    fn encode(&self, dst: &mut BytesMut) -> (r: Result<(), ProtocolError>) {
        let ghost d0 = bytes_mut_data(*dst);
        put_u64(dst, self.location);
        let ghost mut e: Seq<u8> = be_u64_bytes(self@.location);
        let _ = self.block_id.encode(dst);
        proof {
            lemma_concat_associative(d0, e, VarInt::spec_encode(self@.block_id));
            e = e + VarInt::spec_encode(self@.block_id);
        }
        Ok(())
    }
}

impl Decode for ClientboundBlockUpdate {
    fn decode(src: &mut Bytes) -> (r: Result<Self, ProtocolError>) {
        need(src, 8)?;
        let location = get_u64(src);
        let block_id = VarInt::decode(src)?;
        Ok(Self { location, block_id })
    }
}

// ── ClientboundChangeDifficulty ───────────────────────────────────────

#[derive(Debug, Clone, PartialEq)]
pub struct ClientboundChangeDifficulty {
    pub difficulty: u8,
}

impl View for ClientboundChangeDifficulty {
    type V = ClientboundChangeDifficulty;

    open spec fn view(&self) -> ClientboundChangeDifficulty {
        *self
    }
}

impl PacketId for ClientboundChangeDifficulty {
    open spec fn spec_packet_id(ver: u32) -> u8 {
        0x0D
    }

    fn packet_id(_ver: u32) -> (r: u8) {
        0x0D
    }
}

impl WireFormat for ClientboundChangeDifficulty {
    open spec fn spec_encode(p: ClientboundChangeDifficulty) -> Seq<u8> {
        seq![p.difficulty]
    }

    open spec fn spec_decode(s: Seq<u8>) -> Parsed<ClientboundChangeDifficulty> {
        then(need_spec(s, 1), |_u: (), s: Seq<u8>| then(take_u8(s), |difficulty: u8, s: Seq<u8>| (Ok(ClientboundChangeDifficulty { difficulty }), s)))
    }
}

impl Roundtrip for ClientboundChangeDifficulty {
    open spec fn encodable(p: ClientboundChangeDifficulty) -> bool {
        true
    }

    open spec fn reads_to_end() -> bool {
        false
    }

    proof fn lemma_roundtrip(p: ClientboundChangeDifficulty, rest: Seq<u8>) {
        broadcast use group_wire_roundtrip;

    }
}

impl Encode for ClientboundChangeDifficulty {
    fn encode(&self, dst: &mut BytesMut) -> (r: Result<(), ProtocolError>) {
        let ghost d0 = bytes_mut_data(*dst);
        put_u8(dst, self.difficulty);
        let ghost mut e: Seq<u8> = seq![self@.difficulty];
        Ok(())
    }
}

impl Decode for ClientboundChangeDifficulty {
    fn decode(src: &mut Bytes) -> (r: Result<Self, ProtocolError>) {
        need(src, 1)?;
        let difficulty = get_u8(src);
        Ok(Self { difficulty })
    }
}

// ── ClientboundContainerClose ─────────────────────────────────────────

#[derive(Debug, Clone, PartialEq)]
pub struct ClientboundContainerClose {
    pub window_id: u8,
}

impl View for ClientboundContainerClose {
    type V = ClientboundContainerClose;

    open spec fn view(&self) -> ClientboundContainerClose {
        *self
    }
}

impl PacketId for ClientboundContainerClose {
    open spec fn spec_packet_id(ver: u32) -> u8 {
        0x12
    }

    fn packet_id(_ver: u32) -> (r: u8) {
        0x12
    }
}

impl WireFormat for ClientboundContainerClose {
    open spec fn spec_encode(p: ClientboundContainerClose) -> Seq<u8> {
        seq![p.window_id]
    }

    open spec fn spec_decode(s: Seq<u8>) -> Parsed<ClientboundContainerClose> {
        then(need_spec(s, 1), |_u: (), s: Seq<u8>| then(take_u8(s), |window_id: u8, s: Seq<u8>| (Ok(ClientboundContainerClose { window_id }), s)))
    }
}

impl Roundtrip for ClientboundContainerClose {
    open spec fn encodable(p: ClientboundContainerClose) -> bool {
        true
    }

    open spec fn reads_to_end() -> bool {
        false
    }

    proof fn lemma_roundtrip(p: ClientboundContainerClose, rest: Seq<u8>) {
        broadcast use group_wire_roundtrip;

    }
}

impl Encode for ClientboundContainerClose {
    fn encode(&self, dst: &mut BytesMut) -> (r: Result<(), ProtocolError>) {
        let ghost d0 = bytes_mut_data(*dst);
        put_u8(dst, self.window_id);
        let ghost mut e: Seq<u8> = seq![self@.window_id];
        Ok(())
    }
}

impl Decode for ClientboundContainerClose {
    fn decode(src: &mut Bytes) -> (r: Result<Self, ProtocolError>) {
        need(src, 1)?;
        let window_id = get_u8(src);
        Ok(Self { window_id })
    }
}

// ── ClientboundOpenScreen ─────────────────────────────────────────────

#[derive(Debug, Clone, PartialEq)]
pub struct ClientboundOpenScreen {
    pub window_id: u8,
    pub window_type: String,
    pub window_title: String,
    pub slot_count: u8,
}

pub struct ClientboundOpenScreenView {
    pub window_id: u8,
    pub window_type: Seq<char>,
    pub window_title: Seq<char>,
    pub slot_count: u8,
}

impl View for ClientboundOpenScreen {
    type V = ClientboundOpenScreenView;

    open spec fn view(&self) -> ClientboundOpenScreenView {
        ClientboundOpenScreenView {
            window_id: self.window_id,
            window_type: self.window_type@,
            window_title: self.window_title@,
            slot_count: self.slot_count,
        }
    }
}

impl PacketId for ClientboundOpenScreen {
    open spec fn spec_packet_id(ver: u32) -> u8 {
        0x13
    }

    fn packet_id(_ver: u32) -> (r: u8) {
        0x13
    }
}

impl WireFormat for ClientboundOpenScreen {
    open spec fn spec_encode(p: ClientboundOpenScreenView) -> Seq<u8> {
        seq![p.window_id] + string_wire(p.window_type) + string_wire(p.window_title) + seq![p.slot_count]
    }

    open spec fn spec_decode(s: Seq<u8>) -> Parsed<ClientboundOpenScreenView> {
        then(need_spec(s, 1), |_u: (), s: Seq<u8>| then(take_u8(s), |window_id: u8, s: Seq<u8>| then(str_spec(s, "ClientboundOpenScreen window_type"@), |window_type: Seq<char>, s: Seq<u8>| then(str_spec(s, "ClientboundOpenScreen window_title"@), |window_title: Seq<char>, s: Seq<u8>| then(need_spec(s, 1), |_u: (), s: Seq<u8>| then(take_u8(s), |slot_count: u8, s: Seq<u8>| (Ok(ClientboundOpenScreenView { window_id, window_type, window_title, slot_count }), s)))))))
    }
}

impl Roundtrip for ClientboundOpenScreen {
    open spec fn encodable(p: ClientboundOpenScreenView) -> bool {
        string_fits(p.window_type) && string_fits(p.window_title)
    }

    open spec fn reads_to_end() -> bool {
        false
    }

    proof fn lemma_roundtrip(p: ClientboundOpenScreenView, rest: Seq<u8>) {
        broadcast use group_wire_roundtrip;

        let t3 = seq![p.slot_count] + rest;
        let t2 = string_wire(p.window_title) + t3;
        let t1 = string_wire(p.window_type) + t2;
        lemma_concat_associative(seq![p.window_id] + string_wire(p.window_type) + string_wire(p.window_title), seq![p.slot_count], rest);
        lemma_concat_associative(seq![p.window_id] + string_wire(p.window_type), string_wire(p.window_title), t3);
        lemma_concat_associative(seq![p.window_id], string_wire(p.window_type), t2);
        lemma_string_roundtrip(p.window_type, t2, missing_for("ClientboundOpenScreen window_type"@), invalid_in("ClientboundOpenScreen window_type"@));
        lemma_string_roundtrip(p.window_title, t3, missing_for("ClientboundOpenScreen window_title"@), invalid_in("ClientboundOpenScreen window_title"@));
    }
}

impl Encode for ClientboundOpenScreen {
    fn encode(&self, dst: &mut BytesMut) -> (r: Result<(), ProtocolError>) {
        let ghost d0 = bytes_mut_data(*dst);
        put_u8(dst, self.window_id);
        let ghost mut e: Seq<u8> = seq![self@.window_id];
        encode_str(self.window_type.as_str(), dst);
        proof {
            lemma_concat_associative(d0, e, string_wire(self@.window_type));
            e = e + string_wire(self@.window_type);
        }
        encode_str(self.window_title.as_str(), dst);
        proof {
            lemma_concat_associative(d0, e, string_wire(self@.window_title));
            e = e + string_wire(self@.window_title);
        }
        put_u8(dst, self.slot_count);
        proof {
            lemma_concat_associative(d0, e, seq![self@.slot_count]);
            e = e + seq![self@.slot_count];
        }
        Ok(())
    }
}

impl Decode for ClientboundOpenScreen {
    fn decode(src: &mut Bytes) -> (r: Result<Self, ProtocolError>) {
        need(src, 1)?;
        let window_id = get_u8(src);
        let window_type = decode_str(src, "ClientboundOpenScreen window_type")?;
        let window_title = decode_str(src, "ClientboundOpenScreen window_title")?;
        need(src, 1)?;
        let slot_count = get_u8(src);
        Ok(Self { window_id, window_type, window_title, slot_count })
    }
}

// ── ClientboundContainerSetProperty ───────────────────────────────────

#[derive(Debug, Clone, PartialEq)]
pub struct ClientboundContainerSetProperty {
    pub window_id: u8,
    pub property: i16,
    pub value: i16,
}

impl View for ClientboundContainerSetProperty {
    type V = ClientboundContainerSetProperty;

    open spec fn view(&self) -> ClientboundContainerSetProperty {
        *self
    }
}

impl PacketId for ClientboundContainerSetProperty {
    open spec fn spec_packet_id(ver: u32) -> u8 {
        0x15
    }

    fn packet_id(_ver: u32) -> (r: u8) {
        0x15
    }
}

impl WireFormat for ClientboundContainerSetProperty {
    open spec fn spec_encode(p: ClientboundContainerSetProperty) -> Seq<u8> {
        seq![p.window_id] + be_i16_bytes(p.property) + be_i16_bytes(p.value)
    }

    open spec fn spec_decode(s: Seq<u8>) -> Parsed<ClientboundContainerSetProperty> {
        then(need_spec(s, 5), |_u: (), s: Seq<u8>| then(take_u8(s), |window_id: u8, s: Seq<u8>| then(take_i16(s), |property: i16, s: Seq<u8>| then(take_i16(s), |value: i16, s: Seq<u8>| (Ok(ClientboundContainerSetProperty { window_id, property, value }), s)))))
    }
}

impl Roundtrip for ClientboundContainerSetProperty {
    open spec fn encodable(p: ClientboundContainerSetProperty) -> bool {
        true
    }

    open spec fn reads_to_end() -> bool {
        false
    }

    proof fn lemma_roundtrip(p: ClientboundContainerSetProperty, rest: Seq<u8>) {
        broadcast use group_wire_roundtrip;

        let t2 = be_i16_bytes(p.value) + rest;
        let t1 = be_i16_bytes(p.property) + t2;
        lemma_concat_associative(seq![p.window_id] + be_i16_bytes(p.property), be_i16_bytes(p.value), rest);
        lemma_concat_associative(seq![p.window_id], be_i16_bytes(p.property), t2);
    }
}

impl Encode for ClientboundContainerSetProperty {
    fn encode(&self, dst: &mut BytesMut) -> (r: Result<(), ProtocolError>) {
        let ghost d0 = bytes_mut_data(*dst);
        put_u8(dst, self.window_id);
        let ghost mut e: Seq<u8> = seq![self@.window_id];
        put_i16(dst, self.property);
        proof {
            lemma_concat_associative(d0, e, be_i16_bytes(self@.property));
            e = e + be_i16_bytes(self@.property);
        }
        put_i16(dst, self.value);
        proof {
            lemma_concat_associative(d0, e, be_i16_bytes(self@.value));
            e = e + be_i16_bytes(self@.value);
        }
        Ok(())
    }
}

impl Decode for ClientboundContainerSetProperty {
    fn decode(src: &mut Bytes) -> (r: Result<Self, ProtocolError>) {
        need(src, 5)?;
        let window_id = get_u8(src);
        let property = get_i16(src);
        let value = get_i16(src);
        Ok(Self { window_id, property, value })
    }
}

// ── ClientboundCooldown ───────────────────────────────────────────────

#[derive(Debug, Clone, PartialEq)]
pub struct ClientboundCooldown {
    pub item_id: VarInt,
    pub cooldown_ticks: VarInt,
}

impl View for ClientboundCooldown {
    type V = ClientboundCooldown;

    open spec fn view(&self) -> ClientboundCooldown {
        *self
    }
}

impl PacketId for ClientboundCooldown {
    open spec fn spec_packet_id(ver: u32) -> u8 {
        0x17
    }

    fn packet_id(_ver: u32) -> (r: u8) {
        0x17
    }
}

impl WireFormat for ClientboundCooldown {
    open spec fn spec_encode(p: ClientboundCooldown) -> Seq<u8> {
        VarInt::spec_encode(p.item_id) + VarInt::spec_encode(p.cooldown_ticks)
    }

    open spec fn spec_decode(s: Seq<u8>) -> Parsed<ClientboundCooldown> {
        then(VarInt::spec_decode(s), |item_id: VarInt, s: Seq<u8>| then(VarInt::spec_decode(s), |cooldown_ticks: VarInt, s: Seq<u8>| (Ok(ClientboundCooldown { item_id, cooldown_ticks }), s)))
    }
}

impl Roundtrip for ClientboundCooldown {
    open spec fn encodable(p: ClientboundCooldown) -> bool {
        true
    }

    open spec fn reads_to_end() -> bool {
        false
    }

    proof fn lemma_roundtrip(p: ClientboundCooldown, rest: Seq<u8>) {
        broadcast use group_wire_roundtrip;

        let t1 = VarInt::spec_encode(p.cooldown_ticks) + rest;
        lemma_concat_associative(VarInt::spec_encode(p.item_id), VarInt::spec_encode(p.cooldown_ticks), rest);
        VarInt::lemma_roundtrip(p.item_id, t1);
        VarInt::lemma_roundtrip(p.cooldown_ticks, rest);
    }
}

impl Encode for ClientboundCooldown {
    fn encode(&self, dst: &mut BytesMut) -> (r: Result<(), ProtocolError>) {
        let ghost d0 = bytes_mut_data(*dst);
        let _ = self.item_id.encode(dst);
        let ghost mut e: Seq<u8> = VarInt::spec_encode(self@.item_id);
        let _ = self.cooldown_ticks.encode(dst);
        proof {
            lemma_concat_associative(d0, e, VarInt::spec_encode(self@.cooldown_ticks));
            e = e + VarInt::spec_encode(self@.cooldown_ticks);
        }
        Ok(())
    }
}

impl Decode for ClientboundCooldown {
    fn decode(src: &mut Bytes) -> (r: Result<Self, ProtocolError>) {
        let item_id = VarInt::decode(src)?;
        let cooldown_ticks = VarInt::decode(src)?;
        Ok(Self { item_id, cooldown_ticks })
    }
}

// ── ClientboundEntityEvent ────────────────────────────────────────────

#[derive(Debug, Clone, PartialEq)]
pub struct ClientboundEntityEvent {
    pub entity_id: i32,
    pub entity_status: u8,
}

impl View for ClientboundEntityEvent {
    type V = ClientboundEntityEvent;

    open spec fn view(&self) -> ClientboundEntityEvent {
        *self
    }
}

impl PacketId for ClientboundEntityEvent {
    open spec fn spec_packet_id(ver: u32) -> u8 {
        0x1B
    }

    fn packet_id(_ver: u32) -> (r: u8) {
        0x1B
    }
}

impl WireFormat for ClientboundEntityEvent {
    open spec fn spec_encode(p: ClientboundEntityEvent) -> Seq<u8> {
        be_i32_bytes(p.entity_id) + seq![p.entity_status]
    }

    open spec fn spec_decode(s: Seq<u8>) -> Parsed<ClientboundEntityEvent> {
        then(need_spec(s, 5), |_u: (), s: Seq<u8>| then(take_i32(s), |entity_id: i32, s: Seq<u8>| then(take_u8(s), |entity_status: u8, s: Seq<u8>| (Ok(ClientboundEntityEvent { entity_id, entity_status }), s))))
    }
}

impl Roundtrip for ClientboundEntityEvent {
    open spec fn encodable(p: ClientboundEntityEvent) -> bool {
        true
    }

    open spec fn reads_to_end() -> bool {
        false
    }

    proof fn lemma_roundtrip(p: ClientboundEntityEvent, rest: Seq<u8>) {
        broadcast use group_wire_roundtrip;

        let t1 = seq![p.entity_status] + rest;
        lemma_concat_associative(be_i32_bytes(p.entity_id), seq![p.entity_status], rest);
    }
}

impl Encode for ClientboundEntityEvent {
    fn encode(&self, dst: &mut BytesMut) -> (r: Result<(), ProtocolError>) {
        let ghost d0 = bytes_mut_data(*dst);
        put_i32(dst, self.entity_id);
        let ghost mut e: Seq<u8> = be_i32_bytes(self@.entity_id);
        put_u8(dst, self.entity_status);
        proof {
            lemma_concat_associative(d0, e, seq![self@.entity_status]);
            e = e + seq![self@.entity_status];
        }
        Ok(())
    }
}

impl Decode for ClientboundEntityEvent {
    fn decode(src: &mut Bytes) -> (r: Result<Self, ProtocolError>) {
        need(src, 5)?;
        let entity_id = get_i32(src);
        let entity_status = get_u8(src);
        Ok(Self { entity_id, entity_status })
    }
}

// ── ClientboundForgetLevelChunk ───────────────────────────────────────

#[derive(Debug, Clone, PartialEq)]
pub struct ClientboundForgetLevelChunk {
    pub chunk_x: i32,
    pub chunk_z: i32,
}

impl View for ClientboundForgetLevelChunk {
    type V = ClientboundForgetLevelChunk;

    open spec fn view(&self) -> ClientboundForgetLevelChunk {
        *self
    }
}

impl PacketId for ClientboundForgetLevelChunk {
    open spec fn spec_packet_id(ver: u32) -> u8 {
        0x1D
    }

    fn packet_id(_ver: u32) -> (r: u8) {
        0x1D
    }
}

impl WireFormat for ClientboundForgetLevelChunk {
    open spec fn spec_encode(p: ClientboundForgetLevelChunk) -> Seq<u8> {
        be_i32_bytes(p.chunk_x) + be_i32_bytes(p.chunk_z)
    }

    open spec fn spec_decode(s: Seq<u8>) -> Parsed<ClientboundForgetLevelChunk> {
        then(need_spec(s, 8), |_u: (), s: Seq<u8>| then(take_i32(s), |chunk_x: i32, s: Seq<u8>| then(take_i32(s), |chunk_z: i32, s: Seq<u8>| (Ok(ClientboundForgetLevelChunk { chunk_x, chunk_z }), s))))
    }
}

impl Roundtrip for ClientboundForgetLevelChunk {
    open spec fn encodable(p: ClientboundForgetLevelChunk) -> bool {
        true
    }

    open spec fn reads_to_end() -> bool {
        false
    }

    proof fn lemma_roundtrip(p: ClientboundForgetLevelChunk, rest: Seq<u8>) {
        broadcast use group_wire_roundtrip;

        let t1 = be_i32_bytes(p.chunk_z) + rest;
        lemma_concat_associative(be_i32_bytes(p.chunk_x), be_i32_bytes(p.chunk_z), rest);
    }
}

impl Encode for ClientboundForgetLevelChunk {
    fn encode(&self, dst: &mut BytesMut) -> (r: Result<(), ProtocolError>) {
        let ghost d0 = bytes_mut_data(*dst);
        put_i32(dst, self.chunk_x);
        let ghost mut e: Seq<u8> = be_i32_bytes(self@.chunk_x);
        put_i32(dst, self.chunk_z);
        proof {
            lemma_concat_associative(d0, e, be_i32_bytes(self@.chunk_z));
            e = e + be_i32_bytes(self@.chunk_z);
        }
        Ok(())
    }
}

impl Decode for ClientboundForgetLevelChunk {
    fn decode(src: &mut Bytes) -> (r: Result<Self, ProtocolError>) {
        need(src, 8)?;
        let chunk_x = get_i32(src);
        let chunk_z = get_i32(src);
        Ok(Self { chunk_x, chunk_z })
    }
}

// ── ClientboundGameEvent ──────────────────────────────────────────────

#[derive(Debug, Clone, PartialEq)]
pub struct ClientboundGameEvent {
    pub reason: u8,
    /// The bits of the `f32` value (`f32::to_bits`).
    pub value: u32,
}

impl View for ClientboundGameEvent {
    type V = ClientboundGameEvent;

    open spec fn view(&self) -> ClientboundGameEvent {
        *self
    }
}

impl PacketId for ClientboundGameEvent {
    open spec fn spec_packet_id(ver: u32) -> u8 {
        0x1E
    }

    fn packet_id(_ver: u32) -> (r: u8) {
        0x1E
    }
}

impl WireFormat for ClientboundGameEvent {
    open spec fn spec_encode(p: ClientboundGameEvent) -> Seq<u8> {
        seq![p.reason] + be_u32_bytes(p.value)
    }

    open spec fn spec_decode(s: Seq<u8>) -> Parsed<ClientboundGameEvent> {
        then(need_spec(s, 5), |_u: (), s: Seq<u8>| then(take_u8(s), |reason: u8, s: Seq<u8>| then(take_u32(s), |value: u32, s: Seq<u8>| (Ok(ClientboundGameEvent { reason, value }), s))))
    }
}

impl Roundtrip for ClientboundGameEvent {
    open spec fn encodable(p: ClientboundGameEvent) -> bool {
        true
    }

    open spec fn reads_to_end() -> bool {
        false
    }

    proof fn lemma_roundtrip(p: ClientboundGameEvent, rest: Seq<u8>) {
        broadcast use group_wire_roundtrip;

        let t1 = be_u32_bytes(p.value) + rest;
        lemma_concat_associative(seq![p.reason], be_u32_bytes(p.value), rest);
    }
}

impl Encode for ClientboundGameEvent {
    fn encode(&self, dst: &mut BytesMut) -> (r: Result<(), ProtocolError>) {
        let ghost d0 = bytes_mut_data(*dst);
        put_u8(dst, self.reason);
        let ghost mut e: Seq<u8> = seq![self@.reason];
        put_u32(dst, self.value);
        proof {
            lemma_concat_associative(d0, e, be_u32_bytes(self@.value));
            e = e + be_u32_bytes(self@.value);
        }
        Ok(())
    }
}

impl Decode for ClientboundGameEvent {
    fn decode(src: &mut Bytes) -> (r: Result<Self, ProtocolError>) {
        need(src, 5)?;
        let reason = get_u8(src);
        let value = get_u32(src);
        Ok(Self { reason, value })
    }
}

// ── ClientboundLevelEvent ─────────────────────────────────────────────

#[derive(Debug, Clone, PartialEq)]
pub struct ClientboundLevelEvent {
    pub effect_id: i32,
    pub location: u64,
    pub data: i32,
    pub disable_relative_volume: bool,
}

impl View for ClientboundLevelEvent {
    type V = ClientboundLevelEvent;

    open spec fn view(&self) -> ClientboundLevelEvent {
        *self
    }
}

impl PacketId for ClientboundLevelEvent {
    open spec fn spec_packet_id(ver: u32) -> u8 {
        0x21
    }

    fn packet_id(_ver: u32) -> (r: u8) {
        0x21
    }
}

impl WireFormat for ClientboundLevelEvent {
    open spec fn spec_encode(p: ClientboundLevelEvent) -> Seq<u8> {
        be_i32_bytes(p.effect_id) + be_u64_bytes(p.location) + be_i32_bytes(p.data) + seq![bool_byte(p.disable_relative_volume)]
    }

    open spec fn spec_decode(s: Seq<u8>) -> Parsed<ClientboundLevelEvent> {
        then(need_spec(s, 17), |_u: (), s: Seq<u8>| then(take_i32(s), |effect_id: i32, s: Seq<u8>| then(take_u64(s), |location: u64, s: Seq<u8>| then(take_i32(s), |data: i32, s: Seq<u8>| then(take_bool(s), |disable_relative_volume: bool, s: Seq<u8>| (Ok(ClientboundLevelEvent { effect_id, location, data, disable_relative_volume }), s))))))
    }
}

impl Roundtrip for ClientboundLevelEvent {
    open spec fn encodable(p: ClientboundLevelEvent) -> bool {
        true
    }

    open spec fn reads_to_end() -> bool {
        false
    }

    proof fn lemma_roundtrip(p: ClientboundLevelEvent, rest: Seq<u8>) {
        broadcast use group_wire_roundtrip;

        let t3 = seq![bool_byte(p.disable_relative_volume)] + rest;
        let t2 = be_i32_bytes(p.data) + t3;
        let t1 = be_u64_bytes(p.location) + t2;
        lemma_concat_associative(be_i32_bytes(p.effect_id) + be_u64_bytes(p.location) + be_i32_bytes(p.data), seq![bool_byte(p.disable_relative_volume)], rest);
        lemma_concat_associative(be_i32_bytes(p.effect_id) + be_u64_bytes(p.location), be_i32_bytes(p.data), t3);
        lemma_concat_associative(be_i32_bytes(p.effect_id), be_u64_bytes(p.location), t2);
    }
}

impl Encode for ClientboundLevelEvent {
    fn encode(&self, dst: &mut BytesMut) -> (r: Result<(), ProtocolError>) {
        let ghost d0 = bytes_mut_data(*dst);
        put_i32(dst, self.effect_id);
        let ghost mut e: Seq<u8> = be_i32_bytes(self@.effect_id);
        put_u64(dst, self.location);
        proof {
            lemma_concat_associative(d0, e, be_u64_bytes(self@.location));
            e = e + be_u64_bytes(self@.location);
        }
        put_i32(dst, self.data);
        proof {
            lemma_concat_associative(d0, e, be_i32_bytes(self@.data));
            e = e + be_i32_bytes(self@.data);
        }
        put_u8(dst, self.disable_relative_volume as u8);
        proof {
            lemma_concat_associative(d0, e, seq![bool_byte(self@.disable_relative_volume)]);
            e = e + seq![bool_byte(self@.disable_relative_volume)];
        }
        Ok(())
    }
}

impl Decode for ClientboundLevelEvent {
    fn decode(src: &mut Bytes) -> (r: Result<Self, ProtocolError>) {
        need(src, 17)?;
        let effect_id = get_i32(src);
        let location = get_u64(src);
        let data = get_i32(src);
        let disable_relative_volume = get_u8(src) != 0;
        Ok(Self { effect_id, location, data, disable_relative_volume })
    }
}

// ── ClientboundMoveEntityPos ──────────────────────────────────────────

#[derive(Debug, Clone, PartialEq)]
pub struct ClientboundMoveEntityPos {
    pub entity_id: VarInt,
    pub delta_x: i16,
    pub delta_y: i16,
    pub delta_z: i16,
    pub on_ground: bool,
}

impl View for ClientboundMoveEntityPos {
    type V = ClientboundMoveEntityPos;

    open spec fn view(&self) -> ClientboundMoveEntityPos {
        *self
    }
}

impl PacketId for ClientboundMoveEntityPos {
    open spec fn spec_packet_id(ver: u32) -> u8 {
        0x25
    }

    fn packet_id(_ver: u32) -> (r: u8) {
        0x25
    }
}

impl WireFormat for ClientboundMoveEntityPos {
    open spec fn spec_encode(p: ClientboundMoveEntityPos) -> Seq<u8> {
        VarInt::spec_encode(p.entity_id) + be_i16_bytes(p.delta_x) + be_i16_bytes(p.delta_y) + be_i16_bytes(p.delta_z) + seq![bool_byte(p.on_ground)]
    }

    open spec fn spec_decode(s: Seq<u8>) -> Parsed<ClientboundMoveEntityPos> {
        then(VarInt::spec_decode(s), |entity_id: VarInt, s: Seq<u8>| then(need_spec(s, 7), |_u: (), s: Seq<u8>| then(take_i16(s), |delta_x: i16, s: Seq<u8>| then(take_i16(s), |delta_y: i16, s: Seq<u8>| then(take_i16(s), |delta_z: i16, s: Seq<u8>| then(take_bool(s), |on_ground: bool, s: Seq<u8>| (Ok(ClientboundMoveEntityPos { entity_id, delta_x, delta_y, delta_z, on_ground }), s)))))))
    }
}

impl Roundtrip for ClientboundMoveEntityPos {
    open spec fn encodable(p: ClientboundMoveEntityPos) -> bool {
        true
    }

    open spec fn reads_to_end() -> bool {
        false
    }

    #[verifier::rlimit(100)]
    #[verifier::spinoff_prover]
    proof fn lemma_roundtrip(p: ClientboundMoveEntityPos, rest: Seq<u8>) {
        broadcast use group_wire_roundtrip;

        let t4 = seq![bool_byte(p.on_ground)] + rest;
        let t3 = be_i16_bytes(p.delta_z) + t4;
        let t2 = be_i16_bytes(p.delta_y) + t3;
        let t1 = be_i16_bytes(p.delta_x) + t2;
        lemma_concat_associative(VarInt::spec_encode(p.entity_id) + be_i16_bytes(p.delta_x) + be_i16_bytes(p.delta_y) + be_i16_bytes(p.delta_z), seq![bool_byte(p.on_ground)], rest);
        lemma_concat_associative(VarInt::spec_encode(p.entity_id) + be_i16_bytes(p.delta_x) + be_i16_bytes(p.delta_y), be_i16_bytes(p.delta_z), t4);
        lemma_concat_associative(VarInt::spec_encode(p.entity_id) + be_i16_bytes(p.delta_x), be_i16_bytes(p.delta_y), t3);
        lemma_concat_associative(VarInt::spec_encode(p.entity_id), be_i16_bytes(p.delta_x), t2);
        VarInt::lemma_roundtrip(p.entity_id, t1);
    }
}

impl Encode for ClientboundMoveEntityPos {
    fn encode(&self, dst: &mut BytesMut) -> (r: Result<(), ProtocolError>) {
        let ghost d0 = bytes_mut_data(*dst);
        let _ = self.entity_id.encode(dst);
        let ghost mut e: Seq<u8> = VarInt::spec_encode(self@.entity_id);
        put_i16(dst, self.delta_x);
        proof {
            lemma_concat_associative(d0, e, be_i16_bytes(self@.delta_x));
            e = e + be_i16_bytes(self@.delta_x);
        }
        put_i16(dst, self.delta_y);
        proof {
            lemma_concat_associative(d0, e, be_i16_bytes(self@.delta_y));
            e = e + be_i16_bytes(self@.delta_y);
        }
        put_i16(dst, self.delta_z);
        proof {
            lemma_concat_associative(d0, e, be_i16_bytes(self@.delta_z));
            e = e + be_i16_bytes(self@.delta_z);
        }
        put_u8(dst, self.on_ground as u8);
        proof {
            lemma_concat_associative(d0, e, seq![bool_byte(self@.on_ground)]);
            e = e + seq![bool_byte(self@.on_ground)];
        }
        Ok(())
    }
}

impl Decode for ClientboundMoveEntityPos {
    fn decode(src: &mut Bytes) -> (r: Result<Self, ProtocolError>) {
        let entity_id = VarInt::decode(src)?;
        need(src, 7)?;
        let delta_x = get_i16(src);
        let delta_y = get_i16(src);
        let delta_z = get_i16(src);
        let on_ground = get_u8(src) != 0;
        Ok(Self { entity_id, delta_x, delta_y, delta_z, on_ground })
    }
}

// ── ClientboundMoveEntityPosRot ───────────────────────────────────────

#[derive(Debug, Clone, PartialEq)]
pub struct ClientboundMoveEntityPosRot {
    pub entity_id: VarInt,
    pub delta_x: i16,
    pub delta_y: i16,
    pub delta_z: i16,
    pub yaw: u8,
    pub pitch: u8,
    pub on_ground: bool,
}

impl View for ClientboundMoveEntityPosRot {
    type V = ClientboundMoveEntityPosRot;

    open spec fn view(&self) -> ClientboundMoveEntityPosRot {
        *self
    }
}

impl PacketId for ClientboundMoveEntityPosRot {
    open spec fn spec_packet_id(ver: u32) -> u8 {
        0x26
    }

    fn packet_id(_ver: u32) -> (r: u8) {
        0x26
    }
}

impl WireFormat for ClientboundMoveEntityPosRot {
    open spec fn spec_encode(p: ClientboundMoveEntityPosRot) -> Seq<u8> {
        VarInt::spec_encode(p.entity_id) + be_i16_bytes(p.delta_x) + be_i16_bytes(p.delta_y) + be_i16_bytes(p.delta_z) + seq![p.yaw] + seq![p.pitch] + seq![bool_byte(p.on_ground)]
    }

    open spec fn spec_decode(s: Seq<u8>) -> Parsed<ClientboundMoveEntityPosRot> {
        then(VarInt::spec_decode(s), |entity_id: VarInt, s: Seq<u8>| then(need_spec(s, 9), |_u: (), s: Seq<u8>| then(take_i16(s), |delta_x: i16, s: Seq<u8>| then(take_i16(s), |delta_y: i16, s: Seq<u8>| then(take_i16(s), |delta_z: i16, s: Seq<u8>| then(take_u8(s), |yaw: u8, s: Seq<u8>| then(take_u8(s), |pitch: u8, s: Seq<u8>| then(take_bool(s), |on_ground: bool, s: Seq<u8>| (Ok(ClientboundMoveEntityPosRot { entity_id, delta_x, delta_y, delta_z, yaw, pitch, on_ground }), s)))))))))
    }
}

impl Roundtrip for ClientboundMoveEntityPosRot {
    open spec fn encodable(p: ClientboundMoveEntityPosRot) -> bool {
        true
    }

    open spec fn reads_to_end() -> bool {
        false
    }

    #[verifier::rlimit(100)]
    #[verifier::spinoff_prover]
    proof fn lemma_roundtrip(p: ClientboundMoveEntityPosRot, rest: Seq<u8>) {
        broadcast use group_wire_roundtrip;

        let t6 = seq![bool_byte(p.on_ground)] + rest;
        let t5 = seq![p.pitch] + t6;
        let t4 = seq![p.yaw] + t5;
        let t3 = be_i16_bytes(p.delta_z) + t4;
        let t2 = be_i16_bytes(p.delta_y) + t3;
        let t1 = be_i16_bytes(p.delta_x) + t2;
        lemma_concat_associative(VarInt::spec_encode(p.entity_id) + be_i16_bytes(p.delta_x) + be_i16_bytes(p.delta_y) + be_i16_bytes(p.delta_z) + seq![p.yaw] + seq![p.pitch], seq![bool_byte(p.on_ground)], rest);
        lemma_concat_associative(VarInt::spec_encode(p.entity_id) + be_i16_bytes(p.delta_x) + be_i16_bytes(p.delta_y) + be_i16_bytes(p.delta_z) + seq![p.yaw], seq![p.pitch], t6);
        lemma_concat_associative(VarInt::spec_encode(p.entity_id) + be_i16_bytes(p.delta_x) + be_i16_bytes(p.delta_y) + be_i16_bytes(p.delta_z), seq![p.yaw], t5);
        lemma_concat_associative(VarInt::spec_encode(p.entity_id) + be_i16_bytes(p.delta_x) + be_i16_bytes(p.delta_y), be_i16_bytes(p.delta_z), t4);
        lemma_concat_associative(VarInt::spec_encode(p.entity_id) + be_i16_bytes(p.delta_x), be_i16_bytes(p.delta_y), t3);
        lemma_concat_associative(VarInt::spec_encode(p.entity_id), be_i16_bytes(p.delta_x), t2);
        VarInt::lemma_roundtrip(p.entity_id, t1);
    }
}

impl Encode for ClientboundMoveEntityPosRot {
    fn encode(&self, dst: &mut BytesMut) -> (r: Result<(), ProtocolError>) {
        let ghost d0 = bytes_mut_data(*dst);
        let _ = self.entity_id.encode(dst);
        let ghost mut e: Seq<u8> = VarInt::spec_encode(self@.entity_id);
        put_i16(dst, self.delta_x);
        proof {
            lemma_concat_associative(d0, e, be_i16_bytes(self@.delta_x));
            e = e + be_i16_bytes(self@.delta_x);
        }
        put_i16(dst, self.delta_y);
        proof {
            lemma_concat_associative(d0, e, be_i16_bytes(self@.delta_y));
            e = e + be_i16_bytes(self@.delta_y);
        }
        put_i16(dst, self.delta_z);
        proof {
            lemma_concat_associative(d0, e, be_i16_bytes(self@.delta_z));
            e = e + be_i16_bytes(self@.delta_z);
        }
        put_u8(dst, self.yaw);
        proof {
            lemma_concat_associative(d0, e, seq![self@.yaw]);
            e = e + seq![self@.yaw];
        }
        put_u8(dst, self.pitch);
        proof {
            lemma_concat_associative(d0, e, seq![self@.pitch]);
            e = e + seq![self@.pitch];
        }
        put_u8(dst, self.on_ground as u8);
        proof {
            lemma_concat_associative(d0, e, seq![bool_byte(self@.on_ground)]);
            e = e + seq![bool_byte(self@.on_ground)];
        }
        Ok(())
    }
}

impl Decode for ClientboundMoveEntityPosRot {
    fn decode(src: &mut Bytes) -> (r: Result<Self, ProtocolError>) {
        let entity_id = VarInt::decode(src)?;
        need(src, 9)?;
        let delta_x = get_i16(src);
        let delta_y = get_i16(src);
        let delta_z = get_i16(src);
        let yaw = get_u8(src);
        let pitch = get_u8(src);
        let on_ground = get_u8(src) != 0;
        Ok(Self { entity_id, delta_x, delta_y, delta_z, yaw, pitch, on_ground })
    }
}

// ── ClientboundMoveEntityRot ──────────────────────────────────────────

#[derive(Debug, Clone, PartialEq)]
pub struct ClientboundMoveEntityRot {
    pub entity_id: VarInt,
    pub yaw: u8,
    pub pitch: u8,
    pub on_ground: bool,
}

impl View for ClientboundMoveEntityRot {
    type V = ClientboundMoveEntityRot;

    open spec fn view(&self) -> ClientboundMoveEntityRot {
        *self
    }
}

impl PacketId for ClientboundMoveEntityRot {
    open spec fn spec_packet_id(ver: u32) -> u8 {
        0x27
    }

    fn packet_id(_ver: u32) -> (r: u8) {
        0x27
    }
}

impl WireFormat for ClientboundMoveEntityRot {
    open spec fn spec_encode(p: ClientboundMoveEntityRot) -> Seq<u8> {
        VarInt::spec_encode(p.entity_id) + seq![p.yaw] + seq![p.pitch] + seq![bool_byte(p.on_ground)]
    }

    open spec fn spec_decode(s: Seq<u8>) -> Parsed<ClientboundMoveEntityRot> {
        then(VarInt::spec_decode(s), |entity_id: VarInt, s: Seq<u8>| then(need_spec(s, 3), |_u: (), s: Seq<u8>| then(take_u8(s), |yaw: u8, s: Seq<u8>| then(take_u8(s), |pitch: u8, s: Seq<u8>| then(take_bool(s), |on_ground: bool, s: Seq<u8>| (Ok(ClientboundMoveEntityRot { entity_id, yaw, pitch, on_ground }), s))))))
    }
}

impl Roundtrip for ClientboundMoveEntityRot {
    open spec fn encodable(p: ClientboundMoveEntityRot) -> bool {
        true
    }

    open spec fn reads_to_end() -> bool {
        false
    }

    proof fn lemma_roundtrip(p: ClientboundMoveEntityRot, rest: Seq<u8>) {
        broadcast use group_wire_roundtrip;

        let t3 = seq![bool_byte(p.on_ground)] + rest;
        let t2 = seq![p.pitch] + t3;
        let t1 = seq![p.yaw] + t2;
        lemma_concat_associative(VarInt::spec_encode(p.entity_id) + seq![p.yaw] + seq![p.pitch], seq![bool_byte(p.on_ground)], rest);
        lemma_concat_associative(VarInt::spec_encode(p.entity_id) + seq![p.yaw], seq![p.pitch], t3);
        lemma_concat_associative(VarInt::spec_encode(p.entity_id), seq![p.yaw], t2);
        VarInt::lemma_roundtrip(p.entity_id, t1);
    }
}

impl Encode for ClientboundMoveEntityRot {
    fn encode(&self, dst: &mut BytesMut) -> (r: Result<(), ProtocolError>) {
        let ghost d0 = bytes_mut_data(*dst);
        let _ = self.entity_id.encode(dst);
        let ghost mut e: Seq<u8> = VarInt::spec_encode(self@.entity_id);
        put_u8(dst, self.yaw);
        proof {
            lemma_concat_associative(d0, e, seq![self@.yaw]);
            e = e + seq![self@.yaw];
        }
        put_u8(dst, self.pitch);
        proof {
            lemma_concat_associative(d0, e, seq![self@.pitch]);
            e = e + seq![self@.pitch];
        }
        put_u8(dst, self.on_ground as u8);
        proof {
            lemma_concat_associative(d0, e, seq![bool_byte(self@.on_ground)]);
            e = e + seq![bool_byte(self@.on_ground)];
        }
        Ok(())
    }
}

impl Decode for ClientboundMoveEntityRot {
    fn decode(src: &mut Bytes) -> (r: Result<Self, ProtocolError>) {
        let entity_id = VarInt::decode(src)?;
        need(src, 3)?;
        let yaw = get_u8(src);
        let pitch = get_u8(src);
        let on_ground = get_u8(src) != 0;
        Ok(Self { entity_id, yaw, pitch, on_ground })
    }
}

// ── ClientboundMoveVehicle ────────────────────────────────────────────

#[derive(Debug, Clone, PartialEq)]
pub struct ClientboundMoveVehicle {
    /// The bits of the `f64` value (`f64::to_bits`).
    pub x: u64,
    /// The bits of the `f64` value (`f64::to_bits`).
    pub y: u64,
    /// The bits of the `f64` value (`f64::to_bits`).
    pub z: u64,
    /// The bits of the `f32` value (`f32::to_bits`).
    pub yaw: u32,
    /// The bits of the `f32` value (`f32::to_bits`).
    pub pitch: u32,
}

impl View for ClientboundMoveVehicle {
    type V = ClientboundMoveVehicle;

    open spec fn view(&self) -> ClientboundMoveVehicle {
        *self
    }
}

impl PacketId for ClientboundMoveVehicle {
    open spec fn spec_packet_id(ver: u32) -> u8 {
        0x29
    }

    fn packet_id(_ver: u32) -> (r: u8) {
        0x29
    }
}

impl WireFormat for ClientboundMoveVehicle {
    open spec fn spec_encode(p: ClientboundMoveVehicle) -> Seq<u8> {
        be_u64_bytes(p.x) + be_u64_bytes(p.y) + be_u64_bytes(p.z) + be_u32_bytes(p.yaw) + be_u32_bytes(p.pitch)
    }

    open spec fn spec_decode(s: Seq<u8>) -> Parsed<ClientboundMoveVehicle> {
        then(need_spec(s, 32), |_u: (), s: Seq<u8>| then(take_u64(s), |x: u64, s: Seq<u8>| then(take_u64(s), |y: u64, s: Seq<u8>| then(take_u64(s), |z: u64, s: Seq<u8>| then(take_u32(s), |yaw: u32, s: Seq<u8>| then(take_u32(s), |pitch: u32, s: Seq<u8>| (Ok(ClientboundMoveVehicle { x, y, z, yaw, pitch }), s)))))))
    }
}

impl Roundtrip for ClientboundMoveVehicle {
    open spec fn encodable(p: ClientboundMoveVehicle) -> bool {
        true
    }

    open spec fn reads_to_end() -> bool {
        false
    }

    #[verifier::rlimit(100)]
    #[verifier::spinoff_prover]
    proof fn lemma_roundtrip(p: ClientboundMoveVehicle, rest: Seq<u8>) {
        broadcast use group_wire_roundtrip;

        let t4 = be_u32_bytes(p.pitch) + rest;
        let t3 = be_u32_bytes(p.yaw) + t4;
        let t2 = be_u64_bytes(p.z) + t3;
        let t1 = be_u64_bytes(p.y) + t2;
        lemma_concat_associative(be_u64_bytes(p.x) + be_u64_bytes(p.y) + be_u64_bytes(p.z) + be_u32_bytes(p.yaw), be_u32_bytes(p.pitch), rest);
        lemma_concat_associative(be_u64_bytes(p.x) + be_u64_bytes(p.y) + be_u64_bytes(p.z), be_u32_bytes(p.yaw), t4);
        lemma_concat_associative(be_u64_bytes(p.x) + be_u64_bytes(p.y), be_u64_bytes(p.z), t3);
        lemma_concat_associative(be_u64_bytes(p.x), be_u64_bytes(p.y), t2);
    }
}

impl Encode for ClientboundMoveVehicle {
    fn encode(&self, dst: &mut BytesMut) -> (r: Result<(), ProtocolError>) {
        let ghost d0 = bytes_mut_data(*dst);
        put_u64(dst, self.x);
        let ghost mut e: Seq<u8> = be_u64_bytes(self@.x);
        put_u64(dst, self.y);
        proof {
            lemma_concat_associative(d0, e, be_u64_bytes(self@.y));
            e = e + be_u64_bytes(self@.y);
        }
        put_u64(dst, self.z);
        proof {
            lemma_concat_associative(d0, e, be_u64_bytes(self@.z));
            e = e + be_u64_bytes(self@.z);
        }
        put_u32(dst, self.yaw);
        proof {
            lemma_concat_associative(d0, e, be_u32_bytes(self@.yaw));
            e = e + be_u32_bytes(self@.yaw);
        }
        put_u32(dst, self.pitch);
        proof {
            lemma_concat_associative(d0, e, be_u32_bytes(self@.pitch));
            e = e + be_u32_bytes(self@.pitch);
        }
        Ok(())
    }
}

impl Decode for ClientboundMoveVehicle {
    fn decode(src: &mut Bytes) -> (r: Result<Self, ProtocolError>) {
        need(src, 32)?;
        let x = get_u64(src);
        let y = get_u64(src);
        let z = get_u64(src);
        let yaw = get_u32(src);
        let pitch = get_u32(src);
        Ok(Self { x, y, z, yaw, pitch })
    }
}

// ── ClientboundOpenSignEditor ─────────────────────────────────────────

#[derive(Debug, Clone, PartialEq)]
pub struct ClientboundOpenSignEditor {
    pub location: u64,
}

impl View for ClientboundOpenSignEditor {
    type V = ClientboundOpenSignEditor;

    open spec fn view(&self) -> ClientboundOpenSignEditor {
        *self
    }
}

impl PacketId for ClientboundOpenSignEditor {
    open spec fn spec_packet_id(ver: u32) -> u8 {
        0x2A
    }

    fn packet_id(_ver: u32) -> (r: u8) {
        0x2A
    }
}

impl WireFormat for ClientboundOpenSignEditor {
    open spec fn spec_encode(p: ClientboundOpenSignEditor) -> Seq<u8> {
        be_u64_bytes(p.location)
    }

    open spec fn spec_decode(s: Seq<u8>) -> Parsed<ClientboundOpenSignEditor> {
        then(need_spec(s, 8), |_u: (), s: Seq<u8>| then(take_u64(s), |location: u64, s: Seq<u8>| (Ok(ClientboundOpenSignEditor { location }), s)))
    }
}

impl Roundtrip for ClientboundOpenSignEditor {
    open spec fn encodable(p: ClientboundOpenSignEditor) -> bool {
        true
    }

    open spec fn reads_to_end() -> bool {
        false
    }

    proof fn lemma_roundtrip(p: ClientboundOpenSignEditor, rest: Seq<u8>) {
        broadcast use group_wire_roundtrip;

    }
}

impl Encode for ClientboundOpenSignEditor {
    fn encode(&self, dst: &mut BytesMut) -> (r: Result<(), ProtocolError>) {
        let ghost d0 = bytes_mut_data(*dst);
        put_u64(dst, self.location);
        let ghost mut e: Seq<u8> = be_u64_bytes(self@.location);
        Ok(())
    }
}

impl Decode for ClientboundOpenSignEditor {
    fn decode(src: &mut Bytes) -> (r: Result<Self, ProtocolError>) {
        need(src, 8)?;
        let location = get_u64(src);
        Ok(Self { location })
    }
}

// ── ClientboundPlayerInfoUpdate ───────────────────────────────────────

#[derive(Debug, Clone, PartialEq)]
pub struct ClientboundPlayerInfoUpdate {
    pub raw: Vec<u8>,
}

pub struct ClientboundPlayerInfoUpdateView {
    pub raw: Seq<u8>,
}

impl View for ClientboundPlayerInfoUpdate {
    type V = ClientboundPlayerInfoUpdateView;

    open spec fn view(&self) -> ClientboundPlayerInfoUpdateView {
        ClientboundPlayerInfoUpdateView {
            raw: self.raw@,
        }
    }
}

impl PacketId for ClientboundPlayerInfoUpdate {
    open spec fn spec_packet_id(ver: u32) -> u8 {
        0x2E
    }

    fn packet_id(_ver: u32) -> (r: u8) {
        0x2E
    }
}

impl WireFormat for ClientboundPlayerInfoUpdate {
    open spec fn spec_encode(p: ClientboundPlayerInfoUpdateView) -> Seq<u8> {
        p.raw
    }

    open spec fn spec_decode(s: Seq<u8>) -> Parsed<ClientboundPlayerInfoUpdateView> {
        then(take_rest(s), |raw: Seq<u8>, s: Seq<u8>| (Ok(ClientboundPlayerInfoUpdateView { raw }), s))
    }
}

impl Roundtrip for ClientboundPlayerInfoUpdate {
    open spec fn encodable(p: ClientboundPlayerInfoUpdateView) -> bool {
        true
    }

    open spec fn reads_to_end() -> bool {
        true
    }

    proof fn lemma_roundtrip(p: ClientboundPlayerInfoUpdateView, rest: Seq<u8>) {
        broadcast use group_wire_roundtrip;

        assert(p.raw + rest =~= p.raw);
    }
}

impl Encode for ClientboundPlayerInfoUpdate {
    fn encode(&self, dst: &mut BytesMut) -> (r: Result<(), ProtocolError>) {
        let ghost d0 = bytes_mut_data(*dst);
        put_slice(dst, self.raw.as_slice());
        let ghost mut e: Seq<u8> = self@.raw;
        Ok(())
    }
}

impl Decode for ClientboundPlayerInfoUpdate {
    fn decode(src: &mut Bytes) -> (r: Result<Self, ProtocolError>) {
        let raw = take_remaining(src);
        Ok(Self { raw })
    }
}

// ── ClientboundRecipes ────────────────────────────────────────────────

#[derive(Debug, Clone, PartialEq)]
pub struct ClientboundRecipes {
    pub raw: Vec<u8>,
}

pub struct ClientboundRecipesView {
    pub raw: Seq<u8>,
}

impl View for ClientboundRecipes {
    type V = ClientboundRecipesView;

    open spec fn view(&self) -> ClientboundRecipesView {
        ClientboundRecipesView {
            raw: self.raw@,
        }
    }
}

impl PacketId for ClientboundRecipes {
    open spec fn spec_packet_id(ver: u32) -> u8 {
        0x31
    }

    fn packet_id(_ver: u32) -> (r: u8) {
        0x31
    }
}

impl WireFormat for ClientboundRecipes {
    open spec fn spec_encode(p: ClientboundRecipesView) -> Seq<u8> {
        p.raw
    }

    open spec fn spec_decode(s: Seq<u8>) -> Parsed<ClientboundRecipesView> {
        then(take_rest(s), |raw: Seq<u8>, s: Seq<u8>| (Ok(ClientboundRecipesView { raw }), s))
    }
}

impl Roundtrip for ClientboundRecipes {
    open spec fn encodable(p: ClientboundRecipesView) -> bool {
        true
    }

    open spec fn reads_to_end() -> bool {
        true
    }

    proof fn lemma_roundtrip(p: ClientboundRecipesView, rest: Seq<u8>) {
        broadcast use group_wire_roundtrip;

        assert(p.raw + rest =~= p.raw);
    }
}

impl Encode for ClientboundRecipes {
    fn encode(&self, dst: &mut BytesMut) -> (r: Result<(), ProtocolError>) {
        let ghost d0 = bytes_mut_data(*dst);
        put_slice(dst, self.raw.as_slice());
        let ghost mut e: Seq<u8> = self@.raw;
        Ok(())
    }
}

impl Decode for ClientboundRecipes {
    fn decode(src: &mut Bytes) -> (r: Result<Self, ProtocolError>) {
        let raw = take_remaining(src);
        Ok(Self { raw })
    }
}

// ── ClientboundRemoveEntityEffect ─────────────────────────────────────

#[derive(Debug, Clone, PartialEq)]
pub struct ClientboundRemoveEntityEffect {
    pub entity_id: VarInt,
    pub effect_id: u8,
}

impl View for ClientboundRemoveEntityEffect {
    type V = ClientboundRemoveEntityEffect;

    open spec fn view(&self) -> ClientboundRemoveEntityEffect {
        *self
    }
}

impl PacketId for ClientboundRemoveEntityEffect {
    open spec fn spec_packet_id(ver: u32) -> u8 {
        0x33
    }

    fn packet_id(_ver: u32) -> (r: u8) {
        0x33
    }
}

impl WireFormat for ClientboundRemoveEntityEffect {
    open spec fn spec_encode(p: ClientboundRemoveEntityEffect) -> Seq<u8> {
        VarInt::spec_encode(p.entity_id) + seq![p.effect_id]
    }

    open spec fn spec_decode(s: Seq<u8>) -> Parsed<ClientboundRemoveEntityEffect> {
        then(VarInt::spec_decode(s), |entity_id: VarInt, s: Seq<u8>| then(need_spec(s, 1), |_u: (), s: Seq<u8>| then(take_u8(s), |effect_id: u8, s: Seq<u8>| (Ok(ClientboundRemoveEntityEffect { entity_id, effect_id }), s))))
    }
}

impl Roundtrip for ClientboundRemoveEntityEffect {
    open spec fn encodable(p: ClientboundRemoveEntityEffect) -> bool {
        true
    }

    open spec fn reads_to_end() -> bool {
        false
    }

    proof fn lemma_roundtrip(p: ClientboundRemoveEntityEffect, rest: Seq<u8>) {
        broadcast use group_wire_roundtrip;

        let t1 = seq![p.effect_id] + rest;
        lemma_concat_associative(VarInt::spec_encode(p.entity_id), seq![p.effect_id], rest);
        VarInt::lemma_roundtrip(p.entity_id, t1);
    }
}

impl Encode for ClientboundRemoveEntityEffect {
    fn encode(&self, dst: &mut BytesMut) -> (r: Result<(), ProtocolError>) {
        let ghost d0 = bytes_mut_data(*dst);
        let _ = self.entity_id.encode(dst);
        let ghost mut e: Seq<u8> = VarInt::spec_encode(self@.entity_id);
        put_u8(dst, self.effect_id);
        proof {
            lemma_concat_associative(d0, e, seq![self@.effect_id]);
            e = e + seq![self@.effect_id];
        }
        Ok(())
    }
}

impl Decode for ClientboundRemoveEntityEffect {
    fn decode(src: &mut Bytes) -> (r: Result<Self, ProtocolError>) {
        let entity_id = VarInt::decode(src)?;
        need(src, 1)?;
        let effect_id = get_u8(src);
        Ok(Self { entity_id, effect_id })
    }
}

// ── ClientboundResourcePackPush ───────────────────────────────────────

#[derive(Debug, Clone, PartialEq)]
pub struct ClientboundResourcePackPush {
    pub url: String,
    pub hash: String,
}

pub struct ClientboundResourcePackPushView {
    pub url: Seq<char>,
    pub hash: Seq<char>,
}

impl View for ClientboundResourcePackPush {
    type V = ClientboundResourcePackPushView;

    open spec fn view(&self) -> ClientboundResourcePackPushView {
        ClientboundResourcePackPushView {
            url: self.url@,
            hash: self.hash@,
        }
    }
}

impl PacketId for ClientboundResourcePackPush {
    open spec fn spec_packet_id(ver: u32) -> u8 {
        0x34
    }

    fn packet_id(_ver: u32) -> (r: u8) {
        0x34
    }
}

impl WireFormat for ClientboundResourcePackPush {
    open spec fn spec_encode(p: ClientboundResourcePackPushView) -> Seq<u8> {
        string_wire(p.url) + string_wire(p.hash)
    }

    open spec fn spec_decode(s: Seq<u8>) -> Parsed<ClientboundResourcePackPushView> {
        then(str_spec(s, "ClientboundResourcePackPush url"@), |url: Seq<char>, s: Seq<u8>| then(str_spec(s, "ClientboundResourcePackPush hash"@), |hash: Seq<char>, s: Seq<u8>| (Ok(ClientboundResourcePackPushView { url, hash }), s)))
    }
}

impl Roundtrip for ClientboundResourcePackPush {
    open spec fn encodable(p: ClientboundResourcePackPushView) -> bool {
        string_fits(p.url) && string_fits(p.hash)
    }

    open spec fn reads_to_end() -> bool {
        false
    }

    proof fn lemma_roundtrip(p: ClientboundResourcePackPushView, rest: Seq<u8>) {
        broadcast use group_wire_roundtrip;

        let t1 = string_wire(p.hash) + rest;
        lemma_concat_associative(string_wire(p.url), string_wire(p.hash), rest);
        lemma_string_roundtrip(p.url, t1, missing_for("ClientboundResourcePackPush url"@), invalid_in("ClientboundResourcePackPush url"@));
        lemma_string_roundtrip(p.hash, rest, missing_for("ClientboundResourcePackPush hash"@), invalid_in("ClientboundResourcePackPush hash"@));
    }
}

impl Encode for ClientboundResourcePackPush {
    fn encode(&self, dst: &mut BytesMut) -> (r: Result<(), ProtocolError>) {
        let ghost d0 = bytes_mut_data(*dst);
        encode_str(self.url.as_str(), dst);
        let ghost mut e: Seq<u8> = string_wire(self@.url);
        encode_str(self.hash.as_str(), dst);
        proof {
            lemma_concat_associative(d0, e, string_wire(self@.hash));
            e = e + string_wire(self@.hash);
        }
        Ok(())
    }
}

impl Decode for ClientboundResourcePackPush {
    fn decode(src: &mut Bytes) -> (r: Result<Self, ProtocolError>) {
        let url = decode_str(src, "ClientboundResourcePackPush url")?;
        let hash = decode_str(src, "ClientboundResourcePackPush hash")?;
        Ok(Self { url, hash })
    }
}

// ── ClientboundRotateHead ─────────────────────────────────────────────

#[derive(Debug, Clone, PartialEq)]
pub struct ClientboundRotateHead {
    pub entity_id: VarInt,
    pub head_yaw: u8,
}

impl View for ClientboundRotateHead {
    type V = ClientboundRotateHead;

    open spec fn view(&self) -> ClientboundRotateHead {
        *self
    }
}

impl PacketId for ClientboundRotateHead {
    open spec fn spec_packet_id(ver: u32) -> u8 {
        0x36
    }

    fn packet_id(_ver: u32) -> (r: u8) {
        0x36
    }
}

impl WireFormat for ClientboundRotateHead {
    open spec fn spec_encode(p: ClientboundRotateHead) -> Seq<u8> {
        VarInt::spec_encode(p.entity_id) + seq![p.head_yaw]
    }

    open spec fn spec_decode(s: Seq<u8>) -> Parsed<ClientboundRotateHead> {
        then(VarInt::spec_decode(s), |entity_id: VarInt, s: Seq<u8>| then(need_spec(s, 1), |_u: (), s: Seq<u8>| then(take_u8(s), |head_yaw: u8, s: Seq<u8>| (Ok(ClientboundRotateHead { entity_id, head_yaw }), s))))
    }
}

impl Roundtrip for ClientboundRotateHead {
    open spec fn encodable(p: ClientboundRotateHead) -> bool {
        true
    }

    open spec fn reads_to_end() -> bool {
        false
    }

    proof fn lemma_roundtrip(p: ClientboundRotateHead, rest: Seq<u8>) {
        broadcast use group_wire_roundtrip;

        let t1 = seq![p.head_yaw] + rest;
        lemma_concat_associative(VarInt::spec_encode(p.entity_id), seq![p.head_yaw], rest);
        VarInt::lemma_roundtrip(p.entity_id, t1);
    }
}

impl Encode for ClientboundRotateHead {
    fn encode(&self, dst: &mut BytesMut) -> (r: Result<(), ProtocolError>) {
        let ghost d0 = bytes_mut_data(*dst);
        let _ = self.entity_id.encode(dst);
        let ghost mut e: Seq<u8> = VarInt::spec_encode(self@.entity_id);
        put_u8(dst, self.head_yaw);
        proof {
            lemma_concat_associative(d0, e, seq![self@.head_yaw]);
            e = e + seq![self@.head_yaw];
        }
        Ok(())
    }
}

impl Decode for ClientboundRotateHead {
    fn decode(src: &mut Bytes) -> (r: Result<Self, ProtocolError>) {
        let entity_id = VarInt::decode(src)?;
        need(src, 1)?;
        let head_yaw = get_u8(src);
        Ok(Self { entity_id, head_yaw })
    }
}

// ── ClientboundSetCamera ──────────────────────────────────────────────

#[derive(Debug, Clone, PartialEq)]
pub struct ClientboundSetCamera {
    pub camera_id: VarInt,
}

impl View for ClientboundSetCamera {
    type V = ClientboundSetCamera;

    open spec fn view(&self) -> ClientboundSetCamera {
        *self
    }
}

impl PacketId for ClientboundSetCamera {
    open spec fn spec_packet_id(ver: u32) -> u8 {
        0x39
    }

    fn packet_id(_ver: u32) -> (r: u8) {
        0x39
    }
}

impl WireFormat for ClientboundSetCamera {
    open spec fn spec_encode(p: ClientboundSetCamera) -> Seq<u8> {
        VarInt::spec_encode(p.camera_id)
    }

    open spec fn spec_decode(s: Seq<u8>) -> Parsed<ClientboundSetCamera> {
        then(VarInt::spec_decode(s), |camera_id: VarInt, s: Seq<u8>| (Ok(ClientboundSetCamera { camera_id }), s))
    }
}

impl Roundtrip for ClientboundSetCamera {
    open spec fn encodable(p: ClientboundSetCamera) -> bool {
        true
    }

    open spec fn reads_to_end() -> bool {
        false
    }

    proof fn lemma_roundtrip(p: ClientboundSetCamera, rest: Seq<u8>) {
        broadcast use group_wire_roundtrip;

        VarInt::lemma_roundtrip(p.camera_id, rest);
    }
}

impl Encode for ClientboundSetCamera {
    fn encode(&self, dst: &mut BytesMut) -> (r: Result<(), ProtocolError>) {
        let ghost d0 = bytes_mut_data(*dst);
        let _ = self.camera_id.encode(dst);
        let ghost mut e: Seq<u8> = VarInt::spec_encode(self@.camera_id);
        Ok(())
    }
}

impl Decode for ClientboundSetCamera {
    fn decode(src: &mut Bytes) -> (r: Result<Self, ProtocolError>) {
        let camera_id = VarInt::decode(src)?;
        Ok(Self { camera_id })
    }
}

// ── ClientboundSetHeldItem ────────────────────────────────────────────

#[derive(Debug, Clone, PartialEq)]
pub struct ClientboundSetHeldItem {
    pub slot: u8,
}

impl View for ClientboundSetHeldItem {
    type V = ClientboundSetHeldItem;

    open spec fn view(&self) -> ClientboundSetHeldItem {
        *self
    }
}

impl PacketId for ClientboundSetHeldItem {
    open spec fn spec_packet_id(ver: u32) -> u8 {
        0x3A
    }

    fn packet_id(_ver: u32) -> (r: u8) {
        0x3A
    }
}

impl WireFormat for ClientboundSetHeldItem {
    open spec fn spec_encode(p: ClientboundSetHeldItem) -> Seq<u8> {
        seq![p.slot]
    }

    open spec fn spec_decode(s: Seq<u8>) -> Parsed<ClientboundSetHeldItem> {
        then(need_spec(s, 1), |_u: (), s: Seq<u8>| then(take_u8(s), |slot: u8, s: Seq<u8>| (Ok(ClientboundSetHeldItem { slot }), s)))
    }
}

impl Roundtrip for ClientboundSetHeldItem {
    open spec fn encodable(p: ClientboundSetHeldItem) -> bool {
        true
    }

    open spec fn reads_to_end() -> bool {
        false
    }

    proof fn lemma_roundtrip(p: ClientboundSetHeldItem, rest: Seq<u8>) {
        broadcast use group_wire_roundtrip;

    }
}

impl Encode for ClientboundSetHeldItem {
    fn encode(&self, dst: &mut BytesMut) -> (r: Result<(), ProtocolError>) {
        let ghost d0 = bytes_mut_data(*dst);
        put_u8(dst, self.slot);
        let ghost mut e: Seq<u8> = seq![self@.slot];
        Ok(())
    }
}

impl Decode for ClientboundSetHeldItem {
    fn decode(src: &mut Bytes) -> (r: Result<Self, ProtocolError>) {
        need(src, 1)?;
        let slot = get_u8(src);
        Ok(Self { slot })
    }
}

// ── ClientboundSetEntityLink ──────────────────────────────────────────

#[derive(Debug, Clone, PartialEq)]
pub struct ClientboundSetEntityLink {
    pub attached_entity_id: i32,
    pub holding_entity_id: i32,
}

impl View for ClientboundSetEntityLink {
    type V = ClientboundSetEntityLink;

    open spec fn view(&self) -> ClientboundSetEntityLink {
        *self
    }
}

impl PacketId for ClientboundSetEntityLink {
    open spec fn spec_packet_id(ver: u32) -> u8 {
        0x3D
    }

    fn packet_id(_ver: u32) -> (r: u8) {
        0x3D
    }
}

impl WireFormat for ClientboundSetEntityLink {
    open spec fn spec_encode(p: ClientboundSetEntityLink) -> Seq<u8> {
        be_i32_bytes(p.attached_entity_id) + be_i32_bytes(p.holding_entity_id)
    }

    open spec fn spec_decode(s: Seq<u8>) -> Parsed<ClientboundSetEntityLink> {
        then(need_spec(s, 8), |_u: (), s: Seq<u8>| then(take_i32(s), |attached_entity_id: i32, s: Seq<u8>| then(take_i32(s), |holding_entity_id: i32, s: Seq<u8>| (Ok(ClientboundSetEntityLink { attached_entity_id, holding_entity_id }), s))))
    }
}

impl Roundtrip for ClientboundSetEntityLink {
    open spec fn encodable(p: ClientboundSetEntityLink) -> bool {
        true
    }

    open spec fn reads_to_end() -> bool {
        false
    }

    proof fn lemma_roundtrip(p: ClientboundSetEntityLink, rest: Seq<u8>) {
        broadcast use group_wire_roundtrip;

        let t1 = be_i32_bytes(p.holding_entity_id) + rest;
        lemma_concat_associative(be_i32_bytes(p.attached_entity_id), be_i32_bytes(p.holding_entity_id), rest);
    }
}

impl Encode for ClientboundSetEntityLink {
    fn encode(&self, dst: &mut BytesMut) -> (r: Result<(), ProtocolError>) {
        let ghost d0 = bytes_mut_data(*dst);
        put_i32(dst, self.attached_entity_id);
        let ghost mut e: Seq<u8> = be_i32_bytes(self@.attached_entity_id);
        put_i32(dst, self.holding_entity_id);
        proof {
            lemma_concat_associative(d0, e, be_i32_bytes(self@.holding_entity_id));
            e = e + be_i32_bytes(self@.holding_entity_id);
        }
        Ok(())
    }
}

impl Decode for ClientboundSetEntityLink {
    fn decode(src: &mut Bytes) -> (r: Result<Self, ProtocolError>) {
        need(src, 8)?;
        let attached_entity_id = get_i32(src);
        let holding_entity_id = get_i32(src);
        Ok(Self { attached_entity_id, holding_entity_id })
    }
}

// ── ClientboundSetEntityMotion ────────────────────────────────────────

#[derive(Debug, Clone, PartialEq)]
pub struct ClientboundSetEntityMotion {
    pub entity_id: VarInt,
    pub velocity_x: i16,
    pub velocity_y: i16,
    pub velocity_z: i16,
}

impl View for ClientboundSetEntityMotion {
    type V = ClientboundSetEntityMotion;

    open spec fn view(&self) -> ClientboundSetEntityMotion {
        *self
    }
}

impl PacketId for ClientboundSetEntityMotion {
    open spec fn spec_packet_id(ver: u32) -> u8 {
        0x3E
    }

    fn packet_id(_ver: u32) -> (r: u8) {
        0x3E
    }
}

impl WireFormat for ClientboundSetEntityMotion {
    open spec fn spec_encode(p: ClientboundSetEntityMotion) -> Seq<u8> {
        VarInt::spec_encode(p.entity_id) + be_i16_bytes(p.velocity_x) + be_i16_bytes(p.velocity_y) + be_i16_bytes(p.velocity_z)
    }

    open spec fn spec_decode(s: Seq<u8>) -> Parsed<ClientboundSetEntityMotion> {
        then(VarInt::spec_decode(s), |entity_id: VarInt, s: Seq<u8>| then(need_spec(s, 6), |_u: (), s: Seq<u8>| then(take_i16(s), |velocity_x: i16, s: Seq<u8>| then(take_i16(s), |velocity_y: i16, s: Seq<u8>| then(take_i16(s), |velocity_z: i16, s: Seq<u8>| (Ok(ClientboundSetEntityMotion { entity_id, velocity_x, velocity_y, velocity_z }), s))))))
    }
}

impl Roundtrip for ClientboundSetEntityMotion {
    open spec fn encodable(p: ClientboundSetEntityMotion) -> bool {
        true
    }

    open spec fn reads_to_end() -> bool {
        false
    }

    proof fn lemma_roundtrip(p: ClientboundSetEntityMotion, rest: Seq<u8>) {
        broadcast use group_wire_roundtrip;

        let t3 = be_i16_bytes(p.velocity_z) + rest;
        let t2 = be_i16_bytes(p.velocity_y) + t3;
        let t1 = be_i16_bytes(p.velocity_x) + t2;
        lemma_concat_associative(VarInt::spec_encode(p.entity_id) + be_i16_bytes(p.velocity_x) + be_i16_bytes(p.velocity_y), be_i16_bytes(p.velocity_z), rest);
        lemma_concat_associative(VarInt::spec_encode(p.entity_id) + be_i16_bytes(p.velocity_x), be_i16_bytes(p.velocity_y), t3);
        lemma_concat_associative(VarInt::spec_encode(p.entity_id), be_i16_bytes(p.velocity_x), t2);
        VarInt::lemma_roundtrip(p.entity_id, t1);
    }
}

impl Encode for ClientboundSetEntityMotion {
    fn encode(&self, dst: &mut BytesMut) -> (r: Result<(), ProtocolError>) {
        let ghost d0 = bytes_mut_data(*dst);
        let _ = self.entity_id.encode(dst);
        let ghost mut e: Seq<u8> = VarInt::spec_encode(self@.entity_id);
        put_i16(dst, self.velocity_x);
        proof {
            lemma_concat_associative(d0, e, be_i16_bytes(self@.velocity_x));
            e = e + be_i16_bytes(self@.velocity_x);
        }
        put_i16(dst, self.velocity_y);
        proof {
            lemma_concat_associative(d0, e, be_i16_bytes(self@.velocity_y));
            e = e + be_i16_bytes(self@.velocity_y);
        }
        put_i16(dst, self.velocity_z);
        proof {
            lemma_concat_associative(d0, e, be_i16_bytes(self@.velocity_z));
            e = e + be_i16_bytes(self@.velocity_z);
        }
        Ok(())
    }
}

impl Decode for ClientboundSetEntityMotion {
    fn decode(src: &mut Bytes) -> (r: Result<Self, ProtocolError>) {
        let entity_id = VarInt::decode(src)?;
        need(src, 6)?;
        let velocity_x = get_i16(src);
        let velocity_y = get_i16(src);
        let velocity_z = get_i16(src);
        Ok(Self { entity_id, velocity_x, velocity_y, velocity_z })
    }
}

// ── ClientboundSetEquipment ───────────────────────────────────────────

#[derive(Debug, Clone, PartialEq)]
pub struct ClientboundSetEquipment {
    pub entity_id: VarInt,
    pub slot: VarInt,
    pub item: Vec<u8>,
}

pub struct ClientboundSetEquipmentView {
    pub entity_id: VarInt,
    pub slot: VarInt,
    pub item: Seq<u8>,
}

impl View for ClientboundSetEquipment {
    type V = ClientboundSetEquipmentView;

    open spec fn view(&self) -> ClientboundSetEquipmentView {
        ClientboundSetEquipmentView {
            entity_id: self.entity_id,
            slot: self.slot,
            item: self.item@,
        }
    }
}

impl PacketId for ClientboundSetEquipment {
    open spec fn spec_packet_id(ver: u32) -> u8 {
        0x3F
    }

    fn packet_id(_ver: u32) -> (r: u8) {
        0x3F
    }
}

impl WireFormat for ClientboundSetEquipment {
    open spec fn spec_encode(p: ClientboundSetEquipmentView) -> Seq<u8> {
        VarInt::spec_encode(p.entity_id) + VarInt::spec_encode(p.slot) + p.item
    }

    open spec fn spec_decode(s: Seq<u8>) -> Parsed<ClientboundSetEquipmentView> {
        then(VarInt::spec_decode(s), |entity_id: VarInt, s: Seq<u8>| then(VarInt::spec_decode(s), |slot: VarInt, s: Seq<u8>| then(take_rest(s), |item: Seq<u8>, s: Seq<u8>| (Ok(ClientboundSetEquipmentView { entity_id, slot, item }), s))))
    }
}

impl Roundtrip for ClientboundSetEquipment {
    open spec fn encodable(p: ClientboundSetEquipmentView) -> bool {
        true
    }

    open spec fn reads_to_end() -> bool {
        true
    }

    proof fn lemma_roundtrip(p: ClientboundSetEquipmentView, rest: Seq<u8>) {
        broadcast use group_wire_roundtrip;

        let t2 = p.item + rest;
        let t1 = VarInt::spec_encode(p.slot) + t2;
        lemma_concat_associative(VarInt::spec_encode(p.entity_id) + VarInt::spec_encode(p.slot), p.item, rest);
        lemma_concat_associative(VarInt::spec_encode(p.entity_id), VarInt::spec_encode(p.slot), t2);
        VarInt::lemma_roundtrip(p.entity_id, t1);
        VarInt::lemma_roundtrip(p.slot, t2);
        assert(p.item + rest =~= p.item);
    }
}

impl Encode for ClientboundSetEquipment {
    fn encode(&self, dst: &mut BytesMut) -> (r: Result<(), ProtocolError>) {
        let ghost d0 = bytes_mut_data(*dst);
        let _ = self.entity_id.encode(dst);
        let ghost mut e: Seq<u8> = VarInt::spec_encode(self@.entity_id);
        let _ = self.slot.encode(dst);
        proof {
            lemma_concat_associative(d0, e, VarInt::spec_encode(self@.slot));
            e = e + VarInt::spec_encode(self@.slot);
        }
        put_slice(dst, self.item.as_slice());
        proof {
            lemma_concat_associative(d0, e, self@.item);
            e = e + self@.item;
        }
        Ok(())
    }
}

impl Decode for ClientboundSetEquipment {
    fn decode(src: &mut Bytes) -> (r: Result<Self, ProtocolError>) {
        let entity_id = VarInt::decode(src)?;
        let slot = VarInt::decode(src)?;
        let item = take_remaining(src);
        Ok(Self { entity_id, slot, item })
    }
}

// ── ClientboundSetExperience ──────────────────────────────────────────

#[derive(Debug, Clone, PartialEq)]
pub struct ClientboundSetExperience {
    /// The bits of the `f32` value (`f32::to_bits`).
    pub experience_bar: u32,
    pub level: VarInt,
    pub total_experience: VarInt,
}

impl View for ClientboundSetExperience {
    type V = ClientboundSetExperience;

    open spec fn view(&self) -> ClientboundSetExperience {
        *self
    }
}

impl PacketId for ClientboundSetExperience {
    open spec fn spec_packet_id(ver: u32) -> u8 {
        0x40
    }

    fn packet_id(_ver: u32) -> (r: u8) {
        0x40
    }
}

impl WireFormat for ClientboundSetExperience {
    open spec fn spec_encode(p: ClientboundSetExperience) -> Seq<u8> {
        be_u32_bytes(p.experience_bar) + VarInt::spec_encode(p.level) + VarInt::spec_encode(p.total_experience)
    }

    open spec fn spec_decode(s: Seq<u8>) -> Parsed<ClientboundSetExperience> {
        then(need_spec(s, 4), |_u: (), s: Seq<u8>| then(take_u32(s), |experience_bar: u32, s: Seq<u8>| then(VarInt::spec_decode(s), |level: VarInt, s: Seq<u8>| then(VarInt::spec_decode(s), |total_experience: VarInt, s: Seq<u8>| (Ok(ClientboundSetExperience { experience_bar, level, total_experience }), s)))))
    }
}

impl Roundtrip for ClientboundSetExperience {
    open spec fn encodable(p: ClientboundSetExperience) -> bool {
        true
    }

    open spec fn reads_to_end() -> bool {
        false
    }

    proof fn lemma_roundtrip(p: ClientboundSetExperience, rest: Seq<u8>) {
        broadcast use group_wire_roundtrip;

        let t2 = VarInt::spec_encode(p.total_experience) + rest;
        let t1 = VarInt::spec_encode(p.level) + t2;
        lemma_concat_associative(be_u32_bytes(p.experience_bar) + VarInt::spec_encode(p.level), VarInt::spec_encode(p.total_experience), rest);
        lemma_concat_associative(be_u32_bytes(p.experience_bar), VarInt::spec_encode(p.level), t2);
        VarInt::lemma_roundtrip(p.level, t2);
        VarInt::lemma_roundtrip(p.total_experience, rest);
    }
}

impl Encode for ClientboundSetExperience {
    fn encode(&self, dst: &mut BytesMut) -> (r: Result<(), ProtocolError>) {
        let ghost d0 = bytes_mut_data(*dst);
        put_u32(dst, self.experience_bar);
        let ghost mut e: Seq<u8> = be_u32_bytes(self@.experience_bar);
        let _ = self.level.encode(dst);
        proof {
            lemma_concat_associative(d0, e, VarInt::spec_encode(self@.level));
            e = e + VarInt::spec_encode(self@.level);
        }
        let _ = self.total_experience.encode(dst);
        proof {
            lemma_concat_associative(d0, e, VarInt::spec_encode(self@.total_experience));
            e = e + VarInt::spec_encode(self@.total_experience);
        }
        Ok(())
    }
}

impl Decode for ClientboundSetExperience {
    fn decode(src: &mut Bytes) -> (r: Result<Self, ProtocolError>) {
        need(src, 4)?;
        let experience_bar = get_u32(src);
        let level = VarInt::decode(src)?;
        let total_experience = VarInt::decode(src)?;
        Ok(Self { experience_bar, level, total_experience })
    }
}

// ── ClientboundSetHealth ──────────────────────────────────────────────

#[derive(Debug, Clone, PartialEq)]
pub struct ClientboundSetHealth {
    /// The bits of the `f32` value (`f32::to_bits`).
    pub health: u32,
    pub food: VarInt,
    /// The bits of the `f32` value (`f32::to_bits`).
    pub food_saturation: u32,
}

impl View for ClientboundSetHealth {
    type V = ClientboundSetHealth;

    open spec fn view(&self) -> ClientboundSetHealth {
        *self
    }
}

impl PacketId for ClientboundSetHealth {
    open spec fn spec_packet_id(ver: u32) -> u8 {
        0x41
    }

    fn packet_id(_ver: u32) -> (r: u8) {
        0x41
    }
}

impl WireFormat for ClientboundSetHealth {
    open spec fn spec_encode(p: ClientboundSetHealth) -> Seq<u8> {
        be_u32_bytes(p.health) + VarInt::spec_encode(p.food) + be_u32_bytes(p.food_saturation)
    }

    open spec fn spec_decode(s: Seq<u8>) -> Parsed<ClientboundSetHealth> {
        then(need_spec(s, 4), |_u: (), s: Seq<u8>| then(take_u32(s), |health: u32, s: Seq<u8>| then(VarInt::spec_decode(s), |food: VarInt, s: Seq<u8>| then(need_spec(s, 4), |_u: (), s: Seq<u8>| then(take_u32(s), |food_saturation: u32, s: Seq<u8>| (Ok(ClientboundSetHealth { health, food, food_saturation }), s))))))
    }
}

impl Roundtrip for ClientboundSetHealth {
    open spec fn encodable(p: ClientboundSetHealth) -> bool {
        true
    }

    open spec fn reads_to_end() -> bool {
        false
    }

    proof fn lemma_roundtrip(p: ClientboundSetHealth, rest: Seq<u8>) {
        broadcast use group_wire_roundtrip;

        let t2 = be_u32_bytes(p.food_saturation) + rest;
        let t1 = VarInt::spec_encode(p.food) + t2;
        lemma_concat_associative(be_u32_bytes(p.health) + VarInt::spec_encode(p.food), be_u32_bytes(p.food_saturation), rest);
        lemma_concat_associative(be_u32_bytes(p.health), VarInt::spec_encode(p.food), t2);
        VarInt::lemma_roundtrip(p.food, t2);
    }
}

impl Encode for ClientboundSetHealth {
    fn encode(&self, dst: &mut BytesMut) -> (r: Result<(), ProtocolError>) {
        let ghost d0 = bytes_mut_data(*dst);
        put_u32(dst, self.health);
        let ghost mut e: Seq<u8> = be_u32_bytes(self@.health);
        let _ = self.food.encode(dst);
        proof {
            lemma_concat_associative(d0, e, VarInt::spec_encode(self@.food));
            e = e + VarInt::spec_encode(self@.food);
        }
        put_u32(dst, self.food_saturation);
        proof {
            lemma_concat_associative(d0, e, be_u32_bytes(self@.food_saturation));
            e = e + be_u32_bytes(self@.food_saturation);
        }
        Ok(())
    }
}

impl Decode for ClientboundSetHealth {
    fn decode(src: &mut Bytes) -> (r: Result<Self, ProtocolError>) {
        need(src, 4)?;
        let health = get_u32(src);
        let food = VarInt::decode(src)?;
        need(src, 4)?;
        let food_saturation = get_u32(src);
        Ok(Self { health, food, food_saturation })
    }
}

// ── ClientboundSetTime ────────────────────────────────────────────────

#[derive(Debug, Clone, PartialEq)]
pub struct ClientboundSetTime {
    pub world_age: i64,
    pub time_of_day: i64,
}

impl View for ClientboundSetTime {
    type V = ClientboundSetTime;

    open spec fn view(&self) -> ClientboundSetTime {
        *self
    }
}

impl PacketId for ClientboundSetTime {
    open spec fn spec_packet_id(ver: u32) -> u8 {
        0x47
    }

    fn packet_id(_ver: u32) -> (r: u8) {
        0x47
    }
}

impl WireFormat for ClientboundSetTime {
    open spec fn spec_encode(p: ClientboundSetTime) -> Seq<u8> {
        be_i64_bytes(p.world_age) + be_i64_bytes(p.time_of_day)
    }

    open spec fn spec_decode(s: Seq<u8>) -> Parsed<ClientboundSetTime> {
        then(need_spec(s, 16), |_u: (), s: Seq<u8>| then(take_i64(s), |world_age: i64, s: Seq<u8>| then(take_i64(s), |time_of_day: i64, s: Seq<u8>| (Ok(ClientboundSetTime { world_age, time_of_day }), s))))
    }
}

impl Roundtrip for ClientboundSetTime {
    open spec fn encodable(p: ClientboundSetTime) -> bool {
        true
    }

    open spec fn reads_to_end() -> bool {
        false
    }

    proof fn lemma_roundtrip(p: ClientboundSetTime, rest: Seq<u8>) {
        broadcast use group_wire_roundtrip;

        let t1 = be_i64_bytes(p.time_of_day) + rest;
        lemma_concat_associative(be_i64_bytes(p.world_age), be_i64_bytes(p.time_of_day), rest);
    }
}

impl Encode for ClientboundSetTime {
    fn encode(&self, dst: &mut BytesMut) -> (r: Result<(), ProtocolError>) {
        let ghost d0 = bytes_mut_data(*dst);
        put_i64(dst, self.world_age);
        let ghost mut e: Seq<u8> = be_i64_bytes(self@.world_age);
        put_i64(dst, self.time_of_day);
        proof {
            lemma_concat_associative(d0, e, be_i64_bytes(self@.time_of_day));
            e = e + be_i64_bytes(self@.time_of_day);
        }
        Ok(())
    }
}

impl Decode for ClientboundSetTime {
    fn decode(src: &mut Bytes) -> (r: Result<Self, ProtocolError>) {
        need(src, 16)?;
        let world_age = get_i64(src);
        let time_of_day = get_i64(src);
        Ok(Self { world_age, time_of_day })
    }
}

// ── ClientboundSound ──────────────────────────────────────────────────

#[derive(Debug, Clone, PartialEq)]
pub struct ClientboundSound {
    pub sound_id: VarInt,
    pub sound_category: VarInt,
    pub effect_pos_x: i32,
    pub effect_pos_y: i32,
    pub effect_pos_z: i32,
    /// The bits of the `f32` value (`f32::to_bits`).
    pub volume: u32,
    /// The bits of the `f32` value (`f32::to_bits`).
    pub pitch: u32,
}

impl View for ClientboundSound {
    type V = ClientboundSound;

    open spec fn view(&self) -> ClientboundSound {
        *self
    }
}

impl PacketId for ClientboundSound {
    open spec fn spec_packet_id(ver: u32) -> u8 {
        0x48
    }

    fn packet_id(_ver: u32) -> (r: u8) {
        0x48
    }
}

impl WireFormat for ClientboundSound {
    open spec fn spec_encode(p: ClientboundSound) -> Seq<u8> {
        VarInt::spec_encode(p.sound_id) + VarInt::spec_encode(p.sound_category) + be_i32_bytes(p.effect_pos_x) + be_i32_bytes(p.effect_pos_y) + be_i32_bytes(p.effect_pos_z) + be_u32_bytes(p.volume) + be_u32_bytes(p.pitch)
    }

    open spec fn spec_decode(s: Seq<u8>) -> Parsed<ClientboundSound> {
        then(VarInt::spec_decode(s), |sound_id: VarInt, s: Seq<u8>| then(VarInt::spec_decode(s), |sound_category: VarInt, s: Seq<u8>| then(need_spec(s, 20), |_u: (), s: Seq<u8>| then(take_i32(s), |effect_pos_x: i32, s: Seq<u8>| then(take_i32(s), |effect_pos_y: i32, s: Seq<u8>| then(take_i32(s), |effect_pos_z: i32, s: Seq<u8>| then(take_u32(s), |volume: u32, s: Seq<u8>| then(take_u32(s), |pitch: u32, s: Seq<u8>| (Ok(ClientboundSound { sound_id, sound_category, effect_pos_x, effect_pos_y, effect_pos_z, volume, pitch }), s)))))))))
    }
}

impl Roundtrip for ClientboundSound {
    open spec fn encodable(p: ClientboundSound) -> bool {
        true
    }

    open spec fn reads_to_end() -> bool {
        false
    }

    #[verifier::rlimit(100)]
    #[verifier::spinoff_prover]
    proof fn lemma_roundtrip(p: ClientboundSound, rest: Seq<u8>) {
        broadcast use group_wire_roundtrip;

        let t6 = be_u32_bytes(p.pitch) + rest;
        let t5 = be_u32_bytes(p.volume) + t6;
        let t4 = be_i32_bytes(p.effect_pos_z) + t5;
        let t3 = be_i32_bytes(p.effect_pos_y) + t4;
        let t2 = be_i32_bytes(p.effect_pos_x) + t3;
        let t1 = VarInt::spec_encode(p.sound_category) + t2;
        lemma_concat_associative(VarInt::spec_encode(p.sound_id) + VarInt::spec_encode(p.sound_category) + be_i32_bytes(p.effect_pos_x) + be_i32_bytes(p.effect_pos_y) + be_i32_bytes(p.effect_pos_z) + be_u32_bytes(p.volume), be_u32_bytes(p.pitch), rest);
        lemma_concat_associative(VarInt::spec_encode(p.sound_id) + VarInt::spec_encode(p.sound_category) + be_i32_bytes(p.effect_pos_x) + be_i32_bytes(p.effect_pos_y) + be_i32_bytes(p.effect_pos_z), be_u32_bytes(p.volume), t6);
        lemma_concat_associative(VarInt::spec_encode(p.sound_id) + VarInt::spec_encode(p.sound_category) + be_i32_bytes(p.effect_pos_x) + be_i32_bytes(p.effect_pos_y), be_i32_bytes(p.effect_pos_z), t5);
        lemma_concat_associative(VarInt::spec_encode(p.sound_id) + VarInt::spec_encode(p.sound_category) + be_i32_bytes(p.effect_pos_x), be_i32_bytes(p.effect_pos_y), t4);
        lemma_concat_associative(VarInt::spec_encode(p.sound_id) + VarInt::spec_encode(p.sound_category), be_i32_bytes(p.effect_pos_x), t3);
        lemma_concat_associative(VarInt::spec_encode(p.sound_id), VarInt::spec_encode(p.sound_category), t2);
        VarInt::lemma_roundtrip(p.sound_id, t1);
        VarInt::lemma_roundtrip(p.sound_category, t2);
    }
}

impl Encode for ClientboundSound {
    fn encode(&self, dst: &mut BytesMut) -> (r: Result<(), ProtocolError>) {
        let ghost d0 = bytes_mut_data(*dst);
        let _ = self.sound_id.encode(dst);
        let ghost mut e: Seq<u8> = VarInt::spec_encode(self@.sound_id);
        let _ = self.sound_category.encode(dst);
        proof {
            lemma_concat_associative(d0, e, VarInt::spec_encode(self@.sound_category));
            e = e + VarInt::spec_encode(self@.sound_category);
        }
        put_i32(dst, self.effect_pos_x);
        proof {
            lemma_concat_associative(d0, e, be_i32_bytes(self@.effect_pos_x));
            e = e + be_i32_bytes(self@.effect_pos_x);
        }
        put_i32(dst, self.effect_pos_y);
        proof {
            lemma_concat_associative(d0, e, be_i32_bytes(self@.effect_pos_y));
            e = e + be_i32_bytes(self@.effect_pos_y);
        }
        put_i32(dst, self.effect_pos_z);
        proof {
            lemma_concat_associative(d0, e, be_i32_bytes(self@.effect_pos_z));
            e = e + be_i32_bytes(self@.effect_pos_z);
        }
        put_u32(dst, self.volume);
        proof {
            lemma_concat_associative(d0, e, be_u32_bytes(self@.volume));
            e = e + be_u32_bytes(self@.volume);
        }
        put_u32(dst, self.pitch);
        proof {
            lemma_concat_associative(d0, e, be_u32_bytes(self@.pitch));
            e = e + be_u32_bytes(self@.pitch);
        }
        Ok(())
    }
}

impl Decode for ClientboundSound {
    fn decode(src: &mut Bytes) -> (r: Result<Self, ProtocolError>) {
        let sound_id = VarInt::decode(src)?;
        let sound_category = VarInt::decode(src)?;
        need(src, 20)?;
        let effect_pos_x = get_i32(src);
        let effect_pos_y = get_i32(src);
        let effect_pos_z = get_i32(src);
        let volume = get_u32(src);
        let pitch = get_u32(src);
        Ok(Self { sound_id, sound_category, effect_pos_x, effect_pos_y, effect_pos_z, volume, pitch })
    }
}

// ── ClientboundTabList ────────────────────────────────────────────────

#[derive(Debug, Clone, PartialEq)]
pub struct ClientboundTabList {
    pub header: String,
    pub footer: String,
}

pub struct ClientboundTabListView {
    pub header: Seq<char>,
    pub footer: Seq<char>,
}

impl View for ClientboundTabList {
    type V = ClientboundTabListView;

    open spec fn view(&self) -> ClientboundTabListView {
        ClientboundTabListView {
            header: self.header@,
            footer: self.footer@,
        }
    }
}

impl PacketId for ClientboundTabList {
    open spec fn spec_packet_id(ver: u32) -> u8 {
        0x48
    }

    fn packet_id(_ver: u32) -> (r: u8) {
        0x48
    }
}

impl WireFormat for ClientboundTabList {
    open spec fn spec_encode(p: ClientboundTabListView) -> Seq<u8> {
        string_wire(p.header) + string_wire(p.footer)
    }

    open spec fn spec_decode(s: Seq<u8>) -> Parsed<ClientboundTabListView> {
        then(str_spec(s, "ClientboundTabList header"@), |header: Seq<char>, s: Seq<u8>| then(str_spec(s, "ClientboundTabList footer"@), |footer: Seq<char>, s: Seq<u8>| (Ok(ClientboundTabListView { header, footer }), s)))
    }
}

impl Roundtrip for ClientboundTabList {
    open spec fn encodable(p: ClientboundTabListView) -> bool {
        string_fits(p.header) && string_fits(p.footer)
    }

    open spec fn reads_to_end() -> bool {
        false
    }

    proof fn lemma_roundtrip(p: ClientboundTabListView, rest: Seq<u8>) {
        broadcast use group_wire_roundtrip;

        let t1 = string_wire(p.footer) + rest;
        lemma_concat_associative(string_wire(p.header), string_wire(p.footer), rest);
        lemma_string_roundtrip(p.header, t1, missing_for("ClientboundTabList header"@), invalid_in("ClientboundTabList header"@));
        lemma_string_roundtrip(p.footer, rest, missing_for("ClientboundTabList footer"@), invalid_in("ClientboundTabList footer"@));
    }
}

impl Encode for ClientboundTabList {
    fn encode(&self, dst: &mut BytesMut) -> (r: Result<(), ProtocolError>) {
        let ghost d0 = bytes_mut_data(*dst);
        encode_str(self.header.as_str(), dst);
        let ghost mut e: Seq<u8> = string_wire(self@.header);
        encode_str(self.footer.as_str(), dst);
        proof {
            lemma_concat_associative(d0, e, string_wire(self@.footer));
            e = e + string_wire(self@.footer);
        }
        Ok(())
    }
}

impl Decode for ClientboundTabList {
    fn decode(src: &mut Bytes) -> (r: Result<Self, ProtocolError>) {
        let header = decode_str(src, "ClientboundTabList header")?;
        let footer = decode_str(src, "ClientboundTabList footer")?;
        Ok(Self { header, footer })
    }
}

// ── ClientboundTakeItemEntity ─────────────────────────────────────────

#[derive(Debug, Clone, PartialEq)]
pub struct ClientboundTakeItemEntity {
    pub collected_entity_id: VarInt,
    pub collector_entity_id: VarInt,
    pub pickup_item_count: VarInt,
}

impl View for ClientboundTakeItemEntity {
    type V = ClientboundTakeItemEntity;

    open spec fn view(&self) -> ClientboundTakeItemEntity {
        *self
    }
}

impl PacketId for ClientboundTakeItemEntity {
    open spec fn spec_packet_id(ver: u32) -> u8 {
        0x4B
    }

    fn packet_id(_ver: u32) -> (r: u8) {
        0x4B
    }
}

impl WireFormat for ClientboundTakeItemEntity {
    open spec fn spec_encode(p: ClientboundTakeItemEntity) -> Seq<u8> {
        VarInt::spec_encode(p.collected_entity_id) + VarInt::spec_encode(p.collector_entity_id) + VarInt::spec_encode(p.pickup_item_count)
    }

    open spec fn spec_decode(s: Seq<u8>) -> Parsed<ClientboundTakeItemEntity> {
        then(VarInt::spec_decode(s), |collected_entity_id: VarInt, s: Seq<u8>| then(VarInt::spec_decode(s), |collector_entity_id: VarInt, s: Seq<u8>| then(VarInt::spec_decode(s), |pickup_item_count: VarInt, s: Seq<u8>| (Ok(ClientboundTakeItemEntity { collected_entity_id, collector_entity_id, pickup_item_count }), s))))
    }
}

impl Roundtrip for ClientboundTakeItemEntity {
    open spec fn encodable(p: ClientboundTakeItemEntity) -> bool {
        true
    }

    open spec fn reads_to_end() -> bool {
        false
    }

    proof fn lemma_roundtrip(p: ClientboundTakeItemEntity, rest: Seq<u8>) {
        broadcast use group_wire_roundtrip;

        let t2 = VarInt::spec_encode(p.pickup_item_count) + rest;
        let t1 = VarInt::spec_encode(p.collector_entity_id) + t2;
        lemma_concat_associative(VarInt::spec_encode(p.collected_entity_id) + VarInt::spec_encode(p.collector_entity_id), VarInt::spec_encode(p.pickup_item_count), rest);
        lemma_concat_associative(VarInt::spec_encode(p.collected_entity_id), VarInt::spec_encode(p.collector_entity_id), t2);
        VarInt::lemma_roundtrip(p.collected_entity_id, t1);
        VarInt::lemma_roundtrip(p.collector_entity_id, t2);
        VarInt::lemma_roundtrip(p.pickup_item_count, rest);
    }
}

impl Encode for ClientboundTakeItemEntity {
    fn encode(&self, dst: &mut BytesMut) -> (r: Result<(), ProtocolError>) {
        let ghost d0 = bytes_mut_data(*dst);
        let _ = self.collected_entity_id.encode(dst);
        let ghost mut e: Seq<u8> = VarInt::spec_encode(self@.collected_entity_id);
        let _ = self.collector_entity_id.encode(dst);
        proof {
            lemma_concat_associative(d0, e, VarInt::spec_encode(self@.collector_entity_id));
            e = e + VarInt::spec_encode(self@.collector_entity_id);
        }
        let _ = self.pickup_item_count.encode(dst);
        proof {
            lemma_concat_associative(d0, e, VarInt::spec_encode(self@.pickup_item_count));
            e = e + VarInt::spec_encode(self@.pickup_item_count);
        }
        Ok(())
    }
}

impl Decode for ClientboundTakeItemEntity {
    fn decode(src: &mut Bytes) -> (r: Result<Self, ProtocolError>) {
        let collected_entity_id = VarInt::decode(src)?;
        let collector_entity_id = VarInt::decode(src)?;
        let pickup_item_count = VarInt::decode(src)?;
        Ok(Self { collected_entity_id, collector_entity_id, pickup_item_count })
    }
}

// ── ClientboundTeleportEntity ─────────────────────────────────────────

#[derive(Debug, Clone, PartialEq)]
pub struct ClientboundTeleportEntity {
    pub entity_id: VarInt,
    /// The bits of the `f64` value (`f64::to_bits`).
    pub x: u64,
    /// The bits of the `f64` value (`f64::to_bits`).
    pub y: u64,
    /// The bits of the `f64` value (`f64::to_bits`).
    pub z: u64,
    pub yaw: u8,
    pub pitch: u8,
    pub on_ground: bool,
}

impl View for ClientboundTeleportEntity {
    type V = ClientboundTeleportEntity;

    open spec fn view(&self) -> ClientboundTeleportEntity {
        *self
    }
}

impl PacketId for ClientboundTeleportEntity {
    open spec fn spec_packet_id(ver: u32) -> u8 {
        0x4C
    }

    fn packet_id(_ver: u32) -> (r: u8) {
        0x4C
    }
}

impl WireFormat for ClientboundTeleportEntity {
    open spec fn spec_encode(p: ClientboundTeleportEntity) -> Seq<u8> {
        VarInt::spec_encode(p.entity_id) + be_u64_bytes(p.x) + be_u64_bytes(p.y) + be_u64_bytes(p.z) + seq![p.yaw] + seq![p.pitch] + seq![bool_byte(p.on_ground)]
    }

    open spec fn spec_decode(s: Seq<u8>) -> Parsed<ClientboundTeleportEntity> {
        then(VarInt::spec_decode(s), |entity_id: VarInt, s: Seq<u8>| then(need_spec(s, 27), |_u: (), s: Seq<u8>| then(take_u64(s), |x: u64, s: Seq<u8>| then(take_u64(s), |y: u64, s: Seq<u8>| then(take_u64(s), |z: u64, s: Seq<u8>| then(take_u8(s), |yaw: u8, s: Seq<u8>| then(take_u8(s), |pitch: u8, s: Seq<u8>| then(take_bool(s), |on_ground: bool, s: Seq<u8>| (Ok(ClientboundTeleportEntity { entity_id, x, y, z, yaw, pitch, on_ground }), s)))))))))
    }
}

impl Roundtrip for ClientboundTeleportEntity {
    open spec fn encodable(p: ClientboundTeleportEntity) -> bool {
        true
    }

    open spec fn reads_to_end() -> bool {
        false
    }

    #[verifier::rlimit(100)]
    #[verifier::spinoff_prover]
    proof fn lemma_roundtrip(p: ClientboundTeleportEntity, rest: Seq<u8>) {
        broadcast use group_wire_roundtrip;

        let t6 = seq![bool_byte(p.on_ground)] + rest;
        let t5 = seq![p.pitch] + t6;
        let t4 = seq![p.yaw] + t5;
        let t3 = be_u64_bytes(p.z) + t4;
        let t2 = be_u64_bytes(p.y) + t3;
        let t1 = be_u64_bytes(p.x) + t2;
        lemma_concat_associative(VarInt::spec_encode(p.entity_id) + be_u64_bytes(p.x) + be_u64_bytes(p.y) + be_u64_bytes(p.z) + seq![p.yaw] + seq![p.pitch], seq![bool_byte(p.on_ground)], rest);
        lemma_concat_associative(VarInt::spec_encode(p.entity_id) + be_u64_bytes(p.x) + be_u64_bytes(p.y) + be_u64_bytes(p.z) + seq![p.yaw], seq![p.pitch], t6);
        lemma_concat_associative(VarInt::spec_encode(p.entity_id) + be_u64_bytes(p.x) + be_u64_bytes(p.y) + be_u64_bytes(p.z), seq![p.yaw], t5);
        lemma_concat_associative(VarInt::spec_encode(p.entity_id) + be_u64_bytes(p.x) + be_u64_bytes(p.y), be_u64_bytes(p.z), t4);
        lemma_concat_associative(VarInt::spec_encode(p.entity_id) + be_u64_bytes(p.x), be_u64_bytes(p.y), t3);
        lemma_concat_associative(VarInt::spec_encode(p.entity_id), be_u64_bytes(p.x), t2);
        VarInt::lemma_roundtrip(p.entity_id, t1);
    }
}

impl Encode for ClientboundTeleportEntity {
    fn encode(&self, dst: &mut BytesMut) -> (r: Result<(), ProtocolError>) {
        let ghost d0 = bytes_mut_data(*dst);
        let _ = self.entity_id.encode(dst);
        let ghost mut e: Seq<u8> = VarInt::spec_encode(self@.entity_id);
        put_u64(dst, self.x);
        proof {
            lemma_concat_associative(d0, e, be_u64_bytes(self@.x));
            e = e + be_u64_bytes(self@.x);
        }
        put_u64(dst, self.y);
        proof {
            lemma_concat_associative(d0, e, be_u64_bytes(self@.y));
            e = e + be_u64_bytes(self@.y);
        }
        put_u64(dst, self.z);
        proof {
            lemma_concat_associative(d0, e, be_u64_bytes(self@.z));
            e = e + be_u64_bytes(self@.z);
        }
        put_u8(dst, self.yaw);
        proof {
            lemma_concat_associative(d0, e, seq![self@.yaw]);
            e = e + seq![self@.yaw];
        }
        put_u8(dst, self.pitch);
        proof {
            lemma_concat_associative(d0, e, seq![self@.pitch]);
            e = e + seq![self@.pitch];
        }
        put_u8(dst, self.on_ground as u8);
        proof {
            lemma_concat_associative(d0, e, seq![bool_byte(self@.on_ground)]);
            e = e + seq![bool_byte(self@.on_ground)];
        }
        Ok(())
    }
}

impl Decode for ClientboundTeleportEntity {
    fn decode(src: &mut Bytes) -> (r: Result<Self, ProtocolError>) {
        let entity_id = VarInt::decode(src)?;
        need(src, 27)?;
        let x = get_u64(src);
        let y = get_u64(src);
        let z = get_u64(src);
        let yaw = get_u8(src);
        let pitch = get_u8(src);
        let on_ground = get_u8(src) != 0;
        Ok(Self { entity_id, x, y, z, yaw, pitch, on_ground })
    }
}

// ── ClientboundUpdateEffects ──────────────────────────────────────────

#[derive(Debug, Clone, PartialEq)]
pub struct ClientboundUpdateEffects {
    pub entity_id: VarInt,
    pub effect_id: u8,
    pub amplifier: u8,
    pub duration: VarInt,
    pub flags: u8,
}

impl View for ClientboundUpdateEffects {
    type V = ClientboundUpdateEffects;

    open spec fn view(&self) -> ClientboundUpdateEffects {
        *self
    }
}

impl PacketId for ClientboundUpdateEffects {
    open spec fn spec_packet_id(ver: u32) -> u8 {
        0x4F
    }

    fn packet_id(_ver: u32) -> (r: u8) {
        0x4F
    }
}

impl WireFormat for ClientboundUpdateEffects {
    open spec fn spec_encode(p: ClientboundUpdateEffects) -> Seq<u8> {
        VarInt::spec_encode(p.entity_id) + seq![p.effect_id] + seq![p.amplifier] + VarInt::spec_encode(p.duration) + seq![p.flags]
    }

    open spec fn spec_decode(s: Seq<u8>) -> Parsed<ClientboundUpdateEffects> {
        then(VarInt::spec_decode(s), |entity_id: VarInt, s: Seq<u8>| then(need_spec(s, 2), |_u: (), s: Seq<u8>| then(take_u8(s), |effect_id: u8, s: Seq<u8>| then(take_u8(s), |amplifier: u8, s: Seq<u8>| then(VarInt::spec_decode(s), |duration: VarInt, s: Seq<u8>| then(need_spec(s, 1), |_u: (), s: Seq<u8>| then(take_u8(s), |flags: u8, s: Seq<u8>| (Ok(ClientboundUpdateEffects { entity_id, effect_id, amplifier, duration, flags }), s))))))))
    }
}

impl Roundtrip for ClientboundUpdateEffects {
    open spec fn encodable(p: ClientboundUpdateEffects) -> bool {
        true
    }

    open spec fn reads_to_end() -> bool {
        false
    }

    #[verifier::rlimit(100)]
    #[verifier::spinoff_prover]
    proof fn lemma_roundtrip(p: ClientboundUpdateEffects, rest: Seq<u8>) {
        broadcast use group_wire_roundtrip;

        let t4 = seq![p.flags] + rest;
        let t3 = VarInt::spec_encode(p.duration) + t4;
        let t2 = seq![p.amplifier] + t3;
        let t1 = seq![p.effect_id] + t2;
        lemma_concat_associative(VarInt::spec_encode(p.entity_id) + seq![p.effect_id] + seq![p.amplifier] + VarInt::spec_encode(p.duration), seq![p.flags], rest);
        lemma_concat_associative(VarInt::spec_encode(p.entity_id) + seq![p.effect_id] + seq![p.amplifier], VarInt::spec_encode(p.duration), t4);
        lemma_concat_associative(VarInt::spec_encode(p.entity_id) + seq![p.effect_id], seq![p.amplifier], t3);
        lemma_concat_associative(VarInt::spec_encode(p.entity_id), seq![p.effect_id], t2);
        VarInt::lemma_roundtrip(p.entity_id, t1);
        VarInt::lemma_roundtrip(p.duration, t4);
    }
}

impl Encode for ClientboundUpdateEffects {
    fn encode(&self, dst: &mut BytesMut) -> (r: Result<(), ProtocolError>) {
        let ghost d0 = bytes_mut_data(*dst);
        let _ = self.entity_id.encode(dst);
        let ghost mut e: Seq<u8> = VarInt::spec_encode(self@.entity_id);
        put_u8(dst, self.effect_id);
        proof {
            lemma_concat_associative(d0, e, seq![self@.effect_id]);
            e = e + seq![self@.effect_id];
        }
        put_u8(dst, self.amplifier);
        proof {
            lemma_concat_associative(d0, e, seq![self@.amplifier]);
            e = e + seq![self@.amplifier];
        }
        let _ = self.duration.encode(dst);
        proof {
            lemma_concat_associative(d0, e, VarInt::spec_encode(self@.duration));
            e = e + VarInt::spec_encode(self@.duration);
        }
        put_u8(dst, self.flags);
        proof {
            lemma_concat_associative(d0, e, seq![self@.flags]);
            e = e + seq![self@.flags];
        }
        Ok(())
    }
}

impl Decode for ClientboundUpdateEffects {
    fn decode(src: &mut Bytes) -> (r: Result<Self, ProtocolError>) {
        let entity_id = VarInt::decode(src)?;
        need(src, 2)?;
        let effect_id = get_u8(src);
        let amplifier = get_u8(src);
        let duration = VarInt::decode(src)?;
        need(src, 1)?;
        let flags = get_u8(src);
        Ok(Self { entity_id, effect_id, amplifier, duration, flags })
    }
}

// ── ClientboundSpawnGlobalEntity ──────────────────────────────────────

/// A thunderbolt (the one global entity of 1.12.2) at a position.
#[derive(Debug, Clone, PartialEq)]
pub struct ClientboundSpawnGlobalEntity {
    /// A plain big-endian `i32` in 1.12.2, not a VarInt.
    pub entity_id: i32,
    /// Always 1, the thunderbolt.
    pub kind: u8,
    /// The bits of the `f64` value (`f64::to_bits`).
    pub x: u64,
    /// The bits of the `f64` value (`f64::to_bits`).
    pub y: u64,
    /// The bits of the `f64` value (`f64::to_bits`).
    pub z: u64,
}

impl View for ClientboundSpawnGlobalEntity {
    type V = ClientboundSpawnGlobalEntity;

    open spec fn view(&self) -> ClientboundSpawnGlobalEntity {
        *self
    }
}

impl PacketId for ClientboundSpawnGlobalEntity {
    open spec fn spec_packet_id(ver: u32) -> u8 {
        0x02
    }

    fn packet_id(_ver: u32) -> (r: u8) {
        0x02
    }
}

impl WireFormat for ClientboundSpawnGlobalEntity {
    open spec fn spec_encode(p: ClientboundSpawnGlobalEntity) -> Seq<u8> {
        be_i32_bytes(p.entity_id) + seq![p.kind] + be_u64_bytes(p.x) + be_u64_bytes(p.y) + be_u64_bytes(p.z)
    }

    open spec fn spec_decode(s: Seq<u8>) -> Parsed<ClientboundSpawnGlobalEntity> {
        then(need_msg_spec(s, 29, "Nedostatek dat pro ClientboundSpawnGlobalEntity (vyzadovano 29B)"@), |_u: (), s: Seq<u8>| then(take_i32(s), |entity_id: i32, s: Seq<u8>| then(take_u8(s), |kind: u8, s: Seq<u8>| then(take_u64(s), |x: u64, s: Seq<u8>| then(take_u64(s), |y: u64, s: Seq<u8>| then(take_u64(s), |z: u64, s: Seq<u8>| (Ok(ClientboundSpawnGlobalEntity { entity_id, kind, x, y, z }), s)))))))
    }
}

impl Roundtrip for ClientboundSpawnGlobalEntity {
    open spec fn encodable(p: ClientboundSpawnGlobalEntity) -> bool {
        true
    }

    open spec fn reads_to_end() -> bool {
        false
    }

    #[verifier::rlimit(100)]
    #[verifier::spinoff_prover]
    proof fn lemma_roundtrip(p: ClientboundSpawnGlobalEntity, rest: Seq<u8>) {
        broadcast use group_wire_roundtrip;

        let t4 = be_u64_bytes(p.z) + rest;
        let t3 = be_u64_bytes(p.y) + t4;
        let t2 = be_u64_bytes(p.x) + t3;
        let t1 = seq![p.kind] + t2;
        lemma_concat_associative(be_i32_bytes(p.entity_id) + seq![p.kind] + be_u64_bytes(p.x) + be_u64_bytes(p.y), be_u64_bytes(p.z), rest);
        lemma_concat_associative(be_i32_bytes(p.entity_id) + seq![p.kind] + be_u64_bytes(p.x), be_u64_bytes(p.y), t4);
        lemma_concat_associative(be_i32_bytes(p.entity_id) + seq![p.kind], be_u64_bytes(p.x), t3);
        lemma_concat_associative(be_i32_bytes(p.entity_id), seq![p.kind], t2);
        assert((be_i32_bytes(p.entity_id) + t1).len() >= 29);
    }
}

impl ClientboundSpawnGlobalEntity {
    /// Replaces what `dst` holds with the wire form of the packet. Unlike
    /// the `Encode` impls, which append, this one clears `dst` first.
    pub fn encode(&self, dst: &mut BytesMut) -> (r: Result<(), ProtocolError>)
        ensures
            r is Ok,
            bytes_mut_data(*final(dst)) == Self::spec_encode(self@),
    {
        clear(dst);
        put_i32(dst, self.entity_id);
        let ghost mut e: Seq<u8> = be_i32_bytes(self@.entity_id);
        assert(bytes_mut_data(*dst) =~= e);
        put_u8(dst, self.kind);
        proof {
            e = e + seq![self@.kind];
            assert(bytes_mut_data(*dst) =~= e);
        }
        put_u64(dst, self.x);
        proof {
            e = e + be_u64_bytes(self@.x);
        }
        put_u64(dst, self.y);
        proof {
            e = e + be_u64_bytes(self@.y);
        }
        put_u64(dst, self.z);
        proof {
            e = e + be_u64_bytes(self@.z);
        }
        Ok(())
    }
}

impl Decode for ClientboundSpawnGlobalEntity {
    fn decode(src: &mut Bytes) -> (r: Result<Self, ProtocolError>) {
        need_msg(src, 29, "Nedostatek dat pro ClientboundSpawnGlobalEntity (vyzadovano 29B)")?;
        let entity_id = get_i32(src);
        let kind = get_u8(src);
        let x = get_u64(src);
        let y = get_u64(src);
        let z = get_u64(src);
        Ok(Self { entity_id, kind, x, y, z })
    }
}

// ── ServerboundCustomPayload ──────────────────────────────────────────

#[derive(Debug, Clone, PartialEq)]
pub struct ServerboundCustomPayload {
    pub channel: String,
    pub data: Vec<u8>,
}

pub struct ServerboundCustomPayloadView {
    pub channel: Seq<char>,
    pub data: Seq<u8>,
}

impl View for ServerboundCustomPayload {
    type V = ServerboundCustomPayloadView;

    open spec fn view(&self) -> ServerboundCustomPayloadView {
        ServerboundCustomPayloadView {
            channel: self.channel@,
            data: self.data@,
        }
    }
}

impl PacketId for ServerboundCustomPayload {
    open spec fn spec_packet_id(ver: u32) -> u8 {
        0x0A
    }

    fn packet_id(_ver: u32) -> (r: u8) {
        0x0A
    }
}

impl WireFormat for ServerboundCustomPayload {
    open spec fn spec_encode(p: ServerboundCustomPayloadView) -> Seq<u8> {
        string_wire(p.channel) + p.data
    }

    open spec fn spec_decode(s: Seq<u8>) -> Parsed<ServerboundCustomPayloadView> {
        then(str_spec(s, "ServerboundCustomPayload channel"@), |channel: Seq<char>, s: Seq<u8>| then(take_rest(s), |data: Seq<u8>, s: Seq<u8>| (Ok(ServerboundCustomPayloadView { channel, data }), s)))
    }
}

impl Roundtrip for ServerboundCustomPayload {
    open spec fn encodable(p: ServerboundCustomPayloadView) -> bool {
        string_fits(p.channel)
    }

    open spec fn reads_to_end() -> bool {
        true
    }

    proof fn lemma_roundtrip(p: ServerboundCustomPayloadView, rest: Seq<u8>) {
        broadcast use group_wire_roundtrip;

        let t1 = p.data + rest;
        lemma_concat_associative(string_wire(p.channel), p.data, rest);
        lemma_string_roundtrip(p.channel, t1, missing_for("ServerboundCustomPayload channel"@), invalid_in("ServerboundCustomPayload channel"@));
        assert(p.data + rest =~= p.data);
    }
}

impl Encode for ServerboundCustomPayload {
    fn encode(&self, dst: &mut BytesMut) -> (r: Result<(), ProtocolError>) {
        let ghost d0 = bytes_mut_data(*dst);
        encode_str(self.channel.as_str(), dst);
        let ghost mut e: Seq<u8> = string_wire(self@.channel);
        put_slice(dst, self.data.as_slice());
        proof {
            lemma_concat_associative(d0, e, self@.data);
            e = e + self@.data;
        }
        Ok(())
    }
}

impl Decode for ServerboundCustomPayload {
    fn decode(src: &mut Bytes) -> (r: Result<Self, ProtocolError>) {
        let channel = decode_str(src, "ServerboundCustomPayload channel")?;
        let data = take_remaining(src);
        Ok(Self { channel, data })
    }
}

// ── ServerboundTeleportConfirm ────────────────────────────────────────

#[derive(Debug, Clone, PartialEq)]
pub struct ServerboundTeleportConfirm {
    pub teleport_id: VarInt,
}

impl View for ServerboundTeleportConfirm {
    type V = ServerboundTeleportConfirm;

    open spec fn view(&self) -> ServerboundTeleportConfirm {
        *self
    }
}

impl PacketId for ServerboundTeleportConfirm {
    open spec fn spec_packet_id(ver: u32) -> u8 {
        0x00
    }

    fn packet_id(_ver: u32) -> (r: u8) {
        0x00
    }
}

impl WireFormat for ServerboundTeleportConfirm {
    open spec fn spec_encode(p: ServerboundTeleportConfirm) -> Seq<u8> {
        VarInt::spec_encode(p.teleport_id)
    }

    open spec fn spec_decode(s: Seq<u8>) -> Parsed<ServerboundTeleportConfirm> {
        then(VarInt::spec_decode(s), |teleport_id: VarInt, s: Seq<u8>| (Ok(ServerboundTeleportConfirm { teleport_id }), s))
    }
}

impl Roundtrip for ServerboundTeleportConfirm {
    open spec fn encodable(p: ServerboundTeleportConfirm) -> bool {
        true
    }

    open spec fn reads_to_end() -> bool {
        false
    }

    proof fn lemma_roundtrip(p: ServerboundTeleportConfirm, rest: Seq<u8>) {
        broadcast use group_wire_roundtrip;

        VarInt::lemma_roundtrip(p.teleport_id, rest);
    }
}

impl Encode for ServerboundTeleportConfirm {
    fn encode(&self, dst: &mut BytesMut) -> (r: Result<(), ProtocolError>) {
        let ghost d0 = bytes_mut_data(*dst);
        let _ = self.teleport_id.encode(dst);
        let ghost mut e: Seq<u8> = VarInt::spec_encode(self@.teleport_id);
        Ok(())
    }
}

impl Decode for ServerboundTeleportConfirm {
    fn decode(src: &mut Bytes) -> (r: Result<Self, ProtocolError>) {
        let teleport_id = VarInt::decode(src)?;
        Ok(Self { teleport_id })
    }
}

// ── ServerboundClientStatus ───────────────────────────────────────────

#[derive(Debug, Clone, PartialEq)]
pub struct ServerboundClientStatus {
    pub action_id: VarInt,
}

impl View for ServerboundClientStatus {
    type V = ServerboundClientStatus;

    open spec fn view(&self) -> ServerboundClientStatus {
        *self
    }
}

impl PacketId for ServerboundClientStatus {
    open spec fn spec_packet_id(ver: u32) -> u8 {
        0x03
    }

    fn packet_id(_ver: u32) -> (r: u8) {
        0x03
    }
}

impl WireFormat for ServerboundClientStatus {
    open spec fn spec_encode(p: ServerboundClientStatus) -> Seq<u8> {
        VarInt::spec_encode(p.action_id)
    }

    open spec fn spec_decode(s: Seq<u8>) -> Parsed<ServerboundClientStatus> {
        then(VarInt::spec_decode(s), |action_id: VarInt, s: Seq<u8>| (Ok(ServerboundClientStatus { action_id }), s))
    }
}

impl Roundtrip for ServerboundClientStatus {
    open spec fn encodable(p: ServerboundClientStatus) -> bool {
        true
    }

    open spec fn reads_to_end() -> bool {
        false
    }

    proof fn lemma_roundtrip(p: ServerboundClientStatus, rest: Seq<u8>) {
        broadcast use group_wire_roundtrip;

        VarInt::lemma_roundtrip(p.action_id, rest);
    }
}

impl Encode for ServerboundClientStatus {
    fn encode(&self, dst: &mut BytesMut) -> (r: Result<(), ProtocolError>) {
        let ghost d0 = bytes_mut_data(*dst);
        let _ = self.action_id.encode(dst);
        let ghost mut e: Seq<u8> = VarInt::spec_encode(self@.action_id);
        Ok(())
    }
}

impl Decode for ServerboundClientStatus {
    fn decode(src: &mut Bytes) -> (r: Result<Self, ProtocolError>) {
        let action_id = VarInt::decode(src)?;
        Ok(Self { action_id })
    }
}

// ── ServerboundClientSettings ─────────────────────────────────────────

#[derive(Debug, Clone, PartialEq)]
pub struct ServerboundClientSettings {
    pub locale: String,
    pub view_distance: u8,
    pub chat_mode: VarInt,
    pub chat_colors: bool,
    pub displayed_skin_parts: u8,
    pub main_hand: VarInt,
}

pub struct ServerboundClientSettingsView {
    pub locale: Seq<char>,
    pub view_distance: u8,
    pub chat_mode: VarInt,
    pub chat_colors: bool,
    pub displayed_skin_parts: u8,
    pub main_hand: VarInt,
}

impl View for ServerboundClientSettings {
    type V = ServerboundClientSettingsView;

    open spec fn view(&self) -> ServerboundClientSettingsView {
        ServerboundClientSettingsView {
            locale: self.locale@,
            view_distance: self.view_distance,
            chat_mode: self.chat_mode,
            chat_colors: self.chat_colors,
            displayed_skin_parts: self.displayed_skin_parts,
            main_hand: self.main_hand,
        }
    }
}

impl PacketId for ServerboundClientSettings {
    open spec fn spec_packet_id(ver: u32) -> u8 {
        0x04
    }

    fn packet_id(_ver: u32) -> (r: u8) {
        0x04
    }
}

impl WireFormat for ServerboundClientSettings {
    open spec fn spec_encode(p: ServerboundClientSettingsView) -> Seq<u8> {
        string_wire(p.locale) + seq![p.view_distance] + VarInt::spec_encode(p.chat_mode) + seq![bool_byte(p.chat_colors)] + seq![p.displayed_skin_parts] + VarInt::spec_encode(p.main_hand)
    }

    open spec fn spec_decode(s: Seq<u8>) -> Parsed<ServerboundClientSettingsView> {
        then(str_spec(s, "ServerboundClientSettings locale"@), |locale: Seq<char>, s: Seq<u8>| then(need_spec(s, 1), |_u: (), s: Seq<u8>| then(take_u8(s), |view_distance: u8, s: Seq<u8>| then(VarInt::spec_decode(s), |chat_mode: VarInt, s: Seq<u8>| then(need_spec(s, 2), |_u: (), s: Seq<u8>| then(take_bool(s), |chat_colors: bool, s: Seq<u8>| then(take_u8(s), |displayed_skin_parts: u8, s: Seq<u8>| then(VarInt::spec_decode(s), |main_hand: VarInt, s: Seq<u8>| (Ok(ServerboundClientSettingsView { locale, view_distance, chat_mode, chat_colors, displayed_skin_parts, main_hand }), s)))))))))
    }
}

impl Roundtrip for ServerboundClientSettings {
    open spec fn encodable(p: ServerboundClientSettingsView) -> bool {
        string_fits(p.locale)
    }

    open spec fn reads_to_end() -> bool {
        false
    }

    #[verifier::rlimit(100)]
    #[verifier::spinoff_prover]
    proof fn lemma_roundtrip(p: ServerboundClientSettingsView, rest: Seq<u8>) {
        broadcast use group_wire_roundtrip;

        let t5 = VarInt::spec_encode(p.main_hand) + rest;
        let t4 = seq![p.displayed_skin_parts] + t5;
        let t3 = seq![bool_byte(p.chat_colors)] + t4;
        let t2 = VarInt::spec_encode(p.chat_mode) + t3;
        let t1 = seq![p.view_distance] + t2;
        lemma_concat_associative(string_wire(p.locale) + seq![p.view_distance] + VarInt::spec_encode(p.chat_mode) + seq![bool_byte(p.chat_colors)] + seq![p.displayed_skin_parts], VarInt::spec_encode(p.main_hand), rest);
        lemma_concat_associative(string_wire(p.locale) + seq![p.view_distance] + VarInt::spec_encode(p.chat_mode) + seq![bool_byte(p.chat_colors)], seq![p.displayed_skin_parts], t5);
        lemma_concat_associative(string_wire(p.locale) + seq![p.view_distance] + VarInt::spec_encode(p.chat_mode), seq![bool_byte(p.chat_colors)], t4);
        lemma_concat_associative(string_wire(p.locale) + seq![p.view_distance], VarInt::spec_encode(p.chat_mode), t3);
        lemma_concat_associative(string_wire(p.locale), seq![p.view_distance], t2);
        lemma_string_roundtrip(p.locale, t1, missing_for("ServerboundClientSettings locale"@), invalid_in("ServerboundClientSettings locale"@));
        VarInt::lemma_roundtrip(p.chat_mode, t3);
        VarInt::lemma_roundtrip(p.main_hand, rest);
    }
}

impl Encode for ServerboundClientSettings {
    fn encode(&self, dst: &mut BytesMut) -> (r: Result<(), ProtocolError>) {
        let ghost d0 = bytes_mut_data(*dst);
        encode_str(self.locale.as_str(), dst);
        let ghost mut e: Seq<u8> = string_wire(self@.locale);
        put_u8(dst, self.view_distance);
        proof {
            lemma_concat_associative(d0, e, seq![self@.view_distance]);
            e = e + seq![self@.view_distance];
        }
        let _ = self.chat_mode.encode(dst);
        proof {
            lemma_concat_associative(d0, e, VarInt::spec_encode(self@.chat_mode));
            e = e + VarInt::spec_encode(self@.chat_mode);
        }
        put_u8(dst, self.chat_colors as u8);
        proof {
            lemma_concat_associative(d0, e, seq![bool_byte(self@.chat_colors)]);
            e = e + seq![bool_byte(self@.chat_colors)];
        }
        put_u8(dst, self.displayed_skin_parts);
        proof {
            lemma_concat_associative(d0, e, seq![self@.displayed_skin_parts]);
            e = e + seq![self@.displayed_skin_parts];
        }
        let _ = self.main_hand.encode(dst);
        proof {
            lemma_concat_associative(d0, e, VarInt::spec_encode(self@.main_hand));
            e = e + VarInt::spec_encode(self@.main_hand);
        }
        Ok(())
    }
}

impl Decode for ServerboundClientSettings {
    fn decode(src: &mut Bytes) -> (r: Result<Self, ProtocolError>) {
        let locale = decode_str(src, "ServerboundClientSettings locale")?;
        need(src, 1)?;
        let view_distance = get_u8(src);
        let chat_mode = VarInt::decode(src)?;
        need(src, 2)?;
        let chat_colors = get_u8(src) != 0;
        let displayed_skin_parts = get_u8(src);
        let main_hand = VarInt::decode(src)?;
        Ok(Self { locale, view_distance, chat_mode, chat_colors, displayed_skin_parts, main_hand })
    }
}

// ── ServerboundConfirmTransaction ─────────────────────────────────────

#[derive(Debug, Clone, PartialEq)]
pub struct ServerboundConfirmTransaction {
    pub window_id: i8,
    pub action_number: i16,
    pub accepted: bool,
}

impl View for ServerboundConfirmTransaction {
    type V = ServerboundConfirmTransaction;

    open spec fn view(&self) -> ServerboundConfirmTransaction {
        *self
    }
}

impl PacketId for ServerboundConfirmTransaction {
    open spec fn spec_packet_id(ver: u32) -> u8 {
        0x05
    }

    fn packet_id(_ver: u32) -> (r: u8) {
        0x05
    }
}

impl WireFormat for ServerboundConfirmTransaction {
    open spec fn spec_encode(p: ServerboundConfirmTransaction) -> Seq<u8> {
        seq![p.window_id as u8] + be_i16_bytes(p.action_number) + seq![bool_byte(p.accepted)]
    }

    open spec fn spec_decode(s: Seq<u8>) -> Parsed<ServerboundConfirmTransaction> {
        then(need_spec(s, 4), |_u: (), s: Seq<u8>| then(take_i8(s), |window_id: i8, s: Seq<u8>| then(take_i16(s), |action_number: i16, s: Seq<u8>| then(take_bool(s), |accepted: bool, s: Seq<u8>| (Ok(ServerboundConfirmTransaction { window_id, action_number, accepted }), s)))))
    }
}

impl Roundtrip for ServerboundConfirmTransaction {
    open spec fn encodable(p: ServerboundConfirmTransaction) -> bool {
        true
    }

    open spec fn reads_to_end() -> bool {
        false
    }

    proof fn lemma_roundtrip(p: ServerboundConfirmTransaction, rest: Seq<u8>) {
        broadcast use group_wire_roundtrip;

        let t2 = seq![bool_byte(p.accepted)] + rest;
        let t1 = be_i16_bytes(p.action_number) + t2;
        lemma_concat_associative(seq![p.window_id as u8] + be_i16_bytes(p.action_number), seq![bool_byte(p.accepted)], rest);
        lemma_concat_associative(seq![p.window_id as u8], be_i16_bytes(p.action_number), t2);
    }
}

impl Encode for ServerboundConfirmTransaction {
    fn encode(&self, dst: &mut BytesMut) -> (r: Result<(), ProtocolError>) {
        let ghost d0 = bytes_mut_data(*dst);
        put_i8(dst, self.window_id);
        let ghost mut e: Seq<u8> = seq![self@.window_id as u8];
        put_i16(dst, self.action_number);
        proof {
            lemma_concat_associative(d0, e, be_i16_bytes(self@.action_number));
            e = e + be_i16_bytes(self@.action_number);
        }
        put_u8(dst, self.accepted as u8);
        proof {
            lemma_concat_associative(d0, e, seq![bool_byte(self@.accepted)]);
            e = e + seq![bool_byte(self@.accepted)];
        }
        Ok(())
    }
}

impl Decode for ServerboundConfirmTransaction {
    fn decode(src: &mut Bytes) -> (r: Result<Self, ProtocolError>) {
        need(src, 4)?;
        let window_id = get_i8(src);
        let action_number = get_i16(src);
        let accepted = get_u8(src) != 0;
        Ok(Self { window_id, action_number, accepted })
    }
}

// ── ServerboundEnchantItem ────────────────────────────────────────────

#[derive(Debug, Clone, PartialEq)]
pub struct ServerboundEnchantItem {
    pub window_id: i8,
    pub enchantment: i8,
}

impl View for ServerboundEnchantItem {
    type V = ServerboundEnchantItem;

    open spec fn view(&self) -> ServerboundEnchantItem {
        *self
    }
}

impl PacketId for ServerboundEnchantItem {
    open spec fn spec_packet_id(ver: u32) -> u8 {
        0x06
    }

    fn packet_id(_ver: u32) -> (r: u8) {
        0x06
    }
}

impl WireFormat for ServerboundEnchantItem {
    open spec fn spec_encode(p: ServerboundEnchantItem) -> Seq<u8> {
        seq![p.window_id as u8] + seq![p.enchantment as u8]
    }

    open spec fn spec_decode(s: Seq<u8>) -> Parsed<ServerboundEnchantItem> {
        then(need_spec(s, 2), |_u: (), s: Seq<u8>| then(take_i8(s), |window_id: i8, s: Seq<u8>| then(take_i8(s), |enchantment: i8, s: Seq<u8>| (Ok(ServerboundEnchantItem { window_id, enchantment }), s))))
    }
}

impl Roundtrip for ServerboundEnchantItem {
    open spec fn encodable(p: ServerboundEnchantItem) -> bool {
        true
    }

    open spec fn reads_to_end() -> bool {
        false
    }

    proof fn lemma_roundtrip(p: ServerboundEnchantItem, rest: Seq<u8>) {
        broadcast use group_wire_roundtrip;

        let t1 = seq![p.enchantment as u8] + rest;
        lemma_concat_associative(seq![p.window_id as u8], seq![p.enchantment as u8], rest);
    }
}

impl Encode for ServerboundEnchantItem {
    fn encode(&self, dst: &mut BytesMut) -> (r: Result<(), ProtocolError>) {
        let ghost d0 = bytes_mut_data(*dst);
        put_i8(dst, self.window_id);
        let ghost mut e: Seq<u8> = seq![self@.window_id as u8];
        put_i8(dst, self.enchantment);
        proof {
            lemma_concat_associative(d0, e, seq![self@.enchantment as u8]);
            e = e + seq![self@.enchantment as u8];
        }
        Ok(())
    }
}

impl Decode for ServerboundEnchantItem {
    fn decode(src: &mut Bytes) -> (r: Result<Self, ProtocolError>) {
        need(src, 2)?;
        let window_id = get_i8(src);
        let enchantment = get_i8(src);
        Ok(Self { window_id, enchantment })
    }
}

// ── ServerboundClickWindowButton ──────────────────────────────────────

#[derive(Debug, Clone, PartialEq)]
pub struct ServerboundClickWindowButton {
    pub window_id: i8,
    pub button_id: i8,
}

impl View for ServerboundClickWindowButton {
    type V = ServerboundClickWindowButton;

    open spec fn view(&self) -> ServerboundClickWindowButton {
        *self
    }
}

impl PacketId for ServerboundClickWindowButton {
    open spec fn spec_packet_id(ver: u32) -> u8 {
        0x06
    }

    fn packet_id(_ver: u32) -> (r: u8) {
        0x06
    }
}

impl WireFormat for ServerboundClickWindowButton {
    open spec fn spec_encode(p: ServerboundClickWindowButton) -> Seq<u8> {
        seq![p.window_id as u8] + seq![p.button_id as u8]
    }

    open spec fn spec_decode(s: Seq<u8>) -> Parsed<ServerboundClickWindowButton> {
        then(need_spec(s, 2), |_u: (), s: Seq<u8>| then(take_i8(s), |window_id: i8, s: Seq<u8>| then(take_i8(s), |button_id: i8, s: Seq<u8>| (Ok(ServerboundClickWindowButton { window_id, button_id }), s))))
    }
}

impl Roundtrip for ServerboundClickWindowButton {
    open spec fn encodable(p: ServerboundClickWindowButton) -> bool {
        true
    }

    open spec fn reads_to_end() -> bool {
        false
    }

    proof fn lemma_roundtrip(p: ServerboundClickWindowButton, rest: Seq<u8>) {
        broadcast use group_wire_roundtrip;

        let t1 = seq![p.button_id as u8] + rest;
        lemma_concat_associative(seq![p.window_id as u8], seq![p.button_id as u8], rest);
    }
}

impl Encode for ServerboundClickWindowButton {
    fn encode(&self, dst: &mut BytesMut) -> (r: Result<(), ProtocolError>) {
        let ghost d0 = bytes_mut_data(*dst);
        put_i8(dst, self.window_id);
        let ghost mut e: Seq<u8> = seq![self@.window_id as u8];
        put_i8(dst, self.button_id);
        proof {
            lemma_concat_associative(d0, e, seq![self@.button_id as u8]);
            e = e + seq![self@.button_id as u8];
        }
        Ok(())
    }
}

impl Decode for ServerboundClickWindowButton {
    fn decode(src: &mut Bytes) -> (r: Result<Self, ProtocolError>) {
        need(src, 2)?;
        let window_id = get_i8(src);
        let button_id = get_i8(src);
        Ok(Self { window_id, button_id })
    }
}

// ── ServerboundCloseWindow ────────────────────────────────────────────

#[derive(Debug, Clone, PartialEq)]
pub struct ServerboundCloseWindow {
    pub window_id: u8,
}

impl View for ServerboundCloseWindow {
    type V = ServerboundCloseWindow;

    open spec fn view(&self) -> ServerboundCloseWindow {
        *self
    }
}

impl PacketId for ServerboundCloseWindow {
    open spec fn spec_packet_id(ver: u32) -> u8 {
        0x08
    }

    fn packet_id(_ver: u32) -> (r: u8) {
        0x08
    }
}

impl WireFormat for ServerboundCloseWindow {
    open spec fn spec_encode(p: ServerboundCloseWindow) -> Seq<u8> {
        seq![p.window_id]
    }

    open spec fn spec_decode(s: Seq<u8>) -> Parsed<ServerboundCloseWindow> {
        then(need_spec(s, 1), |_u: (), s: Seq<u8>| then(take_u8(s), |window_id: u8, s: Seq<u8>| (Ok(ServerboundCloseWindow { window_id }), s)))
    }
}

impl Roundtrip for ServerboundCloseWindow {
    open spec fn encodable(p: ServerboundCloseWindow) -> bool {
        true
    }

    open spec fn reads_to_end() -> bool {
        false
    }

    proof fn lemma_roundtrip(p: ServerboundCloseWindow, rest: Seq<u8>) {
        broadcast use group_wire_roundtrip;

    }
}

impl Encode for ServerboundCloseWindow {
    fn encode(&self, dst: &mut BytesMut) -> (r: Result<(), ProtocolError>) {
        let ghost d0 = bytes_mut_data(*dst);
        put_u8(dst, self.window_id);
        let ghost mut e: Seq<u8> = seq![self@.window_id];
        Ok(())
    }
}

impl Decode for ServerboundCloseWindow {
    fn decode(src: &mut Bytes) -> (r: Result<Self, ProtocolError>) {
        need(src, 1)?;
        let window_id = get_u8(src);
        Ok(Self { window_id })
    }
}

// ── ServerboundMovePlayerStatusOnly ───────────────────────────────────

#[derive(Debug, Clone, PartialEq)]
pub struct ServerboundMovePlayerStatusOnly {
    pub on_ground: bool,
}

impl View for ServerboundMovePlayerStatusOnly {
    type V = ServerboundMovePlayerStatusOnly;

    open spec fn view(&self) -> ServerboundMovePlayerStatusOnly {
        *self
    }
}

impl PacketId for ServerboundMovePlayerStatusOnly {
    open spec fn spec_packet_id(ver: u32) -> u8 {
        0x0F
    }

    fn packet_id(_ver: u32) -> (r: u8) {
        0x0F
    }
}

impl WireFormat for ServerboundMovePlayerStatusOnly {
    open spec fn spec_encode(p: ServerboundMovePlayerStatusOnly) -> Seq<u8> {
        seq![bool_byte(p.on_ground)]
    }

    open spec fn spec_decode(s: Seq<u8>) -> Parsed<ServerboundMovePlayerStatusOnly> {
        then(need_spec(s, 1), |_u: (), s: Seq<u8>| then(take_bool(s), |on_ground: bool, s: Seq<u8>| (Ok(ServerboundMovePlayerStatusOnly { on_ground }), s)))
    }
}

impl Roundtrip for ServerboundMovePlayerStatusOnly {
    open spec fn encodable(p: ServerboundMovePlayerStatusOnly) -> bool {
        true
    }

    open spec fn reads_to_end() -> bool {
        false
    }

    proof fn lemma_roundtrip(p: ServerboundMovePlayerStatusOnly, rest: Seq<u8>) {
        broadcast use group_wire_roundtrip;

    }
}

impl Encode for ServerboundMovePlayerStatusOnly {
    fn encode(&self, dst: &mut BytesMut) -> (r: Result<(), ProtocolError>) {
        let ghost d0 = bytes_mut_data(*dst);
        put_u8(dst, self.on_ground as u8);
        let ghost mut e: Seq<u8> = seq![bool_byte(self@.on_ground)];
        Ok(())
    }
}

impl Decode for ServerboundMovePlayerStatusOnly {
    fn decode(src: &mut Bytes) -> (r: Result<Self, ProtocolError>) {
        need(src, 1)?;
        let on_ground = get_u8(src) != 0;
        Ok(Self { on_ground })
    }
}

// ── ServerboundVehicleMove ────────────────────────────────────────────

#[derive(Debug, Clone, PartialEq)]
pub struct ServerboundVehicleMove {
    /// The bits of the `f64` value (`f64::to_bits`).
    pub x: u64,
    /// The bits of the `f64` value (`f64::to_bits`).
    pub y: u64,
    /// The bits of the `f64` value (`f64::to_bits`).
    pub z: u64,
    /// The bits of the `f32` value (`f32::to_bits`).
    pub yaw: u32,
    /// The bits of the `f32` value (`f32::to_bits`).
    pub pitch: u32,
}

impl View for ServerboundVehicleMove {
    type V = ServerboundVehicleMove;

    open spec fn view(&self) -> ServerboundVehicleMove {
        *self
    }
}

impl PacketId for ServerboundVehicleMove {
    open spec fn spec_packet_id(ver: u32) -> u8 {
        0x10
    }

    fn packet_id(_ver: u32) -> (r: u8) {
        0x10
    }
}

impl WireFormat for ServerboundVehicleMove {
    open spec fn spec_encode(p: ServerboundVehicleMove) -> Seq<u8> {
        be_u64_bytes(p.x) + be_u64_bytes(p.y) + be_u64_bytes(p.z) + be_u32_bytes(p.yaw) + be_u32_bytes(p.pitch)
    }

    open spec fn spec_decode(s: Seq<u8>) -> Parsed<ServerboundVehicleMove> {
        then(need_spec(s, 32), |_u: (), s: Seq<u8>| then(take_u64(s), |x: u64, s: Seq<u8>| then(take_u64(s), |y: u64, s: Seq<u8>| then(take_u64(s), |z: u64, s: Seq<u8>| then(take_u32(s), |yaw: u32, s: Seq<u8>| then(take_u32(s), |pitch: u32, s: Seq<u8>| (Ok(ServerboundVehicleMove { x, y, z, yaw, pitch }), s)))))))
    }
}

impl Roundtrip for ServerboundVehicleMove {
    open spec fn encodable(p: ServerboundVehicleMove) -> bool {
        true
    }

    open spec fn reads_to_end() -> bool {
        false
    }

    #[verifier::rlimit(100)]
    #[verifier::spinoff_prover]
    proof fn lemma_roundtrip(p: ServerboundVehicleMove, rest: Seq<u8>) {
        broadcast use group_wire_roundtrip;

        let t4 = be_u32_bytes(p.pitch) + rest;
        let t3 = be_u32_bytes(p.yaw) + t4;
        let t2 = be_u64_bytes(p.z) + t3;
        let t1 = be_u64_bytes(p.y) + t2;
        lemma_concat_associative(be_u64_bytes(p.x) + be_u64_bytes(p.y) + be_u64_bytes(p.z) + be_u32_bytes(p.yaw), be_u32_bytes(p.pitch), rest);
        lemma_concat_associative(be_u64_bytes(p.x) + be_u64_bytes(p.y) + be_u64_bytes(p.z), be_u32_bytes(p.yaw), t4);
        lemma_concat_associative(be_u64_bytes(p.x) + be_u64_bytes(p.y), be_u64_bytes(p.z), t3);
        lemma_concat_associative(be_u64_bytes(p.x), be_u64_bytes(p.y), t2);
    }
}

impl Encode for ServerboundVehicleMove {
    fn encode(&self, dst: &mut BytesMut) -> (r: Result<(), ProtocolError>) {
        let ghost d0 = bytes_mut_data(*dst);
        put_u64(dst, self.x);
        let ghost mut e: Seq<u8> = be_u64_bytes(self@.x);
        put_u64(dst, self.y);
        proof {
            lemma_concat_associative(d0, e, be_u64_bytes(self@.y));
            e = e + be_u64_bytes(self@.y);
        }
        put_u64(dst, self.z);
        proof {
            lemma_concat_associative(d0, e, be_u64_bytes(self@.z));
            e = e + be_u64_bytes(self@.z);
        }
        put_u32(dst, self.yaw);
        proof {
            lemma_concat_associative(d0, e, be_u32_bytes(self@.yaw));
            e = e + be_u32_bytes(self@.yaw);
        }
        put_u32(dst, self.pitch);
        proof {
            lemma_concat_associative(d0, e, be_u32_bytes(self@.pitch));
            e = e + be_u32_bytes(self@.pitch);
        }
        Ok(())
    }
}

impl Decode for ServerboundVehicleMove {
    fn decode(src: &mut Bytes) -> (r: Result<Self, ProtocolError>) {
        need(src, 32)?;
        let x = get_u64(src);
        let y = get_u64(src);
        let z = get_u64(src);
        let yaw = get_u32(src);
        let pitch = get_u32(src);
        Ok(Self { x, y, z, yaw, pitch })
    }
}

// ── ServerboundSteerBoat ──────────────────────────────────────────────

#[derive(Debug, Clone, PartialEq)]
pub struct ServerboundSteerBoat {
    pub left_paddle: bool,
    pub right_paddle: bool,
}

impl View for ServerboundSteerBoat {
    type V = ServerboundSteerBoat;

    open spec fn view(&self) -> ServerboundSteerBoat {
        *self
    }
}

impl PacketId for ServerboundSteerBoat {
    open spec fn spec_packet_id(ver: u32) -> u8 {
        0x11
    }

    fn packet_id(_ver: u32) -> (r: u8) {
        0x11
    }
}

impl WireFormat for ServerboundSteerBoat {
    open spec fn spec_encode(p: ServerboundSteerBoat) -> Seq<u8> {
        seq![bool_byte(p.left_paddle)] + seq![bool_byte(p.right_paddle)]
    }

    open spec fn spec_decode(s: Seq<u8>) -> Parsed<ServerboundSteerBoat> {
        then(need_spec(s, 2), |_u: (), s: Seq<u8>| then(take_bool(s), |left_paddle: bool, s: Seq<u8>| then(take_bool(s), |right_paddle: bool, s: Seq<u8>| (Ok(ServerboundSteerBoat { left_paddle, right_paddle }), s))))
    }
}

impl Roundtrip for ServerboundSteerBoat {
    open spec fn encodable(p: ServerboundSteerBoat) -> bool {
        true
    }

    open spec fn reads_to_end() -> bool {
        false
    }

    proof fn lemma_roundtrip(p: ServerboundSteerBoat, rest: Seq<u8>) {
        broadcast use group_wire_roundtrip;

        let t1 = seq![bool_byte(p.right_paddle)] + rest;
        lemma_concat_associative(seq![bool_byte(p.left_paddle)], seq![bool_byte(p.right_paddle)], rest);
    }
}

impl Encode for ServerboundSteerBoat {
    fn encode(&self, dst: &mut BytesMut) -> (r: Result<(), ProtocolError>) {
        let ghost d0 = bytes_mut_data(*dst);
        put_u8(dst, self.left_paddle as u8);
        let ghost mut e: Seq<u8> = seq![bool_byte(self@.left_paddle)];
        put_u8(dst, self.right_paddle as u8);
        proof {
            lemma_concat_associative(d0, e, seq![bool_byte(self@.right_paddle)]);
            e = e + seq![bool_byte(self@.right_paddle)];
        }
        Ok(())
    }
}

impl Decode for ServerboundSteerBoat {
    fn decode(src: &mut Bytes) -> (r: Result<Self, ProtocolError>) {
        need(src, 2)?;
        let left_paddle = get_u8(src) != 0;
        let right_paddle = get_u8(src) != 0;
        Ok(Self { left_paddle, right_paddle })
    }
}

// ── ServerboundPlayerAction ───────────────────────────────────────────

#[derive(Debug, Clone, PartialEq)]
pub struct ServerboundPlayerAction {
    pub status: VarInt,
    pub location: u64,
    pub face: u8,
}

impl View for ServerboundPlayerAction {
    type V = ServerboundPlayerAction;

    open spec fn view(&self) -> ServerboundPlayerAction {
        *self
    }
}

impl PacketId for ServerboundPlayerAction {
    open spec fn spec_packet_id(ver: u32) -> u8 {
        0x13
    }

    fn packet_id(_ver: u32) -> (r: u8) {
        0x13
    }
}

impl WireFormat for ServerboundPlayerAction {
    open spec fn spec_encode(p: ServerboundPlayerAction) -> Seq<u8> {
        VarInt::spec_encode(p.status) + be_u64_bytes(p.location) + seq![p.face]
    }

    open spec fn spec_decode(s: Seq<u8>) -> Parsed<ServerboundPlayerAction> {
        then(VarInt::spec_decode(s), |status: VarInt, s: Seq<u8>| then(need_spec(s, 9), |_u: (), s: Seq<u8>| then(take_u64(s), |location: u64, s: Seq<u8>| then(take_u8(s), |face: u8, s: Seq<u8>| (Ok(ServerboundPlayerAction { status, location, face }), s)))))
    }
}

impl Roundtrip for ServerboundPlayerAction {
    open spec fn encodable(p: ServerboundPlayerAction) -> bool {
        true
    }

    open spec fn reads_to_end() -> bool {
        false
    }

    proof fn lemma_roundtrip(p: ServerboundPlayerAction, rest: Seq<u8>) {
        broadcast use group_wire_roundtrip;

        let t2 = seq![p.face] + rest;
        let t1 = be_u64_bytes(p.location) + t2;
        lemma_concat_associative(VarInt::spec_encode(p.status) + be_u64_bytes(p.location), seq![p.face], rest);
        lemma_concat_associative(VarInt::spec_encode(p.status), be_u64_bytes(p.location), t2);
        VarInt::lemma_roundtrip(p.status, t1);
    }
}

impl Encode for ServerboundPlayerAction {
    fn encode(&self, dst: &mut BytesMut) -> (r: Result<(), ProtocolError>) {
        let ghost d0 = bytes_mut_data(*dst);
        let _ = self.status.encode(dst);
        let ghost mut e: Seq<u8> = VarInt::spec_encode(self@.status);
        put_u64(dst, self.location);
        proof {
            lemma_concat_associative(d0, e, be_u64_bytes(self@.location));
            e = e + be_u64_bytes(self@.location);
        }
        put_u8(dst, self.face);
        proof {
            lemma_concat_associative(d0, e, seq![self@.face]);
            e = e + seq![self@.face];
        }
        Ok(())
    }
}

impl Decode for ServerboundPlayerAction {
    fn decode(src: &mut Bytes) -> (r: Result<Self, ProtocolError>) {
        let status = VarInt::decode(src)?;
        need(src, 9)?;
        let location = get_u64(src);
        let face = get_u8(src);
        Ok(Self { status, location, face })
    }
}

// ── ServerboundEntityAction ───────────────────────────────────────────

#[derive(Debug, Clone, PartialEq)]
pub struct ServerboundEntityAction {
    pub entity_id: VarInt,
    pub action_id: VarInt,
    pub jump_boost: VarInt,
}

impl View for ServerboundEntityAction {
    type V = ServerboundEntityAction;

    open spec fn view(&self) -> ServerboundEntityAction {
        *self
    }
}

impl PacketId for ServerboundEntityAction {
    open spec fn spec_packet_id(ver: u32) -> u8 {
        0x14
    }

    fn packet_id(_ver: u32) -> (r: u8) {
        0x14
    }
}

impl WireFormat for ServerboundEntityAction {
    open spec fn spec_encode(p: ServerboundEntityAction) -> Seq<u8> {
        VarInt::spec_encode(p.entity_id) + VarInt::spec_encode(p.action_id) + VarInt::spec_encode(p.jump_boost)
    }

    open spec fn spec_decode(s: Seq<u8>) -> Parsed<ServerboundEntityAction> {
        then(VarInt::spec_decode(s), |entity_id: VarInt, s: Seq<u8>| then(VarInt::spec_decode(s), |action_id: VarInt, s: Seq<u8>| then(VarInt::spec_decode(s), |jump_boost: VarInt, s: Seq<u8>| (Ok(ServerboundEntityAction { entity_id, action_id, jump_boost }), s))))
    }
}

impl Roundtrip for ServerboundEntityAction {
    open spec fn encodable(p: ServerboundEntityAction) -> bool {
        true
    }

    open spec fn reads_to_end() -> bool {
        false
    }

    proof fn lemma_roundtrip(p: ServerboundEntityAction, rest: Seq<u8>) {
        broadcast use group_wire_roundtrip;

        let t2 = VarInt::spec_encode(p.jump_boost) + rest;
        let t1 = VarInt::spec_encode(p.action_id) + t2;
        lemma_concat_associative(VarInt::spec_encode(p.entity_id) + VarInt::spec_encode(p.action_id), VarInt::spec_encode(p.jump_boost), rest);
        lemma_concat_associative(VarInt::spec_encode(p.entity_id), VarInt::spec_encode(p.action_id), t2);
        VarInt::lemma_roundtrip(p.entity_id, t1);
        VarInt::lemma_roundtrip(p.action_id, t2);
        VarInt::lemma_roundtrip(p.jump_boost, rest);
    }
}

impl Encode for ServerboundEntityAction {
    fn encode(&self, dst: &mut BytesMut) -> (r: Result<(), ProtocolError>) {
        let ghost d0 = bytes_mut_data(*dst);
        let _ = self.entity_id.encode(dst);
        let ghost mut e: Seq<u8> = VarInt::spec_encode(self@.entity_id);
        let _ = self.action_id.encode(dst);
        proof {
            lemma_concat_associative(d0, e, VarInt::spec_encode(self@.action_id));
            e = e + VarInt::spec_encode(self@.action_id);
        }
        let _ = self.jump_boost.encode(dst);
        proof {
            lemma_concat_associative(d0, e, VarInt::spec_encode(self@.jump_boost));
            e = e + VarInt::spec_encode(self@.jump_boost);
        }
        Ok(())
    }
}

impl Decode for ServerboundEntityAction {
    fn decode(src: &mut Bytes) -> (r: Result<Self, ProtocolError>) {
        let entity_id = VarInt::decode(src)?;
        let action_id = VarInt::decode(src)?;
        let jump_boost = VarInt::decode(src)?;
        Ok(Self { entity_id, action_id, jump_boost })
    }
}

// ── ServerboundSteerVehicle ───────────────────────────────────────────

#[derive(Debug, Clone, PartialEq)]
pub struct ServerboundSteerVehicle {
    /// The bits of the `f32` value (`f32::to_bits`).
    pub sideways: u32,
    /// The bits of the `f32` value (`f32::to_bits`).
    pub forward: u32,
    pub flags: u8,
}

impl View for ServerboundSteerVehicle {
    type V = ServerboundSteerVehicle;

    open spec fn view(&self) -> ServerboundSteerVehicle {
        *self
    }
}

impl PacketId for ServerboundSteerVehicle {
    open spec fn spec_packet_id(ver: u32) -> u8 {
        0x15
    }

    fn packet_id(_ver: u32) -> (r: u8) {
        0x15
    }
}

impl WireFormat for ServerboundSteerVehicle {
    open spec fn spec_encode(p: ServerboundSteerVehicle) -> Seq<u8> {
        be_u32_bytes(p.sideways) + be_u32_bytes(p.forward) + seq![p.flags]
    }

    open spec fn spec_decode(s: Seq<u8>) -> Parsed<ServerboundSteerVehicle> {
        then(need_spec(s, 9), |_u: (), s: Seq<u8>| then(take_u32(s), |sideways: u32, s: Seq<u8>| then(take_u32(s), |forward: u32, s: Seq<u8>| then(take_u8(s), |flags: u8, s: Seq<u8>| (Ok(ServerboundSteerVehicle { sideways, forward, flags }), s)))))
    }
}

impl Roundtrip for ServerboundSteerVehicle {
    open spec fn encodable(p: ServerboundSteerVehicle) -> bool {
        true
    }

    open spec fn reads_to_end() -> bool {
        false
    }

    proof fn lemma_roundtrip(p: ServerboundSteerVehicle, rest: Seq<u8>) {
        broadcast use group_wire_roundtrip;

        let t2 = seq![p.flags] + rest;
        let t1 = be_u32_bytes(p.forward) + t2;
        lemma_concat_associative(be_u32_bytes(p.sideways) + be_u32_bytes(p.forward), seq![p.flags], rest);
        lemma_concat_associative(be_u32_bytes(p.sideways), be_u32_bytes(p.forward), t2);
    }
}

impl Encode for ServerboundSteerVehicle {
    fn encode(&self, dst: &mut BytesMut) -> (r: Result<(), ProtocolError>) {
        let ghost d0 = bytes_mut_data(*dst);
        put_u32(dst, self.sideways);
        let ghost mut e: Seq<u8> = be_u32_bytes(self@.sideways);
        put_u32(dst, self.forward);
        proof {
            lemma_concat_associative(d0, e, be_u32_bytes(self@.forward));
            e = e + be_u32_bytes(self@.forward);
        }
        put_u8(dst, self.flags);
        proof {
            lemma_concat_associative(d0, e, seq![self@.flags]);
            e = e + seq![self@.flags];
        }
        Ok(())
    }
}

impl Decode for ServerboundSteerVehicle {
    fn decode(src: &mut Bytes) -> (r: Result<Self, ProtocolError>) {
        need(src, 9)?;
        let sideways = get_u32(src);
        let forward = get_u32(src);
        let flags = get_u8(src);
        Ok(Self { sideways, forward, flags })
    }
}

// ── ServerboundResourcePackStatus ─────────────────────────────────────

#[derive(Debug, Clone, PartialEq)]
pub struct ServerboundResourcePackStatus {
    pub result: VarInt,
}

impl View for ServerboundResourcePackStatus {
    type V = ServerboundResourcePackStatus;

    open spec fn view(&self) -> ServerboundResourcePackStatus {
        *self
    }
}

impl PacketId for ServerboundResourcePackStatus {
    open spec fn spec_packet_id(ver: u32) -> u8 {
        0x17
    }

    fn packet_id(_ver: u32) -> (r: u8) {
        0x17
    }
}

impl WireFormat for ServerboundResourcePackStatus {
    open spec fn spec_encode(p: ServerboundResourcePackStatus) -> Seq<u8> {
        VarInt::spec_encode(p.result)
    }

    open spec fn spec_decode(s: Seq<u8>) -> Parsed<ServerboundResourcePackStatus> {
        then(VarInt::spec_decode(s), |result: VarInt, s: Seq<u8>| (Ok(ServerboundResourcePackStatus { result }), s))
    }
}

impl Roundtrip for ServerboundResourcePackStatus {
    open spec fn encodable(p: ServerboundResourcePackStatus) -> bool {
        true
    }

    open spec fn reads_to_end() -> bool {
        false
    }

    proof fn lemma_roundtrip(p: ServerboundResourcePackStatus, rest: Seq<u8>) {
        broadcast use group_wire_roundtrip;

        VarInt::lemma_roundtrip(p.result, rest);
    }
}

impl Encode for ServerboundResourcePackStatus {
    fn encode(&self, dst: &mut BytesMut) -> (r: Result<(), ProtocolError>) {
        let ghost d0 = bytes_mut_data(*dst);
        let _ = self.result.encode(dst);
        let ghost mut e: Seq<u8> = VarInt::spec_encode(self@.result);
        Ok(())
    }
}

impl Decode for ServerboundResourcePackStatus {
    fn decode(src: &mut Bytes) -> (r: Result<Self, ProtocolError>) {
        let result = VarInt::decode(src)?;
        Ok(Self { result })
    }
}

// ── ServerboundRecipeBookSeenRecipe ───────────────────────────────────

#[derive(Debug, Clone, PartialEq)]
pub struct ServerboundRecipeBookSeenRecipe {
    pub recipe_id: VarInt,
}

impl View for ServerboundRecipeBookSeenRecipe {
    type V = ServerboundRecipeBookSeenRecipe;

    open spec fn view(&self) -> ServerboundRecipeBookSeenRecipe {
        *self
    }
}

impl PacketId for ServerboundRecipeBookSeenRecipe {
    open spec fn spec_packet_id(ver: u32) -> u8 {
        0x18
    }

    fn packet_id(_ver: u32) -> (r: u8) {
        0x18
    }
}

impl WireFormat for ServerboundRecipeBookSeenRecipe {
    open spec fn spec_encode(p: ServerboundRecipeBookSeenRecipe) -> Seq<u8> {
        VarInt::spec_encode(p.recipe_id)
    }

    open spec fn spec_decode(s: Seq<u8>) -> Parsed<ServerboundRecipeBookSeenRecipe> {
        then(VarInt::spec_decode(s), |recipe_id: VarInt, s: Seq<u8>| (Ok(ServerboundRecipeBookSeenRecipe { recipe_id }), s))
    }
}

impl Roundtrip for ServerboundRecipeBookSeenRecipe {
    open spec fn encodable(p: ServerboundRecipeBookSeenRecipe) -> bool {
        true
    }

    open spec fn reads_to_end() -> bool {
        false
    }

    proof fn lemma_roundtrip(p: ServerboundRecipeBookSeenRecipe, rest: Seq<u8>) {
        broadcast use group_wire_roundtrip;

        VarInt::lemma_roundtrip(p.recipe_id, rest);
    }
}

impl Encode for ServerboundRecipeBookSeenRecipe {
    fn encode(&self, dst: &mut BytesMut) -> (r: Result<(), ProtocolError>) {
        let ghost d0 = bytes_mut_data(*dst);
        let _ = self.recipe_id.encode(dst);
        let ghost mut e: Seq<u8> = VarInt::spec_encode(self@.recipe_id);
        Ok(())
    }
}

impl Decode for ServerboundRecipeBookSeenRecipe {
    fn decode(src: &mut Bytes) -> (r: Result<Self, ProtocolError>) {
        let recipe_id = VarInt::decode(src)?;
        Ok(Self { recipe_id })
    }
}

// ── ServerboundHeldItemChange ─────────────────────────────────────────

#[derive(Debug, Clone, PartialEq)]
pub struct ServerboundHeldItemChange {
    pub slot: i16,
}

impl View for ServerboundHeldItemChange {
    type V = ServerboundHeldItemChange;

    open spec fn view(&self) -> ServerboundHeldItemChange {
        *self
    }
}

impl PacketId for ServerboundHeldItemChange {
    open spec fn spec_packet_id(ver: u32) -> u8 {
        0x1A
    }

    fn packet_id(_ver: u32) -> (r: u8) {
        0x1A
    }
}

impl WireFormat for ServerboundHeldItemChange {
    open spec fn spec_encode(p: ServerboundHeldItemChange) -> Seq<u8> {
        be_i16_bytes(p.slot)
    }

    open spec fn spec_decode(s: Seq<u8>) -> Parsed<ServerboundHeldItemChange> {
        then(need_spec(s, 2), |_u: (), s: Seq<u8>| then(take_i16(s), |slot: i16, s: Seq<u8>| (Ok(ServerboundHeldItemChange { slot }), s)))
    }
}

impl Roundtrip for ServerboundHeldItemChange {
    open spec fn encodable(p: ServerboundHeldItemChange) -> bool {
        true
    }

    open spec fn reads_to_end() -> bool {
        false
    }

    proof fn lemma_roundtrip(p: ServerboundHeldItemChange, rest: Seq<u8>) {
        broadcast use group_wire_roundtrip;

    }
}

impl Encode for ServerboundHeldItemChange {
    fn encode(&self, dst: &mut BytesMut) -> (r: Result<(), ProtocolError>) {
        let ghost d0 = bytes_mut_data(*dst);
        put_i16(dst, self.slot);
        let ghost mut e: Seq<u8> = be_i16_bytes(self@.slot);
        Ok(())
    }
}

impl Decode for ServerboundHeldItemChange {
    fn decode(src: &mut Bytes) -> (r: Result<Self, ProtocolError>) {
        need(src, 2)?;
        let slot = get_i16(src);
        Ok(Self { slot })
    }
}

// ── ServerboundCreativeInventoryAction ────────────────────────────────

#[derive(Debug, Clone, PartialEq)]
pub struct ServerboundCreativeInventoryAction {
    pub slot: i16,
    pub clicked_item: Vec<u8>,
}

pub struct ServerboundCreativeInventoryActionView {
    pub slot: i16,
    pub clicked_item: Seq<u8>,
}

impl View for ServerboundCreativeInventoryAction {
    type V = ServerboundCreativeInventoryActionView;

    open spec fn view(&self) -> ServerboundCreativeInventoryActionView {
        ServerboundCreativeInventoryActionView {
            slot: self.slot,
            clicked_item: self.clicked_item@,
        }
    }
}

impl PacketId for ServerboundCreativeInventoryAction {
    open spec fn spec_packet_id(ver: u32) -> u8 {
        0x1B
    }

    fn packet_id(_ver: u32) -> (r: u8) {
        0x1B
    }
}

impl WireFormat for ServerboundCreativeInventoryAction {
    open spec fn spec_encode(p: ServerboundCreativeInventoryActionView) -> Seq<u8> {
        be_i16_bytes(p.slot) + p.clicked_item
    }

    open spec fn spec_decode(s: Seq<u8>) -> Parsed<ServerboundCreativeInventoryActionView> {
        then(need_spec(s, 2), |_u: (), s: Seq<u8>| then(take_i16(s), |slot: i16, s: Seq<u8>| then(take_rest(s), |clicked_item: Seq<u8>, s: Seq<u8>| (Ok(ServerboundCreativeInventoryActionView { slot, clicked_item }), s))))
    }
}

impl Roundtrip for ServerboundCreativeInventoryAction {
    open spec fn encodable(p: ServerboundCreativeInventoryActionView) -> bool {
        true
    }

    open spec fn reads_to_end() -> bool {
        true
    }

    proof fn lemma_roundtrip(p: ServerboundCreativeInventoryActionView, rest: Seq<u8>) {
        broadcast use group_wire_roundtrip;

        let t1 = p.clicked_item + rest;
        lemma_concat_associative(be_i16_bytes(p.slot), p.clicked_item, rest);
        assert(p.clicked_item + rest =~= p.clicked_item);
    }
}

impl Encode for ServerboundCreativeInventoryAction {
    fn encode(&self, dst: &mut BytesMut) -> (r: Result<(), ProtocolError>) {
        let ghost d0 = bytes_mut_data(*dst);
        put_i16(dst, self.slot);
        let ghost mut e: Seq<u8> = be_i16_bytes(self@.slot);
        put_slice(dst, self.clicked_item.as_slice());
        proof {
            lemma_concat_associative(d0, e, self@.clicked_item);
            e = e + self@.clicked_item;
        }
        Ok(())
    }
}

impl Decode for ServerboundCreativeInventoryAction {
    fn decode(src: &mut Bytes) -> (r: Result<Self, ProtocolError>) {
        need(src, 2)?;
        let slot = get_i16(src);
        let clicked_item = take_remaining(src);
        Ok(Self { slot, clicked_item })
    }
}

// ── ServerboundAnimation ──────────────────────────────────────────────

#[derive(Debug, Clone, PartialEq)]
pub struct ServerboundAnimation {
    pub hand: VarInt,
}

impl View for ServerboundAnimation {
    type V = ServerboundAnimation;

    open spec fn view(&self) -> ServerboundAnimation {
        *self
    }
}

impl PacketId for ServerboundAnimation {
    open spec fn spec_packet_id(ver: u32) -> u8 {
        0x1D
    }

    fn packet_id(_ver: u32) -> (r: u8) {
        0x1D
    }
}

impl WireFormat for ServerboundAnimation {
    open spec fn spec_encode(p: ServerboundAnimation) -> Seq<u8> {
        VarInt::spec_encode(p.hand)
    }

    open spec fn spec_decode(s: Seq<u8>) -> Parsed<ServerboundAnimation> {
        then(VarInt::spec_decode(s), |hand: VarInt, s: Seq<u8>| (Ok(ServerboundAnimation { hand }), s))
    }
}

impl Roundtrip for ServerboundAnimation {
    open spec fn encodable(p: ServerboundAnimation) -> bool {
        true
    }

    open spec fn reads_to_end() -> bool {
        false
    }

    proof fn lemma_roundtrip(p: ServerboundAnimation, rest: Seq<u8>) {
        broadcast use group_wire_roundtrip;

        VarInt::lemma_roundtrip(p.hand, rest);
    }
}

impl Encode for ServerboundAnimation {
    fn encode(&self, dst: &mut BytesMut) -> (r: Result<(), ProtocolError>) {
        let ghost d0 = bytes_mut_data(*dst);
        let _ = self.hand.encode(dst);
        let ghost mut e: Seq<u8> = VarInt::spec_encode(self@.hand);
        Ok(())
    }
}

impl Decode for ServerboundAnimation {
    fn decode(src: &mut Bytes) -> (r: Result<Self, ProtocolError>) {
        let hand = VarInt::decode(src)?;
        Ok(Self { hand })
    }
}

// ── ServerboundSpectate ───────────────────────────────────────────────

#[derive(Debug, Clone, PartialEq)]
pub struct ServerboundSpectate {
    /// The UUID as its 128-bit value (`uuid::Uuid::as_u128`).
    pub target_player: u128,
}

impl View for ServerboundSpectate {
    type V = ServerboundSpectate;

    open spec fn view(&self) -> ServerboundSpectate {
        *self
    }
}

impl PacketId for ServerboundSpectate {
    open spec fn spec_packet_id(ver: u32) -> u8 {
        0x1E
    }

    fn packet_id(_ver: u32) -> (r: u8) {
        0x1E
    }
}

impl WireFormat for ServerboundSpectate {
    open spec fn spec_encode(p: ServerboundSpectate) -> Seq<u8> {
        uuid_wire(p.target_player)
    }

    open spec fn spec_decode(s: Seq<u8>) -> Parsed<ServerboundSpectate> {
        then(need_spec(s, 16), |_u: (), s: Seq<u8>| then(take_uuid(s), |target_player: u128, s: Seq<u8>| (Ok(ServerboundSpectate { target_player }), s)))
    }
}

impl Roundtrip for ServerboundSpectate {
    open spec fn encodable(p: ServerboundSpectate) -> bool {
        true
    }

    open spec fn reads_to_end() -> bool {
        false
    }

    proof fn lemma_roundtrip(p: ServerboundSpectate, rest: Seq<u8>) {
        broadcast use group_wire_roundtrip;

        lemma_take_uuid(p.target_player, rest);
    }
}

impl Encode for ServerboundSpectate {
    fn encode(&self, dst: &mut BytesMut) -> (r: Result<(), ProtocolError>) {
        let ghost d0 = bytes_mut_data(*dst);
        put_uuid(dst, self.target_player);
        let ghost mut e: Seq<u8> = uuid_wire(self@.target_player);
        Ok(())
    }
}

impl Decode for ServerboundSpectate {
    fn decode(src: &mut Bytes) -> (r: Result<Self, ProtocolError>) {
        need(src, 16)?;
        let target_player = get_uuid(src);
        Ok(Self { target_player })
    }
}

// ── ServerboundPlayerBlockPlacement ───────────────────────────────────

#[derive(Debug, Clone, PartialEq)]
pub struct ServerboundPlayerBlockPlacement {
    pub location: u64,
    pub face: VarInt,
    pub hand: VarInt,
    /// The bits of the `f32` value (`f32::to_bits`).
    pub cursor_x: u32,
    /// The bits of the `f32` value (`f32::to_bits`).
    pub cursor_y: u32,
    /// The bits of the `f32` value (`f32::to_bits`).
    pub cursor_z: u32,
}

impl View for ServerboundPlayerBlockPlacement {
    type V = ServerboundPlayerBlockPlacement;

    open spec fn view(&self) -> ServerboundPlayerBlockPlacement {
        *self
    }
}

impl PacketId for ServerboundPlayerBlockPlacement {
    open spec fn spec_packet_id(ver: u32) -> u8 {
        0x1F
    }

    fn packet_id(_ver: u32) -> (r: u8) {
        0x1F
    }
}

impl WireFormat for ServerboundPlayerBlockPlacement {
    open spec fn spec_encode(p: ServerboundPlayerBlockPlacement) -> Seq<u8> {
        be_u64_bytes(p.location) + VarInt::spec_encode(p.face) + VarInt::spec_encode(p.hand) + be_u32_bytes(p.cursor_x) + be_u32_bytes(p.cursor_y) + be_u32_bytes(p.cursor_z)
    }

    open spec fn spec_decode(s: Seq<u8>) -> Parsed<ServerboundPlayerBlockPlacement> {
        then(need_spec(s, 8), |_u: (), s: Seq<u8>| then(take_u64(s), |location: u64, s: Seq<u8>| then(VarInt::spec_decode(s), |face: VarInt, s: Seq<u8>| then(VarInt::spec_decode(s), |hand: VarInt, s: Seq<u8>| then(need_spec(s, 12), |_u: (), s: Seq<u8>| then(take_u32(s), |cursor_x: u32, s: Seq<u8>| then(take_u32(s), |cursor_y: u32, s: Seq<u8>| then(take_u32(s), |cursor_z: u32, s: Seq<u8>| (Ok(ServerboundPlayerBlockPlacement { location, face, hand, cursor_x, cursor_y, cursor_z }), s)))))))))
    }
}

impl Roundtrip for ServerboundPlayerBlockPlacement {
    open spec fn encodable(p: ServerboundPlayerBlockPlacement) -> bool {
        true
    }

    open spec fn reads_to_end() -> bool {
        false
    }

    #[verifier::rlimit(100)]
    #[verifier::spinoff_prover]
    proof fn lemma_roundtrip(p: ServerboundPlayerBlockPlacement, rest: Seq<u8>) {
        broadcast use group_wire_roundtrip;

        let t5 = be_u32_bytes(p.cursor_z) + rest;
        let t4 = be_u32_bytes(p.cursor_y) + t5;
        let t3 = be_u32_bytes(p.cursor_x) + t4;
        let t2 = VarInt::spec_encode(p.hand) + t3;
        let t1 = VarInt::spec_encode(p.face) + t2;
        lemma_concat_associative(be_u64_bytes(p.location) + VarInt::spec_encode(p.face) + VarInt::spec_encode(p.hand) + be_u32_bytes(p.cursor_x) + be_u32_bytes(p.cursor_y), be_u32_bytes(p.cursor_z), rest);
        lemma_concat_associative(be_u64_bytes(p.location) + VarInt::spec_encode(p.face) + VarInt::spec_encode(p.hand) + be_u32_bytes(p.cursor_x), be_u32_bytes(p.cursor_y), t5);
        lemma_concat_associative(be_u64_bytes(p.location) + VarInt::spec_encode(p.face) + VarInt::spec_encode(p.hand), be_u32_bytes(p.cursor_x), t4);
        lemma_concat_associative(be_u64_bytes(p.location) + VarInt::spec_encode(p.face), VarInt::spec_encode(p.hand), t3);
        lemma_concat_associative(be_u64_bytes(p.location), VarInt::spec_encode(p.face), t2);
        VarInt::lemma_roundtrip(p.face, t2);
        VarInt::lemma_roundtrip(p.hand, t3);
    }
}

impl Encode for ServerboundPlayerBlockPlacement {
    fn encode(&self, dst: &mut BytesMut) -> (r: Result<(), ProtocolError>) {
        let ghost d0 = bytes_mut_data(*dst);
        put_u64(dst, self.location);
        let ghost mut e: Seq<u8> = be_u64_bytes(self@.location);
        let _ = self.face.encode(dst);
        proof {
            lemma_concat_associative(d0, e, VarInt::spec_encode(self@.face));
            e = e + VarInt::spec_encode(self@.face);
        }
        let _ = self.hand.encode(dst);
        proof {
            lemma_concat_associative(d0, e, VarInt::spec_encode(self@.hand));
            e = e + VarInt::spec_encode(self@.hand);
        }
        put_u32(dst, self.cursor_x);
        proof {
            lemma_concat_associative(d0, e, be_u32_bytes(self@.cursor_x));
            e = e + be_u32_bytes(self@.cursor_x);
        }
        put_u32(dst, self.cursor_y);
        proof {
            lemma_concat_associative(d0, e, be_u32_bytes(self@.cursor_y));
            e = e + be_u32_bytes(self@.cursor_y);
        }
        put_u32(dst, self.cursor_z);
        proof {
            lemma_concat_associative(d0, e, be_u32_bytes(self@.cursor_z));
            e = e + be_u32_bytes(self@.cursor_z);
        }
        Ok(())
    }
}

impl Decode for ServerboundPlayerBlockPlacement {
    fn decode(src: &mut Bytes) -> (r: Result<Self, ProtocolError>) {
        need(src, 8)?;
        let location = get_u64(src);
        let face = VarInt::decode(src)?;
        let hand = VarInt::decode(src)?;
        need(src, 12)?;
        let cursor_x = get_u32(src);
        let cursor_y = get_u32(src);
        let cursor_z = get_u32(src);
        Ok(Self { location, face, hand, cursor_x, cursor_y, cursor_z })
    }
}

// ── ServerboundUseItem ────────────────────────────────────────────────

#[derive(Debug, Clone, PartialEq)]
pub struct ServerboundUseItem {
    pub hand: VarInt,
}

impl View for ServerboundUseItem {
    type V = ServerboundUseItem;

    open spec fn view(&self) -> ServerboundUseItem {
        *self
    }
}

impl PacketId for ServerboundUseItem {
    open spec fn spec_packet_id(ver: u32) -> u8 {
        0x20
    }

    fn packet_id(_ver: u32) -> (r: u8) {
        0x20
    }
}

impl WireFormat for ServerboundUseItem {
    open spec fn spec_encode(p: ServerboundUseItem) -> Seq<u8> {
        VarInt::spec_encode(p.hand)
    }

    open spec fn spec_decode(s: Seq<u8>) -> Parsed<ServerboundUseItem> {
        then(VarInt::spec_decode(s), |hand: VarInt, s: Seq<u8>| (Ok(ServerboundUseItem { hand }), s))
    }
}

impl Roundtrip for ServerboundUseItem {
    open spec fn encodable(p: ServerboundUseItem) -> bool {
        true
    }

    open spec fn reads_to_end() -> bool {
        false
    }

    proof fn lemma_roundtrip(p: ServerboundUseItem, rest: Seq<u8>) {
        broadcast use group_wire_roundtrip;

        VarInt::lemma_roundtrip(p.hand, rest);
    }
}

impl Encode for ServerboundUseItem {
    fn encode(&self, dst: &mut BytesMut) -> (r: Result<(), ProtocolError>) {
        let ghost d0 = bytes_mut_data(*dst);
        let _ = self.hand.encode(dst);
        let ghost mut e: Seq<u8> = VarInt::spec_encode(self@.hand);
        Ok(())
    }
}

impl Decode for ServerboundUseItem {
    fn decode(src: &mut Bytes) -> (r: Result<Self, ProtocolError>) {
        let hand = VarInt::decode(src)?;
        Ok(Self { hand })
    }
}

// ── ClientboundPlayerCombatEnter ──────────────────────────────────────

#[derive(Debug, Clone, PartialEq)]
pub struct ClientboundPlayerCombatEnter;

impl View for ClientboundPlayerCombatEnter {
    type V = ClientboundPlayerCombatEnter;

    open spec fn view(&self) -> ClientboundPlayerCombatEnter {
        *self
    }
}

impl PacketId for ClientboundPlayerCombatEnter {
    open spec fn spec_packet_id(ver: u32) -> u8 {
        0x2D
    }

    fn packet_id(_ver: u32) -> (r: u8) {
        0x2D
    }
}

impl WireFormat for ClientboundPlayerCombatEnter {
    open spec fn spec_encode(p: ClientboundPlayerCombatEnter) -> Seq<u8> {
        VarInt::spec_encode(VarInt(0))
    }

    open spec fn spec_decode(s: Seq<u8>) -> Parsed<ClientboundPlayerCombatEnter> {
        (Ok(ClientboundPlayerCombatEnter), s)
    }
}

impl Encode for ClientboundPlayerCombatEnter {
    fn encode(&self, dst: &mut BytesMut) -> (r: Result<(), ProtocolError>) {
        let ghost d0 = bytes_mut_data(*dst);
        let _ = VarInt(0).encode(dst);
        let ghost mut e: Seq<u8> = VarInt::spec_encode(VarInt(0));
        Ok(())
    }
}

impl Decode for ClientboundPlayerCombatEnter {
    fn decode(_src: &mut Bytes) -> (r: Result<Self, ProtocolError>) {
        Ok(ClientboundPlayerCombatEnter)
    }
}

// ── ClientboundPlayerCombatEnd ────────────────────────────────────────

#[derive(Debug, Clone, PartialEq)]
pub struct ClientboundPlayerCombatEnd {
    pub duration: VarInt,
    pub entity_id: i32,
}

impl View for ClientboundPlayerCombatEnd {
    type V = ClientboundPlayerCombatEnd;

    open spec fn view(&self) -> ClientboundPlayerCombatEnd {
        *self
    }
}

impl PacketId for ClientboundPlayerCombatEnd {
    open spec fn spec_packet_id(ver: u32) -> u8 {
        0x2D
    }

    fn packet_id(_ver: u32) -> (r: u8) {
        0x2D
    }
}

impl WireFormat for ClientboundPlayerCombatEnd {
    open spec fn spec_encode(p: ClientboundPlayerCombatEnd) -> Seq<u8> {
        VarInt::spec_encode(VarInt(1)) + VarInt::spec_encode(p.duration) + be_i32_bytes(p.entity_id)
    }

    open spec fn spec_decode(s: Seq<u8>) -> Parsed<ClientboundPlayerCombatEnd> {
        then(VarInt::spec_decode(s), |duration: VarInt, s: Seq<u8>| then(need_spec(s, 4), |_u: (), s: Seq<u8>| then(take_i32(s), |entity_id: i32, s: Seq<u8>| (Ok(ClientboundPlayerCombatEnd { duration, entity_id }), s))))
    }
}

impl Encode for ClientboundPlayerCombatEnd {
    fn encode(&self, dst: &mut BytesMut) -> (r: Result<(), ProtocolError>) {
        let ghost d0 = bytes_mut_data(*dst);
        let _ = VarInt(1).encode(dst);
        let ghost mut e: Seq<u8> = VarInt::spec_encode(VarInt(1));
        let _ = self.duration.encode(dst);
        proof {
            lemma_concat_associative(d0, e, VarInt::spec_encode(self@.duration));
            e = e + VarInt::spec_encode(self@.duration);
        }
        put_i32(dst, self.entity_id);
        proof {
            lemma_concat_associative(d0, e, be_i32_bytes(self@.entity_id));
            e = e + be_i32_bytes(self@.entity_id);
        }
        Ok(())
    }
}

impl Decode for ClientboundPlayerCombatEnd {
    fn decode(src: &mut Bytes) -> (r: Result<Self, ProtocolError>) {
        let duration = VarInt::decode(src)?;
        need(src, 4)?;
        let entity_id = get_i32(src);
        Ok(Self { duration, entity_id })
    }
}

// ── ClientboundPlayerCombatKill ───────────────────────────────────────

#[derive(Debug, Clone, PartialEq)]
pub struct ClientboundPlayerCombatKill {
    pub player_id: VarInt,
    pub entity_id: i32,
    pub message: String,
}

pub struct ClientboundPlayerCombatKillView {
    pub player_id: VarInt,
    pub entity_id: i32,
    pub message: Seq<char>,
}

impl View for ClientboundPlayerCombatKill {
    type V = ClientboundPlayerCombatKillView;

    open spec fn view(&self) -> ClientboundPlayerCombatKillView {
        ClientboundPlayerCombatKillView {
            player_id: self.player_id,
            entity_id: self.entity_id,
            message: self.message@,
        }
    }
}

impl PacketId for ClientboundPlayerCombatKill {
    open spec fn spec_packet_id(ver: u32) -> u8 {
        0x2D
    }

    fn packet_id(_ver: u32) -> (r: u8) {
        0x2D
    }
}

impl WireFormat for ClientboundPlayerCombatKill {
    open spec fn spec_encode(p: ClientboundPlayerCombatKillView) -> Seq<u8> {
        VarInt::spec_encode(VarInt(2)) + VarInt::spec_encode(p.player_id) + be_i32_bytes(p.entity_id) + string_wire(p.message)
    }

    open spec fn spec_decode(s: Seq<u8>) -> Parsed<ClientboundPlayerCombatKillView> {
        then(VarInt::spec_decode(s), |player_id: VarInt, s: Seq<u8>| then(need_spec(s, 4), |_u: (), s: Seq<u8>| then(take_i32(s), |entity_id: i32, s: Seq<u8>| then(str_spec(s, "ClientboundPlayerCombatKill message"@), |message: Seq<char>, s: Seq<u8>| (Ok(ClientboundPlayerCombatKillView { player_id, entity_id, message }), s)))))
    }
}

impl Encode for ClientboundPlayerCombatKill {
    fn encode(&self, dst: &mut BytesMut) -> (r: Result<(), ProtocolError>) {
        let ghost d0 = bytes_mut_data(*dst);
        let _ = VarInt(2).encode(dst);
        let ghost mut e: Seq<u8> = VarInt::spec_encode(VarInt(2));
        let _ = self.player_id.encode(dst);
        proof {
            lemma_concat_associative(d0, e, VarInt::spec_encode(self@.player_id));
            e = e + VarInt::spec_encode(self@.player_id);
        }
        put_i32(dst, self.entity_id);
        proof {
            lemma_concat_associative(d0, e, be_i32_bytes(self@.entity_id));
            e = e + be_i32_bytes(self@.entity_id);
        }
        encode_str(self.message.as_str(), dst);
        proof {
            lemma_concat_associative(d0, e, string_wire(self@.message));
            e = e + string_wire(self@.message);
        }
        Ok(())
    }
}

impl Decode for ClientboundPlayerCombatKill {
    fn decode(src: &mut Bytes) -> (r: Result<Self, ProtocolError>) {
        let player_id = VarInt::decode(src)?;
        need(src, 4)?;
        let entity_id = get_i32(src);
        let message = decode_str(src, "ClientboundPlayerCombatKill message")?;
        Ok(Self { player_id, entity_id, message })
    }
}

// ── ClientboundSetBorderSize ──────────────────────────────────────────

#[derive(Debug, Clone, PartialEq)]
pub struct ClientboundSetBorderSize {
    /// The bits of the `f64` value (`f64::to_bits`).
    pub diameter: u64,
}

impl View for ClientboundSetBorderSize {
    type V = ClientboundSetBorderSize;

    open spec fn view(&self) -> ClientboundSetBorderSize {
        *self
    }
}

impl PacketId for ClientboundSetBorderSize {
    open spec fn spec_packet_id(ver: u32) -> u8 {
        0x38
    }

    fn packet_id(_ver: u32) -> (r: u8) {
        0x38
    }
}

impl WireFormat for ClientboundSetBorderSize {
    open spec fn spec_encode(p: ClientboundSetBorderSize) -> Seq<u8> {
        VarInt::spec_encode(VarInt(0)) + be_u64_bytes(p.diameter)
    }

    open spec fn spec_decode(s: Seq<u8>) -> Parsed<ClientboundSetBorderSize> {
        then(need_spec(s, 8), |_u: (), s: Seq<u8>| then(take_u64(s), |diameter: u64, s: Seq<u8>| (Ok(ClientboundSetBorderSize { diameter }), s)))
    }
}

impl Encode for ClientboundSetBorderSize {
    fn encode(&self, dst: &mut BytesMut) -> (r: Result<(), ProtocolError>) {
        let ghost d0 = bytes_mut_data(*dst);
        let _ = VarInt(0).encode(dst);
        let ghost mut e: Seq<u8> = VarInt::spec_encode(VarInt(0));
        put_u64(dst, self.diameter);
        proof {
            lemma_concat_associative(d0, e, be_u64_bytes(self@.diameter));
            e = e + be_u64_bytes(self@.diameter);
        }
        Ok(())
    }
}

impl Decode for ClientboundSetBorderSize {
    fn decode(src: &mut Bytes) -> (r: Result<Self, ProtocolError>) {
        need(src, 8)?;
        let diameter = get_u64(src);
        Ok(Self { diameter })
    }
}

// ── ClientboundSetBorderLerpSize ──────────────────────────────────────

#[derive(Debug, Clone, PartialEq)]
pub struct ClientboundSetBorderLerpSize {
    /// The bits of the `f64` value (`f64::to_bits`).
    pub old_diameter: u64,
    /// The bits of the `f64` value (`f64::to_bits`).
    pub new_diameter: u64,
    pub speed: VarInt,
}

impl View for ClientboundSetBorderLerpSize {
    type V = ClientboundSetBorderLerpSize;

    open spec fn view(&self) -> ClientboundSetBorderLerpSize {
        *self
    }
}

impl PacketId for ClientboundSetBorderLerpSize {
    open spec fn spec_packet_id(ver: u32) -> u8 {
        0x38
    }

    fn packet_id(_ver: u32) -> (r: u8) {
        0x38
    }
}

impl WireFormat for ClientboundSetBorderLerpSize {
    open spec fn spec_encode(p: ClientboundSetBorderLerpSize) -> Seq<u8> {
        VarInt::spec_encode(VarInt(1)) + be_u64_bytes(p.old_diameter) + be_u64_bytes(p.new_diameter) + VarInt::spec_encode(p.speed)
    }

    open spec fn spec_decode(s: Seq<u8>) -> Parsed<ClientboundSetBorderLerpSize> {
        then(need_spec(s, 16), |_u: (), s: Seq<u8>| then(take_u64(s), |old_diameter: u64, s: Seq<u8>| then(take_u64(s), |new_diameter: u64, s: Seq<u8>| then(VarInt::spec_decode(s), |speed: VarInt, s: Seq<u8>| (Ok(ClientboundSetBorderLerpSize { old_diameter, new_diameter, speed }), s)))))
    }
}

impl Encode for ClientboundSetBorderLerpSize {
    fn encode(&self, dst: &mut BytesMut) -> (r: Result<(), ProtocolError>) {
        let ghost d0 = bytes_mut_data(*dst);
        let _ = VarInt(1).encode(dst);
        let ghost mut e: Seq<u8> = VarInt::spec_encode(VarInt(1));
        put_u64(dst, self.old_diameter);
        proof {
            lemma_concat_associative(d0, e, be_u64_bytes(self@.old_diameter));
            e = e + be_u64_bytes(self@.old_diameter);
        }
        put_u64(dst, self.new_diameter);
        proof {
            lemma_concat_associative(d0, e, be_u64_bytes(self@.new_diameter));
            e = e + be_u64_bytes(self@.new_diameter);
        }
        let _ = self.speed.encode(dst);
        proof {
            lemma_concat_associative(d0, e, VarInt::spec_encode(self@.speed));
            e = e + VarInt::spec_encode(self@.speed);
        }
        Ok(())
    }
}

impl Decode for ClientboundSetBorderLerpSize {
    fn decode(src: &mut Bytes) -> (r: Result<Self, ProtocolError>) {
        need(src, 16)?;
        let old_diameter = get_u64(src);
        let new_diameter = get_u64(src);
        let speed = VarInt::decode(src)?;
        Ok(Self { old_diameter, new_diameter, speed })
    }
}

// ── ClientboundSetBorderCenter ────────────────────────────────────────

#[derive(Debug, Clone, PartialEq)]
pub struct ClientboundSetBorderCenter {
    /// The bits of the `f64` value (`f64::to_bits`).
    pub new_center_x: u64,
    /// The bits of the `f64` value (`f64::to_bits`).
    pub new_center_z: u64,
}

impl View for ClientboundSetBorderCenter {
    type V = ClientboundSetBorderCenter;

    open spec fn view(&self) -> ClientboundSetBorderCenter {
        *self
    }
}

impl PacketId for ClientboundSetBorderCenter {
    open spec fn spec_packet_id(ver: u32) -> u8 {
        0x38
    }

    fn packet_id(_ver: u32) -> (r: u8) {
        0x38
    }
}

impl WireFormat for ClientboundSetBorderCenter {
    open spec fn spec_encode(p: ClientboundSetBorderCenter) -> Seq<u8> {
        VarInt::spec_encode(VarInt(2)) + be_u64_bytes(p.new_center_x) + be_u64_bytes(p.new_center_z)
    }

    open spec fn spec_decode(s: Seq<u8>) -> Parsed<ClientboundSetBorderCenter> {
        then(need_spec(s, 16), |_u: (), s: Seq<u8>| then(take_u64(s), |new_center_x: u64, s: Seq<u8>| then(take_u64(s), |new_center_z: u64, s: Seq<u8>| (Ok(ClientboundSetBorderCenter { new_center_x, new_center_z }), s))))
    }
}

impl Encode for ClientboundSetBorderCenter {
    fn encode(&self, dst: &mut BytesMut) -> (r: Result<(), ProtocolError>) {
        let ghost d0 = bytes_mut_data(*dst);
        let _ = VarInt(2).encode(dst);
        let ghost mut e: Seq<u8> = VarInt::spec_encode(VarInt(2));
        put_u64(dst, self.new_center_x);
        proof {
            lemma_concat_associative(d0, e, be_u64_bytes(self@.new_center_x));
            e = e + be_u64_bytes(self@.new_center_x);
        }
        put_u64(dst, self.new_center_z);
        proof {
            lemma_concat_associative(d0, e, be_u64_bytes(self@.new_center_z));
            e = e + be_u64_bytes(self@.new_center_z);
        }
        Ok(())
    }
}

impl Decode for ClientboundSetBorderCenter {
    fn decode(src: &mut Bytes) -> (r: Result<Self, ProtocolError>) {
        need(src, 16)?;
        let new_center_x = get_u64(src);
        let new_center_z = get_u64(src);
        Ok(Self { new_center_x, new_center_z })
    }
}

// ── ClientboundInitializeBorder ───────────────────────────────────────

#[derive(Debug, Clone, PartialEq)]
pub struct ClientboundInitializeBorder {
    /// The bits of the `f64` value (`f64::to_bits`).
    pub x: u64,
    /// The bits of the `f64` value (`f64::to_bits`).
    pub z: u64,
    /// The bits of the `f64` value (`f64::to_bits`).
    pub old_diameter: u64,
    /// The bits of the `f64` value (`f64::to_bits`).
    pub new_diameter: u64,
    pub speed: VarInt,
    pub portal_teleport_boundary: VarInt,
    pub warning_blocks: VarInt,
    pub warning_time: VarInt,
}

impl View for ClientboundInitializeBorder {
    type V = ClientboundInitializeBorder;

    open spec fn view(&self) -> ClientboundInitializeBorder {
        *self
    }
}

impl PacketId for ClientboundInitializeBorder {
    open spec fn spec_packet_id(ver: u32) -> u8 {
        0x38
    }

    fn packet_id(_ver: u32) -> (r: u8) {
        0x38
    }
}

impl WireFormat for ClientboundInitializeBorder {
    open spec fn spec_encode(p: ClientboundInitializeBorder) -> Seq<u8> {
        VarInt::spec_encode(VarInt(3)) + be_u64_bytes(p.x) + be_u64_bytes(p.z) + be_u64_bytes(p.old_diameter) + be_u64_bytes(p.new_diameter) + VarInt::spec_encode(p.speed) + VarInt::spec_encode(p.portal_teleport_boundary) + VarInt::spec_encode(p.warning_blocks) + VarInt::spec_encode(p.warning_time)
    }

    open spec fn spec_decode(s: Seq<u8>) -> Parsed<ClientboundInitializeBorder> {
        then(need_spec(s, 32), |_u: (), s: Seq<u8>| then(take_u64(s), |x: u64, s: Seq<u8>| then(take_u64(s), |z: u64, s: Seq<u8>| then(take_u64(s), |old_diameter: u64, s: Seq<u8>| then(take_u64(s), |new_diameter: u64, s: Seq<u8>| then(VarInt::spec_decode(s), |speed: VarInt, s: Seq<u8>| then(VarInt::spec_decode(s), |portal_teleport_boundary: VarInt, s: Seq<u8>| then(VarInt::spec_decode(s), |warning_blocks: VarInt, s: Seq<u8>| then(VarInt::spec_decode(s), |warning_time: VarInt, s: Seq<u8>| (Ok(ClientboundInitializeBorder { x, z, old_diameter, new_diameter, speed, portal_teleport_boundary, warning_blocks, warning_time }), s))))))))))
    }
}

impl Encode for ClientboundInitializeBorder {
    fn encode(&self, dst: &mut BytesMut) -> (r: Result<(), ProtocolError>) {
        let ghost d0 = bytes_mut_data(*dst);
        let _ = VarInt(3).encode(dst);
        let ghost mut e: Seq<u8> = VarInt::spec_encode(VarInt(3));
        put_u64(dst, self.x);
        proof {
            lemma_concat_associative(d0, e, be_u64_bytes(self@.x));
            e = e + be_u64_bytes(self@.x);
        }
        put_u64(dst, self.z);
        proof {
            lemma_concat_associative(d0, e, be_u64_bytes(self@.z));
            e = e + be_u64_bytes(self@.z);
        }
        put_u64(dst, self.old_diameter);
        proof {
            lemma_concat_associative(d0, e, be_u64_bytes(self@.old_diameter));
            e = e + be_u64_bytes(self@.old_diameter);
        }
        put_u64(dst, self.new_diameter);
        proof {
            lemma_concat_associative(d0, e, be_u64_bytes(self@.new_diameter));
            e = e + be_u64_bytes(self@.new_diameter);
        }
        let _ = self.speed.encode(dst);
        proof {
            lemma_concat_associative(d0, e, VarInt::spec_encode(self@.speed));
            e = e + VarInt::spec_encode(self@.speed);
        }
        let _ = self.portal_teleport_boundary.encode(dst);
        proof {
            lemma_concat_associative(d0, e, VarInt::spec_encode(self@.portal_teleport_boundary));
            e = e + VarInt::spec_encode(self@.portal_teleport_boundary);
        }
        let _ = self.warning_blocks.encode(dst);
        proof {
            lemma_concat_associative(d0, e, VarInt::spec_encode(self@.warning_blocks));
            e = e + VarInt::spec_encode(self@.warning_blocks);
        }
        let _ = self.warning_time.encode(dst);
        proof {
            lemma_concat_associative(d0, e, VarInt::spec_encode(self@.warning_time));
            e = e + VarInt::spec_encode(self@.warning_time);
        }
        Ok(())
    }
}

impl Decode for ClientboundInitializeBorder {
    fn decode(src: &mut Bytes) -> (r: Result<Self, ProtocolError>) {
        need(src, 32)?;
        let x = get_u64(src);
        let z = get_u64(src);
        let old_diameter = get_u64(src);
        let new_diameter = get_u64(src);
        let speed = VarInt::decode(src)?;
        let portal_teleport_boundary = VarInt::decode(src)?;
        let warning_blocks = VarInt::decode(src)?;
        let warning_time = VarInt::decode(src)?;
        Ok(Self { x, z, old_diameter, new_diameter, speed, portal_teleport_boundary, warning_blocks, warning_time })
    }
}

// ── ClientboundSetBorderWarningTime ───────────────────────────────────

#[derive(Debug, Clone, PartialEq)]
pub struct ClientboundSetBorderWarningTime {
    pub warning_time: VarInt,
}

impl View for ClientboundSetBorderWarningTime {
    type V = ClientboundSetBorderWarningTime;

    open spec fn view(&self) -> ClientboundSetBorderWarningTime {
        *self
    }
}

impl PacketId for ClientboundSetBorderWarningTime {
    open spec fn spec_packet_id(ver: u32) -> u8 {
        0x38
    }

    fn packet_id(_ver: u32) -> (r: u8) {
        0x38
    }
}

impl WireFormat for ClientboundSetBorderWarningTime {
    open spec fn spec_encode(p: ClientboundSetBorderWarningTime) -> Seq<u8> {
        VarInt::spec_encode(VarInt(4)) + VarInt::spec_encode(p.warning_time)
    }

    open spec fn spec_decode(s: Seq<u8>) -> Parsed<ClientboundSetBorderWarningTime> {
        then(VarInt::spec_decode(s), |warning_time: VarInt, s: Seq<u8>| (Ok(ClientboundSetBorderWarningTime { warning_time }), s))
    }
}

impl Encode for ClientboundSetBorderWarningTime {
    fn encode(&self, dst: &mut BytesMut) -> (r: Result<(), ProtocolError>) {
        let ghost d0 = bytes_mut_data(*dst);
        let _ = VarInt(4).encode(dst);
        let ghost mut e: Seq<u8> = VarInt::spec_encode(VarInt(4));
        let _ = self.warning_time.encode(dst);
        proof {
            lemma_concat_associative(d0, e, VarInt::spec_encode(self@.warning_time));
            e = e + VarInt::spec_encode(self@.warning_time);
        }
        Ok(())
    }
}

impl Decode for ClientboundSetBorderWarningTime {
    fn decode(src: &mut Bytes) -> (r: Result<Self, ProtocolError>) {
        let warning_time = VarInt::decode(src)?;
        Ok(Self { warning_time })
    }
}

// ── ClientboundSetBorderWarningDistance ───────────────────────────────

#[derive(Debug, Clone, PartialEq)]
pub struct ClientboundSetBorderWarningDistance {
    pub warning_blocks: VarInt,
}

impl View for ClientboundSetBorderWarningDistance {
    type V = ClientboundSetBorderWarningDistance;

    open spec fn view(&self) -> ClientboundSetBorderWarningDistance {
        *self
    }
}

impl PacketId for ClientboundSetBorderWarningDistance {
    open spec fn spec_packet_id(ver: u32) -> u8 {
        0x38
    }

    fn packet_id(_ver: u32) -> (r: u8) {
        0x38
    }
}

impl WireFormat for ClientboundSetBorderWarningDistance {
    open spec fn spec_encode(p: ClientboundSetBorderWarningDistance) -> Seq<u8> {
        VarInt::spec_encode(VarInt(5)) + VarInt::spec_encode(p.warning_blocks)
    }

    open spec fn spec_decode(s: Seq<u8>) -> Parsed<ClientboundSetBorderWarningDistance> {
        then(VarInt::spec_decode(s), |warning_blocks: VarInt, s: Seq<u8>| (Ok(ClientboundSetBorderWarningDistance { warning_blocks }), s))
    }
}

impl Encode for ClientboundSetBorderWarningDistance {
    fn encode(&self, dst: &mut BytesMut) -> (r: Result<(), ProtocolError>) {
        let ghost d0 = bytes_mut_data(*dst);
        let _ = VarInt(5).encode(dst);
        let ghost mut e: Seq<u8> = VarInt::spec_encode(VarInt(5));
        let _ = self.warning_blocks.encode(dst);
        proof {
            lemma_concat_associative(d0, e, VarInt::spec_encode(self@.warning_blocks));
            e = e + VarInt::spec_encode(self@.warning_blocks);
        }
        Ok(())
    }
}

impl Decode for ClientboundSetBorderWarningDistance {
    fn decode(src: &mut Bytes) -> (r: Result<Self, ProtocolError>) {
        let warning_blocks = VarInt::decode(src)?;
        Ok(Self { warning_blocks })
    }
}

// ── ClientboundHorseScreenOpen ────────────────────────────────────────

#[derive(Debug, Clone, PartialEq)]
pub struct ClientboundHorseScreenOpen {
    pub window_id: u8,
    pub slot_count: VarInt,
    pub entity_id: i32,
}

impl View for ClientboundHorseScreenOpen {
    type V = ClientboundHorseScreenOpen;

    open spec fn view(&self) -> ClientboundHorseScreenOpen {
        *self
    }
}

impl PacketId for ClientboundHorseScreenOpen {
    open spec fn spec_packet_id(ver: u32) -> u8 {
        0x1F
    }

    fn packet_id(_ver: u32) -> (r: u8) {
        0x1F
    }
}

impl WireFormat for ClientboundHorseScreenOpen {
    open spec fn spec_encode(p: ClientboundHorseScreenOpen) -> Seq<u8> {
        seq![p.window_id] + VarInt::spec_encode(p.slot_count) + be_i32_bytes(p.entity_id)
    }

    open spec fn spec_decode(s: Seq<u8>) -> Parsed<ClientboundHorseScreenOpen> {
        then(need_spec(s, 1), |_u: (), s: Seq<u8>| then(take_u8(s), |window_id: u8, s: Seq<u8>| then(VarInt::spec_decode(s), |slot_count: VarInt, s: Seq<u8>| then(need_spec(s, 4), |_u: (), s: Seq<u8>| then(take_i32(s), |entity_id: i32, s: Seq<u8>| (Ok(ClientboundHorseScreenOpen { window_id, slot_count, entity_id }), s))))))
    }
}

impl Roundtrip for ClientboundHorseScreenOpen {
    open spec fn encodable(p: ClientboundHorseScreenOpen) -> bool {
        true
    }

    open spec fn reads_to_end() -> bool {
        false
    }

    proof fn lemma_roundtrip(p: ClientboundHorseScreenOpen, rest: Seq<u8>) {
        broadcast use group_wire_roundtrip;

        let t2 = be_i32_bytes(p.entity_id) + rest;
        let t1 = VarInt::spec_encode(p.slot_count) + t2;
        lemma_concat_associative(seq![p.window_id] + VarInt::spec_encode(p.slot_count), be_i32_bytes(p.entity_id), rest);
        lemma_concat_associative(seq![p.window_id], VarInt::spec_encode(p.slot_count), t2);
        VarInt::lemma_roundtrip(p.slot_count, t2);
    }
}

impl Encode for ClientboundHorseScreenOpen {
    fn encode(&self, dst: &mut BytesMut) -> (r: Result<(), ProtocolError>) {
        let ghost d0 = bytes_mut_data(*dst);
        put_u8(dst, self.window_id);
        let ghost mut e: Seq<u8> = seq![self@.window_id];
        let _ = self.slot_count.encode(dst);
        proof {
            lemma_concat_associative(d0, e, VarInt::spec_encode(self@.slot_count));
            e = e + VarInt::spec_encode(self@.slot_count);
        }
        put_i32(dst, self.entity_id);
        proof {
            lemma_concat_associative(d0, e, be_i32_bytes(self@.entity_id));
            e = e + be_i32_bytes(self@.entity_id);
        }
        Ok(())
    }
}

impl Decode for ClientboundHorseScreenOpen {
    fn decode(src: &mut Bytes) -> (r: Result<Self, ProtocolError>) {
        need(src, 1)?;
        let window_id = get_u8(src);
        let slot_count = VarInt::decode(src)?;
        need(src, 4)?;
        let entity_id = get_i32(src);
        Ok(Self { window_id, slot_count, entity_id })
    }
}

// ── ClientboundPlaceGhostRecipe ───────────────────────────────────────

#[derive(Debug, Clone, PartialEq)]
pub struct ClientboundPlaceGhostRecipe {
    pub window_id: u8,
    pub recipe: String,
}

pub struct ClientboundPlaceGhostRecipeView {
    pub window_id: u8,
    pub recipe: Seq<char>,
}

impl View for ClientboundPlaceGhostRecipe {
    type V = ClientboundPlaceGhostRecipeView;

    open spec fn view(&self) -> ClientboundPlaceGhostRecipeView {
        ClientboundPlaceGhostRecipeView {
            window_id: self.window_id,
            recipe: self.recipe@,
        }
    }
}

impl PacketId for ClientboundPlaceGhostRecipe {
    open spec fn spec_packet_id(ver: u32) -> u8 {
        0x31
    }

    fn packet_id(_ver: u32) -> (r: u8) {
        0x31
    }
}

impl WireFormat for ClientboundPlaceGhostRecipe {
    open spec fn spec_encode(p: ClientboundPlaceGhostRecipeView) -> Seq<u8> {
        seq![p.window_id] + string_wire(p.recipe)
    }

    open spec fn spec_decode(s: Seq<u8>) -> Parsed<ClientboundPlaceGhostRecipeView> {
        then(need_spec(s, 1), |_u: (), s: Seq<u8>| then(take_u8(s), |window_id: u8, s: Seq<u8>| then(str_spec(s, "ClientboundPlaceGhostRecipe recipe"@), |recipe: Seq<char>, s: Seq<u8>| (Ok(ClientboundPlaceGhostRecipeView { window_id, recipe }), s))))
    }
}

impl Roundtrip for ClientboundPlaceGhostRecipe {
    open spec fn encodable(p: ClientboundPlaceGhostRecipeView) -> bool {
        string_fits(p.recipe)
    }

    open spec fn reads_to_end() -> bool {
        false
    }

    proof fn lemma_roundtrip(p: ClientboundPlaceGhostRecipeView, rest: Seq<u8>) {
        broadcast use group_wire_roundtrip;

        let t1 = string_wire(p.recipe) + rest;
        lemma_concat_associative(seq![p.window_id], string_wire(p.recipe), rest);
        lemma_string_roundtrip(p.recipe, rest, missing_for("ClientboundPlaceGhostRecipe recipe"@), invalid_in("ClientboundPlaceGhostRecipe recipe"@));
    }
}

impl Encode for ClientboundPlaceGhostRecipe {
    fn encode(&self, dst: &mut BytesMut) -> (r: Result<(), ProtocolError>) {
        let ghost d0 = bytes_mut_data(*dst);
        put_u8(dst, self.window_id);
        let ghost mut e: Seq<u8> = seq![self@.window_id];
        encode_str(self.recipe.as_str(), dst);
        proof {
            lemma_concat_associative(d0, e, string_wire(self@.recipe));
            e = e + string_wire(self@.recipe);
        }
        Ok(())
    }
}

impl Decode for ClientboundPlaceGhostRecipe {
    fn decode(src: &mut Bytes) -> (r: Result<Self, ProtocolError>) {
        need(src, 1)?;
        let window_id = get_u8(src);
        let recipe = decode_str(src, "ClientboundPlaceGhostRecipe recipe")?;
        Ok(Self { window_id, recipe })
    }
}

// ── ClientboundResetScore ─────────────────────────────────────────────

#[derive(Debug, Clone, PartialEq)]
pub struct ClientboundResetScore {
    pub raw: Vec<u8>,
}

pub struct ClientboundResetScoreView {
    pub raw: Seq<u8>,
}

impl View for ClientboundResetScore {
    type V = ClientboundResetScoreView;

    open spec fn view(&self) -> ClientboundResetScoreView {
        ClientboundResetScoreView {
            raw: self.raw@,
        }
    }
}

impl PacketId for ClientboundResetScore {
    open spec fn spec_packet_id(ver: u32) -> u8 {
        0xFF
    }

    fn packet_id(_ver: u32) -> (r: u8) {
        0xFF
    }
}

impl WireFormat for ClientboundResetScore {
    open spec fn spec_encode(p: ClientboundResetScoreView) -> Seq<u8> {
        p.raw
    }

    open spec fn spec_decode(s: Seq<u8>) -> Parsed<ClientboundResetScoreView> {
        then(take_rest(s), |raw: Seq<u8>, s: Seq<u8>| (Ok(ClientboundResetScoreView { raw }), s))
    }
}

impl Roundtrip for ClientboundResetScore {
    open spec fn encodable(p: ClientboundResetScoreView) -> bool {
        true
    }

    open spec fn reads_to_end() -> bool {
        true
    }

    proof fn lemma_roundtrip(p: ClientboundResetScoreView, rest: Seq<u8>) {
        broadcast use group_wire_roundtrip;

        assert(p.raw + rest =~= p.raw);
    }
}

impl Encode for ClientboundResetScore {
    fn encode(&self, dst: &mut BytesMut) -> (r: Result<(), ProtocolError>) {
        let ghost d0 = bytes_mut_data(*dst);
        put_slice(dst, self.raw.as_slice());
        let ghost mut e: Seq<u8> = self@.raw;
        Ok(())
    }
}

impl Decode for ClientboundResetScore {
    fn decode(src: &mut Bytes) -> (r: Result<Self, ProtocolError>) {
        let raw = take_remaining(src);
        Ok(Self { raw })
    }
}

// ── ServerboundRecipeBookChangeSettings ───────────────────────────────

#[derive(Debug, Clone, PartialEq)]
pub struct ServerboundRecipeBookChangeSettings {
    pub book_id: VarInt,
    pub open: bool,
    pub filter: bool,
}

impl View for ServerboundRecipeBookChangeSettings {
    type V = ServerboundRecipeBookChangeSettings;

    open spec fn view(&self) -> ServerboundRecipeBookChangeSettings {
        *self
    }
}

impl PacketId for ServerboundRecipeBookChangeSettings {
    open spec fn spec_packet_id(ver: u32) -> u8 {
        0x16
    }

    fn packet_id(_ver: u32) -> (r: u8) {
        0x16
    }
}

impl WireFormat for ServerboundRecipeBookChangeSettings {
    open spec fn spec_encode(p: ServerboundRecipeBookChangeSettings) -> Seq<u8> {
        VarInt::spec_encode(p.book_id) + seq![bool_byte(p.open)] + seq![bool_byte(p.filter)]
    }

    open spec fn spec_decode(s: Seq<u8>) -> Parsed<ServerboundRecipeBookChangeSettings> {
        then(VarInt::spec_decode(s), |book_id: VarInt, s: Seq<u8>| then(need_spec(s, 2), |_u: (), s: Seq<u8>| then(take_bool(s), |open: bool, s: Seq<u8>| then(take_bool(s), |filter: bool, s: Seq<u8>| (Ok(ServerboundRecipeBookChangeSettings { book_id, open, filter }), s)))))
    }
}

impl Roundtrip for ServerboundRecipeBookChangeSettings {
    open spec fn encodable(p: ServerboundRecipeBookChangeSettings) -> bool {
        true
    }

    open spec fn reads_to_end() -> bool {
        false
    }

    proof fn lemma_roundtrip(p: ServerboundRecipeBookChangeSettings, rest: Seq<u8>) {
        broadcast use group_wire_roundtrip;

        let t2 = seq![bool_byte(p.filter)] + rest;
        let t1 = seq![bool_byte(p.open)] + t2;
        lemma_concat_associative(VarInt::spec_encode(p.book_id) + seq![bool_byte(p.open)], seq![bool_byte(p.filter)], rest);
        lemma_concat_associative(VarInt::spec_encode(p.book_id), seq![bool_byte(p.open)], t2);
        VarInt::lemma_roundtrip(p.book_id, t1);
    }
}

impl Encode for ServerboundRecipeBookChangeSettings {
    fn encode(&self, dst: &mut BytesMut) -> (r: Result<(), ProtocolError>) {
        let ghost d0 = bytes_mut_data(*dst);
        let _ = self.book_id.encode(dst);
        let ghost mut e: Seq<u8> = VarInt::spec_encode(self@.book_id);
        put_u8(dst, self.open as u8);
        proof {
            lemma_concat_associative(d0, e, seq![bool_byte(self@.open)]);
            e = e + seq![bool_byte(self@.open)];
        }
        put_u8(dst, self.filter as u8);
        proof {
            lemma_concat_associative(d0, e, seq![bool_byte(self@.filter)]);
            e = e + seq![bool_byte(self@.filter)];
        }
        Ok(())
    }
}

impl Decode for ServerboundRecipeBookChangeSettings {
    fn decode(src: &mut Bytes) -> (r: Result<Self, ProtocolError>) {
        let book_id = VarInt::decode(src)?;
        need(src, 2)?;
        let open = get_u8(src) != 0;
        let filter = get_u8(src) != 0;
        Ok(Self { book_id, open, filter })
    }
}

// ── ServerboundPickItem ───────────────────────────────────────────────

#[derive(Debug, Clone, PartialEq)]
pub struct ServerboundPickItem {
    pub slot_to_use: VarInt,
}

impl View for ServerboundPickItem {
    type V = ServerboundPickItem;

    open spec fn view(&self) -> ServerboundPickItem {
        *self
    }
}

impl PacketId for ServerboundPickItem {
    open spec fn spec_packet_id(ver: u32) -> u8 {
        0x15
    }

    fn packet_id(_ver: u32) -> (r: u8) {
        0x15
    }
}

impl WireFormat for ServerboundPickItem {
    open spec fn spec_encode(p: ServerboundPickItem) -> Seq<u8> {
        VarInt::spec_encode(p.slot_to_use)
    }

    open spec fn spec_decode(s: Seq<u8>) -> Parsed<ServerboundPickItem> {
        then(VarInt::spec_decode(s), |slot_to_use: VarInt, s: Seq<u8>| (Ok(ServerboundPickItem { slot_to_use }), s))
    }
}

impl Roundtrip for ServerboundPickItem {
    open spec fn encodable(p: ServerboundPickItem) -> bool {
        true
    }

    open spec fn reads_to_end() -> bool {
        false
    }

    proof fn lemma_roundtrip(p: ServerboundPickItem, rest: Seq<u8>) {
        broadcast use group_wire_roundtrip;

        VarInt::lemma_roundtrip(p.slot_to_use, rest);
    }
}

impl Encode for ServerboundPickItem {
    fn encode(&self, dst: &mut BytesMut) -> (r: Result<(), ProtocolError>) {
        let ghost d0 = bytes_mut_data(*dst);
        let _ = self.slot_to_use.encode(dst);
        let ghost mut e: Seq<u8> = VarInt::spec_encode(self@.slot_to_use);
        Ok(())
    }
}

impl Decode for ServerboundPickItem {
    fn decode(src: &mut Bytes) -> (r: Result<Self, ProtocolError>) {
        let slot_to_use = VarInt::decode(src)?;
        Ok(Self { slot_to_use })
    }
}

// ── ServerboundPlaceRecipe ────────────────────────────────────────────

#[derive(Debug, Clone, PartialEq)]
pub struct ServerboundPlaceRecipe {
    pub window_id: i8,
    pub recipe: String,
    pub make_all: bool,
}

pub struct ServerboundPlaceRecipeView {
    pub window_id: i8,
    pub recipe: Seq<char>,
    pub make_all: bool,
}

impl View for ServerboundPlaceRecipe {
    type V = ServerboundPlaceRecipeView;

    open spec fn view(&self) -> ServerboundPlaceRecipeView {
        ServerboundPlaceRecipeView {
            window_id: self.window_id,
            recipe: self.recipe@,
            make_all: self.make_all,
        }
    }
}

impl PacketId for ServerboundPlaceRecipe {
    open spec fn spec_packet_id(ver: u32) -> u8 {
        0x17
    }

    fn packet_id(_ver: u32) -> (r: u8) {
        0x17
    }
}

impl WireFormat for ServerboundPlaceRecipe {
    open spec fn spec_encode(p: ServerboundPlaceRecipeView) -> Seq<u8> {
        seq![p.window_id as u8] + string_wire(p.recipe) + seq![bool_byte(p.make_all)]
    }

    open spec fn spec_decode(s: Seq<u8>) -> Parsed<ServerboundPlaceRecipeView> {
        then(need_spec(s, 1), |_u: (), s: Seq<u8>| then(take_i8(s), |window_id: i8, s: Seq<u8>| then(str_spec(s, "ServerboundPlaceRecipe recipe"@), |recipe: Seq<char>, s: Seq<u8>| then(need_spec(s, 1), |_u: (), s: Seq<u8>| then(take_bool(s), |make_all: bool, s: Seq<u8>| (Ok(ServerboundPlaceRecipeView { window_id, recipe, make_all }), s))))))
    }
}

impl Roundtrip for ServerboundPlaceRecipe {
    open spec fn encodable(p: ServerboundPlaceRecipeView) -> bool {
        string_fits(p.recipe)
    }

    open spec fn reads_to_end() -> bool {
        false
    }

    proof fn lemma_roundtrip(p: ServerboundPlaceRecipeView, rest: Seq<u8>) {
        broadcast use group_wire_roundtrip;

        let t2 = seq![bool_byte(p.make_all)] + rest;
        let t1 = string_wire(p.recipe) + t2;
        lemma_concat_associative(seq![p.window_id as u8] + string_wire(p.recipe), seq![bool_byte(p.make_all)], rest);
        lemma_concat_associative(seq![p.window_id as u8], string_wire(p.recipe), t2);
        lemma_string_roundtrip(p.recipe, t2, missing_for("ServerboundPlaceRecipe recipe"@), invalid_in("ServerboundPlaceRecipe recipe"@));
    }
}

impl Encode for ServerboundPlaceRecipe {
    fn encode(&self, dst: &mut BytesMut) -> (r: Result<(), ProtocolError>) {
        let ghost d0 = bytes_mut_data(*dst);
        put_i8(dst, self.window_id);
        let ghost mut e: Seq<u8> = seq![self@.window_id as u8];
        encode_str(self.recipe.as_str(), dst);
        proof {
            lemma_concat_associative(d0, e, string_wire(self@.recipe));
            e = e + string_wire(self@.recipe);
        }
        put_u8(dst, self.make_all as u8);
        proof {
            lemma_concat_associative(d0, e, seq![bool_byte(self@.make_all)]);
            e = e + seq![bool_byte(self@.make_all)];
        }
        Ok(())
    }
}

impl Decode for ServerboundPlaceRecipe {
    fn decode(src: &mut Bytes) -> (r: Result<Self, ProtocolError>) {
        need(src, 1)?;
        let window_id = get_i8(src);
        let recipe = decode_str(src, "ServerboundPlaceRecipe recipe")?;
        need(src, 1)?;
        let make_all = get_u8(src) != 0;
        Ok(Self { window_id, recipe, make_all })
    }
}

// ── ServerboundSetBeaconEffect ────────────────────────────────────────

#[derive(Debug, Clone, PartialEq)]
pub struct ServerboundSetBeaconEffect {
    pub primary_effect: VarInt,
    pub secondary_effect: VarInt,
}

impl View for ServerboundSetBeaconEffect {
    type V = ServerboundSetBeaconEffect;

    open spec fn view(&self) -> ServerboundSetBeaconEffect {
        *self
    }
}

impl PacketId for ServerboundSetBeaconEffect {
    open spec fn spec_packet_id(ver: u32) -> u8 {
        0x19
    }

    fn packet_id(_ver: u32) -> (r: u8) {
        0x19
    }
}

impl WireFormat for ServerboundSetBeaconEffect {
    open spec fn spec_encode(p: ServerboundSetBeaconEffect) -> Seq<u8> {
        VarInt::spec_encode(p.primary_effect) + VarInt::spec_encode(p.secondary_effect)
    }

    open spec fn spec_decode(s: Seq<u8>) -> Parsed<ServerboundSetBeaconEffect> {
        then(VarInt::spec_decode(s), |primary_effect: VarInt, s: Seq<u8>| then(VarInt::spec_decode(s), |secondary_effect: VarInt, s: Seq<u8>| (Ok(ServerboundSetBeaconEffect { primary_effect, secondary_effect }), s)))
    }
}

impl Roundtrip for ServerboundSetBeaconEffect {
    open spec fn encodable(p: ServerboundSetBeaconEffect) -> bool {
        true
    }

    open spec fn reads_to_end() -> bool {
        false
    }

    proof fn lemma_roundtrip(p: ServerboundSetBeaconEffect, rest: Seq<u8>) {
        broadcast use group_wire_roundtrip;

        let t1 = VarInt::spec_encode(p.secondary_effect) + rest;
        lemma_concat_associative(VarInt::spec_encode(p.primary_effect), VarInt::spec_encode(p.secondary_effect), rest);
        VarInt::lemma_roundtrip(p.primary_effect, t1);
        VarInt::lemma_roundtrip(p.secondary_effect, rest);
    }
}

impl Encode for ServerboundSetBeaconEffect {
    fn encode(&self, dst: &mut BytesMut) -> (r: Result<(), ProtocolError>) {
        let ghost d0 = bytes_mut_data(*dst);
        let _ = self.primary_effect.encode(dst);
        let ghost mut e: Seq<u8> = VarInt::spec_encode(self@.primary_effect);
        let _ = self.secondary_effect.encode(dst);
        proof {
            lemma_concat_associative(d0, e, VarInt::spec_encode(self@.secondary_effect));
            e = e + VarInt::spec_encode(self@.secondary_effect);
        }
        Ok(())
    }
}

impl Decode for ServerboundSetBeaconEffect {
    fn decode(src: &mut Bytes) -> (r: Result<Self, ProtocolError>) {
        let primary_effect = VarInt::decode(src)?;
        let secondary_effect = VarInt::decode(src)?;
        Ok(Self { primary_effect, secondary_effect })
    }
}

// ── ServerboundSetStructureBlock ──────────────────────────────────────

#[derive(Debug, Clone, PartialEq)]
pub struct ServerboundSetStructureBlock {
    pub location: u64,
    pub action: VarInt,
    pub mode: VarInt,
    pub name: String,
    pub offset_x: i8,
    pub offset_y: i8,
    pub offset_z: i8,
    pub size_x: i8,
    pub size_y: i8,
    pub size_z: i8,
    pub mirror: VarInt,
    pub rotation: VarInt,
    pub metadata: String,
    /// The bits of the `f32` value (`f32::to_bits`).
    pub integrity: u32,
    pub seed: VarInt,
    pub flags: u8,
}

pub struct ServerboundSetStructureBlockView {
    pub location: u64,
    pub action: VarInt,
    pub mode: VarInt,
    pub name: Seq<char>,
    pub offset_x: i8,
    pub offset_y: i8,
    pub offset_z: i8,
    pub size_x: i8,
    pub size_y: i8,
    pub size_z: i8,
    pub mirror: VarInt,
    pub rotation: VarInt,
    pub metadata: Seq<char>,
    pub integrity: u32,
    pub seed: VarInt,
    pub flags: u8,
}

impl View for ServerboundSetStructureBlock {
    type V = ServerboundSetStructureBlockView;

    open spec fn view(&self) -> ServerboundSetStructureBlockView {
        ServerboundSetStructureBlockView {
            location: self.location,
            action: self.action,
            mode: self.mode,
            name: self.name@,
            offset_x: self.offset_x,
            offset_y: self.offset_y,
            offset_z: self.offset_z,
            size_x: self.size_x,
            size_y: self.size_y,
            size_z: self.size_z,
            mirror: self.mirror,
            rotation: self.rotation,
            metadata: self.metadata@,
            integrity: self.integrity,
            seed: self.seed,
            flags: self.flags,
        }
    }
}

impl PacketId for ServerboundSetStructureBlock {
    open spec fn spec_packet_id(ver: u32) -> u8 {
        0x1E
    }

    fn packet_id(_ver: u32) -> (r: u8) {
        0x1E
    }
}

impl WireFormat for ServerboundSetStructureBlock {
    open spec fn spec_encode(p: ServerboundSetStructureBlockView) -> Seq<u8> {
        be_u64_bytes(p.location) + VarInt::spec_encode(p.action) + VarInt::spec_encode(p.mode) + string_wire(p.name) + seq![p.offset_x as u8] + seq![p.offset_y as u8] + seq![p.offset_z as u8] + seq![p.size_x as u8] + seq![p.size_y as u8] + seq![p.size_z as u8] + VarInt::spec_encode(p.mirror) + VarInt::spec_encode(p.rotation) + string_wire(p.metadata) + be_u32_bytes(p.integrity) + VarInt::spec_encode(p.seed) + seq![p.flags]
    }

    open spec fn spec_decode(s: Seq<u8>) -> Parsed<ServerboundSetStructureBlockView> {
        then(need_spec(s, 8), |_u: (), s: Seq<u8>| then(take_u64(s), |location: u64, s: Seq<u8>| then(VarInt::spec_decode(s), |action: VarInt, s: Seq<u8>| then(VarInt::spec_decode(s), |mode: VarInt, s: Seq<u8>| then(str_spec(s, "ServerboundSetStructureBlock name"@), |name: Seq<char>, s: Seq<u8>| then(need_spec(s, 6), |_u: (), s: Seq<u8>| then(take_i8(s), |offset_x: i8, s: Seq<u8>| then(take_i8(s), |offset_y: i8, s: Seq<u8>| then(take_i8(s), |offset_z: i8, s: Seq<u8>| then(take_i8(s), |size_x: i8, s: Seq<u8>| then(take_i8(s), |size_y: i8, s: Seq<u8>| then(take_i8(s), |size_z: i8, s: Seq<u8>| then(VarInt::spec_decode(s), |mirror: VarInt, s: Seq<u8>| then(VarInt::spec_decode(s), |rotation: VarInt, s: Seq<u8>| then(str_spec(s, "ServerboundSetStructureBlock metadata"@), |metadata: Seq<char>, s: Seq<u8>| then(need_spec(s, 4), |_u: (), s: Seq<u8>| then(take_u32(s), |integrity: u32, s: Seq<u8>| then(VarInt::spec_decode(s), |seed: VarInt, s: Seq<u8>| then(need_spec(s, 1), |_u: (), s: Seq<u8>| then(take_u8(s), |flags: u8, s: Seq<u8>| (Ok(ServerboundSetStructureBlockView { location, action, mode, name, offset_x, offset_y, offset_z, size_x, size_y, size_z, mirror, rotation, metadata, integrity, seed, flags }), s)))))))))))))))))))))
    }
}

impl Roundtrip for ServerboundSetStructureBlock {
    open spec fn encodable(p: ServerboundSetStructureBlockView) -> bool {
        string_fits(p.name) && string_fits(p.metadata)
    }

    open spec fn reads_to_end() -> bool {
        false
    }

    #[verifier::rlimit(100)]
    #[verifier::spinoff_prover]
    proof fn lemma_roundtrip(p: ServerboundSetStructureBlockView, rest: Seq<u8>) {
        broadcast use group_wire_roundtrip;

        let t15 = seq![p.flags] + rest;
        let t14 = VarInt::spec_encode(p.seed) + t15;
        let t13 = be_u32_bytes(p.integrity) + t14;
        let t12 = string_wire(p.metadata) + t13;
        let t11 = VarInt::spec_encode(p.rotation) + t12;
        let t10 = VarInt::spec_encode(p.mirror) + t11;
        let t9 = seq![p.size_z as u8] + t10;
        let t8 = seq![p.size_y as u8] + t9;
        let t7 = seq![p.size_x as u8] + t8;
        let t6 = seq![p.offset_z as u8] + t7;
        let t5 = seq![p.offset_y as u8] + t6;
        let t4 = seq![p.offset_x as u8] + t5;
        let t3 = string_wire(p.name) + t4;
        let t2 = VarInt::spec_encode(p.mode) + t3;
        let t1 = VarInt::spec_encode(p.action) + t2;
        lemma_concat_associative(be_u64_bytes(p.location) + VarInt::spec_encode(p.action) + VarInt::spec_encode(p.mode) + string_wire(p.name) + seq![p.offset_x as u8] + seq![p.offset_y as u8] + seq![p.offset_z as u8] + seq![p.size_x as u8] + seq![p.size_y as u8] + seq![p.size_z as u8] + VarInt::spec_encode(p.mirror) + VarInt::spec_encode(p.rotation) + string_wire(p.metadata) + be_u32_bytes(p.integrity) + VarInt::spec_encode(p.seed), seq![p.flags], rest);
        lemma_concat_associative(be_u64_bytes(p.location) + VarInt::spec_encode(p.action) + VarInt::spec_encode(p.mode) + string_wire(p.name) + seq![p.offset_x as u8] + seq![p.offset_y as u8] + seq![p.offset_z as u8] + seq![p.size_x as u8] + seq![p.size_y as u8] + seq![p.size_z as u8] + VarInt::spec_encode(p.mirror) + VarInt::spec_encode(p.rotation) + string_wire(p.metadata) + be_u32_bytes(p.integrity), VarInt::spec_encode(p.seed), t15);
        lemma_concat_associative(be_u64_bytes(p.location) + VarInt::spec_encode(p.action) + VarInt::spec_encode(p.mode) + string_wire(p.name) + seq![p.offset_x as u8] + seq![p.offset_y as u8] + seq![p.offset_z as u8] + seq![p.size_x as u8] + seq![p.size_y as u8] + seq![p.size_z as u8] + VarInt::spec_encode(p.mirror) + VarInt::spec_encode(p.rotation) + string_wire(p.metadata), be_u32_bytes(p.integrity), t14);
        lemma_concat_associative(be_u64_bytes(p.location) + VarInt::spec_encode(p.action) + VarInt::spec_encode(p.mode) + string_wire(p.name) + seq![p.offset_x as u8] + seq![p.offset_y as u8] + seq![p.offset_z as u8] + seq![p.size_x as u8] + seq![p.size_y as u8] + seq![p.size_z as u8] + VarInt::spec_encode(p.mirror) + VarInt::spec_encode(p.rotation), string_wire(p.metadata), t13);
        lemma_concat_associative(be_u64_bytes(p.location) + VarInt::spec_encode(p.action) + VarInt::spec_encode(p.mode) + string_wire(p.name) + seq![p.offset_x as u8] + seq![p.offset_y as u8] + seq![p.offset_z as u8] + seq![p.size_x as u8] + seq![p.size_y as u8] + seq![p.size_z as u8] + VarInt::spec_encode(p.mirror), VarInt::spec_encode(p.rotation), t12);
        lemma_concat_associative(be_u64_bytes(p.location) + VarInt::spec_encode(p.action) + VarInt::spec_encode(p.mode) + string_wire(p.name) + seq![p.offset_x as u8] + seq![p.offset_y as u8] + seq![p.offset_z as u8] + seq![p.size_x as u8] + seq![p.size_y as u8] + seq![p.size_z as u8], VarInt::spec_encode(p.mirror), t11);
        lemma_concat_associative(be_u64_bytes(p.location) + VarInt::spec_encode(p.action) + VarInt::spec_encode(p.mode) + string_wire(p.name) + seq![p.offset_x as u8] + seq![p.offset_y as u8] + seq![p.offset_z as u8] + seq![p.size_x as u8] + seq![p.size_y as u8], seq![p.size_z as u8], t10);
        lemma_concat_associative(be_u64_bytes(p.location) + VarInt::spec_encode(p.action) + VarInt::spec_encode(p.mode) + string_wire(p.name) + seq![p.offset_x as u8] + seq![p.offset_y as u8] + seq![p.offset_z as u8] + seq![p.size_x as u8], seq![p.size_y as u8], t9);
        lemma_concat_associative(be_u64_bytes(p.location) + VarInt::spec_encode(p.action) + VarInt::spec_encode(p.mode) + string_wire(p.name) + seq![p.offset_x as u8] + seq![p.offset_y as u8] + seq![p.offset_z as u8], seq![p.size_x as u8], t8);
        lemma_concat_associative(be_u64_bytes(p.location) + VarInt::spec_encode(p.action) + VarInt::spec_encode(p.mode) + string_wire(p.name) + seq![p.offset_x as u8] + seq![p.offset_y as u8], seq![p.offset_z as u8], t7);
        lemma_concat_associative(be_u64_bytes(p.location) + VarInt::spec_encode(p.action) + VarInt::spec_encode(p.mode) + string_wire(p.name) + seq![p.offset_x as u8], seq![p.offset_y as u8], t6);
        lemma_concat_associative(be_u64_bytes(p.location) + VarInt::spec_encode(p.action) + VarInt::spec_encode(p.mode) + string_wire(p.name), seq![p.offset_x as u8], t5);
        lemma_concat_associative(be_u64_bytes(p.location) + VarInt::spec_encode(p.action) + VarInt::spec_encode(p.mode), string_wire(p.name), t4);
        lemma_concat_associative(be_u64_bytes(p.location) + VarInt::spec_encode(p.action), VarInt::spec_encode(p.mode), t3);
        lemma_concat_associative(be_u64_bytes(p.location), VarInt::spec_encode(p.action), t2);
        VarInt::lemma_roundtrip(p.action, t2);
        VarInt::lemma_roundtrip(p.mode, t3);
        lemma_string_roundtrip(p.name, t4, missing_for("ServerboundSetStructureBlock name"@), invalid_in("ServerboundSetStructureBlock name"@));
        VarInt::lemma_roundtrip(p.mirror, t11);
        VarInt::lemma_roundtrip(p.rotation, t12);
        lemma_string_roundtrip(p.metadata, t13, missing_for("ServerboundSetStructureBlock metadata"@), invalid_in("ServerboundSetStructureBlock metadata"@));
        VarInt::lemma_roundtrip(p.seed, t15);
    }
}

impl ServerboundSetStructureBlock {
    /// Writes the fields up to `size_x`.
    fn encode_front(&self, dst: &mut BytesMut)
        ensures
            bytes_mut_data(*final(dst)) == bytes_mut_data(*old(dst)) + (be_u64_bytes(self@.location) + VarInt::spec_encode(self@.action) + VarInt::spec_encode(self@.mode) + string_wire(self@.name) + seq![self@.offset_x as u8] + seq![self@.offset_y as u8] + seq![self@.offset_z as u8] + seq![self@.size_x as u8]),
    {
        let ghost d0 = bytes_mut_data(*dst);
        put_u64(dst, self.location);
        let ghost mut e: Seq<u8> = be_u64_bytes(self@.location);
        let _ = self.action.encode(dst);
        proof {
            lemma_concat_associative(d0, e, VarInt::spec_encode(self@.action));
            e = e + VarInt::spec_encode(self@.action);
        }
        let _ = self.mode.encode(dst);
        proof {
            lemma_concat_associative(d0, e, VarInt::spec_encode(self@.mode));
            e = e + VarInt::spec_encode(self@.mode);
        }
        encode_str(self.name.as_str(), dst);
        proof {
            lemma_concat_associative(d0, e, string_wire(self@.name));
            e = e + string_wire(self@.name);
        }
        put_i8(dst, self.offset_x);
        proof {
            lemma_concat_associative(d0, e, seq![self@.offset_x as u8]);
            e = e + seq![self@.offset_x as u8];
        }
        put_i8(dst, self.offset_y);
        proof {
            lemma_concat_associative(d0, e, seq![self@.offset_y as u8]);
            e = e + seq![self@.offset_y as u8];
        }
        put_i8(dst, self.offset_z);
        proof {
            lemma_concat_associative(d0, e, seq![self@.offset_z as u8]);
            e = e + seq![self@.offset_z as u8];
        }
        put_i8(dst, self.size_x);
        proof {
            lemma_concat_associative(d0, e, seq![self@.size_x as u8]);
            e = e + seq![self@.size_x as u8];
        }
    }
}

impl Encode for ServerboundSetStructureBlock {
    #[verifier::rlimit(100)]
    #[verifier::spinoff_prover]
    fn encode(&self, dst: &mut BytesMut) -> (r: Result<(), ProtocolError>) {
        let ghost d0 = bytes_mut_data(*dst);
        self.encode_front(dst);
        let ghost mut e: Seq<u8> = be_u64_bytes(self@.location) + VarInt::spec_encode(self@.action) + VarInt::spec_encode(self@.mode) + string_wire(self@.name) + seq![self@.offset_x as u8] + seq![self@.offset_y as u8] + seq![self@.offset_z as u8] + seq![self@.size_x as u8];
        put_i8(dst, self.size_y);
        proof {
            lemma_concat_associative(d0, e, seq![self@.size_y as u8]);
            e = e + seq![self@.size_y as u8];
        }
        put_i8(dst, self.size_z);
        proof {
            lemma_concat_associative(d0, e, seq![self@.size_z as u8]);
            e = e + seq![self@.size_z as u8];
        }
        let _ = self.mirror.encode(dst);
        proof {
            lemma_concat_associative(d0, e, VarInt::spec_encode(self@.mirror));
            e = e + VarInt::spec_encode(self@.mirror);
        }
        let _ = self.rotation.encode(dst);
        proof {
            lemma_concat_associative(d0, e, VarInt::spec_encode(self@.rotation));
            e = e + VarInt::spec_encode(self@.rotation);
        }
        encode_str(self.metadata.as_str(), dst);
        proof {
            lemma_concat_associative(d0, e, string_wire(self@.metadata));
            e = e + string_wire(self@.metadata);
        }
        put_u32(dst, self.integrity);
        proof {
            lemma_concat_associative(d0, e, be_u32_bytes(self@.integrity));
            e = e + be_u32_bytes(self@.integrity);
        }
        let _ = self.seed.encode(dst);
        proof {
            lemma_concat_associative(d0, e, VarInt::spec_encode(self@.seed));
            e = e + VarInt::spec_encode(self@.seed);
        }
        put_u8(dst, self.flags);
        proof {
            lemma_concat_associative(d0, e, seq![self@.flags]);
            e = e + seq![self@.flags];
        }
        Ok(())
    }
}

impl Decode for ServerboundSetStructureBlock {
    #[verifier::rlimit(100)]
    #[verifier::spinoff_prover]
    fn decode(src: &mut Bytes) -> (r: Result<Self, ProtocolError>) {
        need(src, 8)?;
        let location = get_u64(src);
        let action = VarInt::decode(src)?;
        let mode = VarInt::decode(src)?;
        let name = decode_str(src, "ServerboundSetStructureBlock name")?;
        need(src, 6)?;
        let offset_x = get_i8(src);
        let offset_y = get_i8(src);
        let offset_z = get_i8(src);
        let size_x = get_i8(src);
        let size_y = get_i8(src);
        let size_z = get_i8(src);
        let mirror = VarInt::decode(src)?;
        let rotation = VarInt::decode(src)?;
        let metadata = decode_str(src, "ServerboundSetStructureBlock metadata")?;
        need(src, 4)?;
        let integrity = get_u32(src);
        let seed = VarInt::decode(src)?;
        need(src, 1)?;
        let flags = get_u8(src);
        Ok(Self { location, action, mode, name, offset_x, offset_y, offset_z, size_x, size_y, size_z, mirror, rotation, metadata, integrity, seed, flags })
    }
}

// ── ServerboundSelectTrade ────────────────────────────────────────────

#[derive(Debug, Clone, PartialEq)]
pub struct ServerboundSelectTrade {
    pub selected_slot: VarInt,
}

impl View for ServerboundSelectTrade {
    type V = ServerboundSelectTrade;

    open spec fn view(&self) -> ServerboundSelectTrade {
        *self
    }
}

impl PacketId for ServerboundSelectTrade {
    open spec fn spec_packet_id(ver: u32) -> u8 {
        0x1F
    }

    fn packet_id(_ver: u32) -> (r: u8) {
        0x1F
    }
}

impl WireFormat for ServerboundSelectTrade {
    open spec fn spec_encode(p: ServerboundSelectTrade) -> Seq<u8> {
        VarInt::spec_encode(p.selected_slot)
    }

    open spec fn spec_decode(s: Seq<u8>) -> Parsed<ServerboundSelectTrade> {
        then(VarInt::spec_decode(s), |selected_slot: VarInt, s: Seq<u8>| (Ok(ServerboundSelectTrade { selected_slot }), s))
    }
}

impl Roundtrip for ServerboundSelectTrade {
    open spec fn encodable(p: ServerboundSelectTrade) -> bool {
        true
    }

    open spec fn reads_to_end() -> bool {
        false
    }

    proof fn lemma_roundtrip(p: ServerboundSelectTrade, rest: Seq<u8>) {
        broadcast use group_wire_roundtrip;

        VarInt::lemma_roundtrip(p.selected_slot, rest);
    }
}

impl Encode for ServerboundSelectTrade {
    fn encode(&self, dst: &mut BytesMut) -> (r: Result<(), ProtocolError>) {
        let ghost d0 = bytes_mut_data(*dst);
        let _ = self.selected_slot.encode(dst);
        let ghost mut e: Seq<u8> = VarInt::spec_encode(self@.selected_slot);
        Ok(())
    }
}

impl Decode for ServerboundSelectTrade {
    fn decode(src: &mut Bytes) -> (r: Result<Self, ProtocolError>) {
        let selected_slot = VarInt::decode(src)?;
        Ok(Self { selected_slot })
    }
}

// ── ServerboundUpdateCommandBlock ─────────────────────────────────────

#[derive(Debug, Clone, PartialEq)]
pub struct ServerboundUpdateCommandBlock {
    pub location: u64,
    pub command: String,
    pub mode: VarInt,
    pub flags: u8,
}

pub struct ServerboundUpdateCommandBlockView {
    pub location: u64,
    pub command: Seq<char>,
    pub mode: VarInt,
    pub flags: u8,
}

impl View for ServerboundUpdateCommandBlock {
    type V = ServerboundUpdateCommandBlockView;

    open spec fn view(&self) -> ServerboundUpdateCommandBlockView {
        ServerboundUpdateCommandBlockView {
            location: self.location,
            command: self.command@,
            mode: self.mode,
            flags: self.flags,
        }
    }
}

impl PacketId for ServerboundUpdateCommandBlock {
    open spec fn spec_packet_id(ver: u32) -> u8 {
        0x21
    }

    fn packet_id(_ver: u32) -> (r: u8) {
        0x21
    }
}

impl WireFormat for ServerboundUpdateCommandBlock {
    open spec fn spec_encode(p: ServerboundUpdateCommandBlockView) -> Seq<u8> {
        be_u64_bytes(p.location) + string_wire(p.command) + VarInt::spec_encode(p.mode) + seq![p.flags]
    }

    open spec fn spec_decode(s: Seq<u8>) -> Parsed<ServerboundUpdateCommandBlockView> {
        then(need_spec(s, 8), |_u: (), s: Seq<u8>| then(take_u64(s), |location: u64, s: Seq<u8>| then(str_spec(s, "ServerboundUpdateCommandBlock command"@), |command: Seq<char>, s: Seq<u8>| then(VarInt::spec_decode(s), |mode: VarInt, s: Seq<u8>| then(need_spec(s, 1), |_u: (), s: Seq<u8>| then(take_u8(s), |flags: u8, s: Seq<u8>| (Ok(ServerboundUpdateCommandBlockView { location, command, mode, flags }), s)))))))
    }
}

impl Roundtrip for ServerboundUpdateCommandBlock {
    open spec fn encodable(p: ServerboundUpdateCommandBlockView) -> bool {
        string_fits(p.command)
    }

    open spec fn reads_to_end() -> bool {
        false
    }

    proof fn lemma_roundtrip(p: ServerboundUpdateCommandBlockView, rest: Seq<u8>) {
        broadcast use group_wire_roundtrip;

        let t3 = seq![p.flags] + rest;
        let t2 = VarInt::spec_encode(p.mode) + t3;
        let t1 = string_wire(p.command) + t2;
        lemma_concat_associative(be_u64_bytes(p.location) + string_wire(p.command) + VarInt::spec_encode(p.mode), seq![p.flags], rest);
        lemma_concat_associative(be_u64_bytes(p.location) + string_wire(p.command), VarInt::spec_encode(p.mode), t3);
        lemma_concat_associative(be_u64_bytes(p.location), string_wire(p.command), t2);
        lemma_string_roundtrip(p.command, t2, missing_for("ServerboundUpdateCommandBlock command"@), invalid_in("ServerboundUpdateCommandBlock command"@));
        VarInt::lemma_roundtrip(p.mode, t3);
    }
}

impl Encode for ServerboundUpdateCommandBlock {
    fn encode(&self, dst: &mut BytesMut) -> (r: Result<(), ProtocolError>) {
        let ghost d0 = bytes_mut_data(*dst);
        put_u64(dst, self.location);
        let ghost mut e: Seq<u8> = be_u64_bytes(self@.location);
        encode_str(self.command.as_str(), dst);
        proof {
            lemma_concat_associative(d0, e, string_wire(self@.command));
            e = e + string_wire(self@.command);
        }
        let _ = self.mode.encode(dst);
        proof {
            lemma_concat_associative(d0, e, VarInt::spec_encode(self@.mode));
            e = e + VarInt::spec_encode(self@.mode);
        }
        put_u8(dst, self.flags);
        proof {
            lemma_concat_associative(d0, e, seq![self@.flags]);
            e = e + seq![self@.flags];
        }
        Ok(())
    }
}

impl Decode for ServerboundUpdateCommandBlock {
    fn decode(src: &mut Bytes) -> (r: Result<Self, ProtocolError>) {
        need(src, 8)?;
        let location = get_u64(src);
        let command = decode_str(src, "ServerboundUpdateCommandBlock command")?;
        let mode = VarInt::decode(src)?;
        need(src, 1)?;
        let flags = get_u8(src);
        Ok(Self { location, command, mode, flags })
    }
}

// ── ServerboundUpdateCommandBlockMinecart ─────────────────────────────

#[derive(Debug, Clone, PartialEq)]
pub struct ServerboundUpdateCommandBlockMinecart {
    pub entity_id: VarInt,
    pub command: String,
    pub track_output: bool,
}

pub struct ServerboundUpdateCommandBlockMinecartView {
    pub entity_id: VarInt,
    pub command: Seq<char>,
    pub track_output: bool,
}

impl View for ServerboundUpdateCommandBlockMinecart {
    type V = ServerboundUpdateCommandBlockMinecartView;

    open spec fn view(&self) -> ServerboundUpdateCommandBlockMinecartView {
        ServerboundUpdateCommandBlockMinecartView {
            entity_id: self.entity_id,
            command: self.command@,
            track_output: self.track_output,
        }
    }
}

impl PacketId for ServerboundUpdateCommandBlockMinecart {
    open spec fn spec_packet_id(ver: u32) -> u8 {
        0x22
    }

    fn packet_id(_ver: u32) -> (r: u8) {
        0x22
    }
}

impl WireFormat for ServerboundUpdateCommandBlockMinecart {
    open spec fn spec_encode(p: ServerboundUpdateCommandBlockMinecartView) -> Seq<u8> {
        VarInt::spec_encode(p.entity_id) + string_wire(p.command) + seq![bool_byte(p.track_output)]
    }

    open spec fn spec_decode(s: Seq<u8>) -> Parsed<ServerboundUpdateCommandBlockMinecartView> {
        then(VarInt::spec_decode(s), |entity_id: VarInt, s: Seq<u8>| then(str_spec(s, "ServerboundUpdateCommandBlockMinecart command"@), |command: Seq<char>, s: Seq<u8>| then(need_spec(s, 1), |_u: (), s: Seq<u8>| then(take_bool(s), |track_output: bool, s: Seq<u8>| (Ok(ServerboundUpdateCommandBlockMinecartView { entity_id, command, track_output }), s)))))
    }
}

impl Roundtrip for ServerboundUpdateCommandBlockMinecart {
    open spec fn encodable(p: ServerboundUpdateCommandBlockMinecartView) -> bool {
        string_fits(p.command)
    }

    open spec fn reads_to_end() -> bool {
        false
    }

    proof fn lemma_roundtrip(p: ServerboundUpdateCommandBlockMinecartView, rest: Seq<u8>) {
        broadcast use group_wire_roundtrip;

        let t2 = seq![bool_byte(p.track_output)] + rest;
        let t1 = string_wire(p.command) + t2;
        lemma_concat_associative(VarInt::spec_encode(p.entity_id) + string_wire(p.command), seq![bool_byte(p.track_output)], rest);
        lemma_concat_associative(VarInt::spec_encode(p.entity_id), string_wire(p.command), t2);
        VarInt::lemma_roundtrip(p.entity_id, t1);
        lemma_string_roundtrip(p.command, t2, missing_for("ServerboundUpdateCommandBlockMinecart command"@), invalid_in("ServerboundUpdateCommandBlockMinecart command"@));
    }
}

impl Encode for ServerboundUpdateCommandBlockMinecart {
    fn encode(&self, dst: &mut BytesMut) -> (r: Result<(), ProtocolError>) {
        let ghost d0 = bytes_mut_data(*dst);
        let _ = self.entity_id.encode(dst);
        let ghost mut e: Seq<u8> = VarInt::spec_encode(self@.entity_id);
        encode_str(self.command.as_str(), dst);
        proof {
            lemma_concat_associative(d0, e, string_wire(self@.command));
            e = e + string_wire(self@.command);
        }
        put_u8(dst, self.track_output as u8);
        proof {
            lemma_concat_associative(d0, e, seq![bool_byte(self@.track_output)]);
            e = e + seq![bool_byte(self@.track_output)];
        }
        Ok(())
    }
}

impl Decode for ServerboundUpdateCommandBlockMinecart {
    fn decode(src: &mut Bytes) -> (r: Result<Self, ProtocolError>) {
        let entity_id = VarInt::decode(src)?;
        let command = decode_str(src, "ServerboundUpdateCommandBlockMinecart command")?;
        need(src, 1)?;
        let track_output = get_u8(src) != 0;
        Ok(Self { entity_id, command, track_output })
    }
}

// ── ClientboundBossBar ───────────────────────────────────────────────

/// What a boss bar packet does to the bar.
#[derive(Debug, Clone, PartialEq)]
pub enum BossBarAction {
    Add {
        title: String,
        /// The bits of the `f32` value (`f32::to_bits`).
        health: u32,
        color: VarInt,
        division: VarInt,
        flags: u8,
    },
    Remove,
    UpdateHealth {
        /// The bits of the `f32` value (`f32::to_bits`).
        health: u32,
    },
    UpdateTitle { title: String },
    UpdateStyle { color: VarInt, division: VarInt },
    UpdateFlags { flags: u8 },
}

pub enum BossBarActionView {
    Add { title: Seq<char>, health: u32, color: VarInt, division: VarInt, flags: u8 },
    Remove,
    UpdateHealth { health: u32 },
    UpdateTitle { title: Seq<char> },
    UpdateStyle { color: VarInt, division: VarInt },
    UpdateFlags { flags: u8 },
}

impl View for BossBarAction {
    type V = BossBarActionView;

    open spec fn view(&self) -> BossBarActionView {
        match self {
            BossBarAction::Add { title, health, color, division, flags } => BossBarActionView::Add {
                title: title@,
                health: *health,
                color: *color,
                division: *division,
                flags: *flags,
            },
            BossBarAction::Remove => BossBarActionView::Remove,
            BossBarAction::UpdateHealth { health } => BossBarActionView::UpdateHealth { health: *health },
            BossBarAction::UpdateTitle { title } => BossBarActionView::UpdateTitle { title: title@ },
            BossBarAction::UpdateStyle { color, division } => BossBarActionView::UpdateStyle {
                color: *color,
                division: *division,
            },
            BossBarAction::UpdateFlags { flags } => BossBarActionView::UpdateFlags { flags: *flags },
        }
    }
}

#[derive(Debug, Clone, PartialEq)]
pub struct ClientboundBossBar {
    /// The UUID as its 128-bit value (`uuid::Uuid::as_u128`).
    pub uuid: u128,
    pub action: BossBarAction,
}

pub struct ClientboundBossBarView {
    pub uuid: u128,
    pub action: BossBarActionView,
}

impl View for ClientboundBossBar {
    type V = ClientboundBossBarView;

    open spec fn view(&self) -> ClientboundBossBarView {
        ClientboundBossBarView { uuid: self.uuid, action: self.action@ }
    }
}

impl PacketId for ClientboundBossBar {
    open spec fn spec_packet_id(ver: u32) -> u8 {
        0x0C
    }

    fn packet_id(_ver: u32) -> (r: u8) {
        0x0C
    }
}
/// The VarInt id that names an action on the wire.
pub open spec fn boss_bar_action_id(a: BossBarActionView) -> i32 {
    match a {
        BossBarActionView::Add { .. } => 0,
        BossBarActionView::Remove => 1,
        BossBarActionView::UpdateHealth { .. } => 2,
        BossBarActionView::UpdateTitle { .. } => 3,
        BossBarActionView::UpdateStyle { .. } => 4,
        BossBarActionView::UpdateFlags { .. } => 5,
    }
}

/// The bytes of an action's fields, after its id.
pub open spec fn boss_bar_action_fields(a: BossBarActionView) -> Seq<u8> {
    match a {
        BossBarActionView::Add { title, health, color, division, flags } => string_wire(title)
            + be_u32_bytes(health) + VarInt::spec_encode(color) + VarInt::spec_encode(division) + seq![flags],
        BossBarActionView::Remove => Seq::<u8>::empty(),
        BossBarActionView::UpdateHealth { health } => be_u32_bytes(health),
        BossBarActionView::UpdateTitle { title } => string_wire(title),
        BossBarActionView::UpdateStyle { color, division } => VarInt::spec_encode(color) + VarInt::spec_encode(
            division,
        ),
        BossBarActionView::UpdateFlags { flags } => seq![flags],
    }
}

/// Reading the fields of the action with id `id`; an id other than 0 to
/// 5 is `InvalidData`.
pub open spec fn boss_bar_action_spec(id: i32, s: Seq<u8>) -> Parsed<BossBarActionView> {
    if id == 0 {
        then(
            str_spec(s, "BossBar Add title"@),
            |title: Seq<char>, s: Seq<u8>|
                then(
                    need_spec(s, 4),
                    |_u: (), s: Seq<u8>|
                        then(
                            take_u32(s),
                            |health: u32, s: Seq<u8>|
                                then(
                                    VarInt::spec_decode(s),
                                    |color: VarInt, s: Seq<u8>|
                                        then(
                                            VarInt::spec_decode(s),
                                            |division: VarInt, s: Seq<u8>|
                                                then(
                                                    need_spec(s, 1),
                                                    |_u: (), s: Seq<u8>|
                                                        then(
                                                            take_u8(s),
                                                            |flags: u8, s: Seq<u8>|
                                                                (
                                                                    Ok(
                                                                        BossBarActionView::Add {
                                                                            title,
                                                                            health,
                                                                            color,
                                                                            division,
                                                                            flags,
                                                                        },
                                                                    ),
                                                                    s,
                                                                ),
                                                        ),
                                                ),
                                        ),
                                ),
                        ),
                ),
        )
    } else if id == 1 {
        (Ok(BossBarActionView::Remove), s)
    } else if id == 2 {
        then(
            need_spec(s, 4),
            |_u: (), s: Seq<u8>|
                then(take_u32(s), |health: u32, s: Seq<u8>| (Ok(BossBarActionView::UpdateHealth { health }), s)),
        )
    } else if id == 3 {
        then(
            str_spec(s, "BossBar UpdateTitle"@),
            |title: Seq<char>, s: Seq<u8>| (Ok(BossBarActionView::UpdateTitle { title }), s),
        )
    } else if id == 4 {
        then(
            VarInt::spec_decode(s),
            |color: VarInt, s: Seq<u8>|
                then(
                    VarInt::spec_decode(s),
                    |division: VarInt, s: Seq<u8>| (Ok(BossBarActionView::UpdateStyle { color, division }), s),
                ),
        )
    } else if id == 5 {
        then(
            need_spec(s, 1),
            |_u: (), s: Seq<u8>|
                then(take_u8(s), |flags: u8, s: Seq<u8>| (Ok(BossBarActionView::UpdateFlags { flags }), s)),
        )
    } else {
        (Err(ErrorView::Io(IoErrorKind::InvalidData, "Unknown BossBar action id"@)), s)
    }
}

/// The titles fit their length prefix.
pub open spec fn boss_bar_action_fits(a: BossBarActionView) -> bool {
    match a {
        BossBarActionView::Add { title, .. } => string_fits(title),
        BossBarActionView::UpdateTitle { title } => string_fits(title),
        _ => true,
    }
}

fn decode_boss_bar_action(id: i32, src: &mut Bytes) -> (r: Result<BossBarAction, ProtocolError>)
    requires
        !panics(boss_bar_action_spec(id, bytes_data(*old(src)))),
    ensures
        boss_bar_action_spec(id, bytes_data(*old(src))) == (result_view(r), bytes_data(*final(src))),
{
    if id == 0 {
        let title = decode_str(src, "BossBar Add title")?;
        need(src, 4)?;
        let health = get_u32(src);
        let color = VarInt::decode(src)?;
        let division = VarInt::decode(src)?;
        need(src, 1)?;
        let flags = get_u8(src);
        Ok(BossBarAction::Add { title, health, color, division, flags })
    } else if id == 1 {
        Ok(BossBarAction::Remove)
    } else if id == 2 {
        need(src, 4)?;
        Ok(BossBarAction::UpdateHealth { health: get_u32(src) })
    } else if id == 3 {
        let title = decode_str(src, "BossBar UpdateTitle")?;
        Ok(BossBarAction::UpdateTitle { title })
    } else if id == 4 {
        let color = VarInt::decode(src)?;
        let division = VarInt::decode(src)?;
        Ok(BossBarAction::UpdateStyle { color, division })
    } else if id == 5 {
        need(src, 1)?;
        Ok(BossBarAction::UpdateFlags { flags: get_u8(src) })
    } else {
        Err(io_error(IoErrorKind::InvalidData, "Unknown BossBar action id"))
    }
}

fn encode_boss_bar_action(a: &BossBarAction, dst: &mut BytesMut)
    ensures
        bytes_mut_data(*final(dst)) == bytes_mut_data(*old(dst)) + boss_bar_action_fields(a@),
{
    let ghost d0 = bytes_mut_data(*dst);
    match a {
        BossBarAction::Add { title, health, color, division, flags } => {
            let ghost e0 = string_wire(title@);
            let ghost e1 = be_u32_bytes(*health);
            let ghost e2 = VarInt::spec_encode(*color);
            let ghost e3 = VarInt::spec_encode(*division);
            let ghost e4 = seq![*flags];
            encode_str(title.as_str(), dst);
            put_u32(dst, *health);
            let _ = color.encode(dst);
            let _ = division.encode(dst);
            put_u8(dst, *flags);
            proof {
                lemma_concat_associative(d0, e0, e1);
                lemma_concat_associative(d0, e0 + e1, e2);
                lemma_concat_associative(d0, e0 + e1 + e2, e3);
                lemma_concat_associative(d0, e0 + e1 + e2 + e3, e4);
            }
        },
        BossBarAction::Remove => {
            assert(bytes_mut_data(*dst) =~= d0 + Seq::<u8>::empty());
        },
        BossBarAction::UpdateHealth { health } => {
            put_u32(dst, *health);
        },
        BossBarAction::UpdateTitle { title } => {
            encode_str(title.as_str(), dst);
        },
        BossBarAction::UpdateStyle { color, division } => {
            let _ = color.encode(dst);
            let _ = division.encode(dst);
            proof {
                lemma_concat_associative(d0, VarInt::spec_encode(*color), VarInt::spec_encode(*division));
            }
        },
        BossBarAction::UpdateFlags { flags } => {
            put_u8(dst, *flags);
        },
    }
}

/// Reading the fields of an action, under its own id, gives it back.
pub proof fn lemma_boss_bar_action_roundtrip(a: BossBarActionView, rest: Seq<u8>)
    requires
        boss_bar_action_fits(a),
    ensures
        boss_bar_action_spec(boss_bar_action_id(a), boss_bar_action_fields(a) + rest) == (Ok::<
            BossBarActionView,
            ErrorView,
        >(a), rest),
{
    broadcast use group_wire_roundtrip;

    match a {
        BossBarActionView::Add { title, health, color, division, flags } => {
            let e0 = string_wire(title);
            let e1 = be_u32_bytes(health);
            let e2 = VarInt::spec_encode(color);
            let e3 = VarInt::spec_encode(division);
            let e4 = seq![flags];
            let t4 = e4 + rest;
            let t3 = e3 + t4;
            let t2 = e2 + t3;
            let t1 = e1 + t2;
            lemma_concat_associative(e0 + e1 + e2 + e3, e4, rest);
            lemma_concat_associative(e0 + e1 + e2, e3, t4);
            lemma_concat_associative(e0 + e1, e2, t3);
            lemma_concat_associative(e0, e1, t2);
            lemma_string_roundtrip(title, t1, missing_for("BossBar Add title"@), invalid_in("BossBar Add title"@));
            VarInt::lemma_roundtrip(color, t3);
            VarInt::lemma_roundtrip(division, t4);
        },
        BossBarActionView::Remove => {
            assert(Seq::<u8>::empty() + rest =~= rest);
        },
        BossBarActionView::UpdateHealth { health } => {},
        BossBarActionView::UpdateTitle { title } => {
            lemma_string_roundtrip(
                title,
                rest,
                missing_for("BossBar UpdateTitle"@),
                invalid_in("BossBar UpdateTitle"@),
            );
        },
        BossBarActionView::UpdateStyle { color, division } => {
            let t = VarInt::spec_encode(division) + rest;
            lemma_concat_associative(VarInt::spec_encode(color), VarInt::spec_encode(division), rest);
            VarInt::lemma_roundtrip(color, t);
            VarInt::lemma_roundtrip(division, rest);
        },
        BossBarActionView::UpdateFlags { flags } => {},
    }
}

impl WireFormat for ClientboundBossBar {
    open spec fn spec_encode(p: ClientboundBossBarView) -> Seq<u8> {
        uuid_wire(p.uuid) + VarInt::spec_encode(VarInt(boss_bar_action_id(p.action))) + boss_bar_action_fields(
            p.action,
        )
    }

    open spec fn spec_decode(s: Seq<u8>) -> Parsed<ClientboundBossBarView> {
        then(
            need_spec(s, 16),
            |_u: (), s: Seq<u8>|
                then(
                    take_uuid(s),
                    |uuid: u128, s: Seq<u8>|
                        then(
                            take_varint_i32(s),
                            |id: i32, s: Seq<u8>|
                                then(
                                    boss_bar_action_spec(id, s),
                                    |action: BossBarActionView, s: Seq<u8>|
                                        (Ok(ClientboundBossBarView { uuid, action }), s),
                                ),
                        ),
                ),
        )
    }
}

impl Roundtrip for ClientboundBossBar {
    open spec fn encodable(p: ClientboundBossBarView) -> bool {
        boss_bar_action_fits(p.action)
    }

    open spec fn reads_to_end() -> bool {
        false
    }

    proof fn lemma_roundtrip(p: ClientboundBossBarView, rest: Seq<u8>) {
        let e0 = uuid_wire(p.uuid);
        let e1 = VarInt::spec_encode(VarInt(boss_bar_action_id(p.action)));
        let e2 = boss_bar_action_fields(p.action);
        let t2 = e2 + rest;
        let t1 = e1 + t2;
        lemma_concat_associative(e0 + e1, e2, rest);
        lemma_concat_associative(e0, e1, t2);
        lemma_take_uuid(p.uuid, t1);
        VarInt::lemma_roundtrip(VarInt(boss_bar_action_id(p.action)), t2);
        lemma_boss_bar_action_roundtrip(p.action, rest);
    }
}

impl Encode for ClientboundBossBar {
    fn encode(&self, dst: &mut BytesMut) -> (r: Result<(), ProtocolError>) {
        let ghost d0 = bytes_mut_data(*dst);
        put_uuid(dst, self.uuid);
        let action_id: i32 = match &self.action {
            BossBarAction::Add { .. } => 0,
            BossBarAction::Remove => 1,
            BossBarAction::UpdateHealth { .. } => 2,
            BossBarAction::UpdateTitle { .. } => 3,
            BossBarAction::UpdateStyle { .. } => 4,
            BossBarAction::UpdateFlags { .. } => 5,
        };
        let ghost e0 = uuid_wire(self.uuid);
        let ghost e1 = VarInt::spec_encode(VarInt(action_id));
        let _ = VarInt(action_id).encode(dst);
        encode_boss_bar_action(&self.action, dst);
        proof {
            lemma_concat_associative(d0, e0, e1);
            lemma_concat_associative(d0, e0 + e1, boss_bar_action_fields(self.action@));
        }
        Ok(())
    }
}

impl Decode for ClientboundBossBar {
    fn decode(src: &mut Bytes) -> (r: Result<Self, ProtocolError>) {
        need(src, 16)?;
        let uuid = get_uuid(src);
        let id = VarInt::decode(src)?.0;
        let action = decode_boss_bar_action(id, src)?;
        Ok(Self { uuid, action })
    }
}


// ── ServerboundInteract ──────────────────────────────────────────────

/// What the player does to the entity.
#[derive(Debug, Clone, PartialEq)]
pub enum InteractAction {
    Interact { hand: VarInt },
    Attack,
    InteractAt {
        /// The bits of the `f32` value (`f32::to_bits`).
        target_x: u32,
        /// The bits of the `f32` value (`f32::to_bits`).
        target_y: u32,
        /// The bits of the `f32` value (`f32::to_bits`).
        target_z: u32,
        hand: VarInt,
    },
}

impl View for InteractAction {
    type V = InteractAction;

    open spec fn view(&self) -> InteractAction {
        *self
    }
}

#[derive(Debug, Clone, PartialEq)]
pub struct ServerboundInteract {
    pub entity_id: VarInt,
    pub action: InteractAction,
}

impl View for ServerboundInteract {
    type V = ServerboundInteract;

    open spec fn view(&self) -> ServerboundInteract {
        *self
    }
}

impl PacketId for ServerboundInteract {
    open spec fn spec_packet_id(ver: u32) -> u8 {
        0x0A
    }

    fn packet_id(_ver: u32) -> (r: u8) {
        0x0A
    }
}

/// The bytes of an action: its VarInt tag, then its fields.
pub open spec fn interact_action_wire(a: InteractAction) -> Seq<u8> {
    match a {
        InteractAction::Interact { hand } => VarInt::spec_encode(VarInt(0)) + VarInt::spec_encode(hand),
        InteractAction::Attack => VarInt::spec_encode(VarInt(1)),
        InteractAction::InteractAt { target_x, target_y, target_z, hand } => VarInt::spec_encode(VarInt(2))
            + be_u32_bytes(target_x) + be_u32_bytes(target_y) + be_u32_bytes(target_z)
            + VarInt::spec_encode(hand),
    }
}

/// Reading an action: tag 0, 1 or 2, else `InvalidData`.
pub open spec fn interact_action_spec(s: Seq<u8>) -> Parsed<InteractAction> {
    then(
        take_varint_i32(s),
        |tag: i32, s: Seq<u8>|
            if tag == 0 {
                then(VarInt::spec_decode(s), |hand: VarInt, s: Seq<u8>| (Ok(InteractAction::Interact { hand }), s))
            } else if tag == 1 {
                (Ok(InteractAction::Attack), s)
            } else if tag == 2 {
                then(
                    need_spec(s, 12),
                    |_u: (), s: Seq<u8>|
                        then(
                            take_u32(s),
                            |target_x: u32, s: Seq<u8>|
                                then(
                                    take_u32(s),
                                    |target_y: u32, s: Seq<u8>|
                                        then(
                                            take_u32(s),
                                            |target_z: u32, s: Seq<u8>|
                                                then(
                                                    VarInt::spec_decode(s),
                                                    |hand: VarInt, s: Seq<u8>|
                                                        (
                                                            Ok(
                                                                InteractAction::InteractAt {
                                                                    target_x,
                                                                    target_y,
                                                                    target_z,
                                                                    hand,
                                                                },
                                                            ),
                                                            s,
                                                        ),
                                                ),
                                        ),
                                ),
                        ),
                )
            } else {
                (Err(ErrorView::Io(IoErrorKind::InvalidData, "Unknown ServerboundInteract action type"@)), s)
            },
    )
}

fn decode_interact_action(src: &mut Bytes) -> (r: Result<InteractAction, ProtocolError>)
    requires
        !panics(interact_action_spec(bytes_data(*old(src)))),
    ensures
        interact_action_spec(bytes_data(*old(src))) == (result_view(r), bytes_data(*final(src))),
{
    let tag = VarInt::decode(src)?.0;
    if tag == 0 {
        let hand = VarInt::decode(src)?;
        Ok(InteractAction::Interact { hand })
    } else if tag == 1 {
        Ok(InteractAction::Attack)
    } else if tag == 2 {
        need(src, 12)?;
        let target_x = get_u32(src);
        let target_y = get_u32(src);
        let target_z = get_u32(src);
        let hand = VarInt::decode(src)?;
        Ok(InteractAction::InteractAt { target_x, target_y, target_z, hand })
    } else {
        Err(io_error(IoErrorKind::InvalidData, "Unknown ServerboundInteract action type"))
    }
}

fn encode_interact_action(a: &InteractAction, dst: &mut BytesMut)
    ensures
        bytes_mut_data(*final(dst)) == bytes_mut_data(*old(dst)) + interact_action_wire(*a),
{
    let ghost d0 = bytes_mut_data(*dst);
    match a {
        InteractAction::Interact { hand } => {
            let _ = VarInt(0).encode(dst);
            let _ = hand.encode(dst);
            proof {
                lemma_concat_associative(d0, VarInt::spec_encode(VarInt(0)), VarInt::spec_encode(*hand));
            }
        },
        InteractAction::Attack => {
            let _ = VarInt(1).encode(dst);
        },
        InteractAction::InteractAt { target_x, target_y, target_z, hand } => {
            let ghost e0 = VarInt::spec_encode(VarInt(2));
            let ghost e1 = be_u32_bytes(*target_x);
            let ghost e2 = be_u32_bytes(*target_y);
            let ghost e3 = be_u32_bytes(*target_z);
            let ghost e4 = VarInt::spec_encode(*hand);
            let _ = VarInt(2).encode(dst);
            put_u32(dst, *target_x);
            put_u32(dst, *target_y);
            put_u32(dst, *target_z);
            let _ = hand.encode(dst);
            proof {
                lemma_concat_associative(d0, e0, e1);
                lemma_concat_associative(d0, e0 + e1, e2);
                lemma_concat_associative(d0, e0 + e1 + e2, e3);
                lemma_concat_associative(d0, e0 + e1 + e2 + e3, e4);
            }
        },
    }
}

/// Reading the bytes of an action gives it back.
pub proof fn lemma_interact_action_roundtrip(a: InteractAction, rest: Seq<u8>)
    ensures
        interact_action_spec(interact_action_wire(a) + rest) == (Ok::<InteractAction, ErrorView>(a), rest),
{
    broadcast use group_wire_roundtrip;

    match a {
        InteractAction::Interact { hand } => {
            let t = VarInt::spec_encode(hand) + rest;
            lemma_concat_associative(VarInt::spec_encode(VarInt(0)), VarInt::spec_encode(hand), rest);
            VarInt::lemma_roundtrip(VarInt(0), t);
            VarInt::lemma_roundtrip(hand, rest);
        },
        InteractAction::Attack => {
            VarInt::lemma_roundtrip(VarInt(1), rest);
        },
        InteractAction::InteractAt { target_x, target_y, target_z, hand } => {
            let e0 = VarInt::spec_encode(VarInt(2));
            let e1 = be_u32_bytes(target_x);
            let e2 = be_u32_bytes(target_y);
            let e3 = be_u32_bytes(target_z);
            let e4 = VarInt::spec_encode(hand);
            let t4 = e4 + rest;
            let t3 = e3 + t4;
            let t2 = e2 + t3;
            let t1 = e1 + t2;
            lemma_concat_associative(e0 + e1 + e2 + e3, e4, rest);
            lemma_concat_associative(e0 + e1 + e2, e3, t4);
            lemma_concat_associative(e0 + e1, e2, t3);
            lemma_concat_associative(e0, e1, t2);
            VarInt::lemma_roundtrip(VarInt(2), t1);
            assert(t1.len() >= 12);
            VarInt::lemma_roundtrip(hand, rest);
        },
    }
}

impl WireFormat for ServerboundInteract {
    open spec fn spec_encode(p: ServerboundInteract) -> Seq<u8> {
        VarInt::spec_encode(p.entity_id) + interact_action_wire(p.action)
    }

    open spec fn spec_decode(s: Seq<u8>) -> Parsed<ServerboundInteract> {
        then(
            VarInt::spec_decode(s),
            |entity_id: VarInt, s: Seq<u8>|
                then(
                    interact_action_spec(s),
                    |action: InteractAction, s: Seq<u8>|
                        (Ok(ServerboundInteract { entity_id, action }), s),
                ),
        )
    }
}

impl Roundtrip for ServerboundInteract {
    open spec fn encodable(p: ServerboundInteract) -> bool {
        true
    }

    open spec fn reads_to_end() -> bool {
        false
    }

    proof fn lemma_roundtrip(p: ServerboundInteract, rest: Seq<u8>) {
        broadcast use group_wire_roundtrip;

        let e0 = VarInt::spec_encode(p.entity_id);
        let e1 = interact_action_wire(p.action);
        let t1 = e1 + rest;
        lemma_concat_associative(e0, e1, rest);
        VarInt::lemma_roundtrip(p.entity_id, t1);
        lemma_interact_action_roundtrip(p.action, rest);
    }
}

impl Encode for ServerboundInteract {
    fn encode(&self, dst: &mut BytesMut) -> (r: Result<(), ProtocolError>) {
        let ghost d0 = bytes_mut_data(*dst);
        let ghost e0 = VarInt::spec_encode(self.entity_id);
        let ghost e1 = interact_action_wire(self.action);
        let _ = self.entity_id.encode(dst);
        encode_interact_action(&self.action, dst);
        proof {
            lemma_concat_associative(d0, e0, e1);
        }
        Ok(())
    }
}

impl Decode for ServerboundInteract {
    fn decode(src: &mut Bytes) -> (r: Result<Self, ProtocolError>) {
        let entity_id = VarInt::decode(src)?;
        let action = decode_interact_action(src)?;
        Ok(Self { entity_id, action })
    }
}


/// The view of each VarInt in turn.
pub open spec fn entity_id_items_view(v: Seq<VarInt>) -> Seq<VarInt> {
    v.map_values(|x: VarInt| x)
}

/// Reading one VarInt.
pub open spec fn entity_id_item_spec(t: Seq<u8>) -> Parsed<VarInt> {
    VarInt::spec_decode(t)
}

/// The bytes of one VarInt.
pub open spec fn entity_id_item_wire(x: VarInt) -> Seq<u8> {
    VarInt::spec_encode(x)
}

/// The VarInts that read back.
pub open spec fn entity_id_item_fits(x: VarInt) -> bool {
    true
}

pub open spec fn entity_id_item() -> spec_fn(Seq<u8>) -> Parsed<VarInt> {
    |t: Seq<u8>| entity_id_item_spec(t)
}

pub open spec fn entity_id_piece() -> spec_fn(VarInt) -> Seq<u8> {
    |x: VarInt| entity_id_item_wire(x)
}

fn decode_entity_id_item(src: &mut Bytes) -> (r: Result<VarInt, ProtocolError>)
    requires
        !panics(entity_id_item_spec(bytes_data(*old(src)))),
    ensures
        entity_id_item_spec(bytes_data(*old(src))) == (
            match r {
                Ok(x) => Ok(x),
                Err(e) => Err(e@),
            },
            bytes_data(*final(src)),
        ),
{
    VarInt::decode(src)
}

fn encode_entity_id_item(x: &VarInt, dst: &mut BytesMut)
    ensures
        bytes_mut_data(*final(dst)) == bytes_mut_data(*old(dst)) + entity_id_item_wire(*x),
{
    let _ = x.encode(dst);
}

proof fn lemma_entity_id_item_roundtrip(x: VarInt, rest: Seq<u8>)
    requires
        entity_id_item_fits(x),
    ensures
        entity_id_item_spec(entity_id_item_wire(x) + rest) == (Ok::<VarInt, ErrorView>(x), rest),
{
    VarInt::lemma_roundtrip(x, rest);
}

/// A count, then that many VarInts. A negative count asks for an
/// allocation that cannot be made.
pub open spec fn entity_id_list_spec(s: Seq<u8>) -> Parsed<Seq<VarInt>> {
    then(
        take_varint_i32(s),
        |c: i32, s: Seq<u8>|
            if c < 0 {
                (Err(ErrorView::Panic), s)
            } else {
                read_n(s, c as nat, entity_id_item())
            },
    )
}

/// The bytes of a list of VarInts: the count, then each one.
pub open spec fn entity_id_list_wire(xs: Seq<VarInt>) -> Seq<u8> {
    VarInt::spec_encode(VarInt(xs.len() as i32)) + write_all(xs, entity_id_piece())
}

/// The lists of VarInts that read back.
pub open spec fn entity_id_list_fits(xs: Seq<VarInt>) -> bool {
    xs.len() <= i32::MAX && forall|i: int| 0 <= i < xs.len() ==> entity_id_item_fits(#[trigger] xs[i])
}

fn decode_entity_id_list(src: &mut Bytes) -> (r: Result<Vec<VarInt>, ProtocolError>)
    requires
        !panics(entity_id_list_spec(bytes_data(*old(src)))),
    ensures
        entity_id_list_spec(bytes_data(*old(src))) == (
            match r {
                Ok(v) => Ok(entity_id_items_view(v@)),
                Err(e) => Err(e@),
            },
            bytes_data(*final(src)),
        ),
{
    let c = VarInt::decode(src)?.0;
    let count = c as usize;
    let ghost s1 = bytes_data(*src);
    let mut items: Vec<VarInt> = Vec::new();
    let mut i: usize = 0;
    assert(entity_id_items_view(items@) =~= Seq::<VarInt>::empty());
    while i < count
        invariant
            0 <= c,
            count == c as usize,
            i <= count,
            !panics(read_n(s1, count as nat, entity_id_item())),
            read_n(s1, i as nat, entity_id_item()) == (
                Ok::<Seq<VarInt>, ErrorView>(entity_id_items_view(items@)),
                bytes_data(*src),
            ),
            entity_id_list_spec(bytes_data(*old(src))) == read_n(s1, count as nat, entity_id_item()),
        decreases count - i,
    {
        proof {
            if panics(entity_id_item_spec(bytes_data(*src))) {
                lemma_read_n_err(s1, (i + 1) as nat, count as nat, entity_id_item());
            }
        }
        let x = match decode_entity_id_item(src) {
            Ok(x) => x,
            Err(e) => {
                proof {
                    lemma_read_n_err(s1, (i + 1) as nat, count as nat, entity_id_item());
                }
                return Err(e);
            },
        };
        let ghost before = items@;
        items.push(x);
        assert(entity_id_items_view(items@) =~= entity_id_items_view(before).push(x));
        i += 1;
    }
    Ok(items)
}

fn encode_entity_id_list(v: &Vec<VarInt>, dst: &mut BytesMut)
    ensures
        bytes_mut_data(*final(dst)) == bytes_mut_data(*old(dst)) + entity_id_list_wire(entity_id_items_view(v@)),
{
    let _ = VarInt(v.len() as i32).encode(dst);
    let ghost d0 = bytes_mut_data(*dst);
    let ghost xs = entity_id_items_view(v@);
    let mut i: usize = 0;
    assert(xs.take(0) =~= Seq::<VarInt>::empty());
    assert(d0 + write_all(xs.take(0), entity_id_piece()) =~= d0);
    while i < v.len()
        invariant
            xs == entity_id_items_view(v@),
            i <= v.len(),
            bytes_mut_data(*dst) == d0 + write_all(xs.take(i as int), entity_id_piece()),
        decreases v.len() - i,
    {
        encode_entity_id_item(&v[i], dst);
        assert(xs.take(i as int + 1).drop_last() =~= xs.take(i as int));
        assert(bytes_mut_data(*dst) =~= d0 + write_all(xs.take(i as int + 1), entity_id_piece()));
        i += 1;
    }
    assert(xs.take(v.len() as int) =~= xs);
    assert(bytes_mut_data(*dst) =~= bytes_mut_data(*old(dst)) + entity_id_list_wire(xs));
}

pub proof fn lemma_entity_id_list_roundtrip(xs: Seq<VarInt>, rest: Seq<u8>)
    requires
        entity_id_list_fits(xs),
    ensures
        entity_id_list_spec(entity_id_list_wire(xs) + rest) == (Ok::<Seq<VarInt>, ErrorView>(xs), rest),
{
    let body = write_all(xs, entity_id_piece()) + rest;
    assert(entity_id_list_wire(xs) + rest =~= VarInt::spec_encode(VarInt(xs.len() as i32)) + body);
    VarInt::lemma_roundtrip(VarInt(xs.len() as i32), body);
    assert forall|x: VarInt, r: Seq<u8>| entity_id_item_fits(x) implies #[trigger] entity_id_item()(
        entity_id_piece()(x) + r,
    ) == (Ok::<VarInt, ErrorView>(x), r) by {
        lemma_entity_id_item_roundtrip(x, r);
    }
    lemma_read_write_n(xs, rest, entity_id_item(), entity_id_piece(), |x: VarInt| entity_id_item_fits(x));
}

// ── ClientboundRemoveEntities ─────────────────────────────────────────

#[derive(Debug, Clone, PartialEq)]
pub struct ClientboundRemoveEntities {
    pub entity_ids: Vec<VarInt>,
}

pub struct ClientboundRemoveEntitiesView {
    pub entity_ids: Seq<VarInt>,
}

impl View for ClientboundRemoveEntities {
    type V = ClientboundRemoveEntitiesView;

    open spec fn view(&self) -> ClientboundRemoveEntitiesView {
        ClientboundRemoveEntitiesView {
            entity_ids: entity_id_items_view(self.entity_ids@),
        }
    }
}

impl PacketId for ClientboundRemoveEntities {
    open spec fn spec_packet_id(ver: u32) -> u8 {
        0x32
    }

    fn packet_id(_ver: u32) -> (r: u8) {
        0x32
    }
}

impl WireFormat for ClientboundRemoveEntities {
    open spec fn spec_encode(p: ClientboundRemoveEntitiesView) -> Seq<u8> {
        entity_id_list_wire(p.entity_ids)
    }

    open spec fn spec_decode(s: Seq<u8>) -> Parsed<ClientboundRemoveEntitiesView> {
        then(entity_id_list_spec(s), |entity_ids: Seq<VarInt>, s: Seq<u8>| (Ok(ClientboundRemoveEntitiesView { entity_ids }), s))
    }
}

impl Roundtrip for ClientboundRemoveEntities {
    open spec fn encodable(p: ClientboundRemoveEntitiesView) -> bool {
        entity_id_list_fits(p.entity_ids)
    }

    open spec fn reads_to_end() -> bool {
        false
    }

    proof fn lemma_roundtrip(p: ClientboundRemoveEntitiesView, rest: Seq<u8>) {
        broadcast use group_wire_roundtrip;

        lemma_entity_id_list_roundtrip(p.entity_ids, rest);
    }
}

impl Encode for ClientboundRemoveEntities {
    fn encode(&self, dst: &mut BytesMut) -> (r: Result<(), ProtocolError>) {
        let ghost d0 = bytes_mut_data(*dst);
        encode_entity_id_list(&self.entity_ids, dst);
        let ghost mut e: Seq<u8> = entity_id_list_wire(self@.entity_ids);
        Ok(())
    }
}

impl Decode for ClientboundRemoveEntities {
    fn decode(src: &mut Bytes) -> (r: Result<Self, ProtocolError>) {
        let entity_ids = decode_entity_id_list(src)?;
        Ok(Self { entity_ids })
    }
}
/// The view of each statistic in turn.
pub open spec fn stat_items_view(v: Seq<(String, VarInt)>) -> Seq<(Seq<char>, VarInt)> {
    v.map_values(|x: (String, VarInt)| (x.0@, x.1))
}

/// Reading one statistic.
pub open spec fn stat_item_spec(t: Seq<u8>) -> Parsed<(Seq<char>, VarInt)> {
    then(str_spec(t, "ClientboundAwardStats entry name"@), |name: Seq<char>, t: Seq<u8>| then(VarInt::spec_decode(t), |value: VarInt, t: Seq<u8>| (Ok((name, value)), t)))
}

/// The bytes of one statistic.
pub open spec fn stat_item_wire(x: (Seq<char>, VarInt)) -> Seq<u8> {
    string_wire(x.0) + VarInt::spec_encode(x.1)
}

/// The statistics that read back.
pub open spec fn stat_item_fits(x: (Seq<char>, VarInt)) -> bool {
    string_fits(x.0)
}

pub open spec fn stat_item() -> spec_fn(Seq<u8>) -> Parsed<(Seq<char>, VarInt)> {
    |t: Seq<u8>| stat_item_spec(t)
}

pub open spec fn stat_piece() -> spec_fn((Seq<char>, VarInt)) -> Seq<u8> {
    |x: (Seq<char>, VarInt)| stat_item_wire(x)
}

fn decode_stat_item(src: &mut Bytes) -> (r: Result<(String, VarInt), ProtocolError>)
    requires
        !panics(stat_item_spec(bytes_data(*old(src)))),
    ensures
        stat_item_spec(bytes_data(*old(src))) == (
            match r {
                Ok(x) => Ok((x.0@, x.1)),
                Err(e) => Err(e@),
            },
            bytes_data(*final(src)),
        ),
{
    let name = decode_str(src, "ClientboundAwardStats entry name")?;
    let value = VarInt::decode(src)?;
    Ok((name, value))
}

fn encode_stat_item(x: &(String, VarInt), dst: &mut BytesMut)
    ensures
        bytes_mut_data(*final(dst)) == bytes_mut_data(*old(dst)) + stat_item_wire(((*x).0@, (*x).1)),
{
    let ghost d0 = bytes_mut_data(*dst);
    encode_str(x.0.as_str(), dst);
    let _ = x.1.encode(dst);
    proof {
        lemma_concat_associative(d0, string_wire(x.0@), VarInt::spec_encode(x.1));
    }
}

proof fn lemma_stat_item_roundtrip(x: (Seq<char>, VarInt), rest: Seq<u8>)
    requires
        stat_item_fits(x),
    ensures
        stat_item_spec(stat_item_wire(x) + rest) == (Ok::<(Seq<char>, VarInt), ErrorView>(x), rest),
{
    lemma_concat_associative(string_wire(x.0), VarInt::spec_encode(x.1), rest);
    lemma_string_roundtrip(x.0, VarInt::spec_encode(x.1) + rest, missing_for("ClientboundAwardStats entry name"@), invalid_in("ClientboundAwardStats entry name"@));
    VarInt::lemma_roundtrip(x.1, rest);
}

/// A count, then that many statistics. A negative count asks for an
/// allocation that cannot be made.
pub open spec fn stat_list_spec(s: Seq<u8>) -> Parsed<Seq<(Seq<char>, VarInt)>> {
    then(
        take_varint_i32(s),
        |c: i32, s: Seq<u8>|
            if c < 0 {
                (Err(ErrorView::Panic), s)
            } else {
                read_n(s, c as nat, stat_item())
            },
    )
}

/// The bytes of a list of statistics: the count, then each one.
pub open spec fn stat_list_wire(xs: Seq<(Seq<char>, VarInt)>) -> Seq<u8> {
    VarInt::spec_encode(VarInt(xs.len() as i32)) + write_all(xs, stat_piece())
}

/// The lists of statistics that read back.
pub open spec fn stat_list_fits(xs: Seq<(Seq<char>, VarInt)>) -> bool {
    xs.len() <= i32::MAX && forall|i: int| 0 <= i < xs.len() ==> stat_item_fits(#[trigger] xs[i])
}

fn decode_stat_list(src: &mut Bytes) -> (r: Result<Vec<(String, VarInt)>, ProtocolError>)
    requires
        !panics(stat_list_spec(bytes_data(*old(src)))),
    ensures
        stat_list_spec(bytes_data(*old(src))) == (
            match r {
                Ok(v) => Ok(stat_items_view(v@)),
                Err(e) => Err(e@),
            },
            bytes_data(*final(src)),
        ),
{
    let c = VarInt::decode(src)?.0;
    let count = c as usize;
    let ghost s1 = bytes_data(*src);
    let mut items: Vec<(String, VarInt)> = Vec::new();
    let mut i: usize = 0;
    assert(stat_items_view(items@) =~= Seq::<(Seq<char>, VarInt)>::empty());
    while i < count
        invariant
            0 <= c,
            count == c as usize,
            i <= count,
            !panics(read_n(s1, count as nat, stat_item())),
            read_n(s1, i as nat, stat_item()) == (
                Ok::<Seq<(Seq<char>, VarInt)>, ErrorView>(stat_items_view(items@)),
                bytes_data(*src),
            ),
            stat_list_spec(bytes_data(*old(src))) == read_n(s1, count as nat, stat_item()),
        decreases count - i,
    {
        proof {
            if panics(stat_item_spec(bytes_data(*src))) {
                lemma_read_n_err(s1, (i + 1) as nat, count as nat, stat_item());
            }
        }
        let x = match decode_stat_item(src) {
            Ok(x) => x,
            Err(e) => {
                proof {
                    lemma_read_n_err(s1, (i + 1) as nat, count as nat, stat_item());
                }
                return Err(e);
            },
        };
        let ghost before = items@;
        items.push(x);
        assert(stat_items_view(items@) =~= stat_items_view(before).push((x.0@, x.1)));
        i += 1;
    }
    Ok(items)
}

fn encode_stat_list(v: &Vec<(String, VarInt)>, dst: &mut BytesMut)
    ensures
        bytes_mut_data(*final(dst)) == bytes_mut_data(*old(dst)) + stat_list_wire(stat_items_view(v@)),
{
    let _ = VarInt(v.len() as i32).encode(dst);
    let ghost d0 = bytes_mut_data(*dst);
    let ghost xs = stat_items_view(v@);
    let mut i: usize = 0;
    assert(xs.take(0) =~= Seq::<(Seq<char>, VarInt)>::empty());
    assert(d0 + write_all(xs.take(0), stat_piece()) =~= d0);
    while i < v.len()
        invariant
            xs == stat_items_view(v@),
            i <= v.len(),
            bytes_mut_data(*dst) == d0 + write_all(xs.take(i as int), stat_piece()),
        decreases v.len() - i,
    {
        encode_stat_item(&v[i], dst);
        assert(xs.take(i as int + 1).drop_last() =~= xs.take(i as int));
        assert(bytes_mut_data(*dst) =~= d0 + write_all(xs.take(i as int + 1), stat_piece()));
        i += 1;
    }
    assert(xs.take(v.len() as int) =~= xs);
    assert(bytes_mut_data(*dst) =~= bytes_mut_data(*old(dst)) + stat_list_wire(xs));
}

pub proof fn lemma_stat_list_roundtrip(xs: Seq<(Seq<char>, VarInt)>, rest: Seq<u8>)
    requires
        stat_list_fits(xs),
    ensures
        stat_list_spec(stat_list_wire(xs) + rest) == (Ok::<Seq<(Seq<char>, VarInt)>, ErrorView>(xs), rest),
{
    let body = write_all(xs, stat_piece()) + rest;
    assert(stat_list_wire(xs) + rest =~= VarInt::spec_encode(VarInt(xs.len() as i32)) + body);
    VarInt::lemma_roundtrip(VarInt(xs.len() as i32), body);
    assert forall|x: (Seq<char>, VarInt), r: Seq<u8>| stat_item_fits(x) implies #[trigger] stat_item()(
        stat_piece()(x) + r,
    ) == (Ok::<(Seq<char>, VarInt), ErrorView>(x), r) by {
        lemma_stat_item_roundtrip(x, r);
    }
    lemma_read_write_n(xs, rest, stat_item(), stat_piece(), |x: (Seq<char>, VarInt)| stat_item_fits(x));
}

// ── ClientboundAwardStats ─────────────────────────────────────────────

#[derive(Debug, Clone, PartialEq)]
pub struct ClientboundAwardStats {
    pub entries: Vec<(String, VarInt)>,
}

pub struct ClientboundAwardStatsView {
    pub entries: Seq<(Seq<char>, VarInt)>,
}

impl View for ClientboundAwardStats {
    type V = ClientboundAwardStatsView;

    open spec fn view(&self) -> ClientboundAwardStatsView {
        ClientboundAwardStatsView {
            entries: stat_items_view(self.entries@),
        }
    }
}

impl PacketId for ClientboundAwardStats {
    open spec fn spec_packet_id(ver: u32) -> u8 {
        0x07
    }

    fn packet_id(_ver: u32) -> (r: u8) {
        0x07
    }
}

impl WireFormat for ClientboundAwardStats {
    open spec fn spec_encode(p: ClientboundAwardStatsView) -> Seq<u8> {
        stat_list_wire(p.entries)
    }

    open spec fn spec_decode(s: Seq<u8>) -> Parsed<ClientboundAwardStatsView> {
        then(stat_list_spec(s), |entries: Seq<(Seq<char>, VarInt)>, s: Seq<u8>| (Ok(ClientboundAwardStatsView { entries }), s))
    }
}

impl Roundtrip for ClientboundAwardStats {
    open spec fn encodable(p: ClientboundAwardStatsView) -> bool {
        stat_list_fits(p.entries)
    }

    open spec fn reads_to_end() -> bool {
        false
    }

    proof fn lemma_roundtrip(p: ClientboundAwardStatsView, rest: Seq<u8>) {
        broadcast use group_wire_roundtrip;

        lemma_stat_list_roundtrip(p.entries, rest);
    }
}

impl Encode for ClientboundAwardStats {
    fn encode(&self, dst: &mut BytesMut) -> (r: Result<(), ProtocolError>) {
        let ghost d0 = bytes_mut_data(*dst);
        encode_stat_list(&self.entries, dst);
        let ghost mut e: Seq<u8> = stat_list_wire(self@.entries);
        Ok(())
    }
}

impl Decode for ClientboundAwardStats {
    fn decode(src: &mut Bytes) -> (r: Result<Self, ProtocolError>) {
        let entries = decode_stat_list(src)?;
        Ok(Self { entries })
    }
}
/// The view of each suggestion in turn.
pub open spec fn suggestion_items_view(v: Seq<String>) -> Seq<Seq<char>> {
    v.map_values(|x: String| x@)
}

/// Reading one suggestion.
pub open spec fn suggestion_item_spec(t: Seq<u8>) -> Parsed<Seq<char>> {
    str_spec(t, "ClientboundCommandSuggestions match"@)
}

/// The bytes of one suggestion.
pub open spec fn suggestion_item_wire(x: Seq<char>) -> Seq<u8> {
    string_wire(x)
}

/// The suggestions that read back.
pub open spec fn suggestion_item_fits(x: Seq<char>) -> bool {
    string_fits(x)
}

pub open spec fn suggestion_item() -> spec_fn(Seq<u8>) -> Parsed<Seq<char>> {
    |t: Seq<u8>| suggestion_item_spec(t)
}

pub open spec fn suggestion_piece() -> spec_fn(Seq<char>) -> Seq<u8> {
    |x: Seq<char>| suggestion_item_wire(x)
}

fn decode_suggestion_item(src: &mut Bytes) -> (r: Result<String, ProtocolError>)
    requires
        !panics(suggestion_item_spec(bytes_data(*old(src)))),
    ensures
        suggestion_item_spec(bytes_data(*old(src))) == (
            match r {
                Ok(x) => Ok(x@),
                Err(e) => Err(e@),
            },
            bytes_data(*final(src)),
        ),
{
    decode_str(src, "ClientboundCommandSuggestions match")
}

fn encode_suggestion_item(x: &String, dst: &mut BytesMut)
    ensures
        bytes_mut_data(*final(dst)) == bytes_mut_data(*old(dst)) + suggestion_item_wire(x@),
{
    encode_str(x.as_str(), dst);
}

proof fn lemma_suggestion_item_roundtrip(x: Seq<char>, rest: Seq<u8>)
    requires
        suggestion_item_fits(x),
    ensures
        suggestion_item_spec(suggestion_item_wire(x) + rest) == (Ok::<Seq<char>, ErrorView>(x), rest),
{
    lemma_string_roundtrip(x, rest, missing_for("ClientboundCommandSuggestions match"@), invalid_in("ClientboundCommandSuggestions match"@));
}

/// A count, then that many suggestions. A negative count asks for an
/// allocation that cannot be made.
pub open spec fn suggestion_list_spec(s: Seq<u8>) -> Parsed<Seq<Seq<char>>> {
    then(
        take_varint_i32(s),
        |c: i32, s: Seq<u8>|
            if c < 0 {
                (Err(ErrorView::Panic), s)
            } else {
                read_n(s, c as nat, suggestion_item())
            },
    )
}

/// The bytes of a list of suggestions: the count, then each one.
pub open spec fn suggestion_list_wire(xs: Seq<Seq<char>>) -> Seq<u8> {
    VarInt::spec_encode(VarInt(xs.len() as i32)) + write_all(xs, suggestion_piece())
}

/// The lists of suggestions that read back.
pub open spec fn suggestion_list_fits(xs: Seq<Seq<char>>) -> bool {
    xs.len() <= i32::MAX && forall|i: int| 0 <= i < xs.len() ==> suggestion_item_fits(#[trigger] xs[i])
}

fn decode_suggestion_list(src: &mut Bytes) -> (r: Result<Vec<String>, ProtocolError>)
    requires
        !panics(suggestion_list_spec(bytes_data(*old(src)))),
    ensures
        suggestion_list_spec(bytes_data(*old(src))) == (
            match r {
                Ok(v) => Ok(suggestion_items_view(v@)),
                Err(e) => Err(e@),
            },
            bytes_data(*final(src)),
        ),
{
    let c = VarInt::decode(src)?.0;
    let count = c as usize;
    let ghost s1 = bytes_data(*src);
    let mut items: Vec<String> = Vec::new();
    let mut i: usize = 0;
    assert(suggestion_items_view(items@) =~= Seq::<Seq<char>>::empty());
    while i < count
        invariant
            0 <= c,
            count == c as usize,
            i <= count,
            !panics(read_n(s1, count as nat, suggestion_item())),
            read_n(s1, i as nat, suggestion_item()) == (
                Ok::<Seq<Seq<char>>, ErrorView>(suggestion_items_view(items@)),
                bytes_data(*src),
            ),
            suggestion_list_spec(bytes_data(*old(src))) == read_n(s1, count as nat, suggestion_item()),
        decreases count - i,
    {
        proof {
            if panics(suggestion_item_spec(bytes_data(*src))) {
                lemma_read_n_err(s1, (i + 1) as nat, count as nat, suggestion_item());
            }
        }
        let x = match decode_suggestion_item(src) {
            Ok(x) => x,
            Err(e) => {
                proof {
                    lemma_read_n_err(s1, (i + 1) as nat, count as nat, suggestion_item());
                }
                return Err(e);
            },
        };
        let ghost before = items@;
        items.push(x);
        assert(suggestion_items_view(items@) =~= suggestion_items_view(before).push(x@));
        i += 1;
    }
    Ok(items)
}

fn encode_suggestion_list(v: &Vec<String>, dst: &mut BytesMut)
    ensures
        bytes_mut_data(*final(dst)) == bytes_mut_data(*old(dst)) + suggestion_list_wire(suggestion_items_view(v@)),
{
    let _ = VarInt(v.len() as i32).encode(dst);
    let ghost d0 = bytes_mut_data(*dst);
    let ghost xs = suggestion_items_view(v@);
    let mut i: usize = 0;
    assert(xs.take(0) =~= Seq::<Seq<char>>::empty());
    assert(d0 + write_all(xs.take(0), suggestion_piece()) =~= d0);
    while i < v.len()
        invariant
            xs == suggestion_items_view(v@),
            i <= v.len(),
            bytes_mut_data(*dst) == d0 + write_all(xs.take(i as int), suggestion_piece()),
        decreases v.len() - i,
    {
        encode_suggestion_item(&v[i], dst);
        assert(xs.take(i as int + 1).drop_last() =~= xs.take(i as int));
        assert(bytes_mut_data(*dst) =~= d0 + write_all(xs.take(i as int + 1), suggestion_piece()));
        i += 1;
    }
    assert(xs.take(v.len() as int) =~= xs);
    assert(bytes_mut_data(*dst) =~= bytes_mut_data(*old(dst)) + suggestion_list_wire(xs));
}

pub proof fn lemma_suggestion_list_roundtrip(xs: Seq<Seq<char>>, rest: Seq<u8>)
    requires
        suggestion_list_fits(xs),
    ensures
        suggestion_list_spec(suggestion_list_wire(xs) + rest) == (Ok::<Seq<Seq<char>>, ErrorView>(xs), rest),
{
    let body = write_all(xs, suggestion_piece()) + rest;
    assert(suggestion_list_wire(xs) + rest =~= VarInt::spec_encode(VarInt(xs.len() as i32)) + body);
    VarInt::lemma_roundtrip(VarInt(xs.len() as i32), body);
    assert forall|x: Seq<char>, r: Seq<u8>| suggestion_item_fits(x) implies #[trigger] suggestion_item()(
        suggestion_piece()(x) + r,
    ) == (Ok::<Seq<char>, ErrorView>(x), r) by {
        lemma_suggestion_item_roundtrip(x, r);
    }
    lemma_read_write_n(xs, rest, suggestion_item(), suggestion_piece(), |x: Seq<char>| suggestion_item_fits(x));
}

// ── ClientboundCommandSuggestions ─────────────────────────────────────

#[derive(Debug, Clone, PartialEq)]
pub struct ClientboundCommandSuggestions {
    pub matches: Vec<String>,
}

pub struct ClientboundCommandSuggestionsView {
    pub matches: Seq<Seq<char>>,
}

impl View for ClientboundCommandSuggestions {
    type V = ClientboundCommandSuggestionsView;

    open spec fn view(&self) -> ClientboundCommandSuggestionsView {
        ClientboundCommandSuggestionsView {
            matches: suggestion_items_view(self.matches@),
        }
    }
}

impl PacketId for ClientboundCommandSuggestions {
    open spec fn spec_packet_id(ver: u32) -> u8 {
        0x0E
    }

    fn packet_id(_ver: u32) -> (r: u8) {
        0x0E
    }
}

impl WireFormat for ClientboundCommandSuggestions {
    open spec fn spec_encode(p: ClientboundCommandSuggestionsView) -> Seq<u8> {
        suggestion_list_wire(p.matches)
    }

    open spec fn spec_decode(s: Seq<u8>) -> Parsed<ClientboundCommandSuggestionsView> {
        then(suggestion_list_spec(s), |matches: Seq<Seq<char>>, s: Seq<u8>| (Ok(ClientboundCommandSuggestionsView { matches }), s))
    }
}

impl Roundtrip for ClientboundCommandSuggestions {
    open spec fn encodable(p: ClientboundCommandSuggestionsView) -> bool {
        suggestion_list_fits(p.matches)
    }

    open spec fn reads_to_end() -> bool {
        false
    }

    proof fn lemma_roundtrip(p: ClientboundCommandSuggestionsView, rest: Seq<u8>) {
        broadcast use group_wire_roundtrip;

        lemma_suggestion_list_roundtrip(p.matches, rest);
    }
}

impl Encode for ClientboundCommandSuggestions {
    fn encode(&self, dst: &mut BytesMut) -> (r: Result<(), ProtocolError>) {
        let ghost d0 = bytes_mut_data(*dst);
        encode_suggestion_list(&self.matches, dst);
        let ghost mut e: Seq<u8> = suggestion_list_wire(self@.matches);
        Ok(())
    }
}

impl Decode for ClientboundCommandSuggestions {
    fn decode(src: &mut Bytes) -> (r: Result<Self, ProtocolError>) {
        let matches = decode_suggestion_list(src)?;
        Ok(Self { matches })
    }
}
/// The view of each block change record in turn.
pub open spec fn record_items_view(v: Seq<(u8, u8, VarInt)>) -> Seq<(u8, u8, VarInt)> {
    v.map_values(|x: (u8, u8, VarInt)| x)
}

/// Reading one block change record.
pub open spec fn record_item_spec(t: Seq<u8>) -> Parsed<(u8, u8, VarInt)> {
    then(need_spec(t, 2), |_u: (), t: Seq<u8>| then(take_u8(t), |h: u8, t: Seq<u8>| then(take_u8(t), |y: u8, t: Seq<u8>| then(VarInt::spec_decode(t), |id: VarInt, t: Seq<u8>| (Ok((h, y, id)), t)))))
}

/// The bytes of one block change record.
pub open spec fn record_item_wire(x: (u8, u8, VarInt)) -> Seq<u8> {
    seq![x.0, x.1] + VarInt::spec_encode(x.2)
}

/// The block change records that read back.
pub open spec fn record_item_fits(x: (u8, u8, VarInt)) -> bool {
    true
}

pub open spec fn record_item() -> spec_fn(Seq<u8>) -> Parsed<(u8, u8, VarInt)> {
    |t: Seq<u8>| record_item_spec(t)
}

pub open spec fn record_piece() -> spec_fn((u8, u8, VarInt)) -> Seq<u8> {
    |x: (u8, u8, VarInt)| record_item_wire(x)
}

fn decode_record_item(src: &mut Bytes) -> (r: Result<(u8, u8, VarInt), ProtocolError>)
    requires
        !panics(record_item_spec(bytes_data(*old(src)))),
    ensures
        record_item_spec(bytes_data(*old(src))) == (
            match r {
                Ok(x) => Ok(x),
                Err(e) => Err(e@),
            },
            bytes_data(*final(src)),
        ),
{
    need(src, 2)?;
    let h = get_u8(src);
    let y = get_u8(src);
    let id = VarInt::decode(src)?;
    Ok((h, y, id))
}

fn encode_record_item(x: &(u8, u8, VarInt), dst: &mut BytesMut)
    ensures
        bytes_mut_data(*final(dst)) == bytes_mut_data(*old(dst)) + record_item_wire(*x),
{
    let ghost d0 = bytes_mut_data(*dst);
    put_u8(dst, x.0);
    put_u8(dst, x.1);
    let _ = x.2.encode(dst);
    proof {
        lemma_concat_associative(d0, seq![x.0], seq![x.1]);
        assert(seq![x.0] + seq![x.1] =~= seq![x.0, x.1]);
        lemma_concat_associative(d0, seq![x.0, x.1], VarInt::spec_encode(x.2));
    }
}

proof fn lemma_record_item_roundtrip(x: (u8, u8, VarInt), rest: Seq<u8>)
    requires
        record_item_fits(x),
    ensures
        record_item_spec(record_item_wire(x) + rest) == (Ok::<(u8, u8, VarInt), ErrorView>(x), rest),
{
    let t = VarInt::spec_encode(x.2) + rest;
    lemma_concat_associative(seq![x.0, x.1], VarInt::spec_encode(x.2), rest);
    assert((seq![x.0, x.1] + t).drop_first() =~= seq![x.1] + t);
    assert((seq![x.1] + t).drop_first() =~= t);
    VarInt::lemma_roundtrip(x.2, rest);
}

/// A count, then that many block change records. A negative count asks for an
/// allocation that cannot be made.
pub open spec fn record_list_spec(s: Seq<u8>) -> Parsed<Seq<(u8, u8, VarInt)>> {
    then(
        take_varint_i32(s),
        |c: i32, s: Seq<u8>|
            if c < 0 {
                (Err(ErrorView::Panic), s)
            } else {
                read_n(s, c as nat, record_item())
            },
    )
}

/// The bytes of a list of block change records: the count, then each one.
pub open spec fn record_list_wire(xs: Seq<(u8, u8, VarInt)>) -> Seq<u8> {
    VarInt::spec_encode(VarInt(xs.len() as i32)) + write_all(xs, record_piece())
}

/// The lists of block change records that read back.
pub open spec fn record_list_fits(xs: Seq<(u8, u8, VarInt)>) -> bool {
    xs.len() <= i32::MAX && forall|i: int| 0 <= i < xs.len() ==> record_item_fits(#[trigger] xs[i])
}

fn decode_record_list(src: &mut Bytes) -> (r: Result<Vec<(u8, u8, VarInt)>, ProtocolError>)
    requires
        !panics(record_list_spec(bytes_data(*old(src)))),
    ensures
        record_list_spec(bytes_data(*old(src))) == (
            match r {
                Ok(v) => Ok(record_items_view(v@)),
                Err(e) => Err(e@),
            },
            bytes_data(*final(src)),
        ),
{
    let c = VarInt::decode(src)?.0;
    let count = c as usize;
    let ghost s1 = bytes_data(*src);
    let mut items: Vec<(u8, u8, VarInt)> = Vec::new();
    let mut i: usize = 0;
    assert(record_items_view(items@) =~= Seq::<(u8, u8, VarInt)>::empty());
    while i < count
        invariant
            0 <= c,
            count == c as usize,
            i <= count,
            !panics(read_n(s1, count as nat, record_item())),
            read_n(s1, i as nat, record_item()) == (
                Ok::<Seq<(u8, u8, VarInt)>, ErrorView>(record_items_view(items@)),
                bytes_data(*src),
            ),
            record_list_spec(bytes_data(*old(src))) == read_n(s1, count as nat, record_item()),
        decreases count - i,
    {
        proof {
            if panics(record_item_spec(bytes_data(*src))) {
                lemma_read_n_err(s1, (i + 1) as nat, count as nat, record_item());
            }
        }
        let x = match decode_record_item(src) {
            Ok(x) => x,
            Err(e) => {
                proof {
                    lemma_read_n_err(s1, (i + 1) as nat, count as nat, record_item());
                }
                return Err(e);
            },
        };
        let ghost before = items@;
        items.push(x);
        assert(record_items_view(items@) =~= record_items_view(before).push(x));
        i += 1;
    }
    Ok(items)
}

fn encode_record_list(v: &Vec<(u8, u8, VarInt)>, dst: &mut BytesMut)
    ensures
        bytes_mut_data(*final(dst)) == bytes_mut_data(*old(dst)) + record_list_wire(record_items_view(v@)),
{
    let _ = VarInt(v.len() as i32).encode(dst);
    let ghost d0 = bytes_mut_data(*dst);
    let ghost xs = record_items_view(v@);
    let mut i: usize = 0;
    assert(xs.take(0) =~= Seq::<(u8, u8, VarInt)>::empty());
    assert(d0 + write_all(xs.take(0), record_piece()) =~= d0);
    while i < v.len()
        invariant
            xs == record_items_view(v@),
            i <= v.len(),
            bytes_mut_data(*dst) == d0 + write_all(xs.take(i as int), record_piece()),
        decreases v.len() - i,
    {
        encode_record_item(&v[i], dst);
        assert(xs.take(i as int + 1).drop_last() =~= xs.take(i as int));
        assert(bytes_mut_data(*dst) =~= d0 + write_all(xs.take(i as int + 1), record_piece()));
        i += 1;
    }
    assert(xs.take(v.len() as int) =~= xs);
    assert(bytes_mut_data(*dst) =~= bytes_mut_data(*old(dst)) + record_list_wire(xs));
}

pub proof fn lemma_record_list_roundtrip(xs: Seq<(u8, u8, VarInt)>, rest: Seq<u8>)
    requires
        record_list_fits(xs),
    ensures
        record_list_spec(record_list_wire(xs) + rest) == (Ok::<Seq<(u8, u8, VarInt)>, ErrorView>(xs), rest),
{
    let body = write_all(xs, record_piece()) + rest;
    assert(record_list_wire(xs) + rest =~= VarInt::spec_encode(VarInt(xs.len() as i32)) + body);
    VarInt::lemma_roundtrip(VarInt(xs.len() as i32), body);
    assert forall|x: (u8, u8, VarInt), r: Seq<u8>| record_item_fits(x) implies #[trigger] record_item()(
        record_piece()(x) + r,
    ) == (Ok::<(u8, u8, VarInt), ErrorView>(x), r) by {
        lemma_record_item_roundtrip(x, r);
    }
    lemma_read_write_n(xs, rest, record_item(), record_piece(), |x: (u8, u8, VarInt)| record_item_fits(x));
}

// ── ClientboundSectionBlocksUpdate ────────────────────────────────────

#[derive(Debug, Clone, PartialEq)]
pub struct ClientboundSectionBlocksUpdate {
    pub chunk_x: i32,
    pub chunk_z: i32,
    pub records: Vec<(u8, u8, VarInt)>,
}

pub struct ClientboundSectionBlocksUpdateView {
    pub chunk_x: i32,
    pub chunk_z: i32,
    pub records: Seq<(u8, u8, VarInt)>,
}

impl View for ClientboundSectionBlocksUpdate {
    type V = ClientboundSectionBlocksUpdateView;

    open spec fn view(&self) -> ClientboundSectionBlocksUpdateView {
        ClientboundSectionBlocksUpdateView {
            chunk_x: self.chunk_x,
            chunk_z: self.chunk_z,
            records: record_items_view(self.records@),
        }
    }
}

impl PacketId for ClientboundSectionBlocksUpdate {
    open spec fn spec_packet_id(ver: u32) -> u8 {
        0x10
    }

    fn packet_id(_ver: u32) -> (r: u8) {
        0x10
    }
}

impl WireFormat for ClientboundSectionBlocksUpdate {
    open spec fn spec_encode(p: ClientboundSectionBlocksUpdateView) -> Seq<u8> {
        be_i32_bytes(p.chunk_x) + be_i32_bytes(p.chunk_z) + record_list_wire(p.records)
    }

    open spec fn spec_decode(s: Seq<u8>) -> Parsed<ClientboundSectionBlocksUpdateView> {
        then(need_spec(s, 8), |_u: (), s: Seq<u8>| then(take_i32(s), |chunk_x: i32, s: Seq<u8>| then(take_i32(s), |chunk_z: i32, s: Seq<u8>| then(record_list_spec(s), |records: Seq<(u8, u8, VarInt)>, s: Seq<u8>| (Ok(ClientboundSectionBlocksUpdateView { chunk_x, chunk_z, records }), s)))))
    }
}

impl Roundtrip for ClientboundSectionBlocksUpdate {
    open spec fn encodable(p: ClientboundSectionBlocksUpdateView) -> bool {
        record_list_fits(p.records)
    }

    open spec fn reads_to_end() -> bool {
        false
    }

    proof fn lemma_roundtrip(p: ClientboundSectionBlocksUpdateView, rest: Seq<u8>) {
        broadcast use group_wire_roundtrip;

        let t2 = record_list_wire(p.records) + rest;
        let t1 = be_i32_bytes(p.chunk_z) + t2;
        lemma_concat_associative(be_i32_bytes(p.chunk_x) + be_i32_bytes(p.chunk_z), record_list_wire(p.records), rest);
        lemma_concat_associative(be_i32_bytes(p.chunk_x), be_i32_bytes(p.chunk_z), t2);
        lemma_record_list_roundtrip(p.records, rest);
    }
}

impl Encode for ClientboundSectionBlocksUpdate {
    fn encode(&self, dst: &mut BytesMut) -> (r: Result<(), ProtocolError>) {
        let ghost d0 = bytes_mut_data(*dst);
        put_i32(dst, self.chunk_x);
        let ghost mut e: Seq<u8> = be_i32_bytes(self@.chunk_x);
        put_i32(dst, self.chunk_z);
        proof {
            lemma_concat_associative(d0, e, be_i32_bytes(self@.chunk_z));
            e = e + be_i32_bytes(self@.chunk_z);
        }
        encode_record_list(&self.records, dst);
        proof {
            lemma_concat_associative(d0, e, record_list_wire(self@.records));
            e = e + record_list_wire(self@.records);
        }
        Ok(())
    }
}

impl Decode for ClientboundSectionBlocksUpdate {
    fn decode(src: &mut Bytes) -> (r: Result<Self, ProtocolError>) {
        need(src, 8)?;
        let chunk_x = get_i32(src);
        let chunk_z = get_i32(src);
        let records = decode_record_list(src)?;
        Ok(Self { chunk_x, chunk_z, records })
    }
}
/// The view of each affected block offset in turn.
pub open spec fn blast_items_view(v: Seq<(i8, i8, i8)>) -> Seq<(i8, i8, i8)> {
    v.map_values(|x: (i8, i8, i8)| x)
}

/// Reading one affected block offset.
pub open spec fn blast_item_spec(t: Seq<u8>) -> Parsed<(i8, i8, i8)> {
    then(take_i8(t), |a: i8, t: Seq<u8>| then(take_i8(t), |b: i8, t: Seq<u8>| then(take_i8(t), |c: i8, t: Seq<u8>| (Ok((a, b, c)), t))))
}

/// The bytes of one affected block offset.
pub open spec fn blast_item_wire(x: (i8, i8, i8)) -> Seq<u8> {
    seq![x.0 as u8, x.1 as u8, x.2 as u8]
}

/// The affected block offsets that read back.
pub open spec fn blast_item_fits(x: (i8, i8, i8)) -> bool {
    true
}

pub open spec fn blast_item() -> spec_fn(Seq<u8>) -> Parsed<(i8, i8, i8)> {
    |t: Seq<u8>| blast_item_spec(t)
}

pub open spec fn blast_piece() -> spec_fn((i8, i8, i8)) -> Seq<u8> {
    |x: (i8, i8, i8)| blast_item_wire(x)
}

fn decode_blast_item(src: &mut Bytes) -> (r: Result<(i8, i8, i8), ProtocolError>)
    requires
        !panics(blast_item_spec(bytes_data(*old(src)))),
    ensures
        blast_item_spec(bytes_data(*old(src))) == (
            match r {
                Ok(x) => Ok(x),
                Err(e) => Err(e@),
            },
            bytes_data(*final(src)),
        ),
{
    let a = get_i8(src);
    let b = get_i8(src);
    let c = get_i8(src);
    Ok((a, b, c))
}

fn encode_blast_item(x: &(i8, i8, i8), dst: &mut BytesMut)
    ensures
        bytes_mut_data(*final(dst)) == bytes_mut_data(*old(dst)) + blast_item_wire(*x),
{
    let ghost d0 = bytes_mut_data(*dst);
    put_i8(dst, x.0);
    put_i8(dst, x.1);
    put_i8(dst, x.2);
    assert(bytes_mut_data(*dst) =~= d0 + seq![x.0 as u8, x.1 as u8, x.2 as u8]);
}

proof fn lemma_blast_item_roundtrip(x: (i8, i8, i8), rest: Seq<u8>)
    requires
        blast_item_fits(x),
    ensures
        blast_item_spec(blast_item_wire(x) + rest) == (Ok::<(i8, i8, i8), ErrorView>(x), rest),
{
    broadcast use group_wire_roundtrip;

    let s = seq![x.0 as u8, x.1 as u8, x.2 as u8] + rest;
    assert(s =~= seq![x.0 as u8] + (seq![x.1 as u8] + (seq![x.2 as u8] + rest)));
}

/// A count, then that many affected block offsets. A negative count asks for an
/// allocation that cannot be made.
pub open spec fn blast_list_spec(s: Seq<u8>) -> Parsed<Seq<(i8, i8, i8)>> {
    then(
        take_i32(s),
        |c: i32, s: Seq<u8>|
            if c < 0 {
                (Err(ErrorView::Panic), s)
            } else {
                if c as int * 3 > usize::MAX {
                    (Err(ErrorView::Panic), s)
                } else {
                    then(need_spec(s, (c as int * 3) as usize), |_u: (), s: Seq<u8>| read_n(s, c as nat, blast_item()))
                }
            },
    )
}

/// The bytes of a list of affected block offsets: the count, then each one.
pub open spec fn blast_list_wire(xs: Seq<(i8, i8, i8)>) -> Seq<u8> {
    be_i32_bytes(xs.len() as i32) + write_all(xs, blast_piece())
}

/// The lists of affected block offsets that read back.
pub open spec fn blast_list_fits(xs: Seq<(i8, i8, i8)>) -> bool {
    xs.len() <= i32::MAX && xs.len() * 3 <= usize::MAX && forall|i: int| 0 <= i < xs.len() ==> blast_item_fits(#[trigger] xs[i])
}

fn decode_blast_list(src: &mut Bytes) -> (r: Result<Vec<(i8, i8, i8)>, ProtocolError>)
    requires
        !panics(blast_list_spec(bytes_data(*old(src)))),
    ensures
        blast_list_spec(bytes_data(*old(src))) == (
            match r {
                Ok(v) => Ok(blast_items_view(v@)),
                Err(e) => Err(e@),
            },
            bytes_data(*final(src)),
        ),
{
    let c = get_i32(src);
    let count = c as usize;
    proof {
        assert(c as int * 3 <= usize::MAX);
    }
    need(src, count * 3)?;
    let ghost s1 = bytes_data(*src);
    let mut items: Vec<(i8, i8, i8)> = Vec::new();
    let mut i: usize = 0;
    assert(blast_items_view(items@) =~= Seq::<(i8, i8, i8)>::empty());
    while i < count
        invariant
            0 <= c,
            count == c as usize,
            i <= count,
            !panics(read_n(s1, count as nat, blast_item())),
            read_n(s1, i as nat, blast_item()) == (
                Ok::<Seq<(i8, i8, i8)>, ErrorView>(blast_items_view(items@)),
                bytes_data(*src),
            ),
            blast_list_spec(bytes_data(*old(src))) == read_n(s1, count as nat, blast_item()),
        decreases count - i,
    {
        proof {
            if panics(blast_item_spec(bytes_data(*src))) {
                lemma_read_n_err(s1, (i + 1) as nat, count as nat, blast_item());
            }
        }
        let x = match decode_blast_item(src) {
            Ok(x) => x,
            Err(e) => {
                proof {
                    lemma_read_n_err(s1, (i + 1) as nat, count as nat, blast_item());
                }
                return Err(e);
            },
        };
        let ghost before = items@;
        items.push(x);
        assert(blast_items_view(items@) =~= blast_items_view(before).push(x));
        i += 1;
    }
    Ok(items)
}

fn encode_blast_list(v: &Vec<(i8, i8, i8)>, dst: &mut BytesMut)
    ensures
        bytes_mut_data(*final(dst)) == bytes_mut_data(*old(dst)) + blast_list_wire(blast_items_view(v@)),
{
    put_i32(dst, v.len() as i32);
    let ghost d0 = bytes_mut_data(*dst);
    let ghost xs = blast_items_view(v@);
    let mut i: usize = 0;
    assert(xs.take(0) =~= Seq::<(i8, i8, i8)>::empty());
    assert(d0 + write_all(xs.take(0), blast_piece()) =~= d0);
    while i < v.len()
        invariant
            xs == blast_items_view(v@),
            i <= v.len(),
            bytes_mut_data(*dst) == d0 + write_all(xs.take(i as int), blast_piece()),
        decreases v.len() - i,
    {
        encode_blast_item(&v[i], dst);
        assert(xs.take(i as int + 1).drop_last() =~= xs.take(i as int));
        assert(bytes_mut_data(*dst) =~= d0 + write_all(xs.take(i as int + 1), blast_piece()));
        i += 1;
    }
    assert(xs.take(v.len() as int) =~= xs);
    assert(bytes_mut_data(*dst) =~= bytes_mut_data(*old(dst)) + blast_list_wire(xs));
}

pub proof fn lemma_blast_list_roundtrip(xs: Seq<(i8, i8, i8)>, rest: Seq<u8>)
    requires
        blast_list_fits(xs),
    ensures
        blast_list_spec(blast_list_wire(xs) + rest) == (Ok::<Seq<(i8, i8, i8)>, ErrorView>(xs), rest),
{
    let body = write_all(xs, blast_piece()) + rest;
    assert(blast_list_wire(xs) + rest =~= be_i32_bytes(xs.len() as i32) + body);
    crate::wire::lemma_take_i32(xs.len() as i32, body);
    assert forall|x: (i8, i8, i8), r: Seq<u8>| blast_item_fits(x) implies #[trigger] blast_item()(
        blast_piece()(x) + r,
    ) == (Ok::<(i8, i8, i8), ErrorView>(x), r) by {
        lemma_blast_item_roundtrip(x, r);
    }
    lemma_blast_wire_len(xs);
    assert(body.len() >= xs.len() * 3);
    lemma_read_write_n(xs, rest, blast_item(), blast_piece(), |x: (i8, i8, i8)| blast_item_fits(x));
}

proof fn lemma_blast_wire_len(xs: Seq<(i8, i8, i8)>)
    ensures
        write_all(xs, blast_piece()).len() == xs.len() * 3,
    decreases xs.len(),
{
    if xs.len() > 0 {
        lemma_blast_wire_len(xs.drop_last());
    }
}

// ── ClientboundExplosion ──────────────────────────────────────────────

#[derive(Debug, Clone, PartialEq)]
pub struct ClientboundExplosion {
    /// The bits of the `f32` value (`f32::to_bits`).
    pub x: u32,
    /// The bits of the `f32` value (`f32::to_bits`).
    pub y: u32,
    /// The bits of the `f32` value (`f32::to_bits`).
    pub z: u32,
    /// The bits of the `f32` value (`f32::to_bits`).
    pub radius: u32,
    pub records: Vec<(i8, i8, i8)>,
    /// The bits of the `f32` value (`f32::to_bits`).
    pub player_motion_x: u32,
    /// The bits of the `f32` value (`f32::to_bits`).
    pub player_motion_y: u32,
    /// The bits of the `f32` value (`f32::to_bits`).
    pub player_motion_z: u32,
}

pub struct ClientboundExplosionView {
    pub x: u32,
    pub y: u32,
    pub z: u32,
    pub radius: u32,
    pub records: Seq<(i8, i8, i8)>,
    pub player_motion_x: u32,
    pub player_motion_y: u32,
    pub player_motion_z: u32,
}

impl View for ClientboundExplosion {
    type V = ClientboundExplosionView;

    open spec fn view(&self) -> ClientboundExplosionView {
        ClientboundExplosionView {
            x: self.x,
            y: self.y,
            z: self.z,
            radius: self.radius,
            records: blast_items_view(self.records@),
            player_motion_x: self.player_motion_x,
            player_motion_y: self.player_motion_y,
            player_motion_z: self.player_motion_z,
        }
    }
}

impl PacketId for ClientboundExplosion {
    open spec fn spec_packet_id(ver: u32) -> u8 {
        0x1C
    }

    fn packet_id(_ver: u32) -> (r: u8) {
        0x1C
    }
}

impl WireFormat for ClientboundExplosion {
    open spec fn spec_encode(p: ClientboundExplosionView) -> Seq<u8> {
        be_u32_bytes(p.x) + be_u32_bytes(p.y) + be_u32_bytes(p.z) + be_u32_bytes(p.radius) + blast_list_wire(p.records) + be_u32_bytes(p.player_motion_x) + be_u32_bytes(p.player_motion_y) + be_u32_bytes(p.player_motion_z)
    }

    open spec fn spec_decode(s: Seq<u8>) -> Parsed<ClientboundExplosionView> {
        then(need_spec(s, 20), |_u: (), s: Seq<u8>| then(take_u32(s), |x: u32, s: Seq<u8>| then(take_u32(s), |y: u32, s: Seq<u8>| then(take_u32(s), |z: u32, s: Seq<u8>| then(take_u32(s), |radius: u32, s: Seq<u8>| then(blast_list_spec(s), |records: Seq<(i8, i8, i8)>, s: Seq<u8>| then(need_spec(s, 12), |_u: (), s: Seq<u8>| then(take_u32(s), |player_motion_x: u32, s: Seq<u8>| then(take_u32(s), |player_motion_y: u32, s: Seq<u8>| then(take_u32(s), |player_motion_z: u32, s: Seq<u8>| (Ok(ClientboundExplosionView { x, y, z, radius, records, player_motion_x, player_motion_y, player_motion_z }), s)))))))))))
    }
}

impl Roundtrip for ClientboundExplosion {
    open spec fn encodable(p: ClientboundExplosionView) -> bool {
        blast_list_fits(p.records)
    }

    open spec fn reads_to_end() -> bool {
        false
    }

    #[verifier::rlimit(100)]
    #[verifier::spinoff_prover]
    proof fn lemma_roundtrip(p: ClientboundExplosionView, rest: Seq<u8>) {
        broadcast use group_wire_roundtrip;

        let t7 = be_u32_bytes(p.player_motion_z) + rest;
        let t6 = be_u32_bytes(p.player_motion_y) + t7;
        let t5 = be_u32_bytes(p.player_motion_x) + t6;
        let t4 = blast_list_wire(p.records) + t5;
        let t3 = be_u32_bytes(p.radius) + t4;
        let t2 = be_u32_bytes(p.z) + t3;
        let t1 = be_u32_bytes(p.y) + t2;
        lemma_concat_associative(be_u32_bytes(p.x) + be_u32_bytes(p.y) + be_u32_bytes(p.z) + be_u32_bytes(p.radius) + blast_list_wire(p.records) + be_u32_bytes(p.player_motion_x) + be_u32_bytes(p.player_motion_y), be_u32_bytes(p.player_motion_z), rest);
        lemma_concat_associative(be_u32_bytes(p.x) + be_u32_bytes(p.y) + be_u32_bytes(p.z) + be_u32_bytes(p.radius) + blast_list_wire(p.records) + be_u32_bytes(p.player_motion_x), be_u32_bytes(p.player_motion_y), t7);
        lemma_concat_associative(be_u32_bytes(p.x) + be_u32_bytes(p.y) + be_u32_bytes(p.z) + be_u32_bytes(p.radius) + blast_list_wire(p.records), be_u32_bytes(p.player_motion_x), t6);
        lemma_concat_associative(be_u32_bytes(p.x) + be_u32_bytes(p.y) + be_u32_bytes(p.z) + be_u32_bytes(p.radius), blast_list_wire(p.records), t5);
        lemma_concat_associative(be_u32_bytes(p.x) + be_u32_bytes(p.y) + be_u32_bytes(p.z), be_u32_bytes(p.radius), t4);
        lemma_concat_associative(be_u32_bytes(p.x) + be_u32_bytes(p.y), be_u32_bytes(p.z), t3);
        lemma_concat_associative(be_u32_bytes(p.x), be_u32_bytes(p.y), t2);
        lemma_blast_list_roundtrip(p.records, t5);
    }
}

impl Encode for ClientboundExplosion {
    fn encode(&self, dst: &mut BytesMut) -> (r: Result<(), ProtocolError>) {
        let ghost d0 = bytes_mut_data(*dst);
        put_u32(dst, self.x);
        let ghost mut e: Seq<u8> = be_u32_bytes(self@.x);
        put_u32(dst, self.y);
        proof {
            lemma_concat_associative(d0, e, be_u32_bytes(self@.y));
            e = e + be_u32_bytes(self@.y);
        }
        put_u32(dst, self.z);
        proof {
            lemma_concat_associative(d0, e, be_u32_bytes(self@.z));
            e = e + be_u32_bytes(self@.z);
        }
        put_u32(dst, self.radius);
        proof {
            lemma_concat_associative(d0, e, be_u32_bytes(self@.radius));
            e = e + be_u32_bytes(self@.radius);
        }
        encode_blast_list(&self.records, dst);
        proof {
            lemma_concat_associative(d0, e, blast_list_wire(self@.records));
            e = e + blast_list_wire(self@.records);
        }
        put_u32(dst, self.player_motion_x);
        proof {
            lemma_concat_associative(d0, e, be_u32_bytes(self@.player_motion_x));
            e = e + be_u32_bytes(self@.player_motion_x);
        }
        put_u32(dst, self.player_motion_y);
        proof {
            lemma_concat_associative(d0, e, be_u32_bytes(self@.player_motion_y));
            e = e + be_u32_bytes(self@.player_motion_y);
        }
        put_u32(dst, self.player_motion_z);
        proof {
            lemma_concat_associative(d0, e, be_u32_bytes(self@.player_motion_z));
            e = e + be_u32_bytes(self@.player_motion_z);
        }
        Ok(())
    }
}

impl Decode for ClientboundExplosion {
    fn decode(src: &mut Bytes) -> (r: Result<Self, ProtocolError>) {
        need(src, 20)?;
        let x = get_u32(src);
        let y = get_u32(src);
        let z = get_u32(src);
        let radius = get_u32(src);
        let records = decode_blast_list(src)?;
        need(src, 12)?;
        let player_motion_x = get_u32(src);
        let player_motion_y = get_u32(src);
        let player_motion_z = get_u32(src);
        Ok(Self { x, y, z, radius, records, player_motion_x, player_motion_y, player_motion_z })
    }
}
// ── ClientboundUpdateAttributes ──────────────────────────────────────

/// A modifier of an entity attribute.
#[derive(Debug, Clone, PartialEq)]
pub struct AttributeModifier {
    /// The UUID as its 128-bit value (`uuid::Uuid::as_u128`).
    pub uuid: u128,
    /// The bits of the `f64` value (`f64::to_bits`).
    pub amount: u64,
    pub operation: u8,
}

/// An entity attribute: its key, base value and modifiers.
#[derive(Debug, Clone, PartialEq)]
pub struct Attribute {
    pub key: String,
    /// The bits of the `f64` value (`f64::to_bits`).
    pub value: u64,
    pub modifiers: Vec<AttributeModifier>,
}

pub struct AttributeView {
    pub key: Seq<char>,
    pub value: u64,
    pub modifiers: Seq<AttributeModifier>,
}

impl View for Attribute {
    type V = AttributeView;

    open spec fn view(&self) -> AttributeView {
        AttributeView { key: self.key@, value: self.value, modifiers: self.modifiers@ }
    }
}

/// The view of each attribute modifier in turn.
pub open spec fn modifier_items_view(v: Seq<AttributeModifier>) -> Seq<AttributeModifier> {
    v.map_values(|x: AttributeModifier| x)
}

/// Reading one attribute modifier.
pub open spec fn modifier_item_spec(t: Seq<u8>) -> Parsed<AttributeModifier> {
    then(need_spec(t, 25), |_u: (), t: Seq<u8>| then(take_uuid(t), |uuid: u128, t: Seq<u8>| then(take_u64(t), |amount: u64, t: Seq<u8>| then(take_u8(t), |operation: u8, t: Seq<u8>| (Ok(AttributeModifier { uuid, amount, operation }), t)))))
}

/// The bytes of one attribute modifier.
pub open spec fn modifier_item_wire(x: AttributeModifier) -> Seq<u8> {
    uuid_wire(x.uuid) + be_u64_bytes(x.amount) + seq![x.operation]
}

/// The attribute modifiers that read back.
pub open spec fn modifier_item_fits(x: AttributeModifier) -> bool {
    true
}

pub open spec fn modifier_item() -> spec_fn(Seq<u8>) -> Parsed<AttributeModifier> {
    |t: Seq<u8>| modifier_item_spec(t)
}

pub open spec fn modifier_piece() -> spec_fn(AttributeModifier) -> Seq<u8> {
    |x: AttributeModifier| modifier_item_wire(x)
}

fn decode_modifier_item(src: &mut Bytes) -> (r: Result<AttributeModifier, ProtocolError>)
    requires
        !panics(modifier_item_spec(bytes_data(*old(src)))),
    ensures
        modifier_item_spec(bytes_data(*old(src))) == (
            match r {
                Ok(x) => Ok(x),
                Err(e) => Err(e@),
            },
            bytes_data(*final(src)),
        ),
{
    need(src, 25)?;
    let uuid = get_uuid(src);
    let amount = get_u64(src);
    let operation = get_u8(src);
    Ok(AttributeModifier { uuid, amount, operation })
}

fn encode_modifier_item(x: &AttributeModifier, dst: &mut BytesMut)
    ensures
        bytes_mut_data(*final(dst)) == bytes_mut_data(*old(dst)) + modifier_item_wire(*x),
{
    let ghost d0 = bytes_mut_data(*dst);
    put_uuid(dst, x.uuid);
    put_u64(dst, x.amount);
    put_u8(dst, x.operation);
    proof {
        lemma_concat_associative(d0, uuid_wire(x.uuid), be_u64_bytes(x.amount));
        lemma_concat_associative(d0, uuid_wire(x.uuid) + be_u64_bytes(x.amount), seq![x.operation]);
    }
}

proof fn lemma_modifier_item_roundtrip(x: AttributeModifier, rest: Seq<u8>)
    requires
        modifier_item_fits(x),
    ensures
        modifier_item_spec(modifier_item_wire(x) + rest) == (Ok::<AttributeModifier, ErrorView>(x), rest),
{
    broadcast use group_wire_roundtrip;

    let e0 = uuid_wire(x.uuid);
    let e1 = be_u64_bytes(x.amount);
    let e2 = seq![x.operation];
    lemma_concat_associative(e0 + e1, e2, rest);
    lemma_concat_associative(e0, e1, e2 + rest);
    lemma_take_uuid(x.uuid, e1 + (e2 + rest));
}

/// A count, then that many attribute modifiers. A negative count asks for an
/// allocation that cannot be made.
pub open spec fn modifier_list_spec(s: Seq<u8>) -> Parsed<Seq<AttributeModifier>> {
    then(
        take_varint_i32(s),
        |c: i32, s: Seq<u8>|
            if c < 0 {
                (Err(ErrorView::Panic), s)
            } else {
                read_n(s, c as nat, modifier_item())
            },
    )
}

/// The bytes of a list of attribute modifiers: the count, then each one.
pub open spec fn modifier_list_wire(xs: Seq<AttributeModifier>) -> Seq<u8> {
    VarInt::spec_encode(VarInt(xs.len() as i32)) + write_all(xs, modifier_piece())
}

/// The lists of attribute modifiers that read back.
pub open spec fn modifier_list_fits(xs: Seq<AttributeModifier>) -> bool {
    xs.len() <= i32::MAX && forall|i: int| 0 <= i < xs.len() ==> modifier_item_fits(#[trigger] xs[i])
}

fn decode_modifier_list(src: &mut Bytes) -> (r: Result<Vec<AttributeModifier>, ProtocolError>)
    requires
        !panics(modifier_list_spec(bytes_data(*old(src)))),
    ensures
        modifier_list_spec(bytes_data(*old(src))) == (
            match r {
                Ok(v) => Ok(modifier_items_view(v@)),
                Err(e) => Err(e@),
            },
            bytes_data(*final(src)),
        ),
{
    let c = VarInt::decode(src)?.0;
    let count = c as usize;
    let ghost s1 = bytes_data(*src);
    let mut items: Vec<AttributeModifier> = Vec::new();
    let mut i: usize = 0;
    assert(modifier_items_view(items@) =~= Seq::<AttributeModifier>::empty());
    while i < count
        invariant
            0 <= c,
            count == c as usize,
            i <= count,
            !panics(read_n(s1, count as nat, modifier_item())),
            read_n(s1, i as nat, modifier_item()) == (
                Ok::<Seq<AttributeModifier>, ErrorView>(modifier_items_view(items@)),
                bytes_data(*src),
            ),
            modifier_list_spec(bytes_data(*old(src))) == read_n(s1, count as nat, modifier_item()),
        decreases count - i,
    {
        proof {
            if panics(modifier_item_spec(bytes_data(*src))) {
                lemma_read_n_err(s1, (i + 1) as nat, count as nat, modifier_item());
            }
        }
        let x = match decode_modifier_item(src) {
            Ok(x) => x,
            Err(e) => {
                proof {
                    lemma_read_n_err(s1, (i + 1) as nat, count as nat, modifier_item());
                }
                return Err(e);
            },
        };
        let ghost before = items@;
        items.push(x);
        assert(modifier_items_view(items@) =~= modifier_items_view(before).push(x));
        i += 1;
    }
    Ok(items)
}

fn encode_modifier_list(v: &Vec<AttributeModifier>, dst: &mut BytesMut)
    ensures
        bytes_mut_data(*final(dst)) == bytes_mut_data(*old(dst)) + modifier_list_wire(modifier_items_view(v@)),
{
    let _ = VarInt(v.len() as i32).encode(dst);
    let ghost d0 = bytes_mut_data(*dst);
    let ghost xs = modifier_items_view(v@);
    let mut i: usize = 0;
    assert(xs.take(0) =~= Seq::<AttributeModifier>::empty());
    assert(d0 + write_all(xs.take(0), modifier_piece()) =~= d0);
    while i < v.len()
        invariant
            xs == modifier_items_view(v@),
            i <= v.len(),
            bytes_mut_data(*dst) == d0 + write_all(xs.take(i as int), modifier_piece()),
        decreases v.len() - i,
    {
        encode_modifier_item(&v[i], dst);
        assert(xs.take(i as int + 1).drop_last() =~= xs.take(i as int));
        assert(bytes_mut_data(*dst) =~= d0 + write_all(xs.take(i as int + 1), modifier_piece()));
        i += 1;
    }
    assert(xs.take(v.len() as int) =~= xs);
    assert(bytes_mut_data(*dst) =~= bytes_mut_data(*old(dst)) + modifier_list_wire(xs));
}

pub proof fn lemma_modifier_list_roundtrip(xs: Seq<AttributeModifier>, rest: Seq<u8>)
    requires
        modifier_list_fits(xs),
    ensures
        modifier_list_spec(modifier_list_wire(xs) + rest) == (Ok::<Seq<AttributeModifier>, ErrorView>(xs), rest),
{
    let body = write_all(xs, modifier_piece()) + rest;
    assert(modifier_list_wire(xs) + rest =~= VarInt::spec_encode(VarInt(xs.len() as i32)) + body);
    VarInt::lemma_roundtrip(VarInt(xs.len() as i32), body);
    assert forall|x: AttributeModifier, r: Seq<u8>| modifier_item_fits(x) implies #[trigger] modifier_item()(
        modifier_piece()(x) + r,
    ) == (Ok::<AttributeModifier, ErrorView>(x), r) by {
        lemma_modifier_item_roundtrip(x, r);
    }
    lemma_read_write_n(xs, rest, modifier_item(), modifier_piece(), |x: AttributeModifier| modifier_item_fits(x));
}

/// The view of each attribute in turn.
pub open spec fn attribute_items_view(v: Seq<Attribute>) -> Seq<AttributeView> {
    v.map_values(|x: Attribute| x@)
}

/// Reading one attribute.
pub open spec fn attribute_item_spec(t: Seq<u8>) -> Parsed<AttributeView> {
    then(str_spec(t, "attribute key"@), |key: Seq<char>, t: Seq<u8>| then(need_spec(t, 8), |_u: (), t: Seq<u8>| then(take_u64(t), |value: u64, t: Seq<u8>| then(modifier_list_spec(t), |modifiers: Seq<AttributeModifier>, t: Seq<u8>| (Ok(AttributeView { key, value, modifiers }), t)))))
}

/// The bytes of one attribute.
pub open spec fn attribute_item_wire(x: AttributeView) -> Seq<u8> {
    string_wire(x.key) + be_u64_bytes(x.value) + modifier_list_wire(x.modifiers)
}

/// The attributes that read back.
pub open spec fn attribute_item_fits(x: AttributeView) -> bool {
    string_fits(x.key) && modifier_list_fits(x.modifiers)
}

pub open spec fn attribute_item() -> spec_fn(Seq<u8>) -> Parsed<AttributeView> {
    |t: Seq<u8>| attribute_item_spec(t)
}

pub open spec fn attribute_piece() -> spec_fn(AttributeView) -> Seq<u8> {
    |x: AttributeView| attribute_item_wire(x)
}

fn decode_attribute_item(src: &mut Bytes) -> (r: Result<Attribute, ProtocolError>)
    requires
        !panics(attribute_item_spec(bytes_data(*old(src)))),
    ensures
        attribute_item_spec(bytes_data(*old(src))) == (
            match r {
                Ok(x) => Ok(x@),
                Err(e) => Err(e@),
            },
            bytes_data(*final(src)),
        ),
{
    let key = decode_str(src, "attribute key")?;
    need(src, 8)?;
    let value = get_u64(src);
    let modifiers = decode_modifier_list(src)?;
    proof {
        assert(modifier_items_view(modifiers@) =~= modifiers@);
    }
    Ok(Attribute { key, value, modifiers })
}

fn encode_attribute_item(x: &Attribute, dst: &mut BytesMut)
    ensures
        bytes_mut_data(*final(dst)) == bytes_mut_data(*old(dst)) + attribute_item_wire(x@),
{
    let ghost d0 = bytes_mut_data(*dst);
    encode_str(x.key.as_str(), dst);
    put_u64(dst, x.value);
    encode_modifier_list(&x.modifiers, dst);
    proof {
        assert(modifier_items_view(x.modifiers@) =~= x.modifiers@);
        lemma_concat_associative(d0, string_wire(x.key@), be_u64_bytes(x.value));
        lemma_concat_associative(d0, string_wire(x.key@) + be_u64_bytes(x.value), modifier_list_wire(x.modifiers@));
    }
}

proof fn lemma_attribute_item_roundtrip(x: AttributeView, rest: Seq<u8>)
    requires
        attribute_item_fits(x),
    ensures
        attribute_item_spec(attribute_item_wire(x) + rest) == (Ok::<AttributeView, ErrorView>(x), rest),
{
    broadcast use group_wire_roundtrip;

    let e0 = string_wire(x.key);
    let e1 = be_u64_bytes(x.value);
    let e2 = modifier_list_wire(x.modifiers);
    lemma_concat_associative(e0 + e1, e2, rest);
    lemma_concat_associative(e0, e1, e2 + rest);
    lemma_string_roundtrip(x.key, e1 + (e2 + rest), missing_for("attribute key"@), invalid_in("attribute key"@));
    lemma_modifier_list_roundtrip(x.modifiers, rest);
}

/// A count, then that many attributes. A negative count asks for an
/// allocation that cannot be made.
pub open spec fn attribute_list_spec(s: Seq<u8>) -> Parsed<Seq<AttributeView>> {
    then(
        take_i32(s),
        |c: i32, s: Seq<u8>|
            if c < 0 {
                (Err(ErrorView::Panic), s)
            } else {
                read_n(s, c as nat, attribute_item())
            },
    )
}

/// The bytes of a list of attributes: the count, then each one.
pub open spec fn attribute_list_wire(xs: Seq<AttributeView>) -> Seq<u8> {
    be_i32_bytes(xs.len() as i32) + write_all(xs, attribute_piece())
}

/// The lists of attributes that read back.
pub open spec fn attribute_list_fits(xs: Seq<AttributeView>) -> bool {
    xs.len() <= i32::MAX && forall|i: int| 0 <= i < xs.len() ==> attribute_item_fits(#[trigger] xs[i])
}

fn decode_attribute_list(src: &mut Bytes) -> (r: Result<Vec<Attribute>, ProtocolError>)
    requires
        !panics(attribute_list_spec(bytes_data(*old(src)))),
    ensures
        attribute_list_spec(bytes_data(*old(src))) == (
            match r {
                Ok(v) => Ok(attribute_items_view(v@)),
                Err(e) => Err(e@),
            },
            bytes_data(*final(src)),
        ),
{
    let c = get_i32(src);
    let count = c as usize;
    let ghost s1 = bytes_data(*src);
    let mut items: Vec<Attribute> = Vec::new();
    let mut i: usize = 0;
    assert(attribute_items_view(items@) =~= Seq::<AttributeView>::empty());
    while i < count
        invariant
            0 <= c,
            count == c as usize,
            i <= count,
            !panics(read_n(s1, count as nat, attribute_item())),
            read_n(s1, i as nat, attribute_item()) == (
                Ok::<Seq<AttributeView>, ErrorView>(attribute_items_view(items@)),
                bytes_data(*src),
            ),
            attribute_list_spec(bytes_data(*old(src))) == read_n(s1, count as nat, attribute_item()),
        decreases count - i,
    {
        proof {
            if panics(attribute_item_spec(bytes_data(*src))) {
                lemma_read_n_err(s1, (i + 1) as nat, count as nat, attribute_item());
            }
        }
        let x = match decode_attribute_item(src) {
            Ok(x) => x,
            Err(e) => {
                proof {
                    lemma_read_n_err(s1, (i + 1) as nat, count as nat, attribute_item());
                }
                return Err(e);
            },
        };
        let ghost before = items@;
        items.push(x);
        assert(attribute_items_view(items@) =~= attribute_items_view(before).push(x@));
        i += 1;
    }
    Ok(items)
}

fn encode_attribute_list(v: &Vec<Attribute>, dst: &mut BytesMut)
    ensures
        bytes_mut_data(*final(dst)) == bytes_mut_data(*old(dst)) + attribute_list_wire(attribute_items_view(v@)),
{
    put_i32(dst, v.len() as i32);
    let ghost d0 = bytes_mut_data(*dst);
    let ghost xs = attribute_items_view(v@);
    let mut i: usize = 0;
    assert(xs.take(0) =~= Seq::<AttributeView>::empty());
    assert(d0 + write_all(xs.take(0), attribute_piece()) =~= d0);
    while i < v.len()
        invariant
            xs == attribute_items_view(v@),
            i <= v.len(),
            bytes_mut_data(*dst) == d0 + write_all(xs.take(i as int), attribute_piece()),
        decreases v.len() - i,
    {
        encode_attribute_item(&v[i], dst);
        assert(xs.take(i as int + 1).drop_last() =~= xs.take(i as int));
        assert(bytes_mut_data(*dst) =~= d0 + write_all(xs.take(i as int + 1), attribute_piece()));
        i += 1;
    }
    assert(xs.take(v.len() as int) =~= xs);
    assert(bytes_mut_data(*dst) =~= bytes_mut_data(*old(dst)) + attribute_list_wire(xs));
}

pub proof fn lemma_attribute_list_roundtrip(xs: Seq<AttributeView>, rest: Seq<u8>)
    requires
        attribute_list_fits(xs),
    ensures
        attribute_list_spec(attribute_list_wire(xs) + rest) == (Ok::<Seq<AttributeView>, ErrorView>(xs), rest),
{
    let body = write_all(xs, attribute_piece()) + rest;
    assert(attribute_list_wire(xs) + rest =~= be_i32_bytes(xs.len() as i32) + body);
    crate::wire::lemma_take_i32(xs.len() as i32, body);
    assert forall|x: AttributeView, r: Seq<u8>| attribute_item_fits(x) implies #[trigger] attribute_item()(
        attribute_piece()(x) + r,
    ) == (Ok::<AttributeView, ErrorView>(x), r) by {
        lemma_attribute_item_roundtrip(x, r);
    }
    lemma_read_write_n(xs, rest, attribute_item(), attribute_piece(), |x: AttributeView| attribute_item_fits(x));
}

// ── ClientboundUpdateAttributes ───────────────────────────────────────

#[derive(Debug, Clone, PartialEq)]
pub struct ClientboundUpdateAttributes {
    pub entity_id: VarInt,
    pub attributes: Vec<Attribute>,
}

pub struct ClientboundUpdateAttributesView {
    pub entity_id: VarInt,
    pub attributes: Seq<AttributeView>,
}

impl View for ClientboundUpdateAttributes {
    type V = ClientboundUpdateAttributesView;

    open spec fn view(&self) -> ClientboundUpdateAttributesView {
        ClientboundUpdateAttributesView {
            entity_id: self.entity_id,
            attributes: attribute_items_view(self.attributes@),
        }
    }
}

impl PacketId for ClientboundUpdateAttributes {
    open spec fn spec_packet_id(ver: u32) -> u8 {
        0x4E
    }

    fn packet_id(_ver: u32) -> (r: u8) {
        0x4E
    }
}

impl WireFormat for ClientboundUpdateAttributes {
    open spec fn spec_encode(p: ClientboundUpdateAttributesView) -> Seq<u8> {
        VarInt::spec_encode(p.entity_id) + attribute_list_wire(p.attributes)
    }

    open spec fn spec_decode(s: Seq<u8>) -> Parsed<ClientboundUpdateAttributesView> {
        then(VarInt::spec_decode(s), |entity_id: VarInt, s: Seq<u8>| then(need_spec(s, 4), |_u: (), s: Seq<u8>| then(attribute_list_spec(s), |attributes: Seq<AttributeView>, s: Seq<u8>| (Ok(ClientboundUpdateAttributesView { entity_id, attributes }), s))))
    }
}

impl Roundtrip for ClientboundUpdateAttributes {
    open spec fn encodable(p: ClientboundUpdateAttributesView) -> bool {
        attribute_list_fits(p.attributes)
    }

    open spec fn reads_to_end() -> bool {
        false
    }

    proof fn lemma_roundtrip(p: ClientboundUpdateAttributesView, rest: Seq<u8>) {
        broadcast use group_wire_roundtrip;

        let t1 = attribute_list_wire(p.attributes) + rest;
        lemma_concat_associative(VarInt::spec_encode(p.entity_id), attribute_list_wire(p.attributes), rest);
        VarInt::lemma_roundtrip(p.entity_id, t1);
        lemma_attribute_list_roundtrip(p.attributes, rest);
    }
}

impl Encode for ClientboundUpdateAttributes {
    fn encode(&self, dst: &mut BytesMut) -> (r: Result<(), ProtocolError>) {
        let ghost d0 = bytes_mut_data(*dst);
        let _ = self.entity_id.encode(dst);
        let ghost mut e: Seq<u8> = VarInt::spec_encode(self@.entity_id);
        encode_attribute_list(&self.attributes, dst);
        proof {
            lemma_concat_associative(d0, e, attribute_list_wire(self@.attributes));
            e = e + attribute_list_wire(self@.attributes);
        }
        Ok(())
    }
}

impl Decode for ClientboundUpdateAttributes {
    fn decode(src: &mut Bytes) -> (r: Result<Self, ProtocolError>) {
        let entity_id = VarInt::decode(src)?;
        need(src, 4)?;
        let attributes = decode_attribute_list(src)?;
        Ok(Self { entity_id, attributes })
    }
}
/// The view of each map icon in turn.
pub open spec fn icon_items_view(v: Seq<(u8, i8, i8)>) -> Seq<(u8, i8, i8)> {
    v.map_values(|x: (u8, i8, i8)| x)
}

/// Reading one map icon.
pub open spec fn icon_item_spec(t: Seq<u8>) -> Parsed<(u8, i8, i8)> {
    then(need_spec(t, 3), |_u: (), t: Seq<u8>| then(take_u8(t), |d: u8, t: Seq<u8>| then(take_i8(t), |a: i8, t: Seq<u8>| then(take_i8(t), |b: i8, t: Seq<u8>| (Ok((d, a, b)), t)))))
}

/// The bytes of one map icon.
pub open spec fn icon_item_wire(x: (u8, i8, i8)) -> Seq<u8> {
    seq![x.0, x.1 as u8, x.2 as u8]
}

/// The map icons that read back.
pub open spec fn icon_item_fits(x: (u8, i8, i8)) -> bool {
    true
}

pub open spec fn icon_item() -> spec_fn(Seq<u8>) -> Parsed<(u8, i8, i8)> {
    |t: Seq<u8>| icon_item_spec(t)
}

pub open spec fn icon_piece() -> spec_fn((u8, i8, i8)) -> Seq<u8> {
    |x: (u8, i8, i8)| icon_item_wire(x)
}

fn decode_icon_item(src: &mut Bytes) -> (r: Result<(u8, i8, i8), ProtocolError>)
    requires
        !panics(icon_item_spec(bytes_data(*old(src)))),
    ensures
        icon_item_spec(bytes_data(*old(src))) == (
            match r {
                Ok(x) => Ok(x),
                Err(e) => Err(e@),
            },
            bytes_data(*final(src)),
        ),
{
    need(src, 3)?;
    let d = get_u8(src);
    let a = get_i8(src);
    let b = get_i8(src);
    Ok((d, a, b))
}

fn encode_icon_item(x: &(u8, i8, i8), dst: &mut BytesMut)
    ensures
        bytes_mut_data(*final(dst)) == bytes_mut_data(*old(dst)) + icon_item_wire(*x),
{
    let ghost d0 = bytes_mut_data(*dst);
    put_u8(dst, x.0);
    put_i8(dst, x.1);
    put_i8(dst, x.2);
    assert(bytes_mut_data(*dst) =~= d0 + seq![x.0, x.1 as u8, x.2 as u8]);
}

proof fn lemma_icon_item_roundtrip(x: (u8, i8, i8), rest: Seq<u8>)
    requires
        icon_item_fits(x),
    ensures
        icon_item_spec(icon_item_wire(x) + rest) == (Ok::<(u8, i8, i8), ErrorView>(x), rest),
{
    broadcast use group_wire_roundtrip;

    let s = seq![x.0, x.1 as u8, x.2 as u8] + rest;
    assert(s =~= seq![x.0] + (seq![x.1 as u8] + (seq![x.2 as u8] + rest)));
}

/// A count, then that many map icons. A negative count asks for an
/// allocation that cannot be made.
pub open spec fn icon_list_spec(s: Seq<u8>) -> Parsed<Seq<(u8, i8, i8)>> {
    then(
        take_varint_i32(s),
        |c: i32, s: Seq<u8>|
            if c < 0 {
                (Err(ErrorView::Panic), s)
            } else {
                read_n(s, c as nat, icon_item())
            },
    )
}

/// The bytes of a list of map icons: the count, then each one.
pub open spec fn icon_list_wire(xs: Seq<(u8, i8, i8)>) -> Seq<u8> {
    VarInt::spec_encode(VarInt(xs.len() as i32)) + write_all(xs, icon_piece())
}

/// The lists of map icons that read back.
pub open spec fn icon_list_fits(xs: Seq<(u8, i8, i8)>) -> bool {
    xs.len() <= i32::MAX && forall|i: int| 0 <= i < xs.len() ==> icon_item_fits(#[trigger] xs[i])
}

fn decode_icon_list(src: &mut Bytes) -> (r: Result<Vec<(u8, i8, i8)>, ProtocolError>)
    requires
        !panics(icon_list_spec(bytes_data(*old(src)))),
    ensures
        icon_list_spec(bytes_data(*old(src))) == (
            match r {
                Ok(v) => Ok(icon_items_view(v@)),
                Err(e) => Err(e@),
            },
            bytes_data(*final(src)),
        ),
{
    let c = VarInt::decode(src)?.0;
    let count = c as usize;
    let ghost s1 = bytes_data(*src);
    let mut items: Vec<(u8, i8, i8)> = Vec::new();
    let mut i: usize = 0;
    assert(icon_items_view(items@) =~= Seq::<(u8, i8, i8)>::empty());
    while i < count
        invariant
            0 <= c,
            count == c as usize,
            i <= count,
            !panics(read_n(s1, count as nat, icon_item())),
            read_n(s1, i as nat, icon_item()) == (
                Ok::<Seq<(u8, i8, i8)>, ErrorView>(icon_items_view(items@)),
                bytes_data(*src),
            ),
            icon_list_spec(bytes_data(*old(src))) == read_n(s1, count as nat, icon_item()),
        decreases count - i,
    {
        proof {
            if panics(icon_item_spec(bytes_data(*src))) {
                lemma_read_n_err(s1, (i + 1) as nat, count as nat, icon_item());
            }
        }
        let x = match decode_icon_item(src) {
            Ok(x) => x,
            Err(e) => {
                proof {
                    lemma_read_n_err(s1, (i + 1) as nat, count as nat, icon_item());
                }
                return Err(e);
            },
        };
        let ghost before = items@;
        items.push(x);
        assert(icon_items_view(items@) =~= icon_items_view(before).push(x));
        i += 1;
    }
    Ok(items)
}

fn encode_icon_list(v: &Vec<(u8, i8, i8)>, dst: &mut BytesMut)
    ensures
        bytes_mut_data(*final(dst)) == bytes_mut_data(*old(dst)) + icon_list_wire(icon_items_view(v@)),
{
    let _ = VarInt(v.len() as i32).encode(dst);
    let ghost d0 = bytes_mut_data(*dst);
    let ghost xs = icon_items_view(v@);
    let mut i: usize = 0;
    assert(xs.take(0) =~= Seq::<(u8, i8, i8)>::empty());
    assert(d0 + write_all(xs.take(0), icon_piece()) =~= d0);
    while i < v.len()
        invariant
            xs == icon_items_view(v@),
            i <= v.len(),
            bytes_mut_data(*dst) == d0 + write_all(xs.take(i as int), icon_piece()),
        decreases v.len() - i,
    {
        encode_icon_item(&v[i], dst);
        assert(xs.take(i as int + 1).drop_last() =~= xs.take(i as int));
        assert(bytes_mut_data(*dst) =~= d0 + write_all(xs.take(i as int + 1), icon_piece()));
        i += 1;
    }
    assert(xs.take(v.len() as int) =~= xs);
    assert(bytes_mut_data(*dst) =~= bytes_mut_data(*old(dst)) + icon_list_wire(xs));
}

pub proof fn lemma_icon_list_roundtrip(xs: Seq<(u8, i8, i8)>, rest: Seq<u8>)
    requires
        icon_list_fits(xs),
    ensures
        icon_list_spec(icon_list_wire(xs) + rest) == (Ok::<Seq<(u8, i8, i8)>, ErrorView>(xs), rest),
{
    let body = write_all(xs, icon_piece()) + rest;
    assert(icon_list_wire(xs) + rest =~= VarInt::spec_encode(VarInt(xs.len() as i32)) + body);
    VarInt::lemma_roundtrip(VarInt(xs.len() as i32), body);
    assert forall|x: (u8, i8, i8), r: Seq<u8>| icon_item_fits(x) implies #[trigger] icon_item()(
        icon_piece()(x) + r,
    ) == (Ok::<(u8, i8, i8), ErrorView>(x), r) by {
        lemma_icon_item_roundtrip(x, r);
    }
    lemma_read_write_n(xs, rest, icon_item(), icon_piece(), |x: (u8, i8, i8)| icon_item_fits(x));
}

// ── ClientboundMapItemData ───────────────────────────────────────────

#[derive(Debug, Clone, PartialEq)]
pub struct ClientboundMapItemData {
    pub map_id: VarInt,
    pub scale: u8,
    pub tracking_position: bool,
    pub icons: Vec<(u8, i8, i8)>,
    pub columns: u8,
    pub data: Vec<u8>,
}

pub struct ClientboundMapItemDataView {
    pub map_id: VarInt,
    pub scale: u8,
    pub tracking_position: bool,
    pub icons: Seq<(u8, i8, i8)>,
    pub columns: u8,
    pub data: Seq<u8>,
}

impl View for ClientboundMapItemData {
    type V = ClientboundMapItemDataView;

    open spec fn view(&self) -> ClientboundMapItemDataView {
        ClientboundMapItemDataView {
            map_id: self.map_id,
            scale: self.scale,
            tracking_position: self.tracking_position,
            icons: icon_items_view(self.icons@),
            columns: self.columns,
            data: self.data@,
        }
    }
}

impl PacketId for ClientboundMapItemData {
    open spec fn spec_packet_id(ver: u32) -> u8 {
        0x24
    }

    fn packet_id(_ver: u32) -> (r: u8) {
        0x24
    }
}

/// The bytes of the map's pixel update: none when `columns` is 0, else a
/// row count (the low byte of the data's length), two zero offsets, and
/// the data with its VarInt length.
pub open spec fn map_data_wire(columns: u8, data: Seq<u8>) -> Seq<u8> {
    if columns > 0 {
        seq![data.len() as u8, 0u8, 0u8] + VarInt::spec_encode(VarInt(data.len() as i32)) + data
    } else {
        Seq::<u8>::empty()
    }
}

/// Reading the pixel update: when `columns` is not 0, the rows and the two
/// offsets are read and dropped, then the counted data is kept.
pub open spec fn map_data_spec(columns: u8, s: Seq<u8>) -> Parsed<Seq<u8>> {
    if columns > 0 {
        then(
            need_spec(s, 3),
            |_u: (), s: Seq<u8>|
                then(
                    take_u8(s),
                    |_rows: u8, s: Seq<u8>|
                        then(
                            take_i8(s),
                            |_x: i8, s: Seq<u8>|
                                then(
                                    take_i8(s),
                                    |_z: i8, s: Seq<u8>|
                                        then(
                                            VarInt::spec_decode(s),
                                            |len: VarInt, s: Seq<u8>|
                                                then(
                                                    need_spec(s, len.0 as usize),
                                                    |_u: (), s: Seq<u8>|
                                                        (Ok(s.take(len.0 as usize as int)), s.skip(len.0 as usize as int)),
                                                ),
                                        ),
                                ),
                        ),
                ),
        )
    } else {
        (Ok(Seq::<u8>::empty()), s)
    }
}

fn decode_map_data(columns: u8, src: &mut Bytes) -> (r: Result<Vec<u8>, ProtocolError>)
    requires
        !panics(map_data_spec(columns, bytes_data(*old(src)))),
    ensures
        map_data_spec(columns, bytes_data(*old(src))) == (result_view(r), bytes_data(*final(src))),
{
    if columns > 0 {
        need(src, 3)?;
        let _rows = get_u8(src);
        let _x = get_i8(src);
        let _z = get_i8(src);
        let len = VarInt::decode(src)?.0 as usize;
        need(src, len)?;
        let mut d = vec![0u8; len];
        copy_to_slice(src, &mut d);
        Ok(d)
    } else {
        Ok(vec![])
    }
}

fn encode_map_data(columns: u8, data: &Vec<u8>, dst: &mut BytesMut)
    ensures
        bytes_mut_data(*final(dst)) == bytes_mut_data(*old(dst)) + map_data_wire(columns, data@),
{
    let ghost d0 = bytes_mut_data(*dst);
    if columns > 0 {
        put_u8(dst, data.len() as u8);
        put_i8(dst, 0);
        put_i8(dst, 0);
        let ghost d3 = bytes_mut_data(*dst);
        let _ = VarInt(data.len() as i32).encode(dst);
        put_slice(dst, data.as_slice());
        proof {
            assert(d3 =~= d0 + seq![data.len() as u8, 0u8, 0u8]);
        }
        assert(bytes_mut_data(*dst) =~= d0 + map_data_wire(columns, data@));
    } else {
        assert(bytes_mut_data(*dst) =~= d0 + map_data_wire(columns, data@));
    }
}

/// Data that its VarInt length can count, and none when `columns` is 0.
pub open spec fn map_data_fits(columns: u8, data: Seq<u8>) -> bool {
    if columns > 0 {
        data.len() <= i32::MAX
    } else {
        data.len() == 0
    }
}

proof fn lemma_map_data_roundtrip(columns: u8, data: Seq<u8>, rest: Seq<u8>)
    requires
        map_data_fits(columns, data),
    ensures
        map_data_spec(columns, map_data_wire(columns, data) + rest) == (Ok::<Seq<u8>, ErrorView>(data), rest),
{
    broadcast use group_wire_roundtrip;

    if columns > 0 {
        let len = VarInt(data.len() as i32);
        let t = data + rest;
        let s = map_data_wire(columns, data) + rest;
        assert(s =~= seq![data.len() as u8] + (seq![0u8 as i8 as u8] + (seq![0u8 as i8 as u8] + (VarInt::spec_encode(len) + t))));
        assert(0u8 as i8 == 0i8);
        VarInt::lemma_roundtrip(len, t);
        assert(t.take(data.len() as int) =~= data);
        assert(t.skip(data.len() as int) =~= rest);
    } else {
        assert(data =~= Seq::<u8>::empty());
        assert(map_data_wire(columns, data) + rest =~= rest);
    }
}

impl WireFormat for ClientboundMapItemData {
    open spec fn spec_encode(p: ClientboundMapItemDataView) -> Seq<u8> {
        VarInt::spec_encode(p.map_id) + seq![p.scale] + seq![bool_byte(p.tracking_position)] + icon_list_wire(p.icons)
            + seq![p.columns] + map_data_wire(p.columns, p.data)
    }

    open spec fn spec_decode(s: Seq<u8>) -> Parsed<ClientboundMapItemDataView> {
        then(
            VarInt::spec_decode(s),
            |map_id: VarInt, s: Seq<u8>|
                then(
                    need_spec(s, 2),
                    |_u: (), s: Seq<u8>|
                        then(
                            take_u8(s),
                            |scale: u8, s: Seq<u8>|
                                then(
                                    take_bool(s),
                                    |tracking_position: bool, s: Seq<u8>|
                                        then(
                                            icon_list_spec(s),
                                            |icons: Seq<(u8, i8, i8)>, s: Seq<u8>|
                                                then(
                                                    need_spec(s, 1),
                                                    |_u: (), s: Seq<u8>|
                                                        then(
                                                            take_u8(s),
                                                            |columns: u8, s: Seq<u8>|
                                                                then(
                                                                    map_data_spec(columns, s),
                                                                    |data: Seq<u8>, s: Seq<u8>|
                                                                        (
                                                                            Ok(
                                                                                ClientboundMapItemDataView {
                                                                                    map_id,
                                                                                    scale,
                                                                                    tracking_position,
                                                                                    icons,
                                                                                    columns,
                                                                                    data,
                                                                                },
                                                                            ),
                                                                            s,
                                                                        ),
                                                                ),
                                                        ),
                                                ),
                                        ),
                                ),
                        ),
                ),
        )
    }
}

impl Roundtrip for ClientboundMapItemData {
    /// Icon lists that their count can hold, and data only when `columns`
    /// is not 0 (decoding reads none otherwise).
    open spec fn encodable(p: ClientboundMapItemDataView) -> bool {
        icon_list_fits(p.icons) && map_data_fits(p.columns, p.data)
    }

    open spec fn reads_to_end() -> bool {
        false
    }

    #[verifier::rlimit(100)]
    #[verifier::spinoff_prover]
    proof fn lemma_roundtrip(p: ClientboundMapItemDataView, rest: Seq<u8>) {
        broadcast use group_wire_roundtrip;

        let e0 = VarInt::spec_encode(p.map_id);
        let e1 = seq![p.scale];
        let e2 = seq![bool_byte(p.tracking_position)];
        let e3 = icon_list_wire(p.icons);
        let e4 = seq![p.columns];
        let e5 = map_data_wire(p.columns, p.data);
        let t5 = e5 + rest;
        let t4 = e4 + t5;
        let t3 = e3 + t4;
        let t2 = e2 + t3;
        let t1 = e1 + t2;
        lemma_concat_associative(e0 + e1 + e2 + e3 + e4, e5, rest);
        lemma_concat_associative(e0 + e1 + e2 + e3, e4, t5);
        lemma_concat_associative(e0 + e1 + e2, e3, t4);
        lemma_concat_associative(e0 + e1, e2, t3);
        lemma_concat_associative(e0, e1, t2);
        VarInt::lemma_roundtrip(p.map_id, t1);
        assert(t1.len() >= 2);
        lemma_icon_list_roundtrip(p.icons, t4);
        lemma_map_data_roundtrip(p.columns, p.data, rest);
    }
}

impl Encode for ClientboundMapItemData {
    fn encode(&self, dst: &mut BytesMut) -> (r: Result<(), ProtocolError>) {
        let ghost d0 = bytes_mut_data(*dst);
        let _ = self.map_id.encode(dst);
        put_u8(dst, self.scale);
        put_u8(dst, self.tracking_position as u8);
        let ghost d3 = bytes_mut_data(*dst);
        encode_icon_list(&self.icons, dst);
        let ghost d4 = bytes_mut_data(*dst);
        put_u8(dst, self.columns);
        encode_map_data(self.columns, &self.data, dst);
        proof {
            let e0 = VarInt::spec_encode(self.map_id);
            let e1 = seq![self.scale];
            let e2 = seq![bool_byte(self.tracking_position)];
            let e3 = icon_list_wire(icon_items_view(self.icons@));
            let e4 = seq![self.columns];
            let e5 = map_data_wire(self.columns, self.data@);
            assert(d3 =~= d0 + (e0 + e1 + e2));
            assert(d4 =~= d0 + (e0 + e1 + e2 + e3));
            assert(bytes_mut_data(*dst) =~= d0 + (e0 + e1 + e2 + e3 + e4 + e5));
        }
        Ok(())
    }
}

impl Decode for ClientboundMapItemData {
    fn decode(src: &mut Bytes) -> (r: Result<Self, ProtocolError>) {
        let map_id = VarInt::decode(src)?;
        need(src, 2)?;
        let scale = get_u8(src);
        let tracking_position = get_u8(src) != 0;
        let icons = decode_icon_list(src)?;
        need(src, 1)?;
        let columns = get_u8(src);
        let data = decode_map_data(columns, src)?;
        Ok(Self { map_id, scale, tracking_position, icons, columns, data })
    }
}

/// Reading one particle argument.
pub open spec fn particle_arg_item_spec(t: Seq<u8>) -> Parsed<VarInt> {
    VarInt::spec_decode(t)
}

/// The bytes of one particle argument.
pub open spec fn particle_arg_item_wire(x: VarInt) -> Seq<u8> {
    VarInt::spec_encode(x)
}

/// The particle arguments that read back.
pub open spec fn particle_arg_item_fits(x: VarInt) -> bool {
    true
}

pub open spec fn particle_arg_item() -> spec_fn(Seq<u8>) -> Parsed<VarInt> {
    |t: Seq<u8>| particle_arg_item_spec(t)
}

pub open spec fn particle_arg_piece() -> spec_fn(VarInt) -> Seq<u8> {
    |x: VarInt| particle_arg_item_wire(x)
}

fn decode_particle_arg_item(src: &mut Bytes) -> (r: Result<VarInt, ProtocolError>)
    requires
        !panics(particle_arg_item_spec(bytes_data(*old(src)))),
    ensures
        particle_arg_item_spec(bytes_data(*old(src))) == (
            match r {
                Ok(x) => Ok(x),
                Err(e) => Err(e@),
            },
            bytes_data(*final(src)),
        ),
{
    VarInt::decode(src)
}

fn encode_particle_arg_item(x: &VarInt, dst: &mut BytesMut)
    ensures
        bytes_mut_data(*final(dst)) == bytes_mut_data(*old(dst)) + particle_arg_item_wire(*x),
{
    let _ = x.encode(dst);
}

proof fn lemma_particle_arg_item_roundtrip(x: VarInt, rest: Seq<u8>)
    requires
        particle_arg_item_fits(x),
    ensures
        particle_arg_item_spec(particle_arg_item_wire(x) + rest) == (Ok::<VarInt, ErrorView>(x), rest),
{
    VarInt::lemma_roundtrip(x, rest);
}

// ── ClientboundLevelParticles ────────────────────────────────────────

#[derive(Debug, Clone, PartialEq)]
pub struct ClientboundLevelParticles {
    pub particle_id: i32,
    pub long_distance: bool,
    /// The bits of the `f32` value (`f32::to_bits`).
    pub x: u32,
    /// The bits of the `f32` value (`f32::to_bits`).
    pub y: u32,
    /// The bits of the `f32` value (`f32::to_bits`).
    pub z: u32,
    /// The bits of the `f32` value (`f32::to_bits`).
    pub offset_x: u32,
    /// The bits of the `f32` value (`f32::to_bits`).
    pub offset_y: u32,
    /// The bits of the `f32` value (`f32::to_bits`).
    pub offset_z: u32,
    /// The bits of the `f32` value (`f32::to_bits`).
    pub particle_data: u32,
    pub particle_count: i32,
    pub data: Vec<VarInt>,
}

pub struct ClientboundLevelParticlesView {
    pub particle_id: i32,
    pub long_distance: bool,
    pub x: u32,
    pub y: u32,
    pub z: u32,
    pub offset_x: u32,
    pub offset_y: u32,
    pub offset_z: u32,
    pub particle_data: u32,
    pub particle_count: i32,
    pub data: Seq<VarInt>,
}

impl View for ClientboundLevelParticles {
    type V = ClientboundLevelParticlesView;

    open spec fn view(&self) -> ClientboundLevelParticlesView {
        ClientboundLevelParticlesView {
            particle_id: self.particle_id,
            long_distance: self.long_distance,
            x: self.x,
            y: self.y,
            z: self.z,
            offset_x: self.offset_x,
            offset_y: self.offset_y,
            offset_z: self.offset_z,
            particle_data: self.particle_data,
            particle_count: self.particle_count,
            data: self.data@,
        }
    }
}

impl PacketId for ClientboundLevelParticles {
    open spec fn spec_packet_id(ver: u32) -> u8 {
        0x22
    }

    fn packet_id(_ver: u32) -> (r: u8) {
        0x22
    }
}

/// How many VarInt arguments a particle carries: two for particle 36,
/// one for 37 and 38, none for the others.
pub open spec fn particle_arg_count(particle_id: i32) -> nat {
    if particle_id == 36 {
        2
    } else if particle_id == 37 || particle_id == 38 {
        1
    } else {
        0
    }
}

/// The seven `f32` bit patterns of the position, offsets and particle
/// data, in that order.
pub open spec fn particle_floats_spec(s: Seq<u8>) -> Parsed<(u32, u32, u32, u32, u32, u32, u32)> {
    then(
        take_u32(s),
        |x: u32, s: Seq<u8>|
            then(
                take_u32(s),
                |y: u32, s: Seq<u8>|
                    then(
                        take_u32(s),
                        |z: u32, s: Seq<u8>|
                            then(
                                take_u32(s),
                                |a: u32, s: Seq<u8>|
                                    then(
                                        take_u32(s),
                                        |b: u32, s: Seq<u8>|
                                            then(
                                                take_u32(s),
                                                |c: u32, s: Seq<u8>|
                                                    then(take_u32(s), |d: u32, s: Seq<u8>| (Ok((x, y, z, a, b, c, d)), s)),
                                            ),
                                    ),
                            ),
                    ),
            ),
    )
}

/// The seven `f32` bit patterns, each big-endian.
pub open spec fn particle_floats_wire(p: ClientboundLevelParticlesView) -> Seq<u8> {
    be_u32_bytes(p.x) + (be_u32_bytes(p.y) + (be_u32_bytes(p.z) + (be_u32_bytes(p.offset_x) + (be_u32_bytes(
        p.offset_y,
    ) + (be_u32_bytes(p.offset_z) + be_u32_bytes(p.particle_data))))))
}

/// The packet's bytes: the fixed fields, then the first arguments, as many
/// as the particle carries (or fewer, when `data` is shorter).
pub open spec fn particles_wire(p: ClientboundLevelParticlesView) -> Seq<u8> {
    let n = particle_arg_count(p.particle_id);
    let k = if n <= p.data.len() { n } else { p.data.len() };
    be_i32_bytes(p.particle_id) + (seq![bool_byte(p.long_distance)] + (particle_floats_wire(p) + (be_i32_bytes(
        p.particle_count,
    ) + write_all(p.data.take(k as int), particle_arg_piece()))))
}

/// Reading the arguments after the fixed fields of `p`.
pub open spec fn particles_data_spec(p: ClientboundLevelParticlesView, s: Seq<u8>) -> Parsed<ClientboundLevelParticlesView> {
    then(
        read_n(s, particle_arg_count(p.particle_id), particle_arg_item()),
        |data: Seq<VarInt>, s: Seq<u8>|
            (
                Ok(
                    ClientboundLevelParticlesView {
                        particle_id: p.particle_id,
                        long_distance: p.long_distance,
                        x: p.x,
                        y: p.y,
                        z: p.z,
                        offset_x: p.offset_x,
                        offset_y: p.offset_y,
                        offset_z: p.offset_z,
                        particle_data: p.particle_data,
                        particle_count: p.particle_count,
                        data,
                    },
                ),
                s,
            ),
    )
}

proof fn lemma_particle_floats(p: ClientboundLevelParticlesView, t: Seq<u8>)
    ensures
        particle_floats_spec(particle_floats_wire(p) + t) == (Ok::<(u32, u32, u32, u32, u32, u32, u32), ErrorView>(
            (p.x, p.y, p.z, p.offset_x, p.offset_y, p.offset_z, p.particle_data),
        ), t),
{
    broadcast use group_wire_roundtrip;

    let e6 = be_u32_bytes(p.particle_data);
    let e5 = be_u32_bytes(p.offset_z) + e6;
    let e4 = be_u32_bytes(p.offset_y) + e5;
    let e3 = be_u32_bytes(p.offset_x) + e4;
    let e2 = be_u32_bytes(p.z) + e3;
    let e1 = be_u32_bytes(p.y) + e2;
    lemma_concat_associative(be_u32_bytes(p.x), e1, t);
    lemma_concat_associative(be_u32_bytes(p.y), e2, t);
    lemma_concat_associative(be_u32_bytes(p.z), e3, t);
    lemma_concat_associative(be_u32_bytes(p.offset_x), e4, t);
    lemma_concat_associative(be_u32_bytes(p.offset_y), e5, t);
    lemma_concat_associative(be_u32_bytes(p.offset_z), e6, t);
}

impl WireFormat for ClientboundLevelParticles {
    open spec fn spec_encode(p: ClientboundLevelParticlesView) -> Seq<u8> {
        particles_wire(p)
    }

    open spec fn spec_decode(s: Seq<u8>) -> Parsed<ClientboundLevelParticlesView> {
        then(
            need_spec(s, 37),
            |_u: (), s: Seq<u8>|
                then(
                    take_i32(s),
                    |particle_id: i32, s: Seq<u8>|
                        then(
                            take_bool(s),
                            |long_distance: bool, s: Seq<u8>|
                                then(
                                    particle_floats_spec(s),
                                    |f: (u32, u32, u32, u32, u32, u32, u32), s: Seq<u8>|
                                        then(
                                            take_i32(s),
                                            |particle_count: i32, s: Seq<u8>|
                                                particles_data_spec(
                                                    ClientboundLevelParticlesView {
                                                        particle_id,
                                                        long_distance,
                                                        x: f.0,
                                                        y: f.1,
                                                        z: f.2,
                                                        offset_x: f.3,
                                                        offset_y: f.4,
                                                        offset_z: f.5,
                                                        particle_data: f.6,
                                                        particle_count,
                                                        data: Seq::<VarInt>::empty(),
                                                    },
                                                    s,
                                                ),
                                        ),
                                ),
                        ),
                ),
        )
    }
}

impl Roundtrip for ClientboundLevelParticles {
    /// Exactly as many arguments as the particle carries.
    open spec fn encodable(p: ClientboundLevelParticlesView) -> bool {
        p.data.len() == particle_arg_count(p.particle_id)
    }

    open spec fn reads_to_end() -> bool {
        false
    }

    #[verifier::rlimit(100)]
    #[verifier::spinoff_prover]
    proof fn lemma_roundtrip(p: ClientboundLevelParticlesView, rest: Seq<u8>) {
        broadcast use group_wire_roundtrip;

        let d = write_all(p.data, particle_arg_piece());
        assert(p.data.take(p.data.len() as int) =~= p.data);
        let c = be_i32_bytes(p.particle_count) + d;
        let f = particle_floats_wire(p) + c;
        let b = seq![bool_byte(p.long_distance)] + f;
        lemma_concat_associative(be_i32_bytes(p.particle_id), b, rest);
        lemma_concat_associative(seq![bool_byte(p.long_distance)], f, rest);
        lemma_concat_associative(particle_floats_wire(p), c, rest);
        lemma_concat_associative(be_i32_bytes(p.particle_count), d, rest);
        assert((be_i32_bytes(p.particle_id) + b + rest).len() >= 37);
        lemma_particle_floats(p, c + rest);
        assert forall|x: VarInt, r: Seq<u8>| particle_arg_item_fits(x) implies #[trigger] particle_arg_item()(
            particle_arg_piece()(x) + r,
        ) == (Ok::<VarInt, ErrorView>(x), r) by {
            lemma_particle_arg_item_roundtrip(x, r);
        }
        lemma_read_write_n(p.data, rest, particle_arg_item(), particle_arg_piece(), |x: VarInt| particle_arg_item_fits(x));
    }
}

impl Encode for ClientboundLevelParticles {
    #[verifier::rlimit(100)]
    #[verifier::spinoff_prover]
    fn encode(&self, dst: &mut BytesMut) -> (r: Result<(), ProtocolError>) {
        let ghost d_start = bytes_mut_data(*dst);
        put_i32(dst, self.particle_id);
        put_u8(dst, self.long_distance as u8);
        put_u32(dst, self.x);
        put_u32(dst, self.y);
        put_u32(dst, self.z);
        put_u32(dst, self.offset_x);
        put_u32(dst, self.offset_y);
        put_u32(dst, self.offset_z);
        put_u32(dst, self.particle_data);
        put_i32(dst, self.particle_count);
        let expected: usize = if self.particle_id == 36 {
            2
        } else if self.particle_id == 37 || self.particle_id == 38 {
            1
        } else {
            0
        };
        let k: usize = if expected <= self.data.len() { expected } else { self.data.len() };
        let ghost d0 = bytes_mut_data(*dst);
        let ghost xs = self.data@;
        let mut i: usize = 0;
        assert(xs.take(0) =~= Seq::<VarInt>::empty());
        assert(d0 + write_all(xs.take(0), particle_arg_piece()) =~= d0);
        while i < k
            invariant
                xs == self.data@,
                k <= self.data.len(),
                i <= k,
                bytes_mut_data(*dst) == d0 + write_all(xs.take(i as int), particle_arg_piece()),
            decreases k - i,
        {
            encode_particle_arg_item(&self.data[i], dst);
            assert(xs.take(i as int + 1).drop_last() =~= xs.take(i as int));
            assert(bytes_mut_data(*dst) =~= d0 + write_all(xs.take(i as int + 1), particle_arg_piece()));
            i += 1;
        }
        proof {
            let n = particle_arg_count(self.particle_id);
            assert(k == (if n <= xs.len() { n } else { xs.len() }));
            assert(bytes_mut_data(*dst) =~= d_start + particles_wire(self@));
        }
        Ok(())
    }
}

impl Decode for ClientboundLevelParticles {
    #[verifier::rlimit(100)]
    #[verifier::spinoff_prover]
    fn decode(src: &mut Bytes) -> (r: Result<Self, ProtocolError>) {
        need(src, 37)?;
        let particle_id = get_i32(src);
        let long_distance = get_u8(src) != 0;
        let x = get_u32(src);
        let y = get_u32(src);
        let z = get_u32(src);
        let offset_x = get_u32(src);
        let offset_y = get_u32(src);
        let offset_z = get_u32(src);
        let particle_data = get_u32(src);
        let particle_count = get_i32(src);
        let expected: usize = if particle_id == 36 {
            2
        } else if particle_id == 37 || particle_id == 38 {
            1
        } else {
            0
        };
        let ghost s1 = bytes_data(*src);
        let mut data: Vec<VarInt> = Vec::new();
        let mut i: usize = 0;
        assert(data@ =~= Seq::<VarInt>::empty());
        while i < expected
            invariant
                expected == particle_arg_count(particle_id),
                i <= expected,
                !panics(read_n(s1, expected as nat, particle_arg_item())),
                read_n(s1, i as nat, particle_arg_item()) == (Ok::<Seq<VarInt>, ErrorView>(data@), bytes_data(*src)),
                Self::spec_decode(bytes_data(*old(src))) == particles_data_spec(
                    ClientboundLevelParticlesView {
                        particle_id,
                        long_distance,
                        x,
                        y,
                        z,
                        offset_x,
                        offset_y,
                        offset_z,
                        particle_data,
                        particle_count,
                        data: Seq::<VarInt>::empty(),
                    },
                    s1,
                ),
            decreases expected - i,
        {
            proof {
                if panics(particle_arg_item_spec(bytes_data(*src))) {
                    lemma_read_n_err(s1, (i + 1) as nat, expected as nat, particle_arg_item());
                }
            }
            let x = match decode_particle_arg_item(src) {
                Ok(x) => x,
                Err(e) => {
                    proof {
                        lemma_read_n_err(s1, (i + 1) as nat, expected as nat, particle_arg_item());
                    }
                    return Err(e);
                },
            };
            data.push(x);
            i += 1;
        }
        Ok(Self { particle_id, long_distance, x, y, z, offset_x, offset_y, offset_z, particle_data, particle_count, data })
    }
}


/// The view of an optional string.
pub open spec fn opt_str_view(o: Option<String>) -> Option<Seq<char>> {
    match o {
        Some(s) => Some(s@),
        None => None,
    }
}

/// The bytes of an optional string: the string when there is one.
pub open spec fn opt_str_wire(o: Option<Seq<char>>) -> Seq<u8> {
    match o {
        Some(s) => string_wire(s),
        None => Seq::<u8>::empty(),
    }
}

/// An optional string that fits its length prefix.
pub open spec fn opt_str_fits(o: Option<Seq<char>>) -> bool {
    o matches Some(s) ==> string_fits(s)
}

fn encode_opt_str(o: &Option<String>, dst: &mut BytesMut)
    ensures
        bytes_mut_data(*final(dst)) == bytes_mut_data(*old(dst)) + opt_str_wire(opt_str_view(*o)),
{
    if let Some(s) = o {
        encode_str(s.as_str(), dst);
    } else {
        assert(bytes_mut_data(*dst) =~= bytes_mut_data(*old(dst)) + Seq::<u8>::empty());
    }
}

// ── ClientboundSelectAdvancementsTab ─────────────────────────────────

#[derive(Debug, Clone, PartialEq)]
pub struct ClientboundSelectAdvancementsTab {
    pub has_id: bool,
    pub tab_id: Option<String>,
}

pub struct ClientboundSelectAdvancementsTabView {
    pub has_id: bool,
    pub tab_id: Option<Seq<char>>,
}

impl View for ClientboundSelectAdvancementsTab {
    type V = ClientboundSelectAdvancementsTabView;

    open spec fn view(&self) -> ClientboundSelectAdvancementsTabView {
        ClientboundSelectAdvancementsTabView { has_id: self.has_id, tab_id: opt_str_view(self.tab_id) }
    }
}

impl PacketId for ClientboundSelectAdvancementsTab {
    open spec fn spec_packet_id(ver: u32) -> u8 {
        0x37
    }

    fn packet_id(_ver: u32) -> (r: u8) {
        0x37
    }
}

impl WireFormat for ClientboundSelectAdvancementsTab {
    open spec fn spec_encode(p: ClientboundSelectAdvancementsTabView) -> Seq<u8> {
        seq![bool_byte(p.has_id)] + opt_str_wire(p.tab_id)
    }

    open spec fn spec_decode(s: Seq<u8>) -> Parsed<ClientboundSelectAdvancementsTabView> {
        then(
            need_spec(s, 1),
            |_u: (), s: Seq<u8>|
                then(
                    take_bool(s),
                    |has_id: bool, s: Seq<u8>|
                        if has_id {
                            then(
                                str_spec(s, "ClientboundSelectAdvancementsTab tab_id"@),
                                |id: Seq<char>, s: Seq<u8>|
                                    (Ok(ClientboundSelectAdvancementsTabView { has_id, tab_id: Some(id) }), s),
                            )
                        } else {
                            (Ok(ClientboundSelectAdvancementsTabView { has_id, tab_id: None }), s)
                        },
                ),
        )
    }
}

impl Roundtrip for ClientboundSelectAdvancementsTab {
    /// A tab id exactly when `has_id` says so.
    open spec fn encodable(p: ClientboundSelectAdvancementsTabView) -> bool {
        p.tab_id is Some == p.has_id && opt_str_fits(p.tab_id)
    }

    open spec fn reads_to_end() -> bool {
        false
    }

    proof fn lemma_roundtrip(p: ClientboundSelectAdvancementsTabView, rest: Seq<u8>) {
        broadcast use group_wire_roundtrip;

        lemma_concat_associative(seq![bool_byte(p.has_id)], opt_str_wire(p.tab_id), rest);
        if let Some(id) = p.tab_id {
            lemma_string_roundtrip(
                id,
                rest,
                missing_for("ClientboundSelectAdvancementsTab tab_id"@),
                invalid_in("ClientboundSelectAdvancementsTab tab_id"@),
            );
        } else {
            assert(opt_str_wire(p.tab_id) + rest =~= rest);
        }
    }
}

impl Encode for ClientboundSelectAdvancementsTab {
    fn encode(&self, dst: &mut BytesMut) -> (r: Result<(), ProtocolError>) {
        let ghost d0 = bytes_mut_data(*dst);
        put_u8(dst, self.has_id as u8);
        encode_opt_str(&self.tab_id, dst);
        proof {
            lemma_concat_associative(d0, seq![bool_byte(self.has_id)], opt_str_wire(opt_str_view(self.tab_id)));
        }
        Ok(())
    }
}

impl Decode for ClientboundSelectAdvancementsTab {
    fn decode(src: &mut Bytes) -> (r: Result<Self, ProtocolError>) {
        need(src, 1)?;
        let has_id = get_u8(src) != 0;
        let tab_id = if has_id {
            Some(decode_str(src, "ClientboundSelectAdvancementsTab tab_id")?)
        } else {
            None
        };
        Ok(Self { has_id, tab_id })
    }
}

// ── ClientboundSetScoreboardObjective ────────────────────────────────

#[derive(Debug, Clone, PartialEq)]
pub struct ClientboundSetScoreboardObjective {
    pub objective_name: String,
    pub mode: u8,
    pub objective_value: Option<String>,
    pub kind: Option<String>,
}

pub struct ClientboundSetScoreboardObjectiveView {
    pub objective_name: Seq<char>,
    pub mode: u8,
    pub objective_value: Option<Seq<char>>,
    pub kind: Option<Seq<char>>,
}

impl View for ClientboundSetScoreboardObjective {
    type V = ClientboundSetScoreboardObjectiveView;

    open spec fn view(&self) -> ClientboundSetScoreboardObjectiveView {
        ClientboundSetScoreboardObjectiveView {
            objective_name: self.objective_name@,
            mode: self.mode,
            objective_value: opt_str_view(self.objective_value),
            kind: opt_str_view(self.kind),
        }
    }
}

impl PacketId for ClientboundSetScoreboardObjective {
    open spec fn spec_packet_id(ver: u32) -> u8 {
        0x42
    }

    fn packet_id(_ver: u32) -> (r: u8) {
        0x42
    }
}

/// Modes 0 (create) and 2 (update) carry the display value and its kind.
pub open spec fn objective_mode_has_value(mode: u8) -> bool {
    mode == 0 || mode == 2
}

impl WireFormat for ClientboundSetScoreboardObjective {
    open spec fn spec_encode(p: ClientboundSetScoreboardObjectiveView) -> Seq<u8> {
        string_wire(p.objective_name) + seq![p.mode] + if objective_mode_has_value(p.mode) {
            opt_str_wire(p.objective_value) + opt_str_wire(p.kind)
        } else {
            Seq::<u8>::empty()
        }
    }

    open spec fn spec_decode(s: Seq<u8>) -> Parsed<ClientboundSetScoreboardObjectiveView> {
        then(
            str_spec(s, "ClientboundSetScoreboardObjective name"@),
            |objective_name: Seq<char>, s: Seq<u8>|
                then(
                    need_spec(s, 1),
                    |_u: (), s: Seq<u8>|
                        then(
                            take_u8(s),
                            |mode: u8, s: Seq<u8>|
                                if objective_mode_has_value(mode) {
                                    then(
                                        str_spec(s, "ClientboundSetScoreboardObjective value"@),
                                        |v: Seq<char>, s: Seq<u8>|
                                            then(
                                                str_spec(s, "ClientboundSetScoreboardObjective kind"@),
                                                |k: Seq<char>, s: Seq<u8>|
                                                    (
                                                        Ok(
                                                            ClientboundSetScoreboardObjectiveView {
                                                                objective_name,
                                                                mode,
                                                                objective_value: Some(v),
                                                                kind: Some(k),
                                                            },
                                                        ),
                                                        s,
                                                    ),
                                            ),
                                    )
                                } else {
                                    (
                                        Ok(
                                            ClientboundSetScoreboardObjectiveView {
                                                objective_name,
                                                mode,
                                                objective_value: None,
                                                kind: None,
                                            },
                                        ),
                                        s,
                                    )
                                },
                        ),
                ),
        )
    }
}

impl Roundtrip for ClientboundSetScoreboardObjective {
    /// A value and a kind exactly in the modes that carry them.
    open spec fn encodable(p: ClientboundSetScoreboardObjectiveView) -> bool {
        &&& string_fits(p.objective_name)
        &&& p.objective_value is Some == objective_mode_has_value(p.mode)
        &&& p.kind is Some == objective_mode_has_value(p.mode)
        &&& opt_str_fits(p.objective_value)
        &&& opt_str_fits(p.kind)
    }

    open spec fn reads_to_end() -> bool {
        false
    }

    proof fn lemma_roundtrip(p: ClientboundSetScoreboardObjectiveView, rest: Seq<u8>) {
        broadcast use group_wire_roundtrip;

        let e0 = string_wire(p.objective_name);
        let e1 = seq![p.mode];
        let e2 = if objective_mode_has_value(p.mode) {
            opt_str_wire(p.objective_value) + opt_str_wire(p.kind)
        } else {
            Seq::<u8>::empty()
        };
        lemma_concat_associative(e0 + e1, e2, rest);
        lemma_concat_associative(e0, e1, e2 + rest);
        lemma_string_roundtrip(
            p.objective_name,
            e1 + (e2 + rest),
            missing_for("ClientboundSetScoreboardObjective name"@),
            invalid_in("ClientboundSetScoreboardObjective name"@),
        );
        if objective_mode_has_value(p.mode) {
            let v = p.objective_value->0;
            let k = p.kind->0;
            lemma_concat_associative(string_wire(v), string_wire(k), rest);
            lemma_string_roundtrip(
                v,
                string_wire(k) + rest,
                missing_for("ClientboundSetScoreboardObjective value"@),
                invalid_in("ClientboundSetScoreboardObjective value"@),
            );
            lemma_string_roundtrip(
                k,
                rest,
                missing_for("ClientboundSetScoreboardObjective kind"@),
                invalid_in("ClientboundSetScoreboardObjective kind"@),
            );
        } else {
            assert(e2 + rest =~= rest);
        }
    }
}

impl Encode for ClientboundSetScoreboardObjective {
    fn encode(&self, dst: &mut BytesMut) -> (r: Result<(), ProtocolError>) {
        let ghost d0 = bytes_mut_data(*dst);
        encode_str(self.objective_name.as_str(), dst);
        put_u8(dst, self.mode);
        let ghost d2 = bytes_mut_data(*dst);
        if self.mode == 0 || self.mode == 2 {
            encode_opt_str(&self.objective_value, dst);
            encode_opt_str(&self.kind, dst);
            proof {
                lemma_concat_associative(
                    d2,
                    opt_str_wire(opt_str_view(self.objective_value)),
                    opt_str_wire(opt_str_view(self.kind)),
                );
            }
        }
        assert(bytes_mut_data(*dst) =~= d0 + Self::spec_encode(self@));
        Ok(())
    }
}

impl Decode for ClientboundSetScoreboardObjective {
    fn decode(src: &mut Bytes) -> (r: Result<Self, ProtocolError>) {
        let objective_name = decode_str(src, "ClientboundSetScoreboardObjective name")?;
        need(src, 1)?;
        let mode = get_u8(src);
        let (objective_value, kind) = if mode == 0 || mode == 2 {
            let v = decode_str(src, "ClientboundSetScoreboardObjective value")?;
            let k = decode_str(src, "ClientboundSetScoreboardObjective kind")?;
            (Some(v), Some(k))
        } else {
            (None, None)
        };
        Ok(Self { objective_name, mode, objective_value, kind })
    }
}

// ── ClientboundSetScoreboardScore ────────────────────────────────────

#[derive(Debug, Clone, PartialEq)]
pub struct ClientboundSetScoreboardScore {
    pub entity_name: String,
    pub action: u8,
    pub objective_name: String,
    pub value: Option<VarInt>,
}

pub struct ClientboundSetScoreboardScoreView {
    pub entity_name: Seq<char>,
    pub action: u8,
    pub objective_name: Seq<char>,
    pub value: Option<VarInt>,
}

impl View for ClientboundSetScoreboardScore {
    type V = ClientboundSetScoreboardScoreView;

    open spec fn view(&self) -> ClientboundSetScoreboardScoreView {
        ClientboundSetScoreboardScoreView {
            entity_name: self.entity_name@,
            action: self.action,
            objective_name: self.objective_name@,
            value: self.value,
        }
    }
}

impl PacketId for ClientboundSetScoreboardScore {
    open spec fn spec_packet_id(ver: u32) -> u8 {
        0x45
    }

    fn packet_id(_ver: u32) -> (r: u8) {
        0x45
    }
}

/// The bytes of an optional VarInt: the VarInt when there is one.
pub open spec fn opt_varint_wire(o: Option<VarInt>) -> Seq<u8> {
    match o {
        Some(v) => VarInt::spec_encode(v),
        None => Seq::<u8>::empty(),
    }
}

impl WireFormat for ClientboundSetScoreboardScore {
    open spec fn spec_encode(p: ClientboundSetScoreboardScoreView) -> Seq<u8> {
        string_wire(p.entity_name) + seq![p.action] + string_wire(p.objective_name) + if p.action != 1 {
            opt_varint_wire(p.value)
        } else {
            Seq::<u8>::empty()
        }
    }

    open spec fn spec_decode(s: Seq<u8>) -> Parsed<ClientboundSetScoreboardScoreView> {
        then(
            str_spec(s, "ClientboundSetScoreboardScore entity_name"@),
            |entity_name: Seq<char>, s: Seq<u8>|
                then(
                    need_spec(s, 1),
                    |_u: (), s: Seq<u8>|
                        then(
                            take_u8(s),
                            |action: u8, s: Seq<u8>|
                                then(
                                    str_spec(s, "ClientboundSetScoreboardScore objective_name"@),
                                    |objective_name: Seq<char>, s: Seq<u8>|
                                        if action != 1 {
                                            then(
                                                VarInt::spec_decode(s),
                                                |v: VarInt, s: Seq<u8>|
                                                    (
                                                        Ok(
                                                            ClientboundSetScoreboardScoreView {
                                                                entity_name,
                                                                action,
                                                                objective_name,
                                                                value: Some(v),
                                                            },
                                                        ),
                                                        s,
                                                    ),
                                            )
                                        } else {
                                            (
                                                Ok(
                                                    ClientboundSetScoreboardScoreView {
                                                        entity_name,
                                                        action,
                                                        objective_name,
                                                        value: None,
                                                    },
                                                ),
                                                s,
                                            )
                                        },
                                ),
                        ),
                ),
        )
    }
}

impl Roundtrip for ClientboundSetScoreboardScore {
    /// A value exactly when the action is not 1 (remove).
    open spec fn encodable(p: ClientboundSetScoreboardScoreView) -> bool {
        &&& string_fits(p.entity_name)
        &&& string_fits(p.objective_name)
        &&& p.value is Some == (p.action != 1)
    }

    open spec fn reads_to_end() -> bool {
        false
    }

    proof fn lemma_roundtrip(p: ClientboundSetScoreboardScoreView, rest: Seq<u8>) {
        broadcast use group_wire_roundtrip;

        let e0 = string_wire(p.entity_name);
        let e1 = seq![p.action];
        let e2 = string_wire(p.objective_name);
        let e3 = if p.action != 1 {
            opt_varint_wire(p.value)
        } else {
            Seq::<u8>::empty()
        };
        lemma_concat_associative(e0 + e1 + e2, e3, rest);
        lemma_concat_associative(e0 + e1, e2, e3 + rest);
        lemma_concat_associative(e0, e1, e2 + (e3 + rest));
        lemma_string_roundtrip(
            p.entity_name,
            e1 + (e2 + (e3 + rest)),
            missing_for("ClientboundSetScoreboardScore entity_name"@),
            invalid_in("ClientboundSetScoreboardScore entity_name"@),
        );
        lemma_string_roundtrip(
            p.objective_name,
            e3 + rest,
            missing_for("ClientboundSetScoreboardScore objective_name"@),
            invalid_in("ClientboundSetScoreboardScore objective_name"@),
        );
        if p.action != 1 {
            VarInt::lemma_roundtrip(p.value->0, rest);
        } else {
            assert(e3 + rest =~= rest);
        }
    }
}

impl Encode for ClientboundSetScoreboardScore {
    fn encode(&self, dst: &mut BytesMut) -> (r: Result<(), ProtocolError>) {
        let ghost d0 = bytes_mut_data(*dst);
        encode_str(self.entity_name.as_str(), dst);
        put_u8(dst, self.action);
        encode_str(self.objective_name.as_str(), dst);
        if self.action != 1 {
            if let Some(v) = &self.value {
                let _ = v.encode(dst);
            }
        }
        assert(bytes_mut_data(*dst) =~= d0 + Self::spec_encode(self@));
        Ok(())
    }
}

impl Decode for ClientboundSetScoreboardScore {
    fn decode(src: &mut Bytes) -> (r: Result<Self, ProtocolError>) {
        let entity_name = decode_str(src, "ClientboundSetScoreboardScore entity_name")?;
        need(src, 1)?;
        let action = get_u8(src);
        let objective_name = decode_str(src, "ClientboundSetScoreboardScore objective_name")?;
        let value = if action != 1 {
            Some(VarInt::decode(src)?)
        } else {
            None
        };
        Ok(Self { entity_name, action, objective_name, value })
    }
}

// ── ServerboundCommandSuggestion ─────────────────────────────────────

#[derive(Debug, Clone, PartialEq)]
pub struct ServerboundCommandSuggestion {
    pub text: String,
    pub block: Option<u64>,
}

pub struct ServerboundCommandSuggestionView {
    pub text: Seq<char>,
    pub block: Option<u64>,
}

impl View for ServerboundCommandSuggestion {
    type V = ServerboundCommandSuggestionView;

    open spec fn view(&self) -> ServerboundCommandSuggestionView {
        ServerboundCommandSuggestionView { text: self.text@, block: self.block }
    }
}

impl PacketId for ServerboundCommandSuggestion {
    open spec fn spec_packet_id(ver: u32) -> u8 {
        0x01
    }

    fn packet_id(_ver: u32) -> (r: u8) {
        0x01
    }
}

/// The bytes of the looked-at block: a flag, then the position when there
/// is one.
pub open spec fn opt_block_wire(o: Option<u64>) -> Seq<u8> {
    match o {
        Some(b) => seq![1u8] + be_u64_bytes(b),
        None => seq![0u8],
    }
}

impl WireFormat for ServerboundCommandSuggestion {
    open spec fn spec_encode(p: ServerboundCommandSuggestionView) -> Seq<u8> {
        string_wire(p.text) + opt_block_wire(p.block)
    }

    open spec fn spec_decode(s: Seq<u8>) -> Parsed<ServerboundCommandSuggestionView> {
        then(
            str_spec(s, "ServerboundCommandSuggestion text"@),
            |text: Seq<char>, s: Seq<u8>|
                then(
                    need_spec(s, 1),
                    |_u: (), s: Seq<u8>|
                        then(
                            take_bool(s),
                            |has_block: bool, s: Seq<u8>|
                                if has_block {
                                    then(
                                        need_spec(s, 8),
                                        |_u: (), s: Seq<u8>|
                                            then(
                                                take_u64(s),
                                                |b: u64, s: Seq<u8>|
                                                    (Ok(ServerboundCommandSuggestionView { text, block: Some(b) }), s),
                                            ),
                                    )
                                } else {
                                    (Ok(ServerboundCommandSuggestionView { text, block: None }), s)
                                },
                        ),
                ),
        )
    }
}

impl Roundtrip for ServerboundCommandSuggestion {
    open spec fn encodable(p: ServerboundCommandSuggestionView) -> bool {
        string_fits(p.text)
    }

    open spec fn reads_to_end() -> bool {
        false
    }

    proof fn lemma_roundtrip(p: ServerboundCommandSuggestionView, rest: Seq<u8>) {
        broadcast use group_wire_roundtrip;

        let e1 = opt_block_wire(p.block);
        lemma_concat_associative(string_wire(p.text), e1, rest);
        lemma_string_roundtrip(
            p.text,
            e1 + rest,
            missing_for("ServerboundCommandSuggestion text"@),
            invalid_in("ServerboundCommandSuggestion text"@),
        );
        if let Some(b) = p.block {
            lemma_concat_associative(seq![1u8], be_u64_bytes(b), rest);
            assert((seq![1u8] + (be_u64_bytes(b) + rest)).drop_first() =~= be_u64_bytes(b) + rest);
        } else {
            assert((seq![0u8] + rest).drop_first() =~= rest);
        }
    }
}

impl Encode for ServerboundCommandSuggestion {
    fn encode(&self, dst: &mut BytesMut) -> (r: Result<(), ProtocolError>) {
        let ghost d0 = bytes_mut_data(*dst);
        encode_str(self.text.as_str(), dst);
        put_u8(dst, self.block.is_some() as u8);
        if let Some(b) = self.block {
            put_u64(dst, b);
        }
        assert(bytes_mut_data(*dst) =~= d0 + Self::spec_encode(self@));
        Ok(())
    }
}

impl Decode for ServerboundCommandSuggestion {
    fn decode(src: &mut Bytes) -> (r: Result<Self, ProtocolError>) {
        let text = decode_str(src, "ServerboundCommandSuggestion text")?;
        need(src, 1)?;
        let has_block = get_u8(src) != 0;
        let block = if has_block {
            need(src, 8)?;
            Some(get_u64(src))
        } else {
            None
        };
        Ok(Self { text, block })
    }
}

// ── ClientboundStopSound ─────────────────────────────────────────────

#[derive(Debug, Clone, PartialEq)]
pub struct ClientboundStopSound {
    pub flags: u8,
    pub source: Option<VarInt>,
    pub sound: Option<String>,
}

pub struct ClientboundStopSoundView {
    pub flags: u8,
    pub source: Option<VarInt>,
    pub sound: Option<Seq<char>>,
}

impl View for ClientboundStopSound {
    type V = ClientboundStopSoundView;

    open spec fn view(&self) -> ClientboundStopSoundView {
        ClientboundStopSoundView { flags: self.flags, source: self.source, sound: opt_str_view(self.sound) }
    }
}

impl PacketId for ClientboundStopSound {
    open spec fn spec_packet_id(ver: u32) -> u8 {
        0x48
    }

    fn packet_id(_ver: u32) -> (r: u8) {
        0x48
    }
}

/// Flag bit 0 says a source follows, bit 1 a sound name.
pub open spec fn stop_sound_has_source(flags: u8) -> bool {
    flags & 1 != 0
}

pub open spec fn stop_sound_has_sound(flags: u8) -> bool {
    flags & 2 != 0
}

impl WireFormat for ClientboundStopSound {
    open spec fn spec_encode(p: ClientboundStopSoundView) -> Seq<u8> {
        seq![p.flags] + (if stop_sound_has_source(p.flags) {
            opt_varint_wire(p.source)
        } else {
            Seq::<u8>::empty()
        }) + (if stop_sound_has_sound(p.flags) {
            opt_str_wire(p.sound)
        } else {
            Seq::<u8>::empty()
        })
    }

    open spec fn spec_decode(s: Seq<u8>) -> Parsed<ClientboundStopSoundView> {
        then(
            need_spec(s, 1),
            |_u: (), s: Seq<u8>|
                then(
                    take_u8(s),
                    |flags: u8, s: Seq<u8>|
                        then(
                            if stop_sound_has_source(flags) {
                                then(VarInt::spec_decode(s), |v: VarInt, s: Seq<u8>| (Ok(Some(v)), s))
                            } else {
                                (Ok(None), s)
                            },
                            |source: Option<VarInt>, s: Seq<u8>|
                                then(
                                    if stop_sound_has_sound(flags) {
                                        then(
                                            str_spec(s, "ClientboundStopSound sound"@),
                                            |c: Seq<char>, s: Seq<u8>| (Ok(Some(c)), s),
                                        )
                                    } else {
                                        (Ok(None), s)
                                    },
                                    |sound: Option<Seq<char>>, s: Seq<u8>|
                                        (Ok(ClientboundStopSoundView { flags, source, sound }), s),
                                ),
                        ),
                ),
        )
    }
}

impl Roundtrip for ClientboundStopSound {
    /// A source and a sound exactly when the flags announce them.
    open spec fn encodable(p: ClientboundStopSoundView) -> bool {
        &&& p.source is Some == stop_sound_has_source(p.flags)
        &&& p.sound is Some == stop_sound_has_sound(p.flags)
        &&& opt_str_fits(p.sound)
    }

    open spec fn reads_to_end() -> bool {
        false
    }

    proof fn lemma_roundtrip(p: ClientboundStopSoundView, rest: Seq<u8>) {
        broadcast use group_wire_roundtrip;

        let e1 = if stop_sound_has_source(p.flags) {
            opt_varint_wire(p.source)
        } else {
            Seq::<u8>::empty()
        };
        let e2 = if stop_sound_has_sound(p.flags) {
            opt_str_wire(p.sound)
        } else {
            Seq::<u8>::empty()
        };
        lemma_concat_associative(seq![p.flags] + e1, e2, rest);
        lemma_concat_associative(seq![p.flags], e1, e2 + rest);
        assert((seq![p.flags] + (e1 + (e2 + rest))).drop_first() =~= e1 + (e2 + rest));
        if stop_sound_has_source(p.flags) {
            VarInt::lemma_roundtrip(p.source->0, e2 + rest);
        } else {
            assert(e1 + (e2 + rest) =~= e2 + rest);
        }
        if stop_sound_has_sound(p.flags) {
            lemma_string_roundtrip(
                p.sound->0,
                rest,
                missing_for("ClientboundStopSound sound"@),
                invalid_in("ClientboundStopSound sound"@),
            );
        } else {
            assert(e2 + rest =~= rest);
        }
    }
}

impl Encode for ClientboundStopSound {
    fn encode(&self, dst: &mut BytesMut) -> (r: Result<(), ProtocolError>) {
        let ghost d0 = bytes_mut_data(*dst);
        put_u8(dst, self.flags);
        let ghost d1 = bytes_mut_data(*dst);
        if self.flags & 1 != 0 {
            if let Some(s) = &self.source {
                let _ = s.encode(dst);
            }
        }
        let ghost e1 = if stop_sound_has_source(self.flags) {
            opt_varint_wire(self.source)
        } else {
            Seq::<u8>::empty()
        };
        assert(bytes_mut_data(*dst) =~= d1 + e1);
        let ghost d2 = bytes_mut_data(*dst);
        if self.flags & 2 != 0 {
            encode_opt_str(&self.sound, dst);
        }
        let ghost e2 = if stop_sound_has_sound(self.flags) {
            opt_str_wire(opt_str_view(self.sound))
        } else {
            Seq::<u8>::empty()
        };
        assert(bytes_mut_data(*dst) =~= d2 + e2);
        assert(bytes_mut_data(*dst) =~= d0 + Self::spec_encode(self@));
        Ok(())
    }
}

impl Decode for ClientboundStopSound {
    fn decode(src: &mut Bytes) -> (r: Result<Self, ProtocolError>) {
        need(src, 1)?;
        let flags = get_u8(src);
        let source = if flags & 1 != 0 {
            Some(VarInt::decode(src)?)
        } else {
            None
        };
        let sound = if flags & 2 != 0 {
            Some(decode_str(src, "ClientboundStopSound sound")?)
        } else {
            None
        };
        Ok(Self { flags, source, sound })
    }
}

// ── ServerboundUpdateSign ────────────────────────────────────────────

#[derive(Debug, Clone, PartialEq)]
pub struct ServerboundUpdateSign {
    pub location: u64,
    pub lines: [String; 4],
}

pub struct ServerboundUpdateSignView {
    pub location: u64,
    pub lines: Seq<Seq<char>>,
}

impl View for ServerboundUpdateSign {
    type V = ServerboundUpdateSignView;

    open spec fn view(&self) -> ServerboundUpdateSignView {
        ServerboundUpdateSignView { location: self.location, lines: self.lines@.map_values(|l: String| l@) }
    }
}

impl PacketId for ServerboundUpdateSign {
    open spec fn spec_packet_id(ver: u32) -> u8 {
        0x1C
    }

    fn packet_id(_ver: u32) -> (r: u8) {
        0x1C
    }
}

impl WireFormat for ServerboundUpdateSign {
    open spec fn spec_encode(p: ServerboundUpdateSignView) -> Seq<u8> {
        be_u64_bytes(p.location) + (string_wire(p.lines[0]) + (string_wire(p.lines[1]) + (string_wire(p.lines[2])
            + string_wire(p.lines[3]))))
    }

    open spec fn spec_decode(s: Seq<u8>) -> Parsed<ServerboundUpdateSignView> {
        then(
            need_spec(s, 8),
            |_u: (), s: Seq<u8>|
                then(
                    take_u64(s),
                    |location: u64, s: Seq<u8>|
                        then(
                            str_spec(s, "ServerboundUpdateSign line1"@),
                            |l1: Seq<char>, s: Seq<u8>|
                                then(
                                    str_spec(s, "ServerboundUpdateSign line2"@),
                                    |l2: Seq<char>, s: Seq<u8>|
                                        then(
                                            str_spec(s, "ServerboundUpdateSign line3"@),
                                            |l3: Seq<char>, s: Seq<u8>|
                                                then(
                                                    str_spec(s, "ServerboundUpdateSign line4"@),
                                                    |l4: Seq<char>, s: Seq<u8>|
                                                        (
                                                            Ok(
                                                                ServerboundUpdateSignView {
                                                                    location,
                                                                    lines: seq![l1, l2, l3, l4],
                                                                },
                                                            ),
                                                            s,
                                                        ),
                                                ),
                                        ),
                                ),
                        ),
                ),
        )
    }
}

impl Roundtrip for ServerboundUpdateSign {
    /// Four lines, each fitting its length prefix.
    open spec fn encodable(p: ServerboundUpdateSignView) -> bool {
        p.lines.len() == 4 && forall|i: int| 0 <= i < 4 ==> string_fits(#[trigger] p.lines[i])
    }

    open spec fn reads_to_end() -> bool {
        false
    }

    proof fn lemma_roundtrip(p: ServerboundUpdateSignView, rest: Seq<u8>) {
        broadcast use group_wire_roundtrip;

        let w0 = string_wire(p.lines[0]);
        let w1 = string_wire(p.lines[1]);
        let w2 = string_wire(p.lines[2]);
        let w3 = string_wire(p.lines[3]);
        lemma_concat_associative(be_u64_bytes(p.location), w0 + (w1 + (w2 + w3)), rest);
        lemma_concat_associative(w0, w1 + (w2 + w3), rest);
        lemma_concat_associative(w1, w2 + w3, rest);
        lemma_concat_associative(w2, w3, rest);
        assert(string_fits(p.lines[0]) && string_fits(p.lines[1]) && string_fits(p.lines[2]) && string_fits(p.lines[3]));
        lemma_string_roundtrip(
            p.lines[0],
            w1 + (w2 + (w3 + rest)),
            missing_for("ServerboundUpdateSign line1"@),
            invalid_in("ServerboundUpdateSign line1"@),
        );
        lemma_string_roundtrip(
            p.lines[1],
            w2 + (w3 + rest),
            missing_for("ServerboundUpdateSign line2"@),
            invalid_in("ServerboundUpdateSign line2"@),
        );
        lemma_string_roundtrip(
            p.lines[2],
            w3 + rest,
            missing_for("ServerboundUpdateSign line3"@),
            invalid_in("ServerboundUpdateSign line3"@),
        );
        lemma_string_roundtrip(
            p.lines[3],
            rest,
            missing_for("ServerboundUpdateSign line4"@),
            invalid_in("ServerboundUpdateSign line4"@),
        );
        assert(seq![p.lines[0], p.lines[1], p.lines[2], p.lines[3]] =~= p.lines);
    }
}

impl Encode for ServerboundUpdateSign {
    fn encode(&self, dst: &mut BytesMut) -> (r: Result<(), ProtocolError>) {
        let ghost d0 = bytes_mut_data(*dst);
        put_u64(dst, self.location);
        encode_str(self.lines[0].as_str(), dst);
        encode_str(self.lines[1].as_str(), dst);
        encode_str(self.lines[2].as_str(), dst);
        encode_str(self.lines[3].as_str(), dst);
        assert(bytes_mut_data(*dst) =~= d0 + Self::spec_encode(self@));
        Ok(())
    }
}

impl Decode for ServerboundUpdateSign {
    fn decode(src: &mut Bytes) -> (r: Result<Self, ProtocolError>) {
        need(src, 8)?;
        let location = get_u64(src);
        let l1 = decode_str(src, "ServerboundUpdateSign line1")?;
        let l2 = decode_str(src, "ServerboundUpdateSign line2")?;
        let l3 = decode_str(src, "ServerboundUpdateSign line3")?;
        let l4 = decode_str(src, "ServerboundUpdateSign line4")?;
        let lines = [l1, l2, l3, l4];
        proof {
            assert(lines@.map_values(|l: String| l@) =~= seq![l1@, l2@, l3@, l4@]);
        }
        Ok(Self { location, lines })
    }
}


} // verus!
