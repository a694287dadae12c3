//! Play-state packets shared by the 1.12 releases.
use crate::buffer::{
    bytes_data, bytes_mut_data, bytes_to_vec, copy_to_bytes, copy_to_slice, get_i16, get_i32, get_i64, get_i8,
    extend_from_slice, get_u16, get_u32, get_u64, get_u8, put_i16, put_i32, put_i64, put_i8, put_slice, put_u16, put_u32, put_u64,
    put_u8, remaining, string_from_utf8,
};
use crate::codec::{
    decode_dim_pos_codec, decode_string_vec, dim_pos_codec_fits, dim_pos_codec_spec, dim_pos_view,
    dim_pos_wire, encode_dim_pos_codec, encode_string_vec, lemma_dim_pos_codec_roundtrip, lemma_string_roundtrip, lemma_string_vec_roundtrip,
    result_view, string_fits, string_list_wire, string_piece, string_vec_fits, string_vec_spec,
    string_wire, strings_view, take_varint_i32, write_string, Decode, Encode, PacketId, Roundtrip,
    WireFormat,
};
use crate::error::{io_error, io_error_owned, ErrorView, IoErrorKind, ProtocolError};
use crate::text::{decimal, need_remaining_message};
use crate::types::VarInt;
use crate::versions::classic::{
    decode_i16_bytes, decode_str, encode_str, i16_bytes_spec, i16_bytes_wire, invalid_in,
    lemma_i16_bytes_roundtrip, missing_for, need, need_spec, str_spec,
};
use crate::types::uuid_wire::{get_uuid, lemma_take_uuid, put_uuid, take_uuid, uuid_wire};
use crate::versions::fields::{
    decode_eof_str, decode_fixed_str, eof_str_spec, fixed_str_spec, lemma_eof_str_roundtrip,
    lemma_fixed_str_roundtrip, need_eof, need_eof_spec, need_msg, need_msg_spec, skip_rest_spec,
    skip_remaining, take_remaining,
};
use crate::wire::{
    be_i16_bytes, be_i32_bytes, be_i64_bytes, be_u16_bytes, be_u32_bytes, be_u64_bytes, bool_byte,
    group_wire_roundtrip, lemma_read_n_err, lemma_read_write_n, panics, read_n, take_bool, take_i16, take_i32, take_i64, take_i8, take_rest,
    take_u16, take_u32, take_u64, take_u8, then, write_all, Parsed,
};
use bytes::{Bytes, BytesMut};
use vstd::prelude::*;
use vstd::seq_lib::lemma_concat_associative;
use vstd::utf8::*;

verus! {



// ── ClientboundJoinGame ───────────────────────────────────────────────

#[derive(Debug, Clone, PartialEq)]
pub struct ClientboundJoinGame {
    pub entity_id: i32,
    pub gamemode: u8,
    pub dimension: i32,
    pub difficulty: u8,
    pub max_players: u8,
    pub level_type: String,
    pub reduced_debug_info: bool,
}

pub struct ClientboundJoinGameView {
    pub entity_id: i32,
    pub gamemode: u8,
    pub dimension: i32,
    pub difficulty: u8,
    pub max_players: u8,
    pub level_type: Seq<char>,
    pub reduced_debug_info: bool,
}

impl View for ClientboundJoinGame {
    type V = ClientboundJoinGameView;

    open spec fn view(&self) -> ClientboundJoinGameView {
        ClientboundJoinGameView {
            entity_id: self.entity_id,
            gamemode: self.gamemode,
            dimension: self.dimension,
            difficulty: self.difficulty,
            max_players: self.max_players,
            level_type: self.level_type@,
            reduced_debug_info: self.reduced_debug_info,
        }
    }
}

impl WireFormat for ClientboundJoinGame {
    open spec fn spec_encode(p: ClientboundJoinGameView) -> Seq<u8> {
        be_i32_bytes(p.entity_id) + seq![p.gamemode] + be_i32_bytes(p.dimension) + seq![p.difficulty] + seq![p.max_players] + string_wire(p.level_type) + seq![bool_byte(p.reduced_debug_info)]
    }

    open spec fn spec_decode(s: Seq<u8>) -> Parsed<ClientboundJoinGameView> {
        then(need_msg_spec(s, 11, "Missing initial static data for ClientboundJoinGame"@), |_u: (), s: Seq<u8>| then(take_i32(s), |entity_id: i32, s: Seq<u8>| then(take_u8(s), |gamemode: u8, s: Seq<u8>| then(take_i32(s), |dimension: i32, s: Seq<u8>| then(take_u8(s), |difficulty: u8, s: Seq<u8>| then(take_u8(s), |max_players: u8, s: Seq<u8>| then(fixed_str_spec(s, "Missing level_type string payload inside ClientboundJoinGame"@, "Invalid UTF-8 sequence for level_type string"@), |level_type: Seq<char>, s: Seq<u8>| then(need_msg_spec(s, 1, "Missing reduced_debug_info flag inside ClientboundJoinGame"@), |_u: (), s: Seq<u8>| then(take_bool(s), |reduced_debug_info: bool, s: Seq<u8>| (Ok(ClientboundJoinGameView { entity_id, gamemode, dimension, difficulty, max_players, level_type, reduced_debug_info }), s))))))))))
    }
}

impl Encode for ClientboundJoinGame {
    fn encode(&self, dst: &mut BytesMut) -> (r: Result<(), ProtocolError>) {
        let ghost d0 = bytes_mut_data(*dst);
        put_i32(dst, self.entity_id);
        let ghost mut e: Seq<u8> = be_i32_bytes(self@.entity_id);
        put_u8(dst, self.gamemode);
        proof {
            lemma_concat_associative(d0, e, seq![self@.gamemode]);
            e = e + seq![self@.gamemode];
        }
        put_i32(dst, self.dimension);
        proof {
            lemma_concat_associative(d0, e, be_i32_bytes(self@.dimension));
            e = e + be_i32_bytes(self@.dimension);
        }
        put_u8(dst, self.difficulty);
        proof {
            lemma_concat_associative(d0, e, seq![self@.difficulty]);
            e = e + seq![self@.difficulty];
        }
        put_u8(dst, self.max_players);
        proof {
            lemma_concat_associative(d0, e, seq![self@.max_players]);
            e = e + seq![self@.max_players];
        }
        encode_str(self.level_type.as_str(), dst);
        proof {
            lemma_concat_associative(d0, e, string_wire(self@.level_type));
            e = e + string_wire(self@.level_type);
        }
        put_u8(dst, self.reduced_debug_info as u8);
        proof {
            lemma_concat_associative(d0, e, seq![bool_byte(self@.reduced_debug_info)]);
            e = e + seq![bool_byte(self@.reduced_debug_info)];
        }
        Ok(())
    }
}

impl Decode for ClientboundJoinGame {
    fn decode(src: &mut Bytes) -> (r: Result<Self, ProtocolError>) {
        need_msg(src, 11, "Missing initial static data for ClientboundJoinGame")?;
        let entity_id = get_i32(src);
        let gamemode = get_u8(src);
        let dimension = get_i32(src);
        let difficulty = get_u8(src);
        let max_players = get_u8(src);
        let level_type = decode_fixed_str(src, "Missing level_type string payload inside ClientboundJoinGame", "Invalid UTF-8 sequence for level_type string")?;
        need_msg(src, 1, "Missing reduced_debug_info flag inside ClientboundJoinGame")?;
        let reduced_debug_info = get_u8(src) != 0;
        Ok(Self { entity_id, gamemode, dimension, difficulty, max_players, level_type, reduced_debug_info })
    }
}

// ── ClientboundRespawn ────────────────────────────────────────────────

#[derive(Debug, Clone, PartialEq)]
pub struct ClientboundRespawn {
    pub dimension: i32,
    pub difficulty: u8,
    pub game_mode: u8,
    pub level_type: String,
}

pub struct ClientboundRespawnView {
    pub dimension: i32,
    pub difficulty: u8,
    pub game_mode: u8,
    pub level_type: Seq<char>,
}

impl View for ClientboundRespawn {
    type V = ClientboundRespawnView;

    open spec fn view(&self) -> ClientboundRespawnView {
        ClientboundRespawnView {
            dimension: self.dimension,
            difficulty: self.difficulty,
            game_mode: self.game_mode,
            level_type: self.level_type@,
        }
    }
}

impl WireFormat for ClientboundRespawn {
    open spec fn spec_encode(p: ClientboundRespawnView) -> Seq<u8> {
        be_i32_bytes(p.dimension) + seq![p.difficulty] + seq![p.game_mode] + string_wire(p.level_type)
    }

    open spec fn spec_decode(s: Seq<u8>) -> Parsed<ClientboundRespawnView> {
        then(need_spec(s, 6), |_u: (), s: Seq<u8>| then(take_i32(s), |dimension: i32, s: Seq<u8>| then(take_u8(s), |difficulty: u8, s: Seq<u8>| then(take_u8(s), |game_mode: u8, s: Seq<u8>| then(str_spec(s, "ClientboundRespawn level_type"@), |level_type: Seq<char>, s: Seq<u8>| (Ok(ClientboundRespawnView { dimension, difficulty, game_mode, level_type }), s))))))
    }
}

impl Roundtrip for ClientboundRespawn {
    open spec fn encodable(p: ClientboundRespawnView) -> bool {
        string_fits(p.level_type)
    }

    open spec fn reads_to_end() -> bool {
        false
    }

    proof fn lemma_roundtrip(p: ClientboundRespawnView, rest: Seq<u8>) {
        broadcast use group_wire_roundtrip;

        let t3 = string_wire(p.level_type) + rest;
        let t2 = seq![p.game_mode] + t3;
        let t1 = seq![p.difficulty] + t2;
        lemma_concat_associative(be_i32_bytes(p.dimension) + seq![p.difficulty] + seq![p.game_mode], string_wire(p.level_type), rest);
        lemma_concat_associative(be_i32_bytes(p.dimension) + seq![p.difficulty], seq![p.game_mode], t3);
        lemma_concat_associative(be_i32_bytes(p.dimension), seq![p.difficulty], t2);
        lemma_string_roundtrip(p.level_type, rest, missing_for("ClientboundRespawn level_type"@), invalid_in("ClientboundRespawn level_type"@));
    }
}

impl Encode for ClientboundRespawn {
    fn encode(&self, dst: &mut BytesMut) -> (r: Result<(), ProtocolError>) {
        let ghost d0 = bytes_mut_data(*dst);
        put_i32(dst, self.dimension);
        let ghost mut e: Seq<u8> = be_i32_bytes(self@.dimension);
        put_u8(dst, self.difficulty);
        proof {
            lemma_concat_associative(d0, e, seq![self@.difficulty]);
            e = e + seq![self@.difficulty];
        }
        put_u8(dst, self.game_mode);
        proof {
            lemma_concat_associative(d0, e, seq![self@.game_mode]);
            e = e + seq![self@.game_mode];
        }
        encode_str(self.level_type.as_str(), dst);
        proof {
            lemma_concat_associative(d0, e, string_wire(self@.level_type));
            e = e + string_wire(self@.level_type);
        }
        Ok(())
    }
}

impl Decode for ClientboundRespawn {
    fn decode(src: &mut Bytes) -> (r: Result<Self, ProtocolError>) {
        need(src, 6)?;
        let dimension = get_i32(src);
        let difficulty = get_u8(src);
        let game_mode = get_u8(src);
        let level_type = decode_str(src, "ClientboundRespawn level_type")?;
        Ok(Self { dimension, difficulty, game_mode, level_type })
    }
}

// ── ClientboundPlayerPosition ─────────────────────────────────────────

#[derive(Debug, Clone, PartialEq)]
pub struct ClientboundPlayerPosition {
    /// The bits of the `f64` value (`f64::to_bits`).
    pub x: u64,
    /// The bits of the `f64` value (`f64::to_bits`).
    pub y: u64,
    /// The bits of the `f64` value (`f64::to_bits`).
    pub z: u64,
    /// The bits of the `f32` value (`f32::to_bits`).
    pub yaw: u32,
    /// The bits of the `f32` value (`f32::to_bits`).
    pub pitch: u32,
    pub flags: u8,
    pub teleport_id: VarInt,
}

impl View for ClientboundPlayerPosition {
    type V = ClientboundPlayerPosition;

    open spec fn view(&self) -> ClientboundPlayerPosition {
        *self
    }
}

impl WireFormat for ClientboundPlayerPosition {
    open spec fn spec_encode(p: ClientboundPlayerPosition) -> Seq<u8> {
        be_u64_bytes(p.x) + be_u64_bytes(p.y) + be_u64_bytes(p.z) + be_u32_bytes(p.yaw) + be_u32_bytes(p.pitch) + seq![p.flags] + VarInt::spec_encode(p.teleport_id)
    }

    open spec fn spec_decode(s: Seq<u8>) -> Parsed<ClientboundPlayerPosition> {
        then(need_spec(s, 33), |_u: (), s: Seq<u8>| then(take_u64(s), |x: u64, s: Seq<u8>| then(take_u64(s), |y: u64, s: Seq<u8>| then(take_u64(s), |z: u64, s: Seq<u8>| then(take_u32(s), |yaw: u32, s: Seq<u8>| then(take_u32(s), |pitch: u32, s: Seq<u8>| then(take_u8(s), |flags: u8, s: Seq<u8>| then(VarInt::spec_decode(s), |teleport_id: VarInt, s: Seq<u8>| (Ok(ClientboundPlayerPosition { x, y, z, yaw, pitch, flags, teleport_id }), s)))))))))
    }
}

impl Roundtrip for ClientboundPlayerPosition {
    open spec fn encodable(p: ClientboundPlayerPosition) -> bool {
        true
    }

    open spec fn reads_to_end() -> bool {
        false
    }

    #[verifier::rlimit(100)]
    #[verifier::spinoff_prover]
    proof fn lemma_roundtrip(p: ClientboundPlayerPosition, rest: Seq<u8>) {
        broadcast use group_wire_roundtrip;

        let t6 = VarInt::spec_encode(p.teleport_id) + rest;
        let t5 = seq![p.flags] + t6;
        let t4 = be_u32_bytes(p.pitch) + t5;
        let t3 = be_u32_bytes(p.yaw) + t4;
        let t2 = be_u64_bytes(p.z) + t3;
        let t1 = be_u64_bytes(p.y) + t2;
        lemma_concat_associative(be_u64_bytes(p.x) + be_u64_bytes(p.y) + be_u64_bytes(p.z) + be_u32_bytes(p.yaw) + be_u32_bytes(p.pitch) + seq![p.flags], VarInt::spec_encode(p.teleport_id), rest);
        lemma_concat_associative(be_u64_bytes(p.x) + be_u64_bytes(p.y) + be_u64_bytes(p.z) + be_u32_bytes(p.yaw) + be_u32_bytes(p.pitch), seq![p.flags], t6);
        lemma_concat_associative(be_u64_bytes(p.x) + be_u64_bytes(p.y) + be_u64_bytes(p.z) + be_u32_bytes(p.yaw), be_u32_bytes(p.pitch), t5);
        lemma_concat_associative(be_u64_bytes(p.x) + be_u64_bytes(p.y) + be_u64_bytes(p.z), be_u32_bytes(p.yaw), t4);
        lemma_concat_associative(be_u64_bytes(p.x) + be_u64_bytes(p.y), be_u64_bytes(p.z), t3);
        lemma_concat_associative(be_u64_bytes(p.x), be_u64_bytes(p.y), t2);
        VarInt::lemma_roundtrip(p.teleport_id, rest);
    }
}

impl Encode for ClientboundPlayerPosition {
    fn encode(&self, dst: &mut BytesMut) -> (r: Result<(), ProtocolError>) {
        let ghost d0 = bytes_mut_data(*dst);
        put_u64(dst, self.x);
        let ghost mut e: Seq<u8> = be_u64_bytes(self@.x);
        put_u64(dst, self.y);
        proof {
            lemma_concat_associative(d0, e, be_u64_bytes(self@.y));
            e = e + be_u64_bytes(self@.y);
        }
        put_u64(dst, self.z);
        proof {
            lemma_concat_associative(d0, e, be_u64_bytes(self@.z));
            e = e + be_u64_bytes(self@.z);
        }
        put_u32(dst, self.yaw);
        proof {
            lemma_concat_associative(d0, e, be_u32_bytes(self@.yaw));
            e = e + be_u32_bytes(self@.yaw);
        }
        put_u32(dst, self.pitch);
        proof {
            lemma_concat_associative(d0, e, be_u32_bytes(self@.pitch));
            e = e + be_u32_bytes(self@.pitch);
        }
        put_u8(dst, self.flags);
        proof {
            lemma_concat_associative(d0, e, seq![self@.flags]);
            e = e + seq![self@.flags];
        }
        let _ = self.teleport_id.encode(dst);
        proof {
            lemma_concat_associative(d0, e, VarInt::spec_encode(self@.teleport_id));
            e = e + VarInt::spec_encode(self@.teleport_id);
        }
        Ok(())
    }
}

impl Decode for ClientboundPlayerPosition {
    fn decode(src: &mut Bytes) -> (r: Result<Self, ProtocolError>) {
        need(src, 33)?;
        let x = get_u64(src);
        let y = get_u64(src);
        let z = get_u64(src);
        let yaw = get_u32(src);
        let pitch = get_u32(src);
        let flags = get_u8(src);
        let teleport_id = VarInt::decode(src)?;
        Ok(Self { x, y, z, yaw, pitch, flags, teleport_id })
    }
}

// ── ClientboundKeepAlive ──────────────────────────────────────────────

#[derive(Debug, Clone, PartialEq)]
pub struct ClientboundKeepAlive {
    pub keep_alive_id: i64,
}

impl View for ClientboundKeepAlive {
    type V = ClientboundKeepAlive;

    open spec fn view(&self) -> ClientboundKeepAlive {
        *self
    }
}

impl WireFormat for ClientboundKeepAlive {
    open spec fn spec_encode(p: ClientboundKeepAlive) -> Seq<u8> {
        be_i64_bytes(p.keep_alive_id)
    }

    open spec fn spec_decode(s: Seq<u8>) -> Parsed<ClientboundKeepAlive> {
        then(need_spec(s, 8), |_u: (), s: Seq<u8>| then(take_i64(s), |keep_alive_id: i64, s: Seq<u8>| (Ok(ClientboundKeepAlive { keep_alive_id }), s)))
    }
}

impl Roundtrip for ClientboundKeepAlive {
    open spec fn encodable(p: ClientboundKeepAlive) -> bool {
        true
    }

    open spec fn reads_to_end() -> bool {
        false
    }

    proof fn lemma_roundtrip(p: ClientboundKeepAlive, rest: Seq<u8>) {
        broadcast use group_wire_roundtrip;

    }
}

impl Encode for ClientboundKeepAlive {
    fn encode(&self, dst: &mut BytesMut) -> (r: Result<(), ProtocolError>) {
        let ghost d0 = bytes_mut_data(*dst);
        put_i64(dst, self.keep_alive_id);
        let ghost mut e: Seq<u8> = be_i64_bytes(self@.keep_alive_id);
        Ok(())
    }
}

impl Decode for ClientboundKeepAlive {
    fn decode(src: &mut Bytes) -> (r: Result<Self, ProtocolError>) {
        need(src, 8)?;
        let keep_alive_id = get_i64(src);
        Ok(Self { keep_alive_id })
    }
}

// ── ClientboundChatMessage ────────────────────────────────────────────

#[derive(Debug, Clone, PartialEq)]
pub struct ClientboundChatMessage {
    pub json_message: String,
    pub position: u8,
}

pub struct ClientboundChatMessageView {
    pub json_message: Seq<char>,
    pub position: u8,
}

impl View for ClientboundChatMessage {
    type V = ClientboundChatMessageView;

    open spec fn view(&self) -> ClientboundChatMessageView {
        ClientboundChatMessageView {
            json_message: self.json_message@,
            position: self.position,
        }
    }
}

impl WireFormat for ClientboundChatMessage {
    open spec fn spec_encode(p: ClientboundChatMessageView) -> Seq<u8> {
        string_wire(p.json_message) + seq![p.position]
    }

    open spec fn spec_decode(s: Seq<u8>) -> Parsed<ClientboundChatMessageView> {
        then(str_spec(s, "ClientboundChatMessage json_message"@), |json_message: Seq<char>, s: Seq<u8>| then(need_spec(s, 1), |_u: (), s: Seq<u8>| then(take_u8(s), |position: u8, s: Seq<u8>| (Ok(ClientboundChatMessageView { json_message, position }), s))))
    }
}

impl Roundtrip for ClientboundChatMessage {
    open spec fn encodable(p: ClientboundChatMessageView) -> bool {
        string_fits(p.json_message)
    }

    open spec fn reads_to_end() -> bool {
        false
    }

    proof fn lemma_roundtrip(p: ClientboundChatMessageView, rest: Seq<u8>) {
        broadcast use group_wire_roundtrip;

        let t1 = seq![p.position] + rest;
        lemma_concat_associative(string_wire(p.json_message), seq![p.position], rest);
        lemma_string_roundtrip(p.json_message, t1, missing_for("ClientboundChatMessage json_message"@), invalid_in("ClientboundChatMessage json_message"@));
    }
}

impl Encode for ClientboundChatMessage {
    fn encode(&self, dst: &mut BytesMut) -> (r: Result<(), ProtocolError>) {
        let ghost d0 = bytes_mut_data(*dst);
        encode_str(self.json_message.as_str(), dst);
        let ghost mut e: Seq<u8> = string_wire(self@.json_message);
        put_u8(dst, self.position);
        proof {
            lemma_concat_associative(d0, e, seq![self@.position]);
            e = e + seq![self@.position];
        }
        Ok(())
    }
}

impl Decode for ClientboundChatMessage {
    fn decode(src: &mut Bytes) -> (r: Result<Self, ProtocolError>) {
        let json_message = decode_str(src, "ClientboundChatMessage json_message")?;
        need(src, 1)?;
        let position = get_u8(src);
        Ok(Self { json_message, position })
    }
}

// ── ClientboundDisconnect ─────────────────────────────────────────────

#[derive(Debug, Clone, PartialEq)]
pub struct ClientboundDisconnect {
    pub reason: String,
}

pub struct ClientboundDisconnectView {
    pub reason: Seq<char>,
}

impl View for ClientboundDisconnect {
    type V = ClientboundDisconnectView;

    open spec fn view(&self) -> ClientboundDisconnectView {
        ClientboundDisconnectView {
            reason: self.reason@,
        }
    }
}

impl WireFormat for ClientboundDisconnect {
    open spec fn spec_encode(p: ClientboundDisconnectView) -> Seq<u8> {
        string_wire(p.reason)
    }

    open spec fn spec_decode(s: Seq<u8>) -> Parsed<ClientboundDisconnectView> {
        then(str_spec(s, "ClientboundDisconnect reason"@), |reason: Seq<char>, s: Seq<u8>| (Ok(ClientboundDisconnectView { reason }), s))
    }
}

impl Roundtrip for ClientboundDisconnect {
    open spec fn encodable(p: ClientboundDisconnectView) -> bool {
        string_fits(p.reason)
    }

    open spec fn reads_to_end() -> bool {
        false
    }

    proof fn lemma_roundtrip(p: ClientboundDisconnectView, rest: Seq<u8>) {
        broadcast use group_wire_roundtrip;

        lemma_string_roundtrip(p.reason, rest, missing_for("ClientboundDisconnect reason"@), invalid_in("ClientboundDisconnect reason"@));
    }
}

impl Encode for ClientboundDisconnect {
    fn encode(&self, dst: &mut BytesMut) -> (r: Result<(), ProtocolError>) {
        let ghost d0 = bytes_mut_data(*dst);
        encode_str(self.reason.as_str(), dst);
        let ghost mut e: Seq<u8> = string_wire(self@.reason);
        Ok(())
    }
}

impl Decode for ClientboundDisconnect {
    fn decode(src: &mut Bytes) -> (r: Result<Self, ProtocolError>) {
        let reason = decode_str(src, "ClientboundDisconnect reason")?;
        Ok(Self { reason })
    }
}

// ── ClientboundPlayerAbilities ────────────────────────────────────────

#[derive(Debug, Clone, PartialEq)]
pub struct ClientboundPlayerAbilities {
    pub flags: u8,
    /// The bits of the `f32` value (`f32::to_bits`).
    pub flying_speed: u32,
    /// The bits of the `f32` value (`f32::to_bits`).
    pub walking_speed: u32,
}

impl View for ClientboundPlayerAbilities {
    type V = ClientboundPlayerAbilities;

    open spec fn view(&self) -> ClientboundPlayerAbilities {
        *self
    }
}

impl WireFormat for ClientboundPlayerAbilities {
    open spec fn spec_encode(p: ClientboundPlayerAbilities) -> Seq<u8> {
        seq![p.flags] + be_u32_bytes(p.flying_speed) + be_u32_bytes(p.walking_speed)
    }

    open spec fn spec_decode(s: Seq<u8>) -> Parsed<ClientboundPlayerAbilities> {
        then(need_spec(s, 9), |_u: (), s: Seq<u8>| then(take_u8(s), |flags: u8, s: Seq<u8>| then(take_u32(s), |flying_speed: u32, s: Seq<u8>| then(take_u32(s), |walking_speed: u32, s: Seq<u8>| (Ok(ClientboundPlayerAbilities { flags, flying_speed, walking_speed }), s)))))
    }
}

impl Roundtrip for ClientboundPlayerAbilities {
    open spec fn encodable(p: ClientboundPlayerAbilities) -> bool {
        true
    }

    open spec fn reads_to_end() -> bool {
        false
    }

    proof fn lemma_roundtrip(p: ClientboundPlayerAbilities, rest: Seq<u8>) {
        broadcast use group_wire_roundtrip;

        let t2 = be_u32_bytes(p.walking_speed) + rest;
        let t1 = be_u32_bytes(p.flying_speed) + t2;
        lemma_concat_associative(seq![p.flags] + be_u32_bytes(p.flying_speed), be_u32_bytes(p.walking_speed), rest);
        lemma_concat_associative(seq![p.flags], be_u32_bytes(p.flying_speed), t2);
    }
}

impl Encode for ClientboundPlayerAbilities {
    fn encode(&self, dst: &mut BytesMut) -> (r: Result<(), ProtocolError>) {
        let ghost d0 = bytes_mut_data(*dst);
        put_u8(dst, self.flags);
        let ghost mut e: Seq<u8> = seq![self@.flags];
        put_u32(dst, self.flying_speed);
        proof {
            lemma_concat_associative(d0, e, be_u32_bytes(self@.flying_speed));
            e = e + be_u32_bytes(self@.flying_speed);
        }
        put_u32(dst, self.walking_speed);
        proof {
            lemma_concat_associative(d0, e, be_u32_bytes(self@.walking_speed));
            e = e + be_u32_bytes(self@.walking_speed);
        }
        Ok(())
    }
}

impl Decode for ClientboundPlayerAbilities {
    fn decode(src: &mut Bytes) -> (r: Result<Self, ProtocolError>) {
        need(src, 9)?;
        let flags = get_u8(src);
        let flying_speed = get_u32(src);
        let walking_speed = get_u32(src);
        Ok(Self { flags, flying_speed, walking_speed })
    }
}

// ── ClientboundSetCarriedItem ─────────────────────────────────────────

#[derive(Debug, Clone, PartialEq)]
pub struct ClientboundSetCarriedItem {
    pub slot: i8,
}

impl View for ClientboundSetCarriedItem {
    type V = ClientboundSetCarriedItem;

    open spec fn view(&self) -> ClientboundSetCarriedItem {
        *self
    }
}

impl WireFormat for ClientboundSetCarriedItem {
    open spec fn spec_encode(p: ClientboundSetCarriedItem) -> Seq<u8> {
        seq![p.slot as u8]
    }

    open spec fn spec_decode(s: Seq<u8>) -> Parsed<ClientboundSetCarriedItem> {
        then(need_spec(s, 1), |_u: (), s: Seq<u8>| then(take_i8(s), |slot: i8, s: Seq<u8>| (Ok(ClientboundSetCarriedItem { slot }), s)))
    }
}

impl Roundtrip for ClientboundSetCarriedItem {
    open spec fn encodable(p: ClientboundSetCarriedItem) -> bool {
        true
    }

    open spec fn reads_to_end() -> bool {
        false
    }

    proof fn lemma_roundtrip(p: ClientboundSetCarriedItem, rest: Seq<u8>) {
        broadcast use group_wire_roundtrip;

    }
}

impl Encode for ClientboundSetCarriedItem {
    fn encode(&self, dst: &mut BytesMut) -> (r: Result<(), ProtocolError>) {
        let ghost d0 = bytes_mut_data(*dst);
        put_i8(dst, self.slot);
        let ghost mut e: Seq<u8> = seq![self@.slot as u8];
        Ok(())
    }
}

impl Decode for ClientboundSetCarriedItem {
    fn decode(src: &mut Bytes) -> (r: Result<Self, ProtocolError>) {
        need(src, 1)?;
        let slot = get_i8(src);
        Ok(Self { slot })
    }
}

// ── ClientboundSound ──────────────────────────────────────────────────

#[derive(Debug, Clone, PartialEq)]
pub struct ClientboundSound {
    pub sound_id: VarInt,
    pub sound_category: VarInt,
    pub effect_pos_x: i32,
    pub effect_pos_y: i32,
    pub effect_pos_z: i32,
    /// The bits of the `f32` value (`f32::to_bits`).
    pub volume: u32,
    /// The bits of the `f32` value (`f32::to_bits`).
    pub pitch: u32,
}

impl View for ClientboundSound {
    type V = ClientboundSound;

    open spec fn view(&self) -> ClientboundSound {
        *self
    }
}

impl WireFormat for ClientboundSound {
    open spec fn spec_encode(p: ClientboundSound) -> Seq<u8> {
        VarInt::spec_encode(p.sound_id) + VarInt::spec_encode(p.sound_category) + be_i32_bytes(p.effect_pos_x) + be_i32_bytes(p.effect_pos_y) + be_i32_bytes(p.effect_pos_z) + be_u32_bytes(p.volume) + be_u32_bytes(p.pitch)
    }

    open spec fn spec_decode(s: Seq<u8>) -> Parsed<ClientboundSound> {
        then(VarInt::spec_decode(s), |sound_id: VarInt, s: Seq<u8>| then(VarInt::spec_decode(s), |sound_category: VarInt, s: Seq<u8>| then(need_spec(s, 20), |_u: (), s: Seq<u8>| then(take_i32(s), |effect_pos_x: i32, s: Seq<u8>| then(take_i32(s), |effect_pos_y: i32, s: Seq<u8>| then(take_i32(s), |effect_pos_z: i32, s: Seq<u8>| then(take_u32(s), |volume: u32, s: Seq<u8>| then(take_u32(s), |pitch: u32, s: Seq<u8>| (Ok(ClientboundSound { sound_id, sound_category, effect_pos_x, effect_pos_y, effect_pos_z, volume, pitch }), s)))))))))
    }
}

impl Roundtrip for ClientboundSound {
    open spec fn encodable(p: ClientboundSound) -> bool {
        true
    }

    open spec fn reads_to_end() -> bool {
        false
    }

    #[verifier::rlimit(100)]
    #[verifier::spinoff_prover]
    proof fn lemma_roundtrip(p: ClientboundSound, rest: Seq<u8>) {
        broadcast use group_wire_roundtrip;

        let t6 = be_u32_bytes(p.pitch) + rest;
        let t5 = be_u32_bytes(p.volume) + t6;
        let t4 = be_i32_bytes(p.effect_pos_z) + t5;
        let t3 = be_i32_bytes(p.effect_pos_y) + t4;
        let t2 = be_i32_bytes(p.effect_pos_x) + t3;
        let t1 = VarInt::spec_encode(p.sound_category) + t2;
        lemma_concat_associative(VarInt::spec_encode(p.sound_id) + VarInt::spec_encode(p.sound_category) + be_i32_bytes(p.effect_pos_x) + be_i32_bytes(p.effect_pos_y) + be_i32_bytes(p.effect_pos_z) + be_u32_bytes(p.volume), be_u32_bytes(p.pitch), rest);
        lemma_concat_associative(VarInt::spec_encode(p.sound_id) + VarInt::spec_encode(p.sound_category) + be_i32_bytes(p.effect_pos_x) + be_i32_bytes(p.effect_pos_y) + be_i32_bytes(p.effect_pos_z), be_u32_bytes(p.volume), t6);
        lemma_concat_associative(VarInt::spec_encode(p.sound_id) + VarInt::spec_encode(p.sound_category) + be_i32_bytes(p.effect_pos_x) + be_i32_bytes(p.effect_pos_y), be_i32_bytes(p.effect_pos_z), t5);
        lemma_concat_associative(VarInt::spec_encode(p.sound_id) + VarInt::spec_encode(p.sound_category) + be_i32_bytes(p.effect_pos_x), be_i32_bytes(p.effect_pos_y), t4);
        lemma_concat_associative(VarInt::spec_encode(p.sound_id) + VarInt::spec_encode(p.sound_category), be_i32_bytes(p.effect_pos_x), t3);
        lemma_concat_associative(VarInt::spec_encode(p.sound_id), VarInt::spec_encode(p.sound_category), t2);
        VarInt::lemma_roundtrip(p.sound_id, t1);
        VarInt::lemma_roundtrip(p.sound_category, t2);
    }
}

impl Encode for ClientboundSound {
    fn encode(&self, dst: &mut BytesMut) -> (r: Result<(), ProtocolError>) {
        let ghost d0 = bytes_mut_data(*dst);
        let _ = self.sound_id.encode(dst);
        let ghost mut e: Seq<u8> = VarInt::spec_encode(self@.sound_id);
        let _ = self.sound_category.encode(dst);
        proof {
            lemma_concat_associative(d0, e, VarInt::spec_encode(self@.sound_category));
            e = e + VarInt::spec_encode(self@.sound_category);
        }
        put_i32(dst, self.effect_pos_x);
        proof {
            lemma_concat_associative(d0, e, be_i32_bytes(self@.effect_pos_x));
            e = e + be_i32_bytes(self@.effect_pos_x);
        }
        put_i32(dst, self.effect_pos_y);
        proof {
            lemma_concat_associative(d0, e, be_i32_bytes(self@.effect_pos_y));
            e = e + be_i32_bytes(self@.effect_pos_y);
        }
        put_i32(dst, self.effect_pos_z);
        proof {
            lemma_concat_associative(d0, e, be_i32_bytes(self@.effect_pos_z));
            e = e + be_i32_bytes(self@.effect_pos_z);
        }
        put_u32(dst, self.volume);
        proof {
            lemma_concat_associative(d0, e, be_u32_bytes(self@.volume));
            e = e + be_u32_bytes(self@.volume);
        }
        put_u32(dst, self.pitch);
        proof {
            lemma_concat_associative(d0, e, be_u32_bytes(self@.pitch));
            e = e + be_u32_bytes(self@.pitch);
        }
        Ok(())
    }
}

impl Decode for ClientboundSound {
    fn decode(src: &mut Bytes) -> (r: Result<Self, ProtocolError>) {
        let sound_id = VarInt::decode(src)?;
        let sound_category = VarInt::decode(src)?;
        need(src, 20)?;
        let effect_pos_x = get_i32(src);
        let effect_pos_y = get_i32(src);
        let effect_pos_z = get_i32(src);
        let volume = get_u32(src);
        let pitch = get_u32(src);
        Ok(Self { sound_id, sound_category, effect_pos_x, effect_pos_y, effect_pos_z, volume, pitch })
    }
}

// ── ClientboundBossBar ───────────────────────────────────────────────

/// What a boss bar packet does to the bar.
#[derive(Debug, Clone, PartialEq)]
pub enum BossBarAction {
    Add {
        title: String,
        /// The bits of the `f32` value (`f32::to_bits`).
        health: u32,
        color: VarInt,
        division: VarInt,
        flags: u8,
    },
    Remove,
    UpdateHealth {
        /// The bits of the `f32` value (`f32::to_bits`).
        health: u32,
    },
    UpdateTitle { title: String },
    UpdateStyle { color: VarInt, division: VarInt },
    UpdateFlags { flags: u8 },
}

pub enum BossBarActionView {
    Add { title: Seq<char>, health: u32, color: VarInt, division: VarInt, flags: u8 },
    Remove,
    UpdateHealth { health: u32 },
    UpdateTitle { title: Seq<char> },
    UpdateStyle { color: VarInt, division: VarInt },
    UpdateFlags { flags: u8 },
}

impl View for BossBarAction {
    type V = BossBarActionView;

    open spec fn view(&self) -> BossBarActionView {
        match self {
            BossBarAction::Add { title, health, color, division, flags } => BossBarActionView::Add {
                title: title@,
                health: *health,
                color: *color,
                division: *division,
                flags: *flags,
            },
            BossBarAction::Remove => BossBarActionView::Remove,
            BossBarAction::UpdateHealth { health } => BossBarActionView::UpdateHealth { health: *health },
            BossBarAction::UpdateTitle { title } => BossBarActionView::UpdateTitle { title: title@ },
            BossBarAction::UpdateStyle { color, division } => BossBarActionView::UpdateStyle {
                color: *color,
                division: *division,
            },
            BossBarAction::UpdateFlags { flags } => BossBarActionView::UpdateFlags { flags: *flags },
        }
    }
}

#[derive(Debug, Clone, PartialEq)]
pub struct ClientboundBossBar {
    /// The UUID as its 128-bit value (`uuid::Uuid::as_u128`).
    pub uuid: u128,
    pub action: BossBarAction,
}

pub struct ClientboundBossBarView {
    pub uuid: u128,
    pub action: BossBarActionView,
}

impl View for ClientboundBossBar {
    type V = ClientboundBossBarView;

    open spec fn view(&self) -> ClientboundBossBarView {
        ClientboundBossBarView { uuid: self.uuid, action: self.action@ }
    }
}
/// The VarInt id that names an action on the wire.
pub open spec fn boss_bar_action_id(a: BossBarActionView) -> i32 {
    match a {
        BossBarActionView::Add { .. } => 0,
        BossBarActionView::Remove => 1,
        BossBarActionView::UpdateHealth { .. } => 2,
        BossBarActionView::UpdateTitle { .. } => 3,
        BossBarActionView::UpdateStyle { .. } => 4,
        BossBarActionView::UpdateFlags { .. } => 5,
    }
}

/// The bytes of an action's fields, after its id.
pub open spec fn boss_bar_action_fields(a: BossBarActionView) -> Seq<u8> {
    match a {
        BossBarActionView::Add { title, health, color, division, flags } => string_wire(title)
            + be_u32_bytes(health) + VarInt::spec_encode(color) + VarInt::spec_encode(division) + seq![flags],
        BossBarActionView::Remove => Seq::<u8>::empty(),
        BossBarActionView::UpdateHealth { health } => be_u32_bytes(health),
        BossBarActionView::UpdateTitle { title } => string_wire(title),
        BossBarActionView::UpdateStyle { color, division } => VarInt::spec_encode(color) + VarInt::spec_encode(
            division,
        ),
        BossBarActionView::UpdateFlags { flags } => seq![flags],
    }
}

/// Reading the fields of the action with id `id`; an id other than 0 to
/// 5 is `InvalidData`.
pub open spec fn boss_bar_action_spec(id: i32, s: Seq<u8>) -> Parsed<BossBarActionView> {
    if id == 0 {
        then(
            str_spec(s, "BossBar Add title"@),
            |title: Seq<char>, s: Seq<u8>|
                then(
                    need_spec(s, 4),
                    |_u: (), s: Seq<u8>|
                        then(
                            take_u32(s),
                            |health: u32, s: Seq<u8>|
                                then(
                                    VarInt::spec_decode(s),
                                    |color: VarInt, s: Seq<u8>|
                                        then(
                                            VarInt::spec_decode(s),
                                            |division: VarInt, s: Seq<u8>|
                                                then(
                                                    need_spec(s, 1),
                                                    |_u: (), s: Seq<u8>|
                                                        then(
                                                            take_u8(s),
                                                            |flags: u8, s: Seq<u8>|
                                                                (
                                                                    Ok(
                                                                        BossBarActionView::Add {
                                                                            title,
                                                                            health,
                                                                            color,
                                                                            division,
                                                                            flags,
                                                                        },
                                                                    ),
                                                                    s,
                                                                ),
                                                        ),
                                                ),
                                        ),
                                ),
                        ),
                ),
        )
    } else if id == 1 {
        (Ok(BossBarActionView::Remove), s)
    } else if id == 2 {
        then(
            need_spec(s, 4),
            |_u: (), s: Seq<u8>|
                then(take_u32(s), |health: u32, s: Seq<u8>| (Ok(BossBarActionView::UpdateHealth { health }), s)),
        )
    } else if id == 3 {
        then(
            str_spec(s, "BossBar UpdateTitle"@),
            |title: Seq<char>, s: Seq<u8>| (Ok(BossBarActionView::UpdateTitle { title }), s),
        )
    } else if id == 4 {
        then(
            VarInt::spec_decode(s),
            |color: VarInt, s: Seq<u8>|
                then(
                    VarInt::spec_decode(s),
                    |division: VarInt, s: Seq<u8>| (Ok(BossBarActionView::UpdateStyle { color, division }), s),
                ),
        )
    } else if id == 5 {
        then(
            need_spec(s, 1),
            |_u: (), s: Seq<u8>|
                then(take_u8(s), |flags: u8, s: Seq<u8>| (Ok(BossBarActionView::UpdateFlags { flags }), s)),
        )
    } else {
        (Err(ErrorView::Io(IoErrorKind::InvalidData, "Unknown BossBar action id"@)), s)
    }
}

/// The titles fit their length prefix.
pub open spec fn boss_bar_action_fits(a: BossBarActionView) -> bool {
    match a {
        BossBarActionView::Add { title, .. } => string_fits(title),
        BossBarActionView::UpdateTitle { title } => string_fits(title),
        _ => true,
    }
}

fn decode_boss_bar_action(id: i32, src: &mut Bytes) -> (r: Result<BossBarAction, ProtocolError>)
    requires
        !panics(boss_bar_action_spec(id, bytes_data(*old(src)))),
    ensures
        boss_bar_action_spec(id, bytes_data(*old(src))) == (result_view(r), bytes_data(*final(src))),
{
    if id == 0 {
        let title = decode_str(src, "BossBar Add title")?;
        need(src, 4)?;
        let health = get_u32(src);
        let color = VarInt::decode(src)?;
        let division = VarInt::decode(src)?;
        need(src, 1)?;
        let flags = get_u8(src);
        Ok(BossBarAction::Add { title, health, color, division, flags })
    } else if id == 1 {
        Ok(BossBarAction::Remove)
    } else if id == 2 {
        need(src, 4)?;
        Ok(BossBarAction::UpdateHealth { health: get_u32(src) })
    } else if id == 3 {
        let title = decode_str(src, "BossBar UpdateTitle")?;
        Ok(BossBarAction::UpdateTitle { title })
    } else if id == 4 {
        let color = VarInt::decode(src)?;
        let division = VarInt::decode(src)?;
        Ok(BossBarAction::UpdateStyle { color, division })
    } else if id == 5 {
        need(src, 1)?;
        Ok(BossBarAction::UpdateFlags { flags: get_u8(src) })
    } else {
        Err(io_error(IoErrorKind::InvalidData, "Unknown BossBar action id"))
    }
}

fn encode_boss_bar_action(a: &BossBarAction, dst: &mut BytesMut)
    ensures
        bytes_mut_data(*final(dst)) == bytes_mut_data(*old(dst)) + boss_bar_action_fields(a@),
{
    let ghost d0 = bytes_mut_data(*dst);
    match a {
        BossBarAction::Add { title, health, color, division, flags } => {
            let ghost e0 = string_wire(title@);
            let ghost e1 = be_u32_bytes(*health);
            let ghost e2 = VarInt::spec_encode(*color);
            let ghost e3 = VarInt::spec_encode(*division);
            let ghost e4 = seq![*flags];
            encode_str(title.as_str(), dst);
            put_u32(dst, *health);
            let _ = color.encode(dst);
            let _ = division.encode(dst);
            put_u8(dst, *flags);
            proof {
                lemma_concat_associative(d0, e0, e1);
                lemma_concat_associative(d0, e0 + e1, e2);
                lemma_concat_associative(d0, e0 + e1 + e2, e3);
                lemma_concat_associative(d0, e0 + e1 + e2 + e3, e4);
            }
        },
        BossBarAction::Remove => {
            assert(bytes_mut_data(*dst) =~= d0 + Seq::<u8>::empty());
        },
        BossBarAction::UpdateHealth { health } => {
            put_u32(dst, *health);
        },
        BossBarAction::UpdateTitle { title } => {
            encode_str(title.as_str(), dst);
        },
        BossBarAction::UpdateStyle { color, division } => {
            let _ = color.encode(dst);
            let _ = division.encode(dst);
            proof {
                lemma_concat_associative(d0, VarInt::spec_encode(*color), VarInt::spec_encode(*division));
            }
        },
        BossBarAction::UpdateFlags { flags } => {
            put_u8(dst, *flags);
        },
    }
}

/// Reading the fields of an action, under its own id, gives it back.
pub proof fn lemma_boss_bar_action_roundtrip(a: BossBarActionView, rest: Seq<u8>)
    requires
        boss_bar_action_fits(a),
    ensures
        boss_bar_action_spec(boss_bar_action_id(a), boss_bar_action_fields(a) + rest) == (Ok::<
            BossBarActionView,
            ErrorView,
        >(a), rest),
{
    broadcast use group_wire_roundtrip;

    match a {
        BossBarActionView::Add { title, health, color, division, flags } => {
            let e0 = string_wire(title);
            let e1 = be_u32_bytes(health);
            let e2 = VarInt::spec_encode(color);
            let e3 = VarInt::spec_encode(division);
            let e4 = seq![flags];
            let t4 = e4 + rest;
            let t3 = e3 + t4;
            let t2 = e2 + t3;
            let t1 = e1 + t2;
            lemma_concat_associative(e0 + e1 + e2 + e3, e4, rest);
            lemma_concat_associative(e0 + e1 + e2, e3, t4);
            lemma_concat_associative(e0 + e1, e2, t3);
            lemma_concat_associative(e0, e1, t2);
            lemma_string_roundtrip(title, t1, missing_for("BossBar Add title"@), invalid_in("BossBar Add title"@));
            VarInt::lemma_roundtrip(color, t3);
            VarInt::lemma_roundtrip(division, t4);
        },
        BossBarActionView::Remove => {
            assert(Seq::<u8>::empty() + rest =~= rest);
        },
        BossBarActionView::UpdateHealth { health } => {},
        BossBarActionView::UpdateTitle { title } => {
            lemma_string_roundtrip(
                title,
                rest,
                missing_for("BossBar UpdateTitle"@),
                invalid_in("BossBar UpdateTitle"@),
            );
        },
        BossBarActionView::UpdateStyle { color, division } => {
            let t = VarInt::spec_encode(division) + rest;
            lemma_concat_associative(VarInt::spec_encode(color), VarInt::spec_encode(division), rest);
            VarInt::lemma_roundtrip(color, t);
            VarInt::lemma_roundtrip(division, rest);
        },
        BossBarActionView::UpdateFlags { flags } => {},
    }
}

impl WireFormat for ClientboundBossBar {
    open spec fn spec_encode(p: ClientboundBossBarView) -> Seq<u8> {
        uuid_wire(p.uuid) + VarInt::spec_encode(VarInt(boss_bar_action_id(p.action))) + boss_bar_action_fields(
            p.action,
        )
    }

    open spec fn spec_decode(s: Seq<u8>) -> Parsed<ClientboundBossBarView> {
        then(
            need_spec(s, 16),
            |_u: (), s: Seq<u8>|
                then(
                    take_uuid(s),
                    |uuid: u128, s: Seq<u8>|
                        then(
                            take_varint_i32(s),
                            |id: i32, s: Seq<u8>|
                                then(
                                    boss_bar_action_spec(id, s),
                                    |action: BossBarActionView, s: Seq<u8>|
                                        (Ok(ClientboundBossBarView { uuid, action }), s),
                                ),
                        ),
                ),
        )
    }
}

impl Roundtrip for ClientboundBossBar {
    open spec fn encodable(p: ClientboundBossBarView) -> bool {
        boss_bar_action_fits(p.action)
    }

    open spec fn reads_to_end() -> bool {
        false
    }

    proof fn lemma_roundtrip(p: ClientboundBossBarView, rest: Seq<u8>) {
        let e0 = uuid_wire(p.uuid);
        let e1 = VarInt::spec_encode(VarInt(boss_bar_action_id(p.action)));
        let e2 = boss_bar_action_fields(p.action);
        let t2 = e2 + rest;
        let t1 = e1 + t2;
        lemma_concat_associative(e0 + e1, e2, rest);
        lemma_concat_associative(e0, e1, t2);
        lemma_take_uuid(p.uuid, t1);
        VarInt::lemma_roundtrip(VarInt(boss_bar_action_id(p.action)), t2);
        lemma_boss_bar_action_roundtrip(p.action, rest);
    }
}

impl Encode for ClientboundBossBar {
    fn encode(&self, dst: &mut BytesMut) -> (r: Result<(), ProtocolError>) {
        let ghost d0 = bytes_mut_data(*dst);
        put_uuid(dst, self.uuid);
        let action_id: i32 = match &self.action {
            BossBarAction::Add { .. } => 0,
            BossBarAction::Remove => 1,
            BossBarAction::UpdateHealth { .. } => 2,
            BossBarAction::UpdateTitle { .. } => 3,
            BossBarAction::UpdateStyle { .. } => 4,
            BossBarAction::UpdateFlags { .. } => 5,
        };
        let ghost e0 = uuid_wire(self.uuid);
        let ghost e1 = VarInt::spec_encode(VarInt(action_id));
        let _ = VarInt(action_id).encode(dst);
        encode_boss_bar_action(&self.action, dst);
        proof {
            lemma_concat_associative(d0, e0, e1);
            lemma_concat_associative(d0, e0 + e1, boss_bar_action_fields(self.action@));
        }
        Ok(())
    }
}

impl Decode for ClientboundBossBar {
    fn decode(src: &mut Bytes) -> (r: Result<Self, ProtocolError>) {
        need(src, 16)?;
        let uuid = get_uuid(src);
        let id = VarInt::decode(src)?.0;
        let action = decode_boss_bar_action(id, src)?;
        Ok(Self { uuid, action })
    }
}


} // verus!
