//! 1.7.10 (protocol 5) play-state packets.
use crate::buffer::{
    bytes_data, bytes_mut_data, bytes_to_vec, copy_to_bytes, copy_to_slice, get_i16, get_i32, get_i64, get_i8,
    extend_from_slice, get_u16, get_u32, get_u64, get_u8, put_i16, put_i32, put_i64, put_i8, put_slice, put_u16, put_u32, put_u64,
    put_u8, remaining, string_from_utf8,
};
use crate::codec::{
    decode_dim_pos_codec, decode_string_vec, dim_pos_codec_fits, dim_pos_codec_spec, dim_pos_view,
    dim_pos_wire, encode_dim_pos_codec, encode_string_vec, lemma_dim_pos_codec_roundtrip, lemma_string_roundtrip, lemma_string_vec_roundtrip,
    result_view, string_fits, string_list_wire, string_piece, string_vec_fits, string_vec_spec,
    string_wire, strings_view, take_varint_i32, write_string, Decode, Encode, PacketId, Roundtrip,
    WireFormat,
};
use crate::error::{io_error, io_error_owned, ErrorView, IoErrorKind, ProtocolError};
use crate::text::{decimal, need_remaining_message};
use crate::types::VarInt;
use crate::versions::classic::{
    decode_i16_bytes, decode_str, encode_str, i16_bytes_spec, i16_bytes_wire, invalid_in,
    lemma_i16_bytes_roundtrip, missing_for, need, need_spec, str_spec,
};
use crate::types::uuid_wire::{get_uuid, lemma_take_uuid, put_uuid, take_uuid, uuid_wire};
use crate::versions::fields::{
    decode_eof_str, decode_fixed_str, eof_str_spec, fixed_str_spec, lemma_eof_str_roundtrip,
    lemma_fixed_str_roundtrip, need_eof, need_eof_spec, need_msg, need_msg_spec, skip_rest_spec,
    skip_remaining, take_remaining,
};
use crate::wire::{
    be_i16_bytes, be_i32_bytes, be_i64_bytes, be_u16_bytes, be_u32_bytes, be_u64_bytes, bool_byte,
    group_wire_roundtrip, lemma_read_n_err, lemma_read_write_n, panics, read_n, take_bool, take_i16, take_i32, take_i64, take_i8, take_rest,
    take_u16, take_u32, take_u64, take_u8, then, write_all, Parsed,
};
use bytes::{Bytes, BytesMut};
use vstd::prelude::*;
use vstd::seq_lib::lemma_concat_associative;
use vstd::utf8::*;

verus! {



// ── ClientboundKeepAlive ──────────────────────────────────────────────

#[derive(Debug, Clone, PartialEq)]
pub struct ClientboundKeepAlive {
    pub keep_alive_id: VarInt,
}

impl View for ClientboundKeepAlive {
    type V = ClientboundKeepAlive;

    open spec fn view(&self) -> ClientboundKeepAlive {
        *self
    }
}

impl PacketId for ClientboundKeepAlive {
    open spec fn spec_packet_id(ver: u32) -> u8 {
        0x00
    }

    fn packet_id(_ver: u32) -> (r: u8) {
        0x00
    }
}

impl WireFormat for ClientboundKeepAlive {
    open spec fn spec_encode(p: ClientboundKeepAlive) -> Seq<u8> {
        VarInt::spec_encode(p.keep_alive_id)
    }

    open spec fn spec_decode(s: Seq<u8>) -> Parsed<ClientboundKeepAlive> {
        then(VarInt::spec_decode(s), |keep_alive_id: VarInt, s: Seq<u8>| (Ok(ClientboundKeepAlive { keep_alive_id }), s))
    }
}

impl Roundtrip for ClientboundKeepAlive {
    open spec fn encodable(p: ClientboundKeepAlive) -> bool {
        true
    }

    open spec fn reads_to_end() -> bool {
        false
    }

    proof fn lemma_roundtrip(p: ClientboundKeepAlive, rest: Seq<u8>) {
        broadcast use group_wire_roundtrip;

        VarInt::lemma_roundtrip(p.keep_alive_id, rest);
    }
}

impl Encode for ClientboundKeepAlive {
    fn encode(&self, dst: &mut BytesMut) -> (r: Result<(), ProtocolError>) {
        let ghost d0 = bytes_mut_data(*dst);
        let _ = self.keep_alive_id.encode(dst);
        let ghost mut e: Seq<u8> = VarInt::spec_encode(self@.keep_alive_id);
        Ok(())
    }
}

impl Decode for ClientboundKeepAlive {
    fn decode(src: &mut Bytes) -> (r: Result<Self, ProtocolError>) {
        let keep_alive_id = VarInt::decode(src)?;
        Ok(Self { keep_alive_id })
    }
}

// ── ServerboundKeepAlive ──────────────────────────────────────────────

#[derive(Debug, Clone, PartialEq)]
pub struct ServerboundKeepAlive {
    pub keep_alive_id: VarInt,
}

impl View for ServerboundKeepAlive {
    type V = ServerboundKeepAlive;

    open spec fn view(&self) -> ServerboundKeepAlive {
        *self
    }
}

impl PacketId for ServerboundKeepAlive {
    open spec fn spec_packet_id(ver: u32) -> u8 {
        0x00
    }

    fn packet_id(_ver: u32) -> (r: u8) {
        0x00
    }
}

impl WireFormat for ServerboundKeepAlive {
    open spec fn spec_encode(p: ServerboundKeepAlive) -> Seq<u8> {
        VarInt::spec_encode(p.keep_alive_id)
    }

    open spec fn spec_decode(s: Seq<u8>) -> Parsed<ServerboundKeepAlive> {
        then(VarInt::spec_decode(s), |keep_alive_id: VarInt, s: Seq<u8>| (Ok(ServerboundKeepAlive { keep_alive_id }), s))
    }
}

impl Roundtrip for ServerboundKeepAlive {
    open spec fn encodable(p: ServerboundKeepAlive) -> bool {
        true
    }

    open spec fn reads_to_end() -> bool {
        false
    }

    proof fn lemma_roundtrip(p: ServerboundKeepAlive, rest: Seq<u8>) {
        broadcast use group_wire_roundtrip;

        VarInt::lemma_roundtrip(p.keep_alive_id, rest);
    }
}

impl Encode for ServerboundKeepAlive {
    fn encode(&self, dst: &mut BytesMut) -> (r: Result<(), ProtocolError>) {
        let ghost d0 = bytes_mut_data(*dst);
        let _ = self.keep_alive_id.encode(dst);
        let ghost mut e: Seq<u8> = VarInt::spec_encode(self@.keep_alive_id);
        Ok(())
    }
}

impl Decode for ServerboundKeepAlive {
    fn decode(src: &mut Bytes) -> (r: Result<Self, ProtocolError>) {
        let keep_alive_id = VarInt::decode(src)?;
        Ok(Self { keep_alive_id })
    }
}

// ── ClientboundJoinGame ───────────────────────────────────────────────

#[derive(Debug, Clone, PartialEq)]
pub struct ClientboundJoinGame {
    pub entity_id: i32,
    pub game_mode: u8,
    pub dimension: i8,
    pub difficulty: u8,
    pub max_players: u8,
    pub level_type: String,
    pub reduced_debug_info: bool,
}

pub struct ClientboundJoinGameView {
    pub entity_id: i32,
    pub game_mode: u8,
    pub dimension: i8,
    pub difficulty: u8,
    pub max_players: u8,
    pub level_type: Seq<char>,
    pub reduced_debug_info: bool,
}

impl View for ClientboundJoinGame {
    type V = ClientboundJoinGameView;

    open spec fn view(&self) -> ClientboundJoinGameView {
        ClientboundJoinGameView {
            entity_id: self.entity_id,
            game_mode: self.game_mode,
            dimension: self.dimension,
            difficulty: self.difficulty,
            max_players: self.max_players,
            level_type: self.level_type@,
            reduced_debug_info: self.reduced_debug_info,
        }
    }
}

impl PacketId for ClientboundJoinGame {
    open spec fn spec_packet_id(ver: u32) -> u8 {
        0x01
    }

    fn packet_id(_ver: u32) -> (r: u8) {
        0x01
    }
}

impl WireFormat for ClientboundJoinGame {
    open spec fn spec_encode(p: ClientboundJoinGameView) -> Seq<u8> {
        be_i32_bytes(p.entity_id) + seq![p.game_mode] + seq![p.dimension as u8] + seq![p.difficulty] + seq![p.max_players] + string_wire(p.level_type) + seq![bool_byte(p.reduced_debug_info)]
    }

    open spec fn spec_decode(s: Seq<u8>) -> Parsed<ClientboundJoinGameView> {
        then(need_spec(s, 8), |_u: (), s: Seq<u8>| then(take_i32(s), |entity_id: i32, s: Seq<u8>| then(take_u8(s), |game_mode: u8, s: Seq<u8>| then(take_i8(s), |dimension: i8, s: Seq<u8>| then(take_u8(s), |difficulty: u8, s: Seq<u8>| then(take_u8(s), |max_players: u8, s: Seq<u8>| then(str_spec(s, "ClientboundJoinGame level_type"@), |level_type: Seq<char>, s: Seq<u8>| then(need_spec(s, 1), |_u: (), s: Seq<u8>| then(take_bool(s), |reduced_debug_info: bool, s: Seq<u8>| (Ok(ClientboundJoinGameView { entity_id, game_mode, dimension, difficulty, max_players, level_type, reduced_debug_info }), s))))))))))
    }
}

impl Roundtrip for ClientboundJoinGame {
    open spec fn encodable(p: ClientboundJoinGameView) -> bool {
        string_fits(p.level_type)
    }

    open spec fn reads_to_end() -> bool {
        false
    }

    #[verifier::rlimit(100)]
    #[verifier::spinoff_prover]
    proof fn lemma_roundtrip(p: ClientboundJoinGameView, rest: Seq<u8>) {
        broadcast use group_wire_roundtrip;

        let t6 = seq![bool_byte(p.reduced_debug_info)] + rest;
        let t5 = string_wire(p.level_type) + t6;
        let t4 = seq![p.max_players] + t5;
        let t3 = seq![p.difficulty] + t4;
        let t2 = seq![p.dimension as u8] + t3;
        let t1 = seq![p.game_mode] + t2;
        lemma_concat_associative(be_i32_bytes(p.entity_id) + seq![p.game_mode] + seq![p.dimension as u8] + seq![p.difficulty] + seq![p.max_players] + string_wire(p.level_type), seq![bool_byte(p.reduced_debug_info)], rest);
        lemma_concat_associative(be_i32_bytes(p.entity_id) + seq![p.game_mode] + seq![p.dimension as u8] + seq![p.difficulty] + seq![p.max_players], string_wire(p.level_type), t6);
        lemma_concat_associative(be_i32_bytes(p.entity_id) + seq![p.game_mode] + seq![p.dimension as u8] + seq![p.difficulty], seq![p.max_players], t5);
        lemma_concat_associative(be_i32_bytes(p.entity_id) + seq![p.game_mode] + seq![p.dimension as u8], seq![p.difficulty], t4);
        lemma_concat_associative(be_i32_bytes(p.entity_id) + seq![p.game_mode], seq![p.dimension as u8], t3);
        lemma_concat_associative(be_i32_bytes(p.entity_id), seq![p.game_mode], t2);
        lemma_string_roundtrip(p.level_type, t6, missing_for("ClientboundJoinGame level_type"@), invalid_in("ClientboundJoinGame level_type"@));
    }
}

impl Encode for ClientboundJoinGame {
    fn encode(&self, dst: &mut BytesMut) -> (r: Result<(), ProtocolError>) {
        let ghost d0 = bytes_mut_data(*dst);
        put_i32(dst, self.entity_id);
        let ghost mut e: Seq<u8> = be_i32_bytes(self@.entity_id);
        put_u8(dst, self.game_mode);
        proof {
            lemma_concat_associative(d0, e, seq![self@.game_mode]);
            e = e + seq![self@.game_mode];
        }
        put_i8(dst, self.dimension);
        proof {
            lemma_concat_associative(d0, e, seq![self@.dimension as u8]);
            e = e + seq![self@.dimension as u8];
        }
        put_u8(dst, self.difficulty);
        proof {
            lemma_concat_associative(d0, e, seq![self@.difficulty]);
            e = e + seq![self@.difficulty];
        }
        put_u8(dst, self.max_players);
        proof {
            lemma_concat_associative(d0, e, seq![self@.max_players]);
            e = e + seq![self@.max_players];
        }
        encode_str(self.level_type.as_str(), dst);
        proof {
            lemma_concat_associative(d0, e, string_wire(self@.level_type));
            e = e + string_wire(self@.level_type);
        }
        put_u8(dst, self.reduced_debug_info as u8);
        proof {
            lemma_concat_associative(d0, e, seq![bool_byte(self@.reduced_debug_info)]);
            e = e + seq![bool_byte(self@.reduced_debug_info)];
        }
        Ok(())
    }
}

impl Decode for ClientboundJoinGame {
    fn decode(src: &mut Bytes) -> (r: Result<Self, ProtocolError>) {
        need(src, 8)?;
        let entity_id = get_i32(src);
        let game_mode = get_u8(src);
        let dimension = get_i8(src);
        let difficulty = get_u8(src);
        let max_players = get_u8(src);
        let level_type = decode_str(src, "ClientboundJoinGame level_type")?;
        need(src, 1)?;
        let reduced_debug_info = get_u8(src) != 0;
        Ok(Self { entity_id, game_mode, dimension, difficulty, max_players, level_type, reduced_debug_info })
    }
}

// ── ClientboundChatMessage ────────────────────────────────────────────

#[derive(Debug, Clone, PartialEq)]
pub struct ClientboundChatMessage {
    pub json_message: String,
    pub position: u8,
}

pub struct ClientboundChatMessageView {
    pub json_message: Seq<char>,
    pub position: u8,
}

impl View for ClientboundChatMessage {
    type V = ClientboundChatMessageView;

    open spec fn view(&self) -> ClientboundChatMessageView {
        ClientboundChatMessageView {
            json_message: self.json_message@,
            position: self.position,
        }
    }
}

impl PacketId for ClientboundChatMessage {
    open spec fn spec_packet_id(ver: u32) -> u8 {
        0x02
    }

    fn packet_id(_ver: u32) -> (r: u8) {
        0x02
    }
}

impl WireFormat for ClientboundChatMessage {
    open spec fn spec_encode(p: ClientboundChatMessageView) -> Seq<u8> {
        string_wire(p.json_message) + seq![p.position]
    }

    open spec fn spec_decode(s: Seq<u8>) -> Parsed<ClientboundChatMessageView> {
        then(str_spec(s, "ClientboundChatMessage json_message"@), |json_message: Seq<char>, s: Seq<u8>| then(need_spec(s, 1), |_u: (), s: Seq<u8>| then(take_u8(s), |position: u8, s: Seq<u8>| (Ok(ClientboundChatMessageView { json_message, position }), s))))
    }
}

impl Roundtrip for ClientboundChatMessage {
    open spec fn encodable(p: ClientboundChatMessageView) -> bool {
        string_fits(p.json_message)
    }

    open spec fn reads_to_end() -> bool {
        false
    }

    proof fn lemma_roundtrip(p: ClientboundChatMessageView, rest: Seq<u8>) {
        broadcast use group_wire_roundtrip;

        let t1 = seq![p.position] + rest;
        lemma_concat_associative(string_wire(p.json_message), seq![p.position], rest);
        lemma_string_roundtrip(p.json_message, t1, missing_for("ClientboundChatMessage json_message"@), invalid_in("ClientboundChatMessage json_message"@));
    }
}

impl Encode for ClientboundChatMessage {
    fn encode(&self, dst: &mut BytesMut) -> (r: Result<(), ProtocolError>) {
        let ghost d0 = bytes_mut_data(*dst);
        encode_str(self.json_message.as_str(), dst);
        let ghost mut e: Seq<u8> = string_wire(self@.json_message);
        put_u8(dst, self.position);
        proof {
            lemma_concat_associative(d0, e, seq![self@.position]);
            e = e + seq![self@.position];
        }
        Ok(())
    }
}

impl Decode for ClientboundChatMessage {
    fn decode(src: &mut Bytes) -> (r: Result<Self, ProtocolError>) {
        let json_message = decode_str(src, "ClientboundChatMessage json_message")?;
        need(src, 1)?;
        let position = get_u8(src);
        Ok(Self { json_message, position })
    }
}

// ── ServerboundChatMessage ────────────────────────────────────────────

#[derive(Debug, Clone, PartialEq)]
pub struct ServerboundChatMessage {
    pub message: String,
}

pub struct ServerboundChatMessageView {
    pub message: Seq<char>,
}

impl View for ServerboundChatMessage {
    type V = ServerboundChatMessageView;

    open spec fn view(&self) -> ServerboundChatMessageView {
        ServerboundChatMessageView {
            message: self.message@,
        }
    }
}

impl PacketId for ServerboundChatMessage {
    open spec fn spec_packet_id(ver: u32) -> u8 {
        0x01
    }

    fn packet_id(_ver: u32) -> (r: u8) {
        0x01
    }
}

impl WireFormat for ServerboundChatMessage {
    open spec fn spec_encode(p: ServerboundChatMessageView) -> Seq<u8> {
        string_wire(p.message)
    }

    open spec fn spec_decode(s: Seq<u8>) -> Parsed<ServerboundChatMessageView> {
        then(str_spec(s, "ServerboundChatMessage message"@), |message: Seq<char>, s: Seq<u8>| (Ok(ServerboundChatMessageView { message }), s))
    }
}

impl Roundtrip for ServerboundChatMessage {
    open spec fn encodable(p: ServerboundChatMessageView) -> bool {
        string_fits(p.message)
    }

    open spec fn reads_to_end() -> bool {
        false
    }

    proof fn lemma_roundtrip(p: ServerboundChatMessageView, rest: Seq<u8>) {
        broadcast use group_wire_roundtrip;

        lemma_string_roundtrip(p.message, rest, missing_for("ServerboundChatMessage message"@), invalid_in("ServerboundChatMessage message"@));
    }
}

impl Encode for ServerboundChatMessage {
    fn encode(&self, dst: &mut BytesMut) -> (r: Result<(), ProtocolError>) {
        let ghost d0 = bytes_mut_data(*dst);
        encode_str(self.message.as_str(), dst);
        let ghost mut e: Seq<u8> = string_wire(self@.message);
        Ok(())
    }
}

impl Decode for ServerboundChatMessage {
    fn decode(src: &mut Bytes) -> (r: Result<Self, ProtocolError>) {
        let message = decode_str(src, "ServerboundChatMessage message")?;
        Ok(Self { message })
    }
}

// ── ClientboundRespawn ────────────────────────────────────────────────

#[derive(Debug, Clone, PartialEq)]
pub struct ClientboundRespawn {
    pub dimension: i32,
    pub difficulty: u8,
    pub game_mode: u8,
    pub level_type: String,
}

pub struct ClientboundRespawnView {
    pub dimension: i32,
    pub difficulty: u8,
    pub game_mode: u8,
    pub level_type: Seq<char>,
}

impl View for ClientboundRespawn {
    type V = ClientboundRespawnView;

    open spec fn view(&self) -> ClientboundRespawnView {
        ClientboundRespawnView {
            dimension: self.dimension,
            difficulty: self.difficulty,
            game_mode: self.game_mode,
            level_type: self.level_type@,
        }
    }
}

impl PacketId for ClientboundRespawn {
    open spec fn spec_packet_id(ver: u32) -> u8 {
        0x07
    }

    fn packet_id(_ver: u32) -> (r: u8) {
        0x07
    }
}

impl WireFormat for ClientboundRespawn {
    open spec fn spec_encode(p: ClientboundRespawnView) -> Seq<u8> {
        be_i32_bytes(p.dimension) + seq![p.difficulty] + seq![p.game_mode] + string_wire(p.level_type)
    }

    open spec fn spec_decode(s: Seq<u8>) -> Parsed<ClientboundRespawnView> {
        then(need_spec(s, 6), |_u: (), s: Seq<u8>| then(take_i32(s), |dimension: i32, s: Seq<u8>| then(take_u8(s), |difficulty: u8, s: Seq<u8>| then(take_u8(s), |game_mode: u8, s: Seq<u8>| then(str_spec(s, "ClientboundRespawn level_type"@), |level_type: Seq<char>, s: Seq<u8>| (Ok(ClientboundRespawnView { dimension, difficulty, game_mode, level_type }), s))))))
    }
}

impl Roundtrip for ClientboundRespawn {
    open spec fn encodable(p: ClientboundRespawnView) -> bool {
        string_fits(p.level_type)
    }

    open spec fn reads_to_end() -> bool {
        false
    }

    proof fn lemma_roundtrip(p: ClientboundRespawnView, rest: Seq<u8>) {
        broadcast use group_wire_roundtrip;

        let t3 = string_wire(p.level_type) + rest;
        let t2 = seq![p.game_mode] + t3;
        let t1 = seq![p.difficulty] + t2;
        lemma_concat_associative(be_i32_bytes(p.dimension) + seq![p.difficulty] + seq![p.game_mode], string_wire(p.level_type), rest);
        lemma_concat_associative(be_i32_bytes(p.dimension) + seq![p.difficulty], seq![p.game_mode], t3);
        lemma_concat_associative(be_i32_bytes(p.dimension), seq![p.difficulty], t2);
        lemma_string_roundtrip(p.level_type, rest, missing_for("ClientboundRespawn level_type"@), invalid_in("ClientboundRespawn level_type"@));
    }
}

impl Encode for ClientboundRespawn {
    fn encode(&self, dst: &mut BytesMut) -> (r: Result<(), ProtocolError>) {
        let ghost d0 = bytes_mut_data(*dst);
        put_i32(dst, self.dimension);
        let ghost mut e: Seq<u8> = be_i32_bytes(self@.dimension);
        put_u8(dst, self.difficulty);
        proof {
            lemma_concat_associative(d0, e, seq![self@.difficulty]);
            e = e + seq![self@.difficulty];
        }
        put_u8(dst, self.game_mode);
        proof {
            lemma_concat_associative(d0, e, seq![self@.game_mode]);
            e = e + seq![self@.game_mode];
        }
        encode_str(self.level_type.as_str(), dst);
        proof {
            lemma_concat_associative(d0, e, string_wire(self@.level_type));
            e = e + string_wire(self@.level_type);
        }
        Ok(())
    }
}

impl Decode for ClientboundRespawn {
    fn decode(src: &mut Bytes) -> (r: Result<Self, ProtocolError>) {
        need(src, 6)?;
        let dimension = get_i32(src);
        let difficulty = get_u8(src);
        let game_mode = get_u8(src);
        let level_type = decode_str(src, "ClientboundRespawn level_type")?;
        Ok(Self { dimension, difficulty, game_mode, level_type })
    }
}

// ── ClientboundPlayerPosition ─────────────────────────────────────────

#[derive(Debug, Clone, PartialEq)]
pub struct ClientboundPlayerPosition {
    /// The bits of the `f64` value (`f64::to_bits`).
    pub x: u64,
    /// The bits of the `f64` value (`f64::to_bits`).
    pub head_y: u64,
    /// The bits of the `f64` value (`f64::to_bits`).
    pub z: u64,
    /// The bits of the `f32` value (`f32::to_bits`).
    pub yaw: u32,
    /// The bits of the `f32` value (`f32::to_bits`).
    pub pitch: u32,
    pub flags: u8,
}

impl View for ClientboundPlayerPosition {
    type V = ClientboundPlayerPosition;

    open spec fn view(&self) -> ClientboundPlayerPosition {
        *self
    }
}

impl PacketId for ClientboundPlayerPosition {
    open spec fn spec_packet_id(ver: u32) -> u8 {
        0x08
    }

    fn packet_id(_ver: u32) -> (r: u8) {
        0x08
    }
}

impl WireFormat for ClientboundPlayerPosition {
    open spec fn spec_encode(p: ClientboundPlayerPosition) -> Seq<u8> {
        be_u64_bytes(p.x) + be_u64_bytes(p.head_y) + be_u64_bytes(p.z) + be_u32_bytes(p.yaw) + be_u32_bytes(p.pitch) + seq![p.flags]
    }

    open spec fn spec_decode(s: Seq<u8>) -> Parsed<ClientboundPlayerPosition> {
        then(need_spec(s, 33), |_u: (), s: Seq<u8>| then(take_u64(s), |x: u64, s: Seq<u8>| then(take_u64(s), |head_y: u64, s: Seq<u8>| then(take_u64(s), |z: u64, s: Seq<u8>| then(take_u32(s), |yaw: u32, s: Seq<u8>| then(take_u32(s), |pitch: u32, s: Seq<u8>| then(take_u8(s), |flags: u8, s: Seq<u8>| (Ok(ClientboundPlayerPosition { x, head_y, z, yaw, pitch, flags }), s))))))))
    }
}

impl Roundtrip for ClientboundPlayerPosition {
    open spec fn encodable(p: ClientboundPlayerPosition) -> bool {
        true
    }

    open spec fn reads_to_end() -> bool {
        false
    }

    #[verifier::rlimit(100)]
    #[verifier::spinoff_prover]
    proof fn lemma_roundtrip(p: ClientboundPlayerPosition, rest: Seq<u8>) {
        broadcast use group_wire_roundtrip;

        let t5 = seq![p.flags] + rest;
        let t4 = be_u32_bytes(p.pitch) + t5;
        let t3 = be_u32_bytes(p.yaw) + t4;
        let t2 = be_u64_bytes(p.z) + t3;
        let t1 = be_u64_bytes(p.head_y) + t2;
        lemma_concat_associative(be_u64_bytes(p.x) + be_u64_bytes(p.head_y) + be_u64_bytes(p.z) + be_u32_bytes(p.yaw) + be_u32_bytes(p.pitch), seq![p.flags], rest);
        lemma_concat_associative(be_u64_bytes(p.x) + be_u64_bytes(p.head_y) + be_u64_bytes(p.z) + be_u32_bytes(p.yaw), be_u32_bytes(p.pitch), t5);
        lemma_concat_associative(be_u64_bytes(p.x) + be_u64_bytes(p.head_y) + be_u64_bytes(p.z), be_u32_bytes(p.yaw), t4);
        lemma_concat_associative(be_u64_bytes(p.x) + be_u64_bytes(p.head_y), be_u64_bytes(p.z), t3);
        lemma_concat_associative(be_u64_bytes(p.x), be_u64_bytes(p.head_y), t2);
    }
}

impl Encode for ClientboundPlayerPosition {
    fn encode(&self, dst: &mut BytesMut) -> (r: Result<(), ProtocolError>) {
        let ghost d0 = bytes_mut_data(*dst);
        put_u64(dst, self.x);
        let ghost mut e: Seq<u8> = be_u64_bytes(self@.x);
        put_u64(dst, self.head_y);
        proof {
            lemma_concat_associative(d0, e, be_u64_bytes(self@.head_y));
            e = e + be_u64_bytes(self@.head_y);
        }
        put_u64(dst, self.z);
        proof {
            lemma_concat_associative(d0, e, be_u64_bytes(self@.z));
            e = e + be_u64_bytes(self@.z);
        }
        put_u32(dst, self.yaw);
        proof {
            lemma_concat_associative(d0, e, be_u32_bytes(self@.yaw));
            e = e + be_u32_bytes(self@.yaw);
        }
        put_u32(dst, self.pitch);
        proof {
            lemma_concat_associative(d0, e, be_u32_bytes(self@.pitch));
            e = e + be_u32_bytes(self@.pitch);
        }
        put_u8(dst, self.flags);
        proof {
            lemma_concat_associative(d0, e, seq![self@.flags]);
            e = e + seq![self@.flags];
        }
        Ok(())
    }
}

impl Decode for ClientboundPlayerPosition {
    fn decode(src: &mut Bytes) -> (r: Result<Self, ProtocolError>) {
        need(src, 33)?;
        let x = get_u64(src);
        let head_y = get_u64(src);
        let z = get_u64(src);
        let yaw = get_u32(src);
        let pitch = get_u32(src);
        let flags = get_u8(src);
        Ok(Self { x, head_y, z, yaw, pitch, flags })
    }
}

// ── ClientboundDisconnect ─────────────────────────────────────────────

#[derive(Debug, Clone, PartialEq)]
pub struct ClientboundDisconnect {
    pub reason: String,
}

pub struct ClientboundDisconnectView {
    pub reason: Seq<char>,
}

impl View for ClientboundDisconnect {
    type V = ClientboundDisconnectView;

    open spec fn view(&self) -> ClientboundDisconnectView {
        ClientboundDisconnectView {
            reason: self.reason@,
        }
    }
}

impl PacketId for ClientboundDisconnect {
    open spec fn spec_packet_id(ver: u32) -> u8 {
        0x40
    }

    fn packet_id(_ver: u32) -> (r: u8) {
        0x40
    }
}

impl WireFormat for ClientboundDisconnect {
    open spec fn spec_encode(p: ClientboundDisconnectView) -> Seq<u8> {
        string_wire(p.reason)
    }

    open spec fn spec_decode(s: Seq<u8>) -> Parsed<ClientboundDisconnectView> {
        then(str_spec(s, "ClientboundDisconnect reason"@), |reason: Seq<char>, s: Seq<u8>| (Ok(ClientboundDisconnectView { reason }), s))
    }
}

impl Roundtrip for ClientboundDisconnect {
    open spec fn encodable(p: ClientboundDisconnectView) -> bool {
        string_fits(p.reason)
    }

    open spec fn reads_to_end() -> bool {
        false
    }

    proof fn lemma_roundtrip(p: ClientboundDisconnectView, rest: Seq<u8>) {
        broadcast use group_wire_roundtrip;

        lemma_string_roundtrip(p.reason, rest, missing_for("ClientboundDisconnect reason"@), invalid_in("ClientboundDisconnect reason"@));
    }
}

impl Encode for ClientboundDisconnect {
    fn encode(&self, dst: &mut BytesMut) -> (r: Result<(), ProtocolError>) {
        let ghost d0 = bytes_mut_data(*dst);
        encode_str(self.reason.as_str(), dst);
        let ghost mut e: Seq<u8> = string_wire(self@.reason);
        Ok(())
    }
}

impl Decode for ClientboundDisconnect {
    fn decode(src: &mut Bytes) -> (r: Result<Self, ProtocolError>) {
        let reason = decode_str(src, "ClientboundDisconnect reason")?;
        Ok(Self { reason })
    }
}

// ── ClientboundPluginMessage ──────────────────────────────────────────

#[derive(Debug, Clone, PartialEq)]
pub struct ClientboundPluginMessage {
    pub channel: String,
    pub data: Vec<u8>,
}

pub struct ClientboundPluginMessageView {
    pub channel: Seq<char>,
    pub data: Seq<u8>,
}

impl View for ClientboundPluginMessage {
    type V = ClientboundPluginMessageView;

    open spec fn view(&self) -> ClientboundPluginMessageView {
        ClientboundPluginMessageView {
            channel: self.channel@,
            data: self.data@,
        }
    }
}

impl PacketId for ClientboundPluginMessage {
    open spec fn spec_packet_id(ver: u32) -> u8 {
        0x3F
    }

    fn packet_id(_ver: u32) -> (r: u8) {
        0x3F
    }
}

impl WireFormat for ClientboundPluginMessage {
    open spec fn spec_encode(p: ClientboundPluginMessageView) -> Seq<u8> {
        string_wire(p.channel) + i16_bytes_wire(p.data)
    }

    open spec fn spec_decode(s: Seq<u8>) -> Parsed<ClientboundPluginMessageView> {
        then(str_spec(s, "ClientboundPluginMessage channel"@), |channel: Seq<char>, s: Seq<u8>| then(i16_bytes_spec(s), |data: Seq<u8>, s: Seq<u8>| (Ok(ClientboundPluginMessageView { channel, data }), s)))
    }
}

impl Roundtrip for ClientboundPluginMessage {
    open spec fn encodable(p: ClientboundPluginMessageView) -> bool {
        string_fits(p.channel) && p.data.len() <= i16::MAX
    }

    open spec fn reads_to_end() -> bool {
        false
    }

    proof fn lemma_roundtrip(p: ClientboundPluginMessageView, rest: Seq<u8>) {
        broadcast use group_wire_roundtrip;

        let t1 = i16_bytes_wire(p.data) + rest;
        lemma_concat_associative(string_wire(p.channel), i16_bytes_wire(p.data), rest);
        lemma_string_roundtrip(p.channel, t1, missing_for("ClientboundPluginMessage channel"@), invalid_in("ClientboundPluginMessage channel"@));
        lemma_i16_bytes_roundtrip(p.data, rest);
    }
}

impl Encode for ClientboundPluginMessage {
    fn encode(&self, dst: &mut BytesMut) -> (r: Result<(), ProtocolError>) {
        let ghost d0 = bytes_mut_data(*dst);
        encode_str(self.channel.as_str(), dst);
        let ghost mut e: Seq<u8> = string_wire(self@.channel);
        put_i16(dst, self.data.len() as i16);
        put_slice(dst, self.data.as_slice());
        proof {
            lemma_concat_associative(d0, e, i16_bytes_wire(self@.data));
            e = e + i16_bytes_wire(self@.data);
        }
        Ok(())
    }
}

impl Decode for ClientboundPluginMessage {
    fn decode(src: &mut Bytes) -> (r: Result<Self, ProtocolError>) {
        let channel = decode_str(src, "ClientboundPluginMessage channel")?;
        let data = decode_i16_bytes(src)?;
        Ok(Self { channel, data })
    }
}

// ── ServerboundPluginMessage ──────────────────────────────────────────

#[derive(Debug, Clone, PartialEq)]
pub struct ServerboundPluginMessage {
    pub channel: String,
    pub data: Vec<u8>,
}

pub struct ServerboundPluginMessageView {
    pub channel: Seq<char>,
    pub data: Seq<u8>,
}

impl View for ServerboundPluginMessage {
    type V = ServerboundPluginMessageView;

    open spec fn view(&self) -> ServerboundPluginMessageView {
        ServerboundPluginMessageView {
            channel: self.channel@,
            data: self.data@,
        }
    }
}

impl PacketId for ServerboundPluginMessage {
    open spec fn spec_packet_id(ver: u32) -> u8 {
        0x17
    }

    fn packet_id(_ver: u32) -> (r: u8) {
        0x17
    }
}

impl WireFormat for ServerboundPluginMessage {
    open spec fn spec_encode(p: ServerboundPluginMessageView) -> Seq<u8> {
        string_wire(p.channel) + i16_bytes_wire(p.data)
    }

    open spec fn spec_decode(s: Seq<u8>) -> Parsed<ServerboundPluginMessageView> {
        then(str_spec(s, "ServerboundPluginMessage channel"@), |channel: Seq<char>, s: Seq<u8>| then(i16_bytes_spec(s), |data: Seq<u8>, s: Seq<u8>| (Ok(ServerboundPluginMessageView { channel, data }), s)))
    }
}

impl Roundtrip for ServerboundPluginMessage {
    open spec fn encodable(p: ServerboundPluginMessageView) -> bool {
        string_fits(p.channel) && p.data.len() <= i16::MAX
    }

    open spec fn reads_to_end() -> bool {
        false
    }

    proof fn lemma_roundtrip(p: ServerboundPluginMessageView, rest: Seq<u8>) {
        broadcast use group_wire_roundtrip;

        let t1 = i16_bytes_wire(p.data) + rest;
        lemma_concat_associative(string_wire(p.channel), i16_bytes_wire(p.data), rest);
        lemma_string_roundtrip(p.channel, t1, missing_for("ServerboundPluginMessage channel"@), invalid_in("ServerboundPluginMessage channel"@));
        lemma_i16_bytes_roundtrip(p.data, rest);
    }
}

impl Encode for ServerboundPluginMessage {
    fn encode(&self, dst: &mut BytesMut) -> (r: Result<(), ProtocolError>) {
        let ghost d0 = bytes_mut_data(*dst);
        encode_str(self.channel.as_str(), dst);
        let ghost mut e: Seq<u8> = string_wire(self@.channel);
        put_i16(dst, self.data.len() as i16);
        put_slice(dst, self.data.as_slice());
        proof {
            lemma_concat_associative(d0, e, i16_bytes_wire(self@.data));
            e = e + i16_bytes_wire(self@.data);
        }
        Ok(())
    }
}

impl Decode for ServerboundPluginMessage {
    fn decode(src: &mut Bytes) -> (r: Result<Self, ProtocolError>) {
        let channel = decode_str(src, "ServerboundPluginMessage channel")?;
        let data = decode_i16_bytes(src)?;
        Ok(Self { channel, data })
    }
}

// ── ServerboundMovePlayerPos ──────────────────────────────────────────

#[derive(Debug, Clone, PartialEq)]
pub struct ServerboundMovePlayerPos {
    /// The bits of the `f64` value (`f64::to_bits`).
    pub x: u64,
    /// The bits of the `f64` value (`f64::to_bits`).
    pub feet_y: u64,
    /// The bits of the `f64` value (`f64::to_bits`).
    pub z: u64,
    pub on_ground: bool,
}

impl View for ServerboundMovePlayerPos {
    type V = ServerboundMovePlayerPos;

    open spec fn view(&self) -> ServerboundMovePlayerPos {
        *self
    }
}

impl PacketId for ServerboundMovePlayerPos {
    open spec fn spec_packet_id(ver: u32) -> u8 {
        0x04
    }

    fn packet_id(_ver: u32) -> (r: u8) {
        0x04
    }
}

impl WireFormat for ServerboundMovePlayerPos {
    open spec fn spec_encode(p: ServerboundMovePlayerPos) -> Seq<u8> {
        be_u64_bytes(p.x) + be_u64_bytes(p.feet_y) + be_u64_bytes(p.z) + seq![bool_byte(p.on_ground)]
    }

    open spec fn spec_decode(s: Seq<u8>) -> Parsed<ServerboundMovePlayerPos> {
        then(need_spec(s, 25), |_u: (), s: Seq<u8>| then(take_u64(s), |x: u64, s: Seq<u8>| then(take_u64(s), |feet_y: u64, s: Seq<u8>| then(take_u64(s), |z: u64, s: Seq<u8>| then(take_bool(s), |on_ground: bool, s: Seq<u8>| (Ok(ServerboundMovePlayerPos { x, feet_y, z, on_ground }), s))))))
    }
}

impl Roundtrip for ServerboundMovePlayerPos {
    open spec fn encodable(p: ServerboundMovePlayerPos) -> bool {
        true
    }

    open spec fn reads_to_end() -> bool {
        false
    }

    proof fn lemma_roundtrip(p: ServerboundMovePlayerPos, rest: Seq<u8>) {
        broadcast use group_wire_roundtrip;

        let t3 = seq![bool_byte(p.on_ground)] + rest;
        let t2 = be_u64_bytes(p.z) + t3;
        let t1 = be_u64_bytes(p.feet_y) + t2;
        lemma_concat_associative(be_u64_bytes(p.x) + be_u64_bytes(p.feet_y) + be_u64_bytes(p.z), seq![bool_byte(p.on_ground)], rest);
        lemma_concat_associative(be_u64_bytes(p.x) + be_u64_bytes(p.feet_y), be_u64_bytes(p.z), t3);
        lemma_concat_associative(be_u64_bytes(p.x), be_u64_bytes(p.feet_y), t2);
    }
}

impl Encode for ServerboundMovePlayerPos {
    fn encode(&self, dst: &mut BytesMut) -> (r: Result<(), ProtocolError>) {
        let ghost d0 = bytes_mut_data(*dst);
        put_u64(dst, self.x);
        let ghost mut e: Seq<u8> = be_u64_bytes(self@.x);
        put_u64(dst, self.feet_y);
        proof {
            lemma_concat_associative(d0, e, be_u64_bytes(self@.feet_y));
            e = e + be_u64_bytes(self@.feet_y);
        }
        put_u64(dst, self.z);
        proof {
            lemma_concat_associative(d0, e, be_u64_bytes(self@.z));
            e = e + be_u64_bytes(self@.z);
        }
        put_u8(dst, self.on_ground as u8);
        proof {
            lemma_concat_associative(d0, e, seq![bool_byte(self@.on_ground)]);
            e = e + seq![bool_byte(self@.on_ground)];
        }
        Ok(())
    }
}

impl Decode for ServerboundMovePlayerPos {
    fn decode(src: &mut Bytes) -> (r: Result<Self, ProtocolError>) {
        need(src, 25)?;
        let x = get_u64(src);
        let feet_y = get_u64(src);
        let z = get_u64(src);
        let on_ground = get_u8(src) != 0;
        Ok(Self { x, feet_y, z, on_ground })
    }
}

// ── ServerboundMovePlayerRot ──────────────────────────────────────────

#[derive(Debug, Clone, PartialEq)]
pub struct ServerboundMovePlayerRot {
    /// The bits of the `f32` value (`f32::to_bits`).
    pub yaw: u32,
    /// The bits of the `f32` value (`f32::to_bits`).
    pub pitch: u32,
    pub on_ground: bool,
}

impl View for ServerboundMovePlayerRot {
    type V = ServerboundMovePlayerRot;

    open spec fn view(&self) -> ServerboundMovePlayerRot {
        *self
    }
}

impl PacketId for ServerboundMovePlayerRot {
    open spec fn spec_packet_id(ver: u32) -> u8 {
        0x05
    }

    fn packet_id(_ver: u32) -> (r: u8) {
        0x05
    }
}

impl WireFormat for ServerboundMovePlayerRot {
    open spec fn spec_encode(p: ServerboundMovePlayerRot) -> Seq<u8> {
        be_u32_bytes(p.yaw) + be_u32_bytes(p.pitch) + seq![bool_byte(p.on_ground)]
    }

    open spec fn spec_decode(s: Seq<u8>) -> Parsed<ServerboundMovePlayerRot> {
        then(need_spec(s, 9), |_u: (), s: Seq<u8>| then(take_u32(s), |yaw: u32, s: Seq<u8>| then(take_u32(s), |pitch: u32, s: Seq<u8>| then(take_bool(s), |on_ground: bool, s: Seq<u8>| (Ok(ServerboundMovePlayerRot { yaw, pitch, on_ground }), s)))))
    }
}

impl Roundtrip for ServerboundMovePlayerRot {
    open spec fn encodable(p: ServerboundMovePlayerRot) -> bool {
        true
    }

    open spec fn reads_to_end() -> bool {
        false
    }

    proof fn lemma_roundtrip(p: ServerboundMovePlayerRot, rest: Seq<u8>) {
        broadcast use group_wire_roundtrip;

        let t2 = seq![bool_byte(p.on_ground)] + rest;
        let t1 = be_u32_bytes(p.pitch) + t2;
        lemma_concat_associative(be_u32_bytes(p.yaw) + be_u32_bytes(p.pitch), seq![bool_byte(p.on_ground)], rest);
        lemma_concat_associative(be_u32_bytes(p.yaw), be_u32_bytes(p.pitch), t2);
    }
}

impl Encode for ServerboundMovePlayerRot {
    fn encode(&self, dst: &mut BytesMut) -> (r: Result<(), ProtocolError>) {
        let ghost d0 = bytes_mut_data(*dst);
        put_u32(dst, self.yaw);
        let ghost mut e: Seq<u8> = be_u32_bytes(self@.yaw);
        put_u32(dst, self.pitch);
        proof {
            lemma_concat_associative(d0, e, be_u32_bytes(self@.pitch));
            e = e + be_u32_bytes(self@.pitch);
        }
        put_u8(dst, self.on_ground as u8);
        proof {
            lemma_concat_associative(d0, e, seq![bool_byte(self@.on_ground)]);
            e = e + seq![bool_byte(self@.on_ground)];
        }
        Ok(())
    }
}

impl Decode for ServerboundMovePlayerRot {
    fn decode(src: &mut Bytes) -> (r: Result<Self, ProtocolError>) {
        need(src, 9)?;
        let yaw = get_u32(src);
        let pitch = get_u32(src);
        let on_ground = get_u8(src) != 0;
        Ok(Self { yaw, pitch, on_ground })
    }
}

// ── ServerboundMovePlayerPosRot ───────────────────────────────────────

#[derive(Debug, Clone, PartialEq)]
pub struct ServerboundMovePlayerPosRot {
    /// The bits of the `f64` value (`f64::to_bits`).
    pub x: u64,
    /// The bits of the `f64` value (`f64::to_bits`).
    pub feet_y: u64,
    /// The bits of the `f64` value (`f64::to_bits`).
    pub z: u64,
    /// The bits of the `f32` value (`f32::to_bits`).
    pub yaw: u32,
    /// The bits of the `f32` value (`f32::to_bits`).
    pub pitch: u32,
    pub on_ground: bool,
}

impl View for ServerboundMovePlayerPosRot {
    type V = ServerboundMovePlayerPosRot;

    open spec fn view(&self) -> ServerboundMovePlayerPosRot {
        *self
    }
}

impl PacketId for ServerboundMovePlayerPosRot {
    open spec fn spec_packet_id(ver: u32) -> u8 {
        0x06
    }

    fn packet_id(_ver: u32) -> (r: u8) {
        0x06
    }
}

impl WireFormat for ServerboundMovePlayerPosRot {
    open spec fn spec_encode(p: ServerboundMovePlayerPosRot) -> Seq<u8> {
        be_u64_bytes(p.x) + be_u64_bytes(p.feet_y) + be_u64_bytes(p.z) + be_u32_bytes(p.yaw) + be_u32_bytes(p.pitch) + seq![bool_byte(p.on_ground)]
    }

    open spec fn spec_decode(s: Seq<u8>) -> Parsed<ServerboundMovePlayerPosRot> {
        then(need_spec(s, 33), |_u: (), s: Seq<u8>| then(take_u64(s), |x: u64, s: Seq<u8>| then(take_u64(s), |feet_y: u64, s: Seq<u8>| then(take_u64(s), |z: u64, s: Seq<u8>| then(take_u32(s), |yaw: u32, s: Seq<u8>| then(take_u32(s), |pitch: u32, s: Seq<u8>| then(take_bool(s), |on_ground: bool, s: Seq<u8>| (Ok(ServerboundMovePlayerPosRot { x, feet_y, z, yaw, pitch, on_ground }), s))))))))
    }
}

impl Roundtrip for ServerboundMovePlayerPosRot {
    open spec fn encodable(p: ServerboundMovePlayerPosRot) -> bool {
        true
    }

    open spec fn reads_to_end() -> bool {
        false
    }

    #[verifier::rlimit(100)]
    #[verifier::spinoff_prover]
    proof fn lemma_roundtrip(p: ServerboundMovePlayerPosRot, rest: Seq<u8>) {
        broadcast use group_wire_roundtrip;

        let t5 = seq![bool_byte(p.on_ground)] + rest;
        let t4 = be_u32_bytes(p.pitch) + t5;
        let t3 = be_u32_bytes(p.yaw) + t4;
        let t2 = be_u64_bytes(p.z) + t3;
        let t1 = be_u64_bytes(p.feet_y) + t2;
        lemma_concat_associative(be_u64_bytes(p.x) + be_u64_bytes(p.feet_y) + be_u64_bytes(p.z) + be_u32_bytes(p.yaw) + be_u32_bytes(p.pitch), seq![bool_byte(p.on_ground)], rest);
        lemma_concat_associative(be_u64_bytes(p.x) + be_u64_bytes(p.feet_y) + be_u64_bytes(p.z) + be_u32_bytes(p.yaw), be_u32_bytes(p.pitch), t5);
        lemma_concat_associative(be_u64_bytes(p.x) + be_u64_bytes(p.feet_y) + be_u64_bytes(p.z), be_u32_bytes(p.yaw), t4);
        lemma_concat_associative(be_u64_bytes(p.x) + be_u64_bytes(p.feet_y), be_u64_bytes(p.z), t3);
        lemma_concat_associative(be_u64_bytes(p.x), be_u64_bytes(p.feet_y), t2);
    }
}

impl Encode for ServerboundMovePlayerPosRot {
    fn encode(&self, dst: &mut BytesMut) -> (r: Result<(), ProtocolError>) {
        let ghost d0 = bytes_mut_data(*dst);
        put_u64(dst, self.x);
        let ghost mut e: Seq<u8> = be_u64_bytes(self@.x);
        put_u64(dst, self.feet_y);
        proof {
            lemma_concat_associative(d0, e, be_u64_bytes(self@.feet_y));
            e = e + be_u64_bytes(self@.feet_y);
        }
        put_u64(dst, self.z);
        proof {
            lemma_concat_associative(d0, e, be_u64_bytes(self@.z));
            e = e + be_u64_bytes(self@.z);
        }
        put_u32(dst, self.yaw);
        proof {
            lemma_concat_associative(d0, e, be_u32_bytes(self@.yaw));
            e = e + be_u32_bytes(self@.yaw);
        }
        put_u32(dst, self.pitch);
        proof {
            lemma_concat_associative(d0, e, be_u32_bytes(self@.pitch));
            e = e + be_u32_bytes(self@.pitch);
        }
        put_u8(dst, self.on_ground as u8);
        proof {
            lemma_concat_associative(d0, e, seq![bool_byte(self@.on_ground)]);
            e = e + seq![bool_byte(self@.on_ground)];
        }
        Ok(())
    }
}

impl Decode for ServerboundMovePlayerPosRot {
    fn decode(src: &mut Bytes) -> (r: Result<Self, ProtocolError>) {
        need(src, 33)?;
        let x = get_u64(src);
        let feet_y = get_u64(src);
        let z = get_u64(src);
        let yaw = get_u32(src);
        let pitch = get_u32(src);
        let on_ground = get_u8(src) != 0;
        Ok(Self { x, feet_y, z, yaw, pitch, on_ground })
    }
}

// ── ClientboundEntityAnimation ────────────────────────────────────────

#[derive(Debug, Clone, PartialEq)]
pub struct ClientboundEntityAnimation {
    pub entity_id: i32,
    pub animation: i8,
}

impl View for ClientboundEntityAnimation {
    type V = ClientboundEntityAnimation;

    open spec fn view(&self) -> ClientboundEntityAnimation {
        *self
    }
}

impl PacketId for ClientboundEntityAnimation {
    open spec fn spec_packet_id(ver: u32) -> u8 {
        0x0B
    }

    fn packet_id(_ver: u32) -> (r: u8) {
        0x0B
    }
}

impl WireFormat for ClientboundEntityAnimation {
    open spec fn spec_encode(p: ClientboundEntityAnimation) -> Seq<u8> {
        be_i32_bytes(p.entity_id) + seq![p.animation as u8]
    }

    open spec fn spec_decode(s: Seq<u8>) -> Parsed<ClientboundEntityAnimation> {
        then(need_spec(s, 5), |_u: (), s: Seq<u8>| then(take_i32(s), |entity_id: i32, s: Seq<u8>| then(take_i8(s), |animation: i8, s: Seq<u8>| (Ok(ClientboundEntityAnimation { entity_id, animation }), s))))
    }
}

impl Roundtrip for ClientboundEntityAnimation {
    open spec fn encodable(p: ClientboundEntityAnimation) -> bool {
        true
    }

    open spec fn reads_to_end() -> bool {
        false
    }

    proof fn lemma_roundtrip(p: ClientboundEntityAnimation, rest: Seq<u8>) {
        broadcast use group_wire_roundtrip;

        let t1 = seq![p.animation as u8] + rest;
        lemma_concat_associative(be_i32_bytes(p.entity_id), seq![p.animation as u8], rest);
    }
}

impl Encode for ClientboundEntityAnimation {
    fn encode(&self, dst: &mut BytesMut) -> (r: Result<(), ProtocolError>) {
        let ghost d0 = bytes_mut_data(*dst);
        put_i32(dst, self.entity_id);
        let ghost mut e: Seq<u8> = be_i32_bytes(self@.entity_id);
        put_i8(dst, self.animation);
        proof {
            lemma_concat_associative(d0, e, seq![self@.animation as u8]);
            e = e + seq![self@.animation as u8];
        }
        Ok(())
    }
}

impl Decode for ClientboundEntityAnimation {
    fn decode(src: &mut Bytes) -> (r: Result<Self, ProtocolError>) {
        need(src, 5)?;
        let entity_id = get_i32(src);
        let animation = get_i8(src);
        Ok(Self { entity_id, animation })
    }
}

// ── ClientboundTakeItemEntity ─────────────────────────────────────────

#[derive(Debug, Clone, PartialEq)]
pub struct ClientboundTakeItemEntity {
    pub collected_entity_id: i32,
    pub collector_entity_id: i32,
}

impl View for ClientboundTakeItemEntity {
    type V = ClientboundTakeItemEntity;

    open spec fn view(&self) -> ClientboundTakeItemEntity {
        *self
    }
}

impl PacketId for ClientboundTakeItemEntity {
    open spec fn spec_packet_id(ver: u32) -> u8 {
        0x0D
    }

    fn packet_id(_ver: u32) -> (r: u8) {
        0x0D
    }
}

impl WireFormat for ClientboundTakeItemEntity {
    open spec fn spec_encode(p: ClientboundTakeItemEntity) -> Seq<u8> {
        be_i32_bytes(p.collected_entity_id) + be_i32_bytes(p.collector_entity_id)
    }

    open spec fn spec_decode(s: Seq<u8>) -> Parsed<ClientboundTakeItemEntity> {
        then(need_spec(s, 8), |_u: (), s: Seq<u8>| then(take_i32(s), |collected_entity_id: i32, s: Seq<u8>| then(take_i32(s), |collector_entity_id: i32, s: Seq<u8>| (Ok(ClientboundTakeItemEntity { collected_entity_id, collector_entity_id }), s))))
    }
}

impl Roundtrip for ClientboundTakeItemEntity {
    open spec fn encodable(p: ClientboundTakeItemEntity) -> bool {
        true
    }

    open spec fn reads_to_end() -> bool {
        false
    }

    proof fn lemma_roundtrip(p: ClientboundTakeItemEntity, rest: Seq<u8>) {
        broadcast use group_wire_roundtrip;

        let t1 = be_i32_bytes(p.collector_entity_id) + rest;
        lemma_concat_associative(be_i32_bytes(p.collected_entity_id), be_i32_bytes(p.collector_entity_id), rest);
    }
}

impl Encode for ClientboundTakeItemEntity {
    fn encode(&self, dst: &mut BytesMut) -> (r: Result<(), ProtocolError>) {
        let ghost d0 = bytes_mut_data(*dst);
        put_i32(dst, self.collected_entity_id);
        let ghost mut e: Seq<u8> = be_i32_bytes(self@.collected_entity_id);
        put_i32(dst, self.collector_entity_id);
        proof {
            lemma_concat_associative(d0, e, be_i32_bytes(self@.collector_entity_id));
            e = e + be_i32_bytes(self@.collector_entity_id);
        }
        Ok(())
    }
}

impl Decode for ClientboundTakeItemEntity {
    fn decode(src: &mut Bytes) -> (r: Result<Self, ProtocolError>) {
        need(src, 8)?;
        let collected_entity_id = get_i32(src);
        let collector_entity_id = get_i32(src);
        Ok(Self { collected_entity_id, collector_entity_id })
    }
}

// ── ClientboundSpawnExperienceOrb ─────────────────────────────────────

#[derive(Debug, Clone, PartialEq)]
pub struct ClientboundSpawnExperienceOrb {
    pub entity_id: i32,
    pub x: i32,
    pub y: i32,
    pub z: i32,
    pub count: i16,
}

impl View for ClientboundSpawnExperienceOrb {
    type V = ClientboundSpawnExperienceOrb;

    open spec fn view(&self) -> ClientboundSpawnExperienceOrb {
        *self
    }
}

impl PacketId for ClientboundSpawnExperienceOrb {
    open spec fn spec_packet_id(ver: u32) -> u8 {
        0x11
    }

    fn packet_id(_ver: u32) -> (r: u8) {
        0x11
    }
}

impl WireFormat for ClientboundSpawnExperienceOrb {
    open spec fn spec_encode(p: ClientboundSpawnExperienceOrb) -> Seq<u8> {
        be_i32_bytes(p.entity_id) + be_i32_bytes(p.x) + be_i32_bytes(p.y) + be_i32_bytes(p.z) + be_i16_bytes(p.count)
    }

    open spec fn spec_decode(s: Seq<u8>) -> Parsed<ClientboundSpawnExperienceOrb> {
        then(need_spec(s, 18), |_u: (), s: Seq<u8>| then(take_i32(s), |entity_id: i32, s: Seq<u8>| then(take_i32(s), |x: i32, s: Seq<u8>| then(take_i32(s), |y: i32, s: Seq<u8>| then(take_i32(s), |z: i32, s: Seq<u8>| then(take_i16(s), |count: i16, s: Seq<u8>| (Ok(ClientboundSpawnExperienceOrb { entity_id, x, y, z, count }), s)))))))
    }
}

impl Roundtrip for ClientboundSpawnExperienceOrb {
    open spec fn encodable(p: ClientboundSpawnExperienceOrb) -> bool {
        true
    }

    open spec fn reads_to_end() -> bool {
        false
    }

    #[verifier::rlimit(100)]
    #[verifier::spinoff_prover]
    proof fn lemma_roundtrip(p: ClientboundSpawnExperienceOrb, rest: Seq<u8>) {
        broadcast use group_wire_roundtrip;

        let t4 = be_i16_bytes(p.count) + rest;
        let t3 = be_i32_bytes(p.z) + t4;
        let t2 = be_i32_bytes(p.y) + t3;
        let t1 = be_i32_bytes(p.x) + t2;
        lemma_concat_associative(be_i32_bytes(p.entity_id) + be_i32_bytes(p.x) + be_i32_bytes(p.y) + be_i32_bytes(p.z), be_i16_bytes(p.count), rest);
        lemma_concat_associative(be_i32_bytes(p.entity_id) + be_i32_bytes(p.x) + be_i32_bytes(p.y), be_i32_bytes(p.z), t4);
        lemma_concat_associative(be_i32_bytes(p.entity_id) + be_i32_bytes(p.x), be_i32_bytes(p.y), t3);
        lemma_concat_associative(be_i32_bytes(p.entity_id), be_i32_bytes(p.x), t2);
    }
}

impl Encode for ClientboundSpawnExperienceOrb {
    fn encode(&self, dst: &mut BytesMut) -> (r: Result<(), ProtocolError>) {
        let ghost d0 = bytes_mut_data(*dst);
        put_i32(dst, self.entity_id);
        let ghost mut e: Seq<u8> = be_i32_bytes(self@.entity_id);
        put_i32(dst, self.x);
        proof {
            lemma_concat_associative(d0, e, be_i32_bytes(self@.x));
            e = e + be_i32_bytes(self@.x);
        }
        put_i32(dst, self.y);
        proof {
            lemma_concat_associative(d0, e, be_i32_bytes(self@.y));
            e = e + be_i32_bytes(self@.y);
        }
        put_i32(dst, self.z);
        proof {
            lemma_concat_associative(d0, e, be_i32_bytes(self@.z));
            e = e + be_i32_bytes(self@.z);
        }
        put_i16(dst, self.count);
        proof {
            lemma_concat_associative(d0, e, be_i16_bytes(self@.count));
            e = e + be_i16_bytes(self@.count);
        }
        Ok(())
    }
}

impl Decode for ClientboundSpawnExperienceOrb {
    fn decode(src: &mut Bytes) -> (r: Result<Self, ProtocolError>) {
        need(src, 18)?;
        let entity_id = get_i32(src);
        let x = get_i32(src);
        let y = get_i32(src);
        let z = get_i32(src);
        let count = get_i16(src);
        Ok(Self { entity_id, x, y, z, count })
    }
}

// ── ClientboundSetEntityMotion ────────────────────────────────────────

#[derive(Debug, Clone, PartialEq)]
pub struct ClientboundSetEntityMotion {
    pub entity_id: i32,
    pub mot_x: i16,
    pub mot_y: i16,
    pub mot_z: i16,
}

impl View for ClientboundSetEntityMotion {
    type V = ClientboundSetEntityMotion;

    open spec fn view(&self) -> ClientboundSetEntityMotion {
        *self
    }
}

impl PacketId for ClientboundSetEntityMotion {
    open spec fn spec_packet_id(ver: u32) -> u8 {
        0x12
    }

    fn packet_id(_ver: u32) -> (r: u8) {
        0x12
    }
}

impl WireFormat for ClientboundSetEntityMotion {
    open spec fn spec_encode(p: ClientboundSetEntityMotion) -> Seq<u8> {
        be_i32_bytes(p.entity_id) + be_i16_bytes(p.mot_x) + be_i16_bytes(p.mot_y) + be_i16_bytes(p.mot_z)
    }

    open spec fn spec_decode(s: Seq<u8>) -> Parsed<ClientboundSetEntityMotion> {
        then(need_spec(s, 10), |_u: (), s: Seq<u8>| then(take_i32(s), |entity_id: i32, s: Seq<u8>| then(take_i16(s), |mot_x: i16, s: Seq<u8>| then(take_i16(s), |mot_y: i16, s: Seq<u8>| then(take_i16(s), |mot_z: i16, s: Seq<u8>| (Ok(ClientboundSetEntityMotion { entity_id, mot_x, mot_y, mot_z }), s))))))
    }
}

impl Roundtrip for ClientboundSetEntityMotion {
    open spec fn encodable(p: ClientboundSetEntityMotion) -> bool {
        true
    }

    open spec fn reads_to_end() -> bool {
        false
    }

    proof fn lemma_roundtrip(p: ClientboundSetEntityMotion, rest: Seq<u8>) {
        broadcast use group_wire_roundtrip;

        let t3 = be_i16_bytes(p.mot_z) + rest;
        let t2 = be_i16_bytes(p.mot_y) + t3;
        let t1 = be_i16_bytes(p.mot_x) + t2;
        lemma_concat_associative(be_i32_bytes(p.entity_id) + be_i16_bytes(p.mot_x) + be_i16_bytes(p.mot_y), be_i16_bytes(p.mot_z), rest);
        lemma_concat_associative(be_i32_bytes(p.entity_id) + be_i16_bytes(p.mot_x), be_i16_bytes(p.mot_y), t3);
        lemma_concat_associative(be_i32_bytes(p.entity_id), be_i16_bytes(p.mot_x), t2);
    }
}

impl Encode for ClientboundSetEntityMotion {
    fn encode(&self, dst: &mut BytesMut) -> (r: Result<(), ProtocolError>) {
        let ghost d0 = bytes_mut_data(*dst);
        put_i32(dst, self.entity_id);
        let ghost mut e: Seq<u8> = be_i32_bytes(self@.entity_id);
        put_i16(dst, self.mot_x);
        proof {
            lemma_concat_associative(d0, e, be_i16_bytes(self@.mot_x));
            e = e + be_i16_bytes(self@.mot_x);
        }
        put_i16(dst, self.mot_y);
        proof {
            lemma_concat_associative(d0, e, be_i16_bytes(self@.mot_y));
            e = e + be_i16_bytes(self@.mot_y);
        }
        put_i16(dst, self.mot_z);
        proof {
            lemma_concat_associative(d0, e, be_i16_bytes(self@.mot_z));
            e = e + be_i16_bytes(self@.mot_z);
        }
        Ok(())
    }
}

impl Decode for ClientboundSetEntityMotion {
    fn decode(src: &mut Bytes) -> (r: Result<Self, ProtocolError>) {
        need(src, 10)?;
        let entity_id = get_i32(src);
        let mot_x = get_i16(src);
        let mot_y = get_i16(src);
        let mot_z = get_i16(src);
        Ok(Self { entity_id, mot_x, mot_y, mot_z })
    }
}

// ── ClientboundMoveEntityPos ──────────────────────────────────────────

#[derive(Debug, Clone, PartialEq)]
pub struct ClientboundMoveEntityPos {
    pub entity_id: i32,
    pub dx: i8,
    pub dy: i8,
    pub dz: i8,
}

impl View for ClientboundMoveEntityPos {
    type V = ClientboundMoveEntityPos;

    open spec fn view(&self) -> ClientboundMoveEntityPos {
        *self
    }
}

impl PacketId for ClientboundMoveEntityPos {
    open spec fn spec_packet_id(ver: u32) -> u8 {
        0x15
    }

    fn packet_id(_ver: u32) -> (r: u8) {
        0x15
    }
}

impl WireFormat for ClientboundMoveEntityPos {
    open spec fn spec_encode(p: ClientboundMoveEntityPos) -> Seq<u8> {
        be_i32_bytes(p.entity_id) + seq![p.dx as u8] + seq![p.dy as u8] + seq![p.dz as u8]
    }

    open spec fn spec_decode(s: Seq<u8>) -> Parsed<ClientboundMoveEntityPos> {
        then(need_spec(s, 7), |_u: (), s: Seq<u8>| then(take_i32(s), |entity_id: i32, s: Seq<u8>| then(take_i8(s), |dx: i8, s: Seq<u8>| then(take_i8(s), |dy: i8, s: Seq<u8>| then(take_i8(s), |dz: i8, s: Seq<u8>| (Ok(ClientboundMoveEntityPos { entity_id, dx, dy, dz }), s))))))
    }
}

impl Roundtrip for ClientboundMoveEntityPos {
    open spec fn encodable(p: ClientboundMoveEntityPos) -> bool {
        true
    }

    open spec fn reads_to_end() -> bool {
        false
    }

    proof fn lemma_roundtrip(p: ClientboundMoveEntityPos, rest: Seq<u8>) {
        broadcast use group_wire_roundtrip;

        let t3 = seq![p.dz as u8] + rest;
        let t2 = seq![p.dy as u8] + t3;
        let t1 = seq![p.dx as u8] + t2;
        lemma_concat_associative(be_i32_bytes(p.entity_id) + seq![p.dx as u8] + seq![p.dy as u8], seq![p.dz as u8], rest);
        lemma_concat_associative(be_i32_bytes(p.entity_id) + seq![p.dx as u8], seq![p.dy as u8], t3);
        lemma_concat_associative(be_i32_bytes(p.entity_id), seq![p.dx as u8], t2);
    }
}

impl Encode for ClientboundMoveEntityPos {
    fn encode(&self, dst: &mut BytesMut) -> (r: Result<(), ProtocolError>) {
        let ghost d0 = bytes_mut_data(*dst);
        put_i32(dst, self.entity_id);
        let ghost mut e: Seq<u8> = be_i32_bytes(self@.entity_id);
        put_i8(dst, self.dx);
        proof {
            lemma_concat_associative(d0, e, seq![self@.dx as u8]);
            e = e + seq![self@.dx as u8];
        }
        put_i8(dst, self.dy);
        proof {
            lemma_concat_associative(d0, e, seq![self@.dy as u8]);
            e = e + seq![self@.dy as u8];
        }
        put_i8(dst, self.dz);
        proof {
            lemma_concat_associative(d0, e, seq![self@.dz as u8]);
            e = e + seq![self@.dz as u8];
        }
        Ok(())
    }
}

impl Decode for ClientboundMoveEntityPos {
    fn decode(src: &mut Bytes) -> (r: Result<Self, ProtocolError>) {
        need(src, 7)?;
        let entity_id = get_i32(src);
        let dx = get_i8(src);
        let dy = get_i8(src);
        let dz = get_i8(src);
        Ok(Self { entity_id, dx, dy, dz })
    }
}

// ── ClientboundMoveEntityRot ──────────────────────────────────────────

#[derive(Debug, Clone, PartialEq)]
pub struct ClientboundMoveEntityRot {
    pub entity_id: i32,
    pub yaw: i8,
    pub pitch: i8,
}

impl View for ClientboundMoveEntityRot {
    type V = ClientboundMoveEntityRot;

    open spec fn view(&self) -> ClientboundMoveEntityRot {
        *self
    }
}

impl PacketId for ClientboundMoveEntityRot {
    open spec fn spec_packet_id(ver: u32) -> u8 {
        0x16
    }

    fn packet_id(_ver: u32) -> (r: u8) {
        0x16
    }
}

impl WireFormat for ClientboundMoveEntityRot {
    open spec fn spec_encode(p: ClientboundMoveEntityRot) -> Seq<u8> {
        be_i32_bytes(p.entity_id) + seq![p.yaw as u8] + seq![p.pitch as u8]
    }

    open spec fn spec_decode(s: Seq<u8>) -> Parsed<ClientboundMoveEntityRot> {
        then(need_spec(s, 6), |_u: (), s: Seq<u8>| then(take_i32(s), |entity_id: i32, s: Seq<u8>| then(take_i8(s), |yaw: i8, s: Seq<u8>| then(take_i8(s), |pitch: i8, s: Seq<u8>| (Ok(ClientboundMoveEntityRot { entity_id, yaw, pitch }), s)))))
    }
}

impl Roundtrip for ClientboundMoveEntityRot {
    open spec fn encodable(p: ClientboundMoveEntityRot) -> bool {
        true
    }

    open spec fn reads_to_end() -> bool {
        false
    }

    proof fn lemma_roundtrip(p: ClientboundMoveEntityRot, rest: Seq<u8>) {
        broadcast use group_wire_roundtrip;

        let t2 = seq![p.pitch as u8] + rest;
        let t1 = seq![p.yaw as u8] + t2;
        lemma_concat_associative(be_i32_bytes(p.entity_id) + seq![p.yaw as u8], seq![p.pitch as u8], rest);
        lemma_concat_associative(be_i32_bytes(p.entity_id), seq![p.yaw as u8], t2);
    }
}

impl Encode for ClientboundMoveEntityRot {
    fn encode(&self, dst: &mut BytesMut) -> (r: Result<(), ProtocolError>) {
        let ghost d0 = bytes_mut_data(*dst);
        put_i32(dst, self.entity_id);
        let ghost mut e: Seq<u8> = be_i32_bytes(self@.entity_id);
        put_i8(dst, self.yaw);
        proof {
            lemma_concat_associative(d0, e, seq![self@.yaw as u8]);
            e = e + seq![self@.yaw as u8];
        }
        put_i8(dst, self.pitch);
        proof {
            lemma_concat_associative(d0, e, seq![self@.pitch as u8]);
            e = e + seq![self@.pitch as u8];
        }
        Ok(())
    }
}

impl Decode for ClientboundMoveEntityRot {
    fn decode(src: &mut Bytes) -> (r: Result<Self, ProtocolError>) {
        need(src, 6)?;
        let entity_id = get_i32(src);
        let yaw = get_i8(src);
        let pitch = get_i8(src);
        Ok(Self { entity_id, yaw, pitch })
    }
}

// ── ClientboundMoveEntityPosRot ───────────────────────────────────────

#[derive(Debug, Clone, PartialEq)]
pub struct ClientboundMoveEntityPosRot {
    pub entity_id: i32,
    pub dx: i8,
    pub dy: i8,
    pub dz: i8,
    pub yaw: i8,
    pub pitch: i8,
}

impl View for ClientboundMoveEntityPosRot {
    type V = ClientboundMoveEntityPosRot;

    open spec fn view(&self) -> ClientboundMoveEntityPosRot {
        *self
    }
}

impl PacketId for ClientboundMoveEntityPosRot {
    open spec fn spec_packet_id(ver: u32) -> u8 {
        0x17
    }

    fn packet_id(_ver: u32) -> (r: u8) {
        0x17
    }
}

impl WireFormat for ClientboundMoveEntityPosRot {
    open spec fn spec_encode(p: ClientboundMoveEntityPosRot) -> Seq<u8> {
        be_i32_bytes(p.entity_id) + seq![p.dx as u8] + seq![p.dy as u8] + seq![p.dz as u8] + seq![p.yaw as u8] + seq![p.pitch as u8]
    }

    open spec fn spec_decode(s: Seq<u8>) -> Parsed<ClientboundMoveEntityPosRot> {
        then(need_spec(s, 9), |_u: (), s: Seq<u8>| then(take_i32(s), |entity_id: i32, s: Seq<u8>| then(take_i8(s), |dx: i8, s: Seq<u8>| then(take_i8(s), |dy: i8, s: Seq<u8>| then(take_i8(s), |dz: i8, s: Seq<u8>| then(take_i8(s), |yaw: i8, s: Seq<u8>| then(take_i8(s), |pitch: i8, s: Seq<u8>| (Ok(ClientboundMoveEntityPosRot { entity_id, dx, dy, dz, yaw, pitch }), s))))))))
    }
}

impl Roundtrip for ClientboundMoveEntityPosRot {
    open spec fn encodable(p: ClientboundMoveEntityPosRot) -> bool {
        true
    }

    open spec fn reads_to_end() -> bool {
        false
    }

    #[verifier::rlimit(100)]
    #[verifier::spinoff_prover]
    proof fn lemma_roundtrip(p: ClientboundMoveEntityPosRot, rest: Seq<u8>) {
        broadcast use group_wire_roundtrip;

        let t5 = seq![p.pitch as u8] + rest;
        let t4 = seq![p.yaw as u8] + t5;
        let t3 = seq![p.dz as u8] + t4;
        let t2 = seq![p.dy as u8] + t3;
        let t1 = seq![p.dx as u8] + t2;
        lemma_concat_associative(be_i32_bytes(p.entity_id) + seq![p.dx as u8] + seq![p.dy as u8] + seq![p.dz as u8] + seq![p.yaw as u8], seq![p.pitch as u8], rest);
        lemma_concat_associative(be_i32_bytes(p.entity_id) + seq![p.dx as u8] + seq![p.dy as u8] + seq![p.dz as u8], seq![p.yaw as u8], t5);
        lemma_concat_associative(be_i32_bytes(p.entity_id) + seq![p.dx as u8] + seq![p.dy as u8], seq![p.dz as u8], t4);
        lemma_concat_associative(be_i32_bytes(p.entity_id) + seq![p.dx as u8], seq![p.dy as u8], t3);
        lemma_concat_associative(be_i32_bytes(p.entity_id), seq![p.dx as u8], t2);
    }
}

impl Encode for ClientboundMoveEntityPosRot {
    fn encode(&self, dst: &mut BytesMut) -> (r: Result<(), ProtocolError>) {
        let ghost d0 = bytes_mut_data(*dst);
        put_i32(dst, self.entity_id);
        let ghost mut e: Seq<u8> = be_i32_bytes(self@.entity_id);
        put_i8(dst, self.dx);
        proof {
            lemma_concat_associative(d0, e, seq![self@.dx as u8]);
            e = e + seq![self@.dx as u8];
        }
        put_i8(dst, self.dy);
        proof {
            lemma_concat_associative(d0, e, seq![self@.dy as u8]);
            e = e + seq![self@.dy as u8];
        }
        put_i8(dst, self.dz);
        proof {
            lemma_concat_associative(d0, e, seq![self@.dz as u8]);
            e = e + seq![self@.dz as u8];
        }
        put_i8(dst, self.yaw);
        proof {
            lemma_concat_associative(d0, e, seq![self@.yaw as u8]);
            e = e + seq![self@.yaw as u8];
        }
        put_i8(dst, self.pitch);
        proof {
            lemma_concat_associative(d0, e, seq![self@.pitch as u8]);
            e = e + seq![self@.pitch as u8];
        }
        Ok(())
    }
}

impl Decode for ClientboundMoveEntityPosRot {
    fn decode(src: &mut Bytes) -> (r: Result<Self, ProtocolError>) {
        need(src, 9)?;
        let entity_id = get_i32(src);
        let dx = get_i8(src);
        let dy = get_i8(src);
        let dz = get_i8(src);
        let yaw = get_i8(src);
        let pitch = get_i8(src);
        Ok(Self { entity_id, dx, dy, dz, yaw, pitch })
    }
}

// ── ClientboundTeleportEntity ─────────────────────────────────────────

#[derive(Debug, Clone, PartialEq)]
pub struct ClientboundTeleportEntity {
    pub entity_id: i32,
    pub x: i32,
    pub y: i32,
    pub z: i32,
    pub yaw: i8,
    pub pitch: i8,
}

impl View for ClientboundTeleportEntity {
    type V = ClientboundTeleportEntity;

    open spec fn view(&self) -> ClientboundTeleportEntity {
        *self
    }
}

impl PacketId for ClientboundTeleportEntity {
    open spec fn spec_packet_id(ver: u32) -> u8 {
        0x18
    }

    fn packet_id(_ver: u32) -> (r: u8) {
        0x18
    }
}

impl WireFormat for ClientboundTeleportEntity {
    open spec fn spec_encode(p: ClientboundTeleportEntity) -> Seq<u8> {
        be_i32_bytes(p.entity_id) + be_i32_bytes(p.x) + be_i32_bytes(p.y) + be_i32_bytes(p.z) + seq![p.yaw as u8] + seq![p.pitch as u8]
    }

    open spec fn spec_decode(s: Seq<u8>) -> Parsed<ClientboundTeleportEntity> {
        then(need_spec(s, 18), |_u: (), s: Seq<u8>| then(take_i32(s), |entity_id: i32, s: Seq<u8>| then(take_i32(s), |x: i32, s: Seq<u8>| then(take_i32(s), |y: i32, s: Seq<u8>| then(take_i32(s), |z: i32, s: Seq<u8>| then(take_i8(s), |yaw: i8, s: Seq<u8>| then(take_i8(s), |pitch: i8, s: Seq<u8>| (Ok(ClientboundTeleportEntity { entity_id, x, y, z, yaw, pitch }), s))))))))
    }
}

impl Roundtrip for ClientboundTeleportEntity {
    open spec fn encodable(p: ClientboundTeleportEntity) -> bool {
        true
    }

    open spec fn reads_to_end() -> bool {
        false
    }

    #[verifier::rlimit(100)]
    #[verifier::spinoff_prover]
    proof fn lemma_roundtrip(p: ClientboundTeleportEntity, rest: Seq<u8>) {
        broadcast use group_wire_roundtrip;

        let t5 = seq![p.pitch as u8] + rest;
        let t4 = seq![p.yaw as u8] + t5;
        let t3 = be_i32_bytes(p.z) + t4;
        let t2 = be_i32_bytes(p.y) + t3;
        let t1 = be_i32_bytes(p.x) + t2;
        lemma_concat_associative(be_i32_bytes(p.entity_id) + be_i32_bytes(p.x) + be_i32_bytes(p.y) + be_i32_bytes(p.z) + seq![p.yaw as u8], seq![p.pitch as u8], rest);
        lemma_concat_associative(be_i32_bytes(p.entity_id) + be_i32_bytes(p.x) + be_i32_bytes(p.y) + be_i32_bytes(p.z), seq![p.yaw as u8], t5);
        lemma_concat_associative(be_i32_bytes(p.entity_id) + be_i32_bytes(p.x) + be_i32_bytes(p.y), be_i32_bytes(p.z), t4);
        lemma_concat_associative(be_i32_bytes(p.entity_id) + be_i32_bytes(p.x), be_i32_bytes(p.y), t3);
        lemma_concat_associative(be_i32_bytes(p.entity_id), be_i32_bytes(p.x), t2);
    }
}

impl Encode for ClientboundTeleportEntity {
    fn encode(&self, dst: &mut BytesMut) -> (r: Result<(), ProtocolError>) {
        let ghost d0 = bytes_mut_data(*dst);
        put_i32(dst, self.entity_id);
        let ghost mut e: Seq<u8> = be_i32_bytes(self@.entity_id);
        put_i32(dst, self.x);
        proof {
            lemma_concat_associative(d0, e, be_i32_bytes(self@.x));
            e = e + be_i32_bytes(self@.x);
        }
        put_i32(dst, self.y);
        proof {
            lemma_concat_associative(d0, e, be_i32_bytes(self@.y));
            e = e + be_i32_bytes(self@.y);
        }
        put_i32(dst, self.z);
        proof {
            lemma_concat_associative(d0, e, be_i32_bytes(self@.z));
            e = e + be_i32_bytes(self@.z);
        }
        put_i8(dst, self.yaw);
        proof {
            lemma_concat_associative(d0, e, seq![self@.yaw as u8]);
            e = e + seq![self@.yaw as u8];
        }
        put_i8(dst, self.pitch);
        proof {
            lemma_concat_associative(d0, e, seq![self@.pitch as u8]);
            e = e + seq![self@.pitch as u8];
        }
        Ok(())
    }
}

impl Decode for ClientboundTeleportEntity {
    fn decode(src: &mut Bytes) -> (r: Result<Self, ProtocolError>) {
        need(src, 18)?;
        let entity_id = get_i32(src);
        let x = get_i32(src);
        let y = get_i32(src);
        let z = get_i32(src);
        let yaw = get_i8(src);
        let pitch = get_i8(src);
        Ok(Self { entity_id, x, y, z, yaw, pitch })
    }
}

// ── ClientboundRotateHead ─────────────────────────────────────────────

#[derive(Debug, Clone, PartialEq)]
pub struct ClientboundRotateHead {
    pub entity_id: i32,
    pub head_yaw: i8,
}

impl View for ClientboundRotateHead {
    type V = ClientboundRotateHead;

    open spec fn view(&self) -> ClientboundRotateHead {
        *self
    }
}

impl PacketId for ClientboundRotateHead {
    open spec fn spec_packet_id(ver: u32) -> u8 {
        0x19
    }

    fn packet_id(_ver: u32) -> (r: u8) {
        0x19
    }
}

impl WireFormat for ClientboundRotateHead {
    open spec fn spec_encode(p: ClientboundRotateHead) -> Seq<u8> {
        be_i32_bytes(p.entity_id) + seq![p.head_yaw as u8]
    }

    open spec fn spec_decode(s: Seq<u8>) -> Parsed<ClientboundRotateHead> {
        then(need_spec(s, 5), |_u: (), s: Seq<u8>| then(take_i32(s), |entity_id: i32, s: Seq<u8>| then(take_i8(s), |head_yaw: i8, s: Seq<u8>| (Ok(ClientboundRotateHead { entity_id, head_yaw }), s))))
    }
}

impl Roundtrip for ClientboundRotateHead {
    open spec fn encodable(p: ClientboundRotateHead) -> bool {
        true
    }

    open spec fn reads_to_end() -> bool {
        false
    }

    proof fn lemma_roundtrip(p: ClientboundRotateHead, rest: Seq<u8>) {
        broadcast use group_wire_roundtrip;

        let t1 = seq![p.head_yaw as u8] + rest;
        lemma_concat_associative(be_i32_bytes(p.entity_id), seq![p.head_yaw as u8], rest);
    }
}

impl Encode for ClientboundRotateHead {
    fn encode(&self, dst: &mut BytesMut) -> (r: Result<(), ProtocolError>) {
        let ghost d0 = bytes_mut_data(*dst);
        put_i32(dst, self.entity_id);
        let ghost mut e: Seq<u8> = be_i32_bytes(self@.entity_id);
        put_i8(dst, self.head_yaw);
        proof {
            lemma_concat_associative(d0, e, seq![self@.head_yaw as u8]);
            e = e + seq![self@.head_yaw as u8];
        }
        Ok(())
    }
}

impl Decode for ClientboundRotateHead {
    fn decode(src: &mut Bytes) -> (r: Result<Self, ProtocolError>) {
        need(src, 5)?;
        let entity_id = get_i32(src);
        let head_yaw = get_i8(src);
        Ok(Self { entity_id, head_yaw })
    }
}

// ── ClientboundEntityEvent ────────────────────────────────────────────

#[derive(Debug, Clone, PartialEq)]
pub struct ClientboundEntityEvent {
    pub entity_id: i32,
    pub event_id: i8,
}

impl View for ClientboundEntityEvent {
    type V = ClientboundEntityEvent;

    open spec fn view(&self) -> ClientboundEntityEvent {
        *self
    }
}

impl PacketId for ClientboundEntityEvent {
    open spec fn spec_packet_id(ver: u32) -> u8 {
        0x1A
    }

    fn packet_id(_ver: u32) -> (r: u8) {
        0x1A
    }
}

impl WireFormat for ClientboundEntityEvent {
    open spec fn spec_encode(p: ClientboundEntityEvent) -> Seq<u8> {
        be_i32_bytes(p.entity_id) + seq![p.event_id as u8]
    }

    open spec fn spec_decode(s: Seq<u8>) -> Parsed<ClientboundEntityEvent> {
        then(need_spec(s, 5), |_u: (), s: Seq<u8>| then(take_i32(s), |entity_id: i32, s: Seq<u8>| then(take_i8(s), |event_id: i8, s: Seq<u8>| (Ok(ClientboundEntityEvent { entity_id, event_id }), s))))
    }
}

impl Roundtrip for ClientboundEntityEvent {
    open spec fn encodable(p: ClientboundEntityEvent) -> bool {
        true
    }

    open spec fn reads_to_end() -> bool {
        false
    }

    proof fn lemma_roundtrip(p: ClientboundEntityEvent, rest: Seq<u8>) {
        broadcast use group_wire_roundtrip;

        let t1 = seq![p.event_id as u8] + rest;
        lemma_concat_associative(be_i32_bytes(p.entity_id), seq![p.event_id as u8], rest);
    }
}

impl Encode for ClientboundEntityEvent {
    fn encode(&self, dst: &mut BytesMut) -> (r: Result<(), ProtocolError>) {
        let ghost d0 = bytes_mut_data(*dst);
        put_i32(dst, self.entity_id);
        let ghost mut e: Seq<u8> = be_i32_bytes(self@.entity_id);
        put_i8(dst, self.event_id);
        proof {
            lemma_concat_associative(d0, e, seq![self@.event_id as u8]);
            e = e + seq![self@.event_id as u8];
        }
        Ok(())
    }
}

impl Decode for ClientboundEntityEvent {
    fn decode(src: &mut Bytes) -> (r: Result<Self, ProtocolError>) {
        need(src, 5)?;
        let entity_id = get_i32(src);
        let event_id = get_i8(src);
        Ok(Self { entity_id, event_id })
    }
}

// ── ClientboundSetEntityLink ──────────────────────────────────────────

#[derive(Debug, Clone, PartialEq)]
pub struct ClientboundSetEntityLink {
    pub entity_id: i32,
    pub vehicle_id: i32,
}

impl View for ClientboundSetEntityLink {
    type V = ClientboundSetEntityLink;

    open spec fn view(&self) -> ClientboundSetEntityLink {
        *self
    }
}

impl PacketId for ClientboundSetEntityLink {
    open spec fn spec_packet_id(ver: u32) -> u8 {
        0x1B
    }

    fn packet_id(_ver: u32) -> (r: u8) {
        0x1B
    }
}

impl WireFormat for ClientboundSetEntityLink {
    open spec fn spec_encode(p: ClientboundSetEntityLink) -> Seq<u8> {
        be_i32_bytes(p.entity_id) + be_i32_bytes(p.vehicle_id)
    }

    open spec fn spec_decode(s: Seq<u8>) -> Parsed<ClientboundSetEntityLink> {
        then(need_spec(s, 8), |_u: (), s: Seq<u8>| then(take_i32(s), |entity_id: i32, s: Seq<u8>| then(take_i32(s), |vehicle_id: i32, s: Seq<u8>| (Ok(ClientboundSetEntityLink { entity_id, vehicle_id }), s))))
    }
}

impl Roundtrip for ClientboundSetEntityLink {
    open spec fn encodable(p: ClientboundSetEntityLink) -> bool {
        true
    }

    open spec fn reads_to_end() -> bool {
        false
    }

    proof fn lemma_roundtrip(p: ClientboundSetEntityLink, rest: Seq<u8>) {
        broadcast use group_wire_roundtrip;

        let t1 = be_i32_bytes(p.vehicle_id) + rest;
        lemma_concat_associative(be_i32_bytes(p.entity_id), be_i32_bytes(p.vehicle_id), rest);
    }
}

impl Encode for ClientboundSetEntityLink {
    fn encode(&self, dst: &mut BytesMut) -> (r: Result<(), ProtocolError>) {
        let ghost d0 = bytes_mut_data(*dst);
        put_i32(dst, self.entity_id);
        let ghost mut e: Seq<u8> = be_i32_bytes(self@.entity_id);
        put_i32(dst, self.vehicle_id);
        proof {
            lemma_concat_associative(d0, e, be_i32_bytes(self@.vehicle_id));
            e = e + be_i32_bytes(self@.vehicle_id);
        }
        Ok(())
    }
}

impl Decode for ClientboundSetEntityLink {
    fn decode(src: &mut Bytes) -> (r: Result<Self, ProtocolError>) {
        need(src, 8)?;
        let entity_id = get_i32(src);
        let vehicle_id = get_i32(src);
        Ok(Self { entity_id, vehicle_id })
    }
}

// ── ClientboundUpdateEffects ──────────────────────────────────────────

#[derive(Debug, Clone, PartialEq)]
pub struct ClientboundUpdateEffects {
    pub entity_id: i32,
    pub effect_id: i8,
    pub amplifier: i8,
    pub duration: i16,
}

impl View for ClientboundUpdateEffects {
    type V = ClientboundUpdateEffects;

    open spec fn view(&self) -> ClientboundUpdateEffects {
        *self
    }
}

impl PacketId for ClientboundUpdateEffects {
    open spec fn spec_packet_id(ver: u32) -> u8 {
        0x1D
    }

    fn packet_id(_ver: u32) -> (r: u8) {
        0x1D
    }
}

impl WireFormat for ClientboundUpdateEffects {
    open spec fn spec_encode(p: ClientboundUpdateEffects) -> Seq<u8> {
        be_i32_bytes(p.entity_id) + seq![p.effect_id as u8] + seq![p.amplifier as u8] + be_i16_bytes(p.duration)
    }

    open spec fn spec_decode(s: Seq<u8>) -> Parsed<ClientboundUpdateEffects> {
        then(need_spec(s, 8), |_u: (), s: Seq<u8>| then(take_i32(s), |entity_id: i32, s: Seq<u8>| then(take_i8(s), |effect_id: i8, s: Seq<u8>| then(take_i8(s), |amplifier: i8, s: Seq<u8>| then(take_i16(s), |duration: i16, s: Seq<u8>| (Ok(ClientboundUpdateEffects { entity_id, effect_id, amplifier, duration }), s))))))
    }
}

impl Roundtrip for ClientboundUpdateEffects {
    open spec fn encodable(p: ClientboundUpdateEffects) -> bool {
        true
    }

    open spec fn reads_to_end() -> bool {
        false
    }

    proof fn lemma_roundtrip(p: ClientboundUpdateEffects, rest: Seq<u8>) {
        broadcast use group_wire_roundtrip;

        let t3 = be_i16_bytes(p.duration) + rest;
        let t2 = seq![p.amplifier as u8] + t3;
        let t1 = seq![p.effect_id as u8] + t2;
        lemma_concat_associative(be_i32_bytes(p.entity_id) + seq![p.effect_id as u8] + seq![p.amplifier as u8], be_i16_bytes(p.duration), rest);
        lemma_concat_associative(be_i32_bytes(p.entity_id) + seq![p.effect_id as u8], seq![p.amplifier as u8], t3);
        lemma_concat_associative(be_i32_bytes(p.entity_id), seq![p.effect_id as u8], t2);
    }
}

impl Encode for ClientboundUpdateEffects {
    fn encode(&self, dst: &mut BytesMut) -> (r: Result<(), ProtocolError>) {
        let ghost d0 = bytes_mut_data(*dst);
        put_i32(dst, self.entity_id);
        let ghost mut e: Seq<u8> = be_i32_bytes(self@.entity_id);
        put_i8(dst, self.effect_id);
        proof {
            lemma_concat_associative(d0, e, seq![self@.effect_id as u8]);
            e = e + seq![self@.effect_id as u8];
        }
        put_i8(dst, self.amplifier);
        proof {
            lemma_concat_associative(d0, e, seq![self@.amplifier as u8]);
            e = e + seq![self@.amplifier as u8];
        }
        put_i16(dst, self.duration);
        proof {
            lemma_concat_associative(d0, e, be_i16_bytes(self@.duration));
            e = e + be_i16_bytes(self@.duration);
        }
        Ok(())
    }
}

impl Decode for ClientboundUpdateEffects {
    fn decode(src: &mut Bytes) -> (r: Result<Self, ProtocolError>) {
        need(src, 8)?;
        let entity_id = get_i32(src);
        let effect_id = get_i8(src);
        let amplifier = get_i8(src);
        let duration = get_i16(src);
        Ok(Self { entity_id, effect_id, amplifier, duration })
    }
}

// ── ClientboundRemoveEntityEffect ─────────────────────────────────────

#[derive(Debug, Clone, PartialEq)]
pub struct ClientboundRemoveEntityEffect {
    pub entity_id: i32,
    pub effect_id: i8,
}

impl View for ClientboundRemoveEntityEffect {
    type V = ClientboundRemoveEntityEffect;

    open spec fn view(&self) -> ClientboundRemoveEntityEffect {
        *self
    }
}

impl PacketId for ClientboundRemoveEntityEffect {
    open spec fn spec_packet_id(ver: u32) -> u8 {
        0x1E
    }

    fn packet_id(_ver: u32) -> (r: u8) {
        0x1E
    }
}

impl WireFormat for ClientboundRemoveEntityEffect {
    open spec fn spec_encode(p: ClientboundRemoveEntityEffect) -> Seq<u8> {
        be_i32_bytes(p.entity_id) + seq![p.effect_id as u8]
    }

    open spec fn spec_decode(s: Seq<u8>) -> Parsed<ClientboundRemoveEntityEffect> {
        then(need_spec(s, 5), |_u: (), s: Seq<u8>| then(take_i32(s), |entity_id: i32, s: Seq<u8>| then(take_i8(s), |effect_id: i8, s: Seq<u8>| (Ok(ClientboundRemoveEntityEffect { entity_id, effect_id }), s))))
    }
}

impl Roundtrip for ClientboundRemoveEntityEffect {
    open spec fn encodable(p: ClientboundRemoveEntityEffect) -> bool {
        true
    }

    open spec fn reads_to_end() -> bool {
        false
    }

    proof fn lemma_roundtrip(p: ClientboundRemoveEntityEffect, rest: Seq<u8>) {
        broadcast use group_wire_roundtrip;

        let t1 = seq![p.effect_id as u8] + rest;
        lemma_concat_associative(be_i32_bytes(p.entity_id), seq![p.effect_id as u8], rest);
    }
}

impl Encode for ClientboundRemoveEntityEffect {
    fn encode(&self, dst: &mut BytesMut) -> (r: Result<(), ProtocolError>) {
        let ghost d0 = bytes_mut_data(*dst);
        put_i32(dst, self.entity_id);
        let ghost mut e: Seq<u8> = be_i32_bytes(self@.entity_id);
        put_i8(dst, self.effect_id);
        proof {
            lemma_concat_associative(d0, e, seq![self@.effect_id as u8]);
            e = e + seq![self@.effect_id as u8];
        }
        Ok(())
    }
}

impl Decode for ClientboundRemoveEntityEffect {
    fn decode(src: &mut Bytes) -> (r: Result<Self, ProtocolError>) {
        need(src, 5)?;
        let entity_id = get_i32(src);
        let effect_id = get_i8(src);
        Ok(Self { entity_id, effect_id })
    }
}

// ── ClientboundUpdateAttributes ───────────────────────────────────────

#[derive(Debug, Clone, PartialEq)]
pub struct ClientboundUpdateAttributes {
    pub entity_id: i32,
    pub data: Vec<u8>,
}

pub struct ClientboundUpdateAttributesView {
    pub entity_id: i32,
    pub data: Seq<u8>,
}

impl View for ClientboundUpdateAttributes {
    type V = ClientboundUpdateAttributesView;

    open spec fn view(&self) -> ClientboundUpdateAttributesView {
        ClientboundUpdateAttributesView {
            entity_id: self.entity_id,
            data: self.data@,
        }
    }
}

impl PacketId for ClientboundUpdateAttributes {
    open spec fn spec_packet_id(ver: u32) -> u8 {
        0x20
    }

    fn packet_id(_ver: u32) -> (r: u8) {
        0x20
    }
}

impl WireFormat for ClientboundUpdateAttributes {
    open spec fn spec_encode(p: ClientboundUpdateAttributesView) -> Seq<u8> {
        be_i32_bytes(p.entity_id) + p.data
    }

    open spec fn spec_decode(s: Seq<u8>) -> Parsed<ClientboundUpdateAttributesView> {
        then(need_spec(s, 4), |_u: (), s: Seq<u8>| then(take_i32(s), |entity_id: i32, s: Seq<u8>| then((Ok::<Seq<u8>, ErrorView>(s), s), |data: Seq<u8>, s: Seq<u8>| (Ok(ClientboundUpdateAttributesView { entity_id, data }), s))))
    }
}

impl Encode for ClientboundUpdateAttributes {
    fn encode(&self, dst: &mut BytesMut) -> (r: Result<(), ProtocolError>) {
        let ghost d0 = bytes_mut_data(*dst);
        put_i32(dst, self.entity_id);
        let ghost mut e: Seq<u8> = be_i32_bytes(self@.entity_id);
        put_slice(dst, self.data.as_slice());
        proof {
            lemma_concat_associative(d0, e, self@.data);
            e = e + self@.data;
        }
        Ok(())
    }
}

impl Decode for ClientboundUpdateAttributes {
    fn decode(src: &mut Bytes) -> (r: Result<Self, ProtocolError>) {
        need(src, 4)?;
        let entity_id = get_i32(src);
        let data = bytes_to_vec(src);
        Ok(Self { entity_id, data })
    }
}

// ── ClientboundSectionBlocksUpdate ────────────────────────────────────

#[derive(Debug, Clone, PartialEq)]
pub struct ClientboundSectionBlocksUpdate {
    pub chunk_x: i32,
    pub chunk_z: i32,
    pub record_count: i16,
    pub data: Vec<u8>,
}

pub struct ClientboundSectionBlocksUpdateView {
    pub chunk_x: i32,
    pub chunk_z: i32,
    pub record_count: i16,
    pub data: Seq<u8>,
}

impl View for ClientboundSectionBlocksUpdate {
    type V = ClientboundSectionBlocksUpdateView;

    open spec fn view(&self) -> ClientboundSectionBlocksUpdateView {
        ClientboundSectionBlocksUpdateView {
            chunk_x: self.chunk_x,
            chunk_z: self.chunk_z,
            record_count: self.record_count,
            data: self.data@,
        }
    }
}

impl PacketId for ClientboundSectionBlocksUpdate {
    open spec fn spec_packet_id(ver: u32) -> u8 {
        0x22
    }

    fn packet_id(_ver: u32) -> (r: u8) {
        0x22
    }
}

impl WireFormat for ClientboundSectionBlocksUpdate {
    open spec fn spec_encode(p: ClientboundSectionBlocksUpdateView) -> Seq<u8> {
        be_i32_bytes(p.chunk_x) + be_i32_bytes(p.chunk_z) + be_i16_bytes(p.record_count) + p.data
    }

    open spec fn spec_decode(s: Seq<u8>) -> Parsed<ClientboundSectionBlocksUpdateView> {
        then(need_spec(s, 10), |_u: (), s: Seq<u8>| then(take_i32(s), |chunk_x: i32, s: Seq<u8>| then(take_i32(s), |chunk_z: i32, s: Seq<u8>| then(take_i16(s), |record_count: i16, s: Seq<u8>| then((Ok::<Seq<u8>, ErrorView>(s), s), |data: Seq<u8>, s: Seq<u8>| (Ok(ClientboundSectionBlocksUpdateView { chunk_x, chunk_z, record_count, data }), s))))))
    }
}

impl Encode for ClientboundSectionBlocksUpdate {
    fn encode(&self, dst: &mut BytesMut) -> (r: Result<(), ProtocolError>) {
        let ghost d0 = bytes_mut_data(*dst);
        put_i32(dst, self.chunk_x);
        let ghost mut e: Seq<u8> = be_i32_bytes(self@.chunk_x);
        put_i32(dst, self.chunk_z);
        proof {
            lemma_concat_associative(d0, e, be_i32_bytes(self@.chunk_z));
            e = e + be_i32_bytes(self@.chunk_z);
        }
        put_i16(dst, self.record_count);
        proof {
            lemma_concat_associative(d0, e, be_i16_bytes(self@.record_count));
            e = e + be_i16_bytes(self@.record_count);
        }
        put_slice(dst, self.data.as_slice());
        proof {
            lemma_concat_associative(d0, e, self@.data);
            e = e + self@.data;
        }
        Ok(())
    }
}

impl Decode for ClientboundSectionBlocksUpdate {
    fn decode(src: &mut Bytes) -> (r: Result<Self, ProtocolError>) {
        need(src, 10)?;
        let chunk_x = get_i32(src);
        let chunk_z = get_i32(src);
        let record_count = get_i16(src);
        let data = bytes_to_vec(src);
        Ok(Self { chunk_x, chunk_z, record_count, data })
    }
}

// ── ClientboundBlockAction ────────────────────────────────────────────

#[derive(Debug, Clone, PartialEq)]
pub struct ClientboundBlockAction {
    pub x: i32,
    pub y: i16,
    pub z: i32,
    pub action_id: i8,
    pub action_param: i8,
    pub block_type: i32,
}

impl View for ClientboundBlockAction {
    type V = ClientboundBlockAction;

    open spec fn view(&self) -> ClientboundBlockAction {
        *self
    }
}

impl PacketId for ClientboundBlockAction {
    open spec fn spec_packet_id(ver: u32) -> u8 {
        0x24
    }

    fn packet_id(_ver: u32) -> (r: u8) {
        0x24
    }
}

impl WireFormat for ClientboundBlockAction {
    open spec fn spec_encode(p: ClientboundBlockAction) -> Seq<u8> {
        be_i32_bytes(p.x) + be_i16_bytes(p.y) + be_i32_bytes(p.z) + seq![p.action_id as u8] + seq![p.action_param as u8] + VarInt::spec_encode(VarInt(p.block_type))
    }

    open spec fn spec_decode(s: Seq<u8>) -> Parsed<ClientboundBlockAction> {
        then(need_spec(s, 12), |_u: (), s: Seq<u8>| then(take_i32(s), |x: i32, s: Seq<u8>| then(take_i16(s), |y: i16, s: Seq<u8>| then(take_i32(s), |z: i32, s: Seq<u8>| then(take_i8(s), |action_id: i8, s: Seq<u8>| then(take_i8(s), |action_param: i8, s: Seq<u8>| then(take_varint_i32(s), |block_type: i32, s: Seq<u8>| (Ok(ClientboundBlockAction { x, y, z, action_id, action_param, block_type }), s))))))))
    }
}

impl Roundtrip for ClientboundBlockAction {
    open spec fn encodable(p: ClientboundBlockAction) -> bool {
        true
    }

    open spec fn reads_to_end() -> bool {
        false
    }

    #[verifier::rlimit(100)]
    #[verifier::spinoff_prover]
    proof fn lemma_roundtrip(p: ClientboundBlockAction, rest: Seq<u8>) {
        broadcast use group_wire_roundtrip;

        let t5 = VarInt::spec_encode(VarInt(p.block_type)) + rest;
        let t4 = seq![p.action_param as u8] + t5;
        let t3 = seq![p.action_id as u8] + t4;
        let t2 = be_i32_bytes(p.z) + t3;
        let t1 = be_i16_bytes(p.y) + t2;
        lemma_concat_associative(be_i32_bytes(p.x) + be_i16_bytes(p.y) + be_i32_bytes(p.z) + seq![p.action_id as u8] + seq![p.action_param as u8], VarInt::spec_encode(VarInt(p.block_type)), rest);
        lemma_concat_associative(be_i32_bytes(p.x) + be_i16_bytes(p.y) + be_i32_bytes(p.z) + seq![p.action_id as u8], seq![p.action_param as u8], t5);
        lemma_concat_associative(be_i32_bytes(p.x) + be_i16_bytes(p.y) + be_i32_bytes(p.z), seq![p.action_id as u8], t4);
        lemma_concat_associative(be_i32_bytes(p.x) + be_i16_bytes(p.y), be_i32_bytes(p.z), t3);
        lemma_concat_associative(be_i32_bytes(p.x), be_i16_bytes(p.y), t2);
        VarInt::lemma_roundtrip(VarInt(p.block_type), rest);
    }
}

impl Encode for ClientboundBlockAction {
    fn encode(&self, dst: &mut BytesMut) -> (r: Result<(), ProtocolError>) {
        let ghost d0 = bytes_mut_data(*dst);
        put_i32(dst, self.x);
        let ghost mut e: Seq<u8> = be_i32_bytes(self@.x);
        put_i16(dst, self.y);
        proof {
            lemma_concat_associative(d0, e, be_i16_bytes(self@.y));
            e = e + be_i16_bytes(self@.y);
        }
        put_i32(dst, self.z);
        proof {
            lemma_concat_associative(d0, e, be_i32_bytes(self@.z));
            e = e + be_i32_bytes(self@.z);
        }
        put_i8(dst, self.action_id);
        proof {
            lemma_concat_associative(d0, e, seq![self@.action_id as u8]);
            e = e + seq![self@.action_id as u8];
        }
        put_i8(dst, self.action_param);
        proof {
            lemma_concat_associative(d0, e, seq![self@.action_param as u8]);
            e = e + seq![self@.action_param as u8];
        }
        let _ = VarInt(self.block_type).encode(dst);
        proof {
            lemma_concat_associative(d0, e, VarInt::spec_encode(VarInt(self@.block_type)));
            e = e + VarInt::spec_encode(VarInt(self@.block_type));
        }
        Ok(())
    }
}

impl Decode for ClientboundBlockAction {
    fn decode(src: &mut Bytes) -> (r: Result<Self, ProtocolError>) {
        need(src, 12)?;
        let x = get_i32(src);
        let y = get_i16(src);
        let z = get_i32(src);
        let action_id = get_i8(src);
        let action_param = get_i8(src);
        let block_type = VarInt::decode(src)?.0;
        Ok(Self { x, y, z, action_id, action_param, block_type })
    }
}

// ── ClientboundBlockDestroyStage ──────────────────────────────────────

#[derive(Debug, Clone, PartialEq)]
pub struct ClientboundBlockDestroyStage {
    pub x: i32,
    pub y: i8,
    pub z: i32,
    pub stage: i8,
}

impl View for ClientboundBlockDestroyStage {
    type V = ClientboundBlockDestroyStage;

    open spec fn view(&self) -> ClientboundBlockDestroyStage {
        *self
    }
}

impl PacketId for ClientboundBlockDestroyStage {
    open spec fn spec_packet_id(ver: u32) -> u8 {
        0x25
    }

    fn packet_id(_ver: u32) -> (r: u8) {
        0x25
    }
}

impl WireFormat for ClientboundBlockDestroyStage {
    open spec fn spec_encode(p: ClientboundBlockDestroyStage) -> Seq<u8> {
        be_i32_bytes(p.x) + seq![p.y as u8] + be_i32_bytes(p.z) + seq![p.stage as u8]
    }

    open spec fn spec_decode(s: Seq<u8>) -> Parsed<ClientboundBlockDestroyStage> {
        then(need_spec(s, 10), |_u: (), s: Seq<u8>| then(take_i32(s), |x: i32, s: Seq<u8>| then(take_i8(s), |y: i8, s: Seq<u8>| then(take_i32(s), |z: i32, s: Seq<u8>| then(take_i8(s), |stage: i8, s: Seq<u8>| (Ok(ClientboundBlockDestroyStage { x, y, z, stage }), s))))))
    }
}

impl Roundtrip for ClientboundBlockDestroyStage {
    open spec fn encodable(p: ClientboundBlockDestroyStage) -> bool {
        true
    }

    open spec fn reads_to_end() -> bool {
        false
    }

    proof fn lemma_roundtrip(p: ClientboundBlockDestroyStage, rest: Seq<u8>) {
        broadcast use group_wire_roundtrip;

        let t3 = seq![p.stage as u8] + rest;
        let t2 = be_i32_bytes(p.z) + t3;
        let t1 = seq![p.y as u8] + t2;
        lemma_concat_associative(be_i32_bytes(p.x) + seq![p.y as u8] + be_i32_bytes(p.z), seq![p.stage as u8], rest);
        lemma_concat_associative(be_i32_bytes(p.x) + seq![p.y as u8], be_i32_bytes(p.z), t3);
        lemma_concat_associative(be_i32_bytes(p.x), seq![p.y as u8], t2);
    }
}

impl Encode for ClientboundBlockDestroyStage {
    fn encode(&self, dst: &mut BytesMut) -> (r: Result<(), ProtocolError>) {
        let ghost d0 = bytes_mut_data(*dst);
        put_i32(dst, self.x);
        let ghost mut e: Seq<u8> = be_i32_bytes(self@.x);
        put_i8(dst, self.y);
        proof {
            lemma_concat_associative(d0, e, seq![self@.y as u8]);
            e = e + seq![self@.y as u8];
        }
        put_i32(dst, self.z);
        proof {
            lemma_concat_associative(d0, e, be_i32_bytes(self@.z));
            e = e + be_i32_bytes(self@.z);
        }
        put_i8(dst, self.stage);
        proof {
            lemma_concat_associative(d0, e, seq![self@.stage as u8]);
            e = e + seq![self@.stage as u8];
        }
        Ok(())
    }
}

impl Decode for ClientboundBlockDestroyStage {
    fn decode(src: &mut Bytes) -> (r: Result<Self, ProtocolError>) {
        need(src, 10)?;
        let x = get_i32(src);
        let y = get_i8(src);
        let z = get_i32(src);
        let stage = get_i8(src);
        Ok(Self { x, y, z, stage })
    }
}

// ── ClientboundForgetLevelChunk ───────────────────────────────────────

#[derive(Debug, Clone, PartialEq)]
pub struct ClientboundForgetLevelChunk {
    pub chunk_x: i32,
    pub chunk_z: i32,
}

impl View for ClientboundForgetLevelChunk {
    type V = ClientboundForgetLevelChunk;

    open spec fn view(&self) -> ClientboundForgetLevelChunk {
        *self
    }
}

impl PacketId for ClientboundForgetLevelChunk {
    open spec fn spec_packet_id(ver: u32) -> u8 {
        0x26
    }

    fn packet_id(_ver: u32) -> (r: u8) {
        0x26
    }
}

impl WireFormat for ClientboundForgetLevelChunk {
    open spec fn spec_encode(p: ClientboundForgetLevelChunk) -> Seq<u8> {
        be_i32_bytes(p.chunk_x) + be_i32_bytes(p.chunk_z)
    }

    open spec fn spec_decode(s: Seq<u8>) -> Parsed<ClientboundForgetLevelChunk> {
        then(need_spec(s, 8), |_u: (), s: Seq<u8>| then(take_i32(s), |chunk_x: i32, s: Seq<u8>| then(take_i32(s), |chunk_z: i32, s: Seq<u8>| (Ok(ClientboundForgetLevelChunk { chunk_x, chunk_z }), s))))
    }
}

impl Roundtrip for ClientboundForgetLevelChunk {
    open spec fn encodable(p: ClientboundForgetLevelChunk) -> bool {
        true
    }

    open spec fn reads_to_end() -> bool {
        false
    }

    proof fn lemma_roundtrip(p: ClientboundForgetLevelChunk, rest: Seq<u8>) {
        broadcast use group_wire_roundtrip;

        let t1 = be_i32_bytes(p.chunk_z) + rest;
        lemma_concat_associative(be_i32_bytes(p.chunk_x), be_i32_bytes(p.chunk_z), rest);
    }
}

impl Encode for ClientboundForgetLevelChunk {
    fn encode(&self, dst: &mut BytesMut) -> (r: Result<(), ProtocolError>) {
        let ghost d0 = bytes_mut_data(*dst);
        put_i32(dst, self.chunk_x);
        let ghost mut e: Seq<u8> = be_i32_bytes(self@.chunk_x);
        put_i32(dst, self.chunk_z);
        proof {
            lemma_concat_associative(d0, e, be_i32_bytes(self@.chunk_z));
            e = e + be_i32_bytes(self@.chunk_z);
        }
        Ok(())
    }
}

impl Decode for ClientboundForgetLevelChunk {
    fn decode(src: &mut Bytes) -> (r: Result<Self, ProtocolError>) {
        need(src, 8)?;
        let chunk_x = get_i32(src);
        let chunk_z = get_i32(src);
        Ok(Self { chunk_x, chunk_z })
    }
}

// ── ClientboundLevelEvent ─────────────────────────────────────────────

#[derive(Debug, Clone, PartialEq)]
pub struct ClientboundLevelEvent {
    pub event_id: i32,
    pub x: i32,
    pub y: i32,
    pub z: i32,
    pub data: i32,
}

impl View for ClientboundLevelEvent {
    type V = ClientboundLevelEvent;

    open spec fn view(&self) -> ClientboundLevelEvent {
        *self
    }
}

impl PacketId for ClientboundLevelEvent {
    open spec fn spec_packet_id(ver: u32) -> u8 {
        0x28
    }

    fn packet_id(_ver: u32) -> (r: u8) {
        0x28
    }
}

impl WireFormat for ClientboundLevelEvent {
    open spec fn spec_encode(p: ClientboundLevelEvent) -> Seq<u8> {
        be_i32_bytes(p.event_id) + be_i32_bytes(p.x) + be_i32_bytes(p.y) + be_i32_bytes(p.z) + be_i32_bytes(p.data)
    }

    open spec fn spec_decode(s: Seq<u8>) -> Parsed<ClientboundLevelEvent> {
        then(need_spec(s, 20), |_u: (), s: Seq<u8>| then(take_i32(s), |event_id: i32, s: Seq<u8>| then(take_i32(s), |x: i32, s: Seq<u8>| then(take_i32(s), |y: i32, s: Seq<u8>| then(take_i32(s), |z: i32, s: Seq<u8>| then(take_i32(s), |data: i32, s: Seq<u8>| (Ok(ClientboundLevelEvent { event_id, x, y, z, data }), s)))))))
    }
}

impl Roundtrip for ClientboundLevelEvent {
    open spec fn encodable(p: ClientboundLevelEvent) -> bool {
        true
    }

    open spec fn reads_to_end() -> bool {
        false
    }

    #[verifier::rlimit(100)]
    #[verifier::spinoff_prover]
    proof fn lemma_roundtrip(p: ClientboundLevelEvent, rest: Seq<u8>) {
        broadcast use group_wire_roundtrip;

        let t4 = be_i32_bytes(p.data) + rest;
        let t3 = be_i32_bytes(p.z) + t4;
        let t2 = be_i32_bytes(p.y) + t3;
        let t1 = be_i32_bytes(p.x) + t2;
        lemma_concat_associative(be_i32_bytes(p.event_id) + be_i32_bytes(p.x) + be_i32_bytes(p.y) + be_i32_bytes(p.z), be_i32_bytes(p.data), rest);
        lemma_concat_associative(be_i32_bytes(p.event_id) + be_i32_bytes(p.x) + be_i32_bytes(p.y), be_i32_bytes(p.z), t4);
        lemma_concat_associative(be_i32_bytes(p.event_id) + be_i32_bytes(p.x), be_i32_bytes(p.y), t3);
        lemma_concat_associative(be_i32_bytes(p.event_id), be_i32_bytes(p.x), t2);
    }
}

impl Encode for ClientboundLevelEvent {
    fn encode(&self, dst: &mut BytesMut) -> (r: Result<(), ProtocolError>) {
        let ghost d0 = bytes_mut_data(*dst);
        put_i32(dst, self.event_id);
        let ghost mut e: Seq<u8> = be_i32_bytes(self@.event_id);
        put_i32(dst, self.x);
        proof {
            lemma_concat_associative(d0, e, be_i32_bytes(self@.x));
            e = e + be_i32_bytes(self@.x);
        }
        put_i32(dst, self.y);
        proof {
            lemma_concat_associative(d0, e, be_i32_bytes(self@.y));
            e = e + be_i32_bytes(self@.y);
        }
        put_i32(dst, self.z);
        proof {
            lemma_concat_associative(d0, e, be_i32_bytes(self@.z));
            e = e + be_i32_bytes(self@.z);
        }
        put_i32(dst, self.data);
        proof {
            lemma_concat_associative(d0, e, be_i32_bytes(self@.data));
            e = e + be_i32_bytes(self@.data);
        }
        Ok(())
    }
}

impl Decode for ClientboundLevelEvent {
    fn decode(src: &mut Bytes) -> (r: Result<Self, ProtocolError>) {
        need(src, 20)?;
        let event_id = get_i32(src);
        let x = get_i32(src);
        let y = get_i32(src);
        let z = get_i32(src);
        let data = get_i32(src);
        Ok(Self { event_id, x, y, z, data })
    }
}

// ── ClientboundLevelParticles ─────────────────────────────────────────

#[derive(Debug, Clone, PartialEq)]
pub struct ClientboundLevelParticles {
    pub particle_id: i32,
    /// The bits of the `f32` value (`f32::to_bits`).
    pub x: u32,
    /// The bits of the `f32` value (`f32::to_bits`).
    pub y: u32,
    /// The bits of the `f32` value (`f32::to_bits`).
    pub z: u32,
    /// The bits of the `f32` value (`f32::to_bits`).
    pub offset_x: u32,
    /// The bits of the `f32` value (`f32::to_bits`).
    pub offset_y: u32,
    /// The bits of the `f32` value (`f32::to_bits`).
    pub offset_z: u32,
    /// The bits of the `f32` value (`f32::to_bits`).
    pub particle_speed: u32,
    pub particle_count: i32,
    pub data: Vec<u8>,
}

pub struct ClientboundLevelParticlesView {
    pub particle_id: i32,
    pub x: u32,
    pub y: u32,
    pub z: u32,
    pub offset_x: u32,
    pub offset_y: u32,
    pub offset_z: u32,
    pub particle_speed: u32,
    pub particle_count: i32,
    pub data: Seq<u8>,
}

impl View for ClientboundLevelParticles {
    type V = ClientboundLevelParticlesView;

    open spec fn view(&self) -> ClientboundLevelParticlesView {
        ClientboundLevelParticlesView {
            particle_id: self.particle_id,
            x: self.x,
            y: self.y,
            z: self.z,
            offset_x: self.offset_x,
            offset_y: self.offset_y,
            offset_z: self.offset_z,
            particle_speed: self.particle_speed,
            particle_count: self.particle_count,
            data: self.data@,
        }
    }
}

impl PacketId for ClientboundLevelParticles {
    open spec fn spec_packet_id(ver: u32) -> u8 {
        0x2A
    }

    fn packet_id(_ver: u32) -> (r: u8) {
        0x2A
    }
}

impl WireFormat for ClientboundLevelParticles {
    open spec fn spec_encode(p: ClientboundLevelParticlesView) -> Seq<u8> {
        be_i32_bytes(p.particle_id) + be_u32_bytes(p.x) + be_u32_bytes(p.y) + be_u32_bytes(p.z) + be_u32_bytes(p.offset_x) + be_u32_bytes(p.offset_y) + be_u32_bytes(p.offset_z) + be_u32_bytes(p.particle_speed) + be_i32_bytes(p.particle_count) + p.data
    }

    open spec fn spec_decode(s: Seq<u8>) -> Parsed<ClientboundLevelParticlesView> {
        then(need_spec(s, 36), |_u: (), s: Seq<u8>| then(take_i32(s), |particle_id: i32, s: Seq<u8>| then(take_u32(s), |x: u32, s: Seq<u8>| then(take_u32(s), |y: u32, s: Seq<u8>| then(take_u32(s), |z: u32, s: Seq<u8>| then(take_u32(s), |offset_x: u32, s: Seq<u8>| then(take_u32(s), |offset_y: u32, s: Seq<u8>| then(take_u32(s), |offset_z: u32, s: Seq<u8>| then(take_u32(s), |particle_speed: u32, s: Seq<u8>| then(take_i32(s), |particle_count: i32, s: Seq<u8>| then((Ok::<Seq<u8>, ErrorView>(s), s), |data: Seq<u8>, s: Seq<u8>| (Ok(ClientboundLevelParticlesView { particle_id, x, y, z, offset_x, offset_y, offset_z, particle_speed, particle_count, data }), s))))))))))))
    }
}

impl Encode for ClientboundLevelParticles {
    fn encode(&self, dst: &mut BytesMut) -> (r: Result<(), ProtocolError>) {
        let ghost d0 = bytes_mut_data(*dst);
        put_i32(dst, self.particle_id);
        let ghost mut e: Seq<u8> = be_i32_bytes(self@.particle_id);
        put_u32(dst, self.x);
        proof {
            lemma_concat_associative(d0, e, be_u32_bytes(self@.x));
            e = e + be_u32_bytes(self@.x);
        }
        put_u32(dst, self.y);
        proof {
            lemma_concat_associative(d0, e, be_u32_bytes(self@.y));
            e = e + be_u32_bytes(self@.y);
        }
        put_u32(dst, self.z);
        proof {
            lemma_concat_associative(d0, e, be_u32_bytes(self@.z));
            e = e + be_u32_bytes(self@.z);
        }
        put_u32(dst, self.offset_x);
        proof {
            lemma_concat_associative(d0, e, be_u32_bytes(self@.offset_x));
            e = e + be_u32_bytes(self@.offset_x);
        }
        put_u32(dst, self.offset_y);
        proof {
            lemma_concat_associative(d0, e, be_u32_bytes(self@.offset_y));
            e = e + be_u32_bytes(self@.offset_y);
        }
        put_u32(dst, self.offset_z);
        proof {
            lemma_concat_associative(d0, e, be_u32_bytes(self@.offset_z));
            e = e + be_u32_bytes(self@.offset_z);
        }
        put_u32(dst, self.particle_speed);
        proof {
            lemma_concat_associative(d0, e, be_u32_bytes(self@.particle_speed));
            e = e + be_u32_bytes(self@.particle_speed);
        }
        put_i32(dst, self.particle_count);
        proof {
            lemma_concat_associative(d0, e, be_i32_bytes(self@.particle_count));
            e = e + be_i32_bytes(self@.particle_count);
        }
        put_slice(dst, self.data.as_slice());
        proof {
            lemma_concat_associative(d0, e, self@.data);
            e = e + self@.data;
        }
        Ok(())
    }
}

impl Decode for ClientboundLevelParticles {
    fn decode(src: &mut Bytes) -> (r: Result<Self, ProtocolError>) {
        need(src, 36)?;
        let particle_id = get_i32(src);
        let x = get_u32(src);
        let y = get_u32(src);
        let z = get_u32(src);
        let offset_x = get_u32(src);
        let offset_y = get_u32(src);
        let offset_z = get_u32(src);
        let particle_speed = get_u32(src);
        let particle_count = get_i32(src);
        let data = bytes_to_vec(src);
        Ok(Self { particle_id, x, y, z, offset_x, offset_y, offset_z, particle_speed, particle_count, data })
    }
}

// ── ClientboundGameEvent ──────────────────────────────────────────────

#[derive(Debug, Clone, PartialEq)]
pub struct ClientboundGameEvent {
    pub event: u8,
    /// The bits of the `f32` value (`f32::to_bits`).
    pub data: u32,
}

impl View for ClientboundGameEvent {
    type V = ClientboundGameEvent;

    open spec fn view(&self) -> ClientboundGameEvent {
        *self
    }
}

impl PacketId for ClientboundGameEvent {
    open spec fn spec_packet_id(ver: u32) -> u8 {
        0x2B
    }

    fn packet_id(_ver: u32) -> (r: u8) {
        0x2B
    }
}

impl WireFormat for ClientboundGameEvent {
    open spec fn spec_encode(p: ClientboundGameEvent) -> Seq<u8> {
        seq![p.event] + be_u32_bytes(p.data)
    }

    open spec fn spec_decode(s: Seq<u8>) -> Parsed<ClientboundGameEvent> {
        then(need_spec(s, 5), |_u: (), s: Seq<u8>| then(take_u8(s), |event: u8, s: Seq<u8>| then(take_u32(s), |data: u32, s: Seq<u8>| (Ok(ClientboundGameEvent { event, data }), s))))
    }
}

impl Roundtrip for ClientboundGameEvent {
    open spec fn encodable(p: ClientboundGameEvent) -> bool {
        true
    }

    open spec fn reads_to_end() -> bool {
        false
    }

    proof fn lemma_roundtrip(p: ClientboundGameEvent, rest: Seq<u8>) {
        broadcast use group_wire_roundtrip;

        let t1 = be_u32_bytes(p.data) + rest;
        lemma_concat_associative(seq![p.event], be_u32_bytes(p.data), rest);
    }
}

impl Encode for ClientboundGameEvent {
    fn encode(&self, dst: &mut BytesMut) -> (r: Result<(), ProtocolError>) {
        let ghost d0 = bytes_mut_data(*dst);
        put_u8(dst, self.event);
        let ghost mut e: Seq<u8> = seq![self@.event];
        put_u32(dst, self.data);
        proof {
            lemma_concat_associative(d0, e, be_u32_bytes(self@.data));
            e = e + be_u32_bytes(self@.data);
        }
        Ok(())
    }
}

impl Decode for ClientboundGameEvent {
    fn decode(src: &mut Bytes) -> (r: Result<Self, ProtocolError>) {
        need(src, 5)?;
        let event = get_u8(src);
        let data = get_u32(src);
        Ok(Self { event, data })
    }
}

// ── ClientboundOpenScreen ─────────────────────────────────────────────

#[derive(Debug, Clone, PartialEq)]
pub struct ClientboundOpenScreen {
    pub window_id: i8,
    pub window_type: String,
    pub window_title: String,
    pub slots_count: i8,
}

pub struct ClientboundOpenScreenView {
    pub window_id: i8,
    pub window_type: Seq<char>,
    pub window_title: Seq<char>,
    pub slots_count: i8,
}

impl View for ClientboundOpenScreen {
    type V = ClientboundOpenScreenView;

    open spec fn view(&self) -> ClientboundOpenScreenView {
        ClientboundOpenScreenView {
            window_id: self.window_id,
            window_type: self.window_type@,
            window_title: self.window_title@,
            slots_count: self.slots_count,
        }
    }
}

impl PacketId for ClientboundOpenScreen {
    open spec fn spec_packet_id(ver: u32) -> u8 {
        0x2D
    }

    fn packet_id(_ver: u32) -> (r: u8) {
        0x2D
    }
}

impl WireFormat for ClientboundOpenScreen {
    open spec fn spec_encode(p: ClientboundOpenScreenView) -> Seq<u8> {
        seq![p.window_id as u8] + string_wire(p.window_type) + string_wire(p.window_title) + seq![p.slots_count as u8]
    }

    open spec fn spec_decode(s: Seq<u8>) -> Parsed<ClientboundOpenScreenView> {
        then(take_i8(s), |window_id: i8, s: Seq<u8>| then(str_spec(s, "ClientboundOpenScreen window_type"@), |window_type: Seq<char>, s: Seq<u8>| then(str_spec(s, "ClientboundOpenScreen window_title"@), |window_title: Seq<char>, s: Seq<u8>| then(need_spec(s, 1), |_u: (), s: Seq<u8>| then(take_i8(s), |slots_count: i8, s: Seq<u8>| (Ok(ClientboundOpenScreenView { window_id, window_type, window_title, slots_count }), s))))))
    }
}

impl Roundtrip for ClientboundOpenScreen {
    open spec fn encodable(p: ClientboundOpenScreenView) -> bool {
        string_fits(p.window_type) && string_fits(p.window_title)
    }

    open spec fn reads_to_end() -> bool {
        false
    }

    proof fn lemma_roundtrip(p: ClientboundOpenScreenView, rest: Seq<u8>) {
        broadcast use group_wire_roundtrip;

        let t3 = seq![p.slots_count as u8] + rest;
        let t2 = string_wire(p.window_title) + t3;
        let t1 = string_wire(p.window_type) + t2;
        lemma_concat_associative(seq![p.window_id as u8] + string_wire(p.window_type) + string_wire(p.window_title), seq![p.slots_count as u8], rest);
        lemma_concat_associative(seq![p.window_id as u8] + string_wire(p.window_type), string_wire(p.window_title), t3);
        lemma_concat_associative(seq![p.window_id as u8], string_wire(p.window_type), t2);
        lemma_string_roundtrip(p.window_type, t2, missing_for("ClientboundOpenScreen window_type"@), invalid_in("ClientboundOpenScreen window_type"@));
        lemma_string_roundtrip(p.window_title, t3, missing_for("ClientboundOpenScreen window_title"@), invalid_in("ClientboundOpenScreen window_title"@));
    }
}

impl Encode for ClientboundOpenScreen {
    fn encode(&self, dst: &mut BytesMut) -> (r: Result<(), ProtocolError>) {
        let ghost d0 = bytes_mut_data(*dst);
        put_i8(dst, self.window_id);
        let ghost mut e: Seq<u8> = seq![self@.window_id as u8];
        encode_str(self.window_type.as_str(), dst);
        proof {
            lemma_concat_associative(d0, e, string_wire(self@.window_type));
            e = e + string_wire(self@.window_type);
        }
        encode_str(self.window_title.as_str(), dst);
        proof {
            lemma_concat_associative(d0, e, string_wire(self@.window_title));
            e = e + string_wire(self@.window_title);
        }
        put_i8(dst, self.slots_count);
        proof {
            lemma_concat_associative(d0, e, seq![self@.slots_count as u8]);
            e = e + seq![self@.slots_count as u8];
        }
        Ok(())
    }
}

impl Decode for ClientboundOpenScreen {
    fn decode(src: &mut Bytes) -> (r: Result<Self, ProtocolError>) {
        let window_id = get_i8(src);
        let window_type = decode_str(src, "ClientboundOpenScreen window_type")?;
        let window_title = decode_str(src, "ClientboundOpenScreen window_title")?;
        need(src, 1)?;
        let slots_count = get_i8(src);
        Ok(Self { window_id, window_type, window_title, slots_count })
    }
}

// ── ClientboundContainerClose ─────────────────────────────────────────

#[derive(Debug, Clone, PartialEq)]
pub struct ClientboundContainerClose {
    pub window_id: i8,
}

impl View for ClientboundContainerClose {
    type V = ClientboundContainerClose;

    open spec fn view(&self) -> ClientboundContainerClose {
        *self
    }
}

impl PacketId for ClientboundContainerClose {
    open spec fn spec_packet_id(ver: u32) -> u8 {
        0x2E
    }

    fn packet_id(_ver: u32) -> (r: u8) {
        0x2E
    }
}

impl WireFormat for ClientboundContainerClose {
    open spec fn spec_encode(p: ClientboundContainerClose) -> Seq<u8> {
        seq![p.window_id as u8]
    }

    open spec fn spec_decode(s: Seq<u8>) -> Parsed<ClientboundContainerClose> {
        then(need_spec(s, 1), |_u: (), s: Seq<u8>| then(take_i8(s), |window_id: i8, s: Seq<u8>| (Ok(ClientboundContainerClose { window_id }), s)))
    }
}

impl Roundtrip for ClientboundContainerClose {
    open spec fn encodable(p: ClientboundContainerClose) -> bool {
        true
    }

    open spec fn reads_to_end() -> bool {
        false
    }

    proof fn lemma_roundtrip(p: ClientboundContainerClose, rest: Seq<u8>) {
        broadcast use group_wire_roundtrip;

    }
}

impl Encode for ClientboundContainerClose {
    fn encode(&self, dst: &mut BytesMut) -> (r: Result<(), ProtocolError>) {
        let ghost d0 = bytes_mut_data(*dst);
        put_i8(dst, self.window_id);
        let ghost mut e: Seq<u8> = seq![self@.window_id as u8];
        Ok(())
    }
}

impl Decode for ClientboundContainerClose {
    fn decode(src: &mut Bytes) -> (r: Result<Self, ProtocolError>) {
        need(src, 1)?;
        let window_id = get_i8(src);
        Ok(Self { window_id })
    }
}

// ── ClientboundContainerSetProperty ───────────────────────────────────

#[derive(Debug, Clone, PartialEq)]
pub struct ClientboundContainerSetProperty {
    pub window_id: i8,
    pub property: i16,
    pub value: i16,
}

impl View for ClientboundContainerSetProperty {
    type V = ClientboundContainerSetProperty;

    open spec fn view(&self) -> ClientboundContainerSetProperty {
        *self
    }
}

impl PacketId for ClientboundContainerSetProperty {
    open spec fn spec_packet_id(ver: u32) -> u8 {
        0x31
    }

    fn packet_id(_ver: u32) -> (r: u8) {
        0x31
    }
}

impl WireFormat for ClientboundContainerSetProperty {
    open spec fn spec_encode(p: ClientboundContainerSetProperty) -> Seq<u8> {
        seq![p.window_id as u8] + be_i16_bytes(p.property) + be_i16_bytes(p.value)
    }

    open spec fn spec_decode(s: Seq<u8>) -> Parsed<ClientboundContainerSetProperty> {
        then(need_spec(s, 5), |_u: (), s: Seq<u8>| then(take_i8(s), |window_id: i8, s: Seq<u8>| then(take_i16(s), |property: i16, s: Seq<u8>| then(take_i16(s), |value: i16, s: Seq<u8>| (Ok(ClientboundContainerSetProperty { window_id, property, value }), s)))))
    }
}

impl Roundtrip for ClientboundContainerSetProperty {
    open spec fn encodable(p: ClientboundContainerSetProperty) -> bool {
        true
    }

    open spec fn reads_to_end() -> bool {
        false
    }

    proof fn lemma_roundtrip(p: ClientboundContainerSetProperty, rest: Seq<u8>) {
        broadcast use group_wire_roundtrip;

        let t2 = be_i16_bytes(p.value) + rest;
        let t1 = be_i16_bytes(p.property) + t2;
        lemma_concat_associative(seq![p.window_id as u8] + be_i16_bytes(p.property), be_i16_bytes(p.value), rest);
        lemma_concat_associative(seq![p.window_id as u8], be_i16_bytes(p.property), t2);
    }
}

impl Encode for ClientboundContainerSetProperty {
    fn encode(&self, dst: &mut BytesMut) -> (r: Result<(), ProtocolError>) {
        let ghost d0 = bytes_mut_data(*dst);
        put_i8(dst, self.window_id);
        let ghost mut e: Seq<u8> = seq![self@.window_id as u8];
        put_i16(dst, self.property);
        proof {
            lemma_concat_associative(d0, e, be_i16_bytes(self@.property));
            e = e + be_i16_bytes(self@.property);
        }
        put_i16(dst, self.value);
        proof {
            lemma_concat_associative(d0, e, be_i16_bytes(self@.value));
            e = e + be_i16_bytes(self@.value);
        }
        Ok(())
    }
}

impl Decode for ClientboundContainerSetProperty {
    fn decode(src: &mut Bytes) -> (r: Result<Self, ProtocolError>) {
        need(src, 5)?;
        let window_id = get_i8(src);
        let property = get_i16(src);
        let value = get_i16(src);
        Ok(Self { window_id, property, value })
    }
}

// ── ClientboundSetTime ────────────────────────────────────────────────

#[derive(Debug, Clone, PartialEq)]
pub struct ClientboundSetTime {
    pub age: i64,
    pub time: i64,
}

impl View for ClientboundSetTime {
    type V = ClientboundSetTime;

    open spec fn view(&self) -> ClientboundSetTime {
        *self
    }
}

impl PacketId for ClientboundSetTime {
    open spec fn spec_packet_id(ver: u32) -> u8 {
        0x03
    }

    fn packet_id(_ver: u32) -> (r: u8) {
        0x03
    }
}

impl WireFormat for ClientboundSetTime {
    open spec fn spec_encode(p: ClientboundSetTime) -> Seq<u8> {
        be_i64_bytes(p.age) + be_i64_bytes(p.time)
    }

    open spec fn spec_decode(s: Seq<u8>) -> Parsed<ClientboundSetTime> {
        then(need_spec(s, 16), |_u: (), s: Seq<u8>| then(take_i64(s), |age: i64, s: Seq<u8>| then(take_i64(s), |time: i64, s: Seq<u8>| (Ok(ClientboundSetTime { age, time }), s))))
    }
}

impl Roundtrip for ClientboundSetTime {
    open spec fn encodable(p: ClientboundSetTime) -> bool {
        true
    }

    open spec fn reads_to_end() -> bool {
        false
    }

    proof fn lemma_roundtrip(p: ClientboundSetTime, rest: Seq<u8>) {
        broadcast use group_wire_roundtrip;

        let t1 = be_i64_bytes(p.time) + rest;
        lemma_concat_associative(be_i64_bytes(p.age), be_i64_bytes(p.time), rest);
    }
}

impl Encode for ClientboundSetTime {
    fn encode(&self, dst: &mut BytesMut) -> (r: Result<(), ProtocolError>) {
        let ghost d0 = bytes_mut_data(*dst);
        put_i64(dst, self.age);
        let ghost mut e: Seq<u8> = be_i64_bytes(self@.age);
        put_i64(dst, self.time);
        proof {
            lemma_concat_associative(d0, e, be_i64_bytes(self@.time));
            e = e + be_i64_bytes(self@.time);
        }
        Ok(())
    }
}

impl Decode for ClientboundSetTime {
    fn decode(src: &mut Bytes) -> (r: Result<Self, ProtocolError>) {
        need(src, 16)?;
        let age = get_i64(src);
        let time = get_i64(src);
        Ok(Self { age, time })
    }
}

// ── ClientboundSetHealth ──────────────────────────────────────────────

#[derive(Debug, Clone, PartialEq)]
pub struct ClientboundSetHealth {
    /// The bits of the `f32` value (`f32::to_bits`).
    pub health: u32,
    pub food: i16,
    /// The bits of the `f32` value (`f32::to_bits`).
    pub food_saturation: u32,
}

impl View for ClientboundSetHealth {
    type V = ClientboundSetHealth;

    open spec fn view(&self) -> ClientboundSetHealth {
        *self
    }
}

impl PacketId for ClientboundSetHealth {
    open spec fn spec_packet_id(ver: u32) -> u8 {
        0x06
    }

    fn packet_id(_ver: u32) -> (r: u8) {
        0x06
    }
}

impl WireFormat for ClientboundSetHealth {
    open spec fn spec_encode(p: ClientboundSetHealth) -> Seq<u8> {
        be_u32_bytes(p.health) + be_i16_bytes(p.food) + be_u32_bytes(p.food_saturation)
    }

    open spec fn spec_decode(s: Seq<u8>) -> Parsed<ClientboundSetHealth> {
        then(need_spec(s, 10), |_u: (), s: Seq<u8>| then(take_u32(s), |health: u32, s: Seq<u8>| then(take_i16(s), |food: i16, s: Seq<u8>| then(take_u32(s), |food_saturation: u32, s: Seq<u8>| (Ok(ClientboundSetHealth { health, food, food_saturation }), s)))))
    }
}

impl Roundtrip for ClientboundSetHealth {
    open spec fn encodable(p: ClientboundSetHealth) -> bool {
        true
    }

    open spec fn reads_to_end() -> bool {
        false
    }

    proof fn lemma_roundtrip(p: ClientboundSetHealth, rest: Seq<u8>) {
        broadcast use group_wire_roundtrip;

        let t2 = be_u32_bytes(p.food_saturation) + rest;
        let t1 = be_i16_bytes(p.food) + t2;
        lemma_concat_associative(be_u32_bytes(p.health) + be_i16_bytes(p.food), be_u32_bytes(p.food_saturation), rest);
        lemma_concat_associative(be_u32_bytes(p.health), be_i16_bytes(p.food), t2);
    }
}

impl Encode for ClientboundSetHealth {
    fn encode(&self, dst: &mut BytesMut) -> (r: Result<(), ProtocolError>) {
        let ghost d0 = bytes_mut_data(*dst);
        put_u32(dst, self.health);
        let ghost mut e: Seq<u8> = be_u32_bytes(self@.health);
        put_i16(dst, self.food);
        proof {
            lemma_concat_associative(d0, e, be_i16_bytes(self@.food));
            e = e + be_i16_bytes(self@.food);
        }
        put_u32(dst, self.food_saturation);
        proof {
            lemma_concat_associative(d0, e, be_u32_bytes(self@.food_saturation));
            e = e + be_u32_bytes(self@.food_saturation);
        }
        Ok(())
    }
}

impl Decode for ClientboundSetHealth {
    fn decode(src: &mut Bytes) -> (r: Result<Self, ProtocolError>) {
        need(src, 10)?;
        let health = get_u32(src);
        let food = get_i16(src);
        let food_saturation = get_u32(src);
        Ok(Self { health, food, food_saturation })
    }
}

// ── ClientboundSpawnPlayer ────────────────────────────────────────────

#[derive(Debug, Clone, PartialEq)]
pub struct ClientboundSpawnPlayer {
    pub entity_id: i32,
    /// The UUID as its 128-bit value (`uuid::Uuid::as_u128`).
    pub player_uuid: u128,
    pub username: String,
    pub x: i32,
    pub y: i32,
    pub z: i32,
    pub yaw: i8,
    pub pitch: i8,
    pub current_item: i16,
}

pub struct ClientboundSpawnPlayerView {
    pub entity_id: i32,
    pub player_uuid: u128,
    pub username: Seq<char>,
    pub x: i32,
    pub y: i32,
    pub z: i32,
    pub yaw: i8,
    pub pitch: i8,
    pub current_item: i16,
}

impl View for ClientboundSpawnPlayer {
    type V = ClientboundSpawnPlayerView;

    open spec fn view(&self) -> ClientboundSpawnPlayerView {
        ClientboundSpawnPlayerView {
            entity_id: self.entity_id,
            player_uuid: self.player_uuid,
            username: self.username@,
            x: self.x,
            y: self.y,
            z: self.z,
            yaw: self.yaw,
            pitch: self.pitch,
            current_item: self.current_item,
        }
    }
}

impl PacketId for ClientboundSpawnPlayer {
    open spec fn spec_packet_id(ver: u32) -> u8 {
        0x0C
    }

    fn packet_id(_ver: u32) -> (r: u8) {
        0x0C
    }
}

impl WireFormat for ClientboundSpawnPlayer {
    open spec fn spec_encode(p: ClientboundSpawnPlayerView) -> Seq<u8> {
        be_i32_bytes(p.entity_id) + uuid_wire(p.player_uuid) + string_wire(p.username) + be_i32_bytes(p.x) + be_i32_bytes(p.y) + be_i32_bytes(p.z) + seq![p.yaw as u8] + seq![p.pitch as u8] + be_i16_bytes(p.current_item)
    }

    open spec fn spec_decode(s: Seq<u8>) -> Parsed<ClientboundSpawnPlayerView> {
        then(need_spec(s, 20), |_u: (), s: Seq<u8>| then(take_i32(s), |entity_id: i32, s: Seq<u8>| then(take_uuid(s), |player_uuid: u128, s: Seq<u8>| then(str_spec(s, "ClientboundSpawnPlayer username"@), |username: Seq<char>, s: Seq<u8>| then(need_spec(s, 16), |_u: (), s: Seq<u8>| then(take_i32(s), |x: i32, s: Seq<u8>| then(take_i32(s), |y: i32, s: Seq<u8>| then(take_i32(s), |z: i32, s: Seq<u8>| then(take_i8(s), |yaw: i8, s: Seq<u8>| then(take_i8(s), |pitch: i8, s: Seq<u8>| then(take_i16(s), |current_item: i16, s: Seq<u8>| (Ok(ClientboundSpawnPlayerView { entity_id, player_uuid, username, x, y, z, yaw, pitch, current_item }), s))))))))))))
    }
}

impl Roundtrip for ClientboundSpawnPlayer {
    open spec fn encodable(p: ClientboundSpawnPlayerView) -> bool {
        string_fits(p.username)
    }

    open spec fn reads_to_end() -> bool {
        false
    }

    #[verifier::rlimit(100)]
    #[verifier::spinoff_prover]
    proof fn lemma_roundtrip(p: ClientboundSpawnPlayerView, rest: Seq<u8>) {
        broadcast use group_wire_roundtrip;

        let t8 = be_i16_bytes(p.current_item) + rest;
        let t7 = seq![p.pitch as u8] + t8;
        let t6 = seq![p.yaw as u8] + t7;
        let t5 = be_i32_bytes(p.z) + t6;
        let t4 = be_i32_bytes(p.y) + t5;
        let t3 = be_i32_bytes(p.x) + t4;
        let t2 = string_wire(p.username) + t3;
        let t1 = uuid_wire(p.player_uuid) + t2;
        lemma_concat_associative(be_i32_bytes(p.entity_id) + uuid_wire(p.player_uuid) + string_wire(p.username) + be_i32_bytes(p.x) + be_i32_bytes(p.y) + be_i32_bytes(p.z) + seq![p.yaw as u8] + seq![p.pitch as u8], be_i16_bytes(p.current_item), rest);
        lemma_concat_associative(be_i32_bytes(p.entity_id) + uuid_wire(p.player_uuid) + string_wire(p.username) + be_i32_bytes(p.x) + be_i32_bytes(p.y) + be_i32_bytes(p.z) + seq![p.yaw as u8], seq![p.pitch as u8], t8);
        lemma_concat_associative(be_i32_bytes(p.entity_id) + uuid_wire(p.player_uuid) + string_wire(p.username) + be_i32_bytes(p.x) + be_i32_bytes(p.y) + be_i32_bytes(p.z), seq![p.yaw as u8], t7);
        lemma_concat_associative(be_i32_bytes(p.entity_id) + uuid_wire(p.player_uuid) + string_wire(p.username) + be_i32_bytes(p.x) + be_i32_bytes(p.y), be_i32_bytes(p.z), t6);
        lemma_concat_associative(be_i32_bytes(p.entity_id) + uuid_wire(p.player_uuid) + string_wire(p.username) + be_i32_bytes(p.x), be_i32_bytes(p.y), t5);
        lemma_concat_associative(be_i32_bytes(p.entity_id) + uuid_wire(p.player_uuid) + string_wire(p.username), be_i32_bytes(p.x), t4);
        lemma_concat_associative(be_i32_bytes(p.entity_id) + uuid_wire(p.player_uuid), string_wire(p.username), t3);
        lemma_concat_associative(be_i32_bytes(p.entity_id), uuid_wire(p.player_uuid), t2);
        lemma_take_uuid(p.player_uuid, t2);
        lemma_string_roundtrip(p.username, t3, missing_for("ClientboundSpawnPlayer username"@), invalid_in("ClientboundSpawnPlayer username"@));
    }
}

impl Encode for ClientboundSpawnPlayer {
    fn encode(&self, dst: &mut BytesMut) -> (r: Result<(), ProtocolError>) {
        let ghost d0 = bytes_mut_data(*dst);
        put_i32(dst, self.entity_id);
        let ghost mut e: Seq<u8> = be_i32_bytes(self@.entity_id);
        put_uuid(dst, self.player_uuid);
        proof {
            lemma_concat_associative(d0, e, uuid_wire(self@.player_uuid));
            e = e + uuid_wire(self@.player_uuid);
        }
        encode_str(self.username.as_str(), dst);
        proof {
            lemma_concat_associative(d0, e, string_wire(self@.username));
            e = e + string_wire(self@.username);
        }
        put_i32(dst, self.x);
        proof {
            lemma_concat_associative(d0, e, be_i32_bytes(self@.x));
            e = e + be_i32_bytes(self@.x);
        }
        put_i32(dst, self.y);
        proof {
            lemma_concat_associative(d0, e, be_i32_bytes(self@.y));
            e = e + be_i32_bytes(self@.y);
        }
        put_i32(dst, self.z);
        proof {
            lemma_concat_associative(d0, e, be_i32_bytes(self@.z));
            e = e + be_i32_bytes(self@.z);
        }
        put_i8(dst, self.yaw);
        proof {
            lemma_concat_associative(d0, e, seq![self@.yaw as u8]);
            e = e + seq![self@.yaw as u8];
        }
        put_i8(dst, self.pitch);
        proof {
            lemma_concat_associative(d0, e, seq![self@.pitch as u8]);
            e = e + seq![self@.pitch as u8];
        }
        put_i16(dst, self.current_item);
        proof {
            lemma_concat_associative(d0, e, be_i16_bytes(self@.current_item));
            e = e + be_i16_bytes(self@.current_item);
        }
        Ok(())
    }
}

impl Decode for ClientboundSpawnPlayer {
    fn decode(src: &mut Bytes) -> (r: Result<Self, ProtocolError>) {
        need(src, 20)?;
        let entity_id = get_i32(src);
        let player_uuid = get_uuid(src);
        let username = decode_str(src, "ClientboundSpawnPlayer username")?;
        need(src, 16)?;
        let x = get_i32(src);
        let y = get_i32(src);
        let z = get_i32(src);
        let yaw = get_i8(src);
        let pitch = get_i8(src);
        let current_item = get_i16(src);
        Ok(Self { entity_id, player_uuid, username, x, y, z, yaw, pitch, current_item })
    }
}

// ── ClientboundSpawnEntity ────────────────────────────────────────────

#[derive(Debug, Clone, PartialEq)]
pub struct ClientboundSpawnEntity {
    pub entity_id: i32,
    pub entity_type: i8,
    pub x: i32,
    pub y: i32,
    pub z: i32,
    pub yaw: i8,
    pub pitch: i8,
    pub head_pitch: i8,
    pub velocity_x: i16,
    pub velocity_y: i16,
    pub velocity_z: i16,
}

impl View for ClientboundSpawnEntity {
    type V = ClientboundSpawnEntity;

    open spec fn view(&self) -> ClientboundSpawnEntity {
        *self
    }
}

impl PacketId for ClientboundSpawnEntity {
    open spec fn spec_packet_id(ver: u32) -> u8 {
        0x0E
    }

    fn packet_id(_ver: u32) -> (r: u8) {
        0x0E
    }
}

impl WireFormat for ClientboundSpawnEntity {
    open spec fn spec_encode(p: ClientboundSpawnEntity) -> Seq<u8> {
        be_i32_bytes(p.entity_id) + seq![p.entity_type as u8] + be_i32_bytes(p.x) + be_i32_bytes(p.y) + be_i32_bytes(p.z) + seq![p.yaw as u8] + seq![p.pitch as u8] + seq![p.head_pitch as u8] + be_i16_bytes(p.velocity_x) + be_i16_bytes(p.velocity_y) + be_i16_bytes(p.velocity_z)
    }

    open spec fn spec_decode(s: Seq<u8>) -> Parsed<ClientboundSpawnEntity> {
        then(need_spec(s, 26), |_u: (), s: Seq<u8>| then(take_i32(s), |entity_id: i32, s: Seq<u8>| then(take_i8(s), |entity_type: i8, s: Seq<u8>| then(take_i32(s), |x: i32, s: Seq<u8>| then(take_i32(s), |y: i32, s: Seq<u8>| then(take_i32(s), |z: i32, s: Seq<u8>| then(take_i8(s), |yaw: i8, s: Seq<u8>| then(take_i8(s), |pitch: i8, s: Seq<u8>| then(take_i8(s), |head_pitch: i8, s: Seq<u8>| then(take_i16(s), |velocity_x: i16, s: Seq<u8>| then(take_i16(s), |velocity_y: i16, s: Seq<u8>| then(take_i16(s), |velocity_z: i16, s: Seq<u8>| (Ok(ClientboundSpawnEntity { entity_id, entity_type, x, y, z, yaw, pitch, head_pitch, velocity_x, velocity_y, velocity_z }), s)))))))))))))
    }
}

impl Roundtrip for ClientboundSpawnEntity {
    open spec fn encodable(p: ClientboundSpawnEntity) -> bool {
        true
    }

    open spec fn reads_to_end() -> bool {
        false
    }

    #[verifier::rlimit(100)]
    #[verifier::spinoff_prover]
    proof fn lemma_roundtrip(p: ClientboundSpawnEntity, rest: Seq<u8>) {
        broadcast use group_wire_roundtrip;

        let t10 = be_i16_bytes(p.velocity_z) + rest;
        let t9 = be_i16_bytes(p.velocity_y) + t10;
        let t8 = be_i16_bytes(p.velocity_x) + t9;
        let t7 = seq![p.head_pitch as u8] + t8;
        let t6 = seq![p.pitch as u8] + t7;
        let t5 = seq![p.yaw as u8] + t6;
        let t4 = be_i32_bytes(p.z) + t5;
        let t3 = be_i32_bytes(p.y) + t4;
        let t2 = be_i32_bytes(p.x) + t3;
        let t1 = seq![p.entity_type as u8] + t2;
        lemma_concat_associative(be_i32_bytes(p.entity_id) + seq![p.entity_type as u8] + be_i32_bytes(p.x) + be_i32_bytes(p.y) + be_i32_bytes(p.z) + seq![p.yaw as u8] + seq![p.pitch as u8] + seq![p.head_pitch as u8] + be_i16_bytes(p.velocity_x) + be_i16_bytes(p.velocity_y), be_i16_bytes(p.velocity_z), rest);
        lemma_concat_associative(be_i32_bytes(p.entity_id) + seq![p.entity_type as u8] + be_i32_bytes(p.x) + be_i32_bytes(p.y) + be_i32_bytes(p.z) + seq![p.yaw as u8] + seq![p.pitch as u8] + seq![p.head_pitch as u8] + be_i16_bytes(p.velocity_x), be_i16_bytes(p.velocity_y), t10);
        lemma_concat_associative(be_i32_bytes(p.entity_id) + seq![p.entity_type as u8] + be_i32_bytes(p.x) + be_i32_bytes(p.y) + be_i32_bytes(p.z) + seq![p.yaw as u8] + seq![p.pitch as u8] + seq![p.head_pitch as u8], be_i16_bytes(p.velocity_x), t9);
        lemma_concat_associative(be_i32_bytes(p.entity_id) + seq![p.entity_type as u8] + be_i32_bytes(p.x) + be_i32_bytes(p.y) + be_i32_bytes(p.z) + seq![p.yaw as u8] + seq![p.pitch as u8], seq![p.head_pitch as u8], t8);
        lemma_concat_associative(be_i32_bytes(p.entity_id) + seq![p.entity_type as u8] + be_i32_bytes(p.x) + be_i32_bytes(p.y) + be_i32_bytes(p.z) + seq![p.yaw as u8], seq![p.pitch as u8], t7);
        lemma_concat_associative(be_i32_bytes(p.entity_id) + seq![p.entity_type as u8] + be_i32_bytes(p.x) + be_i32_bytes(p.y) + be_i32_bytes(p.z), seq![p.yaw as u8], t6);
        lemma_concat_associative(be_i32_bytes(p.entity_id) + seq![p.entity_type as u8] + be_i32_bytes(p.x) + be_i32_bytes(p.y), be_i32_bytes(p.z), t5);
        lemma_concat_associative(be_i32_bytes(p.entity_id) + seq![p.entity_type as u8] + be_i32_bytes(p.x), be_i32_bytes(p.y), t4);
        lemma_concat_associative(be_i32_bytes(p.entity_id) + seq![p.entity_type as u8], be_i32_bytes(p.x), t3);
        lemma_concat_associative(be_i32_bytes(p.entity_id), seq![p.entity_type as u8], t2);
    }
}

impl Encode for ClientboundSpawnEntity {
    #[verifier::rlimit(100)]
    #[verifier::spinoff_prover]
    fn encode(&self, dst: &mut BytesMut) -> (r: Result<(), ProtocolError>) {
        let ghost d0 = bytes_mut_data(*dst);
        put_i32(dst, self.entity_id);
        let ghost mut e: Seq<u8> = be_i32_bytes(self@.entity_id);
        put_i8(dst, self.entity_type);
        proof {
            lemma_concat_associative(d0, e, seq![self@.entity_type as u8]);
            e = e + seq![self@.entity_type as u8];
        }
        put_i32(dst, self.x);
        proof {
            lemma_concat_associative(d0, e, be_i32_bytes(self@.x));
            e = e + be_i32_bytes(self@.x);
        }
        put_i32(dst, self.y);
        proof {
            lemma_concat_associative(d0, e, be_i32_bytes(self@.y));
            e = e + be_i32_bytes(self@.y);
        }
        put_i32(dst, self.z);
        proof {
            lemma_concat_associative(d0, e, be_i32_bytes(self@.z));
            e = e + be_i32_bytes(self@.z);
        }
        put_i8(dst, self.yaw);
        proof {
            lemma_concat_associative(d0, e, seq![self@.yaw as u8]);
            e = e + seq![self@.yaw as u8];
        }
        put_i8(dst, self.pitch);
        proof {
            lemma_concat_associative(d0, e, seq![self@.pitch as u8]);
            e = e + seq![self@.pitch as u8];
        }
        put_i8(dst, self.head_pitch);
        proof {
            lemma_concat_associative(d0, e, seq![self@.head_pitch as u8]);
            e = e + seq![self@.head_pitch as u8];
        }
        put_i16(dst, self.velocity_x);
        proof {
            lemma_concat_associative(d0, e, be_i16_bytes(self@.velocity_x));
            e = e + be_i16_bytes(self@.velocity_x);
        }
        put_i16(dst, self.velocity_y);
        proof {
            lemma_concat_associative(d0, e, be_i16_bytes(self@.velocity_y));
            e = e + be_i16_bytes(self@.velocity_y);
        }
        put_i16(dst, self.velocity_z);
        proof {
            lemma_concat_associative(d0, e, be_i16_bytes(self@.velocity_z));
            e = e + be_i16_bytes(self@.velocity_z);
        }
        Ok(())
    }
}

impl Decode for ClientboundSpawnEntity {
    fn decode(src: &mut Bytes) -> (r: Result<Self, ProtocolError>) {
        need(src, 26)?;
        let entity_id = get_i32(src);
        let entity_type = get_i8(src);
        let x = get_i32(src);
        let y = get_i32(src);
        let z = get_i32(src);
        let yaw = get_i8(src);
        let pitch = get_i8(src);
        let head_pitch = get_i8(src);
        let velocity_x = get_i16(src);
        let velocity_y = get_i16(src);
        let velocity_z = get_i16(src);
        Ok(Self { entity_id, entity_type, x, y, z, yaw, pitch, head_pitch, velocity_x, velocity_y, velocity_z })
    }
}

// ── ClientboundSetExperience ──────────────────────────────────────────

#[derive(Debug, Clone, PartialEq)]
pub struct ClientboundSetExperience {
    /// The bits of the `f32` value (`f32::to_bits`).
    pub experience_bar: u32,
    pub level: i16,
    pub total_experience: i16,
}

impl View for ClientboundSetExperience {
    type V = ClientboundSetExperience;

    open spec fn view(&self) -> ClientboundSetExperience {
        *self
    }
}

impl PacketId for ClientboundSetExperience {
    open spec fn spec_packet_id(ver: u32) -> u8 {
        0x1F
    }

    fn packet_id(_ver: u32) -> (r: u8) {
        0x1F
    }
}

impl WireFormat for ClientboundSetExperience {
    open spec fn spec_encode(p: ClientboundSetExperience) -> Seq<u8> {
        be_u32_bytes(p.experience_bar) + be_i16_bytes(p.level) + be_i16_bytes(p.total_experience)
    }

    open spec fn spec_decode(s: Seq<u8>) -> Parsed<ClientboundSetExperience> {
        then(need_spec(s, 8), |_u: (), s: Seq<u8>| then(take_u32(s), |experience_bar: u32, s: Seq<u8>| then(take_i16(s), |level: i16, s: Seq<u8>| then(take_i16(s), |total_experience: i16, s: Seq<u8>| (Ok(ClientboundSetExperience { experience_bar, level, total_experience }), s)))))
    }
}

impl Roundtrip for ClientboundSetExperience {
    open spec fn encodable(p: ClientboundSetExperience) -> bool {
        true
    }

    open spec fn reads_to_end() -> bool {
        false
    }

    proof fn lemma_roundtrip(p: ClientboundSetExperience, rest: Seq<u8>) {
        broadcast use group_wire_roundtrip;

        let t2 = be_i16_bytes(p.total_experience) + rest;
        let t1 = be_i16_bytes(p.level) + t2;
        lemma_concat_associative(be_u32_bytes(p.experience_bar) + be_i16_bytes(p.level), be_i16_bytes(p.total_experience), rest);
        lemma_concat_associative(be_u32_bytes(p.experience_bar), be_i16_bytes(p.level), t2);
    }
}

impl Encode for ClientboundSetExperience {
    fn encode(&self, dst: &mut BytesMut) -> (r: Result<(), ProtocolError>) {
        let ghost d0 = bytes_mut_data(*dst);
        put_u32(dst, self.experience_bar);
        let ghost mut e: Seq<u8> = be_u32_bytes(self@.experience_bar);
        put_i16(dst, self.level);
        proof {
            lemma_concat_associative(d0, e, be_i16_bytes(self@.level));
            e = e + be_i16_bytes(self@.level);
        }
        put_i16(dst, self.total_experience);
        proof {
            lemma_concat_associative(d0, e, be_i16_bytes(self@.total_experience));
            e = e + be_i16_bytes(self@.total_experience);
        }
        Ok(())
    }
}

impl Decode for ClientboundSetExperience {
    fn decode(src: &mut Bytes) -> (r: Result<Self, ProtocolError>) {
        need(src, 8)?;
        let experience_bar = get_u32(src);
        let level = get_i16(src);
        let total_experience = get_i16(src);
        Ok(Self { experience_bar, level, total_experience })
    }
}

// ── ClientboundBlockUpdate ────────────────────────────────────────────

#[derive(Debug, Clone, PartialEq)]
pub struct ClientboundBlockUpdate {
    pub x: i32,
    pub y: i8,
    pub z: i32,
    pub block_id: i32,
    pub block_metadata: i8,
}

impl View for ClientboundBlockUpdate {
    type V = ClientboundBlockUpdate;

    open spec fn view(&self) -> ClientboundBlockUpdate {
        *self
    }
}

impl PacketId for ClientboundBlockUpdate {
    open spec fn spec_packet_id(ver: u32) -> u8 {
        0x23
    }

    fn packet_id(_ver: u32) -> (r: u8) {
        0x23
    }
}

impl WireFormat for ClientboundBlockUpdate {
    open spec fn spec_encode(p: ClientboundBlockUpdate) -> Seq<u8> {
        be_i32_bytes(p.x) + seq![p.y as u8] + be_i32_bytes(p.z) + VarInt::spec_encode(VarInt(p.block_id)) + seq![p.block_metadata as u8]
    }

    open spec fn spec_decode(s: Seq<u8>) -> Parsed<ClientboundBlockUpdate> {
        then(need_spec(s, 9), |_u: (), s: Seq<u8>| then(take_i32(s), |x: i32, s: Seq<u8>| then(take_i8(s), |y: i8, s: Seq<u8>| then(take_i32(s), |z: i32, s: Seq<u8>| then(take_varint_i32(s), |block_id: i32, s: Seq<u8>| then(take_i8(s), |block_metadata: i8, s: Seq<u8>| (Ok(ClientboundBlockUpdate { x, y, z, block_id, block_metadata }), s)))))))
    }
}

impl Roundtrip for ClientboundBlockUpdate {
    open spec fn encodable(p: ClientboundBlockUpdate) -> bool {
        true
    }

    open spec fn reads_to_end() -> bool {
        false
    }

    #[verifier::rlimit(100)]
    #[verifier::spinoff_prover]
    proof fn lemma_roundtrip(p: ClientboundBlockUpdate, rest: Seq<u8>) {
        broadcast use group_wire_roundtrip;

        let t4 = seq![p.block_metadata as u8] + rest;
        let t3 = VarInt::spec_encode(VarInt(p.block_id)) + t4;
        let t2 = be_i32_bytes(p.z) + t3;
        let t1 = seq![p.y as u8] + t2;
        lemma_concat_associative(be_i32_bytes(p.x) + seq![p.y as u8] + be_i32_bytes(p.z) + VarInt::spec_encode(VarInt(p.block_id)), seq![p.block_metadata as u8], rest);
        lemma_concat_associative(be_i32_bytes(p.x) + seq![p.y as u8] + be_i32_bytes(p.z), VarInt::spec_encode(VarInt(p.block_id)), t4);
        lemma_concat_associative(be_i32_bytes(p.x) + seq![p.y as u8], be_i32_bytes(p.z), t3);
        lemma_concat_associative(be_i32_bytes(p.x), seq![p.y as u8], t2);
        VarInt::lemma_roundtrip(VarInt(p.block_id), t4);
    }
}

impl Encode for ClientboundBlockUpdate {
    fn encode(&self, dst: &mut BytesMut) -> (r: Result<(), ProtocolError>) {
        let ghost d0 = bytes_mut_data(*dst);
        put_i32(dst, self.x);
        let ghost mut e: Seq<u8> = be_i32_bytes(self@.x);
        put_i8(dst, self.y);
        proof {
            lemma_concat_associative(d0, e, seq![self@.y as u8]);
            e = e + seq![self@.y as u8];
        }
        put_i32(dst, self.z);
        proof {
            lemma_concat_associative(d0, e, be_i32_bytes(self@.z));
            e = e + be_i32_bytes(self@.z);
        }
        let _ = VarInt(self.block_id).encode(dst);
        proof {
            lemma_concat_associative(d0, e, VarInt::spec_encode(VarInt(self@.block_id)));
            e = e + VarInt::spec_encode(VarInt(self@.block_id));
        }
        put_i8(dst, self.block_metadata);
        proof {
            lemma_concat_associative(d0, e, seq![self@.block_metadata as u8]);
            e = e + seq![self@.block_metadata as u8];
        }
        Ok(())
    }
}

impl Decode for ClientboundBlockUpdate {
    fn decode(src: &mut Bytes) -> (r: Result<Self, ProtocolError>) {
        need(src, 9)?;
        let x = get_i32(src);
        let y = get_i8(src);
        let z = get_i32(src);
        let block_id = VarInt::decode(src)?.0;
        let block_metadata = get_i8(src);
        Ok(Self { x, y, z, block_id, block_metadata })
    }
}

// ── ClientboundSetHeldItem ────────────────────────────────────────────

#[derive(Debug, Clone, PartialEq)]
pub struct ClientboundSetHeldItem {
    pub slot: u8,
}

impl View for ClientboundSetHeldItem {
    type V = ClientboundSetHeldItem;

    open spec fn view(&self) -> ClientboundSetHeldItem {
        *self
    }
}

impl PacketId for ClientboundSetHeldItem {
    open spec fn spec_packet_id(ver: u32) -> u8 {
        0x09
    }

    fn packet_id(_ver: u32) -> (r: u8) {
        0x09
    }
}

impl WireFormat for ClientboundSetHeldItem {
    open spec fn spec_encode(p: ClientboundSetHeldItem) -> Seq<u8> {
        seq![p.slot]
    }

    open spec fn spec_decode(s: Seq<u8>) -> Parsed<ClientboundSetHeldItem> {
        then(need_spec(s, 1), |_u: (), s: Seq<u8>| then(take_u8(s), |slot: u8, s: Seq<u8>| (Ok(ClientboundSetHeldItem { slot }), s)))
    }
}

impl Roundtrip for ClientboundSetHeldItem {
    open spec fn encodable(p: ClientboundSetHeldItem) -> bool {
        true
    }

    open spec fn reads_to_end() -> bool {
        false
    }

    proof fn lemma_roundtrip(p: ClientboundSetHeldItem, rest: Seq<u8>) {
        broadcast use group_wire_roundtrip;

    }
}

impl Encode for ClientboundSetHeldItem {
    fn encode(&self, dst: &mut BytesMut) -> (r: Result<(), ProtocolError>) {
        let ghost d0 = bytes_mut_data(*dst);
        put_u8(dst, self.slot);
        let ghost mut e: Seq<u8> = seq![self@.slot];
        Ok(())
    }
}

impl Decode for ClientboundSetHeldItem {
    fn decode(src: &mut Bytes) -> (r: Result<Self, ProtocolError>) {
        need(src, 1)?;
        let slot = get_u8(src);
        Ok(Self { slot })
    }
}

// ── ClientboundSound ──────────────────────────────────────────────────

#[derive(Debug, Clone, PartialEq)]
pub struct ClientboundSound {
    pub sound_name: String,
    pub x: i32,
    pub y: i32,
    pub z: i32,
    /// The bits of the `f32` value (`f32::to_bits`).
    pub volume: u32,
    pub pitch: u8,
}

pub struct ClientboundSoundView {
    pub sound_name: Seq<char>,
    pub x: i32,
    pub y: i32,
    pub z: i32,
    pub volume: u32,
    pub pitch: u8,
}

impl View for ClientboundSound {
    type V = ClientboundSoundView;

    open spec fn view(&self) -> ClientboundSoundView {
        ClientboundSoundView {
            sound_name: self.sound_name@,
            x: self.x,
            y: self.y,
            z: self.z,
            volume: self.volume,
            pitch: self.pitch,
        }
    }
}

impl PacketId for ClientboundSound {
    open spec fn spec_packet_id(ver: u32) -> u8 {
        0x29
    }

    fn packet_id(_ver: u32) -> (r: u8) {
        0x29
    }
}

impl WireFormat for ClientboundSound {
    open spec fn spec_encode(p: ClientboundSoundView) -> Seq<u8> {
        string_wire(p.sound_name) + be_i32_bytes(p.x) + be_i32_bytes(p.y) + be_i32_bytes(p.z) + be_u32_bytes(p.volume) + seq![p.pitch]
    }

    open spec fn spec_decode(s: Seq<u8>) -> Parsed<ClientboundSoundView> {
        then(str_spec(s, "ClientboundSound sound_name"@), |sound_name: Seq<char>, s: Seq<u8>| then(need_spec(s, 17), |_u: (), s: Seq<u8>| then(take_i32(s), |x: i32, s: Seq<u8>| then(take_i32(s), |y: i32, s: Seq<u8>| then(take_i32(s), |z: i32, s: Seq<u8>| then(take_u32(s), |volume: u32, s: Seq<u8>| then(take_u8(s), |pitch: u8, s: Seq<u8>| (Ok(ClientboundSoundView { sound_name, x, y, z, volume, pitch }), s))))))))
    }
}

impl Roundtrip for ClientboundSound {
    open spec fn encodable(p: ClientboundSoundView) -> bool {
        string_fits(p.sound_name)
    }

    open spec fn reads_to_end() -> bool {
        false
    }

    #[verifier::rlimit(100)]
    #[verifier::spinoff_prover]
    proof fn lemma_roundtrip(p: ClientboundSoundView, rest: Seq<u8>) {
        broadcast use group_wire_roundtrip;

        let t5 = seq![p.pitch] + rest;
        let t4 = be_u32_bytes(p.volume) + t5;
        let t3 = be_i32_bytes(p.z) + t4;
        let t2 = be_i32_bytes(p.y) + t3;
        let t1 = be_i32_bytes(p.x) + t2;
        lemma_concat_associative(string_wire(p.sound_name) + be_i32_bytes(p.x) + be_i32_bytes(p.y) + be_i32_bytes(p.z) + be_u32_bytes(p.volume), seq![p.pitch], rest);
        lemma_concat_associative(string_wire(p.sound_name) + be_i32_bytes(p.x) + be_i32_bytes(p.y) + be_i32_bytes(p.z), be_u32_bytes(p.volume), t5);
        lemma_concat_associative(string_wire(p.sound_name) + be_i32_bytes(p.x) + be_i32_bytes(p.y), be_i32_bytes(p.z), t4);
        lemma_concat_associative(string_wire(p.sound_name) + be_i32_bytes(p.x), be_i32_bytes(p.y), t3);
        lemma_concat_associative(string_wire(p.sound_name), be_i32_bytes(p.x), t2);
        lemma_string_roundtrip(p.sound_name, t1, missing_for("ClientboundSound sound_name"@), invalid_in("ClientboundSound sound_name"@));
    }
}

impl Encode for ClientboundSound {
    fn encode(&self, dst: &mut BytesMut) -> (r: Result<(), ProtocolError>) {
        let ghost d0 = bytes_mut_data(*dst);
        encode_str(self.sound_name.as_str(), dst);
        let ghost mut e: Seq<u8> = string_wire(self@.sound_name);
        put_i32(dst, self.x);
        proof {
            lemma_concat_associative(d0, e, be_i32_bytes(self@.x));
            e = e + be_i32_bytes(self@.x);
        }
        put_i32(dst, self.y);
        proof {
            lemma_concat_associative(d0, e, be_i32_bytes(self@.y));
            e = e + be_i32_bytes(self@.y);
        }
        put_i32(dst, self.z);
        proof {
            lemma_concat_associative(d0, e, be_i32_bytes(self@.z));
            e = e + be_i32_bytes(self@.z);
        }
        put_u32(dst, self.volume);
        proof {
            lemma_concat_associative(d0, e, be_u32_bytes(self@.volume));
            e = e + be_u32_bytes(self@.volume);
        }
        put_u8(dst, self.pitch);
        proof {
            lemma_concat_associative(d0, e, seq![self@.pitch]);
            e = e + seq![self@.pitch];
        }
        Ok(())
    }
}

impl Decode for ClientboundSound {
    fn decode(src: &mut Bytes) -> (r: Result<Self, ProtocolError>) {
        let sound_name = decode_str(src, "ClientboundSound sound_name")?;
        need(src, 17)?;
        let x = get_i32(src);
        let y = get_i32(src);
        let z = get_i32(src);
        let volume = get_u32(src);
        let pitch = get_u8(src);
        Ok(Self { sound_name, x, y, z, volume, pitch })
    }
}

// ── ClientboundPlayerAbilities ────────────────────────────────────────

#[derive(Debug, Clone, PartialEq)]
pub struct ClientboundPlayerAbilities {
    pub flags: u8,
    /// The bits of the `f32` value (`f32::to_bits`).
    pub flying_speed: u32,
    /// The bits of the `f32` value (`f32::to_bits`).
    pub field_of_view_modifier: u32,
}

impl View for ClientboundPlayerAbilities {
    type V = ClientboundPlayerAbilities;

    open spec fn view(&self) -> ClientboundPlayerAbilities {
        *self
    }
}

impl PacketId for ClientboundPlayerAbilities {
    open spec fn spec_packet_id(ver: u32) -> u8 {
        0x39
    }

    fn packet_id(_ver: u32) -> (r: u8) {
        0x39
    }
}

impl WireFormat for ClientboundPlayerAbilities {
    open spec fn spec_encode(p: ClientboundPlayerAbilities) -> Seq<u8> {
        seq![p.flags] + be_u32_bytes(p.flying_speed) + be_u32_bytes(p.field_of_view_modifier)
    }

    open spec fn spec_decode(s: Seq<u8>) -> Parsed<ClientboundPlayerAbilities> {
        then(need_spec(s, 9), |_u: (), s: Seq<u8>| then(take_u8(s), |flags: u8, s: Seq<u8>| then(take_u32(s), |flying_speed: u32, s: Seq<u8>| then(take_u32(s), |field_of_view_modifier: u32, s: Seq<u8>| (Ok(ClientboundPlayerAbilities { flags, flying_speed, field_of_view_modifier }), s)))))
    }
}

impl Roundtrip for ClientboundPlayerAbilities {
    open spec fn encodable(p: ClientboundPlayerAbilities) -> bool {
        true
    }

    open spec fn reads_to_end() -> bool {
        false
    }

    proof fn lemma_roundtrip(p: ClientboundPlayerAbilities, rest: Seq<u8>) {
        broadcast use group_wire_roundtrip;

        let t2 = be_u32_bytes(p.field_of_view_modifier) + rest;
        let t1 = be_u32_bytes(p.flying_speed) + t2;
        lemma_concat_associative(seq![p.flags] + be_u32_bytes(p.flying_speed), be_u32_bytes(p.field_of_view_modifier), rest);
        lemma_concat_associative(seq![p.flags], be_u32_bytes(p.flying_speed), t2);
    }
}

impl Encode for ClientboundPlayerAbilities {
    fn encode(&self, dst: &mut BytesMut) -> (r: Result<(), ProtocolError>) {
        let ghost d0 = bytes_mut_data(*dst);
        put_u8(dst, self.flags);
        let ghost mut e: Seq<u8> = seq![self@.flags];
        put_u32(dst, self.flying_speed);
        proof {
            lemma_concat_associative(d0, e, be_u32_bytes(self@.flying_speed));
            e = e + be_u32_bytes(self@.flying_speed);
        }
        put_u32(dst, self.field_of_view_modifier);
        proof {
            lemma_concat_associative(d0, e, be_u32_bytes(self@.field_of_view_modifier));
            e = e + be_u32_bytes(self@.field_of_view_modifier);
        }
        Ok(())
    }
}

impl Decode for ClientboundPlayerAbilities {
    fn decode(src: &mut Bytes) -> (r: Result<Self, ProtocolError>) {
        need(src, 9)?;
        let flags = get_u8(src);
        let flying_speed = get_u32(src);
        let field_of_view_modifier = get_u32(src);
        Ok(Self { flags, flying_speed, field_of_view_modifier })
    }
}

// ── ClientboundMapItemData ────────────────────────────────────────────

#[derive(Debug, Clone, PartialEq)]
pub struct ClientboundMapItemData {
    pub raw: Vec<u8>,
}

pub struct ClientboundMapItemDataView {
    pub raw: Seq<u8>,
}

impl View for ClientboundMapItemData {
    type V = ClientboundMapItemDataView;

    open spec fn view(&self) -> ClientboundMapItemDataView {
        ClientboundMapItemDataView {
            raw: self.raw@,
        }
    }
}

impl PacketId for ClientboundMapItemData {
    open spec fn spec_packet_id(ver: u32) -> u8 {
        0x34
    }

    fn packet_id(_ver: u32) -> (r: u8) {
        0x34
    }
}

impl WireFormat for ClientboundMapItemData {
    open spec fn spec_encode(p: ClientboundMapItemDataView) -> Seq<u8> {
        p.raw
    }

    open spec fn spec_decode(s: Seq<u8>) -> Parsed<ClientboundMapItemDataView> {
        then(take_rest(s), |raw: Seq<u8>, s: Seq<u8>| (Ok(ClientboundMapItemDataView { raw }), s))
    }
}

impl Roundtrip for ClientboundMapItemData {
    open spec fn encodable(p: ClientboundMapItemDataView) -> bool {
        true
    }

    open spec fn reads_to_end() -> bool {
        true
    }

    proof fn lemma_roundtrip(p: ClientboundMapItemDataView, rest: Seq<u8>) {
        broadcast use group_wire_roundtrip;

        assert(p.raw + rest =~= p.raw);
    }
}

impl Encode for ClientboundMapItemData {
    fn encode(&self, dst: &mut BytesMut) -> (r: Result<(), ProtocolError>) {
        let ghost d0 = bytes_mut_data(*dst);
        put_slice(dst, self.raw.as_slice());
        let ghost mut e: Seq<u8> = self@.raw;
        Ok(())
    }
}

impl Decode for ClientboundMapItemData {
    fn decode(src: &mut Bytes) -> (r: Result<Self, ProtocolError>) {
        let raw = take_remaining(src);
        Ok(Self { raw })
    }
}

// ── ClientboundBlockEntityData ────────────────────────────────────────

#[derive(Debug, Clone, PartialEq)]
pub struct ClientboundBlockEntityData {
    pub raw: Vec<u8>,
}

pub struct ClientboundBlockEntityDataView {
    pub raw: Seq<u8>,
}

impl View for ClientboundBlockEntityData {
    type V = ClientboundBlockEntityDataView;

    open spec fn view(&self) -> ClientboundBlockEntityDataView {
        ClientboundBlockEntityDataView {
            raw: self.raw@,
        }
    }
}

impl PacketId for ClientboundBlockEntityData {
    open spec fn spec_packet_id(ver: u32) -> u8 {
        0x35
    }

    fn packet_id(_ver: u32) -> (r: u8) {
        0x35
    }
}

impl WireFormat for ClientboundBlockEntityData {
    open spec fn spec_encode(p: ClientboundBlockEntityDataView) -> Seq<u8> {
        p.raw
    }

    open spec fn spec_decode(s: Seq<u8>) -> Parsed<ClientboundBlockEntityDataView> {
        then(take_rest(s), |raw: Seq<u8>, s: Seq<u8>| (Ok(ClientboundBlockEntityDataView { raw }), s))
    }
}

impl Roundtrip for ClientboundBlockEntityData {
    open spec fn encodable(p: ClientboundBlockEntityDataView) -> bool {
        true
    }

    open spec fn reads_to_end() -> bool {
        true
    }

    proof fn lemma_roundtrip(p: ClientboundBlockEntityDataView, rest: Seq<u8>) {
        broadcast use group_wire_roundtrip;

        assert(p.raw + rest =~= p.raw);
    }
}

impl Encode for ClientboundBlockEntityData {
    fn encode(&self, dst: &mut BytesMut) -> (r: Result<(), ProtocolError>) {
        let ghost d0 = bytes_mut_data(*dst);
        put_slice(dst, self.raw.as_slice());
        let ghost mut e: Seq<u8> = self@.raw;
        Ok(())
    }
}

impl Decode for ClientboundBlockEntityData {
    fn decode(src: &mut Bytes) -> (r: Result<Self, ProtocolError>) {
        let raw = take_remaining(src);
        Ok(Self { raw })
    }
}

// ── ClientboundAwardStats ─────────────────────────────────────────────

#[derive(Debug, Clone, PartialEq)]
pub struct ClientboundAwardStats {
    pub raw: Vec<u8>,
}

pub struct ClientboundAwardStatsView {
    pub raw: Seq<u8>,
}

impl View for ClientboundAwardStats {
    type V = ClientboundAwardStatsView;

    open spec fn view(&self) -> ClientboundAwardStatsView {
        ClientboundAwardStatsView {
            raw: self.raw@,
        }
    }
}

impl PacketId for ClientboundAwardStats {
    open spec fn spec_packet_id(ver: u32) -> u8 {
        0x37
    }

    fn packet_id(_ver: u32) -> (r: u8) {
        0x37
    }
}

impl WireFormat for ClientboundAwardStats {
    open spec fn spec_encode(p: ClientboundAwardStatsView) -> Seq<u8> {
        p.raw
    }

    open spec fn spec_decode(s: Seq<u8>) -> Parsed<ClientboundAwardStatsView> {
        then(take_rest(s), |raw: Seq<u8>, s: Seq<u8>| (Ok(ClientboundAwardStatsView { raw }), s))
    }
}

impl Roundtrip for ClientboundAwardStats {
    open spec fn encodable(p: ClientboundAwardStatsView) -> bool {
        true
    }

    open spec fn reads_to_end() -> bool {
        true
    }

    proof fn lemma_roundtrip(p: ClientboundAwardStatsView, rest: Seq<u8>) {
        broadcast use group_wire_roundtrip;

        assert(p.raw + rest =~= p.raw);
    }
}

impl Encode for ClientboundAwardStats {
    fn encode(&self, dst: &mut BytesMut) -> (r: Result<(), ProtocolError>) {
        let ghost d0 = bytes_mut_data(*dst);
        put_slice(dst, self.raw.as_slice());
        let ghost mut e: Seq<u8> = self@.raw;
        Ok(())
    }
}

impl Decode for ClientboundAwardStats {
    fn decode(src: &mut Bytes) -> (r: Result<Self, ProtocolError>) {
        let raw = take_remaining(src);
        Ok(Self { raw })
    }
}

// ── ClientboundCommandSuggestions ─────────────────────────────────────

#[derive(Debug, Clone, PartialEq)]
pub struct ClientboundCommandSuggestions {
    pub raw: Vec<u8>,
}

pub struct ClientboundCommandSuggestionsView {
    pub raw: Seq<u8>,
}

impl View for ClientboundCommandSuggestions {
    type V = ClientboundCommandSuggestionsView;

    open spec fn view(&self) -> ClientboundCommandSuggestionsView {
        ClientboundCommandSuggestionsView {
            raw: self.raw@,
        }
    }
}

impl PacketId for ClientboundCommandSuggestions {
    open spec fn spec_packet_id(ver: u32) -> u8 {
        0x3A
    }

    fn packet_id(_ver: u32) -> (r: u8) {
        0x3A
    }
}

impl WireFormat for ClientboundCommandSuggestions {
    open spec fn spec_encode(p: ClientboundCommandSuggestionsView) -> Seq<u8> {
        p.raw
    }

    open spec fn spec_decode(s: Seq<u8>) -> Parsed<ClientboundCommandSuggestionsView> {
        then(take_rest(s), |raw: Seq<u8>, s: Seq<u8>| (Ok(ClientboundCommandSuggestionsView { raw }), s))
    }
}

impl Roundtrip for ClientboundCommandSuggestions {
    open spec fn encodable(p: ClientboundCommandSuggestionsView) -> bool {
        true
    }

    open spec fn reads_to_end() -> bool {
        true
    }

    proof fn lemma_roundtrip(p: ClientboundCommandSuggestionsView, rest: Seq<u8>) {
        broadcast use group_wire_roundtrip;

        assert(p.raw + rest =~= p.raw);
    }
}

impl Encode for ClientboundCommandSuggestions {
    fn encode(&self, dst: &mut BytesMut) -> (r: Result<(), ProtocolError>) {
        let ghost d0 = bytes_mut_data(*dst);
        put_slice(dst, self.raw.as_slice());
        let ghost mut e: Seq<u8> = self@.raw;
        Ok(())
    }
}

impl Decode for ClientboundCommandSuggestions {
    fn decode(src: &mut Bytes) -> (r: Result<Self, ProtocolError>) {
        let raw = take_remaining(src);
        Ok(Self { raw })
    }
}

// ── ClientboundSetScoreboardObjective ─────────────────────────────────

#[derive(Debug, Clone, PartialEq)]
pub struct ClientboundSetScoreboardObjective {
    pub raw: Vec<u8>,
}

pub struct ClientboundSetScoreboardObjectiveView {
    pub raw: Seq<u8>,
}

impl View for ClientboundSetScoreboardObjective {
    type V = ClientboundSetScoreboardObjectiveView;

    open spec fn view(&self) -> ClientboundSetScoreboardObjectiveView {
        ClientboundSetScoreboardObjectiveView {
            raw: self.raw@,
        }
    }
}

impl PacketId for ClientboundSetScoreboardObjective {
    open spec fn spec_packet_id(ver: u32) -> u8 {
        0x3B
    }

    fn packet_id(_ver: u32) -> (r: u8) {
        0x3B
    }
}

impl WireFormat for ClientboundSetScoreboardObjective {
    open spec fn spec_encode(p: ClientboundSetScoreboardObjectiveView) -> Seq<u8> {
        p.raw
    }

    open spec fn spec_decode(s: Seq<u8>) -> Parsed<ClientboundSetScoreboardObjectiveView> {
        then(take_rest(s), |raw: Seq<u8>, s: Seq<u8>| (Ok(ClientboundSetScoreboardObjectiveView { raw }), s))
    }
}

impl Roundtrip for ClientboundSetScoreboardObjective {
    open spec fn encodable(p: ClientboundSetScoreboardObjectiveView) -> bool {
        true
    }

    open spec fn reads_to_end() -> bool {
        true
    }

    proof fn lemma_roundtrip(p: ClientboundSetScoreboardObjectiveView, rest: Seq<u8>) {
        broadcast use group_wire_roundtrip;

        assert(p.raw + rest =~= p.raw);
    }
}

impl Encode for ClientboundSetScoreboardObjective {
    fn encode(&self, dst: &mut BytesMut) -> (r: Result<(), ProtocolError>) {
        let ghost d0 = bytes_mut_data(*dst);
        put_slice(dst, self.raw.as_slice());
        let ghost mut e: Seq<u8> = self@.raw;
        Ok(())
    }
}

impl Decode for ClientboundSetScoreboardObjective {
    fn decode(src: &mut Bytes) -> (r: Result<Self, ProtocolError>) {
        let raw = take_remaining(src);
        Ok(Self { raw })
    }
}

// ── ClientboundResetScore ─────────────────────────────────────────────

#[derive(Debug, Clone, PartialEq)]
pub struct ClientboundResetScore {
    pub raw: Vec<u8>,
}

pub struct ClientboundResetScoreView {
    pub raw: Seq<u8>,
}

impl View for ClientboundResetScore {
    type V = ClientboundResetScoreView;

    open spec fn view(&self) -> ClientboundResetScoreView {
        ClientboundResetScoreView {
            raw: self.raw@,
        }
    }
}

impl PacketId for ClientboundResetScore {
    open spec fn spec_packet_id(ver: u32) -> u8 {
        0x3B
    }

    fn packet_id(_ver: u32) -> (r: u8) {
        0x3B
    }
}

impl WireFormat for ClientboundResetScore {
    open spec fn spec_encode(p: ClientboundResetScoreView) -> Seq<u8> {
        p.raw
    }

    open spec fn spec_decode(s: Seq<u8>) -> Parsed<ClientboundResetScoreView> {
        then(take_rest(s), |raw: Seq<u8>, s: Seq<u8>| (Ok(ClientboundResetScoreView { raw }), s))
    }
}

impl Roundtrip for ClientboundResetScore {
    open spec fn encodable(p: ClientboundResetScoreView) -> bool {
        true
    }

    open spec fn reads_to_end() -> bool {
        true
    }

    proof fn lemma_roundtrip(p: ClientboundResetScoreView, rest: Seq<u8>) {
        broadcast use group_wire_roundtrip;

        assert(p.raw + rest =~= p.raw);
    }
}

impl Encode for ClientboundResetScore {
    fn encode(&self, dst: &mut BytesMut) -> (r: Result<(), ProtocolError>) {
        let ghost d0 = bytes_mut_data(*dst);
        put_slice(dst, self.raw.as_slice());
        let ghost mut e: Seq<u8> = self@.raw;
        Ok(())
    }
}

impl Decode for ClientboundResetScore {
    fn decode(src: &mut Bytes) -> (r: Result<Self, ProtocolError>) {
        let raw = take_remaining(src);
        Ok(Self { raw })
    }
}

// ── ClientboundSetScoreboardScore ─────────────────────────────────────

#[derive(Debug, Clone, PartialEq)]
pub struct ClientboundSetScoreboardScore {
    pub raw: Vec<u8>,
}

pub struct ClientboundSetScoreboardScoreView {
    pub raw: Seq<u8>,
}

impl View for ClientboundSetScoreboardScore {
    type V = ClientboundSetScoreboardScoreView;

    open spec fn view(&self) -> ClientboundSetScoreboardScoreView {
        ClientboundSetScoreboardScoreView {
            raw: self.raw@,
        }
    }
}

impl PacketId for ClientboundSetScoreboardScore {
    open spec fn spec_packet_id(ver: u32) -> u8 {
        0x3C
    }

    fn packet_id(_ver: u32) -> (r: u8) {
        0x3C
    }
}

impl WireFormat for ClientboundSetScoreboardScore {
    open spec fn spec_encode(p: ClientboundSetScoreboardScoreView) -> Seq<u8> {
        p.raw
    }

    open spec fn spec_decode(s: Seq<u8>) -> Parsed<ClientboundSetScoreboardScoreView> {
        then(take_rest(s), |raw: Seq<u8>, s: Seq<u8>| (Ok(ClientboundSetScoreboardScoreView { raw }), s))
    }
}

impl Roundtrip for ClientboundSetScoreboardScore {
    open spec fn encodable(p: ClientboundSetScoreboardScoreView) -> bool {
        true
    }

    open spec fn reads_to_end() -> bool {
        true
    }

    proof fn lemma_roundtrip(p: ClientboundSetScoreboardScoreView, rest: Seq<u8>) {
        broadcast use group_wire_roundtrip;

        assert(p.raw + rest =~= p.raw);
    }
}

impl Encode for ClientboundSetScoreboardScore {
    fn encode(&self, dst: &mut BytesMut) -> (r: Result<(), ProtocolError>) {
        let ghost d0 = bytes_mut_data(*dst);
        put_slice(dst, self.raw.as_slice());
        let ghost mut e: Seq<u8> = self@.raw;
        Ok(())
    }
}

impl Decode for ClientboundSetScoreboardScore {
    fn decode(src: &mut Bytes) -> (r: Result<Self, ProtocolError>) {
        let raw = take_remaining(src);
        Ok(Self { raw })
    }
}

// ── ClientboundChangeDifficulty ───────────────────────────────────────

#[derive(Debug, Clone, PartialEq)]
pub struct ClientboundChangeDifficulty {
    pub raw: Vec<u8>,
}

pub struct ClientboundChangeDifficultyView {
    pub raw: Seq<u8>,
}

impl View for ClientboundChangeDifficulty {
    type V = ClientboundChangeDifficultyView;

    open spec fn view(&self) -> ClientboundChangeDifficultyView {
        ClientboundChangeDifficultyView {
            raw: self.raw@,
        }
    }
}

impl PacketId for ClientboundChangeDifficulty {
    open spec fn spec_packet_id(ver: u32) -> u8 {
        0x41
    }

    fn packet_id(_ver: u32) -> (r: u8) {
        0x41
    }
}

impl WireFormat for ClientboundChangeDifficulty {
    open spec fn spec_encode(p: ClientboundChangeDifficultyView) -> Seq<u8> {
        p.raw
    }

    open spec fn spec_decode(s: Seq<u8>) -> Parsed<ClientboundChangeDifficultyView> {
        then(take_rest(s), |raw: Seq<u8>, s: Seq<u8>| (Ok(ClientboundChangeDifficultyView { raw }), s))
    }
}

impl Roundtrip for ClientboundChangeDifficulty {
    open spec fn encodable(p: ClientboundChangeDifficultyView) -> bool {
        true
    }

    open spec fn reads_to_end() -> bool {
        true
    }

    proof fn lemma_roundtrip(p: ClientboundChangeDifficultyView, rest: Seq<u8>) {
        broadcast use group_wire_roundtrip;

        assert(p.raw + rest =~= p.raw);
    }
}

impl Encode for ClientboundChangeDifficulty {
    fn encode(&self, dst: &mut BytesMut) -> (r: Result<(), ProtocolError>) {
        let ghost d0 = bytes_mut_data(*dst);
        put_slice(dst, self.raw.as_slice());
        let ghost mut e: Seq<u8> = self@.raw;
        Ok(())
    }
}

impl Decode for ClientboundChangeDifficulty {
    fn decode(src: &mut Bytes) -> (r: Result<Self, ProtocolError>) {
        let raw = take_remaining(src);
        Ok(Self { raw })
    }
}

// ── ClientboundPlayerCombatEnd ────────────────────────────────────────

#[derive(Debug, Clone, PartialEq)]
pub struct ClientboundPlayerCombatEnd {
    pub raw: Vec<u8>,
}

pub struct ClientboundPlayerCombatEndView {
    pub raw: Seq<u8>,
}

impl View for ClientboundPlayerCombatEnd {
    type V = ClientboundPlayerCombatEndView;

    open spec fn view(&self) -> ClientboundPlayerCombatEndView {
        ClientboundPlayerCombatEndView {
            raw: self.raw@,
        }
    }
}

impl PacketId for ClientboundPlayerCombatEnd {
    open spec fn spec_packet_id(ver: u32) -> u8 {
        0x42
    }

    fn packet_id(_ver: u32) -> (r: u8) {
        0x42
    }
}

impl WireFormat for ClientboundPlayerCombatEnd {
    open spec fn spec_encode(p: ClientboundPlayerCombatEndView) -> Seq<u8> {
        p.raw
    }

    open spec fn spec_decode(s: Seq<u8>) -> Parsed<ClientboundPlayerCombatEndView> {
        then(take_rest(s), |raw: Seq<u8>, s: Seq<u8>| (Ok(ClientboundPlayerCombatEndView { raw }), s))
    }
}

impl Roundtrip for ClientboundPlayerCombatEnd {
    open spec fn encodable(p: ClientboundPlayerCombatEndView) -> bool {
        true
    }

    open spec fn reads_to_end() -> bool {
        true
    }

    proof fn lemma_roundtrip(p: ClientboundPlayerCombatEndView, rest: Seq<u8>) {
        broadcast use group_wire_roundtrip;

        assert(p.raw + rest =~= p.raw);
    }
}

impl Encode for ClientboundPlayerCombatEnd {
    fn encode(&self, dst: &mut BytesMut) -> (r: Result<(), ProtocolError>) {
        let ghost d0 = bytes_mut_data(*dst);
        put_slice(dst, self.raw.as_slice());
        let ghost mut e: Seq<u8> = self@.raw;
        Ok(())
    }
}

impl Decode for ClientboundPlayerCombatEnd {
    fn decode(src: &mut Bytes) -> (r: Result<Self, ProtocolError>) {
        let raw = take_remaining(src);
        Ok(Self { raw })
    }
}

// ── ClientboundPlayerCombatEnter ──────────────────────────────────────

#[derive(Debug, Clone, PartialEq)]
pub struct ClientboundPlayerCombatEnter {
    pub raw: Vec<u8>,
}

pub struct ClientboundPlayerCombatEnterView {
    pub raw: Seq<u8>,
}

impl View for ClientboundPlayerCombatEnter {
    type V = ClientboundPlayerCombatEnterView;

    open spec fn view(&self) -> ClientboundPlayerCombatEnterView {
        ClientboundPlayerCombatEnterView {
            raw: self.raw@,
        }
    }
}

impl PacketId for ClientboundPlayerCombatEnter {
    open spec fn spec_packet_id(ver: u32) -> u8 {
        0x42
    }

    fn packet_id(_ver: u32) -> (r: u8) {
        0x42
    }
}

impl WireFormat for ClientboundPlayerCombatEnter {
    open spec fn spec_encode(p: ClientboundPlayerCombatEnterView) -> Seq<u8> {
        p.raw
    }

    open spec fn spec_decode(s: Seq<u8>) -> Parsed<ClientboundPlayerCombatEnterView> {
        then(take_rest(s), |raw: Seq<u8>, s: Seq<u8>| (Ok(ClientboundPlayerCombatEnterView { raw }), s))
    }
}

impl Roundtrip for ClientboundPlayerCombatEnter {
    open spec fn encodable(p: ClientboundPlayerCombatEnterView) -> bool {
        true
    }

    open spec fn reads_to_end() -> bool {
        true
    }

    proof fn lemma_roundtrip(p: ClientboundPlayerCombatEnterView, rest: Seq<u8>) {
        broadcast use group_wire_roundtrip;

        assert(p.raw + rest =~= p.raw);
    }
}

impl Encode for ClientboundPlayerCombatEnter {
    fn encode(&self, dst: &mut BytesMut) -> (r: Result<(), ProtocolError>) {
        let ghost d0 = bytes_mut_data(*dst);
        put_slice(dst, self.raw.as_slice());
        let ghost mut e: Seq<u8> = self@.raw;
        Ok(())
    }
}

impl Decode for ClientboundPlayerCombatEnter {
    fn decode(src: &mut Bytes) -> (r: Result<Self, ProtocolError>) {
        let raw = take_remaining(src);
        Ok(Self { raw })
    }
}

// ── ClientboundPlayerCombatKill ───────────────────────────────────────

#[derive(Debug, Clone, PartialEq)]
pub struct ClientboundPlayerCombatKill {
    pub raw: Vec<u8>,
}

pub struct ClientboundPlayerCombatKillView {
    pub raw: Seq<u8>,
}

impl View for ClientboundPlayerCombatKill {
    type V = ClientboundPlayerCombatKillView;

    open spec fn view(&self) -> ClientboundPlayerCombatKillView {
        ClientboundPlayerCombatKillView {
            raw: self.raw@,
        }
    }
}

impl PacketId for ClientboundPlayerCombatKill {
    open spec fn spec_packet_id(ver: u32) -> u8 {
        0x42
    }

    fn packet_id(_ver: u32) -> (r: u8) {
        0x42
    }
}

impl WireFormat for ClientboundPlayerCombatKill {
    open spec fn spec_encode(p: ClientboundPlayerCombatKillView) -> Seq<u8> {
        p.raw
    }

    open spec fn spec_decode(s: Seq<u8>) -> Parsed<ClientboundPlayerCombatKillView> {
        then(take_rest(s), |raw: Seq<u8>, s: Seq<u8>| (Ok(ClientboundPlayerCombatKillView { raw }), s))
    }
}

impl Roundtrip for ClientboundPlayerCombatKill {
    open spec fn encodable(p: ClientboundPlayerCombatKillView) -> bool {
        true
    }

    open spec fn reads_to_end() -> bool {
        true
    }

    proof fn lemma_roundtrip(p: ClientboundPlayerCombatKillView, rest: Seq<u8>) {
        broadcast use group_wire_roundtrip;

        assert(p.raw + rest =~= p.raw);
    }
}

impl Encode for ClientboundPlayerCombatKill {
    fn encode(&self, dst: &mut BytesMut) -> (r: Result<(), ProtocolError>) {
        let ghost d0 = bytes_mut_data(*dst);
        put_slice(dst, self.raw.as_slice());
        let ghost mut e: Seq<u8> = self@.raw;
        Ok(())
    }
}

impl Decode for ClientboundPlayerCombatKill {
    fn decode(src: &mut Bytes) -> (r: Result<Self, ProtocolError>) {
        let raw = take_remaining(src);
        Ok(Self { raw })
    }
}

// ── ClientboundOpenSignEditor ─────────────────────────────────────────

#[derive(Debug, Clone, PartialEq)]
pub struct ClientboundOpenSignEditor {
    pub x: i32,
    pub y: i32,
    pub z: i32,
}

impl View for ClientboundOpenSignEditor {
    type V = ClientboundOpenSignEditor;

    open spec fn view(&self) -> ClientboundOpenSignEditor {
        *self
    }
}

impl PacketId for ClientboundOpenSignEditor {
    open spec fn spec_packet_id(ver: u32) -> u8 {
        0x36
    }

    fn packet_id(_ver: u32) -> (r: u8) {
        0x36
    }
}

impl WireFormat for ClientboundOpenSignEditor {
    open spec fn spec_encode(p: ClientboundOpenSignEditor) -> Seq<u8> {
        be_i32_bytes(p.x) + be_i32_bytes(p.y) + be_i32_bytes(p.z)
    }

    open spec fn spec_decode(s: Seq<u8>) -> Parsed<ClientboundOpenSignEditor> {
        then(need_spec(s, 12), |_u: (), s: Seq<u8>| then(take_i32(s), |x: i32, s: Seq<u8>| then(take_i32(s), |y: i32, s: Seq<u8>| then(take_i32(s), |z: i32, s: Seq<u8>| (Ok(ClientboundOpenSignEditor { x, y, z }), s)))))
    }
}

impl Roundtrip for ClientboundOpenSignEditor {
    open spec fn encodable(p: ClientboundOpenSignEditor) -> bool {
        true
    }

    open spec fn reads_to_end() -> bool {
        false
    }

    proof fn lemma_roundtrip(p: ClientboundOpenSignEditor, rest: Seq<u8>) {
        broadcast use group_wire_roundtrip;

        let t2 = be_i32_bytes(p.z) + rest;
        let t1 = be_i32_bytes(p.y) + t2;
        lemma_concat_associative(be_i32_bytes(p.x) + be_i32_bytes(p.y), be_i32_bytes(p.z), rest);
        lemma_concat_associative(be_i32_bytes(p.x), be_i32_bytes(p.y), t2);
    }
}

impl Encode for ClientboundOpenSignEditor {
    fn encode(&self, dst: &mut BytesMut) -> (r: Result<(), ProtocolError>) {
        let ghost d0 = bytes_mut_data(*dst);
        put_i32(dst, self.x);
        let ghost mut e: Seq<u8> = be_i32_bytes(self@.x);
        put_i32(dst, self.y);
        proof {
            lemma_concat_associative(d0, e, be_i32_bytes(self@.y));
            e = e + be_i32_bytes(self@.y);
        }
        put_i32(dst, self.z);
        proof {
            lemma_concat_associative(d0, e, be_i32_bytes(self@.z));
            e = e + be_i32_bytes(self@.z);
        }
        Ok(())
    }
}

impl Decode for ClientboundOpenSignEditor {
    fn decode(src: &mut Bytes) -> (r: Result<Self, ProtocolError>) {
        need(src, 12)?;
        let x = get_i32(src);
        let y = get_i32(src);
        let z = get_i32(src);
        Ok(Self { x, y, z })
    }
}

// ── ClientboundPlayerInfoUpdate ───────────────────────────────────────

#[derive(Debug, Clone, PartialEq)]
pub struct ClientboundPlayerInfoUpdate {
    pub action: i8,
    pub data: Vec<u8>,
}

pub struct ClientboundPlayerInfoUpdateView {
    pub action: i8,
    pub data: Seq<u8>,
}

impl View for ClientboundPlayerInfoUpdate {
    type V = ClientboundPlayerInfoUpdateView;

    open spec fn view(&self) -> ClientboundPlayerInfoUpdateView {
        ClientboundPlayerInfoUpdateView {
            action: self.action,
            data: self.data@,
        }
    }
}

impl PacketId for ClientboundPlayerInfoUpdate {
    open spec fn spec_packet_id(ver: u32) -> u8 {
        0x38
    }

    fn packet_id(_ver: u32) -> (r: u8) {
        0x38
    }
}

impl WireFormat for ClientboundPlayerInfoUpdate {
    open spec fn spec_encode(p: ClientboundPlayerInfoUpdateView) -> Seq<u8> {
        seq![p.action as u8] + p.data
    }

    open spec fn spec_decode(s: Seq<u8>) -> Parsed<ClientboundPlayerInfoUpdateView> {
        then(need_spec(s, 1), |_u: (), s: Seq<u8>| then(take_i8(s), |action: i8, s: Seq<u8>| then((Ok::<Seq<u8>, ErrorView>(s), s), |data: Seq<u8>, s: Seq<u8>| (Ok(ClientboundPlayerInfoUpdateView { action, data }), s))))
    }
}

impl Encode for ClientboundPlayerInfoUpdate {
    fn encode(&self, dst: &mut BytesMut) -> (r: Result<(), ProtocolError>) {
        let ghost d0 = bytes_mut_data(*dst);
        put_i8(dst, self.action);
        let ghost mut e: Seq<u8> = seq![self@.action as u8];
        put_slice(dst, self.data.as_slice());
        proof {
            lemma_concat_associative(d0, e, self@.data);
            e = e + self@.data;
        }
        Ok(())
    }
}

impl Decode for ClientboundPlayerInfoUpdate {
    fn decode(src: &mut Bytes) -> (r: Result<Self, ProtocolError>) {
        need(src, 1)?;
        let action = get_i8(src);
        let data = bytes_to_vec(src);
        Ok(Self { action, data })
    }
}

// ── ClientboundTabList ────────────────────────────────────────────────

#[derive(Debug, Clone, PartialEq)]
pub struct ClientboundTabList {
    pub header: String,
    pub footer: String,
}

pub struct ClientboundTabListView {
    pub header: Seq<char>,
    pub footer: Seq<char>,
}

impl View for ClientboundTabList {
    type V = ClientboundTabListView;

    open spec fn view(&self) -> ClientboundTabListView {
        ClientboundTabListView {
            header: self.header@,
            footer: self.footer@,
        }
    }
}

impl PacketId for ClientboundTabList {
    open spec fn spec_packet_id(ver: u32) -> u8 {
        0x47
    }

    fn packet_id(_ver: u32) -> (r: u8) {
        0x47
    }
}

impl WireFormat for ClientboundTabList {
    open spec fn spec_encode(p: ClientboundTabListView) -> Seq<u8> {
        string_wire(p.header) + string_wire(p.footer)
    }

    open spec fn spec_decode(s: Seq<u8>) -> Parsed<ClientboundTabListView> {
        then(str_spec(s, "ClientboundTabList header"@), |header: Seq<char>, s: Seq<u8>| then(str_spec(s, "ClientboundTabList footer"@), |footer: Seq<char>, s: Seq<u8>| (Ok(ClientboundTabListView { header, footer }), s)))
    }
}

impl Roundtrip for ClientboundTabList {
    open spec fn encodable(p: ClientboundTabListView) -> bool {
        string_fits(p.header) && string_fits(p.footer)
    }

    open spec fn reads_to_end() -> bool {
        false
    }

    proof fn lemma_roundtrip(p: ClientboundTabListView, rest: Seq<u8>) {
        broadcast use group_wire_roundtrip;

        let t1 = string_wire(p.footer) + rest;
        lemma_concat_associative(string_wire(p.header), string_wire(p.footer), rest);
        lemma_string_roundtrip(p.header, t1, missing_for("ClientboundTabList header"@), invalid_in("ClientboundTabList header"@));
        lemma_string_roundtrip(p.footer, rest, missing_for("ClientboundTabList footer"@), invalid_in("ClientboundTabList footer"@));
    }
}

impl Encode for ClientboundTabList {
    fn encode(&self, dst: &mut BytesMut) -> (r: Result<(), ProtocolError>) {
        let ghost d0 = bytes_mut_data(*dst);
        encode_str(self.header.as_str(), dst);
        let ghost mut e: Seq<u8> = string_wire(self@.header);
        encode_str(self.footer.as_str(), dst);
        proof {
            lemma_concat_associative(d0, e, string_wire(self@.footer));
            e = e + string_wire(self@.footer);
        }
        Ok(())
    }
}

impl Decode for ClientboundTabList {
    fn decode(src: &mut Bytes) -> (r: Result<Self, ProtocolError>) {
        let header = decode_str(src, "ClientboundTabList header")?;
        let footer = decode_str(src, "ClientboundTabList footer")?;
        Ok(Self { header, footer })
    }
}

// ── ClientboundResourcePackPush ───────────────────────────────────────

#[derive(Debug, Clone, PartialEq)]
pub struct ClientboundResourcePackPush {
    pub url: String,
    pub hash: String,
}

pub struct ClientboundResourcePackPushView {
    pub url: Seq<char>,
    pub hash: Seq<char>,
}

impl View for ClientboundResourcePackPush {
    type V = ClientboundResourcePackPushView;

    open spec fn view(&self) -> ClientboundResourcePackPushView {
        ClientboundResourcePackPushView {
            url: self.url@,
            hash: self.hash@,
        }
    }
}

impl PacketId for ClientboundResourcePackPush {
    open spec fn spec_packet_id(ver: u32) -> u8 {
        0x48
    }

    fn packet_id(_ver: u32) -> (r: u8) {
        0x48
    }
}

impl WireFormat for ClientboundResourcePackPush {
    open spec fn spec_encode(p: ClientboundResourcePackPushView) -> Seq<u8> {
        string_wire(p.url) + string_wire(p.hash)
    }

    open spec fn spec_decode(s: Seq<u8>) -> Parsed<ClientboundResourcePackPushView> {
        then(str_spec(s, "ClientboundResourcePackPush url"@), |url: Seq<char>, s: Seq<u8>| then(str_spec(s, "ClientboundResourcePackPush hash"@), |hash: Seq<char>, s: Seq<u8>| (Ok(ClientboundResourcePackPushView { url, hash }), s)))
    }
}

impl Roundtrip for ClientboundResourcePackPush {
    open spec fn encodable(p: ClientboundResourcePackPushView) -> bool {
        string_fits(p.url) && string_fits(p.hash)
    }

    open spec fn reads_to_end() -> bool {
        false
    }

    proof fn lemma_roundtrip(p: ClientboundResourcePackPushView, rest: Seq<u8>) {
        broadcast use group_wire_roundtrip;

        let t1 = string_wire(p.hash) + rest;
        lemma_concat_associative(string_wire(p.url), string_wire(p.hash), rest);
        lemma_string_roundtrip(p.url, t1, missing_for("ClientboundResourcePackPush url"@), invalid_in("ClientboundResourcePackPush url"@));
        lemma_string_roundtrip(p.hash, rest, missing_for("ClientboundResourcePackPush hash"@), invalid_in("ClientboundResourcePackPush hash"@));
    }
}

impl Encode for ClientboundResourcePackPush {
    fn encode(&self, dst: &mut BytesMut) -> (r: Result<(), ProtocolError>) {
        let ghost d0 = bytes_mut_data(*dst);
        encode_str(self.url.as_str(), dst);
        let ghost mut e: Seq<u8> = string_wire(self@.url);
        encode_str(self.hash.as_str(), dst);
        proof {
            lemma_concat_associative(d0, e, string_wire(self@.hash));
            e = e + string_wire(self@.hash);
        }
        Ok(())
    }
}

impl Decode for ClientboundResourcePackPush {
    fn decode(src: &mut Bytes) -> (r: Result<Self, ProtocolError>) {
        let url = decode_str(src, "ClientboundResourcePackPush url")?;
        let hash = decode_str(src, "ClientboundResourcePackPush hash")?;
        Ok(Self { url, hash })
    }
}

// ── ServerboundMovePlayerStatusOnly ───────────────────────────────────

#[derive(Debug, Clone, PartialEq)]
pub struct ServerboundMovePlayerStatusOnly {
    pub raw: Vec<u8>,
}

pub struct ServerboundMovePlayerStatusOnlyView {
    pub raw: Seq<u8>,
}

impl View for ServerboundMovePlayerStatusOnly {
    type V = ServerboundMovePlayerStatusOnlyView;

    open spec fn view(&self) -> ServerboundMovePlayerStatusOnlyView {
        ServerboundMovePlayerStatusOnlyView {
            raw: self.raw@,
        }
    }
}

impl PacketId for ServerboundMovePlayerStatusOnly {
    open spec fn spec_packet_id(ver: u32) -> u8 {
        0x03
    }

    fn packet_id(_ver: u32) -> (r: u8) {
        0x03
    }
}

impl WireFormat for ServerboundMovePlayerStatusOnly {
    open spec fn spec_encode(p: ServerboundMovePlayerStatusOnlyView) -> Seq<u8> {
        p.raw
    }

    open spec fn spec_decode(s: Seq<u8>) -> Parsed<ServerboundMovePlayerStatusOnlyView> {
        then(take_rest(s), |raw: Seq<u8>, s: Seq<u8>| (Ok(ServerboundMovePlayerStatusOnlyView { raw }), s))
    }
}

impl Roundtrip for ServerboundMovePlayerStatusOnly {
    open spec fn encodable(p: ServerboundMovePlayerStatusOnlyView) -> bool {
        true
    }

    open spec fn reads_to_end() -> bool {
        true
    }

    proof fn lemma_roundtrip(p: ServerboundMovePlayerStatusOnlyView, rest: Seq<u8>) {
        broadcast use group_wire_roundtrip;

        assert(p.raw + rest =~= p.raw);
    }
}

impl Encode for ServerboundMovePlayerStatusOnly {
    fn encode(&self, dst: &mut BytesMut) -> (r: Result<(), ProtocolError>) {
        let ghost d0 = bytes_mut_data(*dst);
        put_slice(dst, self.raw.as_slice());
        let ghost mut e: Seq<u8> = self@.raw;
        Ok(())
    }
}

impl Decode for ServerboundMovePlayerStatusOnly {
    fn decode(src: &mut Bytes) -> (r: Result<Self, ProtocolError>) {
        let raw = take_remaining(src);
        Ok(Self { raw })
    }
}

// ── ServerboundPlayerAction ───────────────────────────────────────────

#[derive(Debug, Clone, PartialEq)]
pub struct ServerboundPlayerAction {
    pub raw: Vec<u8>,
}

pub struct ServerboundPlayerActionView {
    pub raw: Seq<u8>,
}

impl View for ServerboundPlayerAction {
    type V = ServerboundPlayerActionView;

    open spec fn view(&self) -> ServerboundPlayerActionView {
        ServerboundPlayerActionView {
            raw: self.raw@,
        }
    }
}

impl PacketId for ServerboundPlayerAction {
    open spec fn spec_packet_id(ver: u32) -> u8 {
        0x07
    }

    fn packet_id(_ver: u32) -> (r: u8) {
        0x07
    }
}

impl WireFormat for ServerboundPlayerAction {
    open spec fn spec_encode(p: ServerboundPlayerActionView) -> Seq<u8> {
        p.raw
    }

    open spec fn spec_decode(s: Seq<u8>) -> Parsed<ServerboundPlayerActionView> {
        then(take_rest(s), |raw: Seq<u8>, s: Seq<u8>| (Ok(ServerboundPlayerActionView { raw }), s))
    }
}

impl Roundtrip for ServerboundPlayerAction {
    open spec fn encodable(p: ServerboundPlayerActionView) -> bool {
        true
    }

    open spec fn reads_to_end() -> bool {
        true
    }

    proof fn lemma_roundtrip(p: ServerboundPlayerActionView, rest: Seq<u8>) {
        broadcast use group_wire_roundtrip;

        assert(p.raw + rest =~= p.raw);
    }
}

impl Encode for ServerboundPlayerAction {
    fn encode(&self, dst: &mut BytesMut) -> (r: Result<(), ProtocolError>) {
        let ghost d0 = bytes_mut_data(*dst);
        put_slice(dst, self.raw.as_slice());
        let ghost mut e: Seq<u8> = self@.raw;
        Ok(())
    }
}

impl Decode for ServerboundPlayerAction {
    fn decode(src: &mut Bytes) -> (r: Result<Self, ProtocolError>) {
        let raw = take_remaining(src);
        Ok(Self { raw })
    }
}

// ── ServerboundPlayerBlockPlacement ───────────────────────────────────

#[derive(Debug, Clone, PartialEq)]
pub struct ServerboundPlayerBlockPlacement {
    pub raw: Vec<u8>,
}

pub struct ServerboundPlayerBlockPlacementView {
    pub raw: Seq<u8>,
}

impl View for ServerboundPlayerBlockPlacement {
    type V = ServerboundPlayerBlockPlacementView;

    open spec fn view(&self) -> ServerboundPlayerBlockPlacementView {
        ServerboundPlayerBlockPlacementView {
            raw: self.raw@,
        }
    }
}

impl PacketId for ServerboundPlayerBlockPlacement {
    open spec fn spec_packet_id(ver: u32) -> u8 {
        0x08
    }

    fn packet_id(_ver: u32) -> (r: u8) {
        0x08
    }
}

impl WireFormat for ServerboundPlayerBlockPlacement {
    open spec fn spec_encode(p: ServerboundPlayerBlockPlacementView) -> Seq<u8> {
        p.raw
    }

    open spec fn spec_decode(s: Seq<u8>) -> Parsed<ServerboundPlayerBlockPlacementView> {
        then(take_rest(s), |raw: Seq<u8>, s: Seq<u8>| (Ok(ServerboundPlayerBlockPlacementView { raw }), s))
    }
}

impl Roundtrip for ServerboundPlayerBlockPlacement {
    open spec fn encodable(p: ServerboundPlayerBlockPlacementView) -> bool {
        true
    }

    open spec fn reads_to_end() -> bool {
        true
    }

    proof fn lemma_roundtrip(p: ServerboundPlayerBlockPlacementView, rest: Seq<u8>) {
        broadcast use group_wire_roundtrip;

        assert(p.raw + rest =~= p.raw);
    }
}

impl Encode for ServerboundPlayerBlockPlacement {
    fn encode(&self, dst: &mut BytesMut) -> (r: Result<(), ProtocolError>) {
        let ghost d0 = bytes_mut_data(*dst);
        put_slice(dst, self.raw.as_slice());
        let ghost mut e: Seq<u8> = self@.raw;
        Ok(())
    }
}

impl Decode for ServerboundPlayerBlockPlacement {
    fn decode(src: &mut Bytes) -> (r: Result<Self, ProtocolError>) {
        let raw = take_remaining(src);
        Ok(Self { raw })
    }
}

// ── ServerboundHeldItemChange ─────────────────────────────────────────

#[derive(Debug, Clone, PartialEq)]
pub struct ServerboundHeldItemChange {
    pub raw: Vec<u8>,
}

pub struct ServerboundHeldItemChangeView {
    pub raw: Seq<u8>,
}

impl View for ServerboundHeldItemChange {
    type V = ServerboundHeldItemChangeView;

    open spec fn view(&self) -> ServerboundHeldItemChangeView {
        ServerboundHeldItemChangeView {
            raw: self.raw@,
        }
    }
}

impl PacketId for ServerboundHeldItemChange {
    open spec fn spec_packet_id(ver: u32) -> u8 {
        0x09
    }

    fn packet_id(_ver: u32) -> (r: u8) {
        0x09
    }
}

impl WireFormat for ServerboundHeldItemChange {
    open spec fn spec_encode(p: ServerboundHeldItemChangeView) -> Seq<u8> {
        p.raw
    }

    open spec fn spec_decode(s: Seq<u8>) -> Parsed<ServerboundHeldItemChangeView> {
        then(take_rest(s), |raw: Seq<u8>, s: Seq<u8>| (Ok(ServerboundHeldItemChangeView { raw }), s))
    }
}

impl Roundtrip for ServerboundHeldItemChange {
    open spec fn encodable(p: ServerboundHeldItemChangeView) -> bool {
        true
    }

    open spec fn reads_to_end() -> bool {
        true
    }

    proof fn lemma_roundtrip(p: ServerboundHeldItemChangeView, rest: Seq<u8>) {
        broadcast use group_wire_roundtrip;

        assert(p.raw + rest =~= p.raw);
    }
}

impl Encode for ServerboundHeldItemChange {
    fn encode(&self, dst: &mut BytesMut) -> (r: Result<(), ProtocolError>) {
        let ghost d0 = bytes_mut_data(*dst);
        put_slice(dst, self.raw.as_slice());
        let ghost mut e: Seq<u8> = self@.raw;
        Ok(())
    }
}

impl Decode for ServerboundHeldItemChange {
    fn decode(src: &mut Bytes) -> (r: Result<Self, ProtocolError>) {
        let raw = take_remaining(src);
        Ok(Self { raw })
    }
}

// ── ServerboundAnimation ──────────────────────────────────────────────

#[derive(Debug, Clone, PartialEq)]
pub struct ServerboundAnimation {
    pub raw: Vec<u8>,
}

pub struct ServerboundAnimationView {
    pub raw: Seq<u8>,
}

impl View for ServerboundAnimation {
    type V = ServerboundAnimationView;

    open spec fn view(&self) -> ServerboundAnimationView {
        ServerboundAnimationView {
            raw: self.raw@,
        }
    }
}

impl PacketId for ServerboundAnimation {
    open spec fn spec_packet_id(ver: u32) -> u8 {
        0x0A
    }

    fn packet_id(_ver: u32) -> (r: u8) {
        0x0A
    }
}

impl WireFormat for ServerboundAnimation {
    open spec fn spec_encode(p: ServerboundAnimationView) -> Seq<u8> {
        p.raw
    }

    open spec fn spec_decode(s: Seq<u8>) -> Parsed<ServerboundAnimationView> {
        then(take_rest(s), |raw: Seq<u8>, s: Seq<u8>| (Ok(ServerboundAnimationView { raw }), s))
    }
}

impl Roundtrip for ServerboundAnimation {
    open spec fn encodable(p: ServerboundAnimationView) -> bool {
        true
    }

    open spec fn reads_to_end() -> bool {
        true
    }

    proof fn lemma_roundtrip(p: ServerboundAnimationView, rest: Seq<u8>) {
        broadcast use group_wire_roundtrip;

        assert(p.raw + rest =~= p.raw);
    }
}

impl Encode for ServerboundAnimation {
    fn encode(&self, dst: &mut BytesMut) -> (r: Result<(), ProtocolError>) {
        let ghost d0 = bytes_mut_data(*dst);
        put_slice(dst, self.raw.as_slice());
        let ghost mut e: Seq<u8> = self@.raw;
        Ok(())
    }
}

impl Decode for ServerboundAnimation {
    fn decode(src: &mut Bytes) -> (r: Result<Self, ProtocolError>) {
        let raw = take_remaining(src);
        Ok(Self { raw })
    }
}

// ── ServerboundEntityAction ───────────────────────────────────────────

#[derive(Debug, Clone, PartialEq)]
pub struct ServerboundEntityAction {
    pub raw: Vec<u8>,
}

pub struct ServerboundEntityActionView {
    pub raw: Seq<u8>,
}

impl View for ServerboundEntityAction {
    type V = ServerboundEntityActionView;

    open spec fn view(&self) -> ServerboundEntityActionView {
        ServerboundEntityActionView {
            raw: self.raw@,
        }
    }
}

impl PacketId for ServerboundEntityAction {
    open spec fn spec_packet_id(ver: u32) -> u8 {
        0x0B
    }

    fn packet_id(_ver: u32) -> (r: u8) {
        0x0B
    }
}

impl WireFormat for ServerboundEntityAction {
    open spec fn spec_encode(p: ServerboundEntityActionView) -> Seq<u8> {
        p.raw
    }

    open spec fn spec_decode(s: Seq<u8>) -> Parsed<ServerboundEntityActionView> {
        then(take_rest(s), |raw: Seq<u8>, s: Seq<u8>| (Ok(ServerboundEntityActionView { raw }), s))
    }
}

impl Roundtrip for ServerboundEntityAction {
    open spec fn encodable(p: ServerboundEntityActionView) -> bool {
        true
    }

    open spec fn reads_to_end() -> bool {
        true
    }

    proof fn lemma_roundtrip(p: ServerboundEntityActionView, rest: Seq<u8>) {
        broadcast use group_wire_roundtrip;

        assert(p.raw + rest =~= p.raw);
    }
}

impl Encode for ServerboundEntityAction {
    fn encode(&self, dst: &mut BytesMut) -> (r: Result<(), ProtocolError>) {
        let ghost d0 = bytes_mut_data(*dst);
        put_slice(dst, self.raw.as_slice());
        let ghost mut e: Seq<u8> = self@.raw;
        Ok(())
    }
}

impl Decode for ServerboundEntityAction {
    fn decode(src: &mut Bytes) -> (r: Result<Self, ProtocolError>) {
        let raw = take_remaining(src);
        Ok(Self { raw })
    }
}

// ── ServerboundSteerVehicle ───────────────────────────────────────────

#[derive(Debug, Clone, PartialEq)]
pub struct ServerboundSteerVehicle {
    pub raw: Vec<u8>,
}

pub struct ServerboundSteerVehicleView {
    pub raw: Seq<u8>,
}

impl View for ServerboundSteerVehicle {
    type V = ServerboundSteerVehicleView;

    open spec fn view(&self) -> ServerboundSteerVehicleView {
        ServerboundSteerVehicleView {
            raw: self.raw@,
        }
    }
}

impl PacketId for ServerboundSteerVehicle {
    open spec fn spec_packet_id(ver: u32) -> u8 {
        0x0C
    }

    fn packet_id(_ver: u32) -> (r: u8) {
        0x0C
    }
}

impl WireFormat for ServerboundSteerVehicle {
    open spec fn spec_encode(p: ServerboundSteerVehicleView) -> Seq<u8> {
        p.raw
    }

    open spec fn spec_decode(s: Seq<u8>) -> Parsed<ServerboundSteerVehicleView> {
        then(take_rest(s), |raw: Seq<u8>, s: Seq<u8>| (Ok(ServerboundSteerVehicleView { raw }), s))
    }
}

impl Roundtrip for ServerboundSteerVehicle {
    open spec fn encodable(p: ServerboundSteerVehicleView) -> bool {
        true
    }

    open spec fn reads_to_end() -> bool {
        true
    }

    proof fn lemma_roundtrip(p: ServerboundSteerVehicleView, rest: Seq<u8>) {
        broadcast use group_wire_roundtrip;

        assert(p.raw + rest =~= p.raw);
    }
}

impl Encode for ServerboundSteerVehicle {
    fn encode(&self, dst: &mut BytesMut) -> (r: Result<(), ProtocolError>) {
        let ghost d0 = bytes_mut_data(*dst);
        put_slice(dst, self.raw.as_slice());
        let ghost mut e: Seq<u8> = self@.raw;
        Ok(())
    }
}

impl Decode for ServerboundSteerVehicle {
    fn decode(src: &mut Bytes) -> (r: Result<Self, ProtocolError>) {
        let raw = take_remaining(src);
        Ok(Self { raw })
    }
}

// ── ServerboundCloseWindow ────────────────────────────────────────────

#[derive(Debug, Clone, PartialEq)]
pub struct ServerboundCloseWindow {
    pub raw: Vec<u8>,
}

pub struct ServerboundCloseWindowView {
    pub raw: Seq<u8>,
}

impl View for ServerboundCloseWindow {
    type V = ServerboundCloseWindowView;

    open spec fn view(&self) -> ServerboundCloseWindowView {
        ServerboundCloseWindowView {
            raw: self.raw@,
        }
    }
}

impl PacketId for ServerboundCloseWindow {
    open spec fn spec_packet_id(ver: u32) -> u8 {
        0x0D
    }

    fn packet_id(_ver: u32) -> (r: u8) {
        0x0D
    }
}

impl WireFormat for ServerboundCloseWindow {
    open spec fn spec_encode(p: ServerboundCloseWindowView) -> Seq<u8> {
        p.raw
    }

    open spec fn spec_decode(s: Seq<u8>) -> Parsed<ServerboundCloseWindowView> {
        then(take_rest(s), |raw: Seq<u8>, s: Seq<u8>| (Ok(ServerboundCloseWindowView { raw }), s))
    }
}

impl Roundtrip for ServerboundCloseWindow {
    open spec fn encodable(p: ServerboundCloseWindowView) -> bool {
        true
    }

    open spec fn reads_to_end() -> bool {
        true
    }

    proof fn lemma_roundtrip(p: ServerboundCloseWindowView, rest: Seq<u8>) {
        broadcast use group_wire_roundtrip;

        assert(p.raw + rest =~= p.raw);
    }
}

impl Encode for ServerboundCloseWindow {
    fn encode(&self, dst: &mut BytesMut) -> (r: Result<(), ProtocolError>) {
        let ghost d0 = bytes_mut_data(*dst);
        put_slice(dst, self.raw.as_slice());
        let ghost mut e: Seq<u8> = self@.raw;
        Ok(())
    }
}

impl Decode for ServerboundCloseWindow {
    fn decode(src: &mut Bytes) -> (r: Result<Self, ProtocolError>) {
        let raw = take_remaining(src);
        Ok(Self { raw })
    }
}

// ── ServerboundClickWindow ────────────────────────────────────────────

#[derive(Debug, Clone, PartialEq)]
pub struct ServerboundClickWindow {
    pub raw: Vec<u8>,
}

pub struct ServerboundClickWindowView {
    pub raw: Seq<u8>,
}

impl View for ServerboundClickWindow {
    type V = ServerboundClickWindowView;

    open spec fn view(&self) -> ServerboundClickWindowView {
        ServerboundClickWindowView {
            raw: self.raw@,
        }
    }
}

impl PacketId for ServerboundClickWindow {
    open spec fn spec_packet_id(ver: u32) -> u8 {
        0x0E
    }

    fn packet_id(_ver: u32) -> (r: u8) {
        0x0E
    }
}

impl WireFormat for ServerboundClickWindow {
    open spec fn spec_encode(p: ServerboundClickWindowView) -> Seq<u8> {
        p.raw
    }

    open spec fn spec_decode(s: Seq<u8>) -> Parsed<ServerboundClickWindowView> {
        then(take_rest(s), |raw: Seq<u8>, s: Seq<u8>| (Ok(ServerboundClickWindowView { raw }), s))
    }
}

impl Roundtrip for ServerboundClickWindow {
    open spec fn encodable(p: ServerboundClickWindowView) -> bool {
        true
    }

    open spec fn reads_to_end() -> bool {
        true
    }

    proof fn lemma_roundtrip(p: ServerboundClickWindowView, rest: Seq<u8>) {
        broadcast use group_wire_roundtrip;

        assert(p.raw + rest =~= p.raw);
    }
}

impl Encode for ServerboundClickWindow {
    fn encode(&self, dst: &mut BytesMut) -> (r: Result<(), ProtocolError>) {
        let ghost d0 = bytes_mut_data(*dst);
        put_slice(dst, self.raw.as_slice());
        let ghost mut e: Seq<u8> = self@.raw;
        Ok(())
    }
}

impl Decode for ServerboundClickWindow {
    fn decode(src: &mut Bytes) -> (r: Result<Self, ProtocolError>) {
        let raw = take_remaining(src);
        Ok(Self { raw })
    }
}

// ── ServerboundConfirmTransaction ─────────────────────────────────────

#[derive(Debug, Clone, PartialEq)]
pub struct ServerboundConfirmTransaction {
    pub raw: Vec<u8>,
}

pub struct ServerboundConfirmTransactionView {
    pub raw: Seq<u8>,
}

impl View for ServerboundConfirmTransaction {
    type V = ServerboundConfirmTransactionView;

    open spec fn view(&self) -> ServerboundConfirmTransactionView {
        ServerboundConfirmTransactionView {
            raw: self.raw@,
        }
    }
}

impl PacketId for ServerboundConfirmTransaction {
    open spec fn spec_packet_id(ver: u32) -> u8 {
        0x0F
    }

    fn packet_id(_ver: u32) -> (r: u8) {
        0x0F
    }
}

impl WireFormat for ServerboundConfirmTransaction {
    open spec fn spec_encode(p: ServerboundConfirmTransactionView) -> Seq<u8> {
        p.raw
    }

    open spec fn spec_decode(s: Seq<u8>) -> Parsed<ServerboundConfirmTransactionView> {
        then(take_rest(s), |raw: Seq<u8>, s: Seq<u8>| (Ok(ServerboundConfirmTransactionView { raw }), s))
    }
}

impl Roundtrip for ServerboundConfirmTransaction {
    open spec fn encodable(p: ServerboundConfirmTransactionView) -> bool {
        true
    }

    open spec fn reads_to_end() -> bool {
        true
    }

    proof fn lemma_roundtrip(p: ServerboundConfirmTransactionView, rest: Seq<u8>) {
        broadcast use group_wire_roundtrip;

        assert(p.raw + rest =~= p.raw);
    }
}

impl Encode for ServerboundConfirmTransaction {
    fn encode(&self, dst: &mut BytesMut) -> (r: Result<(), ProtocolError>) {
        let ghost d0 = bytes_mut_data(*dst);
        put_slice(dst, self.raw.as_slice());
        let ghost mut e: Seq<u8> = self@.raw;
        Ok(())
    }
}

impl Decode for ServerboundConfirmTransaction {
    fn decode(src: &mut Bytes) -> (r: Result<Self, ProtocolError>) {
        let raw = take_remaining(src);
        Ok(Self { raw })
    }
}

// ── ServerboundCreativeInventoryAction ────────────────────────────────

#[derive(Debug, Clone, PartialEq)]
pub struct ServerboundCreativeInventoryAction {
    pub raw: Vec<u8>,
}

pub struct ServerboundCreativeInventoryActionView {
    pub raw: Seq<u8>,
}

impl View for ServerboundCreativeInventoryAction {
    type V = ServerboundCreativeInventoryActionView;

    open spec fn view(&self) -> ServerboundCreativeInventoryActionView {
        ServerboundCreativeInventoryActionView {
            raw: self.raw@,
        }
    }
}

impl PacketId for ServerboundCreativeInventoryAction {
    open spec fn spec_packet_id(ver: u32) -> u8 {
        0x10
    }

    fn packet_id(_ver: u32) -> (r: u8) {
        0x10
    }
}

impl WireFormat for ServerboundCreativeInventoryAction {
    open spec fn spec_encode(p: ServerboundCreativeInventoryActionView) -> Seq<u8> {
        p.raw
    }

    open spec fn spec_decode(s: Seq<u8>) -> Parsed<ServerboundCreativeInventoryActionView> {
        then(take_rest(s), |raw: Seq<u8>, s: Seq<u8>| (Ok(ServerboundCreativeInventoryActionView { raw }), s))
    }
}

impl Roundtrip for ServerboundCreativeInventoryAction {
    open spec fn encodable(p: ServerboundCreativeInventoryActionView) -> bool {
        true
    }

    open spec fn reads_to_end() -> bool {
        true
    }

    proof fn lemma_roundtrip(p: ServerboundCreativeInventoryActionView, rest: Seq<u8>) {
        broadcast use group_wire_roundtrip;

        assert(p.raw + rest =~= p.raw);
    }
}

impl Encode for ServerboundCreativeInventoryAction {
    fn encode(&self, dst: &mut BytesMut) -> (r: Result<(), ProtocolError>) {
        let ghost d0 = bytes_mut_data(*dst);
        put_slice(dst, self.raw.as_slice());
        let ghost mut e: Seq<u8> = self@.raw;
        Ok(())
    }
}

impl Decode for ServerboundCreativeInventoryAction {
    fn decode(src: &mut Bytes) -> (r: Result<Self, ProtocolError>) {
        let raw = take_remaining(src);
        Ok(Self { raw })
    }
}

// ── ServerboundEnchantItem ────────────────────────────────────────────

#[derive(Debug, Clone, PartialEq)]
pub struct ServerboundEnchantItem {
    pub raw: Vec<u8>,
}

pub struct ServerboundEnchantItemView {
    pub raw: Seq<u8>,
}

impl View for ServerboundEnchantItem {
    type V = ServerboundEnchantItemView;

    open spec fn view(&self) -> ServerboundEnchantItemView {
        ServerboundEnchantItemView {
            raw: self.raw@,
        }
    }
}

impl PacketId for ServerboundEnchantItem {
    open spec fn spec_packet_id(ver: u32) -> u8 {
        0x11
    }

    fn packet_id(_ver: u32) -> (r: u8) {
        0x11
    }
}

impl WireFormat for ServerboundEnchantItem {
    open spec fn spec_encode(p: ServerboundEnchantItemView) -> Seq<u8> {
        p.raw
    }

    open spec fn spec_decode(s: Seq<u8>) -> Parsed<ServerboundEnchantItemView> {
        then(take_rest(s), |raw: Seq<u8>, s: Seq<u8>| (Ok(ServerboundEnchantItemView { raw }), s))
    }
}

impl Roundtrip for ServerboundEnchantItem {
    open spec fn encodable(p: ServerboundEnchantItemView) -> bool {
        true
    }

    open spec fn reads_to_end() -> bool {
        true
    }

    proof fn lemma_roundtrip(p: ServerboundEnchantItemView, rest: Seq<u8>) {
        broadcast use group_wire_roundtrip;

        assert(p.raw + rest =~= p.raw);
    }
}

impl Encode for ServerboundEnchantItem {
    fn encode(&self, dst: &mut BytesMut) -> (r: Result<(), ProtocolError>) {
        let ghost d0 = bytes_mut_data(*dst);
        put_slice(dst, self.raw.as_slice());
        let ghost mut e: Seq<u8> = self@.raw;
        Ok(())
    }
}

impl Decode for ServerboundEnchantItem {
    fn decode(src: &mut Bytes) -> (r: Result<Self, ProtocolError>) {
        let raw = take_remaining(src);
        Ok(Self { raw })
    }
}

// ── ServerboundClickWindowButton ──────────────────────────────────────

#[derive(Debug, Clone, PartialEq)]
pub struct ServerboundClickWindowButton {
    pub raw: Vec<u8>,
}

pub struct ServerboundClickWindowButtonView {
    pub raw: Seq<u8>,
}

impl View for ServerboundClickWindowButton {
    type V = ServerboundClickWindowButtonView;

    open spec fn view(&self) -> ServerboundClickWindowButtonView {
        ServerboundClickWindowButtonView {
            raw: self.raw@,
        }
    }
}

impl PacketId for ServerboundClickWindowButton {
    open spec fn spec_packet_id(ver: u32) -> u8 {
        0x11
    }

    fn packet_id(_ver: u32) -> (r: u8) {
        0x11
    }
}

impl WireFormat for ServerboundClickWindowButton {
    open spec fn spec_encode(p: ServerboundClickWindowButtonView) -> Seq<u8> {
        p.raw
    }

    open spec fn spec_decode(s: Seq<u8>) -> Parsed<ServerboundClickWindowButtonView> {
        then(take_rest(s), |raw: Seq<u8>, s: Seq<u8>| (Ok(ServerboundClickWindowButtonView { raw }), s))
    }
}

impl Roundtrip for ServerboundClickWindowButton {
    open spec fn encodable(p: ServerboundClickWindowButtonView) -> bool {
        true
    }

    open spec fn reads_to_end() -> bool {
        true
    }

    proof fn lemma_roundtrip(p: ServerboundClickWindowButtonView, rest: Seq<u8>) {
        broadcast use group_wire_roundtrip;

        assert(p.raw + rest =~= p.raw);
    }
}

impl Encode for ServerboundClickWindowButton {
    fn encode(&self, dst: &mut BytesMut) -> (r: Result<(), ProtocolError>) {
        let ghost d0 = bytes_mut_data(*dst);
        put_slice(dst, self.raw.as_slice());
        let ghost mut e: Seq<u8> = self@.raw;
        Ok(())
    }
}

impl Decode for ServerboundClickWindowButton {
    fn decode(src: &mut Bytes) -> (r: Result<Self, ProtocolError>) {
        let raw = take_remaining(src);
        Ok(Self { raw })
    }
}

// ── ServerboundUpdateSign ─────────────────────────────────────────────

#[derive(Debug, Clone, PartialEq)]
pub struct ServerboundUpdateSign {
    pub raw: Vec<u8>,
}

pub struct ServerboundUpdateSignView {
    pub raw: Seq<u8>,
}

impl View for ServerboundUpdateSign {
    type V = ServerboundUpdateSignView;

    open spec fn view(&self) -> ServerboundUpdateSignView {
        ServerboundUpdateSignView {
            raw: self.raw@,
        }
    }
}

impl PacketId for ServerboundUpdateSign {
    open spec fn spec_packet_id(ver: u32) -> u8 {
        0x12
    }

    fn packet_id(_ver: u32) -> (r: u8) {
        0x12
    }
}

impl WireFormat for ServerboundUpdateSign {
    open spec fn spec_encode(p: ServerboundUpdateSignView) -> Seq<u8> {
        p.raw
    }

    open spec fn spec_decode(s: Seq<u8>) -> Parsed<ServerboundUpdateSignView> {
        then(take_rest(s), |raw: Seq<u8>, s: Seq<u8>| (Ok(ServerboundUpdateSignView { raw }), s))
    }
}

impl Roundtrip for ServerboundUpdateSign {
    open spec fn encodable(p: ServerboundUpdateSignView) -> bool {
        true
    }

    open spec fn reads_to_end() -> bool {
        true
    }

    proof fn lemma_roundtrip(p: ServerboundUpdateSignView, rest: Seq<u8>) {
        broadcast use group_wire_roundtrip;

        assert(p.raw + rest =~= p.raw);
    }
}

impl Encode for ServerboundUpdateSign {
    fn encode(&self, dst: &mut BytesMut) -> (r: Result<(), ProtocolError>) {
        let ghost d0 = bytes_mut_data(*dst);
        put_slice(dst, self.raw.as_slice());
        let ghost mut e: Seq<u8> = self@.raw;
        Ok(())
    }
}

impl Decode for ServerboundUpdateSign {
    fn decode(src: &mut Bytes) -> (r: Result<Self, ProtocolError>) {
        let raw = take_remaining(src);
        Ok(Self { raw })
    }
}

// ── ServerboundPlayerAbilities ────────────────────────────────────────

#[derive(Debug, Clone, PartialEq)]
pub struct ServerboundPlayerAbilities {
    pub raw: Vec<u8>,
}

pub struct ServerboundPlayerAbilitiesView {
    pub raw: Seq<u8>,
}

impl View for ServerboundPlayerAbilities {
    type V = ServerboundPlayerAbilitiesView;

    open spec fn view(&self) -> ServerboundPlayerAbilitiesView {
        ServerboundPlayerAbilitiesView {
            raw: self.raw@,
        }
    }
}

impl PacketId for ServerboundPlayerAbilities {
    open spec fn spec_packet_id(ver: u32) -> u8 {
        0x13
    }

    fn packet_id(_ver: u32) -> (r: u8) {
        0x13
    }
}

impl WireFormat for ServerboundPlayerAbilities {
    open spec fn spec_encode(p: ServerboundPlayerAbilitiesView) -> Seq<u8> {
        p.raw
    }

    open spec fn spec_decode(s: Seq<u8>) -> Parsed<ServerboundPlayerAbilitiesView> {
        then(take_rest(s), |raw: Seq<u8>, s: Seq<u8>| (Ok(ServerboundPlayerAbilitiesView { raw }), s))
    }
}

impl Roundtrip for ServerboundPlayerAbilities {
    open spec fn encodable(p: ServerboundPlayerAbilitiesView) -> bool {
        true
    }

    open spec fn reads_to_end() -> bool {
        true
    }

    proof fn lemma_roundtrip(p: ServerboundPlayerAbilitiesView, rest: Seq<u8>) {
        broadcast use group_wire_roundtrip;

        assert(p.raw + rest =~= p.raw);
    }
}

impl Encode for ServerboundPlayerAbilities {
    fn encode(&self, dst: &mut BytesMut) -> (r: Result<(), ProtocolError>) {
        let ghost d0 = bytes_mut_data(*dst);
        put_slice(dst, self.raw.as_slice());
        let ghost mut e: Seq<u8> = self@.raw;
        Ok(())
    }
}

impl Decode for ServerboundPlayerAbilities {
    fn decode(src: &mut Bytes) -> (r: Result<Self, ProtocolError>) {
        let raw = take_remaining(src);
        Ok(Self { raw })
    }
}

// ── ServerboundCommandSuggestion ──────────────────────────────────────

#[derive(Debug, Clone, PartialEq)]
pub struct ServerboundCommandSuggestion {
    pub raw: Vec<u8>,
}

pub struct ServerboundCommandSuggestionView {
    pub raw: Seq<u8>,
}

impl View for ServerboundCommandSuggestion {
    type V = ServerboundCommandSuggestionView;

    open spec fn view(&self) -> ServerboundCommandSuggestionView {
        ServerboundCommandSuggestionView {
            raw: self.raw@,
        }
    }
}

impl PacketId for ServerboundCommandSuggestion {
    open spec fn spec_packet_id(ver: u32) -> u8 {
        0x14
    }

    fn packet_id(_ver: u32) -> (r: u8) {
        0x14
    }
}

impl WireFormat for ServerboundCommandSuggestion {
    open spec fn spec_encode(p: ServerboundCommandSuggestionView) -> Seq<u8> {
        p.raw
    }

    open spec fn spec_decode(s: Seq<u8>) -> Parsed<ServerboundCommandSuggestionView> {
        then(take_rest(s), |raw: Seq<u8>, s: Seq<u8>| (Ok(ServerboundCommandSuggestionView { raw }), s))
    }
}

impl Roundtrip for ServerboundCommandSuggestion {
    open spec fn encodable(p: ServerboundCommandSuggestionView) -> bool {
        true
    }

    open spec fn reads_to_end() -> bool {
        true
    }

    proof fn lemma_roundtrip(p: ServerboundCommandSuggestionView, rest: Seq<u8>) {
        broadcast use group_wire_roundtrip;

        assert(p.raw + rest =~= p.raw);
    }
}

impl Encode for ServerboundCommandSuggestion {
    fn encode(&self, dst: &mut BytesMut) -> (r: Result<(), ProtocolError>) {
        let ghost d0 = bytes_mut_data(*dst);
        put_slice(dst, self.raw.as_slice());
        let ghost mut e: Seq<u8> = self@.raw;
        Ok(())
    }
}

impl Decode for ServerboundCommandSuggestion {
    fn decode(src: &mut Bytes) -> (r: Result<Self, ProtocolError>) {
        let raw = take_remaining(src);
        Ok(Self { raw })
    }
}

// ── ServerboundClientSettings ─────────────────────────────────────────

#[derive(Debug, Clone, PartialEq)]
pub struct ServerboundClientSettings {
    pub raw: Vec<u8>,
}

pub struct ServerboundClientSettingsView {
    pub raw: Seq<u8>,
}

impl View for ServerboundClientSettings {
    type V = ServerboundClientSettingsView;

    open spec fn view(&self) -> ServerboundClientSettingsView {
        ServerboundClientSettingsView {
            raw: self.raw@,
        }
    }
}

impl PacketId for ServerboundClientSettings {
    open spec fn spec_packet_id(ver: u32) -> u8 {
        0x15
    }

    fn packet_id(_ver: u32) -> (r: u8) {
        0x15
    }
}

impl WireFormat for ServerboundClientSettings {
    open spec fn spec_encode(p: ServerboundClientSettingsView) -> Seq<u8> {
        p.raw
    }

    open spec fn spec_decode(s: Seq<u8>) -> Parsed<ServerboundClientSettingsView> {
        then(take_rest(s), |raw: Seq<u8>, s: Seq<u8>| (Ok(ServerboundClientSettingsView { raw }), s))
    }
}

impl Roundtrip for ServerboundClientSettings {
    open spec fn encodable(p: ServerboundClientSettingsView) -> bool {
        true
    }

    open spec fn reads_to_end() -> bool {
        true
    }

    proof fn lemma_roundtrip(p: ServerboundClientSettingsView, rest: Seq<u8>) {
        broadcast use group_wire_roundtrip;

        assert(p.raw + rest =~= p.raw);
    }
}

impl Encode for ServerboundClientSettings {
    fn encode(&self, dst: &mut BytesMut) -> (r: Result<(), ProtocolError>) {
        let ghost d0 = bytes_mut_data(*dst);
        put_slice(dst, self.raw.as_slice());
        let ghost mut e: Seq<u8> = self@.raw;
        Ok(())
    }
}

impl Decode for ServerboundClientSettings {
    fn decode(src: &mut Bytes) -> (r: Result<Self, ProtocolError>) {
        let raw = take_remaining(src);
        Ok(Self { raw })
    }
}

// ── ServerboundClientStatus ───────────────────────────────────────────

#[derive(Debug, Clone, PartialEq)]
pub struct ServerboundClientStatus {
    pub raw: Vec<u8>,
}

pub struct ServerboundClientStatusView {
    pub raw: Seq<u8>,
}

impl View for ServerboundClientStatus {
    type V = ServerboundClientStatusView;

    open spec fn view(&self) -> ServerboundClientStatusView {
        ServerboundClientStatusView {
            raw: self.raw@,
        }
    }
}

impl PacketId for ServerboundClientStatus {
    open spec fn spec_packet_id(ver: u32) -> u8 {
        0x16
    }

    fn packet_id(_ver: u32) -> (r: u8) {
        0x16
    }
}

impl WireFormat for ServerboundClientStatus {
    open spec fn spec_encode(p: ServerboundClientStatusView) -> Seq<u8> {
        p.raw
    }

    open spec fn spec_decode(s: Seq<u8>) -> Parsed<ServerboundClientStatusView> {
        then(take_rest(s), |raw: Seq<u8>, s: Seq<u8>| (Ok(ServerboundClientStatusView { raw }), s))
    }
}

impl Roundtrip for ServerboundClientStatus {
    open spec fn encodable(p: ServerboundClientStatusView) -> bool {
        true
    }

    open spec fn reads_to_end() -> bool {
        true
    }

    proof fn lemma_roundtrip(p: ServerboundClientStatusView, rest: Seq<u8>) {
        broadcast use group_wire_roundtrip;

        assert(p.raw + rest =~= p.raw);
    }
}

impl Encode for ServerboundClientStatus {
    fn encode(&self, dst: &mut BytesMut) -> (r: Result<(), ProtocolError>) {
        let ghost d0 = bytes_mut_data(*dst);
        put_slice(dst, self.raw.as_slice());
        let ghost mut e: Seq<u8> = self@.raw;
        Ok(())
    }
}

impl Decode for ServerboundClientStatus {
    fn decode(src: &mut Bytes) -> (r: Result<Self, ProtocolError>) {
        let raw = take_remaining(src);
        Ok(Self { raw })
    }
}

// ── ServerboundResourcePackStatus ─────────────────────────────────────

#[derive(Debug, Clone, PartialEq)]
pub struct ServerboundResourcePackStatus {
    pub raw: Vec<u8>,
}

pub struct ServerboundResourcePackStatusView {
    pub raw: Seq<u8>,
}

impl View for ServerboundResourcePackStatus {
    type V = ServerboundResourcePackStatusView;

    open spec fn view(&self) -> ServerboundResourcePackStatusView {
        ServerboundResourcePackStatusView {
            raw: self.raw@,
        }
    }
}

impl PacketId for ServerboundResourcePackStatus {
    open spec fn spec_packet_id(ver: u32) -> u8 {
        0x19
    }

    fn packet_id(_ver: u32) -> (r: u8) {
        0x19
    }
}

impl WireFormat for ServerboundResourcePackStatus {
    open spec fn spec_encode(p: ServerboundResourcePackStatusView) -> Seq<u8> {
        p.raw
    }

    open spec fn spec_decode(s: Seq<u8>) -> Parsed<ServerboundResourcePackStatusView> {
        then(take_rest(s), |raw: Seq<u8>, s: Seq<u8>| (Ok(ServerboundResourcePackStatusView { raw }), s))
    }
}

impl Roundtrip for ServerboundResourcePackStatus {
    open spec fn encodable(p: ServerboundResourcePackStatusView) -> bool {
        true
    }

    open spec fn reads_to_end() -> bool {
        true
    }

    proof fn lemma_roundtrip(p: ServerboundResourcePackStatusView, rest: Seq<u8>) {
        broadcast use group_wire_roundtrip;

        assert(p.raw + rest =~= p.raw);
    }
}

impl Encode for ServerboundResourcePackStatus {
    fn encode(&self, dst: &mut BytesMut) -> (r: Result<(), ProtocolError>) {
        let ghost d0 = bytes_mut_data(*dst);
        put_slice(dst, self.raw.as_slice());
        let ghost mut e: Seq<u8> = self@.raw;
        Ok(())
    }
}

impl Decode for ServerboundResourcePackStatus {
    fn decode(src: &mut Bytes) -> (r: Result<Self, ProtocolError>) {
        let raw = take_remaining(src);
        Ok(Self { raw })
    }
}

// ── ServerboundInteract ──────────────────────────────────────────────

/// What the player does to the entity.
#[derive(Debug, Clone, PartialEq)]
pub enum InteractAction {
    Interact,
    Attack,
    InteractAt {
        /// The bits of the `f32` value (`f32::to_bits`).
        target_x: u32,
        /// The bits of the `f32` value (`f32::to_bits`).
        target_y: u32,
        /// The bits of the `f32` value (`f32::to_bits`).
        target_z: u32,
    },
}

impl View for InteractAction {
    type V = InteractAction;

    open spec fn view(&self) -> InteractAction {
        *self
    }
}

#[derive(Debug, Clone, PartialEq)]
pub struct ServerboundInteract {
    pub entity_id: VarInt,
    pub action: InteractAction,
}

impl View for ServerboundInteract {
    type V = ServerboundInteract;

    open spec fn view(&self) -> ServerboundInteract {
        *self
    }
}

impl PacketId for ServerboundInteract {
    open spec fn spec_packet_id(ver: u32) -> u8 {
        0x02
    }

    fn packet_id(_ver: u32) -> (r: u8) {
        0x02
    }
}

/// The bytes of an action: its VarInt tag, then its fields.
pub open spec fn interact_action_wire(a: InteractAction) -> Seq<u8> {
    match a {
        InteractAction::Interact => VarInt::spec_encode(VarInt(0)),
        InteractAction::Attack => VarInt::spec_encode(VarInt(1)),
        InteractAction::InteractAt { target_x, target_y, target_z } => VarInt::spec_encode(VarInt(2))
            + be_u32_bytes(target_x) + be_u32_bytes(target_y) + be_u32_bytes(target_z),
    }
}

/// Reading an action: tag 0, 1 or 2, else `InvalidData`.
pub open spec fn interact_action_spec(s: Seq<u8>) -> Parsed<InteractAction> {
    then(
        take_varint_i32(s),
        |tag: i32, s: Seq<u8>|
            if tag == 0 {
                (Ok(InteractAction::Interact), s)
            } else if tag == 1 {
                (Ok(InteractAction::Attack), s)
            } else if tag == 2 {
                then(
                    need_spec(s, 12),
                    |_u: (), s: Seq<u8>|
                        then(
                            take_u32(s),
                            |target_x: u32, s: Seq<u8>|
                                then(
                                    take_u32(s),
                                    |target_y: u32, s: Seq<u8>|
                                        then(
                                            take_u32(s),
                                            |target_z: u32, s: Seq<u8>|
                                                (Ok(InteractAction::InteractAt { target_x, target_y, target_z }), s),
                                        ),
                                ),
                        ),
                )
            } else {
                (Err(ErrorView::Io(IoErrorKind::InvalidData, "Unknown ServerboundInteract action type"@)), s)
            },
    )
}

fn decode_interact_action(src: &mut Bytes) -> (r: Result<InteractAction, ProtocolError>)
    requires
        !panics(interact_action_spec(bytes_data(*old(src)))),
    ensures
        interact_action_spec(bytes_data(*old(src))) == (result_view(r), bytes_data(*final(src))),
{
    let tag = VarInt::decode(src)?.0;
    if tag == 0 {
        Ok(InteractAction::Interact)
    } else if tag == 1 {
        Ok(InteractAction::Attack)
    } else if tag == 2 {
        need(src, 12)?;
        let target_x = get_u32(src);
        let target_y = get_u32(src);
        let target_z = get_u32(src);
        Ok(InteractAction::InteractAt { target_x, target_y, target_z })
    } else {
        Err(io_error(IoErrorKind::InvalidData, "Unknown ServerboundInteract action type"))
    }
}

fn encode_interact_action(a: &InteractAction, dst: &mut BytesMut)
    ensures
        bytes_mut_data(*final(dst)) == bytes_mut_data(*old(dst)) + interact_action_wire(*a),
{
    let ghost d0 = bytes_mut_data(*dst);
    match a {
        InteractAction::Interact => {
            let _ = VarInt(0).encode(dst);
        },
        InteractAction::Attack => {
            let _ = VarInt(1).encode(dst);
        },
        InteractAction::InteractAt { target_x, target_y, target_z } => {
            let ghost e0 = VarInt::spec_encode(VarInt(2));
            let ghost e1 = be_u32_bytes(*target_x);
            let ghost e2 = be_u32_bytes(*target_y);
            let ghost e3 = be_u32_bytes(*target_z);
            let _ = VarInt(2).encode(dst);
            put_u32(dst, *target_x);
            put_u32(dst, *target_y);
            put_u32(dst, *target_z);
            proof {
                lemma_concat_associative(d0, e0, e1);
                lemma_concat_associative(d0, e0 + e1, e2);
                lemma_concat_associative(d0, e0 + e1 + e2, e3);
            }
        },
    }
}

/// Reading the bytes of an action gives it back.
pub proof fn lemma_interact_action_roundtrip(a: InteractAction, rest: Seq<u8>)
    ensures
        interact_action_spec(interact_action_wire(a) + rest) == (Ok::<InteractAction, ErrorView>(a), rest),
{
    broadcast use group_wire_roundtrip;

    match a {
        InteractAction::Interact => {
            VarInt::lemma_roundtrip(VarInt(0), rest);
        },
        InteractAction::Attack => {
            VarInt::lemma_roundtrip(VarInt(1), rest);
        },
        InteractAction::InteractAt { target_x, target_y, target_z } => {
            let e0 = VarInt::spec_encode(VarInt(2));
            let e1 = be_u32_bytes(target_x);
            let e2 = be_u32_bytes(target_y);
            let e3 = be_u32_bytes(target_z);
            let t3 = e3 + rest;
            let t2 = e2 + t3;
            let t1 = e1 + t2;
            lemma_concat_associative(e0 + e1 + e2, e3, rest);
            lemma_concat_associative(e0 + e1, e2, t3);
            lemma_concat_associative(e0, e1, t2);
            VarInt::lemma_roundtrip(VarInt(2), t1);
            assert(t1.len() >= 12);
        },
    }
}

impl WireFormat for ServerboundInteract {
    open spec fn spec_encode(p: ServerboundInteract) -> Seq<u8> {
        VarInt::spec_encode(p.entity_id) + interact_action_wire(p.action)
    }

    open spec fn spec_decode(s: Seq<u8>) -> Parsed<ServerboundInteract> {
        then(
            VarInt::spec_decode(s),
            |entity_id: VarInt, s: Seq<u8>|
                then(
                    interact_action_spec(s),
                    |action: InteractAction, s: Seq<u8>|
                        (Ok(ServerboundInteract { entity_id, action }), s),
                ),
        )
    }
}

impl Roundtrip for ServerboundInteract {
    open spec fn encodable(p: ServerboundInteract) -> bool {
        true
    }

    open spec fn reads_to_end() -> bool {
        false
    }

    proof fn lemma_roundtrip(p: ServerboundInteract, rest: Seq<u8>) {
        broadcast use group_wire_roundtrip;

        let e0 = VarInt::spec_encode(p.entity_id);
        let e1 = interact_action_wire(p.action);
        let t1 = e1 + rest;
        lemma_concat_associative(e0, e1, rest);
        VarInt::lemma_roundtrip(p.entity_id, t1);
        lemma_interact_action_roundtrip(p.action, rest);
    }
}

impl Encode for ServerboundInteract {
    fn encode(&self, dst: &mut BytesMut) -> (r: Result<(), ProtocolError>) {
        let ghost d0 = bytes_mut_data(*dst);
        let ghost e0 = VarInt::spec_encode(self.entity_id);
        let ghost e1 = interact_action_wire(self.action);
        let _ = self.entity_id.encode(dst);
        encode_interact_action(&self.action, dst);
        proof {
            lemma_concat_associative(d0, e0, e1);
        }
        Ok(())
    }
}

impl Decode for ServerboundInteract {
    fn decode(src: &mut Bytes) -> (r: Result<Self, ProtocolError>) {
        let entity_id = VarInt::decode(src)?;
        let action = decode_interact_action(src)?;
        Ok(Self { entity_id, action })
    }
}


/// The view of each entity id in turn.
pub open spec fn entity_id_items_view(v: Seq<i32>) -> Seq<i32> {
    v.map_values(|x: i32| x)
}

/// Reading one entity id.
pub open spec fn entity_id_item_spec(t: Seq<u8>) -> Parsed<i32> {
    take_i32(t)
}

/// The bytes of one entity id.
pub open spec fn entity_id_item_wire(x: i32) -> Seq<u8> {
    be_i32_bytes(x)
}

/// The entity ids that read back.
pub open spec fn entity_id_item_fits(x: i32) -> bool {
    true
}

pub open spec fn entity_id_item() -> spec_fn(Seq<u8>) -> Parsed<i32> {
    |t: Seq<u8>| entity_id_item_spec(t)
}

pub open spec fn entity_id_piece() -> spec_fn(i32) -> Seq<u8> {
    |x: i32| entity_id_item_wire(x)
}

fn decode_entity_id_item(src: &mut Bytes) -> (r: Result<i32, ProtocolError>)
    requires
        !panics(entity_id_item_spec(bytes_data(*old(src)))),
    ensures
        entity_id_item_spec(bytes_data(*old(src))) == (
            match r {
                Ok(x) => Ok(x),
                Err(e) => Err(e@),
            },
            bytes_data(*final(src)),
        ),
{
    Ok(get_i32(src))
}

fn encode_entity_id_item(x: &i32, dst: &mut BytesMut)
    ensures
        bytes_mut_data(*final(dst)) == bytes_mut_data(*old(dst)) + entity_id_item_wire(*x),
{
    put_i32(dst, *x);
}

proof fn lemma_entity_id_item_roundtrip(x: i32, rest: Seq<u8>)
    requires
        entity_id_item_fits(x),
    ensures
        entity_id_item_spec(entity_id_item_wire(x) + rest) == (Ok::<i32, ErrorView>(x), rest),
{
    assert((be_i32_bytes(x) + rest).skip(4) =~= rest);
    crate::wire::lemma_take_i32(x, rest);
}

/// A count, then that many entity ids. A negative count asks for an
/// allocation that cannot be made.
pub open spec fn entity_id_list_spec(s: Seq<u8>) -> Parsed<Seq<i32>> {
    then(
        take_varint_i32(s),
        |c: i32, s: Seq<u8>|
            if c < 0 {
                (Err(ErrorView::Panic), s)
            } else {
                if c as int * 4 > usize::MAX {
                    (Err(ErrorView::Panic), s)
                } else {
                    then(need_spec(s, (c as int * 4) as usize), |_u: (), s: Seq<u8>| read_n(s, c as nat, entity_id_item()))
                }
            },
    )
}

/// The bytes of a list of entity ids: the count, then each one.
pub open spec fn entity_id_list_wire(xs: Seq<i32>) -> Seq<u8> {
    VarInt::spec_encode(VarInt(xs.len() as i32)) + write_all(xs, entity_id_piece())
}

/// The lists of entity ids that read back.
pub open spec fn entity_id_list_fits(xs: Seq<i32>) -> bool {
    xs.len() <= i32::MAX && xs.len() * 4 <= usize::MAX && forall|i: int| 0 <= i < xs.len() ==> entity_id_item_fits(#[trigger] xs[i])
}

fn decode_entity_id_list(src: &mut Bytes) -> (r: Result<Vec<i32>, ProtocolError>)
    requires
        !panics(entity_id_list_spec(bytes_data(*old(src)))),
    ensures
        entity_id_list_spec(bytes_data(*old(src))) == (
            match r {
                Ok(v) => Ok(entity_id_items_view(v@)),
                Err(e) => Err(e@),
            },
            bytes_data(*final(src)),
        ),
{
    let c = VarInt::decode(src)?.0;
    let count = c as usize;
    proof {
        assert(c as int * 4 <= usize::MAX);
    }
    need(src, count * 4)?;
    let ghost s1 = bytes_data(*src);
    let mut items: Vec<i32> = Vec::new();
    let mut i: usize = 0;
    assert(entity_id_items_view(items@) =~= Seq::<i32>::empty());
    while i < count
        invariant
            0 <= c,
            count == c as usize,
            i <= count,
            !panics(read_n(s1, count as nat, entity_id_item())),
            read_n(s1, i as nat, entity_id_item()) == (
                Ok::<Seq<i32>, ErrorView>(entity_id_items_view(items@)),
                bytes_data(*src),
            ),
            entity_id_list_spec(bytes_data(*old(src))) == read_n(s1, count as nat, entity_id_item()),
        decreases count - i,
    {
        proof {
            if panics(entity_id_item_spec(bytes_data(*src))) {
                lemma_read_n_err(s1, (i + 1) as nat, count as nat, entity_id_item());
            }
        }
        let x = match decode_entity_id_item(src) {
            Ok(x) => x,
            Err(e) => {
                proof {
                    lemma_read_n_err(s1, (i + 1) as nat, count as nat, entity_id_item());
                }
                return Err(e);
            },
        };
        let ghost before = items@;
        items.push(x);
        assert(entity_id_items_view(items@) =~= entity_id_items_view(before).push(x));
        i += 1;
    }
    Ok(items)
}

fn encode_entity_id_list(v: &Vec<i32>, dst: &mut BytesMut)
    ensures
        bytes_mut_data(*final(dst)) == bytes_mut_data(*old(dst)) + entity_id_list_wire(entity_id_items_view(v@)),
{
    let _ = VarInt(v.len() as i32).encode(dst);
    let ghost d0 = bytes_mut_data(*dst);
    let ghost xs = entity_id_items_view(v@);
    let mut i: usize = 0;
    assert(xs.take(0) =~= Seq::<i32>::empty());
    assert(d0 + write_all(xs.take(0), entity_id_piece()) =~= d0);
    while i < v.len()
        invariant
            xs == entity_id_items_view(v@),
            i <= v.len(),
            bytes_mut_data(*dst) == d0 + write_all(xs.take(i as int), entity_id_piece()),
        decreases v.len() - i,
    {
        encode_entity_id_item(&v[i], dst);
        assert(xs.take(i as int + 1).drop_last() =~= xs.take(i as int));
        assert(bytes_mut_data(*dst) =~= d0 + write_all(xs.take(i as int + 1), entity_id_piece()));
        i += 1;
    }
    assert(xs.take(v.len() as int) =~= xs);
    assert(bytes_mut_data(*dst) =~= bytes_mut_data(*old(dst)) + entity_id_list_wire(xs));
}

pub proof fn lemma_entity_id_list_roundtrip(xs: Seq<i32>, rest: Seq<u8>)
    requires
        entity_id_list_fits(xs),
    ensures
        entity_id_list_spec(entity_id_list_wire(xs) + rest) == (Ok::<Seq<i32>, ErrorView>(xs), rest),
{
    let body = write_all(xs, entity_id_piece()) + rest;
    assert(entity_id_list_wire(xs) + rest =~= VarInt::spec_encode(VarInt(xs.len() as i32)) + body);
    VarInt::lemma_roundtrip(VarInt(xs.len() as i32), body);
    assert forall|x: i32, r: Seq<u8>| entity_id_item_fits(x) implies #[trigger] entity_id_item()(
        entity_id_piece()(x) + r,
    ) == (Ok::<i32, ErrorView>(x), r) by {
        lemma_entity_id_item_roundtrip(x, r);
    }
    lemma_entity_id_wire_len(xs);
    assert(body.len() >= xs.len() * 4);
    lemma_read_write_n(xs, rest, entity_id_item(), entity_id_piece(), |x: i32| entity_id_item_fits(x));
}

proof fn lemma_entity_id_wire_len(xs: Seq<i32>)
    ensures
        write_all(xs, entity_id_piece()).len() == xs.len() * 4,
    decreases xs.len(),
{
    if xs.len() > 0 {
        lemma_entity_id_wire_len(xs.drop_last());
    }
}

// ── ClientboundRemoveEntities ─────────────────────────────────────────

#[derive(Debug, Clone, PartialEq)]
pub struct ClientboundRemoveEntities {
    pub entity_ids: Vec<i32>,
}

pub struct ClientboundRemoveEntitiesView {
    pub entity_ids: Seq<i32>,
}

impl View for ClientboundRemoveEntities {
    type V = ClientboundRemoveEntitiesView;

    open spec fn view(&self) -> ClientboundRemoveEntitiesView {
        ClientboundRemoveEntitiesView {
            entity_ids: entity_id_items_view(self.entity_ids@),
        }
    }
}

impl PacketId for ClientboundRemoveEntities {
    open spec fn spec_packet_id(ver: u32) -> u8 {
        0x13
    }

    fn packet_id(_ver: u32) -> (r: u8) {
        0x13
    }
}

impl WireFormat for ClientboundRemoveEntities {
    open spec fn spec_encode(p: ClientboundRemoveEntitiesView) -> Seq<u8> {
        entity_id_list_wire(p.entity_ids)
    }

    open spec fn spec_decode(s: Seq<u8>) -> Parsed<ClientboundRemoveEntitiesView> {
        then(entity_id_list_spec(s), |entity_ids: Seq<i32>, s: Seq<u8>| (Ok(ClientboundRemoveEntitiesView { entity_ids }), s))
    }
}

impl Roundtrip for ClientboundRemoveEntities {
    open spec fn encodable(p: ClientboundRemoveEntitiesView) -> bool {
        entity_id_list_fits(p.entity_ids)
    }

    open spec fn reads_to_end() -> bool {
        false
    }

    proof fn lemma_roundtrip(p: ClientboundRemoveEntitiesView, rest: Seq<u8>) {
        broadcast use group_wire_roundtrip;

        lemma_entity_id_list_roundtrip(p.entity_ids, rest);
    }
}

impl Encode for ClientboundRemoveEntities {
    fn encode(&self, dst: &mut BytesMut) -> (r: Result<(), ProtocolError>) {
        let ghost d0 = bytes_mut_data(*dst);
        encode_entity_id_list(&self.entity_ids, dst);
        let ghost mut e: Seq<u8> = entity_id_list_wire(self@.entity_ids);
        Ok(())
    }
}

impl Decode for ClientboundRemoveEntities {
    fn decode(src: &mut Bytes) -> (r: Result<Self, ProtocolError>) {
        let entity_ids = decode_entity_id_list(src)?;
        Ok(Self { entity_ids })
    }
}
/// An `i32` byte count, then that many bytes; too few bytes left is
/// `UnexpectedEof` (a negative count is a count no buffer holds).
pub open spec fn i32_bytes_eof_spec(s: Seq<u8>) -> Parsed<Seq<u8>> {
    then(
        take_i32(s),
        |c: i32, t: Seq<u8>|
            {
                let n = c as usize;
                if t.len() < n {
                    (Err(ErrorView::UnexpectedEof), t)
                } else {
                    (Ok(t.take(n as int)), t.skip(n as int))
                }
            },
    )
}

/// The bytes of an `i32`-counted byte array.
pub open spec fn i32_bytes_wire(b: Seq<u8>) -> Seq<u8> {
    be_i32_bytes(b.len() as i32) + b
}

fn decode_i32_bytes_eof(src: &mut Bytes) -> (r: Result<Vec<u8>, ProtocolError>)
    requires
        !panics(i32_bytes_eof_spec(bytes_data(*old(src)))),
    ensures
        i32_bytes_eof_spec(bytes_data(*old(src))) == (result_view(r), bytes_data(*final(src))),
{
    let len = get_i32(src) as usize;
    if remaining(src) < len {
        return Err(ProtocolError::UnexpectedEof);
    }
    let b = copy_to_bytes(src, len);
    Ok(bytes_to_vec(&b))
}

pub proof fn lemma_i32_bytes_eof_roundtrip(b: Seq<u8>, rest: Seq<u8>)
    requires
        b.len() <= i32::MAX,
    ensures
        i32_bytes_eof_spec(i32_bytes_wire(b) + rest) == (Ok::<Seq<u8>, ErrorView>(b), rest),
{
    broadcast use group_wire_roundtrip;

    let n = b.len() as i32;
    lemma_concat_associative(be_i32_bytes(n), b, rest);
    assert((b + rest).take(b.len() as int) =~= b);
    assert((b + rest).skip(b.len() as int) =~= rest);
}

// ── ClientboundLevelChunkWithLight ────────────────────────────────────

#[derive(Debug, Clone, PartialEq)]
pub struct ClientboundLevelChunkWithLight {
    pub chunk_x: i32,
    pub chunk_z: i32,
    pub continuous: bool,
    pub primary_bitmap: i16,
    pub add_bitmap: i16,
    pub compressed_data: Vec<u8>,
}

pub struct ClientboundLevelChunkWithLightView {
    pub chunk_x: i32,
    pub chunk_z: i32,
    pub continuous: bool,
    pub primary_bitmap: i16,
    pub add_bitmap: i16,
    pub compressed_data: Seq<u8>,
}

impl View for ClientboundLevelChunkWithLight {
    type V = ClientboundLevelChunkWithLightView;

    open spec fn view(&self) -> ClientboundLevelChunkWithLightView {
        ClientboundLevelChunkWithLightView {
            chunk_x: self.chunk_x,
            chunk_z: self.chunk_z,
            continuous: self.continuous,
            primary_bitmap: self.primary_bitmap,
            add_bitmap: self.add_bitmap,
            compressed_data: self.compressed_data@,
        }
    }
}

impl PacketId for ClientboundLevelChunkWithLight {
    open spec fn spec_packet_id(ver: u32) -> u8 {
        0x21
    }

    fn packet_id(_ver: u32) -> (r: u8) {
        0x21
    }
}

impl WireFormat for ClientboundLevelChunkWithLight {
    open spec fn spec_encode(p: ClientboundLevelChunkWithLightView) -> Seq<u8> {
        be_i32_bytes(p.chunk_x) + be_i32_bytes(p.chunk_z) + seq![bool_byte(p.continuous)] + be_i16_bytes(p.primary_bitmap) + be_i16_bytes(p.add_bitmap) + i32_bytes_wire(p.compressed_data)
    }

    open spec fn spec_decode(s: Seq<u8>) -> Parsed<ClientboundLevelChunkWithLightView> {
        then(need_spec(s, 17), |_u: (), s: Seq<u8>| then(take_i32(s), |chunk_x: i32, s: Seq<u8>| then(take_i32(s), |chunk_z: i32, s: Seq<u8>| then(take_bool(s), |continuous: bool, s: Seq<u8>| then(take_i16(s), |primary_bitmap: i16, s: Seq<u8>| then(take_i16(s), |add_bitmap: i16, s: Seq<u8>| then(i32_bytes_eof_spec(s), |compressed_data: Seq<u8>, s: Seq<u8>| (Ok(ClientboundLevelChunkWithLightView { chunk_x, chunk_z, continuous, primary_bitmap, add_bitmap, compressed_data }), s))))))))
    }
}

impl Roundtrip for ClientboundLevelChunkWithLight {
    open spec fn encodable(p: ClientboundLevelChunkWithLightView) -> bool {
        p.compressed_data.len() <= i32::MAX
    }

    open spec fn reads_to_end() -> bool {
        false
    }

    #[verifier::rlimit(100)]
    #[verifier::spinoff_prover]
    proof fn lemma_roundtrip(p: ClientboundLevelChunkWithLightView, rest: Seq<u8>) {
        broadcast use group_wire_roundtrip;

        let t5 = i32_bytes_wire(p.compressed_data) + rest;
        let t4 = be_i16_bytes(p.add_bitmap) + t5;
        let t3 = be_i16_bytes(p.primary_bitmap) + t4;
        let t2 = seq![bool_byte(p.continuous)] + t3;
        let t1 = be_i32_bytes(p.chunk_z) + t2;
        lemma_concat_associative(be_i32_bytes(p.chunk_x) + be_i32_bytes(p.chunk_z) + seq![bool_byte(p.continuous)] + be_i16_bytes(p.primary_bitmap) + be_i16_bytes(p.add_bitmap), i32_bytes_wire(p.compressed_data), rest);
        lemma_concat_associative(be_i32_bytes(p.chunk_x) + be_i32_bytes(p.chunk_z) + seq![bool_byte(p.continuous)] + be_i16_bytes(p.primary_bitmap), be_i16_bytes(p.add_bitmap), t5);
        lemma_concat_associative(be_i32_bytes(p.chunk_x) + be_i32_bytes(p.chunk_z) + seq![bool_byte(p.continuous)], be_i16_bytes(p.primary_bitmap), t4);
        lemma_concat_associative(be_i32_bytes(p.chunk_x) + be_i32_bytes(p.chunk_z), seq![bool_byte(p.continuous)], t3);
        lemma_concat_associative(be_i32_bytes(p.chunk_x), be_i32_bytes(p.chunk_z), t2);
        lemma_i32_bytes_eof_roundtrip(p.compressed_data, rest);
    }
}

impl Encode for ClientboundLevelChunkWithLight {
    fn encode(&self, dst: &mut BytesMut) -> (r: Result<(), ProtocolError>) {
        let ghost d0 = bytes_mut_data(*dst);
        put_i32(dst, self.chunk_x);
        let ghost mut e: Seq<u8> = be_i32_bytes(self@.chunk_x);
        put_i32(dst, self.chunk_z);
        proof {
            lemma_concat_associative(d0, e, be_i32_bytes(self@.chunk_z));
            e = e + be_i32_bytes(self@.chunk_z);
        }
        put_u8(dst, self.continuous as u8);
        proof {
            lemma_concat_associative(d0, e, seq![bool_byte(self@.continuous)]);
            e = e + seq![bool_byte(self@.continuous)];
        }
        put_i16(dst, self.primary_bitmap);
        proof {
            lemma_concat_associative(d0, e, be_i16_bytes(self@.primary_bitmap));
            e = e + be_i16_bytes(self@.primary_bitmap);
        }
        put_i16(dst, self.add_bitmap);
        proof {
            lemma_concat_associative(d0, e, be_i16_bytes(self@.add_bitmap));
            e = e + be_i16_bytes(self@.add_bitmap);
        }
        put_i32(dst, self.compressed_data.len() as i32);
        extend_from_slice(dst, self.compressed_data.as_slice());
        proof {
            lemma_concat_associative(d0, e, i32_bytes_wire(self@.compressed_data));
            e = e + i32_bytes_wire(self@.compressed_data);
        }
        Ok(())
    }
}

impl Decode for ClientboundLevelChunkWithLight {
    fn decode(src: &mut Bytes) -> (r: Result<Self, ProtocolError>) {
        need(src, 17)?;
        let chunk_x = get_i32(src);
        let chunk_z = get_i32(src);
        let continuous = get_u8(src) != 0;
        let primary_bitmap = get_i16(src);
        let add_bitmap = get_i16(src);
        let compressed_data = decode_i32_bytes_eof(src)?;
        Ok(Self { chunk_x, chunk_z, continuous, primary_bitmap, add_bitmap, compressed_data })
    }
}
// ── ClientboundExplosion ─────────────────────────────────────────────

#[derive(Debug, Clone, PartialEq)]
pub struct ClientboundExplosion {
    /// The bits of the `f32` value (`f32::to_bits`).
    pub x: u32,
    /// The bits of the `f32` value (`f32::to_bits`).
    pub y: u32,
    /// The bits of the `f32` value (`f32::to_bits`).
    pub z: u32,
    /// The bits of the `f32` value (`f32::to_bits`).
    pub radius: u32,
    pub record_count: i32,
    /// Three bytes per affected block.
    pub records: Vec<u8>,
    /// The bits of the `f32` value (`f32::to_bits`).
    pub player_motion_x: u32,
    /// The bits of the `f32` value (`f32::to_bits`).
    pub player_motion_y: u32,
    /// The bits of the `f32` value (`f32::to_bits`).
    pub player_motion_z: u32,
}

pub struct ClientboundExplosionView {
    pub x: u32,
    pub y: u32,
    pub z: u32,
    pub radius: u32,
    pub record_count: i32,
    pub records: Seq<u8>,
    pub player_motion_x: u32,
    pub player_motion_y: u32,
    pub player_motion_z: u32,
}

impl View for ClientboundExplosion {
    type V = ClientboundExplosionView;

    open spec fn view(&self) -> ClientboundExplosionView {
        ClientboundExplosionView {
            x: self.x,
            y: self.y,
            z: self.z,
            radius: self.radius,
            record_count: self.record_count,
            records: self.records@,
            player_motion_x: self.player_motion_x,
            player_motion_y: self.player_motion_y,
            player_motion_z: self.player_motion_z,
        }
    }
}

impl PacketId for ClientboundExplosion {
    open spec fn spec_packet_id(ver: u32) -> u8 {
        0x27
    }

    fn packet_id(_ver: u32) -> (r: u8) {
        0x27
    }
}

/// The packet's bytes after its four leading floats.
pub open spec fn explosion_tail_wire(p: ClientboundExplosionView) -> Seq<u8> {
    be_i32_bytes(p.record_count) + (p.records + (be_u32_bytes(p.player_motion_x) + (be_u32_bytes(p.player_motion_y)
        + be_u32_bytes(p.player_motion_z))))
}

/// Reading the records (three bytes for each counted one) and the three
/// motion floats that follow the fields of `p` read so far. A negative
/// count overflows the byte count.
pub open spec fn explosion_tail_spec(p: ClientboundExplosionView, s: Seq<u8>) -> Parsed<ClientboundExplosionView> {
    if p.record_count < 0 || p.record_count * 3 + 12 > usize::MAX {
        (Err(ErrorView::Panic), s)
    } else {
        let n = p.record_count * 3;
        if s.len() < n + 12 {
            (Err(ErrorView::UnexpectedEof), s)
        } else {
            then(
                take_u32(s.skip(n)),
                |player_motion_x: u32, t: Seq<u8>|
                    then(
                        take_u32(t),
                        |player_motion_y: u32, t: Seq<u8>|
                            then(
                                take_u32(t),
                                |player_motion_z: u32, t: Seq<u8>|
                                    (
                                        Ok(
                                            ClientboundExplosionView {
                                                x: p.x,
                                                y: p.y,
                                                z: p.z,
                                                radius: p.radius,
                                                record_count: p.record_count,
                                                records: s.take(n),
                                                player_motion_x,
                                                player_motion_y,
                                                player_motion_z,
                                            },
                                        ),
                                        t,
                                    ),
                            ),
                    ),
            )
        }
    }
}

impl WireFormat for ClientboundExplosion {
    open spec fn spec_encode(p: ClientboundExplosionView) -> Seq<u8> {
        be_u32_bytes(p.x) + (be_u32_bytes(p.y) + (be_u32_bytes(p.z) + (be_u32_bytes(p.radius) + explosion_tail_wire(p))))
    }

    open spec fn spec_decode(s: Seq<u8>) -> Parsed<ClientboundExplosionView> {
        then(
            need_spec(s, 32),
            |_u: (), s: Seq<u8>|
                then(
                    take_u32(s),
                    |x: u32, s: Seq<u8>|
                        then(
                            take_u32(s),
                            |y: u32, s: Seq<u8>|
                                then(
                                    take_u32(s),
                                    |z: u32, s: Seq<u8>|
                                        then(
                                            take_u32(s),
                                            |radius: u32, s: Seq<u8>|
                                                then(
                                                    take_i32(s),
                                                    |record_count: i32, s: Seq<u8>|
                                                        explosion_tail_spec(
                                                            ClientboundExplosionView {
                                                                x,
                                                                y,
                                                                z,
                                                                radius,
                                                                record_count,
                                                                records: Seq::<u8>::empty(),
                                                                player_motion_x: 0,
                                                                player_motion_y: 0,
                                                                player_motion_z: 0,
                                                            },
                                                            s,
                                                        ),
                                                ),
                                        ),
                                ),
                        ),
                ),
        )
    }
}

impl Roundtrip for ClientboundExplosion {
    /// Records of exactly three bytes per counted block, a count whose byte
    /// count (with the floats after it) fits a `usize`.
    open spec fn encodable(p: ClientboundExplosionView) -> bool {
        &&& 0 <= p.record_count
        &&& p.records.len() == p.record_count * 3
        &&& p.record_count * 3 + 12 <= usize::MAX
    }

    open spec fn reads_to_end() -> bool {
        false
    }

    #[verifier::rlimit(100)]
    #[verifier::spinoff_prover]
    proof fn lemma_roundtrip(p: ClientboundExplosionView, rest: Seq<u8>) {
        broadcast use group_wire_roundtrip;

        let m0 = be_u32_bytes(p.player_motion_x) + (be_u32_bytes(p.player_motion_y) + be_u32_bytes(p.player_motion_z));
        let r = p.records + m0;
        let tail = explosion_tail_wire(p);
        let f3 = be_u32_bytes(p.radius) + tail;
        let f2 = be_u32_bytes(p.z) + f3;
        let f1 = be_u32_bytes(p.y) + f2;
        lemma_concat_associative(be_u32_bytes(p.x), f1, rest);
        lemma_concat_associative(be_u32_bytes(p.y), f2, rest);
        lemma_concat_associative(be_u32_bytes(p.z), f3, rest);
        lemma_concat_associative(be_u32_bytes(p.radius), tail, rest);
        lemma_concat_associative(be_i32_bytes(p.record_count), r, rest);
        assert((Self::spec_encode(p) + rest).len() >= 32);
        lemma_explosion_tail(p, rest);
    }
}

proof fn lemma_explosion_tail(p: ClientboundExplosionView, rest: Seq<u8>)
    requires
        0 <= p.record_count,
        p.records.len() == p.record_count * 3,
        p.record_count * 3 + 12 <= usize::MAX,
    ensures
        explosion_tail_spec(
            ClientboundExplosionView {
                x: p.x,
                y: p.y,
                z: p.z,
                radius: p.radius,
                record_count: p.record_count,
                records: Seq::<u8>::empty(),
                player_motion_x: 0,
                player_motion_y: 0,
                player_motion_z: 0,
            },
            p.records + (be_u32_bytes(p.player_motion_x) + (be_u32_bytes(p.player_motion_y) + be_u32_bytes(
                p.player_motion_z,
            ))) + rest,
        ) == (Ok::<ClientboundExplosionView, ErrorView>(p), rest),
{
    broadcast use group_wire_roundtrip;

    let m2 = be_u32_bytes(p.player_motion_z);
    let m1 = be_u32_bytes(p.player_motion_y) + m2;
    let m0 = be_u32_bytes(p.player_motion_x) + m1;
    lemma_concat_associative(p.records, m0, rest);
    lemma_concat_associative(be_u32_bytes(p.player_motion_x), m1, rest);
    lemma_concat_associative(be_u32_bytes(p.player_motion_y), m2, rest);
    let t = p.records + (m0 + rest);
    let n = p.record_count * 3;
    assert(t.take(n) =~= p.records);
    assert(t.skip(n) =~= m0 + rest);
}

impl Encode for ClientboundExplosion {
    fn encode(&self, dst: &mut BytesMut) -> (r: Result<(), ProtocolError>) {
        let ghost d0 = bytes_mut_data(*dst);
        put_u32(dst, self.x);
        put_u32(dst, self.y);
        put_u32(dst, self.z);
        put_u32(dst, self.radius);
        put_i32(dst, self.record_count);
        extend_from_slice(dst, self.records.as_slice());
        put_u32(dst, self.player_motion_x);
        put_u32(dst, self.player_motion_y);
        put_u32(dst, self.player_motion_z);
        assert(bytes_mut_data(*dst) =~= d0 + Self::spec_encode(self@));
        Ok(())
    }
}

impl Decode for ClientboundExplosion {
    fn decode(src: &mut Bytes) -> (r: Result<Self, ProtocolError>) {
        need(src, 32)?;
        let x = get_u32(src);
        let y = get_u32(src);
        let z = get_u32(src);
        let radius = get_u32(src);
        let record_count = get_i32(src);
        let records_len = record_count as usize * 3;
        if remaining(src) < records_len + 12 {
            return Err(ProtocolError::UnexpectedEof);
        }
        let mut records = vec![0u8; records_len];
        copy_to_slice(src, &mut records);
        let player_motion_x = get_u32(src);
        let player_motion_y = get_u32(src);
        let player_motion_z = get_u32(src);
        Ok(Self { x, y, z, radius, record_count, records, player_motion_x, player_motion_y, player_motion_z })
    }
}


} // verus!
