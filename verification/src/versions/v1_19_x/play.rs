//! Play-state packets of the 1.19 releases.
use crate::buffer::{
    bytes_data, bytes_mut_data, bytes_to_vec, copy_to_bytes, copy_to_slice, get_i16, get_i32, get_i64, get_i8,
    extend_from_slice, get_u16, get_u32, get_u64, get_u8, put_i16, put_i32, put_i64, put_i8, put_slice, put_u16, put_u32, put_u64,
    put_u8, remaining, string_from_utf8,
};
use crate::codec::{
    decode_dim_pos_codec, decode_string_vec, dim_pos_codec_fits, dim_pos_codec_spec, dim_pos_view,
    dim_pos_wire, encode_dim_pos_codec, encode_string_vec, lemma_dim_pos_codec_roundtrip, lemma_string_roundtrip, lemma_string_vec_roundtrip,
    result_view, string_fits, string_list_wire, string_piece, string_vec_fits, string_vec_spec,
    string_wire, strings_view, take_varint_i32, write_string, Decode, Encode, PacketId, Roundtrip,
    WireFormat,
};
use crate::error::{io_error, io_error_owned, ErrorView, IoErrorKind, ProtocolError};
use crate::text::{decimal, need_remaining_message};
use crate::types::VarInt;
use crate::types::uuid_wire::{get_uuid, lemma_take_uuid, put_uuid, take_uuid, uuid_wire};
use crate::versions::fields::{
    decode_eof_str, decode_fixed_str, eof_str_spec, fixed_str_spec, lemma_eof_str_roundtrip,
    lemma_fixed_str_roundtrip, need_eof, need_eof_spec, need_msg, need_msg_spec, skip_rest_spec,
    skip_remaining, take_remaining,
};
use crate::wire::{
    be_i16_bytes, be_i32_bytes, be_i64_bytes, be_u16_bytes, be_u32_bytes, be_u64_bytes, bool_byte,
    group_wire_roundtrip, lemma_read_n_err, lemma_read_write_n, panics, read_n, take_bool, take_i16, take_i32, take_i64, take_i8, take_rest,
    take_u16, take_u32, take_u64, take_u8, then, write_all, Parsed,
};
use bytes::{Bytes, BytesMut};
use vstd::prelude::*;
use vstd::seq_lib::lemma_concat_associative;
use vstd::utf8::*;

verus! {



// ── ClientboundDisconnect ─────────────────────────────────────────────

#[derive(Debug, Clone, PartialEq)]
pub struct ClientboundDisconnect {
    pub reason: String,
}

pub struct ClientboundDisconnectView {
    pub reason: Seq<char>,
}

impl View for ClientboundDisconnect {
    type V = ClientboundDisconnectView;

    open spec fn view(&self) -> ClientboundDisconnectView {
        ClientboundDisconnectView {
            reason: self.reason@,
        }
    }
}

impl WireFormat for ClientboundDisconnect {
    open spec fn spec_encode(p: ClientboundDisconnectView) -> Seq<u8> {
        <String as WireFormat>::spec_encode(p.reason)
    }

    open spec fn spec_decode(s: Seq<u8>) -> Parsed<ClientboundDisconnectView> {
        then(<String as WireFormat>::spec_decode(s), |reason: Seq<char>, s: Seq<u8>| (Ok(ClientboundDisconnectView { reason }), s))
    }
}

impl Roundtrip for ClientboundDisconnect {
    open spec fn encodable(p: ClientboundDisconnectView) -> bool {
        <String as Roundtrip>::encodable(p.reason)
    }

    open spec fn reads_to_end() -> bool {
        false
    }

    proof fn lemma_roundtrip(p: ClientboundDisconnectView, rest: Seq<u8>) {
        broadcast use group_wire_roundtrip;

        <String as Roundtrip>::lemma_roundtrip(p.reason, rest);
    }
}

impl Encode for ClientboundDisconnect {
    fn encode(&self, dst: &mut BytesMut) -> (r: Result<(), ProtocolError>) {
        let ghost d0 = bytes_mut_data(*dst);
        let _ = self.reason.encode(dst);
        let ghost mut e: Seq<u8> = <String as WireFormat>::spec_encode(self@.reason);
        Ok(())
    }
}

impl Decode for ClientboundDisconnect {
    fn decode(src: &mut Bytes) -> (r: Result<Self, ProtocolError>) {
        let reason = String::decode(src)?;
        Ok(Self { reason })
    }
}

// ── ClientboundKeepAlive ──────────────────────────────────────────────

#[derive(Debug, Clone, PartialEq)]
pub struct ClientboundKeepAlive {
    pub id: i64,
}

impl View for ClientboundKeepAlive {
    type V = ClientboundKeepAlive;

    open spec fn view(&self) -> ClientboundKeepAlive {
        *self
    }
}

impl WireFormat for ClientboundKeepAlive {
    open spec fn spec_encode(p: ClientboundKeepAlive) -> Seq<u8> {
        <i64 as WireFormat>::spec_encode(p.id)
    }

    open spec fn spec_decode(s: Seq<u8>) -> Parsed<ClientboundKeepAlive> {
        then(<i64 as WireFormat>::spec_decode(s), |id: i64, s: Seq<u8>| (Ok(ClientboundKeepAlive { id }), s))
    }
}

impl Roundtrip for ClientboundKeepAlive {
    open spec fn encodable(p: ClientboundKeepAlive) -> bool {
        true
    }

    open spec fn reads_to_end() -> bool {
        false
    }

    proof fn lemma_roundtrip(p: ClientboundKeepAlive, rest: Seq<u8>) {
        broadcast use group_wire_roundtrip;

        <i64 as Roundtrip>::lemma_roundtrip(p.id, rest);
    }
}

impl Encode for ClientboundKeepAlive {
    fn encode(&self, dst: &mut BytesMut) -> (r: Result<(), ProtocolError>) {
        let ghost d0 = bytes_mut_data(*dst);
        let _ = self.id.encode(dst);
        let ghost mut e: Seq<u8> = <i64 as WireFormat>::spec_encode(self@.id);
        Ok(())
    }
}

impl Decode for ClientboundKeepAlive {
    fn decode(src: &mut Bytes) -> (r: Result<Self, ProtocolError>) {
        let id = i64::decode(src)?;
        Ok(Self { id })
    }
}

// ── ClientboundPlayerPosition ─────────────────────────────────────────

#[derive(Debug, Clone, PartialEq)]
pub struct ClientboundPlayerPosition {
    /// The bits of the `f64` value (`f64::to_bits`).
    pub x: u64,
    /// The bits of the `f64` value (`f64::to_bits`).
    pub y: u64,
    /// The bits of the `f64` value (`f64::to_bits`).
    pub z: u64,
    /// The bits of the `f32` value (`f32::to_bits`).
    pub yaw: u32,
    /// The bits of the `f32` value (`f32::to_bits`).
    pub pitch: u32,
    pub flags: u8,
    pub teleport_id: VarInt,
}

impl View for ClientboundPlayerPosition {
    type V = ClientboundPlayerPosition;

    open spec fn view(&self) -> ClientboundPlayerPosition {
        *self
    }
}

impl WireFormat for ClientboundPlayerPosition {
    open spec fn spec_encode(p: ClientboundPlayerPosition) -> Seq<u8> {
        <u64 as WireFormat>::spec_encode(p.x) + <u64 as WireFormat>::spec_encode(p.y) + <u64 as WireFormat>::spec_encode(p.z) + <u32 as WireFormat>::spec_encode(p.yaw) + <u32 as WireFormat>::spec_encode(p.pitch) + <u8 as WireFormat>::spec_encode(p.flags) + VarInt::spec_encode(p.teleport_id)
    }

    open spec fn spec_decode(s: Seq<u8>) -> Parsed<ClientboundPlayerPosition> {
        then(<u64 as WireFormat>::spec_decode(s), |x: u64, s: Seq<u8>| then(<u64 as WireFormat>::spec_decode(s), |y: u64, s: Seq<u8>| then(<u64 as WireFormat>::spec_decode(s), |z: u64, s: Seq<u8>| then(<u32 as WireFormat>::spec_decode(s), |yaw: u32, s: Seq<u8>| then(<u32 as WireFormat>::spec_decode(s), |pitch: u32, s: Seq<u8>| then(<u8 as WireFormat>::spec_decode(s), |flags: u8, s: Seq<u8>| then(VarInt::spec_decode(s), |teleport_id: VarInt, s: Seq<u8>| (Ok(ClientboundPlayerPosition { x, y, z, yaw, pitch, flags, teleport_id }), s))))))))
    }
}

impl Roundtrip for ClientboundPlayerPosition {
    open spec fn encodable(p: ClientboundPlayerPosition) -> bool {
        true
    }

    open spec fn reads_to_end() -> bool {
        false
    }

    #[verifier::rlimit(100)]
    #[verifier::spinoff_prover]
    proof fn lemma_roundtrip(p: ClientboundPlayerPosition, rest: Seq<u8>) {
        broadcast use group_wire_roundtrip;

        let t6 = VarInt::spec_encode(p.teleport_id) + rest;
        let t5 = <u8 as WireFormat>::spec_encode(p.flags) + t6;
        let t4 = <u32 as WireFormat>::spec_encode(p.pitch) + t5;
        let t3 = <u32 as WireFormat>::spec_encode(p.yaw) + t4;
        let t2 = <u64 as WireFormat>::spec_encode(p.z) + t3;
        let t1 = <u64 as WireFormat>::spec_encode(p.y) + t2;
        lemma_concat_associative(<u64 as WireFormat>::spec_encode(p.x) + <u64 as WireFormat>::spec_encode(p.y) + <u64 as WireFormat>::spec_encode(p.z) + <u32 as WireFormat>::spec_encode(p.yaw) + <u32 as WireFormat>::spec_encode(p.pitch) + <u8 as WireFormat>::spec_encode(p.flags), VarInt::spec_encode(p.teleport_id), rest);
        lemma_concat_associative(<u64 as WireFormat>::spec_encode(p.x) + <u64 as WireFormat>::spec_encode(p.y) + <u64 as WireFormat>::spec_encode(p.z) + <u32 as WireFormat>::spec_encode(p.yaw) + <u32 as WireFormat>::spec_encode(p.pitch), <u8 as WireFormat>::spec_encode(p.flags), t6);
        lemma_concat_associative(<u64 as WireFormat>::spec_encode(p.x) + <u64 as WireFormat>::spec_encode(p.y) + <u64 as WireFormat>::spec_encode(p.z) + <u32 as WireFormat>::spec_encode(p.yaw), <u32 as WireFormat>::spec_encode(p.pitch), t5);
        lemma_concat_associative(<u64 as WireFormat>::spec_encode(p.x) + <u64 as WireFormat>::spec_encode(p.y) + <u64 as WireFormat>::spec_encode(p.z), <u32 as WireFormat>::spec_encode(p.yaw), t4);
        lemma_concat_associative(<u64 as WireFormat>::spec_encode(p.x) + <u64 as WireFormat>::spec_encode(p.y), <u64 as WireFormat>::spec_encode(p.z), t3);
        lemma_concat_associative(<u64 as WireFormat>::spec_encode(p.x), <u64 as WireFormat>::spec_encode(p.y), t2);
        <u64 as Roundtrip>::lemma_roundtrip(p.x, t1);
        <u64 as Roundtrip>::lemma_roundtrip(p.y, t2);
        <u64 as Roundtrip>::lemma_roundtrip(p.z, t3);
        <u32 as Roundtrip>::lemma_roundtrip(p.yaw, t4);
        <u32 as Roundtrip>::lemma_roundtrip(p.pitch, t5);
        <u8 as Roundtrip>::lemma_roundtrip(p.flags, t6);
        VarInt::lemma_roundtrip(p.teleport_id, rest);
    }
}

impl Encode for ClientboundPlayerPosition {
    fn encode(&self, dst: &mut BytesMut) -> (r: Result<(), ProtocolError>) {
        let ghost d0 = bytes_mut_data(*dst);
        let _ = self.x.encode(dst);
        let ghost mut e: Seq<u8> = <u64 as WireFormat>::spec_encode(self@.x);
        let _ = self.y.encode(dst);
        proof {
            lemma_concat_associative(d0, e, <u64 as WireFormat>::spec_encode(self@.y));
            e = e + <u64 as WireFormat>::spec_encode(self@.y);
        }
        let _ = self.z.encode(dst);
        proof {
            lemma_concat_associative(d0, e, <u64 as WireFormat>::spec_encode(self@.z));
            e = e + <u64 as WireFormat>::spec_encode(self@.z);
        }
        let _ = self.yaw.encode(dst);
        proof {
            lemma_concat_associative(d0, e, <u32 as WireFormat>::spec_encode(self@.yaw));
            e = e + <u32 as WireFormat>::spec_encode(self@.yaw);
        }
        let _ = self.pitch.encode(dst);
        proof {
            lemma_concat_associative(d0, e, <u32 as WireFormat>::spec_encode(self@.pitch));
            e = e + <u32 as WireFormat>::spec_encode(self@.pitch);
        }
        let _ = self.flags.encode(dst);
        proof {
            lemma_concat_associative(d0, e, <u8 as WireFormat>::spec_encode(self@.flags));
            e = e + <u8 as WireFormat>::spec_encode(self@.flags);
        }
        let _ = self.teleport_id.encode(dst);
        proof {
            lemma_concat_associative(d0, e, VarInt::spec_encode(self@.teleport_id));
            e = e + VarInt::spec_encode(self@.teleport_id);
        }
        Ok(())
    }
}

impl Decode for ClientboundPlayerPosition {
    fn decode(src: &mut Bytes) -> (r: Result<Self, ProtocolError>) {
        let x = u64::decode(src)?;
        let y = u64::decode(src)?;
        let z = u64::decode(src)?;
        let yaw = u32::decode(src)?;
        let pitch = u32::decode(src)?;
        let flags = u8::decode(src)?;
        let teleport_id = VarInt::decode(src)?;
        Ok(Self { x, y, z, yaw, pitch, flags, teleport_id })
    }
}

// ── ClientboundRespawn ────────────────────────────────────────────────

#[derive(Debug, Clone, PartialEq)]
pub struct ClientboundRespawn {
    pub dimension_type: String,
    pub dimension_name: String,
    pub hashed_seed: i64,
    pub game_mode: u8,
    pub previous_game_mode: i8,
    pub is_debug: bool,
    pub is_flat: bool,
    pub data_kept: u8,
    pub death_location: Option<(String, i64)>,
}

pub struct ClientboundRespawnView {
    pub dimension_type: Seq<char>,
    pub dimension_name: Seq<char>,
    pub hashed_seed: i64,
    pub game_mode: u8,
    pub previous_game_mode: i8,
    pub is_debug: bool,
    pub is_flat: bool,
    pub data_kept: u8,
    pub death_location: Option<(Seq<char>, i64)>,
}

impl View for ClientboundRespawn {
    type V = ClientboundRespawnView;

    open spec fn view(&self) -> ClientboundRespawnView {
        ClientboundRespawnView {
            dimension_type: self.dimension_type@,
            dimension_name: self.dimension_name@,
            hashed_seed: self.hashed_seed,
            game_mode: self.game_mode,
            previous_game_mode: self.previous_game_mode,
            is_debug: self.is_debug,
            is_flat: self.is_flat,
            data_kept: self.data_kept,
            death_location: dim_pos_view(self.death_location),
        }
    }
}

impl WireFormat for ClientboundRespawn {
    open spec fn spec_encode(p: ClientboundRespawnView) -> Seq<u8> {
        <String as WireFormat>::spec_encode(p.dimension_type) + <String as WireFormat>::spec_encode(p.dimension_name) + <i64 as WireFormat>::spec_encode(p.hashed_seed) + <u8 as WireFormat>::spec_encode(p.game_mode) + <i8 as WireFormat>::spec_encode(p.previous_game_mode) + <bool as WireFormat>::spec_encode(p.is_debug) + <bool as WireFormat>::spec_encode(p.is_flat) + <u8 as WireFormat>::spec_encode(p.data_kept) + dim_pos_wire(p.death_location)
    }

    open spec fn spec_decode(s: Seq<u8>) -> Parsed<ClientboundRespawnView> {
        then(<String as WireFormat>::spec_decode(s), |dimension_type: Seq<char>, s: Seq<u8>| then(<String as WireFormat>::spec_decode(s), |dimension_name: Seq<char>, s: Seq<u8>| then(<i64 as WireFormat>::spec_decode(s), |hashed_seed: i64, s: Seq<u8>| then(<u8 as WireFormat>::spec_decode(s), |game_mode: u8, s: Seq<u8>| then(<i8 as WireFormat>::spec_decode(s), |previous_game_mode: i8, s: Seq<u8>| then(<bool as WireFormat>::spec_decode(s), |is_debug: bool, s: Seq<u8>| then(<bool as WireFormat>::spec_decode(s), |is_flat: bool, s: Seq<u8>| then(<u8 as WireFormat>::spec_decode(s), |data_kept: u8, s: Seq<u8>| then(dim_pos_codec_spec(s), |death_location: Option<(Seq<char>, i64)>, s: Seq<u8>| (Ok(ClientboundRespawnView { dimension_type, dimension_name, hashed_seed, game_mode, previous_game_mode, is_debug, is_flat, data_kept, death_location }), s))))))))))
    }
}

impl Roundtrip for ClientboundRespawn {
    open spec fn encodable(p: ClientboundRespawnView) -> bool {
        <String as Roundtrip>::encodable(p.dimension_type) && <String as Roundtrip>::encodable(p.dimension_name) && dim_pos_codec_fits(p.death_location)
    }

    open spec fn reads_to_end() -> bool {
        false
    }

    #[verifier::rlimit(100)]
    #[verifier::spinoff_prover]
    proof fn lemma_roundtrip(p: ClientboundRespawnView, rest: Seq<u8>) {
        broadcast use group_wire_roundtrip;

        let t8 = dim_pos_wire(p.death_location) + rest;
        let t7 = <u8 as WireFormat>::spec_encode(p.data_kept) + t8;
        let t6 = <bool as WireFormat>::spec_encode(p.is_flat) + t7;
        let t5 = <bool as WireFormat>::spec_encode(p.is_debug) + t6;
        let t4 = <i8 as WireFormat>::spec_encode(p.previous_game_mode) + t5;
        let t3 = <u8 as WireFormat>::spec_encode(p.game_mode) + t4;
        let t2 = <i64 as WireFormat>::spec_encode(p.hashed_seed) + t3;
        let t1 = <String as WireFormat>::spec_encode(p.dimension_name) + t2;
        lemma_concat_associative(<String as WireFormat>::spec_encode(p.dimension_type) + <String as WireFormat>::spec_encode(p.dimension_name) + <i64 as WireFormat>::spec_encode(p.hashed_seed) + <u8 as WireFormat>::spec_encode(p.game_mode) + <i8 as WireFormat>::spec_encode(p.previous_game_mode) + <bool as WireFormat>::spec_encode(p.is_debug) + <bool as WireFormat>::spec_encode(p.is_flat) + <u8 as WireFormat>::spec_encode(p.data_kept), dim_pos_wire(p.death_location), rest);
        lemma_concat_associative(<String as WireFormat>::spec_encode(p.dimension_type) + <String as WireFormat>::spec_encode(p.dimension_name) + <i64 as WireFormat>::spec_encode(p.hashed_seed) + <u8 as WireFormat>::spec_encode(p.game_mode) + <i8 as WireFormat>::spec_encode(p.previous_game_mode) + <bool as WireFormat>::spec_encode(p.is_debug) + <bool as WireFormat>::spec_encode(p.is_flat), <u8 as WireFormat>::spec_encode(p.data_kept), t8);
        lemma_concat_associative(<String as WireFormat>::spec_encode(p.dimension_type) + <String as WireFormat>::spec_encode(p.dimension_name) + <i64 as WireFormat>::spec_encode(p.hashed_seed) + <u8 as WireFormat>::spec_encode(p.game_mode) + <i8 as WireFormat>::spec_encode(p.previous_game_mode) + <bool as WireFormat>::spec_encode(p.is_debug), <bool as WireFormat>::spec_encode(p.is_flat), t7);
        lemma_concat_associative(<String as WireFormat>::spec_encode(p.dimension_type) + <String as WireFormat>::spec_encode(p.dimension_name) + <i64 as WireFormat>::spec_encode(p.hashed_seed) + <u8 as WireFormat>::spec_encode(p.game_mode) + <i8 as WireFormat>::spec_encode(p.previous_game_mode), <bool as WireFormat>::spec_encode(p.is_debug), t6);
        lemma_concat_associative(<String as WireFormat>::spec_encode(p.dimension_type) + <String as WireFormat>::spec_encode(p.dimension_name) + <i64 as WireFormat>::spec_encode(p.hashed_seed) + <u8 as WireFormat>::spec_encode(p.game_mode), <i8 as WireFormat>::spec_encode(p.previous_game_mode), t5);
        lemma_concat_associative(<String as WireFormat>::spec_encode(p.dimension_type) + <String as WireFormat>::spec_encode(p.dimension_name) + <i64 as WireFormat>::spec_encode(p.hashed_seed), <u8 as WireFormat>::spec_encode(p.game_mode), t4);
        lemma_concat_associative(<String as WireFormat>::spec_encode(p.dimension_type) + <String as WireFormat>::spec_encode(p.dimension_name), <i64 as WireFormat>::spec_encode(p.hashed_seed), t3);
        lemma_concat_associative(<String as WireFormat>::spec_encode(p.dimension_type), <String as WireFormat>::spec_encode(p.dimension_name), t2);
        <String as Roundtrip>::lemma_roundtrip(p.dimension_type, t1);
        <String as Roundtrip>::lemma_roundtrip(p.dimension_name, t2);
        <i64 as Roundtrip>::lemma_roundtrip(p.hashed_seed, t3);
        <u8 as Roundtrip>::lemma_roundtrip(p.game_mode, t4);
        <i8 as Roundtrip>::lemma_roundtrip(p.previous_game_mode, t5);
        <bool as Roundtrip>::lemma_roundtrip(p.is_debug, t6);
        <bool as Roundtrip>::lemma_roundtrip(p.is_flat, t7);
        <u8 as Roundtrip>::lemma_roundtrip(p.data_kept, t8);
        lemma_dim_pos_codec_roundtrip(p.death_location, rest);
    }
}

impl Encode for ClientboundRespawn {
    fn encode(&self, dst: &mut BytesMut) -> (r: Result<(), ProtocolError>) {
        let ghost d0 = bytes_mut_data(*dst);
        let _ = self.dimension_type.encode(dst);
        let ghost mut e: Seq<u8> = <String as WireFormat>::spec_encode(self@.dimension_type);
        let _ = self.dimension_name.encode(dst);
        proof {
            lemma_concat_associative(d0, e, <String as WireFormat>::spec_encode(self@.dimension_name));
            e = e + <String as WireFormat>::spec_encode(self@.dimension_name);
        }
        let _ = self.hashed_seed.encode(dst);
        proof {
            lemma_concat_associative(d0, e, <i64 as WireFormat>::spec_encode(self@.hashed_seed));
            e = e + <i64 as WireFormat>::spec_encode(self@.hashed_seed);
        }
        let _ = self.game_mode.encode(dst);
        proof {
            lemma_concat_associative(d0, e, <u8 as WireFormat>::spec_encode(self@.game_mode));
            e = e + <u8 as WireFormat>::spec_encode(self@.game_mode);
        }
        let _ = self.previous_game_mode.encode(dst);
        proof {
            lemma_concat_associative(d0, e, <i8 as WireFormat>::spec_encode(self@.previous_game_mode));
            e = e + <i8 as WireFormat>::spec_encode(self@.previous_game_mode);
        }
        let _ = self.is_debug.encode(dst);
        proof {
            lemma_concat_associative(d0, e, <bool as WireFormat>::spec_encode(self@.is_debug));
            e = e + <bool as WireFormat>::spec_encode(self@.is_debug);
        }
        let _ = self.is_flat.encode(dst);
        proof {
            lemma_concat_associative(d0, e, <bool as WireFormat>::spec_encode(self@.is_flat));
            e = e + <bool as WireFormat>::spec_encode(self@.is_flat);
        }
        let _ = self.data_kept.encode(dst);
        proof {
            lemma_concat_associative(d0, e, <u8 as WireFormat>::spec_encode(self@.data_kept));
            e = e + <u8 as WireFormat>::spec_encode(self@.data_kept);
        }
        encode_dim_pos_codec(&self.death_location, dst);
        proof {
            lemma_concat_associative(d0, e, dim_pos_wire(self@.death_location));
            e = e + dim_pos_wire(self@.death_location);
        }
        Ok(())
    }
}

impl Decode for ClientboundRespawn {
    fn decode(src: &mut Bytes) -> (r: Result<Self, ProtocolError>) {
        let dimension_type = String::decode(src)?;
        let dimension_name = String::decode(src)?;
        let hashed_seed = i64::decode(src)?;
        let game_mode = u8::decode(src)?;
        let previous_game_mode = i8::decode(src)?;
        let is_debug = bool::decode(src)?;
        let is_flat = bool::decode(src)?;
        let data_kept = u8::decode(src)?;
        let death_location = decode_dim_pos_codec(src)?;
        Ok(Self { dimension_type, dimension_name, hashed_seed, game_mode, previous_game_mode, is_debug, is_flat, data_kept, death_location })
    }
}

// ── ClientboundPlayerAbilities ────────────────────────────────────────

#[derive(Debug, Clone, PartialEq)]
pub struct ClientboundPlayerAbilities {
    pub flags: u8,
    /// The bits of the `f32` value (`f32::to_bits`).
    pub flying_speed: u32,
    /// The bits of the `f32` value (`f32::to_bits`).
    pub walking_speed: u32,
}

impl View for ClientboundPlayerAbilities {
    type V = ClientboundPlayerAbilities;

    open spec fn view(&self) -> ClientboundPlayerAbilities {
        *self
    }
}

impl WireFormat for ClientboundPlayerAbilities {
    open spec fn spec_encode(p: ClientboundPlayerAbilities) -> Seq<u8> {
        <u8 as WireFormat>::spec_encode(p.flags) + <u32 as WireFormat>::spec_encode(p.flying_speed) + <u32 as WireFormat>::spec_encode(p.walking_speed)
    }

    open spec fn spec_decode(s: Seq<u8>) -> Parsed<ClientboundPlayerAbilities> {
        then(<u8 as WireFormat>::spec_decode(s), |flags: u8, s: Seq<u8>| then(<u32 as WireFormat>::spec_decode(s), |flying_speed: u32, s: Seq<u8>| then(<u32 as WireFormat>::spec_decode(s), |walking_speed: u32, s: Seq<u8>| (Ok(ClientboundPlayerAbilities { flags, flying_speed, walking_speed }), s))))
    }
}

impl Roundtrip for ClientboundPlayerAbilities {
    open spec fn encodable(p: ClientboundPlayerAbilities) -> bool {
        true
    }

    open spec fn reads_to_end() -> bool {
        false
    }

    proof fn lemma_roundtrip(p: ClientboundPlayerAbilities, rest: Seq<u8>) {
        broadcast use group_wire_roundtrip;

        let t2 = <u32 as WireFormat>::spec_encode(p.walking_speed) + rest;
        let t1 = <u32 as WireFormat>::spec_encode(p.flying_speed) + t2;
        lemma_concat_associative(<u8 as WireFormat>::spec_encode(p.flags) + <u32 as WireFormat>::spec_encode(p.flying_speed), <u32 as WireFormat>::spec_encode(p.walking_speed), rest);
        lemma_concat_associative(<u8 as WireFormat>::spec_encode(p.flags), <u32 as WireFormat>::spec_encode(p.flying_speed), t2);
        <u8 as Roundtrip>::lemma_roundtrip(p.flags, t1);
        <u32 as Roundtrip>::lemma_roundtrip(p.flying_speed, t2);
        <u32 as Roundtrip>::lemma_roundtrip(p.walking_speed, rest);
    }
}

impl Encode for ClientboundPlayerAbilities {
    fn encode(&self, dst: &mut BytesMut) -> (r: Result<(), ProtocolError>) {
        let ghost d0 = bytes_mut_data(*dst);
        let _ = self.flags.encode(dst);
        let ghost mut e: Seq<u8> = <u8 as WireFormat>::spec_encode(self@.flags);
        let _ = self.flying_speed.encode(dst);
        proof {
            lemma_concat_associative(d0, e, <u32 as WireFormat>::spec_encode(self@.flying_speed));
            e = e + <u32 as WireFormat>::spec_encode(self@.flying_speed);
        }
        let _ = self.walking_speed.encode(dst);
        proof {
            lemma_concat_associative(d0, e, <u32 as WireFormat>::spec_encode(self@.walking_speed));
            e = e + <u32 as WireFormat>::spec_encode(self@.walking_speed);
        }
        Ok(())
    }
}

impl Decode for ClientboundPlayerAbilities {
    fn decode(src: &mut Bytes) -> (r: Result<Self, ProtocolError>) {
        let flags = u8::decode(src)?;
        let flying_speed = u32::decode(src)?;
        let walking_speed = u32::decode(src)?;
        Ok(Self { flags, flying_speed, walking_speed })
    }
}

// ── ClientboundSystemChat ─────────────────────────────────────────────

#[derive(Debug, Clone, PartialEq)]
pub struct ClientboundSystemChat {
    pub content: String,
    pub overlay: bool,
}

pub struct ClientboundSystemChatView {
    pub content: Seq<char>,
    pub overlay: bool,
}

impl View for ClientboundSystemChat {
    type V = ClientboundSystemChatView;

    open spec fn view(&self) -> ClientboundSystemChatView {
        ClientboundSystemChatView {
            content: self.content@,
            overlay: self.overlay,
        }
    }
}

impl WireFormat for ClientboundSystemChat {
    open spec fn spec_encode(p: ClientboundSystemChatView) -> Seq<u8> {
        <String as WireFormat>::spec_encode(p.content) + <bool as WireFormat>::spec_encode(p.overlay)
    }

    open spec fn spec_decode(s: Seq<u8>) -> Parsed<ClientboundSystemChatView> {
        then(<String as WireFormat>::spec_decode(s), |content: Seq<char>, s: Seq<u8>| then(<bool as WireFormat>::spec_decode(s), |overlay: bool, s: Seq<u8>| (Ok(ClientboundSystemChatView { content, overlay }), s)))
    }
}

impl Roundtrip for ClientboundSystemChat {
    open spec fn encodable(p: ClientboundSystemChatView) -> bool {
        <String as Roundtrip>::encodable(p.content)
    }

    open spec fn reads_to_end() -> bool {
        false
    }

    proof fn lemma_roundtrip(p: ClientboundSystemChatView, rest: Seq<u8>) {
        broadcast use group_wire_roundtrip;

        let t1 = <bool as WireFormat>::spec_encode(p.overlay) + rest;
        lemma_concat_associative(<String as WireFormat>::spec_encode(p.content), <bool as WireFormat>::spec_encode(p.overlay), rest);
        <String as Roundtrip>::lemma_roundtrip(p.content, t1);
        <bool as Roundtrip>::lemma_roundtrip(p.overlay, rest);
    }
}

impl Encode for ClientboundSystemChat {
    fn encode(&self, dst: &mut BytesMut) -> (r: Result<(), ProtocolError>) {
        let ghost d0 = bytes_mut_data(*dst);
        let _ = self.content.encode(dst);
        let ghost mut e: Seq<u8> = <String as WireFormat>::spec_encode(self@.content);
        let _ = self.overlay.encode(dst);
        proof {
            lemma_concat_associative(d0, e, <bool as WireFormat>::spec_encode(self@.overlay));
            e = e + <bool as WireFormat>::spec_encode(self@.overlay);
        }
        Ok(())
    }
}

impl Decode for ClientboundSystemChat {
    fn decode(src: &mut Bytes) -> (r: Result<Self, ProtocolError>) {
        let content = String::decode(src)?;
        let overlay = bool::decode(src)?;
        Ok(Self { content, overlay })
    }
}

// ── ClientboundSetCarriedItem ─────────────────────────────────────────

#[derive(Debug, Clone, PartialEq)]
pub struct ClientboundSetCarriedItem {
    pub slot: i8,
}

impl View for ClientboundSetCarriedItem {
    type V = ClientboundSetCarriedItem;

    open spec fn view(&self) -> ClientboundSetCarriedItem {
        *self
    }
}

impl WireFormat for ClientboundSetCarriedItem {
    open spec fn spec_encode(p: ClientboundSetCarriedItem) -> Seq<u8> {
        <i8 as WireFormat>::spec_encode(p.slot)
    }

    open spec fn spec_decode(s: Seq<u8>) -> Parsed<ClientboundSetCarriedItem> {
        then(<i8 as WireFormat>::spec_decode(s), |slot: i8, s: Seq<u8>| (Ok(ClientboundSetCarriedItem { slot }), s))
    }
}

impl Roundtrip for ClientboundSetCarriedItem {
    open spec fn encodable(p: ClientboundSetCarriedItem) -> bool {
        true
    }

    open spec fn reads_to_end() -> bool {
        false
    }

    proof fn lemma_roundtrip(p: ClientboundSetCarriedItem, rest: Seq<u8>) {
        broadcast use group_wire_roundtrip;

        <i8 as Roundtrip>::lemma_roundtrip(p.slot, rest);
    }
}

impl Encode for ClientboundSetCarriedItem {
    fn encode(&self, dst: &mut BytesMut) -> (r: Result<(), ProtocolError>) {
        let ghost d0 = bytes_mut_data(*dst);
        let _ = self.slot.encode(dst);
        let ghost mut e: Seq<u8> = <i8 as WireFormat>::spec_encode(self@.slot);
        Ok(())
    }
}

impl Decode for ClientboundSetCarriedItem {
    fn decode(src: &mut Bytes) -> (r: Result<Self, ProtocolError>) {
        let slot = i8::decode(src)?;
        Ok(Self { slot })
    }
}

} // verus!
