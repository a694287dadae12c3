//! Pre-netty (1.6) play-state packets.
use crate::buffer::{
    bytes_data, bytes_mut_data, copy_to_bytes, bytes_to_vec, get_i16, get_i32, get_i64, get_i8, get_u16, get_u32, get_u64, get_u8, put_i16,
    put_i32, put_i64, put_i8, put_slice, put_u16, put_u32, put_u64, put_u8, remaining, freeze, bytes_mut_new,
};
use crate::codec::{result_view, Decode, Encode, PacketId, Roundtrip, WireFormat};
use crate::error::{io_error, ErrorView, IoErrorKind, ProtocolError};
use crate::text::legacy_motd_line;
use crate::versions::fields::{need_eof, need_eof_spec};
use crate::versions::v1_6_x::ucs2::{
    legacy_string_fits, legacy_string_read, legacy_string_wire, lemma_legacy_string_roundtrip,
    read_legacy_string, write_legacy_string,
};
use crate::wire::{
    be_i16_bytes, be_i32_bytes, be_i64_bytes, be_u16_bytes, be_u32_bytes, be_u64_bytes, bool_byte,
    group_wire_roundtrip, panics, take_bool, take_i16, take_i32, take_i64, take_i8, take_u16, take_u32, take_u64,
    take_u8, then, Parsed,
};
use bytes::{Bytes, BytesMut};
use vstd::prelude::*;
use vstd::seq_lib::lemma_concat_associative;

verus! {

/// What `decode_legacy_string` reads in this module: a pre-netty string
/// whose units, when they are not UTF-16, give an `InvalidData` error.
pub open spec fn legacy_str_spec(s: Seq<u8>) -> Parsed<Seq<char>> {
    legacy_string_read(s, ErrorView::Io(IoErrorKind::InvalidData, "invalid UCS-2 in pre-netty string"@))
}

fn decode_legacy_string(src: &mut Bytes) -> (r: Result<String, ProtocolError>)
    ensures
        legacy_str_spec(bytes_data(*old(src))) == (result_view(r), bytes_data(*final(src))),
{
    match read_legacy_string(src)? {
        Some(s) => Ok(s),
        None => Err(io_error(IoErrorKind::InvalidData, "invalid UCS-2 in pre-netty string")),
    }
}

pub proof fn lemma_legacy_str_field(c: Seq<char>, rest: Seq<u8>)
    requires
        legacy_string_fits(c),
    ensures
        legacy_str_spec(legacy_string_wire(c) + rest) == (Ok::<Seq<char>, ErrorView>(c), rest),
{
    lemma_legacy_string_roundtrip(c, rest, ErrorView::Io(IoErrorKind::InvalidData, "invalid UCS-2 in pre-netty string"@));
}

// ── ClientboundKeepAlive ──────────────────────────────────────────────

#[derive(Debug, Clone, PartialEq)]
pub struct ClientboundKeepAlive {
    pub keep_alive_id: i32,
}

impl View for ClientboundKeepAlive {
    type V = ClientboundKeepAlive;

    open spec fn view(&self) -> ClientboundKeepAlive {
        *self
    }
}

impl WireFormat for ClientboundKeepAlive {
    open spec fn spec_encode(p: ClientboundKeepAlive) -> Seq<u8> {
        be_i32_bytes(p.keep_alive_id)
    }

    open spec fn spec_decode(s: Seq<u8>) -> Parsed<ClientboundKeepAlive> {
        then(need_eof_spec(s, 4), |_u: (), s: Seq<u8>| then(take_i32(s), |keep_alive_id: i32, s: Seq<u8>| (Ok(ClientboundKeepAlive { keep_alive_id }), s)))
    }
}

impl Roundtrip for ClientboundKeepAlive {
    open spec fn encodable(p: ClientboundKeepAlive) -> bool {
        true
    }

    open spec fn reads_to_end() -> bool {
        false
    }

    proof fn lemma_roundtrip(p: ClientboundKeepAlive, rest: Seq<u8>) {
        broadcast use group_wire_roundtrip;

    }
}

impl Encode for ClientboundKeepAlive {
    fn encode(&self, dst: &mut BytesMut) -> (r: Result<(), ProtocolError>) {
        let ghost d0 = bytes_mut_data(*dst);
        put_i32(dst, self.keep_alive_id);
        let ghost mut e: Seq<u8> = be_i32_bytes(self@.keep_alive_id);
        Ok(())
    }
}

impl Decode for ClientboundKeepAlive {
    fn decode(src: &mut Bytes) -> (r: Result<Self, ProtocolError>) {
        need_eof(src, 4)?;
        let keep_alive_id = get_i32(src);
        Ok(Self { keep_alive_id })
    }
}

// ── ClientboundChatMessage ────────────────────────────────────────────

#[derive(Debug, Clone, PartialEq)]
pub struct ClientboundChatMessage {
    pub message: String,
}

pub struct ClientboundChatMessageView {
    pub message: Seq<char>,
}

impl View for ClientboundChatMessage {
    type V = ClientboundChatMessageView;

    open spec fn view(&self) -> ClientboundChatMessageView {
        ClientboundChatMessageView {
            message: self.message@,
        }
    }
}

impl WireFormat for ClientboundChatMessage {
    open spec fn spec_encode(p: ClientboundChatMessageView) -> Seq<u8> {
        legacy_string_wire(p.message)
    }

    open spec fn spec_decode(s: Seq<u8>) -> Parsed<ClientboundChatMessageView> {
        then(legacy_str_spec(s), |message: Seq<char>, s: Seq<u8>| (Ok(ClientboundChatMessageView { message }), s))
    }
}

impl Roundtrip for ClientboundChatMessage {
    open spec fn encodable(p: ClientboundChatMessageView) -> bool {
        legacy_string_fits(p.message)
    }

    open spec fn reads_to_end() -> bool {
        false
    }

    proof fn lemma_roundtrip(p: ClientboundChatMessageView, rest: Seq<u8>) {
        broadcast use group_wire_roundtrip;

        lemma_legacy_str_field(p.message, rest);
    }
}

impl Encode for ClientboundChatMessage {
    fn encode(&self, dst: &mut BytesMut) -> (r: Result<(), ProtocolError>) {
        let ghost d0 = bytes_mut_data(*dst);
        write_legacy_string(self.message.as_str(), dst);
        let ghost mut e: Seq<u8> = legacy_string_wire(self@.message);
        Ok(())
    }
}

impl Decode for ClientboundChatMessage {
    fn decode(src: &mut Bytes) -> (r: Result<Self, ProtocolError>) {
        let message = decode_legacy_string(src)?;
        Ok(Self { message })
    }
}

// ── ClientboundPlayerPosition ─────────────────────────────────────────

#[derive(Debug, Clone, PartialEq)]
pub struct ClientboundPlayerPosition {
    /// The bits of the `f64` value (`f64::to_bits`).
    pub x: u64,
    /// The bits of the `f64` value (`f64::to_bits`).
    pub y: u64,
    /// The bits of the `f64` value (`f64::to_bits`).
    pub stance: u64,
    /// The bits of the `f64` value (`f64::to_bits`).
    pub z: u64,
    /// The bits of the `f32` value (`f32::to_bits`).
    pub yaw: u32,
    /// The bits of the `f32` value (`f32::to_bits`).
    pub pitch: u32,
    pub on_ground: bool,
}

impl View for ClientboundPlayerPosition {
    type V = ClientboundPlayerPosition;

    open spec fn view(&self) -> ClientboundPlayerPosition {
        *self
    }
}

impl WireFormat for ClientboundPlayerPosition {
    open spec fn spec_encode(p: ClientboundPlayerPosition) -> Seq<u8> {
        be_u64_bytes(p.x) + be_u64_bytes(p.y) + be_u64_bytes(p.stance) + be_u64_bytes(p.z) + be_u32_bytes(p.yaw) + be_u32_bytes(p.pitch) + seq![bool_byte(p.on_ground)]
    }

    open spec fn spec_decode(s: Seq<u8>) -> Parsed<ClientboundPlayerPosition> {
        then(need_eof_spec(s, 41), |_u: (), s: Seq<u8>| then(take_u64(s), |x: u64, s: Seq<u8>| then(take_u64(s), |y: u64, s: Seq<u8>| then(take_u64(s), |stance: u64, s: Seq<u8>| then(take_u64(s), |z: u64, s: Seq<u8>| then(take_u32(s), |yaw: u32, s: Seq<u8>| then(take_u32(s), |pitch: u32, s: Seq<u8>| then(take_bool(s), |on_ground: bool, s: Seq<u8>| (Ok(ClientboundPlayerPosition { x, y, stance, z, yaw, pitch, on_ground }), s)))))))))
    }
}

impl Roundtrip for ClientboundPlayerPosition {
    open spec fn encodable(p: ClientboundPlayerPosition) -> bool {
        true
    }

    open spec fn reads_to_end() -> bool {
        false
    }

    #[verifier::rlimit(100)]
    #[verifier::spinoff_prover]
    proof fn lemma_roundtrip(p: ClientboundPlayerPosition, rest: Seq<u8>) {
        broadcast use group_wire_roundtrip;

        let t6 = seq![bool_byte(p.on_ground)] + rest;
        let t5 = be_u32_bytes(p.pitch) + t6;
        let t4 = be_u32_bytes(p.yaw) + t5;
        let t3 = be_u64_bytes(p.z) + t4;
        let t2 = be_u64_bytes(p.stance) + t3;
        let t1 = be_u64_bytes(p.y) + t2;
        lemma_concat_associative(be_u64_bytes(p.x) + be_u64_bytes(p.y) + be_u64_bytes(p.stance) + be_u64_bytes(p.z) + be_u32_bytes(p.yaw) + be_u32_bytes(p.pitch), seq![bool_byte(p.on_ground)], rest);
        lemma_concat_associative(be_u64_bytes(p.x) + be_u64_bytes(p.y) + be_u64_bytes(p.stance) + be_u64_bytes(p.z) + be_u32_bytes(p.yaw), be_u32_bytes(p.pitch), t6);
        lemma_concat_associative(be_u64_bytes(p.x) + be_u64_bytes(p.y) + be_u64_bytes(p.stance) + be_u64_bytes(p.z), be_u32_bytes(p.yaw), t5);
        lemma_concat_associative(be_u64_bytes(p.x) + be_u64_bytes(p.y) + be_u64_bytes(p.stance), be_u64_bytes(p.z), t4);
        lemma_concat_associative(be_u64_bytes(p.x) + be_u64_bytes(p.y), be_u64_bytes(p.stance), t3);
        lemma_concat_associative(be_u64_bytes(p.x), be_u64_bytes(p.y), t2);
    }
}

impl Encode for ClientboundPlayerPosition {
    fn encode(&self, dst: &mut BytesMut) -> (r: Result<(), ProtocolError>) {
        let ghost d0 = bytes_mut_data(*dst);
        put_u64(dst, self.x);
        let ghost mut e: Seq<u8> = be_u64_bytes(self@.x);
        put_u64(dst, self.y);
        proof {
            lemma_concat_associative(d0, e, be_u64_bytes(self@.y));
            e = e + be_u64_bytes(self@.y);
        }
        put_u64(dst, self.stance);
        proof {
            lemma_concat_associative(d0, e, be_u64_bytes(self@.stance));
            e = e + be_u64_bytes(self@.stance);
        }
        put_u64(dst, self.z);
        proof {
            lemma_concat_associative(d0, e, be_u64_bytes(self@.z));
            e = e + be_u64_bytes(self@.z);
        }
        put_u32(dst, self.yaw);
        proof {
            lemma_concat_associative(d0, e, be_u32_bytes(self@.yaw));
            e = e + be_u32_bytes(self@.yaw);
        }
        put_u32(dst, self.pitch);
        proof {
            lemma_concat_associative(d0, e, be_u32_bytes(self@.pitch));
            e = e + be_u32_bytes(self@.pitch);
        }
        put_u8(dst, self.on_ground as u8);
        proof {
            lemma_concat_associative(d0, e, seq![bool_byte(self@.on_ground)]);
            e = e + seq![bool_byte(self@.on_ground)];
        }
        Ok(())
    }
}

impl Decode for ClientboundPlayerPosition {
    fn decode(src: &mut Bytes) -> (r: Result<Self, ProtocolError>) {
        need_eof(src, 41)?;
        let x = get_u64(src);
        let y = get_u64(src);
        let stance = get_u64(src);
        let z = get_u64(src);
        let yaw = get_u32(src);
        let pitch = get_u32(src);
        let on_ground = get_u8(src) != 0;
        Ok(Self { x, y, stance, z, yaw, pitch, on_ground })
    }
}

// ── ClientboundHeldItemChange ─────────────────────────────────────────

#[derive(Debug, Clone, PartialEq)]
pub struct ClientboundHeldItemChange {
    pub slot: i8,
}

impl View for ClientboundHeldItemChange {
    type V = ClientboundHeldItemChange;

    open spec fn view(&self) -> ClientboundHeldItemChange {
        *self
    }
}

impl WireFormat for ClientboundHeldItemChange {
    open spec fn spec_encode(p: ClientboundHeldItemChange) -> Seq<u8> {
        seq![p.slot as u8]
    }

    open spec fn spec_decode(s: Seq<u8>) -> Parsed<ClientboundHeldItemChange> {
        then(need_eof_spec(s, 1), |_u: (), s: Seq<u8>| then(take_i8(s), |slot: i8, s: Seq<u8>| (Ok(ClientboundHeldItemChange { slot }), s)))
    }
}

impl Roundtrip for ClientboundHeldItemChange {
    open spec fn encodable(p: ClientboundHeldItemChange) -> bool {
        true
    }

    open spec fn reads_to_end() -> bool {
        false
    }

    proof fn lemma_roundtrip(p: ClientboundHeldItemChange, rest: Seq<u8>) {
        broadcast use group_wire_roundtrip;

    }
}

impl Encode for ClientboundHeldItemChange {
    fn encode(&self, dst: &mut BytesMut) -> (r: Result<(), ProtocolError>) {
        let ghost d0 = bytes_mut_data(*dst);
        put_i8(dst, self.slot);
        let ghost mut e: Seq<u8> = seq![self@.slot as u8];
        Ok(())
    }
}

impl Decode for ClientboundHeldItemChange {
    fn decode(src: &mut Bytes) -> (r: Result<Self, ProtocolError>) {
        need_eof(src, 1)?;
        let slot = get_i8(src);
        Ok(Self { slot })
    }
}

// ── ClientboundPlayerAbilities ────────────────────────────────────────

#[derive(Debug, Clone, PartialEq)]
pub struct ClientboundPlayerAbilities {
    pub flags: u8,
    /// The bits of the `f32` value (`f32::to_bits`).
    pub flying_speed: u32,
    /// The bits of the `f32` value (`f32::to_bits`).
    pub walking_speed: u32,
}

impl View for ClientboundPlayerAbilities {
    type V = ClientboundPlayerAbilities;

    open spec fn view(&self) -> ClientboundPlayerAbilities {
        *self
    }
}

impl WireFormat for ClientboundPlayerAbilities {
    open spec fn spec_encode(p: ClientboundPlayerAbilities) -> Seq<u8> {
        seq![p.flags] + be_u32_bytes(p.flying_speed) + be_u32_bytes(p.walking_speed)
    }

    open spec fn spec_decode(s: Seq<u8>) -> Parsed<ClientboundPlayerAbilities> {
        then(need_eof_spec(s, 9), |_u: (), s: Seq<u8>| then(take_u8(s), |flags: u8, s: Seq<u8>| then(take_u32(s), |flying_speed: u32, s: Seq<u8>| then(take_u32(s), |walking_speed: u32, s: Seq<u8>| (Ok(ClientboundPlayerAbilities { flags, flying_speed, walking_speed }), s)))))
    }
}

impl Roundtrip for ClientboundPlayerAbilities {
    open spec fn encodable(p: ClientboundPlayerAbilities) -> bool {
        true
    }

    open spec fn reads_to_end() -> bool {
        false
    }

    proof fn lemma_roundtrip(p: ClientboundPlayerAbilities, rest: Seq<u8>) {
        broadcast use group_wire_roundtrip;

        let t2 = be_u32_bytes(p.walking_speed) + rest;
        let t1 = be_u32_bytes(p.flying_speed) + t2;
        lemma_concat_associative(seq![p.flags] + be_u32_bytes(p.flying_speed), be_u32_bytes(p.walking_speed), rest);
        lemma_concat_associative(seq![p.flags], be_u32_bytes(p.flying_speed), t2);
    }
}

impl Encode for ClientboundPlayerAbilities {
    fn encode(&self, dst: &mut BytesMut) -> (r: Result<(), ProtocolError>) {
        let ghost d0 = bytes_mut_data(*dst);
        put_u8(dst, self.flags);
        let ghost mut e: Seq<u8> = seq![self@.flags];
        put_u32(dst, self.flying_speed);
        proof {
            lemma_concat_associative(d0, e, be_u32_bytes(self@.flying_speed));
            e = e + be_u32_bytes(self@.flying_speed);
        }
        put_u32(dst, self.walking_speed);
        proof {
            lemma_concat_associative(d0, e, be_u32_bytes(self@.walking_speed));
            e = e + be_u32_bytes(self@.walking_speed);
        }
        Ok(())
    }
}

impl Decode for ClientboundPlayerAbilities {
    fn decode(src: &mut Bytes) -> (r: Result<Self, ProtocolError>) {
        need_eof(src, 9)?;
        let flags = get_u8(src);
        let flying_speed = get_u32(src);
        let walking_speed = get_u32(src);
        Ok(Self { flags, flying_speed, walking_speed })
    }
}

// ── ClientboundDisconnect ─────────────────────────────────────────────

#[derive(Debug, Clone, PartialEq)]
pub struct ClientboundDisconnect {
    pub reason: String,
}

pub struct ClientboundDisconnectView {
    pub reason: Seq<char>,
}

impl View for ClientboundDisconnect {
    type V = ClientboundDisconnectView;

    open spec fn view(&self) -> ClientboundDisconnectView {
        ClientboundDisconnectView {
            reason: self.reason@,
        }
    }
}

impl WireFormat for ClientboundDisconnect {
    open spec fn spec_encode(p: ClientboundDisconnectView) -> Seq<u8> {
        legacy_string_wire(p.reason)
    }

    open spec fn spec_decode(s: Seq<u8>) -> Parsed<ClientboundDisconnectView> {
        then(legacy_str_spec(s), |reason: Seq<char>, s: Seq<u8>| (Ok(ClientboundDisconnectView { reason }), s))
    }
}

impl Roundtrip for ClientboundDisconnect {
    open spec fn encodable(p: ClientboundDisconnectView) -> bool {
        legacy_string_fits(p.reason)
    }

    open spec fn reads_to_end() -> bool {
        false
    }

    proof fn lemma_roundtrip(p: ClientboundDisconnectView, rest: Seq<u8>) {
        broadcast use group_wire_roundtrip;

        lemma_legacy_str_field(p.reason, rest);
    }
}

impl Encode for ClientboundDisconnect {
    fn encode(&self, dst: &mut BytesMut) -> (r: Result<(), ProtocolError>) {
        let ghost d0 = bytes_mut_data(*dst);
        write_legacy_string(self.reason.as_str(), dst);
        let ghost mut e: Seq<u8> = legacy_string_wire(self@.reason);
        Ok(())
    }
}

impl Decode for ClientboundDisconnect {
    fn decode(src: &mut Bytes) -> (r: Result<Self, ProtocolError>) {
        let reason = decode_legacy_string(src)?;
        Ok(Self { reason })
    }
}

// ── ClientboundRespawn ────────────────────────────────────────────────

#[derive(Debug, Clone, PartialEq)]
pub struct ClientboundRespawn {
    pub dimension: i8,
    pub difficulty: u8,
    pub gamemode: u8,
    pub world_height: i16,
}

impl View for ClientboundRespawn {
    type V = ClientboundRespawn;

    open spec fn view(&self) -> ClientboundRespawn {
        *self
    }
}

impl WireFormat for ClientboundRespawn {
    open spec fn spec_encode(p: ClientboundRespawn) -> Seq<u8> {
        seq![p.dimension as u8] + seq![p.difficulty] + seq![p.gamemode] + be_i16_bytes(p.world_height)
    }

    open spec fn spec_decode(s: Seq<u8>) -> Parsed<ClientboundRespawn> {
        then(need_eof_spec(s, 5), |_u: (), s: Seq<u8>| then(take_i8(s), |dimension: i8, s: Seq<u8>| then(take_u8(s), |difficulty: u8, s: Seq<u8>| then(take_u8(s), |gamemode: u8, s: Seq<u8>| then(take_i16(s), |world_height: i16, s: Seq<u8>| (Ok(ClientboundRespawn { dimension, difficulty, gamemode, world_height }), s))))))
    }
}

impl Roundtrip for ClientboundRespawn {
    open spec fn encodable(p: ClientboundRespawn) -> bool {
        true
    }

    open spec fn reads_to_end() -> bool {
        false
    }

    proof fn lemma_roundtrip(p: ClientboundRespawn, rest: Seq<u8>) {
        broadcast use group_wire_roundtrip;

        let t3 = be_i16_bytes(p.world_height) + rest;
        let t2 = seq![p.gamemode] + t3;
        let t1 = seq![p.difficulty] + t2;
        lemma_concat_associative(seq![p.dimension as u8] + seq![p.difficulty] + seq![p.gamemode], be_i16_bytes(p.world_height), rest);
        lemma_concat_associative(seq![p.dimension as u8] + seq![p.difficulty], seq![p.gamemode], t3);
        lemma_concat_associative(seq![p.dimension as u8], seq![p.difficulty], t2);
    }
}

impl Encode for ClientboundRespawn {
    fn encode(&self, dst: &mut BytesMut) -> (r: Result<(), ProtocolError>) {
        let ghost d0 = bytes_mut_data(*dst);
        put_i8(dst, self.dimension);
        let ghost mut e: Seq<u8> = seq![self@.dimension as u8];
        put_u8(dst, self.difficulty);
        proof {
            lemma_concat_associative(d0, e, seq![self@.difficulty]);
            e = e + seq![self@.difficulty];
        }
        put_u8(dst, self.gamemode);
        proof {
            lemma_concat_associative(d0, e, seq![self@.gamemode]);
            e = e + seq![self@.gamemode];
        }
        put_i16(dst, self.world_height);
        proof {
            lemma_concat_associative(d0, e, be_i16_bytes(self@.world_height));
            e = e + be_i16_bytes(self@.world_height);
        }
        Ok(())
    }
}

impl Decode for ClientboundRespawn {
    fn decode(src: &mut Bytes) -> (r: Result<Self, ProtocolError>) {
        need_eof(src, 5)?;
        let dimension = get_i8(src);
        let difficulty = get_u8(src);
        let gamemode = get_u8(src);
        let world_height = get_i16(src);
        Ok(Self { dimension, difficulty, gamemode, world_height })
    }
}

} // verus!
