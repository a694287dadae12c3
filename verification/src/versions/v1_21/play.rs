//! 1.21 play-state packets.
use crate::buffer::{
    bytes_data, bytes_mut_data, bytes_to_vec, copy_to_bytes, copy_to_slice, get_i16, get_i32, get_i64, get_i8,
    extend_from_slice, get_u16, get_u32, get_u64, get_u8, put_i16, put_i32, put_i64, put_i8, put_slice, put_u16, put_u32, put_u64,
    put_u8, remaining, string_from_utf8,
};
use crate::codec::{
    decode_dim_pos_codec, decode_string_vec, dim_pos_codec_fits, dim_pos_codec_spec, dim_pos_view,
    dim_pos_wire, encode_dim_pos_codec, encode_string_vec, lemma_dim_pos_codec_roundtrip, lemma_string_roundtrip, lemma_string_vec_roundtrip,
    result_view, string_fits, string_list_wire, string_piece, string_vec_fits, string_vec_spec,
    string_wire, strings_view, take_varint_i32, write_string, Decode, Encode, PacketId, Roundtrip,
    WireFormat,
};
use crate::error::{io_error, io_error_owned, ErrorView, IoErrorKind, ProtocolError};
use crate::text::{decimal, need_remaining_message};
use crate::types::VarInt;
use crate::types::uuid_wire::{get_uuid, lemma_take_uuid, put_uuid, take_uuid, uuid_wire};
use crate::versions::fields::{
    decode_eof_str, decode_fixed_str, eof_str_spec, fixed_str_spec, lemma_eof_str_roundtrip,
    lemma_fixed_str_roundtrip, need_eof, need_eof_spec, need_msg, need_msg_spec, skip_rest_spec,
    skip_remaining, take_remaining,
};
use crate::wire::{
    be_i16_bytes, be_i32_bytes, be_i64_bytes, be_u16_bytes, be_u32_bytes, be_u64_bytes, bool_byte,
    group_wire_roundtrip, lemma_read_n_err, lemma_read_write_n, panics, read_n, take_bool, take_i16, take_i32, take_i64, take_i8, take_rest,
    take_u16, take_u32, take_u64, take_u8, then, write_all, Parsed,
};
use bytes::{Bytes, BytesMut};
use vstd::prelude::*;
use vstd::seq_lib::lemma_concat_associative;
use vstd::utf8::*;

verus! {


/// What `need` reports in this module: nothing when `n` bytes are left,
/// else an error naming both counts.
pub open spec fn need_spec(s: Seq<u8>, n: usize) -> Parsed<()> {
    if s.len() < n {
        (
            Err(
                ErrorView::Io(
                    IoErrorKind::UnexpectedEof,
                    "need "@ + decimal(n as nat) + " bytes, only "@ + decimal(s.len()) + " remaining"@,
                ),
            ),
            s,
        )
    } else {
        (Ok(()), s)
    }
}

fn need(src: &Bytes, n: usize) -> (r: Result<(), ProtocolError>)
    ensures
        need_spec(bytes_data(*src), n) == (result_view(r), bytes_data(*src)),
{
    let have = remaining(src);
    if have < n {
        Err(io_error_owned(IoErrorKind::UnexpectedEof, need_remaining_message(n, have)))
    } else {
        Ok(())
    }
}

/// What `decode_string` reads in this module: a VarInt byte count checked
/// by `need`, then UTF-8.
pub open spec fn string_spec(s: Seq<u8>) -> Parsed<Seq<char>> {
    then(
        VarInt::spec_decode(s),
        |v: VarInt, t: Seq<u8>|
            then(
                need_spec(t, v.0 as usize),
                |_u: (), t: Seq<u8>|
                    {
                        let n = v.0 as usize;
                        if valid_utf8(t.take(n as int)) {
                            (Ok(decode_utf8(t.take(n as int))), t.skip(n as int))
                        } else {
                            (
                                Err(ErrorView::Io(IoErrorKind::InvalidData, "invalid utf-8 string"@)),
                                t.skip(n as int),
                            )
                        }
                    },
            ),
    )
}

fn decode_string(src: &mut Bytes) -> (r: Result<String, ProtocolError>)
    requires
        !panics(string_spec(bytes_data(*old(src)))),
    ensures
        string_spec(bytes_data(*old(src))) == (result_view(r), bytes_data(*final(src))),
{
    let len = VarInt::decode(src)?.0 as usize;
    need(src, len)?;
    let bytes = copy_to_bytes(src, len);
    match string_from_utf8(bytes_to_vec(&bytes)) {
        Ok(s) => Ok(s),
        Err(_) => Err(io_error(IoErrorKind::InvalidData, "invalid utf-8 string")),
    }
}

fn encode_string(s: &str, dst: &mut BytesMut)
    ensures
        bytes_mut_data(*final(dst)) == bytes_mut_data(*old(dst)) + string_wire(s@),
{
    write_string(s, dst)
}

pub proof fn lemma_string_field(c: Seq<char>, rest: Seq<u8>)
    requires
        string_fits(c),
    ensures
        string_spec(string_wire(c) + rest) == (Ok::<Seq<char>, ErrorView>(c), rest),
{
    broadcast use vstd::utf8::encode_utf8_valid_utf8, vstd::utf8::encode_utf8_decode_utf8;

    let b = encode_utf8(c);
    let len = VarInt(b.len() as i32);
    let t = b + rest;
    assert(string_wire(c) + rest =~= VarInt::spec_encode(len) + t);
    VarInt::lemma_roundtrip(len, t);
    assert(len.0 as usize == b.len());
    assert(t.take(b.len() as int) =~= b);
    assert(t.skip(b.len() as int) =~= rest);
}

/// A flag byte, then (when it is not zero) a dimension name and a packed
/// position.
pub open spec fn dim_pos_spec(s: Seq<u8>) -> Parsed<Option<(Seq<char>, i64)>> {
    then(
        take_u8(s),
        |flag: u8, s: Seq<u8>|
            if flag != 0 {
                then(
                    string_spec(s),
                    |dim: Seq<char>, s: Seq<u8>|
                        then(
                            need_spec(s, 8),
                            |_u: (), s: Seq<u8>|
                                then(
                                    take_i64(s),
                                    |pos: i64, s: Seq<u8>|
                                        (Ok::<Option<(Seq<char>, i64)>, ErrorView>(Some((dim, pos))), s),
                                ),
                        ),
                )
            } else {
                (Ok(None), s)
            },
    )
}

pub open spec fn dim_pos_fits(o: Option<(Seq<char>, i64)>) -> bool {
    match o {
        Some((d, _p)) => string_fits(d),
        None => true,
    }
}

fn decode_dim_pos(src: &mut Bytes) -> (r: Result<Option<(String, i64)>, ProtocolError>)
    requires
        !panics(dim_pos_spec(bytes_data(*old(src)))),
    ensures
        dim_pos_spec(bytes_data(*old(src))) == (
            match r {
                Ok(o) => Ok(dim_pos_view(o)),
                Err(e) => Err(e@),
            },
            bytes_data(*final(src)),
        ),
{
    if get_u8(src) != 0 {
        let dim = decode_string(src)?;
        need(src, 8)?;
        let pos = get_i64(src);
        Ok(Some((dim, pos)))
    } else {
        Ok(None)
    }
}

fn encode_dim_pos(o: &Option<(String, i64)>, dst: &mut BytesMut)
    ensures
        bytes_mut_data(*final(dst)) == bytes_mut_data(*old(dst)) + dim_pos_wire(dim_pos_view(*o)),
{
    match o {
        Some((dim, pos)) => {
            put_u8(dst, 1);
            encode_string(dim.as_str(), dst);
            put_i64(dst, *pos);
        },
        None => put_u8(dst, 0),
    }
    assert(bytes_mut_data(*dst) =~= bytes_mut_data(*old(dst)) + dim_pos_wire(dim_pos_view(*o)));
}

pub proof fn lemma_dim_pos_field(o: Option<(Seq<char>, i64)>, rest: Seq<u8>)
    requires
        dim_pos_fits(o),
    ensures
        dim_pos_spec(dim_pos_wire(o) + rest) == (Ok::<Option<(Seq<char>, i64)>, ErrorView>(o), rest),
{
    broadcast use group_wire_roundtrip;

    match o {
        Some((d, p)) => {
            let t1 = be_i64_bytes(p) + rest;
            assert(dim_pos_wire(o) + rest =~= seq![1u8] + (string_wire(d) + t1));
            lemma_string_field(d, t1);
        },
        None => {
            assert(dim_pos_wire(o) + rest =~= seq![0u8] + rest);
        },
    }
}


// ── ClientboundKeepAlive ──────────────────────────────────────────────

#[derive(Debug, Clone, PartialEq)]
pub struct ClientboundKeepAlive {
    pub keep_alive_id: i64,
}

impl View for ClientboundKeepAlive {
    type V = ClientboundKeepAlive;

    open spec fn view(&self) -> ClientboundKeepAlive {
        *self
    }
}

impl PacketId for ClientboundKeepAlive {
    open spec fn spec_packet_id(ver: u32) -> u8 {
        0x29
    }

    fn packet_id(_ver: u32) -> (r: u8) {
        0x29
    }
}

impl WireFormat for ClientboundKeepAlive {
    open spec fn spec_encode(p: ClientboundKeepAlive) -> Seq<u8> {
        <i64 as WireFormat>::spec_encode(p.keep_alive_id)
    }

    open spec fn spec_decode(s: Seq<u8>) -> Parsed<ClientboundKeepAlive> {
        then(<i64 as WireFormat>::spec_decode(s), |keep_alive_id: i64, s: Seq<u8>| (Ok(ClientboundKeepAlive { keep_alive_id }), s))
    }
}

impl Roundtrip for ClientboundKeepAlive {
    open spec fn encodable(p: ClientboundKeepAlive) -> bool {
        true
    }

    open spec fn reads_to_end() -> bool {
        false
    }

    proof fn lemma_roundtrip(p: ClientboundKeepAlive, rest: Seq<u8>) {
        broadcast use group_wire_roundtrip;

        <i64 as Roundtrip>::lemma_roundtrip(p.keep_alive_id, rest);
    }
}

impl Encode for ClientboundKeepAlive {
    fn encode(&self, dst: &mut BytesMut) -> (r: Result<(), ProtocolError>) {
        let ghost d0 = bytes_mut_data(*dst);
        let _ = self.keep_alive_id.encode(dst);
        let ghost mut e: Seq<u8> = <i64 as WireFormat>::spec_encode(self@.keep_alive_id);
        Ok(())
    }
}

impl Decode for ClientboundKeepAlive {
    fn decode(src: &mut Bytes) -> (r: Result<Self, ProtocolError>) {
        let keep_alive_id = i64::decode(src)?;
        Ok(Self { keep_alive_id })
    }
}

// ── ClientboundPlayerPosition ─────────────────────────────────────────

#[derive(Debug, Clone, PartialEq)]
pub struct ClientboundPlayerPosition {
    /// The bits of the `f64` value (`f64::to_bits`).
    pub x: u64,
    /// The bits of the `f64` value (`f64::to_bits`).
    pub y: u64,
    /// The bits of the `f64` value (`f64::to_bits`).
    pub z: u64,
    /// The bits of the `f32` value (`f32::to_bits`).
    pub yaw: u32,
    /// The bits of the `f32` value (`f32::to_bits`).
    pub pitch: u32,
    pub flags: u8,
    pub teleport_id: VarInt,
}

impl View for ClientboundPlayerPosition {
    type V = ClientboundPlayerPosition;

    open spec fn view(&self) -> ClientboundPlayerPosition {
        *self
    }
}

impl PacketId for ClientboundPlayerPosition {
    open spec fn spec_packet_id(ver: u32) -> u8 {
        0x43
    }

    fn packet_id(_ver: u32) -> (r: u8) {
        0x43
    }
}

impl WireFormat for ClientboundPlayerPosition {
    open spec fn spec_encode(p: ClientboundPlayerPosition) -> Seq<u8> {
        be_u64_bytes(p.x) + be_u64_bytes(p.y) + be_u64_bytes(p.z) + be_u32_bytes(p.yaw) + be_u32_bytes(p.pitch) + seq![p.flags] + VarInt::spec_encode(p.teleport_id)
    }

    open spec fn spec_decode(s: Seq<u8>) -> Parsed<ClientboundPlayerPosition> {
        then(need_spec(s, 33), |_u: (), s: Seq<u8>| then(take_u64(s), |x: u64, s: Seq<u8>| then(take_u64(s), |y: u64, s: Seq<u8>| then(take_u64(s), |z: u64, s: Seq<u8>| then(take_u32(s), |yaw: u32, s: Seq<u8>| then(take_u32(s), |pitch: u32, s: Seq<u8>| then(take_u8(s), |flags: u8, s: Seq<u8>| then(VarInt::spec_decode(s), |teleport_id: VarInt, s: Seq<u8>| (Ok(ClientboundPlayerPosition { x, y, z, yaw, pitch, flags, teleport_id }), s)))))))))
    }
}

impl Roundtrip for ClientboundPlayerPosition {
    open spec fn encodable(p: ClientboundPlayerPosition) -> bool {
        true
    }

    open spec fn reads_to_end() -> bool {
        false
    }

    #[verifier::rlimit(100)]
    #[verifier::spinoff_prover]
    proof fn lemma_roundtrip(p: ClientboundPlayerPosition, rest: Seq<u8>) {
        broadcast use group_wire_roundtrip;

        let t6 = VarInt::spec_encode(p.teleport_id) + rest;
        let t5 = seq![p.flags] + t6;
        let t4 = be_u32_bytes(p.pitch) + t5;
        let t3 = be_u32_bytes(p.yaw) + t4;
        let t2 = be_u64_bytes(p.z) + t3;
        let t1 = be_u64_bytes(p.y) + t2;
        lemma_concat_associative(be_u64_bytes(p.x) + be_u64_bytes(p.y) + be_u64_bytes(p.z) + be_u32_bytes(p.yaw) + be_u32_bytes(p.pitch) + seq![p.flags], VarInt::spec_encode(p.teleport_id), rest);
        lemma_concat_associative(be_u64_bytes(p.x) + be_u64_bytes(p.y) + be_u64_bytes(p.z) + be_u32_bytes(p.yaw) + be_u32_bytes(p.pitch), seq![p.flags], t6);
        lemma_concat_associative(be_u64_bytes(p.x) + be_u64_bytes(p.y) + be_u64_bytes(p.z) + be_u32_bytes(p.yaw), be_u32_bytes(p.pitch), t5);
        lemma_concat_associative(be_u64_bytes(p.x) + be_u64_bytes(p.y) + be_u64_bytes(p.z), be_u32_bytes(p.yaw), t4);
        lemma_concat_associative(be_u64_bytes(p.x) + be_u64_bytes(p.y), be_u64_bytes(p.z), t3);
        lemma_concat_associative(be_u64_bytes(p.x), be_u64_bytes(p.y), t2);
        VarInt::lemma_roundtrip(p.teleport_id, rest);
    }
}

impl Encode for ClientboundPlayerPosition {
    fn encode(&self, dst: &mut BytesMut) -> (r: Result<(), ProtocolError>) {
        let ghost d0 = bytes_mut_data(*dst);
        put_u64(dst, self.x);
        let ghost mut e: Seq<u8> = be_u64_bytes(self@.x);
        put_u64(dst, self.y);
        proof {
            lemma_concat_associative(d0, e, be_u64_bytes(self@.y));
            e = e + be_u64_bytes(self@.y);
        }
        put_u64(dst, self.z);
        proof {
            lemma_concat_associative(d0, e, be_u64_bytes(self@.z));
            e = e + be_u64_bytes(self@.z);
        }
        put_u32(dst, self.yaw);
        proof {
            lemma_concat_associative(d0, e, be_u32_bytes(self@.yaw));
            e = e + be_u32_bytes(self@.yaw);
        }
        put_u32(dst, self.pitch);
        proof {
            lemma_concat_associative(d0, e, be_u32_bytes(self@.pitch));
            e = e + be_u32_bytes(self@.pitch);
        }
        put_u8(dst, self.flags);
        proof {
            lemma_concat_associative(d0, e, seq![self@.flags]);
            e = e + seq![self@.flags];
        }
        let _ = self.teleport_id.encode(dst);
        proof {
            lemma_concat_associative(d0, e, VarInt::spec_encode(self@.teleport_id));
            e = e + VarInt::spec_encode(self@.teleport_id);
        }
        Ok(())
    }
}

impl Decode for ClientboundPlayerPosition {
    fn decode(src: &mut Bytes) -> (r: Result<Self, ProtocolError>) {
        need(src, 33)?;
        let x = get_u64(src);
        let y = get_u64(src);
        let z = get_u64(src);
        let yaw = get_u32(src);
        let pitch = get_u32(src);
        let flags = get_u8(src);
        let teleport_id = VarInt::decode(src)?;
        Ok(Self { x, y, z, yaw, pitch, flags, teleport_id })
    }
}

// ── ClientboundPluginMessage ──────────────────────────────────────────

#[derive(Debug, Clone, PartialEq)]
pub struct ClientboundPluginMessage {
    pub channel: String,
    pub data: Vec<u8>,
}

pub struct ClientboundPluginMessageView {
    pub channel: Seq<char>,
    pub data: Seq<u8>,
}

impl View for ClientboundPluginMessage {
    type V = ClientboundPluginMessageView;

    open spec fn view(&self) -> ClientboundPluginMessageView {
        ClientboundPluginMessageView {
            channel: self.channel@,
            data: self.data@,
        }
    }
}

impl PacketId for ClientboundPluginMessage {
    open spec fn spec_packet_id(ver: u32) -> u8 {
        0x1A
    }

    fn packet_id(_ver: u32) -> (r: u8) {
        0x1A
    }
}

impl WireFormat for ClientboundPluginMessage {
    open spec fn spec_encode(p: ClientboundPluginMessageView) -> Seq<u8> {
        string_wire(p.channel) + p.data
    }

    open spec fn spec_decode(s: Seq<u8>) -> Parsed<ClientboundPluginMessageView> {
        then(string_spec(s), |channel: Seq<char>, s: Seq<u8>| then(take_rest(s), |data: Seq<u8>, s: Seq<u8>| (Ok(ClientboundPluginMessageView { channel, data }), s)))
    }
}

impl Roundtrip for ClientboundPluginMessage {
    open spec fn encodable(p: ClientboundPluginMessageView) -> bool {
        string_fits(p.channel)
    }

    open spec fn reads_to_end() -> bool {
        true
    }

    proof fn lemma_roundtrip(p: ClientboundPluginMessageView, rest: Seq<u8>) {
        broadcast use group_wire_roundtrip;

        let t1 = p.data + rest;
        lemma_concat_associative(string_wire(p.channel), p.data, rest);
        lemma_string_field(p.channel, t1);
        assert(p.data + rest =~= p.data);
    }
}

impl Encode for ClientboundPluginMessage {
    fn encode(&self, dst: &mut BytesMut) -> (r: Result<(), ProtocolError>) {
        let ghost d0 = bytes_mut_data(*dst);
        encode_string(self.channel.as_str(), dst);
        let ghost mut e: Seq<u8> = string_wire(self@.channel);
        put_slice(dst, self.data.as_slice());
        proof {
            lemma_concat_associative(d0, e, self@.data);
            e = e + self@.data;
        }
        Ok(())
    }
}

impl Decode for ClientboundPluginMessage {
    fn decode(src: &mut Bytes) -> (r: Result<Self, ProtocolError>) {
        let channel = decode_string(src)?;
        let data = take_remaining(src);
        Ok(Self { channel, data })
    }
}

// ── ClientboundSystemChat ─────────────────────────────────────────────

#[derive(Debug, Clone, PartialEq)]
pub struct ClientboundSystemChat {
    pub json_message: String,
    pub overlay: bool,
}

pub struct ClientboundSystemChatView {
    pub json_message: Seq<char>,
    pub overlay: bool,
}

impl View for ClientboundSystemChat {
    type V = ClientboundSystemChatView;

    open spec fn view(&self) -> ClientboundSystemChatView {
        ClientboundSystemChatView {
            json_message: self.json_message@,
            overlay: self.overlay,
        }
    }
}

impl PacketId for ClientboundSystemChat {
    open spec fn spec_packet_id(ver: u32) -> u8 {
        0x6B
    }

    fn packet_id(_ver: u32) -> (r: u8) {
        0x6B
    }
}

impl WireFormat for ClientboundSystemChat {
    open spec fn spec_encode(p: ClientboundSystemChatView) -> Seq<u8> {
        string_wire(p.json_message) + seq![bool_byte(p.overlay)]
    }

    open spec fn spec_decode(s: Seq<u8>) -> Parsed<ClientboundSystemChatView> {
        then(string_spec(s), |json_message: Seq<char>, s: Seq<u8>| then(need_spec(s, 1), |_u: (), s: Seq<u8>| then(take_bool(s), |overlay: bool, s: Seq<u8>| (Ok(ClientboundSystemChatView { json_message, overlay }), s))))
    }
}

impl Roundtrip for ClientboundSystemChat {
    open spec fn encodable(p: ClientboundSystemChatView) -> bool {
        string_fits(p.json_message)
    }

    open spec fn reads_to_end() -> bool {
        false
    }

    proof fn lemma_roundtrip(p: ClientboundSystemChatView, rest: Seq<u8>) {
        broadcast use group_wire_roundtrip;

        let t1 = seq![bool_byte(p.overlay)] + rest;
        lemma_concat_associative(string_wire(p.json_message), seq![bool_byte(p.overlay)], rest);
        lemma_string_field(p.json_message, t1);
    }
}

impl Encode for ClientboundSystemChat {
    fn encode(&self, dst: &mut BytesMut) -> (r: Result<(), ProtocolError>) {
        let ghost d0 = bytes_mut_data(*dst);
        encode_string(self.json_message.as_str(), dst);
        let ghost mut e: Seq<u8> = string_wire(self@.json_message);
        put_u8(dst, self.overlay as u8);
        proof {
            lemma_concat_associative(d0, e, seq![bool_byte(self@.overlay)]);
            e = e + seq![bool_byte(self@.overlay)];
        }
        Ok(())
    }
}

impl Decode for ClientboundSystemChat {
    fn decode(src: &mut Bytes) -> (r: Result<Self, ProtocolError>) {
        let json_message = decode_string(src)?;
        need(src, 1)?;
        let overlay = get_u8(src) != 0;
        Ok(Self { json_message, overlay })
    }
}

// ── ClientboundLogin ──────────────────────────────────────────────────

#[derive(Debug, Clone, PartialEq)]
pub struct ClientboundLogin {
    pub entity_id: i32,
    pub is_hardcore: bool,
    pub dimension_names: Vec<String>,
    pub max_players: VarInt,
    pub view_distance: VarInt,
    pub simulation_distance: VarInt,
    pub reduced_debug_info: bool,
    pub enable_respawn_screen: bool,
    pub do_limited_crafting: bool,
    pub dimension_type: VarInt,
    pub dimension_name: String,
    pub hashed_seed: i64,
    pub game_mode: u8,
    pub previous_game_mode: i8,
    pub is_debug: bool,
    pub is_flat: bool,
    pub death_location: Option<(String, i64)>,
    pub portal_cooldown: VarInt,
    pub sea_level: VarInt,
}

pub struct ClientboundLoginView {
    pub entity_id: i32,
    pub is_hardcore: bool,
    pub dimension_names: Seq<Seq<char>>,
    pub max_players: VarInt,
    pub view_distance: VarInt,
    pub simulation_distance: VarInt,
    pub reduced_debug_info: bool,
    pub enable_respawn_screen: bool,
    pub do_limited_crafting: bool,
    pub dimension_type: VarInt,
    pub dimension_name: Seq<char>,
    pub hashed_seed: i64,
    pub game_mode: u8,
    pub previous_game_mode: i8,
    pub is_debug: bool,
    pub is_flat: bool,
    pub death_location: Option<(Seq<char>, i64)>,
    pub portal_cooldown: VarInt,
    pub sea_level: VarInt,
}

impl View for ClientboundLogin {
    type V = ClientboundLoginView;

    open spec fn view(&self) -> ClientboundLoginView {
        ClientboundLoginView {
            entity_id: self.entity_id,
            is_hardcore: self.is_hardcore,
            dimension_names: strings_view(self.dimension_names@),
            max_players: self.max_players,
            view_distance: self.view_distance,
            simulation_distance: self.simulation_distance,
            reduced_debug_info: self.reduced_debug_info,
            enable_respawn_screen: self.enable_respawn_screen,
            do_limited_crafting: self.do_limited_crafting,
            dimension_type: self.dimension_type,
            dimension_name: self.dimension_name@,
            hashed_seed: self.hashed_seed,
            game_mode: self.game_mode,
            previous_game_mode: self.previous_game_mode,
            is_debug: self.is_debug,
            is_flat: self.is_flat,
            death_location: dim_pos_view(self.death_location),
            portal_cooldown: self.portal_cooldown,
            sea_level: self.sea_level,
        }
    }
}

impl PacketId for ClientboundLogin {
    open spec fn spec_packet_id(ver: u32) -> u8 {
        0x2E
    }

    fn packet_id(_ver: u32) -> (r: u8) {
        0x2E
    }
}

impl WireFormat for ClientboundLogin {
    open spec fn spec_encode(p: ClientboundLoginView) -> Seq<u8> {
        be_i32_bytes(p.entity_id) + seq![bool_byte(p.is_hardcore)] + string_list_wire(p.dimension_names) + VarInt::spec_encode(p.max_players) + VarInt::spec_encode(p.view_distance) + VarInt::spec_encode(p.simulation_distance) + seq![bool_byte(p.reduced_debug_info)] + seq![bool_byte(p.enable_respawn_screen)] + seq![bool_byte(p.do_limited_crafting)] + VarInt::spec_encode(p.dimension_type) + string_wire(p.dimension_name) + be_i64_bytes(p.hashed_seed) + seq![p.game_mode] + seq![p.previous_game_mode as u8] + seq![bool_byte(p.is_debug)] + seq![bool_byte(p.is_flat)] + dim_pos_wire(p.death_location) + VarInt::spec_encode(p.portal_cooldown) + VarInt::spec_encode(p.sea_level)
    }

    open spec fn spec_decode(s: Seq<u8>) -> Parsed<ClientboundLoginView> {
        then(need_spec(s, 4), |_u: (), s: Seq<u8>| then(take_i32(s), |entity_id: i32, s: Seq<u8>| then(need_spec(s, 1), |_u: (), s: Seq<u8>| then(take_bool(s), |is_hardcore: bool, s: Seq<u8>| then(string_vec_spec(s), |dimension_names: Seq<Seq<char>>, s: Seq<u8>| then(VarInt::spec_decode(s), |max_players: VarInt, s: Seq<u8>| then(VarInt::spec_decode(s), |view_distance: VarInt, s: Seq<u8>| then(VarInt::spec_decode(s), |simulation_distance: VarInt, s: Seq<u8>| then(need_spec(s, 3), |_u: (), s: Seq<u8>| then(take_bool(s), |reduced_debug_info: bool, s: Seq<u8>| then(take_bool(s), |enable_respawn_screen: bool, s: Seq<u8>| then(take_bool(s), |do_limited_crafting: bool, s: Seq<u8>| then(VarInt::spec_decode(s), |dimension_type: VarInt, s: Seq<u8>| then(string_spec(s), |dimension_name: Seq<char>, s: Seq<u8>| then(need_spec(s, 8), |_u: (), s: Seq<u8>| then(take_i64(s), |hashed_seed: i64, s: Seq<u8>| then(need_spec(s, 4), |_u: (), s: Seq<u8>| then(take_u8(s), |game_mode: u8, s: Seq<u8>| then(take_i8(s), |previous_game_mode: i8, s: Seq<u8>| then(take_bool(s), |is_debug: bool, s: Seq<u8>| then(take_bool(s), |is_flat: bool, s: Seq<u8>| then(need_spec(s, 1), |_u: (), s: Seq<u8>| then(dim_pos_spec(s), |death_location: Option<(Seq<char>, i64)>, s: Seq<u8>| then(VarInt::spec_decode(s), |portal_cooldown: VarInt, s: Seq<u8>| then(VarInt::spec_decode(s), |sea_level: VarInt, s: Seq<u8>| (Ok(ClientboundLoginView { entity_id, is_hardcore, dimension_names, max_players, view_distance, simulation_distance, reduced_debug_info, enable_respawn_screen, do_limited_crafting, dimension_type, dimension_name, hashed_seed, game_mode, previous_game_mode, is_debug, is_flat, death_location, portal_cooldown, sea_level }), s))))))))))))))))))))))))))
    }
}

impl Roundtrip for ClientboundLogin {
    open spec fn encodable(p: ClientboundLoginView) -> bool {
        string_vec_fits(p.dimension_names) && string_fits(p.dimension_name) && dim_pos_fits(p.death_location)
    }

    open spec fn reads_to_end() -> bool {
        false
    }

    #[verifier::rlimit(100)]
    #[verifier::spinoff_prover]
    proof fn lemma_roundtrip(p: ClientboundLoginView, rest: Seq<u8>) {
        broadcast use group_wire_roundtrip;

        let t18 = VarInt::spec_encode(p.sea_level) + rest;
        let t17 = VarInt::spec_encode(p.portal_cooldown) + t18;
        let t16 = dim_pos_wire(p.death_location) + t17;
        let t15 = seq![bool_byte(p.is_flat)] + t16;
        let t14 = seq![bool_byte(p.is_debug)] + t15;
        let t13 = seq![p.previous_game_mode as u8] + t14;
        let t12 = seq![p.game_mode] + t13;
        let t11 = be_i64_bytes(p.hashed_seed) + t12;
        let t10 = string_wire(p.dimension_name) + t11;
        let t9 = VarInt::spec_encode(p.dimension_type) + t10;
        let t8 = seq![bool_byte(p.do_limited_crafting)] + t9;
        let t7 = seq![bool_byte(p.enable_respawn_screen)] + t8;
        let t6 = seq![bool_byte(p.reduced_debug_info)] + t7;
        let t5 = VarInt::spec_encode(p.simulation_distance) + t6;
        let t4 = VarInt::spec_encode(p.view_distance) + t5;
        let t3 = VarInt::spec_encode(p.max_players) + t4;
        let t2 = string_list_wire(p.dimension_names) + t3;
        let t1 = seq![bool_byte(p.is_hardcore)] + t2;
        lemma_concat_associative(be_i32_bytes(p.entity_id) + seq![bool_byte(p.is_hardcore)] + string_list_wire(p.dimension_names) + VarInt::spec_encode(p.max_players) + VarInt::spec_encode(p.view_distance) + VarInt::spec_encode(p.simulation_distance) + seq![bool_byte(p.reduced_debug_info)] + seq![bool_byte(p.enable_respawn_screen)] + seq![bool_byte(p.do_limited_crafting)] + VarInt::spec_encode(p.dimension_type) + string_wire(p.dimension_name) + be_i64_bytes(p.hashed_seed) + seq![p.game_mode] + seq![p.previous_game_mode as u8] + seq![bool_byte(p.is_debug)] + seq![bool_byte(p.is_flat)] + dim_pos_wire(p.death_location) + VarInt::spec_encode(p.portal_cooldown), VarInt::spec_encode(p.sea_level), rest);
        lemma_concat_associative(be_i32_bytes(p.entity_id) + seq![bool_byte(p.is_hardcore)] + string_list_wire(p.dimension_names) + VarInt::spec_encode(p.max_players) + VarInt::spec_encode(p.view_distance) + VarInt::spec_encode(p.simulation_distance) + seq![bool_byte(p.reduced_debug_info)] + seq![bool_byte(p.enable_respawn_screen)] + seq![bool_byte(p.do_limited_crafting)] + VarInt::spec_encode(p.dimension_type) + string_wire(p.dimension_name) + be_i64_bytes(p.hashed_seed) + seq![p.game_mode] + seq![p.previous_game_mode as u8] + seq![bool_byte(p.is_debug)] + seq![bool_byte(p.is_flat)] + dim_pos_wire(p.death_location), VarInt::spec_encode(p.portal_cooldown), t18);
        lemma_concat_associative(be_i32_bytes(p.entity_id) + seq![bool_byte(p.is_hardcore)] + string_list_wire(p.dimension_names) + VarInt::spec_encode(p.max_players) + VarInt::spec_encode(p.view_distance) + VarInt::spec_encode(p.simulation_distance) + seq![bool_byte(p.reduced_debug_info)] + seq![bool_byte(p.enable_respawn_screen)] + seq![bool_byte(p.do_limited_crafting)] + VarInt::spec_encode(p.dimension_type) + string_wire(p.dimension_name) + be_i64_bytes(p.hashed_seed) + seq![p.game_mode] + seq![p.previous_game_mode as u8] + seq![bool_byte(p.is_debug)] + seq![bool_byte(p.is_flat)], dim_pos_wire(p.death_location), t17);
        lemma_concat_associative(be_i32_bytes(p.entity_id) + seq![bool_byte(p.is_hardcore)] + string_list_wire(p.dimension_names) + VarInt::spec_encode(p.max_players) + VarInt::spec_encode(p.view_distance) + VarInt::spec_encode(p.simulation_distance) + seq![bool_byte(p.reduced_debug_info)] + seq![bool_byte(p.enable_respawn_screen)] + seq![bool_byte(p.do_limited_crafting)] + VarInt::spec_encode(p.dimension_type) + string_wire(p.dimension_name) + be_i64_bytes(p.hashed_seed) + seq![p.game_mode] + seq![p.previous_game_mode as u8] + seq![bool_byte(p.is_debug)], seq![bool_byte(p.is_flat)], t16);
        lemma_concat_associative(be_i32_bytes(p.entity_id) + seq![bool_byte(p.is_hardcore)] + string_list_wire(p.dimension_names) + VarInt::spec_encode(p.max_players) + VarInt::spec_encode(p.view_distance) + VarInt::spec_encode(p.simulation_distance) + seq![bool_byte(p.reduced_debug_info)] + seq![bool_byte(p.enable_respawn_screen)] + seq![bool_byte(p.do_limited_crafting)] + VarInt::spec_encode(p.dimension_type) + string_wire(p.dimension_name) + be_i64_bytes(p.hashed_seed) + seq![p.game_mode] + seq![p.previous_game_mode as u8], seq![bool_byte(p.is_debug)], t15);
        lemma_concat_associative(be_i32_bytes(p.entity_id) + seq![bool_byte(p.is_hardcore)] + string_list_wire(p.dimension_names) + VarInt::spec_encode(p.max_players) + VarInt::spec_encode(p.view_distance) + VarInt::spec_encode(p.simulation_distance) + seq![bool_byte(p.reduced_debug_info)] + seq![bool_byte(p.enable_respawn_screen)] + seq![bool_byte(p.do_limited_crafting)] + VarInt::spec_encode(p.dimension_type) + string_wire(p.dimension_name) + be_i64_bytes(p.hashed_seed) + seq![p.game_mode], seq![p.previous_game_mode as u8], t14);
        lemma_concat_associative(be_i32_bytes(p.entity_id) + seq![bool_byte(p.is_hardcore)] + string_list_wire(p.dimension_names) + VarInt::spec_encode(p.max_players) + VarInt::spec_encode(p.view_distance) + VarInt::spec_encode(p.simulation_distance) + seq![bool_byte(p.reduced_debug_info)] + seq![bool_byte(p.enable_respawn_screen)] + seq![bool_byte(p.do_limited_crafting)] + VarInt::spec_encode(p.dimension_type) + string_wire(p.dimension_name) + be_i64_bytes(p.hashed_seed), seq![p.game_mode], t13);
        lemma_concat_associative(be_i32_bytes(p.entity_id) + seq![bool_byte(p.is_hardcore)] + string_list_wire(p.dimension_names) + VarInt::spec_encode(p.max_players) + VarInt::spec_encode(p.view_distance) + VarInt::spec_encode(p.simulation_distance) + seq![bool_byte(p.reduced_debug_info)] + seq![bool_byte(p.enable_respawn_screen)] + seq![bool_byte(p.do_limited_crafting)] + VarInt::spec_encode(p.dimension_type) + string_wire(p.dimension_name), be_i64_bytes(p.hashed_seed), t12);
        lemma_concat_associative(be_i32_bytes(p.entity_id) + seq![bool_byte(p.is_hardcore)] + string_list_wire(p.dimension_names) + VarInt::spec_encode(p.max_players) + VarInt::spec_encode(p.view_distance) + VarInt::spec_encode(p.simulation_distance) + seq![bool_byte(p.reduced_debug_info)] + seq![bool_byte(p.enable_respawn_screen)] + seq![bool_byte(p.do_limited_crafting)] + VarInt::spec_encode(p.dimension_type), string_wire(p.dimension_name), t11);
        lemma_concat_associative(be_i32_bytes(p.entity_id) + seq![bool_byte(p.is_hardcore)] + string_list_wire(p.dimension_names) + VarInt::spec_encode(p.max_players) + VarInt::spec_encode(p.view_distance) + VarInt::spec_encode(p.simulation_distance) + seq![bool_byte(p.reduced_debug_info)] + seq![bool_byte(p.enable_respawn_screen)] + seq![bool_byte(p.do_limited_crafting)], VarInt::spec_encode(p.dimension_type), t10);
        lemma_concat_associative(be_i32_bytes(p.entity_id) + seq![bool_byte(p.is_hardcore)] + string_list_wire(p.dimension_names) + VarInt::spec_encode(p.max_players) + VarInt::spec_encode(p.view_distance) + VarInt::spec_encode(p.simulation_distance) + seq![bool_byte(p.reduced_debug_info)] + seq![bool_byte(p.enable_respawn_screen)], seq![bool_byte(p.do_limited_crafting)], t9);
        lemma_concat_associative(be_i32_bytes(p.entity_id) + seq![bool_byte(p.is_hardcore)] + string_list_wire(p.dimension_names) + VarInt::spec_encode(p.max_players) + VarInt::spec_encode(p.view_distance) + VarInt::spec_encode(p.simulation_distance) + seq![bool_byte(p.reduced_debug_info)], seq![bool_byte(p.enable_respawn_screen)], t8);
        lemma_concat_associative(be_i32_bytes(p.entity_id) + seq![bool_byte(p.is_hardcore)] + string_list_wire(p.dimension_names) + VarInt::spec_encode(p.max_players) + VarInt::spec_encode(p.view_distance) + VarInt::spec_encode(p.simulation_distance), seq![bool_byte(p.reduced_debug_info)], t7);
        lemma_concat_associative(be_i32_bytes(p.entity_id) + seq![bool_byte(p.is_hardcore)] + string_list_wire(p.dimension_names) + VarInt::spec_encode(p.max_players) + VarInt::spec_encode(p.view_distance), VarInt::spec_encode(p.simulation_distance), t6);
        lemma_concat_associative(be_i32_bytes(p.entity_id) + seq![bool_byte(p.is_hardcore)] + string_list_wire(p.dimension_names) + VarInt::spec_encode(p.max_players), VarInt::spec_encode(p.view_distance), t5);
        lemma_concat_associative(be_i32_bytes(p.entity_id) + seq![bool_byte(p.is_hardcore)] + string_list_wire(p.dimension_names), VarInt::spec_encode(p.max_players), t4);
        lemma_concat_associative(be_i32_bytes(p.entity_id) + seq![bool_byte(p.is_hardcore)], string_list_wire(p.dimension_names), t3);
        lemma_concat_associative(be_i32_bytes(p.entity_id), seq![bool_byte(p.is_hardcore)], t2);
        lemma_string_vec_roundtrip(p.dimension_names, t3);
        VarInt::lemma_roundtrip(p.max_players, t4);
        VarInt::lemma_roundtrip(p.view_distance, t5);
        VarInt::lemma_roundtrip(p.simulation_distance, t6);
        VarInt::lemma_roundtrip(p.dimension_type, t10);
        lemma_string_field(p.dimension_name, t11);
        lemma_dim_pos_field(p.death_location, t17);
        VarInt::lemma_roundtrip(p.portal_cooldown, t18);
        VarInt::lemma_roundtrip(p.sea_level, rest);
    }
}

impl ClientboundLogin {
    /// Writes the fields up to `do_limited_crafting`.
    fn encode_front(&self, dst: &mut BytesMut)
        ensures
            bytes_mut_data(*final(dst)) == bytes_mut_data(*old(dst)) + (be_i32_bytes(self@.entity_id) + seq![bool_byte(self@.is_hardcore)] + string_list_wire(self@.dimension_names) + VarInt::spec_encode(self@.max_players) + VarInt::spec_encode(self@.view_distance) + VarInt::spec_encode(self@.simulation_distance) + seq![bool_byte(self@.reduced_debug_info)] + seq![bool_byte(self@.enable_respawn_screen)] + seq![bool_byte(self@.do_limited_crafting)]),
    {
        let ghost d0 = bytes_mut_data(*dst);
        put_i32(dst, self.entity_id);
        let ghost mut e: Seq<u8> = be_i32_bytes(self@.entity_id);
        put_u8(dst, self.is_hardcore as u8);
        proof {
            lemma_concat_associative(d0, e, seq![bool_byte(self@.is_hardcore)]);
            e = e + seq![bool_byte(self@.is_hardcore)];
        }
        encode_string_vec(&self.dimension_names, dst);
        proof {
            lemma_concat_associative(d0, e, string_list_wire(self@.dimension_names));
            e = e + string_list_wire(self@.dimension_names);
        }
        let _ = self.max_players.encode(dst);
        proof {
            lemma_concat_associative(d0, e, VarInt::spec_encode(self@.max_players));
            e = e + VarInt::spec_encode(self@.max_players);
        }
        let _ = self.view_distance.encode(dst);
        proof {
            lemma_concat_associative(d0, e, VarInt::spec_encode(self@.view_distance));
            e = e + VarInt::spec_encode(self@.view_distance);
        }
        let _ = self.simulation_distance.encode(dst);
        proof {
            lemma_concat_associative(d0, e, VarInt::spec_encode(self@.simulation_distance));
            e = e + VarInt::spec_encode(self@.simulation_distance);
        }
        put_u8(dst, self.reduced_debug_info as u8);
        proof {
            lemma_concat_associative(d0, e, seq![bool_byte(self@.reduced_debug_info)]);
            e = e + seq![bool_byte(self@.reduced_debug_info)];
        }
        put_u8(dst, self.enable_respawn_screen as u8);
        proof {
            lemma_concat_associative(d0, e, seq![bool_byte(self@.enable_respawn_screen)]);
            e = e + seq![bool_byte(self@.enable_respawn_screen)];
        }
        put_u8(dst, self.do_limited_crafting as u8);
        proof {
            lemma_concat_associative(d0, e, seq![bool_byte(self@.do_limited_crafting)]);
            e = e + seq![bool_byte(self@.do_limited_crafting)];
        }
    }
}

impl Encode for ClientboundLogin {
    #[verifier::rlimit(100)]
    #[verifier::spinoff_prover]
    fn encode(&self, dst: &mut BytesMut) -> (r: Result<(), ProtocolError>) {
        let ghost d0 = bytes_mut_data(*dst);
        self.encode_front(dst);
        let ghost mut e: Seq<u8> = be_i32_bytes(self@.entity_id) + seq![bool_byte(self@.is_hardcore)] + string_list_wire(self@.dimension_names) + VarInt::spec_encode(self@.max_players) + VarInt::spec_encode(self@.view_distance) + VarInt::spec_encode(self@.simulation_distance) + seq![bool_byte(self@.reduced_debug_info)] + seq![bool_byte(self@.enable_respawn_screen)] + seq![bool_byte(self@.do_limited_crafting)];
        let _ = self.dimension_type.encode(dst);
        proof {
            lemma_concat_associative(d0, e, VarInt::spec_encode(self@.dimension_type));
            e = e + VarInt::spec_encode(self@.dimension_type);
        }
        encode_string(self.dimension_name.as_str(), dst);
        proof {
            lemma_concat_associative(d0, e, string_wire(self@.dimension_name));
            e = e + string_wire(self@.dimension_name);
        }
        put_i64(dst, self.hashed_seed);
        proof {
            lemma_concat_associative(d0, e, be_i64_bytes(self@.hashed_seed));
            e = e + be_i64_bytes(self@.hashed_seed);
        }
        put_u8(dst, self.game_mode);
        proof {
            lemma_concat_associative(d0, e, seq![self@.game_mode]);
            e = e + seq![self@.game_mode];
        }
        put_i8(dst, self.previous_game_mode);
        proof {
            lemma_concat_associative(d0, e, seq![self@.previous_game_mode as u8]);
            e = e + seq![self@.previous_game_mode as u8];
        }
        put_u8(dst, self.is_debug as u8);
        proof {
            lemma_concat_associative(d0, e, seq![bool_byte(self@.is_debug)]);
            e = e + seq![bool_byte(self@.is_debug)];
        }
        put_u8(dst, self.is_flat as u8);
        proof {
            lemma_concat_associative(d0, e, seq![bool_byte(self@.is_flat)]);
            e = e + seq![bool_byte(self@.is_flat)];
        }
        encode_dim_pos(&self.death_location, dst);
        proof {
            lemma_concat_associative(d0, e, dim_pos_wire(self@.death_location));
            e = e + dim_pos_wire(self@.death_location);
        }
        let _ = self.portal_cooldown.encode(dst);
        proof {
            lemma_concat_associative(d0, e, VarInt::spec_encode(self@.portal_cooldown));
            e = e + VarInt::spec_encode(self@.portal_cooldown);
        }
        let _ = self.sea_level.encode(dst);
        proof {
            lemma_concat_associative(d0, e, VarInt::spec_encode(self@.sea_level));
            e = e + VarInt::spec_encode(self@.sea_level);
        }
        Ok(())
    }
}

impl Decode for ClientboundLogin {
    #[verifier::rlimit(100)]
    #[verifier::spinoff_prover]
    fn decode(src: &mut Bytes) -> (r: Result<Self, ProtocolError>) {
        need(src, 4)?;
        let entity_id = get_i32(src);
        need(src, 1)?;
        let is_hardcore = get_u8(src) != 0;
        let dimension_names = decode_string_vec(src)?;
        let max_players = VarInt::decode(src)?;
        let view_distance = VarInt::decode(src)?;
        let simulation_distance = VarInt::decode(src)?;
        need(src, 3)?;
        let reduced_debug_info = get_u8(src) != 0;
        let enable_respawn_screen = get_u8(src) != 0;
        let do_limited_crafting = get_u8(src) != 0;
        let dimension_type = VarInt::decode(src)?;
        let dimension_name = decode_string(src)?;
        need(src, 8)?;
        let hashed_seed = get_i64(src);
        need(src, 4)?;
        let game_mode = get_u8(src);
        let previous_game_mode = get_i8(src);
        let is_debug = get_u8(src) != 0;
        let is_flat = get_u8(src) != 0;
        need(src, 1)?;
        let death_location = decode_dim_pos(src)?;
        let portal_cooldown = VarInt::decode(src)?;
        let sea_level = VarInt::decode(src)?;
        Ok(Self { entity_id, is_hardcore, dimension_names, max_players, view_distance, simulation_distance, reduced_debug_info, enable_respawn_screen, do_limited_crafting, dimension_type, dimension_name, hashed_seed, game_mode, previous_game_mode, is_debug, is_flat, death_location, portal_cooldown, sea_level })
    }
}

// ── ClientboundRespawn ────────────────────────────────────────────────

#[derive(Debug, Clone, PartialEq)]
pub struct ClientboundRespawn {
    pub dimension_type: VarInt,
    pub dimension_name: String,
    pub hashed_seed: i64,
    pub game_mode: u8,
    pub previous_game_mode: i8,
    pub is_debug: bool,
    pub is_flat: bool,
    pub data_kept: u8,
    pub death_location: Option<(String, i64)>,
    pub portal_cooldown: VarInt,
    pub sea_level: VarInt,
}

pub struct ClientboundRespawnView {
    pub dimension_type: VarInt,
    pub dimension_name: Seq<char>,
    pub hashed_seed: i64,
    pub game_mode: u8,
    pub previous_game_mode: i8,
    pub is_debug: bool,
    pub is_flat: bool,
    pub data_kept: u8,
    pub death_location: Option<(Seq<char>, i64)>,
    pub portal_cooldown: VarInt,
    pub sea_level: VarInt,
}

impl View for ClientboundRespawn {
    type V = ClientboundRespawnView;

    open spec fn view(&self) -> ClientboundRespawnView {
        ClientboundRespawnView {
            dimension_type: self.dimension_type,
            dimension_name: self.dimension_name@,
            hashed_seed: self.hashed_seed,
            game_mode: self.game_mode,
            previous_game_mode: self.previous_game_mode,
            is_debug: self.is_debug,
            is_flat: self.is_flat,
            data_kept: self.data_kept,
            death_location: dim_pos_view(self.death_location),
            portal_cooldown: self.portal_cooldown,
            sea_level: self.sea_level,
        }
    }
}

impl PacketId for ClientboundRespawn {
    open spec fn spec_packet_id(ver: u32) -> u8 {
        0x4B
    }

    fn packet_id(_ver: u32) -> (r: u8) {
        0x4B
    }
}

impl WireFormat for ClientboundRespawn {
    open spec fn spec_encode(p: ClientboundRespawnView) -> Seq<u8> {
        VarInt::spec_encode(p.dimension_type) + string_wire(p.dimension_name) + be_i64_bytes(p.hashed_seed) + seq![p.game_mode] + seq![p.previous_game_mode as u8] + seq![bool_byte(p.is_debug)] + seq![bool_byte(p.is_flat)] + seq![p.data_kept] + dim_pos_wire(p.death_location) + VarInt::spec_encode(p.portal_cooldown) + VarInt::spec_encode(p.sea_level)
    }

    open spec fn spec_decode(s: Seq<u8>) -> Parsed<ClientboundRespawnView> {
        then(VarInt::spec_decode(s), |dimension_type: VarInt, s: Seq<u8>| then(string_spec(s), |dimension_name: Seq<char>, s: Seq<u8>| then(need_spec(s, 8), |_u: (), s: Seq<u8>| then(take_i64(s), |hashed_seed: i64, s: Seq<u8>| then(need_spec(s, 4), |_u: (), s: Seq<u8>| then(take_u8(s), |game_mode: u8, s: Seq<u8>| then(take_i8(s), |previous_game_mode: i8, s: Seq<u8>| then(take_bool(s), |is_debug: bool, s: Seq<u8>| then(take_bool(s), |is_flat: bool, s: Seq<u8>| then(need_spec(s, 1), |_u: (), s: Seq<u8>| then(take_u8(s), |data_kept: u8, s: Seq<u8>| then(need_spec(s, 1), |_u: (), s: Seq<u8>| then(dim_pos_spec(s), |death_location: Option<(Seq<char>, i64)>, s: Seq<u8>| then(VarInt::spec_decode(s), |portal_cooldown: VarInt, s: Seq<u8>| then(VarInt::spec_decode(s), |sea_level: VarInt, s: Seq<u8>| (Ok(ClientboundRespawnView { dimension_type, dimension_name, hashed_seed, game_mode, previous_game_mode, is_debug, is_flat, data_kept, death_location, portal_cooldown, sea_level }), s))))))))))))))))
    }
}

impl Roundtrip for ClientboundRespawn {
    open spec fn encodable(p: ClientboundRespawnView) -> bool {
        string_fits(p.dimension_name) && dim_pos_fits(p.death_location)
    }

    open spec fn reads_to_end() -> bool {
        false
    }

    #[verifier::rlimit(100)]
    #[verifier::spinoff_prover]
    proof fn lemma_roundtrip(p: ClientboundRespawnView, rest: Seq<u8>) {
        broadcast use group_wire_roundtrip;

        let t10 = VarInt::spec_encode(p.sea_level) + rest;
        let t9 = VarInt::spec_encode(p.portal_cooldown) + t10;
        let t8 = dim_pos_wire(p.death_location) + t9;
        let t7 = seq![p.data_kept] + t8;
        let t6 = seq![bool_byte(p.is_flat)] + t7;
        let t5 = seq![bool_byte(p.is_debug)] + t6;
        let t4 = seq![p.previous_game_mode as u8] + t5;
        let t3 = seq![p.game_mode] + t4;
        let t2 = be_i64_bytes(p.hashed_seed) + t3;
        let t1 = string_wire(p.dimension_name) + t2;
        lemma_concat_associative(VarInt::spec_encode(p.dimension_type) + string_wire(p.dimension_name) + be_i64_bytes(p.hashed_seed) + seq![p.game_mode] + seq![p.previous_game_mode as u8] + seq![bool_byte(p.is_debug)] + seq![bool_byte(p.is_flat)] + seq![p.data_kept] + dim_pos_wire(p.death_location) + VarInt::spec_encode(p.portal_cooldown), VarInt::spec_encode(p.sea_level), rest);
        lemma_concat_associative(VarInt::spec_encode(p.dimension_type) + string_wire(p.dimension_name) + be_i64_bytes(p.hashed_seed) + seq![p.game_mode] + seq![p.previous_game_mode as u8] + seq![bool_byte(p.is_debug)] + seq![bool_byte(p.is_flat)] + seq![p.data_kept] + dim_pos_wire(p.death_location), VarInt::spec_encode(p.portal_cooldown), t10);
        lemma_concat_associative(VarInt::spec_encode(p.dimension_type) + string_wire(p.dimension_name) + be_i64_bytes(p.hashed_seed) + seq![p.game_mode] + seq![p.previous_game_mode as u8] + seq![bool_byte(p.is_debug)] + seq![bool_byte(p.is_flat)] + seq![p.data_kept], dim_pos_wire(p.death_location), t9);
        lemma_concat_associative(VarInt::spec_encode(p.dimension_type) + string_wire(p.dimension_name) + be_i64_bytes(p.hashed_seed) + seq![p.game_mode] + seq![p.previous_game_mode as u8] + seq![bool_byte(p.is_debug)] + seq![bool_byte(p.is_flat)], seq![p.data_kept], t8);
        lemma_concat_associative(VarInt::spec_encode(p.dimension_type) + string_wire(p.dimension_name) + be_i64_bytes(p.hashed_seed) + seq![p.game_mode] + seq![p.previous_game_mode as u8] + seq![bool_byte(p.is_debug)], seq![bool_byte(p.is_flat)], t7);
        lemma_concat_associative(VarInt::spec_encode(p.dimension_type) + string_wire(p.dimension_name) + be_i64_bytes(p.hashed_seed) + seq![p.game_mode] + seq![p.previous_game_mode as u8], seq![bool_byte(p.is_debug)], t6);
        lemma_concat_associative(VarInt::spec_encode(p.dimension_type) + string_wire(p.dimension_name) + be_i64_bytes(p.hashed_seed) + seq![p.game_mode], seq![p.previous_game_mode as u8], t5);
        lemma_concat_associative(VarInt::spec_encode(p.dimension_type) + string_wire(p.dimension_name) + be_i64_bytes(p.hashed_seed), seq![p.game_mode], t4);
        lemma_concat_associative(VarInt::spec_encode(p.dimension_type) + string_wire(p.dimension_name), be_i64_bytes(p.hashed_seed), t3);
        lemma_concat_associative(VarInt::spec_encode(p.dimension_type), string_wire(p.dimension_name), t2);
        VarInt::lemma_roundtrip(p.dimension_type, t1);
        lemma_string_field(p.dimension_name, t2);
        lemma_dim_pos_field(p.death_location, t9);
        VarInt::lemma_roundtrip(p.portal_cooldown, t10);
        VarInt::lemma_roundtrip(p.sea_level, rest);
    }
}

impl Encode for ClientboundRespawn {
    #[verifier::rlimit(100)]
    #[verifier::spinoff_prover]
    fn encode(&self, dst: &mut BytesMut) -> (r: Result<(), ProtocolError>) {
        let ghost d0 = bytes_mut_data(*dst);
        let _ = self.dimension_type.encode(dst);
        let ghost mut e: Seq<u8> = VarInt::spec_encode(self@.dimension_type);
        encode_string(self.dimension_name.as_str(), dst);
        proof {
            lemma_concat_associative(d0, e, string_wire(self@.dimension_name));
            e = e + string_wire(self@.dimension_name);
        }
        put_i64(dst, self.hashed_seed);
        proof {
            lemma_concat_associative(d0, e, be_i64_bytes(self@.hashed_seed));
            e = e + be_i64_bytes(self@.hashed_seed);
        }
        put_u8(dst, self.game_mode);
        proof {
            lemma_concat_associative(d0, e, seq![self@.game_mode]);
            e = e + seq![self@.game_mode];
        }
        put_i8(dst, self.previous_game_mode);
        proof {
            lemma_concat_associative(d0, e, seq![self@.previous_game_mode as u8]);
            e = e + seq![self@.previous_game_mode as u8];
        }
        put_u8(dst, self.is_debug as u8);
        proof {
            lemma_concat_associative(d0, e, seq![bool_byte(self@.is_debug)]);
            e = e + seq![bool_byte(self@.is_debug)];
        }
        put_u8(dst, self.is_flat as u8);
        proof {
            lemma_concat_associative(d0, e, seq![bool_byte(self@.is_flat)]);
            e = e + seq![bool_byte(self@.is_flat)];
        }
        put_u8(dst, self.data_kept);
        proof {
            lemma_concat_associative(d0, e, seq![self@.data_kept]);
            e = e + seq![self@.data_kept];
        }
        encode_dim_pos(&self.death_location, dst);
        proof {
            lemma_concat_associative(d0, e, dim_pos_wire(self@.death_location));
            e = e + dim_pos_wire(self@.death_location);
        }
        let _ = self.portal_cooldown.encode(dst);
        proof {
            lemma_concat_associative(d0, e, VarInt::spec_encode(self@.portal_cooldown));
            e = e + VarInt::spec_encode(self@.portal_cooldown);
        }
        let _ = self.sea_level.encode(dst);
        proof {
            lemma_concat_associative(d0, e, VarInt::spec_encode(self@.sea_level));
            e = e + VarInt::spec_encode(self@.sea_level);
        }
        Ok(())
    }
}

impl Decode for ClientboundRespawn {
    #[verifier::rlimit(100)]
    #[verifier::spinoff_prover]
    fn decode(src: &mut Bytes) -> (r: Result<Self, ProtocolError>) {
        let dimension_type = VarInt::decode(src)?;
        let dimension_name = decode_string(src)?;
        need(src, 8)?;
        let hashed_seed = get_i64(src);
        need(src, 4)?;
        let game_mode = get_u8(src);
        let previous_game_mode = get_i8(src);
        let is_debug = get_u8(src) != 0;
        let is_flat = get_u8(src) != 0;
        need(src, 1)?;
        let data_kept = get_u8(src);
        need(src, 1)?;
        let death_location = decode_dim_pos(src)?;
        let portal_cooldown = VarInt::decode(src)?;
        let sea_level = VarInt::decode(src)?;
        Ok(Self { dimension_type, dimension_name, hashed_seed, game_mode, previous_game_mode, is_debug, is_flat, data_kept, death_location, portal_cooldown, sea_level })
    }
}

// ── ClientboundSound ──────────────────────────────────────────────────

#[derive(Debug, Clone, PartialEq)]
pub struct ClientboundSound {
    pub sound_type: VarInt,
    pub sound_name: String,
    pub sound_category: VarInt,
    pub effect_pos_x: i32,
    pub effect_pos_y: i32,
    pub effect_pos_z: i32,
    /// The bits of the `f32` value (`f32::to_bits`).
    pub volume: u32,
    /// The bits of the `f32` value (`f32::to_bits`).
    pub pitch: u32,
    pub seed: i64,
}

pub struct ClientboundSoundView {
    pub sound_type: VarInt,
    pub sound_name: Seq<char>,
    pub sound_category: VarInt,
    pub effect_pos_x: i32,
    pub effect_pos_y: i32,
    pub effect_pos_z: i32,
    pub volume: u32,
    pub pitch: u32,
    pub seed: i64,
}

impl View for ClientboundSound {
    type V = ClientboundSoundView;

    open spec fn view(&self) -> ClientboundSoundView {
        ClientboundSoundView {
            sound_type: self.sound_type,
            sound_name: self.sound_name@,
            sound_category: self.sound_category,
            effect_pos_x: self.effect_pos_x,
            effect_pos_y: self.effect_pos_y,
            effect_pos_z: self.effect_pos_z,
            volume: self.volume,
            pitch: self.pitch,
            seed: self.seed,
        }
    }
}

impl PacketId for ClientboundSound {
    open spec fn spec_packet_id(ver: u32) -> u8 {
        0x67
    }

    fn packet_id(_ver: u32) -> (r: u8) {
        0x67
    }
}

impl WireFormat for ClientboundSound {
    open spec fn spec_encode(p: ClientboundSoundView) -> Seq<u8> {
        VarInt::spec_encode(p.sound_type) + string_wire(p.sound_name) + VarInt::spec_encode(p.sound_category) + be_i32_bytes(p.effect_pos_x) + be_i32_bytes(p.effect_pos_y) + be_i32_bytes(p.effect_pos_z) + be_u32_bytes(p.volume) + be_u32_bytes(p.pitch) + be_i64_bytes(p.seed)
    }

    open spec fn spec_decode(s: Seq<u8>) -> Parsed<ClientboundSoundView> {
        then(VarInt::spec_decode(s), |sound_type: VarInt, s: Seq<u8>| then(string_spec(s), |sound_name: Seq<char>, s: Seq<u8>| then(VarInt::spec_decode(s), |sound_category: VarInt, s: Seq<u8>| then(need_spec(s, 28), |_u: (), s: Seq<u8>| then(take_i32(s), |effect_pos_x: i32, s: Seq<u8>| then(take_i32(s), |effect_pos_y: i32, s: Seq<u8>| then(take_i32(s), |effect_pos_z: i32, s: Seq<u8>| then(take_u32(s), |volume: u32, s: Seq<u8>| then(take_u32(s), |pitch: u32, s: Seq<u8>| then(take_i64(s), |seed: i64, s: Seq<u8>| (Ok(ClientboundSoundView { sound_type, sound_name, sound_category, effect_pos_x, effect_pos_y, effect_pos_z, volume, pitch, seed }), s)))))))))))
    }
}

impl Roundtrip for ClientboundSound {
    open spec fn encodable(p: ClientboundSoundView) -> bool {
        string_fits(p.sound_name)
    }

    open spec fn reads_to_end() -> bool {
        false
    }

    #[verifier::rlimit(100)]
    #[verifier::spinoff_prover]
    proof fn lemma_roundtrip(p: ClientboundSoundView, rest: Seq<u8>) {
        broadcast use group_wire_roundtrip;

        let t8 = be_i64_bytes(p.seed) + rest;
        let t7 = be_u32_bytes(p.pitch) + t8;
        let t6 = be_u32_bytes(p.volume) + t7;
        let t5 = be_i32_bytes(p.effect_pos_z) + t6;
        let t4 = be_i32_bytes(p.effect_pos_y) + t5;
        let t3 = be_i32_bytes(p.effect_pos_x) + t4;
        let t2 = VarInt::spec_encode(p.sound_category) + t3;
        let t1 = string_wire(p.sound_name) + t2;
        lemma_concat_associative(VarInt::spec_encode(p.sound_type) + string_wire(p.sound_name) + VarInt::spec_encode(p.sound_category) + be_i32_bytes(p.effect_pos_x) + be_i32_bytes(p.effect_pos_y) + be_i32_bytes(p.effect_pos_z) + be_u32_bytes(p.volume) + be_u32_bytes(p.pitch), be_i64_bytes(p.seed), rest);
        lemma_concat_associative(VarInt::spec_encode(p.sound_type) + string_wire(p.sound_name) + VarInt::spec_encode(p.sound_category) + be_i32_bytes(p.effect_pos_x) + be_i32_bytes(p.effect_pos_y) + be_i32_bytes(p.effect_pos_z) + be_u32_bytes(p.volume), be_u32_bytes(p.pitch), t8);
        lemma_concat_associative(VarInt::spec_encode(p.sound_type) + string_wire(p.sound_name) + VarInt::spec_encode(p.sound_category) + be_i32_bytes(p.effect_pos_x) + be_i32_bytes(p.effect_pos_y) + be_i32_bytes(p.effect_pos_z), be_u32_bytes(p.volume), t7);
        lemma_concat_associative(VarInt::spec_encode(p.sound_type) + string_wire(p.sound_name) + VarInt::spec_encode(p.sound_category) + be_i32_bytes(p.effect_pos_x) + be_i32_bytes(p.effect_pos_y), be_i32_bytes(p.effect_pos_z), t6);
        lemma_concat_associative(VarInt::spec_encode(p.sound_type) + string_wire(p.sound_name) + VarInt::spec_encode(p.sound_category) + be_i32_bytes(p.effect_pos_x), be_i32_bytes(p.effect_pos_y), t5);
        lemma_concat_associative(VarInt::spec_encode(p.sound_type) + string_wire(p.sound_name) + VarInt::spec_encode(p.sound_category), be_i32_bytes(p.effect_pos_x), t4);
        lemma_concat_associative(VarInt::spec_encode(p.sound_type) + string_wire(p.sound_name), VarInt::spec_encode(p.sound_category), t3);
        lemma_concat_associative(VarInt::spec_encode(p.sound_type), string_wire(p.sound_name), t2);
        VarInt::lemma_roundtrip(p.sound_type, t1);
        lemma_string_field(p.sound_name, t2);
        VarInt::lemma_roundtrip(p.sound_category, t3);
    }
}

impl Encode for ClientboundSound {
    fn encode(&self, dst: &mut BytesMut) -> (r: Result<(), ProtocolError>) {
        let ghost d0 = bytes_mut_data(*dst);
        let _ = self.sound_type.encode(dst);
        let ghost mut e: Seq<u8> = VarInt::spec_encode(self@.sound_type);
        encode_string(self.sound_name.as_str(), dst);
        proof {
            lemma_concat_associative(d0, e, string_wire(self@.sound_name));
            e = e + string_wire(self@.sound_name);
        }
        let _ = self.sound_category.encode(dst);
        proof {
            lemma_concat_associative(d0, e, VarInt::spec_encode(self@.sound_category));
            e = e + VarInt::spec_encode(self@.sound_category);
        }
        put_i32(dst, self.effect_pos_x);
        proof {
            lemma_concat_associative(d0, e, be_i32_bytes(self@.effect_pos_x));
            e = e + be_i32_bytes(self@.effect_pos_x);
        }
        put_i32(dst, self.effect_pos_y);
        proof {
            lemma_concat_associative(d0, e, be_i32_bytes(self@.effect_pos_y));
            e = e + be_i32_bytes(self@.effect_pos_y);
        }
        put_i32(dst, self.effect_pos_z);
        proof {
            lemma_concat_associative(d0, e, be_i32_bytes(self@.effect_pos_z));
            e = e + be_i32_bytes(self@.effect_pos_z);
        }
        put_u32(dst, self.volume);
        proof {
            lemma_concat_associative(d0, e, be_u32_bytes(self@.volume));
            e = e + be_u32_bytes(self@.volume);
        }
        put_u32(dst, self.pitch);
        proof {
            lemma_concat_associative(d0, e, be_u32_bytes(self@.pitch));
            e = e + be_u32_bytes(self@.pitch);
        }
        put_i64(dst, self.seed);
        proof {
            lemma_concat_associative(d0, e, be_i64_bytes(self@.seed));
            e = e + be_i64_bytes(self@.seed);
        }
        Ok(())
    }
}

impl Decode for ClientboundSound {
    fn decode(src: &mut Bytes) -> (r: Result<Self, ProtocolError>) {
        let sound_type = VarInt::decode(src)?;
        let sound_name = decode_string(src)?;
        let sound_category = VarInt::decode(src)?;
        need(src, 28)?;
        let effect_pos_x = get_i32(src);
        let effect_pos_y = get_i32(src);
        let effect_pos_z = get_i32(src);
        let volume = get_u32(src);
        let pitch = get_u32(src);
        let seed = get_i64(src);
        Ok(Self { sound_type, sound_name, sound_category, effect_pos_x, effect_pos_y, effect_pos_z, volume, pitch, seed })
    }
}

// ── ClientboundDisconnect ─────────────────────────────────────────────

#[derive(Debug, Clone, PartialEq)]
pub struct ClientboundDisconnect {
    pub reason: String,
}

pub struct ClientboundDisconnectView {
    pub reason: Seq<char>,
}

impl View for ClientboundDisconnect {
    type V = ClientboundDisconnectView;

    open spec fn view(&self) -> ClientboundDisconnectView {
        ClientboundDisconnectView {
            reason: self.reason@,
        }
    }
}

impl PacketId for ClientboundDisconnect {
    open spec fn spec_packet_id(ver: u32) -> u8 {
        0x1E
    }

    fn packet_id(_ver: u32) -> (r: u8) {
        0x1E
    }
}

impl WireFormat for ClientboundDisconnect {
    open spec fn spec_encode(p: ClientboundDisconnectView) -> Seq<u8> {
        string_wire(p.reason)
    }

    open spec fn spec_decode(s: Seq<u8>) -> Parsed<ClientboundDisconnectView> {
        then(string_spec(s), |reason: Seq<char>, s: Seq<u8>| (Ok(ClientboundDisconnectView { reason }), s))
    }
}

impl Roundtrip for ClientboundDisconnect {
    open spec fn encodable(p: ClientboundDisconnectView) -> bool {
        string_fits(p.reason)
    }

    open spec fn reads_to_end() -> bool {
        false
    }

    proof fn lemma_roundtrip(p: ClientboundDisconnectView, rest: Seq<u8>) {
        broadcast use group_wire_roundtrip;

        lemma_string_field(p.reason, rest);
    }
}

impl Encode for ClientboundDisconnect {
    fn encode(&self, dst: &mut BytesMut) -> (r: Result<(), ProtocolError>) {
        let ghost d0 = bytes_mut_data(*dst);
        encode_string(self.reason.as_str(), dst);
        let ghost mut e: Seq<u8> = string_wire(self@.reason);
        Ok(())
    }
}

impl Decode for ClientboundDisconnect {
    fn decode(src: &mut Bytes) -> (r: Result<Self, ProtocolError>) {
        let reason = decode_string(src)?;
        Ok(Self { reason })
    }
}

// ── ClientboundBundle ─────────────────────────────────────────────────

#[derive(Debug, Clone, PartialEq)]
pub struct ClientboundBundle {
    pub raw: Vec<u8>,
}

pub struct ClientboundBundleView {
    pub raw: Seq<u8>,
}

impl View for ClientboundBundle {
    type V = ClientboundBundleView;

    open spec fn view(&self) -> ClientboundBundleView {
        ClientboundBundleView {
            raw: self.raw@,
        }
    }
}

impl PacketId for ClientboundBundle {
    open spec fn spec_packet_id(ver: u32) -> u8 {
        0x00
    }

    fn packet_id(_ver: u32) -> (r: u8) {
        0x00
    }
}

impl WireFormat for ClientboundBundle {
    open spec fn spec_encode(p: ClientboundBundleView) -> Seq<u8> {
        p.raw
    }

    open spec fn spec_decode(s: Seq<u8>) -> Parsed<ClientboundBundleView> {
        then(take_rest(s), |raw: Seq<u8>, s: Seq<u8>| (Ok(ClientboundBundleView { raw }), s))
    }
}

impl Roundtrip for ClientboundBundle {
    open spec fn encodable(p: ClientboundBundleView) -> bool {
        true
    }

    open spec fn reads_to_end() -> bool {
        true
    }

    proof fn lemma_roundtrip(p: ClientboundBundleView, rest: Seq<u8>) {
        broadcast use group_wire_roundtrip;

        assert(p.raw + rest =~= p.raw);
    }
}

impl Encode for ClientboundBundle {
    fn encode(&self, dst: &mut BytesMut) -> (r: Result<(), ProtocolError>) {
        let ghost d0 = bytes_mut_data(*dst);
        put_slice(dst, self.raw.as_slice());
        let ghost mut e: Seq<u8> = self@.raw;
        Ok(())
    }
}

impl Decode for ClientboundBundle {
    fn decode(src: &mut Bytes) -> (r: Result<Self, ProtocolError>) {
        let raw = take_remaining(src);
        Ok(Self { raw })
    }
}

// ── ClientboundSpawnEntity ────────────────────────────────────────────

#[derive(Debug, Clone, PartialEq)]
pub struct ClientboundSpawnEntity {
    pub raw: Vec<u8>,
}

pub struct ClientboundSpawnEntityView {
    pub raw: Seq<u8>,
}

impl View for ClientboundSpawnEntity {
    type V = ClientboundSpawnEntityView;

    open spec fn view(&self) -> ClientboundSpawnEntityView {
        ClientboundSpawnEntityView {
            raw: self.raw@,
        }
    }
}

impl PacketId for ClientboundSpawnEntity {
    open spec fn spec_packet_id(ver: u32) -> u8 {
        0x01
    }

    fn packet_id(_ver: u32) -> (r: u8) {
        0x01
    }
}

impl WireFormat for ClientboundSpawnEntity {
    open spec fn spec_encode(p: ClientboundSpawnEntityView) -> Seq<u8> {
        p.raw
    }

    open spec fn spec_decode(s: Seq<u8>) -> Parsed<ClientboundSpawnEntityView> {
        then(take_rest(s), |raw: Seq<u8>, s: Seq<u8>| (Ok(ClientboundSpawnEntityView { raw }), s))
    }
}

impl Roundtrip for ClientboundSpawnEntity {
    open spec fn encodable(p: ClientboundSpawnEntityView) -> bool {
        true
    }

    open spec fn reads_to_end() -> bool {
        true
    }

    proof fn lemma_roundtrip(p: ClientboundSpawnEntityView, rest: Seq<u8>) {
        broadcast use group_wire_roundtrip;

        assert(p.raw + rest =~= p.raw);
    }
}

impl Encode for ClientboundSpawnEntity {
    fn encode(&self, dst: &mut BytesMut) -> (r: Result<(), ProtocolError>) {
        let ghost d0 = bytes_mut_data(*dst);
        put_slice(dst, self.raw.as_slice());
        let ghost mut e: Seq<u8> = self@.raw;
        Ok(())
    }
}

impl Decode for ClientboundSpawnEntity {
    fn decode(src: &mut Bytes) -> (r: Result<Self, ProtocolError>) {
        let raw = take_remaining(src);
        Ok(Self { raw })
    }
}

// ── ClientboundSpawnExperienceOrb ─────────────────────────────────────

#[derive(Debug, Clone, PartialEq)]
pub struct ClientboundSpawnExperienceOrb {
    pub raw: Vec<u8>,
}

pub struct ClientboundSpawnExperienceOrbView {
    pub raw: Seq<u8>,
}

impl View for ClientboundSpawnExperienceOrb {
    type V = ClientboundSpawnExperienceOrbView;

    open spec fn view(&self) -> ClientboundSpawnExperienceOrbView {
        ClientboundSpawnExperienceOrbView {
            raw: self.raw@,
        }
    }
}

impl PacketId for ClientboundSpawnExperienceOrb {
    open spec fn spec_packet_id(ver: u32) -> u8 {
        0x02
    }

    fn packet_id(_ver: u32) -> (r: u8) {
        0x02
    }
}

impl WireFormat for ClientboundSpawnExperienceOrb {
    open spec fn spec_encode(p: ClientboundSpawnExperienceOrbView) -> Seq<u8> {
        p.raw
    }

    open spec fn spec_decode(s: Seq<u8>) -> Parsed<ClientboundSpawnExperienceOrbView> {
        then(take_rest(s), |raw: Seq<u8>, s: Seq<u8>| (Ok(ClientboundSpawnExperienceOrbView { raw }), s))
    }
}

impl Roundtrip for ClientboundSpawnExperienceOrb {
    open spec fn encodable(p: ClientboundSpawnExperienceOrbView) -> bool {
        true
    }

    open spec fn reads_to_end() -> bool {
        true
    }

    proof fn lemma_roundtrip(p: ClientboundSpawnExperienceOrbView, rest: Seq<u8>) {
        broadcast use group_wire_roundtrip;

        assert(p.raw + rest =~= p.raw);
    }
}

impl Encode for ClientboundSpawnExperienceOrb {
    fn encode(&self, dst: &mut BytesMut) -> (r: Result<(), ProtocolError>) {
        let ghost d0 = bytes_mut_data(*dst);
        put_slice(dst, self.raw.as_slice());
        let ghost mut e: Seq<u8> = self@.raw;
        Ok(())
    }
}

impl Decode for ClientboundSpawnExperienceOrb {
    fn decode(src: &mut Bytes) -> (r: Result<Self, ProtocolError>) {
        let raw = take_remaining(src);
        Ok(Self { raw })
    }
}

// ── ClientboundSpawnPlayer ────────────────────────────────────────────

#[derive(Debug, Clone, PartialEq)]
pub struct ClientboundSpawnPlayer {
    pub raw: Vec<u8>,
}

pub struct ClientboundSpawnPlayerView {
    pub raw: Seq<u8>,
}

impl View for ClientboundSpawnPlayer {
    type V = ClientboundSpawnPlayerView;

    open spec fn view(&self) -> ClientboundSpawnPlayerView {
        ClientboundSpawnPlayerView {
            raw: self.raw@,
        }
    }
}

impl PacketId for ClientboundSpawnPlayer {
    open spec fn spec_packet_id(ver: u32) -> u8 {
        0x03
    }

    fn packet_id(_ver: u32) -> (r: u8) {
        0x03
    }
}

impl WireFormat for ClientboundSpawnPlayer {
    open spec fn spec_encode(p: ClientboundSpawnPlayerView) -> Seq<u8> {
        p.raw
    }

    open spec fn spec_decode(s: Seq<u8>) -> Parsed<ClientboundSpawnPlayerView> {
        then(take_rest(s), |raw: Seq<u8>, s: Seq<u8>| (Ok(ClientboundSpawnPlayerView { raw }), s))
    }
}

impl Roundtrip for ClientboundSpawnPlayer {
    open spec fn encodable(p: ClientboundSpawnPlayerView) -> bool {
        true
    }

    open spec fn reads_to_end() -> bool {
        true
    }

    proof fn lemma_roundtrip(p: ClientboundSpawnPlayerView, rest: Seq<u8>) {
        broadcast use group_wire_roundtrip;

        assert(p.raw + rest =~= p.raw);
    }
}

impl Encode for ClientboundSpawnPlayer {
    fn encode(&self, dst: &mut BytesMut) -> (r: Result<(), ProtocolError>) {
        let ghost d0 = bytes_mut_data(*dst);
        put_slice(dst, self.raw.as_slice());
        let ghost mut e: Seq<u8> = self@.raw;
        Ok(())
    }
}

impl Decode for ClientboundSpawnPlayer {
    fn decode(src: &mut Bytes) -> (r: Result<Self, ProtocolError>) {
        let raw = take_remaining(src);
        Ok(Self { raw })
    }
}

// ── ClientboundEntityAnimation ────────────────────────────────────────

#[derive(Debug, Clone, PartialEq)]
pub struct ClientboundEntityAnimation {
    pub raw: Vec<u8>,
}

pub struct ClientboundEntityAnimationView {
    pub raw: Seq<u8>,
}

impl View for ClientboundEntityAnimation {
    type V = ClientboundEntityAnimationView;

    open spec fn view(&self) -> ClientboundEntityAnimationView {
        ClientboundEntityAnimationView {
            raw: self.raw@,
        }
    }
}

impl PacketId for ClientboundEntityAnimation {
    open spec fn spec_packet_id(ver: u32) -> u8 {
        0x04
    }

    fn packet_id(_ver: u32) -> (r: u8) {
        0x04
    }
}

impl WireFormat for ClientboundEntityAnimation {
    open spec fn spec_encode(p: ClientboundEntityAnimationView) -> Seq<u8> {
        p.raw
    }

    open spec fn spec_decode(s: Seq<u8>) -> Parsed<ClientboundEntityAnimationView> {
        then(take_rest(s), |raw: Seq<u8>, s: Seq<u8>| (Ok(ClientboundEntityAnimationView { raw }), s))
    }
}

impl Roundtrip for ClientboundEntityAnimation {
    open spec fn encodable(p: ClientboundEntityAnimationView) -> bool {
        true
    }

    open spec fn reads_to_end() -> bool {
        true
    }

    proof fn lemma_roundtrip(p: ClientboundEntityAnimationView, rest: Seq<u8>) {
        broadcast use group_wire_roundtrip;

        assert(p.raw + rest =~= p.raw);
    }
}

impl Encode for ClientboundEntityAnimation {
    fn encode(&self, dst: &mut BytesMut) -> (r: Result<(), ProtocolError>) {
        let ghost d0 = bytes_mut_data(*dst);
        put_slice(dst, self.raw.as_slice());
        let ghost mut e: Seq<u8> = self@.raw;
        Ok(())
    }
}

impl Decode for ClientboundEntityAnimation {
    fn decode(src: &mut Bytes) -> (r: Result<Self, ProtocolError>) {
        let raw = take_remaining(src);
        Ok(Self { raw })
    }
}

// ── ClientboundAwardStats ─────────────────────────────────────────────

#[derive(Debug, Clone, PartialEq)]
pub struct ClientboundAwardStats {
    pub raw: Vec<u8>,
}

pub struct ClientboundAwardStatsView {
    pub raw: Seq<u8>,
}

impl View for ClientboundAwardStats {
    type V = ClientboundAwardStatsView;

    open spec fn view(&self) -> ClientboundAwardStatsView {
        ClientboundAwardStatsView {
            raw: self.raw@,
        }
    }
}

impl PacketId for ClientboundAwardStats {
    open spec fn spec_packet_id(ver: u32) -> u8 {
        0x05
    }

    fn packet_id(_ver: u32) -> (r: u8) {
        0x05
    }
}

impl WireFormat for ClientboundAwardStats {
    open spec fn spec_encode(p: ClientboundAwardStatsView) -> Seq<u8> {
        p.raw
    }

    open spec fn spec_decode(s: Seq<u8>) -> Parsed<ClientboundAwardStatsView> {
        then(take_rest(s), |raw: Seq<u8>, s: Seq<u8>| (Ok(ClientboundAwardStatsView { raw }), s))
    }
}

impl Roundtrip for ClientboundAwardStats {
    open spec fn encodable(p: ClientboundAwardStatsView) -> bool {
        true
    }

    open spec fn reads_to_end() -> bool {
        true
    }

    proof fn lemma_roundtrip(p: ClientboundAwardStatsView, rest: Seq<u8>) {
        broadcast use group_wire_roundtrip;

        assert(p.raw + rest =~= p.raw);
    }
}

impl Encode for ClientboundAwardStats {
    fn encode(&self, dst: &mut BytesMut) -> (r: Result<(), ProtocolError>) {
        let ghost d0 = bytes_mut_data(*dst);
        put_slice(dst, self.raw.as_slice());
        let ghost mut e: Seq<u8> = self@.raw;
        Ok(())
    }
}

impl Decode for ClientboundAwardStats {
    fn decode(src: &mut Bytes) -> (r: Result<Self, ProtocolError>) {
        let raw = take_remaining(src);
        Ok(Self { raw })
    }
}

// ── ClientboundAcknowledgeBlockChange ─────────────────────────────────

#[derive(Debug, Clone, PartialEq)]
pub struct ClientboundAcknowledgeBlockChange {
    pub raw: Vec<u8>,
}

pub struct ClientboundAcknowledgeBlockChangeView {
    pub raw: Seq<u8>,
}

impl View for ClientboundAcknowledgeBlockChange {
    type V = ClientboundAcknowledgeBlockChangeView;

    open spec fn view(&self) -> ClientboundAcknowledgeBlockChangeView {
        ClientboundAcknowledgeBlockChangeView {
            raw: self.raw@,
        }
    }
}

impl PacketId for ClientboundAcknowledgeBlockChange {
    open spec fn spec_packet_id(ver: u32) -> u8 {
        0x06
    }

    fn packet_id(_ver: u32) -> (r: u8) {
        0x06
    }
}

impl WireFormat for ClientboundAcknowledgeBlockChange {
    open spec fn spec_encode(p: ClientboundAcknowledgeBlockChangeView) -> Seq<u8> {
        p.raw
    }

    open spec fn spec_decode(s: Seq<u8>) -> Parsed<ClientboundAcknowledgeBlockChangeView> {
        then(take_rest(s), |raw: Seq<u8>, s: Seq<u8>| (Ok(ClientboundAcknowledgeBlockChangeView { raw }), s))
    }
}

impl Roundtrip for ClientboundAcknowledgeBlockChange {
    open spec fn encodable(p: ClientboundAcknowledgeBlockChangeView) -> bool {
        true
    }

    open spec fn reads_to_end() -> bool {
        true
    }

    proof fn lemma_roundtrip(p: ClientboundAcknowledgeBlockChangeView, rest: Seq<u8>) {
        broadcast use group_wire_roundtrip;

        assert(p.raw + rest =~= p.raw);
    }
}

impl Encode for ClientboundAcknowledgeBlockChange {
    fn encode(&self, dst: &mut BytesMut) -> (r: Result<(), ProtocolError>) {
        let ghost d0 = bytes_mut_data(*dst);
        put_slice(dst, self.raw.as_slice());
        let ghost mut e: Seq<u8> = self@.raw;
        Ok(())
    }
}

impl Decode for ClientboundAcknowledgeBlockChange {
    fn decode(src: &mut Bytes) -> (r: Result<Self, ProtocolError>) {
        let raw = take_remaining(src);
        Ok(Self { raw })
    }
}

// ── ClientboundBlockDestroyStage ──────────────────────────────────────

#[derive(Debug, Clone, PartialEq)]
pub struct ClientboundBlockDestroyStage {
    pub raw: Vec<u8>,
}

pub struct ClientboundBlockDestroyStageView {
    pub raw: Seq<u8>,
}

impl View for ClientboundBlockDestroyStage {
    type V = ClientboundBlockDestroyStageView;

    open spec fn view(&self) -> ClientboundBlockDestroyStageView {
        ClientboundBlockDestroyStageView {
            raw: self.raw@,
        }
    }
}

impl PacketId for ClientboundBlockDestroyStage {
    open spec fn spec_packet_id(ver: u32) -> u8 {
        0x07
    }

    fn packet_id(_ver: u32) -> (r: u8) {
        0x07
    }
}

impl WireFormat for ClientboundBlockDestroyStage {
    open spec fn spec_encode(p: ClientboundBlockDestroyStageView) -> Seq<u8> {
        p.raw
    }

    open spec fn spec_decode(s: Seq<u8>) -> Parsed<ClientboundBlockDestroyStageView> {
        then(take_rest(s), |raw: Seq<u8>, s: Seq<u8>| (Ok(ClientboundBlockDestroyStageView { raw }), s))
    }
}

impl Roundtrip for ClientboundBlockDestroyStage {
    open spec fn encodable(p: ClientboundBlockDestroyStageView) -> bool {
        true
    }

    open spec fn reads_to_end() -> bool {
        true
    }

    proof fn lemma_roundtrip(p: ClientboundBlockDestroyStageView, rest: Seq<u8>) {
        broadcast use group_wire_roundtrip;

        assert(p.raw + rest =~= p.raw);
    }
}

impl Encode for ClientboundBlockDestroyStage {
    fn encode(&self, dst: &mut BytesMut) -> (r: Result<(), ProtocolError>) {
        let ghost d0 = bytes_mut_data(*dst);
        put_slice(dst, self.raw.as_slice());
        let ghost mut e: Seq<u8> = self@.raw;
        Ok(())
    }
}

impl Decode for ClientboundBlockDestroyStage {
    fn decode(src: &mut Bytes) -> (r: Result<Self, ProtocolError>) {
        let raw = take_remaining(src);
        Ok(Self { raw })
    }
}

// ── ClientboundBlockEntityData ────────────────────────────────────────

#[derive(Debug, Clone, PartialEq)]
pub struct ClientboundBlockEntityData {
    pub raw: Vec<u8>,
}

pub struct ClientboundBlockEntityDataView {
    pub raw: Seq<u8>,
}

impl View for ClientboundBlockEntityData {
    type V = ClientboundBlockEntityDataView;

    open spec fn view(&self) -> ClientboundBlockEntityDataView {
        ClientboundBlockEntityDataView {
            raw: self.raw@,
        }
    }
}

impl PacketId for ClientboundBlockEntityData {
    open spec fn spec_packet_id(ver: u32) -> u8 {
        0x08
    }

    fn packet_id(_ver: u32) -> (r: u8) {
        0x08
    }
}

impl WireFormat for ClientboundBlockEntityData {
    open spec fn spec_encode(p: ClientboundBlockEntityDataView) -> Seq<u8> {
        p.raw
    }

    open spec fn spec_decode(s: Seq<u8>) -> Parsed<ClientboundBlockEntityDataView> {
        then(take_rest(s), |raw: Seq<u8>, s: Seq<u8>| (Ok(ClientboundBlockEntityDataView { raw }), s))
    }
}

impl Roundtrip for ClientboundBlockEntityData {
    open spec fn encodable(p: ClientboundBlockEntityDataView) -> bool {
        true
    }

    open spec fn reads_to_end() -> bool {
        true
    }

    proof fn lemma_roundtrip(p: ClientboundBlockEntityDataView, rest: Seq<u8>) {
        broadcast use group_wire_roundtrip;

        assert(p.raw + rest =~= p.raw);
    }
}

impl Encode for ClientboundBlockEntityData {
    fn encode(&self, dst: &mut BytesMut) -> (r: Result<(), ProtocolError>) {
        let ghost d0 = bytes_mut_data(*dst);
        put_slice(dst, self.raw.as_slice());
        let ghost mut e: Seq<u8> = self@.raw;
        Ok(())
    }
}

impl Decode for ClientboundBlockEntityData {
    fn decode(src: &mut Bytes) -> (r: Result<Self, ProtocolError>) {
        let raw = take_remaining(src);
        Ok(Self { raw })
    }
}

// ── ClientboundBlockAction ────────────────────────────────────────────

#[derive(Debug, Clone, PartialEq)]
pub struct ClientboundBlockAction {
    pub raw: Vec<u8>,
}

pub struct ClientboundBlockActionView {
    pub raw: Seq<u8>,
}

impl View for ClientboundBlockAction {
    type V = ClientboundBlockActionView;

    open spec fn view(&self) -> ClientboundBlockActionView {
        ClientboundBlockActionView {
            raw: self.raw@,
        }
    }
}

impl PacketId for ClientboundBlockAction {
    open spec fn spec_packet_id(ver: u32) -> u8 {
        0x09
    }

    fn packet_id(_ver: u32) -> (r: u8) {
        0x09
    }
}

impl WireFormat for ClientboundBlockAction {
    open spec fn spec_encode(p: ClientboundBlockActionView) -> Seq<u8> {
        p.raw
    }

    open spec fn spec_decode(s: Seq<u8>) -> Parsed<ClientboundBlockActionView> {
        then(take_rest(s), |raw: Seq<u8>, s: Seq<u8>| (Ok(ClientboundBlockActionView { raw }), s))
    }
}

impl Roundtrip for ClientboundBlockAction {
    open spec fn encodable(p: ClientboundBlockActionView) -> bool {
        true
    }

    open spec fn reads_to_end() -> bool {
        true
    }

    proof fn lemma_roundtrip(p: ClientboundBlockActionView, rest: Seq<u8>) {
        broadcast use group_wire_roundtrip;

        assert(p.raw + rest =~= p.raw);
    }
}

impl Encode for ClientboundBlockAction {
    fn encode(&self, dst: &mut BytesMut) -> (r: Result<(), ProtocolError>) {
        let ghost d0 = bytes_mut_data(*dst);
        put_slice(dst, self.raw.as_slice());
        let ghost mut e: Seq<u8> = self@.raw;
        Ok(())
    }
}

impl Decode for ClientboundBlockAction {
    fn decode(src: &mut Bytes) -> (r: Result<Self, ProtocolError>) {
        let raw = take_remaining(src);
        Ok(Self { raw })
    }
}

// ── ClientboundBlockUpdate ────────────────────────────────────────────

#[derive(Debug, Clone, PartialEq)]
pub struct ClientboundBlockUpdate {
    pub raw: Vec<u8>,
}

pub struct ClientboundBlockUpdateView {
    pub raw: Seq<u8>,
}

impl View for ClientboundBlockUpdate {
    type V = ClientboundBlockUpdateView;

    open spec fn view(&self) -> ClientboundBlockUpdateView {
        ClientboundBlockUpdateView {
            raw: self.raw@,
        }
    }
}

impl PacketId for ClientboundBlockUpdate {
    open spec fn spec_packet_id(ver: u32) -> u8 {
        0x0A
    }

    fn packet_id(_ver: u32) -> (r: u8) {
        0x0A
    }
}

impl WireFormat for ClientboundBlockUpdate {
    open spec fn spec_encode(p: ClientboundBlockUpdateView) -> Seq<u8> {
        p.raw
    }

    open spec fn spec_decode(s: Seq<u8>) -> Parsed<ClientboundBlockUpdateView> {
        then(take_rest(s), |raw: Seq<u8>, s: Seq<u8>| (Ok(ClientboundBlockUpdateView { raw }), s))
    }
}

impl Roundtrip for ClientboundBlockUpdate {
    open spec fn encodable(p: ClientboundBlockUpdateView) -> bool {
        true
    }

    open spec fn reads_to_end() -> bool {
        true
    }

    proof fn lemma_roundtrip(p: ClientboundBlockUpdateView, rest: Seq<u8>) {
        broadcast use group_wire_roundtrip;

        assert(p.raw + rest =~= p.raw);
    }
}

impl Encode for ClientboundBlockUpdate {
    fn encode(&self, dst: &mut BytesMut) -> (r: Result<(), ProtocolError>) {
        let ghost d0 = bytes_mut_data(*dst);
        put_slice(dst, self.raw.as_slice());
        let ghost mut e: Seq<u8> = self@.raw;
        Ok(())
    }
}

impl Decode for ClientboundBlockUpdate {
    fn decode(src: &mut Bytes) -> (r: Result<Self, ProtocolError>) {
        let raw = take_remaining(src);
        Ok(Self { raw })
    }
}

// ── ClientboundBossBar ────────────────────────────────────────────────

#[derive(Debug, Clone, PartialEq)]
pub struct ClientboundBossBar {
    pub raw: Vec<u8>,
}

pub struct ClientboundBossBarView {
    pub raw: Seq<u8>,
}

impl View for ClientboundBossBar {
    type V = ClientboundBossBarView;

    open spec fn view(&self) -> ClientboundBossBarView {
        ClientboundBossBarView {
            raw: self.raw@,
        }
    }
}

impl PacketId for ClientboundBossBar {
    open spec fn spec_packet_id(ver: u32) -> u8 {
        0x0B
    }

    fn packet_id(_ver: u32) -> (r: u8) {
        0x0B
    }
}

impl WireFormat for ClientboundBossBar {
    open spec fn spec_encode(p: ClientboundBossBarView) -> Seq<u8> {
        p.raw
    }

    open spec fn spec_decode(s: Seq<u8>) -> Parsed<ClientboundBossBarView> {
        then(take_rest(s), |raw: Seq<u8>, s: Seq<u8>| (Ok(ClientboundBossBarView { raw }), s))
    }
}

impl Roundtrip for ClientboundBossBar {
    open spec fn encodable(p: ClientboundBossBarView) -> bool {
        true
    }

    open spec fn reads_to_end() -> bool {
        true
    }

    proof fn lemma_roundtrip(p: ClientboundBossBarView, rest: Seq<u8>) {
        broadcast use group_wire_roundtrip;

        assert(p.raw + rest =~= p.raw);
    }
}

impl Encode for ClientboundBossBar {
    fn encode(&self, dst: &mut BytesMut) -> (r: Result<(), ProtocolError>) {
        let ghost d0 = bytes_mut_data(*dst);
        put_slice(dst, self.raw.as_slice());
        let ghost mut e: Seq<u8> = self@.raw;
        Ok(())
    }
}

impl Decode for ClientboundBossBar {
    fn decode(src: &mut Bytes) -> (r: Result<Self, ProtocolError>) {
        let raw = take_remaining(src);
        Ok(Self { raw })
    }
}

// ── ClientboundChangeDifficulty ───────────────────────────────────────

#[derive(Debug, Clone, PartialEq)]
pub struct ClientboundChangeDifficulty {
    pub raw: Vec<u8>,
}

pub struct ClientboundChangeDifficultyView {
    pub raw: Seq<u8>,
}

impl View for ClientboundChangeDifficulty {
    type V = ClientboundChangeDifficultyView;

    open spec fn view(&self) -> ClientboundChangeDifficultyView {
        ClientboundChangeDifficultyView {
            raw: self.raw@,
        }
    }
}

impl PacketId for ClientboundChangeDifficulty {
    open spec fn spec_packet_id(ver: u32) -> u8 {
        0x0C
    }

    fn packet_id(_ver: u32) -> (r: u8) {
        0x0C
    }
}

impl WireFormat for ClientboundChangeDifficulty {
    open spec fn spec_encode(p: ClientboundChangeDifficultyView) -> Seq<u8> {
        p.raw
    }

    open spec fn spec_decode(s: Seq<u8>) -> Parsed<ClientboundChangeDifficultyView> {
        then(take_rest(s), |raw: Seq<u8>, s: Seq<u8>| (Ok(ClientboundChangeDifficultyView { raw }), s))
    }
}

impl Roundtrip for ClientboundChangeDifficulty {
    open spec fn encodable(p: ClientboundChangeDifficultyView) -> bool {
        true
    }

    open spec fn reads_to_end() -> bool {
        true
    }

    proof fn lemma_roundtrip(p: ClientboundChangeDifficultyView, rest: Seq<u8>) {
        broadcast use group_wire_roundtrip;

        assert(p.raw + rest =~= p.raw);
    }
}

impl Encode for ClientboundChangeDifficulty {
    fn encode(&self, dst: &mut BytesMut) -> (r: Result<(), ProtocolError>) {
        let ghost d0 = bytes_mut_data(*dst);
        put_slice(dst, self.raw.as_slice());
        let ghost mut e: Seq<u8> = self@.raw;
        Ok(())
    }
}

impl Decode for ClientboundChangeDifficulty {
    fn decode(src: &mut Bytes) -> (r: Result<Self, ProtocolError>) {
        let raw = take_remaining(src);
        Ok(Self { raw })
    }
}

// ── ClientboundChunkBatchFinished ─────────────────────────────────────

#[derive(Debug, Clone, PartialEq)]
pub struct ClientboundChunkBatchFinished {
    pub raw: Vec<u8>,
}

pub struct ClientboundChunkBatchFinishedView {
    pub raw: Seq<u8>,
}

impl View for ClientboundChunkBatchFinished {
    type V = ClientboundChunkBatchFinishedView;

    open spec fn view(&self) -> ClientboundChunkBatchFinishedView {
        ClientboundChunkBatchFinishedView {
            raw: self.raw@,
        }
    }
}

impl PacketId for ClientboundChunkBatchFinished {
    open spec fn spec_packet_id(ver: u32) -> u8 {
        0x0D
    }

    fn packet_id(_ver: u32) -> (r: u8) {
        0x0D
    }
}

impl WireFormat for ClientboundChunkBatchFinished {
    open spec fn spec_encode(p: ClientboundChunkBatchFinishedView) -> Seq<u8> {
        p.raw
    }

    open spec fn spec_decode(s: Seq<u8>) -> Parsed<ClientboundChunkBatchFinishedView> {
        then(take_rest(s), |raw: Seq<u8>, s: Seq<u8>| (Ok(ClientboundChunkBatchFinishedView { raw }), s))
    }
}

impl Roundtrip for ClientboundChunkBatchFinished {
    open spec fn encodable(p: ClientboundChunkBatchFinishedView) -> bool {
        true
    }

    open spec fn reads_to_end() -> bool {
        true
    }

    proof fn lemma_roundtrip(p: ClientboundChunkBatchFinishedView, rest: Seq<u8>) {
        broadcast use group_wire_roundtrip;

        assert(p.raw + rest =~= p.raw);
    }
}

impl Encode for ClientboundChunkBatchFinished {
    fn encode(&self, dst: &mut BytesMut) -> (r: Result<(), ProtocolError>) {
        let ghost d0 = bytes_mut_data(*dst);
        put_slice(dst, self.raw.as_slice());
        let ghost mut e: Seq<u8> = self@.raw;
        Ok(())
    }
}

impl Decode for ClientboundChunkBatchFinished {
    fn decode(src: &mut Bytes) -> (r: Result<Self, ProtocolError>) {
        let raw = take_remaining(src);
        Ok(Self { raw })
    }
}

// ── ClientboundChunkBatchStart ────────────────────────────────────────

#[derive(Debug, Clone, PartialEq)]
pub struct ClientboundChunkBatchStart {
    pub raw: Vec<u8>,
}

pub struct ClientboundChunkBatchStartView {
    pub raw: Seq<u8>,
}

impl View for ClientboundChunkBatchStart {
    type V = ClientboundChunkBatchStartView;

    open spec fn view(&self) -> ClientboundChunkBatchStartView {
        ClientboundChunkBatchStartView {
            raw: self.raw@,
        }
    }
}

impl PacketId for ClientboundChunkBatchStart {
    open spec fn spec_packet_id(ver: u32) -> u8 {
        0x0E
    }

    fn packet_id(_ver: u32) -> (r: u8) {
        0x0E
    }
}

impl WireFormat for ClientboundChunkBatchStart {
    open spec fn spec_encode(p: ClientboundChunkBatchStartView) -> Seq<u8> {
        p.raw
    }

    open spec fn spec_decode(s: Seq<u8>) -> Parsed<ClientboundChunkBatchStartView> {
        then(take_rest(s), |raw: Seq<u8>, s: Seq<u8>| (Ok(ClientboundChunkBatchStartView { raw }), s))
    }
}

impl Roundtrip for ClientboundChunkBatchStart {
    open spec fn encodable(p: ClientboundChunkBatchStartView) -> bool {
        true
    }

    open spec fn reads_to_end() -> bool {
        true
    }

    proof fn lemma_roundtrip(p: ClientboundChunkBatchStartView, rest: Seq<u8>) {
        broadcast use group_wire_roundtrip;

        assert(p.raw + rest =~= p.raw);
    }
}

impl Encode for ClientboundChunkBatchStart {
    fn encode(&self, dst: &mut BytesMut) -> (r: Result<(), ProtocolError>) {
        let ghost d0 = bytes_mut_data(*dst);
        put_slice(dst, self.raw.as_slice());
        let ghost mut e: Seq<u8> = self@.raw;
        Ok(())
    }
}

impl Decode for ClientboundChunkBatchStart {
    fn decode(src: &mut Bytes) -> (r: Result<Self, ProtocolError>) {
        let raw = take_remaining(src);
        Ok(Self { raw })
    }
}

// ── ClientboundChunkBiomes ────────────────────────────────────────────

#[derive(Debug, Clone, PartialEq)]
pub struct ClientboundChunkBiomes {
    pub raw: Vec<u8>,
}

pub struct ClientboundChunkBiomesView {
    pub raw: Seq<u8>,
}

impl View for ClientboundChunkBiomes {
    type V = ClientboundChunkBiomesView;

    open spec fn view(&self) -> ClientboundChunkBiomesView {
        ClientboundChunkBiomesView {
            raw: self.raw@,
        }
    }
}

impl PacketId for ClientboundChunkBiomes {
    open spec fn spec_packet_id(ver: u32) -> u8 {
        0x0F
    }

    fn packet_id(_ver: u32) -> (r: u8) {
        0x0F
    }
}

impl WireFormat for ClientboundChunkBiomes {
    open spec fn spec_encode(p: ClientboundChunkBiomesView) -> Seq<u8> {
        p.raw
    }

    open spec fn spec_decode(s: Seq<u8>) -> Parsed<ClientboundChunkBiomesView> {
        then(take_rest(s), |raw: Seq<u8>, s: Seq<u8>| (Ok(ClientboundChunkBiomesView { raw }), s))
    }
}

impl Roundtrip for ClientboundChunkBiomes {
    open spec fn encodable(p: ClientboundChunkBiomesView) -> bool {
        true
    }

    open spec fn reads_to_end() -> bool {
        true
    }

    proof fn lemma_roundtrip(p: ClientboundChunkBiomesView, rest: Seq<u8>) {
        broadcast use group_wire_roundtrip;

        assert(p.raw + rest =~= p.raw);
    }
}

impl Encode for ClientboundChunkBiomes {
    fn encode(&self, dst: &mut BytesMut) -> (r: Result<(), ProtocolError>) {
        let ghost d0 = bytes_mut_data(*dst);
        put_slice(dst, self.raw.as_slice());
        let ghost mut e: Seq<u8> = self@.raw;
        Ok(())
    }
}

impl Decode for ClientboundChunkBiomes {
    fn decode(src: &mut Bytes) -> (r: Result<Self, ProtocolError>) {
        let raw = take_remaining(src);
        Ok(Self { raw })
    }
}

// ── ClientboundClearTitles ────────────────────────────────────────────

#[derive(Debug, Clone, PartialEq)]
pub struct ClientboundClearTitles {
    pub raw: Vec<u8>,
}

pub struct ClientboundClearTitlesView {
    pub raw: Seq<u8>,
}

impl View for ClientboundClearTitles {
    type V = ClientboundClearTitlesView;

    open spec fn view(&self) -> ClientboundClearTitlesView {
        ClientboundClearTitlesView {
            raw: self.raw@,
        }
    }
}

impl PacketId for ClientboundClearTitles {
    open spec fn spec_packet_id(ver: u32) -> u8 {
        0x10
    }

    fn packet_id(_ver: u32) -> (r: u8) {
        0x10
    }
}

impl WireFormat for ClientboundClearTitles {
    open spec fn spec_encode(p: ClientboundClearTitlesView) -> Seq<u8> {
        p.raw
    }

    open spec fn spec_decode(s: Seq<u8>) -> Parsed<ClientboundClearTitlesView> {
        then(take_rest(s), |raw: Seq<u8>, s: Seq<u8>| (Ok(ClientboundClearTitlesView { raw }), s))
    }
}

impl Roundtrip for ClientboundClearTitles {
    open spec fn encodable(p: ClientboundClearTitlesView) -> bool {
        true
    }

    open spec fn reads_to_end() -> bool {
        true
    }

    proof fn lemma_roundtrip(p: ClientboundClearTitlesView, rest: Seq<u8>) {
        broadcast use group_wire_roundtrip;

        assert(p.raw + rest =~= p.raw);
    }
}

impl Encode for ClientboundClearTitles {
    fn encode(&self, dst: &mut BytesMut) -> (r: Result<(), ProtocolError>) {
        let ghost d0 = bytes_mut_data(*dst);
        put_slice(dst, self.raw.as_slice());
        let ghost mut e: Seq<u8> = self@.raw;
        Ok(())
    }
}

impl Decode for ClientboundClearTitles {
    fn decode(src: &mut Bytes) -> (r: Result<Self, ProtocolError>) {
        let raw = take_remaining(src);
        Ok(Self { raw })
    }
}

// ── ClientboundCommandSuggestions ─────────────────────────────────────

#[derive(Debug, Clone, PartialEq)]
pub struct ClientboundCommandSuggestions {
    pub raw: Vec<u8>,
}

pub struct ClientboundCommandSuggestionsView {
    pub raw: Seq<u8>,
}

impl View for ClientboundCommandSuggestions {
    type V = ClientboundCommandSuggestionsView;

    open spec fn view(&self) -> ClientboundCommandSuggestionsView {
        ClientboundCommandSuggestionsView {
            raw: self.raw@,
        }
    }
}

impl PacketId for ClientboundCommandSuggestions {
    open spec fn spec_packet_id(ver: u32) -> u8 {
        0x11
    }

    fn packet_id(_ver: u32) -> (r: u8) {
        0x11
    }
}

impl WireFormat for ClientboundCommandSuggestions {
    open spec fn spec_encode(p: ClientboundCommandSuggestionsView) -> Seq<u8> {
        p.raw
    }

    open spec fn spec_decode(s: Seq<u8>) -> Parsed<ClientboundCommandSuggestionsView> {
        then(take_rest(s), |raw: Seq<u8>, s: Seq<u8>| (Ok(ClientboundCommandSuggestionsView { raw }), s))
    }
}

impl Roundtrip for ClientboundCommandSuggestions {
    open spec fn encodable(p: ClientboundCommandSuggestionsView) -> bool {
        true
    }

    open spec fn reads_to_end() -> bool {
        true
    }

    proof fn lemma_roundtrip(p: ClientboundCommandSuggestionsView, rest: Seq<u8>) {
        broadcast use group_wire_roundtrip;

        assert(p.raw + rest =~= p.raw);
    }
}

impl Encode for ClientboundCommandSuggestions {
    fn encode(&self, dst: &mut BytesMut) -> (r: Result<(), ProtocolError>) {
        let ghost d0 = bytes_mut_data(*dst);
        put_slice(dst, self.raw.as_slice());
        let ghost mut e: Seq<u8> = self@.raw;
        Ok(())
    }
}

impl Decode for ClientboundCommandSuggestions {
    fn decode(src: &mut Bytes) -> (r: Result<Self, ProtocolError>) {
        let raw = take_remaining(src);
        Ok(Self { raw })
    }
}

// ── ClientboundCommands ───────────────────────────────────────────────

#[derive(Debug, Clone, PartialEq)]
pub struct ClientboundCommands {
    pub raw: Vec<u8>,
}

pub struct ClientboundCommandsView {
    pub raw: Seq<u8>,
}

impl View for ClientboundCommands {
    type V = ClientboundCommandsView;

    open spec fn view(&self) -> ClientboundCommandsView {
        ClientboundCommandsView {
            raw: self.raw@,
        }
    }
}

impl PacketId for ClientboundCommands {
    open spec fn spec_packet_id(ver: u32) -> u8 {
        0x12
    }

    fn packet_id(_ver: u32) -> (r: u8) {
        0x12
    }
}

impl WireFormat for ClientboundCommands {
    open spec fn spec_encode(p: ClientboundCommandsView) -> Seq<u8> {
        p.raw
    }

    open spec fn spec_decode(s: Seq<u8>) -> Parsed<ClientboundCommandsView> {
        then(take_rest(s), |raw: Seq<u8>, s: Seq<u8>| (Ok(ClientboundCommandsView { raw }), s))
    }
}

impl Roundtrip for ClientboundCommands {
    open spec fn encodable(p: ClientboundCommandsView) -> bool {
        true
    }

    open spec fn reads_to_end() -> bool {
        true
    }

    proof fn lemma_roundtrip(p: ClientboundCommandsView, rest: Seq<u8>) {
        broadcast use group_wire_roundtrip;

        assert(p.raw + rest =~= p.raw);
    }
}

impl Encode for ClientboundCommands {
    fn encode(&self, dst: &mut BytesMut) -> (r: Result<(), ProtocolError>) {
        let ghost d0 = bytes_mut_data(*dst);
        put_slice(dst, self.raw.as_slice());
        let ghost mut e: Seq<u8> = self@.raw;
        Ok(())
    }
}

impl Decode for ClientboundCommands {
    fn decode(src: &mut Bytes) -> (r: Result<Self, ProtocolError>) {
        let raw = take_remaining(src);
        Ok(Self { raw })
    }
}

// ── ClientboundContainerClose ─────────────────────────────────────────

#[derive(Debug, Clone, PartialEq)]
pub struct ClientboundContainerClose {
    pub raw: Vec<u8>,
}

pub struct ClientboundContainerCloseView {
    pub raw: Seq<u8>,
}

impl View for ClientboundContainerClose {
    type V = ClientboundContainerCloseView;

    open spec fn view(&self) -> ClientboundContainerCloseView {
        ClientboundContainerCloseView {
            raw: self.raw@,
        }
    }
}

impl PacketId for ClientboundContainerClose {
    open spec fn spec_packet_id(ver: u32) -> u8 {
        0x13
    }

    fn packet_id(_ver: u32) -> (r: u8) {
        0x13
    }
}

impl WireFormat for ClientboundContainerClose {
    open spec fn spec_encode(p: ClientboundContainerCloseView) -> Seq<u8> {
        p.raw
    }

    open spec fn spec_decode(s: Seq<u8>) -> Parsed<ClientboundContainerCloseView> {
        then(take_rest(s), |raw: Seq<u8>, s: Seq<u8>| (Ok(ClientboundContainerCloseView { raw }), s))
    }
}

impl Roundtrip for ClientboundContainerClose {
    open spec fn encodable(p: ClientboundContainerCloseView) -> bool {
        true
    }

    open spec fn reads_to_end() -> bool {
        true
    }

    proof fn lemma_roundtrip(p: ClientboundContainerCloseView, rest: Seq<u8>) {
        broadcast use group_wire_roundtrip;

        assert(p.raw + rest =~= p.raw);
    }
}

impl Encode for ClientboundContainerClose {
    fn encode(&self, dst: &mut BytesMut) -> (r: Result<(), ProtocolError>) {
        let ghost d0 = bytes_mut_data(*dst);
        put_slice(dst, self.raw.as_slice());
        let ghost mut e: Seq<u8> = self@.raw;
        Ok(())
    }
}

impl Decode for ClientboundContainerClose {
    fn decode(src: &mut Bytes) -> (r: Result<Self, ProtocolError>) {
        let raw = take_remaining(src);
        Ok(Self { raw })
    }
}

// ── ClientboundContainerSetProperty ───────────────────────────────────

#[derive(Debug, Clone, PartialEq)]
pub struct ClientboundContainerSetProperty {
    pub raw: Vec<u8>,
}

pub struct ClientboundContainerSetPropertyView {
    pub raw: Seq<u8>,
}

impl View for ClientboundContainerSetProperty {
    type V = ClientboundContainerSetPropertyView;

    open spec fn view(&self) -> ClientboundContainerSetPropertyView {
        ClientboundContainerSetPropertyView {
            raw: self.raw@,
        }
    }
}

impl PacketId for ClientboundContainerSetProperty {
    open spec fn spec_packet_id(ver: u32) -> u8 {
        0x15
    }

    fn packet_id(_ver: u32) -> (r: u8) {
        0x15
    }
}

impl WireFormat for ClientboundContainerSetProperty {
    open spec fn spec_encode(p: ClientboundContainerSetPropertyView) -> Seq<u8> {
        p.raw
    }

    open spec fn spec_decode(s: Seq<u8>) -> Parsed<ClientboundContainerSetPropertyView> {
        then(take_rest(s), |raw: Seq<u8>, s: Seq<u8>| (Ok(ClientboundContainerSetPropertyView { raw }), s))
    }
}

impl Roundtrip for ClientboundContainerSetProperty {
    open spec fn encodable(p: ClientboundContainerSetPropertyView) -> bool {
        true
    }

    open spec fn reads_to_end() -> bool {
        true
    }

    proof fn lemma_roundtrip(p: ClientboundContainerSetPropertyView, rest: Seq<u8>) {
        broadcast use group_wire_roundtrip;

        assert(p.raw + rest =~= p.raw);
    }
}

impl Encode for ClientboundContainerSetProperty {
    fn encode(&self, dst: &mut BytesMut) -> (r: Result<(), ProtocolError>) {
        let ghost d0 = bytes_mut_data(*dst);
        put_slice(dst, self.raw.as_slice());
        let ghost mut e: Seq<u8> = self@.raw;
        Ok(())
    }
}

impl Decode for ClientboundContainerSetProperty {
    fn decode(src: &mut Bytes) -> (r: Result<Self, ProtocolError>) {
        let raw = take_remaining(src);
        Ok(Self { raw })
    }
}

// ── ClientboundCookieRequest ──────────────────────────────────────────

#[derive(Debug, Clone, PartialEq)]
pub struct ClientboundCookieRequest {
    pub raw: Vec<u8>,
}

pub struct ClientboundCookieRequestView {
    pub raw: Seq<u8>,
}

impl View for ClientboundCookieRequest {
    type V = ClientboundCookieRequestView;

    open spec fn view(&self) -> ClientboundCookieRequestView {
        ClientboundCookieRequestView {
            raw: self.raw@,
        }
    }
}

impl PacketId for ClientboundCookieRequest {
    open spec fn spec_packet_id(ver: u32) -> u8 {
        0x17
    }

    fn packet_id(_ver: u32) -> (r: u8) {
        0x17
    }
}

impl WireFormat for ClientboundCookieRequest {
    open spec fn spec_encode(p: ClientboundCookieRequestView) -> Seq<u8> {
        p.raw
    }

    open spec fn spec_decode(s: Seq<u8>) -> Parsed<ClientboundCookieRequestView> {
        then(take_rest(s), |raw: Seq<u8>, s: Seq<u8>| (Ok(ClientboundCookieRequestView { raw }), s))
    }
}

impl Roundtrip for ClientboundCookieRequest {
    open spec fn encodable(p: ClientboundCookieRequestView) -> bool {
        true
    }

    open spec fn reads_to_end() -> bool {
        true
    }

    proof fn lemma_roundtrip(p: ClientboundCookieRequestView, rest: Seq<u8>) {
        broadcast use group_wire_roundtrip;

        assert(p.raw + rest =~= p.raw);
    }
}

impl Encode for ClientboundCookieRequest {
    fn encode(&self, dst: &mut BytesMut) -> (r: Result<(), ProtocolError>) {
        let ghost d0 = bytes_mut_data(*dst);
        put_slice(dst, self.raw.as_slice());
        let ghost mut e: Seq<u8> = self@.raw;
        Ok(())
    }
}

impl Decode for ClientboundCookieRequest {
    fn decode(src: &mut Bytes) -> (r: Result<Self, ProtocolError>) {
        let raw = take_remaining(src);
        Ok(Self { raw })
    }
}

// ── ClientboundCooldown ───────────────────────────────────────────────

#[derive(Debug, Clone, PartialEq)]
pub struct ClientboundCooldown {
    pub raw: Vec<u8>,
}

pub struct ClientboundCooldownView {
    pub raw: Seq<u8>,
}

impl View for ClientboundCooldown {
    type V = ClientboundCooldownView;

    open spec fn view(&self) -> ClientboundCooldownView {
        ClientboundCooldownView {
            raw: self.raw@,
        }
    }
}

impl PacketId for ClientboundCooldown {
    open spec fn spec_packet_id(ver: u32) -> u8 {
        0x18
    }

    fn packet_id(_ver: u32) -> (r: u8) {
        0x18
    }
}

impl WireFormat for ClientboundCooldown {
    open spec fn spec_encode(p: ClientboundCooldownView) -> Seq<u8> {
        p.raw
    }

    open spec fn spec_decode(s: Seq<u8>) -> Parsed<ClientboundCooldownView> {
        then(take_rest(s), |raw: Seq<u8>, s: Seq<u8>| (Ok(ClientboundCooldownView { raw }), s))
    }
}

impl Roundtrip for ClientboundCooldown {
    open spec fn encodable(p: ClientboundCooldownView) -> bool {
        true
    }

    open spec fn reads_to_end() -> bool {
        true
    }

    proof fn lemma_roundtrip(p: ClientboundCooldownView, rest: Seq<u8>) {
        broadcast use group_wire_roundtrip;

        assert(p.raw + rest =~= p.raw);
    }
}

impl Encode for ClientboundCooldown {
    fn encode(&self, dst: &mut BytesMut) -> (r: Result<(), ProtocolError>) {
        let ghost d0 = bytes_mut_data(*dst);
        put_slice(dst, self.raw.as_slice());
        let ghost mut e: Seq<u8> = self@.raw;
        Ok(())
    }
}

impl Decode for ClientboundCooldown {
    fn decode(src: &mut Bytes) -> (r: Result<Self, ProtocolError>) {
        let raw = take_remaining(src);
        Ok(Self { raw })
    }
}

// ── ClientboundCustomChatCompletions ──────────────────────────────────

#[derive(Debug, Clone, PartialEq)]
pub struct ClientboundCustomChatCompletions {
    pub raw: Vec<u8>,
}

pub struct ClientboundCustomChatCompletionsView {
    pub raw: Seq<u8>,
}

impl View for ClientboundCustomChatCompletions {
    type V = ClientboundCustomChatCompletionsView;

    open spec fn view(&self) -> ClientboundCustomChatCompletionsView {
        ClientboundCustomChatCompletionsView {
            raw: self.raw@,
        }
    }
}

impl PacketId for ClientboundCustomChatCompletions {
    open spec fn spec_packet_id(ver: u32) -> u8 {
        0x19
    }

    fn packet_id(_ver: u32) -> (r: u8) {
        0x19
    }
}

impl WireFormat for ClientboundCustomChatCompletions {
    open spec fn spec_encode(p: ClientboundCustomChatCompletionsView) -> Seq<u8> {
        p.raw
    }

    open spec fn spec_decode(s: Seq<u8>) -> Parsed<ClientboundCustomChatCompletionsView> {
        then(take_rest(s), |raw: Seq<u8>, s: Seq<u8>| (Ok(ClientboundCustomChatCompletionsView { raw }), s))
    }
}

impl Roundtrip for ClientboundCustomChatCompletions {
    open spec fn encodable(p: ClientboundCustomChatCompletionsView) -> bool {
        true
    }

    open spec fn reads_to_end() -> bool {
        true
    }

    proof fn lemma_roundtrip(p: ClientboundCustomChatCompletionsView, rest: Seq<u8>) {
        broadcast use group_wire_roundtrip;

        assert(p.raw + rest =~= p.raw);
    }
}

impl Encode for ClientboundCustomChatCompletions {
    fn encode(&self, dst: &mut BytesMut) -> (r: Result<(), ProtocolError>) {
        let ghost d0 = bytes_mut_data(*dst);
        put_slice(dst, self.raw.as_slice());
        let ghost mut e: Seq<u8> = self@.raw;
        Ok(())
    }
}

impl Decode for ClientboundCustomChatCompletions {
    fn decode(src: &mut Bytes) -> (r: Result<Self, ProtocolError>) {
        let raw = take_remaining(src);
        Ok(Self { raw })
    }
}

// ── ClientboundDamageEvent ────────────────────────────────────────────

#[derive(Debug, Clone, PartialEq)]
pub struct ClientboundDamageEvent {
    pub raw: Vec<u8>,
}

pub struct ClientboundDamageEventView {
    pub raw: Seq<u8>,
}

impl View for ClientboundDamageEvent {
    type V = ClientboundDamageEventView;

    open spec fn view(&self) -> ClientboundDamageEventView {
        ClientboundDamageEventView {
            raw: self.raw@,
        }
    }
}

impl PacketId for ClientboundDamageEvent {
    open spec fn spec_packet_id(ver: u32) -> u8 {
        0x1B
    }

    fn packet_id(_ver: u32) -> (r: u8) {
        0x1B
    }
}

impl WireFormat for ClientboundDamageEvent {
    open spec fn spec_encode(p: ClientboundDamageEventView) -> Seq<u8> {
        p.raw
    }

    open spec fn spec_decode(s: Seq<u8>) -> Parsed<ClientboundDamageEventView> {
        then(take_rest(s), |raw: Seq<u8>, s: Seq<u8>| (Ok(ClientboundDamageEventView { raw }), s))
    }
}

impl Roundtrip for ClientboundDamageEvent {
    open spec fn encodable(p: ClientboundDamageEventView) -> bool {
        true
    }

    open spec fn reads_to_end() -> bool {
        true
    }

    proof fn lemma_roundtrip(p: ClientboundDamageEventView, rest: Seq<u8>) {
        broadcast use group_wire_roundtrip;

        assert(p.raw + rest =~= p.raw);
    }
}

impl Encode for ClientboundDamageEvent {
    fn encode(&self, dst: &mut BytesMut) -> (r: Result<(), ProtocolError>) {
        let ghost d0 = bytes_mut_data(*dst);
        put_slice(dst, self.raw.as_slice());
        let ghost mut e: Seq<u8> = self@.raw;
        Ok(())
    }
}

impl Decode for ClientboundDamageEvent {
    fn decode(src: &mut Bytes) -> (r: Result<Self, ProtocolError>) {
        let raw = take_remaining(src);
        Ok(Self { raw })
    }
}

// ── ClientboundDebugSample ────────────────────────────────────────────

#[derive(Debug, Clone, PartialEq)]
pub struct ClientboundDebugSample {
    pub raw: Vec<u8>,
}

pub struct ClientboundDebugSampleView {
    pub raw: Seq<u8>,
}

impl View for ClientboundDebugSample {
    type V = ClientboundDebugSampleView;

    open spec fn view(&self) -> ClientboundDebugSampleView {
        ClientboundDebugSampleView {
            raw: self.raw@,
        }
    }
}

impl PacketId for ClientboundDebugSample {
    open spec fn spec_packet_id(ver: u32) -> u8 {
        0x1C
    }

    fn packet_id(_ver: u32) -> (r: u8) {
        0x1C
    }
}

impl WireFormat for ClientboundDebugSample {
    open spec fn spec_encode(p: ClientboundDebugSampleView) -> Seq<u8> {
        p.raw
    }

    open spec fn spec_decode(s: Seq<u8>) -> Parsed<ClientboundDebugSampleView> {
        then(take_rest(s), |raw: Seq<u8>, s: Seq<u8>| (Ok(ClientboundDebugSampleView { raw }), s))
    }
}

impl Roundtrip for ClientboundDebugSample {
    open spec fn encodable(p: ClientboundDebugSampleView) -> bool {
        true
    }

    open spec fn reads_to_end() -> bool {
        true
    }

    proof fn lemma_roundtrip(p: ClientboundDebugSampleView, rest: Seq<u8>) {
        broadcast use group_wire_roundtrip;

        assert(p.raw + rest =~= p.raw);
    }
}

impl Encode for ClientboundDebugSample {
    fn encode(&self, dst: &mut BytesMut) -> (r: Result<(), ProtocolError>) {
        let ghost d0 = bytes_mut_data(*dst);
        put_slice(dst, self.raw.as_slice());
        let ghost mut e: Seq<u8> = self@.raw;
        Ok(())
    }
}

impl Decode for ClientboundDebugSample {
    fn decode(src: &mut Bytes) -> (r: Result<Self, ProtocolError>) {
        let raw = take_remaining(src);
        Ok(Self { raw })
    }
}

// ── ClientboundDeleteChat ─────────────────────────────────────────────

#[derive(Debug, Clone, PartialEq)]
pub struct ClientboundDeleteChat {
    pub raw: Vec<u8>,
}

pub struct ClientboundDeleteChatView {
    pub raw: Seq<u8>,
}

impl View for ClientboundDeleteChat {
    type V = ClientboundDeleteChatView;

    open spec fn view(&self) -> ClientboundDeleteChatView {
        ClientboundDeleteChatView {
            raw: self.raw@,
        }
    }
}

impl PacketId for ClientboundDeleteChat {
    open spec fn spec_packet_id(ver: u32) -> u8 {
        0x1D
    }

    fn packet_id(_ver: u32) -> (r: u8) {
        0x1D
    }
}

impl WireFormat for ClientboundDeleteChat {
    open spec fn spec_encode(p: ClientboundDeleteChatView) -> Seq<u8> {
        p.raw
    }

    open spec fn spec_decode(s: Seq<u8>) -> Parsed<ClientboundDeleteChatView> {
        then(take_rest(s), |raw: Seq<u8>, s: Seq<u8>| (Ok(ClientboundDeleteChatView { raw }), s))
    }
}

impl Roundtrip for ClientboundDeleteChat {
    open spec fn encodable(p: ClientboundDeleteChatView) -> bool {
        true
    }

    open spec fn reads_to_end() -> bool {
        true
    }

    proof fn lemma_roundtrip(p: ClientboundDeleteChatView, rest: Seq<u8>) {
        broadcast use group_wire_roundtrip;

        assert(p.raw + rest =~= p.raw);
    }
}

impl Encode for ClientboundDeleteChat {
    fn encode(&self, dst: &mut BytesMut) -> (r: Result<(), ProtocolError>) {
        let ghost d0 = bytes_mut_data(*dst);
        put_slice(dst, self.raw.as_slice());
        let ghost mut e: Seq<u8> = self@.raw;
        Ok(())
    }
}

impl Decode for ClientboundDeleteChat {
    fn decode(src: &mut Bytes) -> (r: Result<Self, ProtocolError>) {
        let raw = take_remaining(src);
        Ok(Self { raw })
    }
}

// ── ClientboundDisguisedChat ──────────────────────────────────────────

#[derive(Debug, Clone, PartialEq)]
pub struct ClientboundDisguisedChat {
    pub raw: Vec<u8>,
}

pub struct ClientboundDisguisedChatView {
    pub raw: Seq<u8>,
}

impl View for ClientboundDisguisedChat {
    type V = ClientboundDisguisedChatView;

    open spec fn view(&self) -> ClientboundDisguisedChatView {
        ClientboundDisguisedChatView {
            raw: self.raw@,
        }
    }
}

impl PacketId for ClientboundDisguisedChat {
    open spec fn spec_packet_id(ver: u32) -> u8 {
        0x1F
    }

    fn packet_id(_ver: u32) -> (r: u8) {
        0x1F
    }
}

impl WireFormat for ClientboundDisguisedChat {
    open spec fn spec_encode(p: ClientboundDisguisedChatView) -> Seq<u8> {
        p.raw
    }

    open spec fn spec_decode(s: Seq<u8>) -> Parsed<ClientboundDisguisedChatView> {
        then(take_rest(s), |raw: Seq<u8>, s: Seq<u8>| (Ok(ClientboundDisguisedChatView { raw }), s))
    }
}

impl Roundtrip for ClientboundDisguisedChat {
    open spec fn encodable(p: ClientboundDisguisedChatView) -> bool {
        true
    }

    open spec fn reads_to_end() -> bool {
        true
    }

    proof fn lemma_roundtrip(p: ClientboundDisguisedChatView, rest: Seq<u8>) {
        broadcast use group_wire_roundtrip;

        assert(p.raw + rest =~= p.raw);
    }
}

impl Encode for ClientboundDisguisedChat {
    fn encode(&self, dst: &mut BytesMut) -> (r: Result<(), ProtocolError>) {
        let ghost d0 = bytes_mut_data(*dst);
        put_slice(dst, self.raw.as_slice());
        let ghost mut e: Seq<u8> = self@.raw;
        Ok(())
    }
}

impl Decode for ClientboundDisguisedChat {
    fn decode(src: &mut Bytes) -> (r: Result<Self, ProtocolError>) {
        let raw = take_remaining(src);
        Ok(Self { raw })
    }
}

// ── ClientboundEntityEvent ────────────────────────────────────────────

#[derive(Debug, Clone, PartialEq)]
pub struct ClientboundEntityEvent {
    pub raw: Vec<u8>,
}

pub struct ClientboundEntityEventView {
    pub raw: Seq<u8>,
}

impl View for ClientboundEntityEvent {
    type V = ClientboundEntityEventView;

    open spec fn view(&self) -> ClientboundEntityEventView {
        ClientboundEntityEventView {
            raw: self.raw@,
        }
    }
}

impl PacketId for ClientboundEntityEvent {
    open spec fn spec_packet_id(ver: u32) -> u8 {
        0x20
    }

    fn packet_id(_ver: u32) -> (r: u8) {
        0x20
    }
}

impl WireFormat for ClientboundEntityEvent {
    open spec fn spec_encode(p: ClientboundEntityEventView) -> Seq<u8> {
        p.raw
    }

    open spec fn spec_decode(s: Seq<u8>) -> Parsed<ClientboundEntityEventView> {
        then(take_rest(s), |raw: Seq<u8>, s: Seq<u8>| (Ok(ClientboundEntityEventView { raw }), s))
    }
}

impl Roundtrip for ClientboundEntityEvent {
    open spec fn encodable(p: ClientboundEntityEventView) -> bool {
        true
    }

    open spec fn reads_to_end() -> bool {
        true
    }

    proof fn lemma_roundtrip(p: ClientboundEntityEventView, rest: Seq<u8>) {
        broadcast use group_wire_roundtrip;

        assert(p.raw + rest =~= p.raw);
    }
}

impl Encode for ClientboundEntityEvent {
    fn encode(&self, dst: &mut BytesMut) -> (r: Result<(), ProtocolError>) {
        let ghost d0 = bytes_mut_data(*dst);
        put_slice(dst, self.raw.as_slice());
        let ghost mut e: Seq<u8> = self@.raw;
        Ok(())
    }
}

impl Decode for ClientboundEntityEvent {
    fn decode(src: &mut Bytes) -> (r: Result<Self, ProtocolError>) {
        let raw = take_remaining(src);
        Ok(Self { raw })
    }
}

// ── ClientboundExplosion ──────────────────────────────────────────────

#[derive(Debug, Clone, PartialEq)]
pub struct ClientboundExplosion {
    pub raw: Vec<u8>,
}

pub struct ClientboundExplosionView {
    pub raw: Seq<u8>,
}

impl View for ClientboundExplosion {
    type V = ClientboundExplosionView;

    open spec fn view(&self) -> ClientboundExplosionView {
        ClientboundExplosionView {
            raw: self.raw@,
        }
    }
}

impl PacketId for ClientboundExplosion {
    open spec fn spec_packet_id(ver: u32) -> u8 {
        0x21
    }

    fn packet_id(_ver: u32) -> (r: u8) {
        0x21
    }
}

impl WireFormat for ClientboundExplosion {
    open spec fn spec_encode(p: ClientboundExplosionView) -> Seq<u8> {
        p.raw
    }

    open spec fn spec_decode(s: Seq<u8>) -> Parsed<ClientboundExplosionView> {
        then(take_rest(s), |raw: Seq<u8>, s: Seq<u8>| (Ok(ClientboundExplosionView { raw }), s))
    }
}

impl Roundtrip for ClientboundExplosion {
    open spec fn encodable(p: ClientboundExplosionView) -> bool {
        true
    }

    open spec fn reads_to_end() -> bool {
        true
    }

    proof fn lemma_roundtrip(p: ClientboundExplosionView, rest: Seq<u8>) {
        broadcast use group_wire_roundtrip;

        assert(p.raw + rest =~= p.raw);
    }
}

impl Encode for ClientboundExplosion {
    fn encode(&self, dst: &mut BytesMut) -> (r: Result<(), ProtocolError>) {
        let ghost d0 = bytes_mut_data(*dst);
        put_slice(dst, self.raw.as_slice());
        let ghost mut e: Seq<u8> = self@.raw;
        Ok(())
    }
}

impl Decode for ClientboundExplosion {
    fn decode(src: &mut Bytes) -> (r: Result<Self, ProtocolError>) {
        let raw = take_remaining(src);
        Ok(Self { raw })
    }
}

// ── ClientboundForgetLevelChunk ───────────────────────────────────────

#[derive(Debug, Clone, PartialEq)]
pub struct ClientboundForgetLevelChunk {
    pub raw: Vec<u8>,
}

pub struct ClientboundForgetLevelChunkView {
    pub raw: Seq<u8>,
}

impl View for ClientboundForgetLevelChunk {
    type V = ClientboundForgetLevelChunkView;

    open spec fn view(&self) -> ClientboundForgetLevelChunkView {
        ClientboundForgetLevelChunkView {
            raw: self.raw@,
        }
    }
}

impl PacketId for ClientboundForgetLevelChunk {
    open spec fn spec_packet_id(ver: u32) -> u8 {
        0x22
    }

    fn packet_id(_ver: u32) -> (r: u8) {
        0x22
    }
}

impl WireFormat for ClientboundForgetLevelChunk {
    open spec fn spec_encode(p: ClientboundForgetLevelChunkView) -> Seq<u8> {
        p.raw
    }

    open spec fn spec_decode(s: Seq<u8>) -> Parsed<ClientboundForgetLevelChunkView> {
        then(take_rest(s), |raw: Seq<u8>, s: Seq<u8>| (Ok(ClientboundForgetLevelChunkView { raw }), s))
    }
}

impl Roundtrip for ClientboundForgetLevelChunk {
    open spec fn encodable(p: ClientboundForgetLevelChunkView) -> bool {
        true
    }

    open spec fn reads_to_end() -> bool {
        true
    }

    proof fn lemma_roundtrip(p: ClientboundForgetLevelChunkView, rest: Seq<u8>) {
        broadcast use group_wire_roundtrip;

        assert(p.raw + rest =~= p.raw);
    }
}

impl Encode for ClientboundForgetLevelChunk {
    fn encode(&self, dst: &mut BytesMut) -> (r: Result<(), ProtocolError>) {
        let ghost d0 = bytes_mut_data(*dst);
        put_slice(dst, self.raw.as_slice());
        let ghost mut e: Seq<u8> = self@.raw;
        Ok(())
    }
}

impl Decode for ClientboundForgetLevelChunk {
    fn decode(src: &mut Bytes) -> (r: Result<Self, ProtocolError>) {
        let raw = take_remaining(src);
        Ok(Self { raw })
    }
}

// ── ClientboundGameEvent ──────────────────────────────────────────────

#[derive(Debug, Clone, PartialEq)]
pub struct ClientboundGameEvent {
    pub raw: Vec<u8>,
}

pub struct ClientboundGameEventView {
    pub raw: Seq<u8>,
}

impl View for ClientboundGameEvent {
    type V = ClientboundGameEventView;

    open spec fn view(&self) -> ClientboundGameEventView {
        ClientboundGameEventView {
            raw: self.raw@,
        }
    }
}

impl PacketId for ClientboundGameEvent {
    open spec fn spec_packet_id(ver: u32) -> u8 {
        0x23
    }

    fn packet_id(_ver: u32) -> (r: u8) {
        0x23
    }
}

impl WireFormat for ClientboundGameEvent {
    open spec fn spec_encode(p: ClientboundGameEventView) -> Seq<u8> {
        p.raw
    }

    open spec fn spec_decode(s: Seq<u8>) -> Parsed<ClientboundGameEventView> {
        then(take_rest(s), |raw: Seq<u8>, s: Seq<u8>| (Ok(ClientboundGameEventView { raw }), s))
    }
}

impl Roundtrip for ClientboundGameEvent {
    open spec fn encodable(p: ClientboundGameEventView) -> bool {
        true
    }

    open spec fn reads_to_end() -> bool {
        true
    }

    proof fn lemma_roundtrip(p: ClientboundGameEventView, rest: Seq<u8>) {
        broadcast use group_wire_roundtrip;

        assert(p.raw + rest =~= p.raw);
    }
}

impl Encode for ClientboundGameEvent {
    fn encode(&self, dst: &mut BytesMut) -> (r: Result<(), ProtocolError>) {
        let ghost d0 = bytes_mut_data(*dst);
        put_slice(dst, self.raw.as_slice());
        let ghost mut e: Seq<u8> = self@.raw;
        Ok(())
    }
}

impl Decode for ClientboundGameEvent {
    fn decode(src: &mut Bytes) -> (r: Result<Self, ProtocolError>) {
        let raw = take_remaining(src);
        Ok(Self { raw })
    }
}

// ── ClientboundHorseScreenOpen ────────────────────────────────────────

#[derive(Debug, Clone, PartialEq)]
pub struct ClientboundHorseScreenOpen {
    pub raw: Vec<u8>,
}

pub struct ClientboundHorseScreenOpenView {
    pub raw: Seq<u8>,
}

impl View for ClientboundHorseScreenOpen {
    type V = ClientboundHorseScreenOpenView;

    open spec fn view(&self) -> ClientboundHorseScreenOpenView {
        ClientboundHorseScreenOpenView {
            raw: self.raw@,
        }
    }
}

impl PacketId for ClientboundHorseScreenOpen {
    open spec fn spec_packet_id(ver: u32) -> u8 {
        0x24
    }

    fn packet_id(_ver: u32) -> (r: u8) {
        0x24
    }
}

impl WireFormat for ClientboundHorseScreenOpen {
    open spec fn spec_encode(p: ClientboundHorseScreenOpenView) -> Seq<u8> {
        p.raw
    }

    open spec fn spec_decode(s: Seq<u8>) -> Parsed<ClientboundHorseScreenOpenView> {
        then(take_rest(s), |raw: Seq<u8>, s: Seq<u8>| (Ok(ClientboundHorseScreenOpenView { raw }), s))
    }
}

impl Roundtrip for ClientboundHorseScreenOpen {
    open spec fn encodable(p: ClientboundHorseScreenOpenView) -> bool {
        true
    }

    open spec fn reads_to_end() -> bool {
        true
    }

    proof fn lemma_roundtrip(p: ClientboundHorseScreenOpenView, rest: Seq<u8>) {
        broadcast use group_wire_roundtrip;

        assert(p.raw + rest =~= p.raw);
    }
}

impl Encode for ClientboundHorseScreenOpen {
    fn encode(&self, dst: &mut BytesMut) -> (r: Result<(), ProtocolError>) {
        let ghost d0 = bytes_mut_data(*dst);
        put_slice(dst, self.raw.as_slice());
        let ghost mut e: Seq<u8> = self@.raw;
        Ok(())
    }
}

impl Decode for ClientboundHorseScreenOpen {
    fn decode(src: &mut Bytes) -> (r: Result<Self, ProtocolError>) {
        let raw = take_remaining(src);
        Ok(Self { raw })
    }
}

// ── ClientboundHurtAnimation ──────────────────────────────────────────

#[derive(Debug, Clone, PartialEq)]
pub struct ClientboundHurtAnimation {
    pub raw: Vec<u8>,
}

pub struct ClientboundHurtAnimationView {
    pub raw: Seq<u8>,
}

impl View for ClientboundHurtAnimation {
    type V = ClientboundHurtAnimationView;

    open spec fn view(&self) -> ClientboundHurtAnimationView {
        ClientboundHurtAnimationView {
            raw: self.raw@,
        }
    }
}

impl PacketId for ClientboundHurtAnimation {
    open spec fn spec_packet_id(ver: u32) -> u8 {
        0x25
    }

    fn packet_id(_ver: u32) -> (r: u8) {
        0x25
    }
}

impl WireFormat for ClientboundHurtAnimation {
    open spec fn spec_encode(p: ClientboundHurtAnimationView) -> Seq<u8> {
        p.raw
    }

    open spec fn spec_decode(s: Seq<u8>) -> Parsed<ClientboundHurtAnimationView> {
        then(take_rest(s), |raw: Seq<u8>, s: Seq<u8>| (Ok(ClientboundHurtAnimationView { raw }), s))
    }
}

impl Roundtrip for ClientboundHurtAnimation {
    open spec fn encodable(p: ClientboundHurtAnimationView) -> bool {
        true
    }

    open spec fn reads_to_end() -> bool {
        true
    }

    proof fn lemma_roundtrip(p: ClientboundHurtAnimationView, rest: Seq<u8>) {
        broadcast use group_wire_roundtrip;

        assert(p.raw + rest =~= p.raw);
    }
}

impl Encode for ClientboundHurtAnimation {
    fn encode(&self, dst: &mut BytesMut) -> (r: Result<(), ProtocolError>) {
        let ghost d0 = bytes_mut_data(*dst);
        put_slice(dst, self.raw.as_slice());
        let ghost mut e: Seq<u8> = self@.raw;
        Ok(())
    }
}

impl Decode for ClientboundHurtAnimation {
    fn decode(src: &mut Bytes) -> (r: Result<Self, ProtocolError>) {
        let raw = take_remaining(src);
        Ok(Self { raw })
    }
}

// ── ClientboundInitializeBorder ───────────────────────────────────────

#[derive(Debug, Clone, PartialEq)]
pub struct ClientboundInitializeBorder {
    pub raw: Vec<u8>,
}

pub struct ClientboundInitializeBorderView {
    pub raw: Seq<u8>,
}

impl View for ClientboundInitializeBorder {
    type V = ClientboundInitializeBorderView;

    open spec fn view(&self) -> ClientboundInitializeBorderView {
        ClientboundInitializeBorderView {
            raw: self.raw@,
        }
    }
}

impl PacketId for ClientboundInitializeBorder {
    open spec fn spec_packet_id(ver: u32) -> u8 {
        0x26
    }

    fn packet_id(_ver: u32) -> (r: u8) {
        0x26
    }
}

impl WireFormat for ClientboundInitializeBorder {
    open spec fn spec_encode(p: ClientboundInitializeBorderView) -> Seq<u8> {
        p.raw
    }

    open spec fn spec_decode(s: Seq<u8>) -> Parsed<ClientboundInitializeBorderView> {
        then(take_rest(s), |raw: Seq<u8>, s: Seq<u8>| (Ok(ClientboundInitializeBorderView { raw }), s))
    }
}

impl Roundtrip for ClientboundInitializeBorder {
    open spec fn encodable(p: ClientboundInitializeBorderView) -> bool {
        true
    }

    open spec fn reads_to_end() -> bool {
        true
    }

    proof fn lemma_roundtrip(p: ClientboundInitializeBorderView, rest: Seq<u8>) {
        broadcast use group_wire_roundtrip;

        assert(p.raw + rest =~= p.raw);
    }
}

impl Encode for ClientboundInitializeBorder {
    fn encode(&self, dst: &mut BytesMut) -> (r: Result<(), ProtocolError>) {
        let ghost d0 = bytes_mut_data(*dst);
        put_slice(dst, self.raw.as_slice());
        let ghost mut e: Seq<u8> = self@.raw;
        Ok(())
    }
}

impl Decode for ClientboundInitializeBorder {
    fn decode(src: &mut Bytes) -> (r: Result<Self, ProtocolError>) {
        let raw = take_remaining(src);
        Ok(Self { raw })
    }
}

// ── ClientboundLevelChunkWithLight ────────────────────────────────────

#[derive(Debug, Clone, PartialEq)]
pub struct ClientboundLevelChunkWithLight {
    pub raw: Vec<u8>,
}

pub struct ClientboundLevelChunkWithLightView {
    pub raw: Seq<u8>,
}

impl View for ClientboundLevelChunkWithLight {
    type V = ClientboundLevelChunkWithLightView;

    open spec fn view(&self) -> ClientboundLevelChunkWithLightView {
        ClientboundLevelChunkWithLightView {
            raw: self.raw@,
        }
    }
}

impl PacketId for ClientboundLevelChunkWithLight {
    open spec fn spec_packet_id(ver: u32) -> u8 {
        0x2A
    }

    fn packet_id(_ver: u32) -> (r: u8) {
        0x2A
    }
}

impl WireFormat for ClientboundLevelChunkWithLight {
    open spec fn spec_encode(p: ClientboundLevelChunkWithLightView) -> Seq<u8> {
        p.raw
    }

    open spec fn spec_decode(s: Seq<u8>) -> Parsed<ClientboundLevelChunkWithLightView> {
        then(take_rest(s), |raw: Seq<u8>, s: Seq<u8>| (Ok(ClientboundLevelChunkWithLightView { raw }), s))
    }
}

impl Roundtrip for ClientboundLevelChunkWithLight {
    open spec fn encodable(p: ClientboundLevelChunkWithLightView) -> bool {
        true
    }

    open spec fn reads_to_end() -> bool {
        true
    }

    proof fn lemma_roundtrip(p: ClientboundLevelChunkWithLightView, rest: Seq<u8>) {
        broadcast use group_wire_roundtrip;

        assert(p.raw + rest =~= p.raw);
    }
}

impl Encode for ClientboundLevelChunkWithLight {
    fn encode(&self, dst: &mut BytesMut) -> (r: Result<(), ProtocolError>) {
        let ghost d0 = bytes_mut_data(*dst);
        put_slice(dst, self.raw.as_slice());
        let ghost mut e: Seq<u8> = self@.raw;
        Ok(())
    }
}

impl Decode for ClientboundLevelChunkWithLight {
    fn decode(src: &mut Bytes) -> (r: Result<Self, ProtocolError>) {
        let raw = take_remaining(src);
        Ok(Self { raw })
    }
}

// ── ClientboundLevelEvent ─────────────────────────────────────────────

#[derive(Debug, Clone, PartialEq)]
pub struct ClientboundLevelEvent {
    pub raw: Vec<u8>,
}

pub struct ClientboundLevelEventView {
    pub raw: Seq<u8>,
}

impl View for ClientboundLevelEvent {
    type V = ClientboundLevelEventView;

    open spec fn view(&self) -> ClientboundLevelEventView {
        ClientboundLevelEventView {
            raw: self.raw@,
        }
    }
}

impl PacketId for ClientboundLevelEvent {
    open spec fn spec_packet_id(ver: u32) -> u8 {
        0x2B
    }

    fn packet_id(_ver: u32) -> (r: u8) {
        0x2B
    }
}

impl WireFormat for ClientboundLevelEvent {
    open spec fn spec_encode(p: ClientboundLevelEventView) -> Seq<u8> {
        p.raw
    }

    open spec fn spec_decode(s: Seq<u8>) -> Parsed<ClientboundLevelEventView> {
        then(take_rest(s), |raw: Seq<u8>, s: Seq<u8>| (Ok(ClientboundLevelEventView { raw }), s))
    }
}

impl Roundtrip for ClientboundLevelEvent {
    open spec fn encodable(p: ClientboundLevelEventView) -> bool {
        true
    }

    open spec fn reads_to_end() -> bool {
        true
    }

    proof fn lemma_roundtrip(p: ClientboundLevelEventView, rest: Seq<u8>) {
        broadcast use group_wire_roundtrip;

        assert(p.raw + rest =~= p.raw);
    }
}

impl Encode for ClientboundLevelEvent {
    fn encode(&self, dst: &mut BytesMut) -> (r: Result<(), ProtocolError>) {
        let ghost d0 = bytes_mut_data(*dst);
        put_slice(dst, self.raw.as_slice());
        let ghost mut e: Seq<u8> = self@.raw;
        Ok(())
    }
}

impl Decode for ClientboundLevelEvent {
    fn decode(src: &mut Bytes) -> (r: Result<Self, ProtocolError>) {
        let raw = take_remaining(src);
        Ok(Self { raw })
    }
}

// ── ClientboundLevelParticles ─────────────────────────────────────────

#[derive(Debug, Clone, PartialEq)]
pub struct ClientboundLevelParticles {
    pub raw: Vec<u8>,
}

pub struct ClientboundLevelParticlesView {
    pub raw: Seq<u8>,
}

impl View for ClientboundLevelParticles {
    type V = ClientboundLevelParticlesView;

    open spec fn view(&self) -> ClientboundLevelParticlesView {
        ClientboundLevelParticlesView {
            raw: self.raw@,
        }
    }
}

impl PacketId for ClientboundLevelParticles {
    open spec fn spec_packet_id(ver: u32) -> u8 {
        0x2C
    }

    fn packet_id(_ver: u32) -> (r: u8) {
        0x2C
    }
}

impl WireFormat for ClientboundLevelParticles {
    open spec fn spec_encode(p: ClientboundLevelParticlesView) -> Seq<u8> {
        p.raw
    }

    open spec fn spec_decode(s: Seq<u8>) -> Parsed<ClientboundLevelParticlesView> {
        then(take_rest(s), |raw: Seq<u8>, s: Seq<u8>| (Ok(ClientboundLevelParticlesView { raw }), s))
    }
}

impl Roundtrip for ClientboundLevelParticles {
    open spec fn encodable(p: ClientboundLevelParticlesView) -> bool {
        true
    }

    open spec fn reads_to_end() -> bool {
        true
    }

    proof fn lemma_roundtrip(p: ClientboundLevelParticlesView, rest: Seq<u8>) {
        broadcast use group_wire_roundtrip;

        assert(p.raw + rest =~= p.raw);
    }
}

impl Encode for ClientboundLevelParticles {
    fn encode(&self, dst: &mut BytesMut) -> (r: Result<(), ProtocolError>) {
        let ghost d0 = bytes_mut_data(*dst);
        put_slice(dst, self.raw.as_slice());
        let ghost mut e: Seq<u8> = self@.raw;
        Ok(())
    }
}

impl Decode for ClientboundLevelParticles {
    fn decode(src: &mut Bytes) -> (r: Result<Self, ProtocolError>) {
        let raw = take_remaining(src);
        Ok(Self { raw })
    }
}

// ── ClientboundLightUpdate ────────────────────────────────────────────

#[derive(Debug, Clone, PartialEq)]
pub struct ClientboundLightUpdate {
    pub raw: Vec<u8>,
}

pub struct ClientboundLightUpdateView {
    pub raw: Seq<u8>,
}

impl View for ClientboundLightUpdate {
    type V = ClientboundLightUpdateView;

    open spec fn view(&self) -> ClientboundLightUpdateView {
        ClientboundLightUpdateView {
            raw: self.raw@,
        }
    }
}

impl PacketId for ClientboundLightUpdate {
    open spec fn spec_packet_id(ver: u32) -> u8 {
        0x2D
    }

    fn packet_id(_ver: u32) -> (r: u8) {
        0x2D
    }
}

impl WireFormat for ClientboundLightUpdate {
    open spec fn spec_encode(p: ClientboundLightUpdateView) -> Seq<u8> {
        p.raw
    }

    open spec fn spec_decode(s: Seq<u8>) -> Parsed<ClientboundLightUpdateView> {
        then(take_rest(s), |raw: Seq<u8>, s: Seq<u8>| (Ok(ClientboundLightUpdateView { raw }), s))
    }
}

impl Roundtrip for ClientboundLightUpdate {
    open spec fn encodable(p: ClientboundLightUpdateView) -> bool {
        true
    }

    open spec fn reads_to_end() -> bool {
        true
    }

    proof fn lemma_roundtrip(p: ClientboundLightUpdateView, rest: Seq<u8>) {
        broadcast use group_wire_roundtrip;

        assert(p.raw + rest =~= p.raw);
    }
}

impl Encode for ClientboundLightUpdate {
    fn encode(&self, dst: &mut BytesMut) -> (r: Result<(), ProtocolError>) {
        let ghost d0 = bytes_mut_data(*dst);
        put_slice(dst, self.raw.as_slice());
        let ghost mut e: Seq<u8> = self@.raw;
        Ok(())
    }
}

impl Decode for ClientboundLightUpdate {
    fn decode(src: &mut Bytes) -> (r: Result<Self, ProtocolError>) {
        let raw = take_remaining(src);
        Ok(Self { raw })
    }
}

// ── ClientboundMapItemData ────────────────────────────────────────────

#[derive(Debug, Clone, PartialEq)]
pub struct ClientboundMapItemData {
    pub raw: Vec<u8>,
}

pub struct ClientboundMapItemDataView {
    pub raw: Seq<u8>,
}

impl View for ClientboundMapItemData {
    type V = ClientboundMapItemDataView;

    open spec fn view(&self) -> ClientboundMapItemDataView {
        ClientboundMapItemDataView {
            raw: self.raw@,
        }
    }
}

impl PacketId for ClientboundMapItemData {
    open spec fn spec_packet_id(ver: u32) -> u8 {
        0x2F
    }

    fn packet_id(_ver: u32) -> (r: u8) {
        0x2F
    }
}

impl WireFormat for ClientboundMapItemData {
    open spec fn spec_encode(p: ClientboundMapItemDataView) -> Seq<u8> {
        p.raw
    }

    open spec fn spec_decode(s: Seq<u8>) -> Parsed<ClientboundMapItemDataView> {
        then(take_rest(s), |raw: Seq<u8>, s: Seq<u8>| (Ok(ClientboundMapItemDataView { raw }), s))
    }
}

impl Roundtrip for ClientboundMapItemData {
    open spec fn encodable(p: ClientboundMapItemDataView) -> bool {
        true
    }

    open spec fn reads_to_end() -> bool {
        true
    }

    proof fn lemma_roundtrip(p: ClientboundMapItemDataView, rest: Seq<u8>) {
        broadcast use group_wire_roundtrip;

        assert(p.raw + rest =~= p.raw);
    }
}

impl Encode for ClientboundMapItemData {
    fn encode(&self, dst: &mut BytesMut) -> (r: Result<(), ProtocolError>) {
        let ghost d0 = bytes_mut_data(*dst);
        put_slice(dst, self.raw.as_slice());
        let ghost mut e: Seq<u8> = self@.raw;
        Ok(())
    }
}

impl Decode for ClientboundMapItemData {
    fn decode(src: &mut Bytes) -> (r: Result<Self, ProtocolError>) {
        let raw = take_remaining(src);
        Ok(Self { raw })
    }
}

// ── ClientboundMerchantOffers ─────────────────────────────────────────

#[derive(Debug, Clone, PartialEq)]
pub struct ClientboundMerchantOffers {
    pub raw: Vec<u8>,
}

pub struct ClientboundMerchantOffersView {
    pub raw: Seq<u8>,
}

impl View for ClientboundMerchantOffers {
    type V = ClientboundMerchantOffersView;

    open spec fn view(&self) -> ClientboundMerchantOffersView {
        ClientboundMerchantOffersView {
            raw: self.raw@,
        }
    }
}

impl PacketId for ClientboundMerchantOffers {
    open spec fn spec_packet_id(ver: u32) -> u8 {
        0x30
    }

    fn packet_id(_ver: u32) -> (r: u8) {
        0x30
    }
}

impl WireFormat for ClientboundMerchantOffers {
    open spec fn spec_encode(p: ClientboundMerchantOffersView) -> Seq<u8> {
        p.raw
    }

    open spec fn spec_decode(s: Seq<u8>) -> Parsed<ClientboundMerchantOffersView> {
        then(take_rest(s), |raw: Seq<u8>, s: Seq<u8>| (Ok(ClientboundMerchantOffersView { raw }), s))
    }
}

impl Roundtrip for ClientboundMerchantOffers {
    open spec fn encodable(p: ClientboundMerchantOffersView) -> bool {
        true
    }

    open spec fn reads_to_end() -> bool {
        true
    }

    proof fn lemma_roundtrip(p: ClientboundMerchantOffersView, rest: Seq<u8>) {
        broadcast use group_wire_roundtrip;

        assert(p.raw + rest =~= p.raw);
    }
}

impl Encode for ClientboundMerchantOffers {
    fn encode(&self, dst: &mut BytesMut) -> (r: Result<(), ProtocolError>) {
        let ghost d0 = bytes_mut_data(*dst);
        put_slice(dst, self.raw.as_slice());
        let ghost mut e: Seq<u8> = self@.raw;
        Ok(())
    }
}

impl Decode for ClientboundMerchantOffers {
    fn decode(src: &mut Bytes) -> (r: Result<Self, ProtocolError>) {
        let raw = take_remaining(src);
        Ok(Self { raw })
    }
}

// ── ClientboundMoveEntityPos ──────────────────────────────────────────

#[derive(Debug, Clone, PartialEq)]
pub struct ClientboundMoveEntityPos {
    pub raw: Vec<u8>,
}

pub struct ClientboundMoveEntityPosView {
    pub raw: Seq<u8>,
}

impl View for ClientboundMoveEntityPos {
    type V = ClientboundMoveEntityPosView;

    open spec fn view(&self) -> ClientboundMoveEntityPosView {
        ClientboundMoveEntityPosView {
            raw: self.raw@,
        }
    }
}

impl PacketId for ClientboundMoveEntityPos {
    open spec fn spec_packet_id(ver: u32) -> u8 {
        0x31
    }

    fn packet_id(_ver: u32) -> (r: u8) {
        0x31
    }
}

impl WireFormat for ClientboundMoveEntityPos {
    open spec fn spec_encode(p: ClientboundMoveEntityPosView) -> Seq<u8> {
        p.raw
    }

    open spec fn spec_decode(s: Seq<u8>) -> Parsed<ClientboundMoveEntityPosView> {
        then(take_rest(s), |raw: Seq<u8>, s: Seq<u8>| (Ok(ClientboundMoveEntityPosView { raw }), s))
    }
}

impl Roundtrip for ClientboundMoveEntityPos {
    open spec fn encodable(p: ClientboundMoveEntityPosView) -> bool {
        true
    }

    open spec fn reads_to_end() -> bool {
        true
    }

    proof fn lemma_roundtrip(p: ClientboundMoveEntityPosView, rest: Seq<u8>) {
        broadcast use group_wire_roundtrip;

        assert(p.raw + rest =~= p.raw);
    }
}

impl Encode for ClientboundMoveEntityPos {
    fn encode(&self, dst: &mut BytesMut) -> (r: Result<(), ProtocolError>) {
        let ghost d0 = bytes_mut_data(*dst);
        put_slice(dst, self.raw.as_slice());
        let ghost mut e: Seq<u8> = self@.raw;
        Ok(())
    }
}

impl Decode for ClientboundMoveEntityPos {
    fn decode(src: &mut Bytes) -> (r: Result<Self, ProtocolError>) {
        let raw = take_remaining(src);
        Ok(Self { raw })
    }
}

// ── ClientboundMoveEntityPosRot ───────────────────────────────────────

#[derive(Debug, Clone, PartialEq)]
pub struct ClientboundMoveEntityPosRot {
    pub raw: Vec<u8>,
}

pub struct ClientboundMoveEntityPosRotView {
    pub raw: Seq<u8>,
}

impl View for ClientboundMoveEntityPosRot {
    type V = ClientboundMoveEntityPosRotView;

    open spec fn view(&self) -> ClientboundMoveEntityPosRotView {
        ClientboundMoveEntityPosRotView {
            raw: self.raw@,
        }
    }
}

impl PacketId for ClientboundMoveEntityPosRot {
    open spec fn spec_packet_id(ver: u32) -> u8 {
        0x32
    }

    fn packet_id(_ver: u32) -> (r: u8) {
        0x32
    }
}

impl WireFormat for ClientboundMoveEntityPosRot {
    open spec fn spec_encode(p: ClientboundMoveEntityPosRotView) -> Seq<u8> {
        p.raw
    }

    open spec fn spec_decode(s: Seq<u8>) -> Parsed<ClientboundMoveEntityPosRotView> {
        then(take_rest(s), |raw: Seq<u8>, s: Seq<u8>| (Ok(ClientboundMoveEntityPosRotView { raw }), s))
    }
}

impl Roundtrip for ClientboundMoveEntityPosRot {
    open spec fn encodable(p: ClientboundMoveEntityPosRotView) -> bool {
        true
    }

    open spec fn reads_to_end() -> bool {
        true
    }

    proof fn lemma_roundtrip(p: ClientboundMoveEntityPosRotView, rest: Seq<u8>) {
        broadcast use group_wire_roundtrip;

        assert(p.raw + rest =~= p.raw);
    }
}

impl Encode for ClientboundMoveEntityPosRot {
    fn encode(&self, dst: &mut BytesMut) -> (r: Result<(), ProtocolError>) {
        let ghost d0 = bytes_mut_data(*dst);
        put_slice(dst, self.raw.as_slice());
        let ghost mut e: Seq<u8> = self@.raw;
        Ok(())
    }
}

impl Decode for ClientboundMoveEntityPosRot {
    fn decode(src: &mut Bytes) -> (r: Result<Self, ProtocolError>) {
        let raw = take_remaining(src);
        Ok(Self { raw })
    }
}

// ── ClientboundMoveEntityRot ──────────────────────────────────────────

#[derive(Debug, Clone, PartialEq)]
pub struct ClientboundMoveEntityRot {
    pub raw: Vec<u8>,
}

pub struct ClientboundMoveEntityRotView {
    pub raw: Seq<u8>,
}

impl View for ClientboundMoveEntityRot {
    type V = ClientboundMoveEntityRotView;

    open spec fn view(&self) -> ClientboundMoveEntityRotView {
        ClientboundMoveEntityRotView {
            raw: self.raw@,
        }
    }
}

impl PacketId for ClientboundMoveEntityRot {
    open spec fn spec_packet_id(ver: u32) -> u8 {
        0x33
    }

    fn packet_id(_ver: u32) -> (r: u8) {
        0x33
    }
}

impl WireFormat for ClientboundMoveEntityRot {
    open spec fn spec_encode(p: ClientboundMoveEntityRotView) -> Seq<u8> {
        p.raw
    }

    open spec fn spec_decode(s: Seq<u8>) -> Parsed<ClientboundMoveEntityRotView> {
        then(take_rest(s), |raw: Seq<u8>, s: Seq<u8>| (Ok(ClientboundMoveEntityRotView { raw }), s))
    }
}

impl Roundtrip for ClientboundMoveEntityRot {
    open spec fn encodable(p: ClientboundMoveEntityRotView) -> bool {
        true
    }

    open spec fn reads_to_end() -> bool {
        true
    }

    proof fn lemma_roundtrip(p: ClientboundMoveEntityRotView, rest: Seq<u8>) {
        broadcast use group_wire_roundtrip;

        assert(p.raw + rest =~= p.raw);
    }
}

impl Encode for ClientboundMoveEntityRot {
    fn encode(&self, dst: &mut BytesMut) -> (r: Result<(), ProtocolError>) {
        let ghost d0 = bytes_mut_data(*dst);
        put_slice(dst, self.raw.as_slice());
        let ghost mut e: Seq<u8> = self@.raw;
        Ok(())
    }
}

impl Decode for ClientboundMoveEntityRot {
    fn decode(src: &mut Bytes) -> (r: Result<Self, ProtocolError>) {
        let raw = take_remaining(src);
        Ok(Self { raw })
    }
}

// ── ClientboundMoveVehicle ────────────────────────────────────────────

#[derive(Debug, Clone, PartialEq)]
pub struct ClientboundMoveVehicle {
    pub raw: Vec<u8>,
}

pub struct ClientboundMoveVehicleView {
    pub raw: Seq<u8>,
}

impl View for ClientboundMoveVehicle {
    type V = ClientboundMoveVehicleView;

    open spec fn view(&self) -> ClientboundMoveVehicleView {
        ClientboundMoveVehicleView {
            raw: self.raw@,
        }
    }
}

impl PacketId for ClientboundMoveVehicle {
    open spec fn spec_packet_id(ver: u32) -> u8 {
        0x34
    }

    fn packet_id(_ver: u32) -> (r: u8) {
        0x34
    }
}

impl WireFormat for ClientboundMoveVehicle {
    open spec fn spec_encode(p: ClientboundMoveVehicleView) -> Seq<u8> {
        p.raw
    }

    open spec fn spec_decode(s: Seq<u8>) -> Parsed<ClientboundMoveVehicleView> {
        then(take_rest(s), |raw: Seq<u8>, s: Seq<u8>| (Ok(ClientboundMoveVehicleView { raw }), s))
    }
}

impl Roundtrip for ClientboundMoveVehicle {
    open spec fn encodable(p: ClientboundMoveVehicleView) -> bool {
        true
    }

    open spec fn reads_to_end() -> bool {
        true
    }

    proof fn lemma_roundtrip(p: ClientboundMoveVehicleView, rest: Seq<u8>) {
        broadcast use group_wire_roundtrip;

        assert(p.raw + rest =~= p.raw);
    }
}

impl Encode for ClientboundMoveVehicle {
    fn encode(&self, dst: &mut BytesMut) -> (r: Result<(), ProtocolError>) {
        let ghost d0 = bytes_mut_data(*dst);
        put_slice(dst, self.raw.as_slice());
        let ghost mut e: Seq<u8> = self@.raw;
        Ok(())
    }
}

impl Decode for ClientboundMoveVehicle {
    fn decode(src: &mut Bytes) -> (r: Result<Self, ProtocolError>) {
        let raw = take_remaining(src);
        Ok(Self { raw })
    }
}

// ── ClientboundOpenBook ───────────────────────────────────────────────

#[derive(Debug, Clone, PartialEq)]
pub struct ClientboundOpenBook {
    pub raw: Vec<u8>,
}

pub struct ClientboundOpenBookView {
    pub raw: Seq<u8>,
}

impl View for ClientboundOpenBook {
    type V = ClientboundOpenBookView;

    open spec fn view(&self) -> ClientboundOpenBookView {
        ClientboundOpenBookView {
            raw: self.raw@,
        }
    }
}

impl PacketId for ClientboundOpenBook {
    open spec fn spec_packet_id(ver: u32) -> u8 {
        0x35
    }

    fn packet_id(_ver: u32) -> (r: u8) {
        0x35
    }
}

impl WireFormat for ClientboundOpenBook {
    open spec fn spec_encode(p: ClientboundOpenBookView) -> Seq<u8> {
        p.raw
    }

    open spec fn spec_decode(s: Seq<u8>) -> Parsed<ClientboundOpenBookView> {
        then(take_rest(s), |raw: Seq<u8>, s: Seq<u8>| (Ok(ClientboundOpenBookView { raw }), s))
    }
}

impl Roundtrip for ClientboundOpenBook {
    open spec fn encodable(p: ClientboundOpenBookView) -> bool {
        true
    }

    open spec fn reads_to_end() -> bool {
        true
    }

    proof fn lemma_roundtrip(p: ClientboundOpenBookView, rest: Seq<u8>) {
        broadcast use group_wire_roundtrip;

        assert(p.raw + rest =~= p.raw);
    }
}

impl Encode for ClientboundOpenBook {
    fn encode(&self, dst: &mut BytesMut) -> (r: Result<(), ProtocolError>) {
        let ghost d0 = bytes_mut_data(*dst);
        put_slice(dst, self.raw.as_slice());
        let ghost mut e: Seq<u8> = self@.raw;
        Ok(())
    }
}

impl Decode for ClientboundOpenBook {
    fn decode(src: &mut Bytes) -> (r: Result<Self, ProtocolError>) {
        let raw = take_remaining(src);
        Ok(Self { raw })
    }
}

// ── ClientboundOpenScreen ─────────────────────────────────────────────

#[derive(Debug, Clone, PartialEq)]
pub struct ClientboundOpenScreen {
    pub raw: Vec<u8>,
}

pub struct ClientboundOpenScreenView {
    pub raw: Seq<u8>,
}

impl View for ClientboundOpenScreen {
    type V = ClientboundOpenScreenView;

    open spec fn view(&self) -> ClientboundOpenScreenView {
        ClientboundOpenScreenView {
            raw: self.raw@,
        }
    }
}

impl PacketId for ClientboundOpenScreen {
    open spec fn spec_packet_id(ver: u32) -> u8 {
        0x36
    }

    fn packet_id(_ver: u32) -> (r: u8) {
        0x36
    }
}

impl WireFormat for ClientboundOpenScreen {
    open spec fn spec_encode(p: ClientboundOpenScreenView) -> Seq<u8> {
        p.raw
    }

    open spec fn spec_decode(s: Seq<u8>) -> Parsed<ClientboundOpenScreenView> {
        then(take_rest(s), |raw: Seq<u8>, s: Seq<u8>| (Ok(ClientboundOpenScreenView { raw }), s))
    }
}

impl Roundtrip for ClientboundOpenScreen {
    open spec fn encodable(p: ClientboundOpenScreenView) -> bool {
        true
    }

    open spec fn reads_to_end() -> bool {
        true
    }

    proof fn lemma_roundtrip(p: ClientboundOpenScreenView, rest: Seq<u8>) {
        broadcast use group_wire_roundtrip;

        assert(p.raw + rest =~= p.raw);
    }
}

impl Encode for ClientboundOpenScreen {
    fn encode(&self, dst: &mut BytesMut) -> (r: Result<(), ProtocolError>) {
        let ghost d0 = bytes_mut_data(*dst);
        put_slice(dst, self.raw.as_slice());
        let ghost mut e: Seq<u8> = self@.raw;
        Ok(())
    }
}

impl Decode for ClientboundOpenScreen {
    fn decode(src: &mut Bytes) -> (r: Result<Self, ProtocolError>) {
        let raw = take_remaining(src);
        Ok(Self { raw })
    }
}

// ── ClientboundOpenSignEditor ─────────────────────────────────────────

#[derive(Debug, Clone, PartialEq)]
pub struct ClientboundOpenSignEditor {
    pub raw: Vec<u8>,
}

pub struct ClientboundOpenSignEditorView {
    pub raw: Seq<u8>,
}

impl View for ClientboundOpenSignEditor {
    type V = ClientboundOpenSignEditorView;

    open spec fn view(&self) -> ClientboundOpenSignEditorView {
        ClientboundOpenSignEditorView {
            raw: self.raw@,
        }
    }
}

impl PacketId for ClientboundOpenSignEditor {
    open spec fn spec_packet_id(ver: u32) -> u8 {
        0x37
    }

    fn packet_id(_ver: u32) -> (r: u8) {
        0x37
    }
}

impl WireFormat for ClientboundOpenSignEditor {
    open spec fn spec_encode(p: ClientboundOpenSignEditorView) -> Seq<u8> {
        p.raw
    }

    open spec fn spec_decode(s: Seq<u8>) -> Parsed<ClientboundOpenSignEditorView> {
        then(take_rest(s), |raw: Seq<u8>, s: Seq<u8>| (Ok(ClientboundOpenSignEditorView { raw }), s))
    }
}

impl Roundtrip for ClientboundOpenSignEditor {
    open spec fn encodable(p: ClientboundOpenSignEditorView) -> bool {
        true
    }

    open spec fn reads_to_end() -> bool {
        true
    }

    proof fn lemma_roundtrip(p: ClientboundOpenSignEditorView, rest: Seq<u8>) {
        broadcast use group_wire_roundtrip;

        assert(p.raw + rest =~= p.raw);
    }
}

impl Encode for ClientboundOpenSignEditor {
    fn encode(&self, dst: &mut BytesMut) -> (r: Result<(), ProtocolError>) {
        let ghost d0 = bytes_mut_data(*dst);
        put_slice(dst, self.raw.as_slice());
        let ghost mut e: Seq<u8> = self@.raw;
        Ok(())
    }
}

impl Decode for ClientboundOpenSignEditor {
    fn decode(src: &mut Bytes) -> (r: Result<Self, ProtocolError>) {
        let raw = take_remaining(src);
        Ok(Self { raw })
    }
}

// ── ClientboundPing ───────────────────────────────────────────────────

#[derive(Debug, Clone, PartialEq)]
pub struct ClientboundPing {
    pub raw: Vec<u8>,
}

pub struct ClientboundPingView {
    pub raw: Seq<u8>,
}

impl View for ClientboundPing {
    type V = ClientboundPingView;

    open spec fn view(&self) -> ClientboundPingView {
        ClientboundPingView {
            raw: self.raw@,
        }
    }
}

impl PacketId for ClientboundPing {
    open spec fn spec_packet_id(ver: u32) -> u8 {
        0x38
    }

    fn packet_id(_ver: u32) -> (r: u8) {
        0x38
    }
}

impl WireFormat for ClientboundPing {
    open spec fn spec_encode(p: ClientboundPingView) -> Seq<u8> {
        p.raw
    }

    open spec fn spec_decode(s: Seq<u8>) -> Parsed<ClientboundPingView> {
        then(take_rest(s), |raw: Seq<u8>, s: Seq<u8>| (Ok(ClientboundPingView { raw }), s))
    }
}

impl Roundtrip for ClientboundPing {
    open spec fn encodable(p: ClientboundPingView) -> bool {
        true
    }

    open spec fn reads_to_end() -> bool {
        true
    }

    proof fn lemma_roundtrip(p: ClientboundPingView, rest: Seq<u8>) {
        broadcast use group_wire_roundtrip;

        assert(p.raw + rest =~= p.raw);
    }
}

impl Encode for ClientboundPing {
    fn encode(&self, dst: &mut BytesMut) -> (r: Result<(), ProtocolError>) {
        let ghost d0 = bytes_mut_data(*dst);
        put_slice(dst, self.raw.as_slice());
        let ghost mut e: Seq<u8> = self@.raw;
        Ok(())
    }
}

impl Decode for ClientboundPing {
    fn decode(src: &mut Bytes) -> (r: Result<Self, ProtocolError>) {
        let raw = take_remaining(src);
        Ok(Self { raw })
    }
}

// ── ClientboundPlaceGhostRecipe ───────────────────────────────────────

#[derive(Debug, Clone, PartialEq)]
pub struct ClientboundPlaceGhostRecipe {
    pub raw: Vec<u8>,
}

pub struct ClientboundPlaceGhostRecipeView {
    pub raw: Seq<u8>,
}

impl View for ClientboundPlaceGhostRecipe {
    type V = ClientboundPlaceGhostRecipeView;

    open spec fn view(&self) -> ClientboundPlaceGhostRecipeView {
        ClientboundPlaceGhostRecipeView {
            raw: self.raw@,
        }
    }
}

impl PacketId for ClientboundPlaceGhostRecipe {
    open spec fn spec_packet_id(ver: u32) -> u8 {
        0x3A
    }

    fn packet_id(_ver: u32) -> (r: u8) {
        0x3A
    }
}

impl WireFormat for ClientboundPlaceGhostRecipe {
    open spec fn spec_encode(p: ClientboundPlaceGhostRecipeView) -> Seq<u8> {
        p.raw
    }

    open spec fn spec_decode(s: Seq<u8>) -> Parsed<ClientboundPlaceGhostRecipeView> {
        then(take_rest(s), |raw: Seq<u8>, s: Seq<u8>| (Ok(ClientboundPlaceGhostRecipeView { raw }), s))
    }
}

impl Roundtrip for ClientboundPlaceGhostRecipe {
    open spec fn encodable(p: ClientboundPlaceGhostRecipeView) -> bool {
        true
    }

    open spec fn reads_to_end() -> bool {
        true
    }

    proof fn lemma_roundtrip(p: ClientboundPlaceGhostRecipeView, rest: Seq<u8>) {
        broadcast use group_wire_roundtrip;

        assert(p.raw + rest =~= p.raw);
    }
}

impl Encode for ClientboundPlaceGhostRecipe {
    fn encode(&self, dst: &mut BytesMut) -> (r: Result<(), ProtocolError>) {
        let ghost d0 = bytes_mut_data(*dst);
        put_slice(dst, self.raw.as_slice());
        let ghost mut e: Seq<u8> = self@.raw;
        Ok(())
    }
}

impl Decode for ClientboundPlaceGhostRecipe {
    fn decode(src: &mut Bytes) -> (r: Result<Self, ProtocolError>) {
        let raw = take_remaining(src);
        Ok(Self { raw })
    }
}

// ── ClientboundPlayerAbilities ────────────────────────────────────────

#[derive(Debug, Clone, PartialEq)]
pub struct ClientboundPlayerAbilities {
    pub raw: Vec<u8>,
}

pub struct ClientboundPlayerAbilitiesView {
    pub raw: Seq<u8>,
}

impl View for ClientboundPlayerAbilities {
    type V = ClientboundPlayerAbilitiesView;

    open spec fn view(&self) -> ClientboundPlayerAbilitiesView {
        ClientboundPlayerAbilitiesView {
            raw: self.raw@,
        }
    }
}

impl PacketId for ClientboundPlayerAbilities {
    open spec fn spec_packet_id(ver: u32) -> u8 {
        0x3B
    }

    fn packet_id(_ver: u32) -> (r: u8) {
        0x3B
    }
}

impl WireFormat for ClientboundPlayerAbilities {
    open spec fn spec_encode(p: ClientboundPlayerAbilitiesView) -> Seq<u8> {
        p.raw
    }

    open spec fn spec_decode(s: Seq<u8>) -> Parsed<ClientboundPlayerAbilitiesView> {
        then(take_rest(s), |raw: Seq<u8>, s: Seq<u8>| (Ok(ClientboundPlayerAbilitiesView { raw }), s))
    }
}

impl Roundtrip for ClientboundPlayerAbilities {
    open spec fn encodable(p: ClientboundPlayerAbilitiesView) -> bool {
        true
    }

    open spec fn reads_to_end() -> bool {
        true
    }

    proof fn lemma_roundtrip(p: ClientboundPlayerAbilitiesView, rest: Seq<u8>) {
        broadcast use group_wire_roundtrip;

        assert(p.raw + rest =~= p.raw);
    }
}

impl Encode for ClientboundPlayerAbilities {
    fn encode(&self, dst: &mut BytesMut) -> (r: Result<(), ProtocolError>) {
        let ghost d0 = bytes_mut_data(*dst);
        put_slice(dst, self.raw.as_slice());
        let ghost mut e: Seq<u8> = self@.raw;
        Ok(())
    }
}

impl Decode for ClientboundPlayerAbilities {
    fn decode(src: &mut Bytes) -> (r: Result<Self, ProtocolError>) {
        let raw = take_remaining(src);
        Ok(Self { raw })
    }
}

// ── ClientboundPlayerChat ─────────────────────────────────────────────

#[derive(Debug, Clone, PartialEq)]
pub struct ClientboundPlayerChat {
    pub raw: Vec<u8>,
}

pub struct ClientboundPlayerChatView {
    pub raw: Seq<u8>,
}

impl View for ClientboundPlayerChat {
    type V = ClientboundPlayerChatView;

    open spec fn view(&self) -> ClientboundPlayerChatView {
        ClientboundPlayerChatView {
            raw: self.raw@,
        }
    }
}

impl PacketId for ClientboundPlayerChat {
    open spec fn spec_packet_id(ver: u32) -> u8 {
        0x3C
    }

    fn packet_id(_ver: u32) -> (r: u8) {
        0x3C
    }
}

impl WireFormat for ClientboundPlayerChat {
    open spec fn spec_encode(p: ClientboundPlayerChatView) -> Seq<u8> {
        p.raw
    }

    open spec fn spec_decode(s: Seq<u8>) -> Parsed<ClientboundPlayerChatView> {
        then(take_rest(s), |raw: Seq<u8>, s: Seq<u8>| (Ok(ClientboundPlayerChatView { raw }), s))
    }
}

impl Roundtrip for ClientboundPlayerChat {
    open spec fn encodable(p: ClientboundPlayerChatView) -> bool {
        true
    }

    open spec fn reads_to_end() -> bool {
        true
    }

    proof fn lemma_roundtrip(p: ClientboundPlayerChatView, rest: Seq<u8>) {
        broadcast use group_wire_roundtrip;

        assert(p.raw + rest =~= p.raw);
    }
}

impl Encode for ClientboundPlayerChat {
    fn encode(&self, dst: &mut BytesMut) -> (r: Result<(), ProtocolError>) {
        let ghost d0 = bytes_mut_data(*dst);
        put_slice(dst, self.raw.as_slice());
        let ghost mut e: Seq<u8> = self@.raw;
        Ok(())
    }
}

impl Decode for ClientboundPlayerChat {
    fn decode(src: &mut Bytes) -> (r: Result<Self, ProtocolError>) {
        let raw = take_remaining(src);
        Ok(Self { raw })
    }
}

// ── ClientboundPlayerCombatEnd ────────────────────────────────────────

#[derive(Debug, Clone, PartialEq)]
pub struct ClientboundPlayerCombatEnd {
    pub raw: Vec<u8>,
}

pub struct ClientboundPlayerCombatEndView {
    pub raw: Seq<u8>,
}

impl View for ClientboundPlayerCombatEnd {
    type V = ClientboundPlayerCombatEndView;

    open spec fn view(&self) -> ClientboundPlayerCombatEndView {
        ClientboundPlayerCombatEndView {
            raw: self.raw@,
        }
    }
}

impl PacketId for ClientboundPlayerCombatEnd {
    open spec fn spec_packet_id(ver: u32) -> u8 {
        0x3D
    }

    fn packet_id(_ver: u32) -> (r: u8) {
        0x3D
    }
}

impl WireFormat for ClientboundPlayerCombatEnd {
    open spec fn spec_encode(p: ClientboundPlayerCombatEndView) -> Seq<u8> {
        p.raw
    }

    open spec fn spec_decode(s: Seq<u8>) -> Parsed<ClientboundPlayerCombatEndView> {
        then(take_rest(s), |raw: Seq<u8>, s: Seq<u8>| (Ok(ClientboundPlayerCombatEndView { raw }), s))
    }
}

impl Roundtrip for ClientboundPlayerCombatEnd {
    open spec fn encodable(p: ClientboundPlayerCombatEndView) -> bool {
        true
    }

    open spec fn reads_to_end() -> bool {
        true
    }

    proof fn lemma_roundtrip(p: ClientboundPlayerCombatEndView, rest: Seq<u8>) {
        broadcast use group_wire_roundtrip;

        assert(p.raw + rest =~= p.raw);
    }
}

impl Encode for ClientboundPlayerCombatEnd {
    fn encode(&self, dst: &mut BytesMut) -> (r: Result<(), ProtocolError>) {
        let ghost d0 = bytes_mut_data(*dst);
        put_slice(dst, self.raw.as_slice());
        let ghost mut e: Seq<u8> = self@.raw;
        Ok(())
    }
}

impl Decode for ClientboundPlayerCombatEnd {
    fn decode(src: &mut Bytes) -> (r: Result<Self, ProtocolError>) {
        let raw = take_remaining(src);
        Ok(Self { raw })
    }
}

// ── ClientboundPlayerCombatEnter ──────────────────────────────────────

#[derive(Debug, Clone, PartialEq)]
pub struct ClientboundPlayerCombatEnter {
    pub raw: Vec<u8>,
}

pub struct ClientboundPlayerCombatEnterView {
    pub raw: Seq<u8>,
}

impl View for ClientboundPlayerCombatEnter {
    type V = ClientboundPlayerCombatEnterView;

    open spec fn view(&self) -> ClientboundPlayerCombatEnterView {
        ClientboundPlayerCombatEnterView {
            raw: self.raw@,
        }
    }
}

impl PacketId for ClientboundPlayerCombatEnter {
    open spec fn spec_packet_id(ver: u32) -> u8 {
        0x3E
    }

    fn packet_id(_ver: u32) -> (r: u8) {
        0x3E
    }
}

impl WireFormat for ClientboundPlayerCombatEnter {
    open spec fn spec_encode(p: ClientboundPlayerCombatEnterView) -> Seq<u8> {
        p.raw
    }

    open spec fn spec_decode(s: Seq<u8>) -> Parsed<ClientboundPlayerCombatEnterView> {
        then(take_rest(s), |raw: Seq<u8>, s: Seq<u8>| (Ok(ClientboundPlayerCombatEnterView { raw }), s))
    }
}

impl Roundtrip for ClientboundPlayerCombatEnter {
    open spec fn encodable(p: ClientboundPlayerCombatEnterView) -> bool {
        true
    }

    open spec fn reads_to_end() -> bool {
        true
    }

    proof fn lemma_roundtrip(p: ClientboundPlayerCombatEnterView, rest: Seq<u8>) {
        broadcast use group_wire_roundtrip;

        assert(p.raw + rest =~= p.raw);
    }
}

impl Encode for ClientboundPlayerCombatEnter {
    fn encode(&self, dst: &mut BytesMut) -> (r: Result<(), ProtocolError>) {
        let ghost d0 = bytes_mut_data(*dst);
        put_slice(dst, self.raw.as_slice());
        let ghost mut e: Seq<u8> = self@.raw;
        Ok(())
    }
}

impl Decode for ClientboundPlayerCombatEnter {
    fn decode(src: &mut Bytes) -> (r: Result<Self, ProtocolError>) {
        let raw = take_remaining(src);
        Ok(Self { raw })
    }
}

// ── ClientboundPlayerCombatKill ───────────────────────────────────────

#[derive(Debug, Clone, PartialEq)]
pub struct ClientboundPlayerCombatKill {
    pub raw: Vec<u8>,
}

pub struct ClientboundPlayerCombatKillView {
    pub raw: Seq<u8>,
}

impl View for ClientboundPlayerCombatKill {
    type V = ClientboundPlayerCombatKillView;

    open spec fn view(&self) -> ClientboundPlayerCombatKillView {
        ClientboundPlayerCombatKillView {
            raw: self.raw@,
        }
    }
}

impl PacketId for ClientboundPlayerCombatKill {
    open spec fn spec_packet_id(ver: u32) -> u8 {
        0x3F
    }

    fn packet_id(_ver: u32) -> (r: u8) {
        0x3F
    }
}

impl WireFormat for ClientboundPlayerCombatKill {
    open spec fn spec_encode(p: ClientboundPlayerCombatKillView) -> Seq<u8> {
        p.raw
    }

    open spec fn spec_decode(s: Seq<u8>) -> Parsed<ClientboundPlayerCombatKillView> {
        then(take_rest(s), |raw: Seq<u8>, s: Seq<u8>| (Ok(ClientboundPlayerCombatKillView { raw }), s))
    }
}

impl Roundtrip for ClientboundPlayerCombatKill {
    open spec fn encodable(p: ClientboundPlayerCombatKillView) -> bool {
        true
    }

    open spec fn reads_to_end() -> bool {
        true
    }

    proof fn lemma_roundtrip(p: ClientboundPlayerCombatKillView, rest: Seq<u8>) {
        broadcast use group_wire_roundtrip;

        assert(p.raw + rest =~= p.raw);
    }
}

impl Encode for ClientboundPlayerCombatKill {
    fn encode(&self, dst: &mut BytesMut) -> (r: Result<(), ProtocolError>) {
        let ghost d0 = bytes_mut_data(*dst);
        put_slice(dst, self.raw.as_slice());
        let ghost mut e: Seq<u8> = self@.raw;
        Ok(())
    }
}

impl Decode for ClientboundPlayerCombatKill {
    fn decode(src: &mut Bytes) -> (r: Result<Self, ProtocolError>) {
        let raw = take_remaining(src);
        Ok(Self { raw })
    }
}

// ── ClientboundPlayerInfoRemove ───────────────────────────────────────

#[derive(Debug, Clone, PartialEq)]
pub struct ClientboundPlayerInfoRemove {
    pub raw: Vec<u8>,
}

pub struct ClientboundPlayerInfoRemoveView {
    pub raw: Seq<u8>,
}

impl View for ClientboundPlayerInfoRemove {
    type V = ClientboundPlayerInfoRemoveView;

    open spec fn view(&self) -> ClientboundPlayerInfoRemoveView {
        ClientboundPlayerInfoRemoveView {
            raw: self.raw@,
        }
    }
}

impl PacketId for ClientboundPlayerInfoRemove {
    open spec fn spec_packet_id(ver: u32) -> u8 {
        0x40
    }

    fn packet_id(_ver: u32) -> (r: u8) {
        0x40
    }
}

impl WireFormat for ClientboundPlayerInfoRemove {
    open spec fn spec_encode(p: ClientboundPlayerInfoRemoveView) -> Seq<u8> {
        p.raw
    }

    open spec fn spec_decode(s: Seq<u8>) -> Parsed<ClientboundPlayerInfoRemoveView> {
        then(take_rest(s), |raw: Seq<u8>, s: Seq<u8>| (Ok(ClientboundPlayerInfoRemoveView { raw }), s))
    }
}

impl Roundtrip for ClientboundPlayerInfoRemove {
    open spec fn encodable(p: ClientboundPlayerInfoRemoveView) -> bool {
        true
    }

    open spec fn reads_to_end() -> bool {
        true
    }

    proof fn lemma_roundtrip(p: ClientboundPlayerInfoRemoveView, rest: Seq<u8>) {
        broadcast use group_wire_roundtrip;

        assert(p.raw + rest =~= p.raw);
    }
}

impl Encode for ClientboundPlayerInfoRemove {
    fn encode(&self, dst: &mut BytesMut) -> (r: Result<(), ProtocolError>) {
        let ghost d0 = bytes_mut_data(*dst);
        put_slice(dst, self.raw.as_slice());
        let ghost mut e: Seq<u8> = self@.raw;
        Ok(())
    }
}

impl Decode for ClientboundPlayerInfoRemove {
    fn decode(src: &mut Bytes) -> (r: Result<Self, ProtocolError>) {
        let raw = take_remaining(src);
        Ok(Self { raw })
    }
}

// ── ClientboundPlayerInfoUpdate ───────────────────────────────────────

#[derive(Debug, Clone, PartialEq)]
pub struct ClientboundPlayerInfoUpdate {
    pub raw: Vec<u8>,
}

pub struct ClientboundPlayerInfoUpdateView {
    pub raw: Seq<u8>,
}

impl View for ClientboundPlayerInfoUpdate {
    type V = ClientboundPlayerInfoUpdateView;

    open spec fn view(&self) -> ClientboundPlayerInfoUpdateView {
        ClientboundPlayerInfoUpdateView {
            raw: self.raw@,
        }
    }
}

impl PacketId for ClientboundPlayerInfoUpdate {
    open spec fn spec_packet_id(ver: u32) -> u8 {
        0x41
    }

    fn packet_id(_ver: u32) -> (r: u8) {
        0x41
    }
}

impl WireFormat for ClientboundPlayerInfoUpdate {
    open spec fn spec_encode(p: ClientboundPlayerInfoUpdateView) -> Seq<u8> {
        p.raw
    }

    open spec fn spec_decode(s: Seq<u8>) -> Parsed<ClientboundPlayerInfoUpdateView> {
        then(take_rest(s), |raw: Seq<u8>, s: Seq<u8>| (Ok(ClientboundPlayerInfoUpdateView { raw }), s))
    }
}

impl Roundtrip for ClientboundPlayerInfoUpdate {
    open spec fn encodable(p: ClientboundPlayerInfoUpdateView) -> bool {
        true
    }

    open spec fn reads_to_end() -> bool {
        true
    }

    proof fn lemma_roundtrip(p: ClientboundPlayerInfoUpdateView, rest: Seq<u8>) {
        broadcast use group_wire_roundtrip;

        assert(p.raw + rest =~= p.raw);
    }
}

impl Encode for ClientboundPlayerInfoUpdate {
    fn encode(&self, dst: &mut BytesMut) -> (r: Result<(), ProtocolError>) {
        let ghost d0 = bytes_mut_data(*dst);
        put_slice(dst, self.raw.as_slice());
        let ghost mut e: Seq<u8> = self@.raw;
        Ok(())
    }
}

impl Decode for ClientboundPlayerInfoUpdate {
    fn decode(src: &mut Bytes) -> (r: Result<Self, ProtocolError>) {
        let raw = take_remaining(src);
        Ok(Self { raw })
    }
}

// ── ClientboundPlayerLookAt ───────────────────────────────────────────

#[derive(Debug, Clone, PartialEq)]
pub struct ClientboundPlayerLookAt {
    pub raw: Vec<u8>,
}

pub struct ClientboundPlayerLookAtView {
    pub raw: Seq<u8>,
}

impl View for ClientboundPlayerLookAt {
    type V = ClientboundPlayerLookAtView;

    open spec fn view(&self) -> ClientboundPlayerLookAtView {
        ClientboundPlayerLookAtView {
            raw: self.raw@,
        }
    }
}

impl PacketId for ClientboundPlayerLookAt {
    open spec fn spec_packet_id(ver: u32) -> u8 {
        0x42
    }

    fn packet_id(_ver: u32) -> (r: u8) {
        0x42
    }
}

impl WireFormat for ClientboundPlayerLookAt {
    open spec fn spec_encode(p: ClientboundPlayerLookAtView) -> Seq<u8> {
        p.raw
    }

    open spec fn spec_decode(s: Seq<u8>) -> Parsed<ClientboundPlayerLookAtView> {
        then(take_rest(s), |raw: Seq<u8>, s: Seq<u8>| (Ok(ClientboundPlayerLookAtView { raw }), s))
    }
}

impl Roundtrip for ClientboundPlayerLookAt {
    open spec fn encodable(p: ClientboundPlayerLookAtView) -> bool {
        true
    }

    open spec fn reads_to_end() -> bool {
        true
    }

    proof fn lemma_roundtrip(p: ClientboundPlayerLookAtView, rest: Seq<u8>) {
        broadcast use group_wire_roundtrip;

        assert(p.raw + rest =~= p.raw);
    }
}

impl Encode for ClientboundPlayerLookAt {
    fn encode(&self, dst: &mut BytesMut) -> (r: Result<(), ProtocolError>) {
        let ghost d0 = bytes_mut_data(*dst);
        put_slice(dst, self.raw.as_slice());
        let ghost mut e: Seq<u8> = self@.raw;
        Ok(())
    }
}

impl Decode for ClientboundPlayerLookAt {
    fn decode(src: &mut Bytes) -> (r: Result<Self, ProtocolError>) {
        let raw = take_remaining(src);
        Ok(Self { raw })
    }
}

// ── ClientboundRecipeBookSettings ─────────────────────────────────────

#[derive(Debug, Clone, PartialEq)]
pub struct ClientboundRecipeBookSettings {
    pub raw: Vec<u8>,
}

pub struct ClientboundRecipeBookSettingsView {
    pub raw: Seq<u8>,
}

impl View for ClientboundRecipeBookSettings {
    type V = ClientboundRecipeBookSettingsView;

    open spec fn view(&self) -> ClientboundRecipeBookSettingsView {
        ClientboundRecipeBookSettingsView {
            raw: self.raw@,
        }
    }
}

impl PacketId for ClientboundRecipeBookSettings {
    open spec fn spec_packet_id(ver: u32) -> u8 {
        0x44
    }

    fn packet_id(_ver: u32) -> (r: u8) {
        0x44
    }
}

impl WireFormat for ClientboundRecipeBookSettings {
    open spec fn spec_encode(p: ClientboundRecipeBookSettingsView) -> Seq<u8> {
        p.raw
    }

    open spec fn spec_decode(s: Seq<u8>) -> Parsed<ClientboundRecipeBookSettingsView> {
        then(take_rest(s), |raw: Seq<u8>, s: Seq<u8>| (Ok(ClientboundRecipeBookSettingsView { raw }), s))
    }
}

impl Roundtrip for ClientboundRecipeBookSettings {
    open spec fn encodable(p: ClientboundRecipeBookSettingsView) -> bool {
        true
    }

    open spec fn reads_to_end() -> bool {
        true
    }

    proof fn lemma_roundtrip(p: ClientboundRecipeBookSettingsView, rest: Seq<u8>) {
        broadcast use group_wire_roundtrip;

        assert(p.raw + rest =~= p.raw);
    }
}

impl Encode for ClientboundRecipeBookSettings {
    fn encode(&self, dst: &mut BytesMut) -> (r: Result<(), ProtocolError>) {
        let ghost d0 = bytes_mut_data(*dst);
        put_slice(dst, self.raw.as_slice());
        let ghost mut e: Seq<u8> = self@.raw;
        Ok(())
    }
}

impl Decode for ClientboundRecipeBookSettings {
    fn decode(src: &mut Bytes) -> (r: Result<Self, ProtocolError>) {
        let raw = take_remaining(src);
        Ok(Self { raw })
    }
}

// ── ClientboundRecipes ────────────────────────────────────────────────

#[derive(Debug, Clone, PartialEq)]
pub struct ClientboundRecipes {
    pub raw: Vec<u8>,
}

pub struct ClientboundRecipesView {
    pub raw: Seq<u8>,
}

impl View for ClientboundRecipes {
    type V = ClientboundRecipesView;

    open spec fn view(&self) -> ClientboundRecipesView {
        ClientboundRecipesView {
            raw: self.raw@,
        }
    }
}

impl PacketId for ClientboundRecipes {
    open spec fn spec_packet_id(ver: u32) -> u8 {
        0x45
    }

    fn packet_id(_ver: u32) -> (r: u8) {
        0x45
    }
}

impl WireFormat for ClientboundRecipes {
    open spec fn spec_encode(p: ClientboundRecipesView) -> Seq<u8> {
        p.raw
    }

    open spec fn spec_decode(s: Seq<u8>) -> Parsed<ClientboundRecipesView> {
        then(take_rest(s), |raw: Seq<u8>, s: Seq<u8>| (Ok(ClientboundRecipesView { raw }), s))
    }
}

impl Roundtrip for ClientboundRecipes {
    open spec fn encodable(p: ClientboundRecipesView) -> bool {
        true
    }

    open spec fn reads_to_end() -> bool {
        true
    }

    proof fn lemma_roundtrip(p: ClientboundRecipesView, rest: Seq<u8>) {
        broadcast use group_wire_roundtrip;

        assert(p.raw + rest =~= p.raw);
    }
}

impl Encode for ClientboundRecipes {
    fn encode(&self, dst: &mut BytesMut) -> (r: Result<(), ProtocolError>) {
        let ghost d0 = bytes_mut_data(*dst);
        put_slice(dst, self.raw.as_slice());
        let ghost mut e: Seq<u8> = self@.raw;
        Ok(())
    }
}

impl Decode for ClientboundRecipes {
    fn decode(src: &mut Bytes) -> (r: Result<Self, ProtocolError>) {
        let raw = take_remaining(src);
        Ok(Self { raw })
    }
}

// ── ClientboundRemoveEntities ─────────────────────────────────────────

#[derive(Debug, Clone, PartialEq)]
pub struct ClientboundRemoveEntities {
    pub raw: Vec<u8>,
}

pub struct ClientboundRemoveEntitiesView {
    pub raw: Seq<u8>,
}

impl View for ClientboundRemoveEntities {
    type V = ClientboundRemoveEntitiesView;

    open spec fn view(&self) -> ClientboundRemoveEntitiesView {
        ClientboundRemoveEntitiesView {
            raw: self.raw@,
        }
    }
}

impl PacketId for ClientboundRemoveEntities {
    open spec fn spec_packet_id(ver: u32) -> u8 {
        0x46
    }

    fn packet_id(_ver: u32) -> (r: u8) {
        0x46
    }
}

impl WireFormat for ClientboundRemoveEntities {
    open spec fn spec_encode(p: ClientboundRemoveEntitiesView) -> Seq<u8> {
        p.raw
    }

    open spec fn spec_decode(s: Seq<u8>) -> Parsed<ClientboundRemoveEntitiesView> {
        then(take_rest(s), |raw: Seq<u8>, s: Seq<u8>| (Ok(ClientboundRemoveEntitiesView { raw }), s))
    }
}

impl Roundtrip for ClientboundRemoveEntities {
    open spec fn encodable(p: ClientboundRemoveEntitiesView) -> bool {
        true
    }

    open spec fn reads_to_end() -> bool {
        true
    }

    proof fn lemma_roundtrip(p: ClientboundRemoveEntitiesView, rest: Seq<u8>) {
        broadcast use group_wire_roundtrip;

        assert(p.raw + rest =~= p.raw);
    }
}

impl Encode for ClientboundRemoveEntities {
    fn encode(&self, dst: &mut BytesMut) -> (r: Result<(), ProtocolError>) {
        let ghost d0 = bytes_mut_data(*dst);
        put_slice(dst, self.raw.as_slice());
        let ghost mut e: Seq<u8> = self@.raw;
        Ok(())
    }
}

impl Decode for ClientboundRemoveEntities {
    fn decode(src: &mut Bytes) -> (r: Result<Self, ProtocolError>) {
        let raw = take_remaining(src);
        Ok(Self { raw })
    }
}

// ── ClientboundRemoveEntityEffect ─────────────────────────────────────

#[derive(Debug, Clone, PartialEq)]
pub struct ClientboundRemoveEntityEffect {
    pub raw: Vec<u8>,
}

pub struct ClientboundRemoveEntityEffectView {
    pub raw: Seq<u8>,
}

impl View for ClientboundRemoveEntityEffect {
    type V = ClientboundRemoveEntityEffectView;

    open spec fn view(&self) -> ClientboundRemoveEntityEffectView {
        ClientboundRemoveEntityEffectView {
            raw: self.raw@,
        }
    }
}

impl PacketId for ClientboundRemoveEntityEffect {
    open spec fn spec_packet_id(ver: u32) -> u8 {
        0x47
    }

    fn packet_id(_ver: u32) -> (r: u8) {
        0x47
    }
}

impl WireFormat for ClientboundRemoveEntityEffect {
    open spec fn spec_encode(p: ClientboundRemoveEntityEffectView) -> Seq<u8> {
        p.raw
    }

    open spec fn spec_decode(s: Seq<u8>) -> Parsed<ClientboundRemoveEntityEffectView> {
        then(take_rest(s), |raw: Seq<u8>, s: Seq<u8>| (Ok(ClientboundRemoveEntityEffectView { raw }), s))
    }
}

impl Roundtrip for ClientboundRemoveEntityEffect {
    open spec fn encodable(p: ClientboundRemoveEntityEffectView) -> bool {
        true
    }

    open spec fn reads_to_end() -> bool {
        true
    }

    proof fn lemma_roundtrip(p: ClientboundRemoveEntityEffectView, rest: Seq<u8>) {
        broadcast use group_wire_roundtrip;

        assert(p.raw + rest =~= p.raw);
    }
}

impl Encode for ClientboundRemoveEntityEffect {
    fn encode(&self, dst: &mut BytesMut) -> (r: Result<(), ProtocolError>) {
        let ghost d0 = bytes_mut_data(*dst);
        put_slice(dst, self.raw.as_slice());
        let ghost mut e: Seq<u8> = self@.raw;
        Ok(())
    }
}

impl Decode for ClientboundRemoveEntityEffect {
    fn decode(src: &mut Bytes) -> (r: Result<Self, ProtocolError>) {
        let raw = take_remaining(src);
        Ok(Self { raw })
    }
}

// ── ClientboundResetScore ─────────────────────────────────────────────

#[derive(Debug, Clone, PartialEq)]
pub struct ClientboundResetScore {
    pub raw: Vec<u8>,
}

pub struct ClientboundResetScoreView {
    pub raw: Seq<u8>,
}

impl View for ClientboundResetScore {
    type V = ClientboundResetScoreView;

    open spec fn view(&self) -> ClientboundResetScoreView {
        ClientboundResetScoreView {
            raw: self.raw@,
        }
    }
}

impl PacketId for ClientboundResetScore {
    open spec fn spec_packet_id(ver: u32) -> u8 {
        0x48
    }

    fn packet_id(_ver: u32) -> (r: u8) {
        0x48
    }
}

impl WireFormat for ClientboundResetScore {
    open spec fn spec_encode(p: ClientboundResetScoreView) -> Seq<u8> {
        p.raw
    }

    open spec fn spec_decode(s: Seq<u8>) -> Parsed<ClientboundResetScoreView> {
        then(take_rest(s), |raw: Seq<u8>, s: Seq<u8>| (Ok(ClientboundResetScoreView { raw }), s))
    }
}

impl Roundtrip for ClientboundResetScore {
    open spec fn encodable(p: ClientboundResetScoreView) -> bool {
        true
    }

    open spec fn reads_to_end() -> bool {
        true
    }

    proof fn lemma_roundtrip(p: ClientboundResetScoreView, rest: Seq<u8>) {
        broadcast use group_wire_roundtrip;

        assert(p.raw + rest =~= p.raw);
    }
}

impl Encode for ClientboundResetScore {
    fn encode(&self, dst: &mut BytesMut) -> (r: Result<(), ProtocolError>) {
        let ghost d0 = bytes_mut_data(*dst);
        put_slice(dst, self.raw.as_slice());
        let ghost mut e: Seq<u8> = self@.raw;
        Ok(())
    }
}

impl Decode for ClientboundResetScore {
    fn decode(src: &mut Bytes) -> (r: Result<Self, ProtocolError>) {
        let raw = take_remaining(src);
        Ok(Self { raw })
    }
}

// ── ClientboundResourcePackPop ────────────────────────────────────────

#[derive(Debug, Clone, PartialEq)]
pub struct ClientboundResourcePackPop {
    pub raw: Vec<u8>,
}

pub struct ClientboundResourcePackPopView {
    pub raw: Seq<u8>,
}

impl View for ClientboundResourcePackPop {
    type V = ClientboundResourcePackPopView;

    open spec fn view(&self) -> ClientboundResourcePackPopView {
        ClientboundResourcePackPopView {
            raw: self.raw@,
        }
    }
}

impl PacketId for ClientboundResourcePackPop {
    open spec fn spec_packet_id(ver: u32) -> u8 {
        0x49
    }

    fn packet_id(_ver: u32) -> (r: u8) {
        0x49
    }
}

impl WireFormat for ClientboundResourcePackPop {
    open spec fn spec_encode(p: ClientboundResourcePackPopView) -> Seq<u8> {
        p.raw
    }

    open spec fn spec_decode(s: Seq<u8>) -> Parsed<ClientboundResourcePackPopView> {
        then(take_rest(s), |raw: Seq<u8>, s: Seq<u8>| (Ok(ClientboundResourcePackPopView { raw }), s))
    }
}

impl Roundtrip for ClientboundResourcePackPop {
    open spec fn encodable(p: ClientboundResourcePackPopView) -> bool {
        true
    }

    open spec fn reads_to_end() -> bool {
        true
    }

    proof fn lemma_roundtrip(p: ClientboundResourcePackPopView, rest: Seq<u8>) {
        broadcast use group_wire_roundtrip;

        assert(p.raw + rest =~= p.raw);
    }
}

impl Encode for ClientboundResourcePackPop {
    fn encode(&self, dst: &mut BytesMut) -> (r: Result<(), ProtocolError>) {
        let ghost d0 = bytes_mut_data(*dst);
        put_slice(dst, self.raw.as_slice());
        let ghost mut e: Seq<u8> = self@.raw;
        Ok(())
    }
}

impl Decode for ClientboundResourcePackPop {
    fn decode(src: &mut Bytes) -> (r: Result<Self, ProtocolError>) {
        let raw = take_remaining(src);
        Ok(Self { raw })
    }
}

// ── ClientboundResourcePackPush ───────────────────────────────────────

#[derive(Debug, Clone, PartialEq)]
pub struct ClientboundResourcePackPush {
    pub raw: Vec<u8>,
}

pub struct ClientboundResourcePackPushView {
    pub raw: Seq<u8>,
}

impl View for ClientboundResourcePackPush {
    type V = ClientboundResourcePackPushView;

    open spec fn view(&self) -> ClientboundResourcePackPushView {
        ClientboundResourcePackPushView {
            raw: self.raw@,
        }
    }
}

impl PacketId for ClientboundResourcePackPush {
    open spec fn spec_packet_id(ver: u32) -> u8 {
        0x4A
    }

    fn packet_id(_ver: u32) -> (r: u8) {
        0x4A
    }
}

impl WireFormat for ClientboundResourcePackPush {
    open spec fn spec_encode(p: ClientboundResourcePackPushView) -> Seq<u8> {
        p.raw
    }

    open spec fn spec_decode(s: Seq<u8>) -> Parsed<ClientboundResourcePackPushView> {
        then(take_rest(s), |raw: Seq<u8>, s: Seq<u8>| (Ok(ClientboundResourcePackPushView { raw }), s))
    }
}

impl Roundtrip for ClientboundResourcePackPush {
    open spec fn encodable(p: ClientboundResourcePackPushView) -> bool {
        true
    }

    open spec fn reads_to_end() -> bool {
        true
    }

    proof fn lemma_roundtrip(p: ClientboundResourcePackPushView, rest: Seq<u8>) {
        broadcast use group_wire_roundtrip;

        assert(p.raw + rest =~= p.raw);
    }
}

impl Encode for ClientboundResourcePackPush {
    fn encode(&self, dst: &mut BytesMut) -> (r: Result<(), ProtocolError>) {
        let ghost d0 = bytes_mut_data(*dst);
        put_slice(dst, self.raw.as_slice());
        let ghost mut e: Seq<u8> = self@.raw;
        Ok(())
    }
}

impl Decode for ClientboundResourcePackPush {
    fn decode(src: &mut Bytes) -> (r: Result<Self, ProtocolError>) {
        let raw = take_remaining(src);
        Ok(Self { raw })
    }
}

// ── ClientboundRotateHead ─────────────────────────────────────────────

#[derive(Debug, Clone, PartialEq)]
pub struct ClientboundRotateHead {
    pub raw: Vec<u8>,
}

pub struct ClientboundRotateHeadView {
    pub raw: Seq<u8>,
}

impl View for ClientboundRotateHead {
    type V = ClientboundRotateHeadView;

    open spec fn view(&self) -> ClientboundRotateHeadView {
        ClientboundRotateHeadView {
            raw: self.raw@,
        }
    }
}

impl PacketId for ClientboundRotateHead {
    open spec fn spec_packet_id(ver: u32) -> u8 {
        0x4C
    }

    fn packet_id(_ver: u32) -> (r: u8) {
        0x4C
    }
}

impl WireFormat for ClientboundRotateHead {
    open spec fn spec_encode(p: ClientboundRotateHeadView) -> Seq<u8> {
        p.raw
    }

    open spec fn spec_decode(s: Seq<u8>) -> Parsed<ClientboundRotateHeadView> {
        then(take_rest(s), |raw: Seq<u8>, s: Seq<u8>| (Ok(ClientboundRotateHeadView { raw }), s))
    }
}

impl Roundtrip for ClientboundRotateHead {
    open spec fn encodable(p: ClientboundRotateHeadView) -> bool {
        true
    }

    open spec fn reads_to_end() -> bool {
        true
    }

    proof fn lemma_roundtrip(p: ClientboundRotateHeadView, rest: Seq<u8>) {
        broadcast use group_wire_roundtrip;

        assert(p.raw + rest =~= p.raw);
    }
}

impl Encode for ClientboundRotateHead {
    fn encode(&self, dst: &mut BytesMut) -> (r: Result<(), ProtocolError>) {
        let ghost d0 = bytes_mut_data(*dst);
        put_slice(dst, self.raw.as_slice());
        let ghost mut e: Seq<u8> = self@.raw;
        Ok(())
    }
}

impl Decode for ClientboundRotateHead {
    fn decode(src: &mut Bytes) -> (r: Result<Self, ProtocolError>) {
        let raw = take_remaining(src);
        Ok(Self { raw })
    }
}

// ── ClientboundSectionBlocksUpdate ────────────────────────────────────

#[derive(Debug, Clone, PartialEq)]
pub struct ClientboundSectionBlocksUpdate {
    pub raw: Vec<u8>,
}

pub struct ClientboundSectionBlocksUpdateView {
    pub raw: Seq<u8>,
}

impl View for ClientboundSectionBlocksUpdate {
    type V = ClientboundSectionBlocksUpdateView;

    open spec fn view(&self) -> ClientboundSectionBlocksUpdateView {
        ClientboundSectionBlocksUpdateView {
            raw: self.raw@,
        }
    }
}

impl PacketId for ClientboundSectionBlocksUpdate {
    open spec fn spec_packet_id(ver: u32) -> u8 {
        0x4D
    }

    fn packet_id(_ver: u32) -> (r: u8) {
        0x4D
    }
}

impl WireFormat for ClientboundSectionBlocksUpdate {
    open spec fn spec_encode(p: ClientboundSectionBlocksUpdateView) -> Seq<u8> {
        p.raw
    }

    open spec fn spec_decode(s: Seq<u8>) -> Parsed<ClientboundSectionBlocksUpdateView> {
        then(take_rest(s), |raw: Seq<u8>, s: Seq<u8>| (Ok(ClientboundSectionBlocksUpdateView { raw }), s))
    }
}

impl Roundtrip for ClientboundSectionBlocksUpdate {
    open spec fn encodable(p: ClientboundSectionBlocksUpdateView) -> bool {
        true
    }

    open spec fn reads_to_end() -> bool {
        true
    }

    proof fn lemma_roundtrip(p: ClientboundSectionBlocksUpdateView, rest: Seq<u8>) {
        broadcast use group_wire_roundtrip;

        assert(p.raw + rest =~= p.raw);
    }
}

impl Encode for ClientboundSectionBlocksUpdate {
    fn encode(&self, dst: &mut BytesMut) -> (r: Result<(), ProtocolError>) {
        let ghost d0 = bytes_mut_data(*dst);
        put_slice(dst, self.raw.as_slice());
        let ghost mut e: Seq<u8> = self@.raw;
        Ok(())
    }
}

impl Decode for ClientboundSectionBlocksUpdate {
    fn decode(src: &mut Bytes) -> (r: Result<Self, ProtocolError>) {
        let raw = take_remaining(src);
        Ok(Self { raw })
    }
}

// ── ClientboundSelectAdvancementsTab ──────────────────────────────────

#[derive(Debug, Clone, PartialEq)]
pub struct ClientboundSelectAdvancementsTab {
    pub raw: Vec<u8>,
}

pub struct ClientboundSelectAdvancementsTabView {
    pub raw: Seq<u8>,
}

impl View for ClientboundSelectAdvancementsTab {
    type V = ClientboundSelectAdvancementsTabView;

    open spec fn view(&self) -> ClientboundSelectAdvancementsTabView {
        ClientboundSelectAdvancementsTabView {
            raw: self.raw@,
        }
    }
}

impl PacketId for ClientboundSelectAdvancementsTab {
    open spec fn spec_packet_id(ver: u32) -> u8 {
        0x4E
    }

    fn packet_id(_ver: u32) -> (r: u8) {
        0x4E
    }
}

impl WireFormat for ClientboundSelectAdvancementsTab {
    open spec fn spec_encode(p: ClientboundSelectAdvancementsTabView) -> Seq<u8> {
        p.raw
    }

    open spec fn spec_decode(s: Seq<u8>) -> Parsed<ClientboundSelectAdvancementsTabView> {
        then(take_rest(s), |raw: Seq<u8>, s: Seq<u8>| (Ok(ClientboundSelectAdvancementsTabView { raw }), s))
    }
}

impl Roundtrip for ClientboundSelectAdvancementsTab {
    open spec fn encodable(p: ClientboundSelectAdvancementsTabView) -> bool {
        true
    }

    open spec fn reads_to_end() -> bool {
        true
    }

    proof fn lemma_roundtrip(p: ClientboundSelectAdvancementsTabView, rest: Seq<u8>) {
        broadcast use group_wire_roundtrip;

        assert(p.raw + rest =~= p.raw);
    }
}

impl Encode for ClientboundSelectAdvancementsTab {
    fn encode(&self, dst: &mut BytesMut) -> (r: Result<(), ProtocolError>) {
        let ghost d0 = bytes_mut_data(*dst);
        put_slice(dst, self.raw.as_slice());
        let ghost mut e: Seq<u8> = self@.raw;
        Ok(())
    }
}

impl Decode for ClientboundSelectAdvancementsTab {
    fn decode(src: &mut Bytes) -> (r: Result<Self, ProtocolError>) {
        let raw = take_remaining(src);
        Ok(Self { raw })
    }
}

// ── ClientboundServerData ─────────────────────────────────────────────

#[derive(Debug, Clone, PartialEq)]
pub struct ClientboundServerData {
    pub raw: Vec<u8>,
}

pub struct ClientboundServerDataView {
    pub raw: Seq<u8>,
}

impl View for ClientboundServerData {
    type V = ClientboundServerDataView;

    open spec fn view(&self) -> ClientboundServerDataView {
        ClientboundServerDataView {
            raw: self.raw@,
        }
    }
}

impl PacketId for ClientboundServerData {
    open spec fn spec_packet_id(ver: u32) -> u8 {
        0x4F
    }

    fn packet_id(_ver: u32) -> (r: u8) {
        0x4F
    }
}

impl WireFormat for ClientboundServerData {
    open spec fn spec_encode(p: ClientboundServerDataView) -> Seq<u8> {
        p.raw
    }

    open spec fn spec_decode(s: Seq<u8>) -> Parsed<ClientboundServerDataView> {
        then(take_rest(s), |raw: Seq<u8>, s: Seq<u8>| (Ok(ClientboundServerDataView { raw }), s))
    }
}

impl Roundtrip for ClientboundServerData {
    open spec fn encodable(p: ClientboundServerDataView) -> bool {
        true
    }

    open spec fn reads_to_end() -> bool {
        true
    }

    proof fn lemma_roundtrip(p: ClientboundServerDataView, rest: Seq<u8>) {
        broadcast use group_wire_roundtrip;

        assert(p.raw + rest =~= p.raw);
    }
}

impl Encode for ClientboundServerData {
    fn encode(&self, dst: &mut BytesMut) -> (r: Result<(), ProtocolError>) {
        let ghost d0 = bytes_mut_data(*dst);
        put_slice(dst, self.raw.as_slice());
        let ghost mut e: Seq<u8> = self@.raw;
        Ok(())
    }
}

impl Decode for ClientboundServerData {
    fn decode(src: &mut Bytes) -> (r: Result<Self, ProtocolError>) {
        let raw = take_remaining(src);
        Ok(Self { raw })
    }
}

// ── ClientboundSetActionBarText ───────────────────────────────────────

#[derive(Debug, Clone, PartialEq)]
pub struct ClientboundSetActionBarText {
    pub raw: Vec<u8>,
}

pub struct ClientboundSetActionBarTextView {
    pub raw: Seq<u8>,
}

impl View for ClientboundSetActionBarText {
    type V = ClientboundSetActionBarTextView;

    open spec fn view(&self) -> ClientboundSetActionBarTextView {
        ClientboundSetActionBarTextView {
            raw: self.raw@,
        }
    }
}

impl PacketId for ClientboundSetActionBarText {
    open spec fn spec_packet_id(ver: u32) -> u8 {
        0x50
    }

    fn packet_id(_ver: u32) -> (r: u8) {
        0x50
    }
}

impl WireFormat for ClientboundSetActionBarText {
    open spec fn spec_encode(p: ClientboundSetActionBarTextView) -> Seq<u8> {
        p.raw
    }

    open spec fn spec_decode(s: Seq<u8>) -> Parsed<ClientboundSetActionBarTextView> {
        then(take_rest(s), |raw: Seq<u8>, s: Seq<u8>| (Ok(ClientboundSetActionBarTextView { raw }), s))
    }
}

impl Roundtrip for ClientboundSetActionBarText {
    open spec fn encodable(p: ClientboundSetActionBarTextView) -> bool {
        true
    }

    open spec fn reads_to_end() -> bool {
        true
    }

    proof fn lemma_roundtrip(p: ClientboundSetActionBarTextView, rest: Seq<u8>) {
        broadcast use group_wire_roundtrip;

        assert(p.raw + rest =~= p.raw);
    }
}

impl Encode for ClientboundSetActionBarText {
    fn encode(&self, dst: &mut BytesMut) -> (r: Result<(), ProtocolError>) {
        let ghost d0 = bytes_mut_data(*dst);
        put_slice(dst, self.raw.as_slice());
        let ghost mut e: Seq<u8> = self@.raw;
        Ok(())
    }
}

impl Decode for ClientboundSetActionBarText {
    fn decode(src: &mut Bytes) -> (r: Result<Self, ProtocolError>) {
        let raw = take_remaining(src);
        Ok(Self { raw })
    }
}

// ── ClientboundSetBorderCenter ────────────────────────────────────────

#[derive(Debug, Clone, PartialEq)]
pub struct ClientboundSetBorderCenter {
    pub raw: Vec<u8>,
}

pub struct ClientboundSetBorderCenterView {
    pub raw: Seq<u8>,
}

impl View for ClientboundSetBorderCenter {
    type V = ClientboundSetBorderCenterView;

    open spec fn view(&self) -> ClientboundSetBorderCenterView {
        ClientboundSetBorderCenterView {
            raw: self.raw@,
        }
    }
}

impl PacketId for ClientboundSetBorderCenter {
    open spec fn spec_packet_id(ver: u32) -> u8 {
        0x51
    }

    fn packet_id(_ver: u32) -> (r: u8) {
        0x51
    }
}

impl WireFormat for ClientboundSetBorderCenter {
    open spec fn spec_encode(p: ClientboundSetBorderCenterView) -> Seq<u8> {
        p.raw
    }

    open spec fn spec_decode(s: Seq<u8>) -> Parsed<ClientboundSetBorderCenterView> {
        then(take_rest(s), |raw: Seq<u8>, s: Seq<u8>| (Ok(ClientboundSetBorderCenterView { raw }), s))
    }
}

impl Roundtrip for ClientboundSetBorderCenter {
    open spec fn encodable(p: ClientboundSetBorderCenterView) -> bool {
        true
    }

    open spec fn reads_to_end() -> bool {
        true
    }

    proof fn lemma_roundtrip(p: ClientboundSetBorderCenterView, rest: Seq<u8>) {
        broadcast use group_wire_roundtrip;

        assert(p.raw + rest =~= p.raw);
    }
}

impl Encode for ClientboundSetBorderCenter {
    fn encode(&self, dst: &mut BytesMut) -> (r: Result<(), ProtocolError>) {
        let ghost d0 = bytes_mut_data(*dst);
        put_slice(dst, self.raw.as_slice());
        let ghost mut e: Seq<u8> = self@.raw;
        Ok(())
    }
}

impl Decode for ClientboundSetBorderCenter {
    fn decode(src: &mut Bytes) -> (r: Result<Self, ProtocolError>) {
        let raw = take_remaining(src);
        Ok(Self { raw })
    }
}

// ── ClientboundSetBorderLerpSize ──────────────────────────────────────

#[derive(Debug, Clone, PartialEq)]
pub struct ClientboundSetBorderLerpSize {
    pub raw: Vec<u8>,
}

pub struct ClientboundSetBorderLerpSizeView {
    pub raw: Seq<u8>,
}

impl View for ClientboundSetBorderLerpSize {
    type V = ClientboundSetBorderLerpSizeView;

    open spec fn view(&self) -> ClientboundSetBorderLerpSizeView {
        ClientboundSetBorderLerpSizeView {
            raw: self.raw@,
        }
    }
}

impl PacketId for ClientboundSetBorderLerpSize {
    open spec fn spec_packet_id(ver: u32) -> u8 {
        0x52
    }

    fn packet_id(_ver: u32) -> (r: u8) {
        0x52
    }
}

impl WireFormat for ClientboundSetBorderLerpSize {
    open spec fn spec_encode(p: ClientboundSetBorderLerpSizeView) -> Seq<u8> {
        p.raw
    }

    open spec fn spec_decode(s: Seq<u8>) -> Parsed<ClientboundSetBorderLerpSizeView> {
        then(take_rest(s), |raw: Seq<u8>, s: Seq<u8>| (Ok(ClientboundSetBorderLerpSizeView { raw }), s))
    }
}

impl Roundtrip for ClientboundSetBorderLerpSize {
    open spec fn encodable(p: ClientboundSetBorderLerpSizeView) -> bool {
        true
    }

    open spec fn reads_to_end() -> bool {
        true
    }

    proof fn lemma_roundtrip(p: ClientboundSetBorderLerpSizeView, rest: Seq<u8>) {
        broadcast use group_wire_roundtrip;

        assert(p.raw + rest =~= p.raw);
    }
}

impl Encode for ClientboundSetBorderLerpSize {
    fn encode(&self, dst: &mut BytesMut) -> (r: Result<(), ProtocolError>) {
        let ghost d0 = bytes_mut_data(*dst);
        put_slice(dst, self.raw.as_slice());
        let ghost mut e: Seq<u8> = self@.raw;
        Ok(())
    }
}

impl Decode for ClientboundSetBorderLerpSize {
    fn decode(src: &mut Bytes) -> (r: Result<Self, ProtocolError>) {
        let raw = take_remaining(src);
        Ok(Self { raw })
    }
}

// ── ClientboundSetBorderSize ──────────────────────────────────────────

#[derive(Debug, Clone, PartialEq)]
pub struct ClientboundSetBorderSize {
    pub raw: Vec<u8>,
}

pub struct ClientboundSetBorderSizeView {
    pub raw: Seq<u8>,
}

impl View for ClientboundSetBorderSize {
    type V = ClientboundSetBorderSizeView;

    open spec fn view(&self) -> ClientboundSetBorderSizeView {
        ClientboundSetBorderSizeView {
            raw: self.raw@,
        }
    }
}

impl PacketId for ClientboundSetBorderSize {
    open spec fn spec_packet_id(ver: u32) -> u8 {
        0x53
    }

    fn packet_id(_ver: u32) -> (r: u8) {
        0x53
    }
}

impl WireFormat for ClientboundSetBorderSize {
    open spec fn spec_encode(p: ClientboundSetBorderSizeView) -> Seq<u8> {
        p.raw
    }

    open spec fn spec_decode(s: Seq<u8>) -> Parsed<ClientboundSetBorderSizeView> {
        then(take_rest(s), |raw: Seq<u8>, s: Seq<u8>| (Ok(ClientboundSetBorderSizeView { raw }), s))
    }
}

impl Roundtrip for ClientboundSetBorderSize {
    open spec fn encodable(p: ClientboundSetBorderSizeView) -> bool {
        true
    }

    open spec fn reads_to_end() -> bool {
        true
    }

    proof fn lemma_roundtrip(p: ClientboundSetBorderSizeView, rest: Seq<u8>) {
        broadcast use group_wire_roundtrip;

        assert(p.raw + rest =~= p.raw);
    }
}

impl Encode for ClientboundSetBorderSize {
    fn encode(&self, dst: &mut BytesMut) -> (r: Result<(), ProtocolError>) {
        let ghost d0 = bytes_mut_data(*dst);
        put_slice(dst, self.raw.as_slice());
        let ghost mut e: Seq<u8> = self@.raw;
        Ok(())
    }
}

impl Decode for ClientboundSetBorderSize {
    fn decode(src: &mut Bytes) -> (r: Result<Self, ProtocolError>) {
        let raw = take_remaining(src);
        Ok(Self { raw })
    }
}

// ── ClientboundSetBorderWarningDelay ──────────────────────────────────

#[derive(Debug, Clone, PartialEq)]
pub struct ClientboundSetBorderWarningDelay {
    pub raw: Vec<u8>,
}

pub struct ClientboundSetBorderWarningDelayView {
    pub raw: Seq<u8>,
}

impl View for ClientboundSetBorderWarningDelay {
    type V = ClientboundSetBorderWarningDelayView;

    open spec fn view(&self) -> ClientboundSetBorderWarningDelayView {
        ClientboundSetBorderWarningDelayView {
            raw: self.raw@,
        }
    }
}

impl PacketId for ClientboundSetBorderWarningDelay {
    open spec fn spec_packet_id(ver: u32) -> u8 {
        0x54
    }

    fn packet_id(_ver: u32) -> (r: u8) {
        0x54
    }
}

impl WireFormat for ClientboundSetBorderWarningDelay {
    open spec fn spec_encode(p: ClientboundSetBorderWarningDelayView) -> Seq<u8> {
        p.raw
    }

    open spec fn spec_decode(s: Seq<u8>) -> Parsed<ClientboundSetBorderWarningDelayView> {
        then(take_rest(s), |raw: Seq<u8>, s: Seq<u8>| (Ok(ClientboundSetBorderWarningDelayView { raw }), s))
    }
}

impl Roundtrip for ClientboundSetBorderWarningDelay {
    open spec fn encodable(p: ClientboundSetBorderWarningDelayView) -> bool {
        true
    }

    open spec fn reads_to_end() -> bool {
        true
    }

    proof fn lemma_roundtrip(p: ClientboundSetBorderWarningDelayView, rest: Seq<u8>) {
        broadcast use group_wire_roundtrip;

        assert(p.raw + rest =~= p.raw);
    }
}

impl Encode for ClientboundSetBorderWarningDelay {
    fn encode(&self, dst: &mut BytesMut) -> (r: Result<(), ProtocolError>) {
        let ghost d0 = bytes_mut_data(*dst);
        put_slice(dst, self.raw.as_slice());
        let ghost mut e: Seq<u8> = self@.raw;
        Ok(())
    }
}

impl Decode for ClientboundSetBorderWarningDelay {
    fn decode(src: &mut Bytes) -> (r: Result<Self, ProtocolError>) {
        let raw = take_remaining(src);
        Ok(Self { raw })
    }
}

// ── ClientboundSetBorderWarningDistance ───────────────────────────────

#[derive(Debug, Clone, PartialEq)]
pub struct ClientboundSetBorderWarningDistance {
    pub raw: Vec<u8>,
}

pub struct ClientboundSetBorderWarningDistanceView {
    pub raw: Seq<u8>,
}

impl View for ClientboundSetBorderWarningDistance {
    type V = ClientboundSetBorderWarningDistanceView;

    open spec fn view(&self) -> ClientboundSetBorderWarningDistanceView {
        ClientboundSetBorderWarningDistanceView {
            raw: self.raw@,
        }
    }
}

impl PacketId for ClientboundSetBorderWarningDistance {
    open spec fn spec_packet_id(ver: u32) -> u8 {
        0x55
    }

    fn packet_id(_ver: u32) -> (r: u8) {
        0x55
    }
}

impl WireFormat for ClientboundSetBorderWarningDistance {
    open spec fn spec_encode(p: ClientboundSetBorderWarningDistanceView) -> Seq<u8> {
        p.raw
    }

    open spec fn spec_decode(s: Seq<u8>) -> Parsed<ClientboundSetBorderWarningDistanceView> {
        then(take_rest(s), |raw: Seq<u8>, s: Seq<u8>| (Ok(ClientboundSetBorderWarningDistanceView { raw }), s))
    }
}

impl Roundtrip for ClientboundSetBorderWarningDistance {
    open spec fn encodable(p: ClientboundSetBorderWarningDistanceView) -> bool {
        true
    }

    open spec fn reads_to_end() -> bool {
        true
    }

    proof fn lemma_roundtrip(p: ClientboundSetBorderWarningDistanceView, rest: Seq<u8>) {
        broadcast use group_wire_roundtrip;

        assert(p.raw + rest =~= p.raw);
    }
}

impl Encode for ClientboundSetBorderWarningDistance {
    fn encode(&self, dst: &mut BytesMut) -> (r: Result<(), ProtocolError>) {
        let ghost d0 = bytes_mut_data(*dst);
        put_slice(dst, self.raw.as_slice());
        let ghost mut e: Seq<u8> = self@.raw;
        Ok(())
    }
}

impl Decode for ClientboundSetBorderWarningDistance {
    fn decode(src: &mut Bytes) -> (r: Result<Self, ProtocolError>) {
        let raw = take_remaining(src);
        Ok(Self { raw })
    }
}

// ── ClientboundSetCamera ──────────────────────────────────────────────

#[derive(Debug, Clone, PartialEq)]
pub struct ClientboundSetCamera {
    pub raw: Vec<u8>,
}

pub struct ClientboundSetCameraView {
    pub raw: Seq<u8>,
}

impl View for ClientboundSetCamera {
    type V = ClientboundSetCameraView;

    open spec fn view(&self) -> ClientboundSetCameraView {
        ClientboundSetCameraView {
            raw: self.raw@,
        }
    }
}

impl PacketId for ClientboundSetCamera {
    open spec fn spec_packet_id(ver: u32) -> u8 {
        0x56
    }

    fn packet_id(_ver: u32) -> (r: u8) {
        0x56
    }
}

impl WireFormat for ClientboundSetCamera {
    open spec fn spec_encode(p: ClientboundSetCameraView) -> Seq<u8> {
        p.raw
    }

    open spec fn spec_decode(s: Seq<u8>) -> Parsed<ClientboundSetCameraView> {
        then(take_rest(s), |raw: Seq<u8>, s: Seq<u8>| (Ok(ClientboundSetCameraView { raw }), s))
    }
}

impl Roundtrip for ClientboundSetCamera {
    open spec fn encodable(p: ClientboundSetCameraView) -> bool {
        true
    }

    open spec fn reads_to_end() -> bool {
        true
    }

    proof fn lemma_roundtrip(p: ClientboundSetCameraView, rest: Seq<u8>) {
        broadcast use group_wire_roundtrip;

        assert(p.raw + rest =~= p.raw);
    }
}

impl Encode for ClientboundSetCamera {
    fn encode(&self, dst: &mut BytesMut) -> (r: Result<(), ProtocolError>) {
        let ghost d0 = bytes_mut_data(*dst);
        put_slice(dst, self.raw.as_slice());
        let ghost mut e: Seq<u8> = self@.raw;
        Ok(())
    }
}

impl Decode for ClientboundSetCamera {
    fn decode(src: &mut Bytes) -> (r: Result<Self, ProtocolError>) {
        let raw = take_remaining(src);
        Ok(Self { raw })
    }
}

// ── ClientboundSetCursorItem ──────────────────────────────────────────

#[derive(Debug, Clone, PartialEq)]
pub struct ClientboundSetCursorItem {
    pub raw: Vec<u8>,
}

pub struct ClientboundSetCursorItemView {
    pub raw: Seq<u8>,
}

impl View for ClientboundSetCursorItem {
    type V = ClientboundSetCursorItemView;

    open spec fn view(&self) -> ClientboundSetCursorItemView {
        ClientboundSetCursorItemView {
            raw: self.raw@,
        }
    }
}

impl PacketId for ClientboundSetCursorItem {
    open spec fn spec_packet_id(ver: u32) -> u8 {
        0x57
    }

    fn packet_id(_ver: u32) -> (r: u8) {
        0x57
    }
}

impl WireFormat for ClientboundSetCursorItem {
    open spec fn spec_encode(p: ClientboundSetCursorItemView) -> Seq<u8> {
        p.raw
    }

    open spec fn spec_decode(s: Seq<u8>) -> Parsed<ClientboundSetCursorItemView> {
        then(take_rest(s), |raw: Seq<u8>, s: Seq<u8>| (Ok(ClientboundSetCursorItemView { raw }), s))
    }
}

impl Roundtrip for ClientboundSetCursorItem {
    open spec fn encodable(p: ClientboundSetCursorItemView) -> bool {
        true
    }

    open spec fn reads_to_end() -> bool {
        true
    }

    proof fn lemma_roundtrip(p: ClientboundSetCursorItemView, rest: Seq<u8>) {
        broadcast use group_wire_roundtrip;

        assert(p.raw + rest =~= p.raw);
    }
}

impl Encode for ClientboundSetCursorItem {
    fn encode(&self, dst: &mut BytesMut) -> (r: Result<(), ProtocolError>) {
        let ghost d0 = bytes_mut_data(*dst);
        put_slice(dst, self.raw.as_slice());
        let ghost mut e: Seq<u8> = self@.raw;
        Ok(())
    }
}

impl Decode for ClientboundSetCursorItem {
    fn decode(src: &mut Bytes) -> (r: Result<Self, ProtocolError>) {
        let raw = take_remaining(src);
        Ok(Self { raw })
    }
}

// ── ClientboundSetEntityLink ──────────────────────────────────────────

#[derive(Debug, Clone, PartialEq)]
pub struct ClientboundSetEntityLink {
    pub raw: Vec<u8>,
}

pub struct ClientboundSetEntityLinkView {
    pub raw: Seq<u8>,
}

impl View for ClientboundSetEntityLink {
    type V = ClientboundSetEntityLinkView;

    open spec fn view(&self) -> ClientboundSetEntityLinkView {
        ClientboundSetEntityLinkView {
            raw: self.raw@,
        }
    }
}

impl PacketId for ClientboundSetEntityLink {
    open spec fn spec_packet_id(ver: u32) -> u8 {
        0x58
    }

    fn packet_id(_ver: u32) -> (r: u8) {
        0x58
    }
}

impl WireFormat for ClientboundSetEntityLink {
    open spec fn spec_encode(p: ClientboundSetEntityLinkView) -> Seq<u8> {
        p.raw
    }

    open spec fn spec_decode(s: Seq<u8>) -> Parsed<ClientboundSetEntityLinkView> {
        then(take_rest(s), |raw: Seq<u8>, s: Seq<u8>| (Ok(ClientboundSetEntityLinkView { raw }), s))
    }
}

impl Roundtrip for ClientboundSetEntityLink {
    open spec fn encodable(p: ClientboundSetEntityLinkView) -> bool {
        true
    }

    open spec fn reads_to_end() -> bool {
        true
    }

    proof fn lemma_roundtrip(p: ClientboundSetEntityLinkView, rest: Seq<u8>) {
        broadcast use group_wire_roundtrip;

        assert(p.raw + rest =~= p.raw);
    }
}

impl Encode for ClientboundSetEntityLink {
    fn encode(&self, dst: &mut BytesMut) -> (r: Result<(), ProtocolError>) {
        let ghost d0 = bytes_mut_data(*dst);
        put_slice(dst, self.raw.as_slice());
        let ghost mut e: Seq<u8> = self@.raw;
        Ok(())
    }
}

impl Decode for ClientboundSetEntityLink {
    fn decode(src: &mut Bytes) -> (r: Result<Self, ProtocolError>) {
        let raw = take_remaining(src);
        Ok(Self { raw })
    }
}

// ── ClientboundSetEntityMotion ────────────────────────────────────────

#[derive(Debug, Clone, PartialEq)]
pub struct ClientboundSetEntityMotion {
    pub raw: Vec<u8>,
}

pub struct ClientboundSetEntityMotionView {
    pub raw: Seq<u8>,
}

impl View for ClientboundSetEntityMotion {
    type V = ClientboundSetEntityMotionView;

    open spec fn view(&self) -> ClientboundSetEntityMotionView {
        ClientboundSetEntityMotionView {
            raw: self.raw@,
        }
    }
}

impl PacketId for ClientboundSetEntityMotion {
    open spec fn spec_packet_id(ver: u32) -> u8 {
        0x59
    }

    fn packet_id(_ver: u32) -> (r: u8) {
        0x59
    }
}

impl WireFormat for ClientboundSetEntityMotion {
    open spec fn spec_encode(p: ClientboundSetEntityMotionView) -> Seq<u8> {
        p.raw
    }

    open spec fn spec_decode(s: Seq<u8>) -> Parsed<ClientboundSetEntityMotionView> {
        then(take_rest(s), |raw: Seq<u8>, s: Seq<u8>| (Ok(ClientboundSetEntityMotionView { raw }), s))
    }
}

impl Roundtrip for ClientboundSetEntityMotion {
    open spec fn encodable(p: ClientboundSetEntityMotionView) -> bool {
        true
    }

    open spec fn reads_to_end() -> bool {
        true
    }

    proof fn lemma_roundtrip(p: ClientboundSetEntityMotionView, rest: Seq<u8>) {
        broadcast use group_wire_roundtrip;

        assert(p.raw + rest =~= p.raw);
    }
}

impl Encode for ClientboundSetEntityMotion {
    fn encode(&self, dst: &mut BytesMut) -> (r: Result<(), ProtocolError>) {
        let ghost d0 = bytes_mut_data(*dst);
        put_slice(dst, self.raw.as_slice());
        let ghost mut e: Seq<u8> = self@.raw;
        Ok(())
    }
}

impl Decode for ClientboundSetEntityMotion {
    fn decode(src: &mut Bytes) -> (r: Result<Self, ProtocolError>) {
        let raw = take_remaining(src);
        Ok(Self { raw })
    }
}

// ── ClientboundSetEquipment ───────────────────────────────────────────

#[derive(Debug, Clone, PartialEq)]
pub struct ClientboundSetEquipment {
    pub raw: Vec<u8>,
}

pub struct ClientboundSetEquipmentView {
    pub raw: Seq<u8>,
}

impl View for ClientboundSetEquipment {
    type V = ClientboundSetEquipmentView;

    open spec fn view(&self) -> ClientboundSetEquipmentView {
        ClientboundSetEquipmentView {
            raw: self.raw@,
        }
    }
}

impl PacketId for ClientboundSetEquipment {
    open spec fn spec_packet_id(ver: u32) -> u8 {
        0x5A
    }

    fn packet_id(_ver: u32) -> (r: u8) {
        0x5A
    }
}

impl WireFormat for ClientboundSetEquipment {
    open spec fn spec_encode(p: ClientboundSetEquipmentView) -> Seq<u8> {
        p.raw
    }

    open spec fn spec_decode(s: Seq<u8>) -> Parsed<ClientboundSetEquipmentView> {
        then(take_rest(s), |raw: Seq<u8>, s: Seq<u8>| (Ok(ClientboundSetEquipmentView { raw }), s))
    }
}

impl Roundtrip for ClientboundSetEquipment {
    open spec fn encodable(p: ClientboundSetEquipmentView) -> bool {
        true
    }

    open spec fn reads_to_end() -> bool {
        true
    }

    proof fn lemma_roundtrip(p: ClientboundSetEquipmentView, rest: Seq<u8>) {
        broadcast use group_wire_roundtrip;

        assert(p.raw + rest =~= p.raw);
    }
}

impl Encode for ClientboundSetEquipment {
    fn encode(&self, dst: &mut BytesMut) -> (r: Result<(), ProtocolError>) {
        let ghost d0 = bytes_mut_data(*dst);
        put_slice(dst, self.raw.as_slice());
        let ghost mut e: Seq<u8> = self@.raw;
        Ok(())
    }
}

impl Decode for ClientboundSetEquipment {
    fn decode(src: &mut Bytes) -> (r: Result<Self, ProtocolError>) {
        let raw = take_remaining(src);
        Ok(Self { raw })
    }
}

// ── ClientboundSetExperience ──────────────────────────────────────────

#[derive(Debug, Clone, PartialEq)]
pub struct ClientboundSetExperience {
    pub raw: Vec<u8>,
}

pub struct ClientboundSetExperienceView {
    pub raw: Seq<u8>,
}

impl View for ClientboundSetExperience {
    type V = ClientboundSetExperienceView;

    open spec fn view(&self) -> ClientboundSetExperienceView {
        ClientboundSetExperienceView {
            raw: self.raw@,
        }
    }
}

impl PacketId for ClientboundSetExperience {
    open spec fn spec_packet_id(ver: u32) -> u8 {
        0x5B
    }

    fn packet_id(_ver: u32) -> (r: u8) {
        0x5B
    }
}

impl WireFormat for ClientboundSetExperience {
    open spec fn spec_encode(p: ClientboundSetExperienceView) -> Seq<u8> {
        p.raw
    }

    open spec fn spec_decode(s: Seq<u8>) -> Parsed<ClientboundSetExperienceView> {
        then(take_rest(s), |raw: Seq<u8>, s: Seq<u8>| (Ok(ClientboundSetExperienceView { raw }), s))
    }
}

impl Roundtrip for ClientboundSetExperience {
    open spec fn encodable(p: ClientboundSetExperienceView) -> bool {
        true
    }

    open spec fn reads_to_end() -> bool {
        true
    }

    proof fn lemma_roundtrip(p: ClientboundSetExperienceView, rest: Seq<u8>) {
        broadcast use group_wire_roundtrip;

        assert(p.raw + rest =~= p.raw);
    }
}

impl Encode for ClientboundSetExperience {
    fn encode(&self, dst: &mut BytesMut) -> (r: Result<(), ProtocolError>) {
        let ghost d0 = bytes_mut_data(*dst);
        put_slice(dst, self.raw.as_slice());
        let ghost mut e: Seq<u8> = self@.raw;
        Ok(())
    }
}

impl Decode for ClientboundSetExperience {
    fn decode(src: &mut Bytes) -> (r: Result<Self, ProtocolError>) {
        let raw = take_remaining(src);
        Ok(Self { raw })
    }
}

// ── ClientboundSetHealth ──────────────────────────────────────────────

#[derive(Debug, Clone, PartialEq)]
pub struct ClientboundSetHealth {
    pub raw: Vec<u8>,
}

pub struct ClientboundSetHealthView {
    pub raw: Seq<u8>,
}

impl View for ClientboundSetHealth {
    type V = ClientboundSetHealthView;

    open spec fn view(&self) -> ClientboundSetHealthView {
        ClientboundSetHealthView {
            raw: self.raw@,
        }
    }
}

impl PacketId for ClientboundSetHealth {
    open spec fn spec_packet_id(ver: u32) -> u8 {
        0x5C
    }

    fn packet_id(_ver: u32) -> (r: u8) {
        0x5C
    }
}

impl WireFormat for ClientboundSetHealth {
    open spec fn spec_encode(p: ClientboundSetHealthView) -> Seq<u8> {
        p.raw
    }

    open spec fn spec_decode(s: Seq<u8>) -> Parsed<ClientboundSetHealthView> {
        then(take_rest(s), |raw: Seq<u8>, s: Seq<u8>| (Ok(ClientboundSetHealthView { raw }), s))
    }
}

impl Roundtrip for ClientboundSetHealth {
    open spec fn encodable(p: ClientboundSetHealthView) -> bool {
        true
    }

    open spec fn reads_to_end() -> bool {
        true
    }

    proof fn lemma_roundtrip(p: ClientboundSetHealthView, rest: Seq<u8>) {
        broadcast use group_wire_roundtrip;

        assert(p.raw + rest =~= p.raw);
    }
}

impl Encode for ClientboundSetHealth {
    fn encode(&self, dst: &mut BytesMut) -> (r: Result<(), ProtocolError>) {
        let ghost d0 = bytes_mut_data(*dst);
        put_slice(dst, self.raw.as_slice());
        let ghost mut e: Seq<u8> = self@.raw;
        Ok(())
    }
}

impl Decode for ClientboundSetHealth {
    fn decode(src: &mut Bytes) -> (r: Result<Self, ProtocolError>) {
        let raw = take_remaining(src);
        Ok(Self { raw })
    }
}

// ── ClientboundSetCarriedItem ─────────────────────────────────────────

#[derive(Debug, Clone, PartialEq)]
pub struct ClientboundSetCarriedItem {
    pub raw: Vec<u8>,
}

pub struct ClientboundSetCarriedItemView {
    pub raw: Seq<u8>,
}

impl View for ClientboundSetCarriedItem {
    type V = ClientboundSetCarriedItemView;

    open spec fn view(&self) -> ClientboundSetCarriedItemView {
        ClientboundSetCarriedItemView {
            raw: self.raw@,
        }
    }
}

impl PacketId for ClientboundSetCarriedItem {
    open spec fn spec_packet_id(ver: u32) -> u8 {
        0x5D
    }

    fn packet_id(_ver: u32) -> (r: u8) {
        0x5D
    }
}

impl WireFormat for ClientboundSetCarriedItem {
    open spec fn spec_encode(p: ClientboundSetCarriedItemView) -> Seq<u8> {
        p.raw
    }

    open spec fn spec_decode(s: Seq<u8>) -> Parsed<ClientboundSetCarriedItemView> {
        then(take_rest(s), |raw: Seq<u8>, s: Seq<u8>| (Ok(ClientboundSetCarriedItemView { raw }), s))
    }
}

impl Roundtrip for ClientboundSetCarriedItem {
    open spec fn encodable(p: ClientboundSetCarriedItemView) -> bool {
        true
    }

    open spec fn reads_to_end() -> bool {
        true
    }

    proof fn lemma_roundtrip(p: ClientboundSetCarriedItemView, rest: Seq<u8>) {
        broadcast use group_wire_roundtrip;

        assert(p.raw + rest =~= p.raw);
    }
}

impl Encode for ClientboundSetCarriedItem {
    fn encode(&self, dst: &mut BytesMut) -> (r: Result<(), ProtocolError>) {
        let ghost d0 = bytes_mut_data(*dst);
        put_slice(dst, self.raw.as_slice());
        let ghost mut e: Seq<u8> = self@.raw;
        Ok(())
    }
}

impl Decode for ClientboundSetCarriedItem {
    fn decode(src: &mut Bytes) -> (r: Result<Self, ProtocolError>) {
        let raw = take_remaining(src);
        Ok(Self { raw })
    }
}

// ── ClientboundSetPlayerInventory ─────────────────────────────────────

#[derive(Debug, Clone, PartialEq)]
pub struct ClientboundSetPlayerInventory {
    pub raw: Vec<u8>,
}

pub struct ClientboundSetPlayerInventoryView {
    pub raw: Seq<u8>,
}

impl View for ClientboundSetPlayerInventory {
    type V = ClientboundSetPlayerInventoryView;

    open spec fn view(&self) -> ClientboundSetPlayerInventoryView {
        ClientboundSetPlayerInventoryView {
            raw: self.raw@,
        }
    }
}

impl PacketId for ClientboundSetPlayerInventory {
    open spec fn spec_packet_id(ver: u32) -> u8 {
        0x5E
    }

    fn packet_id(_ver: u32) -> (r: u8) {
        0x5E
    }
}

impl WireFormat for ClientboundSetPlayerInventory {
    open spec fn spec_encode(p: ClientboundSetPlayerInventoryView) -> Seq<u8> {
        p.raw
    }

    open spec fn spec_decode(s: Seq<u8>) -> Parsed<ClientboundSetPlayerInventoryView> {
        then(take_rest(s), |raw: Seq<u8>, s: Seq<u8>| (Ok(ClientboundSetPlayerInventoryView { raw }), s))
    }
}

impl Roundtrip for ClientboundSetPlayerInventory {
    open spec fn encodable(p: ClientboundSetPlayerInventoryView) -> bool {
        true
    }

    open spec fn reads_to_end() -> bool {
        true
    }

    proof fn lemma_roundtrip(p: ClientboundSetPlayerInventoryView, rest: Seq<u8>) {
        broadcast use group_wire_roundtrip;

        assert(p.raw + rest =~= p.raw);
    }
}

impl Encode for ClientboundSetPlayerInventory {
    fn encode(&self, dst: &mut BytesMut) -> (r: Result<(), ProtocolError>) {
        let ghost d0 = bytes_mut_data(*dst);
        put_slice(dst, self.raw.as_slice());
        let ghost mut e: Seq<u8> = self@.raw;
        Ok(())
    }
}

impl Decode for ClientboundSetPlayerInventory {
    fn decode(src: &mut Bytes) -> (r: Result<Self, ProtocolError>) {
        let raw = take_remaining(src);
        Ok(Self { raw })
    }
}

// ── ClientboundSetScoreboardObjective ─────────────────────────────────

#[derive(Debug, Clone, PartialEq)]
pub struct ClientboundSetScoreboardObjective {
    pub raw: Vec<u8>,
}

pub struct ClientboundSetScoreboardObjectiveView {
    pub raw: Seq<u8>,
}

impl View for ClientboundSetScoreboardObjective {
    type V = ClientboundSetScoreboardObjectiveView;

    open spec fn view(&self) -> ClientboundSetScoreboardObjectiveView {
        ClientboundSetScoreboardObjectiveView {
            raw: self.raw@,
        }
    }
}

impl PacketId for ClientboundSetScoreboardObjective {
    open spec fn spec_packet_id(ver: u32) -> u8 {
        0x5F
    }

    fn packet_id(_ver: u32) -> (r: u8) {
        0x5F
    }
}

impl WireFormat for ClientboundSetScoreboardObjective {
    open spec fn spec_encode(p: ClientboundSetScoreboardObjectiveView) -> Seq<u8> {
        p.raw
    }

    open spec fn spec_decode(s: Seq<u8>) -> Parsed<ClientboundSetScoreboardObjectiveView> {
        then(take_rest(s), |raw: Seq<u8>, s: Seq<u8>| (Ok(ClientboundSetScoreboardObjectiveView { raw }), s))
    }
}

impl Roundtrip for ClientboundSetScoreboardObjective {
    open spec fn encodable(p: ClientboundSetScoreboardObjectiveView) -> bool {
        true
    }

    open spec fn reads_to_end() -> bool {
        true
    }

    proof fn lemma_roundtrip(p: ClientboundSetScoreboardObjectiveView, rest: Seq<u8>) {
        broadcast use group_wire_roundtrip;

        assert(p.raw + rest =~= p.raw);
    }
}

impl Encode for ClientboundSetScoreboardObjective {
    fn encode(&self, dst: &mut BytesMut) -> (r: Result<(), ProtocolError>) {
        let ghost d0 = bytes_mut_data(*dst);
        put_slice(dst, self.raw.as_slice());
        let ghost mut e: Seq<u8> = self@.raw;
        Ok(())
    }
}

impl Decode for ClientboundSetScoreboardObjective {
    fn decode(src: &mut Bytes) -> (r: Result<Self, ProtocolError>) {
        let raw = take_remaining(src);
        Ok(Self { raw })
    }
}

// ── ClientboundSetScoreboardScore ─────────────────────────────────────

#[derive(Debug, Clone, PartialEq)]
pub struct ClientboundSetScoreboardScore {
    pub raw: Vec<u8>,
}

pub struct ClientboundSetScoreboardScoreView {
    pub raw: Seq<u8>,
}

impl View for ClientboundSetScoreboardScore {
    type V = ClientboundSetScoreboardScoreView;

    open spec fn view(&self) -> ClientboundSetScoreboardScoreView {
        ClientboundSetScoreboardScoreView {
            raw: self.raw@,
        }
    }
}

impl PacketId for ClientboundSetScoreboardScore {
    open spec fn spec_packet_id(ver: u32) -> u8 {
        0x60
    }

    fn packet_id(_ver: u32) -> (r: u8) {
        0x60
    }
}

impl WireFormat for ClientboundSetScoreboardScore {
    open spec fn spec_encode(p: ClientboundSetScoreboardScoreView) -> Seq<u8> {
        p.raw
    }

    open spec fn spec_decode(s: Seq<u8>) -> Parsed<ClientboundSetScoreboardScoreView> {
        then(take_rest(s), |raw: Seq<u8>, s: Seq<u8>| (Ok(ClientboundSetScoreboardScoreView { raw }), s))
    }
}

impl Roundtrip for ClientboundSetScoreboardScore {
    open spec fn encodable(p: ClientboundSetScoreboardScoreView) -> bool {
        true
    }

    open spec fn reads_to_end() -> bool {
        true
    }

    proof fn lemma_roundtrip(p: ClientboundSetScoreboardScoreView, rest: Seq<u8>) {
        broadcast use group_wire_roundtrip;

        assert(p.raw + rest =~= p.raw);
    }
}

impl Encode for ClientboundSetScoreboardScore {
    fn encode(&self, dst: &mut BytesMut) -> (r: Result<(), ProtocolError>) {
        let ghost d0 = bytes_mut_data(*dst);
        put_slice(dst, self.raw.as_slice());
        let ghost mut e: Seq<u8> = self@.raw;
        Ok(())
    }
}

impl Decode for ClientboundSetScoreboardScore {
    fn decode(src: &mut Bytes) -> (r: Result<Self, ProtocolError>) {
        let raw = take_remaining(src);
        Ok(Self { raw })
    }
}

// ── ClientboundSetSimulationDistance ──────────────────────────────────

#[derive(Debug, Clone, PartialEq)]
pub struct ClientboundSetSimulationDistance {
    pub raw: Vec<u8>,
}

pub struct ClientboundSetSimulationDistanceView {
    pub raw: Seq<u8>,
}

impl View for ClientboundSetSimulationDistance {
    type V = ClientboundSetSimulationDistanceView;

    open spec fn view(&self) -> ClientboundSetSimulationDistanceView {
        ClientboundSetSimulationDistanceView {
            raw: self.raw@,
        }
    }
}

impl PacketId for ClientboundSetSimulationDistance {
    open spec fn spec_packet_id(ver: u32) -> u8 {
        0x61
    }

    fn packet_id(_ver: u32) -> (r: u8) {
        0x61
    }
}

impl WireFormat for ClientboundSetSimulationDistance {
    open spec fn spec_encode(p: ClientboundSetSimulationDistanceView) -> Seq<u8> {
        p.raw
    }

    open spec fn spec_decode(s: Seq<u8>) -> Parsed<ClientboundSetSimulationDistanceView> {
        then(take_rest(s), |raw: Seq<u8>, s: Seq<u8>| (Ok(ClientboundSetSimulationDistanceView { raw }), s))
    }
}

impl Roundtrip for ClientboundSetSimulationDistance {
    open spec fn encodable(p: ClientboundSetSimulationDistanceView) -> bool {
        true
    }

    open spec fn reads_to_end() -> bool {
        true
    }

    proof fn lemma_roundtrip(p: ClientboundSetSimulationDistanceView, rest: Seq<u8>) {
        broadcast use group_wire_roundtrip;

        assert(p.raw + rest =~= p.raw);
    }
}

impl Encode for ClientboundSetSimulationDistance {
    fn encode(&self, dst: &mut BytesMut) -> (r: Result<(), ProtocolError>) {
        let ghost d0 = bytes_mut_data(*dst);
        put_slice(dst, self.raw.as_slice());
        let ghost mut e: Seq<u8> = self@.raw;
        Ok(())
    }
}

impl Decode for ClientboundSetSimulationDistance {
    fn decode(src: &mut Bytes) -> (r: Result<Self, ProtocolError>) {
        let raw = take_remaining(src);
        Ok(Self { raw })
    }
}

// ── ClientboundSetSubtitleText ────────────────────────────────────────

#[derive(Debug, Clone, PartialEq)]
pub struct ClientboundSetSubtitleText {
    pub raw: Vec<u8>,
}

pub struct ClientboundSetSubtitleTextView {
    pub raw: Seq<u8>,
}

impl View for ClientboundSetSubtitleText {
    type V = ClientboundSetSubtitleTextView;

    open spec fn view(&self) -> ClientboundSetSubtitleTextView {
        ClientboundSetSubtitleTextView {
            raw: self.raw@,
        }
    }
}

impl PacketId for ClientboundSetSubtitleText {
    open spec fn spec_packet_id(ver: u32) -> u8 {
        0x62
    }

    fn packet_id(_ver: u32) -> (r: u8) {
        0x62
    }
}

impl WireFormat for ClientboundSetSubtitleText {
    open spec fn spec_encode(p: ClientboundSetSubtitleTextView) -> Seq<u8> {
        p.raw
    }

    open spec fn spec_decode(s: Seq<u8>) -> Parsed<ClientboundSetSubtitleTextView> {
        then(take_rest(s), |raw: Seq<u8>, s: Seq<u8>| (Ok(ClientboundSetSubtitleTextView { raw }), s))
    }
}

impl Roundtrip for ClientboundSetSubtitleText {
    open spec fn encodable(p: ClientboundSetSubtitleTextView) -> bool {
        true
    }

    open spec fn reads_to_end() -> bool {
        true
    }

    proof fn lemma_roundtrip(p: ClientboundSetSubtitleTextView, rest: Seq<u8>) {
        broadcast use group_wire_roundtrip;

        assert(p.raw + rest =~= p.raw);
    }
}

impl Encode for ClientboundSetSubtitleText {
    fn encode(&self, dst: &mut BytesMut) -> (r: Result<(), ProtocolError>) {
        let ghost d0 = bytes_mut_data(*dst);
        put_slice(dst, self.raw.as_slice());
        let ghost mut e: Seq<u8> = self@.raw;
        Ok(())
    }
}

impl Decode for ClientboundSetSubtitleText {
    fn decode(src: &mut Bytes) -> (r: Result<Self, ProtocolError>) {
        let raw = take_remaining(src);
        Ok(Self { raw })
    }
}

// ── ClientboundSetTime ────────────────────────────────────────────────

#[derive(Debug, Clone, PartialEq)]
pub struct ClientboundSetTime {
    pub raw: Vec<u8>,
}

pub struct ClientboundSetTimeView {
    pub raw: Seq<u8>,
}

impl View for ClientboundSetTime {
    type V = ClientboundSetTimeView;

    open spec fn view(&self) -> ClientboundSetTimeView {
        ClientboundSetTimeView {
            raw: self.raw@,
        }
    }
}

impl PacketId for ClientboundSetTime {
    open spec fn spec_packet_id(ver: u32) -> u8 {
        0x63
    }

    fn packet_id(_ver: u32) -> (r: u8) {
        0x63
    }
}

impl WireFormat for ClientboundSetTime {
    open spec fn spec_encode(p: ClientboundSetTimeView) -> Seq<u8> {
        p.raw
    }

    open spec fn spec_decode(s: Seq<u8>) -> Parsed<ClientboundSetTimeView> {
        then(take_rest(s), |raw: Seq<u8>, s: Seq<u8>| (Ok(ClientboundSetTimeView { raw }), s))
    }
}

impl Roundtrip for ClientboundSetTime {
    open spec fn encodable(p: ClientboundSetTimeView) -> bool {
        true
    }

    open spec fn reads_to_end() -> bool {
        true
    }

    proof fn lemma_roundtrip(p: ClientboundSetTimeView, rest: Seq<u8>) {
        broadcast use group_wire_roundtrip;

        assert(p.raw + rest =~= p.raw);
    }
}

impl Encode for ClientboundSetTime {
    fn encode(&self, dst: &mut BytesMut) -> (r: Result<(), ProtocolError>) {
        let ghost d0 = bytes_mut_data(*dst);
        put_slice(dst, self.raw.as_slice());
        let ghost mut e: Seq<u8> = self@.raw;
        Ok(())
    }
}

impl Decode for ClientboundSetTime {
    fn decode(src: &mut Bytes) -> (r: Result<Self, ProtocolError>) {
        let raw = take_remaining(src);
        Ok(Self { raw })
    }
}

// ── ClientboundSetTitleText ───────────────────────────────────────────

#[derive(Debug, Clone, PartialEq)]
pub struct ClientboundSetTitleText {
    pub raw: Vec<u8>,
}

pub struct ClientboundSetTitleTextView {
    pub raw: Seq<u8>,
}

impl View for ClientboundSetTitleText {
    type V = ClientboundSetTitleTextView;

    open spec fn view(&self) -> ClientboundSetTitleTextView {
        ClientboundSetTitleTextView {
            raw: self.raw@,
        }
    }
}

impl PacketId for ClientboundSetTitleText {
    open spec fn spec_packet_id(ver: u32) -> u8 {
        0x64
    }

    fn packet_id(_ver: u32) -> (r: u8) {
        0x64
    }
}

impl WireFormat for ClientboundSetTitleText {
    open spec fn spec_encode(p: ClientboundSetTitleTextView) -> Seq<u8> {
        p.raw
    }

    open spec fn spec_decode(s: Seq<u8>) -> Parsed<ClientboundSetTitleTextView> {
        then(take_rest(s), |raw: Seq<u8>, s: Seq<u8>| (Ok(ClientboundSetTitleTextView { raw }), s))
    }
}

impl Roundtrip for ClientboundSetTitleText {
    open spec fn encodable(p: ClientboundSetTitleTextView) -> bool {
        true
    }

    open spec fn reads_to_end() -> bool {
        true
    }

    proof fn lemma_roundtrip(p: ClientboundSetTitleTextView, rest: Seq<u8>) {
        broadcast use group_wire_roundtrip;

        assert(p.raw + rest =~= p.raw);
    }
}

impl Encode for ClientboundSetTitleText {
    fn encode(&self, dst: &mut BytesMut) -> (r: Result<(), ProtocolError>) {
        let ghost d0 = bytes_mut_data(*dst);
        put_slice(dst, self.raw.as_slice());
        let ghost mut e: Seq<u8> = self@.raw;
        Ok(())
    }
}

impl Decode for ClientboundSetTitleText {
    fn decode(src: &mut Bytes) -> (r: Result<Self, ProtocolError>) {
        let raw = take_remaining(src);
        Ok(Self { raw })
    }
}

// ── ClientboundSetTitleAnimationTimes ─────────────────────────────────

#[derive(Debug, Clone, PartialEq)]
pub struct ClientboundSetTitleAnimationTimes {
    pub raw: Vec<u8>,
}

pub struct ClientboundSetTitleAnimationTimesView {
    pub raw: Seq<u8>,
}

impl View for ClientboundSetTitleAnimationTimes {
    type V = ClientboundSetTitleAnimationTimesView;

    open spec fn view(&self) -> ClientboundSetTitleAnimationTimesView {
        ClientboundSetTitleAnimationTimesView {
            raw: self.raw@,
        }
    }
}

impl PacketId for ClientboundSetTitleAnimationTimes {
    open spec fn spec_packet_id(ver: u32) -> u8 {
        0x65
    }

    fn packet_id(_ver: u32) -> (r: u8) {
        0x65
    }
}

impl WireFormat for ClientboundSetTitleAnimationTimes {
    open spec fn spec_encode(p: ClientboundSetTitleAnimationTimesView) -> Seq<u8> {
        p.raw
    }

    open spec fn spec_decode(s: Seq<u8>) -> Parsed<ClientboundSetTitleAnimationTimesView> {
        then(take_rest(s), |raw: Seq<u8>, s: Seq<u8>| (Ok(ClientboundSetTitleAnimationTimesView { raw }), s))
    }
}

impl Roundtrip for ClientboundSetTitleAnimationTimes {
    open spec fn encodable(p: ClientboundSetTitleAnimationTimesView) -> bool {
        true
    }

    open spec fn reads_to_end() -> bool {
        true
    }

    proof fn lemma_roundtrip(p: ClientboundSetTitleAnimationTimesView, rest: Seq<u8>) {
        broadcast use group_wire_roundtrip;

        assert(p.raw + rest =~= p.raw);
    }
}

impl Encode for ClientboundSetTitleAnimationTimes {
    fn encode(&self, dst: &mut BytesMut) -> (r: Result<(), ProtocolError>) {
        let ghost d0 = bytes_mut_data(*dst);
        put_slice(dst, self.raw.as_slice());
        let ghost mut e: Seq<u8> = self@.raw;
        Ok(())
    }
}

impl Decode for ClientboundSetTitleAnimationTimes {
    fn decode(src: &mut Bytes) -> (r: Result<Self, ProtocolError>) {
        let raw = take_remaining(src);
        Ok(Self { raw })
    }
}

// ── ClientboundSoundEntity ────────────────────────────────────────────

#[derive(Debug, Clone, PartialEq)]
pub struct ClientboundSoundEntity {
    pub raw: Vec<u8>,
}

pub struct ClientboundSoundEntityView {
    pub raw: Seq<u8>,
}

impl View for ClientboundSoundEntity {
    type V = ClientboundSoundEntityView;

    open spec fn view(&self) -> ClientboundSoundEntityView {
        ClientboundSoundEntityView {
            raw: self.raw@,
        }
    }
}

impl PacketId for ClientboundSoundEntity {
    open spec fn spec_packet_id(ver: u32) -> u8 {
        0x66
    }

    fn packet_id(_ver: u32) -> (r: u8) {
        0x66
    }
}

impl WireFormat for ClientboundSoundEntity {
    open spec fn spec_encode(p: ClientboundSoundEntityView) -> Seq<u8> {
        p.raw
    }

    open spec fn spec_decode(s: Seq<u8>) -> Parsed<ClientboundSoundEntityView> {
        then(take_rest(s), |raw: Seq<u8>, s: Seq<u8>| (Ok(ClientboundSoundEntityView { raw }), s))
    }
}

impl Roundtrip for ClientboundSoundEntity {
    open spec fn encodable(p: ClientboundSoundEntityView) -> bool {
        true
    }

    open spec fn reads_to_end() -> bool {
        true
    }

    proof fn lemma_roundtrip(p: ClientboundSoundEntityView, rest: Seq<u8>) {
        broadcast use group_wire_roundtrip;

        assert(p.raw + rest =~= p.raw);
    }
}

impl Encode for ClientboundSoundEntity {
    fn encode(&self, dst: &mut BytesMut) -> (r: Result<(), ProtocolError>) {
        let ghost d0 = bytes_mut_data(*dst);
        put_slice(dst, self.raw.as_slice());
        let ghost mut e: Seq<u8> = self@.raw;
        Ok(())
    }
}

impl Decode for ClientboundSoundEntity {
    fn decode(src: &mut Bytes) -> (r: Result<Self, ProtocolError>) {
        let raw = take_remaining(src);
        Ok(Self { raw })
    }
}

// ── ClientboundStartConfiguration ─────────────────────────────────────

#[derive(Debug, Clone, PartialEq)]
pub struct ClientboundStartConfiguration {
    pub raw: Vec<u8>,
}

pub struct ClientboundStartConfigurationView {
    pub raw: Seq<u8>,
}

impl View for ClientboundStartConfiguration {
    type V = ClientboundStartConfigurationView;

    open spec fn view(&self) -> ClientboundStartConfigurationView {
        ClientboundStartConfigurationView {
            raw: self.raw@,
        }
    }
}

impl PacketId for ClientboundStartConfiguration {
    open spec fn spec_packet_id(ver: u32) -> u8 {
        0x68
    }

    fn packet_id(_ver: u32) -> (r: u8) {
        0x68
    }
}

impl WireFormat for ClientboundStartConfiguration {
    open spec fn spec_encode(p: ClientboundStartConfigurationView) -> Seq<u8> {
        p.raw
    }

    open spec fn spec_decode(s: Seq<u8>) -> Parsed<ClientboundStartConfigurationView> {
        then(take_rest(s), |raw: Seq<u8>, s: Seq<u8>| (Ok(ClientboundStartConfigurationView { raw }), s))
    }
}

impl Roundtrip for ClientboundStartConfiguration {
    open spec fn encodable(p: ClientboundStartConfigurationView) -> bool {
        true
    }

    open spec fn reads_to_end() -> bool {
        true
    }

    proof fn lemma_roundtrip(p: ClientboundStartConfigurationView, rest: Seq<u8>) {
        broadcast use group_wire_roundtrip;

        assert(p.raw + rest =~= p.raw);
    }
}

impl Encode for ClientboundStartConfiguration {
    fn encode(&self, dst: &mut BytesMut) -> (r: Result<(), ProtocolError>) {
        let ghost d0 = bytes_mut_data(*dst);
        put_slice(dst, self.raw.as_slice());
        let ghost mut e: Seq<u8> = self@.raw;
        Ok(())
    }
}

impl Decode for ClientboundStartConfiguration {
    fn decode(src: &mut Bytes) -> (r: Result<Self, ProtocolError>) {
        let raw = take_remaining(src);
        Ok(Self { raw })
    }
}

// ── ClientboundStopSound ──────────────────────────────────────────────

#[derive(Debug, Clone, PartialEq)]
pub struct ClientboundStopSound {
    pub raw: Vec<u8>,
}

pub struct ClientboundStopSoundView {
    pub raw: Seq<u8>,
}

impl View for ClientboundStopSound {
    type V = ClientboundStopSoundView;

    open spec fn view(&self) -> ClientboundStopSoundView {
        ClientboundStopSoundView {
            raw: self.raw@,
        }
    }
}

impl PacketId for ClientboundStopSound {
    open spec fn spec_packet_id(ver: u32) -> u8 {
        0x69
    }

    fn packet_id(_ver: u32) -> (r: u8) {
        0x69
    }
}

impl WireFormat for ClientboundStopSound {
    open spec fn spec_encode(p: ClientboundStopSoundView) -> Seq<u8> {
        p.raw
    }

    open spec fn spec_decode(s: Seq<u8>) -> Parsed<ClientboundStopSoundView> {
        then(take_rest(s), |raw: Seq<u8>, s: Seq<u8>| (Ok(ClientboundStopSoundView { raw }), s))
    }
}

impl Roundtrip for ClientboundStopSound {
    open spec fn encodable(p: ClientboundStopSoundView) -> bool {
        true
    }

    open spec fn reads_to_end() -> bool {
        true
    }

    proof fn lemma_roundtrip(p: ClientboundStopSoundView, rest: Seq<u8>) {
        broadcast use group_wire_roundtrip;

        assert(p.raw + rest =~= p.raw);
    }
}

impl Encode for ClientboundStopSound {
    fn encode(&self, dst: &mut BytesMut) -> (r: Result<(), ProtocolError>) {
        let ghost d0 = bytes_mut_data(*dst);
        put_slice(dst, self.raw.as_slice());
        let ghost mut e: Seq<u8> = self@.raw;
        Ok(())
    }
}

impl Decode for ClientboundStopSound {
    fn decode(src: &mut Bytes) -> (r: Result<Self, ProtocolError>) {
        let raw = take_remaining(src);
        Ok(Self { raw })
    }
}

// ── ClientboundStoreCookie ────────────────────────────────────────────

#[derive(Debug, Clone, PartialEq)]
pub struct ClientboundStoreCookie {
    pub raw: Vec<u8>,
}

pub struct ClientboundStoreCookieView {
    pub raw: Seq<u8>,
}

impl View for ClientboundStoreCookie {
    type V = ClientboundStoreCookieView;

    open spec fn view(&self) -> ClientboundStoreCookieView {
        ClientboundStoreCookieView {
            raw: self.raw@,
        }
    }
}

impl PacketId for ClientboundStoreCookie {
    open spec fn spec_packet_id(ver: u32) -> u8 {
        0x6A
    }

    fn packet_id(_ver: u32) -> (r: u8) {
        0x6A
    }
}

impl WireFormat for ClientboundStoreCookie {
    open spec fn spec_encode(p: ClientboundStoreCookieView) -> Seq<u8> {
        p.raw
    }

    open spec fn spec_decode(s: Seq<u8>) -> Parsed<ClientboundStoreCookieView> {
        then(take_rest(s), |raw: Seq<u8>, s: Seq<u8>| (Ok(ClientboundStoreCookieView { raw }), s))
    }
}

impl Roundtrip for ClientboundStoreCookie {
    open spec fn encodable(p: ClientboundStoreCookieView) -> bool {
        true
    }

    open spec fn reads_to_end() -> bool {
        true
    }

    proof fn lemma_roundtrip(p: ClientboundStoreCookieView, rest: Seq<u8>) {
        broadcast use group_wire_roundtrip;

        assert(p.raw + rest =~= p.raw);
    }
}

impl Encode for ClientboundStoreCookie {
    fn encode(&self, dst: &mut BytesMut) -> (r: Result<(), ProtocolError>) {
        let ghost d0 = bytes_mut_data(*dst);
        put_slice(dst, self.raw.as_slice());
        let ghost mut e: Seq<u8> = self@.raw;
        Ok(())
    }
}

impl Decode for ClientboundStoreCookie {
    fn decode(src: &mut Bytes) -> (r: Result<Self, ProtocolError>) {
        let raw = take_remaining(src);
        Ok(Self { raw })
    }
}

// ── ClientboundTabList ────────────────────────────────────────────────

#[derive(Debug, Clone, PartialEq)]
pub struct ClientboundTabList {
    pub raw: Vec<u8>,
}

pub struct ClientboundTabListView {
    pub raw: Seq<u8>,
}

impl View for ClientboundTabList {
    type V = ClientboundTabListView;

    open spec fn view(&self) -> ClientboundTabListView {
        ClientboundTabListView {
            raw: self.raw@,
        }
    }
}

impl PacketId for ClientboundTabList {
    open spec fn spec_packet_id(ver: u32) -> u8 {
        0x6C
    }

    fn packet_id(_ver: u32) -> (r: u8) {
        0x6C
    }
}

impl WireFormat for ClientboundTabList {
    open spec fn spec_encode(p: ClientboundTabListView) -> Seq<u8> {
        p.raw
    }

    open spec fn spec_decode(s: Seq<u8>) -> Parsed<ClientboundTabListView> {
        then(take_rest(s), |raw: Seq<u8>, s: Seq<u8>| (Ok(ClientboundTabListView { raw }), s))
    }
}

impl Roundtrip for ClientboundTabList {
    open spec fn encodable(p: ClientboundTabListView) -> bool {
        true
    }

    open spec fn reads_to_end() -> bool {
        true
    }

    proof fn lemma_roundtrip(p: ClientboundTabListView, rest: Seq<u8>) {
        broadcast use group_wire_roundtrip;

        assert(p.raw + rest =~= p.raw);
    }
}

impl Encode for ClientboundTabList {
    fn encode(&self, dst: &mut BytesMut) -> (r: Result<(), ProtocolError>) {
        let ghost d0 = bytes_mut_data(*dst);
        put_slice(dst, self.raw.as_slice());
        let ghost mut e: Seq<u8> = self@.raw;
        Ok(())
    }
}

impl Decode for ClientboundTabList {
    fn decode(src: &mut Bytes) -> (r: Result<Self, ProtocolError>) {
        let raw = take_remaining(src);
        Ok(Self { raw })
    }
}

// ── ClientboundTagQuery ───────────────────────────────────────────────

#[derive(Debug, Clone, PartialEq)]
pub struct ClientboundTagQuery {
    pub raw: Vec<u8>,
}

pub struct ClientboundTagQueryView {
    pub raw: Seq<u8>,
}

impl View for ClientboundTagQuery {
    type V = ClientboundTagQueryView;

    open spec fn view(&self) -> ClientboundTagQueryView {
        ClientboundTagQueryView {
            raw: self.raw@,
        }
    }
}

impl PacketId for ClientboundTagQuery {
    open spec fn spec_packet_id(ver: u32) -> u8 {
        0x6D
    }

    fn packet_id(_ver: u32) -> (r: u8) {
        0x6D
    }
}

impl WireFormat for ClientboundTagQuery {
    open spec fn spec_encode(p: ClientboundTagQueryView) -> Seq<u8> {
        p.raw
    }

    open spec fn spec_decode(s: Seq<u8>) -> Parsed<ClientboundTagQueryView> {
        then(take_rest(s), |raw: Seq<u8>, s: Seq<u8>| (Ok(ClientboundTagQueryView { raw }), s))
    }
}

impl Roundtrip for ClientboundTagQuery {
    open spec fn encodable(p: ClientboundTagQueryView) -> bool {
        true
    }

    open spec fn reads_to_end() -> bool {
        true
    }

    proof fn lemma_roundtrip(p: ClientboundTagQueryView, rest: Seq<u8>) {
        broadcast use group_wire_roundtrip;

        assert(p.raw + rest =~= p.raw);
    }
}

impl Encode for ClientboundTagQuery {
    fn encode(&self, dst: &mut BytesMut) -> (r: Result<(), ProtocolError>) {
        let ghost d0 = bytes_mut_data(*dst);
        put_slice(dst, self.raw.as_slice());
        let ghost mut e: Seq<u8> = self@.raw;
        Ok(())
    }
}

impl Decode for ClientboundTagQuery {
    fn decode(src: &mut Bytes) -> (r: Result<Self, ProtocolError>) {
        let raw = take_remaining(src);
        Ok(Self { raw })
    }
}

// ── ClientboundTakeItemEntity ─────────────────────────────────────────

#[derive(Debug, Clone, PartialEq)]
pub struct ClientboundTakeItemEntity {
    pub raw: Vec<u8>,
}

pub struct ClientboundTakeItemEntityView {
    pub raw: Seq<u8>,
}

impl View for ClientboundTakeItemEntity {
    type V = ClientboundTakeItemEntityView;

    open spec fn view(&self) -> ClientboundTakeItemEntityView {
        ClientboundTakeItemEntityView {
            raw: self.raw@,
        }
    }
}

impl PacketId for ClientboundTakeItemEntity {
    open spec fn spec_packet_id(ver: u32) -> u8 {
        0x6E
    }

    fn packet_id(_ver: u32) -> (r: u8) {
        0x6E
    }
}

impl WireFormat for ClientboundTakeItemEntity {
    open spec fn spec_encode(p: ClientboundTakeItemEntityView) -> Seq<u8> {
        p.raw
    }

    open spec fn spec_decode(s: Seq<u8>) -> Parsed<ClientboundTakeItemEntityView> {
        then(take_rest(s), |raw: Seq<u8>, s: Seq<u8>| (Ok(ClientboundTakeItemEntityView { raw }), s))
    }
}

impl Roundtrip for ClientboundTakeItemEntity {
    open spec fn encodable(p: ClientboundTakeItemEntityView) -> bool {
        true
    }

    open spec fn reads_to_end() -> bool {
        true
    }

    proof fn lemma_roundtrip(p: ClientboundTakeItemEntityView, rest: Seq<u8>) {
        broadcast use group_wire_roundtrip;

        assert(p.raw + rest =~= p.raw);
    }
}

impl Encode for ClientboundTakeItemEntity {
    fn encode(&self, dst: &mut BytesMut) -> (r: Result<(), ProtocolError>) {
        let ghost d0 = bytes_mut_data(*dst);
        put_slice(dst, self.raw.as_slice());
        let ghost mut e: Seq<u8> = self@.raw;
        Ok(())
    }
}

impl Decode for ClientboundTakeItemEntity {
    fn decode(src: &mut Bytes) -> (r: Result<Self, ProtocolError>) {
        let raw = take_remaining(src);
        Ok(Self { raw })
    }
}

// ── ClientboundTeleportEntity ─────────────────────────────────────────

#[derive(Debug, Clone, PartialEq)]
pub struct ClientboundTeleportEntity {
    pub raw: Vec<u8>,
}

pub struct ClientboundTeleportEntityView {
    pub raw: Seq<u8>,
}

impl View for ClientboundTeleportEntity {
    type V = ClientboundTeleportEntityView;

    open spec fn view(&self) -> ClientboundTeleportEntityView {
        ClientboundTeleportEntityView {
            raw: self.raw@,
        }
    }
}

impl PacketId for ClientboundTeleportEntity {
    open spec fn spec_packet_id(ver: u32) -> u8 {
        0x6F
    }

    fn packet_id(_ver: u32) -> (r: u8) {
        0x6F
    }
}

impl WireFormat for ClientboundTeleportEntity {
    open spec fn spec_encode(p: ClientboundTeleportEntityView) -> Seq<u8> {
        p.raw
    }

    open spec fn spec_decode(s: Seq<u8>) -> Parsed<ClientboundTeleportEntityView> {
        then(take_rest(s), |raw: Seq<u8>, s: Seq<u8>| (Ok(ClientboundTeleportEntityView { raw }), s))
    }
}

impl Roundtrip for ClientboundTeleportEntity {
    open spec fn encodable(p: ClientboundTeleportEntityView) -> bool {
        true
    }

    open spec fn reads_to_end() -> bool {
        true
    }

    proof fn lemma_roundtrip(p: ClientboundTeleportEntityView, rest: Seq<u8>) {
        broadcast use group_wire_roundtrip;

        assert(p.raw + rest =~= p.raw);
    }
}

impl Encode for ClientboundTeleportEntity {
    fn encode(&self, dst: &mut BytesMut) -> (r: Result<(), ProtocolError>) {
        let ghost d0 = bytes_mut_data(*dst);
        put_slice(dst, self.raw.as_slice());
        let ghost mut e: Seq<u8> = self@.raw;
        Ok(())
    }
}

impl Decode for ClientboundTeleportEntity {
    fn decode(src: &mut Bytes) -> (r: Result<Self, ProtocolError>) {
        let raw = take_remaining(src);
        Ok(Self { raw })
    }
}

// ── ClientboundTickingState ───────────────────────────────────────────

#[derive(Debug, Clone, PartialEq)]
pub struct ClientboundTickingState {
    pub raw: Vec<u8>,
}

pub struct ClientboundTickingStateView {
    pub raw: Seq<u8>,
}

impl View for ClientboundTickingState {
    type V = ClientboundTickingStateView;

    open spec fn view(&self) -> ClientboundTickingStateView {
        ClientboundTickingStateView {
            raw: self.raw@,
        }
    }
}

impl PacketId for ClientboundTickingState {
    open spec fn spec_packet_id(ver: u32) -> u8 {
        0x70
    }

    fn packet_id(_ver: u32) -> (r: u8) {
        0x70
    }
}

impl WireFormat for ClientboundTickingState {
    open spec fn spec_encode(p: ClientboundTickingStateView) -> Seq<u8> {
        p.raw
    }

    open spec fn spec_decode(s: Seq<u8>) -> Parsed<ClientboundTickingStateView> {
        then(take_rest(s), |raw: Seq<u8>, s: Seq<u8>| (Ok(ClientboundTickingStateView { raw }), s))
    }
}

impl Roundtrip for ClientboundTickingState {
    open spec fn encodable(p: ClientboundTickingStateView) -> bool {
        true
    }

    open spec fn reads_to_end() -> bool {
        true
    }

    proof fn lemma_roundtrip(p: ClientboundTickingStateView, rest: Seq<u8>) {
        broadcast use group_wire_roundtrip;

        assert(p.raw + rest =~= p.raw);
    }
}

impl Encode for ClientboundTickingState {
    fn encode(&self, dst: &mut BytesMut) -> (r: Result<(), ProtocolError>) {
        let ghost d0 = bytes_mut_data(*dst);
        put_slice(dst, self.raw.as_slice());
        let ghost mut e: Seq<u8> = self@.raw;
        Ok(())
    }
}

impl Decode for ClientboundTickingState {
    fn decode(src: &mut Bytes) -> (r: Result<Self, ProtocolError>) {
        let raw = take_remaining(src);
        Ok(Self { raw })
    }
}

// ── ClientboundTickingStep ────────────────────────────────────────────

#[derive(Debug, Clone, PartialEq)]
pub struct ClientboundTickingStep {
    pub raw: Vec<u8>,
}

pub struct ClientboundTickingStepView {
    pub raw: Seq<u8>,
}

impl View for ClientboundTickingStep {
    type V = ClientboundTickingStepView;

    open spec fn view(&self) -> ClientboundTickingStepView {
        ClientboundTickingStepView {
            raw: self.raw@,
        }
    }
}

impl PacketId for ClientboundTickingStep {
    open spec fn spec_packet_id(ver: u32) -> u8 {
        0x71
    }

    fn packet_id(_ver: u32) -> (r: u8) {
        0x71
    }
}

impl WireFormat for ClientboundTickingStep {
    open spec fn spec_encode(p: ClientboundTickingStepView) -> Seq<u8> {
        p.raw
    }

    open spec fn spec_decode(s: Seq<u8>) -> Parsed<ClientboundTickingStepView> {
        then(take_rest(s), |raw: Seq<u8>, s: Seq<u8>| (Ok(ClientboundTickingStepView { raw }), s))
    }
}

impl Roundtrip for ClientboundTickingStep {
    open spec fn encodable(p: ClientboundTickingStepView) -> bool {
        true
    }

    open spec fn reads_to_end() -> bool {
        true
    }

    proof fn lemma_roundtrip(p: ClientboundTickingStepView, rest: Seq<u8>) {
        broadcast use group_wire_roundtrip;

        assert(p.raw + rest =~= p.raw);
    }
}

impl Encode for ClientboundTickingStep {
    fn encode(&self, dst: &mut BytesMut) -> (r: Result<(), ProtocolError>) {
        let ghost d0 = bytes_mut_data(*dst);
        put_slice(dst, self.raw.as_slice());
        let ghost mut e: Seq<u8> = self@.raw;
        Ok(())
    }
}

impl Decode for ClientboundTickingStep {
    fn decode(src: &mut Bytes) -> (r: Result<Self, ProtocolError>) {
        let raw = take_remaining(src);
        Ok(Self { raw })
    }
}

// ── ClientboundTransfer ───────────────────────────────────────────────

#[derive(Debug, Clone, PartialEq)]
pub struct ClientboundTransfer {
    pub raw: Vec<u8>,
}

pub struct ClientboundTransferView {
    pub raw: Seq<u8>,
}

impl View for ClientboundTransfer {
    type V = ClientboundTransferView;

    open spec fn view(&self) -> ClientboundTransferView {
        ClientboundTransferView {
            raw: self.raw@,
        }
    }
}

impl PacketId for ClientboundTransfer {
    open spec fn spec_packet_id(ver: u32) -> u8 {
        0x72
    }

    fn packet_id(_ver: u32) -> (r: u8) {
        0x72
    }
}

impl WireFormat for ClientboundTransfer {
    open spec fn spec_encode(p: ClientboundTransferView) -> Seq<u8> {
        p.raw
    }

    open spec fn spec_decode(s: Seq<u8>) -> Parsed<ClientboundTransferView> {
        then(take_rest(s), |raw: Seq<u8>, s: Seq<u8>| (Ok(ClientboundTransferView { raw }), s))
    }
}

impl Roundtrip for ClientboundTransfer {
    open spec fn encodable(p: ClientboundTransferView) -> bool {
        true
    }

    open spec fn reads_to_end() -> bool {
        true
    }

    proof fn lemma_roundtrip(p: ClientboundTransferView, rest: Seq<u8>) {
        broadcast use group_wire_roundtrip;

        assert(p.raw + rest =~= p.raw);
    }
}

impl Encode for ClientboundTransfer {
    fn encode(&self, dst: &mut BytesMut) -> (r: Result<(), ProtocolError>) {
        let ghost d0 = bytes_mut_data(*dst);
        put_slice(dst, self.raw.as_slice());
        let ghost mut e: Seq<u8> = self@.raw;
        Ok(())
    }
}

impl Decode for ClientboundTransfer {
    fn decode(src: &mut Bytes) -> (r: Result<Self, ProtocolError>) {
        let raw = take_remaining(src);
        Ok(Self { raw })
    }
}

// ── ClientboundUpdateAdvancements ─────────────────────────────────────

#[derive(Debug, Clone, PartialEq)]
pub struct ClientboundUpdateAdvancements {
    pub raw: Vec<u8>,
}

pub struct ClientboundUpdateAdvancementsView {
    pub raw: Seq<u8>,
}

impl View for ClientboundUpdateAdvancements {
    type V = ClientboundUpdateAdvancementsView;

    open spec fn view(&self) -> ClientboundUpdateAdvancementsView {
        ClientboundUpdateAdvancementsView {
            raw: self.raw@,
        }
    }
}

impl PacketId for ClientboundUpdateAdvancements {
    open spec fn spec_packet_id(ver: u32) -> u8 {
        0x73
    }

    fn packet_id(_ver: u32) -> (r: u8) {
        0x73
    }
}

impl WireFormat for ClientboundUpdateAdvancements {
    open spec fn spec_encode(p: ClientboundUpdateAdvancementsView) -> Seq<u8> {
        p.raw
    }

    open spec fn spec_decode(s: Seq<u8>) -> Parsed<ClientboundUpdateAdvancementsView> {
        then(take_rest(s), |raw: Seq<u8>, s: Seq<u8>| (Ok(ClientboundUpdateAdvancementsView { raw }), s))
    }
}

impl Roundtrip for ClientboundUpdateAdvancements {
    open spec fn encodable(p: ClientboundUpdateAdvancementsView) -> bool {
        true
    }

    open spec fn reads_to_end() -> bool {
        true
    }

    proof fn lemma_roundtrip(p: ClientboundUpdateAdvancementsView, rest: Seq<u8>) {
        broadcast use group_wire_roundtrip;

        assert(p.raw + rest =~= p.raw);
    }
}

impl Encode for ClientboundUpdateAdvancements {
    fn encode(&self, dst: &mut BytesMut) -> (r: Result<(), ProtocolError>) {
        let ghost d0 = bytes_mut_data(*dst);
        put_slice(dst, self.raw.as_slice());
        let ghost mut e: Seq<u8> = self@.raw;
        Ok(())
    }
}

impl Decode for ClientboundUpdateAdvancements {
    fn decode(src: &mut Bytes) -> (r: Result<Self, ProtocolError>) {
        let raw = take_remaining(src);
        Ok(Self { raw })
    }
}

// ── ClientboundUpdateAttributes ───────────────────────────────────────

#[derive(Debug, Clone, PartialEq)]
pub struct ClientboundUpdateAttributes {
    pub raw: Vec<u8>,
}

pub struct ClientboundUpdateAttributesView {
    pub raw: Seq<u8>,
}

impl View for ClientboundUpdateAttributes {
    type V = ClientboundUpdateAttributesView;

    open spec fn view(&self) -> ClientboundUpdateAttributesView {
        ClientboundUpdateAttributesView {
            raw: self.raw@,
        }
    }
}

impl PacketId for ClientboundUpdateAttributes {
    open spec fn spec_packet_id(ver: u32) -> u8 {
        0x74
    }

    fn packet_id(_ver: u32) -> (r: u8) {
        0x74
    }
}

impl WireFormat for ClientboundUpdateAttributes {
    open spec fn spec_encode(p: ClientboundUpdateAttributesView) -> Seq<u8> {
        p.raw
    }

    open spec fn spec_decode(s: Seq<u8>) -> Parsed<ClientboundUpdateAttributesView> {
        then(take_rest(s), |raw: Seq<u8>, s: Seq<u8>| (Ok(ClientboundUpdateAttributesView { raw }), s))
    }
}

impl Roundtrip for ClientboundUpdateAttributes {
    open spec fn encodable(p: ClientboundUpdateAttributesView) -> bool {
        true
    }

    open spec fn reads_to_end() -> bool {
        true
    }

    proof fn lemma_roundtrip(p: ClientboundUpdateAttributesView, rest: Seq<u8>) {
        broadcast use group_wire_roundtrip;

        assert(p.raw + rest =~= p.raw);
    }
}

impl Encode for ClientboundUpdateAttributes {
    fn encode(&self, dst: &mut BytesMut) -> (r: Result<(), ProtocolError>) {
        let ghost d0 = bytes_mut_data(*dst);
        put_slice(dst, self.raw.as_slice());
        let ghost mut e: Seq<u8> = self@.raw;
        Ok(())
    }
}

impl Decode for ClientboundUpdateAttributes {
    fn decode(src: &mut Bytes) -> (r: Result<Self, ProtocolError>) {
        let raw = take_remaining(src);
        Ok(Self { raw })
    }
}

// ── ClientboundUpdateEffects ──────────────────────────────────────────

#[derive(Debug, Clone, PartialEq)]
pub struct ClientboundUpdateEffects {
    pub raw: Vec<u8>,
}

pub struct ClientboundUpdateEffectsView {
    pub raw: Seq<u8>,
}

impl View for ClientboundUpdateEffects {
    type V = ClientboundUpdateEffectsView;

    open spec fn view(&self) -> ClientboundUpdateEffectsView {
        ClientboundUpdateEffectsView {
            raw: self.raw@,
        }
    }
}

impl PacketId for ClientboundUpdateEffects {
    open spec fn spec_packet_id(ver: u32) -> u8 {
        0x75
    }

    fn packet_id(_ver: u32) -> (r: u8) {
        0x75
    }
}

impl WireFormat for ClientboundUpdateEffects {
    open spec fn spec_encode(p: ClientboundUpdateEffectsView) -> Seq<u8> {
        p.raw
    }

    open spec fn spec_decode(s: Seq<u8>) -> Parsed<ClientboundUpdateEffectsView> {
        then(take_rest(s), |raw: Seq<u8>, s: Seq<u8>| (Ok(ClientboundUpdateEffectsView { raw }), s))
    }
}

impl Roundtrip for ClientboundUpdateEffects {
    open spec fn encodable(p: ClientboundUpdateEffectsView) -> bool {
        true
    }

    open spec fn reads_to_end() -> bool {
        true
    }

    proof fn lemma_roundtrip(p: ClientboundUpdateEffectsView, rest: Seq<u8>) {
        broadcast use group_wire_roundtrip;

        assert(p.raw + rest =~= p.raw);
    }
}

impl Encode for ClientboundUpdateEffects {
    fn encode(&self, dst: &mut BytesMut) -> (r: Result<(), ProtocolError>) {
        let ghost d0 = bytes_mut_data(*dst);
        put_slice(dst, self.raw.as_slice());
        let ghost mut e: Seq<u8> = self@.raw;
        Ok(())
    }
}

impl Decode for ClientboundUpdateEffects {
    fn decode(src: &mut Bytes) -> (r: Result<Self, ProtocolError>) {
        let raw = take_remaining(src);
        Ok(Self { raw })
    }
}

// ── ClientboundUpdateRecipes ──────────────────────────────────────────

#[derive(Debug, Clone, PartialEq)]
pub struct ClientboundUpdateRecipes {
    pub raw: Vec<u8>,
}

pub struct ClientboundUpdateRecipesView {
    pub raw: Seq<u8>,
}

impl View for ClientboundUpdateRecipes {
    type V = ClientboundUpdateRecipesView;

    open spec fn view(&self) -> ClientboundUpdateRecipesView {
        ClientboundUpdateRecipesView {
            raw: self.raw@,
        }
    }
}

impl PacketId for ClientboundUpdateRecipes {
    open spec fn spec_packet_id(ver: u32) -> u8 {
        0x76
    }

    fn packet_id(_ver: u32) -> (r: u8) {
        0x76
    }
}

impl WireFormat for ClientboundUpdateRecipes {
    open spec fn spec_encode(p: ClientboundUpdateRecipesView) -> Seq<u8> {
        p.raw
    }

    open spec fn spec_decode(s: Seq<u8>) -> Parsed<ClientboundUpdateRecipesView> {
        then(take_rest(s), |raw: Seq<u8>, s: Seq<u8>| (Ok(ClientboundUpdateRecipesView { raw }), s))
    }
}

impl Roundtrip for ClientboundUpdateRecipes {
    open spec fn encodable(p: ClientboundUpdateRecipesView) -> bool {
        true
    }

    open spec fn reads_to_end() -> bool {
        true
    }

    proof fn lemma_roundtrip(p: ClientboundUpdateRecipesView, rest: Seq<u8>) {
        broadcast use group_wire_roundtrip;

        assert(p.raw + rest =~= p.raw);
    }
}

impl Encode for ClientboundUpdateRecipes {
    fn encode(&self, dst: &mut BytesMut) -> (r: Result<(), ProtocolError>) {
        let ghost d0 = bytes_mut_data(*dst);
        put_slice(dst, self.raw.as_slice());
        let ghost mut e: Seq<u8> = self@.raw;
        Ok(())
    }
}

impl Decode for ClientboundUpdateRecipes {
    fn decode(src: &mut Bytes) -> (r: Result<Self, ProtocolError>) {
        let raw = take_remaining(src);
        Ok(Self { raw })
    }
}

// ── ClientboundUpdateTags ─────────────────────────────────────────────

#[derive(Debug, Clone, PartialEq)]
pub struct ClientboundUpdateTags {
    pub raw: Vec<u8>,
}

pub struct ClientboundUpdateTagsView {
    pub raw: Seq<u8>,
}

impl View for ClientboundUpdateTags {
    type V = ClientboundUpdateTagsView;

    open spec fn view(&self) -> ClientboundUpdateTagsView {
        ClientboundUpdateTagsView {
            raw: self.raw@,
        }
    }
}

impl PacketId for ClientboundUpdateTags {
    open spec fn spec_packet_id(ver: u32) -> u8 {
        0x77
    }

    fn packet_id(_ver: u32) -> (r: u8) {
        0x77
    }
}

impl WireFormat for ClientboundUpdateTags {
    open spec fn spec_encode(p: ClientboundUpdateTagsView) -> Seq<u8> {
        p.raw
    }

    open spec fn spec_decode(s: Seq<u8>) -> Parsed<ClientboundUpdateTagsView> {
        then(take_rest(s), |raw: Seq<u8>, s: Seq<u8>| (Ok(ClientboundUpdateTagsView { raw }), s))
    }
}

impl Roundtrip for ClientboundUpdateTags {
    open spec fn encodable(p: ClientboundUpdateTagsView) -> bool {
        true
    }

    open spec fn reads_to_end() -> bool {
        true
    }

    proof fn lemma_roundtrip(p: ClientboundUpdateTagsView, rest: Seq<u8>) {
        broadcast use group_wire_roundtrip;

        assert(p.raw + rest =~= p.raw);
    }
}

impl Encode for ClientboundUpdateTags {
    fn encode(&self, dst: &mut BytesMut) -> (r: Result<(), ProtocolError>) {
        let ghost d0 = bytes_mut_data(*dst);
        put_slice(dst, self.raw.as_slice());
        let ghost mut e: Seq<u8> = self@.raw;
        Ok(())
    }
}

impl Decode for ClientboundUpdateTags {
    fn decode(src: &mut Bytes) -> (r: Result<Self, ProtocolError>) {
        let raw = take_remaining(src);
        Ok(Self { raw })
    }
}

// ── ServerboundKeepAlive ──────────────────────────────────────────────

#[derive(Debug, Clone, PartialEq)]
pub struct ServerboundKeepAlive {
    pub keep_alive_id: i64,
}

impl View for ServerboundKeepAlive {
    type V = ServerboundKeepAlive;

    open spec fn view(&self) -> ServerboundKeepAlive {
        *self
    }
}

impl PacketId for ServerboundKeepAlive {
    open spec fn spec_packet_id(ver: u32) -> u8 {
        0x15
    }

    fn packet_id(_ver: u32) -> (r: u8) {
        0x15
    }
}

impl WireFormat for ServerboundKeepAlive {
    open spec fn spec_encode(p: ServerboundKeepAlive) -> Seq<u8> {
        <i64 as WireFormat>::spec_encode(p.keep_alive_id)
    }

    open spec fn spec_decode(s: Seq<u8>) -> Parsed<ServerboundKeepAlive> {
        then(<i64 as WireFormat>::spec_decode(s), |keep_alive_id: i64, s: Seq<u8>| (Ok(ServerboundKeepAlive { keep_alive_id }), s))
    }
}

impl Roundtrip for ServerboundKeepAlive {
    open spec fn encodable(p: ServerboundKeepAlive) -> bool {
        true
    }

    open spec fn reads_to_end() -> bool {
        false
    }

    proof fn lemma_roundtrip(p: ServerboundKeepAlive, rest: Seq<u8>) {
        broadcast use group_wire_roundtrip;

        <i64 as Roundtrip>::lemma_roundtrip(p.keep_alive_id, rest);
    }
}

impl Encode for ServerboundKeepAlive {
    fn encode(&self, dst: &mut BytesMut) -> (r: Result<(), ProtocolError>) {
        let ghost d0 = bytes_mut_data(*dst);
        let _ = self.keep_alive_id.encode(dst);
        let ghost mut e: Seq<u8> = <i64 as WireFormat>::spec_encode(self@.keep_alive_id);
        Ok(())
    }
}

impl Decode for ServerboundKeepAlive {
    fn decode(src: &mut Bytes) -> (r: Result<Self, ProtocolError>) {
        let keep_alive_id = i64::decode(src)?;
        Ok(Self { keep_alive_id })
    }
}

// ── ServerboundMovePlayerPos ──────────────────────────────────────────

#[derive(Debug, Clone, PartialEq)]
pub struct ServerboundMovePlayerPos {
    /// The bits of the `f64` value (`f64::to_bits`).
    pub x: u64,
    /// The bits of the `f64` value (`f64::to_bits`).
    pub feet_y: u64,
    /// The bits of the `f64` value (`f64::to_bits`).
    pub z: u64,
    pub on_ground: bool,
}

impl View for ServerboundMovePlayerPos {
    type V = ServerboundMovePlayerPos;

    open spec fn view(&self) -> ServerboundMovePlayerPos {
        *self
    }
}

impl PacketId for ServerboundMovePlayerPos {
    open spec fn spec_packet_id(ver: u32) -> u8 {
        0x17
    }

    fn packet_id(_ver: u32) -> (r: u8) {
        0x17
    }
}

impl WireFormat for ServerboundMovePlayerPos {
    open spec fn spec_encode(p: ServerboundMovePlayerPos) -> Seq<u8> {
        be_u64_bytes(p.x) + be_u64_bytes(p.feet_y) + be_u64_bytes(p.z) + seq![bool_byte(p.on_ground)]
    }

    open spec fn spec_decode(s: Seq<u8>) -> Parsed<ServerboundMovePlayerPos> {
        then(need_spec(s, 25), |_u: (), s: Seq<u8>| then(take_u64(s), |x: u64, s: Seq<u8>| then(take_u64(s), |feet_y: u64, s: Seq<u8>| then(take_u64(s), |z: u64, s: Seq<u8>| then(take_bool(s), |on_ground: bool, s: Seq<u8>| (Ok(ServerboundMovePlayerPos { x, feet_y, z, on_ground }), s))))))
    }
}

impl Roundtrip for ServerboundMovePlayerPos {
    open spec fn encodable(p: ServerboundMovePlayerPos) -> bool {
        true
    }

    open spec fn reads_to_end() -> bool {
        false
    }

    proof fn lemma_roundtrip(p: ServerboundMovePlayerPos, rest: Seq<u8>) {
        broadcast use group_wire_roundtrip;

        let t3 = seq![bool_byte(p.on_ground)] + rest;
        let t2 = be_u64_bytes(p.z) + t3;
        let t1 = be_u64_bytes(p.feet_y) + t2;
        lemma_concat_associative(be_u64_bytes(p.x) + be_u64_bytes(p.feet_y) + be_u64_bytes(p.z), seq![bool_byte(p.on_ground)], rest);
        lemma_concat_associative(be_u64_bytes(p.x) + be_u64_bytes(p.feet_y), be_u64_bytes(p.z), t3);
        lemma_concat_associative(be_u64_bytes(p.x), be_u64_bytes(p.feet_y), t2);
    }
}

impl Encode for ServerboundMovePlayerPos {
    fn encode(&self, dst: &mut BytesMut) -> (r: Result<(), ProtocolError>) {
        let ghost d0 = bytes_mut_data(*dst);
        put_u64(dst, self.x);
        let ghost mut e: Seq<u8> = be_u64_bytes(self@.x);
        put_u64(dst, self.feet_y);
        proof {
            lemma_concat_associative(d0, e, be_u64_bytes(self@.feet_y));
            e = e + be_u64_bytes(self@.feet_y);
        }
        put_u64(dst, self.z);
        proof {
            lemma_concat_associative(d0, e, be_u64_bytes(self@.z));
            e = e + be_u64_bytes(self@.z);
        }
        put_u8(dst, self.on_ground as u8);
        proof {
            lemma_concat_associative(d0, e, seq![bool_byte(self@.on_ground)]);
            e = e + seq![bool_byte(self@.on_ground)];
        }
        Ok(())
    }
}

impl Decode for ServerboundMovePlayerPos {
    fn decode(src: &mut Bytes) -> (r: Result<Self, ProtocolError>) {
        need(src, 25)?;
        let x = get_u64(src);
        let feet_y = get_u64(src);
        let z = get_u64(src);
        let on_ground = get_u8(src) != 0;
        Ok(Self { x, feet_y, z, on_ground })
    }
}

// ── ServerboundMovePlayerPosRot ───────────────────────────────────────

#[derive(Debug, Clone, PartialEq)]
pub struct ServerboundMovePlayerPosRot {
    /// The bits of the `f64` value (`f64::to_bits`).
    pub x: u64,
    /// The bits of the `f64` value (`f64::to_bits`).
    pub feet_y: u64,
    /// The bits of the `f64` value (`f64::to_bits`).
    pub z: u64,
    /// The bits of the `f32` value (`f32::to_bits`).
    pub yaw: u32,
    /// The bits of the `f32` value (`f32::to_bits`).
    pub pitch: u32,
    pub on_ground: bool,
}

impl View for ServerboundMovePlayerPosRot {
    type V = ServerboundMovePlayerPosRot;

    open spec fn view(&self) -> ServerboundMovePlayerPosRot {
        *self
    }
}

impl PacketId for ServerboundMovePlayerPosRot {
    open spec fn spec_packet_id(ver: u32) -> u8 {
        0x19
    }

    fn packet_id(_ver: u32) -> (r: u8) {
        0x19
    }
}

impl WireFormat for ServerboundMovePlayerPosRot {
    open spec fn spec_encode(p: ServerboundMovePlayerPosRot) -> Seq<u8> {
        be_u64_bytes(p.x) + be_u64_bytes(p.feet_y) + be_u64_bytes(p.z) + be_u32_bytes(p.yaw) + be_u32_bytes(p.pitch) + seq![bool_byte(p.on_ground)]
    }

    open spec fn spec_decode(s: Seq<u8>) -> Parsed<ServerboundMovePlayerPosRot> {
        then(need_spec(s, 33), |_u: (), s: Seq<u8>| then(take_u64(s), |x: u64, s: Seq<u8>| then(take_u64(s), |feet_y: u64, s: Seq<u8>| then(take_u64(s), |z: u64, s: Seq<u8>| then(take_u32(s), |yaw: u32, s: Seq<u8>| then(take_u32(s), |pitch: u32, s: Seq<u8>| then(take_bool(s), |on_ground: bool, s: Seq<u8>| (Ok(ServerboundMovePlayerPosRot { x, feet_y, z, yaw, pitch, on_ground }), s))))))))
    }
}

impl Roundtrip for ServerboundMovePlayerPosRot {
    open spec fn encodable(p: ServerboundMovePlayerPosRot) -> bool {
        true
    }

    open spec fn reads_to_end() -> bool {
        false
    }

    #[verifier::rlimit(100)]
    #[verifier::spinoff_prover]
    proof fn lemma_roundtrip(p: ServerboundMovePlayerPosRot, rest: Seq<u8>) {
        broadcast use group_wire_roundtrip;

        let t5 = seq![bool_byte(p.on_ground)] + rest;
        let t4 = be_u32_bytes(p.pitch) + t5;
        let t3 = be_u32_bytes(p.yaw) + t4;
        let t2 = be_u64_bytes(p.z) + t3;
        let t1 = be_u64_bytes(p.feet_y) + t2;
        lemma_concat_associative(be_u64_bytes(p.x) + be_u64_bytes(p.feet_y) + be_u64_bytes(p.z) + be_u32_bytes(p.yaw) + be_u32_bytes(p.pitch), seq![bool_byte(p.on_ground)], rest);
        lemma_concat_associative(be_u64_bytes(p.x) + be_u64_bytes(p.feet_y) + be_u64_bytes(p.z) + be_u32_bytes(p.yaw), be_u32_bytes(p.pitch), t5);
        lemma_concat_associative(be_u64_bytes(p.x) + be_u64_bytes(p.feet_y) + be_u64_bytes(p.z), be_u32_bytes(p.yaw), t4);
        lemma_concat_associative(be_u64_bytes(p.x) + be_u64_bytes(p.feet_y), be_u64_bytes(p.z), t3);
        lemma_concat_associative(be_u64_bytes(p.x), be_u64_bytes(p.feet_y), t2);
    }
}

impl Encode for ServerboundMovePlayerPosRot {
    fn encode(&self, dst: &mut BytesMut) -> (r: Result<(), ProtocolError>) {
        let ghost d0 = bytes_mut_data(*dst);
        put_u64(dst, self.x);
        let ghost mut e: Seq<u8> = be_u64_bytes(self@.x);
        put_u64(dst, self.feet_y);
        proof {
            lemma_concat_associative(d0, e, be_u64_bytes(self@.feet_y));
            e = e + be_u64_bytes(self@.feet_y);
        }
        put_u64(dst, self.z);
        proof {
            lemma_concat_associative(d0, e, be_u64_bytes(self@.z));
            e = e + be_u64_bytes(self@.z);
        }
        put_u32(dst, self.yaw);
        proof {
            lemma_concat_associative(d0, e, be_u32_bytes(self@.yaw));
            e = e + be_u32_bytes(self@.yaw);
        }
        put_u32(dst, self.pitch);
        proof {
            lemma_concat_associative(d0, e, be_u32_bytes(self@.pitch));
            e = e + be_u32_bytes(self@.pitch);
        }
        put_u8(dst, self.on_ground as u8);
        proof {
            lemma_concat_associative(d0, e, seq![bool_byte(self@.on_ground)]);
            e = e + seq![bool_byte(self@.on_ground)];
        }
        Ok(())
    }
}

impl Decode for ServerboundMovePlayerPosRot {
    fn decode(src: &mut Bytes) -> (r: Result<Self, ProtocolError>) {
        need(src, 33)?;
        let x = get_u64(src);
        let feet_y = get_u64(src);
        let z = get_u64(src);
        let yaw = get_u32(src);
        let pitch = get_u32(src);
        let on_ground = get_u8(src) != 0;
        Ok(Self { x, feet_y, z, yaw, pitch, on_ground })
    }
}

// ── ServerboundMovePlayerRot ──────────────────────────────────────────

#[derive(Debug, Clone, PartialEq)]
pub struct ServerboundMovePlayerRot {
    /// The bits of the `f32` value (`f32::to_bits`).
    pub yaw: u32,
    /// The bits of the `f32` value (`f32::to_bits`).
    pub pitch: u32,
    pub on_ground: bool,
}

impl View for ServerboundMovePlayerRot {
    type V = ServerboundMovePlayerRot;

    open spec fn view(&self) -> ServerboundMovePlayerRot {
        *self
    }
}

impl PacketId for ServerboundMovePlayerRot {
    open spec fn spec_packet_id(ver: u32) -> u8 {
        0x18
    }

    fn packet_id(_ver: u32) -> (r: u8) {
        0x18
    }
}

impl WireFormat for ServerboundMovePlayerRot {
    open spec fn spec_encode(p: ServerboundMovePlayerRot) -> Seq<u8> {
        be_u32_bytes(p.yaw) + be_u32_bytes(p.pitch) + seq![bool_byte(p.on_ground)]
    }

    open spec fn spec_decode(s: Seq<u8>) -> Parsed<ServerboundMovePlayerRot> {
        then(need_spec(s, 9), |_u: (), s: Seq<u8>| then(take_u32(s), |yaw: u32, s: Seq<u8>| then(take_u32(s), |pitch: u32, s: Seq<u8>| then(take_bool(s), |on_ground: bool, s: Seq<u8>| (Ok(ServerboundMovePlayerRot { yaw, pitch, on_ground }), s)))))
    }
}

impl Roundtrip for ServerboundMovePlayerRot {
    open spec fn encodable(p: ServerboundMovePlayerRot) -> bool {
        true
    }

    open spec fn reads_to_end() -> bool {
        false
    }

    proof fn lemma_roundtrip(p: ServerboundMovePlayerRot, rest: Seq<u8>) {
        broadcast use group_wire_roundtrip;

        let t2 = seq![bool_byte(p.on_ground)] + rest;
        let t1 = be_u32_bytes(p.pitch) + t2;
        lemma_concat_associative(be_u32_bytes(p.yaw) + be_u32_bytes(p.pitch), seq![bool_byte(p.on_ground)], rest);
        lemma_concat_associative(be_u32_bytes(p.yaw), be_u32_bytes(p.pitch), t2);
    }
}

impl Encode for ServerboundMovePlayerRot {
    fn encode(&self, dst: &mut BytesMut) -> (r: Result<(), ProtocolError>) {
        let ghost d0 = bytes_mut_data(*dst);
        put_u32(dst, self.yaw);
        let ghost mut e: Seq<u8> = be_u32_bytes(self@.yaw);
        put_u32(dst, self.pitch);
        proof {
            lemma_concat_associative(d0, e, be_u32_bytes(self@.pitch));
            e = e + be_u32_bytes(self@.pitch);
        }
        put_u8(dst, self.on_ground as u8);
        proof {
            lemma_concat_associative(d0, e, seq![bool_byte(self@.on_ground)]);
            e = e + seq![bool_byte(self@.on_ground)];
        }
        Ok(())
    }
}

impl Decode for ServerboundMovePlayerRot {
    fn decode(src: &mut Bytes) -> (r: Result<Self, ProtocolError>) {
        need(src, 9)?;
        let yaw = get_u32(src);
        let pitch = get_u32(src);
        let on_ground = get_u8(src) != 0;
        Ok(Self { yaw, pitch, on_ground })
    }
}

// ── ServerboundPluginMessage ──────────────────────────────────────────

#[derive(Debug, Clone, PartialEq)]
pub struct ServerboundPluginMessage {
    pub channel: String,
    pub data: Vec<u8>,
}

pub struct ServerboundPluginMessageView {
    pub channel: Seq<char>,
    pub data: Seq<u8>,
}

impl View for ServerboundPluginMessage {
    type V = ServerboundPluginMessageView;

    open spec fn view(&self) -> ServerboundPluginMessageView {
        ServerboundPluginMessageView {
            channel: self.channel@,
            data: self.data@,
        }
    }
}

impl PacketId for ServerboundPluginMessage {
    open spec fn spec_packet_id(ver: u32) -> u8 {
        0x0F
    }

    fn packet_id(_ver: u32) -> (r: u8) {
        0x0F
    }
}

impl WireFormat for ServerboundPluginMessage {
    open spec fn spec_encode(p: ServerboundPluginMessageView) -> Seq<u8> {
        string_wire(p.channel) + p.data
    }

    open spec fn spec_decode(s: Seq<u8>) -> Parsed<ServerboundPluginMessageView> {
        then(string_spec(s), |channel: Seq<char>, s: Seq<u8>| then(take_rest(s), |data: Seq<u8>, s: Seq<u8>| (Ok(ServerboundPluginMessageView { channel, data }), s)))
    }
}

impl Roundtrip for ServerboundPluginMessage {
    open spec fn encodable(p: ServerboundPluginMessageView) -> bool {
        string_fits(p.channel)
    }

    open spec fn reads_to_end() -> bool {
        true
    }

    proof fn lemma_roundtrip(p: ServerboundPluginMessageView, rest: Seq<u8>) {
        broadcast use group_wire_roundtrip;

        let t1 = p.data + rest;
        lemma_concat_associative(string_wire(p.channel), p.data, rest);
        lemma_string_field(p.channel, t1);
        assert(p.data + rest =~= p.data);
    }
}

impl Encode for ServerboundPluginMessage {
    fn encode(&self, dst: &mut BytesMut) -> (r: Result<(), ProtocolError>) {
        let ghost d0 = bytes_mut_data(*dst);
        encode_string(self.channel.as_str(), dst);
        let ghost mut e: Seq<u8> = string_wire(self@.channel);
        put_slice(dst, self.data.as_slice());
        proof {
            lemma_concat_associative(d0, e, self@.data);
            e = e + self@.data;
        }
        Ok(())
    }
}

impl Decode for ServerboundPluginMessage {
    fn decode(src: &mut Bytes) -> (r: Result<Self, ProtocolError>) {
        let channel = decode_string(src)?;
        let data = take_remaining(src);
        Ok(Self { channel, data })
    }
}

// ── ServerboundAcceptTeleportation ────────────────────────────────────

#[derive(Debug, Clone, PartialEq)]
pub struct ServerboundAcceptTeleportation {
    pub raw: Vec<u8>,
}

pub struct ServerboundAcceptTeleportationView {
    pub raw: Seq<u8>,
}

impl View for ServerboundAcceptTeleportation {
    type V = ServerboundAcceptTeleportationView;

    open spec fn view(&self) -> ServerboundAcceptTeleportationView {
        ServerboundAcceptTeleportationView {
            raw: self.raw@,
        }
    }
}

impl PacketId for ServerboundAcceptTeleportation {
    open spec fn spec_packet_id(ver: u32) -> u8 {
        0x00
    }

    fn packet_id(_ver: u32) -> (r: u8) {
        0x00
    }
}

impl WireFormat for ServerboundAcceptTeleportation {
    open spec fn spec_encode(p: ServerboundAcceptTeleportationView) -> Seq<u8> {
        p.raw
    }

    open spec fn spec_decode(s: Seq<u8>) -> Parsed<ServerboundAcceptTeleportationView> {
        then(take_rest(s), |raw: Seq<u8>, s: Seq<u8>| (Ok(ServerboundAcceptTeleportationView { raw }), s))
    }
}

impl Roundtrip for ServerboundAcceptTeleportation {
    open spec fn encodable(p: ServerboundAcceptTeleportationView) -> bool {
        true
    }

    open spec fn reads_to_end() -> bool {
        true
    }

    proof fn lemma_roundtrip(p: ServerboundAcceptTeleportationView, rest: Seq<u8>) {
        broadcast use group_wire_roundtrip;

        assert(p.raw + rest =~= p.raw);
    }
}

impl Encode for ServerboundAcceptTeleportation {
    fn encode(&self, dst: &mut BytesMut) -> (r: Result<(), ProtocolError>) {
        let ghost d0 = bytes_mut_data(*dst);
        put_slice(dst, self.raw.as_slice());
        let ghost mut e: Seq<u8> = self@.raw;
        Ok(())
    }
}

impl Decode for ServerboundAcceptTeleportation {
    fn decode(src: &mut Bytes) -> (r: Result<Self, ProtocolError>) {
        let raw = take_remaining(src);
        Ok(Self { raw })
    }
}

// ── ServerboundMovePlayerStatusOnly ───────────────────────────────────

#[derive(Debug, Clone, PartialEq)]
pub struct ServerboundMovePlayerStatusOnly {
    pub raw: Vec<u8>,
}

pub struct ServerboundMovePlayerStatusOnlyView {
    pub raw: Seq<u8>,
}

impl View for ServerboundMovePlayerStatusOnly {
    type V = ServerboundMovePlayerStatusOnlyView;

    open spec fn view(&self) -> ServerboundMovePlayerStatusOnlyView {
        ServerboundMovePlayerStatusOnlyView {
            raw: self.raw@,
        }
    }
}

impl PacketId for ServerboundMovePlayerStatusOnly {
    open spec fn spec_packet_id(ver: u32) -> u8 {
        0x16
    }

    fn packet_id(_ver: u32) -> (r: u8) {
        0x16
    }
}

impl WireFormat for ServerboundMovePlayerStatusOnly {
    open spec fn spec_encode(p: ServerboundMovePlayerStatusOnlyView) -> Seq<u8> {
        p.raw
    }

    open spec fn spec_decode(s: Seq<u8>) -> Parsed<ServerboundMovePlayerStatusOnlyView> {
        then(take_rest(s), |raw: Seq<u8>, s: Seq<u8>| (Ok(ServerboundMovePlayerStatusOnlyView { raw }), s))
    }
}

impl Roundtrip for ServerboundMovePlayerStatusOnly {
    open spec fn encodable(p: ServerboundMovePlayerStatusOnlyView) -> bool {
        true
    }

    open spec fn reads_to_end() -> bool {
        true
    }

    proof fn lemma_roundtrip(p: ServerboundMovePlayerStatusOnlyView, rest: Seq<u8>) {
        broadcast use group_wire_roundtrip;

        assert(p.raw + rest =~= p.raw);
    }
}

impl Encode for ServerboundMovePlayerStatusOnly {
    fn encode(&self, dst: &mut BytesMut) -> (r: Result<(), ProtocolError>) {
        let ghost d0 = bytes_mut_data(*dst);
        put_slice(dst, self.raw.as_slice());
        let ghost mut e: Seq<u8> = self@.raw;
        Ok(())
    }
}

impl Decode for ServerboundMovePlayerStatusOnly {
    fn decode(src: &mut Bytes) -> (r: Result<Self, ProtocolError>) {
        let raw = take_remaining(src);
        Ok(Self { raw })
    }
}

// ── ServerboundVehicleMove ────────────────────────────────────────────

#[derive(Debug, Clone, PartialEq)]
pub struct ServerboundVehicleMove {
    pub raw: Vec<u8>,
}

pub struct ServerboundVehicleMoveView {
    pub raw: Seq<u8>,
}

impl View for ServerboundVehicleMove {
    type V = ServerboundVehicleMoveView;

    open spec fn view(&self) -> ServerboundVehicleMoveView {
        ServerboundVehicleMoveView {
            raw: self.raw@,
        }
    }
}

impl PacketId for ServerboundVehicleMove {
    open spec fn spec_packet_id(ver: u32) -> u8 {
        0x1A
    }

    fn packet_id(_ver: u32) -> (r: u8) {
        0x1A
    }
}

impl WireFormat for ServerboundVehicleMove {
    open spec fn spec_encode(p: ServerboundVehicleMoveView) -> Seq<u8> {
        p.raw
    }

    open spec fn spec_decode(s: Seq<u8>) -> Parsed<ServerboundVehicleMoveView> {
        then(take_rest(s), |raw: Seq<u8>, s: Seq<u8>| (Ok(ServerboundVehicleMoveView { raw }), s))
    }
}

impl Roundtrip for ServerboundVehicleMove {
    open spec fn encodable(p: ServerboundVehicleMoveView) -> bool {
        true
    }

    open spec fn reads_to_end() -> bool {
        true
    }

    proof fn lemma_roundtrip(p: ServerboundVehicleMoveView, rest: Seq<u8>) {
        broadcast use group_wire_roundtrip;

        assert(p.raw + rest =~= p.raw);
    }
}

impl Encode for ServerboundVehicleMove {
    fn encode(&self, dst: &mut BytesMut) -> (r: Result<(), ProtocolError>) {
        let ghost d0 = bytes_mut_data(*dst);
        put_slice(dst, self.raw.as_slice());
        let ghost mut e: Seq<u8> = self@.raw;
        Ok(())
    }
}

impl Decode for ServerboundVehicleMove {
    fn decode(src: &mut Bytes) -> (r: Result<Self, ProtocolError>) {
        let raw = take_remaining(src);
        Ok(Self { raw })
    }
}

// ── ServerboundSteerBoat ──────────────────────────────────────────────

#[derive(Debug, Clone, PartialEq)]
pub struct ServerboundSteerBoat {
    pub raw: Vec<u8>,
}

pub struct ServerboundSteerBoatView {
    pub raw: Seq<u8>,
}

impl View for ServerboundSteerBoat {
    type V = ServerboundSteerBoatView;

    open spec fn view(&self) -> ServerboundSteerBoatView {
        ServerboundSteerBoatView {
            raw: self.raw@,
        }
    }
}

impl PacketId for ServerboundSteerBoat {
    open spec fn spec_packet_id(ver: u32) -> u8 {
        0x1B
    }

    fn packet_id(_ver: u32) -> (r: u8) {
        0x1B
    }
}

impl WireFormat for ServerboundSteerBoat {
    open spec fn spec_encode(p: ServerboundSteerBoatView) -> Seq<u8> {
        p.raw
    }

    open spec fn spec_decode(s: Seq<u8>) -> Parsed<ServerboundSteerBoatView> {
        then(take_rest(s), |raw: Seq<u8>, s: Seq<u8>| (Ok(ServerboundSteerBoatView { raw }), s))
    }
}

impl Roundtrip for ServerboundSteerBoat {
    open spec fn encodable(p: ServerboundSteerBoatView) -> bool {
        true
    }

    open spec fn reads_to_end() -> bool {
        true
    }

    proof fn lemma_roundtrip(p: ServerboundSteerBoatView, rest: Seq<u8>) {
        broadcast use group_wire_roundtrip;

        assert(p.raw + rest =~= p.raw);
    }
}

impl Encode for ServerboundSteerBoat {
    fn encode(&self, dst: &mut BytesMut) -> (r: Result<(), ProtocolError>) {
        let ghost d0 = bytes_mut_data(*dst);
        put_slice(dst, self.raw.as_slice());
        let ghost mut e: Seq<u8> = self@.raw;
        Ok(())
    }
}

impl Decode for ServerboundSteerBoat {
    fn decode(src: &mut Bytes) -> (r: Result<Self, ProtocolError>) {
        let raw = take_remaining(src);
        Ok(Self { raw })
    }
}

// ── ServerboundPaddleBoat ─────────────────────────────────────────────

#[derive(Debug, Clone, PartialEq)]
pub struct ServerboundPaddleBoat {
    pub raw: Vec<u8>,
}

pub struct ServerboundPaddleBoatView {
    pub raw: Seq<u8>,
}

impl View for ServerboundPaddleBoat {
    type V = ServerboundPaddleBoatView;

    open spec fn view(&self) -> ServerboundPaddleBoatView {
        ServerboundPaddleBoatView {
            raw: self.raw@,
        }
    }
}

impl PacketId for ServerboundPaddleBoat {
    open spec fn spec_packet_id(ver: u32) -> u8 {
        0x1B
    }

    fn packet_id(_ver: u32) -> (r: u8) {
        0x1B
    }
}

impl WireFormat for ServerboundPaddleBoat {
    open spec fn spec_encode(p: ServerboundPaddleBoatView) -> Seq<u8> {
        p.raw
    }

    open spec fn spec_decode(s: Seq<u8>) -> Parsed<ServerboundPaddleBoatView> {
        then(take_rest(s), |raw: Seq<u8>, s: Seq<u8>| (Ok(ServerboundPaddleBoatView { raw }), s))
    }
}

impl Roundtrip for ServerboundPaddleBoat {
    open spec fn encodable(p: ServerboundPaddleBoatView) -> bool {
        true
    }

    open spec fn reads_to_end() -> bool {
        true
    }

    proof fn lemma_roundtrip(p: ServerboundPaddleBoatView, rest: Seq<u8>) {
        broadcast use group_wire_roundtrip;

        assert(p.raw + rest =~= p.raw);
    }
}

impl Encode for ServerboundPaddleBoat {
    fn encode(&self, dst: &mut BytesMut) -> (r: Result<(), ProtocolError>) {
        let ghost d0 = bytes_mut_data(*dst);
        put_slice(dst, self.raw.as_slice());
        let ghost mut e: Seq<u8> = self@.raw;
        Ok(())
    }
}

impl Decode for ServerboundPaddleBoat {
    fn decode(src: &mut Bytes) -> (r: Result<Self, ProtocolError>) {
        let raw = take_remaining(src);
        Ok(Self { raw })
    }
}

// ── ServerboundPlayerAbilities ────────────────────────────────────────

#[derive(Debug, Clone, PartialEq)]
pub struct ServerboundPlayerAbilities {
    pub raw: Vec<u8>,
}

pub struct ServerboundPlayerAbilitiesView {
    pub raw: Seq<u8>,
}

impl View for ServerboundPlayerAbilities {
    type V = ServerboundPlayerAbilitiesView;

    open spec fn view(&self) -> ServerboundPlayerAbilitiesView {
        ServerboundPlayerAbilitiesView {
            raw: self.raw@,
        }
    }
}

impl PacketId for ServerboundPlayerAbilities {
    open spec fn spec_packet_id(ver: u32) -> u8 {
        0x1E
    }

    fn packet_id(_ver: u32) -> (r: u8) {
        0x1E
    }
}

impl WireFormat for ServerboundPlayerAbilities {
    open spec fn spec_encode(p: ServerboundPlayerAbilitiesView) -> Seq<u8> {
        p.raw
    }

    open spec fn spec_decode(s: Seq<u8>) -> Parsed<ServerboundPlayerAbilitiesView> {
        then(take_rest(s), |raw: Seq<u8>, s: Seq<u8>| (Ok(ServerboundPlayerAbilitiesView { raw }), s))
    }
}

impl Roundtrip for ServerboundPlayerAbilities {
    open spec fn encodable(p: ServerboundPlayerAbilitiesView) -> bool {
        true
    }

    open spec fn reads_to_end() -> bool {
        true
    }

    proof fn lemma_roundtrip(p: ServerboundPlayerAbilitiesView, rest: Seq<u8>) {
        broadcast use group_wire_roundtrip;

        assert(p.raw + rest =~= p.raw);
    }
}

impl Encode for ServerboundPlayerAbilities {
    fn encode(&self, dst: &mut BytesMut) -> (r: Result<(), ProtocolError>) {
        let ghost d0 = bytes_mut_data(*dst);
        put_slice(dst, self.raw.as_slice());
        let ghost mut e: Seq<u8> = self@.raw;
        Ok(())
    }
}

impl Decode for ServerboundPlayerAbilities {
    fn decode(src: &mut Bytes) -> (r: Result<Self, ProtocolError>) {
        let raw = take_remaining(src);
        Ok(Self { raw })
    }
}

// ── ServerboundPlayerAction ───────────────────────────────────────────

#[derive(Debug, Clone, PartialEq)]
pub struct ServerboundPlayerAction {
    pub raw: Vec<u8>,
}

pub struct ServerboundPlayerActionView {
    pub raw: Seq<u8>,
}

impl View for ServerboundPlayerAction {
    type V = ServerboundPlayerActionView;

    open spec fn view(&self) -> ServerboundPlayerActionView {
        ServerboundPlayerActionView {
            raw: self.raw@,
        }
    }
}

impl PacketId for ServerboundPlayerAction {
    open spec fn spec_packet_id(ver: u32) -> u8 {
        0x1F
    }

    fn packet_id(_ver: u32) -> (r: u8) {
        0x1F
    }
}

impl WireFormat for ServerboundPlayerAction {
    open spec fn spec_encode(p: ServerboundPlayerActionView) -> Seq<u8> {
        p.raw
    }

    open spec fn spec_decode(s: Seq<u8>) -> Parsed<ServerboundPlayerActionView> {
        then(take_rest(s), |raw: Seq<u8>, s: Seq<u8>| (Ok(ServerboundPlayerActionView { raw }), s))
    }
}

impl Roundtrip for ServerboundPlayerAction {
    open spec fn encodable(p: ServerboundPlayerActionView) -> bool {
        true
    }

    open spec fn reads_to_end() -> bool {
        true
    }

    proof fn lemma_roundtrip(p: ServerboundPlayerActionView, rest: Seq<u8>) {
        broadcast use group_wire_roundtrip;

        assert(p.raw + rest =~= p.raw);
    }
}

impl Encode for ServerboundPlayerAction {
    fn encode(&self, dst: &mut BytesMut) -> (r: Result<(), ProtocolError>) {
        let ghost d0 = bytes_mut_data(*dst);
        put_slice(dst, self.raw.as_slice());
        let ghost mut e: Seq<u8> = self@.raw;
        Ok(())
    }
}

impl Decode for ServerboundPlayerAction {
    fn decode(src: &mut Bytes) -> (r: Result<Self, ProtocolError>) {
        let raw = take_remaining(src);
        Ok(Self { raw })
    }
}

// ── ServerboundEntityAction ───────────────────────────────────────────

#[derive(Debug, Clone, PartialEq)]
pub struct ServerboundEntityAction {
    pub raw: Vec<u8>,
}

pub struct ServerboundEntityActionView {
    pub raw: Seq<u8>,
}

impl View for ServerboundEntityAction {
    type V = ServerboundEntityActionView;

    open spec fn view(&self) -> ServerboundEntityActionView {
        ServerboundEntityActionView {
            raw: self.raw@,
        }
    }
}

impl PacketId for ServerboundEntityAction {
    open spec fn spec_packet_id(ver: u32) -> u8 {
        0x20
    }

    fn packet_id(_ver: u32) -> (r: u8) {
        0x20
    }
}

impl WireFormat for ServerboundEntityAction {
    open spec fn spec_encode(p: ServerboundEntityActionView) -> Seq<u8> {
        p.raw
    }

    open spec fn spec_decode(s: Seq<u8>) -> Parsed<ServerboundEntityActionView> {
        then(take_rest(s), |raw: Seq<u8>, s: Seq<u8>| (Ok(ServerboundEntityActionView { raw }), s))
    }
}

impl Roundtrip for ServerboundEntityAction {
    open spec fn encodable(p: ServerboundEntityActionView) -> bool {
        true
    }

    open spec fn reads_to_end() -> bool {
        true
    }

    proof fn lemma_roundtrip(p: ServerboundEntityActionView, rest: Seq<u8>) {
        broadcast use group_wire_roundtrip;

        assert(p.raw + rest =~= p.raw);
    }
}

impl Encode for ServerboundEntityAction {
    fn encode(&self, dst: &mut BytesMut) -> (r: Result<(), ProtocolError>) {
        let ghost d0 = bytes_mut_data(*dst);
        put_slice(dst, self.raw.as_slice());
        let ghost mut e: Seq<u8> = self@.raw;
        Ok(())
    }
}

impl Decode for ServerboundEntityAction {
    fn decode(src: &mut Bytes) -> (r: Result<Self, ProtocolError>) {
        let raw = take_remaining(src);
        Ok(Self { raw })
    }
}

// ── ServerboundSteerVehicle ───────────────────────────────────────────

#[derive(Debug, Clone, PartialEq)]
pub struct ServerboundSteerVehicle {
    pub raw: Vec<u8>,
}

pub struct ServerboundSteerVehicleView {
    pub raw: Seq<u8>,
}

impl View for ServerboundSteerVehicle {
    type V = ServerboundSteerVehicleView;

    open spec fn view(&self) -> ServerboundSteerVehicleView {
        ServerboundSteerVehicleView {
            raw: self.raw@,
        }
    }
}

impl PacketId for ServerboundSteerVehicle {
    open spec fn spec_packet_id(ver: u32) -> u8 {
        0x21
    }

    fn packet_id(_ver: u32) -> (r: u8) {
        0x21
    }
}

impl WireFormat for ServerboundSteerVehicle {
    open spec fn spec_encode(p: ServerboundSteerVehicleView) -> Seq<u8> {
        p.raw
    }

    open spec fn spec_decode(s: Seq<u8>) -> Parsed<ServerboundSteerVehicleView> {
        then(take_rest(s), |raw: Seq<u8>, s: Seq<u8>| (Ok(ServerboundSteerVehicleView { raw }), s))
    }
}

impl Roundtrip for ServerboundSteerVehicle {
    open spec fn encodable(p: ServerboundSteerVehicleView) -> bool {
        true
    }

    open spec fn reads_to_end() -> bool {
        true
    }

    proof fn lemma_roundtrip(p: ServerboundSteerVehicleView, rest: Seq<u8>) {
        broadcast use group_wire_roundtrip;

        assert(p.raw + rest =~= p.raw);
    }
}

impl Encode for ServerboundSteerVehicle {
    fn encode(&self, dst: &mut BytesMut) -> (r: Result<(), ProtocolError>) {
        let ghost d0 = bytes_mut_data(*dst);
        put_slice(dst, self.raw.as_slice());
        let ghost mut e: Seq<u8> = self@.raw;
        Ok(())
    }
}

impl Decode for ServerboundSteerVehicle {
    fn decode(src: &mut Bytes) -> (r: Result<Self, ProtocolError>) {
        let raw = take_remaining(src);
        Ok(Self { raw })
    }
}

// ── ServerboundPlayerWeaponAttack ─────────────────────────────────────

#[derive(Debug, Clone, PartialEq)]
pub struct ServerboundPlayerWeaponAttack {
    pub raw: Vec<u8>,
}

pub struct ServerboundPlayerWeaponAttackView {
    pub raw: Seq<u8>,
}

impl View for ServerboundPlayerWeaponAttack {
    type V = ServerboundPlayerWeaponAttackView;

    open spec fn view(&self) -> ServerboundPlayerWeaponAttackView {
        ServerboundPlayerWeaponAttackView {
            raw: self.raw@,
        }
    }
}

impl PacketId for ServerboundPlayerWeaponAttack {
    open spec fn spec_packet_id(ver: u32) -> u8 {
        0x22
    }

    fn packet_id(_ver: u32) -> (r: u8) {
        0x22
    }
}

impl WireFormat for ServerboundPlayerWeaponAttack {
    open spec fn spec_encode(p: ServerboundPlayerWeaponAttackView) -> Seq<u8> {
        p.raw
    }

    open spec fn spec_decode(s: Seq<u8>) -> Parsed<ServerboundPlayerWeaponAttackView> {
        then(take_rest(s), |raw: Seq<u8>, s: Seq<u8>| (Ok(ServerboundPlayerWeaponAttackView { raw }), s))
    }
}

impl Roundtrip for ServerboundPlayerWeaponAttack {
    open spec fn encodable(p: ServerboundPlayerWeaponAttackView) -> bool {
        true
    }

    open spec fn reads_to_end() -> bool {
        true
    }

    proof fn lemma_roundtrip(p: ServerboundPlayerWeaponAttackView, rest: Seq<u8>) {
        broadcast use group_wire_roundtrip;

        assert(p.raw + rest =~= p.raw);
    }
}

impl Encode for ServerboundPlayerWeaponAttack {
    fn encode(&self, dst: &mut BytesMut) -> (r: Result<(), ProtocolError>) {
        let ghost d0 = bytes_mut_data(*dst);
        put_slice(dst, self.raw.as_slice());
        let ghost mut e: Seq<u8> = self@.raw;
        Ok(())
    }
}

impl Decode for ServerboundPlayerWeaponAttack {
    fn decode(src: &mut Bytes) -> (r: Result<Self, ProtocolError>) {
        let raw = take_remaining(src);
        Ok(Self { raw })
    }
}

// ── ServerboundSwingArm ───────────────────────────────────────────────

#[derive(Debug, Clone, PartialEq)]
pub struct ServerboundSwingArm {
    pub raw: Vec<u8>,
}

pub struct ServerboundSwingArmView {
    pub raw: Seq<u8>,
}

impl View for ServerboundSwingArm {
    type V = ServerboundSwingArmView;

    open spec fn view(&self) -> ServerboundSwingArmView {
        ServerboundSwingArmView {
            raw: self.raw@,
        }
    }
}

impl PacketId for ServerboundSwingArm {
    open spec fn spec_packet_id(ver: u32) -> u8 {
        0x32
    }

    fn packet_id(_ver: u32) -> (r: u8) {
        0x32
    }
}

impl WireFormat for ServerboundSwingArm {
    open spec fn spec_encode(p: ServerboundSwingArmView) -> Seq<u8> {
        p.raw
    }

    open spec fn spec_decode(s: Seq<u8>) -> Parsed<ServerboundSwingArmView> {
        then(take_rest(s), |raw: Seq<u8>, s: Seq<u8>| (Ok(ServerboundSwingArmView { raw }), s))
    }
}

impl Roundtrip for ServerboundSwingArm {
    open spec fn encodable(p: ServerboundSwingArmView) -> bool {
        true
    }

    open spec fn reads_to_end() -> bool {
        true
    }

    proof fn lemma_roundtrip(p: ServerboundSwingArmView, rest: Seq<u8>) {
        broadcast use group_wire_roundtrip;

        assert(p.raw + rest =~= p.raw);
    }
}

impl Encode for ServerboundSwingArm {
    fn encode(&self, dst: &mut BytesMut) -> (r: Result<(), ProtocolError>) {
        let ghost d0 = bytes_mut_data(*dst);
        put_slice(dst, self.raw.as_slice());
        let ghost mut e: Seq<u8> = self@.raw;
        Ok(())
    }
}

impl Decode for ServerboundSwingArm {
    fn decode(src: &mut Bytes) -> (r: Result<Self, ProtocolError>) {
        let raw = take_remaining(src);
        Ok(Self { raw })
    }
}

// ── ServerboundSpectate ───────────────────────────────────────────────

#[derive(Debug, Clone, PartialEq)]
pub struct ServerboundSpectate {
    pub raw: Vec<u8>,
}

pub struct ServerboundSpectateView {
    pub raw: Seq<u8>,
}

impl View for ServerboundSpectate {
    type V = ServerboundSpectateView;

    open spec fn view(&self) -> ServerboundSpectateView {
        ServerboundSpectateView {
            raw: self.raw@,
        }
    }
}

impl PacketId for ServerboundSpectate {
    open spec fn spec_packet_id(ver: u32) -> u8 {
        0x33
    }

    fn packet_id(_ver: u32) -> (r: u8) {
        0x33
    }
}

impl WireFormat for ServerboundSpectate {
    open spec fn spec_encode(p: ServerboundSpectateView) -> Seq<u8> {
        p.raw
    }

    open spec fn spec_decode(s: Seq<u8>) -> Parsed<ServerboundSpectateView> {
        then(take_rest(s), |raw: Seq<u8>, s: Seq<u8>| (Ok(ServerboundSpectateView { raw }), s))
    }
}

impl Roundtrip for ServerboundSpectate {
    open spec fn encodable(p: ServerboundSpectateView) -> bool {
        true
    }

    open spec fn reads_to_end() -> bool {
        true
    }

    proof fn lemma_roundtrip(p: ServerboundSpectateView, rest: Seq<u8>) {
        broadcast use group_wire_roundtrip;

        assert(p.raw + rest =~= p.raw);
    }
}

impl Encode for ServerboundSpectate {
    fn encode(&self, dst: &mut BytesMut) -> (r: Result<(), ProtocolError>) {
        let ghost d0 = bytes_mut_data(*dst);
        put_slice(dst, self.raw.as_slice());
        let ghost mut e: Seq<u8> = self@.raw;
        Ok(())
    }
}

impl Decode for ServerboundSpectate {
    fn decode(src: &mut Bytes) -> (r: Result<Self, ProtocolError>) {
        let raw = take_remaining(src);
        Ok(Self { raw })
    }
}

// ── ServerboundUseItemOn ──────────────────────────────────────────────

#[derive(Debug, Clone, PartialEq)]
pub struct ServerboundUseItemOn {
    pub raw: Vec<u8>,
}

pub struct ServerboundUseItemOnView {
    pub raw: Seq<u8>,
}

impl View for ServerboundUseItemOn {
    type V = ServerboundUseItemOnView;

    open spec fn view(&self) -> ServerboundUseItemOnView {
        ServerboundUseItemOnView {
            raw: self.raw@,
        }
    }
}

impl PacketId for ServerboundUseItemOn {
    open spec fn spec_packet_id(ver: u32) -> u8 {
        0x34
    }

    fn packet_id(_ver: u32) -> (r: u8) {
        0x34
    }
}

impl WireFormat for ServerboundUseItemOn {
    open spec fn spec_encode(p: ServerboundUseItemOnView) -> Seq<u8> {
        p.raw
    }

    open spec fn spec_decode(s: Seq<u8>) -> Parsed<ServerboundUseItemOnView> {
        then(take_rest(s), |raw: Seq<u8>, s: Seq<u8>| (Ok(ServerboundUseItemOnView { raw }), s))
    }
}

impl Roundtrip for ServerboundUseItemOn {
    open spec fn encodable(p: ServerboundUseItemOnView) -> bool {
        true
    }

    open spec fn reads_to_end() -> bool {
        true
    }

    proof fn lemma_roundtrip(p: ServerboundUseItemOnView, rest: Seq<u8>) {
        broadcast use group_wire_roundtrip;

        assert(p.raw + rest =~= p.raw);
    }
}

impl Encode for ServerboundUseItemOn {
    fn encode(&self, dst: &mut BytesMut) -> (r: Result<(), ProtocolError>) {
        let ghost d0 = bytes_mut_data(*dst);
        put_slice(dst, self.raw.as_slice());
        let ghost mut e: Seq<u8> = self@.raw;
        Ok(())
    }
}

impl Decode for ServerboundUseItemOn {
    fn decode(src: &mut Bytes) -> (r: Result<Self, ProtocolError>) {
        let raw = take_remaining(src);
        Ok(Self { raw })
    }
}

// ── ServerboundUseItem ────────────────────────────────────────────────

#[derive(Debug, Clone, PartialEq)]
pub struct ServerboundUseItem {
    pub raw: Vec<u8>,
}

pub struct ServerboundUseItemView {
    pub raw: Seq<u8>,
}

impl View for ServerboundUseItem {
    type V = ServerboundUseItemView;

    open spec fn view(&self) -> ServerboundUseItemView {
        ServerboundUseItemView {
            raw: self.raw@,
        }
    }
}

impl PacketId for ServerboundUseItem {
    open spec fn spec_packet_id(ver: u32) -> u8 {
        0x35
    }

    fn packet_id(_ver: u32) -> (r: u8) {
        0x35
    }
}

impl WireFormat for ServerboundUseItem {
    open spec fn spec_encode(p: ServerboundUseItemView) -> Seq<u8> {
        p.raw
    }

    open spec fn spec_decode(s: Seq<u8>) -> Parsed<ServerboundUseItemView> {
        then(take_rest(s), |raw: Seq<u8>, s: Seq<u8>| (Ok(ServerboundUseItemView { raw }), s))
    }
}

impl Roundtrip for ServerboundUseItem {
    open spec fn encodable(p: ServerboundUseItemView) -> bool {
        true
    }

    open spec fn reads_to_end() -> bool {
        true
    }

    proof fn lemma_roundtrip(p: ServerboundUseItemView, rest: Seq<u8>) {
        broadcast use group_wire_roundtrip;

        assert(p.raw + rest =~= p.raw);
    }
}

impl Encode for ServerboundUseItem {
    fn encode(&self, dst: &mut BytesMut) -> (r: Result<(), ProtocolError>) {
        let ghost d0 = bytes_mut_data(*dst);
        put_slice(dst, self.raw.as_slice());
        let ghost mut e: Seq<u8> = self@.raw;
        Ok(())
    }
}

impl Decode for ServerboundUseItem {
    fn decode(src: &mut Bytes) -> (r: Result<Self, ProtocolError>) {
        let raw = take_remaining(src);
        Ok(Self { raw })
    }
}

// ── ServerboundCloseWindow ────────────────────────────────────────────

#[derive(Debug, Clone, PartialEq)]
pub struct ServerboundCloseWindow {
    pub raw: Vec<u8>,
}

pub struct ServerboundCloseWindowView {
    pub raw: Seq<u8>,
}

impl View for ServerboundCloseWindow {
    type V = ServerboundCloseWindowView;

    open spec fn view(&self) -> ServerboundCloseWindowView {
        ServerboundCloseWindowView {
            raw: self.raw@,
        }
    }
}

impl PacketId for ServerboundCloseWindow {
    open spec fn spec_packet_id(ver: u32) -> u8 {
        0x0E
    }

    fn packet_id(_ver: u32) -> (r: u8) {
        0x0E
    }
}

impl WireFormat for ServerboundCloseWindow {
    open spec fn spec_encode(p: ServerboundCloseWindowView) -> Seq<u8> {
        p.raw
    }

    open spec fn spec_decode(s: Seq<u8>) -> Parsed<ServerboundCloseWindowView> {
        then(take_rest(s), |raw: Seq<u8>, s: Seq<u8>| (Ok(ServerboundCloseWindowView { raw }), s))
    }
}

impl Roundtrip for ServerboundCloseWindow {
    open spec fn encodable(p: ServerboundCloseWindowView) -> bool {
        true
    }

    open spec fn reads_to_end() -> bool {
        true
    }

    proof fn lemma_roundtrip(p: ServerboundCloseWindowView, rest: Seq<u8>) {
        broadcast use group_wire_roundtrip;

        assert(p.raw + rest =~= p.raw);
    }
}

impl Encode for ServerboundCloseWindow {
    fn encode(&self, dst: &mut BytesMut) -> (r: Result<(), ProtocolError>) {
        let ghost d0 = bytes_mut_data(*dst);
        put_slice(dst, self.raw.as_slice());
        let ghost mut e: Seq<u8> = self@.raw;
        Ok(())
    }
}

impl Decode for ServerboundCloseWindow {
    fn decode(src: &mut Bytes) -> (r: Result<Self, ProtocolError>) {
        let raw = take_remaining(src);
        Ok(Self { raw })
    }
}

// ── ServerboundClickWindow ────────────────────────────────────────────

#[derive(Debug, Clone, PartialEq)]
pub struct ServerboundClickWindow {
    pub raw: Vec<u8>,
}

pub struct ServerboundClickWindowView {
    pub raw: Seq<u8>,
}

impl View for ServerboundClickWindow {
    type V = ServerboundClickWindowView;

    open spec fn view(&self) -> ServerboundClickWindowView {
        ServerboundClickWindowView {
            raw: self.raw@,
        }
    }
}

impl PacketId for ServerboundClickWindow {
    open spec fn spec_packet_id(ver: u32) -> u8 {
        0x0D
    }

    fn packet_id(_ver: u32) -> (r: u8) {
        0x0D
    }
}

impl WireFormat for ServerboundClickWindow {
    open spec fn spec_encode(p: ServerboundClickWindowView) -> Seq<u8> {
        p.raw
    }

    open spec fn spec_decode(s: Seq<u8>) -> Parsed<ServerboundClickWindowView> {
        then(take_rest(s), |raw: Seq<u8>, s: Seq<u8>| (Ok(ServerboundClickWindowView { raw }), s))
    }
}

impl Roundtrip for ServerboundClickWindow {
    open spec fn encodable(p: ServerboundClickWindowView) -> bool {
        true
    }

    open spec fn reads_to_end() -> bool {
        true
    }

    proof fn lemma_roundtrip(p: ServerboundClickWindowView, rest: Seq<u8>) {
        broadcast use group_wire_roundtrip;

        assert(p.raw + rest =~= p.raw);
    }
}

impl Encode for ServerboundClickWindow {
    fn encode(&self, dst: &mut BytesMut) -> (r: Result<(), ProtocolError>) {
        let ghost d0 = bytes_mut_data(*dst);
        put_slice(dst, self.raw.as_slice());
        let ghost mut e: Seq<u8> = self@.raw;
        Ok(())
    }
}

impl Decode for ServerboundClickWindow {
    fn decode(src: &mut Bytes) -> (r: Result<Self, ProtocolError>) {
        let raw = take_remaining(src);
        Ok(Self { raw })
    }
}

// ── ServerboundClickWindowButton ──────────────────────────────────────

#[derive(Debug, Clone, PartialEq)]
pub struct ServerboundClickWindowButton {
    pub raw: Vec<u8>,
}

pub struct ServerboundClickWindowButtonView {
    pub raw: Seq<u8>,
}

impl View for ServerboundClickWindowButton {
    type V = ServerboundClickWindowButtonView;

    open spec fn view(&self) -> ServerboundClickWindowButtonView {
        ServerboundClickWindowButtonView {
            raw: self.raw@,
        }
    }
}

impl PacketId for ServerboundClickWindowButton {
    open spec fn spec_packet_id(ver: u32) -> u8 {
        0x0C
    }

    fn packet_id(_ver: u32) -> (r: u8) {
        0x0C
    }
}

impl WireFormat for ServerboundClickWindowButton {
    open spec fn spec_encode(p: ServerboundClickWindowButtonView) -> Seq<u8> {
        p.raw
    }

    open spec fn spec_decode(s: Seq<u8>) -> Parsed<ServerboundClickWindowButtonView> {
        then(take_rest(s), |raw: Seq<u8>, s: Seq<u8>| (Ok(ServerboundClickWindowButtonView { raw }), s))
    }
}

impl Roundtrip for ServerboundClickWindowButton {
    open spec fn encodable(p: ServerboundClickWindowButtonView) -> bool {
        true
    }

    open spec fn reads_to_end() -> bool {
        true
    }

    proof fn lemma_roundtrip(p: ServerboundClickWindowButtonView, rest: Seq<u8>) {
        broadcast use group_wire_roundtrip;

        assert(p.raw + rest =~= p.raw);
    }
}

impl Encode for ServerboundClickWindowButton {
    fn encode(&self, dst: &mut BytesMut) -> (r: Result<(), ProtocolError>) {
        let ghost d0 = bytes_mut_data(*dst);
        put_slice(dst, self.raw.as_slice());
        let ghost mut e: Seq<u8> = self@.raw;
        Ok(())
    }
}

impl Decode for ServerboundClickWindowButton {
    fn decode(src: &mut Bytes) -> (r: Result<Self, ProtocolError>) {
        let raw = take_remaining(src);
        Ok(Self { raw })
    }
}

// ── ServerboundCreativeInventoryAction ────────────────────────────────

#[derive(Debug, Clone, PartialEq)]
pub struct ServerboundCreativeInventoryAction {
    pub raw: Vec<u8>,
}

pub struct ServerboundCreativeInventoryActionView {
    pub raw: Seq<u8>,
}

impl View for ServerboundCreativeInventoryAction {
    type V = ServerboundCreativeInventoryActionView;

    open spec fn view(&self) -> ServerboundCreativeInventoryActionView {
        ServerboundCreativeInventoryActionView {
            raw: self.raw@,
        }
    }
}

impl PacketId for ServerboundCreativeInventoryAction {
    open spec fn spec_packet_id(ver: u32) -> u8 {
        0x2E
    }

    fn packet_id(_ver: u32) -> (r: u8) {
        0x2E
    }
}

impl WireFormat for ServerboundCreativeInventoryAction {
    open spec fn spec_encode(p: ServerboundCreativeInventoryActionView) -> Seq<u8> {
        p.raw
    }

    open spec fn spec_decode(s: Seq<u8>) -> Parsed<ServerboundCreativeInventoryActionView> {
        then(take_rest(s), |raw: Seq<u8>, s: Seq<u8>| (Ok(ServerboundCreativeInventoryActionView { raw }), s))
    }
}

impl Roundtrip for ServerboundCreativeInventoryAction {
    open spec fn encodable(p: ServerboundCreativeInventoryActionView) -> bool {
        true
    }

    open spec fn reads_to_end() -> bool {
        true
    }

    proof fn lemma_roundtrip(p: ServerboundCreativeInventoryActionView, rest: Seq<u8>) {
        broadcast use group_wire_roundtrip;

        assert(p.raw + rest =~= p.raw);
    }
}

impl Encode for ServerboundCreativeInventoryAction {
    fn encode(&self, dst: &mut BytesMut) -> (r: Result<(), ProtocolError>) {
        let ghost d0 = bytes_mut_data(*dst);
        put_slice(dst, self.raw.as_slice());
        let ghost mut e: Seq<u8> = self@.raw;
        Ok(())
    }
}

impl Decode for ServerboundCreativeInventoryAction {
    fn decode(src: &mut Bytes) -> (r: Result<Self, ProtocolError>) {
        let raw = take_remaining(src);
        Ok(Self { raw })
    }
}

// ── ServerboundHeldItemChange ─────────────────────────────────────────

#[derive(Debug, Clone, PartialEq)]
pub struct ServerboundHeldItemChange {
    pub raw: Vec<u8>,
}

pub struct ServerboundHeldItemChangeView {
    pub raw: Seq<u8>,
}

impl View for ServerboundHeldItemChange {
    type V = ServerboundHeldItemChangeView;

    open spec fn view(&self) -> ServerboundHeldItemChangeView {
        ServerboundHeldItemChangeView {
            raw: self.raw@,
        }
    }
}

impl PacketId for ServerboundHeldItemChange {
    open spec fn spec_packet_id(ver: u32) -> u8 {
        0x2B
    }

    fn packet_id(_ver: u32) -> (r: u8) {
        0x2B
    }
}

impl WireFormat for ServerboundHeldItemChange {
    open spec fn spec_encode(p: ServerboundHeldItemChangeView) -> Seq<u8> {
        p.raw
    }

    open spec fn spec_decode(s: Seq<u8>) -> Parsed<ServerboundHeldItemChangeView> {
        then(take_rest(s), |raw: Seq<u8>, s: Seq<u8>| (Ok(ServerboundHeldItemChangeView { raw }), s))
    }
}

impl Roundtrip for ServerboundHeldItemChange {
    open spec fn encodable(p: ServerboundHeldItemChangeView) -> bool {
        true
    }

    open spec fn reads_to_end() -> bool {
        true
    }

    proof fn lemma_roundtrip(p: ServerboundHeldItemChangeView, rest: Seq<u8>) {
        broadcast use group_wire_roundtrip;

        assert(p.raw + rest =~= p.raw);
    }
}

impl Encode for ServerboundHeldItemChange {
    fn encode(&self, dst: &mut BytesMut) -> (r: Result<(), ProtocolError>) {
        let ghost d0 = bytes_mut_data(*dst);
        put_slice(dst, self.raw.as_slice());
        let ghost mut e: Seq<u8> = self@.raw;
        Ok(())
    }
}

impl Decode for ServerboundHeldItemChange {
    fn decode(src: &mut Bytes) -> (r: Result<Self, ProtocolError>) {
        let raw = take_remaining(src);
        Ok(Self { raw })
    }
}

// ── ServerboundSetCreativeModeSlot ────────────────────────────────────

#[derive(Debug, Clone, PartialEq)]
pub struct ServerboundSetCreativeModeSlot {
    pub raw: Vec<u8>,
}

pub struct ServerboundSetCreativeModeSlotView {
    pub raw: Seq<u8>,
}

impl View for ServerboundSetCreativeModeSlot {
    type V = ServerboundSetCreativeModeSlotView;

    open spec fn view(&self) -> ServerboundSetCreativeModeSlotView {
        ServerboundSetCreativeModeSlotView {
            raw: self.raw@,
        }
    }
}

impl PacketId for ServerboundSetCreativeModeSlot {
    open spec fn spec_packet_id(ver: u32) -> u8 {
        0x2C
    }

    fn packet_id(_ver: u32) -> (r: u8) {
        0x2C
    }
}

impl WireFormat for ServerboundSetCreativeModeSlot {
    open spec fn spec_encode(p: ServerboundSetCreativeModeSlotView) -> Seq<u8> {
        p.raw
    }

    open spec fn spec_decode(s: Seq<u8>) -> Parsed<ServerboundSetCreativeModeSlotView> {
        then(take_rest(s), |raw: Seq<u8>, s: Seq<u8>| (Ok(ServerboundSetCreativeModeSlotView { raw }), s))
    }
}

impl Roundtrip for ServerboundSetCreativeModeSlot {
    open spec fn encodable(p: ServerboundSetCreativeModeSlotView) -> bool {
        true
    }

    open spec fn reads_to_end() -> bool {
        true
    }

    proof fn lemma_roundtrip(p: ServerboundSetCreativeModeSlotView, rest: Seq<u8>) {
        broadcast use group_wire_roundtrip;

        assert(p.raw + rest =~= p.raw);
    }
}

impl Encode for ServerboundSetCreativeModeSlot {
    fn encode(&self, dst: &mut BytesMut) -> (r: Result<(), ProtocolError>) {
        let ghost d0 = bytes_mut_data(*dst);
        put_slice(dst, self.raw.as_slice());
        let ghost mut e: Seq<u8> = self@.raw;
        Ok(())
    }
}

impl Decode for ServerboundSetCreativeModeSlot {
    fn decode(src: &mut Bytes) -> (r: Result<Self, ProtocolError>) {
        let raw = take_remaining(src);
        Ok(Self { raw })
    }
}

// ── ServerboundChatMessage ────────────────────────────────────────────

#[derive(Debug, Clone, PartialEq)]
pub struct ServerboundChatMessage {
    pub raw: Vec<u8>,
}

pub struct ServerboundChatMessageView {
    pub raw: Seq<u8>,
}

impl View for ServerboundChatMessage {
    type V = ServerboundChatMessageView;

    open spec fn view(&self) -> ServerboundChatMessageView {
        ServerboundChatMessageView {
            raw: self.raw@,
        }
    }
}

impl PacketId for ServerboundChatMessage {
    open spec fn spec_packet_id(ver: u32) -> u8 {
        0x06
    }

    fn packet_id(_ver: u32) -> (r: u8) {
        0x06
    }
}

impl WireFormat for ServerboundChatMessage {
    open spec fn spec_encode(p: ServerboundChatMessageView) -> Seq<u8> {
        p.raw
    }

    open spec fn spec_decode(s: Seq<u8>) -> Parsed<ServerboundChatMessageView> {
        then(take_rest(s), |raw: Seq<u8>, s: Seq<u8>| (Ok(ServerboundChatMessageView { raw }), s))
    }
}

impl Roundtrip for ServerboundChatMessage {
    open spec fn encodable(p: ServerboundChatMessageView) -> bool {
        true
    }

    open spec fn reads_to_end() -> bool {
        true
    }

    proof fn lemma_roundtrip(p: ServerboundChatMessageView, rest: Seq<u8>) {
        broadcast use group_wire_roundtrip;

        assert(p.raw + rest =~= p.raw);
    }
}

impl Encode for ServerboundChatMessage {
    fn encode(&self, dst: &mut BytesMut) -> (r: Result<(), ProtocolError>) {
        let ghost d0 = bytes_mut_data(*dst);
        put_slice(dst, self.raw.as_slice());
        let ghost mut e: Seq<u8> = self@.raw;
        Ok(())
    }
}

impl Decode for ServerboundChatMessage {
    fn decode(src: &mut Bytes) -> (r: Result<Self, ProtocolError>) {
        let raw = take_remaining(src);
        Ok(Self { raw })
    }
}

// ── ServerboundChatCommand ────────────────────────────────────────────

#[derive(Debug, Clone, PartialEq)]
pub struct ServerboundChatCommand {
    pub raw: Vec<u8>,
}

pub struct ServerboundChatCommandView {
    pub raw: Seq<u8>,
}

impl View for ServerboundChatCommand {
    type V = ServerboundChatCommandView;

    open spec fn view(&self) -> ServerboundChatCommandView {
        ServerboundChatCommandView {
            raw: self.raw@,
        }
    }
}

impl PacketId for ServerboundChatCommand {
    open spec fn spec_packet_id(ver: u32) -> u8 {
        0x05
    }

    fn packet_id(_ver: u32) -> (r: u8) {
        0x05
    }
}

impl WireFormat for ServerboundChatCommand {
    open spec fn spec_encode(p: ServerboundChatCommandView) -> Seq<u8> {
        p.raw
    }

    open spec fn spec_decode(s: Seq<u8>) -> Parsed<ServerboundChatCommandView> {
        then(take_rest(s), |raw: Seq<u8>, s: Seq<u8>| (Ok(ServerboundChatCommandView { raw }), s))
    }
}

impl Roundtrip for ServerboundChatCommand {
    open spec fn encodable(p: ServerboundChatCommandView) -> bool {
        true
    }

    open spec fn reads_to_end() -> bool {
        true
    }

    proof fn lemma_roundtrip(p: ServerboundChatCommandView, rest: Seq<u8>) {
        broadcast use group_wire_roundtrip;

        assert(p.raw + rest =~= p.raw);
    }
}

impl Encode for ServerboundChatCommand {
    fn encode(&self, dst: &mut BytesMut) -> (r: Result<(), ProtocolError>) {
        let ghost d0 = bytes_mut_data(*dst);
        put_slice(dst, self.raw.as_slice());
        let ghost mut e: Seq<u8> = self@.raw;
        Ok(())
    }
}

impl Decode for ServerboundChatCommand {
    fn decode(src: &mut Bytes) -> (r: Result<Self, ProtocolError>) {
        let raw = take_remaining(src);
        Ok(Self { raw })
    }
}

// ── ServerboundChatSessionUpdate ──────────────────────────────────────

#[derive(Debug, Clone, PartialEq)]
pub struct ServerboundChatSessionUpdate {
    pub raw: Vec<u8>,
}

pub struct ServerboundChatSessionUpdateView {
    pub raw: Seq<u8>,
}

impl View for ServerboundChatSessionUpdate {
    type V = ServerboundChatSessionUpdateView;

    open spec fn view(&self) -> ServerboundChatSessionUpdateView {
        ServerboundChatSessionUpdateView {
            raw: self.raw@,
        }
    }
}

impl PacketId for ServerboundChatSessionUpdate {
    open spec fn spec_packet_id(ver: u32) -> u8 {
        0x07
    }

    fn packet_id(_ver: u32) -> (r: u8) {
        0x07
    }
}

impl WireFormat for ServerboundChatSessionUpdate {
    open spec fn spec_encode(p: ServerboundChatSessionUpdateView) -> Seq<u8> {
        p.raw
    }

    open spec fn spec_decode(s: Seq<u8>) -> Parsed<ServerboundChatSessionUpdateView> {
        then(take_rest(s), |raw: Seq<u8>, s: Seq<u8>| (Ok(ServerboundChatSessionUpdateView { raw }), s))
    }
}

impl Roundtrip for ServerboundChatSessionUpdate {
    open spec fn encodable(p: ServerboundChatSessionUpdateView) -> bool {
        true
    }

    open spec fn reads_to_end() -> bool {
        true
    }

    proof fn lemma_roundtrip(p: ServerboundChatSessionUpdateView, rest: Seq<u8>) {
        broadcast use group_wire_roundtrip;

        assert(p.raw + rest =~= p.raw);
    }
}

impl Encode for ServerboundChatSessionUpdate {
    fn encode(&self, dst: &mut BytesMut) -> (r: Result<(), ProtocolError>) {
        let ghost d0 = bytes_mut_data(*dst);
        put_slice(dst, self.raw.as_slice());
        let ghost mut e: Seq<u8> = self@.raw;
        Ok(())
    }
}

impl Decode for ServerboundChatSessionUpdate {
    fn decode(src: &mut Bytes) -> (r: Result<Self, ProtocolError>) {
        let raw = take_remaining(src);
        Ok(Self { raw })
    }
}

// ── ServerboundClientStatus ───────────────────────────────────────────

#[derive(Debug, Clone, PartialEq)]
pub struct ServerboundClientStatus {
    pub raw: Vec<u8>,
}

pub struct ServerboundClientStatusView {
    pub raw: Seq<u8>,
}

impl View for ServerboundClientStatus {
    type V = ServerboundClientStatusView;

    open spec fn view(&self) -> ServerboundClientStatusView {
        ServerboundClientStatusView {
            raw: self.raw@,
        }
    }
}

impl PacketId for ServerboundClientStatus {
    open spec fn spec_packet_id(ver: u32) -> u8 {
        0x08
    }

    fn packet_id(_ver: u32) -> (r: u8) {
        0x08
    }
}

impl WireFormat for ServerboundClientStatus {
    open spec fn spec_encode(p: ServerboundClientStatusView) -> Seq<u8> {
        p.raw
    }

    open spec fn spec_decode(s: Seq<u8>) -> Parsed<ServerboundClientStatusView> {
        then(take_rest(s), |raw: Seq<u8>, s: Seq<u8>| (Ok(ServerboundClientStatusView { raw }), s))
    }
}

impl Roundtrip for ServerboundClientStatus {
    open spec fn encodable(p: ServerboundClientStatusView) -> bool {
        true
    }

    open spec fn reads_to_end() -> bool {
        true
    }

    proof fn lemma_roundtrip(p: ServerboundClientStatusView, rest: Seq<u8>) {
        broadcast use group_wire_roundtrip;

        assert(p.raw + rest =~= p.raw);
    }
}

impl Encode for ServerboundClientStatus {
    fn encode(&self, dst: &mut BytesMut) -> (r: Result<(), ProtocolError>) {
        let ghost d0 = bytes_mut_data(*dst);
        put_slice(dst, self.raw.as_slice());
        let ghost mut e: Seq<u8> = self@.raw;
        Ok(())
    }
}

impl Decode for ServerboundClientStatus {
    fn decode(src: &mut Bytes) -> (r: Result<Self, ProtocolError>) {
        let raw = take_remaining(src);
        Ok(Self { raw })
    }
}

// ── ServerboundClientInformation ──────────────────────────────────────

#[derive(Debug, Clone, PartialEq)]
pub struct ServerboundClientInformation {
    pub raw: Vec<u8>,
}

pub struct ServerboundClientInformationView {
    pub raw: Seq<u8>,
}

impl View for ServerboundClientInformation {
    type V = ServerboundClientInformationView;

    open spec fn view(&self) -> ServerboundClientInformationView {
        ServerboundClientInformationView {
            raw: self.raw@,
        }
    }
}

impl PacketId for ServerboundClientInformation {
    open spec fn spec_packet_id(ver: u32) -> u8 {
        0x09
    }

    fn packet_id(_ver: u32) -> (r: u8) {
        0x09
    }
}

impl WireFormat for ServerboundClientInformation {
    open spec fn spec_encode(p: ServerboundClientInformationView) -> Seq<u8> {
        p.raw
    }

    open spec fn spec_decode(s: Seq<u8>) -> Parsed<ServerboundClientInformationView> {
        then(take_rest(s), |raw: Seq<u8>, s: Seq<u8>| (Ok(ServerboundClientInformationView { raw }), s))
    }
}

impl Roundtrip for ServerboundClientInformation {
    open spec fn encodable(p: ServerboundClientInformationView) -> bool {
        true
    }

    open spec fn reads_to_end() -> bool {
        true
    }

    proof fn lemma_roundtrip(p: ServerboundClientInformationView, rest: Seq<u8>) {
        broadcast use group_wire_roundtrip;

        assert(p.raw + rest =~= p.raw);
    }
}

impl Encode for ServerboundClientInformation {
    fn encode(&self, dst: &mut BytesMut) -> (r: Result<(), ProtocolError>) {
        let ghost d0 = bytes_mut_data(*dst);
        put_slice(dst, self.raw.as_slice());
        let ghost mut e: Seq<u8> = self@.raw;
        Ok(())
    }
}

impl Decode for ServerboundClientInformation {
    fn decode(src: &mut Bytes) -> (r: Result<Self, ProtocolError>) {
        let raw = take_remaining(src);
        Ok(Self { raw })
    }
}

// ── ServerboundResourcePackStatus ─────────────────────────────────────

#[derive(Debug, Clone, PartialEq)]
pub struct ServerboundResourcePackStatus {
    pub raw: Vec<u8>,
}

pub struct ServerboundResourcePackStatusView {
    pub raw: Seq<u8>,
}

impl View for ServerboundResourcePackStatus {
    type V = ServerboundResourcePackStatusView;

    open spec fn view(&self) -> ServerboundResourcePackStatusView {
        ServerboundResourcePackStatusView {
            raw: self.raw@,
        }
    }
}

impl PacketId for ServerboundResourcePackStatus {
    open spec fn spec_packet_id(ver: u32) -> u8 {
        0x2A
    }

    fn packet_id(_ver: u32) -> (r: u8) {
        0x2A
    }
}

impl WireFormat for ServerboundResourcePackStatus {
    open spec fn spec_encode(p: ServerboundResourcePackStatusView) -> Seq<u8> {
        p.raw
    }

    open spec fn spec_decode(s: Seq<u8>) -> Parsed<ServerboundResourcePackStatusView> {
        then(take_rest(s), |raw: Seq<u8>, s: Seq<u8>| (Ok(ServerboundResourcePackStatusView { raw }), s))
    }
}

impl Roundtrip for ServerboundResourcePackStatus {
    open spec fn encodable(p: ServerboundResourcePackStatusView) -> bool {
        true
    }

    open spec fn reads_to_end() -> bool {
        true
    }

    proof fn lemma_roundtrip(p: ServerboundResourcePackStatusView, rest: Seq<u8>) {
        broadcast use group_wire_roundtrip;

        assert(p.raw + rest =~= p.raw);
    }
}

impl Encode for ServerboundResourcePackStatus {
    fn encode(&self, dst: &mut BytesMut) -> (r: Result<(), ProtocolError>) {
        let ghost d0 = bytes_mut_data(*dst);
        put_slice(dst, self.raw.as_slice());
        let ghost mut e: Seq<u8> = self@.raw;
        Ok(())
    }
}

impl Decode for ServerboundResourcePackStatus {
    fn decode(src: &mut Bytes) -> (r: Result<Self, ProtocolError>) {
        let raw = take_remaining(src);
        Ok(Self { raw })
    }
}

// ── ServerboundPong ───────────────────────────────────────────────────

#[derive(Debug, Clone, PartialEq)]
pub struct ServerboundPong {
    pub raw: Vec<u8>,
}

pub struct ServerboundPongView {
    pub raw: Seq<u8>,
}

impl View for ServerboundPong {
    type V = ServerboundPongView;

    open spec fn view(&self) -> ServerboundPongView {
        ServerboundPongView {
            raw: self.raw@,
        }
    }
}

impl PacketId for ServerboundPong {
    open spec fn spec_packet_id(ver: u32) -> u8 {
        0x24
    }

    fn packet_id(_ver: u32) -> (r: u8) {
        0x24
    }
}

impl WireFormat for ServerboundPong {
    open spec fn spec_encode(p: ServerboundPongView) -> Seq<u8> {
        p.raw
    }

    open spec fn spec_decode(s: Seq<u8>) -> Parsed<ServerboundPongView> {
        then(take_rest(s), |raw: Seq<u8>, s: Seq<u8>| (Ok(ServerboundPongView { raw }), s))
    }
}

impl Roundtrip for ServerboundPong {
    open spec fn encodable(p: ServerboundPongView) -> bool {
        true
    }

    open spec fn reads_to_end() -> bool {
        true
    }

    proof fn lemma_roundtrip(p: ServerboundPongView, rest: Seq<u8>) {
        broadcast use group_wire_roundtrip;

        assert(p.raw + rest =~= p.raw);
    }
}

impl Encode for ServerboundPong {
    fn encode(&self, dst: &mut BytesMut) -> (r: Result<(), ProtocolError>) {
        let ghost d0 = bytes_mut_data(*dst);
        put_slice(dst, self.raw.as_slice());
        let ghost mut e: Seq<u8> = self@.raw;
        Ok(())
    }
}

impl Decode for ServerboundPong {
    fn decode(src: &mut Bytes) -> (r: Result<Self, ProtocolError>) {
        let raw = take_remaining(src);
        Ok(Self { raw })
    }
}

// ── ServerboundConfigurationAcknowledged ──────────────────────────────

#[derive(Debug, Clone, PartialEq)]
pub struct ServerboundConfigurationAcknowledged {
    pub raw: Vec<u8>,
}

pub struct ServerboundConfigurationAcknowledgedView {
    pub raw: Seq<u8>,
}

impl View for ServerboundConfigurationAcknowledged {
    type V = ServerboundConfigurationAcknowledgedView;

    open spec fn view(&self) -> ServerboundConfigurationAcknowledgedView {
        ServerboundConfigurationAcknowledgedView {
            raw: self.raw@,
        }
    }
}

impl PacketId for ServerboundConfigurationAcknowledged {
    open spec fn spec_packet_id(ver: u32) -> u8 {
        0x0B
    }

    fn packet_id(_ver: u32) -> (r: u8) {
        0x0B
    }
}

impl WireFormat for ServerboundConfigurationAcknowledged {
    open spec fn spec_encode(p: ServerboundConfigurationAcknowledgedView) -> Seq<u8> {
        p.raw
    }

    open spec fn spec_decode(s: Seq<u8>) -> Parsed<ServerboundConfigurationAcknowledgedView> {
        then(take_rest(s), |raw: Seq<u8>, s: Seq<u8>| (Ok(ServerboundConfigurationAcknowledgedView { raw }), s))
    }
}

impl Roundtrip for ServerboundConfigurationAcknowledged {
    open spec fn encodable(p: ServerboundConfigurationAcknowledgedView) -> bool {
        true
    }

    open spec fn reads_to_end() -> bool {
        true
    }

    proof fn lemma_roundtrip(p: ServerboundConfigurationAcknowledgedView, rest: Seq<u8>) {
        broadcast use group_wire_roundtrip;

        assert(p.raw + rest =~= p.raw);
    }
}

impl Encode for ServerboundConfigurationAcknowledged {
    fn encode(&self, dst: &mut BytesMut) -> (r: Result<(), ProtocolError>) {
        let ghost d0 = bytes_mut_data(*dst);
        put_slice(dst, self.raw.as_slice());
        let ghost mut e: Seq<u8> = self@.raw;
        Ok(())
    }
}

impl Decode for ServerboundConfigurationAcknowledged {
    fn decode(src: &mut Bytes) -> (r: Result<Self, ProtocolError>) {
        let raw = take_remaining(src);
        Ok(Self { raw })
    }
}

// ── ServerboundButtonPressed ──────────────────────────────────────────

#[derive(Debug, Clone, PartialEq)]
pub struct ServerboundButtonPressed {
    pub raw: Vec<u8>,
}

pub struct ServerboundButtonPressedView {
    pub raw: Seq<u8>,
}

impl View for ServerboundButtonPressed {
    type V = ServerboundButtonPressedView;

    open spec fn view(&self) -> ServerboundButtonPressedView {
        ServerboundButtonPressedView {
            raw: self.raw@,
        }
    }
}

impl PacketId for ServerboundButtonPressed {
    open spec fn spec_packet_id(ver: u32) -> u8 {
        0x0C
    }

    fn packet_id(_ver: u32) -> (r: u8) {
        0x0C
    }
}

impl WireFormat for ServerboundButtonPressed {
    open spec fn spec_encode(p: ServerboundButtonPressedView) -> Seq<u8> {
        p.raw
    }

    open spec fn spec_decode(s: Seq<u8>) -> Parsed<ServerboundButtonPressedView> {
        then(take_rest(s), |raw: Seq<u8>, s: Seq<u8>| (Ok(ServerboundButtonPressedView { raw }), s))
    }
}

impl Roundtrip for ServerboundButtonPressed {
    open spec fn encodable(p: ServerboundButtonPressedView) -> bool {
        true
    }

    open spec fn reads_to_end() -> bool {
        true
    }

    proof fn lemma_roundtrip(p: ServerboundButtonPressedView, rest: Seq<u8>) {
        broadcast use group_wire_roundtrip;

        assert(p.raw + rest =~= p.raw);
    }
}

impl Encode for ServerboundButtonPressed {
    fn encode(&self, dst: &mut BytesMut) -> (r: Result<(), ProtocolError>) {
        let ghost d0 = bytes_mut_data(*dst);
        put_slice(dst, self.raw.as_slice());
        let ghost mut e: Seq<u8> = self@.raw;
        Ok(())
    }
}

impl Decode for ServerboundButtonPressed {
    fn decode(src: &mut Bytes) -> (r: Result<Self, ProtocolError>) {
        let raw = take_remaining(src);
        Ok(Self { raw })
    }
}

// ── ServerboundCommandSuggestion ──────────────────────────────────────

#[derive(Debug, Clone, PartialEq)]
pub struct ServerboundCommandSuggestion {
    pub raw: Vec<u8>,
}

pub struct ServerboundCommandSuggestionView {
    pub raw: Seq<u8>,
}

impl View for ServerboundCommandSuggestion {
    type V = ServerboundCommandSuggestionView;

    open spec fn view(&self) -> ServerboundCommandSuggestionView {
        ServerboundCommandSuggestionView {
            raw: self.raw@,
        }
    }
}

impl PacketId for ServerboundCommandSuggestion {
    open spec fn spec_packet_id(ver: u32) -> u8 {
        0x0A
    }

    fn packet_id(_ver: u32) -> (r: u8) {
        0x0A
    }
}

impl WireFormat for ServerboundCommandSuggestion {
    open spec fn spec_encode(p: ServerboundCommandSuggestionView) -> Seq<u8> {
        p.raw
    }

    open spec fn spec_decode(s: Seq<u8>) -> Parsed<ServerboundCommandSuggestionView> {
        then(take_rest(s), |raw: Seq<u8>, s: Seq<u8>| (Ok(ServerboundCommandSuggestionView { raw }), s))
    }
}

impl Roundtrip for ServerboundCommandSuggestion {
    open spec fn encodable(p: ServerboundCommandSuggestionView) -> bool {
        true
    }

    open spec fn reads_to_end() -> bool {
        true
    }

    proof fn lemma_roundtrip(p: ServerboundCommandSuggestionView, rest: Seq<u8>) {
        broadcast use group_wire_roundtrip;

        assert(p.raw + rest =~= p.raw);
    }
}

impl Encode for ServerboundCommandSuggestion {
    fn encode(&self, dst: &mut BytesMut) -> (r: Result<(), ProtocolError>) {
        let ghost d0 = bytes_mut_data(*dst);
        put_slice(dst, self.raw.as_slice());
        let ghost mut e: Seq<u8> = self@.raw;
        Ok(())
    }
}

impl Decode for ServerboundCommandSuggestion {
    fn decode(src: &mut Bytes) -> (r: Result<Self, ProtocolError>) {
        let raw = take_remaining(src);
        Ok(Self { raw })
    }
}

// ── ServerboundDifficultyChange ───────────────────────────────────────

#[derive(Debug, Clone, PartialEq)]
pub struct ServerboundDifficultyChange {
    pub raw: Vec<u8>,
}

pub struct ServerboundDifficultyChangeView {
    pub raw: Seq<u8>,
}

impl View for ServerboundDifficultyChange {
    type V = ServerboundDifficultyChangeView;

    open spec fn view(&self) -> ServerboundDifficultyChangeView {
        ServerboundDifficultyChangeView {
            raw: self.raw@,
        }
    }
}

impl PacketId for ServerboundDifficultyChange {
    open spec fn spec_packet_id(ver: u32) -> u8 {
        0x02
    }

    fn packet_id(_ver: u32) -> (r: u8) {
        0x02
    }
}

impl WireFormat for ServerboundDifficultyChange {
    open spec fn spec_encode(p: ServerboundDifficultyChangeView) -> Seq<u8> {
        p.raw
    }

    open spec fn spec_decode(s: Seq<u8>) -> Parsed<ServerboundDifficultyChangeView> {
        then(take_rest(s), |raw: Seq<u8>, s: Seq<u8>| (Ok(ServerboundDifficultyChangeView { raw }), s))
    }
}

impl Roundtrip for ServerboundDifficultyChange {
    open spec fn encodable(p: ServerboundDifficultyChangeView) -> bool {
        true
    }

    open spec fn reads_to_end() -> bool {
        true
    }

    proof fn lemma_roundtrip(p: ServerboundDifficultyChangeView, rest: Seq<u8>) {
        broadcast use group_wire_roundtrip;

        assert(p.raw + rest =~= p.raw);
    }
}

impl Encode for ServerboundDifficultyChange {
    fn encode(&self, dst: &mut BytesMut) -> (r: Result<(), ProtocolError>) {
        let ghost d0 = bytes_mut_data(*dst);
        put_slice(dst, self.raw.as_slice());
        let ghost mut e: Seq<u8> = self@.raw;
        Ok(())
    }
}

impl Decode for ServerboundDifficultyChange {
    fn decode(src: &mut Bytes) -> (r: Result<Self, ProtocolError>) {
        let raw = take_remaining(src);
        Ok(Self { raw })
    }
}

// ── ServerboundDifficultyLock ─────────────────────────────────────────

#[derive(Debug, Clone, PartialEq)]
pub struct ServerboundDifficultyLock {
    pub raw: Vec<u8>,
}

pub struct ServerboundDifficultyLockView {
    pub raw: Seq<u8>,
}

impl View for ServerboundDifficultyLock {
    type V = ServerboundDifficultyLockView;

    open spec fn view(&self) -> ServerboundDifficultyLockView {
        ServerboundDifficultyLockView {
            raw: self.raw@,
        }
    }
}

impl PacketId for ServerboundDifficultyLock {
    open spec fn spec_packet_id(ver: u32) -> u8 {
        0x12
    }

    fn packet_id(_ver: u32) -> (r: u8) {
        0x12
    }
}

impl WireFormat for ServerboundDifficultyLock {
    open spec fn spec_encode(p: ServerboundDifficultyLockView) -> Seq<u8> {
        p.raw
    }

    open spec fn spec_decode(s: Seq<u8>) -> Parsed<ServerboundDifficultyLockView> {
        then(take_rest(s), |raw: Seq<u8>, s: Seq<u8>| (Ok(ServerboundDifficultyLockView { raw }), s))
    }
}

impl Roundtrip for ServerboundDifficultyLock {
    open spec fn encodable(p: ServerboundDifficultyLockView) -> bool {
        true
    }

    open spec fn reads_to_end() -> bool {
        true
    }

    proof fn lemma_roundtrip(p: ServerboundDifficultyLockView, rest: Seq<u8>) {
        broadcast use group_wire_roundtrip;

        assert(p.raw + rest =~= p.raw);
    }
}

impl Encode for ServerboundDifficultyLock {
    fn encode(&self, dst: &mut BytesMut) -> (r: Result<(), ProtocolError>) {
        let ghost d0 = bytes_mut_data(*dst);
        put_slice(dst, self.raw.as_slice());
        let ghost mut e: Seq<u8> = self@.raw;
        Ok(())
    }
}

impl Decode for ServerboundDifficultyLock {
    fn decode(src: &mut Bytes) -> (r: Result<Self, ProtocolError>) {
        let raw = take_remaining(src);
        Ok(Self { raw })
    }
}

// ── ServerboundEditBook ───────────────────────────────────────────────

#[derive(Debug, Clone, PartialEq)]
pub struct ServerboundEditBook {
    pub raw: Vec<u8>,
}

pub struct ServerboundEditBookView {
    pub raw: Seq<u8>,
}

impl View for ServerboundEditBook {
    type V = ServerboundEditBookView;

    open spec fn view(&self) -> ServerboundEditBookView {
        ServerboundEditBookView {
            raw: self.raw@,
        }
    }
}

impl PacketId for ServerboundEditBook {
    open spec fn spec_packet_id(ver: u32) -> u8 {
        0x10
    }

    fn packet_id(_ver: u32) -> (r: u8) {
        0x10
    }
}

impl WireFormat for ServerboundEditBook {
    open spec fn spec_encode(p: ServerboundEditBookView) -> Seq<u8> {
        p.raw
    }

    open spec fn spec_decode(s: Seq<u8>) -> Parsed<ServerboundEditBookView> {
        then(take_rest(s), |raw: Seq<u8>, s: Seq<u8>| (Ok(ServerboundEditBookView { raw }), s))
    }
}

impl Roundtrip for ServerboundEditBook {
    open spec fn encodable(p: ServerboundEditBookView) -> bool {
        true
    }

    open spec fn reads_to_end() -> bool {
        true
    }

    proof fn lemma_roundtrip(p: ServerboundEditBookView, rest: Seq<u8>) {
        broadcast use group_wire_roundtrip;

        assert(p.raw + rest =~= p.raw);
    }
}

impl Encode for ServerboundEditBook {
    fn encode(&self, dst: &mut BytesMut) -> (r: Result<(), ProtocolError>) {
        let ghost d0 = bytes_mut_data(*dst);
        put_slice(dst, self.raw.as_slice());
        let ghost mut e: Seq<u8> = self@.raw;
        Ok(())
    }
}

impl Decode for ServerboundEditBook {
    fn decode(src: &mut Bytes) -> (r: Result<Self, ProtocolError>) {
        let raw = take_remaining(src);
        Ok(Self { raw })
    }
}

// ── ServerboundEntityTagQuery ─────────────────────────────────────────

#[derive(Debug, Clone, PartialEq)]
pub struct ServerboundEntityTagQuery {
    pub raw: Vec<u8>,
}

pub struct ServerboundEntityTagQueryView {
    pub raw: Seq<u8>,
}

impl View for ServerboundEntityTagQuery {
    type V = ServerboundEntityTagQueryView;

    open spec fn view(&self) -> ServerboundEntityTagQueryView {
        ServerboundEntityTagQueryView {
            raw: self.raw@,
        }
    }
}

impl PacketId for ServerboundEntityTagQuery {
    open spec fn spec_packet_id(ver: u32) -> u8 {
        0x11
    }

    fn packet_id(_ver: u32) -> (r: u8) {
        0x11
    }
}

impl WireFormat for ServerboundEntityTagQuery {
    open spec fn spec_encode(p: ServerboundEntityTagQueryView) -> Seq<u8> {
        p.raw
    }

    open spec fn spec_decode(s: Seq<u8>) -> Parsed<ServerboundEntityTagQueryView> {
        then(take_rest(s), |raw: Seq<u8>, s: Seq<u8>| (Ok(ServerboundEntityTagQueryView { raw }), s))
    }
}

impl Roundtrip for ServerboundEntityTagQuery {
    open spec fn encodable(p: ServerboundEntityTagQueryView) -> bool {
        true
    }

    open spec fn reads_to_end() -> bool {
        true
    }

    proof fn lemma_roundtrip(p: ServerboundEntityTagQueryView, rest: Seq<u8>) {
        broadcast use group_wire_roundtrip;

        assert(p.raw + rest =~= p.raw);
    }
}

impl Encode for ServerboundEntityTagQuery {
    fn encode(&self, dst: &mut BytesMut) -> (r: Result<(), ProtocolError>) {
        let ghost d0 = bytes_mut_data(*dst);
        put_slice(dst, self.raw.as_slice());
        let ghost mut e: Seq<u8> = self@.raw;
        Ok(())
    }
}

impl Decode for ServerboundEntityTagQuery {
    fn decode(src: &mut Bytes) -> (r: Result<Self, ProtocolError>) {
        let raw = take_remaining(src);
        Ok(Self { raw })
    }
}

// ── ServerboundJigsawGenerate ─────────────────────────────────────────

#[derive(Debug, Clone, PartialEq)]
pub struct ServerboundJigsawGenerate {
    pub raw: Vec<u8>,
}

pub struct ServerboundJigsawGenerateView {
    pub raw: Seq<u8>,
}

impl View for ServerboundJigsawGenerate {
    type V = ServerboundJigsawGenerateView;

    open spec fn view(&self) -> ServerboundJigsawGenerateView {
        ServerboundJigsawGenerateView {
            raw: self.raw@,
        }
    }
}

impl PacketId for ServerboundJigsawGenerate {
    open spec fn spec_packet_id(ver: u32) -> u8 {
        0x13
    }

    fn packet_id(_ver: u32) -> (r: u8) {
        0x13
    }
}

impl WireFormat for ServerboundJigsawGenerate {
    open spec fn spec_encode(p: ServerboundJigsawGenerateView) -> Seq<u8> {
        p.raw
    }

    open spec fn spec_decode(s: Seq<u8>) -> Parsed<ServerboundJigsawGenerateView> {
        then(take_rest(s), |raw: Seq<u8>, s: Seq<u8>| (Ok(ServerboundJigsawGenerateView { raw }), s))
    }
}

impl Roundtrip for ServerboundJigsawGenerate {
    open spec fn encodable(p: ServerboundJigsawGenerateView) -> bool {
        true
    }

    open spec fn reads_to_end() -> bool {
        true
    }

    proof fn lemma_roundtrip(p: ServerboundJigsawGenerateView, rest: Seq<u8>) {
        broadcast use group_wire_roundtrip;

        assert(p.raw + rest =~= p.raw);
    }
}

impl Encode for ServerboundJigsawGenerate {
    fn encode(&self, dst: &mut BytesMut) -> (r: Result<(), ProtocolError>) {
        let ghost d0 = bytes_mut_data(*dst);
        put_slice(dst, self.raw.as_slice());
        let ghost mut e: Seq<u8> = self@.raw;
        Ok(())
    }
}

impl Decode for ServerboundJigsawGenerate {
    fn decode(src: &mut Bytes) -> (r: Result<Self, ProtocolError>) {
        let raw = take_remaining(src);
        Ok(Self { raw })
    }
}

// ── ServerboundPickItem ───────────────────────────────────────────────

#[derive(Debug, Clone, PartialEq)]
pub struct ServerboundPickItem {
    pub raw: Vec<u8>,
}

pub struct ServerboundPickItemView {
    pub raw: Seq<u8>,
}

impl View for ServerboundPickItem {
    type V = ServerboundPickItemView;

    open spec fn view(&self) -> ServerboundPickItemView {
        ServerboundPickItemView {
            raw: self.raw@,
        }
    }
}

impl PacketId for ServerboundPickItem {
    open spec fn spec_packet_id(ver: u32) -> u8 {
        0x1C
    }

    fn packet_id(_ver: u32) -> (r: u8) {
        0x1C
    }
}

impl WireFormat for ServerboundPickItem {
    open spec fn spec_encode(p: ServerboundPickItemView) -> Seq<u8> {
        p.raw
    }

    open spec fn spec_decode(s: Seq<u8>) -> Parsed<ServerboundPickItemView> {
        then(take_rest(s), |raw: Seq<u8>, s: Seq<u8>| (Ok(ServerboundPickItemView { raw }), s))
    }
}

impl Roundtrip for ServerboundPickItem {
    open spec fn encodable(p: ServerboundPickItemView) -> bool {
        true
    }

    open spec fn reads_to_end() -> bool {
        true
    }

    proof fn lemma_roundtrip(p: ServerboundPickItemView, rest: Seq<u8>) {
        broadcast use group_wire_roundtrip;

        assert(p.raw + rest =~= p.raw);
    }
}

impl Encode for ServerboundPickItem {
    fn encode(&self, dst: &mut BytesMut) -> (r: Result<(), ProtocolError>) {
        let ghost d0 = bytes_mut_data(*dst);
        put_slice(dst, self.raw.as_slice());
        let ghost mut e: Seq<u8> = self@.raw;
        Ok(())
    }
}

impl Decode for ServerboundPickItem {
    fn decode(src: &mut Bytes) -> (r: Result<Self, ProtocolError>) {
        let raw = take_remaining(src);
        Ok(Self { raw })
    }
}

// ── ServerboundPlaceRecipe ────────────────────────────────────────────

#[derive(Debug, Clone, PartialEq)]
pub struct ServerboundPlaceRecipe {
    pub raw: Vec<u8>,
}

pub struct ServerboundPlaceRecipeView {
    pub raw: Seq<u8>,
}

impl View for ServerboundPlaceRecipe {
    type V = ServerboundPlaceRecipeView;

    open spec fn view(&self) -> ServerboundPlaceRecipeView {
        ServerboundPlaceRecipeView {
            raw: self.raw@,
        }
    }
}

impl PacketId for ServerboundPlaceRecipe {
    open spec fn spec_packet_id(ver: u32) -> u8 {
        0x1D
    }

    fn packet_id(_ver: u32) -> (r: u8) {
        0x1D
    }
}

impl WireFormat for ServerboundPlaceRecipe {
    open spec fn spec_encode(p: ServerboundPlaceRecipeView) -> Seq<u8> {
        p.raw
    }

    open spec fn spec_decode(s: Seq<u8>) -> Parsed<ServerboundPlaceRecipeView> {
        then(take_rest(s), |raw: Seq<u8>, s: Seq<u8>| (Ok(ServerboundPlaceRecipeView { raw }), s))
    }
}

impl Roundtrip for ServerboundPlaceRecipe {
    open spec fn encodable(p: ServerboundPlaceRecipeView) -> bool {
        true
    }

    open spec fn reads_to_end() -> bool {
        true
    }

    proof fn lemma_roundtrip(p: ServerboundPlaceRecipeView, rest: Seq<u8>) {
        broadcast use group_wire_roundtrip;

        assert(p.raw + rest =~= p.raw);
    }
}

impl Encode for ServerboundPlaceRecipe {
    fn encode(&self, dst: &mut BytesMut) -> (r: Result<(), ProtocolError>) {
        let ghost d0 = bytes_mut_data(*dst);
        put_slice(dst, self.raw.as_slice());
        let ghost mut e: Seq<u8> = self@.raw;
        Ok(())
    }
}

impl Decode for ServerboundPlaceRecipe {
    fn decode(src: &mut Bytes) -> (r: Result<Self, ProtocolError>) {
        let raw = take_remaining(src);
        Ok(Self { raw })
    }
}

// ── ServerboundRecipeBookChangeSettings ───────────────────────────────

#[derive(Debug, Clone, PartialEq)]
pub struct ServerboundRecipeBookChangeSettings {
    pub raw: Vec<u8>,
}

pub struct ServerboundRecipeBookChangeSettingsView {
    pub raw: Seq<u8>,
}

impl View for ServerboundRecipeBookChangeSettings {
    type V = ServerboundRecipeBookChangeSettingsView;

    open spec fn view(&self) -> ServerboundRecipeBookChangeSettingsView {
        ServerboundRecipeBookChangeSettingsView {
            raw: self.raw@,
        }
    }
}

impl PacketId for ServerboundRecipeBookChangeSettings {
    open spec fn spec_packet_id(ver: u32) -> u8 {
        0x26
    }

    fn packet_id(_ver: u32) -> (r: u8) {
        0x26
    }
}

impl WireFormat for ServerboundRecipeBookChangeSettings {
    open spec fn spec_encode(p: ServerboundRecipeBookChangeSettingsView) -> Seq<u8> {
        p.raw
    }

    open spec fn spec_decode(s: Seq<u8>) -> Parsed<ServerboundRecipeBookChangeSettingsView> {
        then(take_rest(s), |raw: Seq<u8>, s: Seq<u8>| (Ok(ServerboundRecipeBookChangeSettingsView { raw }), s))
    }
}

impl Roundtrip for ServerboundRecipeBookChangeSettings {
    open spec fn encodable(p: ServerboundRecipeBookChangeSettingsView) -> bool {
        true
    }

    open spec fn reads_to_end() -> bool {
        true
    }

    proof fn lemma_roundtrip(p: ServerboundRecipeBookChangeSettingsView, rest: Seq<u8>) {
        broadcast use group_wire_roundtrip;

        assert(p.raw + rest =~= p.raw);
    }
}

impl Encode for ServerboundRecipeBookChangeSettings {
    fn encode(&self, dst: &mut BytesMut) -> (r: Result<(), ProtocolError>) {
        let ghost d0 = bytes_mut_data(*dst);
        put_slice(dst, self.raw.as_slice());
        let ghost mut e: Seq<u8> = self@.raw;
        Ok(())
    }
}

impl Decode for ServerboundRecipeBookChangeSettings {
    fn decode(src: &mut Bytes) -> (r: Result<Self, ProtocolError>) {
        let raw = take_remaining(src);
        Ok(Self { raw })
    }
}

// ── ServerboundRecipeBookSeenRecipe ───────────────────────────────────

#[derive(Debug, Clone, PartialEq)]
pub struct ServerboundRecipeBookSeenRecipe {
    pub raw: Vec<u8>,
}

pub struct ServerboundRecipeBookSeenRecipeView {
    pub raw: Seq<u8>,
}

impl View for ServerboundRecipeBookSeenRecipe {
    type V = ServerboundRecipeBookSeenRecipeView;

    open spec fn view(&self) -> ServerboundRecipeBookSeenRecipeView {
        ServerboundRecipeBookSeenRecipeView {
            raw: self.raw@,
        }
    }
}

impl PacketId for ServerboundRecipeBookSeenRecipe {
    open spec fn spec_packet_id(ver: u32) -> u8 {
        0x27
    }

    fn packet_id(_ver: u32) -> (r: u8) {
        0x27
    }
}

impl WireFormat for ServerboundRecipeBookSeenRecipe {
    open spec fn spec_encode(p: ServerboundRecipeBookSeenRecipeView) -> Seq<u8> {
        p.raw
    }

    open spec fn spec_decode(s: Seq<u8>) -> Parsed<ServerboundRecipeBookSeenRecipeView> {
        then(take_rest(s), |raw: Seq<u8>, s: Seq<u8>| (Ok(ServerboundRecipeBookSeenRecipeView { raw }), s))
    }
}

impl Roundtrip for ServerboundRecipeBookSeenRecipe {
    open spec fn encodable(p: ServerboundRecipeBookSeenRecipeView) -> bool {
        true
    }

    open spec fn reads_to_end() -> bool {
        true
    }

    proof fn lemma_roundtrip(p: ServerboundRecipeBookSeenRecipeView, rest: Seq<u8>) {
        broadcast use group_wire_roundtrip;

        assert(p.raw + rest =~= p.raw);
    }
}

impl Encode for ServerboundRecipeBookSeenRecipe {
    fn encode(&self, dst: &mut BytesMut) -> (r: Result<(), ProtocolError>) {
        let ghost d0 = bytes_mut_data(*dst);
        put_slice(dst, self.raw.as_slice());
        let ghost mut e: Seq<u8> = self@.raw;
        Ok(())
    }
}

impl Decode for ServerboundRecipeBookSeenRecipe {
    fn decode(src: &mut Bytes) -> (r: Result<Self, ProtocolError>) {
        let raw = take_remaining(src);
        Ok(Self { raw })
    }
}

// ── ServerboundRenameItem ─────────────────────────────────────────────

#[derive(Debug, Clone, PartialEq)]
pub struct ServerboundRenameItem {
    pub raw: Vec<u8>,
}

pub struct ServerboundRenameItemView {
    pub raw: Seq<u8>,
}

impl View for ServerboundRenameItem {
    type V = ServerboundRenameItemView;

    open spec fn view(&self) -> ServerboundRenameItemView {
        ServerboundRenameItemView {
            raw: self.raw@,
        }
    }
}

impl PacketId for ServerboundRenameItem {
    open spec fn spec_packet_id(ver: u32) -> u8 {
        0x29
    }

    fn packet_id(_ver: u32) -> (r: u8) {
        0x29
    }
}

impl WireFormat for ServerboundRenameItem {
    open spec fn spec_encode(p: ServerboundRenameItemView) -> Seq<u8> {
        p.raw
    }

    open spec fn spec_decode(s: Seq<u8>) -> Parsed<ServerboundRenameItemView> {
        then(take_rest(s), |raw: Seq<u8>, s: Seq<u8>| (Ok(ServerboundRenameItemView { raw }), s))
    }
}

impl Roundtrip for ServerboundRenameItem {
    open spec fn encodable(p: ServerboundRenameItemView) -> bool {
        true
    }

    open spec fn reads_to_end() -> bool {
        true
    }

    proof fn lemma_roundtrip(p: ServerboundRenameItemView, rest: Seq<u8>) {
        broadcast use group_wire_roundtrip;

        assert(p.raw + rest =~= p.raw);
    }
}

impl Encode for ServerboundRenameItem {
    fn encode(&self, dst: &mut BytesMut) -> (r: Result<(), ProtocolError>) {
        let ghost d0 = bytes_mut_data(*dst);
        put_slice(dst, self.raw.as_slice());
        let ghost mut e: Seq<u8> = self@.raw;
        Ok(())
    }
}

impl Decode for ServerboundRenameItem {
    fn decode(src: &mut Bytes) -> (r: Result<Self, ProtocolError>) {
        let raw = take_remaining(src);
        Ok(Self { raw })
    }
}

// ── ServerboundSelectTrade ────────────────────────────────────────────

#[derive(Debug, Clone, PartialEq)]
pub struct ServerboundSelectTrade {
    pub raw: Vec<u8>,
}

pub struct ServerboundSelectTradeView {
    pub raw: Seq<u8>,
}

impl View for ServerboundSelectTrade {
    type V = ServerboundSelectTradeView;

    open spec fn view(&self) -> ServerboundSelectTradeView {
        ServerboundSelectTradeView {
            raw: self.raw@,
        }
    }
}

impl PacketId for ServerboundSelectTrade {
    open spec fn spec_packet_id(ver: u32) -> u8 {
        0x2D
    }

    fn packet_id(_ver: u32) -> (r: u8) {
        0x2D
    }
}

impl WireFormat for ServerboundSelectTrade {
    open spec fn spec_encode(p: ServerboundSelectTradeView) -> Seq<u8> {
        p.raw
    }

    open spec fn spec_decode(s: Seq<u8>) -> Parsed<ServerboundSelectTradeView> {
        then(take_rest(s), |raw: Seq<u8>, s: Seq<u8>| (Ok(ServerboundSelectTradeView { raw }), s))
    }
}

impl Roundtrip for ServerboundSelectTrade {
    open spec fn encodable(p: ServerboundSelectTradeView) -> bool {
        true
    }

    open spec fn reads_to_end() -> bool {
        true
    }

    proof fn lemma_roundtrip(p: ServerboundSelectTradeView, rest: Seq<u8>) {
        broadcast use group_wire_roundtrip;

        assert(p.raw + rest =~= p.raw);
    }
}

impl Encode for ServerboundSelectTrade {
    fn encode(&self, dst: &mut BytesMut) -> (r: Result<(), ProtocolError>) {
        let ghost d0 = bytes_mut_data(*dst);
        put_slice(dst, self.raw.as_slice());
        let ghost mut e: Seq<u8> = self@.raw;
        Ok(())
    }
}

impl Decode for ServerboundSelectTrade {
    fn decode(src: &mut Bytes) -> (r: Result<Self, ProtocolError>) {
        let raw = take_remaining(src);
        Ok(Self { raw })
    }
}

// ── ServerboundSetMerchantTrade ───────────────────────────────────────

#[derive(Debug, Clone, PartialEq)]
pub struct ServerboundSetMerchantTrade {
    pub raw: Vec<u8>,
}

pub struct ServerboundSetMerchantTradeView {
    pub raw: Seq<u8>,
}

impl View for ServerboundSetMerchantTrade {
    type V = ServerboundSetMerchantTradeView;

    open spec fn view(&self) -> ServerboundSetMerchantTradeView {
        ServerboundSetMerchantTradeView {
            raw: self.raw@,
        }
    }
}

impl PacketId for ServerboundSetMerchantTrade {
    open spec fn spec_packet_id(ver: u32) -> u8 {
        0x2D
    }

    fn packet_id(_ver: u32) -> (r: u8) {
        0x2D
    }
}

impl WireFormat for ServerboundSetMerchantTrade {
    open spec fn spec_encode(p: ServerboundSetMerchantTradeView) -> Seq<u8> {
        p.raw
    }

    open spec fn spec_decode(s: Seq<u8>) -> Parsed<ServerboundSetMerchantTradeView> {
        then(take_rest(s), |raw: Seq<u8>, s: Seq<u8>| (Ok(ServerboundSetMerchantTradeView { raw }), s))
    }
}

impl Roundtrip for ServerboundSetMerchantTrade {
    open spec fn encodable(p: ServerboundSetMerchantTradeView) -> bool {
        true
    }

    open spec fn reads_to_end() -> bool {
        true
    }

    proof fn lemma_roundtrip(p: ServerboundSetMerchantTradeView, rest: Seq<u8>) {
        broadcast use group_wire_roundtrip;

        assert(p.raw + rest =~= p.raw);
    }
}

impl Encode for ServerboundSetMerchantTrade {
    fn encode(&self, dst: &mut BytesMut) -> (r: Result<(), ProtocolError>) {
        let ghost d0 = bytes_mut_data(*dst);
        put_slice(dst, self.raw.as_slice());
        let ghost mut e: Seq<u8> = self@.raw;
        Ok(())
    }
}

impl Decode for ServerboundSetMerchantTrade {
    fn decode(src: &mut Bytes) -> (r: Result<Self, ProtocolError>) {
        let raw = take_remaining(src);
        Ok(Self { raw })
    }
}

// ── ServerboundSetBeaconEffect ────────────────────────────────────────

#[derive(Debug, Clone, PartialEq)]
pub struct ServerboundSetBeaconEffect {
    pub raw: Vec<u8>,
}

pub struct ServerboundSetBeaconEffectView {
    pub raw: Seq<u8>,
}

impl View for ServerboundSetBeaconEffect {
    type V = ServerboundSetBeaconEffectView;

    open spec fn view(&self) -> ServerboundSetBeaconEffectView {
        ServerboundSetBeaconEffectView {
            raw: self.raw@,
        }
    }
}

impl PacketId for ServerboundSetBeaconEffect {
    open spec fn spec_packet_id(ver: u32) -> u8 {
        0x2F
    }

    fn packet_id(_ver: u32) -> (r: u8) {
        0x2F
    }
}

impl WireFormat for ServerboundSetBeaconEffect {
    open spec fn spec_encode(p: ServerboundSetBeaconEffectView) -> Seq<u8> {
        p.raw
    }

    open spec fn spec_decode(s: Seq<u8>) -> Parsed<ServerboundSetBeaconEffectView> {
        then(take_rest(s), |raw: Seq<u8>, s: Seq<u8>| (Ok(ServerboundSetBeaconEffectView { raw }), s))
    }
}

impl Roundtrip for ServerboundSetBeaconEffect {
    open spec fn encodable(p: ServerboundSetBeaconEffectView) -> bool {
        true
    }

    open spec fn reads_to_end() -> bool {
        true
    }

    proof fn lemma_roundtrip(p: ServerboundSetBeaconEffectView, rest: Seq<u8>) {
        broadcast use group_wire_roundtrip;

        assert(p.raw + rest =~= p.raw);
    }
}

impl Encode for ServerboundSetBeaconEffect {
    fn encode(&self, dst: &mut BytesMut) -> (r: Result<(), ProtocolError>) {
        let ghost d0 = bytes_mut_data(*dst);
        put_slice(dst, self.raw.as_slice());
        let ghost mut e: Seq<u8> = self@.raw;
        Ok(())
    }
}

impl Decode for ServerboundSetBeaconEffect {
    fn decode(src: &mut Bytes) -> (r: Result<Self, ProtocolError>) {
        let raw = take_remaining(src);
        Ok(Self { raw })
    }
}

// ── ServerboundSetStructureBlock ──────────────────────────────────────

#[derive(Debug, Clone, PartialEq)]
pub struct ServerboundSetStructureBlock {
    pub raw: Vec<u8>,
}

pub struct ServerboundSetStructureBlockView {
    pub raw: Seq<u8>,
}

impl View for ServerboundSetStructureBlock {
    type V = ServerboundSetStructureBlockView;

    open spec fn view(&self) -> ServerboundSetStructureBlockView {
        ServerboundSetStructureBlockView {
            raw: self.raw@,
        }
    }
}

impl PacketId for ServerboundSetStructureBlock {
    open spec fn spec_packet_id(ver: u32) -> u8 {
        0x36
    }

    fn packet_id(_ver: u32) -> (r: u8) {
        0x36
    }
}

impl WireFormat for ServerboundSetStructureBlock {
    open spec fn spec_encode(p: ServerboundSetStructureBlockView) -> Seq<u8> {
        p.raw
    }

    open spec fn spec_decode(s: Seq<u8>) -> Parsed<ServerboundSetStructureBlockView> {
        then(take_rest(s), |raw: Seq<u8>, s: Seq<u8>| (Ok(ServerboundSetStructureBlockView { raw }), s))
    }
}

impl Roundtrip for ServerboundSetStructureBlock {
    open spec fn encodable(p: ServerboundSetStructureBlockView) -> bool {
        true
    }

    open spec fn reads_to_end() -> bool {
        true
    }

    proof fn lemma_roundtrip(p: ServerboundSetStructureBlockView, rest: Seq<u8>) {
        broadcast use group_wire_roundtrip;

        assert(p.raw + rest =~= p.raw);
    }
}

impl Encode for ServerboundSetStructureBlock {
    fn encode(&self, dst: &mut BytesMut) -> (r: Result<(), ProtocolError>) {
        let ghost d0 = bytes_mut_data(*dst);
        put_slice(dst, self.raw.as_slice());
        let ghost mut e: Seq<u8> = self@.raw;
        Ok(())
    }
}

impl Decode for ServerboundSetStructureBlock {
    fn decode(src: &mut Bytes) -> (r: Result<Self, ProtocolError>) {
        let raw = take_remaining(src);
        Ok(Self { raw })
    }
}

// ── ServerboundUpdateCommandBlock ─────────────────────────────────────

#[derive(Debug, Clone, PartialEq)]
pub struct ServerboundUpdateCommandBlock {
    pub raw: Vec<u8>,
}

pub struct ServerboundUpdateCommandBlockView {
    pub raw: Seq<u8>,
}

impl View for ServerboundUpdateCommandBlock {
    type V = ServerboundUpdateCommandBlockView;

    open spec fn view(&self) -> ServerboundUpdateCommandBlockView {
        ServerboundUpdateCommandBlockView {
            raw: self.raw@,
        }
    }
}

impl PacketId for ServerboundUpdateCommandBlock {
    open spec fn spec_packet_id(ver: u32) -> u8 {
        0x30
    }

    fn packet_id(_ver: u32) -> (r: u8) {
        0x30
    }
}

impl WireFormat for ServerboundUpdateCommandBlock {
    open spec fn spec_encode(p: ServerboundUpdateCommandBlockView) -> Seq<u8> {
        p.raw
    }

    open spec fn spec_decode(s: Seq<u8>) -> Parsed<ServerboundUpdateCommandBlockView> {
        then(take_rest(s), |raw: Seq<u8>, s: Seq<u8>| (Ok(ServerboundUpdateCommandBlockView { raw }), s))
    }
}

impl Roundtrip for ServerboundUpdateCommandBlock {
    open spec fn encodable(p: ServerboundUpdateCommandBlockView) -> bool {
        true
    }

    open spec fn reads_to_end() -> bool {
        true
    }

    proof fn lemma_roundtrip(p: ServerboundUpdateCommandBlockView, rest: Seq<u8>) {
        broadcast use group_wire_roundtrip;

        assert(p.raw + rest =~= p.raw);
    }
}

impl Encode for ServerboundUpdateCommandBlock {
    fn encode(&self, dst: &mut BytesMut) -> (r: Result<(), ProtocolError>) {
        let ghost d0 = bytes_mut_data(*dst);
        put_slice(dst, self.raw.as_slice());
        let ghost mut e: Seq<u8> = self@.raw;
        Ok(())
    }
}

impl Decode for ServerboundUpdateCommandBlock {
    fn decode(src: &mut Bytes) -> (r: Result<Self, ProtocolError>) {
        let raw = take_remaining(src);
        Ok(Self { raw })
    }
}

// ── ServerboundUpdateCommandBlockMinecart ─────────────────────────────

#[derive(Debug, Clone, PartialEq)]
pub struct ServerboundUpdateCommandBlockMinecart {
    pub raw: Vec<u8>,
}

pub struct ServerboundUpdateCommandBlockMinecartView {
    pub raw: Seq<u8>,
}

impl View for ServerboundUpdateCommandBlockMinecart {
    type V = ServerboundUpdateCommandBlockMinecartView;

    open spec fn view(&self) -> ServerboundUpdateCommandBlockMinecartView {
        ServerboundUpdateCommandBlockMinecartView {
            raw: self.raw@,
        }
    }
}

impl PacketId for ServerboundUpdateCommandBlockMinecart {
    open spec fn spec_packet_id(ver: u32) -> u8 {
        0x31
    }

    fn packet_id(_ver: u32) -> (r: u8) {
        0x31
    }
}

impl WireFormat for ServerboundUpdateCommandBlockMinecart {
    open spec fn spec_encode(p: ServerboundUpdateCommandBlockMinecartView) -> Seq<u8> {
        p.raw
    }

    open spec fn spec_decode(s: Seq<u8>) -> Parsed<ServerboundUpdateCommandBlockMinecartView> {
        then(take_rest(s), |raw: Seq<u8>, s: Seq<u8>| (Ok(ServerboundUpdateCommandBlockMinecartView { raw }), s))
    }
}

impl Roundtrip for ServerboundUpdateCommandBlockMinecart {
    open spec fn encodable(p: ServerboundUpdateCommandBlockMinecartView) -> bool {
        true
    }

    open spec fn reads_to_end() -> bool {
        true
    }

    proof fn lemma_roundtrip(p: ServerboundUpdateCommandBlockMinecartView, rest: Seq<u8>) {
        broadcast use group_wire_roundtrip;

        assert(p.raw + rest =~= p.raw);
    }
}

impl Encode for ServerboundUpdateCommandBlockMinecart {
    fn encode(&self, dst: &mut BytesMut) -> (r: Result<(), ProtocolError>) {
        let ghost d0 = bytes_mut_data(*dst);
        put_slice(dst, self.raw.as_slice());
        let ghost mut e: Seq<u8> = self@.raw;
        Ok(())
    }
}

impl Decode for ServerboundUpdateCommandBlockMinecart {
    fn decode(src: &mut Bytes) -> (r: Result<Self, ProtocolError>) {
        let raw = take_remaining(src);
        Ok(Self { raw })
    }
}

// ── ServerboundUpdateSign ─────────────────────────────────────────────

#[derive(Debug, Clone, PartialEq)]
pub struct ServerboundUpdateSign {
    pub raw: Vec<u8>,
}

pub struct ServerboundUpdateSignView {
    pub raw: Seq<u8>,
}

impl View for ServerboundUpdateSign {
    type V = ServerboundUpdateSignView;

    open spec fn view(&self) -> ServerboundUpdateSignView {
        ServerboundUpdateSignView {
            raw: self.raw@,
        }
    }
}

impl PacketId for ServerboundUpdateSign {
    open spec fn spec_packet_id(ver: u32) -> u8 {
        0x37
    }

    fn packet_id(_ver: u32) -> (r: u8) {
        0x37
    }
}

impl WireFormat for ServerboundUpdateSign {
    open spec fn spec_encode(p: ServerboundUpdateSignView) -> Seq<u8> {
        p.raw
    }

    open spec fn spec_decode(s: Seq<u8>) -> Parsed<ServerboundUpdateSignView> {
        then(take_rest(s), |raw: Seq<u8>, s: Seq<u8>| (Ok(ServerboundUpdateSignView { raw }), s))
    }
}

impl Roundtrip for ServerboundUpdateSign {
    open spec fn encodable(p: ServerboundUpdateSignView) -> bool {
        true
    }

    open spec fn reads_to_end() -> bool {
        true
    }

    proof fn lemma_roundtrip(p: ServerboundUpdateSignView, rest: Seq<u8>) {
        broadcast use group_wire_roundtrip;

        assert(p.raw + rest =~= p.raw);
    }
}

impl Encode for ServerboundUpdateSign {
    fn encode(&self, dst: &mut BytesMut) -> (r: Result<(), ProtocolError>) {
        let ghost d0 = bytes_mut_data(*dst);
        put_slice(dst, self.raw.as_slice());
        let ghost mut e: Seq<u8> = self@.raw;
        Ok(())
    }
}

impl Decode for ServerboundUpdateSign {
    fn decode(src: &mut Bytes) -> (r: Result<Self, ProtocolError>) {
        let raw = take_remaining(src);
        Ok(Self { raw })
    }
}

// ── ServerboundInteract ──────────────────────────────────────────────

/// What the player does to the entity.
#[derive(Debug, Clone, PartialEq)]
pub enum InteractAction {
    Interact { hand: VarInt },
    Attack,
    InteractAt {
        /// The bits of the `f32` value (`f32::to_bits`).
        target_x: u32,
        /// The bits of the `f32` value (`f32::to_bits`).
        target_y: u32,
        /// The bits of the `f32` value (`f32::to_bits`).
        target_z: u32,
        hand: VarInt,
    },
}

impl View for InteractAction {
    type V = InteractAction;

    open spec fn view(&self) -> InteractAction {
        *self
    }
}

#[derive(Debug, Clone, PartialEq)]
pub struct ServerboundInteract {
    pub entity_id: VarInt,
    pub action: InteractAction,
    pub sneaking: bool,
}

impl View for ServerboundInteract {
    type V = ServerboundInteract;

    open spec fn view(&self) -> ServerboundInteract {
        *self
    }
}

impl PacketId for ServerboundInteract {
    open spec fn spec_packet_id(ver: u32) -> u8 {
        0x14
    }

    fn packet_id(_ver: u32) -> (r: u8) {
        0x14
    }
}

/// The bytes of an action: its VarInt tag, then its fields.
pub open spec fn interact_action_wire(a: InteractAction) -> Seq<u8> {
    match a {
        InteractAction::Interact { hand } => VarInt::spec_encode(VarInt(0)) + VarInt::spec_encode(hand),
        InteractAction::Attack => VarInt::spec_encode(VarInt(1)),
        InteractAction::InteractAt { target_x, target_y, target_z, hand } => VarInt::spec_encode(VarInt(2))
            + be_u32_bytes(target_x) + be_u32_bytes(target_y) + be_u32_bytes(target_z)
            + VarInt::spec_encode(hand),
    }
}

/// Reading an action: tag 0, 1 or 2, else `InvalidData`.
pub open spec fn interact_action_spec(s: Seq<u8>) -> Parsed<InteractAction> {
    then(
        take_varint_i32(s),
        |tag: i32, s: Seq<u8>|
            if tag == 0 {
                then(VarInt::spec_decode(s), |hand: VarInt, s: Seq<u8>| (Ok(InteractAction::Interact { hand }), s))
            } else if tag == 1 {
                (Ok(InteractAction::Attack), s)
            } else if tag == 2 {
                then(
                    need_spec(s, 12),
                    |_u: (), s: Seq<u8>|
                        then(
                            take_u32(s),
                            |target_x: u32, s: Seq<u8>|
                                then(
                                    take_u32(s),
                                    |target_y: u32, s: Seq<u8>|
                                        then(
                                            take_u32(s),
                                            |target_z: u32, s: Seq<u8>|
                                                then(
                                                    VarInt::spec_decode(s),
                                                    |hand: VarInt, s: Seq<u8>|
                                                        (
                                                            Ok(
                                                                InteractAction::InteractAt {
                                                                    target_x,
                                                                    target_y,
                                                                    target_z,
                                                                    hand,
                                                                },
                                                            ),
                                                            s,
                                                        ),
                                                ),
                                        ),
                                ),
                        ),
                )
            } else {
                (Err(ErrorView::UnexpectedEof), s)
            },
    )
}

fn decode_interact_action(src: &mut Bytes) -> (r: Result<InteractAction, ProtocolError>)
    requires
        !panics(interact_action_spec(bytes_data(*old(src)))),
    ensures
        interact_action_spec(bytes_data(*old(src))) == (result_view(r), bytes_data(*final(src))),
{
    let tag = VarInt::decode(src)?.0;
    if tag == 0 {
        let hand = VarInt::decode(src)?;
        Ok(InteractAction::Interact { hand })
    } else if tag == 1 {
        Ok(InteractAction::Attack)
    } else if tag == 2 {
        need(src, 12)?;
        let target_x = get_u32(src);
        let target_y = get_u32(src);
        let target_z = get_u32(src);
        let hand = VarInt::decode(src)?;
        Ok(InteractAction::InteractAt { target_x, target_y, target_z, hand })
    } else {
        Err(ProtocolError::UnexpectedEof)
    }
}

fn encode_interact_action(a: &InteractAction, dst: &mut BytesMut)
    ensures
        bytes_mut_data(*final(dst)) == bytes_mut_data(*old(dst)) + interact_action_wire(*a),
{
    let ghost d0 = bytes_mut_data(*dst);
    match a {
        InteractAction::Interact { hand } => {
            let _ = VarInt(0).encode(dst);
            let _ = hand.encode(dst);
            proof {
                lemma_concat_associative(d0, VarInt::spec_encode(VarInt(0)), VarInt::spec_encode(*hand));
            }
        },
        InteractAction::Attack => {
            let _ = VarInt(1).encode(dst);
        },
        InteractAction::InteractAt { target_x, target_y, target_z, hand } => {
            let ghost e0 = VarInt::spec_encode(VarInt(2));
            let ghost e1 = be_u32_bytes(*target_x);
            let ghost e2 = be_u32_bytes(*target_y);
            let ghost e3 = be_u32_bytes(*target_z);
            let ghost e4 = VarInt::spec_encode(*hand);
            let _ = VarInt(2).encode(dst);
            put_u32(dst, *target_x);
            put_u32(dst, *target_y);
            put_u32(dst, *target_z);
            let _ = hand.encode(dst);
            proof {
                lemma_concat_associative(d0, e0, e1);
                lemma_concat_associative(d0, e0 + e1, e2);
                lemma_concat_associative(d0, e0 + e1 + e2, e3);
                lemma_concat_associative(d0, e0 + e1 + e2 + e3, e4);
            }
        },
    }
}

/// Reading the bytes of an action gives it back.
pub proof fn lemma_interact_action_roundtrip(a: InteractAction, rest: Seq<u8>)
    ensures
        interact_action_spec(interact_action_wire(a) + rest) == (Ok::<InteractAction, ErrorView>(a), rest),
{
    broadcast use group_wire_roundtrip;

    match a {
        InteractAction::Interact { hand } => {
            let t = VarInt::spec_encode(hand) + rest;
            lemma_concat_associative(VarInt::spec_encode(VarInt(0)), VarInt::spec_encode(hand), rest);
            VarInt::lemma_roundtrip(VarInt(0), t);
            VarInt::lemma_roundtrip(hand, rest);
        },
        InteractAction::Attack => {
            VarInt::lemma_roundtrip(VarInt(1), rest);
        },
        InteractAction::InteractAt { target_x, target_y, target_z, hand } => {
            let e0 = VarInt::spec_encode(VarInt(2));
            let e1 = be_u32_bytes(target_x);
            let e2 = be_u32_bytes(target_y);
            let e3 = be_u32_bytes(target_z);
            let e4 = VarInt::spec_encode(hand);
            let t4 = e4 + rest;
            let t3 = e3 + t4;
            let t2 = e2 + t3;
            let t1 = e1 + t2;
            lemma_concat_associative(e0 + e1 + e2 + e3, e4, rest);
            lemma_concat_associative(e0 + e1 + e2, e3, t4);
            lemma_concat_associative(e0 + e1, e2, t3);
            lemma_concat_associative(e0, e1, t2);
            VarInt::lemma_roundtrip(VarInt(2), t1);
            assert(t1.len() >= 12);
            VarInt::lemma_roundtrip(hand, rest);
        },
    }
}

impl WireFormat for ServerboundInteract {
    open spec fn spec_encode(p: ServerboundInteract) -> Seq<u8> {
        VarInt::spec_encode(p.entity_id) + interact_action_wire(p.action) + seq![bool_byte(p.sneaking)]
    }

    open spec fn spec_decode(s: Seq<u8>) -> Parsed<ServerboundInteract> {
        then(
            VarInt::spec_decode(s),
            |entity_id: VarInt, s: Seq<u8>|
                then(
                    interact_action_spec(s),
                    |action: InteractAction, s: Seq<u8>|
                        then(
                            need_spec(s, 1),
                            |_u: (), s: Seq<u8>|
                                then(
                                    take_bool(s),
                                    |sneaking: bool, s: Seq<u8>| (Ok(ServerboundInteract { entity_id, action, sneaking }), s),
                                ),
                        ),
                ),
        )
    }
}

impl Roundtrip for ServerboundInteract {
    open spec fn encodable(p: ServerboundInteract) -> bool {
        true
    }

    open spec fn reads_to_end() -> bool {
        false
    }

    proof fn lemma_roundtrip(p: ServerboundInteract, rest: Seq<u8>) {
        broadcast use group_wire_roundtrip;

        let e0 = VarInt::spec_encode(p.entity_id);
        let e1 = interact_action_wire(p.action);
        let e2 = seq![bool_byte(p.sneaking)];
        let t2 = e2 + rest;
        let t1 = e1 + t2;
        lemma_concat_associative(e0 + e1, e2, rest);
        lemma_concat_associative(e0, e1, t2);
        VarInt::lemma_roundtrip(p.entity_id, t1);
        lemma_interact_action_roundtrip(p.action, t2);
    }
}

impl Encode for ServerboundInteract {
    fn encode(&self, dst: &mut BytesMut) -> (r: Result<(), ProtocolError>) {
        let ghost d0 = bytes_mut_data(*dst);
        let ghost e0 = VarInt::spec_encode(self.entity_id);
        let ghost e1 = interact_action_wire(self.action);
        let _ = self.entity_id.encode(dst);
        encode_interact_action(&self.action, dst);
        put_u8(dst, self.sneaking as u8);
        proof {
            lemma_concat_associative(d0, e0, e1);
            lemma_concat_associative(d0, e0 + e1, seq![bool_byte(self.sneaking)]);
        }
        Ok(())
    }
}

impl Decode for ServerboundInteract {
    fn decode(src: &mut Bytes) -> (r: Result<Self, ProtocolError>) {
        let entity_id = VarInt::decode(src)?;
        let action = decode_interact_action(src)?;
        need(src, 1)?;
        let sneaking = get_u8(src) != 0;
        Ok(Self { entity_id, action, sneaking })
    }
}


} // verus!
