//! Pre-netty (1.6) login-state packets.
use crate::buffer::{
    bytes_data, bytes_mut_data, copy_to_bytes, bytes_to_vec, get_i16, get_i32, get_i64, get_i8, get_u16, get_u32, get_u64, get_u8, put_i16,
    put_i32, put_i64, put_i8, put_slice, put_u16, put_u32, put_u64, put_u8, remaining, freeze, bytes_mut_new,
};
use crate::codec::{result_view, Decode, Encode, PacketId, Roundtrip, WireFormat};
use crate::error::{io_error, ErrorView, IoErrorKind, ProtocolError};
use crate::text::legacy_motd_line;
use crate::versions::fields::{need_eof, need_eof_spec};
use crate::versions::v1_6_x::ucs2::{
    legacy_string_fits, legacy_string_read, legacy_string_wire, lemma_legacy_string_roundtrip,
    read_legacy_string, write_legacy_string,
};
use crate::wire::{
    be_i16_bytes, be_i32_bytes, be_i64_bytes, be_u16_bytes, be_u32_bytes, be_u64_bytes, bool_byte,
    group_wire_roundtrip, panics, take_bool, take_i16, take_i32, take_i64, take_i8, take_u16, take_u32, take_u64,
    take_u8, then, Parsed,
};
use bytes::{Bytes, BytesMut};
use vstd::prelude::*;
use vstd::seq_lib::lemma_concat_associative;

verus! {

/// What `decode_legacy_string` reads in this module: a pre-netty string
/// whose units, when they are not UTF-16, give `UnexpectedEof`.
pub open spec fn legacy_str_spec(s: Seq<u8>) -> Parsed<Seq<char>> {
    legacy_string_read(s, ErrorView::UnexpectedEof)
}

fn decode_legacy_string(src: &mut Bytes) -> (r: Result<String, ProtocolError>)
    ensures
        legacy_str_spec(bytes_data(*old(src))) == (result_view(r), bytes_data(*final(src))),
{
    match read_legacy_string(src)? {
        Some(s) => Ok(s),
        None => Err(ProtocolError::UnexpectedEof),
    }
}

pub proof fn lemma_legacy_str_field(c: Seq<char>, rest: Seq<u8>)
    requires
        legacy_string_fits(c),
    ensures
        legacy_str_spec(legacy_string_wire(c) + rest) == (Ok::<Seq<char>, ErrorView>(c), rest),
{
    lemma_legacy_string_roundtrip(c, rest, ErrorView::UnexpectedEof);
}

/// An `i16` byte count, then that many bytes; a missing count or missing
/// bytes are `UnexpectedEof`. A negative count is a count no buffer holds.
pub open spec fn i16_bytes_eof_spec(s: Seq<u8>) -> Parsed<Seq<u8>> {
    if s.len() < 2 {
        (Err(ErrorView::UnexpectedEof), s)
    } else {
        let n = be_i16_value_of(s) as usize;
        let t = s.skip(2);
        if t.len() < n {
            (Err(ErrorView::UnexpectedEof), t)
        } else {
            (Ok(t.take(n as int)), t.skip(n as int))
        }
    }
}

pub open spec fn be_i16_value_of(s: Seq<u8>) -> i16 {
    crate::wire::be_i16_value(s)
}

/// The bytes of an `i16`-counted byte array.
pub open spec fn i16_bytes_wire(b: Seq<u8>) -> Seq<u8> {
    be_i16_bytes(b.len() as i16) + b
}

fn decode_i16_bytes_eof(src: &mut Bytes) -> (r: Result<Vec<u8>, ProtocolError>)
    ensures
        i16_bytes_eof_spec(bytes_data(*old(src))) == (result_view(r), bytes_data(*final(src))),
{
    if remaining(src) < 2 {
        return Err(ProtocolError::UnexpectedEof);
    }
    let len = get_i16(src) as usize;
    if remaining(src) < len {
        return Err(ProtocolError::UnexpectedEof);
    }
    let b = copy_to_bytes(src, len);
    Ok(bytes_to_vec(&b))
}

pub proof fn lemma_i16_bytes_eof_roundtrip(b: Seq<u8>, rest: Seq<u8>)
    requires
        b.len() <= i16::MAX,
    ensures
        i16_bytes_eof_spec(i16_bytes_wire(b) + rest) == (Ok::<Seq<u8>, ErrorView>(b), rest),
{
    broadcast use group_wire_roundtrip;

    let n = b.len() as i16;
    let s = i16_bytes_wire(b) + rest;
    lemma_concat_associative(be_i16_bytes(n), b, rest);
    assert(take_i16(be_i16_bytes(n) + (b + rest)) == (Ok::<i16, ErrorView>(n), b + rest));
    assert(s.skip(2) =~= b + rest);
    assert((b + rest).take(b.len() as int) =~= b);
    assert((b + rest).skip(b.len() as int) =~= rest);
}

// ── HandshakeC2S ──────────────────────────────────────────────────────

#[derive(Debug, Clone)]
pub struct HandshakeC2S {
    pub protocol_version: u8,
    pub username: String,
    pub host: String,
    pub port: i32,
}

pub struct HandshakeC2SView {
    pub protocol_version: u8,
    pub username: Seq<char>,
    pub host: Seq<char>,
    pub port: i32,
}

impl View for HandshakeC2S {
    type V = HandshakeC2SView;

    open spec fn view(&self) -> HandshakeC2SView {
        HandshakeC2SView {
            protocol_version: self.protocol_version,
            username: self.username@,
            host: self.host@,
            port: self.port,
        }
    }
}

impl PacketId for HandshakeC2S {
    open spec fn spec_packet_id(ver: u32) -> u8 {
        0x02
    }

    fn packet_id(_ver: u32) -> (r: u8) {
        0x02
    }
}

impl WireFormat for HandshakeC2S {
    open spec fn spec_encode(p: HandshakeC2SView) -> Seq<u8> {
        seq![p.protocol_version] + legacy_string_wire(p.username) + legacy_string_wire(p.host) + be_i32_bytes(p.port)
    }

    open spec fn spec_decode(s: Seq<u8>) -> Parsed<HandshakeC2SView> {
        then(need_eof_spec(s, 1), |_u: (), s: Seq<u8>| then(take_u8(s), |protocol_version: u8, s: Seq<u8>| then(legacy_str_spec(s), |username: Seq<char>, s: Seq<u8>| then(legacy_str_spec(s), |host: Seq<char>, s: Seq<u8>| then(need_eof_spec(s, 4), |_u: (), s: Seq<u8>| then(take_i32(s), |port: i32, s: Seq<u8>| (Ok(HandshakeC2SView { protocol_version, username, host, port }), s)))))))
    }
}

impl Roundtrip for HandshakeC2S {
    open spec fn encodable(p: HandshakeC2SView) -> bool {
        legacy_string_fits(p.username) && legacy_string_fits(p.host)
    }

    open spec fn reads_to_end() -> bool {
        false
    }

    proof fn lemma_roundtrip(p: HandshakeC2SView, rest: Seq<u8>) {
        broadcast use group_wire_roundtrip;

        let t3 = be_i32_bytes(p.port) + rest;
        let t2 = legacy_string_wire(p.host) + t3;
        let t1 = legacy_string_wire(p.username) + t2;
        lemma_concat_associative(seq![p.protocol_version] + legacy_string_wire(p.username) + legacy_string_wire(p.host), be_i32_bytes(p.port), rest);
        lemma_concat_associative(seq![p.protocol_version] + legacy_string_wire(p.username), legacy_string_wire(p.host), t3);
        lemma_concat_associative(seq![p.protocol_version], legacy_string_wire(p.username), t2);
        lemma_legacy_str_field(p.username, t2);
        lemma_legacy_str_field(p.host, t3);
    }
}

impl Encode for HandshakeC2S {
    fn encode(&self, dst: &mut BytesMut) -> (r: Result<(), ProtocolError>) {
        let ghost d0 = bytes_mut_data(*dst);
        put_u8(dst, self.protocol_version);
        let ghost mut e: Seq<u8> = seq![self@.protocol_version];
        write_legacy_string(self.username.as_str(), dst);
        proof {
            lemma_concat_associative(d0, e, legacy_string_wire(self@.username));
            e = e + legacy_string_wire(self@.username);
        }
        write_legacy_string(self.host.as_str(), dst);
        proof {
            lemma_concat_associative(d0, e, legacy_string_wire(self@.host));
            e = e + legacy_string_wire(self@.host);
        }
        put_i32(dst, self.port);
        proof {
            lemma_concat_associative(d0, e, be_i32_bytes(self@.port));
            e = e + be_i32_bytes(self@.port);
        }
        Ok(())
    }
}

impl Decode for HandshakeC2S {
    fn decode(src: &mut Bytes) -> (r: Result<Self, ProtocolError>) {
        need_eof(src, 1)?;
        let protocol_version = get_u8(src);
        let username = decode_legacy_string(src)?;
        let host = decode_legacy_string(src)?;
        need_eof(src, 4)?;
        let port = get_i32(src);
        Ok(Self { protocol_version, username, host, port })
    }
}

// ── EncryptionKeyRequestS2C ───────────────────────────────────────────

#[derive(Debug, Clone)]
pub struct EncryptionKeyRequestS2C {
    pub server_id: String,
    pub public_key: Vec<u8>,
    pub verify_token: Vec<u8>,
}

pub struct EncryptionKeyRequestS2CView {
    pub server_id: Seq<char>,
    pub public_key: Seq<u8>,
    pub verify_token: Seq<u8>,
}

impl View for EncryptionKeyRequestS2C {
    type V = EncryptionKeyRequestS2CView;

    open spec fn view(&self) -> EncryptionKeyRequestS2CView {
        EncryptionKeyRequestS2CView {
            server_id: self.server_id@,
            public_key: self.public_key@,
            verify_token: self.verify_token@,
        }
    }
}

impl PacketId for EncryptionKeyRequestS2C {
    open spec fn spec_packet_id(ver: u32) -> u8 {
        0xFD
    }

    fn packet_id(_ver: u32) -> (r: u8) {
        0xFD
    }
}

impl WireFormat for EncryptionKeyRequestS2C {
    open spec fn spec_encode(p: EncryptionKeyRequestS2CView) -> Seq<u8> {
        legacy_string_wire(p.server_id) + i16_bytes_wire(p.public_key) + i16_bytes_wire(p.verify_token)
    }

    open spec fn spec_decode(s: Seq<u8>) -> Parsed<EncryptionKeyRequestS2CView> {
        then(legacy_str_spec(s), |server_id: Seq<char>, s: Seq<u8>| then(i16_bytes_eof_spec(s), |public_key: Seq<u8>, s: Seq<u8>| then(i16_bytes_eof_spec(s), |verify_token: Seq<u8>, s: Seq<u8>| (Ok(EncryptionKeyRequestS2CView { server_id, public_key, verify_token }), s))))
    }
}

impl Roundtrip for EncryptionKeyRequestS2C {
    open spec fn encodable(p: EncryptionKeyRequestS2CView) -> bool {
        legacy_string_fits(p.server_id) && p.public_key.len() <= i16::MAX && p.verify_token.len() <= i16::MAX
    }

    open spec fn reads_to_end() -> bool {
        false
    }

    proof fn lemma_roundtrip(p: EncryptionKeyRequestS2CView, rest: Seq<u8>) {
        broadcast use group_wire_roundtrip;

        let t2 = i16_bytes_wire(p.verify_token) + rest;
        let t1 = i16_bytes_wire(p.public_key) + t2;
        lemma_concat_associative(legacy_string_wire(p.server_id) + i16_bytes_wire(p.public_key), i16_bytes_wire(p.verify_token), rest);
        lemma_concat_associative(legacy_string_wire(p.server_id), i16_bytes_wire(p.public_key), t2);
        lemma_legacy_str_field(p.server_id, t1);
        lemma_i16_bytes_eof_roundtrip(p.public_key, t2);
        lemma_i16_bytes_eof_roundtrip(p.verify_token, rest);
    }
}

impl Encode for EncryptionKeyRequestS2C {
    fn encode(&self, dst: &mut BytesMut) -> (r: Result<(), ProtocolError>) {
        let ghost d0 = bytes_mut_data(*dst);
        write_legacy_string(self.server_id.as_str(), dst);
        let ghost mut e: Seq<u8> = legacy_string_wire(self@.server_id);
        put_i16(dst, self.public_key.len() as i16);
        put_slice(dst, self.public_key.as_slice());
        proof {
            lemma_concat_associative(d0, e, i16_bytes_wire(self@.public_key));
            e = e + i16_bytes_wire(self@.public_key);
        }
        put_i16(dst, self.verify_token.len() as i16);
        put_slice(dst, self.verify_token.as_slice());
        proof {
            lemma_concat_associative(d0, e, i16_bytes_wire(self@.verify_token));
            e = e + i16_bytes_wire(self@.verify_token);
        }
        Ok(())
    }
}

impl Decode for EncryptionKeyRequestS2C {
    fn decode(src: &mut Bytes) -> (r: Result<Self, ProtocolError>) {
        let server_id = decode_legacy_string(src)?;
        let public_key = decode_i16_bytes_eof(src)?;
        let verify_token = decode_i16_bytes_eof(src)?;
        Ok(Self { server_id, public_key, verify_token })
    }
}

// ── EncryptionKeyResponseC2S ──────────────────────────────────────────

#[derive(Debug, Clone)]
pub struct EncryptionKeyResponseC2S {
    pub shared_secret: Vec<u8>,
    pub verify_token: Vec<u8>,
}

pub struct EncryptionKeyResponseC2SView {
    pub shared_secret: Seq<u8>,
    pub verify_token: Seq<u8>,
}

impl View for EncryptionKeyResponseC2S {
    type V = EncryptionKeyResponseC2SView;

    open spec fn view(&self) -> EncryptionKeyResponseC2SView {
        EncryptionKeyResponseC2SView {
            shared_secret: self.shared_secret@,
            verify_token: self.verify_token@,
        }
    }
}

impl PacketId for EncryptionKeyResponseC2S {
    open spec fn spec_packet_id(ver: u32) -> u8 {
        0xFC
    }

    fn packet_id(_ver: u32) -> (r: u8) {
        0xFC
    }
}

impl WireFormat for EncryptionKeyResponseC2S {
    open spec fn spec_encode(p: EncryptionKeyResponseC2SView) -> Seq<u8> {
        i16_bytes_wire(p.shared_secret) + i16_bytes_wire(p.verify_token)
    }

    open spec fn spec_decode(s: Seq<u8>) -> Parsed<EncryptionKeyResponseC2SView> {
        then(i16_bytes_eof_spec(s), |shared_secret: Seq<u8>, s: Seq<u8>| then(i16_bytes_eof_spec(s), |verify_token: Seq<u8>, s: Seq<u8>| (Ok(EncryptionKeyResponseC2SView { shared_secret, verify_token }), s)))
    }
}

impl Roundtrip for EncryptionKeyResponseC2S {
    open spec fn encodable(p: EncryptionKeyResponseC2SView) -> bool {
        p.shared_secret.len() <= i16::MAX && p.verify_token.len() <= i16::MAX
    }

    open spec fn reads_to_end() -> bool {
        false
    }

    proof fn lemma_roundtrip(p: EncryptionKeyResponseC2SView, rest: Seq<u8>) {
        broadcast use group_wire_roundtrip;

        let t1 = i16_bytes_wire(p.verify_token) + rest;
        lemma_concat_associative(i16_bytes_wire(p.shared_secret), i16_bytes_wire(p.verify_token), rest);
        lemma_i16_bytes_eof_roundtrip(p.shared_secret, t1);
        lemma_i16_bytes_eof_roundtrip(p.verify_token, rest);
    }
}

impl Encode for EncryptionKeyResponseC2S {
    fn encode(&self, dst: &mut BytesMut) -> (r: Result<(), ProtocolError>) {
        let ghost d0 = bytes_mut_data(*dst);
        put_i16(dst, self.shared_secret.len() as i16);
        put_slice(dst, self.shared_secret.as_slice());
        let ghost mut e: Seq<u8> = i16_bytes_wire(self@.shared_secret);
        put_i16(dst, self.verify_token.len() as i16);
        put_slice(dst, self.verify_token.as_slice());
        proof {
            lemma_concat_associative(d0, e, i16_bytes_wire(self@.verify_token));
            e = e + i16_bytes_wire(self@.verify_token);
        }
        Ok(())
    }
}

impl Decode for EncryptionKeyResponseC2S {
    fn decode(src: &mut Bytes) -> (r: Result<Self, ProtocolError>) {
        let shared_secret = decode_i16_bytes_eof(src)?;
        let verify_token = decode_i16_bytes_eof(src)?;
        Ok(Self { shared_secret, verify_token })
    }
}

// ── LoginRequestS2C ───────────────────────────────────────────────────

#[derive(Debug, Clone)]
pub struct LoginRequestS2C {
    pub entity_id: i32,
    pub level_type: String,
    pub game_mode: u8,
    pub dimension: i8,
    pub difficulty: u8,
    pub world_height: u8,
    pub max_players: u8,
}

pub struct LoginRequestS2CView {
    pub entity_id: i32,
    pub level_type: Seq<char>,
    pub game_mode: u8,
    pub dimension: i8,
    pub difficulty: u8,
    pub world_height: u8,
    pub max_players: u8,
}

impl View for LoginRequestS2C {
    type V = LoginRequestS2CView;

    open spec fn view(&self) -> LoginRequestS2CView {
        LoginRequestS2CView {
            entity_id: self.entity_id,
            level_type: self.level_type@,
            game_mode: self.game_mode,
            dimension: self.dimension,
            difficulty: self.difficulty,
            world_height: self.world_height,
            max_players: self.max_players,
        }
    }
}

impl PacketId for LoginRequestS2C {
    open spec fn spec_packet_id(ver: u32) -> u8 {
        0x01
    }

    fn packet_id(_ver: u32) -> (r: u8) {
        0x01
    }
}

impl WireFormat for LoginRequestS2C {
    open spec fn spec_encode(p: LoginRequestS2CView) -> Seq<u8> {
        be_i32_bytes(p.entity_id) + legacy_string_wire(p.level_type) + seq![p.game_mode] + seq![p.dimension as u8] + seq![p.difficulty] + seq![p.world_height] + seq![p.max_players]
    }

    open spec fn spec_decode(s: Seq<u8>) -> Parsed<LoginRequestS2CView> {
        then(need_eof_spec(s, 4), |_u: (), s: Seq<u8>| then(take_i32(s), |entity_id: i32, s: Seq<u8>| then(legacy_str_spec(s), |level_type: Seq<char>, s: Seq<u8>| then(need_eof_spec(s, 5), |_u: (), s: Seq<u8>| then(take_u8(s), |game_mode: u8, s: Seq<u8>| then(take_i8(s), |dimension: i8, s: Seq<u8>| then(take_u8(s), |difficulty: u8, s: Seq<u8>| then(take_u8(s), |world_height: u8, s: Seq<u8>| then(take_u8(s), |max_players: u8, s: Seq<u8>| (Ok(LoginRequestS2CView { entity_id, level_type, game_mode, dimension, difficulty, world_height, max_players }), s))))))))))
    }
}

impl Roundtrip for LoginRequestS2C {
    open spec fn encodable(p: LoginRequestS2CView) -> bool {
        legacy_string_fits(p.level_type)
    }

    open spec fn reads_to_end() -> bool {
        false
    }

    #[verifier::rlimit(100)]
    #[verifier::spinoff_prover]
    proof fn lemma_roundtrip(p: LoginRequestS2CView, rest: Seq<u8>) {
        broadcast use group_wire_roundtrip;

        let t6 = seq![p.max_players] + rest;
        let t5 = seq![p.world_height] + t6;
        let t4 = seq![p.difficulty] + t5;
        let t3 = seq![p.dimension as u8] + t4;
        let t2 = seq![p.game_mode] + t3;
        let t1 = legacy_string_wire(p.level_type) + t2;
        lemma_concat_associative(be_i32_bytes(p.entity_id) + legacy_string_wire(p.level_type) + seq![p.game_mode] + seq![p.dimension as u8] + seq![p.difficulty] + seq![p.world_height], seq![p.max_players], rest);
        lemma_concat_associative(be_i32_bytes(p.entity_id) + legacy_string_wire(p.level_type) + seq![p.game_mode] + seq![p.dimension as u8] + seq![p.difficulty], seq![p.world_height], t6);
        lemma_concat_associative(be_i32_bytes(p.entity_id) + legacy_string_wire(p.level_type) + seq![p.game_mode] + seq![p.dimension as u8], seq![p.difficulty], t5);
        lemma_concat_associative(be_i32_bytes(p.entity_id) + legacy_string_wire(p.level_type) + seq![p.game_mode], seq![p.dimension as u8], t4);
        lemma_concat_associative(be_i32_bytes(p.entity_id) + legacy_string_wire(p.level_type), seq![p.game_mode], t3);
        lemma_concat_associative(be_i32_bytes(p.entity_id), legacy_string_wire(p.level_type), t2);
        lemma_legacy_str_field(p.level_type, t2);
    }
}

impl Encode for LoginRequestS2C {
    fn encode(&self, dst: &mut BytesMut) -> (r: Result<(), ProtocolError>) {
        let ghost d0 = bytes_mut_data(*dst);
        put_i32(dst, self.entity_id);
        let ghost mut e: Seq<u8> = be_i32_bytes(self@.entity_id);
        write_legacy_string(self.level_type.as_str(), dst);
        proof {
            lemma_concat_associative(d0, e, legacy_string_wire(self@.level_type));
            e = e + legacy_string_wire(self@.level_type);
        }
        put_u8(dst, self.game_mode);
        proof {
            lemma_concat_associative(d0, e, seq![self@.game_mode]);
            e = e + seq![self@.game_mode];
        }
        put_i8(dst, self.dimension);
        proof {
            lemma_concat_associative(d0, e, seq![self@.dimension as u8]);
            e = e + seq![self@.dimension as u8];
        }
        put_u8(dst, self.difficulty);
        proof {
            lemma_concat_associative(d0, e, seq![self@.difficulty]);
            e = e + seq![self@.difficulty];
        }
        put_u8(dst, self.world_height);
        proof {
            lemma_concat_associative(d0, e, seq![self@.world_height]);
            e = e + seq![self@.world_height];
        }
        put_u8(dst, self.max_players);
        proof {
            lemma_concat_associative(d0, e, seq![self@.max_players]);
            e = e + seq![self@.max_players];
        }
        Ok(())
    }
}

impl Decode for LoginRequestS2C {
    fn decode(src: &mut Bytes) -> (r: Result<Self, ProtocolError>) {
        need_eof(src, 4)?;
        let entity_id = get_i32(src);
        let level_type = decode_legacy_string(src)?;
        need_eof(src, 5)?;
        let game_mode = get_u8(src);
        let dimension = get_i8(src);
        let difficulty = get_u8(src);
        let world_height = get_u8(src);
        let max_players = get_u8(src);
        Ok(Self { entity_id, level_type, game_mode, dimension, difficulty, world_height, max_players })
    }
}

// ── ClientboundLoginDisconnect ────────────────────────────────────────

#[derive(Debug, Clone)]
pub struct ClientboundLoginDisconnect {
    pub reason: String,
}

pub struct ClientboundLoginDisconnectView {
    pub reason: Seq<char>,
}

impl View for ClientboundLoginDisconnect {
    type V = ClientboundLoginDisconnectView;

    open spec fn view(&self) -> ClientboundLoginDisconnectView {
        ClientboundLoginDisconnectView {
            reason: self.reason@,
        }
    }
}

impl PacketId for ClientboundLoginDisconnect {
    open spec fn spec_packet_id(ver: u32) -> u8 {
        0x00
    }

    fn packet_id(_ver: u32) -> (r: u8) {
        0x00
    }
}

impl WireFormat for ClientboundLoginDisconnect {
    open spec fn spec_encode(p: ClientboundLoginDisconnectView) -> Seq<u8> {
        legacy_string_wire(p.reason)
    }

    open spec fn spec_decode(s: Seq<u8>) -> Parsed<ClientboundLoginDisconnectView> {
        then(legacy_str_spec(s), |reason: Seq<char>, s: Seq<u8>| (Ok(ClientboundLoginDisconnectView { reason }), s))
    }
}

impl Roundtrip for ClientboundLoginDisconnect {
    open spec fn encodable(p: ClientboundLoginDisconnectView) -> bool {
        legacy_string_fits(p.reason)
    }

    open spec fn reads_to_end() -> bool {
        false
    }

    proof fn lemma_roundtrip(p: ClientboundLoginDisconnectView, rest: Seq<u8>) {
        broadcast use group_wire_roundtrip;

        lemma_legacy_str_field(p.reason, rest);
    }
}

impl Encode for ClientboundLoginDisconnect {
    fn encode(&self, dst: &mut BytesMut) -> (r: Result<(), ProtocolError>) {
        let ghost d0 = bytes_mut_data(*dst);
        write_legacy_string(self.reason.as_str(), dst);
        let ghost mut e: Seq<u8> = legacy_string_wire(self@.reason);
        Ok(())
    }
}

impl Decode for ClientboundLoginDisconnect {
    fn decode(src: &mut Bytes) -> (r: Result<Self, ProtocolError>) {
        let reason = decode_legacy_string(src)?;
        Ok(Self { reason })
    }
}

} // verus!
