//! Login-state packets of the 1.16 releases.
use crate::buffer::{
    bytes_data, bytes_mut_data, bytes_to_vec, copy_to_bytes, copy_to_slice, get_i16, get_i32, get_i64, get_i8,
    extend_from_slice, get_u16, get_u32, get_u64, get_u8, put_i16, put_i32, put_i64, put_i8, put_slice, put_u16, put_u32, put_u64,
    put_u8, remaining, string_from_utf8,
};
use crate::codec::{
    decode_dim_pos_codec, decode_string_vec, dim_pos_codec_fits, dim_pos_codec_spec, dim_pos_view,
    dim_pos_wire, encode_dim_pos_codec, encode_string_vec, lemma_dim_pos_codec_roundtrip, lemma_string_roundtrip, lemma_string_vec_roundtrip,
    result_view, string_fits, string_list_wire, string_piece, string_vec_fits, string_vec_spec,
    string_wire, strings_view, take_varint_i32, write_string, Decode, Encode, PacketId, Roundtrip,
    WireFormat,
};
use crate::error::{io_error, io_error_owned, ErrorView, IoErrorKind, ProtocolError};
use crate::text::{decimal, need_remaining_message};
use crate::types::VarInt;
use crate::types::uuid_wire::{get_uuid, lemma_take_uuid, put_uuid, take_uuid, uuid_wire};
use crate::versions::fields::{
    decode_eof_str, decode_fixed_str, eof_str_spec, fixed_str_spec, lemma_eof_str_roundtrip,
    lemma_fixed_str_roundtrip, need_eof, need_eof_spec, need_msg, need_msg_spec, skip_rest_spec,
    skip_remaining, take_remaining,
};
use crate::wire::{
    be_i16_bytes, be_i32_bytes, be_i64_bytes, be_u16_bytes, be_u32_bytes, be_u64_bytes, bool_byte,
    group_wire_roundtrip, lemma_read_n_err, lemma_read_write_n, panics, read_n, take_bool, take_i16, take_i32, take_i64, take_i8, take_rest,
    take_u16, take_u32, take_u64, take_u8, then, write_all, Parsed,
};
use bytes::{Bytes, BytesMut};
use vstd::prelude::*;
use vstd::seq_lib::lemma_concat_associative;
use vstd::utf8::*;

verus! {


/// What `decode_string` reads in this module: a VarInt-prefixed UTF-8
/// string with fixed error messages.
pub open spec fn string_spec(s: Seq<u8>) -> Parsed<Seq<char>> {
    fixed_str_spec(s, "Missing bytes for string"@, "Invalid UTF-8 in string"@)
}

fn decode_string(src: &mut Bytes) -> (r: Result<String, ProtocolError>)
    requires
        !panics(string_spec(bytes_data(*old(src)))),
    ensures
        string_spec(bytes_data(*old(src))) == (result_view(r), bytes_data(*final(src))),
{
    decode_fixed_str(src, "Missing bytes for string", "Invalid UTF-8 in string")
}

fn encode_string(s: &str, dst: &mut BytesMut)
    ensures
        bytes_mut_data(*final(dst)) == bytes_mut_data(*old(dst)) + string_wire(s@),
{
    write_string(s, dst)
}

pub proof fn lemma_string_field(c: Seq<char>, rest: Seq<u8>)
    requires
        string_fits(c),
    ensures
        string_spec(string_wire(c) + rest) == (Ok::<Seq<char>, ErrorView>(c), rest),
{
    lemma_fixed_str_roundtrip(c, rest, "Missing bytes for string"@, "Invalid UTF-8 in string"@);
}

/// What `decode_byte_array` reads: a VarInt count, then that many bytes.
pub open spec fn byte_array_spec(s: Seq<u8>) -> Parsed<Seq<u8>> {
    then(
        VarInt::spec_decode(s),
        |v: VarInt, t: Seq<u8>|
            {
                let n = v.0 as usize;
                if t.len() < n {
                    (Err(ErrorView::Io(IoErrorKind::UnexpectedEof, "Missing bytes for byte array"@)), t)
                } else {
                    (Ok(t.take(n as int)), t.skip(n as int))
                }
            },
    )
}

/// The bytes of a byte array: its VarInt length, then the bytes.
pub open spec fn byte_array_wire(b: Seq<u8>) -> Seq<u8> {
    VarInt::spec_encode(VarInt(b.len() as i32)) + b
}

fn decode_byte_array(src: &mut Bytes) -> (r: Result<Vec<u8>, ProtocolError>)
    requires
        !panics(byte_array_spec(bytes_data(*old(src)))),
    ensures
        byte_array_spec(bytes_data(*old(src))) == (result_view(r), bytes_data(*final(src))),
{
    let len = VarInt::decode(src)?.0 as usize;
    if remaining(src) < len {
        return Err(io_error(IoErrorKind::UnexpectedEof, "Missing bytes for byte array"));
    }
    let mut buf = vec![0u8; len];
    copy_to_slice(src, &mut buf);
    Ok(buf)
}

fn encode_byte_array(data: &[u8], dst: &mut BytesMut)
    ensures
        bytes_mut_data(*final(dst)) == bytes_mut_data(*old(dst)) + byte_array_wire(data@),
{
    let _ = VarInt(data.len() as i32).encode(dst);
    put_slice(dst, data);
    assert(bytes_mut_data(*dst) =~= bytes_mut_data(*old(dst)) + byte_array_wire(data@));
}

pub proof fn lemma_byte_array_roundtrip(b: Seq<u8>, rest: Seq<u8>)
    requires
        b.len() <= i32::MAX,
    ensures
        byte_array_spec(byte_array_wire(b) + rest) == (Ok::<Seq<u8>, ErrorView>(b), rest),
{
    let len = VarInt(b.len() as i32);
    let t = b + rest;
    assert(byte_array_wire(b) + rest =~= VarInt::spec_encode(len) + t);
    VarInt::lemma_roundtrip(len, t);
    assert(t.take(b.len() as int) =~= b);
    assert(t.skip(b.len() as int) =~= rest);
}


// ── ServerboundLoginStart ─────────────────────────────────────────────

#[derive(Debug, Clone, PartialEq)]
pub struct ServerboundLoginStart {
    pub username: String,
}

pub struct ServerboundLoginStartView {
    pub username: Seq<char>,
}

impl View for ServerboundLoginStart {
    type V = ServerboundLoginStartView;

    open spec fn view(&self) -> ServerboundLoginStartView {
        ServerboundLoginStartView {
            username: self.username@,
        }
    }
}

impl PacketId for ServerboundLoginStart {
    open spec fn spec_packet_id(ver: u32) -> u8 {
        0x00
    }

    fn packet_id(_ver: u32) -> (r: u8) {
        0x00
    }
}

impl WireFormat for ServerboundLoginStart {
    open spec fn spec_encode(p: ServerboundLoginStartView) -> Seq<u8> {
        string_wire(p.username)
    }

    open spec fn spec_decode(s: Seq<u8>) -> Parsed<ServerboundLoginStartView> {
        then(string_spec(s), |username: Seq<char>, s: Seq<u8>| (Ok(ServerboundLoginStartView { username }), s))
    }
}

impl Roundtrip for ServerboundLoginStart {
    open spec fn encodable(p: ServerboundLoginStartView) -> bool {
        string_fits(p.username)
    }

    open spec fn reads_to_end() -> bool {
        false
    }

    proof fn lemma_roundtrip(p: ServerboundLoginStartView, rest: Seq<u8>) {
        broadcast use group_wire_roundtrip;

        lemma_string_field(p.username, rest);
    }
}

impl Encode for ServerboundLoginStart {
    fn encode(&self, dst: &mut BytesMut) -> (r: Result<(), ProtocolError>) {
        let ghost d0 = bytes_mut_data(*dst);
        encode_string(self.username.as_str(), dst);
        let ghost mut e: Seq<u8> = string_wire(self@.username);
        Ok(())
    }
}

impl Decode for ServerboundLoginStart {
    fn decode(src: &mut Bytes) -> (r: Result<Self, ProtocolError>) {
        let username = decode_string(src)?;
        Ok(Self { username })
    }
}

// ── ClientboundLoginDisconnect ────────────────────────────────────────

#[derive(Debug, Clone, PartialEq)]
pub struct ClientboundLoginDisconnect {
    pub reason: String,
}

pub struct ClientboundLoginDisconnectView {
    pub reason: Seq<char>,
}

impl View for ClientboundLoginDisconnect {
    type V = ClientboundLoginDisconnectView;

    open spec fn view(&self) -> ClientboundLoginDisconnectView {
        ClientboundLoginDisconnectView {
            reason: self.reason@,
        }
    }
}

impl PacketId for ClientboundLoginDisconnect {
    open spec fn spec_packet_id(ver: u32) -> u8 {
        0x00
    }

    fn packet_id(_ver: u32) -> (r: u8) {
        0x00
    }
}

impl WireFormat for ClientboundLoginDisconnect {
    open spec fn spec_encode(p: ClientboundLoginDisconnectView) -> Seq<u8> {
        string_wire(p.reason)
    }

    open spec fn spec_decode(s: Seq<u8>) -> Parsed<ClientboundLoginDisconnectView> {
        then(string_spec(s), |reason: Seq<char>, s: Seq<u8>| (Ok(ClientboundLoginDisconnectView { reason }), s))
    }
}

impl Roundtrip for ClientboundLoginDisconnect {
    open spec fn encodable(p: ClientboundLoginDisconnectView) -> bool {
        string_fits(p.reason)
    }

    open spec fn reads_to_end() -> bool {
        false
    }

    proof fn lemma_roundtrip(p: ClientboundLoginDisconnectView, rest: Seq<u8>) {
        broadcast use group_wire_roundtrip;

        lemma_string_field(p.reason, rest);
    }
}

impl Encode for ClientboundLoginDisconnect {
    fn encode(&self, dst: &mut BytesMut) -> (r: Result<(), ProtocolError>) {
        let ghost d0 = bytes_mut_data(*dst);
        encode_string(self.reason.as_str(), dst);
        let ghost mut e: Seq<u8> = string_wire(self@.reason);
        Ok(())
    }
}

impl Decode for ClientboundLoginDisconnect {
    fn decode(src: &mut Bytes) -> (r: Result<Self, ProtocolError>) {
        let reason = decode_string(src)?;
        Ok(Self { reason })
    }
}

// ── ClientboundEncryptionRequest ──────────────────────────────────────

#[derive(Debug, Clone, PartialEq)]
pub struct ClientboundEncryptionRequest {
    pub server_id: String,
    pub public_key: Vec<u8>,
    pub verify_token: Vec<u8>,
    pub should_authenticate: bool,
}

pub struct ClientboundEncryptionRequestView {
    pub server_id: Seq<char>,
    pub public_key: Seq<u8>,
    pub verify_token: Seq<u8>,
    pub should_authenticate: bool,
}

impl View for ClientboundEncryptionRequest {
    type V = ClientboundEncryptionRequestView;

    open spec fn view(&self) -> ClientboundEncryptionRequestView {
        ClientboundEncryptionRequestView {
            server_id: self.server_id@,
            public_key: self.public_key@,
            verify_token: self.verify_token@,
            should_authenticate: self.should_authenticate,
        }
    }
}

impl PacketId for ClientboundEncryptionRequest {
    open spec fn spec_packet_id(ver: u32) -> u8 {
        0x01
    }

    fn packet_id(_ver: u32) -> (r: u8) {
        0x01
    }
}

impl WireFormat for ClientboundEncryptionRequest {
    open spec fn spec_encode(p: ClientboundEncryptionRequestView) -> Seq<u8> {
        string_wire(p.server_id) + byte_array_wire(p.public_key) + byte_array_wire(p.verify_token) + seq![bool_byte(p.should_authenticate)]
    }

    open spec fn spec_decode(s: Seq<u8>) -> Parsed<ClientboundEncryptionRequestView> {
        then(string_spec(s), |server_id: Seq<char>, s: Seq<u8>| then(byte_array_spec(s), |public_key: Seq<u8>, s: Seq<u8>| then(byte_array_spec(s), |verify_token: Seq<u8>, s: Seq<u8>| then(take_bool(s), |should_authenticate: bool, s: Seq<u8>| (Ok(ClientboundEncryptionRequestView { server_id, public_key, verify_token, should_authenticate }), s)))))
    }
}

impl Roundtrip for ClientboundEncryptionRequest {
    open spec fn encodable(p: ClientboundEncryptionRequestView) -> bool {
        string_fits(p.server_id) && p.public_key.len() <= i32::MAX && p.verify_token.len() <= i32::MAX
    }

    open spec fn reads_to_end() -> bool {
        false
    }

    proof fn lemma_roundtrip(p: ClientboundEncryptionRequestView, rest: Seq<u8>) {
        broadcast use group_wire_roundtrip;

        let t3 = seq![bool_byte(p.should_authenticate)] + rest;
        let t2 = byte_array_wire(p.verify_token) + t3;
        let t1 = byte_array_wire(p.public_key) + t2;
        lemma_concat_associative(string_wire(p.server_id) + byte_array_wire(p.public_key) + byte_array_wire(p.verify_token), seq![bool_byte(p.should_authenticate)], rest);
        lemma_concat_associative(string_wire(p.server_id) + byte_array_wire(p.public_key), byte_array_wire(p.verify_token), t3);
        lemma_concat_associative(string_wire(p.server_id), byte_array_wire(p.public_key), t2);
        lemma_string_field(p.server_id, t1);
        lemma_byte_array_roundtrip(p.public_key, t2);
        lemma_byte_array_roundtrip(p.verify_token, t3);
    }
}

impl Encode for ClientboundEncryptionRequest {
    fn encode(&self, dst: &mut BytesMut) -> (r: Result<(), ProtocolError>) {
        let ghost d0 = bytes_mut_data(*dst);
        encode_string(self.server_id.as_str(), dst);
        let ghost mut e: Seq<u8> = string_wire(self@.server_id);
        encode_byte_array(self.public_key.as_slice(), dst);
        proof {
            lemma_concat_associative(d0, e, byte_array_wire(self@.public_key));
            e = e + byte_array_wire(self@.public_key);
        }
        encode_byte_array(self.verify_token.as_slice(), dst);
        proof {
            lemma_concat_associative(d0, e, byte_array_wire(self@.verify_token));
            e = e + byte_array_wire(self@.verify_token);
        }
        put_u8(dst, self.should_authenticate as u8);
        proof {
            lemma_concat_associative(d0, e, seq![bool_byte(self@.should_authenticate)]);
            e = e + seq![bool_byte(self@.should_authenticate)];
        }
        Ok(())
    }
}

impl Decode for ClientboundEncryptionRequest {
    fn decode(src: &mut Bytes) -> (r: Result<Self, ProtocolError>) {
        let server_id = decode_string(src)?;
        let public_key = decode_byte_array(src)?;
        let verify_token = decode_byte_array(src)?;
        let should_authenticate = get_u8(src) != 0;
        Ok(Self { server_id, public_key, verify_token, should_authenticate })
    }
}

// ── ClientboundSetCompression ─────────────────────────────────────────

#[derive(Debug, Clone, PartialEq)]
pub struct ClientboundSetCompression {
    pub threshold: VarInt,
}

impl View for ClientboundSetCompression {
    type V = ClientboundSetCompression;

    open spec fn view(&self) -> ClientboundSetCompression {
        *self
    }
}

impl PacketId for ClientboundSetCompression {
    open spec fn spec_packet_id(ver: u32) -> u8 {
        0x03
    }

    fn packet_id(_ver: u32) -> (r: u8) {
        0x03
    }
}

impl WireFormat for ClientboundSetCompression {
    open spec fn spec_encode(p: ClientboundSetCompression) -> Seq<u8> {
        VarInt::spec_encode(p.threshold)
    }

    open spec fn spec_decode(s: Seq<u8>) -> Parsed<ClientboundSetCompression> {
        then(VarInt::spec_decode(s), |threshold: VarInt, s: Seq<u8>| (Ok(ClientboundSetCompression { threshold }), s))
    }
}

impl Roundtrip for ClientboundSetCompression {
    open spec fn encodable(p: ClientboundSetCompression) -> bool {
        true
    }

    open spec fn reads_to_end() -> bool {
        false
    }

    proof fn lemma_roundtrip(p: ClientboundSetCompression, rest: Seq<u8>) {
        broadcast use group_wire_roundtrip;

        VarInt::lemma_roundtrip(p.threshold, rest);
    }
}

impl Encode for ClientboundSetCompression {
    fn encode(&self, dst: &mut BytesMut) -> (r: Result<(), ProtocolError>) {
        let ghost d0 = bytes_mut_data(*dst);
        let _ = self.threshold.encode(dst);
        let ghost mut e: Seq<u8> = VarInt::spec_encode(self@.threshold);
        Ok(())
    }
}

impl Decode for ClientboundSetCompression {
    fn decode(src: &mut Bytes) -> (r: Result<Self, ProtocolError>) {
        let threshold = VarInt::decode(src)?;
        Ok(Self { threshold })
    }
}

// ── ServerboundEncryptionResponse ─────────────────────────────────────

#[derive(Debug, Clone, PartialEq)]
pub struct ServerboundEncryptionResponse {
    pub shared_secret: Vec<u8>,
    pub verify_token: Vec<u8>,
}

pub struct ServerboundEncryptionResponseView {
    pub shared_secret: Seq<u8>,
    pub verify_token: Seq<u8>,
}

impl View for ServerboundEncryptionResponse {
    type V = ServerboundEncryptionResponseView;

    open spec fn view(&self) -> ServerboundEncryptionResponseView {
        ServerboundEncryptionResponseView {
            shared_secret: self.shared_secret@,
            verify_token: self.verify_token@,
        }
    }
}

impl PacketId for ServerboundEncryptionResponse {
    open spec fn spec_packet_id(ver: u32) -> u8 {
        0x01
    }

    fn packet_id(_ver: u32) -> (r: u8) {
        0x01
    }
}

impl WireFormat for ServerboundEncryptionResponse {
    open spec fn spec_encode(p: ServerboundEncryptionResponseView) -> Seq<u8> {
        byte_array_wire(p.shared_secret) + byte_array_wire(p.verify_token)
    }

    open spec fn spec_decode(s: Seq<u8>) -> Parsed<ServerboundEncryptionResponseView> {
        then(byte_array_spec(s), |shared_secret: Seq<u8>, s: Seq<u8>| then(byte_array_spec(s), |verify_token: Seq<u8>, s: Seq<u8>| (Ok(ServerboundEncryptionResponseView { shared_secret, verify_token }), s)))
    }
}

impl Roundtrip for ServerboundEncryptionResponse {
    open spec fn encodable(p: ServerboundEncryptionResponseView) -> bool {
        p.shared_secret.len() <= i32::MAX && p.verify_token.len() <= i32::MAX
    }

    open spec fn reads_to_end() -> bool {
        false
    }

    proof fn lemma_roundtrip(p: ServerboundEncryptionResponseView, rest: Seq<u8>) {
        broadcast use group_wire_roundtrip;

        let t1 = byte_array_wire(p.verify_token) + rest;
        lemma_concat_associative(byte_array_wire(p.shared_secret), byte_array_wire(p.verify_token), rest);
        lemma_byte_array_roundtrip(p.shared_secret, t1);
        lemma_byte_array_roundtrip(p.verify_token, rest);
    }
}

impl Encode for ServerboundEncryptionResponse {
    fn encode(&self, dst: &mut BytesMut) -> (r: Result<(), ProtocolError>) {
        let ghost d0 = bytes_mut_data(*dst);
        encode_byte_array(self.shared_secret.as_slice(), dst);
        let ghost mut e: Seq<u8> = byte_array_wire(self@.shared_secret);
        encode_byte_array(self.verify_token.as_slice(), dst);
        proof {
            lemma_concat_associative(d0, e, byte_array_wire(self@.verify_token));
            e = e + byte_array_wire(self@.verify_token);
        }
        Ok(())
    }
}

impl Decode for ServerboundEncryptionResponse {
    fn decode(src: &mut Bytes) -> (r: Result<Self, ProtocolError>) {
        let shared_secret = decode_byte_array(src)?;
        let verify_token = decode_byte_array(src)?;
        Ok(Self { shared_secret, verify_token })
    }
}

// ── ProfileProperty ──────────────────────────────────────────────────

/// A property of the player's profile (a skin texture, for example).
#[derive(Debug, Clone, PartialEq)]
pub struct ProfileProperty {
    pub name: String,
    pub value: String,
    pub signature: Option<String>,
}

pub struct ProfilePropertyView {
    pub name: Seq<char>,
    pub value: Seq<char>,
    pub signature: Option<Seq<char>>,
}

impl View for ProfileProperty {
    type V = ProfilePropertyView;

    open spec fn view(&self) -> ProfilePropertyView {
        ProfilePropertyView {
            name: self.name@,
            value: self.value@,
            signature: match self.signature {
                Some(s) => Some(s@),
                None => None,
            },
        }
    }
}

/// The bytes of an optional signature: a flag byte, then the string.
pub open spec fn signature_wire(sig: Option<Seq<char>>) -> Seq<u8> {
    match sig {
        Some(s) => seq![1u8] + string_wire(s),
        None => seq![0u8],
    }
}

impl WireFormat for ProfileProperty {
    open spec fn spec_encode(p: ProfilePropertyView) -> Seq<u8> {
        string_wire(p.name) + string_wire(p.value) + signature_wire(p.signature)
    }

    open spec fn spec_decode(s: Seq<u8>) -> Parsed<ProfilePropertyView> {
        then(
            string_spec(s),
            |name: Seq<char>, s: Seq<u8>|
                then(
                    string_spec(s),
                    |value: Seq<char>, s: Seq<u8>|
                        then(
                            need_msg_spec(s, 1, "Missing boolean flag for ProfileProperty signature"@),
                            |_u: (), s: Seq<u8>|
                                then(
                                    take_u8(s),
                                    |flag: u8, s: Seq<u8>|
                                        if flag != 0 {
                                            then(
                                                string_spec(s),
                                                |sig: Seq<char>, s: Seq<u8>|
                                                    (Ok(ProfilePropertyView { name, value, signature: Some(sig) }), s),
                                            )
                                        } else {
                                            (Ok(ProfilePropertyView { name, value, signature: None }), s)
                                        },
                                ),
                        ),
                ),
        )
    }
}

/// The strings of a property fit their length prefixes.
pub open spec fn profile_property_fits(p: ProfilePropertyView) -> bool {
    &&& string_fits(p.name)
    &&& string_fits(p.value)
    &&& (p.signature matches Some(s) ==> string_fits(s))
}

impl Roundtrip for ProfileProperty {
    open spec fn encodable(p: ProfilePropertyView) -> bool {
        profile_property_fits(p)
    }

    open spec fn reads_to_end() -> bool {
        false
    }

    proof fn lemma_roundtrip(p: ProfilePropertyView, rest: Seq<u8>) {
        broadcast use group_wire_roundtrip;

        let e0 = string_wire(p.name);
        let e1 = string_wire(p.value);
        let e2 = signature_wire(p.signature);
        let t2 = e2 + rest;
        let t1 = e1 + t2;
        lemma_concat_associative(e0 + e1, e2, rest);
        lemma_concat_associative(e0, e1, t2);
        lemma_string_field(p.name, t1);
        lemma_string_field(p.value, t2);
        match p.signature {
            Some(sig) => {
                lemma_concat_associative(seq![1u8], string_wire(sig), rest);
                lemma_string_field(sig, rest);
            },
            None => {},
        }
    }
}

impl Encode for ProfileProperty {
    fn encode(&self, dst: &mut BytesMut) -> (r: Result<(), ProtocolError>) {
        let ghost d0 = bytes_mut_data(*dst);
        encode_string(self.name.as_str(), dst);
        encode_string(self.value.as_str(), dst);
        let ghost d2 = bytes_mut_data(*dst);
        match &self.signature {
            Some(sig) => {
                put_u8(dst, 1);
                encode_string(sig.as_str(), dst);
                proof {
                    lemma_concat_associative(d2, seq![1u8], string_wire(sig@));
                }
            },
            None => {
                put_u8(dst, 0);
            },
        }
        proof {
            lemma_concat_associative(d0, string_wire(self.name@), string_wire(self.value@));
            lemma_concat_associative(
                d0,
                string_wire(self.name@) + string_wire(self.value@),
                signature_wire(self@.signature),
            );
        }
        Ok(())
    }
}

impl Decode for ProfileProperty {
    fn decode(src: &mut Bytes) -> (r: Result<Self, ProtocolError>) {
        let name = decode_string(src)?;
        let value = decode_string(src)?;
        need_msg(src, 1, "Missing boolean flag for ProfileProperty signature")?;
        let signature = if get_u8(src) != 0 {
            Some(decode_string(src)?)
        } else {
            None
        };
        Ok(Self { name, value, signature })
    }
}

// ── ClientboundLoginSuccess ──────────────────────────────────────────

pub open spec fn property_item() -> spec_fn(Seq<u8>) -> Parsed<ProfilePropertyView> {
    |t: Seq<u8>| ProfileProperty::spec_decode(t)
}

pub open spec fn property_piece() -> spec_fn(ProfilePropertyView) -> Seq<u8> {
    |p: ProfilePropertyView| ProfileProperty::spec_encode(p)
}

/// The view of each property in turn.
pub open spec fn properties_view(v: Seq<ProfileProperty>) -> Seq<ProfilePropertyView> {
    v.map_values(|p: ProfileProperty| p@)
}

#[derive(Debug, Clone, PartialEq)]
pub struct ClientboundLoginSuccess {
    /// The UUID as its 128-bit value (`uuid::Uuid::as_u128`).
    pub uuid: u128,
    pub username: String,
    pub properties: Vec<ProfileProperty>,
}

pub struct ClientboundLoginSuccessView {
    pub uuid: u128,
    pub username: Seq<char>,
    pub properties: Seq<ProfilePropertyView>,
}

impl View for ClientboundLoginSuccess {
    type V = ClientboundLoginSuccessView;

    open spec fn view(&self) -> ClientboundLoginSuccessView {
        ClientboundLoginSuccessView {
            uuid: self.uuid,
            username: self.username@,
            properties: properties_view(self.properties@),
        }
    }
}

impl PacketId for ClientboundLoginSuccess {
    open spec fn spec_packet_id(ver: u32) -> u8 {
        0x02
    }

    fn packet_id(_ver: u32) -> (r: u8) {
        0x02
    }
}

/// A VarInt count, then that many properties. A negative count asks for an
/// allocation that cannot be made.
pub open spec fn properties_spec(s: Seq<u8>) -> Parsed<Seq<ProfilePropertyView>> {
    then(
        take_varint_i32(s),
        |c: i32, s: Seq<u8>|
            if c < 0 {
                (Err(ErrorView::Panic), s)
            } else {
                read_n(s, c as nat, property_item())
            },
    )
}

/// The bytes of a property list: its VarInt count, then each property.
pub open spec fn properties_wire(ps: Seq<ProfilePropertyView>) -> Seq<u8> {
    VarInt::spec_encode(VarInt(ps.len() as i32)) + write_all(ps, property_piece())
}

impl WireFormat for ClientboundLoginSuccess {
    open spec fn spec_encode(p: ClientboundLoginSuccessView) -> Seq<u8> {
        uuid_wire(p.uuid) + string_wire(p.username) + properties_wire(p.properties)
    }

    open spec fn spec_decode(s: Seq<u8>) -> Parsed<ClientboundLoginSuccessView> {
        then(
            need_msg_spec(s, 16, "Missing bytes for ClientboundLoginSuccess uuid"@),
            |_u: (), s: Seq<u8>|
                then(
                    take_uuid(s),
                    |uuid: u128, s: Seq<u8>|
                        then(
                            string_spec(s),
                            |username: Seq<char>, s: Seq<u8>|
                                then(
                                    properties_spec(s),
                                    |properties: Seq<ProfilePropertyView>, s: Seq<u8>|
                                        (Ok(ClientboundLoginSuccessView { uuid, username, properties }), s),
                                ),
                        ),
                ),
        )
    }
}

fn decode_properties(src: &mut Bytes) -> (r: Result<Vec<ProfileProperty>, ProtocolError>)
    requires
        !panics(properties_spec(bytes_data(*old(src)))),
    ensures
        properties_spec(bytes_data(*old(src))) == (
            match r {
                Ok(v) => Ok(properties_view(v@)),
                Err(e) => Err(e@),
            },
            bytes_data(*final(src)),
        ),
{
    let c = VarInt::decode(src)?.0;
    let ghost s1 = bytes_data(*src);
    let count = c as usize;
    let mut items: Vec<ProfileProperty> = Vec::new();
    let mut i: usize = 0;
    assert(properties_view(items@) =~= Seq::<ProfilePropertyView>::empty());
    while i < count
        invariant
            0 <= c,
            count == c as usize,
            i <= count,
            !panics(read_n(s1, count as nat, property_item())),
            read_n(s1, i as nat, property_item()) == (
                Ok::<Seq<ProfilePropertyView>, ErrorView>(properties_view(items@)),
                bytes_data(*src),
            ),
            properties_spec(bytes_data(*old(src))) == read_n(s1, count as nat, property_item()),
        decreases count - i,
    {
        proof {
            if panics(ProfileProperty::spec_decode(bytes_data(*src))) {
                lemma_read_n_err(s1, (i + 1) as nat, count as nat, property_item());
            }
        }
        let x = match ProfileProperty::decode(src) {
            Ok(x) => x,
            Err(e) => {
                proof {
                    lemma_read_n_err(s1, (i + 1) as nat, count as nat, property_item());
                }
                return Err(e);
            },
        };
        let ghost before = items@;
        items.push(x);
        assert(properties_view(items@) =~= properties_view(before).push(x@));
        i += 1;
    }
    Ok(items)
}

fn encode_properties(v: &Vec<ProfileProperty>, dst: &mut BytesMut)
    ensures
        bytes_mut_data(*final(dst)) == bytes_mut_data(*old(dst)) + properties_wire(properties_view(v@)),
{
    let _ = VarInt(v.len() as i32).encode(dst);
    let ghost d0 = bytes_mut_data(*dst);
    let ghost xs = properties_view(v@);
    let mut i: usize = 0;
    assert(xs.take(0) =~= Seq::<ProfilePropertyView>::empty());
    assert(d0 + write_all(xs.take(0), property_piece()) =~= d0);
    while i < v.len()
        invariant
            xs == properties_view(v@),
            i <= v.len(),
            bytes_mut_data(*dst) == d0 + write_all(xs.take(i as int), property_piece()),
        decreases v.len() - i,
    {
        let _ = v[i].encode(dst);
        assert(xs.take(i as int + 1).drop_last() =~= xs.take(i as int));
        assert(bytes_mut_data(*dst) =~= d0 + write_all(xs.take(i as int + 1), property_piece()));
        i += 1;
    }
    assert(xs.take(v.len() as int) =~= xs);
    assert(bytes_mut_data(*dst) =~= bytes_mut_data(*old(dst)) + properties_wire(xs));
}

/// Reading the bytes of a property list gives it back.
pub proof fn lemma_properties_roundtrip(ps: Seq<ProfilePropertyView>, rest: Seq<u8>)
    requires
        ps.len() <= i32::MAX,
        forall|i: int| 0 <= i < ps.len() ==> profile_property_fits(#[trigger] ps[i]),
    ensures
        properties_spec(properties_wire(ps) + rest) == (Ok::<Seq<ProfilePropertyView>, ErrorView>(ps), rest),
{
    let body = write_all(ps, property_piece()) + rest;
    assert(properties_wire(ps) + rest =~= VarInt::spec_encode(VarInt(ps.len() as i32)) + body);
    VarInt::lemma_roundtrip(VarInt(ps.len() as i32), body);
    assert forall|x: ProfilePropertyView, r: Seq<u8>| profile_property_fits(x) implies #[trigger] property_item()(
        property_piece()(x) + r,
    ) == (Ok::<ProfilePropertyView, ErrorView>(x), r) by {
        ProfileProperty::lemma_roundtrip(x, r);
    }
    lemma_read_write_n(ps, rest, property_item(), property_piece(), |x: ProfilePropertyView| profile_property_fits(x));
}

impl Roundtrip for ClientboundLoginSuccess {
    open spec fn encodable(p: ClientboundLoginSuccessView) -> bool {
        &&& string_fits(p.username)
        &&& p.properties.len() <= i32::MAX
        &&& forall|i: int| 0 <= i < p.properties.len() ==> profile_property_fits(#[trigger] p.properties[i])
    }

    open spec fn reads_to_end() -> bool {
        false
    }

    proof fn lemma_roundtrip(p: ClientboundLoginSuccessView, rest: Seq<u8>) {
        let e0 = uuid_wire(p.uuid);
        let e1 = string_wire(p.username);
        let e2 = properties_wire(p.properties);
        let t2 = e2 + rest;
        let t1 = e1 + t2;
        lemma_concat_associative(e0 + e1, e2, rest);
        lemma_concat_associative(e0, e1, t2);
        lemma_take_uuid(p.uuid, t1);
        lemma_string_field(p.username, t2);
        lemma_properties_roundtrip(p.properties, rest);
    }
}

impl Encode for ClientboundLoginSuccess {
    fn encode(&self, dst: &mut BytesMut) -> (r: Result<(), ProtocolError>) {
        let ghost d0 = bytes_mut_data(*dst);
        put_uuid(dst, self.uuid);
        encode_string(self.username.as_str(), dst);
        encode_properties(&self.properties, dst);
        proof {
            lemma_concat_associative(d0, uuid_wire(self.uuid), string_wire(self.username@));
            lemma_concat_associative(
                d0,
                uuid_wire(self.uuid) + string_wire(self.username@),
                properties_wire(properties_view(self.properties@)),
            );
        }
        Ok(())
    }
}

impl Decode for ClientboundLoginSuccess {
    fn decode(src: &mut Bytes) -> (r: Result<Self, ProtocolError>) {
        need_msg(src, 16, "Missing bytes for ClientboundLoginSuccess uuid")?;
        let uuid = get_uuid(src);
        let username = decode_string(src)?;
        let properties = decode_properties(src)?;
        Ok(Self { uuid, username, properties })
    }
}


} // verus!
