//! Pre-netty (1.6) status packets.
use crate::buffer::{
    bytes_data, bytes_mut_data, copy_to_bytes, bytes_to_vec, get_i16, get_i32, get_i64, get_i8, get_u16, get_u32, get_u64, get_u8, put_i16,
    put_i32, put_i64, put_i8, put_slice, put_u16, put_u32, put_u64, put_u8, remaining, freeze, bytes_mut_new,
};
use crate::codec::{result_view, Decode, Encode, PacketId, Roundtrip, WireFormat};
use crate::error::{io_error, ErrorView, IoErrorKind, ProtocolError};
use crate::text::{decimal, decimal_string, legacy_motd_line};
use crate::versions::fields::{need_eof, need_eof_spec};
use crate::versions::v1_6_x::ucs2::{
    legacy_string_fits, legacy_string_read, legacy_string_wire, lemma_legacy_string_roundtrip,
    read_legacy_string, write_legacy_string,
};
use crate::wire::{
    be_i16_bytes, be_i32_bytes, be_i64_bytes, be_u16_bytes, be_u32_bytes, be_u64_bytes, bool_byte,
    group_wire_roundtrip, panics, take_bool, take_i16, take_i32, take_i64, take_i8, take_u16, take_u32, take_u64,
    take_u8, then, Parsed,
};
use bytes::{Bytes, BytesMut};
use vstd::prelude::*;
use vstd::seq_lib::lemma_concat_associative;

verus! {

/// What `decode_legacy_string` reads in this module: a pre-netty string
/// whose units, when they are not UTF-16, give `UnexpectedEof`.
pub open spec fn legacy_str_spec(s: Seq<u8>) -> Parsed<Seq<char>> {
    legacy_string_read(s, ErrorView::UnexpectedEof)
}

fn decode_legacy_string(src: &mut Bytes) -> (r: Result<String, ProtocolError>)
    ensures
        legacy_str_spec(bytes_data(*old(src))) == (result_view(r), bytes_data(*final(src))),
{
    match read_legacy_string(src)? {
        Some(s) => Ok(s),
        None => Err(ProtocolError::UnexpectedEof),
    }
}

pub proof fn lemma_legacy_str_field(c: Seq<char>, rest: Seq<u8>)
    requires
        legacy_string_fits(c),
    ensures
        legacy_str_spec(legacy_string_wire(c) + rest) == (Ok::<Seq<char>, ErrorView>(c), rest),
{
    lemma_legacy_string_roundtrip(c, rest, ErrorView::UnexpectedEof);
}

// ── ServerboundLegacyPing ─────────────────────────────────────────────

/// The legacy 0xFE server-list ping of pre-1.7 clients: the id byte alone.
#[derive(Debug, Clone, PartialEq)]
pub struct ServerboundLegacyPing;

impl View for ServerboundLegacyPing {
    type V = ServerboundLegacyPing;

    open spec fn view(&self) -> ServerboundLegacyPing {
        *self
    }
}

impl PacketId for ServerboundLegacyPing {
    open spec fn spec_packet_id(ver: u32) -> u8 {
        0xFE
    }

    fn packet_id(_ver: u32) -> (r: u8) {
        0xFE
    }
}

impl WireFormat for ServerboundLegacyPing {
    open spec fn spec_encode(p: ServerboundLegacyPing) -> Seq<u8> {
        Seq::<u8>::empty()
    }

    open spec fn spec_decode(s: Seq<u8>) -> Parsed<ServerboundLegacyPing> {
        (Ok(ServerboundLegacyPing), s)
    }
}

impl Roundtrip for ServerboundLegacyPing {
    open spec fn encodable(p: ServerboundLegacyPing) -> bool {
        true
    }

    open spec fn reads_to_end() -> bool {
        false
    }

    proof fn lemma_roundtrip(p: ServerboundLegacyPing, rest: Seq<u8>) {
        broadcast use group_wire_roundtrip;

    }
}

impl Encode for ServerboundLegacyPing {
    fn encode(&self, dst: &mut BytesMut) -> (r: Result<(), ProtocolError>) {
        assert(bytes_mut_data(*dst) =~= bytes_mut_data(*old(dst)) + Self::spec_encode(self@));
        Ok(())
    }
}

impl Decode for ServerboundLegacyPing {
    fn decode(_src: &mut Bytes) -> (r: Result<Self, ProtocolError>) {
        Ok(ServerboundLegacyPing)
    }
}

// ── ClientboundResponse ───────────────────────────────────────────────

#[derive(Debug, Clone, PartialEq)]
pub struct ClientboundResponse {
    pub response: String,
}

pub struct ClientboundResponseView {
    pub response: Seq<char>,
}

impl View for ClientboundResponse {
    type V = ClientboundResponseView;

    open spec fn view(&self) -> ClientboundResponseView {
        ClientboundResponseView {
            response: self.response@,
        }
    }
}

impl PacketId for ClientboundResponse {
    open spec fn spec_packet_id(ver: u32) -> u8 {
        0x00
    }

    fn packet_id(_ver: u32) -> (r: u8) {
        0x00
    }
}

impl WireFormat for ClientboundResponse {
    open spec fn spec_encode(p: ClientboundResponseView) -> Seq<u8> {
        legacy_string_wire(p.response)
    }

    open spec fn spec_decode(s: Seq<u8>) -> Parsed<ClientboundResponseView> {
        then(legacy_str_spec(s), |response: Seq<char>, s: Seq<u8>| (Ok(ClientboundResponseView { response }), s))
    }
}

impl Roundtrip for ClientboundResponse {
    open spec fn encodable(p: ClientboundResponseView) -> bool {
        legacy_string_fits(p.response)
    }

    open spec fn reads_to_end() -> bool {
        false
    }

    proof fn lemma_roundtrip(p: ClientboundResponseView, rest: Seq<u8>) {
        broadcast use group_wire_roundtrip;

        lemma_legacy_str_field(p.response, rest);
    }
}

impl Encode for ClientboundResponse {
    fn encode(&self, dst: &mut BytesMut) -> (r: Result<(), ProtocolError>) {
        let ghost d0 = bytes_mut_data(*dst);
        write_legacy_string(self.response.as_str(), dst);
        let ghost mut e: Seq<u8> = legacy_string_wire(self@.response);
        Ok(())
    }
}

impl Decode for ClientboundResponse {
    fn decode(src: &mut Bytes) -> (r: Result<Self, ProtocolError>) {
        let response = decode_legacy_string(src)?;
        Ok(Self { response })
    }
}

// ── ClientboundLegacyMotd ────────────────────────────────────────────

/// The legacy answer to the 0xFE ping:
/// `§1\0<protocol>\0<version>\0<motd>\0<players>\0<max_players>`.
#[derive(Debug, Clone, PartialEq)]
pub struct ClientboundLegacyMotd {
    pub protocol: String,
    pub version: String,
    pub motd: String,
    pub players: String,
    pub max_players: String,
}

pub struct ClientboundLegacyMotdView {
    pub protocol: Seq<char>,
    pub version: Seq<char>,
    pub motd: Seq<char>,
    pub players: Seq<char>,
    pub max_players: Seq<char>,
}

impl View for ClientboundLegacyMotd {
    type V = ClientboundLegacyMotdView;

    open spec fn view(&self) -> ClientboundLegacyMotdView {
        ClientboundLegacyMotdView {
            protocol: self.protocol@,
            version: self.version@,
            motd: self.motd@,
            players: self.players@,
            max_players: self.max_players@,
        }
    }
}

/// The text that the legacy answer carries.
pub open spec fn legacy_motd_text(m: ClientboundLegacyMotdView) -> Seq<char> {
    "\u{a7}1\0"@ + m.protocol + "\0"@ + m.version + "\0"@ + m.motd + "\0"@ + m.players + "\0"@ + m.max_players
}

/// What `serde_json` finds in `json`, read as a JSON document, at the JSON
/// Pointer `pointer`, when that is a string.
pub uninterp spec fn json_string_at_spec(json: Seq<char>, pointer: Seq<char>) -> Option<Seq<char>>;

/// What `serde_json` finds in `json`, read as a JSON document, at the JSON
/// Pointer `pointer`, when that is a number that fits a `u64`.
pub uninterp spec fn json_u64_at_spec(json: Seq<char>, pointer: Seq<char>) -> Option<u64>;

/// `serde_json::from_str::<Value>` on `json`, then `Value::pointer` and
/// `Value::as_str`: the string at `pointer`, or `None` where `json` is no
/// JSON document or holds no string there. The contract only names the
/// result as a function of the two texts; JSON's grammar is not restated.
#[verifier::external_body]
fn json_string_at(json: &str, pointer: &str) -> (r: Option<String>)
    ensures
        r matches Some(s) ==> json_string_at_spec(json@, pointer@) == Some(s@),
        r is None ==> json_string_at_spec(json@, pointer@) is None,
{
    let v: serde_json::Value = serde_json::from_str(json).ok()?;
    v.pointer(pointer).and_then(|x| x.as_str()).map(|x| x.to_string())
}

/// `serde_json::from_str::<Value>` on `json`, then `Value::pointer` and
/// `Value::as_u64`: the number at `pointer`, or `None` where `json` is no
/// JSON document or holds no `u64` there. The contract only names the
/// result as a function of the two texts.
#[verifier::external_body]
fn json_u64_at(json: &str, pointer: &str) -> (r: Option<u64>)
    ensures
        r == json_u64_at_spec(json@, pointer@),
{
    let v: serde_json::Value = serde_json::from_str(json).ok()?;
    v.pointer(pointer).and_then(|x| x.as_u64())
}

/// The server description of a status document: `description` where it is a
/// string, else `description.text`.
pub open spec fn status_description(json: Seq<char>) -> Option<Seq<char>> {
    match json_string_at_spec(json, "/description"@) {
        Some(d) => Some(d),
        None => json_string_at_spec(json, "/description/text"@),
    }
}

/// The legacy answer built from the fields of a status document; each field
/// that is missing keeps the default of a fresh 1.6.4 server.
pub open spec fn motd_from_fields(
    description: Option<Seq<char>>,
    online: Option<u64>,
    max: Option<u64>,
) -> ClientboundLegacyMotdView {
    ClientboundLegacyMotdView {
        protocol: "78"@,
        version: "1.6.4"@,
        motd: match description {
            Some(d) => d,
            None => "A Minecraft Server"@,
        },
        players: match online {
            Some(n) => decimal(n as nat),
            None => "0"@,
        },
        max_players: match max {
            Some(n) => decimal(n as nat),
            None => "20"@,
        },
    }
}

impl ClientboundLegacyMotd {
    /// The answer for a 1.6.4 client (protocol 78, version "1.6.4") that
    /// carries what a modern status document says: its description, its
    /// online and maximum player counts. Where `json` is no JSON document or
    /// lacks a field, that field keeps its default ("A Minecraft Server", 0,
    /// 20).
    pub fn from_json(json: &str) -> (r: Self)
        ensures
            r@ == motd_from_fields(
                status_description(json@),
                json_u64_at_spec(json@, "/players/online"@),
                json_u64_at_spec(json@, "/players/max"@),
            ),
    {
        let description = match json_string_at(json, "/description") {
            Some(d) => Some(d),
            None => json_string_at(json, "/description/text"),
        };
        let online = json_u64_at(json, "/players/online");
        let max = json_u64_at(json, "/players/max");
        Self::from_status_fields(description, online, max)
    }

    /// The answer for a 1.6.4 client from the fields read out of a status
    /// document: `None` keeps a field's default.
    pub fn from_status_fields(description: Option<String>, online: Option<u64>, max: Option<u64>) -> (r: Self)
        ensures
            r@ == motd_from_fields(
                match description {
                    Some(d) => Some(d@),
                    None => None,
                },
                online,
                max,
            ),
    {
        let motd = match description {
            Some(d) => d,
            None => "A Minecraft Server".to_owned(),
        };
        let players = match online {
            Some(n) => decimal_string(n),
            None => "0".to_owned(),
        };
        let max_players = match max {
            Some(n) => decimal_string(n),
            None => "20".to_owned(),
        };
        Self { protocol: "78".to_owned(), version: "1.6.4".to_owned(), motd, players, max_players }
    }

    /// The 0xFF packet of pre-1.7 clients: the id byte, then the text as a
    /// pre-netty string.
    pub fn encode_legacy(&self) -> (r: Bytes)
        ensures
            bytes_data(r) == seq![0xFFu8] + legacy_string_wire(legacy_motd_text(self@)),
    {
        let mut dst = bytes_mut_new();
        put_u8(&mut dst, 0xFF);
        let text = legacy_motd_line(
            self.protocol.as_str(),
            self.version.as_str(),
            self.motd.as_str(),
            self.players.as_str(),
            self.max_players.as_str(),
        );
        write_legacy_string(text.as_str(), &mut dst);
        freeze(dst)
    }
}


// ── ClientboundPong ───────────────────────────────────────────────────

#[derive(Debug, Clone, PartialEq)]
pub struct ClientboundPong {
    pub payload: i64,
}

impl View for ClientboundPong {
    type V = ClientboundPong;

    open spec fn view(&self) -> ClientboundPong {
        *self
    }
}

impl PacketId for ClientboundPong {
    open spec fn spec_packet_id(ver: u32) -> u8 {
        0x01
    }

    fn packet_id(_ver: u32) -> (r: u8) {
        0x01
    }
}

impl WireFormat for ClientboundPong {
    open spec fn spec_encode(p: ClientboundPong) -> Seq<u8> {
        be_i64_bytes(p.payload)
    }

    open spec fn spec_decode(s: Seq<u8>) -> Parsed<ClientboundPong> {
        then(take_i64(s), |payload: i64, s: Seq<u8>| (Ok(ClientboundPong { payload }), s))
    }
}

impl Roundtrip for ClientboundPong {
    open spec fn encodable(p: ClientboundPong) -> bool {
        true
    }

    open spec fn reads_to_end() -> bool {
        false
    }

    proof fn lemma_roundtrip(p: ClientboundPong, rest: Seq<u8>) {
        broadcast use group_wire_roundtrip;

    }
}

impl Encode for ClientboundPong {
    fn encode(&self, dst: &mut BytesMut) -> (r: Result<(), ProtocolError>) {
        let ghost d0 = bytes_mut_data(*dst);
        put_i64(dst, self.payload);
        let ghost mut e: Seq<u8> = be_i64_bytes(self@.payload);
        Ok(())
    }
}

impl Decode for ClientboundPong {
    fn decode(src: &mut Bytes) -> (r: Result<Self, ProtocolError>) {
        let payload = get_i64(src);
        Ok(Self { payload })
    }
}

} // verus!
