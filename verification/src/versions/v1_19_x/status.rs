//! Status-state packets of the 1.19 releases.
use crate::buffer::{
    bytes_data, bytes_mut_data, bytes_to_vec, copy_to_bytes, copy_to_slice, get_i16, get_i32, get_i64, get_i8,
    extend_from_slice, get_u16, get_u32, get_u64, get_u8, put_i16, put_i32, put_i64, put_i8, put_slice, put_u16, put_u32, put_u64,
    put_u8, remaining, string_from_utf8,
};
use crate::codec::{
    decode_dim_pos_codec, decode_string_vec, dim_pos_codec_fits, dim_pos_codec_spec, dim_pos_view,
    dim_pos_wire, encode_dim_pos_codec, encode_string_vec, lemma_dim_pos_codec_roundtrip, lemma_string_roundtrip, lemma_string_vec_roundtrip,
    result_view, string_fits, string_list_wire, string_piece, string_vec_fits, string_vec_spec,
    string_wire, strings_view, take_varint_i32, write_string, Decode, Encode, PacketId, Roundtrip,
    WireFormat,
};
use crate::error::{io_error, io_error_owned, ErrorView, IoErrorKind, ProtocolError};
use crate::text::{decimal, need_remaining_message};
use crate::types::VarInt;
use crate::types::uuid_wire::{get_uuid, lemma_take_uuid, put_uuid, take_uuid, uuid_wire};
use crate::versions::fields::{
    decode_eof_str, decode_fixed_str, eof_str_spec, fixed_str_spec, lemma_eof_str_roundtrip,
    lemma_fixed_str_roundtrip, need_eof, need_eof_spec, need_msg, need_msg_spec, skip_rest_spec,
    skip_remaining, take_remaining,
};
use crate::wire::{
    be_i16_bytes, be_i32_bytes, be_i64_bytes, be_u16_bytes, be_u32_bytes, be_u64_bytes, bool_byte,
    group_wire_roundtrip, lemma_read_n_err, lemma_read_write_n, panics, read_n, take_bool, take_i16, take_i32, take_i64, take_i8, take_rest,
    take_u16, take_u32, take_u64, take_u8, then, write_all, Parsed,
};
use bytes::{Bytes, BytesMut};
use vstd::prelude::*;
use vstd::seq_lib::lemma_concat_associative;
use vstd::utf8::*;

verus! {



// ── ServerboundStatusRequest ──────────────────────────────────────────

#[derive(Debug, Clone, PartialEq)]
pub struct ServerboundStatusRequest;

impl View for ServerboundStatusRequest {
    type V = ServerboundStatusRequest;

    open spec fn view(&self) -> ServerboundStatusRequest {
        *self
    }
}

impl PacketId for ServerboundStatusRequest {
    open spec fn spec_packet_id(ver: u32) -> u8 {
        0x00
    }

    fn packet_id(_ver: u32) -> (r: u8) {
        0x00
    }
}

impl WireFormat for ServerboundStatusRequest {
    open spec fn spec_encode(p: ServerboundStatusRequest) -> Seq<u8> {
        Seq::<u8>::empty()
    }

    open spec fn spec_decode(s: Seq<u8>) -> Parsed<ServerboundStatusRequest> {
        (Ok(ServerboundStatusRequest), s)
    }
}

impl Roundtrip for ServerboundStatusRequest {
    open spec fn encodable(p: ServerboundStatusRequest) -> bool {
        true
    }

    open spec fn reads_to_end() -> bool {
        false
    }

    proof fn lemma_roundtrip(p: ServerboundStatusRequest, rest: Seq<u8>) {
        broadcast use group_wire_roundtrip;

    }
}

impl Encode for ServerboundStatusRequest {
    fn encode(&self, dst: &mut BytesMut) -> (r: Result<(), ProtocolError>) {
        assert(bytes_mut_data(*dst) =~= bytes_mut_data(*old(dst)) + Self::spec_encode(self@));
        Ok(())
    }
}

impl Decode for ServerboundStatusRequest {
    fn decode(_src: &mut Bytes) -> (r: Result<Self, ProtocolError>) {
        Ok(ServerboundStatusRequest)
    }
}

// ── ClientboundStatusResponse ─────────────────────────────────────────

#[derive(Debug, Clone, PartialEq)]
pub struct ClientboundStatusResponse {
    pub json_response: String,
}

pub struct ClientboundStatusResponseView {
    pub json_response: Seq<char>,
}

impl View for ClientboundStatusResponse {
    type V = ClientboundStatusResponseView;

    open spec fn view(&self) -> ClientboundStatusResponseView {
        ClientboundStatusResponseView {
            json_response: self.json_response@,
        }
    }
}

impl PacketId for ClientboundStatusResponse {
    open spec fn spec_packet_id(ver: u32) -> u8 {
        0x00
    }

    fn packet_id(_ver: u32) -> (r: u8) {
        0x00
    }
}

impl WireFormat for ClientboundStatusResponse {
    open spec fn spec_encode(p: ClientboundStatusResponseView) -> Seq<u8> {
        <String as WireFormat>::spec_encode(p.json_response)
    }

    open spec fn spec_decode(s: Seq<u8>) -> Parsed<ClientboundStatusResponseView> {
        then(<String as WireFormat>::spec_decode(s), |json_response: Seq<char>, s: Seq<u8>| (Ok(ClientboundStatusResponseView { json_response }), s))
    }
}

impl Roundtrip for ClientboundStatusResponse {
    open spec fn encodable(p: ClientboundStatusResponseView) -> bool {
        <String as Roundtrip>::encodable(p.json_response)
    }

    open spec fn reads_to_end() -> bool {
        false
    }

    proof fn lemma_roundtrip(p: ClientboundStatusResponseView, rest: Seq<u8>) {
        broadcast use group_wire_roundtrip;

        <String as Roundtrip>::lemma_roundtrip(p.json_response, rest);
    }
}

impl Encode for ClientboundStatusResponse {
    fn encode(&self, dst: &mut BytesMut) -> (r: Result<(), ProtocolError>) {
        let ghost d0 = bytes_mut_data(*dst);
        let _ = self.json_response.encode(dst);
        let ghost mut e: Seq<u8> = <String as WireFormat>::spec_encode(self@.json_response);
        Ok(())
    }
}

impl Decode for ClientboundStatusResponse {
    fn decode(src: &mut Bytes) -> (r: Result<Self, ProtocolError>) {
        let json_response = String::decode(src)?;
        Ok(Self { json_response })
    }
}

// ── ServerboundPingRequest ────────────────────────────────────────────

#[derive(Debug, Clone, PartialEq)]
pub struct ServerboundPingRequest {
    pub payload: i64,
}

impl View for ServerboundPingRequest {
    type V = ServerboundPingRequest;

    open spec fn view(&self) -> ServerboundPingRequest {
        *self
    }
}

impl PacketId for ServerboundPingRequest {
    open spec fn spec_packet_id(ver: u32) -> u8 {
        0x01
    }

    fn packet_id(_ver: u32) -> (r: u8) {
        0x01
    }
}

impl WireFormat for ServerboundPingRequest {
    open spec fn spec_encode(p: ServerboundPingRequest) -> Seq<u8> {
        <i64 as WireFormat>::spec_encode(p.payload)
    }

    open spec fn spec_decode(s: Seq<u8>) -> Parsed<ServerboundPingRequest> {
        then(<i64 as WireFormat>::spec_decode(s), |payload: i64, s: Seq<u8>| (Ok(ServerboundPingRequest { payload }), s))
    }
}

impl Roundtrip for ServerboundPingRequest {
    open spec fn encodable(p: ServerboundPingRequest) -> bool {
        true
    }

    open spec fn reads_to_end() -> bool {
        false
    }

    proof fn lemma_roundtrip(p: ServerboundPingRequest, rest: Seq<u8>) {
        broadcast use group_wire_roundtrip;

        <i64 as Roundtrip>::lemma_roundtrip(p.payload, rest);
    }
}

impl Encode for ServerboundPingRequest {
    fn encode(&self, dst: &mut BytesMut) -> (r: Result<(), ProtocolError>) {
        let ghost d0 = bytes_mut_data(*dst);
        let _ = self.payload.encode(dst);
        let ghost mut e: Seq<u8> = <i64 as WireFormat>::spec_encode(self@.payload);
        Ok(())
    }
}

impl Decode for ServerboundPingRequest {
    fn decode(src: &mut Bytes) -> (r: Result<Self, ProtocolError>) {
        let payload = i64::decode(src)?;
        Ok(Self { payload })
    }
}

// ── ClientboundPongResponse ───────────────────────────────────────────

#[derive(Debug, Clone, PartialEq)]
pub struct ClientboundPongResponse {
    pub payload: i64,
}

impl View for ClientboundPongResponse {
    type V = ClientboundPongResponse;

    open spec fn view(&self) -> ClientboundPongResponse {
        *self
    }
}

impl PacketId for ClientboundPongResponse {
    open spec fn spec_packet_id(ver: u32) -> u8 {
        0x01
    }

    fn packet_id(_ver: u32) -> (r: u8) {
        0x01
    }
}

impl WireFormat for ClientboundPongResponse {
    open spec fn spec_encode(p: ClientboundPongResponse) -> Seq<u8> {
        <i64 as WireFormat>::spec_encode(p.payload)
    }

    open spec fn spec_decode(s: Seq<u8>) -> Parsed<ClientboundPongResponse> {
        then(<i64 as WireFormat>::spec_decode(s), |payload: i64, s: Seq<u8>| (Ok(ClientboundPongResponse { payload }), s))
    }
}

impl Roundtrip for ClientboundPongResponse {
    open spec fn encodable(p: ClientboundPongResponse) -> bool {
        true
    }

    open spec fn reads_to_end() -> bool {
        false
    }

    proof fn lemma_roundtrip(p: ClientboundPongResponse, rest: Seq<u8>) {
        broadcast use group_wire_roundtrip;

        <i64 as Roundtrip>::lemma_roundtrip(p.payload, rest);
    }
}

impl Encode for ClientboundPongResponse {
    fn encode(&self, dst: &mut BytesMut) -> (r: Result<(), ProtocolError>) {
        let ghost d0 = bytes_mut_data(*dst);
        let _ = self.payload.encode(dst);
        let ghost mut e: Seq<u8> = <i64 as WireFormat>::spec_encode(self@.payload);
        Ok(())
    }
}

impl Decode for ClientboundPongResponse {
    fn decode(src: &mut Bytes) -> (r: Result<Self, ProtocolError>) {
        let payload = i64::decode(src)?;
        Ok(Self { payload })
    }
}

} // verus!
