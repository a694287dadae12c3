//! Configuration-state packets of the 1.21 releases.
use crate::buffer::{
    bytes_data, bytes_mut_data, bytes_to_vec, copy_to_bytes, copy_to_slice, get_i16, get_i32, get_i64, get_i8,
    extend_from_slice, get_u16, get_u32, get_u64, get_u8, put_i16, put_i32, put_i64, put_i8, put_slice, put_u16, put_u32, put_u64,
    put_u8, remaining, string_from_utf8,
};
use crate::codec::{
    decode_dim_pos_codec, decode_string_vec, dim_pos_codec_fits, dim_pos_codec_spec, dim_pos_view,
    dim_pos_wire, encode_dim_pos_codec, encode_string_vec, lemma_dim_pos_codec_roundtrip, lemma_string_roundtrip, lemma_string_vec_roundtrip,
    result_view, string_fits, string_list_wire, string_piece, string_vec_fits, string_vec_spec,
    string_wire, strings_view, take_varint_i32, write_string, Decode, Encode, PacketId, Roundtrip,
    WireFormat,
};
use crate::error::{io_error, io_error_owned, ErrorView, IoErrorKind, ProtocolError};
use crate::text::{decimal, need_remaining_message};
use crate::types::VarInt;
use crate::types::uuid_wire::{get_uuid, lemma_take_uuid, put_uuid, take_uuid, uuid_wire};
use crate::versions::fields::{
    decode_eof_str, decode_fixed_str, eof_str_spec, fixed_str_spec, lemma_eof_str_roundtrip,
    lemma_fixed_str_roundtrip, need_eof, need_eof_spec, need_msg, need_msg_spec, skip_rest_spec,
    skip_remaining, take_remaining,
};
use crate::wire::{
    be_i16_bytes, be_i32_bytes, be_i64_bytes, be_u16_bytes, be_u32_bytes, be_u64_bytes, bool_byte,
    group_wire_roundtrip, lemma_read_n_err, lemma_read_write_n, panics, read_n, take_bool, take_i16, take_i32, take_i64, take_i8, take_rest,
    take_u16, take_u32, take_u64, take_u8, then, write_all, Parsed,
};
use bytes::{Bytes, BytesMut};
use vstd::prelude::*;
use vstd::seq_lib::lemma_concat_associative;
use vstd::utf8::*;

verus! {



// ── ServerboundAcknowledgeFinishConfiguration ─────────────────────────

#[derive(Debug, Clone, PartialEq)]
pub struct ServerboundAcknowledgeFinishConfiguration;

impl View for ServerboundAcknowledgeFinishConfiguration {
    type V = ServerboundAcknowledgeFinishConfiguration;

    open spec fn view(&self) -> ServerboundAcknowledgeFinishConfiguration {
        *self
    }
}

impl PacketId for ServerboundAcknowledgeFinishConfiguration {
    open spec fn spec_packet_id(ver: u32) -> u8 {
        0x03
    }

    fn packet_id(_ver: u32) -> (r: u8) {
        0x03
    }
}

impl WireFormat for ServerboundAcknowledgeFinishConfiguration {
    open spec fn spec_encode(p: ServerboundAcknowledgeFinishConfiguration) -> Seq<u8> {
        Seq::<u8>::empty()
    }

    open spec fn spec_decode(s: Seq<u8>) -> Parsed<ServerboundAcknowledgeFinishConfiguration> {
        (Ok(ServerboundAcknowledgeFinishConfiguration), s)
    }
}

impl Roundtrip for ServerboundAcknowledgeFinishConfiguration {
    open spec fn encodable(p: ServerboundAcknowledgeFinishConfiguration) -> bool {
        true
    }

    open spec fn reads_to_end() -> bool {
        false
    }

    proof fn lemma_roundtrip(p: ServerboundAcknowledgeFinishConfiguration, rest: Seq<u8>) {
        broadcast use group_wire_roundtrip;

    }
}

impl Encode for ServerboundAcknowledgeFinishConfiguration {
    fn encode(&self, dst: &mut BytesMut) -> (r: Result<(), ProtocolError>) {
        assert(bytes_mut_data(*dst) =~= bytes_mut_data(*old(dst)) + Self::spec_encode(self@));
        Ok(())
    }
}

impl Decode for ServerboundAcknowledgeFinishConfiguration {
    fn decode(_src: &mut Bytes) -> (r: Result<Self, ProtocolError>) {
        Ok(ServerboundAcknowledgeFinishConfiguration)
    }
}

// ── ClientboundFinishConfiguration ────────────────────────────────────

#[derive(Debug, Clone, PartialEq)]
pub struct ClientboundFinishConfiguration;

impl View for ClientboundFinishConfiguration {
    type V = ClientboundFinishConfiguration;

    open spec fn view(&self) -> ClientboundFinishConfiguration {
        *self
    }
}

impl PacketId for ClientboundFinishConfiguration {
    open spec fn spec_packet_id(ver: u32) -> u8 {
        0x03
    }

    fn packet_id(_ver: u32) -> (r: u8) {
        0x03
    }
}

impl WireFormat for ClientboundFinishConfiguration {
    open spec fn spec_encode(p: ClientboundFinishConfiguration) -> Seq<u8> {
        Seq::<u8>::empty()
    }

    open spec fn spec_decode(s: Seq<u8>) -> Parsed<ClientboundFinishConfiguration> {
        (Ok(ClientboundFinishConfiguration), s)
    }
}

impl Roundtrip for ClientboundFinishConfiguration {
    open spec fn encodable(p: ClientboundFinishConfiguration) -> bool {
        true
    }

    open spec fn reads_to_end() -> bool {
        false
    }

    proof fn lemma_roundtrip(p: ClientboundFinishConfiguration, rest: Seq<u8>) {
        broadcast use group_wire_roundtrip;

    }
}

impl Encode for ClientboundFinishConfiguration {
    fn encode(&self, dst: &mut BytesMut) -> (r: Result<(), ProtocolError>) {
        assert(bytes_mut_data(*dst) =~= bytes_mut_data(*old(dst)) + Self::spec_encode(self@));
        Ok(())
    }
}

impl Decode for ClientboundFinishConfiguration {
    fn decode(_src: &mut Bytes) -> (r: Result<Self, ProtocolError>) {
        Ok(ClientboundFinishConfiguration)
    }
}

} // verus!
