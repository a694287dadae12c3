//! The handshake packet of the 1.19 releases.
use crate::buffer::{
    bytes_data, bytes_mut_data, bytes_to_vec, copy_to_bytes, copy_to_slice, get_i16, get_i32, get_i64, get_i8,
    extend_from_slice, get_u16, get_u32, get_u64, get_u8, put_i16, put_i32, put_i64, put_i8, put_slice, put_u16, put_u32, put_u64,
    put_u8, remaining, string_from_utf8,
};
use crate::codec::{
    decode_dim_pos_codec, decode_string_vec, dim_pos_codec_fits, dim_pos_codec_spec, dim_pos_view,
    dim_pos_wire, encode_dim_pos_codec, encode_string_vec, lemma_dim_pos_codec_roundtrip, lemma_string_roundtrip, lemma_string_vec_roundtrip,
    result_view, string_fits, string_list_wire, string_piece, string_vec_fits, string_vec_spec,
    string_wire, strings_view, take_varint_i32, write_string, Decode, Encode, PacketId, Roundtrip,
    WireFormat,
};
use crate::error::{io_error, io_error_owned, ErrorView, IoErrorKind, ProtocolError};
use crate::text::{decimal, need_remaining_message};
use crate::types::VarInt;
use crate::types::uuid_wire::{get_uuid, lemma_take_uuid, put_uuid, take_uuid, uuid_wire};
use crate::versions::fields::{
    decode_eof_str, decode_fixed_str, eof_str_spec, fixed_str_spec, lemma_eof_str_roundtrip,
    lemma_fixed_str_roundtrip, need_eof, need_eof_spec, need_msg, need_msg_spec, skip_rest_spec,
    skip_remaining, take_remaining,
};
use crate::wire::{
    be_i16_bytes, be_i32_bytes, be_i64_bytes, be_u16_bytes, be_u32_bytes, be_u64_bytes, bool_byte,
    group_wire_roundtrip, lemma_read_n_err, lemma_read_write_n, panics, read_n, take_bool, take_i16, take_i32, take_i64, take_i8, take_rest,
    take_u16, take_u32, take_u64, take_u8, then, write_all, Parsed,
};
use bytes::{Bytes, BytesMut};
use vstd::prelude::*;
use vstd::seq_lib::lemma_concat_associative;
use vstd::utf8::*;

verus! {



// ── ServerboundHandshake ──────────────────────────────────────────────

#[derive(Debug, Clone, PartialEq)]
pub struct ServerboundHandshake {
    pub protocol_version: VarInt,
    pub server_address: String,
    pub server_port: u16,
    pub next_state: VarInt,
}

pub struct ServerboundHandshakeView {
    pub protocol_version: VarInt,
    pub server_address: Seq<char>,
    pub server_port: u16,
    pub next_state: VarInt,
}

impl View for ServerboundHandshake {
    type V = ServerboundHandshakeView;

    open spec fn view(&self) -> ServerboundHandshakeView {
        ServerboundHandshakeView {
            protocol_version: self.protocol_version,
            server_address: self.server_address@,
            server_port: self.server_port,
            next_state: self.next_state,
        }
    }
}

impl PacketId for ServerboundHandshake {
    open spec fn spec_packet_id(ver: u32) -> u8 {
        0x00
    }

    fn packet_id(_ver: u32) -> (r: u8) {
        0x00
    }
}

impl WireFormat for ServerboundHandshake {
    open spec fn spec_encode(p: ServerboundHandshakeView) -> Seq<u8> {
        VarInt::spec_encode(p.protocol_version) + <String as WireFormat>::spec_encode(p.server_address) + <u16 as WireFormat>::spec_encode(p.server_port) + VarInt::spec_encode(p.next_state)
    }

    open spec fn spec_decode(s: Seq<u8>) -> Parsed<ServerboundHandshakeView> {
        then(VarInt::spec_decode(s), |protocol_version: VarInt, s: Seq<u8>| then(<String as WireFormat>::spec_decode(s), |server_address: Seq<char>, s: Seq<u8>| then(<u16 as WireFormat>::spec_decode(s), |server_port: u16, s: Seq<u8>| then(VarInt::spec_decode(s), |next_state: VarInt, s: Seq<u8>| (Ok(ServerboundHandshakeView { protocol_version, server_address, server_port, next_state }), s)))))
    }
}

impl Roundtrip for ServerboundHandshake {
    open spec fn encodable(p: ServerboundHandshakeView) -> bool {
        <String as Roundtrip>::encodable(p.server_address)
    }

    open spec fn reads_to_end() -> bool {
        false
    }

    proof fn lemma_roundtrip(p: ServerboundHandshakeView, rest: Seq<u8>) {
        broadcast use group_wire_roundtrip;

        let t3 = VarInt::spec_encode(p.next_state) + rest;
        let t2 = <u16 as WireFormat>::spec_encode(p.server_port) + t3;
        let t1 = <String as WireFormat>::spec_encode(p.server_address) + t2;
        lemma_concat_associative(VarInt::spec_encode(p.protocol_version) + <String as WireFormat>::spec_encode(p.server_address) + <u16 as WireFormat>::spec_encode(p.server_port), VarInt::spec_encode(p.next_state), rest);
        lemma_concat_associative(VarInt::spec_encode(p.protocol_version) + <String as WireFormat>::spec_encode(p.server_address), <u16 as WireFormat>::spec_encode(p.server_port), t3);
        lemma_concat_associative(VarInt::spec_encode(p.protocol_version), <String as WireFormat>::spec_encode(p.server_address), t2);
        VarInt::lemma_roundtrip(p.protocol_version, t1);
        <String as Roundtrip>::lemma_roundtrip(p.server_address, t2);
        <u16 as Roundtrip>::lemma_roundtrip(p.server_port, t3);
        VarInt::lemma_roundtrip(p.next_state, rest);
    }
}

impl Encode for ServerboundHandshake {
    fn encode(&self, dst: &mut BytesMut) -> (r: Result<(), ProtocolError>) {
        let ghost d0 = bytes_mut_data(*dst);
        let _ = self.protocol_version.encode(dst);
        let ghost mut e: Seq<u8> = VarInt::spec_encode(self@.protocol_version);
        let _ = self.server_address.encode(dst);
        proof {
            lemma_concat_associative(d0, e, <String as WireFormat>::spec_encode(self@.server_address));
            e = e + <String as WireFormat>::spec_encode(self@.server_address);
        }
        let _ = self.server_port.encode(dst);
        proof {
            lemma_concat_associative(d0, e, <u16 as WireFormat>::spec_encode(self@.server_port));
            e = e + <u16 as WireFormat>::spec_encode(self@.server_port);
        }
        let _ = self.next_state.encode(dst);
        proof {
            lemma_concat_associative(d0, e, VarInt::spec_encode(self@.next_state));
            e = e + VarInt::spec_encode(self@.next_state);
        }
        Ok(())
    }
}

impl Decode for ServerboundHandshake {
    fn decode(src: &mut Bytes) -> (r: Result<Self, ProtocolError>) {
        let protocol_version = VarInt::decode(src)?;
        let server_address = String::decode(src)?;
        let server_port = u16::decode(src)?;
        let next_state = VarInt::decode(src)?;
        Ok(Self { protocol_version, server_address, server_port, next_state })
    }
}

} // verus!
