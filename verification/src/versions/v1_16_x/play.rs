//! Play-state packets of the 1.16 releases.
use crate::buffer::{
    bytes_data, bytes_mut_data, bytes_to_vec, copy_to_bytes, copy_to_slice, get_i16, get_i32, get_i64, get_i8,
    extend_from_slice, get_u16, get_u32, get_u64, get_u8, put_i16, put_i32, put_i64, put_i8, put_slice, put_u16, put_u32, put_u64,
    put_u8, remaining, string_from_utf8,
};
use crate::codec::{
    decode_dim_pos_codec, decode_string_vec, dim_pos_codec_fits, dim_pos_codec_spec, dim_pos_view,
    dim_pos_wire, encode_dim_pos_codec, encode_string_vec, lemma_dim_pos_codec_roundtrip, lemma_string_roundtrip, lemma_string_vec_roundtrip,
    result_view, string_fits, string_list_wire, string_piece, string_vec_fits, string_vec_spec,
    string_wire, strings_view, take_varint_i32, write_string, Decode, Encode, PacketId, Roundtrip,
    WireFormat,
};
use crate::error::{io_error, io_error_owned, ErrorView, IoErrorKind, ProtocolError};
use crate::text::{decimal, need_remaining_message};
use crate::types::VarInt;
use crate::types::uuid_wire::{get_uuid, lemma_take_uuid, put_uuid, take_uuid, uuid_wire};
use crate::versions::fields::{
    decode_eof_str, decode_fixed_str, eof_str_spec, fixed_str_spec, lemma_eof_str_roundtrip,
    lemma_fixed_str_roundtrip, need_eof, need_eof_spec, need_msg, need_msg_spec, skip_rest_spec,
    skip_remaining, take_remaining,
};
use crate::wire::{
    be_i16_bytes, be_i32_bytes, be_i64_bytes, be_u16_bytes, be_u32_bytes, be_u64_bytes, bool_byte,
    group_wire_roundtrip, lemma_read_n_err, lemma_read_write_n, panics, read_n, take_bool, take_i16, take_i32, take_i64, take_i8, take_rest,
    take_u16, take_u32, take_u64, take_u8, then, write_all, Parsed,
};
use bytes::{Bytes, BytesMut};
use vstd::prelude::*;
use vstd::seq_lib::lemma_concat_associative;
use vstd::utf8::*;

verus! {


/// What `need` reports in this module: nothing when `n` bytes are left,
/// else the fixed message "Not enough bytes".
pub open spec fn need_spec(s: Seq<u8>, n: usize) -> Parsed<()> {
    need_msg_spec(s, n, "Not enough bytes"@)
}

fn need(src: &Bytes, n: usize) -> (r: Result<(), ProtocolError>)
    ensures
        need_spec(bytes_data(*src), n) == (result_view(r), bytes_data(*src)),
{
    need_msg(src, n, "Not enough bytes")
}

/// What `decode_string` reads in this module: a VarInt-prefixed UTF-8
/// string with fixed error messages.
pub open spec fn string_spec(s: Seq<u8>) -> Parsed<Seq<char>> {
    fixed_str_spec(s, "Missing bytes for string"@, "Invalid UTF-8 in string"@)
}

fn decode_string(src: &mut Bytes) -> (r: Result<String, ProtocolError>)
    requires
        !panics(string_spec(bytes_data(*old(src)))),
    ensures
        string_spec(bytes_data(*old(src))) == (result_view(r), bytes_data(*final(src))),
{
    decode_fixed_str(src, "Missing bytes for string", "Invalid UTF-8 in string")
}

fn encode_string(s: &str, dst: &mut BytesMut)
    ensures
        bytes_mut_data(*final(dst)) == bytes_mut_data(*old(dst)) + string_wire(s@),
{
    write_string(s, dst)
}

pub proof fn lemma_string_field(c: Seq<char>, rest: Seq<u8>)
    requires
        string_fits(c),
    ensures
        string_spec(string_wire(c) + rest) == (Ok::<Seq<char>, ErrorView>(c), rest),
{
    lemma_fixed_str_roundtrip(c, rest, "Missing bytes for string"@, "Invalid UTF-8 in string"@);
}

/// The strings that a list can carry and read back.
pub open spec fn string_list_fits(xs: Seq<Seq<char>>) -> bool {
    xs.len() <= i32::MAX && forall|i: int| 0 <= i < xs.len() ==> string_fits(#[trigger] xs[i])
}

pub open spec fn string_item() -> spec_fn(Seq<u8>) -> Parsed<Seq<char>> {
    |t: Seq<u8>| string_spec(t)
}

/// A VarInt count, then that many strings. A negative count asks for an
/// allocation that cannot be made.
pub open spec fn string_list_spec(s: Seq<u8>) -> Parsed<Seq<Seq<char>>> {
    then(
        take_varint_i32(s),
        |c: i32, s: Seq<u8>|
            if c < 0 {
                (Err(ErrorView::Panic), s)
            } else {
                read_n(s, c as nat, string_item())
            },
    )
}

fn decode_string_list(src: &mut Bytes) -> (r: Result<Vec<String>, ProtocolError>)
    requires
        !panics(string_list_spec(bytes_data(*old(src)))),
    ensures
        string_list_spec(bytes_data(*old(src))) == (
            match r {
                Ok(v) => Ok(strings_view(v@)),
                Err(e) => Err(e@),
            },
            bytes_data(*final(src)),
        ),
{
    let c = VarInt::decode(src)?.0;
    let ghost s1 = bytes_data(*src);
    let count = c as usize;
    let mut items: Vec<String> = Vec::new();
    let mut i: usize = 0;
    assert(strings_view(items@) =~= Seq::<Seq<char>>::empty());
    while i < count
        invariant
            0 <= c,
            count == c as usize,
            i <= count,
            !panics(read_n(s1, count as nat, string_item())),
            read_n(s1, i as nat, string_item()) == (
                Ok::<Seq<Seq<char>>, ErrorView>(strings_view(items@)),
                bytes_data(*src),
            ),
            string_list_spec(bytes_data(*old(src))) == read_n(s1, count as nat, string_item()),
        decreases count - i,
    {
        proof {
            if panics(string_spec(bytes_data(*src))) {
                lemma_read_n_err(s1, (i + 1) as nat, count as nat, string_item());
            }
        }
        let x = match decode_string(src) {
            Ok(x) => x,
            Err(e) => {
                proof {
                    lemma_read_n_err(s1, (i + 1) as nat, count as nat, string_item());
                }
                return Err(e);
            },
        };
        let ghost before = items@;
        items.push(x);
        assert(strings_view(items@) =~= strings_view(before).push(x@));
        i += 1;
    }
    Ok(items)
}

fn encode_string_list(v: &Vec<String>, dst: &mut BytesMut)
    ensures
        bytes_mut_data(*final(dst)) == bytes_mut_data(*old(dst)) + string_list_wire(strings_view(v@)),
{
    let _ = VarInt(v.len() as i32).encode(dst);
    let ghost d0 = bytes_mut_data(*dst);
    let ghost xs = strings_view(v@);
    let mut i: usize = 0;
    assert(xs.take(0) =~= Seq::<Seq<char>>::empty());
    assert(d0 + write_all(xs.take(0), string_piece()) =~= d0);
    while i < v.len()
        invariant
            xs == strings_view(v@),
            i <= v.len(),
            bytes_mut_data(*dst) == d0 + write_all(xs.take(i as int), string_piece()),
        decreases v.len() - i,
    {
        encode_string(v[i].as_str(), dst);
        assert(xs.take(i as int + 1).drop_last() =~= xs.take(i as int));
        assert(bytes_mut_data(*dst) =~= d0 + write_all(xs.take(i as int + 1), string_piece()));
        i += 1;
    }
    assert(xs.take(v.len() as int) =~= xs);
    assert(bytes_mut_data(*dst) =~= bytes_mut_data(*old(dst)) + string_list_wire(xs));
}

pub proof fn lemma_string_list_field(xs: Seq<Seq<char>>, rest: Seq<u8>)
    requires
        string_list_fits(xs),
    ensures
        string_list_spec(string_list_wire(xs) + rest) == (Ok::<Seq<Seq<char>>, ErrorView>(xs), rest),
{
    let body = write_all(xs, string_piece()) + rest;
    assert(string_list_wire(xs) + rest =~= VarInt::spec_encode(VarInt(xs.len() as i32)) + body);
    VarInt::lemma_roundtrip(VarInt(xs.len() as i32), body);
    assert forall|x: Seq<char>, r: Seq<u8>| string_fits(x) implies #[trigger] string_item()(
        string_piece()(x) + r,
    ) == (Ok::<Seq<char>, ErrorView>(x), r) by {
        lemma_string_field(x, r);
    }
    lemma_read_write_n(xs, rest, string_item(), string_piece(), |x: Seq<char>| string_fits(x));
}


// ── ClientboundSpawnEntity ────────────────────────────────────────────

#[derive(Debug, Clone, PartialEq)]
pub struct ClientboundSpawnEntity {
    pub entity_id: VarInt,
    /// The UUID as its 128-bit value (`uuid::Uuid::as_u128`).
    pub entity_uuid: u128,
    pub entity_type: VarInt,
    /// The bits of the `f64` value (`f64::to_bits`).
    pub x: u64,
    /// The bits of the `f64` value (`f64::to_bits`).
    pub y: u64,
    /// The bits of the `f64` value (`f64::to_bits`).
    pub z: u64,
    pub pitch: i8,
    pub yaw: i8,
    pub head_pitch: i8,
    pub data: VarInt,
    pub velocity_x: i16,
    pub velocity_y: i16,
    pub velocity_z: i16,
}

impl View for ClientboundSpawnEntity {
    type V = ClientboundSpawnEntity;

    open spec fn view(&self) -> ClientboundSpawnEntity {
        *self
    }
}

impl PacketId for ClientboundSpawnEntity {
    open spec fn spec_packet_id(ver: u32) -> u8 {
        0x00
    }

    fn packet_id(_ver: u32) -> (r: u8) {
        0x00
    }
}

impl WireFormat for ClientboundSpawnEntity {
    open spec fn spec_encode(p: ClientboundSpawnEntity) -> Seq<u8> {
        VarInt::spec_encode(p.entity_id) + uuid_wire(p.entity_uuid) + VarInt::spec_encode(p.entity_type) + be_u64_bytes(p.x) + be_u64_bytes(p.y) + be_u64_bytes(p.z) + seq![p.pitch as u8] + seq![p.yaw as u8] + seq![p.head_pitch as u8] + VarInt::spec_encode(p.data) + be_i16_bytes(p.velocity_x) + be_i16_bytes(p.velocity_y) + be_i16_bytes(p.velocity_z)
    }

    open spec fn spec_decode(s: Seq<u8>) -> Parsed<ClientboundSpawnEntity> {
        then(VarInt::spec_decode(s), |entity_id: VarInt, s: Seq<u8>| then(take_uuid(s), |entity_uuid: u128, s: Seq<u8>| then(VarInt::spec_decode(s), |entity_type: VarInt, s: Seq<u8>| then(take_u64(s), |x: u64, s: Seq<u8>| then(take_u64(s), |y: u64, s: Seq<u8>| then(take_u64(s), |z: u64, s: Seq<u8>| then(take_i8(s), |pitch: i8, s: Seq<u8>| then(take_i8(s), |yaw: i8, s: Seq<u8>| then(take_i8(s), |head_pitch: i8, s: Seq<u8>| then(VarInt::spec_decode(s), |data: VarInt, s: Seq<u8>| then(take_i16(s), |velocity_x: i16, s: Seq<u8>| then(take_i16(s), |velocity_y: i16, s: Seq<u8>| then(take_i16(s), |velocity_z: i16, s: Seq<u8>| (Ok(ClientboundSpawnEntity { entity_id, entity_uuid, entity_type, x, y, z, pitch, yaw, head_pitch, data, velocity_x, velocity_y, velocity_z }), s))))))))))))))
    }
}

impl Roundtrip for ClientboundSpawnEntity {
    open spec fn encodable(p: ClientboundSpawnEntity) -> bool {
        true
    }

    open spec fn reads_to_end() -> bool {
        false
    }

    #[verifier::rlimit(100)]
    #[verifier::spinoff_prover]
    proof fn lemma_roundtrip(p: ClientboundSpawnEntity, rest: Seq<u8>) {
        broadcast use group_wire_roundtrip;

        let t12 = be_i16_bytes(p.velocity_z) + rest;
        let t11 = be_i16_bytes(p.velocity_y) + t12;
        let t10 = be_i16_bytes(p.velocity_x) + t11;
        let t9 = VarInt::spec_encode(p.data) + t10;
        let t8 = seq![p.head_pitch as u8] + t9;
        let t7 = seq![p.yaw as u8] + t8;
        let t6 = seq![p.pitch as u8] + t7;
        let t5 = be_u64_bytes(p.z) + t6;
        let t4 = be_u64_bytes(p.y) + t5;
        let t3 = be_u64_bytes(p.x) + t4;
        let t2 = VarInt::spec_encode(p.entity_type) + t3;
        let t1 = uuid_wire(p.entity_uuid) + t2;
        lemma_concat_associative(VarInt::spec_encode(p.entity_id) + uuid_wire(p.entity_uuid) + VarInt::spec_encode(p.entity_type) + be_u64_bytes(p.x) + be_u64_bytes(p.y) + be_u64_bytes(p.z) + seq![p.pitch as u8] + seq![p.yaw as u8] + seq![p.head_pitch as u8] + VarInt::spec_encode(p.data) + be_i16_bytes(p.velocity_x) + be_i16_bytes(p.velocity_y), be_i16_bytes(p.velocity_z), rest);
        lemma_concat_associative(VarInt::spec_encode(p.entity_id) + uuid_wire(p.entity_uuid) + VarInt::spec_encode(p.entity_type) + be_u64_bytes(p.x) + be_u64_bytes(p.y) + be_u64_bytes(p.z) + seq![p.pitch as u8] + seq![p.yaw as u8] + seq![p.head_pitch as u8] + VarInt::spec_encode(p.data) + be_i16_bytes(p.velocity_x), be_i16_bytes(p.velocity_y), t12);
        lemma_concat_associative(VarInt::spec_encode(p.entity_id) + uuid_wire(p.entity_uuid) + VarInt::spec_encode(p.entity_type) + be_u64_bytes(p.x) + be_u64_bytes(p.y) + be_u64_bytes(p.z) + seq![p.pitch as u8] + seq![p.yaw as u8] + seq![p.head_pitch as u8] + VarInt::spec_encode(p.data), be_i16_bytes(p.velocity_x), t11);
        lemma_concat_associative(VarInt::spec_encode(p.entity_id) + uuid_wire(p.entity_uuid) + VarInt::spec_encode(p.entity_type) + be_u64_bytes(p.x) + be_u64_bytes(p.y) + be_u64_bytes(p.z) + seq![p.pitch as u8] + seq![p.yaw as u8] + seq![p.head_pitch as u8], VarInt::spec_encode(p.data), t10);
        lemma_concat_associative(VarInt::spec_encode(p.entity_id) + uuid_wire(p.entity_uuid) + VarInt::spec_encode(p.entity_type) + be_u64_bytes(p.x) + be_u64_bytes(p.y) + be_u64_bytes(p.z) + seq![p.pitch as u8] + seq![p.yaw as u8], seq![p.head_pitch as u8], t9);
        lemma_concat_associative(VarInt::spec_encode(p.entity_id) + uuid_wire(p.entity_uuid) + VarInt::spec_encode(p.entity_type) + be_u64_bytes(p.x) + be_u64_bytes(p.y) + be_u64_bytes(p.z) + seq![p.pitch as u8], seq![p.yaw as u8], t8);
        lemma_concat_associative(VarInt::spec_encode(p.entity_id) + uuid_wire(p.entity_uuid) + VarInt::spec_encode(p.entity_type) + be_u64_bytes(p.x) + be_u64_bytes(p.y) + be_u64_bytes(p.z), seq![p.pitch as u8], t7);
        lemma_concat_associative(VarInt::spec_encode(p.entity_id) + uuid_wire(p.entity_uuid) + VarInt::spec_encode(p.entity_type) + be_u64_bytes(p.x) + be_u64_bytes(p.y), be_u64_bytes(p.z), t6);
        lemma_concat_associative(VarInt::spec_encode(p.entity_id) + uuid_wire(p.entity_uuid) + VarInt::spec_encode(p.entity_type) + be_u64_bytes(p.x), be_u64_bytes(p.y), t5);
        lemma_concat_associative(VarInt::spec_encode(p.entity_id) + uuid_wire(p.entity_uuid) + VarInt::spec_encode(p.entity_type), be_u64_bytes(p.x), t4);
        lemma_concat_associative(VarInt::spec_encode(p.entity_id) + uuid_wire(p.entity_uuid), VarInt::spec_encode(p.entity_type), t3);
        lemma_concat_associative(VarInt::spec_encode(p.entity_id), uuid_wire(p.entity_uuid), t2);
        VarInt::lemma_roundtrip(p.entity_id, t1);
        lemma_take_uuid(p.entity_uuid, t2);
        VarInt::lemma_roundtrip(p.entity_type, t3);
        VarInt::lemma_roundtrip(p.data, t10);
    }
}

impl ClientboundSpawnEntity {
    /// Writes the fields up to `z`.
    fn encode_front(&self, dst: &mut BytesMut)
        ensures
            bytes_mut_data(*final(dst)) == bytes_mut_data(*old(dst)) + (VarInt::spec_encode(self@.entity_id) + uuid_wire(self@.entity_uuid) + VarInt::spec_encode(self@.entity_type) + be_u64_bytes(self@.x) + be_u64_bytes(self@.y) + be_u64_bytes(self@.z)),
    {
        let ghost d0 = bytes_mut_data(*dst);
        let _ = self.entity_id.encode(dst);
        let ghost mut e: Seq<u8> = VarInt::spec_encode(self@.entity_id);
        put_uuid(dst, self.entity_uuid);
        proof {
            lemma_concat_associative(d0, e, uuid_wire(self@.entity_uuid));
            e = e + uuid_wire(self@.entity_uuid);
        }
        let _ = self.entity_type.encode(dst);
        proof {
            lemma_concat_associative(d0, e, VarInt::spec_encode(self@.entity_type));
            e = e + VarInt::spec_encode(self@.entity_type);
        }
        put_u64(dst, self.x);
        proof {
            lemma_concat_associative(d0, e, be_u64_bytes(self@.x));
            e = e + be_u64_bytes(self@.x);
        }
        put_u64(dst, self.y);
        proof {
            lemma_concat_associative(d0, e, be_u64_bytes(self@.y));
            e = e + be_u64_bytes(self@.y);
        }
        put_u64(dst, self.z);
        proof {
            lemma_concat_associative(d0, e, be_u64_bytes(self@.z));
            e = e + be_u64_bytes(self@.z);
        }
    }
}

impl Encode for ClientboundSpawnEntity {
    #[verifier::rlimit(100)]
    #[verifier::spinoff_prover]
    fn encode(&self, dst: &mut BytesMut) -> (r: Result<(), ProtocolError>) {
        let ghost d0 = bytes_mut_data(*dst);
        self.encode_front(dst);
        let ghost mut e: Seq<u8> = VarInt::spec_encode(self@.entity_id) + uuid_wire(self@.entity_uuid) + VarInt::spec_encode(self@.entity_type) + be_u64_bytes(self@.x) + be_u64_bytes(self@.y) + be_u64_bytes(self@.z);
        put_i8(dst, self.pitch);
        proof {
            lemma_concat_associative(d0, e, seq![self@.pitch as u8]);
            e = e + seq![self@.pitch as u8];
        }
        put_i8(dst, self.yaw);
        proof {
            lemma_concat_associative(d0, e, seq![self@.yaw as u8]);
            e = e + seq![self@.yaw as u8];
        }
        put_i8(dst, self.head_pitch);
        proof {
            lemma_concat_associative(d0, e, seq![self@.head_pitch as u8]);
            e = e + seq![self@.head_pitch as u8];
        }
        let _ = self.data.encode(dst);
        proof {
            lemma_concat_associative(d0, e, VarInt::spec_encode(self@.data));
            e = e + VarInt::spec_encode(self@.data);
        }
        put_i16(dst, self.velocity_x);
        proof {
            lemma_concat_associative(d0, e, be_i16_bytes(self@.velocity_x));
            e = e + be_i16_bytes(self@.velocity_x);
        }
        put_i16(dst, self.velocity_y);
        proof {
            lemma_concat_associative(d0, e, be_i16_bytes(self@.velocity_y));
            e = e + be_i16_bytes(self@.velocity_y);
        }
        put_i16(dst, self.velocity_z);
        proof {
            lemma_concat_associative(d0, e, be_i16_bytes(self@.velocity_z));
            e = e + be_i16_bytes(self@.velocity_z);
        }
        Ok(())
    }
}

impl Decode for ClientboundSpawnEntity {
    #[verifier::rlimit(100)]
    #[verifier::spinoff_prover]
    fn decode(src: &mut Bytes) -> (r: Result<Self, ProtocolError>) {
        let entity_id = VarInt::decode(src)?;
        let entity_uuid = get_uuid(src);
        let entity_type = VarInt::decode(src)?;
        let x = get_u64(src);
        let y = get_u64(src);
        let z = get_u64(src);
        let pitch = get_i8(src);
        let yaw = get_i8(src);
        let head_pitch = get_i8(src);
        let data = VarInt::decode(src)?;
        let velocity_x = get_i16(src);
        let velocity_y = get_i16(src);
        let velocity_z = get_i16(src);
        Ok(Self { entity_id, entity_uuid, entity_type, x, y, z, pitch, yaw, head_pitch, data, velocity_x, velocity_y, velocity_z })
    }
}

// ── ClientboundSpawnExperienceOrb ─────────────────────────────────────

#[derive(Debug, Clone, PartialEq)]
pub struct ClientboundSpawnExperienceOrb {
    pub raw: Vec<u8>,
}

pub struct ClientboundSpawnExperienceOrbView {
    pub raw: Seq<u8>,
}

impl View for ClientboundSpawnExperienceOrb {
    type V = ClientboundSpawnExperienceOrbView;

    open spec fn view(&self) -> ClientboundSpawnExperienceOrbView {
        ClientboundSpawnExperienceOrbView {
            raw: self.raw@,
        }
    }
}

impl PacketId for ClientboundSpawnExperienceOrb {
    open spec fn spec_packet_id(ver: u32) -> u8 {
        0x01
    }

    fn packet_id(_ver: u32) -> (r: u8) {
        0x01
    }
}

impl WireFormat for ClientboundSpawnExperienceOrb {
    open spec fn spec_encode(p: ClientboundSpawnExperienceOrbView) -> Seq<u8> {
        p.raw
    }

    open spec fn spec_decode(s: Seq<u8>) -> Parsed<ClientboundSpawnExperienceOrbView> {
        then(take_rest(s), |raw: Seq<u8>, s: Seq<u8>| (Ok(ClientboundSpawnExperienceOrbView { raw }), s))
    }
}

impl Roundtrip for ClientboundSpawnExperienceOrb {
    open spec fn encodable(p: ClientboundSpawnExperienceOrbView) -> bool {
        true
    }

    open spec fn reads_to_end() -> bool {
        true
    }

    proof fn lemma_roundtrip(p: ClientboundSpawnExperienceOrbView, rest: Seq<u8>) {
        broadcast use group_wire_roundtrip;

        assert(p.raw + rest =~= p.raw);
    }
}

impl Encode for ClientboundSpawnExperienceOrb {
    fn encode(&self, dst: &mut BytesMut) -> (r: Result<(), ProtocolError>) {
        let ghost d0 = bytes_mut_data(*dst);
        put_slice(dst, self.raw.as_slice());
        let ghost mut e: Seq<u8> = self@.raw;
        Ok(())
    }
}

impl Decode for ClientboundSpawnExperienceOrb {
    fn decode(src: &mut Bytes) -> (r: Result<Self, ProtocolError>) {
        let raw = take_remaining(src);
        Ok(Self { raw })
    }
}

// ── ClientboundSpawnLivingEntity ──────────────────────────────────────

#[derive(Debug, Clone, PartialEq)]
pub struct ClientboundSpawnLivingEntity {
    pub entity_id: VarInt,
    /// The UUID as its 128-bit value (`uuid::Uuid::as_u128`).
    pub entity_uuid: u128,
    pub entity_type: VarInt,
    /// The bits of the `f64` value (`f64::to_bits`).
    pub x: u64,
    /// The bits of the `f64` value (`f64::to_bits`).
    pub y: u64,
    /// The bits of the `f64` value (`f64::to_bits`).
    pub z: u64,
    pub yaw: i8,
    pub pitch: i8,
    pub head_pitch: i8,
    pub velocity_x: i16,
    pub velocity_y: i16,
    pub velocity_z: i16,
}

impl View for ClientboundSpawnLivingEntity {
    type V = ClientboundSpawnLivingEntity;

    open spec fn view(&self) -> ClientboundSpawnLivingEntity {
        *self
    }
}

impl PacketId for ClientboundSpawnLivingEntity {
    open spec fn spec_packet_id(ver: u32) -> u8 {
        0x02
    }

    fn packet_id(_ver: u32) -> (r: u8) {
        0x02
    }
}

impl WireFormat for ClientboundSpawnLivingEntity {
    open spec fn spec_encode(p: ClientboundSpawnLivingEntity) -> Seq<u8> {
        VarInt::spec_encode(p.entity_id) + uuid_wire(p.entity_uuid) + VarInt::spec_encode(p.entity_type) + be_u64_bytes(p.x) + be_u64_bytes(p.y) + be_u64_bytes(p.z) + seq![p.yaw as u8] + seq![p.pitch as u8] + seq![p.head_pitch as u8] + be_i16_bytes(p.velocity_x) + be_i16_bytes(p.velocity_y) + be_i16_bytes(p.velocity_z)
    }

    open spec fn spec_decode(s: Seq<u8>) -> Parsed<ClientboundSpawnLivingEntity> {
        then(VarInt::spec_decode(s), |entity_id: VarInt, s: Seq<u8>| then(take_uuid(s), |entity_uuid: u128, s: Seq<u8>| then(VarInt::spec_decode(s), |entity_type: VarInt, s: Seq<u8>| then(take_u64(s), |x: u64, s: Seq<u8>| then(take_u64(s), |y: u64, s: Seq<u8>| then(take_u64(s), |z: u64, s: Seq<u8>| then(take_i8(s), |yaw: i8, s: Seq<u8>| then(take_i8(s), |pitch: i8, s: Seq<u8>| then(take_i8(s), |head_pitch: i8, s: Seq<u8>| then(take_i16(s), |velocity_x: i16, s: Seq<u8>| then(take_i16(s), |velocity_y: i16, s: Seq<u8>| then(take_i16(s), |velocity_z: i16, s: Seq<u8>| (Ok(ClientboundSpawnLivingEntity { entity_id, entity_uuid, entity_type, x, y, z, yaw, pitch, head_pitch, velocity_x, velocity_y, velocity_z }), s)))))))))))))
    }
}

impl Roundtrip for ClientboundSpawnLivingEntity {
    open spec fn encodable(p: ClientboundSpawnLivingEntity) -> bool {
        true
    }

    open spec fn reads_to_end() -> bool {
        false
    }

    #[verifier::rlimit(100)]
    #[verifier::spinoff_prover]
    proof fn lemma_roundtrip(p: ClientboundSpawnLivingEntity, rest: Seq<u8>) {
        broadcast use group_wire_roundtrip;

        let t11 = be_i16_bytes(p.velocity_z) + rest;
        let t10 = be_i16_bytes(p.velocity_y) + t11;
        let t9 = be_i16_bytes(p.velocity_x) + t10;
        let t8 = seq![p.head_pitch as u8] + t9;
        let t7 = seq![p.pitch as u8] + t8;
        let t6 = seq![p.yaw as u8] + t7;
        let t5 = be_u64_bytes(p.z) + t6;
        let t4 = be_u64_bytes(p.y) + t5;
        let t3 = be_u64_bytes(p.x) + t4;
        let t2 = VarInt::spec_encode(p.entity_type) + t3;
        let t1 = uuid_wire(p.entity_uuid) + t2;
        lemma_concat_associative(VarInt::spec_encode(p.entity_id) + uuid_wire(p.entity_uuid) + VarInt::spec_encode(p.entity_type) + be_u64_bytes(p.x) + be_u64_bytes(p.y) + be_u64_bytes(p.z) + seq![p.yaw as u8] + seq![p.pitch as u8] + seq![p.head_pitch as u8] + be_i16_bytes(p.velocity_x) + be_i16_bytes(p.velocity_y), be_i16_bytes(p.velocity_z), rest);
        lemma_concat_associative(VarInt::spec_encode(p.entity_id) + uuid_wire(p.entity_uuid) + VarInt::spec_encode(p.entity_type) + be_u64_bytes(p.x) + be_u64_bytes(p.y) + be_u64_bytes(p.z) + seq![p.yaw as u8] + seq![p.pitch as u8] + seq![p.head_pitch as u8] + be_i16_bytes(p.velocity_x), be_i16_bytes(p.velocity_y), t11);
        lemma_concat_associative(VarInt::spec_encode(p.entity_id) + uuid_wire(p.entity_uuid) + VarInt::spec_encode(p.entity_type) + be_u64_bytes(p.x) + be_u64_bytes(p.y) + be_u64_bytes(p.z) + seq![p.yaw as u8] + seq![p.pitch as u8] + seq![p.head_pitch as u8], be_i16_bytes(p.velocity_x), t10);
        lemma_concat_associative(VarInt::spec_encode(p.entity_id) + uuid_wire(p.entity_uuid) + VarInt::spec_encode(p.entity_type) + be_u64_bytes(p.x) + be_u64_bytes(p.y) + be_u64_bytes(p.z) + seq![p.yaw as u8] + seq![p.pitch as u8], seq![p.head_pitch as u8], t9);
        lemma_concat_associative(VarInt::spec_encode(p.entity_id) + uuid_wire(p.entity_uuid) + VarInt::spec_encode(p.entity_type) + be_u64_bytes(p.x) + be_u64_bytes(p.y) + be_u64_bytes(p.z) + seq![p.yaw as u8], seq![p.pitch as u8], t8);
        lemma_concat_associative(VarInt::spec_encode(p.entity_id) + uuid_wire(p.entity_uuid) + VarInt::spec_encode(p.entity_type) + be_u64_bytes(p.x) + be_u64_bytes(p.y) + be_u64_bytes(p.z), seq![p.yaw as u8], t7);
        lemma_concat_associative(VarInt::spec_encode(p.entity_id) + uuid_wire(p.entity_uuid) + VarInt::spec_encode(p.entity_type) + be_u64_bytes(p.x) + be_u64_bytes(p.y), be_u64_bytes(p.z), t6);
        lemma_concat_associative(VarInt::spec_encode(p.entity_id) + uuid_wire(p.entity_uuid) + VarInt::spec_encode(p.entity_type) + be_u64_bytes(p.x), be_u64_bytes(p.y), t5);
        lemma_concat_associative(VarInt::spec_encode(p.entity_id) + uuid_wire(p.entity_uuid) + VarInt::spec_encode(p.entity_type), be_u64_bytes(p.x), t4);
        lemma_concat_associative(VarInt::spec_encode(p.entity_id) + uuid_wire(p.entity_uuid), VarInt::spec_encode(p.entity_type), t3);
        lemma_concat_associative(VarInt::spec_encode(p.entity_id), uuid_wire(p.entity_uuid), t2);
        VarInt::lemma_roundtrip(p.entity_id, t1);
        lemma_take_uuid(p.entity_uuid, t2);
        VarInt::lemma_roundtrip(p.entity_type, t3);
    }
}

impl Encode for ClientboundSpawnLivingEntity {
    #[verifier::rlimit(100)]
    #[verifier::spinoff_prover]
    fn encode(&self, dst: &mut BytesMut) -> (r: Result<(), ProtocolError>) {
        let ghost d0 = bytes_mut_data(*dst);
        let _ = self.entity_id.encode(dst);
        let ghost mut e: Seq<u8> = VarInt::spec_encode(self@.entity_id);
        put_uuid(dst, self.entity_uuid);
        proof {
            lemma_concat_associative(d0, e, uuid_wire(self@.entity_uuid));
            e = e + uuid_wire(self@.entity_uuid);
        }
        let _ = self.entity_type.encode(dst);
        proof {
            lemma_concat_associative(d0, e, VarInt::spec_encode(self@.entity_type));
            e = e + VarInt::spec_encode(self@.entity_type);
        }
        put_u64(dst, self.x);
        proof {
            lemma_concat_associative(d0, e, be_u64_bytes(self@.x));
            e = e + be_u64_bytes(self@.x);
        }
        put_u64(dst, self.y);
        proof {
            lemma_concat_associative(d0, e, be_u64_bytes(self@.y));
            e = e + be_u64_bytes(self@.y);
        }
        put_u64(dst, self.z);
        proof {
            lemma_concat_associative(d0, e, be_u64_bytes(self@.z));
            e = e + be_u64_bytes(self@.z);
        }
        put_i8(dst, self.yaw);
        proof {
            lemma_concat_associative(d0, e, seq![self@.yaw as u8]);
            e = e + seq![self@.yaw as u8];
        }
        put_i8(dst, self.pitch);
        proof {
            lemma_concat_associative(d0, e, seq![self@.pitch as u8]);
            e = e + seq![self@.pitch as u8];
        }
        put_i8(dst, self.head_pitch);
        proof {
            lemma_concat_associative(d0, e, seq![self@.head_pitch as u8]);
            e = e + seq![self@.head_pitch as u8];
        }
        put_i16(dst, self.velocity_x);
        proof {
            lemma_concat_associative(d0, e, be_i16_bytes(self@.velocity_x));
            e = e + be_i16_bytes(self@.velocity_x);
        }
        put_i16(dst, self.velocity_y);
        proof {
            lemma_concat_associative(d0, e, be_i16_bytes(self@.velocity_y));
            e = e + be_i16_bytes(self@.velocity_y);
        }
        put_i16(dst, self.velocity_z);
        proof {
            lemma_concat_associative(d0, e, be_i16_bytes(self@.velocity_z));
            e = e + be_i16_bytes(self@.velocity_z);
        }
        Ok(())
    }
}

impl Decode for ClientboundSpawnLivingEntity {
    fn decode(src: &mut Bytes) -> (r: Result<Self, ProtocolError>) {
        let entity_id = VarInt::decode(src)?;
        let entity_uuid = get_uuid(src);
        let entity_type = VarInt::decode(src)?;
        let x = get_u64(src);
        let y = get_u64(src);
        let z = get_u64(src);
        let yaw = get_i8(src);
        let pitch = get_i8(src);
        let head_pitch = get_i8(src);
        let velocity_x = get_i16(src);
        let velocity_y = get_i16(src);
        let velocity_z = get_i16(src);
        Ok(Self { entity_id, entity_uuid, entity_type, x, y, z, yaw, pitch, head_pitch, velocity_x, velocity_y, velocity_z })
    }
}

// ── ClientboundSpawnPainting ──────────────────────────────────────────

#[derive(Debug, Clone, PartialEq)]
pub struct ClientboundSpawnPainting {
    pub raw: Vec<u8>,
}

pub struct ClientboundSpawnPaintingView {
    pub raw: Seq<u8>,
}

impl View for ClientboundSpawnPainting {
    type V = ClientboundSpawnPaintingView;

    open spec fn view(&self) -> ClientboundSpawnPaintingView {
        ClientboundSpawnPaintingView {
            raw: self.raw@,
        }
    }
}

impl PacketId for ClientboundSpawnPainting {
    open spec fn spec_packet_id(ver: u32) -> u8 {
        0x03
    }

    fn packet_id(_ver: u32) -> (r: u8) {
        0x03
    }
}

impl WireFormat for ClientboundSpawnPainting {
    open spec fn spec_encode(p: ClientboundSpawnPaintingView) -> Seq<u8> {
        p.raw
    }

    open spec fn spec_decode(s: Seq<u8>) -> Parsed<ClientboundSpawnPaintingView> {
        then(take_rest(s), |raw: Seq<u8>, s: Seq<u8>| (Ok(ClientboundSpawnPaintingView { raw }), s))
    }
}

impl Roundtrip for ClientboundSpawnPainting {
    open spec fn encodable(p: ClientboundSpawnPaintingView) -> bool {
        true
    }

    open spec fn reads_to_end() -> bool {
        true
    }

    proof fn lemma_roundtrip(p: ClientboundSpawnPaintingView, rest: Seq<u8>) {
        broadcast use group_wire_roundtrip;

        assert(p.raw + rest =~= p.raw);
    }
}

impl Encode for ClientboundSpawnPainting {
    fn encode(&self, dst: &mut BytesMut) -> (r: Result<(), ProtocolError>) {
        let ghost d0 = bytes_mut_data(*dst);
        put_slice(dst, self.raw.as_slice());
        let ghost mut e: Seq<u8> = self@.raw;
        Ok(())
    }
}

impl Decode for ClientboundSpawnPainting {
    fn decode(src: &mut Bytes) -> (r: Result<Self, ProtocolError>) {
        let raw = take_remaining(src);
        Ok(Self { raw })
    }
}

// ── ClientboundSpawnPlayer ────────────────────────────────────────────

#[derive(Debug, Clone, PartialEq)]
pub struct ClientboundSpawnPlayer {
    pub entity_id: VarInt,
    /// The UUID as its 128-bit value (`uuid::Uuid::as_u128`).
    pub player_uuid: u128,
    /// The bits of the `f64` value (`f64::to_bits`).
    pub x: u64,
    /// The bits of the `f64` value (`f64::to_bits`).
    pub y: u64,
    /// The bits of the `f64` value (`f64::to_bits`).
    pub z: u64,
    pub yaw: i8,
    pub pitch: i8,
}

impl View for ClientboundSpawnPlayer {
    type V = ClientboundSpawnPlayer;

    open spec fn view(&self) -> ClientboundSpawnPlayer {
        *self
    }
}

impl PacketId for ClientboundSpawnPlayer {
    open spec fn spec_packet_id(ver: u32) -> u8 {
        0x04
    }

    fn packet_id(_ver: u32) -> (r: u8) {
        0x04
    }
}

impl WireFormat for ClientboundSpawnPlayer {
    open spec fn spec_encode(p: ClientboundSpawnPlayer) -> Seq<u8> {
        VarInt::spec_encode(p.entity_id) + uuid_wire(p.player_uuid) + be_u64_bytes(p.x) + be_u64_bytes(p.y) + be_u64_bytes(p.z) + seq![p.yaw as u8] + seq![p.pitch as u8]
    }

    open spec fn spec_decode(s: Seq<u8>) -> Parsed<ClientboundSpawnPlayer> {
        then(VarInt::spec_decode(s), |entity_id: VarInt, s: Seq<u8>| then(take_uuid(s), |player_uuid: u128, s: Seq<u8>| then(take_u64(s), |x: u64, s: Seq<u8>| then(take_u64(s), |y: u64, s: Seq<u8>| then(take_u64(s), |z: u64, s: Seq<u8>| then(take_i8(s), |yaw: i8, s: Seq<u8>| then(take_i8(s), |pitch: i8, s: Seq<u8>| (Ok(ClientboundSpawnPlayer { entity_id, player_uuid, x, y, z, yaw, pitch }), s))))))))
    }
}

impl Roundtrip for ClientboundSpawnPlayer {
    open spec fn encodable(p: ClientboundSpawnPlayer) -> bool {
        true
    }

    open spec fn reads_to_end() -> bool {
        false
    }

    #[verifier::rlimit(100)]
    #[verifier::spinoff_prover]
    proof fn lemma_roundtrip(p: ClientboundSpawnPlayer, rest: Seq<u8>) {
        broadcast use group_wire_roundtrip;

        let t6 = seq![p.pitch as u8] + rest;
        let t5 = seq![p.yaw as u8] + t6;
        let t4 = be_u64_bytes(p.z) + t5;
        let t3 = be_u64_bytes(p.y) + t4;
        let t2 = be_u64_bytes(p.x) + t3;
        let t1 = uuid_wire(p.player_uuid) + t2;
        lemma_concat_associative(VarInt::spec_encode(p.entity_id) + uuid_wire(p.player_uuid) + be_u64_bytes(p.x) + be_u64_bytes(p.y) + be_u64_bytes(p.z) + seq![p.yaw as u8], seq![p.pitch as u8], rest);
        lemma_concat_associative(VarInt::spec_encode(p.entity_id) + uuid_wire(p.player_uuid) + be_u64_bytes(p.x) + be_u64_bytes(p.y) + be_u64_bytes(p.z), seq![p.yaw as u8], t6);
        lemma_concat_associative(VarInt::spec_encode(p.entity_id) + uuid_wire(p.player_uuid) + be_u64_bytes(p.x) + be_u64_bytes(p.y), be_u64_bytes(p.z), t5);
        lemma_concat_associative(VarInt::spec_encode(p.entity_id) + uuid_wire(p.player_uuid) + be_u64_bytes(p.x), be_u64_bytes(p.y), t4);
        lemma_concat_associative(VarInt::spec_encode(p.entity_id) + uuid_wire(p.player_uuid), be_u64_bytes(p.x), t3);
        lemma_concat_associative(VarInt::spec_encode(p.entity_id), uuid_wire(p.player_uuid), t2);
        VarInt::lemma_roundtrip(p.entity_id, t1);
        lemma_take_uuid(p.player_uuid, t2);
    }
}

impl Encode for ClientboundSpawnPlayer {
    fn encode(&self, dst: &mut BytesMut) -> (r: Result<(), ProtocolError>) {
        let ghost d0 = bytes_mut_data(*dst);
        let _ = self.entity_id.encode(dst);
        let ghost mut e: Seq<u8> = VarInt::spec_encode(self@.entity_id);
        put_uuid(dst, self.player_uuid);
        proof {
            lemma_concat_associative(d0, e, uuid_wire(self@.player_uuid));
            e = e + uuid_wire(self@.player_uuid);
        }
        put_u64(dst, self.x);
        proof {
            lemma_concat_associative(d0, e, be_u64_bytes(self@.x));
            e = e + be_u64_bytes(self@.x);
        }
        put_u64(dst, self.y);
        proof {
            lemma_concat_associative(d0, e, be_u64_bytes(self@.y));
            e = e + be_u64_bytes(self@.y);
        }
        put_u64(dst, self.z);
        proof {
            lemma_concat_associative(d0, e, be_u64_bytes(self@.z));
            e = e + be_u64_bytes(self@.z);
        }
        put_i8(dst, self.yaw);
        proof {
            lemma_concat_associative(d0, e, seq![self@.yaw as u8]);
            e = e + seq![self@.yaw as u8];
        }
        put_i8(dst, self.pitch);
        proof {
            lemma_concat_associative(d0, e, seq![self@.pitch as u8]);
            e = e + seq![self@.pitch as u8];
        }
        Ok(())
    }
}

impl Decode for ClientboundSpawnPlayer {
    fn decode(src: &mut Bytes) -> (r: Result<Self, ProtocolError>) {
        let entity_id = VarInt::decode(src)?;
        let player_uuid = get_uuid(src);
        let x = get_u64(src);
        let y = get_u64(src);
        let z = get_u64(src);
        let yaw = get_i8(src);
        let pitch = get_i8(src);
        Ok(Self { entity_id, player_uuid, x, y, z, yaw, pitch })
    }
}

// ── ClientboundEntityAnimation ────────────────────────────────────────

#[derive(Debug, Clone, PartialEq)]
pub struct ClientboundEntityAnimation {
    pub raw: Vec<u8>,
}

pub struct ClientboundEntityAnimationView {
    pub raw: Seq<u8>,
}

impl View for ClientboundEntityAnimation {
    type V = ClientboundEntityAnimationView;

    open spec fn view(&self) -> ClientboundEntityAnimationView {
        ClientboundEntityAnimationView {
            raw: self.raw@,
        }
    }
}

impl PacketId for ClientboundEntityAnimation {
    open spec fn spec_packet_id(ver: u32) -> u8 {
        0x05
    }

    fn packet_id(_ver: u32) -> (r: u8) {
        0x05
    }
}

impl WireFormat for ClientboundEntityAnimation {
    open spec fn spec_encode(p: ClientboundEntityAnimationView) -> Seq<u8> {
        p.raw
    }

    open spec fn spec_decode(s: Seq<u8>) -> Parsed<ClientboundEntityAnimationView> {
        then(take_rest(s), |raw: Seq<u8>, s: Seq<u8>| (Ok(ClientboundEntityAnimationView { raw }), s))
    }
}

impl Roundtrip for ClientboundEntityAnimation {
    open spec fn encodable(p: ClientboundEntityAnimationView) -> bool {
        true
    }

    open spec fn reads_to_end() -> bool {
        true
    }

    proof fn lemma_roundtrip(p: ClientboundEntityAnimationView, rest: Seq<u8>) {
        broadcast use group_wire_roundtrip;

        assert(p.raw + rest =~= p.raw);
    }
}

impl Encode for ClientboundEntityAnimation {
    fn encode(&self, dst: &mut BytesMut) -> (r: Result<(), ProtocolError>) {
        let ghost d0 = bytes_mut_data(*dst);
        put_slice(dst, self.raw.as_slice());
        let ghost mut e: Seq<u8> = self@.raw;
        Ok(())
    }
}

impl Decode for ClientboundEntityAnimation {
    fn decode(src: &mut Bytes) -> (r: Result<Self, ProtocolError>) {
        let raw = take_remaining(src);
        Ok(Self { raw })
    }
}

// ── ClientboundAwardStats ─────────────────────────────────────────────

#[derive(Debug, Clone, PartialEq)]
pub struct ClientboundAwardStats {
    pub raw: Vec<u8>,
}

pub struct ClientboundAwardStatsView {
    pub raw: Seq<u8>,
}

impl View for ClientboundAwardStats {
    type V = ClientboundAwardStatsView;

    open spec fn view(&self) -> ClientboundAwardStatsView {
        ClientboundAwardStatsView {
            raw: self.raw@,
        }
    }
}

impl PacketId for ClientboundAwardStats {
    open spec fn spec_packet_id(ver: u32) -> u8 {
        0x06
    }

    fn packet_id(_ver: u32) -> (r: u8) {
        0x06
    }
}

impl WireFormat for ClientboundAwardStats {
    open spec fn spec_encode(p: ClientboundAwardStatsView) -> Seq<u8> {
        p.raw
    }

    open spec fn spec_decode(s: Seq<u8>) -> Parsed<ClientboundAwardStatsView> {
        then(take_rest(s), |raw: Seq<u8>, s: Seq<u8>| (Ok(ClientboundAwardStatsView { raw }), s))
    }
}

impl Roundtrip for ClientboundAwardStats {
    open spec fn encodable(p: ClientboundAwardStatsView) -> bool {
        true
    }

    open spec fn reads_to_end() -> bool {
        true
    }

    proof fn lemma_roundtrip(p: ClientboundAwardStatsView, rest: Seq<u8>) {
        broadcast use group_wire_roundtrip;

        assert(p.raw + rest =~= p.raw);
    }
}

impl Encode for ClientboundAwardStats {
    fn encode(&self, dst: &mut BytesMut) -> (r: Result<(), ProtocolError>) {
        let ghost d0 = bytes_mut_data(*dst);
        put_slice(dst, self.raw.as_slice());
        let ghost mut e: Seq<u8> = self@.raw;
        Ok(())
    }
}

impl Decode for ClientboundAwardStats {
    fn decode(src: &mut Bytes) -> (r: Result<Self, ProtocolError>) {
        let raw = take_remaining(src);
        Ok(Self { raw })
    }
}

// ── ClientboundAcknowledgePlayerDigging ───────────────────────────────

#[derive(Debug, Clone, PartialEq)]
pub struct ClientboundAcknowledgePlayerDigging {
    pub raw: Vec<u8>,
}

pub struct ClientboundAcknowledgePlayerDiggingView {
    pub raw: Seq<u8>,
}

impl View for ClientboundAcknowledgePlayerDigging {
    type V = ClientboundAcknowledgePlayerDiggingView;

    open spec fn view(&self) -> ClientboundAcknowledgePlayerDiggingView {
        ClientboundAcknowledgePlayerDiggingView {
            raw: self.raw@,
        }
    }
}

impl PacketId for ClientboundAcknowledgePlayerDigging {
    open spec fn spec_packet_id(ver: u32) -> u8 {
        0x07
    }

    fn packet_id(_ver: u32) -> (r: u8) {
        0x07
    }
}

impl WireFormat for ClientboundAcknowledgePlayerDigging {
    open spec fn spec_encode(p: ClientboundAcknowledgePlayerDiggingView) -> Seq<u8> {
        p.raw
    }

    open spec fn spec_decode(s: Seq<u8>) -> Parsed<ClientboundAcknowledgePlayerDiggingView> {
        then(take_rest(s), |raw: Seq<u8>, s: Seq<u8>| (Ok(ClientboundAcknowledgePlayerDiggingView { raw }), s))
    }
}

impl Roundtrip for ClientboundAcknowledgePlayerDigging {
    open spec fn encodable(p: ClientboundAcknowledgePlayerDiggingView) -> bool {
        true
    }

    open spec fn reads_to_end() -> bool {
        true
    }

    proof fn lemma_roundtrip(p: ClientboundAcknowledgePlayerDiggingView, rest: Seq<u8>) {
        broadcast use group_wire_roundtrip;

        assert(p.raw + rest =~= p.raw);
    }
}

impl Encode for ClientboundAcknowledgePlayerDigging {
    fn encode(&self, dst: &mut BytesMut) -> (r: Result<(), ProtocolError>) {
        let ghost d0 = bytes_mut_data(*dst);
        put_slice(dst, self.raw.as_slice());
        let ghost mut e: Seq<u8> = self@.raw;
        Ok(())
    }
}

impl Decode for ClientboundAcknowledgePlayerDigging {
    fn decode(src: &mut Bytes) -> (r: Result<Self, ProtocolError>) {
        let raw = take_remaining(src);
        Ok(Self { raw })
    }
}

// ── ClientboundBlockBreakAnimation ────────────────────────────────────

#[derive(Debug, Clone, PartialEq)]
pub struct ClientboundBlockBreakAnimation {
    pub raw: Vec<u8>,
}

pub struct ClientboundBlockBreakAnimationView {
    pub raw: Seq<u8>,
}

impl View for ClientboundBlockBreakAnimation {
    type V = ClientboundBlockBreakAnimationView;

    open spec fn view(&self) -> ClientboundBlockBreakAnimationView {
        ClientboundBlockBreakAnimationView {
            raw: self.raw@,
        }
    }
}

impl PacketId for ClientboundBlockBreakAnimation {
    open spec fn spec_packet_id(ver: u32) -> u8 {
        0x08
    }

    fn packet_id(_ver: u32) -> (r: u8) {
        0x08
    }
}

impl WireFormat for ClientboundBlockBreakAnimation {
    open spec fn spec_encode(p: ClientboundBlockBreakAnimationView) -> Seq<u8> {
        p.raw
    }

    open spec fn spec_decode(s: Seq<u8>) -> Parsed<ClientboundBlockBreakAnimationView> {
        then(take_rest(s), |raw: Seq<u8>, s: Seq<u8>| (Ok(ClientboundBlockBreakAnimationView { raw }), s))
    }
}

impl Roundtrip for ClientboundBlockBreakAnimation {
    open spec fn encodable(p: ClientboundBlockBreakAnimationView) -> bool {
        true
    }

    open spec fn reads_to_end() -> bool {
        true
    }

    proof fn lemma_roundtrip(p: ClientboundBlockBreakAnimationView, rest: Seq<u8>) {
        broadcast use group_wire_roundtrip;

        assert(p.raw + rest =~= p.raw);
    }
}

impl Encode for ClientboundBlockBreakAnimation {
    fn encode(&self, dst: &mut BytesMut) -> (r: Result<(), ProtocolError>) {
        let ghost d0 = bytes_mut_data(*dst);
        put_slice(dst, self.raw.as_slice());
        let ghost mut e: Seq<u8> = self@.raw;
        Ok(())
    }
}

impl Decode for ClientboundBlockBreakAnimation {
    fn decode(src: &mut Bytes) -> (r: Result<Self, ProtocolError>) {
        let raw = take_remaining(src);
        Ok(Self { raw })
    }
}

// ── ClientboundBlockEntityData ────────────────────────────────────────

#[derive(Debug, Clone, PartialEq)]
pub struct ClientboundBlockEntityData {
    pub raw: Vec<u8>,
}

pub struct ClientboundBlockEntityDataView {
    pub raw: Seq<u8>,
}

impl View for ClientboundBlockEntityData {
    type V = ClientboundBlockEntityDataView;

    open spec fn view(&self) -> ClientboundBlockEntityDataView {
        ClientboundBlockEntityDataView {
            raw: self.raw@,
        }
    }
}

impl PacketId for ClientboundBlockEntityData {
    open spec fn spec_packet_id(ver: u32) -> u8 {
        0x09
    }

    fn packet_id(_ver: u32) -> (r: u8) {
        0x09
    }
}

impl WireFormat for ClientboundBlockEntityData {
    open spec fn spec_encode(p: ClientboundBlockEntityDataView) -> Seq<u8> {
        p.raw
    }

    open spec fn spec_decode(s: Seq<u8>) -> Parsed<ClientboundBlockEntityDataView> {
        then(take_rest(s), |raw: Seq<u8>, s: Seq<u8>| (Ok(ClientboundBlockEntityDataView { raw }), s))
    }
}

impl Roundtrip for ClientboundBlockEntityData {
    open spec fn encodable(p: ClientboundBlockEntityDataView) -> bool {
        true
    }

    open spec fn reads_to_end() -> bool {
        true
    }

    proof fn lemma_roundtrip(p: ClientboundBlockEntityDataView, rest: Seq<u8>) {
        broadcast use group_wire_roundtrip;

        assert(p.raw + rest =~= p.raw);
    }
}

impl Encode for ClientboundBlockEntityData {
    fn encode(&self, dst: &mut BytesMut) -> (r: Result<(), ProtocolError>) {
        let ghost d0 = bytes_mut_data(*dst);
        put_slice(dst, self.raw.as_slice());
        let ghost mut e: Seq<u8> = self@.raw;
        Ok(())
    }
}

impl Decode for ClientboundBlockEntityData {
    fn decode(src: &mut Bytes) -> (r: Result<Self, ProtocolError>) {
        let raw = take_remaining(src);
        Ok(Self { raw })
    }
}

// ── ClientboundBlockAction ────────────────────────────────────────────

#[derive(Debug, Clone, PartialEq)]
pub struct ClientboundBlockAction {
    pub raw: Vec<u8>,
}

pub struct ClientboundBlockActionView {
    pub raw: Seq<u8>,
}

impl View for ClientboundBlockAction {
    type V = ClientboundBlockActionView;

    open spec fn view(&self) -> ClientboundBlockActionView {
        ClientboundBlockActionView {
            raw: self.raw@,
        }
    }
}

impl PacketId for ClientboundBlockAction {
    open spec fn spec_packet_id(ver: u32) -> u8 {
        0x0A
    }

    fn packet_id(_ver: u32) -> (r: u8) {
        0x0A
    }
}

impl WireFormat for ClientboundBlockAction {
    open spec fn spec_encode(p: ClientboundBlockActionView) -> Seq<u8> {
        p.raw
    }

    open spec fn spec_decode(s: Seq<u8>) -> Parsed<ClientboundBlockActionView> {
        then(take_rest(s), |raw: Seq<u8>, s: Seq<u8>| (Ok(ClientboundBlockActionView { raw }), s))
    }
}

impl Roundtrip for ClientboundBlockAction {
    open spec fn encodable(p: ClientboundBlockActionView) -> bool {
        true
    }

    open spec fn reads_to_end() -> bool {
        true
    }

    proof fn lemma_roundtrip(p: ClientboundBlockActionView, rest: Seq<u8>) {
        broadcast use group_wire_roundtrip;

        assert(p.raw + rest =~= p.raw);
    }
}

impl Encode for ClientboundBlockAction {
    fn encode(&self, dst: &mut BytesMut) -> (r: Result<(), ProtocolError>) {
        let ghost d0 = bytes_mut_data(*dst);
        put_slice(dst, self.raw.as_slice());
        let ghost mut e: Seq<u8> = self@.raw;
        Ok(())
    }
}

impl Decode for ClientboundBlockAction {
    fn decode(src: &mut Bytes) -> (r: Result<Self, ProtocolError>) {
        let raw = take_remaining(src);
        Ok(Self { raw })
    }
}

// ── ClientboundBlockChange ────────────────────────────────────────────

#[derive(Debug, Clone, PartialEq)]
pub struct ClientboundBlockChange {
    pub location: VarInt,
    pub block_state: VarInt,
}

impl View for ClientboundBlockChange {
    type V = ClientboundBlockChange;

    open spec fn view(&self) -> ClientboundBlockChange {
        *self
    }
}

impl PacketId for ClientboundBlockChange {
    open spec fn spec_packet_id(ver: u32) -> u8 {
        0x0B
    }

    fn packet_id(_ver: u32) -> (r: u8) {
        0x0B
    }
}

impl WireFormat for ClientboundBlockChange {
    open spec fn spec_encode(p: ClientboundBlockChange) -> Seq<u8> {
        VarInt::spec_encode(p.location) + VarInt::spec_encode(p.block_state)
    }

    open spec fn spec_decode(s: Seq<u8>) -> Parsed<ClientboundBlockChange> {
        then(VarInt::spec_decode(s), |location: VarInt, s: Seq<u8>| then(VarInt::spec_decode(s), |block_state: VarInt, s: Seq<u8>| (Ok(ClientboundBlockChange { location, block_state }), s)))
    }
}

impl Roundtrip for ClientboundBlockChange {
    open spec fn encodable(p: ClientboundBlockChange) -> bool {
        true
    }

    open spec fn reads_to_end() -> bool {
        false
    }

    proof fn lemma_roundtrip(p: ClientboundBlockChange, rest: Seq<u8>) {
        broadcast use group_wire_roundtrip;

        let t1 = VarInt::spec_encode(p.block_state) + rest;
        lemma_concat_associative(VarInt::spec_encode(p.location), VarInt::spec_encode(p.block_state), rest);
        VarInt::lemma_roundtrip(p.location, t1);
        VarInt::lemma_roundtrip(p.block_state, rest);
    }
}

impl Encode for ClientboundBlockChange {
    fn encode(&self, dst: &mut BytesMut) -> (r: Result<(), ProtocolError>) {
        let ghost d0 = bytes_mut_data(*dst);
        let _ = self.location.encode(dst);
        let ghost mut e: Seq<u8> = VarInt::spec_encode(self@.location);
        let _ = self.block_state.encode(dst);
        proof {
            lemma_concat_associative(d0, e, VarInt::spec_encode(self@.block_state));
            e = e + VarInt::spec_encode(self@.block_state);
        }
        Ok(())
    }
}

impl Decode for ClientboundBlockChange {
    fn decode(src: &mut Bytes) -> (r: Result<Self, ProtocolError>) {
        let location = VarInt::decode(src)?;
        let block_state = VarInt::decode(src)?;
        Ok(Self { location, block_state })
    }
}

// ── ClientboundBossBar ────────────────────────────────────────────────

#[derive(Debug, Clone, PartialEq)]
pub struct ClientboundBossBar {
    pub raw: Vec<u8>,
}

pub struct ClientboundBossBarView {
    pub raw: Seq<u8>,
}

impl View for ClientboundBossBar {
    type V = ClientboundBossBarView;

    open spec fn view(&self) -> ClientboundBossBarView {
        ClientboundBossBarView {
            raw: self.raw@,
        }
    }
}

impl PacketId for ClientboundBossBar {
    open spec fn spec_packet_id(ver: u32) -> u8 {
        0x0C
    }

    fn packet_id(_ver: u32) -> (r: u8) {
        0x0C
    }
}

impl WireFormat for ClientboundBossBar {
    open spec fn spec_encode(p: ClientboundBossBarView) -> Seq<u8> {
        p.raw
    }

    open spec fn spec_decode(s: Seq<u8>) -> Parsed<ClientboundBossBarView> {
        then(take_rest(s), |raw: Seq<u8>, s: Seq<u8>| (Ok(ClientboundBossBarView { raw }), s))
    }
}

impl Roundtrip for ClientboundBossBar {
    open spec fn encodable(p: ClientboundBossBarView) -> bool {
        true
    }

    open spec fn reads_to_end() -> bool {
        true
    }

    proof fn lemma_roundtrip(p: ClientboundBossBarView, rest: Seq<u8>) {
        broadcast use group_wire_roundtrip;

        assert(p.raw + rest =~= p.raw);
    }
}

impl Encode for ClientboundBossBar {
    fn encode(&self, dst: &mut BytesMut) -> (r: Result<(), ProtocolError>) {
        let ghost d0 = bytes_mut_data(*dst);
        put_slice(dst, self.raw.as_slice());
        let ghost mut e: Seq<u8> = self@.raw;
        Ok(())
    }
}

impl Decode for ClientboundBossBar {
    fn decode(src: &mut Bytes) -> (r: Result<Self, ProtocolError>) {
        let raw = take_remaining(src);
        Ok(Self { raw })
    }
}

// ── ClientboundServerDifficulty ───────────────────────────────────────

#[derive(Debug, Clone, PartialEq)]
pub struct ClientboundServerDifficulty {
    pub raw: Vec<u8>,
}

pub struct ClientboundServerDifficultyView {
    pub raw: Seq<u8>,
}

impl View for ClientboundServerDifficulty {
    type V = ClientboundServerDifficultyView;

    open spec fn view(&self) -> ClientboundServerDifficultyView {
        ClientboundServerDifficultyView {
            raw: self.raw@,
        }
    }
}

impl PacketId for ClientboundServerDifficulty {
    open spec fn spec_packet_id(ver: u32) -> u8 {
        0x0D
    }

    fn packet_id(_ver: u32) -> (r: u8) {
        0x0D
    }
}

impl WireFormat for ClientboundServerDifficulty {
    open spec fn spec_encode(p: ClientboundServerDifficultyView) -> Seq<u8> {
        p.raw
    }

    open spec fn spec_decode(s: Seq<u8>) -> Parsed<ClientboundServerDifficultyView> {
        then(take_rest(s), |raw: Seq<u8>, s: Seq<u8>| (Ok(ClientboundServerDifficultyView { raw }), s))
    }
}

impl Roundtrip for ClientboundServerDifficulty {
    open spec fn encodable(p: ClientboundServerDifficultyView) -> bool {
        true
    }

    open spec fn reads_to_end() -> bool {
        true
    }

    proof fn lemma_roundtrip(p: ClientboundServerDifficultyView, rest: Seq<u8>) {
        broadcast use group_wire_roundtrip;

        assert(p.raw + rest =~= p.raw);
    }
}

impl Encode for ClientboundServerDifficulty {
    fn encode(&self, dst: &mut BytesMut) -> (r: Result<(), ProtocolError>) {
        let ghost d0 = bytes_mut_data(*dst);
        put_slice(dst, self.raw.as_slice());
        let ghost mut e: Seq<u8> = self@.raw;
        Ok(())
    }
}

impl Decode for ClientboundServerDifficulty {
    fn decode(src: &mut Bytes) -> (r: Result<Self, ProtocolError>) {
        let raw = take_remaining(src);
        Ok(Self { raw })
    }
}

// ── ClientboundTabComplete ────────────────────────────────────────────

#[derive(Debug, Clone, PartialEq)]
pub struct ClientboundTabComplete {
    pub raw: Vec<u8>,
}

pub struct ClientboundTabCompleteView {
    pub raw: Seq<u8>,
}

impl View for ClientboundTabComplete {
    type V = ClientboundTabCompleteView;

    open spec fn view(&self) -> ClientboundTabCompleteView {
        ClientboundTabCompleteView {
            raw: self.raw@,
        }
    }
}

impl PacketId for ClientboundTabComplete {
    open spec fn spec_packet_id(ver: u32) -> u8 {
        0x0F
    }

    fn packet_id(_ver: u32) -> (r: u8) {
        0x0F
    }
}

impl WireFormat for ClientboundTabComplete {
    open spec fn spec_encode(p: ClientboundTabCompleteView) -> Seq<u8> {
        p.raw
    }

    open spec fn spec_decode(s: Seq<u8>) -> Parsed<ClientboundTabCompleteView> {
        then(take_rest(s), |raw: Seq<u8>, s: Seq<u8>| (Ok(ClientboundTabCompleteView { raw }), s))
    }
}

impl Roundtrip for ClientboundTabComplete {
    open spec fn encodable(p: ClientboundTabCompleteView) -> bool {
        true
    }

    open spec fn reads_to_end() -> bool {
        true
    }

    proof fn lemma_roundtrip(p: ClientboundTabCompleteView, rest: Seq<u8>) {
        broadcast use group_wire_roundtrip;

        assert(p.raw + rest =~= p.raw);
    }
}

impl Encode for ClientboundTabComplete {
    fn encode(&self, dst: &mut BytesMut) -> (r: Result<(), ProtocolError>) {
        let ghost d0 = bytes_mut_data(*dst);
        put_slice(dst, self.raw.as_slice());
        let ghost mut e: Seq<u8> = self@.raw;
        Ok(())
    }
}

impl Decode for ClientboundTabComplete {
    fn decode(src: &mut Bytes) -> (r: Result<Self, ProtocolError>) {
        let raw = take_remaining(src);
        Ok(Self { raw })
    }
}

// ── ClientboundDeclareCommands ────────────────────────────────────────

#[derive(Debug, Clone, PartialEq)]
pub struct ClientboundDeclareCommands {
    pub raw: Vec<u8>,
}

pub struct ClientboundDeclareCommandsView {
    pub raw: Seq<u8>,
}

impl View for ClientboundDeclareCommands {
    type V = ClientboundDeclareCommandsView;

    open spec fn view(&self) -> ClientboundDeclareCommandsView {
        ClientboundDeclareCommandsView {
            raw: self.raw@,
        }
    }
}

impl PacketId for ClientboundDeclareCommands {
    open spec fn spec_packet_id(ver: u32) -> u8 {
        0x10
    }

    fn packet_id(_ver: u32) -> (r: u8) {
        0x10
    }
}

impl WireFormat for ClientboundDeclareCommands {
    open spec fn spec_encode(p: ClientboundDeclareCommandsView) -> Seq<u8> {
        p.raw
    }

    open spec fn spec_decode(s: Seq<u8>) -> Parsed<ClientboundDeclareCommandsView> {
        then(take_rest(s), |raw: Seq<u8>, s: Seq<u8>| (Ok(ClientboundDeclareCommandsView { raw }), s))
    }
}

impl Roundtrip for ClientboundDeclareCommands {
    open spec fn encodable(p: ClientboundDeclareCommandsView) -> bool {
        true
    }

    open spec fn reads_to_end() -> bool {
        true
    }

    proof fn lemma_roundtrip(p: ClientboundDeclareCommandsView, rest: Seq<u8>) {
        broadcast use group_wire_roundtrip;

        assert(p.raw + rest =~= p.raw);
    }
}

impl Encode for ClientboundDeclareCommands {
    fn encode(&self, dst: &mut BytesMut) -> (r: Result<(), ProtocolError>) {
        let ghost d0 = bytes_mut_data(*dst);
        put_slice(dst, self.raw.as_slice());
        let ghost mut e: Seq<u8> = self@.raw;
        Ok(())
    }
}

impl Decode for ClientboundDeclareCommands {
    fn decode(src: &mut Bytes) -> (r: Result<Self, ProtocolError>) {
        let raw = take_remaining(src);
        Ok(Self { raw })
    }
}

// ── ClientboundWindowConfirmation ─────────────────────────────────────

#[derive(Debug, Clone, PartialEq)]
pub struct ClientboundWindowConfirmation {
    pub raw: Vec<u8>,
}

pub struct ClientboundWindowConfirmationView {
    pub raw: Seq<u8>,
}

impl View for ClientboundWindowConfirmation {
    type V = ClientboundWindowConfirmationView;

    open spec fn view(&self) -> ClientboundWindowConfirmationView {
        ClientboundWindowConfirmationView {
            raw: self.raw@,
        }
    }
}

impl PacketId for ClientboundWindowConfirmation {
    open spec fn spec_packet_id(ver: u32) -> u8 {
        0x11
    }

    fn packet_id(_ver: u32) -> (r: u8) {
        0x11
    }
}

impl WireFormat for ClientboundWindowConfirmation {
    open spec fn spec_encode(p: ClientboundWindowConfirmationView) -> Seq<u8> {
        p.raw
    }

    open spec fn spec_decode(s: Seq<u8>) -> Parsed<ClientboundWindowConfirmationView> {
        then(take_rest(s), |raw: Seq<u8>, s: Seq<u8>| (Ok(ClientboundWindowConfirmationView { raw }), s))
    }
}

impl Roundtrip for ClientboundWindowConfirmation {
    open spec fn encodable(p: ClientboundWindowConfirmationView) -> bool {
        true
    }

    open spec fn reads_to_end() -> bool {
        true
    }

    proof fn lemma_roundtrip(p: ClientboundWindowConfirmationView, rest: Seq<u8>) {
        broadcast use group_wire_roundtrip;

        assert(p.raw + rest =~= p.raw);
    }
}

impl Encode for ClientboundWindowConfirmation {
    fn encode(&self, dst: &mut BytesMut) -> (r: Result<(), ProtocolError>) {
        let ghost d0 = bytes_mut_data(*dst);
        put_slice(dst, self.raw.as_slice());
        let ghost mut e: Seq<u8> = self@.raw;
        Ok(())
    }
}

impl Decode for ClientboundWindowConfirmation {
    fn decode(src: &mut Bytes) -> (r: Result<Self, ProtocolError>) {
        let raw = take_remaining(src);
        Ok(Self { raw })
    }
}

// ── ClientboundCloseWindow ────────────────────────────────────────────

#[derive(Debug, Clone, PartialEq)]
pub struct ClientboundCloseWindow {
    pub window_id: u8,
}

impl View for ClientboundCloseWindow {
    type V = ClientboundCloseWindow;

    open spec fn view(&self) -> ClientboundCloseWindow {
        *self
    }
}

impl PacketId for ClientboundCloseWindow {
    open spec fn spec_packet_id(ver: u32) -> u8 {
        0x12
    }

    fn packet_id(_ver: u32) -> (r: u8) {
        0x12
    }
}

impl WireFormat for ClientboundCloseWindow {
    open spec fn spec_encode(p: ClientboundCloseWindow) -> Seq<u8> {
        seq![p.window_id]
    }

    open spec fn spec_decode(s: Seq<u8>) -> Parsed<ClientboundCloseWindow> {
        then(need_spec(s, 1), |_u: (), s: Seq<u8>| then(take_u8(s), |window_id: u8, s: Seq<u8>| (Ok(ClientboundCloseWindow { window_id }), s)))
    }
}

impl Roundtrip for ClientboundCloseWindow {
    open spec fn encodable(p: ClientboundCloseWindow) -> bool {
        true
    }

    open spec fn reads_to_end() -> bool {
        false
    }

    proof fn lemma_roundtrip(p: ClientboundCloseWindow, rest: Seq<u8>) {
        broadcast use group_wire_roundtrip;

    }
}

impl Encode for ClientboundCloseWindow {
    fn encode(&self, dst: &mut BytesMut) -> (r: Result<(), ProtocolError>) {
        let ghost d0 = bytes_mut_data(*dst);
        put_u8(dst, self.window_id);
        let ghost mut e: Seq<u8> = seq![self@.window_id];
        Ok(())
    }
}

impl Decode for ClientboundCloseWindow {
    fn decode(src: &mut Bytes) -> (r: Result<Self, ProtocolError>) {
        need(src, 1)?;
        let window_id = get_u8(src);
        Ok(Self { window_id })
    }
}

// ── ClientboundWindowProperty ─────────────────────────────────────────

#[derive(Debug, Clone, PartialEq)]
pub struct ClientboundWindowProperty {
    pub raw: Vec<u8>,
}

pub struct ClientboundWindowPropertyView {
    pub raw: Seq<u8>,
}

impl View for ClientboundWindowProperty {
    type V = ClientboundWindowPropertyView;

    open spec fn view(&self) -> ClientboundWindowPropertyView {
        ClientboundWindowPropertyView {
            raw: self.raw@,
        }
    }
}

impl PacketId for ClientboundWindowProperty {
    open spec fn spec_packet_id(ver: u32) -> u8 {
        0x14
    }

    fn packet_id(_ver: u32) -> (r: u8) {
        0x14
    }
}

impl WireFormat for ClientboundWindowProperty {
    open spec fn spec_encode(p: ClientboundWindowPropertyView) -> Seq<u8> {
        p.raw
    }

    open spec fn spec_decode(s: Seq<u8>) -> Parsed<ClientboundWindowPropertyView> {
        then(take_rest(s), |raw: Seq<u8>, s: Seq<u8>| (Ok(ClientboundWindowPropertyView { raw }), s))
    }
}

impl Roundtrip for ClientboundWindowProperty {
    open spec fn encodable(p: ClientboundWindowPropertyView) -> bool {
        true
    }

    open spec fn reads_to_end() -> bool {
        true
    }

    proof fn lemma_roundtrip(p: ClientboundWindowPropertyView, rest: Seq<u8>) {
        broadcast use group_wire_roundtrip;

        assert(p.raw + rest =~= p.raw);
    }
}

impl Encode for ClientboundWindowProperty {
    fn encode(&self, dst: &mut BytesMut) -> (r: Result<(), ProtocolError>) {
        let ghost d0 = bytes_mut_data(*dst);
        put_slice(dst, self.raw.as_slice());
        let ghost mut e: Seq<u8> = self@.raw;
        Ok(())
    }
}

impl Decode for ClientboundWindowProperty {
    fn decode(src: &mut Bytes) -> (r: Result<Self, ProtocolError>) {
        let raw = take_remaining(src);
        Ok(Self { raw })
    }
}

// ── ClientboundSetCooldown ────────────────────────────────────────────

#[derive(Debug, Clone, PartialEq)]
pub struct ClientboundSetCooldown {
    pub raw: Vec<u8>,
}

pub struct ClientboundSetCooldownView {
    pub raw: Seq<u8>,
}

impl View for ClientboundSetCooldown {
    type V = ClientboundSetCooldownView;

    open spec fn view(&self) -> ClientboundSetCooldownView {
        ClientboundSetCooldownView {
            raw: self.raw@,
        }
    }
}

impl PacketId for ClientboundSetCooldown {
    open spec fn spec_packet_id(ver: u32) -> u8 {
        0x16
    }

    fn packet_id(_ver: u32) -> (r: u8) {
        0x16
    }
}

impl WireFormat for ClientboundSetCooldown {
    open spec fn spec_encode(p: ClientboundSetCooldownView) -> Seq<u8> {
        p.raw
    }

    open spec fn spec_decode(s: Seq<u8>) -> Parsed<ClientboundSetCooldownView> {
        then(take_rest(s), |raw: Seq<u8>, s: Seq<u8>| (Ok(ClientboundSetCooldownView { raw }), s))
    }
}

impl Roundtrip for ClientboundSetCooldown {
    open spec fn encodable(p: ClientboundSetCooldownView) -> bool {
        true
    }

    open spec fn reads_to_end() -> bool {
        true
    }

    proof fn lemma_roundtrip(p: ClientboundSetCooldownView, rest: Seq<u8>) {
        broadcast use group_wire_roundtrip;

        assert(p.raw + rest =~= p.raw);
    }
}

impl Encode for ClientboundSetCooldown {
    fn encode(&self, dst: &mut BytesMut) -> (r: Result<(), ProtocolError>) {
        let ghost d0 = bytes_mut_data(*dst);
        put_slice(dst, self.raw.as_slice());
        let ghost mut e: Seq<u8> = self@.raw;
        Ok(())
    }
}

impl Decode for ClientboundSetCooldown {
    fn decode(src: &mut Bytes) -> (r: Result<Self, ProtocolError>) {
        let raw = take_remaining(src);
        Ok(Self { raw })
    }
}

// ── ClientboundEntityStatus ───────────────────────────────────────────

#[derive(Debug, Clone, PartialEq)]
pub struct ClientboundEntityStatus {
    pub raw: Vec<u8>,
}

pub struct ClientboundEntityStatusView {
    pub raw: Seq<u8>,
}

impl View for ClientboundEntityStatus {
    type V = ClientboundEntityStatusView;

    open spec fn view(&self) -> ClientboundEntityStatusView {
        ClientboundEntityStatusView {
            raw: self.raw@,
        }
    }
}

impl PacketId for ClientboundEntityStatus {
    open spec fn spec_packet_id(ver: u32) -> u8 {
        0x1A
    }

    fn packet_id(_ver: u32) -> (r: u8) {
        0x1A
    }
}

impl WireFormat for ClientboundEntityStatus {
    open spec fn spec_encode(p: ClientboundEntityStatusView) -> Seq<u8> {
        p.raw
    }

    open spec fn spec_decode(s: Seq<u8>) -> Parsed<ClientboundEntityStatusView> {
        then(take_rest(s), |raw: Seq<u8>, s: Seq<u8>| (Ok(ClientboundEntityStatusView { raw }), s))
    }
}

impl Roundtrip for ClientboundEntityStatus {
    open spec fn encodable(p: ClientboundEntityStatusView) -> bool {
        true
    }

    open spec fn reads_to_end() -> bool {
        true
    }

    proof fn lemma_roundtrip(p: ClientboundEntityStatusView, rest: Seq<u8>) {
        broadcast use group_wire_roundtrip;

        assert(p.raw + rest =~= p.raw);
    }
}

impl Encode for ClientboundEntityStatus {
    fn encode(&self, dst: &mut BytesMut) -> (r: Result<(), ProtocolError>) {
        let ghost d0 = bytes_mut_data(*dst);
        put_slice(dst, self.raw.as_slice());
        let ghost mut e: Seq<u8> = self@.raw;
        Ok(())
    }
}

impl Decode for ClientboundEntityStatus {
    fn decode(src: &mut Bytes) -> (r: Result<Self, ProtocolError>) {
        let raw = take_remaining(src);
        Ok(Self { raw })
    }
}

// ── ClientboundExplosion ──────────────────────────────────────────────

#[derive(Debug, Clone, PartialEq)]
pub struct ClientboundExplosion {
    pub raw: Vec<u8>,
}

pub struct ClientboundExplosionView {
    pub raw: Seq<u8>,
}

impl View for ClientboundExplosion {
    type V = ClientboundExplosionView;

    open spec fn view(&self) -> ClientboundExplosionView {
        ClientboundExplosionView {
            raw: self.raw@,
        }
    }
}

impl PacketId for ClientboundExplosion {
    open spec fn spec_packet_id(ver: u32) -> u8 {
        0x1B
    }

    fn packet_id(_ver: u32) -> (r: u8) {
        0x1B
    }
}

impl WireFormat for ClientboundExplosion {
    open spec fn spec_encode(p: ClientboundExplosionView) -> Seq<u8> {
        p.raw
    }

    open spec fn spec_decode(s: Seq<u8>) -> Parsed<ClientboundExplosionView> {
        then(take_rest(s), |raw: Seq<u8>, s: Seq<u8>| (Ok(ClientboundExplosionView { raw }), s))
    }
}

impl Roundtrip for ClientboundExplosion {
    open spec fn encodable(p: ClientboundExplosionView) -> bool {
        true
    }

    open spec fn reads_to_end() -> bool {
        true
    }

    proof fn lemma_roundtrip(p: ClientboundExplosionView, rest: Seq<u8>) {
        broadcast use group_wire_roundtrip;

        assert(p.raw + rest =~= p.raw);
    }
}

impl Encode for ClientboundExplosion {
    fn encode(&self, dst: &mut BytesMut) -> (r: Result<(), ProtocolError>) {
        let ghost d0 = bytes_mut_data(*dst);
        put_slice(dst, self.raw.as_slice());
        let ghost mut e: Seq<u8> = self@.raw;
        Ok(())
    }
}

impl Decode for ClientboundExplosion {
    fn decode(src: &mut Bytes) -> (r: Result<Self, ProtocolError>) {
        let raw = take_remaining(src);
        Ok(Self { raw })
    }
}

// ── ClientboundUnloadChunk ────────────────────────────────────────────

#[derive(Debug, Clone, PartialEq)]
pub struct ClientboundUnloadChunk {
    pub raw: Vec<u8>,
}

pub struct ClientboundUnloadChunkView {
    pub raw: Seq<u8>,
}

impl View for ClientboundUnloadChunk {
    type V = ClientboundUnloadChunkView;

    open spec fn view(&self) -> ClientboundUnloadChunkView {
        ClientboundUnloadChunkView {
            raw: self.raw@,
        }
    }
}

impl PacketId for ClientboundUnloadChunk {
    open spec fn spec_packet_id(ver: u32) -> u8 {
        0x1C
    }

    fn packet_id(_ver: u32) -> (r: u8) {
        0x1C
    }
}

impl WireFormat for ClientboundUnloadChunk {
    open spec fn spec_encode(p: ClientboundUnloadChunkView) -> Seq<u8> {
        p.raw
    }

    open spec fn spec_decode(s: Seq<u8>) -> Parsed<ClientboundUnloadChunkView> {
        then(take_rest(s), |raw: Seq<u8>, s: Seq<u8>| (Ok(ClientboundUnloadChunkView { raw }), s))
    }
}

impl Roundtrip for ClientboundUnloadChunk {
    open spec fn encodable(p: ClientboundUnloadChunkView) -> bool {
        true
    }

    open spec fn reads_to_end() -> bool {
        true
    }

    proof fn lemma_roundtrip(p: ClientboundUnloadChunkView, rest: Seq<u8>) {
        broadcast use group_wire_roundtrip;

        assert(p.raw + rest =~= p.raw);
    }
}

impl Encode for ClientboundUnloadChunk {
    fn encode(&self, dst: &mut BytesMut) -> (r: Result<(), ProtocolError>) {
        let ghost d0 = bytes_mut_data(*dst);
        put_slice(dst, self.raw.as_slice());
        let ghost mut e: Seq<u8> = self@.raw;
        Ok(())
    }
}

impl Decode for ClientboundUnloadChunk {
    fn decode(src: &mut Bytes) -> (r: Result<Self, ProtocolError>) {
        let raw = take_remaining(src);
        Ok(Self { raw })
    }
}

// ── ClientboundChangeGameState ────────────────────────────────────────

#[derive(Debug, Clone, PartialEq)]
pub struct ClientboundChangeGameState {
    pub raw: Vec<u8>,
}

pub struct ClientboundChangeGameStateView {
    pub raw: Seq<u8>,
}

impl View for ClientboundChangeGameState {
    type V = ClientboundChangeGameStateView;

    open spec fn view(&self) -> ClientboundChangeGameStateView {
        ClientboundChangeGameStateView {
            raw: self.raw@,
        }
    }
}

impl PacketId for ClientboundChangeGameState {
    open spec fn spec_packet_id(ver: u32) -> u8 {
        0x1D
    }

    fn packet_id(_ver: u32) -> (r: u8) {
        0x1D
    }
}

impl WireFormat for ClientboundChangeGameState {
    open spec fn spec_encode(p: ClientboundChangeGameStateView) -> Seq<u8> {
        p.raw
    }

    open spec fn spec_decode(s: Seq<u8>) -> Parsed<ClientboundChangeGameStateView> {
        then(take_rest(s), |raw: Seq<u8>, s: Seq<u8>| (Ok(ClientboundChangeGameStateView { raw }), s))
    }
}

impl Roundtrip for ClientboundChangeGameState {
    open spec fn encodable(p: ClientboundChangeGameStateView) -> bool {
        true
    }

    open spec fn reads_to_end() -> bool {
        true
    }

    proof fn lemma_roundtrip(p: ClientboundChangeGameStateView, rest: Seq<u8>) {
        broadcast use group_wire_roundtrip;

        assert(p.raw + rest =~= p.raw);
    }
}

impl Encode for ClientboundChangeGameState {
    fn encode(&self, dst: &mut BytesMut) -> (r: Result<(), ProtocolError>) {
        let ghost d0 = bytes_mut_data(*dst);
        put_slice(dst, self.raw.as_slice());
        let ghost mut e: Seq<u8> = self@.raw;
        Ok(())
    }
}

impl Decode for ClientboundChangeGameState {
    fn decode(src: &mut Bytes) -> (r: Result<Self, ProtocolError>) {
        let raw = take_remaining(src);
        Ok(Self { raw })
    }
}

// ── ClientboundOpenHorseWindow ────────────────────────────────────────

#[derive(Debug, Clone, PartialEq)]
pub struct ClientboundOpenHorseWindow {
    pub raw: Vec<u8>,
}

pub struct ClientboundOpenHorseWindowView {
    pub raw: Seq<u8>,
}

impl View for ClientboundOpenHorseWindow {
    type V = ClientboundOpenHorseWindowView;

    open spec fn view(&self) -> ClientboundOpenHorseWindowView {
        ClientboundOpenHorseWindowView {
            raw: self.raw@,
        }
    }
}

impl PacketId for ClientboundOpenHorseWindow {
    open spec fn spec_packet_id(ver: u32) -> u8 {
        0x1E
    }

    fn packet_id(_ver: u32) -> (r: u8) {
        0x1E
    }
}

impl WireFormat for ClientboundOpenHorseWindow {
    open spec fn spec_encode(p: ClientboundOpenHorseWindowView) -> Seq<u8> {
        p.raw
    }

    open spec fn spec_decode(s: Seq<u8>) -> Parsed<ClientboundOpenHorseWindowView> {
        then(take_rest(s), |raw: Seq<u8>, s: Seq<u8>| (Ok(ClientboundOpenHorseWindowView { raw }), s))
    }
}

impl Roundtrip for ClientboundOpenHorseWindow {
    open spec fn encodable(p: ClientboundOpenHorseWindowView) -> bool {
        true
    }

    open spec fn reads_to_end() -> bool {
        true
    }

    proof fn lemma_roundtrip(p: ClientboundOpenHorseWindowView, rest: Seq<u8>) {
        broadcast use group_wire_roundtrip;

        assert(p.raw + rest =~= p.raw);
    }
}

impl Encode for ClientboundOpenHorseWindow {
    fn encode(&self, dst: &mut BytesMut) -> (r: Result<(), ProtocolError>) {
        let ghost d0 = bytes_mut_data(*dst);
        put_slice(dst, self.raw.as_slice());
        let ghost mut e: Seq<u8> = self@.raw;
        Ok(())
    }
}

impl Decode for ClientboundOpenHorseWindow {
    fn decode(src: &mut Bytes) -> (r: Result<Self, ProtocolError>) {
        let raw = take_remaining(src);
        Ok(Self { raw })
    }
}

// ── ClientboundInitializeWorldBorder ──────────────────────────────────

#[derive(Debug, Clone, PartialEq)]
pub struct ClientboundInitializeWorldBorder {
    pub raw: Vec<u8>,
}

pub struct ClientboundInitializeWorldBorderView {
    pub raw: Seq<u8>,
}

impl View for ClientboundInitializeWorldBorder {
    type V = ClientboundInitializeWorldBorderView;

    open spec fn view(&self) -> ClientboundInitializeWorldBorderView {
        ClientboundInitializeWorldBorderView {
            raw: self.raw@,
        }
    }
}

impl PacketId for ClientboundInitializeWorldBorder {
    open spec fn spec_packet_id(ver: u32) -> u8 {
        0x20
    }

    fn packet_id(_ver: u32) -> (r: u8) {
        0x20
    }
}

impl WireFormat for ClientboundInitializeWorldBorder {
    open spec fn spec_encode(p: ClientboundInitializeWorldBorderView) -> Seq<u8> {
        p.raw
    }

    open spec fn spec_decode(s: Seq<u8>) -> Parsed<ClientboundInitializeWorldBorderView> {
        then(take_rest(s), |raw: Seq<u8>, s: Seq<u8>| (Ok(ClientboundInitializeWorldBorderView { raw }), s))
    }
}

impl Roundtrip for ClientboundInitializeWorldBorder {
    open spec fn encodable(p: ClientboundInitializeWorldBorderView) -> bool {
        true
    }

    open spec fn reads_to_end() -> bool {
        true
    }

    proof fn lemma_roundtrip(p: ClientboundInitializeWorldBorderView, rest: Seq<u8>) {
        broadcast use group_wire_roundtrip;

        assert(p.raw + rest =~= p.raw);
    }
}

impl Encode for ClientboundInitializeWorldBorder {
    fn encode(&self, dst: &mut BytesMut) -> (r: Result<(), ProtocolError>) {
        let ghost d0 = bytes_mut_data(*dst);
        put_slice(dst, self.raw.as_slice());
        let ghost mut e: Seq<u8> = self@.raw;
        Ok(())
    }
}

impl Decode for ClientboundInitializeWorldBorder {
    fn decode(src: &mut Bytes) -> (r: Result<Self, ProtocolError>) {
        let raw = take_remaining(src);
        Ok(Self { raw })
    }
}

// ── ClientboundChunkData ──────────────────────────────────────────────

#[derive(Debug, Clone, PartialEq)]
pub struct ClientboundChunkData {
    pub raw: Vec<u8>,
}

pub struct ClientboundChunkDataView {
    pub raw: Seq<u8>,
}

impl View for ClientboundChunkData {
    type V = ClientboundChunkDataView;

    open spec fn view(&self) -> ClientboundChunkDataView {
        ClientboundChunkDataView {
            raw: self.raw@,
        }
    }
}

impl PacketId for ClientboundChunkData {
    open spec fn spec_packet_id(ver: u32) -> u8 {
        0x21
    }

    fn packet_id(_ver: u32) -> (r: u8) {
        0x21
    }
}

impl WireFormat for ClientboundChunkData {
    open spec fn spec_encode(p: ClientboundChunkDataView) -> Seq<u8> {
        p.raw
    }

    open spec fn spec_decode(s: Seq<u8>) -> Parsed<ClientboundChunkDataView> {
        then(take_rest(s), |raw: Seq<u8>, s: Seq<u8>| (Ok(ClientboundChunkDataView { raw }), s))
    }
}

impl Roundtrip for ClientboundChunkData {
    open spec fn encodable(p: ClientboundChunkDataView) -> bool {
        true
    }

    open spec fn reads_to_end() -> bool {
        true
    }

    proof fn lemma_roundtrip(p: ClientboundChunkDataView, rest: Seq<u8>) {
        broadcast use group_wire_roundtrip;

        assert(p.raw + rest =~= p.raw);
    }
}

impl Encode for ClientboundChunkData {
    fn encode(&self, dst: &mut BytesMut) -> (r: Result<(), ProtocolError>) {
        let ghost d0 = bytes_mut_data(*dst);
        put_slice(dst, self.raw.as_slice());
        let ghost mut e: Seq<u8> = self@.raw;
        Ok(())
    }
}

impl Decode for ClientboundChunkData {
    fn decode(src: &mut Bytes) -> (r: Result<Self, ProtocolError>) {
        let raw = take_remaining(src);
        Ok(Self { raw })
    }
}

// ── ClientboundEffect ─────────────────────────────────────────────────

#[derive(Debug, Clone, PartialEq)]
pub struct ClientboundEffect {
    pub raw: Vec<u8>,
}

pub struct ClientboundEffectView {
    pub raw: Seq<u8>,
}

impl View for ClientboundEffect {
    type V = ClientboundEffectView;

    open spec fn view(&self) -> ClientboundEffectView {
        ClientboundEffectView {
            raw: self.raw@,
        }
    }
}

impl PacketId for ClientboundEffect {
    open spec fn spec_packet_id(ver: u32) -> u8 {
        0x22
    }

    fn packet_id(_ver: u32) -> (r: u8) {
        0x22
    }
}

impl WireFormat for ClientboundEffect {
    open spec fn spec_encode(p: ClientboundEffectView) -> Seq<u8> {
        p.raw
    }

    open spec fn spec_decode(s: Seq<u8>) -> Parsed<ClientboundEffectView> {
        then(take_rest(s), |raw: Seq<u8>, s: Seq<u8>| (Ok(ClientboundEffectView { raw }), s))
    }
}

impl Roundtrip for ClientboundEffect {
    open spec fn encodable(p: ClientboundEffectView) -> bool {
        true
    }

    open spec fn reads_to_end() -> bool {
        true
    }

    proof fn lemma_roundtrip(p: ClientboundEffectView, rest: Seq<u8>) {
        broadcast use group_wire_roundtrip;

        assert(p.raw + rest =~= p.raw);
    }
}

impl Encode for ClientboundEffect {
    fn encode(&self, dst: &mut BytesMut) -> (r: Result<(), ProtocolError>) {
        let ghost d0 = bytes_mut_data(*dst);
        put_slice(dst, self.raw.as_slice());
        let ghost mut e: Seq<u8> = self@.raw;
        Ok(())
    }
}

impl Decode for ClientboundEffect {
    fn decode(src: &mut Bytes) -> (r: Result<Self, ProtocolError>) {
        let raw = take_remaining(src);
        Ok(Self { raw })
    }
}

// ── ClientboundParticle ───────────────────────────────────────────────

#[derive(Debug, Clone, PartialEq)]
pub struct ClientboundParticle {
    pub raw: Vec<u8>,
}

pub struct ClientboundParticleView {
    pub raw: Seq<u8>,
}

impl View for ClientboundParticle {
    type V = ClientboundParticleView;

    open spec fn view(&self) -> ClientboundParticleView {
        ClientboundParticleView {
            raw: self.raw@,
        }
    }
}

impl PacketId for ClientboundParticle {
    open spec fn spec_packet_id(ver: u32) -> u8 {
        0x23
    }

    fn packet_id(_ver: u32) -> (r: u8) {
        0x23
    }
}

impl WireFormat for ClientboundParticle {
    open spec fn spec_encode(p: ClientboundParticleView) -> Seq<u8> {
        p.raw
    }

    open spec fn spec_decode(s: Seq<u8>) -> Parsed<ClientboundParticleView> {
        then(take_rest(s), |raw: Seq<u8>, s: Seq<u8>| (Ok(ClientboundParticleView { raw }), s))
    }
}

impl Roundtrip for ClientboundParticle {
    open spec fn encodable(p: ClientboundParticleView) -> bool {
        true
    }

    open spec fn reads_to_end() -> bool {
        true
    }

    proof fn lemma_roundtrip(p: ClientboundParticleView, rest: Seq<u8>) {
        broadcast use group_wire_roundtrip;

        assert(p.raw + rest =~= p.raw);
    }
}

impl Encode for ClientboundParticle {
    fn encode(&self, dst: &mut BytesMut) -> (r: Result<(), ProtocolError>) {
        let ghost d0 = bytes_mut_data(*dst);
        put_slice(dst, self.raw.as_slice());
        let ghost mut e: Seq<u8> = self@.raw;
        Ok(())
    }
}

impl Decode for ClientboundParticle {
    fn decode(src: &mut Bytes) -> (r: Result<Self, ProtocolError>) {
        let raw = take_remaining(src);
        Ok(Self { raw })
    }
}

// ── ClientboundUpdateLight ────────────────────────────────────────────

#[derive(Debug, Clone, PartialEq)]
pub struct ClientboundUpdateLight {
    pub raw: Vec<u8>,
}

pub struct ClientboundUpdateLightView {
    pub raw: Seq<u8>,
}

impl View for ClientboundUpdateLight {
    type V = ClientboundUpdateLightView;

    open spec fn view(&self) -> ClientboundUpdateLightView {
        ClientboundUpdateLightView {
            raw: self.raw@,
        }
    }
}

impl PacketId for ClientboundUpdateLight {
    open spec fn spec_packet_id(ver: u32) -> u8 {
        0x24
    }

    fn packet_id(_ver: u32) -> (r: u8) {
        0x24
    }
}

impl WireFormat for ClientboundUpdateLight {
    open spec fn spec_encode(p: ClientboundUpdateLightView) -> Seq<u8> {
        p.raw
    }

    open spec fn spec_decode(s: Seq<u8>) -> Parsed<ClientboundUpdateLightView> {
        then(take_rest(s), |raw: Seq<u8>, s: Seq<u8>| (Ok(ClientboundUpdateLightView { raw }), s))
    }
}

impl Roundtrip for ClientboundUpdateLight {
    open spec fn encodable(p: ClientboundUpdateLightView) -> bool {
        true
    }

    open spec fn reads_to_end() -> bool {
        true
    }

    proof fn lemma_roundtrip(p: ClientboundUpdateLightView, rest: Seq<u8>) {
        broadcast use group_wire_roundtrip;

        assert(p.raw + rest =~= p.raw);
    }
}

impl Encode for ClientboundUpdateLight {
    fn encode(&self, dst: &mut BytesMut) -> (r: Result<(), ProtocolError>) {
        let ghost d0 = bytes_mut_data(*dst);
        put_slice(dst, self.raw.as_slice());
        let ghost mut e: Seq<u8> = self@.raw;
        Ok(())
    }
}

impl Decode for ClientboundUpdateLight {
    fn decode(src: &mut Bytes) -> (r: Result<Self, ProtocolError>) {
        let raw = take_remaining(src);
        Ok(Self { raw })
    }
}

// ── ClientboundMap ────────────────────────────────────────────────────

#[derive(Debug, Clone, PartialEq)]
pub struct ClientboundMap {
    pub raw: Vec<u8>,
}

pub struct ClientboundMapView {
    pub raw: Seq<u8>,
}

impl View for ClientboundMap {
    type V = ClientboundMapView;

    open spec fn view(&self) -> ClientboundMapView {
        ClientboundMapView {
            raw: self.raw@,
        }
    }
}

impl PacketId for ClientboundMap {
    open spec fn spec_packet_id(ver: u32) -> u8 {
        0x25
    }

    fn packet_id(_ver: u32) -> (r: u8) {
        0x25
    }
}

impl WireFormat for ClientboundMap {
    open spec fn spec_encode(p: ClientboundMapView) -> Seq<u8> {
        p.raw
    }

    open spec fn spec_decode(s: Seq<u8>) -> Parsed<ClientboundMapView> {
        then(take_rest(s), |raw: Seq<u8>, s: Seq<u8>| (Ok(ClientboundMapView { raw }), s))
    }
}

impl Roundtrip for ClientboundMap {
    open spec fn encodable(p: ClientboundMapView) -> bool {
        true
    }

    open spec fn reads_to_end() -> bool {
        true
    }

    proof fn lemma_roundtrip(p: ClientboundMapView, rest: Seq<u8>) {
        broadcast use group_wire_roundtrip;

        assert(p.raw + rest =~= p.raw);
    }
}

impl Encode for ClientboundMap {
    fn encode(&self, dst: &mut BytesMut) -> (r: Result<(), ProtocolError>) {
        let ghost d0 = bytes_mut_data(*dst);
        put_slice(dst, self.raw.as_slice());
        let ghost mut e: Seq<u8> = self@.raw;
        Ok(())
    }
}

impl Decode for ClientboundMap {
    fn decode(src: &mut Bytes) -> (r: Result<Self, ProtocolError>) {
        let raw = take_remaining(src);
        Ok(Self { raw })
    }
}

// ── ClientboundTradeList ──────────────────────────────────────────────

#[derive(Debug, Clone, PartialEq)]
pub struct ClientboundTradeList {
    pub raw: Vec<u8>,
}

pub struct ClientboundTradeListView {
    pub raw: Seq<u8>,
}

impl View for ClientboundTradeList {
    type V = ClientboundTradeListView;

    open spec fn view(&self) -> ClientboundTradeListView {
        ClientboundTradeListView {
            raw: self.raw@,
        }
    }
}

impl PacketId for ClientboundTradeList {
    open spec fn spec_packet_id(ver: u32) -> u8 {
        0x26
    }

    fn packet_id(_ver: u32) -> (r: u8) {
        0x26
    }
}

impl WireFormat for ClientboundTradeList {
    open spec fn spec_encode(p: ClientboundTradeListView) -> Seq<u8> {
        p.raw
    }

    open spec fn spec_decode(s: Seq<u8>) -> Parsed<ClientboundTradeListView> {
        then(take_rest(s), |raw: Seq<u8>, s: Seq<u8>| (Ok(ClientboundTradeListView { raw }), s))
    }
}

impl Roundtrip for ClientboundTradeList {
    open spec fn encodable(p: ClientboundTradeListView) -> bool {
        true
    }

    open spec fn reads_to_end() -> bool {
        true
    }

    proof fn lemma_roundtrip(p: ClientboundTradeListView, rest: Seq<u8>) {
        broadcast use group_wire_roundtrip;

        assert(p.raw + rest =~= p.raw);
    }
}

impl Encode for ClientboundTradeList {
    fn encode(&self, dst: &mut BytesMut) -> (r: Result<(), ProtocolError>) {
        let ghost d0 = bytes_mut_data(*dst);
        put_slice(dst, self.raw.as_slice());
        let ghost mut e: Seq<u8> = self@.raw;
        Ok(())
    }
}

impl Decode for ClientboundTradeList {
    fn decode(src: &mut Bytes) -> (r: Result<Self, ProtocolError>) {
        let raw = take_remaining(src);
        Ok(Self { raw })
    }
}

// ── ClientboundEntityPosition ─────────────────────────────────────────

#[derive(Debug, Clone, PartialEq)]
pub struct ClientboundEntityPosition {
    pub entity_id: VarInt,
    pub delta_x: i16,
    pub delta_y: i16,
    pub delta_z: i16,
    pub on_ground: bool,
}

impl View for ClientboundEntityPosition {
    type V = ClientboundEntityPosition;

    open spec fn view(&self) -> ClientboundEntityPosition {
        *self
    }
}

impl PacketId for ClientboundEntityPosition {
    open spec fn spec_packet_id(ver: u32) -> u8 {
        0x27
    }

    fn packet_id(_ver: u32) -> (r: u8) {
        0x27
    }
}

impl WireFormat for ClientboundEntityPosition {
    open spec fn spec_encode(p: ClientboundEntityPosition) -> Seq<u8> {
        VarInt::spec_encode(p.entity_id) + be_i16_bytes(p.delta_x) + be_i16_bytes(p.delta_y) + be_i16_bytes(p.delta_z) + seq![bool_byte(p.on_ground)]
    }

    open spec fn spec_decode(s: Seq<u8>) -> Parsed<ClientboundEntityPosition> {
        then(VarInt::spec_decode(s), |entity_id: VarInt, s: Seq<u8>| then(take_i16(s), |delta_x: i16, s: Seq<u8>| then(take_i16(s), |delta_y: i16, s: Seq<u8>| then(take_i16(s), |delta_z: i16, s: Seq<u8>| then(take_bool(s), |on_ground: bool, s: Seq<u8>| (Ok(ClientboundEntityPosition { entity_id, delta_x, delta_y, delta_z, on_ground }), s))))))
    }
}

impl Roundtrip for ClientboundEntityPosition {
    open spec fn encodable(p: ClientboundEntityPosition) -> bool {
        true
    }

    open spec fn reads_to_end() -> bool {
        false
    }

    #[verifier::rlimit(100)]
    #[verifier::spinoff_prover]
    proof fn lemma_roundtrip(p: ClientboundEntityPosition, rest: Seq<u8>) {
        broadcast use group_wire_roundtrip;

        let t4 = seq![bool_byte(p.on_ground)] + rest;
        let t3 = be_i16_bytes(p.delta_z) + t4;
        let t2 = be_i16_bytes(p.delta_y) + t3;
        let t1 = be_i16_bytes(p.delta_x) + t2;
        lemma_concat_associative(VarInt::spec_encode(p.entity_id) + be_i16_bytes(p.delta_x) + be_i16_bytes(p.delta_y) + be_i16_bytes(p.delta_z), seq![bool_byte(p.on_ground)], rest);
        lemma_concat_associative(VarInt::spec_encode(p.entity_id) + be_i16_bytes(p.delta_x) + be_i16_bytes(p.delta_y), be_i16_bytes(p.delta_z), t4);
        lemma_concat_associative(VarInt::spec_encode(p.entity_id) + be_i16_bytes(p.delta_x), be_i16_bytes(p.delta_y), t3);
        lemma_concat_associative(VarInt::spec_encode(p.entity_id), be_i16_bytes(p.delta_x), t2);
        VarInt::lemma_roundtrip(p.entity_id, t1);
    }
}

impl Encode for ClientboundEntityPosition {
    fn encode(&self, dst: &mut BytesMut) -> (r: Result<(), ProtocolError>) {
        let ghost d0 = bytes_mut_data(*dst);
        let _ = self.entity_id.encode(dst);
        let ghost mut e: Seq<u8> = VarInt::spec_encode(self@.entity_id);
        put_i16(dst, self.delta_x);
        proof {
            lemma_concat_associative(d0, e, be_i16_bytes(self@.delta_x));
            e = e + be_i16_bytes(self@.delta_x);
        }
        put_i16(dst, self.delta_y);
        proof {
            lemma_concat_associative(d0, e, be_i16_bytes(self@.delta_y));
            e = e + be_i16_bytes(self@.delta_y);
        }
        put_i16(dst, self.delta_z);
        proof {
            lemma_concat_associative(d0, e, be_i16_bytes(self@.delta_z));
            e = e + be_i16_bytes(self@.delta_z);
        }
        put_u8(dst, self.on_ground as u8);
        proof {
            lemma_concat_associative(d0, e, seq![bool_byte(self@.on_ground)]);
            e = e + seq![bool_byte(self@.on_ground)];
        }
        Ok(())
    }
}

impl Decode for ClientboundEntityPosition {
    fn decode(src: &mut Bytes) -> (r: Result<Self, ProtocolError>) {
        let entity_id = VarInt::decode(src)?;
        let delta_x = get_i16(src);
        let delta_y = get_i16(src);
        let delta_z = get_i16(src);
        let on_ground = get_u8(src) != 0;
        Ok(Self { entity_id, delta_x, delta_y, delta_z, on_ground })
    }
}

// ── ClientboundEntityPositionAndRotation ──────────────────────────────

#[derive(Debug, Clone, PartialEq)]
pub struct ClientboundEntityPositionAndRotation {
    pub entity_id: VarInt,
    pub delta_x: i16,
    pub delta_y: i16,
    pub delta_z: i16,
    pub yaw: i8,
    pub pitch: i8,
    pub on_ground: bool,
}

impl View for ClientboundEntityPositionAndRotation {
    type V = ClientboundEntityPositionAndRotation;

    open spec fn view(&self) -> ClientboundEntityPositionAndRotation {
        *self
    }
}

impl PacketId for ClientboundEntityPositionAndRotation {
    open spec fn spec_packet_id(ver: u32) -> u8 {
        0x28
    }

    fn packet_id(_ver: u32) -> (r: u8) {
        0x28
    }
}

impl WireFormat for ClientboundEntityPositionAndRotation {
    open spec fn spec_encode(p: ClientboundEntityPositionAndRotation) -> Seq<u8> {
        VarInt::spec_encode(p.entity_id) + be_i16_bytes(p.delta_x) + be_i16_bytes(p.delta_y) + be_i16_bytes(p.delta_z) + seq![p.yaw as u8] + seq![p.pitch as u8] + seq![bool_byte(p.on_ground)]
    }

    open spec fn spec_decode(s: Seq<u8>) -> Parsed<ClientboundEntityPositionAndRotation> {
        then(VarInt::spec_decode(s), |entity_id: VarInt, s: Seq<u8>| then(take_i16(s), |delta_x: i16, s: Seq<u8>| then(take_i16(s), |delta_y: i16, s: Seq<u8>| then(take_i16(s), |delta_z: i16, s: Seq<u8>| then(take_i8(s), |yaw: i8, s: Seq<u8>| then(take_i8(s), |pitch: i8, s: Seq<u8>| then(take_bool(s), |on_ground: bool, s: Seq<u8>| (Ok(ClientboundEntityPositionAndRotation { entity_id, delta_x, delta_y, delta_z, yaw, pitch, on_ground }), s))))))))
    }
}

impl Roundtrip for ClientboundEntityPositionAndRotation {
    open spec fn encodable(p: ClientboundEntityPositionAndRotation) -> bool {
        true
    }

    open spec fn reads_to_end() -> bool {
        false
    }

    #[verifier::rlimit(100)]
    #[verifier::spinoff_prover]
    proof fn lemma_roundtrip(p: ClientboundEntityPositionAndRotation, rest: Seq<u8>) {
        broadcast use group_wire_roundtrip;

        let t6 = seq![bool_byte(p.on_ground)] + rest;
        let t5 = seq![p.pitch as u8] + t6;
        let t4 = seq![p.yaw as u8] + t5;
        let t3 = be_i16_bytes(p.delta_z) + t4;
        let t2 = be_i16_bytes(p.delta_y) + t3;
        let t1 = be_i16_bytes(p.delta_x) + t2;
        lemma_concat_associative(VarInt::spec_encode(p.entity_id) + be_i16_bytes(p.delta_x) + be_i16_bytes(p.delta_y) + be_i16_bytes(p.delta_z) + seq![p.yaw as u8] + seq![p.pitch as u8], seq![bool_byte(p.on_ground)], rest);
        lemma_concat_associative(VarInt::spec_encode(p.entity_id) + be_i16_bytes(p.delta_x) + be_i16_bytes(p.delta_y) + be_i16_bytes(p.delta_z) + seq![p.yaw as u8], seq![p.pitch as u8], t6);
        lemma_concat_associative(VarInt::spec_encode(p.entity_id) + be_i16_bytes(p.delta_x) + be_i16_bytes(p.delta_y) + be_i16_bytes(p.delta_z), seq![p.yaw as u8], t5);
        lemma_concat_associative(VarInt::spec_encode(p.entity_id) + be_i16_bytes(p.delta_x) + be_i16_bytes(p.delta_y), be_i16_bytes(p.delta_z), t4);
        lemma_concat_associative(VarInt::spec_encode(p.entity_id) + be_i16_bytes(p.delta_x), be_i16_bytes(p.delta_y), t3);
        lemma_concat_associative(VarInt::spec_encode(p.entity_id), be_i16_bytes(p.delta_x), t2);
        VarInt::lemma_roundtrip(p.entity_id, t1);
    }
}

impl Encode for ClientboundEntityPositionAndRotation {
    fn encode(&self, dst: &mut BytesMut) -> (r: Result<(), ProtocolError>) {
        let ghost d0 = bytes_mut_data(*dst);
        let _ = self.entity_id.encode(dst);
        let ghost mut e: Seq<u8> = VarInt::spec_encode(self@.entity_id);
        put_i16(dst, self.delta_x);
        proof {
            lemma_concat_associative(d0, e, be_i16_bytes(self@.delta_x));
            e = e + be_i16_bytes(self@.delta_x);
        }
        put_i16(dst, self.delta_y);
        proof {
            lemma_concat_associative(d0, e, be_i16_bytes(self@.delta_y));
            e = e + be_i16_bytes(self@.delta_y);
        }
        put_i16(dst, self.delta_z);
        proof {
            lemma_concat_associative(d0, e, be_i16_bytes(self@.delta_z));
            e = e + be_i16_bytes(self@.delta_z);
        }
        put_i8(dst, self.yaw);
        proof {
            lemma_concat_associative(d0, e, seq![self@.yaw as u8]);
            e = e + seq![self@.yaw as u8];
        }
        put_i8(dst, self.pitch);
        proof {
            lemma_concat_associative(d0, e, seq![self@.pitch as u8]);
            e = e + seq![self@.pitch as u8];
        }
        put_u8(dst, self.on_ground as u8);
        proof {
            lemma_concat_associative(d0, e, seq![bool_byte(self@.on_ground)]);
            e = e + seq![bool_byte(self@.on_ground)];
        }
        Ok(())
    }
}

impl Decode for ClientboundEntityPositionAndRotation {
    fn decode(src: &mut Bytes) -> (r: Result<Self, ProtocolError>) {
        let entity_id = VarInt::decode(src)?;
        let delta_x = get_i16(src);
        let delta_y = get_i16(src);
        let delta_z = get_i16(src);
        let yaw = get_i8(src);
        let pitch = get_i8(src);
        let on_ground = get_u8(src) != 0;
        Ok(Self { entity_id, delta_x, delta_y, delta_z, yaw, pitch, on_ground })
    }
}

// ── ClientboundEntityRotation ─────────────────────────────────────────

#[derive(Debug, Clone, PartialEq)]
pub struct ClientboundEntityRotation {
    pub entity_id: VarInt,
    pub yaw: i8,
    pub pitch: i8,
    pub on_ground: bool,
}

impl View for ClientboundEntityRotation {
    type V = ClientboundEntityRotation;

    open spec fn view(&self) -> ClientboundEntityRotation {
        *self
    }
}

impl PacketId for ClientboundEntityRotation {
    open spec fn spec_packet_id(ver: u32) -> u8 {
        0x29
    }

    fn packet_id(_ver: u32) -> (r: u8) {
        0x29
    }
}

impl WireFormat for ClientboundEntityRotation {
    open spec fn spec_encode(p: ClientboundEntityRotation) -> Seq<u8> {
        VarInt::spec_encode(p.entity_id) + seq![p.yaw as u8] + seq![p.pitch as u8] + seq![bool_byte(p.on_ground)]
    }

    open spec fn spec_decode(s: Seq<u8>) -> Parsed<ClientboundEntityRotation> {
        then(VarInt::spec_decode(s), |entity_id: VarInt, s: Seq<u8>| then(take_i8(s), |yaw: i8, s: Seq<u8>| then(take_i8(s), |pitch: i8, s: Seq<u8>| then(take_bool(s), |on_ground: bool, s: Seq<u8>| (Ok(ClientboundEntityRotation { entity_id, yaw, pitch, on_ground }), s)))))
    }
}

impl Roundtrip for ClientboundEntityRotation {
    open spec fn encodable(p: ClientboundEntityRotation) -> bool {
        true
    }

    open spec fn reads_to_end() -> bool {
        false
    }

    proof fn lemma_roundtrip(p: ClientboundEntityRotation, rest: Seq<u8>) {
        broadcast use group_wire_roundtrip;

        let t3 = seq![bool_byte(p.on_ground)] + rest;
        let t2 = seq![p.pitch as u8] + t3;
        let t1 = seq![p.yaw as u8] + t2;
        lemma_concat_associative(VarInt::spec_encode(p.entity_id) + seq![p.yaw as u8] + seq![p.pitch as u8], seq![bool_byte(p.on_ground)], rest);
        lemma_concat_associative(VarInt::spec_encode(p.entity_id) + seq![p.yaw as u8], seq![p.pitch as u8], t3);
        lemma_concat_associative(VarInt::spec_encode(p.entity_id), seq![p.yaw as u8], t2);
        VarInt::lemma_roundtrip(p.entity_id, t1);
    }
}

impl Encode for ClientboundEntityRotation {
    fn encode(&self, dst: &mut BytesMut) -> (r: Result<(), ProtocolError>) {
        let ghost d0 = bytes_mut_data(*dst);
        let _ = self.entity_id.encode(dst);
        let ghost mut e: Seq<u8> = VarInt::spec_encode(self@.entity_id);
        put_i8(dst, self.yaw);
        proof {
            lemma_concat_associative(d0, e, seq![self@.yaw as u8]);
            e = e + seq![self@.yaw as u8];
        }
        put_i8(dst, self.pitch);
        proof {
            lemma_concat_associative(d0, e, seq![self@.pitch as u8]);
            e = e + seq![self@.pitch as u8];
        }
        put_u8(dst, self.on_ground as u8);
        proof {
            lemma_concat_associative(d0, e, seq![bool_byte(self@.on_ground)]);
            e = e + seq![bool_byte(self@.on_ground)];
        }
        Ok(())
    }
}

impl Decode for ClientboundEntityRotation {
    fn decode(src: &mut Bytes) -> (r: Result<Self, ProtocolError>) {
        let entity_id = VarInt::decode(src)?;
        let yaw = get_i8(src);
        let pitch = get_i8(src);
        let on_ground = get_u8(src) != 0;
        Ok(Self { entity_id, yaw, pitch, on_ground })
    }
}

// ── ClientboundVehicleMove ────────────────────────────────────────────

#[derive(Debug, Clone, PartialEq)]
pub struct ClientboundVehicleMove {
    pub raw: Vec<u8>,
}

pub struct ClientboundVehicleMoveView {
    pub raw: Seq<u8>,
}

impl View for ClientboundVehicleMove {
    type V = ClientboundVehicleMoveView;

    open spec fn view(&self) -> ClientboundVehicleMoveView {
        ClientboundVehicleMoveView {
            raw: self.raw@,
        }
    }
}

impl PacketId for ClientboundVehicleMove {
    open spec fn spec_packet_id(ver: u32) -> u8 {
        0x2A
    }

    fn packet_id(_ver: u32) -> (r: u8) {
        0x2A
    }
}

impl WireFormat for ClientboundVehicleMove {
    open spec fn spec_encode(p: ClientboundVehicleMoveView) -> Seq<u8> {
        p.raw
    }

    open spec fn spec_decode(s: Seq<u8>) -> Parsed<ClientboundVehicleMoveView> {
        then(take_rest(s), |raw: Seq<u8>, s: Seq<u8>| (Ok(ClientboundVehicleMoveView { raw }), s))
    }
}

impl Roundtrip for ClientboundVehicleMove {
    open spec fn encodable(p: ClientboundVehicleMoveView) -> bool {
        true
    }

    open spec fn reads_to_end() -> bool {
        true
    }

    proof fn lemma_roundtrip(p: ClientboundVehicleMoveView, rest: Seq<u8>) {
        broadcast use group_wire_roundtrip;

        assert(p.raw + rest =~= p.raw);
    }
}

impl Encode for ClientboundVehicleMove {
    fn encode(&self, dst: &mut BytesMut) -> (r: Result<(), ProtocolError>) {
        let ghost d0 = bytes_mut_data(*dst);
        put_slice(dst, self.raw.as_slice());
        let ghost mut e: Seq<u8> = self@.raw;
        Ok(())
    }
}

impl Decode for ClientboundVehicleMove {
    fn decode(src: &mut Bytes) -> (r: Result<Self, ProtocolError>) {
        let raw = take_remaining(src);
        Ok(Self { raw })
    }
}

// ── ClientboundOpenBook ───────────────────────────────────────────────

#[derive(Debug, Clone, PartialEq)]
pub struct ClientboundOpenBook {
    pub raw: Vec<u8>,
}

pub struct ClientboundOpenBookView {
    pub raw: Seq<u8>,
}

impl View for ClientboundOpenBook {
    type V = ClientboundOpenBookView;

    open spec fn view(&self) -> ClientboundOpenBookView {
        ClientboundOpenBookView {
            raw: self.raw@,
        }
    }
}

impl PacketId for ClientboundOpenBook {
    open spec fn spec_packet_id(ver: u32) -> u8 {
        0x2B
    }

    fn packet_id(_ver: u32) -> (r: u8) {
        0x2B
    }
}

impl WireFormat for ClientboundOpenBook {
    open spec fn spec_encode(p: ClientboundOpenBookView) -> Seq<u8> {
        p.raw
    }

    open spec fn spec_decode(s: Seq<u8>) -> Parsed<ClientboundOpenBookView> {
        then(take_rest(s), |raw: Seq<u8>, s: Seq<u8>| (Ok(ClientboundOpenBookView { raw }), s))
    }
}

impl Roundtrip for ClientboundOpenBook {
    open spec fn encodable(p: ClientboundOpenBookView) -> bool {
        true
    }

    open spec fn reads_to_end() -> bool {
        true
    }

    proof fn lemma_roundtrip(p: ClientboundOpenBookView, rest: Seq<u8>) {
        broadcast use group_wire_roundtrip;

        assert(p.raw + rest =~= p.raw);
    }
}

impl Encode for ClientboundOpenBook {
    fn encode(&self, dst: &mut BytesMut) -> (r: Result<(), ProtocolError>) {
        let ghost d0 = bytes_mut_data(*dst);
        put_slice(dst, self.raw.as_slice());
        let ghost mut e: Seq<u8> = self@.raw;
        Ok(())
    }
}

impl Decode for ClientboundOpenBook {
    fn decode(src: &mut Bytes) -> (r: Result<Self, ProtocolError>) {
        let raw = take_remaining(src);
        Ok(Self { raw })
    }
}

// ── ClientboundOpenWindow ─────────────────────────────────────────────

#[derive(Debug, Clone, PartialEq)]
pub struct ClientboundOpenWindow {
    pub window_id: VarInt,
    pub window_type: VarInt,
    pub window_title: String,
}

pub struct ClientboundOpenWindowView {
    pub window_id: VarInt,
    pub window_type: VarInt,
    pub window_title: Seq<char>,
}

impl View for ClientboundOpenWindow {
    type V = ClientboundOpenWindowView;

    open spec fn view(&self) -> ClientboundOpenWindowView {
        ClientboundOpenWindowView {
            window_id: self.window_id,
            window_type: self.window_type,
            window_title: self.window_title@,
        }
    }
}

impl PacketId for ClientboundOpenWindow {
    open spec fn spec_packet_id(ver: u32) -> u8 {
        0x2C
    }

    fn packet_id(_ver: u32) -> (r: u8) {
        0x2C
    }
}

impl WireFormat for ClientboundOpenWindow {
    open spec fn spec_encode(p: ClientboundOpenWindowView) -> Seq<u8> {
        VarInt::spec_encode(p.window_id) + VarInt::spec_encode(p.window_type) + string_wire(p.window_title)
    }

    open spec fn spec_decode(s: Seq<u8>) -> Parsed<ClientboundOpenWindowView> {
        then(VarInt::spec_decode(s), |window_id: VarInt, s: Seq<u8>| then(VarInt::spec_decode(s), |window_type: VarInt, s: Seq<u8>| then(string_spec(s), |window_title: Seq<char>, s: Seq<u8>| (Ok(ClientboundOpenWindowView { window_id, window_type, window_title }), s))))
    }
}

impl Roundtrip for ClientboundOpenWindow {
    open spec fn encodable(p: ClientboundOpenWindowView) -> bool {
        string_fits(p.window_title)
    }

    open spec fn reads_to_end() -> bool {
        false
    }

    proof fn lemma_roundtrip(p: ClientboundOpenWindowView, rest: Seq<u8>) {
        broadcast use group_wire_roundtrip;

        let t2 = string_wire(p.window_title) + rest;
        let t1 = VarInt::spec_encode(p.window_type) + t2;
        lemma_concat_associative(VarInt::spec_encode(p.window_id) + VarInt::spec_encode(p.window_type), string_wire(p.window_title), rest);
        lemma_concat_associative(VarInt::spec_encode(p.window_id), VarInt::spec_encode(p.window_type), t2);
        VarInt::lemma_roundtrip(p.window_id, t1);
        VarInt::lemma_roundtrip(p.window_type, t2);
        lemma_string_field(p.window_title, rest);
    }
}

impl Encode for ClientboundOpenWindow {
    fn encode(&self, dst: &mut BytesMut) -> (r: Result<(), ProtocolError>) {
        let ghost d0 = bytes_mut_data(*dst);
        let _ = self.window_id.encode(dst);
        let ghost mut e: Seq<u8> = VarInt::spec_encode(self@.window_id);
        let _ = self.window_type.encode(dst);
        proof {
            lemma_concat_associative(d0, e, VarInt::spec_encode(self@.window_type));
            e = e + VarInt::spec_encode(self@.window_type);
        }
        encode_string(self.window_title.as_str(), dst);
        proof {
            lemma_concat_associative(d0, e, string_wire(self@.window_title));
            e = e + string_wire(self@.window_title);
        }
        Ok(())
    }
}

impl Decode for ClientboundOpenWindow {
    fn decode(src: &mut Bytes) -> (r: Result<Self, ProtocolError>) {
        let window_id = VarInt::decode(src)?;
        let window_type = VarInt::decode(src)?;
        let window_title = decode_string(src)?;
        Ok(Self { window_id, window_type, window_title })
    }
}

// ── ClientboundOpenSignEditor ─────────────────────────────────────────

#[derive(Debug, Clone, PartialEq)]
pub struct ClientboundOpenSignEditor {
    pub raw: Vec<u8>,
}

pub struct ClientboundOpenSignEditorView {
    pub raw: Seq<u8>,
}

impl View for ClientboundOpenSignEditor {
    type V = ClientboundOpenSignEditorView;

    open spec fn view(&self) -> ClientboundOpenSignEditorView {
        ClientboundOpenSignEditorView {
            raw: self.raw@,
        }
    }
}

impl PacketId for ClientboundOpenSignEditor {
    open spec fn spec_packet_id(ver: u32) -> u8 {
        0x2D
    }

    fn packet_id(_ver: u32) -> (r: u8) {
        0x2D
    }
}

impl WireFormat for ClientboundOpenSignEditor {
    open spec fn spec_encode(p: ClientboundOpenSignEditorView) -> Seq<u8> {
        p.raw
    }

    open spec fn spec_decode(s: Seq<u8>) -> Parsed<ClientboundOpenSignEditorView> {
        then(take_rest(s), |raw: Seq<u8>, s: Seq<u8>| (Ok(ClientboundOpenSignEditorView { raw }), s))
    }
}

impl Roundtrip for ClientboundOpenSignEditor {
    open spec fn encodable(p: ClientboundOpenSignEditorView) -> bool {
        true
    }

    open spec fn reads_to_end() -> bool {
        true
    }

    proof fn lemma_roundtrip(p: ClientboundOpenSignEditorView, rest: Seq<u8>) {
        broadcast use group_wire_roundtrip;

        assert(p.raw + rest =~= p.raw);
    }
}

impl Encode for ClientboundOpenSignEditor {
    fn encode(&self, dst: &mut BytesMut) -> (r: Result<(), ProtocolError>) {
        let ghost d0 = bytes_mut_data(*dst);
        put_slice(dst, self.raw.as_slice());
        let ghost mut e: Seq<u8> = self@.raw;
        Ok(())
    }
}

impl Decode for ClientboundOpenSignEditor {
    fn decode(src: &mut Bytes) -> (r: Result<Self, ProtocolError>) {
        let raw = take_remaining(src);
        Ok(Self { raw })
    }
}

// ── ClientboundCraftRecipeResponse ────────────────────────────────────

#[derive(Debug, Clone, PartialEq)]
pub struct ClientboundCraftRecipeResponse {
    pub raw: Vec<u8>,
}

pub struct ClientboundCraftRecipeResponseView {
    pub raw: Seq<u8>,
}

impl View for ClientboundCraftRecipeResponse {
    type V = ClientboundCraftRecipeResponseView;

    open spec fn view(&self) -> ClientboundCraftRecipeResponseView {
        ClientboundCraftRecipeResponseView {
            raw: self.raw@,
        }
    }
}

impl PacketId for ClientboundCraftRecipeResponse {
    open spec fn spec_packet_id(ver: u32) -> u8 {
        0x2E
    }

    fn packet_id(_ver: u32) -> (r: u8) {
        0x2E
    }
}

impl WireFormat for ClientboundCraftRecipeResponse {
    open spec fn spec_encode(p: ClientboundCraftRecipeResponseView) -> Seq<u8> {
        p.raw
    }

    open spec fn spec_decode(s: Seq<u8>) -> Parsed<ClientboundCraftRecipeResponseView> {
        then(take_rest(s), |raw: Seq<u8>, s: Seq<u8>| (Ok(ClientboundCraftRecipeResponseView { raw }), s))
    }
}

impl Roundtrip for ClientboundCraftRecipeResponse {
    open spec fn encodable(p: ClientboundCraftRecipeResponseView) -> bool {
        true
    }

    open spec fn reads_to_end() -> bool {
        true
    }

    proof fn lemma_roundtrip(p: ClientboundCraftRecipeResponseView, rest: Seq<u8>) {
        broadcast use group_wire_roundtrip;

        assert(p.raw + rest =~= p.raw);
    }
}

impl Encode for ClientboundCraftRecipeResponse {
    fn encode(&self, dst: &mut BytesMut) -> (r: Result<(), ProtocolError>) {
        let ghost d0 = bytes_mut_data(*dst);
        put_slice(dst, self.raw.as_slice());
        let ghost mut e: Seq<u8> = self@.raw;
        Ok(())
    }
}

impl Decode for ClientboundCraftRecipeResponse {
    fn decode(src: &mut Bytes) -> (r: Result<Self, ProtocolError>) {
        let raw = take_remaining(src);
        Ok(Self { raw })
    }
}

// ── ClientboundPlayerAbilities ────────────────────────────────────────

#[derive(Debug, Clone, PartialEq)]
pub struct ClientboundPlayerAbilities {
    pub flags: u8,
    /// The bits of the `f32` value (`f32::to_bits`).
    pub flying_speed: u32,
    /// The bits of the `f32` value (`f32::to_bits`).
    pub walking_speed: u32,
}

impl View for ClientboundPlayerAbilities {
    type V = ClientboundPlayerAbilities;

    open spec fn view(&self) -> ClientboundPlayerAbilities {
        *self
    }
}

impl PacketId for ClientboundPlayerAbilities {
    open spec fn spec_packet_id(ver: u32) -> u8 {
        0x2F
    }

    fn packet_id(_ver: u32) -> (r: u8) {
        0x2F
    }
}

impl WireFormat for ClientboundPlayerAbilities {
    open spec fn spec_encode(p: ClientboundPlayerAbilities) -> Seq<u8> {
        seq![p.flags] + be_u32_bytes(p.flying_speed) + be_u32_bytes(p.walking_speed)
    }

    open spec fn spec_decode(s: Seq<u8>) -> Parsed<ClientboundPlayerAbilities> {
        then(need_spec(s, 9), |_u: (), s: Seq<u8>| then(take_u8(s), |flags: u8, s: Seq<u8>| then(take_u32(s), |flying_speed: u32, s: Seq<u8>| then(take_u32(s), |walking_speed: u32, s: Seq<u8>| (Ok(ClientboundPlayerAbilities { flags, flying_speed, walking_speed }), s)))))
    }
}

impl Roundtrip for ClientboundPlayerAbilities {
    open spec fn encodable(p: ClientboundPlayerAbilities) -> bool {
        true
    }

    open spec fn reads_to_end() -> bool {
        false
    }

    proof fn lemma_roundtrip(p: ClientboundPlayerAbilities, rest: Seq<u8>) {
        broadcast use group_wire_roundtrip;

        let t2 = be_u32_bytes(p.walking_speed) + rest;
        let t1 = be_u32_bytes(p.flying_speed) + t2;
        lemma_concat_associative(seq![p.flags] + be_u32_bytes(p.flying_speed), be_u32_bytes(p.walking_speed), rest);
        lemma_concat_associative(seq![p.flags], be_u32_bytes(p.flying_speed), t2);
    }
}

impl Encode for ClientboundPlayerAbilities {
    fn encode(&self, dst: &mut BytesMut) -> (r: Result<(), ProtocolError>) {
        let ghost d0 = bytes_mut_data(*dst);
        put_u8(dst, self.flags);
        let ghost mut e: Seq<u8> = seq![self@.flags];
        put_u32(dst, self.flying_speed);
        proof {
            lemma_concat_associative(d0, e, be_u32_bytes(self@.flying_speed));
            e = e + be_u32_bytes(self@.flying_speed);
        }
        put_u32(dst, self.walking_speed);
        proof {
            lemma_concat_associative(d0, e, be_u32_bytes(self@.walking_speed));
            e = e + be_u32_bytes(self@.walking_speed);
        }
        Ok(())
    }
}

impl Decode for ClientboundPlayerAbilities {
    fn decode(src: &mut Bytes) -> (r: Result<Self, ProtocolError>) {
        need(src, 9)?;
        let flags = get_u8(src);
        let flying_speed = get_u32(src);
        let walking_speed = get_u32(src);
        Ok(Self { flags, flying_speed, walking_speed })
    }
}

// ── ClientboundCombatEvent ────────────────────────────────────────────

#[derive(Debug, Clone, PartialEq)]
pub struct ClientboundCombatEvent {
    pub raw: Vec<u8>,
}

pub struct ClientboundCombatEventView {
    pub raw: Seq<u8>,
}

impl View for ClientboundCombatEvent {
    type V = ClientboundCombatEventView;

    open spec fn view(&self) -> ClientboundCombatEventView {
        ClientboundCombatEventView {
            raw: self.raw@,
        }
    }
}

impl PacketId for ClientboundCombatEvent {
    open spec fn spec_packet_id(ver: u32) -> u8 {
        0x30
    }

    fn packet_id(_ver: u32) -> (r: u8) {
        0x30
    }
}

impl WireFormat for ClientboundCombatEvent {
    open spec fn spec_encode(p: ClientboundCombatEventView) -> Seq<u8> {
        p.raw
    }

    open spec fn spec_decode(s: Seq<u8>) -> Parsed<ClientboundCombatEventView> {
        then(take_rest(s), |raw: Seq<u8>, s: Seq<u8>| (Ok(ClientboundCombatEventView { raw }), s))
    }
}

impl Roundtrip for ClientboundCombatEvent {
    open spec fn encodable(p: ClientboundCombatEventView) -> bool {
        true
    }

    open spec fn reads_to_end() -> bool {
        true
    }

    proof fn lemma_roundtrip(p: ClientboundCombatEventView, rest: Seq<u8>) {
        broadcast use group_wire_roundtrip;

        assert(p.raw + rest =~= p.raw);
    }
}

impl Encode for ClientboundCombatEvent {
    fn encode(&self, dst: &mut BytesMut) -> (r: Result<(), ProtocolError>) {
        let ghost d0 = bytes_mut_data(*dst);
        put_slice(dst, self.raw.as_slice());
        let ghost mut e: Seq<u8> = self@.raw;
        Ok(())
    }
}

impl Decode for ClientboundCombatEvent {
    fn decode(src: &mut Bytes) -> (r: Result<Self, ProtocolError>) {
        let raw = take_remaining(src);
        Ok(Self { raw })
    }
}

// ── ClientboundPlayerInfo ─────────────────────────────────────────────

#[derive(Debug, Clone, PartialEq)]
pub struct ClientboundPlayerInfo {
    pub raw: Vec<u8>,
}

pub struct ClientboundPlayerInfoView {
    pub raw: Seq<u8>,
}

impl View for ClientboundPlayerInfo {
    type V = ClientboundPlayerInfoView;

    open spec fn view(&self) -> ClientboundPlayerInfoView {
        ClientboundPlayerInfoView {
            raw: self.raw@,
        }
    }
}

impl PacketId for ClientboundPlayerInfo {
    open spec fn spec_packet_id(ver: u32) -> u8 {
        0x31
    }

    fn packet_id(_ver: u32) -> (r: u8) {
        0x31
    }
}

impl WireFormat for ClientboundPlayerInfo {
    open spec fn spec_encode(p: ClientboundPlayerInfoView) -> Seq<u8> {
        p.raw
    }

    open spec fn spec_decode(s: Seq<u8>) -> Parsed<ClientboundPlayerInfoView> {
        then(take_rest(s), |raw: Seq<u8>, s: Seq<u8>| (Ok(ClientboundPlayerInfoView { raw }), s))
    }
}

impl Roundtrip for ClientboundPlayerInfo {
    open spec fn encodable(p: ClientboundPlayerInfoView) -> bool {
        true
    }

    open spec fn reads_to_end() -> bool {
        true
    }

    proof fn lemma_roundtrip(p: ClientboundPlayerInfoView, rest: Seq<u8>) {
        broadcast use group_wire_roundtrip;

        assert(p.raw + rest =~= p.raw);
    }
}

impl Encode for ClientboundPlayerInfo {
    fn encode(&self, dst: &mut BytesMut) -> (r: Result<(), ProtocolError>) {
        let ghost d0 = bytes_mut_data(*dst);
        put_slice(dst, self.raw.as_slice());
        let ghost mut e: Seq<u8> = self@.raw;
        Ok(())
    }
}

impl Decode for ClientboundPlayerInfo {
    fn decode(src: &mut Bytes) -> (r: Result<Self, ProtocolError>) {
        let raw = take_remaining(src);
        Ok(Self { raw })
    }
}

// ── ClientboundFacePlayer ─────────────────────────────────────────────

#[derive(Debug, Clone, PartialEq)]
pub struct ClientboundFacePlayer {
    pub raw: Vec<u8>,
}

pub struct ClientboundFacePlayerView {
    pub raw: Seq<u8>,
}

impl View for ClientboundFacePlayer {
    type V = ClientboundFacePlayerView;

    open spec fn view(&self) -> ClientboundFacePlayerView {
        ClientboundFacePlayerView {
            raw: self.raw@,
        }
    }
}

impl PacketId for ClientboundFacePlayer {
    open spec fn spec_packet_id(ver: u32) -> u8 {
        0x31
    }

    fn packet_id(_ver: u32) -> (r: u8) {
        0x31
    }
}

impl WireFormat for ClientboundFacePlayer {
    open spec fn spec_encode(p: ClientboundFacePlayerView) -> Seq<u8> {
        p.raw
    }

    open spec fn spec_decode(s: Seq<u8>) -> Parsed<ClientboundFacePlayerView> {
        then(take_rest(s), |raw: Seq<u8>, s: Seq<u8>| (Ok(ClientboundFacePlayerView { raw }), s))
    }
}

impl Roundtrip for ClientboundFacePlayer {
    open spec fn encodable(p: ClientboundFacePlayerView) -> bool {
        true
    }

    open spec fn reads_to_end() -> bool {
        true
    }

    proof fn lemma_roundtrip(p: ClientboundFacePlayerView, rest: Seq<u8>) {
        broadcast use group_wire_roundtrip;

        assert(p.raw + rest =~= p.raw);
    }
}

impl Encode for ClientboundFacePlayer {
    fn encode(&self, dst: &mut BytesMut) -> (r: Result<(), ProtocolError>) {
        let ghost d0 = bytes_mut_data(*dst);
        put_slice(dst, self.raw.as_slice());
        let ghost mut e: Seq<u8> = self@.raw;
        Ok(())
    }
}

impl Decode for ClientboundFacePlayer {
    fn decode(src: &mut Bytes) -> (r: Result<Self, ProtocolError>) {
        let raw = take_remaining(src);
        Ok(Self { raw })
    }
}

// ── ClientboundRemoveEntityEffect ─────────────────────────────────────

#[derive(Debug, Clone, PartialEq)]
pub struct ClientboundRemoveEntityEffect {
    pub raw: Vec<u8>,
}

pub struct ClientboundRemoveEntityEffectView {
    pub raw: Seq<u8>,
}

impl View for ClientboundRemoveEntityEffect {
    type V = ClientboundRemoveEntityEffectView;

    open spec fn view(&self) -> ClientboundRemoveEntityEffectView {
        ClientboundRemoveEntityEffectView {
            raw: self.raw@,
        }
    }
}

impl PacketId for ClientboundRemoveEntityEffect {
    open spec fn spec_packet_id(ver: u32) -> u8 {
        0x37
    }

    fn packet_id(_ver: u32) -> (r: u8) {
        0x37
    }
}

impl WireFormat for ClientboundRemoveEntityEffect {
    open spec fn spec_encode(p: ClientboundRemoveEntityEffectView) -> Seq<u8> {
        p.raw
    }

    open spec fn spec_decode(s: Seq<u8>) -> Parsed<ClientboundRemoveEntityEffectView> {
        then(take_rest(s), |raw: Seq<u8>, s: Seq<u8>| (Ok(ClientboundRemoveEntityEffectView { raw }), s))
    }
}

impl Roundtrip for ClientboundRemoveEntityEffect {
    open spec fn encodable(p: ClientboundRemoveEntityEffectView) -> bool {
        true
    }

    open spec fn reads_to_end() -> bool {
        true
    }

    proof fn lemma_roundtrip(p: ClientboundRemoveEntityEffectView, rest: Seq<u8>) {
        broadcast use group_wire_roundtrip;

        assert(p.raw + rest =~= p.raw);
    }
}

impl Encode for ClientboundRemoveEntityEffect {
    fn encode(&self, dst: &mut BytesMut) -> (r: Result<(), ProtocolError>) {
        let ghost d0 = bytes_mut_data(*dst);
        put_slice(dst, self.raw.as_slice());
        let ghost mut e: Seq<u8> = self@.raw;
        Ok(())
    }
}

impl Decode for ClientboundRemoveEntityEffect {
    fn decode(src: &mut Bytes) -> (r: Result<Self, ProtocolError>) {
        let raw = take_remaining(src);
        Ok(Self { raw })
    }
}

// ── ClientboundResourcePackSend ───────────────────────────────────────

#[derive(Debug, Clone, PartialEq)]
pub struct ClientboundResourcePackSend {
    pub raw: Vec<u8>,
}

pub struct ClientboundResourcePackSendView {
    pub raw: Seq<u8>,
}

impl View for ClientboundResourcePackSend {
    type V = ClientboundResourcePackSendView;

    open spec fn view(&self) -> ClientboundResourcePackSendView {
        ClientboundResourcePackSendView {
            raw: self.raw@,
        }
    }
}

impl PacketId for ClientboundResourcePackSend {
    open spec fn spec_packet_id(ver: u32) -> u8 {
        0x38
    }

    fn packet_id(_ver: u32) -> (r: u8) {
        0x38
    }
}

impl WireFormat for ClientboundResourcePackSend {
    open spec fn spec_encode(p: ClientboundResourcePackSendView) -> Seq<u8> {
        p.raw
    }

    open spec fn spec_decode(s: Seq<u8>) -> Parsed<ClientboundResourcePackSendView> {
        then(take_rest(s), |raw: Seq<u8>, s: Seq<u8>| (Ok(ClientboundResourcePackSendView { raw }), s))
    }
}

impl Roundtrip for ClientboundResourcePackSend {
    open spec fn encodable(p: ClientboundResourcePackSendView) -> bool {
        true
    }

    open spec fn reads_to_end() -> bool {
        true
    }

    proof fn lemma_roundtrip(p: ClientboundResourcePackSendView, rest: Seq<u8>) {
        broadcast use group_wire_roundtrip;

        assert(p.raw + rest =~= p.raw);
    }
}

impl Encode for ClientboundResourcePackSend {
    fn encode(&self, dst: &mut BytesMut) -> (r: Result<(), ProtocolError>) {
        let ghost d0 = bytes_mut_data(*dst);
        put_slice(dst, self.raw.as_slice());
        let ghost mut e: Seq<u8> = self@.raw;
        Ok(())
    }
}

impl Decode for ClientboundResourcePackSend {
    fn decode(src: &mut Bytes) -> (r: Result<Self, ProtocolError>) {
        let raw = take_remaining(src);
        Ok(Self { raw })
    }
}

// ── ClientboundEntityHeadLook ─────────────────────────────────────────

#[derive(Debug, Clone, PartialEq)]
pub struct ClientboundEntityHeadLook {
    pub entity_id: VarInt,
    pub head_yaw: i8,
}

impl View for ClientboundEntityHeadLook {
    type V = ClientboundEntityHeadLook;

    open spec fn view(&self) -> ClientboundEntityHeadLook {
        *self
    }
}

impl PacketId for ClientboundEntityHeadLook {
    open spec fn spec_packet_id(ver: u32) -> u8 {
        0x3A
    }

    fn packet_id(_ver: u32) -> (r: u8) {
        0x3A
    }
}

impl WireFormat for ClientboundEntityHeadLook {
    open spec fn spec_encode(p: ClientboundEntityHeadLook) -> Seq<u8> {
        VarInt::spec_encode(p.entity_id) + seq![p.head_yaw as u8]
    }

    open spec fn spec_decode(s: Seq<u8>) -> Parsed<ClientboundEntityHeadLook> {
        then(VarInt::spec_decode(s), |entity_id: VarInt, s: Seq<u8>| then(take_i8(s), |head_yaw: i8, s: Seq<u8>| (Ok(ClientboundEntityHeadLook { entity_id, head_yaw }), s)))
    }
}

impl Roundtrip for ClientboundEntityHeadLook {
    open spec fn encodable(p: ClientboundEntityHeadLook) -> bool {
        true
    }

    open spec fn reads_to_end() -> bool {
        false
    }

    proof fn lemma_roundtrip(p: ClientboundEntityHeadLook, rest: Seq<u8>) {
        broadcast use group_wire_roundtrip;

        let t1 = seq![p.head_yaw as u8] + rest;
        lemma_concat_associative(VarInt::spec_encode(p.entity_id), seq![p.head_yaw as u8], rest);
        VarInt::lemma_roundtrip(p.entity_id, t1);
    }
}

impl Encode for ClientboundEntityHeadLook {
    fn encode(&self, dst: &mut BytesMut) -> (r: Result<(), ProtocolError>) {
        let ghost d0 = bytes_mut_data(*dst);
        let _ = self.entity_id.encode(dst);
        let ghost mut e: Seq<u8> = VarInt::spec_encode(self@.entity_id);
        put_i8(dst, self.head_yaw);
        proof {
            lemma_concat_associative(d0, e, seq![self@.head_yaw as u8]);
            e = e + seq![self@.head_yaw as u8];
        }
        Ok(())
    }
}

impl Decode for ClientboundEntityHeadLook {
    fn decode(src: &mut Bytes) -> (r: Result<Self, ProtocolError>) {
        let entity_id = VarInt::decode(src)?;
        let head_yaw = get_i8(src);
        Ok(Self { entity_id, head_yaw })
    }
}

// ── ClientboundMultiBlockChange ───────────────────────────────────────

#[derive(Debug, Clone, PartialEq)]
pub struct ClientboundMultiBlockChange {
    pub raw: Vec<u8>,
}

pub struct ClientboundMultiBlockChangeView {
    pub raw: Seq<u8>,
}

impl View for ClientboundMultiBlockChange {
    type V = ClientboundMultiBlockChangeView;

    open spec fn view(&self) -> ClientboundMultiBlockChangeView {
        ClientboundMultiBlockChangeView {
            raw: self.raw@,
        }
    }
}

impl PacketId for ClientboundMultiBlockChange {
    open spec fn spec_packet_id(ver: u32) -> u8 {
        0x3B
    }

    fn packet_id(_ver: u32) -> (r: u8) {
        0x3B
    }
}

impl WireFormat for ClientboundMultiBlockChange {
    open spec fn spec_encode(p: ClientboundMultiBlockChangeView) -> Seq<u8> {
        p.raw
    }

    open spec fn spec_decode(s: Seq<u8>) -> Parsed<ClientboundMultiBlockChangeView> {
        then(take_rest(s), |raw: Seq<u8>, s: Seq<u8>| (Ok(ClientboundMultiBlockChangeView { raw }), s))
    }
}

impl Roundtrip for ClientboundMultiBlockChange {
    open spec fn encodable(p: ClientboundMultiBlockChangeView) -> bool {
        true
    }

    open spec fn reads_to_end() -> bool {
        true
    }

    proof fn lemma_roundtrip(p: ClientboundMultiBlockChangeView, rest: Seq<u8>) {
        broadcast use group_wire_roundtrip;

        assert(p.raw + rest =~= p.raw);
    }
}

impl Encode for ClientboundMultiBlockChange {
    fn encode(&self, dst: &mut BytesMut) -> (r: Result<(), ProtocolError>) {
        let ghost d0 = bytes_mut_data(*dst);
        put_slice(dst, self.raw.as_slice());
        let ghost mut e: Seq<u8> = self@.raw;
        Ok(())
    }
}

impl Decode for ClientboundMultiBlockChange {
    fn decode(src: &mut Bytes) -> (r: Result<Self, ProtocolError>) {
        let raw = take_remaining(src);
        Ok(Self { raw })
    }
}

// ── ClientboundSelectAdvancementsTab ──────────────────────────────────

#[derive(Debug, Clone, PartialEq)]
pub struct ClientboundSelectAdvancementsTab {
    pub raw: Vec<u8>,
}

pub struct ClientboundSelectAdvancementsTabView {
    pub raw: Seq<u8>,
}

impl View for ClientboundSelectAdvancementsTab {
    type V = ClientboundSelectAdvancementsTabView;

    open spec fn view(&self) -> ClientboundSelectAdvancementsTabView {
        ClientboundSelectAdvancementsTabView {
            raw: self.raw@,
        }
    }
}

impl PacketId for ClientboundSelectAdvancementsTab {
    open spec fn spec_packet_id(ver: u32) -> u8 {
        0x3C
    }

    fn packet_id(_ver: u32) -> (r: u8) {
        0x3C
    }
}

impl WireFormat for ClientboundSelectAdvancementsTab {
    open spec fn spec_encode(p: ClientboundSelectAdvancementsTabView) -> Seq<u8> {
        p.raw
    }

    open spec fn spec_decode(s: Seq<u8>) -> Parsed<ClientboundSelectAdvancementsTabView> {
        then(take_rest(s), |raw: Seq<u8>, s: Seq<u8>| (Ok(ClientboundSelectAdvancementsTabView { raw }), s))
    }
}

impl Roundtrip for ClientboundSelectAdvancementsTab {
    open spec fn encodable(p: ClientboundSelectAdvancementsTabView) -> bool {
        true
    }

    open spec fn reads_to_end() -> bool {
        true
    }

    proof fn lemma_roundtrip(p: ClientboundSelectAdvancementsTabView, rest: Seq<u8>) {
        broadcast use group_wire_roundtrip;

        assert(p.raw + rest =~= p.raw);
    }
}

impl Encode for ClientboundSelectAdvancementsTab {
    fn encode(&self, dst: &mut BytesMut) -> (r: Result<(), ProtocolError>) {
        let ghost d0 = bytes_mut_data(*dst);
        put_slice(dst, self.raw.as_slice());
        let ghost mut e: Seq<u8> = self@.raw;
        Ok(())
    }
}

impl Decode for ClientboundSelectAdvancementsTab {
    fn decode(src: &mut Bytes) -> (r: Result<Self, ProtocolError>) {
        let raw = take_remaining(src);
        Ok(Self { raw })
    }
}

// ── ClientboundWorldBorder ────────────────────────────────────────────

#[derive(Debug, Clone, PartialEq)]
pub struct ClientboundWorldBorder {
    pub raw: Vec<u8>,
}

pub struct ClientboundWorldBorderView {
    pub raw: Seq<u8>,
}

impl View for ClientboundWorldBorder {
    type V = ClientboundWorldBorderView;

    open spec fn view(&self) -> ClientboundWorldBorderView {
        ClientboundWorldBorderView {
            raw: self.raw@,
        }
    }
}

impl PacketId for ClientboundWorldBorder {
    open spec fn spec_packet_id(ver: u32) -> u8 {
        0x3D
    }

    fn packet_id(_ver: u32) -> (r: u8) {
        0x3D
    }
}

impl WireFormat for ClientboundWorldBorder {
    open spec fn spec_encode(p: ClientboundWorldBorderView) -> Seq<u8> {
        p.raw
    }

    open spec fn spec_decode(s: Seq<u8>) -> Parsed<ClientboundWorldBorderView> {
        then(take_rest(s), |raw: Seq<u8>, s: Seq<u8>| (Ok(ClientboundWorldBorderView { raw }), s))
    }
}

impl Roundtrip for ClientboundWorldBorder {
    open spec fn encodable(p: ClientboundWorldBorderView) -> bool {
        true
    }

    open spec fn reads_to_end() -> bool {
        true
    }

    proof fn lemma_roundtrip(p: ClientboundWorldBorderView, rest: Seq<u8>) {
        broadcast use group_wire_roundtrip;

        assert(p.raw + rest =~= p.raw);
    }
}

impl Encode for ClientboundWorldBorder {
    fn encode(&self, dst: &mut BytesMut) -> (r: Result<(), ProtocolError>) {
        let ghost d0 = bytes_mut_data(*dst);
        put_slice(dst, self.raw.as_slice());
        let ghost mut e: Seq<u8> = self@.raw;
        Ok(())
    }
}

impl Decode for ClientboundWorldBorder {
    fn decode(src: &mut Bytes) -> (r: Result<Self, ProtocolError>) {
        let raw = take_remaining(src);
        Ok(Self { raw })
    }
}

// ── ClientboundCamera ─────────────────────────────────────────────────

#[derive(Debug, Clone, PartialEq)]
pub struct ClientboundCamera {
    pub raw: Vec<u8>,
}

pub struct ClientboundCameraView {
    pub raw: Seq<u8>,
}

impl View for ClientboundCamera {
    type V = ClientboundCameraView;

    open spec fn view(&self) -> ClientboundCameraView {
        ClientboundCameraView {
            raw: self.raw@,
        }
    }
}

impl PacketId for ClientboundCamera {
    open spec fn spec_packet_id(ver: u32) -> u8 {
        0x3E
    }

    fn packet_id(_ver: u32) -> (r: u8) {
        0x3E
    }
}

impl WireFormat for ClientboundCamera {
    open spec fn spec_encode(p: ClientboundCameraView) -> Seq<u8> {
        p.raw
    }

    open spec fn spec_decode(s: Seq<u8>) -> Parsed<ClientboundCameraView> {
        then(take_rest(s), |raw: Seq<u8>, s: Seq<u8>| (Ok(ClientboundCameraView { raw }), s))
    }
}

impl Roundtrip for ClientboundCamera {
    open spec fn encodable(p: ClientboundCameraView) -> bool {
        true
    }

    open spec fn reads_to_end() -> bool {
        true
    }

    proof fn lemma_roundtrip(p: ClientboundCameraView, rest: Seq<u8>) {
        broadcast use group_wire_roundtrip;

        assert(p.raw + rest =~= p.raw);
    }
}

impl Encode for ClientboundCamera {
    fn encode(&self, dst: &mut BytesMut) -> (r: Result<(), ProtocolError>) {
        let ghost d0 = bytes_mut_data(*dst);
        put_slice(dst, self.raw.as_slice());
        let ghost mut e: Seq<u8> = self@.raw;
        Ok(())
    }
}

impl Decode for ClientboundCamera {
    fn decode(src: &mut Bytes) -> (r: Result<Self, ProtocolError>) {
        let raw = take_remaining(src);
        Ok(Self { raw })
    }
}

// ── ClientboundHeldItemChange ─────────────────────────────────────────

#[derive(Debug, Clone, PartialEq)]
pub struct ClientboundHeldItemChange {
    pub slot: i8,
}

impl View for ClientboundHeldItemChange {
    type V = ClientboundHeldItemChange;

    open spec fn view(&self) -> ClientboundHeldItemChange {
        *self
    }
}

impl PacketId for ClientboundHeldItemChange {
    open spec fn spec_packet_id(ver: u32) -> u8 {
        0x3F
    }

    fn packet_id(_ver: u32) -> (r: u8) {
        0x3F
    }
}

impl WireFormat for ClientboundHeldItemChange {
    open spec fn spec_encode(p: ClientboundHeldItemChange) -> Seq<u8> {
        seq![p.slot as u8]
    }

    open spec fn spec_decode(s: Seq<u8>) -> Parsed<ClientboundHeldItemChange> {
        then(need_spec(s, 1), |_u: (), s: Seq<u8>| then(take_i8(s), |slot: i8, s: Seq<u8>| (Ok(ClientboundHeldItemChange { slot }), s)))
    }
}

impl Roundtrip for ClientboundHeldItemChange {
    open spec fn encodable(p: ClientboundHeldItemChange) -> bool {
        true
    }

    open spec fn reads_to_end() -> bool {
        false
    }

    proof fn lemma_roundtrip(p: ClientboundHeldItemChange, rest: Seq<u8>) {
        broadcast use group_wire_roundtrip;

    }
}

impl Encode for ClientboundHeldItemChange {
    fn encode(&self, dst: &mut BytesMut) -> (r: Result<(), ProtocolError>) {
        let ghost d0 = bytes_mut_data(*dst);
        put_i8(dst, self.slot);
        let ghost mut e: Seq<u8> = seq![self@.slot as u8];
        Ok(())
    }
}

impl Decode for ClientboundHeldItemChange {
    fn decode(src: &mut Bytes) -> (r: Result<Self, ProtocolError>) {
        need(src, 1)?;
        let slot = get_i8(src);
        Ok(Self { slot })
    }
}

// ── ClientboundUpdateViewPosition ─────────────────────────────────────

#[derive(Debug, Clone, PartialEq)]
pub struct ClientboundUpdateViewPosition {
    pub raw: Vec<u8>,
}

pub struct ClientboundUpdateViewPositionView {
    pub raw: Seq<u8>,
}

impl View for ClientboundUpdateViewPosition {
    type V = ClientboundUpdateViewPositionView;

    open spec fn view(&self) -> ClientboundUpdateViewPositionView {
        ClientboundUpdateViewPositionView {
            raw: self.raw@,
        }
    }
}

impl PacketId for ClientboundUpdateViewPosition {
    open spec fn spec_packet_id(ver: u32) -> u8 {
        0x40
    }

    fn packet_id(_ver: u32) -> (r: u8) {
        0x40
    }
}

impl WireFormat for ClientboundUpdateViewPosition {
    open spec fn spec_encode(p: ClientboundUpdateViewPositionView) -> Seq<u8> {
        p.raw
    }

    open spec fn spec_decode(s: Seq<u8>) -> Parsed<ClientboundUpdateViewPositionView> {
        then(take_rest(s), |raw: Seq<u8>, s: Seq<u8>| (Ok(ClientboundUpdateViewPositionView { raw }), s))
    }
}

impl Roundtrip for ClientboundUpdateViewPosition {
    open spec fn encodable(p: ClientboundUpdateViewPositionView) -> bool {
        true
    }

    open spec fn reads_to_end() -> bool {
        true
    }

    proof fn lemma_roundtrip(p: ClientboundUpdateViewPositionView, rest: Seq<u8>) {
        broadcast use group_wire_roundtrip;

        assert(p.raw + rest =~= p.raw);
    }
}

impl Encode for ClientboundUpdateViewPosition {
    fn encode(&self, dst: &mut BytesMut) -> (r: Result<(), ProtocolError>) {
        let ghost d0 = bytes_mut_data(*dst);
        put_slice(dst, self.raw.as_slice());
        let ghost mut e: Seq<u8> = self@.raw;
        Ok(())
    }
}

impl Decode for ClientboundUpdateViewPosition {
    fn decode(src: &mut Bytes) -> (r: Result<Self, ProtocolError>) {
        let raw = take_remaining(src);
        Ok(Self { raw })
    }
}

// ── ClientboundUpdateViewDistance ─────────────────────────────────────

#[derive(Debug, Clone, PartialEq)]
pub struct ClientboundUpdateViewDistance {
    pub raw: Vec<u8>,
}

pub struct ClientboundUpdateViewDistanceView {
    pub raw: Seq<u8>,
}

impl View for ClientboundUpdateViewDistance {
    type V = ClientboundUpdateViewDistanceView;

    open spec fn view(&self) -> ClientboundUpdateViewDistanceView {
        ClientboundUpdateViewDistanceView {
            raw: self.raw@,
        }
    }
}

impl PacketId for ClientboundUpdateViewDistance {
    open spec fn spec_packet_id(ver: u32) -> u8 {
        0x41
    }

    fn packet_id(_ver: u32) -> (r: u8) {
        0x41
    }
}

impl WireFormat for ClientboundUpdateViewDistance {
    open spec fn spec_encode(p: ClientboundUpdateViewDistanceView) -> Seq<u8> {
        p.raw
    }

    open spec fn spec_decode(s: Seq<u8>) -> Parsed<ClientboundUpdateViewDistanceView> {
        then(take_rest(s), |raw: Seq<u8>, s: Seq<u8>| (Ok(ClientboundUpdateViewDistanceView { raw }), s))
    }
}

impl Roundtrip for ClientboundUpdateViewDistance {
    open spec fn encodable(p: ClientboundUpdateViewDistanceView) -> bool {
        true
    }

    open spec fn reads_to_end() -> bool {
        true
    }

    proof fn lemma_roundtrip(p: ClientboundUpdateViewDistanceView, rest: Seq<u8>) {
        broadcast use group_wire_roundtrip;

        assert(p.raw + rest =~= p.raw);
    }
}

impl Encode for ClientboundUpdateViewDistance {
    fn encode(&self, dst: &mut BytesMut) -> (r: Result<(), ProtocolError>) {
        let ghost d0 = bytes_mut_data(*dst);
        put_slice(dst, self.raw.as_slice());
        let ghost mut e: Seq<u8> = self@.raw;
        Ok(())
    }
}

impl Decode for ClientboundUpdateViewDistance {
    fn decode(src: &mut Bytes) -> (r: Result<Self, ProtocolError>) {
        let raw = take_remaining(src);
        Ok(Self { raw })
    }
}

// ── ClientboundSpawnPosition ──────────────────────────────────────────

#[derive(Debug, Clone, PartialEq)]
pub struct ClientboundSpawnPosition {
    pub location: VarInt,
}

impl View for ClientboundSpawnPosition {
    type V = ClientboundSpawnPosition;

    open spec fn view(&self) -> ClientboundSpawnPosition {
        *self
    }
}

impl PacketId for ClientboundSpawnPosition {
    open spec fn spec_packet_id(ver: u32) -> u8 {
        0x42
    }

    fn packet_id(_ver: u32) -> (r: u8) {
        0x42
    }
}

impl WireFormat for ClientboundSpawnPosition {
    open spec fn spec_encode(p: ClientboundSpawnPosition) -> Seq<u8> {
        VarInt::spec_encode(p.location)
    }

    open spec fn spec_decode(s: Seq<u8>) -> Parsed<ClientboundSpawnPosition> {
        then(VarInt::spec_decode(s), |location: VarInt, s: Seq<u8>| (Ok(ClientboundSpawnPosition { location }), s))
    }
}

impl Roundtrip for ClientboundSpawnPosition {
    open spec fn encodable(p: ClientboundSpawnPosition) -> bool {
        true
    }

    open spec fn reads_to_end() -> bool {
        false
    }

    proof fn lemma_roundtrip(p: ClientboundSpawnPosition, rest: Seq<u8>) {
        broadcast use group_wire_roundtrip;

        VarInt::lemma_roundtrip(p.location, rest);
    }
}

impl Encode for ClientboundSpawnPosition {
    fn encode(&self, dst: &mut BytesMut) -> (r: Result<(), ProtocolError>) {
        let ghost d0 = bytes_mut_data(*dst);
        let _ = self.location.encode(dst);
        let ghost mut e: Seq<u8> = VarInt::spec_encode(self@.location);
        Ok(())
    }
}

impl Decode for ClientboundSpawnPosition {
    fn decode(src: &mut Bytes) -> (r: Result<Self, ProtocolError>) {
        let location = VarInt::decode(src)?;
        Ok(Self { location })
    }
}

// ── ClientboundDisplayScoreboard ──────────────────────────────────────

#[derive(Debug, Clone, PartialEq)]
pub struct ClientboundDisplayScoreboard {
    pub raw: Vec<u8>,
}

pub struct ClientboundDisplayScoreboardView {
    pub raw: Seq<u8>,
}

impl View for ClientboundDisplayScoreboard {
    type V = ClientboundDisplayScoreboardView;

    open spec fn view(&self) -> ClientboundDisplayScoreboardView {
        ClientboundDisplayScoreboardView {
            raw: self.raw@,
        }
    }
}

impl PacketId for ClientboundDisplayScoreboard {
    open spec fn spec_packet_id(ver: u32) -> u8 {
        0x43
    }

    fn packet_id(_ver: u32) -> (r: u8) {
        0x43
    }
}

impl WireFormat for ClientboundDisplayScoreboard {
    open spec fn spec_encode(p: ClientboundDisplayScoreboardView) -> Seq<u8> {
        p.raw
    }

    open spec fn spec_decode(s: Seq<u8>) -> Parsed<ClientboundDisplayScoreboardView> {
        then(take_rest(s), |raw: Seq<u8>, s: Seq<u8>| (Ok(ClientboundDisplayScoreboardView { raw }), s))
    }
}

impl Roundtrip for ClientboundDisplayScoreboard {
    open spec fn encodable(p: ClientboundDisplayScoreboardView) -> bool {
        true
    }

    open spec fn reads_to_end() -> bool {
        true
    }

    proof fn lemma_roundtrip(p: ClientboundDisplayScoreboardView, rest: Seq<u8>) {
        broadcast use group_wire_roundtrip;

        assert(p.raw + rest =~= p.raw);
    }
}

impl Encode for ClientboundDisplayScoreboard {
    fn encode(&self, dst: &mut BytesMut) -> (r: Result<(), ProtocolError>) {
        let ghost d0 = bytes_mut_data(*dst);
        put_slice(dst, self.raw.as_slice());
        let ghost mut e: Seq<u8> = self@.raw;
        Ok(())
    }
}

impl Decode for ClientboundDisplayScoreboard {
    fn decode(src: &mut Bytes) -> (r: Result<Self, ProtocolError>) {
        let raw = take_remaining(src);
        Ok(Self { raw })
    }
}

// ── ClientboundEntityMetadata ─────────────────────────────────────────

#[derive(Debug, Clone, PartialEq)]
pub struct ClientboundEntityMetadata {
    pub raw: Vec<u8>,
}

pub struct ClientboundEntityMetadataView {
    pub raw: Seq<u8>,
}

impl View for ClientboundEntityMetadata {
    type V = ClientboundEntityMetadataView;

    open spec fn view(&self) -> ClientboundEntityMetadataView {
        ClientboundEntityMetadataView {
            raw: self.raw@,
        }
    }
}

impl PacketId for ClientboundEntityMetadata {
    open spec fn spec_packet_id(ver: u32) -> u8 {
        0x44
    }

    fn packet_id(_ver: u32) -> (r: u8) {
        0x44
    }
}

impl WireFormat for ClientboundEntityMetadata {
    open spec fn spec_encode(p: ClientboundEntityMetadataView) -> Seq<u8> {
        p.raw
    }

    open spec fn spec_decode(s: Seq<u8>) -> Parsed<ClientboundEntityMetadataView> {
        then(take_rest(s), |raw: Seq<u8>, s: Seq<u8>| (Ok(ClientboundEntityMetadataView { raw }), s))
    }
}

impl Roundtrip for ClientboundEntityMetadata {
    open spec fn encodable(p: ClientboundEntityMetadataView) -> bool {
        true
    }

    open spec fn reads_to_end() -> bool {
        true
    }

    proof fn lemma_roundtrip(p: ClientboundEntityMetadataView, rest: Seq<u8>) {
        broadcast use group_wire_roundtrip;

        assert(p.raw + rest =~= p.raw);
    }
}

impl Encode for ClientboundEntityMetadata {
    fn encode(&self, dst: &mut BytesMut) -> (r: Result<(), ProtocolError>) {
        let ghost d0 = bytes_mut_data(*dst);
        put_slice(dst, self.raw.as_slice());
        let ghost mut e: Seq<u8> = self@.raw;
        Ok(())
    }
}

impl Decode for ClientboundEntityMetadata {
    fn decode(src: &mut Bytes) -> (r: Result<Self, ProtocolError>) {
        let raw = take_remaining(src);
        Ok(Self { raw })
    }
}

// ── ClientboundAttachEntity ───────────────────────────────────────────

#[derive(Debug, Clone, PartialEq)]
pub struct ClientboundAttachEntity {
    pub raw: Vec<u8>,
}

pub struct ClientboundAttachEntityView {
    pub raw: Seq<u8>,
}

impl View for ClientboundAttachEntity {
    type V = ClientboundAttachEntityView;

    open spec fn view(&self) -> ClientboundAttachEntityView {
        ClientboundAttachEntityView {
            raw: self.raw@,
        }
    }
}

impl PacketId for ClientboundAttachEntity {
    open spec fn spec_packet_id(ver: u32) -> u8 {
        0x45
    }

    fn packet_id(_ver: u32) -> (r: u8) {
        0x45
    }
}

impl WireFormat for ClientboundAttachEntity {
    open spec fn spec_encode(p: ClientboundAttachEntityView) -> Seq<u8> {
        p.raw
    }

    open spec fn spec_decode(s: Seq<u8>) -> Parsed<ClientboundAttachEntityView> {
        then(take_rest(s), |raw: Seq<u8>, s: Seq<u8>| (Ok(ClientboundAttachEntityView { raw }), s))
    }
}

impl Roundtrip for ClientboundAttachEntity {
    open spec fn encodable(p: ClientboundAttachEntityView) -> bool {
        true
    }

    open spec fn reads_to_end() -> bool {
        true
    }

    proof fn lemma_roundtrip(p: ClientboundAttachEntityView, rest: Seq<u8>) {
        broadcast use group_wire_roundtrip;

        assert(p.raw + rest =~= p.raw);
    }
}

impl Encode for ClientboundAttachEntity {
    fn encode(&self, dst: &mut BytesMut) -> (r: Result<(), ProtocolError>) {
        let ghost d0 = bytes_mut_data(*dst);
        put_slice(dst, self.raw.as_slice());
        let ghost mut e: Seq<u8> = self@.raw;
        Ok(())
    }
}

impl Decode for ClientboundAttachEntity {
    fn decode(src: &mut Bytes) -> (r: Result<Self, ProtocolError>) {
        let raw = take_remaining(src);
        Ok(Self { raw })
    }
}

// ── ClientboundEntityVelocity ─────────────────────────────────────────

#[derive(Debug, Clone, PartialEq)]
pub struct ClientboundEntityVelocity {
    pub entity_id: VarInt,
    pub velocity_x: i16,
    pub velocity_y: i16,
    pub velocity_z: i16,
}

impl View for ClientboundEntityVelocity {
    type V = ClientboundEntityVelocity;

    open spec fn view(&self) -> ClientboundEntityVelocity {
        *self
    }
}

impl PacketId for ClientboundEntityVelocity {
    open spec fn spec_packet_id(ver: u32) -> u8 {
        0x46
    }

    fn packet_id(_ver: u32) -> (r: u8) {
        0x46
    }
}

impl WireFormat for ClientboundEntityVelocity {
    open spec fn spec_encode(p: ClientboundEntityVelocity) -> Seq<u8> {
        VarInt::spec_encode(p.entity_id) + be_i16_bytes(p.velocity_x) + be_i16_bytes(p.velocity_y) + be_i16_bytes(p.velocity_z)
    }

    open spec fn spec_decode(s: Seq<u8>) -> Parsed<ClientboundEntityVelocity> {
        then(VarInt::spec_decode(s), |entity_id: VarInt, s: Seq<u8>| then(take_i16(s), |velocity_x: i16, s: Seq<u8>| then(take_i16(s), |velocity_y: i16, s: Seq<u8>| then(take_i16(s), |velocity_z: i16, s: Seq<u8>| (Ok(ClientboundEntityVelocity { entity_id, velocity_x, velocity_y, velocity_z }), s)))))
    }
}

impl Roundtrip for ClientboundEntityVelocity {
    open spec fn encodable(p: ClientboundEntityVelocity) -> bool {
        true
    }

    open spec fn reads_to_end() -> bool {
        false
    }

    proof fn lemma_roundtrip(p: ClientboundEntityVelocity, rest: Seq<u8>) {
        broadcast use group_wire_roundtrip;

        let t3 = be_i16_bytes(p.velocity_z) + rest;
        let t2 = be_i16_bytes(p.velocity_y) + t3;
        let t1 = be_i16_bytes(p.velocity_x) + t2;
        lemma_concat_associative(VarInt::spec_encode(p.entity_id) + be_i16_bytes(p.velocity_x) + be_i16_bytes(p.velocity_y), be_i16_bytes(p.velocity_z), rest);
        lemma_concat_associative(VarInt::spec_encode(p.entity_id) + be_i16_bytes(p.velocity_x), be_i16_bytes(p.velocity_y), t3);
        lemma_concat_associative(VarInt::spec_encode(p.entity_id), be_i16_bytes(p.velocity_x), t2);
        VarInt::lemma_roundtrip(p.entity_id, t1);
    }
}

impl Encode for ClientboundEntityVelocity {
    fn encode(&self, dst: &mut BytesMut) -> (r: Result<(), ProtocolError>) {
        let ghost d0 = bytes_mut_data(*dst);
        let _ = self.entity_id.encode(dst);
        let ghost mut e: Seq<u8> = VarInt::spec_encode(self@.entity_id);
        put_i16(dst, self.velocity_x);
        proof {
            lemma_concat_associative(d0, e, be_i16_bytes(self@.velocity_x));
            e = e + be_i16_bytes(self@.velocity_x);
        }
        put_i16(dst, self.velocity_y);
        proof {
            lemma_concat_associative(d0, e, be_i16_bytes(self@.velocity_y));
            e = e + be_i16_bytes(self@.velocity_y);
        }
        put_i16(dst, self.velocity_z);
        proof {
            lemma_concat_associative(d0, e, be_i16_bytes(self@.velocity_z));
            e = e + be_i16_bytes(self@.velocity_z);
        }
        Ok(())
    }
}

impl Decode for ClientboundEntityVelocity {
    fn decode(src: &mut Bytes) -> (r: Result<Self, ProtocolError>) {
        let entity_id = VarInt::decode(src)?;
        let velocity_x = get_i16(src);
        let velocity_y = get_i16(src);
        let velocity_z = get_i16(src);
        Ok(Self { entity_id, velocity_x, velocity_y, velocity_z })
    }
}

// ── ClientboundSetExperience ──────────────────────────────────────────

#[derive(Debug, Clone, PartialEq)]
pub struct ClientboundSetExperience {
    /// The bits of the `f32` value (`f32::to_bits`).
    pub experience_bar: u32,
    pub level: VarInt,
    pub total_experience: VarInt,
}

impl View for ClientboundSetExperience {
    type V = ClientboundSetExperience;

    open spec fn view(&self) -> ClientboundSetExperience {
        *self
    }
}

impl PacketId for ClientboundSetExperience {
    open spec fn spec_packet_id(ver: u32) -> u8 {
        0x48
    }

    fn packet_id(_ver: u32) -> (r: u8) {
        0x48
    }
}

impl WireFormat for ClientboundSetExperience {
    open spec fn spec_encode(p: ClientboundSetExperience) -> Seq<u8> {
        be_u32_bytes(p.experience_bar) + VarInt::spec_encode(p.level) + VarInt::spec_encode(p.total_experience)
    }

    open spec fn spec_decode(s: Seq<u8>) -> Parsed<ClientboundSetExperience> {
        then(need_spec(s, 4), |_u: (), s: Seq<u8>| then(take_u32(s), |experience_bar: u32, s: Seq<u8>| then(VarInt::spec_decode(s), |level: VarInt, s: Seq<u8>| then(VarInt::spec_decode(s), |total_experience: VarInt, s: Seq<u8>| (Ok(ClientboundSetExperience { experience_bar, level, total_experience }), s)))))
    }
}

impl Roundtrip for ClientboundSetExperience {
    open spec fn encodable(p: ClientboundSetExperience) -> bool {
        true
    }

    open spec fn reads_to_end() -> bool {
        false
    }

    proof fn lemma_roundtrip(p: ClientboundSetExperience, rest: Seq<u8>) {
        broadcast use group_wire_roundtrip;

        let t2 = VarInt::spec_encode(p.total_experience) + rest;
        let t1 = VarInt::spec_encode(p.level) + t2;
        lemma_concat_associative(be_u32_bytes(p.experience_bar) + VarInt::spec_encode(p.level), VarInt::spec_encode(p.total_experience), rest);
        lemma_concat_associative(be_u32_bytes(p.experience_bar), VarInt::spec_encode(p.level), t2);
        VarInt::lemma_roundtrip(p.level, t2);
        VarInt::lemma_roundtrip(p.total_experience, rest);
    }
}

impl Encode for ClientboundSetExperience {
    fn encode(&self, dst: &mut BytesMut) -> (r: Result<(), ProtocolError>) {
        let ghost d0 = bytes_mut_data(*dst);
        put_u32(dst, self.experience_bar);
        let ghost mut e: Seq<u8> = be_u32_bytes(self@.experience_bar);
        let _ = self.level.encode(dst);
        proof {
            lemma_concat_associative(d0, e, VarInt::spec_encode(self@.level));
            e = e + VarInt::spec_encode(self@.level);
        }
        let _ = self.total_experience.encode(dst);
        proof {
            lemma_concat_associative(d0, e, VarInt::spec_encode(self@.total_experience));
            e = e + VarInt::spec_encode(self@.total_experience);
        }
        Ok(())
    }
}

impl Decode for ClientboundSetExperience {
    fn decode(src: &mut Bytes) -> (r: Result<Self, ProtocolError>) {
        need(src, 4)?;
        let experience_bar = get_u32(src);
        let level = VarInt::decode(src)?;
        let total_experience = VarInt::decode(src)?;
        Ok(Self { experience_bar, level, total_experience })
    }
}

// ── ClientboundUpdateHealth ───────────────────────────────────────────

#[derive(Debug, Clone, PartialEq)]
pub struct ClientboundUpdateHealth {
    /// The bits of the `f32` value (`f32::to_bits`).
    pub health: u32,
    pub food: VarInt,
    /// The bits of the `f32` value (`f32::to_bits`).
    pub food_saturation: u32,
}

impl View for ClientboundUpdateHealth {
    type V = ClientboundUpdateHealth;

    open spec fn view(&self) -> ClientboundUpdateHealth {
        *self
    }
}

impl PacketId for ClientboundUpdateHealth {
    open spec fn spec_packet_id(ver: u32) -> u8 {
        0x49
    }

    fn packet_id(_ver: u32) -> (r: u8) {
        0x49
    }
}

impl WireFormat for ClientboundUpdateHealth {
    open spec fn spec_encode(p: ClientboundUpdateHealth) -> Seq<u8> {
        be_u32_bytes(p.health) + VarInt::spec_encode(p.food) + be_u32_bytes(p.food_saturation)
    }

    open spec fn spec_decode(s: Seq<u8>) -> Parsed<ClientboundUpdateHealth> {
        then(need_spec(s, 4), |_u: (), s: Seq<u8>| then(take_u32(s), |health: u32, s: Seq<u8>| then(VarInt::spec_decode(s), |food: VarInt, s: Seq<u8>| then(take_u32(s), |food_saturation: u32, s: Seq<u8>| (Ok(ClientboundUpdateHealth { health, food, food_saturation }), s)))))
    }
}

impl Roundtrip for ClientboundUpdateHealth {
    open spec fn encodable(p: ClientboundUpdateHealth) -> bool {
        true
    }

    open spec fn reads_to_end() -> bool {
        false
    }

    proof fn lemma_roundtrip(p: ClientboundUpdateHealth, rest: Seq<u8>) {
        broadcast use group_wire_roundtrip;

        let t2 = be_u32_bytes(p.food_saturation) + rest;
        let t1 = VarInt::spec_encode(p.food) + t2;
        lemma_concat_associative(be_u32_bytes(p.health) + VarInt::spec_encode(p.food), be_u32_bytes(p.food_saturation), rest);
        lemma_concat_associative(be_u32_bytes(p.health), VarInt::spec_encode(p.food), t2);
        VarInt::lemma_roundtrip(p.food, t2);
    }
}

impl Encode for ClientboundUpdateHealth {
    fn encode(&self, dst: &mut BytesMut) -> (r: Result<(), ProtocolError>) {
        let ghost d0 = bytes_mut_data(*dst);
        put_u32(dst, self.health);
        let ghost mut e: Seq<u8> = be_u32_bytes(self@.health);
        let _ = self.food.encode(dst);
        proof {
            lemma_concat_associative(d0, e, VarInt::spec_encode(self@.food));
            e = e + VarInt::spec_encode(self@.food);
        }
        put_u32(dst, self.food_saturation);
        proof {
            lemma_concat_associative(d0, e, be_u32_bytes(self@.food_saturation));
            e = e + be_u32_bytes(self@.food_saturation);
        }
        Ok(())
    }
}

impl Decode for ClientboundUpdateHealth {
    fn decode(src: &mut Bytes) -> (r: Result<Self, ProtocolError>) {
        need(src, 4)?;
        let health = get_u32(src);
        let food = VarInt::decode(src)?;
        let food_saturation = get_u32(src);
        Ok(Self { health, food, food_saturation })
    }
}

// ── ClientboundScoreboardObjective ────────────────────────────────────

#[derive(Debug, Clone, PartialEq)]
pub struct ClientboundScoreboardObjective {
    pub raw: Vec<u8>,
}

pub struct ClientboundScoreboardObjectiveView {
    pub raw: Seq<u8>,
}

impl View for ClientboundScoreboardObjective {
    type V = ClientboundScoreboardObjectiveView;

    open spec fn view(&self) -> ClientboundScoreboardObjectiveView {
        ClientboundScoreboardObjectiveView {
            raw: self.raw@,
        }
    }
}

impl PacketId for ClientboundScoreboardObjective {
    open spec fn spec_packet_id(ver: u32) -> u8 {
        0x4A
    }

    fn packet_id(_ver: u32) -> (r: u8) {
        0x4A
    }
}

impl WireFormat for ClientboundScoreboardObjective {
    open spec fn spec_encode(p: ClientboundScoreboardObjectiveView) -> Seq<u8> {
        p.raw
    }

    open spec fn spec_decode(s: Seq<u8>) -> Parsed<ClientboundScoreboardObjectiveView> {
        then(take_rest(s), |raw: Seq<u8>, s: Seq<u8>| (Ok(ClientboundScoreboardObjectiveView { raw }), s))
    }
}

impl Roundtrip for ClientboundScoreboardObjective {
    open spec fn encodable(p: ClientboundScoreboardObjectiveView) -> bool {
        true
    }

    open spec fn reads_to_end() -> bool {
        true
    }

    proof fn lemma_roundtrip(p: ClientboundScoreboardObjectiveView, rest: Seq<u8>) {
        broadcast use group_wire_roundtrip;

        assert(p.raw + rest =~= p.raw);
    }
}

impl Encode for ClientboundScoreboardObjective {
    fn encode(&self, dst: &mut BytesMut) -> (r: Result<(), ProtocolError>) {
        let ghost d0 = bytes_mut_data(*dst);
        put_slice(dst, self.raw.as_slice());
        let ghost mut e: Seq<u8> = self@.raw;
        Ok(())
    }
}

impl Decode for ClientboundScoreboardObjective {
    fn decode(src: &mut Bytes) -> (r: Result<Self, ProtocolError>) {
        let raw = take_remaining(src);
        Ok(Self { raw })
    }
}

// ── ClientboundSetPassengers ──────────────────────────────────────────

#[derive(Debug, Clone, PartialEq)]
pub struct ClientboundSetPassengers {
    pub raw: Vec<u8>,
}

pub struct ClientboundSetPassengersView {
    pub raw: Seq<u8>,
}

impl View for ClientboundSetPassengers {
    type V = ClientboundSetPassengersView;

    open spec fn view(&self) -> ClientboundSetPassengersView {
        ClientboundSetPassengersView {
            raw: self.raw@,
        }
    }
}

impl PacketId for ClientboundSetPassengers {
    open spec fn spec_packet_id(ver: u32) -> u8 {
        0x4B
    }

    fn packet_id(_ver: u32) -> (r: u8) {
        0x4B
    }
}

impl WireFormat for ClientboundSetPassengers {
    open spec fn spec_encode(p: ClientboundSetPassengersView) -> Seq<u8> {
        p.raw
    }

    open spec fn spec_decode(s: Seq<u8>) -> Parsed<ClientboundSetPassengersView> {
        then(take_rest(s), |raw: Seq<u8>, s: Seq<u8>| (Ok(ClientboundSetPassengersView { raw }), s))
    }
}

impl Roundtrip for ClientboundSetPassengers {
    open spec fn encodable(p: ClientboundSetPassengersView) -> bool {
        true
    }

    open spec fn reads_to_end() -> bool {
        true
    }

    proof fn lemma_roundtrip(p: ClientboundSetPassengersView, rest: Seq<u8>) {
        broadcast use group_wire_roundtrip;

        assert(p.raw + rest =~= p.raw);
    }
}

impl Encode for ClientboundSetPassengers {
    fn encode(&self, dst: &mut BytesMut) -> (r: Result<(), ProtocolError>) {
        let ghost d0 = bytes_mut_data(*dst);
        put_slice(dst, self.raw.as_slice());
        let ghost mut e: Seq<u8> = self@.raw;
        Ok(())
    }
}

impl Decode for ClientboundSetPassengers {
    fn decode(src: &mut Bytes) -> (r: Result<Self, ProtocolError>) {
        let raw = take_remaining(src);
        Ok(Self { raw })
    }
}

// ── ClientboundTeams ──────────────────────────────────────────────────

#[derive(Debug, Clone, PartialEq)]
pub struct ClientboundTeams {
    pub raw: Vec<u8>,
}

pub struct ClientboundTeamsView {
    pub raw: Seq<u8>,
}

impl View for ClientboundTeams {
    type V = ClientboundTeamsView;

    open spec fn view(&self) -> ClientboundTeamsView {
        ClientboundTeamsView {
            raw: self.raw@,
        }
    }
}

impl PacketId for ClientboundTeams {
    open spec fn spec_packet_id(ver: u32) -> u8 {
        0x4C
    }

    fn packet_id(_ver: u32) -> (r: u8) {
        0x4C
    }
}

impl WireFormat for ClientboundTeams {
    open spec fn spec_encode(p: ClientboundTeamsView) -> Seq<u8> {
        p.raw
    }

    open spec fn spec_decode(s: Seq<u8>) -> Parsed<ClientboundTeamsView> {
        then(take_rest(s), |raw: Seq<u8>, s: Seq<u8>| (Ok(ClientboundTeamsView { raw }), s))
    }
}

impl Roundtrip for ClientboundTeams {
    open spec fn encodable(p: ClientboundTeamsView) -> bool {
        true
    }

    open spec fn reads_to_end() -> bool {
        true
    }

    proof fn lemma_roundtrip(p: ClientboundTeamsView, rest: Seq<u8>) {
        broadcast use group_wire_roundtrip;

        assert(p.raw + rest =~= p.raw);
    }
}

impl Encode for ClientboundTeams {
    fn encode(&self, dst: &mut BytesMut) -> (r: Result<(), ProtocolError>) {
        let ghost d0 = bytes_mut_data(*dst);
        put_slice(dst, self.raw.as_slice());
        let ghost mut e: Seq<u8> = self@.raw;
        Ok(())
    }
}

impl Decode for ClientboundTeams {
    fn decode(src: &mut Bytes) -> (r: Result<Self, ProtocolError>) {
        let raw = take_remaining(src);
        Ok(Self { raw })
    }
}

// ── ClientboundUpdateScore ────────────────────────────────────────────

#[derive(Debug, Clone, PartialEq)]
pub struct ClientboundUpdateScore {
    pub raw: Vec<u8>,
}

pub struct ClientboundUpdateScoreView {
    pub raw: Seq<u8>,
}

impl View for ClientboundUpdateScore {
    type V = ClientboundUpdateScoreView;

    open spec fn view(&self) -> ClientboundUpdateScoreView {
        ClientboundUpdateScoreView {
            raw: self.raw@,
        }
    }
}

impl PacketId for ClientboundUpdateScore {
    open spec fn spec_packet_id(ver: u32) -> u8 {
        0x4D
    }

    fn packet_id(_ver: u32) -> (r: u8) {
        0x4D
    }
}

impl WireFormat for ClientboundUpdateScore {
    open spec fn spec_encode(p: ClientboundUpdateScoreView) -> Seq<u8> {
        p.raw
    }

    open spec fn spec_decode(s: Seq<u8>) -> Parsed<ClientboundUpdateScoreView> {
        then(take_rest(s), |raw: Seq<u8>, s: Seq<u8>| (Ok(ClientboundUpdateScoreView { raw }), s))
    }
}

impl Roundtrip for ClientboundUpdateScore {
    open spec fn encodable(p: ClientboundUpdateScoreView) -> bool {
        true
    }

    open spec fn reads_to_end() -> bool {
        true
    }

    proof fn lemma_roundtrip(p: ClientboundUpdateScoreView, rest: Seq<u8>) {
        broadcast use group_wire_roundtrip;

        assert(p.raw + rest =~= p.raw);
    }
}

impl Encode for ClientboundUpdateScore {
    fn encode(&self, dst: &mut BytesMut) -> (r: Result<(), ProtocolError>) {
        let ghost d0 = bytes_mut_data(*dst);
        put_slice(dst, self.raw.as_slice());
        let ghost mut e: Seq<u8> = self@.raw;
        Ok(())
    }
}

impl Decode for ClientboundUpdateScore {
    fn decode(src: &mut Bytes) -> (r: Result<Self, ProtocolError>) {
        let raw = take_remaining(src);
        Ok(Self { raw })
    }
}

// ── ClientboundTimeUpdate ─────────────────────────────────────────────

#[derive(Debug, Clone, PartialEq)]
pub struct ClientboundTimeUpdate {
    pub world_age: i64,
    pub time_of_day: i64,
}

impl View for ClientboundTimeUpdate {
    type V = ClientboundTimeUpdate;

    open spec fn view(&self) -> ClientboundTimeUpdate {
        *self
    }
}

impl PacketId for ClientboundTimeUpdate {
    open spec fn spec_packet_id(ver: u32) -> u8 {
        0x4E
    }

    fn packet_id(_ver: u32) -> (r: u8) {
        0x4E
    }
}

impl WireFormat for ClientboundTimeUpdate {
    open spec fn spec_encode(p: ClientboundTimeUpdate) -> Seq<u8> {
        be_i64_bytes(p.world_age) + be_i64_bytes(p.time_of_day)
    }

    open spec fn spec_decode(s: Seq<u8>) -> Parsed<ClientboundTimeUpdate> {
        then(need_spec(s, 16), |_u: (), s: Seq<u8>| then(take_i64(s), |world_age: i64, s: Seq<u8>| then(take_i64(s), |time_of_day: i64, s: Seq<u8>| (Ok(ClientboundTimeUpdate { world_age, time_of_day }), s))))
    }
}

impl Roundtrip for ClientboundTimeUpdate {
    open spec fn encodable(p: ClientboundTimeUpdate) -> bool {
        true
    }

    open spec fn reads_to_end() -> bool {
        false
    }

    proof fn lemma_roundtrip(p: ClientboundTimeUpdate, rest: Seq<u8>) {
        broadcast use group_wire_roundtrip;

        let t1 = be_i64_bytes(p.time_of_day) + rest;
        lemma_concat_associative(be_i64_bytes(p.world_age), be_i64_bytes(p.time_of_day), rest);
    }
}

impl Encode for ClientboundTimeUpdate {
    fn encode(&self, dst: &mut BytesMut) -> (r: Result<(), ProtocolError>) {
        let ghost d0 = bytes_mut_data(*dst);
        put_i64(dst, self.world_age);
        let ghost mut e: Seq<u8> = be_i64_bytes(self@.world_age);
        put_i64(dst, self.time_of_day);
        proof {
            lemma_concat_associative(d0, e, be_i64_bytes(self@.time_of_day));
            e = e + be_i64_bytes(self@.time_of_day);
        }
        Ok(())
    }
}

impl Decode for ClientboundTimeUpdate {
    fn decode(src: &mut Bytes) -> (r: Result<Self, ProtocolError>) {
        need(src, 16)?;
        let world_age = get_i64(src);
        let time_of_day = get_i64(src);
        Ok(Self { world_age, time_of_day })
    }
}

// ── ClientboundEntitySoundEffect ──────────────────────────────────────

#[derive(Debug, Clone, PartialEq)]
pub struct ClientboundEntitySoundEffect {
    pub raw: Vec<u8>,
}

pub struct ClientboundEntitySoundEffectView {
    pub raw: Seq<u8>,
}

impl View for ClientboundEntitySoundEffect {
    type V = ClientboundEntitySoundEffectView;

    open spec fn view(&self) -> ClientboundEntitySoundEffectView {
        ClientboundEntitySoundEffectView {
            raw: self.raw@,
        }
    }
}

impl PacketId for ClientboundEntitySoundEffect {
    open spec fn spec_packet_id(ver: u32) -> u8 {
        0x50
    }

    fn packet_id(_ver: u32) -> (r: u8) {
        0x50
    }
}

impl WireFormat for ClientboundEntitySoundEffect {
    open spec fn spec_encode(p: ClientboundEntitySoundEffectView) -> Seq<u8> {
        p.raw
    }

    open spec fn spec_decode(s: Seq<u8>) -> Parsed<ClientboundEntitySoundEffectView> {
        then(take_rest(s), |raw: Seq<u8>, s: Seq<u8>| (Ok(ClientboundEntitySoundEffectView { raw }), s))
    }
}

impl Roundtrip for ClientboundEntitySoundEffect {
    open spec fn encodable(p: ClientboundEntitySoundEffectView) -> bool {
        true
    }

    open spec fn reads_to_end() -> bool {
        true
    }

    proof fn lemma_roundtrip(p: ClientboundEntitySoundEffectView, rest: Seq<u8>) {
        broadcast use group_wire_roundtrip;

        assert(p.raw + rest =~= p.raw);
    }
}

impl Encode for ClientboundEntitySoundEffect {
    fn encode(&self, dst: &mut BytesMut) -> (r: Result<(), ProtocolError>) {
        let ghost d0 = bytes_mut_data(*dst);
        put_slice(dst, self.raw.as_slice());
        let ghost mut e: Seq<u8> = self@.raw;
        Ok(())
    }
}

impl Decode for ClientboundEntitySoundEffect {
    fn decode(src: &mut Bytes) -> (r: Result<Self, ProtocolError>) {
        let raw = take_remaining(src);
        Ok(Self { raw })
    }
}

// ── ClientboundStopSound ──────────────────────────────────────────────

#[derive(Debug, Clone, PartialEq)]
pub struct ClientboundStopSound {
    pub raw: Vec<u8>,
}

pub struct ClientboundStopSoundView {
    pub raw: Seq<u8>,
}

impl View for ClientboundStopSound {
    type V = ClientboundStopSoundView;

    open spec fn view(&self) -> ClientboundStopSoundView {
        ClientboundStopSoundView {
            raw: self.raw@,
        }
    }
}

impl PacketId for ClientboundStopSound {
    open spec fn spec_packet_id(ver: u32) -> u8 {
        0x52
    }

    fn packet_id(_ver: u32) -> (r: u8) {
        0x52
    }
}

impl WireFormat for ClientboundStopSound {
    open spec fn spec_encode(p: ClientboundStopSoundView) -> Seq<u8> {
        p.raw
    }

    open spec fn spec_decode(s: Seq<u8>) -> Parsed<ClientboundStopSoundView> {
        then(take_rest(s), |raw: Seq<u8>, s: Seq<u8>| (Ok(ClientboundStopSoundView { raw }), s))
    }
}

impl Roundtrip for ClientboundStopSound {
    open spec fn encodable(p: ClientboundStopSoundView) -> bool {
        true
    }

    open spec fn reads_to_end() -> bool {
        true
    }

    proof fn lemma_roundtrip(p: ClientboundStopSoundView, rest: Seq<u8>) {
        broadcast use group_wire_roundtrip;

        assert(p.raw + rest =~= p.raw);
    }
}

impl Encode for ClientboundStopSound {
    fn encode(&self, dst: &mut BytesMut) -> (r: Result<(), ProtocolError>) {
        let ghost d0 = bytes_mut_data(*dst);
        put_slice(dst, self.raw.as_slice());
        let ghost mut e: Seq<u8> = self@.raw;
        Ok(())
    }
}

impl Decode for ClientboundStopSound {
    fn decode(src: &mut Bytes) -> (r: Result<Self, ProtocolError>) {
        let raw = take_remaining(src);
        Ok(Self { raw })
    }
}

// ── ClientboundSoundEffect ────────────────────────────────────────────

#[derive(Debug, Clone, PartialEq)]
pub struct ClientboundSoundEffect {
    pub raw: Vec<u8>,
}

pub struct ClientboundSoundEffectView {
    pub raw: Seq<u8>,
}

impl View for ClientboundSoundEffect {
    type V = ClientboundSoundEffectView;

    open spec fn view(&self) -> ClientboundSoundEffectView {
        ClientboundSoundEffectView {
            raw: self.raw@,
        }
    }
}

impl PacketId for ClientboundSoundEffect {
    open spec fn spec_packet_id(ver: u32) -> u8 {
        0x4D
    }

    fn packet_id(_ver: u32) -> (r: u8) {
        0x4D
    }
}

impl WireFormat for ClientboundSoundEffect {
    open spec fn spec_encode(p: ClientboundSoundEffectView) -> Seq<u8> {
        p.raw
    }

    open spec fn spec_decode(s: Seq<u8>) -> Parsed<ClientboundSoundEffectView> {
        then(take_rest(s), |raw: Seq<u8>, s: Seq<u8>| (Ok(ClientboundSoundEffectView { raw }), s))
    }
}

impl Roundtrip for ClientboundSoundEffect {
    open spec fn encodable(p: ClientboundSoundEffectView) -> bool {
        true
    }

    open spec fn reads_to_end() -> bool {
        true
    }

    proof fn lemma_roundtrip(p: ClientboundSoundEffectView, rest: Seq<u8>) {
        broadcast use group_wire_roundtrip;

        assert(p.raw + rest =~= p.raw);
    }
}

impl Encode for ClientboundSoundEffect {
    fn encode(&self, dst: &mut BytesMut) -> (r: Result<(), ProtocolError>) {
        let ghost d0 = bytes_mut_data(*dst);
        put_slice(dst, self.raw.as_slice());
        let ghost mut e: Seq<u8> = self@.raw;
        Ok(())
    }
}

impl Decode for ClientboundSoundEffect {
    fn decode(src: &mut Bytes) -> (r: Result<Self, ProtocolError>) {
        let raw = take_remaining(src);
        Ok(Self { raw })
    }
}

// ── ClientboundPlayerListHeaderAndFooter ──────────────────────────────

#[derive(Debug, Clone, PartialEq)]
pub struct ClientboundPlayerListHeaderAndFooter {
    pub header: String,
    pub footer: String,
}

pub struct ClientboundPlayerListHeaderAndFooterView {
    pub header: Seq<char>,
    pub footer: Seq<char>,
}

impl View for ClientboundPlayerListHeaderAndFooter {
    type V = ClientboundPlayerListHeaderAndFooterView;

    open spec fn view(&self) -> ClientboundPlayerListHeaderAndFooterView {
        ClientboundPlayerListHeaderAndFooterView {
            header: self.header@,
            footer: self.footer@,
        }
    }
}

impl PacketId for ClientboundPlayerListHeaderAndFooter {
    open spec fn spec_packet_id(ver: u32) -> u8 {
        0x53
    }

    fn packet_id(_ver: u32) -> (r: u8) {
        0x53
    }
}

impl WireFormat for ClientboundPlayerListHeaderAndFooter {
    open spec fn spec_encode(p: ClientboundPlayerListHeaderAndFooterView) -> Seq<u8> {
        string_wire(p.header) + string_wire(p.footer)
    }

    open spec fn spec_decode(s: Seq<u8>) -> Parsed<ClientboundPlayerListHeaderAndFooterView> {
        then(string_spec(s), |header: Seq<char>, s: Seq<u8>| then(string_spec(s), |footer: Seq<char>, s: Seq<u8>| (Ok(ClientboundPlayerListHeaderAndFooterView { header, footer }), s)))
    }
}

impl Roundtrip for ClientboundPlayerListHeaderAndFooter {
    open spec fn encodable(p: ClientboundPlayerListHeaderAndFooterView) -> bool {
        string_fits(p.header) && string_fits(p.footer)
    }

    open spec fn reads_to_end() -> bool {
        false
    }

    proof fn lemma_roundtrip(p: ClientboundPlayerListHeaderAndFooterView, rest: Seq<u8>) {
        broadcast use group_wire_roundtrip;

        let t1 = string_wire(p.footer) + rest;
        lemma_concat_associative(string_wire(p.header), string_wire(p.footer), rest);
        lemma_string_field(p.header, t1);
        lemma_string_field(p.footer, rest);
    }
}

impl Encode for ClientboundPlayerListHeaderAndFooter {
    fn encode(&self, dst: &mut BytesMut) -> (r: Result<(), ProtocolError>) {
        let ghost d0 = bytes_mut_data(*dst);
        encode_string(self.header.as_str(), dst);
        let ghost mut e: Seq<u8> = string_wire(self@.header);
        encode_string(self.footer.as_str(), dst);
        proof {
            lemma_concat_associative(d0, e, string_wire(self@.footer));
            e = e + string_wire(self@.footer);
        }
        Ok(())
    }
}

impl Decode for ClientboundPlayerListHeaderAndFooter {
    fn decode(src: &mut Bytes) -> (r: Result<Self, ProtocolError>) {
        let header = decode_string(src)?;
        let footer = decode_string(src)?;
        Ok(Self { header, footer })
    }
}

// ── ClientboundNbtQueryResponse ───────────────────────────────────────

#[derive(Debug, Clone, PartialEq)]
pub struct ClientboundNbtQueryResponse {
    pub raw: Vec<u8>,
}

pub struct ClientboundNbtQueryResponseView {
    pub raw: Seq<u8>,
}

impl View for ClientboundNbtQueryResponse {
    type V = ClientboundNbtQueryResponseView;

    open spec fn view(&self) -> ClientboundNbtQueryResponseView {
        ClientboundNbtQueryResponseView {
            raw: self.raw@,
        }
    }
}

impl PacketId for ClientboundNbtQueryResponse {
    open spec fn spec_packet_id(ver: u32) -> u8 {
        0x54
    }

    fn packet_id(_ver: u32) -> (r: u8) {
        0x54
    }
}

impl WireFormat for ClientboundNbtQueryResponse {
    open spec fn spec_encode(p: ClientboundNbtQueryResponseView) -> Seq<u8> {
        p.raw
    }

    open spec fn spec_decode(s: Seq<u8>) -> Parsed<ClientboundNbtQueryResponseView> {
        then(take_rest(s), |raw: Seq<u8>, s: Seq<u8>| (Ok(ClientboundNbtQueryResponseView { raw }), s))
    }
}

impl Roundtrip for ClientboundNbtQueryResponse {
    open spec fn encodable(p: ClientboundNbtQueryResponseView) -> bool {
        true
    }

    open spec fn reads_to_end() -> bool {
        true
    }

    proof fn lemma_roundtrip(p: ClientboundNbtQueryResponseView, rest: Seq<u8>) {
        broadcast use group_wire_roundtrip;

        assert(p.raw + rest =~= p.raw);
    }
}

impl Encode for ClientboundNbtQueryResponse {
    fn encode(&self, dst: &mut BytesMut) -> (r: Result<(), ProtocolError>) {
        let ghost d0 = bytes_mut_data(*dst);
        put_slice(dst, self.raw.as_slice());
        let ghost mut e: Seq<u8> = self@.raw;
        Ok(())
    }
}

impl Decode for ClientboundNbtQueryResponse {
    fn decode(src: &mut Bytes) -> (r: Result<Self, ProtocolError>) {
        let raw = take_remaining(src);
        Ok(Self { raw })
    }
}

// ── ClientboundCollectItem ────────────────────────────────────────────

#[derive(Debug, Clone, PartialEq)]
pub struct ClientboundCollectItem {
    pub raw: Vec<u8>,
}

pub struct ClientboundCollectItemView {
    pub raw: Seq<u8>,
}

impl View for ClientboundCollectItem {
    type V = ClientboundCollectItemView;

    open spec fn view(&self) -> ClientboundCollectItemView {
        ClientboundCollectItemView {
            raw: self.raw@,
        }
    }
}

impl PacketId for ClientboundCollectItem {
    open spec fn spec_packet_id(ver: u32) -> u8 {
        0x55
    }

    fn packet_id(_ver: u32) -> (r: u8) {
        0x55
    }
}

impl WireFormat for ClientboundCollectItem {
    open spec fn spec_encode(p: ClientboundCollectItemView) -> Seq<u8> {
        p.raw
    }

    open spec fn spec_decode(s: Seq<u8>) -> Parsed<ClientboundCollectItemView> {
        then(take_rest(s), |raw: Seq<u8>, s: Seq<u8>| (Ok(ClientboundCollectItemView { raw }), s))
    }
}

impl Roundtrip for ClientboundCollectItem {
    open spec fn encodable(p: ClientboundCollectItemView) -> bool {
        true
    }

    open spec fn reads_to_end() -> bool {
        true
    }

    proof fn lemma_roundtrip(p: ClientboundCollectItemView, rest: Seq<u8>) {
        broadcast use group_wire_roundtrip;

        assert(p.raw + rest =~= p.raw);
    }
}

impl Encode for ClientboundCollectItem {
    fn encode(&self, dst: &mut BytesMut) -> (r: Result<(), ProtocolError>) {
        let ghost d0 = bytes_mut_data(*dst);
        put_slice(dst, self.raw.as_slice());
        let ghost mut e: Seq<u8> = self@.raw;
        Ok(())
    }
}

impl Decode for ClientboundCollectItem {
    fn decode(src: &mut Bytes) -> (r: Result<Self, ProtocolError>) {
        let raw = take_remaining(src);
        Ok(Self { raw })
    }
}

// ── ClientboundEntityTeleport ─────────────────────────────────────────

#[derive(Debug, Clone, PartialEq)]
pub struct ClientboundEntityTeleport {
    pub entity_id: VarInt,
    /// The bits of the `f64` value (`f64::to_bits`).
    pub x: u64,
    /// The bits of the `f64` value (`f64::to_bits`).
    pub y: u64,
    /// The bits of the `f64` value (`f64::to_bits`).
    pub z: u64,
    pub yaw: i8,
    pub pitch: i8,
    pub on_ground: bool,
}

impl View for ClientboundEntityTeleport {
    type V = ClientboundEntityTeleport;

    open spec fn view(&self) -> ClientboundEntityTeleport {
        *self
    }
}

impl PacketId for ClientboundEntityTeleport {
    open spec fn spec_packet_id(ver: u32) -> u8 {
        0x56
    }

    fn packet_id(_ver: u32) -> (r: u8) {
        0x56
    }
}

impl WireFormat for ClientboundEntityTeleport {
    open spec fn spec_encode(p: ClientboundEntityTeleport) -> Seq<u8> {
        VarInt::spec_encode(p.entity_id) + be_u64_bytes(p.x) + be_u64_bytes(p.y) + be_u64_bytes(p.z) + seq![p.yaw as u8] + seq![p.pitch as u8] + seq![bool_byte(p.on_ground)]
    }

    open spec fn spec_decode(s: Seq<u8>) -> Parsed<ClientboundEntityTeleport> {
        then(VarInt::spec_decode(s), |entity_id: VarInt, s: Seq<u8>| then(take_u64(s), |x: u64, s: Seq<u8>| then(take_u64(s), |y: u64, s: Seq<u8>| then(take_u64(s), |z: u64, s: Seq<u8>| then(take_i8(s), |yaw: i8, s: Seq<u8>| then(take_i8(s), |pitch: i8, s: Seq<u8>| then(take_bool(s), |on_ground: bool, s: Seq<u8>| (Ok(ClientboundEntityTeleport { entity_id, x, y, z, yaw, pitch, on_ground }), s))))))))
    }
}

impl Roundtrip for ClientboundEntityTeleport {
    open spec fn encodable(p: ClientboundEntityTeleport) -> bool {
        true
    }

    open spec fn reads_to_end() -> bool {
        false
    }

    #[verifier::rlimit(100)]
    #[verifier::spinoff_prover]
    proof fn lemma_roundtrip(p: ClientboundEntityTeleport, rest: Seq<u8>) {
        broadcast use group_wire_roundtrip;

        let t6 = seq![bool_byte(p.on_ground)] + rest;
        let t5 = seq![p.pitch as u8] + t6;
        let t4 = seq![p.yaw as u8] + t5;
        let t3 = be_u64_bytes(p.z) + t4;
        let t2 = be_u64_bytes(p.y) + t3;
        let t1 = be_u64_bytes(p.x) + t2;
        lemma_concat_associative(VarInt::spec_encode(p.entity_id) + be_u64_bytes(p.x) + be_u64_bytes(p.y) + be_u64_bytes(p.z) + seq![p.yaw as u8] + seq![p.pitch as u8], seq![bool_byte(p.on_ground)], rest);
        lemma_concat_associative(VarInt::spec_encode(p.entity_id) + be_u64_bytes(p.x) + be_u64_bytes(p.y) + be_u64_bytes(p.z) + seq![p.yaw as u8], seq![p.pitch as u8], t6);
        lemma_concat_associative(VarInt::spec_encode(p.entity_id) + be_u64_bytes(p.x) + be_u64_bytes(p.y) + be_u64_bytes(p.z), seq![p.yaw as u8], t5);
        lemma_concat_associative(VarInt::spec_encode(p.entity_id) + be_u64_bytes(p.x) + be_u64_bytes(p.y), be_u64_bytes(p.z), t4);
        lemma_concat_associative(VarInt::spec_encode(p.entity_id) + be_u64_bytes(p.x), be_u64_bytes(p.y), t3);
        lemma_concat_associative(VarInt::spec_encode(p.entity_id), be_u64_bytes(p.x), t2);
        VarInt::lemma_roundtrip(p.entity_id, t1);
    }
}

impl Encode for ClientboundEntityTeleport {
    fn encode(&self, dst: &mut BytesMut) -> (r: Result<(), ProtocolError>) {
        let ghost d0 = bytes_mut_data(*dst);
        let _ = self.entity_id.encode(dst);
        let ghost mut e: Seq<u8> = VarInt::spec_encode(self@.entity_id);
        put_u64(dst, self.x);
        proof {
            lemma_concat_associative(d0, e, be_u64_bytes(self@.x));
            e = e + be_u64_bytes(self@.x);
        }
        put_u64(dst, self.y);
        proof {
            lemma_concat_associative(d0, e, be_u64_bytes(self@.y));
            e = e + be_u64_bytes(self@.y);
        }
        put_u64(dst, self.z);
        proof {
            lemma_concat_associative(d0, e, be_u64_bytes(self@.z));
            e = e + be_u64_bytes(self@.z);
        }
        put_i8(dst, self.yaw);
        proof {
            lemma_concat_associative(d0, e, seq![self@.yaw as u8]);
            e = e + seq![self@.yaw as u8];
        }
        put_i8(dst, self.pitch);
        proof {
            lemma_concat_associative(d0, e, seq![self@.pitch as u8]);
            e = e + seq![self@.pitch as u8];
        }
        put_u8(dst, self.on_ground as u8);
        proof {
            lemma_concat_associative(d0, e, seq![bool_byte(self@.on_ground)]);
            e = e + seq![bool_byte(self@.on_ground)];
        }
        Ok(())
    }
}

impl Decode for ClientboundEntityTeleport {
    fn decode(src: &mut Bytes) -> (r: Result<Self, ProtocolError>) {
        let entity_id = VarInt::decode(src)?;
        let x = get_u64(src);
        let y = get_u64(src);
        let z = get_u64(src);
        let yaw = get_i8(src);
        let pitch = get_i8(src);
        let on_ground = get_u8(src) != 0;
        Ok(Self { entity_id, x, y, z, yaw, pitch, on_ground })
    }
}

// ── ClientboundAdvancements ───────────────────────────────────────────

#[derive(Debug, Clone, PartialEq)]
pub struct ClientboundAdvancements {
    pub raw: Vec<u8>,
}

pub struct ClientboundAdvancementsView {
    pub raw: Seq<u8>,
}

impl View for ClientboundAdvancements {
    type V = ClientboundAdvancementsView;

    open spec fn view(&self) -> ClientboundAdvancementsView {
        ClientboundAdvancementsView {
            raw: self.raw@,
        }
    }
}

impl PacketId for ClientboundAdvancements {
    open spec fn spec_packet_id(ver: u32) -> u8 {
        0x57
    }

    fn packet_id(_ver: u32) -> (r: u8) {
        0x57
    }
}

impl WireFormat for ClientboundAdvancements {
    open spec fn spec_encode(p: ClientboundAdvancementsView) -> Seq<u8> {
        p.raw
    }

    open spec fn spec_decode(s: Seq<u8>) -> Parsed<ClientboundAdvancementsView> {
        then(take_rest(s), |raw: Seq<u8>, s: Seq<u8>| (Ok(ClientboundAdvancementsView { raw }), s))
    }
}

impl Roundtrip for ClientboundAdvancements {
    open spec fn encodable(p: ClientboundAdvancementsView) -> bool {
        true
    }

    open spec fn reads_to_end() -> bool {
        true
    }

    proof fn lemma_roundtrip(p: ClientboundAdvancementsView, rest: Seq<u8>) {
        broadcast use group_wire_roundtrip;

        assert(p.raw + rest =~= p.raw);
    }
}

impl Encode for ClientboundAdvancements {
    fn encode(&self, dst: &mut BytesMut) -> (r: Result<(), ProtocolError>) {
        let ghost d0 = bytes_mut_data(*dst);
        put_slice(dst, self.raw.as_slice());
        let ghost mut e: Seq<u8> = self@.raw;
        Ok(())
    }
}

impl Decode for ClientboundAdvancements {
    fn decode(src: &mut Bytes) -> (r: Result<Self, ProtocolError>) {
        let raw = take_remaining(src);
        Ok(Self { raw })
    }
}

// ── ClientboundEntityProperties ───────────────────────────────────────

#[derive(Debug, Clone, PartialEq)]
pub struct ClientboundEntityProperties {
    pub raw: Vec<u8>,
}

pub struct ClientboundEntityPropertiesView {
    pub raw: Seq<u8>,
}

impl View for ClientboundEntityProperties {
    type V = ClientboundEntityPropertiesView;

    open spec fn view(&self) -> ClientboundEntityPropertiesView {
        ClientboundEntityPropertiesView {
            raw: self.raw@,
        }
    }
}

impl PacketId for ClientboundEntityProperties {
    open spec fn spec_packet_id(ver: u32) -> u8 {
        0x58
    }

    fn packet_id(_ver: u32) -> (r: u8) {
        0x58
    }
}

impl WireFormat for ClientboundEntityProperties {
    open spec fn spec_encode(p: ClientboundEntityPropertiesView) -> Seq<u8> {
        p.raw
    }

    open spec fn spec_decode(s: Seq<u8>) -> Parsed<ClientboundEntityPropertiesView> {
        then(take_rest(s), |raw: Seq<u8>, s: Seq<u8>| (Ok(ClientboundEntityPropertiesView { raw }), s))
    }
}

impl Roundtrip for ClientboundEntityProperties {
    open spec fn encodable(p: ClientboundEntityPropertiesView) -> bool {
        true
    }

    open spec fn reads_to_end() -> bool {
        true
    }

    proof fn lemma_roundtrip(p: ClientboundEntityPropertiesView, rest: Seq<u8>) {
        broadcast use group_wire_roundtrip;

        assert(p.raw + rest =~= p.raw);
    }
}

impl Encode for ClientboundEntityProperties {
    fn encode(&self, dst: &mut BytesMut) -> (r: Result<(), ProtocolError>) {
        let ghost d0 = bytes_mut_data(*dst);
        put_slice(dst, self.raw.as_slice());
        let ghost mut e: Seq<u8> = self@.raw;
        Ok(())
    }
}

impl Decode for ClientboundEntityProperties {
    fn decode(src: &mut Bytes) -> (r: Result<Self, ProtocolError>) {
        let raw = take_remaining(src);
        Ok(Self { raw })
    }
}

// ── ClientboundEntityEffect ───────────────────────────────────────────

#[derive(Debug, Clone, PartialEq)]
pub struct ClientboundEntityEffect {
    pub raw: Vec<u8>,
}

pub struct ClientboundEntityEffectView {
    pub raw: Seq<u8>,
}

impl View for ClientboundEntityEffect {
    type V = ClientboundEntityEffectView;

    open spec fn view(&self) -> ClientboundEntityEffectView {
        ClientboundEntityEffectView {
            raw: self.raw@,
        }
    }
}

impl PacketId for ClientboundEntityEffect {
    open spec fn spec_packet_id(ver: u32) -> u8 {
        0x59
    }

    fn packet_id(_ver: u32) -> (r: u8) {
        0x59
    }
}

impl WireFormat for ClientboundEntityEffect {
    open spec fn spec_encode(p: ClientboundEntityEffectView) -> Seq<u8> {
        p.raw
    }

    open spec fn spec_decode(s: Seq<u8>) -> Parsed<ClientboundEntityEffectView> {
        then(take_rest(s), |raw: Seq<u8>, s: Seq<u8>| (Ok(ClientboundEntityEffectView { raw }), s))
    }
}

impl Roundtrip for ClientboundEntityEffect {
    open spec fn encodable(p: ClientboundEntityEffectView) -> bool {
        true
    }

    open spec fn reads_to_end() -> bool {
        true
    }

    proof fn lemma_roundtrip(p: ClientboundEntityEffectView, rest: Seq<u8>) {
        broadcast use group_wire_roundtrip;

        assert(p.raw + rest =~= p.raw);
    }
}

impl Encode for ClientboundEntityEffect {
    fn encode(&self, dst: &mut BytesMut) -> (r: Result<(), ProtocolError>) {
        let ghost d0 = bytes_mut_data(*dst);
        put_slice(dst, self.raw.as_slice());
        let ghost mut e: Seq<u8> = self@.raw;
        Ok(())
    }
}

impl Decode for ClientboundEntityEffect {
    fn decode(src: &mut Bytes) -> (r: Result<Self, ProtocolError>) {
        let raw = take_remaining(src);
        Ok(Self { raw })
    }
}

// ── ClientboundDeclareRecipes ─────────────────────────────────────────

#[derive(Debug, Clone, PartialEq)]
pub struct ClientboundDeclareRecipes {
    pub raw: Vec<u8>,
}

pub struct ClientboundDeclareRecipesView {
    pub raw: Seq<u8>,
}

impl View for ClientboundDeclareRecipes {
    type V = ClientboundDeclareRecipesView;

    open spec fn view(&self) -> ClientboundDeclareRecipesView {
        ClientboundDeclareRecipesView {
            raw: self.raw@,
        }
    }
}

impl PacketId for ClientboundDeclareRecipes {
    open spec fn spec_packet_id(ver: u32) -> u8 {
        0x5A
    }

    fn packet_id(_ver: u32) -> (r: u8) {
        0x5A
    }
}

impl WireFormat for ClientboundDeclareRecipes {
    open spec fn spec_encode(p: ClientboundDeclareRecipesView) -> Seq<u8> {
        p.raw
    }

    open spec fn spec_decode(s: Seq<u8>) -> Parsed<ClientboundDeclareRecipesView> {
        then(take_rest(s), |raw: Seq<u8>, s: Seq<u8>| (Ok(ClientboundDeclareRecipesView { raw }), s))
    }
}

impl Roundtrip for ClientboundDeclareRecipes {
    open spec fn encodable(p: ClientboundDeclareRecipesView) -> bool {
        true
    }

    open spec fn reads_to_end() -> bool {
        true
    }

    proof fn lemma_roundtrip(p: ClientboundDeclareRecipesView, rest: Seq<u8>) {
        broadcast use group_wire_roundtrip;

        assert(p.raw + rest =~= p.raw);
    }
}

impl Encode for ClientboundDeclareRecipes {
    fn encode(&self, dst: &mut BytesMut) -> (r: Result<(), ProtocolError>) {
        let ghost d0 = bytes_mut_data(*dst);
        put_slice(dst, self.raw.as_slice());
        let ghost mut e: Seq<u8> = self@.raw;
        Ok(())
    }
}

impl Decode for ClientboundDeclareRecipes {
    fn decode(src: &mut Bytes) -> (r: Result<Self, ProtocolError>) {
        let raw = take_remaining(src);
        Ok(Self { raw })
    }
}

// ── ClientboundTags ───────────────────────────────────────────────────

#[derive(Debug, Clone, PartialEq)]
pub struct ClientboundTags {
    pub raw: Vec<u8>,
}

pub struct ClientboundTagsView {
    pub raw: Seq<u8>,
}

impl View for ClientboundTags {
    type V = ClientboundTagsView;

    open spec fn view(&self) -> ClientboundTagsView {
        ClientboundTagsView {
            raw: self.raw@,
        }
    }
}

impl PacketId for ClientboundTags {
    open spec fn spec_packet_id(ver: u32) -> u8 {
        0x5B
    }

    fn packet_id(_ver: u32) -> (r: u8) {
        0x5B
    }
}

impl WireFormat for ClientboundTags {
    open spec fn spec_encode(p: ClientboundTagsView) -> Seq<u8> {
        p.raw
    }

    open spec fn spec_decode(s: Seq<u8>) -> Parsed<ClientboundTagsView> {
        then(take_rest(s), |raw: Seq<u8>, s: Seq<u8>| (Ok(ClientboundTagsView { raw }), s))
    }
}

impl Roundtrip for ClientboundTags {
    open spec fn encodable(p: ClientboundTagsView) -> bool {
        true
    }

    open spec fn reads_to_end() -> bool {
        true
    }

    proof fn lemma_roundtrip(p: ClientboundTagsView, rest: Seq<u8>) {
        broadcast use group_wire_roundtrip;

        assert(p.raw + rest =~= p.raw);
    }
}

impl Encode for ClientboundTags {
    fn encode(&self, dst: &mut BytesMut) -> (r: Result<(), ProtocolError>) {
        let ghost d0 = bytes_mut_data(*dst);
        put_slice(dst, self.raw.as_slice());
        let ghost mut e: Seq<u8> = self@.raw;
        Ok(())
    }
}

impl Decode for ClientboundTags {
    fn decode(src: &mut Bytes) -> (r: Result<Self, ProtocolError>) {
        let raw = take_remaining(src);
        Ok(Self { raw })
    }
}

// ── ServerboundTeleportConfirm ────────────────────────────────────────

#[derive(Debug, Clone, PartialEq)]
pub struct ServerboundTeleportConfirm {
    pub teleport_id: VarInt,
}

impl View for ServerboundTeleportConfirm {
    type V = ServerboundTeleportConfirm;

    open spec fn view(&self) -> ServerboundTeleportConfirm {
        *self
    }
}

impl PacketId for ServerboundTeleportConfirm {
    open spec fn spec_packet_id(ver: u32) -> u8 {
        0x00
    }

    fn packet_id(_ver: u32) -> (r: u8) {
        0x00
    }
}

impl WireFormat for ServerboundTeleportConfirm {
    open spec fn spec_encode(p: ServerboundTeleportConfirm) -> Seq<u8> {
        VarInt::spec_encode(p.teleport_id)
    }

    open spec fn spec_decode(s: Seq<u8>) -> Parsed<ServerboundTeleportConfirm> {
        then(VarInt::spec_decode(s), |teleport_id: VarInt, s: Seq<u8>| (Ok(ServerboundTeleportConfirm { teleport_id }), s))
    }
}

impl Roundtrip for ServerboundTeleportConfirm {
    open spec fn encodable(p: ServerboundTeleportConfirm) -> bool {
        true
    }

    open spec fn reads_to_end() -> bool {
        false
    }

    proof fn lemma_roundtrip(p: ServerboundTeleportConfirm, rest: Seq<u8>) {
        broadcast use group_wire_roundtrip;

        VarInt::lemma_roundtrip(p.teleport_id, rest);
    }
}

impl Encode for ServerboundTeleportConfirm {
    fn encode(&self, dst: &mut BytesMut) -> (r: Result<(), ProtocolError>) {
        let ghost d0 = bytes_mut_data(*dst);
        let _ = self.teleport_id.encode(dst);
        let ghost mut e: Seq<u8> = VarInt::spec_encode(self@.teleport_id);
        Ok(())
    }
}

impl Decode for ServerboundTeleportConfirm {
    fn decode(src: &mut Bytes) -> (r: Result<Self, ProtocolError>) {
        let teleport_id = VarInt::decode(src)?;
        Ok(Self { teleport_id })
    }
}

// ── ServerboundQueryBlockNbt ──────────────────────────────────────────

#[derive(Debug, Clone, PartialEq)]
pub struct ServerboundQueryBlockNbt {
    pub raw: Vec<u8>,
}

pub struct ServerboundQueryBlockNbtView {
    pub raw: Seq<u8>,
}

impl View for ServerboundQueryBlockNbt {
    type V = ServerboundQueryBlockNbtView;

    open spec fn view(&self) -> ServerboundQueryBlockNbtView {
        ServerboundQueryBlockNbtView {
            raw: self.raw@,
        }
    }
}

impl PacketId for ServerboundQueryBlockNbt {
    open spec fn spec_packet_id(ver: u32) -> u8 {
        0x01
    }

    fn packet_id(_ver: u32) -> (r: u8) {
        0x01
    }
}

impl WireFormat for ServerboundQueryBlockNbt {
    open spec fn spec_encode(p: ServerboundQueryBlockNbtView) -> Seq<u8> {
        p.raw
    }

    open spec fn spec_decode(s: Seq<u8>) -> Parsed<ServerboundQueryBlockNbtView> {
        then(take_rest(s), |raw: Seq<u8>, s: Seq<u8>| (Ok(ServerboundQueryBlockNbtView { raw }), s))
    }
}

impl Roundtrip for ServerboundQueryBlockNbt {
    open spec fn encodable(p: ServerboundQueryBlockNbtView) -> bool {
        true
    }

    open spec fn reads_to_end() -> bool {
        true
    }

    proof fn lemma_roundtrip(p: ServerboundQueryBlockNbtView, rest: Seq<u8>) {
        broadcast use group_wire_roundtrip;

        assert(p.raw + rest =~= p.raw);
    }
}

impl Encode for ServerboundQueryBlockNbt {
    fn encode(&self, dst: &mut BytesMut) -> (r: Result<(), ProtocolError>) {
        let ghost d0 = bytes_mut_data(*dst);
        put_slice(dst, self.raw.as_slice());
        let ghost mut e: Seq<u8> = self@.raw;
        Ok(())
    }
}

impl Decode for ServerboundQueryBlockNbt {
    fn decode(src: &mut Bytes) -> (r: Result<Self, ProtocolError>) {
        let raw = take_remaining(src);
        Ok(Self { raw })
    }
}

// ── ServerboundSetDifficulty ──────────────────────────────────────────

#[derive(Debug, Clone, PartialEq)]
pub struct ServerboundSetDifficulty {
    pub raw: Vec<u8>,
}

pub struct ServerboundSetDifficultyView {
    pub raw: Seq<u8>,
}

impl View for ServerboundSetDifficulty {
    type V = ServerboundSetDifficultyView;

    open spec fn view(&self) -> ServerboundSetDifficultyView {
        ServerboundSetDifficultyView {
            raw: self.raw@,
        }
    }
}

impl PacketId for ServerboundSetDifficulty {
    open spec fn spec_packet_id(ver: u32) -> u8 {
        0x02
    }

    fn packet_id(_ver: u32) -> (r: u8) {
        0x02
    }
}

impl WireFormat for ServerboundSetDifficulty {
    open spec fn spec_encode(p: ServerboundSetDifficultyView) -> Seq<u8> {
        p.raw
    }

    open spec fn spec_decode(s: Seq<u8>) -> Parsed<ServerboundSetDifficultyView> {
        then(take_rest(s), |raw: Seq<u8>, s: Seq<u8>| (Ok(ServerboundSetDifficultyView { raw }), s))
    }
}

impl Roundtrip for ServerboundSetDifficulty {
    open spec fn encodable(p: ServerboundSetDifficultyView) -> bool {
        true
    }

    open spec fn reads_to_end() -> bool {
        true
    }

    proof fn lemma_roundtrip(p: ServerboundSetDifficultyView, rest: Seq<u8>) {
        broadcast use group_wire_roundtrip;

        assert(p.raw + rest =~= p.raw);
    }
}

impl Encode for ServerboundSetDifficulty {
    fn encode(&self, dst: &mut BytesMut) -> (r: Result<(), ProtocolError>) {
        let ghost d0 = bytes_mut_data(*dst);
        put_slice(dst, self.raw.as_slice());
        let ghost mut e: Seq<u8> = self@.raw;
        Ok(())
    }
}

impl Decode for ServerboundSetDifficulty {
    fn decode(src: &mut Bytes) -> (r: Result<Self, ProtocolError>) {
        let raw = take_remaining(src);
        Ok(Self { raw })
    }
}

// ── ServerboundTabComplete ────────────────────────────────────────────

#[derive(Debug, Clone, PartialEq)]
pub struct ServerboundTabComplete {
    pub raw: Vec<u8>,
}

pub struct ServerboundTabCompleteView {
    pub raw: Seq<u8>,
}

impl View for ServerboundTabComplete {
    type V = ServerboundTabCompleteView;

    open spec fn view(&self) -> ServerboundTabCompleteView {
        ServerboundTabCompleteView {
            raw: self.raw@,
        }
    }
}

impl PacketId for ServerboundTabComplete {
    open spec fn spec_packet_id(ver: u32) -> u8 {
        0x06
    }

    fn packet_id(_ver: u32) -> (r: u8) {
        0x06
    }
}

impl WireFormat for ServerboundTabComplete {
    open spec fn spec_encode(p: ServerboundTabCompleteView) -> Seq<u8> {
        p.raw
    }

    open spec fn spec_decode(s: Seq<u8>) -> Parsed<ServerboundTabCompleteView> {
        then(take_rest(s), |raw: Seq<u8>, s: Seq<u8>| (Ok(ServerboundTabCompleteView { raw }), s))
    }
}

impl Roundtrip for ServerboundTabComplete {
    open spec fn encodable(p: ServerboundTabCompleteView) -> bool {
        true
    }

    open spec fn reads_to_end() -> bool {
        true
    }

    proof fn lemma_roundtrip(p: ServerboundTabCompleteView, rest: Seq<u8>) {
        broadcast use group_wire_roundtrip;

        assert(p.raw + rest =~= p.raw);
    }
}

impl Encode for ServerboundTabComplete {
    fn encode(&self, dst: &mut BytesMut) -> (r: Result<(), ProtocolError>) {
        let ghost d0 = bytes_mut_data(*dst);
        put_slice(dst, self.raw.as_slice());
        let ghost mut e: Seq<u8> = self@.raw;
        Ok(())
    }
}

impl Decode for ServerboundTabComplete {
    fn decode(src: &mut Bytes) -> (r: Result<Self, ProtocolError>) {
        let raw = take_remaining(src);
        Ok(Self { raw })
    }
}

// ── ServerboundClickWindowButton ──────────────────────────────────────

#[derive(Debug, Clone, PartialEq)]
pub struct ServerboundClickWindowButton {
    pub raw: Vec<u8>,
}

pub struct ServerboundClickWindowButtonView {
    pub raw: Seq<u8>,
}

impl View for ServerboundClickWindowButton {
    type V = ServerboundClickWindowButtonView;

    open spec fn view(&self) -> ServerboundClickWindowButtonView {
        ServerboundClickWindowButtonView {
            raw: self.raw@,
        }
    }
}

impl PacketId for ServerboundClickWindowButton {
    open spec fn spec_packet_id(ver: u32) -> u8 {
        0x08
    }

    fn packet_id(_ver: u32) -> (r: u8) {
        0x08
    }
}

impl WireFormat for ServerboundClickWindowButton {
    open spec fn spec_encode(p: ServerboundClickWindowButtonView) -> Seq<u8> {
        p.raw
    }

    open spec fn spec_decode(s: Seq<u8>) -> Parsed<ServerboundClickWindowButtonView> {
        then(take_rest(s), |raw: Seq<u8>, s: Seq<u8>| (Ok(ServerboundClickWindowButtonView { raw }), s))
    }
}

impl Roundtrip for ServerboundClickWindowButton {
    open spec fn encodable(p: ServerboundClickWindowButtonView) -> bool {
        true
    }

    open spec fn reads_to_end() -> bool {
        true
    }

    proof fn lemma_roundtrip(p: ServerboundClickWindowButtonView, rest: Seq<u8>) {
        broadcast use group_wire_roundtrip;

        assert(p.raw + rest =~= p.raw);
    }
}

impl Encode for ServerboundClickWindowButton {
    fn encode(&self, dst: &mut BytesMut) -> (r: Result<(), ProtocolError>) {
        let ghost d0 = bytes_mut_data(*dst);
        put_slice(dst, self.raw.as_slice());
        let ghost mut e: Seq<u8> = self@.raw;
        Ok(())
    }
}

impl Decode for ServerboundClickWindowButton {
    fn decode(src: &mut Bytes) -> (r: Result<Self, ProtocolError>) {
        let raw = take_remaining(src);
        Ok(Self { raw })
    }
}

// ── ServerboundClickWindow ────────────────────────────────────────────

#[derive(Debug, Clone, PartialEq)]
pub struct ServerboundClickWindow {
    pub raw: Vec<u8>,
}

pub struct ServerboundClickWindowView {
    pub raw: Seq<u8>,
}

impl View for ServerboundClickWindow {
    type V = ServerboundClickWindowView;

    open spec fn view(&self) -> ServerboundClickWindowView {
        ServerboundClickWindowView {
            raw: self.raw@,
        }
    }
}

impl PacketId for ServerboundClickWindow {
    open spec fn spec_packet_id(ver: u32) -> u8 {
        0x09
    }

    fn packet_id(_ver: u32) -> (r: u8) {
        0x09
    }
}

impl WireFormat for ServerboundClickWindow {
    open spec fn spec_encode(p: ServerboundClickWindowView) -> Seq<u8> {
        p.raw
    }

    open spec fn spec_decode(s: Seq<u8>) -> Parsed<ServerboundClickWindowView> {
        then(take_rest(s), |raw: Seq<u8>, s: Seq<u8>| (Ok(ServerboundClickWindowView { raw }), s))
    }
}

impl Roundtrip for ServerboundClickWindow {
    open spec fn encodable(p: ServerboundClickWindowView) -> bool {
        true
    }

    open spec fn reads_to_end() -> bool {
        true
    }

    proof fn lemma_roundtrip(p: ServerboundClickWindowView, rest: Seq<u8>) {
        broadcast use group_wire_roundtrip;

        assert(p.raw + rest =~= p.raw);
    }
}

impl Encode for ServerboundClickWindow {
    fn encode(&self, dst: &mut BytesMut) -> (r: Result<(), ProtocolError>) {
        let ghost d0 = bytes_mut_data(*dst);
        put_slice(dst, self.raw.as_slice());
        let ghost mut e: Seq<u8> = self@.raw;
        Ok(())
    }
}

impl Decode for ServerboundClickWindow {
    fn decode(src: &mut Bytes) -> (r: Result<Self, ProtocolError>) {
        let raw = take_remaining(src);
        Ok(Self { raw })
    }
}

// ── ServerboundCloseWindow ────────────────────────────────────────────

#[derive(Debug, Clone, PartialEq)]
pub struct ServerboundCloseWindow {
    pub raw: Vec<u8>,
}

pub struct ServerboundCloseWindowView {
    pub raw: Seq<u8>,
}

impl View for ServerboundCloseWindow {
    type V = ServerboundCloseWindowView;

    open spec fn view(&self) -> ServerboundCloseWindowView {
        ServerboundCloseWindowView {
            raw: self.raw@,
        }
    }
}

impl PacketId for ServerboundCloseWindow {
    open spec fn spec_packet_id(ver: u32) -> u8 {
        0x0A
    }

    fn packet_id(_ver: u32) -> (r: u8) {
        0x0A
    }
}

impl WireFormat for ServerboundCloseWindow {
    open spec fn spec_encode(p: ServerboundCloseWindowView) -> Seq<u8> {
        p.raw
    }

    open spec fn spec_decode(s: Seq<u8>) -> Parsed<ServerboundCloseWindowView> {
        then(take_rest(s), |raw: Seq<u8>, s: Seq<u8>| (Ok(ServerboundCloseWindowView { raw }), s))
    }
}

impl Roundtrip for ServerboundCloseWindow {
    open spec fn encodable(p: ServerboundCloseWindowView) -> bool {
        true
    }

    open spec fn reads_to_end() -> bool {
        true
    }

    proof fn lemma_roundtrip(p: ServerboundCloseWindowView, rest: Seq<u8>) {
        broadcast use group_wire_roundtrip;

        assert(p.raw + rest =~= p.raw);
    }
}

impl Encode for ServerboundCloseWindow {
    fn encode(&self, dst: &mut BytesMut) -> (r: Result<(), ProtocolError>) {
        let ghost d0 = bytes_mut_data(*dst);
        put_slice(dst, self.raw.as_slice());
        let ghost mut e: Seq<u8> = self@.raw;
        Ok(())
    }
}

impl Decode for ServerboundCloseWindow {
    fn decode(src: &mut Bytes) -> (r: Result<Self, ProtocolError>) {
        let raw = take_remaining(src);
        Ok(Self { raw })
    }
}

// ── ServerboundEditBook ───────────────────────────────────────────────

#[derive(Debug, Clone, PartialEq)]
pub struct ServerboundEditBook {
    pub raw: Vec<u8>,
}

pub struct ServerboundEditBookView {
    pub raw: Seq<u8>,
}

impl View for ServerboundEditBook {
    type V = ServerboundEditBookView;

    open spec fn view(&self) -> ServerboundEditBookView {
        ServerboundEditBookView {
            raw: self.raw@,
        }
    }
}

impl PacketId for ServerboundEditBook {
    open spec fn spec_packet_id(ver: u32) -> u8 {
        0x0C
    }

    fn packet_id(_ver: u32) -> (r: u8) {
        0x0C
    }
}

impl WireFormat for ServerboundEditBook {
    open spec fn spec_encode(p: ServerboundEditBookView) -> Seq<u8> {
        p.raw
    }

    open spec fn spec_decode(s: Seq<u8>) -> Parsed<ServerboundEditBookView> {
        then(take_rest(s), |raw: Seq<u8>, s: Seq<u8>| (Ok(ServerboundEditBookView { raw }), s))
    }
}

impl Roundtrip for ServerboundEditBook {
    open spec fn encodable(p: ServerboundEditBookView) -> bool {
        true
    }

    open spec fn reads_to_end() -> bool {
        true
    }

    proof fn lemma_roundtrip(p: ServerboundEditBookView, rest: Seq<u8>) {
        broadcast use group_wire_roundtrip;

        assert(p.raw + rest =~= p.raw);
    }
}

impl Encode for ServerboundEditBook {
    fn encode(&self, dst: &mut BytesMut) -> (r: Result<(), ProtocolError>) {
        let ghost d0 = bytes_mut_data(*dst);
        put_slice(dst, self.raw.as_slice());
        let ghost mut e: Seq<u8> = self@.raw;
        Ok(())
    }
}

impl Decode for ServerboundEditBook {
    fn decode(src: &mut Bytes) -> (r: Result<Self, ProtocolError>) {
        let raw = take_remaining(src);
        Ok(Self { raw })
    }
}

// ── ServerboundQueryEntityNbt ─────────────────────────────────────────

#[derive(Debug, Clone, PartialEq)]
pub struct ServerboundQueryEntityNbt {
    pub raw: Vec<u8>,
}

pub struct ServerboundQueryEntityNbtView {
    pub raw: Seq<u8>,
}

impl View for ServerboundQueryEntityNbt {
    type V = ServerboundQueryEntityNbtView;

    open spec fn view(&self) -> ServerboundQueryEntityNbtView {
        ServerboundQueryEntityNbtView {
            raw: self.raw@,
        }
    }
}

impl PacketId for ServerboundQueryEntityNbt {
    open spec fn spec_packet_id(ver: u32) -> u8 {
        0x0D
    }

    fn packet_id(_ver: u32) -> (r: u8) {
        0x0D
    }
}

impl WireFormat for ServerboundQueryEntityNbt {
    open spec fn spec_encode(p: ServerboundQueryEntityNbtView) -> Seq<u8> {
        p.raw
    }

    open spec fn spec_decode(s: Seq<u8>) -> Parsed<ServerboundQueryEntityNbtView> {
        then(take_rest(s), |raw: Seq<u8>, s: Seq<u8>| (Ok(ServerboundQueryEntityNbtView { raw }), s))
    }
}

impl Roundtrip for ServerboundQueryEntityNbt {
    open spec fn encodable(p: ServerboundQueryEntityNbtView) -> bool {
        true
    }

    open spec fn reads_to_end() -> bool {
        true
    }

    proof fn lemma_roundtrip(p: ServerboundQueryEntityNbtView, rest: Seq<u8>) {
        broadcast use group_wire_roundtrip;

        assert(p.raw + rest =~= p.raw);
    }
}

impl Encode for ServerboundQueryEntityNbt {
    fn encode(&self, dst: &mut BytesMut) -> (r: Result<(), ProtocolError>) {
        let ghost d0 = bytes_mut_data(*dst);
        put_slice(dst, self.raw.as_slice());
        let ghost mut e: Seq<u8> = self@.raw;
        Ok(())
    }
}

impl Decode for ServerboundQueryEntityNbt {
    fn decode(src: &mut Bytes) -> (r: Result<Self, ProtocolError>) {
        let raw = take_remaining(src);
        Ok(Self { raw })
    }
}

// ── ServerboundGenerateStructure ──────────────────────────────────────

#[derive(Debug, Clone, PartialEq)]
pub struct ServerboundGenerateStructure {
    pub raw: Vec<u8>,
}

pub struct ServerboundGenerateStructureView {
    pub raw: Seq<u8>,
}

impl View for ServerboundGenerateStructure {
    type V = ServerboundGenerateStructureView;

    open spec fn view(&self) -> ServerboundGenerateStructureView {
        ServerboundGenerateStructureView {
            raw: self.raw@,
        }
    }
}

impl PacketId for ServerboundGenerateStructure {
    open spec fn spec_packet_id(ver: u32) -> u8 {
        0x0F
    }

    fn packet_id(_ver: u32) -> (r: u8) {
        0x0F
    }
}

impl WireFormat for ServerboundGenerateStructure {
    open spec fn spec_encode(p: ServerboundGenerateStructureView) -> Seq<u8> {
        p.raw
    }

    open spec fn spec_decode(s: Seq<u8>) -> Parsed<ServerboundGenerateStructureView> {
        then(take_rest(s), |raw: Seq<u8>, s: Seq<u8>| (Ok(ServerboundGenerateStructureView { raw }), s))
    }
}

impl Roundtrip for ServerboundGenerateStructure {
    open spec fn encodable(p: ServerboundGenerateStructureView) -> bool {
        true
    }

    open spec fn reads_to_end() -> bool {
        true
    }

    proof fn lemma_roundtrip(p: ServerboundGenerateStructureView, rest: Seq<u8>) {
        broadcast use group_wire_roundtrip;

        assert(p.raw + rest =~= p.raw);
    }
}

impl Encode for ServerboundGenerateStructure {
    fn encode(&self, dst: &mut BytesMut) -> (r: Result<(), ProtocolError>) {
        let ghost d0 = bytes_mut_data(*dst);
        put_slice(dst, self.raw.as_slice());
        let ghost mut e: Seq<u8> = self@.raw;
        Ok(())
    }
}

impl Decode for ServerboundGenerateStructure {
    fn decode(src: &mut Bytes) -> (r: Result<Self, ProtocolError>) {
        let raw = take_remaining(src);
        Ok(Self { raw })
    }
}

// ── ServerboundLockDifficulty ─────────────────────────────────────────

#[derive(Debug, Clone, PartialEq)]
pub struct ServerboundLockDifficulty {
    pub raw: Vec<u8>,
}

pub struct ServerboundLockDifficultyView {
    pub raw: Seq<u8>,
}

impl View for ServerboundLockDifficulty {
    type V = ServerboundLockDifficultyView;

    open spec fn view(&self) -> ServerboundLockDifficultyView {
        ServerboundLockDifficultyView {
            raw: self.raw@,
        }
    }
}

impl PacketId for ServerboundLockDifficulty {
    open spec fn spec_packet_id(ver: u32) -> u8 {
        0x11
    }

    fn packet_id(_ver: u32) -> (r: u8) {
        0x11
    }
}

impl WireFormat for ServerboundLockDifficulty {
    open spec fn spec_encode(p: ServerboundLockDifficultyView) -> Seq<u8> {
        p.raw
    }

    open spec fn spec_decode(s: Seq<u8>) -> Parsed<ServerboundLockDifficultyView> {
        then(take_rest(s), |raw: Seq<u8>, s: Seq<u8>| (Ok(ServerboundLockDifficultyView { raw }), s))
    }
}

impl Roundtrip for ServerboundLockDifficulty {
    open spec fn encodable(p: ServerboundLockDifficultyView) -> bool {
        true
    }

    open spec fn reads_to_end() -> bool {
        true
    }

    proof fn lemma_roundtrip(p: ServerboundLockDifficultyView, rest: Seq<u8>) {
        broadcast use group_wire_roundtrip;

        assert(p.raw + rest =~= p.raw);
    }
}

impl Encode for ServerboundLockDifficulty {
    fn encode(&self, dst: &mut BytesMut) -> (r: Result<(), ProtocolError>) {
        let ghost d0 = bytes_mut_data(*dst);
        put_slice(dst, self.raw.as_slice());
        let ghost mut e: Seq<u8> = self@.raw;
        Ok(())
    }
}

impl Decode for ServerboundLockDifficulty {
    fn decode(src: &mut Bytes) -> (r: Result<Self, ProtocolError>) {
        let raw = take_remaining(src);
        Ok(Self { raw })
    }
}

// ── ServerboundMovePlayerStatus ───────────────────────────────────────

#[derive(Debug, Clone, PartialEq)]
pub struct ServerboundMovePlayerStatus {
    pub raw: Vec<u8>,
}

pub struct ServerboundMovePlayerStatusView {
    pub raw: Seq<u8>,
}

impl View for ServerboundMovePlayerStatus {
    type V = ServerboundMovePlayerStatusView;

    open spec fn view(&self) -> ServerboundMovePlayerStatusView {
        ServerboundMovePlayerStatusView {
            raw: self.raw@,
        }
    }
}

impl PacketId for ServerboundMovePlayerStatus {
    open spec fn spec_packet_id(ver: u32) -> u8 {
        0x15
    }

    fn packet_id(_ver: u32) -> (r: u8) {
        0x15
    }
}

impl WireFormat for ServerboundMovePlayerStatus {
    open spec fn spec_encode(p: ServerboundMovePlayerStatusView) -> Seq<u8> {
        p.raw
    }

    open spec fn spec_decode(s: Seq<u8>) -> Parsed<ServerboundMovePlayerStatusView> {
        then(take_rest(s), |raw: Seq<u8>, s: Seq<u8>| (Ok(ServerboundMovePlayerStatusView { raw }), s))
    }
}

impl Roundtrip for ServerboundMovePlayerStatus {
    open spec fn encodable(p: ServerboundMovePlayerStatusView) -> bool {
        true
    }

    open spec fn reads_to_end() -> bool {
        true
    }

    proof fn lemma_roundtrip(p: ServerboundMovePlayerStatusView, rest: Seq<u8>) {
        broadcast use group_wire_roundtrip;

        assert(p.raw + rest =~= p.raw);
    }
}

impl Encode for ServerboundMovePlayerStatus {
    fn encode(&self, dst: &mut BytesMut) -> (r: Result<(), ProtocolError>) {
        let ghost d0 = bytes_mut_data(*dst);
        put_slice(dst, self.raw.as_slice());
        let ghost mut e: Seq<u8> = self@.raw;
        Ok(())
    }
}

impl Decode for ServerboundMovePlayerStatus {
    fn decode(src: &mut Bytes) -> (r: Result<Self, ProtocolError>) {
        let raw = take_remaining(src);
        Ok(Self { raw })
    }
}

// ── ServerboundVehicleMove ────────────────────────────────────────────

#[derive(Debug, Clone, PartialEq)]
pub struct ServerboundVehicleMove {
    pub raw: Vec<u8>,
}

pub struct ServerboundVehicleMoveView {
    pub raw: Seq<u8>,
}

impl View for ServerboundVehicleMove {
    type V = ServerboundVehicleMoveView;

    open spec fn view(&self) -> ServerboundVehicleMoveView {
        ServerboundVehicleMoveView {
            raw: self.raw@,
        }
    }
}

impl PacketId for ServerboundVehicleMove {
    open spec fn spec_packet_id(ver: u32) -> u8 {
        0x16
    }

    fn packet_id(_ver: u32) -> (r: u8) {
        0x16
    }
}

impl WireFormat for ServerboundVehicleMove {
    open spec fn spec_encode(p: ServerboundVehicleMoveView) -> Seq<u8> {
        p.raw
    }

    open spec fn spec_decode(s: Seq<u8>) -> Parsed<ServerboundVehicleMoveView> {
        then(take_rest(s), |raw: Seq<u8>, s: Seq<u8>| (Ok(ServerboundVehicleMoveView { raw }), s))
    }
}

impl Roundtrip for ServerboundVehicleMove {
    open spec fn encodable(p: ServerboundVehicleMoveView) -> bool {
        true
    }

    open spec fn reads_to_end() -> bool {
        true
    }

    proof fn lemma_roundtrip(p: ServerboundVehicleMoveView, rest: Seq<u8>) {
        broadcast use group_wire_roundtrip;

        assert(p.raw + rest =~= p.raw);
    }
}

impl Encode for ServerboundVehicleMove {
    fn encode(&self, dst: &mut BytesMut) -> (r: Result<(), ProtocolError>) {
        let ghost d0 = bytes_mut_data(*dst);
        put_slice(dst, self.raw.as_slice());
        let ghost mut e: Seq<u8> = self@.raw;
        Ok(())
    }
}

impl Decode for ServerboundVehicleMove {
    fn decode(src: &mut Bytes) -> (r: Result<Self, ProtocolError>) {
        let raw = take_remaining(src);
        Ok(Self { raw })
    }
}

// ── ServerboundSteerBoat ──────────────────────────────────────────────

#[derive(Debug, Clone, PartialEq)]
pub struct ServerboundSteerBoat {
    pub raw: Vec<u8>,
}

pub struct ServerboundSteerBoatView {
    pub raw: Seq<u8>,
}

impl View for ServerboundSteerBoat {
    type V = ServerboundSteerBoatView;

    open spec fn view(&self) -> ServerboundSteerBoatView {
        ServerboundSteerBoatView {
            raw: self.raw@,
        }
    }
}

impl PacketId for ServerboundSteerBoat {
    open spec fn spec_packet_id(ver: u32) -> u8 {
        0x17
    }

    fn packet_id(_ver: u32) -> (r: u8) {
        0x17
    }
}

impl WireFormat for ServerboundSteerBoat {
    open spec fn spec_encode(p: ServerboundSteerBoatView) -> Seq<u8> {
        p.raw
    }

    open spec fn spec_decode(s: Seq<u8>) -> Parsed<ServerboundSteerBoatView> {
        then(take_rest(s), |raw: Seq<u8>, s: Seq<u8>| (Ok(ServerboundSteerBoatView { raw }), s))
    }
}

impl Roundtrip for ServerboundSteerBoat {
    open spec fn encodable(p: ServerboundSteerBoatView) -> bool {
        true
    }

    open spec fn reads_to_end() -> bool {
        true
    }

    proof fn lemma_roundtrip(p: ServerboundSteerBoatView, rest: Seq<u8>) {
        broadcast use group_wire_roundtrip;

        assert(p.raw + rest =~= p.raw);
    }
}

impl Encode for ServerboundSteerBoat {
    fn encode(&self, dst: &mut BytesMut) -> (r: Result<(), ProtocolError>) {
        let ghost d0 = bytes_mut_data(*dst);
        put_slice(dst, self.raw.as_slice());
        let ghost mut e: Seq<u8> = self@.raw;
        Ok(())
    }
}

impl Decode for ServerboundSteerBoat {
    fn decode(src: &mut Bytes) -> (r: Result<Self, ProtocolError>) {
        let raw = take_remaining(src);
        Ok(Self { raw })
    }
}

// ── ServerboundPickItem ───────────────────────────────────────────────

#[derive(Debug, Clone, PartialEq)]
pub struct ServerboundPickItem {
    pub raw: Vec<u8>,
}

pub struct ServerboundPickItemView {
    pub raw: Seq<u8>,
}

impl View for ServerboundPickItem {
    type V = ServerboundPickItemView;

    open spec fn view(&self) -> ServerboundPickItemView {
        ServerboundPickItemView {
            raw: self.raw@,
        }
    }
}

impl PacketId for ServerboundPickItem {
    open spec fn spec_packet_id(ver: u32) -> u8 {
        0x18
    }

    fn packet_id(_ver: u32) -> (r: u8) {
        0x18
    }
}

impl WireFormat for ServerboundPickItem {
    open spec fn spec_encode(p: ServerboundPickItemView) -> Seq<u8> {
        p.raw
    }

    open spec fn spec_decode(s: Seq<u8>) -> Parsed<ServerboundPickItemView> {
        then(take_rest(s), |raw: Seq<u8>, s: Seq<u8>| (Ok(ServerboundPickItemView { raw }), s))
    }
}

impl Roundtrip for ServerboundPickItem {
    open spec fn encodable(p: ServerboundPickItemView) -> bool {
        true
    }

    open spec fn reads_to_end() -> bool {
        true
    }

    proof fn lemma_roundtrip(p: ServerboundPickItemView, rest: Seq<u8>) {
        broadcast use group_wire_roundtrip;

        assert(p.raw + rest =~= p.raw);
    }
}

impl Encode for ServerboundPickItem {
    fn encode(&self, dst: &mut BytesMut) -> (r: Result<(), ProtocolError>) {
        let ghost d0 = bytes_mut_data(*dst);
        put_slice(dst, self.raw.as_slice());
        let ghost mut e: Seq<u8> = self@.raw;
        Ok(())
    }
}

impl Decode for ServerboundPickItem {
    fn decode(src: &mut Bytes) -> (r: Result<Self, ProtocolError>) {
        let raw = take_remaining(src);
        Ok(Self { raw })
    }
}

// ── ServerboundCraftRecipeRequest ─────────────────────────────────────

#[derive(Debug, Clone, PartialEq)]
pub struct ServerboundCraftRecipeRequest {
    pub raw: Vec<u8>,
}

pub struct ServerboundCraftRecipeRequestView {
    pub raw: Seq<u8>,
}

impl View for ServerboundCraftRecipeRequest {
    type V = ServerboundCraftRecipeRequestView;

    open spec fn view(&self) -> ServerboundCraftRecipeRequestView {
        ServerboundCraftRecipeRequestView {
            raw: self.raw@,
        }
    }
}

impl PacketId for ServerboundCraftRecipeRequest {
    open spec fn spec_packet_id(ver: u32) -> u8 {
        0x19
    }

    fn packet_id(_ver: u32) -> (r: u8) {
        0x19
    }
}

impl WireFormat for ServerboundCraftRecipeRequest {
    open spec fn spec_encode(p: ServerboundCraftRecipeRequestView) -> Seq<u8> {
        p.raw
    }

    open spec fn spec_decode(s: Seq<u8>) -> Parsed<ServerboundCraftRecipeRequestView> {
        then(take_rest(s), |raw: Seq<u8>, s: Seq<u8>| (Ok(ServerboundCraftRecipeRequestView { raw }), s))
    }
}

impl Roundtrip for ServerboundCraftRecipeRequest {
    open spec fn encodable(p: ServerboundCraftRecipeRequestView) -> bool {
        true
    }

    open spec fn reads_to_end() -> bool {
        true
    }

    proof fn lemma_roundtrip(p: ServerboundCraftRecipeRequestView, rest: Seq<u8>) {
        broadcast use group_wire_roundtrip;

        assert(p.raw + rest =~= p.raw);
    }
}

impl Encode for ServerboundCraftRecipeRequest {
    fn encode(&self, dst: &mut BytesMut) -> (r: Result<(), ProtocolError>) {
        let ghost d0 = bytes_mut_data(*dst);
        put_slice(dst, self.raw.as_slice());
        let ghost mut e: Seq<u8> = self@.raw;
        Ok(())
    }
}

impl Decode for ServerboundCraftRecipeRequest {
    fn decode(src: &mut Bytes) -> (r: Result<Self, ProtocolError>) {
        let raw = take_remaining(src);
        Ok(Self { raw })
    }
}

// ── ServerboundPlayerAbilities ────────────────────────────────────────

#[derive(Debug, Clone, PartialEq)]
pub struct ServerboundPlayerAbilities {
    pub raw: Vec<u8>,
}

pub struct ServerboundPlayerAbilitiesView {
    pub raw: Seq<u8>,
}

impl View for ServerboundPlayerAbilities {
    type V = ServerboundPlayerAbilitiesView;

    open spec fn view(&self) -> ServerboundPlayerAbilitiesView {
        ServerboundPlayerAbilitiesView {
            raw: self.raw@,
        }
    }
}

impl PacketId for ServerboundPlayerAbilities {
    open spec fn spec_packet_id(ver: u32) -> u8 {
        0x1A
    }

    fn packet_id(_ver: u32) -> (r: u8) {
        0x1A
    }
}

impl WireFormat for ServerboundPlayerAbilities {
    open spec fn spec_encode(p: ServerboundPlayerAbilitiesView) -> Seq<u8> {
        p.raw
    }

    open spec fn spec_decode(s: Seq<u8>) -> Parsed<ServerboundPlayerAbilitiesView> {
        then(take_rest(s), |raw: Seq<u8>, s: Seq<u8>| (Ok(ServerboundPlayerAbilitiesView { raw }), s))
    }
}

impl Roundtrip for ServerboundPlayerAbilities {
    open spec fn encodable(p: ServerboundPlayerAbilitiesView) -> bool {
        true
    }

    open spec fn reads_to_end() -> bool {
        true
    }

    proof fn lemma_roundtrip(p: ServerboundPlayerAbilitiesView, rest: Seq<u8>) {
        broadcast use group_wire_roundtrip;

        assert(p.raw + rest =~= p.raw);
    }
}

impl Encode for ServerboundPlayerAbilities {
    fn encode(&self, dst: &mut BytesMut) -> (r: Result<(), ProtocolError>) {
        let ghost d0 = bytes_mut_data(*dst);
        put_slice(dst, self.raw.as_slice());
        let ghost mut e: Seq<u8> = self@.raw;
        Ok(())
    }
}

impl Decode for ServerboundPlayerAbilities {
    fn decode(src: &mut Bytes) -> (r: Result<Self, ProtocolError>) {
        let raw = take_remaining(src);
        Ok(Self { raw })
    }
}

// ── ServerboundPlayerDigging ──────────────────────────────────────────

#[derive(Debug, Clone, PartialEq)]
pub struct ServerboundPlayerDigging {
    pub raw: Vec<u8>,
}

pub struct ServerboundPlayerDiggingView {
    pub raw: Seq<u8>,
}

impl View for ServerboundPlayerDigging {
    type V = ServerboundPlayerDiggingView;

    open spec fn view(&self) -> ServerboundPlayerDiggingView {
        ServerboundPlayerDiggingView {
            raw: self.raw@,
        }
    }
}

impl PacketId for ServerboundPlayerDigging {
    open spec fn spec_packet_id(ver: u32) -> u8 {
        0x1B
    }

    fn packet_id(_ver: u32) -> (r: u8) {
        0x1B
    }
}

impl WireFormat for ServerboundPlayerDigging {
    open spec fn spec_encode(p: ServerboundPlayerDiggingView) -> Seq<u8> {
        p.raw
    }

    open spec fn spec_decode(s: Seq<u8>) -> Parsed<ServerboundPlayerDiggingView> {
        then(take_rest(s), |raw: Seq<u8>, s: Seq<u8>| (Ok(ServerboundPlayerDiggingView { raw }), s))
    }
}

impl Roundtrip for ServerboundPlayerDigging {
    open spec fn encodable(p: ServerboundPlayerDiggingView) -> bool {
        true
    }

    open spec fn reads_to_end() -> bool {
        true
    }

    proof fn lemma_roundtrip(p: ServerboundPlayerDiggingView, rest: Seq<u8>) {
        broadcast use group_wire_roundtrip;

        assert(p.raw + rest =~= p.raw);
    }
}

impl Encode for ServerboundPlayerDigging {
    fn encode(&self, dst: &mut BytesMut) -> (r: Result<(), ProtocolError>) {
        let ghost d0 = bytes_mut_data(*dst);
        put_slice(dst, self.raw.as_slice());
        let ghost mut e: Seq<u8> = self@.raw;
        Ok(())
    }
}

impl Decode for ServerboundPlayerDigging {
    fn decode(src: &mut Bytes) -> (r: Result<Self, ProtocolError>) {
        let raw = take_remaining(src);
        Ok(Self { raw })
    }
}

// ── ServerboundEntityAction ───────────────────────────────────────────

#[derive(Debug, Clone, PartialEq)]
pub struct ServerboundEntityAction {
    pub raw: Vec<u8>,
}

pub struct ServerboundEntityActionView {
    pub raw: Seq<u8>,
}

impl View for ServerboundEntityAction {
    type V = ServerboundEntityActionView;

    open spec fn view(&self) -> ServerboundEntityActionView {
        ServerboundEntityActionView {
            raw: self.raw@,
        }
    }
}

impl PacketId for ServerboundEntityAction {
    open spec fn spec_packet_id(ver: u32) -> u8 {
        0x1C
    }

    fn packet_id(_ver: u32) -> (r: u8) {
        0x1C
    }
}

impl WireFormat for ServerboundEntityAction {
    open spec fn spec_encode(p: ServerboundEntityActionView) -> Seq<u8> {
        p.raw
    }

    open spec fn spec_decode(s: Seq<u8>) -> Parsed<ServerboundEntityActionView> {
        then(take_rest(s), |raw: Seq<u8>, s: Seq<u8>| (Ok(ServerboundEntityActionView { raw }), s))
    }
}

impl Roundtrip for ServerboundEntityAction {
    open spec fn encodable(p: ServerboundEntityActionView) -> bool {
        true
    }

    open spec fn reads_to_end() -> bool {
        true
    }

    proof fn lemma_roundtrip(p: ServerboundEntityActionView, rest: Seq<u8>) {
        broadcast use group_wire_roundtrip;

        assert(p.raw + rest =~= p.raw);
    }
}

impl Encode for ServerboundEntityAction {
    fn encode(&self, dst: &mut BytesMut) -> (r: Result<(), ProtocolError>) {
        let ghost d0 = bytes_mut_data(*dst);
        put_slice(dst, self.raw.as_slice());
        let ghost mut e: Seq<u8> = self@.raw;
        Ok(())
    }
}

impl Decode for ServerboundEntityAction {
    fn decode(src: &mut Bytes) -> (r: Result<Self, ProtocolError>) {
        let raw = take_remaining(src);
        Ok(Self { raw })
    }
}

// ── ServerboundSteerVehicle ───────────────────────────────────────────

#[derive(Debug, Clone, PartialEq)]
pub struct ServerboundSteerVehicle {
    pub raw: Vec<u8>,
}

pub struct ServerboundSteerVehicleView {
    pub raw: Seq<u8>,
}

impl View for ServerboundSteerVehicle {
    type V = ServerboundSteerVehicleView;

    open spec fn view(&self) -> ServerboundSteerVehicleView {
        ServerboundSteerVehicleView {
            raw: self.raw@,
        }
    }
}

impl PacketId for ServerboundSteerVehicle {
    open spec fn spec_packet_id(ver: u32) -> u8 {
        0x1D
    }

    fn packet_id(_ver: u32) -> (r: u8) {
        0x1D
    }
}

impl WireFormat for ServerboundSteerVehicle {
    open spec fn spec_encode(p: ServerboundSteerVehicleView) -> Seq<u8> {
        p.raw
    }

    open spec fn spec_decode(s: Seq<u8>) -> Parsed<ServerboundSteerVehicleView> {
        then(take_rest(s), |raw: Seq<u8>, s: Seq<u8>| (Ok(ServerboundSteerVehicleView { raw }), s))
    }
}

impl Roundtrip for ServerboundSteerVehicle {
    open spec fn encodable(p: ServerboundSteerVehicleView) -> bool {
        true
    }

    open spec fn reads_to_end() -> bool {
        true
    }

    proof fn lemma_roundtrip(p: ServerboundSteerVehicleView, rest: Seq<u8>) {
        broadcast use group_wire_roundtrip;

        assert(p.raw + rest =~= p.raw);
    }
}

impl Encode for ServerboundSteerVehicle {
    fn encode(&self, dst: &mut BytesMut) -> (r: Result<(), ProtocolError>) {
        let ghost d0 = bytes_mut_data(*dst);
        put_slice(dst, self.raw.as_slice());
        let ghost mut e: Seq<u8> = self@.raw;
        Ok(())
    }
}

impl Decode for ServerboundSteerVehicle {
    fn decode(src: &mut Bytes) -> (r: Result<Self, ProtocolError>) {
        let raw = take_remaining(src);
        Ok(Self { raw })
    }
}

// ── ServerboundPlaceRecipe ────────────────────────────────────────────

#[derive(Debug, Clone, PartialEq)]
pub struct ServerboundPlaceRecipe {
    pub raw: Vec<u8>,
}

pub struct ServerboundPlaceRecipeView {
    pub raw: Seq<u8>,
}

impl View for ServerboundPlaceRecipe {
    type V = ServerboundPlaceRecipeView;

    open spec fn view(&self) -> ServerboundPlaceRecipeView {
        ServerboundPlaceRecipeView {
            raw: self.raw@,
        }
    }
}

impl PacketId for ServerboundPlaceRecipe {
    open spec fn spec_packet_id(ver: u32) -> u8 {
        0x1F
    }

    fn packet_id(_ver: u32) -> (r: u8) {
        0x1F
    }
}

impl WireFormat for ServerboundPlaceRecipe {
    open spec fn spec_encode(p: ServerboundPlaceRecipeView) -> Seq<u8> {
        p.raw
    }

    open spec fn spec_decode(s: Seq<u8>) -> Parsed<ServerboundPlaceRecipeView> {
        then(take_rest(s), |raw: Seq<u8>, s: Seq<u8>| (Ok(ServerboundPlaceRecipeView { raw }), s))
    }
}

impl Roundtrip for ServerboundPlaceRecipe {
    open spec fn encodable(p: ServerboundPlaceRecipeView) -> bool {
        true
    }

    open spec fn reads_to_end() -> bool {
        true
    }

    proof fn lemma_roundtrip(p: ServerboundPlaceRecipeView, rest: Seq<u8>) {
        broadcast use group_wire_roundtrip;

        assert(p.raw + rest =~= p.raw);
    }
}

impl Encode for ServerboundPlaceRecipe {
    fn encode(&self, dst: &mut BytesMut) -> (r: Result<(), ProtocolError>) {
        let ghost d0 = bytes_mut_data(*dst);
        put_slice(dst, self.raw.as_slice());
        let ghost mut e: Seq<u8> = self@.raw;
        Ok(())
    }
}

impl Decode for ServerboundPlaceRecipe {
    fn decode(src: &mut Bytes) -> (r: Result<Self, ProtocolError>) {
        let raw = take_remaining(src);
        Ok(Self { raw })
    }
}

// ── ServerboundMovePlayerPosRotSb ─────────────────────────────────────

#[derive(Debug, Clone, PartialEq)]
pub struct ServerboundMovePlayerPosRotSb {
    pub raw: Vec<u8>,
}

pub struct ServerboundMovePlayerPosRotSbView {
    pub raw: Seq<u8>,
}

impl View for ServerboundMovePlayerPosRotSb {
    type V = ServerboundMovePlayerPosRotSbView;

    open spec fn view(&self) -> ServerboundMovePlayerPosRotSbView {
        ServerboundMovePlayerPosRotSbView {
            raw: self.raw@,
        }
    }
}

impl PacketId for ServerboundMovePlayerPosRotSb {
    open spec fn spec_packet_id(ver: u32) -> u8 {
        0x20
    }

    fn packet_id(_ver: u32) -> (r: u8) {
        0x20
    }
}

impl WireFormat for ServerboundMovePlayerPosRotSb {
    open spec fn spec_encode(p: ServerboundMovePlayerPosRotSbView) -> Seq<u8> {
        p.raw
    }

    open spec fn spec_decode(s: Seq<u8>) -> Parsed<ServerboundMovePlayerPosRotSbView> {
        then(take_rest(s), |raw: Seq<u8>, s: Seq<u8>| (Ok(ServerboundMovePlayerPosRotSbView { raw }), s))
    }
}

impl Roundtrip for ServerboundMovePlayerPosRotSb {
    open spec fn encodable(p: ServerboundMovePlayerPosRotSbView) -> bool {
        true
    }

    open spec fn reads_to_end() -> bool {
        true
    }

    proof fn lemma_roundtrip(p: ServerboundMovePlayerPosRotSbView, rest: Seq<u8>) {
        broadcast use group_wire_roundtrip;

        assert(p.raw + rest =~= p.raw);
    }
}

impl Encode for ServerboundMovePlayerPosRotSb {
    fn encode(&self, dst: &mut BytesMut) -> (r: Result<(), ProtocolError>) {
        let ghost d0 = bytes_mut_data(*dst);
        put_slice(dst, self.raw.as_slice());
        let ghost mut e: Seq<u8> = self@.raw;
        Ok(())
    }
}

impl Decode for ServerboundMovePlayerPosRotSb {
    fn decode(src: &mut Bytes) -> (r: Result<Self, ProtocolError>) {
        let raw = take_remaining(src);
        Ok(Self { raw })
    }
}

// ── ServerboundResourcePackStatus ─────────────────────────────────────

#[derive(Debug, Clone, PartialEq)]
pub struct ServerboundResourcePackStatus {
    pub raw: Vec<u8>,
}

pub struct ServerboundResourcePackStatusView {
    pub raw: Seq<u8>,
}

impl View for ServerboundResourcePackStatus {
    type V = ServerboundResourcePackStatusView;

    open spec fn view(&self) -> ServerboundResourcePackStatusView {
        ServerboundResourcePackStatusView {
            raw: self.raw@,
        }
    }
}

impl PacketId for ServerboundResourcePackStatus {
    open spec fn spec_packet_id(ver: u32) -> u8 {
        0x21
    }

    fn packet_id(_ver: u32) -> (r: u8) {
        0x21
    }
}

impl WireFormat for ServerboundResourcePackStatus {
    open spec fn spec_encode(p: ServerboundResourcePackStatusView) -> Seq<u8> {
        p.raw
    }

    open spec fn spec_decode(s: Seq<u8>) -> Parsed<ServerboundResourcePackStatusView> {
        then(take_rest(s), |raw: Seq<u8>, s: Seq<u8>| (Ok(ServerboundResourcePackStatusView { raw }), s))
    }
}

impl Roundtrip for ServerboundResourcePackStatus {
    open spec fn encodable(p: ServerboundResourcePackStatusView) -> bool {
        true
    }

    open spec fn reads_to_end() -> bool {
        true
    }

    proof fn lemma_roundtrip(p: ServerboundResourcePackStatusView, rest: Seq<u8>) {
        broadcast use group_wire_roundtrip;

        assert(p.raw + rest =~= p.raw);
    }
}

impl Encode for ServerboundResourcePackStatus {
    fn encode(&self, dst: &mut BytesMut) -> (r: Result<(), ProtocolError>) {
        let ghost d0 = bytes_mut_data(*dst);
        put_slice(dst, self.raw.as_slice());
        let ghost mut e: Seq<u8> = self@.raw;
        Ok(())
    }
}

impl Decode for ServerboundResourcePackStatus {
    fn decode(src: &mut Bytes) -> (r: Result<Self, ProtocolError>) {
        let raw = take_remaining(src);
        Ok(Self { raw })
    }
}

// ── ServerboundSelectTrade ────────────────────────────────────────────

#[derive(Debug, Clone, PartialEq)]
pub struct ServerboundSelectTrade {
    pub raw: Vec<u8>,
}

pub struct ServerboundSelectTradeView {
    pub raw: Seq<u8>,
}

impl View for ServerboundSelectTrade {
    type V = ServerboundSelectTradeView;

    open spec fn view(&self) -> ServerboundSelectTradeView {
        ServerboundSelectTradeView {
            raw: self.raw@,
        }
    }
}

impl PacketId for ServerboundSelectTrade {
    open spec fn spec_packet_id(ver: u32) -> u8 {
        0x22
    }

    fn packet_id(_ver: u32) -> (r: u8) {
        0x22
    }
}

impl WireFormat for ServerboundSelectTrade {
    open spec fn spec_encode(p: ServerboundSelectTradeView) -> Seq<u8> {
        p.raw
    }

    open spec fn spec_decode(s: Seq<u8>) -> Parsed<ServerboundSelectTradeView> {
        then(take_rest(s), |raw: Seq<u8>, s: Seq<u8>| (Ok(ServerboundSelectTradeView { raw }), s))
    }
}

impl Roundtrip for ServerboundSelectTrade {
    open spec fn encodable(p: ServerboundSelectTradeView) -> bool {
        true
    }

    open spec fn reads_to_end() -> bool {
        true
    }

    proof fn lemma_roundtrip(p: ServerboundSelectTradeView, rest: Seq<u8>) {
        broadcast use group_wire_roundtrip;

        assert(p.raw + rest =~= p.raw);
    }
}

impl Encode for ServerboundSelectTrade {
    fn encode(&self, dst: &mut BytesMut) -> (r: Result<(), ProtocolError>) {
        let ghost d0 = bytes_mut_data(*dst);
        put_slice(dst, self.raw.as_slice());
        let ghost mut e: Seq<u8> = self@.raw;
        Ok(())
    }
}

impl Decode for ServerboundSelectTrade {
    fn decode(src: &mut Bytes) -> (r: Result<Self, ProtocolError>) {
        let raw = take_remaining(src);
        Ok(Self { raw })
    }
}

// ── ServerboundSetBeaconEffect ────────────────────────────────────────

#[derive(Debug, Clone, PartialEq)]
pub struct ServerboundSetBeaconEffect {
    pub raw: Vec<u8>,
}

pub struct ServerboundSetBeaconEffectView {
    pub raw: Seq<u8>,
}

impl View for ServerboundSetBeaconEffect {
    type V = ServerboundSetBeaconEffectView;

    open spec fn view(&self) -> ServerboundSetBeaconEffectView {
        ServerboundSetBeaconEffectView {
            raw: self.raw@,
        }
    }
}

impl PacketId for ServerboundSetBeaconEffect {
    open spec fn spec_packet_id(ver: u32) -> u8 {
        0x23
    }

    fn packet_id(_ver: u32) -> (r: u8) {
        0x23
    }
}

impl WireFormat for ServerboundSetBeaconEffect {
    open spec fn spec_encode(p: ServerboundSetBeaconEffectView) -> Seq<u8> {
        p.raw
    }

    open spec fn spec_decode(s: Seq<u8>) -> Parsed<ServerboundSetBeaconEffectView> {
        then(take_rest(s), |raw: Seq<u8>, s: Seq<u8>| (Ok(ServerboundSetBeaconEffectView { raw }), s))
    }
}

impl Roundtrip for ServerboundSetBeaconEffect {
    open spec fn encodable(p: ServerboundSetBeaconEffectView) -> bool {
        true
    }

    open spec fn reads_to_end() -> bool {
        true
    }

    proof fn lemma_roundtrip(p: ServerboundSetBeaconEffectView, rest: Seq<u8>) {
        broadcast use group_wire_roundtrip;

        assert(p.raw + rest =~= p.raw);
    }
}

impl Encode for ServerboundSetBeaconEffect {
    fn encode(&self, dst: &mut BytesMut) -> (r: Result<(), ProtocolError>) {
        let ghost d0 = bytes_mut_data(*dst);
        put_slice(dst, self.raw.as_slice());
        let ghost mut e: Seq<u8> = self@.raw;
        Ok(())
    }
}

impl Decode for ServerboundSetBeaconEffect {
    fn decode(src: &mut Bytes) -> (r: Result<Self, ProtocolError>) {
        let raw = take_remaining(src);
        Ok(Self { raw })
    }
}

// ── ServerboundHeldItemChange ─────────────────────────────────────────

#[derive(Debug, Clone, PartialEq)]
pub struct ServerboundHeldItemChange {
    pub raw: Vec<u8>,
}

pub struct ServerboundHeldItemChangeView {
    pub raw: Seq<u8>,
}

impl View for ServerboundHeldItemChange {
    type V = ServerboundHeldItemChangeView;

    open spec fn view(&self) -> ServerboundHeldItemChangeView {
        ServerboundHeldItemChangeView {
            raw: self.raw@,
        }
    }
}

impl PacketId for ServerboundHeldItemChange {
    open spec fn spec_packet_id(ver: u32) -> u8 {
        0x25
    }

    fn packet_id(_ver: u32) -> (r: u8) {
        0x25
    }
}

impl WireFormat for ServerboundHeldItemChange {
    open spec fn spec_encode(p: ServerboundHeldItemChangeView) -> Seq<u8> {
        p.raw
    }

    open spec fn spec_decode(s: Seq<u8>) -> Parsed<ServerboundHeldItemChangeView> {
        then(take_rest(s), |raw: Seq<u8>, s: Seq<u8>| (Ok(ServerboundHeldItemChangeView { raw }), s))
    }
}

impl Roundtrip for ServerboundHeldItemChange {
    open spec fn encodable(p: ServerboundHeldItemChangeView) -> bool {
        true
    }

    open spec fn reads_to_end() -> bool {
        true
    }

    proof fn lemma_roundtrip(p: ServerboundHeldItemChangeView, rest: Seq<u8>) {
        broadcast use group_wire_roundtrip;

        assert(p.raw + rest =~= p.raw);
    }
}

impl Encode for ServerboundHeldItemChange {
    fn encode(&self, dst: &mut BytesMut) -> (r: Result<(), ProtocolError>) {
        let ghost d0 = bytes_mut_data(*dst);
        put_slice(dst, self.raw.as_slice());
        let ghost mut e: Seq<u8> = self@.raw;
        Ok(())
    }
}

impl Decode for ServerboundHeldItemChange {
    fn decode(src: &mut Bytes) -> (r: Result<Self, ProtocolError>) {
        let raw = take_remaining(src);
        Ok(Self { raw })
    }
}

// ── ServerboundUpdateCommandBlock ─────────────────────────────────────

#[derive(Debug, Clone, PartialEq)]
pub struct ServerboundUpdateCommandBlock {
    pub raw: Vec<u8>,
}

pub struct ServerboundUpdateCommandBlockView {
    pub raw: Seq<u8>,
}

impl View for ServerboundUpdateCommandBlock {
    type V = ServerboundUpdateCommandBlockView;

    open spec fn view(&self) -> ServerboundUpdateCommandBlockView {
        ServerboundUpdateCommandBlockView {
            raw: self.raw@,
        }
    }
}

impl PacketId for ServerboundUpdateCommandBlock {
    open spec fn spec_packet_id(ver: u32) -> u8 {
        0x26
    }

    fn packet_id(_ver: u32) -> (r: u8) {
        0x26
    }
}

impl WireFormat for ServerboundUpdateCommandBlock {
    open spec fn spec_encode(p: ServerboundUpdateCommandBlockView) -> Seq<u8> {
        p.raw
    }

    open spec fn spec_decode(s: Seq<u8>) -> Parsed<ServerboundUpdateCommandBlockView> {
        then(take_rest(s), |raw: Seq<u8>, s: Seq<u8>| (Ok(ServerboundUpdateCommandBlockView { raw }), s))
    }
}

impl Roundtrip for ServerboundUpdateCommandBlock {
    open spec fn encodable(p: ServerboundUpdateCommandBlockView) -> bool {
        true
    }

    open spec fn reads_to_end() -> bool {
        true
    }

    proof fn lemma_roundtrip(p: ServerboundUpdateCommandBlockView, rest: Seq<u8>) {
        broadcast use group_wire_roundtrip;

        assert(p.raw + rest =~= p.raw);
    }
}

impl Encode for ServerboundUpdateCommandBlock {
    fn encode(&self, dst: &mut BytesMut) -> (r: Result<(), ProtocolError>) {
        let ghost d0 = bytes_mut_data(*dst);
        put_slice(dst, self.raw.as_slice());
        let ghost mut e: Seq<u8> = self@.raw;
        Ok(())
    }
}

impl Decode for ServerboundUpdateCommandBlock {
    fn decode(src: &mut Bytes) -> (r: Result<Self, ProtocolError>) {
        let raw = take_remaining(src);
        Ok(Self { raw })
    }
}

// ── ServerboundUpdateCommandBlockMinecart ─────────────────────────────

#[derive(Debug, Clone, PartialEq)]
pub struct ServerboundUpdateCommandBlockMinecart {
    pub raw: Vec<u8>,
}

pub struct ServerboundUpdateCommandBlockMinecartView {
    pub raw: Seq<u8>,
}

impl View for ServerboundUpdateCommandBlockMinecart {
    type V = ServerboundUpdateCommandBlockMinecartView;

    open spec fn view(&self) -> ServerboundUpdateCommandBlockMinecartView {
        ServerboundUpdateCommandBlockMinecartView {
            raw: self.raw@,
        }
    }
}

impl PacketId for ServerboundUpdateCommandBlockMinecart {
    open spec fn spec_packet_id(ver: u32) -> u8 {
        0x27
    }

    fn packet_id(_ver: u32) -> (r: u8) {
        0x27
    }
}

impl WireFormat for ServerboundUpdateCommandBlockMinecart {
    open spec fn spec_encode(p: ServerboundUpdateCommandBlockMinecartView) -> Seq<u8> {
        p.raw
    }

    open spec fn spec_decode(s: Seq<u8>) -> Parsed<ServerboundUpdateCommandBlockMinecartView> {
        then(take_rest(s), |raw: Seq<u8>, s: Seq<u8>| (Ok(ServerboundUpdateCommandBlockMinecartView { raw }), s))
    }
}

impl Roundtrip for ServerboundUpdateCommandBlockMinecart {
    open spec fn encodable(p: ServerboundUpdateCommandBlockMinecartView) -> bool {
        true
    }

    open spec fn reads_to_end() -> bool {
        true
    }

    proof fn lemma_roundtrip(p: ServerboundUpdateCommandBlockMinecartView, rest: Seq<u8>) {
        broadcast use group_wire_roundtrip;

        assert(p.raw + rest =~= p.raw);
    }
}

impl Encode for ServerboundUpdateCommandBlockMinecart {
    fn encode(&self, dst: &mut BytesMut) -> (r: Result<(), ProtocolError>) {
        let ghost d0 = bytes_mut_data(*dst);
        put_slice(dst, self.raw.as_slice());
        let ghost mut e: Seq<u8> = self@.raw;
        Ok(())
    }
}

impl Decode for ServerboundUpdateCommandBlockMinecart {
    fn decode(src: &mut Bytes) -> (r: Result<Self, ProtocolError>) {
        let raw = take_remaining(src);
        Ok(Self { raw })
    }
}

// ── ServerboundCreativeModeSlot ───────────────────────────────────────

#[derive(Debug, Clone, PartialEq)]
pub struct ServerboundCreativeModeSlot {
    pub raw: Vec<u8>,
}

pub struct ServerboundCreativeModeSlotView {
    pub raw: Seq<u8>,
}

impl View for ServerboundCreativeModeSlot {
    type V = ServerboundCreativeModeSlotView;

    open spec fn view(&self) -> ServerboundCreativeModeSlotView {
        ServerboundCreativeModeSlotView {
            raw: self.raw@,
        }
    }
}

impl PacketId for ServerboundCreativeModeSlot {
    open spec fn spec_packet_id(ver: u32) -> u8 {
        0x28
    }

    fn packet_id(_ver: u32) -> (r: u8) {
        0x28
    }
}

impl WireFormat for ServerboundCreativeModeSlot {
    open spec fn spec_encode(p: ServerboundCreativeModeSlotView) -> Seq<u8> {
        p.raw
    }

    open spec fn spec_decode(s: Seq<u8>) -> Parsed<ServerboundCreativeModeSlotView> {
        then(take_rest(s), |raw: Seq<u8>, s: Seq<u8>| (Ok(ServerboundCreativeModeSlotView { raw }), s))
    }
}

impl Roundtrip for ServerboundCreativeModeSlot {
    open spec fn encodable(p: ServerboundCreativeModeSlotView) -> bool {
        true
    }

    open spec fn reads_to_end() -> bool {
        true
    }

    proof fn lemma_roundtrip(p: ServerboundCreativeModeSlotView, rest: Seq<u8>) {
        broadcast use group_wire_roundtrip;

        assert(p.raw + rest =~= p.raw);
    }
}

impl Encode for ServerboundCreativeModeSlot {
    fn encode(&self, dst: &mut BytesMut) -> (r: Result<(), ProtocolError>) {
        let ghost d0 = bytes_mut_data(*dst);
        put_slice(dst, self.raw.as_slice());
        let ghost mut e: Seq<u8> = self@.raw;
        Ok(())
    }
}

impl Decode for ServerboundCreativeModeSlot {
    fn decode(src: &mut Bytes) -> (r: Result<Self, ProtocolError>) {
        let raw = take_remaining(src);
        Ok(Self { raw })
    }
}

// ── ServerboundUpdateJigsawBlock ──────────────────────────────────────

#[derive(Debug, Clone, PartialEq)]
pub struct ServerboundUpdateJigsawBlock {
    pub raw: Vec<u8>,
}

pub struct ServerboundUpdateJigsawBlockView {
    pub raw: Seq<u8>,
}

impl View for ServerboundUpdateJigsawBlock {
    type V = ServerboundUpdateJigsawBlockView;

    open spec fn view(&self) -> ServerboundUpdateJigsawBlockView {
        ServerboundUpdateJigsawBlockView {
            raw: self.raw@,
        }
    }
}

impl PacketId for ServerboundUpdateJigsawBlock {
    open spec fn spec_packet_id(ver: u32) -> u8 {
        0x29
    }

    fn packet_id(_ver: u32) -> (r: u8) {
        0x29
    }
}

impl WireFormat for ServerboundUpdateJigsawBlock {
    open spec fn spec_encode(p: ServerboundUpdateJigsawBlockView) -> Seq<u8> {
        p.raw
    }

    open spec fn spec_decode(s: Seq<u8>) -> Parsed<ServerboundUpdateJigsawBlockView> {
        then(take_rest(s), |raw: Seq<u8>, s: Seq<u8>| (Ok(ServerboundUpdateJigsawBlockView { raw }), s))
    }
}

impl Roundtrip for ServerboundUpdateJigsawBlock {
    open spec fn encodable(p: ServerboundUpdateJigsawBlockView) -> bool {
        true
    }

    open spec fn reads_to_end() -> bool {
        true
    }

    proof fn lemma_roundtrip(p: ServerboundUpdateJigsawBlockView, rest: Seq<u8>) {
        broadcast use group_wire_roundtrip;

        assert(p.raw + rest =~= p.raw);
    }
}

impl Encode for ServerboundUpdateJigsawBlock {
    fn encode(&self, dst: &mut BytesMut) -> (r: Result<(), ProtocolError>) {
        let ghost d0 = bytes_mut_data(*dst);
        put_slice(dst, self.raw.as_slice());
        let ghost mut e: Seq<u8> = self@.raw;
        Ok(())
    }
}

impl Decode for ServerboundUpdateJigsawBlock {
    fn decode(src: &mut Bytes) -> (r: Result<Self, ProtocolError>) {
        let raw = take_remaining(src);
        Ok(Self { raw })
    }
}

// ── ServerboundUpdateStructureBlock ───────────────────────────────────

#[derive(Debug, Clone, PartialEq)]
pub struct ServerboundUpdateStructureBlock {
    pub raw: Vec<u8>,
}

pub struct ServerboundUpdateStructureBlockView {
    pub raw: Seq<u8>,
}

impl View for ServerboundUpdateStructureBlock {
    type V = ServerboundUpdateStructureBlockView;

    open spec fn view(&self) -> ServerboundUpdateStructureBlockView {
        ServerboundUpdateStructureBlockView {
            raw: self.raw@,
        }
    }
}

impl PacketId for ServerboundUpdateStructureBlock {
    open spec fn spec_packet_id(ver: u32) -> u8 {
        0x2A
    }

    fn packet_id(_ver: u32) -> (r: u8) {
        0x2A
    }
}

impl WireFormat for ServerboundUpdateStructureBlock {
    open spec fn spec_encode(p: ServerboundUpdateStructureBlockView) -> Seq<u8> {
        p.raw
    }

    open spec fn spec_decode(s: Seq<u8>) -> Parsed<ServerboundUpdateStructureBlockView> {
        then(take_rest(s), |raw: Seq<u8>, s: Seq<u8>| (Ok(ServerboundUpdateStructureBlockView { raw }), s))
    }
}

impl Roundtrip for ServerboundUpdateStructureBlock {
    open spec fn encodable(p: ServerboundUpdateStructureBlockView) -> bool {
        true
    }

    open spec fn reads_to_end() -> bool {
        true
    }

    proof fn lemma_roundtrip(p: ServerboundUpdateStructureBlockView, rest: Seq<u8>) {
        broadcast use group_wire_roundtrip;

        assert(p.raw + rest =~= p.raw);
    }
}

impl Encode for ServerboundUpdateStructureBlock {
    fn encode(&self, dst: &mut BytesMut) -> (r: Result<(), ProtocolError>) {
        let ghost d0 = bytes_mut_data(*dst);
        put_slice(dst, self.raw.as_slice());
        let ghost mut e: Seq<u8> = self@.raw;
        Ok(())
    }
}

impl Decode for ServerboundUpdateStructureBlock {
    fn decode(src: &mut Bytes) -> (r: Result<Self, ProtocolError>) {
        let raw = take_remaining(src);
        Ok(Self { raw })
    }
}

// ── ServerboundUpdateSign ─────────────────────────────────────────────

#[derive(Debug, Clone, PartialEq)]
pub struct ServerboundUpdateSign {
    pub raw: Vec<u8>,
}

pub struct ServerboundUpdateSignView {
    pub raw: Seq<u8>,
}

impl View for ServerboundUpdateSign {
    type V = ServerboundUpdateSignView;

    open spec fn view(&self) -> ServerboundUpdateSignView {
        ServerboundUpdateSignView {
            raw: self.raw@,
        }
    }
}

impl PacketId for ServerboundUpdateSign {
    open spec fn spec_packet_id(ver: u32) -> u8 {
        0x2B
    }

    fn packet_id(_ver: u32) -> (r: u8) {
        0x2B
    }
}

impl WireFormat for ServerboundUpdateSign {
    open spec fn spec_encode(p: ServerboundUpdateSignView) -> Seq<u8> {
        p.raw
    }

    open spec fn spec_decode(s: Seq<u8>) -> Parsed<ServerboundUpdateSignView> {
        then(take_rest(s), |raw: Seq<u8>, s: Seq<u8>| (Ok(ServerboundUpdateSignView { raw }), s))
    }
}

impl Roundtrip for ServerboundUpdateSign {
    open spec fn encodable(p: ServerboundUpdateSignView) -> bool {
        true
    }

    open spec fn reads_to_end() -> bool {
        true
    }

    proof fn lemma_roundtrip(p: ServerboundUpdateSignView, rest: Seq<u8>) {
        broadcast use group_wire_roundtrip;

        assert(p.raw + rest =~= p.raw);
    }
}

impl Encode for ServerboundUpdateSign {
    fn encode(&self, dst: &mut BytesMut) -> (r: Result<(), ProtocolError>) {
        let ghost d0 = bytes_mut_data(*dst);
        put_slice(dst, self.raw.as_slice());
        let ghost mut e: Seq<u8> = self@.raw;
        Ok(())
    }
}

impl Decode for ServerboundUpdateSign {
    fn decode(src: &mut Bytes) -> (r: Result<Self, ProtocolError>) {
        let raw = take_remaining(src);
        Ok(Self { raw })
    }
}

// ── ServerboundSwingArm ───────────────────────────────────────────────

#[derive(Debug, Clone, PartialEq)]
pub struct ServerboundSwingArm {
    pub raw: Vec<u8>,
}

pub struct ServerboundSwingArmView {
    pub raw: Seq<u8>,
}

impl View for ServerboundSwingArm {
    type V = ServerboundSwingArmView;

    open spec fn view(&self) -> ServerboundSwingArmView {
        ServerboundSwingArmView {
            raw: self.raw@,
        }
    }
}

impl PacketId for ServerboundSwingArm {
    open spec fn spec_packet_id(ver: u32) -> u8 {
        0x2C
    }

    fn packet_id(_ver: u32) -> (r: u8) {
        0x2C
    }
}

impl WireFormat for ServerboundSwingArm {
    open spec fn spec_encode(p: ServerboundSwingArmView) -> Seq<u8> {
        p.raw
    }

    open spec fn spec_decode(s: Seq<u8>) -> Parsed<ServerboundSwingArmView> {
        then(take_rest(s), |raw: Seq<u8>, s: Seq<u8>| (Ok(ServerboundSwingArmView { raw }), s))
    }
}

impl Roundtrip for ServerboundSwingArm {
    open spec fn encodable(p: ServerboundSwingArmView) -> bool {
        true
    }

    open spec fn reads_to_end() -> bool {
        true
    }

    proof fn lemma_roundtrip(p: ServerboundSwingArmView, rest: Seq<u8>) {
        broadcast use group_wire_roundtrip;

        assert(p.raw + rest =~= p.raw);
    }
}

impl Encode for ServerboundSwingArm {
    fn encode(&self, dst: &mut BytesMut) -> (r: Result<(), ProtocolError>) {
        let ghost d0 = bytes_mut_data(*dst);
        put_slice(dst, self.raw.as_slice());
        let ghost mut e: Seq<u8> = self@.raw;
        Ok(())
    }
}

impl Decode for ServerboundSwingArm {
    fn decode(src: &mut Bytes) -> (r: Result<Self, ProtocolError>) {
        let raw = take_remaining(src);
        Ok(Self { raw })
    }
}

// ── ServerboundSpectate ───────────────────────────────────────────────

#[derive(Debug, Clone, PartialEq)]
pub struct ServerboundSpectate {
    pub raw: Vec<u8>,
}

pub struct ServerboundSpectateView {
    pub raw: Seq<u8>,
}

impl View for ServerboundSpectate {
    type V = ServerboundSpectateView;

    open spec fn view(&self) -> ServerboundSpectateView {
        ServerboundSpectateView {
            raw: self.raw@,
        }
    }
}

impl PacketId for ServerboundSpectate {
    open spec fn spec_packet_id(ver: u32) -> u8 {
        0x2D
    }

    fn packet_id(_ver: u32) -> (r: u8) {
        0x2D
    }
}

impl WireFormat for ServerboundSpectate {
    open spec fn spec_encode(p: ServerboundSpectateView) -> Seq<u8> {
        p.raw
    }

    open spec fn spec_decode(s: Seq<u8>) -> Parsed<ServerboundSpectateView> {
        then(take_rest(s), |raw: Seq<u8>, s: Seq<u8>| (Ok(ServerboundSpectateView { raw }), s))
    }
}

impl Roundtrip for ServerboundSpectate {
    open spec fn encodable(p: ServerboundSpectateView) -> bool {
        true
    }

    open spec fn reads_to_end() -> bool {
        true
    }

    proof fn lemma_roundtrip(p: ServerboundSpectateView, rest: Seq<u8>) {
        broadcast use group_wire_roundtrip;

        assert(p.raw + rest =~= p.raw);
    }
}

impl Encode for ServerboundSpectate {
    fn encode(&self, dst: &mut BytesMut) -> (r: Result<(), ProtocolError>) {
        let ghost d0 = bytes_mut_data(*dst);
        put_slice(dst, self.raw.as_slice());
        let ghost mut e: Seq<u8> = self@.raw;
        Ok(())
    }
}

impl Decode for ServerboundSpectate {
    fn decode(src: &mut Bytes) -> (r: Result<Self, ProtocolError>) {
        let raw = take_remaining(src);
        Ok(Self { raw })
    }
}

// ── ServerboundPlayerBlockPlacement ───────────────────────────────────

#[derive(Debug, Clone, PartialEq)]
pub struct ServerboundPlayerBlockPlacement {
    pub raw: Vec<u8>,
}

pub struct ServerboundPlayerBlockPlacementView {
    pub raw: Seq<u8>,
}

impl View for ServerboundPlayerBlockPlacement {
    type V = ServerboundPlayerBlockPlacementView;

    open spec fn view(&self) -> ServerboundPlayerBlockPlacementView {
        ServerboundPlayerBlockPlacementView {
            raw: self.raw@,
        }
    }
}

impl PacketId for ServerboundPlayerBlockPlacement {
    open spec fn spec_packet_id(ver: u32) -> u8 {
        0x2E
    }

    fn packet_id(_ver: u32) -> (r: u8) {
        0x2E
    }
}

impl WireFormat for ServerboundPlayerBlockPlacement {
    open spec fn spec_encode(p: ServerboundPlayerBlockPlacementView) -> Seq<u8> {
        p.raw
    }

    open spec fn spec_decode(s: Seq<u8>) -> Parsed<ServerboundPlayerBlockPlacementView> {
        then(take_rest(s), |raw: Seq<u8>, s: Seq<u8>| (Ok(ServerboundPlayerBlockPlacementView { raw }), s))
    }
}

impl Roundtrip for ServerboundPlayerBlockPlacement {
    open spec fn encodable(p: ServerboundPlayerBlockPlacementView) -> bool {
        true
    }

    open spec fn reads_to_end() -> bool {
        true
    }

    proof fn lemma_roundtrip(p: ServerboundPlayerBlockPlacementView, rest: Seq<u8>) {
        broadcast use group_wire_roundtrip;

        assert(p.raw + rest =~= p.raw);
    }
}

impl Encode for ServerboundPlayerBlockPlacement {
    fn encode(&self, dst: &mut BytesMut) -> (r: Result<(), ProtocolError>) {
        let ghost d0 = bytes_mut_data(*dst);
        put_slice(dst, self.raw.as_slice());
        let ghost mut e: Seq<u8> = self@.raw;
        Ok(())
    }
}

impl Decode for ServerboundPlayerBlockPlacement {
    fn decode(src: &mut Bytes) -> (r: Result<Self, ProtocolError>) {
        let raw = take_remaining(src);
        Ok(Self { raw })
    }
}

// ── ServerboundUseItem ────────────────────────────────────────────────

#[derive(Debug, Clone, PartialEq)]
pub struct ServerboundUseItem {
    pub raw: Vec<u8>,
}

pub struct ServerboundUseItemView {
    pub raw: Seq<u8>,
}

impl View for ServerboundUseItem {
    type V = ServerboundUseItemView;

    open spec fn view(&self) -> ServerboundUseItemView {
        ServerboundUseItemView {
            raw: self.raw@,
        }
    }
}

impl PacketId for ServerboundUseItem {
    open spec fn spec_packet_id(ver: u32) -> u8 {
        0x2F
    }

    fn packet_id(_ver: u32) -> (r: u8) {
        0x2F
    }
}

impl WireFormat for ServerboundUseItem {
    open spec fn spec_encode(p: ServerboundUseItemView) -> Seq<u8> {
        p.raw
    }

    open spec fn spec_decode(s: Seq<u8>) -> Parsed<ServerboundUseItemView> {
        then(take_rest(s), |raw: Seq<u8>, s: Seq<u8>| (Ok(ServerboundUseItemView { raw }), s))
    }
}

impl Roundtrip for ServerboundUseItem {
    open spec fn encodable(p: ServerboundUseItemView) -> bool {
        true
    }

    open spec fn reads_to_end() -> bool {
        true
    }

    proof fn lemma_roundtrip(p: ServerboundUseItemView, rest: Seq<u8>) {
        broadcast use group_wire_roundtrip;

        assert(p.raw + rest =~= p.raw);
    }
}

impl Encode for ServerboundUseItem {
    fn encode(&self, dst: &mut BytesMut) -> (r: Result<(), ProtocolError>) {
        let ghost d0 = bytes_mut_data(*dst);
        put_slice(dst, self.raw.as_slice());
        let ghost mut e: Seq<u8> = self@.raw;
        Ok(())
    }
}

impl Decode for ServerboundUseItem {
    fn decode(src: &mut Bytes) -> (r: Result<Self, ProtocolError>) {
        let raw = take_remaining(src);
        Ok(Self { raw })
    }
}

// ── ServerboundUseEntity ──────────────────────────────────────────────

#[derive(Debug, Clone, PartialEq)]
pub struct ServerboundUseEntity {
    pub raw: Vec<u8>,
}

pub struct ServerboundUseEntityView {
    pub raw: Seq<u8>,
}

impl View for ServerboundUseEntity {
    type V = ServerboundUseEntityView;

    open spec fn view(&self) -> ServerboundUseEntityView {
        ServerboundUseEntityView {
            raw: self.raw@,
        }
    }
}

impl PacketId for ServerboundUseEntity {
    open spec fn spec_packet_id(ver: u32) -> u8 {
        0x0E
    }

    fn packet_id(_ver: u32) -> (r: u8) {
        0x0E
    }
}

impl WireFormat for ServerboundUseEntity {
    open spec fn spec_encode(p: ServerboundUseEntityView) -> Seq<u8> {
        p.raw
    }

    open spec fn spec_decode(s: Seq<u8>) -> Parsed<ServerboundUseEntityView> {
        then(take_rest(s), |raw: Seq<u8>, s: Seq<u8>| (Ok(ServerboundUseEntityView { raw }), s))
    }
}

impl Roundtrip for ServerboundUseEntity {
    open spec fn encodable(p: ServerboundUseEntityView) -> bool {
        true
    }

    open spec fn reads_to_end() -> bool {
        true
    }

    proof fn lemma_roundtrip(p: ServerboundUseEntityView, rest: Seq<u8>) {
        broadcast use group_wire_roundtrip;

        assert(p.raw + rest =~= p.raw);
    }
}

impl Encode for ServerboundUseEntity {
    fn encode(&self, dst: &mut BytesMut) -> (r: Result<(), ProtocolError>) {
        let ghost d0 = bytes_mut_data(*dst);
        put_slice(dst, self.raw.as_slice());
        let ghost mut e: Seq<u8> = self@.raw;
        Ok(())
    }
}

impl Decode for ServerboundUseEntity {
    fn decode(src: &mut Bytes) -> (r: Result<Self, ProtocolError>) {
        let raw = take_remaining(src);
        Ok(Self { raw })
    }
}

// ── ClientboundNamedSoundEffect ───────────────────────────────────────

#[derive(Debug, Clone, PartialEq)]
pub struct ClientboundNamedSoundEffect {
    pub sound_name: String,
    pub sound_category: VarInt,
    pub effect_position_x: i32,
    pub effect_position_y: i32,
    pub effect_position_z: i32,
    /// The bits of the `f32` value (`f32::to_bits`).
    pub volume: u32,
    /// The bits of the `f32` value (`f32::to_bits`).
    pub pitch: u32,
}

pub struct ClientboundNamedSoundEffectView {
    pub sound_name: Seq<char>,
    pub sound_category: VarInt,
    pub effect_position_x: i32,
    pub effect_position_y: i32,
    pub effect_position_z: i32,
    pub volume: u32,
    pub pitch: u32,
}

impl View for ClientboundNamedSoundEffect {
    type V = ClientboundNamedSoundEffectView;

    open spec fn view(&self) -> ClientboundNamedSoundEffectView {
        ClientboundNamedSoundEffectView {
            sound_name: self.sound_name@,
            sound_category: self.sound_category,
            effect_position_x: self.effect_position_x,
            effect_position_y: self.effect_position_y,
            effect_position_z: self.effect_position_z,
            volume: self.volume,
            pitch: self.pitch,
        }
    }
}

impl PacketId for ClientboundNamedSoundEffect {
    open spec fn spec_packet_id(ver: u32) -> u8 {
        0x19
    }

    fn packet_id(_ver: u32) -> (r: u8) {
        0x19
    }
}

impl WireFormat for ClientboundNamedSoundEffect {
    open spec fn spec_encode(p: ClientboundNamedSoundEffectView) -> Seq<u8> {
        string_wire(p.sound_name) + VarInt::spec_encode(p.sound_category) + be_i32_bytes(p.effect_position_x) + be_i32_bytes(p.effect_position_y) + be_i32_bytes(p.effect_position_z) + be_u32_bytes(p.volume) + be_u32_bytes(p.pitch)
    }

    open spec fn spec_decode(s: Seq<u8>) -> Parsed<ClientboundNamedSoundEffectView> {
        then(string_spec(s), |sound_name: Seq<char>, s: Seq<u8>| then(VarInt::spec_decode(s), |sound_category: VarInt, s: Seq<u8>| then(need_msg_spec(s, 20, "Missing bytes for ClientboundNamedSoundEffect position/volume/pitch"@), |_u: (), s: Seq<u8>| then(take_i32(s), |effect_position_x: i32, s: Seq<u8>| then(take_i32(s), |effect_position_y: i32, s: Seq<u8>| then(take_i32(s), |effect_position_z: i32, s: Seq<u8>| then(take_u32(s), |volume: u32, s: Seq<u8>| then(take_u32(s), |pitch: u32, s: Seq<u8>| (Ok(ClientboundNamedSoundEffectView { sound_name, sound_category, effect_position_x, effect_position_y, effect_position_z, volume, pitch }), s)))))))))
    }
}

impl Roundtrip for ClientboundNamedSoundEffect {
    open spec fn encodable(p: ClientboundNamedSoundEffectView) -> bool {
        string_fits(p.sound_name)
    }

    open spec fn reads_to_end() -> bool {
        false
    }

    #[verifier::rlimit(100)]
    #[verifier::spinoff_prover]
    proof fn lemma_roundtrip(p: ClientboundNamedSoundEffectView, rest: Seq<u8>) {
        broadcast use group_wire_roundtrip;

        let t6 = be_u32_bytes(p.pitch) + rest;
        let t5 = be_u32_bytes(p.volume) + t6;
        let t4 = be_i32_bytes(p.effect_position_z) + t5;
        let t3 = be_i32_bytes(p.effect_position_y) + t4;
        let t2 = be_i32_bytes(p.effect_position_x) + t3;
        let t1 = VarInt::spec_encode(p.sound_category) + t2;
        lemma_concat_associative(string_wire(p.sound_name) + VarInt::spec_encode(p.sound_category) + be_i32_bytes(p.effect_position_x) + be_i32_bytes(p.effect_position_y) + be_i32_bytes(p.effect_position_z) + be_u32_bytes(p.volume), be_u32_bytes(p.pitch), rest);
        lemma_concat_associative(string_wire(p.sound_name) + VarInt::spec_encode(p.sound_category) + be_i32_bytes(p.effect_position_x) + be_i32_bytes(p.effect_position_y) + be_i32_bytes(p.effect_position_z), be_u32_bytes(p.volume), t6);
        lemma_concat_associative(string_wire(p.sound_name) + VarInt::spec_encode(p.sound_category) + be_i32_bytes(p.effect_position_x) + be_i32_bytes(p.effect_position_y), be_i32_bytes(p.effect_position_z), t5);
        lemma_concat_associative(string_wire(p.sound_name) + VarInt::spec_encode(p.sound_category) + be_i32_bytes(p.effect_position_x), be_i32_bytes(p.effect_position_y), t4);
        lemma_concat_associative(string_wire(p.sound_name) + VarInt::spec_encode(p.sound_category), be_i32_bytes(p.effect_position_x), t3);
        lemma_concat_associative(string_wire(p.sound_name), VarInt::spec_encode(p.sound_category), t2);
        lemma_string_field(p.sound_name, t1);
        VarInt::lemma_roundtrip(p.sound_category, t2);
    }
}

impl Encode for ClientboundNamedSoundEffect {
    fn encode(&self, dst: &mut BytesMut) -> (r: Result<(), ProtocolError>) {
        let ghost d0 = bytes_mut_data(*dst);
        encode_string(self.sound_name.as_str(), dst);
        let ghost mut e: Seq<u8> = string_wire(self@.sound_name);
        let _ = self.sound_category.encode(dst);
        proof {
            lemma_concat_associative(d0, e, VarInt::spec_encode(self@.sound_category));
            e = e + VarInt::spec_encode(self@.sound_category);
        }
        put_i32(dst, self.effect_position_x);
        proof {
            lemma_concat_associative(d0, e, be_i32_bytes(self@.effect_position_x));
            e = e + be_i32_bytes(self@.effect_position_x);
        }
        put_i32(dst, self.effect_position_y);
        proof {
            lemma_concat_associative(d0, e, be_i32_bytes(self@.effect_position_y));
            e = e + be_i32_bytes(self@.effect_position_y);
        }
        put_i32(dst, self.effect_position_z);
        proof {
            lemma_concat_associative(d0, e, be_i32_bytes(self@.effect_position_z));
            e = e + be_i32_bytes(self@.effect_position_z);
        }
        put_u32(dst, self.volume);
        proof {
            lemma_concat_associative(d0, e, be_u32_bytes(self@.volume));
            e = e + be_u32_bytes(self@.volume);
        }
        put_u32(dst, self.pitch);
        proof {
            lemma_concat_associative(d0, e, be_u32_bytes(self@.pitch));
            e = e + be_u32_bytes(self@.pitch);
        }
        Ok(())
    }
}

impl Decode for ClientboundNamedSoundEffect {
    fn decode(src: &mut Bytes) -> (r: Result<Self, ProtocolError>) {
        let sound_name = decode_string(src)?;
        let sound_category = VarInt::decode(src)?;
        need_msg(src, 20, "Missing bytes for ClientboundNamedSoundEffect position/volume/pitch")?;
        let effect_position_x = get_i32(src);
        let effect_position_y = get_i32(src);
        let effect_position_z = get_i32(src);
        let volume = get_u32(src);
        let pitch = get_u32(src);
        Ok(Self { sound_name, sound_category, effect_position_x, effect_position_y, effect_position_z, volume, pitch })
    }
}

// ── ClientboundJoinGame ───────────────────────────────────────────────

#[derive(Debug, Clone, PartialEq)]
pub struct ClientboundJoinGame {
    pub entity_id: i32,
    pub is_hardcore: bool,
    pub game_mode: u8,
    pub previous_game_mode: i8,
    pub world_names: Vec<String>,
    pub dimension: String,
    pub world_name: String,
    pub hashed_seed: i64,
    pub max_players: VarInt,
    pub view_distance: VarInt,
    pub reduced_debug_info: bool,
    pub enable_respawn_screen: bool,
    pub is_debug: bool,
    pub is_flat: bool,
}

pub struct ClientboundJoinGameView {
    pub entity_id: i32,
    pub is_hardcore: bool,
    pub game_mode: u8,
    pub previous_game_mode: i8,
    pub world_names: Seq<Seq<char>>,
    pub dimension: Seq<char>,
    pub world_name: Seq<char>,
    pub hashed_seed: i64,
    pub max_players: VarInt,
    pub view_distance: VarInt,
    pub reduced_debug_info: bool,
    pub enable_respawn_screen: bool,
    pub is_debug: bool,
    pub is_flat: bool,
}

impl View for ClientboundJoinGame {
    type V = ClientboundJoinGameView;

    open spec fn view(&self) -> ClientboundJoinGameView {
        ClientboundJoinGameView {
            entity_id: self.entity_id,
            is_hardcore: self.is_hardcore,
            game_mode: self.game_mode,
            previous_game_mode: self.previous_game_mode,
            world_names: strings_view(self.world_names@),
            dimension: self.dimension@,
            world_name: self.world_name@,
            hashed_seed: self.hashed_seed,
            max_players: self.max_players,
            view_distance: self.view_distance,
            reduced_debug_info: self.reduced_debug_info,
            enable_respawn_screen: self.enable_respawn_screen,
            is_debug: self.is_debug,
            is_flat: self.is_flat,
        }
    }
}

impl PacketId for ClientboundJoinGame {
    open spec fn spec_packet_id(ver: u32) -> u8 {
        0x24
    }

    fn packet_id(_ver: u32) -> (r: u8) {
        0x24
    }
}

impl WireFormat for ClientboundJoinGame {
    open spec fn spec_encode(p: ClientboundJoinGameView) -> Seq<u8> {
        be_i32_bytes(p.entity_id) + seq![bool_byte(p.is_hardcore)] + seq![p.game_mode] + seq![p.previous_game_mode as u8] + string_list_wire(p.world_names) + string_wire(p.dimension) + string_wire(p.world_name) + be_i64_bytes(p.hashed_seed) + VarInt::spec_encode(p.max_players) + VarInt::spec_encode(p.view_distance) + seq![bool_byte(p.reduced_debug_info)] + seq![bool_byte(p.enable_respawn_screen)] + seq![bool_byte(p.is_debug)] + seq![bool_byte(p.is_flat)]
    }

    open spec fn spec_decode(s: Seq<u8>) -> Parsed<ClientboundJoinGameView> {
        then(need_msg_spec(s, 4, "Missing bytes for ClientboundJoinGame entity_id"@), |_u: (), s: Seq<u8>| then(take_i32(s), |entity_id: i32, s: Seq<u8>| then(need_msg_spec(s, 3, "Missing bytes for ClientboundJoinGame flags"@), |_u: (), s: Seq<u8>| then(take_bool(s), |is_hardcore: bool, s: Seq<u8>| then(take_u8(s), |game_mode: u8, s: Seq<u8>| then(take_i8(s), |previous_game_mode: i8, s: Seq<u8>| then(string_list_spec(s), |world_names: Seq<Seq<char>>, s: Seq<u8>| then(string_spec(s), |dimension: Seq<char>, s: Seq<u8>| then(string_spec(s), |world_name: Seq<char>, s: Seq<u8>| then(need_msg_spec(s, 8, "Missing bytes for ClientboundJoinGame hashed_seed"@), |_u: (), s: Seq<u8>| then(take_i64(s), |hashed_seed: i64, s: Seq<u8>| then(VarInt::spec_decode(s), |max_players: VarInt, s: Seq<u8>| then(VarInt::spec_decode(s), |view_distance: VarInt, s: Seq<u8>| then(need_msg_spec(s, 4, "Missing bytes for ClientboundJoinGame boolean flags"@), |_u: (), s: Seq<u8>| then(take_bool(s), |reduced_debug_info: bool, s: Seq<u8>| then(take_bool(s), |enable_respawn_screen: bool, s: Seq<u8>| then(take_bool(s), |is_debug: bool, s: Seq<u8>| then(take_bool(s), |is_flat: bool, s: Seq<u8>| (Ok(ClientboundJoinGameView { entity_id, is_hardcore, game_mode, previous_game_mode, world_names, dimension, world_name, hashed_seed, max_players, view_distance, reduced_debug_info, enable_respawn_screen, is_debug, is_flat }), s)))))))))))))))))))
    }
}

impl Roundtrip for ClientboundJoinGame {
    open spec fn encodable(p: ClientboundJoinGameView) -> bool {
        string_list_fits(p.world_names) && string_fits(p.dimension) && string_fits(p.world_name)
    }

    open spec fn reads_to_end() -> bool {
        false
    }

    #[verifier::rlimit(100)]
    #[verifier::spinoff_prover]
    proof fn lemma_roundtrip(p: ClientboundJoinGameView, rest: Seq<u8>) {
        broadcast use group_wire_roundtrip;

        let t13 = seq![bool_byte(p.is_flat)] + rest;
        let t12 = seq![bool_byte(p.is_debug)] + t13;
        let t11 = seq![bool_byte(p.enable_respawn_screen)] + t12;
        let t10 = seq![bool_byte(p.reduced_debug_info)] + t11;
        let t9 = VarInt::spec_encode(p.view_distance) + t10;
        let t8 = VarInt::spec_encode(p.max_players) + t9;
        let t7 = be_i64_bytes(p.hashed_seed) + t8;
        let t6 = string_wire(p.world_name) + t7;
        let t5 = string_wire(p.dimension) + t6;
        let t4 = string_list_wire(p.world_names) + t5;
        let t3 = seq![p.previous_game_mode as u8] + t4;
        let t2 = seq![p.game_mode] + t3;
        let t1 = seq![bool_byte(p.is_hardcore)] + t2;
        lemma_concat_associative(be_i32_bytes(p.entity_id) + seq![bool_byte(p.is_hardcore)] + seq![p.game_mode] + seq![p.previous_game_mode as u8] + string_list_wire(p.world_names) + string_wire(p.dimension) + string_wire(p.world_name) + be_i64_bytes(p.hashed_seed) + VarInt::spec_encode(p.max_players) + VarInt::spec_encode(p.view_distance) + seq![bool_byte(p.reduced_debug_info)] + seq![bool_byte(p.enable_respawn_screen)] + seq![bool_byte(p.is_debug)], seq![bool_byte(p.is_flat)], rest);
        lemma_concat_associative(be_i32_bytes(p.entity_id) + seq![bool_byte(p.is_hardcore)] + seq![p.game_mode] + seq![p.previous_game_mode as u8] + string_list_wire(p.world_names) + string_wire(p.dimension) + string_wire(p.world_name) + be_i64_bytes(p.hashed_seed) + VarInt::spec_encode(p.max_players) + VarInt::spec_encode(p.view_distance) + seq![bool_byte(p.reduced_debug_info)] + seq![bool_byte(p.enable_respawn_screen)], seq![bool_byte(p.is_debug)], t13);
        lemma_concat_associative(be_i32_bytes(p.entity_id) + seq![bool_byte(p.is_hardcore)] + seq![p.game_mode] + seq![p.previous_game_mode as u8] + string_list_wire(p.world_names) + string_wire(p.dimension) + string_wire(p.world_name) + be_i64_bytes(p.hashed_seed) + VarInt::spec_encode(p.max_players) + VarInt::spec_encode(p.view_distance) + seq![bool_byte(p.reduced_debug_info)], seq![bool_byte(p.enable_respawn_screen)], t12);
        lemma_concat_associative(be_i32_bytes(p.entity_id) + seq![bool_byte(p.is_hardcore)] + seq![p.game_mode] + seq![p.previous_game_mode as u8] + string_list_wire(p.world_names) + string_wire(p.dimension) + string_wire(p.world_name) + be_i64_bytes(p.hashed_seed) + VarInt::spec_encode(p.max_players) + VarInt::spec_encode(p.view_distance), seq![bool_byte(p.reduced_debug_info)], t11);
        lemma_concat_associative(be_i32_bytes(p.entity_id) + seq![bool_byte(p.is_hardcore)] + seq![p.game_mode] + seq![p.previous_game_mode as u8] + string_list_wire(p.world_names) + string_wire(p.dimension) + string_wire(p.world_name) + be_i64_bytes(p.hashed_seed) + VarInt::spec_encode(p.max_players), VarInt::spec_encode(p.view_distance), t10);
        lemma_concat_associative(be_i32_bytes(p.entity_id) + seq![bool_byte(p.is_hardcore)] + seq![p.game_mode] + seq![p.previous_game_mode as u8] + string_list_wire(p.world_names) + string_wire(p.dimension) + string_wire(p.world_name) + be_i64_bytes(p.hashed_seed), VarInt::spec_encode(p.max_players), t9);
        lemma_concat_associative(be_i32_bytes(p.entity_id) + seq![bool_byte(p.is_hardcore)] + seq![p.game_mode] + seq![p.previous_game_mode as u8] + string_list_wire(p.world_names) + string_wire(p.dimension) + string_wire(p.world_name), be_i64_bytes(p.hashed_seed), t8);
        lemma_concat_associative(be_i32_bytes(p.entity_id) + seq![bool_byte(p.is_hardcore)] + seq![p.game_mode] + seq![p.previous_game_mode as u8] + string_list_wire(p.world_names) + string_wire(p.dimension), string_wire(p.world_name), t7);
        lemma_concat_associative(be_i32_bytes(p.entity_id) + seq![bool_byte(p.is_hardcore)] + seq![p.game_mode] + seq![p.previous_game_mode as u8] + string_list_wire(p.world_names), string_wire(p.dimension), t6);
        lemma_concat_associative(be_i32_bytes(p.entity_id) + seq![bool_byte(p.is_hardcore)] + seq![p.game_mode] + seq![p.previous_game_mode as u8], string_list_wire(p.world_names), t5);
        lemma_concat_associative(be_i32_bytes(p.entity_id) + seq![bool_byte(p.is_hardcore)] + seq![p.game_mode], seq![p.previous_game_mode as u8], t4);
        lemma_concat_associative(be_i32_bytes(p.entity_id) + seq![bool_byte(p.is_hardcore)], seq![p.game_mode], t3);
        lemma_concat_associative(be_i32_bytes(p.entity_id), seq![bool_byte(p.is_hardcore)], t2);
        lemma_string_list_field(p.world_names, t5);
        lemma_string_field(p.dimension, t6);
        lemma_string_field(p.world_name, t7);
        VarInt::lemma_roundtrip(p.max_players, t9);
        VarInt::lemma_roundtrip(p.view_distance, t10);
    }
}

impl ClientboundJoinGame {
    /// Writes the fields up to `world_name`.
    fn encode_front(&self, dst: &mut BytesMut)
        ensures
            bytes_mut_data(*final(dst)) == bytes_mut_data(*old(dst)) + (be_i32_bytes(self@.entity_id) + seq![bool_byte(self@.is_hardcore)] + seq![self@.game_mode] + seq![self@.previous_game_mode as u8] + string_list_wire(self@.world_names) + string_wire(self@.dimension) + string_wire(self@.world_name)),
    {
        let ghost d0 = bytes_mut_data(*dst);
        put_i32(dst, self.entity_id);
        let ghost mut e: Seq<u8> = be_i32_bytes(self@.entity_id);
        put_u8(dst, self.is_hardcore as u8);
        proof {
            lemma_concat_associative(d0, e, seq![bool_byte(self@.is_hardcore)]);
            e = e + seq![bool_byte(self@.is_hardcore)];
        }
        put_u8(dst, self.game_mode);
        proof {
            lemma_concat_associative(d0, e, seq![self@.game_mode]);
            e = e + seq![self@.game_mode];
        }
        put_i8(dst, self.previous_game_mode);
        proof {
            lemma_concat_associative(d0, e, seq![self@.previous_game_mode as u8]);
            e = e + seq![self@.previous_game_mode as u8];
        }
        encode_string_list(&self.world_names, dst);
        proof {
            lemma_concat_associative(d0, e, string_list_wire(self@.world_names));
            e = e + string_list_wire(self@.world_names);
        }
        encode_string(self.dimension.as_str(), dst);
        proof {
            lemma_concat_associative(d0, e, string_wire(self@.dimension));
            e = e + string_wire(self@.dimension);
        }
        encode_string(self.world_name.as_str(), dst);
        proof {
            lemma_concat_associative(d0, e, string_wire(self@.world_name));
            e = e + string_wire(self@.world_name);
        }
    }
}

impl Encode for ClientboundJoinGame {
    #[verifier::rlimit(100)]
    #[verifier::spinoff_prover]
    fn encode(&self, dst: &mut BytesMut) -> (r: Result<(), ProtocolError>) {
        let ghost d0 = bytes_mut_data(*dst);
        self.encode_front(dst);
        let ghost mut e: Seq<u8> = be_i32_bytes(self@.entity_id) + seq![bool_byte(self@.is_hardcore)] + seq![self@.game_mode] + seq![self@.previous_game_mode as u8] + string_list_wire(self@.world_names) + string_wire(self@.dimension) + string_wire(self@.world_name);
        put_i64(dst, self.hashed_seed);
        proof {
            lemma_concat_associative(d0, e, be_i64_bytes(self@.hashed_seed));
            e = e + be_i64_bytes(self@.hashed_seed);
        }
        let _ = self.max_players.encode(dst);
        proof {
            lemma_concat_associative(d0, e, VarInt::spec_encode(self@.max_players));
            e = e + VarInt::spec_encode(self@.max_players);
        }
        let _ = self.view_distance.encode(dst);
        proof {
            lemma_concat_associative(d0, e, VarInt::spec_encode(self@.view_distance));
            e = e + VarInt::spec_encode(self@.view_distance);
        }
        put_u8(dst, self.reduced_debug_info as u8);
        proof {
            lemma_concat_associative(d0, e, seq![bool_byte(self@.reduced_debug_info)]);
            e = e + seq![bool_byte(self@.reduced_debug_info)];
        }
        put_u8(dst, self.enable_respawn_screen as u8);
        proof {
            lemma_concat_associative(d0, e, seq![bool_byte(self@.enable_respawn_screen)]);
            e = e + seq![bool_byte(self@.enable_respawn_screen)];
        }
        put_u8(dst, self.is_debug as u8);
        proof {
            lemma_concat_associative(d0, e, seq![bool_byte(self@.is_debug)]);
            e = e + seq![bool_byte(self@.is_debug)];
        }
        put_u8(dst, self.is_flat as u8);
        proof {
            lemma_concat_associative(d0, e, seq![bool_byte(self@.is_flat)]);
            e = e + seq![bool_byte(self@.is_flat)];
        }
        Ok(())
    }
}

impl Decode for ClientboundJoinGame {
    #[verifier::rlimit(100)]
    #[verifier::spinoff_prover]
    fn decode(src: &mut Bytes) -> (r: Result<Self, ProtocolError>) {
        need_msg(src, 4, "Missing bytes for ClientboundJoinGame entity_id")?;
        let entity_id = get_i32(src);
        need_msg(src, 3, "Missing bytes for ClientboundJoinGame flags")?;
        let is_hardcore = get_u8(src) != 0;
        let game_mode = get_u8(src);
        let previous_game_mode = get_i8(src);
        let world_names = decode_string_list(src)?;
        let dimension = decode_string(src)?;
        let world_name = decode_string(src)?;
        need_msg(src, 8, "Missing bytes for ClientboundJoinGame hashed_seed")?;
        let hashed_seed = get_i64(src);
        let max_players = VarInt::decode(src)?;
        let view_distance = VarInt::decode(src)?;
        need_msg(src, 4, "Missing bytes for ClientboundJoinGame boolean flags")?;
        let reduced_debug_info = get_u8(src) != 0;
        let enable_respawn_screen = get_u8(src) != 0;
        let is_debug = get_u8(src) != 0;
        let is_flat = get_u8(src) != 0;
        Ok(Self { entity_id, is_hardcore, game_mode, previous_game_mode, world_names, dimension, world_name, hashed_seed, max_players, view_distance, reduced_debug_info, enable_respawn_screen, is_debug, is_flat })
    }
}

// ── ClientboundRespawn ────────────────────────────────────────────────

#[derive(Debug, Clone, PartialEq)]
pub struct ClientboundRespawn {
    pub dimension: String,
    pub world_name: String,
    pub hashed_seed: i64,
    pub game_mode: u8,
    pub previous_game_mode: i8,
    pub is_debug: bool,
    pub is_flat: bool,
    pub copy_metadata: bool,
}

pub struct ClientboundRespawnView {
    pub dimension: Seq<char>,
    pub world_name: Seq<char>,
    pub hashed_seed: i64,
    pub game_mode: u8,
    pub previous_game_mode: i8,
    pub is_debug: bool,
    pub is_flat: bool,
    pub copy_metadata: bool,
}

impl View for ClientboundRespawn {
    type V = ClientboundRespawnView;

    open spec fn view(&self) -> ClientboundRespawnView {
        ClientboundRespawnView {
            dimension: self.dimension@,
            world_name: self.world_name@,
            hashed_seed: self.hashed_seed,
            game_mode: self.game_mode,
            previous_game_mode: self.previous_game_mode,
            is_debug: self.is_debug,
            is_flat: self.is_flat,
            copy_metadata: self.copy_metadata,
        }
    }
}

impl PacketId for ClientboundRespawn {
    open spec fn spec_packet_id(ver: u32) -> u8 {
        0x39
    }

    fn packet_id(_ver: u32) -> (r: u8) {
        0x39
    }
}

impl WireFormat for ClientboundRespawn {
    open spec fn spec_encode(p: ClientboundRespawnView) -> Seq<u8> {
        string_wire(p.dimension) + string_wire(p.world_name) + be_i64_bytes(p.hashed_seed) + seq![p.game_mode] + seq![p.previous_game_mode as u8] + seq![bool_byte(p.is_debug)] + seq![bool_byte(p.is_flat)] + seq![bool_byte(p.copy_metadata)]
    }

    open spec fn spec_decode(s: Seq<u8>) -> Parsed<ClientboundRespawnView> {
        then(string_spec(s), |dimension: Seq<char>, s: Seq<u8>| then(string_spec(s), |world_name: Seq<char>, s: Seq<u8>| then(need_msg_spec(s, 8, "Missing bytes for ClientboundRespawn hashed_seed"@), |_u: (), s: Seq<u8>| then(take_i64(s), |hashed_seed: i64, s: Seq<u8>| then(need_msg_spec(s, 3, "Missing bytes for ClientboundRespawn game modes"@), |_u: (), s: Seq<u8>| then(take_u8(s), |game_mode: u8, s: Seq<u8>| then(take_i8(s), |previous_game_mode: i8, s: Seq<u8>| then(need_msg_spec(s, 3, "Missing bytes for ClientboundRespawn flags"@), |_u: (), s: Seq<u8>| then(take_bool(s), |is_debug: bool, s: Seq<u8>| then(take_bool(s), |is_flat: bool, s: Seq<u8>| then(take_bool(s), |copy_metadata: bool, s: Seq<u8>| (Ok(ClientboundRespawnView { dimension, world_name, hashed_seed, game_mode, previous_game_mode, is_debug, is_flat, copy_metadata }), s))))))))))))
    }
}

impl Roundtrip for ClientboundRespawn {
    open spec fn encodable(p: ClientboundRespawnView) -> bool {
        string_fits(p.dimension) && string_fits(p.world_name)
    }

    open spec fn reads_to_end() -> bool {
        false
    }

    #[verifier::rlimit(100)]
    #[verifier::spinoff_prover]
    proof fn lemma_roundtrip(p: ClientboundRespawnView, rest: Seq<u8>) {
        broadcast use group_wire_roundtrip;

        let t7 = seq![bool_byte(p.copy_metadata)] + rest;
        let t6 = seq![bool_byte(p.is_flat)] + t7;
        let t5 = seq![bool_byte(p.is_debug)] + t6;
        let t4 = seq![p.previous_game_mode as u8] + t5;
        let t3 = seq![p.game_mode] + t4;
        let t2 = be_i64_bytes(p.hashed_seed) + t3;
        let t1 = string_wire(p.world_name) + t2;
        lemma_concat_associative(string_wire(p.dimension) + string_wire(p.world_name) + be_i64_bytes(p.hashed_seed) + seq![p.game_mode] + seq![p.previous_game_mode as u8] + seq![bool_byte(p.is_debug)] + seq![bool_byte(p.is_flat)], seq![bool_byte(p.copy_metadata)], rest);
        lemma_concat_associative(string_wire(p.dimension) + string_wire(p.world_name) + be_i64_bytes(p.hashed_seed) + seq![p.game_mode] + seq![p.previous_game_mode as u8] + seq![bool_byte(p.is_debug)], seq![bool_byte(p.is_flat)], t7);
        lemma_concat_associative(string_wire(p.dimension) + string_wire(p.world_name) + be_i64_bytes(p.hashed_seed) + seq![p.game_mode] + seq![p.previous_game_mode as u8], seq![bool_byte(p.is_debug)], t6);
        lemma_concat_associative(string_wire(p.dimension) + string_wire(p.world_name) + be_i64_bytes(p.hashed_seed) + seq![p.game_mode], seq![p.previous_game_mode as u8], t5);
        lemma_concat_associative(string_wire(p.dimension) + string_wire(p.world_name) + be_i64_bytes(p.hashed_seed), seq![p.game_mode], t4);
        lemma_concat_associative(string_wire(p.dimension) + string_wire(p.world_name), be_i64_bytes(p.hashed_seed), t3);
        lemma_concat_associative(string_wire(p.dimension), string_wire(p.world_name), t2);
        lemma_string_field(p.dimension, t1);
        lemma_string_field(p.world_name, t2);
    }
}

impl Encode for ClientboundRespawn {
    fn encode(&self, dst: &mut BytesMut) -> (r: Result<(), ProtocolError>) {
        let ghost d0 = bytes_mut_data(*dst);
        encode_string(self.dimension.as_str(), dst);
        let ghost mut e: Seq<u8> = string_wire(self@.dimension);
        encode_string(self.world_name.as_str(), dst);
        proof {
            lemma_concat_associative(d0, e, string_wire(self@.world_name));
            e = e + string_wire(self@.world_name);
        }
        put_i64(dst, self.hashed_seed);
        proof {
            lemma_concat_associative(d0, e, be_i64_bytes(self@.hashed_seed));
            e = e + be_i64_bytes(self@.hashed_seed);
        }
        put_u8(dst, self.game_mode);
        proof {
            lemma_concat_associative(d0, e, seq![self@.game_mode]);
            e = e + seq![self@.game_mode];
        }
        put_i8(dst, self.previous_game_mode);
        proof {
            lemma_concat_associative(d0, e, seq![self@.previous_game_mode as u8]);
            e = e + seq![self@.previous_game_mode as u8];
        }
        put_u8(dst, self.is_debug as u8);
        proof {
            lemma_concat_associative(d0, e, seq![bool_byte(self@.is_debug)]);
            e = e + seq![bool_byte(self@.is_debug)];
        }
        put_u8(dst, self.is_flat as u8);
        proof {
            lemma_concat_associative(d0, e, seq![bool_byte(self@.is_flat)]);
            e = e + seq![bool_byte(self@.is_flat)];
        }
        put_u8(dst, self.copy_metadata as u8);
        proof {
            lemma_concat_associative(d0, e, seq![bool_byte(self@.copy_metadata)]);
            e = e + seq![bool_byte(self@.copy_metadata)];
        }
        Ok(())
    }
}

impl Decode for ClientboundRespawn {
    fn decode(src: &mut Bytes) -> (r: Result<Self, ProtocolError>) {
        let dimension = decode_string(src)?;
        let world_name = decode_string(src)?;
        need_msg(src, 8, "Missing bytes for ClientboundRespawn hashed_seed")?;
        let hashed_seed = get_i64(src);
        need_msg(src, 3, "Missing bytes for ClientboundRespawn game modes")?;
        let game_mode = get_u8(src);
        let previous_game_mode = get_i8(src);
        need_msg(src, 3, "Missing bytes for ClientboundRespawn flags")?;
        let is_debug = get_u8(src) != 0;
        let is_flat = get_u8(src) != 0;
        let copy_metadata = get_u8(src) != 0;
        Ok(Self { dimension, world_name, hashed_seed, game_mode, previous_game_mode, is_debug, is_flat, copy_metadata })
    }
}

// ── ClientboundPlayerPosition ─────────────────────────────────────────

#[derive(Debug, Clone, PartialEq)]
pub struct ClientboundPlayerPosition {
    /// The bits of the `f64` value (`f64::to_bits`).
    pub x: u64,
    /// The bits of the `f64` value (`f64::to_bits`).
    pub y: u64,
    /// The bits of the `f64` value (`f64::to_bits`).
    pub z: u64,
    /// The bits of the `f32` value (`f32::to_bits`).
    pub yaw: u32,
    /// The bits of the `f32` value (`f32::to_bits`).
    pub pitch: u32,
    pub flags: u8,
    pub teleport_id: VarInt,
}

impl View for ClientboundPlayerPosition {
    type V = ClientboundPlayerPosition;

    open spec fn view(&self) -> ClientboundPlayerPosition {
        *self
    }
}

impl PacketId for ClientboundPlayerPosition {
    open spec fn spec_packet_id(ver: u32) -> u8 {
        0x34
    }

    fn packet_id(_ver: u32) -> (r: u8) {
        0x34
    }
}

impl WireFormat for ClientboundPlayerPosition {
    open spec fn spec_encode(p: ClientboundPlayerPosition) -> Seq<u8> {
        be_u64_bytes(p.x) + be_u64_bytes(p.y) + be_u64_bytes(p.z) + be_u32_bytes(p.yaw) + be_u32_bytes(p.pitch) + seq![p.flags] + VarInt::spec_encode(p.teleport_id)
    }

    open spec fn spec_decode(s: Seq<u8>) -> Parsed<ClientboundPlayerPosition> {
        then(need_msg_spec(s, 33, "Missing bytes for ClientboundPlayerPosition"@), |_u: (), s: Seq<u8>| then(take_u64(s), |x: u64, s: Seq<u8>| then(take_u64(s), |y: u64, s: Seq<u8>| then(take_u64(s), |z: u64, s: Seq<u8>| then(take_u32(s), |yaw: u32, s: Seq<u8>| then(take_u32(s), |pitch: u32, s: Seq<u8>| then(take_u8(s), |flags: u8, s: Seq<u8>| then(VarInt::spec_decode(s), |teleport_id: VarInt, s: Seq<u8>| (Ok(ClientboundPlayerPosition { x, y, z, yaw, pitch, flags, teleport_id }), s)))))))))
    }
}

impl Roundtrip for ClientboundPlayerPosition {
    open spec fn encodable(p: ClientboundPlayerPosition) -> bool {
        true
    }

    open spec fn reads_to_end() -> bool {
        false
    }

    #[verifier::rlimit(100)]
    #[verifier::spinoff_prover]
    proof fn lemma_roundtrip(p: ClientboundPlayerPosition, rest: Seq<u8>) {
        broadcast use group_wire_roundtrip;

        let t6 = VarInt::spec_encode(p.teleport_id) + rest;
        let t5 = seq![p.flags] + t6;
        let t4 = be_u32_bytes(p.pitch) + t5;
        let t3 = be_u32_bytes(p.yaw) + t4;
        let t2 = be_u64_bytes(p.z) + t3;
        let t1 = be_u64_bytes(p.y) + t2;
        lemma_concat_associative(be_u64_bytes(p.x) + be_u64_bytes(p.y) + be_u64_bytes(p.z) + be_u32_bytes(p.yaw) + be_u32_bytes(p.pitch) + seq![p.flags], VarInt::spec_encode(p.teleport_id), rest);
        lemma_concat_associative(be_u64_bytes(p.x) + be_u64_bytes(p.y) + be_u64_bytes(p.z) + be_u32_bytes(p.yaw) + be_u32_bytes(p.pitch), seq![p.flags], t6);
        lemma_concat_associative(be_u64_bytes(p.x) + be_u64_bytes(p.y) + be_u64_bytes(p.z) + be_u32_bytes(p.yaw), be_u32_bytes(p.pitch), t5);
        lemma_concat_associative(be_u64_bytes(p.x) + be_u64_bytes(p.y) + be_u64_bytes(p.z), be_u32_bytes(p.yaw), t4);
        lemma_concat_associative(be_u64_bytes(p.x) + be_u64_bytes(p.y), be_u64_bytes(p.z), t3);
        lemma_concat_associative(be_u64_bytes(p.x), be_u64_bytes(p.y), t2);
        VarInt::lemma_roundtrip(p.teleport_id, rest);
    }
}

impl Encode for ClientboundPlayerPosition {
    fn encode(&self, dst: &mut BytesMut) -> (r: Result<(), ProtocolError>) {
        let ghost d0 = bytes_mut_data(*dst);
        put_u64(dst, self.x);
        let ghost mut e: Seq<u8> = be_u64_bytes(self@.x);
        put_u64(dst, self.y);
        proof {
            lemma_concat_associative(d0, e, be_u64_bytes(self@.y));
            e = e + be_u64_bytes(self@.y);
        }
        put_u64(dst, self.z);
        proof {
            lemma_concat_associative(d0, e, be_u64_bytes(self@.z));
            e = e + be_u64_bytes(self@.z);
        }
        put_u32(dst, self.yaw);
        proof {
            lemma_concat_associative(d0, e, be_u32_bytes(self@.yaw));
            e = e + be_u32_bytes(self@.yaw);
        }
        put_u32(dst, self.pitch);
        proof {
            lemma_concat_associative(d0, e, be_u32_bytes(self@.pitch));
            e = e + be_u32_bytes(self@.pitch);
        }
        put_u8(dst, self.flags);
        proof {
            lemma_concat_associative(d0, e, seq![self@.flags]);
            e = e + seq![self@.flags];
        }
        let _ = self.teleport_id.encode(dst);
        proof {
            lemma_concat_associative(d0, e, VarInt::spec_encode(self@.teleport_id));
            e = e + VarInt::spec_encode(self@.teleport_id);
        }
        Ok(())
    }
}

impl Decode for ClientboundPlayerPosition {
    fn decode(src: &mut Bytes) -> (r: Result<Self, ProtocolError>) {
        need_msg(src, 33, "Missing bytes for ClientboundPlayerPosition")?;
        let x = get_u64(src);
        let y = get_u64(src);
        let z = get_u64(src);
        let yaw = get_u32(src);
        let pitch = get_u32(src);
        let flags = get_u8(src);
        let teleport_id = VarInt::decode(src)?;
        Ok(Self { x, y, z, yaw, pitch, flags, teleport_id })
    }
}

// ── ClientboundKeepAlive ──────────────────────────────────────────────

#[derive(Debug, Clone, PartialEq)]
pub struct ClientboundKeepAlive {
    pub keep_alive_id: i64,
}

impl View for ClientboundKeepAlive {
    type V = ClientboundKeepAlive;

    open spec fn view(&self) -> ClientboundKeepAlive {
        *self
    }
}

impl PacketId for ClientboundKeepAlive {
    open spec fn spec_packet_id(ver: u32) -> u8 {
        0x1F
    }

    fn packet_id(_ver: u32) -> (r: u8) {
        0x1F
    }
}

impl WireFormat for ClientboundKeepAlive {
    open spec fn spec_encode(p: ClientboundKeepAlive) -> Seq<u8> {
        be_i64_bytes(p.keep_alive_id)
    }

    open spec fn spec_decode(s: Seq<u8>) -> Parsed<ClientboundKeepAlive> {
        then(need_msg_spec(s, 8, "Missing bytes for ClientboundKeepAlive"@), |_u: (), s: Seq<u8>| then(take_i64(s), |keep_alive_id: i64, s: Seq<u8>| (Ok(ClientboundKeepAlive { keep_alive_id }), s)))
    }
}

impl Roundtrip for ClientboundKeepAlive {
    open spec fn encodable(p: ClientboundKeepAlive) -> bool {
        true
    }

    open spec fn reads_to_end() -> bool {
        false
    }

    proof fn lemma_roundtrip(p: ClientboundKeepAlive, rest: Seq<u8>) {
        broadcast use group_wire_roundtrip;

    }
}

impl Encode for ClientboundKeepAlive {
    fn encode(&self, dst: &mut BytesMut) -> (r: Result<(), ProtocolError>) {
        let ghost d0 = bytes_mut_data(*dst);
        put_i64(dst, self.keep_alive_id);
        let ghost mut e: Seq<u8> = be_i64_bytes(self@.keep_alive_id);
        Ok(())
    }
}

impl Decode for ClientboundKeepAlive {
    fn decode(src: &mut Bytes) -> (r: Result<Self, ProtocolError>) {
        need_msg(src, 8, "Missing bytes for ClientboundKeepAlive")?;
        let keep_alive_id = get_i64(src);
        Ok(Self { keep_alive_id })
    }
}

// ── ServerboundKeepAlive ──────────────────────────────────────────────

#[derive(Debug, Clone, PartialEq)]
pub struct ServerboundKeepAlive {
    pub keep_alive_id: i64,
}

impl View for ServerboundKeepAlive {
    type V = ServerboundKeepAlive;

    open spec fn view(&self) -> ServerboundKeepAlive {
        *self
    }
}

impl PacketId for ServerboundKeepAlive {
    open spec fn spec_packet_id(ver: u32) -> u8 {
        0x10
    }

    fn packet_id(_ver: u32) -> (r: u8) {
        0x10
    }
}

impl WireFormat for ServerboundKeepAlive {
    open spec fn spec_encode(p: ServerboundKeepAlive) -> Seq<u8> {
        be_i64_bytes(p.keep_alive_id)
    }

    open spec fn spec_decode(s: Seq<u8>) -> Parsed<ServerboundKeepAlive> {
        then(need_msg_spec(s, 8, "Missing bytes for ServerboundKeepAlive"@), |_u: (), s: Seq<u8>| then(take_i64(s), |keep_alive_id: i64, s: Seq<u8>| (Ok(ServerboundKeepAlive { keep_alive_id }), s)))
    }
}

impl Roundtrip for ServerboundKeepAlive {
    open spec fn encodable(p: ServerboundKeepAlive) -> bool {
        true
    }

    open spec fn reads_to_end() -> bool {
        false
    }

    proof fn lemma_roundtrip(p: ServerboundKeepAlive, rest: Seq<u8>) {
        broadcast use group_wire_roundtrip;

    }
}

impl Encode for ServerboundKeepAlive {
    fn encode(&self, dst: &mut BytesMut) -> (r: Result<(), ProtocolError>) {
        let ghost d0 = bytes_mut_data(*dst);
        put_i64(dst, self.keep_alive_id);
        let ghost mut e: Seq<u8> = be_i64_bytes(self@.keep_alive_id);
        Ok(())
    }
}

impl Decode for ServerboundKeepAlive {
    fn decode(src: &mut Bytes) -> (r: Result<Self, ProtocolError>) {
        need_msg(src, 8, "Missing bytes for ServerboundKeepAlive")?;
        let keep_alive_id = get_i64(src);
        Ok(Self { keep_alive_id })
    }
}

// ── ClientboundChatMessage ────────────────────────────────────────────

#[derive(Debug, Clone, PartialEq)]
pub struct ClientboundChatMessage {
    pub json_message: String,
    pub position: u8,
    /// The UUID as its 128-bit value (`uuid::Uuid::as_u128`).
    pub sender: u128,
}

pub struct ClientboundChatMessageView {
    pub json_message: Seq<char>,
    pub position: u8,
    pub sender: u128,
}

impl View for ClientboundChatMessage {
    type V = ClientboundChatMessageView;

    open spec fn view(&self) -> ClientboundChatMessageView {
        ClientboundChatMessageView {
            json_message: self.json_message@,
            position: self.position,
            sender: self.sender,
        }
    }
}

impl PacketId for ClientboundChatMessage {
    open spec fn spec_packet_id(ver: u32) -> u8 {
        0x0E
    }

    fn packet_id(_ver: u32) -> (r: u8) {
        0x0E
    }
}

impl WireFormat for ClientboundChatMessage {
    open spec fn spec_encode(p: ClientboundChatMessageView) -> Seq<u8> {
        string_wire(p.json_message) + seq![p.position] + uuid_wire(p.sender)
    }

    open spec fn spec_decode(s: Seq<u8>) -> Parsed<ClientboundChatMessageView> {
        then(string_spec(s), |json_message: Seq<char>, s: Seq<u8>| then(need_msg_spec(s, 17, "Missing bytes for ClientboundChatMessage position/sender"@), |_u: (), s: Seq<u8>| then(take_u8(s), |position: u8, s: Seq<u8>| then(take_uuid(s), |sender: u128, s: Seq<u8>| (Ok(ClientboundChatMessageView { json_message, position, sender }), s)))))
    }
}

impl Roundtrip for ClientboundChatMessage {
    open spec fn encodable(p: ClientboundChatMessageView) -> bool {
        string_fits(p.json_message)
    }

    open spec fn reads_to_end() -> bool {
        false
    }

    proof fn lemma_roundtrip(p: ClientboundChatMessageView, rest: Seq<u8>) {
        broadcast use group_wire_roundtrip;

        let t2 = uuid_wire(p.sender) + rest;
        let t1 = seq![p.position] + t2;
        lemma_concat_associative(string_wire(p.json_message) + seq![p.position], uuid_wire(p.sender), rest);
        lemma_concat_associative(string_wire(p.json_message), seq![p.position], t2);
        lemma_string_field(p.json_message, t1);
        lemma_take_uuid(p.sender, rest);
    }
}

impl Encode for ClientboundChatMessage {
    fn encode(&self, dst: &mut BytesMut) -> (r: Result<(), ProtocolError>) {
        let ghost d0 = bytes_mut_data(*dst);
        encode_string(self.json_message.as_str(), dst);
        let ghost mut e: Seq<u8> = string_wire(self@.json_message);
        put_u8(dst, self.position);
        proof {
            lemma_concat_associative(d0, e, seq![self@.position]);
            e = e + seq![self@.position];
        }
        put_uuid(dst, self.sender);
        proof {
            lemma_concat_associative(d0, e, uuid_wire(self@.sender));
            e = e + uuid_wire(self@.sender);
        }
        Ok(())
    }
}

impl Decode for ClientboundChatMessage {
    fn decode(src: &mut Bytes) -> (r: Result<Self, ProtocolError>) {
        let json_message = decode_string(src)?;
        need_msg(src, 17, "Missing bytes for ClientboundChatMessage position/sender")?;
        let position = get_u8(src);
        let sender = get_uuid(src);
        Ok(Self { json_message, position, sender })
    }
}

// ── ServerboundChatMessage ────────────────────────────────────────────

#[derive(Debug, Clone, PartialEq)]
pub struct ServerboundChatMessage {
    pub message: String,
}

pub struct ServerboundChatMessageView {
    pub message: Seq<char>,
}

impl View for ServerboundChatMessage {
    type V = ServerboundChatMessageView;

    open spec fn view(&self) -> ServerboundChatMessageView {
        ServerboundChatMessageView {
            message: self.message@,
        }
    }
}

impl PacketId for ServerboundChatMessage {
    open spec fn spec_packet_id(ver: u32) -> u8 {
        0x03
    }

    fn packet_id(_ver: u32) -> (r: u8) {
        0x03
    }
}

impl WireFormat for ServerboundChatMessage {
    open spec fn spec_encode(p: ServerboundChatMessageView) -> Seq<u8> {
        string_wire(p.message)
    }

    open spec fn spec_decode(s: Seq<u8>) -> Parsed<ServerboundChatMessageView> {
        then(string_spec(s), |message: Seq<char>, s: Seq<u8>| (Ok(ServerboundChatMessageView { message }), s))
    }
}

impl Roundtrip for ServerboundChatMessage {
    open spec fn encodable(p: ServerboundChatMessageView) -> bool {
        string_fits(p.message)
    }

    open spec fn reads_to_end() -> bool {
        false
    }

    proof fn lemma_roundtrip(p: ServerboundChatMessageView, rest: Seq<u8>) {
        broadcast use group_wire_roundtrip;

        lemma_string_field(p.message, rest);
    }
}

impl Encode for ServerboundChatMessage {
    fn encode(&self, dst: &mut BytesMut) -> (r: Result<(), ProtocolError>) {
        let ghost d0 = bytes_mut_data(*dst);
        encode_string(self.message.as_str(), dst);
        let ghost mut e: Seq<u8> = string_wire(self@.message);
        Ok(())
    }
}

impl Decode for ServerboundChatMessage {
    fn decode(src: &mut Bytes) -> (r: Result<Self, ProtocolError>) {
        let message = decode_string(src)?;
        Ok(Self { message })
    }
}

// ── ServerboundMovePlayerPos ──────────────────────────────────────────

#[derive(Debug, Clone, PartialEq)]
pub struct ServerboundMovePlayerPos {
    /// The bits of the `f64` value (`f64::to_bits`).
    pub x: u64,
    /// The bits of the `f64` value (`f64::to_bits`).
    pub feet_y: u64,
    /// The bits of the `f64` value (`f64::to_bits`).
    pub z: u64,
    pub on_ground: bool,
}

impl View for ServerboundMovePlayerPos {
    type V = ServerboundMovePlayerPos;

    open spec fn view(&self) -> ServerboundMovePlayerPos {
        *self
    }
}

impl PacketId for ServerboundMovePlayerPos {
    open spec fn spec_packet_id(ver: u32) -> u8 {
        0x12
    }

    fn packet_id(_ver: u32) -> (r: u8) {
        0x12
    }
}

impl WireFormat for ServerboundMovePlayerPos {
    open spec fn spec_encode(p: ServerboundMovePlayerPos) -> Seq<u8> {
        be_u64_bytes(p.x) + be_u64_bytes(p.feet_y) + be_u64_bytes(p.z) + seq![bool_byte(p.on_ground)]
    }

    open spec fn spec_decode(s: Seq<u8>) -> Parsed<ServerboundMovePlayerPos> {
        then(need_msg_spec(s, 25, "Missing bytes for ServerboundMovePlayerPos"@), |_u: (), s: Seq<u8>| then(take_u64(s), |x: u64, s: Seq<u8>| then(take_u64(s), |feet_y: u64, s: Seq<u8>| then(take_u64(s), |z: u64, s: Seq<u8>| then(take_bool(s), |on_ground: bool, s: Seq<u8>| (Ok(ServerboundMovePlayerPos { x, feet_y, z, on_ground }), s))))))
    }
}

impl Roundtrip for ServerboundMovePlayerPos {
    open spec fn encodable(p: ServerboundMovePlayerPos) -> bool {
        true
    }

    open spec fn reads_to_end() -> bool {
        false
    }

    proof fn lemma_roundtrip(p: ServerboundMovePlayerPos, rest: Seq<u8>) {
        broadcast use group_wire_roundtrip;

        let t3 = seq![bool_byte(p.on_ground)] + rest;
        let t2 = be_u64_bytes(p.z) + t3;
        let t1 = be_u64_bytes(p.feet_y) + t2;
        lemma_concat_associative(be_u64_bytes(p.x) + be_u64_bytes(p.feet_y) + be_u64_bytes(p.z), seq![bool_byte(p.on_ground)], rest);
        lemma_concat_associative(be_u64_bytes(p.x) + be_u64_bytes(p.feet_y), be_u64_bytes(p.z), t3);
        lemma_concat_associative(be_u64_bytes(p.x), be_u64_bytes(p.feet_y), t2);
    }
}

impl Encode for ServerboundMovePlayerPos {
    fn encode(&self, dst: &mut BytesMut) -> (r: Result<(), ProtocolError>) {
        let ghost d0 = bytes_mut_data(*dst);
        put_u64(dst, self.x);
        let ghost mut e: Seq<u8> = be_u64_bytes(self@.x);
        put_u64(dst, self.feet_y);
        proof {
            lemma_concat_associative(d0, e, be_u64_bytes(self@.feet_y));
            e = e + be_u64_bytes(self@.feet_y);
        }
        put_u64(dst, self.z);
        proof {
            lemma_concat_associative(d0, e, be_u64_bytes(self@.z));
            e = e + be_u64_bytes(self@.z);
        }
        put_u8(dst, self.on_ground as u8);
        proof {
            lemma_concat_associative(d0, e, seq![bool_byte(self@.on_ground)]);
            e = e + seq![bool_byte(self@.on_ground)];
        }
        Ok(())
    }
}

impl Decode for ServerboundMovePlayerPos {
    fn decode(src: &mut Bytes) -> (r: Result<Self, ProtocolError>) {
        need_msg(src, 25, "Missing bytes for ServerboundMovePlayerPos")?;
        let x = get_u64(src);
        let feet_y = get_u64(src);
        let z = get_u64(src);
        let on_ground = get_u8(src) != 0;
        Ok(Self { x, feet_y, z, on_ground })
    }
}

// ── ServerboundMovePlayerRot ──────────────────────────────────────────

#[derive(Debug, Clone, PartialEq)]
pub struct ServerboundMovePlayerRot {
    /// The bits of the `f32` value (`f32::to_bits`).
    pub yaw: u32,
    /// The bits of the `f32` value (`f32::to_bits`).
    pub pitch: u32,
    pub on_ground: bool,
}

impl View for ServerboundMovePlayerRot {
    type V = ServerboundMovePlayerRot;

    open spec fn view(&self) -> ServerboundMovePlayerRot {
        *self
    }
}

impl PacketId for ServerboundMovePlayerRot {
    open spec fn spec_packet_id(ver: u32) -> u8 {
        0x13
    }

    fn packet_id(_ver: u32) -> (r: u8) {
        0x13
    }
}

impl WireFormat for ServerboundMovePlayerRot {
    open spec fn spec_encode(p: ServerboundMovePlayerRot) -> Seq<u8> {
        be_u32_bytes(p.yaw) + be_u32_bytes(p.pitch) + seq![bool_byte(p.on_ground)]
    }

    open spec fn spec_decode(s: Seq<u8>) -> Parsed<ServerboundMovePlayerRot> {
        then(need_msg_spec(s, 9, "Missing bytes for ServerboundMovePlayerRot"@), |_u: (), s: Seq<u8>| then(take_u32(s), |yaw: u32, s: Seq<u8>| then(take_u32(s), |pitch: u32, s: Seq<u8>| then(take_bool(s), |on_ground: bool, s: Seq<u8>| (Ok(ServerboundMovePlayerRot { yaw, pitch, on_ground }), s)))))
    }
}

impl Roundtrip for ServerboundMovePlayerRot {
    open spec fn encodable(p: ServerboundMovePlayerRot) -> bool {
        true
    }

    open spec fn reads_to_end() -> bool {
        false
    }

    proof fn lemma_roundtrip(p: ServerboundMovePlayerRot, rest: Seq<u8>) {
        broadcast use group_wire_roundtrip;

        let t2 = seq![bool_byte(p.on_ground)] + rest;
        let t1 = be_u32_bytes(p.pitch) + t2;
        lemma_concat_associative(be_u32_bytes(p.yaw) + be_u32_bytes(p.pitch), seq![bool_byte(p.on_ground)], rest);
        lemma_concat_associative(be_u32_bytes(p.yaw), be_u32_bytes(p.pitch), t2);
    }
}

impl Encode for ServerboundMovePlayerRot {
    fn encode(&self, dst: &mut BytesMut) -> (r: Result<(), ProtocolError>) {
        let ghost d0 = bytes_mut_data(*dst);
        put_u32(dst, self.yaw);
        let ghost mut e: Seq<u8> = be_u32_bytes(self@.yaw);
        put_u32(dst, self.pitch);
        proof {
            lemma_concat_associative(d0, e, be_u32_bytes(self@.pitch));
            e = e + be_u32_bytes(self@.pitch);
        }
        put_u8(dst, self.on_ground as u8);
        proof {
            lemma_concat_associative(d0, e, seq![bool_byte(self@.on_ground)]);
            e = e + seq![bool_byte(self@.on_ground)];
        }
        Ok(())
    }
}

impl Decode for ServerboundMovePlayerRot {
    fn decode(src: &mut Bytes) -> (r: Result<Self, ProtocolError>) {
        need_msg(src, 9, "Missing bytes for ServerboundMovePlayerRot")?;
        let yaw = get_u32(src);
        let pitch = get_u32(src);
        let on_ground = get_u8(src) != 0;
        Ok(Self { yaw, pitch, on_ground })
    }
}

// ── ServerboundMovePlayerPosRot ───────────────────────────────────────

#[derive(Debug, Clone, PartialEq)]
pub struct ServerboundMovePlayerPosRot {
    /// The bits of the `f64` value (`f64::to_bits`).
    pub x: u64,
    /// The bits of the `f64` value (`f64::to_bits`).
    pub feet_y: u64,
    /// The bits of the `f64` value (`f64::to_bits`).
    pub z: u64,
    /// The bits of the `f32` value (`f32::to_bits`).
    pub yaw: u32,
    /// The bits of the `f32` value (`f32::to_bits`).
    pub pitch: u32,
    pub on_ground: bool,
}

impl View for ServerboundMovePlayerPosRot {
    type V = ServerboundMovePlayerPosRot;

    open spec fn view(&self) -> ServerboundMovePlayerPosRot {
        *self
    }
}

impl PacketId for ServerboundMovePlayerPosRot {
    open spec fn spec_packet_id(ver: u32) -> u8 {
        0x14
    }

    fn packet_id(_ver: u32) -> (r: u8) {
        0x14
    }
}

impl WireFormat for ServerboundMovePlayerPosRot {
    open spec fn spec_encode(p: ServerboundMovePlayerPosRot) -> Seq<u8> {
        be_u64_bytes(p.x) + be_u64_bytes(p.feet_y) + be_u64_bytes(p.z) + be_u32_bytes(p.yaw) + be_u32_bytes(p.pitch) + seq![bool_byte(p.on_ground)]
    }

    open spec fn spec_decode(s: Seq<u8>) -> Parsed<ServerboundMovePlayerPosRot> {
        then(need_msg_spec(s, 33, "Missing bytes for ServerboundMovePlayerPosRot"@), |_u: (), s: Seq<u8>| then(take_u64(s), |x: u64, s: Seq<u8>| then(take_u64(s), |feet_y: u64, s: Seq<u8>| then(take_u64(s), |z: u64, s: Seq<u8>| then(take_u32(s), |yaw: u32, s: Seq<u8>| then(take_u32(s), |pitch: u32, s: Seq<u8>| then(take_bool(s), |on_ground: bool, s: Seq<u8>| (Ok(ServerboundMovePlayerPosRot { x, feet_y, z, yaw, pitch, on_ground }), s))))))))
    }
}

impl Roundtrip for ServerboundMovePlayerPosRot {
    open spec fn encodable(p: ServerboundMovePlayerPosRot) -> bool {
        true
    }

    open spec fn reads_to_end() -> bool {
        false
    }

    #[verifier::rlimit(100)]
    #[verifier::spinoff_prover]
    proof fn lemma_roundtrip(p: ServerboundMovePlayerPosRot, rest: Seq<u8>) {
        broadcast use group_wire_roundtrip;

        let t5 = seq![bool_byte(p.on_ground)] + rest;
        let t4 = be_u32_bytes(p.pitch) + t5;
        let t3 = be_u32_bytes(p.yaw) + t4;
        let t2 = be_u64_bytes(p.z) + t3;
        let t1 = be_u64_bytes(p.feet_y) + t2;
        lemma_concat_associative(be_u64_bytes(p.x) + be_u64_bytes(p.feet_y) + be_u64_bytes(p.z) + be_u32_bytes(p.yaw) + be_u32_bytes(p.pitch), seq![bool_byte(p.on_ground)], rest);
        lemma_concat_associative(be_u64_bytes(p.x) + be_u64_bytes(p.feet_y) + be_u64_bytes(p.z) + be_u32_bytes(p.yaw), be_u32_bytes(p.pitch), t5);
        lemma_concat_associative(be_u64_bytes(p.x) + be_u64_bytes(p.feet_y) + be_u64_bytes(p.z), be_u32_bytes(p.yaw), t4);
        lemma_concat_associative(be_u64_bytes(p.x) + be_u64_bytes(p.feet_y), be_u64_bytes(p.z), t3);
        lemma_concat_associative(be_u64_bytes(p.x), be_u64_bytes(p.feet_y), t2);
    }
}

impl Encode for ServerboundMovePlayerPosRot {
    fn encode(&self, dst: &mut BytesMut) -> (r: Result<(), ProtocolError>) {
        let ghost d0 = bytes_mut_data(*dst);
        put_u64(dst, self.x);
        let ghost mut e: Seq<u8> = be_u64_bytes(self@.x);
        put_u64(dst, self.feet_y);
        proof {
            lemma_concat_associative(d0, e, be_u64_bytes(self@.feet_y));
            e = e + be_u64_bytes(self@.feet_y);
        }
        put_u64(dst, self.z);
        proof {
            lemma_concat_associative(d0, e, be_u64_bytes(self@.z));
            e = e + be_u64_bytes(self@.z);
        }
        put_u32(dst, self.yaw);
        proof {
            lemma_concat_associative(d0, e, be_u32_bytes(self@.yaw));
            e = e + be_u32_bytes(self@.yaw);
        }
        put_u32(dst, self.pitch);
        proof {
            lemma_concat_associative(d0, e, be_u32_bytes(self@.pitch));
            e = e + be_u32_bytes(self@.pitch);
        }
        put_u8(dst, self.on_ground as u8);
        proof {
            lemma_concat_associative(d0, e, seq![bool_byte(self@.on_ground)]);
            e = e + seq![bool_byte(self@.on_ground)];
        }
        Ok(())
    }
}

impl Decode for ServerboundMovePlayerPosRot {
    fn decode(src: &mut Bytes) -> (r: Result<Self, ProtocolError>) {
        need_msg(src, 33, "Missing bytes for ServerboundMovePlayerPosRot")?;
        let x = get_u64(src);
        let feet_y = get_u64(src);
        let z = get_u64(src);
        let yaw = get_u32(src);
        let pitch = get_u32(src);
        let on_ground = get_u8(src) != 0;
        Ok(Self { x, feet_y, z, yaw, pitch, on_ground })
    }
}

// ── ClientboundPluginMessage ──────────────────────────────────────────

#[derive(Debug, Clone, PartialEq)]
pub struct ClientboundPluginMessage {
    pub channel: String,
    pub data: Vec<u8>,
}

pub struct ClientboundPluginMessageView {
    pub channel: Seq<char>,
    pub data: Seq<u8>,
}

impl View for ClientboundPluginMessage {
    type V = ClientboundPluginMessageView;

    open spec fn view(&self) -> ClientboundPluginMessageView {
        ClientboundPluginMessageView {
            channel: self.channel@,
            data: self.data@,
        }
    }
}

impl PacketId for ClientboundPluginMessage {
    open spec fn spec_packet_id(ver: u32) -> u8 {
        0x17
    }

    fn packet_id(_ver: u32) -> (r: u8) {
        0x17
    }
}

impl WireFormat for ClientboundPluginMessage {
    open spec fn spec_encode(p: ClientboundPluginMessageView) -> Seq<u8> {
        string_wire(p.channel) + p.data
    }

    open spec fn spec_decode(s: Seq<u8>) -> Parsed<ClientboundPluginMessageView> {
        then(string_spec(s), |channel: Seq<char>, s: Seq<u8>| then(take_rest(s), |data: Seq<u8>, s: Seq<u8>| (Ok(ClientboundPluginMessageView { channel, data }), s)))
    }
}

impl Roundtrip for ClientboundPluginMessage {
    open spec fn encodable(p: ClientboundPluginMessageView) -> bool {
        string_fits(p.channel)
    }

    open spec fn reads_to_end() -> bool {
        true
    }

    proof fn lemma_roundtrip(p: ClientboundPluginMessageView, rest: Seq<u8>) {
        broadcast use group_wire_roundtrip;

        let t1 = p.data + rest;
        lemma_concat_associative(string_wire(p.channel), p.data, rest);
        lemma_string_field(p.channel, t1);
        assert(p.data + rest =~= p.data);
    }
}

impl Encode for ClientboundPluginMessage {
    fn encode(&self, dst: &mut BytesMut) -> (r: Result<(), ProtocolError>) {
        let ghost d0 = bytes_mut_data(*dst);
        encode_string(self.channel.as_str(), dst);
        let ghost mut e: Seq<u8> = string_wire(self@.channel);
        put_slice(dst, self.data.as_slice());
        proof {
            lemma_concat_associative(d0, e, self@.data);
            e = e + self@.data;
        }
        Ok(())
    }
}

impl Decode for ClientboundPluginMessage {
    fn decode(src: &mut Bytes) -> (r: Result<Self, ProtocolError>) {
        let channel = decode_string(src)?;
        let data = take_remaining(src);
        Ok(Self { channel, data })
    }
}

// ── ServerboundPluginMessage ──────────────────────────────────────────

#[derive(Debug, Clone, PartialEq)]
pub struct ServerboundPluginMessage {
    pub channel: String,
    pub data: Vec<u8>,
}

pub struct ServerboundPluginMessageView {
    pub channel: Seq<char>,
    pub data: Seq<u8>,
}

impl View for ServerboundPluginMessage {
    type V = ServerboundPluginMessageView;

    open spec fn view(&self) -> ServerboundPluginMessageView {
        ServerboundPluginMessageView {
            channel: self.channel@,
            data: self.data@,
        }
    }
}

impl PacketId for ServerboundPluginMessage {
    open spec fn spec_packet_id(ver: u32) -> u8 {
        0x0B
    }

    fn packet_id(_ver: u32) -> (r: u8) {
        0x0B
    }
}

impl WireFormat for ServerboundPluginMessage {
    open spec fn spec_encode(p: ServerboundPluginMessageView) -> Seq<u8> {
        string_wire(p.channel) + p.data
    }

    open spec fn spec_decode(s: Seq<u8>) -> Parsed<ServerboundPluginMessageView> {
        then(string_spec(s), |channel: Seq<char>, s: Seq<u8>| then(take_rest(s), |data: Seq<u8>, s: Seq<u8>| (Ok(ServerboundPluginMessageView { channel, data }), s)))
    }
}

impl Roundtrip for ServerboundPluginMessage {
    open spec fn encodable(p: ServerboundPluginMessageView) -> bool {
        string_fits(p.channel)
    }

    open spec fn reads_to_end() -> bool {
        true
    }

    proof fn lemma_roundtrip(p: ServerboundPluginMessageView, rest: Seq<u8>) {
        broadcast use group_wire_roundtrip;

        let t1 = p.data + rest;
        lemma_concat_associative(string_wire(p.channel), p.data, rest);
        lemma_string_field(p.channel, t1);
        assert(p.data + rest =~= p.data);
    }
}

impl Encode for ServerboundPluginMessage {
    fn encode(&self, dst: &mut BytesMut) -> (r: Result<(), ProtocolError>) {
        let ghost d0 = bytes_mut_data(*dst);
        encode_string(self.channel.as_str(), dst);
        let ghost mut e: Seq<u8> = string_wire(self@.channel);
        put_slice(dst, self.data.as_slice());
        proof {
            lemma_concat_associative(d0, e, self@.data);
            e = e + self@.data;
        }
        Ok(())
    }
}

impl Decode for ServerboundPluginMessage {
    fn decode(src: &mut Bytes) -> (r: Result<Self, ProtocolError>) {
        let channel = decode_string(src)?;
        let data = take_remaining(src);
        Ok(Self { channel, data })
    }
}

// ── ClientboundDisconnect ─────────────────────────────────────────────

#[derive(Debug, Clone, PartialEq)]
pub struct ClientboundDisconnect {
    pub reason: String,
}

pub struct ClientboundDisconnectView {
    pub reason: Seq<char>,
}

impl View for ClientboundDisconnect {
    type V = ClientboundDisconnectView;

    open spec fn view(&self) -> ClientboundDisconnectView {
        ClientboundDisconnectView {
            reason: self.reason@,
        }
    }
}

impl PacketId for ClientboundDisconnect {
    open spec fn spec_packet_id(ver: u32) -> u8 {
        0x19
    }

    fn packet_id(_ver: u32) -> (r: u8) {
        0x19
    }
}

impl WireFormat for ClientboundDisconnect {
    open spec fn spec_encode(p: ClientboundDisconnectView) -> Seq<u8> {
        string_wire(p.reason)
    }

    open spec fn spec_decode(s: Seq<u8>) -> Parsed<ClientboundDisconnectView> {
        then(string_spec(s), |reason: Seq<char>, s: Seq<u8>| (Ok(ClientboundDisconnectView { reason }), s))
    }
}

impl Roundtrip for ClientboundDisconnect {
    open spec fn encodable(p: ClientboundDisconnectView) -> bool {
        string_fits(p.reason)
    }

    open spec fn reads_to_end() -> bool {
        false
    }

    proof fn lemma_roundtrip(p: ClientboundDisconnectView, rest: Seq<u8>) {
        broadcast use group_wire_roundtrip;

        lemma_string_field(p.reason, rest);
    }
}

impl Encode for ClientboundDisconnect {
    fn encode(&self, dst: &mut BytesMut) -> (r: Result<(), ProtocolError>) {
        let ghost d0 = bytes_mut_data(*dst);
        encode_string(self.reason.as_str(), dst);
        let ghost mut e: Seq<u8> = string_wire(self@.reason);
        Ok(())
    }
}

impl Decode for ClientboundDisconnect {
    fn decode(src: &mut Bytes) -> (r: Result<Self, ProtocolError>) {
        let reason = decode_string(src)?;
        Ok(Self { reason })
    }
}

// ── ServerboundInteract ──────────────────────────────────────────────

/// What the player does to the entity.
#[derive(Debug, Clone, PartialEq)]
pub enum InteractAction {
    Interact { hand: VarInt },
    Attack,
    InteractAt {
        /// The bits of the `f32` value (`f32::to_bits`).
        target_x: u32,
        /// The bits of the `f32` value (`f32::to_bits`).
        target_y: u32,
        /// The bits of the `f32` value (`f32::to_bits`).
        target_z: u32,
        hand: VarInt,
    },
}

impl View for InteractAction {
    type V = InteractAction;

    open spec fn view(&self) -> InteractAction {
        *self
    }
}

#[derive(Debug, Clone, PartialEq)]
pub struct ServerboundInteract {
    pub entity_id: VarInt,
    pub action: InteractAction,
    pub sneaking: bool,
}

impl View for ServerboundInteract {
    type V = ServerboundInteract;

    open spec fn view(&self) -> ServerboundInteract {
        *self
    }
}

impl PacketId for ServerboundInteract {
    open spec fn spec_packet_id(ver: u32) -> u8 {
        0x0E
    }

    fn packet_id(_ver: u32) -> (r: u8) {
        0x0E
    }
}

/// The bytes of an action: its VarInt tag, then its fields.
pub open spec fn interact_action_wire(a: InteractAction) -> Seq<u8> {
    match a {
        InteractAction::Interact { hand } => VarInt::spec_encode(VarInt(0)) + VarInt::spec_encode(hand),
        InteractAction::Attack => VarInt::spec_encode(VarInt(1)),
        InteractAction::InteractAt { target_x, target_y, target_z, hand } => VarInt::spec_encode(VarInt(2))
            + be_u32_bytes(target_x) + be_u32_bytes(target_y) + be_u32_bytes(target_z)
            + VarInt::spec_encode(hand),
    }
}

/// Reading an action: tag 0, 1 or 2, else `InvalidData`.
pub open spec fn interact_action_spec(s: Seq<u8>) -> Parsed<InteractAction> {
    then(
        take_varint_i32(s),
        |tag: i32, s: Seq<u8>|
            if tag == 0 {
                then(VarInt::spec_decode(s), |hand: VarInt, s: Seq<u8>| (Ok(InteractAction::Interact { hand }), s))
            } else if tag == 1 {
                (Ok(InteractAction::Attack), s)
            } else if tag == 2 {
                then(
                    need_msg_spec(s, 12, "Missing bytes for InteractAt"@),
                    |_u: (), s: Seq<u8>|
                        then(
                            take_u32(s),
                            |target_x: u32, s: Seq<u8>|
                                then(
                                    take_u32(s),
                                    |target_y: u32, s: Seq<u8>|
                                        then(
                                            take_u32(s),
                                            |target_z: u32, s: Seq<u8>|
                                                then(
                                                    VarInt::spec_decode(s),
                                                    |hand: VarInt, s: Seq<u8>|
                                                        (
                                                            Ok(
                                                                InteractAction::InteractAt {
                                                                    target_x,
                                                                    target_y,
                                                                    target_z,
                                                                    hand,
                                                                },
                                                            ),
                                                            s,
                                                        ),
                                                ),
                                        ),
                                ),
                        ),
                )
            } else {
                (Err(ErrorView::Io(IoErrorKind::InvalidData, "Unknown InteractAction type"@)), s)
            },
    )
}

fn decode_interact_action(src: &mut Bytes) -> (r: Result<InteractAction, ProtocolError>)
    requires
        !panics(interact_action_spec(bytes_data(*old(src)))),
    ensures
        interact_action_spec(bytes_data(*old(src))) == (result_view(r), bytes_data(*final(src))),
{
    let tag = VarInt::decode(src)?.0;
    if tag == 0 {
        let hand = VarInt::decode(src)?;
        Ok(InteractAction::Interact { hand })
    } else if tag == 1 {
        Ok(InteractAction::Attack)
    } else if tag == 2 {
        need_msg(src, 12, "Missing bytes for InteractAt")?;
        let target_x = get_u32(src);
        let target_y = get_u32(src);
        let target_z = get_u32(src);
        let hand = VarInt::decode(src)?;
        Ok(InteractAction::InteractAt { target_x, target_y, target_z, hand })
    } else {
        Err(io_error(IoErrorKind::InvalidData, "Unknown InteractAction type"))
    }
}

fn encode_interact_action(a: &InteractAction, dst: &mut BytesMut)
    ensures
        bytes_mut_data(*final(dst)) == bytes_mut_data(*old(dst)) + interact_action_wire(*a),
{
    let ghost d0 = bytes_mut_data(*dst);
    match a {
        InteractAction::Interact { hand } => {
            let _ = VarInt(0).encode(dst);
            let _ = hand.encode(dst);
            proof {
                lemma_concat_associative(d0, VarInt::spec_encode(VarInt(0)), VarInt::spec_encode(*hand));
            }
        },
        InteractAction::Attack => {
            let _ = VarInt(1).encode(dst);
        },
        InteractAction::InteractAt { target_x, target_y, target_z, hand } => {
            let ghost e0 = VarInt::spec_encode(VarInt(2));
            let ghost e1 = be_u32_bytes(*target_x);
            let ghost e2 = be_u32_bytes(*target_y);
            let ghost e3 = be_u32_bytes(*target_z);
            let ghost e4 = VarInt::spec_encode(*hand);
            let _ = VarInt(2).encode(dst);
            put_u32(dst, *target_x);
            put_u32(dst, *target_y);
            put_u32(dst, *target_z);
            let _ = hand.encode(dst);
            proof {
                lemma_concat_associative(d0, e0, e1);
                lemma_concat_associative(d0, e0 + e1, e2);
                lemma_concat_associative(d0, e0 + e1 + e2, e3);
                lemma_concat_associative(d0, e0 + e1 + e2 + e3, e4);
            }
        },
    }
}

/// Reading the bytes of an action gives it back.
pub proof fn lemma_interact_action_roundtrip(a: InteractAction, rest: Seq<u8>)
    ensures
        interact_action_spec(interact_action_wire(a) + rest) == (Ok::<InteractAction, ErrorView>(a), rest),
{
    broadcast use group_wire_roundtrip;

    match a {
        InteractAction::Interact { hand } => {
            let t = VarInt::spec_encode(hand) + rest;
            lemma_concat_associative(VarInt::spec_encode(VarInt(0)), VarInt::spec_encode(hand), rest);
            VarInt::lemma_roundtrip(VarInt(0), t);
            VarInt::lemma_roundtrip(hand, rest);
        },
        InteractAction::Attack => {
            VarInt::lemma_roundtrip(VarInt(1), rest);
        },
        InteractAction::InteractAt { target_x, target_y, target_z, hand } => {
            let e0 = VarInt::spec_encode(VarInt(2));
            let e1 = be_u32_bytes(target_x);
            let e2 = be_u32_bytes(target_y);
            let e3 = be_u32_bytes(target_z);
            let e4 = VarInt::spec_encode(hand);
            let t4 = e4 + rest;
            let t3 = e3 + t4;
            let t2 = e2 + t3;
            let t1 = e1 + t2;
            lemma_concat_associative(e0 + e1 + e2 + e3, e4, rest);
            lemma_concat_associative(e0 + e1 + e2, e3, t4);
            lemma_concat_associative(e0 + e1, e2, t3);
            lemma_concat_associative(e0, e1, t2);
            VarInt::lemma_roundtrip(VarInt(2), t1);
            assert(t1.len() >= 12);
            VarInt::lemma_roundtrip(hand, rest);
        },
    }
}

impl WireFormat for ServerboundInteract {
    open spec fn spec_encode(p: ServerboundInteract) -> Seq<u8> {
        VarInt::spec_encode(p.entity_id) + interact_action_wire(p.action) + seq![bool_byte(p.sneaking)]
    }

    open spec fn spec_decode(s: Seq<u8>) -> Parsed<ServerboundInteract> {
        then(
            VarInt::spec_decode(s),
            |entity_id: VarInt, s: Seq<u8>|
                then(
                    interact_action_spec(s),
                    |action: InteractAction, s: Seq<u8>|
                        then(
                            need_msg_spec(s, 1, "Missing bytes for sneaking"@),
                            |_u: (), s: Seq<u8>|
                                then(
                                    take_bool(s),
                                    |sneaking: bool, s: Seq<u8>| (Ok(ServerboundInteract { entity_id, action, sneaking }), s),
                                ),
                        ),
                ),
        )
    }
}

impl Roundtrip for ServerboundInteract {
    open spec fn encodable(p: ServerboundInteract) -> bool {
        true
    }

    open spec fn reads_to_end() -> bool {
        false
    }

    proof fn lemma_roundtrip(p: ServerboundInteract, rest: Seq<u8>) {
        broadcast use group_wire_roundtrip;

        let e0 = VarInt::spec_encode(p.entity_id);
        let e1 = interact_action_wire(p.action);
        let e2 = seq![bool_byte(p.sneaking)];
        let t2 = e2 + rest;
        let t1 = e1 + t2;
        lemma_concat_associative(e0 + e1, e2, rest);
        lemma_concat_associative(e0, e1, t2);
        VarInt::lemma_roundtrip(p.entity_id, t1);
        lemma_interact_action_roundtrip(p.action, t2);
    }
}

impl Encode for ServerboundInteract {
    fn encode(&self, dst: &mut BytesMut) -> (r: Result<(), ProtocolError>) {
        let ghost d0 = bytes_mut_data(*dst);
        let ghost e0 = VarInt::spec_encode(self.entity_id);
        let ghost e1 = interact_action_wire(self.action);
        let _ = self.entity_id.encode(dst);
        encode_interact_action(&self.action, dst);
        put_u8(dst, self.sneaking as u8);
        proof {
            lemma_concat_associative(d0, e0, e1);
            lemma_concat_associative(d0, e0 + e1, seq![bool_byte(self.sneaking)]);
        }
        Ok(())
    }
}

impl Decode for ServerboundInteract {
    fn decode(src: &mut Bytes) -> (r: Result<Self, ProtocolError>) {
        let entity_id = VarInt::decode(src)?;
        let action = decode_interact_action(src)?;
        need_msg(src, 1, "Missing bytes for sneaking")?;
        let sneaking = get_u8(src) != 0;
        Ok(Self { entity_id, action, sneaking })
    }
}


/// Reading one entity id.
pub open spec fn destroyed_item_spec(t: Seq<u8>) -> Parsed<VarInt> {
    VarInt::spec_decode(t)
}

/// The bytes of one entity id.
pub open spec fn destroyed_item_wire(x: VarInt) -> Seq<u8> {
    VarInt::spec_encode(x)
}

/// The entity ids that read back.
pub open spec fn destroyed_item_fits(x: VarInt) -> bool {
    true
}

pub open spec fn destroyed_item() -> spec_fn(Seq<u8>) -> Parsed<VarInt> {
    |t: Seq<u8>| destroyed_item_spec(t)
}

pub open spec fn destroyed_piece() -> spec_fn(VarInt) -> Seq<u8> {
    |x: VarInt| destroyed_item_wire(x)
}

fn decode_destroyed_item(src: &mut Bytes) -> (r: Result<VarInt, ProtocolError>)
    requires
        !panics(destroyed_item_spec(bytes_data(*old(src)))),
    ensures
        destroyed_item_spec(bytes_data(*old(src))) == (
            match r {
                Ok(x) => Ok(x),
                Err(e) => Err(e@),
            },
            bytes_data(*final(src)),
        ),
{
    VarInt::decode(src)
}

fn encode_destroyed_item(x: &VarInt, dst: &mut BytesMut)
    ensures
        bytes_mut_data(*final(dst)) == bytes_mut_data(*old(dst)) + destroyed_item_wire(*x),
{
    let _ = x.encode(dst);
}

proof fn lemma_destroyed_item_roundtrip(x: VarInt, rest: Seq<u8>)
    requires
        destroyed_item_fits(x),
    ensures
        destroyed_item_spec(destroyed_item_wire(x) + rest) == (Ok::<VarInt, ErrorView>(x), rest),
{
    VarInt::lemma_roundtrip(x, rest);
}

// ── ClientboundDestroyEntities ───────────────────────────────────────

/// The entities to remove. On the wire the first VarInt is the number of
/// entities; decoding keeps it both as `entity_ids` and as `count`, and
/// encoding writes `entity_ids` and then each entity.
#[derive(Debug, Clone, PartialEq)]
pub struct ClientboundDestroyEntities {
    pub entity_ids: VarInt,
    pub count: VarInt,
    pub entities: Vec<VarInt>,
}

pub struct ClientboundDestroyEntitiesView {
    pub entity_ids: VarInt,
    pub count: VarInt,
    pub entities: Seq<VarInt>,
}

impl View for ClientboundDestroyEntities {
    type V = ClientboundDestroyEntitiesView;

    open spec fn view(&self) -> ClientboundDestroyEntitiesView {
        ClientboundDestroyEntitiesView {
            entity_ids: self.entity_ids,
            count: self.count,
            entities: self.entities@,
        }
    }
}

impl PacketId for ClientboundDestroyEntities {
    open spec fn spec_packet_id(ver: u32) -> u8 {
        0x36
    }

    fn packet_id(_ver: u32) -> (r: u8) {
        0x36
    }
}

/// Reading the entities that follow the count `entity_ids`.
pub open spec fn destroyed_entities_spec(entity_ids: VarInt, s: Seq<u8>) -> Parsed<ClientboundDestroyEntitiesView> {
    then(
        read_n(s, entity_ids.0 as nat, destroyed_item()),
        |entities: Seq<VarInt>, s: Seq<u8>|
            (Ok(ClientboundDestroyEntitiesView { entity_ids, count: entity_ids, entities }), s),
    )
}

impl WireFormat for ClientboundDestroyEntities {
    open spec fn spec_encode(p: ClientboundDestroyEntitiesView) -> Seq<u8> {
        VarInt::spec_encode(p.entity_ids) + write_all(p.entities, destroyed_piece())
    }

    /// A negative count asks for an allocation that cannot be made.
    open spec fn spec_decode(s: Seq<u8>) -> Parsed<ClientboundDestroyEntitiesView> {
        then(
            VarInt::spec_decode(s),
            |entity_ids: VarInt, s: Seq<u8>|
                if entity_ids.0 < 0 {
                    (Err(ErrorView::Panic), s)
                } else {
                    destroyed_entities_spec(entity_ids, s)
                },
        )
    }
}

impl Roundtrip for ClientboundDestroyEntities {
    /// The packets whose first VarInt counts their entities, and whose
    /// `count` repeats it.
    open spec fn encodable(p: ClientboundDestroyEntitiesView) -> bool {
        &&& p.entities.len() == p.entity_ids.0
        &&& p.count == p.entity_ids
    }

    open spec fn reads_to_end() -> bool {
        false
    }

    proof fn lemma_roundtrip(p: ClientboundDestroyEntitiesView, rest: Seq<u8>) {
        let body = write_all(p.entities, destroyed_piece()) + rest;
        lemma_concat_associative(VarInt::spec_encode(p.entity_ids), write_all(p.entities, destroyed_piece()), rest);
        VarInt::lemma_roundtrip(p.entity_ids, body);
        assert forall|x: VarInt, r: Seq<u8>| destroyed_item_fits(x) implies #[trigger] destroyed_item()(
            destroyed_piece()(x) + r,
        ) == (Ok::<VarInt, ErrorView>(x), r) by {
            lemma_destroyed_item_roundtrip(x, r);
        }
        lemma_read_write_n(p.entities, rest, destroyed_item(), destroyed_piece(), |x: VarInt| destroyed_item_fits(x));
    }
}

impl Encode for ClientboundDestroyEntities {
    fn encode(&self, dst: &mut BytesMut) -> (r: Result<(), ProtocolError>) {
        let ghost d_start = bytes_mut_data(*dst);
        let _ = self.entity_ids.encode(dst);
        let ghost d0 = bytes_mut_data(*dst);
        let ghost xs = self.entities@;
        let mut i: usize = 0;
        assert(xs.take(0) =~= Seq::<VarInt>::empty());
        assert(d0 + write_all(xs.take(0), destroyed_piece()) =~= d0);
        while i < self.entities.len()
            invariant
                xs == self.entities@,
                i <= self.entities.len(),
                bytes_mut_data(*dst) == d0 + write_all(xs.take(i as int), destroyed_piece()),
            decreases self.entities.len() - i,
        {
            encode_destroyed_item(&self.entities[i], dst);
            assert(xs.take(i as int + 1).drop_last() =~= xs.take(i as int));
            assert(bytes_mut_data(*dst) =~= d0 + write_all(xs.take(i as int + 1), destroyed_piece()));
            i += 1;
        }
        assert(xs.take(self.entities.len() as int) =~= xs);
        assert(bytes_mut_data(*dst) =~= d_start + Self::spec_encode(self@));
        Ok(())
    }
}

impl Decode for ClientboundDestroyEntities {
    fn decode(src: &mut Bytes) -> (r: Result<Self, ProtocolError>) {
        let entity_ids = VarInt::decode(src)?;
        let count = entity_ids.0 as usize;
        let ghost s1 = bytes_data(*src);
        let mut entities: Vec<VarInt> = Vec::new();
        let mut i: usize = 0;
        assert(entities@ =~= Seq::<VarInt>::empty());
        while i < count
            invariant
                0 <= entity_ids.0,
                count == entity_ids.0 as usize,
                i <= count,
                !panics(read_n(s1, count as nat, destroyed_item())),
                read_n(s1, i as nat, destroyed_item()) == (Ok::<Seq<VarInt>, ErrorView>(entities@), bytes_data(*src)),
                Self::spec_decode(bytes_data(*old(src))) == destroyed_entities_spec(entity_ids, s1),
            decreases count - i,
        {
            proof {
                if panics(destroyed_item_spec(bytes_data(*src))) {
                    lemma_read_n_err(s1, (i + 1) as nat, count as nat, destroyed_item());
                }
            }
            let x = match decode_destroyed_item(src) {
                Ok(x) => x,
                Err(e) => {
                    proof {
                        lemma_read_n_err(s1, (i + 1) as nat, count as nat, destroyed_item());
                    }
                    return Err(e);
                },
            };
            entities.push(x);
            i += 1;
        }
        Ok(Self { entity_ids, count: entity_ids, entities })
    }
}


// ── ClientboundTitle ─────────────────────────────────────────────────

#[derive(Debug, Clone, PartialEq)]
pub struct ClientboundTitle {
    pub action: VarInt,
    pub title_text: Option<String>,
    pub fade_in: i32,
    pub stay: i32,
    pub fade_out: i32,
}

pub struct ClientboundTitleView {
    pub action: VarInt,
    pub title_text: Option<Seq<char>>,
    pub fade_in: i32,
    pub stay: i32,
    pub fade_out: i32,
}

impl View for ClientboundTitle {
    type V = ClientboundTitleView;

    open spec fn view(&self) -> ClientboundTitleView {
        ClientboundTitleView {
            action: self.action,
            title_text: match self.title_text {
                Some(t) => Some(t@),
                None => None,
            },
            fade_in: self.fade_in,
            stay: self.stay,
            fade_out: self.fade_out,
        }
    }
}

impl PacketId for ClientboundTitle {
    open spec fn spec_packet_id(ver: u32) -> u8 {
        0x4F
    }

    fn packet_id(_ver: u32) -> (r: u8) {
        0x4F
    }
}

/// Actions 0 and 2 carry a text and the three timings.
pub open spec fn title_action_has_text(action: VarInt) -> bool {
    action.0 == 0 || action.0 == 2
}

impl WireFormat for ClientboundTitle {
    open spec fn spec_encode(p: ClientboundTitleView) -> Seq<u8> {
        VarInt::spec_encode(p.action) + match p.title_text {
            Some(t) => string_wire(t) + (be_i32_bytes(p.fade_in) + (be_i32_bytes(p.stay) + be_i32_bytes(p.fade_out))),
            None => Seq::<u8>::empty(),
        }
    }

    /// The timings are read without a length check first; an action
    /// without text leaves them at 0.
    open spec fn spec_decode(s: Seq<u8>) -> Parsed<ClientboundTitleView> {
        then(
            VarInt::spec_decode(s),
            |action: VarInt, s: Seq<u8>|
                if title_action_has_text(action) {
                    then(
                        string_spec(s),
                        |t: Seq<char>, s: Seq<u8>|
                            then(
                                take_i32(s),
                                |fade_in: i32, s: Seq<u8>|
                                    then(
                                        take_i32(s),
                                        |stay: i32, s: Seq<u8>|
                                            then(
                                                take_i32(s),
                                                |fade_out: i32, s: Seq<u8>|
                                                    (
                                                        Ok(
                                                            ClientboundTitleView {
                                                                action,
                                                                title_text: Some(t),
                                                                fade_in,
                                                                stay,
                                                                fade_out,
                                                            },
                                                        ),
                                                        s,
                                                    ),
                                            ),
                                    ),
                            ),
                    )
                } else {
                    (Ok(ClientboundTitleView { action, title_text: None, fade_in: 0, stay: 0, fade_out: 0 }), s)
                },
        )
    }
}

impl Roundtrip for ClientboundTitle {
    /// A text exactly for the actions that carry one, and zero timings
    /// without one.
    open spec fn encodable(p: ClientboundTitleView) -> bool {
        &&& p.title_text is Some == title_action_has_text(p.action)
        &&& (p.title_text matches Some(t) ==> string_fits(t))
        &&& (p.title_text is None ==> p.fade_in == 0 && p.stay == 0 && p.fade_out == 0)
    }

    open spec fn reads_to_end() -> bool {
        false
    }

    proof fn lemma_roundtrip(p: ClientboundTitleView, rest: Seq<u8>) {
        broadcast use group_wire_roundtrip;

        let e1 = match p.title_text {
            Some(t) => string_wire(t) + (be_i32_bytes(p.fade_in) + (be_i32_bytes(p.stay) + be_i32_bytes(p.fade_out))),
            None => Seq::<u8>::empty(),
        };
        lemma_concat_associative(VarInt::spec_encode(p.action), e1, rest);
        VarInt::lemma_roundtrip(p.action, e1 + rest);
        if let Some(t) = p.title_text {
            let c = be_i32_bytes(p.fade_out);
            let b = be_i32_bytes(p.stay) + c;
            let a = be_i32_bytes(p.fade_in) + b;
            lemma_concat_associative(string_wire(t), a, rest);
            lemma_concat_associative(be_i32_bytes(p.fade_in), b, rest);
            lemma_concat_associative(be_i32_bytes(p.stay), c, rest);
            lemma_string_field(t, a + rest);
        } else {
            assert(e1 + rest =~= rest);
        }
    }
}

impl Encode for ClientboundTitle {
    fn encode(&self, dst: &mut BytesMut) -> (r: Result<(), ProtocolError>) {
        let ghost d0 = bytes_mut_data(*dst);
        let _ = self.action.encode(dst);
        if let Some(text) = &self.title_text {
            encode_string(text.as_str(), dst);
            put_i32(dst, self.fade_in);
            put_i32(dst, self.stay);
            put_i32(dst, self.fade_out);
        }
        assert(bytes_mut_data(*dst) =~= d0 + Self::spec_encode(self@));
        Ok(())
    }
}

impl Decode for ClientboundTitle {
    fn decode(src: &mut Bytes) -> (r: Result<Self, ProtocolError>) {
        let action = VarInt::decode(src)?;
        let mut title_text = None;
        let mut fade_in: i32 = 0;
        let mut stay: i32 = 0;
        let mut fade_out: i32 = 0;
        if action.0 == 0 || action.0 == 2 {
            title_text = Some(decode_string(src)?);
            fade_in = get_i32(src);
            stay = get_i32(src);
            fade_out = get_i32(src);
        }
        Ok(Self { action, title_text, fade_in, stay, fade_out })
    }
}


} // verus!
