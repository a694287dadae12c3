//! The encoding and decoding traits every wire type implements, and their
//! implementations for the primitive types the packets carry.
use crate::buffer::{
    bytes_data, bytes_mut_data, copy_to_slice, get_i32, get_i64, get_i8, get_u16, get_u32, get_u64, get_u8,
    put_i32, put_i64, put_i8, put_slice, put_u16, put_u32, put_u64, put_u8, remaining, string_from_utf8,
};
use crate::error::{ErrorView, ProtocolError};
use crate::types::var_int::{varint_bytes, VarInt};
use crate::wire::{
    be_i32_bytes, be_i64_bytes, be_u16_bytes, be_u32_bytes, be_u64_bytes, bool_byte, group_wire_roundtrip,
    lemma_read_n_err, lemma_read_write_n, panics, read_n, take_bool, take_i32, take_i64, take_i8, take_u16,
    take_u32, take_u64, take_u8, then, write_all, Parsed,
};
use bytes::{Bytes, BytesMut};
use vstd::prelude::*;
use vstd::utf8::*;

verus! {

/// The wire format of a type, stated over its view: the bytes a value is
/// written as, and what reading a byte sequence yields.
pub trait WireFormat: View + Sized {
    /// The bytes that encoding `v` appends.
    spec fn spec_encode(v: Self::V) -> Seq<u8>;

    /// The value (or error) that decoding reads from the front of `s`, and
    /// the bytes left after it.
    spec fn spec_decode(s: Seq<u8>) -> Parsed<Self::V>;
}

/// Types whose decoder reads back what their encoder writes.
pub trait Roundtrip: WireFormat {
    /// The values whose encoding decodes back to themselves (for example,
    /// strings short enough for their length prefix).
    spec fn encodable(v: Self::V) -> bool;

    /// Whether decoding takes every byte left in the buffer, so that the
    /// encoding decodes back only when nothing follows it.
    spec fn reads_to_end() -> bool;

    /// Decoding the encoding of a value gives the value back, and leaves
    /// whatever followed it untouched.
    proof fn lemma_roundtrip(v: Self::V, rest: Seq<u8>)
        requires
            Self::encodable(v),
            Self::reads_to_end() ==> rest.len() == 0,
        ensures
            Self::spec_decode(Self::spec_encode(v) + rest) == (Ok::<Self::V, ErrorView>(v), rest),
    ;
}

/// The view of a decode result.
pub open spec fn result_view<T: View>(r: Result<T, ProtocolError>) -> Result<T::V, ErrorView> {
    match r {
        Ok(v) => Ok(v@),
        Err(e) => Err(e@),
    }
}

pub trait Encode: WireFormat {
    /// Appends the wire form of `self` to `dst`.
    fn encode(&self, dst: &mut BytesMut) -> (r: Result<(), ProtocolError>)
        ensures
            r is Ok,
            bytes_mut_data(*final(dst)) == bytes_mut_data(*old(dst)) + Self::spec_encode(self@),
    ;
}

pub trait Decode: WireFormat {
    /// Reads a value from the front of `src`, which keeps the bytes after it.
    fn decode(src: &mut Bytes) -> (r: Result<Self, ProtocolError>)
        requires
            !panics(Self::spec_decode(bytes_data(*old(src)))),
        ensures
            Self::spec_decode(bytes_data(*old(src))) == (result_view(r), bytes_data(*final(src))),
    ;
}

pub trait PacketId {
    /// The packet id used for the given protocol version.
    spec fn spec_packet_id(ver: u32) -> u8;

    fn packet_id(ver: u32) -> (r: u8)
        ensures
            r == Self::spec_packet_id(ver),
    ;
}

/// A VarInt read as its `i32` value.
pub open spec fn take_varint_i32(s: Seq<u8>) -> Parsed<i32> {
    then(VarInt::spec_decode(s), |x: VarInt, t: Seq<u8>| (Ok::<i32, ErrorView>(x.0), t))
}

/// The longest string, in bytes, that `String::decode` accepts.
pub const MAX_STRING_LEN: usize = 32767;

/// A length-prefixed UTF-8 string: a VarInt byte count, then the bytes.
pub open spec fn string_wire(s: Seq<char>) -> Seq<u8> {
    VarInt::spec_encode(VarInt(encode_utf8(s).len() as i32)) + encode_utf8(s)
}

/// The strings whose byte count fits the VarInt length prefix.
pub open spec fn string_fits(s: Seq<char>) -> bool {
    encode_utf8(s).len() <= i32::MAX
}

/// Reading a length-prefixed UTF-8 string, with the errors the caller reports
/// when the bytes run short (`eof`) or are not UTF-8 (`bad`).
pub open spec fn string_read(s: Seq<u8>, eof: ErrorView, bad: ErrorView) -> Parsed<Seq<char>> {
    then(
        VarInt::spec_decode(s),
        |v: VarInt, t: Seq<u8>|
            {
                let n = v.0 as usize;
                if t.len() < n {
                    (Err(eof), t)
                } else if valid_utf8(t.take(n as int)) {
                    (Ok(decode_utf8(t.take(n as int))), t.skip(n as int))
                } else {
                    (Err(bad), t.skip(n as int))
                }
            },
    )
}

pub proof fn lemma_string_roundtrip(c: Seq<char>, rest: Seq<u8>, eof: ErrorView, bad: ErrorView)
    requires
        string_fits(c),
    ensures
        string_read(string_wire(c) + rest, eof, bad) == (Ok::<Seq<char>, ErrorView>(c), rest),
{
    broadcast use vstd::utf8::encode_utf8_valid_utf8, vstd::utf8::encode_utf8_decode_utf8;

    let b = encode_utf8(c);
    let len = VarInt(b.len() as i32);
    let t = b + rest;
    assert(string_wire(c) + rest =~= VarInt::spec_encode(len) + t);
    VarInt::lemma_roundtrip(len, t);
    assert(len.0 as usize == b.len());
    assert(t.take(b.len() as int) =~= b);
    assert(t.skip(b.len() as int) =~= rest);
}

/// Writes a length-prefixed UTF-8 string.
pub fn write_string(s: &str, dst: &mut BytesMut)
    ensures
        bytes_mut_data(*final(dst)) == bytes_mut_data(*old(dst)) + string_wire(s@),
{
    let bytes = s.as_bytes();
    let len = VarInt(bytes.len() as i32);
    let _ = len.encode(dst);
    put_slice(dst, bytes);
    assert(bytes_mut_data(*dst) =~= bytes_mut_data(*old(dst)) + string_wire(s@));
}

impl WireFormat for i64 {
    open spec fn spec_encode(v: i64) -> Seq<u8> {
        be_i64_bytes(v)
    }

    open spec fn spec_decode(s: Seq<u8>) -> Parsed<i64> {
        if s.len() < 8 {
            (Err(ErrorView::UnexpectedEof), s)
        } else {
            take_i64(s)
        }
    }
}

impl Roundtrip for i64 {
    open spec fn encodable(v: i64) -> bool {
        true
    }

    open spec fn reads_to_end() -> bool {
        false
    }

    proof fn lemma_roundtrip(v: i64, rest: Seq<u8>) {
        broadcast use group_wire_roundtrip;

    }
}

impl Encode for i64 {
    fn encode(&self, dst: &mut BytesMut) -> (r: Result<(), ProtocolError>) {
        put_i64(dst, *self);
        Ok(())
    }
}

impl Decode for i64 {
    fn decode(src: &mut Bytes) -> (r: Result<Self, ProtocolError>) {
        if remaining(src) < 8 {
            return Err(ProtocolError::UnexpectedEof);
        }
        Ok(get_i64(src))
    }
}

/// The `f64` codec, on the value's bit pattern (`f64::to_bits`): eight
/// big-endian bytes; a short buffer is `UnexpectedEof`.
impl WireFormat for u64 {
    open spec fn spec_encode(v: u64) -> Seq<u8> {
        be_u64_bytes(v)
    }

    open spec fn spec_decode(s: Seq<u8>) -> Parsed<u64> {
        if s.len() < 8 {
            (Err(ErrorView::UnexpectedEof), s)
        } else {
            take_u64(s)
        }
    }
}

impl Roundtrip for u64 {
    open spec fn encodable(v: u64) -> bool {
        true
    }

    open spec fn reads_to_end() -> bool {
        false
    }

    proof fn lemma_roundtrip(v: u64, rest: Seq<u8>) {
        broadcast use group_wire_roundtrip;

    }
}

impl Encode for u64 {
    fn encode(&self, dst: &mut BytesMut) -> (r: Result<(), ProtocolError>) {
        put_u64(dst, *self);
        Ok(())
    }
}

impl Decode for u64 {
    fn decode(src: &mut Bytes) -> (r: Result<Self, ProtocolError>) {
        if remaining(src) < 8 {
            return Err(ProtocolError::UnexpectedEof);
        }
        Ok(get_u64(src))
    }
}

/// The `f32` codec, on the value's bit pattern (`f32::to_bits`): four
/// big-endian bytes; a short buffer is `UnexpectedEof`.
impl WireFormat for u32 {
    open spec fn spec_encode(v: u32) -> Seq<u8> {
        be_u32_bytes(v)
    }

    open spec fn spec_decode(s: Seq<u8>) -> Parsed<u32> {
        if s.len() < 4 {
            (Err(ErrorView::UnexpectedEof), s)
        } else {
            take_u32(s)
        }
    }
}

impl Roundtrip for u32 {
    open spec fn encodable(v: u32) -> bool {
        true
    }

    open spec fn reads_to_end() -> bool {
        false
    }

    proof fn lemma_roundtrip(v: u32, rest: Seq<u8>) {
        broadcast use group_wire_roundtrip;

    }
}

impl Encode for u32 {
    fn encode(&self, dst: &mut BytesMut) -> (r: Result<(), ProtocolError>) {
        put_u32(dst, *self);
        Ok(())
    }
}

impl Decode for u32 {
    fn decode(src: &mut Bytes) -> (r: Result<Self, ProtocolError>) {
        if remaining(src) < 4 {
            return Err(ProtocolError::UnexpectedEof);
        }
        Ok(get_u32(src))
    }
}

impl WireFormat for i32 {
    open spec fn spec_encode(v: i32) -> Seq<u8> {
        be_i32_bytes(v)
    }

    open spec fn spec_decode(s: Seq<u8>) -> Parsed<i32> {
        if s.len() < 4 {
            (Err(ErrorView::UnexpectedEof), s)
        } else {
            take_i32(s)
        }
    }
}

impl Roundtrip for i32 {
    open spec fn encodable(v: i32) -> bool {
        true
    }

    open spec fn reads_to_end() -> bool {
        false
    }

    proof fn lemma_roundtrip(v: i32, rest: Seq<u8>) {
        broadcast use group_wire_roundtrip;

    }
}

impl Encode for i32 {
    fn encode(&self, dst: &mut BytesMut) -> (r: Result<(), ProtocolError>) {
        put_i32(dst, *self);
        Ok(())
    }
}

impl Decode for i32 {
    fn decode(src: &mut Bytes) -> (r: Result<Self, ProtocolError>) {
        if remaining(src) < 4 {
            return Err(ProtocolError::UnexpectedEof);
        }
        Ok(get_i32(src))
    }
}

impl WireFormat for u8 {
    open spec fn spec_encode(v: u8) -> Seq<u8> {
        seq![v]
    }

    open spec fn spec_decode(s: Seq<u8>) -> Parsed<u8> {
        if s.len() < 1 {
            (Err(ErrorView::UnexpectedEof), s)
        } else {
            take_u8(s)
        }
    }
}

impl Roundtrip for u8 {
    open spec fn encodable(v: u8) -> bool {
        true
    }

    open spec fn reads_to_end() -> bool {
        false
    }

    proof fn lemma_roundtrip(v: u8, rest: Seq<u8>) {
        broadcast use group_wire_roundtrip;

    }
}

impl Encode for u8 {
    fn encode(&self, dst: &mut BytesMut) -> (r: Result<(), ProtocolError>) {
        put_u8(dst, *self);
        Ok(())
    }
}

impl Decode for u8 {
    fn decode(src: &mut Bytes) -> (r: Result<Self, ProtocolError>) {
        if remaining(src) < 1 {
            return Err(ProtocolError::UnexpectedEof);
        }
        Ok(get_u8(src))
    }
}

impl WireFormat for i8 {
    open spec fn spec_encode(v: i8) -> Seq<u8> {
        seq![v as u8]
    }

    open spec fn spec_decode(s: Seq<u8>) -> Parsed<i8> {
        if s.len() < 1 {
            (Err(ErrorView::UnexpectedEof), s)
        } else {
            take_i8(s)
        }
    }
}

impl Roundtrip for i8 {
    open spec fn encodable(v: i8) -> bool {
        true
    }

    open spec fn reads_to_end() -> bool {
        false
    }

    proof fn lemma_roundtrip(v: i8, rest: Seq<u8>) {
        broadcast use group_wire_roundtrip;

    }
}

impl Encode for i8 {
    fn encode(&self, dst: &mut BytesMut) -> (r: Result<(), ProtocolError>) {
        put_i8(dst, *self);
        Ok(())
    }
}

impl Decode for i8 {
    fn decode(src: &mut Bytes) -> (r: Result<Self, ProtocolError>) {
        if remaining(src) < 1 {
            return Err(ProtocolError::UnexpectedEof);
        }
        Ok(get_i8(src))
    }
}

impl WireFormat for bool {
    open spec fn spec_encode(v: bool) -> Seq<u8> {
        seq![bool_byte(v)]
    }

    open spec fn spec_decode(s: Seq<u8>) -> Parsed<bool> {
        if s.len() < 1 {
            (Err(ErrorView::UnexpectedEof), s)
        } else {
            take_bool(s)
        }
    }
}

impl Roundtrip for bool {
    open spec fn encodable(v: bool) -> bool {
        true
    }

    open spec fn reads_to_end() -> bool {
        false
    }

    proof fn lemma_roundtrip(v: bool, rest: Seq<u8>) {
        broadcast use group_wire_roundtrip;

    }
}

impl Encode for bool {
    fn encode(&self, dst: &mut BytesMut) -> (r: Result<(), ProtocolError>) {
        put_u8(dst, *self as u8);
        Ok(())
    }
}

impl Decode for bool {
    fn decode(src: &mut Bytes) -> (r: Result<Self, ProtocolError>) {
        if remaining(src) < 1 {
            return Err(ProtocolError::UnexpectedEof);
        }
        Ok(get_u8(src) != 0)
    }
}

impl WireFormat for u16 {
    open spec fn spec_encode(v: u16) -> Seq<u8> {
        be_u16_bytes(v)
    }

    open spec fn spec_decode(s: Seq<u8>) -> Parsed<u16> {
        if s.len() < 2 {
            (Err(ErrorView::UnexpectedEof), s)
        } else {
            take_u16(s)
        }
    }
}

impl Roundtrip for u16 {
    open spec fn encodable(v: u16) -> bool {
        true
    }

    open spec fn reads_to_end() -> bool {
        false
    }

    proof fn lemma_roundtrip(v: u16, rest: Seq<u8>) {
        broadcast use group_wire_roundtrip;

    }
}

impl Encode for u16 {
    fn encode(&self, dst: &mut BytesMut) -> (r: Result<(), ProtocolError>) {
        put_u16(dst, *self);
        Ok(())
    }
}

impl Decode for u16 {
    fn decode(src: &mut Bytes) -> (r: Result<Self, ProtocolError>) {
        if remaining(src) < 2 {
            return Err(ProtocolError::UnexpectedEof);
        }
        Ok(get_u16(src))
    }
}

/// What `String::decode` reads: a VarInt byte count of at most
/// `MAX_STRING_LEN`, then that many bytes of UTF-8.
pub open spec fn string_codec_read(s: Seq<u8>) -> Parsed<Seq<char>> {
    then(
        VarInt::spec_decode(s),
        |v: VarInt, t: Seq<u8>|
            {
                let n = v.0 as usize;
                if n > MAX_STRING_LEN {
                    (Err(ErrorView::StringTooLong(n, MAX_STRING_LEN)), t)
                } else if t.len() < n {
                    (Err(ErrorView::UnexpectedEof), t)
                } else if valid_utf8(t.take(n as int)) {
                    (Ok(decode_utf8(t.take(n as int))), t.skip(n as int))
                } else {
                    (Err(ErrorView::InvalidUtf8), t.skip(n as int))
                }
            },
    )
}

impl WireFormat for String {
    open spec fn spec_encode(v: Seq<char>) -> Seq<u8> {
        string_wire(v)
    }

    open spec fn spec_decode(s: Seq<u8>) -> Parsed<Seq<char>> {
        string_codec_read(s)
    }
}

impl Roundtrip for String {
    open spec fn encodable(v: Seq<char>) -> bool {
        encode_utf8(v).len() <= MAX_STRING_LEN
    }

    open spec fn reads_to_end() -> bool {
        false
    }

    proof fn lemma_roundtrip(v: Seq<char>, rest: Seq<u8>) {
        broadcast use vstd::utf8::encode_utf8_valid_utf8, vstd::utf8::encode_utf8_decode_utf8;

        let b = encode_utf8(v);
        let len = VarInt(b.len() as i32);
        let t = b + rest;
        assert(string_wire(v) + rest =~= VarInt::spec_encode(len) + t);
        VarInt::lemma_roundtrip(len, t);
        assert(len.0 as usize == b.len());
        assert(t.take(b.len() as int) =~= b);
        assert(t.skip(b.len() as int) =~= rest);
    }
}

impl Encode for String {
    fn encode(&self, dst: &mut BytesMut) -> (r: Result<(), ProtocolError>) {
        write_string(self.as_str(), dst);
        Ok(())
    }
}

impl Decode for String {
    fn decode(src: &mut Bytes) -> (r: Result<Self, ProtocolError>) {
        let n = VarInt::decode(src)?.0 as usize;
        if n > MAX_STRING_LEN {
            return Err(ProtocolError::StringTooLong(n, MAX_STRING_LEN));
        }
        if remaining(src) < n {
            return Err(ProtocolError::UnexpectedEof);
        }
        let mut b = vec![0u8; n];
        copy_to_slice(src, &mut b);
        match string_from_utf8(b) {
            Ok(s) => Ok(s),
            Err(e) => Err(ProtocolError::InvalidUtf8(e)),
        }
    }
}

/// The view of a list of strings.
pub open spec fn strings_view(v: Seq<String>) -> Seq<Seq<char>> {
    v.map_values(|x: String| x@)
}

pub open spec fn string_piece() -> spec_fn(Seq<char>) -> Seq<u8> {
    |c: Seq<char>| string_wire(c)
}

pub open spec fn string_list_wire(xs: Seq<Seq<char>>) -> Seq<u8> {
    VarInt::spec_encode(VarInt(xs.len() as i32)) + write_all(xs, string_piece())
}

/// The lists that `Vec::<String>` can carry and read back.
pub open spec fn string_vec_fits(xs: Seq<Seq<char>>) -> bool {
    xs.len() <= i32::MAX && forall|i: int| 0 <= i < xs.len() ==> <String as Roundtrip>::encodable(#[trigger] xs[i])
}

pub open spec fn string_vec_item() -> spec_fn(Seq<u8>) -> Parsed<Seq<char>> {
    |t: Seq<u8>| string_codec_read(t)
}

/// What `Vec::<String>::decode` reads: a VarInt count, then that many
/// strings as `String::decode` reads them. A negative count asks for an
/// allocation that cannot be made.
pub open spec fn string_vec_spec(s: Seq<u8>) -> Parsed<Seq<Seq<char>>> {
    then(
        take_varint_i32(s),
        |c: i32, s: Seq<u8>|
            if c < 0 {
                (Err(ErrorView::Panic), s)
            } else {
                read_n(s, c as nat, string_vec_item())
            },
    )
}

pub fn decode_string_vec(src: &mut Bytes) -> (r: Result<Vec<String>, ProtocolError>)
    requires
        !panics(string_vec_spec(bytes_data(*old(src)))),
    ensures
        string_vec_spec(bytes_data(*old(src))) == (
            match r {
                Ok(v) => Ok(strings_view(v@)),
                Err(e) => Err(e@),
            },
            bytes_data(*final(src)),
        ),
{
    let c = VarInt::decode(src)?.0;
    let ghost s1 = bytes_data(*src);
    let count = c as usize;
    let mut items: Vec<String> = Vec::new();
    let mut i: usize = 0;
    assert(strings_view(items@) =~= Seq::<Seq<char>>::empty());
    while i < count
        invariant
            0 <= c,
            count == c as usize,
            i <= count,
            !panics(read_n(s1, count as nat, string_vec_item())),
            read_n(s1, i as nat, string_vec_item()) == (
                Ok::<Seq<Seq<char>>, ErrorView>(strings_view(items@)),
                bytes_data(*src),
            ),
            string_vec_spec(bytes_data(*old(src))) == read_n(s1, count as nat, string_vec_item()),
        decreases count - i,
    {
        proof {
            if panics(string_codec_read(bytes_data(*src))) {
                lemma_read_n_err(s1, (i + 1) as nat, count as nat, string_vec_item());
            }
        }
        let x = match String::decode(src) {
            Ok(x) => x,
            Err(e) => {
                proof {
                    lemma_read_n_err(s1, (i + 1) as nat, count as nat, string_vec_item());
                }
                return Err(e);
            },
        };
        let ghost before = items@;
        items.push(x);
        assert(strings_view(items@) =~= strings_view(before).push(x@));
        i += 1;
    }
    Ok(items)
}

pub fn encode_string_vec(v: &Vec<String>, dst: &mut BytesMut)
    ensures
        bytes_mut_data(*final(dst)) == bytes_mut_data(*old(dst)) + string_list_wire(strings_view(v@)),
{
    let _ = VarInt(v.len() as i32).encode(dst);
    let ghost d0 = bytes_mut_data(*dst);
    let ghost xs = strings_view(v@);
    let mut i: usize = 0;
    assert(xs.take(0) =~= Seq::<Seq<char>>::empty());
    assert(d0 + write_all(xs.take(0), string_piece()) =~= d0);
    while i < v.len()
        invariant
            xs == strings_view(v@),
            i <= v.len(),
            bytes_mut_data(*dst) == d0 + write_all(xs.take(i as int), string_piece()),
        decreases v.len() - i,
    {
        write_string(v[i].as_str(), dst);
        assert(xs.take(i as int + 1).drop_last() =~= xs.take(i as int));
        assert(bytes_mut_data(*dst) =~= d0 + write_all(xs.take(i as int + 1), string_piece()));
        i += 1;
    }
    assert(xs.take(v.len() as int) =~= xs);
    assert(bytes_mut_data(*dst) =~= bytes_mut_data(*old(dst)) + string_list_wire(xs));
}

pub proof fn lemma_string_vec_roundtrip(xs: Seq<Seq<char>>, rest: Seq<u8>)
    requires
        string_vec_fits(xs),
    ensures
        string_vec_spec(string_list_wire(xs) + rest) == (Ok::<Seq<Seq<char>>, ErrorView>(xs), rest),
{
    let body = write_all(xs, string_piece()) + rest;
    assert(string_list_wire(xs) + rest =~= VarInt::spec_encode(VarInt(xs.len() as i32)) + body);
    VarInt::lemma_roundtrip(VarInt(xs.len() as i32), body);
    assert forall|x: Seq<char>, r: Seq<u8>| <String as Roundtrip>::encodable(x) implies #[trigger] string_vec_item()(
        string_piece()(x) + r,
    ) == (Ok::<Seq<char>, ErrorView>(x), r) by {
        <String as Roundtrip>::lemma_roundtrip(x, r);
    }
    lemma_read_write_n(xs, rest, string_vec_item(), string_piece(), |x: Seq<char>| <String as Roundtrip>::encodable(x));
}

/// The view of an optional (dimension, position) pair.
pub open spec fn dim_pos_view(o: Option<(String, i64)>) -> Option<(Seq<char>, i64)> {
    match o {
        Some((d, p)) => Some((d@, p)),
        None => None,
    }
}

/// The wire form of an optional (dimension, position) pair: a flag byte,
/// then the name and the packed position when present.
pub open spec fn dim_pos_wire(o: Option<(Seq<char>, i64)>) -> Seq<u8> {
    match o {
        Some((d, p)) => seq![1u8] + string_wire(d) + be_i64_bytes(p),
        None => seq![0u8],
    }
}

/// What the codec reads for an optional (dimension, position) pair: a
/// `bool` flag, then a `String` and an `i64` when it is set.
pub open spec fn dim_pos_codec_spec(s: Seq<u8>) -> Parsed<Option<(Seq<char>, i64)>> {
    then(
        <bool as WireFormat>::spec_decode(s),
        |has: bool, s: Seq<u8>|
            if has {
                then(
                    <String as WireFormat>::spec_decode(s),
                    |dim: Seq<char>, s: Seq<u8>|
                        then(
                            <i64 as WireFormat>::spec_decode(s),
                            |pos: i64, s: Seq<u8>|
                                (Ok::<Option<(Seq<char>, i64)>, ErrorView>(Some((dim, pos))), s),
                        ),
                )
            } else {
                (Ok(None), s)
            },
    )
}

pub open spec fn dim_pos_codec_fits(o: Option<(Seq<char>, i64)>) -> bool {
    match o {
        Some((d, _p)) => <String as Roundtrip>::encodable(d),
        None => true,
    }
}

pub fn decode_dim_pos_codec(src: &mut Bytes) -> (r: Result<Option<(String, i64)>, ProtocolError>)
    requires
        !panics(dim_pos_codec_spec(bytes_data(*old(src)))),
    ensures
        dim_pos_codec_spec(bytes_data(*old(src))) == (
            match r {
                Ok(o) => Ok(dim_pos_view(o)),
                Err(e) => Err(e@),
            },
            bytes_data(*final(src)),
        ),
{
    let has = bool::decode(src)?;
    if has {
        let dim = String::decode(src)?;
        let pos = i64::decode(src)?;
        Ok(Some((dim, pos)))
    } else {
        Ok(None)
    }
}

pub fn encode_dim_pos_codec(o: &Option<(String, i64)>, dst: &mut BytesMut)
    ensures
        bytes_mut_data(*final(dst)) == bytes_mut_data(*old(dst)) + dim_pos_wire(dim_pos_view(*o)),
{
    match o {
        Some((dim, pos)) => {
            put_u8(dst, 1);
            write_string(dim.as_str(), dst);
            put_i64(dst, *pos);
        },
        None => put_u8(dst, 0),
    }
    assert(bytes_mut_data(*dst) =~= bytes_mut_data(*old(dst)) + dim_pos_wire(dim_pos_view(*o)));
}

pub proof fn lemma_dim_pos_codec_roundtrip(o: Option<(Seq<char>, i64)>, rest: Seq<u8>)
    requires
        dim_pos_codec_fits(o),
    ensures
        dim_pos_codec_spec(dim_pos_wire(o) + rest) == (Ok::<Option<(Seq<char>, i64)>, ErrorView>(o), rest),
{
    broadcast use group_wire_roundtrip;

    match o {
        Some((d, p)) => {
            let t1 = be_i64_bytes(p) + rest;
            assert(dim_pos_wire(o) + rest =~= seq![bool_byte(true)] + (string_wire(d) + t1));
            <String as Roundtrip>::lemma_roundtrip(d, t1);
        },
        None => {
            assert(dim_pos_wire(o) + rest =~= seq![bool_byte(false)] + rest);
        },
    }
}

} // verus!
