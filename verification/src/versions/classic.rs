//! Field readers and writers shared by the 1.7 to 1.12 packet modules: a
//! length check whose error names the byte counts, strings whose errors name
//! the field being read, and the byte-array forms these versions use.
use crate::buffer::{
    bytes_data, bytes_mut_data, copy_to_slice, get_i16, remaining, string_from_utf8,
};
use crate::codec::{result_view, string_read, string_wire, Decode, Encode, WireFormat, Roundtrip};
use crate::error::{io_error_owned, ErrorView, IoErrorKind, ProtocolError};
use crate::text::{decimal, invalid_utf8_message, missing_bytes_message, need_have_message};
use crate::types::VarInt;
use crate::wire::{be_i16_bytes, group_wire_roundtrip, panics, take_i16, take_rest, then, Parsed};
use bytes::{Bytes, BytesMut};
use vstd::prelude::*;

verus! {

/// What `need` reports: nothing when `n` bytes are left, else an error
/// naming both counts.
pub open spec fn need_spec(s: Seq<u8>, n: usize) -> Parsed<()> {
    if s.len() < n {
        (
            Err(
                ErrorView::Io(
                    IoErrorKind::UnexpectedEof,
                    "Need "@ + decimal(n as nat) + " bytes, have "@ + decimal(s.len()),
                ),
            ),
            s,
        )
    } else {
        (Ok(()), s)
    }
}

/// Fails unless at least `n` bytes are left.
pub fn need(src: &Bytes, n: usize) -> (r: Result<(), ProtocolError>)
    ensures
        need_spec(bytes_data(*src), n) == (result_view(r), bytes_data(*src)),
{
    let have = remaining(src);
    if have < n {
        Err(io_error_owned(IoErrorKind::UnexpectedEof, need_have_message(n, have)))
    } else {
        Ok(())
    }
}

/// The error a string read reports when its bytes run short.
pub open spec fn missing_for(ctx: Seq<char>) -> ErrorView {
    ErrorView::Io(IoErrorKind::UnexpectedEof, "Missing bytes for "@ + ctx)
}

/// The error a string read reports when its bytes are not UTF-8.
pub open spec fn invalid_in(ctx: Seq<char>) -> ErrorView {
    ErrorView::Io(IoErrorKind::InvalidData, "Invalid UTF-8 in "@ + ctx)
}

/// What `decode_str` reads, for the field named by `ctx`.
pub open spec fn str_spec(s: Seq<u8>, ctx: Seq<char>) -> Parsed<Seq<char>> {
    string_read(s, missing_for(ctx), invalid_in(ctx))
}

/// Writes a VarInt-prefixed UTF-8 string.
pub fn encode_str(s: &str, dst: &mut BytesMut)
    ensures
        bytes_mut_data(*final(dst)) == bytes_mut_data(*old(dst)) + string_wire(s@),
{
    crate::codec::write_string(s, dst)
}

/// Reads a VarInt-prefixed UTF-8 string; the errors name the field `ctx`.
pub fn decode_str(src: &mut Bytes, ctx: &str) -> (r: Result<String, ProtocolError>)
    requires
        !panics(str_spec(bytes_data(*old(src)), ctx@)),
    ensures
        str_spec(bytes_data(*old(src)), ctx@) == (result_view(r), bytes_data(*final(src))),
{
    let len = match VarInt::decode(src) {
        Ok(v) => v.0 as usize,
        Err(e) => return Err(e),
    };
    if remaining(src) < len {
        return Err(io_error_owned(IoErrorKind::UnexpectedEof, missing_bytes_message(ctx)));
    }
    let mut b = vec![0u8; len];
    copy_to_slice(src, &mut b);
    match string_from_utf8(b) {
        Ok(s) => Ok(s),
        Err(_) => Err(io_error_owned(IoErrorKind::InvalidData, invalid_utf8_message(ctx))),
    }
}

/// A byte array with an `i16` length prefix, each part checked by `need`.
pub open spec fn i16_bytes_spec(s: Seq<u8>) -> Parsed<Seq<u8>> {
    then(
        need_spec(s, 2),
        |_u: (), s: Seq<u8>|
            then(
                take_i16(s),
                |n: i16, s: Seq<u8>|
                    then(
                        need_spec(s, n as usize),
                        |_u: (), s: Seq<u8>|
                            (Ok::<Seq<u8>, ErrorView>(s.take(n as usize as int)), s.skip(n as usize as int)),
                    ),
            ),
    )
}

/// The wire form of an `i16`-prefixed byte array.
pub open spec fn i16_bytes_wire(b: Seq<u8>) -> Seq<u8> {
    be_i16_bytes(b.len() as i16) + b
}

/// Reads a byte array with an `i16` length prefix.
pub fn decode_i16_bytes(src: &mut Bytes) -> (r: Result<Vec<u8>, ProtocolError>)
    ensures
        i16_bytes_spec(bytes_data(*old(src))) == (result_view(r), bytes_data(*final(src))),
{
    need(src, 2)?;
    let n = get_i16(src) as usize;
    need(src, n)?;
    let mut b = vec![0u8; n];
    copy_to_slice(src, &mut b);
    Ok(b)
}

pub proof fn lemma_i16_bytes_roundtrip(b: Seq<u8>, rest: Seq<u8>)
    requires
        b.len() <= i16::MAX,
    ensures
        i16_bytes_spec(i16_bytes_wire(b) + rest) == (Ok::<Seq<u8>, ErrorView>(b), rest),
{
    broadcast use group_wire_roundtrip;

    let n = b.len() as i16;
    assert(i16_bytes_wire(b) + rest =~= be_i16_bytes(n) + (b + rest));
    assert((n as usize) as int == b.len());
    assert((b + rest).take(b.len() as int) =~= b);
    assert((b + rest).skip(b.len() as int) =~= rest);
}

} // verus!
