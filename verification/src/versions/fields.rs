//! Field helpers shared by the packet modules: length checks and string
//! reads that report fixed messages, and the readers of trailing bytes and
//! VarInt-coded integers.
use crate::buffer::{advance, bytes_data, copy_to_slice, remaining};
use crate::codec::{lemma_string_roundtrip, result_view, string_fits, string_read, string_wire, Decode, WireFormat};
use crate::error::{io_error, ErrorView, IoErrorKind, ProtocolError};
use crate::types::VarInt;
use crate::wire::{panics, take_rest, then, Parsed};
use bytes::Bytes;
use vstd::prelude::*;

verus! {

/// A length check that fails with the fixed message `msg`.
pub open spec fn need_msg_spec(s: Seq<u8>, n: usize, msg: Seq<char>) -> Parsed<()> {
    if s.len() < n {
        (Err(ErrorView::Io(IoErrorKind::UnexpectedEof, msg)), s)
    } else {
        (Ok(()), s)
    }
}

/// Fails with `msg` unless at least `n` bytes are left.
pub fn need_msg(src: &Bytes, n: usize, msg: &str) -> (r: Result<(), ProtocolError>)
    ensures
        need_msg_spec(bytes_data(*src), n, msg@) == (result_view(r), bytes_data(*src)),
{
    if remaining(src) < n {
        Err(io_error(IoErrorKind::UnexpectedEof, msg))
    } else {
        Ok(())
    }
}

/// A VarInt-prefixed UTF-8 string whose errors carry the fixed messages
/// `missing` (too few bytes) and `invalid` (not UTF-8).
pub open spec fn fixed_str_spec(s: Seq<u8>, missing: Seq<char>, invalid: Seq<char>) -> Parsed<Seq<char>> {
    string_read(
        s,
        ErrorView::Io(IoErrorKind::UnexpectedEof, missing),
        ErrorView::Io(IoErrorKind::InvalidData, invalid),
    )
}

/// Reads a VarInt-prefixed UTF-8 string, failing with `missing` or
/// `invalid`.
pub fn decode_fixed_str(src: &mut Bytes, missing: &str, invalid: &str) -> (r: Result<String, ProtocolError>)
    requires
        !panics(fixed_str_spec(bytes_data(*old(src)), missing@, invalid@)),
    ensures
        fixed_str_spec(bytes_data(*old(src)), missing@, invalid@) == (result_view(r), bytes_data(*final(src))),
{
    let len = match VarInt::decode(src) {
        Ok(v) => v.0 as usize,
        Err(e) => return Err(e),
    };
    if remaining(src) < len {
        return Err(io_error(IoErrorKind::UnexpectedEof, missing));
    }
    let mut b = vec![0u8; len];
    copy_to_slice(src, &mut b);
    match crate::buffer::string_from_utf8(b) {
        Ok(s) => Ok(s),
        Err(_) => Err(io_error(IoErrorKind::InvalidData, invalid)),
    }
}

pub proof fn lemma_fixed_str_roundtrip(c: Seq<char>, rest: Seq<u8>, missing: Seq<char>, invalid: Seq<char>)
    requires
        string_fits(c),
    ensures
        fixed_str_spec(string_wire(c) + rest, missing, invalid) == (Ok::<Seq<char>, ErrorView>(c), rest),
{
    lemma_string_roundtrip(
        c,
        rest,
        ErrorView::Io(IoErrorKind::UnexpectedEof, missing),
        ErrorView::Io(IoErrorKind::InvalidData, invalid),
    );
}

/// Takes every byte left.
pub fn take_remaining(src: &mut Bytes) -> (r: Vec<u8>)
    ensures
        take_rest(bytes_data(*old(src))) == (Ok::<Seq<u8>, ErrorView>(r@), bytes_data(*final(src))),
{
    let len = remaining(src);
    let mut b = vec![0u8; len];
    copy_to_slice(src, &mut b);
    assert(bytes_data(*old(src)).take(len as int) =~= bytes_data(*old(src)));
    assert(bytes_data(*src) =~= Seq::<u8>::empty());
    b
}

/// A length check that fails with `UnexpectedEof`.
pub open spec fn need_eof_spec(s: Seq<u8>, n: usize) -> Parsed<()> {
    if s.len() < n {
        (Err(ErrorView::UnexpectedEof), s)
    } else {
        (Ok(()), s)
    }
}

/// Fails with `UnexpectedEof` unless at least `n` bytes are left.
pub fn need_eof(src: &Bytes, n: usize) -> (r: Result<(), ProtocolError>)
    ensures
        need_eof_spec(bytes_data(*src), n) == (result_view(r), bytes_data(*src)),
{
    if remaining(src) < n {
        Err(ProtocolError::UnexpectedEof)
    } else {
        Ok(())
    }
}

/// A VarInt-prefixed UTF-8 string that fails with `UnexpectedEof` both
/// when bytes are missing and when they are not UTF-8.
pub open spec fn eof_str_spec(s: Seq<u8>) -> Parsed<Seq<char>> {
    string_read(s, ErrorView::UnexpectedEof, ErrorView::UnexpectedEof)
}

/// Reads a VarInt-prefixed UTF-8 string, failing with `UnexpectedEof`.
pub fn decode_eof_str(src: &mut Bytes) -> (r: Result<String, ProtocolError>)
    requires
        !panics(eof_str_spec(bytes_data(*old(src)))),
    ensures
        eof_str_spec(bytes_data(*old(src))) == (result_view(r), bytes_data(*final(src))),
{
    let len = match VarInt::decode(src) {
        Ok(v) => v.0 as usize,
        Err(e) => return Err(e),
    };
    if remaining(src) < len {
        return Err(ProtocolError::UnexpectedEof);
    }
    let mut b = vec![0u8; len];
    copy_to_slice(src, &mut b);
    match crate::buffer::string_from_utf8(b) {
        Ok(s) => Ok(s),
        Err(_) => Err(ProtocolError::UnexpectedEof),
    }
}

pub proof fn lemma_eof_str_roundtrip(c: Seq<char>, rest: Seq<u8>)
    requires
        string_fits(c),
    ensures
        eof_str_spec(string_wire(c) + rest) == (Ok::<Seq<char>, ErrorView>(c), rest),
{
    lemma_string_roundtrip(c, rest, ErrorView::UnexpectedEof, ErrorView::UnexpectedEof);
}

/// Skipping every byte left.
pub open spec fn skip_rest_spec(s: Seq<u8>) -> Parsed<()> {
    (Ok(()), Seq::<u8>::empty())
}

/// Skips every byte left.
pub fn skip_remaining(src: &mut Bytes)
    ensures
        skip_rest_spec(bytes_data(*old(src))) == (Ok::<(), ErrorView>(()), bytes_data(*final(src))),
{
    let n = remaining(src);
    advance(src, n);
    assert(bytes_data(*src) =~= Seq::<u8>::empty());
}

} // verus!
