//! The `bytes` crate's buffers as the codec sees them: `Bytes` is read from
//! the front, `BytesMut` is appended to. Each wrapper below makes one call
//! into the crate (or into std) and states what its documentation promises.
use crate::wire::{
    be_i16_bytes, be_i32_bytes, be_i64_bytes, be_u16_bytes, be_u32_bytes, be_u64_bytes, take_i16, take_i32, take_i64, take_u32,
    take_i8, take_u16, take_u64, take_u8,
};
use bytes::{Buf, BufMut, Bytes, BytesMut};
use std::string::FromUtf8Error;
use vstd::prelude::*;
use vstd::utf8::*;

verus! {

#[verifier::external_type_specification]
#[verifier::external_body]
pub struct ExBytes(Bytes);

#[verifier::external_type_specification]
#[verifier::external_body]
pub struct ExBytesMut(BytesMut);

/// The bytes that a `Bytes` buffer still holds, from its read position on.
pub uninterp spec fn bytes_data(b: Bytes) -> Seq<u8>;

/// The bytes written so far into a `BytesMut` buffer.
pub uninterp spec fn bytes_mut_data(b: BytesMut) -> Seq<u8>;

/// `BytesMut::new`: an empty buffer.
#[verifier::external_body]
pub(crate) fn bytes_mut_new() -> (r: BytesMut)
    ensures
        bytes_mut_data(r) == Seq::<u8>::empty(),
{
    BytesMut::new()
}

/// `BytesMut::clear`: drops every byte written so far.
#[verifier::external_body]
pub(crate) fn clear(dst: &mut BytesMut)
    ensures
        bytes_mut_data(*final(dst)) == Seq::<u8>::empty(),
{
    dst.clear()
}

/// `Bytes::from(Vec<u8>)`: a buffer that holds the bytes of `v`.
#[verifier::external_body]
fn bytes_from(v: Vec<u8>) -> (r: Bytes)
    ensures
        bytes_data(r) == v@,
{
    Bytes::from(v)
}

/// A buffer to decode from, holding the bytes of `v`: with it a caller
/// knows `bytes_data` of what it hands a decoder, so it can meet the
/// decoder's precondition.
pub fn bytes_from_vec(v: Vec<u8>) -> (r: Bytes)
    ensures
        bytes_data(r) == v@,
{
    bytes_from(v)
}

/// `BytesMut::freeze`: the same bytes, as a read-only `Bytes`.
#[verifier::external_body]
pub(crate) fn freeze(b: BytesMut) -> (r: Bytes)
    ensures
        bytes_data(r) == bytes_mut_data(b),
{
    b.freeze()
}

/// `BufMut::put_u8`: appends one byte.
#[verifier::external_body]
pub(crate) fn put_u8(dst: &mut BytesMut, v: u8)
    ensures
        bytes_mut_data(*final(dst)) == bytes_mut_data(*old(dst)).push(v),
{
    dst.put_u8(v)
}

/// `BufMut::put_i8`: appends the byte of a signed value.
#[verifier::external_body]
pub(crate) fn put_i8(dst: &mut BytesMut, v: i8)
    ensures
        bytes_mut_data(*final(dst)) == bytes_mut_data(*old(dst)).push(v as u8),
{
    dst.put_i8(v)
}

/// `BufMut::put_u16`: appends two bytes, big-endian.
#[verifier::external_body]
pub(crate) fn put_u16(dst: &mut BytesMut, v: u16)
    ensures
        bytes_mut_data(*final(dst)) == bytes_mut_data(*old(dst)) + be_u16_bytes(v),
{
    dst.put_u16(v)
}

/// `BufMut::put_i16`: appends two bytes, big-endian.
#[verifier::external_body]
pub(crate) fn put_i16(dst: &mut BytesMut, v: i16)
    ensures
        bytes_mut_data(*final(dst)) == bytes_mut_data(*old(dst)) + be_i16_bytes(v),
{
    dst.put_i16(v)
}

/// `BufMut::put_i32`: appends four bytes, big-endian.
#[verifier::external_body]
pub(crate) fn put_i32(dst: &mut BytesMut, v: i32)
    ensures
        bytes_mut_data(*final(dst)) == bytes_mut_data(*old(dst)) + be_i32_bytes(v),
{
    dst.put_i32(v)
}

/// `BufMut::put_u32`: appends four bytes, big-endian.
#[verifier::external_body]
pub(crate) fn put_u32(dst: &mut BytesMut, v: u32)
    ensures
        bytes_mut_data(*final(dst)) == bytes_mut_data(*old(dst)) + be_u32_bytes(v),
{
    dst.put_u32(v)
}

/// `BufMut::put_i64`: appends eight bytes, big-endian.
#[verifier::external_body]
pub(crate) fn put_i64(dst: &mut BytesMut, v: i64)
    ensures
        bytes_mut_data(*final(dst)) == bytes_mut_data(*old(dst)) + be_i64_bytes(v),
{
    dst.put_i64(v)
}

/// `BufMut::put_u64`: appends eight bytes, big-endian.
#[verifier::external_body]
pub(crate) fn put_u64(dst: &mut BytesMut, v: u64)
    ensures
        bytes_mut_data(*final(dst)) == bytes_mut_data(*old(dst)) + be_u64_bytes(v),
{
    dst.put_u64(v)
}

/// `BufMut::put_slice`: appends the bytes of `src`.
#[verifier::external_body]
pub(crate) fn put_slice(dst: &mut BytesMut, src: &[u8])
    ensures
        bytes_mut_data(*final(dst)) == bytes_mut_data(*old(dst)) + src@,
{
    dst.put_slice(src)
}

/// `BytesMut::extend_from_slice`: appends the bytes of `src`.
#[verifier::external_body]
pub(crate) fn extend_from_slice(dst: &mut BytesMut, src: &[u8])
    ensures
        bytes_mut_data(*final(dst)) == bytes_mut_data(*old(dst)) + src@,
{
    dst.extend_from_slice(src)
}

/// `Buf::remaining`: how many bytes are left to read.
#[verifier::external_body]
pub(crate) fn remaining(src: &Bytes) -> (r: usize)
    ensures
        r == bytes_data(*src).len(),
{
    src.remaining()
}

/// `Bytes::is_empty`: whether no bytes are left to read.
#[verifier::external_body]
pub(crate) fn is_empty(src: &Bytes) -> (r: bool)
    ensures
        r == (bytes_data(*src).len() == 0),
{
    src.is_empty()
}

/// `Buf::get_u8`: reads one byte. Panics when the buffer is empty.
#[verifier::external_body]
pub(crate) fn get_u8(src: &mut Bytes) -> (r: u8)
    requires
        bytes_data(*old(src)).len() >= 1,
    ensures
        (Ok::<u8, crate::error::ErrorView>(r), bytes_data(*final(src))) == take_u8(bytes_data(*old(src))),
{
    src.get_u8()
}

/// `Buf::get_i8`: reads one byte as a signed value. Panics when the buffer is empty.
#[verifier::external_body]
pub(crate) fn get_i8(src: &mut Bytes) -> (r: i8)
    requires
        bytes_data(*old(src)).len() >= 1,
    ensures
        (Ok::<i8, crate::error::ErrorView>(r), bytes_data(*final(src))) == take_i8(bytes_data(*old(src))),
{
    src.get_i8()
}

/// `Buf::get_u16`: reads two bytes, big-endian. Panics with fewer than two left.
#[verifier::external_body]
pub(crate) fn get_u16(src: &mut Bytes) -> (r: u16)
    requires
        bytes_data(*old(src)).len() >= 2,
    ensures
        (Ok::<u16, crate::error::ErrorView>(r), bytes_data(*final(src))) == take_u16(bytes_data(*old(src))),
{
    src.get_u16()
}

/// `Buf::get_i16`: reads two bytes, big-endian. Panics with fewer than two left.
#[verifier::external_body]
pub(crate) fn get_i16(src: &mut Bytes) -> (r: i16)
    requires
        bytes_data(*old(src)).len() >= 2,
    ensures
        (Ok::<i16, crate::error::ErrorView>(r), bytes_data(*final(src))) == take_i16(bytes_data(*old(src))),
{
    src.get_i16()
}

/// `Buf::get_i32`: reads four bytes, big-endian. Panics with fewer than four left.
#[verifier::external_body]
pub(crate) fn get_i32(src: &mut Bytes) -> (r: i32)
    requires
        bytes_data(*old(src)).len() >= 4,
    ensures
        (Ok::<i32, crate::error::ErrorView>(r), bytes_data(*final(src))) == take_i32(bytes_data(*old(src))),
{
    src.get_i32()
}

/// `Buf::get_u32`: reads four bytes, big-endian. Panics with fewer than four left.
#[verifier::external_body]
pub(crate) fn get_u32(src: &mut Bytes) -> (r: u32)
    requires
        bytes_data(*old(src)).len() >= 4,
    ensures
        (Ok::<u32, crate::error::ErrorView>(r), bytes_data(*final(src))) == take_u32(bytes_data(*old(src))),
{
    src.get_u32()
}

/// `Buf::get_i64`: reads eight bytes, big-endian. Panics with fewer than eight left.
#[verifier::external_body]
pub(crate) fn get_i64(src: &mut Bytes) -> (r: i64)
    requires
        bytes_data(*old(src)).len() >= 8,
    ensures
        (Ok::<i64, crate::error::ErrorView>(r), bytes_data(*final(src))) == take_i64(bytes_data(*old(src))),
{
    src.get_i64()
}

/// `Buf::get_u64`: reads eight bytes, big-endian. Panics with fewer than eight left.
#[verifier::external_body]
pub(crate) fn get_u64(src: &mut Bytes) -> (r: u64)
    requires
        bytes_data(*old(src)).len() >= 8,
    ensures
        (Ok::<u64, crate::error::ErrorView>(r), bytes_data(*final(src))) == take_u64(bytes_data(*old(src))),
{
    src.get_u64()
}

/// `Buf::advance`: skips `n` bytes. Panics when fewer than `n` are left.
#[verifier::external_body]
pub(crate) fn advance(src: &mut Bytes, n: usize)
    requires
        n <= bytes_data(*old(src)).len(),
    ensures
        bytes_data(*final(src)) == bytes_data(*old(src)).skip(n as int),
{
    src.advance(n)
}

/// `Buf::copy_to_slice`: fills `dst` with the next `dst.len()` bytes. Panics
/// when fewer are left.
#[verifier::external_body]
pub(crate) fn copy_to_slice(src: &mut Bytes, dst: &mut Vec<u8>)
    requires
        old(dst).len() <= bytes_data(*old(src)).len(),
    ensures
        final(dst)@ == bytes_data(*old(src)).take(old(dst).len() as int),
        bytes_data(*final(src)) == bytes_data(*old(src)).skip(old(dst).len() as int),
{
    src.copy_to_slice(&mut dst[..])
}

/// `Buf::copy_to_bytes` on `Bytes`: splits off the next `n` bytes. Panics
/// when fewer are left.
#[verifier::external_body]
pub(crate) fn copy_to_bytes(src: &mut Bytes, n: usize) -> (r: Bytes)
    requires
        n <= bytes_data(*old(src)).len(),
    ensures
        bytes_data(r) == bytes_data(*old(src)).take(n as int),
        bytes_data(*final(src)) == bytes_data(*old(src)).skip(n as int),
{
    src.copy_to_bytes(n)
}

/// `<[u8]>::to_vec` through `Bytes`' `Deref`: a copy of the unread bytes.
#[verifier::external_body]
pub(crate) fn bytes_to_vec(src: &Bytes) -> (r: Vec<u8>)
    ensures
        r@ == bytes_data(*src),
{
    src.to_vec()
}

/// `String::from_utf8`: the string whose UTF-8 encoding is `v`, or an error
/// when `v` is not valid UTF-8.
#[verifier::external_body]
pub(crate) fn string_from_utf8(v: Vec<u8>) -> (r: Result<String, FromUtf8Error>)
    ensures
        r is Ok <==> valid_utf8(v@),
        r matches Ok(s) ==> s@ == decode_utf8(v@),
{
    String::from_utf8(v)
}

} // verus!
