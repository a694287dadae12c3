//! UUIDs on the wire: 16 bytes, the 64 most significant bits first, each
//! half big-endian. Packets hold a UUID as its 128-bit value, the number
//! that `uuid::Uuid::as_u128` gives.
use crate::buffer::{bytes_data, bytes_mut_data, get_u64, put_u64};
use crate::error::ErrorView;
use crate::wire::{be_u64_bytes, lemma_take_u64, take_u64, then, Parsed};
use bytes::{Bytes, BytesMut};
use vstd::prelude::*;
use vstd::seq_lib::lemma_concat_associative;

verus! {

/// The 64 most significant bits of `v`.
pub open spec fn uuid_high(v: u128) -> u64 {
    (v as int / 0x1_0000_0000_0000_0000int) as u64
}

/// The 64 least significant bits of `v`.
pub open spec fn uuid_low(v: u128) -> u64 {
    (v as int % 0x1_0000_0000_0000_0000int) as u64
}

/// The 128-bit value whose halves are `hi` and `lo`.
pub open spec fn uuid_of(hi: u64, lo: u64) -> u128 {
    (hi as int * 0x1_0000_0000_0000_0000int + lo as int) as u128
}

/// The 16 bytes of the UUID `v`.
pub open spec fn uuid_wire(v: u128) -> Seq<u8> {
    be_u64_bytes(uuid_high(v)) + be_u64_bytes(uuid_low(v))
}

/// A UUID read without a length check first: two big-endian halves.
pub open spec fn take_uuid(s: Seq<u8>) -> Parsed<u128> {
    then(
        take_u64(s),
        |hi: u64, t: Seq<u8>| then(take_u64(t), |lo: u64, u: Seq<u8>| (Ok(uuid_of(hi, lo)), u)),
    )
}

/// `uuid::Uuid::from_u64_pair`, taken as a 128-bit value: the UUID whose
/// 64 most significant bits are `hi` and whose 64 least significant bits
/// are `lo`, as the crate documents it.
#[verifier::external_body]
fn uuid_from_u64_pair(hi: u64, lo: u64) -> (r: u128)
    ensures
        r == uuid_of(hi, lo),
{
    uuid::Uuid::from_u64_pair(hi, lo).as_u128()
}

/// `uuid::Uuid::as_u64_pair` of the UUID with value `v`: its 64 most
/// significant bits, then its 64 least significant bits, as the crate
/// documents it.
#[verifier::external_body]
fn uuid_as_u64_pair(v: u128) -> (r: (u64, u64))
    ensures
        r == (uuid_high(v), uuid_low(v)),
{
    uuid::Uuid::from_u128(v).as_u64_pair()
}

/// Reads a UUID; at least 16 bytes must be left.
pub fn get_uuid(src: &mut Bytes) -> (r: u128)
    requires
        bytes_data(*old(src)).len() >= 16,
    ensures
        (Ok::<u128, ErrorView>(r), bytes_data(*final(src))) == take_uuid(bytes_data(*old(src))),
{
    let hi = get_u64(src);
    let lo = get_u64(src);
    uuid_from_u64_pair(hi, lo)
}

/// Appends the 16 bytes of the UUID `v`.
pub fn put_uuid(dst: &mut BytesMut, v: u128)
    ensures
        bytes_mut_data(*final(dst)) == bytes_mut_data(*old(dst)) + uuid_wire(v),
{
    let (hi, lo) = uuid_as_u64_pair(v);
    let ghost d0 = bytes_mut_data(*dst);
    put_u64(dst, hi);
    put_u64(dst, lo);
    proof {
        lemma_concat_associative(d0, be_u64_bytes(hi), be_u64_bytes(lo));
    }
}

/// The halves of `v` put back together give `v`.
pub proof fn lemma_uuid_halves(v: u128)
    ensures
        uuid_of(uuid_high(v), uuid_low(v)) == v,
{
    let m = 0x1_0000_0000_0000_0000int;
    let x = v as int;
    vstd::arithmetic::div_mod::lemma_fundamental_div_mod(x, m);
    assert(0 <= x / m < m) by {
        vstd::arithmetic::div_mod::lemma_div_pos_is_pos(x, m);
        vstd::arithmetic::div_mod::lemma_div_is_ordered(x, m * m - 1, m);
        assert((m * m - 1) / m == m - 1) by (nonlinear_arith)
            requires
                m == 0x1_0000_0000_0000_0000int,
        ;
    }
}

/// Reading the bytes of a UUID gives it back, and leaves what followed.
pub broadcast proof fn lemma_take_uuid(v: u128, rest: Seq<u8>)
    ensures
        #[trigger] take_uuid(uuid_wire(v) + rest) == (Ok::<u128, ErrorView>(v), rest),
{
    let hi = uuid_high(v);
    let lo = uuid_low(v);
    lemma_concat_associative(be_u64_bytes(hi), be_u64_bytes(lo), rest);
    lemma_take_u64(hi, be_u64_bytes(lo) + rest);
    lemma_take_u64(lo, rest);
    lemma_uuid_halves(v);
}

} // verus!
