//! Variable-length 32-bit integers: seven bits per byte, least significant
//! group first, the high bit of each byte set when another byte follows.
use crate::buffer::{bytes_data, bytes_mut_data, get_u8, is_empty, put_u8};
use crate::codec::{Decode, Encode, WireFormat, Roundtrip};
use crate::error::{ErrorView, ProtocolError};
use crate::wire::Parsed;
use bytes::{Bytes, BytesMut};
use vstd::prelude::*;

verus! {

/// The most bytes a VarInt may take.
pub const VARINT_MAX_BYTES: usize = 5;

#[derive(Debug, Clone, Copy, PartialEq, Eq, PartialOrd, Ord, Hash, Default)]
pub struct VarInt(pub i32);

impl View for VarInt {
    type V = VarInt;

    open spec fn view(&self) -> VarInt {
        *self
    }
}

/// The encoding of the unsigned value `u`.
pub open spec fn varint_bytes(u: u32) -> Seq<u8>
    decreases u,
{
    if u >> 7 == 0 {
        seq![(u & 0x7f) as u8]
    } else {
        proof {
            lemma_shr7_decreases(u);
        }
        seq![((u & 0x7f) | 0x80) as u8] + varint_bytes(u >> 7)
    }
}

pub proof fn lemma_shr7_decreases(u: u32)
    ensures
        u >> 7 != 0 ==> u >> 7 < u,
{
    assert(u >> 7 != 0 ==> u >> 7 < u) by (bit_vector);
}

/// How a scan for the end of a variable-length integer ends: at the
/// terminating byte (with the count of bytes it took), at the end of the
/// input (with the count of bytes read), or after the maximum length.
pub enum Scan {
    Done(nat),
    Eof(nat),
    TooLong,
}

/// Scans `s` from index `i` for a byte with the high bit clear, reading at
/// most `max` bytes in all.
pub open spec fn scan(s: Seq<u8>, i: nat, max: nat) -> Scan
    decreases max - i,
{
    if i >= max {
        Scan::TooLong
    } else if i >= s.len() {
        Scan::Eof(i)
    } else if s[i as int] & 0x80 == 0 {
        Scan::Done(i + 1)
    } else {
        scan(s, i + 1, max)
    }
}

/// The value gathered from the first `n` bytes of `s`: byte `k` contributes
/// its low seven bits at bit `7 * k` (bits past 32 fall away).
pub open spec fn varint_acc(s: Seq<u8>, n: nat) -> u32
    decreases n,
{
    if n == 0 {
        0
    } else {
        varint_acc(s, (n - 1) as nat) | (((s[n - 1] & 0x7f) as u32) << ((7 * (n - 1)) as u32))
    }
}

/// What decoding a VarInt reads from `s`.
pub open spec fn varint_parse(s: Seq<u8>) -> Parsed<VarInt> {
    match scan(s, 0, VARINT_MAX_BYTES as nat) {
        Scan::Done(n) => (Ok(VarInt(varint_acc(s, n) as i32)), s.skip(n as int)),
        Scan::Eof(n) => (Err(ErrorView::UnexpectedEof), s.skip(n as int)),
        Scan::TooLong => (
            Err(ErrorView::VarIntOverflow(VARINT_MAX_BYTES)),
            s.skip(VARINT_MAX_BYTES as int),
        ),
    }
}

pub proof fn lemma_scan_prepend(b: u8, t: Seq<u8>, i: nat, max: nat)
    requires
        b & 0x80 != 0,
    ensures
        scan(seq![b] + t, i + 1, max + 1) == match scan(t, i, max) {
            Scan::Done(n) => Scan::Done(n + 1),
            Scan::Eof(n) => Scan::Eof(n + 1),
            Scan::TooLong => Scan::TooLong,
        },
    decreases max - i,
{
    let s = seq![b] + t;
    if i >= max {
    } else if i >= t.len() {
    } else {
        assert(s[i + 1 as int] == t[i as int]);
        if t[i as int] & 0x80 != 0 {
            lemma_scan_prepend(b, t, i + 1, max);
        }
    }
}

proof fn lemma_acc_prepend(b: u8, t: Seq<u8>, n: nat)
    requires
        n + 1 <= VARINT_MAX_BYTES,
        n <= t.len(),
    ensures
        varint_acc(seq![b] + t, n + 1) == ((b & 0x7f) as u32) | (varint_acc(t, n) << 7u32),
    decreases n,
{
    let s = seq![b] + t;
    if n == 0 {
        let x = ((b & 0x7f) as u32);
        assert(s[0] == b);
        assert(varint_acc(s, 0) == 0);
        assert(varint_acc(t, 0) == 0);
        assert(0u32 | (x << 0u32) == x | (0u32 << 7u32)) by (bit_vector);
    } else {
        lemma_acc_prepend(b, t, (n - 1) as nat);
        assert(s[n as int] == t[n - 1]);
        assert(varint_acc(s, n + 1) == varint_acc(s, n) | (((s[n as int] & 0x7f) as u32) << ((7 * n) as u32)));
        assert(varint_acc(t, n) == varint_acc(t, (n - 1) as nat) | (((t[n - 1] & 0x7f) as u32) << ((7 * (n - 1)) as u32)));
        let x = ((b & 0x7f) as u32);
        let a = varint_acc(t, (n - 1) as nat);
        let c = ((t[n - 1] & 0x7f) as u32);
        let k = (7 * (n - 1)) as u32;
        assert(k + 7 < 32);
        assert((x | (a << 7u32)) | (c << (k + 7)) == x | ((a | (c << k)) << 7u32)) by (bit_vector)
            requires
                k + 7 < 32,
        ;
    }
}

/// Every encoding is at most five bytes long and ends at its last byte.
proof fn lemma_varint_bytes_shape(u: u32, max: nat)
    requires
        max >= 1,
        max <= VARINT_MAX_BYTES,
        u >> ((7 * max) as u32) == 0 || max == VARINT_MAX_BYTES,
    ensures
        varint_bytes(u).len() <= max,
        forall|rest: Seq<u8>|
            #![auto]
            scan(varint_bytes(u) + rest, 0, max) == Scan::Done(varint_bytes(u).len()),
        forall|rest: Seq<u8>|
            #![auto]
            varint_acc(varint_bytes(u) + rest, varint_bytes(u).len()) == u,
    decreases u,
{
    let lo = (u & 0x7f) as u8;
    if u >> 7 == 0 {
        assert forall|rest: Seq<u8>| #![auto]
            varint_acc(varint_bytes(u) + rest, varint_bytes(u).len()) == u by {
            let s = varint_bytes(u) + rest;
            assert(s[0] == lo);
            assert(varint_bytes(u).len() == 1);
            assert(varint_acc(s, 0) == 0);
            assert(varint_acc(s, 1) == 0u32 | (((lo & 0x7f) as u32) << 0u32));
            assert(0u32 | (((lo & 0x7f) as u32) << 0u32) == u) by (bit_vector)
                requires
                    lo == (u & 0x7f) as u8,
                    u >> 7 == 0,
            ;
        }
        assert forall|rest: Seq<u8>| #![auto]
            scan(varint_bytes(u) + rest, 0, max) == Scan::Done(varint_bytes(u).len()) by {
            let s = varint_bytes(u) + rest;
            assert(s[0] == lo);
            assert(lo & 0x80 == 0) by (bit_vector)
                requires
                    lo == (u & 0x7f) as u8,
            ;
        }
    } else {
        let hi = u >> 7;
        lemma_shr7_decreases(u);
        let b = ((u & 0x7f) | 0x80) as u8;
        assert(b & 0x80 != 0) by (bit_vector)
            requires
                b == ((u & 0x7f) | 0x80) as u8,
        ;
        if max == 1 {
            assert(u >> 7u32 == 0) by (bit_vector)
                requires
                    u >> 7u32 == 0,
            ;
            assert(false);
        }
        let m1 = (max - 1) as nat;
        if max < VARINT_MAX_BYTES {
            let sh = (7 * max) as u32;
            let sh1 = (7 * m1) as u32;
            assert(sh == sh1 + 7);
            assert(sh < 35);
            assert(u >> sh == 0 ==> (u >> 7u32) >> sh1 == 0) by (bit_vector)
                requires
                    sh == sh1 + 7,
                    sh < 35,
            ;
        } else {
            assert(u >> 7u32 >> 28u32 == 0) by (bit_vector);
        }
        lemma_varint_bytes_shape(hi, m1);
        let tail = varint_bytes(hi);
        assert(varint_bytes(u) == seq![b] + tail);
        assert forall|rest: Seq<u8>| #![auto]
            scan(varint_bytes(u) + rest, 0, max) == Scan::Done(varint_bytes(u).len()) by {
            let t = tail + rest;
            assert(varint_bytes(u) + rest =~= seq![b] + t);
            assert(scan(t, 0, m1) == Scan::Done(tail.len()));
            lemma_scan_prepend(b, t, 0, m1);
        }
        assert forall|rest: Seq<u8>| #![auto]
            varint_acc(varint_bytes(u) + rest, varint_bytes(u).len()) == u by {
            let t = tail + rest;
            assert(varint_bytes(u) + rest =~= seq![b] + t);
            lemma_acc_prepend(b, t, tail.len());
            assert(varint_acc(t, tail.len()) == hi);
            assert(((b & 0x7f) as u32) | ((u >> 7u32) << 7u32) == u) by (bit_vector)
                requires
                    b == ((u & 0x7f) | 0x80) as u8,
            ;
        }
    }
}

impl WireFormat for VarInt {
    open spec fn spec_encode(v: VarInt) -> Seq<u8> {
        varint_bytes(v.0 as u32)
    }

    open spec fn spec_decode(s: Seq<u8>) -> Parsed<VarInt> {
        varint_parse(s)
    }
}

impl Roundtrip for VarInt {
    open spec fn encodable(v: VarInt) -> bool {
        true
    }

    open spec fn reads_to_end() -> bool {
        false
    }

    proof fn lemma_roundtrip(v: VarInt, rest: Seq<u8>) {
        let x = v.0;
        let u = x as u32;
        lemma_varint_bytes_shape(u, VARINT_MAX_BYTES as nat);
        assert((u as i32) == x) by (bit_vector)
            requires
                u == x as u32,
        ;
        let s = varint_bytes(u) + rest;
        assert(s.skip(varint_bytes(u).len() as int) =~= rest);
    }
}

impl Encode for VarInt {
    fn encode(&self, dst: &mut BytesMut) -> (r: Result<(), ProtocolError>) {
        let ghost start = bytes_mut_data(*dst);
        let ghost orig = self.0 as u32;
        let mut val = self.0 as u32;
        loop
            invariant_except_break
                bytes_mut_data(*dst) + varint_bytes(val) == start + varint_bytes(orig),
            ensures
                bytes_mut_data(*dst) == start + varint_bytes(orig),
            decreases val,
        {
            let byte = (val & 0x7F) as u8;
            let ghost prev = bytes_mut_data(*dst);
            let ghost old_val = val;
            proof {
                lemma_shr7_decreases(val);
            }
            val = val >> 7;
            if val != 0 {
                assert(byte | 0x80 == ((old_val & 0x7f) | 0x80) as u8) by (bit_vector)
                    requires
                        byte == (old_val & 0x7f) as u8,
                ;
                put_u8(dst, byte | 0x80);
                assert(bytes_mut_data(*dst) + varint_bytes(val) =~= prev + varint_bytes(old_val));
            } else {
                put_u8(dst, byte);
                assert(bytes_mut_data(*dst) =~= prev + varint_bytes(old_val));
                break;
            }
        }
        Ok(())
    }
}

impl Decode for VarInt {
    fn decode(src: &mut Bytes) -> (r: Result<Self, ProtocolError>) {
        let ghost s0 = bytes_data(*src);
        let mut result: u32 = 0;
        let mut shift: u32 = 0;
        let mut bytes_read: usize = 0;
        loop
            invariant_except_break
                s0 == bytes_data(*old(src)),
                bytes_read <= VARINT_MAX_BYTES,
                shift == 7 * bytes_read,
                bytes_read <= s0.len(),
                bytes_data(*src) == s0.skip(bytes_read as int),
                result == varint_acc(s0, bytes_read as nat),
                scan(s0, 0, VARINT_MAX_BYTES as nat) == scan(s0, bytes_read as nat, VARINT_MAX_BYTES as nat),
            ensures
                scan(s0, 0, VARINT_MAX_BYTES as nat) == Scan::Done(bytes_read as nat),
                bytes_read <= s0.len(),
                bytes_data(*src) == s0.skip(bytes_read as int),
                result == varint_acc(s0, bytes_read as nat),
            decreases VARINT_MAX_BYTES - bytes_read,
        {
            if bytes_read >= VARINT_MAX_BYTES {
                assert(scan(s0, bytes_read as nat, VARINT_MAX_BYTES as nat) == Scan::TooLong);
                return Err(ProtocolError::VarIntOverflow(bytes_read));
            }
            if is_empty(src) {
                assert(bytes_read == s0.len());
                assert(scan(s0, bytes_read as nat, VARINT_MAX_BYTES as nat) == Scan::Eof(bytes_read as nat));
                return Err(ProtocolError::UnexpectedEof);
            }
            let byte = get_u8(src);
            assert(byte == s0[bytes_read as int]);
            assert(bytes_data(*src) =~= s0.skip(bytes_read + 1));
            bytes_read += 1;
            result = result | (((byte & 0x7F) as u32) << shift);
            shift += 7;
            if byte & 0x80 == 0 {
                break;
            }
        }
        Ok(VarInt(result as i32))
    }
}

impl From<i32> for VarInt {
    fn from(v: i32) -> (r: VarInt) {
        VarInt(v)
    }
}

impl vstd::std_specs::convert::FromSpecImpl<i32> for VarInt {
    open spec fn obeys_from_spec() -> bool {
        true
    }

    open spec fn from_spec(v: i32) -> VarInt {
        VarInt(v)
    }
}

} // verus!
