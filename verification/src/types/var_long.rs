//! Variable-length 64-bit integers: the same layout as `VarLong`, up to ten
//! bytes.
use crate::buffer::{bytes_data, bytes_mut_data, get_u8, is_empty, put_u8};
use crate::codec::{Decode, Encode, WireFormat, Roundtrip};
use crate::error::{ErrorView, ProtocolError};
use crate::types::var_int::{lemma_scan_prepend, scan, Scan};
use crate::wire::Parsed;
use bytes::{Bytes, BytesMut};
use vstd::prelude::*;

verus! {

/// The most bytes a VarLong may take.
pub const VARLONG_MAX_BYTES: usize = 10;

#[derive(Debug, Clone, Copy, PartialEq, Eq, PartialOrd, Ord, Hash, Default)]
pub struct VarLong(pub i64);

impl View for VarLong {
    type V = VarLong;

    open spec fn view(&self) -> VarLong {
        *self
    }
}

/// The encoding of the unsigned value `u`.
pub open spec fn varlong_bytes(u: u64) -> Seq<u8>
    decreases u,
{
    if u >> 7 == 0 {
        seq![(u & 0x7f) as u8]
    } else {
        proof {
            lemma_shr7_decreases_u64(u);
        }
        seq![((u & 0x7f) | 0x80) as u8] + varlong_bytes(u >> 7)
    }
}

pub proof fn lemma_shr7_decreases_u64(u: u64)
    ensures
        u >> 7 != 0 ==> u >> 7 < u,
{
    assert(u >> 7 != 0 ==> u >> 7 < u) by (bit_vector);
}

/// The value gathered from the first `n` bytes of `s`: byte `k` contributes
/// its low seven bits at bit `7 * k` (bits past 64 fall away).
pub open spec fn varlong_acc(s: Seq<u8>, n: nat) -> u64
    decreases n,
{
    if n == 0 {
        0
    } else {
        varlong_acc(s, (n - 1) as nat) | (((s[n - 1] & 0x7f) as u64) << ((7 * (n - 1)) as u64))
    }
}

/// What decoding a VarLong reads from `s`.
pub open spec fn varlong_parse(s: Seq<u8>) -> Parsed<VarLong> {
    match scan(s, 0, VARLONG_MAX_BYTES as nat) {
        Scan::Done(n) => (Ok(VarLong(varlong_acc(s, n) as i64)), s.skip(n as int)),
        Scan::Eof(n) => (Err(ErrorView::UnexpectedEof), s.skip(n as int)),
        Scan::TooLong => (
            Err(ErrorView::VarIntOverflow(VARLONG_MAX_BYTES)),
            s.skip(VARLONG_MAX_BYTES as int),
        ),
    }
}

proof fn lemma_acc_prepend(b: u8, t: Seq<u8>, n: nat)
    requires
        n + 1 <= VARLONG_MAX_BYTES,
        n <= t.len(),
    ensures
        varlong_acc(seq![b] + t, n + 1) == ((b & 0x7f) as u64) | (varlong_acc(t, n) << 7u64),
    decreases n,
{
    let s = seq![b] + t;
    if n == 0 {
        let x = ((b & 0x7f) as u64);
        assert(s[0] == b);
        assert(varlong_acc(s, 0) == 0);
        assert(varlong_acc(t, 0) == 0);
        assert(0u64 | (x << 0u64) == x | (0u64 << 7u64)) by (bit_vector);
    } else {
        lemma_acc_prepend(b, t, (n - 1) as nat);
        assert(s[n as int] == t[n - 1]);
        assert(varlong_acc(s, n + 1) == varlong_acc(s, n) | (((s[n as int] & 0x7f) as u64) << ((7 * n) as u64)));
        assert(varlong_acc(t, n) == varlong_acc(t, (n - 1) as nat) | (((t[n - 1] & 0x7f) as u64) << ((7 * (n - 1)) as u64)));
        let x = ((b & 0x7f) as u64);
        let a = varlong_acc(t, (n - 1) as nat);
        let c = ((t[n - 1] & 0x7f) as u64);
        let k = (7 * (n - 1)) as u64;
        assert(k + 7 < 64);
        assert((x | (a << 7u64)) | (c << (k + 7)) == x | ((a | (c << k)) << 7u64)) by (bit_vector)
            requires
                k + 7 < 64,
        ;
    }
}

/// Every encoding is at most ten bytes long and ends at its last byte.
proof fn lemma_varlong_bytes_shape(u: u64, max: nat)
    requires
        max >= 1,
        max <= VARLONG_MAX_BYTES,
        u >> ((7 * max) as u64) == 0 || max == VARLONG_MAX_BYTES,
    ensures
        varlong_bytes(u).len() <= max,
        forall|rest: Seq<u8>|
            #![auto]
            scan(varlong_bytes(u) + rest, 0, max) == Scan::Done(varlong_bytes(u).len()),
        forall|rest: Seq<u8>|
            #![auto]
            varlong_acc(varlong_bytes(u) + rest, varlong_bytes(u).len()) == u,
    decreases u,
{
    let lo = (u & 0x7f) as u8;
    if u >> 7 == 0 {
        assert forall|rest: Seq<u8>| #![auto]
            varlong_acc(varlong_bytes(u) + rest, varlong_bytes(u).len()) == u by {
            let s = varlong_bytes(u) + rest;
            assert(s[0] == lo);
            assert(varlong_bytes(u).len() == 1);
            assert(varlong_acc(s, 0) == 0);
            assert(varlong_acc(s, 1) == 0u64 | (((lo & 0x7f) as u64) << 0u64));
            assert(0u64 | (((lo & 0x7f) as u64) << 0u64) == u) by (bit_vector)
                requires
                    lo == (u & 0x7f) as u8,
                    u >> 7 == 0,
            ;
        }
        assert forall|rest: Seq<u8>| #![auto]
            scan(varlong_bytes(u) + rest, 0, max) == Scan::Done(varlong_bytes(u).len()) by {
            let s = varlong_bytes(u) + rest;
            assert(s[0] == lo);
            assert(lo & 0x80 == 0) by (bit_vector)
                requires
                    lo == (u & 0x7f) as u8,
            ;
        }
    } else {
        let hi = u >> 7;
        lemma_shr7_decreases_u64(u);
        let b = ((u & 0x7f) | 0x80) as u8;
        assert(b & 0x80 != 0) by (bit_vector)
            requires
                b == ((u & 0x7f) | 0x80) as u8,
        ;
        if max == 1 {
            assert(u >> 7u64 == 0) by (bit_vector)
                requires
                    u >> 7u64 == 0,
            ;
            assert(false);
        }
        let m1 = (max - 1) as nat;
        if max < VARLONG_MAX_BYTES {
            let sh = (7 * max) as u64;
            let sh1 = (7 * m1) as u64;
            assert(sh == sh1 + 7);
            assert(sh < 70);
            assert(u >> sh == 0 ==> (u >> 7u64) >> sh1 == 0) by (bit_vector)
                requires
                    sh == sh1 + 7,
                    sh < 70,
            ;
        } else {
            assert(u >> 7u64 >> 63u64 == 0) by (bit_vector);
        }
        lemma_varlong_bytes_shape(hi, m1);
        let tail = varlong_bytes(hi);
        assert(varlong_bytes(u) == seq![b] + tail);
        assert forall|rest: Seq<u8>| #![auto]
            scan(varlong_bytes(u) + rest, 0, max) == Scan::Done(varlong_bytes(u).len()) by {
            let t = tail + rest;
            assert(varlong_bytes(u) + rest =~= seq![b] + t);
            assert(scan(t, 0, m1) == Scan::Done(tail.len()));
            lemma_scan_prepend(b, t, 0, m1);
        }
        assert forall|rest: Seq<u8>| #![auto]
            varlong_acc(varlong_bytes(u) + rest, varlong_bytes(u).len()) == u by {
            let t = tail + rest;
            assert(varlong_bytes(u) + rest =~= seq![b] + t);
            lemma_acc_prepend(b, t, tail.len());
            assert(varlong_acc(t, tail.len()) == hi);
            assert(((b & 0x7f) as u64) | ((u >> 7u64) << 7u64) == u) by (bit_vector)
                requires
                    b == ((u & 0x7f) | 0x80) as u8,
            ;
        }
    }
}

impl WireFormat for VarLong {
    open spec fn spec_encode(v: VarLong) -> Seq<u8> {
        varlong_bytes(v.0 as u64)
    }

    open spec fn spec_decode(s: Seq<u8>) -> Parsed<VarLong> {
        varlong_parse(s)
    }
}

impl Roundtrip for VarLong {
    open spec fn encodable(v: VarLong) -> bool {
        true
    }

    open spec fn reads_to_end() -> bool {
        false
    }

    proof fn lemma_roundtrip(v: VarLong, rest: Seq<u8>) {
        let x = v.0;
        let u = x as u64;
        lemma_varlong_bytes_shape(u, VARLONG_MAX_BYTES as nat);
        assert((u as i64) == x) by (bit_vector)
            requires
                u == x as u64,
        ;
        let s = varlong_bytes(u) + rest;
        assert(s.skip(varlong_bytes(u).len() as int) =~= rest);
    }
}

impl Encode for VarLong {
    fn encode(&self, dst: &mut BytesMut) -> (r: Result<(), ProtocolError>) {
        let ghost start = bytes_mut_data(*dst);
        let ghost orig = self.0 as u64;
        let mut val = self.0 as u64;
        loop
            invariant_except_break
                bytes_mut_data(*dst) + varlong_bytes(val) == start + varlong_bytes(orig),
            ensures
                bytes_mut_data(*dst) == start + varlong_bytes(orig),
            decreases val,
        {
            let byte = (val & 0x7F) as u8;
            let ghost prev = bytes_mut_data(*dst);
            let ghost old_val = val;
            proof {
                lemma_shr7_decreases_u64(val);
            }
            val = val >> 7;
            if val != 0 {
                assert(byte | 0x80 == ((old_val & 0x7f) | 0x80) as u8) by (bit_vector)
                    requires
                        byte == (old_val & 0x7f) as u8,
                ;
                put_u8(dst, byte | 0x80);
                assert(bytes_mut_data(*dst) + varlong_bytes(val) =~= prev + varlong_bytes(old_val));
            } else {
                put_u8(dst, byte);
                assert(bytes_mut_data(*dst) =~= prev + varlong_bytes(old_val));
                break;
            }
        }
        Ok(())
    }
}

impl Decode for VarLong {
    fn decode(src: &mut Bytes) -> (r: Result<Self, ProtocolError>) {
        let ghost s0 = bytes_data(*src);
        let mut result: u64 = 0;
        let mut shift: u64 = 0;
        let mut bytes_read: usize = 0;
        loop
            invariant_except_break
                s0 == bytes_data(*old(src)),
                bytes_read <= VARLONG_MAX_BYTES,
                shift == 7 * bytes_read,
                bytes_read <= s0.len(),
                bytes_data(*src) == s0.skip(bytes_read as int),
                result == varlong_acc(s0, bytes_read as nat),
                scan(s0, 0, VARLONG_MAX_BYTES as nat) == scan(s0, bytes_read as nat, VARLONG_MAX_BYTES as nat),
            ensures
                scan(s0, 0, VARLONG_MAX_BYTES as nat) == Scan::Done(bytes_read as nat),
                bytes_read <= s0.len(),
                bytes_data(*src) == s0.skip(bytes_read as int),
                result == varlong_acc(s0, bytes_read as nat),
            decreases VARLONG_MAX_BYTES - bytes_read,
        {
            if bytes_read >= VARLONG_MAX_BYTES {
                assert(scan(s0, bytes_read as nat, VARLONG_MAX_BYTES as nat) == Scan::TooLong);
                return Err(ProtocolError::VarIntOverflow(bytes_read));
            }
            if is_empty(src) {
                assert(bytes_read == s0.len());
                assert(scan(s0, bytes_read as nat, VARLONG_MAX_BYTES as nat) == Scan::Eof(bytes_read as nat));
                return Err(ProtocolError::UnexpectedEof);
            }
            let byte = get_u8(src);
            assert(byte == s0[bytes_read as int]);
            assert(bytes_data(*src) =~= s0.skip(bytes_read + 1));
            bytes_read += 1;
            result = result | (((byte & 0x7F) as u64) << shift);
            shift += 7;
            if byte & 0x80 == 0 {
                break;
            }
        }
        Ok(VarLong(result as i64))
    }
}

impl From<i64> for VarLong {
    fn from(v: i64) -> (r: VarLong) {
        VarLong(v)
    }
}

impl vstd::std_specs::convert::FromSpecImpl<i64> for VarLong {
    open spec fn obeys_from_spec() -> bool {
        true
    }

    open spec fn from_spec(v: i64) -> VarLong {
        VarLong(v)
    }
}

} // verus!
