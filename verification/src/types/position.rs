//! Packed `(x, y, z)` block position.
//!
//! On the wire a position is one 64-bit integer split into three signed bit
//! fields. The layout changed in 1.14: the legacy layout is `x:26 | y:12 |
//! z:26`, the modern one `x:26 | z:26 | y:12` (most significant first). The
//! `Encode`/`Decode` impls use the modern layout; the free functions name
//! the layout they use.
use crate::buffer::{bytes_data, bytes_mut_data, get_u64, put_u64, remaining};
use crate::codec::{Decode, Encode, WireFormat, Roundtrip};
use crate::error::{ErrorView, ProtocolError};
use crate::wire::{be_u64_bytes, group_wire_roundtrip, take_u64, Parsed};
use bytes::{Bytes, BytesMut};
use vstd::prelude::*;

verus! {

/// Signed block coordinates. The wire fields are 26/12/26 bits wide
/// (x/y/z), so coordinates outside ±33,554,431 (x, z) or ±2,047 (y) are
/// truncated on encode.
#[derive(Debug, Clone, Copy, PartialEq, Eq, Hash, Structural)]
pub struct Position {
    pub x: i32,
    pub y: i32,
    pub z: i32,
}

impl View for Position {
    type V = Position;

    open spec fn view(&self) -> Position {
        *self
    }
}

impl Position {
    pub fn new(x: i32, y: i32, z: i32) -> (r: Self)
        ensures
            r == (Position { x, y, z }),
    {
        Self { x, y, z }
    }
}

/// The positions that both layouts represent exactly.
pub open spec fn in_wire_range(p: Position) -> bool {
    &&& -0x2000000 <= p.x < 0x2000000
    &&& -0x800 <= p.y < 0x800
    &&& -0x2000000 <= p.z < 0x2000000
}

/// The 26-bit field at the bottom of `v`, read as a signed number.
pub open spec fn field26(v: u64) -> i32 {
    let f = v & 0x3FFFFFF;
    if f >= 0x2000000 {
        (f - 0x4000000) as i32
    } else {
        f as i32
    }
}

/// The 12-bit field at the bottom of `v`, read as a signed number.
pub open spec fn field12(v: u64) -> i32 {
    let f = v & 0xFFF;
    if f >= 0x800 {
        (f - 0x1000) as i32
    } else {
        f as i32
    }
}

/// The modern layout: `x` in bits 38..64, `z` in 12..38, `y` in 0..12.
pub open spec fn pack_modern(p: Position) -> u64 {
    (((p.x as u64) & 0x3FFFFFF) << 38u64) | (((p.z as u64) & 0x3FFFFFF) << 12u64) | ((p.y as u64)
        & 0xFFF)
}

pub open spec fn unpack_modern(v: u64) -> Position {
    Position { x: field26(v >> 38u64), y: field12(v), z: field26(v >> 12u64) }
}

/// The legacy layout: `x` in bits 38..64, `y` in 26..38, `z` in 0..26.
pub open spec fn pack_legacy(p: Position) -> u64 {
    (((p.x as u64) & 0x3FFFFFF) << 38u64) | (((p.y as u64) & 0xFFF) << 26u64) | ((p.z as u64)
        & 0x3FFFFFF)
}

pub open spec fn unpack_legacy(v: u64) -> Position {
    Position { x: field26(v >> 38u64), y: field12(v >> 26u64), z: field26(v) }
}

proof fn lemma_field26(v: u64, x: i32)
    requires
        -0x2000000 <= x < 0x2000000,
        v & 0x3FFFFFF == (x as u64) & 0x3FFFFFF,
    ensures
        field26(v) == x,
{
    let f = v & 0x3FFFFFF;
    if x >= 0 {
        assert(0 <= x < 0x2000000 ==> (x as u64) & 0x3FFFFFF == x as u64) by (bit_vector);
    } else {
        assert(-0x2000000 <= x < 0 ==> (x as u64) & 0x3FFFFFF == (x + 0x4000000) as u64)
            by (bit_vector);
    }
}

proof fn lemma_field12(v: u64, y: i32)
    requires
        -0x800 <= y < 0x800,
        v & 0xFFF == (y as u64) & 0xFFF,
    ensures
        field12(v) == y,
{
    if y >= 0 {
        assert(0 <= y < 0x800 ==> (y as u64) & 0xFFF == y as u64) by (bit_vector);
    } else {
        assert(-0x800 <= y < 0 ==> (y as u64) & 0xFFF == (y + 0x1000) as u64) by (bit_vector);
    }
}

/// Unpacking a packed position gives it back, in either layout.
pub proof fn lemma_position_roundtrip(p: Position)
    requires
        in_wire_range(p),
    ensures
        unpack_modern(pack_modern(p)) == p,
        unpack_legacy(pack_legacy(p)) == p,
{
    let xu = p.x as u64;
    let yu = p.y as u64;
    let zu = p.z as u64;
    let m = pack_modern(p);
    let l = pack_legacy(p);
    assert((m >> 38u64) & 0x3FFFFFF == xu & 0x3FFFFFF && (m >> 12u64) & 0x3FFFFFF == zu
        & 0x3FFFFFF && m & 0xFFF == yu & 0xFFF) by (bit_vector)
        requires
            m == ((xu & 0x3FFFFFF) << 38u64) | ((zu & 0x3FFFFFF) << 12u64) | (yu & 0xFFF),
    ;
    assert((l >> 38u64) & 0x3FFFFFF == xu & 0x3FFFFFF && (l >> 26u64) & 0xFFF == yu & 0xFFF && l
        & 0x3FFFFFF == zu & 0x3FFFFFF) by (bit_vector)
        requires
            l == ((xu & 0x3FFFFFF) << 38u64) | ((yu & 0xFFF) << 26u64) | (zu & 0x3FFFFFF),
    ;
    lemma_field26(m >> 38u64, p.x);
    lemma_field26(m >> 12u64, p.z);
    lemma_field12(m, p.y);
    lemma_field26(l >> 38u64, p.x);
    lemma_field26(l, p.z);
    lemma_field12(l >> 26u64, p.y);
}

/// Sign-extends the bottom 26 bits of `f` (as the decoders do on `i64`).
fn signed26(v: i64) -> (r: i32)
    ensures
        r == field26(v as u64),
{
    let mut f = v & 0x3FF_FFFF;
    assert(f == ((v as u64) & 0x3FFFFFF) as i64) by (bit_vector)
        requires
            f == v & 0x3FF_FFFF,
    ;
    assert(((v as u64) & 0x3FFFFFF) < 0x4000000) by (bit_vector);
    if f >= 0x200_0000 {
        f -= 0x400_0000;
    }
    f as i32
}

/// Sign-extends the bottom 12 bits of `f`.
fn signed12(v: i64) -> (r: i32)
    ensures
        r == field12(v as u64),
{
    let mut f = v & 0xFFF;
    assert(f == ((v as u64) & 0xFFF) as i64) by (bit_vector)
        requires
            f == v & 0xFFF,
    ;
    assert(((v as u64) & 0xFFF) < 0x1000) by (bit_vector);
    if f >= 0x800 {
        f -= 0x1000;
    }
    f as i32
}

/// Reads a legacy-layout packed position.
pub fn decode_legacy_position(val: u64) -> (r: Position)
    ensures
        r == unpack_legacy(val),
{
    let v = val as i64;
    assert(((v >> 38i64) as u64) & 0x3FFFFFF == (val >> 38u64) & 0x3FFFFFF && ((v >> 26i64) as u64)
        & 0xFFF == (val >> 26u64) & 0xFFF && (v as u64) == val) by (bit_vector)
        requires
            v == val as i64,
    ;
    let x = signed26(v >> 38);
    let y = signed12(v >> 26);
    let z = signed26(v);
    Position { x, y, z }
}

/// Packs a position in the legacy layout (as an `i64` ready for `put_i64`).
pub fn encode_legacy_position(pos: Position) -> (r: i64)
    ensures
        r as u64 == pack_legacy(pos),
{
    let x = pos.x;
    let y = pos.y;
    let z = pos.z;
    let r = ((x as i64) & 0x3FF_FFFF) << 38 | ((y as i64) & 0xFFF) << 26 | ((z as i64) & 0x3FF_FFFF);
    assert(r as u64 == (((x as u64) & 0x3FFFFFF) << 38u64) | (((y as u64) & 0xFFF) << 26u64) | ((
    z as u64) & 0x3FFFFFF)) by (bit_vector)
        requires
            r == ((x as i64) & 0x3FF_FFFF) << 38i64 | ((y as i64) & 0xFFF) << 26i64 | ((z as i64)
                & 0x3FF_FFFF),
    ;
    r
}

/// Reads a modern-layout packed position; the same as `Position::decode`
/// on the eight bytes of `val`.
pub fn decode_modern_position(val: u64) -> (r: Position)
    ensures
        r == unpack_modern(val),
{
    let v = val as i64;
    assert(((v >> 38i64) as u64) & 0x3FFFFFF == (val >> 38u64) & 0x3FFFFFF && ((v >> 12i64) as u64)
        & 0x3FFFFFF == (val >> 12u64) & 0x3FFFFFF && (v as u64) == val) by (bit_vector)
        requires
            v == val as i64,
    ;
    let x = signed26(v >> 38);
    let z = signed26(v >> 12);
    let y = signed12(v);
    Position { x, y, z }
}

/// Packs a position in the modern layout (as an `i64` ready for `put_i64`).
pub fn encode_modern_position(pos: Position) -> (r: i64)
    ensures
        r as u64 == pack_modern(pos),
{
    let x = pos.x;
    let y = pos.y;
    let z = pos.z;
    let r = ((x as i64) & 0x3FF_FFFF) << 38 | ((z as i64) & 0x3FF_FFFF) << 12 | ((y as i64) & 0xFFF);
    assert(r as u64 == (((x as u64) & 0x3FFFFFF) << 38u64) | (((z as u64) & 0x3FFFFFF) << 12u64) | ((
    y as u64) & 0xFFF)) by (bit_vector)
        requires
            r == ((x as i64) & 0x3FF_FFFF) << 38i64 | ((z as i64) & 0x3FF_FFFF) << 12i64 | ((y as i64)
                & 0xFFF),
    ;
    r
}

impl WireFormat for Position {
    open spec fn spec_encode(v: Position) -> Seq<u8> {
        be_u64_bytes(pack_modern(v))
    }

    open spec fn spec_decode(s: Seq<u8>) -> Parsed<Position> {
        if s.len() < 8 {
            (Err(ErrorView::UnexpectedEof), s)
        } else {
            let r = take_u64(s);
            (Ok(unpack_modern(r.0->Ok_0)), r.1)
        }
    }
}

impl Roundtrip for Position {
    open spec fn encodable(v: Position) -> bool {
        in_wire_range(v)
    }

    open spec fn reads_to_end() -> bool {
        false
    }

    proof fn lemma_roundtrip(v: Position, rest: Seq<u8>) {
        broadcast use group_wire_roundtrip;

        lemma_position_roundtrip(v);
    }
}

impl Encode for Position {
    fn encode(&self, dst: &mut BytesMut) -> (r: Result<(), ProtocolError>) {
        let x = (self.x as i64) & 0x3FFFFFF;
        let z = (self.z as i64) & 0x3FFFFFF;
        let y = (self.y as i64) & 0xFFF;
        let packed = ((x << 38) | (z << 12) | y) as u64;
        let sx = self.x;
        let sy = self.y;
        let sz = self.z;
        assert(packed == (((sx as u64) & 0x3FFFFFF) << 38u64) | (((sz as u64) & 0x3FFFFFF) << 12u64)
            | ((sy as u64) & 0xFFF)) by (bit_vector)
            requires
                x == (sx as i64) & 0x3FFFFFF,
                z == (sz as i64) & 0x3FFFFFF,
                y == (sy as i64) & 0xFFF,
                packed == ((x << 38i64) | (z << 12i64) | y) as u64,
        ;
        put_u64(dst, packed);
        Ok(())
    }
}

impl Decode for Position {
    fn decode(src: &mut Bytes) -> (r: Result<Self, ProtocolError>) {
        if remaining(src) < 8 {
            return Err(ProtocolError::UnexpectedEof);
        }
        let val = get_u64(src);
        Ok(decode_modern_position(val))
    }
}

} // verus!
