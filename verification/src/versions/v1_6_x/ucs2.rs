//! Pre-netty strings: a big-endian `u16` count of UTF-16 code units, then
//! the units, each big-endian.
use crate::buffer::{bytes_data, bytes_mut_data, get_u16, put_u16, remaining};
use crate::error::{ErrorView, ProtocolError};
use crate::wire::{be_u16_bytes, be_u16_value, lemma_read_write_n, lemma_take_u16, read_n, take_u16, write_all, Parsed};
use bytes::{Bytes, BytesMut};
use vstd::prelude::*;
use vstd::seq_lib::lemma_concat_associative;

verus! {

/// The UTF-16 code units of one character: itself below 0x10000, else a
/// surrogate pair.
pub open spec fn char_utf16(c: char) -> Seq<u16> {
    let v = c as int;
    if v < 0x10000 {
        seq![v as u16]
    } else {
        seq![(0xD800 + (v - 0x10000) / 0x400) as u16, (0xDC00 + (v - 0x10000) % 0x400) as u16]
    }
}

/// The UTF-16 code units of a string.
pub open spec fn utf16_units(s: Seq<char>) -> Seq<u16>
    decreases s.len(),
{
    if s.len() == 0 {
        Seq::empty()
    } else {
        char_utf16(s[0]) + utf16_units(s.drop_first())
    }
}

/// The string whose UTF-16 code units are `u`, if there is one.
pub open spec fn utf16_text(u: Seq<u16>) -> Option<Seq<char>> {
    if exists|c: Seq<char>| #[trigger] utf16_units(c) == u {
        Some(choose|c: Seq<char>| #[trigger] utf16_units(c) == u)
    } else {
        None
    }
}

pub open spec fn unit_bytes() -> spec_fn(u16) -> Seq<u8> {
    |u: u16| be_u16_bytes(u)
}

pub open spec fn unit_item() -> spec_fn(Seq<u8>) -> Parsed<u16> {
    |t: Seq<u8>| take_u16(t)
}

/// The bytes of a pre-netty string. The count is the number of code units
/// as a `u16`.
pub open spec fn legacy_string_wire(s: Seq<char>) -> Seq<u8> {
    be_u16_bytes(utf16_units(s).len() as u16) + write_all(utf16_units(s), unit_bytes())
}

/// The strings whose code units the `u16` count can hold.
pub open spec fn legacy_string_fits(s: Seq<char>) -> bool {
    utf16_units(s).len() <= u16::MAX
}

/// Reading the code units of a pre-netty string; a missing count or
/// missing units are `UnexpectedEof`.
pub open spec fn legacy_units_spec(s: Seq<u8>) -> Parsed<Seq<u16>> {
    if s.len() < 2 {
        (Err(ErrorView::UnexpectedEof), s)
    } else {
        let n = be_u16_value(s) as nat;
        let t = s.skip(2);
        if t.len() < 2 * n {
            (Err(ErrorView::UnexpectedEof), t)
        } else {
            read_n(t, n, unit_item())
        }
    }
}

/// Reading a pre-netty string whose units are not UTF-16 fails with `bad`.
pub open spec fn legacy_string_read(s: Seq<u8>, bad: ErrorView) -> Parsed<Seq<char>> {
    let (r, t) = legacy_units_spec(s);
    match r {
        Ok(u) => match utf16_text(u) {
            Some(c) => (Ok(c), t),
            None => (Err(bad), t),
        },
        Err(e) => (Err(e), t),
    }
}

/// `str::encode_utf16`, collected: the UTF-16 code units of `s`.
#[verifier::external_body]
fn encode_utf16(s: &str) -> (r: Vec<u16>)
    ensures
        r@ == utf16_units(s@),
{
    s.encode_utf16().collect()
}

/// `String::from_utf16`: the string whose UTF-16 code units are `v`, and
/// nothing when no string has them.
#[verifier::external_body]
fn string_from_utf16(v: &[u16]) -> (r: Option<String>)
    ensures
        match r {
            Some(s) => utf16_units(s@) == v@,
            None => forall|c: Seq<char>| #[trigger] utf16_units(c) != v@,
        },
{
    String::from_utf16(v).ok()
}

/// Reads the count and the code units of a pre-netty string.
pub fn read_legacy_units(src: &mut Bytes) -> (r: Result<Vec<u16>, ProtocolError>)
    ensures
        legacy_units_spec(bytes_data(*old(src))) == (
            match r {
                Ok(v) => Ok(v@),
                Err(e) => Err(e@),
            },
            bytes_data(*final(src)),
        ),
{
    if remaining(src) < 2 {
        return Err(ProtocolError::UnexpectedEof);
    }
    let len = get_u16(src) as usize;
    if remaining(src) < len * 2 {
        return Err(ProtocolError::UnexpectedEof);
    }
    let ghost t = bytes_data(*src);
    let mut units: Vec<u16> = Vec::new();
    let mut i: usize = 0;
    while i < len
        invariant
            i <= len,
            len <= u16::MAX,
            t.len() >= 2 * len,
            bytes_data(*src).len() == t.len() - 2 * i,
            read_n(t, i as nat, unit_item()) == (Ok::<Seq<u16>, ErrorView>(units@), bytes_data(*src)),
        decreases len - i,
    {
        let u = get_u16(src);
        units.push(u);
        i += 1;
    }
    Ok(units)
}

/// Reads a pre-netty string: its units, then the string they encode.
pub fn read_legacy_string(src: &mut Bytes) -> (r: Result<Option<String>, ProtocolError>)
    ensures
        ({
            let (spec_r, t) = legacy_units_spec(bytes_data(*old(src)));
            &&& bytes_data(*final(src)) == t
            &&& match r {
                Ok(Some(s)) => spec_r matches Ok(u) && utf16_text(u) == Some(s@),
                Ok(None) => spec_r matches Ok(u) && utf16_text(u) is None,
                Err(e) => spec_r == Err::<Seq<u16>, ErrorView>(e@),
            }
        }),
{
    let units = read_legacy_units(src)?;
    let r = string_from_utf16(units.as_slice());
    proof {
        if r is Some {
            let c = choose|c: Seq<char>| #[trigger] utf16_units(c) == units@;
            lemma_utf16_injective(c, r->0@);
        }
    }
    Ok(r)
}

/// Writes a pre-netty string: its code-unit count as a `u16`, then the units.
pub fn write_legacy_string(s: &str, dst: &mut BytesMut)
    ensures
        bytes_mut_data(*final(dst)) == bytes_mut_data(*old(dst)) + legacy_string_wire(s@),
{
    let units = encode_utf16(s);
    put_u16(dst, units.len() as u16);
    let ghost d0 = bytes_mut_data(*dst);
    let ghost xs = units@;
    let mut i: usize = 0;
    assert(xs.take(0) =~= Seq::<u16>::empty());
    assert(d0 + write_all(xs.take(0), unit_bytes()) =~= d0);
    while i < units.len()
        invariant
            xs == units@,
            i <= units.len(),
            bytes_mut_data(*dst) == d0 + write_all(xs.take(i as int), unit_bytes()),
        decreases units.len() - i,
    {
        put_u16(dst, units[i]);
        assert(xs.take(i as int + 1).drop_last() =~= xs.take(i as int));
        assert(bytes_mut_data(*dst) =~= d0 + write_all(xs.take(i as int + 1), unit_bytes()));
        i += 1;
    }
    assert(xs.take(units.len() as int) =~= xs);
    assert(bytes_mut_data(*dst) =~= bytes_mut_data(*old(dst)) + legacy_string_wire(s@));
}

/// The units of a character that needs a surrogate pair start with a high
/// surrogate; those of any other character are not surrogates.
proof fn lemma_char_utf16_shape(c: char)
    ensures
        (c as int) < 0x10000 ==> char_utf16(c).len() == 1 && !(0xD800 <= char_utf16(c)[0] <= 0xDFFF),
        (c as int) >= 0x10000 ==> char_utf16(c).len() == 2 && 0xD800 <= char_utf16(c)[0] <= 0xDBFF,
{
    let v = c as int;
    if v >= 0x10000 {
        assert(v <= 0x10FFFF);
        assert(0 <= (v - 0x10000) / 0x400 <= 0x3FF);
    }
}

/// Different characters have different units.
proof fn lemma_char_utf16_injective(a: char, b: char)
    requires
        char_utf16(a) == char_utf16(b),
    ensures
        a == b,
{
    lemma_char_utf16_shape(a);
    lemma_char_utf16_shape(b);
    let x = a as int;
    let y = b as int;
    if x >= 0x10000 {
        assert(y >= 0x10000);
        let p = x - 0x10000;
        let q = y - 0x10000;
        assert(0 <= p / 0x400 <= 0x3FF && 0 <= q / 0x400 <= 0x3FF);
        assert(p / 0x400 == q / 0x400);
        assert(p % 0x400 == q % 0x400);
        assert(p == 0x400 * (p / 0x400) + p % 0x400);
        assert(q == 0x400 * (q / 0x400) + q % 0x400);
    }
}

/// The units of a string begin with those of its first character.
proof fn lemma_utf16_units_nonempty(s: Seq<char>)
    ensures
        s.len() > 0 ==> utf16_units(s).len() > 0,
        s.len() == 0 ==> utf16_units(s).len() == 0,
{
    if s.len() > 0 {
        lemma_char_utf16_shape(s[0]);
    }
}

/// Different strings have different units.
pub proof fn lemma_utf16_injective(a: Seq<char>, b: Seq<char>)
    requires
        utf16_units(a) == utf16_units(b),
    ensures
        a == b,
    decreases a.len(),
{
    lemma_utf16_units_nonempty(a);
    lemma_utf16_units_nonempty(b);
    if a.len() == 0 {
        assert(b.len() == 0);
        assert(a =~= b);
    } else {
        let ua = char_utf16(a[0]);
        let ub = char_utf16(b[0]);
        let u = utf16_units(a);
        lemma_char_utf16_shape(a[0]);
        lemma_char_utf16_shape(b[0]);
        assert(u[0] == ua[0]);
        assert(u[0] == ub[0]);
        assert(ua.len() == ub.len());
        if ua.len() == 2 {
            assert(u[1] == ua[1]);
            assert(u[1] == ub[1]);
        }
        assert(ua =~= ub);
        lemma_char_utf16_injective(a[0], b[0]);
        let k = ua.len() as int;
        assert(utf16_units(a.drop_first()) =~= u.skip(k));
        assert(utf16_units(b.drop_first()) =~= u.skip(k));
        lemma_utf16_injective(a.drop_first(), b.drop_first());
        assert(a =~= seq![a[0]] + a.drop_first());
        assert(b =~= seq![b[0]] + b.drop_first());
    }
}

/// Each unit takes two bytes.
proof fn lemma_units_wire_len(u: Seq<u16>)
    ensures
        write_all(u, unit_bytes()).len() == 2 * u.len(),
    decreases u.len(),
{
    if u.len() > 0 {
        lemma_units_wire_len(u.drop_last());
    }
}

/// Reading back the bytes of a string that fits gives its units and leaves
/// what followed.
pub proof fn lemma_legacy_units_roundtrip(c: Seq<char>, rest: Seq<u8>)
    requires
        legacy_string_fits(c),
    ensures
        legacy_units_spec(legacy_string_wire(c) + rest) == (Ok::<Seq<u16>, ErrorView>(utf16_units(c)), rest),
{
    let u = utf16_units(c);
    let n = u.len() as u16;
    let body = write_all(u, unit_bytes()) + rest;
    let s = legacy_string_wire(c) + rest;
    lemma_concat_associative(be_u16_bytes(n), write_all(u, unit_bytes()), rest);
    lemma_take_u16(n, body);
    assert(s.skip(2) =~= body);
    lemma_units_wire_len(u);
    assert forall|x: u16, r: Seq<u8>| true implies #[trigger] unit_item()(unit_bytes()(x) + r) == (Ok::<
        u16,
        ErrorView,
    >(x), r) by {
        lemma_take_u16(x, r);
    }
    lemma_read_write_n(u, rest, unit_item(), unit_bytes(), |x: u16| true);
}

/// Reading back the bytes of a string that fits gives the string.
pub proof fn lemma_legacy_string_roundtrip(c: Seq<char>, rest: Seq<u8>, bad: ErrorView)
    requires
        legacy_string_fits(c),
    ensures
        legacy_string_read(legacy_string_wire(c) + rest, bad) == (Ok::<Seq<char>, ErrorView>(c), rest),
{
    lemma_legacy_units_roundtrip(c, rest);
    let u = utf16_units(c);
    assert(exists|d: Seq<char>| #[trigger] utf16_units(d) == u);
    let d = choose|d: Seq<char>| #[trigger] utf16_units(d) == u;
    lemma_utf16_injective(c, d);
}

} // verus!
