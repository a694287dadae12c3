//! Byte-level building blocks of the wire format: big-endian integers and
//! the result type of the spec-level parsers.
use crate::error::ErrorView;
use vstd::prelude::*;

verus! {

/// What a parser yields on a byte sequence: a value or an error, and the bytes
/// left after it.
pub type Parsed<T> = (Result<T, ErrorView>, Seq<u8>);

/// Runs `k` on the value and the remaining bytes of `r`, or passes the error on.
pub open spec fn then<A, B>(r: Parsed<A>, k: spec_fn(A, Seq<u8>) -> Parsed<B>) -> Parsed<B> {
    match r.0 {
        Ok(a) => k(a, r.1),
        Err(e) => (Err(e), r.1),
    }
}

/// Whether a parse would read past the end of the buffer.
pub open spec fn panics<T>(r: Parsed<T>) -> bool {
    r.0 == Err::<T, ErrorView>(ErrorView::Panic)
}

pub open spec fn be_u16_bytes(v: u16) -> Seq<u8> {
    seq![(v >> 8) as u8, v as u8]
}

pub open spec fn be_u16_value(b: Seq<u8>) -> u16 {
    ((b[0] as u16) << 8) | (b[1] as u16)
}

pub open spec fn be_u32_bytes(v: u32) -> Seq<u8> {
    seq![(v >> 24) as u8, (v >> 16) as u8, (v >> 8) as u8, v as u8]
}

pub open spec fn be_u32_value(b: Seq<u8>) -> u32 {
    ((b[0] as u32) << 24) | ((b[1] as u32) << 16) | ((b[2] as u32) << 8) | (b[3] as u32)
}

pub open spec fn be_u64_bytes(v: u64) -> Seq<u8> {
    seq![
        (v >> 56) as u8,
        (v >> 48) as u8,
        (v >> 40) as u8,
        (v >> 32) as u8,
        (v >> 24) as u8,
        (v >> 16) as u8,
        (v >> 8) as u8,
        v as u8,
    ]
}

pub open spec fn be_u64_value(b: Seq<u8>) -> u64 {
    ((b[0] as u64) << 56) | ((b[1] as u64) << 48) | ((b[2] as u64) << 40) | ((b[3] as u64) << 32)
        | ((b[4] as u64) << 24) | ((b[5] as u64) << 16) | ((b[6] as u64) << 8) | (b[7] as u64)
}

pub open spec fn be_i16_bytes(v: i16) -> Seq<u8> {
    be_u16_bytes(v as u16)
}

pub open spec fn be_i16_value(b: Seq<u8>) -> i16 {
    be_u16_value(b) as i16
}

pub open spec fn be_i32_bytes(v: i32) -> Seq<u8> {
    be_u32_bytes(v as u32)
}

pub open spec fn be_i32_value(b: Seq<u8>) -> i32 {
    be_u32_value(b) as i32
}

pub open spec fn be_i64_bytes(v: i64) -> Seq<u8> {
    be_u64_bytes(v as u64)
}

pub open spec fn be_i64_value(b: Seq<u8>) -> i64 {
    be_u64_value(b) as i64
}

/// A byte read without a length check first.
pub open spec fn take_u8(s: Seq<u8>) -> Parsed<u8> {
    if s.len() < 1 {
        (Err(ErrorView::Panic), s)
    } else {
        (Ok(s[0]), s.drop_first())
    }
}

pub open spec fn take_i8(s: Seq<u8>) -> Parsed<i8> {
    if s.len() < 1 {
        (Err(ErrorView::Panic), s)
    } else {
        (Ok(s[0] as i8), s.drop_first())
    }
}

/// A byte read as a flag: anything but zero is `true`.
pub open spec fn take_bool(s: Seq<u8>) -> Parsed<bool> {
    if s.len() < 1 {
        (Err(ErrorView::Panic), s)
    } else {
        (Ok(s[0] != 0), s.drop_first())
    }
}

pub open spec fn take_u16(s: Seq<u8>) -> Parsed<u16> {
    if s.len() < 2 {
        (Err(ErrorView::Panic), s)
    } else {
        (Ok(be_u16_value(s)), s.skip(2))
    }
}

pub open spec fn take_i16(s: Seq<u8>) -> Parsed<i16> {
    if s.len() < 2 {
        (Err(ErrorView::Panic), s)
    } else {
        (Ok(be_i16_value(s)), s.skip(2))
    }
}

pub open spec fn take_i32(s: Seq<u8>) -> Parsed<i32> {
    if s.len() < 4 {
        (Err(ErrorView::Panic), s)
    } else {
        (Ok(be_i32_value(s)), s.skip(4))
    }
}

pub open spec fn take_u32(s: Seq<u8>) -> Parsed<u32> {
    if s.len() < 4 {
        (Err(ErrorView::Panic), s)
    } else {
        (Ok(be_u32_value(s)), s.skip(4))
    }
}

pub open spec fn take_i64(s: Seq<u8>) -> Parsed<i64> {
    if s.len() < 8 {
        (Err(ErrorView::Panic), s)
    } else {
        (Ok(be_i64_value(s)), s.skip(8))
    }
}

pub open spec fn take_u64(s: Seq<u8>) -> Parsed<u64> {
    if s.len() < 8 {
        (Err(ErrorView::Panic), s)
    } else {
        (Ok(be_u64_value(s)), s.skip(8))
    }
}

/// All remaining bytes.
pub open spec fn take_rest(s: Seq<u8>) -> Parsed<Seq<u8>> {
    (Ok(s), Seq::<u8>::empty())
}

/// The wire form of a flag.
pub open spec fn bool_byte(b: bool) -> u8 {
    if b { 1 } else { 0 }
}

pub broadcast proof fn lemma_take_u8(v: u8, rest: Seq<u8>)
    ensures
        #[trigger] take_u8(seq![v] + rest) == (Ok::<u8, ErrorView>(v), rest),
{
    assert((seq![v] + rest).drop_first() =~= rest);
}

pub broadcast proof fn lemma_take_i8(v: i8, rest: Seq<u8>)
    ensures
        #[trigger] take_i8(seq![v as u8] + rest) == (Ok::<i8, ErrorView>(v), rest),
{
    assert((seq![v as u8] + rest).drop_first() =~= rest);
    assert((v as u8) as i8 == v) by (bit_vector);
}

pub broadcast proof fn lemma_take_bool(v: bool, rest: Seq<u8>)
    ensures
        #[trigger] take_bool(seq![bool_byte(v)] + rest) == (Ok::<bool, ErrorView>(v), rest),
{
    assert((seq![bool_byte(v)] + rest).drop_first() =~= rest);
}

pub broadcast proof fn lemma_take_u16(v: u16, rest: Seq<u8>)
    ensures
        #[trigger] take_u16(be_u16_bytes(v) + rest) == (Ok::<u16, ErrorView>(v), rest),
{
    let s = be_u16_bytes(v) + rest;
    assert(s.skip(2) =~= rest);
    let b0 = (v >> 8) as u8;
    let b1 = v as u8;
    assert(s[0] == b0 && s[1] == b1);
    assert(((b0 as u16) << 8) | (b1 as u16) == v) by (bit_vector)
        requires
            b0 == (v >> 8) as u8,
            b1 == v as u8,
    ;
}

pub broadcast proof fn lemma_take_i16(v: i16, rest: Seq<u8>)
    ensures
        #[trigger] take_i16(be_i16_bytes(v) + rest) == (Ok::<i16, ErrorView>(v), rest),
{
    lemma_take_u16(v as u16, rest);
    assert((v as u16) as i16 == v) by (bit_vector);
}

pub proof fn lemma_u32_roundtrip(v: u32)
    ensures
        be_u32_value(be_u32_bytes(v)) == v,
{
    let b = be_u32_bytes(v);
    let b0 = (v >> 24) as u8;
    let b1 = (v >> 16) as u8;
    let b2 = (v >> 8) as u8;
    let b3 = v as u8;
    assert(b[0] == b0 && b[1] == b1 && b[2] == b2 && b[3] == b3);
    assert(((b0 as u32) << 24) | ((b1 as u32) << 16) | ((b2 as u32) << 8) | (b3 as u32) == v)
        by (bit_vector)
        requires
            b0 == (v >> 24) as u8,
            b1 == (v >> 16) as u8,
            b2 == (v >> 8) as u8,
            b3 == v as u8,
    ;
}

pub broadcast proof fn lemma_take_i32(v: i32, rest: Seq<u8>)
    ensures
        #[trigger] take_i32(be_i32_bytes(v) + rest) == (Ok::<i32, ErrorView>(v), rest),
{
    let s = be_i32_bytes(v) + rest;
    assert(s.skip(4) =~= rest);
    lemma_u32_roundtrip(v as u32);
    assert(s.take(4) =~= be_i32_bytes(v));
    assert(be_u32_value(s) == be_u32_value(be_i32_bytes(v)));
    assert((v as u32) as i32 == v) by (bit_vector);
}

pub broadcast proof fn lemma_take_u32(v: u32, rest: Seq<u8>)
    ensures
        #[trigger] take_u32(be_u32_bytes(v) + rest) == (Ok::<u32, ErrorView>(v), rest),
{
    let s = be_u32_bytes(v) + rest;
    assert(s.skip(4) =~= rest);
    lemma_u32_roundtrip(v);
    assert(s.take(4) =~= be_u32_bytes(v));
    assert(be_u32_value(s) == be_u32_value(be_u32_bytes(v)));
}

pub proof fn lemma_u64_roundtrip(v: u64)
    ensures
        be_u64_value(be_u64_bytes(v)) == v,
{
    let b = be_u64_bytes(v);
    let b0 = (v >> 56) as u8;
    let b1 = (v >> 48) as u8;
    let b2 = (v >> 40) as u8;
    let b3 = (v >> 32) as u8;
    let b4 = (v >> 24) as u8;
    let b5 = (v >> 16) as u8;
    let b6 = (v >> 8) as u8;
    let b7 = v as u8;
    assert(b[0] == b0 && b[1] == b1 && b[2] == b2 && b[3] == b3);
    assert(b[4] == b4 && b[5] == b5 && b[6] == b6 && b[7] == b7);
    assert(((b0 as u64) << 56) | ((b1 as u64) << 48) | ((b2 as u64) << 40) | ((b3 as u64) << 32)
        | ((b4 as u64) << 24) | ((b5 as u64) << 16) | ((b6 as u64) << 8) | (b7 as u64) == v)
        by (bit_vector)
        requires
            b0 == (v >> 56) as u8,
            b1 == (v >> 48) as u8,
            b2 == (v >> 40) as u8,
            b3 == (v >> 32) as u8,
            b4 == (v >> 24) as u8,
            b5 == (v >> 16) as u8,
            b6 == (v >> 8) as u8,
            b7 == v as u8,
    ;
}

pub broadcast proof fn lemma_take_u64(v: u64, rest: Seq<u8>)
    ensures
        #[trigger] take_u64(be_u64_bytes(v) + rest) == (Ok::<u64, ErrorView>(v), rest),
{
    let s = be_u64_bytes(v) + rest;
    assert(s.skip(8) =~= rest);
    lemma_u64_roundtrip(v);
    assert(s.take(8) =~= be_u64_bytes(v));
    assert(be_u64_value(s) == be_u64_value(be_u64_bytes(v)));
}

pub broadcast proof fn lemma_take_i64(v: i64, rest: Seq<u8>)
    ensures
        #[trigger] take_i64(be_i64_bytes(v) + rest) == (Ok::<i64, ErrorView>(v), rest),
{
    lemma_take_u64(v as u64, rest);
    assert((v as u64) as i64 == v) by (bit_vector);
}

pub broadcast group group_wire_roundtrip {
    lemma_take_u8,
    lemma_take_i8,
    lemma_take_bool,
    lemma_take_u16,
    lemma_take_i16,
    lemma_take_i32,
    lemma_take_u32,
    lemma_take_i64,
    lemma_take_u64,
}

/// Reading `n` items, one after the other, with `item`.
pub open spec fn read_n<T>(s: Seq<u8>, n: nat, item: spec_fn(Seq<u8>) -> Parsed<T>) -> Parsed<Seq<T>>
    decreases n,
{
    if n == 0 {
        (Ok(Seq::empty()), s)
    } else {
        then(
            read_n(s, (n - 1) as nat, item),
            |xs: Seq<T>, t: Seq<u8>| then(item(t), |x: T, u: Seq<u8>| (Ok(xs.push(x)), u)),
        )
    }
}

/// The encodings of `xs`, one after the other.
pub open spec fn write_all<T>(xs: Seq<T>, enc: spec_fn(T) -> Seq<u8>) -> Seq<u8>
    decreases xs.len(),
{
    if xs.len() == 0 {
        Seq::empty()
    } else {
        write_all(xs.drop_last(), enc) + enc(xs.last())
    }
}

/// Reading back the encodings of items that each read back gives the items.
pub proof fn lemma_read_write_n<T>(
    xs: Seq<T>,
    rest: Seq<u8>,
    item: spec_fn(Seq<u8>) -> Parsed<T>,
    enc: spec_fn(T) -> Seq<u8>,
    good: spec_fn(T) -> bool,
)
    requires
        forall|x: T, r: Seq<u8>| good(x) ==> #[trigger] item(enc(x) + r) == (Ok::<T, ErrorView>(x), r),
        forall|i: int| 0 <= i < xs.len() ==> good(#[trigger] xs[i]),
    ensures
        read_n(write_all(xs, enc) + rest, xs.len(), item) == (Ok::<Seq<T>, ErrorView>(xs), rest),
    decreases xs.len(),
{
    if xs.len() == 0 {
        assert(write_all(xs, enc) + rest =~= rest);
        assert(xs =~= Seq::<T>::empty());
    } else {
        let ys = xs.drop_last();
        let x = xs.last();
        assert(write_all(xs, enc) + rest =~= write_all(ys, enc) + (enc(x) + rest));
        assert(good(xs[xs.len() - 1]));
        lemma_read_write_n(ys, enc(x) + rest, item, enc, good);
        assert(ys.push(x) =~= xs);
    }
}

/// Once reading the items fails, reading more of them fails the same way.
pub proof fn lemma_read_n_err<T>(s: Seq<u8>, i: nat, n: nat, item: spec_fn(Seq<u8>) -> Parsed<T>)
    requires
        i <= n,
        read_n(s, i, item).0 is Err,
    ensures
        read_n(s, n, item) == read_n(s, i, item),
    decreases n - i,
{
    if i < n {
        lemma_read_n_err(s, i, (n - 1) as nat, item);
    }
}

} // verus!
