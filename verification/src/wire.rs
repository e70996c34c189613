//! The wire format as mathematics: the bytes that each value is written as,
//! and the values that cannot be written.

use vstd::prelude::*;
use vstd::utf8::encode_utf8;
use crate::error::EncodeError;
use crate::value::ValueView;

verus! {

/// The two bytes of a 16-bit number, most significant first.
pub open spec fn be16(x: u16) -> Seq<u8> {
    seq![(x / 0x100) as u8, (x % 0x100) as u8]
}

/// The four bytes of a 32-bit number, most significant first.
pub open spec fn be32(x: u32) -> Seq<u8> {
    seq![
        (x / 0x100_0000) as u8,
        (x / 0x1_0000 % 0x100) as u8,
        (x / 0x100 % 0x100) as u8,
        (x % 0x100) as u8,
    ]
}

/// The eight bytes of a 64-bit number, most significant first.
pub open spec fn be64(x: u64) -> Seq<u8> {
    be32((x / 0x1_0000_0000) as u32) + be32((x % 0x1_0000_0000) as u32)
}

/// The number that two bytes spell, most significant first.
pub open spec fn from_be16(b0: u8, b1: u8) -> u16 {
    (b0 * 0x100 + b1) as u16
}

/// The number that four bytes spell, most significant first.
pub open spec fn from_be32(b0: u8, b1: u8, b2: u8, b3: u8) -> u32 {
    (b0 * 0x100_0000 + b1 * 0x1_0000 + b2 * 0x100 + b3) as u32
}

/// The number that eight bytes spell, most significant first.
pub open spec fn from_be64(hi: u32, lo: u32) -> u64 {
    (hi * 0x1_0000_0000 + lo) as u64
}

/// The byte with the same eight bits, in two's complement.
pub open spec fn unsigned8(v: i8) -> u8 {
    if v < 0 {
        (v + 0x100) as u8
    } else {
        v as u8
    }
}

/// The 16-bit number with the same bits, in two's complement.
pub open spec fn unsigned16(v: i16) -> u16 {
    if v < 0 {
        (v + 0x1_0000) as u16
    } else {
        v as u16
    }
}

/// The 32-bit number with the same bits, in two's complement.
pub open spec fn unsigned32(v: i32) -> u32 {
    if v < 0 {
        (v + 0x1_0000_0000) as u32
    } else {
        v as u32
    }
}

/// The 64-bit number with the same bits, in two's complement.
pub open spec fn unsigned64(v: i64) -> u64 {
    if v < 0 {
        (v + 0x1_0000_0000_0000_0000) as u64
    } else {
        v as u64
    }
}

/// A byte read as an 8-bit two's-complement number.
pub open spec fn signed8(u: u8) -> i8 {
    if u >= 0x80 {
        (u - 0x100) as i8
    } else {
        u as i8
    }
}

/// Sixteen bits read as a two's-complement number.
pub open spec fn signed16(u: u16) -> i16 {
    if u >= 0x8000 {
        (u - 0x1_0000) as i16
    } else {
        u as i16
    }
}

/// Thirty-two bits read as a two's-complement number.
pub open spec fn signed32(u: u32) -> i32 {
    if u >= 0x8000_0000 {
        (u - 0x1_0000_0000) as i32
    } else {
        u as i32
    }
}

/// Sixty-four bits read as a two's-complement number.
pub open spec fn signed64(u: u64) -> i64 {
    if u >= 0x8000_0000_0000_0000 {
        (u - 0x1_0000_0000_0000_0000) as i64
    } else {
        u as i64
    }
}

/// A string header for `n` payload bytes: the length in the marker up to 31,
/// then in one, two or four bytes.
pub open spec fn str_header(n: nat) -> Seq<u8> {
    if n <= 31 {
        seq![(0xa0 + n) as u8]
    } else if n <= 0xff {
        seq![0xd9u8, n as u8]
    } else if n <= 0xffff {
        seq![0xdau8] + be16(n as u16)
    } else {
        seq![0xdbu8] + be32(n as u32)
    }
}

/// A header of the three-tier scheme for `n` payload bytes: `first` with a
/// one-byte length, `first + 1` with two bytes, `first + 2` with four.
pub open spec fn sized_header(first: u8, n: nat) -> Seq<u8> {
    if n <= 0xff {
        seq![first, n as u8]
    } else if n <= 0xffff {
        seq![(first + 1) as u8] + be16(n as u16)
    } else {
        seq![(first + 2) as u8] + be32(n as u32)
    }
}

/// A binary header for `n` payload bytes.
pub open spec fn bin_header(n: nat) -> Seq<u8> {
    sized_header(0xc4, n)
}

/// An extension header for `n` payload bytes; the tag follows it.
pub open spec fn ext_header(n: nat) -> Seq<u8> {
    sized_header(0xc7, n)
}

/// A container header for `n` elements: the count in the marker up to 15,
/// then `wide` with two bytes, `wide + 1` with four.
pub open spec fn count_header(fix: u8, wide: u8, n: nat) -> Seq<u8> {
    if n <= 15 {
        seq![(fix + n) as u8]
    } else if n <= 0xffff {
        seq![wide] + be16(n as u16)
    } else {
        seq![(wide + 1) as u8] + be32(n as u32)
    }
}

/// An array header for `n` elements.
pub open spec fn array_header(n: nat) -> Seq<u8> {
    count_header(0x90, 0xdc, n)
}

/// A map header for `n` pairs.
pub open spec fn map_header(n: nat) -> Seq<u8> {
    count_header(0x80, 0xde, n)
}

/// The bytes of a value. Integers keep the width of their variant: only `U8`
/// up to 0x7f and `I8` from -32 to -1 fold into the marker.
pub open spec fn spec_encode(v: ValueView) -> Seq<u8>
    decreases v,
{
    match v {
        ValueView::Nil => seq![0xc0u8],
        ValueView::Bool(b) => seq![if b { 0xc3u8 } else { 0xc2u8 }],
        ValueView::U8(x) => if x <= 0x7f { seq![x] } else { seq![0xccu8, x] },
        ValueView::U16(x) => seq![0xcdu8] + be16(x),
        ValueView::U32(x) => seq![0xceu8] + be32(x),
        ValueView::U64(x) => seq![0xcfu8] + be64(x),
        ValueView::F32(x) => seq![0xcau8] + be32(x.bits),
        ValueView::F64(x) => seq![0xcbu8] + be64(x.bits),
        ValueView::I8(x) => if -32 <= x <= -1 { seq![unsigned8(x)] } else { seq![0xd0u8, unsigned8(x)] },
        ValueView::I16(x) => seq![0xd1u8] + be16(unsigned16(x)),
        ValueView::I32(x) => seq![0xd2u8] + be32(unsigned32(x)),
        ValueView::I64(x) => seq![0xd3u8] + be64(unsigned64(x)),
        ValueView::Str(s) => str_header(encode_utf8(s).len()) + encode_utf8(s),
        ValueView::Bin(b) => bin_header(b.len()) + b,
        ValueView::Array(items) => array_header(items.len()) + spec_encode_all(items),
        ValueView::Mapping(pairs) => map_header(pairs.len()) + spec_encode_pairs(pairs),
        ValueView::Extension(e) => ext_header(e.data.len()) + seq![e.type_] + e.data,
    }
}

/// The bytes of a sequence of values, one after the other.
pub open spec fn spec_encode_all(items: Seq<ValueView>) -> Seq<u8>
    decreases items,
{
    if items.len() == 0 {
        Seq::empty()
    } else {
        spec_encode(items[0]) + spec_encode_all(items.drop_first())
    }
}

/// The bytes of a sequence of pairs: key, value, key, value.
pub open spec fn spec_encode_pairs(pairs: Seq<(ValueView, ValueView)>) -> Seq<u8>
    decreases pairs,
{
    if pairs.len() == 0 {
        Seq::empty()
    } else {
        spec_encode(pairs[0].0) + spec_encode(pairs[0].1) + spec_encode_pairs(pairs.drop_first())
    }
}

/// Why a value cannot be written: the first length, in the order of writing,
/// that no header can carry. `None` where the value can be written.
pub open spec fn encode_error(v: ValueView) -> Option<EncodeError>
    decreases v,
{
    match v {
        ValueView::Str(s) => if encode_utf8(s).len() > 0x8000_0000 {
            Some(EncodeError::StringTooLong)
        } else {
            None
        },
        ValueView::Bin(b) => if b.len() > 0xffff_ffff {
            Some(EncodeError::BinaryTooLong)
        } else {
            None
        },
        ValueView::Extension(e) => if e.data.len() > 0xffff_ffff {
            Some(EncodeError::ExtensionTooLong)
        } else {
            None
        },
        ValueView::Array(items) => if items.len() >= 0xffff_ffff {
            Some(EncodeError::ArrayTooLong)
        } else {
            first_error(items)
        },
        ValueView::Mapping(pairs) => if pairs.len() >= 0xffff_ffff {
            Some(EncodeError::MapTooLong)
        } else {
            first_pair_error(pairs)
        },
        _ => None,
    }
}

/// The error of the first value of a sequence that has one.
pub open spec fn first_error(items: Seq<ValueView>) -> Option<EncodeError>
    decreases items,
{
    if items.len() == 0 {
        None
    } else if encode_error(items[0]) is Some {
        encode_error(items[0])
    } else {
        first_error(items.drop_first())
    }
}

/// The error of the first key or value of a sequence of pairs that has one.
pub open spec fn first_pair_error(pairs: Seq<(ValueView, ValueView)>) -> Option<EncodeError>
    decreases pairs,
{
    if pairs.len() == 0 {
        None
    } else if encode_error(pairs[0].0) is Some {
        encode_error(pairs[0].0)
    } else if encode_error(pairs[0].1) is Some {
        encode_error(pairs[0].1)
    } else {
        first_pair_error(pairs.drop_first())
    }
}

/// Two bytes spell the number they were made from.
pub proof fn lemma_be16_round_trip(x: u16)
    ensures
        be16(x).len() == 2,
        from_be16(be16(x)[0], be16(x)[1]) == x,
{
}

/// Four bytes spell the number they were made from.
pub proof fn lemma_be32_round_trip(x: u32)
    ensures
        be32(x).len() == 4,
        from_be32(be32(x)[0], be32(x)[1], be32(x)[2], be32(x)[3]) == x,
{
}

/// Eight bytes spell the number they were made from.
pub proof fn lemma_be64_round_trip(x: u64)
    ensures
        be64(x).len() == 8,
        from_be64(
            from_be32(be64(x)[0], be64(x)[1], be64(x)[2], be64(x)[3]),
            from_be32(be64(x)[4], be64(x)[5], be64(x)[6], be64(x)[7]),
        ) == x,
{
    lemma_be32_round_trip((x / 0x1_0000_0000) as u32);
    lemma_be32_round_trip((x % 0x1_0000_0000) as u32);
}

/// Reading the bits of a signed number as unsigned and back changes nothing.
pub proof fn lemma_signed_round_trip(a: i8, b: i16, c: i32, d: i64)
    ensures
        signed8(unsigned8(a)) == a,
        signed16(unsigned16(b)) == b,
        signed32(unsigned32(c)) == c,
        signed64(unsigned64(d)) == d,
{
}

} // verus!
