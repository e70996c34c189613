//! Bytes at a place of a buffer: what the decoder finds where a field or a
//! header stands whole, and where the buffer ends inside it.

use vstd::prelude::*;
use crate::error::DecodeError;
use crate::grammar::{parse_be16, parse_be32, parse_be64, parse_count, parse_sized_len,
    parse_str_len};
use crate::marker::{marker_of, Marker};
use crate::wire::{be16, be32, be64, count_header, lemma_be16_round_trip, lemma_be32_round_trip,
    lemma_be64_round_trip, sized_header, str_header};

verus! {

/// `bytes` stand in `buf` from `pos` on.
pub open spec fn sits_at(buf: Seq<u8>, pos: int, bytes: Seq<u8>) -> bool {
    &&& 0 <= pos
    &&& pos + bytes.len() <= buf.len()
    &&& buf.subrange(pos, pos + bytes.len()) == bytes
}

/// Where bytes stand in a buffer, each of them is found at its place.
pub proof fn lemma_sits_at_index(buf: Seq<u8>, pos: int, bytes: Seq<u8>, i: int)
    requires
        sits_at(buf, pos, bytes),
        0 <= i < bytes.len(),
    ensures
        buf[pos + i] == bytes[i],
{
    assert(buf.subrange(pos, pos + bytes.len())[i] == buf[pos + i]);
}

/// Where two runs of bytes stand in a buffer one after the other, each stands
/// at its own place.
pub proof fn lemma_sits_at_split(buf: Seq<u8>, pos: int, a: Seq<u8>, b: Seq<u8>)
    requires
        sits_at(buf, pos, a + b),
    ensures
        sits_at(buf, pos, a),
        sits_at(buf, pos + a.len(), b),
{
    let whole = buf.subrange(pos, pos + (a + b).len());
    assert(buf.subrange(pos, pos + a.len()) =~= whole.subrange(0, a.len() as int));
    assert(whole.subrange(0, a.len() as int) =~= a);
    assert(buf.subrange(pos + a.len(), pos + a.len() + b.len()) =~= whole.subrange(
        a.len() as int,
        (a + b).len() as int,
    ));
    assert(whole.subrange(a.len() as int, (a + b).len() as int) =~= b);
}

/// Where the two bytes of a number stand, the number is read.
pub proof fn lemma_be16_at(buf: Seq<u8>, pos: int, x: u16)
    requires
        sits_at(buf, pos, be16(x)),
    ensures
        parse_be16(buf, pos) == Ok::<(u16, int), DecodeError>((x, pos + 2)),
{
    lemma_be16_round_trip(x);
    lemma_sits_at_index(buf, pos, be16(x), 0);
    lemma_sits_at_index(buf, pos, be16(x), 1);
}

/// Where the four bytes of a number stand, the number is read.
pub proof fn lemma_be32_at(buf: Seq<u8>, pos: int, x: u32)
    requires
        sits_at(buf, pos, be32(x)),
    ensures
        parse_be32(buf, pos) == Ok::<(u32, int), DecodeError>((x, pos + 4)),
{
    lemma_be32_round_trip(x);
    lemma_sits_at_index(buf, pos, be32(x), 0);
    lemma_sits_at_index(buf, pos, be32(x), 1);
    lemma_sits_at_index(buf, pos, be32(x), 2);
    lemma_sits_at_index(buf, pos, be32(x), 3);
}

/// Where the eight bytes of a number stand, the number is read.
pub proof fn lemma_be64_at(buf: Seq<u8>, pos: int, x: u64)
    requires
        sits_at(buf, pos, be64(x)),
    ensures
        parse_be64(buf, pos) == Ok::<(u64, int), DecodeError>((x, pos + 8)),
{
    lemma_be64_round_trip(x);
    lemma_sits_at_index(buf, pos, be64(x), 0);
    lemma_sits_at_index(buf, pos, be64(x), 1);
    lemma_sits_at_index(buf, pos, be64(x), 2);
    lemma_sits_at_index(buf, pos, be64(x), 3);
    lemma_sits_at_index(buf, pos, be64(x), 4);
    lemma_sits_at_index(buf, pos, be64(x), 5);
    lemma_sits_at_index(buf, pos, be64(x), 6);
    lemma_sits_at_index(buf, pos, be64(x), 7);
}

/// Where a marker and the bytes of a field stand, the field stands right
/// after the marker, and the marker is the first byte.
pub proof fn lemma_marked_at(buf: Seq<u8>, pos: int, m: u8, field: Seq<u8>)
    requires
        sits_at(buf, pos, seq![m] + field),
    ensures
        buf[pos] == m,
        sits_at(buf, pos + 1, field),
        (seq![m] + field).len() == 1 + field.len(),
{
    lemma_sits_at_split(buf, pos, seq![m], field);
    lemma_sits_at_index(buf, pos, seq![m], 0);
}

/// Where a string header stands, the decoder finds a string marker and reads
/// the length that the header was made for.
pub proof fn lemma_str_header_at(buf: Seq<u8>, pos: int, n: nat)
    requires
        n <= 0xffff_ffff,
        sits_at(buf, pos, str_header(n)),
    ensures
        marker_of(buf[pos]) == Marker::FixStr || marker_of(buf[pos]) == Marker::String,
        parse_str_len(buf[pos], buf, pos + 1) == Ok::<(nat, int), DecodeError>(
            (n, pos + str_header(n).len()),
        ),
{
    if n <= 31 {
        lemma_sits_at_index(buf, pos, str_header(n), 0);
    } else if n <= 0xff {
        lemma_sits_at_index(buf, pos, str_header(n), 0);
        lemma_sits_at_index(buf, pos, str_header(n), 1);
    } else if n <= 0xffff {
        lemma_marked_at(buf, pos, 0xda, be16(n as u16));
        lemma_be16_at(buf, pos + 1, n as u16);
    } else {
        lemma_marked_at(buf, pos, 0xdb, be32(n as u32));
        lemma_be32_at(buf, pos + 1, n as u32);
    }
}

/// Where a header of the three-tier scheme stands, the decoder finds one of
/// its three markers and reads the length that the header was made for.
pub proof fn lemma_sized_header_at(first: u8, buf: Seq<u8>, pos: int, n: nat)
    requires
        first <= 0xfd,
        n <= 0xffff_ffff,
        sits_at(buf, pos, sized_header(first, n)),
    ensures
        first <= buf[pos] <= first + 2,
        parse_sized_len(first, buf[pos], buf, pos + 1) == Ok::<(nat, int), DecodeError>(
            (n, pos + sized_header(first, n).len()),
        ),
{
    if n <= 0xff {
        lemma_sits_at_index(buf, pos, sized_header(first, n), 0);
        lemma_sits_at_index(buf, pos, sized_header(first, n), 1);
    } else if n <= 0xffff {
        lemma_marked_at(buf, pos, (first + 1) as u8, be16(n as u16));
        lemma_be16_at(buf, pos + 1, n as u16);
    } else {
        lemma_marked_at(buf, pos, (first + 2) as u8, be32(n as u32));
        lemma_be32_at(buf, pos + 1, n as u32);
    }
}

/// Where a container header stands, the decoder finds one of its markers and
/// reads the count that the header was made for.
pub proof fn lemma_count_header_at(fix: u8, wide: u8, buf: Seq<u8>, pos: int, n: nat)
    requires
        fix <= 0xf0,
        wide <= 0xfe,
        wide > fix + 15 || wide + 1 < fix,
        n <= 0xffff_ffff,
        sits_at(buf, pos, count_header(fix, wide, n)),
    ensures
        fix <= buf[pos] <= fix + 15 || wide <= buf[pos] <= wide + 1,
        parse_count(fix, wide, buf[pos], buf, pos + 1) == Ok::<(nat, int), DecodeError>(
            (n, pos + count_header(fix, wide, n).len()),
        ),
{
    if n <= 15 {
        lemma_sits_at_index(buf, pos, count_header(fix, wide, n), 0);
    } else if n <= 0xffff {
        lemma_marked_at(buf, pos, wide, be16(n as u16));
        lemma_be16_at(buf, pos + 1, n as u16);
    } else {
        lemma_marked_at(buf, pos, (wide + 1) as u8, be32(n as u32));
        lemma_be32_at(buf, pos + 1, n as u32);
    }
}

/// `buf` ends inside `bytes` that begin at `pos`: it holds some of them, or
/// none, but not all.
pub open spec fn cut_at(buf: Seq<u8>, pos: int, bytes: Seq<u8>) -> bool {
    &&& 0 <= pos <= buf.len()
    &&& buf.len() < pos + bytes.len()
    &&& buf.subrange(pos, buf.len() as int) == bytes.subrange(0, buf.len() - pos)
}

/// Where a buffer ends inside a run of bytes, the bytes that it holds are
/// found at their places.
pub proof fn lemma_cut_at_index(buf: Seq<u8>, pos: int, bytes: Seq<u8>, i: int)
    requires
        cut_at(buf, pos, bytes),
        0 <= i < buf.len() - pos,
    ensures
        buf[pos + i] == bytes[i],
{
    assert(buf.subrange(pos, buf.len() as int)[i] == buf[pos + i]);
    assert(bytes.subrange(0, buf.len() - pos)[i] == bytes[i]);
}

/// Where a buffer ends inside two runs of bytes that follow each other, it
/// ends inside the first, or holds the first and ends inside the second.
pub proof fn lemma_cut_at_split(buf: Seq<u8>, pos: int, a: Seq<u8>, b: Seq<u8>)
    requires
        cut_at(buf, pos, a + b),
    ensures
        buf.len() < pos + a.len() ==> cut_at(buf, pos, a),
        buf.len() >= pos + a.len() ==> sits_at(buf, pos, a) && cut_at(buf, pos + a.len(), b),
{
    let held = buf.len() - pos;
    let whole = a + b;
    if buf.len() < pos + a.len() {
        assert(whole.subrange(0, held) =~= a.subrange(0, held));
    } else {
        assert(buf.subrange(pos, pos + a.len()) =~= buf.subrange(pos, buf.len() as int).subrange(
            0,
            a.len() as int,
        ));
        assert(whole.subrange(0, held).subrange(0, a.len() as int) =~= a);
        assert(buf.subrange(pos + a.len(), buf.len() as int) =~= buf.subrange(
            pos,
            buf.len() as int,
        ).subrange(a.len() as int, held));
        assert(whole.subrange(0, held).subrange(a.len() as int, held) =~= b.subrange(
            0,
            held - a.len(),
        ));
    }
}

/// Where a buffer ends inside a string header but holds its marker, the
/// decoder finds a string marker and fails to read the length.
pub proof fn lemma_str_header_cut(buf: Seq<u8>, pos: int, n: nat)
    requires
        n <= 0xffff_ffff,
        cut_at(buf, pos, str_header(n)),
        pos < buf.len(),
    ensures
        marker_of(buf[pos]) == Marker::String,
        parse_str_len(buf[pos], buf, pos + 1) == Err::<(nat, int), DecodeError>(
            DecodeError::Truncated,
        ),
{
    lemma_cut_at_index(buf, pos, str_header(n), 0);
}

/// Where a buffer ends inside a header of the three-tier scheme but holds
/// its marker, the decoder fails to read the length.
pub proof fn lemma_sized_header_cut(first: u8, buf: Seq<u8>, pos: int, n: nat)
    requires
        first <= 0xfd,
        n <= 0xffff_ffff,
        cut_at(buf, pos, sized_header(first, n)),
        pos < buf.len(),
    ensures
        first <= buf[pos] <= first + 2,
        parse_sized_len(first, buf[pos], buf, pos + 1) == Err::<(nat, int), DecodeError>(
            DecodeError::Truncated,
        ),
{
    lemma_cut_at_index(buf, pos, sized_header(first, n), 0);
}

/// Where a buffer ends inside a container header but holds its marker, the
/// decoder fails to read the count.
pub proof fn lemma_count_header_cut(fix: u8, wide: u8, buf: Seq<u8>, pos: int, n: nat)
    requires
        fix <= 0xf0,
        wide <= 0xfe,
        wide > fix + 15 || wide + 1 < fix,
        n <= 0xffff_ffff,
        cut_at(buf, pos, count_header(fix, wide, n)),
        pos < buf.len(),
    ensures
        wide <= buf[pos] <= wide + 1,
        parse_count(fix, wide, buf[pos], buf, pos + 1) == Err::<(nat, int), DecodeError>(
            DecodeError::Truncated,
        ),
{
    lemma_cut_at_index(buf, pos, count_header(fix, wide, n), 0);
}

} // verus!
