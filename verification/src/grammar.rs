//! The grammar of the wire format as mathematics: what a decoder reads at a
//! position of a buffer, and where it stops.

use vstd::prelude::*;
use vstd::utf8::{decode_utf8, valid_utf8};
use crate::error::DecodeError;
use crate::marker::{marker_of, Marker};
use crate::value::{ExtensionView, Float32, Float64, ValueView};
use crate::wire::{from_be16, from_be32, from_be64, signed16, signed32, signed64, signed8};

verus! {

/// What was read, and the position after it; or why nothing could be read.
pub type Parsed<T> = Result<(T, int), DecodeError>;

/// `n` bytes lie in `buf` from `pos` on.
pub open spec fn has_bytes(buf: Seq<u8>, pos: int, n: int) -> bool {
    0 <= pos && 0 <= n && pos + n <= buf.len()
}

/// One byte.
pub open spec fn parse_byte(buf: Seq<u8>, pos: int) -> Parsed<u8> {
    if has_bytes(buf, pos, 1) {
        Ok((buf[pos], pos + 1))
    } else {
        Err(DecodeError::Truncated)
    }
}

/// Two bytes, most significant first.
pub open spec fn parse_be16(buf: Seq<u8>, pos: int) -> Parsed<u16> {
    if has_bytes(buf, pos, 2) {
        Ok((from_be16(buf[pos], buf[pos + 1]), pos + 2))
    } else {
        Err(DecodeError::Truncated)
    }
}

/// Four bytes, most significant first.
pub open spec fn parse_be32(buf: Seq<u8>, pos: int) -> Parsed<u32> {
    if has_bytes(buf, pos, 4) {
        Ok((from_be32(buf[pos], buf[pos + 1], buf[pos + 2], buf[pos + 3]), pos + 4))
    } else {
        Err(DecodeError::Truncated)
    }
}

/// Eight bytes, most significant first.
pub open spec fn parse_be64(buf: Seq<u8>, pos: int) -> Parsed<u64> {
    if has_bytes(buf, pos, 8) {
        Ok(
            (
                from_be64(
                    from_be32(buf[pos], buf[pos + 1], buf[pos + 2], buf[pos + 3]),
                    from_be32(buf[pos + 4], buf[pos + 5], buf[pos + 6], buf[pos + 7]),
                ),
                pos + 8,
            ),
        )
    } else {
        Err(DecodeError::Truncated)
    }
}

/// `n` bytes as they stand.
pub open spec fn parse_bytes(buf: Seq<u8>, pos: int, n: nat) -> Parsed<Seq<u8>> {
    if has_bytes(buf, pos, n as int) {
        Ok((buf.subrange(pos, pos + n), pos + n))
    } else {
        Err(DecodeError::Truncated)
    }
}

/// An unsigned 8-bit integer after marker `m`: the marker itself up to 0x7f,
/// one byte after 0xcc.
pub open spec fn parse_u8(m: u8, buf: Seq<u8>, pos: int) -> Parsed<u8> {
    if m <= 0x7f {
        Ok((m, pos))
    } else if m == 0xcc {
        parse_byte(buf, pos)
    } else {
        Err(DecodeError::UnexpectedMarker)
    }
}

/// An unsigned 16-bit integer after marker `m`.
pub open spec fn parse_u16(m: u8, buf: Seq<u8>, pos: int) -> Parsed<u16> {
    if m == 0xcd {
        parse_be16(buf, pos)
    } else {
        Err(DecodeError::UnexpectedMarker)
    }
}

/// An unsigned 32-bit integer after marker `m`.
pub open spec fn parse_u32(m: u8, buf: Seq<u8>, pos: int) -> Parsed<u32> {
    if m == 0xce {
        parse_be32(buf, pos)
    } else {
        Err(DecodeError::UnexpectedMarker)
    }
}

/// An unsigned 64-bit integer after marker `m`.
pub open spec fn parse_u64(m: u8, buf: Seq<u8>, pos: int) -> Parsed<u64> {
    if m == 0xcf {
        parse_be64(buf, pos)
    } else {
        Err(DecodeError::UnexpectedMarker)
    }
}

/// A signed 8-bit integer after marker `m`: from 0xe0 on the marker itself,
/// read as two's complement; one byte after 0xd0.
pub open spec fn parse_i8(m: u8, buf: Seq<u8>, pos: int) -> Parsed<i8> {
    if m >= 0xe0 {
        Ok((signed8(m), pos))
    } else if m == 0xd0 {
        match parse_byte(buf, pos) {
            Ok((b, p)) => Ok((signed8(b), p)),
            Err(e) => Err(e),
        }
    } else {
        Err(DecodeError::UnexpectedMarker)
    }
}

/// A signed 16-bit integer after marker `m`.
pub open spec fn parse_i16(m: u8, buf: Seq<u8>, pos: int) -> Parsed<i16> {
    if m == 0xd1 {
        match parse_be16(buf, pos) {
            Ok((u, p)) => Ok((signed16(u), p)),
            Err(e) => Err(e),
        }
    } else {
        Err(DecodeError::UnexpectedMarker)
    }
}

/// A signed 32-bit integer after marker `m`.
pub open spec fn parse_i32(m: u8, buf: Seq<u8>, pos: int) -> Parsed<i32> {
    if m == 0xd2 {
        match parse_be32(buf, pos) {
            Ok((u, p)) => Ok((signed32(u), p)),
            Err(e) => Err(e),
        }
    } else {
        Err(DecodeError::UnexpectedMarker)
    }
}

/// A signed 64-bit integer after marker `m`.
pub open spec fn parse_i64(m: u8, buf: Seq<u8>, pos: int) -> Parsed<i64> {
    if m == 0xd3 {
        match parse_be64(buf, pos) {
            Ok((u, p)) => Ok((signed64(u), p)),
            Err(e) => Err(e),
        }
    } else {
        Err(DecodeError::UnexpectedMarker)
    }
}

/// The bits of a single-precision number after marker `m`.
pub open spec fn parse_float32(m: u8, buf: Seq<u8>, pos: int) -> Parsed<Float32> {
    if m == 0xca {
        match parse_be32(buf, pos) {
            Ok((u, p)) => Ok((Float32 { bits: u }, p)),
            Err(e) => Err(e),
        }
    } else {
        Err(DecodeError::UnexpectedMarker)
    }
}

/// The bits of a double-precision number after marker `m`.
pub open spec fn parse_float64(m: u8, buf: Seq<u8>, pos: int) -> Parsed<Float64> {
    if m == 0xcb {
        match parse_be64(buf, pos) {
            Ok((u, p)) => Ok((Float64 { bits: u }, p)),
            Err(e) => Err(e),
        }
    } else {
        Err(DecodeError::UnexpectedMarker)
    }
}

/// A boolean is its marker.
pub open spec fn parse_bool(m: u8, pos: int) -> Parsed<bool> {
    if m == 0xc3 {
        Ok((true, pos))
    } else if m == 0xc2 {
        Ok((false, pos))
    } else {
        Err(DecodeError::UnexpectedMarker)
    }
}

/// The discriminant of an optional value: 0xc0 for none, 0xc1 for some.
pub open spec fn parse_option(m: u8, pos: int) -> Parsed<Option<()>> {
    if m == 0xc0 {
        Ok((None, pos))
    } else if m == 0xc1 {
        Ok((Some(()), pos))
    } else {
        Err(DecodeError::UnexpectedMarker)
    }
}

/// The payload length of a form of the three-tier scheme: one length byte
/// after `first`, two after `first + 1`, four after `first + 2`.
pub open spec fn parse_sized_len(first: u8, m: u8, buf: Seq<u8>, pos: int) -> Parsed<nat> {
    if m == first {
        match parse_byte(buf, pos) {
            Ok((n, p)) => Ok((n as nat, p)),
            Err(e) => Err(e),
        }
    } else if m == first + 1 {
        match parse_be16(buf, pos) {
            Ok((n, p)) => Ok((n as nat, p)),
            Err(e) => Err(e),
        }
    } else if m == first + 2 {
        match parse_be32(buf, pos) {
            Ok((n, p)) => Ok((n as nat, p)),
            Err(e) => Err(e),
        }
    } else {
        Err(DecodeError::UnexpectedMarker)
    }
}

/// The payload length of a string after marker `m`: in the marker from 0xa0
/// to 0xbf, else in the length field of str8, str16 or str32.
pub open spec fn parse_str_len(m: u8, buf: Seq<u8>, pos: int) -> Parsed<nat> {
    if 0xa0 <= m <= 0xbf {
        Ok(((m - 0xa0) as nat, pos))
    } else {
        parse_sized_len(0xd9, m, buf, pos)
    }
}

/// A string after marker `m`: the length, then that many bytes, which must
/// be valid UTF-8.
pub open spec fn parse_str(m: u8, buf: Seq<u8>, pos: int) -> Parsed<Seq<char>> {
    match parse_str_len(m, buf, pos) {
        Ok((n, p)) => match parse_bytes(buf, p, n) {
            Ok((bytes, q)) => if valid_utf8(bytes) {
                Ok((decode_utf8(bytes), q))
            } else {
                Err(DecodeError::InvalidUtf8)
            },
            Err(e) => Err(e),
        },
        Err(e) => Err(e),
    }
}

/// A binary blob after marker `m`: the length, then that many bytes.
pub open spec fn parse_bin(m: u8, buf: Seq<u8>, pos: int) -> Parsed<Seq<u8>> {
    match parse_sized_len(0xc4, m, buf, pos) {
        Ok((n, p)) => parse_bytes(buf, p, n),
        Err(e) => Err(e),
    }
}

/// The payload length of an extension after marker `m`: fixed by the marker
/// from 0xd4 to 0xd8, else in the length field of ext8, ext16 or ext32.
pub open spec fn parse_ext_len(m: u8, buf: Seq<u8>, pos: int) -> Parsed<nat> {
    if m == 0xd4 {
        Ok((1, pos))
    } else if m == 0xd5 {
        Ok((2, pos))
    } else if m == 0xd6 {
        Ok((4, pos))
    } else if m == 0xd7 {
        Ok((8, pos))
    } else if m == 0xd8 {
        Ok((16, pos))
    } else {
        parse_sized_len(0xc7, m, buf, pos)
    }
}

/// An extension after marker `m`: the length, the tag, the payload.
pub open spec fn parse_ext(m: u8, buf: Seq<u8>, pos: int) -> Parsed<ExtensionView> {
    match parse_ext_len(m, buf, pos) {
        Ok((n, p)) => match parse_byte(buf, p) {
            Ok((tag, q)) => match parse_bytes(buf, q, n) {
                Ok((data, r)) => Ok((ExtensionView { type_: tag, data: data }, r)),
                Err(e) => Err(e),
            },
            Err(e) => Err(e),
        },
        Err(e) => Err(e),
    }
}

/// The element count of a container after marker `m`: in the marker for the
/// sixteen bytes from `fix` on, two bytes after `wide`, four after `wide + 1`.
pub open spec fn parse_count(fix: u8, wide: u8, m: u8, buf: Seq<u8>, pos: int) -> Parsed<nat> {
    if fix <= m <= fix + 15 {
        Ok(((m - fix) as nat, pos))
    } else if m == wide {
        match parse_be16(buf, pos) {
            Ok((n, p)) => Ok((n as nat, p)),
            Err(e) => Err(e),
        }
    } else if m == wide + 1 {
        match parse_be32(buf, pos) {
            Ok((n, p)) => Ok((n as nat, p)),
            Err(e) => Err(e),
        }
    } else {
        Err(DecodeError::UnexpectedMarker)
    }
}

/// A value without nested values after marker `m`: the marker's category
/// says which decoder reads it. The unused byte 0xc1 reads as nil. The
/// markers of arrays and maps do not belong here.
pub open spec fn parse_leaf(m: u8, buf: Seq<u8>, at: int) -> Parsed<ValueView> {
    match marker_of(m) {
        Marker::Nil | Marker::Unknown => Ok((ValueView::Nil, at)),
        Marker::Boolean => match parse_bool(m, at) {
            Ok((b, p)) => Ok((ValueView::Bool(b), p)),
            Err(e) => Err(e),
        },
        Marker::PosFixInt | Marker::UInt8 => match parse_u8(m, buf, at) {
            Ok((x, p)) => Ok((ValueView::U8(x), p)),
            Err(e) => Err(e),
        },
        Marker::UInt16 => match parse_u16(m, buf, at) {
            Ok((x, p)) => Ok((ValueView::U16(x), p)),
            Err(e) => Err(e),
        },
        Marker::UInt32 => match parse_u32(m, buf, at) {
            Ok((x, p)) => Ok((ValueView::U32(x), p)),
            Err(e) => Err(e),
        },
        Marker::UInt64 => match parse_u64(m, buf, at) {
            Ok((x, p)) => Ok((ValueView::U64(x), p)),
            Err(e) => Err(e),
        },
        Marker::NegFixInt | Marker::Int8 => match parse_i8(m, buf, at) {
            Ok((x, p)) => Ok((ValueView::I8(x), p)),
            Err(e) => Err(e),
        },
        Marker::Int16 => match parse_i16(m, buf, at) {
            Ok((x, p)) => Ok((ValueView::I16(x), p)),
            Err(e) => Err(e),
        },
        Marker::Int32 => match parse_i32(m, buf, at) {
            Ok((x, p)) => Ok((ValueView::I32(x), p)),
            Err(e) => Err(e),
        },
        Marker::Int64 => match parse_i64(m, buf, at) {
            Ok((x, p)) => Ok((ValueView::I64(x), p)),
            Err(e) => Err(e),
        },
        Marker::Float32 => match parse_float32(m, buf, at) {
            Ok((x, p)) => Ok((ValueView::F32(x), p)),
            Err(e) => Err(e),
        },
        Marker::Float64 => match parse_float64(m, buf, at) {
            Ok((x, p)) => Ok((ValueView::F64(x), p)),
            Err(e) => Err(e),
        },
        Marker::FixStr | Marker::String => match parse_str(m, buf, at) {
            Ok((s, p)) => Ok((ValueView::Str(s), p)),
            Err(e) => Err(e),
        },
        Marker::Binary => match parse_bin(m, buf, at) {
            Ok((b, p)) => Ok((ValueView::Bin(b), p)),
            Err(e) => Err(e),
        },
        Marker::Extension => match parse_ext(m, buf, at) {
            Ok((x, p)) => Ok((ValueView::Extension(x), p)),
            Err(e) => Err(e),
        },
        Marker::FixArray | Marker::Array | Marker::FixMap | Marker::Mapping => Err(
            DecodeError::UnexpectedMarker,
        ),
    }
}

/// Any value at `pos`: the marker says which form follows, an array, a map,
/// or a value without nested values. A map of more than `limit` pairs is
/// refused.
pub open spec fn parse_value(buf: Seq<u8>, pos: int, limit: nat) -> Parsed<ValueView>
    decreases buf.len() - pos, 0int, 0int,
{
    if !has_bytes(buf, pos, 1) {
        Err(DecodeError::Truncated)
    } else {
        let m = buf[pos];
        let at = pos + 1;
        match marker_of(m) {
            Marker::FixArray | Marker::Array => match parse_array(m, buf, at, limit) {
                Ok((items, p)) => Ok((ValueView::Array(items), p)),
                Err(e) => Err(e),
            },
            Marker::FixMap | Marker::Mapping => match parse_map(m, buf, at, limit) {
                Ok((pairs, p)) => Ok((ValueView::Mapping(pairs), p)),
                Err(e) => Err(e),
            },
            _ => parse_leaf(m, buf, at),
        }
    }
}

/// An array after marker `m`: the count, then that many values.
pub open spec fn parse_array(m: u8, buf: Seq<u8>, pos: int, limit: nat) -> Parsed<Seq<ValueView>>
    decreases buf.len() - pos, 2int, 0int,
{
    match parse_count(0x90, 0xdc, m, buf, pos) {
        Ok((n, p)) => parse_items(buf, p, n, limit),
        Err(e) => Err(e),
    }
}

/// A map after marker `m`: the count, which `limit` bounds, then that many
/// pairs.
pub open spec fn parse_map(m: u8, buf: Seq<u8>, pos: int, limit: nat) -> Parsed<
    Seq<(ValueView, ValueView)>,
>
    decreases buf.len() - pos, 2int, 0int,
{
    match parse_count(0x80, 0xde, m, buf, pos) {
        Ok((n, p)) => if n > limit {
            Err(DecodeError::MapTooLarge)
        } else {
            parse_pairs(buf, p, n, limit)
        },
        Err(e) => Err(e),
    }
}

/// `count` values, one after the other. Every value takes up at least its
/// marker, so the position test below never fails (`lemma_parse_value_advances`);
/// it stands here to make the recursion well-founded.
pub open spec fn parse_items(buf: Seq<u8>, pos: int, count: nat, limit: nat) -> Parsed<
    Seq<ValueView>,
>
    decreases buf.len() - pos, 1int, count,
{
    if count == 0 {
        Ok((Seq::empty(), pos))
    } else {
        match parse_value(buf, pos, limit) {
            Ok((v, p)) => if pos < p <= buf.len() {
                match parse_items(buf, p, (count - 1) as nat, limit) {
                    Ok((rest, q)) => Ok((seq![v] + rest, q)),
                    Err(e) => Err(e),
                }
            } else {
                Err(DecodeError::Truncated)
            },
            Err(e) => Err(e),
        }
    }
}

/// `count` pairs, one after the other: key, value, key, value. The position
/// tests never fail, as in `parse_items`.
pub open spec fn parse_pairs(buf: Seq<u8>, pos: int, count: nat, limit: nat) -> Parsed<
    Seq<(ValueView, ValueView)>,
>
    decreases buf.len() - pos, 1int, count,
{
    if count == 0 {
        Ok((Seq::empty(), pos))
    } else {
        match parse_value(buf, pos, limit) {
            Ok((k, p)) => if pos < p <= buf.len() {
                match parse_value(buf, p, limit) {
                    Ok((v, q)) => if p < q <= buf.len() {
                        match parse_pairs(buf, q, (count - 1) as nat, limit) {
                            Ok((rest, r)) => Ok((seq![(k, v)] + rest, r)),
                            Err(e) => Err(e),
                        }
                    } else {
                        Err(DecodeError::Truncated)
                    },
                    Err(e) => Err(e),
                }
            } else {
                Err(DecodeError::Truncated)
            },
            Err(e) => Err(e),
        }
    }
}

/// A value without nested values ends inside the buffer, at or after the
/// place where it begins.
pub proof fn lemma_leaf_advances(m: u8, buf: Seq<u8>, at: int)
    requires
        0 <= at <= buf.len(),
    ensures
        parse_leaf(m, buf, at) matches Ok((_, p)) ==> at <= p <= buf.len(),
{
}

/// A value takes up at least its marker and never more than the buffer holds.
pub proof fn lemma_parse_value_advances(buf: Seq<u8>, pos: int, limit: nat)
    ensures
        parse_value(buf, pos, limit) matches Ok((_, p)) ==> pos < p <= buf.len(),
    decreases buf.len() - pos, 0int, 0int,
{
    if has_bytes(buf, pos, 1) {
        let m = buf[pos];
        match marker_of(m) {
            Marker::FixArray | Marker::Array => {
                lemma_parse_array_advances(m, buf, pos + 1, limit);
            },
            Marker::FixMap | Marker::Mapping => {
                lemma_parse_map_advances(m, buf, pos + 1, limit);
            },
            _ => {
                lemma_leaf_advances(m, buf, pos + 1);
            },
        }
    }
}

/// An array ends inside the buffer, at or after the place where its count
/// begins, and holds as many values as the count says.
pub proof fn lemma_parse_array_advances(m: u8, buf: Seq<u8>, pos: int, limit: nat)
    requires
        0 <= pos <= buf.len(),
    ensures
        parse_array(m, buf, pos, limit) matches Ok((_, p)) ==> pos <= p <= buf.len(),
    decreases buf.len() - pos, 2int, 0int,
{
    match parse_count(0x90, 0xdc, m, buf, pos) {
        Ok((n, p)) => {
            lemma_parse_items_advances(buf, p, n, limit);
        },
        Err(_) => {},
    }
}

/// A map ends inside the buffer, at or after the place where its count begins.
pub proof fn lemma_parse_map_advances(m: u8, buf: Seq<u8>, pos: int, limit: nat)
    requires
        0 <= pos <= buf.len(),
    ensures
        parse_map(m, buf, pos, limit) matches Ok((_, p)) ==> pos <= p <= buf.len(),
    decreases buf.len() - pos, 2int, 0int,
{
    match parse_count(0x80, 0xde, m, buf, pos) {
        Ok((n, p)) => {
            if n <= limit {
                lemma_parse_pairs_advances(buf, p, n, limit);
            }
        },
        Err(_) => {},
    }
}

/// `count` values end inside the buffer, and there are `count` of them.
pub proof fn lemma_parse_items_advances(buf: Seq<u8>, pos: int, count: nat, limit: nat)
    requires
        0 <= pos <= buf.len(),
    ensures
        parse_items(buf, pos, count, limit) matches Ok((items, p)) ==> pos <= p <= buf.len()
            && items.len() == count,
    decreases buf.len() - pos, 1int, count,
{
    if count > 0 {
        lemma_parse_value_advances(buf, pos, limit);
        match parse_value(buf, pos, limit) {
            Ok((_, p)) => {
                lemma_parse_items_advances(buf, p, (count - 1) as nat, limit);
            },
            Err(_) => {},
        }
    }
}

/// `count` pairs end inside the buffer, and there are `count` of them.
pub proof fn lemma_parse_pairs_advances(buf: Seq<u8>, pos: int, count: nat, limit: nat)
    requires
        0 <= pos <= buf.len(),
    ensures
        parse_pairs(buf, pos, count, limit) matches Ok((pairs, p)) ==> pos <= p <= buf.len()
            && pairs.len() == count,
    decreases buf.len() - pos, 1int, count,
{
    if count > 0 {
        lemma_parse_value_advances(buf, pos, limit);
        match parse_value(buf, pos, limit) {
            Ok((_, p)) => {
                lemma_parse_value_advances(buf, p, limit);
                match parse_value(buf, p, limit) {
                    Ok((_, q)) => {
                        lemma_parse_pairs_advances(buf, q, (count - 1) as nat, limit);
                    },
                    Err(_) => {},
                }
            },
            Err(_) => {},
        }
    }
}

} // verus!
