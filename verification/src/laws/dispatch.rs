//! The marker table and the decoders that stand behind it: which errors
//! decoding can end in, which header goes with which length, and how the
//! smallest negative integers fold into their marker.

use vstd::prelude::*;
use crate::error::DecodeError;
use crate::grammar::{has_bytes, lemma_parse_value_advances, parse_array, parse_count,
    parse_items, parse_leaf, parse_map, parse_pairs, parse_value};
use crate::marker::{marker_of, Marker};
use crate::value::ValueView;
use crate::wire::{array_header, be16, be32, bin_header, ext_header, map_header, spec_encode,
    str_header};

verus! {

/// The errors that decoding a value can end in.
pub open spec fn value_error(e: DecodeError, limit: nat) -> bool {
    e == DecodeError::Truncated || e == DecodeError::InvalidUtf8 || (e == DecodeError::MapTooLarge
        && limit < 0xffff_ffff)
}

/// The decoder of each category takes every marker of its category: a value
/// without nested values fails only where the input ends too early or where
/// a string is not UTF-8.
pub proof fn lemma_leaf_errors(m: u8, buf: Seq<u8>, at: int)
    requires
        !(marker_of(m) == Marker::FixArray || marker_of(m) == Marker::Array || marker_of(m)
            == Marker::FixMap || marker_of(m) == Marker::Mapping),
    ensures
        parse_leaf(m, buf, at) matches Err(e) ==> e == DecodeError::Truncated || (e
            == DecodeError::InvalidUtf8 && (marker_of(m) == Marker::FixStr || marker_of(m)
            == Marker::String)),
{
}

/// The dispatcher and the decoders agree: every marker goes to a decoder that
/// takes it, so that decoding a value fails only where the input ends too
/// early, where a string is not UTF-8, or where a map is larger than a limit
/// that the caller has set. No byte makes it fail for being out of place.
pub proof fn lemma_decode_errors(buf: Seq<u8>, pos: int, limit: nat)
    ensures
        parse_value(buf, pos, limit) matches Err(e) ==> value_error(e, limit),
    decreases buf.len() - pos, 0int, 0int,
{
    if has_bytes(buf, pos, 1) {
        let m = buf[pos];
        match marker_of(m) {
            Marker::FixArray | Marker::Array => {
                lemma_array_errors(m, buf, pos + 1, limit);
            },
            Marker::FixMap | Marker::Mapping => {
                lemma_map_errors(m, buf, pos + 1, limit);
            },
            _ => {
                lemma_leaf_errors(m, buf, pos + 1);
            },
        }
    }
}

/// The errors of an array after one of its markers.
proof fn lemma_array_errors(m: u8, buf: Seq<u8>, pos: int, limit: nat)
    requires
        marker_of(m) == Marker::FixArray || marker_of(m) == Marker::Array,
        0 <= pos <= buf.len(),
    ensures
        parse_array(m, buf, pos, limit) matches Err(e) ==> value_error(e, limit),
    decreases buf.len() - pos, 2int, 0int,
{
    match parse_count(0x90, 0xdc, m, buf, pos) {
        Ok((n, p)) => {
            lemma_items_errors(buf, p, n, limit);
        },
        Err(_) => {},
    }
}

/// The errors of a map after one of its markers.
proof fn lemma_map_errors(m: u8, buf: Seq<u8>, pos: int, limit: nat)
    requires
        marker_of(m) == Marker::FixMap || marker_of(m) == Marker::Mapping,
        0 <= pos <= buf.len(),
    ensures
        parse_map(m, buf, pos, limit) matches Err(e) ==> value_error(e, limit),
    decreases buf.len() - pos, 2int, 0int,
{
    match parse_count(0x80, 0xde, m, buf, pos) {
        Ok((n, p)) => {
            if n <= limit {
                lemma_pairs_errors(buf, p, n, limit);
            }
        },
        Err(_) => {},
    }
}

/// The errors of a run of values.
proof fn lemma_items_errors(buf: Seq<u8>, pos: int, count: nat, limit: nat)
    requires
        0 <= pos <= buf.len(),
    ensures
        parse_items(buf, pos, count, limit) matches Err(e) ==> value_error(e, limit),
    decreases buf.len() - pos, 1int, count,
{
    if count > 0 {
        lemma_decode_errors(buf, pos, limit);
        lemma_parse_value_advances(buf, pos, limit);
        match parse_value(buf, pos, limit) {
            Ok((_, p)) => {
                lemma_items_errors(buf, p, (count - 1) as nat, limit);
            },
            Err(_) => {},
        }
    }
}

/// The errors of a run of pairs.
proof fn lemma_pairs_errors(buf: Seq<u8>, pos: int, count: nat, limit: nat)
    requires
        0 <= pos <= buf.len(),
    ensures
        parse_pairs(buf, pos, count, limit) matches Err(e) ==> value_error(e, limit),
    decreases buf.len() - pos, 1int, count,
{
    if count > 0 {
        lemma_decode_errors(buf, pos, limit);
        lemma_parse_value_advances(buf, pos, limit);
        match parse_value(buf, pos, limit) {
            Ok((_, p)) => {
                lemma_decode_errors(buf, p, limit);
                lemma_parse_value_advances(buf, p, limit);
                match parse_value(buf, p, limit) {
                    Ok((_, q)) => {
                        lemma_pairs_errors(buf, q, (count - 1) as nat, limit);
                    },
                    Err(_) => {},
                }
            },
            Err(_) => {},
        }
    }
}

/// The first byte of a header is the tier of the length: up to 31 bytes (15
/// elements) the short form, whose marker holds the length; then the forms
/// with a length field of one byte (strings, blobs and extensions only), of
/// two bytes up to 65535, and of four bytes beyond. The classifier puts each
/// of these first bytes in the category of its type.
pub proof fn lemma_header_tiers(n: nat)
    requires
        n <= 0xffff_ffff,
    ensures
        n <= 31 ==> str_header(n) == seq![(0xa0 + n) as u8],
        32 <= n <= 0xff ==> str_header(n) == seq![0xd9u8, n as u8],
        0x100 <= n <= 0xffff ==> str_header(n) == seq![0xdau8] + be16(n as u16),
        0x1_0000 <= n ==> str_header(n) == seq![0xdbu8] + be32(n as u32),
        marker_of(str_header(n)[0]) == (if n <= 31 {
            Marker::FixStr
        } else {
            Marker::String
        }),
        n <= 0xff ==> bin_header(n) == seq![0xc4u8, n as u8],
        0x100 <= n <= 0xffff ==> bin_header(n) == seq![0xc5u8] + be16(n as u16),
        0x1_0000 <= n ==> bin_header(n) == seq![0xc6u8] + be32(n as u32),
        marker_of(bin_header(n)[0]) == Marker::Binary,
        n <= 0xff ==> ext_header(n) == seq![0xc7u8, n as u8],
        0x100 <= n <= 0xffff ==> ext_header(n) == seq![0xc8u8] + be16(n as u16),
        0x1_0000 <= n ==> ext_header(n) == seq![0xc9u8] + be32(n as u32),
        marker_of(ext_header(n)[0]) == Marker::Extension,
        n <= 15 ==> array_header(n) == seq![(0x90 + n) as u8],
        16 <= n <= 0xffff ==> array_header(n) == seq![0xdcu8] + be16(n as u16),
        0x1_0000 <= n ==> array_header(n) == seq![0xddu8] + be32(n as u32),
        marker_of(array_header(n)[0]) == (if n <= 15 {
            Marker::FixArray
        } else {
            Marker::Array
        }),
        n <= 15 ==> map_header(n) == seq![(0x80 + n) as u8],
        16 <= n <= 0xffff ==> map_header(n) == seq![0xdeu8] + be16(n as u16),
        0x1_0000 <= n ==> map_header(n) == seq![0xdfu8] + be32(n as u32),
        marker_of(map_header(n)[0]) == (if n <= 15 {
            Marker::FixMap
        } else {
            Marker::Mapping
        }),
{
}

/// The integers from -32 to -1 are written as the one byte with the same
/// bits, 0xe0 for -32 up to 0xff for -1, and each byte from 0xe0 on is read
/// as the 8-bit two's-complement number with its bits.
pub proof fn lemma_negative_fixint(x: i8, rest: Seq<u8>, limit: nat)
    requires
        -32 <= x <= -1,
    ensures
        spec_encode(ValueView::I8(x)) == seq![(x + 0x100) as u8],
        0xe0 <= x + 0x100 <= 0xff,
        parse_value(seq![(x + 0x100) as u8] + rest, 0, limit) == Ok::<
            (ValueView, int),
            DecodeError,
        >((ValueView::I8(x), 1)),
{
    let buf = seq![(x + 0x100) as u8] + rest;
    assert(buf[0] == (x + 0x100) as u8);
}

} // verus!
