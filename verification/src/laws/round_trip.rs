//! Round trip: what the encoder writes, the decoder reads back.

use vstd::prelude::*;
use vstd::utf8::{encode_utf8, encode_utf8_decode_utf8, encode_utf8_valid_utf8};
use crate::error::DecodeError;
use crate::grammar::{lemma_parse_value_advances, parse_array, parse_bin, parse_bytes, parse_ext,
    parse_items, parse_map, parse_pairs, parse_str, parse_value, Parsed};
use crate::laws::placement::{lemma_be16_at, lemma_be32_at, lemma_be64_at, lemma_count_header_at,
    lemma_marked_at, lemma_sits_at_index, lemma_sits_at_split, lemma_sized_header_at,
    lemma_str_header_at, sits_at};
use crate::value::{ExtensionView, ValueView};
use crate::wire::{array_header, be16, be32, be64, bin_header, encode_error, ext_header,
    first_error, first_pair_error, lemma_signed_round_trip, map_header, spec_encode,
    spec_encode_all, spec_encode_pairs, str_header, unsigned16, unsigned32, unsigned64};

verus! {

/// No map in the tree of `v` has more than `limit` pairs.
pub open spec fn maps_within(v: ValueView, limit: nat) -> bool
    decreases v,
{
    match v {
        ValueView::Array(items) => forall|i: int|
            0 <= i < items.len() ==> maps_within(#[trigger] items[i], limit),
        ValueView::Mapping(pairs) => pairs.len() <= limit && forall|i: int|
            0 <= i < pairs.len() ==> maps_within((#[trigger] pairs[i]).0, limit) && maps_within(
                pairs[i].1,
                limit,
            ),
        _ => true,
    }
}

/// What the decoder is to find where the bytes of `v` stand at `pos`.
pub open spec fn read_back(v: ValueView, pos: int) -> Parsed<ValueView> {
    Ok((v, pos + spec_encode(v).len()))
}

/// Round trip for nil, booleans and the 8-bit integers.
proof fn lemma_round_trip_small(v: ValueView, buf: Seq<u8>, pos: int, limit: nat)
    requires
        v is Nil || v is Bool || v is U8 || v is I8,
        sits_at(buf, pos, spec_encode(v)),
    ensures
        parse_value(buf, pos, limit) == read_back(v, pos),
{
    lemma_sits_at_index(buf, pos, spec_encode(v), 0);
    match v {
        ValueView::U8(x) => {
            if x > 0x7f {
                lemma_sits_at_index(buf, pos, spec_encode(v), 1);
            }
        },
        ValueView::I8(x) => {
            lemma_signed_round_trip(x, 0, 0, 0);
            if !(-32 <= x <= -1) {
                lemma_sits_at_index(buf, pos, spec_encode(v), 1);
            }
        },
        _ => {},
    }
}

/// Round trip for the 16-bit and 32-bit numbers.
proof fn lemma_round_trip_medium(v: ValueView, buf: Seq<u8>, pos: int, limit: nat)
    requires
        v is U16 || v is U32 || v is I16 || v is I32 || v is F32,
        sits_at(buf, pos, spec_encode(v)),
    ensures
        parse_value(buf, pos, limit) == read_back(v, pos),
{
    match v {
        ValueView::U16(x) => {
            lemma_marked_at(buf, pos, 0xcd, be16(x));
            lemma_be16_at(buf, pos + 1, x);
        },
        ValueView::U32(x) => {
            lemma_marked_at(buf, pos, 0xce, be32(x));
            lemma_be32_at(buf, pos + 1, x);
        },
        ValueView::I16(x) => {
            lemma_signed_round_trip(0, x, 0, 0);
            lemma_marked_at(buf, pos, 0xd1, be16(unsigned16(x)));
            lemma_be16_at(buf, pos + 1, unsigned16(x));
        },
        ValueView::I32(x) => {
            lemma_signed_round_trip(0, 0, x, 0);
            lemma_marked_at(buf, pos, 0xd2, be32(unsigned32(x)));
            lemma_be32_at(buf, pos + 1, unsigned32(x));
        },
        ValueView::F32(x) => {
            lemma_marked_at(buf, pos, 0xca, be32(x.bits));
            lemma_be32_at(buf, pos + 1, x.bits);
        },
        _ => {},
    }
}

/// Round trip for the 64-bit numbers.
proof fn lemma_round_trip_wide(v: ValueView, buf: Seq<u8>, pos: int, limit: nat)
    requires
        v is U64 || v is I64 || v is F64,
        sits_at(buf, pos, spec_encode(v)),
    ensures
        parse_value(buf, pos, limit) == read_back(v, pos),
{
    match v {
        ValueView::U64(x) => {
            lemma_marked_at(buf, pos, 0xcf, be64(x));
            lemma_be64_at(buf, pos + 1, x);
        },
        ValueView::I64(x) => {
            lemma_signed_round_trip(0, 0, 0, x);
            lemma_marked_at(buf, pos, 0xd3, be64(unsigned64(x)));
            lemma_be64_at(buf, pos + 1, unsigned64(x));
        },
        ValueView::F64(x) => {
            lemma_marked_at(buf, pos, 0xcb, be64(x.bits));
            lemma_be64_at(buf, pos + 1, x.bits);
        },
        _ => {},
    }
}

/// Round trip for strings.
proof fn lemma_round_trip_str(v: ValueView, buf: Seq<u8>, pos: int, limit: nat)
    requires
        v is Str,
        encode_error(v) is None,
        sits_at(buf, pos, spec_encode(v)),
    ensures
        parse_value(buf, pos, limit) == read_back(v, pos),
{
    let text = v->Str_0;
    let payload = encode_utf8(text);
    let header = str_header(payload.len());
    lemma_sits_at_split(buf, pos, header, payload);
    lemma_str_header_at(buf, pos, payload.len());
    encode_utf8_valid_utf8(text);
    encode_utf8_decode_utf8(text);
    let at = pos + header.len();
    assert(parse_bytes(buf, at, payload.len()) == Ok::<(Seq<u8>, int), DecodeError>(
        (payload, at + payload.len()),
    ));
    assert(parse_str(buf[pos], buf, pos + 1) == Ok::<(Seq<char>, int), DecodeError>(
        (text, at + payload.len()),
    ));
}

/// Round trip for binary blobs.
proof fn lemma_round_trip_bin(v: ValueView, buf: Seq<u8>, pos: int, limit: nat)
    requires
        v is Bin,
        encode_error(v) is None,
        sits_at(buf, pos, spec_encode(v)),
    ensures
        parse_value(buf, pos, limit) == read_back(v, pos),
{
    let payload = v->Bin_0;
    let header = bin_header(payload.len());
    lemma_sits_at_split(buf, pos, header, payload);
    lemma_sized_header_at(0xc4, buf, pos, payload.len());
    let at = pos + header.len();
    assert(parse_bytes(buf, at, payload.len()) == Ok::<(Seq<u8>, int), DecodeError>(
        (payload, at + payload.len()),
    ));
    assert(parse_bin(buf[pos], buf, pos + 1) == Ok::<(Seq<u8>, int), DecodeError>(
        (payload, at + payload.len()),
    ));
}

/// Round trip for extensions.
proof fn lemma_round_trip_ext(v: ValueView, buf: Seq<u8>, pos: int, limit: nat)
    requires
        v is Extension,
        encode_error(v) is None,
        sits_at(buf, pos, spec_encode(v)),
    ensures
        parse_value(buf, pos, limit) == read_back(v, pos),
{
    let e = v->Extension_0;
    let header = ext_header(e.data.len());
    assert(spec_encode(v) =~= header + (seq![e.type_] + e.data));
    lemma_sits_at_split(buf, pos, header, seq![e.type_] + e.data);
    lemma_sized_header_at(0xc7, buf, pos, e.data.len());
    let at = pos + header.len();
    lemma_marked_at(buf, at, e.type_, e.data);
    assert(parse_bytes(buf, at + 1, e.data.len()) == Ok::<(Seq<u8>, int), DecodeError>(
        (e.data, at + 1 + e.data.len()),
    ));
    assert(parse_ext(buf[pos], buf, pos + 1) == Ok::<(ExtensionView, int), DecodeError>(
        (e, at + 1 + e.data.len()),
    ));
}

/// Round trip: wherever the bytes of a value stand in a buffer, the decoder
/// reads that value there and stops right after its last byte. This holds of
/// every value that the encoder accepts and whose maps the reader's limit
/// admits.
pub proof fn lemma_round_trip(v: ValueView, buf: Seq<u8>, pos: int, limit: nat)
    requires
        encode_error(v) is None,
        maps_within(v, limit),
        sits_at(buf, pos, spec_encode(v)),
    ensures
        parse_value(buf, pos, limit) == read_back(v, pos),
    decreases v,
{
    match v {
        ValueView::Nil | ValueView::Bool(_) | ValueView::U8(_) | ValueView::I8(_) => {
            lemma_round_trip_small(v, buf, pos, limit);
        },
        ValueView::U16(_) | ValueView::U32(_) | ValueView::I16(_) | ValueView::I32(_)
        | ValueView::F32(_) => {
            lemma_round_trip_medium(v, buf, pos, limit);
        },
        ValueView::U64(_) | ValueView::I64(_) | ValueView::F64(_) => {
            lemma_round_trip_wide(v, buf, pos, limit);
        },
        ValueView::Str(_) => {
            lemma_round_trip_str(v, buf, pos, limit);
        },
        ValueView::Bin(_) => {
            lemma_round_trip_bin(v, buf, pos, limit);
        },
        ValueView::Extension(_) => {
            lemma_round_trip_ext(v, buf, pos, limit);
        },
        ValueView::Array(items) => {
            let header = array_header(items.len());
            let body = spec_encode_all(items);
            lemma_sits_at_split(buf, pos, header, body);
            lemma_count_header_at(0x90, 0xdc, buf, pos, items.len());
            let at = pos + header.len();
            lemma_round_trip_items(items, buf, at, limit);
            assert(parse_array(buf[pos], buf, pos + 1, limit) == Ok::<
                (Seq<ValueView>, int),
                DecodeError,
            >((items, at + body.len())));
        },
        ValueView::Mapping(pairs) => {
            let header = map_header(pairs.len());
            let body = spec_encode_pairs(pairs);
            lemma_sits_at_split(buf, pos, header, body);
            lemma_count_header_at(0x80, 0xde, buf, pos, pairs.len());
            let at = pos + header.len();
            lemma_round_trip_pairs(pairs, buf, at, limit);
            assert(parse_map(buf[pos], buf, pos + 1, limit) == Ok::<
                (Seq<(ValueView, ValueView)>, int),
                DecodeError,
            >((pairs, at + body.len())));
        },
    }
}

/// Round trip for a sequence of values written one after the other.
pub proof fn lemma_round_trip_items(items: Seq<ValueView>, buf: Seq<u8>, pos: int, limit: nat)
    requires
        first_error(items) is None,
        forall|i: int| 0 <= i < items.len() ==> maps_within(#[trigger] items[i], limit),
        sits_at(buf, pos, spec_encode_all(items)),
    ensures
        parse_items(buf, pos, items.len(), limit) == Ok::<(Seq<ValueView>, int), DecodeError>(
            (items, pos + spec_encode_all(items).len()),
        ),
    decreases items,
{
    if items.len() == 0 {
        assert(items =~= Seq::<ValueView>::empty());
    } else {
        let head = items[0];
        let tail = items.drop_first();
        let next = pos + spec_encode(head).len();
        lemma_sits_at_split(buf, pos, spec_encode(head), spec_encode_all(tail));
        lemma_round_trip(head, buf, pos, limit);
        lemma_parse_value_advances(buf, pos, limit);
        assert forall|i: int| 0 <= i < tail.len() implies maps_within(#[trigger] tail[i], limit) by {
            assert(tail[i] == items[i + 1]);
        }
        lemma_round_trip_items(tail, buf, next, limit);
        assert(seq![head] + tail =~= items);
    }
}

/// Round trip for a sequence of pairs written one after the other.
pub proof fn lemma_round_trip_pairs(
    pairs: Seq<(ValueView, ValueView)>,
    buf: Seq<u8>,
    pos: int,
    limit: nat,
)
    requires
        first_pair_error(pairs) is None,
        forall|i: int|
            0 <= i < pairs.len() ==> maps_within((#[trigger] pairs[i]).0, limit) && maps_within(
                pairs[i].1,
                limit,
            ),
        sits_at(buf, pos, spec_encode_pairs(pairs)),
    ensures
        parse_pairs(buf, pos, pairs.len(), limit) == Ok::<
            (Seq<(ValueView, ValueView)>, int),
            DecodeError,
        >((pairs, pos + spec_encode_pairs(pairs).len())),
    decreases pairs,
{
    if pairs.len() == 0 {
        assert(pairs =~= Seq::<(ValueView, ValueView)>::empty());
    } else {
        let key = pairs[0].0;
        let value = pairs[0].1;
        let tail = pairs.drop_first();
        let mid = pos + spec_encode(key).len();
        let next = mid + spec_encode(value).len();
        lemma_sits_at_split(
            buf,
            pos,
            spec_encode(key) + spec_encode(value),
            spec_encode_pairs(tail),
        );
        lemma_sits_at_split(buf, pos, spec_encode(key), spec_encode(value));
        lemma_round_trip(key, buf, pos, limit);
        lemma_round_trip(value, buf, mid, limit);
        lemma_parse_value_advances(buf, pos, limit);
        lemma_parse_value_advances(buf, mid, limit);
        assert forall|i: int| 0 <= i < tail.len() implies maps_within(
            (#[trigger] tail[i]).0,
            limit,
        ) && maps_within(tail[i].1, limit) by {
            assert(tail[i] == pairs[i + 1]);
        }
        lemma_round_trip_pairs(tail, buf, next, limit);
        assert(seq![(key, value)] + tail =~= pairs);
    }
}

/// Round trip of the two entry points: decoding the bytes of a value gives
/// back the value and uses up all the bytes.
pub proof fn lemma_decode_encode(v: ValueView)
    requires
        encode_error(v) is None,
    ensures
        parse_value(spec_encode(v), 0, u32::MAX as nat) == read_back(v, 0),
{
    let buf = spec_encode(v);
    assert(buf.subrange(0, buf.len() as int) =~= buf);
    lemma_encodable_maps_within(v);
    lemma_round_trip(v, buf, 0, u32::MAX as nat);
}

/// Order of a map: decoding the bytes of a map gives its pairs as they were
/// given, each at its place, whatever the keys are: none is moved, merged or
/// dropped.
pub proof fn lemma_map_order(pairs: Seq<(ValueView, ValueView)>)
    requires
        encode_error(ValueView::Mapping(pairs)) is None,
    ensures
        parse_value(spec_encode(ValueView::Mapping(pairs)), 0, u32::MAX as nat) matches Ok(
            (ValueView::Mapping(read), _),
        ) && read.len() == pairs.len() && forall|i: int|
            0 <= i < pairs.len() ==> read[i] == pairs[i],
{
    lemma_decode_encode(ValueView::Mapping(pairs));
}

/// Round trip with bytes to spare: what follows the bytes of a value does not
/// change what is read.
pub proof fn lemma_decode_encode_followed(v: ValueView, rest: Seq<u8>)
    requires
        encode_error(v) is None,
    ensures
        parse_value(spec_encode(v) + rest, 0, u32::MAX as nat) == read_back(v, 0),
{
    let buf = spec_encode(v) + rest;
    assert(buf.subrange(0, spec_encode(v).len() as int) =~= spec_encode(v));
    lemma_encodable_maps_within(v);
    lemma_round_trip(v, buf, 0, u32::MAX as nat);
}

/// A value that the encoder accepts has no map beyond the limit of the format.
pub proof fn lemma_encodable_maps_within(v: ValueView)
    requires
        encode_error(v) is None,
    ensures
        maps_within(v, u32::MAX as nat),
    decreases v,
{
    match v {
        ValueView::Array(items) => {
            assert forall|i: int| 0 <= i < items.len() implies maps_within(
                #[trigger] items[i],
                u32::MAX as nat,
            ) by {
                lemma_first_error_none(items, i);
                lemma_encodable_maps_within(items[i]);
            }
        },
        ValueView::Mapping(pairs) => {
            assert forall|i: int| 0 <= i < pairs.len() implies maps_within(
                (#[trigger] pairs[i]).0,
                u32::MAX as nat,
            ) && maps_within(pairs[i].1, u32::MAX as nat) by {
                lemma_first_pair_error_none(pairs, i);
                lemma_encodable_maps_within(pairs[i].0);
                lemma_encodable_maps_within(pairs[i].1);
            }
        },
        _ => {},
    }
}

/// Where a sequence has no first error, none of its values has one.
pub proof fn lemma_first_error_none(items: Seq<ValueView>, i: int)
    requires
        first_error(items) is None,
        0 <= i < items.len(),
    ensures
        encode_error(items[i]) is None,
    decreases items.len(),
{
    if i > 0 {
        lemma_first_error_none(items.drop_first(), i - 1);
    }
}

/// Where a sequence of pairs has no first error, none of its keys and values
/// has one.
pub proof fn lemma_first_pair_error_none(pairs: Seq<(ValueView, ValueView)>, i: int)
    requires
        first_pair_error(pairs) is None,
        0 <= i < pairs.len(),
    ensures
        encode_error(pairs[i].0) is None,
        encode_error(pairs[i].1) is None,
    decreases pairs.len(),
{
    if i > 0 {
        lemma_first_pair_error_none(pairs.drop_first(), i - 1);
    }
}

} // verus!
