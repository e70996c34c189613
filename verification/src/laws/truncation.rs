//! Truncation: no proper beginning of the bytes of a value decodes.

use vstd::prelude::*;
use vstd::utf8::encode_utf8;
use crate::error::DecodeError;
use crate::grammar::{lemma_parse_value_advances, parse_items, parse_pairs, parse_value, Parsed};
use crate::laws::placement::{cut_at, lemma_count_header_at, lemma_count_header_cut,
    lemma_cut_at_index, lemma_cut_at_split, lemma_sits_at_split, lemma_sized_header_at,
    lemma_sized_header_cut, lemma_str_header_at, lemma_str_header_cut};
use crate::laws::round_trip::{lemma_encodable_maps_within, lemma_round_trip, maps_within};
use crate::value::ValueView;
use crate::wire::{array_header, bin_header, encode_error, ext_header, first_error,
    first_pair_error, map_header, spec_encode, spec_encode_all, spec_encode_pairs, str_header};

verus! {

/// What the decoder is to answer where the input ends too early.
pub open spec fn cut_short() -> Parsed<ValueView> {
    Err(DecodeError::Truncated)
}

/// Truncation for the values of fixed width.
proof fn lemma_truncated_fixed(v: ValueView, buf: Seq<u8>, pos: int, limit: nat)
    requires
        !(v is Str || v is Bin || v is Extension || v is Array || v is Mapping),
        cut_at(buf, pos, spec_encode(v)),
    ensures
        parse_value(buf, pos, limit) == cut_short(),
{
    if pos < buf.len() {
        lemma_cut_at_index(buf, pos, spec_encode(v), 0);
        if v is U64 || v is I64 || v is F64 {
            assert(spec_encode(v).len() == 9);
        }
    }
}

/// Truncation for strings.
proof fn lemma_truncated_str(v: ValueView, buf: Seq<u8>, pos: int, limit: nat)
    requires
        v is Str,
        encode_error(v) is None,
        cut_at(buf, pos, spec_encode(v)),
    ensures
        parse_value(buf, pos, limit) == cut_short(),
{
    let payload = encode_utf8(v->Str_0);
    let header = str_header(payload.len());
    if pos < buf.len() {
        lemma_cut_at_split(buf, pos, header, payload);
        if buf.len() < pos + header.len() {
            lemma_str_header_cut(buf, pos, payload.len());
        } else {
            lemma_str_header_at(buf, pos, payload.len());
        }
    }
}

/// Truncation for binary blobs.
proof fn lemma_truncated_bin(v: ValueView, buf: Seq<u8>, pos: int, limit: nat)
    requires
        v is Bin,
        encode_error(v) is None,
        cut_at(buf, pos, spec_encode(v)),
    ensures
        parse_value(buf, pos, limit) == cut_short(),
{
    let payload = v->Bin_0;
    let header = bin_header(payload.len());
    if pos < buf.len() {
        lemma_cut_at_split(buf, pos, header, payload);
        if buf.len() < pos + header.len() {
            lemma_sized_header_cut(0xc4, buf, pos, payload.len());
        } else {
            lemma_sized_header_at(0xc4, buf, pos, payload.len());
        }
    }
}

/// Truncation for extensions.
proof fn lemma_truncated_ext(v: ValueView, buf: Seq<u8>, pos: int, limit: nat)
    requires
        v is Extension,
        encode_error(v) is None,
        cut_at(buf, pos, spec_encode(v)),
    ensures
        parse_value(buf, pos, limit) == cut_short(),
{
    let e = v->Extension_0;
    let header = ext_header(e.data.len());
    if pos < buf.len() {
        assert(spec_encode(v) =~= header + (seq![e.type_] + e.data));
        lemma_cut_at_split(buf, pos, header, seq![e.type_] + e.data);
        if buf.len() < pos + header.len() {
            lemma_sized_header_cut(0xc7, buf, pos, e.data.len());
        } else {
            lemma_sized_header_at(0xc7, buf, pos, e.data.len());
        }
    }
}

/// Truncation: where the input ends inside the bytes of a value, or right
/// before them, the decoder reports that it is truncated, whatever the value
/// and wherever the end falls.
pub proof fn lemma_truncated(v: ValueView, buf: Seq<u8>, pos: int, limit: nat)
    requires
        encode_error(v) is None,
        maps_within(v, limit),
        cut_at(buf, pos, spec_encode(v)),
    ensures
        parse_value(buf, pos, limit) == cut_short(),
    decreases v,
{
    match v {
        ValueView::Str(_) => {
            lemma_truncated_str(v, buf, pos, limit);
        },
        ValueView::Bin(_) => {
            lemma_truncated_bin(v, buf, pos, limit);
        },
        ValueView::Extension(_) => {
            lemma_truncated_ext(v, buf, pos, limit);
        },
        ValueView::Array(items) => {
            let header = array_header(items.len());
            let body = spec_encode_all(items);
            if pos < buf.len() {
                lemma_cut_at_split(buf, pos, header, body);
                if buf.len() < pos + header.len() {
                    lemma_count_header_cut(0x90, 0xdc, buf, pos, items.len());
                } else {
                    lemma_count_header_at(0x90, 0xdc, buf, pos, items.len());
                    lemma_truncated_items(items, buf, pos + header.len(), limit);
                }
            }
        },
        ValueView::Mapping(pairs) => {
            let header = map_header(pairs.len());
            let body = spec_encode_pairs(pairs);
            if pos < buf.len() {
                lemma_cut_at_split(buf, pos, header, body);
                if buf.len() < pos + header.len() {
                    lemma_count_header_cut(0x80, 0xde, buf, pos, pairs.len());
                } else {
                    lemma_count_header_at(0x80, 0xde, buf, pos, pairs.len());
                    lemma_truncated_pairs(pairs, buf, pos + header.len(), limit);
                }
            }
        },
        _ => {
            lemma_truncated_fixed(v, buf, pos, limit);
        },
    }
}

/// Truncation for a sequence of values written one after the other.
pub proof fn lemma_truncated_items(items: Seq<ValueView>, buf: Seq<u8>, pos: int, limit: nat)
    requires
        first_error(items) is None,
        forall|i: int| 0 <= i < items.len() ==> maps_within(#[trigger] items[i], limit),
        cut_at(buf, pos, spec_encode_all(items)),
    ensures
        parse_items(buf, pos, items.len(), limit) == Err::<(Seq<ValueView>, int), DecodeError>(
            DecodeError::Truncated,
        ),
    decreases items,
{
    let head = items[0];
    let tail = items.drop_first();
    let next = pos + spec_encode(head).len();
    lemma_cut_at_split(buf, pos, spec_encode(head), spec_encode_all(tail));
    if buf.len() < next {
        lemma_truncated(head, buf, pos, limit);
    } else {
        lemma_round_trip(head, buf, pos, limit);
        lemma_parse_value_advances(buf, pos, limit);
        assert forall|i: int| 0 <= i < tail.len() implies maps_within(#[trigger] tail[i], limit) by {
            assert(tail[i] == items[i + 1]);
        }
        lemma_truncated_items(tail, buf, next, limit);
    }
}

/// Truncation for a sequence of pairs written one after the other.
pub proof fn lemma_truncated_pairs(
    pairs: Seq<(ValueView, ValueView)>,
    buf: Seq<u8>,
    pos: int,
    limit: nat,
)
    requires
        first_pair_error(pairs) is None,
        forall|i: int|
            0 <= i < pairs.len() ==> maps_within((#[trigger] pairs[i]).0, limit) && maps_within(
                pairs[i].1,
                limit,
            ),
        cut_at(buf, pos, spec_encode_pairs(pairs)),
    ensures
        parse_pairs(buf, pos, pairs.len(), limit) == Err::<
            (Seq<(ValueView, ValueView)>, int),
            DecodeError,
        >(DecodeError::Truncated),
    decreases pairs,
{
    let key = pairs[0].0;
    let value = pairs[0].1;
    let tail = pairs.drop_first();
    let mid = pos + spec_encode(key).len();
    let next = mid + spec_encode(value).len();
    lemma_cut_at_split(buf, pos, spec_encode(key) + spec_encode(value), spec_encode_pairs(tail));
    if buf.len() < next {
        lemma_cut_at_split(buf, pos, spec_encode(key), spec_encode(value));
        if buf.len() < mid {
            lemma_truncated(key, buf, pos, limit);
        } else {
            lemma_round_trip(key, buf, pos, limit);
            lemma_parse_value_advances(buf, pos, limit);
            lemma_truncated(value, buf, mid, limit);
        }
    } else {
        lemma_sits_at_split(buf, pos, spec_encode(key), spec_encode(value));
        lemma_round_trip(key, buf, pos, limit);
        lemma_round_trip(value, buf, mid, limit);
        lemma_parse_value_advances(buf, pos, limit);
        lemma_parse_value_advances(buf, mid, limit);
        assert forall|i: int| 0 <= i < tail.len() implies maps_within(
            (#[trigger] tail[i]).0,
            limit,
        ) && maps_within(tail[i].1, limit) by {
            assert(tail[i] == pairs[i + 1]);
        }
        lemma_truncated_pairs(tail, buf, next, limit);
    }
}

/// Truncation of the entry point: no proper beginning of the bytes of a
/// value decodes.
pub proof fn lemma_decode_truncated(v: ValueView, k: int)
    requires
        encode_error(v) is None,
        0 <= k < spec_encode(v).len(),
    ensures
        parse_value(spec_encode(v).subrange(0, k), 0, u32::MAX as nat) == cut_short(),
{
    let buf = spec_encode(v).subrange(0, k);
    assert(buf.subrange(0, buf.len() as int) =~= spec_encode(v).subrange(0, buf.len() - 0));
    lemma_encodable_maps_within(v);
    lemma_truncated(v, buf, 0, u32::MAX as nat);
}

} // verus!
