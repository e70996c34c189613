//! Maps: a header that holds the pair count, then key, value, key, value,
//! in the order of the sequence.

use vstd::prelude::*;
use crate::constants::Families;
use crate::error::{DecodeError, EncodeError};
use crate::grammar::{lemma_parse_value_advances, parse_map, parse_pairs, Parsed};
use crate::msgpack::array::write_count_header;
use crate::msgpack::value::write_value;
use crate::msgpack::{written, ReadFrom, WriteTo};
use crate::reader::{read_count, read_value_from_cursor, Reader};
use crate::value::{pair_views, Value, ValueView};
use crate::wire::{encode_error, first_pair_error, map_header, spec_encode, spec_encode_pairs};

verus! {

/// Appends a map: the header, then every pair in order, the key before the
/// value. Stops at the first key or value that cannot be written.
pub fn write_map(pairs: &Vec<(Value, Value)>, writer: &mut Vec<u8>) -> (r: Result<
    (),
    EncodeError,
>)
    ensures
        written(
            old(writer)@,
            final(writer)@,
            r,
            spec_encode(ValueView::Mapping(pair_views(pairs@))),
            encode_error(ValueView::Mapping(pair_views(pairs@))),
        ),
    decreases pairs,
{
    let ghost before = writer@;
    let ghost all = pair_views(pairs@);
    if !write_count_header(Families::FIXMAP, Families::MAP16, pairs.len(), writer) {
        assert(before.is_prefix_of(writer@));
        return Err(EncodeError::MapTooLong);
    }
    let ghost head = before + map_header(all.len());
    assert(all.skip(0) =~= all);
    let mut i: usize = 0;
    while i < pairs.len()
        invariant
            i <= pairs.len(),
            before == old(writer)@,
            all == pair_views(pairs@),
            all.len() < 0xffff_ffff,
            head == before + map_header(all.len()),
            before.is_prefix_of(writer@),
            first_pair_error(all) == first_pair_error(all.skip(i as int)),
            writer@ + spec_encode_pairs(all.skip(i as int)) == head + spec_encode_pairs(all),
        decreases pairs.len() - i,
    {
        let ghost rest = all.skip(i as int);
        let ghost mid = writer@;
        assert(rest[0] == (pairs@[i as int].0@, pairs@[i as int].1@));
        assert(rest.drop_first() =~= all.skip(i + 1));
        let pair = &pairs[i];
        match write_value(&pair.0, writer) {
            Ok(()) => {},
            Err(e) => {
                assert(first_pair_error(rest) == Some(e));
                assert(before.is_prefix_of(writer@));
                return Err(e);
            },
        }
        let ghost mid2 = writer@;
        match write_value(&pair.1, writer) {
            Ok(()) => {
                assert(writer@ + spec_encode_pairs(all.skip(i + 1)) =~= mid + spec_encode_pairs(
                    rest,
                ));
            },
            Err(e) => {
                assert(first_pair_error(rest) == Some(e));
                assert(mid.is_prefix_of(mid2));
                assert(before.is_prefix_of(writer@));
                return Err(e);
            },
        }
        i += 1;
    }
    assert(all.skip(i as int) =~= Seq::<(ValueView, ValueView)>::empty());
    assert(first_pair_error(all) is None);
    assert(writer@ =~= before + spec_encode(ValueView::Mapping(all)));
    Ok(())
}

impl WriteTo for Vec<(Value, Value)> {
    open spec fn wire(&self) -> Seq<u8> {
        spec_encode(ValueView::Mapping(pair_views(self@)))
    }

    open spec fn refusal(&self) -> Option<EncodeError> {
        encode_error(ValueView::Mapping(pair_views(self@)))
    }

    fn write_to(&self, writer: &mut Vec<u8>) -> (r: Result<(), EncodeError>) {
        write_map(self, writer)
    }
}

/// Reads a map after its marker: the count, then that many pairs, key before
/// value, kept in the order in which they stand. Refuses a count above the
/// reader's limit before it reads any pair. The output grows with the pairs
/// that were read: the declared count reserves nothing.
pub fn read_map(packet_type: u8, reader: &mut Reader<'_>) -> (r: Result<
    Vec<(Value, Value)>,
    DecodeError,
>)
    ensures
        final(reader).buffer() == old(reader).buffer(),
        final(reader).limit() == old(reader).limit(),
        match parse_map(
            packet_type,
            old(reader).buffer(),
            old(reader).offset(),
            old(reader).limit(),
        ) {
            Ok((pairs, p)) => r matches Ok(got) && pair_views(got@) == pairs
                && final(reader).offset() == p,
            Err(e) => r matches Err(got) && got == e,
        },
    decreases old(reader).buffer().len() - old(reader).offset(), 2int, 0int,
{
    let count = read_count(Families::FIXMAP, Families::MAP16, packet_type, reader)?;
    if count > reader.map_limit() as usize {
        return Err(DecodeError::MapTooLarge);
    }
    let ghost buf = reader.buffer();
    let ghost limit = reader.limit();
    let ghost start = reader.offset();
    let mut pairs: Vec<(Value, Value)> = Vec::new();
    let mut i: usize = 0;
    assert(pair_views(pairs@) =~= Seq::<(ValueView, ValueView)>::empty());
    assert(parse_pairs(buf, start, count as nat, limit) matches Ok((rest, q)) ==> pair_views(
        pairs@,
    ) + rest =~= rest);
    while i < count
        invariant
            i <= count,
            reader.buffer() == buf,
            reader.limit() == limit,
            buf == old(reader).buffer(),
            limit == old(reader).limit(),
            old(reader).offset() <= start <= reader.offset() <= buf.len(),
            parse_map(packet_type, buf, old(reader).offset(), limit) == parse_pairs(
                buf,
                start,
                count as nat,
                limit,
            ),
            parse_pairs(buf, start, count as nat, limit) == (match parse_pairs(
                buf,
                reader.offset(),
                (count - i) as nat,
                limit,
            ) {
                Ok((rest, q)) => Ok((pair_views(pairs@) + rest, q)),
                Err(e) => Err(e),
            }),
        decreases count - i,
    {
        let ghost at = reader.offset();
        let ghost done = pair_views(pairs@);
        proof {
            lemma_parse_value_advances(buf, at, limit);
        }
        let key = read_value_from_cursor(reader)?;
        proof {
            lemma_parse_value_advances(buf, reader.offset(), limit);
        }
        let value = read_value_from_cursor(reader)?;
        let ghost pair = (key@, value@);
        pairs.push((key, value));
        i += 1;
        proof {
            assert(pair_views(pairs@) =~= done.push(pair));
            match parse_pairs(buf, reader.offset(), (count - i) as nat, limit) {
                Ok((rest, q)) => {
                    assert(done + (seq![pair] + rest) =~= pair_views(pairs@) + rest);
                },
                Err(_) => {},
            }
        }
    }
    assert(pair_views(pairs@) + Seq::<(ValueView, ValueView)>::empty() =~= pair_views(pairs@));
    Ok(pairs)
}

impl ReadFrom for Vec<(Value, Value)> {
    type Model = Seq<(ValueView, ValueView)>;

    open spec fn model(&self) -> Seq<(ValueView, ValueView)> {
        pair_views(self@)
    }

    open spec fn parsed(packet_type: u8, buf: Seq<u8>, pos: int, limit: nat) -> Parsed<
        Seq<(ValueView, ValueView)>,
    > {
        parse_map(packet_type, buf, pos, limit)
    }

    fn read_from(packet_type: u8, reader: &mut Reader<'_>) -> (r: Result<Self, DecodeError>) {
        read_map(packet_type, reader)
    }
}

} // verus!
