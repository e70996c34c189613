//! Arrays: a header that holds the element count, then the elements.

use vstd::prelude::*;
use crate::bytes::{push_be16, push_be32};
use crate::constants::{Families, CONTAINER_CEILING};
use crate::error::{DecodeError, EncodeError};
use crate::grammar::{lemma_parse_value_advances, parse_array, parse_items, Parsed};
use crate::msgpack::value::write_value;
use crate::msgpack::{written, ReadFrom, WriteTo};
use crate::reader::{read_count, read_value_from_cursor, Reader};
use crate::value::{views, Value, ValueView};
use crate::wire::{array_header, count_header, encode_error, first_error, spec_encode,
    spec_encode_all};

verus! {

/// The markers of the array forms.
pub struct Array;

impl Array {
    pub const ARRAY_16_TYPE: u8 = Families::ARRAY16;
    pub const ARRAY_32_TYPE: u8 = Families::ARRAY32;
    pub const FIXARRAY_TYPE: u8 = Families::FIXARRAY;
}

/// Appends a container header for `len` elements: the count in the marker up
/// to 15 (`fix` is the marker of the empty container), the marker `wide` with
/// two bytes up to 65535, the next marker with four bytes beyond. Returns
/// `false`, and writes nothing, for 2^32 - 1 elements or more.
pub fn write_count_header(fix: u8, wide: u8, len: usize, writer: &mut Vec<u8>) -> (fits: bool)
    requires
        fix <= 0xf0,
        wide <= 0xfe,
    ensures
        fits == (len < 0xffff_ffff),
        fits ==> final(writer)@ == old(writer)@ + count_header(fix, wide, len as nat),
        !fits ==> final(writer)@ == old(writer)@,
{
    if len <= 15 {
        writer.push(fix + len as u8);
    } else if len <= 65535 {
        writer.push(wide);
        push_be16(writer, len as u16);
    } else if len < CONTAINER_CEILING {
        writer.push(wide + 1);
        push_be32(writer, len as u32);
    } else {
        return false;
    }
    assert(writer@ =~= old(writer)@ + count_header(fix, wide, len as nat));
    true
}

/// Appends an array: the header, then every element in order. Stops at the
/// first element that cannot be written.
pub fn write_array(items: &Vec<Value>, writer: &mut Vec<u8>) -> (r: Result<(), EncodeError>)
    ensures
        written(
            old(writer)@,
            final(writer)@,
            r,
            spec_encode(ValueView::Array(views(items@))),
            encode_error(ValueView::Array(views(items@))),
        ),
    decreases items,
{
    let ghost before = writer@;
    let ghost all = views(items@);
    if !write_count_header(Families::FIXARRAY, Families::ARRAY16, items.len(), writer) {
        assert(before.is_prefix_of(writer@));
        return Err(EncodeError::ArrayTooLong);
    }
    let ghost head = before + array_header(all.len());
    assert(all.skip(0) =~= all);
    let mut i: usize = 0;
    while i < items.len()
        invariant
            i <= items.len(),
            before == old(writer)@,
            all == views(items@),
            all.len() < 0xffff_ffff,
            head == before + array_header(all.len()),
            before.is_prefix_of(writer@),
            first_error(all) == first_error(all.skip(i as int)),
            writer@ + spec_encode_all(all.skip(i as int)) == head + spec_encode_all(all),
        decreases items.len() - i,
    {
        let ghost rest = all.skip(i as int);
        let ghost mid = writer@;
        assert(rest[0] == items@[i as int]@);
        assert(rest.drop_first() =~= all.skip(i + 1));
        match write_value(&items[i], writer) {
            Ok(()) => {
                assert(writer@ + spec_encode_all(all.skip(i + 1)) =~= mid + spec_encode_all(rest));
            },
            Err(e) => {
                assert(first_error(rest) == Some(e));
                assert(before.is_prefix_of(writer@));
                return Err(e);
            },
        }
        i += 1;
    }
    assert(all.skip(i as int) =~= Seq::<ValueView>::empty());
    assert(first_error(all) is None);
    assert(writer@ =~= before + spec_encode(ValueView::Array(all)));
    Ok(())
}

impl WriteTo for Vec<Value> {
    open spec fn wire(&self) -> Seq<u8> {
        spec_encode(ValueView::Array(views(self@)))
    }

    open spec fn refusal(&self) -> Option<EncodeError> {
        encode_error(ValueView::Array(views(self@)))
    }

    fn write_to(&self, writer: &mut Vec<u8>) -> (r: Result<(), EncodeError>) {
        write_array(self, writer)
    }
}

/// Reads an array after its marker: the count, then that many values, one
/// after the other. The output grows with the values that were read: the
/// declared count reserves nothing.
pub fn read_array(packet_type: u8, reader: &mut Reader<'_>) -> (r: Result<
    Vec<Value>,
    DecodeError,
>)
    ensures
        final(reader).buffer() == old(reader).buffer(),
        final(reader).limit() == old(reader).limit(),
        match parse_array(
            packet_type,
            old(reader).buffer(),
            old(reader).offset(),
            old(reader).limit(),
        ) {
            Ok((items, p)) => r matches Ok(got) && views(got@) == items && final(reader).offset()
                == p,
            Err(e) => r matches Err(got) && got == e,
        },
    decreases old(reader).buffer().len() - old(reader).offset(), 2int, 0int,
{
    let count = read_count(Families::FIXARRAY, Families::ARRAY16, packet_type, reader)?;
    let ghost buf = reader.buffer();
    let ghost limit = reader.limit();
    let ghost start = reader.offset();
    let mut items: Vec<Value> = Vec::new();
    let mut i: usize = 0;
    assert(views(items@) =~= Seq::<ValueView>::empty());
    assert(parse_items(buf, start, count as nat, limit) matches Ok((rest, q)) ==> views(items@)
        + rest =~= rest);
    while i < count
        invariant
            i <= count,
            reader.buffer() == buf,
            reader.limit() == limit,
            buf == old(reader).buffer(),
            limit == old(reader).limit(),
            old(reader).offset() <= start <= reader.offset() <= buf.len(),
            parse_array(packet_type, buf, old(reader).offset(), limit) == parse_items(
                buf,
                start,
                count as nat,
                limit,
            ),
            parse_items(buf, start, count as nat, limit) == (match parse_items(
                buf,
                reader.offset(),
                (count - i) as nat,
                limit,
            ) {
                Ok((rest, q)) => Ok((views(items@) + rest, q)),
                Err(e) => Err(e),
            }),
        decreases count - i,
    {
        let ghost at = reader.offset();
        let ghost done = views(items@);
        proof {
            lemma_parse_value_advances(buf, at, limit);
        }
        let value = read_value_from_cursor(reader)?;
        items.push(value);
        i += 1;
        proof {
            assert(views(items@) =~= done.push(value@));
            match parse_items(buf, reader.offset(), (count - i) as nat, limit) {
                Ok((rest, q)) => {
                    assert(done + (seq![value@] + rest) =~= views(items@) + rest);
                },
                Err(_) => {},
            }
        }
    }
    assert(views(items@) + Seq::<ValueView>::empty() =~= views(items@));
    Ok(items)
}

impl ReadFrom for Vec<Value> {
    type Model = Seq<ValueView>;

    open spec fn model(&self) -> Seq<ValueView> {
        views(self@)
    }

    open spec fn parsed(packet_type: u8, buf: Seq<u8>, pos: int, limit: nat) -> Parsed<
        Seq<ValueView>,
    > {
        parse_array(packet_type, buf, pos, limit)
    }

    fn read_from(packet_type: u8, reader: &mut Reader<'_>) -> (r: Result<Self, DecodeError>) {
        read_array(packet_type, reader)
    }
}

} // verus!
