//! A packer that appends headers, strings and numbers to a buffer, one call
//! for each. What it writes for a count, a text or a number is what the
//! encoder of values writes for it: the narrowest header that holds the
//! length, and every field most significant byte first.

use vstd::prelude::*;
use crate::bytes::push_be64;
use crate::constants::Families;
use crate::error::EncodeError;
use crate::msgpack::array::write_count_header;
use crate::msgpack::{written, WriteTo};
use crate::value::{Float32, Float64, ValueView};
use crate::wire::{array_header, be64, encode_error, map_header, spec_encode};

verus! {

/// An element count, in the width in which the caller holds it. The width
/// does not choose the header: the count does.
pub enum Lengths {
    U8(u8),
    U16(u16),
    U32(u32),
}

/// A number of any of the widths that the packer takes. The floating-point
/// variants hold the bits of the number. The format has no 128-bit integer:
/// `U128` and `I128` stand for sixteen payload bytes that the caller frames
/// itself, in a binary blob or an extension.
pub enum SupportedNumbers {
    F32(Float32),
    F64(Float64),
    U8(u8),
    U16(u16),
    U32(u32),
    U64(u64),
    U128(u128),
    I8(i8),
    I16(i16),
    I32(i32),
    I64(i64),
    I128(i128),
}

/// The buffer that the calls append to.
pub struct CoreEncode {
    pub buffer: Vec<u8>,
}

/// The count that `length` holds.
pub open spec fn count_of(length: Lengths) -> nat {
    match length {
        Lengths::U8(n) => n as nat,
        Lengths::U16(n) => n as nat,
        Lengths::U32(n) => n as nat,
    }
}

/// The one count that a `Lengths` can hold and no container header can
/// carry: 2^32 - 1.
pub open spec fn count_refused(length: Lengths) -> bool {
    count_of(length) >= 0xffff_ffff
}

/// The sixteen bytes of a 128-bit number, most significant first.
pub open spec fn be128(x: u128) -> Seq<u8> {
    be64((x / 0x1_0000_0000_0000_0000) as u64) + be64((x % 0x1_0000_0000_0000_0000) as u64)
}

/// The 128-bit number with the same bits, in two's complement.
pub open spec fn unsigned128(v: i128) -> u128 {
    if v < 0 {
        (v + 0x1_0000_0000_0000_0000_0000_0000_0000_0000) as u128
    } else {
        v as u128
    }
}

/// The bytes that `number` writes: for the ten kinds of number that the
/// format has, the bytes of the value of that kind; for a 128-bit integer,
/// which the format does not have, its sixteen bytes without a marker, most
/// significant first, a negative one in two's complement.
pub open spec fn number_bytes(number: SupportedNumbers) -> Seq<u8> {
    match number {
        SupportedNumbers::F32(x) => spec_encode(ValueView::F32(x)),
        SupportedNumbers::F64(x) => spec_encode(ValueView::F64(x)),
        SupportedNumbers::U8(x) => spec_encode(ValueView::U8(x)),
        SupportedNumbers::U16(x) => spec_encode(ValueView::U16(x)),
        SupportedNumbers::U32(x) => spec_encode(ValueView::U32(x)),
        SupportedNumbers::U64(x) => spec_encode(ValueView::U64(x)),
        SupportedNumbers::U128(x) => be128(x),
        SupportedNumbers::I8(x) => spec_encode(ValueView::I8(x)),
        SupportedNumbers::I16(x) => spec_encode(ValueView::I16(x)),
        SupportedNumbers::I32(x) => spec_encode(ValueView::I32(x)),
        SupportedNumbers::I64(x) => spec_encode(ValueView::I64(x)),
        SupportedNumbers::I128(x) => be128(unsigned128(x)),
    }
}

/// The count that `length` holds.
fn count(length: Lengths) -> (n: usize)
    ensures
        n == count_of(length),
{
    match length {
        Lengths::U8(len) => len as usize,
        Lengths::U16(len) => len as usize,
        Lengths::U32(len) => len as usize,
    }
}

/// Appends the sixteen bytes of `x`, most significant first.
fn push_be128(writer: &mut Vec<u8>, x: u128)
    ensures
        final(writer)@ == old(writer)@ + be128(x),
{
    push_be64(writer, (x / 0x1_0000_0000_0000_0000) as u64);
    push_be64(writer, (x % 0x1_0000_0000_0000_0000) as u64);
    assert(writer@ =~= old(writer)@ + be128(x));
}

/// The unsigned number with the bits of `v`.
fn to_unsigned128(v: i128) -> (u: u128)
    ensures
        u == unsigned128(v),
{
    if v >= 0 {
        v as u128
    } else {
        let low: i128 = v + 0x7fff_ffff_ffff_ffff_ffff_ffff_ffff_ffff + 1;
        low as u128 + 0x8000_0000_0000_0000_0000_0000_0000_0000
    }
}

impl CoreEncode {
    pub fn new() -> (packer: CoreEncode)
        ensures
            packer.buffer@ == Seq::<u8>::empty(),
    {
        CoreEncode { buffer: Vec::new() }
    }

    /// Appends `bytes` as they are.
    pub fn write(&mut self, bytes: Vec<u8>)
        ensures
            final(self).buffer@ == old(self).buffer@ + bytes@,
    {
        let mut bytes = bytes;
        self.buffer.append(&mut bytes);
    }

    /// Appends the header of an array of `length` elements: the count in the
    /// marker up to 15, in two bytes up to 65535, in four bytes beyond.
    /// Refuses a count of 2^32 - 1 and then writes nothing.
    pub fn start_arr(&mut self, length: Lengths) -> (r: Result<(), EncodeError>)
        ensures
            written(
                old(self).buffer@,
                final(self).buffer@,
                r,
                array_header(count_of(length)),
                if count_refused(length) {
                    Some(EncodeError::ArrayTooLong)
                } else {
                    None
                },
            ),
            r is Err ==> final(self).buffer@ == old(self).buffer@,
    {
        let fits = write_count_header(
            Families::FIXARRAY,
            Families::ARRAY16,
            count(length),
            &mut self.buffer,
        );
        if fits {
            Ok(())
        } else {
            assert(old(self).buffer@.is_prefix_of(self.buffer@));
            Err(EncodeError::ArrayTooLong)
        }
    }

    /// Appends the header of a map of `length` pairs: the count in the marker
    /// up to 15, in two bytes up to 65535, in four bytes beyond. Refuses a
    /// count of 2^32 - 1 and then writes nothing.
    pub fn start_map(&mut self, length: Lengths) -> (r: Result<(), EncodeError>)
        ensures
            written(
                old(self).buffer@,
                final(self).buffer@,
                r,
                map_header(count_of(length)),
                if count_refused(length) {
                    Some(EncodeError::MapTooLong)
                } else {
                    None
                },
            ),
            r is Err ==> final(self).buffer@ == old(self).buffer@,
    {
        let fits = write_count_header(
            Families::FIXMAP,
            Families::MAP16,
            count(length),
            &mut self.buffer,
        );
        if fits {
            Ok(())
        } else {
            assert(old(self).buffer@.is_prefix_of(self.buffer@));
            Err(EncodeError::MapTooLong)
        }
    }

    /// Appends a string as the encoder of values writes it: the narrowest
    /// header that holds its length in UTF-8 bytes, then the bytes. Refuses a
    /// string of more than 2^31 bytes.
    pub fn string(&mut self, _str: String) -> (r: Result<(), EncodeError>)
        ensures
            written(
                old(self).buffer@,
                final(self).buffer@,
                r,
                spec_encode(ValueView::Str(_str@)),
                encode_error(ValueView::Str(_str@)),
            ),
    {
        _str.write_to(&mut self.buffer)
    }

    /// Appends a number: see `number_bytes`.
    pub fn number(&mut self, _number: SupportedNumbers) -> (packer: &mut Self)
        ensures
            packer.buffer@ == old(self).buffer@ + number_bytes(_number),
            *final(self) == *final(packer),
    {
        match _number {
            SupportedNumbers::F32(num) => num.write_to(&mut self.buffer).unwrap(),
            SupportedNumbers::F64(num) => num.write_to(&mut self.buffer).unwrap(),
            SupportedNumbers::U8(num) => num.write_to(&mut self.buffer).unwrap(),
            SupportedNumbers::U16(num) => num.write_to(&mut self.buffer).unwrap(),
            SupportedNumbers::U32(num) => num.write_to(&mut self.buffer).unwrap(),
            SupportedNumbers::U64(num) => num.write_to(&mut self.buffer).unwrap(),
            SupportedNumbers::U128(num) => push_be128(&mut self.buffer, num),
            SupportedNumbers::I8(num) => num.write_to(&mut self.buffer).unwrap(),
            SupportedNumbers::I16(num) => num.write_to(&mut self.buffer).unwrap(),
            SupportedNumbers::I32(num) => num.write_to(&mut self.buffer).unwrap(),
            SupportedNumbers::I64(num) => num.write_to(&mut self.buffer).unwrap(),
            SupportedNumbers::I128(num) => push_be128(&mut self.buffer, to_unsigned128(num)),
        }
        self
    }
}

} // verus!
