//! Integers: each width keeps its own marker; only the smallest values of the
//! 8-bit types fold into the marker itself.

use vstd::prelude::*;
use crate::bytes::{push_be16, push_be32, push_be64, read_be16, read_be32, read_be64, to_signed16,
    to_signed32, to_signed64, to_signed8, to_unsigned16, to_unsigned32, to_unsigned64,
    to_unsigned8};
use crate::constants::Families;
use crate::error::{DecodeError, EncodeError};
use crate::grammar::{parse_i16, parse_i32, parse_i64, parse_i8, parse_u16, parse_u32, parse_u64,
    parse_u8, Parsed};
use crate::msgpack::{ReadFrom, WriteTo};
use crate::reader::{read_packet_type, Reader};
use crate::value::ValueView;
use crate::wire::spec_encode;

verus! {

impl WriteTo for u8 {
    open spec fn wire(&self) -> Seq<u8> {
        spec_encode(ValueView::U8(*self))
    }

    open spec fn refusal(&self) -> Option<EncodeError> {
        None
    }

    /// One byte up to 0x7f, else the marker and the byte.
    fn write_to(&self, writer: &mut Vec<u8>) -> (r: Result<(), EncodeError>) {
        if *self <= Families::POSITIVE_FIXINT_LAST {
            writer.push(*self);
        } else {
            writer.push(Families::UINT8);
            writer.push(*self);
        }
        assert(writer@ =~= old(writer)@ + self.wire());
        Ok(())
    }
}

impl ReadFrom for u8 {
    type Model = u8;

    open spec fn model(&self) -> u8 {
        *self
    }

    open spec fn parsed(packet_type: u8, buf: Seq<u8>, pos: int, limit: nat) -> Parsed<u8> {
        parse_u8(packet_type, buf, pos)
    }

    /// The marker itself up to 0x7f; one byte after the 8-bit marker.
    fn read_from(packet_type: u8, reader: &mut Reader<'_>) -> (r: Result<Self, DecodeError>) {
        if packet_type <= Families::POSITIVE_FIXINT_LAST {
            Ok(packet_type)
        } else if packet_type == Families::UINT8 {
            read_packet_type(reader)
        } else {
            Err(DecodeError::UnexpectedMarker)
        }
    }
}

impl WriteTo for u16 {
    open spec fn wire(&self) -> Seq<u8> {
        spec_encode(ValueView::U16(*self))
    }

    open spec fn refusal(&self) -> Option<EncodeError> {
        None
    }

    fn write_to(&self, writer: &mut Vec<u8>) -> (r: Result<(), EncodeError>) {
        writer.push(Families::UINT16);
        push_be16(writer, *self);
        assert(writer@ =~= old(writer)@ + self.wire());
        Ok(())
    }
}

impl ReadFrom for u16 {
    type Model = u16;

    open spec fn model(&self) -> u16 {
        *self
    }

    open spec fn parsed(packet_type: u8, buf: Seq<u8>, pos: int, limit: nat) -> Parsed<u16> {
        parse_u16(packet_type, buf, pos)
    }

    fn read_from(packet_type: u8, reader: &mut Reader<'_>) -> (r: Result<Self, DecodeError>) {
        if packet_type != Families::UINT16 {
            return Err(DecodeError::UnexpectedMarker);
        }
        let bytes = reader.pull(2)?;
        Ok(read_be16(bytes))
    }
}

impl WriteTo for u32 {
    open spec fn wire(&self) -> Seq<u8> {
        spec_encode(ValueView::U32(*self))
    }

    open spec fn refusal(&self) -> Option<EncodeError> {
        None
    }

    fn write_to(&self, writer: &mut Vec<u8>) -> (r: Result<(), EncodeError>) {
        writer.push(Families::UINT32);
        push_be32(writer, *self);
        assert(writer@ =~= old(writer)@ + self.wire());
        Ok(())
    }
}

impl ReadFrom for u32 {
    type Model = u32;

    open spec fn model(&self) -> u32 {
        *self
    }

    open spec fn parsed(packet_type: u8, buf: Seq<u8>, pos: int, limit: nat) -> Parsed<u32> {
        parse_u32(packet_type, buf, pos)
    }

    fn read_from(packet_type: u8, reader: &mut Reader<'_>) -> (r: Result<Self, DecodeError>) {
        if packet_type != Families::UINT32 {
            return Err(DecodeError::UnexpectedMarker);
        }
        let bytes = reader.pull(4)?;
        Ok(read_be32(bytes))
    }
}

impl WriteTo for u64 {
    open spec fn wire(&self) -> Seq<u8> {
        spec_encode(ValueView::U64(*self))
    }

    open spec fn refusal(&self) -> Option<EncodeError> {
        None
    }

    fn write_to(&self, writer: &mut Vec<u8>) -> (r: Result<(), EncodeError>) {
        writer.push(Families::UINT64);
        push_be64(writer, *self);
        assert(writer@ =~= old(writer)@ + self.wire());
        Ok(())
    }
}

impl ReadFrom for u64 {
    type Model = u64;

    open spec fn model(&self) -> u64 {
        *self
    }

    open spec fn parsed(packet_type: u8, buf: Seq<u8>, pos: int, limit: nat) -> Parsed<u64> {
        parse_u64(packet_type, buf, pos)
    }

    fn read_from(packet_type: u8, reader: &mut Reader<'_>) -> (r: Result<Self, DecodeError>) {
        if packet_type != Families::UINT64 {
            return Err(DecodeError::UnexpectedMarker);
        }
        let bytes = reader.pull(8)?;
        Ok(read_be64(bytes))
    }
}

impl WriteTo for i8 {
    open spec fn wire(&self) -> Seq<u8> {
        spec_encode(ValueView::I8(*self))
    }

    open spec fn refusal(&self) -> Option<EncodeError> {
        None
    }

    /// From -32 to -1 the one byte with the same bits, which lies from 0xe0
    /// to 0xff; else the marker and the byte.
    fn write_to(&self, writer: &mut Vec<u8>) -> (r: Result<(), EncodeError>) {
        if -32 <= *self && *self <= -1 {
            writer.push(to_unsigned8(*self));
        } else {
            writer.push(Families::INT8);
            writer.push(to_unsigned8(*self));
        }
        assert(writer@ =~= old(writer)@ + self.wire());
        Ok(())
    }
}

impl ReadFrom for i8 {
    type Model = i8;

    open spec fn model(&self) -> i8 {
        *self
    }

    open spec fn parsed(packet_type: u8, buf: Seq<u8>, pos: int, limit: nat) -> Parsed<i8> {
        parse_i8(packet_type, buf, pos)
    }

    /// From 0xe0 on the marker itself, read as two's complement; one byte
    /// after the 8-bit marker.
    fn read_from(packet_type: u8, reader: &mut Reader<'_>) -> (r: Result<Self, DecodeError>) {
        if packet_type >= Families::NEGATIVE_FIXINT {
            Ok(to_signed8(packet_type))
        } else if packet_type == Families::INT8 {
            let byte = read_packet_type(reader)?;
            Ok(to_signed8(byte))
        } else {
            Err(DecodeError::UnexpectedMarker)
        }
    }
}

impl WriteTo for i16 {
    open spec fn wire(&self) -> Seq<u8> {
        spec_encode(ValueView::I16(*self))
    }

    open spec fn refusal(&self) -> Option<EncodeError> {
        None
    }

    fn write_to(&self, writer: &mut Vec<u8>) -> (r: Result<(), EncodeError>) {
        writer.push(Families::INT16);
        push_be16(writer, to_unsigned16(*self));
        assert(writer@ =~= old(writer)@ + self.wire());
        Ok(())
    }
}

impl ReadFrom for i16 {
    type Model = i16;

    open spec fn model(&self) -> i16 {
        *self
    }

    open spec fn parsed(packet_type: u8, buf: Seq<u8>, pos: int, limit: nat) -> Parsed<i16> {
        parse_i16(packet_type, buf, pos)
    }

    fn read_from(packet_type: u8, reader: &mut Reader<'_>) -> (r: Result<Self, DecodeError>) {
        if packet_type != Families::INT16 {
            return Err(DecodeError::UnexpectedMarker);
        }
        let bytes = reader.pull(2)?;
        Ok(to_signed16(read_be16(bytes)))
    }
}

impl WriteTo for i32 {
    open spec fn wire(&self) -> Seq<u8> {
        spec_encode(ValueView::I32(*self))
    }

    open spec fn refusal(&self) -> Option<EncodeError> {
        None
    }

    fn write_to(&self, writer: &mut Vec<u8>) -> (r: Result<(), EncodeError>) {
        writer.push(Families::INT32);
        push_be32(writer, to_unsigned32(*self));
        assert(writer@ =~= old(writer)@ + self.wire());
        Ok(())
    }
}

impl ReadFrom for i32 {
    type Model = i32;

    open spec fn model(&self) -> i32 {
        *self
    }

    open spec fn parsed(packet_type: u8, buf: Seq<u8>, pos: int, limit: nat) -> Parsed<i32> {
        parse_i32(packet_type, buf, pos)
    }

    fn read_from(packet_type: u8, reader: &mut Reader<'_>) -> (r: Result<Self, DecodeError>) {
        if packet_type != Families::INT32 {
            return Err(DecodeError::UnexpectedMarker);
        }
        let bytes = reader.pull(4)?;
        Ok(to_signed32(read_be32(bytes)))
    }
}

impl WriteTo for i64 {
    open spec fn wire(&self) -> Seq<u8> {
        spec_encode(ValueView::I64(*self))
    }

    open spec fn refusal(&self) -> Option<EncodeError> {
        None
    }

    fn write_to(&self, writer: &mut Vec<u8>) -> (r: Result<(), EncodeError>) {
        writer.push(Families::INT64);
        push_be64(writer, to_unsigned64(*self));
        assert(writer@ =~= old(writer)@ + self.wire());
        Ok(())
    }
}

impl ReadFrom for i64 {
    type Model = i64;

    open spec fn model(&self) -> i64 {
        *self
    }

    open spec fn parsed(packet_type: u8, buf: Seq<u8>, pos: int, limit: nat) -> Parsed<i64> {
        parse_i64(packet_type, buf, pos)
    }

    fn read_from(packet_type: u8, reader: &mut Reader<'_>) -> (r: Result<Self, DecodeError>) {
        if packet_type != Families::INT64 {
            return Err(DecodeError::UnexpectedMarker);
        }
        let bytes = reader.pull(8)?;
        Ok(to_signed64(read_be64(bytes)))
    }
}

} // verus!
