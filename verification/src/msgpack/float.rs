//! Floating-point numbers: the marker, then the IEEE-754 bits as they are.

use vstd::prelude::*;
use crate::bytes::{push_be32, push_be64, read_be32, read_be64};
use crate::constants::Families;
use crate::error::{DecodeError, EncodeError};
use crate::grammar::{parse_float32, parse_float64, Parsed};
use crate::msgpack::{ReadFrom, WriteTo};
use crate::reader::Reader;
use crate::value::{Float32, Float64, ValueView};
use crate::wire::spec_encode;

verus! {

impl WriteTo for Float32 {
    open spec fn wire(&self) -> Seq<u8> {
        spec_encode(ValueView::F32(*self))
    }

    open spec fn refusal(&self) -> Option<EncodeError> {
        None
    }

    fn write_to(&self, writer: &mut Vec<u8>) -> (r: Result<(), EncodeError>) {
        writer.push(Families::FLOAT32);
        push_be32(writer, self.bits);
        assert(writer@ =~= old(writer)@ + self.wire());
        Ok(())
    }
}

impl ReadFrom for Float32 {
    type Model = Float32;

    open spec fn model(&self) -> Float32 {
        *self
    }

    open spec fn parsed(packet_type: u8, buf: Seq<u8>, pos: int, limit: nat) -> Parsed<Float32> {
        parse_float32(packet_type, buf, pos)
    }

    fn read_from(packet_type: u8, reader: &mut Reader<'_>) -> (r: Result<Self, DecodeError>) {
        if packet_type != Families::FLOAT32 {
            return Err(DecodeError::UnexpectedMarker);
        }
        let bytes = reader.pull(4)?;
        Ok(Float32 { bits: read_be32(bytes) })
    }
}

impl WriteTo for Float64 {
    open spec fn wire(&self) -> Seq<u8> {
        spec_encode(ValueView::F64(*self))
    }

    open spec fn refusal(&self) -> Option<EncodeError> {
        None
    }

    fn write_to(&self, writer: &mut Vec<u8>) -> (r: Result<(), EncodeError>) {
        writer.push(Families::FLOAT64);
        push_be64(writer, self.bits);
        assert(writer@ =~= old(writer)@ + self.wire());
        Ok(())
    }
}

impl ReadFrom for Float64 {
    type Model = Float64;

    open spec fn model(&self) -> Float64 {
        *self
    }

    open spec fn parsed(packet_type: u8, buf: Seq<u8>, pos: int, limit: nat) -> Parsed<Float64> {
        parse_float64(packet_type, buf, pos)
    }

    fn read_from(packet_type: u8, reader: &mut Reader<'_>) -> (r: Result<Self, DecodeError>) {
        if packet_type != Families::FLOAT64 {
            return Err(DecodeError::UnexpectedMarker);
        }
        let bytes = reader.pull(8)?;
        Ok(Float64 { bits: read_be64(bytes) })
    }
}

} // verus!
