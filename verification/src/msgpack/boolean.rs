//! Booleans: one marker for each.

use vstd::prelude::*;
use crate::constants::Families;
use crate::error::{DecodeError, EncodeError};
use crate::grammar::{parse_bool, Parsed};
use crate::msgpack::{ReadFrom, WriteTo};
use crate::reader::Reader;
use crate::value::ValueView;
use crate::wire::spec_encode;

verus! {

impl WriteTo for bool {
    open spec fn wire(&self) -> Seq<u8> {
        spec_encode(ValueView::Bool(*self))
    }

    open spec fn refusal(&self) -> Option<EncodeError> {
        None
    }

    fn write_to(&self, writer: &mut Vec<u8>) -> (r: Result<(), EncodeError>) {
        let byte = if *self {
            Families::TRUE
        } else {
            Families::FALSE
        };
        writer.push(byte);
        assert(writer@ =~= old(writer)@ + self.wire());
        Ok(())
    }
}

impl ReadFrom for bool {
    type Model = bool;

    open spec fn model(&self) -> bool {
        *self
    }

    open spec fn parsed(packet_type: u8, buf: Seq<u8>, pos: int, limit: nat) -> Parsed<bool> {
        parse_bool(packet_type, pos)
    }

    fn read_from(packet_type: u8, reader: &mut Reader<'_>) -> (r: Result<Self, DecodeError>) {
        if packet_type == Families::TRUE {
            Ok(true)
        } else if packet_type == Families::FALSE {
            Ok(false)
        } else {
            Err(DecodeError::UnexpectedMarker)
        }
    }
}

} // verus!
