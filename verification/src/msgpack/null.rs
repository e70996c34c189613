//! Nil, and optional values, of which only the discriminant is written.

use vstd::prelude::*;
use crate::constants::Families;
use crate::error::{DecodeError, EncodeError};
use crate::grammar::{parse_option, Parsed};
use crate::msgpack::{ReadFrom, WriteTo};
use crate::reader::Reader;

verus! {

impl<O> WriteTo for Option<O> {
    /// Nil for `None`; the byte after nil for `Some`, whatever it holds.
    open spec fn wire(&self) -> Seq<u8> {
        if self is None {
            seq![0xc0u8]
        } else {
            seq![0xc1u8]
        }
    }

    open spec fn refusal(&self) -> Option<EncodeError> {
        None
    }

    fn write_to(&self, writer: &mut Vec<u8>) -> (r: Result<(), EncodeError>) {
        match self {
            None => writer.push(Families::NIL),
            Some(_) => writer.push(Families::RESERVED),
        }
        assert(writer@ =~= old(writer)@ + self.wire());
        Ok(())
    }
}

impl ReadFrom for Option<()> {
    type Model = Option<()>;

    open spec fn model(&self) -> Option<()> {
        *self
    }

    open spec fn parsed(packet_type: u8, buf: Seq<u8>, pos: int, limit: nat) -> Parsed<
        Option<()>,
    > {
        parse_option(packet_type, pos)
    }

    fn read_from(packet_type: u8, reader: &mut Reader<'_>) -> (r: Result<Self, DecodeError>) {
        if packet_type == Families::NIL {
            Ok(None)
        } else if packet_type == Families::RESERVED {
            Ok(Some(()))
        } else {
            Err(DecodeError::UnexpectedMarker)
        }
    }
}

} // verus!
