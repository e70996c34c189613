//! One encoder and one decoder for each type of the format.

use vstd::prelude::*;
use crate::error::{DecodeError, EncodeError};
use crate::grammar::Parsed;
use crate::reader::Reader;

pub mod array;
pub mod bin;
pub mod boolean;
pub mod ext;
pub mod float;
pub mod integer;
pub mod map;
pub mod null;
pub mod string;
pub mod value;

verus! {

/// What a call of `write_to` did: with no refusal, the value's bytes were
/// appended; with one, it is returned and nothing already in the sink changed.
pub open spec fn written(
    before: Seq<u8>,
    after: Seq<u8>,
    r: Result<(), EncodeError>,
    wire: Seq<u8>,
    refusal: Option<EncodeError>,
) -> bool {
    match refusal {
        None => r is Ok && after == before + wire,
        Some(e) => r == Err::<(), EncodeError>(e) && before.is_prefix_of(after),
    }
}

/// A type that can be written in the wire format.
pub trait WriteTo {
    /// The bytes that the value is written as.
    spec fn wire(&self) -> Seq<u8>;

    /// Why the value cannot be written, if it cannot.
    spec fn refusal(&self) -> Option<EncodeError>;

    /// Appends the value to `writer`.
    fn write_to(&self, writer: &mut Vec<u8>) -> (r: Result<(), EncodeError>)
        ensures
            written(old(writer)@, final(writer)@, r, self.wire(), self.refusal()),
    ;
}

/// A type that can be read in the wire format, once its marker is known.
pub trait ReadFrom: Sized {
    /// What a value of the type stands for.
    type Model;

    /// What this value stands for.
    spec fn model(&self) -> Self::Model;

    /// What lies at `pos` after the marker `packet_type`, and where it ends.
    spec fn parsed(packet_type: u8, buf: Seq<u8>, pos: int, limit: nat) -> Parsed<Self::Model>;

    /// Reads the value that follows the marker `packet_type`.
    fn read_from(packet_type: u8, reader: &mut Reader<'_>) -> (r: Result<Self, DecodeError>)
        ensures
            final(reader).buffer() == old(reader).buffer(),
            final(reader).limit() == old(reader).limit(),
            match Self::parsed(
                packet_type,
                old(reader).buffer(),
                old(reader).offset(),
                old(reader).limit(),
            ) {
                Ok((m, p)) => r matches Ok(x) && x.model() == m && final(reader).offset() == p,
                Err(e) => r matches Err(got) && got == e,
            },
    ;
}

} // verus!
