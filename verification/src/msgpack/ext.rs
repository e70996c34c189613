//! Extensions: a length, an application-defined tag, a payload.

use vstd::prelude::*;
use vstd::slice::slice_to_vec;
use crate::constants::Families;
use crate::error::{DecodeError, EncodeError};
use crate::grammar::{parse_ext, Parsed};
use crate::msgpack::bin::write_sized_header;
use crate::msgpack::{ReadFrom, WriteTo};
use crate::reader::{read_packet_type, read_sized_len, Reader};
use crate::value::{Extension, ExtensionView, ValueView};
use crate::wire::{encode_error, spec_encode};

verus! {

impl WriteTo for Extension {
    open spec fn wire(&self) -> Seq<u8> {
        spec_encode(ValueView::Extension(self@))
    }

    open spec fn refusal(&self) -> Option<EncodeError> {
        encode_error(ValueView::Extension(self@))
    }

    /// Always a form with a length field: the narrowest that holds the
    /// payload's length.
    fn write_to(&self, writer: &mut Vec<u8>) -> (r: Result<(), EncodeError>) {
        let data = self.data();
        if !write_sized_header(Families::EXT8, data.len(), writer) {
            assert(old(writer)@.is_prefix_of(writer@));
            return Err(EncodeError::ExtensionTooLong);
        }
        writer.push(self.type_tag());
        let ghost mid = writer@;
        writer.extend_from_slice(data.as_slice());
        assert(writer@ =~= mid + data@);
        assert(writer@ =~= old(writer)@ + self.wire());
        Ok(())
    }
}

/// The payload length that a marker of the fixed forms stands for.
pub fn fixed_ext_len(packet_type: u8) -> (len: Option<usize>)
    ensures
        packet_type == 0xd4 ==> len == Some(1usize),
        packet_type == 0xd5 ==> len == Some(2usize),
        packet_type == 0xd6 ==> len == Some(4usize),
        packet_type == 0xd7 ==> len == Some(8usize),
        packet_type == 0xd8 ==> len == Some(16usize),
        !(0xd4 <= packet_type <= 0xd8) ==> len is None,
{
    if packet_type == Families::FIXEXT1 {
        Some(1)
    } else if packet_type == Families::FIXEXT2 {
        Some(2)
    } else if packet_type == Families::FIXEXT4 {
        Some(4)
    } else if packet_type == Families::FIXEXT8 {
        Some(8)
    } else if packet_type == Families::FIXEXT16 {
        Some(16)
    } else {
        None
    }
}

impl ReadFrom for Extension {
    type Model = ExtensionView;

    open spec fn model(&self) -> ExtensionView {
        self@
    }

    open spec fn parsed(packet_type: u8, buf: Seq<u8>, pos: int, limit: nat) -> Parsed<
        ExtensionView,
    > {
        parse_ext(packet_type, buf, pos)
    }

    /// The length comes from the marker for the fixed forms, else from a
    /// field as wide as the marker says; then the tag, then the payload.
    fn read_from(packet_type: u8, reader: &mut Reader<'_>) -> (r: Result<Self, DecodeError>) {
        let len = match fixed_ext_len(packet_type) {
            Some(len) => len,
            None => read_sized_len(Families::EXT8, packet_type, reader)?,
        };
        let tag = read_packet_type(reader)?;
        let data = reader.pull(len)?;
        Ok(Extension::new(tag, slice_to_vec(data)))
    }
}

} // verus!
