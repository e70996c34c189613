//! Binary blobs: a header of the three-tier scheme, then the bytes.

use vstd::prelude::*;
use vstd::slice::slice_to_vec;
use crate::bytes::{push_be16, push_be32};
use crate::constants::{Families, MAX_BIN_LEN};
use crate::error::{DecodeError, EncodeError};
use crate::grammar::{parse_bin, Parsed};
use crate::msgpack::{ReadFrom, WriteTo};
use crate::reader::{read_sized_len, Reader};
use crate::value::ValueView;
use crate::wire::{encode_error, sized_header, spec_encode};

verus! {

/// Appends a header of the three-tier scheme for `len` payload bytes: the
/// marker `first` with one length byte up to 255, the next marker with two up
/// to 65535, the one after with four. Returns `false`, and writes nothing,
/// where the length does not fit 32 bits.
pub fn write_sized_header(first: u8, len: usize, writer: &mut Vec<u8>) -> (fits: bool)
    requires
        first <= 0xfd,
    ensures
        fits == (len <= 0xffff_ffff),
        fits ==> final(writer)@ == old(writer)@ + sized_header(first, len as nat),
        !fits ==> final(writer)@ == old(writer)@,
{
    if len <= 255 {
        writer.push(first);
        writer.push(len as u8);
    } else if len <= 65535 {
        writer.push(first + 1);
        push_be16(writer, len as u16);
    } else if len <= MAX_BIN_LEN {
        writer.push(first + 2);
        push_be32(writer, len as u32);
    } else {
        return false;
    }
    assert(writer@ =~= old(writer)@ + sized_header(first, len as nat));
    true
}

impl WriteTo for Vec<u8> {
    open spec fn wire(&self) -> Seq<u8> {
        spec_encode(ValueView::Bin(self@))
    }

    open spec fn refusal(&self) -> Option<EncodeError> {
        encode_error(ValueView::Bin(self@))
    }

    fn write_to(&self, writer: &mut Vec<u8>) -> (r: Result<(), EncodeError>) {
        if !write_sized_header(Families::BIN8, self.len(), writer) {
            assert(old(writer)@.is_prefix_of(writer@));
            return Err(EncodeError::BinaryTooLong);
        }
        let ghost mid = writer@;
        writer.extend_from_slice(self.as_slice());
        assert(writer@ =~= mid + self@);
        assert(writer@ =~= old(writer)@ + self.wire());
        Ok(())
    }
}

impl ReadFrom for Vec<u8> {
    type Model = Seq<u8>;

    open spec fn model(&self) -> Seq<u8> {
        self@
    }

    open spec fn parsed(packet_type: u8, buf: Seq<u8>, pos: int, limit: nat) -> Parsed<Seq<u8>> {
        parse_bin(packet_type, buf, pos)
    }

    /// The length, then exactly that many bytes; nothing is allocated before
    /// the bytes are known to be there.
    fn read_from(packet_type: u8, reader: &mut Reader<'_>) -> (r: Result<Self, DecodeError>) {
        let len = read_sized_len(Families::BIN8, packet_type, reader)?;
        let bytes = reader.pull(len)?;
        Ok(slice_to_vec(bytes))
    }
}

} // verus!
