//! Strings: a header that holds the length in UTF-8 bytes, then the bytes.

use vstd::prelude::*;
use vstd::utf8::encode_utf8;
use crate::bytes::{push_be16, push_be32};
use crate::constants::{Families, MAX_STR_LEN};
use crate::error::{DecodeError, EncodeError};
use crate::grammar::{parse_str, Parsed};
use crate::msgpack::{ReadFrom, WriteTo};
use crate::reader::Reader;
use crate::value::ValueView;
use crate::wire::{encode_error, spec_encode, str_header};

verus! {

/// Appends the header of a string of `len` bytes: the narrowest form that
/// holds the length. Refuses a length above 2^31 and then writes nothing.
pub fn write_str_header(len: usize, writer: &mut Vec<u8>) -> (r: Result<(), EncodeError>)
    ensures
        len <= 0x8000_0000 ==> r is Ok && final(writer)@ == old(writer)@ + str_header(len as nat),
        len > 0x8000_0000 ==> r == Err::<(), EncodeError>(EncodeError::StringTooLong)
            && final(writer)@ == old(writer)@,
{
    if len <= 31 {
        writer.push(Families::FIXSTR + len as u8);
    } else if len <= 255 {
        writer.push(Families::STR8);
        writer.push(len as u8);
    } else if len <= 65535 {
        writer.push(Families::STR16);
        push_be16(writer, len as u16);
    } else if len <= MAX_STR_LEN {
        writer.push(Families::STR32);
        push_be32(writer, len as u32);
    } else {
        return Err(EncodeError::StringTooLong);
    }
    assert(writer@ =~= old(writer)@ + str_header(len as nat));
    Ok(())
}

impl WriteTo for String {
    open spec fn wire(&self) -> Seq<u8> {
        spec_encode(ValueView::Str(self@))
    }

    open spec fn refusal(&self) -> Option<EncodeError> {
        encode_error(ValueView::Str(self@))
    }

    fn write_to(&self, writer: &mut Vec<u8>) -> (r: Result<(), EncodeError>) {
        let bytes = self.as_str().as_bytes();
        match write_str_header(bytes.len(), writer) {
            Ok(()) => {
                let ghost mid = writer@;
                writer.extend_from_slice(bytes);
                assert(writer@ =~= mid + encode_utf8(self@));
                assert(writer@ =~= old(writer)@ + self.wire());
                Ok(())
            },
            Err(e) => {
                assert(old(writer)@.is_prefix_of(writer@));
                Err(e)
            },
        }
    }
}

impl ReadFrom for String {
    type Model = Seq<char>;

    open spec fn model(&self) -> Seq<char> {
        self@
    }

    open spec fn parsed(packet_type: u8, buf: Seq<u8>, pos: int, limit: nat) -> Parsed<
        Seq<char>,
    > {
        parse_str(packet_type, buf, pos)
    }

    /// An owned copy of the text that `pull_string` finds.
    fn read_from(packet_type: u8, reader: &mut Reader<'_>) -> (r: Result<Self, DecodeError>) {
        let text = reader.pull_string(packet_type)?;
        Ok(text.to_owned())
    }
}

} // verus!
