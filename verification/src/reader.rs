//! A cursor over a byte buffer: every read is checked against the end.

use vstd::prelude::*;
use vstd::slice::slice_subrange;
use vstd::utf8::encode_utf8_decode_utf8;
use crate::bytes::{read_be16, read_be32};
use crate::constants::Families;
use crate::error::DecodeError;
use crate::grammar::{parse_byte, parse_bytes, parse_count, parse_sized_len, parse_str,
    parse_value};
use crate::marker::{classify_marker, Marker};
use crate::msgpack::array::read_array;
use crate::msgpack::map::read_map;
use crate::msgpack::ReadFrom;
use crate::utf8::str_from_utf8;
use crate::value::{lemma_view_array, lemma_view_mapping, Extension, Float32, Float64, Value};

verus! {

/// A buffer and a read position in it. The position never passes the end.
pub struct Reader<'a> {
    read: &'a [u8],
    index: usize,
    map_limit: u32,
}

impl<'a> Reader<'a> {
    #[verifier::type_invariant]
    spec fn in_bounds(self) -> bool {
        self.index <= self.read@.len()
    }

    /// The whole buffer.
    pub closed spec fn buffer(&self) -> Seq<u8> {
        self.read@
    }

    /// The read position.
    pub closed spec fn offset(&self) -> int {
        self.index as int
    }

    /// The largest number of pairs that a map may declare.
    pub closed spec fn limit(&self) -> nat {
        self.map_limit as nat
    }

    /// A reader at the start of `read`, with no limit on maps beyond that of
    /// the format.
    pub fn new(read: &'a [u8]) -> (reader: Self)
        ensures
            reader.buffer() == read@,
            reader.offset() == 0,
            reader.limit() == u32::MAX,
    {
        Reader { read, index: 0, map_limit: u32::MAX }
    }

    /// A reader at the start of `read` that refuses maps of more than
    /// `map_limit` pairs.
    pub fn with_map_limit(read: &'a [u8], map_limit: u32) -> (reader: Self)
        ensures
            reader.buffer() == read@,
            reader.offset() == 0,
            reader.limit() == map_limit,
    {
        Reader { read, index: 0, map_limit }
    }

    /// The read position.
    pub fn position(&self) -> (p: usize)
        ensures
            p == self.offset(),
            p <= self.buffer().len(),
    {
        proof {
            use_type_invariant(self);
        }
        self.index
    }

    /// The number of bytes not yet read.
    pub fn remaining(&self) -> (n: usize)
        ensures
            n == self.buffer().len() - self.offset(),
    {
        proof {
            use_type_invariant(self);
        }
        self.read.len() - self.index
    }

    /// The largest number of pairs that a map may declare.
    pub fn map_limit(&self) -> (n: u32)
        ensures
            n == self.limit(),
    {
        self.map_limit
    }

    /// Takes the next `len` bytes, or fails and takes none where fewer remain.
    pub fn pull(&mut self, len: usize) -> (r: Result<&'a [u8], DecodeError>)
        ensures
            final(self).buffer() == old(self).buffer(),
            final(self).limit() == old(self).limit(),
            match parse_bytes(old(self).buffer(), old(self).offset(), len as nat) {
                Ok((bytes, p)) => r matches Ok(got) && got@ == bytes && final(self).offset() == p,
                Err(e) => r == Err::<&[u8], DecodeError>(e)
                    && final(self).offset() == old(self).offset(),
            },
    {
        proof {
            use_type_invariant(&*self);
        }
        if len > self.read.len() - self.index {
            return Err(DecodeError::Truncated);
        }
        let start = self.index;
        let bytes = slice_subrange(self.read, start, start + len);
        self.index = start + len;
        Ok(bytes)
    }

    /// Takes the string that follows the marker `strtype`: the length as the
    /// marker gives it, then that many bytes, checked to be UTF-8. The text
    /// is a view of the buffer, not a copy.
    pub fn pull_string(&mut self, strtype: u8) -> (r: Result<&'a str, DecodeError>)
        ensures
            final(self).buffer() == old(self).buffer(),
            final(self).limit() == old(self).limit(),
            match parse_str(strtype, old(self).buffer(), old(self).offset()) {
                Ok((text, p)) => r matches Ok(got) && got@ == text && final(self).offset() == p,
                Err(e) => r matches Err(got) && got == e,
            },
    {
        let len = if Families::FIXSTR <= strtype && strtype <= Families::FIXSTR_LAST {
            (strtype - Families::FIXSTR) as usize
        } else {
            read_sized_len(Families::STR8, strtype, self)?
        };
        let bytes = self.pull(len)?;
        match str_from_utf8(bytes) {
            Some(text) => {
                proof {
                    encode_utf8_decode_utf8(text@);
                }
                Ok(text)
            },
            None => Err(DecodeError::InvalidUtf8),
        }
    }

    /// Reads the value at the read position, whatever it is.
    pub fn pull_value(&mut self) -> (r: Result<Value, DecodeError>)
        ensures
            final(self).buffer() == old(self).buffer(),
            final(self).limit() == old(self).limit(),
            match parse_value(old(self).buffer(), old(self).offset(), old(self).limit()) {
                Ok((v, p)) => r matches Ok(got) && got@ == v && final(self).offset() == p,
                Err(e) => r matches Err(got) && got == e,
            },
    {
        read_value_from_cursor(self)
    }
}

/// Takes the next byte: the marker of the value that follows.
pub fn read_packet_type(reader: &mut Reader<'_>) -> (r: Result<u8, DecodeError>)
    ensures
        final(reader).buffer() == old(reader).buffer(),
        final(reader).limit() == old(reader).limit(),
        match parse_byte(old(reader).buffer(), old(reader).offset()) {
            Ok((b, p)) => r == Ok::<u8, DecodeError>(b) && final(reader).offset() == p,
            Err(e) => r == Err::<u8, DecodeError>(e)
                && final(reader).offset() == old(reader).offset(),
        },
{
    let header = reader.pull(1)?;
    Ok(header[0])
}

/// Reads one value: takes the marker, classifies it, and hands over to the
/// decoder of its category. The byte that the format leaves unused reads as
/// nil.
pub fn read_value_from_cursor(reader: &mut Reader<'_>) -> (r: Result<Value, DecodeError>)
    ensures
        final(reader).buffer() == old(reader).buffer(),
        final(reader).limit() == old(reader).limit(),
        match parse_value(old(reader).buffer(), old(reader).offset(), old(reader).limit()) {
            Ok((v, p)) => r matches Ok(got) && got@ == v && final(reader).offset() == p,
            Err(e) => r matches Err(got) && got == e,
        },
    decreases old(reader).buffer().len() - old(reader).offset(), 0int, 0int,
{
    let packet_type = read_packet_type(reader)?;
    let marker = classify_marker(packet_type);
    match marker {
        Marker::FixStr | Marker::String => Ok(Value::Str(String::read_from(packet_type, reader)?)),
        Marker::Nil | Marker::Unknown => Ok(Value::Nil),
        Marker::Boolean => Ok(Value::Bool(bool::read_from(packet_type, reader)?)),
        Marker::Binary => Ok(Value::Bin(Vec::<u8>::read_from(packet_type, reader)?)),
        Marker::Extension => Ok(Value::Extension(Extension::read_from(packet_type, reader)?)),
        Marker::Float32 => Ok(Value::F32(Float32::read_from(packet_type, reader)?)),
        Marker::Float64 => Ok(Value::F64(Float64::read_from(packet_type, reader)?)),
        Marker::PosFixInt | Marker::UInt8 => Ok(Value::U8(u8::read_from(packet_type, reader)?)),
        Marker::UInt16 => Ok(Value::U16(u16::read_from(packet_type, reader)?)),
        Marker::UInt32 => Ok(Value::U32(u32::read_from(packet_type, reader)?)),
        Marker::UInt64 => Ok(Value::U64(u64::read_from(packet_type, reader)?)),
        Marker::NegFixInt | Marker::Int8 => Ok(Value::I8(i8::read_from(packet_type, reader)?)),
        Marker::Int16 => Ok(Value::I16(i16::read_from(packet_type, reader)?)),
        Marker::Int32 => Ok(Value::I32(i32::read_from(packet_type, reader)?)),
        Marker::Int64 => Ok(Value::I64(i64::read_from(packet_type, reader)?)),
        Marker::FixArray | Marker::Array => {
            let items = read_array(packet_type, reader)?;
            proof {
                lemma_view_array(items);
            }
            Ok(Value::Array(items))
        },
        Marker::FixMap | Marker::Mapping => {
            let pairs = read_map(packet_type, reader)?;
            proof {
                lemma_view_mapping(pairs);
            }
            Ok(Value::Mapping(pairs))
        },
    }
}

/// Reads the length field of a form of the three-tier scheme: one byte after
/// the marker `first`, two after the next marker, four after the one after.
pub fn read_sized_len(first: u8, packet_type: u8, reader: &mut Reader<'_>) -> (r: Result<
    usize,
    DecodeError,
>)
    requires
        first <= 0xfd,
    ensures
        final(reader).buffer() == old(reader).buffer(),
        final(reader).limit() == old(reader).limit(),
        match parse_sized_len(first, packet_type, old(reader).buffer(), old(reader).offset()) {
            Ok((n, p)) => r matches Ok(got) && got == n && final(reader).offset() == p,
            Err(e) => r matches Err(got) && got == e,
        },
{
    if packet_type == first {
        let n = read_packet_type(reader)?;
        Ok(n as usize)
    } else if packet_type == first + 1 {
        let bytes = reader.pull(2)?;
        Ok(read_be16(bytes) as usize)
    } else if packet_type == first + 2 {
        let bytes = reader.pull(4)?;
        Ok(read_be32(bytes) as usize)
    } else {
        Err(DecodeError::UnexpectedMarker)
    }
}

/// Reads the element count of a container: in the marker for the sixteen
/// markers from `fix` on, in two bytes after `wide`, in four after the next.
pub fn read_count(fix: u8, wide: u8, packet_type: u8, reader: &mut Reader<'_>) -> (r: Result<
    usize,
    DecodeError,
>)
    requires
        fix <= 0xf0,
        wide <= 0xfe,
    ensures
        final(reader).buffer() == old(reader).buffer(),
        final(reader).limit() == old(reader).limit(),
        match parse_count(fix, wide, packet_type, old(reader).buffer(), old(reader).offset()) {
            Ok((n, p)) => r matches Ok(got) && got == n && final(reader).offset() == p
                && old(reader).offset() <= p <= old(reader).buffer().len(),
            Err(e) => r matches Err(got) && got == e,
        },
{
    proof {
        use_type_invariant(&*reader);
    }
    if fix <= packet_type && packet_type <= fix + 15 {
        Ok((packet_type - fix) as usize)
    } else if packet_type == wide {
        let bytes = reader.pull(2)?;
        Ok(read_be16(bytes) as usize)
    } else if packet_type == wide + 1 {
        let bytes = reader.pull(4)?;
        Ok(read_be32(bytes) as usize)
    } else {
        Err(DecodeError::UnexpectedMarker)
    }
}

} // verus!
