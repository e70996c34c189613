//! The two entry points: a value to its bytes, and bytes to a value.

use vstd::prelude::*;
use crate::error::{DecodeError, EncodeError};
use crate::grammar::parse_value;
use crate::msgpack::value::write_value;
use crate::reader::{read_value_from_cursor, Reader};
use crate::value::Value;
use crate::wire::{encode_error, spec_encode};

verus! {

/// The bytes of `value`, or the reason why it has none.
pub fn encode(value: &Value) -> (r: Result<Vec<u8>, EncodeError>)
    ensures
        match encode_error(value@) {
            None => r matches Ok(bytes) && bytes@ == spec_encode(value@),
            Some(e) => r matches Err(got) && got == e,
        },
{
    let mut buffer: Vec<u8> = Vec::new();
    match write_value(value, &mut buffer) {
        Ok(()) => {
            assert(buffer@ =~= spec_encode(value@));
            Ok(buffer)
        },
        Err(e) => Err(e),
    }
}

/// The value that stands at the start of `bytes`; what follows it is not
/// looked at. Maps are limited by the format alone.
pub fn decode(bytes: &[u8]) -> (r: Result<Value, DecodeError>)
    ensures
        match parse_value(bytes@, 0, u32::MAX as nat) {
            Ok((v, _)) => r matches Ok(got) && got@ == v,
            Err(e) => r matches Err(got) && got == e,
        },
{
    let mut reader = Reader::new(bytes);
    read_value_from_cursor(&mut reader)
}

/// The value that stands at the start of `bytes`, where no map may declare
/// more than `map_limit` pairs.
pub fn decode_with_limit(bytes: &[u8], map_limit: u32) -> (r: Result<Value, DecodeError>)
    ensures
        match parse_value(bytes@, 0, map_limit as nat) {
            Ok((v, _)) => r matches Ok(got) && got@ == v,
            Err(e) => r matches Err(got) && got == e,
        },
{
    let mut reader = Reader::with_map_limit(bytes, map_limit);
    read_value_from_cursor(&mut reader)
}

} // verus!
