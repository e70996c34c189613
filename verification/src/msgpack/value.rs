//! The value tree: each variant goes to the encoder of its type.

use vstd::prelude::*;
use crate::constants::Families;
use crate::error::EncodeError;
use crate::msgpack::array::write_array;
use crate::msgpack::map::write_map;
use crate::msgpack::{written, WriteTo};
use crate::value::{lemma_view_array, lemma_view_mapping, Value};
use crate::wire::{encode_error, spec_encode};

verus! {

/// Appends a value, whatever its variant. Stops at the first part that
/// cannot be written.
pub fn write_value(value: &Value, writer: &mut Vec<u8>) -> (r: Result<(), EncodeError>)
    ensures
        written(old(writer)@, final(writer)@, r, spec_encode(value@), encode_error(value@)),
    decreases value,
{
    match value {
        Value::Nil => {
            writer.push(Families::NIL);
            assert(writer@ =~= old(writer)@ + spec_encode(value@));
            Ok(())
        },
        Value::Bool(x) => x.write_to(writer),
        Value::U8(x) => x.write_to(writer),
        Value::U16(x) => x.write_to(writer),
        Value::U32(x) => x.write_to(writer),
        Value::U64(x) => x.write_to(writer),
        Value::F32(x) => x.write_to(writer),
        Value::F64(x) => x.write_to(writer),
        Value::I8(x) => x.write_to(writer),
        Value::I16(x) => x.write_to(writer),
        Value::I32(x) => x.write_to(writer),
        Value::I64(x) => x.write_to(writer),
        Value::Str(x) => x.write_to(writer),
        Value::Bin(x) => x.write_to(writer),
        Value::Array(items) => {
            proof {
                lemma_view_array(*items);
            }
            write_array(items, writer)
        },
        Value::Mapping(pairs) => {
            proof {
                lemma_view_mapping(*pairs);
            }
            write_map(pairs, writer)
        },
        Value::Extension(x) => x.write_to(writer),
    }
}

impl WriteTo for Value {
    open spec fn wire(&self) -> Seq<u8> {
        spec_encode(self@)
    }

    open spec fn refusal(&self) -> Option<EncodeError> {
        encode_error(self@)
    }

    fn write_to(&self, writer: &mut Vec<u8>) -> (r: Result<(), EncodeError>) {
        write_value(self, writer)
    }
}

} // verus!
