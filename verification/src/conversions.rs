//! The payload bytes of a scalar, without a marker: numbers most significant
//! byte first, text as UTF-8.

use vstd::prelude::*;
use vstd::slice::slice_to_vec;
use vstd::std_specs::convert::FromSpecImpl;
use vstd::utf8::encode_utf8;
use crate::bytes::{push_be16, push_be32, push_be64, read_be32, read_be64, to_unsigned16,
    to_unsigned32, to_unsigned64, to_unsigned8};
use crate::family::{Deserializable, Serializable};
use crate::value::{Float32, Float64};
use crate::wire::{be16, be32, be64, from_be32, from_be64, unsigned16, unsigned32, unsigned64,
    unsigned8};

verus! {

/// The payload bytes of one scalar. Two vectors with the same bytes need not
/// be the same vector, so a conversion into this type does not claim to
/// return one chosen value (`obeys_from_spec` is false): it states the bytes
/// of its result, in the `ensures` of its `from`.
pub struct Serialized(Vec<u8>);

impl View for Serialized {
    type V = Seq<u8>;

    closed spec fn view(&self) -> Seq<u8> {
        self.0@
    }
}

impl Serialized {
    /// The bytes.
    pub fn as_bytes(&self) -> (bytes: &Vec<u8>)
        ensures
            bytes@ == self@,
    {
        &self.0
    }

    /// The bytes, by value.
    pub fn into_bytes(self) -> (bytes: Vec<u8>)
        ensures
            bytes@ == self@,
    {
        self.0
    }
}

impl From<u8> for Serialized {
    fn from(value: u8) -> (s: Serialized)
        ensures
            s@ == seq![value],
    {
        let mut bytes: Vec<u8> = Vec::new();
        bytes.push(value);
        assert(bytes@ =~= seq![value]);
        Serialized(bytes)
    }
}

impl FromSpecImpl<u8> for Serialized {
    open spec fn obeys_from_spec() -> bool {
        false
    }

    open spec fn from_spec(value: u8) -> Serialized {
        choose|s: Serialized| s@ == seq![value]
    }
}

impl From<u16> for Serialized {
    fn from(value: u16) -> (s: Serialized)
        ensures
            s@ == be16(value),
    {
        let mut bytes: Vec<u8> = Vec::new();
        push_be16(&mut bytes, value);
        assert(bytes@ =~= be16(value));
        Serialized(bytes)
    }
}

impl FromSpecImpl<u16> for Serialized {
    open spec fn obeys_from_spec() -> bool {
        false
    }

    open spec fn from_spec(value: u16) -> Serialized {
        choose|s: Serialized| s@ == be16(value)
    }
}

impl From<u32> for Serialized {
    fn from(value: u32) -> (s: Serialized)
        ensures
            s@ == be32(value),
    {
        let mut bytes: Vec<u8> = Vec::new();
        push_be32(&mut bytes, value);
        assert(bytes@ =~= be32(value));
        Serialized(bytes)
    }
}

impl FromSpecImpl<u32> for Serialized {
    open spec fn obeys_from_spec() -> bool {
        false
    }

    open spec fn from_spec(value: u32) -> Serialized {
        choose|s: Serialized| s@ == be32(value)
    }
}

impl From<u64> for Serialized {
    fn from(value: u64) -> (s: Serialized)
        ensures
            s@ == be64(value),
    {
        let mut bytes: Vec<u8> = Vec::new();
        push_be64(&mut bytes, value);
        assert(bytes@ =~= be64(value));
        Serialized(bytes)
    }
}

impl FromSpecImpl<u64> for Serialized {
    open spec fn obeys_from_spec() -> bool {
        false
    }

    open spec fn from_spec(value: u64) -> Serialized {
        choose|s: Serialized| s@ == be64(value)
    }
}

impl From<i8> for Serialized {
    fn from(value: i8) -> (s: Serialized)
        ensures
            s@ == seq![unsigned8(value)],
    {
        let mut bytes: Vec<u8> = Vec::new();
        bytes.push(to_unsigned8(value));
        assert(bytes@ =~= seq![unsigned8(value)]);
        Serialized(bytes)
    }
}

impl FromSpecImpl<i8> for Serialized {
    open spec fn obeys_from_spec() -> bool {
        false
    }

    open spec fn from_spec(value: i8) -> Serialized {
        choose|s: Serialized| s@ == seq![unsigned8(value)]
    }
}

impl From<i16> for Serialized {
    fn from(value: i16) -> (s: Serialized)
        ensures
            s@ == be16(unsigned16(value)),
    {
        let mut bytes: Vec<u8> = Vec::new();
        push_be16(&mut bytes, to_unsigned16(value));
        assert(bytes@ =~= be16(unsigned16(value)));
        Serialized(bytes)
    }
}

impl FromSpecImpl<i16> for Serialized {
    open spec fn obeys_from_spec() -> bool {
        false
    }

    open spec fn from_spec(value: i16) -> Serialized {
        choose|s: Serialized| s@ == be16(unsigned16(value))
    }
}

impl From<i32> for Serialized {
    fn from(value: i32) -> (s: Serialized)
        ensures
            s@ == be32(unsigned32(value)),
    {
        let mut bytes: Vec<u8> = Vec::new();
        push_be32(&mut bytes, to_unsigned32(value));
        assert(bytes@ =~= be32(unsigned32(value)));
        Serialized(bytes)
    }
}

impl FromSpecImpl<i32> for Serialized {
    open spec fn obeys_from_spec() -> bool {
        false
    }

    open spec fn from_spec(value: i32) -> Serialized {
        choose|s: Serialized| s@ == be32(unsigned32(value))
    }
}

impl From<i64> for Serialized {
    fn from(value: i64) -> (s: Serialized)
        ensures
            s@ == be64(unsigned64(value)),
    {
        let mut bytes: Vec<u8> = Vec::new();
        push_be64(&mut bytes, to_unsigned64(value));
        assert(bytes@ =~= be64(unsigned64(value)));
        Serialized(bytes)
    }
}

impl FromSpecImpl<i64> for Serialized {
    open spec fn obeys_from_spec() -> bool {
        false
    }

    open spec fn from_spec(value: i64) -> Serialized {
        choose|s: Serialized| s@ == be64(unsigned64(value))
    }
}

impl From<Float32> for Serialized {
    fn from(value: Float32) -> (s: Serialized)
        ensures
            s@ == be32(value.bits),
    {
        let mut bytes: Vec<u8> = Vec::new();
        push_be32(&mut bytes, value.bits);
        assert(bytes@ =~= be32(value.bits));
        Serialized(bytes)
    }
}

impl FromSpecImpl<Float32> for Serialized {
    open spec fn obeys_from_spec() -> bool {
        false
    }

    open spec fn from_spec(value: Float32) -> Serialized {
        choose|s: Serialized| s@ == be32(value.bits)
    }
}

impl From<Float64> for Serialized {
    fn from(value: Float64) -> (s: Serialized)
        ensures
            s@ == be64(value.bits),
    {
        let mut bytes: Vec<u8> = Vec::new();
        push_be64(&mut bytes, value.bits);
        assert(bytes@ =~= be64(value.bits));
        Serialized(bytes)
    }
}

impl FromSpecImpl<Float64> for Serialized {
    open spec fn obeys_from_spec() -> bool {
        false
    }

    open spec fn from_spec(value: Float64) -> Serialized {
        choose|s: Serialized| s@ == be64(value.bits)
    }
}

impl From<String> for Serialized {
    fn from(value: String) -> (s: Serialized)
        ensures
            s@ == encode_utf8(value@),
    {
        Serialized(slice_to_vec(value.as_str().as_bytes()))
    }
}

impl FromSpecImpl<String> for Serialized {
    open spec fn obeys_from_spec() -> bool {
        false
    }

    open spec fn from_spec(value: String) -> Serialized {
        choose|s: Serialized| s@ == encode_utf8(value@)
    }
}

/// The bits that four payload bytes spell; zero, the bits of 0.0, where the
/// payload is not four bytes long.
pub open spec fn float32_of(bytes: Seq<u8>) -> Float32 {
    if bytes.len() == 4 {
        Float32 { bits: from_be32(bytes[0], bytes[1], bytes[2], bytes[3]) }
    } else {
        Float32 { bits: 0 }
    }
}

/// The bits that eight payload bytes spell; zero, the bits of 0.0, where the
/// payload is not eight bytes long.
pub open spec fn float64_of(bytes: Seq<u8>) -> Float64 {
    if bytes.len() == 8 {
        Float64 {
            bits: from_be64(
                from_be32(bytes[0], bytes[1], bytes[2], bytes[3]),
                from_be32(bytes[4], bytes[5], bytes[6], bytes[7]),
            ),
        }
    } else {
        Float64 { bits: 0 }
    }
}

impl From<Serialized> for Float32 {
    fn from(value: Serialized) -> (x: Float32)
        ensures
            x == float32_of(value@),
    {
        if value.0.len() != 4 {
            return Float32 { bits: 0 };
        }
        Float32 { bits: read_be32(value.0.as_slice()) }
    }
}

impl FromSpecImpl<Serialized> for Float32 {
    open spec fn obeys_from_spec() -> bool {
        true
    }

    open spec fn from_spec(value: Serialized) -> Float32 {
        float32_of(value@)
    }
}

impl From<Serialized> for Float64 {
    fn from(value: Serialized) -> (x: Float64)
        ensures
            x == float64_of(value@),
    {
        if value.0.len() != 8 {
            return Float64 { bits: 0 };
        }
        Float64 { bits: read_be64(value.0.as_slice()) }
    }
}

impl FromSpecImpl<Serialized> for Float64 {
    open spec fn obeys_from_spec() -> bool {
        true
    }

    open spec fn from_spec(value: Serialized) -> Float64 {
        float64_of(value@)
    }
}

impl Serializable for Serialized {
    open spec fn serialized(&self) -> Seq<u8> {
        self@
    }

    fn serialize(&self) -> (bytes: Vec<u8>) {
        slice_to_vec(self.0.as_slice())
    }
}

impl Deserializable for Serialized {
    open spec fn stands_for(bytes: Seq<u8>, out: Serialized) -> bool {
        out@ == bytes
    }

    fn deserialize(bytes: &[u8]) -> (out: Serialized) {
        Serialized(slice_to_vec(bytes))
    }
}

} // verus!
