//! The two ends of a conversion between a type and its bytes.

use vstd::prelude::*;

verus! {

/// A type whose values have bytes of their own.
pub trait Serializable {
    /// The bytes of the value.
    spec fn serialized(&self) -> Seq<u8>;

    fn serialize(&self) -> (bytes: Vec<u8>)
        ensures
            bytes@ == self.serialized(),
    ;
}

/// A type whose values are made from bytes.
pub trait Deserializable: Sized {
    /// `out` is the value that `bytes` stand for.
    spec fn stands_for(bytes: Seq<u8>, out: Self) -> bool;

    fn deserialize(bytes: &[u8]) -> (out: Self)
        ensures
            Self::stands_for(bytes@, out),
    ;
}

} // verus!
