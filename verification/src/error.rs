//! What can go wrong while encoding or decoding.

use vstd::prelude::*;

verus! {

/// Why a value could not be encoded: one of its lengths does not fit the
/// length field of the widest form.
#[derive(Clone, Copy, Debug, PartialEq, Eq, Structural)]
pub enum EncodeError {
    /// A string of more than 2^31 UTF-8 bytes.
    StringTooLong,
    /// A binary blob of more than 2^32 - 1 bytes.
    BinaryTooLong,
    /// An extension payload of more than 2^32 - 1 bytes.
    ExtensionTooLong,
    /// An array of 2^32 - 1 elements or more.
    ArrayTooLong,
    /// A map of 2^32 - 1 pairs or more.
    MapTooLong,
}

/// Why a buffer could not be decoded.
#[derive(Clone, Copy, Debug, PartialEq, Eq, Structural)]
pub enum DecodeError {
    /// Fewer bytes remain than the field being read is wide.
    Truncated,
    /// A string payload that is not valid UTF-8.
    InvalidUtf8,
    /// A typed decoder was handed a marker of another type.
    UnexpectedMarker,
    /// A map declares more pairs than the reader's limit allows.
    MapTooLarge,
}

} // verus!
