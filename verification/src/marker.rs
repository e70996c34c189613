//! The partition of the 256 marker bytes into the categories of the format.

use vstd::prelude::*;
use crate::constants::Families;

verus! {

/// What a marker byte announces.
#[derive(Clone, Copy, Debug, PartialEq, Eq, Structural)]
pub enum Marker {
    FixStr,
    Nil,
    Boolean,
    Binary,
    Extension,
    Float32,
    Float64,
    UInt8,
    UInt16,
    UInt32,
    UInt64,
    Int8,
    Int16,
    Int32,
    Int64,
    String,
    Array,
    FixArray,
    PosFixInt,
    NegFixInt,
    FixMap,
    Mapping,
    Unknown,
}

/// The category of each byte, read off the format's table from 0x00 upwards.
/// The one byte that the format leaves unused, 0xc1, is `Unknown`.
pub open spec fn marker_of(b: u8) -> Marker {
    if b <= 0x7f {
        Marker::PosFixInt
    } else if b <= 0x8f {
        Marker::FixMap
    } else if b <= 0x9f {
        Marker::FixArray
    } else if b <= 0xbf {
        Marker::FixStr
    } else if b == 0xc0 {
        Marker::Nil
    } else if b == 0xc1 {
        Marker::Unknown
    } else if b <= 0xc3 {
        Marker::Boolean
    } else if b <= 0xc6 {
        Marker::Binary
    } else if b <= 0xc9 {
        Marker::Extension
    } else if b == 0xca {
        Marker::Float32
    } else if b == 0xcb {
        Marker::Float64
    } else if b == 0xcc {
        Marker::UInt8
    } else if b == 0xcd {
        Marker::UInt16
    } else if b == 0xce {
        Marker::UInt32
    } else if b == 0xcf {
        Marker::UInt64
    } else if b == 0xd0 {
        Marker::Int8
    } else if b == 0xd1 {
        Marker::Int16
    } else if b == 0xd2 {
        Marker::Int32
    } else if b == 0xd3 {
        Marker::Int64
    } else if b <= 0xd8 {
        Marker::Extension
    } else if b <= 0xdb {
        Marker::String
    } else if b <= 0xdd {
        Marker::Array
    } else if b <= 0xdf {
        Marker::Mapping
    } else {
        Marker::NegFixInt
    }
}

/// Classifies a marker byte. Total: every byte has exactly one category.
pub fn classify_marker(packet_type: u8) -> (marker: Marker)
    ensures
        marker == marker_of(packet_type),
{
    let m = packet_type;
    if m == Families::NIL {
        Marker::Nil
    } else if m == Families::FALSE || m == Families::TRUE {
        Marker::Boolean
    } else if m == Families::BIN8 || m == Families::BIN16 || m == Families::BIN32 {
        Marker::Binary
    } else if m == Families::EXT8 || m == Families::EXT16 || m == Families::EXT32 {
        Marker::Extension
    } else if m == Families::FIXEXT1 || m == Families::FIXEXT2 || m == Families::FIXEXT4 || m
        == Families::FIXEXT8 || m == Families::FIXEXT16 {
        Marker::Extension
    } else if m == Families::FLOAT32 {
        Marker::Float32
    } else if m == Families::FLOAT64 {
        Marker::Float64
    } else if m == Families::UINT8 {
        Marker::UInt8
    } else if m == Families::UINT16 {
        Marker::UInt16
    } else if m == Families::UINT32 {
        Marker::UInt32
    } else if m == Families::UINT64 {
        Marker::UInt64
    } else if m == Families::INT8 {
        Marker::Int8
    } else if m == Families::INT16 {
        Marker::Int16
    } else if m == Families::INT32 {
        Marker::Int32
    } else if m == Families::INT64 {
        Marker::Int64
    } else if m == Families::STR8 || m == Families::STR16 || m == Families::STR32 {
        Marker::String
    } else if m == Families::ARRAY16 || m == Families::ARRAY32 {
        Marker::Array
    } else if m == Families::MAP16 || m == Families::MAP32 {
        Marker::Mapping
    } else if m <= Families::POSITIVE_FIXINT_LAST {
        Marker::PosFixInt
    } else if m <= Families::FIXMAP_LAST {
        Marker::FixMap
    } else if m <= Families::FIXARRAY_LAST {
        Marker::FixArray
    } else if m <= Families::FIXSTR_LAST {
        Marker::FixStr
    } else if m >= Families::NEGATIVE_FIXINT {
        Marker::NegFixInt
    } else {
        Marker::Unknown
    }
}

/// Every category is a set of bytes with the bounds given here. Since
/// `marker_of` is a function, the sets are disjoint; since the bounds below
/// leave out no byte, they cover 0x00 to 0xff. Only 0xc1 is `Unknown`.
pub proof fn lemma_marker_partition(b: u8)
    ensures
        marker_of(b) == Marker::PosFixInt <==> b <= 0x7f,
        marker_of(b) == Marker::FixMap <==> 0x80 <= b <= 0x8f,
        marker_of(b) == Marker::FixArray <==> 0x90 <= b <= 0x9f,
        marker_of(b) == Marker::FixStr <==> 0xa0 <= b <= 0xbf,
        marker_of(b) == Marker::Nil <==> b == 0xc0,
        marker_of(b) == Marker::Unknown <==> b == 0xc1,
        marker_of(b) == Marker::Boolean <==> 0xc2 <= b <= 0xc3,
        marker_of(b) == Marker::Binary <==> 0xc4 <= b <= 0xc6,
        marker_of(b) == Marker::Extension <==> 0xc7 <= b <= 0xc9 || 0xd4 <= b <= 0xd8,
        marker_of(b) == Marker::Float32 <==> b == 0xca,
        marker_of(b) == Marker::Float64 <==> b == 0xcb,
        marker_of(b) == Marker::UInt8 <==> b == 0xcc,
        marker_of(b) == Marker::UInt16 <==> b == 0xcd,
        marker_of(b) == Marker::UInt32 <==> b == 0xce,
        marker_of(b) == Marker::UInt64 <==> b == 0xcf,
        marker_of(b) == Marker::Int8 <==> b == 0xd0,
        marker_of(b) == Marker::Int16 <==> b == 0xd1,
        marker_of(b) == Marker::Int32 <==> b == 0xd2,
        marker_of(b) == Marker::Int64 <==> b == 0xd3,
        marker_of(b) == Marker::String <==> 0xd9 <= b <= 0xdb,
        marker_of(b) == Marker::Array <==> 0xdc <= b <= 0xdd,
        marker_of(b) == Marker::Mapping <==> 0xde <= b <= 0xdf,
        marker_of(b) == Marker::NegFixInt <==> 0xe0 <= b,
{
}

} // verus!
