use msgpackp::bytes::{push_be16, push_be32, push_be64, read_be16, read_be32, read_be64,
    to_signed16, to_signed32, to_signed64, to_signed8, to_unsigned16, to_unsigned32,
    to_unsigned64, to_unsigned8};
use msgpackp::constants::{Families, CONTAINER_CEILING, MAX_BIN_LEN, MAX_STR_LEN};
use msgpackp::conversions::Serialized;
use msgpackp::error::{DecodeError, EncodeError};
use msgpackp::family::{Deserializable, Serializable};
use msgpackp::marker::{classify_marker, Marker};
use msgpackp::msgpack::array::{write_array, write_count_header, Array};
use msgpackp::msgpack::bin::write_sized_header;
use msgpackp::msgpack::ext::fixed_ext_len;
use msgpackp::msgpack::map::write_map;
use msgpackp::msgpack::string::write_str_header;
use msgpackp::msgpack::value::write_value;
use msgpackp::reader::{read_count, read_packet_type, read_sized_len, Reader};
use msgpackp::value::{Extension, Float32, Float64, Value};

fn expected_marker(b: u8) -> Marker {
    match b {
        0x00..=0x7f => Marker::PosFixInt,
        0x80..=0x8f => Marker::FixMap,
        0x90..=0x9f => Marker::FixArray,
        0xa0..=0xbf => Marker::FixStr,
        0xc0 => Marker::Nil,
        0xc1 => Marker::Unknown,
        0xc2 | 0xc3 => Marker::Boolean,
        0xc4..=0xc6 => Marker::Binary,
        0xc7..=0xc9 => Marker::Extension,
        0xca => Marker::Float32,
        0xcb => Marker::Float64,
        0xcc => Marker::UInt8,
        0xcd => Marker::UInt16,
        0xce => Marker::UInt32,
        0xcf => Marker::UInt64,
        0xd0 => Marker::Int8,
        0xd1 => Marker::Int16,
        0xd2 => Marker::Int32,
        0xd3 => Marker::Int64,
        0xd4..=0xd8 => Marker::Extension,
        0xd9..=0xdb => Marker::String,
        0xdc | 0xdd => Marker::Array,
        0xde | 0xdf => Marker::Mapping,
        0xe0..=0xff => Marker::NegFixInt,
    }
}

#[test]
fn every_byte_has_one_category() {
    for b in 0u8..=255 {
        let first = classify_marker(b);
        let second = classify_marker(b);
        assert_eq!(first, second);
        assert_eq!(first, expected_marker(b), "byte {:#x}", b);
    }
    let unknown: Vec<u8> = (0u8..=255).filter(|b| classify_marker(*b) == Marker::Unknown).collect();
    assert_eq!(unknown, vec![0xc1]);
}

#[test]
fn range_edges_of_the_marker_table() {
    assert_eq!(classify_marker(0x7f), Marker::PosFixInt);
    assert_eq!(classify_marker(0x80), Marker::FixMap);
    assert_eq!(classify_marker(0x8f), Marker::FixMap);
    assert_eq!(classify_marker(0x90), Marker::FixArray);
    assert_eq!(classify_marker(0x9f), Marker::FixArray);
    assert_eq!(classify_marker(0xa0), Marker::FixStr);
    assert_eq!(classify_marker(0xbf), Marker::FixStr);
    assert_eq!(classify_marker(0xdf), Marker::Mapping);
    assert_eq!(classify_marker(0xe0), Marker::NegFixInt);
}

#[test]
fn marker_table_holds_the_format_s_bytes() {
    assert_eq!(Families::POSITIVE_FIXINT, 0x00);
    assert_eq!(Families::FIXMAP, 0x80);
    assert_eq!(Families::FIXARRAY, 0x90);
    assert_eq!(Families::FIXSTR, 0xa0);
    assert_eq!(Families::NIL, 0xc0);
    assert_eq!(Families::FALSE, 0xc2);
    assert_eq!(Families::TRUE, 0xc3);
    assert_eq!(Families::BIN8, 0xc4);
    assert_eq!(Families::BIN16, 0xc5);
    assert_eq!(Families::BIN32, 0xc6);
    assert_eq!(Families::EXT8, 0xc7);
    assert_eq!(Families::EXT16, 0xc8);
    assert_eq!(Families::EXT32, 0xc9);
    assert_eq!(Families::FLOAT32, 0xca);
    assert_eq!(Families::FLOAT64, 0xcb);
    assert_eq!(Families::UINT8, 0xcc);
    assert_eq!(Families::UINT16, 0xcd);
    assert_eq!(Families::UINT32, 0xce);
    assert_eq!(Families::UINT64, 0xcf);
    assert_eq!(Families::INT8, 0xd0);
    assert_eq!(Families::INT16, 0xd1);
    assert_eq!(Families::INT32, 0xd2);
    assert_eq!(Families::INT64, 0xd3);
    assert_eq!(Families::STR8, 0xd9);
    assert_eq!(Families::STR16, 0xda);
    assert_eq!(Families::STR32, 0xdb);
    assert_eq!(Array::FIXARRAY_TYPE, 0x90);
    assert_eq!(Array::ARRAY_16_TYPE, 0xdc);
    assert_eq!(Array::ARRAY_32_TYPE, 0xdd);
    assert_eq!(Families::MAP16, 0xde);
    assert_eq!(Families::MAP32, 0xdf);
    assert_eq!(MAX_STR_LEN, 1 << 31);
    assert_eq!(MAX_BIN_LEN, u32::MAX as usize);
    assert_eq!(CONTAINER_CEILING, u32::MAX as usize);
}

#[test]
fn big_endian_fields() {
    let mut out = Vec::new();
    push_be16(&mut out, 0x0102);
    push_be32(&mut out, 0x0304_0506);
    push_be64(&mut out, 0x0708_090a_0b0c_0d0e);
    assert_eq!(out, (1u8..=14).collect::<Vec<u8>>());
    assert_eq!(read_be16(&out[0..2]), 0x0102);
    assert_eq!(read_be32(&out[2..6]), 0x0304_0506);
    assert_eq!(read_be64(&out[6..14]), 0x0708_090a_0b0c_0d0e);
    assert_eq!(read_be16(&[0xff, 0xff]), u16::MAX);
    assert_eq!(read_be32(&[0xff; 4]), u32::MAX);
    assert_eq!(read_be64(&[0xff; 8]), u64::MAX);
    assert_eq!(read_be64(&[0x80, 0, 0, 0, 0, 0, 0, 1]), 0x8000_0000_0000_0001);
}

#[test]
fn two_s_complement_both_ways() {
    assert_eq!(to_unsigned8(-1), 0xff);
    assert_eq!(to_unsigned8(-128), 0x80);
    assert_eq!(to_unsigned8(127), 0x7f);
    assert_eq!(to_unsigned16(-2), 0xfffe);
    assert_eq!(to_unsigned32(i32::MIN), 0x8000_0000);
    assert_eq!(to_unsigned64(-1), u64::MAX);
    assert_eq!(to_signed8(0xe0), -32);
    assert_eq!(to_signed8(0x80), -128);
    assert_eq!(to_signed8(0x7f), 127);
    assert_eq!(to_signed16(0x8000), i16::MIN);
    assert_eq!(to_signed32(0xffff_ffff), -1);
    assert_eq!(to_signed64(0x8000_0000_0000_0000), i64::MIN);
    for x in i8::MIN..=i8::MAX {
        assert_eq!(to_unsigned8(x), x as u8);
        assert_eq!(to_signed8(x as u8), x);
    }
    for x in [i16::MIN, -1, 0, 1, i16::MAX] {
        assert_eq!(to_unsigned16(x), x as u16);
        assert_eq!(to_signed16(x as u16), x);
    }
    for x in [i32::MIN, -1, 0, 1, i32::MAX] {
        assert_eq!(to_unsigned32(x), x as u32);
        assert_eq!(to_signed32(x as u32), x);
    }
    for x in [i64::MIN, -1, 0, 1, i64::MAX] {
        assert_eq!(to_unsigned64(x), x as u64);
        assert_eq!(to_signed64(x as u64), x);
    }
}

#[test]
fn string_header_refuses_more_than_two_gigabytes() {
    let mut out = Vec::new();
    assert_eq!(write_str_header(0x8000_0000, &mut out), Ok(()));
    assert_eq!(out, vec![0xdb, 0x80, 0, 0, 0]);
    let mut out = vec![1u8];
    assert_eq!(write_str_header(0x8000_0001, &mut out), Err(EncodeError::StringTooLong));
    assert_eq!(out, vec![1]);
    assert_eq!(write_str_header(usize::MAX, &mut out), Err(EncodeError::StringTooLong));
    assert_eq!(out, vec![1]);
}

#[test]
fn container_header_refuses_the_ceiling() {
    let mut out = Vec::new();
    assert!(write_count_header(0x90, 0xdc, 0xffff_fffe, &mut out));
    assert_eq!(out, vec![0xdd, 0xff, 0xff, 0xff, 0xfe]);
    let mut out = vec![1u8];
    assert!(!write_count_header(0x90, 0xdc, 0xffff_ffff, &mut out));
    assert!(!write_count_header(0x80, 0xde, usize::MAX, &mut out));
    assert_eq!(out, vec![1]);
    assert!(write_count_header(0x80, 0xde, 16, &mut out));
    assert_eq!(out, vec![1, 0xde, 0, 16]);
}

#[test]
fn sized_header_refuses_what_32_bits_cannot_hold() {
    let mut out = Vec::new();
    assert!(write_sized_header(0xc4, 0xffff_ffff, &mut out));
    assert_eq!(out, vec![0xc6, 0xff, 0xff, 0xff, 0xff]);
    if let Some(too_long) = 0xffff_ffffusize.checked_add(1) {
        let mut out = vec![1u8];
        assert!(!write_sized_header(0xc4, too_long, &mut out));
        assert!(!write_sized_header(0xc7, usize::MAX, &mut out));
        assert_eq!(out, vec![1]);
    }
    let mut out = Vec::new();
    assert!(write_sized_header(0xc7, 0x1234, &mut out));
    assert_eq!(out, vec![0xc8, 0x12, 0x34]);
}

#[test]
fn fixed_extension_widths() {
    assert_eq!(fixed_ext_len(0xd4), Some(1));
    assert_eq!(fixed_ext_len(0xd5), Some(2));
    assert_eq!(fixed_ext_len(0xd6), Some(4));
    assert_eq!(fixed_ext_len(0xd7), Some(8));
    assert_eq!(fixed_ext_len(0xd8), Some(16));
    assert_eq!(fixed_ext_len(0xd3), None);
    assert_eq!(fixed_ext_len(0xd9), None);
    assert_eq!(fixed_ext_len(0xc7), None);
}

#[test]
fn length_fields_by_marker() {
    let bytes = [0x01u8, 0x02, 0x03, 0x04];
    let mut reader = Reader::new(&bytes);
    assert_eq!(read_sized_len(0xd9, 0xd9, &mut reader), Ok(1));
    assert_eq!(reader.position(), 1);
    let mut reader = Reader::new(&bytes);
    assert_eq!(read_sized_len(0xd9, 0xda, &mut reader), Ok(0x0102));
    assert_eq!(reader.position(), 2);
    let mut reader = Reader::new(&bytes);
    assert_eq!(read_sized_len(0xd9, 0xdb, &mut reader), Ok(0x0102_0304));
    assert_eq!(reader.position(), 4);
    let mut reader = Reader::new(&bytes);
    assert_eq!(read_sized_len(0xd9, 0xdc, &mut reader), Err(DecodeError::UnexpectedMarker));
    assert_eq!(read_sized_len(0xd9, 0xd8, &mut reader), Err(DecodeError::UnexpectedMarker));

    let mut reader = Reader::new(&bytes);
    assert_eq!(read_count(0x90, 0xdc, 0x90, &mut reader), Ok(0));
    assert_eq!(read_count(0x90, 0xdc, 0x9f, &mut reader), Ok(15));
    assert_eq!(reader.position(), 0);
    assert_eq!(read_count(0x90, 0xdc, 0xdc, &mut reader), Ok(0x0102));
    assert_eq!(read_count(0x90, 0xdc, 0xdd, &mut reader), Err(DecodeError::Truncated));
    let mut reader = Reader::new(&bytes);
    assert_eq!(read_count(0x80, 0xde, 0xdf, &mut reader), Ok(0x0102_0304));
    assert_eq!(read_count(0x80, 0xde, 0x90, &mut reader), Err(DecodeError::UnexpectedMarker));
    assert_eq!(read_packet_type(&mut reader), Err(DecodeError::Truncated));
}

#[test]
fn serialized_scalars_are_big_endian_payloads() {
    assert_eq!(Serialized::from(7u8).as_bytes(), &vec![7]);
    assert_eq!(Serialized::from(0x0102u16).as_bytes(), &vec![1, 2]);
    assert_eq!(Serialized::from(0x0102_0304u32).as_bytes(), &vec![1, 2, 3, 4]);
    assert_eq!(
        Serialized::from(0x0102_0304_0506_0708u64).into_bytes(),
        vec![1, 2, 3, 4, 5, 6, 7, 8]
    );
    assert_eq!(Serialized::from(-1i8).into_bytes(), vec![0xff]);
    assert_eq!(Serialized::from(-2i16).into_bytes(), vec![0xff, 0xfe]);
    assert_eq!(Serialized::from(-2i32).into_bytes(), vec![0xff, 0xff, 0xff, 0xfe]);
    assert_eq!(Serialized::from(i64::MIN).into_bytes(), vec![0x80, 0, 0, 0, 0, 0, 0, 0]);
    assert_eq!(
        Serialized::from("h\u{e9}".to_string()).into_bytes(),
        vec![b'h', 0xc3, 0xa9]
    );
    assert_eq!(
        Serialized::from(Float32 { bits: 0.2f32.to_bits() }).into_bytes(),
        0.2f32.to_be_bytes().to_vec()
    );
    assert_eq!(
        Serialized::from(Float64 { bits: 0.2f64.to_bits() }).into_bytes(),
        0.2f64.to_be_bytes().to_vec()
    );
}

#[test]
fn serialized_to_float_bits() {
    let single = Float32::from(Serialized::from(Float32 { bits: 1.5f32.to_bits() }));
    assert_eq!(f32::from_bits(single.bits), 1.5);
    let double = Float64::from(Serialized::from(Float64 { bits: (-2.25f64).to_bits() }));
    assert_eq!(f64::from_bits(double.bits), -2.25);
    let wrong: Float32 = Serialized::from(0x0102u16).into();
    assert_eq!(wrong, Float32 { bits: 0 });
    assert_eq!(f32::from_bits(wrong.bits), 0.0);
    let wrong: Float64 = Serialized::from(0x0102_0304u32).into();
    assert_eq!(wrong, Float64 { bits: 0 });
    let exact: Float32 = Serialized::from(0x3fc0_0000u32).into();
    assert_eq!(f32::from_bits(exact.bits), 1.5);
}

#[test]
fn serialized_bytes_in_and_out() {
    let held = Serialized::deserialize(&[9, 8, 7]);
    assert_eq!(held.as_bytes(), &vec![9, 8, 7]);
    assert_eq!(held.serialize(), vec![9, 8, 7]);
    assert_eq!(Serialized::deserialize(&[]).serialize(), Vec::<u8>::new());
}

#[test]
fn constructors_build_their_variants() {
    assert_eq!(Value::nil(), Value::Nil);
    assert_eq!(Value::bool(true), Value::Bool(true));
    assert_eq!(Value::u8(1), Value::U8(1));
    assert_eq!(Value::u16(2), Value::U16(2));
    assert_eq!(Value::u32(3), Value::U32(3));
    assert_eq!(Value::u64(4), Value::U64(4));
    assert_eq!(Value::i8(-1), Value::I8(-1));
    assert_eq!(Value::i16(-2), Value::I16(-2));
    assert_eq!(Value::i32(-3), Value::I32(-3));
    assert_eq!(Value::i64(-4), Value::I64(-4));
    assert_eq!(
        Value::float32(Float32 { bits: 5 }),
        Value::F32(Float32 { bits: 5 })
    );
    assert_eq!(
        Value::float64(Float64 { bits: 6 }),
        Value::F64(Float64 { bits: 6 })
    );
    assert_eq!(Value::str("abc"), Value::Str("abc".to_string()));
    assert_eq!(Value::bin(vec![1]), Value::Bin(vec![1]));
    assert_eq!(Value::array(vec![Value::Nil]), Value::Array(vec![Value::Nil]));
    assert_eq!(
        Value::map(vec![(Value::Nil, Value::Nil)]),
        Value::Mapping(vec![(Value::Nil, Value::Nil)])
    );
    assert_eq!(
        Value::extension(Extension::new(1, vec![2])),
        Value::Extension(Extension::new(1, vec![2]))
    );
}

#[test]
fn conversions_into_values() {
    assert_eq!(Value::from(true), Value::Bool(true));
    assert_eq!(Value::from(1u8), Value::U8(1));
    assert_eq!(Value::from(2u16), Value::U16(2));
    assert_eq!(Value::from(3u32), Value::U32(3));
    assert_eq!(Value::from(4u64), Value::U64(4));
    assert_eq!(Value::from(-1i8), Value::I8(-1));
    assert_eq!(Value::from(-2i16), Value::I16(-2));
    assert_eq!(Value::from(-3i32), Value::I32(-3));
    assert_eq!(Value::from(-4i64), Value::I64(-4));
    assert_eq!(Value::from("s".to_string()), Value::Str("s".to_string()));
    assert_eq!(Value::from(vec![Value::Nil]), Value::Array(vec![Value::Nil]));
    assert_eq!(
        Value::from(vec![(Value::U8(1), Value::Nil)]),
        Value::Mapping(vec![(Value::U8(1), Value::Nil)])
    );
    assert_eq!(
        Value::from(Extension::new(1, vec![])),
        Value::Extension(Extension::new(1, vec![]))
    );
    assert_eq!(Value::from(Float32 { bits: 9 }), Value::F32(Float32 { bits: 9 }));
    assert_eq!(Value::from(Float64 { bits: 9 }), Value::F64(Float64 { bits: 9 }));
    let v: Value = 300u16.into();
    assert_eq!(v, Value::U16(300));
}

#[test]
fn tree_writers_agree() {
    let items = vec![Value::U8(1), Value::Str("hai".to_string())];
    let mut by_array = Vec::new();
    write_array(&items, &mut by_array).unwrap();
    assert_eq!(by_array, vec![0x92, 0x01, 0xa3, b'h', b'a', b'i']);

    let pairs = vec![(Value::U8(1), Value::Bool(true))];
    let mut by_map = Vec::new();
    write_map(&pairs, &mut by_map).unwrap();
    assert_eq!(by_map, vec![0x81, 0x01, 0xc3]);

    let mut by_value = vec![0xee];
    write_value(&Value::Array(items), &mut by_value).unwrap();
    write_value(&Value::Mapping(pairs), &mut by_value).unwrap();
    assert_eq!(by_value, vec![0xee, 0x92, 0x01, 0xa3, b'h', b'a', b'i', 0x81, 0x01, 0xc3]);
}
