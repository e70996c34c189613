use msgpackp::codec::{decode, decode_with_limit, encode};
use msgpackp::error::DecodeError;
use msgpackp::msgpack::{ReadFrom, WriteTo};
use msgpackp::reader::{read_value_from_cursor, Reader};
use msgpackp::value::{Extension, Float32, Float64, Value};
use ordered_float::OrderedFloat;

fn text(s: &str) -> Value {
    Value::Str(s.to_string())
}

fn double(x: f64) -> Value {
    Value::F64(Float64 { bits: x.to_bits() })
}

fn ordered(x: OrderedFloat<f64>) -> Value {
    Value::float64(Float64 { bits: x.0.to_bits() })
}

fn single(x: f32) -> Value {
    Value::F32(Float32 { bits: x.to_bits() })
}

#[test]
fn mod_test_write_to() {
    let value = Value::U8(42);
    let mut buffer = Vec::new();
    value.write_to(&mut buffer).unwrap();
    assert_eq!(buffer, &[0x2a]);
}

#[test]
fn mod_test_arrays() {
    let mut buffer = Vec::new();

    let packet = vec![Value::U8(1), Value::Str("hai".to_string())];

    packet.write_to(&mut buffer).unwrap();
    assert_eq!(buffer, &[0x92, 0x01, 0xa3, b'h', b'a', b'i']);
}

#[test]
fn mod_test_typical_moomoo_packet() {
    let mut buffer = Vec::new();

    let packet = vec![
        Value::Str("sp".to_string()),
        Value::Array(vec![Value::Mapping(vec![(
            Value::Str("name".to_string()),
            Value::Str("0xffabc".to_string()),
        )])]),
    ];

    packet.write_to(&mut buffer).unwrap();
    assert_eq!(
        buffer,
        &[
            0x92, 0xa2, b's', b'p', 0x91, 0x81, 0xa4, b'n', b'a', b'm', b'e', 0xa7, b'0', b'x',
            b'f', b'f', b'a', b'b', b'c'
        ]
    );
}

#[test]
fn mod_test_deserialize() {
    let packet = vec![
        146, 162, 99, 104, 147, 165, 72, 101, 108, 108, 111, 1, 203, 63, 244, 204, 204, 204, 204,
        204, 205,
    ];

    let expected = Value::Array(vec![
        Value::Str("ch".to_string()),
        Value::Array(vec![
            Value::Str("Hello".to_string()),
            Value::U8(1),
            ordered(OrderedFloat(1.3)),
        ]),
    ]);

    let mut reader = Reader::new(&packet);
    let val = reader.pull_value().unwrap();
    assert_eq!(val, expected);

    let mut cursor = Reader::new(&packet);
    let val = read_value_from_cursor(&mut cursor).unwrap();
    assert_eq!(val, expected);
}

#[test]
fn mod_test_hashmap() {
    let example = vec![
        135, 163, 105, 110, 116, 1, 165, 102, 108, 111, 97, 116, 203, 63, 224, 0, 0, 0, 0, 0, 0,
        167, 98, 111, 111, 108, 101, 97, 110, 195, 164, 110, 117, 108, 108, 192, 166, 115, 116,
        114, 105, 110, 103, 167, 102, 111, 111, 32, 98, 97, 114, 165, 97, 114, 114, 97, 121, 146,
        163, 102, 111, 111, 163, 98, 97, 114, 166, 111, 98, 106, 101, 99, 116, 130, 163, 102, 111,
        111, 1, 163, 98, 97, 122, 203, 63, 224, 0, 0, 0, 0, 0, 0,
    ];

    let expected = Value::Mapping(vec![
        (Value::str("int"), Value::u8(1)),
        (Value::str("float"), ordered(OrderedFloat(0.5))),
        (Value::str("boolean"), Value::bool(true)),
        (Value::str("null"), Value::Nil),
        (Value::str("string"), Value::str("foo bar")),
        (
            Value::str("array"),
            Value::Array(vec![Value::str("foo"), Value::str("bar")]),
        ),
        (
            Value::str("object"),
            Value::Mapping(vec![
                (Value::str("foo"), Value::u8(1)),
                (Value::str("baz"), ordered(OrderedFloat(0.5))),
            ]),
        ),
    ]);

    let mut reader = Reader::new(&example);
    let val = reader.pull_value().unwrap();
    assert_eq!(val, expected);

    let mut cursor = Reader::new(&example);
    let val: Value = read_value_from_cursor(&mut cursor).unwrap();
    assert_eq!(val, expected);
}

#[test]
fn map_keeps_the_order_of_its_keys() {
    let example = vec![
        135, 163, 105, 110, 116, 1, 165, 102, 108, 111, 97, 116, 203, 63, 224, 0, 0, 0, 0, 0, 0,
        167, 98, 111, 111, 108, 101, 97, 110, 195, 164, 110, 117, 108, 108, 192, 166, 115, 116,
        114, 105, 110, 103, 167, 102, 111, 111, 32, 98, 97, 114, 165, 97, 114, 114, 97, 121, 146,
        163, 102, 111, 111, 163, 98, 97, 114, 166, 111, 98, 106, 101, 99, 116, 130, 163, 102, 111,
        111, 1, 163, 98, 97, 122, 203, 63, 224, 0, 0, 0, 0, 0, 0,
    ];
    let pairs = match decode(&example) {
        Ok(Value::Mapping(pairs)) => pairs,
        other => panic!("not a map: {:?}", other),
    };
    let keys: Vec<&Value> = pairs.iter().map(|pair| &pair.0).collect();
    let expected = vec![
        text("int"),
        text("float"),
        text("boolean"),
        text("null"),
        text("string"),
        text("array"),
        text("object"),
    ];
    assert_eq!(keys, expected.iter().collect::<Vec<&Value>>());
}

#[test]
fn map_keeps_repeated_and_unsorted_keys() {
    let value = Value::Mapping(vec![
        (text("b"), Value::U8(2)),
        (text("a"), Value::U8(1)),
        (text("b"), Value::U8(3)),
        (Value::Array(vec![Value::Nil]), Value::Bool(false)),
    ]);
    let bytes = encode(&value).unwrap();
    assert_eq!(
        bytes,
        vec![0x84, 0xa1, b'b', 2, 0xa1, b'a', 1, 0xa1, b'b', 3, 0x91, 0xc0, 0xc2]
    );
    assert_eq!(decode(&bytes).unwrap(), value);
}

#[test]
fn nested_packet_decodes_and_encodes_back() {
    let bytes = vec![
        0x92, 0xa2, 0x73, 0x70, 0x91, 0x81, 0xa4, 0x6e, 0x61, 0x6d, 0x65, 0xa7, 0x30, 0x78, 0x66,
        0x66, 0x61, 0x62, 0x63,
    ];
    let value = decode(&bytes).unwrap();
    assert_eq!(
        value,
        Value::Array(vec![
            text("sp"),
            Value::Array(vec![Value::Mapping(vec![(text("name"), text("0xffabc"))])]),
        ])
    );
    assert_eq!(encode(&value).unwrap(), bytes);
}

#[test]
fn truncated_uint16_is_an_error() {
    assert_eq!(decode(&[0xcd, 0x01]), Err(DecodeError::Truncated));
    let bytes = [0xcd, 0x01];
    let mut reader = Reader::new(&bytes);
    assert_eq!(reader.pull_value(), Err(DecodeError::Truncated));
}

#[test]
fn every_proper_beginning_is_truncated() {
    let values = vec![
        Value::U8(5),
        Value::U8(200),
        Value::I64(-7),
        double(1.5),
        text("a string of more than thirty-one bytes of UTF-8: \u{e9}\u{e9}"),
        Value::Bin(vec![1, 2, 3]),
        Value::Extension(Extension::new(4, vec![5, 6])),
        Value::Array(vec![
            text("sp"),
            Value::Array(vec![Value::Mapping(vec![(text("name"), text("0xffabc"))])]),
            Value::Array((0..20).map(Value::U16).collect()),
        ]),
        Value::Mapping((0..17).map(|i| (Value::U8(i), text("v"))).collect()),
    ];
    for value in values {
        let bytes = encode(&value).unwrap();
        for end in 0..bytes.len() {
            assert_eq!(
                decode(&bytes[..end]),
                Err(DecodeError::Truncated),
                "{} of {} bytes of {:?}",
                end,
                bytes.len(),
                value
            );
        }
        assert_eq!(decode(&bytes), Ok(value));
    }
}

#[test]
fn bytes_after_a_value_change_nothing() {
    let value = Value::Array(vec![text("x"), Value::Mapping(vec![(Value::Nil, Value::I16(-3))])]);
    let mut bytes = encode(&value).unwrap();
    let used = bytes.len();
    bytes.extend_from_slice(&[0xff, 0xc1, 0xdb]);
    assert_eq!(decode(&bytes), Ok(value.clone()));
    let mut reader = Reader::new(&bytes);
    assert_eq!(reader.pull_value(), Ok(value));
    assert_eq!(reader.position(), used);
}

#[test]
fn empty_input_is_truncated() {
    assert_eq!(decode(&[]), Err(DecodeError::Truncated));
}

#[test]
fn every_fixed_width_form_needs_all_its_bytes() {
    let forms: Vec<(u8, usize)> = vec![
        (0xcc, 1),
        (0xcd, 2),
        (0xce, 4),
        (0xcf, 8),
        (0xd0, 1),
        (0xd1, 2),
        (0xd2, 4),
        (0xd3, 8),
        (0xca, 4),
        (0xcb, 8),
    ];
    for (marker, width) in forms {
        let mut bytes = vec![marker];
        for short in 0..width {
            assert_eq!(
                decode(&bytes),
                Err(DecodeError::Truncated),
                "marker {:#x} with {} of {} bytes",
                marker,
                short,
                width
            );
            bytes.push(0x01);
        }
        assert!(decode(&bytes).is_ok(), "marker {:#x} complete", marker);
    }
}

#[test]
fn truncated_payloads_and_containers() {
    assert_eq!(decode(&[0xa3, b'a', b'b']), Err(DecodeError::Truncated));
    assert_eq!(decode(&[0xd9]), Err(DecodeError::Truncated));
    assert_eq!(decode(&[0xd9, 2, b'a']), Err(DecodeError::Truncated));
    assert_eq!(decode(&[0xda, 0]), Err(DecodeError::Truncated));
    assert_eq!(decode(&[0xdb, 0, 0, 0]), Err(DecodeError::Truncated));
    assert_eq!(decode(&[0xc4, 3, 1, 2]), Err(DecodeError::Truncated));
    assert_eq!(decode(&[0xc5, 0]), Err(DecodeError::Truncated));
    assert_eq!(decode(&[0xc6, 0, 0, 0, 1]), Err(DecodeError::Truncated));
    assert_eq!(decode(&[0x92, 0x01]), Err(DecodeError::Truncated));
    assert_eq!(decode(&[0xdc, 0x00]), Err(DecodeError::Truncated));
    assert_eq!(decode(&[0xdd, 0xff, 0xff, 0xff, 0xff]), Err(DecodeError::Truncated));
    assert_eq!(decode(&[0x81, 0x01]), Err(DecodeError::Truncated));
    assert_eq!(decode(&[0xde, 0x00, 0x01, 0xc0]), Err(DecodeError::Truncated));
    assert_eq!(decode(&[0xdf, 0xff, 0xff, 0xff, 0xff]), Err(DecodeError::Truncated));
    assert_eq!(decode(&[0xd4]), Err(DecodeError::Truncated));
    assert_eq!(decode(&[0xd4, 7]), Err(DecodeError::Truncated));
    assert_eq!(decode(&[0xc7, 2, 7, 1]), Err(DecodeError::Truncated));
}

#[test]
fn string_payload_must_be_utf8() {
    assert_eq!(decode(&[0xa1, 0xff]), Err(DecodeError::InvalidUtf8));
    assert_eq!(decode(&[0xa2, 0xc3, 0x28]), Err(DecodeError::InvalidUtf8));
    assert_eq!(decode(&[0xd9, 3, 0xed, 0xa0, 0x80]), Err(DecodeError::InvalidUtf8));
    assert_eq!(decode(&[0xa2, 0xc0, 0xaf]), Err(DecodeError::InvalidUtf8));
    assert_eq!(decode(&[0xa2, 0xc3, 0xa9]), Ok(text("\u{e9}")));
    assert_eq!(
        decode(&[0xa4, 0xf0, 0x9f, 0x98, 0x80]),
        Ok(text("\u{1f600}"))
    );
}

#[test]
fn string_text_is_the_payload_not_the_header() {
    let bytes = [0xd9, 0x05, b'h', b'e', b'l', b'l', b'o', b'!'];
    let mut reader = Reader::new(&bytes);
    let marker = msgpackp::reader::read_packet_type(&mut reader).unwrap();
    assert_eq!(reader.pull_string(marker), Ok("hello"));
    assert_eq!(reader.position(), 7);
    assert_eq!(reader.remaining(), 1);
}

#[test]
fn reserved_byte_reads_as_nil() {
    assert_eq!(decode(&[0xc1]), Ok(Value::Nil));
    assert_eq!(decode(&[0xc0]), Ok(Value::Nil));
    assert_eq!(decode(&[0x92, 0xc1, 0x05]), Ok(Value::Array(vec![Value::Nil, Value::U8(5)])));
}

#[test]
fn negative_fixint_is_bit_exact() {
    for x in -32i8..=-1 {
        let bytes = encode(&Value::I8(x)).unwrap();
        assert_eq!(bytes, vec![x as u8]);
        assert!(bytes[0] >= 0xe0);
        assert_eq!(decode(&bytes), Ok(Value::I8(x)));
    }
    assert_eq!(encode(&Value::I8(-1)).unwrap(), vec![0xff]);
    assert_eq!(encode(&Value::I8(-32)).unwrap(), vec![0xe0]);
    assert_eq!(encode(&Value::I8(-33)).unwrap(), vec![0xd0, 0xdf]);
    assert_eq!(encode(&Value::I8(0)).unwrap(), vec![0xd0, 0x00]);
    assert_eq!(encode(&Value::I8(127)).unwrap(), vec![0xd0, 0x7f]);
    assert_eq!(encode(&Value::I8(-128)).unwrap(), vec![0xd0, 0x80]);
    for marker in 0xe0u8..=0xff {
        assert_eq!(decode(&[marker]), Ok(Value::I8(marker as i8)));
    }
}

#[test]
fn unsigned_bytes_fold_into_the_marker_up_to_127() {
    assert_eq!(encode(&Value::U8(0)).unwrap(), vec![0x00]);
    assert_eq!(encode(&Value::U8(0x7f)).unwrap(), vec![0x7f]);
    assert_eq!(encode(&Value::U8(0x80)).unwrap(), vec![0xcc, 0x80]);
    assert_eq!(encode(&Value::U8(0xff)).unwrap(), vec![0xcc, 0xff]);
    for marker in 0x00u8..=0x7f {
        assert_eq!(decode(&[marker]), Ok(Value::U8(marker)));
    }
    assert_eq!(decode(&[0xcc, 0x05]), Ok(Value::U8(5)));
}

#[test]
fn wider_integers_keep_their_marker() {
    assert_eq!(encode(&Value::U16(1)).unwrap(), vec![0xcd, 0x00, 0x01]);
    assert_eq!(encode(&Value::U16(0x1234)).unwrap(), vec![0xcd, 0x12, 0x34]);
    assert_eq!(encode(&Value::U32(0x0102_0304)).unwrap(), vec![0xce, 1, 2, 3, 4]);
    assert_eq!(
        encode(&Value::U64(0x0102_0304_0506_0708)).unwrap(),
        vec![0xcf, 1, 2, 3, 4, 5, 6, 7, 8]
    );
    assert_eq!(encode(&Value::I16(-2)).unwrap(), vec![0xd1, 0xff, 0xfe]);
    assert_eq!(encode(&Value::I16(i16::MIN)).unwrap(), vec![0xd1, 0x80, 0x00]);
    assert_eq!(encode(&Value::I32(-2)).unwrap(), vec![0xd2, 0xff, 0xff, 0xff, 0xfe]);
    assert_eq!(
        encode(&Value::I64(-2)).unwrap(),
        vec![0xd3, 0xff, 0xff, 0xff, 0xff, 0xff, 0xff, 0xff, 0xfe]
    );
    assert_eq!(
        encode(&Value::I64(i64::MIN)).unwrap(),
        vec![0xd3, 0x80, 0, 0, 0, 0, 0, 0, 0]
    );
    assert_eq!(decode(&[0xcd, 0x12, 0x34]), Ok(Value::U16(0x1234)));
    assert_eq!(decode(&[0xd1, 0xff, 0xfe]), Ok(Value::I16(-2)));
    assert_eq!(decode(&[0xd2, 0x80, 0, 0, 0]), Ok(Value::I32(i32::MIN)));
    assert_eq!(
        decode(&[0xcf, 0xff, 0xff, 0xff, 0xff, 0xff, 0xff, 0xff, 0xff]),
        Ok(Value::U64(u64::MAX))
    );
}

#[test]
fn floats_are_their_bits_after_the_marker() {
    assert_eq!(encode(&single(0.2)).unwrap(), vec![0xca, 62, 76, 204, 205]);
    assert_eq!(
        encode(&double(1.3)).unwrap(),
        vec![0xcb, 63, 244, 204, 204, 204, 204, 204, 205]
    );
    assert_eq!(decode(&[0xca, 62, 76, 204, 205]), Ok(single(0.2)));
    let nan = Value::F64(Float64 { bits: 0x7ff8_0000_0000_0001 });
    assert_eq!(decode(&encode(&nan).unwrap()), Ok(nan));
    let minus_zero = single(-0.0);
    assert_eq!(encode(&minus_zero).unwrap(), vec![0xca, 0x80, 0, 0, 0]);
}

#[test]
fn booleans_and_nil() {
    assert_eq!(encode(&Value::Nil).unwrap(), vec![0xc0]);
    assert_eq!(encode(&Value::Bool(false)).unwrap(), vec![0xc2]);
    assert_eq!(encode(&Value::Bool(true)).unwrap(), vec![0xc3]);
    assert_eq!(decode(&[0xc2]), Ok(Value::Bool(false)));
    assert_eq!(decode(&[0xc3]), Ok(Value::Bool(true)));
}

#[test]
fn binary_uses_its_own_markers() {
    assert_eq!(encode(&Value::Bin(vec![])).unwrap(), vec![0xc4, 0]);
    assert_eq!(encode(&Value::Bin(vec![9, 8])).unwrap(), vec![0xc4, 2, 9, 8]);
    let blob = Value::Bin(vec![7; 255]);
    assert_eq!(&encode(&blob).unwrap()[..2], &[0xc4, 0xff]);
    let blob = Value::Bin(vec![7; 256]);
    assert_eq!(&encode(&blob).unwrap()[..3], &[0xc5, 0x01, 0x00]);
    let blob = Value::Bin(vec![7; 65535]);
    assert_eq!(&encode(&blob).unwrap()[..3], &[0xc5, 0xff, 0xff]);
    let blob = Value::Bin(vec![7; 65536]);
    assert_eq!(&encode(&blob).unwrap()[..5], &[0xc6, 0, 1, 0, 0]);
    assert_eq!(decode(&encode(&blob).unwrap()), Ok(blob));
    assert_eq!(decode(&[0xc4, 2, 0xff, 0xfe]), Ok(Value::Bin(vec![0xff, 0xfe])));
    assert_eq!(decode(&[0xc5, 0, 1, 5]), Ok(Value::Bin(vec![5])));
    assert_eq!(decode(&[0xc6, 0, 0, 0, 1, 5]), Ok(Value::Bin(vec![5])));
}

#[test]
fn extension_length_field_is_as_wide_as_the_marker_says() {
    let ext = |tag: u8, data: Vec<u8>| Value::Extension(Extension::new(tag, data));
    assert_eq!(decode(&[0xc7, 2, 9, 1, 2]), Ok(ext(9, vec![1, 2])));
    assert_eq!(decode(&[0xc8, 0, 2, 9, 1, 2]), Ok(ext(9, vec![1, 2])));
    assert_eq!(decode(&[0xc9, 0, 0, 0, 2, 9, 1, 2]), Ok(ext(9, vec![1, 2])));
    assert_eq!(decode(&[0xd4, 5, 0xaa]), Ok(ext(5, vec![0xaa])));
    assert_eq!(decode(&[0xd5, 5, 1, 2]), Ok(ext(5, vec![1, 2])));
    assert_eq!(decode(&[0xd6, 5, 1, 2, 3, 4]), Ok(ext(5, vec![1, 2, 3, 4])));
    assert_eq!(
        decode(&[0xd7, 5, 1, 2, 3, 4, 5, 6, 7, 8]),
        Ok(ext(5, vec![1, 2, 3, 4, 5, 6, 7, 8]))
    );
    let mut bytes = vec![0xd8, 0xff];
    bytes.extend(0u8..16);
    assert_eq!(decode(&bytes), Ok(ext(0xff, (0u8..16).collect())));

    assert_eq!(encode(&ext(9, vec![1, 2])).unwrap(), vec![0xc7, 2, 9, 1, 2]);
    assert_eq!(encode(&ext(9, vec![])).unwrap(), vec![0xc7, 0, 9]);
    let big = ext(1, vec![3; 256]);
    assert_eq!(&encode(&big).unwrap()[..4], &[0xc8, 1, 0, 1]);
    assert_eq!(decode(&encode(&big).unwrap()), Ok(big));
    let bigger = ext(2, vec![3; 65536]);
    assert_eq!(&encode(&bigger).unwrap()[..6], &[0xc9, 0, 1, 0, 0, 2]);
    assert_eq!(decode(&encode(&bigger).unwrap()), Ok(bigger));
}

#[test]
fn extension_keeps_tag_and_payload() {
    let ext = Extension::new(0x2a, vec![1, 2, 3]);
    assert_eq!(ext.type_tag(), 0x2a);
    assert_eq!(ext.data(), &vec![1, 2, 3]);
}

#[test]
fn string_tiers_at_their_edges() {
    let tier = |n: usize| encode(&text(&"a".repeat(n))).unwrap();
    assert_eq!(tier(0), vec![0xa0]);
    assert_eq!(&tier(15)[..1], &[0xaf]);
    assert_eq!(&tier(16)[..1], &[0xb0]);
    assert_eq!(&tier(31)[..1], &[0xbf]);
    assert_eq!(tier(31).len(), 32);
    assert_eq!(&tier(32)[..2], &[0xd9, 32]);
    assert_eq!(&tier(255)[..2], &[0xd9, 0xff]);
    assert_eq!(&tier(256)[..3], &[0xda, 0x01, 0x00]);
    assert_eq!(&tier(65535)[..3], &[0xda, 0xff, 0xff]);
    assert_eq!(&tier(65536)[..5], &[0xdb, 0x00, 0x01, 0x00, 0x00]);
    assert_eq!(tier(65536).len(), 5 + 65536);
    for n in [0usize, 15, 16, 31, 32, 255, 256, 65535, 65536] {
        let value = text(&"a".repeat(n));
        assert_eq!(decode(&encode(&value).unwrap()), Ok(value));
    }
}

#[test]
fn array_tiers_at_their_edges() {
    let tier = |n: usize| {
        let items: Vec<Value> = (0..n).map(|_| Value::Nil).collect();
        encode(&Value::Array(items)).unwrap()
    };
    assert_eq!(tier(0), vec![0x90]);
    assert_eq!(&tier(15)[..1], &[0x9f]);
    assert_eq!(tier(15).len(), 16);
    assert_eq!(&tier(16)[..3], &[0xdc, 0x00, 0x10]);
    assert_eq!(tier(16).len(), 3 + 16);
    assert_eq!(&tier(31)[..3], &[0xdc, 0x00, 0x1f]);
    assert_eq!(&tier(255)[..3], &[0xdc, 0x00, 0xff]);
    assert_eq!(&tier(256)[..3], &[0xdc, 0x01, 0x00]);
    assert_eq!(&tier(65535)[..3], &[0xdc, 0xff, 0xff]);
    assert_eq!(&tier(65536)[..5], &[0xdd, 0x00, 0x01, 0x00, 0x00]);
    assert_eq!(tier(65536).len(), 5 + 65536);
    for n in [0usize, 15, 16, 65535, 65536] {
        let items: Vec<Value> = (0..n).map(|i| Value::U8((i % 200) as u8)).collect();
        let value = Value::Array(items);
        assert_eq!(decode(&encode(&value).unwrap()), Ok(value));
    }
}

#[test]
fn map_tiers_at_their_edges() {
    let tier = |n: usize| {
        let pairs: Vec<(Value, Value)> = (0..n).map(|_| (Value::Nil, Value::Bool(true))).collect();
        encode(&Value::Mapping(pairs)).unwrap()
    };
    assert_eq!(tier(0), vec![0x80]);
    assert_eq!(&tier(15)[..1], &[0x8f]);
    assert_eq!(tier(15).len(), 1 + 30);
    assert_eq!(&tier(16)[..3], &[0xde, 0x00, 0x10]);
    assert_eq!(&tier(65535)[..3], &[0xde, 0xff, 0xff]);
    assert_eq!(&tier(65536)[..5], &[0xdf, 0x00, 0x01, 0x00, 0x00]);
    assert_eq!(tier(65536).len(), 5 + 2 * 65536);
    for n in [0usize, 15, 16, 65535, 65536] {
        let pairs: Vec<(Value, Value)> =
            (0..n).map(|i| (Value::U32(i as u32), Value::Nil)).collect();
        let value = Value::Mapping(pairs);
        assert_eq!(decode(&encode(&value).unwrap()), Ok(value));
    }
}

#[test]
fn round_trip_of_every_variant() {
    let values = vec![
        Value::Nil,
        Value::Bool(true),
        Value::Bool(false),
        Value::U8(0),
        Value::U8(127),
        Value::U8(128),
        Value::U8(255),
        Value::U16(0),
        Value::U16(u16::MAX),
        Value::U32(0),
        Value::U32(u32::MAX),
        Value::U64(0),
        Value::U64(u64::MAX),
        Value::I8(i8::MIN),
        Value::I8(-33),
        Value::I8(-32),
        Value::I8(-1),
        Value::I8(0),
        Value::I8(i8::MAX),
        Value::I16(i16::MIN),
        Value::I16(-1),
        Value::I16(i16::MAX),
        Value::I32(i32::MIN),
        Value::I32(-1),
        Value::I32(i32::MAX),
        Value::I64(i64::MIN),
        Value::I64(-1),
        Value::I64(i64::MAX),
        single(0.2),
        single(f32::INFINITY),
        double(-3.141592124124124124124),
        double(f64::MIN_POSITIVE),
        text(""),
        text("foo bar"),
        text("\u{e9}\u{4e16}\u{1f600}"),
        Value::Bin(vec![]),
        Value::Bin(vec![0, 255, 128]),
        Value::Extension(Extension::new(0, vec![])),
        Value::Extension(Extension::new(255, vec![1])),
        Value::Array(vec![]),
        Value::Mapping(vec![]),
        Value::Array(vec![
            Value::Array(vec![Value::Array(vec![])]),
            Value::Mapping(vec![(Value::Mapping(vec![]), Value::Array(vec![Value::I8(-5)]))]),
            text("x"),
        ]),
    ];
    for value in values {
        let bytes = encode(&value).unwrap();
        assert_eq!(decode(&bytes), Ok(value), "bytes {:?}", bytes);
    }
}

#[test]
fn copies_are_equal_and_independent() {
    let value = Value::Array(vec![
        text("a"),
        Value::Mapping(vec![(Value::Bin(vec![1, 2]), Value::Extension(Extension::new(3, vec![4])))]),
        double(2.5),
    ]);
    let copy = value.clone();
    assert_eq!(copy, value);
    assert_eq!(encode(&copy).unwrap(), encode(&value).unwrap());
    drop(value);
    assert_eq!(
        copy,
        Value::Array(vec![
            text("a"),
            Value::Mapping(vec![(
                Value::Bin(vec![1, 2]),
                Value::Extension(Extension::new(3, vec![4]))
            )]),
            double(2.5),
        ])
    );
    let ext = Extension::new(9, vec![8, 7]);
    assert_eq!(ext.clone(), ext);
}

#[test]
fn decoding_stops_after_the_first_value() {
    let bytes = [0x01, 0x02, 0x03];
    assert_eq!(decode(&bytes), Ok(Value::U8(1)));
    let mut reader = Reader::new(&bytes);
    assert_eq!(reader.pull_value(), Ok(Value::U8(1)));
    assert_eq!(reader.position(), 1);
    assert_eq!(reader.pull_value(), Ok(Value::U8(2)));
    assert_eq!(reader.pull_value(), Ok(Value::U8(3)));
    assert_eq!(reader.remaining(), 0);
    assert_eq!(reader.pull_value(), Err(DecodeError::Truncated));
}

#[test]
fn map_limit_is_configurable() {
    let two = [0x82, 0x01, 0x02, 0x03, 0x04];
    let expected = Value::Mapping(vec![
        (Value::U8(1), Value::U8(2)),
        (Value::U8(3), Value::U8(4)),
    ]);
    assert_eq!(decode_with_limit(&two, 2), Ok(Value::Mapping(vec![
        (Value::U8(1), Value::U8(2)),
        (Value::U8(3), Value::U8(4)),
    ])));
    assert_eq!(decode_with_limit(&two, 1), Err(DecodeError::MapTooLarge));
    assert_eq!(decode_with_limit(&two, 0), Err(DecodeError::MapTooLarge));
    assert_eq!(decode(&two), Ok(expected));
    assert_eq!(decode_with_limit(&[0x80], 0), Ok(Value::Mapping(vec![])));

    let nested = [0x91, 0x82, 0x01, 0x02, 0x03, 0x04];
    assert_eq!(decode_with_limit(&nested, 1), Err(DecodeError::MapTooLarge));

    let declared = [0xde, 0x00, 0x65];
    assert_eq!(decode_with_limit(&declared, 100), Err(DecodeError::MapTooLarge));
    assert_eq!(decode_with_limit(&declared, 101), Err(DecodeError::Truncated));

    let mut reader = Reader::with_map_limit(&two, 1);
    assert_eq!(reader.map_limit(), 1);
    assert_eq!(reader.pull_value(), Err(DecodeError::MapTooLarge));
    let reader = Reader::new(&two);
    assert_eq!(reader.map_limit(), u32::MAX);
}

#[test]
fn huge_declared_counts_fail_without_data() {
    assert_eq!(decode(&[0xdd, 0xff, 0xff, 0xff, 0xff, 0xc0]), Err(DecodeError::Truncated));
    assert_eq!(decode(&[0xdf, 0xff, 0xff, 0xff, 0xff, 0xc0, 0xc0]), Err(DecodeError::Truncated));
    assert_eq!(decode(&[0xdb, 0xff, 0xff, 0xff, 0xff, b'a']), Err(DecodeError::Truncated));
    assert_eq!(decode(&[0xc6, 0xff, 0xff, 0xff, 0xff, 1]), Err(DecodeError::Truncated));
    assert_eq!(decode(&[0xc9, 0xff, 0xff, 0xff, 0xff, 1, 1]), Err(DecodeError::Truncated));
}

#[test]
fn typed_decoders_refuse_foreign_markers() {
    let bytes = [0x00u8, 0x01, 0x02, 0x03, 0x04, 0x05, 0x06, 0x07];
    let mut reader = Reader::new(&bytes);
    assert_eq!(u8::read_from(0xcd, &mut reader), Err(DecodeError::UnexpectedMarker));
    assert_eq!(u16::read_from(0xcc, &mut reader), Err(DecodeError::UnexpectedMarker));
    assert_eq!(u32::read_from(0xcd, &mut reader), Err(DecodeError::UnexpectedMarker));
    assert_eq!(u64::read_from(0xce, &mut reader), Err(DecodeError::UnexpectedMarker));
    assert_eq!(i8::read_from(0x7f, &mut reader), Err(DecodeError::UnexpectedMarker));
    assert_eq!(i16::read_from(0xd0, &mut reader), Err(DecodeError::UnexpectedMarker));
    assert_eq!(i32::read_from(0xd1, &mut reader), Err(DecodeError::UnexpectedMarker));
    assert_eq!(i64::read_from(0xd2, &mut reader), Err(DecodeError::UnexpectedMarker));
    assert_eq!(bool::read_from(0xc0, &mut reader), Err(DecodeError::UnexpectedMarker));
    assert_eq!(Float32::read_from(0xcb, &mut reader), Err(DecodeError::UnexpectedMarker));
    assert_eq!(Float64::read_from(0xca, &mut reader), Err(DecodeError::UnexpectedMarker));
    assert_eq!(String::read_from(0xc4, &mut reader), Err(DecodeError::UnexpectedMarker));
    assert_eq!(Vec::<u8>::read_from(0xd9, &mut reader), Err(DecodeError::UnexpectedMarker));
    assert_eq!(Extension::read_from(0xc4, &mut reader), Err(DecodeError::UnexpectedMarker));
    assert_eq!(Vec::<Value>::read_from(0x80, &mut reader), Err(DecodeError::UnexpectedMarker));
    assert_eq!(
        Vec::<(Value, Value)>::read_from(0x90, &mut reader),
        Err(DecodeError::UnexpectedMarker)
    );
    assert_eq!(Option::<()>::read_from(0xc2, &mut reader), Err(DecodeError::UnexpectedMarker));
    assert_eq!(reader.pull_string(0x00), Err(DecodeError::UnexpectedMarker));
    assert_eq!(reader.position(), 0);
}

#[test]
fn typed_decoders_read_their_own_forms() {
    let bytes = [0x12u8, 0x34, 0x56, 0x78, 0x9a, 0xbc, 0xde, 0xf0];
    assert_eq!(u8::read_from(0x05, &mut Reader::new(&bytes)), Ok(5));
    assert_eq!(u8::read_from(0xcc, &mut Reader::new(&bytes)), Ok(0x12));
    assert_eq!(u16::read_from(0xcd, &mut Reader::new(&bytes)), Ok(0x1234));
    assert_eq!(u32::read_from(0xce, &mut Reader::new(&bytes)), Ok(0x1234_5678));
    assert_eq!(u64::read_from(0xcf, &mut Reader::new(&bytes)), Ok(0x1234_5678_9abc_def0));
    assert_eq!(i8::read_from(0xe0, &mut Reader::new(&bytes)), Ok(-32));
    assert_eq!(i8::read_from(0xd0, &mut Reader::new(&bytes[4..])), Ok(-102));
    assert_eq!(i16::read_from(0xd1, &mut Reader::new(&bytes[4..])), Ok(-25924));
    assert_eq!(i32::read_from(0xd2, &mut Reader::new(&bytes[4..])), Ok(-1698898192));
    assert_eq!(
        i64::read_from(0xd3, &mut Reader::new(&[0xff, 0xff, 0xff, 0xff, 0xff, 0xff, 0xff, 0x85])),
        Ok(-123)
    );
    assert_eq!(bool::read_from(0xc3, &mut Reader::new(&bytes)), Ok(true));
    assert_eq!(bool::read_from(0xc2, &mut Reader::new(&bytes)), Ok(false));
    assert_eq!(Option::<()>::read_from(0xc0, &mut Reader::new(&bytes)), Ok(None));
    assert_eq!(Option::<()>::read_from(0xc1, &mut Reader::new(&bytes)), Ok(Some(())));
    assert_eq!(
        Float32::read_from(0xca, &mut Reader::new(&bytes)),
        Ok(Float32 { bits: 0x1234_5678 })
    );
    assert_eq!(
        String::read_from(0xa2, &mut Reader::new(b"hi!")),
        Ok("hi".to_string())
    );
    assert_eq!(
        Vec::<Value>::read_from(0x92, &mut Reader::new(&bytes)),
        Ok(vec![Value::U8(0x12), Value::U8(0x34)])
    );
    assert_eq!(
        Vec::<(Value, Value)>::read_from(0x81, &mut Reader::new(&bytes)),
        Ok(vec![(Value::U8(0x12), Value::U8(0x34))])
    );
}

#[test]
fn optional_values_keep_only_their_discriminant() {
    let mut buffer = Vec::new();
    let none: Option<u32> = None;
    none.write_to(&mut buffer).unwrap();
    Some(77u32).write_to(&mut buffer).unwrap();
    Some("text").write_to(&mut buffer).unwrap();
    assert_eq!(buffer, vec![0xc0, 0xc1, 0xc1]);
}

#[test]
fn writers_append_to_what_is_there() {
    let mut buffer = vec![0xaa];
    5u8.write_to(&mut buffer).unwrap();
    200u8.write_to(&mut buffer).unwrap();
    0x0102u16.write_to(&mut buffer).unwrap();
    true.write_to(&mut buffer).unwrap();
    (-1i8).write_to(&mut buffer).unwrap();
    "ab".to_string().write_to(&mut buffer).unwrap();
    vec![1u8, 2].write_to(&mut buffer).unwrap();
    Extension::new(3, vec![4]).write_to(&mut buffer).unwrap();
    Float32 { bits: 1 }.write_to(&mut buffer).unwrap();
    assert_eq!(
        buffer,
        vec![
            0xaa, 0x05, 0xcc, 200, 0xcd, 1, 2, 0xc3, 0xff, 0xa2, b'a', b'b', 0xc4, 2, 1, 2, 0xc7,
            1, 3, 4, 0xca, 0, 0, 0, 1
        ]
    );
}

#[test]
fn pull_takes_exactly_what_is_asked() {
    let bytes = [1u8, 2, 3, 4, 5];
    let mut reader = Reader::new(&bytes);
    assert_eq!(reader.pull(0), Ok(&bytes[0..0]));
    assert_eq!(reader.pull(2), Ok(&bytes[0..2]));
    assert_eq!(reader.position(), 2);
    assert_eq!(reader.pull(4), Err(DecodeError::Truncated));
    assert_eq!(reader.position(), 2);
    assert_eq!(reader.pull(usize::MAX), Err(DecodeError::Truncated));
    assert_eq!(reader.pull(3), Ok(&bytes[2..5]));
    assert_eq!(reader.remaining(), 0);
    assert_eq!(reader.pull(1), Err(DecodeError::Truncated));
    assert_eq!(reader.pull(0), Ok(&bytes[5..5]));
}

#[test]
fn what_decodes_encodes_to_what_decodes_the_same() {
    let mut seen_ok = 0usize;
    let mut seen_err = 0usize;
    for first in 0u8..=255 {
        for second in 0u8..=255 {
            for third in [0x00u8, 0x41, 0x7f, 0x80, 0xc0, 0xff] {
                let bytes = [first, second, third, 0x01, 0x02];
                match decode(&bytes) {
                    Ok(value) => {
                        seen_ok += 1;
                        let again = encode(&value).unwrap();
                        assert_eq!(decode(&again), Ok(value), "input {:?}", bytes);
                    }
                    Err(error) => {
                        seen_err += 1;
                        assert!(
                            error == DecodeError::Truncated || error == DecodeError::InvalidUtf8,
                            "input {:?} gave {:?}",
                            bytes,
                            error
                        );
                    }
                }
            }
        }
    }
    assert!(seen_ok > 0);
    assert!(seen_err > 0);
}
