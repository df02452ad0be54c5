use std::collections::HashMap;

use rayrust::error::RayError;
use rayrust::serialize::{
    build_xlang_header, deserialize_value, deserialize_xlang_value, frame_xlang,
    has_xlang_header, xlang_payload, XLANG_HEADER_LEN,
};

// msgpack encoding and decoding of typed values, as the embedding program
// does it with rmp-serde; the framing is the library's.

fn serialize<T: serde::Serialize>(value: &T) -> Result<Vec<u8>, rmp_serde::encode::Error> {
    rmp_serde::to_vec(value)
}

fn deserialize<T: serde::de::DeserializeOwned>(data: &[u8]) -> Result<T, rmp_serde::decode::Error> {
    rmp_serde::from_slice(data)
}

fn serialize_xlang<T: serde::Serialize>(value: &T) -> Result<Vec<u8>, rmp_serde::encode::Error> {
    let payload = serialize(value)?;
    Ok(frame_xlang(&payload))
}

fn deserialize_xlang<T: serde::de::DeserializeOwned>(
    data: &[u8],
) -> Result<T, rmp_serde::decode::Error> {
    deserialize(xlang_payload(data))
}

// ── Basic round-trip ──────────────────────────────────────

#[test]
fn test_serialize_deserialize_roundtrip() {
    let val: i64 = 42;
    let bytes = serialize(&val).unwrap();
    let back: i64 = deserialize(&bytes).unwrap();
    assert_eq!(val, back);
}

// ── XLANG header construction & detection ──────────────────

#[test]
fn test_serialize_xlang_header_format() {
    // Small payload (len <= 0x7f): first byte is the length as positive fixint
    let header = build_xlang_header(5);
    assert_eq!(header[0], 5);
    assert_eq!(header[1..], [0u8; 8]);

    // Medium payload (len <= 0xff): uint8 format
    let header = build_xlang_header(200);
    assert_eq!(header[0], 0xcc);
    assert_eq!(header[1], 200);
    assert_eq!(header[2..], [0u8; 7]);

    // Larger payload (len <= 0xffff): uint16 format
    let header = build_xlang_header(1000);
    assert_eq!(header[0], 0xcd);
    assert_eq!(header[1..3], [0x03, 0xe8]);
}

#[test]
fn test_has_xlang_header() {
    // No header — raw msgpack
    let raw = serialize(&42i64).unwrap();
    assert!(!has_xlang_header(&raw));

    // With header
    let xlang = serialize_xlang(&42i64).unwrap();
    assert!(has_xlang_header(&xlang));

    // With header — larger data
    let big_data = vec![0u8; 200];
    let xlang_big = serialize_xlang(&big_data).unwrap();
    assert!(has_xlang_header(&xlang_big));

    // Empty-ish data
    assert!(!has_xlang_header(&[]));
    assert!(!has_xlang_header(&[0u8; 5]));
}

#[test]
fn test_has_xlang_header_non_zero_padding() {
    // Header padding holding metadata, as Ray 2.51.1+ writes it.
    let payload = serialize(&42i64).unwrap(); // single byte: 0x2a
    let mut data = vec![payload.len() as u8]; // fixint = 1
    data.extend_from_slice(&[0x81, 0x04, 0x64, 0x28, 0x7f, 0x00, 0x00, 0x40]);
    data.extend_from_slice(&payload);
    assert_eq!(data.len(), 10);
    assert!(has_xlang_header(&data));

    // Should correctly strip and deserialize
    let back: i64 = deserialize_xlang(&data).unwrap();
    assert_eq!(back, 42);
}

#[test]
fn test_has_xlang_header_uint8_len() {
    // Payload > 127 bytes: header uses uint8 format (0xcc + 1 byte)
    let payload_str = "x".repeat(200);
    let payload = serialize(&payload_str).unwrap();
    assert!(payload.len() > 127 && payload.len() <= 255,
        "payload len = {}, expected 128-255", payload.len());
    let xlang = serialize_xlang(&payload_str).unwrap();
    assert!(has_xlang_header(&xlang));
    let back: String = deserialize_xlang(&xlang).unwrap();
    assert_eq!(back.len(), 200);
}

#[test]
fn test_has_xlang_header_uint16_len() {
    // Payload > 255 bytes: header uses uint16 format (0xcd + 2 bytes)
    let payload_str = "x".repeat(1000);
    let payload = serialize(&payload_str).unwrap();
    assert!(payload.len() > 255,
        "payload len = {}, expected > 255", payload.len());
    let xlang = serialize_xlang(&payload_str).unwrap();
    assert!(has_xlang_header(&xlang));
    let back: String = deserialize_xlang(&xlang).unwrap();
    assert_eq!(back.len(), 1000);
}

#[test]
fn test_has_xlang_header_uint32_len() {
    // Payload > 65535 bytes: header uses uint32 format (0xce + 4 bytes)
    let big_string = "x".repeat(70000);
    let payload = serialize(&big_string).unwrap();
    assert!(payload.len() > 65535);
    let xlang = serialize_xlang(&big_string).unwrap();
    assert!(has_xlang_header(&xlang));
    let back: String = deserialize_xlang(&xlang).unwrap();
    assert_eq!(back.len(), 70000);
}

// ── XLANG round-trip: all primitive types ──────────────────

#[test]
fn test_serialize_xlang_roundtrip() {
    let val = vec![1i64, 2, 3, 4, 5];
    let xlang_bytes = serialize_xlang(&val).unwrap();
    let payload_len = serialize(&val).unwrap().len();
    assert_eq!(xlang_bytes.len(), XLANG_HEADER_LEN + payload_len);
    let back: Vec<i64> = deserialize_xlang(&xlang_bytes).unwrap();
    assert_eq!(val, back);
}

#[test]
fn test_serialize_xlang_string() {
    let val = "hello".to_string();
    let xlang_bytes = serialize_xlang(&val).unwrap();
    let back: String = deserialize_xlang(&xlang_bytes).unwrap();
    assert_eq!(val, back);
}

#[test]
fn test_serialize_xlang_bool() {
    let xlang = serialize_xlang(&true).unwrap();
    let back: bool = deserialize_xlang(&xlang).unwrap();
    assert!(back);

    let xlang = serialize_xlang(&false).unwrap();
    let back: bool = deserialize_xlang(&xlang).unwrap();
    assert!(!back);
}

#[test]
fn test_serialize_xlang_f64() {
    let val: f64 = 3.141592653589793;
    let xlang = serialize_xlang(&val).unwrap();
    let back: f64 = deserialize_xlang(&xlang).unwrap();
    assert_eq!(val, back);
}

#[test]
fn test_serialize_xlang_none() {
    let val: Option<i64> = None;
    let xlang = serialize_xlang(&val).unwrap();
    let back: Option<i64> = deserialize_xlang(&xlang).unwrap();
    assert_eq!(val, back);
}

#[test]
fn test_serialize_xlang_i32() {
    let val: i32 = -12345;
    let xlang = serialize_xlang(&val).unwrap();
    let back: i32 = deserialize_xlang(&xlang).unwrap();
    assert_eq!(val, back);
}

// ── XLANG round-trip: complex types ────────────────────────

#[test]
fn test_serialize_xlang_empty_list() {
    let val: Vec<i64> = vec![];
    let xlang = serialize_xlang(&val).unwrap();
    let back: Vec<i64> = deserialize_xlang(&xlang).unwrap();
    assert_eq!(val, back);
    assert!(back.is_empty());
}

#[test]
fn test_serialize_xlang_empty_map() {
    let val: HashMap<String, i64> = HashMap::new();
    let xlang = serialize_xlang(&val).unwrap();
    let back: HashMap<String, i64> = deserialize_xlang(&xlang).unwrap();
    assert_eq!(val, back);
    assert!(back.is_empty());
}

#[test]
fn test_serialize_xlang_nested_vec() {
    let val: Vec<Vec<i64>> = vec![vec![1, 2], vec![3, 4, 5], vec![]];
    let xlang = serialize_xlang(&val).unwrap();
    let back: Vec<Vec<i64>> = deserialize_xlang(&xlang).unwrap();
    assert_eq!(val, back);
}

#[test]
fn test_serialize_xlang_tuple() {
    let val = (42i64, "hello".to_string(), true);
    let xlang = serialize_xlang(&val).unwrap();
    let back: (i64, String, bool) = deserialize_xlang(&xlang).unwrap();
    assert_eq!(val, back);
}

#[test]
fn test_serialize_xlang_large_list() {
    let val: Vec<i64> = (0..10000).collect();
    let xlang = serialize_xlang(&val).unwrap();
    let back: Vec<i64> = deserialize_xlang(&xlang).unwrap();
    assert_eq!(val, back);
}

// ── Auto-detect: with and without header ──────────────────

#[test]
fn test_deserialize_xlang_auto_detect_no_header() {
    let val = vec![1i64, 2, 3, 4, 5];
    let raw_bytes = serialize(&val).unwrap();
    let back: Vec<i64> = deserialize_xlang(&raw_bytes).unwrap();
    assert_eq!(val, back);
}

#[test]
fn test_deserialize_xlang_auto_detect_with_header() {
    let val = vec![1i64, 2, 3, 4, 5];
    let xlang_bytes = serialize_xlang(&val).unwrap();
    let back: Vec<i64> = deserialize_xlang(&xlang_bytes).unwrap();
    assert_eq!(val, back);
}

#[test]
fn test_deserialize_xlang_auto_detect_non_zero_padding() {
    // Header padding holding metadata, as Ray 2.51.1+ writes it.
    let payload = serialize(&vec![1i64, 2, 3]).unwrap();
    let mut data = vec![payload.len() as u8];
    data.extend_from_slice(&[0xff, 0xff, 0xff, 0xff, 0xff, 0xff, 0xff, 0xff]);
    data.extend_from_slice(&payload);
    let back: Vec<i64> = deserialize_xlang(&data).unwrap();
    assert_eq!(back, vec![1, 2, 3]);
}

// ── rmpv::Value deserialization ────────────────────────────

#[test]
fn test_deserialize_xlang_value_list() {
    let val = vec![10i64, 20, 30];
    let xlang_bytes = serialize_xlang(&val).unwrap();
    let value = deserialize_xlang_value(&xlang_bytes).unwrap();
    assert!(value.is_array());
    let arr = value.as_array().unwrap();
    assert_eq!(arr.len(), 3);
    assert_eq!(arr[0].as_i64().unwrap(), 10);
    assert_eq!(arr[1].as_i64().unwrap(), 20);
    assert_eq!(arr[2].as_i64().unwrap(), 30);
}

#[test]
fn test_deserialize_xlang_value_dict() {
    let map_value = rmpv::Value::Map(vec![
        (rmpv::Value::String("name".into()), rmpv::Value::String("alice".into())),
        (rmpv::Value::String("age".into()), rmpv::Value::Integer(30.into())),
    ]);
    let xlang_bytes = serialize_xlang(&map_value).unwrap();
    let value = deserialize_xlang_value(&xlang_bytes).unwrap();
    assert!(value.is_map());

    let entries = value.as_map().unwrap();
    let name_val = entries.iter()
        .find(|(k, _)| k.as_str() == Some("name"))
        .map(|(_, v)| v)
        .unwrap();
    assert_eq!(name_val.as_str().unwrap(), "alice");

    let age_val = entries.iter()
        .find(|(k, _)| k.as_str() == Some("age"))
        .map(|(_, v)| v)
        .unwrap();
    assert_eq!(age_val.as_i64().unwrap(), 30);
}

#[test]
fn test_deserialize_xlang_value_none() {
    let val: Option<i64> = None;
    let xlang_bytes = serialize_xlang(&val).unwrap();
    let value = deserialize_xlang_value(&xlang_bytes).unwrap();
    assert!(value.is_nil());
}

#[test]
fn test_deserialize_xlang_value_nested() {
    let mut inner1 = HashMap::new();
    inner1.insert("id".to_string(), 1i64);
    let mut inner2 = HashMap::new();
    inner2.insert("id".to_string(), 2i64);
    let mut outer = HashMap::new();
    outer.insert("items".to_string(), vec![inner1, inner2]);

    let xlang_bytes = serialize_xlang(&outer).unwrap();
    let value = deserialize_xlang_value(&xlang_bytes).unwrap();
    assert!(value.is_map());

    let entries = value.as_map().unwrap();
    let items = entries.iter()
        .find(|(k, _)| k.as_str() == Some("items"))
        .map(|(_, v)| v)
        .unwrap();
    assert!(items.is_array());
    assert_eq!(items.as_array().unwrap().len(), 2);
}

#[test]
fn test_deserialize_xlang_value_mixed_array() {
    // Python's [42, "hello", True, None, 3.14]
    let mixed = rmpv::Value::Array(vec![
        rmpv::Value::Integer(42.into()),
        rmpv::Value::String("hello".into()),
        rmpv::Value::Boolean(true),
        rmpv::Value::Nil,
        rmpv::Value::F32(3.14),
    ]);
    let xlang = serialize_xlang(&mixed).unwrap();
    let val = deserialize_xlang_value(&xlang).unwrap();
    assert!(val.is_array());
    let arr = val.as_array().unwrap();
    assert_eq!(arr.len(), 5);
    assert_eq!(arr[0].as_i64().unwrap(), 42);
    assert_eq!(arr[1].as_str().unwrap(), "hello");
    assert_eq!(arr[2].as_bool().unwrap(), true);
    assert!(arr[3].is_nil());
}

#[test]
fn test_deserialize_xlang_value_empty_list() {
    let val: Vec<i64> = vec![];
    let xlang = serialize_xlang(&val).unwrap();
    let value = deserialize_xlang_value(&xlang).unwrap();
    assert!(value.is_array());
    assert_eq!(value.as_array().unwrap().len(), 0);
}

#[test]
fn test_deserialize_value_string() {
    let val = "hello world".to_string();
    let bytes = serialize(&val).unwrap();
    let value = deserialize_value(&bytes).unwrap();
    assert_eq!(value.as_str().unwrap(), "hello world");
}

#[test]
fn test_deserialize_value_bool() {
    let bytes = serialize(&true).unwrap();
    let value = deserialize_value(&bytes).unwrap();
    assert_eq!(value.as_bool().unwrap(), true);
}

// ── False-positive guard: raw msgpack that looks like XLANG ──

#[test]
fn test_has_xlang_header_false_positive_guard() {
    // A raw msgpack positive fixint of value 0 (1 byte total) is too short.
    let raw = serialize(&0i64).unwrap();
    assert!(!has_xlang_header(&raw));

    // fixarray marker 0x09 followed by 9 single-byte values = 10 bytes total.
    // 0x09 reads as fixint 9, but one byte follows the header: not XLANG.
    let raw = serialize(&vec![1i64, 2, 3, 4, 5, 6, 7, 8, 9]).unwrap();
    let back: Vec<i64> = deserialize_xlang(&raw).unwrap();
    assert_eq!(back, vec![1, 2, 3, 4, 5, 6, 7, 8, 9]);
}

#[test]
fn test_serialize_xlang_then_serialize_again() {
    let val = 42i64;
    let xlang1 = serialize_xlang(&val).unwrap();
    // Wrapping already wrapped data:
    let xlang2 = serialize_xlang(&xlang1).unwrap();
    // has_xlang_header detects the outer header
    assert!(has_xlang_header(&xlang2));
    // First strip gives the inner xlang data
    let inner: Vec<u8> = deserialize_xlang(&xlang2).unwrap();
    // has_xlang_header detects the inner header too
    assert!(has_xlang_header(&inner));
    // Second strip gives the value back
    let val_back: i64 = deserialize_xlang(&inner).unwrap();
    assert_eq!(val_back, 42);
}

// ── Further cases of the framing ───────────────────────────

#[test]
fn xlang_header_uint32_form_and_truncation() {
    assert_eq!(build_xlang_header(0x1_0000), [0xce, 0x00, 0x01, 0x00, 0x00, 0, 0, 0, 0]);
    assert_eq!(build_xlang_header(0x7f), [0x7f, 0, 0, 0, 0, 0, 0, 0, 0]);
    assert_eq!(build_xlang_header(0x80), [0xcc, 0x80, 0, 0, 0, 0, 0, 0, 0]);
    assert_eq!(build_xlang_header(0x100), [0xcd, 0x01, 0x00, 0, 0, 0, 0, 0, 0]);
    if usize::BITS == 64 {
        let len = 0x1_0000_0005u64 as usize;
        assert_eq!(build_xlang_header(len), [0xce, 0, 0, 0, 5, 0, 0, 0, 0]);
    }
}

#[test]
fn frame_then_strip_gives_payload_back() {
    let payload = vec![0x93, 0x01, 0x02, 0x03];
    let framed = frame_xlang(&payload);
    assert_eq!(framed.len(), 9 + payload.len());
    assert_eq!(&framed[..9], &[4, 0, 0, 0, 0, 0, 0, 0, 0]);
    assert!(has_xlang_header(&framed));
    assert_eq!(xlang_payload(&framed), &payload[..]);
    // Double wrapping strips one layer at a time.
    let twice = frame_xlang(&framed);
    assert_eq!(xlang_payload(&twice), &framed[..]);
}

#[test]
fn empty_payload_frame_is_not_taken_for_a_header() {
    let framed = frame_xlang(&[]);
    assert_eq!(framed, vec![0u8; 9]);
    assert!(!has_xlang_header(&framed));
    assert_eq!(xlang_payload(&framed), &framed[..]);
}

#[test]
fn header_forms_are_recognised_by_declared_length() {
    let mut d = vec![0xcd, 0x00, 0x02, 9, 9, 9, 9, 9, 9];
    d.extend_from_slice(&[1, 2]);
    assert!(has_xlang_header(&d));
    let mut d = vec![0xce, 0x00, 0x00, 0x00, 0x03, 9, 9, 9, 9];
    d.extend_from_slice(&[1, 2, 3]);
    assert!(has_xlang_header(&d));
    assert_eq!(xlang_payload(&d), &[1, 2, 3]);
    // Any other first byte is not a length.
    let mut d = vec![0xc0, 0, 0, 0, 0, 0, 0, 0, 0];
    d.push(0);
    assert!(!has_xlang_header(&d));
    // A wrong length is not a header.
    let d = vec![5, 0, 0, 0, 0, 0, 0, 0, 0, 1];
    assert!(!has_xlang_header(&d));
    assert_eq!(xlang_payload(&d), &d[..]);
}

#[test]
fn deserialize_value_reports_decode_errors() {
    // A str8 marker announcing more bytes than follow.
    let bytes = [0xd9, 0x05, b'a'];
    let err = deserialize_value(&bytes).unwrap_err();
    let mut reader = &bytes[..];
    let rmpv_text = rmpv::decode::read_value(&mut reader).unwrap_err().to_string();
    match err {
        RayError::Serialization(m) => {
            assert_eq!(m, format!("msgpack value decode error: {}", rmpv_text))
        }
        other => panic!("unexpected error {:?}", other),
    }
    // The cross-language form fails with the same text on the same payload.
    match deserialize_xlang_value(&bytes).unwrap_err() {
        RayError::Serialization(m) => {
            assert_eq!(m, format!("msgpack value decode error: {}", rmpv_text))
        }
        other => panic!("unexpected error {:?}", other),
    }
    assert!(deserialize_value(&[]).is_err());
    let v = deserialize_xlang_value(&[0xc3]).unwrap();
    assert_eq!(v.as_bool(), Some(true));
}
