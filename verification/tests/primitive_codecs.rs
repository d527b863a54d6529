use kafka_codec::primitives::{
    decode_buffer, Cursor, DecodeError, NullableString,
};

#[test]
fn decode_int8_values() {
    let mut c = Cursor::new(&[0x7f, 0x80, 0x00]);
    assert_eq!(decode_buffer::<i8>(&mut c), Ok(127));
    assert_eq!(decode_buffer::<i8>(&mut c), Ok(-128));
    assert_eq!(decode_buffer::<i8>(&mut c), Ok(0));
}

#[test]
fn decode_int16_values() {
    let mut c = Cursor::new(&[0x00, 0x12, 0xff, 0xff, 0x80, 0x00, 0x7f, 0xff]);
    assert_eq!(decode_buffer::<i16>(&mut c), Ok(18));
    assert_eq!(decode_buffer::<i16>(&mut c), Ok(-1));
    assert_eq!(decode_buffer::<i16>(&mut c), Ok(-32768));
    assert_eq!(decode_buffer::<i16>(&mut c), Ok(32767));
    assert_eq!(c.offset(), 8);
}

#[test]
fn decode_int32_values() {
    let mut c = Cursor::new(&[
        0x00, 0x00, 0x00, 0x01, //
        0xff, 0xff, 0xff, 0xff, //
        0x80, 0x00, 0x00, 0x00, //
        0x7f, 0xff, 0xff, 0xff,
    ]);
    assert_eq!(decode_buffer::<i32>(&mut c), Ok(1));
    assert_eq!(decode_buffer::<i32>(&mut c), Ok(-1));
    assert_eq!(decode_buffer::<i32>(&mut c), Ok(i32::MIN));
    assert_eq!(decode_buffer::<i32>(&mut c), Ok(i32::MAX));
}

#[test]
fn decode_bool_any_nonzero_byte_is_true() {
    let mut c = Cursor::new(&[0, 1, 2, 255]);
    assert_eq!(decode_buffer::<bool>(&mut c), Ok(false));
    assert_eq!(decode_buffer::<bool>(&mut c), Ok(true));
    assert_eq!(decode_buffer::<bool>(&mut c), Ok(true));
    assert_eq!(decode_buffer::<bool>(&mut c), Ok(true));
}

#[test]
fn truncated_fixed_width_fields_underflow() {
    let empty: &[u8] = &[];
    assert_eq!(
        decode_buffer::<i8>(&mut Cursor::new(empty)),
        Err(DecodeError::BufferUnderflow)
    );
    assert_eq!(
        decode_buffer::<bool>(&mut Cursor::new(empty)),
        Err(DecodeError::BufferUnderflow)
    );
    assert_eq!(
        decode_buffer::<i16>(&mut Cursor::new(&[0])),
        Err(DecodeError::BufferUnderflow)
    );
    assert_eq!(
        decode_buffer::<i32>(&mut Cursor::new(&[0, 0, 0])),
        Err(DecodeError::BufferUnderflow)
    );
}

#[test]
fn null_and_empty_strings_are_distinct() {
    let null = decode_buffer::<NullableString>(&mut Cursor::new(&[0xff, 0xff])).unwrap();
    let empty = decode_buffer::<NullableString>(&mut Cursor::new(&[0x00, 0x00])).unwrap();
    assert_eq!(null, NullableString::Null);
    assert_eq!(empty, NullableString::Value(String::new()));
    assert_ne!(null, empty);
    assert!(null.is_null());
    assert!(!empty.is_null());
}

#[test]
fn string_length_below_minus_one_is_bad_data() {
    // length prefix -2
    assert_eq!(
        decode_buffer::<NullableString>(&mut Cursor::new(&[0xff, 0xfe])),
        Err(DecodeError::BadData)
    );
}

#[test]
fn string_payload_longer_than_buffer_underflows() {
    // length prefix 5, but only two payload bytes remain
    assert_eq!(
        decode_buffer::<NullableString>(&mut Cursor::new(&[0, 5, 97, 98])),
        Err(DecodeError::BufferUnderflow)
    );
}

#[test]
fn string_with_invalid_utf8_payload_is_rejected() {
    // 0xc3 announces a two-byte sequence, but 0x28 is not a continuation byte
    assert_eq!(
        decode_buffer::<NullableString>(&mut Cursor::new(&[0, 2, 0xc3, 0x28])),
        Err(DecodeError::InvalidUtf8)
    );
}

#[test]
fn string_with_multibyte_utf8_payload_is_decoded() {
    let mut c = Cursor::new(&[0, 2, 0xc3, 0xa9]);
    assert_eq!(
        decode_buffer::<NullableString>(&mut c),
        Ok(NullableString::Value(String::from("\u{e9}")))
    );
    assert_eq!(c.offset(), 4);
}

#[test]
fn array_elements_are_decoded_in_order() {
    let mut c = Cursor::new(&[
        0, 0, 0, 3, // count
        0, 1, 97, // "a"
        255, 255, // null
        0, 1, 98, // "b"
    ]);
    assert_eq!(
        decode_buffer::<Vec<NullableString>>(&mut c),
        Ok(vec![
            NullableString::Value(String::from("a")),
            NullableString::Null,
            NullableString::Value(String::from("b")),
        ])
    );
}

#[test]
fn negative_array_count_is_bad_data() {
    assert_eq!(
        decode_buffer::<Vec<NullableString>>(&mut Cursor::new(&[0xff, 0xff, 0xff, 0xff])),
        Err(DecodeError::BadData)
    );
}

#[test]
fn array_stops_at_first_element_error() {
    // two elements announced, the first is fine, the second is truncated
    assert_eq!(
        decode_buffer::<Vec<NullableString>>(&mut Cursor::new(&[0, 0, 0, 2, 0, 1, 97, 0, 3])),
        Err(DecodeError::BufferUnderflow)
    );
}
