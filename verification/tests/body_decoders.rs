use kafka_codec::primitives::{
    decode_buffer, decode_buffer_with_version, Cursor, DecodeError, HeaderRequest, NullableString,
};
use kafka_codec::requests::{BodyApiVersionRequest, BodyMetadataRequest};
use kafka_codec::responses::BodyUnsupportedResponse;

#[test]
fn decode_header_fields_in_order() {
    let mut c = Cursor::new(&[0, 18, 0, 2, 0, 0, 0, 1, 255, 255]);
    let header = decode_buffer::<HeaderRequest>(&mut c).unwrap();
    assert_eq!(
        header,
        HeaderRequest {
            api_key: 18,
            api_version: 2,
            correlation_id: 1,
            client_id: NullableString::Null,
        }
    );
    assert_eq!(c.remaining(), 0);
}

#[test]
fn api_versions_body_consumes_nothing() {
    let mut c = Cursor::new(&[9, 9, 9]);
    let body = decode_buffer_with_version::<BodyApiVersionRequest>(&mut c, 2).unwrap();
    assert_eq!(body, BodyApiVersionRequest {});
    assert_eq!(c.offset(), 0);
    assert_eq!(c.remaining(), 3);
}

#[test]
fn api_versions_body_rejects_negative_version() {
    let mut c = Cursor::new(&[]);
    assert_eq!(
        decode_buffer_with_version::<BodyApiVersionRequest>(&mut c, -1),
        Err(DecodeError::UnsupportedVersion)
    );
}

#[test]
fn metadata_body_rejects_negative_version() {
    let mut c = Cursor::new(&[0, 0, 0, 0]);
    assert_eq!(
        decode_buffer_with_version::<BodyMetadataRequest>(&mut c, -2),
        Err(DecodeError::UnsupportedVersion)
    );
}

#[test]
fn metadata_body_at_version_3_leaves_flag_bytes_unread() {
    // an empty topics array followed by a stray byte: at version 3 the
    // auto-creation flag is absent from the wire, so the byte stays unread
    let mut c = Cursor::new(&[0, 0, 0, 0, 1]);
    let body = decode_buffer_with_version::<BodyMetadataRequest>(&mut c, 3).unwrap();
    assert_eq!(
        body,
        BodyMetadataRequest {
            topics: vec![],
            allow_auto_topic_creation: false,
        }
    );
    assert_eq!(c.offset(), 4);
}

#[test]
fn unsupported_response_body_consumes_nothing() {
    let mut c = Cursor::new(&[1, 2, 3]);
    let body = decode_buffer_with_version::<BodyUnsupportedResponse>(&mut c, 0).unwrap();
    assert_eq!(body, BodyUnsupportedResponse {});
    assert_eq!(c.offset(), 0);
}
