use wasm_renderer::export::{data_url_payload, decode_image_payload, jpeg_data_url, ExportError};

#[test]
fn payload_strips_png_and_jpeg_headers() {
    assert_eq!(data_url_payload("data:image/png;base64,aGk="), "aGk=");
    assert_eq!(data_url_payload("data:image/jpeg;base64,aGk="), "aGk=");
    assert_eq!(data_url_payload("aGk="), "aGk=");
    assert_eq!(data_url_payload("data:image/gif;base64,aGk="), "data:image/gif;base64,aGk=");
}

#[test]
fn decode_image_payload_bytes() {
    assert_eq!(decode_image_payload("data:image/png;base64,aGk=").unwrap(), b"hi".to_vec());
    assert_eq!(decode_image_payload("data:image/jpeg;base64,AAEC").unwrap(), vec![0u8, 1, 2]);
    assert_eq!(decode_image_payload("aGVsbG8=").unwrap(), b"hello".to_vec());
}

#[test]
fn decode_image_payload_rejects_bad_base64() {
    assert!(matches!(decode_image_payload("data:image/png;base64,@@@"), Err(ExportError::Decode(_))));
    assert!(matches!(decode_image_payload("data:image/gif;base64,aGk="), Err(ExportError::Decode(_))));
}

#[test]
fn jpeg_data_url_encodes() {
    assert_eq!(jpeg_data_url(&b"hi".to_vec()), "data:image/jpeg;base64,aGk=");
    assert_eq!(jpeg_data_url(&Vec::new()), "data:image/jpeg;base64,");
}
