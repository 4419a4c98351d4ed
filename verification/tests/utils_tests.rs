use redscan::utils::encode_image_b64;

#[test]
fn successful_fetch_is_encoded_and_sized() {
    let bytes = b"hi".to_vec();
    let (b64, mime, size) = encode_image_b64(true, &bytes, Some("image/png".to_string()));
    assert_eq!(b64.as_deref(), Some("aGk="));
    assert_eq!(mime.as_deref(), Some("image/png"));
    assert_eq!(size, Some(2));
}

#[test]
fn longer_payloads_round_up_to_full_groups() {
    let bytes = b"hello world~".to_vec();
    let (b64, _, size) = encode_image_b64(true, &bytes, None);
    assert_eq!(b64.as_deref(), Some("aGVsbG8gd29ybGR+"));
    assert_eq!(size, Some(12));
}

#[test]
fn failed_fetch_stores_nothing() {
    let bytes = b"ignored".to_vec();
    let (b64, mime, size) = encode_image_b64(false, &bytes, Some("image/png".to_string()));
    assert!(b64.is_none());
    assert!(mime.is_none());
    assert!(size.is_none());
}

#[test]
fn empty_payload_encodes_to_the_empty_string() {
    let (b64, _, size) = encode_image_b64(true, &Vec::new(), None);
    assert_eq!(b64.as_deref(), Some(""));
    assert_eq!(size, Some(0));
}
