use laggard_catcher::timestamp::{decode_timestamp, encode_timestamp, TIMESTAMP_LEN};

#[test]
fn encode_zero_is_sixteen_zero_bytes() {
    assert_eq!(encode_timestamp(0), vec![0u8; 16]);
}

#[test]
fn encode_is_big_endian() {
    let body = encode_timestamp(0x0102);
    assert_eq!(body.len(), TIMESTAMP_LEN);
    assert_eq!(&body[..14], &[0u8; 14]);
    assert_eq!(body[14], 0x01);
    assert_eq!(body[15], 0x02);
    assert_eq!(body, 0x0102u128.to_be_bytes().to_vec());
}

#[test]
fn encode_largest_timestamp() {
    assert_eq!(encode_timestamp(u128::MAX), vec![0xffu8; 16]);
}

#[test]
fn decode_reads_back_encoded_value() {
    let ms: u128 = 1_700_000_000_123;
    assert_eq!(decode_timestamp(&encode_timestamp(ms)), Some(ms));
}

#[test]
fn decode_uses_first_sixteen_bytes_only() {
    let mut body = encode_timestamp(42);
    body.extend_from_slice(&[9, 9, 9]);
    assert_eq!(decode_timestamp(&body), Some(42));
}

#[test]
fn decode_short_body_is_none() {
    assert_eq!(decode_timestamp(&[0u8; 15]), None);
    assert_eq!(decode_timestamp(&[]), None);
}
