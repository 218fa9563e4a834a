use race_timer::timestamp::{decode_nanos, encode_nanos, TIMESTAMP_LEN};

#[test]
fn encodes_most_significant_byte_first() {
    assert_eq!(TIMESTAMP_LEN, 8);
    assert_eq!(encode_nanos(0), vec![0, 0, 0, 0, 0, 0, 0, 0]);
    assert_eq!(encode_nanos(1), vec![0, 0, 0, 0, 0, 0, 0, 1]);
    assert_eq!(encode_nanos(258), vec![0, 0, 0, 0, 0, 0, 1, 2]);
    assert_eq!(
        encode_nanos(0x0102_0304_0506_0708),
        vec![1, 2, 3, 4, 5, 6, 7, 8]
    );
    assert_eq!(encode_nanos(u64::MAX), vec![255; 8]);
}

#[test]
fn encoding_agrees_with_std() {
    for ns in [0u64, 1, 255, 256, 1_000_000_000, 0xDEAD_BEEF_0000_1234, u64::MAX - 1, u64::MAX] {
        assert_eq!(encode_nanos(ns), ns.to_be_bytes().to_vec());
    }
}

#[test]
fn round_trip_of_timestamps() {
    for ns in [0u64, 1, 255, 256, 65_535, 1_000_000_000, 1 << 56, u64::MAX - 1, u64::MAX] {
        assert_eq!(decode_nanos(&encode_nanos(ns)), Some(ns));
    }
}

#[test]
fn round_trip_of_blobs() {
    let blobs: [[u8; 8]; 3] =
        [[0; 8], [255; 8], [0x80, 0, 0, 1, 2, 3, 4, 5]];
    for blob in blobs.iter() {
        let ns = decode_nanos(blob).unwrap();
        assert_eq!(encode_nanos(ns), blob.to_vec());
    }
}

#[test]
fn decodes_known_blob() {
    assert_eq!(decode_nanos(&[0, 0, 0, 0, 0, 0x0D, 0x59, 0x66]), Some(874_854));
}

#[test]
fn blob_of_wrong_length_is_refused() {
    assert_eq!(decode_nanos(&[]), None);
    assert_eq!(decode_nanos(&[1, 2, 3, 4, 5, 6, 7]), None);
    assert_eq!(decode_nanos(&[1, 2, 3, 4, 5, 6, 7, 8, 9]), None);
    assert_eq!(decode_nanos(&[0; 16]), None);
}
