use blob_cli::checksum::{checksum_matches, digests_equal, payload_with_checksum};

const HELLO_MD5: [u8; 16] = [
    0x5d, 0x41, 0x40, 0x2a, 0xbc, 0x4b, 0x2a, 0x76, 0xb9, 0x71, 0x9d, 0x91, 0x10, 0x17, 0xc5, 0x92,
];

#[test]
fn payload_carries_md5_of_its_bytes() {
    let p = payload_with_checksum(b"hello".to_vec());
    assert_eq!(p.data, b"hello".to_vec());
    assert_eq!(p.checksum, HELLO_MD5);
}

#[test]
fn empty_payload_checksum() {
    let p = payload_with_checksum(Vec::new());
    let expected: [u8; 16] = [
        0xd4, 0x1d, 0x8c, 0xd9, 0x8f, 0x00, 0xb2, 0x04, 0xe9, 0x80, 0x09, 0x98, 0xec, 0xf8, 0x42, 0x7e,
    ];
    assert_eq!(p.checksum, expected);
}

#[test]
fn redownloaded_bytes_match_sent_checksum() {
    let p = payload_with_checksum(b"line one\nline two\n".to_vec());
    let downloaded = b"line one\nline two\n".to_vec();
    assert!(checksum_matches(&p.checksum, &downloaded));
    assert!(!checksum_matches(&p.checksum, b"line one\nline 2\n"));
}

#[test]
fn digests_compare_bytewise() {
    let mut other = HELLO_MD5;
    assert!(digests_equal(&HELLO_MD5, &other));
    other[15] ^= 1;
    assert!(!digests_equal(&HELLO_MD5, &other));
}
