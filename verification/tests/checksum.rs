use dogecoin_handshake::checksum::{calculate_message_hash, checksum_of_digest};

pub const VERSION_MESSAGE: [u8; 105] = [
    0x7f, 0x11, 0x01, 0x00, 0x05, 0x00, 0x00, 0x00, 0x00, 0x00, 0x00, 0x00, 0x51, 0x66, 0x34,
    0x64, 0x00, 0x00, 0x00, 0x00, 0x01, 0x00, 0x00, 0x00, 0x00, 0x00, 0x00, 0x00, 0x00, 0x00,
    0x00, 0x00, 0x00, 0x00, 0x00, 0x00, 0x00, 0x00, 0xff, 0xff, 0x34, 0x4d, 0xe7, 0x29, 0xae,
    0x0c, 0x05, 0x00, 0x00, 0x00, 0x00, 0x00, 0x00, 0x00, 0x00, 0x00, 0x00, 0x00, 0x00, 0x00,
    0x00, 0x00, 0x00, 0x00, 0x00, 0x00, 0x00, 0x00, 0x00, 0x00, 0x00, 0x00, 0x45, 0xdf, 0x74,
    0xaf, 0xc8, 0x94, 0x63, 0xf8, 0x13, 0x2f, 0x53, 0x68, 0x69, 0x62, 0x65, 0x74, 0x6f, 0x73,
    0x68, 0x69, 0x3a, 0x31, 0x2e, 0x31, 0x34, 0x2e, 0x36, 0x2f, 0x00, 0x00, 0x00, 0x00, 0x01,
];

#[test]
fn test_calculate_message_hash() {
    const EMPTY_MESSAGE: [u8; 0] = [];
    const EXPECTED_FOR_EMPTY_MESSAGE: [u8; 4] = [0x5D, 0xF6, 0xE0, 0xE2];
    assert_eq!(
        EXPECTED_FOR_EMPTY_MESSAGE,
        calculate_message_hash(&EMPTY_MESSAGE)
    );

    const EXPECTED_FOR_VERSION_MESSAGE: [u8; 4] = [0xA2, 0xBB, 0x58, 0x1C];
    assert_eq!(
        EXPECTED_FOR_VERSION_MESSAGE,
        calculate_message_hash(&VERSION_MESSAGE)
    );
}

#[test]
fn checksum_is_the_first_four_bytes_of_the_digest() {
    let mut digest = [0u8; 32];
    for (i, byte) in digest.iter_mut().enumerate() {
        *byte = 100 + i as u8;
    }
    assert_eq!([100, 101, 102, 103], checksum_of_digest(&digest));
}

#[test]
fn checksum_depends_on_the_message() {
    // A wrapper that handed its argument back would give the message's own
    // first bytes.
    assert_ne!([1, 2, 3, 4], calculate_message_hash(&[1, 2, 3, 4, 5]));
    assert_ne!(
        calculate_message_hash(&[1, 2, 3, 4, 5]),
        calculate_message_hash(&[1, 2, 3, 4, 6])
    );
    // SHA-256d("hello") starts with 95 95 c9 df.
    assert_eq!([0x95, 0x95, 0xc9, 0xdf], calculate_message_hash(b"hello"));
}
