use dogecoin_handshake::errors::{HeaderBuildError, NetworkSerializationError};
use dogecoin_handshake::messages::verack::Verack;
use dogecoin_handshake::network::{NetworkSerializable, NetworkType};

#[test]
fn test_build_verack_message() {
    let message = Verack::new(NetworkType::Test);
    let bytes = message.to_network_bytes();
    assert_eq!(
        &[
            0xFC, 0xC1, 0xB7, 0xDC, 'v' as u8, 'e' as u8, 'r' as u8, 'a' as u8, 'c' as u8,
            'k' as u8, 0x00, 0x00, 0x00, 0x00, 0x00, 0x00, 0x00, 0x00, 0x00, 0x00, 0x5D, 0xF6,
            0xE0, 0xE2
        ],
        bytes.unwrap().as_slice()
    );
}

#[test]
fn verack_checksum_is_the_same_on_every_network() {
    for network_type in [NetworkType::Main, NetworkType::Test, NetworkType::RegressionTest] {
        let bytes = Verack::new(network_type).to_network_bytes().unwrap();
        assert_eq!(24, bytes.len());
        assert_eq!(network_type.to_network_bytes().unwrap(), &bytes[..4]);
        assert_eq!([0x5D, 0xF6, 0xE0, 0xE2], &bytes[20..]);
        let parsed = Verack::from_network_bytes(&bytes).unwrap();
        assert_eq!(network_type, parsed.network_type());
    }
}

#[test]
fn verack_decoding_looks_at_the_header_only() {
    let mut bytes = Verack::new(NetworkType::Main).to_network_bytes().unwrap();
    bytes[16] = 9;
    bytes[23] = 0;
    bytes.extend_from_slice(&[1, 2, 3]);
    assert!(Verack::from_network_bytes(&bytes).is_ok());
}

#[test]
fn verack_decoding_failures() {
    let bytes = Verack::new(NetworkType::Main).to_network_bytes().unwrap();
    assert_eq!(
        Err(NetworkSerializationError::UnknownBytes),
        Verack::from_network_bytes(&bytes[..23])
    );
    let mut other = bytes.clone();
    other[4..11].copy_from_slice(b"version");
    assert_eq!(
        Err(NetworkSerializationError::UnknownBytes),
        Verack::from_network_bytes(&other)
    );
    let mut other = bytes.clone();
    other[1] = 0;
    assert_eq!(
        Err(NetworkSerializationError::HeaderParseError(
            HeaderBuildError::UnknownNetworkType
        )),
        Verack::from_network_bytes(&other)
    );
}
