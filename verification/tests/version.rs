use dogecoin_handshake::errors::{
    HeaderBuildError, IntegerParsingFailure, NetworkSerializationError,
};
use dogecoin_handshake::header::Header;
use dogecoin_handshake::messages::version::{IpData, Version, VersionMessageData};
use dogecoin_handshake::network::{NetworkSerializable, NetworkType};

const FULL_VERSION_MESSAGE: [u8; 129] = [
    0xfc, 0xc1, 0xb7, 0xdc, 0x76, 0x65, 0x72, 0x73, 0x69, 0x6f, 0x6e, 0x00, 0x00, 0x00, 0x00,
    0x00, 0x69, 0x00, 0x00, 0x00, 0xa2, 0xbb, 0x58, 0x1c, 0x7f, 0x11, 0x01, 0x00, 0x05, 0x00,
    0x00, 0x00, 0x00, 0x00, 0x00, 0x00, 0x51, 0x66, 0x34, 0x64, 0x00, 0x00, 0x00, 0x00, 0x01,
    0x00, 0x00, 0x00, 0x00, 0x00, 0x00, 0x00, 0x00, 0x00, 0x00, 0x00, 0x00, 0x00, 0x00, 0x00,
    0x00, 0x00, 0xff, 0xff, 0x34, 0x4d, 0xe7, 0x29, 0xae, 0x0c, 0x05, 0x00, 0x00, 0x00, 0x00,
    0x00, 0x00, 0x00, 0x00, 0x00, 0x00, 0x00, 0x00, 0x00, 0x00, 0x00, 0x00, 0x00, 0x00, 0x00,
    0x00, 0x00, 0x00, 0x00, 0x00, 0x00, 0x45, 0xdf, 0x74, 0xaf, 0xc8, 0x94, 0x63, 0xf8, 0x13,
    0x2f, 0x53, 0x68, 0x69, 0x62, 0x65, 0x74, 0x6f, 0x73, 0x68, 0x69, 0x3a, 0x31, 0x2e, 0x31,
    0x34, 0x2e, 0x36, 0x2f, 0x00, 0x00, 0x00, 0x00, 0x01,
];

#[test]
fn test_fill_version_message_data() {
    let data = Version::new(NetworkType::Test, 0, "invalid ip", 0, 0, "");
    assert!(data.is_err());
    assert_eq!(data.unwrap_err(), IntegerParsingFailure);

    let data = Version::new(
        NetworkType::Test,
        1681155665,
        "52.77.231.41",
        44556,
        17898312933758525253,
        "/Shibetoshi:1.14.6/",
    );
    assert!(data.is_ok());
    assert_eq!(
        VersionMessageData {
            protocol_version: 70015,
            local_node_services: 5,
            unix_timestamp: 1681155665,
            node_ip_data: IpData {
                node_services: 1,
                ip_address: [0, 0, 0, 0, 0, 0, 0, 0, 0, 0, 0xFF, 0xFF, 52, 77, 231, 41],
                port: 44556,
            },
            our_ip_data: IpData {
                node_services: 5,
                ip_address: [0; 16],
                port: 0,
            },
            nonce: 17898312933758525253,
            client_name: "/Shibetoshi:1.14.6/".to_string(),
            node_starting_height: 0,
            relay_transactions: true,
        },
        data.unwrap().data
    );
}

#[test]
fn test_build_version_message() {
    let data = Version::new(
        NetworkType::Test,
        1681155665,
        "52.77.231.41",
        44556,
        17898312933758525253,
        "/Shibetoshi:1.14.6/",
    );
    assert!(data.is_ok());
    let data = data.unwrap();

    let bytes = data.to_network_bytes();
    assert!(bytes.is_ok());
    assert_eq!(&FULL_VERSION_MESSAGE, bytes.unwrap().as_slice());
}

#[test]
fn test_parse_version_message() {
    let data = Version::from_network_bytes(&FULL_VERSION_MESSAGE).unwrap();

    let header = data.header;
    let data = data.data;

    assert_eq!(header.network_type, NetworkType::Test);
    assert_eq!(header.command, "version");
    assert_eq!(header.message_size, 105);
    assert_eq!(header.hash, [0xa2, 0xbb, 0x58, 0x1c]);

    assert_eq!(data.protocol_version, 70015);
    assert_eq!(data.local_node_services, 5);
    assert_eq!(data.unix_timestamp, 1681155665);

    assert_eq!(data.node_ip_data.node_services, 1);
    assert_eq!(
        data.node_ip_data.ip_address,
        [0, 0, 0, 0, 0, 0, 0, 0, 0, 0, 255, 255, 52, 77, 231, 41]
    );
    assert_eq!(data.node_ip_data.port, 44556);

    assert_eq!(data.our_ip_data.node_services, 5);
    assert_eq!(data.our_ip_data.ip_address, [0; 16]);
    assert_eq!(data.our_ip_data.port, 0);

    assert_eq!(data.nonce, 17898312933758525253);
    assert_eq!(data.client_name, "/Shibetoshi:1.14.6/");
    assert_eq!(data.node_starting_height, 0);
    assert_eq!(data.relay_transactions, true);
}

#[test]
fn new_version_header_holds_no_length_yet() {
    let version = Version::new(NetworkType::Main, 7, "1.2.3.4", 8, 9, "x").unwrap();
    assert_eq!(
        Header {
            network_type: NetworkType::Main,
            command: "version".to_string(),
            message_size: 0,
            hash: [0; 4],
        },
        version.header
    );
}

#[test]
fn version_round_trip() {
    let version = Version::new(
        NetworkType::RegressionTest,
        u64::MAX,
        "255.0.10.1",
        65535,
        0x0102030405060708,
        "agent",
    )
    .unwrap();
    let bytes = version.to_network_bytes().unwrap();
    assert_eq!(24 + 80 + 6 + 5, bytes.len());
    let parsed = Version::from_network_bytes(&bytes).unwrap();
    assert_eq!(version.data, parsed.data);
    assert_eq!(NetworkType::RegressionTest, parsed.header.network_type);
    assert_eq!("version", parsed.header.command);
    assert_eq!(91, parsed.header.message_size);
    assert_eq!(&bytes[20..24], &parsed.header.hash);
}

#[test]
fn version_is_written_with_its_own_command() {
    let mut version = Version::new(NetworkType::Test, 1, "1.2.3.4", 2, 3, "").unwrap();
    version.header.command = "verylongcommandname".to_string();
    version.header.message_size = 77;
    let bytes = version.to_network_bytes().unwrap();
    assert_eq!(b"version\0\0\0\0\0", &bytes[4..16]);
    assert_eq!([86, 0, 0, 0], &bytes[16..20]);
}

#[test]
fn version_with_another_command_is_unknown() {
    let mut bytes = FULL_VERSION_MESSAGE;
    bytes[4..16].copy_from_slice(b"verack\0\0\0\0\0\0");
    assert_eq!(
        Err(NetworkSerializationError::UnknownBytes),
        Version::from_network_bytes(&bytes)
    );
}

#[test]
fn version_header_errors_are_handed_on() {
    let mut bytes = FULL_VERSION_MESSAGE;
    bytes[0] = 0;
    assert_eq!(
        Err(NetworkSerializationError::HeaderParseError(
            HeaderBuildError::UnknownNetworkType
        )),
        Version::from_network_bytes(&bytes)
    );
    let mut bytes = FULL_VERSION_MESSAGE;
    bytes[4..16].copy_from_slice(&[0; 12]);
    assert_eq!(
        Err(NetworkSerializationError::HeaderParseError(
            HeaderBuildError::CommandIsEmpty
        )),
        Version::from_network_bytes(&bytes)
    );
}

#[test]
fn truncated_version_fails() {
    assert_eq!(
        Err(NetworkSerializationError::UnknownBytes),
        Version::from_network_bytes(&FULL_VERSION_MESSAGE[..108])
    );
    assert_eq!(
        Err(NetworkSerializationError::UnknownBytes),
        Version::from_network_bytes(&[])
    );
    // 109 bytes pass the first test, and the payload of 85 is then too short.
    assert_eq!(
        Err(NetworkSerializationError::BufferTooShort),
        Version::from_network_bytes(&FULL_VERSION_MESSAGE[..109])
    );
    for end in 110..129 {
        assert_eq!(
            Err(NetworkSerializationError::BufferTooShort),
            Version::from_network_bytes(&FULL_VERSION_MESSAGE[..end])
        );
    }
}

#[test]
fn version_ignores_bytes_behind_the_payload_and_reads_any_relay_byte() {
    let mut bytes = FULL_VERSION_MESSAGE.to_vec();
    bytes[128] = 2;
    bytes.extend_from_slice(&[1, 2, 3]);
    let parsed = Version::from_network_bytes(&bytes).unwrap();
    assert!(parsed.data.relay_transactions);
    bytes[128] = 0;
    let parsed = Version::from_network_bytes(&bytes).unwrap();
    assert!(!parsed.data.relay_transactions);
    assert_eq!(105, parsed.header.message_size);
}

#[test]
fn version_data_round_trip_with_empty_name() {
    let data = VersionMessageData {
        protocol_version: 1,
        local_node_services: 2,
        unix_timestamp: 3,
        node_ip_data: IpData { node_services: 4, ip_address: [5; 16], port: 6 },
        our_ip_data: IpData { node_services: 7, ip_address: [8; 16], port: 9 },
        nonce: 10,
        client_name: String::new(),
        node_starting_height: 11,
        relay_transactions: false,
    };
    let bytes = data.to_network_bytes().unwrap();
    assert_eq!(86, bytes.len());
    assert_eq!(0, bytes[80]);
    assert_eq!([11, 0, 0, 0, 0], &bytes[81..]);
    assert_eq!(Ok(data), VersionMessageData::from_network_bytes(&bytes));
    assert_eq!(
        Err(NetworkSerializationError::BufferTooShort),
        VersionMessageData::from_network_bytes(&bytes[..85])
    );
}

#[test]
fn ip_data_layout() {
    let ip = IpData {
        node_services: 0x0102030405060708,
        ip_address: [0, 0, 0, 0, 0, 0, 0, 0, 0, 0, 0xFF, 0xFF, 52, 77, 231, 41],
        port: 44556,
    };
    let bytes = ip.to_network_bytes().unwrap();
    assert_eq!(
        vec![
            8, 7, 6, 5, 4, 3, 2, 1, 0, 0, 0, 0, 0, 0, 0, 0, 0, 0, 0xFF, 0xFF, 52, 77, 231, 41,
            0xae, 0x0c
        ],
        bytes
    );
    assert_eq!(Ok(ip), IpData::from_network_bytes(&bytes));
    assert_eq!(
        Err(NetworkSerializationError::BufferTooShort),
        IpData::from_network_bytes(&bytes[..25])
    );
    let mut longer = bytes.clone();
    longer.push(9);
    assert!(IpData::from_network_bytes(&longer).is_ok());
}
