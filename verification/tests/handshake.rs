use dogecoin_handshake::errors::{
    HeaderBuildError, NetworkSerializationError, NodeConnectionAgentError,
};
use dogecoin_handshake::handshake::{
    check_bytes_sent, check_version_ack, fresh_version_message, same_bytes, verack_message,
    version_header_received, version_message, version_received, Handshake, HandshakeAction,
    HandshakeEvent, HandshakeState, CLIENT_NAME,
};
use dogecoin_handshake::messages::version::Version;
use dogecoin_handshake::network::{NetworkSerializable, NetworkType};

const FULL_VERSION_MESSAGE: [u8; 129] = [
    0xfc, 0xc1, 0xb7, 0xdc, 0x76, 0x65, 0x72, 0x73, 0x69, 0x6f, 0x6e, 0x00, 0x00, 0x00, 0x00,
    0x00, 0x69, 0x00, 0x00, 0x00, 0xa2, 0xbb, 0x58, 0x1c, 0x7f, 0x11, 0x01, 0x00, 0x05, 0x00,
    0x00, 0x00, 0x00, 0x00, 0x00, 0x00, 0x51, 0x66, 0x34, 0x64, 0x00, 0x00, 0x00, 0x00, 0x01,
    0x00, 0x00, 0x00, 0x00, 0x00, 0x00, 0x00, 0x00, 0x00, 0x00, 0x00, 0x00, 0x00, 0x00, 0x00,
    0x00, 0x00, 0xff, 0xff, 0x34, 0x4d, 0xe7, 0x29, 0xae, 0x0c, 0x05, 0x00, 0x00, 0x00, 0x00,
    0x00, 0x00, 0x00, 0x00, 0x00, 0x00, 0x00, 0x00, 0x00, 0x00, 0x00, 0x00, 0x00, 0x00, 0x00,
    0x00, 0x00, 0x00, 0x00, 0x00, 0x00, 0x45, 0xdf, 0x74, 0xaf, 0xc8, 0x94, 0x63, 0xf8, 0x13,
    0x2f, 0x53, 0x68, 0x69, 0x62, 0x65, 0x74, 0x6f, 0x73, 0x68, 0x69, 0x3a, 0x31, 0x2e, 0x31,
    0x34, 0x2e, 0x36, 0x2f, 0x00, 0x00, 0x00, 0x00, 0x01,
];

const VERACK_TEST: [u8; 24] = [
    0xFC, 0xC1, 0xB7, 0xDC, b'v', b'e', b'r', b'a', b'c', b'k', 0, 0, 0, 0, 0, 0, 0, 0, 0, 0,
    0x5D, 0xF6, 0xE0, 0xE2,
];

fn started() -> Handshake {
    let handshake = Handshake::new(NetworkType::Test, "52.77.231.41", 44556);
    let (handshake, action) = handshake.step(HandshakeEvent::Start {
        unix_timestamp: 1681155665,
        nonce: 17898312933758525253,
    });
    assert_eq!(HandshakeAction::Write(FULL_VERSION_MESSAGE.to_vec()), action.unwrap());
    handshake
}

fn version_sent() -> Handshake {
    let (handshake, action) = started().step(HandshakeEvent::Written(129));
    assert_eq!(HandshakeAction::Read(24), action.unwrap());
    assert!(matches!(handshake.state, HandshakeState::VersionSent));
    handshake
}

fn version_received_state() -> Handshake {
    let (handshake, action) =
        version_sent().step(HandshakeEvent::Received(FULL_VERSION_MESSAGE[..24].to_vec()));
    assert_eq!(HandshakeAction::Read(105), action.unwrap());
    let (handshake, action) =
        handshake.step(HandshakeEvent::Received(FULL_VERSION_MESSAGE[24..].to_vec()));
    assert_eq!(HandshakeAction::Write(VERACK_TEST.to_vec()), action.unwrap());
    handshake
}

fn ack_sent() -> Handshake {
    let (handshake, action) = version_received_state().step(HandshakeEvent::Written(24));
    assert_eq!(HandshakeAction::Read(24), action.unwrap());
    assert!(matches!(handshake.state, HandshakeState::AckSent { .. }));
    handshake
}

#[test]
fn client_name_is_the_announced_one() {
    assert_eq!("/Shibetoshi:1.14.6/", CLIENT_NAME);
}

#[test]
fn version_message_for_a_given_nonce() {
    assert_eq!(
        FULL_VERSION_MESSAGE.to_vec(),
        version_message(NetworkType::Test, 1681155665, "52.77.231.41", 44556, 17898312933758525253)
            .unwrap()
    );
    assert!(matches!(
        version_message(NetworkType::Test, 1, "52.77.231", 2, 3),
        Err(NodeConnectionAgentError::IntegerParsingFailure)
    ));
}

#[test]
fn fresh_version_message_differs_only_in_nonce_and_checksum() {
    let bytes = fresh_version_message(NetworkType::Test, 1681155665, "52.77.231.41", 44556)
        .unwrap();
    assert_eq!(129, bytes.len());
    assert_eq!(&FULL_VERSION_MESSAGE[..20], &bytes[..20]);
    assert_eq!(&FULL_VERSION_MESSAGE[24..96], &bytes[24..96]);
    assert_eq!(&FULL_VERSION_MESSAGE[104..], &bytes[104..]);
    let decoded = Version::from_network_bytes(&bytes).unwrap();
    assert_eq!(1681155665, decoded.data.unix_timestamp);
    assert!(matches!(
        fresh_version_message(NetworkType::Test, 1, "no address", 2),
        Err(NodeConnectionAgentError::IntegerParsingFailure)
    ));
}

#[test]
fn short_write_is_reported() {
    assert!(check_bytes_sent(129, 129).is_ok());
    assert!(matches!(
        check_bytes_sent(128, 129),
        Err(NodeConnectionAgentError::IncorrectNumberOfBytesSent)
    ));
    assert!(matches!(
        check_bytes_sent(130, 129),
        Err(NodeConnectionAgentError::IncorrectNumberOfBytesSent)
    ));
}

#[test]
fn version_header_gives_the_payload_size() {
    assert_eq!(105, version_header_received(&FULL_VERSION_MESSAGE[..24]).unwrap());
    assert!(matches!(
        version_header_received(&FULL_VERSION_MESSAGE[..23]),
        Err(NodeConnectionAgentError::IncorrectNumberOfBytesReceived)
    ));
    assert!(matches!(
        version_header_received(&FULL_VERSION_MESSAGE[..25]),
        Err(NodeConnectionAgentError::IncorrectNumberOfBytesReceived)
    ));
    let mut header = FULL_VERSION_MESSAGE[..24].to_vec();
    header[0] = 0;
    assert!(matches!(
        version_header_received(&header),
        Err(NodeConnectionAgentError::HeaderBuildFailure(HeaderBuildError::UnknownNetworkType))
    ));
}

#[test]
fn unexpected_command_names_both_commands() {
    match version_header_received(&VERACK_TEST) {
        Err(NodeConnectionAgentError::UnexpectedCommand(expected, actual)) => {
            assert_eq!("version", expected);
            assert_eq!("verack", actual);
        }
        other => panic!("{:?}", other),
    }
}

#[test]
fn peer_version_is_read_from_header_and_payload() {
    let version =
        version_received(&FULL_VERSION_MESSAGE[..24], 105, &FULL_VERSION_MESSAGE[24..]).unwrap();
    assert_eq!(Version::from_network_bytes(&FULL_VERSION_MESSAGE).unwrap(), version);
    assert!(matches!(
        version_received(&FULL_VERSION_MESSAGE[..24], 105, &FULL_VERSION_MESSAGE[24..128]),
        Err(NodeConnectionAgentError::IncorrectNumberOfBytesReceived)
    ));
    assert!(matches!(
        version_received(&FULL_VERSION_MESSAGE[..24], 104, &FULL_VERSION_MESSAGE[24..128]),
        Err(NodeConnectionAgentError::NetworkSerializationFailure(
            NetworkSerializationError::BufferTooShort
        ))
    ));
    assert!(matches!(
        version_received(&FULL_VERSION_MESSAGE[..24], 0, &[]),
        Err(NodeConnectionAgentError::NetworkSerializationFailure(
            NetworkSerializationError::UnknownBytes
        ))
    ));
}

#[test]
fn verack_is_held_against_the_expected_bytes() {
    assert_eq!(VERACK_TEST.to_vec(), verack_message(NetworkType::Test).unwrap());
    assert!(check_version_ack(NetworkType::Test, &VERACK_TEST).is_ok());
    assert!(matches!(
        check_version_ack(NetworkType::Main, &VERACK_TEST),
        Err(NodeConnectionAgentError::IncorrectResponse)
    ));
    let mut other = VERACK_TEST;
    other[23] ^= 1;
    assert!(matches!(
        check_version_ack(NetworkType::Test, &other),
        Err(NodeConnectionAgentError::IncorrectResponse)
    ));
    assert!(matches!(
        check_version_ack(NetworkType::Test, &VERACK_TEST[..23]),
        Err(NodeConnectionAgentError::IncorrectNumberOfBytesReceived)
    ));
}

#[test]
fn same_bytes_compares_content() {
    assert!(same_bytes(&[], &[]));
    assert!(same_bytes(&[1, 2], &[1, 2]));
    assert!(!same_bytes(&[1, 2], &[1, 3]));
    assert!(!same_bytes(&[1, 2], &[1, 2, 3]));
}

#[test]
fn handshake_completes_in_order() {
    let (handshake, action) = ack_sent().step(HandshakeEvent::Received(VERACK_TEST.to_vec()));
    assert_eq!(HandshakeAction::Finish, action.unwrap());
    assert!(handshake.is_done());
    assert!(!handshake.has_failed());
    match handshake.state {
        HandshakeState::Done { peer } => {
            assert_eq!(Version::from_network_bytes(&FULL_VERSION_MESSAGE).unwrap(), peer)
        }
        other => panic!("{:?}", other),
    }
}

#[test]
fn handshake_fails_on_a_response_that_is_no_verack() {
    // The node sends its version, and the peer answers with 24 bytes that
    // are not the expected acknowledgement.
    let mut wrong = VERACK_TEST;
    wrong[4] = b'w';
    assert!(matches!(
        check_version_ack(NetworkType::Test, &wrong),
        Err(NodeConnectionAgentError::IncorrectResponse)
    ));
    let (handshake, outcome) = ack_sent().step(HandshakeEvent::Received(wrong.to_vec()));
    assert!(matches!(outcome, Err(NodeConnectionAgentError::IncorrectResponse)));
    assert!(handshake.has_failed());
    // A failure is final.
    let (handshake, outcome) = handshake.step(HandshakeEvent::Received(VERACK_TEST.to_vec()));
    assert!(outcome.is_err());
    assert!(handshake.has_failed());
}

#[test]
fn handshake_fails_on_short_transfers() {
    let (handshake, outcome) = started().step(HandshakeEvent::Written(128));
    assert!(matches!(outcome, Err(NodeConnectionAgentError::IncorrectNumberOfBytesSent)));
    assert!(handshake.has_failed());
    let (handshake, outcome) =
        version_sent().step(HandshakeEvent::Received(FULL_VERSION_MESSAGE[..20].to_vec()));
    assert!(matches!(outcome, Err(NodeConnectionAgentError::IncorrectNumberOfBytesReceived)));
    assert!(handshake.has_failed());
    let (handshake, _) =
        version_sent().step(HandshakeEvent::Received(FULL_VERSION_MESSAGE[..24].to_vec()));
    let (handshake, outcome) =
        handshake.step(HandshakeEvent::Received(FULL_VERSION_MESSAGE[24..100].to_vec()));
    assert!(matches!(outcome, Err(NodeConnectionAgentError::IncorrectNumberOfBytesReceived)));
    assert!(handshake.has_failed());
    let (handshake, outcome) = version_received_state().step(HandshakeEvent::Written(0));
    assert!(matches!(outcome, Err(NodeConnectionAgentError::IncorrectNumberOfBytesSent)));
    assert!(handshake.has_failed());
    let (_, outcome) = ack_sent().step(HandshakeEvent::Received(vec![]));
    assert!(matches!(outcome, Err(NodeConnectionAgentError::IncorrectNumberOfBytesReceived)));
}

#[test]
fn handshake_fails_on_another_command() {
    let (handshake, outcome) = version_sent().step(HandshakeEvent::Received(VERACK_TEST.to_vec()));
    assert!(matches!(outcome, Err(NodeConnectionAgentError::UnexpectedCommand(_, _))));
    assert!(handshake.has_failed());
}

#[test]
fn handshake_fails_on_events_out_of_order() {
    let (handshake, outcome) =
        Handshake::new(NetworkType::Test, "1.2.3.4", 1).step(HandshakeEvent::Written(1));
    assert!(matches!(outcome, Err(NodeConnectionAgentError::IncorrectResponse)));
    assert!(handshake.has_failed());
    let (_, outcome) = started().step(HandshakeEvent::Received(vec![1]));
    assert!(matches!(outcome, Err(NodeConnectionAgentError::IncorrectNumberOfBytesSent)));
    let (_, outcome) = version_sent().step(HandshakeEvent::Written(24));
    assert!(matches!(outcome, Err(NodeConnectionAgentError::IncorrectNumberOfBytesReceived)));
    let (_, outcome) = ack_sent().step(HandshakeEvent::Start { unix_timestamp: 1, nonce: 2 });
    assert!(matches!(outcome, Err(NodeConnectionAgentError::IncorrectNumberOfBytesReceived)));
    let (done, _) = ack_sent().step(HandshakeEvent::Received(VERACK_TEST.to_vec()));
    let (after, outcome) = done.step(HandshakeEvent::Written(1));
    assert!(matches!(outcome, Err(NodeConnectionAgentError::IncorrectResponse)));
    assert!(after.has_failed());
}

#[test]
fn handshake_with_a_bad_address_fails_at_the_start() {
    let (handshake, outcome) = Handshake::new(NetworkType::Test, "1.2.3", 1)
        .step(HandshakeEvent::Start { unix_timestamp: 1, nonce: 2 });
    assert!(matches!(outcome, Err(NodeConnectionAgentError::IntegerParsingFailure)));
    assert!(handshake.has_failed());
}

#[test]
fn start_draws_a_nonce() {
    let (handshake, action) =
        Handshake::new(NetworkType::Main, "10.0.0.1", 22556).start(1681155665);
    match action.unwrap() {
        HandshakeAction::Write(bytes) => {
            assert_eq!(129, bytes.len());
            assert_eq!([0xC0, 0xC0, 0xC0, 0xC0], &bytes[..4]);
        }
        other => panic!("{:?}", other),
    }
    assert!(matches!(handshake.state, HandshakeState::SendingVersion { message_len: 129 }));
}
