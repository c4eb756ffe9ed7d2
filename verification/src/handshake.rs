//! The handshake with a peer: four messages in a fixed order. The node
//! sends its `version`, receives the peer's, sends a `verack` and receives
//! the peer's.
//!
//! The library does not touch the stream. It decides what is to be written
//! and read next, and what to make of the bytes that came back; the caller
//! performs the transfers and reports each one. A failure is final: nothing
//! is tried again.

use crate::errors::{NodeConnectionAgentError, NodeConnectionAgentErrorView};
use crate::header::{parse_header, Header, HEADER_SIZE};
use crate::ip::dotted_quad;
use crate::messages::verack::{verack_bytes, Verack};
use crate::messages::version::{
    encode_version, lemma_version_command, new_version, parse_version, version_command,
    version_data_bytes, Version, VersionView,
};
use crate::network::{NetworkSerializable, NetworkType};
use crate::serializer::{
    compact_size_prefix, extend_with_bytes, lemma_ascii_text_round_trip, lemma_le_bytes_len,
};
use vstd::prelude::*;
use vstd::utf8::encode_utf8;

verus! {

/// The name by which this node announces itself.
pub const CLIENT_NAME: &'static str = "/Shibetoshi:1.14.6/";

/// The name of this node as characters.
pub open spec fn client_name() -> Seq<char> {
    "/Shibetoshi:1.14.6/"@
}

/// Draws a nonce with `rand::random`. Nothing is claimed of the number: two
/// calls may give any two values.
#[verifier::external_body]
fn random_nonce() -> (nonce: u64) {
    rand::random::<u64>()
}

/// Whether two slices hold the same bytes.
pub fn same_bytes(left: &[u8], right: &[u8]) -> (same: bool)
    ensures
        same == (left@ == right@),
{
    if left.len() != right.len() {
        return false;
    }
    let mut i: usize = 0;
    while i < left.len()
        invariant
            i <= left@.len(),
            left@.len() == right@.len(),
            left@.subrange(0, i as int) == right@.subrange(0, i as int),
        decreases left@.len() - i,
    {
        if left[i] != right[i] {
            return false;
        }
        i = i + 1;
        assert(left@.subrange(0, i as int) == left@.subrange(0, i - 1).push(left@[i - 1]));
        assert(right@.subrange(0, i as int) == right@.subrange(0, i - 1).push(right@[i - 1]));
    }
    assert(left@.subrange(0, i as int) == left@);
    assert(right@.subrange(0, i as int) == right@);
    true
}

/// Whether `result` is the outcome `expected`, bytes for bytes and failure
/// for failure.
pub open spec fn gives_bytes(
    result: Result<Vec<u8>, NodeConnectionAgentError>,
    expected: Result<Seq<u8>, NodeConnectionAgentErrorView>,
) -> bool {
    match expected {
        Ok(bytes) => result matches Ok(written) && written@ == bytes,
        Err(e) => result matches Err(error) && error@ == e,
    }
}

/// The `version` message that opens the handshake with the peer at `ip` and
/// `port`: `IntegerParsingFailure` where `ip` is no dotted quad, else the
/// message of `new_version` under the name of this node, as it is written.
pub open spec fn version_request(
    network_type: NetworkType,
    unix_timestamp: u64,
    ip: Seq<char>,
    port: u16,
    nonce: u64,
) -> Result<Seq<u8>, NodeConnectionAgentErrorView> {
    match dotted_quad(encode_utf8(ip)) {
        None => Err(NodeConnectionAgentErrorView::IntegerParsingFailure),
        Some(quad) => match encode_version(
            new_version(network_type, unix_timestamp, quad, port, nonce, client_name()),
        ) {
            Ok(bytes) => Ok(bytes),
            Err(e) => Err(NodeConnectionAgentErrorView::NetworkSerializationFailure(e)),
        },
    }
}

/// The message of this node is always written, and has 129 bytes: the
/// header, the 80 fixed bytes, the 20 bytes of the name, and 5 more.
pub proof fn lemma_version_request_is_written(
    network_type: NetworkType,
    unix_timestamp: u64,
    ip: Seq<char>,
    port: u16,
    nonce: u64,
)
    requires
        dotted_quad(encode_utf8(ip)) is Some,
    ensures
        version_request(network_type, unix_timestamp, ip, port, nonce) matches Ok(bytes)
            && bytes.len() == 129,
{
    let quad = dotted_quad(encode_utf8(ip))->Some_0;
    let version = new_version(network_type, unix_timestamp, quad, port, nonce, client_name());
    let name = encode_utf8(client_name());
    reveal_strlit("/Shibetoshi:1.14.6/");
    lemma_ascii_text_round_trip(client_name());
    lemma_version_command();
    assert(name.len() == 19);
    assert(compact_size_prefix(19).len() == 1);
    lemma_le_bytes_len(version.data.protocol_version as nat, 4);
    lemma_le_bytes_len(version.data.local_node_services as nat, 8);
    lemma_le_bytes_len(version.data.unix_timestamp as nat, 8);
    lemma_le_bytes_len(version.data.node_ip_data.node_services as nat, 8);
    lemma_le_bytes_len(version.data.our_ip_data.node_services as nat, 8);
    lemma_le_bytes_len(version.data.nonce as nat, 8);
    lemma_le_bytes_len(version.data.node_starting_height as nat, 4);
    let payload = version_data_bytes(version.data);
    assert(payload.len() == 105);
    lemma_le_bytes_len(105, 4);
    crate::network::lemma_magic_round_trip(network_type, Seq::empty());
    assert(crate::checksum::checksum(payload).len() == 4);
}

/// The message that opens the handshake, for a nonce that is given.
pub fn version_message(
    network_type: NetworkType,
    unix_timestamp: u64,
    ip: &str,
    port: u16,
    nonce: u64,
) -> (result: Result<Vec<u8>, NodeConnectionAgentError>)
    ensures
        gives_bytes(result, version_request(network_type, unix_timestamp, ip@, port, nonce)),
        dotted_quad(encode_utf8(ip@)) is Some ==> result is Ok,
{
    let version = match Version::new(
        network_type,
        unix_timestamp,
        ip,
        port,
        nonce,
        CLIENT_NAME,
    ) {
        Ok(version) => version,
        Err(e) => { return Err(NodeConnectionAgentError::from(e)); },
    };
    proof {
        lemma_version_request_is_written(network_type, unix_timestamp, ip@, port, nonce);
    }
    match version.to_network_bytes() {
        Ok(bytes) => Ok(bytes),
        Err(e) => Err(NodeConnectionAgentError::from(e)),
    }
}

/// The message that opens the handshake, with a nonce drawn for it. Whatever
/// nonce was drawn, the result is the message for that nonce.
pub fn fresh_version_message(network_type: NetworkType, unix_timestamp: u64, ip: &str, port: u16)
    -> (result: Result<Vec<u8>, NodeConnectionAgentError>)
    ensures
        exists|nonce: u64|
            gives_bytes(
                result,
                #[trigger] version_request(network_type, unix_timestamp, ip@, port, nonce),
            ),
        dotted_quad(encode_utf8(ip@)) is Some ==> result is Ok,
{
    let nonce = random_nonce();
    version_message(network_type, unix_timestamp, ip, port, nonce)
}

/// Whether the stream took the whole message: `IncorrectNumberOfBytesSent`
/// where the number of bytes written is not the length of the message.
pub fn check_bytes_sent(written: usize, message_len: usize) -> (result: Result<
    (),
    NodeConnectionAgentError,
>)
    ensures
        written == message_len ==> result is Ok,
        written != message_len ==> result matches Err(
            NodeConnectionAgentError::IncorrectNumberOfBytesSent,
        ),
{
    if written != message_len {
        Err(NodeConnectionAgentError::IncorrectNumberOfBytesSent)
    } else {
        Ok(())
    }
}

/// What the header of the peer's `version` message says of its payload.
/// The bytes must be the 24 of a header, `IncorrectNumberOfBytesReceived`
/// else; the header must parse, `HeaderBuildFailure` else; its command must
/// be `version`, `UnexpectedCommand` else, with `version` and the command
/// that came. The result is the number of bytes of the payload.
pub open spec fn version_payload_size(bytes: Seq<u8>) -> Result<
    usize,
    NodeConnectionAgentErrorView,
> {
    if bytes.len() != 24 {
        Err(NodeConnectionAgentErrorView::IncorrectNumberOfBytesReceived)
    } else {
        match parse_header(bytes) {
            Err(e) => Err(NodeConnectionAgentErrorView::HeaderBuildFailure(e)),
            Ok(header) => if header.command != version_command() {
                Err(
                    NodeConnectionAgentErrorView::UnexpectedCommand(
                        version_command(),
                        header.command,
                    ),
                )
            } else {
                Ok(header.message_size as usize)
            },
        }
    }
}

/// Reads the header of the peer's `version` message, and says how many bytes
/// of payload are to be read next.
pub fn version_header_received(bytes: &[u8]) -> (result: Result<usize, NodeConnectionAgentError>)
    ensures
        match version_payload_size(bytes@) {
            Ok(size) => result == Ok::<usize, NodeConnectionAgentError>(size),
            Err(e) => result matches Err(error) && error@ == e,
        },
{
    if bytes.len() != HEADER_SIZE {
        return Err(NodeConnectionAgentError::IncorrectNumberOfBytesReceived);
    }
    let header = match Header::from_network_bytes(bytes) {
        Ok(header) => header,
        Err(e) => { return Err(NodeConnectionAgentError::from(e)); },
    };
    let expected = "version".to_owned();
    if header.command != expected {
        return Err(NodeConnectionAgentError::UnexpectedCommand(expected, header.command));
    }
    Ok(header.message_size)
}

/// The peer's `version` message, from its header and the payload that was
/// read behind it. `IncorrectNumberOfBytesReceived` where the payload has
/// not the number of bytes asked for; else the two are read as one message,
/// and a message that does not decode is `NetworkSerializationFailure`.
pub open spec fn peer_version(header: Seq<u8>, payload_len: usize, payload: Seq<u8>) -> Result<
    VersionView,
    NodeConnectionAgentErrorView,
> {
    if payload.len() != payload_len {
        Err(NodeConnectionAgentErrorView::IncorrectNumberOfBytesReceived)
    } else {
        match parse_version(header + payload) {
            Ok(version) => Ok(version),
            Err(e) => Err(NodeConnectionAgentErrorView::NetworkSerializationFailure(e)),
        }
    }
}

/// Reads the peer's `version` message from its header and its payload.
pub fn version_received(header: &[u8], payload_len: usize, payload: &[u8]) -> (result: Result<
    Version,
    NodeConnectionAgentError,
>)
    ensures
        match peer_version(header@, payload_len, payload@) {
            Ok(version) => result matches Ok(read) && read@ == version,
            Err(e) => result matches Err(error) && error@ == e,
        },
{
    if payload.len() != payload_len {
        return Err(NodeConnectionAgentError::IncorrectNumberOfBytesReceived);
    }
    let mut message: Vec<u8> = Vec::new();
    extend_with_bytes(&mut message, header);
    extend_with_bytes(&mut message, payload);
    match Version::from_network_bytes(message.as_slice()) {
        Ok(version) => Ok(version),
        Err(e) => Err(NodeConnectionAgentError::from(e)),
    }
}

/// The `verack` message of a network, which acknowledges the peer's
/// `version` message.
pub fn verack_message(network_type: NetworkType) -> (result: Result<
    Vec<u8>,
    NodeConnectionAgentError,
>)
    ensures
        result matches Ok(bytes) && bytes@ == verack_bytes(network_type),
{
    match Verack::new(network_type).to_network_bytes() {
        Ok(bytes) => Ok(bytes),
        Err(e) => Err(NodeConnectionAgentError::from(e)),
    }
}

/// What to make of the peer's acknowledgement: `IncorrectNumberOfBytesReceived`
/// where it has not the 24 bytes of a header, else `IncorrectResponse` where
/// it is not, byte for byte, the `verack` message of the network.
pub open spec fn acknowledgement(network_type: NetworkType, bytes: Seq<u8>) -> Result<
    (),
    NodeConnectionAgentErrorView,
> {
    if bytes.len() != 24 {
        Err(NodeConnectionAgentErrorView::IncorrectNumberOfBytesReceived)
    } else if bytes != verack_bytes(network_type) {
        Err(NodeConnectionAgentErrorView::IncorrectResponse)
    } else {
        Ok(())
    }
}

/// Holds the peer's acknowledgement against the `verack` message of the
/// network.
pub fn check_version_ack(network_type: NetworkType, bytes: &[u8]) -> (result: Result<
    (),
    NodeConnectionAgentError,
>)
    ensures
        match acknowledgement(network_type, bytes@) {
            Ok(_) => result is Ok,
            Err(e) => result matches Err(error) && error@ == e,
        },
{
    if bytes.len() != HEADER_SIZE {
        return Err(NodeConnectionAgentError::IncorrectNumberOfBytesReceived);
    }
    let expected = match verack_message(network_type) {
        Ok(expected) => expected,
        Err(e) => { return Err(e); },
    };
    if !same_bytes(bytes, expected.as_slice()) {
        return Err(NodeConnectionAgentError::IncorrectResponse);
    }
    Ok(())
}

/// Where a handshake stands, with what it holds by then.
#[derive(Debug)]
pub enum HandshakeState {
    /// Nothing was done yet.
    Init,
    /// The `version` message of `message_len` bytes is being written.
    SendingVersion { message_len: usize },
    /// The `version` message was sent; the header of the peer's is awaited.
    VersionSent,
    /// The header of the peer's `version` message was read; its payload of
    /// `payload_len` bytes is awaited.
    ReceivingVersion { header: Vec<u8>, payload_len: usize },
    /// The peer's `version` message was received; the `verack` message of
    /// `message_len` bytes is being written.
    VersionReceived { peer: Version, message_len: usize },
    /// The `verack` message was sent; the peer's is awaited.
    AckSent { peer: Version },
    /// The handshake is complete.
    Done { peer: Version },
    /// The handshake has failed, for good.
    Failed,
}

/// A state as a mathematical value.
pub enum HandshakeStateView {
    Init,
    SendingVersion { message_len: usize },
    VersionSent,
    ReceivingVersion { header: Seq<u8>, payload_len: usize },
    VersionReceived { peer: VersionView, message_len: usize },
    AckSent { peer: VersionView },
    Done { peer: VersionView },
    Failed,
}

impl View for HandshakeState {
    type V = HandshakeStateView;

    open spec fn view(&self) -> HandshakeStateView {
        match *self {
            HandshakeState::Init => HandshakeStateView::Init,
            HandshakeState::SendingVersion { message_len } => HandshakeStateView::SendingVersion {
                message_len,
            },
            HandshakeState::VersionSent => HandshakeStateView::VersionSent,
            HandshakeState::ReceivingVersion { header, payload_len } => {
                HandshakeStateView::ReceivingVersion { header: header@, payload_len }
            },
            HandshakeState::VersionReceived { peer, message_len } => {
                HandshakeStateView::VersionReceived { peer: peer@, message_len }
            },
            HandshakeState::AckSent { peer } => HandshakeStateView::AckSent { peer: peer@ },
            HandshakeState::Done { peer } => HandshakeStateView::Done { peer: peer@ },
            HandshakeState::Failed => HandshakeStateView::Failed,
        }
    }
}

/// What the caller reports to the handshake.
#[derive(Debug)]
pub enum HandshakeEvent {
    /// The handshake is to begin, at this time and with this nonce.
    Start { unix_timestamp: u64, nonce: u64 },
    /// The stream took this many bytes of the message it was given.
    Written(usize),
    /// The stream handed over these bytes.
    Received(Vec<u8>),
}

/// An event as a mathematical value.
pub enum HandshakeEventView {
    Start { unix_timestamp: u64, nonce: u64 },
    Written(usize),
    Received(Seq<u8>),
}

impl View for HandshakeEvent {
    type V = HandshakeEventView;

    open spec fn view(&self) -> HandshakeEventView {
        match *self {
            HandshakeEvent::Start { unix_timestamp, nonce } => HandshakeEventView::Start {
                unix_timestamp,
                nonce,
            },
            HandshakeEvent::Written(count) => HandshakeEventView::Written(count),
            HandshakeEvent::Received(bytes) => HandshakeEventView::Received(bytes@),
        }
    }
}

/// What the caller is to do next.
#[derive(Debug, PartialEq)]
pub enum HandshakeAction {
    /// Write these bytes to the stream, and report how many it took.
    Write(Vec<u8>),
    /// Read this many bytes from the stream, and report what came.
    Read(usize),
    /// Nothing: the handshake is complete.
    Finish,
}

/// An action as a mathematical value.
pub enum HandshakeActionView {
    Write(Seq<u8>),
    Read(usize),
    Finish,
}

impl View for HandshakeAction {
    type V = HandshakeActionView;

    open spec fn view(&self) -> HandshakeActionView {
        match *self {
            HandshakeAction::Write(bytes) => HandshakeActionView::Write(bytes@),
            HandshakeAction::Read(count) => HandshakeActionView::Read(count),
            HandshakeAction::Finish => HandshakeActionView::Finish,
        }
    }
}

/// A handshake with one peer.
#[derive(Debug)]
pub struct Handshake {
    /// The network that both nodes are on.
    pub network_type: NetworkType,
    /// The peer's IPv4 address, as a dotted quad.
    pub ip: String,
    /// The peer's port.
    pub port: u16,
    /// Where the handshake stands.
    pub state: HandshakeState,
}

/// A handshake as a mathematical value.
pub struct HandshakeView {
    pub network_type: NetworkType,
    pub ip: Seq<char>,
    pub port: u16,
    pub state: HandshakeStateView,
}

impl View for Handshake {
    type V = HandshakeView;

    open spec fn view(&self) -> HandshakeView {
        HandshakeView {
            network_type: self.network_type,
            ip: self.ip@,
            port: self.port,
            state: self.state@,
        }
    }
}

/// What one step gives: the state that follows, and the action to take or
/// the failure.
pub struct StepView {
    pub state: HandshakeStateView,
    pub outcome: Result<HandshakeActionView, NodeConnectionAgentErrorView>,
}

/// A step that fails the handshake.
pub open spec fn failed_step(error: NodeConnectionAgentErrorView) -> StepView {
    StepView { state: HandshakeStateView::Failed, outcome: Err(error) }
}

/// The failure of a step whose event is not the one the state waits for:
/// `IncorrectNumberOfBytesSent` where a write was to be reported,
/// `IncorrectNumberOfBytesReceived` where a read was, and `IncorrectResponse`
/// before the start and after the end.
pub open spec fn unexpected_event(state: HandshakeStateView) -> NodeConnectionAgentErrorView {
    match state {
        HandshakeStateView::SendingVersion { .. } | HandshakeStateView::VersionReceived { .. } => {
            NodeConnectionAgentErrorView::IncorrectNumberOfBytesSent
        },
        HandshakeStateView::VersionSent
        | HandshakeStateView::ReceivingVersion { .. }
        | HandshakeStateView::AckSent { .. } => {
            NodeConnectionAgentErrorView::IncorrectNumberOfBytesReceived
        },
        _ => NodeConnectionAgentErrorView::IncorrectResponse,
    }
}

/// The step that a handshake takes on an event.
///
/// - At the start, the `version` message is built and is to be written.
/// - When all of it was written, the 24 bytes of the peer's header are to be
///   read.
/// - When the header of a `version` message came, its payload is to be read.
/// - When the payload came and the message decodes, the `verack` message is
///   to be written.
/// - When all of it was written, the 24 bytes of the peer's `verack` message
///   are to be read.
/// - When they came and are the expected message, the handshake is done.
///
/// Whatever else happens fails the handshake.
pub open spec fn next_step(handshake: HandshakeView, event: HandshakeEventView) -> StepView {
    match (handshake.state, event) {
        (HandshakeStateView::Init, HandshakeEventView::Start { unix_timestamp, nonce }) => {
            match version_request(
                handshake.network_type,
                unix_timestamp,
                handshake.ip,
                handshake.port,
                nonce,
            ) {
                Ok(bytes) => StepView {
                    state: HandshakeStateView::SendingVersion {
                        message_len: bytes.len() as usize,
                    },
                    outcome: Ok(HandshakeActionView::Write(bytes)),
                },
                Err(e) => failed_step(e),
            }
        },
        (
            HandshakeStateView::SendingVersion { message_len },
            HandshakeEventView::Written(count),
        ) => {
            if count == message_len {
                StepView {
                    state: HandshakeStateView::VersionSent,
                    outcome: Ok(HandshakeActionView::Read(24)),
                }
            } else {
                failed_step(NodeConnectionAgentErrorView::IncorrectNumberOfBytesSent)
            }
        },
        (HandshakeStateView::VersionSent, HandshakeEventView::Received(bytes)) => {
            match version_payload_size(bytes) {
                Ok(payload_len) => StepView {
                    state: HandshakeStateView::ReceivingVersion { header: bytes, payload_len },
                    outcome: Ok(HandshakeActionView::Read(payload_len)),
                },
                Err(e) => failed_step(e),
            }
        },
        (
            HandshakeStateView::ReceivingVersion { header, payload_len },
            HandshakeEventView::Received(bytes),
        ) => {
            match peer_version(header, payload_len, bytes) {
                Ok(peer) => StepView {
                    state: HandshakeStateView::VersionReceived { peer, message_len: 24 },
                    outcome: Ok(HandshakeActionView::Write(verack_bytes(handshake.network_type))),
                },
                Err(e) => failed_step(e),
            }
        },
        (
            HandshakeStateView::VersionReceived { peer, message_len },
            HandshakeEventView::Written(count),
        ) => {
            if count == message_len {
                StepView {
                    state: HandshakeStateView::AckSent { peer },
                    outcome: Ok(HandshakeActionView::Read(24)),
                }
            } else {
                failed_step(NodeConnectionAgentErrorView::IncorrectNumberOfBytesSent)
            }
        },
        (HandshakeStateView::AckSent { peer }, HandshakeEventView::Received(bytes)) => {
            match acknowledgement(handshake.network_type, bytes) {
                Ok(_) => StepView {
                    state: HandshakeStateView::Done { peer },
                    outcome: Ok(HandshakeActionView::Finish),
                },
                Err(e) => failed_step(e),
            }
        },
        _ => failed_step(unexpected_event(handshake.state)),
    }
}

/// Whether `outcome` is the outcome `expected`.
pub open spec fn gives_action(
    outcome: Result<HandshakeAction, NodeConnectionAgentError>,
    expected: Result<HandshakeActionView, NodeConnectionAgentErrorView>,
) -> bool {
    match expected {
        Ok(action) => outcome matches Ok(taken) && taken@ == action,
        Err(e) => outcome matches Err(error) && error@ == e,
    }
}

impl Handshake {
    /// A handshake that has not begun, with the peer at `ip` and `port`.
    pub fn new(network_type: NetworkType, ip: &str, port: u16) -> (handshake: Self)
        ensures
            handshake@ == (HandshakeView {
                network_type,
                ip: ip@,
                port,
                state: HandshakeStateView::Init,
            }),
    {
        Handshake { network_type, ip: ip.to_owned(), port, state: HandshakeState::Init }
    }

    /// Takes one step: hands back the handshake as it stands after the
    /// event, and the action that the caller is to take next, or the failure
    /// that ended the handshake.
    pub fn step(self, event: HandshakeEvent) -> (step: (
        Self,
        Result<HandshakeAction, NodeConnectionAgentError>,
    ))
        ensures
            step.0@ == (HandshakeView { state: next_step(self@, event@).state, ..self@ }),
            gives_action(step.1, next_step(self@, event@).outcome),
    {
        let Handshake { network_type, ip, port, state } = self;
        let ghost before = self@;
        let ghost expected = next_step(before, event@);
        let (state, outcome) = match state {
            HandshakeState::Init => match event {
                HandshakeEvent::Start { unix_timestamp, nonce } => {
                    match version_message(network_type, unix_timestamp, ip.as_str(), port, nonce) {
                        Ok(bytes) => (
                            HandshakeState::SendingVersion { message_len: bytes.len() },
                            Ok(HandshakeAction::Write(bytes)),
                        ),
                        Err(e) => (HandshakeState::Failed, Err(e)),
                    }
                },
                _ => (HandshakeState::Failed, Err(NodeConnectionAgentError::IncorrectResponse)),
            },
            HandshakeState::SendingVersion { message_len } => match event {
                HandshakeEvent::Written(count) => match check_bytes_sent(count, message_len) {
                    Ok(_) => (
                        HandshakeState::VersionSent,
                        Ok(HandshakeAction::Read(HEADER_SIZE)),
                    ),
                    Err(e) => (HandshakeState::Failed, Err(e)),
                },
                _ => (
                    HandshakeState::Failed,
                    Err(NodeConnectionAgentError::IncorrectNumberOfBytesSent),
                ),
            },
            HandshakeState::VersionSent => match event {
                HandshakeEvent::Received(bytes) => {
                    match version_header_received(bytes.as_slice()) {
                        Ok(payload_len) => (
                            HandshakeState::ReceivingVersion { header: bytes, payload_len },
                            Ok(HandshakeAction::Read(payload_len)),
                        ),
                        Err(e) => (HandshakeState::Failed, Err(e)),
                    }
                },
                _ => (
                    HandshakeState::Failed,
                    Err(NodeConnectionAgentError::IncorrectNumberOfBytesReceived),
                ),
            },
            HandshakeState::ReceivingVersion { header, payload_len } => match event {
                HandshakeEvent::Received(bytes) => {
                    match version_received(header.as_slice(), payload_len, bytes.as_slice()) {
                        Ok(peer) => match verack_message(network_type) {
                            Ok(ack) => (
                                HandshakeState::VersionReceived { peer, message_len: ack.len() },
                                Ok(HandshakeAction::Write(ack)),
                            ),
                            Err(e) => (HandshakeState::Failed, Err(e)),
                        },
                        Err(e) => (HandshakeState::Failed, Err(e)),
                    }
                },
                _ => (
                    HandshakeState::Failed,
                    Err(NodeConnectionAgentError::IncorrectNumberOfBytesReceived),
                ),
            },
            HandshakeState::VersionReceived { peer, message_len } => match event {
                HandshakeEvent::Written(count) => match check_bytes_sent(count, message_len) {
                    Ok(_) => (
                        HandshakeState::AckSent { peer },
                        Ok(HandshakeAction::Read(HEADER_SIZE)),
                    ),
                    Err(e) => (HandshakeState::Failed, Err(e)),
                },
                _ => (
                    HandshakeState::Failed,
                    Err(NodeConnectionAgentError::IncorrectNumberOfBytesSent),
                ),
            },
            HandshakeState::AckSent { peer } => match event {
                HandshakeEvent::Received(bytes) => {
                    match check_version_ack(network_type, bytes.as_slice()) {
                        Ok(_) => (HandshakeState::Done { peer }, Ok(HandshakeAction::Finish)),
                        Err(e) => (HandshakeState::Failed, Err(e)),
                    }
                },
                _ => (
                    HandshakeState::Failed,
                    Err(NodeConnectionAgentError::IncorrectNumberOfBytesReceived),
                ),
            },
            HandshakeState::Done { peer } => (
                HandshakeState::Failed,
                Err(NodeConnectionAgentError::IncorrectResponse),
            ),
            HandshakeState::Failed => (
                HandshakeState::Failed,
                Err(NodeConnectionAgentError::IncorrectResponse),
            ),
        };
        proof {
            lemma_verack_bytes_len(network_type);
        }
        (Handshake { network_type, ip, port, state }, outcome)
    }

    /// Begins the handshake at the given time, with a nonce drawn for it:
    /// the step on `Start`, whatever nonce was drawn.
    pub fn start(self, unix_timestamp: u64) -> (step: (
        Self,
        Result<HandshakeAction, NodeConnectionAgentError>,
    ))
        ensures
            exists|nonce: u64|
                {
                    let expected = #[trigger] next_step(
                        self@,
                        HandshakeEventView::Start { unix_timestamp, nonce },
                    );
                    &&& step.0@ == (HandshakeView { state: expected.state, ..self@ })
                    &&& gives_action(step.1, expected.outcome)
                },
    {
        let nonce = random_nonce();
        let event = HandshakeEvent::Start { unix_timestamp, nonce };
        self.step(event)
    }

    /// Whether the handshake is complete.
    pub fn is_done(&self) -> (done: bool)
        ensures
            done == (self@.state is Done),
    {
        match &self.state {
            HandshakeState::Done { .. } => true,
            _ => false,
        }
    }

    /// Whether the handshake has failed.
    pub fn has_failed(&self) -> (failed: bool)
        ensures
            failed == (self@.state is Failed),
    {
        match &self.state {
            HandshakeState::Failed => true,
            _ => false,
        }
    }
}

/// The `verack` message has the 24 bytes of a header.
pub proof fn lemma_verack_bytes_len(network_type: NetworkType)
    ensures
        verack_bytes(network_type).len() == 24,
{
    reveal_strlit("verack");
    lemma_ascii_text_round_trip(crate::messages::verack::verack_command());
    lemma_le_bytes_len(0, 4);
    crate::network::lemma_magic_round_trip(network_type, Seq::empty());
    assert(crate::checksum::checksum(Seq::<u8>::empty()).len() == 4);
}

/// How far a handshake has come: the number of steps behind it.
pub open spec fn progress(state: HandshakeStateView) -> nat {
    match state {
        HandshakeStateView::Init => 0,
        HandshakeStateView::SendingVersion { .. } => 1,
        HandshakeStateView::VersionSent => 2,
        HandshakeStateView::ReceivingVersion { .. } => 3,
        HandshakeStateView::VersionReceived { .. } => 4,
        HandshakeStateView::AckSent { .. } => 5,
        HandshakeStateView::Done { .. } => 6,
        HandshakeStateView::Failed => 7,
    }
}

/// The order of the handshake is fixed. A step that succeeds moves the
/// handshake on by exactly one place, and asks for a write or a read as the
/// place it reaches demands; a step that fails leaves it failed. No step
/// leads out of a failed or a finished handshake but into failure.
pub proof fn lemma_steps_are_in_order(handshake: HandshakeView, event: HandshakeEventView)
    ensures
        next_step(handshake, event).outcome is Ok ==> {
            &&& progress(handshake.state) < 6
            &&& progress(next_step(handshake, event).state) == progress(handshake.state) + 1
        },
        next_step(handshake, event).outcome is Err ==> next_step(handshake, event).state
            is Failed,
        next_step(handshake, event).state is Done ==> {
            &&& handshake.state is AckSent
            &&& event == HandshakeEventView::Received(verack_bytes(handshake.network_type))
            &&& next_step(handshake, event).state->Done_peer == handshake.state->AckSent_peer
        },
        next_step(handshake, event).outcome matches Ok(HandshakeActionView::Write(bytes))
            ==> next_step(handshake, event).state is SendingVersion || next_step(
            handshake,
            event,
        ).state is VersionReceived,
        next_step(handshake, event).outcome matches Ok(HandshakeActionView::Read(count))
            ==> next_step(handshake, event).state is VersionSent || next_step(
            handshake,
            event,
        ).state is ReceivingVersion || next_step(handshake, event).state is AckSent,
{
}

} // verus!
