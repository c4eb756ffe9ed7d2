//! The `version` message, by which a node announces itself to a peer: the
//! protocol version, the node's services, the time, the two endpoints of the
//! connection, a nonce, the name of the client, the height of its chain, and
//! whether transactions are to be relayed to it.

use crate::checksum::checksum;
use crate::errors::{HeaderBuildError, IntegerParsingFailure, NetworkSerializationError};
use crate::header::{header_bytes, parse_header, Header, HeaderView, HEADER_SIZE};
use crate::ip::{dotted_quad, string_to_ip};
use crate::network::{NetworkSerializable, NetworkType};
use crate::serializer::{
    be_slice_to_u16, be_u16_bytes, be_u16_value, byte_range, bytes_as_chars,
    compact_string_bytes, extend_with_be_u16, extend_with_bytes, extend_with_le_bytes,
    fits_compact_size, le_bytes, le_value, lemma_ascii_text_round_trip,
    lemma_be_u16_round_trip, lemma_compact_string_round_trip, lemma_le_bytes_len,
    lemma_le_value_of_bytes, parse_compact_string, slice_to_ip_address, slice_to_u32,
    slice_to_u64, SerializeString,
};
use vstd::prelude::*;
use vstd::utf8::{encode_utf8, is_ascii_chars};

verus! {

/// An address in its 16-byte IPv6 form.
pub type IpAddress = [u8; 16];

/// The number of bytes of an endpoint on the wire.
pub const IP_DATA_SIZE: usize = 26;

/// The number of bytes of the payload without the client's name: the 80
/// bytes before it and the 5 bytes behind it.
pub const DATA_SIZE_WITHOUT_CLIENT_NAME: usize = 4 + 8 + 8 + 2 * IP_DATA_SIZE + 8 + 4 + 1;

/// The protocol version that this node speaks.
pub const PROTOCOL_VERSION: u32 = 70015;

/// The service flag of a node that serves the full chain.
pub const NODE_NETWORK: u64 = 1;

/// The service flag of a node that serves bloom-filtered connections.
pub const NODE_BLOOM: u64 = 4;

/// The services of this node: `NODE_NETWORK` and `NODE_BLOOM`.
pub const LOCAL_NODE_SERVICES: u64 = 5;

/// An endpoint of the connection: a node's services, address and port.
#[derive(Debug, PartialEq)]
pub struct IpData {
    /// The services of the node, one bit each.
    pub node_services: u64,
    /// The address, an IPv4 address in its IPv6-mapped form.
    pub ip_address: IpAddress,
    /// The port, which alone is written most significant byte first.
    pub port: u16,
}

/// An endpoint as a mathematical value.
pub struct IpDataView {
    pub node_services: u64,
    pub ip_address: Seq<u8>,
    pub port: u16,
}

impl View for IpData {
    type V = IpDataView;

    open spec fn view(&self) -> IpDataView {
        IpDataView {
            node_services: self.node_services,
            ip_address: self.ip_address@,
            port: self.port,
        }
    }
}

/// The payload of a `version` message.
#[derive(Debug, PartialEq)]
pub struct VersionMessageData {
    pub protocol_version: u32,
    pub local_node_services: u64,
    pub unix_timestamp: u64,
    /// The endpoint of the peer that the message goes to.
    pub node_ip_data: IpData,
    /// The endpoint of the node that sends the message.
    pub our_ip_data: IpData,
    pub nonce: u64,
    pub client_name: String,
    pub node_starting_height: u32,
    pub relay_transactions: bool,
}

/// The payload of a `version` message as a mathematical value.
pub struct VersionMessageDataView {
    pub protocol_version: u32,
    pub local_node_services: u64,
    pub unix_timestamp: u64,
    pub node_ip_data: IpDataView,
    pub our_ip_data: IpDataView,
    pub nonce: u64,
    pub client_name: Seq<char>,
    pub node_starting_height: u32,
    pub relay_transactions: bool,
}

impl View for VersionMessageData {
    type V = VersionMessageDataView;

    open spec fn view(&self) -> VersionMessageDataView {
        VersionMessageDataView {
            protocol_version: self.protocol_version,
            local_node_services: self.local_node_services,
            unix_timestamp: self.unix_timestamp,
            node_ip_data: self.node_ip_data@,
            our_ip_data: self.our_ip_data@,
            nonce: self.nonce,
            client_name: self.client_name@,
            node_starting_height: self.node_starting_height,
            relay_transactions: self.relay_transactions,
        }
    }
}

/// A `version` message: its header and its payload.
///
/// Writing the message takes only the network from the header: the command
/// is always `version`, and the length and the checksum are those of the
/// payload as it is written.
#[derive(Debug, PartialEq)]
pub struct Version {
    pub header: Header,
    pub data: VersionMessageData,
}

/// A `version` message as a mathematical value.
pub struct VersionView {
    pub header: HeaderView,
    pub data: VersionMessageDataView,
}

impl View for Version {
    type V = VersionView;

    open spec fn view(&self) -> VersionView {
        VersionView { header: self.header@, data: self.data@ }
    }
}

/// The command of a `version` message.
pub open spec fn version_command() -> Seq<char> {
    "version"@
}

/// The IPv6-mapped form of an IPv4 address: ten zero bytes, two bytes `FF`,
/// and the four octets.
pub open spec fn mapped_address(quad: Seq<u8>) -> Seq<u8> {
    seq![0u8, 0u8, 0u8, 0u8, 0u8, 0u8, 0u8, 0u8, 0u8, 0u8, 0xFFu8, 0xFFu8] + quad
}

/// The message that a node sends to the peer at the address `quad` and the
/// port `port`. The peer is taken to serve the full chain; of the sender no
/// address is given, only its services. The header holds no length and no
/// checksum yet.
pub open spec fn new_version(
    network_type: NetworkType,
    unix_timestamp: u64,
    quad: Seq<u8>,
    port: u16,
    nonce: u64,
    client_name: Seq<char>,
) -> VersionView {
    VersionView {
        header: HeaderView {
            network_type,
            command: version_command(),
            message_size: 0,
            hash: seq![0u8, 0u8, 0u8, 0u8],
        },
        data: VersionMessageDataView {
            protocol_version: 70015,
            local_node_services: 5,
            unix_timestamp,
            node_ip_data: IpDataView {
                node_services: 1,
                ip_address: mapped_address(quad),
                port,
            },
            our_ip_data: IpDataView {
                node_services: 5,
                ip_address: Seq::new(16, |i: int| 0u8),
                port: 0,
            },
            nonce,
            client_name,
            node_starting_height: 0,
            relay_transactions: true,
        },
    }
}

/// The 26 bytes of an endpoint: the services in 8 little-endian bytes, the
/// 16 bytes of the address, and the port in 2 big-endian bytes.
pub open spec fn ip_data_bytes(ip: IpDataView) -> Seq<u8> {
    le_bytes(ip.node_services as nat, 8) + ip.ip_address + be_u16_bytes(ip.port)
}

/// The endpoint that the first 26 bytes spell.
pub open spec fn ip_data_of(bytes: Seq<u8>) -> IpDataView {
    IpDataView {
        node_services: le_value(bytes.subrange(0, 8)) as u64,
        ip_address: bytes.subrange(8, 24),
        port: be_u16_value(bytes.subrange(24, 26)) as u16,
    }
}

/// What reading an endpoint gives: `BufferTooShort` for fewer than 26 bytes,
/// else the endpoint that the first 26 spell.
pub open spec fn parse_ip_data(bytes: Seq<u8>) -> Result<IpDataView, NetworkSerializationError> {
    if bytes.len() < 26 {
        Err(NetworkSerializationError::BufferTooShort)
    } else {
        Ok(ip_data_of(bytes))
    }
}

/// The byte of the relay flag.
pub open spec fn relay_byte(relay_transactions: bool) -> u8 {
    if relay_transactions {
        1
    } else {
        0
    }
}

/// The 80 bytes that stand before the client's name: the protocol version
/// (4 bytes), the services (8), the time (8), the peer's endpoint (26), the
/// sender's endpoint (26) and the nonce (8), the numbers little-endian.
pub open spec fn version_fixed_bytes(data: VersionMessageDataView) -> Seq<u8> {
    le_bytes(data.protocol_version as nat, 4) + le_bytes(data.local_node_services as nat, 8)
        + le_bytes(data.unix_timestamp as nat, 8) + ip_data_bytes(data.node_ip_data)
        + ip_data_bytes(data.our_ip_data) + le_bytes(data.nonce as nat, 8)
}

/// The bytes of the payload: the 80 fixed bytes, the client's name as a
/// compact string of its UTF-8 bytes, the height in 4 little-endian bytes,
/// and one byte, 1 or 0, for the relay flag.
pub open spec fn version_data_bytes(data: VersionMessageDataView) -> Seq<u8> {
    version_fixed_bytes(data) + compact_string_bytes(encode_utf8(data.client_name)) + le_bytes(
        data.node_starting_height as nat,
        4,
    ) + seq![relay_byte(data.relay_transactions)]
}

/// What writing a payload gives: its bytes, or `StringParseError` where the
/// client's name is too long for a compact string.
pub open spec fn encode_version_data(data: VersionMessageDataView) -> Result<
    Seq<u8>,
    NetworkSerializationError,
> {
    if fits_compact_size(encode_utf8(data.client_name).len()) {
        Ok(version_data_bytes(data))
    } else {
        Err(NetworkSerializationError::StringParseError)
    }
}

/// What reading a payload gives. The payload must have the 86 bytes of one
/// with an empty name, hold all of the compact string that starts at byte
/// 80, and five more bytes behind it: `BufferTooShort` else. Bytes behind
/// those are not looked at. Each byte of the name is taken as the character
/// with its number, and every relay byte but 0 as true.
pub open spec fn parse_version_data(bytes: Seq<u8>) -> Result<
    VersionMessageDataView,
    NetworkSerializationError,
> {
    if bytes.len() < 86 {
        Err(NetworkSerializationError::BufferTooShort)
    } else {
        match parse_compact_string(bytes.subrange(80, bytes.len() as int)) {
            None => Err(NetworkSerializationError::BufferTooShort),
            Some(name) => {
                let offset = 80 + name.bytes_read as int;
                if bytes.len() < offset + 5 {
                    Err(NetworkSerializationError::BufferTooShort)
                } else {
                    Ok(
                        VersionMessageDataView {
                            protocol_version: le_value(bytes.subrange(0, 4)) as u32,
                            local_node_services: le_value(bytes.subrange(4, 12)) as u64,
                            unix_timestamp: le_value(bytes.subrange(12, 20)) as u64,
                            node_ip_data: ip_data_of(bytes.subrange(20, 46)),
                            our_ip_data: ip_data_of(bytes.subrange(46, 72)),
                            nonce: le_value(bytes.subrange(72, 80)) as u64,
                            client_name: bytes_as_chars(name.content),
                            node_starting_height: le_value(
                                bytes.subrange(offset, offset + 4),
                            ) as u32,
                            relay_transactions: bytes[offset + 4] != 0,
                        },
                    )
                }
            },
        }
    }
}

/// What writing a message gives: the header for the payload, with the
/// network of the message and the command `version`, and then the payload.
/// `StringParseError` where the client's name is too long to be written, and
/// `HeaderParseError` with `MessageTooLong` where the payload's length does
/// not fit in 32 bits.
pub open spec fn encode_version(version: VersionView) -> Result<
    Seq<u8>,
    NetworkSerializationError,
> {
    match encode_version_data(version.data) {
        Err(e) => Err(e),
        Ok(payload) => if payload.len() > u32::MAX {
            Err(
                NetworkSerializationError::HeaderParseError(
                    HeaderBuildError::MessageTooLong(payload.len() as usize),
                ),
            )
        } else {
            Ok(
                header_bytes(
                    version.header.network_type,
                    encode_utf8(version_command()),
                    payload.len(),
                    checksum(payload),
                ) + payload,
            )
        },
    }
}

/// The command `version` is written as its seven ASCII bytes.
pub proof fn lemma_version_command()
    ensures
        version_command().len() == 7,
        vstd::utf8::is_ascii_chars(version_command()),
        version_command().last() != '\0',
        encode_utf8(version_command()) == seq![118u8, 101u8, 114u8, 115u8, 105u8, 111u8, 110u8],
{
    reveal_strlit("version");
    crate::serializer::lemma_ascii_text_round_trip(version_command());
    assert(encode_utf8(version_command()) =~= seq![
        118u8,
        101u8,
        114u8,
        115u8,
        105u8,
        111u8,
        110u8,
    ]);
}

/// What reading a message gives. Fewer than 109 bytes, the size of a message
/// with an empty name, are `UnknownBytes`; a header that does not parse is
/// `HeaderParseError` with the reason; a command other than `version` is
/// `UnknownBytes`; then the payload is read from byte 24 on. The length and
/// the checksum in the header are handed on as they stand: neither is held
/// against the payload.
pub open spec fn parse_version(bytes: Seq<u8>) -> Result<VersionView, NetworkSerializationError> {
    if bytes.len() < 109 {
        Err(NetworkSerializationError::UnknownBytes)
    } else {
        match parse_header(bytes.subrange(0, 24)) {
            Err(e) => Err(NetworkSerializationError::HeaderParseError(e)),
            Ok(header) => if header.command != version_command() {
                Err(NetworkSerializationError::UnknownBytes)
            } else {
                match parse_version_data(bytes.subrange(24, bytes.len() as int)) {
                    Err(e) => Err(e),
                    Ok(data) => Ok(VersionView { header, data }),
                }
            },
        }
    }
}

impl Version {
    /// The `version` message of this node for the peer at the given IPv4
    /// address and port. The address is a dotted quad as `dotted_quad` reads
    /// it: four fields with a dot between each two, each of decimal digits
    /// that spell a number up to 255, where zeros in front and a plus sign
    /// before the digits are let pass. `IntegerParsingFailure` for every
    /// other address.
    pub fn new(
        network_type: NetworkType,
        unix_timestamp: u64,
        target_ip_address: &str,
        port: u16,
        nonce: u64,
        client_name: &str,
    ) -> (result: Result<Self, IntegerParsingFailure>)
        ensures
            match dotted_quad(encode_utf8(target_ip_address@)) {
                Some(quad) => result matches Ok(version) && version@ == new_version(
                    network_type,
                    unix_timestamp,
                    quad,
                    port,
                    nonce,
                    client_name@,
                ),
                None => result is Err,
            },
    {
        let octets = match string_to_ip(target_ip_address) {
            Some(octets) => octets,
            None => { return Err(IntegerParsingFailure); },
        };
        let node_address: IpAddress = [
            0,
            0,
            0,
            0,
            0,
            0,
            0,
            0,
            0,
            0,
            0xFF,
            0xFF,
            octets[0],
            octets[1],
            octets[2],
            octets[3],
        ];
        let our_address: IpAddress = [0;16];
        let version = Version {
            header: Header {
                network_type,
                command: "version".to_owned(),
                message_size: 0,
                hash: [0, 0, 0, 0],
            },
            data: VersionMessageData {
                protocol_version: PROTOCOL_VERSION,
                local_node_services: LOCAL_NODE_SERVICES,
                unix_timestamp,
                node_ip_data: IpData {
                    node_services: NODE_NETWORK,
                    ip_address: node_address,
                    port,
                },
                our_ip_data: IpData {
                    node_services: LOCAL_NODE_SERVICES,
                    ip_address: our_address,
                    port: 0,
                },
                nonce,
                client_name: client_name.to_owned(),
                node_starting_height: 0,
                relay_transactions: true,
            },
        };
        proof {
            let quad = dotted_quad(encode_utf8(target_ip_address@))->Some_0;
            let expected = new_version(
                network_type,
                unix_timestamp,
                quad,
                port,
                nonce,
                client_name@,
            );
            assert(node_address@ =~= mapped_address(quad));
            assert(our_address@ =~= expected.data.our_ip_data.ip_address);
            assert(version.header.hash@ =~= expected.header.hash);
        }
        Ok(version)
    }
}

impl NetworkSerializable<IpData> for IpData {
    open spec fn decodes_to(bytes: Seq<u8>, result: Result<IpData, NetworkSerializationError>) -> bool {
        match parse_ip_data(bytes) {
            Ok(ip) => result matches Ok(read) && read@ == ip,
            Err(e) => result == Err::<IpData, NetworkSerializationError>(e),
        }
    }

    open spec fn encoding(&self) -> Result<Seq<u8>, NetworkSerializationError> {
        Ok(ip_data_bytes(self@))
    }

    fn from_network_bytes(bytes: &[u8]) -> (result: Result<IpData, NetworkSerializationError>) {
        if bytes.len() < IP_DATA_SIZE {
            return Err(NetworkSerializationError::BufferTooShort);
        }
        let node_services = match slice_to_u64(&bytes[0..8]) {
            Some(services) => services,
            None => { return Err(NetworkSerializationError::UnknownBytes); },
        };
        let ip_address = match slice_to_ip_address(&bytes[8..24]) {
            Some(address) => address,
            None => { return Err(NetworkSerializationError::UnknownBytes); },
        };
        let port = match be_slice_to_u16(&bytes[24..26]) {
            Some(port) => port,
            None => { return Err(NetworkSerializationError::UnknownBytes); },
        };
        Ok(IpData { node_services, ip_address, port })
    }

    fn to_network_bytes(&self) -> (result: Result<Vec<u8>, NetworkSerializationError>) {
        let mut buffer: Vec<u8> = Vec::with_capacity(IP_DATA_SIZE);
        extend_with_le_bytes(&mut buffer, self.node_services, 8);
        extend_with_bytes(&mut buffer, self.ip_address.as_slice());
        extend_with_be_u16(&mut buffer, self.port);
        assert(buffer@ =~= ip_data_bytes(self@));
        Ok(buffer)
    }
}

impl NetworkSerializable<VersionMessageData> for VersionMessageData {
    open spec fn decodes_to(
        bytes: Seq<u8>,
        result: Result<VersionMessageData, NetworkSerializationError>,
    ) -> bool {
        match parse_version_data(bytes) {
            Ok(data) => result matches Ok(read) && read@ == data,
            Err(e) => result == Err::<VersionMessageData, NetworkSerializationError>(e),
        }
    }

    open spec fn encoding(&self) -> Result<Seq<u8>, NetworkSerializationError> {
        encode_version_data(self@)
    }

    fn from_network_bytes(bytes: &[u8]) -> (result: Result<
        VersionMessageData,
        NetworkSerializationError,
    >) {
        if bytes.len() < DATA_SIZE_WITHOUT_CLIENT_NAME + 1 {
            return Err(NetworkSerializationError::BufferTooShort);
        }
        let protocol_version = match slice_to_u32(&bytes[0..4]) {
            Some(version) => version,
            None => { return Err(NetworkSerializationError::UnknownBytes); },
        };
        let local_node_services = match slice_to_u64(&bytes[4..12]) {
            Some(services) => services,
            None => { return Err(NetworkSerializationError::UnknownBytes); },
        };
        let unix_timestamp = match slice_to_u64(&bytes[12..20]) {
            Some(timestamp) => timestamp,
            None => { return Err(NetworkSerializationError::UnknownBytes); },
        };
        let node_ip_data = match IpData::from_network_bytes(&bytes[20..46]) {
            Ok(ip) => ip,
            Err(e) => { return Err(e); },
        };
        let our_ip_data = match IpData::from_network_bytes(&bytes[46..72]) {
            Ok(ip) => ip,
            Err(e) => { return Err(e); },
        };
        let nonce = match slice_to_u64(&bytes[72..80]) {
            Some(nonce) => nonce,
            None => { return Err(NetworkSerializationError::UnknownBytes); },
        };
        let name = match String::from_dogecoin_bytes(&bytes[80..bytes.len()]) {
            Ok(name) => name,
            Err(_) => { return Err(NetworkSerializationError::BufferTooShort); },
        };
        let offset: usize = 80 + name.bytes_read;
        if bytes.len() - offset < 5 {
            return Err(NetworkSerializationError::BufferTooShort);
        }
        let node_starting_height = match slice_to_u32(&bytes[offset..offset + 4]) {
            Some(height) => height,
            None => { return Err(NetworkSerializationError::UnknownBytes); },
        };
        let relay_transactions = bytes[offset + 4] != 0;
        Ok(
            VersionMessageData {
                protocol_version,
                local_node_services,
                unix_timestamp,
                node_ip_data,
                our_ip_data,
                nonce,
                client_name: name.value,
                node_starting_height,
                relay_transactions,
            },
        )
    }

    fn to_network_bytes(&self) -> (result: Result<Vec<u8>, NetworkSerializationError>) {
        let name = match self.client_name.to_dogecoin_bytes() {
            Ok(name) => name,
            Err(e) => { return Err(NetworkSerializationError::from(e)); },
        };
        let node_ip = match self.node_ip_data.to_network_bytes() {
            Ok(bytes) => bytes,
            Err(e) => { return Err(e); },
        };
        let our_ip = match self.our_ip_data.to_network_bytes() {
            Ok(bytes) => bytes,
            Err(e) => { return Err(e); },
        };
        let mut buffer: Vec<u8> = Vec::new();
        extend_with_le_bytes(&mut buffer, self.protocol_version as u64, 4);
        extend_with_le_bytes(&mut buffer, self.local_node_services, 8);
        extend_with_le_bytes(&mut buffer, self.unix_timestamp, 8);
        extend_with_bytes(&mut buffer, node_ip.as_slice());
        extend_with_bytes(&mut buffer, our_ip.as_slice());
        extend_with_le_bytes(&mut buffer, self.nonce, 8);
        extend_with_bytes(&mut buffer, name.as_slice());
        extend_with_le_bytes(&mut buffer, self.node_starting_height as u64, 4);
        buffer.push(if self.relay_transactions { 1 } else { 0 });
        assert(buffer@ =~= version_data_bytes(self@));
        Ok(buffer)
    }
}

impl NetworkSerializable<Version> for Version {
    open spec fn decodes_to(bytes: Seq<u8>, result: Result<Version, NetworkSerializationError>) -> bool {
        match parse_version(bytes) {
            Ok(version) => result matches Ok(read) && read@ == version,
            Err(e) => result == Err::<Version, NetworkSerializationError>(e),
        }
    }

    open spec fn encoding(&self) -> Result<Seq<u8>, NetworkSerializationError> {
        encode_version(self@)
    }

    fn from_network_bytes(bytes: &[u8]) -> (result: Result<Version, NetworkSerializationError>) {
        if bytes.len() < HEADER_SIZE + DATA_SIZE_WITHOUT_CLIENT_NAME {
            return Err(NetworkSerializationError::UnknownBytes);
        }
        let header = match Header::from_network_bytes(&bytes[0..HEADER_SIZE]) {
            Ok(header) => header,
            Err(e) => { return Err(NetworkSerializationError::from(e)); },
        };
        if header.command != "version".to_owned() {
            return Err(NetworkSerializationError::UnknownBytes);
        }
        let data = match VersionMessageData::from_network_bytes(&bytes[HEADER_SIZE..bytes.len()]) {
            Ok(data) => data,
            Err(e) => { return Err(e); },
        };
        Ok(Version { header, data })
    }

    fn to_network_bytes(&self) -> (result: Result<Vec<u8>, NetworkSerializationError>) {
        let data_bytes = match self.data.to_network_bytes() {
            Ok(bytes) => bytes,
            Err(e) => { return Err(e); },
        };
        let framing = Header {
            network_type: self.header.network_type,
            command: "version".to_owned(),
            message_size: 0,
            hash: [0, 0, 0, 0],
        };
        proof {
            lemma_version_command();
        }
        let mut bytes = match framing.to_network_bytes(data_bytes.as_slice()) {
            Ok(bytes) => bytes,
            Err(e) => { return Err(NetworkSerializationError::from(e)); },
        };
        extend_with_bytes(&mut bytes, data_bytes.as_slice());
        Ok(bytes)
    }
}

/// An endpoint with an address of 16 bytes is written in 26 bytes, and is
/// read back from them, whatever follows.
pub proof fn lemma_ip_data_round_trip(ip: IpDataView, rest: Seq<u8>)
    requires
        ip.ip_address.len() == 16,
    ensures
        ip_data_bytes(ip).len() == 26,
        ip_data_of(ip_data_bytes(ip) + rest) == ip,
{
    let bytes = ip_data_bytes(ip) + rest;
    assert(byte_range(8) == 0x1_0000_0000_0000_0000) by {
        reveal_with_fuel(byte_range, 9);
    }
    lemma_le_bytes_len(ip.node_services as nat, 8);
    lemma_le_value_of_bytes(ip.node_services as nat, 8);
    lemma_be_u16_round_trip(ip.port, Seq::empty());
    assert(bytes.subrange(0, 8) =~= le_bytes(ip.node_services as nat, 8));
    assert(bytes.subrange(8, 24) =~= ip.ip_address);
    assert(bytes.subrange(24, 26) =~= be_u16_bytes(ip.port));
}

/// A payload that was written reads back as it was, whatever follows it,
/// where its addresses have 16 bytes and the client's name is made of ASCII
/// characters and fits a compact string.
pub proof fn lemma_version_data_round_trip(data: VersionMessageDataView, rest: Seq<u8>)
    requires
        data.node_ip_data.ip_address.len() == 16,
        data.our_ip_data.ip_address.len() == 16,
        is_ascii_chars(data.client_name),
        fits_compact_size(data.client_name.len()),
    ensures
        version_data_bytes(data).len() == 85 + compact_string_bytes(
            encode_utf8(data.client_name),
        ).len(),
        parse_version_data(version_data_bytes(data) + rest) == Ok::<
            VersionMessageDataView,
            NetworkSerializationError,
        >(data),
{
    let name = encode_utf8(data.client_name);
    lemma_ascii_text_round_trip(data.client_name);
    let fixed = version_fixed_bytes(data);
    let text = compact_string_bytes(name);
    let height = le_bytes(data.node_starting_height as nat, 4);
    let relay = seq![relay_byte(data.relay_transactions)];
    let bytes = version_data_bytes(data) + rest;
    assert(byte_range(4) == 0x1_0000_0000 && byte_range(8) == 0x1_0000_0000_0000_0000) by {
        reveal_with_fuel(byte_range, 9);
    }
    let f0 = le_bytes(data.protocol_version as nat, 4);
    let f1 = le_bytes(data.local_node_services as nat, 8);
    let f2 = le_bytes(data.unix_timestamp as nat, 8);
    let f3 = ip_data_bytes(data.node_ip_data);
    let f4 = ip_data_bytes(data.our_ip_data);
    let f5 = le_bytes(data.nonce as nat, 8);
    lemma_le_bytes_len(data.protocol_version as nat, 4);
    lemma_le_bytes_len(data.local_node_services as nat, 8);
    lemma_le_bytes_len(data.unix_timestamp as nat, 8);
    lemma_le_bytes_len(data.nonce as nat, 8);
    lemma_le_bytes_len(data.node_starting_height as nat, 4);
    lemma_le_value_of_bytes(data.protocol_version as nat, 4);
    lemma_le_value_of_bytes(data.local_node_services as nat, 8);
    lemma_le_value_of_bytes(data.unix_timestamp as nat, 8);
    lemma_le_value_of_bytes(data.nonce as nat, 8);
    lemma_le_value_of_bytes(data.node_starting_height as nat, 4);
    lemma_ip_data_round_trip(data.node_ip_data, Seq::empty());
    lemma_ip_data_round_trip(data.our_ip_data, Seq::empty());
    assert(f3 + Seq::<u8>::empty() =~= f3);
    assert(f4 + Seq::<u8>::empty() =~= f4);
    assert(fixed.len() == 80);
    assert(bytes.subrange(0, 4) =~= f0);
    assert(bytes.subrange(4, 12) =~= f1);
    assert(bytes.subrange(12, 20) =~= f2);
    assert(bytes.subrange(20, 46) =~= f3);
    assert(bytes.subrange(46, 72) =~= f4);
    assert(bytes.subrange(72, 80) =~= f5);
    let tail = height + relay + rest;
    lemma_compact_string_round_trip(name, tail);
    assert(bytes.subrange(80, bytes.len() as int) =~= text + tail);
    let offset = 80 + text.len() as int;
    assert(bytes.subrange(offset, offset + 4) =~= height);
    assert(bytes[offset + 4] == relay_byte(data.relay_transactions));
    assert(text.len() >= 1);
}

/// A message that was written reads back as it was: with the network it was
/// written for, the command `version`, the length and the checksum of its
/// payload, and every field of the payload. This holds where the addresses
/// have 16 bytes, the client's name is made of ASCII characters, and the
/// message is not too long to be written.
pub proof fn lemma_version_round_trip(version: VersionView)
    requires
        version.data.node_ip_data.ip_address.len() == 16,
        version.data.our_ip_data.ip_address.len() == 16,
        is_ascii_chars(version.data.client_name),
        encode_version(version) is Ok,
    ensures
        parse_version(encode_version(version)->Ok_0) == Ok::<
            VersionView,
            NetworkSerializationError,
        >(
            VersionView {
                header: HeaderView {
                    network_type: version.header.network_type,
                    command: version_command(),
                    message_size: version_data_bytes(version.data).len(),
                    hash: checksum(version_data_bytes(version.data)),
                },
                data: version.data,
            },
        ),
{
    let payload = version_data_bytes(version.data);
    let command = encode_utf8(version_command());
    lemma_version_command();
    lemma_ascii_text_round_trip(version_command());
    lemma_ascii_text_round_trip(version.data.client_name);
    lemma_version_data_round_trip(version.data, Seq::empty());
    assert(payload + Seq::<u8>::empty() =~= payload);
    let header = header_bytes(
        version.header.network_type,
        command,
        payload.len(),
        checksum(payload),
    );
    crate::header::lemma_header_bytes_parse(
        version.header.network_type,
        command,
        payload.len(),
        checksum(payload),
        Seq::empty(),
    );
    assert(header + Seq::<u8>::empty() =~= header);
    let bytes = header + payload;
    assert(bytes.subrange(0, 24) =~= header);
    assert(bytes.subrange(24, bytes.len() as int) =~= payload);
}

} // verus!
