//! The `verack` message, which acknowledges a `version` message. It is a
//! header alone: its payload is empty.

use crate::checksum::checksum;
use crate::errors::NetworkSerializationError;
use crate::header::{header_bytes, parse_header, Header, HeaderView, HEADER_SIZE};
use crate::network::{NetworkSerializable, NetworkType};
use vstd::prelude::*;
use vstd::utf8::encode_utf8;

verus! {

/// A `verack` message.
///
/// Writing the message takes only the network from the header: the command
/// is always `verack`, and the length and the checksum are those of the
/// empty payload.
#[derive(Debug, PartialEq)]
pub struct Verack {
    header: Header,
}

impl View for Verack {
    type V = HeaderView;

    /// The header of the message.
    closed spec fn view(&self) -> HeaderView {
        self.header@
    }
}

/// The command of a `verack` message.
pub open spec fn verack_command() -> Seq<char> {
    "verack"@
}

/// The 24 bytes of the `verack` message of a network: the header of the
/// empty payload with the command `verack`.
pub open spec fn verack_bytes(network_type: NetworkType) -> Seq<u8> {
    header_bytes(
        network_type,
        encode_utf8(verack_command()),
        0,
        checksum(Seq::<u8>::empty()),
    )
}

/// What reading a message gives. Fewer than 24 bytes are `UnknownBytes`; a
/// header that does not parse is `HeaderParseError` with the reason; a
/// command other than `verack` is `UnknownBytes`. The length and the
/// checksum in the header are handed on as they stand, and bytes behind the
/// header are not looked at.
pub open spec fn parse_verack(bytes: Seq<u8>) -> Result<HeaderView, NetworkSerializationError> {
    if bytes.len() < 24 {
        Err(NetworkSerializationError::UnknownBytes)
    } else {
        match parse_header(bytes.subrange(0, 24)) {
            Err(e) => Err(NetworkSerializationError::HeaderParseError(e)),
            Ok(header) => if header.command != verack_command() {
                Err(NetworkSerializationError::UnknownBytes)
            } else {
                Ok(header)
            },
        }
    }
}

impl Verack {
    /// The `verack` message of a network. Its header holds no length and no
    /// checksum yet.
    pub fn new(network_type: NetworkType) -> (verack: Self)
        ensures
            verack@ == (HeaderView {
                network_type,
                command: verack_command(),
                message_size: 0,
                hash: seq![0u8, 0u8, 0u8, 0u8],
            }),
    {
        let header = Header {
            network_type,
            command: "verack".to_owned(),
            message_size: 0,
            hash: [0, 0, 0, 0],
        };
        assert(header.hash@ =~= seq![0u8, 0u8, 0u8, 0u8]);
        Verack { header }
    }

    /// The network that the message belongs to.
    pub fn network_type(&self) -> (network_type: NetworkType)
        ensures
            network_type == self@.network_type,
    {
        self.header.network_type
    }
}

impl NetworkSerializable<Verack> for Verack {
    open spec fn decodes_to(bytes: Seq<u8>, result: Result<Verack, NetworkSerializationError>) -> bool {
        match parse_verack(bytes) {
            Ok(header) => result matches Ok(read) && read@ == header,
            Err(e) => result == Err::<Verack, NetworkSerializationError>(e),
        }
    }

    open spec fn encoding(&self) -> Result<Seq<u8>, NetworkSerializationError> {
        Ok(verack_bytes(self@.network_type))
    }

    fn from_network_bytes(bytes: &[u8]) -> (result: Result<Verack, NetworkSerializationError>) {
        if bytes.len() < HEADER_SIZE {
            return Err(NetworkSerializationError::UnknownBytes);
        }
        let header = match Header::from_network_bytes(&bytes[0..24]) {
            Ok(header) => header,
            Err(e) => { return Err(NetworkSerializationError::from(e)); },
        };
        if header.command != "verack".to_owned() {
            return Err(NetworkSerializationError::UnknownBytes);
        }
        Ok(Verack { header })
    }

    fn to_network_bytes(&self) -> (result: Result<Vec<u8>, NetworkSerializationError>) {
        let framing = Header {
            network_type: self.header.network_type,
            command: "verack".to_owned(),
            message_size: 0,
            hash: [0, 0, 0, 0],
        };
        let payload: [u8; 0] = [];
        proof {
            reveal_strlit("verack");
            crate::serializer::lemma_ascii_text_round_trip(verack_command());
            assert(payload@ =~= Seq::<u8>::empty());
        }
        match framing.to_network_bytes(payload.as_slice()) {
            Ok(bytes) => Ok(bytes),
            Err(e) => Err(NetworkSerializationError::from(e)),
        }
    }
}

} // verus!
