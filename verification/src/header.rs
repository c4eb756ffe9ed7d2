//! The 24-byte header that frames every message: the magic of the network,
//! the command in a NUL-padded field of 12 bytes, the length of the payload
//! in 4 little-endian bytes, and the checksum of the payload.

use crate::checksum::{calculate_message_hash, checksum};
use crate::errors::HeaderBuildError;
use crate::network::{magic, network_of_magic, NetworkSerializable, NetworkType};
use crate::serializer::{
    bytes_as_chars, extend_with_bytes, extend_with_le_bytes, le_bytes, le_value,
    lemma_ascii_text_round_trip, lemma_le_bytes_len, lemma_le_value_of_bytes, byte_range,
    slice_to_string, slice_to_u32, strip_trailing_nuls,
};
use vstd::prelude::*;
use vstd::utf8::{encode_utf8, is_ascii_chars};

verus! {

/// The number of bytes of the magic.
pub const NETWORK_TYPE_HEADER_SIZE: usize = 4;

/// The number of bytes of the command field.
pub const COMMAND_SIZE: usize = 12;

/// The number of bytes of the payload length.
pub const MESSAGE_SIZE_SIZE: usize = 4;

/// The number of bytes of the checksum.
pub const HASH_SIZE: usize = 4;

/// The number of bytes of a header.
pub const HEADER_SIZE: usize = NETWORK_TYPE_HEADER_SIZE + COMMAND_SIZE + MESSAGE_SIZE_SIZE
    + HASH_SIZE;

/// The header of a message.
///
/// `to_network_bytes` takes the length and the checksum from the payload it
/// is given, not from the fields; `from_network_bytes` fills the fields from
/// the bytes and holds the checksum against no payload.
#[derive(Debug, PartialEq)]
pub struct Header {
    /// The network that the message belongs to.
    pub network_type: NetworkType,
    /// The command, which names the kind of the message.
    pub command: String,
    /// The number of bytes of the payload.
    pub message_size: usize,
    /// The checksum of the payload.
    pub hash: [u8; 4],
}

/// A header as a mathematical value.
pub struct HeaderView {
    pub network_type: NetworkType,
    pub command: Seq<char>,
    pub message_size: nat,
    pub hash: Seq<u8>,
}

impl View for Header {
    type V = HeaderView;

    open spec fn view(&self) -> HeaderView {
        HeaderView {
            network_type: self.network_type,
            command: self.command@,
            message_size: self.message_size as nat,
            hash: self.hash@,
        }
    }
}

/// `count` NUL bytes.
pub open spec fn nul_bytes(count: nat) -> Seq<u8> {
    Seq::new(count, |i: int| 0u8)
}

/// The command field: the bytes of the command, then NUL bytes up to the
/// twelfth byte.
pub open spec fn command_field(command: Seq<u8>) -> Seq<u8> {
    command + nul_bytes((12 - command.len()) as nat)
}

/// The bytes of a header, for a command of at most 12 bytes, a payload length
/// that fits in 32 bits and a checksum of 4 bytes.
pub open spec fn header_bytes(
    network_type: NetworkType,
    command: Seq<u8>,
    payload_length: nat,
    hash: Seq<u8>,
) -> Seq<u8> {
    magic(network_type) + command_field(command) + le_bytes(payload_length, 4) + hash
}

/// What building a header gives: `CommandTooLong` for a command of more than
/// 12 bytes, else `MessageTooLong` with the payload's length where it does
/// not fit in 32 bits, else the bytes of the header.
pub open spec fn build_header(
    network_type: NetworkType,
    command: Seq<u8>,
    payload_length: nat,
    hash: Seq<u8>,
) -> Result<Seq<u8>, HeaderBuildError> {
    if command.len() > 12 {
        Err(HeaderBuildError::CommandTooLong)
    } else if payload_length > u32::MAX {
        Err(HeaderBuildError::MessageTooLong(payload_length as usize))
    } else {
        Ok(header_bytes(network_type, command, payload_length, hash))
    }
}

/// What parsing the first 24 bytes gives: `TooShort` where there are fewer,
/// else `UnknownNetworkType` where the first four are no network's magic,
/// else `CommandIsEmpty` where the command field holds NUL bytes only, else
/// the header. The command is the field without the NUL bytes at its end;
/// the checksum is the last four bytes as they stand.
pub open spec fn parse_header(bytes: Seq<u8>) -> Result<HeaderView, HeaderBuildError> {
    if bytes.len() < 24 {
        Err(HeaderBuildError::TooShort)
    } else {
        match network_of_magic(bytes.subrange(0, 4)) {
            None => Err(HeaderBuildError::UnknownNetworkType),
            Some(network_type) => {
                let command = strip_trailing_nuls(bytes.subrange(4, 16));
                if command.len() == 0 {
                    Err(HeaderBuildError::CommandIsEmpty)
                } else {
                    Ok(
                        HeaderView {
                            network_type,
                            command: bytes_as_chars(command),
                            message_size: le_value(bytes.subrange(16, 20)),
                            hash: bytes.subrange(20, 24),
                        },
                    )
                }
            },
        }
    }
}

/// Writes a header from its four parts.
fn write_header(
    network_type: NetworkType,
    command: &[u8],
    payload_length: usize,
    hash: &[u8; 4],
) -> (result: Result<Vec<u8>, HeaderBuildError>)
    ensures
        match build_header(network_type, command@, payload_length as nat, hash@) {
            Ok(bytes) => result matches Ok(written) && written@ == bytes,
            Err(e) => result == Err::<Vec<u8>, HeaderBuildError>(e),
        },
{
    if command.len() > COMMAND_SIZE {
        return Err(HeaderBuildError::CommandTooLong);
    }
    if payload_length > 0xFFFF_FFFF {
        return Err(HeaderBuildError::MessageTooLong(payload_length));
    }
    let mut buffer: Vec<u8> = Vec::with_capacity(HEADER_SIZE);
    match network_type.to_network_bytes() {
        Ok(magic_bytes) => { extend_with_bytes(&mut buffer, magic_bytes.as_slice()); },
        Err(e) => { return Err(HeaderBuildError::from(e)); },
    }
    extend_with_bytes(&mut buffer, command);
    let padding_size: usize = COMMAND_SIZE - command.len();
    let mut padded: usize = 0;
    while padded < padding_size
        invariant
            padded <= padding_size,
            buffer@ == magic(network_type) + command@ + nul_bytes(padded as nat),
        decreases padding_size - padded,
    {
        buffer.push(0);
        padded = padded + 1;
        assert(buffer@ =~= magic(network_type) + command@ + nul_bytes(padded as nat));
    }
    extend_with_le_bytes(&mut buffer, payload_length as u64, MESSAGE_SIZE_SIZE);
    extend_with_bytes(&mut buffer, hash.as_slice());
    assert(buffer@ =~= header_bytes(network_type, command@, payload_length as nat, hash@));
    Ok(buffer)
}

impl Header {
    /// Parses the header at the start of the bytes. What follows the first
    /// 24 bytes is not looked at.
    pub fn from_network_bytes(bytes: &[u8]) -> (result: Result<Self, HeaderBuildError>)
        ensures
            match parse_header(bytes@) {
                Ok(header) => result matches Ok(parsed) && parsed@ == header,
                Err(e) => result == Err::<Header, HeaderBuildError>(e),
            },
    {
        if bytes.len() < HEADER_SIZE {
            return Err(HeaderBuildError::TooShort);
        }
        let network_type = match NetworkType::from_network_bytes(&bytes[0..4]) {
            Ok(network_type) => network_type,
            Err(_) => { return Err(HeaderBuildError::UnknownNetworkType); },
        };
        let command = slice_to_string(&bytes[4..16]);
        if command.as_str().is_empty() {
            return Err(HeaderBuildError::CommandIsEmpty);
        }
        let message_size: u32 = match slice_to_u32(&bytes[16..20]) {
            Some(size) => size,
            None => { return Err(HeaderBuildError::MessageSizeParseFailure); },
        };
        let hash = [bytes[20], bytes[21], bytes[22], bytes[23]];
        assert(hash@ =~= bytes@.subrange(20, 24));
        Ok(Header { network_type, command, message_size: message_size as usize, hash })
    }

    /// Builds the header that frames `message`: the network and the command
    /// of `self`, with the length and the checksum of the message. The
    /// fields `message_size` and `hash` are not read.
    pub fn to_network_bytes(&self, message: &[u8]) -> (result: Result<Vec<u8>, HeaderBuildError>)
        ensures
            match build_header(
                self.network_type,
                encode_utf8(self.command@),
                message@.len(),
                checksum(message@),
            ) {
                Ok(bytes) => result matches Ok(written) && written@ == bytes,
                Err(e) => result == Err::<Vec<u8>, HeaderBuildError>(e),
            },
    {
        let hash = calculate_message_hash(message);
        write_header(self.network_type, self.command.as_str().as_bytes(), message.len(), &hash)
    }

    /// Writes the header as it stands, with the length and the checksum that
    /// its fields hold.
    pub fn encode(&self) -> (result: Result<Vec<u8>, HeaderBuildError>)
        ensures
            match build_header(
                self.network_type,
                encode_utf8(self.command@),
                self.message_size as nat,
                self.hash@,
            ) {
                Ok(bytes) => result matches Ok(written) && written@ == bytes,
                Err(e) => result == Err::<Vec<u8>, HeaderBuildError>(e),
            },
    {
        write_header(
            self.network_type,
            self.command.as_str().as_bytes(),
            self.message_size,
            &self.hash,
        )
    }
}

/// Padding is taken off again: a field that ends in `count` more NUL bytes
/// strips to the same bytes.
pub proof fn lemma_strip_padding(field: Seq<u8>, count: nat)
    ensures
        strip_trailing_nuls(field + nul_bytes(count)) == strip_trailing_nuls(field),
    decreases count,
{
    if count == 0 {
        assert(field + nul_bytes(0) =~= field);
    } else {
        let padded = field + nul_bytes(count);
        assert(padded.drop_last() =~= field + nul_bytes((count - 1) as nat));
        lemma_strip_padding(field, (count - 1) as nat);
    }
}

/// A header whose command field holds NUL bytes only has no command: where
/// the magic is that of a network, parsing it gives `CommandIsEmpty`.
pub proof fn lemma_nul_command_is_empty(bytes: Seq<u8>)
    requires
        bytes.len() >= 24,
        network_of_magic(bytes.subrange(0, 4)) is Some,
        forall|i: int| 4 <= i < 16 ==> bytes[i] == 0,
    ensures
        parse_header(bytes) == Err::<HeaderView, HeaderBuildError>(
            HeaderBuildError::CommandIsEmpty,
        ),
{
    assert(bytes.subrange(4, 16) =~= Seq::<u8>::empty() + nul_bytes(12));
    lemma_strip_padding(Seq::empty(), 12);
}

/// A header of `header_bytes` has 24 bytes and parses to its four parts,
/// whatever bytes follow it, where the command has between 1 and 12 bytes
/// and does not end in a NUL byte, the payload length fits in 32 bits and
/// the checksum has 4 bytes.
pub proof fn lemma_header_bytes_parse(
    network_type: NetworkType,
    command: Seq<u8>,
    payload_length: nat,
    hash: Seq<u8>,
    rest: Seq<u8>,
)
    requires
        0 < command.len() <= 12,
        command.last() != 0,
        payload_length <= u32::MAX,
        hash.len() == 4,
    ensures
        header_bytes(network_type, command, payload_length, hash).len() == 24,
        parse_header(header_bytes(network_type, command, payload_length, hash) + rest) == Ok::<
            HeaderView,
            HeaderBuildError,
        >(
            HeaderView {
                network_type,
                command: bytes_as_chars(command),
                message_size: payload_length,
                hash,
            },
        ),
{
    let bytes = header_bytes(network_type, command, payload_length, hash) + rest;
    crate::network::lemma_magic_round_trip(network_type, Seq::empty());
    lemma_le_bytes_len(payload_length, 4);
    assert(byte_range(4) == 0x1_0000_0000) by {
        reveal_with_fuel(byte_range, 5);
    }
    lemma_le_value_of_bytes(payload_length, 4);
    lemma_strip_padding(command, (12 - command.len()) as nat);
    assert(bytes.subrange(0, 4) =~= magic(network_type));
    assert(bytes.subrange(4, 16) =~= command_field(command));
    assert(bytes.subrange(16, 20) =~= le_bytes(payload_length, 4));
    assert(bytes.subrange(20, 24) =~= hash);
}

/// A header that was built parses back to what it was built from: for a
/// command of 1 to 12 ASCII characters that does not end in a NUL character,
/// and a payload whose length fits in 32 bits, the header that
/// `to_network_bytes` builds parses to the network, the command and the
/// payload's length and checksum.
pub proof fn lemma_header_round_trip(
    network_type: NetworkType,
    command: Seq<char>,
    payload: Seq<u8>,
)
    requires
        is_ascii_chars(command),
        0 < command.len() <= 12,
        command.last() != '\0',
        payload.len() <= u32::MAX,
    ensures
        build_header(network_type, encode_utf8(command), payload.len(), checksum(payload))
            matches Ok(bytes) && parse_header(bytes) == Ok::<HeaderView, HeaderBuildError>(
            HeaderView {
                network_type,
                command,
                message_size: payload.len(),
                hash: checksum(payload),
            },
        ),
{
    let written = encode_utf8(command);
    lemma_ascii_text_round_trip(command);
    assert(written.last() == command.last() as u8);
    lemma_header_bytes_parse(
        network_type,
        written,
        payload.len(),
        checksum(payload),
        Seq::empty(),
    );
    let bytes = header_bytes(network_type, written, payload.len(), checksum(payload));
    assert(bytes + Seq::<u8>::empty() =~= bytes);
}

} // verus!
