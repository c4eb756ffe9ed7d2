//! Wire codec and handshake sequencing for the Dogecoin peer-to-peer
//! connection handshake.
//!
//! The crate frames and parses the 24-byte message header, encodes and
//! decodes the `version` and `verack` messages, and decides, step by step,
//! what a node has to write to and read from a peer to complete the
//! four-message handshake. Every function states its result over byte
//! sequences (`Seq<u8>`) and the views of the message types, and is proved
//! against that statement.
//!
//! The crate does no I/O: the caller owns the stream and the clock and hands
//! the library the bytes and numbers it got from them.

pub mod checksum;
pub mod errors;
pub mod handshake;
pub mod header;
pub mod ip;
pub mod messages;
pub mod network;
pub mod serializer;

pub use errors::{
    CalculateSizeOfSerializedStringAndLengthBytesError, HeaderBuildError, IntegerParsingFailure,
    NetworkSerializationError, NodeConnectionAgentError,
};
pub use network::{NetworkSerializable, NetworkType};
