//! The networks a node can belong to, each known by its four magic bytes, and
//! the trait of the values that have a wire form.

use crate::errors::NetworkSerializationError;
use vstd::prelude::*;

verus! {

/// A value that can be read from and written to the wire.
pub trait NetworkSerializable<T: Sized> {
    /// Whether `result` is what reading `bytes` gives: the value that the
    /// bytes spell, or the error that says why they spell none.
    spec fn decodes_to(bytes: Seq<u8>, result: Result<T, NetworkSerializationError>) -> bool;

    /// What writing the value gives: its bytes, or the error that says why it
    /// has none.
    spec fn encoding(&self) -> Result<Seq<u8>, NetworkSerializationError>;

    /// Reads a value from the start of the bytes.
    fn from_network_bytes(bytes: &[u8]) -> (result: Result<T, NetworkSerializationError>)
        ensures
            Self::decodes_to(bytes@, result),
    ;

    /// Writes the value.
    fn to_network_bytes(&self) -> (result: Result<Vec<u8>, NetworkSerializationError>)
        ensures
            match self.encoding() {
                Ok(bytes) => result matches Ok(written) && written@ == bytes,
                Err(e) => result == Err::<Vec<u8>, NetworkSerializationError>(e),
            },
    ;
}

/// The network that a message belongs to.
#[derive(Clone, Copy, Debug, PartialEq, Eq)]
pub enum NetworkType {
    /// The main network.
    Main,
    /// The public test network.
    Test,
    /// A local network for regression tests.
    RegressionTest,
}

/// The four bytes that open every message of the network.
pub open spec fn magic(network_type: NetworkType) -> Seq<u8> {
    match network_type {
        NetworkType::Main => seq![0xC0u8, 0xC0u8, 0xC0u8, 0xC0u8],
        NetworkType::Test => seq![0xFCu8, 0xC1u8, 0xB7u8, 0xDCu8],
        NetworkType::RegressionTest => seq![0xFAu8, 0xBFu8, 0xB5u8, 0xDAu8],
    }
}

/// The network whose magic the bytes are, all of them and no more.
pub open spec fn network_of_magic(bytes: Seq<u8>) -> Option<NetworkType> {
    if bytes == magic(NetworkType::Main) {
        Some(NetworkType::Main)
    } else if bytes == magic(NetworkType::Test) {
        Some(NetworkType::Test)
    } else if bytes == magic(NetworkType::RegressionTest) {
        Some(NetworkType::RegressionTest)
    } else {
        None
    }
}

/// Every network is found again from its magic, so no two networks share
/// one, and bytes that are the magic of a network are written back as they
/// were read.
pub proof fn lemma_magic_round_trip(network_type: NetworkType, bytes: Seq<u8>)
    ensures
        magic(network_type).len() == 4,
        network_of_magic(magic(network_type)) == Some(network_type),
        network_of_magic(bytes) matches Some(n) ==> magic(n) == bytes,
{
    let main = magic(NetworkType::Main);
    let test = magic(NetworkType::Test);
    let regression = magic(NetworkType::RegressionTest);
    assert(main[0] == 0xC0 && test[0] == 0xFC && regression[0] == 0xFA);
}

/// Whether the slice holds exactly the four given bytes.
fn is_magic(bytes: &[u8], b0: u8, b1: u8, b2: u8, b3: u8) -> (same: bool)
    ensures
        same == (bytes@ == seq![b0, b1, b2, b3]),
{
    let same = bytes.len() == 4 && bytes[0] == b0 && bytes[1] == b1 && bytes[2] == b2 && bytes[3]
        == b3;
    proof {
        let expected = seq![b0, b1, b2, b3];
        if same {
            assert(bytes@ =~= expected);
        } else if bytes@.len() == 4 {
            assert(expected[0] == b0 && expected[1] == b1 && expected[2] == b2 && expected[3]
                == b3);
        } else {
            assert(expected.len() == 4);
        }
    }
    same
}

impl NetworkSerializable<NetworkType> for NetworkType {
    /// The bytes must be the magic of a network, no fewer and no more;
    /// `UnknownBytes` else.
    open spec fn decodes_to(
        bytes: Seq<u8>,
        result: Result<NetworkType, NetworkSerializationError>,
    ) -> bool {
        result == match network_of_magic(bytes) {
            Some(network_type) => Ok::<NetworkType, NetworkSerializationError>(network_type),
            None => Err(NetworkSerializationError::UnknownBytes),
        }
    }

    /// A network is written as its magic, which never fails.
    open spec fn encoding(&self) -> Result<Seq<u8>, NetworkSerializationError> {
        Ok(magic(*self))
    }

    fn from_network_bytes(bytes: &[u8]) -> (result: Result<
        NetworkType,
        NetworkSerializationError,
    >) {
        if is_magic(bytes, 0xC0, 0xC0, 0xC0, 0xC0) {
            Ok(NetworkType::Main)
        } else if is_magic(bytes, 0xFC, 0xC1, 0xB7, 0xDC) {
            Ok(NetworkType::Test)
        } else if is_magic(bytes, 0xFA, 0xBF, 0xB5, 0xDA) {
            Ok(NetworkType::RegressionTest)
        } else {
            Err(NetworkSerializationError::UnknownBytes)
        }
    }

    fn to_network_bytes(&self) -> (result: Result<Vec<u8>, NetworkSerializationError>) {
        let bytes: Vec<u8> = match self {
            NetworkType::Main => vec![0xC0, 0xC0, 0xC0, 0xC0],
            NetworkType::Test => vec![0xFC, 0xC1, 0xB7, 0xDC],
            NetworkType::RegressionTest => vec![0xFA, 0xBF, 0xB5, 0xDA],
        };
        assert(bytes@ =~= magic(*self));
        Ok(bytes)
    }
}

} // verus!
