//! The error types of the codec and of the handshake, and the rules by which
//! an error of a lower layer becomes one of the layer above.

use vstd::prelude::*;
use vstd::std_specs::convert::FromSpecImpl;
use vstd::string::StringExecFns;

verus! {

/// `std::io::Error`, carried by [`NodeConnectionAgentError::IoError`]. The
/// library never looks inside one.
#[verifier::external_type_specification]
#[verifier::external_body]
pub struct ExIoError(std::io::Error);

/// `std::time::SystemTimeError`, carried by
/// [`NodeConnectionAgentError::FailedCreatingUnixTimestamp`]. The library
/// never looks inside one.
#[verifier::external_type_specification]
#[verifier::external_body]
pub struct ExSystemTimeError(std::time::SystemTimeError);

/// Why a string cannot be written as a compact string.
#[derive(Clone, Copy, Debug, PartialEq, Eq)]
pub enum CalculateSizeOfSerializedStringAndLengthBytesError {
    /// The length has no 8-byte size class left to be written in.
    StringTooLong,
}

/// Why a header cannot be built or parsed.
#[derive(Clone, Copy, Debug, PartialEq, Eq)]
pub enum HeaderBuildError {
    /// The command field holds NUL bytes only.
    CommandIsEmpty,
    /// The command takes more than the 12 bytes of its field.
    CommandTooLong,
    /// The payload length field is not a 4-byte little-endian number.
    MessageSizeParseFailure,
    /// The payload's length, which is given, does not fit in 32 bits.
    MessageTooLong(usize),
    /// Fewer than 24 bytes were given.
    TooShort,
    /// The first four bytes are the magic of no known network.
    UnknownNetworkType,
}

/// Why bytes cannot be decoded, or a value encoded.
#[derive(Clone, Copy, Debug, PartialEq, Eq)]
pub enum NetworkSerializationError {
    /// The bytes end before the value does.
    BufferTooShort,
    /// The bytes do not spell a value of the type asked for.
    UnknownBytes,
    /// The header of the message is at fault.
    HeaderParseError(HeaderBuildError),
    /// A string cannot be written or read.
    StringParseError,
}

/// A number that the caller gave cannot be read as one: an IP literal that is
/// no dotted quad, or a compact string whose bytes end too early.
#[derive(Clone, Copy, Debug, PartialEq, Eq)]
pub struct IntegerParsingFailure;

/// Why a handshake failed.
#[derive(Debug)]
pub enum NodeConnectionAgentError {
    /// The clock is set before the Unix epoch.
    FailedCreatingUnixTimestamp(std::time::SystemTimeError),
    /// A header could not be built or parsed.
    HeaderBuildFailure(HeaderBuildError),
    /// The stream handed over fewer or more bytes than were asked for.
    IncorrectNumberOfBytesReceived,
    /// The stream took fewer or more bytes than the message has.
    IncorrectNumberOfBytesSent,
    /// The peer's acknowledgement is not the expected `verack` message.
    IncorrectResponse,
    /// The target's IP literal is no dotted quad.
    IntegerParsingFailure,
    /// The stream reported an error.
    IoError(std::io::Error),
    /// A message could not be encoded or decoded.
    NetworkSerializationFailure(NetworkSerializationError),
    /// The peer sent a message with another command than the expected one.
    /// The first string is the expected command, the second the one received.
    UnexpectedCommand(String, String),
}

/// A handshake's failure as a mathematical value: the strings of
/// `UnexpectedCommand` are taken by their characters.
pub enum NodeConnectionAgentErrorView {
    FailedCreatingUnixTimestamp(std::time::SystemTimeError),
    HeaderBuildFailure(HeaderBuildError),
    IncorrectNumberOfBytesReceived,
    IncorrectNumberOfBytesSent,
    IncorrectResponse,
    IntegerParsingFailure,
    IoError(std::io::Error),
    NetworkSerializationFailure(NetworkSerializationError),
    UnexpectedCommand(Seq<char>, Seq<char>),
}

impl View for NodeConnectionAgentError {
    type V = NodeConnectionAgentErrorView;

    open spec fn view(&self) -> NodeConnectionAgentErrorView {
        match *self {
            NodeConnectionAgentError::FailedCreatingUnixTimestamp(e) => {
                NodeConnectionAgentErrorView::FailedCreatingUnixTimestamp(e)
            },
            NodeConnectionAgentError::HeaderBuildFailure(e) => {
                NodeConnectionAgentErrorView::HeaderBuildFailure(e)
            },
            NodeConnectionAgentError::IncorrectNumberOfBytesReceived => {
                NodeConnectionAgentErrorView::IncorrectNumberOfBytesReceived
            },
            NodeConnectionAgentError::IncorrectNumberOfBytesSent => {
                NodeConnectionAgentErrorView::IncorrectNumberOfBytesSent
            },
            NodeConnectionAgentError::IncorrectResponse => {
                NodeConnectionAgentErrorView::IncorrectResponse
            },
            NodeConnectionAgentError::IntegerParsingFailure => {
                NodeConnectionAgentErrorView::IntegerParsingFailure
            },
            NodeConnectionAgentError::IoError(e) => NodeConnectionAgentErrorView::IoError(e),
            NodeConnectionAgentError::NetworkSerializationFailure(e) => {
                NodeConnectionAgentErrorView::NetworkSerializationFailure(e)
            },
            NodeConnectionAgentError::UnexpectedCommand(expected, actual) => {
                NodeConnectionAgentErrorView::UnexpectedCommand(expected@, actual@)
            },
        }
    }
}

impl From<CalculateSizeOfSerializedStringAndLengthBytesError> for NetworkSerializationError {
    fn from(value: CalculateSizeOfSerializedStringAndLengthBytesError) -> (error: Self) {
        match value {
            CalculateSizeOfSerializedStringAndLengthBytesError::StringTooLong => {
                NetworkSerializationError::StringParseError
            },
        }
    }
}

impl FromSpecImpl<CalculateSizeOfSerializedStringAndLengthBytesError> for NetworkSerializationError {
    open spec fn obeys_from_spec() -> bool {
        true
    }

    open spec fn from_spec(value: CalculateSizeOfSerializedStringAndLengthBytesError) -> Self {
        NetworkSerializationError::StringParseError
    }
}

impl From<HeaderBuildError> for NetworkSerializationError {
    fn from(value: HeaderBuildError) -> (error: Self) {
        NetworkSerializationError::HeaderParseError(value)
    }
}

impl FromSpecImpl<HeaderBuildError> for NetworkSerializationError {
    open spec fn obeys_from_spec() -> bool {
        true
    }

    open spec fn from_spec(value: HeaderBuildError) -> Self {
        NetworkSerializationError::HeaderParseError(value)
    }
}

impl From<NetworkSerializationError> for HeaderBuildError {
    fn from(value: NetworkSerializationError) -> (error: Self) {
        match value {
            NetworkSerializationError::BufferTooShort => HeaderBuildError::TooShort,
            NetworkSerializationError::UnknownBytes => HeaderBuildError::MessageSizeParseFailure,
            NetworkSerializationError::HeaderParseError(e) => e,
            NetworkSerializationError::StringParseError => HeaderBuildError::CommandTooLong,
        }
    }
}

impl FromSpecImpl<NetworkSerializationError> for HeaderBuildError {
    open spec fn obeys_from_spec() -> bool {
        true
    }

    open spec fn from_spec(value: NetworkSerializationError) -> Self {
        match value {
            NetworkSerializationError::BufferTooShort => HeaderBuildError::TooShort,
            NetworkSerializationError::UnknownBytes => HeaderBuildError::MessageSizeParseFailure,
            NetworkSerializationError::HeaderParseError(e) => e,
            NetworkSerializationError::StringParseError => HeaderBuildError::CommandTooLong,
        }
    }
}

impl From<IntegerParsingFailure> for NetworkSerializationError {
    fn from(value: IntegerParsingFailure) -> (error: Self) {
        NetworkSerializationError::StringParseError
    }
}

impl FromSpecImpl<IntegerParsingFailure> for NetworkSerializationError {
    open spec fn obeys_from_spec() -> bool {
        true
    }

    open spec fn from_spec(value: IntegerParsingFailure) -> Self {
        NetworkSerializationError::StringParseError
    }
}

impl From<std::time::SystemTimeError> for NodeConnectionAgentError {
    fn from(value: std::time::SystemTimeError) -> (error: Self) {
        NodeConnectionAgentError::FailedCreatingUnixTimestamp(value)
    }
}

impl FromSpecImpl<std::time::SystemTimeError> for NodeConnectionAgentError {
    open spec fn obeys_from_spec() -> bool {
        true
    }

    open spec fn from_spec(value: std::time::SystemTimeError) -> Self {
        NodeConnectionAgentError::FailedCreatingUnixTimestamp(value)
    }
}

impl From<IntegerParsingFailure> for NodeConnectionAgentError {
    fn from(value: IntegerParsingFailure) -> (error: Self) {
        NodeConnectionAgentError::IntegerParsingFailure
    }
}

impl FromSpecImpl<IntegerParsingFailure> for NodeConnectionAgentError {
    open spec fn obeys_from_spec() -> bool {
        true
    }

    open spec fn from_spec(value: IntegerParsingFailure) -> Self {
        NodeConnectionAgentError::IntegerParsingFailure
    }
}

impl From<NetworkSerializationError> for NodeConnectionAgentError {
    fn from(value: NetworkSerializationError) -> (error: Self) {
        NodeConnectionAgentError::NetworkSerializationFailure(value)
    }
}

impl FromSpecImpl<NetworkSerializationError> for NodeConnectionAgentError {
    open spec fn obeys_from_spec() -> bool {
        true
    }

    open spec fn from_spec(value: NetworkSerializationError) -> Self {
        NodeConnectionAgentError::NetworkSerializationFailure(value)
    }
}

impl From<std::io::Error> for NodeConnectionAgentError {
    fn from(value: std::io::Error) -> (error: Self) {
        NodeConnectionAgentError::IoError(value)
    }
}

impl FromSpecImpl<std::io::Error> for NodeConnectionAgentError {
    open spec fn obeys_from_spec() -> bool {
        true
    }

    open spec fn from_spec(value: std::io::Error) -> Self {
        NodeConnectionAgentError::IoError(value)
    }
}

impl From<HeaderBuildError> for NodeConnectionAgentError {
    fn from(value: HeaderBuildError) -> (error: Self) {
        NodeConnectionAgentError::HeaderBuildFailure(value)
    }
}

impl FromSpecImpl<HeaderBuildError> for NodeConnectionAgentError {
    open spec fn obeys_from_spec() -> bool {
        true
    }

    open spec fn from_spec(value: HeaderBuildError) -> Self {
        NodeConnectionAgentError::HeaderBuildFailure(value)
    }
}

// ---------------------------------------------------------------------------
// Messages
// ---------------------------------------------------------------------------

/// The character of a decimal digit.
pub open spec fn digit_char(digit: nat) -> char {
    ((48 + digit) as u8) as char
}

/// A number in decimal digits, without zeros in front.
pub open spec fn decimal_text(n: nat) -> Seq<char>
    decreases n,
{
    if n < 10 {
        seq![digit_char(n)]
    } else {
        decimal_text(n / 10).push(digit_char(n % 10))
    }
}

/// The characters of digits that were collected least significant first.
pub open spec fn digits_in_order(digits: Seq<u8>) -> Seq<char> {
    Seq::new(digits.len(), |i: int| digits[digits.len() - 1 - i] as char)
}

/// The number in decimal digits.
pub fn decimal_string(n: usize) -> (text: String)
    ensures
        text@ == decimal_text(n as nat),
{
    let mut digits: Vec<u8> = Vec::new();
    digits.push((n % 10) as u8 + 48);
    let mut rest: usize = n / 10;
    assert(digits_in_order(digits@) =~= seq![digit_char((n % 10) as nat)]);
    while rest > 0
        invariant
            digits@.len() > 0,
            decimal_text(n as nat) == if rest > 0 {
                decimal_text(rest as nat) + digits_in_order(digits@)
            } else {
                digits_in_order(digits@)
            },
        decreases rest,
    {
        let ghost before = digits@;
        digits.push((rest % 10) as u8 + 48);
        assert(digits_in_order(digits@) =~= seq![digit_char((rest % 10) as nat)]
            + digits_in_order(before));
        assert(decimal_text(rest as nat) + digits_in_order(before) =~= if rest >= 10 {
            decimal_text((rest / 10) as nat) + digits_in_order(digits@)
        } else {
            digits_in_order(digits@)
        });
        rest = rest / 10;
    }
    let mut text = String::new();
    let mut i: usize = digits.len();
    while i > 0
        invariant
            i <= digits@.len(),
            text@ == digits_in_order(digits@).subrange(0, digits@.len() - i),
        decreases i,
    {
        i = i - 1;
        text.push(digits[i] as char);
        assert(text@ =~= digits_in_order(digits@).subrange(0, digits@.len() - i));
    }
    assert(text@ =~= digits_in_order(digits@));
    text
}

/// What `std` says of an I/O error, through its `Display`. The text depends
/// on the platform, so nothing is claimed of it.
#[verifier::external_body]
fn io_error_text(error: &std::io::Error) -> (text: String) {
    format!("{}", error)
}

/// What `std` says of a clock that is set before the epoch, through the
/// `Display` of `SystemTimeError`. Nothing is claimed of the text.
#[verifier::external_body]
fn system_time_error_text(error: &std::time::SystemTimeError) -> (text: String) {
    format!("{}", error)
}

/// The message of a `HeaderBuildError`.
pub open spec fn header_build_error_text(error: HeaderBuildError) -> Seq<char> {
    match error {
        HeaderBuildError::CommandIsEmpty => "Command is empty"@,
        HeaderBuildError::CommandTooLong => "Command too long"@,
        HeaderBuildError::MessageTooLong(value) => "Value too big for u32: "@ + decimal_text(
            value as nat,
        ),
        HeaderBuildError::UnknownNetworkType => "Unknown network type"@,
        HeaderBuildError::MessageSizeParseFailure => "Message size parse failure"@,
        HeaderBuildError::TooShort => "Passed header is too short (24 bytes are required)"@,
    }
}

/// The message of a `NetworkSerializationError`.
pub open spec fn network_serialization_error_text(error: NetworkSerializationError) -> Seq<char> {
    match error {
        NetworkSerializationError::BufferTooShort => "Buffer too short"@,
        NetworkSerializationError::UnknownBytes => "Unknown bytes"@,
        NetworkSerializationError::HeaderParseError(e) => "Header parse error: "@
            + header_build_error_text(e),
        NetworkSerializationError::StringParseError => "String parse error"@,
    }
}

/// The message of a `NodeConnectionAgentError`, as far as it is the
/// library's: for an error of the clock or of the stream, the words that
/// stand before what `std` says of it.
pub open spec fn node_connection_agent_error_text(error: NodeConnectionAgentErrorView) -> Seq<
    char,
> {
    match error {
        NodeConnectionAgentErrorView::FailedCreatingUnixTimestamp(_) => {
            "Failed creating unix timestamp: "@
        },
        NodeConnectionAgentErrorView::HeaderBuildFailure(e) => "Header build error: "@
            + header_build_error_text(e),
        NodeConnectionAgentErrorView::IncorrectNumberOfBytesReceived => {
            "Incorrect number of bytes received"@
        },
        NodeConnectionAgentErrorView::IncorrectNumberOfBytesSent => {
            "Incorrect number of bytes sent"@
        },
        NodeConnectionAgentErrorView::IncorrectResponse => "Incorrect response"@,
        NodeConnectionAgentErrorView::IntegerParsingFailure => "Integer parsing failure"@,
        NodeConnectionAgentErrorView::IoError(_) => "I/O error: "@,
        NodeConnectionAgentErrorView::NetworkSerializationFailure(e) => {
            "Network serialization failure: "@ + network_serialization_error_text(e)
        },
        NodeConnectionAgentErrorView::UnexpectedCommand(expected, actual) => {
            "Unexpected command, expected: '"@ + expected + "', actual: '"@ + actual
        },
    }
}

impl CalculateSizeOfSerializedStringAndLengthBytesError {
    /// The error in words.
    pub fn message(&self) -> (text: String)
        ensures
            text@ == "String too long to be serialized"@,
    {
        "String too long to be serialized".to_owned()
    }
}

impl IntegerParsingFailure {
    /// The error in words.
    pub fn message(&self) -> (text: String)
        ensures
            text@ == "Integer parsing failure"@,
    {
        "Integer parsing failure".to_owned()
    }
}

impl HeaderBuildError {
    /// The error in words.
    pub fn message(&self) -> (text: String)
        ensures
            text@ == header_build_error_text(*self),
    {
        match self {
            HeaderBuildError::CommandIsEmpty => "Command is empty".to_owned(),
            HeaderBuildError::CommandTooLong => "Command too long".to_owned(),
            HeaderBuildError::MessageTooLong(value) => {
                let mut text = "Value too big for u32: ".to_owned();
                text.append(decimal_string(*value).as_str());
                text
            },
            HeaderBuildError::UnknownNetworkType => "Unknown network type".to_owned(),
            HeaderBuildError::MessageSizeParseFailure => "Message size parse failure".to_owned(),
            HeaderBuildError::TooShort => {
                "Passed header is too short (24 bytes are required)".to_owned()
            },
        }
    }
}

impl NetworkSerializationError {
    /// The error in words.
    pub fn message(&self) -> (text: String)
        ensures
            text@ == network_serialization_error_text(*self),
    {
        match self {
            NetworkSerializationError::BufferTooShort => "Buffer too short".to_owned(),
            NetworkSerializationError::UnknownBytes => "Unknown bytes".to_owned(),
            NetworkSerializationError::HeaderParseError(e) => {
                let mut text = "Header parse error: ".to_owned();
                text.append(e.message().as_str());
                text
            },
            NetworkSerializationError::StringParseError => "String parse error".to_owned(),
        }
    }
}

impl NodeConnectionAgentError {
    /// The error in words. For an error of the clock or of the stream, the
    /// words of `std` follow those of the library.
    pub fn message(&self) -> (text: String)
        ensures
            node_connection_agent_error_text(self@).is_prefix_of(text@),
            !(self is FailedCreatingUnixTimestamp) && !(self is IoError) ==> text@
                == node_connection_agent_error_text(self@),
    {
        match self {
            NodeConnectionAgentError::FailedCreatingUnixTimestamp(e) => {
                let mut text = "Failed creating unix timestamp: ".to_owned();
                text.append(system_time_error_text(e).as_str());
                text
            },
            NodeConnectionAgentError::HeaderBuildFailure(e) => {
                let mut text = "Header build error: ".to_owned();
                text.append(e.message().as_str());
                text
            },
            NodeConnectionAgentError::IncorrectNumberOfBytesReceived => {
                "Incorrect number of bytes received".to_owned()
            },
            NodeConnectionAgentError::IncorrectNumberOfBytesSent => {
                "Incorrect number of bytes sent".to_owned()
            },
            NodeConnectionAgentError::IncorrectResponse => "Incorrect response".to_owned(),
            NodeConnectionAgentError::IntegerParsingFailure => {
                "Integer parsing failure".to_owned()
            },
            NodeConnectionAgentError::IoError(e) => {
                let mut text = "I/O error: ".to_owned();
                text.append(io_error_text(e).as_str());
                text
            },
            NodeConnectionAgentError::NetworkSerializationFailure(e) => {
                let mut text = "Network serialization failure: ".to_owned();
                text.append(e.message().as_str());
                text
            },
            NodeConnectionAgentError::UnexpectedCommand(expected, actual) => {
                let mut text = "Unexpected command, expected: '".to_owned();
                text.append(expected.as_str());
                text.append("', actual: '");
                text.append(actual.as_str());
                text
            },
        }
    }
}

} // verus!
