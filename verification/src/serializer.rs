//! The primitives of the wire format: fixed-width integers, the text of a
//! NUL-padded field, and the compact string, a byte string behind a length
//! prefix of one, three, five or nine bytes.

use crate::errors::IntegerParsingFailure;
use crate::messages::version::IpAddress;
use vstd::prelude::*;
use vstd::utf8::{encode_utf8, is_ascii_chars};

pub use crate::errors::CalculateSizeOfSerializedStringAndLengthBytesError;

verus! {

// ---------------------------------------------------------------------------
// Fixed-width integers
// ---------------------------------------------------------------------------

/// The number that `s` spells when read least significant byte first.
pub open spec fn le_value(s: Seq<u8>) -> nat
    decreases s.len(),
{
    if s.len() == 0 {
        0
    } else {
        s[0] as nat + 256 * le_value(s.drop_first())
    }
}

/// The `width` bytes that spell `x`, least significant byte first. Where `x`
/// needs more than `width` bytes, its higher bytes are left out.
pub open spec fn le_bytes(x: nat, width: nat) -> Seq<u8>
    decreases width,
{
    if width == 0 {
        Seq::empty()
    } else {
        seq![(x % 256) as u8] + le_bytes(x / 256, (width - 1) as nat)
    }
}

/// The number of values that `width` bytes can spell: 256 to the power of
/// `width`.
pub open spec fn byte_range(width: nat) -> nat
    decreases width,
{
    if width == 0 {
        1
    } else {
        256 * byte_range((width - 1) as nat)
    }
}

/// The number that two bytes spell when read most significant byte first.
pub open spec fn be_u16_value(s: Seq<u8>) -> nat {
    256 * (s[0] as nat) + s[1] as nat
}

/// The two bytes that spell `x`, most significant byte first.
pub open spec fn be_u16_bytes(x: u16) -> Seq<u8> {
    seq![(x / 256) as u8, (x % 256) as u8]
}

/// `le_bytes` gives as many bytes as it is asked for.
pub proof fn lemma_le_bytes_len(x: nat, width: nat)
    ensures
        le_bytes(x, width).len() == width,
    decreases width,
{
    if width > 0 {
        lemma_le_bytes_len(x / 256, (width - 1) as nat);
    }
}

/// What `s` spells is below the number of values its length can spell.
pub proof fn lemma_le_value_bound(s: Seq<u8>)
    ensures
        le_value(s) < byte_range(s.len()),
    decreases s.len(),
{
    if s.len() > 0 {
        lemma_le_value_bound(s.drop_first());
    }
}

/// Reading back the bytes of a number that fits in them gives the number.
pub proof fn lemma_le_value_of_bytes(x: nat, width: nat)
    requires
        x < byte_range(width),
    ensures
        le_value(le_bytes(x, width)) == x,
    decreases width,
{
    if width > 0 {
        let rest = le_bytes(x / 256, (width - 1) as nat);
        lemma_le_value_of_bytes(x / 256, (width - 1) as nat);
        assert(le_bytes(x, width).drop_first() =~= rest);
    }
}

/// Writing the number that bytes spell, in as many bytes, gives the bytes.
pub proof fn lemma_le_bytes_of_value(s: Seq<u8>)
    ensures
        le_bytes(le_value(s), s.len()) == s,
    decreases s.len(),
{
    if s.len() > 0 {
        lemma_le_bytes_of_value(s.drop_first());
        assert(le_bytes(le_value(s), s.len()) =~= s);
    }
}

/// The two big-endian bytes of a number spell it, and the number that two
/// bytes spell is written as those bytes.
pub proof fn lemma_be_u16_round_trip(x: u16, s: Seq<u8>)
    ensures
        be_u16_bytes(x).len() == 2,
        be_u16_value(be_u16_bytes(x)) == x,
        s.len() == 2 ==> be_u16_value(s) <= u16::MAX && be_u16_bytes(be_u16_value(s) as u16) == s,
{
    if s.len() == 2 {
        assert(be_u16_bytes(be_u16_value(s) as u16) =~= s);
    }
}

/// The sixteen bytes of an address, where the slice holds exactly sixteen.
pub fn slice_to_ip_address(slice: &[u8]) -> (address: Option<IpAddress>)
    ensures
        match address {
            Some(a) => a@ == slice@,
            None => slice@.len() != 16,
        },
{
    if slice.len() != 16 {
        return None;
    }
    let a: IpAddress = [
        slice[0],
        slice[1],
        slice[2],
        slice[3],
        slice[4],
        slice[5],
        slice[6],
        slice[7],
        slice[8],
        slice[9],
        slice[10],
        slice[11],
        slice[12],
        slice[13],
        slice[14],
        slice[15],
    ];
    assert(a@ =~= slice@);
    Some(a)
}

/// The number that the slice spells most significant byte first, where it
/// holds exactly two bytes.
pub fn be_slice_to_u16(slice: &[u8]) -> (number: Option<u16>)
    ensures
        match number {
            Some(x) => slice@.len() == 2 && x == be_u16_value(slice@),
            None => slice@.len() != 2,
        },
{
    if slice.len() != 2 {
        return None;
    }
    let hi: u16 = slice[0] as u16;
    let lo: u16 = slice[1] as u16;
    Some(256 * hi + lo)
}

/// The number that the slice spells least significant byte first, where it
/// holds exactly two bytes.
pub fn slice_to_u16(slice: &[u8]) -> (number: Option<u16>)
    ensures
        match number {
            Some(x) => slice@.len() == 2 && x == le_value(slice@),
            None => slice@.len() != 2,
        },
{
    if slice.len() != 2 {
        return None;
    }
    proof {
        reveal_with_fuel(le_value, 3);
    }
    let b0: u16 = slice[0] as u16;
    let b1: u16 = slice[1] as u16;
    Some(b0 + 256 * b1)
}

/// The number that the slice spells least significant byte first, where it
/// holds exactly four bytes.
pub fn slice_to_u32(slice: &[u8]) -> (number: Option<u32>)
    ensures
        match number {
            Some(x) => slice@.len() == 4 && x == le_value(slice@),
            None => slice@.len() != 4,
        },
{
    if slice.len() != 4 {
        return None;
    }
    proof {
        reveal_with_fuel(le_value, 5);
    }
    let b0: u32 = slice[0] as u32;
    let b1: u32 = slice[1] as u32;
    let b2: u32 = slice[2] as u32;
    let b3: u32 = slice[3] as u32;
    Some(b0 + 256 * (b1 + 256 * (b2 + 256 * b3)))
}

/// The number that the slice spells least significant byte first, where it
/// holds exactly eight bytes.
pub fn slice_to_u64(slice: &[u8]) -> (number: Option<u64>)
    ensures
        match number {
            Some(x) => slice@.len() == 8 && x == le_value(slice@),
            None => slice@.len() != 8,
        },
{
    if slice.len() != 8 {
        return None;
    }
    proof {
        reveal_with_fuel(le_value, 9);
    }
    let b0: u64 = slice[0] as u64;
    let b1: u64 = slice[1] as u64;
    let b2: u64 = slice[2] as u64;
    let b3: u64 = slice[3] as u64;
    let b4: u64 = slice[4] as u64;
    let b5: u64 = slice[5] as u64;
    let b6: u64 = slice[6] as u64;
    let b7: u64 = slice[7] as u64;
    Some(
        b0 + 256 * (b1 + 256 * (b2 + 256 * (b3 + 256 * (b4 + 256 * (b5 + 256 * (b6 + 256
            * b7)))))),
    )
}

/// Appends the `width` little-endian bytes of `x` to the buffer.
pub fn extend_with_le_bytes(buffer: &mut Vec<u8>, x: u64, width: usize)
    ensures
        final(buffer)@ == old(buffer)@ + le_bytes(x as nat, width as nat),
{
    let ghost before = buffer@;
    let mut rest: u64 = x;
    let mut i: usize = 0;
    while i < width
        invariant
            i <= width,
            buffer@ + le_bytes(rest as nat, (width - i) as nat) == before + le_bytes(
                x as nat,
                width as nat,
            ),
        decreases width - i,
    {
        buffer.push((rest % 256) as u8);
        rest = rest / 256;
        i = i + 1;
    }
}

/// Appends the two big-endian bytes of `x` to the buffer.
pub fn extend_with_be_u16(buffer: &mut Vec<u8>, x: u16)
    ensures
        final(buffer)@ == old(buffer)@ + be_u16_bytes(x),
{
    buffer.push((x / 256) as u8);
    buffer.push((x % 256) as u8);
}

/// Appends the bytes of the slice to the buffer.
pub fn extend_with_bytes(buffer: &mut Vec<u8>, bytes: &[u8])
    ensures
        final(buffer)@ == old(buffer)@ + bytes@,
{
    let ghost before = buffer@;
    buffer.extend_from_slice(bytes);
    assert(buffer@ =~= before + bytes@);
}

// ---------------------------------------------------------------------------
// Text
// ---------------------------------------------------------------------------

/// The text of bytes: each byte stands for the character with its number.
pub open spec fn bytes_as_chars(bytes: Seq<u8>) -> Seq<char> {
    bytes.map_values(|b: u8| b as char)
}

/// What is left of a NUL-padded field when the NUL bytes at its end are
/// taken off.
pub open spec fn strip_trailing_nuls(s: Seq<u8>) -> Seq<u8>
    decreases s.len(),
{
    if s.len() > 0 && s.last() == 0 {
        strip_trailing_nuls(s.drop_last())
    } else {
        s
    }
}

/// `String::push`: the string afterwards is the string before with the
/// character at its end.
pub assume_specification[ String::push ](text: &mut String, c: char)
    ensures
        final(text)@ == old(text)@.push(c),
;

/// The text of the bytes, each byte taken as the character with its number.
pub fn bytes_to_string(bytes: &[u8]) -> (text: String)
    ensures
        text@ == bytes_as_chars(bytes@),
{
    let mut text = String::new();
    let mut i: usize = 0;
    while i < bytes.len()
        invariant
            i <= bytes@.len(),
            text@ == bytes_as_chars(bytes@.subrange(0, i as int)),
        decreases bytes@.len() - i,
    {
        text.push(bytes[i] as char);
        i = i + 1;
        assert(bytes@.subrange(0, i as int) == bytes@.subrange(0, i - 1).push(bytes@[i - 1]));
    }
    assert(bytes@.subrange(0, i as int) == bytes@);
    text
}

/// The text of a NUL-padded field: the bytes up to the NUL bytes at the end,
/// each byte taken as the character with its number.
pub fn slice_to_string(slice: &[u8]) -> (text: String)
    ensures
        text@ == bytes_as_chars(strip_trailing_nuls(slice@)),
{
    let mut end: usize = slice.len();
    assert(slice@.subrange(0, end as int) == slice@);
    while end > 0 && slice[end - 1] == 0
        invariant
            end <= slice@.len(),
            strip_trailing_nuls(slice@) == strip_trailing_nuls(slice@.subrange(0, end as int)),
        decreases end,
    {
        assert(slice@.subrange(0, end as int).drop_last() == slice@.subrange(0, end - 1));
        end = end - 1;
    }
    bytes_to_string(&slice[0..end])
}

/// Text made of ASCII characters is written in UTF-8 as one byte for each
/// character, and those bytes read back as the text.
pub proof fn lemma_ascii_text_round_trip(text: Seq<char>)
    requires
        is_ascii_chars(text),
    ensures
        encode_utf8(text).len() == text.len(),
        bytes_as_chars(encode_utf8(text)) == text,
        forall|i: int| 0 <= i < text.len() ==> encode_utf8(text)[i] == text[i] as u8,
{
    vstd::utf8::is_ascii_chars_encode_utf8(text);
    assert(bytes_as_chars(encode_utf8(text)) =~= text);
}

// ---------------------------------------------------------------------------
// Compact strings
// ---------------------------------------------------------------------------

/// Whether a string of `length` bytes can be written as a compact string.
pub open spec fn fits_compact_size(length: nat) -> bool {
    length < u64::MAX
}

/// The length prefix of a compact string of `length` bytes: the length itself
/// below 253; else a marker, 253, 254 or 255, and the length in two, four or
/// eight little-endian bytes, the fewest that hold it.
pub open spec fn compact_size_prefix(length: nat) -> Seq<u8> {
    if length < 253 {
        seq![length as u8]
    } else if length < 0x1_0000 {
        seq![253u8] + le_bytes(length, 2)
    } else if length < 0x1_0000_0000 {
        seq![254u8] + le_bytes(length, 4)
    } else {
        seq![255u8] + le_bytes(length, 8)
    }
}

/// The compact string of `content`: its length prefix, then the bytes.
pub open spec fn compact_string_bytes(content: Seq<u8>) -> Seq<u8> {
    compact_size_prefix(content.len()) + content
}

/// The number of bytes of the length field that follows the first byte of a
/// compact string.
pub open spec fn size_class_width(marker: u8) -> nat {
    if marker < 253 {
        0
    } else if marker == 253 {
        2
    } else if marker == 254 {
        4
    } else {
        8
    }
}

/// A compact string as it was read.
pub struct CompactString {
    /// The number of bytes that the prefix and the content take together.
    pub bytes_read: nat,
    /// The bytes of the string.
    pub content: Seq<u8>,
}

/// The length that the prefix at the start of `s` spells, and the number of
/// bytes that the prefix takes, if `s` holds all of the prefix.
pub open spec fn parse_compact_size(s: Seq<u8>) -> Option<(nat, nat)> {
    if s.len() == 0 {
        None
    } else {
        let width = size_class_width(s[0]);
        if s.len() < 1 + width {
            None
        } else if s[0] < 253 {
            Some((s[0] as nat, 1))
        } else {
            Some((le_value(s.subrange(1, 1 + width as int)), 1 + width))
        }
    }
}

/// The compact string at the start of `s`, if `s` holds all of it. Bytes
/// behind it are not looked at, and a length in a wider class than it needs
/// is read as it stands.
pub open spec fn parse_compact_string(s: Seq<u8>) -> Option<CompactString> {
    match parse_compact_size(s) {
        None => None,
        Some((length, taken)) => if s.len() < taken + length {
            None
        } else {
            Some(
                CompactString {
                    bytes_read: taken + length,
                    content: s.subrange(taken as int, (taken + length) as int),
                },
            )
        },
    }
}

/// The number of bytes of the length prefix of a compact string of `length`
/// bytes: 1 below 253, 3 below 2^16, 5 below 2^32, and 9 from there on.
pub open spec fn compact_size_prefix_len(length: nat) -> nat {
    if length < 253 {
        1
    } else if length < 0x1_0000 {
        3
    } else if length < 0x1_0000_0000 {
        5
    } else {
        9
    }
}

/// The length prefix has the number of bytes of its size class, and a
/// compact string has those and the bytes of its content.
pub proof fn lemma_compact_string_len(content: Seq<u8>)
    ensures
        compact_size_prefix(content.len()).len() == compact_size_prefix_len(content.len()),
        compact_string_bytes(content).len() == content.len() + compact_size_prefix_len(
            content.len(),
        ),
{
    lemma_le_bytes_len(content.len(), 2);
    lemma_le_bytes_len(content.len(), 4);
    lemma_le_bytes_len(content.len(), 8);
}

/// The number of bytes of the compact string of a string of `length` bytes:
/// the length prefix and the content. `StringTooLong` where the length is
/// 2^64 - 1 or more, or the number does not fit in `usize`.
pub fn calculate_size_of_serialized_string_and_length_bytes(length: usize) -> (size: Result<
    usize,
    CalculateSizeOfSerializedStringAndLengthBytesError,
>)
    ensures
        size == if fits_compact_size(length as nat) && length + compact_size_prefix_len(
            length as nat,
        ) <= usize::MAX {
            Ok::<usize, CalculateSizeOfSerializedStringAndLengthBytesError>(
                (length + compact_size_prefix_len(length as nat)) as usize,
            )
        } else {
            Err(CalculateSizeOfSerializedStringAndLengthBytesError::StringTooLong)
        },
        size matches Ok(bytes) ==> bytes == length + compact_size_prefix(length as nat).len(),
{
    proof {
        lemma_le_bytes_len(length as nat, 2);
        lemma_le_bytes_len(length as nat, 4);
        lemma_le_bytes_len(length as nat, 8);
    }
    let prefix: usize = if length < 253 {
        1
    } else if length < 0x1_0000 {
        3
    } else if (length as u64) < 0x1_0000_0000 {
        5
    } else {
        9
    };
    match length.checked_add(prefix) {
        Some(size) => Ok(size),
        None => Err(CalculateSizeOfSerializedStringAndLengthBytesError::StringTooLong),
    }
}

/// What reading a compact string gives: the text and the number of bytes
/// that were taken, so that the caller finds what follows the string.
#[derive(Debug, PartialEq)]
pub struct SerializedStringResult {
    /// The number of bytes taken: the length prefix and the content.
    pub bytes_read: usize,
    /// The content, each byte taken as the character with its number.
    pub value: String,
}

/// A value that is written to the wire as a compact string.
pub trait SerializeString {
    /// The bytes of the value that follow the length prefix.
    spec fn wire_content(&self) -> Seq<u8>;

    /// Reads the compact string at the start of the slice. No byte of the
    /// content is dropped or changed. `IntegerParsingFailure` where the slice
    /// ends before the string does.
    fn from_dogecoin_bytes(slice: &[u8]) -> (result: Result<
        SerializedStringResult,
        IntegerParsingFailure,
    >)
        ensures
            match parse_compact_string(slice@) {
                Some(parsed) => result matches Ok(read) && read.bytes_read == parsed.bytes_read
                    && read.value@ == bytes_as_chars(parsed.content),
                None => result is Err,
            },
    ;

    /// Writes the value as a compact string. `StringTooLong` where the
    /// content has 2^64 - 1 bytes or more.
    fn to_dogecoin_bytes(&self) -> (result: Result<
        Vec<u8>,
        CalculateSizeOfSerializedStringAndLengthBytesError,
    >)
        ensures
            match result {
                Ok(bytes) => fits_compact_size(self.wire_content().len()) && bytes@
                    == compact_string_bytes(self.wire_content()),
                Err(e) => !fits_compact_size(self.wire_content().len()),
            },
    ;
}

/// Appends the length prefix of a compact string of `length` bytes.
pub fn write_compact_size(buffer: &mut Vec<u8>, length: u64)
    ensures
        final(buffer)@ == old(buffer)@ + compact_size_prefix(length as nat),
{
    let ghost before = buffer@;
    if length < 253 {
        buffer.push(length as u8);
    } else if length < 0x1_0000 {
        buffer.push(253);
        extend_with_le_bytes(buffer, length, 2);
    } else if length < 0x1_0000_0000 {
        buffer.push(254);
        extend_with_le_bytes(buffer, length, 4);
    } else {
        buffer.push(255);
        extend_with_le_bytes(buffer, length, 8);
    }
    assert(buffer@ =~= before + compact_size_prefix(length as nat));
}

/// Reads the length prefix at the start of the slice: the length it spells,
/// and the number of bytes it takes. `None` where the slice ends before the
/// prefix does.
pub fn read_compact_size(slice: &[u8]) -> (size: Option<(u64, usize)>)
    ensures
        match parse_compact_size(slice@) {
            Some((length, taken)) => size == Some((length as u64, taken as usize)) && length
                <= u64::MAX && taken <= 9,
            None => size is None,
        },
{
    if slice.len() == 0 {
        return None;
    }
    let first_byte = slice[0];
    if first_byte < 253 {
        Some((first_byte as u64, 1))
    } else if first_byte == 253 {
        if slice.len() < 3 {
            return None;
        }
        match slice_to_u16(&slice[1..3]) {
            Some(length) => Some((length as u64, 3)),
            None => None,
        }
    } else if first_byte == 254 {
        if slice.len() < 5 {
            return None;
        }
        match slice_to_u32(&slice[1..5]) {
            Some(length) => Some((length as u64, 5)),
            None => None,
        }
    } else {
        if slice.len() < 9 {
            return None;
        }
        match slice_to_u64(&slice[1..9]) {
            Some(length) => Some((length, 9)),
            None => None,
        }
    }
}

impl SerializeString for String {
    /// A string is written as the bytes of its UTF-8 form.
    open spec fn wire_content(&self) -> Seq<u8> {
        encode_utf8(self@)
    }

    fn from_dogecoin_bytes(slice: &[u8]) -> (result: Result<
        SerializedStringResult,
        IntegerParsingFailure,
    >) {
        let (length, offset) = match read_compact_size(slice) {
            Some(size) => size,
            None => { return Err(IntegerParsingFailure); },
        };
        if length > (slice.len() - offset) as u64 {
            return Err(IntegerParsingFailure);
        }
        let end: usize = offset + length as usize;
        Ok(
            SerializedStringResult {
                bytes_read: end,
                value: bytes_to_string(&slice[offset..end]),
            },
        )
    }

    fn to_dogecoin_bytes(&self) -> (result: Result<
        Vec<u8>,
        CalculateSizeOfSerializedStringAndLengthBytesError,
    >) {
        let content = self.as_str().as_bytes();
        let length: usize = content.len();
        if length as u64 == u64::MAX {
            return Err(CalculateSizeOfSerializedStringAndLengthBytesError::StringTooLong);
        }
        let mut buffer: Vec<u8> = match calculate_size_of_serialized_string_and_length_bytes(
            length,
        ) {
            Ok(size) => Vec::with_capacity(size),
            Err(_) => Vec::new(),
        };
        write_compact_size(&mut buffer, length as u64);
        extend_with_bytes(&mut buffer, content);
        Ok(buffer)
    }
}

/// A compact string reads back as it was written, whatever follows it: the
/// content is unchanged, and the bytes taken are those that were written.
pub proof fn lemma_compact_string_round_trip(content: Seq<u8>, rest: Seq<u8>)
    requires
        fits_compact_size(content.len()),
    ensures
        parse_compact_string(compact_string_bytes(content) + rest) == Some(
            CompactString { bytes_read: compact_string_bytes(content).len(), content },
        ),
{
    let length = content.len();
    let prefix = compact_size_prefix(length);
    let s = compact_string_bytes(content) + rest;
    let width = size_class_width(s[0]);
    lemma_le_bytes_len(length, 2);
    lemma_le_bytes_len(length, 4);
    lemma_le_bytes_len(length, 8);
    assert(byte_range(2) == 0x1_0000 && byte_range(4) == 0x1_0000_0000 && byte_range(8)
        == 0x1_0000_0000_0000_0000) by {
        reveal_with_fuel(byte_range, 9);
    }
    assert(prefix.len() == 1 + width);
    if length >= 253 {
        assert(s.subrange(1, 1 + width as int) =~= le_bytes(length, width));
        lemma_le_value_of_bytes(length, width);
    }
    assert(s.subrange(1 + width as int, 1 + width as int + length as int) =~= content);
}

} // verus!
