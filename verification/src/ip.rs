//! IPv4 literals: four decimal octets with a dot between each two.

use vstd::prelude::*;
use vstd::utf8::encode_utf8;

verus! {

/// The byte of the dot that parts the octets.
pub const DOT: u8 = 46;

/// The byte of the plus sign that may stand before an octet's digits.
pub const PLUS: u8 = 43;

/// The byte of the digit zero.
pub const ZERO: u8 = 48;

/// Whether the byte is a decimal digit.
pub open spec fn is_digit(b: u8) -> bool {
    48 <= b <= 57
}

/// Whether every byte is a decimal digit.
pub open spec fn all_digits(s: Seq<u8>) -> bool {
    forall|i: int| 0 <= i < s.len() ==> is_digit(#[trigger] s[i])
}

/// The number that decimal digits spell.
pub open spec fn decimal_value(digits: Seq<u8>) -> nat
    decreases digits.len(),
{
    if digits.len() == 0 {
        0
    } else {
        10 * decimal_value(digits.drop_last()) + (digits.last() - 48) as nat
    }
}

/// The digits of a field: the field itself, or what follows its plus sign.
pub open spec fn digits_of(field: Seq<u8>) -> Seq<u8> {
    if field.len() > 0 && field[0] == 43 {
        field.drop_first()
    } else {
        field
    }
}

/// The octet that a field spells: one or more decimal digits, with or
/// without zeros in front and a plus sign before them, that spell a number
/// up to 255. Any other field spells none.
pub open spec fn octet(field: Seq<u8>) -> Option<u8> {
    let digits = digits_of(field);
    if digits.len() > 0 && all_digits(digits) && decimal_value(digits) <= 255 {
        Some(decimal_value(digits) as u8)
    } else {
        None
    }
}

/// The fields that the dots part the bytes into. A dot ends a field and
/// opens the next, so there is one field more than there are dots, and a
/// field between two dots, or at either end, may be empty.
pub open spec fn fields(s: Seq<u8>) -> Seq<Seq<u8>>
    decreases s.len(),
{
    if s.len() == 0 {
        seq![Seq::<u8>::empty()]
    } else {
        let before = fields(s.drop_last());
        if s.last() == 46 {
            before.push(Seq::<u8>::empty())
        } else {
            before.update(before.len() - 1, before.last().push(s.last()))
        }
    }
}

/// The number of dots among the bytes.
pub open spec fn dots(s: Seq<u8>) -> nat
    decreases s.len(),
{
    if s.len() == 0 {
        0
    } else if s.last() == 46 {
        dots(s.drop_last()) + 1
    } else {
        dots(s.drop_last())
    }
}

/// There is one field more than there are dots, and no field holds a dot.
pub proof fn lemma_fields_and_dots(s: Seq<u8>)
    ensures
        fields(s).len() == dots(s) + 1,
        forall|k: int, i: int|
            0 <= k < fields(s).len() && 0 <= i < fields(s)[k].len() ==> #[trigger] fields(
                s,
            )[k][i] != 46,
    decreases s.len(),
{
    if s.len() > 0 {
        lemma_fields_and_dots(s.drop_last());
    }
}

/// The four octets of a dotted quad: the bytes must part into exactly four
/// fields, each of which spells an octet.
pub open spec fn dotted_quad(s: Seq<u8>) -> Option<Seq<u8>> {
    let parts = fields(s);
    if parts.len() == 4 && octet(parts[0]) is Some && octet(parts[1]) is Some && octet(
        parts[2],
    ) is Some && octet(parts[3]) is Some {
        Some(
            seq![
                octet(parts[0])->Some_0,
                octet(parts[1])->Some_0,
                octet(parts[2])->Some_0,
                octet(parts[3])->Some_0,
            ],
        )
    } else {
        None
    }
}

/// The octet that the field spells, if it spells one.
pub fn parse_octet(field: &[u8]) -> (value: Option<u8>)
    ensures
        value == octet(field@),
{
    let start: usize = if field.len() > 0 && field[0] == PLUS {
        1
    } else {
        0
    };
    let ghost digits = digits_of(field@);
    assert(digits == field@.subrange(start as int, field@.len() as int));
    if start == field.len() {
        return None;
    }
    // The number that the digits so far spell, or 256 where it is more.
    let mut number: u16 = 0;
    let mut i: usize = start;
    while i < field.len()
        invariant
            start <= i <= field@.len(),
            digits == digits_of(field@),
            digits == field@.subrange(start as int, field@.len() as int),
            all_digits(digits.subrange(0, i - start)),
            number <= 256,
            number == if decimal_value(digits.subrange(0, i - start)) <= 255 {
                decimal_value(digits.subrange(0, i - start))
            } else {
                256
            },
        decreases field@.len() - i,
    {
        let b = field[i];
        if b < ZERO || b > 57 {
            assert(digits[i - start] == b);
            assert(!all_digits(digits));
            return None;
        }
        let ghost before = digits.subrange(0, i - start);
        let ghost after = digits.subrange(0, i + 1 - start);
        assert(after.drop_last() == before);
        assert(after.last() == b);
        let next: u16 = number * 10 + (b - ZERO) as u16;
        number = if next > 255 {
            256
        } else {
            next
        };
        i = i + 1;
    }
    assert(digits.subrange(0, i - start) == digits);
    if number > 255 {
        None
    } else {
        Some(number as u8)
    }
}

/// The four octets of an IPv4 literal: exactly four fields with a dot
/// between each two, each field an octet as `octet` reads it, that is one or
/// more decimal digits that spell a number up to 255, with or without zeros
/// in front and a plus sign before them. `None` for every other string.
pub fn string_to_ip(ip_address: &str) -> (octets: Option<[u8; 4]>)
    ensures
        match dotted_quad(encode_utf8(ip_address@)) {
            Some(quad) => octets matches Some(found) && found@ == quad,
            None => octets is None,
        },
{
    let bytes = ip_address.as_bytes();
    let ghost s = bytes@;
    // The octets of the fields that are closed, as long as each spelled one.
    let mut found: Vec<u8> = Vec::new();
    // The number of fields that are closed, and where the open one starts.
    let mut closed: usize = 0;
    let mut start: usize = 0;
    let mut valid = true;
    let mut i: usize = 0;
    assert(s.subrange(0, 0) == Seq::<u8>::empty());
    while i < bytes.len()
        invariant
            s == bytes@,
            start <= i <= s.len(),
            closed <= i,
            fields(s.subrange(0, i as int)).len() == closed + 1,
            fields(s.subrange(0, i as int)).last() == s.subrange(start as int, i as int),
            valid ==> found@.len() == closed && closed <= 4,
            valid ==> forall|k: int|
                0 <= k < closed ==> octet(#[trigger] fields(s.subrange(0, i as int))[k]) == Some(
                    found@[k],
                ),
            !valid ==> closed > 4 || exists|k: int|
                0 <= k < closed && k < 4 && octet(#[trigger] fields(s.subrange(0, i as int))[k])
                    is None,
        decreases s.len() - i,
    {
        let ghost before = fields(s.subrange(0, i as int));
        let ghost after = fields(s.subrange(0, i + 1));
        assert(s.subrange(0, i + 1).drop_last() == s.subrange(0, i as int));
        if bytes[i] == DOT {
            assert(after == before.push(Seq::<u8>::empty()));
            if valid {
                if closed == 4 {
                    valid = false;
                } else {
                    match parse_octet(&bytes[start..i]) {
                        Some(value) => {
                            found.push(value);
                        },
                        None => {
                            valid = false;
                            assert(octet(after[closed as int]) is None);
                        },
                    }
                }
            }
            closed = closed + 1;
            start = i + 1;
            assert(after.last() == s.subrange(start as int, i + 1));
            assert(forall|k: int| 0 <= k < closed ==> after[k] == before[k]);
        } else {
            assert(after == before.update(before.len() - 1, before.last().push(s[i as int])));
            assert(after.last() == s.subrange(start as int, i + 1));
            assert(forall|k: int| 0 <= k < closed ==> after[k] == before[k]);
        }
        i = i + 1;
    }
    assert(s.subrange(0, i as int) == s);
    let ghost parts = fields(s);
    if !valid || closed != 3 {
        return None;
    }
    match parse_octet(&bytes[start..i]) {
        Some(value) => {
            let octets = [found[0], found[1], found[2], value];
            assert(octets@ =~= dotted_quad(s)->Some_0);
            Some(octets)
        },
        None => None,
    }
}

} // verus!
