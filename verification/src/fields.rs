//! The fields of requests and key files: numbers and bytes that are written as text.

use vstd::prelude::*;

use crate::table::Block8;
use crate::text;

verus! {

/// Whether `c` is a digit of a number in this radix, which is ten or sixteen.
pub open spec fn is_digit(c: char, radix: int) -> bool {
    text::is_hex_digit(c) && text::hex_value(c) < radix
}

/// The number that these digits make.
pub open spec fn numeral(digits: Seq<char>, radix: int) -> int
    decreases digits.len(),
{
    if digits.len() == 0 {
        0
    } else {
        numeral(digits.drop_last(), radix) * radix + text::hex_value(digits.last())
    }
}

/// The 16-bit number that a text is in this radix: digits and nothing else, at least
/// one of them.
pub open spec fn number_in(text: Seq<char>, radix: int) -> Option<u16> {
    if text.len() > 0 && (forall|i: int|
        0 <= i < text.len() ==> is_digit(#[trigger] text[i], radix)) && numeral(text, radix)
        <= u16::MAX {
        Some(numeral(text, radix) as u16)
    } else {
        None
    }
}

/// The 16-bit number that a text is: hexadecimal behind `0x`, decimal otherwise.
pub open spec fn code_in(text: Seq<char>) -> Option<u16> {
    if text.len() >= 2 && text[0] == '0' && text[1] == 'x' {
        number_in(text.skip(2), 16)
    } else {
        number_in(text, 10)
    }
}

/// The block that holds these eight bytes.
pub open spec fn block_of(bytes: Seq<u8>) -> Block8 {
    choose|block: Block8| block@ == bytes
}

/// The block that a hexadecimal text of eight bytes stands for.
pub open spec fn block_in(text: Seq<char>) -> Option<Block8> {
    match text::hex_bytes(text) {
        Some(bytes) => if bytes.len() == 8 {
            Some(block_of(bytes))
        } else {
            None
        },
        None => None,
    }
}

/// There is only one block with the same bytes.
proof fn block_of_its_bytes(block: Block8)
    ensures
        block_of(block@) == block,
{
    let other = block_of(block@);
    assert(other@ == block@);
    assert forall|i: int| 0 <= i < 8 implies other[i] == block[i] by {
        assert(other@[i] == block@[i]);
    }
    assert(other =~= block);
}

/// The characters of a text.
fn characters(text: &str) -> (found: Vec<char>)
    ensures
        found@ == text@,
{
    let mut found: Vec<char> = Vec::new();
    for c in it: text.chars()
        invariant
            found@ == text@.take(it.index()),
            it.seq() == text@,
    {
        found.push(c);
    }
    assert(text@.take(text@.len() as int) =~= text@);
    found
}

/// The value of a digit in this radix.
fn digit_value(c: char, radix: u32) -> (value: Option<u32>)
    requires
        radix == 10 || radix == 16,
    ensures
        match value {
            Some(value) => is_digit(c, radix as int) && value == text::hex_value(c),
            None => !is_digit(c, radix as int),
        },
{
    let value: u32 = if '0' <= c && c <= '9' {
        c as u32 - '0' as u32
    } else if 'a' <= c && c <= 'f' {
        c as u32 - 'a' as u32 + 10
    } else if 'A' <= c && c <= 'F' {
        c as u32 - 'A' as u32 + 10
    } else {
        return None;
    };
    if value < radix {
        Some(value)
    } else {
        None
    }
}

/// Reads the characters from `start` on as a number in this radix.
fn read_digits(text: &Vec<char>, start: usize, radix: u32) -> (number: Option<u16>)
    requires
        start <= text@.len(),
        radix == 10 || radix == 16,
    ensures
        number == number_in(text@.skip(start as int), radix as int),
{
    let ghost digits = text@.skip(start as int);
    // The number so far, or the first one that is too large.
    let mut so_far: u32 = 0;
    for i in start..text.len()
        invariant
            start <= text@.len(),
            digits == text@.skip(start as int),
            radix == 10 || radix == 16,
            forall|j: int| 0 <= j < i - start ==> is_digit(#[trigger] digits[j], radix as int),
            0 <= numeral(digits.take(i - start), radix as int),
            so_far <= 0x10000,
            so_far < 0x10000 ==> so_far == numeral(digits.take(i - start), radix as int),
            so_far == 0x10000 ==> numeral(digits.take(i - start), radix as int) >= 0x10000,
    {
        let value = match digit_value(text[i], radix) {
            Some(value) => value,
            None => {
                assert(!is_digit(digits[i - start], radix as int));
                return None;
            },
        };
        proof {
            assert(digits.take(i + 1 - start).drop_last() =~= digits.take(i - start));
            assert(digits.take(i + 1 - start).last() == text@[i as int]);
        }
        let next: u32 = so_far * radix + value;
        so_far = if next < 0x10000 {
            next
        } else {
            0x10000
        };
    }
    assert(digits.take(digits.len() as int) =~= digits);
    if start == text.len() || so_far == 0x10000 {
        None
    } else {
        Some(so_far as u16)
    }
}

/// Reads a 16-bit number in hexadecimal.
pub fn parse_hex(text: &str) -> (number: Option<u16>)
    ensures
        number == number_in(text@, 16),
{
    let found = characters(text);
    assert(found@.skip(0) =~= found@);
    read_digits(&found, 0, 16)
}

/// Reads a 16-bit number: hexadecimal behind `0x`, decimal otherwise.
pub fn parse_code(text: &str) -> (number: Option<u16>)
    ensures
        number == code_in(text@),
{
    let found = characters(text);
    if found.len() >= 2 && found[0] == '0' && found[1] == 'x' {
        read_digits(&found, 2, 16)
    } else {
        assert(found@.skip(0) =~= found@);
        read_digits(&found, 0, 10)
    }
}

/// Reads bytes in hexadecimal.
pub fn parse_bytes(text: &str) -> (bytes: Option<Vec<u8>>)
    ensures
        match bytes {
            Some(bytes) => text::hex_bytes(text@) == Some(bytes@),
            None => text::hex_bytes(text@) is None,
        },
{
    match text::hex_decode(text) {
        Ok(bytes) => Some(bytes),
        Err(_) => None,
    }
}

/// Reads eight bytes in hexadecimal.
pub fn parse_block(text: &str) -> (block: Option<Block8>)
    ensures
        block == block_in(text@),
{
    match parse_bytes(text) {
        Some(bytes) => {
            if bytes.len() != 8 {
                return None;
            }
            let block: Block8 = [
                bytes[0],
                bytes[1],
                bytes[2],
                bytes[3],
                bytes[4],
                bytes[5],
                bytes[6],
                bytes[7],
            ];
            proof {
                assert(block@ =~= bytes@);
                block_of_its_bytes(block);
            }
            Some(block)
        },
        None => None,
    }
}

} // verus!
