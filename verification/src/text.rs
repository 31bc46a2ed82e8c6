//! Hexadecimal text: how bytes and node codes are written in replies and error
//! messages, and how they are read back from requests and key files.

use vstd::prelude::*;

verus! {

/// The lower-case hexadecimal digit with value `n`.
pub open spec fn hex_digit(n: int) -> char
    recommends
        0 <= n < 16,
{
    if n < 10 {
        (0x30 + n) as char
    } else {
        (0x57 + n) as char
    }
}

/// The upper-case hexadecimal digit with value `n`.
pub open spec fn hex_digit_upper(n: int) -> char
    recommends
        0 <= n < 16,
{
    if n < 10 {
        (0x30 + n) as char
    } else {
        (0x37 + n) as char
    }
}

/// Bytes as lower-case hexadecimal text: two digits for each byte, high half first.
pub open spec fn hex_text(bytes: Seq<u8>) -> Seq<char> {
    Seq::new(
        2 * bytes.len(),
        |i: int|
            if i % 2 == 0 {
                hex_digit(bytes[i / 2] as int / 16)
            } else {
                hex_digit(bytes[i / 2] as int % 16)
            },
    )
}

/// A node code as four upper-case hexadecimal digits.
pub open spec fn code_text(code: u16) -> Seq<char> {
    seq![
        hex_digit_upper(code as int / 4096),
        hex_digit_upper(code as int / 256 % 16),
        hex_digit_upper(code as int / 16 % 16),
        hex_digit_upper(code as int % 16),
    ]
}

/// Whether `c` is a hexadecimal digit, of either case.
pub open spec fn is_hex_digit(c: char) -> bool {
    '0' <= c <= '9' || 'a' <= c <= 'f' || 'A' <= c <= 'F'
}

/// The value of a hexadecimal digit.
pub open spec fn hex_value(c: char) -> int
    recommends
        is_hex_digit(c),
{
    if c <= '9' {
        c as int - '0' as int
    } else if c <= 'F' {
        c as int - 'A' as int + 10
    } else {
        c as int - 'a' as int + 10
    }
}

/// The bytes that a hexadecimal text stands for; nothing when its length is odd or
/// it holds anything but hexadecimal digits.
pub open spec fn hex_bytes(text: Seq<char>) -> Option<Seq<u8>> {
    if text.len() % 2 == 0 && forall|i: int|
        0 <= i < text.len() ==> is_hex_digit(#[trigger] text[i]) {
        Some(
            Seq::new(
                text.len() / 2,
                |i: int| (16 * hex_value(text[2 * i]) + hex_value(text[2 * i + 1])) as u8,
            ),
        )
    } else {
        None
    }
}

/// The error that reading hexadecimal text can end in.
#[verifier::external_type_specification]
#[verifier::external_body]
pub struct ExFromHexError(hex::FromHexError);

/// Calls `hex::encode`, which writes each byte as two lower-case digits, the high
/// half first. Nothing else is claimed of it. The text is twice as long as the
/// bytes, so a slice whose text could not be allocated is left out.
#[verifier::external_body]
pub(crate) fn hex_encode(bytes: &[u8]) -> (text: String)
    requires
        2 * bytes@.len() <= isize::MAX,
    ensures
        text@ == hex_text(bytes@),
{
    hex::encode(bytes)
}

/// Calls `hex::decode`, which reads digits of either case, two for each byte, and
/// fails on an odd number of characters and on anything that is not a digit.
/// Which error comes back is not claimed.
#[verifier::external_body]
pub(crate) fn hex_decode(text: &str) -> (bytes: Result<Vec<u8>, hex::FromHexError>)
    ensures
        match bytes {
            Ok(found) => hex_bytes(text@) == Some(found@),
            Err(_) => hex_bytes(text@) is None,
        },
{
    hex::decode(text)
}

/// The upper-case hexadecimal digit with value `n`, as text.
fn digit_text(n: u16) -> (text: &'static str)
    requires
        n < 16,
    ensures
        text@ == seq![hex_digit_upper(n as int)],
{
    proof {
        reveal_strlit("0");
        reveal_strlit("1");
        reveal_strlit("2");
        reveal_strlit("3");
        reveal_strlit("4");
        reveal_strlit("5");
        reveal_strlit("6");
        reveal_strlit("7");
        reveal_strlit("8");
        reveal_strlit("9");
        reveal_strlit("A");
        reveal_strlit("B");
        reveal_strlit("C");
        reveal_strlit("D");
        reveal_strlit("E");
        reveal_strlit("F");
    }
    match n {
        0 => "0",
        1 => "1",
        2 => "2",
        3 => "3",
        4 => "4",
        5 => "5",
        6 => "6",
        7 => "7",
        8 => "8",
        9 => "9",
        10 => "A",
        11 => "B",
        12 => "C",
        13 => "D",
        14 => "E",
        _ => "F",
    }
}

/// Writes a node code as four upper-case hexadecimal digits.
pub fn format_code(code: u16) -> (text: String)
    ensures
        text@ == code_text(code),
{
    digit_text(code / 4096).to_owned().concat(digit_text(code / 256 % 16)).concat(
        digit_text(code / 16 % 16),
    ).concat(digit_text(code % 16))
}

/// What `hex_text` writes, `hex_bytes` reads back: a client recovers exactly the
/// bytes that a reply was made from.
pub proof fn hex_text_reads_back(bytes: Seq<u8>)
    ensures
        hex_bytes(hex_text(bytes)) == Some(bytes),
{
    let text = hex_text(bytes);
    assert forall|i: int| 0 <= i < text.len() implies is_hex_digit(#[trigger] text[i]) by {
        assert(0 <= bytes[i / 2] as int / 16 < 16);
    }
    assert forall|i: int| 0 <= i < bytes.len() implies (16 * hex_value(text[2 * i]) + hex_value(
        text[2 * i + 1],
    )) as u8 == bytes[i] by {
        let b = bytes[i] as int;
        assert(text[2 * i] == hex_digit(b / 16));
        assert(text[2 * i + 1] == hex_digit(b % 16));
        assert(hex_value(hex_digit(b / 16)) == b / 16);
        assert(hex_value(hex_digit(b % 16)) == b % 16);
    }
    assert(hex_bytes(text)->Some_0 =~= bytes);
}

} // verus!
