//! What holds of texts, numbers, blocks and service lists, said of the characters,
//! bytes and codes themselves.

use vstd::prelude::*;

use crate::error;
use crate::error::ErrorView;
use crate::fields;
use crate::policy;
use crate::rules;
use crate::table::Block8;
use crate::text;

verus! {

/// The value of a digit in a radix of ten or sixteen, if it is one.
pub open spec fn digit_in(c: char, radix: int) -> Option<int> {
    if '0' <= c <= '9' {
        Some(c as int - '0' as int)
    } else if radix == 16 && 'a' <= c <= 'f' {
        Some(c as int - 'a' as int + 10)
    } else if radix == 16 && 'A' <= c <= 'F' {
        Some(c as int - 'A' as int + 10)
    } else {
        None
    }
}

/// A number is read digit by digit: one more digit multiplies what was read by the
/// radix and adds the digit. No text is no number, nor is one with a character that is
/// no digit, nor is one that does not fit in sixteen bits.
pub proof fn numbers_are_read_digit_by_digit(digits: Seq<char>, c: char, radix: int)
    requires
        radix == 10 || radix == 16,
    ensures
        fields::number_in(Seq::empty(), radix) is None,
        fields::number_in(digits.push(c), radix) == ({
            let before = if digits.len() == 0 {
                Some(0int)
            } else {
                match fields::number_in(digits, radix) {
                    Some(number) => Some(number as int),
                    None => None,
                }
            };
            match (before, digit_in(c, radix)) {
                (Some(number), Some(digit)) => if number * radix + digit <= 0xFFFF {
                    Some((number * radix + digit) as u16)
                } else {
                    None
                },
                _ => None,
            }
        }),
{
    let all = digits.push(c);
    assert(all.drop_last() =~= digits);
    assert(fields::is_digit(c, radix) == (digit_in(c, radix) is Some));
    if forall|i: int| 0 <= i < all.len() ==> fields::is_digit(#[trigger] all[i], radix) {
        assert forall|i: int| 0 <= i < digits.len() implies fields::is_digit(
            #[trigger] digits[i],
            radix,
        ) by {
            assert(all[i] == digits[i]);
        }
        assert(fields::is_digit(all[digits.len() as int], radix));
        numerals_are_not_negative(digits, radix);
    } else if forall|i: int|
        0 <= i < digits.len() ==> fields::is_digit(#[trigger] digits[i], radix) {
        if fields::is_digit(c, radix) {
            assert forall|i: int| 0 <= i < all.len() implies fields::is_digit(
                #[trigger] all[i],
                radix,
            ) by {
                if i < digits.len() {
                    assert(all[i] == digits[i]);
                }
            }
        }
    }
    reveal_with_fuel(fields::numeral, 2);
}

proof fn numerals_are_not_negative(digits: Seq<char>, radix: int)
    requires
        radix == 10 || radix == 16,
        forall|i: int| 0 <= i < digits.len() ==> fields::is_digit(#[trigger] digits[i], radix),
    ensures
        fields::numeral(digits, radix) >= 0,
    decreases digits.len(),
{
    if digits.len() > 0 {
        let rest = digits.drop_last();
        assert forall|i: int| 0 <= i < rest.len() implies fields::is_digit(
            #[trigger] rest[i],
            radix,
        ) by {
            assert(rest[i] == digits[i]);
        }
        numerals_are_not_negative(rest, radix);
        assert(fields::is_digit(digits[digits.len() - 1], radix));
    }
}

/// Behind `0x` a number is hexadecimal; any other text is decimal.
pub proof fn codes_are_hexadecimal_behind_0x(text: Seq<char>)
    ensures
        fields::code_in(seq!['0', 'x'] + text) == fields::number_in(text, 16),
        !(text.len() >= 2 && text[0] == '0' && text[1] == 'x') ==> fields::code_in(text)
            == fields::number_in(text, 10),
{
    assert((seq!['0', 'x'] + text).skip(2) =~= text);
}

/// A node code is written as four digits, in upper case, from which it is read back.
pub proof fn written_codes_read_back(code: u16)
    ensures
        text::code_text(code).len() == 4,
        forall|i: int|
            0 <= i < 4 ==> '0' <= (#[trigger] text::code_text(code)[i]) <= '9' || 'A'
                <= text::code_text(code)[i] <= 'F',
        fields::number_in(text::code_text(code), 16) == Some(code),
{
    let d0 = code as int / 4096;
    let d1 = code as int / 256 % 16;
    let d2 = code as int / 16 % 16;
    let d3 = code as int % 16;
    assert(0 <= d0 < 16 && 0 <= d1 < 16 && 0 <= d2 < 16 && 0 <= d3 < 16);
    let s1 = Seq::empty().push(text::hex_digit_upper(d0));
    let s2 = s1.push(text::hex_digit_upper(d1));
    let s3 = s2.push(text::hex_digit_upper(d2));
    let s4 = s3.push(text::hex_digit_upper(d3));
    assert(text::code_text(code) =~= s4);
    numbers_are_read_digit_by_digit(Seq::empty(), text::hex_digit_upper(d0), 16);
    numbers_are_read_digit_by_digit(s1, text::hex_digit_upper(d1), 16);
    numbers_are_read_digit_by_digit(s2, text::hex_digit_upper(d2), 16);
    numbers_are_read_digit_by_digit(s3, text::hex_digit_upper(d3), 16);
    assert(digit_in(text::hex_digit_upper(d0), 16) == Some(d0));
    assert(digit_in(text::hex_digit_upper(d1), 16) == Some(d1));
    assert(digit_in(text::hex_digit_upper(d2), 16) == Some(d2));
    assert(digit_in(text::hex_digit_upper(d3), 16) == Some(d3));
    assert(fields::number_in(s1, 16) == Some(d0 as u16));
    assert(fields::number_in(s2, 16) == Some((d0 * 16 + d1) as u16));
    assert(fields::number_in(s3, 16) == Some(((d0 * 16 + d1) * 16 + d2) as u16));
}

/// A block is read from exactly the texts that stand for eight bytes, and holds those.
pub proof fn blocks_hold_the_bytes_of_their_text(written: Seq<char>)
    ensures
        fields::block_in(written) is Some <==> text::hex_bytes(written) is Some
            && text::hex_bytes(written)->Some_0.len() == 8,
        fields::block_in(written) matches Some(block) ==> text::hex_bytes(written) == Some(block@),
{
    if let Some(bytes) = text::hex_bytes(written) {
        if bytes.len() == 8 {
            let block: Block8 = [
                bytes[0],
                bytes[1],
                bytes[2],
                bytes[3],
                bytes[4],
                bytes[5],
                bytes[6],
                bytes[7],
            ];
            assert(block@ =~= bytes);
            assert(fields::block_of(bytes)@ == bytes);
        }
    }
}

/// Bytes are read two digits at a time, the high half first; an odd digit, or anything
/// that is no digit, spoils the whole text.
pub proof fn bytes_are_read_two_digits_at_a_time(written: Seq<char>, high: char, low: char)
    ensures
        text::hex_bytes(Seq::empty()) == Some(Seq::<u8>::empty()),
        text::hex_bytes(written) is Some ==> written.len() % 2 == 0,
        text::hex_bytes(written.push(high).push(low)) == (match (
            text::hex_bytes(written),
            digit_in(high, 16),
            digit_in(low, 16),
        ) {
            (Some(bytes), Some(h), Some(l)) => Some(bytes.push((16 * h + l) as u8)),
            _ => None,
        }),
{
    assert(text::hex_bytes(Seq::empty())->Some_0 =~= Seq::<u8>::empty());
    let all = written.push(high).push(low);
    let n = written.len() as int;
    assert(all[n] == high && all[n + 1] == low);
    assert forall|i: int| 0 <= i < n implies all[i] == written[i] by {}
    if text::hex_bytes(all) is Some {
        assert(text::is_hex_digit(all[n]) && text::is_hex_digit(all[n + 1]));
        assert forall|i: int| 0 <= i < n implies text::is_hex_digit(#[trigger] written[i]) by {
            assert(text::is_hex_digit(all[i]));
        }
        let h = digit_in(high, 16)->Some_0;
        let l = digit_in(low, 16)->Some_0;
        assert(text::hex_bytes(all)->Some_0 =~= text::hex_bytes(written)->Some_0.push(
            (16 * h + l) as u8,
        ));
    } else if text::hex_bytes(written) is Some && digit_in(high, 16) is Some && digit_in(low, 16)
        is Some {
        assert forall|i: int| 0 <= i < all.len() implies text::is_hex_digit(#[trigger] all[i]) by {
            if i < n {
                assert(text::is_hex_digit(written[i]));
            }
        }
    }
}

/// Whether a node has a key: its code is even, or it is the system node.
pub open spec fn has_key(code: u16) -> bool {
    code == 0xFFFF || code as int % 2 == 0
}

/// Whether the six low bits of a code are one of the six read-only attributes.
pub open spec fn grants_reads_only(code: u16) -> bool {
    let low = code as int % 64;
    low == 0b001010 || low == 0b001011 || low == 0b001110 || low == 0b001111 || low == 0b010110
        || low == 0b010111
}

/// Whether the node at `i` has a key and stands somewhere after one that has none.
pub open spec fn comes_too_late(services: Seq<u16>, i: int) -> bool {
    &&& 0 <= i < services.len()
    &&& has_key(services[i])
    &&& exists|j: int| 0 <= j < i && !has_key(#[trigger] services[j])
}

/// Six attributes are read-only; the low bit of a code, but for the system node, says
/// whether it has a key.
pub proof fn attributes_and_key_bit_of_a_code(code: u16)
    ensures
        policy::read_only(code) == grants_reads_only(code),
        policy::key_required(code) == has_key(code),
{
}

/// What is said of a service list that a card would refuse. Without any node that has a
/// key, that one is missing; otherwise the first node that comes too late is named.
/// Nothing is said of a list in which neither is the case.
pub proof fn shape_refusals_name_the_fault(services: Seq<u16>)
    ensures
        policy::well_shaped(services) == (policy::shape_refusal(services) is None),
        match policy::shape_refusal(services) {
            None => {
                &&& exists|i: int| 0 <= i < services.len() && has_key(#[trigger] services[i])
                &&& forall|i: int| !comes_too_late(services, i)
            },
            Some(message) => {
                ||| {
                    &&& message == "services must include at least one node that requires a key"@
                    &&& forall|i: int| 0 <= i < services.len() ==> !has_key(#[trigger] services[i])
                }
                ||| exists|i: int|
                    {
                        &&& #[trigger] comes_too_late(services, i)
                        &&& forall|j: int| j < i ==> !comes_too_late(services, j)
                        &&& message == "service 0x"@ + text::code_text(services[i])
                            + " requires a key and must be listed before key-free services"@
                    }
            },
        },
{
    assert forall|i: int| #[trigger] comes_too_late(services, i) == policy::misplaced(
        services,
        i,
    ) by {
        if comes_too_late(services, i) {
            let j = choose|j: int| 0 <= j < i && !has_key(#[trigger] services[j]);
            assert(!policy::key_required(services[j]));
        }
        if policy::misplaced(services, i) {
            let j = choose|j: int| 0 <= j < i && !policy::key_required(#[trigger] services[j]);
            assert(!has_key(services[j]));
        }
    }
    if policy::shape_refusal(services) is None {
        let i = choose|i: int| 0 <= i < services.len() && policy::key_required(services[i]);
        assert(has_key(services[i]));
        assert forall|i: int| !comes_too_late(services, i) by {
            assert(!policy::misplaced(services, i));
        }
    } else if !policy::has_key_required(services) {
        assert forall|i: int| 0 <= i < services.len() implies !has_key(#[trigger] services[i]) by {
            assert(!policy::key_required(services[i]));
        }
    } else {
        let late = choose|i: int| policy::misplaced(services, i);
        let i = first_late(services, late);
        assert(policy::first_misplaced(services, i));
        let k = choose|k: int| policy::first_misplaced(services, k);
        assert(policy::first_misplaced(services, k));
        assert(comes_too_late(services, k));
        assert forall|j: int| j < k implies !comes_too_late(services, j) by {
            assert(!policy::misplaced(services, j));
        }
    }
}

proof fn first_late(services: Seq<u16>, late: int) -> (first: int)
    requires
        policy::misplaced(services, late),
    ensures
        policy::first_misplaced(services, first),
    decreases late,
{
    if exists|j: int| j < late && policy::misplaced(services, j) {
        let j = choose|j: int| j < late && policy::misplaced(services, j);
        first_late(services, j)
    } else {
        late
    }
}

/// What a service list is refused for when only reads are allowed: the first service
/// that grants more is named, with 403; failing that, what a card would refuse it for is
/// said, with 400. A list with neither fault is not refused.
pub proof fn read_only_refusals_name_the_fault(services: Seq<u16>)
    ensures
        match rules::read_only_refusal(services) {
            None => {
                &&& forall|i: int|
                    0 <= i < services.len() ==> grants_reads_only(#[trigger] services[i])
                &&& policy::shape_refusal(services) is None
            },
            Some(err) => {
                &&& err.code is None
                &&& if forall|i: int|
                    0 <= i < services.len() ==> grants_reads_only(#[trigger] services[i]) {
                    &&& err.status == 400
                    &&& policy::shape_refusal(services) == Some(err.message)
                } else {
                    &&& err.status == 403
                    &&& exists|i: int|
                        {
                            &&& 0 <= i < services.len()
                            &&& !grants_reads_only(#[trigger] services[i])
                            &&& forall|j: int|
                                0 <= j < i ==> grants_reads_only(#[trigger] services[j])
                            &&& err.message == "service 0x"@ + text::code_text(services[i])
                                + " is not a read-only node"@
                        }
                }
            },
        },
{
    assert forall|i: int| 0 <= i < services.len() implies policy::read_only(services[i])
        == grants_reads_only(#[trigger] services[i]) by {}
    if !rules::all_read_only(services) {
        let some = choose|i: int| 0 <= i < services.len() && !policy::read_only(services[i]);
        let i = first_granting_more(services, some);
        assert(rules::first_writable(services, i));
        let k = choose|k: int| rules::first_writable(services, k);
        assert(rules::first_writable(services, k));
        assert(!grants_reads_only(services[k]));
    } else {
        assert(forall|i: int|
            0 <= i < services.len() ==> grants_reads_only(#[trigger] services[i]));
    }
}

proof fn first_granting_more(services: Seq<u16>, some: int) -> (first: int)
    requires
        0 <= some < services.len(),
        !policy::read_only(services[some]),
    ensures
        rules::first_writable(services, first),
    decreases some,
{
    if exists|j: int| 0 <= j < some && !policy::read_only(services[j]) {
        let j = choose|j: int| 0 <= j < some && !policy::read_only(services[j]);
        first_granting_more(services, j)
    } else {
        some
    }
}

/// An error says what it is made of. Status flags of a card become one code, the first
/// flag in the high byte, and are answered with 400; a card failure without them with
/// 500.
pub proof fn errors_say_what_they_are_made_of(
    status: u16,
    message: Seq<char>,
    sf1: u8,
    sf2: u8,
)
    ensures
        error::error(status, message) == (ErrorView { status, message, code: None }),
        error::card_error(message, None) == (ErrorView { status: 500, message, code: None }),
        ({
            let flagged = error::card_error(message, Some((sf1, sf2)));
            &&& flagged.status == 400
            &&& flagged.message == message
            &&& flagged.code matches Some(code)
            &&& code == 256 * sf1 + sf2
        }),
        rules::nonempty_message(message) == message + " must be a non-empty list"@,
        crate::relay::fault_message(crate::relay::WorkerFault::Unavailable)
            == "session worker unavailable"@,
        crate::relay::fault_message(crate::relay::WorkerFault::Terminated)
            == "session worker terminated"@,
{
}

} // verus!
