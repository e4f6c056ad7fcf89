//! Reading and writing 16-bit numbers in hexadecimal.
use vstd::prelude::*;
use vstd::string::StringExecFns;

verus! {

/// The value of a hexadecimal digit, upper or lower case.
pub open spec fn digit_value(c: char) -> Option<int> {
    if '0' <= c <= '9' {
        Some(c as int - '0' as int)
    } else if 'a' <= c <= 'f' {
        Some(c as int - 'a' as int + 10)
    } else if 'A' <= c <= 'F' {
        Some(c as int - 'A' as int + 10)
    } else {
        None
    }
}

/// Whether every character of `text` is a hexadecimal digit.
pub open spec fn all_digits(text: Seq<char>) -> bool {
    forall|i: int| 0 <= i < text.len() ==> (#[trigger] digit_value(text[i])) is Some
}

/// The number that a string of hexadecimal digits denotes, the first digit
/// counting most.
pub open spec fn digits_value(text: Seq<char>) -> int
    decreases text.len(),
{
    if text.len() == 0 {
        0
    } else {
        digits_value(text.drop_last()) * 16 + match digit_value(text.last()) {
            Some(value) => value,
            None => 0,
        }
    }
}

/// The digits of `text`: what follows the prefix `0x`, or all of `text`
/// where it has no such prefix.
pub open spec fn unprefixed(text: Seq<char>) -> Seq<char> {
    if text.len() >= 2 && text[0] == '0' && text[1] == 'x' {
        text.subrange(2, text.len() as int)
    } else {
        text
    }
}

/// The 16-bit number that `text` denotes: `text` is one or more hexadecimal
/// digits, with or without `0x` in front, and they denote a number below
/// 65536. Any other text denotes none.
pub open spec fn hex_value(text: Seq<char>) -> Option<u16> {
    let digits = unprefixed(text);
    if digits.len() > 0 && all_digits(digits) && digits_value(digits) <= u16::MAX {
        Some(digits_value(digits) as u16)
    } else {
        None
    }
}

/// A longer string of digits denotes no smaller number.
pub proof fn lemma_digits_value_grows(text: Seq<char>, length: int)
    requires
        0 <= length <= text.len(),
    ensures
        0 <= digits_value(text.subrange(0, length)) <= digits_value(text),
    decreases text.len() - length,
{
    if length < text.len() {
        let longer = text.subrange(0, length + 1);
        assert(longer.drop_last() == text.subrange(0, length));
        lemma_digits_value_grows(text, length + 1);
        lemma_digits_value_not_negative(text.subrange(0, length));
    } else {
        assert(text.subrange(0, length) == text);
        lemma_digits_value_not_negative(text);
    }
}

/// A string of digits denotes no negative number.
pub proof fn lemma_digits_value_not_negative(text: Seq<char>)
    ensures
        0 <= digits_value(text),
    decreases text.len(),
{
    if text.len() > 0 {
        lemma_digits_value_not_negative(text.drop_last());
    }
}

fn digit_of(c: char) -> (r: Option<u8>)
    ensures
        r is Some <==> digit_value(c) is Some,
        r matches Some(value) ==> digit_value(c) == Some(value as int) && value < 16,
{
    if '0' <= c && c <= '9' {
        Some((c as u32 - '0' as u32) as u8)
    } else if 'a' <= c && c <= 'f' {
        Some((c as u32 - 'a' as u32 + 10) as u8)
    } else if 'A' <= c && c <= 'F' {
        Some((c as u32 - 'A' as u32 + 10) as u8)
    } else {
        None
    }
}

/// Reads a 16-bit number written in hexadecimal, with or without `0x` in
/// front.
pub fn parse_hex(hex: &str) -> (r: Option<u16>)
    ensures
        r == hex_value(hex@),
{
    let length: usize = hex.unicode_len();
    let start: usize = if length >= 2 && hex.get_char(0) == '0' && hex.get_char(1) == 'x' {
        2
    } else {
        0
    };
    let ghost digits = unprefixed(hex@);
    assert(digits == hex@.subrange(start as int, length as int));
    if start == length {
        return None;
    }
    let mut value: u32 = 0;
    let mut i: usize = start;
    while i < length
        invariant
            start <= i <= length,
            length == hex@.len(),
            digits == hex@.subrange(start as int, length as int),
            digits == unprefixed(hex@),
            all_digits(digits.subrange(0, i - start)),
            value == digits_value(digits.subrange(0, i - start)),
            value <= u16::MAX,
        decreases length - i,
    {
        let ghost seen = digits.subrange(0, i - start);
        let ghost next = digits.subrange(0, i - start + 1);
        assert(next.drop_last() == seen);
        assert(next.last() == hex@[i as int]);
        match digit_of(hex.get_char(i)) {
            Some(digit) => {
                value = value * 16 + digit as u32;
                assert(value == digits_value(next));
                assert(all_digits(next)) by {
                    assert forall|j: int| 0 <= j < next.len() implies (#[trigger] digit_value(
                        next[j],
                    )) is Some by {
                        if j < seen.len() {
                            assert(next[j] == seen[j]);
                        }
                    }
                }
                if value > 0xFFFF {
                    proof {
                        lemma_digits_value_grows(digits, i - start + 1);
                    }
                    return None;
                }
            },
            None => {
                assert(digit_value(digits[i - start]) is None);
                assert(!all_digits(digits));
                return None;
            },
        }
        i = i + 1;
    }
    assert(digits.subrange(0, i - start) == digits);
    Some(value as u16)
}

/// The hexadecimal digit, in upper case, for a number below 16.
pub open spec fn digit_char(value: int) -> char {
    if value == 0 {
        '0'
    } else if value == 1 {
        '1'
    } else if value == 2 {
        '2'
    } else if value == 3 {
        '3'
    } else if value == 4 {
        '4'
    } else if value == 5 {
        '5'
    } else if value == 6 {
        '6'
    } else if value == 7 {
        '7'
    } else if value == 8 {
        '8'
    } else if value == 9 {
        '9'
    } else if value == 10 {
        'A'
    } else if value == 11 {
        'B'
    } else if value == 12 {
        'C'
    } else if value == 13 {
        'D'
    } else if value == 14 {
        'E'
    } else {
        'F'
    }
}

/// `value` in hexadecimal: upper case, no prefix, no leading zeros, `0`
/// for zero.
pub open spec fn hex_text(value: int) -> Seq<char>
    decreases value,
{
    if value < 16 {
        seq![digit_char(value)]
    } else {
        hex_text(value / 16).push(digit_char(value % 16))
    }
}

fn digit_text(value: u16) -> (r: &'static str)
    requires
        value < 16,
    ensures
        r@ == seq![digit_char(value as int)],
{
    proof {
        reveal_strlit("0");
        reveal_strlit("1");
        reveal_strlit("2");
        reveal_strlit("3");
        reveal_strlit("4");
        reveal_strlit("5");
        reveal_strlit("6");
        reveal_strlit("7");
        reveal_strlit("8");
        reveal_strlit("9");
        reveal_strlit("A");
        reveal_strlit("B");
        reveal_strlit("C");
        reveal_strlit("D");
        reveal_strlit("E");
        reveal_strlit("F");
    }
    let text = match value {
        0 => "0",
        1 => "1",
        2 => "2",
        3 => "3",
        4 => "4",
        5 => "5",
        6 => "6",
        7 => "7",
        8 => "8",
        9 => "9",
        10 => "A",
        11 => "B",
        12 => "C",
        13 => "D",
        14 => "E",
        _ => "F",
    };
    assert(text@ =~= seq![digit_char(value as int)]);
    text
}

/// Writes `value` in hexadecimal behind what `text` holds.
pub fn push_hex(text: &mut String, value: u16)
    ensures
        final(text)@ == old(text)@ + hex_text(value as int),
    decreases value,
{
    if value >= 16 {
        push_hex(text, value / 16);
    }
    let ghost leading = text@;
    text.append(digit_text(value % 16));
    assert(text@ == leading.push(digit_char(value as int % 16)));
    assert(text@ == old(text)@ + hex_text(value as int)) by {
        if value >= 16 {
            assert((old(text)@ + hex_text(value as int / 16)).push(digit_char(value as int % 16))
                == old(text)@ + hex_text(value as int / 16).push(digit_char(value as int % 16)));
        } else {
            assert(old(text)@.push(digit_char(value as int)) == old(text)@ + seq![
                digit_char(value as int),
            ]);
        }
    }
}

} // verus!
