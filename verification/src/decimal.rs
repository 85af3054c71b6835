//! Unsigned decimal numbers, read from ASCII bytes and written as text.
//!
//! A number is read from an optional `+` followed by one or more ASCII
//! digits. Leading zeros are allowed. Anything else, and any value above the
//! bound asked for, is no number.

use vstd::prelude::*;
use vstd::string::StringExecFns;

verus! {

/// The byte `0`.
pub const ZERO: u8 = 48;

/// The byte `9`.
pub const NINE: u8 = 57;

/// The byte `+`.
pub const PLUS: u8 = 43;

/// Whether `byte` is an ASCII digit.
pub open spec fn is_digit(byte: u8) -> bool {
    ZERO <= byte <= NINE
}

/// Whether every byte of `text` is an ASCII digit.
pub open spec fn all_digits(text: Seq<u8>) -> bool {
    forall|i: int| 0 <= i < text.len() ==> is_digit(#[trigger] text[i])
}

/// The number that the digits of `text` write in base ten.
pub open spec fn digits_value(text: Seq<u8>) -> nat
    decreases text.len(),
{
    if text.len() == 0 {
        0
    } else {
        digits_value(text.drop_last()) * 10 + (text.last() - ZERO) as nat
    }
}

/// The digits of `text`: what follows a leading `+`, or all of it.
pub open spec fn unsigned_part(text: Seq<u8>) -> Seq<u8> {
    if text.len() > 0 && text[0] == PLUS {
        text.subrange(1, text.len() as int)
    } else {
        text
    }
}

/// The number that `text` writes, if it writes one that is at most `max`.
pub open spec fn decimal(text: Seq<u8>, max: nat) -> Option<nat> {
    let digits = unsigned_part(text);
    if digits.len() > 0 && all_digits(digits) && digits_value(digits) <= max {
        Some(digits_value(digits))
    } else {
        None
    }
}

/// A number cannot get smaller when more digits follow it.
pub proof fn lemma_digits_value_grows(text: Seq<u8>, n: int)
    requires
        0 <= n <= text.len(),
        all_digits(text),
    ensures
        digits_value(text.take(n)) <= digits_value(text),
    decreases text.len() - n,
{
    if n < text.len() {
        lemma_digits_value_grows(text, n + 1);
        assert(text.take(n + 1).drop_last() =~= text.take(n));
        assert(is_digit(text[n]));
    } else {
        assert(text.take(n) =~= text);
    }
}

/// Reads the number written in `bytes[start..end]`.
pub fn parse_decimal(bytes: &[u8], start: usize, end: usize, max: u32) -> (number: Option<u32>)
    requires
        start <= end <= bytes.len(),
    ensures
        match number {
            Some(number) => decimal(bytes@.subrange(start as int, end as int), max as nat) == Some(
                number as nat,
            ),
            None => decimal(bytes@.subrange(start as int, end as int), max as nat) is None,
        },
{
    let ghost text = bytes@.subrange(start as int, end as int);
    let first = if start < end && bytes[start] == PLUS {
        start + 1
    } else {
        start
    };
    let ghost digits = bytes@.subrange(first as int, end as int);
    assert(digits =~= unsigned_part(text));
    if first == end {
        return None;
    }
    let mut value: u64 = 0;
    let mut i = first;
    while i < end
        invariant
            start <= first <= i <= end <= bytes.len(),
            digits == bytes@.subrange(first as int, end as int),
            digits == unsigned_part(bytes@.subrange(start as int, end as int)),
            all_digits(digits.take(i - first)),
            value == digits_value(digits.take(i - first)),
            value <= max,
        decreases end - i,
    {
        let byte = bytes[i];
        let ghost before = digits.take(i - first);
        let ghost after = digits.take(i - first + 1);
        assert(after.drop_last() =~= before);
        assert(after.last() == byte);
        if byte < ZERO || byte > NINE {
            assert(!is_digit(digits[i - first]));
            return None;
        }
        assert(all_digits(after)) by {
            assert forall|j: int| 0 <= j < after.len() implies is_digit(#[trigger] after[j]) by {
                if j < before.len() {
                    assert(after[j] == before[j]);
                }
            }
        }
        let next = value * 10 + (byte - ZERO) as u64;
        if next > max as u64 {
            proof {
                if all_digits(digits) {
                    lemma_digits_value_grows(digits, i - first + 1);
                }
            }
            return None;
        }
        value = next;
        i += 1;
    }
    assert(digits.take(i - first) =~= digits);
    Some(value as u32)
}

/// The character that writes the digit `digit`.
pub open spec fn digit_char(digit: nat) -> char {
    if digit == 0 {
        '0'
    } else if digit == 1 {
        '1'
    } else if digit == 2 {
        '2'
    } else if digit == 3 {
        '3'
    } else if digit == 4 {
        '4'
    } else if digit == 5 {
        '5'
    } else if digit == 6 {
        '6'
    } else if digit == 7 {
        '7'
    } else if digit == 8 {
        '8'
    } else {
        '9'
    }
}

/// `number` written in decimal, without leading zeros.
pub open spec fn decimal_text(number: nat) -> Seq<char>
    decreases number,
{
    if number < 10 {
        seq![digit_char(number)]
    } else {
        decimal_text(number / 10).push(digit_char(number % 10))
    }
}

/// The text of one digit.
fn digit_text(digit: u32) -> (text: &'static str)
    requires
        digit < 10,
    ensures
        text@ == seq![digit_char(digit as nat)],
{
    proof {
        reveal_strlit("0");
        reveal_strlit("1");
        reveal_strlit("2");
        reveal_strlit("3");
        reveal_strlit("4");
        reveal_strlit("5");
        reveal_strlit("6");
        reveal_strlit("7");
        reveal_strlit("8");
        reveal_strlit("9");
    }
    let text = if digit == 0 {
        "0"
    } else if digit == 1 {
        "1"
    } else if digit == 2 {
        "2"
    } else if digit == 3 {
        "3"
    } else if digit == 4 {
        "4"
    } else if digit == 5 {
        "5"
    } else if digit == 6 {
        "6"
    } else if digit == 7 {
        "7"
    } else if digit == 8 {
        "8"
    } else {
        "9"
    };
    assert(text@ =~= seq![digit_char(digit as nat)]);
    text
}

/// Writes `number` in decimal.
pub fn write_decimal(number: u32) -> (text: String)
    ensures
        text@ == decimal_text(number as nat),
    decreases number,
{
    if number < 10 {
        digit_text(number).to_string()
    } else {
        let mut text = write_decimal(number / 10);
        text.append(digit_text(number % 10));
        assert(text@ =~= decimal_text(number as nat));
        text
    }
}

} // verus!
