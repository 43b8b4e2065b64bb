//! Unsigned decimal numbers as text: reading them and writing them.

use vstd::prelude::*;
use vstd::string::*;

verus! {

/// Why a text is not read as a number.
#[derive(Debug, Clone, Copy, PartialEq, Eq, Structural)]
pub enum NumberError {
    /// The text is empty.
    Empty,
    /// The text holds something that is no digit, or no digit at all.
    InvalidDigit,
    /// The number is too large.
    Overflow,
}

/// Whether a character is a decimal digit.
pub open spec fn is_digit(c: char) -> bool {
    '0' <= c <= '9'
}

/// The value of a decimal digit.
pub open spec fn digit_value(c: char) -> nat {
    (c as u32 - 48) as nat
}

/// The character of a value below ten.
pub open spec fn digit_char(d: nat) -> char {
    ((d + 48) as u8) as char
}

/// The number that digits spell, read from left to right, with the largest
/// number that is accepted. Reading stops at the first character that is no
/// digit or that makes the number too large, whichever comes first.
pub open spec fn scanned(digits: Seq<char>, max: nat) -> Result<nat, NumberError>
    decreases digits.len(),
{
    if digits.len() == 0 {
        Ok(0)
    } else {
        match scanned(digits.drop_last(), max) {
            Err(error) => Err(error),
            Ok(value) => {
                if !is_digit(digits.last()) {
                    Err(NumberError::InvalidDigit)
                } else if value * 10 + digit_value(digits.last()) > max {
                    Err(NumberError::Overflow)
                } else {
                    Ok(value * 10 + digit_value(digits.last()))
                }
            },
        }
    }
}

/// The text without one plus sign at its front, where more follows the sign.
pub open spec fn unsigned_digits(text: Seq<char>) -> Seq<char> {
    if text.len() > 1 && text[0] == '+' {
        text.skip(1)
    } else {
        text
    }
}

/// The unsigned number that a text spells: an optional plus sign, then at
/// least one digit, and nothing else.
pub open spec fn parsed(text: Seq<char>, max: nat) -> Result<nat, NumberError> {
    if text.len() == 0 {
        Err(NumberError::Empty)
    } else if text.len() == 1 && (text[0] == '+' || text[0] == '-') {
        Err(NumberError::InvalidDigit)
    } else {
        scanned(unsigned_digits(text), max)
    }
}

/// The decimal digits of a number, without leading zeros.
pub open spec fn decimal(n: nat) -> Seq<char>
    decreases n,
{
    if n < 10 {
        seq![digit_char(n)]
    } else {
        decimal(n / 10).push(digit_char(n % 10))
    }
}

impl NumberError {
    /// The text that describes the error.
    pub open spec fn message(self) -> Seq<char> {
        match self {
            NumberError::Empty => "cannot parse integer from empty string"@,
            NumberError::InvalidDigit => "invalid digit found in string"@,
            NumberError::Overflow => "number too large to fit in target type"@,
        }
    }

    /// The text that describes the error.
    pub fn message_text(&self) -> (text: &'static str)
        ensures
            text@ == self.message(),
    {
        match self {
            NumberError::Empty => "cannot parse integer from empty string",
            NumberError::InvalidDigit => "invalid digit found in string",
            NumberError::Overflow => "number too large to fit in target type",
        }
    }
}

/// Where the first part of the digits fails, the whole fails in the same
/// way.
proof fn lemma_scan_fails_early(digits: Seq<char>, n: int, max: nat)
    requires
        0 <= n <= digits.len(),
        scanned(digits.take(n), max) is Err,
    ensures
        scanned(digits, max) == scanned(digits.take(n), max),
    decreases digits.len() - n,
{
    if n < digits.len() {
        assert(digits.take(n + 1).drop_last() =~= digits.take(n));
        lemma_scan_fails_early(digits, n + 1, max);
    } else {
        assert(digits.take(n) =~= digits);
    }
}

/// Reads an unsigned decimal number that is at most `max`.
pub fn parse_unsigned(text: &str, max: u32) -> (result: Result<u32, NumberError>)
    ensures
        match parsed(text@, max as nat) {
            Ok(value) => result == Ok::<u32, NumberError>(value as u32) && value <= max,
            Err(error) => result == Err::<u32, NumberError>(error),
        },
{
    let len = text.unicode_len();
    if len == 0 {
        return Err(NumberError::Empty);
    }
    let first = text.get_char(0);
    if len == 1 && (first == '+' || first == '-') {
        return Err(NumberError::InvalidDigit);
    }
    let start: usize = if len > 1 && first == '+' {
        1
    } else {
        0
    };
    let ghost digits = unsigned_digits(text@);
    let mut value: u64 = 0;
    let mut i: usize = start;
    assert(digits.take(0) =~= Seq::<char>::empty());
    while i < len
        invariant
            start <= i <= len,
            len == text@.len(),
            digits == unsigned_digits(text@),
            digits.len() == len - start,
            forall|k: int| 0 <= k < digits.len() ==> digits[k] == text@[k + start],
            scanned(digits.take(i - start), max as nat) == Ok::<nat, NumberError>(value as nat),
            value <= max,
        decreases len - i,
    {
        let c = text.get_char(i);
        proof {
            assert(digits.take(i - start + 1).drop_last() =~= digits.take(i - start));
            assert(digits.take(i - start + 1).last() == c);
        }
        if !(c >= '0' && c <= '9') {
            proof {
                lemma_scan_fails_early(digits, i - start + 1, max as nat);
            }
            return Err(NumberError::InvalidDigit);
        }
        let digit: u64 = (c as u32 - 48) as u64;
        let next: u64 = value * 10 + digit;
        if next > max as u64 {
            proof {
                lemma_scan_fails_early(digits, i - start + 1, max as nat);
            }
            return Err(NumberError::Overflow);
        }
        value = next;
        i = i + 1;
    }
    assert(digits.take(i - start) =~= digits);
    Ok(value as u32)
}

/// The text of a digit.
fn digit_text(d: u32) -> (text: &'static str)
    requires
        d < 10,
    ensures
        text@ == seq![digit_char(d as nat)],
{
    proof {
        reveal_strlit("0");
        reveal_strlit("1");
        reveal_strlit("2");
        reveal_strlit("3");
        reveal_strlit("4");
        reveal_strlit("5");
        reveal_strlit("6");
        reveal_strlit("7");
        reveal_strlit("8");
        reveal_strlit("9");
    }
    let text = if d == 0 {
        "0"
    } else if d == 1 {
        "1"
    } else if d == 2 {
        "2"
    } else if d == 3 {
        "3"
    } else if d == 4 {
        "4"
    } else if d == 5 {
        "5"
    } else if d == 6 {
        "6"
    } else if d == 7 {
        "7"
    } else if d == 8 {
        "8"
    } else {
        "9"
    };
    assert(text@ =~= seq![digit_char(d as nat)]);
    text
}

/// Appends the decimal digits of a number to a text.
pub fn push_decimal(text: &mut String, n: u32)
    ensures
        final(text)@ == old(text)@ + decimal(n as nat),
    decreases n,
{
    if n >= 10 {
        push_decimal(text, n / 10);
    }
    text.append(digit_text(n % 10));
    proof {
        if n >= 10 {
            assert(old(text)@ + decimal(n as nat / 10) + seq![digit_char(n as nat % 10)] =~= old(
                text,
            )@ + decimal(n as nat));
        } else {
            assert(digit_char(n as nat % 10) == digit_char(n as nat));
        }
    }
}

/// The decimal digits of a number are digits, at least one of them, and
/// they spell the number.
pub proof fn lemma_decimal_is_scanned(n: nat, max: nat)
    requires
        n <= max,
    ensures
        decimal(n).len() >= 1,
        forall|i: int| 0 <= i < decimal(n).len() ==> is_digit(#[trigger] decimal(n)[i]),
        scanned(decimal(n), max) == Ok::<nat, NumberError>(n),
    decreases n,
{
    let digits = decimal(n);
    if n < 10 {
        assert(digits.drop_last() =~= Seq::<char>::empty());
        assert(digits.last() == digit_char(n));
    } else {
        lemma_decimal_is_scanned(n / 10, max);
        assert(digits.drop_last() =~= decimal(n / 10));
        assert(digits.last() == digit_char(n % 10));
    }
}

/// A number that is written in decimal is read back as the same number.
pub proof fn law_decimal_round_trip(n: nat, max: nat)
    requires
        n <= max,
    ensures
        parsed(decimal(n), max) == Ok::<nat, NumberError>(n),
{
    lemma_decimal_is_scanned(n, max);
    assert(is_digit(decimal(n)[0]));
}

} // verus!
