//! The capture time of a metadata file: epoch seconds, written as a decimal
//! number in a string.

use vstd::prelude::*;
use vstd::string::*;
use vstd::utf8::is_ascii_chars;

verus! {

/// The ASCII codes of the characters that a number is made of.
const MINUS: u8 = 45;

const PLUS: u8 = 43;

const ZERO: u8 = 48;

const NINE: u8 = 57;

/// Whether a character is one of the ten decimal digits.
pub open spec fn is_digit(c: char) -> bool {
    '0' <= c && c <= '9'
}

/// The number that a decimal digit stands for.
pub open spec fn digit_value(c: char) -> int {
    (c as int) - ('0' as int)
}

/// Whether a text is made of decimal digits only.
pub open spec fn all_digits(text: Seq<char>) -> bool {
    forall|i: int| 0 <= i < text.len() ==> is_digit(#[trigger] text[i])
}

/// The number that a run of decimal digits stands for.
pub open spec fn decimal_value(digits: Seq<char>) -> int
    decreases digits.len(),
{
    if digits.len() == 0 {
        0
    } else {
        10 * decimal_value(digits.drop_last()) + digit_value(digits.last())
    }
}

/// Whether a text begins with a sign.
pub open spec fn has_sign(text: Seq<char>) -> bool {
    text.len() > 0 && (text[0] == '-' || text[0] == '+')
}

/// The digits of a text: all of it but a leading sign.
pub open spec fn digits_of(text: Seq<char>) -> Seq<char> {
    if has_sign(text) {
        text.skip(1)
    } else {
        text
    }
}

/// The integer that a text stands for: an optional sign and then at least one
/// decimal digit, nothing before, between or after.
pub open spec fn signed_decimal(text: Seq<char>) -> Option<int> {
    let digits = digits_of(text);
    if digits.len() == 0 || !all_digits(digits) {
        None
    } else if text[0] == '-' {
        Some(-decimal_value(digits))
    } else {
        Some(decimal_value(digits))
    }
}

/// The epoch seconds that a text stands for, where it is a decimal integer
/// that fits in 64 bits.
pub open spec fn epoch_seconds(text: Seq<char>) -> Option<i64> {
    match signed_decimal(text) {
        Some(value) if i64::MIN <= value <= i64::MAX => Some(value as i64),
        _ => None,
    }
}

/// A run of digits stands for a number that is not negative.
pub proof fn lemma_decimal_value_bounds(digits: Seq<char>)
    requires
        all_digits(digits),
    ensures
        0 <= decimal_value(digits),
    decreases digits.len(),
{
    if digits.len() > 0 {
        lemma_decimal_value_bounds(digits.drop_last());
        assert(is_digit(digits[digits.len() - 1]));
    }
}

/// A run of digits stands for no less than any run it begins with.
pub proof fn lemma_decimal_value_grows(digits: Seq<char>, k: int)
    requires
        all_digits(digits),
        0 <= k <= digits.len(),
    ensures
        decimal_value(digits.take(k)) <= decimal_value(digits),
    decreases digits.len(),
{
    if k == digits.len() {
        assert(digits.take(k) =~= digits);
    } else {
        let shorter = digits.drop_last();
        lemma_decimal_value_grows(shorter, k);
        lemma_decimal_value_bounds(shorter);
        assert(shorter.take(k) =~= digits.take(k));
        assert(is_digit(digits[digits.len() - 1]));
    }
}

/// A text with a character outside ASCII stands for no number.
pub proof fn lemma_number_is_ascii(text: Seq<char>)
    requires
        !is_ascii_chars(text),
    ensures
        signed_decimal(text) is None,
{
    let at = choose|i: int| 0 <= i < text.len() && !('\0' <= #[trigger] text[i] <= '\u{7f}');
    let digits = digits_of(text);
    if has_sign(text) {
        assert(!is_digit(digits[at - 1]));
    } else {
        assert(!is_digit(digits[at]));
    }
}

/// Reads the epoch seconds of a capture time.
///
/// Accepts an optional `+` or `-` and then decimal digits, as long as the
/// number fits in 64 bits; rejects everything else, an empty text and a lone
/// sign included.
pub fn parse_timestamp(text: &str) -> (seconds: Option<i64>)
    ensures
        seconds == epoch_seconds(text@),
{
    if !text.is_ascii() {
        proof {
            lemma_number_is_ascii(text@);
        }
        return None;
    }
    let bytes: &[u8] = text.as_bytes();
    let n: usize = bytes.len();
    proof {
        is_ascii_spec_bytes(text);
    }
    assert(bytes@ =~= Seq::new(text@.len(), |k: int| text@[k] as u8));
    if n == 0 {
        return None;
    }
    let first: u8 = bytes[0];
    let negative: bool = first == MINUS;
    let start: usize = if first == MINUS || first == PLUS {
        1
    } else {
        0
    };
    if start == n {
        return None;
    }
    let limit: u64 = if negative {
        9223372036854775808
    } else {
        9223372036854775807
    };
    let ghost digits = digits_of(text@);
    assert(digits =~= text@.skip(start as int));
    let mut magnitude: u64 = 0;
    let mut i: usize = start;
    assert(digits.take(0).len() == 0);
    while i < n
        invariant
            start <= i <= n,
            n == text@.len(),
            is_ascii_chars(text@),
            bytes@ == Seq::new(text@.len(), |k: int| text@[k] as u8),
            digits == text@.skip(start as int),
            digits == digits_of(text@),
            negative == (text@[0] == '-'),
            limit == if negative {
                9223372036854775808u64
            } else {
                9223372036854775807u64
            },
            all_digits(digits.take(i - start)),
            magnitude == decimal_value(digits.take(i - start)),
            magnitude <= limit,
        decreases n - i,
    {
        let byte: u8 = bytes[i];
        let ghost c = text@[i as int];
        assert(c as int == byte as int);
        if !(ZERO <= byte && byte <= NINE) {
            assert(!is_digit(digits[i - start]));
            return None;
        }
        let digit: u64 = (byte - ZERO) as u64;
        let ghost longer = digits.take(i - start + 1);
        assert(longer.drop_last() =~= digits.take(i - start));
        assert(longer.last() == c);
        assert(decimal_value(longer) == 10 * magnitude + digit);
        assert(all_digits(longer)) by {
            assert forall|j: int| 0 <= j < longer.len() implies is_digit(#[trigger] longer[j]) by {
                if j < i - start {
                    assert(longer[j] == digits.take(i - start)[j]);
                }
            }
        }
        if magnitude > (limit - digit) / 10 {
            proof {
                if all_digits(digits) {
                    lemma_decimal_value_grows(digits, i - start + 1);
                }
            }
            return None;
        }
        magnitude = magnitude * 10 + digit;
        i += 1;
    }
    assert(digits.take(n - start) =~= digits);
    if negative {
        if magnitude == 9223372036854775808 {
            Some(i64::MIN)
        } else {
            Some(-(magnitude as i64))
        }
    } else {
        Some(magnitude as i64)
    }
}

} // verus!
