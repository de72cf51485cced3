//! Whole numbers as decimal text, read and written.

use crate::text::chars_of;
use vstd::prelude::*;

verus! {

/// Whether `c` is one of the ten ASCII digits.
pub open spec fn is_digit(c: char) -> bool {
    '0' <= c <= '9'
}

/// The number that the digit `c` stands for.
pub open spec fn digit_value(c: char) -> int {
    c as int - '0' as int
}

/// The character for the digit `d`.
pub open spec fn digit_char(d: int) -> char {
    (d + '0' as int) as char
}

/// Whether every character of `text` is a digit.
pub open spec fn all_digits(text: Seq<char>) -> bool {
    forall|i: int| 0 <= i < text.len() ==> is_digit(#[trigger] text[i])
}

/// The number that a run of digits reads as in base ten; leading zeros count
/// for nothing.
pub open spec fn digits_value(text: Seq<char>) -> int
    decreases text.len(),
{
    if text.len() == 0 {
        0
    } else {
        10 * digits_value(text.drop_last()) + digit_value(text.last())
    }
}

/// Whether `text` begins with a sign.
pub open spec fn has_sign(text: Seq<char>) -> bool {
    text.len() > 0 && (text[0] == '-' || text[0] == '+')
}

/// What follows the sign of `text`, or all of it where it has none.
pub open spec fn unsigned_part(text: Seq<char>) -> Seq<char> {
    if has_sign(text) {
        text.skip(1)
    } else {
        text
    }
}

/// The integer that `text` denotes: an optional `+` or `-`, then one digit or
/// more and nothing else. Any other text denotes none.
pub open spec fn parse_int(text: Seq<char>) -> Option<int> {
    let digits = unsigned_part(text);
    if digits.len() == 0 || !all_digits(digits) {
        None
    } else if text[0] == '-' {
        Some(-digits_value(digits))
    } else {
        Some(digits_value(digits))
    }
}

/// The integer that `text` denotes, where it fits in 32 bits with a sign.
pub open spec fn parse_i32_spec(text: Seq<char>) -> Option<i32> {
    match parse_int(text) {
        Some(v) if i32::MIN <= v <= i32::MAX => Some(v as i32),
        _ => None,
    }
}

/// The digits of `n` in base ten, without leading zeros.
pub open spec fn decimal(n: nat) -> Seq<char>
    decreases n,
{
    if n < 10 {
        seq![digit_char(n as int)]
    } else {
        decimal(n / 10).push(digit_char((n % 10) as int))
    }
}

/// The decimal text of `v`, with a `-` in front where it is negative.
pub open spec fn int_text(v: int) -> Seq<char> {
    if v < 0 {
        seq!['-'] + decimal((-v) as nat)
    } else {
        decimal(v as nat)
    }
}

/// A run of digits reads as no less than any of its beginnings.
pub proof fn lemma_digits_value_grows(text: Seq<char>, k: int)
    requires
        all_digits(text),
        0 <= k <= text.len(),
    ensures
        0 <= digits_value(text.take(k)) <= digits_value(text),
    decreases text.len() - k,
{
    lemma_digits_value_nonnegative(text.take(k));
    if k < text.len() {
        let longer = text.take(k + 1);
        assert(longer.drop_last() =~= text.take(k));
        lemma_digits_value_grows(text, k + 1);
    } else {
        assert(text.take(k) =~= text);
    }
}

/// A run of digits reads as a number that is not negative.
pub proof fn lemma_digits_value_nonnegative(text: Seq<char>)
    requires
        all_digits(text),
    ensures
        0 <= digits_value(text),
    decreases text.len(),
{
    if text.len() > 0 {
        lemma_digits_value_nonnegative(text.drop_last());
    }
}

/// The integer that `text` denotes, where it denotes one that fits.
pub fn parse_i32(text: &str) -> (parsed: Option<i32>)
    ensures
        parsed == parse_i32_spec(text@),
{
    let chars = chars_of(text);
    let n = chars.len();
    if n == 0 {
        return None;
    }
    let negative = chars[0] == '-';
    let start: usize = if chars[0] == '-' || chars[0] == '+' {
        1
    } else {
        0
    };
    if start == n {
        return None;
    }
    let ghost digits = unsigned_part(chars@);
    let mut value: i64 = 0;
    let mut i: usize = start;
    while i < n
        invariant
            start <= i <= n,
            n == chars.len(),
            digits == unsigned_part(text@),
            digits == chars@.skip(start as int),
            all_digits(digits.take(i - start)),
            value == digits_value(digits.take(i - start)),
            0 <= value <= 0x8000_0000,
        decreases n - i,
    {
        let c = chars[i];
        if c < '0' || c > '9' {
            assert(!is_digit(digits[i - start]));
            return None;
        }
        let d: i64 = (c as u32 - '0' as u32) as i64;
        value = value * 10 + d;
        i += 1;
        proof {
            let longer = digits.take(i - start);
            assert(longer.drop_last() =~= digits.take(i - 1 - start));
            assert(all_digits(longer));
        }
        if value > 0x8000_0000 {
            proof {
                if all_digits(digits) {
                    lemma_digits_value_grows(digits, i - start);
                }
            }
            return None;
        }
    }
    assert(digits.take(n - start) =~= digits);
    if negative {
        Some((-value) as i32)
    } else if value == 0x8000_0000 {
        None
    } else {
        Some(value as i32)
    }
}

/// The text of one digit.
fn digit_text(d: u8) -> (text: &'static str)
    requires
        d < 10,
    ensures
        text@ == seq![digit_char(d as int)],
{
    proof {
        reveal_strlit("0");
        reveal_strlit("1");
        reveal_strlit("2");
        reveal_strlit("3");
        reveal_strlit("4");
        reveal_strlit("5");
        reveal_strlit("6");
        reveal_strlit("7");
        reveal_strlit("8");
        reveal_strlit("9");
    }
    let text = match d {
        0 => "0",
        1 => "1",
        2 => "2",
        3 => "3",
        4 => "4",
        5 => "5",
        6 => "6",
        7 => "7",
        8 => "8",
        _ => "9",
    };
    text
}

/// The digits of `n` in base ten, without leading zeros.
pub fn decimal_text(n: u32) -> (text: String)
    ensures
        text@ == decimal(n as nat),
    decreases n,
{
    if n < 10 {
        String::from_str(digit_text(n as u8))
    } else {
        let mut text = decimal_text(n / 10);
        text.append(digit_text((n % 10) as u8));
        text
    }
}

/// The decimal text of `v`, with a `-` in front where it is negative.
pub fn i32_text(v: i32) -> (text: String)
    ensures
        text@ == int_text(v as int),
{
    if v < 0 {
        let digits = decimal_text((-(v as i64)) as u32);
        let mut text = String::from_str("-");
        text.append(digits.as_str());
        proof {
            reveal_strlit("-");
        }
        text
    } else {
        decimal_text(v as u32)
    }
}

} // verus!
