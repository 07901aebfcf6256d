//! Decimal numbers as text.

use vstd::prelude::*;
use vstd::string::*;

verus! {

/// `c` is one of the digits `0` to `9`.
pub open spec fn is_digit(c: char) -> bool {
    '0' <= c <= '9'
}

/// Every character of `s` is a digit.
pub open spec fn all_digits(s: Seq<char>) -> bool {
    forall|i: int| 0 <= i < s.len() ==> is_digit(#[trigger] s[i])
}

/// The number that the digits of `s` write in base ten.
pub open spec fn digits_value(s: Seq<char>) -> int
    decreases s.len(),
{
    if s.len() == 0 {
        0
    } else {
        digits_value(s.drop_last()) * 10 + (s.last() as int - '0' as int)
    }
}

/// The part of `s` behind its sign, if it starts with one.
pub open spec fn unsigned_part(s: Seq<char>) -> Seq<char> {
    if s.len() > 0 && (s[0] == '-' || s[0] == '+') {
        s.subrange(1, s.len() as int)
    } else {
        s
    }
}

/// The 32-bit integer that `s` writes: an optional sign, `+` or `-`, and
/// then one digit or more, nothing else, with a value in range. `None` for
/// every other text.
pub open spec fn spec_parse_i32(s: Seq<char>) -> Option<int> {
    let digits = unsigned_part(s);
    let magnitude = digits_value(digits);
    let value = if s.len() > 0 && s[0] == '-' {
        -magnitude
    } else {
        magnitude
    };
    if digits.len() > 0 && all_digits(digits) && i32::MIN <= value <= i32::MAX {
        Some(value)
    } else {
        None
    }
}

/// Digits write a number that is not negative and does not shrink when
/// more digits follow.
pub proof fn lemma_digits_value_grows(s: Seq<char>, k: int)
    requires
        all_digits(s),
        0 <= k <= s.len(),
    ensures
        0 <= digits_value(s.subrange(0, k)) <= digits_value(s),
    decreases s.len() - k,
{
    if k == s.len() {
        assert(s.subrange(0, k) =~= s);
        lemma_digits_value_nonnegative(s);
    } else {
        lemma_digits_value_grows(s, k + 1);
        let longer = s.subrange(0, k + 1);
        assert(longer.drop_last() =~= s.subrange(0, k));
        lemma_digits_value_nonnegative_prefix(s, k);
    }
}

proof fn lemma_digits_value_nonnegative(s: Seq<char>)
    requires
        all_digits(s),
    ensures
        0 <= digits_value(s),
    decreases s.len(),
{
    if s.len() > 0 {
        lemma_digits_value_nonnegative(s.drop_last());
    }
}

proof fn lemma_digits_value_nonnegative_prefix(s: Seq<char>, k: int)
    requires
        all_digits(s),
        0 <= k <= s.len(),
    ensures
        0 <= digits_value(s.subrange(0, k)),
{
    lemma_digits_value_nonnegative(s.subrange(0, k));
}

/// A text with a character outside ASCII writes no number.
proof fn lemma_not_ascii_not_a_number(s: Seq<char>)
    requires
        !vstd::utf8::is_ascii_chars(s),
    ensures
        spec_parse_i32(s) is None,
{
    let bad = choose|i: int| 0 <= i < s.len() && !('\0' <= #[trigger] s[i] <= '\u{7f}');
    let digits = unsigned_part(s);
    lemma_ascii_codes();
    if digits.len() != s.len() {
        assert(!is_digit(digits[bad - 1]));
    }
}

/// The codes of the characters that a number is written with.
proof fn lemma_ascii_codes()
    ensures
        '-' as int == 45,
        '+' as int == 43,
        '0' as int == 48,
        '9' as int == 57,
        '\u{7f}' as int == 127,
        '\0' as int == 0,
{
}

/// An ASCII character is known by its code.
proof fn lemma_ascii_char_of_code(c: char)
    requires
        c as int <= 127,
    ensures
        (c as u8) as int == c as int,
{
}

/// Reads a 32-bit integer from `text`, as `str::parse::<i32>` does.
pub fn parse_i32(text: &str) -> (parsed: Option<i32>)
    ensures
        match parsed {
            Some(v) => spec_parse_i32(text@) == Some(v as int),
            None => spec_parse_i32(text@) is None,
        },
{
    if !text.is_ascii() {
        proof {
            lemma_not_ascii_not_a_number(text@);
        }
        return None;
    }
    let bytes = text.as_bytes();
    let n: usize = bytes.len();
    let ghost digits = unsigned_part(text@);
    proof {
        is_ascii_spec_bytes(text);
    }
    if n == 0 {
        return None;
    }
    let first: u8 = bytes[0];
    let negative: bool = first == 45;
    let start: usize = if negative || first == 43 {
        1
    } else {
        0
    };
    proof {
        lemma_ascii_codes();
        lemma_ascii_char_of_code(text@[0]);
    }
    if start == n {
        return None;
    }
    let mut magnitude: i64 = 0;
    let mut i: usize = start;
    while i < n
        invariant
            n == text@.len(),
            bytes@ == Seq::new(text@.len(), |k: int| text@[k] as u8),
            start <= i <= n,
            vstd::utf8::is_ascii_chars(text@),
            digits == text@.subrange(start as int, n as int),
            digits == unsigned_part(text@),
            negative == (text@[0] == '-'),
            all_digits(digits.subrange(0, i - start)),
            magnitude == digits_value(digits.subrange(0, i - start)),
            0 <= magnitude <= 2147483648,
        decreases n - i,
    {
        let byte: u8 = bytes[i];
        proof {
            lemma_ascii_codes();
            lemma_ascii_char_of_code(text@[i as int]);
        }
        if byte < 48 || byte > 57 {
            assert(!is_digit(digits[i - start]));
            return None;
        }
        let ghost shorter = digits.subrange(0, i - start);
        let ghost longer = digits.subrange(0, i - start + 1);
        assert(longer.drop_last() =~= shorter);
        assert(all_digits(longer));
        magnitude = magnitude * 10 + (byte - 48) as i64;
        if magnitude > 2147483648 {
            proof {
                if all_digits(digits) {
                    lemma_digits_value_grows(digits, i - start + 1);
                }
            }
            return None;
        }
        i = i + 1;
    }
    assert(digits.subrange(0, i - start) =~= digits);
    let value: i64 = if negative {
        -magnitude
    } else {
        magnitude
    };
    if value > 2147483647 {
        None
    } else {
        Some(value as i32)
    }
}

/// The character that writes the digit `d`.
pub open spec fn digit_char(d: int) -> char {
    if d == 0 {
        '0'
    } else if d == 1 {
        '1'
    } else if d == 2 {
        '2'
    } else if d == 3 {
        '3'
    } else if d == 4 {
        '4'
    } else if d == 5 {
        '5'
    } else if d == 6 {
        '6'
    } else if d == 7 {
        '7'
    } else if d == 8 {
        '8'
    } else {
        '9'
    }
}

/// The digits of `n` in base ten, the most significant first, without
/// leading zeros.
pub open spec fn decimal_digits(n: nat) -> Seq<char>
    decreases n,
{
    if n < 10 {
        seq![digit_char(n as int)]
    } else {
        decimal_digits(n / 10).push(digit_char((n % 10) as int))
    }
}

/// `value` written in base ten, with `-` in front where it is negative.
pub open spec fn spec_decimal_text(value: int) -> Seq<char> {
    if value < 0 {
        seq!['-'] + decimal_digits((-value) as nat)
    } else {
        decimal_digits(value as nat)
    }
}

/// The text of one digit.
fn digit_text(d: u32) -> (text: &'static str)
    requires
        d < 10,
    ensures
        text@ == seq![digit_char(d as int)],
{
    proof {
        reveal_strlit("0");
        reveal_strlit("1");
        reveal_strlit("2");
        reveal_strlit("3");
        reveal_strlit("4");
        reveal_strlit("5");
        reveal_strlit("6");
        reveal_strlit("7");
        reveal_strlit("8");
        reveal_strlit("9");
    }
    let text = if d == 0 {
        "0"
    } else if d == 1 {
        "1"
    } else if d == 2 {
        "2"
    } else if d == 3 {
        "3"
    } else if d == 4 {
        "4"
    } else if d == 5 {
        "5"
    } else if d == 6 {
        "6"
    } else if d == 7 {
        "7"
    } else if d == 8 {
        "8"
    } else {
        "9"
    };
    text
}

/// Appends the digits of `n` to `out`.
fn push_decimal(out: &mut String, n: u32)
    ensures
        final(out)@ == old(out)@ + decimal_digits(n as nat),
    decreases n,
{
    if n >= 10 {
        push_decimal(out, n / 10);
    }
    out.append(digit_text(n % 10));
}

/// Writes `value` in base ten.
pub fn decimal_text(value: i32) -> (text: String)
    ensures
        text@ == spec_decimal_text(value as int),
{
    let mut text = String::new();
    if value < 0 {
        proof {
            reveal_strlit("-");
        }
        text.append("-");
        let magnitude: i64 = -(value as i64);
        push_decimal(&mut text, magnitude as u32);
    } else {
        push_decimal(&mut text, value as u32);
    }
    text
}

} // verus!
