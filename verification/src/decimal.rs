//! Decimal notation for unsigned integers: rendering a number as its digits
//! and reading a number back from text.

use vstd::prelude::*;

verus! {

/// The character that denotes the decimal digit `d`.
pub open spec fn digit_char(d: nat) -> char
    recommends
        d < 10,
{
    (d + 48) as char
}

/// Whether `c` is one of the ten ASCII decimal digits.
pub open spec fn is_digit(c: char) -> bool {
    '0' <= c <= '9'
}

/// The number a decimal digit denotes.
pub open spec fn digit_value(c: char) -> nat
    recommends
        is_digit(c),
{
    (c as nat - 48) as nat
}

/// Whether every character of `s` is a decimal digit.
pub open spec fn all_digits(s: Seq<char>) -> bool {
    forall|i: int| 0 <= i < s.len() ==> is_digit(#[trigger] s[i])
}

/// The shortest decimal notation of `n`: no sign, no leading zero except
/// for zero itself.
pub open spec fn decimal_digits(n: nat) -> Seq<char>
    decreases n,
{
    if n < 10 {
        seq![digit_char(n)]
    } else {
        decimal_digits(n / 10).push(digit_char(n % 10))
    }
}

/// The number that a sequence of decimal digits denotes, most significant
/// digit first. The empty sequence denotes zero.
pub open spec fn decimal_value(s: Seq<char>) -> nat
    decreases s.len(),
{
    if s.len() == 0 {
        0
    } else {
        decimal_value(s.drop_last()) * 10 + digit_value(s.last())
    }
}

/// The text after an optional leading plus sign.
pub open spec fn without_plus(s: Seq<char>) -> Seq<char> {
    if s.len() > 0 && s[0] == '+' {
        s.skip(1)
    } else {
        s
    }
}

/// Whether `s` is the decimal notation of a 64-bit unsigned integer: an
/// optional plus sign, then one or more decimal digits whose value does not
/// exceed `u64::MAX`. Leading zeros are accepted.
pub open spec fn is_u64_text(s: Seq<char>) -> bool {
    let digits = without_plus(s);
    &&& digits.len() > 0
    &&& all_digits(digits)
    &&& decimal_value(digits) <= u64::MAX
}

/// The number that `s` denotes, if it is the notation of a 64-bit unsigned
/// integer.
pub open spec fn parsed_u64(s: Seq<char>) -> Option<u64> {
    if is_u64_text(s) {
        Some(decimal_value(without_plus(s)) as u64)
    } else {
        None
    }
}

/// The digits of a number are digits, and at least one.
pub proof fn lemma_decimal_digits_are_digits(n: nat)
    ensures
        decimal_digits(n).len() > 0,
        all_digits(decimal_digits(n)),
    decreases n,
{
    if n >= 10 {
        lemma_decimal_digits_are_digits(n / 10);
    }
}

/// The digits of a number denote the number.
proof fn lemma_decimal_value_of_digits(n: nat)
    ensures
        decimal_value(decimal_digits(n)) == n,
    decreases n,
{
    if n < 10 {
        assert(decimal_value(decimal_digits(n).drop_last()) == 0);
    } else {
        lemma_decimal_value_of_digits(n / 10);
        assert(decimal_digits(n).drop_last() =~= decimal_digits(n / 10));
    }
}

/// Reading the decimal notation of a number gives the number back.
pub proof fn lemma_parse_round_trip(n: u64)
    ensures
        parsed_u64(decimal_digits(n as nat)) == Some(n),
{
    lemma_decimal_digits_are_digits(n as nat);
    lemma_decimal_value_of_digits(n as nat);
}

/// A sequence of digits denotes at least as much as any of its prefixes.
pub proof fn lemma_decimal_value_prefix(s: Seq<char>, k: int)
    requires
        0 <= k <= s.len(),
    ensures
        decimal_value(s.take(k)) <= decimal_value(s),
    decreases s.len() - k,
{
    if k == s.len() {
        assert(s.take(k) =~= s);
    } else {
        lemma_decimal_value_prefix(s, k + 1);
        assert(s.take(k + 1).drop_last() =~= s.take(k));
    }
}

/// The one-character text of a decimal digit.
fn digit_text(d: u64) -> (text: &'static str)
    requires
        d < 10,
    ensures
        text@ == seq![digit_char(d as nat)],
{
    proof {
        reveal_strlit("0");
        reveal_strlit("1");
        reveal_strlit("2");
        reveal_strlit("3");
        reveal_strlit("4");
        reveal_strlit("5");
        reveal_strlit("6");
        reveal_strlit("7");
        reveal_strlit("8");
        reveal_strlit("9");
    }
    let text = match d {
        0 => "0",
        1 => "1",
        2 => "2",
        3 => "3",
        4 => "4",
        5 => "5",
        6 => "6",
        7 => "7",
        8 => "8",
        _ => "9",
    };
    text
}

/// Renders `n` in decimal notation.
pub fn decimal_text(n: u64) -> (text: String)
    ensures
        text@ == decimal_digits(n as nat),
    decreases n,
{
    if n < 10 {
        String::from_str(digit_text(n))
    } else {
        let mut text = decimal_text(n / 10);
        text.append(digit_text(n % 10));
        text
    }
}

/// A text with a character outside ASCII is not the notation of a number.
proof fn lemma_non_ascii_is_not_u64_text(s: Seq<char>)
    requires
        !vstd::utf8::is_ascii_chars(s),
    ensures
        !is_u64_text(s),
{
    let i = choose|i: int| 0 <= i < s.len() && !('\0' <= #[trigger] s[i] <= '\u{7f}');
    let digits = without_plus(s);
    if digits.len() < s.len() {
        assert(!is_digit(digits[i - 1]));
    }
}

/// Reads a 64-bit unsigned integer from its decimal notation: an optional
/// plus sign followed by one or more digits. Anything else, and any value
/// above `u64::MAX`, is rejected.
pub fn parse_u64(s: &str) -> (number: Option<u64>)
    ensures
        number == parsed_u64(s@),
{
    if !s.is_ascii() {
        proof {
            lemma_non_ascii_is_not_u64_text(s@);
        }
        return None;
    }
    proof {
        vstd::string::is_ascii_spec_bytes(s);
    }
    let bytes = s.as_bytes();
    let n: usize = bytes.len();
    let start: usize = if n > 0 && bytes[0] == 43u8 {
        1
    } else {
        0
    };
    let ghost digits = without_plus(s@);
    if start == n {
        return None;
    }
    let mut value: u64 = 0;
    let mut i: usize = start;
    while i < n
        invariant
            start <= i <= n,
            n == s@.len(),
            n == bytes@.len(),
            start < n,
            digits == without_plus(s@),
            digits == s@.skip(start as int),
            vstd::utf8::is_ascii_chars(s@),
            forall|k: int| 0 <= k < n ==> bytes@[k] == s@[k] as u8,
            all_digits(digits.take(i - start)),
            value == decimal_value(digits.take(i - start)),
        decreases n - i,
    {
        let b: u8 = bytes[i];
        assert(digits[i - start] == s@[i as int]);
        assert(digits.take(i - start + 1).drop_last() =~= digits.take(i - start));
        if b < 48 || b > 57 {
            return None;
        }
        let d: u64 = (b - 48) as u64;
        if value > (u64::MAX - d) / 10 {
            proof {
                if all_digits(digits) {
                    lemma_decimal_value_prefix(digits, i - start + 1);
                }
            }
            return None;
        }
        value = value * 10 + d;
        i = i + 1;
    }
    assert(digits.take(i - start) =~= digits);
    Some(value)
}

} // verus!
