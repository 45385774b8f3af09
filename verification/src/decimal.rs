//! Base-10 signed integers written as text.
//!
//! The accepted texts are an optional sign (`+` or `-`) followed by one or
//! more ASCII digits and nothing else: no spaces, no separators, no fraction.

use vstd::prelude::*;
use vstd::string::StringExecFns;

verus! {

/// Whether `c` is one of the ASCII digits `0` to `9`.
pub open spec fn is_digit(c: char) -> bool {
    '0' <= c && c <= '9'
}

/// The value of the ASCII digit `c`.
pub open spec fn digit_of(c: char) -> int {
    c as int - '0' as int
}

/// Whether every character of `s` is an ASCII digit.
pub open spec fn all_digits(s: Seq<char>) -> bool {
    forall|i: int| 0 <= i < s.len() ==> is_digit(#[trigger] s[i])
}

/// The number that a run of digits denotes in base 10; the empty run
/// denotes zero.
pub open spec fn digits_value(s: Seq<char>) -> int
    decreases s.len(),
{
    if s.len() == 0 {
        0
    } else {
        10 * digits_value(s.drop_last()) + digit_of(s.last())
    }
}

/// The digits of `s`, that is `s` without its sign if it has one.
pub open spec fn unsigned_part(s: Seq<char>) -> Seq<char> {
    if s.len() > 0 && (s[0] == '-' || s[0] == '+') {
        s.subrange(1, s.len() as int)
    } else {
        s
    }
}

/// The integer that the text `s` denotes, if `s` is a sign-and-digits text.
pub open spec fn decimal_value(s: Seq<char>) -> Option<int> {
    let body = unsigned_part(s);
    if body.len() == 0 || !all_digits(body) {
        None
    } else if s[0] == '-' {
        Some(-digits_value(body))
    } else {
        Some(digits_value(body))
    }
}

/// The signed 64-bit integer that the text `s` denotes, if it denotes an
/// integer and that integer is in range.
pub open spec fn decimal_i64(s: Seq<char>) -> Option<i64> {
    match decimal_value(s) {
        Some(n) => if i64::MIN <= n <= i64::MAX {
            Some(n as i64)
        } else {
            None
        },
        None => None,
    }
}

/// A run of digits denotes at least as much as any of its prefixes.
pub proof fn lemma_digits_value_grows(s: Seq<char>, k: int)
    requires
        all_digits(s),
        0 <= k <= s.len(),
    ensures
        0 <= digits_value(s.take(k)) <= digits_value(s),
    decreases s.len() - k,
{
    if k == s.len() {
        assert(s.take(k) =~= s);
        lemma_digits_value_nonnegative(s);
    } else {
        lemma_digits_value_grows(s, k + 1);
        let longer = s.take(k + 1);
        assert(longer.drop_last() =~= s.take(k));
        assert(is_digit(s[k]));
        assert(longer.last() == s[k]);
        lemma_digits_value_nonnegative(s.take(k));
    }
}

/// A run of digits never denotes a negative number.
pub proof fn lemma_digits_value_nonnegative(s: Seq<char>)
    requires
        all_digits(s),
    ensures
        0 <= digits_value(s),
    decreases s.len(),
{
    if s.len() > 0 {
        lemma_digits_value_nonnegative(s.drop_last());
        assert(is_digit(s[s.len() - 1]));
    }
}

/// Reads a sign-and-digits text as a signed 64-bit integer.
///
/// Returns `None` when the text is empty, holds anything but an optional
/// sign followed by digits, or denotes an integer out of range.
pub fn parse_i64(text: &str) -> (parsed: Option<i64>)
    ensures
        parsed == decimal_i64(text@),
{
    let mut negative = false;
    let mut signed = false;
    let mut any_digit = false;
    let mut magnitude: u64 = 0;
    for c in it: text.chars()
        invariant
            it.seq() == text@,
            signed ==> it.index() >= 1 && (text@[0] == '-' || text@[0] == '+'),
            !signed && it.index() >= 1 ==> text@[0] != '-' && text@[0] != '+',
            negative <==> signed && text@[0] == '-',
            any_digit <==> it.index() > sign_length(signed),
            all_digits(text@.subrange(sign_length(signed), it.index() as int)) || !any_digit,
            any_digit ==> magnitude == digits_value(
                text@.subrange(sign_length(signed), it.index() as int),
            ),
            !any_digit ==> magnitude == 0,
            magnitude <= 0x8000_0000_0000_0000,
    {
        let ghost at = it.index() as int;
        if !signed && !any_digit && (c == '-' || c == '+') {
            negative = c == '-';
            signed = true;
        } else if '0' <= c && c <= '9' {
            let digit: u64 = (c as u32 - '0' as u32) as u64;
            let next: u128 = magnitude as u128 * 10 + digit as u128;
            proof {
                let from = sign_length(signed);
                let before = text@.subrange(from, at);
                let after = text@.subrange(from, at + 1);
                assert(after.drop_last() =~= before);
                assert(after.last() == c);
                assert(all_digits(before)) by {
                    if !any_digit {
                        assert(before =~= Seq::<char>::empty());
                    }
                }
                assert(magnitude == digits_value(before));
                assert(digit == digit_of(c));
                assert(all_digits(after));
                assert(next == digits_value(after));
            }
            if next > 0x8000_0000_0000_0000 {
                proof {
                    lemma_out_of_range(text@, sign_length(signed), at + 1);
                }
                return None;
            }
            magnitude = next as u64;
            any_digit = true;
        } else {
            proof {
                let body = unsigned_part(text@);
                assert(body[at - sign_length(signed)] == c);
            }
            return None;
        }
    }
    proof {
        assert(text@.subrange(sign_length(signed), text@.len() as int) =~= unsigned_part(text@));
    }
    if !any_digit {
        None
    } else if negative {
        if magnitude == 0x8000_0000_0000_0000 {
            Some(i64::MIN)
        } else {
            Some(-(magnitude as i64))
        }
    } else if magnitude == 0x8000_0000_0000_0000 {
        None
    } else {
        Some(magnitude as i64)
    }
}

/// How many characters a sign takes: one if there is a sign, else none.
pub open spec fn sign_length(signed: bool) -> int {
    if signed {
        1
    } else {
        0
    }
}

/// A text whose digits already exceed 2^63 after `upto` characters denotes
/// no signed 64-bit integer, whatever follows.
proof fn lemma_out_of_range(s: Seq<char>, start: int, upto: int)
    requires
        0 <= start <= 1,
        start < upto <= s.len(),
        start == 1 <==> (s[0] == '-' || s[0] == '+'),
        all_digits(s.subrange(start, upto)),
        digits_value(s.subrange(start, upto)) > 0x8000_0000_0000_0000,
    ensures
        decimal_i64(s) is None,
{
    let body = unsigned_part(s);
    assert(body =~= s.subrange(start, s.len() as int));
    if all_digits(body) {
        lemma_digits_value_grows(body, upto - start);
        assert(body.take(upto - start) =~= s.subrange(start, upto));
    }
}

/// The character of a digit value: `'0'` for 0 up to `'9'` for 9.
pub open spec fn digit_char(value: int) -> char
    recommends
        0 <= value <= 9,
{
    if value == 0 {
        '0'
    } else if value == 1 {
        '1'
    } else if value == 2 {
        '2'
    } else if value == 3 {
        '3'
    } else if value == 4 {
        '4'
    } else if value == 5 {
        '5'
    } else if value == 6 {
        '6'
    } else if value == 7 {
        '7'
    } else if value == 8 {
        '8'
    } else {
        '9'
    }
}

/// The digits of a natural number in base 10, without leading zeros; zero
/// is written `0`.
pub open spec fn digits_text(n: nat) -> Seq<char>
    decreases n,
{
    if n < 10 {
        seq![digit_char(n as int)]
    } else {
        digits_text(n / 10).push(digit_char((n % 10) as int))
    }
}

/// The text of an integer in base 10: its digits, after a minus sign where
/// it is negative.
pub open spec fn decimal_text(n: int) -> Seq<char> {
    if n < 0 {
        seq!['-'] + digits_text((-n) as nat)
    } else {
        digits_text(n as nat)
    }
}

/// The digits of a number are digits, and denote the number.
pub proof fn lemma_digits_text_value(n: nat)
    ensures
        digits_text(n).len() > 0,
        all_digits(digits_text(n)),
        digits_value(digits_text(n)) == n,
    decreases n,
{
    if n < 10 {
        let text = digits_text(n);
        assert(text.drop_last() =~= Seq::<char>::empty());
        assert(digits_value(text.drop_last()) == 0);
    } else {
        lemma_digits_text_value(n / 10);
        let text = digits_text(n);
        assert(text.drop_last() =~= digits_text(n / 10));
    }
}

/// The text of an integer is read back as that integer.
pub proof fn lemma_decimal_text_is_read_back(n: int)
    ensures
        decimal_value(decimal_text(n)) == Some(n),
{
    if n < 0 {
        let digits = digits_text((-n) as nat);
        lemma_digits_text_value((-n) as nat);
        let text = decimal_text(n);
        assert(text[0] == '-');
        assert(unsigned_part(text) =~= digits);
    } else {
        lemma_digits_text_value(n as nat);
        let text = decimal_text(n);
        assert(is_digit(text[0]));
        assert(unsigned_part(text) == text);
    }
}

/// The text of one digit.
fn digit_text(value: u8) -> (text: &'static str)
    requires
        value <= 9,
    ensures
        text@ == seq![digit_char(value as int)],
{
    proof {
        reveal_strlit("0");
        reveal_strlit("1");
        reveal_strlit("2");
        reveal_strlit("3");
        reveal_strlit("4");
        reveal_strlit("5");
        reveal_strlit("6");
        reveal_strlit("7");
        reveal_strlit("8");
        reveal_strlit("9");
    }
    let text = match value {
        0 => "0",
        1 => "1",
        2 => "2",
        3 => "3",
        4 => "4",
        5 => "5",
        6 => "6",
        7 => "7",
        8 => "8",
        _ => "9",
    };
    assert(text@ =~= seq![digit_char(value as int)]);
    text
}

/// The characters of digit values given from the last digit to the first.
pub open spec fn backwards(digits: Seq<u8>) -> Seq<char> {
    Seq::new(digits.len(), |i: int| digit_char(digits[digits.len() - 1 - i] as int))
}

/// The digits of a number that have not been split off yet: none once
/// nothing is left.
pub open spec fn pending(rest: nat) -> Seq<char> {
    if rest == 0 {
        Seq::empty()
    } else {
        digits_text(rest)
    }
}

/// Writes a signed 64-bit integer in base 10.
pub fn format_i64(n: i64) -> (text: String)
    ensures
        text@ == decimal_text(n as int),
        decimal_i64(text@) == Some(n),
{
    let magnitude: u64 = if n < 0 {
        (-(n as i128)) as u64
    } else {
        n as u64
    };
    let mut digits: Vec<u8> = Vec::new();
    digits.push((magnitude % 10) as u8);
    let mut rest: u64 = magnitude / 10;
    proof {
        assert(backwards(digits@) =~= seq![digit_char((magnitude % 10) as int)]);
        assert(digits_text(magnitude as nat) =~= pending(rest as nat) + backwards(digits@));
    }
    while rest > 0
        invariant
            digits.len() > 0,
            forall|i: int| 0 <= i < digits.len() ==> digits@[i] <= 9,
            digits_text(magnitude as nat) == pending(rest as nat) + backwards(digits@),
        decreases rest,
    {
        let ghost before = backwards(digits@);
        let ghost whole = rest;
        digits.push((rest % 10) as u8);
        rest = rest / 10;
        proof {
            assert(backwards(digits@) =~= seq![digit_char((whole % 10) as int)] + before);
            assert(pending(whole as nat) =~= pending(rest as nat) + seq![
                digit_char((whole % 10) as int),
            ]);
            assert(digits_text(magnitude as nat) =~= pending(rest as nat) + backwards(digits@));
        }
    }
    let mut text = if n < 0 {
        "-".to_owned()
    } else {
        String::new()
    };
    proof {
        reveal_strlit("-");
        assert(n < 0 ==> text@ =~= seq!['-']);
        assert(digits_text(magnitude as nat) =~= backwards(digits@));
    }
    let ghost sign = text@;
    let mut left: usize = digits.len();
    while left > 0
        invariant
            left <= digits.len(),
            forall|i: int| 0 <= i < digits.len() ==> digits@[i] <= 9,
            text@ == sign + backwards(digits@).take(digits.len() - left),
        decreases left,
    {
        left -= 1;
        let ghost before = text@;
        text.append(digit_text(digits[left]));
        proof {
            let written = backwards(digits@);
            assert(written.take(digits.len() - left) =~= written.take(digits.len() - left - 1).push(
                digit_char(digits@[left as int] as int),
            ));
            assert(text@ =~= sign + written.take(digits.len() - left));
        }
    }
    proof {
        assert(backwards(digits@).take(digits.len() as int) =~= backwards(digits@));
        assert(text@ =~= decimal_text(n as int));
        lemma_decimal_text_is_read_back(n as int);
    }
    text
}

} // verus!
