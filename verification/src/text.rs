//! Text as it travels in header fields: decimal numbers and UTF-8.

use vstd::prelude::*;
use vstd::string::StringExecFns;
use vstd::utf8::{decode_utf8, valid_utf8};

verus! {

/// The error of `core::str::from_utf8`, carried and never looked into.
#[verifier::external_type_specification]
#[verifier::external_body]
pub struct ExUtf8Error(core::str::Utf8Error);

/// `String::from` on a `&str`: the same characters in a string of its own.
pub assume_specification<'a>[ <String as From<&str>>::from ](s: &str) -> (r: String)
    ensures
        r@ == s@,
;

/// `core::str::from_utf8`: succeeds on well-formed UTF-8 and on nothing else, and then
/// gives the characters that the bytes encode.
pub assume_specification[ core::str::from_utf8 ](v: &[u8]) -> (r: Result<
    &str,
    core::str::Utf8Error,
>)
    ensures
        r is Ok <==> valid_utf8(v@),
        r matches Ok(s) ==> s@ == decode_utf8(v@),
;

/// The character of a decimal digit.
pub open spec fn digit_char(d: nat) -> char {
    (48 + d) as char
}

/// The decimal digits of a number, most significant first and without leading zeros.
pub open spec fn decimal(n: nat) -> Seq<char>
    decreases n,
{
    if n < 10 {
        seq![digit_char(n)]
    } else {
        decimal(n / 10).push(digit_char(n % 10))
    }
}

/// Whether a character is an ASCII decimal digit.
pub open spec fn is_digit(c: char) -> bool {
    '0' <= c <= '9'
}

/// The number that a sequence of decimal digits denotes.
pub open spec fn digits_value(digits: Seq<char>) -> nat
    decreases digits.len(),
{
    if digits.len() == 0 {
        0
    } else {
        digits_value(digits.drop_last()) * 10 + (digits.last() as nat - 48) as nat
    }
}

/// The digits of a numeral: what follows an optional plus sign.
pub open spec fn numeral_digits(s: Seq<char>) -> Seq<char> {
    if s.len() > 0 && s[0] == '+' {
        s.drop_first()
    } else {
        s
    }
}

/// The status code that a text denotes: an optional plus sign and one or more decimal
/// digits whose value fits sixteen bits. Every other text denotes status zero.
pub open spec fn status_code(s: Seq<char>) -> nat {
    let digits = numeral_digits(s);
    if digits.len() > 0 && (forall|i: int| 0 <= i < digits.len() ==> is_digit(#[trigger] digits[i]))
        && digits_value(digits) <= 65535 {
        digits_value(digits)
    } else {
        0
    }
}

/// The text of a byte string: what it encodes in UTF-8, or nothing where it is no UTF-8.
pub open spec fn text_or_empty(bytes: Seq<u8>) -> Seq<char> {
    if valid_utf8(bytes) {
        decode_utf8(bytes)
    } else {
        Seq::empty()
    }
}

fn digit_str(d: u64) -> (s: &'static str)
    requires
        d < 10,
    ensures
        s@ == seq![digit_char(d as nat)],
{
    proof {
        reveal_strlit("0");
        reveal_strlit("1");
        reveal_strlit("2");
        reveal_strlit("3");
        reveal_strlit("4");
        reveal_strlit("5");
        reveal_strlit("6");
        reveal_strlit("7");
        reveal_strlit("8");
        reveal_strlit("9");
    }
    match d {
        0 => "0",
        1 => "1",
        2 => "2",
        3 => "3",
        4 => "4",
        5 => "5",
        6 => "6",
        7 => "7",
        8 => "8",
        _ => "9",
    }
}

/// Writes a number in decimal.
pub fn decimal_string(n: u64) -> (s: String)
    ensures
        s@ == decimal(n as nat),
    decreases n,
{
    if n < 10 {
        String::from(digit_str(n))
    } else {
        let mut s = decimal_string(n / 10);
        s.append(digit_str(n % 10));
        s
    }
}

/// Reads a byte string as UTF-8 text; one that is not UTF-8 reads as the empty text.
pub fn utf8_or_empty(bytes: &[u8]) -> (s: String)
    ensures
        s@ == text_or_empty(bytes@),
{
    match core::str::from_utf8(bytes) {
        Ok(s) => String::from(s),
        Err(_) => String::new(),
    }
}

/// More digits never make a numeral smaller.
proof fn lemma_digits_value_grows(digits: Seq<char>, n: int)
    requires
        0 <= n <= digits.len(),
        forall|i: int| 0 <= i < digits.len() ==> is_digit(#[trigger] digits[i]),
    ensures
        digits_value(digits.take(n)) <= digits_value(digits),
    decreases digits.len() - n,
{
    if n == digits.len() {
        assert(digits.take(n) == digits);
    } else {
        lemma_digits_value_grows(digits, n + 1);
        assert(digits.take(n + 1).drop_last() == digits.take(n));
    }
}

/// Reads the status code out of a header value; what is no number from 0 to 65535
/// reads as 0.
pub fn parse_status(text: &str) -> (code: u16)
    ensures
        code as nat == status_code(text@),
{
    let ghost chars = text@;
    let ghost digits = numeral_digits(chars);
    let ghost start: int = chars.len() - digits.len();
    let mut first: bool = true;
    let mut seen: bool = false;
    let mut value: u32 = 0;
    for c in it: text.chars()
        invariant
            chars == text@,
            it.seq() == chars,
            digits == numeral_digits(chars),
            start == chars.len() - digits.len(),
            first == (it.index() == 0),
            first ==> !seen && value == 0,
            !first ==> it.index() >= start && seen == (it.index() > start) && value
                == digits_value(digits.take(it.index() - start)),
            forall|i: int| 0 <= i < it.index() - start ==> is_digit(#[trigger] digits[i]),
            value <= 65535,
    {
        let ghost at = it.index();
        assert(c == chars[at]);
        if first && c == '+' {
            first = false;
            assert(start == 1);
            assert(digits.take(at + 1 - start) == Seq::<char>::empty());
            assert(value == digits_value(digits.take(at + 1 - start)));
        } else {
            assert(at >= start);
            assert(c == digits[at - start]);
            if !('0' <= c && c <= '9') {
                assert(!is_digit(digits[at - start]));
                return 0;
            }
            proof {
                if first {
                    assert(digits.take(at - start) == Seq::<char>::empty());
                    assert(digits_value(digits.take(at - start)) == 0);
                }
                assert(digits.take(at + 1 - start).drop_last() == digits.take(at - start));
                assert(digits.take(at + 1 - start).last() == c);
            }
            value = value * 10 + (c as u32 - 48);
            if value > 65535 {
                proof {
                    if forall|i: int| 0 <= i < digits.len() ==> is_digit(#[trigger] digits[i]) {
                        lemma_digits_value_grows(digits, at + 1 - start);
                    }
                }
                return 0;
            }
            first = false;
            seen = true;
        }
    }
    proof {
        if !first {
            assert(digits.take(chars.len() - start) == digits);
        }
    }
    if seen {
        value as u16
    } else {
        0
    }
}

/// Reading a status code written in decimal gives the code back.
pub proof fn law_status_round_trip(code: u16)
    ensures
        status_code(decimal(code as nat)) == code,
{
    lemma_decimal_is_numeral(code as nat);
}

/// A decimal numeral has digits alone, at least one of them, and denotes its number.
proof fn lemma_decimal_is_numeral(n: nat)
    ensures
        decimal(n).len() > 0,
        forall|i: int| 0 <= i < decimal(n).len() ==> is_digit(#[trigger] decimal(n)[i]),
        digits_value(decimal(n)) == n,
    decreases n,
{
    if n < 10 {
        assert(decimal(n).drop_last() == Seq::<char>::empty());
        assert(digits_value(decimal(n).drop_last()) == 0);
    } else {
        lemma_decimal_is_numeral(n / 10);
        assert(decimal(n).drop_last() == decimal(n / 10));
    }
}

} // verus!
