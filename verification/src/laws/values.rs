//! Laws of texts, numbers and header fields.

use vstd::prelude::*;
use vstd::utf8::encode_utf8;

use crate::http::{field_text, header_field, HeaderField};
use crate::laws::words::{all_digits, is_decimal, meant_status, number, readable};
use crate::text::{
    decimal, decimal_string, digits_value, is_digit, numeral_digits, parse_status, status_code,
    utf8_or_empty,
};

verus! {

/// Digits denote the same number however they are read.
pub proof fn lemma_number(text: Seq<char>)
    requires
        all_digits(text),
    ensures
        digits_value(text) == number(text),
    decreases text.len(),
{
    if text.len() > 0 {
        assert(all_digits(text.drop_last())) by {
            assert forall|i: int| 0 <= i < text.drop_last().len() implies '0'
                <= #[trigger] text.drop_last()[i] <= '9' by {
                assert(text[i] == text.drop_last()[i]);
            }
        }
        lemma_number(text.drop_last());
        assert('0' <= text[text.len() - 1] <= '9');
    }
}

/// The decimal form of a number is how it is written.
pub proof fn lemma_decimal(n: nat)
    ensures
        is_decimal(decimal(n), n as int),
        n > 0 ==> decimal(n)[0] != '0',
    decreases n,
{
    let text = decimal(n);
    if n < 10 {
        assert(text.drop_last() =~= Seq::<char>::empty());
        assert(digits_value(text.drop_last()) == 0);
        assert(all_digits(text));
        lemma_number(text);
    } else {
        lemma_decimal(n / 10);
        let front = decimal(n / 10);
        assert(text.drop_last() =~= front);
        assert(text[0] == front[0]);
        assert forall|i: int| 0 <= i < text.len() implies '0' <= #[trigger] text[i] <= '9' by {
            if i < front.len() {
                assert(text[i] == front[i]);
            }
        }
        lemma_number(text);
        lemma_number(front);
    }
}

/// The library reads a status as it is meant.
pub proof fn lemma_status(text: Seq<char>)
    ensures
        status_code(text) == meant_status(text),
{
    let digits = numeral_digits(text);
    if all_digits(digits) {
        lemma_number(digits);
        assert forall|i: int| 0 <= i < digits.len() implies is_digit(#[trigger] digits[i]) by {}
    } else {
        let i = choose|i: int|
            0 <= i < digits.len() && !('0' <= #[trigger] digits[i] <= '9');
        assert(!is_digit(digits[i]));
    }
}

/// A number is written with decimal digits that denote it, without zeros in front.
pub proof fn law_number_is_written_in_decimal(n: u64, s: String)
    requires
        call_ensures(decimal_string, (n,), s),
    ensures
        is_decimal(s@, n as int),
{
    lemma_decimal(n as nat);
}

/// A status is the number that the text denotes, or zero where it denotes none that fits.
pub proof fn law_status_is_what_the_text_means(text: &str, code: u16)
    requires
        call_ensures(parse_status, (text,), code),
    ensures
        code == meant_status(text@),
{
    lemma_status(text@);
}

/// Bytes that are UTF-8 are read as what they encode, and all others as nothing.
pub proof fn law_bytes_are_read_as_utf8(bytes: &[u8], s: String)
    requires
        call_ensures(utf8_or_empty, (bytes,), s),
    ensures
        s@ == readable(bytes@),
{
}

/// A header field holds its name and its value in UTF-8, each in its place.
pub proof fn law_header_field_holds_name_and_value(name: &str, value: &str, f: HeaderField)
    requires
        call_ensures(header_field, (name, value), f),
    ensures
        f.name@ == encode_utf8(name@),
        f.value@ == encode_utf8(value@),
{
}

/// A header field is read by its name and by its value, each from its place.
pub proof fn law_header_field_is_read(field: &HeaderField, t: (String, String))
    requires
        call_ensures(field_text, (field,), t),
    ensures
        t.0@ == readable(field.name@),
        t.1@ == readable(field.value@),
{
}

} // verus!
