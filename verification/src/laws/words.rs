//! The words in which the laws are stated.

use vstd::prelude::*;
use vstd::utf8::{decode_utf8, valid_utf8};

use crate::http::HeaderField;

verus! {

/// A text, or the empty text where bytes are no UTF-8.
pub open spec fn readable(bytes: Seq<u8>) -> Seq<char> {
    if valid_utf8(bytes) {
        decode_utf8(bytes)
    } else {
        Seq::empty()
    }
}

/// Some header fields as they are read, in order.
pub open spec fn read_fields(fields: Seq<HeaderField>) -> Seq<(Seq<char>, Seq<char>)> {
    Seq::new(fields.len(), |i: int| (readable(fields[i].name@), readable(fields[i].value@)))
}

/// What some pairs of strings say, in order.
pub open spec fn said_by(pairs: Seq<(String, String)>) -> Seq<(Seq<char>, Seq<char>)> {
    Seq::new(pairs.len(), |i: int| (pairs[i].0@, pairs[i].1@))
}

/// Whether a field is the last of its name.
pub open spec fn is_last(fields: Seq<(Seq<char>, Seq<char>)>, name: Seq<char>, i: int) -> bool {
    &&& 0 <= i < fields.len()
    &&& fields[i].0 == name
    &&& forall|j: int| i < j < fields.len() ==> (#[trigger] fields[j]).0 != name
}

/// Whether no field has a name.
pub open spec fn is_absent(fields: Seq<(Seq<char>, Seq<char>)>, name: Seq<char>) -> bool {
    forall|j: int| 0 <= j < fields.len() ==> (#[trigger] fields[j]).0 != name
}

/// Whether a value is that of the last field of a name, or empty where there is none.
pub open spec fn is_last_value(
    fields: Seq<(Seq<char>, Seq<char>)>,
    name: Seq<char>,
    value: Seq<char>,
) -> bool {
    ||| is_absent(fields, name) && value == Seq::<char>::empty()
    ||| exists|i: int| #[trigger] is_last(fields, name, i) && fields[i].1 == value
}

/// Whether a text is made of decimal digits alone.
pub open spec fn all_digits(text: Seq<char>) -> bool {
    forall|i: int| 0 <= i < text.len() ==> '0' <= #[trigger] text[i] <= '9'
}

/// The number that decimal digits denote.
pub open spec fn number(text: Seq<char>) -> int {
    text.fold_left(0int, |value: int, c: char| 10 * value + (c as int - '0' as int))
}

/// Whether a text is how a number is written in decimal.
pub open spec fn is_decimal(text: Seq<char>, n: int) -> bool {
    &&& text.len() > 0
    &&& all_digits(text)
    &&& text.len() > 1 ==> text[0] != '0'
    &&& number(text) == n
}

/// The status that a text means: a number of sixteen bits, with or without a plus sign in
/// front, or zero for every other text.
pub open spec fn meant_status(text: Seq<char>) -> int {
    let digits = if text.len() > 0 && text[0] == '+' {
        text.drop_first()
    } else {
        text
    };
    if digits.len() > 0 && all_digits(digits) && number(digits) <= 65535 {
        number(digits)
    } else {
        0
    }
}

/// The length that the first four bytes announce.
pub open spec fn announced(bytes: Seq<u8>) -> int {
    bytes[0] * 0x100_0000 + bytes[1] * 0x1_0000 + bytes[2] * 0x100 + bytes[3]
}

/// Whether the frame at the front of some bytes has arrived in full.
pub open spec fn has_frame(bytes: Seq<u8>) -> bool {
    bytes.len() >= 4 && bytes.len() >= 4 + announced(bytes)
}

/// What the frame at the front of some bytes carries.
pub open spec fn front_frame(bytes: Seq<u8>) -> Seq<u8> {
    bytes.subrange(4, 4 + announced(bytes))
}

/// What lies behind the frame at the front of some bytes; all of them where no frame has
/// arrived in full.
pub open spec fn behind_frame(bytes: Seq<u8>) -> Seq<u8> {
    if has_frame(bytes) {
        bytes.subrange(4 + announced(bytes), bytes.len() as int)
    } else {
        bytes
    }
}

/// Whether a connection is the one that is excluded.
pub open spec fn is_excluded(exclude: Option<&str>, conn_id: Seq<char>) -> bool {
    exclude matches Some(name) && name@ == conn_id
}

/// What waits of a stream to be taken as messages.
pub open spec fn waiting(buffers: Map<u64, Seq<u8>>, stream_id: u64) -> Seq<u8> {
    if buffers.contains_key(stream_id) {
        buffers[stream_id]
    } else {
        Seq::empty()
    }
}

} // verus!
