//! Header fields and the events of an HTTP/3 connection.

use vstd::prelude::*;
use vstd::utf8::{encode_utf8, encode_utf8_decode_utf8, encode_utf8_valid_utf8};

use crate::text::{text_or_empty, utf8_or_empty};

verus! {

/// `Vec<u8>::from` on a `&str`: the UTF-8 encoding of the text.
pub assume_specification<'a>[ <Vec<u8> as From<&str>>::from ](s: &str) -> (r: Vec<u8>)
    ensures
        r@ == encode_utf8(s@),
;

/// `Vec<u8>::from` on a `String`: the UTF-8 encoding of the text.
pub assume_specification[ <Vec<u8> as From<String>>::from ](s: String) -> (r: Vec<u8>)
    ensures
        r@ == encode_utf8(s@),
;

/// `From` of a type for itself: the value unchanged.
pub assume_specification<T>[ <T as From<T>>::from ](t: T) -> (r: T)
    ensures
        r == t,
;

/// A header field as it travels.
#[derive(Debug)]
pub struct HeaderField {
    pub name: Vec<u8>,
    pub value: Vec<u8>,
}

/// A header field as bytes.
pub type FieldView = (Seq<u8>, Seq<u8>);

/// A header field as text.
pub type TextField = (Seq<char>, Seq<char>);

impl View for HeaderField {
    type V = FieldView;

    open spec fn view(&self) -> FieldView {
        (self.name@, self.value@)
    }
}

/// What some header fields hold.
pub open spec fn field_views(fields: Seq<HeaderField>) -> Seq<FieldView> {
    Seq::new(fields.len(), |i: int| fields[i]@)
}

/// What some pairs of strings hold.
pub open spec fn pair_views(pairs: Seq<(String, String)>) -> Seq<TextField> {
    Seq::new(pairs.len(), |i: int| (pairs[i].0@, pairs[i].1@))
}

/// The field that carries a name and a value.
pub open spec fn encoded(field: TextField) -> FieldView {
    (encode_utf8(field.0), encode_utf8(field.1))
}

/// The fields that carry some names and values.
pub open spec fn all_encoded(fields: Seq<TextField>) -> Seq<FieldView> {
    Seq::new(fields.len(), |i: int| encoded(fields[i]))
}

/// A field read as text. What is no UTF-8 reads as nothing.
pub open spec fn decoded(field: FieldView) -> TextField {
    (text_or_empty(field.0), text_or_empty(field.1))
}

/// Some fields read as text.
pub open spec fn all_decoded(fields: Seq<FieldView>) -> Seq<TextField> {
    Seq::new(fields.len(), |i: int| decoded(fields[i]))
}

/// The value that the last field of a name has; nothing where there is no such field.
pub open spec fn last_value(fields: Seq<TextField>, name: Seq<char>) -> Option<Seq<char>>
    decreases fields.len(),
{
    if fields.len() == 0 {
        None
    } else if fields.last().0 == name {
        Some(fields.last().1)
    } else {
        last_value(fields.drop_last(), name)
    }
}

/// Whether a field of a name occurs.
pub open spec fn has_field(fields: Seq<TextField>, name: Seq<char>) -> bool {
    exists|i: int| 0 <= i < fields.len() && (#[trigger] fields[i]).0 == name
}

/// What an HTTP/3 connection reports of one of its streams.
#[derive(Debug)]
pub enum H3Event {
    /// These header fields arrived.
    Headers(Vec<HeaderField>),
    /// There is a piece of a body to be read.
    Data,
    /// Nothing more will arrive on the stream.
    Finished,
    /// Anything else.
    Other,
}

/// What asking an HTTP/3 connection for its next event comes to.
pub enum Polled {
    /// A stream has something to report.
    Event(u64, H3Event),
    /// There is nothing to report.
    Done,
    /// The connection failed.
    Failed(quiche::h3::Error),
    /// The connection has no HTTP/3 session.
    NotReady,
}

/// Writes a name and a value into a header field.
pub fn header_field(name: &str, value: &str) -> (f: HeaderField)
    ensures
        f@ == encoded((name@, value@)),
{
    HeaderField { name: Vec::from(name), value: Vec::from(value) }
}

/// Reads a header field as text.
pub fn field_text(field: &HeaderField) -> (t: (String, String))
    ensures
        (t.0@, t.1@) == decoded(field@),
{
    (utf8_or_empty(field.name.as_slice()), utf8_or_empty(field.value.as_slice()))
}

/// Text survives being written into a header field and read from it.
pub proof fn law_field_round_trip(field: TextField)
    ensures
        decoded(encoded(field)) == field,
{
    encode_utf8_valid_utf8(field.0);
    encode_utf8_decode_utf8(field.0);
    encode_utf8_valid_utf8(field.1);
    encode_utf8_decode_utf8(field.1);
}

/// Text survives being written into header fields and read from them, in order.
pub proof fn law_fields_round_trip(fields: Seq<TextField>)
    ensures
        all_decoded(all_encoded(fields)) == fields,
{
    assert forall|i: int| 0 <= i < fields.len() implies all_decoded(all_encoded(fields))[i]
        == fields[i] by {
        law_field_round_trip(fields[i]);
    }
    assert(all_decoded(all_encoded(fields)) =~= fields);
}

/// Fields that lie behind others decide the last value where they hold the name at all.
pub proof fn lemma_last_value_concat(a: Seq<TextField>, b: Seq<TextField>, name: Seq<char>)
    ensures
        last_value(a + b, name) == (match last_value(b, name) {
            Some(value) => Some(value),
            None => last_value(a, name),
        }),
    decreases b.len(),
{
    if b.len() == 0 {
        assert(a + b == a);
    } else {
        assert((a + b).last() == b.last());
        assert((a + b).drop_last() == a + b.drop_last());
        lemma_last_value_concat(a, b.drop_last(), name);
    }
}

/// A name has a last value exactly if it occurs.
pub proof fn lemma_last_value_exists(fields: Seq<TextField>, name: Seq<char>)
    ensures
        last_value(fields, name) is Some <==> has_field(fields, name),
    decreases fields.len(),
{
    if fields.len() > 0 {
        let rest = fields.drop_last();
        lemma_last_value_exists(rest, name);
        if fields.last().0 == name {
            assert(fields[fields.len() - 1].0 == name);
        } else {
            if has_field(rest, name) {
                let i = choose|i: int| 0 <= i < rest.len() && (#[trigger] rest[i]).0 == name;
                assert(fields[i].0 == name);
            }
            if has_field(fields, name) {
                let i = choose|i: int| 0 <= i < fields.len() && (#[trigger] fields[i]).0 == name;
                assert(rest[i].0 == name);
            }
        }
    }
}

/// One more field behind some others: it decides the last value of its own name, and it is
/// kept where the others are sifted if it is wanted.
pub proof fn lemma_one_more_field(
    fields: Seq<TextField>,
    field: TextField,
    name: Seq<char>,
    wanted: spec_fn(TextField) -> bool,
)
    ensures
        last_value(fields.push(field), name) == (if field.0 == name {
            Some(field.1)
        } else {
            last_value(fields, name)
        }),
        fields.push(field).filter(wanted) == (if wanted(field) {
            fields.filter(wanted).push(field)
        } else {
            fields.filter(wanted)
        }),
{
    reveal(Seq::filter);
    assert(fields.push(field).drop_last() == fields);
}

/// Where every field is wanted, sifting keeps them all.
pub proof fn lemma_all_wanted(fields: Seq<TextField>, wanted: spec_fn(TextField) -> bool)
    requires
        forall|i: int| 0 <= i < fields.len() ==> wanted(#[trigger] fields[i]),
    ensures
        fields.filter(wanted) == fields,
    decreases fields.len(),
{
    reveal(Seq::filter);
    if fields.len() > 0 {
        let rest = fields.drop_last();
        assert forall|i: int| 0 <= i < rest.len() implies wanted(#[trigger] rest[i]) by {
            assert(rest[i] == fields[i]);
        }
        lemma_all_wanted(rest, wanted);
        assert(wanted(fields[fields.len() - 1]));
        assert(rest.push(fields.last()) == fields);
    } else {
        assert(fields.filter(wanted) =~= fields);
    }
}

} // verus!
