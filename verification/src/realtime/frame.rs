//! Frames of a realtime stream: the length of the message in four big-endian bytes, then
//! the message itself as JSON.

use vstd::prelude::*;
use vstd::slice::slice_subrange;

verus! {

/// Lengths in a frame header are counted modulo this number.
pub open spec fn length_modulus() -> nat {
    0x1_0000_0000
}

/// The number that four bytes hold, most significant byte first.
#[verifier::opaque]
pub open spec fn be_value(b: Seq<u8>) -> nat {
    (b[0] as nat) * 0x100_0000 + (b[1] as nat) * 0x1_0000 + (b[2] as nat) * 0x100 + (b[3] as nat)
}

/// The four bytes that hold a number, most significant byte first.
#[verifier::opaque]
pub open spec fn be_bytes(n: nat) -> Seq<u8> {
    seq![
        (n / 0x100_0000 % 0x100) as u8,
        (n / 0x1_0000 % 0x100) as u8,
        (n / 0x100 % 0x100) as u8,
        (n % 0x100) as u8,
    ]
}

/// The message in the first frame of a buffer, where that frame has arrived in full.
pub open spec fn frame_body(buf: Seq<u8>) -> Option<Seq<u8>> {
    if buf.len() < 4 || buf.len() < 4 + be_value(buf) {
        None
    } else {
        Some(buf.subrange(4, 4 + be_value(buf) as int))
    }
}

/// The frame that carries a message.
pub open spec fn frame_of(json: Seq<u8>) -> Seq<u8> {
    be_bytes(json.len() % length_modulus()) + json
}

/// The number of bytes that the frame of a message takes up.
pub open spec fn frame_len(json: Seq<u8>) -> int {
    4 + json.len() as int
}

/// The messages of all the frames that a buffer holds in full, in order.
pub open spec fn frame_bodies(buf: Seq<u8>) -> Seq<Seq<u8>>
    decreases buf.len(),
{
    match frame_body(buf) {
        Some(body) => seq![body] + frame_bodies(buf.skip(frame_len(body))),
        None => Seq::empty(),
    }
}

/// What is left of a buffer behind the last of its complete frames.
pub open spec fn unframed(buf: Seq<u8>) -> Seq<u8>
    decreases buf.len(),
{
    match frame_body(buf) {
        Some(body) => unframed(buf.skip(frame_len(body))),
        None => buf,
    }
}

/// The byte stream that carries some messages one after the other.
pub open spec fn frame_stream(messages: Seq<Seq<u8>>) -> Seq<u8>
    decreases messages.len(),
{
    if messages.len() == 0 {
        Seq::empty()
    } else {
        frame_of(messages[0]) + frame_stream(messages.drop_first())
    }
}

/// Finds the first frame of a buffer. Gives the JSON of its message and the number of
/// bytes that the frame takes up, or nothing while the frame is still incomplete.
pub fn parse_realtime_frame(buf: &[u8]) -> (r: Option<(&[u8], usize)>)
    ensures
        match frame_body(buf@) {
            Some(body) => r matches Some((json, consumed)) && json@ == body && consumed
                == frame_len(body),
            None => r is None,
        },
{
    proof {
        reveal(be_value);
    }
    if buf.len() < 4 {
        return None;
    }
    let len: u64 = (buf[0] as u64) * 0x100_0000 + (buf[1] as u64) * 0x1_0000 + (buf[2] as u64)
        * 0x100 + (buf[3] as u64);
    if ((buf.len() - 4) as u64) < len {
        return None;
    }
    let end: usize = 4 + len as usize;
    Some((slice_subrange(buf, 4, end), end))
}

/// Puts the JSON of a message into a frame. The header holds the length modulo 2^32, so
/// only a message of fewer than 2^32 bytes comes out of the frame again.
pub fn encode_realtime_frame(json: &[u8]) -> (frame: Vec<u8>)
    ensures
        frame@ == frame_of(json@),
{
    proof {
        reveal(be_bytes);
    }
    let len: u64 = json.len() as u64 % 0x1_0000_0000;
    let mut frame: Vec<u8> = Vec::with_capacity(json.len().saturating_add(4));
    frame.push((len / 0x100_0000 % 0x100) as u8);
    frame.push((len / 0x1_0000 % 0x100) as u8);
    frame.push((len / 0x100 % 0x100) as u8);
    frame.push((len % 0x100) as u8);
    frame.extend_from_slice(json);
    frame
}

/// The bytes of a realtime stream that have arrived and are not yet taken as messages.
pub struct FrameBuffer {
    data: Vec<u8>,
}

impl View for FrameBuffer {
    type V = Seq<u8>;

    closed spec fn view(&self) -> Seq<u8> {
        self.data@
    }
}

impl FrameBuffer {
    /// A buffer that has received nothing.
    pub fn new() -> (buffer: FrameBuffer)
        ensures
            buffer@ == Seq::<u8>::empty(),
    {
        FrameBuffer { data: Vec::new() }
    }

    /// Takes in bytes that have arrived.
    pub fn extend(&mut self, bytes: &[u8])
        ensures
            final(self)@ == old(self)@ + bytes@,
    {
        self.data.extend_from_slice(bytes);
    }

    /// The JSON of the first frame, if it has arrived in full. The frame stays.
    pub fn peek(&self) -> (json: Option<Vec<u8>>)
        ensures
            match frame_body(self@) {
                Some(body) => json matches Some(j) && j@ == body,
                None => json is None,
            },
    {
        match parse_realtime_frame(self.data.as_slice()) {
            Some((json, _)) => {
                let mut copy: Vec<u8> = Vec::new();
                copy.extend_from_slice(json);
                Some(copy)
            },
            None => None,
        }
    }

    /// Drops the first frame, if it has arrived in full.
    pub fn advance(&mut self)
        ensures
            final(self)@ == match frame_body(old(self)@) {
                Some(body) => old(self)@.skip(frame_len(body)),
                None => old(self)@,
            },
    {
        let consumed: usize = match parse_realtime_frame(self.data.as_slice()) {
            Some((_, consumed)) => consumed,
            None => 0,
        };
        let rest = self.data.split_off(consumed);
        self.data = rest;
    }
}

/// Four bytes hold every number below 2^32, and only one sequence of them holds it.
proof fn lemma_be_round_trip(n: nat)
    requires
        n < length_modulus(),
    ensures
        be_value(be_bytes(n)) == n,
        be_bytes(n).len() == 4,
{
    reveal(be_value);
    reveal(be_bytes);
}

proof fn lemma_be_digits(a: u8, b: u8, c: u8, d: u8)
    ensures
        ({
            let n: nat = (a as nat) * 0x100_0000 + (b as nat) * 0x1_0000 + (c as nat) * 0x100 + (
            d as nat);
            &&& n < length_modulus()
            &&& n / 0x100_0000 % 0x100 == a
            &&& n / 0x1_0000 % 0x100 == b
            &&& n / 0x100 % 0x100 == c
            &&& n % 0x100 == d
        }),
{
    let low: nat = (c as nat) * 0x100 + (d as nat);
    let n: nat = (a as nat) * 0x100_0000 + (b as nat) * 0x1_0000 + low;
    assert(low < 0x1_0000);
    assert(n / 0x100_0000 == a);
    assert(n / 0x1_0000 == a * 0x100 + b);
    assert(n / 0x100 == a * 0x1_0000 + b * 0x100 + c);
}

proof fn lemma_be_value(b: Seq<u8>)
    requires
        b.len() >= 4,
    ensures
        be_value(b) < length_modulus(),
        be_bytes(be_value(b)) == b.take(4),
{
    reveal(be_value);
    reveal(be_bytes);
    lemma_be_digits(b[0], b[1], b[2], b[3]);
    assert(be_bytes(be_value(b)) =~= b.take(4));
}

/// Only the first four bytes matter.
proof fn lemma_be_value_prefix(a: Seq<u8>, b: Seq<u8>)
    requires
        a.len() >= 4,
    ensures
        be_value(a + b) == be_value(a),
{
    reveal(be_value);
    assert forall|i: int| 0 <= i < 4 implies (a + b)[i] == a[i] by {}
}

/// A message of fewer than 2^32 bytes comes out of its frame unchanged, whatever bytes
/// follow the frame, and the bytes taken are exactly those of the frame.
pub proof fn law_frame_round_trip(json: Seq<u8>, rest: Seq<u8>)
    requires
        json.len() < length_modulus(),
    ensures
        frame_body(frame_of(json) + rest) == Some(json),
        frame_of(json).len() == frame_len(json),
        (frame_of(json) + rest).skip(frame_len(json)) == rest,
{
    lemma_be_round_trip(json.len());
    let head = be_bytes(json.len());
    let buf = frame_of(json) + rest;
    assert(buf =~= head + (json + rest));
    lemma_be_value_prefix(head, json + rest);
    assert(buf.subrange(4, frame_len(json)) == json);
    assert(buf.skip(frame_len(json)) == rest);
}

/// A frame found in a buffer is the frame of the message found in it: nothing else
/// carries that message.
pub proof fn law_frame_is_canonical(buf: Seq<u8>)
    requires
        frame_body(buf) is Some,
    ensures
        buf.take(frame_len(frame_body(buf)->0)) == frame_of(frame_body(buf)->0),
{
    let body = frame_body(buf)->0;
    let n = be_value(buf);
    lemma_be_value(buf);
    assert(buf.take(frame_len(body)) =~= be_bytes(n) + body);
}

/// Bytes that arrive behind a complete frame do not change what is read from it.
pub proof fn law_frame_stable(buf: Seq<u8>, more: Seq<u8>)
    requires
        frame_body(buf) is Some,
    ensures
        frame_body(buf + more) == frame_body(buf),
{
    let n = be_value(buf);
    lemma_be_value_prefix(buf, more);
    assert((buf + more).subrange(4, 4 + n as int) =~= buf.subrange(4, 4 + n as int));
}

/// However a stream is cut into pieces, the same messages are read from it: those of the
/// first piece, then those of what was left of it together with the second.
pub proof fn law_chunks_do_not_matter(a: Seq<u8>, b: Seq<u8>)
    ensures
        frame_bodies(a + b) == frame_bodies(a) + frame_bodies(unframed(a) + b),
        unframed(a + b) == unframed(unframed(a) + b),
    decreases a.len(),
{
    match frame_body(a) {
        Some(body) => {
            let n = frame_len(body);
            law_frame_stable(a, b);
            law_chunks_do_not_matter(a.skip(n), b);
            assert((a + b).skip(n) == a.skip(n) + b);
            assert(frame_bodies(a + b) == seq![body] + frame_bodies(a.skip(n) + b));
        },
        None => {
            assert(frame_bodies(a) + frame_bodies(a + b) == frame_bodies(a + b));
        },
    }
}

/// A stream of framed messages is read as those messages, in order and with nothing left
/// over.
pub proof fn law_stream_round_trip(messages: Seq<Seq<u8>>)
    requires
        forall|i: int| 0 <= i < messages.len() ==> (#[trigger] messages[i]).len() < length_modulus(),
    ensures
        frame_bodies(frame_stream(messages)) == messages,
        unframed(frame_stream(messages)) == Seq::<u8>::empty(),
    decreases messages.len(),
{
    if messages.len() > 0 {
        let rest = messages.drop_first();
        law_stream_round_trip(rest);
        law_frame_round_trip(messages[0], frame_stream(rest));
        assert(messages == seq![messages[0]] + rest);
    } else {
        assert(messages == Seq::<Seq<u8>>::empty());
    }
}

} // verus!
