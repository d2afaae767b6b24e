//! Laws of frames.

use vstd::prelude::*;

use crate::laws::words::{announced, behind_frame, front_frame, has_frame};
use crate::realtime::frame::{
    be_bytes, be_value, encode_realtime_frame, frame_body, frame_len, parse_realtime_frame,
    FrameBuffer,
};

verus! {

/// The frames of the library are those that four bytes of length announce.
pub proof fn lemma_frames(bytes: Seq<u8>)
    ensures
        match frame_body(bytes) {
            Some(body) => has_frame(bytes) && body == front_frame(bytes) && bytes.skip(
                frame_len(body),
            ) == behind_frame(bytes) && 0 <= announced(bytes),
            None => !has_frame(bytes) && behind_frame(bytes) == bytes,
        },
{
    reveal(be_value);
    match frame_body(bytes) {
        Some(body) => {
            assert(bytes.skip(frame_len(body)) =~= behind_frame(bytes));
        },
        None => {},
    }
}

/// A frame is the message with its length in front, in four bytes of which the first counts
/// most. The length is announced exactly where it fits, and modulo 2^32 otherwise.
pub proof fn law_frame_announces_its_length(json: &[u8], frame: Vec<u8>)
    requires
        call_ensures(encode_realtime_frame, (json,), frame),
    ensures
        frame@.len() == 4 + json@.len(),
        announced(frame@) == json@.len() as int % 0x1_0000_0000,
        frame@.subrange(4, frame@.len() as int) == json@,
{
    reveal(be_bytes);
    assert(frame@.subrange(4, frame@.len() as int) =~= json@);
}

/// A frame is found exactly once it has arrived in full, and then with all that it carries
/// and no more.
pub proof fn law_frame_is_found_when_complete(buf: &[u8], r: Option<(&[u8], usize)>)
    requires
        call_ensures(parse_realtime_frame, (buf,), r),
    ensures
        r is Some <==> has_frame(buf@),
        r matches Some((json, consumed)) ==> json@.len() == announced(buf@) && consumed == 4
            + announced(buf@) && buf@.take(consumed as int) == buf@.take(4) + json@,
{
    lemma_frames(buf@);
    if let Some((json, consumed)) = r {
        assert(buf@.take(consumed as int) =~= buf@.take(4) + json@);
    }
}

/// What goes into a frame comes out of it, whatever follows.
pub proof fn law_framed_message_comes_out(
    json: &[u8],
    frame: Vec<u8>,
    buf: &[u8],
    rest: Seq<u8>,
    r: Option<(&[u8], usize)>,
)
    requires
        json@.len() < 0x1_0000_0000,
        call_ensures(encode_realtime_frame, (json,), frame),
        buf@ == frame@ + rest,
        call_ensures(parse_realtime_frame, (buf,), r),
    ensures
        r matches Some((found, consumed)) && found@ == json@ && buf@.skip(consumed as int) == rest,
{
    law_frame_announces_its_length(json, frame);
    law_frame_is_found_when_complete(buf, r);
    assert forall|i: int| 0 <= i < 4 implies buf@[i] == frame@[i] by {}
    assert(announced(buf@) == announced(frame@));
    if let Some((found, consumed)) = r {
        assert(buf@.take(consumed as int).skip(4) =~= found@);
        assert(buf@.take(consumed as int) =~= frame@);
        assert(found@ =~= json@);
        assert(buf@.skip(consumed as int) =~= rest);
    }
}

/// A buffer holds what went into it, in order.
pub proof fn law_buffer_takes_in(buffer: &mut FrameBuffer, bytes: &[u8])
    requires
        call_ensures(FrameBuffer::extend, (buffer, bytes), ()),
    ensures
        final(buffer)@ == old(buffer)@ + bytes@,
{
}

/// A buffer shows the frame at its front once it is complete.
pub proof fn law_buffer_shows_its_front(buffer: &FrameBuffer, json: Option<Vec<u8>>)
    requires
        call_ensures(FrameBuffer::peek, (buffer,), json),
    ensures
        json is Some <==> has_frame(buffer@),
        json matches Some(j) ==> j@ == front_frame(buffer@),
{
    lemma_frames(buffer@);
}

/// A buffer gives up the frame at its front and nothing else.
pub proof fn law_buffer_gives_up_its_front(buffer: &mut FrameBuffer)
    requires
        call_ensures(FrameBuffer::advance, (buffer,), ()),
    ensures
        final(buffer)@ == behind_frame(old(buffer)@),
{
    lemma_frames(old(buffer)@);
}

} // verus!
