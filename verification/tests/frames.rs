use airnomads::realtime::frame::FrameBuffer;
use airnomads::{realtime::encode_realtime_frame, realtime::parse_realtime_frame};

#[test]
fn a_frame_has_its_length_in_front() {
    assert_eq!(encode_realtime_frame(b"{}"), vec![0, 0, 0, 2, b'{', b'}']);
    assert_eq!(encode_realtime_frame(b""), vec![0, 0, 0, 0]);
    let long = vec![7u8; 0x0102];
    let frame = encode_realtime_frame(&long);
    assert_eq!(&frame[..4], &[0, 0, 1, 2]);
    assert_eq!(&frame[4..], &long[..]);
}

#[test]
fn the_length_is_read_with_the_most_significant_byte_first() {
    let mut buf = vec![0, 1, 0, 3];
    buf.extend_from_slice(&vec![9u8; 0x10003]);
    let (json, consumed) = parse_realtime_frame(&buf).unwrap();
    assert_eq!(json.len(), 0x10003);
    assert_eq!(consumed, 0x10007);
}

#[test]
fn an_incomplete_frame_gives_nothing() {
    assert!(parse_realtime_frame(&[]).is_none());
    assert!(parse_realtime_frame(&[0, 0, 0]).is_none());
    assert!(parse_realtime_frame(&[0, 0, 0, 1]).is_none());
    assert!(parse_realtime_frame(&[0, 0, 0, 3, 1, 2]).is_none());
    assert!(parse_realtime_frame(&[0xff, 0xff, 0xff, 0xff, 1]).is_none());
}

#[test]
fn an_empty_message_is_a_frame() {
    assert_eq!(parse_realtime_frame(&[0, 0, 0, 0, 5]), Some((&[][..], 4)));
}

#[test]
fn what_is_framed_is_read_again() {
    for message in [&b""[..], b"x", b"{\"event\":\"join\"}"] {
        let mut buf = encode_realtime_frame(message);
        buf.extend_from_slice(b"rest");
        let (json, consumed) = parse_realtime_frame(&buf).unwrap();
        assert_eq!(json, message);
        assert_eq!(consumed, 4 + message.len());
        assert_eq!(encode_realtime_frame(json), buf[..consumed]);
        assert_eq!(&buf[consumed..], b"rest");
    }
}

fn read_all(pieces: &[&[u8]]) -> Vec<Vec<u8>> {
    let mut buffer = FrameBuffer::new();
    let mut messages = Vec::new();
    for piece in pieces {
        buffer.extend(piece);
        while let Some(json) = buffer.peek() {
            messages.push(json);
            buffer.advance();
        }
    }
    messages
}

#[test]
fn pieces_do_not_matter() {
    let mut stream = encode_realtime_frame(b"one");
    stream.extend(encode_realtime_frame(b""));
    stream.extend(encode_realtime_frame(b"three"));
    let expected = vec![b"one".to_vec(), b"".to_vec(), b"three".to_vec()];
    assert_eq!(read_all(&[&stream]), expected);
    for cut in 0..=stream.len() {
        assert_eq!(read_all(&[&stream[..cut], &stream[cut..]]), expected, "{cut}");
    }
    let bytes: Vec<&[u8]> = stream.chunks(1).collect();
    assert_eq!(read_all(&bytes), expected);
}

#[test]
fn a_buffer_keeps_a_frame_until_it_advances() {
    let mut buffer = FrameBuffer::new();
    assert!(buffer.peek().is_none());
    buffer.advance();
    buffer.extend(&[0, 0, 0, 1]);
    buffer.advance();
    buffer.extend(&[42, 0, 0]);
    assert_eq!(buffer.peek(), Some(vec![42]));
    assert_eq!(buffer.peek(), Some(vec![42]));
    buffer.advance();
    assert!(buffer.peek().is_none());
    buffer.extend(&[0, 1, 43]);
    assert_eq!(buffer.peek(), Some(vec![43]));
}
