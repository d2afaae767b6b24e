use airnomads::realtime::encode_realtime_frame;
use airnomads::realtime::reader::{stream_message, ReaderAction, ReaderEvent, RealtimeReader};
use airnomads::realtime::stream::{
    ReadAction, ReadEvent, RealtimeStreams, StreamMeta, StreamTable, StreamType,
};
use airnomads::transport::SendOutcome;
use airnomads::{RealtimeChannel, RealtimeEvent, RealtimeMessage};
use serde_json::Value;

fn message(event: &str, channel: &str) -> RealtimeMessage {
    RealtimeMessage::new(event, channel, Value::Bool(true))
}

fn http_stream(stream_id: u64) -> StreamMeta {
    StreamMeta { stream_id, stream_type: StreamType::Http3, channel: None }
}

#[test]
fn messages_are_made_of_anything_that_is_text() {
    let m = RealtimeMessage::new("say", String::from("chat"), Value::Null);
    assert_eq!(m.event, "say");
    assert_eq!(m.channel, "chat");
    assert_eq!(m.payload, Value::Null);
    let copy = m.clone();
    assert_eq!(copy.event, "say");
    let sent = stream_message("say", Value::from(3));
    assert_eq!((sent.event.as_str(), sent.channel.as_str()), ("say", ""));
    assert_eq!(sent.payload, Value::from(3));
}

#[test]
fn the_table_knows_what_streams_are_for() {
    let mut table = StreamTable::new();
    assert!(table.reads_realtime(4));
    assert_eq!(table.channel_of(4), None);
    table.insert(http_stream(0));
    assert!(!table.reads_realtime(0));
    table.join(4, "chat".to_string());
    assert!(table.reads_realtime(4));
    assert_eq!(table.channel_of(4), Some("chat".to_string()));
    assert_eq!(table.channel_of(0), None);
    table.join(0, "news".to_string());
    assert!(table.reads_realtime(0));
}

#[test]
fn streams_are_read_in_order_without_those_of_http() {
    let mut table = StreamTable::new();
    table.insert(http_stream(0));
    table.insert(http_stream(8));
    let mut reading = RealtimeStreams::new("c1", vec![0, 4, 8, 12]);
    assert!(matches!(reading.step(&table, ReadEvent::Start), ReadAction::Read(4)));
    assert!(matches!(reading.step(&table, ReadEvent::Nothing), ReadAction::Read(12)));
    assert!(matches!(reading.step(&table, ReadEvent::Nothing), ReadAction::Finish));
    let mut none = RealtimeStreams::new("c1", vec![0, 8]);
    assert!(matches!(none.step(&table, ReadEvent::Start), ReadAction::Finish));
}

#[test]
fn a_stream_joins_a_channel_and_then_speaks_on_it() {
    let mut table = StreamTable::new();
    let mut reading = RealtimeStreams::new("c1", vec![4]);
    assert!(matches!(reading.step(&table, ReadEvent::Start), ReadAction::Read(4)));
    let mut bytes = encode_realtime_frame(b"first");
    bytes.extend(encode_realtime_frame(b"second"));
    bytes.extend(encode_realtime_frame(b"third")[..5].to_vec());
    match reading.step(&table, ReadEvent::Bytes(bytes)) {
        ReadAction::Decode(json) => assert_eq!(json, b"first"),
        _ => panic!("the first frame is there"),
    }
    match reading.step(&table, ReadEvent::Decoded(Some(message("join", "chat")))) {
        ReadAction::Join { channel, conn_id, stream_id, event } => {
            assert_eq!((channel.as_str(), conn_id.as_str(), stream_id), ("chat", "c1", 4));
            assert!(matches!(
                event,
                RealtimeEvent::Join { conn_id, channel, stream_id: 4 }
                    if conn_id == "c1" && channel == "chat"
            ));
            table.join(stream_id, channel);
        }
        _ => panic!("a message that asks to join is obeyed"),
    }
    match reading.step(&table, ReadEvent::Applied) {
        ReadAction::Decode(json) => assert_eq!(json, b"second"),
        _ => panic!("the second frame is there"),
    }
    match reading.step(&table, ReadEvent::Decoded(Some(message("say", "elsewhere")))) {
        ReadAction::Relay { channel, sender, msg, event } => {
            assert_eq!((channel.as_str(), sender.as_str()), ("chat", "c1"));
            assert_eq!((msg.event.as_str(), msg.channel.as_str()), ("say", "elsewhere"));
            assert_eq!(msg.payload, Value::Bool(true));
            assert!(matches!(
                event,
                RealtimeEvent::Message { conn_id, stream_id: 4, msg }
                    if conn_id == "c1" && msg.event == "say"
            ));
        }
        _ => panic!("a message on a joined stream is relayed"),
    }
    assert!(matches!(reading.step(&table, ReadEvent::Applied), ReadAction::Finish));
}

#[test]
fn a_stream_without_a_channel_is_silent() {
    let table = StreamTable::new();
    let mut reading = RealtimeStreams::new("c1", vec![4, 12]);
    reading.step(&table, ReadEvent::Start);
    let mut bytes = encode_realtime_frame(b"a");
    bytes.extend(encode_realtime_frame(b"b"));
    reading.step(&table, ReadEvent::Bytes(bytes));
    match reading.step(&table, ReadEvent::Decoded(Some(message("say", "chat")))) {
        ReadAction::Decode(json) => assert_eq!(json, b"b"),
        _ => panic!("the message is dropped and the next one is taken"),
    }
    assert!(matches!(reading.step(&table, ReadEvent::Decoded(None)), ReadAction::Read(12)));
}

#[test]
fn the_reader_goes_from_packet_to_message() {
    let mut reader = RealtimeReader::new();
    assert!(matches!(reader.step(ReaderEvent::Received), ReaderAction::Feed));
    assert!(matches!(reader.step(ReaderEvent::Fed), ReaderAction::Send));
    assert!(matches!(
        reader.step(ReaderEvent::Sent(SendOutcome::Wrote(33))),
        ReaderAction::Transmit(33)
    ));
    assert!(matches!(reader.step(ReaderEvent::Transmitted), ReaderAction::Send));
    assert!(matches!(reader.step(ReaderEvent::Sent(SendOutcome::Done)), ReaderAction::ReadStream));
    let mut bytes = encode_realtime_frame(b"m1");
    bytes.extend(encode_realtime_frame(b"m2"));
    match reader.step(ReaderEvent::Bytes(bytes)) {
        ReaderAction::Decode(json) => assert_eq!(json, b"m1"),
        _ => panic!("a frame has arrived"),
    }
    match reader.step(ReaderEvent::Decoded(Some(message("say", "")))) {
        ReaderAction::Deliver(msg) => assert_eq!(msg.event, "say"),
        _ => panic!("a message is handed over"),
    }
    match reader.step(ReaderEvent::Delivered(true)) {
        ReaderAction::Decode(json) => assert_eq!(json, b"m2"),
        _ => panic!("another frame has arrived"),
    }
    assert!(matches!(reader.step(ReaderEvent::Decoded(None)), ReaderAction::Receive));
    match reader.step(ReaderEvent::Bytes(vec![])) {
        ReaderAction::Decode(json) => assert_eq!(json, b"m2"),
        _ => panic!("a frame that is no message stays"),
    }
}

#[test]
fn the_reader_puts_pieces_together() {
    let mut reader = RealtimeReader::new();
    let frame = encode_realtime_frame(b"hello");
    assert!(matches!(
        reader.step(ReaderEvent::Bytes(frame[..6].to_vec())),
        ReaderAction::Receive
    ));
    match reader.step(ReaderEvent::Bytes(frame[6..].to_vec())) {
        ReaderAction::Decode(json) => assert_eq!(json, b"hello"),
        _ => panic!("the frame is complete"),
    }
    reader.step(ReaderEvent::Decoded(Some(message("say", ""))));
    assert!(matches!(reader.step(ReaderEvent::Delivered(true)), ReaderAction::Receive));
}

#[test]
fn the_reader_stops_when_nothing_more_can_come() {
    let mut reader = RealtimeReader::new();
    assert!(matches!(reader.step(ReaderEvent::SocketFailed), ReaderAction::Stop));
    assert!(matches!(reader.step(ReaderEvent::StreamFailed), ReaderAction::Stop));
    assert!(matches!(reader.step(ReaderEvent::Delivered(false)), ReaderAction::Stop));
    assert!(matches!(reader.step(ReaderEvent::Nothing), ReaderAction::Receive));
    assert!(matches!(
        reader.step(ReaderEvent::Sent(SendOutcome::Failed(quiche::Error::TlsFail))),
        ReaderAction::ReadStream
    ));
}

#[test]
fn what_a_member_says_reaches_the_others() {
    let mut channels = RealtimeChannel::new();
    channels.subscribe("chat", "before", 1);
    let mut table = StreamTable::new();
    let mut reading = RealtimeStreams::new("speaker", vec![4]);
    reading.step(&table, ReadEvent::Start);
    let mut bytes = encode_realtime_frame(b"j");
    bytes.extend(encode_realtime_frame(b"s"));
    reading.step(&table, ReadEvent::Bytes(bytes));
    match reading.step(&table, ReadEvent::Decoded(Some(message("join", "chat")))) {
        ReadAction::Join { channel, conn_id, stream_id, .. } => {
            channels.subscribe(&channel, &conn_id, 2);
            table.join(stream_id, channel);
        }
        _ => panic!("a message that asks to join is obeyed"),
    }
    channels.subscribe("chat", "after", 3);
    reading.step(&table, ReadEvent::Applied);
    match reading.step(&table, ReadEvent::Decoded(Some(message("say", "")))) {
        ReadAction::Relay { channel, sender, .. } => {
            let mut reached: Vec<u32> =
                channels.broadcast(&channel, Some(&sender)).into_iter().map(|(_, s)| *s).collect();
            reached.sort();
            assert_eq!(reached, vec![1, 3]);
        }
        _ => panic!("a message on a joined stream is relayed"),
    }
}

#[test]
fn a_frame_cut_in_two_is_put_together() {
    let table = StreamTable::new();
    let frame = encode_realtime_frame(b"hello");
    let mut reading = RealtimeStreams::new("c1", vec![4]);
    reading.step(&table, ReadEvent::Start);
    assert!(matches!(
        reading.step(&table, ReadEvent::Bytes(frame[..6].to_vec())),
        ReadAction::Finish
    ));
    reading.resume(vec![8, 4]);
    assert!(matches!(reading.step(&table, ReadEvent::Start), ReadAction::Read(8)));
    assert!(matches!(reading.step(&table, ReadEvent::Nothing), ReadAction::Read(4)));
    match reading.step(&table, ReadEvent::Bytes(frame[6..].to_vec())) {
        ReadAction::Decode(json) => assert_eq!(json, b"hello"),
        _ => panic!("the frame is complete"),
    }
}

#[test]
fn a_frame_that_holds_no_message_is_dropped_when_reading_goes_on() {
    let table = StreamTable::new();
    let mut reading = RealtimeStreams::new("c1", vec![4]);
    reading.step(&table, ReadEvent::Start);
    reading.step(&table, ReadEvent::Bytes(encode_realtime_frame(b"?")));
    assert!(matches!(reading.step(&table, ReadEvent::Decoded(None)), ReadAction::Finish));
    reading.resume(vec![4]);
    reading.step(&table, ReadEvent::Start);
    match reading.step(&table, ReadEvent::Bytes(encode_realtime_frame(b"ok"))) {
        ReadAction::Decode(json) => assert_eq!(json, b"ok"),
        _ => panic!("the new frame is read"),
    }
}
