use airnomads::realtime::channel::{delivery, sent_count};
use airnomads::{H3Error, RealtimeChannel};

fn targets(channels: &RealtimeChannel<u32>, channel: &str, exclude: Option<&str>) -> Vec<(String, u32)> {
    let mut found: Vec<(String, u32)> =
        channels.broadcast(channel, exclude).into_iter().map(|(n, s)| (n.clone(), *s)).collect();
    found.sort();
    found
}

fn sorted(mut names: Vec<String>) -> Vec<String> {
    names.sort();
    names
}

#[test]
fn a_new_registry_is_empty() {
    let channels: RealtimeChannel<u32> = RealtimeChannel::new();
    assert!(channels.active_channels().is_empty());
    assert!(channels.subscribers("chat").is_empty());
    assert!(targets(&channels, "chat", None).is_empty());
    let default: RealtimeChannel<u32> = RealtimeChannel::default();
    assert!(default.active_channels().is_empty());
}

#[test]
fn who_joins_is_reached() {
    let mut channels = RealtimeChannel::new();
    channels.subscribe("chat", "a", 1);
    channels.subscribe("chat", "b", 2);
    channels.subscribe("news", "a", 3);
    assert_eq!(sorted(channels.subscribers("chat")), vec!["a", "b"]);
    assert_eq!(sorted(channels.active_channels()), vec!["chat", "news"]);
    assert_eq!(targets(&channels, "chat", None), vec![("a".to_string(), 1), ("b".to_string(), 2)]);
    assert_eq!(targets(&channels, "news", None), vec![("a".to_string(), 3)]);
    assert_eq!(*channels.send_to("chat", "b").ok().unwrap(), 2);
}

#[test]
fn the_sender_is_left_out() {
    let mut channels = RealtimeChannel::new();
    channels.subscribe("chat", "a", 1);
    channels.subscribe("chat", "b", 2);
    assert_eq!(targets(&channels, "chat", Some("a")), vec![("b".to_string(), 2)]);
    assert_eq!(targets(&channels, "chat", Some("c")).len(), 2);
    assert!(targets(&channels, "other", Some("a")).is_empty());
}

#[test]
fn joining_again_replaces() {
    let mut channels = RealtimeChannel::new();
    channels.subscribe("chat", "a", 1);
    channels.subscribe("chat", "a", 5);
    assert_eq!(channels.subscribers("chat"), vec!["a"]);
    assert_eq!(targets(&channels, "chat", None), vec![("a".to_string(), 5)]);
}

#[test]
fn leaving_undoes_joining() {
    let mut channels = RealtimeChannel::new();
    channels.subscribe("chat", "a", 1);
    channels.subscribe("chat", "b", 2);
    channels.unsubscribe("chat", "b");
    assert_eq!(channels.subscribers("chat"), vec!["a"]);
    channels.unsubscribe("chat", "b");
    channels.unsubscribe("news", "a");
    assert_eq!(channels.active_channels(), vec!["chat"]);
    channels.unsubscribe("chat", "a");
    assert!(channels.active_channels().is_empty());
    assert!(matches!(
        channels.send_to("chat", "a"),
        Err(H3Error::ChannelNotFound(name)) if name == "chat"
    ));
}

#[test]
fn a_message_for_nobody_names_what_is_missing() {
    let mut channels = RealtimeChannel::new();
    channels.subscribe("chat", "a", 1);
    assert!(matches!(
        channels.send_to("news", "a"),
        Err(H3Error::ChannelNotFound(name)) if name == "news"
    ));
    assert!(matches!(
        channels.send_to("chat", "b"),
        Err(H3Error::ChannelNotFound(name)) if name == "b"
    ));
}

#[test]
fn deliveries_are_counted() {
    assert_eq!(sent_count(&[]), 0);
    assert_eq!(sent_count(&[false, false]), 0);
    assert_eq!(sent_count(&[true, false, true]), 2);
    assert!(delivery(true).is_ok());
    assert!(matches!(delivery(false), Err(H3Error::ConnectionClosed)));
}

#[test]
fn a_broadcast_changes_no_membership() {
    let mut channels = RealtimeChannel::new();
    channels.subscribe("chat", "a", 1);
    channels.subscribe("chat", "b", 2);
    for (channel, exclude) in [("chat", None), ("chat", Some("a")), ("news", None)] {
        let reached = targets(&channels, channel, exclude).len();
        assert_eq!(sent_count(&vec![true; reached]), reached);
        assert_eq!(channels.active_channels(), vec!["chat"]);
        assert_eq!(sorted(channels.subscribers("chat")), vec!["a", "b"]);
    }
    assert_eq!(targets(&channels, "news", None).len(), 0);
    assert!(channels.subscribers("news").is_empty());
}
