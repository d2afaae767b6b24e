use airnomads::QuicConfig;
use std::path::PathBuf;

#[test]
fn default_settings() {
    for c in [QuicConfig::new(), QuicConfig::default()] {
        assert_eq!(c.max_idle_timeout, 30_000);
        assert_eq!(c.max_recv_udp_payload_size, 65535);
        assert_eq!(c.max_send_udp_payload_size, 1350);
        assert_eq!(c.initial_max_data, 10_000_000);
        assert_eq!(c.initial_max_stream_data_bidi_local, 1_000_000);
        assert_eq!(c.initial_max_stream_data_bidi_remote, 1_000_000);
        assert_eq!(c.initial_max_stream_data_uni, 1_000_000);
        assert_eq!(c.initial_max_streams_bidi, 100);
        assert_eq!(c.initial_max_streams_uni, 100);
        assert!(c.disable_active_migration);
        assert!(c.cert_path.is_none());
        assert!(c.key_path.is_none());
        assert!(c.verify_peer);
    }
}

#[test]
fn builder_steps_change_what_they_are_about() {
    let c = QuicConfig::new()
        .with_cert("cert.pem", "key.pem")
        .with_no_verify()
        .with_max_streams_bidi(7);
    assert_eq!(c.cert_path, Some(PathBuf::from("cert.pem")));
    assert_eq!(c.key_path, Some(PathBuf::from("key.pem")));
    assert!(!c.verify_peer);
    assert_eq!(c.initial_max_streams_bidi, 7);
    assert_eq!(c.initial_max_streams_uni, 100);
    assert_eq!(c.max_idle_timeout, 30_000);
}
