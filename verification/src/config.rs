//! The settings of a connection, and the QUIC configuration that is made of them.

use std::path::PathBuf;
use vstd::prelude::*;

use crate::error::H3Error;

verus! {

/// The configuration of `quiche`, known only by its settings.
#[verifier::external_type_specification]
#[verifier::external_body]
pub struct ExQuicheConfig(quiche::Config);

/// A path, known only by its text.
#[verifier::external_type_specification]
#[verifier::external_body]
pub struct ExPathBuf(std::path::PathBuf);

/// What a `quiche::Config` is set to.
pub struct QuicSettings {
    /// The transport parameter of this name, in milliseconds.
    pub max_idle_timeout: u64,
    /// The transport parameter `max_udp_payload_size`.
    pub max_recv_udp_payload_size: u64,
    pub max_send_udp_payload_size: usize,
    pub initial_max_data: u64,
    pub initial_max_stream_data_bidi_local: u64,
    pub initial_max_stream_data_bidi_remote: u64,
    pub initial_max_stream_data_uni: u64,
    pub initial_max_streams_bidi: u64,
    pub initial_max_streams_uni: u64,
    pub disable_active_migration: bool,
    /// Whether datagrams are taken.
    pub datagrams: bool,
    pub datagram_recv_queue_len: usize,
    pub datagram_send_queue_len: usize,
    /// The protocols that are offered, in order.
    pub application_protos: Seq<Seq<u8>>,
    /// The file that the certificate chain was loaded from.
    pub cert_chain_file: Option<Seq<char>>,
    /// The file that the private key was loaded from.
    pub priv_key_file: Option<Seq<char>>,
    /// What was last said on whether the certificate of the peer is verified. Where nothing
    /// was said, `quiche` does not verify it.
    pub verify_peer: Option<bool>,
}

/// What a configuration is set to.
pub uninterp spec fn config_settings(config: quiche::Config) -> QuicSettings;

/// The text of a path; nothing where the path is not Unicode.
pub uninterp spec fn path_text(path: PathBuf) -> Option<Seq<char>>;

/// The largest number that a transport parameter holds.
pub const MAX_VAR_INT: u64 = 4_611_686_018_427_387_903;

/// The smallest limit on the size of the packets that are sent.
pub const MIN_SEND_UDP_PAYLOAD_SIZE: usize = 1200;

/// How many datagrams wait to be received or sent.
pub const DATAGRAM_QUEUE_LEN: usize = 1000;

/// A number cut down to what a transport parameter holds.
pub open spec fn var_int(v: u64) -> u64 {
    if v <= MAX_VAR_INT {
        v
    } else {
        MAX_VAR_INT
    }
}

/// A limit on the size of the packets that are sent, raised to what it must be at least.
pub open spec fn send_size(v: usize) -> usize {
    if v >= MIN_SEND_UDP_PAYLOAD_SIZE {
        v
    } else {
        MIN_SEND_UDP_PAYLOAD_SIZE
    }
}

/// The protocol of HTTP/3, by the name under which it is negotiated.
pub open spec fn h3_protocols() -> Seq<Seq<u8>> {
    seq![seq![0x68u8, 0x33u8]]
}

/// `quiche::Config::new` with `quiche::PROTOCOL_VERSION`: a configuration for which no
/// certificate, no key and nothing on the verification of the peer has been given. It fails
/// where TLS cannot be set up.
#[verifier::external_body]
pub fn new_config() -> (r: Result<quiche::Config, quiche::Error>)
    ensures
        r matches Ok(config) ==> {
            &&& config_settings(config).cert_chain_file is None
            &&& config_settings(config).priv_key_file is None
            &&& config_settings(config).verify_peer is None
        },
{
    quiche::Config::new(quiche::PROTOCOL_VERSION)
}

/// `quiche::Config::set_max_idle_timeout`: sets this transport parameter and no other.
pub assume_specification[ quiche::Config::set_max_idle_timeout ](config: &mut quiche::Config, v: u64)
    ensures
        config_settings(*final(config)) == (QuicSettings {
            max_idle_timeout: var_int(v),
            ..config_settings(*old(config))
        }),
;

/// `quiche::Config::set_max_recv_udp_payload_size`: sets this transport parameter and no
/// other.
pub assume_specification[ quiche::Config::set_max_recv_udp_payload_size ](
    config: &mut quiche::Config,
    v: usize,
)
    ensures
        config_settings(*final(config)) == (QuicSettings {
            max_recv_udp_payload_size: var_int(v as u64),
            ..config_settings(*old(config))
        }),
;

/// `quiche::Config::set_max_send_udp_payload_size`: sets this limit, to no less than its
/// minimum, and nothing else.
pub assume_specification[ quiche::Config::set_max_send_udp_payload_size ](
    config: &mut quiche::Config,
    v: usize,
)
    ensures
        config_settings(*final(config)) == (QuicSettings {
            max_send_udp_payload_size: send_size(v),
            ..config_settings(*old(config))
        }),
;

/// `quiche::Config::set_initial_max_data`: sets this transport parameter and no other.
pub assume_specification[ quiche::Config::set_initial_max_data ](config: &mut quiche::Config, v: u64)
    ensures
        config_settings(*final(config)) == (QuicSettings {
            initial_max_data: var_int(v),
            ..config_settings(*old(config))
        }),
;

/// `quiche::Config::set_initial_max_stream_data_bidi_local`: sets this transport parameter
/// and no other.
pub assume_specification[ quiche::Config::set_initial_max_stream_data_bidi_local ](
    config: &mut quiche::Config,
    v: u64,
)
    ensures
        config_settings(*final(config)) == (QuicSettings {
            initial_max_stream_data_bidi_local: var_int(v),
            ..config_settings(*old(config))
        }),
;

/// `quiche::Config::set_initial_max_stream_data_bidi_remote`: sets this transport parameter
/// and no other.
pub assume_specification[ quiche::Config::set_initial_max_stream_data_bidi_remote ](
    config: &mut quiche::Config,
    v: u64,
)
    ensures
        config_settings(*final(config)) == (QuicSettings {
            initial_max_stream_data_bidi_remote: var_int(v),
            ..config_settings(*old(config))
        }),
;

/// `quiche::Config::set_initial_max_stream_data_uni`: sets this transport parameter and no
/// other.
pub assume_specification[ quiche::Config::set_initial_max_stream_data_uni ](
    config: &mut quiche::Config,
    v: u64,
)
    ensures
        config_settings(*final(config)) == (QuicSettings {
            initial_max_stream_data_uni: var_int(v),
            ..config_settings(*old(config))
        }),
;

/// `quiche::Config::set_initial_max_streams_bidi`: sets this transport parameter and no
/// other.
pub assume_specification[ quiche::Config::set_initial_max_streams_bidi ](
    config: &mut quiche::Config,
    v: u64,
)
    ensures
        config_settings(*final(config)) == (QuicSettings {
            initial_max_streams_bidi: var_int(v),
            ..config_settings(*old(config))
        }),
;

/// `quiche::Config::set_initial_max_streams_uni`: sets this transport parameter and no
/// other.
pub assume_specification[ quiche::Config::set_initial_max_streams_uni ](
    config: &mut quiche::Config,
    v: u64,
)
    ensures
        config_settings(*final(config)) == (QuicSettings {
            initial_max_streams_uni: var_int(v),
            ..config_settings(*old(config))
        }),
;

/// `quiche::Config::set_disable_active_migration`: sets this transport parameter and no
/// other.
pub assume_specification[ quiche::Config::set_disable_active_migration ](
    config: &mut quiche::Config,
    v: bool,
)
    ensures
        config_settings(*final(config)) == (QuicSettings {
            disable_active_migration: v,
            ..config_settings(*old(config))
        }),
;

/// `quiche::Config::enable_dgram`: sets whether datagrams are taken and how many wait, and
/// nothing else.
pub assume_specification[ quiche::Config::enable_dgram ](
    config: &mut quiche::Config,
    enabled: bool,
    recv_queue_len: usize,
    send_queue_len: usize,
)
    ensures
        config_settings(*final(config)) == (QuicSettings {
            datagrams: enabled,
            datagram_recv_queue_len: recv_queue_len,
            datagram_send_queue_len: send_queue_len,
            ..config_settings(*old(config))
        }),
;

/// `quiche::Config::set_application_protos` with `quiche::h3::APPLICATION_PROTOCOL`: where it
/// succeeds, HTTP/3 is the protocol on offer, and nothing else has changed.
#[verifier::external_body]
pub fn offer_h3(config: quiche::Config) -> (r: Result<quiche::Config, quiche::Error>)
    ensures
        r matches Ok(after) ==> config_settings(after) == (QuicSettings {
            application_protos: h3_protocols(),
            ..config_settings(config)
        }),
{
    let mut config = config;
    config.set_application_protos(quiche::h3::APPLICATION_PROTOCOL)?;
    Ok(config)
}

/// `quiche::Config::load_cert_chain_from_pem_file` on a configuration that has no private key
/// yet: where it succeeds, the certificate chain in the file has been taken, and nothing else
/// has changed. Whether it succeeds depends on the file. A key that is already there is not
/// allowed for: TLS gives it up without an error where it does not belong to the certificate.
#[verifier::external_body]
pub fn load_cert_chain(config: quiche::Config, file: &str) -> (r: Result<
    quiche::Config,
    quiche::Error,
>)
    requires
        config_settings(config).priv_key_file is None,
    ensures
        r matches Ok(after) ==> config_settings(after) == (QuicSettings {
            cert_chain_file: Some(file@),
            ..config_settings(config)
        }),
{
    let mut config = config;
    config.load_cert_chain_from_pem_file(file)?;
    Ok(config)
}

/// `quiche::Config::load_priv_key_from_pem_file`: where it succeeds, the private key in the
/// file has been taken, and nothing else has changed. Whether it succeeds depends on the
/// file.
#[verifier::external_body]
pub fn load_priv_key(config: quiche::Config, file: &str) -> (r: Result<
    quiche::Config,
    quiche::Error,
>)
    ensures
        r matches Ok(after) ==> config_settings(after) == (QuicSettings {
            priv_key_file: Some(file@),
            ..config_settings(config)
        }),
{
    let mut config = config;
    config.load_priv_key_from_pem_file(file)?;
    Ok(config)
}

/// `quiche::Config::verify_peer`: says whether the certificate of the peer is verified, and
/// nothing else.
pub assume_specification[ quiche::Config::verify_peer ](config: &mut quiche::Config, verify: bool)
    ensures
        config_settings(*final(config)) == (QuicSettings {
            verify_peer: Some(verify),
            ..config_settings(*old(config))
        }),
;

/// `std::path::Path::to_str`: the text of the path, if it is Unicode.
#[verifier::external_body]
fn path_str(path: &PathBuf) -> (text: Option<&str>)
    ensures
        match text {
            Some(t) => path_text(*path) == Some(t@),
            None => path_text(*path) is None,
        },
{
    path.to_str()
}

/// The settings of a connection.
#[derive(Debug)]
pub struct QuicConfig {
    /// How long a connection may be idle, in milliseconds.
    pub max_idle_timeout: u64,
    pub max_recv_udp_payload_size: usize,
    pub max_send_udp_payload_size: usize,
    pub initial_max_data: u64,
    pub initial_max_stream_data_bidi_local: u64,
    pub initial_max_stream_data_bidi_remote: u64,
    pub initial_max_stream_data_uni: u64,
    pub initial_max_streams_bidi: u64,
    pub initial_max_streams_uni: u64,
    pub disable_active_migration: bool,
    pub cert_path: Option<PathBuf>,
    pub key_path: Option<PathBuf>,
    /// For a client: `false` tells `quiche` not to verify the server, for development only.
    /// `true` tells it nothing and leaves it at its default, which is not to verify either:
    /// who wants the server verified calls `verify_peer(true)` on the configuration.
    pub verify_peer: bool,
}

/// Whether some settings are those that a connection has by default.
pub open spec fn is_default(c: QuicConfig) -> bool {
    &&& c.max_idle_timeout == 30_000
    &&& c.max_recv_udp_payload_size == 65535
    &&& c.max_send_udp_payload_size == 1350
    &&& c.initial_max_data == 10_000_000
    &&& c.initial_max_stream_data_bidi_local == 1_000_000
    &&& c.initial_max_stream_data_bidi_remote == 1_000_000
    &&& c.initial_max_stream_data_uni == 1_000_000
    &&& c.initial_max_streams_bidi == 100
    &&& c.initial_max_streams_uni == 100
    &&& c.disable_active_migration
    &&& c.cert_path is None
    &&& c.key_path is None
    &&& c.verify_peer
}

impl Default for QuicConfig {
    fn default() -> (c: QuicConfig)
        ensures
            is_default(c),
    {
        QuicConfig {
            max_idle_timeout: 30_000,
            max_recv_udp_payload_size: 65535,
            max_send_udp_payload_size: 1350,
            initial_max_data: 10_000_000,
            initial_max_stream_data_bidi_local: 1_000_000,
            initial_max_stream_data_bidi_remote: 1_000_000,
            initial_max_stream_data_uni: 1_000_000,
            initial_max_streams_bidi: 100,
            initial_max_streams_uni: 100,
            disable_active_migration: true,
            cert_path: None,
            key_path: None,
            verify_peer: true,
        }
    }
}

impl QuicConfig {
    /// The files that the certificate and the key are loaded from: none unless both are
    /// given.
    pub open spec fn files(&self) -> Option<(PathBuf, PathBuf)> {
        match (self.cert_path, self.key_path) {
            (Some(cert), Some(key)) => Some((cert, key)),
            _ => None,
        }
    }

    /// Whether the files to be loaded have names that are Unicode.
    pub open spec fn files_have_text(&self) -> bool {
        self.files() matches Some((cert, key)) ==> path_text(cert) is Some && path_text(key)
            is Some
    }

    /// What a QUIC configuration made of these settings is set to.
    pub open spec fn settings(&self) -> QuicSettings {
        QuicSettings {
            max_idle_timeout: var_int(self.max_idle_timeout),
            max_recv_udp_payload_size: var_int(self.max_recv_udp_payload_size as u64),
            max_send_udp_payload_size: send_size(self.max_send_udp_payload_size),
            initial_max_data: var_int(self.initial_max_data),
            initial_max_stream_data_bidi_local: var_int(self.initial_max_stream_data_bidi_local),
            initial_max_stream_data_bidi_remote: var_int(self.initial_max_stream_data_bidi_remote),
            initial_max_stream_data_uni: var_int(self.initial_max_stream_data_uni),
            initial_max_streams_bidi: var_int(self.initial_max_streams_bidi),
            initial_max_streams_uni: var_int(self.initial_max_streams_uni),
            disable_active_migration: self.disable_active_migration,
            datagrams: true,
            datagram_recv_queue_len: DATAGRAM_QUEUE_LEN,
            datagram_send_queue_len: DATAGRAM_QUEUE_LEN,
            application_protos: h3_protocols(),
            cert_chain_file: match self.files() {
                Some((cert, key)) => path_text(cert),
                None => None,
            },
            priv_key_file: match self.files() {
                Some((cert, key)) => path_text(key),
                None => None,
            },
            verify_peer: if self.verify_peer {
                None
            } else {
                Some(false)
            },
        }
    }

    /// What the QUIC configuration is set to when the files are about to be loaded.
    pub open spec fn settings_before_files(&self) -> QuicSettings {
        QuicSettings {
            cert_chain_file: None,
            priv_key_file: None,
            verify_peer: None,
            ..self.settings()
        }
    }

    /// Whether an error is that of a call which these settings ask for: of making a
    /// configuration, of offering HTTP/3 once the numbers are set, of loading the
    /// certificate, or of loading the key once the certificate is loaded. Files are loaded
    /// only where both are given.
    pub open spec fn fails_with(&self, e: quiche::Error) -> bool {
        ||| call_ensures(new_config, (), Err(e))
        ||| exists|config: quiche::Config| #[trigger]
            call_ensures(offer_h3, (config,), Err(e)) && config_settings(config) == (QuicSettings {
                application_protos: config_settings(config).application_protos,
                ..self.settings_before_files()
            })
        ||| exists|config: quiche::Config, file: &str| #[trigger]
            call_ensures(load_cert_chain, (config, file), Err(e)) && config_settings(config)
                == self.settings_before_files() && (self.files() matches Some((cert, key))
                && path_text(cert) == Some(file@))
        ||| exists|config: quiche::Config, file: &str| #[trigger]
            call_ensures(load_priv_key, (config, file), Err(e)) && config_settings(config) == (
            QuicSettings {
                cert_chain_file: self.settings().cert_chain_file,
                ..self.settings_before_files()
            }) && (self.files() matches Some((cert, key)) && path_text(key) == Some(file@))
    }

    /// The default settings.
    pub fn new() -> (c: QuicConfig)
        ensures
            is_default(c),
    {
        QuicConfig::default()
    }

    /// Makes a QUIC configuration of these settings. Datagrams are enabled, and HTTP/3 is
    /// the one protocol on offer. The certificate and then the key are loaded where both are
    /// given. It fails only where `quiche` does, with its error: where TLS cannot be set up or
    /// a file that is to be loaded cannot be loaded.
    pub fn build_quiche_config(&self) -> (r: Result<quiche::Config, H3Error>)
        requires
            self.files_have_text(),
        ensures
            match r {
                Ok(config) => config_settings(config) == self.settings(),
                Err(e) => e matches H3Error::Quic(why) && self.fails_with(why),
            },
    {
        let mut config = match new_config() {
            Ok(config) => config,
            Err(e) => return Err(H3Error::from(e)),
        };
        config.set_max_idle_timeout(self.max_idle_timeout);
        config.set_max_recv_udp_payload_size(self.max_recv_udp_payload_size);
        config.set_max_send_udp_payload_size(self.max_send_udp_payload_size);
        config.set_initial_max_data(self.initial_max_data);
        config.set_initial_max_stream_data_bidi_local(self.initial_max_stream_data_bidi_local);
        config.set_initial_max_stream_data_bidi_remote(self.initial_max_stream_data_bidi_remote);
        config.set_initial_max_stream_data_uni(self.initial_max_stream_data_uni);
        config.set_initial_max_streams_bidi(self.initial_max_streams_bidi);
        config.set_initial_max_streams_uni(self.initial_max_streams_uni);
        config.set_disable_active_migration(self.disable_active_migration);
        config.enable_dgram(true, DATAGRAM_QUEUE_LEN, DATAGRAM_QUEUE_LEN);
        let mut config = match offer_h3(config) {
            Ok(config) => config,
            Err(e) => return Err(H3Error::from(e)),
        };
        if let (Some(cert), Some(key)) = (&self.cert_path, &self.key_path) {
            if let (Some(cert), Some(key)) = (path_str(cert), path_str(key)) {
                config = match load_cert_chain(config, cert) {
                    Ok(config) => config,
                    Err(e) => return Err(H3Error::from(e)),
                };
                config = match load_priv_key(config, key) {
                    Ok(config) => config,
                    Err(e) => return Err(H3Error::from(e)),
                };
            }
        }
        if !self.verify_peer {
            config.verify_peer(false);
        }
        Ok(config)
    }

    /// Makes a QUIC configuration of these settings, or nothing where the name of a file to
    /// be loaded is not Unicode.
    pub fn try_build_quiche_config(&self) -> (r: Option<Result<quiche::Config, H3Error>>)
        ensures
            r is Some <==> self.files_have_text(),
            r matches Some(Ok(config)) ==> config_settings(config) == self.settings(),
            r matches Some(Err(e)) ==> (e matches H3Error::Quic(why) && self.fails_with(why)),
    {
        if let (Some(cert), Some(key)) = (&self.cert_path, &self.key_path) {
            if path_str(cert).is_none() || path_str(key).is_none() {
                return None;
            }
        }
        Some(self.build_quiche_config())
    }

    /// These settings with a certificate and its key.
    pub fn with_cert<C: Into<PathBuf>, K: Into<PathBuf>>(self, cert: C, key: K) -> (c: QuicConfig)
        ensures
            c == (QuicConfig { cert_path: c.cert_path, key_path: c.key_path, ..self }),
            c.cert_path matches Some(path) && call_ensures(
                <C as Into<PathBuf>>::into,
                (cert,),
                path,
            ),
            c.key_path matches Some(path) && call_ensures(<K as Into<PathBuf>>::into, (key,), path),
    {
        QuicConfig { cert_path: Some(cert.into()), key_path: Some(key.into()), ..self }
    }

    /// These settings without verification of the peer.
    pub fn with_no_verify(self) -> (c: QuicConfig)
        ensures
            c == (QuicConfig { verify_peer: false, ..self }),
    {
        QuicConfig { verify_peer: false, ..self }
    }

    /// These settings with the given number of bidirectional streams that the peer may open.
    pub fn with_max_streams_bidi(self, n: u64) -> (c: QuicConfig)
        ensures
            c == (QuicConfig { initial_max_streams_bidi: n, ..self }),
    {
        QuicConfig { initial_max_streams_bidi: n, ..self }
    }
}

/// The settings that a builder step is about are the only ones it changes in the QUIC
/// configuration.
pub proof fn law_builder_steps_are_independent(c: QuicConfig, n: u64)
    ensures
        ({
            let unverified = QuicConfig { verify_peer: false, ..c };
            unverified.settings() == (QuicSettings { verify_peer: Some(false), ..c.settings() })
        }),
        ({
            let streams = QuicConfig { initial_max_streams_bidi: n, ..c };
            streams.settings() == (QuicSettings {
                initial_max_streams_bidi: var_int(n),
                ..c.settings()
            })
        }),
{
}

/// A certificate without a key, or a key without a certificate, is ignored: neither is loaded,
/// and no error comes of either.
pub proof fn law_certificate_needs_key(c: QuicConfig, e: quiche::Error)
    requires
        c.cert_path is None || c.key_path is None,
    ensures
        c.settings().cert_chain_file is None,
        c.settings().priv_key_file is None,
        c.fails_with(e) ==> call_ensures(new_config, (), Err(e)) || exists|config: quiche::Config|
            #[trigger] call_ensures(offer_h3, (config,), Err(e)),
{
}

} // verus!
