//! Laws of settings.

use std::path::PathBuf;
use vstd::prelude::*;

use crate::config::{
    config_settings, load_cert_chain, load_priv_key, new_config, offer_h3, path_text, QuicConfig,
};
use crate::error::H3Error;

verus! {

/// The largest number that a transport parameter takes.
pub open spec fn at_most_62_bits(v: int) -> int {
    if v > 0x3fff_ffff_ffff_ffff {
        0x3fff_ffff_ffff_ffff
    } else {
        v
    }
}

/// Whether a QUIC configuration is what some settings ask for.
pub open spec fn is_configured(c: QuicConfig, config: quiche::Config) -> bool {
    let built = config_settings(config);
    &&& built.max_idle_timeout == at_most_62_bits(c.max_idle_timeout as int)
    &&& built.max_recv_udp_payload_size == at_most_62_bits(c.max_recv_udp_payload_size as int)
    &&& built.max_send_udp_payload_size == (if c.max_send_udp_payload_size < 1200 {
        1200
    } else {
        c.max_send_udp_payload_size as int
    })
    &&& built.initial_max_data == at_most_62_bits(c.initial_max_data as int)
    &&& built.initial_max_stream_data_bidi_local == at_most_62_bits(
        c.initial_max_stream_data_bidi_local as int,
    )
    &&& built.initial_max_stream_data_bidi_remote == at_most_62_bits(
        c.initial_max_stream_data_bidi_remote as int,
    )
    &&& built.initial_max_stream_data_uni == at_most_62_bits(c.initial_max_stream_data_uni as int)
    &&& built.initial_max_streams_bidi == at_most_62_bits(c.initial_max_streams_bidi as int)
    &&& built.initial_max_streams_uni == at_most_62_bits(c.initial_max_streams_uni as int)
    &&& built.disable_active_migration == c.disable_active_migration
    &&& built.datagrams
    &&& built.datagram_recv_queue_len == 1000
    &&& built.datagram_send_queue_len == 1000
    &&& built.application_protos == seq![seq![0x68u8, 0x33u8]]
    &&& built.verify_peer == (if c.verify_peer {
        None
    } else {
        Some(false)
    })
}

/// Whether an error comes of loading a certificate, or of loading a key beside a certificate
/// that was taken.
pub open spec fn comes_of_loading(cert: PathBuf, key: PathBuf, e: quiche::Error) -> bool {
    ||| exists|config: quiche::Config, file: &str| #[trigger]
        call_ensures(load_cert_chain, (config, file), Err(e)) && path_text(cert) == Some(file@)
            && config_settings(config).priv_key_file is None
    ||| exists|config: quiche::Config, file: &str| #[trigger]
        call_ensures(load_priv_key, (config, file), Err(e)) && path_text(key) == Some(file@)
            && config_settings(config).cert_chain_file == path_text(cert)
}

/// Whether an error comes of TLS and not of a file.
pub open spec fn comes_of_tls(e: quiche::Error) -> bool {
    ||| call_ensures(new_config, (), Err(e))
    ||| exists|config: quiche::Config| #[trigger] call_ensures(offer_h3, (config,), Err(e))
}

/// Every setting reaches the configuration that is built.
pub proof fn law_settings_reach_the_configuration(c: &QuicConfig, config: quiche::Config)
    requires
        call_ensures(QuicConfig::build_quiche_config, (c,), Ok(config)),
    ensures
        is_configured(*c, config),
{
}

/// Where a certificate and a key are given, a configuration that is built has taken both,
/// each from its own file.
pub proof fn law_certificate_and_key_are_loaded(
    c: &QuicConfig,
    cert: PathBuf,
    key: PathBuf,
    config: quiche::Config,
)
    requires
        c.cert_path == Some(cert),
        c.key_path == Some(key),
        path_text(cert) is Some,
        path_text(key) is Some,
        call_ensures(QuicConfig::build_quiche_config, (c,), Ok(config)),
    ensures
        config_settings(config).cert_chain_file == path_text(cert),
        config_settings(config).priv_key_file == path_text(key),
{
}

/// Where only one of them is given, or none, a configuration that is built has taken neither.
pub proof fn law_lone_file_is_not_loaded(c: &QuicConfig, config: quiche::Config)
    requires
        c.cert_path is None || c.key_path is None,
        call_ensures(QuicConfig::build_quiche_config, (c,), Ok(config)),
    ensures
        config_settings(config).cert_chain_file is None,
        config_settings(config).priv_key_file is None,
{
}

/// Where a configuration cannot be built, the error is that of TLS, or of loading one of the
/// files where both are given.
pub proof fn law_failure_is_that_of_a_call(c: &QuicConfig, e: H3Error)
    requires
        call_ensures(QuicConfig::build_quiche_config, (c,), Err(e)),
    ensures
        e matches H3Error::Quic(why) && (comes_of_tls(why) || (c.cert_path matches Some(cert)
            && c.key_path matches Some(key) && comes_of_loading(cert, key, why))),
{
}

/// A configuration is tried exactly where the files to be loaded have names that are Unicode,
/// and what comes of it is what comes of building it.
pub proof fn law_trying_is_building(
    c: &QuicConfig,
    r: Option<Result<quiche::Config, H3Error>>,
)
    requires
        call_ensures(QuicConfig::try_build_quiche_config, (c,), r),
    ensures
        r is None <==> (c.cert_path matches Some(cert) && c.key_path matches Some(key) && (path_text(
            cert,
        ) is None || path_text(key) is None)),
        r matches Some(Ok(config)) ==> {
            &&& is_configured(*c, config)
            &&& match (c.cert_path, c.key_path) {
                (Some(cert), Some(key)) => config_settings(config).cert_chain_file == path_text(
                    cert,
                ) && config_settings(config).priv_key_file == path_text(key),
                _ => config_settings(config).cert_chain_file is None && config_settings(
                    config,
                ).priv_key_file is None,
            }
        },
        r matches Some(Err(e)) ==> (e matches H3Error::Quic(why) && (comes_of_tls(why) || (
        c.cert_path matches Some(cert) && c.key_path matches Some(key) && comes_of_loading(
            cert,
            key,
            why,
        )))),
{
}

/// The settings that a connection has by default.
pub proof fn law_default_settings(c: QuicConfig)
    requires
        call_ensures(QuicConfig::new, (), c) || call_ensures(
            <QuicConfig as Default>::default,
            (),
            c,
        ),
    ensures
        c.max_idle_timeout == 30_000,
        c.max_recv_udp_payload_size == 65535,
        c.max_send_udp_payload_size == 1350,
        c.initial_max_data == 10_000_000,
        c.initial_max_stream_data_bidi_local == 1_000_000,
        c.initial_max_stream_data_bidi_remote == 1_000_000,
        c.initial_max_stream_data_uni == 1_000_000,
        c.initial_max_streams_bidi == 100,
        c.initial_max_streams_uni == 100,
        c.disable_active_migration,
        c.cert_path is None && c.key_path is None,
        c.verify_peer,
{
}

/// Each builder step changes what it is about and leaves the other settings alone.
pub proof fn law_builder_steps(
    before: QuicConfig,
    n: u64,
    cert: PathBuf,
    key: PathBuf,
    streams: QuicConfig,
    unverified: QuicConfig,
    certified: QuicConfig,
)
    requires
        call_ensures(QuicConfig::with_max_streams_bidi, (before, n), streams),
        call_ensures(QuicConfig::with_no_verify, (before,), unverified),
        call_ensures(QuicConfig::with_cert::<PathBuf, PathBuf>, (before, cert, key), certified),
    ensures
        streams == (QuicConfig { initial_max_streams_bidi: n, ..before }),
        unverified == (QuicConfig { verify_peer: false, ..before }),
        certified == (QuicConfig {
            cert_path: certified.cert_path,
            key_path: certified.key_path,
            ..before
        }),
        certified.cert_path matches Some(p) && call_ensures(
            <PathBuf as Into<PathBuf>>::into,
            (cert,),
            p,
        ),
        certified.key_path matches Some(p) && call_ensures(
            <PathBuf as Into<PathBuf>>::into,
            (key,),
            p,
        ),
{
}

} // verus!
