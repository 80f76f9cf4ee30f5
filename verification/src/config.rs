//! Sizes, transport parameters, and the certificate for tests.
use crate::packet::PROTOCOL_VERSION;
use quiche::Error as TransportError;
use vstd::prelude::*;

verus! {

/// The largest datagram that is sent.
pub const MAX_DATAGRAM_SIZE: usize = 1350;

/// The buffer for what is read from a stream.
pub const STREAM_BUFFER_SIZE: usize = 64 * 1024;

/// The smallest limit on sent datagrams that the protocol allows.
pub const MIN_DATAGRAM_SIZE: usize = 1200;

/// `quiche::Config`.
#[verifier::external_type_specification]
#[verifier::external_body]
pub struct ExConfig(quiche::Config);

/// What a `quiche::Config` holds that is left as `quiche::Config::new` sets it.
pub struct Tuning {
    /// The scale of delays that are reported.
    pub ack_delay_exponent: u64,
    /// The longest delay of an acknowledgement, in milliseconds.
    pub max_ack_delay: u64,
    /// How many connection IDs the other end may hand out.
    pub active_conn_id_limit: u64,
    /// How many packets may be in flight at first.
    pub initial_congestion_window_packets: usize,
    /// How many challenges of the other end are queued.
    pub path_challenge_queue_len: usize,
}

/// The settings of a `quiche::Config`.
pub struct Settings {
    /// The version of the protocol.
    pub version: u32,
    /// The protocols that are offered on top of it.
    pub application_protos: Seq<Seq<u8>>,
    /// After how many idle milliseconds a connection is closed.
    pub max_idle_timeout: u64,
    /// The largest datagram that is received.
    pub max_recv_udp_payload_size: usize,
    /// The largest datagram that is sent.
    pub max_send_udp_payload_size: usize,
    /// How many bytes the other end may send on a connection.
    pub initial_max_data: u64,
    /// How many of them on a stream in both directions that this end opened.
    pub initial_max_stream_data_bidi_local: u64,
    /// How many of them on a stream in both directions that the other end opened.
    pub initial_max_stream_data_bidi_remote: u64,
    /// How many of them on a stream in one direction.
    pub initial_max_stream_data_uni: u64,
    /// How many streams in both directions the other end may open.
    pub initial_max_streams_bidi: u64,
    /// How many streams in one direction the other end may open.
    pub initial_max_streams_uni: u64,
    /// Whether the other end is told to keep its address.
    pub disable_active_migration: bool,
    /// The rest.
    pub tuning: Tuning,
}

/// What a `quiche::Config` holds of these settings.
pub uninterp spec fn settings(config: quiche::Config) -> Settings;

/// The largest number that a transport parameter can be.
pub open spec fn parameter_limit() -> int {
    0x3fff_ffff_ffff_ffff
}

/// Whether a connection can be opened with these settings: the numbers that are sent to the other
/// end can be encoded, and those that are multiplied, or that room is made for, are not too large
/// for the machine.
pub open spec fn usable(s: Settings) -> bool {
    &&& s.max_idle_timeout <= parameter_limit()
    &&& s.max_recv_udp_payload_size <= parameter_limit()
    &&& s.initial_max_data <= parameter_limit()
    &&& s.initial_max_stream_data_bidi_local <= parameter_limit()
    &&& s.initial_max_stream_data_bidi_remote <= parameter_limit()
    &&& s.initial_max_stream_data_uni <= parameter_limit()
    &&& s.initial_max_streams_bidi <= parameter_limit()
    &&& s.initial_max_streams_uni <= parameter_limit()
    &&& s.tuning.ack_delay_exponent <= parameter_limit()
    &&& s.tuning.max_ack_delay <= parameter_limit()
    &&& s.tuning.active_conn_id_limit <= parameter_limit()
    &&& s.tuning.active_conn_id_limit * 3 <= usize::MAX
    &&& s.max_send_udp_payload_size * s.tuning.initial_congestion_window_packets <= usize::MAX
    &&& s.tuning.path_challenge_queue_len * 8 <= isize::MAX
}

/// What `quiche::Config::new` sets of this.
pub open spec fn default_tuning() -> Tuning {
    Tuning {
        ack_delay_exponent: 3,
        max_ack_delay: 25,
        active_conn_id_limit: 2,
        initial_congestion_window_packets: 10,
        path_challenge_queue_len: 3,
    }
}

/// Whether `quiche::Config::new`, called with this version, can give this result.
pub uninterp spec fn can_create(
    version: u32,
    result: Result<quiche::Config, TransportError>,
) -> bool;

/// `quiche::Config::new`: a config for the version, with [`default_tuning`]. For the supported
/// version it fails with `TlsFail` only. Whether it does rests on the TLS library: what can come of
/// a call is what [`can_create`] names. What the other settings are is not stated.
pub assume_specification[ quiche::Config::new ](version: u32) -> (r: quiche::Result<quiche::Config>)
    ensures
        can_create(version, r),
        r matches Ok(config) ==> settings(config).version == version && settings(config).tuning
            == default_tuning(),
        version == PROTOCOL_VERSION ==> (r matches Err(err) ==> err is TlsFail),
;

/// The protocol "h3".
pub open spec fn h3_protocols() -> Seq<Seq<u8>> {
    seq![seq![0x68u8, 0x33u8]]
}

/// The error of a result, if it is one.
pub open spec fn failure_of(result: Result<(), TransportError>) -> Option<TransportError> {
    match result {
        Ok(_) => None,
        Err(err) => Some(err),
    }
}

/// Whether `quiche::Config::set_application_protos`, called on a config with "h3" alone, can
/// succeed, or fail with this error, and leave the config so.
pub uninterp spec fn can_set_protocols(
    before: quiche::Config,
    failure: Option<TransportError>,
    after: quiche::Config,
) -> bool;

/// `quiche::Config::set_application_protos` with `quiche::h3::APPLICATION_PROTOCOL`, which is "h3"
/// alone. It fails with `TlsFail` only, and the setting changes also then. Whether it does rests on
/// the TLS library: what can come of a call is what [`can_set_protocols`] names.
#[verifier::external_body]
fn set_application_protos(config: &mut quiche::Config) -> (r: Result<(), TransportError>)
    ensures
        can_set_protocols(*old(config), failure_of(r), *final(config)),
        settings(*final(config)) == (Settings {
            application_protos: h3_protocols(),
            ..settings(*old(config))
        }),
        r matches Err(err) ==> err is TlsFail,
{
    config.set_application_protos(quiche::h3::APPLICATION_PROTOCOL)
}

/// `quiche::Config::set_max_idle_timeout`.
pub assume_specification[ quiche::Config::set_max_idle_timeout ](
    config: &mut quiche::Config,
    v: u64,
)
    ensures
        settings(*final(config)) == (Settings {
            max_idle_timeout: v,
            ..settings(*old(config))
        }),
;

/// `quiche::Config::set_max_recv_udp_payload_size`.
pub assume_specification[ quiche::Config::set_max_recv_udp_payload_size ](
    config: &mut quiche::Config,
    v: usize,
)
    ensures
        settings(*final(config)) == (Settings {
            max_recv_udp_payload_size: v,
            ..settings(*old(config))
        }),
;

/// `quiche::Config::set_max_send_udp_payload_size`: no less than what the protocol allows.
pub assume_specification[ quiche::Config::set_max_send_udp_payload_size ](
    config: &mut quiche::Config,
    v: usize,
)
    ensures
        settings(*final(config)) == (Settings {
            max_send_udp_payload_size: if v < MIN_DATAGRAM_SIZE {
                MIN_DATAGRAM_SIZE
            } else {
                v
            },
            ..settings(*old(config))
        }),
;

/// `quiche::Config::set_initial_max_data`.
pub assume_specification[ quiche::Config::set_initial_max_data ](
    config: &mut quiche::Config,
    v: u64,
)
    ensures
        settings(*final(config)) == (Settings {
            initial_max_data: v,
            ..settings(*old(config))
        }),
;

/// `quiche::Config::set_initial_max_stream_data_bidi_local`.
pub assume_specification[ quiche::Config::set_initial_max_stream_data_bidi_local ](
    config: &mut quiche::Config,
    v: u64,
)
    ensures
        settings(*final(config)) == (Settings {
            initial_max_stream_data_bidi_local: v,
            ..settings(*old(config))
        }),
;

/// `quiche::Config::set_initial_max_stream_data_bidi_remote`.
pub assume_specification[ quiche::Config::set_initial_max_stream_data_bidi_remote ](
    config: &mut quiche::Config,
    v: u64,
)
    ensures
        settings(*final(config)) == (Settings {
            initial_max_stream_data_bidi_remote: v,
            ..settings(*old(config))
        }),
;

/// `quiche::Config::set_initial_max_stream_data_uni`.
pub assume_specification[ quiche::Config::set_initial_max_stream_data_uni ](
    config: &mut quiche::Config,
    v: u64,
)
    ensures
        settings(*final(config)) == (Settings {
            initial_max_stream_data_uni: v,
            ..settings(*old(config))
        }),
;

/// `quiche::Config::set_initial_max_streams_bidi`.
pub assume_specification[ quiche::Config::set_initial_max_streams_bidi ](
    config: &mut quiche::Config,
    v: u64,
)
    ensures
        settings(*final(config)) == (Settings {
            initial_max_streams_bidi: v,
            ..settings(*old(config))
        }),
;

/// `quiche::Config::set_initial_max_streams_uni`.
pub assume_specification[ quiche::Config::set_initial_max_streams_uni ](
    config: &mut quiche::Config,
    v: u64,
)
    ensures
        settings(*final(config)) == (Settings {
            initial_max_streams_uni: v,
            ..settings(*old(config))
        }),
;

/// `quiche::Config::set_disable_active_migration`.
pub assume_specification[ quiche::Config::set_disable_active_migration ](
    config: &mut quiche::Config,
    v: bool,
)
    ensures
        settings(*final(config)) == (Settings {
            disable_active_migration: v,
            ..settings(*old(config))
        }),
;

/// The default settings: five seconds of idleness, datagrams of [`MAX_DATAGRAM_SIZE`], ten million
/// bytes for a connection and a million for a stream, a hundred streams of each kind, and no
/// migration.
pub open spec fn default_settings() -> Settings {
    Settings {
        version: PROTOCOL_VERSION,
        application_protos: h3_protocols(),
        max_idle_timeout: 5000,
        max_recv_udp_payload_size: MAX_DATAGRAM_SIZE,
        max_send_udp_payload_size: MAX_DATAGRAM_SIZE,
        initial_max_data: 10_000_000,
        initial_max_stream_data_bidi_local: 1_000_000,
        initial_max_stream_data_bidi_remote: 1_000_000,
        initial_max_stream_data_uni: 1_000_000,
        initial_max_streams_bidi: 100,
        initial_max_streams_uni: 100,
        disable_active_migration: true,
        tuning: default_tuning(),
    }
}

/// What setting the numbers comes to, after the protocols were set, or could not be set.
pub open spec fn numbers_set(
    before: Settings,
    failure: Option<TransportError>,
    after: Settings,
) -> bool {
    after == match failure {
        None => Settings {
            version: before.version,
            tuning: before.tuning,
            application_protos: before.application_protos,
            ..default_settings()
        },
        Some(_) => before,
    }
}

/// Sets the numbers of a config to their defaults, after the protocols were set with this result.
/// An error of that is passed on, and the config stays as it is.
pub fn on_protocols_set(config: &mut quiche::Config, result: Result<(), TransportError>) -> (r: Result<
    (),
    TransportError,
>)
    ensures
        r == result,
        numbers_set(settings(*old(config)), failure_of(result), settings(*final(config))),
        settings(*final(config)) == match result {
            Ok(_) => Settings {
                version: settings(*old(config)).version,
                tuning: settings(*old(config)).tuning,
                application_protos: settings(*old(config)).application_protos,
                ..default_settings()
            },
            Err(_) => settings(*old(config)),
        },
        result is Err ==> *final(config) == *old(config),
{
    if result.is_err() {
        return result;
    }
    config.set_max_idle_timeout(5000);
    config.set_max_recv_udp_payload_size(MAX_DATAGRAM_SIZE);
    config.set_max_send_udp_payload_size(MAX_DATAGRAM_SIZE);
    config.set_initial_max_data(10_000_000);
    config.set_initial_max_stream_data_bidi_local(1_000_000);
    config.set_initial_max_stream_data_bidi_remote(1_000_000);
    config.set_initial_max_stream_data_uni(1_000_000);
    config.set_initial_max_streams_bidi(100);
    config.set_initial_max_streams_uni(100);
    config.set_disable_active_migration(true);
    result
}

/// What setting a config to the defaults comes to: it succeeds, or fails, as setting the protocols
/// does, and on success everything but the version and the tuning has its default.
pub open spec fn defaults_set(
    before: quiche::Config,
    failure: Option<TransportError>,
    after: quiche::Config,
) -> bool {
    match failure {
        None => {
            &&& exists|between: quiche::Config| #[trigger] can_set_protocols(before, None, between)
            &&& settings(after) == (Settings {
                version: settings(before).version,
                tuning: settings(before).tuning,
                ..default_settings()
            })
        },
        Some(err) => can_set_protocols(before, Some(err), after),
    }
}

/// Sets everything but the version and the tuning to its default. If the protocols cannot be set,
/// which is a `TlsFail`, the numbers stay as they are.
pub fn set_defaults(config: &mut quiche::Config) -> (r: Result<(), TransportError>)
    ensures
        defaults_set(*old(config), failure_of(r), *final(config)),
        r is Err ==> settings(*final(config)) == (Settings {
            application_protos: h3_protocols(),
            ..settings(*old(config))
        }),
        r matches Err(err) ==> err is TlsFail,
{
    let result = set_application_protos(config);
    on_protocols_set(config, result)
}

/// What becomes of a config that was asked for: it is set to the defaults, unless that fails. An
/// error in its place, and an error of that, is passed on.
pub open spec fn defaulted(
    created: Result<quiche::Config, TransportError>,
    r: Result<quiche::Config, TransportError>,
) -> bool {
    match created {
        Ok(config) => match r {
            Ok(set) => defaults_set(config, None, set),
            Err(err) => exists|after: quiche::Config| #[trigger]
                defaults_set(config, Some(err), after),
        },
        Err(_) => r == created,
    }
}

/// Sets a config to the defaults if there is one. An error in its place is passed on.
pub fn with_defaults(created: Result<quiche::Config, TransportError>) -> (r: Result<
    quiche::Config,
    TransportError,
>)
    ensures
        defaulted(created, r),
        created is Ok ==> (r matches Err(err) ==> err is TlsFail),
{
    match created {
        Ok(config) => {
            let ghost before = config;
            let mut config = config;
            match set_defaults(&mut config) {
                Ok(()) => Ok(config),
                Err(err) => {
                    assert(defaults_set(before, Some(err), config));
                    Err(err)
                },
            }
        },
        Err(err) => Err(err),
    }
}

/// A config with the defaults, without a certificate. Only the TLS library can stand in the way,
/// which is a `TlsFail`.
pub fn default() -> (r: Result<quiche::Config, TransportError>)
    ensures
        exists|created: Result<quiche::Config, TransportError>| #[trigger]
            can_create(PROTOCOL_VERSION, created) && defaulted(created, r),
        match r {
            Ok(config) => settings(config) == default_settings() && usable(settings(config)),
            Err(err) => err is TlsFail,
        },
{
    let created = quiche::Config::new(PROTOCOL_VERSION);
    let ghost answer = created;
    let r = with_defaults(created);
    assert(can_create(PROTOCOL_VERSION, answer) && defaulted(answer, r));
    r
}

/// What a certificate that signs itself is made of.
#[derive(Clone, Copy, Debug)]
pub struct CertificateProfile {
    /// The size of its RSA key.
    pub key_bits: u32,
    /// The version field of X.509, which counts from zero.
    pub version: i32,
    /// The size of its random serial number.
    pub serial_bits: i32,
    /// The common name of its subject, who is its issuer too.
    pub common_name: &'static str,
    /// For how many days it is valid, from today on.
    pub valid_days: u32,
}

/// The profile of the certificate for tests: version 3, for the local host, for a year.
pub fn local_certificate_profile() -> (r: CertificateProfile)
    ensures
        r.key_bits == 2048,
        r.version == 2,
        r.serial_bits == 159,
        r.common_name@ == "localhost"@,
        r.valid_days == 365,
{
    CertificateProfile {
        key_bits: 2048,
        version: 2,
        serial_bits: 159,
        common_name: "localhost",
        valid_days: 365,
    }
}

/// The default settings, one by one.
pub proof fn lemma_default_settings()
    ensures
        ({
            let s = default_settings();
            &&& s.version == 1
            &&& s.application_protos.len() == 1
            &&& s.application_protos[0] == seq!['h' as u8, '3' as u8]
            &&& s.max_idle_timeout == 5_000
            &&& s.max_recv_udp_payload_size == 1350
            &&& s.max_send_udp_payload_size == 1350
            &&& s.initial_max_data == 10_000_000
            &&& s.initial_max_stream_data_bidi_local == 1_000_000
            &&& s.initial_max_stream_data_bidi_remote == 1_000_000
            &&& s.initial_max_stream_data_uni == 1_000_000
            &&& s.initial_max_streams_bidi == 100
            &&& s.initial_max_streams_uni == 100
            &&& s.disable_active_migration
            &&& usable(s)
        }),
{
    assert('h' as u8 == 0x68u8 && '3' as u8 == 0x33u8);
}

/// Setting the numbers gives each its default once the protocols were set, and touches neither them
/// nor the version nor the tuning; if they were not, it touches nothing.
pub proof fn lemma_numbers_set(before: Settings, failure: Option<TransportError>, after: Settings)
    requires
        numbers_set(before, failure, after),
    ensures
        after.version == before.version,
        after.tuning == before.tuning,
        after.application_protos == before.application_protos,
        failure is Some ==> after == before,
        failure is None ==> {
            &&& after.max_idle_timeout == 5_000
            &&& after.max_recv_udp_payload_size == 1350
            &&& after.max_send_udp_payload_size == 1350
            &&& after.initial_max_data == 10_000_000
            &&& after.initial_max_stream_data_bidi_local == 1_000_000
            &&& after.initial_max_stream_data_bidi_remote == 1_000_000
            &&& after.initial_max_stream_data_uni == 1_000_000
            &&& after.initial_max_streams_bidi == 100
            &&& after.initial_max_streams_uni == 100
            &&& after.disable_active_migration
        },
{
}

/// A config that was made is set to the defaults if its protocols can be set, and if not, their
/// error is passed on; so is an error in place of a config. One does not become the other.
pub proof fn lemma_config_defaulted(
    created: Result<quiche::Config, TransportError>,
    r: Result<quiche::Config, TransportError>,
)
    requires
        defaulted(created, r),
    ensures
        created matches Err(err) ==> r == Err::<quiche::Config, TransportError>(err),
        created matches Ok(config) ==> {
            &&& r matches Ok(set) ==> {
                &&& exists|between: quiche::Config| #[trigger]
                    can_set_protocols(config, None, between)
                &&& settings(set).version == settings(config).version
                &&& settings(set).tuning == settings(config).tuning
                &&& settings(set).application_protos.len() == 1
                &&& settings(set).max_idle_timeout == 5_000
                &&& settings(set).max_send_udp_payload_size == 1350
                &&& settings(set).initial_max_data == 10_000_000
                &&& settings(set).initial_max_streams_bidi == 100
                &&& settings(set).initial_max_streams_uni == 100
                &&& settings(set).disable_active_migration
            }
            &&& r matches Err(err) ==> exists|between: quiche::Config| #[trigger]
                can_set_protocols(config, Some(err), between)
        },
{
    if let (Ok(config), Err(err)) = (created, r) {
        let after = choose|after: quiche::Config| #[trigger] defaults_set(config, Some(err), after);
        assert(can_set_protocols(config, Some(err), after));
    }
}

} // verus!
