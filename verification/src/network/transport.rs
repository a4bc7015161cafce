//! The transports a session can run over, and what dialling one takes.

use vstd::prelude::*;
use vstd::string::StringExecFns;
use crate::error::MqttError;

verus! {

/// Options of a plain TCP transport.
#[derive(Debug, Clone, Copy, PartialEq, Eq, Structural)]
pub struct TcpConfig {
    /// Keep Nagle's algorithm on. Off means that `TCP_NODELAY` is set.
    pub nagle: bool,
}

/// Options of a TLS transport.
#[derive(Debug, Clone, PartialEq, Eq)]
pub struct TlsConfig {
    /// Accept any server certificate.
    pub insecure: bool,
    /// Keep Nagle's algorithm on. Off means that `TCP_NODELAY` is set.
    pub nagle: bool,
    /// Host name sent as SNI and checked against the certificate.
    pub server_name: String,
}

/// Options of a QUIC transport.
#[derive(Debug, Clone, PartialEq, Eq)]
pub struct QuicConfig {
    /// Accept any server certificate.
    pub insecure: bool,
    /// Host name the connection is opened for.
    pub server_name: String,
}

/// The transport of a session with its options.
#[derive(Debug, Clone, PartialEq, Eq)]
pub enum Transport {
    TCP(TcpConfig),
    TLS(TlsConfig),
    QUIC(QuicConfig),
}

/// Mathematical view of a transport.
pub enum TransportView {
    TCP { nagle: bool },
    TLS { insecure: bool, nagle: bool, server_name: Seq<char> },
    QUIC { insecure: bool, server_name: Seq<char> },
}

impl View for Transport {
    type V = TransportView;

    open spec fn view(&self) -> TransportView {
        match self {
            Transport::TCP(config) => TransportView::TCP { nagle: config.nagle },
            Transport::TLS(config) => TransportView::TLS {
                insecure: config.insecure,
                nagle: config.nagle,
                server_name: config.server_name@,
            },
            Transport::QUIC(config) => TransportView::QUIC {
                insecure: config.insecure,
                server_name: config.server_name@,
            },
        }
    }
}

impl Default for TcpConfig {
    fn default() -> (config: TcpConfig)
        ensures
            config.nagle,
    {
        TcpConfig { nagle: true }
    }
}

impl Default for TlsConfig {
    fn default() -> (config: TlsConfig)
        ensures
            !config.insecure,
            config.nagle,
            config.server_name@ == "localhost"@,
    {
        TlsConfig { insecure: false, nagle: true, server_name: "localhost".to_owned() }
    }
}

impl Default for QuicConfig {
    fn default() -> (config: QuicConfig)
        ensures
            !config.insecure,
            config.server_name@ == "localhost"@,
    {
        QuicConfig { insecure: false, server_name: "localhost".to_owned() }
    }
}

/// The transport that a configuration string names, with default options.
pub open spec fn transport_named(text: Seq<char>) -> Option<TransportView> {
    if text == "tcp"@ {
        Some(TransportView::TCP { nagle: true })
    } else if text == "tls"@ {
        Some(TransportView::TLS { insecure: false, nagle: true, server_name: "localhost"@ })
    } else if text == "quic"@ {
        Some(TransportView::QUIC { insecure: false, server_name: "localhost"@ })
    } else {
        None
    }
}

/// How the server of a TLS or QUIC transport is trusted.
#[derive(Debug, Clone, Copy, PartialEq, Eq, Structural)]
pub enum TrustPolicy {
    /// Any certificate and any handshake signature is accepted.
    SkipVerification,
    /// The certificate must chain to a root of the platform's store.
    NativeRoots,
}

/// The trust policy that the `insecure` option selects.
pub open spec fn trust_policy(insecure: bool) -> TrustPolicy {
    if insecure {
        TrustPolicy::SkipVerification
    } else {
        TrustPolicy::NativeRoots
    }
}

/// Everything that opening a transport takes, ready to be carried out.
#[derive(Debug, Clone, PartialEq, Eq)]
pub enum Dial {
    /// Open a TCP stream to `address`, then set `TCP_NODELAY` to `no_delay`.
    Tcp { address: String, no_delay: bool },
    /// Open TCP as above, then shake hands under `trust`, with `server_name`
    /// as SNI host name.
    Tls { address: String, no_delay: bool, trust: TrustPolicy, server_name: String },
    /// Bind a client endpoint to `bind`, connect it to `address` for
    /// `server_name` under `trust`, offering the protocols `alpn` and with
    /// segmentation offload as `segmentation_offload` says, and open one
    /// bidirectional stream.
    Quic {
        address: String,
        bind: String,
        trust: TrustPolicy,
        server_name: String,
        alpn: Vec<String>,
        segmentation_offload: bool,
    },
}

/// Mathematical view of a dial.
pub enum DialView {
    Tcp { address: Seq<char>, no_delay: bool },
    Tls { address: Seq<char>, no_delay: bool, trust: TrustPolicy, server_name: Seq<char> },
    Quic {
        address: Seq<char>,
        bind: Seq<char>,
        trust: TrustPolicy,
        server_name: Seq<char>,
        alpn: Seq<Seq<char>>,
        segmentation_offload: bool,
    },
}

impl View for Dial {
    type V = DialView;

    open spec fn view(&self) -> DialView {
        match self {
            Dial::Tcp { address, no_delay } => DialView::Tcp {
                address: address@,
                no_delay: *no_delay,
            },
            Dial::Tls { address, no_delay, trust, server_name } => DialView::Tls {
                address: address@,
                no_delay: *no_delay,
                trust: *trust,
                server_name: server_name@,
            },
            Dial::Quic { address, bind, trust, server_name, alpn, segmentation_offload } => {
                DialView::Quic {
                    address: address@,
                    bind: bind@,
                    trust: *trust,
                    server_name: server_name@,
                    alpn: Seq::new(alpn@.len(), |i: int| alpn@[i]@),
                    segmentation_offload: *segmentation_offload,
                }
            },
        }
    }
}

/// The address `host:port`.
pub open spec fn address_of(host: Seq<char>, port: Seq<char>) -> Seq<char> {
    host + ":"@ + port
}

/// What dialling `transport` at `host` and `port` takes.
///
/// Nagle's algorithm off means no delay. An insecure transport skips the
/// verification of the server; any other trusts the platform's roots. QUIC
/// binds to an ephemeral port on every interface, offers the one protocol
/// `mqtt` and never offloads segmentation.
pub open spec fn dial_of(transport: TransportView, host: Seq<char>, port: Seq<char>) -> DialView {
    match transport {
        TransportView::TCP { nagle } => DialView::Tcp {
            address: address_of(host, port),
            no_delay: !nagle,
        },
        TransportView::TLS { insecure, nagle, server_name } => DialView::Tls {
            address: address_of(host, port),
            no_delay: !nagle,
            trust: trust_policy(insecure),
            server_name,
        },
        TransportView::QUIC { insecure, server_name } => DialView::Quic {
            address: address_of(host, port),
            bind: "0.0.0.0:0"@,
            trust: trust_policy(insecure),
            server_name,
            alpn: seq!["mqtt"@],
            segmentation_offload: false,
        },
    }
}

/// The transport `transport` with `server_name` as its server name; a TCP
/// transport has none and stays as it is.
pub open spec fn with_server_name(transport: TransportView, server_name: Seq<char>) -> TransportView {
    match transport {
        TransportView::TCP { nagle } => TransportView::TCP { nagle },
        TransportView::TLS { insecure, nagle, server_name: _ } => TransportView::TLS {
            insecure,
            nagle,
            server_name,
        },
        TransportView::QUIC { insecure, server_name: _ } => TransportView::QUIC {
            insecure,
            server_name,
        },
    }
}

/// The stage at which opening a transport failed.
#[derive(Debug, Clone, Copy, PartialEq, Eq, Structural)]
pub enum DialFailure {
    /// The host did not resolve, or the TCP stream did not open.
    Dial,
    /// The TLS verifier could not be built, or the handshake failed.
    Tls,
    /// The QUIC endpoint, connection or stream did not open.
    Quic,
}

impl DialFailure {
    /// The error that the session reports for this failure.
    pub fn error(self) -> (e: MqttError)
        ensures
            e == match self {
                DialFailure::Dial => MqttError::ConnectFailed,
                DialFailure::Tls => MqttError::TlsError,
                DialFailure::Quic => MqttError::QuicError,
            },
    {
        match self {
            DialFailure::Dial => MqttError::ConnectFailed,
            DialFailure::Tls => MqttError::TlsError,
            DialFailure::Quic => MqttError::QuicError,
        }
    }
}

impl TrustPolicy {
    /// The policy for a transport that is insecure or not.
    pub fn for_insecure(insecure: bool) -> (policy: TrustPolicy)
        ensures
            policy == trust_policy(insecure),
    {
        if insecure {
            TrustPolicy::SkipVerification
        } else {
            TrustPolicy::NativeRoots
        }
    }
}

impl Transport {
    /// Reads a transport from its configuration string: `tcp`, `tls` or
    /// `quic`, in lower case. The options are the defaults.
    pub fn from_str(transport: &str) -> (r: Result<Transport, String>)
        ensures
            match transport_named(transport@) {
                Some(t) => r is Ok && r->Ok_0@ == t,
                None => r is Err && r->Err_0@ == "Invalid transport protocol"@,
            },
    {
        let given = transport.to_owned();
        if given == "tcp".to_owned() {
            Ok(Transport::TCP(TcpConfig { nagle: true }))
        } else if given == "tls".to_owned() {
            Ok(
                Transport::TLS(
                    TlsConfig { insecure: false, nagle: true, server_name: "localhost".to_owned() },
                ),
            )
        } else if given == "quic".to_owned() {
            Ok(Transport::QUIC(QuicConfig { insecure: false, server_name: "localhost".to_owned() }))
        } else {
            Err("Invalid transport protocol".to_owned())
        }
    }

    /// This transport with `server_name` as its server name.
    pub fn bind_server_name(&self, server_name: &str) -> (t: Transport)
        ensures
            t@ == with_server_name(self@, server_name@),
    {
        match self {
            Transport::TCP(config) => Transport::TCP(TcpConfig { nagle: config.nagle }),
            Transport::TLS(config) => Transport::TLS(
                TlsConfig {
                    insecure: config.insecure,
                    nagle: config.nagle,
                    server_name: server_name.to_owned(),
                },
            ),
            Transport::QUIC(config) => Transport::QUIC(
                QuicConfig { insecure: config.insecure, server_name: server_name.to_owned() },
            ),
        }
    }

    /// What dialling this transport at `host` and `port` takes.
    pub fn dial(&self, host: &str, port: &str) -> (dial: Dial)
        ensures
            dial@ == dial_of(self@, host@, port@),
    {
        let address = host.to_owned().concat(":").concat(port);
        match self {
            Transport::TCP(config) => Dial::Tcp { address, no_delay: !config.nagle },
            Transport::TLS(config) => Dial::Tls {
                address,
                no_delay: !config.nagle,
                trust: TrustPolicy::for_insecure(config.insecure),
                server_name: config.server_name.clone(),
            },
            Transport::QUIC(config) => {
                let mut alpn: Vec<String> = Vec::new();
                alpn.push("mqtt".to_owned());
                let dial = Dial::Quic {
                    address,
                    bind: "0.0.0.0:0".to_owned(),
                    trust: TrustPolicy::for_insecure(config.insecure),
                    server_name: config.server_name.clone(),
                    alpn,
                    segmentation_offload: false,
                };
                assert(dial@ == dial_of(self@, host@, port@)) by {
                    assert(dial@->Quic_alpn =~= seq!["mqtt"@]);
                }
                dial
            },
        }
    }
}

} // verus!
