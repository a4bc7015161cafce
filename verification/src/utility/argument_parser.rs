//! The options of the command-line tools as plain values, and what they
//! mean for a session.

use vstd::prelude::*;
use vstd::string::StringExecFns;
use crate::network::transport::{QuicConfig, TcpConfig, TlsConfig, Transport, TransportView};
use crate::network::transport::transport_named;
use crate::packet::{Qos, qos_of_level};
use crate::version::{Version, version_named};

verus! {

pub const DEFAULT_HOST: &'static str = "127.0.0.1";

pub const DEFAULT_PORT: u16 = 1883;

pub const DEFAULT_TRANSPORT: &'static str = "tcp";

pub const DEFAULT_KEEP_ALIVE: u64 = 5;

pub const DEFAULT_QOS: u8 = 1;

pub const DEFAULT_PROTO_VERSION: &'static str = "3.1.1";

pub const DEFAULT_SERVER_NAME: &'static str = "localhost";

pub const DEFAULT_INSECURE: bool = false;

pub const DEFAULT_DEBUG: bool = false;

pub const DEFAULT_DURATION: usize = 10;

/// What the tool is asked to do.
#[derive(Debug, Clone, Copy, PartialEq, Eq, Structural)]
pub enum Request {
    Publish,
    Subscribe,
}

/// The options that every request takes.
#[derive(Debug, Clone, PartialEq, Eq)]
pub struct Args {
    pub host: String,
    pub port: u16,
    pub transport: String,
    pub topic: String,
    pub qos: u8,
    pub keep_alive: u64,
    pub insecure: bool,
    pub proto_version: String,
    pub server_name: String,
    pub debug: bool,
}

/// The options of a publish: a payload of `size` bytes, or `message`.
#[derive(Debug, Clone, PartialEq, Eq)]
pub struct PublishArgs {
    pub args: Args,
    pub size: Option<usize>,
    pub message: Option<String>,
}

/// The options of a subscription.
#[derive(Debug, Clone, PartialEq, Eq)]
pub struct SubscribeArgs {
    pub args: Args,
}

/// A command line, read.
#[derive(Debug, Clone, PartialEq, Eq)]
pub enum MqttCli {
    Publish(PublishArgs),
    Subscribe(SubscribeArgs),
}

/// The payload of a publish of `size` bytes: the character DEL so many
/// times.
pub open spec fn filler_payload(size: nat) -> Seq<char> {
    Seq::new(size, |i: int| '\u{7f}')
}

/// The transport `transport` with the options of the command line: whether
/// the server is verified, and whether Nagle's algorithm stays on.
pub open spec fn transport_with_options(
    transport: TransportView,
    insecure: bool,
    nagle: bool,
) -> TransportView {
    match transport {
        TransportView::TCP { nagle: _ } => TransportView::TCP { nagle },
        TransportView::TLS { insecure: _, nagle: _, server_name } => TransportView::TLS {
            insecure,
            nagle,
            server_name,
        },
        TransportView::QUIC { insecure: _, server_name } => TransportView::QUIC {
            insecure,
            server_name,
        },
    }
}

/// Sets the options of the command line on a transport.
pub fn configure_transport(transport: Transport, insecure: bool, nagle: bool) -> (t: Transport)
    ensures
        t@ == transport_with_options(transport@, insecure, nagle),
{
    match transport {
        Transport::TCP(_) => Transport::TCP(TcpConfig { nagle }),
        Transport::TLS(config) => Transport::TLS(
            TlsConfig { insecure, nagle, server_name: config.server_name },
        ),
        Transport::QUIC(config) => Transport::QUIC(
            QuicConfig { insecure, server_name: config.server_name },
        ),
    }
}

impl Args {
    /// The quality of service asked for; `None` for a number above 2.
    pub fn quality_of_service(&self) -> (qos: Option<Qos>)
        ensures
            qos == qos_of_level(self.qos),
    {
        Qos::from_level(self.qos)
    }

    /// The protocol version asked for; `None` where the text names none.
    pub fn version(&self) -> (version: Option<Version>)
        ensures
            version == version_named(self.proto_version@),
    {
        match Version::from_str(self.proto_version.as_str()) {
            Ok(version) => Some(version),
            Err(_) => None,
        }
    }

    /// The transport asked for, with default options; `None` where the text
    /// names none.
    pub fn transport(&self) -> (transport: Option<Transport>)
        ensures
            match transport {
                Some(t) => transport_named(self.transport@) == Some(t@),
                None => transport_named(self.transport@) is None,
            },
    {
        match Transport::from_str(self.transport.as_str()) {
            Ok(transport) => Some(transport),
            Err(_) => None,
        }
    }
}

impl PublishArgs {
    /// The payload to publish: `size` filler characters where a size is
    /// given, else the message; `None` where neither is given.
    pub fn payload(&self) -> (payload: Option<String>)
        ensures
            match payload {
                Some(text) => match self.size {
                    Some(size) => text@ == filler_payload(size as nat),
                    None => self.message matches Some(message) && text@ == message@,
                },
                None => self.size is None && self.message is None,
            },
    {
        match self.size {
            Some(size) => {
                let mut text = String::new();
                let mut written: usize = 0;
                while written < size
                    invariant
                        written <= size,
                        text@ == filler_payload(written as nat),
                    decreases size - written,
                {
                    proof {
                        reveal_strlit("\u{7f}");
                    }
                    text.append("\u{7f}");
                    written = written + 1;
                    assert(text@ =~= filler_payload(written as nat));
                }
                Some(text)
            },
            None => match &self.message {
                Some(message) => Some(message.clone()),
                None => None,
            },
        }
    }
}

impl MqttCli {
    /// What the command line asks for.
    pub fn request(&self) -> (request: Request)
        ensures
            request == match self {
                MqttCli::Publish(_) => Request::Publish,
                MqttCli::Subscribe(_) => Request::Subscribe,
            },
    {
        match self {
            MqttCli::Publish(_) => Request::Publish,
            MqttCli::Subscribe(_) => Request::Subscribe,
        }
    }
}

} // verus!
