//! The session layer: connection handshake, publish with acknowledgement,
//! disconnect. The session performs no I/O. Each operation says what is to
//! be sent and what is awaited; the caller sends, reads, and hands what
//! arrived to the operation that judges it.

use vstd::prelude::*;
use vstd::string::StringExecFns;
use vstd::utf8::{encode_utf8, is_ascii_chars, is_ascii_chars_encode_utf8};
use crate::bindings::{is_uuid_text, random_uuid_text};
use crate::client::packet_id::{PacketIdAllocator, allocated_id, next_after};
use crate::codec::{parse_packet, parse_result, serialized, write_connect, write_disconnect};
use crate::codec::write_publish;
use crate::error::{MqttError, outcome_is};
use crate::network::transport::{Dial, DialFailure, DialView, TcpConfig, Transport};
use crate::network::transport::{TransportView, dial_of, with_server_name};
use crate::packet::{ConnectView, Packet, PacketView, ProtocolLevel, PublishView, Qos, ReturnCode};
use crate::version::Version;
use crate::wire::{connect_frame, disconnect_frame};

verus! {

/// Size of the frames that acknowledge a CONNECT or a PUBLISH.
pub const ACK_PACKET_SIZE: usize = 4;

/// Largest remaining length accepted in an acknowledgement.
pub const MAX_ACK_SIZE: usize = 1024;

/// Where a session stands in its life.
#[derive(Debug, Clone, Copy, PartialEq, Eq, Structural)]
pub enum SessionState {
    /// Built, not yet connected.
    Idle,
    /// CONNECT is on its way; the broker's answer is awaited.
    Connecting,
    /// The broker accepted the connection; publishes are valid.
    Connected,
    /// DISCONNECT was handed out; the transport is being closed.
    Disconnecting,
    /// Over. A terminated session is not used again.
    Terminated,
}

/// Mathematical view of a session.
pub struct ClientView {
    pub client_id: Seq<char>,
    /// Where the packet identifier counter stands.
    pub next_pkid: u16,
    pub host: Seq<char>,
    pub server_name: Seq<char>,
    pub port: Seq<char>,
    pub version: Version,
    pub transport: TransportView,
    pub state: SessionState,
}

/// Whether `id` is a client identifier as sessions make them: `mqtt-tool-`
/// and a UUID.
pub open spec fn is_client_id(id: Seq<char>) -> bool {
    &&& id.len() == 46
    &&& id.subrange(0, 10) == "mqtt-tool-"@
    &&& is_uuid_text(id.subrange(10, 46))
}

/// The CONNECT that a session with identifier `client_id` sends: protocol
/// level 4, clean session, keep-alive 0, no will, no login.
pub open spec fn session_connect(client_id: Seq<char>) -> ConnectView {
    ConnectView {
        protocol: ProtocolLevel::V4,
        keep_alive: 0,
        client_id,
        clean_session: true,
        last_will: None,
        login: None,
    }
}

/// The PUBLISH that a session sends for a topic, a text payload and a packet
/// identifier: neither duplicate nor retained, the payload as its UTF-8
/// bytes.
pub open spec fn session_publish(
    topic: Seq<char>,
    payload: Seq<char>,
    qos: Qos,
    pkid: u16,
) -> PublishView {
    PublishView {
        dup: false,
        qos,
        retain: false,
        topic,
        pkid,
        payload: encode_utf8(payload),
    }
}

/// What `connect` hands to the caller: the transport to open, the frame to
/// send over it, and the size of the answer to read.
#[derive(Debug, Clone, PartialEq, Eq)]
pub struct ConnectPlan {
    pub dial: Dial,
    pub frame: Vec<u8>,
    pub ack_size: usize,
}

/// Mathematical view of a connect plan.
pub struct ConnectPlanView {
    pub dial: DialView,
    pub frame: Seq<u8>,
    pub ack_size: usize,
}

impl View for ConnectPlan {
    type V = ConnectPlanView;

    open spec fn view(&self) -> ConnectPlanView {
        ConnectPlanView { dial: self.dial@, frame: self.frame@, ack_size: self.ack_size }
    }
}

/// What `publish` hands to the caller: the frame to send and, at quality of
/// service 1, the size of the acknowledgement to read and hand to
/// `publish_ack` together with `pkid`.
#[derive(Debug, Clone, PartialEq, Eq)]
pub struct PublishPlan {
    pub frame: Vec<u8>,
    /// Packet identifier of the publish; 0 at quality of service 0.
    pub pkid: u16,
    /// Size of the acknowledgement to read; 0 where none comes.
    pub ack_size: usize,
}

/// Mathematical view of a publish plan.
pub struct PublishPlanView {
    pub frame: Seq<u8>,
    pub pkid: u16,
    pub ack_size: usize,
}

impl View for PublishPlan {
    type V = PublishPlanView;

    open spec fn view(&self) -> PublishPlanView {
        PublishPlanView { frame: self.frame@, pkid: self.pkid, ack_size: self.ack_size }
    }
}

/// What `connect` does to a session and what it returns.
///
/// A session of another version than 3.1.1 is refused, and so is one that
/// is not idle; it stays as it is. An idle session goes over to connecting,
/// and the plan names the transport to open, the CONNECT frame to send and
/// the size of the answer.
pub open spec fn connect_step(s: ClientView) -> (ClientView, Result<ConnectPlanView, MqttError>) {
    if s.version != Version::V311 {
        (s, Err(MqttError::UnsupportedVersion))
    } else if s.state != SessionState::Idle {
        (s, Err(MqttError::InvalidState))
    } else {
        (
            ClientView { state: SessionState::Connecting, ..s },
            Ok(
                ConnectPlanView {
                    dial: dial_of(s.transport, s.host, s.port),
                    frame: connect_frame(session_connect(s.client_id)),
                    ack_size: ACK_PACKET_SIZE,
                },
            ),
        )
    }
}

/// How the answer to a CONNECT is judged: success only for a CONNACK with
/// return code success. A CONNACK with another code is a refusal with that
/// code, another packet is unexpected, and bytes that do not read as a
/// packet are malformed.
pub open spec fn connack_verdict(answer: Result<PacketView, MqttError>) -> Result<(), MqttError> {
    match answer {
        Ok(PacketView::ConnAck(ack)) => if ack.code == ReturnCode::Success {
            Ok(())
        } else {
            Err(MqttError::ConnectionRefused { code: ack.code })
        },
        Ok(_) => Err(MqttError::UnexpectedPacket),
        Err(_) => Err(MqttError::MalformedPacket),
    }
}

/// What `connect_ack` does to a session and what it returns, for the bytes
/// `received`.
///
/// Only a connecting session takes an answer; any other refuses and stays
/// as it is. An answer that is accepted makes the session connected; any
/// other terminates it.
pub open spec fn connect_ack_step(s: ClientView, received: Seq<u8>) -> (
    ClientView,
    Result<(), MqttError>,
) {
    if s.state != SessionState::Connecting {
        (s, Err(MqttError::InvalidState))
    } else {
        let verdict = connack_verdict(parse_result(received, MAX_ACK_SIZE as nat));
        (
            ClientView {
                state: if verdict is Ok {
                    SessionState::Connected
                } else {
                    SessionState::Terminated
                },
                ..s
            },
            verdict,
        )
    }
}

/// The error that a failure to open the transport is reported as.
pub open spec fn dial_error(failure: DialFailure) -> MqttError {
    match failure {
        DialFailure::Dial => MqttError::ConnectFailed,
        DialFailure::Tls => MqttError::TlsError,
        DialFailure::Quic => MqttError::QuicError,
    }
}

/// What `connect_failed` does to a session: a connecting session is
/// terminated; in any other state the session stays as it is.
pub open spec fn connect_failed_step(s: ClientView) -> ClientView {
    if s.state == SessionState::Connecting {
        ClientView { state: SessionState::Terminated, ..s }
    } else {
        s
    }
}

/// The packet identifier of a publish at quality of service `qos` when the
/// counter stands at `next`: none, written 0, at quality of service 0.
pub open spec fn publish_pkid(qos: Qos, next: u16) -> u16 {
    if qos == Qos::AtMostOnce {
        0
    } else {
        allocated_id(next)
    }
}

/// Where the counter stands after a publish at quality of service `qos`.
pub open spec fn publish_next(qos: Qos, next: u16) -> u16 {
    if qos == Qos::AtMostOnce {
        next
    } else {
        next_after(next)
    }
}

/// What `publish` does to a session and what it returns.
///
/// Only a connected session publishes. Quality of service 2 is not
/// supported: nothing is written and no packet identifier is used up. At
/// quality of service 1 the publish takes the next packet identifier and
/// asks for an acknowledgement; at quality of service 0 it has no
/// identifier and waits for nothing. A publish too long for a frame is
/// malformed; its packet identifier is used up all the same.
pub open spec fn publish_step(s: ClientView, topic: Seq<char>, payload: Seq<char>, qos: Qos) -> (
    ClientView,
    Result<PublishPlanView, MqttError>,
) {
    if s.state != SessionState::Connected {
        (s, Err(MqttError::InvalidState))
    } else if qos == Qos::ExactlyOnce {
        (s, Err(MqttError::UnsupportedQoS))
    } else {
        let pkid = publish_pkid(qos, s.next_pkid);
        (
            ClientView { next_pkid: publish_next(qos, s.next_pkid), ..s },
            match serialized(PacketView::Publish(session_publish(topic, payload, qos, pkid))) {
                Some(frame) => Ok(
                    PublishPlanView {
                        frame,
                        pkid,
                        ack_size: if qos == Qos::AtMostOnce {
                            0
                        } else {
                            ACK_PACKET_SIZE
                        },
                    },
                ),
                None => Err(MqttError::MalformedPacket),
            },
        )
    }
}

/// How the answer to a PUBLISH with packet identifier `sent` is judged:
/// success only for a PUBACK with that identifier. A PUBACK with another is
/// mismatched, another packet is unexpected, and bytes that do not read as
/// a packet are malformed.
pub open spec fn puback_verdict(sent: u16, answer: Result<PacketView, MqttError>) -> Result<
    (),
    MqttError,
> {
    match answer {
        Ok(PacketView::PubAck(pkid)) => if pkid == sent {
            Ok(())
        } else {
            Err(MqttError::MismatchedAck { sent, received: pkid })
        },
        Ok(_) => Err(MqttError::UnexpectedPacket),
        Err(_) => Err(MqttError::MalformedPacket),
    }
}

/// What `disconnect` does to a session and what it returns: a connected
/// session goes over to disconnecting and hands out the DISCONNECT frame;
/// any other refuses and stays as it is.
pub open spec fn disconnect_step(s: ClientView) -> (ClientView, Result<Seq<u8>, MqttError>) {
    if s.state != SessionState::Connected {
        (s, Err(MqttError::InvalidState))
    } else {
        (ClientView { state: SessionState::Disconnecting, ..s }, Ok(disconnect_frame()))
    }
}

/// What `terminate` does to a session.
pub open spec fn terminate_step(s: ClientView) -> ClientView {
    ClientView { state: SessionState::Terminated, ..s }
}

/// A session of the publish protocol over one transport.
#[derive(Debug)]
pub struct Client {
    client_id: String,
    pkid: PacketIdAllocator,
    host: String,
    server_name: String,
    port: String,
    version: Version,
    transport: Transport,
    state: SessionState,
}

impl View for Client {
    type V = ClientView;

    closed spec fn view(&self) -> ClientView {
        ClientView {
            client_id: self.client_id@,
            next_pkid: self.pkid.next,
            host: self.host@,
            server_name: self.server_name@,
            port: self.port@,
            version: self.version,
            transport: self.transport@,
            state: self.state,
        }
    }
}

/// The text of a UUID is ASCII.
proof fn lemma_uuid_text_is_ascii(text: Seq<char>)
    requires
        is_uuid_text(text),
    ensures
        is_ascii_chars(text),
{
    assert forall|i: int| 0 <= i < text.len() implies '\0' <= #[trigger] text[i] <= '\u{7f}' by {
        if i == 8 || i == 13 || i == 18 || i == 23 {
            assert(text[i] == '-');
        }
    }
}

/// A session's identifier is ASCII and makes a CONNECT that can be written.
pub proof fn lemma_client_id_fits(id: Seq<char>)
    requires
        is_client_id(id),
    ensures
        is_ascii_chars(id),
        encode_utf8(id).len() == 46,
        serialized(PacketView::Connect(session_connect(id))) == Some(
            connect_frame(session_connect(id)),
        ),
{
    reveal_strlit("mqtt-tool-");
    lemma_uuid_text_is_ascii(id.subrange(10, 46));
    assert forall|i: int| 0 <= i < id.len() implies '\0' <= #[trigger] id[i] <= '\u{7f}' by {
        if i < 10 {
            assert(id[i] == id.subrange(0, 10)[i]);
        } else {
            assert(id[i] == id.subrange(10, 46)[i - 10]);
        }
    }
    is_ascii_chars_encode_utf8(id);
}

/// A client identifier with a random UUID.
fn fresh_client_id() -> (id: String)
    ensures
        is_client_id(id@),
{
    let unique = random_uuid_text();
    let id = "mqtt-tool-".to_owned().concat(unique.as_str());
    proof {
        reveal_strlit("mqtt-tool-");
        assert(id@.subrange(0, 10) =~= "mqtt-tool-"@);
        assert(id@.subrange(10, 46) =~= unique@);
    }
    id
}

impl Client {
    #[verifier::type_invariant]
    spec fn well_formed(self) -> bool {
        is_client_id(self.client_id@)
    }

    /// A session in its idle state, with a fresh client identifier and a
    /// packet identifier counter at 1. `server_name` becomes the server name
    /// of the transport.
    pub fn new(
        host: String,
        server_name: String,
        port: String,
        transport: Transport,
        version: Version,
    ) -> (client: Client)
        ensures
            is_client_id(client@.client_id),
            client@ == (ClientView {
                client_id: client@.client_id,
                next_pkid: 1,
                host: host@,
                server_name: server_name@,
                port: port@,
                version,
                transport: with_server_name(transport@, server_name@),
                state: SessionState::Idle,
            }),
    {
        let transport = transport.bind_server_name(server_name.as_str());
        Client {
            client_id: fresh_client_id(),
            pkid: PacketIdAllocator::new(),
            host,
            server_name,
            port,
            version,
            transport,
            state: SessionState::Idle,
        }
    }

    /// The state of the session.
    pub fn state(&self) -> (state: SessionState)
        ensures
            state == self@.state,
    {
        self.state
    }

    /// The protocol version of the session.
    pub fn version(&self) -> (version: Version)
        ensures
            version == self@.version,
    {
        self.version
    }

    /// The host of the broker.
    pub fn host(&self) -> (host: &str)
        ensures
            host@ == self@.host,
    {
        self.host.as_str()
    }

    /// The port of the broker.
    pub fn port(&self) -> (port: &str)
        ensures
            port@ == self@.port,
    {
        self.port.as_str()
    }

    /// The server name given to the session.
    pub fn server_name(&self) -> (server_name: &str)
        ensures
            server_name@ == self@.server_name,
    {
        self.server_name.as_str()
    }

    /// The client identifier of the session.
    pub fn client_id(&self) -> (id: &str)
        ensures
            id@ == self@.client_id,
            is_client_id(id@),
    {
        proof {
            use_type_invariant(self);
        }
        self.client_id.as_str()
    }

    /// Starts the connection handshake, as [`connect_step`] says. On
    /// success the caller opens the transport, sends the CONNECT frame,
    /// reads the answer and hands it to `connect_ack`; where any of that
    /// fails it calls `connect_failed` or `terminate`.
    pub fn connect(&mut self) -> (r: Result<ConnectPlan, MqttError>)
        ensures
            final(self)@ == connect_step(old(self)@).0,
            outcome_is(r, connect_step(old(self)@).1),
    {
        proof {
            use_type_invariant(&*self);
            lemma_client_id_fits(self.client_id@);
        }
        if !self.version.is_supported() {
            return Err(MqttError::UnsupportedVersion);
        }
        match self.state {
            SessionState::Idle => {},
            _ => {
                return Err(MqttError::InvalidState);
            },
        }
        let dial = self.transport.dial(self.host.as_str(), self.port.as_str());
        match write_connect(self.client_id.as_str(), ProtocolLevel::V4, 0, true) {
            Ok(frame) => {
                self.state = SessionState::Connecting;
                Ok(ConnectPlan { dial, frame, ack_size: ACK_PACKET_SIZE })
            },
            Err(e) => Err(e),
        }
    }

    /// Judges the broker's answer to CONNECT, as [`connect_ack_step`] says.
    pub fn connect_ack(&mut self, received: Vec<u8>) -> (r: Result<(), MqttError>)
        ensures
            final(self)@ == connect_ack_step(old(self)@, received@).0,
            r == connect_ack_step(old(self)@, received@).1,
    {
        proof {
            use_type_invariant(&*self);
        }
        match self.state {
            SessionState::Connecting => {},
            _ => {
                return Err(MqttError::InvalidState);
            },
        }
        let mut received = received;
        let verdict = match parse_packet(&mut received, MAX_ACK_SIZE, &Version::V311) {
            Ok(Packet::ConnAck(ack)) => {
                match ack.code {
                    ReturnCode::Success => Ok(()),
                    _ => Err(MqttError::ConnectionRefused { code: ack.code }),
                }
            },
            Ok(_) => Err(MqttError::UnexpectedPacket),
            Err(_) => Err(MqttError::MalformedPacket),
        };
        self.state = match verdict {
            Ok(_) => SessionState::Connected,
            Err(_) => SessionState::Terminated,
        };
        verdict
    }

    /// Takes note that opening the transport failed, and tells the error to
    /// report. A connecting session is terminated by it.
    pub fn connect_failed(&mut self, failure: DialFailure) -> (e: MqttError)
        ensures
            final(self)@ == connect_failed_step(old(self)@),
            e == dial_error(failure),
    {
        proof {
            use_type_invariant(&*self);
        }
        match self.state {
            SessionState::Connecting => {
                self.state = SessionState::Terminated;
            },
            _ => {},
        }
        failure.error()
    }

    /// Prepares one publish, as [`publish_step`] says. On success the
    /// caller sends the frame and, where the plan asks for it, reads the
    /// acknowledgement and hands it to `publish_ack`.
    pub fn publish(&mut self, topic: String, payload: String, qos: Qos) -> (r: Result<
        PublishPlan,
        MqttError,
    >)
        ensures
            final(self)@ == publish_step(old(self)@, topic@, payload@, qos).0,
            outcome_is(r, publish_step(old(self)@, topic@, payload@, qos).1),
    {
        proof {
            use_type_invariant(&*self);
        }
        match self.state {
            SessionState::Connected => {},
            _ => {
                return Err(MqttError::InvalidState);
            },
        }
        let (pkid, ack_size): (u16, usize) = match qos {
            Qos::AtMostOnce => (0, 0),
            Qos::AtLeastOnce => {
                let mut ids = self.pkid;
                let pkid = ids.allocate();
                self.pkid = ids;
                (pkid, ACK_PACKET_SIZE)
            },
            Qos::ExactlyOnce => {
                return Err(MqttError::UnsupportedQoS);
            },
        };
        match write_publish(topic.as_str(), payload.as_str().as_bytes(), qos, pkid, false, false) {
            Ok(frame) => Ok(PublishPlan { frame, pkid, ack_size }),
            Err(e) => Err(e),
        }
    }

    /// Judges the broker's answer to a publish with packet identifier
    /// `sent`, as [`puback_verdict`] says. The session stays as it is.
    pub fn publish_ack(&self, sent: u16, received: Vec<u8>) -> (r: Result<(), MqttError>)
        ensures
            r == puback_verdict(sent, parse_result(received@, MAX_ACK_SIZE as nat)),
    {
        let mut received = received;
        match parse_packet(&mut received, MAX_ACK_SIZE, &Version::V311) {
            Ok(Packet::PubAck(pkid)) => {
                if pkid == sent {
                    Ok(())
                } else {
                    Err(MqttError::MismatchedAck { sent, received: pkid })
                }
            },
            Ok(_) => Err(MqttError::UnexpectedPacket),
            Err(_) => Err(MqttError::MalformedPacket),
        }
    }

    /// Starts the disconnect, as [`disconnect_step`] says. The caller sends
    /// the DISCONNECT frame as well as it can, then calls `terminate`.
    pub fn disconnect(&mut self) -> (r: Result<Vec<u8>, MqttError>)
        ensures
            final(self)@ == disconnect_step(old(self)@).0,
            outcome_is(r, disconnect_step(old(self)@).1),
    {
        proof {
            use_type_invariant(&*self);
        }
        match self.state {
            SessionState::Connected => {},
            _ => {
                return Err(MqttError::InvalidState);
            },
        }
        self.state = SessionState::Disconnecting;
        Ok(write_disconnect())
    }

    /// Ends the session, whatever state it is in.
    pub fn terminate(&mut self)
        ensures
            final(self)@ == terminate_step(old(self)@),
    {
        proof {
            use_type_invariant(&*self);
        }
        self.state = SessionState::Terminated;
    }
}

impl Default for Client {
    /// A session for a broker at `localhost:1883` over TCP, at version 3.1.1.
    fn default() -> (client: Client)
        ensures
            is_client_id(client@.client_id),
            client@ == (ClientView {
                client_id: client@.client_id,
                next_pkid: 1,
                host: "localhost"@,
                server_name: "localhost"@,
                port: "1883"@,
                version: Version::V311,
                transport: TransportView::TCP { nagle: true },
                state: SessionState::Idle,
            }),
    {
        Client::new(
            "localhost".to_owned(),
            "localhost".to_owned(),
            "1883".to_owned(),
            Transport::TCP(TcpConfig { nagle: true }),
            Version::V311,
        )
    }
}

} // verus!
