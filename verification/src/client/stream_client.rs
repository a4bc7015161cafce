//! The pipelined profile: publishes are handed to an intake queue and their
//! acknowledgements are counted off as they come in.

use vstd::prelude::*;
use crate::client::client::{Client, ClientView, PublishPlan, SessionState};
use crate::client::client::{MAX_ACK_SIZE, connect_ack_step, connect_failed_step, connect_step};
use crate::client::client::{dial_error, disconnect_step, is_client_id, publish_step};
use crate::client::client::{puback_verdict, terminate_step};
use crate::codec::{parse_packet, parse_result};
use crate::error::{MqttError, outcome_is};
use crate::network::channel::{ChannelResult, QueueMode, queue_mode_of};
use crate::network::channel_network::{ChannelNetwork, ChannelNetworkView, ChannelState};
use crate::network::channel_network::{DEFAULT_QUEUE, send_verdict};
use crate::network::transport::{Dial, DialFailure, DialView, TcpConfig, Transport};
use crate::network::transport::{TransportView, with_server_name};
use crate::packet::{Packet, PacketView, Qos};
use crate::version::Version;

verus! {

/// Mathematical view of a stream session.
pub struct StreamView {
    pub client: ClientView,
    pub network: ChannelNetworkView,
    /// Publishes handed to the intake queue and not yet acknowledged.
    pub in_flight: u16,
}

/// What `connect` hands to the caller: the intake queue to build, the
/// transport to open, the CONNECT frame to send and the size of the answer.
#[derive(Debug, Clone, PartialEq, Eq)]
pub struct StreamConnectPlan {
    pub queue: QueueMode,
    pub dial: Dial,
    pub frame: Vec<u8>,
    pub ack_size: usize,
}

/// Mathematical view of a stream connect plan.
pub struct StreamConnectPlanView {
    pub queue: QueueMode,
    pub dial: DialView,
    pub frame: Seq<u8>,
    pub ack_size: usize,
}

impl View for StreamConnectPlan {
    type V = StreamConnectPlanView;

    open spec fn view(&self) -> StreamConnectPlanView {
        StreamConnectPlanView {
            queue: self.queue,
            dial: self.dial@,
            frame: self.frame@,
            ack_size: self.ack_size,
        }
    }
}

/// Mathematical view of a disconnect step.
pub enum DisconnectStepView {
    Yield,
    Send(Seq<u8>),
}

impl View for DisconnectStep {
    type V = DisconnectStepView;

    open spec fn view(&self) -> DisconnectStepView {
        match self {
            DisconnectStep::Yield => DisconnectStepView::Yield,
            DisconnectStep::Send(frame) => DisconnectStepView::Send(frame@),
        }
    }
}

/// What `disconnect` asks of the caller.
#[derive(Debug, Clone, PartialEq, Eq)]
pub enum DisconnectStep {
    /// Publishes are still in flight: let the other tasks run, then ask
    /// again.
    Yield,
    /// Nothing is in flight: send this DISCONNECT frame, then call `close`.
    Send(Vec<u8>),
}

/// The counter one up, going round at the top.
pub open spec fn counter_up(n: u16) -> u16 {
    if n == u16::MAX {
        0
    } else {
        (n + 1) as u16
    }
}

/// The counter one down, going round at the bottom.
pub open spec fn counter_down(n: u16) -> u16 {
    if n == 0 {
        u16::MAX
    } else {
        (n - 1) as u16
    }
}

/// Something that happened to a stream session's pipeline.
pub enum StreamEvent {
    /// A publish at quality of service `qos` was handed to the intake queue
    /// of a network in state `network`, and the queue answered `outcome`.
    Submitted { qos: Qos, network: ChannelState, outcome: Result<ChannelResult, ()> },
    /// A frame came from the broker, which read as a packet or did not.
    Frame { parsed: bool },
}

/// Whether a submission counts as in flight: the queue took the frame
/// without dropping another for it, and an acknowledgement will come.
pub open spec fn counts_in_flight(
    qos: Qos,
    network: ChannelState,
    outcome: Result<ChannelResult, ()>,
) -> bool {
    qos != Qos::AtMostOnce && send_verdict(network, outcome) is Ok
}

/// The in-flight counter after one event.
pub open spec fn in_flight_step(n: u16, event: StreamEvent) -> u16 {
    match event {
        StreamEvent::Submitted { qos, network, outcome } => if counts_in_flight(
            qos,
            network,
            outcome,
        ) {
            counter_up(n)
        } else {
            n
        },
        StreamEvent::Frame { parsed } => if parsed {
            counter_down(n)
        } else {
            n
        },
    }
}

/// The in-flight counter after a run of events.
pub open spec fn in_flight_after(n: u16, events: Seq<StreamEvent>) -> u16
    decreases events.len(),
{
    if events.len() == 0 {
        n
    } else {
        in_flight_step(in_flight_after(n, events.drop_last()), events.last())
    }
}

/// How many events of a run are submissions.
pub open spec fn submissions(events: Seq<StreamEvent>) -> nat
    decreases events.len(),
{
    if events.len() == 0 {
        0
    } else {
        submissions(events.drop_last()) + (if events.last() is Submitted {
            1nat
        } else {
            0nat
        })
    }
}

/// How many events of a run are frames that read as a packet.
pub open spec fn acknowledgements(events: Seq<StreamEvent>) -> nat
    decreases events.len(),
{
    if events.len() == 0 {
        0
    } else {
        acknowledgements(events.drop_last()) + (if events.last() matches StreamEvent::Frame {
            parsed: true,
        } {
            1nat
        } else {
            0nat
        })
    }
}

/// Whether every submission of a run is at quality of service 1 into a
/// first-in-first-out queue of an open network, which takes every frame.
pub open spec fn all_fifo_at_least_once(events: Seq<StreamEvent>) -> bool {
    forall|i: int|
        0 <= i < events.len() ==> (#[trigger] events[i] matches StreamEvent::Submitted {
            qos,
            network,
            outcome,
        } ==> qos == Qos::AtLeastOnce && network == ChannelState::Open && outcome == Ok::<
            ChannelResult,
            (),
        >(ChannelResult::Added))
}

/// Whether every submission of a run is at quality of service 0.
pub open spec fn all_at_most_once(events: Seq<StreamEvent>) -> bool {
    forall|i: int|
        0 <= i < events.len() ==> (#[trigger] events[i] matches StreamEvent::Submitted {
            qos,
            network,
            outcome,
        } ==> qos == Qos::AtMostOnce)
}

/// With a first-in-first-out queue and quality of service 1, every
/// submission raises the counter by one and every acknowledgement lowers it
/// by one: from 0, the counter is the number of submissions less the
/// number of acknowledgements, in 16-bit arithmetic.
pub proof fn lemma_in_flight_balance(events: Seq<StreamEvent>)
    requires
        all_fifo_at_least_once(events),
    ensures
        in_flight_after(0, events) as int == (submissions(events) - acknowledgements(events))
            % 65536,
    decreases events.len(),
{
    if events.len() > 0 {
        let earlier = events.drop_last();
        assert(forall|i: int| 0 <= i < earlier.len() ==> earlier[i] == events[i]);
        lemma_in_flight_balance(earlier);
        let before = in_flight_after(0, earlier) as int;
        let balance = submissions(earlier) - acknowledgements(earlier);
        assert(events.last() == events[events.len() - 1]);
        match events.last() {
            StreamEvent::Submitted { qos, network, outcome } => {
                assert(counts_in_flight(qos, network, outcome));
                assert((balance + 1) % 65536 == counter_up(before as u16)) by {
                    lemma_step_up(balance);
                }
            },
            StreamEvent::Frame { parsed } => {
                if parsed {
                    assert((balance - 1) % 65536 == counter_down(before as u16)) by {
                        lemma_step_down(balance);
                    }
                }
            },
        }
    }
}

/// One more, in 16-bit arithmetic.
proof fn lemma_step_up(balance: int)
    ensures
        (balance + 1) % 65536 == if balance % 65536 == 65535 {
            0
        } else {
            balance % 65536 + 1
        },
{
}

/// One less, in 16-bit arithmetic.
proof fn lemma_step_down(balance: int)
    ensures
        (balance - 1) % 65536 == if balance % 65536 == 0 {
            65535
        } else {
            balance % 65536 - 1
        },
{
}

/// Publishes at quality of service 0 never raise the counter: where no
/// frame comes in, a run of them leaves it where it was.
pub proof fn lemma_at_most_once_never_counts(n: u16, events: Seq<StreamEvent>)
    requires
        all_at_most_once(events),
        acknowledgements(events) == 0,
    ensures
        in_flight_after(n, events) == n,
    decreases events.len(),
{
    if events.len() > 0 {
        let earlier = events.drop_last();
        assert(forall|i: int| 0 <= i < earlier.len() ==> earlier[i] == events[i]);
        assert(events.last() == events[events.len() - 1]);
        lemma_at_most_once_never_counts(n, earlier);
    }
}

/// The disconnect hands out its frame only when nothing is in flight, and
/// leaves the counter at 0.
pub proof fn lemma_disconnect_waits_for_acknowledgements(s: StreamView)
    requires
        stream_disconnect_step(s).1 matches Ok(DisconnectStepView::Send(_)),
    ensures
        s.in_flight == 0,
        s.client.state == SessionState::Connected,
        stream_disconnect_step(s).0.in_flight == 0,
        stream_disconnect_step(s).0.client.state == SessionState::Disconnecting,
{
}

/// An operation on a stream session.
pub enum StreamOp {
    SetQueue { queue: i64 },
    Connect,
    ConnectAck { received: Seq<u8> },
    ConnectFailed,
    Publish { topic: Seq<char>, payload: Seq<char>, qos: Qos },
    StreamPublish { topic: Seq<char>, payload: Seq<char>, qos: Qos },
    Submitted { qos: Qos, outcome: Result<ChannelResult, ()> },
    AckReceived { received: Seq<u8> },
    Disconnect,
    Close,
}

/// The stream session after an operation.
pub open spec fn stream_step(s: StreamView, op: StreamOp) -> StreamView {
    match op {
        StreamOp::SetQueue { queue } => StreamView {
            network: ChannelNetworkView { queue, ..s.network },
            ..s
        },
        StreamOp::Connect => stream_connect_step(s).0,
        StreamOp::ConnectAck { received } => StreamView {
            client: connect_ack_step(s.client, received).0,
            ..s
        },
        StreamOp::ConnectFailed => StreamView { client: connect_failed_step(s.client), ..s },
        StreamOp::Publish { topic, payload, qos } => StreamView {
            client: publish_step(s.client, topic, payload, qos).0,
            ..s
        },
        StreamOp::StreamPublish { topic, payload, qos } => StreamView {
            client: publish_step(s.client, topic, payload, qos).0,
            ..s
        },
        StreamOp::Submitted { qos, outcome } => StreamView {
            in_flight: in_flight_step(
                s.in_flight,
                StreamEvent::Submitted { qos, network: s.network.state, outcome },
            ),
            ..s
        },
        StreamOp::AckReceived { received } => StreamView {
            in_flight: in_flight_step(
                s.in_flight,
                StreamEvent::Frame {
                    parsed: stream_frame_outcome(s.client.version, received) is Ok,
                },
            ),
            ..s
        },
        StreamOp::Disconnect => stream_disconnect_step(s).0,
        StreamOp::Close => stream_close_step(s),
    }
}

/// Only `close` stops the tasks of the network, and only what the queue
/// answered and what the broker sent moves the in-flight counter: no other
/// operation cancels the network or changes the counter.
pub proof fn lemma_stream_steps_keep_apart(s: StreamView, op: StreamOp)
    ensures
        s.network.state != ChannelState::Cancelled && stream_step(s, op).network.state
            == ChannelState::Cancelled ==> op is Close,
        stream_step(s, op).in_flight != s.in_flight ==> op is Submitted || op is AckReceived,
        op is StreamPublish ==> stream_step(s, op).in_flight == s.in_flight,
{
}

/// A session that hands its publishes to an intake queue and does not wait
/// for their acknowledgements.
#[derive(Debug)]
pub struct StreamMqttClient {
    _client: Client,
    network: ChannelNetwork,
    pending_requests: u16,
}

impl View for StreamMqttClient {
    type V = StreamView;

    closed spec fn view(&self) -> StreamView {
        StreamView {
            client: self._client@,
            network: self.network@,
            in_flight: self.pending_requests,
        }
    }
}

/// Why `connect` refuses a stream session, if it does: another version than
/// 3.1.1; a session that is not idle or a network that is not closed; a
/// queue setting that selects no queue.
pub open spec fn stream_connect_refusal(s: StreamView) -> Option<MqttError> {
    if s.client.version != Version::V311 {
        Some(MqttError::UnsupportedVersion)
    } else if s.client.state != SessionState::Idle || s.network.state != ChannelState::Closed {
        Some(MqttError::InvalidState)
    } else if queue_mode_of(s.network.queue) is None {
        Some(MqttError::InvalidQueue)
    } else {
        None
    }
}

/// What `connect` does to a stream session and what it returns. A refused
/// session stays as it is. Else the session goes over to connecting as
/// [`connect_step`] says and its network opens; the plan adds the intake
/// queue to build.
pub open spec fn stream_connect_step(s: StreamView) -> (
    StreamView,
    Result<StreamConnectPlanView, MqttError>,
) {
    match stream_connect_refusal(s) {
        Some(e) => (s, Err(e)),
        None => {
            let plan = connect_step(s.client).1->Ok_0;
            (
                StreamView {
                    client: connect_step(s.client).0,
                    network: ChannelNetworkView {
                        transport: with_server_name(s.network.transport, s.client.server_name),
                        state: ChannelState::Open,
                        ..s.network
                    },
                    ..s
                },
                Ok(
                    StreamConnectPlanView {
                        queue: queue_mode_of(s.network.queue)->Some_0,
                        dial: plan.dial,
                        frame: plan.frame,
                        ack_size: plan.ack_size,
                    },
                ),
            )
        },
    }
}

/// What `disconnect` does to a stream session and what it returns. While
/// publishes are in flight the caller is asked to yield, and nothing
/// changes. Once none is in flight the session disconnects as
/// [`disconnect_step`] says.
pub open spec fn stream_disconnect_step(s: StreamView) -> (
    StreamView,
    Result<DisconnectStepView, MqttError>,
) {
    if s.in_flight > 0 {
        (s, Ok(DisconnectStepView::Yield))
    } else {
        (
            StreamView { client: disconnect_step(s.client).0, ..s },
            match disconnect_step(s.client).1 {
                Ok(frame) => Ok(DisconnectStepView::Send(frame)),
                Err(e) => Err(e),
            },
        )
    }
}

/// What `close` does to a stream session: the network is cancelled and the
/// session terminated.
pub open spec fn stream_close_step(s: StreamView) -> StreamView {
    StreamView {
        client: terminate_step(s.client),
        network: ChannelNetworkView { state: ChannelState::Cancelled, ..s.network },
        ..s
    }
}

/// What reading a frame of the receiving task gives in a session of the
/// given version.
pub open spec fn stream_frame_outcome(version: Version, received: Seq<u8>) -> Result<
    PacketView,
    MqttError,
> {
    if version == Version::V311 {
        parse_result(received, MAX_ACK_SIZE as nat)
    } else {
        Err(MqttError::UnsupportedVersion)
    }
}

impl StreamMqttClient {
    /// A session in its idle state, with nothing in flight and the default
    /// intake queue.
    pub fn new(
        host: String,
        server_name: String,
        port: String,
        transport: Transport,
        version: Version,
    ) -> (client: StreamMqttClient)
        ensures
            is_client_id(client@.client.client_id),
            client@ == (StreamView {
                client: ClientView {
                    client_id: client@.client.client_id,
                    next_pkid: 1,
                    host: host@,
                    server_name: server_name@,
                    port: port@,
                    version,
                    transport: with_server_name(transport@, server_name@),
                    state: SessionState::Idle,
                },
                network: ChannelNetworkView {
                    transport: with_server_name(transport@, server_name@),
                    queue: DEFAULT_QUEUE,
                    state: ChannelState::Closed,
                },
                in_flight: 0,
            }),
    {
        let network = ChannelNetwork::new(transport.bind_server_name(server_name.as_str()));
        StreamMqttClient {
            _client: Client::new(host, server_name, port, transport, version),
            network,
            pending_requests: 0,
        }
    }

    /// Sets the intake queue: -1 for a queue without limit, 0 for the single
    /// slot, a positive number for a queue of that capacity. It takes effect
    /// at `connect`.
    pub fn set_queue(&mut self, queue: i64)
        ensures
            final(self)@ == (StreamView {
                network: ChannelNetworkView { queue, ..old(self)@.network },
                ..old(self)@
            }),
    {
        self.network.set_queue(queue);
    }

    /// The number of publishes in flight.
    pub fn in_flight(&self) -> (n: u16)
        ensures
            n == self@.in_flight,
    {
        self.pending_requests
    }

    /// The state of the session.
    pub fn state(&self) -> (state: SessionState)
        ensures
            state == self@.client.state,
    {
        self._client.state()
    }

    /// The pipelined transport of the session.
    pub fn network(&self) -> (network: &ChannelNetwork)
        ensures
            network@ == self@.network,
    {
        &self.network
    }

    /// The client identifier of the session.
    pub fn client_id(&self) -> (id: &str)
        ensures
            id@ == self@.client.client_id,
            is_client_id(id@),
    {
        self._client.client_id()
    }

    /// Starts the connection handshake, as [`stream_connect_step`] says. On
    /// success the caller builds the queue, opens the transport and starts
    /// the two tasks, sends the CONNECT frame, reads the answer and hands
    /// it to `connect_ack`.
    pub fn connect(&mut self) -> (r: Result<StreamConnectPlan, MqttError>)
        ensures
            final(self)@ == stream_connect_step(old(self)@).0,
            outcome_is(r, stream_connect_step(old(self)@).1),
    {
        if !self._client.version().is_supported() {
            return Err(MqttError::UnsupportedVersion);
        }
        match (self._client.state(), self.network.state()) {
            (SessionState::Idle, ChannelState::Closed) => {},
            _ => {
                return Err(MqttError::InvalidState);
            },
        }
        if QueueMode::from_config(self.network.queue()).is_none() {
            return Err(MqttError::InvalidQueue);
        }
        let connect = match self._client.connect() {
            Ok(connect) => connect,
            Err(e) => {
                return Err(e);
            },
        };
        let server_name = self._client.server_name().to_owned();
        let host = self._client.host().to_owned();
        let port = self._client.port().to_owned();
        match self.network.connect(&host, &port, &server_name) {
            Ok(channel) => Ok(
                StreamConnectPlan {
                    queue: channel.queue,
                    dial: connect.dial,
                    frame: connect.frame,
                    ack_size: connect.ack_size,
                },
            ),
            Err(e) => Err(e),
        }
    }

    /// Judges the broker's answer to CONNECT, as [`connect_ack_step`] says.
    /// Once the session is connected the caller starts to hand every frame
    /// that the receiving task delivers to `ack_received`.
    pub fn connect_ack(&mut self, received: Vec<u8>) -> (r: Result<(), MqttError>)
        ensures
            final(self)@ == (StreamView {
                client: connect_ack_step(old(self)@.client, received@).0,
                ..old(self)@
            }),
            r == connect_ack_step(old(self)@.client, received@).1,
    {
        self._client.connect_ack(received)
    }

    /// Takes note that opening the transport failed, and tells the error to
    /// report. A connecting session is terminated by it.
    pub fn connect_failed(&mut self, failure: DialFailure) -> (e: MqttError)
        ensures
            final(self)@ == (StreamView {
                client: connect_failed_step(old(self)@.client),
                ..old(self)@
            }),
            e == dial_error(failure),
    {
        self._client.connect_failed(failure)
    }

    /// Prepares one publish whose acknowledgement is waited for, as
    /// [`publish_step`] says. The in-flight counter has no part in it.
    pub fn publish(&mut self, topic: String, payload: String, qos: Qos) -> (r: Result<
        PublishPlan,
        MqttError,
    >)
        ensures
            final(self)@ == (StreamView {
                client: publish_step(old(self)@.client, topic@, payload@, qos).0,
                ..old(self)@
            }),
            outcome_is(r, publish_step(old(self)@.client, topic@, payload@, qos).1),
    {
        self._client.publish(topic, payload, qos)
    }

    /// Judges the broker's answer to a publish with packet identifier
    /// `sent`, as [`puback_verdict`] says.
    pub fn publish_ack(&self, sent: u16, received: Vec<u8>) -> (r: Result<(), MqttError>)
        ensures
            r == puback_verdict(sent, parse_result(received@, MAX_ACK_SIZE as nat)),
    {
        self._client.publish_ack(sent, received)
    }

    /// Prepares one pipelined publish: the frame that the caller hands to
    /// the intake queue, whose answer it then hands to `submitted`. The
    /// frame is the one that `publish` makes, and the session changes as it
    /// does there. Nothing is counted yet.
    pub fn stream_publish(&mut self, topic: String, payload: String, qos: Qos) -> (r: Result<
        Vec<u8>,
        MqttError,
    >)
        ensures
            final(self)@ == (StreamView {
                client: publish_step(old(self)@.client, topic@, payload@, qos).0,
                ..old(self)@
            }),
            match publish_step(old(self)@.client, topic@, payload@, qos).1 {
                Ok(plan) => r is Ok && r->Ok_0@ == plan.frame,
                Err(e) => r == Err::<Vec<u8>, MqttError>(e),
            },
    {
        match self._client.publish(topic, payload, qos) {
            Ok(plan) => Ok(plan.frame),
            Err(e) => Err(e),
        }
    }

    /// Takes note of what the intake queue answered to the frame of a
    /// pipelined publish at quality of service `qos`. The publish is in
    /// flight from now on, and the counter goes up by one, where it is above
    /// quality of service 0 and the queue took the frame without dropping
    /// another for it. A frame that replaced another counts as dropped. The
    /// result says whether the publish was counted.
    pub fn submitted(&mut self, qos: Qos, outcome: Result<ChannelResult, ()>) -> (counted: bool)
        ensures
            counted == counts_in_flight(qos, old(self)@.network.state, outcome),
            final(self)@ == (StreamView {
                in_flight: in_flight_step(
                    old(self)@.in_flight,
                    StreamEvent::Submitted { qos, network: old(self)@.network.state, outcome },
                ),
                ..old(self)@
            }),
    {
        let sent = self.network.send(outcome);
        let counted = match (qos, sent) {
            (Qos::AtMostOnce, _) => false,
            (_, Ok(_)) => true,
            (_, Err(_)) => false,
        };
        if counted {
            self.pending_requests = if self.pending_requests == u16::MAX {
                0
            } else {
                self.pending_requests + 1
            };
        }
        counted
    }

    /// Takes a frame that the receiving task delivered. Where it reads as a
    /// packet, of whatever kind, one publish is no longer in flight and the
    /// counter goes down by one. Where it does not, nothing changes.
    pub fn ack_received(&mut self, received: Vec<u8>) -> (r: Result<Packet, MqttError>)
        ensures
            outcome_is(r, stream_frame_outcome(old(self)@.client.version, received@)),
            final(self)@ == (StreamView {
                in_flight: in_flight_step(
                    old(self)@.in_flight,
                    StreamEvent::Frame { parsed: r is Ok },
                ),
                ..old(self)@
            }),
    {
        let mut received = received;
        let version = self._client.version();
        let parsed = parse_packet(&mut received, MAX_ACK_SIZE, &version);
        if parsed.is_ok() {
            self.pending_requests = if self.pending_requests == 0 {
                u16::MAX
            } else {
                self.pending_requests - 1
            };
        }
        parsed
    }

    /// One step of the disconnect, as [`stream_disconnect_step`] says. Asked
    /// to yield, the caller lets the other tasks run and asks again; given
    /// the DISCONNECT frame, it sends the frame and calls `close`.
    pub fn disconnect(&mut self) -> (r: Result<DisconnectStep, MqttError>)
        ensures
            final(self)@ == stream_disconnect_step(old(self)@).0,
            outcome_is(r, stream_disconnect_step(old(self)@).1),
    {
        if self.pending_requests > 0 {
            return Ok(DisconnectStep::Yield);
        }
        match self._client.disconnect() {
            Ok(frame) => Ok(DisconnectStep::Send(frame)),
            Err(e) => Err(e),
        }
    }

    /// Ends the session, as [`stream_close_step`] says. The caller fires
    /// the cancellation signal and waits for both tasks to return.
    pub fn close(&mut self)
        ensures
            final(self)@ == stream_close_step(old(self)@),
    {
        self.network.close();
        self._client.terminate();
    }
}

impl Default for StreamMqttClient {
    /// A session for a broker at `localhost:1883` over TCP, at version 3.1.1.
    fn default() -> (client: StreamMqttClient)
        ensures
            is_client_id(client@.client.client_id),
            client@ == (StreamView {
                client: ClientView {
                    client_id: client@.client.client_id,
                    next_pkid: 1,
                    host: "localhost"@,
                    server_name: "localhost"@,
                    port: "1883"@,
                    version: Version::V311,
                    transport: TransportView::TCP { nagle: true },
                    state: SessionState::Idle,
                },
                network: ChannelNetworkView {
                    transport: TransportView::TCP { nagle: true },
                    queue: DEFAULT_QUEUE,
                    state: ChannelState::Closed,
                },
                in_flight: 0,
            }),
    {
        StreamMqttClient::new(
            "localhost".to_owned(),
            "localhost".to_owned(),
            "1883".to_owned(),
            Transport::TCP(TcpConfig { nagle: true }),
            Version::V311,
        )
    }
}

} // verus!
