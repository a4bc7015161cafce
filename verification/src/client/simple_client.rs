//! The synchronous profile: one request, then its answer.

use vstd::prelude::*;
use crate::client::client::{Client, ClientView, ConnectPlan, PublishPlan, SessionState};
use crate::client::client::{MAX_ACK_SIZE, connect_ack_step, connect_failed_step, connect_step};
use crate::client::client::{dial_error, disconnect_step, is_client_id, publish_step};
use crate::client::client::{puback_verdict, terminate_step};
use crate::codec::parse_result;
use crate::error::{MqttError, outcome_is};
use crate::network::transport::{DialFailure, Transport, TransportView, with_server_name};
use crate::packet::Qos;
use crate::version::Version;

verus! {

/// A session that sends each request and waits for its answer before the
/// next. Its view is that of the session it runs.
#[derive(Debug)]
pub struct SimpleMqttClient {
    _client: Client,
}

impl View for SimpleMqttClient {
    type V = ClientView;

    closed spec fn view(&self) -> ClientView {
        self._client@
    }
}

impl SimpleMqttClient {
    /// A session in its idle state, with a fresh client identifier and a
    /// packet identifier counter at 1.
    pub fn new(
        host: String,
        server_name: String,
        port: String,
        transport: Transport,
        version: Version,
    ) -> (client: SimpleMqttClient)
        ensures
            is_client_id(client@.client_id),
            client@ == (ClientView {
                client_id: client@.client_id,
                next_pkid: 1,
                host: host@,
                server_name: server_name@,
                port: port@,
                version,
                transport: with_server_name(transport@, server_name@),
                state: SessionState::Idle,
            }),
    {
        SimpleMqttClient { _client: Client::new(host, server_name, port, transport, version) }
    }

    /// The state of the session.
    pub fn state(&self) -> (state: SessionState)
        ensures
            state == self@.state,
    {
        self._client.state()
    }

    /// The client identifier of the session.
    pub fn client_id(&self) -> (id: &str)
        ensures
            id@ == self@.client_id,
            is_client_id(id@),
    {
        self._client.client_id()
    }

    /// Starts the connection handshake, as [`connect_step`] says.
    pub fn connect(&mut self) -> (r: Result<ConnectPlan, MqttError>)
        ensures
            final(self)@ == connect_step(old(self)@).0,
            outcome_is(r, connect_step(old(self)@).1),
    {
        self._client.connect()
    }

    /// Judges the broker's answer to CONNECT, as [`connect_ack_step`] says.
    pub fn connect_ack(&mut self, received: Vec<u8>) -> (r: Result<(), MqttError>)
        ensures
            final(self)@ == connect_ack_step(old(self)@, received@).0,
            r == connect_ack_step(old(self)@, received@).1,
    {
        self._client.connect_ack(received)
    }

    /// Takes note that opening the transport failed, and tells the error to
    /// report. A connecting session is terminated by it.
    pub fn connect_failed(&mut self, failure: DialFailure) -> (e: MqttError)
        ensures
            final(self)@ == connect_failed_step(old(self)@),
            e == dial_error(failure),
    {
        self._client.connect_failed(failure)
    }

    /// Prepares one publish, as [`publish_step`] says.
    pub fn publish(&mut self, topic: String, payload: String, qos: Qos) -> (r: Result<
        PublishPlan,
        MqttError,
    >)
        ensures
            final(self)@ == publish_step(old(self)@, topic@, payload@, qos).0,
            outcome_is(r, publish_step(old(self)@, topic@, payload@, qos).1),
    {
        self._client.publish(topic, payload, qos)
    }

    /// Judges the broker's answer to a publish with packet identifier
    /// `sent`, as [`puback_verdict`] says.
    pub fn publish_ack(&self, sent: u16, received: Vec<u8>) -> (r: Result<(), MqttError>)
        ensures
            r == puback_verdict(sent, parse_result(received@, MAX_ACK_SIZE as nat)),
    {
        self._client.publish_ack(sent, received)
    }

    /// Starts the disconnect, as [`disconnect_step`] says. The transport
    /// closes when the caller drops it.
    pub fn disconnect(&mut self) -> (r: Result<Vec<u8>, MqttError>)
        ensures
            final(self)@ == disconnect_step(old(self)@).0,
            outcome_is(r, disconnect_step(old(self)@).1),
    {
        self._client.disconnect()
    }

    /// Ends the session.
    pub fn terminate(&mut self)
        ensures
            final(self)@ == terminate_step(old(self)@),
    {
        self._client.terminate()
    }
}

impl Default for SimpleMqttClient {
    /// A session for a broker at `localhost:1883` over TCP, at version 3.1.1.
    fn default() -> (client: SimpleMqttClient)
        ensures
            is_client_id(client@.client_id),
            client@ == (ClientView {
                client_id: client@.client_id,
                next_pkid: 1,
                host: "localhost"@,
                server_name: "localhost"@,
                port: "1883"@,
                version: Version::V311,
                transport: TransportView::TCP { nagle: true },
                state: SessionState::Idle,
            }),
    {
        SimpleMqttClient { _client: Client::default() }
    }
}

} // verus!
