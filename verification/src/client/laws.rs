//! What holds of every session, whatever is done to it.

use vstd::prelude::*;
use vstd::utf8::encode_utf8;
use crate::client::client::{ClientView, MAX_ACK_SIZE, SessionState, connack_verdict};
use crate::client::client::{connect_ack_step, connect_failed_step, connect_step};
use crate::client::client::{disconnect_step, publish_pkid, publish_step, session_publish};
use crate::client::client::{PublishPlanView, puback_verdict, terminate_step};
use crate::client::packet_id::lemma_packet_ids_skip_zero;
use crate::codec::{parse_result, serialized};
use crate::error::MqttError;
use crate::packet::{PacketView, Qos, ReturnCode};
use crate::roundtrip::{lemma_parse_serialize_round_trip, round_trips};
use crate::version::Version;
use crate::wire::{publish_frame, publish_remaining};

verus! {

/// An operation on a session.
pub enum ClientOp {
    Connect,
    ConnectAck { received: Seq<u8> },
    ConnectFailed,
    Publish { topic: Seq<char>, payload: Seq<char>, qos: Qos },
    Disconnect,
    Terminate,
}

/// The session after an operation.
pub open spec fn client_step(s: ClientView, op: ClientOp) -> ClientView {
    match op {
        ClientOp::Connect => connect_step(s).0,
        ClientOp::ConnectAck { received } => connect_ack_step(s, received).0,
        ClientOp::ConnectFailed => connect_failed_step(s),
        ClientOp::Publish { topic, payload, qos } => publish_step(s, topic, payload, qos).0,
        ClientOp::Disconnect => disconnect_step(s).0,
        ClientOp::Terminate => terminate_step(s),
    }
}

/// The session after a run of operations.
pub open spec fn client_run(s: ClientView, ops: Seq<ClientOp>) -> ClientView
    decreases ops.len(),
{
    if ops.len() == 0 {
        s
    } else {
        client_step(client_run(s, ops.drop_last()), ops.last())
    }
}

/// How far a session has come in its life.
pub open spec fn state_rank(state: SessionState) -> nat {
    match state {
        SessionState::Idle => 0,
        SessionState::Connecting => 1,
        SessionState::Connected => 2,
        SessionState::Disconnecting => 3,
        SessionState::Terminated => 4,
    }
}

/// No operation takes a session back: idle, connecting, connected,
/// disconnecting, terminated come in this order, and no operation changes
/// who the session is or where it connects to.
pub proof fn lemma_life_goes_forward(s: ClientView, op: ClientOp)
    ensures
        state_rank(s.state) <= state_rank(client_step(s, op).state),
        client_step(s, op) == (ClientView {
            state: client_step(s, op).state,
            next_pkid: client_step(s, op).next_pkid,
            ..s
        }),
{
}

/// The same of a run of operations.
pub proof fn lemma_run_goes_forward(s: ClientView, ops: Seq<ClientOp>)
    ensures
        state_rank(s.state) <= state_rank(client_run(s, ops).state),
        client_run(s, ops) == (ClientView {
            state: client_run(s, ops).state,
            next_pkid: client_run(s, ops).next_pkid,
            ..s
        }),
    decreases ops.len(),
{
    if ops.len() > 0 {
        lemma_run_goes_forward(s, ops.drop_last());
        lemma_life_goes_forward(client_run(s, ops.drop_last()), ops.last());
    }
}

/// A terminated session stays terminated, and its packet identifiers stay
/// where they are.
pub proof fn lemma_terminated_stays(s: ClientView, ops: Seq<ClientOp>)
    requires
        s.state == SessionState::Terminated,
    ensures
        client_run(s, ops) == s,
    decreases ops.len(),
{
    if ops.len() > 0 {
        lemma_terminated_stays(s, ops.drop_last());
    }
}

/// A session becomes connected in one way only: it was connecting, which
/// it is only after `connect` handed out the CONNECT frame, and the answer
/// read as a CONNACK with return code success.
pub proof fn lemma_connected_by_connack_only(s: ClientView, op: ClientOp)
    requires
        s.state != SessionState::Connected,
        client_step(s, op).state == SessionState::Connected,
    ensures
        s.state == SessionState::Connecting,
        op matches ClientOp::ConnectAck { received } && (parse_result(
            received,
            MAX_ACK_SIZE as nat,
        ) matches Ok(PacketView::ConnAck(ack)) && ack.code == ReturnCode::Success),
{
}

/// A session becomes connecting in one way only: it was idle, at version
/// 3.1.1, and `connect` handed out its CONNECT frame.
pub proof fn lemma_connecting_by_connect_only(s: ClientView, op: ClientOp)
    requires
        s.state != SessionState::Connecting,
        client_step(s, op).state == SessionState::Connecting,
    ensures
        s.state == SessionState::Idle,
        s.version == Version::V311,
        op is Connect,
        connect_step(s).1 is Ok,
{
}

/// An answer to CONNECT other than a CONNACK with return code success
/// terminates the session.
pub proof fn lemma_refusal_terminates(s: ClientView, received: Seq<u8>)
    requires
        s.state == SessionState::Connecting,
        connack_verdict(parse_result(received, MAX_ACK_SIZE as nat)) is Err,
    ensures
        connect_ack_step(s, received).0.state == SessionState::Terminated,
        connect_ack_step(s, received).1 is Err,
{
}

/// A publish at quality of service 1 is confirmed in one way only: by a
/// PUBACK with the packet identifier that was sent. Every other answer is an
/// error.
pub proof fn lemma_confirmed_by_matching_puback_only(
    sent: u16,
    answer: Result<PacketView, MqttError>,
)
    ensures
        puback_verdict(sent, answer) is Ok <==> answer == Ok::<PacketView, MqttError>(
            PacketView::PubAck(sent),
        ),
{
}

/// A publish is handed out by a connected session only, and never at
/// quality of service 2, which changes nothing.
pub proof fn lemma_publish_needs_connection(
    s: ClientView,
    topic: Seq<char>,
    payload: Seq<char>,
    qos: Qos,
)
    ensures
        publish_step(s, topic, payload, qos).1 is Ok ==> s.state == SessionState::Connected && qos
            != Qos::ExactlyOnce,
        qos == Qos::ExactlyOnce ==> publish_step(s, topic, payload, qos).0 == s && publish_step(
            s,
            topic,
            payload,
            qos,
        ).1 is Err,
        s.state == SessionState::Connected && qos == Qos::ExactlyOnce ==> publish_step(
            s,
            topic,
            payload,
            qos,
        ).1 == Err::<PublishPlanView, MqttError>(MqttError::UnsupportedQoS),
{
}

/// Packet identifier 0 is never put on the wire: the frame that a publish
/// hands out is that of a PUBLISH which, above quality of service 0,
/// carries an identifier other than 0; and where the topic fits its length
/// prefix, reading the frame gives that PUBLISH back.
pub proof fn lemma_no_packet_identifier_zero(
    s: ClientView,
    topic: Seq<char>,
    payload: Seq<char>,
    qos: Qos,
)
    requires
        publish_step(s, topic, payload, qos).1 is Ok,
    ensures
        ({
            let plan = publish_step(s, topic, payload, qos).1->Ok_0;
            let publish = session_publish(topic, payload, qos, plan.pkid);
            &&& plan.frame == publish_frame(publish)
            &&& (qos == Qos::AtMostOnce <==> plan.pkid == 0)
            &&& encode_utf8(topic).len() <= 65535 ==> parse_result(
                plan.frame,
                publish_remaining(publish),
            ) == Ok::<PacketView, MqttError>(PacketView::Publish(publish))
        }),
{
    let plan = publish_step(s, topic, payload, qos).1->Ok_0;
    let publish = session_publish(topic, payload, qos, plan.pkid);
    lemma_packet_ids_skip_zero(s.next_pkid);
    assert(plan.pkid == publish_pkid(qos, s.next_pkid));
    assert(serialized(PacketView::Publish(publish)) == Some(plan.frame));
    if encode_utf8(topic).len() <= 65535 {
        assert(round_trips(PacketView::Publish(publish)));
        lemma_parse_serialize_round_trip(
            PacketView::Publish(publish),
            Seq::<u8>::empty(),
            publish_remaining(publish),
        );
        assert(plan.frame + Seq::<u8>::empty() =~= plan.frame);
    }
}

} // verus!
