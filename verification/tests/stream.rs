use raw_mqtt::client::client::SessionState;
use raw_mqtt::client::stream_client::{DisconnectStep, StreamMqttClient};
use raw_mqtt::error::MqttError;
use raw_mqtt::network::channel::{ChannelResult, QueueMode, SingleLifoQueue};
use raw_mqtt::network::channel_network::{ChannelState, DEFAULT_QUEUE};
use raw_mqtt::network::transport::{Dial, TcpConfig, Transport};
use raw_mqtt::packet::{Packet, Qos};
use raw_mqtt::version::Version;

fn stream_client() -> StreamMqttClient {
    StreamMqttClient::new(
        "localhost".to_string(),
        "localhost".to_string(),
        "1883".to_string(),
        Transport::TCP(TcpConfig { nagle: false }),
        Version::V311,
    )
}

fn connected(queue: i64) -> StreamMqttClient {
    let mut client = stream_client();
    client.set_queue(queue);
    client.connect().unwrap();
    client.connect_ack(vec![0x20, 2, 0, 0]).unwrap();
    client
}

#[test]
fn new_stream_client() {
    let client = stream_client();
    assert_eq!(client.state(), SessionState::Idle);
    assert_eq!(client.in_flight(), 0);
    assert_eq!(client.network().queue(), DEFAULT_QUEUE);
    assert_eq!(client.network().queue(), 1024);
    assert_eq!(client.network().state(), ChannelState::Closed);
    assert!(client.client_id().starts_with("mqtt-tool-"));
}

#[test]
fn connect_plans_queue_and_dial() {
    let mut client = stream_client();
    let plan = client.connect().unwrap();
    assert_eq!(plan.queue, QueueMode::Bounded(1024));
    assert_eq!(plan.dial, Dial::Tcp { address: "localhost:1883".to_string(), no_delay: true });
    assert_eq!(plan.ack_size, 4);
    assert_eq!(plan.frame[0], 0x10);
    assert_eq!(client.state(), SessionState::Connecting);
    assert_eq!(client.network().state(), ChannelState::Open);
}

#[test]
fn queue_setting_selects_the_mode() {
    for (queue, mode) in [
        (-1i64, QueueMode::Unbounded),
        (0, QueueMode::Lifo),
        (1, QueueMode::Bounded(1)),
        (77, QueueMode::Bounded(77)),
    ] {
        let mut client = stream_client();
        client.set_queue(queue);
        assert_eq!(client.network().queue(), queue);
        assert_eq!(client.connect().unwrap().queue, mode);
    }
}

#[test]
fn queue_setting_below_minus_one_is_refused() {
    let mut client = stream_client();
    client.set_queue(-2);
    assert_eq!(client.connect().map(|_| ()), Err(MqttError::InvalidQueue));
    assert_eq!(client.state(), SessionState::Idle);
    assert_eq!(client.network().state(), ChannelState::Closed);
    client.set_queue(i64::MIN);
    assert_eq!(client.connect().map(|_| ()), Err(MqttError::InvalidQueue));
}

#[test]
fn connect_refusals() {
    let mut client = StreamMqttClient::new(
        "h".to_string(),
        "s".to_string(),
        "1".to_string(),
        Transport::TCP(TcpConfig { nagle: true }),
        Version::V5,
    );
    client.set_queue(-7);
    assert_eq!(client.connect().map(|_| ()), Err(MqttError::UnsupportedVersion));
    let mut client = stream_client();
    client.connect().unwrap();
    assert_eq!(client.connect().map(|_| ()), Err(MqttError::InvalidState));
}

#[test]
fn qos1_submissions_are_counted() {
    let mut client = connected(1024);
    for n in 1..=3u16 {
        let frame =
            client.stream_publish("t".to_string(), "m".to_string(), Qos::AtLeastOnce).unwrap();
        assert_eq!(frame, vec![0x32, 6, 0, 1, b't', 0, n as u8, b'm']);
        assert_eq!(client.in_flight(), n - 1);
        assert!(client.submitted(Qos::AtLeastOnce, Ok(ChannelResult::Added)));
        assert_eq!(client.in_flight(), n);
    }
}

#[test]
fn qos0_submissions_are_never_counted() {
    let mut client = connected(-1);
    for _ in 0..10 {
        let frame =
            client.stream_publish("t".to_string(), "m".to_string(), Qos::AtMostOnce).unwrap();
        assert_eq!(frame, vec![0x30, 4, 0, 1, b't', b'm']);
        assert!(!client.submitted(Qos::AtMostOnce, Ok(ChannelResult::Added)));
        assert_eq!(client.in_flight(), 0);
    }
}

#[test]
fn replaced_submissions_are_not_counted() {
    let mut client = connected(0);
    assert!(client.submitted(Qos::AtLeastOnce, Ok(ChannelResult::Added)));
    assert!(!client.submitted(Qos::AtLeastOnce, Ok(ChannelResult::Replaced)));
    assert!(!client.submitted(Qos::AtLeastOnce, Err(())));
    assert_eq!(client.in_flight(), 1);
}

#[test]
fn submission_to_a_closed_network_is_not_counted() {
    let mut client = stream_client();
    assert!(!client.submitted(Qos::AtLeastOnce, Ok(ChannelResult::Added)));
    assert_eq!(client.in_flight(), 0);
}

#[test]
fn stream_publish_rejects_qos2_and_wrong_states() {
    let mut client = stream_client();
    assert_eq!(
        client.stream_publish("t".to_string(), "m".to_string(), Qos::AtLeastOnce),
        Err(MqttError::InvalidState)
    );
    let mut client = connected(1024);
    assert_eq!(
        client.stream_publish("t".to_string(), "m".to_string(), Qos::ExactlyOnce),
        Err(MqttError::UnsupportedQoS)
    );
    assert_eq!(client.in_flight(), 0);
}

#[test]
fn every_parsed_frame_takes_one_off() {
    let mut client = connected(1024);
    for _ in 0..3 {
        client.stream_publish("t".to_string(), "m".to_string(), Qos::AtLeastOnce).unwrap();
        client.submitted(Qos::AtLeastOnce, Ok(ChannelResult::Added));
    }
    assert_eq!(client.ack_received(vec![0x40, 2, 0, 1]), Ok(Packet::PubAck(1)));
    assert_eq!(client.in_flight(), 2);
    // whatever its identifier or kind
    assert_eq!(client.ack_received(vec![0x40, 2, 0, 9]), Ok(Packet::PubAck(9)));
    assert_eq!(client.in_flight(), 1);
    assert_eq!(client.ack_received(vec![0xD0, 0, 0, 0]), Ok(Packet::PingResp));
    assert_eq!(client.in_flight(), 0);
}

#[test]
fn frames_that_do_not_parse_change_nothing() {
    let mut client = connected(1024);
    client.submitted(Qos::AtLeastOnce, Ok(ChannelResult::Added));
    assert_eq!(client.ack_received(vec![0x40, 1, 0, 0]), Err(MqttError::MalformedPacket));
    assert_eq!(client.ack_received(vec![0x00, 2, 0, 0]), Err(MqttError::MalformedPacket));
    assert_eq!(client.ack_received(vec![0x40, 9, 0, 0]), Err(MqttError::InsufficientBytes(7)));
    assert_eq!(client.in_flight(), 1);
}

#[test]
fn counter_goes_round_below_zero() {
    let mut client = connected(1024);
    assert_eq!(client.ack_received(vec![0x40, 2, 0, 1]), Ok(Packet::PubAck(1)));
    assert_eq!(client.in_flight(), 65535);
    assert!(client.submitted(Qos::AtLeastOnce, Ok(ChannelResult::Added)));
    assert_eq!(client.in_flight(), 0);
}

#[test]
fn graceful_stream_shutdown() {
    let mut client = connected(1024);
    for _ in 0..100 {
        client.stream_publish("t".to_string(), "m".to_string(), Qos::AtLeastOnce).unwrap();
        assert!(client.submitted(Qos::AtLeastOnce, Ok(ChannelResult::Added)));
    }
    assert_eq!(client.in_flight(), 100);
    for pkid in 1..=100u16 {
        assert_eq!(client.disconnect(), Ok(DisconnectStep::Yield));
        assert_eq!(client.state(), SessionState::Connected);
        let ack = vec![0x40, 2, (pkid >> 8) as u8, pkid as u8];
        assert_eq!(client.ack_received(ack), Ok(Packet::PubAck(pkid)));
    }
    assert_eq!(client.in_flight(), 0);
    assert_eq!(client.disconnect(), Ok(DisconnectStep::Send(vec![0xE0, 0x00])));
    assert_eq!(client.state(), SessionState::Disconnecting);
    assert_eq!(client.network().state(), ChannelState::Open);
    client.close();
    assert_eq!(client.state(), SessionState::Terminated);
    assert_eq!(client.network().state(), ChannelState::Cancelled);
    assert_eq!(client.in_flight(), 0);
}

#[test]
fn disconnect_of_a_session_that_is_not_connected() {
    let mut client = stream_client();
    assert_eq!(client.disconnect(), Err(MqttError::InvalidState));
    let mut client = connected(1024);
    assert_eq!(client.disconnect(), Ok(DisconnectStep::Send(vec![0xE0, 0x00])));
    assert_eq!(client.disconnect(), Err(MqttError::InvalidState));
}

#[test]
fn synchronous_publish_on_a_stream_session() {
    let mut client = connected(1024);
    let plan = client.publish("t".to_string(), "m".to_string(), Qos::AtLeastOnce).unwrap();
    assert_eq!(plan.pkid, 1);
    assert_eq!(plan.ack_size, 4);
    assert_eq!(client.in_flight(), 0);
    assert_eq!(client.publish_ack(1, vec![0x40, 2, 0, 1]), Ok(()));
    assert_eq!(
        client.publish_ack(1, vec![0x40, 2, 0, 3]),
        Err(MqttError::MismatchedAck { sent: 1, received: 3 })
    );
    assert_eq!(
        client.publish("t".to_string(), "m".to_string(), Qos::ExactlyOnce),
        Err(MqttError::UnsupportedQoS)
    );
    // pipelined and synchronous publishes share the packet identifiers
    let frame = client.stream_publish("t".to_string(), "m".to_string(), Qos::AtLeastOnce).unwrap();
    assert_eq!(&frame[5..7], &[0, 2]);
}

#[test]
fn lifo_drop_oldest() {
    let mut client = connected(0);
    let mut queue = SingleLifoQueue::new();
    let mut results = Vec::new();
    let mut frames = Vec::new();
    for payload in ["aaaaaaaaaa", "bbbbbbbbbb", "cccccccccc"] {
        let frame = client
            .stream_publish("t".to_string(), payload.to_string(), Qos::AtMostOnce)
            .unwrap();
        frames.push(frame.clone());
        let outcome = queue.send(frame);
        results.push(outcome);
        client.submitted(Qos::AtMostOnce, outcome);
    }
    assert_eq!(
        results,
        vec![Ok(ChannelResult::Added), Ok(ChannelResult::Replaced), Ok(ChannelResult::Replaced)]
    );
    // the sender wakes up: the only frame it gets carries the last payload
    let sent = queue.receive().unwrap();
    assert_eq!(sent, frames[2]);
    assert_eq!(&sent[5..], b"cccccccccc");
    assert_eq!(queue.receive(), None);
    assert_eq!(client.in_flight(), 0);
}

#[test]
fn lifo_queue_steps() {
    let mut queue = SingleLifoQueue::new();
    assert!(!queue.is_pending());
    assert_eq!(queue.receive(), None);
    assert_eq!(queue.send(vec![1]), Ok(ChannelResult::Added));
    assert!(queue.is_pending());
    assert_eq!(queue.receive(), Some(vec![1]));
    assert!(!queue.is_pending());
    assert_eq!(queue.receive(), None);
    assert_eq!(queue.send(vec![2, 2]), Ok(ChannelResult::Added));
    assert_eq!(queue.send(vec![]), Ok(ChannelResult::Replaced));
    assert_eq!(queue.receive(), Some(vec![]));
    assert_eq!(queue.send(vec![3]), Ok(ChannelResult::Added));
}

#[test]
fn lifo_k_submissions_keep_the_last() {
    for k in 1..20usize {
        let mut queue = SingleLifoQueue::new();
        let mut replaced = 0;
        for i in 0..k {
            if queue.send(vec![i as u8; i + 1]) == Ok(ChannelResult::Replaced) {
                replaced += 1;
            }
        }
        assert_eq!(replaced, k - 1);
        assert_eq!(queue.receive(), Some(vec![(k - 1) as u8; k]));
        assert_eq!(queue.receive(), None);
    }
}

#[test]
fn default_stream_client() {
    let mut client = StreamMqttClient::default();
    assert_eq!(client.in_flight(), 0);
    let plan = client.connect().unwrap();
    assert_eq!(plan.queue, QueueMode::Bounded(1024));
    assert_eq!(plan.dial, Dial::Tcp { address: "localhost:1883".to_string(), no_delay: false });
}
