use raw_mqtt::codec::{parse_packet, serialize, write_connack, write_connect, write_disconnect};
use raw_mqtt::codec::{write_puback, write_publish};
use raw_mqtt::error::MqttError;
use raw_mqtt::packet::{ConnAckData, ConnectData, Credentials, Packet, ProtocolLevel, PublishData};
use raw_mqtt::packet::{Qos, ReturnCode, SubAckData, SubscribeData, SubscribeFilter};
use raw_mqtt::packet::{SubscribeReasonCode, UnsubscribeData, Will};
use raw_mqtt::version::Version;

fn parse(bytes: &[u8], max: usize) -> (Result<Packet, MqttError>, Vec<u8>) {
    let mut stream = bytes.to_vec();
    let r = parse_packet(&mut stream, max, &Version::V311);
    (r, stream)
}

#[test]
fn connect_frame_bytes() {
    let frame = write_connect("abc", ProtocolLevel::V4, 0, true).unwrap();
    assert_eq!(
        frame,
        vec![0x10, 15, 0, 4, b'M', b'Q', b'T', b'T', 4, 2, 0, 0, 0, 3, b'a', b'b', b'c']
    );
}

#[test]
fn connect_frame_keep_alive_and_flags() {
    let frame = write_connect("x", ProtocolLevel::V5, 0x1234, false).unwrap();
    assert_eq!(
        frame,
        vec![0x10, 13, 0, 4, b'M', b'Q', b'T', b'T', 5, 0, 0x12, 0x34, 0, 1, b'x']
    );
}

#[test]
fn connect_frame_non_ascii_identifier() {
    let frame = write_connect("é", ProtocolLevel::V4, 0, true).unwrap();
    assert_eq!(
        frame,
        vec![0x10, 14, 0, 4, b'M', b'Q', b'T', b'T', 4, 2, 0, 0, 0, 2, 0xC3, 0xA9]
    );
}

#[test]
fn publish_frame_qos0_has_no_packet_identifier() {
    let frame = write_publish("t", b"hello", Qos::AtMostOnce, 0, false, false).unwrap();
    assert_eq!(frame, vec![0x30, 8, 0, 1, b't', b'h', b'e', b'l', b'l', b'o']);
}

#[test]
fn publish_frame_qos0_ignores_packet_identifier() {
    let frame = write_publish("t", b"hello", Qos::AtMostOnce, 77, false, false).unwrap();
    assert_eq!(frame, vec![0x30, 8, 0, 1, b't', b'h', b'e', b'l', b'l', b'o']);
}

#[test]
fn publish_frame_qos1_carries_packet_identifier() {
    let frame = write_publish("t", b"hello", Qos::AtLeastOnce, 0x0102, false, false).unwrap();
    assert_eq!(frame, vec![0x32, 10, 0, 1, b't', 1, 2, b'h', b'e', b'l', b'l', b'o']);
}

#[test]
fn publish_frame_flags() {
    let frame = write_publish("a/b", b"", Qos::ExactlyOnce, 1, true, true).unwrap();
    assert_eq!(frame, vec![0x3D, 7, 0, 3, b'a', b'/', b'b', 0, 1]);
}

#[test]
fn publish_frame_long_remaining_length() {
    let payload = vec![7u8; 200];
    let frame = write_publish("t", &payload, Qos::AtMostOnce, 0, false, false).unwrap();
    assert_eq!(frame.len(), 1 + 2 + 3 + 200);
    assert_eq!(&frame[..6], &[0x30, 0xCB, 0x01, 0, 1, b't']);
    assert_eq!(&frame[6..], &payload[..]);
}

#[test]
fn publish_frame_three_length_bytes() {
    let payload = vec![1u8; 20_000];
    let frame = write_publish("t", &payload, Qos::AtMostOnce, 0, false, false).unwrap();
    // 20003 = 0x4E23: 0x23 | 0x80, (20003 >> 7) & 0x7F | 0x80 = 0x9C, 20003 >> 14 = 1
    assert_eq!(&frame[..4], &[0x30, 0xA3, 0x9C, 0x01]);
    assert_eq!(frame.len(), 4 + 20_003);
}

#[test]
fn publish_with_packet_identifier_zero_is_malformed() {
    let r = write_publish("t", b"x", Qos::AtLeastOnce, 0, false, false);
    assert_eq!(r, Err(MqttError::MalformedPacket));
}

#[test]
fn connack_frame_bytes() {
    let ack = ConnAckData { session_present: true, code: ReturnCode::NotAuthorized };
    assert_eq!(write_connack(ack), vec![0x20, 2, 1, 5]);
    let ack = ConnAckData { session_present: false, code: ReturnCode::Success };
    assert_eq!(write_connack(ack), vec![0x20, 2, 0, 0]);
}

#[test]
fn puback_frame_bytes() {
    assert_eq!(write_puback(0x0A0B), vec![0x40, 2, 0x0A, 0x0B]);
}

#[test]
fn disconnect_frame_bytes() {
    assert_eq!(write_disconnect(), vec![0xE0, 0x00]);
}

#[test]
fn parse_connack() {
    let (r, rest) = parse(&[0x20, 2, 1, 0, 0xDE, 0xAD], 1024);
    assert_eq!(
        r,
        Ok(Packet::ConnAck(ConnAckData { session_present: true, code: ReturnCode::Success }))
    );
    assert_eq!(rest, vec![0xDE, 0xAD]);
}

#[test]
fn parse_connack_session_flag_is_lowest_bit() {
    let (r, _) = parse(&[0x20, 2, 0xFE, 3], 1024);
    assert_eq!(
        r,
        Ok(Packet::ConnAck(
            ConnAckData { session_present: false, code: ReturnCode::ServiceUnavailable }
        ))
    );
    let (r, _) = parse(&[0x20, 2, 0x03, 5], 1024);
    assert_eq!(
        r,
        Ok(Packet::ConnAck(ConnAckData { session_present: true, code: ReturnCode::NotAuthorized }))
    );
}

#[test]
fn parse_connack_with_unknown_code_is_malformed() {
    let (r, rest) = parse(&[0x20, 2, 0, 6, 9], 1024);
    assert_eq!(r, Err(MqttError::MalformedPacket));
    assert_eq!(rest, vec![9]);
}

#[test]
fn parse_connack_without_body_is_malformed() {
    let (r, rest) = parse(&[0x20, 0, 1, 2], 1024);
    assert_eq!(r, Err(MqttError::MalformedPacket));
    assert_eq!(rest, vec![1, 2]);
    let (r, rest) = parse(&[0x20, 1, 0], 1024);
    assert_eq!(r, Err(MqttError::MalformedPacket));
    assert_eq!(rest, Vec::<u8>::new());
}

#[test]
fn parse_puback() {
    let (r, rest) = parse(&[0x40, 2, 0, 10, 0xDE], 1024);
    assert_eq!(r, Ok(Packet::PubAck(10)));
    assert_eq!(rest, vec![0xDE]);
    let (r, _) = parse(&[0x40, 3, 0x12, 0x34, 0], 1024);
    assert_eq!(r, Ok(Packet::PubAck(0x1234)));
    let (r, _) = parse(&[0x40, 1, 0x12], 1024);
    assert_eq!(r, Err(MqttError::MalformedPacket));
}

#[test]
fn parse_other_acknowledgements() {
    assert_eq!(parse(&[0x50, 2, 0, 1], 16).0, Ok(Packet::PubRec(1)));
    assert_eq!(parse(&[0x62, 2, 0, 2], 16).0, Ok(Packet::PubRel(2)));
    assert_eq!(parse(&[0x70, 2, 0, 3], 16).0, Ok(Packet::PubComp(3)));
    assert_eq!(parse(&[0xB0, 2, 0, 4], 16).0, Ok(Packet::UnsubAck(4)));
    assert_eq!(parse(&[0xB0, 3, 0, 4, 0], 16).0, Err(MqttError::MalformedPacket));
    assert_eq!(parse(&[0x50, 1, 0], 16).0, Err(MqttError::MalformedPacket));
}

#[test]
fn parse_packets_without_body() {
    assert_eq!(parse(&[0xC0, 0], 16).0, Ok(Packet::PingReq));
    assert_eq!(parse(&[0xD0, 0], 16).0, Ok(Packet::PingResp));
    assert_eq!(parse(&[0xE0, 0], 16).0, Ok(Packet::Disconnect));
    let (r, rest) = parse(&[0xE0, 1, 5, 6], 16);
    assert_eq!(r, Ok(Packet::Disconnect));
    assert_eq!(rest, vec![6]);
}

#[test]
fn parse_unknown_packet_types_are_malformed_and_consumed() {
    let (r, rest) = parse(&[0x00, 1, 5, 6], 16);
    assert_eq!(r, Err(MqttError::MalformedPacket));
    assert_eq!(rest, vec![6]);
    let (r, rest) = parse(&[0xF0, 0, 5, 6], 16);
    assert_eq!(r, Err(MqttError::MalformedPacket));
    assert_eq!(rest, vec![5, 6]);
}

#[test]
fn parse_needs_two_bytes() {
    let (r, rest) = parse(&[], 16);
    assert_eq!(r, Err(MqttError::InsufficientBytes(2)));
    assert_eq!(rest, Vec::<u8>::new());
    let (r, rest) = parse(&[0x20], 16);
    assert_eq!(r, Err(MqttError::InsufficientBytes(1)));
    assert_eq!(rest, vec![0x20]);
}

#[test]
fn parse_frame_longer_than_stream() {
    let (r, rest) = parse(&[0x30, 10, 0, 1, b't'], 1024);
    assert_eq!(r, Err(MqttError::InsufficientBytes(7)));
    assert_eq!(rest, vec![0x30, 10, 0, 1, b't']);
}

#[test]
fn parse_truncated_length_field() {
    assert_eq!(parse(&[0x30, 0x80], 1024).0, Err(MqttError::InsufficientBytes(1)));
    assert_eq!(parse(&[0x30, 0x80, 0x80], 1024).0, Err(MqttError::InsufficientBytes(1)));
    assert_eq!(parse(&[0x30, 0x80, 0x80, 0x80], 1024).0, Err(MqttError::InsufficientBytes(1)));
}

#[test]
fn parse_overlong_length_field() {
    let (r, rest) = parse(&[0x30, 0x80, 0x80, 0x80, 0x80], 1024);
    assert_eq!(r, Err(MqttError::MalformedPacket));
    assert_eq!(rest.len(), 5);
    let (r, _) = parse(&[0x30, 0xFF, 0xFF, 0xFF, 0xFF, 0x01], usize::MAX);
    assert_eq!(r, Err(MqttError::MalformedPacket));
}

#[test]
fn parse_remaining_length_above_maximum() {
    let (r, rest) = parse(&[0x30, 5, 0, 1, b't', 1, 2], 4);
    assert_eq!(r, Err(MqttError::MalformedPacket));
    assert_eq!(rest.len(), 7);
    let (r, rest) = parse(&[0x30, 5, 0, 1, b't', 1, 2], 5);
    assert!(r.is_ok());
    assert_eq!(rest.len(), 0);
    // the limit is checked before the stream's length
    let (r, _) = parse(&[0x30, 100], 4);
    assert_eq!(r, Err(MqttError::MalformedPacket));
}

#[test]
fn parse_length_field_with_padding() {
    // 0x82 0x00 spells 2 in two bytes
    let (r, rest) = parse(&[0x40, 0x82, 0x00, 0, 9, 1], 16);
    assert_eq!(r, Ok(Packet::PubAck(9)));
    assert_eq!(rest, vec![1]);
}

#[test]
fn parse_four_byte_length_field() {
    let mut bytes = vec![0x30, 0x80, 0x80, 0x80, 0x01];
    let (r, _) = parse(&bytes, usize::MAX);
    assert_eq!(r, Err(MqttError::InsufficientBytes(2_097_152)));
    bytes.extend_from_slice(&[0, 1, b't']);
    bytes.resize(5 + 2_097_152, 3);
    let (r, rest) = parse(&bytes, usize::MAX);
    assert_eq!(rest.len(), 0);
    match r {
        Ok(Packet::Publish(p)) => {
            assert_eq!(p.topic, "t");
            assert_eq!(p.payload.len(), 2_097_152 - 3);
        }
        other => panic!("{:?}", other.map(|_| ())),
    }
}

#[test]
fn parse_publish_qos0() {
    let (r, rest) = parse(&[0x30, 8, 0, 1, b't', b'h', b'e', b'l', b'l', b'o', 1], 1024);
    assert_eq!(
        r,
        Ok(Packet::Publish(PublishData {
            dup: false,
            qos: Qos::AtMostOnce,
            retain: false,
            topic: "t".to_string(),
            pkid: 0,
            payload: b"hello".to_vec(),
        }))
    );
    assert_eq!(rest, vec![1]);
}

#[test]
fn parse_publish_qos1_with_flags() {
    let (r, _) = parse(&[0x3B, 6, 0, 1, b't', 0, 7, b'x'], 1024);
    assert_eq!(
        r,
        Ok(Packet::Publish(PublishData {
            dup: true,
            qos: Qos::AtLeastOnce,
            retain: true,
            topic: "t".to_string(),
            pkid: 7,
            payload: b"x".to_vec(),
        }))
    );
}

#[test]
fn parse_publish_errors() {
    // both bits of the quality of service set
    assert_eq!(parse(&[0x36, 5, 0, 1, b't', 0, 7], 64).0, Err(MqttError::MalformedPacket));
    // packet identifier 0
    assert_eq!(parse(&[0x32, 5, 0, 1, b't', 0, 0], 64).0, Err(MqttError::MalformedPacket));
    // packet identifier missing
    assert_eq!(parse(&[0x32, 4, 0, 1, b't', 0], 64).0, Err(MqttError::MalformedPacket));
    // topic longer than the body
    assert_eq!(parse(&[0x30, 3, 0, 2, b't'], 64).0, Err(MqttError::MalformedPacket));
    // topic is no UTF-8
    assert_eq!(parse(&[0x30, 3, 0, 1, 0xFF], 64).0, Err(MqttError::MalformedPacket));
    // no body at all
    assert_eq!(parse(&[0x30, 0], 64).0, Err(MqttError::MalformedPacket));
    assert_eq!(parse(&[0x30, 1, 0], 64).0, Err(MqttError::MalformedPacket));
}

#[test]
fn parse_publish_empty_topic_and_payload() {
    let (r, _) = parse(&[0x30, 2, 0, 0], 64);
    assert_eq!(
        r,
        Ok(Packet::Publish(PublishData {
            dup: false,
            qos: Qos::AtMostOnce,
            retain: false,
            topic: String::new(),
            pkid: 0,
            payload: vec![],
        }))
    );
}

#[test]
fn parse_plain_connect() {
    let frame = [0x10, 15, 0, 4, b'M', b'Q', b'T', b'T', 4, 2, 0, 30, 0, 3, b'a', b'b', b'c'];
    let (r, rest) = parse(&frame, 64);
    assert_eq!(
        r,
        Ok(Packet::Connect(ConnectData {
            protocol: ProtocolLevel::V4,
            keep_alive: 30,
            client_id: "abc".to_string(),
            clean_session: true,
            last_will: None,
            login: None,
        }))
    );
    assert_eq!(rest.len(), 0);
}

#[test]
fn parse_connect_ignores_reserved_flag_and_trailing_bytes() {
    let frame = [0x10, 14, 0, 4, b'M', b'Q', b'T', b'T', 5, 1, 0, 0, 0, 1, b'a', 9];
    let (r, _) = parse(&frame, 64);
    assert_eq!(
        r,
        Ok(Packet::Connect(ConnectData {
            protocol: ProtocolLevel::V5,
            keep_alive: 0,
            client_id: "a".to_string(),
            clean_session: false,
            last_will: None,
            login: None,
        }))
    );
}

#[test]
fn parse_connect_errors() {
    // protocol name
    let frame = [0x10, 13, 0, 4, b'M', b'Q', b'T', b'X', 4, 2, 0, 0, 0, 1, b'a'];
    assert_eq!(parse(&frame, 64).0, Err(MqttError::MalformedPacket));
    // protocol level
    let frame = [0x10, 13, 0, 4, b'M', b'Q', b'T', b'T', 3, 2, 0, 0, 0, 1, b'a'];
    assert_eq!(parse(&frame, 64).0, Err(MqttError::MalformedPacket));
    // keep-alive cut short
    let frame = [0x10, 9, 0, 4, b'M', b'Q', b'T', b'T', 4, 2, 0];
    assert_eq!(parse(&frame, 64).0, Err(MqttError::MalformedPacket));
    // no client identifier
    let frame = [0x10, 10, 0, 4, b'M', b'Q', b'T', b'T', 4, 2, 0, 0];
    assert_eq!(parse(&frame, 64).0, Err(MqttError::MalformedPacket));
    // will flags without the will flag
    let frame = [0x10, 13, 0, 4, b'M', b'Q', b'T', b'T', 4, 0x0A, 0, 0, 0, 1, b'a'];
    assert_eq!(parse(&frame, 64).0, Err(MqttError::MalformedPacket));
}

#[test]
fn parse_connect_with_will_and_login() {
    let mut frame = vec![0x10, 0, 0, 4, b'M', b'Q', b'T', b'T', 4, 0xEE, 0, 5, 0, 1, b'a'];
    frame.extend_from_slice(&[0, 1, b'w', 0, 2, 1, 2]);
    frame.extend_from_slice(&[0, 1, b'u', 0, 1, b'p']);
    frame[1] = (frame.len() - 2) as u8;
    let (r, _) = parse(&frame, 64);
    assert_eq!(
        r,
        Ok(Packet::Connect(ConnectData {
            protocol: ProtocolLevel::V4,
            keep_alive: 5,
            client_id: "a".to_string(),
            clean_session: true,
            last_will: Some(Will {
                topic: "w".to_string(),
                message: vec![1, 2],
                qos: Qos::AtLeastOnce,
                retain: true,
            }),
            login: Some(Credentials { username: "u".to_string(), password: "p".to_string() }),
        }))
    );
}

#[test]
fn parse_subscribe_suback_unsubscribe() {
    let (r, _) = parse(&[0x82, 7, 0, 9, 0, 2, b'a', b'b', 1], 64);
    assert_eq!(
        r,
        Ok(Packet::Subscribe(SubscribeData {
            pkid: 9,
            filters: vec![SubscribeFilter { path: "ab".to_string(), qos: Qos::AtLeastOnce }],
        }))
    );
    let (r, _) = parse(&[0x90, 4, 0, 9, 2, 0x80], 64);
    assert_eq!(
        r,
        Ok(Packet::SubAck(SubAckData {
            pkid: 9,
            return_codes: vec![
                SubscribeReasonCode::Success(Qos::ExactlyOnce),
                SubscribeReasonCode::Failure
            ],
        }))
    );
    let (r, _) = parse(&[0xA2, 8, 0, 9, 0, 1, b'a', 0, 1, b'b'], 64);
    assert_eq!(
        r,
        Ok(Packet::Unsubscribe(UnsubscribeData {
            pkid: 9,
            topics: vec!["a".to_string(), "b".to_string()],
        }))
    );
    assert_eq!(parse(&[0x90, 2, 0, 9], 64).0, Err(MqttError::MalformedPacket));
    assert_eq!(parse(&[0x82, 1, 0], 64).0, Err(MqttError::MalformedPacket));
    assert_eq!(parse(&[0xA2, 1, 0], 64).0, Err(MqttError::MalformedPacket));
}

#[test]
fn parse_refuses_other_versions() {
    let mut stream = vec![0x20, 2, 0, 0];
    assert_eq!(
        parse_packet(&mut stream, 64, &Version::V31),
        Err(MqttError::UnsupportedVersion)
    );
    assert_eq!(stream.len(), 4);
    assert_eq!(parse_packet(&mut stream, 64, &Version::V5), Err(MqttError::UnsupportedVersion));
    assert_eq!(stream.len(), 4);
}

#[test]
fn serialize_then_parse_gives_the_packet_back() {
    let packets = vec![
        Packet::Connect(ConnectData {
            protocol: ProtocolLevel::V4,
            keep_alive: 0,
            client_id: "mqtt-tool-x".to_string(),
            clean_session: true,
            last_will: None,
            login: None,
        }),
        Packet::ConnAck(ConnAckData { session_present: false, code: ReturnCode::BadClientId }),
        Packet::Publish(PublishData {
            dup: false,
            qos: Qos::AtMostOnce,
            retain: false,
            topic: "t/é".to_string(),
            pkid: 0,
            payload: b"hello".to_vec(),
        }),
        Packet::Publish(PublishData {
            dup: true,
            qos: Qos::AtLeastOnce,
            retain: true,
            topic: "t".to_string(),
            pkid: 65535,
            payload: vec![0u8; 300],
        }),
        Packet::PubAck(1),
        Packet::Disconnect,
    ];
    for packet in packets {
        let mut frame = serialize(&packet).unwrap();
        let parsed = parse_packet(&mut frame, 1024, &Version::V311);
        assert_eq!(parsed, Ok(packet));
        assert_eq!(frame.len(), 0);
    }
}

#[test]
fn serialize_refuses_what_is_never_sent() {
    assert_eq!(serialize(&Packet::PingReq), Err(MqttError::UnsupportedPacket));
    assert_eq!(serialize(&Packet::PubRec(1)), Err(MqttError::UnsupportedPacket));
    let with_login = Packet::Connect(ConnectData {
        protocol: ProtocolLevel::V4,
        keep_alive: 0,
        client_id: "a".to_string(),
        clean_session: true,
        last_will: None,
        login: Some(Credentials { username: "u".to_string(), password: "p".to_string() }),
    });
    assert_eq!(serialize(&with_login), Err(MqttError::UnsupportedPacket));
    let no_id = Packet::Publish(PublishData {
        dup: false,
        qos: Qos::AtLeastOnce,
        retain: false,
        topic: "t".to_string(),
        pkid: 0,
        payload: vec![],
    });
    assert_eq!(serialize(&no_id), Err(MqttError::MalformedPacket));
}

#[test]
fn topic_longer_than_the_length_prefix_is_cut_in_the_prefix_only() {
    let topic = "a".repeat(65_537);
    let frame = write_publish(&topic, b"", Qos::AtMostOnce, 0, false, false).unwrap();
    // remaining length 65539 in three bytes, then the prefix 65537 mod 65536
    assert_eq!(&frame[..6], &[0x30, 0x83, 0x80, 0x04, 0, 1]);
    assert_eq!(frame.len(), 4 + 2 + 65_537);
}
