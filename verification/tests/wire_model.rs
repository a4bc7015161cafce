// An executable reading of the wire format, held against the codec on
// random streams and on random packets.

use raw_mqtt::codec::{parse_packet, write_connect, write_publish};
use raw_mqtt::error::MqttError;
use raw_mqtt::packet::{ConnAckData, ConnectData, Packet, ProtocolLevel, PublishData, Qos};
use raw_mqtt::packet::ReturnCode;
use raw_mqtt::version::Version;

struct Lcg(u64);

impl Lcg {
    fn next(&mut self) -> u64 {
        self.0 = self.0.wrapping_mul(6364136223846793005).wrapping_add(1442695040888963407);
        self.0 >> 33
    }
    fn below(&mut self, n: u64) -> u64 {
        self.next() % n
    }
}

#[derive(Debug, PartialEq)]
enum Check {
    Framed(usize, usize),
    NeedMore(usize),
    BadLength,
    TooLarge,
}

enum Field {
    Complete(usize, usize),
    Truncated,
    Overlong,
}

fn length_field(stream: &[u8], used: usize) -> Field {
    if used >= 4 {
        Field::Overlong
    } else if 1 + used >= stream.len() {
        Field::Truncated
    } else if stream[1 + used] < 128 {
        Field::Complete(used + 1, stream[1 + used] as usize)
    } else {
        match length_field(stream, used + 1) {
            Field::Complete(size, value) => {
                Field::Complete(size, (stream[1 + used] as usize - 128) + 128 * value)
            }
            other => other,
        }
    }
}

fn frame_check(stream: &[u8], max: usize) -> Check {
    if stream.len() < 2 {
        Check::NeedMore(2 - stream.len())
    } else {
        match length_field(stream, 0) {
            Field::Truncated => Check::NeedMore(1),
            Field::Overlong => Check::BadLength,
            Field::Complete(size, value) => {
                if value > max {
                    Check::TooLarge
                } else if stream.len() < 1 + size + value {
                    Check::NeedMore(1 + size + value - stream.len())
                } else {
                    Check::Framed(1 + size, value)
                }
            }
        }
    }
}

fn read_prefixed(s: &[u8]) -> Option<(&[u8], &[u8])> {
    if s.len() < 2 {
        None
    } else {
        let n = s[0] as usize * 256 + s[1] as usize;
        if n > s.len() - 2 {
            None
        } else {
            Some((&s[2..2 + n], &s[2 + n..]))
        }
    }
}

fn read_text(s: &[u8]) -> Option<(String, &[u8])> {
    let (bytes, rest) = read_prefixed(s)?;
    let text = String::from_utf8(bytes.to_vec()).ok()?;
    Some((text, rest))
}

fn code_of(n: u8) -> Option<ReturnCode> {
    match n {
        0 => Some(ReturnCode::Success),
        1 => Some(ReturnCode::RefusedProtocolVersion),
        2 => Some(ReturnCode::BadClientId),
        3 => Some(ReturnCode::ServiceUnavailable),
        4 => Some(ReturnCode::BadUserNamePassword),
        5 => Some(ReturnCode::NotAuthorized),
        _ => None,
    }
}

fn pkid_body(body: &[u8]) -> Option<u16> {
    if body.len() < 2 { None } else { Some(body[0] as u16 * 256 + body[1] as u16) }
}

fn publish_body(first: u8, body: &[u8]) -> Option<PublishData> {
    let qos = Qos::from_level((first / 2) % 4)?;
    let (topic, rest) = read_text(body)?;
    let dup = (first / 8) % 2 == 1;
    let retain = first % 2 == 1;
    if qos == Qos::AtMostOnce {
        Some(PublishData { dup, qos, retain, topic, pkid: 0, payload: rest.to_vec() })
    } else if rest.len() < 2 || (rest[0] == 0 && rest[1] == 0) {
        None
    } else {
        Some(PublishData {
            dup,
            qos,
            retain,
            topic,
            pkid: rest[0] as u16 * 256 + rest[1] as u16,
            payload: rest[2..].to_vec(),
        })
    }
}

/// `None`: the model leaves the result open. `Some(x)`: the model says `x`.
fn connect_body(body: &[u8]) -> Option<Option<ConnectData>> {
    let (name, tail) = match read_text(body) {
        Some(x) => x,
        None => return Some(None),
    };
    if tail.len() < 4 || name != "MQTT" || (tail[0] != 4 && tail[0] != 5) {
        return Some(None);
    }
    let (client_id, _rest) = match read_text(&tail[4..]) {
        Some(x) => x,
        None => return Some(None),
    };
    let flags = tail[1];
    if flags / 4 == 0 {
        Some(Some(ConnectData {
            protocol: if tail[0] == 4 { ProtocolLevel::V4 } else { ProtocolLevel::V5 },
            keep_alive: tail[2] as u16 * 256 + tail[3] as u16,
            client_id,
            clean_session: (flags / 2) % 2 == 1,
            last_will: None,
            login: None,
        }))
    } else {
        None
    }
}

/// `None`: the model leaves the result open.
fn frame_packet(first: u8, remaining: usize, body: &[u8]) -> Option<Option<Packet>> {
    match first / 16 {
        1 => connect_body(body).map(|c| c.map(Packet::Connect)),
        2 => Some(if body.len() < 2 {
            None
        } else {
            code_of(body[1]).map(|code| {
                Packet::ConnAck(ConnAckData { session_present: body[0] % 2 == 1, code })
            })
        }),
        3 => Some(publish_body(first, body).map(Packet::Publish)),
        4 => Some(pkid_body(body).map(Packet::PubAck)),
        5 => Some(pkid_body(body).map(Packet::PubRec)),
        6 => Some(pkid_body(body).map(Packet::PubRel)),
        7 => Some(pkid_body(body).map(Packet::PubComp)),
        8 | 9 | 10 => None,
        11 => Some(if remaining == 2 { pkid_body(body).map(Packet::UnsubAck) } else { None }),
        12 => Some(Some(Packet::PingReq)),
        13 => Some(Some(Packet::PingResp)),
        14 => Some(Some(Packet::Disconnect)),
        _ => Some(None),
    }
}

fn compare(stream: &[u8], max: usize) {
    let mut buffer = stream.to_vec();
    let got = parse_packet(&mut buffer, max, &Version::V311);
    match frame_check(stream, max) {
        Check::Framed(header, remaining) => {
            assert_eq!(buffer, &stream[header + remaining..], "{:?}", stream);
            let body = &stream[header..header + remaining];
            match frame_packet(stream[0], remaining, body) {
                Some(Some(packet)) => assert_eq!(got, Ok(packet), "{:?}", stream),
                Some(None) => assert_eq!(got, Err(MqttError::MalformedPacket), "{:?}", stream),
                None => match got {
                    Ok(packet) => {
                        let kind = match packet {
                            Packet::Connect(_) => 1,
                            Packet::Subscribe(_) => 8,
                            Packet::SubAck(_) => 9,
                            Packet::Unsubscribe(_) => 10,
                            _ => 0,
                        };
                        assert_eq!(kind, stream[0] / 16, "{:?}", stream);
                    }
                    Err(e) => assert_eq!(e, MqttError::MalformedPacket, "{:?}", stream),
                },
            }
        }
        Check::NeedMore(n) => {
            assert_eq!(got, Err(MqttError::InsufficientBytes(n)), "{:?}", stream);
            assert_eq!(buffer, stream);
        }
        Check::BadLength | Check::TooLarge => {
            assert_eq!(got, Err(MqttError::MalformedPacket), "{:?}", stream);
            assert_eq!(buffer, stream);
        }
    }
}

#[test]
fn codec_agrees_with_the_format_on_random_streams() {
    let mut rng = Lcg(1);
    for _ in 0..100_000 {
        let len = rng.below(24) as usize;
        let mut stream: Vec<u8> = (0..len).map(|_| rng.next() as u8).collect();
        // bias towards frames that are there
        if len >= 2 && rng.below(4) != 0 {
            stream[1] = rng.below((len as u64).min(128)) as u8;
        }
        if len >= 4 && rng.below(3) == 0 {
            stream[2] = 0;
            stream[3] = rng.below(4) as u8;
        }
        let max = [0usize, 1, 2, 5, 16, 1024, usize::MAX][rng.below(7) as usize];
        compare(&stream, max);
    }
}

#[test]
fn codec_agrees_with_the_format_on_random_connects() {
    let mut rng = Lcg(7);
    for _ in 0..50_000 {
        let mut body = vec![0u8, 4, b'M', b'Q', b'T', b'T', 4, 2, 0, 0];
        let id_len = rng.below(6) as usize;
        body.push(0);
        body.push(id_len as u8);
        for _ in 0..id_len {
            body.push(b'a' + rng.below(26) as u8);
        }
        for _ in 0..rng.below(8) {
            body.push(rng.next() as u8);
        }
        // disturb one byte now and then
        for _ in 0..rng.below(3) {
            let at = rng.below(body.len() as u64) as usize;
            body[at] = rng.next() as u8;
        }
        if rng.below(2) == 0 {
            body[7] = rng.below(4) as u8;
        }
        let mut stream = vec![0x10 + rng.below(16) as u8, body.len() as u8];
        stream.extend_from_slice(&body);
        compare(&stream, 1024);
    }
}

#[test]
fn codec_agrees_with_the_format_on_random_publishes() {
    let mut rng = Lcg(11);
    for _ in 0..100_000 {
        let topic_len = rng.below(5) as usize;
        let mut body = vec![0u8, topic_len as u8];
        for _ in 0..topic_len {
            body.push(if rng.below(8) == 0 { rng.next() as u8 } else { b'a' + rng.below(26) as u8 });
        }
        for _ in 0..rng.below(6) {
            body.push(rng.below(3) as u8);
        }
        if rng.below(10) == 0 && !body.is_empty() {
            let at = rng.below(body.len() as u64) as usize;
            body[at] = rng.next() as u8;
        }
        let mut stream = vec![0x30 + rng.below(16) as u8, body.len() as u8];
        stream.extend_from_slice(&body);
        compare(&stream, 1024);
    }
}

fn length_bytes(mut n: usize) -> Vec<u8> {
    let mut out = Vec::new();
    loop {
        if n < 128 {
            out.push(n as u8);
            return out;
        }
        out.push((n % 128 + 128) as u8);
        n /= 128;
    }
}

#[test]
fn written_frames_agree_with_the_format() {
    let mut rng = Lcg(3);
    let sizes = [0usize, 1, 2, 100, 127, 128, 129, 16_000, 16_383, 16_384, 70_000];
    for _ in 0..400 {
        let topic: String = (0..sizes[rng.below(11) as usize])
            .map(|_| if rng.below(5) == 0 { 'é' } else { 'a' })
            .collect();
        let payload: Vec<u8> = (0..sizes[rng.below(10) as usize]).map(|_| rng.next() as u8).collect();
        let qos = Qos::from_level(rng.below(3) as u8).unwrap();
        let pkid = if rng.below(3) == 0 { 0 } else { rng.next() as u16 };
        let dup = rng.below(2) == 0;
        let retain = rng.below(2) == 0;
        let got = write_publish(&topic, &payload, qos, pkid, dup, retain);
        if qos != Qos::AtMostOnce && pkid == 0 {
            assert_eq!(got, Err(MqttError::MalformedPacket));
        } else {
            let remaining =
                2 + topic.len() + if qos != Qos::AtMostOnce { 2 } else { 0 } + payload.len();
            let mut frame =
                vec![0x30 + if dup { 8 } else { 0 } + 2 * qos.level() + if retain { 1 } else { 0 }];
            frame.extend(length_bytes(remaining));
            frame.push(((topic.len() % 65536) / 256) as u8);
            frame.push((topic.len() % 256) as u8);
            frame.extend_from_slice(topic.as_bytes());
            if qos != Qos::AtMostOnce {
                frame.push((pkid / 256) as u8);
                frame.push((pkid % 256) as u8);
            }
            frame.extend_from_slice(&payload);
            assert_eq!(got, Ok(frame));
        }

        let id: String = (0..sizes[rng.below(11) as usize]).map(|_| 'x').collect();
        let keep_alive = rng.next() as u16;
        let clean = rng.below(2) == 0;
        let v5 = rng.below(2) == 0;
        let level = if v5 { ProtocolLevel::V5 } else { ProtocolLevel::V4 };
        let got = write_connect(&id, level, keep_alive, clean).unwrap();
        let mut frame = vec![0x10];
        frame.extend(length_bytes(12 + id.len()));
        frame.extend_from_slice(&[0, 4, b'M', b'Q', b'T', b'T']);
        frame.push(if v5 { 5 } else { 4 });
        frame.push(if clean { 2 } else { 0 });
        frame.push((keep_alive / 256) as u8);
        frame.push((keep_alive % 256) as u8);
        frame.push(((id.len() % 65536) / 256) as u8);
        frame.push((id.len() % 256) as u8);
        frame.extend_from_slice(id.as_bytes());
        assert_eq!(got, frame);
    }
}

#[test]
fn publish_at_the_limit_of_the_length_field() {
    let payload = vec![0u8; 268_435_455];
    assert_eq!(
        write_publish("t", &payload, Qos::AtMostOnce, 0, false, false),
        Err(MqttError::MalformedPacket)
    );
    let payload = vec![0u8; 268_435_455 - 3];
    let frame = write_publish("t", &payload, Qos::AtMostOnce, 0, false, false).unwrap();
    assert_eq!(&frame[..8], &[0x30, 0xFF, 0xFF, 0xFF, 0x7F, 0, 1, b't']);
    let mut stream = frame;
    match parse_packet(&mut stream, usize::MAX, &Version::V311) {
        Ok(Packet::Publish(p)) => assert_eq!(p.payload.len(), 268_435_455 - 3),
        other => panic!("{:?}", other.map(|_| ())),
    }
}
