//! Reading and writing control packets.

use vstd::prelude::*;
use crate::bindings::{buffer_to_vec, bytes_to_vec, check, header_fields};
use crate::bindings::{connect_model, publish_model, return_code_model};
use crate::bindings::{connect_options, suback_decoded, subscribe_decoded, unsubscribe_decoded};
use crate::bindings::{new_connect, new_publish, qos_from_outside, qos_to_outside};
use crate::bindings::{read_suback, read_subscribe, read_unsubscribe};
use crate::error::{MqttError, outcome_is};
use crate::packet::{ConnAckData, ConnectData, ConnectView, Credentials, Packet, PacketView};
use crate::packet::{ProtocolLevel, PublishData, PublishView, Qos, ReturnCode, Will};
use crate::version::Version;
use crate::wire::{FrameCheck, MAX_REMAINING_LENGTH, frame_check, lemma_framed_fits};
use crate::wire::{connack_body, connack_frame, connect_body, connect_frame, connect_is_plain};
use crate::wire::{connect_remaining, disconnect_frame, pkid_body, puback_frame, publish_body};
use crate::wire::{publish_frame, publish_writable};

verus! {

/// What the frame with first byte `first_byte`, announced remaining length
/// `remaining` and body `body` says; `None` where it is malformed.
pub open spec fn frame_packet(first_byte: u8, remaining: nat, body: Seq<u8>) -> Option<PacketView> {
    let kind = first_byte / 16;
    if kind == 1 {
        match connect_body(body, connect_options(body)) {
            Some(c) => Some(PacketView::Connect(c)),
            None => None,
        }
    } else if kind == 2 {
        match connack_body(body) {
            Some(ack) => Some(PacketView::ConnAck(ack)),
            None => None,
        }
    } else if kind == 3 {
        match publish_body(first_byte, body) {
            Some(p) => Some(PacketView::Publish(p)),
            None => None,
        }
    } else if kind == 4 {
        match pkid_body(body) {
            Some(pkid) => Some(PacketView::PubAck(pkid)),
            None => None,
        }
    } else if kind == 5 {
        match pkid_body(body) {
            Some(pkid) => Some(PacketView::PubRec(pkid)),
            None => None,
        }
    } else if kind == 6 {
        match pkid_body(body) {
            Some(pkid) => Some(PacketView::PubRel(pkid)),
            None => None,
        }
    } else if kind == 7 {
        match pkid_body(body) {
            Some(pkid) => Some(PacketView::PubComp(pkid)),
            None => None,
        }
    } else if kind == 8 {
        match subscribe_decoded(body) {
            Some(s) => Some(PacketView::Subscribe(s)),
            None => None,
        }
    } else if kind == 9 {
        match suback_decoded(body) {
            Some(s) => Some(PacketView::SubAck(s)),
            None => None,
        }
    } else if kind == 10 {
        match unsubscribe_decoded(body) {
            Some(u) => Some(PacketView::Unsubscribe(u)),
            None => None,
        }
    } else if kind == 11 {
        match pkid_body(body) {
            Some(pkid) if remaining == 2 => Some(PacketView::UnsubAck(pkid)),
            _ => None,
        }
    } else if kind == 12 {
        Some(PacketView::PingReq)
    } else if kind == 13 {
        Some(PacketView::PingResp)
    } else if kind == 14 {
        Some(PacketView::Disconnect)
    } else {
        None
    }
}

/// What reading one packet off the front of `stream` gives, where frames
/// with a remaining length above `max` are refused.
pub open spec fn parse_result(stream: Seq<u8>, max: nat) -> Result<PacketView, MqttError> {
    match frame_check(stream, max) {
        FrameCheck::Framed { header_len, remaining } => {
            match frame_packet(
                stream[0],
                remaining,
                stream.subrange(header_len as int, (header_len + remaining) as int),
            ) {
                Some(p) => Ok(p),
                None => Err(MqttError::MalformedPacket),
            }
        },
        FrameCheck::NeedMore { missing } => Err(MqttError::InsufficientBytes(missing as usize)),
        FrameCheck::BadLength => Err(MqttError::MalformedPacket),
        FrameCheck::TooLarge { remaining } => Err(MqttError::MalformedPacket),
    }
}

/// How many bytes reading one packet takes off the front of `stream`: the
/// whole frame where one is there, else nothing.
pub open spec fn parse_consumed(stream: Seq<u8>, max: nat) -> nat {
    match frame_check(stream, max) {
        FrameCheck::Framed { header_len, remaining } => header_len + remaining,
        _ => 0,
    }
}

/// The library's return code for the outside one.
fn return_code_from_outside(code: mqttbytes::v4::ConnectReturnCode) -> (r: ReturnCode)
    ensures
        r == return_code_model(code),
{
    match code {
        mqttbytes::v4::ConnectReturnCode::Success => ReturnCode::Success,
        mqttbytes::v4::ConnectReturnCode::RefusedProtocolVersion => {
            ReturnCode::RefusedProtocolVersion
        },
        mqttbytes::v4::ConnectReturnCode::BadClientId => ReturnCode::BadClientId,
        mqttbytes::v4::ConnectReturnCode::ServiceUnavailable => ReturnCode::ServiceUnavailable,
        mqttbytes::v4::ConnectReturnCode::BadUserNamePassword => ReturnCode::BadUserNamePassword,
        mqttbytes::v4::ConnectReturnCode::NotAuthorized => ReturnCode::NotAuthorized,
    }
}

/// The library's PUBLISH for the outside one.
fn publish_from_outside(read: mqttbytes::v4::Publish) -> (p: PublishData)
    ensures
        p@ == publish_model(read),
{
    let payload = bytes_to_vec(&read.payload);
    PublishData {
        dup: read.dup,
        qos: qos_from_outside(read.qos),
        retain: read.retain,
        topic: read.topic,
        pkid: read.pkid,
        payload,
    }
}

/// The library's CONNECT for the outside one.
fn connect_from_outside(read: mqttbytes::v4::Connect) -> (c: ConnectData)
    ensures
        c@ == connect_model(read),
{
    let last_will = match read.last_will {
        Some(will) => {
            let message = bytes_to_vec(&will.message);
            Some(
                Will {
                    topic: will.topic,
                    message,
                    qos: qos_from_outside(will.qos),
                    retain: will.retain,
                },
            )
        },
        None => None,
    };
    let login = match read.login {
        Some(login) => Some(Credentials { username: login.username, password: login.password }),
        None => None,
    };
    let protocol = match read.protocol {
        mqttbytes::Protocol::V4 => ProtocolLevel::V4,
        mqttbytes::Protocol::V5 => ProtocolLevel::V5,
    };
    ConnectData {
        protocol,
        keep_alive: read.keep_alive,
        client_id: read.client_id,
        clean_session: read.clean_session,
        last_will,
        login,
    }
}

/// The error that the library reports for an error of the frame check:
/// missing bytes stay missing bytes, anything else is a malformed packet.
fn frame_error(e: mqttbytes::Error) -> (r: MqttError)
    ensures
        r == match e {
            mqttbytes::Error::InsufficientBytes(n) => MqttError::InsufficientBytes(n),
            _ => MqttError::MalformedPacket,
        },
{
    match e {
        mqttbytes::Error::InsufficientBytes(n) => MqttError::InsufficientBytes(n),
        _ => MqttError::MalformedPacket,
    }
}

/// Reads the packet at the front of `stream` and takes its frame off the
/// stream.
///
/// The fixed header is looked at first, without taking anything. Where the
/// stream does not yet hold the whole frame, the result says how many bytes
/// are missing and the stream stays as it is; so it does where the length
/// field is malformed or announces more than `max_size` bytes. Once a whole
/// frame is there it leaves the stream, whether or not its body then reads
/// as a packet. Any version but 3.1.1 is refused.
pub fn parse_packet(stream: &mut Vec<u8>, max_size: usize, version: &Version) -> (r: Result<
    Packet,
    MqttError,
>)
    ensures
        *version != Version::V311 ==> r == Err::<Packet, MqttError>(MqttError::UnsupportedVersion)
            && final(stream)@ == old(stream)@,
        *version == Version::V311 ==> outcome_is(
            r,
            parse_result(old(stream)@, max_size as nat),
        ) && final(stream)@ == old(stream)@.skip(
            parse_consumed(old(stream)@, max_size as nat) as int,
        ),
{
    match version {
        Version::V311 => {},
        _ => {
            return Err(MqttError::UnsupportedVersion);
        },
    }
    let header = match check(stream.as_slice(), max_size) {
        Ok(header) => header,
        Err(e) => {
            assert(old(stream)@.skip(0) == old(stream)@);
            return Err(frame_error(e));
        },
    };
    proof {
        lemma_framed_fits(stream@, max_size as nat);
        assert(stream@.len() == stream.len());
    }
    let frame_length = header.frame_length();
    let mut frame = stream.split_off(frame_length);
    core::mem::swap(stream, &mut frame);
    let ghost fields = header_fields(header);
    let ghost body = frame@.skip(fields.header_len as int);
    assert(body == old(stream)@.subrange(
        fields.header_len as int,
        (fields.header_len + fields.remaining) as int,
    ));
    assert(stream@ == old(stream)@.skip(frame_length as int));
    let packet_type = match header.packet_type() {
        Ok(packet_type) => packet_type,
        Err(_) => {
            return Err(MqttError::MalformedPacket);
        },
    };
    match packet_type {
        mqttbytes::PacketType::PingReq => Ok(Packet::PingReq),
        mqttbytes::PacketType::PingResp => Ok(Packet::PingResp),
        mqttbytes::PacketType::Disconnect => Ok(Packet::Disconnect),
        mqttbytes::PacketType::Connect => {
            let bytes = bytes::Bytes::copy_from_slice(frame.as_slice());
            match mqttbytes::v4::Connect::read(header, bytes) {
                Ok(read) => Ok(Packet::Connect(connect_from_outside(read))),
                Err(_) => Err(MqttError::MalformedPacket),
            }
        },
        mqttbytes::PacketType::ConnAck => {
            let bytes = bytes::Bytes::copy_from_slice(frame.as_slice());
            match mqttbytes::v4::ConnAck::read(header, bytes) {
                Ok(read) => Ok(
                    Packet::ConnAck(
                        ConnAckData {
                            session_present: read.session_present,
                            code: return_code_from_outside(read.code),
                        },
                    ),
                ),
                Err(_) => Err(MqttError::MalformedPacket),
            }
        },
        mqttbytes::PacketType::Publish => {
            let bytes = bytes::Bytes::copy_from_slice(frame.as_slice());
            match mqttbytes::v4::Publish::read(header, bytes) {
                Ok(read) => Ok(Packet::Publish(publish_from_outside(read))),
                Err(_) => Err(MqttError::MalformedPacket),
            }
        },
        mqttbytes::PacketType::PubAck => {
            let bytes = bytes::Bytes::copy_from_slice(frame.as_slice());
            match mqttbytes::v4::PubAck::read(header, bytes) {
                Ok(read) => Ok(Packet::PubAck(read.pkid)),
                Err(_) => Err(MqttError::MalformedPacket),
            }
        },
        mqttbytes::PacketType::PubRec => {
            let bytes = bytes::Bytes::copy_from_slice(frame.as_slice());
            match mqttbytes::v4::PubRec::read(header, bytes) {
                Ok(read) => Ok(Packet::PubRec(read.pkid)),
                Err(_) => Err(MqttError::MalformedPacket),
            }
        },
        mqttbytes::PacketType::PubRel => {
            let bytes = bytes::Bytes::copy_from_slice(frame.as_slice());
            match mqttbytes::v4::PubRel::read(header, bytes) {
                Ok(read) => Ok(Packet::PubRel(read.pkid)),
                Err(_) => Err(MqttError::MalformedPacket),
            }
        },
        mqttbytes::PacketType::PubComp => {
            let bytes = bytes::Bytes::copy_from_slice(frame.as_slice());
            match mqttbytes::v4::PubComp::read(header, bytes) {
                Ok(read) => Ok(Packet::PubComp(read.pkid)),
                Err(_) => Err(MqttError::MalformedPacket),
            }
        },
        mqttbytes::PacketType::Subscribe => {
            match read_subscribe(header, frame.as_slice()) {
                Ok(read) => Ok(Packet::Subscribe(read)),
                Err(_) => Err(MqttError::MalformedPacket),
            }
        },
        mqttbytes::PacketType::SubAck => {
            match read_suback(header, frame.as_slice()) {
                Ok(read) => Ok(Packet::SubAck(read)),
                Err(_) => Err(MqttError::MalformedPacket),
            }
        },
        mqttbytes::PacketType::Unsubscribe => {
            match read_unsubscribe(header, frame.as_slice()) {
                Ok(read) => Ok(Packet::Unsubscribe(read)),
                Err(_) => Err(MqttError::MalformedPacket),
            }
        },
        mqttbytes::PacketType::UnsubAck => {
            let bytes = bytes::Bytes::copy_from_slice(frame.as_slice());
            match mqttbytes::v4::UnsubAck::read(header, bytes) {
                Ok(read) => Ok(Packet::UnsubAck(read.pkid)),
                Err(_) => Err(MqttError::MalformedPacket),
            }
        },
    }
}

/// The bytes that stand for a packet on the wire, for the packets that a
/// client and its broker exchange around a publish; `None` for a packet that
/// cannot be written and for the kinds that are never sent.
pub open spec fn serialized(p: PacketView) -> Option<Seq<u8>> {
    match p {
        PacketView::Connect(c) => if connect_is_plain(c) && connect_remaining(c)
            <= MAX_REMAINING_LENGTH {
            Some(connect_frame(c))
        } else {
            None
        },
        PacketView::ConnAck(ack) => Some(connack_frame(ack)),
        PacketView::Publish(p) => if publish_writable(p) {
            Some(publish_frame(p))
        } else {
            None
        },
        PacketView::PubAck(pkid) => Some(puback_frame(pkid)),
        PacketView::Disconnect => Some(disconnect_frame()),
        _ => None,
    }
}

/// Whether a packet is of a kind that `serialize` writes.
pub open spec fn is_written_kind(p: PacketView) -> bool {
    match p {
        PacketView::Connect(c) => connect_is_plain(c),
        PacketView::ConnAck(_) => true,
        PacketView::Publish(_) => true,
        PacketView::PubAck(_) => true,
        PacketView::Disconnect => true,
        _ => false,
    }
}

/// The frame of a CONNECT without will and login.
pub fn write_connect(
    client_id: &str,
    protocol: ProtocolLevel,
    keep_alive: u16,
    clean_session: bool,
) -> (r: Result<Vec<u8>, MqttError>)
    ensures
        match serialized(
            PacketView::Connect(
                ConnectView {
                    protocol,
                    keep_alive,
                    client_id: client_id@,
                    clean_session,
                    last_will: None,
                    login: None,
                },
            ),
        ) {
            Some(frame) => r is Ok && r->Ok_0@ == frame,
            None => r == Err::<Vec<u8>, MqttError>(MqttError::MalformedPacket),
        },
{
    let mut connect = new_connect(client_id);
    connect.protocol = match protocol {
        ProtocolLevel::V4 => mqttbytes::Protocol::V4,
        ProtocolLevel::V5 => mqttbytes::Protocol::V5,
    };
    connect.keep_alive = keep_alive;
    connect.clean_session = clean_session;
    let mut buffer = bytes::BytesMut::new();
    match connect.write(&mut buffer) {
        Ok(_) => Ok(buffer_to_vec(&buffer)),
        Err(_) => Err(MqttError::MalformedPacket),
    }
}

/// The frame of a PUBLISH.
pub fn write_publish(
    topic: &str,
    payload: &[u8],
    qos: Qos,
    pkid: u16,
    dup: bool,
    retain: bool,
) -> (r: Result<Vec<u8>, MqttError>)
    ensures
        match serialized(
            PacketView::Publish(
                PublishView { dup, qos, retain, topic: topic@, pkid, payload: payload@ },
            ),
        ) {
            Some(frame) => r is Ok && r->Ok_0@ == frame,
            None => r == Err::<Vec<u8>, MqttError>(MqttError::MalformedPacket),
        },
{
    let mut publish = new_publish(topic, qos_to_outside(qos), payload);
    publish.pkid = pkid;
    publish.dup = dup;
    publish.retain = retain;
    let mut buffer = bytes::BytesMut::new();
    match publish.write(&mut buffer) {
        Ok(_) => Ok(buffer_to_vec(&buffer)),
        Err(_) => Err(MqttError::MalformedPacket),
    }
}

/// The frame of a CONNACK.
pub fn write_connack(ack: ConnAckData) -> (frame: Vec<u8>)
    ensures
        frame@ == connack_frame(ack),
{
    let outside = mqttbytes::v4::ConnAck {
        session_present: ack.session_present,
        code: match ack.code {
            ReturnCode::Success => mqttbytes::v4::ConnectReturnCode::Success,
            ReturnCode::RefusedProtocolVersion => {
                mqttbytes::v4::ConnectReturnCode::RefusedProtocolVersion
            },
            ReturnCode::BadClientId => mqttbytes::v4::ConnectReturnCode::BadClientId,
            ReturnCode::ServiceUnavailable => mqttbytes::v4::ConnectReturnCode::ServiceUnavailable,
            ReturnCode::BadUserNamePassword => {
                mqttbytes::v4::ConnectReturnCode::BadUserNamePassword
            },
            ReturnCode::NotAuthorized => mqttbytes::v4::ConnectReturnCode::NotAuthorized,
        },
    };
    let mut buffer = bytes::BytesMut::new();
    let _ = outside.write(&mut buffer);
    buffer_to_vec(&buffer)
}

/// The frame of a PUBACK.
pub fn write_puback(pkid: u16) -> (frame: Vec<u8>)
    ensures
        frame@ == puback_frame(pkid),
{
    let outside = mqttbytes::v4::PubAck { pkid };
    let mut buffer = bytes::BytesMut::new();
    let _ = outside.write(&mut buffer);
    buffer_to_vec(&buffer)
}

/// The frame of a DISCONNECT: the two bytes `0xE0 0x00`.
pub fn write_disconnect() -> (frame: Vec<u8>)
    ensures
        frame@ == disconnect_frame(),
{
    let mut buffer = bytes::BytesMut::new();
    let _ = mqttbytes::v4::Disconnect.write(&mut buffer);
    buffer_to_vec(&buffer)
}

/// Writes a packet as the bytes of its frame.
///
/// CONNECT without will and login, CONNACK, PUBLISH, PUBACK and DISCONNECT
/// are written. A CONNECT or PUBLISH whose remaining length is more than the
/// length field can carry, and a PUBLISH above quality of service 0 with
/// packet identifier 0, are malformed. Every other packet is unsupported.
pub fn serialize(packet: &Packet) -> (r: Result<Vec<u8>, MqttError>)
    ensures
        match serialized(packet@) {
            Some(frame) => r is Ok && r->Ok_0@ == frame,
            None => r == Err::<Vec<u8>, MqttError>(
                if is_written_kind(packet@) {
                    MqttError::MalformedPacket
                } else {
                    MqttError::UnsupportedPacket
                },
            ),
        },
{
    match packet {
        Packet::Connect(connect) => {
            if connect.last_will.is_some() || connect.login.is_some() {
                Err(MqttError::UnsupportedPacket)
            } else {
                write_connect(
                    connect.client_id.as_str(),
                    connect.protocol,
                    connect.keep_alive,
                    connect.clean_session,
                )
            }
        },
        Packet::ConnAck(ack) => Ok(write_connack(*ack)),
        Packet::Publish(publish) => write_publish(
            publish.topic.as_str(),
            publish.payload.as_slice(),
            publish.qos,
            publish.pkid,
            publish.dup,
            publish.retain,
        ),
        Packet::PubAck(pkid) => Ok(write_puback(*pkid)),
        Packet::Disconnect => Ok(write_disconnect()),
        _ => Err(MqttError::UnsupportedPacket),
    }
}

} // verus!
