//! What this library takes on trust from the crates `mqttbytes`, `bytes` and
//! `uuid`: their types, and a contract for each of their functions that the
//! library calls. None of these contracts is proved; each restates what the
//! named function's source does. The two conversions at the end of the file
//! are verified like the rest of the library.

use vstd::prelude::*;
use crate::packet::{ConnAckData, ReturnCode, ProtocolLevel, Qos};
use crate::packet::{ConnectView, WillView, CredentialsView, PublishView};
use crate::packet::{SubAckData, SubAckView, SubscribeData, SubscribeFilter, SubscribeReasonCode};
use crate::packet::{SubscribeView, UnsubscribeData, UnsubscribeView};
use crate::wire::{FrameCheck, frame_check, MAX_REMAINING_LENGTH};
use crate::wire::{connack_body, connack_frame, pkid_body, puback_frame, disconnect_frame};
use crate::wire::{publish_body, publish_frame, publish_writable};
use crate::wire::{connect_frame, connect_remaining, connect_body};

verus! {

/// `mqttbytes::FixedHeader`: first byte and lengths of a frame, all private.
#[verifier::external_type_specification]
#[verifier::external_body]
pub struct ExFixedHeader(mqttbytes::FixedHeader);

/// `bytes::Bytes`: an immutable byte string.
#[verifier::external_type_specification]
#[verifier::external_body]
pub struct ExBytes(bytes::Bytes);

/// `bytes::BytesMut`: a growable byte buffer.
#[verifier::external_type_specification]
#[verifier::external_body]
pub struct ExBytesMut(bytes::BytesMut);

/// `mqttbytes::Error`, with its variants.
#[verifier::external_type_specification]
pub struct ExError(mqttbytes::Error);

/// `mqttbytes::PacketType`, with its variants.
#[verifier::external_type_specification]
pub struct ExPacketType(mqttbytes::PacketType);

/// `mqttbytes::QoS`, with its variants.
#[verifier::external_type_specification]
pub struct ExQoS(mqttbytes::QoS);

/// `mqttbytes::Protocol`, with its variants.
#[verifier::external_type_specification]
pub struct ExProtocol(mqttbytes::Protocol);

/// `mqttbytes::v4::ConnectReturnCode`, with its variants.
#[verifier::external_type_specification]
pub struct ExConnectReturnCode(mqttbytes::v4::ConnectReturnCode);

/// `mqttbytes::v4::ConnAck`, with its fields.
#[verifier::external_type_specification]
pub struct ExConnAck(mqttbytes::v4::ConnAck);

/// `mqttbytes::v4::PubAck`, with its field.
#[verifier::external_type_specification]
pub struct ExPubAck(mqttbytes::v4::PubAck);

/// `mqttbytes::v4::PubRec`, with its field.
#[verifier::external_type_specification]
pub struct ExPubRec(mqttbytes::v4::PubRec);

/// `mqttbytes::v4::PubRel`, with its field.
#[verifier::external_type_specification]
pub struct ExPubRel(mqttbytes::v4::PubRel);

/// `mqttbytes::v4::PubComp`, with its field.
#[verifier::external_type_specification]
pub struct ExPubComp(mqttbytes::v4::PubComp);

/// `mqttbytes::v4::UnsubAck`, with its field.
#[verifier::external_type_specification]
pub struct ExUnsubAck(mqttbytes::v4::UnsubAck);

/// `mqttbytes::v4::Publish`, with its fields.
#[verifier::external_type_specification]
pub struct ExPublish(mqttbytes::v4::Publish);

/// `mqttbytes::v4::LastWill`, with its fields.
#[verifier::external_type_specification]
pub struct ExLastWill(mqttbytes::v4::LastWill);

/// `mqttbytes::v4::Login`, with its fields.
#[verifier::external_type_specification]
pub struct ExLogin(mqttbytes::v4::Login);

/// `mqttbytes::v4::Connect`, with its fields.
#[verifier::external_type_specification]
pub struct ExConnect(mqttbytes::v4::Connect);

/// `mqttbytes::v4::Disconnect`, which has no fields.
#[verifier::external_type_specification]
pub struct ExDisconnect(mqttbytes::v4::Disconnect);

/// The three private fields of a fixed header.
pub struct HeaderFields {
    /// First byte of the frame: packet type and flags.
    pub first_byte: u8,
    /// Size of the fixed header: the first byte and the length field.
    pub header_len: nat,
    /// The remaining length that the header announces.
    pub remaining: nat,
}

/// What a fixed header holds.
pub uninterp spec fn header_fields(header: mqttbytes::FixedHeader) -> HeaderFields;

/// The bytes of a `Bytes`.
pub uninterp spec fn bytes_content(bytes: bytes::Bytes) -> Seq<u8>;

/// The bytes of a `BytesMut`.
pub uninterp spec fn buffer_content(buffer: bytes::BytesMut) -> Seq<u8>;

/// The will and the login that the body of a CONNECT carries behind its
/// client identifier, where the connect flags ask for either; `None` where
/// the flags or those fields are malformed.
pub uninterp spec fn connect_options(body: Seq<u8>) -> Option<
    (Option<WillView>, Option<CredentialsView>),
>;

/// What the body of a SUBSCRIBE frame says; `None` where it is malformed.
pub uninterp spec fn subscribe_decoded(body: Seq<u8>) -> Option<SubscribeView>;

/// What the body of a SUBACK frame says; `None` where it is malformed.
pub uninterp spec fn suback_decoded(body: Seq<u8>) -> Option<SubAckView>;

/// What the body of an UNSUBSCRIBE frame says; `None` where it is malformed.
pub uninterp spec fn unsubscribe_decoded(body: Seq<u8>) -> Option<UnsubscribeView>;

/// The library's quality of service for the outside one.
pub open spec fn qos_model(qos: mqttbytes::QoS) -> Qos {
    match qos {
        mqttbytes::QoS::AtMostOnce => Qos::AtMostOnce,
        mqttbytes::QoS::AtLeastOnce => Qos::AtLeastOnce,
        mqttbytes::QoS::ExactlyOnce => Qos::ExactlyOnce,
    }
}

/// The library's return code for the outside one.
pub open spec fn return_code_model(code: mqttbytes::v4::ConnectReturnCode) -> ReturnCode {
    match code {
        mqttbytes::v4::ConnectReturnCode::Success => ReturnCode::Success,
        mqttbytes::v4::ConnectReturnCode::RefusedProtocolVersion => {
            ReturnCode::RefusedProtocolVersion
        },
        mqttbytes::v4::ConnectReturnCode::BadClientId => ReturnCode::BadClientId,
        mqttbytes::v4::ConnectReturnCode::ServiceUnavailable => {
            ReturnCode::ServiceUnavailable
        },
        mqttbytes::v4::ConnectReturnCode::BadUserNamePassword => {
            ReturnCode::BadUserNamePassword
        },
        mqttbytes::v4::ConnectReturnCode::NotAuthorized => ReturnCode::NotAuthorized,
    }
}

/// The library's acknowledgement for the outside one.
pub open spec fn connack_model(ack: mqttbytes::v4::ConnAck) -> ConnAckData {
    ConnAckData { session_present: ack.session_present, code: return_code_model(ack.code) }
}

/// The library's protocol level for the outside one.
pub open spec fn protocol_model(protocol: mqttbytes::Protocol) -> ProtocolLevel {
    match protocol {
        mqttbytes::Protocol::V4 => ProtocolLevel::V4,
        mqttbytes::Protocol::V5 => ProtocolLevel::V5,
    }
}

/// The view of an outside PUBLISH.
pub open spec fn publish_model(p: mqttbytes::v4::Publish) -> PublishView {
    PublishView {
        dup: p.dup,
        qos: qos_model(p.qos),
        retain: p.retain,
        topic: p.topic@,
        pkid: p.pkid,
        payload: bytes_content(p.payload),
    }
}

/// The view of an outside will.
pub open spec fn last_will_model(will: mqttbytes::v4::LastWill) -> WillView {
    WillView {
        topic: will.topic@,
        message: bytes_content(will.message),
        qos: qos_model(will.qos),
        retain: will.retain,
    }
}

/// The view of an outside login.
pub open spec fn login_model(login: mqttbytes::v4::Login) -> CredentialsView {
    CredentialsView { username: login.username@, password: login.password@ }
}

/// The view of an outside CONNECT.
pub open spec fn connect_model(c: mqttbytes::v4::Connect) -> ConnectView {
    ConnectView {
        protocol: protocol_model(c.protocol),
        keep_alive: c.keep_alive,
        client_id: c.client_id@,
        clean_session: c.clean_session,
        last_will: match c.last_will {
            Some(will) => Some(last_will_model(will)),
            None => None,
        },
        login: match c.login {
            Some(login) => Some(login_model(login)),
            None => None,
        },
    }
}

/// The packet type in the high four bits of a first byte, as
/// `FixedHeader::packet_type` tells it.
pub open spec fn packet_type_of(first_byte: u8) -> Result<mqttbytes::PacketType, mqttbytes::Error> {
    let num = first_byte / 16;
    if num == 1 {
        Ok(mqttbytes::PacketType::Connect)
    } else if num == 2 {
        Ok(mqttbytes::PacketType::ConnAck)
    } else if num == 3 {
        Ok(mqttbytes::PacketType::Publish)
    } else if num == 4 {
        Ok(mqttbytes::PacketType::PubAck)
    } else if num == 5 {
        Ok(mqttbytes::PacketType::PubRec)
    } else if num == 6 {
        Ok(mqttbytes::PacketType::PubRel)
    } else if num == 7 {
        Ok(mqttbytes::PacketType::PubComp)
    } else if num == 8 {
        Ok(mqttbytes::PacketType::Subscribe)
    } else if num == 9 {
        Ok(mqttbytes::PacketType::SubAck)
    } else if num == 10 {
        Ok(mqttbytes::PacketType::Unsubscribe)
    } else if num == 11 {
        Ok(mqttbytes::PacketType::UnsubAck)
    } else if num == 12 {
        Ok(mqttbytes::PacketType::PingReq)
    } else if num == 13 {
        Ok(mqttbytes::PacketType::PingResp)
    } else if num == 14 {
        Ok(mqttbytes::PacketType::Disconnect)
    } else {
        Err(mqttbytes::Error::InvalidPacketType(num))
    }
}

/// The part of a frame behind its fixed header.
pub open spec fn body_of(header: mqttbytes::FixedHeader, frame: Seq<u8>) -> Seq<u8> {
    frame.skip(header_fields(header).header_len as int)
}

/// `mqttbytes::check` on the bytes of `stream`: the fixed header of the frame
/// that the stream starts with, where a whole frame is there and its
/// remaining length is at most `max_packet_size`; else the error that says
/// how many bytes are missing, that the length field is too long, or that
/// the frame is too large.
#[verifier::external_body]
pub(crate) fn check(stream: &[u8], max_packet_size: usize) -> (r: Result<
    mqttbytes::FixedHeader,
    mqttbytes::Error,
>)
    ensures
        match frame_check(stream@, max_packet_size as nat) {
            FrameCheck::Framed { header_len, remaining } => r matches Ok(h) && header_fields(h)
                == (HeaderFields { first_byte: stream@[0], header_len, remaining }),
            FrameCheck::NeedMore { missing } => r == Err::<mqttbytes::FixedHeader, mqttbytes::Error>(
                mqttbytes::Error::InsufficientBytes(missing as usize),
            ),
            FrameCheck::BadLength => r == Err::<mqttbytes::FixedHeader, mqttbytes::Error>(
                mqttbytes::Error::MalformedRemainingLength,
            ),
            FrameCheck::TooLarge { remaining } => r == Err::<
                mqttbytes::FixedHeader,
                mqttbytes::Error,
            >(mqttbytes::Error::PayloadSizeLimitExceeded(remaining as usize)),
        },
{
    mqttbytes::check(stream.iter(), max_packet_size)
}

/// `mqttbytes::FixedHeader::frame_length`: the size of the whole frame, fixed
/// header and remaining length together.
pub assume_specification[ mqttbytes::FixedHeader::frame_length ](
    header: &mqttbytes::FixedHeader,
) -> (n: usize)
    requires
        header_fields(*header).header_len + header_fields(*header).remaining <= usize::MAX,
    ensures
        n == header_fields(*header).header_len + header_fields(*header).remaining,
;

/// `mqttbytes::FixedHeader::packet_type`: the packet type in the high four
/// bits of the first byte; an error for 0 and 15.
pub assume_specification[ mqttbytes::FixedHeader::packet_type ](
    header: &mqttbytes::FixedHeader,
) -> (r: Result<mqttbytes::PacketType, mqttbytes::Error>)
    ensures
        r == packet_type_of(header_fields(*header).first_byte),
;

/// `bytes::Bytes::copy_from_slice`: a `Bytes` with the bytes of the slice.
pub assume_specification[ bytes::Bytes::copy_from_slice ](data: &[u8]) -> (b: bytes::Bytes)
    ensures
        bytes_content(b) == data@,
;

/// `to_vec` on a `Bytes`: its bytes in a vector.
#[verifier::external_body]
pub(crate) fn bytes_to_vec(bytes: &bytes::Bytes) -> (v: Vec<u8>)
    ensures
        v@ == bytes_content(*bytes),
{
    bytes.to_vec()
}

/// `bytes::BytesMut::new`: an empty buffer.
pub assume_specification[ bytes::BytesMut::new ]() -> (b: bytes::BytesMut)
    ensures
        buffer_content(b) == Seq::<u8>::empty(),
;

/// `to_vec` on a `BytesMut`: its bytes in a vector.
#[verifier::external_body]
pub(crate) fn buffer_to_vec(buffer: &bytes::BytesMut) -> (v: Vec<u8>)
    ensures
        v@ == buffer_content(*buffer),
{
    buffer.to_vec()
}

/// `mqttbytes::v4::ConnAck::read`: skips the fixed header, then takes the
/// session-present flag from the lowest bit of the first body byte and the
/// return code from the second; an error where the body has fewer than two
/// bytes or the code is above 5.
pub assume_specification[ mqttbytes::v4::ConnAck::read ](
    fixed_header: mqttbytes::FixedHeader,
    bytes: bytes::Bytes,
) -> (r: Result<mqttbytes::v4::ConnAck, mqttbytes::Error>)
    requires
        header_fields(fixed_header).header_len <= bytes_content(bytes).len(),
    ensures
        match connack_body(body_of(fixed_header, bytes_content(bytes))) {
            Some(ack) => r matches Ok(read) && connack_model(read) == ack,
            None => r is Err,
        },
;

/// `mqttbytes::v4::PubAck::read`: skips the fixed header, then takes the
/// packet identifier from the first two body bytes; an error where the body
/// has fewer than two bytes.
pub assume_specification[ mqttbytes::v4::PubAck::read ](
    fixed_header: mqttbytes::FixedHeader,
    bytes: bytes::Bytes,
) -> (r: Result<mqttbytes::v4::PubAck, mqttbytes::Error>)
    requires
        header_fields(fixed_header).header_len <= bytes_content(bytes).len(),
    ensures
        match pkid_body(body_of(fixed_header, bytes_content(bytes))) {
            Some(pkid) => r matches Ok(read) && read.pkid == pkid,
            None => r is Err,
        },
;

/// `mqttbytes::v4::PubRec::read`: as for PUBACK.
pub assume_specification[ mqttbytes::v4::PubRec::read ](
    fixed_header: mqttbytes::FixedHeader,
    bytes: bytes::Bytes,
) -> (r: Result<mqttbytes::v4::PubRec, mqttbytes::Error>)
    requires
        header_fields(fixed_header).header_len <= bytes_content(bytes).len(),
    ensures
        match pkid_body(body_of(fixed_header, bytes_content(bytes))) {
            Some(pkid) => r matches Ok(read) && read.pkid == pkid,
            None => r is Err,
        },
;

/// `mqttbytes::v4::PubRel::read`: as for PUBACK.
pub assume_specification[ mqttbytes::v4::PubRel::read ](
    fixed_header: mqttbytes::FixedHeader,
    bytes: bytes::Bytes,
) -> (r: Result<mqttbytes::v4::PubRel, mqttbytes::Error>)
    requires
        header_fields(fixed_header).header_len <= bytes_content(bytes).len(),
    ensures
        match pkid_body(body_of(fixed_header, bytes_content(bytes))) {
            Some(pkid) => r matches Ok(read) && read.pkid == pkid,
            None => r is Err,
        },
;

/// `mqttbytes::v4::PubComp::read`: as for PUBACK.
pub assume_specification[ mqttbytes::v4::PubComp::read ](
    fixed_header: mqttbytes::FixedHeader,
    bytes: bytes::Bytes,
) -> (r: Result<mqttbytes::v4::PubComp, mqttbytes::Error>)
    requires
        header_fields(fixed_header).header_len <= bytes_content(bytes).len(),
    ensures
        match pkid_body(body_of(fixed_header, bytes_content(bytes))) {
            Some(pkid) => r matches Ok(read) && read.pkid == pkid,
            None => r is Err,
        },
;

/// `mqttbytes::v4::UnsubAck::read`: an error unless the header announces a
/// remaining length of 2; then as for PUBACK.
pub assume_specification[ mqttbytes::v4::UnsubAck::read ](
    fixed_header: mqttbytes::FixedHeader,
    bytes: bytes::Bytes,
) -> (r: Result<mqttbytes::v4::UnsubAck, mqttbytes::Error>)
    requires
        header_fields(fixed_header).header_len <= bytes_content(bytes).len(),
    ensures
        match pkid_body(body_of(fixed_header, bytes_content(bytes))) {
            Some(pkid) if header_fields(fixed_header).remaining == 2 => r matches Ok(read)
                && read.pkid == pkid,
            _ => r is Err,
        },
;

/// `mqttbytes::v4::Publish::read`: quality of service, duplicate and retain
/// flags from the first byte; then, behind the fixed header, the topic as a
/// length-prefixed UTF-8 text, the packet identifier above quality of
/// service 0, and the rest as payload. An error where the two bits of the
/// quality of service are both set, the topic is cut short or no UTF-8, or
/// the packet identifier is missing or 0.
pub assume_specification[ mqttbytes::v4::Publish::read ](
    fixed_header: mqttbytes::FixedHeader,
    bytes: bytes::Bytes,
) -> (r: Result<mqttbytes::v4::Publish, mqttbytes::Error>)
    requires
        header_fields(fixed_header).header_len <= bytes_content(bytes).len(),
    ensures
        match publish_body(
            header_fields(fixed_header).first_byte,
            body_of(fixed_header, bytes_content(bytes)),
        ) {
            Some(p) => r matches Ok(read) && publish_model(read) == p,
            None => r is Err,
        },
;

/// `mqttbytes::v4::Connect::read`: behind the fixed header, the protocol name
/// `MQTT`, the level 4 or 5, the connect flags, the keep-alive and the client
/// identifier; then the will and the login where the flags ask for them,
/// which this contract only names.
pub assume_specification[ mqttbytes::v4::Connect::read ](
    fixed_header: mqttbytes::FixedHeader,
    bytes: bytes::Bytes,
) -> (r: Result<mqttbytes::v4::Connect, mqttbytes::Error>)
    requires
        header_fields(fixed_header).header_len <= bytes_content(bytes).len(),
    ensures
        match connect_body(
            body_of(fixed_header, bytes_content(bytes)),
            connect_options(body_of(fixed_header, bytes_content(bytes))),
        ) {
            Some(c) => r matches Ok(read) && connect_model(read) == c,
            None => r is Err,
        },
;

/// `mqttbytes::v4::Subscribe::read` on a whole frame, its result brought into
/// the library's type field by field.
#[verifier::external_body]
pub(crate) fn read_subscribe(header: mqttbytes::FixedHeader, frame: &[u8]) -> (r: Result<
    SubscribeData,
    mqttbytes::Error,
>)
    requires
        frame@.len() == header_fields(header).header_len + header_fields(header).remaining,
    ensures
        match r {
            Ok(s) => subscribe_decoded(body_of(header, frame@)) == Some(s@),
            Err(_) => subscribe_decoded(body_of(header, frame@)) is None,
        },
{
    let read = mqttbytes::v4::Subscribe::read(header, bytes::Bytes::copy_from_slice(frame))?;
    let filters = read.filters.into_iter().map(
        |f| SubscribeFilter { path: f.path, qos: qos_from_outside(f.qos) },
    ).collect();
    Ok(SubscribeData { pkid: read.pkid, filters })
}

/// `mqttbytes::v4::SubAck::read` on a whole frame, its result brought into
/// the library's type field by field.
#[verifier::external_body]
pub(crate) fn read_suback(header: mqttbytes::FixedHeader, frame: &[u8]) -> (r: Result<
    SubAckData,
    mqttbytes::Error,
>)
    requires
        frame@.len() == header_fields(header).header_len + header_fields(header).remaining,
    ensures
        match r {
            Ok(s) => suback_decoded(body_of(header, frame@)) == Some(s@),
            Err(_) => suback_decoded(body_of(header, frame@)) is None,
        },
{
    let read = mqttbytes::v4::SubAck::read(header, bytes::Bytes::copy_from_slice(frame))?;
    let return_codes = read.return_codes.into_iter().map(
        |code| match code {
            mqttbytes::v4::SubscribeReasonCode::Success(qos) => SubscribeReasonCode::Success(
                qos_from_outside(qos),
            ),
            mqttbytes::v4::SubscribeReasonCode::Failure => SubscribeReasonCode::Failure,
        },
    ).collect();
    Ok(SubAckData { pkid: read.pkid, return_codes })
}

/// `mqttbytes::v4::Unsubscribe::read` on a whole frame, its result brought
/// into the library's type field by field.
#[verifier::external_body]
pub(crate) fn read_unsubscribe(header: mqttbytes::FixedHeader, frame: &[u8]) -> (r: Result<
    UnsubscribeData,
    mqttbytes::Error,
>)
    requires
        frame@.len() == header_fields(header).header_len + header_fields(header).remaining,
    ensures
        match r {
            Ok(u) => unsubscribe_decoded(body_of(header, frame@)) == Some(u@),
            Err(_) => unsubscribe_decoded(body_of(header, frame@)) is None,
        },
{
    let read = mqttbytes::v4::Unsubscribe::read(header, bytes::Bytes::copy_from_slice(frame))?;
    Ok(UnsubscribeData { pkid: read.pkid, topics: read.topics })
}

/// `mqttbytes::v4::Connect::new`: a CONNECT at protocol level 4 for the given
/// client identifier, with keep-alive 10, clean session, no will, no login.
#[verifier::external_body]
pub(crate) fn new_connect(client_id: &str) -> (c: mqttbytes::v4::Connect)
    ensures
        connect_model(c) == (ConnectView {
            protocol: ProtocolLevel::V4,
            keep_alive: 10,
            client_id: client_id@,
            clean_session: true,
            last_will: None,
            login: None,
        }),
        c.last_will is None,
        c.login is None,
{
    mqttbytes::v4::Connect::new(client_id)
}

/// `mqttbytes::v4::Publish::new`: a PUBLISH of the payload to the topic at
/// the given quality of service, neither duplicate nor retained, with packet
/// identifier 0.
#[verifier::external_body]
pub(crate) fn new_publish(topic: &str, qos: mqttbytes::QoS, payload: &[u8]) -> (p:
    mqttbytes::v4::Publish)
    ensures
        publish_model(p) == (PublishView {
            dup: false,
            qos: qos_model(qos),
            retain: false,
            topic: topic@,
            pkid: 0,
            payload: payload@,
        }),
{
    mqttbytes::v4::Publish::new(topic, qos, payload)
}

/// `mqttbytes::v4::Connect::write` for a CONNECT without will and login, into
/// an empty buffer: the buffer then holds the frame. An error where the
/// remaining length is more than the length field can carry.
pub assume_specification[ mqttbytes::v4::Connect::write ](
    connect: &mqttbytes::v4::Connect,
    buffer: &mut bytes::BytesMut,
) -> (r: Result<usize, mqttbytes::Error>)
    requires
        buffer_content(*old(buffer)).len() == 0,
        connect.last_will is None,
        connect.login is None,
    ensures
        connect_remaining(connect_model(*connect)) <= MAX_REMAINING_LENGTH ==> r is Ok
            && buffer_content(*final(buffer)) == connect_frame(connect_model(*connect)),
        connect_remaining(connect_model(*connect)) > MAX_REMAINING_LENGTH ==> r is Err,
;

/// `mqttbytes::v4::Publish::write`: appends the frame to the buffer. An error
/// where the remaining length is more than the length field can carry, or
/// where the quality of service is above 0 and the packet identifier is 0.
pub assume_specification[ mqttbytes::v4::Publish::write ](
    publish: &mqttbytes::v4::Publish,
    buffer: &mut bytes::BytesMut,
) -> (r: Result<usize, mqttbytes::Error>)
    ensures
        publish_writable(publish_model(*publish)) ==> r is Ok && buffer_content(*final(buffer))
            == buffer_content(*old(buffer)) + publish_frame(publish_model(*publish)),
        !publish_writable(publish_model(*publish)) ==> r is Err,
;

/// `mqttbytes::v4::ConnAck::write`: appends the four bytes of the frame.
pub assume_specification[ mqttbytes::v4::ConnAck::write ](
    ack: &mqttbytes::v4::ConnAck,
    buffer: &mut bytes::BytesMut,
) -> (r: Result<usize, mqttbytes::Error>)
    ensures
        r is Ok,
        buffer_content(*final(buffer)) == buffer_content(*old(buffer)) + connack_frame(
            connack_model(*ack),
        ),
;

/// `mqttbytes::v4::PubAck::write`: appends the four bytes of the frame.
pub assume_specification[ mqttbytes::v4::PubAck::write ](
    ack: &mqttbytes::v4::PubAck,
    buffer: &mut bytes::BytesMut,
) -> (r: Result<usize, mqttbytes::Error>)
    ensures
        r is Ok,
        buffer_content(*final(buffer)) == buffer_content(*old(buffer)) + puback_frame(ack.pkid),
;

/// `mqttbytes::v4::Disconnect::write`: appends the two bytes of the frame.
pub assume_specification[ mqttbytes::v4::Disconnect::write ](
    disconnect: &mqttbytes::v4::Disconnect,
    payload: &mut bytes::BytesMut,
) -> (r: Result<usize, mqttbytes::Error>)
    ensures
        r is Ok,
        buffer_content(*final(payload)) == buffer_content(*old(payload)) + disconnect_frame(),
;

/// Whether `c` is a hexadecimal digit in lower case.
pub open spec fn is_lower_hex(c: char) -> bool {
    ('0' <= c <= '9') || ('a' <= c <= 'f')
}

/// Whether `text` has the form in which a UUID is written: 36 characters,
/// hyphens at the places 8, 13, 18 and 23, and hexadecimal digits in lower
/// case elsewhere.
pub open spec fn is_uuid_text(text: Seq<char>) -> bool {
    &&& text.len() == 36
    &&& forall|i: int|
        0 <= i < 36 ==> if i == 8 || i == 13 || i == 18 || i == 23 {
            #[trigger] text[i] == '-'
        } else {
            is_lower_hex(text[i])
        }
}

/// `uuid::Uuid::new_v4` written out with `to_string`: a random identifier in
/// the hyphenated form. Which one comes is left open.
#[verifier::external_body]
pub(crate) fn random_uuid_text() -> (text: String)
    ensures
        is_uuid_text(text@),
{
    uuid::Uuid::new_v4().to_string()
}

/// The library's quality of service for the outside one.
pub fn qos_from_outside(qos: mqttbytes::QoS) -> (r: Qos)
    ensures
        r == qos_model(qos),
{
    match qos {
        mqttbytes::QoS::AtMostOnce => Qos::AtMostOnce,
        mqttbytes::QoS::AtLeastOnce => Qos::AtLeastOnce,
        mqttbytes::QoS::ExactlyOnce => Qos::ExactlyOnce,
    }
}

/// The outside quality of service for the library's.
pub fn qos_to_outside(qos: Qos) -> (r: mqttbytes::QoS)
    ensures
        qos_model(r) == qos,
{
    match qos {
        Qos::AtMostOnce => mqttbytes::QoS::AtMostOnce,
        Qos::AtLeastOnce => mqttbytes::QoS::AtLeastOnce,
        Qos::ExactlyOnce => mqttbytes::QoS::ExactlyOnce,
    }
}

} // verus!
