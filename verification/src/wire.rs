//! The wire format of MQTT v3.1.1 as mathematics: what a frame is made of
//! and what its bytes mean. Nothing here runs; the codec is stated against
//! these functions.

use vstd::prelude::*;
use vstd::utf8::{decode_utf8, encode_utf8, valid_utf8};
use crate::packet::{ConnAckData, Qos, qos_level, qos_of_level, return_code_number};
use crate::packet::return_code_of;
use crate::packet::{ConnectView, WillView, CredentialsView, ProtocolLevel, PublishView};

verus! {

/// Largest remaining length that the variable-byte integer can carry.
pub const MAX_REMAINING_LENGTH: usize = 268_435_455;

/// The two bytes of a 16-bit number, high byte first.
pub open spec fn u16_bytes(n: u16) -> Seq<u8> {
    seq![(n / 256) as u8, (n % 256) as u8]
}

/// The 16-bit number that two bytes spell, high byte first.
pub open spec fn u16_of(high: u8, low: u8) -> u16 {
    (high as int * 256 + low as int) as u16
}

/// The variable-byte integer that spells a remaining length: seven bits to a
/// byte, low bits first, the top bit set on every byte but the last.
pub open spec fn length_bytes(n: nat) -> Seq<u8>
    decreases n,
{
    if n < 128 {
        seq![n as u8]
    } else {
        seq![(n % 128 + 128) as u8] + length_bytes(n / 128)
    }
}

/// Outcome of reading the remaining-length field of a frame.
pub enum LengthField {
    /// The field takes `size` bytes and spells `value`.
    Complete { size: nat, value: nat },
    /// The stream ends before the field does.
    Truncated,
    /// Four bytes in a row ask for another one.
    Overlong,
}

/// Reads the remaining-length field, which starts at the second byte of
/// `stream`, after `used` bytes of it that all asked for another one.
pub open spec fn length_field(stream: Seq<u8>, used: nat) -> LengthField
    decreases 4 - used,
{
    if used >= 4 {
        LengthField::Overlong
    } else if 1 + used >= stream.len() {
        LengthField::Truncated
    } else if stream[1 + used as int] < 128 {
        LengthField::Complete { size: used + 1, value: stream[1 + used as int] as nat }
    } else {
        match length_field(stream, used + 1) {
            LengthField::Complete { size, value } => LengthField::Complete {
                size,
                value: (stream[1 + used as int] - 128) as nat + 128 * value,
            },
            other => other,
        }
    }
}

/// Outcome of looking for one whole frame at the start of a stream.
pub enum FrameCheck {
    /// A frame is there: `header_len` bytes of fixed header, then `remaining`.
    Framed { header_len: nat, remaining: nat },
    /// At least `missing` more bytes are needed.
    NeedMore { missing: nat },
    /// The remaining-length field is longer than four bytes.
    BadLength,
    /// The frame announces `remaining` bytes, more than the reader accepts.
    TooLarge { remaining: nat },
}

/// Looks for one whole frame at the start of `stream`, refusing a remaining
/// length above `max`.
pub open spec fn frame_check(stream: Seq<u8>, max: nat) -> FrameCheck {
    if stream.len() < 2 {
        FrameCheck::NeedMore { missing: (2 - stream.len()) as nat }
    } else {
        match length_field(stream, 0) {
            LengthField::Truncated => FrameCheck::NeedMore { missing: 1 },
            LengthField::Overlong => FrameCheck::BadLength,
            LengthField::Complete { size, value } => {
                if value > max {
                    FrameCheck::TooLarge { remaining: value }
                } else if stream.len() < 1 + size + value {
                    FrameCheck::NeedMore { missing: (1 + size + value - stream.len()) as nat }
                } else {
                    FrameCheck::Framed { header_len: 1 + size, remaining: value }
                }
            },
        }
    }
}

/// A frame that the check finds lies within the stream, and its remaining
/// length within the limit.
pub proof fn lemma_framed_fits(stream: Seq<u8>, max: nat)
    ensures
        frame_check(stream, max) matches FrameCheck::Framed { header_len, remaining } ==> 2
            <= header_len <= 5 && remaining <= max && header_len + remaining <= stream.len(),
{
    lemma_length_field_size(stream, 0);
}

/// A complete length field takes more bytes than were read before it, and
/// four at most.
pub proof fn lemma_length_field_size(stream: Seq<u8>, used: nat)
    ensures
        length_field(stream, used) matches LengthField::Complete { size, value } ==> used < size
            <= 4,
    decreases 4 - used,
{
    if used < 4 && 1 + used < stream.len() && stream[1 + used as int] >= 128 {
        lemma_length_field_size(stream, used + 1);
    }
}

/// A byte string behind its 16-bit length.
pub open spec fn prefixed(bytes: Seq<u8>) -> Seq<u8> {
    u16_bytes((bytes.len() % 65536) as u16) + bytes
}

/// Splits a length-prefixed byte string off the front of `s`: the string and
/// what follows it. `None` where `s` is too short for it.
pub open spec fn read_prefixed(s: Seq<u8>) -> Option<(Seq<u8>, Seq<u8>)> {
    if s.len() < 2 {
        None
    } else {
        let n = u16_of(s[0], s[1]) as int;
        if n > s.len() - 2 {
            None
        } else {
            Some((s.subrange(2, 2 + n), s.skip(2 + n)))
        }
    }
}

/// Splits a length-prefixed UTF-8 text off the front of `s`.
pub open spec fn read_text(s: Seq<u8>) -> Option<(Seq<char>, Seq<u8>)> {
    match read_prefixed(s) {
        Some((bytes, rest)) => if valid_utf8(bytes) {
            Some((decode_utf8(bytes), rest))
        } else {
            None
        },
        None => None,
    }
}

/// The frame of a CONNACK.
pub open spec fn connack_frame(ack: ConnAckData) -> Seq<u8> {
    seq![0x20u8, 2u8, if ack.session_present { 1u8 } else { 0u8 }, return_code_number(ack.code)]
}

/// What the body of a CONNACK frame says.
pub open spec fn connack_body(body: Seq<u8>) -> Option<ConnAckData> {
    if body.len() < 2 {
        None
    } else {
        match return_code_of(body[1]) {
            Some(code) => Some(ConnAckData { session_present: body[0] % 2 == 1, code }),
            None => None,
        }
    }
}

/// The frame of a PUBACK for packet identifier `pkid`.
pub open spec fn puback_frame(pkid: u16) -> Seq<u8> {
    seq![0x40u8, 2u8] + u16_bytes(pkid)
}

/// The packet identifier that opens the body of an acknowledgement.
pub open spec fn pkid_body(body: Seq<u8>) -> Option<u16> {
    if body.len() < 2 {
        None
    } else {
        Some(u16_of(body[0], body[1]))
    }
}

/// The frame of a DISCONNECT.
pub open spec fn disconnect_frame() -> Seq<u8> {
    seq![0xE0u8, 0u8]
}

/// The remaining length that the header of a PUBLISH announces.
pub open spec fn publish_remaining(p: PublishView) -> nat {
    2 + encode_utf8(p.topic).len() + (if p.qos != Qos::AtMostOnce && p.pkid != 0 {
        2nat
    } else {
        0nat
    }) + p.payload.len()
}

/// Whether a PUBLISH can be written: its remaining length fits the length
/// field, and above quality of service 0 its packet identifier is not 0.
pub open spec fn publish_writable(p: PublishView) -> bool {
    publish_remaining(p) <= MAX_REMAINING_LENGTH && (p.qos == Qos::AtMostOnce || p.pkid != 0)
}

/// First byte of a PUBLISH frame: the packet type, then the duplicate flag,
/// the quality of service in two bits, and the retain flag.
pub open spec fn publish_first_byte(p: PublishView) -> u8 {
    (0x30 + (if p.dup { 8int } else { 0int }) + 2 * qos_level(p.qos) + (if p.retain {
        1int
    } else {
        0int
    })) as u8
}

/// The frame of a PUBLISH: topic, packet identifier above quality of
/// service 0, and the payload as it is.
pub open spec fn publish_frame(p: PublishView) -> Seq<u8> {
    seq![publish_first_byte(p)] + length_bytes(publish_remaining(p)) + prefixed(
        encode_utf8(p.topic),
    ) + (if p.qos != Qos::AtMostOnce {
        u16_bytes(p.pkid)
    } else {
        Seq::<u8>::empty()
    }) + p.payload
}

/// What a PUBLISH frame with first byte `first_byte` and body `body` says:
/// the quality of service from the bits 1 and 2 of the first byte, the
/// duplicate flag from bit 3 and the retain flag from bit 0; then the topic,
/// the packet identifier above quality of service 0, and the payload.
/// `None` where both bits of the quality of service are set, the topic is
/// cut short or no UTF-8, or the packet identifier is missing or 0.
pub open spec fn publish_body(first_byte: u8, body: Seq<u8>) -> Option<PublishView> {
    let level = ((first_byte / 2) % 4) as u8;
    match qos_of_level(level) {
        None => None,
        Some(qos) => match read_text(body) {
            None => None,
            Some((topic, rest)) => {
                let dup = (first_byte / 8) % 2 == 1;
                let retain = first_byte % 2 == 1;
                if qos == Qos::AtMostOnce {
                    Some(PublishView { dup, qos, retain, topic, pkid: 0, payload: rest })
                } else if rest.len() < 2 || u16_of(rest[0], rest[1]) == 0 {
                    None
                } else {
                    Some(
                        PublishView {
                            dup,
                            qos,
                            retain,
                            topic,
                            pkid: u16_of(rest[0], rest[1]),
                            payload: rest.skip(2),
                        },
                    )
                }
            },
        },
    }
}

/// Whether a CONNECT is as plain as this client's: no will and no login.
pub open spec fn connect_is_plain(c: ConnectView) -> bool {
    c.last_will is None && c.login is None
}

/// The byte that announces a protocol level.
pub open spec fn protocol_level(protocol: ProtocolLevel) -> u8 {
    match protocol {
        ProtocolLevel::V4 => 4,
        ProtocolLevel::V5 => 5,
    }
}

/// The remaining length that the header of a plain CONNECT announces.
pub open spec fn connect_remaining(c: ConnectView) -> nat {
    12 + encode_utf8(c.client_id).len()
}

/// The frame of a plain CONNECT: protocol name `MQTT`, the level, the flags
/// with at most clean-session set, the keep-alive and the client identifier.
pub open spec fn connect_frame(c: ConnectView) -> Seq<u8> {
    seq![0x10u8] + length_bytes(connect_remaining(c)) + seq![
        0u8,
        4u8,
        0x4Du8,
        0x51u8,
        0x54u8,
        0x54u8,
        protocol_level(c.protocol),
        if c.clean_session { 2u8 } else { 0u8 },
    ] + u16_bytes(c.keep_alive) + prefixed(encode_utf8(c.client_id))
}

/// What the body of a CONNECT frame says. `options` is what stands for the
/// will and the login where the connect flags ask for either.
pub open spec fn connect_body(
    body: Seq<u8>,
    options: Option<(Option<WillView>, Option<CredentialsView>)>,
) -> Option<ConnectView> {
    match read_text(body) {
        None => None,
        Some((name, tail)) => {
            if tail.len() < 4 || name != seq!['M', 'Q', 'T', 'T'] || (tail[0] != 4 && tail[0] != 5) {
                None
            } else {
                match read_text(tail.skip(4)) {
                    None => None,
                    Some((client_id, rest)) => {
                        let flags = tail[1];
                        let protocol = if tail[0] == 4 {
                            ProtocolLevel::V4
                        } else {
                            ProtocolLevel::V5
                        };
                        let keep_alive = u16_of(tail[2], tail[3]);
                        let clean_session = (flags / 2) % 2 == 1;
                        if flags / 4 == 0 {
                            Some(
                                ConnectView {
                                    protocol,
                                    keep_alive,
                                    client_id,
                                    clean_session,
                                    last_will: None,
                                    login: None,
                                },
                            )
                        } else {
                            match options {
                                None => None,
                                Some((last_will, login)) => Some(
                                    ConnectView {
                                        protocol,
                                        keep_alive,
                                        client_id,
                                        clean_session,
                                        last_will,
                                        login,
                                    },
                                ),
                            }
                        }
                    },
                }
            }
        },
    }
}

} // verus!
