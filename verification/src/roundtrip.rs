//! Writing a packet and reading the bytes back gives the packet.

use vstd::prelude::*;
use vstd::utf8::{encode_utf8, encode_utf8_decode_utf8, encode_utf8_valid_utf8};
use vstd::utf8::{is_ascii_chars, is_ascii_chars_encode_utf8};
use crate::bindings::connect_options;
use crate::codec::{frame_packet, parse_consumed, parse_result, serialized};
use crate::error::MqttError;
use crate::packet::{ConnectView, PacketView, PublishView, Qos, qos_level, qos_of_level};
use crate::wire::{FrameCheck, LengthField, MAX_REMAINING_LENGTH};
use crate::wire::{connack_body, connack_frame, connect_body, connect_frame, connect_is_plain};
use crate::wire::{connect_remaining, disconnect_frame, frame_check, length_bytes, length_field};
use crate::wire::{pkid_body, prefixed, protocol_level, puback_frame, publish_body};
use crate::wire::{publish_first_byte, publish_frame, publish_remaining, read_text};
use crate::wire::{u16_bytes, u16_of};

verus! {

/// The largest number that `bytes` bytes of a length field can spell, plus
/// one.
pub open spec fn length_capacity(bytes: nat) -> nat
    decreases bytes,
{
    if bytes == 0 {
        1
    } else {
        128 * length_capacity((bytes - 1) as nat)
    }
}

/// A remaining length is spelled in one byte at least, and in no more bytes
/// than its size asks for.
pub proof fn lemma_length_bytes_size(n: nat, bytes: nat)
    requires
        n < length_capacity(bytes),
        bytes >= 1,
    ensures
        1 <= length_bytes(n).len() <= bytes,
    decreases n,
{
    if n >= 128 {
        assert(length_capacity(bytes) == 128 * length_capacity((bytes - 1) as nat));
        if bytes == 1 {
            assert(length_capacity(0) == 1);
        } else {
            lemma_length_bytes_size(n / 128, (bytes - 1) as nat);
        }
    }
}

/// Reading a length field gives back the number that was spelled: in a
/// stream that holds the bytes of `n` from its byte `1 + used` on, with room
/// for them in the four bytes the field may take, the field is complete and
/// its value is `n`.
pub proof fn lemma_length_field_reads(stream: Seq<u8>, used: nat, n: nat)
    requires
        used < 4,
        n < length_capacity((4 - used) as nat),
        1 + used + length_bytes(n).len() <= stream.len(),
        stream.subrange(1 + used as int, (1 + used + length_bytes(n).len()) as int) == length_bytes(n),
    ensures
        length_field(stream, used) == (LengthField::Complete {
            size: used + length_bytes(n).len(),
            value: n,
        }),
    decreases n,
{
    let spelled = length_bytes(n);
    assert(stream[1 + used as int] == spelled[0]);
    if n >= 128 {
        let rest = length_bytes(n / 128);
        assert(spelled == seq![(n % 128 + 128) as u8] + rest);
        assert(length_capacity((4 - used) as nat) == 128 * length_capacity((3 - used) as nat));
        if used == 3 {
            assert(length_capacity(0) == 1);
        } else {
            assert(stream.subrange(2 + used as int, (2 + used + rest.len()) as int) =~= rest) by {
                assert forall|i: int| 0 <= i < rest.len() implies stream[2 + used + i]
                    == rest[i] by {
                    assert(stream[1 + used + (i + 1)] == spelled[i + 1]);
                }
            }
            lemma_length_field_reads(stream, used + 1, n / 128);
        }
    }
}

/// A first byte, the spelled length of a body, and the body make a frame
/// that the check finds whole at the front of a stream, whatever follows it.
pub proof fn lemma_frame_is_found(first_byte: u8, body: Seq<u8>, rest: Seq<u8>, max: nat)
    requires
        body.len() <= MAX_REMAINING_LENGTH,
        body.len() <= max,
    ensures
        ({
            let frame = seq![first_byte] + length_bytes(body.len()) + body;
            let stream = frame + rest;
            let header_len = 1 + length_bytes(body.len()).len();
            &&& frame_check(stream, max) == (FrameCheck::Framed {
                header_len,
                remaining: body.len(),
            })
            &&& stream[0] == first_byte
            &&& frame.len() == header_len + body.len()
            &&& stream.subrange(header_len as int, frame.len() as int) == body
        }),
{
    let spelled = length_bytes(body.len());
    let frame = seq![first_byte] + spelled + body;
    let stream = frame + rest;
    assert(length_capacity(4) == 268_435_456) by {
        reveal_with_fuel(length_capacity, 5);
    }
    lemma_length_bytes_size(body.len(), 4);
    assert(stream.subrange(1, (1 + spelled.len()) as int) =~= spelled);
    lemma_length_field_reads(stream, 0, body.len());
    assert(stream.subrange((1 + spelled.len()) as int, frame.len() as int) =~= body);
}

/// The two bytes of a number spell that number.
pub proof fn lemma_u16_round_trip(n: u16)
    ensures
        u16_of(u16_bytes(n)[0], u16_bytes(n)[1]) == n,
{
}

/// Reading a length-prefixed text gives back the text and what follows it.
pub proof fn lemma_text_round_trip(text: Seq<char>, rest: Seq<u8>)
    requires
        encode_utf8(text).len() <= 65535,
    ensures
        read_text(prefixed(encode_utf8(text)) + rest) == Some((text, rest)),
{
    let bytes = encode_utf8(text);
    let s = prefixed(bytes) + rest;
    lemma_u16_round_trip(bytes.len() as u16);
    assert(s[0] == u16_bytes(bytes.len() as u16)[0]);
    assert(s[1] == u16_bytes(bytes.len() as u16)[1]);
    assert(s.subrange(2, (2 + bytes.len()) as int) =~= bytes);
    assert(s.skip((2 + bytes.len()) as int) =~= rest);
    encode_utf8_valid_utf8(text);
    encode_utf8_decode_utf8(text);
}

/// The packets for which writing and reading are inverse: CONNECT without
/// will and login, CONNACK, PUBLISH, PUBACK and DISCONNECT, each in a form
/// that a frame can carry. A client identifier or topic has at most 65535
/// bytes, and a PUBLISH has a packet identifier, other than 0, exactly above
/// quality of service 0.
pub open spec fn round_trips(p: PacketView) -> bool {
    match p {
        PacketView::Connect(c) => connect_is_plain(c) && encode_utf8(c.client_id).len() <= 65535,
        PacketView::ConnAck(_) => true,
        PacketView::Publish(p) => {
            &&& publish_remaining(p) <= MAX_REMAINING_LENGTH
            &&& encode_utf8(p.topic).len() <= 65535
            &&& (p.qos == Qos::AtMostOnce <==> p.pkid == 0)
        },
        PacketView::PubAck(_) => true,
        PacketView::Disconnect => true,
        _ => false,
    }
}

/// The remaining length of the frame of a packet that round-trips.
pub open spec fn remaining_of(p: PacketView) -> nat {
    match p {
        PacketView::Connect(c) => connect_remaining(c),
        PacketView::ConnAck(_) => 2,
        PacketView::Publish(p) => publish_remaining(p),
        PacketView::PubAck(_) => 2,
        _ => 0,
    }
}

/// A plain CONNECT reads back.
proof fn lemma_connect_round_trip(c: ConnectView, rest: Seq<u8>, max: nat)
    requires
        round_trips(PacketView::Connect(c)),
        connect_remaining(c) <= max,
    ensures
        parse_result(connect_frame(c) + rest, max) == Ok::<PacketView, MqttError>(
            PacketView::Connect(c),
        ),
        parse_consumed(connect_frame(c) + rest, max) == connect_frame(c).len(),
{
    let id = prefixed(encode_utf8(c.client_id));
    let head = seq![
        0u8,
        4u8,
        0x4Du8,
        0x51u8,
        0x54u8,
        0x54u8,
        protocol_level(c.protocol),
        if c.clean_session { 2u8 } else { 0u8 },
    ] + u16_bytes(c.keep_alive);
    let body = head + id;
    assert(body.len() == connect_remaining(c));
    assert(connect_frame(c) =~= seq![0x10u8] + length_bytes(body.len()) + body);
    lemma_frame_is_found(0x10u8, body, rest, max);
    // protocol name
    let name = seq!['M', 'Q', 'T', 'T'];
    assert(encode_utf8(name) =~= seq![0x4Du8, 0x51u8, 0x54u8, 0x54u8]) by {
        lemma_protocol_name_bytes();
    }
    let tail = body.skip(6);
    assert(body =~= prefixed(encode_utf8(name)) + tail);
    lemma_text_round_trip(name, tail);
    assert(tail.skip(4) =~= id + Seq::<u8>::empty());
    lemma_text_round_trip(c.client_id, Seq::<u8>::empty());
    lemma_u16_round_trip(c.keep_alive);
    assert(tail[2] == u16_bytes(c.keep_alive)[0]);
    assert(tail[3] == u16_bytes(c.keep_alive)[1]);
    assert(connect_body(body, connect_options(body)) == Some(c));
}

/// The protocol name in bytes.
proof fn lemma_protocol_name_bytes()
    ensures
        encode_utf8(seq!['M', 'Q', 'T', 'T']) =~= seq![0x4Du8, 0x51u8, 0x54u8, 0x54u8],
{
    let name = seq!['M', 'Q', 'T', 'T'];
    assert(is_ascii_chars(name));
    is_ascii_chars_encode_utf8(name);
    let bytes = encode_utf8(name);
    assert(bytes.len() == 4);
    assert(bytes[0] == name[0] as u8);
    assert(bytes[1] == name[1] as u8);
    assert(bytes[2] == name[2] as u8);
    assert(bytes[3] == name[3] as u8);
}

/// The body of a PUBLISH frame: the topic, the packet identifier above
/// quality of service 0, and the payload.
pub open spec fn publish_frame_body(p: PublishView) -> Seq<u8> {
    prefixed(encode_utf8(p.topic)) + ((if p.qos != Qos::AtMostOnce {
        u16_bytes(p.pkid)
    } else {
        Seq::<u8>::empty()
    }) + p.payload)
}

/// The first byte of a PUBLISH frame tells its type and its three flags.
proof fn lemma_publish_first_byte_reads(p: PublishView)
    ensures
        publish_first_byte(p) / 16 == 3,
        qos_of_level(((publish_first_byte(p) / 2) % 4) as u8) == Some(p.qos),
        ((publish_first_byte(p) / 8) % 2 == 1) == p.dup,
        (publish_first_byte(p) % 2 == 1) == p.retain,
{
    let dup = if p.dup { 8int } else { 0int };
    let retain = if p.retain { 1int } else { 0int };
    let level = qos_level(p.qos) as int;
    assert(0 <= level <= 2);
    assert(publish_first_byte(p) == 0x30 + dup + 2 * level + retain);
}

/// The body of a PUBLISH frame reads back.
proof fn lemma_publish_body_reads(p: PublishView)
    requires
        round_trips(PacketView::Publish(p)),
    ensures
        publish_body(publish_first_byte(p), publish_frame_body(p)) == Some(p),
{
    let rest = (if p.qos != Qos::AtMostOnce {
        u16_bytes(p.pkid)
    } else {
        Seq::<u8>::empty()
    }) + p.payload;
    lemma_publish_first_byte_reads(p);
    lemma_text_round_trip(p.topic, rest);
    lemma_u16_round_trip(p.pkid);
    if p.qos != Qos::AtMostOnce {
        assert(rest[0] == u16_bytes(p.pkid)[0]);
        assert(rest[1] == u16_bytes(p.pkid)[1]);
        assert(rest.skip(2) =~= p.payload);
    } else {
        assert(rest =~= p.payload);
    }
}

/// A PUBLISH reads back.
proof fn lemma_publish_round_trip(p: PublishView, rest: Seq<u8>, max: nat)
    requires
        round_trips(PacketView::Publish(p)),
        publish_remaining(p) <= max,
    ensures
        parse_result(publish_frame(p) + rest, max) == Ok::<PacketView, MqttError>(
            PacketView::Publish(p),
        ),
        parse_consumed(publish_frame(p) + rest, max) == publish_frame(p).len(),
{
    let body = publish_frame_body(p);
    let first_byte = publish_first_byte(p);
    assert(body.len() == publish_remaining(p));
    assert(publish_frame(p) =~= seq![first_byte] + length_bytes(body.len()) + body);
    lemma_frame_is_found(first_byte, body, rest, max);
    lemma_publish_first_byte_reads(p);
    lemma_publish_body_reads(p);
    assert(frame_packet(first_byte, body.len(), body) == Some(PacketView::Publish(p)));
}

/// Reading what was written gives the packet back: for every packet that
/// round-trips, a stream that starts with the bytes of its frame reads as
/// that packet, and reading takes exactly the frame off the stream, where
/// the reader accepts the frame's remaining length.
pub proof fn lemma_parse_serialize_round_trip(p: PacketView, rest: Seq<u8>, max: nat)
    requires
        round_trips(p),
        remaining_of(p) <= max,
    ensures
        serialized(p) matches Some(frame) && parse_result(frame + rest, max) == Ok::<
            PacketView,
            MqttError,
        >(p) && parse_consumed(frame + rest, max) == frame.len(),
{
    match p {
        PacketView::Connect(c) => {
            lemma_connect_round_trip(c, rest, max);
        },
        PacketView::ConnAck(ack) => {
            let frame = connack_frame(ack);
            let body = frame.subrange(2, 4);
            assert(length_bytes(2) == seq![2u8]);
            assert(frame =~= seq![0x20u8] + length_bytes(body.len()) + body);
            lemma_frame_is_found(0x20u8, body, rest, max);
            assert(connack_body(body) == Some(ack));
        },
        PacketView::Publish(publish) => {
            lemma_publish_round_trip(publish, rest, max);
        },
        PacketView::PubAck(pkid) => {
            let frame = puback_frame(pkid);
            let body = u16_bytes(pkid);
            assert(length_bytes(2) == seq![2u8]);
            assert(frame =~= seq![0x40u8] + length_bytes(body.len()) + body);
            lemma_frame_is_found(0x40u8, body, rest, max);
            lemma_u16_round_trip(pkid);
            assert(pkid_body(body) == Some(pkid));
        },
        PacketView::Disconnect => {
            let frame = disconnect_frame();
            let body = Seq::<u8>::empty();
            assert(length_bytes(0) == seq![0u8]);
            assert(frame =~= seq![0xE0u8] + length_bytes(body.len()) + body);
            lemma_frame_is_found(0xE0u8, body, rest, max);
        },
        _ => {},
    }
}

} // verus!
