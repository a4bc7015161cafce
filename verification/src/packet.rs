//! The control packets of MQTT v3.1.1 as plain values, and their
//! mathematical views.

use vstd::prelude::*;

verus! {

/// Quality of service of a publish.
#[derive(Debug, Clone, Copy, PartialEq, Eq, Structural)]
pub enum Qos {
    AtMostOnce,
    AtLeastOnce,
    ExactlyOnce,
}

/// The number that stands for a quality of service on the wire.
pub open spec fn qos_level(qos: Qos) -> u8 {
    match qos {
        Qos::AtMostOnce => 0,
        Qos::AtLeastOnce => 1,
        Qos::ExactlyOnce => 2,
    }
}

/// The quality of service that a number stands for.
pub open spec fn qos_of_level(level: u8) -> Option<Qos> {
    if level == 0 {
        Some(Qos::AtMostOnce)
    } else if level == 1 {
        Some(Qos::AtLeastOnce)
    } else if level == 2 {
        Some(Qos::ExactlyOnce)
    } else {
        None
    }
}

impl Qos {
    /// The wire number of this quality of service.
    pub fn level(self) -> (n: u8)
        ensures
            n == qos_level(self),
    {
        match self {
            Qos::AtMostOnce => 0,
            Qos::AtLeastOnce => 1,
            Qos::ExactlyOnce => 2,
        }
    }

    /// The quality of service numbered `level`; `None` above 2.
    pub fn from_level(level: u8) -> (r: Option<Qos>)
        ensures
            r == qos_of_level(level),
    {
        if level == 0 {
            Some(Qos::AtMostOnce)
        } else if level == 1 {
            Some(Qos::AtLeastOnce)
        } else if level == 2 {
            Some(Qos::ExactlyOnce)
        } else {
            None
        }
    }
}

/// Answer of the broker to a connection request.
#[derive(Debug, Clone, Copy, PartialEq, Eq, Structural)]
pub enum ReturnCode {
    Success,
    RefusedProtocolVersion,
    BadClientId,
    ServiceUnavailable,
    BadUserNamePassword,
    NotAuthorized,
}

/// The byte that carries a return code in a CONNACK.
pub open spec fn return_code_number(code: ReturnCode) -> u8 {
    match code {
        ReturnCode::Success => 0,
        ReturnCode::RefusedProtocolVersion => 1,
        ReturnCode::BadClientId => 2,
        ReturnCode::ServiceUnavailable => 3,
        ReturnCode::BadUserNamePassword => 4,
        ReturnCode::NotAuthorized => 5,
    }
}

/// The return code that a CONNACK byte carries, if it is one.
pub open spec fn return_code_of(number: u8) -> Option<ReturnCode> {
    if number == 0 {
        Some(ReturnCode::Success)
    } else if number == 1 {
        Some(ReturnCode::RefusedProtocolVersion)
    } else if number == 2 {
        Some(ReturnCode::BadClientId)
    } else if number == 3 {
        Some(ReturnCode::ServiceUnavailable)
    } else if number == 4 {
        Some(ReturnCode::BadUserNamePassword)
    } else if number == 5 {
        Some(ReturnCode::NotAuthorized)
    } else {
        None
    }
}

impl ReturnCode {
    /// The byte that carries this code.
    pub fn number(self) -> (n: u8)
        ensures
            n == return_code_number(self),
    {
        match self {
            ReturnCode::Success => 0,
            ReturnCode::RefusedProtocolVersion => 1,
            ReturnCode::BadClientId => 2,
            ReturnCode::ServiceUnavailable => 3,
            ReturnCode::BadUserNamePassword => 4,
            ReturnCode::NotAuthorized => 5,
        }
    }
}

/// ProtocolLevel level announced in a CONNECT.
#[derive(Debug, Clone, Copy, PartialEq, Eq, Structural)]
pub enum ProtocolLevel {
    V4,
    V5,
}

/// Message the broker publishes when the client goes away.
#[derive(Debug, Clone, PartialEq, Eq)]
pub struct Will {
    pub topic: String,
    pub message: Vec<u8>,
    pub qos: Qos,
    pub retain: bool,
}

pub struct WillView {
    pub topic: Seq<char>,
    pub message: Seq<u8>,
    pub qos: Qos,
    pub retain: bool,
}

impl View for Will {
    type V = WillView;

    open spec fn view(&self) -> WillView {
        WillView {
            topic: self.topic@,
            message: self.message@,
            qos: self.qos,
            retain: self.retain,
        }
    }
}

/// Credentials of a CONNECT.
#[derive(Debug, Clone, PartialEq, Eq)]
pub struct Credentials {
    pub username: String,
    pub password: String,
}

pub struct CredentialsView {
    pub username: Seq<char>,
    pub password: Seq<char>,
}

impl View for Credentials {
    type V = CredentialsView;

    open spec fn view(&self) -> CredentialsView {
        CredentialsView { username: self.username@, password: self.password@ }
    }
}

/// Connection request.
#[derive(Debug, Clone, PartialEq, Eq)]
pub struct ConnectData {
    pub protocol: ProtocolLevel,
    pub keep_alive: u16,
    pub client_id: String,
    pub clean_session: bool,
    pub last_will: Option<Will>,
    pub login: Option<Credentials>,
}

pub struct ConnectView {
    pub protocol: ProtocolLevel,
    pub keep_alive: u16,
    pub client_id: Seq<char>,
    pub clean_session: bool,
    pub last_will: Option<WillView>,
    pub login: Option<CredentialsView>,
}

impl View for ConnectData {
    type V = ConnectView;

    open spec fn view(&self) -> ConnectView {
        ConnectView {
            protocol: self.protocol,
            keep_alive: self.keep_alive,
            client_id: self.client_id@,
            clean_session: self.clean_session,
            last_will: match self.last_will {
                Some(will) => Some(will@),
                None => None,
            },
            login: match self.login {
                Some(login) => Some(login@),
                None => None,
            },
        }
    }
}

/// Acknowledgement of a connection request.
#[derive(Debug, Clone, Copy, PartialEq, Eq, Structural)]
pub struct ConnAckData {
    pub session_present: bool,
    pub code: ReturnCode,
}

/// Application message.
#[derive(Debug, Clone, PartialEq, Eq)]
pub struct PublishData {
    pub dup: bool,
    pub qos: Qos,
    pub retain: bool,
    pub topic: String,
    /// Packet identifier; 0 stands for none, as at quality of service 0.
    pub pkid: u16,
    pub payload: Vec<u8>,
}

pub struct PublishView {
    pub dup: bool,
    pub qos: Qos,
    pub retain: bool,
    pub topic: Seq<char>,
    pub pkid: u16,
    pub payload: Seq<u8>,
}

impl View for PublishData {
    type V = PublishView;

    open spec fn view(&self) -> PublishView {
        PublishView {
            dup: self.dup,
            qos: self.qos,
            retain: self.retain,
            topic: self.topic@,
            pkid: self.pkid,
            payload: self.payload@,
        }
    }
}

/// One topic filter of a subscription with the quality of service asked for.
#[derive(Debug, Clone, PartialEq, Eq)]
pub struct SubscribeFilter {
    pub path: String,
    pub qos: Qos,
}

pub struct SubscribeFilterView {
    pub path: Seq<char>,
    pub qos: Qos,
}

impl View for SubscribeFilter {
    type V = SubscribeFilterView;

    open spec fn view(&self) -> SubscribeFilterView {
        SubscribeFilterView { path: self.path@, qos: self.qos }
    }
}

/// Subscription request.
#[derive(Debug, Clone, PartialEq, Eq)]
pub struct SubscribeData {
    pub pkid: u16,
    pub filters: Vec<SubscribeFilter>,
}

pub struct SubscribeView {
    pub pkid: u16,
    pub filters: Seq<SubscribeFilterView>,
}

impl View for SubscribeData {
    type V = SubscribeView;

    open spec fn view(&self) -> SubscribeView {
        SubscribeView {
            pkid: self.pkid,
            filters: Seq::new(self.filters@.len(), |i: int| self.filters@[i]@),
        }
    }
}

/// What the broker granted for one filter of a subscription.
#[derive(Debug, Clone, Copy, PartialEq, Eq, Structural)]
pub enum SubscribeReasonCode {
    Success(Qos),
    Failure,
}

/// Acknowledgement of a subscription.
#[derive(Debug, Clone, PartialEq, Eq)]
pub struct SubAckData {
    pub pkid: u16,
    pub return_codes: Vec<SubscribeReasonCode>,
}

pub struct SubAckView {
    pub pkid: u16,
    pub return_codes: Seq<SubscribeReasonCode>,
}

impl View for SubAckData {
    type V = SubAckView;

    open spec fn view(&self) -> SubAckView {
        SubAckView { pkid: self.pkid, return_codes: self.return_codes@ }
    }
}

/// Request to drop subscriptions.
#[derive(Debug, Clone, PartialEq, Eq)]
pub struct UnsubscribeData {
    pub pkid: u16,
    pub topics: Vec<String>,
}

pub struct UnsubscribeView {
    pub pkid: u16,
    pub topics: Seq<Seq<char>>,
}

impl View for UnsubscribeData {
    type V = UnsubscribeView;

    open spec fn view(&self) -> UnsubscribeView {
        UnsubscribeView {
            pkid: self.pkid,
            topics: Seq::new(self.topics@.len(), |i: int| self.topics@[i]@),
        }
    }
}

/// A control packet. Only CONNECT, CONNACK, PUBLISH, PUBACK and DISCONNECT
/// matter to a publishing client; the others are read when they arrive and
/// never sent.
#[derive(Debug, Clone, PartialEq, Eq)]
pub enum Packet {
    Connect(ConnectData),
    ConnAck(ConnAckData),
    Publish(PublishData),
    PubAck(u16),
    PubRec(u16),
    PubRel(u16),
    PubComp(u16),
    Subscribe(SubscribeData),
    SubAck(SubAckData),
    Unsubscribe(UnsubscribeData),
    UnsubAck(u16),
    PingReq,
    PingResp,
    Disconnect,
}

pub enum PacketView {
    Connect(ConnectView),
    ConnAck(ConnAckData),
    Publish(PublishView),
    PubAck(u16),
    PubRec(u16),
    PubRel(u16),
    PubComp(u16),
    Subscribe(SubscribeView),
    SubAck(SubAckView),
    Unsubscribe(UnsubscribeView),
    UnsubAck(u16),
    PingReq,
    PingResp,
    Disconnect,
}

impl View for Packet {
    type V = PacketView;

    open spec fn view(&self) -> PacketView {
        match self {
            Packet::Connect(connect) => PacketView::Connect(connect@),
            Packet::ConnAck(ack) => PacketView::ConnAck(*ack),
            Packet::Publish(publish) => PacketView::Publish(publish@),
            Packet::PubAck(pkid) => PacketView::PubAck(*pkid),
            Packet::PubRec(pkid) => PacketView::PubRec(*pkid),
            Packet::PubRel(pkid) => PacketView::PubRel(*pkid),
            Packet::PubComp(pkid) => PacketView::PubComp(*pkid),
            Packet::Subscribe(subscribe) => PacketView::Subscribe(subscribe@),
            Packet::SubAck(ack) => PacketView::SubAck(ack@),
            Packet::Unsubscribe(unsubscribe) => PacketView::Unsubscribe(unsubscribe@),
            Packet::UnsubAck(pkid) => PacketView::UnsubAck(*pkid),
            Packet::PingReq => PacketView::PingReq,
            Packet::PingResp => PacketView::PingResp,
            Packet::Disconnect => PacketView::Disconnect,
        }
    }
}

} // verus!
