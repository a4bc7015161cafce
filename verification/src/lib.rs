//! Client side of the MQTT v3.1.1 publish protocol, as a protocol core that
//! performs no I/O.
//!
//! A session is a state machine: each operation turns the state it finds and
//! the event it is given into the next state and the action that the caller
//! is to carry out. The caller owns sockets, tasks and queues of frames; it
//! dials, writes and reads, and hands what arrived back to the session.
//!
//! - [`codec`] reads and writes control packets; [`wire`] says what their
//!   frames are, and [`roundtrip`] that reading undoes writing.
//! - [`client`] holds the session, its synchronous and its pipelined profile,
//!   and what holds of every session.
//! - [`network`] holds the transports, what dialling them takes, the trust
//!   policy of insecure transports, and the intake queue of the pipelined
//!   profile.
//! - [`bindings`] states what is taken on trust from other crates.

pub mod bindings;
pub mod client;
pub mod codec;
pub mod error;
pub mod message;
pub mod network;
pub mod packet;
pub mod roundtrip;
pub mod utility;
pub mod version;
pub mod wire;

pub use client::client::ACK_PACKET_SIZE;
pub use codec::parse_packet;
pub use message::MqttMessage;
pub use version::Version;
