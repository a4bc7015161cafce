//! Transports and the queues in front of them.

pub mod channel;
pub mod channel_network;
pub mod server_verification;
pub mod simple_network;
pub mod transport;
