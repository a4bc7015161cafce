//! Sessions: the publish protocol as a state machine, and its two profiles.

pub mod client;
pub mod laws;
pub mod packet_id;
pub mod simple_client;
pub mod stream_client;
