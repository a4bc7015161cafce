//! The errors that the library reports.

use vstd::prelude::*;
use crate::packet::ReturnCode;

verus! {

/// Every way in which an operation of the library can fail.
#[derive(Debug, Clone, Copy, PartialEq, Eq, Structural)]
pub enum MqttError {
    /// The session is configured with a protocol version other than 3.1.1.
    UnsupportedVersion,
    /// A publish asked for quality of service 2.
    UnsupportedQoS,
    /// The transport could not be dialled, or the host not resolved.
    ConnectFailed,
    /// The TLS handshake failed, or its verifier could not be built.
    TlsError,
    /// The QUIC endpoint, connection or stream could not be opened.
    QuicError,
    /// The codec rejects a frame.
    MalformedPacket,
    /// The stream ends before the frame does; so many more bytes are needed
    /// at least.
    InsufficientBytes(usize),
    /// The broker answered the connection request with another code than
    /// success.
    ConnectionRefused { code: ReturnCode },
    /// An acknowledgement was expected and another packet came.
    UnexpectedPacket,
    /// A PUBACK came for another packet identifier than the one sent.
    MismatchedAck { sent: u16, received: u16 },
    /// Reading from or writing to the transport failed.
    IoError,
    /// The single-slot queue dropped an older message for this one.
    EnqueueReplaced,
    /// The operation is not allowed in the state the session is in.
    InvalidState,
    /// The packet is of a kind that this client never sends.
    UnsupportedPacket,
    /// The queue setting is below -1, or larger than a queue can be.
    InvalidQueue,
}

/// Whether `r` is the outcome `expected`, a success taken by its view.
pub open spec fn outcome_is<T: View>(
    r: Result<T, MqttError>,
    expected: Result<T::V, MqttError>,
) -> bool {
    match r {
        Ok(value) => expected == Ok::<T::V, MqttError>(value@),
        Err(e) => expected == Err::<T::V, MqttError>(e),
    }
}

} // verus!
