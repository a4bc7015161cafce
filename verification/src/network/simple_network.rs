//! The synchronous transport: frames are written to it and read from it
//! directly. The stream lives with the caller; what is decided about it is
//! here.

use vstd::prelude::*;
use crate::error::MqttError;
use crate::network::transport::{Dial, Transport, TransportView, dial_of, with_server_name};

verus! {

/// Mathematical view of a synchronous transport.
pub struct SimpleNetworkView {
    pub transport: TransportView,
    /// Whether the stream is open.
    pub open: bool,
}

/// The synchronous transport of a session: its kind with its options, and
/// whether its stream is open.
#[derive(Debug, Clone, PartialEq, Eq)]
pub struct SimpleNetwork {
    transport: Transport,
    open: bool,
}

impl View for SimpleNetwork {
    type V = SimpleNetworkView;

    closed spec fn view(&self) -> SimpleNetworkView {
        SimpleNetworkView { transport: self.transport@, open: self.open }
    }
}

/// How a write to a transport is judged: on an open stream it went through
/// or failed; without a stream there is nothing to write to.
pub open spec fn write_verdict(open: bool, written: Result<(), ()>) -> Result<(), MqttError> {
    if open && written is Ok {
        Ok(())
    } else {
        Err(MqttError::IoError)
    }
}

/// How a read of `size` bytes from a transport is judged: on an open stream
/// it delivered exactly so many bytes, or failed; without a stream there is
/// nothing to read from.
pub open spec fn read_verdict(open: bool, size: usize, read: Option<Seq<u8>>) -> Result<
    Seq<u8>,
    MqttError,
> {
    match read {
        Some(bytes) if open && bytes.len() == size => Ok(bytes),
        _ => Err(MqttError::IoError),
    }
}

impl SimpleNetwork {
    /// A transport of the given kind whose stream is not open.
    pub fn new(transport: Transport) -> (network: SimpleNetwork)
        ensures
            network@ == (SimpleNetworkView { transport: transport@, open: false }),
    {
        SimpleNetwork { transport, open: false }
    }

    /// Whether the stream is open.
    pub fn is_open(&self) -> (open: bool)
        ensures
            open == self@.open,
    {
        self.open
    }

    /// What opening the stream takes, with `server_name` as the server name
    /// of the transport. The caller dials, and calls `opened` where that
    /// went well.
    pub fn connect(&mut self, host: &String, port: &String, server_name: &String) -> (dial: Dial)
        ensures
            final(self)@ == (SimpleNetworkView {
                transport: with_server_name(old(self)@.transport, server_name@),
                ..old(self)@
            }),
            dial@ == dial_of(final(self)@.transport, host@, port@),
    {
        self.transport = self.transport.bind_server_name(server_name.as_str());
        self.transport.dial(host.as_str(), port.as_str())
    }

    /// Takes note that the stream is open.
    pub fn opened(&mut self)
        ensures
            final(self)@ == (SimpleNetworkView { open: true, ..old(self)@ }),
    {
        self.open = true;
    }

    /// Judges a write of a whole frame.
    pub fn send(&self, written: Result<(), ()>) -> (r: Result<(), MqttError>)
        ensures
            r == write_verdict(self@.open, written),
    {
        match written {
            Ok(_) if self.open => Ok(()),
            _ => Err(MqttError::IoError),
        }
    }

    /// Judges a read of exactly `size` bytes.
    pub fn recv(&self, size: usize, read: Option<Vec<u8>>) -> (r: Result<Vec<u8>, MqttError>)
        ensures
            match read_verdict(
                self@.open,
                size,
                match read {
                    Some(bytes) => Some(bytes@),
                    None => None,
                },
            ) {
                Ok(bytes) => r == Ok::<Vec<u8>, MqttError>(read->Some_0),
                Err(e) => r == Err::<Vec<u8>, MqttError>(e),
            },
    {
        match read {
            Some(bytes) => {
                if self.open && bytes.len() == size {
                    Ok(bytes)
                } else {
                    Err(MqttError::IoError)
                }
            },
            None => Err(MqttError::IoError),
        }
    }
}

} // verus!
