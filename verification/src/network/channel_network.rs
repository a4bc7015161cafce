//! The pipelined transport: an intake queue in front of a task that sends,
//! and a task that reads acknowledgements, both under one cancellation
//! signal. The tasks and the queues of frames live with the caller; what
//! they decide is here.

use vstd::prelude::*;
use crate::error::MqttError;
use crate::network::channel::{ChannelResult, QueueMode, queue_mode_of};
use crate::network::transport::{Dial, Transport, TransportView, dial_of, with_server_name};

verus! {

/// The queue setting of a network that was given none.
pub const DEFAULT_QUEUE: i64 = 1024;

/// Where a pipelined transport stands.
#[derive(Debug, Clone, Copy, PartialEq, Eq, Structural)]
pub enum ChannelState {
    /// Not yet connected: there is no queue and no task.
    Closed,
    /// Connected: the tasks run.
    Open,
    /// Cancelled: the tasks stop at their next wait.
    Cancelled,
}

/// Mathematical view of a pipelined transport.
pub struct ChannelNetworkView {
    pub transport: TransportView,
    pub queue: i64,
    pub state: ChannelState,
}

/// The pipelined transport of a stream session.
#[derive(Debug, Clone, PartialEq, Eq)]
pub struct ChannelNetwork {
    transport: Transport,
    queue: i64,
    state: ChannelState,
}

impl View for ChannelNetwork {
    type V = ChannelNetworkView;

    closed spec fn view(&self) -> ChannelNetworkView {
        ChannelNetworkView { transport: self.transport@, queue: self.queue, state: self.state }
    }
}

/// What `connect` hands to the caller: the intake queue to build and the
/// transport to open, whose write half goes to the sending task and whose
/// read half goes to the receiving task.
#[derive(Debug, Clone, PartialEq, Eq)]
pub struct ChannelPlan {
    pub queue: QueueMode,
    pub dial: Dial,
}

/// How the submission of a frame to the intake queue is judged on a network
/// in state `state`: a frame that waits in the queue is sent; one that took
/// another's place is reported as a replacement; a queue that is gone, or
/// was never there, is an I/O error.
pub open spec fn send_verdict(state: ChannelState, outcome: Result<ChannelResult, ()>) -> Result<
    (),
    MqttError,
> {
    if state != ChannelState::Open {
        Err(MqttError::IoError)
    } else {
        match outcome {
            Ok(ChannelResult::Added) => Ok(()),
            Ok(ChannelResult::Replaced) => Err(MqttError::EnqueueReplaced),
            Err(_) => Err(MqttError::IoError),
        }
    }
}

impl ChannelNetwork {
    /// A network over `transport` that is not connected, with the default
    /// queue setting.
    pub fn new(transport: Transport) -> (network: ChannelNetwork)
        ensures
            network@ == (ChannelNetworkView {
                transport: transport@,
                queue: DEFAULT_QUEUE,
                state: ChannelState::Closed,
            }),
    {
        ChannelNetwork { transport, queue: DEFAULT_QUEUE, state: ChannelState::Closed }
    }

    /// Sets the intake queue: -1 for a queue without limit, 0 for the single
    /// slot, a positive number for a queue of that capacity. It takes effect
    /// at the next `connect`.
    pub fn set_queue(&mut self, queue: i64)
        ensures
            final(self)@ == (ChannelNetworkView { queue, ..old(self)@ }),
    {
        self.queue = queue;
    }

    /// The queue setting.
    pub fn queue(&self) -> (queue: i64)
        ensures
            queue == self@.queue,
    {
        self.queue
    }

    /// The state of the network.
    pub fn state(&self) -> (state: ChannelState)
        ensures
            state == self@.state,
    {
        self.state
    }

    /// Opens the network: says which intake queue to build and which
    /// transport to dial, with `server_name` as its server name. A network
    /// that is open or cancelled refuses, and so does one whose queue
    /// setting selects no queue; it then stays as it is.
    pub fn connect(&mut self, host: &String, port: &String, server_name: &String) -> (r: Result<
        ChannelPlan,
        MqttError,
    >)
        ensures
            old(self)@.state != ChannelState::Closed ==> r == Err::<ChannelPlan, MqttError>(
                MqttError::InvalidState,
            ) && final(self)@ == old(self)@,
            old(self)@.state == ChannelState::Closed ==> match queue_mode_of(old(self)@.queue) {
                None => r == Err::<ChannelPlan, MqttError>(MqttError::InvalidQueue) && final(self)@ == old(self)@,
                Some(mode) => {
                    &&& r matches Ok(plan)
                    &&& plan.queue == mode
                    &&& plan.dial@ == dial_of(
                        with_server_name(old(self)@.transport, server_name@),
                        host@,
                        port@,
                    )
                    &&& final(self)@ == (ChannelNetworkView {
                        transport: with_server_name(old(self)@.transport, server_name@),
                        state: ChannelState::Open,
                        ..old(self)@
                    })
                },
            },
    {
        match self.state {
            ChannelState::Closed => {},
            _ => {
                return Err(MqttError::InvalidState);
            },
        }
        let queue = match QueueMode::from_config(self.queue) {
            Some(mode) => mode,
            None => {
                return Err(MqttError::InvalidQueue);
            },
        };
        self.transport = self.transport.bind_server_name(server_name.as_str());
        let dial = self.transport.dial(host.as_str(), port.as_str());
        self.state = ChannelState::Open;
        Ok(ChannelPlan { queue, dial })
    }

    /// Judges what the intake queue answered to a submission.
    pub fn send(&self, outcome: Result<ChannelResult, ()>) -> (r: Result<(), MqttError>)
        ensures
            r == send_verdict(self@.state, outcome),
    {
        match self.state {
            ChannelState::Open => match outcome {
                Ok(ChannelResult::Added) => Ok(()),
                Ok(ChannelResult::Replaced) => Err(MqttError::EnqueueReplaced),
                Err(_) => Err(MqttError::IoError),
            },
            _ => Err(MqttError::IoError),
        }
    }

    /// Judges what the receiving task handed over: a frame on an open
    /// network is passed on; a channel that is gone, or was never there, is
    /// an I/O error.
    pub fn recv(&self, received: Option<Vec<u8>>) -> (r: Result<Vec<u8>, MqttError>)
        ensures
            match received {
                Some(frame) if self@.state == ChannelState::Open => r == Ok::<Vec<u8>, MqttError>(
                    frame,
                ),
                _ => r == Err::<Vec<u8>, MqttError>(MqttError::IoError),
            },
    {
        match self.state {
            ChannelState::Open => match received {
                Some(frame) => Ok(frame),
                None => Err(MqttError::IoError),
            },
            _ => Err(MqttError::IoError),
        }
    }

    /// Cancels the network. The caller fires the cancellation signal and
    /// waits for both tasks to return.
    pub fn close(&mut self)
        ensures
            final(self)@ == (ChannelNetworkView { state: ChannelState::Cancelled, ..old(self)@ }),
    {
        self.state = ChannelState::Cancelled;
    }
}

/// What the sending task wakes up to.
#[derive(Debug, Clone, PartialEq, Eq)]
pub enum SenderEvent {
    /// The cancellation signal fired.
    Cancelled,
    /// The intake queue handed out a frame.
    Frame(Vec<u8>),
    /// The intake queue is gone.
    QueueClosed,
    /// The frame was written to the transport in full.
    Written,
    /// Writing to the transport failed.
    WriteFailed,
}

/// What the sending task does next.
#[derive(Debug, Clone, PartialEq, Eq)]
pub enum SenderAction {
    /// Wait for cancellation or the next frame of the intake queue.
    Wait,
    /// Write the whole frame to the transport.
    Write(Vec<u8>),
    /// Return.
    Stop,
}

/// One step of the sending task: a frame is written, a write that is done
/// leads back to waiting, and cancellation, a lost queue or a failed write
/// end the task.
pub fn sender_step(event: SenderEvent) -> (action: SenderAction)
    ensures
        match event {
            SenderEvent::Frame(frame) => action == SenderAction::Write(frame),
            SenderEvent::Written => action == SenderAction::Wait,
            _ => action == SenderAction::Stop,
        },
{
    match event {
        SenderEvent::Frame(frame) => SenderAction::Write(frame),
        SenderEvent::Written => SenderAction::Wait,
        SenderEvent::Cancelled => SenderAction::Stop,
        SenderEvent::QueueClosed => SenderAction::Stop,
        SenderEvent::WriteFailed => SenderAction::Stop,
    }
}

/// What the receiving task wakes up to.
#[derive(Debug, Clone, PartialEq, Eq)]
pub enum ReceiverEvent {
    /// The task starts, or has forwarded a frame.
    Ready,
    /// The cancellation signal fired.
    Cancelled,
    /// The transport delivered the bytes asked for.
    Read(Vec<u8>),
    /// Reading from the transport failed, or the session no longer listens.
    Failed,
}

/// What the receiving task does next.
#[derive(Debug, Clone, PartialEq, Eq)]
pub enum ReceiverAction {
    /// Wait for cancellation or for exactly so many bytes of the transport.
    Read(usize),
    /// Hand the frame to the session.
    Forward(Vec<u8>),
    /// Return.
    Stop,
}

/// One step of the receiving task, which reads frames of `frame_size` bytes:
/// a frame that was read is forwarded, after which the next is read, and
/// cancellation or a failure end the task.
pub fn receiver_step(event: ReceiverEvent, frame_size: usize) -> (action: ReceiverAction)
    ensures
        match event {
            ReceiverEvent::Ready => action == ReceiverAction::Read(frame_size),
            ReceiverEvent::Read(frame) => action == ReceiverAction::Forward(frame),
            _ => action == ReceiverAction::Stop,
        },
{
    match event {
        ReceiverEvent::Ready => ReceiverAction::Read(frame_size),
        ReceiverEvent::Read(frame) => ReceiverAction::Forward(frame),
        ReceiverEvent::Cancelled => ReceiverAction::Stop,
        ReceiverEvent::Failed => ReceiverAction::Stop,
    }
}

} // verus!
