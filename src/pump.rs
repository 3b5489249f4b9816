//! The decisions of one stream's pump: what to do with each inbound item,
//! and whether to go on after each delivery. The caller performs the reads
//! and writes and reports back.
use crate::envelope::{ProcessingEvent, ProcessingResponse};
use crate::ext_proc::{answers, ProcessingRequestHandler, ProcessingRequestHandlerServer};
use vstd::prelude::*;

verus! {

#[derive(Clone, Copy, Debug, PartialEq, Eq, Structural)]
pub enum StreamState {
    /// Ready to read the next inbound item.
    Open,
    /// One outbound item was handed over; waiting to learn if it was accepted.
    Delivering,
    /// The read loop is over: the outbound sender is to be detached.
    Closed,
}

/// How an inbound read failed.
#[derive(Clone, Copy, Debug, PartialEq, Eq, Structural)]
pub enum ReadFailure {
    /// The transport reports that the peer hung up.
    PeerDisconnected,
    /// Any other transport or protocol failure.
    Other,
}

/// The result of one inbound read.
#[derive(Debug)]
pub enum Inbound {
    Message(ProcessingEvent),
    ReadFailed(ReadFailure),
    /// The inbound stream ended cleanly.
    Finished,
}

/// What the caller must do next.
#[derive(Debug, PartialEq)]
pub enum PumpAction {
    /// Enqueue this response, then report whether the queue took it.
    Deliver(ProcessingResponse),
    /// Enqueue the read failure itself, then report whether the queue took it.
    ForwardError,
    /// Stop reading and detach the outbound sender.
    Close,
}

/// The state of one stream.
pub struct StreamPump {
    state: StreamState,
}

impl StreamPump {
    pub closed spec fn spec_state(&self) -> StreamState {
        self.state
    }

    pub fn new() -> (r: Self)
        ensures
            r.spec_state() == StreamState::Open,
    {
        StreamPump { state: StreamState::Open }
    }

    pub fn state(&self) -> (r: StreamState)
        ensures
            r == self.spec_state(),
    {
        self.state
    }

    /// Decides on one inbound item. A message is dispatched and its answer
    /// delivered; a fire-and-forget message ends the stream. A peer that hung
    /// up ends the stream quietly; any other failure is passed on to the client.
    pub fn on_inbound<T: ProcessingRequestHandler>(
        &mut self,
        server: &ProcessingRequestHandlerServer<T>,
        item: Inbound,
    ) -> (a: PumpAction)
        requires
            old(self).spec_state() == StreamState::Open,
        ensures
            match item {
                Inbound::Message(e) => if e.async_mode {
                    a is Close && final(self).spec_state() == StreamState::Closed
                } else {
                    &&& a is Deliver
                    &&& answers(server.spec_handler(), e, a->Deliver_0)
                    &&& final(self).spec_state() == StreamState::Delivering
                },
                Inbound::ReadFailed(ReadFailure::PeerDisconnected) => a is Close
                    && final(self).spec_state() == StreamState::Closed,
                Inbound::ReadFailed(ReadFailure::Other) => a is ForwardError
                    && final(self).spec_state() == StreamState::Delivering,
                Inbound::Finished => a is Close && final(self).spec_state() == StreamState::Closed,
            },
    {
        match item {
            Inbound::Message(e) => match server.dispatch(e) {
                Ok(resp) => {
                    self.state = StreamState::Delivering;
                    PumpAction::Deliver(resp)
                },
                Err(_) => {
                    self.state = StreamState::Closed;
                    PumpAction::Close
                },
            },
            Inbound::ReadFailed(ReadFailure::PeerDisconnected) => {
                self.state = StreamState::Closed;
                PumpAction::Close
            },
            Inbound::ReadFailed(ReadFailure::Other) => {
                self.state = StreamState::Delivering;
                PumpAction::ForwardError
            },
            Inbound::Finished => {
                self.state = StreamState::Closed;
                PumpAction::Close
            },
        }
    }

    /// Learns whether the outbound queue took the last item: reading goes on
    /// only if it did, since nobody is left to deliver to otherwise.
    pub fn on_delivered(&mut self, accepted: bool)
        requires
            old(self).spec_state() == StreamState::Delivering,
        ensures
            final(self).spec_state() == (if accepted {
                StreamState::Open
            } else {
                StreamState::Closed
            }),
    {
        self.state = if accepted {
            StreamState::Open
        } else {
            StreamState::Closed
        };
    }
}

} // verus!
