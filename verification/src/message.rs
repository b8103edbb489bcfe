//! The messages that cross the two queues between a client handle and its
//! session, and the outcome of looking into a queue without waiting.

use vstd::prelude::*;

verus! {

/// What the client handle puts on the outbound queue.
#[derive(Debug)]
pub enum SendMsg {
    /// A text payload to be written to the relay as one frame.
    Msg(String),
    /// A request to end the session.
    Stop,
}

/// An outbound message in its mathematical form.
pub enum Sent {
    /// A text payload.
    Text(Seq<char>),
    /// The request to end the session.
    Stop,
}

impl View for SendMsg {
    type V = Sent;

    open spec fn view(&self) -> Sent {
        match *self {
            SendMsg::Msg(text) => Sent::Text(text@),
            SendMsg::Stop => Sent::Stop,
        }
    }
}

/// What the session puts on the inbound queue.
#[derive(Debug)]
pub enum RecvMsg {
    /// The connection is over; nothing follows.
    Close,
    /// A text payload read from the relay.
    Msg(String),
}

/// The outcome of one non-blocking look into a queue.
#[derive(Debug)]
pub enum Polled<T> {
    /// The oldest queued item.
    Item(T),
    /// The queue is open and holds nothing.
    Empty,
    /// The other end of the queue is gone.
    Disconnected,
}

} // verus!
