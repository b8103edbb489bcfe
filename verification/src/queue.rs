//! The two queues between a client handle and its session: channels of the
//! standard library. Nothing is proved of the channels themselves; what is
//! proved is the record that the outbound end keeps of what went into it.

use vstd::prelude::*;
use std::sync::mpsc::{Receiver, Sender, TryRecvError};
use crate::message::{Polled, RecvMsg, SendMsg, Sent};

verus! {

/// The sending end of a channel.
#[verifier::external_type_specification]
#[verifier::external_body]
#[verifier::reject_recursive_types(T)]
pub struct ExSender<T>(Sender<T>);

/// The receiving end of a channel.
#[verifier::external_type_specification]
#[verifier::external_body]
#[verifier::reject_recursive_types(T)]
pub struct ExReceiver<T>(Receiver<T>);

/// `Sender::send`: puts a message on the queue, without waiting. The answer
/// is whether the queue took it; it does not once the receiving end is gone.
/// The call does not panic.
#[verifier::external_body]
fn enqueue(queue: &Sender<SendMsg>, message: SendMsg) -> (accepted: bool)
    opens_invariants none
    no_unwind
{
    queue.send(message).is_ok()
}

/// The handle's end of the outbound queue, with a record of what went
/// through it. Nothing but `offer` writes to the queue or to the record.
pub struct Outbound {
    sender: Sender<SendMsg>,
    offered: Ghost<Seq<Sent>>,
    taken: Ghost<Seq<Sent>>,
}

impl Outbound {
    /// Every message that was handed to the queue, oldest first, whether
    /// the queue took it or not.
    pub closed spec fn offered(self) -> Seq<Sent> {
        self.offered@
    }

    /// The messages that the queue took, oldest first.
    pub closed spec fn taken(self) -> Seq<Sent> {
        self.taken@
    }

    /// The end of a queue through which nothing has gone yet.
    pub fn new(sender: Sender<SendMsg>) -> (outbound: Outbound)
        ensures
            outbound.offered() == Seq::<Sent>::empty(),
            outbound.taken() == Seq::<Sent>::empty(),
    {
        Outbound { sender, offered: Ghost(Seq::empty()), taken: Ghost(Seq::empty()) }
    }

    /// Hands a message to the queue and says whether the queue took it.
    pub fn offer(&mut self, message: SendMsg) -> (accepted: bool)
        ensures
            final(self).offered() == old(self).offered().push(message@),
            final(self).taken() == if accepted {
                old(self).taken().push(message@)
            } else {
                old(self).taken()
            },
        opens_invariants none
        no_unwind
    {
        let ghost sent = message@;
        let accepted = enqueue(&self.sender, message);
        proof {
            self.offered@ = self.offered@.push(sent);
            if accepted {
                self.taken@ = self.taken@.push(sent);
            }
        }
        accepted
    }
}

/// `Receiver::try_recv`: takes the oldest message from the queue, without
/// waiting. What comes back depends on the other end.
#[verifier::external_body]
pub(crate) fn poll(queue: &Receiver<RecvMsg>) -> (polled: Polled<RecvMsg>) {
    match queue.try_recv() {
        Ok(message) => Polled::Item(message),
        Err(TryRecvError::Empty) => Polled::Empty,
        Err(TryRecvError::Disconnected) => Polled::Disconnected,
    }
}

} // verus!
