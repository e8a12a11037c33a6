//! Exchanges over a reply cell that is used once: every message travels with
//! the write side of a new single-use cell, and its sender keeps the read
//! side.

use crate::attempt::Attempt;
use crate::attempt::Progress;
use crate::error::Error;
use crate::error::RecvError;
use crate::error::SendError;
use crate::queue;
use crate::queue::Line;
use crate::queue::Offer;
use crate::queue::ReadSide;
use crate::queue::Take;
use crate::queue::MAX_CAPACITY;
use tokio::sync::mpsc;
use tokio::sync::mpsc::Sender as Producer;
use tokio::sync::oneshot::Sender as ReplySlot;
use vstd::prelude::*;

verus! {

/// The sending side of an exchange: a producer handle of the forward queue.
#[verifier::reject_recursive_types(M)]
#[verifier::reject_recursive_types(R)]
pub struct Sender<M, R>(Line<(M, ReplySlot<R>)>);

/// Makes a forward queue of capacity `buffer`. Returns a sender on it, which
/// keeps that capacity for as long as it lives, and the one consumer handle of
/// the queue.
pub fn channel<M, R>(buffer: usize) -> (ends: (Sender<M, R>, mpsc::Receiver<(M, ReplySlot<R>)>))
    requires
        0 < buffer <= MAX_CAPACITY,
    ensures
        ends.0.forward_capacity() == buffer,
        ends.0.forward_end() == ends.1,
{
    let (tx, rx) = queue::bounded(buffer, None);
    (Sender(tx), rx)
}

/// What `Sender::send_await` returns for each answer of the forward queue to
/// the entry it offered, where `reply` is the read side of the cell whose
/// write side went with the message: the read side, once the message is sent;
/// or the message, to be sent again; or the message in the error, because
/// nobody reads the queue.
pub fn sent<M, H, P>(answer: Offer<(M, H)>, reply: P) -> (outcome: Attempt<
    Result<P, SendError<M>>,
    M,
>)
    ensures
        outcome == match answer {
            Offer::Accepted => Attempt::Ready(Ok(reply)),
            Offer::Full(entry) => Attempt::Pending(entry.0),
            Offer::Closed(entry) => Attempt::Ready(Err(SendError(entry.0))),
        },
{
    match answer {
        Offer::Accepted => Attempt::Ready(Ok(reply)),
        Offer::Full(entry) => Attempt::Pending(entry.0),
        Offer::Closed(entry) => Attempt::Ready(Err(SendError::undelivered(entry))),
    }
}

/// What `recv` returns for each answer of a reply cell: the reply, unchanged;
/// or an error, because the write side is gone and nothing was written; or
/// that nothing is there yet.
pub fn replied<R>(answer: Take<R>) -> (outcome: Attempt<Result<R, RecvError>, ()>)
    ensures
        outcome == match answer {
            Take::Item(reply) => Attempt::Ready(Ok(reply)),
            Take::Empty => Attempt::Pending(()),
            Take::Closed => Attempt::Ready(Err(RecvError)),
        },
{
    match answer {
        Take::Item(reply) => Attempt::Ready(Ok(reply)),
        Take::Empty => Attempt::Pending(()),
        Take::Closed => Attempt::Ready(Err(RecvError)),
    }
}

/// What `Sender::send_await_automatic` returns for the outcome of its send
/// and, where the message was sent, the outcome of the receive that followed
/// it (`None` where no reply was looked for): a send that did not go through
/// ends the round trip as it ended the send, a reply is handed on unchanged,
/// and a reply that is not there yet leaves the read side with the caller.
pub fn round_trip<M, R, P>(
    sent: Attempt<Result<P, SendError<M>>, M>,
    reply: Option<Attempt<Result<R, RecvError>, ()>>,
) -> (outcome: Attempt<Result<R, Error<M>>, Progress<M, P>>)
    ensures
        outcome == match sent {
            Attempt::Pending(back) => Attempt::Pending(Progress::Unsent(back)),
            Attempt::Ready(Err(err)) => Attempt::Ready(Err(Error::SendError(err))),
            Attempt::Ready(Ok(read_side)) => match reply {
                Some(Attempt::Ready(Ok(response))) => Attempt::Ready(Ok(response)),
                Some(Attempt::Ready(Err(err))) => Attempt::Ready(Err(Error::RecvError(err))),
                Some(Attempt::Pending(())) | None => Attempt::Pending(Progress::Sent(read_side)),
            },
        },
{
    match sent {
        Attempt::Pending(back) => Attempt::Pending(Progress::Unsent(back)),
        Attempt::Ready(Err(err)) => Attempt::Ready(Err(Error::from(err))),
        Attempt::Ready(Ok(read_side)) => match reply {
            Some(Attempt::Ready(Ok(response))) => Attempt::Ready(Ok(response)),
            Some(Attempt::Ready(Err(err))) => Attempt::Ready(Err(Error::from(err))),
            Some(Attempt::Pending(())) | None => Attempt::Pending(Progress::Sent(read_side)),
        },
    }
}

/// Takes the reply out of the cell that `reply` reads, if it is there.
pub fn recv<R>(reply: &mut ReadSide<R>) -> (outcome: Attempt<Result<R, RecvError>, ()>)
    ensures
        final(reply).write_side() == old(reply).write_side(),
{
    replied(reply.look())
}

impl<M, R> Sender<M, R> {
    /// The forward queue, as this sender holds it.
    pub closed spec fn forward_line(&self) -> Line<(M, ReplySlot<R>)> {
        self.0
    }

    /// The producer handle of the forward queue.
    pub open spec fn forward_handle(&self) -> &Producer<(M, ReplySlot<R>)> {
        &self.forward_line().producer()
    }

    /// The capacity that the forward queue was made with.
    pub open spec fn capacity_of_forward(&self) -> usize {
        self.forward_line().capacity()
    }

    /// The consumer handle that the forward queue was made with.
    pub open spec fn forward_end(&self) -> mpsc::Receiver<(M, ReplySlot<R>)> {
        self.forward_line().consumer()
    }

    /// Makes a new reply cell. Returns the entry that stands for `message` in
    /// the forward queue, which is the message paired with the write side of
    /// the cell, and the read side of the same cell.
    pub fn entry(&self, message: M) -> (made: ((M, ReplySlot<R>), ReadSide<R>))
        ensures
            made.0.0 == message,
            made.1.write_side() == made.0.1,
    {
        let (tx, rx) = queue::single_use();
        ((message, tx), rx)
    }

    /// Offers `message` to the forward queue, together with the write side of
    /// a new reply cell. Once the message is sent, returns the read side of
    /// the cell. Does not look for the reply.
    ///
    /// A message that is not sent is not lost: it comes back as it went in,
    /// either to be sent again or in the error.
    pub fn send_await(&self, message: M) -> (outcome: Attempt<
        Result<ReadSide<R>, SendError<M>>,
        M,
    >)
        ensures
            outcome matches Attempt::Pending(back) ==> back == message,
            outcome matches Attempt::Ready(Err(err)) ==> err == SendError(message),
    {
        let (entry, reply) = self.entry(message);
        sent(queue::offer(self.0.handle(), entry), reply)
    }

    /// Offers `message` as `send_await` does and, once it is sent, looks for
    /// the reply as `recv` does.
    ///
    /// Where the reply is not there yet, the read side of its cell comes
    /// back, and `recv` finds the reply later.
    pub fn send_await_automatic(&self, message: M) -> (outcome: Attempt<
        Result<R, Error<M>>,
        Progress<M, ReadSide<R>>,
    >)
        ensures
            outcome matches Attempt::Pending(Progress::Unsent(back)) ==> back == message,
            outcome matches Attempt::Ready(Err(err)) ==> {
                ||| err == Error::SendError(SendError(message))
                ||| err == Error::<M>::RecvError(RecvError)
            },
    {
        match self.send_await(message) {
            Attempt::Ready(Ok(mut reply)) => {
                let received = recv(&mut reply);
                round_trip(Attempt::Ready(Ok(reply)), Some(received))
            },
            unsent => round_trip(unsent, None),
        }
    }

    /// The producer handle of the forward queue, for what this sender does
    /// not offer itself, such as waiting for room in the queue.
    #[verifier::when_used_as_spec(forward_handle)]
    pub fn forward(&self) -> (tx: &Producer<(M, ReplySlot<R>)>)
        ensures
            tx == self.forward_handle(),
    {
        self.0.handle()
    }

    /// The capacity that the forward queue was made with.
    #[verifier::when_used_as_spec(capacity_of_forward)]
    pub fn forward_capacity(&self) -> (capacity: usize)
        ensures
            capacity == self.capacity_of_forward(),
            0 < capacity <= MAX_CAPACITY,
    {
        self.0.size()
    }
}

impl<M, R> Clone for Sender<M, R> {
    /// A sender on the same forward queue.
    fn clone(&self) -> (copy: Self)
        ensures
            copy.forward_line() == self.forward_line(),
    {
        Sender(self.0.share())
    }
}

} // verus!
