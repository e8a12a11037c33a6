//! Exchanges over a reply queue that lasts: every sender owns one bounded
//! queue of replies and hands a producer handle of it out with each message.

use crate::attempt::Attempt;
use crate::attempt::Progress;
use crate::error::Error;
use crate::error::SendError;
use crate::queue;
use crate::queue::Line;
use crate::queue::Offer;
use crate::queue::Take;
use crate::queue::MAX_CAPACITY;
use tokio::sync::mpsc;
use tokio::sync::mpsc::Sender as Producer;
use vstd::prelude::*;

verus! {

/// The sending side of an exchange.
///
/// It holds a producer handle of the forward queue, which all clones share,
/// and both ends of a reply queue of its own, which no clone shares.
#[verifier::reject_recursive_types(M)]
#[verifier::reject_recursive_types(R)]
pub struct Sender<M, R> {
    tx: Line<(M, Producer<R>)>,
    reverse_tx: Line<R>,
    reverse_rx: mpsc::Receiver<R>,
}

/// Makes a forward queue of capacity `buffer` and, for the sender, a reply
/// queue of capacity `reverse_buffer`, or of capacity `buffer` where none is
/// given. Returns the sender and the one consumer handle of the forward queue.
pub fn channel<M, R>(buffer: usize, reverse_buffer: Option<usize>) -> (ends: (
    Sender<M, R>,
    mpsc::Receiver<(M, Producer<R>)>,
))
    requires
        0 < buffer <= MAX_CAPACITY,
        reverse_buffer matches Some(n) ==> 0 < n <= MAX_CAPACITY,
    ensures
        ends.0.forward_capacity() == buffer,
        ends.0.reply_capacity() == match reverse_buffer {
            Some(n) => n,
            None => buffer,
        },
        ends.0.forward_end() == ends.1,
        ends.0.reply_end() == ends.0.replies(),
{
    let (tx, rx) = queue::bounded(buffer, None);
    let (reverse_tx, reverse_rx) = queue::bounded(reverse_buffer.unwrap_or(buffer), None);
    (Sender { tx, reverse_tx, reverse_rx }, rx)
}

/// What `Sender::send_await` returns for each answer of the forward queue to
/// the entry it offered: the message is sent; or it comes back, to be sent
/// again; or it comes back in the error, because nobody reads the queue.
pub fn sent<M, H>(answer: Offer<(M, H)>) -> (outcome: Attempt<Result<(), Error<M>>, M>)
    ensures
        outcome == match answer {
            Offer::Accepted => Attempt::Ready(Ok(())),
            Offer::Full(entry) => Attempt::Pending(entry.0),
            Offer::Closed(entry) => Attempt::Ready(Err(Error::SendError(SendError(entry.0)))),
        },
{
    match answer {
        Offer::Accepted => Attempt::Ready(Ok(())),
        Offer::Full(entry) => Attempt::Pending(entry.0),
        Offer::Closed(entry) => Attempt::Ready(Err(Error::from(SendError::undelivered(entry)))),
    }
}

/// What `Sender::recv` returns for each answer of the reply queue, where
/// `holders` is the number of producer handles that the queue had just before
/// it was asked, the sender's own among them.
///
/// A reply is handed on unchanged. Where nothing is there, a reply may still
/// come as long as anybody but the sender holds a producer handle; once the
/// sender alone is left, or the queue is closed, the replies have come to
/// their end, which is `None` and no error.
pub fn replied<R>(answer: Take<R>, holders: usize) -> (outcome: Attempt<Option<R>, ()>)
    ensures
        outcome == match answer {
            Take::Item(reply) => Attempt::Ready(Some(reply)),
            Take::Empty => if holders <= 1 {
                Attempt::Ready(None)
            } else {
                Attempt::Pending(())
            },
            Take::Closed => Attempt::Ready(None),
        },
{
    match answer {
        Take::Item(reply) => Attempt::Ready(Some(reply)),
        Take::Empty => if holders <= 1 {
            Attempt::Ready(None)
        } else {
            Attempt::Pending(())
        },
        Take::Closed => Attempt::Ready(None),
    }
}

/// What `Sender::send_await_automatic` returns for the outcome of its send
/// and, where the message was sent, the outcome of the receive that followed
/// it (`None` where no reply was looked for): a send that did not go through
/// ends the round trip as it ended the send, and a reply is handed on
/// unchanged.
pub fn round_trip<M, R>(
    sent: Attempt<Result<(), Error<M>>, M>,
    reply: Option<Attempt<Option<R>, ()>>,
) -> (outcome: Attempt<Result<Option<R>, Error<M>>, Progress<M, ()>>)
    ensures
        outcome == match sent {
            Attempt::Pending(back) => Attempt::Pending(Progress::Unsent(back)),
            Attempt::Ready(Err(err)) => Attempt::Ready(Err(err)),
            Attempt::Ready(Ok(())) => match reply {
                Some(Attempt::Ready(response)) => Attempt::Ready(Ok(response)),
                Some(Attempt::Pending(())) | None => Attempt::Pending(Progress::Sent(())),
            },
        },
{
    match sent {
        Attempt::Pending(back) => Attempt::Pending(Progress::Unsent(back)),
        Attempt::Ready(Err(err)) => Attempt::Ready(Err(err)),
        Attempt::Ready(Ok(())) => match reply {
            Some(Attempt::Ready(response)) => Attempt::Ready(Ok(response)),
            Some(Attempt::Pending(())) | None => Attempt::Pending(Progress::Sent(())),
        },
    }
}

impl<M, R> Sender<M, R> {
    /// The forward queue, as this sender holds it.
    pub closed spec fn forward_line(&self) -> Line<(M, Producer<R>)> {
        self.tx
    }

    /// This sender's own reply queue, as the sender holds its producer side.
    pub closed spec fn reply_line(&self) -> Line<R> {
        self.reverse_tx
    }

    /// The consumer handle of this sender's own reply queue, as it now is.
    pub closed spec fn replies(&self) -> mpsc::Receiver<R> {
        self.reverse_rx
    }

    /// The producer handle of the forward queue.
    pub open spec fn forward_handle(&self) -> &Producer<(M, Producer<R>)> {
        &self.forward_line().producer()
    }

    /// The capacity that the forward queue was made with.
    pub open spec fn capacity_of_forward(&self) -> usize {
        self.forward_line().capacity()
    }

    /// The consumer handle that the forward queue was made with.
    pub open spec fn forward_end(&self) -> mpsc::Receiver<(M, Producer<R>)> {
        self.forward_line().consumer()
    }

    /// The producer handle of this sender's own reply queue.
    pub open spec fn reply_handle(&self) -> Producer<R> {
        self.reply_line().producer()
    }

    /// The capacity that this sender's own reply queue was made with.
    pub open spec fn capacity_of_replies(&self) -> usize {
        self.reply_line().capacity()
    }

    /// The consumer handle that this sender's own reply queue was made with.
    pub open spec fn reply_end(&self) -> mpsc::Receiver<R> {
        self.reply_line().consumer()
    }

    /// The entry that stands for `message` in the forward queue: the message,
    /// paired with a producer handle of this sender's own reply queue.
    pub fn entry(&self, message: M) -> (entry: (M, Producer<R>))
        ensures
            entry.0 == message,
            entry.1 == self.reply_handle(),
    {
        (message, queue::duplicate(self.reverse_tx.handle()))
    }

    /// Offers `message` to the forward queue, together with a handle for the
    /// replies to it. Does not look for a reply.
    ///
    /// A message that is not sent is not lost: it comes back as it went in,
    /// either to be sent again or in the error.
    pub fn send_await(&self, message: M) -> (outcome: Attempt<Result<(), Error<M>>, M>)
        ensures
            outcome matches Attempt::Pending(back) ==> back == message,
            outcome matches Attempt::Ready(Err(err)) ==> err == Error::SendError(
                SendError(message),
            ),
    {
        let entry = self.entry(message);
        sent(queue::offer(self.tx.handle(), entry))
    }

    /// Offers `message` as `send_await` does and, once it is sent, looks for
    /// the next reply as `recv` does. Where the message is not sent, the
    /// reply queue is not touched.
    ///
    /// The reply is the next one in the reply queue, whichever message it
    /// answers: a receiver that answers a message twice, or a caller that
    /// leaves replies unread, shifts every later round trip by one. Where no
    /// reply is there yet, `recv` finds it later. `Ready(Ok(None))` says that
    /// the message was sent and that no reply can come any more, which is not
    /// a failure to send.
    pub fn send_await_automatic(&mut self, message: M) -> (outcome: Attempt<
        Result<Option<R>, Error<M>>,
        Progress<M, ()>,
    >)
        ensures
            outcome matches Attempt::Pending(Progress::Unsent(back)) ==> back == message,
            outcome matches Attempt::Ready(Err(err)) ==> err == Error::SendError(
                SendError(message),
            ),
            outcome matches Attempt::Pending(Progress::Unsent(_)) ==> final(self).replies() == old(
                self,
            ).replies(),
            outcome matches Attempt::Ready(Err(_)) ==> final(self).replies() == old(self).replies(),
            final(self).forward_line() == old(self).forward_line(),
            final(self).reply_line() == old(self).reply_line(),
    {
        match self.send_await(message) {
            Attempt::Ready(Ok(())) => round_trip(Attempt::Ready(Ok(())), Some(self.recv())),
            unsent => round_trip(unsent, None),
        }
    }

    /// Takes the next reply out of this sender's own reply queue, if one is
    /// there. Where none is there and nobody but this sender holds a producer
    /// handle of the queue any more, neither the receiving side nor an entry
    /// that waits in the forward queue, the replies have come to their end.
    /// They go on when this sender sends again.
    pub fn recv(&mut self) -> (outcome: Attempt<Option<R>, ()>)
        ensures
            final(self).forward_line() == old(self).forward_line(),
            final(self).reply_line() == old(self).reply_line(),
    {
        let holders = queue::holders(self.reverse_tx.handle());
        replied(queue::take(&mut self.reverse_rx), holders)
    }

    /// The producer handle of the forward queue, for what this sender does
    /// not offer itself, such as waiting for room in the queue.
    #[verifier::when_used_as_spec(forward_handle)]
    pub fn forward(&self) -> (tx: &Producer<(M, Producer<R>)>)
        ensures
            tx == self.forward_handle(),
    {
        self.tx.handle()
    }

    /// The consumer handle of this sender's own reply queue, for what this
    /// sender does not offer itself, such as waiting for a reply. What is
    /// taken out through it is gone for `recv`.
    pub fn replies_mut(&mut self) -> (rx: &mut mpsc::Receiver<R>)
        ensures
            *rx == old(self).replies(),
            final(self).replies() == *final(rx),
            final(self).forward_line() == old(self).forward_line(),
            final(self).reply_line() == old(self).reply_line(),
    {
        &mut self.reverse_rx
    }

    /// The capacity that the forward queue was made with.
    #[verifier::when_used_as_spec(capacity_of_forward)]
    pub fn forward_capacity(&self) -> (capacity: usize)
        ensures
            capacity == self.capacity_of_forward(),
            0 < capacity <= MAX_CAPACITY,
    {
        self.tx.size()
    }

    /// The capacity that this sender's own reply queue was made with.
    #[verifier::when_used_as_spec(capacity_of_replies)]
    pub fn reply_capacity(&self) -> (capacity: usize)
        ensures
            capacity == self.capacity_of_replies(),
            0 < capacity <= MAX_CAPACITY,
    {
        self.reverse_tx.size()
    }
}

impl<M, R> Clone for Sender<M, R> {
    /// A sender on the same forward queue, with a new reply queue of its own,
    /// of the capacity of this sender's: the handle for replies that the
    /// clone hands out is not the one that this sender hands out, so that
    /// replies to what the clone sends reach the clone alone.
    fn clone(&self) -> (copy: Self)
        ensures
            copy.forward_line() == self.forward_line(),
            copy.reply_capacity() == self.reply_capacity(),
            copy.reply_handle() != self.reply_handle(),
            copy.reply_end() == copy.replies(),
    {
        let (reverse_tx, reverse_rx) = self.reverse_tx.another();
        Sender { tx: self.tx.share(), reverse_tx, reverse_rx }
    }
}

} // verus!
