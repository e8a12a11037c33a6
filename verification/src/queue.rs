//! The bounded queues and single-use cells underneath every exchange.
//!
//! They are tokio's. What this file says of tokio is not proved: each contract
//! of a function that calls tokio is taken on trust from tokio's
//! documentation and source, and the rest of the crate is proved from these
//! contracts.
//!
//! A handle of tokio's is a value of which nothing is known but which queue,
//! or cell, it belongs to. What tokio says when it makes a queue or a cell,
//! that these two ends belong together, is written down at that moment in
//! [`Line`] and in [`ReadSide`], whose fields nothing outside this file can
//! set.

use tokio::sync::mpsc;
use tokio::sync::mpsc::Sender as Producer;
use tokio::sync::oneshot;
use tokio::sync::oneshot::error::RecvError as CellClosed;
use tokio::sync::oneshot::Sender as ReplySlot;
use vstd::prelude::*;

verus! {

/// tokio's `mpsc::Sender`: a producer handle of a bounded queue.
#[verifier::external_type_specification]
#[verifier::external_body]
#[verifier::reject_recursive_types(T)]
pub struct ExProducer<T>(Producer<T>);

/// tokio's `mpsc::Receiver`: the one consumer handle of a bounded queue.
#[verifier::external_type_specification]
#[verifier::external_body]
#[verifier::reject_recursive_types(T)]
pub struct ExConsumer<T>(mpsc::Receiver<T>);

/// tokio's `oneshot::Sender`: the write side of a single-use cell.
#[verifier::external_type_specification]
#[verifier::external_body]
#[verifier::reject_recursive_types(T)]
pub struct ExReplySlot<T>(ReplySlot<T>);

/// tokio's `oneshot::Receiver`: the read side of a single-use cell.
#[verifier::external_type_specification]
#[verifier::external_body]
#[verifier::reject_recursive_types(T)]
pub struct ExReplyReader<T>(oneshot::Receiver<T>);

/// tokio's `oneshot::error::RecvError`, which awaiting the read side of a cell
/// gives when the write side is gone. It stands here because the read side's
/// type names it; nothing in this crate makes or reads one.
#[verifier::external_type_specification]
#[verifier::external_body]
pub struct ExCellClosed(CellClosed);

/// The largest capacity that a bounded queue can be made with: the most
/// permits that tokio's semaphore holds.
pub const MAX_CAPACITY: usize = usize::MAX / 8;

/// What a bounded queue answers to one item offered without waiting.
#[derive(Debug, PartialEq, Eq)]
pub enum Offer<T> {
    /// The item is in the queue.
    Accepted,
    /// The queue holds as many items as it may; the item comes back.
    Full(T),
    /// Nobody will ever read the queue again; the item comes back.
    Closed(T),
}

/// What a queue or a cell answers when asked for its next item without
/// waiting.
#[derive(Debug, PartialEq, Eq)]
pub enum Take<T> {
    /// The next item, now out of the queue.
    Item(T),
    /// Nothing is there yet, and something may still come.
    Empty,
    /// Nothing is there and nothing will come.
    Closed,
}

/// A producer handle of a bounded queue, with what was settled when the queue
/// was made: its capacity, and the consumer handle that came with it.
#[verifier::reject_recursive_types(T)]
pub struct Line<T> {
    tx: Producer<T>,
    buffer: usize,
    consumer: Ghost<mpsc::Receiver<T>>,
}

/// The read side of a single-use cell, with what was settled when the cell
/// was made: the write side that came with it.
#[verifier::reject_recursive_types(T)]
pub struct ReadSide<T> {
    rx: oneshot::Receiver<T>,
    writer: Ghost<ReplySlot<T>>,
}

/// Calls `tokio::sync::mpsc::channel`, which makes a new bounded queue of the
/// capacity given and returns its two ends.
///
/// tokio panics on a capacity of zero and on one above its semaphore's
/// `MAX_PERMITS`, which is `usize::MAX >> 3`; both are left out here. The
/// queue is new at every call: its producer handle belongs to no queue that
/// was there before, of which `apart` may name one.
#[verifier::external_body]
pub(crate) fn bounded<T>(buffer: usize, apart: Option<&Line<T>>) -> (ends: (
    Line<T>,
    mpsc::Receiver<T>,
))
    requires
        0 < buffer <= MAX_CAPACITY,
    ensures
        ends.0.capacity() == buffer,
        ends.0.consumer() == ends.1,
        apart matches Some(other) ==> ends.0.producer() != other.producer(),
{
    let (tx, rx) = mpsc::channel(buffer);
    (Line { tx, buffer, consumer: Ghost(rx) }, rx)
}

/// Calls `Clone::clone` of `tokio::sync::mpsc::Sender`.
///
/// The clone holds the same shared queue as the handle it was made from and
/// nothing else, so the two are taken for equal.
#[verifier::external_body]
pub(crate) fn duplicate<T>(tx: &Producer<T>) -> (copy: Producer<T>)
    ensures
        copy == *tx,
{
    tx.clone()
}

/// Calls `tokio::sync::mpsc::Sender::strong_count`, the number of producer
/// handles that the queue of `tx` has at this moment, `tx` among them and
/// those inside entries of other queues too; a handle that was made weak does
/// not count. Nothing is claimed of the number: it depends on what the
/// holders of the other handles did meanwhile.
#[verifier::external_body]
pub(crate) fn holders<T>(tx: &Producer<T>) -> (count: usize) {
    tx.strong_count()
}

/// Calls `tokio::sync::mpsc::Sender::try_send`.
///
/// Whether the queue takes the item depends on what the other handles did
/// meanwhile, so nothing says which answer comes. Claimed is only that an item
/// that comes back is the item that went in.
#[verifier::external_body]
pub(crate) fn offer<T>(tx: &Producer<T>, item: T) -> (answer: Offer<T>)
    ensures
        answer matches Offer::Full(back) ==> back == item,
        answer matches Offer::Closed(back) ==> back == item,
{
    match tx.try_send(item) {
        Ok(()) => Offer::Accepted,
        Err(mpsc::error::TrySendError::Full(back)) => Offer::Full(back),
        Err(mpsc::error::TrySendError::Closed(back)) => Offer::Closed(back),
    }
}

/// Calls `tokio::sync::mpsc::Receiver::try_recv`. Nothing is claimed of the
/// answer: it depends on what the producers did meanwhile.
#[verifier::external_body]
pub(crate) fn take<T>(rx: &mut mpsc::Receiver<T>) -> (answer: Take<T>) {
    match rx.try_recv() {
        Ok(item) => Take::Item(item),
        Err(mpsc::error::TryRecvError::Empty) => Take::Empty,
        Err(mpsc::error::TryRecvError::Disconnected) => Take::Closed,
    }
}

/// Calls `tokio::sync::oneshot::channel`, which makes a new single-use cell and
/// returns its write side and its read side.
#[verifier::external_body]
pub(crate) fn single_use<T>() -> (ends: (ReplySlot<T>, ReadSide<T>))
    ensures
        ends.1.write_side() == ends.0,
{
    let (tx, rx) = oneshot::channel();
    let read_side = ReadSide { rx, writer: Ghost(tx) };
    (tx, read_side)
}

/// Calls `tokio::sync::oneshot::Receiver::try_recv`. Nothing is claimed of the
/// answer: it depends on what the holder of the write side did meanwhile.
#[verifier::external_body]
pub(crate) fn take_once<T>(rx: &mut oneshot::Receiver<T>) -> (answer: Take<T>) {
    match rx.try_recv() {
        Ok(item) => Take::Item(item),
        Err(oneshot::error::TryRecvError::Empty) => Take::Empty,
        Err(oneshot::error::TryRecvError::Closed) => Take::Closed,
    }
}

impl<T> Line<T> {
    #[verifier::type_invariant]
    spec fn well_formed(&self) -> bool {
        0 < self.buffer <= MAX_CAPACITY
    }

    /// The producer handle.
    pub closed spec fn producer(&self) -> Producer<T> {
        self.tx
    }

    /// The capacity that the queue was made with.
    pub closed spec fn capacity(&self) -> usize {
        self.buffer
    }

    /// The consumer handle that the queue was made with, as it then was.
    pub closed spec fn consumer(&self) -> mpsc::Receiver<T> {
        self.consumer@
    }

    /// The producer handle.
    pub(crate) fn handle(&self) -> (tx: &Producer<T>)
        ensures
            *tx == self.producer(),
    {
        &self.tx
    }

    /// The capacity that the queue was made with.
    pub(crate) fn size(&self) -> (buffer: usize)
        ensures
            buffer == self.capacity(),
            0 < buffer <= MAX_CAPACITY,
    {
        proof {
            use_type_invariant(self);
        }
        self.buffer
    }

    /// Another producer handle of the same queue.
    pub(crate) fn share(&self) -> (copy: Self)
        ensures
            copy == *self,
    {
        proof {
            use_type_invariant(self);
        }
        Line { tx: duplicate(&self.tx), buffer: self.buffer, consumer: self.consumer }
    }

    /// A new queue of the capacity of this one, and not this one.
    pub(crate) fn another(&self) -> (ends: (Self, mpsc::Receiver<T>))
        ensures
            ends.0.capacity() == self.capacity(),
            ends.0.consumer() == ends.1,
            ends.0.producer() != self.producer(),
    {
        let buffer = self.size();
        bounded(buffer, Some(self))
    }
}

impl<T> ReadSide<T> {
    /// The write side that the cell was made with.
    pub closed spec fn write_side(&self) -> ReplySlot<T> {
        self.writer@
    }

    /// The read side itself.
    pub closed spec fn reader(&self) -> oneshot::Receiver<T> {
        self.rx
    }

    /// Asks the cell for its item, without waiting.
    pub(crate) fn look(&mut self) -> (answer: Take<T>)
        ensures
            final(self).write_side() == old(self).write_side(),
    {
        take_once(&mut self.rx)
    }

    /// The read side itself, for whoever has to wait on the cell. A reply
    /// that is taken out through it is gone for every later look.
    pub fn reader_mut(&mut self) -> (rx: &mut oneshot::Receiver<T>)
        ensures
            *rx == old(self).reader(),
            final(self).reader() == *final(rx),
            final(self).write_side() == old(self).write_side(),
    {
        &mut self.rx
    }

    /// Gives up what is known of the read side, for whoever has to wait on
    /// the cell itself.
    pub fn into_inner(self) -> (rx: oneshot::Receiver<T>)
        ensures
            rx == self.reader(),
    {
        self.rx
    }
}

} // verus!
