//! Exchanges in which every message gets an answer of its own.
//!
//! Many senders put messages into one bounded forward queue, and one receiver
//! takes them out. Every message travels with a handle through which the
//! receiver answers the sender that asked, and nobody else: no ids, no
//! registry. The handle is either the write side of a cell that is used once
//! ([`temporary`]) or a producer handle of a reply queue that the sender keeps
//! for as long as it lives ([`permanent`]).
//!
//! The queues and cells themselves are tokio's ([`queue`]), and so is the
//! receiving side: `channel` returns tokio's consumer handle of the forward
//! queue, and the handle that comes with a message is tokio's too. Which ends
//! belong together is written down when tokio makes them, and the contracts
//! say it from there: the consumer handle that `channel` returns is the one of
//! the sender's forward queue, a sender reads the replies to its own handle,
//! and a clone hands out another handle than the sender it was made from.
//!
//! Nothing here waits: where a queue is full or a reply is not there yet, an
//! operation says so ([`attempt`]) and hands back what is needed to go on.
//! Replies end: once nothing is in a sender's reply queue and nobody but the
//! sender holds a handle of it, `recv` returns `None`.
//! What an operation makes of each answer of a queue is a function of its own
//! (`sent`, `replied`, `round_trip`), so that it is stated and proved for
//! every answer, whichever answer tokio gives.

pub mod attempt;
pub mod error;
pub mod permanent;
pub mod queue;
pub mod temporary;

pub use permanent::channel;
pub use permanent::Sender;
