//! What an operation reports when it must not wait.
//!
//! A sender may find the forward queue full, or its reply not there yet.
//! Instead of waiting, every operation of this crate makes one attempt and says
//! how far it got. Waiting, and trying again, is the caller's part.

use vstd::prelude::*;

verus! {

/// How far one attempt at an operation got.
#[derive(Debug, PartialEq, Eq)]
pub enum Attempt<T, W> {
    /// The operation ran to its end, with this result.
    Ready(T),
    /// A queue was full, or empty, and the operation stopped there. Nothing is
    /// lost: this is what the caller needs to go on later.
    Pending(W),
}

/// Where a round trip stands when it had to stop.
#[derive(Debug, PartialEq, Eq)]
pub enum Progress<M, P> {
    /// The forward queue was full. The message comes back, to be sent again.
    Unsent(M),
    /// The message is in the forward queue and the reply is not there yet.
    /// This is where the reply will be found.
    Sent(P),
}

} // verus!
