//! What can go wrong in an exchange, and when two such errors are equal.

use vstd::laws_eq::obeys_concrete_eq;
use vstd::laws_eq::obeys_eq;
use vstd::laws_eq::obeys_eq_spec_properties;
use vstd::prelude::*;
use vstd::std_specs::cmp::PartialEqSpec;
use vstd::std_specs::cmp::PartialEqSpecImpl;
use vstd::std_specs::convert::FromSpecImpl;

verus! {

/// A message was not sent, because nobody reads the forward queue any more.
/// The message is inside.
#[derive(Debug)]
pub struct SendError<M>(pub M);

/// A reply will never come: the write side of its cell is gone, and nothing
/// was written.
#[derive(Debug)]
pub struct RecvError;

/// What can go wrong in an exchange.
#[derive(Debug)]
pub enum Error<M> {
    /// The message was not sent; it is handed back.
    SendError(SendError<M>),
    /// The message was sent, and nobody answered it.
    RecvError(RecvError),
}

impl<M: PartialEq> PartialEq for SendError<M> {
    fn eq(&self, other: &Self) -> (r: bool) {
        self.0.eq(&other.0)
    }
}

impl<M: PartialEq> PartialEqSpecImpl for SendError<M> {
    open spec fn obeys_eq_spec() -> bool {
        M::obeys_eq_spec()
    }

    open spec fn eq_spec(&self, other: &Self) -> bool {
        self.0.eq_spec(&other.0)
    }
}

impl PartialEq for RecvError {
    fn eq(&self, other: &Self) -> (r: bool) {
        true
    }
}

impl PartialEqSpecImpl for RecvError {
    open spec fn obeys_eq_spec() -> bool {
        true
    }

    open spec fn eq_spec(&self, other: &Self) -> bool {
        true
    }
}

impl<M: PartialEq> PartialEq for Error<M> {
    /// Two errors are equal where they are of one kind and, for a message
    /// that was not sent, hold equal messages.
    fn eq(&self, other: &Self) -> (r: bool) {
        match (self, other) {
            (Error::SendError(err), Error::SendError(other_err)) => err.eq(other_err),
            (Error::RecvError(err), Error::RecvError(other_err)) => err.eq(other_err),
            _ => false,
        }
    }

    fn ne(&self, other: &Self) -> (r: bool) {
        !self.eq(other)
    }
}

impl<M: PartialEq> PartialEqSpecImpl for Error<M> {
    open spec fn obeys_eq_spec() -> bool {
        M::obeys_eq_spec()
    }

    open spec fn eq_spec(&self, other: &Self) -> bool {
        match (self, other) {
            (Error::SendError(err), Error::SendError(other_err)) => err.0.eq_spec(&other_err.0),
            (Error::RecvError(_), Error::RecvError(_)) => true,
            _ => false,
        }
    }
}

impl<M: Eq> Eq for SendError<M> {}

impl Eq for RecvError {}

impl<M: Eq> Eq for Error<M> {}

impl<M> SendError<M> {
    /// The error for an entry that the forward queue gave back: it keeps the
    /// message and lets go of the reply handle that went with it.
    pub fn undelivered<H>(entry: (M, H)) -> (err: Self)
        ensures
            err == SendError(entry.0),
    {
        SendError(entry.0)
    }
}

impl<M> From<SendError<M>> for Error<M> {
    fn from(err: SendError<M>) -> (ret: Self) {
        Error::SendError(err)
    }
}

impl<M> FromSpecImpl<SendError<M>> for Error<M> {
    open spec fn obeys_from_spec() -> bool {
        true
    }

    open spec fn from_spec(err: SendError<M>) -> Self {
        Error::SendError(err)
    }
}

impl<M> From<RecvError> for Error<M> {
    fn from(err: RecvError) -> (ret: Self) {
        Error::RecvError(err)
    }
}

impl<M> FromSpecImpl<RecvError> for Error<M> {
    open spec fn obeys_from_spec() -> bool {
        true
    }

    open spec fn from_spec(err: RecvError) -> Self {
        Error::RecvError(err)
    }
}

/// `==` on send errors is symmetric and transitive wherever `==` on messages
/// is.
pub proof fn lemma_send_error_obeys_eq<M: PartialEq>()
    requires
        obeys_eq::<M>(),
    ensures
        obeys_eq::<SendError<M>>(),
{
    reveal(obeys_eq_spec_properties);
    assert forall|x: SendError<M>, y: SendError<M>| #[trigger]
        PartialEqSpec::eq_spec(&x, &y) <==> PartialEqSpec::eq_spec(&y, &x) by {
        assert(x.0.eq_spec(&y.0) <==> y.0.eq_spec(&x.0));
    }
    assert forall|x: SendError<M>, y: SendError<M>, z: SendError<M>|
        PartialEqSpec::eq_spec(&x, &y) && #[trigger] PartialEqSpec::eq_spec(
            &y,
            &z,
        ) implies #[trigger] PartialEqSpec::eq_spec(&x, &z) by {
        assert(x.0.eq_spec(&y.0) && y.0.eq_spec(&z.0) ==> x.0.eq_spec(&z.0));
    }
}

/// `==` on send errors holds of the same value twice and of nothing else,
/// wherever that is so of `==` on messages: there it is reflexive too.
pub proof fn lemma_send_error_obeys_concrete_eq<M: PartialEq>()
    requires
        obeys_concrete_eq::<M>(),
    ensures
        obeys_concrete_eq::<SendError<M>>(),
{
    reveal(obeys_concrete_eq);
    assert forall|x: SendError<M>, y: SendError<M>|
        PartialEqSpec::eq_spec(&x, &y) <==> x == y by {
        assert(x.0.eq_spec(&y.0) <==> x.0 == y.0);
    }
}

/// `==` on errors is symmetric and transitive wherever `==` on messages is.
pub proof fn lemma_error_obeys_eq<M: PartialEq>()
    requires
        obeys_eq::<M>(),
    ensures
        obeys_eq::<Error<M>>(),
{
    reveal(obeys_eq_spec_properties);
    assert forall|x: Error<M>, y: Error<M>| #[trigger]
        PartialEqSpec::eq_spec(&x, &y) <==> PartialEqSpec::eq_spec(&y, &x) by {
        if let (Error::SendError(a), Error::SendError(b)) = (x, y) {
            assert(a.0.eq_spec(&b.0) <==> b.0.eq_spec(&a.0));
        }
    }
    assert forall|x: Error<M>, y: Error<M>, z: Error<M>|
        PartialEqSpec::eq_spec(&x, &y) && #[trigger] PartialEqSpec::eq_spec(
            &y,
            &z,
        ) implies #[trigger] PartialEqSpec::eq_spec(&x, &z) by {
        if let (Error::SendError(a), Error::SendError(b), Error::SendError(c)) = (x, y, z) {
            assert(a.0.eq_spec(&b.0) && b.0.eq_spec(&c.0) ==> a.0.eq_spec(&c.0));
        }
    }
}

/// `==` on errors holds of the same value twice and of nothing else, wherever
/// that is so of `==` on messages: there it is reflexive too.
pub proof fn lemma_error_obeys_concrete_eq<M: PartialEq>()
    requires
        obeys_concrete_eq::<M>(),
    ensures
        obeys_concrete_eq::<Error<M>>(),
{
    reveal(obeys_concrete_eq);
    assert forall|x: Error<M>, y: Error<M>| PartialEqSpec::eq_spec(&x, &y) <==> x == y by {
        if let (Error::SendError(a), Error::SendError(b)) = (x, y) {
            assert(a.0.eq_spec(&b.0) <==> a.0 == b.0);
        }
    }
}

} // verus!
