//! What one attempt at a channel operation comes to.
//!
//! Neither side of the channel ever parks its thread: an operation that
//! cannot complete yet reports `Retry`, and the caller attempts it again.

use vstd::prelude::*;
use crate::error::RecvError;
use crate::error::SendError;

verus! {

/// The outcome of one attempt to send a value.
#[derive(Debug)]
pub enum SendStep<T> {
    /// The send is over, with this result.
    Done(Result<(), SendError<T>>),
    /// Nothing was written; the value is handed back for the next attempt.
    Retry(T),
}

/// The outcome of one attempt to receive a value.
#[derive(Debug)]
pub enum RecvStep<T> {
    /// The receive is over, with this result.
    Done(Result<T, RecvError>),
    /// Nothing is there to read yet, but a producer may still write.
    Retry,
}

impl<T> SendStep<T> {
    /// The step gives `val` back wherever it gives a value back: nothing
    /// but the value that was offered ever leaves a send.
    pub open spec fn returns_only(self, val: T) -> bool {
        match self {
            SendStep::Done(Ok(_)) => true,
            SendStep::Done(Err(rejected)) => rejected.0 == val,
            SendStep::Retry(returned) => returned == val,
        }
    }
}

/// What a send learns from the consumer's liveness indicator before it
/// touches the ring: a send towards a consumer that is gone fails with the
/// value inside, any other send goes ahead with it.
pub open spec fn admission<T>(consumer_live: bool, val: T) -> Result<T, SendError<T>> {
    if consumer_live {
        Ok(val)
    } else {
        Err(SendError(val))
    }
}

/// Decides, from the consumer's liveness indicator as it was read when the
/// send began, whether the send may go ahead.
pub fn screen_send<T>(consumer_live: bool, val: T) -> (r: Result<T, SendError<T>>)
    ensures
        r == admission(consumer_live, val),
{
    if consumer_live {
        Ok(val)
    } else {
        Err(SendError(val))
    }
}

} // verus!
