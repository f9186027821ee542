//! The two ways a channel operation can fail for good.

use vstd::prelude::*;

verus! {

/// No consumer is left to receive the value; the value comes back inside.
#[derive(Debug)]
pub struct SendError<T>(pub T);

/// No producer is left and every value that was sent has been received.
#[derive(Debug)]
pub struct RecvError;

} // verus!
