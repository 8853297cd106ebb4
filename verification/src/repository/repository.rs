//! What a caller of the store makes of the two steps of a call: handing the
//! task to the processor, and waiting for the one reply.

use crate::error::db::DatabaseError;
use vstd::prelude::*;

verus! {

/// The outcome of handing a task to the processor. `Err` carries the reason
/// why the intake queue did not take it: the processor has shut down.
pub fn submitted(sent: Result<(), String>) -> (r: Result<(), DatabaseError>)
    ensures
        sent is Ok ==> r is Ok,
        sent matches Err(reason) ==> r == Err::<(), DatabaseError>(
            DatabaseError::FailedToSendRequest(reason),
        ),
{
    match sent {
        Ok(()) => Ok(()),
        Err(reason) => Err(DatabaseError::FailedToSendRequest(reason)),
    }
}

/// The outcome of a call, from what the reply conduit yielded: the reply
/// itself, or an error where the conduit closed without one.
pub fn replied<T>(received: Option<Result<T, DatabaseError>>) -> (r: Result<T, DatabaseError>)
    ensures
        received matches Some(reply) ==> r == reply,
        received is None ==> r == Err::<T, DatabaseError>(
            DatabaseError::NoRemainingMessageInChannel,
        ),
{
    match received {
        Some(reply) => reply,
        None => Err(DatabaseError::NoRemainingMessageInChannel),
    }
}

} // verus!
