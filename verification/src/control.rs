//! The control plane, as far as it is decided here: what a caller is told
//! once the worker has, or has not, answered.

use vstd::prelude::*;

verus! {

/// Number of commands that the queue to the worker holds before a sender
/// has to wait.
pub const COMMAND_QUEUE_CAPACITY: usize = 32;

/// Status of a request that was served.
pub const STATUS_OK: u16 = 200;

/// Status of a request that could not be served.
pub const STATUS_SERVER_ERROR: u16 = 500;

/// The status that a caller is given: success when the request was served,
/// and a server error when the worker or the store did not take it.
pub fn status_of(served: bool) -> (status: u16)
    ensures
        status == if served {
            200u16
        } else {
            500u16
        },
{
    if served {
        STATUS_OK
    } else {
        STATUS_SERVER_ERROR
    }
}

/// What a caller of `get_count` is told: the count with the status of
/// success when the worker replied, and zero with a server error when the
/// reply channel was dropped.
pub fn count_response(reply: Option<u32>) -> (response: (u16, u32))
    ensures
        response == match reply {
            Some(count) => (200u16, count),
            None => (500u16, 0u32),
        },
{
    match reply {
        Some(count) => (STATUS_OK, count),
        None => (STATUS_SERVER_ERROR, 0),
    }
}

} // verus!
