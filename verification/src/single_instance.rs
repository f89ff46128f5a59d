//! One running copy of the application in a session.

use vstd::prelude::*;

use crate::winapi::ERROR_ALREADY_EXISTS;

verus! {

/// The name of the lock that the first copy holds. It is the session's own, so
/// that two people at one machine have a copy each.
pub const MUTEX_NAME: &'static str = "resticker_single_instance";

/// The lock, by its handle. It is held for as long as the application runs.
#[derive(Debug, PartialEq, Eq)]
pub struct SingleInstance {
    pub handle: usize,
}

/// What came of asking for the lock.
#[derive(Debug, PartialEq, Eq)]
pub enum SingleInstanceResult {
    /// This copy is the first.
    Acquired(SingleInstance),
    /// Another copy has it.
    AlreadyRunning,
    /// There is no saying; the application starts all the same.
    Error,
}

/// What came of asking for the lock, and the handle to close again.
pub open spec fn lock_reply(created: Option<usize>, last_error: u32) -> (
    SingleInstanceResult,
    Option<usize>,
) {
    match created {
        Some(handle) => if last_error == ERROR_ALREADY_EXISTS {
            (SingleInstanceResult::AlreadyRunning, Some(handle))
        } else {
            (SingleInstanceResult::Acquired(SingleInstance { handle }), None)
        },
        None => (SingleInstanceResult::Error, None),
    }
}

/// What came of asking for the lock: `created` is its handle, where one could
/// be had, and `last_error` the code that the system left behind. A handle on a
/// lock that was there before is to be closed again; it comes back as the
/// second part.
pub fn acquire_named(created: Option<usize>, last_error: u32) -> (r: (
    SingleInstanceResult,
    Option<usize>,
))
    ensures
        r == lock_reply(created, last_error),
        r == (match created {
            Some(handle) => if last_error == ERROR_ALREADY_EXISTS {
                (SingleInstanceResult::AlreadyRunning, Some(handle))
            } else {
                (SingleInstanceResult::Acquired(SingleInstance { handle }), None)
            },
            None => (SingleInstanceResult::Error, None),
        }),
{
    match created {
        Some(handle) => {
            if last_error == ERROR_ALREADY_EXISTS {
                (SingleInstanceResult::AlreadyRunning, Some(handle))
            } else {
                (SingleInstanceResult::Acquired(SingleInstance { handle }), None)
            }
        },
        None => (SingleInstanceResult::Error, None),
    }
}

/// A lock with the code 183 was there before, and its handle is closed again; one
/// with any other code is this copy's own and stays open. Without a handle there is
/// no saying.
pub proof fn lock_is_held_or_closed(created: Option<usize>, last_error: u32)
    ensures
        lock_reply(created, last_error).0 is AlreadyRunning <==> created is Some && last_error
            == 183,
        lock_reply(created, last_error).0 is Acquired <==> created is Some && last_error != 183,
        lock_reply(created, last_error).0 is Error <==> created is None,
        lock_reply(created, last_error).0 matches SingleInstanceResult::Acquired(own) ==> created
            == Some(own.handle),
        lock_reply(created, last_error).1 == (if last_error == 183 {
            created
        } else {
            None
        }),
{
}

} // verus!
