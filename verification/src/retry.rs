//! The bounded schedule on which transient failures are retried.
//!
//! One backoff per retry, so a request is attempted at most three times in
//! all. The backoffs add up to the entire wall-clock cost of exhausting a
//! request, and that is deliberately a fraction of a second: a call that can
//! be made to block for seconds is a call that can be used to pin a caller's
//! threads, and on the ioctl transport every attempt also consumes a VMPCK
//! sequence number that the guest can never get back.

use vstd::prelude::*;

verus! {

/// How many times a failed request is retried.
pub const MAX_RETRIES: usize = 2;

/// The backoff, in milliseconds, before retry number `retries_done + 1`.
pub open spec fn backoff_ms(retries_done: int) -> Option<u64> {
    if retries_done == 0 {
        Some(20)
    } else if retries_done == 1 {
        Some(80)
    } else {
        None
    }
}

/// What to do after a failed attempt, given how many retries have already
/// been made and whether the failure was transient (see
/// [`crate::error::is_transient`]): wait the returned number of milliseconds
/// and try again, or give up (`None`) and return the error.
pub fn next_retry(retries_done: usize, transient: bool) -> (r: Option<u64>)
    ensures
        r == (if transient {
            backoff_ms(retries_done as int)
        } else {
            None
        }),
{
    if !transient {
        return None;
    }
    if retries_done == 0 {
        Some(20)
    } else if retries_done == 1 {
        Some(80)
    } else {
        None
    }
}

/// The schedule is bounded: no retry follows the second, so a request is
/// attempted at most three times, and the waits before those retries add up
/// to a tenth of a second.
pub proof fn lemma_retry_schedule_bounded(retries_done: int)
    ensures
        retries_done >= MAX_RETRIES ==> backoff_ms(retries_done) is None,
        backoff_ms(0)->Some_0 + backoff_ms(1)->Some_0 == 100,
        backoff_ms(0) is Some && backoff_ms(1) is Some,
{
}

} // verus!
