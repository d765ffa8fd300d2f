//! The decisions of the `clock` host library: how long to sleep, and the
//! current time as the runtime reports it.

use vstd::prelude::*;

verus! {

/// How long `__nx_sleep(ms)` sleeps: `ms` milliseconds when `ms` is
/// positive, not at all otherwise.
pub fn sleep_millis(ms: i64) -> (d: Option<u64>)
    ensures
        ms > 0 ==> d == Some(ms as u64),
        ms <= 0 ==> d is None,
{
    if ms > 0 {
        Some(ms as u64)
    } else {
        None
    }
}

/// What `__nx_now` reports, from the milliseconds elapsed since the Unix
/// epoch (`None` when the clock reads a time before the epoch): those
/// milliseconds truncated to `i64`, or 0.
pub fn now_millis(elapsed_millis: Option<u128>) -> (t: i64)
    ensures
        t == match elapsed_millis {
            Some(m) => m as i64,
            None => 0i64,
        },
{
    match elapsed_millis {
        Some(m) => m as i64,
        None => 0,
    }
}

} // verus!
