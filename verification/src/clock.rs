use vstd::prelude::*;

verus! {

/// Microseconds elapsed from `since` to `now` on the monotonic clock,
/// saturating to zero when `now` lies before `since`.
pub open spec fn elapsed_since(now: u64, since: u64) -> int {
    if now >= since {
        now - since
    } else {
        0
    }
}

/// Saturating difference of two clock readings, in microseconds.
pub fn elapsed_micros(now: u64, since: u64) -> (elapsed: u64)
    ensures
        elapsed == elapsed_since(now, since),
{
    if now >= since {
        now - since
    } else {
        0
    }
}

} // verus!
