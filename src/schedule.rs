//! Time units and the time-gated trigger pattern shared by all modules.
use vstd::prelude::*;

verus! {

pub const SECOND: u32 = 1;
pub const MINUTE: u32 = 60 * SECOND;
pub const HOUR: u32 = 60 * MINUTE;
pub const MAN_DAY: u32 = 8 * HOUR;
pub const DAY: u32 = 24 * HOUR;
pub const WEEK: u32 = 7 * DAY;

/// An action whose mark is `next` is due at `now` once `now` has reached it.
pub open spec fn is_due(now: u64, next: u64) -> bool {
    now >= next
}

/// The mark set after a firing at `now`: `now + interval`, saturating at the
/// largest representable time.
pub open spec fn rearm_time(now: u64, interval: u64) -> u64 {
    if now + interval <= u64::MAX {
        (now + interval) as u64
    } else {
        u64::MAX
    }
}

/// Whether an action whose mark is `next` is due at `now`.
pub fn due_at(now: u64, next: u64) -> (r: bool)
    ensures
        r == is_due(now, next),
{
    now >= next
}

/// The mark that follows a firing at `now` with the given re-arm interval.
pub fn rearm(now: u64, interval: u64) -> (r: u64)
    ensures
        r == rearm_time(now, interval),
        interval > 0 && now + interval <= u64::MAX ==> r > now,
{
    now.saturating_add(interval)
}

/// A firing pushes the mark strictly past the firing time, as long as the
/// interval is positive and the sum is representable.
pub proof fn lemma_rearm_after_firing(now: u64, interval: u64)
    requires
        interval > 0,
        now + interval <= u64::MAX,
    ensures
        rearm_time(now, interval) > now,
        !is_due(now, rearm_time(now, interval)),
{
}

} // verus!
