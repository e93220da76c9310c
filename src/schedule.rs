use vstd::prelude::*;

use crate::calendar::local_now;

verus! {

/// Seconds in a calendar day.
pub const SECONDS_PER_DAY: u64 = 86400;

/// Seconds from the time of day `hour:minute:second` to the next midnight.
pub open spec fn until_midnight(hour: int, minute: int, second: int) -> int {
    86400 - (hour * 3600 + minute * 60 + second)
}

/// Seconds from the time of day `hour:minute:second` until the midnight that
/// starts the next day; at midnight itself that is a whole day.
pub fn seconds_until_midnight(hour: u32, minute: u32, second: u32) -> (r: u64)
    requires
        hour < 24,
        minute < 60,
        second < 60,
    ensures
        r == until_midnight(hour as int, minute as int, second as int),
        1 <= r <= SECONDS_PER_DAY,
{
    SECONDS_PER_DAY - (hour as u64 * 3600 + minute as u64 * 60 + second as u64)
}

/// Seconds the reconciler sleeps from now until the next local midnight. It is
/// recomputed from the clock on every cycle, so it does not drift.
pub fn delay_until_next_midnight() -> (r: u64)
    ensures
        1 <= r <= SECONDS_PER_DAY,
        exists|h: int, m: int, s: int|
            0 <= h < 24 && 0 <= m < 60 && 0 <= s < 60 && r == #[trigger] until_midnight(h, m, s),
{
    let now = local_now();
    let r = seconds_until_midnight(now.hour, now.minute, now.second);
    assert(r == until_midnight(now.hour as int, now.minute as int, now.second as int));
    r
}

} // verus!
