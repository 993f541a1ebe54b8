//! The clock, and the lifetime that an upload may ask for.

use vstd::prelude::*;

verus! {

/// The milliseconds of one day.
pub const DAY_MS: i64 = 86_400_000;

/// The lifetime that is already too long: ten years of 365 days, in
/// milliseconds.
pub const MAX_LIFETIME_MS: i64 = 315_360_000_000;

/// No reading of the clock reaches this many milliseconds before or after the
/// epoch.
pub const CLOCK_LIMIT_MS: i64 = 200_000_000_000_000_000;

/// The current time in milliseconds since the Unix epoch, read by
/// `chrono::Utc::now` and converted by `DateTime::timestamp_millis`. The
/// contract claims only a bound on its size: chrono computes the value from a
/// day count of 32 bits, the seconds of the day and the milliseconds of the
/// second, so it stays well inside `CLOCK_LIMIT_MS`. `Utc::now` panics where
/// the system clock stands before the epoch.
#[verifier::external_body]
pub(crate) fn now_millis() -> (now: i64)
    ensures
        -CLOCK_LIMIT_MS < now < CLOCK_LIMIT_MS,
{
    chrono::Utc::now().timestamp_millis()
}

/// The milliseconds of `days` days, as `chrono::Duration::days` followed by
/// `num_milliseconds` gives them: the product of the count and the
/// milliseconds of a day. Counts too large for a `Duration`, on which `days`
/// panics, are left out.
#[verifier::external_body]
fn days_in_millis(days: i64) -> (ms: i64)
    requires
        -100_000_000_000 <= days <= 100_000_000_000,
    ensures
        ms == days * DAY_MS,
{
    chrono::Duration::days(days).num_milliseconds()
}

/// The lifetime that is already too long.
pub fn max_lifetime() -> (ms: i64)
    ensures
        ms == MAX_LIFETIME_MS,
{
    days_in_millis(365 * 10)
}

/// When a file created at `now` expires, if it was asked to live for `live`
/// milliseconds: `live` after `now` where `live` is positive and less than
/// ten years, and never otherwise.
pub open spec fn expiry(now: i64, live: Option<i64>) -> Option<i64> {
    match live {
        Some(ms) => if 0 < ms < MAX_LIFETIME_MS {
            Some((now + ms) as i64)
        } else {
            None
        },
        None => None,
    }
}

/// When a file created at `now` expires, if it was asked to live for `live`
/// milliseconds.
pub fn expiry_for(now: i64, live: Option<i64>) -> (dead_at: Option<i64>)
    requires
        now + MAX_LIFETIME_MS <= i64::MAX,
    ensures
        dead_at == expiry(now, live),
        dead_at matches Some(at) ==> live matches Some(ms) && at == now + ms,
{
    match live {
        Some(ms) => {
            if ms > 0 && ms < max_lifetime() {
                Some(now + ms)
            } else {
                None
            }
        },
        None => None,
    }
}

} // verus!
