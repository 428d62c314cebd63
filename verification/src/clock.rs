//! Instants of time as the bot handles them: nanoseconds since the Unix
//! epoch, in UTC, within the range that the `time` crate can represent
//! (the years -9999 to 9999).
use vstd::prelude::*;

verus! {

/// Nanoseconds in a minute.
pub const NANOS_PER_MINUTE: i128 = 60_000_000_000i128;

/// Nanoseconds in a day.
pub const NANOS_PER_DAY: i128 = 86_400_000_000_000i128;

/// The first instant of -9999-01-01 UTC, the earliest the `time` crate holds.
pub const EARLIEST_INSTANT: i128 = -377_705_116_800_000_000_000i128;

/// The last nanosecond of 9999-12-31 UTC, the latest the `time` crate holds.
pub const LATEST_INSTANT: i128 = 253_402_300_799_999_999_999i128;

/// `t` is an instant that a date-time of the `time` crate can hold.
pub open spec fn valid_instant(t: int) -> bool {
    EARLIEST_INSTANT <= t <= LATEST_INSTANT
}

/// The instant `minutes` minutes after `now`.
pub open spec fn after_minutes(now: int, minutes: int) -> int {
    now + minutes * NANOS_PER_MINUTE
}

/// The first instant of the UTC day that follows the day of `now`: what
/// `now + 1 day` with its time of day replaced by 00:00 gives.
pub open spec fn start_of_next_day(now: int) -> int {
    (now / (NANOS_PER_DAY as int) + 1) * NANOS_PER_DAY
}

/// The instant `minutes` minutes after `now`; the `time` crate refuses a
/// result outside its range, hence the bound.
pub fn minutes_later(now: i128, minutes: i64) -> (t: i128)
    requires
        valid_instant(now as int),
        valid_instant(after_minutes(now as int, minutes as int)),
    ensures
        t == after_minutes(now as int, minutes as int),
{
    now + (minutes as i128) * NANOS_PER_MINUTE
}

/// The first instant of the next UTC day: `now` plus one day, with the time
/// of day set to midnight.
pub fn next_day_start(now: i128) -> (t: i128)
    requires
        valid_instant(now as int),
        valid_instant(now + NANOS_PER_DAY),
    ensures
        t == start_of_next_day(now as int),
        now < t <= now + NANOS_PER_DAY,
        (t as int) % (NANOS_PER_DAY as int) == 0,
{
    let since_earliest: u128 = (now - EARLIEST_INSTANT) as u128;
    let days: u128 = since_earliest / (NANOS_PER_DAY as u128);
    let rest: u128 = since_earliest % (NANOS_PER_DAY as u128);
    proof {
        let d = NANOS_PER_DAY as int;
        vstd::arithmetic::div_mod::lemma_fundamental_div_mod(since_earliest as int, d);
        let q = days as int - 4_371_587;
        assert(EARLIEST_INSTANT == -4_371_587 * d);
        assert(now == q * d + rest as int);
        vstd::arithmetic::div_mod::lemma_fundamental_div_mod_converse(now as int, d, q, rest as int);
        assert((q + 1) * d == q * d + d);
        assert(((q + 1) * d) % d == 0) by {
            vstd::arithmetic::div_mod::lemma_mod_multiples_basic(q + 1, d);
        }
    }
    let day_start: i128 = EARLIEST_INSTANT + (days as i128) * NANOS_PER_DAY;
    day_start + NANOS_PER_DAY
}

/// Whether `t` is an instant that a date-time of the `time` crate can hold.
pub fn in_range(t: i128) -> (b: bool)
    ensures
        b == valid_instant(t as int),
{
    EARLIEST_INSTANT <= t && t <= LATEST_INSTANT
}

} // verus!
