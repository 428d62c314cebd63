//! Cooldowns: after a daily claim, a gamble, a steal or a spawned paw, the
//! same action is refused until a stored expiry instant has passed.
use vstd::prelude::*;
use crate::chance::random_range;
use crate::clock::{
    after_minutes, minutes_later, next_day_start, start_of_next_day, valid_instant,
    EARLIEST_INSTANT, LATEST_INSTANT, NANOS_PER_DAY, NANOS_PER_MINUTE,
};

verus! {

/// The actions that are held back by a cooldown.
#[derive(Clone, Copy, Debug, PartialEq, Eq, PartialOrd, Structural)]
pub enum CooldownAction {
    /// The daily paw claim.
    Paw,
    /// Stealing paws from another user.
    Steal,
    /// Gambling paws.
    Gamble,
    /// A random paw appearing in a channel.
    Spawn,
}

/// The stored expiry, if any, still lies ahead of `now`.
pub open spec fn on_cooldown(expiry: Option<i128>, now: i128) -> bool {
    match expiry {
        Some(e) => e > now,
        None => false,
    }
}

/// Whether a cooldown with the stored expiry refuses the action at `now`.
pub fn is_on_cooldown(expiry: Option<i128>, now: i128) -> (b: bool)
    ensures
        b == on_cooldown(expiry, now),
{
    match expiry {
        Some(e) => e > now,
        None => false,
    }
}

impl CooldownAction {
    /// Minutes are drawn from `lo..hi`: 3..10 after a steal, 2..5 after a
    /// gamble, 2..20 after a spawn. The daily claim draws nothing.
    pub open spec fn delay_bounds(self) -> (int, int) {
        match self {
            CooldownAction::Paw => (0, 0),
            CooldownAction::Steal => (3, 10),
            CooldownAction::Gamble => (2, 5),
            CooldownAction::Spawn => (2, 20),
        }
    }

    /// The cooldown of the daily claim ends at the next UTC midnight; the
    /// others end a drawn number of minutes after `now`.
    pub open spec fn is_daily(self) -> bool {
        self == CooldownAction::Paw
    }

    /// `minutes` is a delay this action can draw.
    pub open spec fn allows_delay(self, minutes: int) -> bool {
        self.is_daily() || (self.delay_bounds().0 <= minutes < self.delay_bounds().1)
    }

    /// When the cooldown that starts at `now` ends, for a drawn delay of `minutes`.
    pub open spec fn expiry(self, now: int, minutes: int) -> int {
        if self.is_daily() {
            start_of_next_day(now)
        } else {
            after_minutes(now, minutes)
        }
    }

    /// The longest a cooldown of this action can last, in nanoseconds.
    pub open spec fn longest_delay(self) -> int {
        if self.is_daily() {
            NANOS_PER_DAY as int
        } else {
            (self.delay_bounds().1 - 1) * NANOS_PER_MINUTE
        }
    }

    /// A cooldown of this action that starts at `now` ends within the range
    /// of instants the `time` crate can hold, whatever delay is drawn.
    pub open spec fn fits_after(self, now: int) -> bool {
        valid_instant(now) && now + self.longest_delay() <= LATEST_INSTANT
    }

    /// Whether a cooldown of this action that starts at `now` ends within the
    /// range of the `time` crate, whatever delay is drawn.
    pub fn has_room_after(&self, now: i128) -> (b: bool)
        ensures
            b == self.fits_after(now as int),
    {
        let longest: i128 = match self {
            CooldownAction::Paw => NANOS_PER_DAY,
            CooldownAction::Steal => 9 * NANOS_PER_MINUTE,
            CooldownAction::Gamble => 4 * NANOS_PER_MINUTE,
            CooldownAction::Spawn => 19 * NANOS_PER_MINUTE,
        };
        EARLIEST_INSTANT <= now && now <= LATEST_INSTANT && now + longest <= LATEST_INSTANT
    }

    /// The range of minutes the cooldown after this action is drawn from,
    /// or `None` for the daily claim.
    pub fn delay_range(&self) -> (r: Option<(i64, i64)>)
        ensures
            self.is_daily() <==> r is None,
            r matches Some((lo, hi)) ==> lo == self.delay_bounds().0 && hi == self.delay_bounds().1,
    {
        match self {
            CooldownAction::Paw => None,
            CooldownAction::Steal => Some((3, 10)),
            CooldownAction::Gamble => Some((2, 5)),
            CooldownAction::Spawn => Some((2, 20)),
        }
    }

    /// When the cooldown that starts at `now` ends, given the drawn delay.
    pub fn expiry_after(&self, now: i128, minutes: i64) -> (t: i128)
        requires
            self.fits_after(now as int),
            self.allows_delay(minutes as int),
        ensures
            t == self.expiry(now as int, minutes as int),
            now < t,
            t <= now + self.longest_delay(),
    {
        match self {
            CooldownAction::Paw => next_day_start(now),
            _ => minutes_later(now, minutes),
        }
    }

    /// Draws the delay and returns when the cooldown that starts at `now`
    /// ends: the next UTC midnight for the daily claim, a random whole
    /// number of minutes from the action's range for the others.
    pub fn draw_expiry(&self, now: i128) -> (t: i128)
        requires
            self.fits_after(now as int),
        ensures
            exists|m: int| self.allows_delay(m) && t == self.expiry(now as int, m),
            now < t <= now + self.longest_delay(),
    {
        match self.delay_range() {
            None => {
                let t = self.expiry_after(now, 0);
                assert(self.allows_delay(0));
                t
            },
            Some((lo, hi)) => {
                let minutes = random_range(lo, hi);
                let t = self.expiry_after(now, minutes);
                assert(self.allows_delay(minutes as int));
                t
            },
        }
    }
}

} // verus!
