//! `/paw gamble`: stake paws on a coin flip.
use vstd::prelude::*;
use crate::cooldown::{is_on_cooldown, on_cooldown, CooldownAction};
use crate::chance::random_ratio;
use crate::ledger::BalanceWrite;
use crate::paws::{private_reply, Reply};
use crate::text::{decimal, plural_s, push_int, push_plural_s};

verus! {

/// The answer while the gamble cooldown runs.
pub open spec fn gamble_wait_text() -> Seq<char> {
    "⛔🐶 Gambling addiction is a serious problem. Regulations require a wait. Try again later..."@
}

/// The answer to a gambler who may not gamble the stake.
pub open spec fn gamble_afford_text() -> Seq<char> {
    "You can only gamble as many paws as you have! (Up to 10)"@
}

/// What is known so far while handling `/paw gamble`.
pub struct GambleFacts {
    /// The number of paws the user stakes.
    pub count: i32,
    /// The current instant.
    pub now: i128,
    /// The expiry of the user's gamble cooldown once read (`Some(None)`
    /// when the user has none).
    pub cooldown: Option<Option<i128>>,
    /// The user's balance row once read (`Some(None)` when the user has none).
    pub balance: Option<Option<i32>>,
}

/// What `/paw gamble` does next.
pub enum GambleStep {
    /// Read the user's gamble cooldown.
    ReadCooldown,
    /// Read the user's balance.
    ReadBalance,
    /// Answer and stop, with nothing written.
    Refuse(Reply),
    /// Flip the coin for the stake, holding `current` paws.
    Play { current: i32 },
}

/// Most paws one gamble may stake.
pub const STAKE_LIMIT: i32 = 10i32;

/// A user with the balance row `balance` may gamble `count` paws: as the
/// refusal says, only as many paws as the row holds, and at most
/// `STAKE_LIMIT`. A user without a row may not gamble.
pub open spec fn may_gamble(balance: Option<i32>, count: int) -> bool {
    match balance {
        Some(c) => c >= count && count <= STAKE_LIMIT,
        None => false,
    }
}

/// The next step of `/paw gamble`: the cooldown is checked first, then the
/// balance; only then is the coin flipped.
pub fn gamble_step(facts: &GambleFacts) -> (step: GambleStep)
    ensures
        facts.cooldown is None ==> step is ReadCooldown,
        facts.cooldown matches Some(e) && on_cooldown(e, facts.now) ==> (step matches GambleStep::Refuse(r)
            && r.text@ == gamble_wait_text() && r.ephemeral),
        facts.cooldown matches Some(e) && !on_cooldown(e, facts.now) ==> {
            match facts.balance {
                None => step is ReadBalance,
                Some(b) => if may_gamble(b, facts.count as int) {
                    step == (GambleStep::Play { current: b.unwrap() })
                } else {
                    step matches GambleStep::Refuse(r) && r.text@ == gamble_afford_text() && r.ephemeral
                },
            }
        },
{
    match facts.cooldown {
        None => GambleStep::ReadCooldown,
        Some(expiry) => {
            if is_on_cooldown(expiry, facts.now) {
                return GambleStep::Refuse(private_reply(
                    "⛔🐶 Gambling addiction is a serious problem. Regulations require a wait. Try again later...",
                ));
            }
            match facts.balance {
                None => GambleStep::ReadBalance,
                Some(balance) => {
                    let allowed = match balance {
                        Some(c) => c >= facts.count && facts.count <= STAKE_LIMIT,
                        None => false,
                    };
                    if allowed {
                        GambleStep::Play { current: balance.unwrap() }
                    } else {
                        GambleStep::Refuse(private_reply(
                            "You can only gamble as many paws as you have! (Up to 10)",
                        ))
                    }
                },
            }
        },
    }
}

/// The balance after a gamble of `count` paws from `current`: the stake is
/// won or lost, and a balance below zero becomes zero.
pub open spec fn gamble_balance(current: int, count: int, won: bool) -> int {
    let n = if won {
        current + count
    } else {
        current - count
    };
    if n < 0 {
        0
    } else {
        n
    }
}

/// The sum or difference of the gamble fits in an `i32` (an overflow would
/// panic).
pub open spec fn gamble_fits(current: int, count: int, won: bool) -> bool {
    if won {
        i32::MIN <= current + count <= i32::MAX
    } else {
        count != i32::MIN && i32::MIN <= current - count <= i32::MAX
    }
}

/// The balance after the gamble, or `None` where the arithmetic overflows.
pub fn gamble_outcome(current: i32, count: i32, won: bool) -> (r: Option<i32>)
    ensures
        r is None <==> !gamble_fits(current as int, count as int, won),
        r matches Some(n) ==> n == gamble_balance(current as int, count as int, won),
{
    let sum = current as i64 + count as i64;
    let difference = current as i64 - count as i64;
    if won {
        if sum < i32::MIN as i64 || sum > i32::MAX as i64 {
            return None;
        }
        Some(if sum < 0 { 0 } else { sum as i32 })
    } else {
        if count == i32::MIN || difference < i32::MIN as i64 || difference > i32::MAX as i64 {
            return None;
        }
        Some(if difference < 0 { 0 } else { difference as i32 })
    }
}

/// A gamble that was played.
pub struct GambleRound {
    /// The coin came up in the gambler's favour.
    pub won: bool,
    /// The gambler's balance afterwards.
    pub new_paws: i32,
    /// When the gambler may gamble again.
    pub cooldown_expires: i128,
    /// The write that stores the new balance.
    pub write: BalanceWrite,
}

/// Flips a fair coin for the stake and draws the cooldown. `None` when the
/// arithmetic for the side the coin fell on overflows.
pub fn play_gamble(user: i64, current: i32, count: i32, now: i128) -> (r: Option<GambleRound>)
    requires
        CooldownAction::Gamble.fits_after(now as int),
    ensures
        gamble_fits(current as int, count as int, true) && gamble_fits(current as int, count as int, false)
            ==> r is Some,
        r matches Some(round) ==> {
            &&& gamble_fits(current as int, count as int, round.won)
            &&& round.new_paws == gamble_balance(current as int, count as int, round.won)
            &&& round.write == (BalanceWrite::Assign { user, amount: round.new_paws })
            &&& exists|m: int| CooldownAction::Gamble.allows_delay(m)
                && round.cooldown_expires == CooldownAction::Gamble.expiry(now as int, m)
        },
{
    let won = random_ratio(1, 2);
    match gamble_outcome(current, count, won) {
        None => None,
        Some(new_paws) => {
            let cooldown_expires = CooldownAction::Gamble.draw_expiry(now);
            Some(GambleRound {
                won,
                new_paws,
                cooldown_expires,
                write: BalanceWrite::Assign { user, amount: new_paws },
            })
        },
    }
}

/// The text that reports a gamble: whether it was `won`, the `count` at
/// stake and the balance `new_count` after it.
pub open spec fn gamble_result_text(won: bool, count: int, new_count: int) -> Seq<char> {
    "Your gambling "@ + (if won { "paid off"@ } else { "sucked"@ }) + ", you "@ + (if won {
        "won"@
    } else {
        "lost"@
    }) + " "@ + decimal(count) + " paw"@ + plural_s(count) + ", "@ + (if won {
        "giving you"@
    } else {
        "leaving you with"@
    }) + " a total of "@ + decimal(new_count) + " paw"@ + plural_s(new_count) + ". "@ + (if won {
        "📈"@
    } else {
        "📉"@
    })
}

/// The message that reports the outcome of a gamble.
pub fn build_result(won: bool, count: i32, new_count: i32) -> (msg: String)
    ensures
        msg@ == gamble_result_text(won, count as int, new_count as int),
{
    let mut s = String::new();
    s.append("Your gambling ");
    s.append(if won { "paid off" } else { "sucked" });
    s.append(", you ");
    s.append(if won { "won" } else { "lost" });
    s.append(" ");
    push_int(&mut s, count as i64);
    s.append(" paw");
    push_plural_s(&mut s, count as i64);
    s.append(", ");
    s.append(if won { "giving you" } else { "leaving you with" });
    s.append(" a total of ");
    push_int(&mut s, new_count as i64);
    s.append(" paw");
    push_plural_s(&mut s, new_count as i64);
    s.append(". ");
    s.append(if won { "📈" } else { "📉" });
    assert(s@ =~= gamble_result_text(won, count as int, new_count as int));
    s
}

} // verus!
