//! `/paw steal`: try to take paws from another user, at the risk of handing
//! the same number over.
use vstd::prelude::*;
use crate::chance::random_ratio;
use crate::cooldown::{is_on_cooldown, on_cooldown, CooldownAction};
use crate::ledger::{paws_or_zero, stored_paws, BalanceWrite};
use crate::paws::give::{covers, has_enough, TRANSFER_LIMIT};
use crate::paws::{private_reply, public_reply, Reply};
use crate::text::{decimal, plural_s, push_int, push_plural_s};

verus! {

/// The answer to an attempt above the limit.
pub open spec fn steal_limit_text() -> Seq<char> {
    "You can only steal a maximum of 10 paws!"@
}

/// The answer while the steal cooldown runs.
pub open spec fn steal_wait_text() -> Seq<char> {
    "The fuzz is hot on your tail, lay low for a while."@
}

/// The answer to a thief who does not hold the stake.
pub open spec fn steal_short_text() -> Seq<char> {
    "You can only steal as many paws as you have!"@
}

/// The answer when the target does not hold the stake.
pub open spec fn steal_target_short_text() -> Seq<char> {
    "That user doesn't have enough paws!"@
}

/// What is known so far while handling `/paw steal`.
pub struct StealFacts {
    /// The user who steals.
    pub thief: i64,
    /// The user stolen from.
    pub target: i64,
    /// The number of paws at stake.
    pub count: i32,
    /// The current instant.
    pub now: i128,
    /// The expiry of the thief's steal cooldown once read.
    pub cooldown: Option<Option<i128>>,
    /// The thief's balance row once read.
    pub thief_balance: Option<Option<i32>>,
    /// The target's balance row once read.
    pub target_balance: Option<Option<i32>>,
}

/// What `/paw steal` does next.
pub enum StealStep {
    /// Read the thief's steal cooldown.
    ReadCooldown,
    /// Read the thief's balance.
    ReadThiefBalance,
    /// Read the target's balance.
    ReadTargetBalance,
    /// Answer and stop, with nothing written.
    Refuse(Reply),
    /// Flip the coin, the thief holding `thief_paws` paws.
    Attempt { thief_paws: i32 },
}

/// The next step of `/paw steal`: the limit, then the cooldown, then the
/// thief's balance, then the target's.
pub fn steal_step(facts: &StealFacts) -> (step: StealStep)
    ensures
        facts.count > TRANSFER_LIMIT ==> (step matches StealStep::Refuse(r) && r.text@
            == steal_limit_text() && !r.ephemeral),
        facts.count <= TRANSFER_LIMIT ==> match facts.cooldown {
            None => step is ReadCooldown,
            Some(e) => if on_cooldown(e, facts.now) {
                step matches StealStep::Refuse(r) && r.text@ == steal_wait_text() && r.ephemeral
            } else {
                match facts.thief_balance {
                    None => step is ReadThiefBalance,
                    Some(own) => if !covers(own, facts.count as int) {
                        step matches StealStep::Refuse(r) && r.text@ == steal_short_text()
                            && !r.ephemeral
                    } else {
                        match facts.target_balance {
                            None => step is ReadTargetBalance,
                            Some(theirs) => if !covers(theirs, facts.count as int) {
                                step matches StealStep::Refuse(r) && r.text@
                                    == steal_target_short_text() && !r.ephemeral
                            } else {
                                step == (StealStep::Attempt {
                                    thief_paws: stored_paws(own) as i32,
                                })
                            },
                        }
                    },
                }
            },
        },
{
    if facts.count > TRANSFER_LIMIT {
        return StealStep::Refuse(public_reply("You can only steal a maximum of 10 paws!"));
    }
    let expiry = match facts.cooldown {
        None => return StealStep::ReadCooldown,
        Some(e) => e,
    };
    if is_on_cooldown(expiry, facts.now) {
        return StealStep::Refuse(
            private_reply("The fuzz is hot on your tail, lay low for a while."),
        );
    }
    let own = match facts.thief_balance {
        None => return StealStep::ReadThiefBalance,
        Some(b) => b,
    };
    if !has_enough(own, facts.count) {
        return StealStep::Refuse(public_reply("You can only steal as many paws as you have!"));
    }
    let theirs = match facts.target_balance {
        None => return StealStep::ReadTargetBalance,
        Some(b) => b,
    };
    if !has_enough(theirs, facts.count) {
        return StealStep::Refuse(public_reply("That user doesn't have enough paws!"));
    }
    StealStep::Attempt { thief_paws: paws_or_zero(own) }
}

/// The thief's balance after the attempt, as the message reports it.
pub open spec fn steal_balance(paws: int, count: int, won: bool) -> int {
    if won {
        paws + count
    } else {
        paws - count
    }
}

/// The arithmetic of the attempt fits in an `i32`: `paws + count` is always
/// computed, `paws - count` when the thief loses (an overflow would panic).
pub open spec fn steal_fits(paws: int, count: int, won: bool) -> bool {
    &&& i32::MIN <= paws + count <= i32::MAX
    &&& !won ==> i32::MIN <= paws - count <= i32::MAX
}

/// The writes of a settled attempt and the thief's balance it reports.
pub struct StealSettlement {
    /// The thief's balance afterwards, as reported.
    pub new_paws: i32,
    /// Takes the stake from the loser of the flip.
    pub withdraw: BalanceWrite,
    /// Gives the stake to the winner of the flip.
    pub increase: BalanceWrite,
}

/// The settlement of an attempt on the coin's outcome: the winner of the
/// flip takes `count` paws from the loser.
pub open spec fn steal_settlement(thief: i64, target: i64, paws: int, count: i32, won: bool) -> StealSettlement {
    StealSettlement {
        new_paws: steal_balance(paws, count as int, won) as i32,
        withdraw: BalanceWrite::Withdraw {
            user: if won {
                target
            } else {
                thief
            },
            amount: count,
        },
        increase: BalanceWrite::Increase {
            user: if won {
                thief
            } else {
                target
            },
            amount: count,
        },
    }
}

/// Settles an attempt on the coin's outcome; `None` where the arithmetic
/// overflows.
pub fn settle_steal(thief: i64, target: i64, paws: i32, count: i32, won: bool) -> (r: Option<
    StealSettlement,
>)
    ensures
        r is None <==> !steal_fits(paws as int, count as int, won),
        r matches Some(s) ==> s == steal_settlement(thief, target, paws as int, count, won)
            && s.new_paws == steal_balance(paws as int, count as int, won),
{
    let sum = paws as i64 + count as i64;
    if sum < i32::MIN as i64 || sum > i32::MAX as i64 {
        return None;
    }
    let mut new_paws = sum as i32;
    let (sender, receiver) = if won {
        (target, thief)
    } else {
        (thief, target)
    };
    if !won {
        let difference = paws as i64 - count as i64;
        if difference < i32::MIN as i64 || difference > i32::MAX as i64 {
            return None;
        }
        new_paws = difference as i32;
    }
    Some(
        StealSettlement {
            new_paws,
            withdraw: BalanceWrite::Withdraw { user: sender, amount: count },
            increase: BalanceWrite::Increase { user: receiver, amount: count },
        },
    )
}

/// An attempt that was played.
pub struct StealRound {
    /// The coin came up in the thief's favour.
    pub won: bool,
    /// The writes and the reported balance.
    pub settlement: StealSettlement,
    /// When the thief may steal again.
    pub cooldown_expires: i128,
}

/// Flips a fair coin for the attempt, settles it and draws the cooldown.
/// `None` when the arithmetic for the side the coin fell on overflows.
pub fn play_steal(thief: i64, target: i64, paws: i32, count: i32, now: i128) -> (r: Option<
    StealRound,
>)
    requires
        CooldownAction::Steal.fits_after(now as int),
    ensures
        steal_fits(paws as int, count as int, true) && steal_fits(paws as int, count as int, false)
            ==> r is Some,
        r matches Some(round) ==> {
            &&& steal_fits(paws as int, count as int, round.won)
            &&& round.settlement == steal_settlement(thief, target, paws as int, count, round.won)
            &&& round.settlement.new_paws == steal_balance(paws as int, count as int, round.won)
            &&& exists|m: int| CooldownAction::Steal.allows_delay(m)
                && round.cooldown_expires == CooldownAction::Steal.expiry(now as int, m)
        },
{
    let won = random_ratio(1, 2);
    match settle_steal(thief, target, paws, count, won) {
        None => None,
        Some(settlement) => {
            let cooldown_expires = CooldownAction::Steal.draw_expiry(now);
            Some(StealRound { won, settlement, cooldown_expires })
        },
    }
}

/// The text that reports an attempt on the user named `target`.
pub open spec fn steal_result_text(won: bool, count: int, new_count: int, target: Seq<char>) -> Seq<
    char,
> {
    "Your thievery "@ + (if won {
        "paid off"@
    } else {
        "sucked"@
    }) + ", you "@ + (if won {
        "stole"@
    } else {
        "gave"@
    }) + " "@ + decimal(count) + " paw"@ + plural_s(count) + " "@ + (if won {
        "from"@
    } else {
        "to"@
    }) + " "@ + target + ", "@ + (if won {
        "giving you"@
    } else {
        "leaving you with"@
    }) + " a total of "@ + decimal(new_count) + " paw"@ + plural_s(new_count) + ". "@ + (if won {
        "📈"@
    } else {
        "📉"@
    })
}

/// The message that reports an attempt on the user named `target`.
pub fn build_steal_result(won: bool, count: i32, new_count: i32, target: &str) -> (msg: String)
    ensures
        msg@ == steal_result_text(won, count as int, new_count as int, target@),
{
    let mut s = String::new();
    s.append("Your thievery ");
    s.append(if won { "paid off" } else { "sucked" });
    s.append(", you ");
    s.append(if won { "stole" } else { "gave" });
    s.append(" ");
    push_int(&mut s, count as i64);
    s.append(" paw");
    push_plural_s(&mut s, count as i64);
    s.append(" ");
    s.append(if won { "from" } else { "to" });
    s.append(" ");
    s.append(target);
    s.append(", ");
    s.append(if won { "giving you" } else { "leaving you with" });
    s.append(" a total of ");
    push_int(&mut s, new_count as i64);
    s.append(" paw");
    push_plural_s(&mut s, new_count as i64);
    s.append(". ");
    s.append(if won { "📈" } else { "📉" });
    assert(s@ =~= steal_result_text(won, count as int, new_count as int, target@));
    s
}

} // verus!
