//! `/paw daily`: claim one paw per UTC day.
use vstd::prelude::*;
use crate::clock::start_of_next_day;
use crate::cooldown::{is_on_cooldown, on_cooldown, CooldownAction};
use crate::ledger::BalanceWrite;
use crate::paws::{private_reply, Reply};
use crate::text::{decimal, push_int};

verus! {

/// The answer to a second claim on the same day.
pub open spec fn daily_taken_text() -> Seq<char> {
    "You've already claimed your daily paw!"@
}

/// What `/paw daily` does once the user's daily cooldown is read.
pub enum DailyStep {
    /// Answer and stop, with nothing written.
    Refuse(Reply),
    /// Start a cooldown that ends at `cooldown_expires` and credit one paw.
    Claim { cooldown_expires: i128, deposit: BalanceWrite },
}

/// Decides a daily claim by `user` at `now`, given the expiry of the user's
/// daily cooldown: refused while it runs, otherwise one paw is credited and
/// the next claim waits for the next UTC midnight.
pub fn daily_step(user: i64, cooldown: Option<i128>, now: i128) -> (step: DailyStep)
    requires
        !on_cooldown(cooldown, now) ==> CooldownAction::Paw.fits_after(now as int),
    ensures
        on_cooldown(cooldown, now) ==> (step matches DailyStep::Refuse(r) && r.text@
            == daily_taken_text() && r.ephemeral),
        !on_cooldown(cooldown, now) ==> step == (DailyStep::Claim {
            cooldown_expires: start_of_next_day(now as int) as i128,
            deposit: BalanceWrite::Deposit { user, amount: 1 },
        }),
{
    if is_on_cooldown(cooldown, now) {
        return DailyStep::Refuse(private_reply("You've already claimed your daily paw!"));
    }
    let cooldown_expires = CooldownAction::Paw.expiry_after(now, 0);
    DailyStep::Claim { cooldown_expires, deposit: BalanceWrite::Deposit { user, amount: 1 } }
}

/// The confirmation of a daily claim, with the balance `total` after it.
pub open spec fn daily_claimed_text(total: int) -> Seq<char> {
    "You claimed your daily paw, and now hold onto "@ + decimal(total) + " paws!"@
}

/// The message that confirms a daily claim.
pub fn daily_claimed(total: i32) -> (msg: String)
    ensures
        msg@ == daily_claimed_text(total as int),
{
    let mut s = String::new();
    s.append("You claimed your daily paw, and now hold onto ");
    push_int(&mut s, total as i64);
    s.append(" paws!");
    assert(s@ =~= daily_claimed_text(total as int));
    s
}

} // verus!
