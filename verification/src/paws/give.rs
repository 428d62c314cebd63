//! `/paw give`: hand paws to another user.
use vstd::prelude::*;
use crate::ledger::{stored_paws, BalanceWrite};
use crate::paws::{private_reply, public_reply, Reply};
use crate::text::{decimal, push_int, push_uint};

verus! {

/// Most paws one command may give or steal.
pub const TRANSFER_LIMIT: i32 = 10i32;

/// The answer to a gift above the limit.
pub open spec fn give_limit_text() -> Seq<char> {
    "You can only give a maximum of 10 paws!"@
}

/// The answer to a giver who does not hold enough paws.
pub open spec fn give_short_text() -> Seq<char> {
    "You don't have enough paws to give!"@
}

/// A balance row covers `count` paws: it holds some paws, and at least
/// `count`.
pub open spec fn covers(stored: Option<i32>, count: int) -> bool {
    stored_paws(stored) != 0 && stored_paws(stored) >= count
}

/// Whether the balance row `stored` covers `count` paws.
pub fn has_enough(stored: Option<i32>, count: i32) -> (b: bool)
    ensures
        b == covers(stored, count as int),
{
    let paws = crate::ledger::paws_or_zero(stored);
    !(paws == 0 || paws < count)
}

/// What is known so far while handling `/paw give`.
pub struct GiveFacts {
    /// The user who gives.
    pub giver: i64,
    /// The user who receives.
    pub receiver: i64,
    /// The number of paws to give.
    pub count: i32,
    /// The giver's balance row once read (`Some(None)` when there is none).
    pub giver_balance: Option<Option<i32>>,
}

/// What `/paw give` does next.
pub enum GiveStep {
    /// Read the giver's balance.
    ReadGiverBalance,
    /// Answer and stop, with nothing written.
    Refuse(Reply),
    /// Take `count` paws from the giver, then credit them to the receiver.
    Transfer { withdraw: BalanceWrite, deposit: BalanceWrite },
}

/// The next step of `/paw give`: the limit is checked before anything is
/// read, then the giver's balance.
pub fn give_step(facts: &GiveFacts) -> (step: GiveStep)
    ensures
        facts.count > TRANSFER_LIMIT ==> (step matches GiveStep::Refuse(r) && r.text@
            == give_limit_text() && r.ephemeral),
        facts.count <= TRANSFER_LIMIT ==> match facts.giver_balance {
            None => step is ReadGiverBalance,
            Some(b) => if covers(b, facts.count as int) {
                step == (GiveStep::Transfer {
                    withdraw: BalanceWrite::Withdraw { user: facts.giver, amount: facts.count },
                    deposit: BalanceWrite::Deposit { user: facts.receiver, amount: facts.count },
                })
            } else {
                step matches GiveStep::Refuse(r) && r.text@ == give_short_text() && !r.ephemeral
            },
        },
{
    if facts.count > TRANSFER_LIMIT {
        return GiveStep::Refuse(private_reply("You can only give a maximum of 10 paws!"));
    }
    match facts.giver_balance {
        None => GiveStep::ReadGiverBalance,
        Some(balance) => {
            if has_enough(balance, facts.count) {
                GiveStep::Transfer {
                    withdraw: BalanceWrite::Withdraw { user: facts.giver, amount: facts.count },
                    deposit: BalanceWrite::Deposit { user: facts.receiver, amount: facts.count },
                }
            } else {
                GiveStep::Refuse(public_reply("You don't have enough paws to give!"))
            }
        },
    }
}

/// The thanks for a gift of `count` paws to the user `receiver`; "paws"
/// takes its "s" only for more than one.
pub open spec fn give_thanks_text(count: int, receiver: int) -> Seq<char> {
    "You gave "@ + decimal(count) + " paw"@ + (if count > 1 {
        "s"@
    } else {
        Seq::empty()
    }) + " to <@"@ + decimal(receiver) + ">! How nice of you."@
}

/// The message that confirms a gift.
pub fn give_thanks(count: i32, receiver: u64) -> (msg: String)
    ensures
        msg@ == give_thanks_text(count as int, receiver as int),
{
    let mut s = String::new();
    s.append("You gave ");
    push_int(&mut s, count as i64);
    s.append(" paw");
    if count > 1 {
        s.append("s");
    }
    s.append(" to <@");
    push_uint(&mut s, receiver);
    s.append(">! How nice of you.");
    assert(s@ =~= give_thanks_text(count as int, receiver as int));
    s
}

} // verus!
